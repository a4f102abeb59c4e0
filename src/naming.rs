//! Names of artifacts: the date-partitioned directory, the time stem and
//! the three-digit disambiguator.
use vstd::prelude::*;
use crate::error::ReportError;
use crate::text::{padded, push_padded};

verus! {

/// The highest disambiguator; one second holds at most this many artifacts.
pub const MAX_SEQUENCE: u32 = 999;

/// A local date and time, to the second, as the clock gave it.
#[derive(Clone, Copy, Debug, PartialEq, Eq, Structural)]
pub struct LocalStamp {
    pub year: u32,
    pub month: u32,
    pub day: u32,
    pub hour: u32,
    pub minute: u32,
    pub second: u32,
}

impl LocalStamp {
    /// A calendar date and a time of day, with a four-digit year.
    pub open spec fn wf(self) -> bool {
        &&& self.year <= 9999
        &&& 1 <= self.month <= 12
        &&& 1 <= self.day <= 31
        &&& self.hour < 24
        &&& self.minute < 60
        &&& self.second <= 60
    }
}

/// The name of the directory of one day: `YYYY-MM-DD`.
pub open spec fn date_dir_text(t: LocalStamp) -> Seq<char> {
    padded(t.year as nat, 4) + seq!['-'] + padded(t.month as nat, 2) + seq!['-'] + padded(
        t.day as nat,
        2,
    )
}

/// The stem of the artifacts of one second: `YYYYMMDD_HHMMSS`.
pub open spec fn stem_text(t: LocalStamp) -> Seq<char> {
    padded(t.year as nat, 4) + padded(t.month as nat, 2) + padded(t.day as nat, 2) + seq!['_']
        + padded(t.hour as nat, 2) + padded(t.minute as nat, 2) + padded(t.second as nat, 2)
}

/// The file name of artifact `n` of the second with stem `stem`: `<stem>_NNN.jpg`.
pub open spec fn artifact_name(stem: Seq<char>, n: nat) -> Seq<char> {
    stem + seq!['_'] + padded(n, 3) + ".jpg"@
}

/// The name of the directory of the day of `t`.
pub fn date_dir_name(t: &LocalStamp) -> (r: String)
    ensures
        r@ == date_dir_text(*t),
{
    proof {
        reveal_strlit("-");
    }
    let mut s = String::new();
    push_padded(&mut s, t.year as u64, 4);
    s.append("-");
    push_padded(&mut s, t.month as u64, 2);
    s.append("-");
    push_padded(&mut s, t.day as u64, 2);
    assert(s@ =~= date_dir_text(*t));
    s
}

/// The stem of the artifacts of the second of `t`.
pub fn stem_name(t: &LocalStamp) -> (r: String)
    ensures
        r@ == stem_text(*t),
{
    proof {
        reveal_strlit("_");
    }
    let mut s = String::new();
    push_padded(&mut s, t.year as u64, 4);
    push_padded(&mut s, t.month as u64, 2);
    push_padded(&mut s, t.day as u64, 2);
    s.append("_");
    push_padded(&mut s, t.hour as u64, 2);
    push_padded(&mut s, t.minute as u64, 2);
    push_padded(&mut s, t.second as u64, 2);
    assert(s@ =~= stem_text(*t));
    s
}

/// The file name of artifact `n` under the stem `stem`.
pub fn artifact_file_name(stem: &str, n: u32) -> (r: String)
    ensures
        r@ == artifact_name(stem@, n as nat),
{
    proof {
        reveal_strlit("_");
    }
    let mut s = String::from_str(stem);
    s.append("_");
    push_padded(&mut s, n as u64, 3);
    s.append(".jpg");
    assert(s@ =~= artifact_name(stem@, n as nat));
    s
}

/// Whether an entry named like artifact `n` of `stem` already exists among `existing`.
pub open spec fn slot_taken(stem: Seq<char>, existing: Seq<String>, n: nat) -> bool {
    exists|i: int| 0 <= i < existing.len() && (#[trigger] existing[i])@ == artifact_name(stem, n)
}

/// Whether `n` is the lowest disambiguator in `1..=999` whose name is free.
pub open spec fn is_first_free(stem: Seq<char>, existing: Seq<String>, n: nat) -> bool {
    &&& 1 <= n <= MAX_SEQUENCE
    &&& !slot_taken(stem, existing, n)
    &&& forall|m: nat| 1 <= m < n ==> #[trigger] slot_taken(stem, existing, m)
}

/// Whether every disambiguator of `stem` is taken.
pub open spec fn all_taken(stem: Seq<char>, existing: Seq<String>) -> bool {
    forall|m: nat| 1 <= m <= MAX_SEQUENCE ==> #[trigger] slot_taken(stem, existing, m)
}

fn contains_name(existing: &Vec<String>, name: &String) -> (r: bool)
    ensures
        r == exists|i: int| 0 <= i < existing@.len() && (#[trigger] existing@[i])@ == name@,
{
    let mut i: usize = 0;
    while i < existing.len()
        invariant
            i <= existing@.len(),
            forall|j: int| 0 <= j < i ==> (#[trigger] existing@[j])@ != name@,
        decreases existing.len() - i,
    {
        if existing[i] == *name {
            return true;
        }
        i = i + 1;
    }
    false
}

/// The lowest disambiguator of `stem` whose file name is not among the
/// entries `existing` of the day's directory, scanning upwards from 1.
/// Fails when all of them are taken.
pub fn first_free_slot(stem: &str, existing: &Vec<String>) -> (r: Result<u32, ReportError>)
    ensures
        match r {
            Ok(n) => is_first_free(stem@, existing@, n as nat),
            Err(e) => e == ReportError::SequenceExhausted && all_taken(stem@, existing@),
        },
{
    let mut n: u32 = 1;
    while n <= MAX_SEQUENCE
        invariant
            1 <= n <= MAX_SEQUENCE + 1,
            forall|m: nat| 1 <= m < n ==> #[trigger] slot_taken(stem@, existing@, m),
        decreases MAX_SEQUENCE + 1 - n,
    {
        let name = artifact_file_name(stem, n);
        if !contains_name(existing, &name) {
            return Ok(n);
        }
        n = n + 1;
    }
    Err(ReportError::SequenceExhausted)
}

/// Two artifacts made within one second on a day whose directory holds none
/// of that second yet get the disambiguators 001 and then 002: names that
/// differ only in that suffix.
pub proof fn lemma_same_second_sequence(stem: Seq<char>, existing: Seq<String>, first: String)
    requires
        forall|n: nat| 1 <= n <= MAX_SEQUENCE ==> !#[trigger] slot_taken(stem, existing, n),
        first@ == artifact_name(stem, 1),
    ensures
        is_first_free(stem, existing, 1),
        is_first_free(stem, existing.push(first), 2),
        artifact_name(stem, 1) == stem + "_001.jpg"@,
        artifact_name(stem, 2) == stem + "_002.jpg"@,
        artifact_name(stem, 1) != artifact_name(stem, 2),
{
    lemma_padded_small(stem);
    let later = existing.push(first);
    assert(later[existing.len() as int] == first);
    assert(slot_taken(stem, later, 1));
    assert forall|m: nat| 1 <= m < 2 implies #[trigger] slot_taken(stem, later, m) by {}
    let s1 = artifact_name(stem, 1);
    let s2 = artifact_name(stem, 2);
    assert(s1[stem.len() + 3int] != s2[stem.len() + 3int]);
    if slot_taken(stem, later, 2) {
        let i = choose|i: int| 0 <= i < later.len() && (#[trigger] later[i])@ == artifact_name(stem, 2);
        if i < existing.len() {
            assert(existing[i] == later[i]);
            assert(slot_taken(stem, existing, 2));
        }
    }
}

proof fn lemma_padded_small(stem: Seq<char>)
    ensures
        artifact_name(stem, 1) == stem + "_001.jpg"@,
        artifact_name(stem, 2) == stem + "_002.jpg"@,
{
    reveal_strlit("_001.jpg");
    reveal_strlit("_002.jpg");
    reveal_strlit(".jpg");
    assert(crate::text::decimal(1) == seq!['1']);
    assert(crate::text::decimal(2) == seq!['2']);
    assert(artifact_name(stem, 1) =~= stem + "_001.jpg"@);
    assert(artifact_name(stem, 2) =~= stem + "_002.jpg"@);
}

} // verus!
