//! Path policies: which canonical paths the pipeline may consume or send.
//!
//! Paths are POSIX paths held as text. The caller resolves a candidate on the
//! file system (existence, symlinks, `.` and `..`) and hands the outcome over
//! as a [`PathProbe`]; containment is then decided here on the canonical text,
//! component by component, never as a bare text prefix.
use vstd::prelude::*;
use crate::error::{Policy, PathRejection, ReportError};

verus! {

/// The application's identifier, which names its cache and data directories.
pub const APP_ID: &'static str = "com.y-migita.pasha-log";

/// The name of the output tree under the user's pictures directory.
pub const OUTPUT_DIR_NAME: &'static str = "auto-daily-report";

/// What the file system said of a candidate path.
#[derive(Clone, Debug)]
pub enum PathProbe {
    /// Nothing exists at the path.
    Missing,
    /// It exists but could not be canonicalized; the reason.
    Unresolvable(String),
    /// Its canonical form, with every symlink resolved.
    Resolved(String),
}

/// Whether the canonical path `path` is `root` or lies under it: `root` is a
/// whole-component prefix of `path`. An empty root admits nothing.
pub open spec fn within(path: Seq<char>, root: Seq<char>) -> bool {
    &&& root.len() > 0
    &&& root.len() <= path.len()
    &&& path.subrange(0, root.len() as int) == root
    &&& (path.len() == root.len() || root.last() == '/' || path[root.len() as int] == '/')
}

/// Whether some root of the allow-list admits `path`.
pub open spec fn admitted(path: Seq<char>, roots: Seq<String>) -> bool {
    exists|i: int| 0 <= i < roots.len() && within(path, #[trigger] roots[i]@)
}

/// `base` joined with the relative component `name`.
pub open spec fn joined_path(base: Seq<char>, name: Seq<char>) -> Seq<char> {
    if base.len() == 0 || base.last() == '/' {
        base + name
    } else {
        base + seq!['/'] + name
    }
}

/// The index of the last `c` in `s` before index `n`, or -1.
pub open spec fn last_index_of(s: Seq<char>, c: char, n: nat) -> int
    decreases n,
{
    if n == 0 {
        -1
    } else if n <= s.len() && s[n - 1] == c {
        n - 1
    } else {
        last_index_of(s, c, (n - 1) as nat)
    }
}

/// Where the final component of `p` begins.
pub open spec fn name_start(p: Seq<char>) -> int {
    last_index_of(p, '/', p.len()) + 1
}

/// `p` without the extension of its final component, if it has one. A dot
/// that opens the final component starts no extension.
pub open spec fn without_extension(p: Seq<char>) -> Seq<char> {
    let dot = last_index_of(p, '.', p.len());
    if dot > name_start(p) {
        p.subrange(0, dot)
    } else {
        p
    }
}

/// The path of the result file kept beside the image at `p`.
pub open spec fn sidecar_of(p: Seq<char>) -> Seq<char> {
    without_extension(p) + ".json"@
}

/// Whether `path` is `root` or lies under it, by whole components.
pub fn is_within(path: &str, root: &str) -> (r: bool)
    ensures
        r == within(path@, root@),
{
    let rl = root.unicode_len();
    let pl = path.unicode_len();
    if rl == 0 || rl > pl {
        return false;
    }
    let mut i: usize = 0;
    while i < rl
        invariant
            i <= rl <= pl,
            rl == root@.len(),
            pl == path@.len(),
            path@.subrange(0, i as int) =~= root@.subrange(0, i as int),
        decreases rl - i,
    {
        if path.get_char(i) != root.get_char(i) {
            assert(path@.subrange(0, rl as int)[i as int] != root@[i as int]);
            return false;
        }
        assert(path@.subrange(0, i as int + 1) =~= root@.subrange(0, i as int + 1));
        i = i + 1;
    }
    assert(root@.subrange(0, rl as int) =~= root@);
    if rl == pl {
        true
    } else if root.get_char(rl - 1) == '/' {
        true
    } else {
        path.get_char(rl) == '/'
    }
}

/// Whether some root of `roots` admits `path`.
pub fn is_admitted(path: &str, roots: &Vec<String>) -> (r: bool)
    ensures
        r == admitted(path@, roots@),
{
    let mut i: usize = 0;
    while i < roots.len()
        invariant
            i <= roots@.len(),
            forall|j: int| 0 <= j < i ==> !within(path@, #[trigger] roots@[j]@),
        decreases roots.len() - i,
    {
        if is_within(path, roots[i].as_str()) {
            return true;
        }
        i = i + 1;
    }
    false
}

/// Joins the relative component `name` onto `base`.
pub fn join_path(base: &str, name: &str) -> (r: String)
    ensures
        r@ == joined_path(base@, name@),
{
    let mut s = String::from_str(base);
    let n = base.unicode_len();
    if n > 0 && base.get_char(n - 1) != '/' {
        proof {
            reveal_strlit("/");
        }
        s.append("/");
    }
    s.append(name);
    s
}

proof fn lemma_last_index_range(s: Seq<char>, c: char, n: nat)
    ensures
        -1 <= last_index_of(s, c, n) < n,
    decreases n,
{
    if n > 0 {
        lemma_last_index_range(s, c, (n - 1) as nat);
    }
}

fn last_index(s: &str, c: char) -> (r: Option<usize>)
    ensures
        match r {
            Some(i) => i as int == last_index_of(s@, c, s@.len()) && i < s@.len(),
            None => last_index_of(s@, c, s@.len()) == -1,
        },
{
    proof {
        lemma_last_index_range(s@, c, s@.len());
    }
    let mut n: usize = s.unicode_len();
    while n > 0
        invariant
            n <= s@.len(),
            last_index_of(s@, c, s@.len()) == last_index_of(s@, c, n as nat),
        decreases n,
    {
        if s.get_char(n - 1) == c {
            return Some(n - 1);
        }
        n = n - 1;
    }
    None
}

/// The path of the result file kept beside the image at `image_path`: the
/// same path with its extension replaced by `.json`.
pub fn sidecar_path(image_path: &str) -> (r: String)
    ensures
        r@ == sidecar_of(image_path@),
{
    let cut = match last_index(image_path, '.') {
        Some(dot) => match last_index(image_path, '/') {
            Some(slash) => if dot > slash && dot - slash > 1 {
                Some(dot)
            } else {
                None
            },
            None => if dot > 0 {
                Some(dot)
            } else {
                None
            },
        },
        None => None,
    };
    proof {
        lemma_last_index_range(image_path@, '.', image_path@.len());
        lemma_last_index_range(image_path@, '/', image_path@.len());
    }
    assert(match cut {
        Some(d) => d as int == last_index_of(image_path@, '.', image_path@.len()) && d as int
            > name_start(image_path@),
        None => !(last_index_of(image_path@, '.', image_path@.len()) > name_start(image_path@)),
    });
    let mut s = match cut {
        Some(dot) => String::from_str(image_path.substring_char(0, dot)),
        None => String::from_str(image_path),
    };
    s.append(".json");
    s
}

/// The directory named after the application under `base`.
pub fn app_subdir(base: &str) -> (r: String)
    ensures
        r@ == joined_path(base@, APP_ID@),
{
    join_path(base, APP_ID)
}

/// The root of the output tree under the pictures directory `pictures`.
pub fn output_root(pictures: &str) -> (r: String)
    ensures
        r@ == joined_path(pictures@, OUTPUT_DIR_NAME@),
{
    join_path(pictures, OUTPUT_DIR_NAME)
}

/// The allow-list for sources about to be consumed: the temporary directory,
/// then the application's cache and data directories where they resolved.
pub open spec fn temp_and_cache_list(
    temp: String,
    app_cache: Option<String>,
    app_data: Option<String>,
) -> Seq<String> {
    let first = seq![temp];
    let second = match app_cache {
        Some(c) => first.push(c),
        None => first,
    };
    match app_data {
        Some(d) => second.push(d),
        None => second,
    }
}

/// Builds the allow-list for sources about to be consumed, from the
/// canonical temporary directory and the canonical application cache and
/// data directories that exist.
pub fn temp_and_cache_roots(
    temp: String,
    app_cache: Option<String>,
    app_data: Option<String>,
) -> (r: Vec<String>)
    ensures
        r@ == temp_and_cache_list(temp, app_cache, app_data),
{
    let mut roots: Vec<String> = Vec::new();
    roots.push(temp);
    match app_cache {
        Some(c) => roots.push(c),
        None => {},
    }
    match app_data {
        Some(d) => roots.push(d),
        None => {},
    }
    assert(roots@ =~= temp_and_cache_list(temp, app_cache, app_data));
    roots
}

/// The outcome of checking a probed path against an allow-list.
pub open spec fn policy_outcome(policy: Policy, probe: PathProbe, roots: Seq<String>) -> Result<
    String,
    ReportError,
> {
    match probe {
        PathProbe::Missing => Err(ReportError::PathRejected(policy, PathRejection::NotFound)),
        PathProbe::Unresolvable(d) => Err(
            ReportError::PathRejected(policy, PathRejection::Unresolvable(d)),
        ),
        PathProbe::Resolved(c) => if admitted(c@, roots) {
            Ok(c)
        } else {
            Err(ReportError::PathRejected(policy, PathRejection::OutsidePolicy(c)))
        },
    }
}

fn check_policy(policy: Policy, probe: PathProbe, roots: &Vec<String>) -> (r: Result<
    String,
    ReportError,
>)
    ensures
        r == policy_outcome(policy, probe, roots@),
{
    match probe {
        PathProbe::Missing => Err(ReportError::PathRejected(policy, PathRejection::NotFound)),
        PathProbe::Unresolvable(d) => Err(
            ReportError::PathRejected(policy, PathRejection::Unresolvable(d)),
        ),
        PathProbe::Resolved(c) => {
            if is_admitted(c.as_str(), roots) {
                Ok(c)
            } else {
                Err(ReportError::PathRejected(policy, PathRejection::OutsidePolicy(c)))
            }
        },
    }
}

/// Checks a source about to be consumed against the temp-and-cache
/// allow-list `roots`. Returns its canonical path.
pub fn validate_temp_path(probe: PathProbe, roots: &Vec<String>) -> (r: Result<
    String,
    ReportError,
>)
    ensures
        r == policy_outcome(Policy::TempAndCache, probe, roots@),
{
    check_policy(Policy::TempAndCache, probe, roots)
}

/// The outcome of checking an image about to be sent for analysis.
pub open spec fn artifact_outcome(probe: PathProbe, artifact_root: Option<String>) -> Result<
    String,
    ReportError,
> {
    match probe {
        PathProbe::Resolved(c) => match artifact_root {
            None => Err(ReportError::PicturesDirUnknown),
            Some(root) => policy_outcome(Policy::ArtifactRoot, probe, seq![root]),
        },
        _ => policy_outcome(Policy::ArtifactRoot, probe, Seq::empty()),
    }
}

/// Checks an image about to be sent for analysis against the application's
/// own output tree `artifact_root` (absent where the pictures directory is
/// unknown). Returns its canonical path.
pub fn validate_pictures_path(probe: PathProbe, artifact_root: Option<String>) -> (r: Result<
    String,
    ReportError,
>)
    ensures
        r == artifact_outcome(probe, artifact_root),
{
    match probe {
        PathProbe::Resolved(_) => match artifact_root {
            None => Err(ReportError::PicturesDirUnknown),
            Some(root) => {
                let mut roots: Vec<String> = Vec::new();
                roots.push(root);
                assert(roots@ =~= seq![root]);
                check_policy(Policy::ArtifactRoot, probe, &roots)
            },
        },
        _ => {
            let roots: Vec<String> = Vec::new();
            assert(roots@ =~= Seq::<String>::empty());
            check_policy(Policy::ArtifactRoot, probe, &roots)
        },
    }
}

} // verus!
