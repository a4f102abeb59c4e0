//! The ambient context attached to an analysis: the WiFi network and the
//! position, each best-effort and possibly absent.
use vstd::prelude::*;
use crate::text::{decimal, padded, push_decimal, push_padded};

verus! {

/// A position in millionths of a degree.
#[derive(Clone, Copy, Debug, PartialEq, Eq, Structural)]
pub struct LocationInfo {
    pub latitude_micro: i64,
    pub longitude_micro: i64,
}

/// A snapshot of the ambient context.
#[derive(Clone, Debug)]
pub struct ContextInfo {
    pub wifi_ssid: Option<String>,
    pub location: Option<LocationInfo>,
}

/// The SSID of the WiFi network in use. No WiFi interface is reachable on
/// this platform, so it is never known.
pub fn get_wifi_ssid() -> (r: Option<String>)
    ensures
        r is None,
{
    None
}

/// The last known position. No location service is reachable on this
/// platform, so it is never known.
pub fn get_location() -> (r: Option<LocationInfo>)
    ensures
        r is None,
{
    None
}

/// The ambient context as far as this platform can tell.
pub fn collect_context_info() -> (r: ContextInfo)
    ensures
        r.wifi_ssid is None,
        r.location is None,
{
    ContextInfo { wifi_ssid: get_wifi_ssid(), location: get_location() }
}

/// A coordinate in millionths of a degree, written in degrees with six decimals.
pub open spec fn degrees_text(micro: i64) -> Seq<char> {
    let a: nat = if micro < 0 {
        (-micro) as nat
    } else {
        micro as nat
    };
    (if micro < 0 {
        seq!['-']
    } else {
        Seq::empty()
    }) + decimal(a / 1_000_000) + seq!['.'] + padded(a % 1_000_000, 6)
}

/// Writes a coordinate in millionths of a degree in degrees with six decimals.
pub fn push_degrees(s: &mut String, micro: i64)
    ensures
        final(s)@ == old(s)@ + degrees_text(micro),
{
    let ghost start = s@;
    let a: u64 = if micro < 0 {
        proof {
            reveal_strlit("-");
        }
        s.append("-");
        (-(micro as i128)) as u64
    } else {
        micro as u64
    };
    push_decimal(s, a / 1_000_000);
    proof {
        reveal_strlit(".");
    }
    s.append(".");
    push_padded(s, a % 1_000_000, 6);
    assert(s@ =~= start + degrees_text(micro));
}

/// The line that names the WiFi network.
pub open spec fn wifi_line(ssid: Seq<char>) -> Seq<char> {
    "接続WiFi: "@ + ssid
}

/// The line that gives the position.
pub open spec fn location_line(loc: LocationInfo) -> Seq<char> {
    "位置: 緯度"@ + degrees_text(loc.latitude_micro) + ", 経度"@ + degrees_text(
        loc.longitude_micro,
    )
}

/// The block appended to the prompt: a heading and one line per known
/// field, or nothing when no field is known.
pub open spec fn context_text(info: ContextInfo) -> Seq<char> {
    match (info.wifi_ssid, info.location) {
        (None, None) => Seq::empty(),
        (Some(w), None) => "\n\n【追加コンテキスト】\n"@ + wifi_line(w@),
        (None, Some(l)) => "\n\n【追加コンテキスト】\n"@ + location_line(l),
        (Some(w), Some(l)) => "\n\n【追加コンテキスト】\n"@ + wifi_line(w@) + "\n"@ + location_line(l),
    }
}

/// Writes the context block for the prompt.
pub fn format_context_info(info: &ContextInfo) -> (r: String)
    ensures
        r@ == context_text(*info),
{
    let mut s = String::new();
    if info.wifi_ssid.is_none() && info.location.is_none() {
        assert(s@ =~= context_text(*info));
        return s;
    }
    s.append("\n\n【追加コンテキスト】\n");
    match &info.wifi_ssid {
        Some(w) => {
            s.append("接続WiFi: ");
            s.append(w.as_str());
            if info.location.is_some() {
                s.append("\n");
            }
        },
        None => {},
    }
    match &info.location {
        Some(l) => {
            s.append("位置: 緯度");
            push_degrees(&mut s, l.latitude_micro);
            s.append(", 経度");
            push_degrees(&mut s, l.longitude_micro);
        },
        None => {},
    }
    assert(s@ =~= context_text(*info));
    s
}

} // verus!
