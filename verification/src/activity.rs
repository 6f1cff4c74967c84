//! Parsing of the foreground-activity report.
//!
//! The device tool prints a stack listing; somewhere in it stands a record
//! of the form `topActivity=ComponentInfo{package/activity}`. The parser
//! finds the leftmost such record: after the literal introducer, the
//! package runs to the first slash and the activity to the first closing
//! brace, both nonempty. The activity is then made relative to the package
//! and given a leading dot.

use vstd::prelude::*;
use vstd::string::*;

use crate::adb::AdbError;
use crate::text::{
    find_char, is_blank, is_prefix, lemma_find_char, spec_blank, spec_find_char, str_starts_with,
};

verus! {

/// The literal that introduces the foreground-activity record.
pub open spec fn activity_pattern() -> Seq<char> {
    "topActivity=ComponentInfo{"@
}

/// The capture at position `i`, if the record matches there.
pub open spec fn spec_match_at(s: Seq<char>, i: int) -> Option<(Seq<char>, Seq<char>)> {
    if i < 0 || i + activity_pattern().len() > s.len() {
        None
    } else if s.subrange(i, i + activity_pattern().len() as int) != activity_pattern() {
        None
    } else {
        let a = i + activity_pattern().len() as int;
        match spec_find_char(s, a, '/') {
            Some(sl) => if sl == a {
                None
            } else {
                match spec_find_char(s, sl + 1, '}') {
                    Some(cl) => if cl == sl + 1 {
                        None
                    } else {
                        Some((s.subrange(a, sl), s.subrange(sl + 1, cl)))
                    },
                    None => None,
                }
            },
            None => None,
        }
    }
}

/// The leftmost record capture at or after `i`.
pub open spec fn spec_find_match_from(s: Seq<char>, i: int) -> Option<(Seq<char>, Seq<char>)>
    decreases s.len() - i,
{
    if i < 0 || i >= s.len() {
        None
    } else if spec_match_at(s, i) is Some {
        spec_match_at(s, i)
    } else {
        spec_find_match_from(s, i + 1)
    }
}

/// The activity name made relative to its package, with a leading dot.
pub open spec fn spec_relative_activity(pkg: Seq<char>, act: Seq<char>) -> Seq<char> {
    if is_prefix(pkg, act) {
        let stripped = act.skip(pkg.len() as int);
        if stripped.len() > 0 && stripped[0] == '.' {
            stripped
        } else {
            "."@ + stripped
        }
    } else if act.len() > 0 && act[0] == '.' {
        act
    } else {
        "."@ + act
    }
}

/// What the activity query's output parses to, if anything: the leftmost
/// record's package, and its activity made relative.
pub open spec fn spec_parse_activity(s: Seq<char>) -> Option<(Seq<char>, Seq<char>)> {
    match spec_find_match_from(s, 0) {
        Some(pa) => Some((pa.0, spec_relative_activity(pa.0, pa.1))),
        None => None,
    }
}

fn capture_at(s: &str, i: usize) -> (r: Option<(String, String)>)
    requires
        i <= s@.len(),
    ensures
        r is Some <==> spec_match_at(s@, i as int) is Some,
        r matches Some(pa) ==> Some((pa.0@, pa.1@)) == spec_match_at(s@, i as int),
{
    let pat = "topActivity=ComponentInfo{";
    let m = pat.unicode_len();
    let n = s.unicode_len();
    if m > n - i {
        return None;
    }
    let sub = s.substring_char(i, i + m);
    proof {
        assert(sub@.subrange(0, pat@.len() as int) =~= sub@);
    }
    if !str_starts_with(sub, pat) {
        return None;
    }
    let a = i + m;
    match find_char(s, a, '/') {
        None => None,
        Some(sl) => {
            proof {
                lemma_find_char(s@, a as int, '/');
            }
            if sl == a {
                return None;
            }
            match find_char(s, sl + 1, '}') {
                None => None,
                Some(cl) => {
                    proof {
                        lemma_find_char(s@, sl + 1 as int, '}');
                    }
                    if cl == sl + 1 {
                        return None;
                    }
                    let pkg = s.substring_char(a, sl).to_owned();
                    let act = s.substring_char(sl + 1, cl).to_owned();
                    Some((pkg, act))
                },
            }
        },
    }
}

/// The activity name made relative to its package: a package prefix is
/// stripped, and a leading dot is supplied where missing.
pub fn relative_activity(pkg: &String, act: &String) -> (r: String)
    ensures
        r@ == spec_relative_activity(pkg@, act@),
{
    let alen = act.as_str().unicode_len();
    if str_starts_with(act.as_str(), pkg.as_str()) {
        let plen = pkg.as_str().unicode_len();
        let stripped = act.as_str().substring_char(plen, alen);
        proof {
            assert(stripped@ =~= act@.skip(pkg@.len() as int));
        }
        if stripped.unicode_len() > 0 && stripped.get_char(0) == '.' {
            stripped.to_owned()
        } else {
            ".".to_owned().concat(stripped)
        }
    } else if alen > 0 && act.as_str().get_char(0) == '.' {
        act.clone()
    } else {
        ".".to_owned().concat(act.as_str())
    }
}

/// Finds the leftmost foreground-activity record: its package name, and its
/// activity name made relative; or a parse failure naming the output.
pub fn parse_activity_output(output: &str) -> (r: Result<(String, String), AdbError>)
    ensures
        r is Ok <==> spec_parse_activity(output@) is Some,
        r matches Ok(pa) ==> Some((pa.0@, pa.1@)) == spec_parse_activity(output@),
        r matches Err(e) ==> (e matches AdbError::ParseFailed { output: o } && o@ == output@),
{
    let n = output.unicode_len();
    let mut i: usize = 0;
    while i < n
        invariant
            i <= n,
            n == output@.len(),
            spec_find_match_from(output@, 0) == spec_find_match_from(output@, i as int),
        decreases n - i,
    {
        match capture_at(output, i) {
            Some(pa) => {
                let rel = relative_activity(&pa.0, &pa.1);
                return Ok((pa.0, rel));
            },
            None => {},
        }
        i = i + 1;
    }
    Err(AdbError::ParseFailed { output: output.to_owned() })
}

/// The foreground-activity result once the query's output is in hand: blank
/// output reports no visible activity; anything else is parsed.
pub fn activity_from_output(output: &str) -> (r: Result<(String, String), AdbError>)
    ensures
        spec_blank(output@) ==> (r matches Err(e) && e == AdbError::NoVisibleActivity),
        !spec_blank(output@) ==> ((r is Ok <==> spec_parse_activity(output@) is Some) && (
        r matches Ok(pa) ==> Some((pa.0@, pa.1@)) == spec_parse_activity(output@)) && (
        r matches Err(e) ==> (e matches AdbError::ParseFailed { output: o } && o@ == output@))),
{
    if is_blank(output) {
        Err(AdbError::NoVisibleActivity)
    } else {
        parse_activity_output(output)
    }
}

/// The unary window-info response: a business failure surfaces as a
/// structured result with its error text, never as a transport failure.
pub struct WindowInfoReply {
    pub package_name: String,
    pub activity_name: String,
    pub timestamp: i64,
    pub success: bool,
    pub error_message: String,
}

/// Relies on chrono::Utc::now and DateTime::timestamp_millis: the
/// milliseconds since the Unix epoch, read from the system clock (which
/// chrono expects not to stand before that epoch). Nothing is assumed of
/// the value; callers treat it as an arbitrary reading.
#[verifier::external_body]
fn now_millis() -> i64 {
    chrono::Utc::now().timestamp_millis()
}

/// Builds the window-info response from the activity result and the clock
/// reading the embedding process supplies.
pub fn build_window_info_reply(result: Result<(String, String), AdbError>, timestamp: i64) -> (r:
    WindowInfoReply)
    ensures
        r.timestamp == timestamp,
        result matches Ok(pa) ==> (r.success && r.package_name@ == pa.0@ && r.activity_name@
            == pa.1@ && r.error_message@ == Seq::<char>::empty()),
        result matches Err(e) ==> (!r.success && r.error_message@ == e.spec_message()
            && r.package_name@ == Seq::<char>::empty() && r.activity_name@ == Seq::<
        char,
        >::empty()),
{
    match result {
        Ok(pa) => WindowInfoReply {
            package_name: pa.0,
            activity_name: pa.1,
            timestamp: timestamp,
            success: true,
            error_message: String::new(),
        },
        Err(e) => WindowInfoReply {
            package_name: String::new(),
            activity_name: String::new(),
            timestamp: timestamp,
            success: false,
            error_message: e.message(),
        },
    }
}

/// The window-info response stamped with the clock reading at the moment
/// of the call; the rest is exactly `build_window_info_reply`.
pub fn build_window_info_reply_now(result: Result<(String, String), AdbError>) -> (r:
    WindowInfoReply)
    ensures
        result matches Ok(pa) ==> (r.success && r.package_name@ == pa.0@ && r.activity_name@
            == pa.1@ && r.error_message@ == Seq::<char>::empty()),
        result matches Err(e) ==> (!r.success && r.error_message@ == e.spec_message()
            && r.package_name@ == Seq::<char>::empty() && r.activity_name@ == Seq::<
        char,
        >::empty()),
{
    let timestamp = now_millis();
    build_window_info_reply(result, timestamp)
}

} // verus!
