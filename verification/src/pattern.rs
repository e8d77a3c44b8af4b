//! Regular expressions, matched by the `regex` crate.
use vstd::prelude::*;

verus! {

/// What `regex::Regex::new` gives for a pattern: success, or the text of its error.
pub uninterp spec fn regex_compiled(pattern: Seq<char>) -> Result<(), Seq<char>>;

/// The capture groups of the leftmost match of a pattern in a text, as
/// `regex::Regex::captures` finds them (group 0 is the whole match; a group
/// that did not take part is `None`); `None` when nothing matches.
pub uninterp spec fn regex_first_captures(pattern: Seq<char>, text: Seq<char>) -> Option<Seq<Option<Seq<char>>>>;

/// The capture groups of every non-overlapping match of a pattern in a
/// text, left to right, as `regex::Regex::captures_iter` yields them.
pub uninterp spec fn regex_all_captures(pattern: Seq<char>, text: Seq<char>) -> Seq<Seq<Option<Seq<char>>>>;

/// What `regex::Regex::replace` gives: the text with its leftmost match replaced.
pub uninterp spec fn regex_replace_first(pattern: Seq<char>, text: Seq<char>, with: Seq<char>) -> Seq<char>;

/// Calls `regex::Regex::new` on a pattern and reports whether it compiles.
#[verifier::external_body]
pub(crate) fn check_pattern(pattern: &str) -> (r: Result<(), String>)
    ensures
        match r {
            Ok(()) => regex_compiled(pattern@) is Ok,
            Err(e) => regex_compiled(pattern@) == Err::<(), Seq<char>>(e@),
        },
{
    match regex::Regex::new(pattern) {
        Ok(_) => Ok(()),
        Err(e) => Err(e.to_string()),
    }
}

/// Calls `regex::Regex::captures` with a pattern that compiles; the groups are
/// copied into owned strings.
#[verifier::external_body]
pub(crate) fn first_captures(pattern: &str, text: &str) -> (r: Option<Vec<Option<String>>>)
    requires
        regex_compiled(pattern@) is Ok,
    ensures
        r.deep_view() == regex_first_captures(pattern@, text@),
{
    let re = regex::Regex::new(pattern).expect("pattern compiles");
    re.captures(text).map(|c| c.iter().map(|m| m.map(|m| m.as_str().to_string())).collect())
}

/// Calls `regex::Regex::captures_iter` with a pattern that compiles and
/// collects the groups of every match into owned strings.
#[verifier::external_body]
pub(crate) fn all_captures(pattern: &str, text: &str) -> (r: Vec<Vec<Option<String>>>)
    requires
        regex_compiled(pattern@) is Ok,
    ensures
        r.deep_view() == regex_all_captures(pattern@, text@),
{
    let re = regex::Regex::new(pattern).expect("pattern compiles");
    re.captures_iter(text).map(|c| c.iter().map(|m| m.map(|m| m.as_str().to_string())).collect()).collect()
}

/// Calls `regex::Regex::replace` with a pattern that compiles.
#[verifier::external_body]
pub(crate) fn replace_first(pattern: &str, text: &str, with: &str) -> (r: String)
    requires
        regex_compiled(pattern@) is Ok,
    ensures
        r@ == regex_replace_first(pattern@, text@, with@),
{
    let re = regex::Regex::new(pattern).expect("pattern compiles");
    re.replace(text, with).into_owned()
}

/// The text of group `i` of a match, if the match and the group exist.
pub open spec fn capture_group(caps: Option<Seq<Option<Seq<char>>>>, i: int) -> Option<Seq<char>> {
    match caps {
        Some(g) => if 0 <= i < g.len() { g[i] } else { None },
        None => None,
    }
}

/// Reads group `i` of a match.
pub fn group(caps: &Option<Vec<Option<String>>>, i: usize) -> (r: Option<String>)
    ensures
        r.deep_view() == capture_group(caps.deep_view(), i as int),
{
    match caps {
        Some(g) => {
            if i < g.len() {
                match &g[i] {
                    Some(s) => Some(s.clone()),
                    None => None,
                }
            } else {
                None
            }
        },
        None => None,
    }
}

} // verus!
