//! Regular-expression matching through the `regex` crate.
//!
//! Patterns are handed over as their source text; a pattern that `Regex::new` refuses
//! matches nothing.

use vstd::prelude::*;

verus! {

/// Whether `Regex::new` accepts the pattern.
pub uninterp spec fn regex_valid(pattern: Seq<char>) -> bool;

/// The text of the leftmost-first match of the pattern (`Regex::find`).
pub uninterp spec fn regex_first_match(pattern: Seq<char>, text: Seq<char>) -> Option<Seq<char>>;

/// The capture groups of the leftmost-first match (`Regex::captures`), group 0 first;
/// a group that did not take part in the match is `None`.
pub uninterp spec fn regex_first_captures(pattern: Seq<char>, text: Seq<char>) -> Option<Seq<Option<Seq<char>>>>;

/// The successive non-overlapping matches (`Regex::captures_iter`): for each, the text between
/// the previous match (or the start) and this one, with the match's capture groups; then the
/// text after the last match.
pub uninterp spec fn regex_match_segments(pattern: Seq<char>, text: Seq<char>)
    -> (Seq<(Seq<char>, Seq<Option<Seq<char>>>)>, Seq<char>);

/// For the first match, the text before and after capture group `group`
/// (`Captures::get(group)` and its byte range), when that group took part.
pub uninterp spec fn regex_group_surroundings(pattern: Seq<char>, text: Seq<char>, group: nat)
    -> Option<(Seq<char>, Seq<char>)>;

/// The views of the segments a `captures_iter` walk hands back.
pub open spec fn segment_views(v: Seq<(String, Vec<Option<String>>)>) -> Seq<(Seq<char>, Seq<Option<Seq<char>>>)> {
    v.map_values(|p: (String, Vec<Option<String>>)| (p.0@, p.1@.map_values(|g: Option<String>| match g { Some(s) => Some(s@), None => None })))
}

/// The text of the error `Regex::new` gives for a pattern it refuses.
pub uninterp spec fn regex_error_text(pattern: Seq<char>) -> Seq<char>;

/// `Regex::new(pattern)`: nothing when it compiles, the error's text when it does not.
#[verifier::external_body]
pub fn regex_compile_error(pattern: &str) -> (r: Option<String>)
    ensures
        r is None <==> regex_valid(pattern@),
        r matches Some(e) ==> e@ == regex_error_text(pattern@),
{
    regex::Regex::new(pattern).err().map(|e| e.to_string())
}

/// `Regex::new(pattern).is_ok()`.
#[verifier::external_body]
pub fn is_valid_regex(pattern: &str) -> (b: bool)
    ensures
        b == regex_valid(pattern@),
{
    regex::Regex::new(pattern).is_ok()
}

/// `Regex::new(pattern)` then `Regex::find(text)`: the matched text.
#[verifier::external_body]
pub fn regex_find(pattern: &str, text: &str) -> (r: Option<String>)
    ensures
        r matches Some(m) ==> regex_first_match(pattern@, text@) == Some(m@),
        r is None ==> regex_first_match(pattern@, text@) is None,
        !regex_valid(pattern@) ==> r is None,
{
    match regex::Regex::new(pattern) {
        Ok(re) => re.find(text).map(|m| m.as_str().to_string()),
        Err(_) => None,
    }
}

/// `Regex::new(pattern)` then `Regex::is_match(text)`: whether there is a match at all.
#[verifier::external_body]
pub fn regex_is_match(pattern: &str, text: &str) -> (b: bool)
    ensures
        b == regex_first_match(pattern@, text@) is Some,
{
    match regex::Regex::new(pattern) {
        Ok(re) => re.is_match(text),
        Err(_) => false,
    }
}

/// `Regex::new(pattern)` then `Regex::captures(text)`: the groups' texts.
#[verifier::external_body]
pub fn regex_captures(pattern: &str, text: &str) -> (r: Option<Vec<Option<String>>>)
    ensures
        r matches Some(c) ==> regex_first_captures(pattern@, text@)
            == Some(c@.map_values(|g: Option<String>| match g { Some(s) => Some(s@), None => None })),
        r is None ==> regex_first_captures(pattern@, text@) is None,
        !regex_valid(pattern@) ==> r is None,
{
    match regex::Regex::new(pattern) {
        Ok(re) => re.captures(text).map(|c| c.iter().map(|g| g.map(|m| m.as_str().to_string())).collect()),
        Err(_) => None,
    }
}

/// `Regex::new(pattern)` then `Regex::captures_iter(text)`: every match with the text before it,
/// and the text after the last one. Group 0, the whole match, takes part in every match.
#[verifier::external_body]
pub fn regex_segments(pattern: &str, text: &str) -> (r: (Vec<(String, Vec<Option<String>>)>, String))
    ensures
        regex_match_segments(pattern@, text@) == (segment_views(r.0@), r.1@),
        forall|i: int| 0 <= i < r.0@.len() ==> (#[trigger] r.0@[i]).1@.len() >= 1 && r.0@[i].1@[0] is Some,
{
    let mut out = Vec::new();
    let mut last: usize = 0;
    if let Ok(re) = regex::Regex::new(pattern) {
        for c in re.captures_iter(text) {
            let m = c.get(0).unwrap();
            out.push((text[last..m.start()].to_string(), c.iter().map(|g| g.map(|x| x.as_str().to_string())).collect()));
            last = m.end();
        }
    }
    (out, text[last..].to_string())
}

/// `Regex::new(pattern)`, `Regex::captures(text)`, then the range of group `group`:
/// the text before and after that group.
#[verifier::external_body]
pub fn regex_group_split(pattern: &str, text: &str, group: usize) -> (r: Option<(String, String)>)
    ensures
        r matches Some(p) ==> regex_group_surroundings(pattern@, text@, group as nat) == Some((p.0@, p.1@)),
        r is None ==> regex_group_surroundings(pattern@, text@, group as nat) is None,
{
    let re = regex::Regex::new(pattern).ok()?;
    let g = re.captures(text)?.get(group)?;
    Some((text[..g.start()].to_string(), text[g.end()..].to_string()))
}

} // verus!
