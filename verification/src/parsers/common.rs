//! Helpers the parsers share: capture groups with defaults.

use vstd::prelude::*;
use crate::text::owned;

verus! {

/// Capture group `i`, or `d` when the group did not take part.
pub open spec fn group_or(caps: Seq<Option<Seq<char>>>, i: int, d: Seq<char>) -> Seq<char> {
    if 0 <= i < caps.len() && caps[i] is Some { caps[i]->0 } else { d }
}

/// The views of captured groups.
pub open spec fn groups_view(c: Seq<Option<String>>) -> Seq<Option<Seq<char>>> {
    c.map_values(|g: Option<String>| match g { Some(s) => Some(s@), None => None })
}

/// Capture group `i` as an owned string, or `d`.
pub fn group(caps: &Vec<Option<String>>, i: usize, d: &str) -> (s: String)
    ensures
        s@ == group_or(groups_view(caps@), i as int, d@),
{
    if i < caps.len() {
        match &caps[i] {
            Some(g) => owned(g.as_str()),
            None => owned(d),
        }
    } else {
        owned(d)
    }
}

/// Whether capture group `i` took part.
pub fn has_group(caps: &Vec<Option<String>>, i: usize) -> (b: bool)
    ensures
        b == (0 <= i < groups_view(caps@).len() && groups_view(caps@)[i as int] is Some),
{
    i < caps.len() && caps[i].is_some()
}

} // verus!
