//! The route of a user's page.
use vstd::prelude::*;

use crate::text::text_equals;
use super::{rest_of, route_start, segment_of, path_start, split_segment, Filtered, Method};

verus! {

/// The route of a user's page: a path whose first segment is `u` and whose
/// second is not empty, by any method; what follows is not read.  It hands
/// on the second segment.
pub open spec fn get_filter(method: Method, path: Seq<char>) -> Filtered<Seq<char>> {
    let r = path_start(path);
    let name = segment_of(rest_of(r));
    if segment_of(r) == "u"@ && name.len() > 0 {
        Filtered::Pass(name)
    } else {
        Filtered::NotFound
    }
}

/// The route of a user's page.
pub fn get(method: Method, path: &str) -> (f: Filtered<String>)
    ensures
        f@ == get_filter(method, path@),
{
    let r = route_start(path);
    let (first, rest) = split_segment(r);
    let (name, _) = split_segment(rest);
    if text_equals(first, "u") && name.unicode_len() > 0 {
        Filtered::Pass(name.to_string())
    } else {
        Filtered::NotFound
    }
}

} // verus!
