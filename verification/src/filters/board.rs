//! The routes of a board's page.
use vstd::prelude::*;

use super::{board_path, board_path_of, route_start, Filtered, Method};

verus! {

/// The route of a board's page: `b/<board>` by `GET`; it hands on the
/// board's name.
pub open spec fn get_filter(method: Method, path: Seq<char>) -> Filtered<Seq<char>> {
    match board_path_of(path) {
        Some(name) => if method is Get {
            Filtered::Pass(name)
        } else {
            Filtered::MethodNotAllowed
        },
        None => Filtered::NotFound,
    }
}

/// The list of all boards at the empty path, by `GET`: the home page's
/// route under another name.
pub fn all(method: Method, path: &str) -> (f: Filtered<()>)
    ensures
        f@ == super::index_filter(method, path@),
{
    let r = route_start(path);
    if r.unicode_len() == 0 {
        if matches!(method, Method::Get) {
            Filtered::Pass(())
        } else {
            Filtered::MethodNotAllowed
        }
    } else {
        Filtered::NotFound
    }
}

/// The route of a board's page.
pub fn get(method: Method, path: &str) -> (f: Filtered<String>)
    ensures
        f@ == get_filter(method, path@),
{
    match board_path(path) {
        Some(name) => if matches!(method, Method::Get) {
            Filtered::Pass(name)
        } else {
            Filtered::MethodNotAllowed
        },
        None => Filtered::NotFound,
    }
}

} // verus!
