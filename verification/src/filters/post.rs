//! The routes of threads: reading one, starting one, replying to one.
use vstd::prelude::*;

use super::{board_path, board_path_of, thread_path, thread_path_of, Filtered, Method};

verus! {

/// The route of a thread's page: `b/<board>/<id>` by `GET`.
pub open spec fn get_filter(method: Method, path: Seq<char>) -> Filtered<(Seq<char>, i64)> {
    match thread_path_of(path) {
        Some(t) => if method is Get {
            Filtered::Pass(t)
        } else {
            Filtered::MethodNotAllowed
        },
        None => Filtered::NotFound,
    }
}

/// The route of a new thread: `b/<board>` by `POST`.
pub open spec fn create_filter(method: Method, path: Seq<char>) -> Filtered<Seq<char>> {
    match board_path_of(path) {
        Some(name) => if method is Post {
            Filtered::Pass(name)
        } else {
            Filtered::MethodNotAllowed
        },
        None => Filtered::NotFound,
    }
}

/// The route of a reply: `b/<board>/<id>` by `POST`, the id that of the
/// thread replied to.
pub open spec fn reply_filter(method: Method, path: Seq<char>) -> Filtered<(Seq<char>, i64)> {
    match thread_path_of(path) {
        Some(t) => if method is Post {
            Filtered::Pass(t)
        } else {
            Filtered::MethodNotAllowed
        },
        None => Filtered::NotFound,
    }
}

/// The route of a thread's page.
pub fn get(method: Method, path: &str) -> (f: Filtered<(String, i64)>)
    ensures
        f@ == get_filter(method, path@),
{
    match thread_path(path) {
        Some(t) => if matches!(method, Method::Get) {
            Filtered::Pass(t)
        } else {
            Filtered::MethodNotAllowed
        },
        None => Filtered::NotFound,
    }
}

/// The route of a new thread.
pub fn create(method: Method, path: &str) -> (f: Filtered<String>)
    ensures
        f@ == create_filter(method, path@),
{
    match board_path(path) {
        Some(name) => if matches!(method, Method::Post) {
            Filtered::Pass(name)
        } else {
            Filtered::MethodNotAllowed
        },
        None => Filtered::NotFound,
    }
}

/// The route of a reply.
pub fn reply(method: Method, path: &str) -> (f: Filtered<(String, i64)>)
    ensures
        f@ == reply_filter(method, path@),
{
    match thread_path(path) {
        Some(t) => if matches!(method, Method::Post) {
            Filtered::Pass(t)
        } else {
            Filtered::MethodNotAllowed
        },
        None => Filtered::NotFound,
    }
}

} // verus!
