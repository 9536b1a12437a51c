use vstd::prelude::*;

verus! {

/// A board: a named place where threads are posted.
pub struct Board {
    pub id: i64,
    pub name: String,
    pub description: String,
}

/// A post: a thread when `parent` is `None`, else a reply to the thread
/// whose id `parent` holds.
pub struct Post {
    pub id: i64,
    pub body: String,
    pub parent: Option<i64>,
    pub board_id: i64,
    pub file_name: Option<String>,
    pub file_type: Option<String>,
    pub file_path: Option<String>,
}

} // verus!
