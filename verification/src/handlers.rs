//! What each page's request handler does.
//!
//! A handler that needs the database is a state machine: each step takes
//! the handler's state and what the last action brought back, and gives
//! the next state and the next action, until the action is the answer.
//! The program around the library performs the actions.
use vstd::prelude::*;

use crate::models::{Board, Post};
use crate::views::{boards_html, boards_partial, index_page, index_page_html, page, page_html};

pub mod board;
pub mod post;

verus! {

/// The answer to a request.
pub enum Reply<S> {
    /// A page, its HTML.
    Html(S),
    /// A redirection to the address given.
    Redirect(S),
    /// A refused request, with the HTML that says why.
    Refused(S),
}

impl<S: View> View for Reply<S> {
    type V = Reply<S::V>;

    open spec fn view(&self) -> Reply<S::V> {
        match self {
            Reply::Html(h) => Reply::Html(h@),
            Reply::Redirect(a) => Reply::Redirect(a@),
            Reply::Refused(h) => Reply::Refused(h@),
        }
    }
}

/// What a field of a posted form came to once it was read.
pub enum FieldContent {
    /// A file field left without a file: not read, and ignored.
    Skipped,
    /// A field read for its value.
    Value(Vec<u8>),
    /// An uploaded file, stored under the file name given here.
    Stored(String),
    /// An uploaded file whose name is refused: not stored.
    Refused,
}

/// A field of a posted form: its name and what it came to.
pub struct FormField {
    pub name: String,
    pub content: FieldContent,
}

/// A post to be stored.
pub struct NewPost {
    pub board_id: i64,
    pub parent: Option<i64>,
    pub body: String,
    pub file_name: Option<String>,
}

/// What a handler asks the program to do next.
pub enum Action {
    /// Look up the board of this name.
    LoadBoard(String),
    /// Load the threads of the board of this id.
    LoadThreads(i64),
    /// Load the thread of this id: the thread first, then its replies, by id.
    LoadThread(i64),
    /// Read the posted form, storing uploaded files under this board's name.
    ReadForm(String),
    /// Store this post.
    CreatePost(NewPost),
    /// Answer the request.
    Answer(Reply<String>),
}

/// What an action brought back.
pub enum Event {
    /// The board looked up, `None` when the lookup failed.
    Board(Option<Board>),
    /// The threads loaded, `None` when loading failed.
    Threads(Option<Vec<Post>>),
    /// The posts of the thread loaded, `None` when loading failed.
    Thread(Option<Vec<Post>>),
    /// The fields of the posted form, in the order they came.
    Form(Vec<FormField>),
    /// The id of the post stored, `None` when storing failed.
    Created(Option<i64>),
}

/// Whether `action` answers the request with `reply`.
pub open spec fn answers(action: Action, reply: Reply<Seq<char>>) -> bool {
    action matches Action::Answer(r) && r@ == reply
}

/// The markup that stands for a failed lookup of the boards.
pub open spec fn no_boards_html() -> Seq<char> {
    "<p>No boards found</p>"@
}

/// The page of a request for a missing thing.
pub open spec fn not_found_html() -> Seq<char> {
    "404 Not Found"@
}

/// The home page, given the boards loaded (`None` when loading failed).
/// Takes at least one board when loading succeeded.
pub fn index(boards: Option<Vec<Board>>) -> (m: String)
    requires
        boards matches Some(b) ==> b.len() > 0,
    ensures
        m@ == index_page_html(
            match boards {
                Some(b) => boards_html(b@),
                None => no_boards_html(),
            },
        ),
{
    let partial = match boards {
        Some(b) => boards_partial(b),
        None => {
            let mut p = String::new();
            p.append("<p>No boards found</p>");
            p
        },
    };
    index_page(partial)
}

/// The page of the user named `name`: a page titled `user <name>`.
pub fn user(name: &str) -> (m: String)
    ensures
        m@ == page_html("user "@ + name@),
{
    let mut title = String::new();
    title.append("user ");
    title.append(name);
    page(title.as_str())
}

} // verus!
