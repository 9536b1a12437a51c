//! The handler of a board's page.
use vstd::prelude::*;

use super::{answers, not_found_html, Action, Event, Reply};
use crate::models::Board;
use crate::text::render_not_found_status;
use crate::views::{board_page, board_page_html, threads_html, threads_partial};

verus! {

/// Where the handler of a board's page stands.
pub enum GetState {
    /// Waiting for the board.
    AwaitBoard,
    /// Waiting for the threads of this board.
    AwaitThreads(Board),
    /// Answered.
    Done,
}

/// The markup that stands for a failed loading of the threads.
pub open spec fn no_threads_html() -> Seq<char> {
    "<p>No threads found</p>"@
}

/// Whether the handler in `state` waits for what `event` brings.
pub open spec fn get_accepts(state: GetState, event: Event) -> bool {
    match state {
        GetState::AwaitBoard => event is Board,
        GetState::AwaitThreads(_) => event is Threads,
        GetState::Done => false,
    }
}

/// Starts the handler of the page of the board named `board_name`: it
/// first looks the board up.
pub fn get(board_name: String) -> (r: (GetState, Action))
    ensures
        r.0 is AwaitBoard,
        r.1 matches Action::LoadBoard(n) && n@ == board_name@,
{
    (GetState::AwaitBoard, Action::LoadBoard(board_name))
}

/// What one step of the handler of a board's page gives, `r`, from `state` and `event`.
pub open spec fn get_step_gives(state: GetState, event: Event, r: (GetState, Action)) -> bool {
        match (state, event) {
            (GetState::AwaitBoard, Event::Board(None)) => r.0 is Done && answers(r.1, Reply::Html(not_found_html())),
            (GetState::AwaitBoard, Event::Board(Some(b))) => r.0 == GetState::AwaitThreads(b)
                && r.1 == Action::LoadThreads(b.id),
            (GetState::AwaitThreads(b), Event::Threads(t)) => r.0 is Done && answers(
                r.1,
                Reply::Html(
                board_page_html(
                    b,
                    match t {
                        Some(ps) => threads_html(b, ps@),
                        None => no_threads_html(),
                    },
                )),
            ),
            _ => false,
        }
}

/// One step of the handler of a board's page.  A board that is not found
/// is answered with a "404 Not Found" page; a board that is found has its
/// threads loaded, and is answered with its page, which lists its threads,
/// or says that none were found when loading them failed.
pub fn get_step(state: GetState, event: Event) -> (r: (GetState, Action))
    requires
        get_accepts(state, event),
    ensures
        get_step_gives(state, event, r),
{
    match state {
        GetState::AwaitBoard => match event {
            Event::Board(None) => {
                let mut m = String::new();
                render_not_found_status(&mut m);
                (GetState::Done, Action::Answer(Reply::Html(m)))
            },
            Event::Board(Some(b)) => {
                let id = b.id;
                (GetState::AwaitThreads(b), Action::LoadThreads(id))
            },
            _ => (GetState::Done, Action::Answer(Reply::Html(String::new()))),
        },
        GetState::AwaitThreads(b) => match event {
            Event::Threads(t) => {
                let partial = match t {
                    Some(ps) => threads_partial(&b, ps),
                    None => {
                        let mut p = String::new();
                        p.append("<p>No threads found</p>");
                        p
                    },
                };
                let page = board_page(&b, partial);
                (GetState::Done, Action::Answer(Reply::Html(page)))
            },
            _ => (GetState::Done, Action::Answer(Reply::Html(String::new()))),
        },
        GetState::Done => (GetState::Done, Action::Answer(Reply::Html(String::new()))),
    }
}

/// The handler of a board's page answers a board that is not found with a
/// "404 Not Found" page; for a board that is found it loads that board's
/// threads, and answers with the board's page followed by the threads,
/// newest first, or by a note that none were found when loading failed.
pub proof fn law_board_page_handler(
    board: Board,
    threads: Option<Vec<crate::models::Post>>,
    r0: (GetState, Action),
    r1: (GetState, Action),
    r2: (GetState, Action),
)
    requires
        get_step_gives(GetState::AwaitBoard, Event::Board(None), r0),
        get_step_gives(GetState::AwaitBoard, Event::Board(Some(board)), r1),
        get_step_gives(r1.0, Event::Threads(threads), r2),
    ensures
        r0.0 is Done && answers(r0.1, Reply::Html("404 Not Found"@)),
        r1.1 == Action::LoadThreads(board.id),
        r2.0 is Done,
        threads matches Some(ps) ==> answers(
            r2.1,
            Reply::Html(board_page_html(board, Seq::empty()) + threads_html(board, ps@)),
        ),
        threads is None ==> answers(
            r2.1,
            Reply::Html(board_page_html(board, Seq::empty()) + "<p>No threads found</p>"@),
        ),
{
    match threads {
        Some(ps) => crate::views::law_board_page_ends_with_threads(board, threads_html(board, ps@)),
        None => crate::views::law_board_page_ends_with_threads(board, no_threads_html()),
    }
}

} // verus!
