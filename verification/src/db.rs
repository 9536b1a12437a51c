//! Storing a post: the order of the statements that store it and what
//! each outcome leads to.  The program around the library runs the
//! statements against the database.
use vstd::prelude::*;

verus! {

/// A statement to run, or the end of the storing.
pub enum DbAction {
    /// Open a transaction.
    Begin,
    /// Insert a post, giving back its id.
    InsertPost { body: String, parent: Option<i64>, board_id: i64 },
    /// Insert a file record, giving back its id.
    InsertFile { file_name: String, file_type: String, board_id: i64 },
    /// Attach the file record `file_id` to the post `post_id`.
    AttachFile { file_id: i64, post_id: i64 },
    /// Commit the transaction.
    Commit,
    /// The storing is over: the id of the post stored, or `None` when a
    /// statement failed.
    Finish(Option<i64>),
}

/// What a statement brought back.
pub enum DbEvent {
    /// Whether the transaction opened.
    Began(bool),
    /// The id that an insert gave back, `None` when it failed.
    Inserted(Option<i64>),
    /// Whether an update succeeded.
    Updated(bool),
    /// The transaction committed.
    Committed,
}

/// Where the storing of a post stands.
pub enum CreateState {
    /// Waiting for the transaction, with the post to store.
    AwaitBegin { body: String, parent: Option<i64>, board_id: i64, file_name: Option<String> },
    /// Waiting for the post's id; the file to attach, if any.
    AwaitPost { board_id: i64, file_name: Option<String> },
    /// Waiting for the file record's id; the post stored.
    AwaitFile { post_id: i64 },
    /// Waiting for the file to be attached to the post stored.
    AwaitAttach { post_id: i64 },
    /// Waiting for the commit; the post stored.
    AwaitCommit { post_id: i64 },
    /// Over.
    Done,
}

/// Whether the storing in `state` waits for what `event` brings.
pub open spec fn post_create_accepts(state: CreateState, event: DbEvent) -> bool {
    match state {
        CreateState::AwaitBegin { .. } => event is Began,
        CreateState::AwaitPost { .. } => event is Inserted,
        CreateState::AwaitFile { .. } => event is Inserted,
        CreateState::AwaitAttach { .. } => event is Updated,
        CreateState::AwaitCommit { .. } => event is Committed,
        CreateState::Done => false,
    }
}

/// Starts storing a post with `body`, replying to `parent` (a new thread
/// when `None`), on the board `board_id`, with the file `file_name` if
/// one is given: it first opens a transaction.  An empty post, with no
/// text and no file, is refused before any statement runs.
pub fn post_create(board_id: i64, parent: Option<i64>, body: String, file_name: Option<String>) -> (r: (
    CreateState,
    DbAction,
))
    ensures
        body@.len() == 0 && file_name is None ==> r.0 is Done && r.1 == DbAction::Finish(None),
        !(body@.len() == 0 && file_name is None) ==> r.0 == (CreateState::AwaitBegin {
            body,
            parent,
            board_id,
            file_name,
        }) && r.1 is Begin,
{
    if file_name.is_none() && body.as_str().unicode_len() == 0 {
        return (CreateState::Done, DbAction::Finish(None));
    }
    (CreateState::AwaitBegin { body, parent, board_id, file_name }, DbAction::Begin)
}

/// What one step of the storing of a post gives, `r`, from `state` and
/// `event`.
pub open spec fn post_create_step_gives(state: CreateState, event: DbEvent, r: (CreateState, DbAction)) -> bool {
        match (state, event) {
            (CreateState::AwaitBegin { .. }, DbEvent::Began(false)) => r.0 is Done && r.1
                == DbAction::Finish(None),
            (
                CreateState::AwaitBegin { body, parent, board_id, file_name },
                DbEvent::Began(true),
            ) => r.0 == (CreateState::AwaitPost { board_id, file_name }) && r.1
                == (DbAction::InsertPost { body, parent, board_id }),
            (CreateState::AwaitPost { .. }, DbEvent::Inserted(None)) => r.0 is Done && r.1
                == DbAction::Finish(None),
            (CreateState::AwaitPost { board_id, file_name }, DbEvent::Inserted(Some(id))) => match file_name {
                Some(f) => r.0 == (CreateState::AwaitFile { post_id: id }) && (r.1 matches DbAction::InsertFile {
                    file_name: g,
                    file_type: t,
                    board_id: b,
                } && g == f && t@.len() == 0 && b == board_id),
                None => r.0 == (CreateState::AwaitCommit { post_id: id }) && r.1 is Commit,
            },
            (CreateState::AwaitFile { .. }, DbEvent::Inserted(None)) => r.0 is Done && r.1
                == DbAction::Finish(None),
            (CreateState::AwaitFile { post_id }, DbEvent::Inserted(Some(file_id))) => r.0 == (
            CreateState::AwaitAttach { post_id }) && r.1 == (DbAction::AttachFile {
                file_id,
                post_id,
            }),
            (CreateState::AwaitAttach { .. }, DbEvent::Updated(false)) => r.0 is Done && r.1
                == DbAction::Finish(None),
            (CreateState::AwaitAttach { post_id }, DbEvent::Updated(true)) => r.0 == (
            CreateState::AwaitCommit { post_id }) && r.1 is Commit,
            (CreateState::AwaitCommit { post_id }, DbEvent::Committed) => r.0 is Done && r.1
                == DbAction::Finish(Some(post_id)),
            _ => false,
        }
}

/// One step of the storing of a post: the post is inserted; a file, when
/// there is one, is inserted and attached to it; the transaction is
/// committed and the storing gives the post's id.  A statement that fails
/// ends the storing without an id.
pub fn post_create_step(state: CreateState, event: DbEvent) -> (r: (CreateState, DbAction))
    requires
        post_create_accepts(state, event),
    ensures
        post_create_step_gives(state, event, r),
{
    match state {
        CreateState::AwaitBegin { body, parent, board_id, file_name } => match event {
            DbEvent::Began(true) => (
                CreateState::AwaitPost { board_id, file_name },
                DbAction::InsertPost { body, parent, board_id },
            ),
            _ => (CreateState::Done, DbAction::Finish(None)),
        },
        CreateState::AwaitPost { board_id, file_name } => match event {
            DbEvent::Inserted(Some(id)) => match file_name {
                Some(f) => {
                    let file_type = String::new();
                    proof {
                        reveal_strlit("");
                    }
                    (
                        CreateState::AwaitFile { post_id: id },
                        DbAction::InsertFile { file_name: f, file_type, board_id },
                    )
                },
                None => (CreateState::AwaitCommit { post_id: id }, DbAction::Commit),
            },
            _ => (CreateState::Done, DbAction::Finish(None)),
        },
        CreateState::AwaitFile { post_id } => match event {
            DbEvent::Inserted(Some(file_id)) => (
                CreateState::AwaitAttach { post_id },
                DbAction::AttachFile { file_id, post_id },
            ),
            _ => (CreateState::Done, DbAction::Finish(None)),
        },
        CreateState::AwaitAttach { post_id } => match event {
            DbEvent::Updated(true) => (CreateState::AwaitCommit { post_id }, DbAction::Commit),
            _ => (CreateState::Done, DbAction::Finish(None)),
        },
        CreateState::AwaitCommit { post_id } => (CreateState::Done, DbAction::Finish(Some(post_id))),
        CreateState::Done => (CreateState::Done, DbAction::Finish(None)),
    }
}

/// Storing a post runs its statements in order, each on what the one
/// before gave back: the post is inserted with its text, thread and board;
/// a file, when there is one, is inserted by its name on the same board and
/// attached, by the id it was given, to the post by the id the post was
/// given; the transaction is committed; and the storing gives the post's
/// id.  Storing a post without a file commits right after the post.
pub proof fn law_storing_runs_its_statements(
    body: String,
    parent: Option<i64>,
    board_id: i64,
    file_name: Option<String>,
    post_id: i64,
    file_id: i64,
    r1: (CreateState, DbAction),
    r2: (CreateState, DbAction),
    r3: (CreateState, DbAction),
    r4: (CreateState, DbAction),
    r5: (CreateState, DbAction),
)
    requires
        post_create_step_gives(
            CreateState::AwaitBegin { body, parent, board_id, file_name },
            DbEvent::Began(true),
            r1,
        ),
        post_create_step_gives(r1.0, DbEvent::Inserted(Some(post_id)), r2),
    ensures
        r1.1 == (DbAction::InsertPost { body, parent, board_id }),
        file_name is None ==> r2.1 is Commit,
        file_name is None && post_create_step_gives(r2.0, DbEvent::Committed, r3) ==> r3.1
            == DbAction::Finish(Some(post_id)),
        file_name matches Some(f) ==> (r2.1 matches DbAction::InsertFile {
            file_name: g,
            file_type: t,
            board_id: b,
        } && g == f && t@.len() == 0 && b == board_id),
        file_name is Some && post_create_step_gives(r2.0, DbEvent::Inserted(Some(file_id)), r3)
            ==> r3.1 == (DbAction::AttachFile { file_id, post_id }),
        file_name is Some && post_create_step_gives(r2.0, DbEvent::Inserted(Some(file_id)), r3)
            && post_create_step_gives(r3.0, DbEvent::Updated(true), r4) ==> r4.1 is Commit,
        file_name is Some && post_create_step_gives(r2.0, DbEvent::Inserted(Some(file_id)), r3)
            && post_create_step_gives(r3.0, DbEvent::Updated(true), r4) && post_create_step_gives(
            r4.0,
            DbEvent::Committed,
            r5,
        ) ==> r5.1 == DbAction::Finish(Some(post_id)),
{
}

/// A statement that fails ends the storing, without an id and without a
/// commit, whatever step it fails at.
pub proof fn law_failure_ends_storing(state: CreateState, event: DbEvent, r: (CreateState, DbAction))
    requires
        post_create_step_gives(state, event, r),
        event == DbEvent::Began(false) || event == DbEvent::Inserted(None) || event
            == DbEvent::Updated(false),
    ensures
        r.0 is Done,
        r.1 == DbAction::Finish(None),
{
}

} // verus!
