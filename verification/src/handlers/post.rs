//! The handlers of threads: showing one, and posting a thread or a reply.
use vstd::prelude::*;

use super::{answers, not_found_html, Action, Event, FieldContent, FormField, NewPost, Reply};
use crate::filters::{api_route, lemma_thread_path_routes, segment_safe, Method, Route};
use crate::models::{Board, Post};
use crate::text::{decimal_of, decimal_string, render_not_found_status, text_equals, text_from_bytes, utf8_lossy};
use crate::views::{post_href, thread_page, thread_page_html};

verus! {

/// Where the handler of a thread's page stands.
pub enum GetState {
    /// Waiting for the board; the id of the thread asked for.
    AwaitBoard(i64),
    /// Waiting for the posts of the thread, on this board.
    AwaitThread(Board),
    /// Answered.
    Done,
}

/// Whether the handler of a thread's page in `state` waits for what
/// `event` brings.  A thread that loads holds at least its first post.
pub open spec fn get_accepts(state: GetState, event: Event) -> bool {
    match state {
        GetState::AwaitBoard(_) => event is Board,
        GetState::AwaitThread(_) => event matches Event::Thread(t) && (t matches Some(ps) ==> ps.len()
            > 0),
        GetState::Done => false,
    }
}

/// Starts the handler of the page of thread `thread_id` on the board named
/// `board_name`: it first looks the board up.
pub fn get(board_name: String, thread_id: i64) -> (r: (GetState, Action))
    ensures
        r.0 == GetState::AwaitBoard(thread_id),
        r.1 matches Action::LoadBoard(n) && n@ == board_name@,
{
    (GetState::AwaitBoard(thread_id), Action::LoadBoard(board_name))
}

/// What one step of the handler of a thread's page gives, `r`, from `state` and `event`.
pub open spec fn get_step_gives(state: GetState, event: Event, r: (GetState, Action)) -> bool {
        match (state, event) {
            (GetState::AwaitBoard(_), Event::Board(None)) => r.0 is Done && answers(
                r.1,
                Reply::Html(not_found_html()),
            ),
            (GetState::AwaitBoard(id), Event::Board(Some(b))) => r.0 == GetState::AwaitThread(b)
                && r.1 == Action::LoadThread(id),
            (GetState::AwaitThread(_), Event::Thread(None)) => r.0 is Done && answers(
                r.1,
                Reply::Html(not_found_html()),
            ),
            (GetState::AwaitThread(b), Event::Thread(Some(ps))) => r.0 is Done && answers(
                r.1,
                Reply::Html(thread_page_html(b, ps@)),
            ),
            _ => false,
        }
}

/// One step of the handler of a thread's page.  A board that is not found,
/// or a thread that does not load, is answered with a "404 Not Found"
/// page; else the thread is answered with its page.
pub fn get_step(state: GetState, event: Event) -> (r: (GetState, Action))
    requires
        get_accepts(state, event),
    ensures
        get_step_gives(state, event, r),
{
    match state {
        GetState::AwaitBoard(id) => match event {
            Event::Board(Some(b)) => (GetState::AwaitThread(b), Action::LoadThread(id)),
            _ => {
                let mut m = String::new();
                render_not_found_status(&mut m);
                (GetState::Done, Action::Answer(Reply::Html(m)))
            },
        },
        GetState::AwaitThread(b) => match event {
            Event::Thread(Some(ps)) => {
                let page = thread_page(&b, ps);
                (GetState::Done, Action::Answer(Reply::Html(page)))
            },
            _ => {
                let mut m = String::new();
                render_not_found_status(&mut m);
                (GetState::Done, Action::Answer(Reply::Html(m)))
            },
        },
        GetState::Done => (GetState::Done, Action::Answer(Reply::Html(String::new()))),
    }
}

/// Whether a `..` component of the path `f` begins at `i`: the two dots
/// stand at the start of `f` or after a `/`, and at the end of `f` or
/// before a `/`.
pub open spec fn parent_component_at(f: Seq<char>, i: int) -> bool {
    &&& 0 <= i
    &&& i + 1 < f.len()
    &&& f[i] == '.'
    &&& f[i + 1] == '.'
    &&& (i == 0 || f[i - 1] == '/')
    &&& (i + 2 == f.len() || f[i + 2] == '/')
}

/// Whether a file name may be stored as it is: it is not empty, it is not
/// `.`, and none of its `/`-separated components is `..`, so that the file
/// it names lies inside the folder it is stored in.
pub open spec fn safe_file_name(f: Seq<char>) -> bool {
    &&& f.len() > 0
    &&& f != seq!['.']
    &&& forall|i: int| !#[trigger] parent_component_at(f, i)
}

/// Where an uploaded file is stored: under the board's name, in a folder
/// numbered 0, by the file's own name.
pub open spec fn upload_path_of(board_name: Seq<char>, filename: Seq<char>) -> Seq<char> {
    "assets/user_content/board/"@ + board_name + "/0/"@ + filename
}

/// What is done with a field of the posted form.
pub enum FieldPlan<S> {
    /// The field is ignored.
    Skip,
    /// The field is read for its value.
    Read,
    /// The field's file is stored at this path.
    Store(S),
    /// The field's file is refused for its name.
    Refuse,
}

impl<S: View> View for FieldPlan<S> {
    type V = FieldPlan<S::V>;

    open spec fn view(&self) -> FieldPlan<S::V> {
        match self {
            FieldPlan::Skip => FieldPlan::Skip,
            FieldPlan::Read => FieldPlan::Read,
            FieldPlan::Store(p) => FieldPlan::Store(p@),
            FieldPlan::Refuse => FieldPlan::Refuse,
        }
    }
}

/// What is done with a field named `field_name`, carrying a file named
/// `filename` if it carries one, in a form posted to the board named
/// `board_name`.  A file field left without a file (an empty file name) is
/// ignored; a field named `file` that carries a file is an upload, stored
/// under the board's folder when its name is safe and refused otherwise;
/// any other field is read for its value.
pub open spec fn field_plan_of(
    board_name: Seq<char>,
    field_name: Seq<char>,
    filename: Option<Seq<char>>,
) -> FieldPlan<Seq<char>> {
    match filename {
        Some(f) => if f.len() == 0 {
            FieldPlan::Skip
        } else if field_name == "file"@ {
            if safe_file_name(f) {
                FieldPlan::Store(upload_path_of(board_name, f))
            } else {
                FieldPlan::Refuse
            }
        } else {
            FieldPlan::Read
        },
        None => FieldPlan::Read,
    }
}

/// The text of a file name, if there is one.
pub open spec fn name_text(filename: Option<&str>) -> Option<Seq<char>> {
    match filename {
        Some(f) => Some(f@),
        None => None,
    }
}

/// Whether a file name may be stored as it is.
pub fn is_safe_file_name(f: &str) -> (safe: bool)
    ensures
        safe == safe_file_name(f@),
{
    let n = f.unicode_len();
    if n == 0 {
        return false;
    }
    if n == 1 && f.get_char(0) == '.' {
        assert(f@ =~= seq!['.']);
        return false;
    }
    let mut i: usize = 0;
    while i + 1 < n
        invariant
            n == f@.len(),
            n > 0,
            i < n,
            forall|j: int| 0 <= j < i ==> !#[trigger] parent_component_at(f@, j),
        decreases n - i,
    {
        let starts = i == 0 || f.get_char(i - 1) == '/';
        let ends = i + 2 == n || f.get_char(i + 2) == '/';
        if starts && ends && f.get_char(i) == '.' && f.get_char(i + 1) == '.' {
            assert(parent_component_at(f@, i as int));
            return false;
        }
        i = i + 1;
    }
    assert forall|j: int| !#[trigger] parent_component_at(f@, j) by {
        if 0 <= j && j >= i {
            assert(!(j + 1 < n));
        }
    }
    proof {
        if f@ == seq!['.'] {
            assert(f@[0] == '.');
        }
    }
    true
}

/// What is done with a field of a form posted to the board named
/// `board_name`.
pub fn plan_field(board_name: &str, field_name: &str, filename: Option<&str>) -> (plan: FieldPlan<
    String,
>)
    ensures
        plan@ == field_plan_of(board_name@, field_name@, name_text(filename)),
{
    match filename {
        Some(f) => {
            if f.unicode_len() == 0 {
                FieldPlan::Skip
            } else if text_equals(field_name, "file") {
                if is_safe_file_name(f) {
                    let mut path = String::new();
                    path.append("assets/user_content/board/");
                    path.append(board_name);
                    path.append("/0/");
                    path.append(f);
                    assert(path@ =~= upload_path_of(board_name@, f@));
                    FieldPlan::Store(path)
                } else {
                    FieldPlan::Refuse
                }
            } else {
                FieldPlan::Read
            }
        },
        None => FieldPlan::Read,
    }
}

/// What the last field named `name` came to, ignoring the fields that were
/// skipped: the field that stands for the name once the fields are
/// gathered into a map, the later overriding the earlier.
pub open spec fn last_content(fields: Seq<FormField>, name: Seq<char>) -> Option<FieldContent>
    decreases fields.len(),
{
    if fields.len() == 0 {
        None
    } else if fields.last().content is Skipped {
        last_content(fields.drop_last(), name)
    } else if fields.last().name@ == name {
        Some(fields.last().content)
    } else {
        last_content(fields.drop_last(), name)
    }
}

/// Whether some field's file was refused for its name.
pub open spec fn any_refused(fields: Seq<FormField>) -> bool {
    exists|i: int| 0 <= i < fields.len() && #[trigger] fields[i].content is Refused
}

/// The refusal of a form whose file name is not allowed.
pub open spec fn bad_file_name_html() -> Seq<char> {
    "<p>The file name is not allowed</p>"@
}

/// The refusal of a post without an image.
pub open spec fn image_required_html() -> Seq<char> {
    "<p>A post needs an image</p>"@
}

/// The refusal of a new thread without text.
pub open spec fn text_required_html() -> Seq<char> {
    "<p>A new thread needs text</p>"@
}

/// The refusal of a reply to what is not a thread of the board.
pub open spec fn no_such_thread_html() -> Seq<char> {
    "<p>No such thread on this board</p>"@
}

/// What a posted form comes to.
pub enum FormDecision {
    /// The form is refused, with the HTML that says why.
    Refuse(Seq<char>),
    /// The form makes a post with this text and this stored file.
    Store { body: Seq<char>, file_name: Seq<char> },
}

/// The bytes of the form's text: those of its last `body` field, none
/// when it has no such field.
pub open spec fn body_bytes(fields: Seq<FormField>) -> Seq<u8> {
    match last_content(fields, "body"@) {
        Some(FieldContent::Value(b)) => b@,
        _ => Seq::empty(),
    }
}

/// What a form posted to the board named `board_name`, as a reply to
/// `parent` or as a new thread, comes to.  A form with a refused file name
/// is refused, as is a stored file whose name is not safe; a post needs an
/// image, stored from its last `file` field; a new thread also needs text.  The post's text is that of the last
/// `body` field, none when there is no such field; its file is where the
/// image was stored.  Ignored fields play no part.
pub open spec fn form_decision(
    board_name: Seq<char>,
    parent: Option<i64>,
    fields: Seq<FormField>,
) -> FormDecision {
    if any_refused(fields) {
        FormDecision::Refuse(bad_file_name_html())
    } else {
        match last_content(fields, "file"@) {
            Some(FieldContent::Stored(f)) => if !safe_file_name(f@) {
                FormDecision::Refuse(bad_file_name_html())
            } else if parent is None && body_bytes(fields).len() == 0 {
                FormDecision::Refuse(text_required_html())
            } else {
                FormDecision::Store {
                    body: match last_content(fields, "body"@) {
                        Some(FieldContent::Value(b)) => utf8_lossy(b@),
                        _ => Seq::empty(),
                    },
                    file_name: upload_path_of(board_name, f@),
                }
            },
            _ => FormDecision::Refuse(image_required_html()),
        }
    }
}

/// The index of the field that `last_content` reads, when there is one.
fn last_field(fields: &Vec<FormField>, name: &str) -> (r: Option<usize>)
    ensures
        match r {
            Some(i) => i < fields.len() && last_content(fields@, name@) == Some(fields@[i as int].content),
            None => last_content(fields@, name@) is None,
        },
{
    let n = fields.len();
    let mut found: Option<usize> = None;
    let mut i: usize = 0;
    while i < n
        invariant
            n == fields.len(),
            i <= n,
            match found {
                Some(k) => k < i && last_content(fields@.take(i as int), name@) == Some(
                    fields@[k as int].content,
                ),
                None => last_content(fields@.take(i as int), name@) is None,
            },
        decreases n - i,
    {
        assert(fields@.take(i + 1).drop_last() =~= fields@.take(i as int));
        assert(fields@.take(i + 1).last() == fields@[i as int]);
        let skipped = match &fields[i].content {
            FieldContent::Skipped => true,
            _ => false,
        };
        if !skipped && text_equals(fields[i].name.as_str(), name) {
            found = Some(i);
        }
        i = i + 1;
    }
    assert(fields@.take(n as int) =~= fields@);
    found
}

/// Whether some field's file was refused for its name.
fn has_refused(fields: &Vec<FormField>) -> (r: bool)
    ensures
        r == any_refused(fields@),
{
    let n = fields.len();
    let mut i: usize = 0;
    while i < n
        invariant
            n == fields.len(),
            i <= n,
            forall|j: int| 0 <= j < i ==> !(#[trigger] fields@[j].content is Refused),
        decreases n - i,
    {
        if let FieldContent::Refused = &fields[i].content {
            return true;
        }
        i = i + 1;
    }
    false
}

/// Where the handler of a new post stands.
pub enum CreateState {
    /// Waiting for the board; the thread replied to, `None` for a new thread.
    AwaitBoard(Option<i64>),
    /// Waiting for the thread replied to, on this board.
    AwaitParent(Board, i64),
    /// Waiting for the posted form, on this board.
    AwaitForm(Board, Option<i64>),
    /// Waiting for the post to be stored, on the board of this name.
    AwaitCreated(String, Option<i64>),
    /// Answered.
    Done,
}

/// Whether the handler of a new post in `state` waits for what `event`
/// brings.  It takes only a board that is found and a post that is stored.
pub open spec fn create_accepts(state: CreateState, event: Event) -> bool {
    match state {
        CreateState::AwaitBoard(_) => event matches Event::Board(b) && b is Some,
        CreateState::AwaitParent(_, _) => event is Thread,
        CreateState::AwaitForm(_, _) => event is Form,
        CreateState::AwaitCreated(_, _) => event matches Event::Created(id) && id is Some,
        CreateState::Done => false,
    }
}

/// Whether `posts`, as the thread query gives them, are the thread
/// `parent` of the board `board_id`: they start with the post `parent`,
/// which replies to nothing and is on that board.
pub open spec fn is_thread_of(posts: Seq<Post>, parent: i64, board_id: i64) -> bool {
    &&& posts.len() > 0
    &&& posts[0].id == parent
    &&& posts[0].parent is None
    &&& posts[0].board_id == board_id
}

/// Where the poster is sent once the post `id` is stored on the board
/// named `board_name`: to the thread replied to, or, for a new thread, to
/// the new thread itself.
pub open spec fn redirect_of(board_name: Seq<char>, parent: Option<i64>, id: i64) -> Seq<char> {
    post_href(
        board_name,
        match parent {
            Some(p) => p,
            None => id,
        },
    )
}

/// Starts the handler of a post to the board named `board_name`, a reply
/// to thread `parent` or, when that is `None`, a new thread: it first
/// looks the board up.
pub fn create(board_name: String, parent: Option<i64>) -> (r: (CreateState, Action))
    ensures
        r.0 == CreateState::AwaitBoard(parent),
        r.1 matches Action::LoadBoard(n) && n@ == board_name@,
{
    (CreateState::AwaitBoard(parent), Action::LoadBoard(board_name))
}

/// What one step of the handler of a new post gives, `r`, from `state` and `event`.
pub open spec fn create_step_gives(state: CreateState, event: Event, r: (CreateState, Action)) -> bool {
        match (state, event) {
            (CreateState::AwaitBoard(p), Event::Board(Some(b))) => match p {
                Some(t) => r.0 == CreateState::AwaitParent(b, t) && r.1 == Action::LoadThread(t),
                None => {
                    &&& r.0 == CreateState::AwaitForm(b, None)
                    &&& r.1 matches Action::ReadForm(n) && n@ == b.name@
                },
            },
            (CreateState::AwaitParent(b, t), Event::Thread(posts)) => if posts matches Some(ps)
                && is_thread_of(ps@, t, b.id) {
                &&& r.0 == CreateState::AwaitForm(b, Some(t))
                &&& r.1 matches Action::ReadForm(n) && n@ == b.name@
            } else {
                r.0 is Done && answers(r.1, Reply::Refused(no_such_thread_html()))
            },
            (CreateState::AwaitForm(b, p), Event::Form(fields)) => match form_decision(
                b.name@,
                p,
                fields@,
            ) {
                FormDecision::Refuse(why) => r.0 is Done && answers(r.1, Reply::Refused(why)),
                FormDecision::Store { body, file_name } => {
                    &&& r.0 matches CreateState::AwaitCreated(n, q) && n@ == b.name@ && q == p
                    &&& r.1 matches Action::CreatePost(post) && post.board_id == b.id
                        && post.parent == p && post.body@ == body && (post.file_name matches Some(
                        f,
                    ) && f@ == file_name)
                },
            },
            (CreateState::AwaitCreated(n, p), Event::Created(Some(id))) => r.0 is Done && answers(
                r.1,
                Reply::Redirect(redirect_of(n@, p, id)),
            ),
            _ => false,
        }
}

/// One step of the handler of a new post.  Once the board is found, a
/// reply has its thread loaded, and is refused unless that is a thread of
/// the board; the form is then read, its files stored under the board's
/// name; the form makes the post or is refused; once the post is stored
/// the poster is sent to its thread.
pub fn create_step(state: CreateState, event: Event) -> (r: (CreateState, Action))
    requires
        create_accepts(state, event),
    ensures
        create_step_gives(state, event, r),
{
    match state {
        CreateState::AwaitBoard(p) => match event {
            Event::Board(Some(b)) => match p {
                Some(t) => (CreateState::AwaitParent(b, t), Action::LoadThread(t)),
                None => {
                    let name = b.name.clone();
                    (CreateState::AwaitForm(b, None), Action::ReadForm(name))
                },
            },
            _ => (CreateState::Done, Action::Answer(Reply::Html(String::new()))),
        },
        CreateState::AwaitParent(b, t) => match event {
            Event::Thread(posts) => {
                let ok = match &posts {
                    Some(ps) => ps.len() > 0 && ps[0].id == t && ps[0].parent.is_none()
                        && ps[0].board_id == b.id,
                    None => false,
                };
                if ok {
                    let name = b.name.clone();
                    (CreateState::AwaitForm(b, Some(t)), Action::ReadForm(name))
                } else {
                    let mut m = String::new();
                    m.append("<p>No such thread on this board</p>");
                    (CreateState::Done, Action::Answer(Reply::Refused(m)))
                }
            },
            _ => (CreateState::Done, Action::Answer(Reply::Html(String::new()))),
        },
        CreateState::AwaitForm(b, p) => match event {
            Event::Form(fields) => {
                if has_refused(&fields) {
                    let mut m = String::new();
                    m.append("<p>The file name is not allowed</p>");
                    return (CreateState::Done, Action::Answer(Reply::Refused(m)));
                }
                let file = last_field(&fields, "file");
                let stored: Option<&String> = match file {
                    Some(i) => match &fields[i].content {
                        FieldContent::Stored(f) => Some(f),
                        _ => None,
                    },
                    None => None,
                };
                let f = match stored {
                    Some(f) => f,
                    None => {
                        let mut m = String::new();
                        m.append("<p>A post needs an image</p>");
                        return (CreateState::Done, Action::Answer(Reply::Refused(m)));
                    },
                };
                if !is_safe_file_name(f.as_str()) {
                    let mut m = String::new();
                    m.append("<p>The file name is not allowed</p>");
                    return (CreateState::Done, Action::Answer(Reply::Refused(m)));
                }
                let body_field = last_field(&fields, "body");
                let body_value: Option<&Vec<u8>> = match body_field {
                    Some(i) => match &fields[i].content {
                        FieldContent::Value(v) => Some(v),
                        _ => None,
                    },
                    None => None,
                };
                let no_text = match body_value {
                    Some(v) => v.len() == 0,
                    None => true,
                };
                if p.is_none() && no_text {
                    let mut m = String::new();
                    m.append("<p>A new thread needs text</p>");
                    return (CreateState::Done, Action::Answer(Reply::Refused(m)));
                }
                let body = match body_value {
                    Some(v) => text_from_bytes(v.as_slice()),
                    None => String::new(),
                };
                let mut path = String::new();
                path.append("assets/user_content/board/");
                path.append(b.name.as_str());
                path.append("/0/");
                path.append(f.as_str());
                assert(path@ =~= upload_path_of(b.name@, f@));
                let post = NewPost { board_id: b.id, parent: p, body, file_name: Some(path) };
                (CreateState::AwaitCreated(b.name, p), Action::CreatePost(post))
            },
            _ => (CreateState::Done, Action::Answer(Reply::Html(String::new()))),
        },
        CreateState::AwaitCreated(name, p) => match event {
            Event::Created(Some(id)) => {
                let thread = match p {
                    Some(parent) => parent,
                    None => id,
                };
                let mut to = String::new();
                to.append("/b/");
                to.append(name.as_str());
                to.append("/");
                let digits = decimal_string(thread);
                to.append(digits.as_str());
                assert(to@ =~= redirect_of(name@, p, id));
                (CreateState::Done, Action::Answer(Reply::Redirect(to)))
            },
            _ => (CreateState::Done, Action::Answer(Reply::Html(String::new()))),
        },
        CreateState::Done => (CreateState::Done, Action::Answer(Reply::Html(String::new()))),
    }
}

proof fn lemma_skipped_field_ignored(fields: Seq<FormField>, i: int, field: FormField, name: Seq<char>)
    requires
        0 <= i <= fields.len(),
        field.content is Skipped,
    ensures
        last_content(fields.insert(i, field), name) == last_content(fields, name),
    decreases fields.len(),
{
    let g = fields.insert(i, field);
    if i == fields.len() {
        assert(g.drop_last() =~= fields);
    } else {
        assert(g.last() == fields.last());
        assert(g.drop_last() =~= fields.drop_last().insert(i, field));
        lemma_skipped_field_ignored(fields.drop_last(), i, field, name);
    }
}

/// A file field left without a file changes nothing: the form that holds
/// it, wherever it stands among the fields, comes to what the form without
/// it comes to; and such a field is ignored rather than read or stored.
pub proof fn law_empty_file_field_is_ignored(
    board_name: Seq<char>,
    parent: Option<i64>,
    fields: Seq<FormField>,
    i: int,
    field: FormField,
    field_name: Seq<char>,
)
    requires
        0 <= i <= fields.len(),
        field.content is Skipped,
    ensures
        form_decision(board_name, parent, fields.insert(i, field)) == form_decision(
            board_name,
            parent,
            fields,
        ),
        field_plan_of(board_name, field_name, Some(Seq::<char>::empty())) == FieldPlan::<
            Seq<char>,
        >::Skip,
{
    let g = fields.insert(i, field);
    lemma_skipped_field_ignored(fields, i, field, "file"@);
    lemma_skipped_field_ignored(fields, i, field, "body"@);
    if any_refused(g) {
        let k = choose|k: int| 0 <= k < g.len() && #[trigger] g[k].content is Refused;
        if k < i {
            assert(fields[k] == g[k]);
        } else {
            assert(fields[k - 1] == g[k]);
        }
    }
    if any_refused(fields) {
        let k = choose|k: int| 0 <= k < fields.len() && #[trigger] fields[k].content is Refused;
        if k < i {
            assert(g[k] == fields[k]);
        } else {
            assert(g[k + 1] == fields[k]);
        }
    }
}

/// The file that a stored post names is the file its form uploaded: the
/// post's file is the path at which the upload of its last `file` field
/// was stored.
pub proof fn law_post_names_its_upload(
    board_name: Seq<char>,
    parent: Option<i64>,
    fields: Seq<FormField>,
)
    ensures
        form_decision(board_name, parent, fields) matches FormDecision::Store { file_name, .. }
            ==> (last_content(fields, "file"@) matches Some(FieldContent::Stored(f))
            && field_plan_of(board_name, "file"@, Some(f@)) == FieldPlan::Store(file_name)),
{
    reveal_strlit("file");
}

/// A post keeps its text, reply or new thread alike: whenever a form makes
/// a post, the post's text is the text of the form's last `body` field, and
/// none when there is no such field; a form that makes a post both as a
/// reply and as a new thread makes it with the same text.
pub proof fn law_post_keeps_its_text(
    board_name: Seq<char>,
    parent: Option<i64>,
    fields: Seq<FormField>,
    bytes: Vec<u8>,
)
    ensures
        last_content(fields, "body"@) == Some(FieldContent::Value(bytes)) && form_decision(
            board_name,
            parent,
            fields,
        ) is Store ==> form_decision(board_name, parent, fields)->Store_body == utf8_lossy(
            bytes@,
        ),
        last_content(fields, "body"@) is None && form_decision(board_name, parent, fields) is Store
            ==> form_decision(board_name, parent, fields)->Store_body == Seq::<char>::empty(),
        forall|t: i64|
            #![trigger form_decision(board_name, Some(t), fields)]
            form_decision(board_name, Some(t), fields) is Store && form_decision(
                board_name,
                None,
                fields,
            ) is Store ==> form_decision(board_name, Some(t), fields)->Store_body
                == form_decision(board_name, None, fields)->Store_body,
{
}

/// Which forms make a post.  A form with a field whose file was refused
/// is refused; so is a form whose last `file` field is not a stored file,
/// and a new thread whose last `body` field holds no text.  A form with no
/// refused field, whose last `file` field is a file stored under a safe
/// name, makes a post when it is a reply, and, when it is a new thread,
/// when its last `body` field holds some text.
pub proof fn law_which_forms_make_a_post(
    board_name: Seq<char>,
    parent: Option<i64>,
    fields: Seq<FormField>,
)
    ensures
        any_refused(fields) ==> form_decision(board_name, parent, fields) is Refuse,
        !(last_content(fields, "file"@) matches Some(FieldContent::Stored(_))) ==> form_decision(
            board_name,
            parent,
            fields,
        ) is Refuse,
        parent is None && !(last_content(fields, "body"@) matches Some(FieldContent::Value(b))
            && b@.len() > 0) ==> form_decision(board_name, parent, fields) is Refuse,
        !any_refused(fields) && (last_content(fields, "file"@) matches Some(
            FieldContent::Stored(f),
        ) && safe_file_name(f@)) && (parent is Some || (last_content(fields, "body"@) matches Some(
            FieldContent::Value(b),
        ) && b@.len() > 0)) ==> form_decision(board_name, parent, fields) is Store,
{
}

/// What is done with a field's file: a field named `file` whose file has a
/// safe name is stored at the board's folder followed by that name; one
/// whose file has another name, not empty, is refused; a field with an
/// empty file name is ignored; no other field is stored.
pub proof fn law_what_is_done_with_a_file(
    board_name: Seq<char>,
    field_name: Seq<char>,
    filename: Seq<char>,
)
    ensures
        field_name == "file"@ && safe_file_name(filename) ==> field_plan_of(
            board_name,
            field_name,
            Some(filename),
        ) == FieldPlan::Store(("assets/user_content/board/"@ + board_name + "/0/"@) + filename),
        field_name == "file"@ && filename.len() > 0 && !safe_file_name(filename) ==> field_plan_of(
            board_name,
            field_name,
            Some(filename),
        ) == FieldPlan::<Seq<char>>::Refuse,
        filename.len() == 0 ==> field_plan_of(board_name, field_name, Some(filename))
            == FieldPlan::<Seq<char>>::Skip,
        field_name != "file"@ ==> !(field_plan_of(board_name, field_name, Some(filename)) is Store),
        !(field_plan_of(board_name, field_name, None) is Store),
{
    assert(upload_path_of(board_name, filename) =~= ("assets/user_content/board/"@ + board_name
        + "/0/"@) + filename);
}

/// The handler of a thread's page answers a board that is not found, or
/// a thread that does not load, with a "404 Not Found" page; for a board
/// that is found it loads the thread asked for, and answers with that
/// thread's page.
pub proof fn law_thread_page_handler(
    thread_id: i64,
    board: Board,
    posts: Option<Vec<Post>>,
    r0: (GetState, Action),
    r1: (GetState, Action),
    r2: (GetState, Action),
)
    requires
        get_step_gives(GetState::AwaitBoard(thread_id), Event::Board(None), r0),
        get_step_gives(GetState::AwaitBoard(thread_id), Event::Board(Some(board)), r1),
        get_step_gives(r1.0, Event::Thread(posts), r2),
    ensures
        r0.0 is Done && answers(r0.1, Reply::Html("404 Not Found"@)),
        r1.1 == Action::LoadThread(thread_id),
        r2.0 is Done,
        posts is None ==> answers(r2.1, Reply::Html("404 Not Found"@)),
        posts matches Some(ps) ==> answers(r2.1, Reply::Html(thread_page_html(board, ps@))),
{
}

/// The handler of a new post checks a reply's thread before it reads the
/// form: once the board is found, a new thread goes on to read the form
/// under the board's name, while a reply first loads the thread it replies
/// to, and goes on only when that thread's first post is the post replied
/// to, replies to nothing and is on this board; otherwise the reply is
/// refused.  Once the post is stored, the poster is sent to
/// `/b/<board>/<thread>`: the thread replied to, or the new post itself.
pub proof fn law_post_handler_checks_and_redirects(
    board: Board,
    parent: Option<i64>,
    posts: Option<Vec<Post>>,
    board_name: String,
    id: i64,
    r1: (CreateState, Action),
    r2: (CreateState, Action),
    r3: (CreateState, Action),
)
    requires
        create_step_gives(CreateState::AwaitBoard(parent), Event::Board(Some(board)), r1),
        parent is Some ==> create_step_gives(r1.0, Event::Thread(posts), r2),
        create_step_gives(
            CreateState::AwaitCreated(board_name, parent),
            Event::Created(Some(id)),
            r3,
        ),
    ensures
        parent is None ==> (r1.1 matches Action::ReadForm(n) && n@ == board.name@),
        parent matches Some(t) ==> r1.1 == Action::LoadThread(t),
        parent matches Some(t) ==> (if posts matches Some(ps) && ps@.len() > 0 && ps@[0].id == t
            && ps@[0].parent is None && ps@[0].board_id == board.id {
            r2.1 matches Action::ReadForm(n) && n@ == board.name@
        } else {
            r2.0 is Done && r2.1 matches Action::Answer(Reply::Refused(_))
        }),
        answers(
            r3.1,
            Reply::Redirect(
                "/b/"@ + board_name@ + "/"@ + decimal_of(
                    match parent {
                        Some(t) => t as int,
                        None => id as int,
                    },
                ),
            ),
        ),
{
}

/// Which file names are stored: any name of one component other than `.`
/// and `..` is safe, whatever dots or other characters it holds; a name
/// that starts by going up a folder (`../`), ends by going up one (`/..`),
/// or goes up one in between (`/../`) is not.
pub proof fn law_which_names_are_safe(f: Seq<char>, a: Seq<char>, b: Seq<char>)
    ensures
        f.len() > 0 && f != seq!['.'] && f != seq!['.', '.'] && (forall|i: int|
            0 <= i < f.len() ==> #[trigger] f[i] != '/') ==> safe_file_name(f),
        !safe_file_name(seq!['.', '.']),
        !safe_file_name(seq!['.', '.', '/'] + b),
        !safe_file_name(a + seq!['/', '.', '.']),
        !safe_file_name(a + seq!['/', '.', '.', '/'] + b),
{
    if f.len() > 0 && f != seq!['.'] && f != seq!['.', '.'] && (forall|i: int|
        0 <= i < f.len() ==> #[trigger] f[i] != '/') {
        assert forall|i: int| !#[trigger] parent_component_at(f, i) by {
            if parent_component_at(f, i) {
                if i > 0 {
                    assert(f[i - 1] == '/');
                } else if i + 2 < f.len() {
                    assert(f[i + 2] == '/');
                } else {
                    assert(f =~= seq!['.', '.']);
                }
            }
        }
    }
    assert(parent_component_at(seq!['.', '.'], 0));
    let x = seq!['.', '.', '/'] + b;
    assert(x[0] == '.' && x[1] == '.' && x[2] == '/');
    assert(parent_component_at(x, 0));
    let y = a + seq!['/', '.', '.'];
    assert(y[a.len() as int] == '/' && y[a.len() + 1int] == '.' && y[a.len() + 2int] == '.');
    assert(parent_component_at(y, a.len() + 1int));
    let z = a + seq!['/', '.', '.', '/'] + b;
    assert(z[a.len() as int] == '/' && z[a.len() + 1int] == '.' && z[a.len() + 2int] == '.' && z[a.len() + 3int] == '/');
    assert(parent_component_at(z, a.len() + 1int));
}

/// A file is stored only under its board's folder: when a field's file is
/// stored, its path is the board's folder followed by the file's name, not
/// empty, not `.`, and with no `/`-separated component that is `..`.
pub proof fn law_stored_files_stay_in_their_folder(
    board_name: Seq<char>,
    field_name: Seq<char>,
    filename: Option<Seq<char>>,
)
    ensures
        field_plan_of(board_name, field_name, filename) matches FieldPlan::Store(path) ==> (
        filename matches Some(f) && path == ("assets/user_content/board/"@ + board_name + "/0/"@)
            + f && safe_file_name(f)),
{
    if field_plan_of(board_name, field_name, filename) matches FieldPlan::Store(path) {
        let f = filename->0;
        assert(upload_path_of(board_name, f) =~= ("assets/user_content/board/"@ + board_name
            + "/0/"@) + f);
    }
}


/// Once a post is stored, the address the poster is sent to leads, by
/// `GET`, to the page of the post's thread: the thread replied to, or the
/// new thread itself.  This holds of every board name that a path segment
/// holds as it stands.
pub proof fn law_created_post_leads_to_its_thread(
    board_name: Seq<char>,
    parent: Option<i64>,
    id: i64,
)
    requires
        segment_safe(board_name),
    ensures
        api_route(Method::Get, redirect_of(board_name, parent, id)) == Route::Thread(
            board_name,
            match parent {
                Some(p) => p,
                None => id,
            },
        ),
{
    lemma_thread_path_routes(
        board_name,
        match parent {
            Some(p) => p,
            None => id,
        },
    );
}

/// An uploaded file is stored where the static files' route serves it: a
/// `GET` of `/` followed by the file's storage path routes to the static
/// file at that path under `assets/`.  This holds of every board name and
/// file name.
pub proof fn law_upload_is_served(board_name: Seq<char>, filename: Seq<char>)
    ensures
        api_route(Method::Get, "/"@ + upload_path_of(board_name, filename)) == Route::Assets(
            "user_content/board/"@ + board_name + "/0/"@ + filename,
        ),
{
    reveal_strlit("/");
    reveal_strlit("assets/user_content/board/");
    reveal_strlit("assets");
    reveal_strlit("user_content/board/");
    let tail = "user_content/board/"@ + board_name + "/0/"@ + filename;
    let first = seq!['a', 's', 's', 'e', 't', 's'];
    let path = "/"@ + upload_path_of(board_name, filename);
    assert(crate::filters::path_start(path) =~= first + seq!['/'] + tail);
    crate::filters::lemma_split_at_slash(first, tail);
    assert(first =~= "assets"@);
    reveal_strlit("b");
    reveal_strlit("u");
    assert(first != "b"@);
    assert(first != "u"@);
}

} // verus!
