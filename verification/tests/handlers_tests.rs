use brd::handlers::board::{get as board_get, get_step as board_step, GetState as BoardState};
use brd::handlers::post::{
    create, create_step, get as thread_get, get_step as thread_step, is_safe_file_name,
    plan_field, CreateState, FieldPlan, GetState as ThreadState,
};
use brd::handlers::{index, user, Action, Event, FieldContent, FormField, Reply};
use brd::models::{Board, Post};

fn board(id: i64, name: &str) -> Board {
    Board {
        id,
        name: name.to_string(),
        description: "d".to_string(),
    }
}

fn post(id: i64, body: &str, parent: Option<i64>) -> Post {
    Post {
        id,
        body: body.to_string(),
        parent,
        board_id: 1,
        file_name: None,
        file_type: None,
        file_path: None,
    }
}

fn html_of(action: Action) -> String {
    match action {
        Action::Answer(Reply::Html(h)) => h,
        _ => panic!("expected a page"),
    }
}

#[test]
fn index_lists_boards() {
    let m = index(Some(vec![board(1, "a"), board(2, "b")]));
    assert_eq!(
        m,
        brd::views::index_page(brd::views::boards_partial(vec![board(1, "a"), board(2, "b")]))
    );
}

#[test]
fn index_without_boards() {
    let m = index(None);
    assert!(m.contains("<h2>boards</h2><p>No boards found</p><h2>description</h2>"));
}

#[test]
fn user_page_is_titled_by_user() {
    assert_eq!(user("ann"), brd::views::page("user ann"));
}

#[test]
fn board_page_of_missing_board_is_404() {
    let (state, action) = board_get("nope".to_string());
    assert!(matches!(action, Action::LoadBoard(ref n) if n == "nope"));
    let (state, action) = board_step(state, Event::Board(None));
    assert!(matches!(state, BoardState::Done));
    assert_eq!(html_of(action), "404 Not Found");
}

#[test]
fn board_page_loads_threads() {
    let (state, _) = board_get("g".to_string());
    let (state, action) = board_step(state, Event::Board(Some(board(3, "g"))));
    assert!(matches!(action, Action::LoadThreads(3)));
    let (state, action) = board_step(state, Event::Threads(Some(vec![post(1, "x", None)])));
    assert!(matches!(state, BoardState::Done));
    let expected = brd::views::board_page(
        &board(3, "g"),
        brd::views::threads_partial(&board(3, "g"), vec![post(1, "x", None)]),
    );
    assert_eq!(html_of(action), expected);
}

#[test]
fn board_page_when_threads_fail() {
    let (state, _) = board_get("g".to_string());
    let (state, _) = board_step(state, Event::Board(Some(board(3, "g"))));
    let (_, action) = board_step(state, Event::Threads(None));
    assert!(html_of(action).ends_with("<br><p>No threads found</p>"));
}

#[test]
fn thread_page_steps() {
    let (state, action) = thread_get("g".to_string(), 7);
    assert!(matches!(state, ThreadState::AwaitBoard(7)));
    assert!(matches!(action, Action::LoadBoard(ref n) if n == "g"));
    let (state, action) = thread_step(state, Event::Board(Some(board(1, "g"))));
    assert!(matches!(action, Action::LoadThread(7)));
    let posts = vec![post(7, "op", None), post(8, "re", Some(7))];
    let (_, action) = thread_step(state, Event::Thread(Some(posts)));
    let expected = brd::views::thread_page(
        &board(1, "g"),
        vec![post(7, "op", None), post(8, "re", Some(7))],
    );
    assert_eq!(html_of(action), expected);
}

#[test]
fn thread_page_of_missing_thread_is_404() {
    let (state, _) = thread_get("g".to_string(), 7);
    let (state, _) = thread_step(state, Event::Board(Some(board(1, "g"))));
    let (_, action) = thread_step(state, Event::Thread(None));
    assert_eq!(html_of(action), "404 Not Found");
    let (state, _) = thread_get("g".to_string(), 7);
    let (_, action) = thread_step(state, Event::Board(None));
    assert_eq!(html_of(action), "404 Not Found");
}

#[test]
fn field_plans() {
    assert!(matches!(plan_field("g", "file", Some("")), FieldPlan::Skip));
    assert!(matches!(plan_field("g", "body", Some("")), FieldPlan::Skip));
    assert!(matches!(plan_field("g", "body", None), FieldPlan::Read));
    assert!(matches!(plan_field("g", "file", None), FieldPlan::Read));
    assert!(matches!(plan_field("g", "body", Some("a.png")), FieldPlan::Read));
    match plan_field("g", "file", Some("cat.png")) {
        FieldPlan::Store(path) => assert_eq!(path, "assets/user_content/board/g/0/cat.png"),
        _ => panic!("expected the upload to be stored"),
    }
}

#[test]
fn unsafe_file_names_are_refused() {
    for name in ["../../../src/main.rs", "..", ".", "a/../b.png", "sub/..", "../x"] {
        assert!(matches!(plan_field("g", "file", Some(name)), FieldPlan::Refuse), "{:?}", name);
        assert!(!is_safe_file_name(name), "{:?}", name);
    }
}

#[test]
fn names_inside_the_folder_are_stored() {
    for name in ["cat.png", ".hidden", "a.b.c", "x", "a..b.png", "v1..2.jpg", "a\\b.png", "sub/x.png", "...", "x../y", "a/..b"] {
        assert!(is_safe_file_name(name), "{:?}", name);
        match plan_field("g", "file", Some(name)) {
            FieldPlan::Store(path) => {
                assert_eq!(path, format!("assets/user_content/board/g/0/{}", name))
            }
            _ => panic!("expected {:?} to be stored", name),
        }
    }
}

#[test]
fn uploaded_file_is_served_from_assets() {
    let path = match plan_field("g", "file", Some("cat.png")) {
        FieldPlan::Store(path) => path,
        _ => panic!("expected the upload to be stored"),
    };
    match brd::filters::api(brd::filters::Method::Get, &format!("/{}", path)) {
        brd::filters::Route::Assets(tail) => assert_eq!(tail, "user_content/board/g/0/cat.png"),
        _ => panic!("expected the static files' route"),
    }
}

fn value(name: &str, v: &[u8]) -> FormField {
    FormField {
        name: name.to_string(),
        content: FieldContent::Value(v.to_vec()),
    }
}

fn stored(name: &str, f: &str) -> FormField {
    FormField {
        name: name.to_string(),
        content: FieldContent::Stored(f.to_string()),
    }
}

fn skipped(name: &str) -> FormField {
    FormField {
        name: name.to_string(),
        content: FieldContent::Skipped,
    }
}

fn refused_of(action: Action) -> String {
    match action {
        Action::Answer(Reply::Refused(h)) => h,
        _ => panic!("expected a refusal"),
    }
}

fn thread_form(fields: Vec<FormField>) -> (CreateState, Action) {
    let (state, _) = create("g".to_string(), None);
    let (state, _) = create_step(state, Event::Board(Some(board(4, "g"))));
    create_step(state, Event::Form(fields))
}

fn reply_form(fields: Vec<FormField>) -> (CreateState, Action) {
    let (state, _) = create("g".to_string(), Some(5));
    let (state, _) = create_step(state, Event::Board(Some(board(4, "g"))));
    let (state, _) = create_step(state, Event::Thread(Some(vec![thread_post(5, 4)])));
    create_step(state, Event::Form(fields))
}

fn thread_post(id: i64, board_id: i64) -> Post {
    Post {
        board_id,
        ..post(id, "op", None)
    }
}

#[test]
fn new_thread_redirects_to_itself() {
    let (state, action) = create("g".to_string(), None);
    assert!(matches!(state, CreateState::AwaitBoard(None)));
    assert!(matches!(action, Action::LoadBoard(ref n) if n == "g"));
    let (state, action) = create_step(state, Event::Board(Some(board(4, "g"))));
    assert!(matches!(action, Action::ReadForm(ref n) if n == "g"));
    let fields = vec![value("body", b"hello \xff"), stored("file", "a.png")];
    let (state, action) = create_step(state, Event::Form(fields));
    match action {
        Action::CreatePost(p) => {
            assert_eq!(p.board_id, 4);
            assert_eq!(p.parent, None);
            assert_eq!(p.body, "hello \u{FFFD}");
            assert_eq!(p.file_name.as_deref(), Some("assets/user_content/board/g/0/a.png"));
        }
        _ => panic!("expected a post to store"),
    }
    let (state, action) = create_step(state, Event::Created(Some(31)));
    assert!(matches!(state, CreateState::Done));
    assert!(matches!(action, Action::Answer(Reply::Redirect(ref to)) if to == "/b/g/31"));
}

#[test]
fn reply_redirects_to_its_thread() {
    let (state, _) = create("g".to_string(), Some(5));
    let (state, action) = create_step(state, Event::Board(Some(board(4, "g"))));
    assert!(matches!(action, Action::LoadThread(5)));
    let (state, action) = create_step(
        state,
        Event::Thread(Some(vec![thread_post(5, 4), post(6, "re", Some(5))])),
    );
    assert!(matches!(action, Action::ReadForm(ref n) if n == "g"));
    let (state, action) = create_step(state, Event::Form(vec![stored("file", "b.png")]));
    match action {
        Action::CreatePost(p) => {
            assert_eq!(p.parent, Some(5));
            assert_eq!(p.body, "");
            assert_eq!(p.file_name.as_deref(), Some("assets/user_content/board/g/0/b.png"));
        }
        _ => panic!("expected a post to store"),
    }
    let (_, action) = create_step(state, Event::Created(Some(40)));
    match action {
        Action::Answer(Reply::Redirect(to)) => {
            assert_eq!(to, "/b/g/5");
            assert!(matches!(
                brd::filters::api(brd::filters::Method::Get, &to),
                brd::filters::Route::Thread(ref n, 5) if n == "g"
            ));
        }
        _ => panic!("expected a redirection"),
    }
}

#[test]
fn post_without_image_is_refused() {
    let (state, action) = thread_form(vec![value("body", b"text only")]);
    assert!(matches!(state, CreateState::Done));
    assert_eq!(refused_of(action), "<p>A post needs an image</p>");
    let (_, action) = reply_form(vec![value("body", b"text"), value("file", b"not a file")]);
    assert_eq!(refused_of(action), "<p>A post needs an image</p>");
    let (_, action) = reply_form(vec![]);
    assert_eq!(refused_of(action), "<p>A post needs an image</p>");
}

#[test]
fn new_thread_without_text_is_refused() {
    let (_, action) = thread_form(vec![stored("file", "a.png")]);
    assert_eq!(refused_of(action), "<p>A new thread needs text</p>");
    let (_, action) = thread_form(vec![value("body", b""), stored("file", "a.png")]);
    assert_eq!(refused_of(action), "<p>A new thread needs text</p>");
}

#[test]
fn refused_file_name_refuses_the_post() {
    let fields = vec![
        value("body", b"hi"),
        FormField {
            name: "file".to_string(),
            content: FieldContent::Refused,
        },
    ];
    let (_, action) = thread_form(fields);
    assert_eq!(refused_of(action), "<p>The file name is not allowed</p>");
}

#[test]
fn reply_to_what_is_not_a_thread_is_refused() {
    let cases: Vec<Option<Vec<Post>>> = vec![
        None,
        Some(vec![]),
        Some(vec![post(6, "re", Some(5))]),
        Some(vec![thread_post(5, 99)]),
        Some(vec![post(5, "a reply", Some(1))]),
    ];
    for thread in cases {
        let (state, _) = create("g".to_string(), Some(5));
        let (state, _) = create_step(state, Event::Board(Some(board(4, "g"))));
        let (state, action) = create_step(state, Event::Thread(thread));
        assert!(matches!(state, CreateState::Done));
        assert_eq!(refused_of(action), "<p>No such thread on this board</p>");
    }
}

#[test]
fn last_field_of_a_name_counts() {
    let fields = vec![value("body", b"one"), stored("file", "a.png"), value("body", b"two")];
    match thread_form(fields).1 {
        Action::CreatePost(p) => assert_eq!(p.body, "two"),
        _ => panic!("expected a post to store"),
    }
}

#[test]
fn empty_file_field_changes_nothing() {
    let with = vec![value("body", b"hi"), stored("file", "a.png"), skipped("file")];
    let without = vec![value("body", b"hi"), stored("file", "a.png")];
    match (thread_form(with).1, thread_form(without).1) {
        (Action::CreatePost(a), Action::CreatePost(b)) => {
            assert_eq!(a.body, b.body);
            assert_eq!(a.file_name, b.file_name);
            assert_eq!(a.parent, b.parent);
        }
        _ => panic!("expected posts to store"),
    }
}

#[test]
fn stored_file_with_unsafe_name_is_refused() {
    let (_, action) = thread_form(vec![value("body", b"hi"), stored("file", "../x.png")]);
    assert_eq!(refused_of(action), "<p>The file name is not allowed</p>");
}

#[test]
fn post_names_the_path_its_upload_was_stored_at() {
    let path = match plan_field("g", "file", Some("cat.png")) {
        FieldPlan::Store(path) => path,
        _ => panic!("expected the upload to be stored"),
    };
    match thread_form(vec![value("body", b"hi"), stored("file", "cat.png")]).1 {
        Action::CreatePost(p) => assert_eq!(p.file_name, Some(path)),
        _ => panic!("expected a post to store"),
    }
}
