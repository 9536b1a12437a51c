use brd::db::{post_create, post_create_step, CreateState, DbAction, DbEvent};

#[test]
fn post_without_file() {
    let (state, action) = post_create(2, None, "b".to_string(), None);
    assert!(matches!(action, DbAction::Begin));
    let (state, action) = post_create_step(state, DbEvent::Began(true));
    assert!(matches!(action, DbAction::InsertPost { ref body, parent: None, board_id: 2 } if body == "b"));
    let (state, action) = post_create_step(state, DbEvent::Inserted(Some(10)));
    assert!(matches!(action, DbAction::Commit));
    let (state, action) = post_create_step(state, DbEvent::Committed);
    assert!(matches!(state, CreateState::Done));
    assert!(matches!(action, DbAction::Finish(Some(10))));
}

#[test]
fn post_with_file() {
    let (state, _) = post_create(2, Some(1), "b".to_string(), Some("f.png".to_string()));
    let (state, _) = post_create_step(state, DbEvent::Began(true));
    let (state, action) = post_create_step(state, DbEvent::Inserted(Some(10)));
    assert!(matches!(action, DbAction::InsertFile { ref file_name, ref file_type, board_id: 2 } if file_name == "f.png" && file_type.is_empty()));
    let (state, action) = post_create_step(state, DbEvent::Inserted(Some(77)));
    assert!(matches!(action, DbAction::AttachFile { file_id: 77, post_id: 10 }));
    let (state, action) = post_create_step(state, DbEvent::Updated(true));
    assert!(matches!(action, DbAction::Commit));
    let (_, action) = post_create_step(state, DbEvent::Committed);
    assert!(matches!(action, DbAction::Finish(Some(10))));
}

#[test]
fn failures_end_without_id() {
    let (state, _) = post_create(2, None, "b".to_string(), None);
    let (_, action) = post_create_step(state, DbEvent::Began(false));
    assert!(matches!(action, DbAction::Finish(None)));

    let (state, _) = post_create(2, None, "b".to_string(), None);
    let (state, _) = post_create_step(state, DbEvent::Began(true));
    let (_, action) = post_create_step(state, DbEvent::Inserted(None));
    assert!(matches!(action, DbAction::Finish(None)));

    let (state, _) = post_create(2, None, "b".to_string(), Some("f".to_string()));
    let (state, _) = post_create_step(state, DbEvent::Began(true));
    let (state, _) = post_create_step(state, DbEvent::Inserted(Some(1)));
    let (_, action) = post_create_step(state, DbEvent::Inserted(None));
    assert!(matches!(action, DbAction::Finish(None)));

    let (state, _) = post_create(2, None, "b".to_string(), Some("f".to_string()));
    let (state, _) = post_create_step(state, DbEvent::Began(true));
    let (state, _) = post_create_step(state, DbEvent::Inserted(Some(1)));
    let (state, _) = post_create_step(state, DbEvent::Inserted(Some(2)));
    let (_, action) = post_create_step(state, DbEvent::Updated(false));
    assert!(matches!(action, DbAction::Finish(None)));
}

#[test]
fn empty_post_is_refused_before_any_statement() {
    let (state, action) = post_create(2, None, String::new(), None);
    assert!(matches!(state, CreateState::Done));
    assert!(matches!(action, DbAction::Finish(None)));
    let (_, action) = post_create(2, None, String::new(), Some("f".to_string()));
    assert!(matches!(action, DbAction::Begin));
}
