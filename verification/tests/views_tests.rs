use brd::models::{Board, Post};
use brd::views::{
    board_page, boards_partial, header, index_page, page, post_form, post_partial,
    thread_page, threads_partial,
};

fn board(id: i64, name: &str, description: &str) -> Board {
    Board {
        id,
        name: name.to_string(),
        description: description.to_string(),
    }
}

fn post(id: i64, body: &str, parent: Option<i64>, file_name: Option<&str>) -> Post {
    Post {
        id,
        body: body.to_string(),
        parent,
        board_id: 1,
        file_name: file_name.map(|f| f.to_string()),
        file_type: None,
        file_path: None,
    }
}

const HEAD_OPEN: &str = "<!DOCTYPE html><meta charset=\"utf-8\"><title>";
const HEAD_CLOSE: &str = "</title><link rel=\"stylesheet\" href=\"/assets/css/style.css\">";
const FORM: &str = "<form method=\"post\" enctype=\"multipart/form-data\"><textarea name=\"body\" rows=\"6\" cols=\"36\"></textarea><br><input type=\"file\" name=\"file\"><br><input name=\"submit\" type=\"submit\" value=\"submit\"></form>";

#[test]
fn header_escapes_title() {
    assert_eq!(
        header("a<b"),
        format!("{}a&lt;b{}", HEAD_OPEN, HEAD_CLOSE)
    );
}

#[test]
fn page_repeats_title_as_heading() {
    assert_eq!(
        page("brd"),
        format!("{}brd{}<h1>brd</h1>", HEAD_OPEN, HEAD_CLOSE)
    );
}

#[test]
fn boards_partial_one_board() {
    assert_eq!(
        boards_partial(vec![board(1, "g", "general")]),
        "<a href=\"/b/g\">g</a>"
    );
}

#[test]
fn boards_partial_separates_boards() {
    assert_eq!(
        boards_partial(vec![board(1, "a", ""), board(2, "b", ""), board(3, "c&d", "")]),
        "<a href=\"/b/a\">a</a><span> / </span><a href=\"/b/b\">b</a><span> / </span><a href=\"/b/c&amp;d\">c&amp;d</a>"
    );
}

#[test]
fn index_page_wraps_boards() {
    let m = index_page("<p>No boards found</p>".to_string());
    assert_eq!(
        m,
        format!(
            "{}brd{}<h1>brd</h1><p>welcome to brd</p><h2>boards</h2><p>No boards found</p><h2>description</h2><p>A simple imageboard site that supports private walled-garden communication</p>",
            HEAD_OPEN, HEAD_CLOSE
        )
    );
}

#[test]
fn post_partial_with_link_and_image() {
    let b = board(1, "g", "");
    let p = post(5, "hi <there>", None, Some("assets/x.png"));
    assert_eq!(
        post_partial(&b, &p, true),
        "<pre class=\"post\"><a href=\"/b/g/5\">id: 5\n</a><img src=\"/assets/x.png\">body: hi &lt;there&gt;\n</pre>"
    );
}

#[test]
fn post_partial_without_link() {
    let b = board(1, "g", "");
    let p = post(-3, "\"q\"", Some(1), None);
    assert_eq!(
        post_partial(&b, &p, false),
        "<pre class=\"post\">id: -3\nbody: &quot;q&quot;\n</pre>"
    );
}

#[test]
fn threads_partial_lists_newest_first() {
    let b = board(1, "g", "");
    let m = threads_partial(&b, vec![post(1, "one", None, None), post(2, "two", None, None)]);
    let expected = format!(
        "{}{}",
        post_partial(&b, &post(2, "two", None, None), true),
        post_partial(&b, &post(1, "one", None, None), true)
    );
    assert_eq!(m, expected);
    assert!(m.find("id: 2").unwrap() < m.find("id: 1").unwrap());
}

#[test]
fn threads_partial_of_no_threads_is_empty() {
    assert_eq!(threads_partial(&board(1, "g", ""), vec![]), "");
}

#[test]
fn post_form_markup() {
    assert_eq!(post_form(), FORM);
}

#[test]
fn board_page_markup() {
    let b = board(1, "g", "general & more");
    assert_eq!(
        board_page(&b, "T".to_string()),
        format!(
            "{}g{}<h1>g</h1><h2>general &amp; more</h2><a href=\"/\">&lt;= Go back</a><br><br><p>Post a thread on this board</p>{}<br>T",
            HEAD_OPEN, HEAD_CLOSE, FORM
        )
    );
}

#[test]
fn thread_page_titled_by_first_post() {
    let b = board(1, "g", "");
    let posts = vec![post(7, "op", None, None), post(9, "re", Some(7), None)];
    let m = thread_page(&b, posts);
    assert_eq!(
        m,
        format!(
            "{}g / thread 7{}<h1>g / thread 7</h1><a href=\"/b/g\">&lt;= Go back</a><br><br><p>Post a reply to this thread</p>{}<br><pre class=\"post\">id: 7\nbody: op\n</pre><pre class=\"post\">id: 9\nbody: re\n</pre>",
            HEAD_OPEN, HEAD_CLOSE, FORM
        )
    );
}

#[test]
fn user_text_cannot_open_tags() {
    let b = board(1, "<script>", "");
    let p = post(1, "</pre><script>alert(1)</script>", None, Some("\"><img"));
    let m = post_partial(&b, &p, true);
    assert!(!m.contains("<script>"));
    assert!(!m.contains("</pre><"));
    assert!(m.contains("&lt;script&gt;"));
    assert!(m.contains("&quot;&gt;&lt;img"));
}
