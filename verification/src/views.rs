//! The HTML of each page.
//!
//! Every function returns the markup as a `String`; text that comes from a
//! board or a post is escaped on its way in, numbers are written in decimal.
use vstd::prelude::*;

use crate::models::{Board, Post};
use crate::text::{decimal_of, decimal_string, escape_html, render_doctype, render_int, render_text};

verus! {

/// The head of every page: doctype, charset, title and stylesheet.
pub open spec fn header_html(title: Seq<char>) -> Seq<char> {
    "<!DOCTYPE html>"@ + "<meta charset=\"utf-8\"><title>"@ + escape_html(title)
        + "</title><link rel=\"stylesheet\" href=\"/assets/css/style.css\">"@
}

/// A page with its title repeated as the first heading.
pub open spec fn page_html(title: Seq<char>) -> Seq<char> {
    header_html(title) + "<h1>"@ + escape_html(title) + "</h1>"@
}

/// The link to a board, labelled with its name.
pub open spec fn board_link_html(board: Board) -> Seq<char> {
    "<a href=\"/b/"@ + escape_html(board.name@) + "\">"@ + escape_html(board.name@) + "</a>"@
}

/// The separator between two board links.
pub open spec fn board_separator_html() -> Seq<char> {
    "<span> / </span>"@
}

/// The links to `boards`, each followed by a separator.
pub open spec fn board_links_html(boards: Seq<Board>) -> Seq<char>
    decreases boards.len(),
{
    if boards.len() == 0 {
        Seq::empty()
    } else {
        board_links_html(boards.drop_last()) + board_link_html(boards.last())
            + board_separator_html()
    }
}

/// The list of boards: their links in order, separated, the last one unfollowed.
pub open spec fn boards_html(boards: Seq<Board>) -> Seq<char> {
    board_links_html(boards.drop_last()) + board_link_html(boards.last())
}

/// The home page around the list of boards.
pub open spec fn index_page_html(boards: Seq<char>) -> Seq<char> {
    page_html("brd"@) + "<p>welcome to brd</p><h2>boards</h2>"@ + boards
        + "<h2>description</h2><p>A simple imageboard site that supports private walled-garden communication</p>"@
}

/// The address of a thread, or of a post in it: `/b/<board>/<id>`.
pub open spec fn post_href(board_name: Seq<char>, id: i64) -> Seq<char> {
    "/b/"@ + board_name + "/"@ + decimal_of(id as int)
}

/// One post: its id (a link to it when `link` holds), its image if it has
/// one, and its body.
pub open spec fn post_html(board: Board, post: Post, link: bool) -> Seq<char> {
    let id_line = if link {
        "<a href=\"/b/"@ + escape_html(board.name@) + "/"@ + decimal_of(post.id as int)
            + "\">id: "@ + decimal_of(post.id as int) + "\n</a>"@
    } else {
        "id: "@ + decimal_of(post.id as int) + "\n"@
    };
    let image = match post.file_name {
        Some(f) => "<img src=\"/"@ + escape_html(f@) + "\">"@,
        None => Seq::empty(),
    };
    "<pre class=\"post\">"@ + id_line + image + "body: "@ + escape_html(post.body@) + "\n</pre>"@
}

/// The posts one after the other, in the order given.
pub open spec fn posts_html(board: Board, posts: Seq<Post>, link: bool) -> Seq<char>
    decreases posts.len(),
{
    if posts.len() == 0 {
        Seq::empty()
    } else {
        posts_html(board, posts.drop_last(), link) + post_html(board, posts.last(), link)
    }
}

/// The threads of a board: newest first, each a link to its thread.
pub open spec fn threads_html(board: Board, posts: Seq<Post>) -> Seq<char> {
    posts_html(board, posts.reverse(), true)
}

/// The form that posts a new thread or a reply.
pub open spec fn post_form_html() -> Seq<char> {
    "<form method=\"post\" enctype=\"multipart/form-data\"><textarea name=\"body\" rows=\"6\" cols=\"36\"></textarea><br><input type=\"file\" name=\"file\"><br><input name=\"submit\" type=\"submit\" value=\"submit\"></form>"@
}

/// The page of a board around the list of its threads.
pub open spec fn board_page_html(board: Board, threads: Seq<char>) -> Seq<char> {
    page_html(board.name@) + "<h2>"@ + escape_html(board.description@)
        + "</h2><a href=\"/\">&lt;= Go back</a><br><br><p>Post a thread on this board</p>"@
        + post_form_html() + "<br>"@ + threads
}

/// The title of a thread's page: the board's name and the first post's id.
pub open spec fn thread_title(board: Board, first: Post) -> Seq<char> {
    board.name@ + " / thread "@ + decimal_of(first.id as int)
}

/// The page of a thread: its posts in order, none of them a link.
pub open spec fn thread_page_html(board: Board, posts: Seq<Post>) -> Seq<char> {
    page_html(thread_title(board, posts[0])) + "<a href=\"/b/"@ + escape_html(board.name@)
        + "\">&lt;= Go back</a><br><br><p>Post a reply to this thread</p>"@ + post_form_html()
        + "<br>"@ + posts_html(board, posts, false)
}

/// The head of a page titled `page_title`.
pub fn header(page_title: &str) -> (m: String)
    ensures
        m@ == header_html(page_title@),
{
    let mut m = String::new();
    render_doctype(&mut m);
    m.append("<meta charset=\"utf-8\"><title>");
    render_text(&mut m, page_title);
    m.append("</title><link rel=\"stylesheet\" href=\"/assets/css/style.css\">");
    assert(m@ =~= header_html(page_title@));
    m
}

/// A page titled `title`, with the title as its first heading.
pub fn page(title: &str) -> (m: String)
    ensures
        m@ == page_html(title@),
{
    let mut m = header(title);
    m.append("<h1>");
    render_text(&mut m, title);
    m.append("</h1>");
    assert(m@ =~= page_html(title@));
    m
}

fn push_board_link(m: &mut String, board: &Board)
    ensures
        final(m)@ == old(m)@ + board_link_html(*board),
{
    m.append("<a href=\"/b/");
    render_text(m, board.name.as_str());
    m.append("\">");
    render_text(m, board.name.as_str());
    m.append("</a>");
    assert(final(m)@ =~= old(m)@ + board_link_html(*board));
}

/// The list of boards, each a link to its page.  Takes at least one board.
pub fn boards_partial(boards: Vec<Board>) -> (m: String)
    requires
        boards.len() > 0,
    ensures
        m@ == boards_html(boards@),
{
    let mut m = String::new();
    let last = boards.len() - 1;
    let ghost most = boards@.drop_last();
    let mut i: usize = 0;
    while i < last
        invariant
            last == boards.len() - 1,
            most == boards@.drop_last(),
            i <= last,
            m@ == board_links_html(most.take(i as int)),
        decreases last - i,
    {
        push_board_link(&mut m, &boards[i]);
        m.append("<span> / </span>");
        assert(most.take(i + 1).drop_last() =~= most.take(i as int));
        i = i + 1;
    }
    assert(most.take(last as int) =~= most);
    push_board_link(&mut m, &boards[last]);
    m
}

/// The home page, around `boards`, the markup of the list of boards.
pub fn index_page(boards: String) -> (m: String)
    ensures
        m@ == index_page_html(boards@),
{
    let mut m = page("brd");
    m.append("<p>welcome to brd</p><h2>boards</h2>");
    m.append(boards.as_str());
    m.append(
        "<h2>description</h2><p>A simple imageboard site that supports private walled-garden communication</p>",
    );
    assert(m@ =~= index_page_html(boards@));
    m
}

/// One post of `board`; its id links to it when `link` holds.
pub fn post_partial(board: &Board, post: &Post, link: bool) -> (m: String)
    ensures
        m@ == post_html(*board, *post, link),
{
    let mut m = String::new();
    m.append("<pre class=\"post\">");
    if link {
        m.append("<a href=\"/b/");
        render_text(&mut m, board.name.as_str());
        m.append("/");
        render_int(&mut m, post.id);
        m.append("\">id: ");
        render_int(&mut m, post.id);
        m.append("\n</a>");
    } else {
        m.append("id: ");
        render_int(&mut m, post.id);
        m.append("\n");
    }
    match &post.file_name {
        Some(file_name) => {
            m.append("<img src=\"/");
            render_text(&mut m, file_name.as_str());
            m.append("\">");
        },
        None => {},
    }
    m.append("body: ");
    render_text(&mut m, post.body.as_str());
    m.append("\n</pre>");
    assert(m@ =~= post_html(*board, *post, link));
    m
}

/// The threads of `board`, newest first, each a link to its thread.
pub fn threads_partial(board: &Board, posts: Vec<Post>) -> (m: String)
    ensures
        m@ == threads_html(*board, posts@),
{
    let mut m = String::new();
    let n = posts.len();
    let ghost newest_first = posts@.reverse();
    let mut i: usize = n;
    while i > 0
        invariant
            n == posts.len(),
            newest_first == posts@.reverse(),
            i <= n,
            m@ == posts_html(*board, newest_first.take(n - i), true),
        decreases i,
    {
        let part = post_partial(board, &posts[i - 1], true);
        m.append(part.as_str());
        assert(newest_first.take(n - i + 1).drop_last() =~= newest_first.take(n - i));
        assert(newest_first[n - i] == posts@[i - 1]);
        i = i - 1;
    }
    assert(newest_first.take(n as int) =~= newest_first);
    m
}

/// The form that posts a thread or a reply: a body and a file.
pub fn post_form() -> (m: String)
    ensures
        m@ == post_form_html(),
{
    let mut m = String::new();
    m.append(
        "<form method=\"post\" enctype=\"multipart/form-data\"><textarea name=\"body\" rows=\"6\" cols=\"36\"></textarea><br><input type=\"file\" name=\"file\"><br><input name=\"submit\" type=\"submit\" value=\"submit\"></form>",
    );
    assert(m@ =~= post_form_html());
    m
}

/// The page of `board`, around `threads_partial`, the markup of its threads.
pub fn board_page(board: &Board, threads_partial: String) -> (m: String)
    ensures
        m@ == board_page_html(*board, threads_partial@),
{
    let mut m = page(board.name.as_str());
    m.append("<h2>");
    render_text(&mut m, board.description.as_str());
    m.append("</h2><a href=\"/\">&lt;= Go back</a><br><br><p>Post a thread on this board</p>");
    let form = post_form();
    m.append(form.as_str());
    m.append("<br>");
    m.append(threads_partial.as_str());
    assert(m@ =~= board_page_html(*board, threads_partial@));
    m
}

/// The page of a thread of `board`: `posts` in order, the first one the
/// thread itself.  Takes at least one post.
pub fn thread_page(board: &Board, posts: Vec<Post>) -> (m: String)
    requires
        posts.len() > 0,
    ensures
        m@ == thread_page_html(*board, posts@),
{
    let mut title = board.name.clone();
    title.append(" / thread ");
    let id = decimal_string(posts[0].id);
    title.append(id.as_str());
    assert(title@ =~= thread_title(*board, posts@[0]));
    let mut m = page(title.as_str());
    m.append("<a href=\"/b/");
    render_text(&mut m, board.name.as_str());
    m.append("\">&lt;= Go back</a><br><br><p>Post a reply to this thread</p>");
    let form = post_form();
    m.append(form.as_str());
    m.append("<br>");
    let n = posts.len();
    let ghost before = m@;
    let mut i: usize = 0;
    while i < n
        invariant
            n == posts.len(),
            i <= n,
            m@ == before + posts_html(*board, posts@.take(i as int), false),
        decreases n - i,
    {
        let part = post_partial(board, &posts[i], false);
        m.append(part.as_str());
        assert(posts@.take(i + 1).drop_last() =~= posts@.take(i as int));
        assert(m@ =~= before + posts_html(*board, posts@.take(i + 1), false));
        i = i + 1;
    }
    assert(posts@.take(n as int) =~= posts@);
    assert(m@ =~= thread_page_html(*board, posts@));
    m
}

proof fn lemma_posts_html_concat(board: Board, a: Seq<Post>, c: Seq<Post>, link: bool)
    ensures
        posts_html(board, a + c, link) == posts_html(board, a, link) + posts_html(board, c, link),
    decreases c.len(),
{
    if c.len() == 0 {
        assert(a + c =~= a);
    } else {
        lemma_posts_html_concat(board, a, c.drop_last(), link);
        assert((a + c).drop_last() =~= a + c.drop_last());
        assert((a + c).last() == c.last());
    }
}

/// Every board is listed, in order: the list of one board is its link, and
/// a board added at the end of a list adds a separator and its link at the
/// end of the markup.
pub proof fn law_every_board_is_listed(boards: Seq<Board>, board: Board)
    ensures
        boards_html(seq![board]) == board_link_html(board),
        boards.len() > 0 ==> boards_html(boards.push(board)) == boards_html(boards)
            + board_separator_html() + board_link_html(board),
{
    assert(seq![board].drop_last() =~= Seq::<Board>::empty());
    assert(board_links_html(Seq::<Board>::empty()) =~= Seq::<char>::empty());
    if boards.len() > 0 {
        assert(boards.push(board).drop_last() =~= boards);
        assert(boards =~= boards.drop_last().push(boards.last()));
        assert(board_links_html(boards) == board_links_html(boards.drop_last()) + board_link_html(
            boards.last(),
        ) + board_separator_html());
    }
}

/// A board's threads are listed newest first: no threads list nothing,
/// and a thread added after the others (a newer one) is listed before all
/// of them, as a link.
pub proof fn law_threads_newest_first(board: Board, posts: Seq<Post>, post: Post)
    ensures
        threads_html(board, Seq::empty()) == Seq::<char>::empty(),
        threads_html(board, posts.push(post)) == post_html(board, post, true) + threads_html(
            board,
            posts,
        ),
{
    assert(Seq::<Post>::empty().reverse() =~= Seq::<Post>::empty());
    assert(posts.push(post).reverse() =~= seq![post] + posts.reverse());
    lemma_posts_html_concat(board, seq![post], posts.reverse(), true);
    assert(seq![post].drop_last() =~= Seq::<Post>::empty());
    assert(posts_html(board, Seq::<Post>::empty(), true) == Seq::<char>::empty());
    assert(posts_html(board, seq![post], true) =~= post_html(board, post, true));
    assert(threads_html(board, posts.push(post)) == posts_html(board, seq![post] + posts.reverse(), true));
}

/// A thread's page lists its posts in the order given: a post added after
/// the others is shown after all of them, not as a link, and the rest of
/// the page is unchanged.
pub proof fn law_thread_posts_in_order(board: Board, posts: Seq<Post>, post: Post)
    requires
        posts.len() > 0,
    ensures
        thread_page_html(board, posts.push(post)) == thread_page_html(board, posts) + post_html(
            board,
            post,
            false,
        ),
{
    assert(posts.push(post)[0] == posts[0]);
    assert(posts.push(post).drop_last() =~= posts);
}

/// What ends every post, linked or not: its image when it has one, then
/// its escaped body.
pub open spec fn post_ending(post: Post) -> Seq<char> {
    (match post.file_name {
        Some(f) => "<img src=\""@ + "/"@ + escape_html(f@) + "\">"@,
        None => Seq::empty(),
    }) + "body: "@ + escape_html(post.body@) + "\n</pre>"@
}

/// A post shows its image, when it has one, and its body, whether or not
/// its id is a link: every post, on a board's page or a thread's page,
/// ends with its image and its escaped body.
pub proof fn law_post_shows_image_and_body(board: Board, post: Post, link: bool)
    ensures
        post_html(board, post, link).len() >= post_ending(post).len(),
        post_html(board, post, link).skip(
            post_html(board, post, link).len() - post_ending(post).len(),
        ) == post_ending(post),
{
    reveal_strlit("<img src=\"/");
    reveal_strlit("<img src=\"");
    reveal_strlit("/");
    assert("<img src=\"/"@ =~= "<img src=\""@ + "/"@);
    let whole = post_html(board, post, link);
    let end = post_ending(post);
    let id_line = if link {
        "<a href=\"/b/"@ + escape_html(board.name@) + "/"@ + decimal_of(post.id as int)
            + "\">id: "@ + decimal_of(post.id as int) + "\n</a>"@
    } else {
        "id: "@ + decimal_of(post.id as int) + "\n"@
    };
    let head = "<pre class=\"post\">"@ + id_line;
    assert(whole =~= head + end);
    assert(whole.skip(whole.len() - end.len()) =~= end);
}

/// A page's title is shown escaped, in its head and as its first heading:
/// a page starts with the doctype and ends with the escaped title as a
/// heading.
pub proof fn law_page_shows_its_title(title: Seq<char>)
    ensures
        page_html(title).take("<!DOCTYPE html>"@.len() as int) == "<!DOCTYPE html>"@,
        page_html(title).len() >= ("<h1>"@ + escape_html(title) + "</h1>"@).len(),
        page_html(title).skip(
            page_html(title).len() - ("<h1>"@ + escape_html(title) + "</h1>"@).len(),
        ) == "<h1>"@ + escape_html(title) + "</h1>"@,
{
    let head = header_html(title);
    let tail = "<h1>"@ + escape_html(title) + "</h1>"@;
    assert(page_html(title) =~= head + tail);
    assert(page_html(title).skip(page_html(title).len() - tail.len()) =~= tail);
    let d = "<!DOCTYPE html>"@;
    assert(page_html(title) =~= d + (page_html(title).skip(d.len() as int)));
    assert(page_html(title).take(d.len() as int) =~= d);
}

/// The home page holds the list of boards as it is given, between a part
/// before it and a part after it that do not depend on the list.
pub proof fn law_home_page_holds_the_list(boards: Seq<char>)
    ensures
        index_page_html(boards) == index_page_html(Seq::empty()).take(index_list_start())
            + boards + index_page_html(Seq::empty()).skip(index_list_start()),
{
    let before = page_html("brd"@) + "<p>welcome to brd</p><h2>boards</h2>"@;
    let after = "<h2>description</h2><p>A simple imageboard site that supports private walled-garden communication</p>"@;
    assert(index_page_html(boards) =~= before + boards + after);
    assert(index_page_html(Seq::empty()) =~= before + after);
    assert(index_page_html(Seq::empty()).take(index_list_start()) =~= before);
    assert(index_page_html(Seq::empty()).skip(index_list_start()) =~= after);
}

/// Where the list of boards starts on the home page.
pub open spec fn index_list_start() -> int {
    (page_html("brd"@) + "<p>welcome to brd</p><h2>boards</h2>"@).len() as int
}

/// A page's head holds its escaped title: a page starts with the doctype,
/// the charset and the escaped title.
pub proof fn law_page_head_holds_its_title(title: Seq<char>)
    ensures
        page_html(title).take(
            ("<!DOCTYPE html>"@ + "<meta charset=\"utf-8\"><title>"@ + escape_html(title)
                + "</title>"@).len() as int,
        ) == "<!DOCTYPE html>"@ + "<meta charset=\"utf-8\"><title>"@ + escape_html(title)
            + "</title>"@,
{
    reveal_strlit("</title><link rel=\"stylesheet\" href=\"/assets/css/style.css\">");
    reveal_strlit("</title>");
    reveal_strlit("<link rel=\"stylesheet\" href=\"/assets/css/style.css\">");
    assert("</title><link rel=\"stylesheet\" href=\"/assets/css/style.css\">"@ =~= "</title>"@
        + "<link rel=\"stylesheet\" href=\"/assets/css/style.css\">"@);
    let pre = "<!DOCTYPE html>"@ + "<meta charset=\"utf-8\"><title>"@ + escape_html(title)
        + "</title>"@;
    let whole = page_html(title);
    assert(whole =~= pre + ("<link rel=\"stylesheet\" href=\"/assets/css/style.css\">"@
        + "<h1>"@ + escape_html(title) + "</h1>"@));
    assert(whole.take(pre.len() as int) =~= pre);
}

/// A board's page is titled by the board's name.
pub proof fn law_board_page_title(board: Board, threads: Seq<char>)
    ensures
        board_page_html(board, threads).take(page_html(board.name@).len() as int) == page_html(
            board.name@,
        ),
{
    let p = page_html(board.name@);
    let whole = board_page_html(board, threads);
    assert(whole =~= p + whole.skip(p.len() as int));
    assert(whole.take(p.len() as int) =~= p);
}

/// A board's page ends with its list of threads, as it is given, after a
/// part that does not depend on the list.
pub proof fn law_board_page_ends_with_threads(board: Board, threads: Seq<char>)
    ensures
        board_page_html(board, threads) == board_page_html(board, Seq::empty()) + threads,
{
    assert(board_page_html(board, threads) =~= board_page_html(board, Seq::empty()) + threads);
}

/// A thread's page is titled by its board's name and its first post's id.
pub proof fn law_thread_page_title(board: Board, posts: Seq<Post>)
    requires
        posts.len() > 0,
    ensures
        thread_page_html(board, posts).take(
            page_html(board.name@ + " / thread "@ + decimal_of(posts[0].id as int)).len() as int,
        ) == page_html(board.name@ + " / thread "@ + decimal_of(posts[0].id as int)),
{
    let title_page = page_html(board.name@ + " / thread "@ + decimal_of(posts[0].id as int));
    let whole = thread_page_html(board, posts);
    assert(whole =~= title_page + whole.skip(title_page.len() as int));
    assert(whole.take(title_page.len() as int) =~= title_page);
}

/// How a post begins: a post on a thread's page with its id as text, a
/// post on a board's page with its id as a link to `/b/<board>/<id>`.
pub proof fn law_post_begins_with_its_id(board: Board, post: Post)
    ensures
        post_html(board, post, false).take(
            ("<pre class=\"post\">"@ + "id: "@ + decimal_of(post.id as int) + "\n"@).len() as int,
        ) == "<pre class=\"post\">"@ + "id: "@ + decimal_of(post.id as int) + "\n"@,
        post_html(board, post, true).take(
            ("<pre class=\"post\">"@ + "<a href=\""@ + "/b/"@ + escape_html(board.name@) + "/"@
                + decimal_of(post.id as int) + "\">"@).len() as int,
        ) == "<pre class=\"post\">"@ + "<a href=\""@ + "/b/"@ + escape_html(board.name@) + "/"@
            + decimal_of(post.id as int) + "\">"@,
{
    reveal_strlit("<a href=\"/b/");
    reveal_strlit("<a href=\"");
    reveal_strlit("/b/");
    reveal_strlit("\">id: ");
    reveal_strlit("\">");
    reveal_strlit("id: ");
    assert("<a href=\"/b/"@ =~= "<a href=\""@ + "/b/"@);
    assert("\">id: "@ =~= "\">"@ + "id: "@);
    reveal_strlit("<img src=\"/");
    reveal_strlit("<img src=\"");
    reveal_strlit("/");
    assert("<img src=\"/"@ =~= "<img src=\""@ + "/"@);
    let plain = "<pre class=\"post\">"@ + "id: "@ + decimal_of(post.id as int) + "\n"@;
    let a = post_html(board, post, false);
    assert(a =~= plain + post_ending(post));
    assert(a.take(plain.len() as int) =~= plain);
    let linked = "<pre class=\"post\">"@ + "<a href=\""@ + "/b/"@ + escape_html(board.name@) + "/"@
        + decimal_of(post.id as int) + "\">"@;
    let b = post_html(board, post, true);
    let rest = "id: "@ + decimal_of(post.id as int) + "\n</a>"@ + post_ending(post);
    reveal_strlit("<img src=\"/");
    reveal_strlit("<img src=\"");
    reveal_strlit("/");
    assert("<img src=\"/"@ =~= "<img src=\""@ + "/"@);
    assert(b =~= linked + rest);
    assert(b.take(linked.len() as int) =~= linked);
}

} // verus!
