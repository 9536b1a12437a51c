//! Routing: which page a request method and path ask for.
//!
//! Each route is a filter that either passes, handing on what it read from
//! the path, or rejects the request as not found or as using a method the
//! route does not take.  A path is read segment by segment, the way the
//! site's HTTP server reads it: the leading `/` is skipped, a segment runs
//! up to the next `/`, and that `/` is skipped with it.  Segments are taken
//! as they stand in the request, without percent-decoding.
use vstd::prelude::*;

use crate::text::{text_equals, decimal_of, escape_html, lemma_decimal_has_no_slash, law_decimal_read_back, parse_i64, parse_i64_of};
use crate::views::{board_link_html, post_href, post_html};
use crate::models::{Board, Post};

pub mod board;
pub mod post;
pub mod user;

verus! {

/// The request methods that the routes tell apart.
#[derive(Clone, Copy, Debug)]
pub enum Method {
    Get,
    Head,
    Post,
    Other,
}

/// What a route filter makes of a request.
pub enum Filtered<T> {
    /// The route takes the request, with what it read from the path.
    Pass(T),
    /// The path is not one of the route's.
    NotFound,
    /// The path is the route's, the method is not.
    MethodNotAllowed,
}

impl<T: View> View for Filtered<T> {
    type V = Filtered<T::V>;

    open spec fn view(&self) -> Filtered<T::V> {
        match self {
            Filtered::Pass(t) => Filtered::Pass(t@),
            Filtered::NotFound => Filtered::NotFound,
            Filtered::MethodNotAllowed => Filtered::MethodNotAllowed,
        }
    }
}

/// The page that a request asks for.
pub enum Route<S> {
    /// The home page, with the list of boards.
    Index,
    /// The page of the named board.
    Board(S),
    /// The page of a thread: the board's name and the thread's id.
    Thread(S, i64),
    /// A new thread posted to the named board.
    CreateThread(S),
    /// A reply posted to a thread: the board's name and the thread's id.
    Reply(S, i64),
    /// The page of a user, named by the path's second segment.
    User(S),
    /// A static file: the rest of the path after `assets/`.
    Assets(S),
    /// Some route has the path but not the method.
    MethodNotAllowed,
    /// No route has the path.
    NotFound,
}

impl<S: View> View for Route<S> {
    type V = Route<S::V>;

    open spec fn view(&self) -> Route<S::V> {
        match self {
            Route::Index => Route::Index,
            Route::Board(n) => Route::Board(n@),
            Route::Thread(n, id) => Route::Thread(n@, *id),
            Route::CreateThread(n) => Route::CreateThread(n@),
            Route::Reply(n, id) => Route::Reply(n@, *id),
            Route::User(n) => Route::User(n@),
            Route::Assets(t) => Route::Assets(t@),
            Route::MethodNotAllowed => Route::MethodNotAllowed,
            Route::NotFound => Route::NotFound,
        }
    }
}

/// The part of a path that routing reads: the path without its leading `/`.
pub open spec fn path_start(path: Seq<char>) -> Seq<char> {
    if path.len() > 0 && path[0] == '/' {
        path.drop_first()
    } else {
        path
    }
}

/// Where the first segment of `r` ends: at its first `/`, or at its end.
pub open spec fn slash_index(r: Seq<char>) -> nat
    decreases r.len(),
{
    if r.len() == 0 {
        0
    } else if r[0] == '/' {
        0
    } else {
        1 + slash_index(r.drop_first())
    }
}

/// The first segment of `r`.
pub open spec fn segment_of(r: Seq<char>) -> Seq<char> {
    r.take(slash_index(r) as int)
}

/// What is left of `r` once its first segment and the `/` after it are read.
pub open spec fn rest_of(r: Seq<char>) -> Seq<char> {
    if slash_index(r) >= r.len() {
        Seq::empty()
    } else {
        r.skip(slash_index(r) + 1int)
    }
}

/// The board named in a path of the form `b/<board>`, the form of a
/// board's address.
pub open spec fn board_path_of(path: Seq<char>) -> Option<Seq<char>> {
    let r = path_start(path);
    let name = segment_of(rest_of(r));
    if segment_of(r) == "b"@ && name.len() > 0 && rest_of(rest_of(r)).len() == 0 {
        Some(name)
    } else {
        None
    }
}

/// The board and the post id named in a path of the form `b/<board>/<id>`,
/// the form of a thread's address; the id is read as `i64::from_str` reads it.
pub open spec fn thread_path_of(path: Seq<char>) -> Option<(Seq<char>, i64)> {
    let r = path_start(path);
    let name = segment_of(rest_of(r));
    let id = segment_of(rest_of(rest_of(r)));
    if segment_of(r) == "b"@ && name.len() > 0 && id.len() > 0 && parse_i64_of(id) is Some
        && rest_of(rest_of(rest_of(r))).len() == 0 {
        Some((name, parse_i64_of(id)->0))
    } else {
        None
    }
}

/// The home page's route: the empty path, by `GET`.
pub open spec fn index_filter(method: Method, path: Seq<char>) -> Filtered<()> {
    if path_start(path).len() == 0 {
        if method is Get {
            Filtered::Pass(())
        } else {
            Filtered::MethodNotAllowed
        }
    } else {
        Filtered::NotFound
    }
}

/// The static files' route: a path whose first segment is `assets`, by
/// `GET` or `HEAD`; it hands on the rest of the path.
pub open spec fn assets_filter(method: Method, path: Seq<char>) -> Filtered<Seq<char>> {
    let r = path_start(path);
    if segment_of(r) == "assets"@ {
        if method is Get || method is Head {
            Filtered::Pass(rest_of(r))
        } else {
            Filtered::MethodNotAllowed
        }
    } else {
        Filtered::NotFound
    }
}

/// The route of a request: the first of the site's routes that passes, in
/// the order home page, board page, thread page, new thread, reply, user
/// page, static files; when none passes, the rejection that the server
/// prefers: a method not allowed over a path not found.
pub open spec fn api_route(method: Method, path: Seq<char>) -> Route<Seq<char>> {
    let i = index_filter(method, path);
    let b = board::get_filter(method, path);
    let t = post::get_filter(method, path);
    let c = post::create_filter(method, path);
    let r = post::reply_filter(method, path);
    let u = user::get_filter(method, path);
    let a = assets_filter(method, path);
    if i is Pass {
        Route::Index
    } else if b is Pass {
        Route::Board(b->Pass_0)
    } else if t is Pass {
        Route::Thread(t->Pass_0.0, t->Pass_0.1)
    } else if c is Pass {
        Route::CreateThread(c->Pass_0)
    } else if r is Pass {
        Route::Reply(r->Pass_0.0, r->Pass_0.1)
    } else if u is Pass {
        Route::User(u->Pass_0)
    } else if a is Pass {
        Route::Assets(a->Pass_0)
    } else if i is MethodNotAllowed || b is MethodNotAllowed || t is MethodNotAllowed
        || c is MethodNotAllowed || r is MethodNotAllowed || a is MethodNotAllowed {
        Route::MethodNotAllowed
    } else {
        Route::NotFound
    }
}

proof fn lemma_slash_index(r: Seq<char>, k: int)
    requires
        0 <= k <= r.len(),
        k == r.len() || r[k] == '/',
        forall|j: int| 0 <= j < k ==> r[j] != '/',
    ensures
        slash_index(r) == k,
    decreases k,
{
    if k > 0 {
        let t = r.drop_first();
        assert forall|j: int| 0 <= j < k - 1 implies t[j] != '/' by {
            assert(t[j] == r[j + 1]);
        }
        lemma_slash_index(t, k - 1);
    }
}

/// The path without its leading `/`.
pub(crate) fn route_start(path: &str) -> (r: &str)
    ensures
        r@ == path_start(path@),
{
    let n = path.unicode_len();
    if n > 0 && path.get_char(0) == '/' {
        let r = path.substring_char(1, n);
        assert(r@ =~= path@.drop_first());
        r
    } else {
        path
    }
}

/// The first segment of `r`, and what is left after it.
pub(crate) fn split_segment(r: &str) -> (parts: (&str, &str))
    ensures
        parts.0@ == segment_of(r@),
        parts.1@ == rest_of(r@),
{
    let n = r.unicode_len();
    let mut k: usize = 0;
    while k < n && r.get_char(k) != '/'
        invariant
            n == r@.len(),
            k <= n,
            forall|j: int| 0 <= j < k ==> r@[j] != '/',
        decreases n - k,
    {
        k = k + 1;
    }
    proof {
        lemma_slash_index(r@, k as int);
    }
    let seg = r.substring_char(0, k);
    assert(seg@ =~= segment_of(r@));
    if k == n {
        let rest = r.substring_char(n, n);
        assert(rest@ =~= rest_of(r@));
        (seg, rest)
    } else {
        let rest = r.substring_char(k + 1, n);
        assert(rest@ =~= rest_of(r@));
        (seg, rest)
    }
}

/// Reads a board's address, `b/<board>`.
pub(crate) fn board_path(path: &str) -> (r: Option<String>)
    ensures
        r.deep_view() == board_path_of(path@),
{
    let r = route_start(path);
    let (first, rest) = split_segment(r);
    let (name, rest) = split_segment(rest);
    if text_equals(first, "b") && name.unicode_len() > 0 && rest.unicode_len() == 0 {
        Some(name.to_string())
    } else {
        None
    }
}

/// Reads a thread's address, `b/<board>/<id>`.
pub(crate) fn thread_path(path: &str) -> (r: Option<(String, i64)>)
    ensures
        match r {
            Some((name, id)) => thread_path_of(path@) == Some((name@, id)),
            None => thread_path_of(path@) is None,
        },
{
    let r = route_start(path);
    let (first, rest) = split_segment(r);
    let (name, rest) = split_segment(rest);
    let (id_text, rest) = split_segment(rest);
    if text_equals(first, "b") && name.unicode_len() > 0 && id_text.unicode_len() > 0
        && rest.unicode_len() == 0 {
        match parse_i64(id_text) {
            Some(id) => Some((name.to_string(), id)),
            None => None,
        }
    } else {
        None
    }
}

/// The home page's route.
pub fn index(method: Method, path: &str) -> (f: Filtered<()>)
    ensures
        f@ == index_filter(method, path@),
{
    let r = route_start(path);
    if r.unicode_len() == 0 {
        if matches!(method, Method::Get) {
            Filtered::Pass(())
        } else {
            Filtered::MethodNotAllowed
        }
    } else {
        Filtered::NotFound
    }
}

/// The static files' route.
pub fn assets(method: Method, path: &str) -> (f: Filtered<String>)
    ensures
        f@ == assets_filter(method, path@),
{
    let r = route_start(path);
    let (seg, rest) = split_segment(r);
    if text_equals(seg, "assets") {
        if matches!(method, Method::Get) || matches!(method, Method::Head) {
            Filtered::Pass(rest.to_string())
        } else {
            Filtered::MethodNotAllowed
        }
    } else {
        Filtered::NotFound
    }
}

/// The route of a request with `method` and `path`: all the site's routes
/// combined.
pub fn api(method: Method, path: &str) -> (route: Route<String>)
    ensures
        route@ == api_route(method, path@),
{
    let i = index(method, path);
    if let Filtered::Pass(_) = i {
        return Route::Index;
    }
    let b = board::get(method, path);
    if let Filtered::Pass(name) = b {
        return Route::Board(name);
    }
    let t = post::get(method, path);
    if let Filtered::Pass((name, id)) = t {
        return Route::Thread(name, id);
    }
    let c = post::create(method, path);
    if let Filtered::Pass(name) = c {
        return Route::CreateThread(name);
    }
    let r = post::reply(method, path);
    if let Filtered::Pass((name, id)) = r {
        return Route::Reply(name, id);
    }
    let u = user::get(method, path);
    if let Filtered::Pass(name) = u {
        return Route::User(name);
    }
    let a = assets(method, path);
    if let Filtered::Pass(tail) = a {
        return Route::Assets(tail);
    }
    let not_allowed = matches!(i, Filtered::MethodNotAllowed) || matches!(b, Filtered::MethodNotAllowed)
        || matches!(t, Filtered::MethodNotAllowed) || matches!(c, Filtered::MethodNotAllowed)
        || matches!(r, Filtered::MethodNotAllowed) || matches!(a, Filtered::MethodNotAllowed);
    if not_allowed {
        Route::MethodNotAllowed
    } else {
        Route::NotFound
    }
}

/// Whether a character may stand in a path segment as it is: a letter or
/// digit of ASCII, or one of `-`, `.`, `_`, `~`.
pub open spec fn is_unreserved(c: char) -> bool {
    ('a' <= c <= 'z') || ('A' <= c <= 'Z') || ('0' <= c <= '9') || c == '-' || c == '.'
        || c == '_' || c == '~'
}

/// Whether a name can be a path segment as it stands: it is not empty and
/// every character of it is unreserved.
pub open spec fn segment_safe(name: Seq<char>) -> bool {
    name.len() > 0 && forall|i: int| 0 <= i < name.len() ==> is_unreserved(#[trigger] name[i])
}

proof fn lemma_no_slash(s: Seq<char>)
    requires
        forall|i: int| 0 <= i < s.len() ==> #[trigger] s[i] != '/',
    ensures
        segment_of(s) == s,
        rest_of(s) == Seq::<char>::empty(),
{
    lemma_slash_index(s, s.len() as int);
    assert(s.take(s.len() as int) =~= s);
}

pub(crate) proof fn lemma_split_at_slash(a: Seq<char>, b: Seq<char>)
    requires
        forall|i: int| 0 <= i < a.len() ==> #[trigger] a[i] != '/',
    ensures
        segment_of(a + seq!['/'] + b) == a,
        rest_of(a + seq!['/'] + b) == b,
{
    let s = a + seq!['/'] + b;
    assert forall|j: int| 0 <= j < a.len() implies s[j] != '/' by {
        assert(s[j] == a[j]);
    }
    lemma_slash_index(s, a.len() as int);
    assert(s.take(a.len() as int) =~= a);
    assert(s.skip(a.len() + 1int) =~= b);
}

proof fn lemma_escape_safe(s: Seq<char>)
    requires
        forall|i: int| 0 <= i < s.len() ==> is_unreserved(#[trigger] s[i]),
    ensures
        escape_html(s) == s,
    decreases s.len(),
{
    if s.len() > 0 {
        lemma_escape_safe(s.drop_last());
        assert(escape_html(s) =~= s.drop_last() + seq![s.last()]);
        assert(s =~= s.drop_last() + seq![s.last()]);
    }
}

/// Following the link to a board that the board list shows leads to that
/// board's page: the link's address is `/b/<name>`, and a `GET` of that
/// address routes to the page of the board of that name.  This holds of
/// every name that a path segment holds as it stands.
pub proof fn law_board_link_routes_to_board(board: Board)
    requires
        segment_safe(board.name@),
    ensures
        board_link_html(board) == "<a href=\""@ + ("/b/"@ + board.name@) + "\">"@ + board.name@
            + "</a>"@,
        api_route(Method::Get, "/b/"@ + board.name@) == Route::Board(board.name@),
{
    let name = board.name@;
    reveal_strlit("<a href=\"/b/");
    reveal_strlit("<a href=\"");
    reveal_strlit("/b/");
    lemma_escape_safe(name);
    assert("<a href=\"/b/"@ =~= "<a href=\""@ + "/b/"@);
    let path = "/b/"@ + name;
    assert forall|i: int| 0 <= i < name.len() implies #[trigger] name[i] != '/' by {
        assert(is_unreserved(name[i]));
    }
    assert(path_start(path) =~= seq!['b'] + seq!['/'] + name);
    lemma_split_at_slash(seq!['b'], name);
    lemma_no_slash(name);
    reveal_strlit("b");
    assert(seq!['b'] =~= "b"@);
    assert(board_path_of(path) == Some(name));
}

/// How a post that links to its thread begins: the opening of the post and
/// of its link, up to the link's address.
pub open spec fn thread_link_head(board_name: Seq<char>, id: i64) -> Seq<char> {
    "<pre class=\"post\">"@ + "<a href=\""@ + post_href(board_name, id) + "\">"@
}

proof fn lemma_thread_link_head(board: Board, post: Post)
    requires
        segment_safe(board.name@),
    ensures
        post_html(board, post, true).take(thread_link_head(board.name@, post.id).len() as int)
            == thread_link_head(board.name@, post.id),
{
    let name = board.name@;
    reveal_strlit("<a href=\"/b/");
    reveal_strlit("<a href=\"");
    reveal_strlit("/b/");
    lemma_escape_safe(name);
    assert("<a href=\"/b/"@ =~= "<a href=\""@ + "/b/"@);
    let head = thread_link_head(name, post.id);
    let whole = post_html(board, post, true);
    reveal_strlit("\">id: ");
    reveal_strlit("\">");
    reveal_strlit("id: ");
    assert("\">id: "@ =~= "\">"@ + "id: "@);
    let image = match post.file_name {
        Some(f) => "<img src=\"/"@ + escape_html(f@) + "\">"@,
        None => Seq::empty(),
    };
    let tail = "id: "@ + decimal_of(post.id as int) + "\n</a>"@ + image + "body: "@ + escape_html(
        post.body@,
    ) + "\n</pre>"@;
    assert(whole =~= head + tail);
    assert(whole.take(head.len() as int) =~= head);
}

pub(crate) proof fn lemma_thread_path_routes(name: Seq<char>, id: i64)
    requires
        segment_safe(name),
    ensures
        api_route(Method::Get, post_href(name, id)) == Route::Thread(name, id),
{
    reveal_strlit("/b/");
    reveal_strlit("/");
    let dec = decimal_of(id as int);
    lemma_decimal_has_no_slash(id as int);
    law_decimal_read_back(id);
    let path = post_href(name, id);
    assert forall|i: int| 0 <= i < name.len() implies #[trigger] name[i] != '/' by {
        assert(is_unreserved(name[i]));
    }
    let r = path_start(path);
    assert(r =~= seq!['b'] + seq!['/'] + (name + seq!['/'] + dec));
    lemma_split_at_slash(seq!['b'], name + seq!['/'] + dec);
    lemma_split_at_slash(name, dec);
    lemma_no_slash(dec);
    reveal_strlit("b");
    assert(seq!['b'] =~= "b"@);
    assert(thread_path_of(path) == Some((name, id)));
    assert(board_path_of(path) is None);
}

/// Following the link to a thread that a board's page shows leads to that
/// thread's page: the link's address is `/b/<board>/<id>`, and a `GET` of
/// that address routes to the page of that thread of that board.  This
/// holds of every board name that a path segment holds as it stands, and
/// of every id.
pub proof fn law_thread_link_routes_to_thread(board: Board, post: Post)
    requires
        segment_safe(board.name@),
    ensures
        post_html(board, post, true).take(thread_link_head(board.name@, post.id).len() as int)
            == thread_link_head(board.name@, post.id),
        api_route(Method::Get, post_href(board.name@, post.id)) == Route::Thread(
            board.name@,
            post.id,
        ),
{
    lemma_thread_link_head(board, post);
    lemma_thread_path_routes(board.name@, post.id);
}

/// The post form, which names no address of its own, sends its form back
/// to the address of the page that shows it: posted from a board's page it
/// routes to a new thread on that board, posted from a thread's page it
/// routes to a reply to that thread.
pub proof fn law_page_form_posts_to_its_page(path: Seq<char>)
    ensures
        api_route(Method::Get, path) matches Route::Board(name) ==> api_route(Method::Post, path)
            == Route::CreateThread(name),
        api_route(Method::Get, path) matches Route::Thread(name, id) ==> api_route(
            Method::Post,
            path,
        ) == Route::Reply(name, id),
{
    if board_path_of(path) is Some {
        assert(thread_path_of(path) is None);
    }
}

proof fn lemma_named_path(first: char, name: Seq<char>)
    requires
        first != '/',
        segment_safe(name),
    ensures
        path_start(seq!['/', first] + seq!['/'] + name) == seq![first] + seq!['/'] + name,
        segment_of(seq![first] + seq!['/'] + name) == seq![first],
        rest_of(seq![first] + seq!['/'] + name) == name,
        segment_of(name) == name,
        rest_of(name) == Seq::<char>::empty(),
{
    assert forall|i: int| 0 <= i < name.len() implies #[trigger] name[i] != '/' by {
        assert(is_unreserved(name[i]));
    }
    assert((seq!['/', first] + seq!['/'] + name).drop_first() =~= seq![first] + seq!['/'] + name);
    assert(seq![first][0] != '/');
    lemma_split_at_slash(seq![first], name);
    lemma_no_slash(name);
}

/// The addresses of the site's pages route by method: the home page takes
/// `GET` only; a board's address takes `GET` for its page and `POST` for a
/// new thread, and no other method; a thread's address takes `GET` for its
/// page and `POST` for a reply, and no other method; a user's address takes
/// any method.  This holds of every name that a path segment holds as it
/// stands, and of every id.
pub proof fn law_page_addresses_route_by_method(name: Seq<char>, id: i64, method: Method)
    requires
        segment_safe(name),
    ensures
        api_route(Method::Get, "/"@) == Route::<Seq<char>>::Index,
        api_route(Method::Post, "/"@) == Route::<Seq<char>>::MethodNotAllowed,
        api_route(Method::Post, "/b/"@ + name) == Route::CreateThread(name),
        !(method is Get || method is Post) ==> api_route(method, "/b/"@ + name)
            == Route::<Seq<char>>::MethodNotAllowed,
        api_route(Method::Post, post_href(name, id)) == Route::Reply(name, id),
        !(method is Get || method is Post) ==> api_route(method, post_href(name, id))
            == Route::<Seq<char>>::MethodNotAllowed,
        api_route(method, "/u/"@ + name) == Route::User(name),
{
    reveal_strlit("/");
    reveal_strlit("/b/");
    reveal_strlit("/u/");
    reveal_strlit("b");
    reveal_strlit("u");
    reveal_strlit("assets");
    assert(path_start("/"@) =~= Seq::<char>::empty());
    assert("/b/"@ + name =~= seq!['/', 'b'] + seq!['/'] + name);
    assert("/u/"@ + name =~= seq!['/', 'u'] + seq!['/'] + name);
    lemma_named_path('b', name);
    lemma_named_path('u', name);
    assert(seq!['b'] =~= "b"@);
    assert(seq!['u'] =~= "u"@);
    assert(board_path_of("/b/"@ + name) == Some(name));
    assert(thread_path_of("/b/"@ + name) is None);
    assert(board_path_of("/u/"@ + name) is None);
    assert(thread_path_of("/u/"@ + name) is None);
    lemma_thread_path_routes(name, id);
    let path = post_href(name, id);
    let dec = decimal_of(id as int);
    lemma_decimal_has_no_slash(id as int);
    law_decimal_read_back(id);
    assert forall|i: int| 0 <= i < name.len() implies #[trigger] name[i] != '/' by {
        assert(is_unreserved(name[i]));
    }
    assert(path_start(path) =~= seq!['b'] + seq!['/'] + (name + seq!['/'] + dec));
    lemma_split_at_slash(seq!['b'], name + seq!['/'] + dec);
    lemma_split_at_slash(name, dec);
    lemma_no_slash(dec);
    assert(thread_path_of(path) == Some((name, id)));
    assert(board_path_of(path) is None);
}

} // verus!
