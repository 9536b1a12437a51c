use brd::filters::{api, assets, board, index, post, user, Filtered, Method, Route};

fn route(method: Method, path: &str) -> Route<String> {
    api(method, path)
}

fn is_route(r: Route<String>, expected: Route<&str>) -> bool {
    match (r, expected) {
        (Route::Index, Route::Index) => true,
        (Route::Board(a), Route::Board(b)) => a == b,
        (Route::Thread(a, i), Route::Thread(b, j)) => a == b && i == j,
        (Route::CreateThread(a), Route::CreateThread(b)) => a == b,
        (Route::Reply(a, i), Route::Reply(b, j)) => a == b && i == j,
        (Route::User(a), Route::User(b)) => a == b,
        (Route::Assets(a), Route::Assets(b)) => a == b,
        (Route::MethodNotAllowed, Route::MethodNotAllowed) => true,
        (Route::NotFound, Route::NotFound) => true,
        _ => false,
    }
}

#[test]
fn home_page_route() {
    assert!(is_route(route(Method::Get, "/"), Route::Index));
    assert!(is_route(route(Method::Post, "/"), Route::MethodNotAllowed));
    assert!(is_route(route(Method::Get, "//"), Route::NotFound));
}

#[test]
fn board_routes() {
    assert!(is_route(route(Method::Get, "/b/g"), Route::Board("g")));
    assert!(is_route(route(Method::Get, "/b/g/"), Route::Board("g")));
    assert!(is_route(route(Method::Post, "/b/g"), Route::CreateThread("g")));
    assert!(is_route(route(Method::Other, "/b/g"), Route::MethodNotAllowed));
    assert!(is_route(route(Method::Get, "/b/"), Route::NotFound));
    assert!(is_route(route(Method::Get, "/b"), Route::NotFound));
    assert!(is_route(route(Method::Get, "/b/a%20b"), Route::Board("a%20b")));
}

#[test]
fn thread_routes() {
    assert!(is_route(route(Method::Get, "/b/g/12"), Route::Thread("g", 12)));
    assert!(is_route(route(Method::Get, "/b/g/-3"), Route::Thread("g", -3)));
    assert!(is_route(route(Method::Get, "/b/g/+3"), Route::Thread("g", 3)));
    assert!(is_route(route(Method::Post, "/b/g/12"), Route::Reply("g", 12)));
    assert!(is_route(route(Method::Head, "/b/g/12"), Route::MethodNotAllowed));
    assert!(is_route(route(Method::Get, "/b/g/x"), Route::NotFound));
    assert!(is_route(route(Method::Get, "/b/g/12/x"), Route::NotFound));
    assert!(is_route(
        route(Method::Get, "/b/g/99999999999999999999"),
        Route::NotFound
    ));
}

#[test]
fn user_route_takes_any_method_and_ignores_the_rest() {
    assert!(is_route(route(Method::Get, "/u/ann"), Route::User("ann")));
    assert!(is_route(route(Method::Post, "/u/ann/x/y"), Route::User("ann")));
    assert!(is_route(route(Method::Get, "/u/"), Route::NotFound));
}

#[test]
fn assets_route() {
    assert!(is_route(route(Method::Get, "/assets/css/style.css"), Route::Assets("css/style.css")));
    assert!(is_route(route(Method::Head, "/assets/a"), Route::Assets("a")));
    assert!(is_route(route(Method::Post, "/assets/a"), Route::MethodNotAllowed));
    assert!(is_route(route(Method::Get, "/nowhere"), Route::NotFound));
}

#[test]
fn single_filters() {
    assert!(matches!(index(Method::Get, "/"), Filtered::Pass(())));
    assert!(matches!(board::all(Method::Get, "/x"), Filtered::NotFound));
    assert!(matches!(board::get(Method::Post, "/b/g"), Filtered::MethodNotAllowed));
    assert!(matches!(post::get(Method::Get, "/b/g/1"), Filtered::Pass((ref n, 1)) if n == "g"));
    assert!(matches!(post::create(Method::Post, "/b/g"), Filtered::Pass(ref n) if n == "g"));
    assert!(matches!(post::reply(Method::Get, "/b/g/1"), Filtered::MethodNotAllowed));
    assert!(matches!(user::get(Method::Other, "/u/z"), Filtered::Pass(ref n) if n == "z"));
    assert!(matches!(assets(Method::Get, "/assets"), Filtered::Pass(ref t) if t.is_empty()));
}

#[test]
fn board_link_routes_to_its_board() {
    let page = brd::views::boards_partial(vec![brd::models::Board {
        id: 1,
        name: "tech-talk_2".to_string(),
        description: String::new(),
    }]);
    let start = page.find("href=\"").unwrap() + 6;
    let end = start + page[start..].find('"').unwrap();
    let href = &page[start..end];
    assert!(is_route(route(Method::Get, href), Route::Board("tech-talk_2")));
}

#[test]
fn thread_link_routes_to_its_thread() {
    let b = brd::models::Board {
        id: 1,
        name: "g".to_string(),
        description: String::new(),
    };
    let p = brd::models::Post {
        id: -42,
        body: String::new(),
        parent: None,
        board_id: 1,
        file_name: None,
        file_type: None,
        file_path: None,
    };
    let m = brd::views::post_partial(&b, &p, true);
    let start = m.find("href=\"").unwrap() + 6;
    let end = start + m[start..].find('"').unwrap();
    assert!(is_route(route(Method::Get, &m[start..end]), Route::Thread("g", -42)));
}

#[test]
fn page_form_posts_to_its_page() {
    for path in ["/b/g", "/b/g/", "/b/g/5", "/b/other/-1"] {
        match route(Method::Get, path) {
            Route::Board(name) => {
                assert!(is_route(route(Method::Post, path), Route::CreateThread(&name)))
            }
            Route::Thread(name, id) => {
                assert!(is_route(route(Method::Post, path), Route::Reply(&name, id)))
            }
            _ => panic!("expected a board or a thread"),
        }
    }
}
