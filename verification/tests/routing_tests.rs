//! Tests of the router: first-match-by-registration-order semantics
//! on the default table and on overlapping routes.
use http_server::http::HttpMethod;
use http_server::pipeline::setup_router;
use http_server::request::{Request, ParseError};
use http_server::routing::{HandlerKind, Route, Router};

fn parsed(bytes: &[u8]) -> Result<Request, ParseError> {
    Request::parse(&bytes.to_vec())
}

#[test]
fn earlier_registered_of_two_overlapping_prefixes_wins() {
    let router = Router::new(vec![
        Route::new(b"/a/".to_vec(), HttpMethod::GET, HandlerKind::Echo),
        Route::new(b"/a/".to_vec(), HttpMethod::GET, HandlerKind::UserAgent),
    ]);
    let r = parsed(b"GET /a/b HTTP/1.1\r\n\r\n").unwrap();
    assert_eq!(router.get_handler(&r), HandlerKind::Echo);
    // Registration order reversed: the other route wins.
    let router2 = Router::new(vec![
        Route::new(b"/a/".to_vec(), HttpMethod::GET, HandlerKind::UserAgent),
        Route::new(b"/a/".to_vec(), HttpMethod::GET, HandlerKind::Echo),
    ]);
    assert_eq!(router2.get_handler(&r), HandlerKind::UserAgent);
}

#[test]
fn registering_appends_in_order() {
    let mut router = Router::new(Vec::new());
    let r = parsed(b"GET /a/b HTTP/1.1\r\n\r\n").unwrap();
    assert_eq!(router.get_handler(&r), HandlerKind::NotFound);
    router.register(Route::new(b"/a/".to_vec(), HttpMethod::GET, HandlerKind::UserAgent));
    router.register(Route::new(b"/a/".to_vec(), HttpMethod::GET, HandlerKind::Echo));
    assert_eq!(router.get_handler(&r), HandlerKind::UserAgent);
}

#[test]
fn nested_overlapping_prefixes_resolve_in_registration_order() {
    let router = Router::new(vec![
        Route::new(b"/files/special/".to_vec(), HttpMethod::GET, HandlerKind::UserAgent),
        Route::new(b"/files/".to_vec(), HttpMethod::GET, HandlerKind::GetFile),
    ]);
    let special = parsed(b"GET /files/special/x HTTP/1.1\r\n\r\n").unwrap();
    assert_eq!(router.get_handler(&special), HandlerKind::UserAgent);
    let plain = parsed(b"GET /files/other HTTP/1.1\r\n\r\n").unwrap();
    assert_eq!(router.get_handler(&plain), HandlerKind::GetFile);
}

#[test]
fn default_table_resolves_each_route() {
    let router = setup_router();
    let cases: Vec<(&[u8], HandlerKind)> = vec![
        (b"GET / HTTP/1.1\r\n\r\n", HandlerKind::Root),
        (b"GET /echo/abc HTTP/1.1\r\n\r\n", HandlerKind::Echo),
        (b"GET /user-agent HTTP/1.1\r\n\r\n", HandlerKind::UserAgent),
        (b"GET /files/a.txt HTTP/1.1\r\n\r\n", HandlerKind::GetFile),
        (b"POST /files/a.txt HTTP/1.1\r\n\r\n", HandlerKind::PostFile),
        (b"GET /nope HTTP/1.1\r\n\r\n", HandlerKind::NotFound),
        (b"DELETE / HTTP/1.1\r\n\r\n", HandlerKind::NotFound),
        (b"POST /echo/abc HTTP/1.1\r\n\r\n", HandlerKind::NotFound),
    ];
    for (bytes, want) in cases {
        let r = parsed(bytes).unwrap();
        assert_eq!(router.get_handler(&r), want);
    }
}

#[test]
fn root_route_matches_exactly_not_as_prefix() {
    let router = setup_router();
    let r = parsed(b"GET /nope HTTP/1.1\r\n\r\n").unwrap();
    assert_eq!(router.get_handler(&r), HandlerKind::NotFound);
    let root = parsed(b"GET / HTTP/1.1\r\n\r\n").unwrap();
    assert_eq!(router.get_handler(&root), HandlerKind::Root);
}

#[test]
fn query_is_not_part_of_the_routed_path() {
    let router = setup_router();
    let r = parsed(b"GET /echo/abc?x=1 HTTP/1.1\r\n\r\n").unwrap();
    assert_eq!(router.get_handler(&r), HandlerKind::Echo);
}
