//! End-to-end scenarios through the pipeline: parse, route, decide,
//! serialize — with the file system simulated by handing the decision
//! functions the outcome a store would give.
use http_server::config::{Cfg, setup_cfg};
use http_server::handlers::{file_read_response, file_write_response, Step};
use http_server::pipeline::{handle_request, setup_router};

fn no_dir() -> Cfg {
    Cfg { files_dir: None }
}

fn with_dir(dir: &[u8]) -> Cfg {
    Cfg { files_dir: Some(dir.to_vec()) }
}

fn expect_response(step: Option<Step>) -> http_server::response::Response {
    match step {
        Some(Step::Respond(r)) => r,
        _ => panic!("expected an immediate response"),
    }
}

#[test]
fn echo_scenario_returns_200_with_the_remainder() {
    let router = setup_router();
    let data = b"GET /echo/abc HTTP/1.1\r\nHost: x\r\n\r\n".to_vec();
    let resp = expect_response(handle_request(&router, &no_dir(), &data));
    assert_eq!(resp.status, 200);
    assert_eq!(resp.body, b"abc".to_vec());
    let bytes = resp.serialize();
    assert_eq!(
        bytes,
        b"HTTP/1.1 200 OK\r\nContent-Type: text/plain\r\nContent-Length: 3\r\n\r\nabc".to_vec()
    );
}

#[test]
fn unrouted_path_returns_404() {
    let router = setup_router();
    let data = b"GET /nope HTTP/1.1\r\n\r\n".to_vec();
    let resp = expect_response(handle_request(&router, &no_dir(), &data));
    assert_eq!(resp.status, 404);
    assert_eq!(resp.body, Vec::<u8>::new());
    assert_eq!(resp.serialize(), b"HTTP/1.1 404 Not Found\r\n\r\n".to_vec());
}

#[test]
fn user_agent_scenario_echoes_the_header() {
    let router = setup_router();
    let data = b"GET /user-agent HTTP/1.1\r\nUser-Agent: foobar/1.0\r\n\r\n".to_vec();
    let resp = expect_response(handle_request(&router, &no_dir(), &data));
    assert_eq!(resp.status, 200);
    assert_eq!(resp.body, b"foobar/1.0".to_vec());
}

#[test]
fn malformed_request_is_dropped_without_a_response() {
    let router = setup_router();
    let data = b"GET / HTTP/1.1\r\nbroken header\r\n\r\n".to_vec();
    assert!(handle_request(&router, &no_dir(), &data).is_none());
}

#[test]
fn file_round_trip_through_a_simulated_store() {
    let router = setup_router();
    let cfg = with_dir(b"/data/files");
    // POST writes the body under the file's path.
    let post = b"POST /files/a.txt HTTP/1.1\r\nContent-Length: 5\r\n\r\nhello".to_vec();
    let (stored_path, stored_bytes) = match handle_request(&router, &cfg, &post) {
        Some(Step::WriteFile(path, bytes)) => (path, bytes),
        _ => panic!("expected a file write"),
    };
    assert_eq!(stored_path, b"/data/files/a.txt".to_vec());
    assert_eq!(stored_bytes, b"hello".to_vec());
    assert_eq!(file_write_response(true).status, 201);
    // GET asks for the same path; the store returns what was written.
    let get = b"GET /files/a.txt HTTP/1.1\r\n\r\n".to_vec();
    let read_path = match handle_request(&router, &cfg, &get) {
        Some(Step::ReadFile(path)) => path,
        _ => panic!("expected a file read"),
    };
    assert_eq!(read_path, stored_path);
    let resp = file_read_response(Some(stored_bytes));
    assert_eq!(resp.status, 200);
    assert_eq!(resp.body, b"hello".to_vec());
}

#[test]
fn missing_file_returns_404() {
    let router = setup_router();
    let get = b"GET /files/missing.txt HTTP/1.1\r\n\r\n".to_vec();
    let cfg = with_dir(b"/data/files");
    match handle_request(&router, &cfg, &get) {
        Some(Step::ReadFile(path)) => {
            assert_eq!(path, b"/data/files/missing.txt".to_vec());
        },
        _ => panic!("expected a file read"),
    }
    // No such file on disk: the outcome is `None`, the response 404.
    let resp = file_read_response(None);
    assert_eq!(resp.status, 404);
    assert_eq!(resp.body, Vec::<u8>::new());
}

#[test]
fn file_requests_without_a_directory_return_404() {
    let router = setup_router();
    let get = b"GET /files/a.txt HTTP/1.1\r\n\r\n".to_vec();
    let resp = expect_response(handle_request(&router, &no_dir(), &get));
    assert_eq!(resp.status, 404);
    let post = b"POST /files/a.txt HTTP/1.1\r\nContent-Length: 2\r\n\r\nhi".to_vec();
    let resp = expect_response(handle_request(&router, &no_dir(), &post));
    assert_eq!(resp.status, 404);
}

#[test]
fn failed_file_write_returns_500() {
    assert_eq!(file_write_response(false).status, 500);
    assert_eq!(
        file_write_response(false).serialize(),
        b"HTTP/1.1 500 Internal Server Error\r\n\r\n".to_vec()
    );
}

#[test]
fn successful_file_write_serializes_as_201() {
    assert_eq!(
        file_write_response(true).serialize(),
        b"HTTP/1.1 201 Created\r\n\r\n".to_vec()
    );
}

#[test]
fn echo_of_the_bare_prefix_is_an_empty_body() {
    let router = setup_router();
    let data = b"GET /echo/ HTTP/1.1\r\n\r\n".to_vec();
    let resp = expect_response(handle_request(&router, &no_dir(), &data));
    assert_eq!(resp.status, 200);
    assert_eq!(resp.body, Vec::<u8>::new());
}

#[test]
fn user_agent_without_the_header_is_an_empty_body() {
    let router = setup_router();
    let data = b"GET /user-agent HTTP/1.1\r\nHost: x\r\n\r\n".to_vec();
    let resp = expect_response(handle_request(&router, &no_dir(), &data));
    assert_eq!(resp.status, 200);
    assert_eq!(resp.body, Vec::<u8>::new());
}

#[test]
fn setup_cfg_reads_the_directory_flag() {
    let args: Vec<Vec<u8>> = vec![b"--directory".to_vec(), b"/data/files".to_vec()];
    assert_eq!(setup_cfg(&args).files_dir, Some(b"/data/files".to_vec()));
    let none: Vec<Vec<u8>> = vec![b"server".to_vec(), b"-v".to_vec()];
    assert_eq!(setup_cfg(&none).files_dir, None);
    let late: Vec<Vec<u8>> = vec![
        b"server".to_vec(),
        b"--directory".to_vec(),
        b"/d".to_vec(),
        b"--directory".to_vec(),
        b"/other".to_vec(),
    ];
    assert_eq!(setup_cfg(&late).files_dir, Some(b"/d".to_vec()));
}
