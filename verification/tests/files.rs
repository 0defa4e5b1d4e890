//! Serving embedded assets and files under the static root.

use aurelius::MarkdownRenderer;
use aurelius::Server;
use aurelius::service::Request;
use aurelius::service::Response;

fn new_server() -> Server<MarkdownRenderer> {
    Server::new(MarkdownRenderer::new(), Vec::new())
}

fn new_server_with_assets(assets: Vec<(String, Vec<u8>)>) -> Server<MarkdownRenderer> {
    Server::new(MarkdownRenderer::new(), assets)
}

fn plain_request(path: &str) -> Request {
    Request {
        path: String::from(path),
        connection_header: None,
        upgrade_header: None,
        websocket_key: None,
    }
}

#[test]
fn files_not_found() {
    let server = new_server();

    let response = server.handle_request(&plain_request("/non-existent"));
    assert!(matches!(response, Response::NotFound));
}

#[test]
fn files_static_file_unknown_mime_type() {
    let assets = vec![(String::from("file-of-unknown-type"), b":)".to_vec())];
    let server = new_server_with_assets(assets);

    let response = server.handle_request(&plain_request("/__/file-of-unknown-type"));
    match response {
        Response::Asset { content_type, body } => {
            assert_eq!(content_type, "application/octet-stream");
            assert_eq!(body, b":)".to_vec());
        },
        _ => panic!("expected an asset"),
    }
}

#[test]
fn files_change_static_root() {
    let mut server = new_server();

    let response = server.handle_request(&plain_request("/file.txt"));
    assert!(matches!(response, Response::NotFound));

    server.set_static_root(String::from("/srv/preview"));

    let response = server.handle_request(&plain_request("/file.txt"));
    match response {
        Response::StaticFile { root, path } => {
            assert_eq!(root, "/srv/preview");
            assert_eq!(path, "/file.txt");
        },
        _ => panic!("expected a static file decision"),
    }
}

#[test]
fn files_change_static_root_to_file() {
    let mut server = new_server();

    server.set_static_root(String::from("/srv/preview/file.txt"));

    // the root path always serves the page, never a file
    let response = server.handle_request(&plain_request("/"));
    match response {
        Response::Page { html } => assert!(!html.contains("Lorem ipsum")),
        _ => panic!("expected the page"),
    }

    let response = server.handle_request(&plain_request("/non-existent"));
    assert!(matches!(response, Response::StaticFile { .. }));
}

#[test]
fn files_static_files() {
    let assets = vec![
        (String::from("css/styles.css"), b"body { margin: 0; }".to_vec()),
        (
            String::from("vendor/highlight.js/build/highlight.min.js"),
            b"window.hljs = {};".to_vec(),
        ),
    ];
    let server = new_server_with_assets(assets);

    let response = server.handle_request(&plain_request("/__/css/styles.css"));
    match response {
        Response::Asset { content_type, body } => {
            assert_eq!(content_type, "text/css");
            assert_eq!(body, b"body { margin: 0; }".to_vec());
        },
        _ => panic!("expected an asset"),
    }

    let response = server.handle_request(
        &plain_request("/__/vendor/highlight.js/build/highlight.min.js"),
    );
    match response {
        Response::Asset { content_type, body } => {
            assert_eq!(content_type, "application/javascript");
            assert_eq!(body, b"window.hljs = {};".to_vec());
        },
        _ => panic!("expected an asset"),
    }
}

#[test]
fn files_static_file_not_found() {
    let server = new_server();

    let response = server.handle_request(&plain_request("/__/does-not-exist.js"));
    assert!(matches!(response, Response::NotFound));
}

#[test]
fn change_working_directory() {
    let mut server = new_server();
    server.set_static_root(String::from("tests/assets"));

    let response = server.handle_request(&plain_request("/file"));
    match response {
        Response::StaticFile { root, path } => {
            assert_eq!(root, "tests/assets");
            assert_eq!(path, "/file");
        },
        _ => panic!("expected a static file decision"),
    }
}

#[test]
fn mime_type_follows_new_extension() {
    let assets = vec![
        (String::from("file.txt"), b"Lorem ipsum".to_vec()),
        (String::from("data.json"), b"{}".to_vec()),
    ];
    let server = new_server_with_assets(assets);

    let response = server.handle_request(&plain_request("/__/file.txt"));
    match response {
        Response::Asset { content_type, body } => {
            assert_eq!(content_type, "text/plain");
            assert_eq!(body, b"Lorem ipsum".to_vec());
        },
        _ => panic!("expected an asset"),
    }

    let response = server.handle_request(&plain_request("/__/data.json"));
    match response {
        Response::Asset { content_type, .. } => {
            assert_eq!(content_type, "application/json");
        },
        _ => panic!("expected an asset"),
    }
}
