//! Configuration options: custom CSS, highlight theme, external renderer.

use aurelius::CommandRenderer;
use aurelius::MarkdownRenderer;
use aurelius::Server;
use aurelius::Subscriber;
use aurelius::config::classify_stylesheets;
use aurelius::service::Request;
use aurelius::service::Response;

fn new_server() -> Server<MarkdownRenderer> {
    Server::new(MarkdownRenderer::new(), Vec::new())
}

fn plain_request(path: &str) -> Request {
    Request {
        path: String::from(path),
        connection_header: None,
        upgrade_header: None,
        websocket_key: None,
    }
}

fn page_text(server: &Server<MarkdownRenderer>) -> String {
    match server.handle_request(&plain_request("/")) {
        Response::Page { html } => html,
        other => panic!("expected the page, got {:?}", response_kind(&other)),
    }
}

fn response_kind(response: &Response) -> &'static str {
    match response {
        Response::Upgrade { .. } => "Upgrade",
        Response::MissingKey => "MissingKey",
        Response::Page { .. } => "Page",
        Response::Asset { .. } => "Asset",
        Response::StaticFile { .. } => "StaticFile",
        Response::NotFound => "NotFound",
    }
}

#[test]
fn custom_css_url() {
    static CSS_URL: &str =
        "http://scholarlymarkdown.com/scholdoc-distribution/css/core/scholmd-core-latest.css";

    let mut server = new_server();

    let (links, paths) = classify_stylesheets(&vec![String::from(CSS_URL)]);
    assert_eq!(links, vec![String::from(CSS_URL)]);
    assert!(paths.is_empty());

    server.set_custom_css(links, Vec::new());

    let text = page_text(&server);
    assert!(text.contains(CSS_URL));
    assert!(!text.contains("github-markdown.css"));
}

#[test]
fn custom_css_file() {
    let mut server = new_server();

    let (links, paths) = classify_stylesheets(&vec![String::from("/tmp/custom.css")]);
    assert!(links.is_empty());
    assert_eq!(paths, vec![String::from("/tmp/custom.css")]);

    // the caller reads each classified path; here its contents stand in directly
    server.set_custom_css(Vec::new(), vec![String::from("a { color: #FF0000; }")]);

    let text = page_text(&server);
    assert!(text.contains("<style>a { color: #FF0000; }</style>"));
    assert!(!text.contains("github-markdown.css"));
}

#[test]
fn custom_css_file_uri() {
    let mut server = new_server();

    let (links, paths) = classify_stylesheets(&vec![String::from("file:///tmp/custom.css")]);
    assert!(links.is_empty());
    assert_eq!(paths, vec![String::from("/tmp/custom.css")]);

    server.set_custom_css(Vec::new(), vec![String::from("a { color: #FF0000; }")]);

    let text = page_text(&server);
    assert!(text.contains("<style>a { color: #FF0000; }</style>"));
    assert!(!text.contains("github-markdown.css"));
}

#[test]
fn custom_css_default() {
    let server = new_server();

    let text = page_text(&server);
    assert!(text.contains("github-markdown.css"));
}

#[test]
fn custom_css_mixed_order_kept() {
    static FIRST: &str = "https://example.com/a.css";
    static SECOND: &str = "http://example.com/b.css";

    let (links, paths) = classify_stylesheets(
        &vec![
            String::from(FIRST),
            String::from("file:///one.css"),
            String::from(SECOND),
            String::from("/two.css"),
        ],
    );
    assert_eq!(links, vec![String::from(FIRST), String::from(SECOND)]);
    assert_eq!(paths, vec![String::from("/one.css"), String::from("/two.css")]);
}

#[test]
fn highlight_theme() {
    let mut server = new_server();
    server.set_highlight_theme(String::from("darcula"));

    let text = page_text(&server);
    assert!(text.contains("darcula.min.css"));
}

#[test]
fn external_renderer() {
    // an external renderer that echoes its input, like `cat`: the process is
    // spawned by the caller, which publishes what came back
    let renderer = CommandRenderer::new(String::from("cat"), Vec::new());
    assert_eq!(renderer.program().as_str(), "cat");
    assert!(renderer.args().is_empty());

    let mut server = new_server();
    let mut websocket = Subscriber::new();

    let echoed = String::from("Hello, world!");
    server.publish_html(echoed);

    let message = websocket.poll(server.render_state()).unwrap();
    assert_eq!(message.trim(), "Hello, world!");
}
