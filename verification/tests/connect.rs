//! Request classification and the upgrade handshake.

use aurelius::MarkdownRenderer;
use aurelius::Server;
use aurelius::connection::ConnectionState;
use aurelius::connection::StreamAction;
use aurelius::connection::StreamEvent;
use aurelius::connection::negotiate;
use aurelius::connection::streaming_step;
use aurelius::service::Request;
use aurelius::service::Response;
use aurelius::service::is_websocket_upgrade;

fn new_server() -> Server<MarkdownRenderer> {
    Server::new(MarkdownRenderer::new(), Vec::new())
}

fn upgrade_request(key: Option<&[u8]>) -> Request {
    Request {
        path: String::from("/"),
        connection_header: Some(String::from("Upgrade")),
        upgrade_header: Some(String::from("websocket")),
        websocket_key: key.map(|k| k.to_vec()),
    }
}

#[test]
fn connect_http() {
    let server = new_server();

    let request = Request {
        path: String::from("/"),
        connection_header: None,
        upgrade_header: None,
        websocket_key: None,
    };
    match server.handle_request(&request) {
        Response::Page { html } => {
            assert!(html.contains("<html>"));
        },
        _ => panic!("expected the page"),
    }
}

#[test]
fn connect_websocket() {
    let server = new_server();

    // the sample key/accept pair of the protocol's specification
    let request = upgrade_request(Some(b"dGhlIHNhbXBsZSBub25jZQ=="));
    match server.handle_request(&request) {
        Response::Upgrade { accept_token } => {
            assert_eq!(accept_token, "s3pPLMBiTxaQ9kYGzzhZRbK+xOo=");
        },
        _ => panic!("expected the upgrade handshake"),
    }
}

#[test]
fn upgrade_without_key_is_rejected() {
    let server = new_server();

    let request = upgrade_request(None);
    assert!(matches!(server.handle_request(&request), Response::MissingKey));
}

#[test]
fn upgrade_headers_match_exactly() {
    let plain = Request {
        path: String::from("/"),
        connection_header: Some(String::from("keep-alive")),
        upgrade_header: Some(String::from("websocket")),
        websocket_key: None,
    };
    assert!(!is_websocket_upgrade(&plain));
    assert!(is_websocket_upgrade(&upgrade_request(None)));
}

#[test]
fn negotiate_routes_by_headers() {
    assert_eq!(negotiate(&upgrade_request(None)), ConnectionState::Streaming);

    let plain = Request {
        path: String::from("/style.css"),
        connection_header: None,
        upgrade_header: None,
        websocket_key: None,
    };
    assert_eq!(negotiate(&plain), ConnectionState::PlainResponse);
}

#[test]
fn streaming_reacts_to_events() {
    let (state, action) = streaming_step(StreamEvent::NewHtml {
        html: String::from("<p>hi</p>"),
    });
    assert_eq!(state, ConnectionState::Streaming);
    match action {
        StreamAction::SendText { html } => assert_eq!(html, "<p>hi</p>"),
        _ => panic!("expected a text frame"),
    }

    let (state, action) = streaming_step(StreamEvent::Ping { payload: vec![1, 2, 3] });
    assert_eq!(state, ConnectionState::Streaming);
    match action {
        StreamAction::SendPong { payload } => assert_eq!(payload, vec![1, 2, 3]),
        _ => panic!("expected a pong"),
    }

    let (state, action) = streaming_step(StreamEvent::CloseRequest);
    assert_eq!(state, ConnectionState::Closed);
    assert!(matches!(action, StreamAction::SendClose));

    let (state, action) = streaming_step(StreamEvent::ReadError);
    assert_eq!(state, ConnectionState::Closed);
    assert!(matches!(action, StreamAction::SendClose));

    let (state, action) = streaming_step(StreamEvent::Shutdown);
    assert_eq!(state, ConnectionState::Closed);
    assert!(matches!(action, StreamAction::SendClose));

    let (state, action) = streaming_step(StreamEvent::WriteError);
    assert_eq!(state, ConnectionState::Closed);
    assert!(matches!(action, StreamAction::NoFrame));
}
