//! Publishing values and delivering them to subscribers.

use aurelius::MarkdownRenderer;
use aurelius::Server;
use aurelius::Subscriber;

fn new_server() -> Server<MarkdownRenderer> {
    Server::new(MarkdownRenderer::new(), Vec::new())
}

#[test]
fn send_html() {
    let mut server = new_server();
    let mut websocket = Subscriber::new();

    server.send("<p>Hello, world!</p>").unwrap();
    let message = websocket.poll(server.render_state()).unwrap();
    assert_eq!(message, "<p>Hello, world!</p>");

    server.send("<p>Goodbye, world!</p>").unwrap();
    let message = websocket.poll(server.render_state()).unwrap();
    assert_eq!(message, "<p>Goodbye, world!</p>");
}

#[test]
fn send_markdown() {
    let mut server = new_server();
    let mut websocket = Subscriber::new();

    server.send("*Hello*").unwrap();
    let message = websocket.poll(server.render_state()).unwrap();
    assert_eq!(message.trim(), "<p><em>Hello</em></p>");
}

#[test]
fn send_with_no_clients() {
    let mut server = new_server();

    server.send("This shouldn't hang").unwrap();
}

#[test]
fn no_websockets() {
    let mut server = new_server();

    server.send("This shouldn't hang!").unwrap();
}

#[test]
fn send_simple() {
    let mut server = new_server();
    let mut client = Subscriber::new();

    server.send("Hello, world!").unwrap();

    let message = client.poll(server.render_state()).unwrap();
    assert_eq!(message.trim(), "<p>Hello, world!</p>");
}

#[test]
fn queue_html_if_no_clients() {
    let mut server = new_server();

    server.send("# Markdown").unwrap();

    let mut websocket = Subscriber::new();
    let message = websocket.poll(server.render_state()).unwrap();
    assert_eq!(message.trim(), "<h1>Markdown</h1>");
}

#[test]
fn closed_websocket_removed_from_clients() {
    let mut server = new_server();

    let id = server.register_connection(1);
    let token = server.disconnect(id);
    assert_eq!(token, Some(1));

    server.send("# Markdown").unwrap();

    let tokens = server.shutdown();
    assert!(tokens.is_empty());
}

#[test]
fn close_websockets_on_drop() {
    let mut server = new_server();

    let _id = server.register_connection(42);

    let tokens = server.shutdown();
    assert_eq!(tokens, vec![42]);
}

#[test]
fn initial_send() {
    let mut server = new_server();
    let mut client = Subscriber::new();

    assert!(client.poll(server.render_state()).is_none());

    server.publish_html(String::from("<p>Hello world!</p>"));

    let message = client.poll(server.render_state()).unwrap();
    assert_eq!(message, "<p>Hello world!</p>");
}

#[test]
fn multiple_send() {
    let mut server = new_server();
    let mut client = Subscriber::new();

    server.publish_html(String::from("<p>Hello world!</p>"));
    let hello_message = client.poll(server.render_state()).unwrap();
    assert_eq!(hello_message, "<p>Hello world!</p>");

    server.publish_html(String::from("<p>Goodbye world!</p>"));
    let goodbye_message = client.poll(server.render_state()).unwrap();
    assert_eq!(goodbye_message, "<p>Goodbye world!</p>");
}

#[test]
fn slow_subscriber_skips_to_latest() {
    let mut server = new_server();
    let mut client = Subscriber::new();

    server.publish_html(String::from("<p>one</p>"));
    server.publish_html(String::from("<p>two</p>"));
    server.publish_html(String::from("<p>three</p>"));

    let message = client.poll(server.render_state()).unwrap();
    assert_eq!(message, "<p>three</p>");
    assert!(client.poll(server.render_state()).is_none());
}

#[test]
fn empty_input_still_publishes() {
    let mut server = new_server();
    let mut client = Subscriber::new();

    server.send("").unwrap();

    let message = client.poll(server.render_state()).unwrap();
    assert_eq!(message, "");
    assert!(client.poll(server.render_state()).is_none());
}

#[test]
fn test_initial_send() {
    let mut server = new_server();
    let mut client = Subscriber::new();

    server.send("Hello world!").unwrap();

    let message = client.poll(server.render_state()).unwrap();
    assert_eq!(message, "<p>Hello world!</p>\n");
}

#[test]
fn test_multiple_send() {
    let mut server = new_server();
    let mut client = Subscriber::new();

    server.send("# Hello world!").unwrap();
    let message = client.poll(server.render_state()).unwrap();
    assert_eq!(message, "<h1>Hello world!</h1>\n");

    server.send("# Goodbye world!").unwrap();
    let message = client.poll(server.render_state()).unwrap();
    assert_eq!(message, "<h1>Goodbye world!</h1>\n");
}
