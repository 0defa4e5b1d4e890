//! The per-connection state machine.
//!
//! A freshly accepted connection negotiates: an upgrade request moves it to
//! streaming, anything else gets one plain response and the connection
//! closes. A streaming connection pushes every new value, answers pings, and
//! closes on a client close request, a read error, or server shutdown —
//! sending a close frame whenever the socket is still writable. The socket
//! I/O around these decisions happens outside the library.

use vstd::prelude::*;

use crate::service::Request;
use crate::service::spec_is_upgrade;
use crate::service::is_websocket_upgrade;

verus! {

/// The states of one accepted connection.
#[derive(Clone, Copy, Debug, PartialEq, Eq, Structural)]
pub enum ConnectionState {
    /// Reading the request far enough to classify it.
    Negotiating,
    /// Upgraded: pushing values and answering inbound frames.
    Streaming,
    /// A plain request: one response is written, then the connection closes.
    PlainResponse,
    /// The connection is finished.
    Closed,
}

/// What a streaming connection hears.
#[derive(Debug)]
pub enum StreamEvent {
    /// The render state holds a value newer than anything this connection
    /// sent.
    NewHtml { html: String },
    /// The client sent a ping carrying this payload.
    Ping { payload: Vec<u8> },
    /// The client asked to close the connection.
    CloseRequest,
    /// Reading from the socket failed.
    ReadError,
    /// Writing to the socket failed: the socket is no longer writable.
    WriteError,
    /// The server is shutting down.
    Shutdown,
}

/// What a streaming connection does next.
#[derive(Debug)]
pub enum StreamAction {
    /// Send a text frame carrying the HTML.
    SendText { html: String },
    /// Answer a ping with a pong carrying the same payload.
    SendPong { payload: Vec<u8> },
    /// Send a close frame.
    SendClose,
    /// Touch the socket no further.
    NoFrame,
}

/// Classifies a freshly accepted connection: an upgrade request streams,
/// anything else gets one plain response.
pub fn negotiate(request: &Request) -> (next: ConnectionState)
    ensures
        next == if spec_is_upgrade(*request) {
            ConnectionState::Streaming
        } else {
            ConnectionState::PlainResponse
        },
{
    if is_websocket_upgrade(request) {
        ConnectionState::Streaming
    } else {
        ConnectionState::PlainResponse
    }
}

/// One step of a streaming connection: a new value is forwarded as a text
/// frame, a ping is answered with a pong, and every way out of the loop —
/// client close, read error, shutdown — closes the connection with a close
/// frame; after a write error the socket is not written again.
///
/// A failure terminates only this connection: the step never asks for the
/// listener or any other connection to act.
pub fn streaming_step(event: StreamEvent) -> (outcome: (ConnectionState, StreamAction))
    ensures
        event matches StreamEvent::NewHtml { html } ==> outcome.0 is Streaming && (outcome.1
            matches StreamAction::SendText { html: sent } && sent@ == html@),
        event matches StreamEvent::Ping { payload } ==> outcome.0 is Streaming && (outcome.1
            matches StreamAction::SendPong { payload: sent } && sent@ == payload@),
        event is CloseRequest ==> outcome.0 is Closed && outcome.1 is SendClose,
        event is ReadError ==> outcome.0 is Closed && outcome.1 is SendClose,
        event is Shutdown ==> outcome.0 is Closed && outcome.1 is SendClose,
        event is WriteError ==> outcome.0 is Closed && outcome.1 is NoFrame,
{
    match event {
        StreamEvent::NewHtml { html } => (
            ConnectionState::Streaming,
            StreamAction::SendText { html },
        ),
        StreamEvent::Ping { payload } => (
            ConnectionState::Streaming,
            StreamAction::SendPong { payload },
        ),
        StreamEvent::CloseRequest => (ConnectionState::Closed, StreamAction::SendClose),
        StreamEvent::ReadError => (ConnectionState::Closed, StreamAction::SendClose),
        StreamEvent::Shutdown => (ConnectionState::Closed, StreamAction::SendClose),
        StreamEvent::WriteError => (ConnectionState::Closed, StreamAction::NoFrame),
    }
}

} // verus!
