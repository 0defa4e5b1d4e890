//! Per-request decisions: classify a request as a push-channel upgrade or a
//! plain request, and route plain requests to the page, an embedded asset, or
//! the configured static root.

use vstd::prelude::*;

use crate::config::Config;
use crate::page::page_spec;
use crate::page::render_page;
use crate::text::spec_starts_with;
use crate::text::spec_trim_prefix;
use crate::text::str_eq;
use crate::text::str_starts_with;
use crate::text::trim_prefix;

verus! {

/// What the connection handler needs to know of an inbound request: the path
/// and the headers that decide the upgrade.
pub struct Request {
    /// The request path.
    pub path: String,
    /// The value of the `Connection` header, if present.
    pub connection_header: Option<String>,
    /// The value of the `Upgrade` header, if present.
    pub upgrade_header: Option<String>,
    /// The raw bytes of the `Sec-WebSocket-Key` header, if present.
    pub websocket_key: Option<Vec<u8>>,
}

/// What the connection handler answers before any socket is touched.
pub enum Response {
    /// Reply `101 Switching Protocols` carrying this accept token, then hand
    /// the socket to the streaming loop.
    Upgrade { accept_token: String },
    /// The upgrade request lacks the `Sec-WebSocket-Key` header: reply
    /// `400 Bad Request`.
    MissingKey,
    /// Reply `200 OK` with the rendered page.
    Page { html: String },
    /// Reply `200 OK` with an embedded asset and its guessed content type.
    Asset { content_type: String, body: Vec<u8> },
    /// Resolve `path` under the static root `root` and serve the file there,
    /// or `404 Not Found` if no regular file exists at it.
    StaticFile { root: String, path: String },
    /// Reply `404 Not Found`.
    NotFound,
}

/// A request asks for the push-channel upgrade when it carries exactly the
/// header pair `Connection: Upgrade` and `Upgrade: websocket`.
pub open spec fn spec_is_upgrade(request: Request) -> bool {
    &&& request.connection_header matches Some(c) && c@ == "Upgrade"@
    &&& request.upgrade_header matches Some(u) && u@ == "websocket"@
}

/// Whether `request` carries the connection-upgrade header pair identifying a
/// push-channel upgrade.
pub fn is_websocket_upgrade(request: &Request) -> (upgrade: bool)
    ensures
        upgrade == spec_is_upgrade(*request),
{
    let connection_ok = match &request.connection_header {
        Some(c) => str_eq(c.as_str(), "Upgrade"),
        None => false,
    };
    let upgrade_ok = match &request.upgrade_header {
        Some(u) => str_eq(u.as_str(), "websocket"),
        None => false,
    };
    connection_ok && upgrade_ok
}

/// The `Sec-WebSocket-Accept` value for a client key: base64 of the SHA-1
/// digest of the key followed by the protocol's fixed GUID. A function of the
/// key alone; its value is fixed by the protocol.
pub uninterp spec fn websocket_accept_token(key: Seq<u8>) -> Seq<char>;

/// Relies on async_tungstenite::tungstenite::handshake::derive_accept_key:
/// the accept token derived from a client's `Sec-WebSocket-Key` depends on
/// the key bytes alone.
#[verifier::external_body]
fn derive_accept_token(key: &[u8]) -> (token: String)
    ensures
        token@ == websocket_accept_token(key@),
{
    async_tungstenite::tungstenite::handshake::derive_accept_key(key)
}

/// The content type guessed from a path's extension,
/// `application/octet-stream` when nothing is known of it. A function of the
/// path alone; its value is fixed by the extension table of the `mime_guess`
/// crate.
pub uninterp spec fn mime_for_path(path: Seq<char>) -> Seq<char>;

/// Relies on mime_guess::from_path, MimeGuess::first_or_octet_stream and the
/// display form of the resulting mime type: the guess depends on the path
/// characters alone.
#[verifier::external_body]
fn guess_content_type(path: &str) -> (content_type: String)
    ensures
        content_type@ == mime_for_path(path@),
{
    mime_guess::from_path(path).first_or_octet_stream().to_string()
}

/// The bytes stored in the embedded asset table under `path`: the first entry
/// whose name matches, if any.
pub open spec fn asset_lookup(assets: Seq<(Seq<char>, Seq<u8>)>, path: Seq<char>) -> Option<
    Seq<u8>,
>
    decreases assets.len(),
{
    if assets.len() == 0 {
        None
    } else if assets.first().0 == path {
        Some(assets.first().1)
    } else {
        asset_lookup(assets.drop_first(), path)
    }
}

/// Finds the embedded asset stored under `path`.
pub fn lookup_asset<'a>(assets: &'a Vec<(String, Vec<u8>)>, path: &str) -> (found: Option<
    &'a Vec<u8>,
>)
    ensures
        match found {
            Some(bytes) => asset_lookup(assets.deep_view(), path@) == Some(bytes@),
            None => asset_lookup(assets.deep_view(), path@) is None,
        },
{
    let ghost all = assets.deep_view();
    let n = assets.len();
    let mut i: usize = 0;
    proof {
        assert(all.skip(0) =~= all);
    }
    while i < n
        invariant
            i <= n,
            n == assets.len(),
            all == assets.deep_view(),
            asset_lookup(all, path@) == asset_lookup(all.skip(i as int), path@),
        decreases n - i,
    {
        proof {
            assert(all.skip(i as int).first() == all[i as int]);
            assert(all.skip(i as int).drop_first() =~= all.skip(i + 1));
            assert(all[i as int].0 == assets@[i as int].0@);
            assert(all[i as int].1 =~= assets@[i as int].1@);
        }
        if str_eq(assets[i].0.as_str(), path) {
            return Some(&assets[i].1);
        }
        i = i + 1;
    }
    proof {
        assert(all.skip(n as int) =~= Seq::<(Seq<char>, Seq<u8>)>::empty());
    }
    None
}

/// A copy of `bytes`.
fn clone_bytes(bytes: &Vec<u8>) -> (out: Vec<u8>)
    ensures
        out@ == bytes@,
{
    let mut out: Vec<u8> = Vec::new();
    let n = bytes.len();
    let mut i: usize = 0;
    while i < n
        invariant
            i <= n,
            n == bytes.len(),
            out@ == bytes@.take(i as int),
        decreases n - i,
    {
        out.push(bytes[i]);
        proof {
            assert(out@ =~= bytes@.take(i + 1));
        }
        i = i + 1;
    }
    proof {
        assert(bytes@.take(n as int) =~= bytes@);
    }
    out
}

/// What the response to a request must be, given the configuration and the
/// embedded asset table: an upgrade handshake for an upgrade request;
/// otherwise the page for the root path, an embedded asset under the reserved
/// prefix, a file under the static root where one is configured, and
/// `404 Not Found` where nothing is.
pub open spec fn response_decision(
    config: Config,
    assets: Seq<(Seq<char>, Seq<u8>)>,
    request: Request,
    response: Response,
) -> bool {
    &&& spec_is_upgrade(request) ==> match request.websocket_key {
        Some(key) => response matches Response::Upgrade { accept_token } && accept_token@
            == websocket_accept_token(key@),
        None => response is MissingKey,
    }
    &&& !spec_is_upgrade(request) ==> {
        if request.path@ == "/"@ {
            response matches Response::Page { html } && html@ == page_spec(config)
        } else if spec_starts_with(request.path@, "/__/"@) {
            match asset_lookup(assets, spec_trim_prefix(request.path@, "/__/"@)) {
                Some(bytes) => response matches Response::Asset { content_type, body }
                    && content_type@ == mime_for_path(spec_trim_prefix(request.path@, "/__/"@))
                    && body@ == bytes,
                None => response is NotFound,
            }
        } else {
            match config.static_root {
                Some(root) => response matches Response::StaticFile { root: r, path: p } && r@
                    == root@ && p@ == request.path@,
                None => response is NotFound,
            }
        }
    }
}

/// Decides the response to one request; see [`response_decision`] for what
/// each kind of request is answered with.
pub fn respond(config: &Config, assets: &Vec<(String, Vec<u8>)>, request: &Request) -> (response:
    Response)
    ensures
        response_decision(*config, assets.deep_view(), *request, response),
{
    if is_websocket_upgrade(request) {
        match &request.websocket_key {
            Some(key) => {
                let token = derive_accept_token(key.as_slice());
                Response::Upgrade { accept_token: token }
            },
            None => Response::MissingKey,
        }
    } else if str_eq(request.path.as_str(), "/") {
        Response::Page { html: render_page(config) }
    } else if str_starts_with(request.path.as_str(), "/__/") {
        let trimmed = trim_prefix(request.path.as_str(), "/__/");
        match lookup_asset(assets, trimmed) {
            Some(bytes) => {
                let content_type = guess_content_type(trimmed);
                Response::Asset { content_type, body: clone_bytes(bytes) }
            },
            None => Response::NotFound,
        }
    } else {
        match &config.static_root {
            Some(root) => Response::StaticFile { root: root.clone(), path: request.path.clone() },
            None => Response::NotFound,
        }
    }
}

} // verus!
