//! The preview server's core: configuration, render state, the registry of
//! live connections, and the renderer, tied together.
//!
//! Everything here is a decision or a state change; the listener around it
//! accepts sockets, performs the I/O that the returned values call for, and
//! hands events back.

use vstd::prelude::*;

use crate::config::Config;
use crate::id_map::IdMap;
use crate::id_map::active_ids;
use crate::id_map::active_values;
use crate::id_map::lemma_active_slot_value_is_active;
use crate::render::Renderer;
use crate::render::string_with_capacity;
use crate::service::Request;
use crate::service::Response;
use crate::service::respond;
use crate::service::response_decision;
use crate::state::RenderState;

verus! {

/// The live-preview server's state: renderer, configuration, the single-slot
/// render state, the registry of live connections (each entry an app-chosen
/// token that stands for the connection's cancel handle), and the embedded
/// asset table.
pub struct Server<R: Renderer> {
    renderer: R,
    config: Config,
    state: RenderState,
    connections: IdMap<u64>,
    assets: Vec<(String, Vec<u8>)>,
}

impl<R: Renderer> Server<R> {
    /// The renderer in use.
    pub closed spec fn spec_renderer(&self) -> R {
        self.renderer
    }

    /// The current configuration.
    pub closed spec fn spec_config(&self) -> Config {
        self.config
    }

    /// The render state.
    pub closed spec fn spec_state(&self) -> RenderState {
        self.state
    }

    /// The connection registry's slots.
    pub closed spec fn spec_connections(&self) -> Seq<Option<u64>> {
        self.connections@
    }

    /// The embedded asset table.
    pub closed spec fn spec_assets(&self) -> Seq<(Seq<char>, Seq<u8>)> {
        self.assets.deep_view()
    }

    /// A new server with the default configuration, nothing rendered yet, and
    /// no connections.
    pub fn new(renderer: R, assets: Vec<(String, Vec<u8>)>) -> (server: Server<R>)
        ensures
            server.spec_renderer() == renderer,
            server.spec_config().static_root is None,
            server.spec_config().highlight_theme@ == "github"@,
            server.spec_config().css_links.deep_view() == Seq::<Seq<char>>::empty(),
            server.spec_config().custom_styles.deep_view() == Seq::<Seq<char>>::empty(),
            server.spec_state().spec_generation() == 0,
            server.spec_state().current() is None,
            server.spec_state().history() == Seq::<Seq<char>>::empty(),
            server.spec_connections() == Seq::<Option<u64>>::empty(),
            server.spec_assets() == assets.deep_view(),
    {
        Server {
            renderer,
            config: Config::default(),
            state: RenderState::new(),
            connections: IdMap::default(),
            assets,
        }
    }

    /// Publishes new input: renders it and replaces the current value,
    /// incrementing the generation. On a render error nothing changes — the
    /// previous value stays current and every viewer keeps seeing it.
    ///
    /// Connected subscribers are untouched: they pull the new value on their
    /// own schedule, so sending blocks on no reader and succeeds with zero
    /// connections as well as with many.
    pub fn send(&mut self, input: &str) -> (outcome: Result<(), R::Error>)
        requires
            old(self).spec_state().spec_generation() < u64::MAX,
        ensures
            outcome is Ok ==> {
                &&& final(self).spec_state().spec_generation() == old(self).spec_state().spec_generation() + 1
                &&& final(self).spec_state().current() == Some(
                    old(self).spec_renderer().spec_render(input@),
                )
                &&& final(self).spec_state().history() == old(self).spec_state().history().push(
                    old(self).spec_renderer().spec_render(input@),
                )
            },
            old(self).spec_renderer().spec_can_render(input@) ==> outcome is Ok,
            outcome is Err ==> final(self).spec_state() == old(self).spec_state(),
            final(self).spec_renderer() == old(self).spec_renderer(),
            final(self).spec_config() == old(self).spec_config(),
            final(self).spec_connections() == old(self).spec_connections(),
            final(self).spec_assets() == old(self).spec_assets(),
    {
        let hint = self.renderer.size_hint(input);
        let mut output = string_with_capacity(hint);
        match self.renderer.render(input, &mut output) {
            Ok(_) => {
                proof {
                    assert(output@ =~= self.renderer.spec_render(input@));
                }
                self.state.replace(output);
                Ok(())
            },
            Err(e) => Err(e),
        }
    }

    /// Publishes HTML that was rendered elsewhere (by an external renderer
    /// process): replaces the current value and increments the generation.
    pub fn publish_html(&mut self, html: String)
        requires
            old(self).spec_state().spec_generation() < u64::MAX,
        ensures
            final(self).spec_state().spec_generation() == old(self).spec_state().spec_generation() + 1,
            final(self).spec_state().current() == Some(html@),
            final(self).spec_state().history() == old(self).spec_state().history().push(html@),
            final(self).spec_renderer() == old(self).spec_renderer(),
            final(self).spec_config() == old(self).spec_config(),
            final(self).spec_connections() == old(self).spec_connections(),
            final(self).spec_assets() == old(self).spec_assets(),
    {
        self.state.replace(html);
    }

    /// The current value (cloned) together with its generation. A freshly
    /// upgraded connection reads this first, so a value published before it
    /// connected reaches it too.
    pub fn snapshot(&self) -> (snap: (Option<String>, u64))
        ensures
            snap.1 == self.spec_state().spec_generation(),
            snap.0 is Some <==> snap.1 > 0,
            match snap.0 {
                Some(h) => self.spec_state().current() == Some(h@),
                None => self.spec_state().current() is None,
            },
    {
        self.state.snapshot()
    }

    /// Whether a value newer than `after` has been published. A streaming
    /// connection waits exactly as long as this is false.
    pub fn has_changed(&self, after: u64) -> (changed: bool)
        ensures
            changed == (self.spec_state().spec_generation() > after),
    {
        self.state.has_changed(after)
    }

    /// The shared render state, for subscribers to poll.
    pub fn render_state(&self) -> (state: &RenderState)
        ensures
            *state == self.spec_state(),
    {
        &self.state
    }

    /// The current generation.
    pub fn generation(&self) -> (g: u64)
        ensures
            g == self.spec_state().spec_generation(),
    {
        self.state.generation()
    }

    /// Records a live connection under a fresh id; `token` stands for the
    /// connection's cancel handle.
    pub fn register_connection(&mut self, token: u64) -> (id: usize)
        ensures
            id <= old(self).spec_connections().len(),
            forall|j: int| 0 <= j < id ==> old(self).spec_connections()[j] is Some,
            id < old(self).spec_connections().len() ==> old(self).spec_connections()[id as int]
                is None,
            final(self).spec_connections()[id as int] == Some(token),
            active_ids(final(self).spec_connections()) == active_ids(
                old(self).spec_connections(),
            ).insert(id as int),
            id < old(self).spec_connections().len() ==> final(self).spec_connections() == old(self).spec_connections().update(id as int, Some(token)),
            id == old(self).spec_connections().len() ==> final(self).spec_connections() == old(self).spec_connections().push(Some(token)),
            final(self).spec_renderer() == old(self).spec_renderer(),
            final(self).spec_config() == old(self).spec_config(),
            final(self).spec_state() == old(self).spec_state(),
            final(self).spec_assets() == old(self).spec_assets(),
    {
        self.connections.insert(token)
    }

    /// Removes a connection from the active set (client close, error, or its
    /// task finishing); its id is free for reuse. Returns the token it was
    /// registered under, or `None` if the id is not active.
    pub fn disconnect(&mut self, id: usize) -> (token: Option<u64>)
        ensures
            active_ids(final(self).spec_connections()) == active_ids(
                old(self).spec_connections(),
            ).remove(id as int),
            id < old(self).spec_connections().len() && old(self).spec_connections()[id as int]
                is Some ==> token == old(self).spec_connections()[id as int] && final(self).spec_connections() == old(self).spec_connections().update(id as int, None),
            !(id < old(self).spec_connections().len() && old(self).spec_connections()[id as int]
                is Some) ==> token is None && final(self).spec_connections() == old(self).spec_connections(),
            final(self).spec_renderer() == old(self).spec_renderer(),
            final(self).spec_config() == old(self).spec_config(),
            final(self).spec_state() == old(self).spec_state(),
            final(self).spec_assets() == old(self).spec_assets(),
    {
        self.connections.remove(id)
    }

    /// Tears the subscriber set down: empties the registry and returns the
    /// token of every connection that was still open, so the caller can send
    /// each a close frame and join its task. No connection is left behind.
    pub fn shutdown(&mut self) -> (tokens: Vec<u64>)
        ensures
            tokens@ == active_values(old(self).spec_connections()),
            final(self).spec_connections() == Seq::<Option<u64>>::empty(),
            final(self).spec_renderer() == old(self).spec_renderer(),
            final(self).spec_config() == old(self).spec_config(),
            final(self).spec_state() == old(self).spec_state(),
            final(self).spec_assets() == old(self).spec_assets(),
    {
        let tokens = self.connections.values();
        self.connections = IdMap::default();
        tokens
    }

    /// Decides the response to one request; see
    /// [`response_decision`](crate::service::response_decision) for what each
    /// kind of request is answered with.
    pub fn handle_request(&self, request: &Request) -> (response: Response)
        ensures
            response_decision(self.spec_config(), self.spec_assets(), *request, response),
    {
        respond(&self.config, &self.assets, request)
    }

    /// Sets the directory that static files are served from.
    pub fn set_static_root(&mut self, root: String)
        ensures
            final(self).spec_config().static_root == Some(root),
            final(self).spec_config().highlight_theme == old(self).spec_config().highlight_theme,
            final(self).spec_config().css_links == old(self).spec_config().css_links,
            final(self).spec_config().custom_styles == old(self).spec_config().custom_styles,
            final(self).spec_renderer() == old(self).spec_renderer(),
            final(self).spec_state() == old(self).spec_state(),
            final(self).spec_connections() == old(self).spec_connections(),
            final(self).spec_assets() == old(self).spec_assets(),
    {
        self.config.static_root = Some(root);
    }

    /// Sets the highlight.js theme used for code blocks.
    pub fn set_highlight_theme(&mut self, theme: String)
        ensures
            final(self).spec_config().highlight_theme == theme,
            final(self).spec_config().static_root == old(self).spec_config().static_root,
            final(self).spec_config().css_links == old(self).spec_config().css_links,
            final(self).spec_config().custom_styles == old(self).spec_config().custom_styles,
            final(self).spec_renderer() == old(self).spec_renderer(),
            final(self).spec_state() == old(self).spec_state(),
            final(self).spec_connections() == old(self).spec_connections(),
            final(self).spec_assets() == old(self).spec_assets(),
    {
        self.config.highlight_theme = theme;
    }

    /// Sets the custom CSS: `links` are served as `<link>` tags, `styles` as
    /// inline `<style>` blocks, in order. Both lists change together, so a
    /// caller that fails to gather one of them leaves the configuration
    /// untouched (no partial update). Entries as the user wrote them are
    /// split and file paths read by the caller; see
    /// [`classify_stylesheets`](crate::config::classify_stylesheets).
    pub fn set_custom_css(&mut self, links: Vec<String>, styles: Vec<String>)
        ensures
            final(self).spec_config().css_links == links,
            final(self).spec_config().custom_styles == styles,
            final(self).spec_config().static_root == old(self).spec_config().static_root,
            final(self).spec_config().highlight_theme == old(self).spec_config().highlight_theme,
            final(self).spec_renderer() == old(self).spec_renderer(),
            final(self).spec_state() == old(self).spec_state(),
            final(self).spec_connections() == old(self).spec_connections(),
            final(self).spec_assets() == old(self).spec_assets(),
    {
        self.config.css_links = links;
        self.config.custom_styles = styles;
    }
}

/// Closing a connection removes exactly it from the active set: its id is no
/// longer active, every other id is as it was — so nothing later writes to
/// the closed socket, and no open connection is forgotten.
pub proof fn lemma_disconnect_removes_only_that_connection(conns: Seq<Option<u64>>, id: int)
    requires
        0 <= id < conns.len(),
    ensures
        !active_ids(conns.update(id, None)).contains(id),
        active_ids(conns.update(id, None)) == active_ids(conns).remove(id),
{
    assert(active_ids(conns.update(id, None)) =~= active_ids(conns).remove(id));
}

/// Shutting down reaches every still-open connection: the token of each
/// active slot is among the tokens handed back for closing.
pub proof fn lemma_shutdown_reaches_every_connection(conns: Seq<Option<u64>>, id: int)
    requires
        0 <= id < conns.len(),
        conns[id] is Some,
    ensures
        active_values(conns).contains(conns[id]->Some_0),
{
    lemma_active_slot_value_is_active(conns, id);
}

} // verus!
