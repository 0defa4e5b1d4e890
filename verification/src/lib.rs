//! Live-preview broadcast engine.
//!
//! The library holds one current rendered HTML value together with a
//! monotonically increasing generation counter, and guarantees that every
//! subscriber — present or future — converges on the latest value. Input text
//! is converted to HTML by a pluggable [`render::Renderer`]; connection
//! handling decisions (request classification, page rendering, asset lookup,
//! streaming reactions) are pure functions with proved contracts, while the
//! sockets, files and child processes around them live outside the library.

pub mod config;
pub mod connection;
pub mod id_map;
pub mod page;
pub mod render;
pub mod server;
pub mod service;
pub mod state;
pub mod text;

pub use config::Config;
pub use id_map::IdMap;
pub use render::CommandRenderer;
pub use render::MarkdownRenderer;
pub use render::RenderError;
pub use render::Renderer;
pub use server::Server;
pub use state::RenderState;
pub use state::Subscriber;
