//! Logic of a text-to-speech desktop application and of its license server.
pub mod text;
pub mod license;
pub mod engine;
pub mod voices;
pub mod server;
pub mod assets;
pub mod search_path;
pub mod activation;
