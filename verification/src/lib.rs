//! The forwarding core of a reverse proxy: it rewrites the target of an inbound
//! request, strips the headers that belong to a single connection, and turns
//! the upstream's answer into the reply that goes back to the client.

pub mod errors;
pub mod forward;
pub mod hop;
pub mod message;
pub mod rewrite;
pub mod syntax;
pub mod text;
pub mod translate;
