//! A publish/subscribe broker: publishers push messages keyed by topic,
//! publisher and subject; subscribers register a callback for a topic and are
//! sent the retained messages of that topic and every later change to them.
pub mod headers;
pub mod ident;
pub mod laws;
pub mod models;
pub mod registry;
pub mod rest;
pub mod server;
pub mod subscribers;
