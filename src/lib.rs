//! Connection acceptance and HTTP-to-HTTPS redirect logic for a small blog server.

pub mod config;
pub mod connection;
pub mod posts;
pub mod routing;
pub mod text;
