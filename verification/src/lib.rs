//! A node client for a bandwidth-sharing proxy network: the rules by which it
//! picks an endpoint, authenticates, answers the coordination server and relays
//! HTTP requests, stated as contracts and proved.

pub mod headers;
pub mod json;
pub mod message;
pub mod node_type;
pub mod outside;
pub mod relay;
pub mod session;
pub mod text;
pub mod websocket_client;
