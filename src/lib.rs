//! Client-side bridge to a remote inference service: the relay connection's
//! state and decisions, the classifier of server-pushed messages, and the
//! small rules of the request commands around them.
pub mod commands;
pub mod config;
pub mod events;
pub mod json;
pub mod relay;
pub mod text;
