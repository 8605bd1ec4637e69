//! Decision core of a bridge between a Lark/Feishu channel and a Codex
//! app-server.
//!
//! Every module here is a deterministic part of the bridge: wire envelopes,
//! bounded mailboxes, routing tables, admission gates, recovery and write
//! state machines. Reading, writing, sleeping and spawning happen outside;
//! they hand plain values in and perform the actions that come back.
pub mod app;
pub mod channel;
pub mod cli;
pub mod codex;
pub mod json;
pub mod keyed;
pub mod limits;
pub mod ordered;
pub mod outside;
pub mod text;
pub mod version;
