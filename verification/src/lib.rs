//! A transport-agnostic socket relay library.
//!
//! Endpoints satisfy a small capability contract (read, write, open, close,
//! blocking control, identity); factories construct endpoints from an opaque
//! configuration payload; tracing decorators wrap endpoints transparently;
//! a typed transfer layer drains byte streams in chunks; and a relay engine
//! pumps bytes between two bound endpoints under a cooperative cancellation
//! flag.

pub mod decorators;
pub mod jsoncfg;
pub mod manager;
pub mod membuf;
pub mod oneliner;
pub mod sock;
pub mod strconv;
pub mod tcp_client;
pub mod tcp_server;
pub mod terminal;
pub mod testgen;
pub mod testgen_factory;
pub mod transfer;
pub mod udp;
