//! Core library of a peer-to-peer remote desktop application: device
//! identities, the wire protocol and its codec, framed substreams, the
//! session state machine, frame encoding and decoding, the peer cache,
//! and the input pipeline.

pub mod clipboard;
pub mod clock;
pub mod codec;
pub mod config;
pub mod connection;
pub mod desktop;
pub mod discovery;
pub mod error;
pub mod input;
pub mod listener;
pub mod logging;
pub mod manager;
pub mod protocol;
pub mod quic;
pub mod security;
pub mod session;
pub mod state;
pub mod stream;
pub mod text;
pub mod transport;
pub mod ui;
