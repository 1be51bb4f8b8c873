//! Verified core of the monoterminal master daemon: terminal emulation
//! (escape-sequence parsing, grid state, dirty tracking), scrollback, glyph
//! atlas allocation, peer-handshake checks and the protocol decisions of the
//! connection handlers.

pub mod scrollback;
pub mod vt_parser;
pub mod grid_index;
pub mod terminal_grid;
pub mod glyph_cache;
pub mod text;
pub mod errors;
pub mod handshake;
pub mod clock;
pub mod activity;
pub mod layout;
pub mod session;
pub mod tls;
pub mod webrtc_config;
pub mod pairing;
pub mod ice;
pub mod peer;
pub mod signaling;
pub mod ids;
pub mod handler;
pub mod manager;
pub mod connection;
pub mod health;
pub mod backend;


