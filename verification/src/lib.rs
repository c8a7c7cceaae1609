//! Core of a real-time multiplayer relay server.
//!
//! The library holds the verified logic: the binary wire protocol, the game
//! state store (food roster and player roster), the event router (a bounded
//! inbound queue and a lossy outbound broadcast registry), the per-connection
//! state machine, and the game loop's relay policy.  Transport I/O (TCP,
//! the WebSocket handshake) lives outside the library and hands it plain
//! values.
//!
//! Coordinates travel on the wire as 4-byte IEEE-754 single-precision
//! values.  The relay never interprets them numerically — it only stores and
//! forwards them — so the library carries each coordinate as its 32-bit
//! pattern (`u32`), which keeps every byte on the wire exact.

pub mod game;
pub mod gameloop;
pub mod handler;
pub mod router;
pub mod wire;
