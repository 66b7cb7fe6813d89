//! Support library for clients of the BAPS3 playout-server protocol.
//!
//! The library holds the protocol messages and their line encoding, the
//! error taxonomy, the one-shot request engine (handshake, feature check,
//! command and acknowledgement) and the decision logic of the interactive
//! client; the program around it performs the socket and terminal work.
pub mod client;
pub mod error;
pub mod message;
pub mod mux;
pub mod oneshot;
pub mod time;
pub mod wire;
pub mod util;
