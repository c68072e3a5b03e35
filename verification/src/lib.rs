//! Control plane for hardware-wallet emulators: the wire protocol, the
//! framing of messages, the daemon's instance registry and start sequence,
//! and the client's request building and output rendering.

pub mod text;
pub mod hidraw;
pub mod protocol;
pub mod hex_u16;
pub mod framing;
pub mod registry;
pub mod logs;
pub mod spawn;
pub mod output;
pub mod client;
pub mod daemon;
