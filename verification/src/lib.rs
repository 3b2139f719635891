//! A duplex relay for gate-level control messages.
//!
//! A host issues commands, a device answers with responses, and both speak
//! Open Sound Control over datagrams. This library holds everything the relay
//! decides: how a datagram is framed, which typed message it stands for, how
//! messages are buffered in order between the two peers, how they are written
//! back to the wire, and which events end a relay. Sockets, tasks and waiting
//! are left to the program that embeds it.

pub mod frame;
pub mod message;
pub mod operation;
pub mod queue;
pub mod relay;
pub mod response;
pub mod text;
pub mod wire;
