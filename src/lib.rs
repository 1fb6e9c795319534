//! A userspace filesystem session library speaking the Linux FUSE kernel protocol.
//!
//! The library holds the protocol engine: the byte layouts of the kernel's
//! messages, a bounds-checked decoder, the reply framer, the typed operations,
//! the INIT handshake and the per-request decisions of a session. Reading from
//! and writing to the kernel channel is left to the caller, which hands the
//! library plain bytes and sends the frames it returns.
pub mod abi;
pub mod decoder;
pub mod flags;
pub mod init;
pub mod interrupt;
pub mod op;
pub mod operation;
pub mod reply;
pub mod session;
pub mod wire;
