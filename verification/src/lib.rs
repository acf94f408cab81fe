//! Verified core of a Skylanders (Mifare Classic 1K) NFC emulation service.
//!
//! The library holds the state that the service keeps between requests and
//! the decisions it takes on each of them; the service loop, the file system
//! and the IPC transport stay outside.
pub mod emu;
pub mod fsext;
pub mod ipc;
pub mod skylander;
