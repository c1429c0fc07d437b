//! The memory-safety boundary between a host and an untrusted WebAssembly guest.
//!
//! A guest describes each of its buffers by a [`memory::Region`] record that lives in
//! its own linear memory. The host never trusts such a record: it is read afresh and
//! validated on every access, and every byte that moves between host and guest goes
//! through a bounds-checked view of the memory.

pub mod engine;
pub mod errors;
pub mod layout;
pub mod memory;
pub mod metering;
pub mod wasm;
