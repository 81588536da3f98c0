//! Host-side bridge for running a sandboxed guest module: the pointer/length
//! calling convention, zero-valued result defaults, host-service dispatch over
//! the guest's linear memory, a bind-once memory handle, and the adapter to
//! the freeing-bump heap allocator.

pub mod codec;
pub mod service;
pub mod value;
pub mod memory;
pub mod heap;
pub mod host;
pub mod registry;
