//! Host side of a WebAssembly function worker: the wire envelope exchanged with
//! guests, guest-memory marshalling, the host bindings' decisions, the per-function
//! instance pool, the artifact cache rules and the request dispatcher's routing.

pub mod wire;
pub mod trap;
pub mod memory;
pub mod result_handle;
pub mod bindings;
pub mod ipc;
pub mod system;
pub mod pool;
pub mod text;
pub mod registry;
pub mod cache;
pub mod dispatch;
pub mod cli;
pub mod object_types;
