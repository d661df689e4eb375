//! A call bridge between a sandboxed guest program and host-owned
//! kernel-tracing objects.
//!
//! The guest names an object by an opaque integer handle and a map inside it
//! by a NUL-terminated string in its own linear memory; the host answers with
//! the map's descriptor, or with a single negative sentinel.

pub mod error;
pub mod memory;
pub mod cstring;
pub mod object;
pub mod registry;
pub mod context;
pub mod fd_by_name;
pub mod laws;
