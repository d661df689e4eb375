//! The bridge operation that finds a map's descriptor by the map's name.

use vstd::prelude::*;
use crate::context::CallContext;
use crate::cstring::{c_string_at, extract_c_string};
use crate::error::{BridgeError, FAILURE_SENTINEL};
use crate::memory::GuestMemory;
use crate::registry::ObjectRegistry;

verus! {

/// A guest handle that names a loaded object.
pub type BpfObjectType = u64;

/// The offset of a NUL-terminated string in guest memory.
pub type WasmString = u32;

/// What the lookup yields on the host side, over the guest's memory and the
/// live objects by handle: the name is read first, then the handle is
/// resolved, then the name is looked up in the object.
pub open spec fn lookup_outcome(
    memory: Seq<u8>,
    objects: Map<u64, Map<Seq<char>, i32>>,
    program: u64,
    name: u32,
) -> Result<i32, BridgeError> {
    match c_string_at(memory, name as int) {
        Err(e) => Err(e),
        Ok(text) => {
            if !objects.contains_key(program) {
                Err(BridgeError::InvalidHandle)
            } else if !objects[program].contains_key(text) {
                Err(BridgeError::NotFound)
            } else {
                Ok(objects[program][text])
            }
        },
    }
}

/// What the guest is handed for an outcome: the descriptor, or the one
/// sentinel that stands for every failure.
pub open spec fn guest_value(outcome: Result<i32, BridgeError>) -> i32 {
    match outcome {
        Ok(fd) => fd,
        Err(_) => FAILURE_SENTINEL,
    }
}

/// Collapses an outcome to the value that crosses the boundary.
pub fn to_guest_value(outcome: Result<i32, BridgeError>) -> (r: i32)
    ensures
        r == guest_value(outcome),
{
    match outcome {
        Ok(fd) => fd,
        Err(_) => FAILURE_SENTINEL,
    }
}

/// Finds the descriptor of the map called by the string at `name` in the
/// object that `program` names, and says why where there is none. The
/// registry and its objects are left as they were.
pub fn lookup_map_fd(
    memory: &GuestMemory,
    registry: &mut ObjectRegistry,
    program: u64,
    name: u32,
) -> (r: Result<i32, BridgeError>)
    ensures
        r == lookup_outcome(memory@, old(registry)@, program, name),
        r is Ok ==> r->Ok_0 >= 0,
        final(registry)@ == old(registry)@,
        final(registry).next_handle() == old(registry).next_handle(),
{
    let map_name = match extract_c_string(memory, name as usize) {
        Ok(text) => text,
        Err(e) => {
            return Err(e);
        },
    };
    let object = match registry.resolve_mut(program) {
        Ok(object) => object,
        Err(e) => {
            return Err(e);
        },
    };
    let found = match object.map(map_name.as_str()) {
        Some(entry) => Ok(entry.fd()),
        None => Err(BridgeError::NotFound),
    };
    assert(registry@ =~= old(registry)@);
    found
}

/// Gets a map's descriptor by the map's name from an object.
///
/// Returns the descriptor, which is never negative, or `-1` when the name
/// cannot be read from guest memory, when `program` names no live object, or
/// when the object holds no map of that name.
pub fn wasm_bpf_map_fd_by_name(
    mut caller: CallContext<'_>,
    program: BpfObjectType,
    name: WasmString,
) -> (r: i32)
    ensures
        r == guest_value(lookup_outcome(caller.memory@, old(caller.registry)@, program, name)),
        r >= 0 || r == FAILURE_SENTINEL,
        final(caller.registry)@ == old(caller.registry)@,
        final(caller.registry).next_handle() == old(caller.registry).next_handle(),
{
    to_guest_value(lookup_map_fd(caller.memory, caller.registry, program, name))
}

} // verus!
