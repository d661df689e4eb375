//! What holds of the lookup on every memory and every registry.

use vstd::prelude::*;
use crate::cstring::{c_string_at, has_terminator, terminator_at};
use crate::error::{BridgeError, FAILURE_SENTINEL};
use crate::fd_by_name::{guest_value, lookup_outcome};
use crate::registry::{ObjectRegistry, FIRST_HANDLE};

verus! {

/// Where the handle names a live object that holds a map under the name read
/// from guest memory, the guest is handed that map's descriptor.
pub proof fn lemma_live_name_yields_descriptor(
    memory: Seq<u8>,
    objects: Map<u64, Map<Seq<char>, i32>>,
    program: u64,
    name: u32,
    text: Seq<char>,
)
    requires
        c_string_at(memory, name as int) == Ok::<Seq<char>, BridgeError>(text),
        objects.contains_key(program),
        objects[program].contains_key(text),
    ensures
        lookup_outcome(memory, objects, program, name) == Ok::<i32, BridgeError>(
            objects[program][text],
        ),
        guest_value(lookup_outcome(memory, objects, program, name)) == objects[program][text],
{
}

/// A handle that names no live object yields the sentinel, whatever the
/// name.
pub proof fn lemma_dead_handle_yields_sentinel(
    memory: Seq<u8>,
    objects: Map<u64, Map<Seq<char>, i32>>,
    program: u64,
    name: u32,
)
    requires
        !objects.contains_key(program),
    ensures
        lookup_outcome(memory, objects, program, name) is Err,
        guest_value(lookup_outcome(memory, objects, program, name)) == FAILURE_SENTINEL,
{
}

/// In a valid registry a handle that was never issued names no live object.
pub proof fn lemma_unissued_handle_is_dead(registry: ObjectRegistry, handle: u64)
    requires
        registry.wf(),
        handle < FIRST_HANDLE || handle >= registry.next_handle(),
    ensures
        !registry.is_live(handle),
{
}

/// Once a handle is taken out of the live objects it yields the sentinel,
/// whatever the name, and every other handle yields what it did before.
pub proof fn lemma_released_handle_yields_sentinel(
    memory: Seq<u8>,
    objects: Map<u64, Map<Seq<char>, i32>>,
    released: u64,
    other: u64,
    name: u32,
)
    requires
        other != released,
    ensures
        guest_value(lookup_outcome(memory, objects.remove(released), released, name))
            == FAILURE_SENTINEL,
        lookup_outcome(memory, objects.remove(released), other, name) == lookup_outcome(
            memory,
            objects,
            other,
            name,
        ),
{
}

/// A name that the live object does not hold yields the sentinel.
pub proof fn lemma_absent_name_yields_sentinel(
    memory: Seq<u8>,
    objects: Map<u64, Map<Seq<char>, i32>>,
    program: u64,
    name: u32,
)
    requires
        objects.contains_key(program),
        match c_string_at(memory, name as int) {
            Ok(text) => !objects[program].contains_key(text),
            Err(_) => true,
        },
    ensures
        lookup_outcome(memory, objects, program, name) is Err,
        guest_value(lookup_outcome(memory, objects, program, name)) == FAILURE_SENTINEL,
{
}

/// A name whose bytes would run past the end of guest memory yields the
/// sentinel: so does every name that starts at or after the end, and every
/// name with no zero byte between its start and the end.
pub proof fn lemma_name_out_of_bounds_yields_sentinel(
    memory: Seq<u8>,
    objects: Map<u64, Map<Seq<char>, i32>>,
    program: u64,
    name: u32,
)
    requires
        name >= memory.len() || forall|i: int| name <= i < memory.len() ==> memory[i] != 0,
    ensures
        c_string_at(memory, name as int) == Err::<Seq<char>, BridgeError>(
            BridgeError::OutOfBounds,
        ),
        guest_value(lookup_outcome(memory, objects, program, name)) == FAILURE_SENTINEL,
{
    assert forall|end: int| !terminator_at(memory, name as int, end) by {}
    assert(!has_terminator(memory, name as int));
}

/// Maps of one name in two objects do not leak into each other: each handle
/// yields the descriptor that its own object holds under the name.
pub proof fn lemma_no_cross_object_leakage(
    memory: Seq<u8>,
    objects: Map<u64, Map<Seq<char>, i32>>,
    first: u64,
    second: u64,
    name: u32,
    text: Seq<char>,
)
    requires
        first != second,
        c_string_at(memory, name as int) == Ok::<Seq<char>, BridgeError>(text),
        objects.contains_key(first),
        objects.contains_key(second),
        objects[first].contains_key(text),
        objects[second].contains_key(text),
    ensures
        guest_value(lookup_outcome(memory, objects, first, name)) == objects[first][text],
        guest_value(lookup_outcome(memory, objects, second, name)) == objects[second][text],
{
}

} // verus!
