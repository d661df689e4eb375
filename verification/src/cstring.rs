//! Extraction of NUL-terminated strings from guest memory.
//!
//! This is the only way in which a guest-controlled string reaches host
//! logic. A string is handed on whole or not at all.

use vstd::prelude::*;
use vstd::utf8::{valid_utf8, decode_utf8};
use crate::error::BridgeError;
use crate::memory::GuestMemory;

verus! {

/// True when `end` is the place of the first zero byte at or after `offset`.
pub open spec fn terminator_at(mem: Seq<u8>, offset: int, end: int) -> bool {
    &&& 0 <= offset <= end < mem.len()
    &&& mem[end] == 0
    &&& forall|i: int| offset <= i < end ==> mem[i] != 0
}

/// True when a zero byte stands at or after `offset`, inside the memory.
pub open spec fn has_terminator(mem: Seq<u8>, offset: int) -> bool {
    exists|end: int| terminator_at(mem, offset, end)
}

/// The place of the first zero byte at or after `offset`, where there is one.
pub open spec fn terminator_index(mem: Seq<u8>, offset: int) -> int {
    choose|end: int| terminator_at(mem, offset, end)
}

/// The bytes of the string at `offset`, without its terminator.
pub open spec fn c_string_bytes(mem: Seq<u8>, offset: int) -> Seq<u8> {
    mem.subrange(offset, terminator_index(mem, offset))
}

/// What extraction at `offset` yields: the decoded text, `OutOfBounds` when no
/// terminator stands between `offset` and the end of memory, and
/// `InvalidEncoding` when the bytes before the terminator are not UTF-8.
pub open spec fn c_string_at(mem: Seq<u8>, offset: int) -> Result<Seq<char>, BridgeError> {
    if !has_terminator(mem, offset) {
        Err(BridgeError::OutOfBounds)
    } else if !valid_utf8(c_string_bytes(mem, offset)) {
        Err(BridgeError::InvalidEncoding)
    } else {
        Ok(decode_utf8(c_string_bytes(mem, offset)))
    }
}

/// A string has one terminator: any place that qualifies is the chosen one.
pub proof fn lemma_terminator_unique(mem: Seq<u8>, offset: int, end: int)
    requires
        terminator_at(mem, offset, end),
    ensures
        has_terminator(mem, offset),
        terminator_index(mem, offset) == end,
{
    let chosen = terminator_index(mem, offset);
    assert(terminator_at(mem, offset, chosen));
    if chosen < end {
        assert(mem[chosen] != 0);
    } else if end < chosen {
        assert(mem[end] != 0);
    }
}

/// `core::str::Utf8Error`, the error of `core::str::from_utf8`. Nothing is
/// read from it: it only tells that the bytes were refused.
#[verifier::external_type_specification]
#[verifier::external_body]
pub struct ExUtf8Error(core::str::Utf8Error);

/// `core::str::from_utf8` accepts exactly the byte sequences that are valid
/// UTF-8, and the string it returns holds the characters that they encode.
pub assume_specification[ core::str::from_utf8 ](v: &[u8]) -> (r: Result<
    &str,
    core::str::Utf8Error,
>)
    ensures
        r is Ok <==> valid_utf8(v@),
        r is Ok ==> r->Ok_0@ == decode_utf8(v@),
;

/// The place of the first zero byte at or after `offset`, or `None` when the
/// memory ends before one is met.
pub fn find_terminator(mem: &GuestMemory, offset: usize) -> (r: Option<usize>)
    ensures
        match r {
            Some(end) => terminator_at(mem@, offset as int, end as int),
            None => !has_terminator(mem@, offset as int),
        },
{
    let size = mem.size();
    let mut at: usize = offset;
    while at < size
        invariant
            offset <= at,
            size == mem@.len(),
            forall|i: int| offset <= i < at && i < size ==> mem@[i] != 0,
        decreases size - at,
    {
        match mem.read_byte(at) {
            Ok(b) => {
                if b == 0 {
                    return Some(at);
                }
            },
            Err(_) => {
                return None;
            },
        }
        at = at + 1;
    }
    assert forall|end: int| !terminator_at(mem@, offset as int, end) by {
        if terminator_at(mem@, offset as int, end) {
            assert(mem@[end] != 0);
        }
    }
    None
}

/// Reads the NUL-terminated string that starts at `offset` in guest memory.
pub fn extract_c_string(mem: &GuestMemory, offset: usize) -> (r: Result<String, BridgeError>)
    ensures
        match r {
            Ok(s) => c_string_at(mem@, offset as int) == Ok::<Seq<char>, BridgeError>(s@),
            Err(e) => c_string_at(mem@, offset as int) == Err::<Seq<char>, BridgeError>(e),
        },
{
    let end = match find_terminator(mem, offset) {
        Some(end) => end,
        None => {
            return Err(BridgeError::OutOfBounds);
        },
    };
    proof {
        lemma_terminator_unique(mem@, offset as int, end as int);
    }
    let raw = match mem.read(offset, end - offset) {
        Ok(raw) => raw,
        Err(e) => {
            return Err(e);
        },
    };
    match core::str::from_utf8(raw) {
        Ok(s) => Ok(s.to_owned()),
        Err(_) => Err(BridgeError::InvalidEncoding),
    }
}

} // verus!
