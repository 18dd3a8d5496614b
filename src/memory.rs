//! Reading and writing a guest's linear memory, handed over as a byte slice.
//!
//! A slice is taken afresh for every access: memory may grow (and move) while a
//! guest is suspended, so no view of it outlives a suspension.

use vstd::prelude::*;
use vstd::slice::slice_subrange;
use vstd::utf8::{decode_utf8, valid_utf8};
use crate::trap::Trap;
use crate::wire::le_bytes_u64;

verus! {

/// `len` bytes at `offset` lie inside a memory of `mem_len` bytes.
pub open spec fn in_bounds(mem_len: int, offset: int, len: int) -> bool {
    0 <= offset && 0 <= len && offset + len <= mem_len
}

/// `m` with the bytes at `offset` replaced by `data`.
pub open spec fn splice(m: Seq<u8>, offset: int, data: Seq<u8>) -> Seq<u8> {
    m.subrange(0, offset) + data + m.subrange(offset + data.len(), m.len() as int)
}

/// The `len` bytes at `offset`.
pub open spec fn region(m: Seq<u8>, offset: int, len: int) -> Seq<u8> {
    m.subrange(offset, offset + len)
}

/// The guest's string of `len` bytes at `offset`, or the trap for reading it.
pub open spec fn str_at(m: Seq<u8>, offset: int, len: int) -> Result<Seq<char>, Trap> {
    if !in_bounds(m.len() as int, offset, len) {
        Err(Trap::OutOfBounds)
    } else if !valid_utf8(region(m, offset, len)) {
        Err(Trap::InvalidUtf8)
    } else {
        Ok(decode_utf8(region(m, offset, len)))
    }
}

/// Relies on `std::str::from_utf8`: a string exactly when the bytes are UTF-8,
/// holding the characters they encode.
#[verifier::external_body]
fn utf8_str(bytes: &[u8]) -> (r: Option<&str>)
    ensures
        r is Some <==> valid_utf8(bytes@),
        r matches Some(s) ==> s@ == decode_utf8(bytes@),
{
    std::str::from_utf8(bytes).ok()
}

/// The guest's `len` bytes at `offset`.
pub fn get_slice<'a>(mem: &'a [u8], offset: i32, len: u32) -> (r: Result<&'a [u8], Trap>)
    ensures
        r is Ok <==> in_bounds(mem@.len() as int, offset as int, len as int),
        r matches Ok(s) ==> s@ == region(mem@, offset as int, len as int),
        r matches Err(t) ==> t == Trap::OutOfBounds,
{
    if offset < 0 {
        return Err(Trap::OutOfBounds);
    }
    let start = offset as usize;
    let n = len as usize;
    if n > mem.len() || start > mem.len() - n {
        return Err(Trap::OutOfBounds);
    }
    Ok(slice_subrange(mem, start, start + n))
}

/// The guest's string of `len` bytes at `offset`.
pub fn get_str<'a>(mem: &'a [u8], offset: i32, len: u32) -> (r: Result<&'a str, Trap>)
    ensures
        match str_at(mem@, offset as int, len as int) {
            Ok(s) => r matches Ok(x) && x@ == s,
            Err(t) => r == Err::<&str, Trap>(t),
        },
{
    let bytes = get_slice(mem, offset, len)?;
    match utf8_str(bytes) {
        Some(s) => Ok(s),
        None => Err(Trap::InvalidUtf8),
    }
}

/// Copies `data` into the guest's memory at `offset`.
pub fn fill_slice(mem: &mut [u8], offset: usize, data: &[u8])
    requires
        in_bounds(old(mem)@.len() as int, offset as int, data@.len() as int),
    ensures
        final(mem)@ == splice(old(mem)@, offset as int, data@),
{
    let n = data.len();
    let total = mem.len();
    let mut i: usize = 0;
    while i < n
        invariant
            n == data@.len(),
            total == old(mem)@.len(),
            i <= n,
            in_bounds(old(mem)@.len() as int, offset as int, n as int),
            mem@.len() == old(mem)@.len(),
            forall|k: int| 0 <= k < offset ==> mem@[k] == old(mem)@[k],
            forall|k: int| 0 <= k < i ==> mem@[offset + k] == data@[k],
            forall|k: int| offset + i <= k < mem@.len() ==> mem@[k] == old(mem)@[k],
        decreases n - i,
    {
        mem[offset + i] = data[i];
        i = i + 1;
    }
    assert(mem@ =~= splice(old(mem)@, offset as int, data@));
}

/// Stores `value` as eight little-endian bytes at the guest's `offset`.
pub fn set_u64(mem: &mut [u8], offset: i32, value: u64) -> (r: Result<(), Trap>)
    ensures
        r is Ok <==> in_bounds(old(mem)@.len() as int, offset as int, 8),
        r is Ok ==> final(mem)@ == splice(old(mem)@, offset as int, le_bytes_u64(value)),
        r matches Err(t) ==> t == Trap::OutOfBounds && final(mem)@ == old(mem)@,
{
    if offset < 0 || mem.len() < 8 || offset as usize > mem.len() - 8 {
        return Err(Trap::OutOfBounds);
    }
    let bytes: [u8; 8] = [
        value as u8,
        (value >> 8u64) as u8,
        (value >> 16u64) as u8,
        (value >> 24u64) as u8,
        (value >> 32u64) as u8,
        (value >> 40u64) as u8,
        (value >> 48u64) as u8,
        (value >> 56u64) as u8,
    ];
    assert(bytes@ =~= le_bytes_u64(value));
    fill_slice(mem, offset as usize, &bytes);
    Ok(())
}

/// The offset of a buffer of `size` bytes that the guest's allocator returned
/// as `returned`, once it is known to lie inside the guest's memory.
pub fn check_allocation(returned: i64, size: u32, mem_len: usize) -> (r: Result<usize, Trap>)
    ensures
        returned < 0 ==> r == Err::<usize, Trap>(Trap::AllocationFailed),
        returned >= 0 && returned + size > mem_len ==> r == Err::<usize, Trap>(
            Trap::InvalidPointer,
        ),
        returned >= 0 && returned + size <= mem_len ==> r == Ok::<usize, Trap>(
            returned as usize,
        ),
{
    if returned < 0 {
        return Err(Trap::AllocationFailed);
    }
    if size as usize > mem_len || returned as u64 > (mem_len - size as usize) as u64 {
        return Err(Trap::InvalidPointer);
    }
    Ok(returned as usize)
}

/// What handing `payload` to the guest does to memory `m`: the payload lands in
/// the buffer its allocator returned, then its length at `len_out`. `None`
/// where the guest traps; memory is then left as it was.
pub open spec fn delivered(m: Seq<u8>, returned: i64, payload: Seq<u8>, len_out: i32) -> Option<Seq<u8>> {
    if returned < 0 || !in_bounds(m.len() as int, returned as int, payload.len() as int) {
        None
    } else if !in_bounds(m.len() as int, len_out as int, 8) {
        None
    } else {
        Some(splice(splice(m, returned as int, payload), len_out as int, le_bytes_u64(payload.len() as u64)))
    }
}

/// Hands `payload` to the guest in the buffer its allocator returned as
/// `returned`, stores the length at `len_out`, and gives the offset that the
/// host call returns.
pub fn deliver_buffer(mem: &mut [u8], returned: i64, payload: &[u8], len_out: i32) -> (r: Result<i64, Trap>)
    requires
        payload@.len() <= u32::MAX,
    ensures
        match delivered(old(mem)@, returned, payload@, len_out) {
            Some(m) => r == Ok::<i64, Trap>(returned) && final(mem)@ == m,
            None => r is Err && final(mem)@ == old(mem)@,
        },
        returned < 0 ==> r == Err::<i64, Trap>(Trap::AllocationFailed),
{
    let n = payload.len();
    let offset = check_allocation(returned, n as u32, mem.len())?;
    if len_out < 0 || mem.len() < 8 || len_out as usize > mem.len() - 8 {
        return Err(Trap::OutOfBounds);
    }
    fill_slice(mem, offset, payload);
    let stored = set_u64(mem, len_out, n as u64);
    assert(stored is Ok);
    Ok(returned)
}

} // verus!
