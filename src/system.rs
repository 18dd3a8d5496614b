//! The host calls that read the host's clock and entropy.

use vstd::prelude::*;
use rand::RngCore;
use std::time::{SystemTime, UNIX_EPOCH};
use crate::memory::{fill_slice, in_bounds, splice};
use crate::trap::Trap;

verus! {

#[verifier::external_type_specification]
#[verifier::external_body]
pub struct ExSystemTime(SystemTime);

/// Relies on `SystemTime::now`: the current wall-clock time; nothing is known of it.
pub assume_specification[ SystemTime::now ]() -> SystemTime;

/// Relies on `SystemTime::duration_since(UNIX_EPOCH)`: whole seconds since the
/// epoch, or `None` for a time before it. Nothing more is known of the value.
#[verifier::external_body]
fn seconds_since_epoch(t: &SystemTime) -> Option<u64> {
    t.duration_since(UNIX_EPOCH).ok().map(|d| d.as_secs())
}

/// Relies on `rand::rng()` and `RngCore::fill_bytes`: `n` bytes from the
/// thread-local generator, which the operating system seeds.
#[verifier::external_body]
fn random_bytes(n: usize) -> (r: Vec<u8>)
    ensures
        r@.len() == n,
{
    let mut buf = vec![0u8; n];
    rand::rng().fill_bytes(&mut buf);
    buf
}

/// `get_unix_time`: seconds since the Unix epoch by the host's clock, or 0
/// where the clock reads earlier than the epoch.
pub fn get_unix_time() -> u64 {
    match seconds_since_epoch(&SystemTime::now()) {
        Some(secs) => secs,
        None => 0,
    }
}

/// `get_random_value`: fills the guest's `buf_len` bytes at `buf_ptr` with
/// random bytes; the rest of its memory is left as it was.
pub fn get_random_value(mem: &mut [u8], buf_ptr: i32, buf_len: u32) -> (r: Result<(), Trap>)
    ensures
        r is Ok <==> in_bounds(old(mem)@.len() as int, buf_ptr as int, buf_len as int),
        r is Ok ==> exists|data: Seq<u8>|
            data.len() == buf_len && #[trigger] splice(old(mem)@, buf_ptr as int, data) == final(mem)@,
        r matches Err(t) ==> t == Trap::OutOfBounds && final(mem)@ == old(mem)@,
{
    if buf_ptr < 0 || buf_len as usize > mem.len() || buf_ptr as usize > mem.len() - buf_len as usize {
        return Err(Trap::OutOfBounds);
    }
    let data = random_bytes(buf_len as usize);
    fill_slice(mem, buf_ptr as usize, data.as_slice());
    Ok(())
}

} // verus!
