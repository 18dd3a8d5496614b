use ol_wasm_worker::memory::{check_allocation, deliver_buffer, fill_slice, get_slice, get_str, set_u64};
use ol_wasm_worker::trap::Trap;

#[test]
fn get_slice_reads_in_bounds_only() {
    let mem = [1u8, 2, 3, 4, 5];
    assert_eq!(get_slice(&mem, 1, 3), Ok(&mem[1..4]));
    assert_eq!(get_slice(&mem, 5, 0), Ok(&mem[5..5]));
    assert_eq!(get_slice(&mem, 3, 3), Err(Trap::OutOfBounds));
    assert_eq!(get_slice(&mem, -1, 1), Err(Trap::OutOfBounds));
    assert_eq!(get_slice(&mem, 0, u32::MAX), Err(Trap::OutOfBounds));
}

#[test]
fn get_str_checks_utf8() {
    let mem = [b'x', b'o', b'k', 0xff, 0xfe];
    assert_eq!(get_str(&mem, 1, 2), Ok("ok"));
    assert_eq!(get_str(&mem, 3, 2), Err(Trap::InvalidUtf8));
    assert_eq!(get_str(&mem, 4, 2), Err(Trap::OutOfBounds));
}

#[test]
fn set_u64_is_little_endian() {
    let mut mem = [0u8; 10];
    assert_eq!(set_u64(&mut mem, 1, 0x0102030405060708), Ok(()));
    assert_eq!(mem, [0, 8, 7, 6, 5, 4, 3, 2, 1, 0]);
    assert_eq!(set_u64(&mut mem, 3, 1), Err(Trap::OutOfBounds));
    assert_eq!(mem, [0, 8, 7, 6, 5, 4, 3, 2, 1, 0]);
}

#[test]
fn fill_slice_writes_only_the_region() {
    let mut mem = [0u8; 6];
    fill_slice(&mut mem, 2, &[9, 9, 9]);
    assert_eq!(mem, [0, 0, 9, 9, 9, 0]);
}

#[test]
fn allocation_checks() {
    assert_eq!(check_allocation(-1, 4, 100), Err(Trap::AllocationFailed));
    assert_eq!(check_allocation(97, 4, 100), Err(Trap::InvalidPointer));
    assert_eq!(check_allocation(96, 4, 100), Ok(96));
    assert_eq!(check_allocation(0, 0, 0), Ok(0));
}

#[test]
fn deliver_buffer_writes_payload_and_length() {
    let mut mem = vec![0u8; 32];
    assert_eq!(deliver_buffer(&mut mem, 16, &[5, 6, 7], 0), Ok(16));
    assert_eq!(&mem[0..8], &[3, 0, 0, 0, 0, 0, 0, 0]);
    assert_eq!(&mem[16..19], &[5, 6, 7]);
}

#[test]
fn deliver_buffer_traps_without_writing() {
    let mut mem = vec![0u8; 16];
    assert_eq!(deliver_buffer(&mut mem, -4, &[1], 0), Err(Trap::AllocationFailed));
    assert_eq!(deliver_buffer(&mut mem, 15, &[1, 2], 0), Err(Trap::InvalidPointer));
    assert_eq!(deliver_buffer(&mut mem, 0, &[1], 9), Err(Trap::OutOfBounds));
    assert_eq!(mem, vec![0u8; 16]);
}
