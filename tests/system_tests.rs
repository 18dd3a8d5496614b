use ol_wasm_worker::system::{get_random_value, get_unix_time};
use ol_wasm_worker::trap::Trap;

#[test]
fn unix_time_is_recent() {
    assert!(get_unix_time() > 1_600_000_000);
}

#[test]
fn random_value_fills_only_the_buffer() {
    let mut mem = vec![0u8; 4096];
    assert_eq!(get_random_value(&mut mem, 8, 1024), Ok(()));
    assert!(mem[..8].iter().all(|b| *b == 0));
    assert!(mem[8 + 1024..].iter().all(|b| *b == 0));
    assert!(mem[8..8 + 1024].iter().any(|b| *b != 0));
    assert_eq!(get_random_value(&mut mem, 4000, 200), Err(Trap::OutOfBounds));
}
