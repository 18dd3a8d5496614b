use ol_wasm_worker::bindings::{log_message, reply_payload, ArgsData, ArgsRequest, BindingsData, ConfigData};
use ol_wasm_worker::result_handle::ResultHandle;
use ol_wasm_worker::trap::Trap;
use ol_wasm_worker::wire::{decode_call_result, encode_call_result, encode_string};

fn args_data(args: &[u8]) -> ArgsData {
    ArgsData::new(args.to_vec(), ResultHandle::new())
}

#[test]
fn empty_args_give_the_zero_sentinel() {
    let data = args_data(&[]);
    assert_eq!(data.get_args_request(), Ok(ArgsRequest::Empty));
    let mut mem = vec![0xaau8; 16];
    assert_eq!(data.get_args(&mut mem, 1234, 4), Ok(0));
    assert_eq!(&mem[4..12], &[0u8; 8]);
}

#[test]
fn get_args_twice_gives_identical_bytes() {
    let data = args_data(&[1, 2, 3]);
    assert_eq!(data.get_args_request(), Ok(ArgsRequest::Allocate(3)));
    let mut mem = vec![0u8; 64];
    let first = data.get_args(&mut mem, 16, 0).unwrap();
    let second = data.get_args(&mut mem, 40, 8).unwrap();
    assert_eq!(&mem[first as usize..first as usize + 3], &[1, 2, 3]);
    assert_eq!(&mem[second as usize..second as usize + 3], &[1, 2, 3]);
    assert_eq!(&mem[0..8], &mem[8..16]);
}

#[test]
fn get_args_after_memory_growth() {
    let data = args_data(&[4, 5, 6, 7]);
    let mut mem = vec![0u8; 16];
    // The buffer lies beyond the first 16 bytes: only the grown memory holds it.
    assert_eq!(data.get_args(&mut mem, 20, 0), Err(Trap::InvalidPointer));
    mem.resize(64, 0);
    assert_eq!(data.get_args(&mut mem, 20, 0), Ok(20));
    assert_eq!(&mem[20..24], &[4, 5, 6, 7]);
    assert_eq!(&mem[0..8], &[4, 0, 0, 0, 0, 0, 0, 0]);
}

#[test]
fn get_args_traps_on_bad_allocation() {
    let data = args_data(&[1]);
    let mut mem = vec![0u8; 16];
    assert_eq!(data.get_args(&mut mem, -1, 0), Err(Trap::AllocationFailed));
}

#[test]
fn second_set_result_traps() {
    let mut data = args_data(&[]);
    let mem = [10u8, 20, 30, 40];
    assert_eq!(data.set_result(&mem, 1, 2), Ok(()));
    assert_eq!(data.set_result(&mem, 0, 1), Err(Trap::ResultAlreadySet));
    assert_eq!(data.take_result(), Some(vec![20, 30]));
    assert_eq!(data.take_result(), None);
}

#[test]
fn set_result_out_of_bounds_traps() {
    let mut data = args_data(&[]);
    assert_eq!(data.set_result(&[1, 2], 1, 2), Err(Trap::OutOfBounds));
    assert_eq!(data.take_result(), None);
}

#[test]
fn echo_result_is_the_arguments() {
    let mut data = args_data(&[1, 2, 3]);
    let mut mem = vec![0u8; 32];
    let off = data.get_args(&mut mem, 8, 0).unwrap();
    assert_eq!(data.set_result(&mem, off as i32, 3), Ok(()));
    assert_eq!(data.take_result(), Some(vec![1, 2, 3]));
}

#[test]
fn config_lookup_last_value_wins() {
    let config = ConfigData::new(vec![
        ("a".to_string(), "1".to_string()),
        ("b".to_string(), "2".to_string()),
        ("a".to_string(), "3".to_string()),
    ]);
    assert_eq!(config.lookup("a"), Some(&"3".to_string()));
    assert_eq!(config.lookup("b"), Some(&"2".to_string()));
    assert_eq!(config.lookup("c"), None);
}

#[test]
fn get_config_value_envelopes() {
    let config = ConfigData::new(vec![("key".to_string(), "value".to_string())]);
    let mem = b"keymissing";
    let found = config.get_config_value(mem, 0, 3).unwrap();
    let inner = encode_string(&"value".to_string());
    assert_eq!(found, encode_call_result(Ok(inner)));
    let missing = config.get_config_value(mem, 3, 7).unwrap();
    assert_eq!(decode_call_result(&missing), Some(Err("No such config value".to_string())));
    assert_eq!(config.get_config_value(mem, 8, 7), Err(Trap::OutOfBounds));
    assert_eq!(config.get_config_value(&[0xff], 0, 1), Err(Trap::InvalidUtf8));
}

#[test]
fn reply_payload_is_the_envelope() {
    assert_eq!(reply_payload(Ok(vec![1])), Ok(vec![0, 0, 0, 0, 1, 0, 0, 0, 0, 0, 0, 0, 1]));
}

#[test]
fn log_lines_are_prefixed() {
    assert_eq!(log_message(b"xhello", 1, 5), Ok("Program: hello".to_string()));
    assert_eq!(log_message(b"x", 1, 5), Err(Trap::OutOfBounds));
}

#[test]
fn refit_replaces_args_and_clears_result() {
    let mut data = BindingsData::new(
        "127.0.0.1:5000".to_string(),
        vec![("k".to_string(), "v".to_string())],
        vec![1],
        ResultHandle::new(),
    );
    assert_eq!(data.args.set_result(&[7], 0, 1), Ok(()));
    data.refit(vec![2, 3]);
    assert_eq!(data.args.args(), &vec![2, 3]);
    assert_eq!(data.args.take_result(), None);
    assert_eq!(data.ipc.addr(), "127.0.0.1:5000");
    assert_eq!(data.config.lookup("k"), Some(&"v".to_string()));
}

#[test]
fn result_handle_is_single_assignment() {
    let mut h = ResultHandle::new();
    assert!(!h.is_set());
    assert_eq!(h.set(vec![1]), Ok(()));
    assert!(h.is_set());
    assert_eq!(h.set(vec![2]), Err(Trap::ResultAlreadySet));
    assert_eq!(h.take(), Some(vec![1]));
}
