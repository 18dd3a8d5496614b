use ol_wasm_worker::bindings::IpcData;
use ol_wasm_worker::ipc::{call_result_of_response, http_get, http_post, run_path, HttpMethod, HttpReply};
use ol_wasm_worker::trap::Trap;
use ol_wasm_worker::wire::{decode_call_result, encode_call_result};

#[test]
fn function_call_targets_own_worker() {
    let ipc = IpcData::new("localhost:5000".to_string());
    let mem = b"innerARGS";
    let req = ipc.function_call(mem, 0, 5, 5, 4).unwrap();
    assert_eq!(req.method, HttpMethod::Post);
    assert_eq!(req.addr, "localhost:5000");
    assert_eq!(req.path, "/run/inner");
    assert_eq!(req.body, b"ARGS".to_vec());
    assert!(matches!(ipc.function_call(mem, 0, 5, 6, 4), Err(Trap::OutOfBounds)));
}

#[test]
fn self_call_result_reaches_the_guest() {
    let reply = HttpReply { status: 200, body: b"hello".to_vec() };
    let result = call_result_of_response(Ok(reply));
    assert_eq!(result, Ok(b"hello".to_vec()));
    let bytes = encode_call_result(result);
    assert_eq!(decode_call_result(&bytes), Some(Ok(b"hello".to_vec())));
}

#[test]
fn http_post_and_get_read_target() {
    let mem = b"example.com:80/path{}";
    let post = http_post(mem, 0, 14, 14, 5, 19, 2).unwrap();
    assert_eq!(post.method, HttpMethod::Post);
    assert_eq!(post.addr, "example.com:80");
    assert_eq!(post.path, "/path");
    assert_eq!(post.body, b"{}".to_vec());
    let get = http_get(mem, 0, 14, 14, 5).unwrap();
    assert_eq!(get.method, HttpMethod::Get);
    assert_eq!(get.path, "/path");
    assert!(get.body.is_empty());
}

#[test]
fn http_path_must_begin_with_slash() {
    let mem = b"hostpath";
    assert!(matches!(http_get(mem, 0, 4, 4, 4), Err(Trap::InvalidPath)));
    assert!(matches!(http_get(mem, 0, 4, 4, 0), Err(Trap::InvalidPath)));
    assert!(matches!(http_post(mem, 0, 4, 4, 9, 0, 0), Err(Trap::OutOfBounds)));
}

#[test]
fn responses_map_to_envelopes() {
    assert_eq!(
        call_result_of_response(Ok(HttpReply { status: 204, body: vec![] })),
        Ok(vec![])
    );
    assert_eq!(
        call_result_of_response(Ok(HttpReply { status: 500, body: b"boom".to_vec() })),
        Err("HTTP request failed with status 500".to_string())
    );
    assert_eq!(
        call_result_of_response(Err("connection refused".to_string())),
        Err("connection refused".to_string())
    );
}

#[test]
fn run_path_prefixes_name() {
    assert_eq!(run_path("echo"), "/run/echo");
}

#[test]
fn failed_status_is_named_in_message() {
    assert_eq!(
        call_result_of_response(Ok(HttpReply { status: 404, body: vec![] })),
        Err("HTTP request failed with status 404".to_string())
    );
    assert_eq!(
        call_result_of_response(Ok(HttpReply { status: 199, body: vec![] })),
        Err("HTTP request failed with status 199".to_string())
    );
    assert_eq!(
        call_result_of_response(Ok(HttpReply { status: 299, body: vec![1] })),
        Ok(vec![1])
    );
}
