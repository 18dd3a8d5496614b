use ol_wasm_worker::dispatch::{
    complete_call, parse_route, split_path, status_response, unknown_function_response,
    unsupported_request_response, CallOutcome, Route,
};
use ol_wasm_worker::pool::{Acquired, InstanceHandle, InstancePool};
use ol_wasm_worker::registry::FunctionManager;

#[test]
fn path_segments_skip_empty_pieces() {
    assert_eq!(split_path("//run///echo/"), vec!["run".to_string(), "echo".to_string()]);
    assert_eq!(split_path(""), Vec::<String>::new());
    assert_eq!(split_path("/"), Vec::<String>::new());
    assert_eq!(split_path("status"), vec!["status".to_string()]);
}

#[test]
fn routes() {
    assert_eq!(parse_route("POST", "/run/echo"), Route::Run("echo".to_string()));
    assert_eq!(parse_route("GET", "/status"), Route::Status);
    assert_eq!(parse_route("GET", "/run/echo"), Route::Unsupported);
    assert_eq!(parse_route("POST", "/run"), Route::Unsupported);
    assert_eq!(parse_route("POST", "/run/a/b"), Route::Unsupported);
    assert_eq!(parse_route("POST", "/status"), Route::Unsupported);
}

#[test]
fn unknown_function_is_a_server_error() {
    let registry: FunctionManager<u32> = FunctionManager::new();
    assert!(matches!(parse_route("POST", "/run/does_not_exist"), Route::Run(_)));
    assert_eq!(registry.get_function("does_not_exist"), None);
    let r = unknown_function_response();
    assert_eq!(r.status, 500);
    assert!(r.body.is_empty());
}

#[test]
fn fixed_responses() {
    let s = status_response();
    assert_eq!((s.status, s.body.len()), (200, 0));
    let u = unsupported_request_response();
    assert_eq!((u.status, u.body.len()), (400, 0));
}

#[test]
fn empty_result_is_an_empty_ok_body() {
    let mut pool: InstancePool<()> = InstancePool::new();
    let h = match pool.acquire() {
        Acquired::Mint(t) => InstanceHandle::new(t, ()),
        Acquired::Warm(h) => h,
    };
    let r = complete_call(&mut pool, h, CallOutcome::Completed, None);
    assert_eq!(r.status, 200);
    assert!(r.body.is_empty());
    assert_eq!(pool.len(), 1);
}
