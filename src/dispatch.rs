//! The request dispatcher's decisions: which route a request takes, and the
//! response for it.

use vstd::prelude::*;
use vstd::utf8::encode_utf8;
use crate::memory::{in_bounds, region};
use crate::pool::{InstanceHandle, InstancePool, MAX_IDLE_INSTANCES};

verus! {

/// The non-empty pieces of `p` between `/`, scanned from index `i` with the
/// current piece starting at `start` and the pieces found so far in `acc`.
pub open spec fn segments_from(p: Seq<char>, start: int, i: int, acc: Seq<Seq<char>>) -> Seq<Seq<char>>
    decreases p.len() - i,
{
    if i >= p.len() {
        if i > start {
            acc.push(p.subrange(start, i))
        } else {
            acc
        }
    } else if p[i] == '/' {
        segments_from(p, i + 1, i + 1, if i > start { acc.push(p.subrange(start, i)) } else { acc })
    } else {
        segments_from(p, start, i + 1, acc)
    }
}

/// The non-empty pieces of a request path between `/`, in order.
pub open spec fn path_segments(p: Seq<char>) -> Seq<Seq<char>> {
    segments_from(p, 0, 0, Seq::empty())
}

/// The non-empty pieces of `path` between `/`.
pub fn split_path(path: &str) -> (r: Vec<String>)
    ensures
        r@.map_values(|s: String| s@) == path_segments(path@),
{
    let n = path.unicode_len();
    let mut acc: Vec<String> = Vec::new();
    let mut start: usize = 0;
    let mut i: usize = 0;
    assert(acc@.map_values(|s: String| s@) =~= Seq::<Seq<char>>::empty());
    while i < n
        invariant
            n == path@.len(),
            start <= i <= n,
            path_segments(path@) == segments_from(
                path@,
                start as int,
                i as int,
                acc@.map_values(|s: String| s@),
            ),
        decreases n - i,
    {
        if path.get_char(i) == '/' {
            if i > start {
                let ghost before = acc@.map_values(|s: String| s@);
                let piece: String = path.substring_char(start, i).to_owned();
                acc.push(piece);
                assert(acc@.map_values(|s: String| s@) =~= before.push(path@.subrange(start as int, i as int)));
            }
            i = i + 1;
            start = i;
        } else {
            i = i + 1;
        }
    }
    if n > start {
        let ghost before = acc@.map_values(|s: String| s@);
        let piece: String = path.substring_char(start, n).to_owned();
        acc.push(piece);
        assert(acc@.map_values(|s: String| s@) =~= before.push(path@.subrange(start as int, n as int)));
    }
    acc
}

/// Where a request goes.
#[derive(Debug, PartialEq, Eq)]
pub enum Route {
    /// `POST /run/<name>`.
    Run(String),
    /// `GET /status`.
    Status,
    /// Any other method or path: a client error.
    Unsupported,
}

/// Routes a request by its method and path.
pub fn parse_route(method: &str, path: &str) -> (r: Route)
    ensures
        ({
            let segs = path_segments(path@);
            if method@ == "POST"@ && segs.len() == 2 && segs[0] == "run"@ {
                r matches Route::Run(name) && name@ == segs[1]
            } else if method@ == "GET"@ && segs.len() == 1 && segs[0] == "status"@ {
                r == Route::Status
            } else {
                r == Route::Unsupported
            }
        }),
{
    let mut segs = split_path(path);
    let m: String = method.to_owned();
    let post: String = "POST".to_owned();
    let get: String = "GET".to_owned();
    let run: String = "run".to_owned();
    let status: String = "status".to_owned();
    let ghost view = segs@.map_values(|s: String| s@);
    if m == post && segs.len() == 2 && segs[0] == run {
        assert(view[0] == segs@[0]@);
        let name = segs.pop().unwrap();
        assert(view[1] == name@);
        Route::Run(name)
    } else if m == get && segs.len() == 1 && segs[0] == status {
        Route::Status
    } else {
        proof {
            if segs@.len() == 2 {
                assert(view[0] == segs@[0]@);
            }
            if segs@.len() == 1 {
                assert(view[0] == segs@[0]@);
            }
        }
        Route::Unsupported
    }
}

/// A response: status code and body.
pub struct HttpResponse {
    pub status: u16,
    pub body: Vec<u8>,
}

/// How the guest's entry point ended.
pub enum CallOutcome {
    /// It returned normally.
    Completed,
    /// It trapped, with this root cause.
    Trapped(String),
}

/// The body of a completed call: the result the guest set, or nothing.
pub open spec fn completed_body(result: Option<Seq<u8>>) -> Seq<u8> {
    match result {
        Some(b) => b,
        None => Seq::empty(),
    }
}

pub open spec fn option_view(result: Option<Vec<u8>>) -> Option<Seq<u8>> {
    match result {
        Some(b) => Some(b@),
        None => None,
    }
}

/// `GET /status`: 200 with an empty body.
pub fn status_response() -> (r: HttpResponse)
    ensures
        r.status == 200,
        r.body@.len() == 0,
{
    HttpResponse { status: 200, body: Vec::new() }
}

/// A request naming no published function: 500.
pub fn unknown_function_response() -> (r: HttpResponse)
    ensures
        r.status == 500,
        r.body@.len() == 0,
{
    HttpResponse { status: 500, body: Vec::new() }
}

/// A request on no route: 400.
pub fn unsupported_request_response() -> (r: HttpResponse)
    ensures
        r.status == 400,
        r.body@.len() == 0,
{
    HttpResponse { status: 400, body: Vec::new() }
}

/// Ends a call: on completion the instance goes back to the pool and the
/// response is 200 with the guest's result (empty when it set none); on a
/// trap the instance is discarded and the response is 500 with the trap's
/// root cause.
pub fn complete_call<T>(pool: &mut InstancePool<T>, handle: InstanceHandle<T>, outcome: CallOutcome, result: Option<Vec<u8>>) -> (r: HttpResponse)
    requires
        old(pool).wf(),
        old(pool).in_flight().contains(handle.id()),
    ensures
        final(pool).wf(),
        final(pool).in_flight() == old(pool).in_flight().remove(handle.id()),
        final(pool).next_id() == old(pool).next_id(),
        match outcome {
            CallOutcome::Completed => {
                &&& r.status == 200
                &&& r.body@ == completed_body(option_view(result))
                &&& old(pool).idle_ids().len() < MAX_IDLE_INSTANCES ==> final(pool).idle_ids()
                    == old(pool).idle_ids().push(handle.id()) && final(pool).retired() == old(
                    pool,
                ).retired()
                &&& old(pool).idle_ids().len() >= MAX_IDLE_INSTANCES ==> final(pool).idle_ids()
                    == old(pool).idle_ids() && final(pool).retired() == old(
                    pool,
                ).retired().insert(handle.id())
            },
            CallOutcome::Trapped(msg) => {
                &&& r.status == 500
                &&& r.body@ == encode_utf8(msg@)
                &&& final(pool).idle_ids() == old(pool).idle_ids()
                &&& final(pool).retired() == old(pool).retired().insert(handle.id())
            },
        },
{
    match outcome {
        CallOutcome::Completed => {
            handle.mark_idle(pool);
            let body = match result {
                Some(b) => b,
                None => Vec::new(),
            };
            HttpResponse { status: 200, body }
        },
        CallOutcome::Trapped(msg) => {
            handle.discard(pool);
            HttpResponse { status: 500, body: vstd::slice::slice_to_vec(msg.as_str().as_bytes()) }
        },
    }
}

/// The body of a successful `POST /run/<name>` is exactly the bytes the guest
/// passed to `set_result` (the region its result handle then holds), or empty
/// when the guest did not call it.
pub proof fn lemma_completed_body_is_result(mem: Seq<u8>, buf_ptr: i32, buf_len: u32)
    requires
        in_bounds(mem.len() as int, buf_ptr as int, buf_len as int),
    ensures
        completed_body(Some(region(mem, buf_ptr as int, buf_len as int))) == region(
            mem,
            buf_ptr as int,
            buf_len as int,
        ),
        completed_body(None) == Seq::<u8>::empty(),
{
}

} // verus!
