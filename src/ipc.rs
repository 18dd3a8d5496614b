//! The `ol_ipc` host calls: outbound HTTP requests made for a guest, and the
//! envelope their responses become.

use vstd::prelude::*;
use crate::bindings::IpcData;
use crate::memory::{get_slice, get_str, in_bounds, region, str_at};
use crate::text::{decimal, decimal_string};
use crate::trap::Trap;
use crate::wire::CallResult;

verus! {

#[derive(Debug, Clone, Copy, PartialEq, Eq, Structural)]
pub enum HttpMethod {
    Get,
    Post,
}

/// An HTTP request the host makes on a guest's behalf.
pub struct OutboundRequest {
    pub method: HttpMethod,
    /// `host:port` to connect to.
    pub addr: String,
    /// Request target, beginning with `/`.
    pub path: String,
    pub body: Vec<u8>,
}

/// A response as the IPC client collected it.
pub struct HttpReply {
    pub status: u16,
    pub body: Vec<u8>,
}

/// The path that runs function `name` on a worker.
pub open spec fn run_path_of(name: Seq<char>) -> Seq<char> {
    "/run/"@ + name
}

/// A path an outbound request may use.
pub open spec fn valid_request_path(p: Seq<char>) -> bool {
    p.len() > 0 && p[0] == '/'
}

/// The message for a response whose status is not 2xx.
pub open spec fn status_failure_message(status: u16) -> Seq<char> {
    "HTTP request failed with status "@ + decimal(status as nat)
}

/// The target of `http_post` / `http_get`: address and path strings read from
/// the guest, in that order; the path must begin with `/`.
pub open spec fn target_at(m: Seq<u8>, addr_ptr: i32, addr_len: u32, path_ptr: i32, path_len: u32) -> Result<(Seq<char>, Seq<char>), Trap> {
    match str_at(m, addr_ptr as int, addr_len as int) {
        Err(t) => Err(t),
        Ok(a) => match str_at(m, path_ptr as int, path_len as int) {
            Err(t) => Err(t),
            Ok(p) => if valid_request_path(p) {
                Ok((a, p))
            } else {
                Err(Trap::InvalidPath)
            },
        },
    }
}

/// `/run/<name>`.
pub fn run_path(name: &str) -> (r: String)
    ensures
        r@ == run_path_of(name@),
{
    let base: String = "/run/".to_owned();
    base.concat(name)
}

fn starts_with_slash(p: &str) -> (r: bool)
    ensures
        r == valid_request_path(p@),
{
    p.unicode_len() > 0 && p.get_char(0) == '/'
}

fn read_target<'a>(mem: &'a [u8], addr_ptr: i32, addr_len: u32, path_ptr: i32, path_len: u32) -> (r: Result<(&'a str, &'a str), Trap>)
    ensures
        match target_at(mem@, addr_ptr, addr_len, path_ptr, path_len) {
            Ok((a, p)) => r matches Ok((x, y)) && x@ == a && y@ == p,
            Err(t) => r == Err::<(&str, &str), Trap>(t),
        },
{
    let addr = get_str(mem, addr_ptr, addr_len)?;
    let path = get_str(mem, path_ptr, path_len)?;
    if !starts_with_slash(path) {
        return Err(Trap::InvalidPath);
    }
    Ok((addr, path))
}

impl IpcData {
    /// `function_call`: a POST of the guest's argument bytes to `/run/<name>`
    /// on this worker's own address.
    pub fn function_call(&self, mem: &[u8], name_ptr: i32, name_len: u32, args_ptr: i32, args_len: u32) -> (r: Result<OutboundRequest, Trap>)
        ensures
            match str_at(mem@, name_ptr as int, name_len as int) {
                Err(t) => r == Err::<OutboundRequest, Trap>(t),
                Ok(name) => if in_bounds(mem@.len() as int, args_ptr as int, args_len as int) {
                    r matches Ok(q) && q.method == HttpMethod::Post && q.addr@ == self.addr_view()
                        && q.path@ == run_path_of(name) && q.body@ == region(
                        mem@,
                        args_ptr as int,
                        args_len as int,
                    )
                } else {
                    r == Err::<OutboundRequest, Trap>(Trap::OutOfBounds)
                },
            },
    {
        let name = get_str(mem, name_ptr, name_len)?;
        let args = get_slice(mem, args_ptr, args_len)?;
        Ok(OutboundRequest {
            method: HttpMethod::Post,
            addr: self.addr().clone(),
            path: run_path(name),
            body: vstd::slice::slice_to_vec(args),
        })
    }
}

/// `http_post`: a POST of the guest's body bytes to an address and path the
/// guest names.
pub fn http_post(mem: &[u8], addr_ptr: i32, addr_len: u32, path_ptr: i32, path_len: u32, body_ptr: i32, body_len: u32) -> (r: Result<OutboundRequest, Trap>)
    ensures
        match target_at(mem@, addr_ptr, addr_len, path_ptr, path_len) {
            Err(t) => r == Err::<OutboundRequest, Trap>(t),
            Ok((a, p)) => if in_bounds(mem@.len() as int, body_ptr as int, body_len as int) {
                r matches Ok(q) && q.method == HttpMethod::Post && q.addr@ == a && q.path@ == p
                    && q.body@ == region(mem@, body_ptr as int, body_len as int)
            } else {
                r == Err::<OutboundRequest, Trap>(Trap::OutOfBounds)
            },
        },
{
    let (addr, path) = read_target(mem, addr_ptr, addr_len, path_ptr, path_len)?;
    let body = get_slice(mem, body_ptr, body_len)?;
    Ok(OutboundRequest {
        method: HttpMethod::Post,
        addr: addr.to_owned(),
        path: path.to_owned(),
        body: vstd::slice::slice_to_vec(body),
    })
}

/// `http_get`: a GET of an address and path the guest names.
pub fn http_get(mem: &[u8], addr_ptr: i32, addr_len: u32, path_ptr: i32, path_len: u32) -> (r: Result<OutboundRequest, Trap>)
    ensures
        match target_at(mem@, addr_ptr, addr_len, path_ptr, path_len) {
            Err(t) => r == Err::<OutboundRequest, Trap>(t),
            Ok((a, p)) => r matches Ok(q) && q.method == HttpMethod::Get && q.addr@ == a
                && q.path@ == p && q.body@.len() == 0,
        },
{
    let (addr, path) = read_target(mem, addr_ptr, addr_len, path_ptr, path_len)?;
    Ok(OutboundRequest {
        method: HttpMethod::Get,
        addr: addr.to_owned(),
        path: path.to_owned(),
        body: Vec::new(),
    })
}

/// The envelope for an outbound call: the body of a 2xx response; otherwise
/// the transport error's message, or a message naming the failed status.
pub fn call_result_of_response(response: Result<HttpReply, String>) -> (r: CallResult)
    ensures
        match response {
            Ok(reply) => if 200 <= reply.status < 300 {
                r matches Ok(b) && b@ == reply.body@
            } else {
                r matches Err(m) && m@ == status_failure_message(reply.status)
            },
            Err(msg) => r matches Err(m) && m@ == msg@,
        },
{
    match response {
        Ok(reply) => if 200 <= reply.status && reply.status < 300 {
            Ok(reply.body)
        } else {
            let prefix: String = "HTTP request failed with status ".to_owned();
            Err(prefix.concat(decimal_string(reply.status).as_str()))
        },
        Err(msg) => Err(msg),
    }
}

} // verus!
