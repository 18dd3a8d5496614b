//! Per-instance state threaded through every host call, and the host calls'
//! decisions over guest memory.
//!
//! A host call that needs a guest buffer runs in two steps: the host first asks
//! the guest's allocator for the buffer's size, then, with the memory as it is
//! after that call, hands the bytes over with `deliver_buffer`.

use vstd::prelude::*;
use vstd::utf8::{decode_utf8, valid_utf8};
use crate::memory::{deliver_buffer, delivered, get_slice, get_str, in_bounds, region, set_u64, splice};
use crate::result_handle::ResultHandle;
use crate::trap::Trap;
use crate::wire::{call_result_view, call_result_wire, encode_call_result, encode_string, le_bytes_u64, string_wire, CallResult};

verus! {

/// What the host does first for `get_args`.
#[derive(Debug, Clone, Copy, PartialEq, Eq, Structural)]
pub enum ArgsRequest {
    /// There are no arguments: no buffer is needed.
    Empty,
    /// Ask the guest's allocator for a buffer of this many bytes.
    Allocate(u32),
}

/// The outcome of a whole `get_args` call on memory `m`: the value returned to
/// the guest and the memory after it, or `None` where the guest traps. Empty
/// arguments return 0 and store the length 0.
pub open spec fn get_args_outcome(args: Seq<u8>, m: Seq<u8>, returned: i64, len_out: i32) -> Option<(i64, Seq<u8>)> {
    if args.len() == 0 {
        if in_bounds(m.len() as int, len_out as int, 8) {
            Some((0i64, splice(m, len_out as int, le_bytes_u64(0))))
        } else {
            None
        }
    } else {
        match delivered(m, returned, args, len_out) {
            Some(m2) => Some((returned, m2)),
            None => None,
        }
    }
}

/// A delivered buffer holds the payload at the returned offset and its length
/// at `len_out`, when the two do not overlap.
proof fn lemma_delivered_contents(m: Seq<u8>, returned: i64, payload: Seq<u8>, len_out: i32)
    requires
        delivered(m, returned, payload, len_out) is Some,
        len_out + 8 <= returned || returned + payload.len() <= len_out,
    ensures
        ({
            let m2 = delivered(m, returned, payload, len_out)->Some_0;
            &&& m2.len() == m.len()
            &&& region(m2, returned as int, payload.len() as int) == payload
            &&& region(m2, len_out as int, 8) == le_bytes_u64(payload.len() as u64)
        }),
{
    let m1 = splice(m, returned as int, payload);
    let m2 = splice(m1, len_out as int, le_bytes_u64(payload.len() as u64));
    assert(m1.len() == m.len());
    assert(region(m1, returned as int, payload.len() as int) =~= payload);
    assert(region(m2, len_out as int, 8) =~= le_bytes_u64(payload.len() as u64));
    assert(region(m2, returned as int, payload.len() as int) =~= region(
        m1,
        returned as int,
        payload.len() as int,
    ));
}

/// `get_args` without arguments returns 0 and stores the length 0: the guest
/// sees "no arguments", whatever its allocator would have returned.
pub proof fn lemma_no_args_sentinel(m: Seq<u8>, returned: i64, len_out: i32)
    requires
        in_bounds(m.len() as int, len_out as int, 8),
    ensures
        get_args_outcome(Seq::empty(), m, returned, len_out) matches Some((v, m2)) && v == 0
            && region(m2, len_out as int, 8) == le_bytes_u64(0),
{
    let m2 = splice(m, len_out as int, le_bytes_u64(0));
    assert(region(m2, len_out as int, 8) =~= le_bytes_u64(0));
}

/// Two `get_args` calls in one invocation give the guest identical bytes,
/// wherever its allocator puts the two buffers and however its memory changed
/// between the calls.
pub proof fn lemma_get_args_repeatable(
    args: Seq<u8>,
    m1: Seq<u8>,
    returned1: i64,
    len_out1: i32,
    m2: Seq<u8>,
    returned2: i64,
    len_out2: i32,
)
    requires
        get_args_outcome(args, m1, returned1, len_out1) is Some,
        get_args_outcome(args, m2, returned2, len_out2) is Some,
        len_out1 + 8 <= returned1 || returned1 + args.len() <= len_out1,
        len_out2 + 8 <= returned2 || returned2 + args.len() <= len_out2,
    ensures
        ({
            let (v1, n1) = get_args_outcome(args, m1, returned1, len_out1)->Some_0;
            let (v2, n2) = get_args_outcome(args, m2, returned2, len_out2)->Some_0;
            &&& region(n1, len_out1 as int, 8) == region(n2, len_out2 as int, 8)
            &&& args.len() > 0 ==> region(n1, v1 as int, args.len() as int) == region(
                n2,
                v2 as int,
                args.len() as int,
            )
            &&& args.len() == 0 ==> v1 == 0 && v2 == 0
        }),
{
    if args.len() == 0 {
        lemma_no_args_sentinel(m1, returned1, len_out1);
        lemma_no_args_sentinel(m2, returned2, len_out2);
    } else {
        lemma_delivered_contents(m1, returned1, args, len_out1);
        lemma_delivered_contents(m2, returned2, args, len_out2);
    }
}

/// `get_args` after the guest's memory grew (during an earlier suspended
/// call) still hands over the arguments intact: the buffer may lie past the
/// old end of memory, since delivery uses the memory as it is now.
pub proof fn lemma_get_args_after_growth(
    args: Seq<u8>,
    before: Seq<u8>,
    after: Seq<u8>,
    returned: i64,
    len_out: i32,
)
    requires
        args.len() > 0,
        after.len() >= before.len(),
        returned >= 0,
        returned + args.len() <= after.len(),
        in_bounds(after.len() as int, len_out as int, 8),
        len_out + 8 <= returned || returned + args.len() <= len_out,
    ensures
        get_args_outcome(args, after, returned, len_out) matches Some((v, m)) && v == returned
            && region(m, returned as int, args.len() as int) == args && region(m, len_out as int, 8)
            == le_bytes_u64(args.len() as u64),
{
    lemma_delivered_contents(after, returned, args, len_out);
}

/// The current invocation's arguments and the handle for its result.
pub struct ArgsData {
    args: Vec<u8>,
    result: ResultHandle,
}

impl ArgsData {
    pub fn new(args: Vec<u8>, result: ResultHandle) -> (r: Self)
        ensures
            r.args_view() == args@,
            r.result_view() == result@,
    {
        ArgsData { args, result }
    }

    pub closed spec fn args_view(&self) -> Seq<u8> {
        self.args@
    }

    pub closed spec fn result_view(&self) -> Option<Seq<u8>> {
        self.result@
    }

    /// Replaces the arguments, for a new invocation.
    pub fn set_args(&mut self, args: Vec<u8>)
        ensures
            final(self).args_view() == args@,
            final(self).result_view() == old(self).result_view(),
    {
        self.args = args;
    }

    /// Replaces the result handle, for a new invocation.
    pub fn set_result_handle(&mut self, new_hdl: ResultHandle)
        ensures
            final(self).result_view() == new_hdl@,
            final(self).args_view() == old(self).args_view(),
    {
        self.result = new_hdl;
    }

    /// The current arguments.
    pub fn args(&self) -> (r: &Vec<u8>)
        ensures
            r@ == self.args_view(),
    {
        &self.args
    }

    /// The result the guest set, leaving the handle empty.
    pub fn take_result(&mut self) -> (r: Option<Vec<u8>>)
        ensures
            match r {
                Some(v) => old(self).result_view() == Some(v@),
                None => old(self).result_view() is None,
            },
            final(self).result_view() is None,
            final(self).args_view() == old(self).args_view(),
    {
        self.result.take()
    }

    /// First step of `get_args`: whether a buffer is needed, and of what size.
    pub fn get_args_request(&self) -> (r: Result<ArgsRequest, Trap>)
        ensures
            self.args_view().len() == 0 ==> r == Ok::<ArgsRequest, Trap>(ArgsRequest::Empty),
            0 < self.args_view().len() <= u32::MAX ==> r == Ok::<ArgsRequest, Trap>(
                ArgsRequest::Allocate(self.args_view().len() as u32),
            ),
            self.args_view().len() > u32::MAX ==> r == Err::<ArgsRequest, Trap>(
                Trap::BufferTooLarge,
            ),
    {
        let n = self.args.len();
        if n == 0 {
            Ok(ArgsRequest::Empty)
        } else if n > u32::MAX as usize {
            Err(Trap::BufferTooLarge)
        } else {
            Ok(ArgsRequest::Allocate(n as u32))
        }
    }

    /// Second step of `get_args`: copies the arguments into the buffer the
    /// guest's allocator returned (or, without arguments, stores the length 0)
    /// and gives the value returned to the guest.
    pub fn get_args(&self, mem: &mut [u8], returned: i64, len_out: i32) -> (r: Result<i64, Trap>)
        requires
            self.args_view().len() <= u32::MAX,
        ensures
            match get_args_outcome(self.args_view(), old(mem)@, returned, len_out) {
                Some((v, m)) => r == Ok::<i64, Trap>(v) && final(mem)@ == m,
                None => r is Err && final(mem)@ == old(mem)@,
            },
    {
        if self.args.len() == 0 {
            set_u64(mem, len_out, 0)?;
            Ok(0)
        } else {
            deliver_buffer(mem, returned, self.args.as_slice(), len_out)
        }
    }

    /// `set_result`: records the guest's `buf_len` bytes at `buf_ptr` as the
    /// invocation's result. A second call in one invocation traps.
    pub fn set_result(&mut self, mem: &[u8], buf_ptr: i32, buf_len: u32) -> (r: Result<(), Trap>)
        ensures
            final(self).args_view() == old(self).args_view(),
            old(self).result_view() is Some ==> r == Err::<(), Trap>(Trap::ResultAlreadySet)
                && final(self).result_view() == old(self).result_view(),
            old(self).result_view() is None && !in_bounds(mem@.len() as int, buf_ptr as int, buf_len as int)
                ==> r == Err::<(), Trap>(Trap::OutOfBounds) && final(self).result_view() is None,
            old(self).result_view() is None && in_bounds(mem@.len() as int, buf_ptr as int, buf_len as int)
                ==> r is Ok && final(self).result_view() == Some(
                region(mem@, buf_ptr as int, buf_len as int),
            ),
    {
        if self.result.is_set() {
            return Err(Trap::ResultAlreadySet);
        }
        let bytes = get_slice(mem, buf_ptr, buf_len)?;
        let copy = vstd::slice::slice_to_vec(bytes);
        self.result.set(copy)
    }
}

/// The configuration lookup: the last value given for `key`, as a map built by
/// inserting the entries in order would hold it.
pub open spec fn config_lookup(entries: Seq<(Seq<char>, Seq<char>)>, key: Seq<char>) -> Option<Seq<char>>
    decreases entries.len(),
{
    if entries.len() == 0 {
        None
    } else if entries.last().0 == key {
        Some(entries.last().1)
    } else {
        config_lookup(entries.drop_last(), key)
    }
}

/// The message of the envelope for a key that has no value.
pub open spec fn missing_config_message() -> Seq<char> {
    "No such config value"@
}

/// The envelope `get_config_value` hands over for `key`: the value's wire
/// bytes, or the message for a missing key.
pub open spec fn config_reply(entries: Seq<(Seq<char>, Seq<char>)>, key: Seq<char>) -> Result<Seq<u8>, Seq<char>> {
    match config_lookup(entries, key) {
        Some(v) => Ok(string_wire(v)),
        None => Err(missing_config_message()),
    }
}

/// Immutable configuration values, shared by the instances of a function.
pub struct ConfigData {
    config_values: Vec<(String, String)>,
}

impl ConfigData {
    pub closed spec fn entries(&self) -> Seq<(Seq<char>, Seq<char>)> {
        self.config_values@.map_values(|p: (String, String)| (p.0@, p.1@))
    }

    /// Configuration made of `config_values`; a later entry for a key overrides
    /// an earlier one.
    pub fn new(config_values: Vec<(String, String)>) -> (r: Self)
        ensures
            r.entries() == config_values@.map_values(|p: (String, String)| (p.0@, p.1@)),
    {
        ConfigData { config_values }
    }

    /// The value configured for `key`.
    pub fn lookup(&self, key: &str) -> (r: Option<&String>)
        ensures
            match r {
                Some(v) => config_lookup(self.entries(), key@) == Some(v@),
                None => config_lookup(self.entries(), key@) is None,
            },
    {
        let wanted: String = key.to_owned();
        let mut i: usize = self.config_values.len();
        assert(self.entries().subrange(0, i as int) =~= self.entries());
        while i > 0
            invariant
                i <= self.config_values@.len(),
                wanted@ == key@,
                config_lookup(self.entries(), key@) == config_lookup(
                    self.entries().subrange(0, i as int),
                    key@,
                ),
            decreases i,
        {
            let ghost prefix = self.entries().subrange(0, i as int);
            assert(prefix.drop_last() =~= self.entries().subrange(0, i - 1));
            if self.config_values[i - 1].0 == wanted {
                return Some(&self.config_values[i - 1].1);
            }
            i = i - 1;
        }
        None
    }

    /// `get_config_value`: the envelope bytes for the key of `key_len` bytes at
    /// `key_ptr`, before a buffer is allocated for them.
    pub fn get_config_value(&self, mem: &[u8], key_ptr: i32, key_len: u32) -> (r: Result<Vec<u8>, Trap>)
        ensures
            !in_bounds(mem@.len() as int, key_ptr as int, key_len as int) ==> r == Err::<Vec<u8>, Trap>(
                Trap::OutOfBounds,
            ),
            in_bounds(mem@.len() as int, key_ptr as int, key_len as int) ==> {
                let bytes = region(mem@, key_ptr as int, key_len as int);
                &&& !valid_utf8(bytes) ==> r == Err::<Vec<u8>, Trap>(Trap::InvalidUtf8)
                &&& valid_utf8(bytes) ==> {
                    let wire = call_result_wire(config_reply(self.entries(), decode_utf8(bytes)));
                    &&& wire.len() <= u32::MAX ==> (r matches Ok(v) && v@ == wire)
                    &&& wire.len() > u32::MAX ==> r == Err::<Vec<u8>, Trap>(Trap::BufferTooLarge)
                }
            },
    {
        let key = get_str(mem, key_ptr, key_len)?;
        let result: CallResult = match self.lookup(key) {
            Some(val) => Ok(encode_string(val)),
            None => Err("No such config value".to_owned()),
        };
        reply_payload(result)
    }
}

/// The envelope bytes of `result`, which the guest's allocator must be able to
/// hold in one 32-bit request.
pub fn reply_payload(result: CallResult) -> (r: Result<Vec<u8>, Trap>)
    ensures
        call_result_wire(call_result_view(result)).len() <= u32::MAX ==> (r matches Ok(v) && v@
            == call_result_wire(call_result_view(result))),
        call_result_wire(call_result_view(result)).len() > u32::MAX ==> r == Err::<Vec<u8>, Trap>(
            Trap::BufferTooLarge,
        ),
{
    let bytes = encode_call_result(result);
    if bytes.len() > u32::MAX as usize {
        Err(Trap::BufferTooLarge)
    } else {
        Ok(bytes)
    }
}

/// The prefix of every line a guest logs.
pub open spec fn log_prefix() -> Seq<char> {
    "Program: "@
}

/// `log_*`: the line to log for the guest's message of `len` bytes at `ptr`.
pub fn log_message(mem: &[u8], ptr: i32, len: u32) -> (r: Result<String, Trap>)
    ensures
        !in_bounds(mem@.len() as int, ptr as int, len as int) ==> r == Err::<String, Trap>(
            Trap::OutOfBounds,
        ),
        in_bounds(mem@.len() as int, ptr as int, len as int) ==> {
            let bytes = region(mem@, ptr as int, len as int);
            &&& !valid_utf8(bytes) ==> r == Err::<String, Trap>(Trap::InvalidUtf8)
            &&& valid_utf8(bytes) ==> (r matches Ok(line) && line@ == log_prefix() + decode_utf8(bytes))
        },
{
    let msg = get_str(mem, ptr, len)?;
    let prefix: String = "Program: ".to_owned();
    Ok(prefix.concat(msg))
}

/// The socket address that function-to-function calls go to.
pub struct IpcData {
    addr: String,
}

impl IpcData {
    pub fn new(addr: String) -> (r: Self)
        ensures
            r.addr_view() == addr@,
    {
        IpcData { addr }
    }

    pub closed spec fn addr_view(&self) -> Seq<char> {
        self.addr@
    }

    /// The address, as `host:port`.
    pub fn addr(&self) -> (r: &String)
        ensures
            r@ == self.addr_view(),
    {
        &self.addr
    }
}

/// All bindings data for one instance.
pub struct BindingsData {
    pub args: ArgsData,
    pub ipc: IpcData,
    pub config: ConfigData,
}

impl BindingsData {
    pub fn new(addr: String, config_values: Vec<(String, String)>, args: Vec<u8>, result: ResultHandle) -> (r: Self)
        ensures
            r.ipc.addr_view() == addr@,
            r.config.entries() == config_values@.map_values(|p: (String, String)| (p.0@, p.1@)),
            r.args.args_view() == args@,
            r.args.result_view() == result@,
    {
        BindingsData {
            ipc: IpcData::new(addr),
            args: ArgsData::new(args, result),
            config: ConfigData::new(config_values),
        }
    }

    /// Makes a warm instance ready for another invocation: new arguments and an
    /// empty result handle. Configuration and address stay as they are, and
    /// guest memory is not touched.
    pub fn refit(&mut self, args: Vec<u8>)
        ensures
            final(self).args.args_view() == args@,
            final(self).args.result_view() is None,
            final(self).ipc.addr_view() == old(self).ipc.addr_view(),
            final(self).config.entries() == old(self).config.entries(),
    {
        self.args.set_args(args);
        self.args.set_result_handle(ResultHandle::new());
    }
}

} // verus!
