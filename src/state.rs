//! The per-guest module state: the five waPC buffers and the nine host imports
//! as transitions over that state and the guest's linear memory.
use vstd::prelude::*;
use vstd::slice::slice_to_vec;
use vstd::string::{StringExecFns, StringSliceAdditionalSpecFns};
use vstd::utf8::{encode_utf8, valid_utf8};
use crate::codec::{decode_message, decoded_message, encode_message, encoded_message, read_text};
use crate::errors::{ErrorKind, WapcError};
use crate::memory::{addr, check_region, fits, read_region, region_ok, write_at, write_region, GuestTrap};

verus! {

/// The largest length that the 32-bit signed lengths of the ABI can carry.
pub const MAX_ABI_LEN: usize = 0x7fff_ffff;

/// An operation name and its payload, published to the guest for one call.
#[derive(Debug)]
pub struct Invocation {
    pub operation: String,
    pub msg: Vec<u8>,
}

impl Invocation {
    /// Makes an invocation of `op` with payload `msg`.
    pub fn new(op: &str, msg: Vec<u8>) -> (r: Invocation)
        ensures
            r.operation@ == op@,
            r.msg@ == msg@,
    {
        Invocation { operation: op.to_owned(), msg }
    }
}

/// The abstract value of a `ModuleState`.
pub struct StateView {
    pub id: u64,
    /// The operation and payload of the current call.
    pub guest_request: Option<(Seq<char>, Seq<u8>)>,
    pub guest_response: Option<Seq<u8>>,
    pub host_response: Option<Seq<u8>>,
    /// Error messages, as decoded from or encoded for the guest.
    pub guest_error: Option<Seq<char>>,
    pub host_error: Option<Seq<char>>,
    /// Whether the embedder installed a host callback and a log callback.
    pub host_callback: bool,
    pub log_callback: bool,
}

/// The message that a guest reads back when no host callback is installed.
pub open spec fn missing_callback_message() -> Seq<char> {
    "missing host callback function"@
}

/// The message of a failed call whose guest set no error.
pub open spec fn no_error_message() -> Seq<char> {
    "No error message set for call failure"@
}

/// The message of a successful call whose guest set neither response nor error.
pub open spec fn no_response_message() -> Seq<char> {
    "No error message OR response set for call success"@
}

impl StateView {
    /// A fresh state: no buffer is set.
    pub open spec fn fresh(id: u64, host_callback: bool, log_callback: bool) -> StateView {
        StateView {
            id,
            guest_request: None,
            guest_response: None,
            host_response: None,
            guest_error: None,
            host_error: None,
            host_callback,
            log_callback,
        }
    }

    /// The state in which a call of `op` with `payload` starts.
    pub open spec fn begin_call(self, op: Seq<char>, payload: Seq<u8>) -> StateView {
        StateView {
            guest_request: Some((op, payload)),
            guest_response: None,
            guest_error: None,
            ..self
        }
    }

    pub open spec fn with_guest_response(self, bytes: Seq<u8>) -> StateView {
        StateView { guest_response: Some(bytes), ..self }
    }

    pub open spec fn with_guest_error(self, msg: Seq<char>) -> StateView {
        StateView { guest_error: Some(msg), ..self }
    }

    /// The state at the start of every host call: no host result is set.
    pub open spec fn clear_host_result(self) -> StateView {
        StateView { host_response: None, host_error: None, ..self }
    }

    /// The state after the host callback answered with `result`.
    pub open spec fn finish_host_call(self, result: Result<Seq<u8>, Seq<char>>) -> StateView {
        match result {
            Ok(bytes) => StateView { host_response: Some(bytes), ..self },
            Err(msg) => StateView { host_error: Some(msg), ..self },
        }
    }

    /// What `__host_response_len` reports: the host response's length, or 0.
    pub open spec fn host_response_len(self) -> int {
        match self.host_response {
            Some(bytes) => bytes.len() as int,
            None => 0,
        }
    }

    /// What `__host_error_len` reports: the encoded host error's length, or 0.
    pub open spec fn host_error_len(self) -> int {
        match self.host_error {
            Some(msg) => encoded_message(msg).len() as int,
            None => 0,
        }
    }

    /// What a call returns when `__guest_call` returned `rc`: the response, or
    /// the message of the guest call failure.
    pub open spec fn call_outcome(self, rc: i32) -> Result<Seq<u8>, Seq<char>> {
        if rc == 0 {
            match self.guest_error {
                Some(msg) => Err(msg),
                None => Err(no_error_message()),
            }
        } else {
            match self.guest_response {
                Some(bytes) => Ok(bytes),
                None => match self.guest_error {
                    Some(msg) => Err(msg),
                    None => Err(no_response_message()),
                },
            }
        }
    }
}

/// Whether `r` is the call outcome `o`, a failure being a guest call failure.
pub open spec fn is_outcome(r: &Result<Vec<u8>, WapcError>, o: Result<Seq<u8>, Seq<char>>) -> bool {
    match o {
        Ok(bytes) => r matches Ok(v) && v@ == bytes,
        Err(msg) => r matches Err(e) && e.is_guest_call_failure(msg),
    }
}

/// The scratchpad of one guest instance.
pub struct ModuleState {
    pub guest_request: Option<Invocation>,
    pub guest_response: Option<Vec<u8>>,
    pub host_response: Option<Vec<u8>>,
    pub guest_error: Option<String>,
    pub host_error: Option<String>,
    pub host_callback: bool,
    pub log_callback: bool,
    pub id: u64,
}

impl View for ModuleState {
    type V = StateView;

    open spec fn view(&self) -> StateView {
        StateView {
            id: self.id,
            guest_request: match self.guest_request {
                Some(inv) => Some((inv.operation@, inv.msg@)),
                None => None,
            },
            guest_response: match self.guest_response {
                Some(v) => Some(v@),
                None => None,
            },
            host_response: match self.host_response {
                Some(v) => Some(v@),
                None => None,
            },
            guest_error: match self.guest_error {
                Some(s) => Some(s@),
                None => None,
            },
            host_error: match self.host_error {
                Some(s) => Some(s@),
                None => None,
            },
            host_callback: self.host_callback,
            log_callback: self.log_callback,
        }
    }
}

impl ModuleState {
    /// The state of instance `id`, whose embedder installed a host callback only.
    pub fn new(id: u64) -> (r: ModuleState)
        ensures
            r@ == StateView::fresh(id, true, false),
    {
        ModuleState {
            guest_request: None,
            guest_response: None,
            host_response: None,
            guest_error: None,
            host_error: None,
            host_callback: true,
            log_callback: false,
            id,
        }
    }

    /// The state of instance `id`, whose embedder installed a host callback and a log callback.
    pub fn new_with_logger(id: u64) -> (r: ModuleState)
        ensures
            r@ == StateView::fresh(id, true, true),
    {
        ModuleState {
            guest_request: None,
            guest_response: None,
            host_response: None,
            guest_error: None,
            host_error: None,
            host_callback: true,
            log_callback: true,
            id,
        }
    }

    /// Publishes the invocation of a call and clears the guest's response and error.
    /// Returns the two lengths handed to `__guest_call`; fails with an engine error,
    /// leaving the state as it was, where one does not fit the ABI.
    pub fn begin_call(&mut self, op: &str, payload: &[u8]) -> (r: Result<(i32, i32), WapcError>)
        ensures
            r is Ok <==> op.spec_bytes().len() <= MAX_ABI_LEN && payload@.len() <= MAX_ABI_LEN,
            r matches Ok((a, b)) ==> a == op.spec_bytes().len() && b == payload@.len()
                && final(self)@ == old(self)@.begin_call(op@, payload@),
            r matches Err(e) ==> e.is_wasm_misc(request_too_long_message())
                && final(self)@ == old(self)@,
    {
        let op_len = op.as_bytes().len();
        let payload_len = payload.len();
        if op_len > MAX_ABI_LEN || payload_len > MAX_ABI_LEN {
            return Err(WapcError(Box::new(ErrorKind::WasmMisc(
                String::from_str("guest call failed: request length does not fit the ABI"),
            ))));
        }
        let inv = Invocation::new(op, slice_to_vec(payload));
        self.guest_response = None;
        self.guest_request = Some(inv);
        self.guest_error = None;
        Ok((op_len as i32, payload_len as i32))
    }

    /// Decides what a call returns once `__guest_call` returned `rc`.
    pub fn call_result(&self, rc: i32) -> (r: Result<Vec<u8>, WapcError>)
        ensures
            is_outcome(&r, self@.call_outcome(rc)),
    {
        if rc == 0 {
            match &self.guest_error {
                Some(s) => Err(guest_failure(s.clone())),
                None => Err(guest_failure(String::from_str("No error message set for call failure"))),
            }
        } else {
            match &self.guest_response {
                Some(v) => Ok(v.clone()),
                None => match &self.guest_error {
                    Some(s) => Err(guest_failure(s.clone())),
                    None => Err(guest_failure(
                        String::from_str("No error message OR response set for call success"),
                    )),
                },
            }
        }
    }
}

/// The message of a call whose operation or payload is too long for the ABI.
pub open spec fn request_too_long_message() -> Seq<char> {
    "guest call failed: request length does not fit the ABI"@
}

/// Encodes an error message for the guest, unless its encoding is longer than the
/// ABI's lengths can carry.
fn encode_within_abi(msg: &String) -> (r: Result<Vec<u8>, GuestTrap>)
    ensures
        encoded_message(msg@).len() <= MAX_ABI_LEN <==> r is Ok,
        r matches Ok(b) ==> b@ == encoded_message(msg@),
        r matches Err(t) ==> t == GuestTrap::LengthOverflow,
{
    if msg.as_str().as_bytes().len() > MAX_ABI_LEN {
        return Err(GuestTrap::LengthOverflow);
    }
    match encode_message(msg) {
        Some(bytes) => {
            if bytes.len() > MAX_ABI_LEN {
                Err(GuestTrap::LengthOverflow)
            } else {
                Ok(bytes)
            }
        },
        None => Err(GuestTrap::LengthOverflow),
    }
}

/// The message that a guest reads back when no host callback is installed.
pub fn missing_callback_error() -> (r: String)
    ensures
        r@ == missing_callback_message(),
{
    String::from_str("missing host callback function")
}

fn guest_failure(msg: String) -> (r: WapcError)
    ensures
        r.is_guest_call_failure(msg@),
{
    WapcError(Box::new(ErrorKind::GuestCallFailure(msg)))
}

/// A host call that the guest asked for, to be handed to the host callback.
pub struct HostCallRequest {
    pub id: u64,
    pub binding: String,
    pub namespace: String,
    pub operation: String,
    pub payload: Vec<u8>,
}

/// What the embedder does next for a `__host_call`.
pub enum HostCallStep {
    /// Invoke the host callback with this request, then report its result with
    /// `finish_host_call`.
    Invoke(HostCallRequest),
    /// No callback is installed: return this value to the guest.
    Done(i32),
}

/// Where a guest's log message goes.
pub enum LogDelivery {
    /// To the log callback, with the instance id.
    Callback { id: u64, message: String },
    /// To the default info-level sink, tagged with the instance id.
    Sink { id: u64, message: String },
}

/// The bytes of guest memory named by a pointer and a length, in bounds.
pub open spec fn bytes_at(mem: Seq<u8>, ptr: i32, len: i32) -> Seq<u8> {
    mem.subrange(addr(ptr), addr(ptr) + len)
}

pub open spec fn in_bounds(mem: Seq<u8>, ptr: i32, len: i32) -> bool {
    region_ok(mem.len() as int, addr(ptr), len as int)
}

impl ModuleState {
    /// `__guest_request`: writes the payload at `payload_ptr` and then the operation's
    /// bytes at `op_ptr`. Without a request it does nothing. On a trap the memory
    /// is left as it was.
    pub fn guest_request(&self, mem: &mut [u8], op_ptr: i32, payload_ptr: i32) -> (r: Result<
        (),
        GuestTrap,
    >)
        ensures
            match self@.guest_request {
                None => r is Ok && final(mem)@ == old(mem)@,
                Some((op, payload)) => {
                    let op_bytes = encode_utf8(op);
                    let ok = region_ok(old(mem)@.len() as int, addr(payload_ptr), payload.len() as int)
                        && region_ok(old(mem)@.len() as int, addr(op_ptr), op_bytes.len() as int);
                    &&& (r is Ok <==> ok)
                    &&& (r is Ok ==> final(mem)@ == write_at(
                        write_at(old(mem)@, addr(payload_ptr), payload),
                        addr(op_ptr),
                        op_bytes,
                    ))
                    &&& (r matches Err(t) ==> t == GuestTrap::OutOfBounds && final(mem)@
                        == old(mem)@)
                },
            },
    {
        match &self.guest_request {
            None => Ok(()),
            Some(inv) => {
                let op_bytes = inv.operation.as_str().as_bytes();
                if !fits(mem.len(), payload_ptr, inv.msg.len()) || !fits(
                    mem.len(),
                    op_ptr,
                    op_bytes.len(),
                ) {
                    return Err(GuestTrap::OutOfBounds);
                }
                let r1 = write_region(mem, payload_ptr, inv.msg.as_slice());
                assert(r1 is Ok);
                write_region(mem, op_ptr, op_bytes)
            },
        }
    }

    /// `__guest_response`: keeps the `len` bytes at `ptr` as the guest's response.
    pub fn guest_response(&mut self, mem: &[u8], ptr: i32, len: i32) -> (r: Result<(), GuestTrap>)
        ensures
            r is Ok <==> in_bounds(mem@, ptr, len),
            r is Ok ==> final(self)@ == old(self)@.with_guest_response(bytes_at(mem@, ptr, len)),
            r matches Err(t) ==> t == GuestTrap::OutOfBounds && final(self)@ == old(self)@,
    {
        let bytes = read_region(mem, ptr, len)?;
        self.guest_response = Some(bytes);
        Ok(())
    }

    /// `__guest_error`: decodes the `len` bytes at `ptr` with the error codec and
    /// keeps the message as the guest's error. A codec failure traps.
    pub fn guest_error(&mut self, mem: &[u8], ptr: i32, len: i32) -> (r: Result<(), GuestTrap>)
        ensures
            !in_bounds(mem@, ptr, len) <==> r == Err::<(), GuestTrap>(GuestTrap::OutOfBounds),
            in_bounds(mem@, ptr, len) ==> match decoded_message(bytes_at(mem@, ptr, len)) {
                Some(msg) => r is Ok && final(self)@ == old(self)@.with_guest_error(msg),
                None => r == Err::<(), GuestTrap>(GuestTrap::Codec),
            },
            r is Err ==> final(self)@ == old(self)@,
    {
        let bytes = read_region(mem, ptr, len)?;
        match decode_message(bytes.as_slice()) {
            Some(msg) => {
                self.guest_error = Some(msg);
                Ok(())
            },
            None => Err(GuestTrap::Codec),
        }
    }

    /// `__host_response`: writes the host response at `ptr`; does nothing without one.
    pub fn host_response(&self, mem: &mut [u8], ptr: i32) -> (r: Result<(), GuestTrap>)
        ensures
            match self@.host_response {
                None => r is Ok && final(mem)@ == old(mem)@,
                Some(bytes) => {
                    &&& (r is Ok <==> region_ok(old(mem)@.len() as int, addr(ptr), bytes.len() as int))
                    &&& (r is Ok ==> final(mem)@ == write_at(old(mem)@, addr(ptr), bytes))
                    &&& (r matches Err(t) ==> t == GuestTrap::OutOfBounds && final(mem)@
                        == old(mem)@)
                },
            },
    {
        match &self.host_response {
            None => Ok(()),
            Some(bytes) => write_region(mem, ptr, bytes.as_slice()),
        }
    }

    /// `__host_response_len`: the host response's length, or 0.
    pub fn host_response_len(&self) -> (r: Result<i32, GuestTrap>)
        ensures
            self@.host_response_len() <= MAX_ABI_LEN <==> r is Ok,
            r matches Ok(n) ==> n == self@.host_response_len(),
            r matches Err(t) ==> t == GuestTrap::LengthOverflow,
    {
        match &self.host_response {
            None => Ok(0),
            Some(bytes) => {
                if bytes.len() > MAX_ABI_LEN {
                    Err(GuestTrap::LengthOverflow)
                } else {
                    Ok(bytes.len() as i32)
                }
            },
        }
    }

    /// `__host_error`: writes the encoded host error at `ptr`; does nothing without
    /// one. An encoding longer than the ABI's lengths traps, as `__host_error_len` does.
    pub fn host_error(&self, mem: &mut [u8], ptr: i32) -> (r: Result<(), GuestTrap>)
        ensures
            match self@.host_error {
                None => r is Ok && final(mem)@ == old(mem)@,
                Some(msg) => {
                    let bytes = encoded_message(msg);
                    if bytes.len() <= MAX_ABI_LEN {
                        &&& (r is Ok <==> region_ok(
                            old(mem)@.len() as int,
                            addr(ptr),
                            bytes.len() as int,
                        ))
                        &&& (r is Ok ==> final(mem)@ == write_at(old(mem)@, addr(ptr), bytes))
                        &&& (r matches Err(t) ==> t == GuestTrap::OutOfBounds && final(mem)@
                            == old(mem)@)
                    } else {
                        r == Err::<(), GuestTrap>(GuestTrap::LengthOverflow) && final(mem)@ == old(
                            mem,
                        )@
                    }
                },
            },
    {
        match &self.host_error {
            None => Ok(()),
            Some(msg) => {
                let bytes = encode_within_abi(msg)?;
                write_region(mem, ptr, bytes.as_slice())
            },
        }
    }

    /// `__host_error_len`: the length of the encoded host error, or 0.
    pub fn host_error_len(&self) -> (r: Result<i32, GuestTrap>)
        ensures
            self@.host_error_len() <= MAX_ABI_LEN <==> r is Ok,
            r matches Ok(n) ==> n == self@.host_error_len(),
            r matches Err(t) ==> t == GuestTrap::LengthOverflow,
    {
        match &self.host_error {
            None => Ok(0),
            Some(msg) => {
                let bytes = encode_within_abi(msg)?;
                Ok(bytes.len() as i32)
            },
        }
    }

    /// `__console_log`: reads the `len` bytes at `ptr` as UTF-8 text and says where
    /// the message goes.
    pub fn console_log(&self, mem: &[u8], ptr: i32, len: i32) -> (r: Result<LogDelivery, GuestTrap>)
        ensures
            !in_bounds(mem@, ptr, len) <==> r is Err && r->Err_0 == GuestTrap::OutOfBounds,
            in_bounds(mem@, ptr, len) ==> {
                let bytes = bytes_at(mem@, ptr, len);
                &&& (r is Ok <==> valid_utf8(bytes))
                &&& (r matches Err(t) ==> t == GuestTrap::InvalidUtf8)
                &&& (r matches Ok(d) ==> match d {
                    LogDelivery::Callback { id, message } => self.log_callback && id == self.id
                        && encode_utf8(message@) == bytes,
                    LogDelivery::Sink { id, message } => !self.log_callback && id == self.id
                        && encode_utf8(message@) == bytes,
                })
            },
    {
        let message = read_text(mem, ptr, len)?;
        if self.log_callback {
            Ok(LogDelivery::Callback { id: self.id, message })
        } else {
            Ok(LogDelivery::Sink { id: self.id, message })
        }
    }
}

/// Whether the four regions of a `__host_call` lie in the memory.
pub open spec fn host_call_in_bounds(
    mem: Seq<u8>,
    bd_ptr: i32,
    bd_len: i32,
    ns_ptr: i32,
    ns_len: i32,
    op_ptr: i32,
    op_len: i32,
    ptr: i32,
    len: i32,
) -> bool {
    in_bounds(mem, ptr, len) && in_bounds(mem, bd_ptr, bd_len) && in_bounds(mem, ns_ptr, ns_len)
        && in_bounds(mem, op_ptr, op_len)
}

/// Whether the three strings of a `__host_call` are UTF-8.
pub open spec fn host_call_texts_valid(
    mem: Seq<u8>,
    bd_ptr: i32,
    bd_len: i32,
    ns_ptr: i32,
    ns_len: i32,
    op_ptr: i32,
    op_len: i32,
) -> bool {
    valid_utf8(bytes_at(mem, bd_ptr, bd_len)) && valid_utf8(bytes_at(mem, ns_ptr, ns_len))
        && valid_utf8(bytes_at(mem, op_ptr, op_len))
}

impl ModuleState {
    /// `__host_call`, first half: clears the host response and host error, then reads
    /// the binding, namespace, operation and payload out of guest memory. With a host
    /// callback installed the embedder is to invoke it with the request; without one
    /// the host error is the missing-callback message and the guest gets 0.
    pub fn host_call(
        &mut self,
        mem: &[u8],
        bd_ptr: i32,
        bd_len: i32,
        ns_ptr: i32,
        ns_len: i32,
        op_ptr: i32,
        op_len: i32,
        ptr: i32,
        len: i32,
    ) -> (r: Result<HostCallStep, GuestTrap>)
        ensures
            !host_call_in_bounds(mem@, bd_ptr, bd_len, ns_ptr, ns_len, op_ptr, op_len, ptr, len)
                <==> r is Err && r->Err_0 == GuestTrap::OutOfBounds,
            host_call_in_bounds(mem@, bd_ptr, bd_len, ns_ptr, ns_len, op_ptr, op_len, ptr, len)
                ==> (r is Ok <==> host_call_texts_valid(
                mem@,
                bd_ptr,
                bd_len,
                ns_ptr,
                ns_len,
                op_ptr,
                op_len,
            )),
            r matches Err(t) ==> final(self)@ == old(self)@.clear_host_result() && (t
                == GuestTrap::OutOfBounds || t == GuestTrap::InvalidUtf8),
            r matches Ok(step) ==> match step {
                HostCallStep::Invoke(req) => {
                    &&& old(self).host_callback
                    &&& final(self)@ == old(self)@.clear_host_result()
                    &&& req.id == old(self).id
                    &&& encode_utf8(req.binding@) == bytes_at(mem@, bd_ptr, bd_len)
                    &&& encode_utf8(req.namespace@) == bytes_at(mem@, ns_ptr, ns_len)
                    &&& encode_utf8(req.operation@) == bytes_at(mem@, op_ptr, op_len)
                    &&& req.payload@ == bytes_at(mem@, ptr, len)
                },
                HostCallStep::Done(rc) => {
                    &&& !old(self).host_callback
                    &&& rc == 0
                    &&& final(self)@ == old(self)@.clear_host_result().finish_host_call(
                        Err(missing_callback_message()),
                    )
                },
            },
    {
        self.host_response = None;
        self.host_error = None;
        let payload = read_region(mem, ptr, len)?;
        check_region(mem, bd_ptr, bd_len)?;
        check_region(mem, ns_ptr, ns_len)?;
        check_region(mem, op_ptr, op_len)?;
        let binding = read_text(mem, bd_ptr, bd_len)?;
        let namespace = read_text(mem, ns_ptr, ns_len)?;
        let operation = read_text(mem, op_ptr, op_len)?;
        if self.host_callback {
            Ok(
                HostCallStep::Invoke(
                    HostCallRequest { id: self.id, binding, namespace, operation, payload },
                ),
            )
        } else {
            let rc = self.finish_host_call(Err(missing_callback_error()));
            Ok(HostCallStep::Done(rc))
        }
    }

    /// `__host_call`, second half: keeps the host callback's result for the guest and
    /// returns 1 for a response, 0 for an error.
    pub fn finish_host_call(&mut self, result: Result<Vec<u8>, String>) -> (r: i32)
        ensures
            final(self)@ == old(self)@.finish_host_call(
                match result {
                    Ok(v) => Ok(v@),
                    Err(s) => Err(s@),
                },
            ),
            r == (if result is Ok {
                1i32
            } else {
                0i32
            }),
    {
        match result {
            Ok(bytes) => {
                self.host_response = Some(bytes);
                1
            },
            Err(msg) => {
                self.host_error = Some(msg);
                0
            },
        }
    }
}

} // verus!
