//! The data-exchange state machine between one guest instance and its host:
//! the per-instance module state and the host functions the guest calls back
//! into while one of its exports runs.
//!
//! The engine creates one [`ModuleState`] per guest instance, stores a
//! [`GuestInvocation`] in it, and invokes a guest export. While that export
//! runs, the guest may call [`guest_request`], [`console_log`], the
//! host-call pair ([`host_call_read`] / [`host_call_apply`]),
//! [`host_response_len`] / [`host_response`] and [`host_error_len`] /
//! [`host_error`] in any order and any number of times, and ends by calling
//! [`guest_response`] or [`guest_error`] (or neither). Afterwards the engine
//! reads the outcome back out of the state. Work only the engine can do —
//! running the guest, dispatching a host call, sinking log text — stays
//! outside; the functions here decide everything up to and after it.
//!
//! Two deliberate contract choices the observed protocol leaves open: a
//! host-call outcome stays readable until the next host call overwrites it,
//! and `guest_response` and `guest_error` are independent fields — setting
//! one never clears the other, and the engine interprets the latest write of
//! each field for itself.

use crate::memory::{range_in_bounds, read_seq, write_seq, GuestMemory};
use crate::text::utf8_to_string;
use crate::Fault;
use vstd::prelude::*;
use vstd::string::StrSliceExecFns;
use vstd::utf8::{decode_utf8, encode_utf8, valid_utf8};

verus! {

/// The largest byte length the 32-bit guest interface can report back
/// through an `i32` result.
pub const MAX_REPORTABLE_LEN: usize = 0x7fff_ffff;

/// The request the host wants the guest to process: an operation name and a
/// message payload. Set by the engine before a guest export is invoked and
/// read back by the guest through [`guest_request`].
pub struct GuestInvocation {
    /// The operation the guest is asked to perform.
    pub operation: String,
    /// The payload handed to the guest.
    pub msg: Vec<u8>,
}

/// The mathematical value of a [`GuestInvocation`].
pub ghost struct GuestInvocationView {
    /// The operation name's characters.
    pub operation: Seq<char>,
    /// The payload bytes.
    pub msg: Seq<u8>,
}

impl View for GuestInvocation {
    type V = GuestInvocationView;

    open spec fn view(&self) -> GuestInvocationView {
        GuestInvocationView { operation: self.operation@, msg: self.msg@ }
    }
}

/// The per-instance record shared by every host function bound to one guest
/// instance: the pending request, the guest's final response or error, and
/// the outcome of the most recent host call.
///
/// The host-call error is held as the UTF-8 encoding of the dispatcher's
/// error string, since its byte length is what [`host_error_len`] reports
/// and its bytes are what [`host_error`] writes.
pub struct ModuleState {
    guest_request: Option<GuestInvocation>,
    guest_response: Option<Vec<u8>>,
    guest_error: Option<String>,
    host_response: Option<Vec<u8>>,
    host_error: Option<Vec<u8>>,
}

/// The mathematical value of a [`ModuleState`]: each slot either absent or
/// holding its bytes or characters.
pub ghost struct StateView {
    /// The pending request, if one is loaded.
    pub guest_request: Option<GuestInvocationView>,
    /// The response bytes the guest handed back, if any.
    pub guest_response: Option<Seq<u8>>,
    /// The error text the guest reported, if any.
    pub guest_error: Option<Seq<char>>,
    /// The response of the most recent host call, if it succeeded.
    pub host_response: Option<Seq<u8>>,
    /// The UTF-8 bytes of the most recent host call's error, if it failed.
    pub host_error: Option<Seq<u8>>,
}

impl View for ModuleState {
    type V = StateView;

    closed spec fn view(&self) -> StateView {
        StateView {
            guest_request: match self.guest_request {
                Some(inv) => Some(inv@),
                None => None,
            },
            guest_response: match self.guest_response {
                Some(b) => Some(b@),
                None => None,
            },
            guest_error: match self.guest_error {
                Some(t) => Some(t@),
                None => None,
            },
            host_response: match self.host_response {
                Some(b) => Some(b@),
                None => None,
            },
            host_error: match self.host_error {
                Some(b) => Some(b@),
                None => None,
            },
        }
    }
}

impl ModuleState {
    /// Every stored host-call outcome is small enough for its byte length to
    /// be reported to the guest as an `i32`. Established by [`Self::new`]
    /// and preserved by every function of this crate.
    pub open spec fn wf(&self) -> bool {
        &&& (self@.host_response matches Some(p) ==> p.len() <= MAX_REPORTABLE_LEN)
        &&& (self@.host_error matches Some(e) ==> e.len() <= MAX_REPORTABLE_LEN)
    }

    /// A fresh state with every slot empty, as the engine creates it once
    /// per guest instance.
    pub fn new() -> (r: ModuleState)
        ensures
            r@ == (StateView {
                guest_request: None,
                guest_response: None,
                guest_error: None,
                host_response: None,
                host_error: None,
            }),
            r.wf(),
    {
        ModuleState {
            guest_request: None,
            guest_response: None,
            guest_error: None,
            host_response: None,
            host_error: None,
        }
    }

    /// Engine accessor: loads the request the guest will read, overwriting
    /// any previous one.
    pub fn set_guest_request(&mut self, inv: GuestInvocation)
        ensures
            final(self)@ == (StateView { guest_request: Some(inv@), ..old(self)@ }),
    {
        self.guest_request = Some(inv);
    }

    /// Engine accessor: the pending request, if one is loaded.
    pub fn get_guest_request(&self) -> (r: Option<&GuestInvocation>)
        ensures
            match r {
                Some(inv) => self@.guest_request == Some(inv@),
                None => self@.guest_request is None,
            },
    {
        self.guest_request.as_ref()
    }

    /// Engine accessor: stores response bytes as if the guest had handed
    /// them back.
    pub fn set_guest_response(&mut self, data: Vec<u8>)
        ensures
            final(self)@ == guest_response_spec(old(self)@, data@),
    {
        self.guest_response = Some(data);
    }

    /// Engine accessor: the guest's final response bytes, if it set any.
    pub fn get_guest_response(&self) -> (r: Option<&Vec<u8>>)
        ensures
            match r {
                Some(b) => self@.guest_response == Some(b@),
                None => self@.guest_response is None,
            },
    {
        self.guest_response.as_ref()
    }

    /// Engine accessor: stores error text as if the guest had reported it.
    pub fn set_guest_error(&mut self, text: String)
        ensures
            final(self)@ == guest_error_spec(old(self)@, text@),
    {
        self.guest_error = Some(text);
    }

    /// Engine accessor: the error text the guest reported, if any.
    pub fn get_guest_error(&self) -> (r: Option<&String>)
        ensures
            match r {
                Some(t) => self@.guest_error == Some(t@),
                None => self@.guest_error is None,
            },
    {
        self.guest_error.as_ref()
    }

    /// Engine accessor: records a host-call response, as a successful
    /// dispatcher does. Returns whether the bytes were small enough to be
    /// reportable through the 32-bit interface and were stored.
    pub fn set_host_response(&mut self, data: Vec<u8>) -> (stored: bool)
        ensures
            stored == (data@.len() <= MAX_REPORTABLE_LEN),
            stored ==> final(self)@ == (StateView { host_response: Some(data@), ..old(self)@ }),
            !stored ==> final(self)@ == old(self)@,
            old(self).wf() ==> final(self).wf(),
    {
        if data.len() <= MAX_REPORTABLE_LEN {
            self.host_response = Some(data);
            true
        } else {
            false
        }
    }

    /// Engine accessor: the most recent host call's response bytes, if it
    /// succeeded.
    pub fn get_host_response(&self) -> (r: Option<&Vec<u8>>)
        ensures
            match r {
                Some(b) => self@.host_response == Some(b@),
                None => self@.host_response is None,
            },
    {
        self.host_response.as_ref()
    }

    /// Engine accessor: records a host-call error, as a failing dispatcher
    /// does. Returns whether the text's UTF-8 encoding was small enough to
    /// be reportable through the 32-bit interface and was stored.
    pub fn set_host_error(&mut self, text: &str) -> (stored: bool)
        ensures
            stored == (encode_utf8(text@).len() <= MAX_REPORTABLE_LEN),
            stored ==> final(self)@ == (StateView {
                host_error: Some(encode_utf8(text@)),
                ..old(self)@
            }),
            !stored ==> final(self)@ == old(self)@,
            old(self).wf() ==> final(self).wf(),
    {
        let bytes = text.as_bytes_vec();
        if bytes.len() <= MAX_REPORTABLE_LEN {
            self.host_error = Some(bytes);
            true
        } else {
            false
        }
    }

    /// Engine accessor: the UTF-8 bytes of the most recent host call's
    /// error, if it failed.
    pub fn get_host_error(&self) -> (r: Option<&Vec<u8>>)
        ensures
            match r {
                Some(b) => self@.host_error == Some(b@),
                None => self@.host_error is None,
            },
    {
        self.host_error.as_ref()
    }
}

/// The state after the guest hands back response bytes `data`.
pub open spec fn guest_response_spec(s: StateView, data: Seq<u8>) -> StateView {
    StateView { guest_response: Some(data), ..s }
}

/// The state after the guest reports error text `text`.
pub open spec fn guest_error_spec(s: StateView, text: Seq<char>) -> StateView {
    StateView { guest_error: Some(text), ..s }
}

/// The byte length [`host_response_len`] reports: the current host
/// response's, or zero when no host call has succeeded.
pub open spec fn host_response_len_spec(s: StateView) -> int {
    match s.host_response {
        Some(p) => p.len() as int,
        None => 0,
    }
}

/// The byte length [`host_error_len`] reports: the current host error's, or
/// zero when no host call has failed.
pub open spec fn host_error_len_spec(s: StateView) -> int {
    match s.host_error {
        Some(e) => e.len() as int,
        None => 0,
    }
}

/// The host function the guest calls to read the pending request: writes the
/// request's message bytes at `msg_ptr` and its operation name's UTF-8 bytes
/// at `op_ptr`. With no pending request it touches nothing and signals
/// nothing — silence is the contract. Both destination ranges are checked
/// before either byte is written: an out-of-bounds pair rejects the call
/// whole and leaves memory untouched. The message is written first, so where
/// the two ranges overlap the operation bytes win.
pub fn guest_request(
    state: &ModuleState,
    mem: &mut GuestMemory,
    op_ptr: u32,
    msg_ptr: u32,
) -> (r: Result<(), Fault>)
    ensures
        state@.guest_request is None ==> r is Ok && final(mem)@ == old(mem)@,
        state@.guest_request matches Some(inv) ==> ({
            let opb = encode_utf8(inv.operation);
            if range_in_bounds(msg_ptr as int, inv.msg.len() as int, old(mem)@.len() as int)
                && range_in_bounds(op_ptr as int, opb.len() as int, old(mem)@.len() as int) {
                r is Ok && final(mem)@ == write_seq(
                    write_seq(old(mem)@, msg_ptr as int, inv.msg),
                    op_ptr as int,
                    opb,
                )
            } else {
                r == Err::<(), Fault>(Fault::OutOfBounds) && final(mem)@ == old(mem)@
            }
        }),
{
    match &state.guest_request {
        None => Ok(()),
        Some(inv) => {
            let opb = inv.operation.as_str().as_bytes_vec();
            let size = mem.size();
            let msg_fits = (msg_ptr as usize) <= size && inv.msg.len() <= size - (msg_ptr
                as usize);
            let op_fits = (op_ptr as usize) <= size && opb.len() <= size - (op_ptr as usize);
            if !(msg_fits && op_fits) {
                return Err(Fault::OutOfBounds);
            }
            let _ = mem.write_bytes(msg_ptr, inv.msg.as_slice());
            let _ = mem.write_bytes(op_ptr, opb.as_slice());
            Ok(())
        },
    }
}

/// The host function the guest calls to log text: reads `len` bytes at
/// `ptr` and checks them as UTF-8. On success the text is returned for the
/// engine to hand to its logging sink, which is outside work and cannot fail
/// this call; malformed UTF-8 from the guest is fatal for the call.
pub fn console_log(mem: &GuestMemory, ptr: u32, len: u32) -> (r: Result<String, Fault>)
    ensures
        ({
            let bytes = read_seq(mem@, ptr as int, len as int);
            if !range_in_bounds(ptr as int, len as int, mem@.len() as int) {
                r == Err::<String, Fault>(Fault::OutOfBounds)
            } else if !valid_utf8(bytes) {
                r == Err::<String, Fault>(Fault::InvalidUtf8)
            } else {
                r matches Ok(s) && s@ == decode_utf8(bytes)
            }
        }),
{
    let bytes = match mem.read_bytes(ptr, len) {
        Ok(v) => v,
        Err(f) => {
            return Err(f);
        },
    };
    match utf8_to_string(bytes) {
        Some(s) => Ok(s),
        None => Err(Fault::InvalidUtf8),
    }
}

/// The four arguments of one host call, marshaled out of guest memory:
/// three routing strings and a payload.
pub struct HostCallRequest {
    /// The binding name routing the call.
    pub binding: String,
    /// The namespace routing the call.
    pub namespace: String,
    /// The operation the host is asked to perform.
    pub operation: String,
    /// The payload handed to the host.
    pub payload: Vec<u8>,
}

/// The mathematical value of a [`HostCallRequest`].
pub ghost struct HostCallRequestView {
    /// The binding name's characters.
    pub binding: Seq<char>,
    /// The namespace's characters.
    pub namespace: Seq<char>,
    /// The operation name's characters.
    pub operation: Seq<char>,
    /// The payload bytes.
    pub payload: Seq<u8>,
}

impl View for HostCallRequest {
    type V = HostCallRequestView;

    open spec fn view(&self) -> HostCallRequestView {
        HostCallRequestView {
            binding: self.binding@,
            namespace: self.namespace@,
            operation: self.operation@,
            payload: self.payload@,
        }
    }
}

/// What [`host_call_read`] returns: the payload range is checked first, then
/// each routing string in turn is checked for bounds and then for UTF-8, in
/// the order binding, namespace, operation; the first violation names the
/// fault.
pub open spec fn host_call_read_spec(
    mem: Seq<u8>,
    bd_ptr: u32,
    bd_len: u32,
    ns_ptr: u32,
    ns_len: u32,
    op_ptr: u32,
    op_len: u32,
    ptr: u32,
    len: u32,
) -> Result<HostCallRequestView, Fault> {
    let bd = read_seq(mem, bd_ptr as int, bd_len as int);
    let ns = read_seq(mem, ns_ptr as int, ns_len as int);
    let op = read_seq(mem, op_ptr as int, op_len as int);
    if !range_in_bounds(ptr as int, len as int, mem.len() as int) {
        Err(Fault::OutOfBounds)
    } else if !range_in_bounds(bd_ptr as int, bd_len as int, mem.len() as int) {
        Err(Fault::OutOfBounds)
    } else if !valid_utf8(bd) {
        Err(Fault::InvalidUtf8)
    } else if !range_in_bounds(ns_ptr as int, ns_len as int, mem.len() as int) {
        Err(Fault::OutOfBounds)
    } else if !valid_utf8(ns) {
        Err(Fault::InvalidUtf8)
    } else if !range_in_bounds(op_ptr as int, op_len as int, mem.len() as int) {
        Err(Fault::OutOfBounds)
    } else if !valid_utf8(op) {
        Err(Fault::InvalidUtf8)
    } else {
        Ok(
            HostCallRequestView {
                binding: decode_utf8(bd),
                namespace: decode_utf8(ns),
                operation: decode_utf8(op),
                payload: read_seq(mem, ptr as int, len as int),
            },
        )
    }
}

/// The reading half of the guest's host-call function: marshals the binding,
/// namespace, operation and payload out of guest memory, exactly as
/// [`host_call_read_spec`] says. The engine then dispatches the returned
/// request — the one piece of outside work — and records the dispatcher's
/// outcome with [`host_call_apply`].
pub fn host_call_read(
    mem: &GuestMemory,
    bd_ptr: u32,
    bd_len: u32,
    ns_ptr: u32,
    ns_len: u32,
    op_ptr: u32,
    op_len: u32,
    ptr: u32,
    len: u32,
) -> (r: Result<HostCallRequest, Fault>)
    ensures
        ({
            let m = host_call_read_spec(mem@, bd_ptr, bd_len, ns_ptr, ns_len, op_ptr, op_len, ptr, len);
            match r {
                Ok(req) => m == Ok::<HostCallRequestView, Fault>(req@),
                Err(f) => m == Err::<HostCallRequestView, Fault>(f),
            }
        }),
{
    let payload = match mem.read_bytes(ptr, len) {
        Ok(v) => v,
        Err(f) => {
            return Err(f);
        },
    };
    let bd_bytes = match mem.read_bytes(bd_ptr, bd_len) {
        Ok(v) => v,
        Err(f) => {
            return Err(f);
        },
    };
    let binding = match utf8_to_string(bd_bytes) {
        Some(s) => s,
        None => {
            return Err(Fault::InvalidUtf8);
        },
    };
    let ns_bytes = match mem.read_bytes(ns_ptr, ns_len) {
        Ok(v) => v,
        Err(f) => {
            return Err(f);
        },
    };
    let namespace = match utf8_to_string(ns_bytes) {
        Some(s) => s,
        None => {
            return Err(Fault::InvalidUtf8);
        },
    };
    let op_bytes = match mem.read_bytes(op_ptr, op_len) {
        Ok(v) => v,
        Err(f) => {
            return Err(f);
        },
    };
    let operation = match utf8_to_string(op_bytes) {
        Some(s) => s,
        None => {
            return Err(Fault::InvalidUtf8);
        },
    };
    Ok(HostCallRequest { binding, namespace, operation, payload })
}

/// One dispatcher outcome: a status code with response bytes on success, or
/// an error string on failure. Exactly one of the two is recorded.
pub enum HostCallOutcome {
    /// The dispatcher succeeded with a status code and a response.
    Success(i32, Vec<u8>),
    /// The dispatcher failed with an error string.
    Failure(String),
}

/// The mathematical value of a [`HostCallOutcome`].
pub ghost enum HostCallOutcomeView {
    /// A status code and the response bytes.
    Success(i32, Seq<u8>),
    /// The error text.
    Failure(Seq<char>),
}

impl View for HostCallOutcome {
    type V = HostCallOutcomeView;

    open spec fn view(&self) -> HostCallOutcomeView {
        match self {
            HostCallOutcome::Success(code, data) => HostCallOutcomeView::Success(*code, data@),
            HostCallOutcome::Failure(text) => HostCallOutcomeView::Failure(text@),
        }
    }
}

/// What [`host_call_apply`] does: the new state and the status returned to
/// the guest. A success stores the response and clears any previous error;
/// a failure stores the error's UTF-8 bytes, clears any previous response,
/// and leaves the guest's result slot at its default of zero. An outcome too
/// large to report through the 32-bit interface clears both slots.
pub open spec fn host_call_apply_spec(s: StateView, o: HostCallOutcomeView) -> (StateView, i32) {
    match o {
        HostCallOutcomeView::Success(code, data) => {
            if data.len() <= MAX_REPORTABLE_LEN {
                (StateView { host_response: Some(data), host_error: None, ..s }, code)
            } else {
                (StateView { host_response: None, host_error: None, ..s }, 0)
            }
        },
        HostCallOutcomeView::Failure(text) => {
            let bytes = encode_utf8(text);
            if bytes.len() <= MAX_REPORTABLE_LEN {
                (StateView { host_response: None, host_error: Some(bytes), ..s }, 0)
            } else {
                (StateView { host_response: None, host_error: None, ..s }, 0)
            }
        },
    }
}

/// The recording half of the guest's host-call function: stores the
/// dispatcher's outcome in the module state, exactly as
/// [`host_call_apply_spec`] says, and returns the status the guest sees.
/// Whatever the outcome, the state is left well-formed.
pub fn host_call_apply(state: &mut ModuleState, outcome: HostCallOutcome) -> (status: i32)
    ensures
        (final(state)@, status) == host_call_apply_spec(old(state)@, outcome@),
        final(state).wf(),
{
    match outcome {
        HostCallOutcome::Success(code, data) => {
            if data.len() <= MAX_REPORTABLE_LEN {
                state.host_response = Some(data);
                state.host_error = None;
                code
            } else {
                state.host_response = None;
                state.host_error = None;
                0
            }
        },
        HostCallOutcome::Failure(text) => {
            let bytes = text.as_str().as_bytes_vec();
            if bytes.len() <= MAX_REPORTABLE_LEN {
                state.host_response = None;
                state.host_error = Some(bytes);
                0
            } else {
                state.host_response = None;
                state.host_error = None;
                0
            }
        },
    }
}

/// The host function the guest calls to size its buffer before fetching a
/// host-call response: the response's byte length, or zero when no host
/// call has succeeded.
pub fn host_response_len(state: &ModuleState) -> (r: i32)
    requires
        state.wf(),
    ensures
        r as int == host_response_len_spec(state@),
{
    match &state.host_response {
        Some(p) => p.len() as i32,
        None => 0,
    }
}

/// The host function the guest calls to fetch a host-call response: writes
/// the current response bytes at `ptr`, if a host call has succeeded; a
/// no-op otherwise. The response is not cleared, so a second call before the
/// next host call re-reads the same bytes.
pub fn host_response(state: &ModuleState, mem: &mut GuestMemory, ptr: u32) -> (r: Result<
    (),
    Fault,
>)
    ensures
        state@.host_response is None ==> r is Ok && final(mem)@ == old(mem)@,
        state@.host_response matches Some(p) ==> (if range_in_bounds(
            ptr as int,
            p.len() as int,
            old(mem)@.len() as int,
        ) {
            r is Ok && final(mem)@ == write_seq(old(mem)@, ptr as int, p)
        } else {
            r == Err::<(), Fault>(Fault::OutOfBounds) && final(mem)@ == old(mem)@
        }),
{
    match &state.host_response {
        None => Ok(()),
        Some(p) => mem.write_bytes(ptr, p.as_slice()),
    }
}

/// The host function the guest calls to size its buffer before fetching a
/// host-call error: the error's byte length, or zero when no host call has
/// failed.
pub fn host_error_len(state: &ModuleState) -> (r: i32)
    requires
        state.wf(),
    ensures
        r as int == host_error_len_spec(state@),
{
    match &state.host_error {
        Some(e) => e.len() as i32,
        None => 0,
    }
}

/// The host function the guest calls to fetch a host-call error: writes the
/// current error's UTF-8 bytes at `ptr`, if a host call has failed; a no-op
/// otherwise. Like the response, the error is not cleared afterwards.
pub fn host_error(state: &ModuleState, mem: &mut GuestMemory, ptr: u32) -> (r: Result<(), Fault>)
    ensures
        state@.host_error is None ==> r is Ok && final(mem)@ == old(mem)@,
        state@.host_error matches Some(e) ==> (if range_in_bounds(
            ptr as int,
            e.len() as int,
            old(mem)@.len() as int,
        ) {
            r is Ok && final(mem)@ == write_seq(old(mem)@, ptr as int, e)
        } else {
            r == Err::<(), Fault>(Fault::OutOfBounds) && final(mem)@ == old(mem)@
        }),
{
    match &state.host_error {
        None => Ok(()),
        Some(e) => mem.write_bytes(ptr, e.as_slice()),
    }
}

/// The host function the guest calls, at most once just before returning, to
/// hand back its result: reads `len` bytes at `ptr` and stores them as the
/// guest response, overwriting any previous value and touching no other
/// slot.
pub fn guest_response(state: &mut ModuleState, mem: &GuestMemory, ptr: u32, len: u32) -> (r: Result<
    (),
    Fault,
>)
    ensures
        range_in_bounds(ptr as int, len as int, mem@.len() as int) ==> r is Ok && final(state)@
            == guest_response_spec(old(state)@, read_seq(mem@, ptr as int, len as int)),
        !range_in_bounds(ptr as int, len as int, mem@.len() as int) ==> r == Err::<(), Fault>(
            Fault::OutOfBounds,
        ) && final(state)@ == old(state)@,
        old(state).wf() ==> final(state).wf(),
{
    match mem.read_bytes(ptr, len) {
        Ok(data) => {
            state.guest_response = Some(data);
            Ok(())
        },
        Err(f) => Err(f),
    }
}

/// The host function the guest calls, instead of [`guest_response`], to
/// signal failure: reads `len` bytes at `ptr`, checks them as UTF-8, and
/// stores the text as the guest error, overwriting any previous value and
/// touching no other slot. Malformed UTF-8 is fatal for the call and stores
/// nothing.
pub fn guest_error(state: &mut ModuleState, mem: &GuestMemory, ptr: u32, len: u32) -> (r: Result<
    (),
    Fault,
>)
    ensures
        ({
            let bytes = read_seq(mem@, ptr as int, len as int);
            if !range_in_bounds(ptr as int, len as int, mem@.len() as int) {
                r == Err::<(), Fault>(Fault::OutOfBounds) && final(state)@ == old(state)@
            } else if !valid_utf8(bytes) {
                r == Err::<(), Fault>(Fault::InvalidUtf8) && final(state)@ == old(state)@
            } else {
                r is Ok && final(state)@ == guest_error_spec(old(state)@, decode_utf8(bytes))
            }
        }),
        old(state).wf() ==> final(state).wf(),
{
    let bytes = match mem.read_bytes(ptr, len) {
        Ok(v) => v,
        Err(f) => {
            return Err(f);
        },
    };
    match utf8_to_string(bytes) {
        Some(text) => {
            state.guest_error = Some(text);
            Ok(())
        },
        None => Err(Fault::InvalidUtf8),
    }
}

/// Before any host call has completed, both length queries report zero —
/// and, by the contracts of [`host_response`] and [`host_error`], fetching
/// either is a no-op.
pub proof fn lemma_no_host_call_yet(s: StateView)
    requires
        s.host_response is None,
        s.host_error is None,
    ensures
        host_response_len_spec(s) == 0,
        host_error_len_spec(s) == 0,
{
}

/// After a successful dispatcher call with status `code` and payload `data`
/// (small enough to report), the guest sees `code`, the length query reports
/// exactly `data.len()`, and fetching the response into any memory range
/// that holds it writes exactly `data` there.
pub proof fn lemma_host_call_success_observed(
    s: StateView,
    code: i32,
    data: Seq<u8>,
    mem: Seq<u8>,
    ptr: u32,
)
    requires
        data.len() <= MAX_REPORTABLE_LEN,
        range_in_bounds(ptr as int, data.len() as int, mem.len() as int),
    ensures
        ({
            let (s2, status) = host_call_apply_spec(s, HostCallOutcomeView::Success(code, data));
            &&& status == code
            &&& s2.host_response == Some(data)
            &&& s2.host_error is None
            &&& host_response_len_spec(s2) == data.len()
            &&& read_seq(write_seq(mem, ptr as int, data), ptr as int, data.len() as int) == data
        }),
{
    crate::memory::lemma_write_then_read(mem, ptr as int, data);
}

/// After a failing dispatcher call with error text `text` (whose encoding is
/// small enough to report), the guest's result slot stays at its default of
/// zero, the error length query reports the error's byte length — the length
/// of its UTF-8 encoding, not its character count — and fetching the error
/// into any memory range that holds it writes exactly those bytes.
pub proof fn lemma_host_call_failure_observed(
    s: StateView,
    text: Seq<char>,
    mem: Seq<u8>,
    ptr: u32,
)
    requires
        encode_utf8(text).len() <= MAX_REPORTABLE_LEN,
        range_in_bounds(ptr as int, encode_utf8(text).len() as int, mem.len() as int),
    ensures
        ({
            let (s2, status) = host_call_apply_spec(s, HostCallOutcomeView::Failure(text));
            let bytes = encode_utf8(text);
            &&& status == 0
            &&& s2.host_error == Some(bytes)
            &&& s2.host_response is None
            &&& host_error_len_spec(s2) == bytes.len()
            &&& read_seq(write_seq(mem, ptr as int, bytes), ptr as int, bytes.len() as int)
                == bytes
        }),
{
    crate::memory::lemma_write_then_read(mem, ptr as int, encode_utf8(text));
}

/// A guest response read out of memory is stored byte for byte and read back
/// unchanged by the engine; a later guest error lands in its own slot and
/// leaves the stored response exactly as it was — the two result fields are
/// independent, and the engine interprets the latest write of each.
pub proof fn lemma_guest_result_round_trip(s: StateView, mem: Seq<u8>, ptr: u32, len: u32, text: Seq<char>)
    requires
        range_in_bounds(ptr as int, len as int, mem.len() as int),
    ensures
        ({
            let data = read_seq(mem, ptr as int, len as int);
            let s1 = guest_response_spec(s, data);
            let s2 = guest_error_spec(s1, text);
            &&& s1.guest_response == Some(data)
            &&& s2.guest_response == Some(data)
            &&& s2.guest_error == Some(text)
        }),
{
}

} // verus!
