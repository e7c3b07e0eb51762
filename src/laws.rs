//! Laws of the waPC protocol, proved over the transitions that the import
//! handlers' contracts are stated in.
use vstd::prelude::*;
use vstd::utf8::encode_utf8;
use crate::codec::encoded_message;
use crate::memory::{addr, region_ok, write_at};
use crate::state::StateView;

verus! {

/// A change that a guest makes to the module state while a call runs.
pub enum GuestEffect {
    /// `__guest_response` with these bytes.
    Response(Seq<u8>),
    /// `__guest_error` with this decoded message.
    Error(Seq<char>),
    /// A `__host_call` whose callback answered with this result.
    HostCall(Result<Seq<u8>, Seq<char>>),
}

impl StateView {
    pub open spec fn apply(self, e: GuestEffect) -> StateView {
        match e {
            GuestEffect::Response(bytes) => self.with_guest_response(bytes),
            GuestEffect::Error(msg) => self.with_guest_error(msg),
            GuestEffect::HostCall(result) => self.clear_host_result().finish_host_call(result),
        }
    }

    /// The state after the guest's effects, in order.
    pub open spec fn apply_all(self, es: Seq<GuestEffect>) -> StateView
        decreases es.len(),
    {
        if es.len() == 0 {
            self
        } else {
            self.apply(es[0]).apply_all(es.drop_first())
        }
    }
}

/// Once a call has published its invocation, nothing that the guest does during
/// the call clears or changes it.
pub proof fn lemma_request_kept(s: StateView, op: Seq<char>, payload: Seq<u8>, es: Seq<GuestEffect>)
    ensures
        s.begin_call(op, payload).apply_all(es).guest_request == Some((op, payload)),
{
    lemma_request_kept_from(s.begin_call(op, payload), es);
}

proof fn lemma_request_kept_from(s: StateView, es: Seq<GuestEffect>)
    ensures
        s.apply_all(es).guest_request == s.guest_request,
    decreases es.len(),
{
    if es.len() > 0 {
        lemma_request_kept_from(s.apply(es[0]), es.drop_first());
    }
}

/// After a host call, the guest sees the length of the callback's response and a
/// zero error length when the callback succeeded, and the length of the encoded
/// error and a zero response length when it failed.
pub proof fn lemma_host_call_lengths(s: StateView, result: Result<Seq<u8>, Seq<char>>)
    ensures
        ({
            let t = s.clear_host_result().finish_host_call(result);
            match result {
                Ok(bytes) => t.host_response_len() == bytes.len() && t.host_error_len() == 0,
                Err(msg) => t.host_error_len() == encoded_message(msg).len()
                    && t.host_response_len() == 0,
            }
        }),
{
}

/// A guest that copies its request's payload into its response makes the call
/// return that payload: `__guest_request` writes the payload where the guest
/// reads it back, provided the operation's buffer does not overlap it.
pub proof fn lemma_echo_round_trip(
    s: StateView,
    op: Seq<char>,
    payload: Seq<u8>,
    mem: Seq<u8>,
    op_ptr: i32,
    payload_ptr: i32,
    rc: i32,
)
    requires
        region_ok(mem.len() as int, addr(payload_ptr), payload.len() as int),
        region_ok(mem.len() as int, addr(op_ptr), encode_utf8(op).len() as int),
        addr(op_ptr) + encode_utf8(op).len() <= addr(payload_ptr) || addr(payload_ptr)
            + payload.len() <= addr(op_ptr),
        rc != 0,
    ensures
        ({
            let written = write_at(
                write_at(mem, addr(payload_ptr), payload),
                addr(op_ptr),
                encode_utf8(op),
            );
            let echoed = written.subrange(addr(payload_ptr), addr(payload_ptr) + payload.len());
            &&& echoed == payload
            &&& s.begin_call(op, payload).apply(GuestEffect::Response(echoed)).call_outcome(rc) == Ok::<
                Seq<u8>,
                Seq<char>,
            >(payload)
        }),
{
    let p = addr(payload_ptr);
    let o = addr(op_ptr);
    let ob = encode_utf8(op);
    let w1 = write_at(mem, p, payload);
    let w2 = write_at(w1, o, ob);
    assert(w1.len() == mem.len());
    assert forall|j: int| 0 <= j < payload.len() implies w2[p + j] == payload[j] by {
        assert(w1[p + j] == payload[j]);
    }
    assert(w2.subrange(p, p + payload.len()) =~= payload);
}

/// What a call returns depends only on what its guest does during the call, not on
/// what earlier calls or an earlier module left in the state: a hot-swapped host and
/// a fresh one return the same for the same guest behaviour.
pub proof fn lemma_outcome_independent_of_prior_state(
    s: StateView,
    t: StateView,
    op: Seq<char>,
    payload: Seq<u8>,
    es: Seq<GuestEffect>,
    rc: i32,
)
    ensures
        s.begin_call(op, payload).apply_all(es).call_outcome(rc) == t.begin_call(
            op,
            payload,
        ).apply_all(es).call_outcome(rc),
{
    lemma_guest_buffers_follow_effects(s.begin_call(op, payload), t.begin_call(op, payload), es);
}

proof fn lemma_guest_buffers_follow_effects(s: StateView, t: StateView, es: Seq<GuestEffect>)
    requires
        s.guest_response == t.guest_response,
        s.guest_error == t.guest_error,
    ensures
        s.apply_all(es).guest_response == t.apply_all(es).guest_response,
        s.apply_all(es).guest_error == t.apply_all(es).guest_error,
    decreases es.len(),
{
    if es.len() > 0 {
        lemma_guest_buffers_follow_effects(s.apply(es[0]), t.apply(es[0]), es.drop_first());
    }
}

} // verus!
