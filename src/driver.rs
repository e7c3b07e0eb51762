//! Decisions of the host driver around the engine's calls.
use vstd::prelude::*;
use vstd::string::StringExecFns;
use crate::errors::{ErrorKind, WapcError};

verus! {

pub open spec fn missing_guest_call_message() -> Seq<char> {
    "Guest module did not export __guest_call function!"@
}

pub open spec fn start_failed_message() -> Seq<char> {
    "Error invoking _start function!"@
}

/// Accepts the module's `__guest_call` export, or fails when the module has none.
pub fn guest_call_export<F>(export: Option<F>) -> (r: Result<F, WapcError>)
    ensures
        match export {
            Some(f) => r == Ok::<F, WapcError>(f),
            None => r matches Err(e) && e.is_guest_call_failure(missing_guest_call_message()),
        },
{
    match export {
        Some(f) => Ok(f),
        None => Err(
            WapcError(
                Box::new(
                    ErrorKind::GuestCallFailure(
                        String::from_str("Guest module did not export __guest_call function!"),
                    ),
                ),
            ),
        ),
    }
}

/// The result of initialising an instance, from what running `_start` gave:
/// `None` where the module exports no `_start`.
pub fn start_result<E>(outcome: Option<Result<(), E>>) -> (r: Result<(), WapcError>)
    ensures
        match outcome {
            Some(Err(_)) => r matches Err(e) && e.is_guest_call_failure(start_failed_message()),
            _ => r is Ok,
        },
{
    match outcome {
        Some(Err(_)) => Err(
            WapcError(
                Box::new(
                    ErrorKind::GuestCallFailure(String::from_str("Error invoking _start function!")),
                ),
            ),
        ),
        _ => Ok(()),
    }
}

/// An engine failure: `context`, a colon, and the engine's own description.
pub fn engine_failure(context: &str, detail: &str) -> (r: WapcError)
    ensures
        r.is_wasm_misc(context@ + ": "@ + detail@),
{
    let msg = String::from_str(context).concat(": ").concat(detail);
    WapcError(Box::new(ErrorKind::WasmMisc(msg)))
}

} // verus!
