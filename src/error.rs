//! Named errors, each convertible into the `WapcError` of its kind.
use vstd::prelude::*;
use crate::errors::{ErrorKind, WapcError};

verus! {

/// No export of the given name exists in the WebAssembly module.
#[derive(Debug)]
pub struct NoSuchFunction(pub String);

/// A failure of the WebAssembly engine, with a description.
#[derive(Debug)]
pub struct WasmMisc(pub String);

/// A host call failed with the given error message.
#[derive(Debug)]
pub struct HostCallFailure(pub String);

/// A guest call failed with the given error message.
#[derive(Debug)]
pub struct GuestCallFailure(pub String);

/// The result type of the host runtime.
pub type Result<T> = core::result::Result<T, WapcError>;

impl From<NoSuchFunction> for WapcError {
    fn from(e: NoSuchFunction) -> (r: WapcError) {
        WapcError(Box::new(ErrorKind::NoSuchFunction(e.0)))
    }
}

impl vstd::std_specs::convert::FromSpecImpl<NoSuchFunction> for WapcError {
    open spec fn obeys_from_spec() -> bool {
        true
    }

    open spec fn from_spec(e: NoSuchFunction) -> WapcError {
        WapcError(Box::new(ErrorKind::NoSuchFunction(e.0)))
    }
}

impl From<WasmMisc> for WapcError {
    fn from(e: WasmMisc) -> (r: WapcError) {
        WapcError(Box::new(ErrorKind::WasmMisc(e.0)))
    }
}

impl vstd::std_specs::convert::FromSpecImpl<WasmMisc> for WapcError {
    open spec fn obeys_from_spec() -> bool {
        true
    }

    open spec fn from_spec(e: WasmMisc) -> WapcError {
        WapcError(Box::new(ErrorKind::WasmMisc(e.0)))
    }
}

impl From<HostCallFailure> for WapcError {
    fn from(e: HostCallFailure) -> (r: WapcError) {
        WapcError(Box::new(ErrorKind::HostCallFailure(e.0)))
    }
}

impl vstd::std_specs::convert::FromSpecImpl<HostCallFailure> for WapcError {
    open spec fn obeys_from_spec() -> bool {
        true
    }

    open spec fn from_spec(e: HostCallFailure) -> WapcError {
        WapcError(Box::new(ErrorKind::HostCallFailure(e.0)))
    }
}

impl From<GuestCallFailure> for WapcError {
    fn from(e: GuestCallFailure) -> (r: WapcError) {
        WapcError(Box::new(ErrorKind::GuestCallFailure(e.0)))
    }
}

impl vstd::std_specs::convert::FromSpecImpl<GuestCallFailure> for WapcError {
    open spec fn obeys_from_spec() -> bool {
        true
    }

    open spec fn from_spec(e: GuestCallFailure) -> WapcError {
        WapcError(Box::new(ErrorKind::GuestCallFailure(e.0)))
    }
}

} // verus!
