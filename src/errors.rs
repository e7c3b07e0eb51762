//! The error taxonomy of the library.
use vstd::prelude::*;

verus! {

#[verifier::external_type_specification]
#[verifier::external_body]
pub struct ExIoError(std::io::Error);

/// The five kinds of error that the host runtime reports.
#[derive(Debug)]
pub enum ErrorKind {
    /// An export named by the embedder does not exist.
    NoSuchFunction(String),
    /// A wrapped I/O failure.
    IO(std::io::Error),
    /// Any failure of the WebAssembly engine.
    WasmMisc(String),
    /// A nested host call failed; holds the host callback's error message.
    HostCallFailure(String),
    /// A guest call failed; holds the guest's error message or the runtime's reason.
    GuestCallFailure(String),
}

/// An error of the host runtime: one `ErrorKind`, boxed.
#[derive(Debug)]
pub struct WapcError(pub Box<ErrorKind>);

impl WapcError {
    /// The kind of this error, as contracts speak of it.
    pub open spec fn spec_kind(&self) -> ErrorKind {
        *self.0
    }

    /// Whether this error is a guest call failure with the message `msg`.
    pub open spec fn is_guest_call_failure(&self, msg: Seq<char>) -> bool {
        self.spec_kind() matches ErrorKind::GuestCallFailure(m) && m@ == msg
    }

    /// Whether this error is an engine failure with the message `msg`.
    pub open spec fn is_wasm_misc(&self, msg: Seq<char>) -> bool {
        self.spec_kind() matches ErrorKind::WasmMisc(m) && m@ == msg
    }

    /// The kind of this error.
    pub fn kind(&self) -> (r: &ErrorKind)
        ensures
            *r == self.spec_kind(),
    {
        &self.0
    }

    /// Takes the kind out of this error.
    pub fn into_kind(self) -> (r: ErrorKind)
        ensures
            r == self.spec_kind(),
    {
        *self.0
    }
}

/// Makes an error of the given kind.
pub fn new(kind: ErrorKind) -> (r: WapcError)
    ensures
        r.spec_kind() == kind,
{
    WapcError(Box::new(kind))
}

impl From<std::io::Error> for WapcError {
    fn from(source: std::io::Error) -> (r: WapcError) {
        WapcError(Box::new(ErrorKind::IO(source)))
    }
}

impl vstd::std_specs::convert::FromSpecImpl<std::io::Error> for WapcError {
    open spec fn obeys_from_spec() -> bool {
        true
    }

    open spec fn from_spec(v: std::io::Error) -> WapcError {
        WapcError(Box::new(ErrorKind::IO(v)))
    }
}

} // verus!
