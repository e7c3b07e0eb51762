//! The names of the waPC ABI: the host namespace, the nine host imports and the
//! guest's exports.
use vstd::prelude::*;

verus! {

/// The namespace under which the host imports are registered.
pub const HOST_NAMESPACE: &'static str = "wapc";

/// The guest export that the host calls.
pub const GUEST_CALL: &'static str = "__guest_call";

/// The guest export invoked once after instantiation.
pub const START_FN: &'static str = "_start";

/// The guest export that holds the linear memory.
pub const MEMORY_EXPORT: &'static str = "memory";

/// The nine functions that the host provides to a guest.
#[derive(Debug, Clone, Copy, PartialEq, Eq, Structural)]
pub enum HostImport {
    ConsoleLog,
    HostCall,
    GuestRequest,
    HostResponse,
    HostResponseLen,
    GuestResponse,
    GuestError,
    HostError,
    HostErrorLen,
}

/// The name under which each import is registered.
pub open spec fn import_name(i: HostImport) -> Seq<char> {
    match i {
        HostImport::ConsoleLog => "__console_log"@,
        HostImport::HostCall => "__host_call"@,
        HostImport::GuestRequest => "__guest_request"@,
        HostImport::HostResponse => "__host_response"@,
        HostImport::HostResponseLen => "__host_response_len"@,
        HostImport::GuestResponse => "__guest_response"@,
        HostImport::GuestError => "__guest_error"@,
        HostImport::HostError => "__host_error"@,
        HostImport::HostErrorLen => "__host_error_len"@,
    }
}

/// The order in which the imports are registered with the linker.
pub open spec fn registration_order() -> Seq<HostImport> {
    seq![
        HostImport::ConsoleLog,
        HostImport::HostCall,
        HostImport::GuestRequest,
        HostImport::HostResponse,
        HostImport::HostResponseLen,
        HostImport::GuestResponse,
        HostImport::GuestError,
        HostImport::HostError,
        HostImport::HostErrorLen,
    ]
}

impl HostImport {
    /// The name under which this import is registered.
    pub fn name(&self) -> (r: &'static str)
        ensures
            r@ == import_name(*self),
    {
        match self {
            HostImport::ConsoleLog => "__console_log",
            HostImport::HostCall => "__host_call",
            HostImport::GuestRequest => "__guest_request",
            HostImport::HostResponse => "__host_response",
            HostImport::HostResponseLen => "__host_response_len",
            HostImport::GuestResponse => "__guest_response",
            HostImport::GuestError => "__guest_error",
            HostImport::HostError => "__host_error",
            HostImport::HostErrorLen => "__host_error_len",
        }
    }

    /// All nine imports, each once, in the order in which they are registered.
    pub fn all() -> (r: Vec<HostImport>)
        ensures
            r@ == registration_order(),
    {
        let r = vec![
            HostImport::ConsoleLog,
            HostImport::HostCall,
            HostImport::GuestRequest,
            HostImport::HostResponse,
            HostImport::HostResponseLen,
            HostImport::GuestResponse,
            HostImport::GuestError,
            HostImport::HostError,
            HostImport::HostErrorLen,
        ];
        assert(r@ =~= registration_order());
        r
    }
}

} // verus!
