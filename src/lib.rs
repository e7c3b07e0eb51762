//! A host runtime core for waPC (WebAssembly Procedure Calls).
//!
//! The library holds the per-guest module state with its five invocation buffers,
//! the nine host imports as verified transitions over that state and the guest's
//! linear memory, the decisions of the host driver, and the error taxonomy.
//! The engine itself is driven from outside the library.
pub mod abi;
pub mod codec;
pub mod driver;
pub mod error;
pub mod errors;
pub mod ids;
pub mod laws;
pub mod memory;
pub mod state;
pub mod wasi;

pub use crate::error::Result;
pub use crate::errors::{ErrorKind, WapcError};
pub use crate::memory::GuestTrap;
pub use crate::state::{HostCallRequest, HostCallStep, Invocation, LogDelivery, ModuleState};
pub use crate::wasi::WasiParams;
