//! A fixed-address dispatcher for the nine precompiled contracts of an EVM
//! deployment in which gas metering, logging and nested calls are stubbed out.
//!
//! The last byte of a 20-byte contract address selects one of nine
//! cryptographic primitives; the dispatcher adapts the calling convention,
//! invokes the primitive and hands the raw output bytes back to the caller.

pub mod address;
pub mod handle;
pub mod outcome;
pub mod primitives;
pub mod dispatch;

pub use address::Address;
pub use handle::ExecutionHandle;
pub use outcome::{extract_linear_result, extract_result};
pub use dispatch::{execute_precompiled, try_execute_precompiled};
