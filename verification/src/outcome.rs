//! The tagged outcome a primitive reports, and the extraction step that
//! unwraps it to raw output bytes while enforcing the deployment's
//! invariant: every primitive completes normally.

use vstd::prelude::*;

verus! {

/// The terminal status a primitive reports on success, declared so that
/// contracts and extraction can tell its variants apart. Of the three
/// only `Returned` is legitimate for a precompiled contract; the other
/// two would mark a design-level contract violation.
#[verifier::external_type_specification]
pub struct ExExitSucceed(evm::ExitSucceed);

/// The structured failure reason a primitive reports, declared opaquely.
/// The dispatcher never reads it: by the deployment's closed-world
/// invariant no primitive ever fails, so a failure value only marks an
/// unrecoverable defect.
#[verifier::external_type_specification]
#[verifier::external_body]
pub struct ExExitError(evm::ExitError);

/// Unwraps the outcome of a fixed-cost primitive to its raw output bytes.
///
/// By the deployment's closed-world invariant every primitive completes
/// normally, so a failure or a non-`Returned` status never reaches this
/// step; both are excluded here and fatal to any caller that cannot rule
/// them out.
pub fn extract_linear_result(
    result: Result<(evm::ExitSucceed, Vec<u8>), evm::ExitError>,
) -> (out: Vec<u8>)
    requires
        result matches Ok(success) && success.0 == evm::ExitSucceed::Returned,
    ensures
        result matches Ok(success) && out@ == success.1@,
{
    match result {
        Ok((_exit_status, return_data)) => return_data,
        Err(_) => unreached(),
    }
}

/// Unwraps the outcome of a variable-cost primitive — status, output
/// bytes and charged cost — to its raw output bytes, under the same
/// closed-world invariant as [`extract_linear_result`].
pub fn extract_result(
    result: Result<(evm::ExitSucceed, Vec<u8>, u64), evm::ExitError>,
) -> (out: Vec<u8>)
    requires
        result matches Ok(success) && success.0 == evm::ExitSucceed::Returned,
    ensures
        result matches Ok(success) && out@ == success.1@,
{
    match result {
        Ok((_exit_status, return_data, _cost)) => return_data,
        Err(_) => unreached(),
    }
}

} // verus!
