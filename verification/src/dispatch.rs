//! The dispatcher: the last address byte selects a primitive, a fresh
//! handle adapts the calling convention, and the outcome is unwrapped to
//! raw output bytes.

use vstd::prelude::*;
use crate::address::Address;
use crate::address::is_precompile_selector;
use crate::handle::ExecutionHandle;
use crate::outcome::extract_linear_result;
use crate::outcome::extract_result;
use crate::primitives::bn128_add_result;
use crate::primitives::bn128_add_call;
use crate::primitives::bn128_mul_result;
use crate::primitives::bn128_mul_call;
use crate::primitives::bn128_pairing_result;
use crate::primitives::bn128_pairing_call;
use crate::primitives::blake2f_call;
use crate::primitives::ec_recover_call;
use crate::primitives::ecrecover_result;
use crate::primitives::identity_call;
use crate::primitives::modexp_result;
use crate::primitives::modexp_call;
use crate::primitives::ripemd160_output;
use crate::primitives::ripemd160_call;
use crate::primitives::sha256_digest;
use crate::primitives::sha256_call;

verus! {

/// What the primitive selected by `sel` makes of `input`: the raw output
/// bytes of a normal return, or nothing where the primitive reports a
/// failure or aborts — on such a call the dispatcher halts instead of
/// returning.
///
/// The compression primitive (selector 9) of this registry never returns
/// normally: it rejects every input length but the one its format
/// requires and aborts on that one, so its output is always nothing.
pub open spec fn precompile_output(sel: u8, input: Seq<u8>) -> Option<Seq<u8>> {
    if sel == 1 {
        ecrecover_result(input)
    } else if sel == 2 {
        Some(sha256_digest(input))
    } else if sel == 3 {
        Some(ripemd160_output(input))
    } else if sel == 4 {
        Some(input)
    } else if sel == 5 {
        modexp_result(input)
    } else if sel == 6 {
        if input.len() >= 128 { bn128_add_result(input) } else { None }
    } else if sel == 7 {
        if input.len() >= 96 { bn128_mul_result(input) } else { None }
    } else if sel == 8 {
        bn128_pairing_result(input)
    } else {
        None
    }
}

/// Routes the call to the primitive selected by the last address byte,
/// adapts the calling convention through a fresh [`ExecutionHandle`] and
/// unwraps the outcome to the raw output bytes the calling machine
/// expects.
///
/// The caller owes an address whose selector is recognized and an input
/// on which the selected primitive returns normally; any other call is a
/// caller-level defect with no recoverable error path, and is excluded
/// here. [`try_execute_precompiled`] tests those obligations at run time
/// instead.
pub fn execute_precompiled(address: &Address, input: &[u8]) -> (output: Vec<u8>)
    requires
        is_precompile_selector(address.selector()),
        precompile_output(address.selector(), input@) is Some,
    ensures
        Some(output@) == precompile_output(address.selector(), input@),
{
    let handle = ExecutionHandle::new(input);
    match address.selector_byte() {
        1 => extract_linear_result(ec_recover_call(handle.input(), 0)),
        2 => extract_linear_result(sha256_call(handle.input(), 0)),
        3 => extract_linear_result(ripemd160_call(handle.input(), 0)),
        4 => extract_linear_result(identity_call(handle.input(), 0)),
        5 => extract_result(modexp_call(handle.input(), handle.gas_limit())),
        6 => extract_result(bn128_add_call(handle.input(), handle.gas_limit())),
        7 => extract_result(bn128_mul_call(handle.input(), handle.gas_limit())),
        8 => extract_result(bn128_pairing_call(handle.input(), handle.gas_limit())),
        // Selector 9 has no input with a normal return (see
        // `precompile_output`), and any other value is unrecognized:
        // neither meets the precondition.
        _ => unreached(),
    }
}

/// Like [`execute_precompiled`], but tests the closed-world assumptions
/// at run time instead of owing them: where the selector is unrecognized
/// or the selected primitive does not return normally, the call yields
/// nothing instead of halting.
pub fn try_execute_precompiled(address: &Address, input: &[u8]) -> (output: Option<Vec<u8>>)
    ensures
        (match output {
            Some(bytes) => is_precompile_selector(address.selector())
                && Some(bytes@) == precompile_output(address.selector(), input@),
            None => !(is_precompile_selector(address.selector())
                && precompile_output(address.selector(), input@) is Some),
        }),
{
    let handle = ExecutionHandle::new(input);
    let available: bool = match address.selector_byte() {
        1 => ec_recover_call(handle.input(), 0).is_ok(),
        2 => true,
        3 => true,
        4 => true,
        5 => modexp_call(handle.input(), handle.gas_limit()).is_ok(),
        6 => input.len() >= 128 && bn128_add_call(handle.input(), handle.gas_limit()).is_ok(),
        7 => input.len() >= 96 && bn128_mul_call(handle.input(), handle.gas_limit()).is_ok(),
        8 => bn128_pairing_call(handle.input(), handle.gas_limit()).is_ok(),
        9 => input.len() != 213 && blake2f_call(handle.input(), handle.gas_limit()).is_ok(),
        _ => false,
    };
    if available {
        Some(execute_precompiled(address, input))
    } else {
        None
    }
}

/// For every recognized selector the dispatcher's output is exactly the
/// outcome of invoking the selected primitive directly: dispatch adds,
/// removes and changes nothing.
pub proof fn lemma_dispatch_is_primitive_outcome(sel: u8, input: Seq<u8>)
    requires
        is_precompile_selector(sel),
    ensures
        sel == 1 ==> precompile_output(sel, input) == ecrecover_result(input),
        sel == 2 ==> precompile_output(sel, input) == Some(sha256_digest(input)),
        sel == 3 ==> precompile_output(sel, input) == Some(ripemd160_output(input)),
        sel == 4 ==> precompile_output(sel, input) == Some(input),
        sel == 5 ==> precompile_output(sel, input) == modexp_result(input),
        sel == 6 && input.len() >= 128 ==> precompile_output(sel, input) == bn128_add_result(
            input,
        ),
        sel == 7 && input.len() >= 96 ==> precompile_output(sel, input) == bn128_mul_result(input),
        sel == 8 ==> precompile_output(sel, input) == bn128_pairing_result(input),
        sel == 9 ==> precompile_output(sel, input) is None,
{
}

/// Outside the nine recognized selector values no output exists, so the
/// precondition of [`execute_precompiled`] can never be met: every such
/// call halts rather than returning a value.
pub proof fn lemma_unrecognized_selector_halts(sel: u8, input: Seq<u8>)
    requires
        !is_precompile_selector(sel),
    ensures
        precompile_output(sel, input) is None,
{
}

/// Two executions with the same address and input return byte-identical
/// output: the dispatcher keeps no state from one call to the next.
pub proof fn lemma_execute_idempotent(sel: u8, input: Seq<u8>, first: Seq<u8>, second: Seq<u8>)
    requires
        Some(first) == precompile_output(sel, input),
        Some(second) == precompile_output(sel, input),
    ensures
        first == second,
{
}

} // verus!
