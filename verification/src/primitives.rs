//! Trusted bindings to the nine cryptographic primitives of the registry.
//!
//! Each primitive is an outside implementation invoked through a thin
//! wrapper whose contract records, over named outcomes, exactly what the
//! implementation's source shows. The fixed-cost family is called through
//! its linear calling convention (input and a cost figure it ignores);
//! the variable-cost family is called through the richer convention that
//! first charges a linear gas cost against an optional gas target and
//! reports that cost beside the output.

use vstd::prelude::*;

verus! {

/// The word count the linear gas-cost formula charges for: the input
/// length rounded up to full 32-byte words, the addition saturating at
/// the largest representable length.
pub open spec fn cost_words(len: nat) -> int {
    if len + 31 > u64::MAX { (u64::MAX as int) / 32 } else { (len as int + 31) / 32 }
}

/// The gas cost charged before a variable-cost primitive runs: every
/// primitive of that family declares a base charge of 15 and a charge of
/// 3 per 32-byte word of input.
pub open spec fn rich_call_cost(len: nat) -> int {
    15 + 3 * cost_words(len)
}

/// What signature recovery makes of the call input: the 32-byte recovered
/// address, or nothing where the 128-byte (zero-padded) message, recovery
/// id and signature do not recover a public key.
pub uninterp spec fn ecrecover_result(input: Seq<u8>) -> Option<Seq<u8>>;

/// The 32-byte SHA-256 digest of the call input.
pub uninterp spec fn sha256_digest(input: Seq<u8>) -> Seq<u8>;

/// The RIPEMD-160 digest of the call input, left-padded with twelve zero
/// bytes to 32 bytes.
pub uninterp spec fn ripemd160_output(input: Seq<u8>) -> Seq<u8>;

/// What modular exponentiation makes of the call input: base^exponent
/// mod modulus, left-padded to the modulus byte length, or nothing where
/// the length-prefixed encoding is rejected.
pub uninterp spec fn modexp_result(input: Seq<u8>) -> Option<Seq<u8>>;

/// What curve-point addition makes of the call input: the 64-byte sum of
/// two points, or nothing where a coordinate is not a valid field element
/// or point.
pub uninterp spec fn bn128_add_result(input: Seq<u8>) -> Option<Seq<u8>>;

/// What curve-scalar multiplication makes of the call input: the 64-byte
/// product point, or nothing where the point or scalar is rejected.
pub uninterp spec fn bn128_mul_result(input: Seq<u8>) -> Option<Seq<u8>>;

/// What the pairing check makes of the call input: a 32-byte big-endian
/// one or zero, or nothing where a point of a pair is rejected.
pub uninterp spec fn bn128_pairing_result(input: Seq<u8>) -> Option<Seq<u8>>;

/// Relies on `ECRecover` through `fp_evm::LinearCostPrecompile::execute`:
/// the outcome depends on the input bytes alone (the cost argument is
/// ignored); a normal return carries the 32-byte recovered address, and
/// a failed recovery reports an error.
#[verifier::external_body]
pub(crate) fn ec_recover_call(input: &[u8], cost: u64) -> (r: Result<
    (evm::ExitSucceed, Vec<u8>),
    evm::ExitError,
>)
    ensures
        (match r {
            Ok(success) => success.0 == evm::ExitSucceed::Returned
                && Some(success.1@) == ecrecover_result(input@) && success.1@.len() == 32,
            Err(_) => ecrecover_result(input@) is None,
        }),
{
    <pallet_evm_precompile_simple::ECRecover as fp_evm::LinearCostPrecompile>::execute(input, cost)
}

/// Relies on `Sha256` through `fp_evm::LinearCostPrecompile::execute`:
/// it always returns normally with the 32-byte SHA-256 digest of the
/// input; the cost argument is ignored.
#[verifier::external_body]
pub(crate) fn sha256_call(input: &[u8], cost: u64) -> (r: Result<
    (evm::ExitSucceed, Vec<u8>),
    evm::ExitError,
>)
    ensures
        (match r {
            Ok(success) => success.0 == evm::ExitSucceed::Returned
                && success.1@ == sha256_digest(input@) && success.1@.len() == 32,
            Err(_) => false,
        }),
{
    <pallet_evm_precompile_simple::Sha256 as fp_evm::LinearCostPrecompile>::execute(input, cost)
}

/// Relies on `Ripemd160` through `fp_evm::LinearCostPrecompile::execute`:
/// it always returns normally with the RIPEMD-160 digest of the input
/// left-padded to 32 bytes; the cost argument is ignored.
#[verifier::external_body]
pub(crate) fn ripemd160_call(input: &[u8], cost: u64) -> (r: Result<
    (evm::ExitSucceed, Vec<u8>),
    evm::ExitError,
>)
    ensures
        (match r {
            Ok(success) => success.0 == evm::ExitSucceed::Returned
                && success.1@ == ripemd160_output(input@) && success.1@.len() == 32,
            Err(_) => false,
        }),
{
    <pallet_evm_precompile_simple::Ripemd160 as fp_evm::LinearCostPrecompile>::execute(input, cost)
}

/// Relies on `Identity` through `fp_evm::LinearCostPrecompile::execute`:
/// it always returns normally with the input copied unchanged; the cost
/// argument is ignored.
#[verifier::external_body]
pub(crate) fn identity_call(input: &[u8], cost: u64) -> (r: Result<
    (evm::ExitSucceed, Vec<u8>),
    evm::ExitError,
>)
    ensures
        (match r {
            Ok(success) => success.0 == evm::ExitSucceed::Returned && success.1@ == input@,
            Err(_) => false,
        }),
{
    <pallet_evm_precompile_simple::Identity as fp_evm::LinearCostPrecompile>::execute(input, cost)
}

/// Relies on `Modexp` through `fp_evm::Precompile::execute`: the calling
/// convention first charges the linear gas cost against the optional gas
/// target, then the outcome depends on the input bytes alone. The
/// context argument is ignored by this family, so a zeroed stub is
/// passed.
#[verifier::external_body]
pub(crate) fn modexp_call(input: &[u8], target_gas: Option<u64>) -> (r: Result<
    (evm::ExitSucceed, Vec<u8>, u64),
    evm::ExitError,
>)
    ensures
        (target_gas matches Some(gas) && rich_call_cost(input@.len()) > gas) ==> r is Err,
        (target_gas is None || (target_gas matches Some(gas) && rich_call_cost(input@.len())
            <= gas)) ==> (match r {
            Ok(success) => success.0 == evm::ExitSucceed::Returned
                && Some(success.1@) == modexp_result(input@)
                && success.2 == rich_call_cost(input@.len()),
            Err(_) => modexp_result(input@) is None,
        }),
{
    let stub = evm::Context {
        address: primitive_types::H160::zero(),
        caller: primitive_types::H160::zero(),
        apparent_value: primitive_types::U256::zero(),
    };
    <pallet_evm_precompile_modexp::Modexp as fp_evm::Precompile>::execute(input, target_gas, &stub)
}

/// Relies on `Bn128Add` through `fp_evm::Precompile::execute`, under the
/// same calling convention as the other variable-cost primitives. The
/// implementation reads two 64-byte points without a length check, so an
/// input shorter than 128 bytes is excluded here.
#[verifier::external_body]
pub(crate) fn bn128_add_call(input: &[u8], target_gas: Option<u64>) -> (r: Result<
    (evm::ExitSucceed, Vec<u8>, u64),
    evm::ExitError,
>)
    requires
        input@.len() >= 128,
    ensures
        (target_gas matches Some(gas) && rich_call_cost(input@.len()) > gas) ==> r is Err,
        (target_gas is None || (target_gas matches Some(gas) && rich_call_cost(input@.len())
            <= gas)) ==> (match r {
            Ok(success) => success.0 == evm::ExitSucceed::Returned
                && Some(success.1@) == bn128_add_result(input@) && success.1@.len() == 64
                && success.2 == rich_call_cost(input@.len()),
            Err(_) => bn128_add_result(input@) is None,
        }),
{
    let stub = evm::Context {
        address: primitive_types::H160::zero(),
        caller: primitive_types::H160::zero(),
        apparent_value: primitive_types::U256::zero(),
    };
    <pallet_evm_precompile_bn128::Bn128Add as fp_evm::Precompile>::execute(input, target_gas, &stub)
}

/// Relies on `Bn128Mul` through `fp_evm::Precompile::execute`, under the
/// same calling convention as the other variable-cost primitives. The
/// implementation reads a 64-byte point and a 32-byte scalar without a
/// length check, so an input shorter than 96 bytes is excluded here.
#[verifier::external_body]
pub(crate) fn bn128_mul_call(input: &[u8], target_gas: Option<u64>) -> (r: Result<
    (evm::ExitSucceed, Vec<u8>, u64),
    evm::ExitError,
>)
    requires
        input@.len() >= 96,
    ensures
        (target_gas matches Some(gas) && rich_call_cost(input@.len()) > gas) ==> r is Err,
        (target_gas is None || (target_gas matches Some(gas) && rich_call_cost(input@.len())
            <= gas)) ==> (match r {
            Ok(success) => success.0 == evm::ExitSucceed::Returned
                && Some(success.1@) == bn128_mul_result(input@) && success.1@.len() == 64
                && success.2 == rich_call_cost(input@.len()),
            Err(_) => bn128_mul_result(input@) is None,
        }),
{
    let stub = evm::Context {
        address: primitive_types::H160::zero(),
        caller: primitive_types::H160::zero(),
        apparent_value: primitive_types::U256::zero(),
    };
    <pallet_evm_precompile_bn128::Bn128Mul as fp_evm::Precompile>::execute(input, target_gas, &stub)
}

/// Relies on `Bn128Pairing` through `fp_evm::Precompile::execute`, under
/// the same calling convention as the other variable-cost primitives.
/// Whole 192-byte pairs are read and trailing bytes ignored, so no input
/// length need be excluded.
#[verifier::external_body]
pub(crate) fn bn128_pairing_call(input: &[u8], target_gas: Option<u64>) -> (r: Result<
    (evm::ExitSucceed, Vec<u8>, u64),
    evm::ExitError,
>)
    ensures
        (target_gas matches Some(gas) && rich_call_cost(input@.len()) > gas) ==> r is Err,
        (target_gas is None || (target_gas matches Some(gas) && rich_call_cost(input@.len())
            <= gas)) ==> (match r {
            Ok(success) => success.0 == evm::ExitSucceed::Returned
                && Some(success.1@) == bn128_pairing_result(input@) && success.1@.len() == 32
                && success.2 == rich_call_cost(input@.len()),
            Err(_) => bn128_pairing_result(input@) is None,
        }),
{
    let stub = evm::Context {
        address: primitive_types::H160::zero(),
        caller: primitive_types::H160::zero(),
        apparent_value: primitive_types::U256::zero(),
    };
    <pallet_evm_precompile_bn128::Bn128Pairing as fp_evm::Precompile>::execute(
        input,
        target_gas,
        &stub,
    )
}

/// Relies on `Blake2F` through `fp_evm::Precompile::execute`: the
/// compression primitive of this registry rejects every input whose
/// length differs from the 213 bytes its format requires, and its state
/// buffer handling aborts on an input of exactly that length — that
/// length is excluded here — so no admitted input completes normally.
#[verifier::external_body]
pub(crate) fn blake2f_call(input: &[u8], target_gas: Option<u64>) -> (r: Result<
    (evm::ExitSucceed, Vec<u8>, u64),
    evm::ExitError,
>)
    requires
        input@.len() != 213,
    ensures
        r is Err,
{
    let stub = evm::Context {
        address: primitive_types::H160::zero(),
        caller: primitive_types::H160::zero(),
        apparent_value: primitive_types::U256::zero(),
    };
    <pallet_evm_precompile_blake2::Blake2F as fp_evm::Precompile>::execute(input, target_gas, &stub)
}

} // verus!
