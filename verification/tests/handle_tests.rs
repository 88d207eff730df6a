use fp_evm::LinearCostPrecompile;
use fp_evm::Precompile;
use precompile_dispatch::{
    execute_precompiled, extract_linear_result, extract_result, Address, ExecutionHandle,
};

fn addr(selector: u8) -> Address {
    let mut bytes = [0u8; 20];
    bytes[19] = selector;
    Address { bytes }
}

#[test]
fn handle_exposes_bound_input() {
    let input = [1u8, 2, 3, 4];
    let handle = ExecutionHandle::new(&input);
    assert_eq!(handle.input(), &input[..]);
}

#[test]
fn record_cost_accepts_every_value() {
    let input = [0u8; 1];
    let mut handle = ExecutionHandle::new(&input);
    assert_eq!(handle.record_cost(0), Ok(()));
    assert_eq!(handle.record_cost(1), Ok(()));
    assert_eq!(handle.record_cost(u64::MAX), Ok(()));
}

#[test]
fn remaining_gas_is_unbounded() {
    let input = [0u8; 1];
    let handle = ExecutionHandle::new(&input);
    assert_eq!(handle.remaining_gas(), u64::MAX);
}

#[test]
fn log_accepts_every_record() {
    let input = [0u8; 1];
    let mut handle = ExecutionHandle::new(&input);
    assert_eq!(handle.log(addr(0x01), vec![[7u8; 32]], vec![1, 2, 3]), Ok(()));
    assert_eq!(handle.log(addr(0xff), Vec::new(), Vec::new()), Ok(()));
}

#[test]
fn gas_limit_is_unset() {
    let input = [0u8; 1];
    let handle = ExecutionHandle::new(&input);
    assert_eq!(handle.gas_limit(), None);
}

#[test]
fn extract_linear_result_unwraps_returned_output() {
    let outcome: Result<(evm::ExitSucceed, Vec<u8>), evm::ExitError> =
        Ok((evm::ExitSucceed::Returned, vec![7, 8]));
    assert_eq!(extract_linear_result(outcome), vec![7, 8]);
}

#[test]
fn extract_result_unwraps_returned_output() {
    let outcome: Result<(evm::ExitSucceed, Vec<u8>, u64), evm::ExitError> =
        Ok((evm::ExitSucceed::Returned, vec![9], 15));
    assert_eq!(extract_result(outcome), vec![9]);
}

#[test]
fn dispatcher_matches_direct_linear_primitive() {
    let input = b"direct comparison";
    let direct = <pallet_evm_precompile_simple::Sha256 as LinearCostPrecompile>::execute(input, 0)
        .unwrap();
    assert_eq!(execute_precompiled(&addr(0x02), input), direct.1);
}

#[test]
fn dispatcher_matches_direct_rich_primitive() {
    let mut input = vec![0u8; 96];
    input[31] = 1;
    input[63] = 1;
    input[95] = 1;
    input.extend_from_slice(&[0x03, 0x05, 0x07]);
    let context = evm::Context {
        address: primitive_types::H160::zero(),
        caller: primitive_types::H160::zero(),
        apparent_value: primitive_types::U256::zero(),
    };
    let direct =
        <pallet_evm_precompile_modexp::Modexp as Precompile>::execute(&input, None, &context)
            .unwrap();
    assert_eq!(execute_precompiled(&addr(0x05), &input), direct.1);
}
