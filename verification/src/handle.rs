//! The execution handle given to a primitive: read-only access to the call
//! input plus gas and logging operations that are stubbed out, because in
//! this deployment no gas is metered and no log is kept.

use vstd::prelude::*;
use crate::address::Address;

verus! {

/// A short-lived adapter constructed once per dispatch. It exposes exactly
/// the operations the primitives use: reading the input, recording cost
/// (always succeeds, nothing is metered), querying the remaining gas
/// (always unbounded), emitting a log (always succeeds, the record is
/// discarded) and querying the configured gas limit (always unset).
pub struct ExecutionHandle<'a> {
    pub input: &'a [u8],
}

impl<'a> ExecutionHandle<'a> {
    /// Binds a fresh handle to the call input.
    pub fn new(input: &'a [u8]) -> (handle: Self)
        ensures
            handle.input@ == input@,
    {
        ExecutionHandle { input }
    }

    /// The call input the handle was bound to.
    pub fn input(&self) -> (data: &'a [u8])
        ensures
            data@ == self.input@,
    {
        self.input
    }

    /// Records an execution cost. No gas is metered, so every value is
    /// accepted and the handle is left unchanged.
    pub fn record_cost(&mut self, cost: u64) -> (outcome: Result<(), ()>)
        ensures
            outcome is Ok,
            *final(self) == *old(self),
    {
        let _ = cost;
        Ok(())
    }

    /// The gas still available: always the maximum representable value.
    pub fn remaining_gas(&self) -> (gas: u64)
        ensures
            gas == u64::MAX,
    {
        u64::MAX
    }

    /// Accepts a log record, reports success and discards it.
    pub fn log(
        &mut self,
        source: Address,
        topics: Vec<[u8; 32]>,
        data: Vec<u8>,
    ) -> (outcome: Result<(), ()>)
        ensures
            outcome is Ok,
            *final(self) == *old(self),
    {
        let _ = source;
        let _ = topics;
        let _ = data;
        Ok(())
    }

    /// The gas limit the call was configured with: always unset, meaning
    /// execution is unbounded.
    pub fn gas_limit(&self) -> (limit: Option<u64>)
        ensures
            limit is None,
    {
        None
    }
}

} // verus!
