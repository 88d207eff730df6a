//! The 20-byte contract address and the selector byte that picks a primitive.

use vstd::prelude::*;

verus! {

/// A fixed-width 20-byte contract address. Only the final byte is
/// semantically significant to the dispatcher: it selects the primitive
/// family.
#[derive(Clone, Copy)]
pub struct Address {
    pub bytes: [u8; 20],
}

impl Address {
    /// The byte that selects the primitive family.
    pub open spec fn selector(&self) -> u8 {
        self.bytes@[19]
    }

    /// Reads the selector byte out of the address.
    pub fn selector_byte(&self) -> (sel: u8)
        ensures
            sel == self.selector(),
    {
        self.bytes[19]
    }
}

/// The nine recognized selector values; any other value marks an address
/// that must never reach the dispatcher.
pub open spec fn is_precompile_selector(sel: u8) -> bool {
    1 <= sel <= 9
}

} // verus!
