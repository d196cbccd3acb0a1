//! Traits shared by the panels' command tables.
use vstd::prelude::*;

verus! {

/// All commands need to have this trait which gives the address of the command
/// which needs to be sent via SPI
pub trait Command: Copy {
    /// The address byte of the command, in the panel's bit order.
    spec fn address_spec(self) -> u8;

    /// Returns the address of the command
    fn address(self) -> (r: u8)
        ensures
            r == self.address_spec(),
    ;
}

} // verus!
