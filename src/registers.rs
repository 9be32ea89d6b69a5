//! Memory-mapped I/O registers, as the library names them to the caller.
use vstd::prelude::*;

verus! {

/// A value to store in the 8-bit I/O register at `address`.
#[derive(Clone, Copy, Debug, PartialEq, Eq, Structural)]
pub struct RegisterWrite {
    pub address: u16,
    pub value: u8,
}

} // verus!
