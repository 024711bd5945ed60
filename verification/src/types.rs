//! Machine word sizes.
use vstd::prelude::*;

verus! {

/// A location on the 16-bit CPU bus.
pub type Address = u16;

/// One octet of memory or of a register.
pub type Byte = u8;

/// Two octets, low byte first on the bus.
pub type Word = u16;

} // verus!
