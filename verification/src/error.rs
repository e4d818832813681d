//! The ways in which building a value can fail.

use vstd::prelude::*;

verus! {

/// Why a number or a byte vector was refused.
#[derive(Clone, Copy, Debug, PartialEq, Eq, Structural)]
pub enum ValueError {
    /// A Port-Address outside `0..=32767`; holds the number that was offered.
    OutOfRange(i32),
    /// DMX data of no channel or of more than 512; holds the length that was offered.
    InvalidLength(usize),
}

} // verus!
