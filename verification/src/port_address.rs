//! The Port-Address of an Art-Net universe.

use crate::error::ValueError;
use vstd::prelude::*;
use vstd::std_specs::convert::FromSpecImpl;
use vstd::std_specs::convert::TryFromSpecImpl;

verus! {

/// The largest Port-Address: fifteen bits, all set.
pub const MAX_PORT_ADDRESS: u16 = 32767;

/// A 15-bit Port-Address that names one universe.
#[derive(Clone, Copy, Debug, PartialEq, Eq, Structural, PartialOrd, Ord, Hash)]
pub struct PortAddress {
    value: u16,
}

impl View for PortAddress {
    type V = u16;

    closed spec fn view(&self) -> u16 {
        self.value
    }
}

impl PortAddress {
    #[verifier::type_invariant]
    spec fn in_range(self) -> bool {
        self.value <= MAX_PORT_ADDRESS
    }

    /// The address with the given number, for callers that know the number to
    /// be in range.
    pub(crate) fn from_number(value: u16) -> (address: PortAddress)
        requires
            value <= MAX_PORT_ADDRESS,
        ensures
            address@ == value,
    {
        PortAddress { value }
    }

    /// The address as a number, which never exceeds `MAX_PORT_ADDRESS`.
    pub fn value(&self) -> (value: u16)
        ensures
            value == self@,
            value <= MAX_PORT_ADDRESS,
    {
        proof {
            use_type_invariant(self);
        }
        self.value
    }

    /// The two bytes of the address as they stand in a packet, low byte first.
    pub fn to_le_bytes(&self) -> (bytes: [u8; 2])
        ensures
            bytes@ == le_bytes(self@),
    {
        let low: u8 = (self.value % 256) as u8;
        let high: u8 = (self.value / 256) as u8;
        [low, high]
    }
}

/// A 16-bit number as two bytes, low byte first.
pub open spec fn le_bytes(value: u16) -> Seq<u8> {
    seq![(value % 256) as u8, (value / 256) as u8]
}

impl TryFrom<i32> for PortAddress {
    type Error = ValueError;

    /// Accepts the numbers from 0 to `MAX_PORT_ADDRESS` and refuses every
    /// other, saying which number it refused.
    fn try_from(value: i32) -> (result: Result<PortAddress, ValueError>)
        ensures
            match result {
                Ok(address) => 0 <= value <= MAX_PORT_ADDRESS && address@ == value,
                Err(error) => !(0 <= value <= MAX_PORT_ADDRESS) && error == ValueError::OutOfRange(
                    value,
                ),
            },
    {
        if 0 <= value && value <= MAX_PORT_ADDRESS as i32 {
            Ok(PortAddress { value: value as u16 })
        } else {
            Err(ValueError::OutOfRange(value))
        }
    }
}

impl TryFromSpecImpl<i32> for PortAddress {
    open spec fn obeys_try_from_spec() -> bool {
        true
    }

    closed spec fn try_from_spec(value: i32) -> Result<PortAddress, ValueError> {
        if 0 <= value <= MAX_PORT_ADDRESS {
            Ok(PortAddress { value: value as u16 })
        } else {
            Err(ValueError::OutOfRange(value))
        }
    }
}

impl From<u8> for PortAddress {
    /// Every `u8` is a Port-Address.
    fn from(value: u8) -> (address: PortAddress)
        ensures
            address@ == value,
    {
        PortAddress { value: value as u16 }
    }
}

impl FromSpecImpl<u8> for PortAddress {
    open spec fn obeys_from_spec() -> bool {
        true
    }

    closed spec fn from_spec(value: u8) -> PortAddress {
        PortAddress { value: value as u16 }
    }
}

/// Two addresses are the same address exactly when their numbers are equal.
pub proof fn lemma_equal_by_value(a: PortAddress, b: PortAddress)
    ensures
        a == b <==> a@ == b@,
{
}

} // verus!
