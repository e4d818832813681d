//! One frame of DMX channel values.

use crate::error::ValueError;
use vstd::prelude::*;
use vstd::std_specs::cmp::PartialEqSpecImpl;
use vstd::std_specs::convert::FromSpecImpl;
use vstd::std_specs::convert::TryFromSpecImpl;

verus! {

/// The most channels that one universe carries.
pub const MAX_CHANNELS: usize = 512;

/// The values of the first channels of a universe, at least one and at most
/// `MAX_CHANNELS`, one byte each.
#[derive(Debug, Eq, PartialOrd, Ord, Hash)]
pub struct DMXData(Vec<u8>);

impl View for DMXData {
    type V = Seq<u8>;

    closed spec fn view(&self) -> Seq<u8> {
        self.0@
    }
}

/// Whether so many channels make a frame.
pub open spec fn valid_length(length: nat) -> bool {
    1 <= length <= MAX_CHANNELS
}

impl DMXData {
    #[verifier::type_invariant]
    spec fn well_formed(self) -> bool {
        valid_length(self.0@.len())
    }

    /// How many channels the frame holds: never none, never more than
    /// `MAX_CHANNELS`.
    pub fn len(&self) -> (length: usize)
        ensures
            length == self@.len(),
            valid_length(self@.len()),
    {
        proof {
            use_type_invariant(self);
        }
        self.0.len()
    }

    /// The channel values in order.
    pub fn as_slice(&self) -> (channels: &[u8])
        ensures
            channels@ == self@,
            valid_length(self@.len()),
    {
        proof {
            use_type_invariant(self);
        }
        self.0.as_slice()
    }
}

impl TryFrom<Vec<u8>> for DMXData {
    type Error = ValueError;

    /// Accepts a vector of 1 to `MAX_CHANNELS` bytes and keeps it as it is;
    /// refuses every other, saying which length it refused.
    fn try_from(input: Vec<u8>) -> (result: Result<DMXData, ValueError>)
        ensures
            match result {
                Ok(data) => valid_length(input@.len()) && data@ == input@,
                Err(error) => !valid_length(input@.len()) && error == ValueError::InvalidLength(
                    input.len(),
                ),
            },
    {
        let channels = input.len();
        if channels > MAX_CHANNELS || channels == 0 {
            Err(ValueError::InvalidLength(channels))
        } else {
            Ok(DMXData(input))
        }
    }
}

impl TryFromSpecImpl<Vec<u8>> for DMXData {
    open spec fn obeys_try_from_spec() -> bool {
        true
    }

    closed spec fn try_from_spec(input: Vec<u8>) -> Result<DMXData, ValueError> {
        if valid_length(input@.len()) {
            Ok(DMXData(input))
        } else {
            Err(ValueError::InvalidLength(input.len()))
        }
    }
}

impl From<DMXData> for Vec<u8> {
    /// Hands out the vector that the frame was built from.
    fn from(input: DMXData) -> (channels: Vec<u8>)
        ensures
            channels@ == input@,
    {
        input.0
    }
}

impl FromSpecImpl<DMXData> for Vec<u8> {
    open spec fn obeys_from_spec() -> bool {
        true
    }

    closed spec fn from_spec(input: DMXData) -> Vec<u8> {
        input.0
    }
}

impl Clone for DMXData {
    fn clone(&self) -> (copy: DMXData)
        ensures
            copy@ == self@,
    {
        proof {
            use_type_invariant(self);
        }
        let channels = self.0.clone();
        DMXData(channels)
    }
}

impl PartialEq for DMXData {
    /// Two frames are equal when they hold the same bytes in the same order.
    fn eq(&self, other: &DMXData) -> (equal: bool) {
        let equal = self.0 == other.0;
        // vectors that agree element by element show the same sequence
        assert(equal == (self.0@ =~= other.0@));
        equal
    }
}

impl PartialEqSpecImpl for DMXData {
    open spec fn obeys_eq_spec() -> bool {
        true
    }

    open spec fn eq_spec(&self, other: &DMXData) -> bool {
        self@ == other@
    }
}

} // verus!
