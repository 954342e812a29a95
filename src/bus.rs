//! The bus number a bridge announces.

use crate::error::Error;
use vstd::prelude::*;

verus! {

/// Largest bus number.
pub const MAX_BUS_NUMBER: u8 = 15;

/// Bus number used when none is configured.
pub const DEFAULT_BUS_NUMBER: u8 = 13;

/// A bus number in `0..=15`.
#[derive(Debug, Clone, Copy)]
pub struct BusNumber(u8);

impl View for BusNumber {
    type V = u8;

    closed spec fn view(&self) -> u8 {
        self.0
    }
}

impl BusNumber {
    #[verifier::type_invariant]
    spec fn in_range(self) -> bool {
        self.0 <= MAX_BUS_NUMBER
    }

    /// Makes a bus number of `value`; fails with `RangeError` above 15.
    pub fn try_from(value: u8) -> (r: Result<BusNumber, Error>)
        ensures
            value <= 15 ==> (r matches Ok(b) && b@ == value),
            value > 15 ==> r == Err::<BusNumber, Error>(Error::RangeError),
    {
        if value > MAX_BUS_NUMBER {
            Err(Error::RangeError)
        } else {
            Ok(BusNumber(value))
        }
    }

    /// The number itself.
    pub fn value(&self) -> (r: u8)
        ensures
            r == self@,
            r <= 15,
    {
        proof {
            use_type_invariant(self);
        }
        self.0
    }
}

impl From<BusNumber> for u8 {
    fn from(value: BusNumber) -> (r: u8) {
        value.value()
    }
}

impl vstd::std_specs::convert::FromSpecImpl<BusNumber> for u8 {
    open spec fn obeys_from_spec() -> bool {
        true
    }

    open spec fn from_spec(v: BusNumber) -> u8 {
        v@
    }
}

impl Default for BusNumber {
    /// Bus number 13.
    fn default() -> (r: BusNumber)
        ensures
            r@ == 13,
    {
        BusNumber(DEFAULT_BUS_NUMBER)
    }
}

} // verus!
