//! The flag byte of a wire frame.

use vstd::prelude::*;

verus! {

/// The frame is a heartbeat.
pub const HEARTBEAT: u8 = 0x80;

/// The frame carries settings.
pub const SETTINGS: u8 = 0x40;

/// The frame is a remote request.
pub const REMOTE: u8 = 0x02;

/// The frame has a 29-bit identifier.
pub const EXTENDED: u8 = 0x01;

/// Every bit that has a meaning.
pub const KNOWN: u8 = 0xc3;

/// A set of the four flags, held as their bits.
#[derive(Debug, Clone, Copy, PartialEq, Eq, Structural)]
pub struct Flags(u8);

impl View for Flags {
    type V = u8;

    closed spec fn view(&self) -> u8 {
        self.0
    }
}

impl Flags {
    #[verifier::type_invariant]
    spec fn only_known(self) -> bool {
        self.0 & !KNOWN == 0
    }

    /// No flag set.
    pub fn empty() -> (r: Flags)
        ensures
            r@ == 0,
    {
        assert(0u8 & !KNOWN == 0) by (bit_vector);
        Flags(0)
    }

    /// The flags among `bits`; bits without a meaning are dropped.
    pub fn from_bits_truncate(bits: u8) -> (r: Flags)
        ensures
            r@ == bits & KNOWN,
    {
        assert((bits & KNOWN) & !KNOWN == 0) by (bit_vector);
        Flags(bits & KNOWN)
    }

    /// The heartbeat flag alone.
    pub fn heartbeat() -> (r: Flags)
        ensures
            r@ == HEARTBEAT,
    {
        assert(HEARTBEAT & !KNOWN == 0) by (bit_vector);
        Flags(HEARTBEAT)
    }

    /// The settings flag alone.
    pub fn settings() -> (r: Flags)
        ensures
            r@ == SETTINGS,
    {
        assert(SETTINGS & !KNOWN == 0) by (bit_vector);
        Flags(SETTINGS)
    }

    /// The remote flag alone.
    pub fn remote() -> (r: Flags)
        ensures
            r@ == REMOTE,
    {
        assert(REMOTE & !KNOWN == 0) by (bit_vector);
        Flags(REMOTE)
    }

    /// The extended flag alone.
    pub fn extended() -> (r: Flags)
        ensures
            r@ == EXTENDED,
    {
        assert(EXTENDED & !KNOWN == 0) by (bit_vector);
        Flags(EXTENDED)
    }

    /// The bits of the set.
    pub fn bits(&self) -> (r: u8)
        ensures
            r == self@,
    {
        self.0
    }

    /// The flags in either set.
    pub fn union(self, other: Flags) -> (r: Flags)
        ensures
            r@ == self@ | other@,
    {
        proof {
            use_type_invariant(&self);
            use_type_invariant(&other);
        }
        let (a, b) = (self.0, other.0);
        assert((a | b) & !KNOWN == 0) by (bit_vector)
            requires
                a & !KNOWN == 0,
                b & !KNOWN == 0,
        ;
        Flags(a | b)
    }

    /// Adds the flags of `other`.
    pub fn insert(&mut self, other: Flags)
        ensures
            final(self)@ == old(self)@ | other@,
    {
        *self = self.union(other);
    }

    /// Whether the two sets share a flag.
    pub fn intersects(&self, other: Flags) -> (r: bool)
        ensures
            r == (self@ & other@ != 0),
    {
        self.0 & other.0 != 0
    }

    /// Whether every flag of `other` is in the set.
    pub fn contains(&self, other: Flags) -> (r: bool)
        ensures
            r == (self@ & other@ == other@),
    {
        self.0 & other.0 == other.0
    }
}

} // verus!
