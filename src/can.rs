//! CAN frames as the bridge sees them, and their conversion to and from the
//! wire frame.

use crate::bits::{bits_of, lemma_bits_of_frame};
use crate::datagram::{padded_payload, Frame, FRAME_LEN};
use crate::error::Error;
use crate::flags::{Flags, EXTENDED, KNOWN, REMOTE};
use vstd::prelude::*;

verus! {

/// Largest standard (11-bit) identifier.
pub const MAX_STANDARD_ID: u16 = 0x7ff;

/// Largest extended (29-bit) identifier.
pub const MAX_EXTENDED_ID: u32 = 0x1fff_ffff;

/// Largest payload of a classic CAN frame.
pub const MAX_DLC: usize = 8;

/// Relies on `embedded_can::StandardId::new`, which accepts `raw` exactly when
/// it is at most 0x7FF, and on `StandardId::as_raw`, which gives it back.
#[verifier::external_body]
fn standard_id(raw: u16) -> (r: Option<u16>)
    ensures
        r == (if raw <= MAX_STANDARD_ID {
            Some(raw)
        } else {
            None::<u16>
        }),
{
    embedded_can::StandardId::new(raw).map(|id| id.as_raw())
}

/// Relies on `embedded_can::ExtendedId::new`, which accepts `raw` exactly when
/// it is at most 0x1FFF_FFFF, and on `ExtendedId::as_raw`, which gives it back.
#[verifier::external_body]
fn extended_id(raw: u32) -> (r: Option<u32>)
    ensures
        r == (if raw <= MAX_EXTENDED_ID {
            Some(raw)
        } else {
            None::<u32>
        }),
{
    embedded_can::ExtendedId::new(raw).map(|id| id.as_raw())
}

/// A CAN identifier: 11-bit standard or 29-bit extended.
#[derive(Debug, Clone, Copy, PartialEq, Eq, Structural)]
pub enum CanId {
    Standard(u16),
    Extended(u32),
}

impl CanId {
    /// The raw value fits the width of its kind.
    pub open spec fn spec_valid(self) -> bool {
        match self {
            CanId::Standard(raw) => raw <= MAX_STANDARD_ID,
            CanId::Extended(raw) => raw <= MAX_EXTENDED_ID,
        }
    }

    pub open spec fn spec_raw(self) -> u32 {
        match self {
            CanId::Standard(raw) => raw as u32,
            CanId::Extended(raw) => raw,
        }
    }

    /// A standard identifier, if `raw` fits 11 bits.
    pub fn standard(raw: u16) -> (r: Option<CanId>)
        ensures
            r == (if raw <= MAX_STANDARD_ID {
                Some(CanId::Standard(raw))
            } else {
                None::<CanId>
            }),
    {
        match standard_id(raw) {
            Some(raw) => Some(CanId::Standard(raw)),
            None => None,
        }
    }

    /// An extended identifier, if `raw` fits 29 bits.
    pub fn extended(raw: u32) -> (r: Option<CanId>)
        ensures
            r == (if raw <= MAX_EXTENDED_ID {
                Some(CanId::Extended(raw))
            } else {
                None::<CanId>
            }),
    {
        match extended_id(raw) {
            Some(raw) => Some(CanId::Extended(raw)),
            None => None,
        }
    }

    /// Whether the raw value fits the width of its kind.
    pub fn is_valid(&self) -> (r: bool)
        ensures
            r == self.spec_valid(),
    {
        match *self {
            CanId::Standard(raw) => standard_id(raw).is_some(),
            CanId::Extended(raw) => extended_id(raw).is_some(),
        }
    }

    /// Whether the identifier is extended.
    pub fn is_extended(&self) -> (r: bool)
        ensures
            r == (*self is Extended),
    {
        match *self {
            CanId::Standard(_) => false,
            CanId::Extended(_) => true,
        }
    }

    /// The raw value.
    pub fn as_raw(&self) -> (r: u32)
        ensures
            r == self.spec_raw(),
    {
        match *self {
            CanId::Standard(raw) => raw as u32,
            CanId::Extended(raw) => raw,
        }
    }
}

/// A classic CAN frame: identifier, remote-request flag, data length code and
/// payload bytes.
#[derive(Debug, Clone)]
pub struct CanFrame {
    pub id: CanId,
    pub remote: bool,
    pub dlc: usize,
    pub data: Vec<u8>,
}

/// What a CAN frame holds.
#[verifier::ext_equal]
pub struct CanFrameView {
    pub id: CanId,
    pub remote: bool,
    pub dlc: nat,
    pub data: Seq<u8>,
}

impl View for CanFrame {
    type V = CanFrameView;

    open spec fn view(&self) -> CanFrameView {
        CanFrameView { id: self.id, remote: self.remote, dlc: self.dlc as nat, data: self.data@ }
    }
}

impl CanFrame {
    /// A data frame carrying `data`; none when `data` exceeds 8 bytes or the
    /// identifier does not fit its kind.
    pub fn new(id: CanId, data: &[u8]) -> (r: Option<CanFrame>)
        ensures
            data@.len() <= MAX_DLC && id.spec_valid() ==> (r matches Some(f) && f@ == CanFrameView {
                id,
                remote: false,
                dlc: data@.len(),
                data: data@,
            }),
            !(data@.len() <= MAX_DLC && id.spec_valid()) ==> r is None,
    {
        if data.len() > MAX_DLC || !id.is_valid() {
            return None;
        }
        Some(CanFrame { id, remote: false, dlc: data.len(), data: vstd::slice::slice_to_vec(data) })
    }

    /// A remote request for `dlc` bytes; none when `dlc` exceeds 8 or the
    /// identifier does not fit its kind.
    pub fn new_remote(id: CanId, dlc: usize) -> (r: Option<CanFrame>)
        ensures
            dlc <= MAX_DLC && id.spec_valid() ==> (r matches Some(f) && f@ == CanFrameView {
                id,
                remote: true,
                dlc: dlc as nat,
                data: Seq::empty(),
            }),
            !(dlc <= MAX_DLC && id.spec_valid()) ==> r is None,
    {
        if dlc > MAX_DLC || !id.is_valid() {
            return None;
        }
        let r = CanFrame { id, remote: true, dlc, data: Vec::new() };
        assert(r@ =~= CanFrameView { id, remote: true, dlc: dlc as nat, data: Seq::empty() });
        Some(r)
    }

    /// Whether the identifier is extended.
    pub fn is_extended(&self) -> (r: bool)
        ensures
            r == (self.id is Extended),
    {
        self.id.is_extended()
    }

    /// Whether the frame is a remote request.
    pub fn is_remote_frame(&self) -> (r: bool)
        ensures
            r == self.remote,
    {
        self.remote
    }

    /// The identifier.
    pub fn id(&self) -> (r: CanId)
        ensures
            r == self.id,
    {
        self.id
    }

    /// The data length code.
    pub fn dlc(&self) -> (r: usize)
        ensures
            r == self.dlc,
    {
        self.dlc
    }

    /// The payload bytes.
    pub fn data(&self) -> (r: &[u8])
        ensures
            r@ == self.data@,
    {
        self.data.as_slice()
    }
}

impl CanFrameView {
    /// A valid identifier, and exactly `dlc` payload bytes for a data frame or
    /// none for a remote frame.
    pub open spec fn well_formed(self) -> bool {
        &&& self.id.spec_valid()
        &&& if self.remote {
            self.data.len() == 0
        } else {
            self.data.len() == self.dlc
        }
    }

    /// The payload bytes that go on the wire: at most `dlc` of them.
    pub open spec fn sent_payload(self) -> Seq<u8> {
        if self.dlc < self.data.len() {
            self.data.take(self.dlc as int)
        } else {
            self.data
        }
    }
}

/// The flag bits of a frame with the given identifier kind and remote flag.
pub open spec fn wire_flags(extended: bool, remote: bool) -> u8 {
    (if extended {
        EXTENDED
    } else {
        0u8
    }) | (if remote {
        REMOTE
    } else {
        0u8
    })
}

/// `w` is the wire form of `f`.
pub open spec fn encodes(w: Seq<u8>, f: CanFrameView) -> bool {
    &&& w.len() == FRAME_LEN
    &&& bits_of(w, 0, 32) == f.id.spec_raw()
    &&& bits_of(w, 32, 8) == wire_flags(f.id is Extended, f.remote)
    &&& bits_of(w, 40, 8) == f.dlc
    &&& w.subrange(6, 14) == padded_payload(f.sent_payload())
}

/// The CAN frame that the wire frame `w` holds, or why it holds none.
pub open spec fn spec_from_wire(w: Seq<u8>) -> Result<CanFrameView, Error> {
    let raw = bits_of(w, 0, 32);
    let flags = bits_of(w, 32, 8) as u8;
    let dlc = bits_of(w, 40, 8);
    let extended = flags & EXTENDED != 0;
    let remote = flags & REMOTE != 0;
    if dlc > MAX_DLC {
        Err(Error::LengthError)
    } else if (extended && raw > MAX_EXTENDED_ID) || (!extended && raw > MAX_STANDARD_ID) {
        Err(Error::InvalidIdentifier)
    } else {
        Ok(
            CanFrameView {
                id: if extended {
                    CanId::Extended(raw as u32)
                } else {
                    CanId::Standard(raw as u16)
                },
                remote,
                dlc: dlc as nat,
                data: if remote {
                    Seq::empty()
                } else {
                    w.subrange(6, 6 + dlc)
                },
            },
        )
    }
}

proof fn lemma_wire_flags(extended: bool, remote: bool)
    ensures
        (wire_flags(extended, remote) & EXTENDED != 0) == extended,
        (wire_flags(extended, remote) & REMOTE != 0) == remote,
{
    assert((EXTENDED | REMOTE) & EXTENDED != 0 && (EXTENDED | REMOTE) & REMOTE != 0) by (bit_vector);
    assert((EXTENDED | 0u8) & EXTENDED != 0 && (EXTENDED | 0u8) & REMOTE == 0) by (bit_vector);
    assert((0u8 | REMOTE) & EXTENDED == 0 && (0u8 | REMOTE) & REMOTE != 0) by (bit_vector);
    assert((0u8 | 0u8) & EXTENDED == 0 && (0u8 | 0u8) & REMOTE == 0) by (bit_vector);
}

/// Round trip: the wire form of a well-formed CAN frame with a data length
/// code of at most 8 converts back to that same frame, identifier, kind,
/// remote flag, data length code and payload bytes alike.
pub proof fn lemma_round_trip(f: CanFrameView, w: Seq<u8>)
    requires
        f.well_formed(),
        f.dlc <= MAX_DLC,
        encodes(w, f),
    ensures
        spec_from_wire(w) == Ok::<CanFrameView, Error>(f),
{
    lemma_wire_flags(f.id is Extended, f.remote);
    let g = spec_from_wire(w)->Ok_0;
    assert(f.sent_payload() =~= f.data);
    if !f.remote {
        assert forall|i: int| 0 <= i < f.dlc implies #[trigger] w.subrange(6, 6 + f.dlc as int)[i]
            == f.data[i] by {
            assert(w.subrange(6, 6 + f.dlc as int)[i] == w.subrange(6, 14)[i]);
        }
    }
    assert(g.data =~= f.data);
}

impl Flags {
    /// The flags of a CAN frame: extended for a 29-bit identifier, remote for
    /// a remote request.
    pub fn from_frame(frame: &CanFrame) -> (r: Flags)
        ensures
            r@ == wire_flags(frame.id is Extended, frame.remote),
    {
        let mut flags = Flags::empty();
        if frame.id.is_extended() {
            flags.insert(Flags::extended());
        }
        if frame.remote {
            flags.insert(Flags::remote());
        }
        assert(forall|x: u8| 0u8 | x == x) by (bit_vector);
        assert(forall|x: u8| x | 0u8 == x) by (bit_vector);
        flags
    }
}

impl Frame {
    /// Whether the flags mark a 29-bit identifier.
    pub fn is_extended(&self) -> (r: bool)
        ensures
            r == (self.spec_flags() as u8 & EXTENDED != 0),
    {
        self.flags() & EXTENDED != 0
    }

    /// Whether the flags mark a remote request.
    pub fn is_remote_frame(&self) -> (r: bool)
        ensures
            r == (self.spec_flags() as u8 & REMOTE != 0),
    {
        self.flags() & REMOTE != 0
    }

    /// The wire form of a CAN frame. Fails with `LengthError` when the data
    /// length code or the payload exceeds 8 bytes, and with
    /// `InvalidIdentifier` when the identifier does not fit its kind.
    pub fn from_frame(frame: &CanFrame) -> (r: Result<Frame, Error>)
        ensures
            frame.dlc > MAX_DLC || frame.data@.len() > MAX_DLC ==> r == Err::<Frame, Error>(
                Error::LengthError,
            ),
            frame.dlc <= MAX_DLC && frame.data@.len() <= MAX_DLC && !frame.id.spec_valid() ==> r
                == Err::<Frame, Error>(Error::InvalidIdentifier),
            frame.dlc <= MAX_DLC && frame.data@.len() <= MAX_DLC && frame.id.spec_valid() ==> (r matches Ok(
                w,
            ) && encodes(w@, frame@)),
    {
        if frame.dlc > MAX_DLC || frame.data.len() > MAX_DLC {
            return Err(Error::LengthError);
        }
        if !frame.id.is_valid() {
            return Err(Error::InvalidIdentifier);
        }
        let n: usize = if frame.dlc < frame.data.len() {
            frame.dlc
        } else {
            frame.data.len()
        };
        let mut w = Frame::new();
        w.set_id(frame.id.as_raw());
        let ghost w1 = w@;
        w.set_flags(Flags::from_frame(frame).bits());
        let ghost w2 = w@;
        w.set_dlc(frame.dlc as u8);
        let ghost w3 = w@;
        w.set_payload(frame.data.as_slice(), n);
        proof {
            lemma_bits_of_frame(w@, w1, 0, 32);
            lemma_bits_of_frame(w@, w2, 32, 8);
            lemma_bits_of_frame(w@, w3, 40, 8);
            assert(frame.data@.take(n as int) =~= frame@.sent_payload());
        }
        Ok(w)
    }

    /// The CAN frame that this wire frame holds. Fails with `LengthError`
    /// when the data length code exceeds 8, and with `InvalidIdentifier` when
    /// the identifier does not fit the kind its flags give. Flag bits without
    /// a meaning are ignored.
    pub fn to_frame(&self) -> (r: Result<CanFrame, Error>)
        ensures
            r matches Ok(c) ==> spec_from_wire(self@) == Ok::<CanFrameView, Error>(c@),
            r matches Err(e) ==> spec_from_wire(self@) == Err::<CanFrameView, Error>(e),
    {
        let dlc = self.dlc();
        if dlc as usize > MAX_DLC {
            return Err(Error::LengthError);
        }
        let bits = self.flags();
        let flags = Flags::from_bits_truncate(bits);
        let extended = flags.contains(Flags::extended());
        let remote = flags.contains(Flags::remote());
        assert((bits & KNOWN) & EXTENDED == EXTENDED <==> bits & EXTENDED != 0) by (bit_vector);
        assert((bits & KNOWN) & REMOTE == REMOTE <==> bits & REMOTE != 0) by (bit_vector);
        let raw = self.id();
        let id = if extended {
            CanId::extended(raw)
        } else if raw <= 0xffff {
            CanId::standard(raw as u16)
        } else {
            None
        };
        match id {
            None => Err(Error::InvalidIdentifier),
            Some(id) => {
                let data = if remote {
                    Vec::new()
                } else {
                    self.payload(dlc as usize)
                };
                let c = CanFrame { id, remote, dlc: dlc as usize, data };
                proof {
                    assert(c@.data =~= spec_from_wire(self@)->Ok_0.data);
                }
                Ok(c)
            },
        }
    }
}

} // verus!
