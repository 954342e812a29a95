//! Datagram layouts: header, frame, packet and filter, each a fixed-size byte
//! buffer whose fields are bit ranges, most significant bit first.

use crate::bits::{
    bit_at,
    bits_of,
    get_bits,
    lemma_bits_of_frame,
    lemma_bits_of_zero,
    lemma_fits,
    lemma_low_bits_of_fitting,
    lemma_low_bits_u32,
    lemma_low_bits_u8,
    low_bits,
    same_outside,
    set_bits,
};
use crate::bus::BusNumber;
use crate::error::Error;
use crate::PROTOCOL_VERSION;
use vstd::prelude::*;

verus! {

/// Length of a header.
pub const HEADER_LEN: usize = 16;

/// Length of a frame.
pub const FRAME_LEN: usize = 14;

/// Length of a packet, a header followed by a frame.
pub const PACKET_LEN: usize = 30;

/// Length of a filter record.
pub const FILTER_LEN: usize = 24;

/// Copies exactly `N` bytes into an array.
fn array_from<const N: usize>(bytes: &[u8]) -> (r: [u8; N])
    requires
        bytes@.len() == N,
    ensures
        r@ == bytes@,
{
    let mut a: [u8; N] = [0u8; N];
    let mut i: usize = 0;
    while i < N
        invariant
            i <= N,
            bytes@.len() == N,
            forall|k: int| 0 <= k < i ==> a@[k] == bytes@[k],
        decreases N - i,
    {
        a[i] = bytes[i];
        i = i + 1;
    }
    assert(a@ =~= bytes@);
    a
}

/// Datagram header. Bits 8..60 hold the protocol version, bits 60..64 the
/// bus number and bits 72..128 the client identifier; bits 0..8 and 64..72
/// are reserved.
#[derive(Debug, Clone, Copy)]
pub struct Header(pub [u8; HEADER_LEN]);

impl View for Header {
    type V = Seq<u8>;

    open spec fn view(&self) -> Seq<u8> {
        self.0@
    }
}

impl Header {
    pub open spec fn spec_version(&self) -> int {
        bits_of(self@, 8, 52)
    }

    pub open spec fn spec_bus_number(&self) -> int {
        bits_of(self@, 60, 4)
    }

    pub open spec fn spec_client_identifier(&self) -> int {
        bits_of(self@, 72, 56)
    }

    /// The header that every emitted packet carries: the protocol version,
    /// bus number `bus`, client identifier zero and zero reserved bits.
    pub open spec fn is_standard(&self, bus: u8) -> bool {
        &&& self.spec_version() == PROTOCOL_VERSION
        &&& self.spec_bus_number() == bus
        &&& self.spec_client_identifier() == 0
        &&& bits_of(self@, 0, 8) == 0
        &&& bits_of(self@, 64, 8) == 0
    }

    /// A header of zero bytes.
    pub fn new() -> (r: Header)
        ensures
            forall|k: int| 0 <= k < HEADER_LEN ==> r@[k] == 0,
    {
        Header([0u8; HEADER_LEN])
    }

    /// The standard header for bus `bus_number`.
    pub fn with_bus_number(bus_number: BusNumber) -> (r: Header)
        ensures
            r.is_standard(bus_number@),
    {
        let mut h = Header::new();
        let ghost zero = h@;
        h.set_version(PROTOCOL_VERSION);
        let ghost h1 = h@;
        h.set_bus_number(bus_number.value());
        let ghost h2 = h@;
        h.set_client_identifier(0);
        proof {
            assert(PROTOCOL_VERSION >> 52u64 == 0) by (bit_vector);
            assert(0u64 >> 56u64 == 0) by (bit_vector);
            lemma_low_bits_of_fitting(PROTOCOL_VERSION, 52);
            lemma_low_bits_of_fitting(0, 56);
            lemma_bits_of_frame(h@, h1, 8, 52);
            lemma_bits_of_frame(h@, h2, 60, 4);
            lemma_bits_of_frame(h@, zero, 0, 8);
            lemma_bits_of_frame(h@, zero, 64, 8);
            lemma_bits_of_zero(zero, 0, 8);
            lemma_bits_of_zero(zero, 64, 8);
        }
        h
    }

    /// The protocol version field.
    pub fn version(&self) -> (r: u64)
        ensures
            r == self.spec_version(),
    {
        get_bits(&self.0, 8, 52)
    }

    /// Writes the low 52 bits of `value` into the version field.
    pub fn set_version(&mut self, value: u64)
        ensures
            final(self).spec_version() == low_bits(value, 52),
            same_outside(final(self)@, old(self)@, 8, 52),
    {
        set_bits(&mut self.0, 8, 52, value);
    }

    /// The bus number field.
    pub fn bus_number(&self) -> (r: u8)
        ensures
            r == self.spec_bus_number(),
            r <= 15,
    {
        let r = get_bits(&self.0, 60, 4);
        proof {
            lemma_fits(r, 4);
        }
        r as u8
    }

    /// Writes the low 4 bits of `value` into the bus number field.
    pub fn set_bus_number(&mut self, value: u8)
        ensures
            final(self).spec_bus_number() == low_bits(value as u64, 4),
            value <= 15 ==> final(self).spec_bus_number() == value,
            same_outside(final(self)@, old(self)@, 60, 4),
    {
        set_bits(&mut self.0, 60, 4, value as u64);
        proof {
            if value <= 15 {
                assert((value as u64) >> 4u64 == 0) by (bit_vector)
                    requires
                        value <= 15,
                ;
                lemma_low_bits_of_fitting(value as u64, 4);
            }
        }
    }

    /// The client identifier field.
    pub fn client_identifier(&self) -> (r: u64)
        ensures
            r == self.spec_client_identifier(),
    {
        get_bits(&self.0, 72, 56)
    }

    /// Writes the low 56 bits of `value` into the client identifier field.
    pub fn set_client_identifier(&mut self, value: u64)
        ensures
            final(self).spec_client_identifier() == low_bits(value, 56),
            same_outside(final(self)@, old(self)@, 72, 56),
    {
        set_bits(&mut self.0, 72, 56, value);
    }

    /// The 16 bytes of the header.
    pub fn as_bytes(&self) -> (r: &[u8])
        ensures
            r@ == self@,
            r@.len() == HEADER_LEN,
    {
        self.0.as_slice()
    }

    /// Reads a header from exactly 16 bytes.
    pub fn from_bytes(bytes: &[u8]) -> (r: Result<Header, Error>)
        ensures
            bytes@.len() == HEADER_LEN ==> (r matches Ok(h) && h@ == bytes@),
            bytes@.len() != HEADER_LEN ==> r == Err::<Header, Error>(Error::MalformedLength),
    {
        if bytes.len() != HEADER_LEN {
            Err(Error::MalformedLength)
        } else {
            Ok(Header(array_from(bytes)))
        }
    }
}

/// The eight payload bytes of a frame that carries `bytes`: the bytes in
/// order, then zeros.
pub open spec fn padded_payload(bytes: Seq<u8>) -> Seq<u8> {
    Seq::new(8, |i: int| if i < bytes.len() { bytes[i] } else { 0u8 })
}

/// Wire frame. Bits 0..32 hold the CAN identifier, bits 32..40 the flags,
/// bits 40..48 the data length code and bits 48..112 the payload: the payload
/// bytes in order, the first one most significant.
#[derive(Debug, Clone, Copy)]
pub struct Frame(pub [u8; FRAME_LEN]);

impl View for Frame {
    type V = Seq<u8>;

    open spec fn view(&self) -> Seq<u8> {
        self.0@
    }
}

impl Frame {
    pub open spec fn spec_id(&self) -> int {
        bits_of(self@, 0, 32)
    }

    pub open spec fn spec_flags(&self) -> int {
        bits_of(self@, 32, 8)
    }

    pub open spec fn spec_dlc(&self) -> int {
        bits_of(self@, 40, 8)
    }

    pub open spec fn spec_data(&self) -> int {
        bits_of(self@, 48, 64)
    }

    /// The eight payload bytes, bytes 6..14 of the frame.
    pub open spec fn spec_payload(&self) -> Seq<u8> {
        self@.subrange(6, 14)
    }

    /// A frame of zero bytes.
    pub fn new() -> (r: Frame)
        ensures
            forall|k: int| 0 <= k < FRAME_LEN ==> r@[k] == 0,
    {
        Frame([0u8; FRAME_LEN])
    }

    /// The identifier field.
    pub fn id(&self) -> (r: u32)
        ensures
            r == self.spec_id(),
    {
        let r = get_bits(&self.0, 0, 32);
        proof {
            lemma_fits(r, 32);
        }
        r as u32
    }

    /// Writes the identifier field.
    pub fn set_id(&mut self, value: u32)
        ensures
            final(self).spec_id() == value,
            same_outside(final(self)@, old(self)@, 0, 32),
    {
        set_bits(&mut self.0, 0, 32, value as u64);
        proof {
            lemma_low_bits_u32(value);
        }
    }

    /// The flags field.
    pub fn flags(&self) -> (r: u8)
        ensures
            r == self.spec_flags(),
    {
        let r = get_bits(&self.0, 32, 8);
        proof {
            lemma_fits(r, 8);
        }
        r as u8
    }

    /// Writes the flags field.
    pub fn set_flags(&mut self, value: u8)
        ensures
            final(self).spec_flags() == value,
            same_outside(final(self)@, old(self)@, 32, 8),
    {
        set_bits(&mut self.0, 32, 8, value as u64);
        proof {
            lemma_low_bits_u8(value);
        }
    }

    /// The data length code field.
    pub fn dlc(&self) -> (r: u8)
        ensures
            r == self.spec_dlc(),
    {
        let r = get_bits(&self.0, 40, 8);
        proof {
            lemma_fits(r, 8);
        }
        r as u8
    }

    /// Writes the data length code field.
    pub fn set_dlc(&mut self, value: u8)
        ensures
            final(self).spec_dlc() == value,
            same_outside(final(self)@, old(self)@, 40, 8),
    {
        set_bits(&mut self.0, 40, 8, value as u64);
        proof {
            lemma_low_bits_u8(value);
        }
    }

    /// The payload field as one integer.
    pub fn data(&self) -> (r: u64)
        ensures
            r == self.spec_data(),
    {
        get_bits(&self.0, 48, 64)
    }

    /// Writes the payload field as one integer.
    pub fn set_data(&mut self, value: u64)
        ensures
            final(self).spec_data() == value,
            same_outside(final(self)@, old(self)@, 48, 64),
    {
        set_bits(&mut self.0, 48, 64, value);
    }

    /// Writes the first `n` bytes of `bytes` as the payload, first byte most
    /// significant, and zeros after them.
    pub fn set_payload(&mut self, bytes: &[u8], n: usize)
        requires
            n <= bytes@.len(),
            n <= 8,
        ensures
            final(self).spec_payload() == padded_payload(bytes@.take(n as int)),
            same_outside(final(self)@, old(self)@, 48, 64),
    {
        let ghost start = self@;
        let mut i: usize = 0;
        while i < 8
            invariant
                i <= 8,
                n <= bytes@.len(),
                n <= 8,
                start.len() == FRAME_LEN,
                forall|k: int| 0 <= k < 6 ==> self@[k] == start[k],
                forall|k: int|
                    6 <= k < 6 + i ==> #[trigger] self@[k] == (if k - 6 < n {
                        bytes@[k - 6]
                    } else {
                        0u8
                    }),
            decreases 8 - i,
        {
            let b: u8 = if i < n {
                bytes[i]
            } else {
                0
            };
            let ghost before = self@;
            self.0[6 + i] = b;
            assert(self@ == before.update(6 + i, b));
            i = i + 1;
        }
        assert forall|k: int| 0 <= k < 8 implies #[trigger] self.spec_payload()[k]
            == padded_payload(bytes@.take(n as int))[k] by {
            assert(self.spec_payload()[k] == self@[6 + k]);
        }
        assert(self.spec_payload() =~= padded_payload(bytes@.take(n as int)));
        assert forall|k: int| 0 <= k < 8 * self@.len() && !(48 <= k < 112) implies #[trigger] bit_at(
            self@,
            k,
        ) == bit_at(start, k) by {
            assert(k / 8 < 6);
        }
    }

    /// The first `n` payload bytes.
    pub fn payload(&self, n: usize) -> (r: Vec<u8>)
        requires
            n <= 8,
        ensures
            r@ == self.spec_payload().take(n as int),
    {
        let mut r: Vec<u8> = Vec::new();
        let mut i: usize = 0;
        while i < n
            invariant
                i <= n <= 8,
                r@ == self.spec_payload().take(i as int),
            decreases n - i,
        {
            r.push(self.0[6 + i]);
            i = i + 1;
            assert(r@ =~= self.spec_payload().take(i as int));
        }
        r
    }

    /// The 14 bytes of the frame.
    pub fn as_bytes(&self) -> (r: &[u8])
        ensures
            r@ == self@,
            r@.len() == FRAME_LEN,
    {
        self.0.as_slice()
    }

    /// Reads a frame from exactly 14 bytes.
    pub fn from_bytes(bytes: &[u8]) -> (r: Result<Frame, Error>)
        ensures
            bytes@.len() == FRAME_LEN ==> (r matches Ok(f) && f@ == bytes@),
            bytes@.len() != FRAME_LEN ==> r == Err::<Frame, Error>(Error::MalformedLength),
    {
        if bytes.len() != FRAME_LEN {
            Err(Error::MalformedLength)
        } else {
            Ok(Frame(array_from(bytes)))
        }
    }
}

/// A complete datagram: a header followed by a frame.
#[derive(Debug, Clone, Copy)]
pub struct Packet {
    pub header: Header,
    pub frame: Frame,
}

impl View for Packet {
    type V = Seq<u8>;

    open spec fn view(&self) -> Seq<u8> {
        self.header@ + self.frame@
    }
}

impl Packet {
    /// A packet of zero bytes.
    pub fn new() -> (r: Packet)
        ensures
            forall|k: int| 0 <= k < PACKET_LEN ==> r@[k] == 0,
    {
        Packet { header: Header::new(), frame: Frame::new() }
    }

    /// The 30 bytes of the packet.
    pub fn to_bytes(&self) -> (r: [u8; PACKET_LEN])
        ensures
            r@ == self@,
            r@.len() == PACKET_LEN,
    {
        let mut a: [u8; PACKET_LEN] = [0u8; PACKET_LEN];
        let mut i: usize = 0;
        while i < PACKET_LEN
            invariant
                i <= PACKET_LEN,
                forall|k: int| 0 <= k < i ==> a@[k] == self@[k],
            decreases PACKET_LEN - i,
        {
            a[i] = if i < HEADER_LEN {
                self.header.0[i]
            } else {
                self.frame.0[i - HEADER_LEN]
            };
            i = i + 1;
        }
        assert(a@ =~= self@);
        a
    }

    /// Reads a packet from exactly 30 bytes.
    pub fn from_bytes(bytes: &[u8]) -> (r: Result<Packet, Error>)
        ensures
            bytes@.len() == PACKET_LEN ==> (r matches Ok(p) && p@ == bytes@),
            bytes@.len() != PACKET_LEN ==> r == Err::<Packet, Error>(Error::MalformedLength),
    {
        if bytes.len() != PACKET_LEN {
            return Err(Error::MalformedLength);
        }
        let mut header = Header::new();
        let mut frame = Frame::new();
        let mut i: usize = 0;
        while i < PACKET_LEN
            invariant
                i <= PACKET_LEN,
                bytes@.len() == PACKET_LEN,
                forall|k: int| 0 <= k < i && k < HEADER_LEN ==> header@[k] == bytes@[k],
                forall|k: int|
                    HEADER_LEN <= k < i ==> frame@[k - HEADER_LEN] == bytes@[k],
            decreases PACKET_LEN - i,
        {
            if i < HEADER_LEN {
                header.0[i] = bytes[i];
            } else {
                frame.0[i - HEADER_LEN] = bytes[i];
            }
            i = i + 1;
        }
        let p = Packet { header, frame };
        assert(p@ =~= bytes@);
        Ok(p)
    }
}

/// A packet taken as one 30-byte datagram.
pub type Datagram = Packet;

/// A frame taken as the 14-byte unit of a TCP stream.
pub type FrameDatagram = Frame;

/// Filter record. Bits 0..32 hold the forwarded identifier, bits 32..64 the
/// forwarded range, bits 64..72 the bus number, bits 72..124 the version
/// number and bits 132..188 the client identifier.
#[derive(Debug, Clone, Copy)]
pub struct Filter(pub [u8; FILTER_LEN]);

impl View for Filter {
    type V = Seq<u8>;

    open spec fn view(&self) -> Seq<u8> {
        self.0@
    }
}

impl Filter {
    pub open spec fn spec_fwd_identifier(&self) -> int {
        bits_of(self@, 0, 32)
    }

    pub open spec fn spec_fwd_range(&self) -> int {
        bits_of(self@, 32, 32)
    }

    pub open spec fn spec_bus_number(&self) -> int {
        bits_of(self@, 64, 8)
    }

    pub open spec fn spec_version_number(&self) -> int {
        bits_of(self@, 72, 52)
    }

    pub open spec fn spec_client_identifier(&self) -> int {
        bits_of(self@, 132, 56)
    }

    /// A filter of zero bytes.
    pub fn new() -> (r: Filter)
        ensures
            forall|k: int| 0 <= k < FILTER_LEN ==> r@[k] == 0,
    {
        Filter([0u8; FILTER_LEN])
    }

    /// The forwarded identifier field.
    pub fn fwd_identifier(&self) -> (r: u32)
        ensures
            r == self.spec_fwd_identifier(),
    {
        let r = get_bits(&self.0, 0, 32);
        proof {
            lemma_fits(r, 32);
        }
        r as u32
    }

    /// Writes the forwarded identifier field.
    pub fn set_fwd_identifier(&mut self, value: u32)
        ensures
            final(self).spec_fwd_identifier() == value,
            same_outside(final(self)@, old(self)@, 0, 32),
    {
        set_bits(&mut self.0, 0, 32, value as u64);
        proof {
            lemma_low_bits_u32(value);
        }
    }

    /// The forwarded range field.
    pub fn fwd_range(&self) -> (r: u32)
        ensures
            r == self.spec_fwd_range(),
    {
        let r = get_bits(&self.0, 32, 32);
        proof {
            lemma_fits(r, 32);
        }
        r as u32
    }

    /// Writes the forwarded range field.
    pub fn set_fwd_range(&mut self, value: u32)
        ensures
            final(self).spec_fwd_range() == value,
            same_outside(final(self)@, old(self)@, 32, 32),
    {
        set_bits(&mut self.0, 32, 32, value as u64);
        proof {
            lemma_low_bits_u32(value);
        }
    }

    /// The bus number field.
    pub fn bus_number(&self) -> (r: u8)
        ensures
            r == self.spec_bus_number(),
    {
        let r = get_bits(&self.0, 64, 8);
        proof {
            lemma_fits(r, 8);
        }
        r as u8
    }

    /// Writes the bus number field.
    pub fn set_bus_number(&mut self, value: u8)
        ensures
            final(self).spec_bus_number() == value,
            same_outside(final(self)@, old(self)@, 64, 8),
    {
        set_bits(&mut self.0, 64, 8, value as u64);
        proof {
            lemma_low_bits_u8(value);
        }
    }

    /// The version number field.
    pub fn version_number(&self) -> (r: u64)
        ensures
            r == self.spec_version_number(),
    {
        get_bits(&self.0, 72, 52)
    }

    /// Writes the low 52 bits of `value` into the version number field.
    pub fn set_version_number(&mut self, value: u64)
        ensures
            final(self).spec_version_number() == low_bits(value, 52),
            same_outside(final(self)@, old(self)@, 72, 52),
    {
        set_bits(&mut self.0, 72, 52, value);
    }

    /// The client identifier field.
    pub fn client_identifier(&self) -> (r: u64)
        ensures
            r == self.spec_client_identifier(),
    {
        get_bits(&self.0, 132, 56)
    }

    /// Writes the low 56 bits of `value` into the client identifier field.
    pub fn set_client_identifier(&mut self, value: u64)
        ensures
            final(self).spec_client_identifier() == low_bits(value, 56),
            same_outside(final(self)@, old(self)@, 132, 56),
    {
        set_bits(&mut self.0, 132, 56, value);
    }

    /// The 24 bytes of the filter.
    pub fn as_bytes(&self) -> (r: &[u8])
        ensures
            r@ == self@,
            r@.len() == FILTER_LEN,
    {
        self.0.as_slice()
    }

    /// Reads a filter from exactly 24 bytes.
    pub fn from_bytes(bytes: &[u8]) -> (r: Result<Filter, Error>)
        ensures
            bytes@.len() == FILTER_LEN ==> (r matches Ok(f) && f@ == bytes@),
            bytes@.len() != FILTER_LEN ==> r == Err::<Filter, Error>(Error::MalformedLength),
    {
        if bytes.len() != FILTER_LEN {
            Err(Error::MalformedLength)
        } else {
            Ok(Filter(array_from(bytes)))
        }
    }
}

} // verus!
