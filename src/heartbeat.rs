//! The heartbeat: a packet announcing the bridge, its bus and its bit rate.

use crate::bits::{
    bits_of,
    lemma_bits_of_all_zero,
    lemma_bits_of_byte,
    lemma_bits_of_frame,
    lemma_bits_of_zero_bits,
};
use crate::bus::BusNumber;
use crate::datagram::{padded_payload, Frame, Header, Packet, FRAME_LEN};
use crate::flags::HEARTBEAT;
use vstd::prelude::*;

verus! {

/// Payload of a heartbeat: the data rate, most significant byte first, then
/// the six bytes of the MAC address.
pub open spec fn heartbeat_payload(mac_addr: Seq<u8>, data_rate: u16) -> Seq<u8> {
    seq![(data_rate / 256) as u8, (data_rate % 256) as u8] + mac_addr
}

/// `w` is the frame of a heartbeat of a bridge with MAC address `mac_addr`
/// at `data_rate`: identifier 0, the heartbeat flag alone, data length code 8
/// and the heartbeat payload.
pub open spec fn is_heartbeat_frame(w: Seq<u8>, mac_addr: Seq<u8>, data_rate: u16) -> bool {
    &&& w.len() == FRAME_LEN
    &&& bits_of(w, 0, 32) == 0
    &&& bits_of(w, 32, 8) == HEARTBEAT
    &&& bits_of(w, 40, 8) == 8
    &&& w.subrange(6, 14) == heartbeat_payload(mac_addr, data_rate)
}

/// `p` is the heartbeat of a bridge with MAC address `mac_addr` on bus `bus`
/// at `data_rate`: a standard header and a heartbeat frame.
pub open spec fn is_heartbeat(p: Packet, mac_addr: Seq<u8>, bus: u8, data_rate: u16) -> bool {
    &&& p.header.is_standard(bus)
    &&& is_heartbeat_frame(p.frame@, mac_addr, data_rate)
}

/// The bytes of a heartbeat frame: four zero bytes of identifier, the
/// heartbeat flag byte, data length code 8, the data rate most significant
/// byte first, then the six bytes of the MAC address.
pub proof fn lemma_heartbeat_frame_bytes(w: Seq<u8>, mac_addr: Seq<u8>, data_rate: u16)
    requires
        mac_addr.len() == 6,
        is_heartbeat_frame(w, mac_addr, data_rate),
    ensures
        w == seq![0u8, 0u8, 0u8, 0u8, HEARTBEAT, 8u8] + heartbeat_payload(mac_addr, data_rate),
{
    lemma_bits_of_zero_bits(w, 0, 32);
    assert forall|k: int| 0 <= k < 4 implies w[k] == 0 by {
        lemma_bits_of_all_zero(w, 8 * k, 8);
        lemma_bits_of_byte(w, k);
    }
    lemma_bits_of_byte(w, 4);
    lemma_bits_of_byte(w, 5);
    let expected = seq![0u8, 0u8, 0u8, 0u8, HEARTBEAT, 8u8] + heartbeat_payload(mac_addr, data_rate);
    assert forall|i: int| 6 <= i < 14 implies w[i] == expected[i] by {
        assert(w[i] == w.subrange(6, 14)[i - 6]);
    }
    assert(w =~= expected);
}

/// Builds a heartbeat packet.
pub fn build(mac_addr: &[u8; 6], bus_number: &BusNumber, data_rate: &u16) -> (r: Packet)
    ensures
        is_heartbeat(r, mac_addr@, bus_number@, *data_rate),
{
    let rate: u16 = *data_rate;
    let hi: u8 = (rate >> 8) as u8;
    let lo: u8 = (rate & 0xff) as u8;
    assert(hi == rate / 256 && lo == rate % 256) by (bit_vector)
        requires
            hi == (rate >> 8) as u8,
            lo == (rate & 0xff) as u8,
    ;
    let data: [u8; 8] = [
        hi,
        lo,
        mac_addr[0],
        mac_addr[1],
        mac_addr[2],
        mac_addr[3],
        mac_addr[4],
        mac_addr[5],
    ];
    let mut frame = Frame::new();
    frame.set_id(0);
    let ghost f1 = frame@;
    frame.set_flags(HEARTBEAT);
    let ghost f2 = frame@;
    frame.set_dlc(8);
    let ghost f3 = frame@;
    frame.set_payload(data.as_slice(), 8);
    proof {
        lemma_bits_of_frame(frame@, f1, 0, 32);
        lemma_bits_of_frame(frame@, f2, 32, 8);
        lemma_bits_of_frame(frame@, f3, 40, 8);
        assert(data@.take(8) =~= heartbeat_payload(mac_addr@, rate));
        assert(padded_payload(data@.take(8)) =~= data@.take(8));
    }
    Packet { header: Header::with_bus_number(*bus_number), frame }
}

impl Packet {
    /// The heartbeat packet of a bridge; see [`build`].
    pub fn new_heartbeat(mac_addr: &[u8; 6], bus_number: &BusNumber, data_rate: &u16) -> (r: Packet)
        ensures
            is_heartbeat(r, mac_addr@, bus_number@, *data_rate),
    {
        build(mac_addr, bus_number, data_rate)
    }
}

} // verus!
