use tritiumcan::can::{CanFrame, CanId};
use tritiumcan::datagram::Frame;
use tritiumcan::heartbeat::build;
use tritiumcan::{BusNumber, Error, Flags, PROTOCOL_VERSION};

fn round_trip(f: &CanFrame) -> CanFrame {
    Frame::from_frame(f).unwrap().to_frame().unwrap()
}

fn same(a: &CanFrame, b: &CanFrame) {
    assert_eq!(a.id, b.id);
    assert_eq!(a.remote, b.remote);
    assert_eq!(a.dlc, b.dlc);
    assert_eq!(a.data, b.data);
}

#[test]
fn round_trip_standard_data_frames() {
    for len in 0..=8usize {
        let data: Vec<u8> = (0..len as u8).map(|i| 0x10 + i).collect();
        let f = CanFrame::new(CanId::Standard(0x7ff), &data).unwrap();
        same(&round_trip(&f), &f);
    }
}

#[test]
fn round_trip_extended_and_remote_frames() {
    let f = CanFrame::new(CanId::Extended(0x1fff_ffff), &[1, 2, 3, 4, 5, 6, 7, 8]).unwrap();
    same(&round_trip(&f), &f);
    let r = CanFrame::new_remote(CanId::Extended(0x0abc_def0), 5).unwrap();
    same(&round_trip(&r), &r);
    let r = CanFrame::new_remote(CanId::Standard(0), 0).unwrap();
    same(&round_trip(&r), &r);
}

#[test]
fn payload_is_big_endian_on_the_wire() {
    let f = CanFrame::new(CanId::Standard(0x123), &[0x01, 0x02]).unwrap();
    let w = Frame::from_frame(&f).unwrap();
    assert_eq!(
        w.as_bytes(),
        &[0, 0, 0x01, 0x23, 0x00, 0x02, 0x01, 0x02, 0, 0, 0, 0, 0, 0]
    );
    assert_eq!(w.data(), 0x0102_0000_0000_0000);
    let e = CanFrame::new(CanId::Extended(0x1234_5678 & 0x1fff_ffff), &[]).unwrap();
    let w = Frame::from_frame(&e).unwrap();
    assert_eq!(w.flags(), 0x01);
    let r = CanFrame::new_remote(CanId::Extended(5), 3).unwrap();
    let w = Frame::from_frame(&r).unwrap();
    assert_eq!(w.flags(), 0x03);
    assert_eq!(w.dlc(), 3);
    assert_eq!(w.data(), 0);
}

#[test]
fn over_length_frames_are_rejected() {
    let f = CanFrame { id: CanId::Standard(1), remote: false, dlc: 9, data: vec![0; 9] };
    assert_eq!(Frame::from_frame(&f).unwrap_err(), Error::LengthError);
    let f = CanFrame { id: CanId::Standard(1), remote: true, dlc: 9, data: vec![] };
    assert_eq!(Frame::from_frame(&f).unwrap_err(), Error::LengthError);
    let f = CanFrame { id: CanId::Standard(1), remote: false, dlc: 8, data: vec![0; 9] };
    assert_eq!(Frame::from_frame(&f).unwrap_err(), Error::LengthError);
    assert!(CanFrame::new(CanId::Standard(1), &[0; 9]).is_none());
    assert!(CanFrame::new_remote(CanId::Standard(1), 9).is_none());
}

#[test]
fn invalid_identifiers_are_rejected() {
    assert_eq!(CanId::standard(0x7ff), Some(CanId::Standard(0x7ff)));
    assert_eq!(CanId::standard(0x800), None);
    assert_eq!(CanId::extended(0x1fff_ffff), Some(CanId::Extended(0x1fff_ffff)));
    assert_eq!(CanId::extended(0x2000_0000), None);
    assert!(!CanId::Standard(0x800).is_valid());
    assert!(CanFrame::new(CanId::Standard(0x800), &[1]).is_none());
    let f = CanFrame { id: CanId::Standard(0x800), remote: false, dlc: 1, data: vec![1] };
    assert_eq!(Frame::from_frame(&f).unwrap_err(), Error::InvalidIdentifier);
    let mut w = Frame::new();
    w.set_id(0x800);
    assert_eq!(w.to_frame().unwrap_err(), Error::InvalidIdentifier);
    w.set_flags(0x01);
    assert_eq!(w.to_frame().unwrap().id, CanId::Extended(0x800));
    w.set_id(0x2000_0000);
    assert_eq!(w.to_frame().unwrap_err(), Error::InvalidIdentifier);
}

#[test]
fn wire_dlc_above_eight_is_rejected() {
    let mut w = Frame::new();
    w.set_dlc(9);
    assert_eq!(w.to_frame().unwrap_err(), Error::LengthError);
}

#[test]
fn unknown_flag_bits_are_ignored() {
    let mut w = Frame::new();
    w.set_id(0x42);
    w.set_flags(0x7c);
    w.set_dlc(1);
    w.set_payload(&[0x99], 1);
    let c = w.to_frame().unwrap();
    assert_eq!(c.id, CanId::Standard(0x42));
    assert!(!c.remote);
    assert_eq!(c.data, vec![0x99]);
}

#[test]
fn flags_of_a_frame() {
    let f = CanFrame::new_remote(CanId::Extended(1), 0).unwrap();
    assert_eq!(Flags::from_frame(&f).bits(), 0x03);
    let f = CanFrame::new(CanId::Standard(1), &[]).unwrap();
    assert_eq!(Flags::from_frame(&f).bits(), 0x00);
}

#[test]
fn heartbeat_content() {
    let p = build(&[1, 2, 3, 4, 5, 6], &BusNumber::try_from(7).unwrap(), &500);
    assert_eq!(p.frame.id(), 0);
    assert_eq!(p.frame.dlc(), 8);
    assert_eq!(p.frame.flags(), 0x80);
    assert!(Flags::from_bits_truncate(p.frame.flags()).contains(Flags::heartbeat()));
    assert_eq!(p.frame.payload(8), vec![0x01, 0xf4, 0x01, 0x02, 0x03, 0x04, 0x05, 0x06]);
    assert_eq!(p.header.version(), PROTOCOL_VERSION);
    assert_eq!(p.header.bus_number(), 7);
    assert_eq!(p.header.client_identifier(), 0);
    let q = tritiumcan::datagram::Packet::new_heartbeat(
        &[1, 2, 3, 4, 5, 6],
        &BusNumber::try_from(7).unwrap(),
        &500,
    );
    assert_eq!(q.to_bytes(), p.to_bytes());
}
