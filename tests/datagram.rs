use core::mem::{size_of, size_of_val};
use tritiumcan::datagram::{Datagram, Filter, Frame, FrameDatagram, Header, Packet};
use tritiumcan::{BusNumber, Error, Flags, PROTOCOL_VERSION};

#[test]
fn header_type_length() {
    assert_eq!(size_of_val(&Header::new()), 16)
}

#[test]
fn frame_type_length() {
    assert_eq!(size_of_val(&Frame::new()), 14)
}

#[test]
fn packet_type_length() {
    assert_eq!(size_of::<Packet>(), 30)
}

#[test]
fn encoded_sizes_do_not_depend_on_fields() {
    let mut h = Header::new();
    h.set_version(u64::MAX);
    h.set_bus_number(15);
    h.set_client_identifier(u64::MAX);
    assert_eq!(h.as_bytes().len(), 16);
    let mut f = Frame::new();
    f.set_id(u32::MAX);
    f.set_data(u64::MAX);
    assert_eq!(f.as_bytes().len(), 14);
    let p = Packet { header: h, frame: f };
    assert_eq!(p.to_bytes().len(), 30);
    assert_eq!(Packet::new().to_bytes().len(), 30);
    assert_eq!(Filter::new().as_bytes().len(), 24);
}

#[test]
fn standard_header_bytes() {
    let h = Header::with_bus_number(BusNumber::try_from(7).unwrap());
    assert_eq!(
        h.as_bytes(),
        &[0x00, 0x54, 0x72, 0x69, 0x74, 0x69, 0x75, 0x67, 0, 0, 0, 0, 0, 0, 0, 0]
    );
    assert_eq!(h.version(), PROTOCOL_VERSION);
    assert_eq!(h.bus_number(), 7);
    assert_eq!(h.client_identifier(), 0);
}

#[test]
fn header_setters_truncate_and_keep_other_fields() {
    let mut h = Header::new();
    h.set_bus_number(0x3);
    h.set_client_identifier(0x0011_2233_4455_6677);
    h.set_version(u64::MAX);
    assert_eq!(h.version(), (1u64 << 52) - 1);
    assert_eq!(h.bus_number(), 0x3);
    assert_eq!(h.client_identifier(), 0x0011_2233_4455_6677);
    assert_eq!(h.as_bytes()[0], 0);
    assert_eq!(h.as_bytes()[7], 0xf3);
    assert_eq!(h.as_bytes()[8], 0);
    h.set_bus_number(0x1f);
    assert_eq!(h.bus_number(), 0xf);
}

#[test]
fn frame_field_layout() {
    let mut f = Frame::new();
    f.set_id(0x1234_5678);
    f.set_flags(0x81);
    f.set_dlc(3);
    f.set_payload(&[0xaa, 0xbb, 0xcc], 3);
    assert_eq!(
        f.as_bytes(),
        &[0x12, 0x34, 0x56, 0x78, 0x81, 0x03, 0xaa, 0xbb, 0xcc, 0, 0, 0, 0, 0]
    );
    assert_eq!(f.id(), 0x1234_5678);
    assert_eq!(f.flags(), 0x81);
    assert_eq!(f.dlc(), 3);
    assert_eq!(f.data(), 0xaabb_cc00_0000_0000);
    assert_eq!(f.payload(3), vec![0xaa, 0xbb, 0xcc]);
    assert!(f.is_extended());
    assert!(!f.is_remote_frame());
    f.set_data(0x0102_0304_0506_0708);
    assert_eq!(f.payload(8), vec![1, 2, 3, 4, 5, 6, 7, 8]);
    assert_eq!(f.id(), 0x1234_5678);
}

#[test]
fn filter_field_layout() {
    let mut f = Filter::new();
    f.set_client_identifier(0x00ff_ffff_ffff_ffff);
    let b = f.as_bytes();
    assert_eq!(&b[0..16], &[0u8; 16]);
    assert_eq!(b[16], 0x0f);
    assert_eq!(&b[17..23], &[0xff; 6]);
    assert_eq!(b[23], 0xf0);
    f.set_fwd_identifier(0xdead_beef);
    f.set_fwd_range(0x0000_0100);
    f.set_bus_number(9);
    f.set_version_number(PROTOCOL_VERSION);
    assert_eq!(f.fwd_identifier(), 0xdead_beef);
    assert_eq!(f.fwd_range(), 0x100);
    assert_eq!(f.bus_number(), 9);
    assert_eq!(f.version_number(), PROTOCOL_VERSION);
    assert_eq!(f.client_identifier(), 0x00ff_ffff_ffff_ffff);
    assert_eq!(&f.as_bytes()[0..9], &[0xde, 0xad, 0xbe, 0xef, 0, 0, 1, 0, 9]);
}

#[test]
fn decode_requires_exact_length() {
    assert_eq!(Header::from_bytes(&[0u8; 15]).unwrap_err(), Error::MalformedLength);
    assert_eq!(Header::from_bytes(&[0u8; 17]).unwrap_err(), Error::MalformedLength);
    assert_eq!(Frame::from_bytes(&[0u8; 13]).unwrap_err(), Error::MalformedLength);
    assert_eq!(Packet::from_bytes(&[0u8; 31]).unwrap_err(), Error::MalformedLength);
    assert_eq!(Filter::from_bytes(&[]).unwrap_err(), Error::MalformedLength);
    let bytes: Vec<u8> = (0..30u8).collect();
    let p = Packet::from_bytes(&bytes).unwrap();
    assert_eq!(p.to_bytes().to_vec(), bytes);
    assert_eq!(p.header.as_bytes(), &bytes[0..16]);
    assert_eq!(p.frame.as_bytes(), &bytes[16..30]);
    let h = Header::from_bytes(&bytes[0..16]).unwrap();
    assert_eq!(h.as_bytes(), &bytes[0..16]);
}

#[test]
fn flags_combine_and_ignore_unknown_bits() {
    let mut f = Flags::empty();
    assert_eq!(f.bits(), 0);
    f.insert(Flags::extended());
    f.insert(Flags::remote());
    assert_eq!(f.bits(), 0x03);
    assert!(f.contains(Flags::remote()));
    assert!(!f.intersects(Flags::heartbeat()));
    assert_eq!(Flags::heartbeat().union(Flags::settings()).bits(), 0xc0);
    assert_eq!(Flags::from_bits_truncate(0xff).bits(), 0xc3);
    assert_eq!(Flags::from_bits_truncate(0x3c).bits(), 0x00);
}

#[test]
fn datagram_names() {
    assert_eq!(Datagram::new().to_bytes(), [0u8; 30]);
    assert_eq!(FrameDatagram::new().as_bytes(), &[0u8; 14]);
    assert_eq!(size_of::<Datagram>(), 30);
}
