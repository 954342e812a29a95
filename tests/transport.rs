use tritiumcan::can::{CanFrame, CanId};
use tritiumcan::config::Config;
use tritiumcan::datagram::Frame;
use tritiumcan::tcp::{self, TcpState};
use tritiumcan::udp;
use tritiumcan::{BusNumber, Error, BROADCAST, HEARTBEAT_INTERVAL, PORT};

const MAC: [u8; 6] = [1, 2, 3, 4, 5, 6];

fn udp_server(now: i64) -> udp::Server {
    udp::Server::new(Config::default(), MAC, now, BusNumber::try_from(7).unwrap(), 500)
}

fn tcp_server(now: i64) -> tcp::Server {
    tcp::Server::new(Config::default(), MAC, now, BusNumber::default(), 250)
}

#[test]
fn default_config() {
    let c = Config::default();
    assert_eq!(c.port, PORT);
    assert_eq!(c.port, 4876);
    assert_eq!(c.broadcast, BROADCAST);
    assert_eq!(c.broadcast.to_be_bytes(), [239, 255, 60, 60]);
    assert_eq!(c.heartbeat_interval, HEARTBEAT_INTERVAL);
    assert_eq!(c.heartbeat_interval, 1_000_000);
}

#[test]
fn udp_heartbeat_cadence() {
    let mut s = udp_server(0);
    assert!(s.poll(true, 0).heartbeat.is_none());
    assert!(s.poll(true, 1_000_000).heartbeat.is_none());
    let a = s.poll(true, 1_000_001);
    let p = a.heartbeat.expect("heartbeat due");
    assert_eq!(p.frame.payload(8), vec![0x01, 0xf4, 1, 2, 3, 4, 5, 6]);
    s.heartbeat_result(1_000_001, true);
    for _ in 0..3 {
        assert!(s.poll(true, 1_000_001).heartbeat.is_none());
    }
    // A jump over many intervals gives one heartbeat, and the timer restarts
    // from the time of that poll.
    assert!(s.poll(true, 9_000_000).heartbeat.is_some());
    s.heartbeat_result(9_000_000, true);
    assert!(s.poll(true, 9_000_000).heartbeat.is_none());
    assert!(s.poll(true, 10_000_000).heartbeat.is_none());
    assert!(s.poll(true, 10_000_001).heartbeat.is_some());
}

#[test]
fn udp_failed_heartbeat_is_retried() {
    let mut s = udp_server(0);
    assert!(s.poll(true, 2_000_000).heartbeat.is_some());
    s.heartbeat_result(2_000_000, false);
    assert!(s.poll(true, 2_000_001).heartbeat.is_some());
}

#[test]
fn udp_bind_when_closed() {
    let s = udp_server(0);
    assert!(s.poll(false, 0).bind);
    assert!(!s.poll(true, 0).bind);
}

#[test]
fn udp_send_frame_packet() {
    let mut s = udp_server(0);
    s.set_bus_number(BusNumber::try_from(3).unwrap());
    assert_eq!(s.bus_number().value(), 3);
    let f = CanFrame::new(CanId::Standard(0x10), &[7, 8]).unwrap();
    let p = s.send_frame(&f).unwrap();
    let b = p.to_bytes();
    assert_eq!(b.len(), 30);
    assert_eq!(p.header.bus_number(), 3);
    assert_eq!(&b[16..30], &[0, 0, 0, 0x10, 0, 2, 7, 8, 0, 0, 0, 0, 0, 0]);
    let long = CanFrame { id: CanId::Standard(1), remote: false, dlc: 12, data: vec![0; 12] };
    assert_eq!(s.send_frame(&long).unwrap_err(), Error::LengthError);
}

#[test]
fn udp_recv_only_whole_packets() {
    let s = udp_server(0);
    let f = CanFrame::new(CanId::Extended(0x1abcdef), &[1, 2, 3]).unwrap();
    let bytes = s.send_frame(&f).unwrap().to_bytes();
    let c = s.recv_frame(&bytes).expect("one packet");
    assert_eq!(c.id, CanId::Extended(0x1abcdef));
    assert_eq!(c.data, vec![1, 2, 3]);
    for len in [0usize, 1, 14, 16, 29, 31, 44, 60] {
        let mut v = bytes.to_vec();
        v.resize(len, 0);
        assert!(s.recv_frame(&v).is_none());
    }
}

#[test]
fn tcp_stream_alignment() {
    let mut s = tcp_server(0);
    let f = CanFrame::new(CanId::Standard(0x55), &[0xa, 0xb]).unwrap();
    let wire = Frame::from_frame(&f).unwrap();
    let first = s.send_frame(&f).unwrap();
    assert_eq!(first.len(), 44);
    assert_eq!(&first[0..30], &[0u8; 30]);
    assert_eq!(&first[30..44], wire.as_bytes());
    s.write_result(true);
    let second = s.send_frame(&f).unwrap();
    assert_eq!(second.len(), 14);
    assert_eq!(&second[..], wire.as_bytes());
    s.write_result(true);
    let a = s.poll(TcpState::CloseWait, true, 0);
    assert!(a.close);
    assert!(a.heartbeat.is_none());
    assert!(!a.listen);
    let third = s.send_frame(&f).unwrap();
    assert_eq!(third.len(), 44);
    assert_eq!(&third[0..30], &[0u8; 30]);
}

#[test]
fn tcp_refused_prefix_is_written_again() {
    let mut s = tcp_server(0);
    let f = CanFrame::new(CanId::Standard(0x55), &[0xa]).unwrap();
    assert_eq!(s.send_frame(&f).unwrap().len(), 44);
    s.write_result(false);
    assert_eq!(s.send_frame(&f).unwrap().len(), 44);
    s.write_result(true);
    assert_eq!(s.send_frame(&f).unwrap().len(), 14);
}

#[test]
fn tcp_rejected_frame_writes_nothing() {
    let s = tcp_server(0);
    let long = CanFrame { id: CanId::Standard(1), remote: false, dlc: 9, data: vec![0; 9] };
    assert_eq!(s.send_frame(&long).unwrap_err(), Error::LengthError);
    let f = CanFrame::new(CanId::Standard(1), &[]).unwrap();
    assert_eq!(s.send_frame(&f).unwrap().len(), 44);
}

#[test]
fn tcp_poll_listen_and_heartbeat() {
    let mut s = tcp_server(0);
    let a = s.poll(TcpState::Closed, false, 0);
    assert!(a.listen);
    assert!(!a.close);
    assert!(!s.poll(TcpState::Listen, false, 0).listen);
    assert!(s.poll(TcpState::Established, false, 5_000_000).heartbeat.is_none());
    let hb = s.poll(TcpState::Established, true, 5_000_000).heartbeat.unwrap();
    assert_eq!(hb.len(), 44);
    assert_eq!(&hb[30..34], &[0, 0, 0, 0]);
    assert_eq!(hb[34], 0x80);
    assert_eq!(hb[35], 8);
    assert_eq!(&hb[36..44], &[0x00, 0xfa, 1, 2, 3, 4, 5, 6]);
    s.write_result(true);
    s.heartbeat_result(5_000_000, true);
    assert!(s.poll(TcpState::Established, true, 5_000_000).heartbeat.is_none());
    let hb = s.poll(TcpState::Established, true, 6_000_001).heartbeat.unwrap();
    assert_eq!(hb.len(), 14);
    assert_eq!(s.send_heartbeat().len(), 14);
}

#[test]
fn tcp_recv_discards_prefix_then_reads_frames() {
    let mut s = tcp_server(0);
    assert!(!s.rx_started());
    assert_eq!(s.recv_len(), 30);
    assert!(s.recv_frame(&[0u8; 12]).is_none());
    assert!(!s.rx_started());
    assert_eq!(s.recv_len(), 18);
    assert!(s.recv_frame(&[0u8; 18]).is_none());
    assert!(s.rx_started());
    assert_eq!(s.recv_len(), 14);
    let f = CanFrame::new(CanId::Standard(0x321), &[4, 5, 6]).unwrap();
    let wire = Frame::from_frame(&f).unwrap();
    let c = s.recv_frame(wire.as_bytes()).expect("a frame");
    assert_eq!(c.id, CanId::Standard(0x321));
    assert_eq!(c.data, vec![4, 5, 6]);
    for len in [0usize, 1, 13, 15, 30] {
        let mut v = wire.as_bytes().to_vec();
        v.resize(len, 0);
        assert!(s.recv_frame(&v).is_none());
    }
    s.poll(TcpState::CloseWait, false, 0);
    assert!(!s.rx_started());
    assert_eq!(s.recv_len(), 30);
}
