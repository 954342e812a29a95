//! UDP transport: every send and receive is one complete packet, and a
//! heartbeat goes out each interval.
//!
//! The transport decides; the caller owns the socket. `poll` says whether to
//! bind and which heartbeat to send, `heartbeat_result` records whether the
//! send went out, `send_frame` gives the packet for a CAN frame and
//! `recv_frame` reads one received datagram.

use crate::bus::BusNumber;
use crate::can::{encodes, spec_from_wire, CanFrame, MAX_DLC};
use crate::config::{heartbeat_due, is_heartbeat_due, Config};
use crate::datagram::{Frame, Header, Packet, HEADER_LEN, PACKET_LEN};
use crate::error::Error;
use crate::heartbeat::{build, is_heartbeat};
use vstd::prelude::*;

verus! {

/// What a UDP transport holds.
pub struct UdpView {
    pub config: Config,
    pub mac_addr: Seq<u8>,
    pub bus_number: u8,
    pub data_rate: u16,
    pub last_heartbeat: i64,
}

impl UdpView {
    /// A heartbeat is due at `now`.
    pub open spec fn due(self, now: i64) -> bool {
        heartbeat_due(self.last_heartbeat, now, self.config.heartbeat_interval)
    }

    /// The state after a heartbeat attempt at `now`: the timestamp moves to
    /// `now` only when the heartbeat was sent.
    pub open spec fn recorded(self, now: i64, sent: bool) -> UdpView {
        if sent {
            UdpView { last_heartbeat: now, ..self }
        } else {
            self
        }
    }
}

/// Heartbeat cadence: after a heartbeat sent at `now`, polling again at `now`
/// sends none; polling more than one interval after `now` sends one; and
/// recording that one sets the timestamp to the time of that poll, however
/// many intervals were skipped, so that a further poll at that time sends
/// none.
pub proof fn lemma_heartbeat_cadence(s: UdpView, now: i64, later: i64)
    ensures
        !s.recorded(now, true).due(now),
        later - now > s.config.heartbeat_interval ==> s.recorded(now, true).due(later),
        s.recorded(now, true).recorded(later, true).last_heartbeat == later,
        !s.recorded(now, true).recorded(later, true).due(later),
{
}

/// What one poll asks of the caller.
#[derive(Debug, Clone, Copy)]
pub struct PollAction {
    /// Bind the socket to the configured port.
    pub bind: bool,
    /// Send this heartbeat, then report the outcome to `heartbeat_result`.
    pub heartbeat: Option<Packet>,
}

/// UDP server.
#[derive(Debug)]
pub struct Server {
    config: Config,
    mac_addr: [u8; 6],
    bus_number: BusNumber,
    data_rate: u16,
    last_heartbeat: i64,
}

impl View for Server {
    type V = UdpView;

    closed spec fn view(&self) -> UdpView {
        UdpView {
            config: self.config,
            mac_addr: self.mac_addr@,
            bus_number: self.bus_number@,
            data_rate: self.data_rate,
            last_heartbeat: self.last_heartbeat,
        }
    }
}

impl Server {
    /// A server that counts its first heartbeat interval from `now`
    /// (microseconds).
    pub fn new(
        config: Config,
        mac_addr: [u8; 6],
        now: i64,
        bus_number: BusNumber,
        data_rate: u16,
    ) -> (r: Server)
        ensures
            r@ == (UdpView {
                config,
                mac_addr: mac_addr@,
                bus_number: bus_number@,
                data_rate,
                last_heartbeat: now,
            }),
    {
        Server { config, mac_addr, bus_number, data_rate, last_heartbeat: now }
    }

    /// The configuration.
    pub fn config(&self) -> (r: Config)
        ensures
            r == self@.config,
    {
        self.config
    }

    /// The current bus number.
    pub fn bus_number(&self) -> (r: BusNumber)
        ensures
            r@ == self@.bus_number,
    {
        self.bus_number
    }

    /// Sets a new bus number.
    pub fn set_bus_number(&mut self, bus_number: BusNumber)
        ensures
            final(self)@ == (UdpView { bus_number: bus_number@, ..old(self)@ }),
    {
        self.bus_number = bus_number;
    }

    /// Decides one poll at `now`: bind when the socket is not open, and send
    /// a heartbeat when one is due.
    pub fn poll(&self, socket_open: bool, now: i64) -> (r: PollAction)
        ensures
            r.bind == !socket_open,
            self@.due(now) ==> (r.heartbeat matches Some(p) && is_heartbeat(
                p,
                self@.mac_addr,
                self@.bus_number,
                self@.data_rate,
            )),
            !self@.due(now) ==> r.heartbeat is None,
    {
        let heartbeat = if is_heartbeat_due(self.last_heartbeat, now, self.config.heartbeat_interval) {
            Some(self.send_heartbeat())
        } else {
            None
        };
        PollAction { bind: !socket_open, heartbeat }
    }

    /// Records the outcome of the heartbeat that `poll` asked for at `now`.
    pub fn heartbeat_result(&mut self, now: i64, sent: bool)
        ensures
            final(self)@ == old(self)@.recorded(now, sent),
    {
        if sent {
            self.last_heartbeat = now;
        }
    }

    /// The heartbeat packet of this server. Sending it does not reset the
    /// heartbeat interval.
    pub fn send_heartbeat(&self) -> (r: Packet)
        ensures
            is_heartbeat(r, self@.mac_addr, self@.bus_number, self@.data_rate),
    {
        build(&self.mac_addr, &self.bus_number, &self.data_rate)
    }

    /// The packet that carries `frame`: a standard header for this server's
    /// bus, then the wire form of the frame. Fails as `Frame::from_frame` fails.
    pub fn send_frame(&self, frame: &CanFrame) -> (r: Result<Packet, Error>)
        ensures
            frame.dlc > MAX_DLC || frame.data@.len() > MAX_DLC ==> r == Err::<Packet, Error>(
                Error::LengthError,
            ),
            frame.dlc <= MAX_DLC && frame.data@.len() <= MAX_DLC && !frame.id.spec_valid() ==> r
                == Err::<Packet, Error>(Error::InvalidIdentifier),
            frame.dlc <= MAX_DLC && frame.data@.len() <= MAX_DLC && frame.id.spec_valid() ==> (r matches Ok(
                p,
            ) && p.header.is_standard(self@.bus_number) && encodes(p.frame@, frame@)),
    {
        match Frame::from_frame(frame) {
            Ok(w) => Ok(Packet { header: Header::with_bus_number(self.bus_number), frame: w }),
            Err(e) => Err(e),
        }
    }

    /// Reads one received datagram. A datagram that is not exactly one packet
    /// long, or whose frame holds no valid CAN frame, gives no frame.
    pub fn recv_frame(&self, datagram: &[u8]) -> (r: Option<CanFrame>)
        ensures
            datagram@.len() != PACKET_LEN ==> r is None,
            datagram@.len() == PACKET_LEN ==> match spec_from_wire(
                datagram@.subrange(HEADER_LEN as int, PACKET_LEN as int),
            ) {
                Ok(v) => r matches Some(c) && c@ == v,
                Err(_) => r is None,
            },
    {
        match Packet::from_bytes(datagram) {
            Err(_) => None,
            Ok(p) => {
                assert(p.frame@ =~= datagram@.subrange(HEADER_LEN as int, PACKET_LEN as int));
                match p.frame.to_frame() {
                    Ok(c) => Some(c),
                    Err(_) => None,
                }
            },
        }
    }
}

} // verus!
