//! TCP transport: one stream per connection, aligned like the datagrams.
//!
//! The first bytes written on a connection are a 30-byte block of zeros, the
//! size of a packet; after it every unit is one 14-byte frame. A reader that
//! cuts the stream into fixed-size pieces from its first byte thus stays
//! aligned to frame boundaries. The receiving side discards the first 30
//! bytes the same way.
//!
//! The transport decides; the caller owns the socket. `poll` takes the
//! socket's connection state and says whether to listen, to close and which
//! bytes to write; `send_frame` gives the bytes for a CAN frame;
//! `write_result` records whether such bytes went out, so that the prefix
//! counts as written only once the socket took it; `recv_len` says how many
//! bytes to read next and `recv_frame` takes the bytes read from the stream.

use crate::bus::BusNumber;
use crate::can::{encodes, spec_from_wire, CanFrame, MAX_DLC};
use crate::config::{heartbeat_due, is_heartbeat_due, Config};
use crate::datagram::{Frame, FRAME_LEN, PACKET_LEN};
use crate::error::Error;
use crate::heartbeat::{build, is_heartbeat_frame};
use vstd::prelude::*;

verus! {

/// Connection state of a TCP socket.
#[derive(Debug, Clone, Copy, PartialEq, Eq, Structural)]
pub enum TcpState {
    Closed,
    Listen,
    SynSent,
    SynReceived,
    Established,
    FinWait1,
    FinWait2,
    CloseWait,
    Closing,
    LastAck,
    TimeWait,
}

impl TcpState {
    /// The socket is open: neither closed nor waiting out a closed
    /// connection.
    pub open spec fn spec_is_open(self) -> bool {
        !(self is Closed || self is TimeWait)
    }

    /// No connection is there to write to or read from.
    pub open spec fn spec_no_connection(self) -> bool {
        self is Closed || self is Listen || self is TimeWait
    }

    /// Whether the socket is open.
    pub fn is_open(&self) -> (r: bool)
        ensures
            r == self.spec_is_open(),
    {
        match *self {
            TcpState::Closed => false,
            TcpState::TimeWait => false,
            _ => true,
        }
    }

    /// Whether no connection is there.
    pub fn no_connection(&self) -> (r: bool)
        ensures
            r == self.spec_no_connection(),
    {
        match *self {
            TcpState::Closed => true,
            TcpState::Listen => true,
            TcpState::TimeWait => true,
            _ => false,
        }
    }
}

/// The block that starts each direction of a connection: 30 zero bytes.
pub open spec fn alignment_prefix() -> Seq<u8> {
    Seq::new(PACKET_LEN as nat, |i: int| 0u8)
}

/// The bytes that carry the frame `w` on a stream: `w` alone once the prefix
/// is out, else the prefix and then `w`.
pub open spec fn stream_bytes(tx_start: bool, w: Seq<u8>) -> Seq<u8> {
    if tx_start {
        w
    } else {
        alignment_prefix() + w
    }
}

/// The frame at the end of the bytes of one write.
pub open spec fn last_frame(bytes: Seq<u8>) -> Seq<u8> {
    bytes.subrange(bytes.len() - FRAME_LEN, bytes.len() as int)
}

/// What a TCP transport holds.
pub struct TcpView {
    pub config: Config,
    pub mac_addr: Seq<u8>,
    pub bus_number: u8,
    pub data_rate: u16,
    pub last_heartbeat: i64,
    /// The prefix has been written on this connection.
    pub tx_start: bool,
    /// Bytes of the prefix still to be discarded on this connection.
    pub rx_prefix_left: nat,
}

impl TcpView {
    /// A heartbeat is due at `now`.
    pub open spec fn due(self, now: i64) -> bool {
        heartbeat_due(self.last_heartbeat, now, self.config.heartbeat_interval)
    }

    /// Both directions start over with the prefix.
    pub open spec fn restarted(self) -> TcpView {
        TcpView { tx_start: false, rx_prefix_left: PACKET_LEN as nat, ..self }
    }

    /// The state after a write that the socket took whole.
    pub open spec fn wrote(self) -> TcpView {
        TcpView { tx_start: true, ..self }
    }

    /// The state after a write attempt: the prefix counts as written only
    /// when the socket took the bytes.
    pub open spec fn write_recorded(self, sent: bool) -> TcpView {
        if sent {
            self.wrote()
        } else {
            self
        }
    }

    /// The state after a poll in connection state `state`: both directions
    /// start over when the peer has closed its side or no connection is
    /// there.
    pub open spec fn polled(self, state: TcpState) -> TcpView {
        if state is CloseWait || state.spec_no_connection() {
            self.restarted()
        } else {
            self
        }
    }

    /// The state after a heartbeat attempt at `now`: the timestamp moves to
    /// `now` only when the heartbeat was sent.
    pub open spec fn recorded(self, now: i64, sent: bool) -> TcpView {
        if sent {
            TcpView { last_heartbeat: now, ..self }
        } else {
            self
        }
    }
}

/// Stream alignment: on a fresh connection the first write is the 30 zero
/// bytes followed by the 14-byte frame, 44 bytes in all; when the socket took
/// it, the write after it is the 14-byte frame alone, and when the socket
/// refused it, the write after it starts with the prefix again; and once a
/// half-close by the peer has been polled, the next write starts with the
/// prefix again.
pub proof fn lemma_stream_alignment(s: TcpView, w1: Seq<u8>, w2: Seq<u8>, w3: Seq<u8>)
    requires
        !s.tx_start,
        w1.len() == FRAME_LEN,
        w2.len() == FRAME_LEN,
        w3.len() == FRAME_LEN,
    ensures
        stream_bytes(s.tx_start, w1).len() == 44,
        stream_bytes(s.tx_start, w1).take(30) == alignment_prefix(),
        stream_bytes(s.tx_start, w1).skip(30) == w1,
        stream_bytes(s.write_recorded(true).tx_start, w2) == w2,
        stream_bytes(s.write_recorded(false).tx_start, w2) == alignment_prefix() + w2,
        stream_bytes(
            s.write_recorded(true).write_recorded(true).polled(TcpState::CloseWait).tx_start,
            w3,
        ) == alignment_prefix() + w3,
{
    assert(stream_bytes(s.tx_start, w1).take(30) =~= alignment_prefix());
    assert(stream_bytes(s.tx_start, w1).skip(30) =~= w1);
}

/// What one poll asks of the caller.
#[derive(Debug, Clone)]
pub struct TcpPollAction {
    /// Listen on the configured port.
    pub listen: bool,
    /// Close the local side: the peer has closed its side.
    pub close: bool,
    /// Write these bytes, then report the outcome to `write_result` and
    /// `heartbeat_result`.
    pub heartbeat: Option<Vec<u8>>,
}

/// TCP server.
#[derive(Debug)]
pub struct Server {
    config: Config,
    mac_addr: [u8; 6],
    bus_number: BusNumber,
    data_rate: u16,
    last_heartbeat: i64,
    tx_start: bool,
    rx_prefix_left: usize,
}

impl View for Server {
    type V = TcpView;

    closed spec fn view(&self) -> TcpView {
        TcpView {
            config: self.config,
            mac_addr: self.mac_addr@,
            bus_number: self.bus_number@,
            data_rate: self.data_rate,
            last_heartbeat: self.last_heartbeat,
            tx_start: self.tx_start,
            rx_prefix_left: self.rx_prefix_left as nat,
        }
    }
}

impl Server {
    /// A server with no connection yet, counting its first heartbeat interval
    /// from `now` (microseconds).
    pub fn new(
        config: Config,
        mac_addr: [u8; 6],
        now: i64,
        bus_number: BusNumber,
        data_rate: u16,
    ) -> (r: Server)
        ensures
            r@ == (TcpView {
                config,
                mac_addr: mac_addr@,
                bus_number: bus_number@,
                data_rate,
                last_heartbeat: now,
                tx_start: false,
                rx_prefix_left: PACKET_LEN as nat,
            }),
    {
        Server {
            config,
            mac_addr,
            bus_number,
            data_rate,
            last_heartbeat: now,
            tx_start: false,
            rx_prefix_left: PACKET_LEN,
        }
    }

    /// The configuration.
    pub fn config(&self) -> (r: Config)
        ensures
            r == self@.config,
    {
        self.config
    }

    /// The current bus number.
    pub fn bus_number(&self) -> (r: BusNumber)
        ensures
            r@ == self@.bus_number,
    {
        self.bus_number
    }

    /// Sets a new bus number.
    pub fn set_bus_number(&mut self, bus_number: BusNumber)
        ensures
            final(self)@ == (TcpView { bus_number: bus_number@, ..old(self)@ }),
    {
        self.bus_number = bus_number;
    }

    /// Whether the whole prefix has been read on this connection.
    pub fn rx_started(&self) -> (r: bool)
        ensures
            r == (self@.rx_prefix_left == 0),
    {
        self.rx_prefix_left == 0
    }

    /// How many bytes the next read of the stream should take: what is left
    /// of the prefix, then one frame at a time.
    pub fn recv_len(&self) -> (r: usize)
        ensures
            r == (if self@.rx_prefix_left > 0 {
                self@.rx_prefix_left
            } else {
                FRAME_LEN as nat
            }),
    {
        if self.rx_prefix_left > 0 {
            self.rx_prefix_left
        } else {
            FRAME_LEN
        }
    }

    /// The bytes that carry `w` on the stream; the prefix comes first when it
    /// has not been written yet.
    fn write_stream(&self, w: &Frame) -> (r: Vec<u8>)
        ensures
            r@ == stream_bytes(self@.tx_start, w@),
    {
        let mut out: Vec<u8> = Vec::new();
        if !self.tx_start {
            let mut i: usize = 0;
            while i < PACKET_LEN
                invariant
                    i <= PACKET_LEN,
                    out@ == Seq::new(i as nat, |k: int| 0u8),
                decreases PACKET_LEN - i,
            {
                out.push(0u8);
                i = i + 1;
                assert(out@ =~= Seq::new(i as nat, |k: int| 0u8));
            }
        }
        let ghost head = out@;
        let mut i: usize = 0;
        while i < FRAME_LEN
            invariant
                i <= FRAME_LEN,
                w@.len() == FRAME_LEN,
                out@ == head + w@.take(i as int),
            decreases FRAME_LEN - i,
        {
            out.push(w.0[i]);
            i = i + 1;
            assert(out@ =~= head + w@.take(i as int));
        }
        assert(w@.take(FRAME_LEN as int) =~= w@);
        assert(out@ =~= stream_bytes(self@.tx_start, w@));
        out
    }

    /// Decides one poll at `now` in connection state `state`: listen when the
    /// socket is neither open nor listening; when the peer has closed its side,
    /// close ours and start both directions over, as also when no connection
    /// is there; otherwise, when the socket can take bytes and a heartbeat is
    /// due, write a heartbeat frame, preceded by the prefix on a connection
    /// where none has been written yet.
    pub fn poll(&mut self, state: TcpState, can_send: bool, now: i64) -> (r: TcpPollAction)
        ensures
            r.listen == (!state.spec_is_open() && !(state is Listen)),
            r.close == (state is CloseWait),
            final(self)@ == old(self)@.polled(state),
            ({
                let s = if state.spec_no_connection() {
                    old(self)@.restarted()
                } else {
                    old(self)@
                };
                if !(state is CloseWait) && can_send && s.due(now) {
                    r.heartbeat matches Some(b) && b@.len() >= FRAME_LEN && b@ == stream_bytes(
                        s.tx_start,
                        last_frame(b@),
                    ) && is_heartbeat_frame(last_frame(b@), s.mac_addr, s.data_rate)
                } else {
                    r.heartbeat is None
                }
            }),
    {
        let listen = !state.is_open() && state != TcpState::Listen;
        if state == TcpState::CloseWait {
            self.tx_start = false;
            self.rx_prefix_left = PACKET_LEN;
            return TcpPollAction { listen, close: true, heartbeat: None };
        }
        if state.no_connection() {
            self.tx_start = false;
            self.rx_prefix_left = PACKET_LEN;
        }
        let heartbeat = if can_send && is_heartbeat_due(
            self.last_heartbeat,
            now,
            self.config.heartbeat_interval,
        ) {
            let p = build(&self.mac_addr, &self.bus_number, &self.data_rate);
            let b = self.write_stream(&p.frame);
            assert(last_frame(b@) =~= p.frame@);
            Some(b)
        } else {
            None
        };
        TcpPollAction { listen, close: false, heartbeat }
    }

    /// Records the outcome of the heartbeat that `poll` asked for at `now`.
    pub fn heartbeat_result(&mut self, now: i64, sent: bool)
        ensures
            final(self)@ == old(self)@.recorded(now, sent),
    {
        if sent {
            self.last_heartbeat = now;
        }
    }

    /// Records whether the socket took the whole of bytes that this server
    /// gave to write. Only then does the prefix count as written.
    pub fn write_result(&mut self, sent: bool)
        ensures
            final(self)@ == old(self)@.write_recorded(sent),
    {
        if sent {
            self.tx_start = true;
        }
    }

    /// The bytes of a heartbeat frame on the stream. Sending them does not
    /// reset the heartbeat interval.
    pub fn send_heartbeat(&self) -> (r: Vec<u8>)
        ensures
            r@.len() >= FRAME_LEN,
            r@ == stream_bytes(self@.tx_start, last_frame(r@)),
            is_heartbeat_frame(last_frame(r@), self@.mac_addr, self@.data_rate),
    {
        let p = build(&self.mac_addr, &self.bus_number, &self.data_rate);
        let b = self.write_stream(&p.frame);
        assert(last_frame(b@) =~= p.frame@);
        b
    }

    /// The bytes that carry `frame` on the stream: the prefix first when this
    /// is the first write of the connection, then the wire form of the frame.
    /// Fails as `Frame::from_frame` fails, before any byte.
    pub fn send_frame(&self, frame: &CanFrame) -> (r: Result<Vec<u8>, Error>)
        ensures
            frame.dlc > MAX_DLC || frame.data@.len() > MAX_DLC ==> r == Err::<Vec<u8>, Error>(
                Error::LengthError,
            ),
            frame.dlc <= MAX_DLC && frame.data@.len() <= MAX_DLC && !frame.id.spec_valid() ==> r
                == Err::<Vec<u8>, Error>(Error::InvalidIdentifier),
            frame.dlc <= MAX_DLC && frame.data@.len() <= MAX_DLC && frame.id.spec_valid() ==> (r matches Ok(
                b,
            ) && b@.len() >= FRAME_LEN && b@ == stream_bytes(self@.tx_start, last_frame(b@))
                && encodes(last_frame(b@), frame@)),
    {
        match Frame::from_frame(frame) {
            Ok(w) => {
                let b = self.write_stream(&w);
                assert(last_frame(b@) =~= w@);
                Ok(b)
            },
            Err(e) => Err(e),
        }
    }

    /// Takes the bytes of one read from the stream. While the prefix is not
    /// all read, the bytes count towards it and are discarded, up to what is
    /// left of it, and give no frame. After it, exactly one frame's worth of
    /// bytes gives the CAN frame it holds, and any other length, or a frame
    /// that holds no valid CAN frame, gives none.
    pub fn recv_frame(&mut self, bytes: &[u8]) -> (r: Option<CanFrame>)
        ensures
            old(self)@.rx_prefix_left > 0 ==> r is None && final(self)@ == (TcpView {
                rx_prefix_left: (if bytes@.len() < old(self)@.rx_prefix_left {
                    old(self)@.rx_prefix_left - bytes@.len()
                } else {
                    0
                }) as nat,
                ..old(self)@
            }),
            old(self)@.rx_prefix_left == 0 ==> final(self)@ == old(self)@,
            old(self)@.rx_prefix_left == 0 && bytes@.len() != FRAME_LEN ==> r is None,
            old(self)@.rx_prefix_left == 0 && bytes@.len() == FRAME_LEN ==> match spec_from_wire(
                bytes@,
            ) {
                Ok(v) => r matches Some(c) && c@ == v,
                Err(_) => r is None,
            },
    {
        if self.rx_prefix_left > 0 {
            if bytes.len() < self.rx_prefix_left {
                self.rx_prefix_left = self.rx_prefix_left - bytes.len();
            } else {
                self.rx_prefix_left = 0;
            }
            return None;
        }
        match Frame::from_bytes(bytes) {
            Err(_) => None,
            Ok(w) => match w.to_frame() {
                Ok(c) => Some(c),
                Err(_) => None,
            },
        }
    }
}

} // verus!
