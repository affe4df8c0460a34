//! A session: one transfer with what its owner needs to drive it. The
//! session decides what is done next; its owner does it, and hands back
//! what came of it.

use crate::shared::data_channel::{
    illegal_operation_wire, ChannelView, DataChannel, DataChannelState, StoreOrder,
};
use crate::shared::err_packet::{ErrorPacket, TFTPError};
use crate::shared::{
    parse_packet, parse_udp_packet, PacketView, Serializable, TFTPPacket, STRIDE_SIZE,
};
use vstd::prelude::*;
use vstd::string::*;

verus! {

/// What became of a datagram that was handed to a session.
pub enum Delivery {
    /// The transfer took the packet. With it comes what the owner has to
    /// store, if the packet brought a block of the file.
    Taken(Option<StoreOrder>),
    /// The peer reported an error, with this message. The session is over.
    PeerError(String),
    /// The datagram is none that the session can take in its state: it
    /// could not be decoded, or it is a request, or data or an
    /// acknowledgement that the transfer does not wait for. The session
    /// stays as it is. The bytes, an error packet of the kind illegal
    /// operation, go back to the sender of the datagram.
    Unexpected(Vec<u8>),
    /// The datagram came from a stranger. The bytes go back to its sender.
    Foreign(Vec<u8>),
}

/// Whether the transfer `c` waits for the packet `p`. The payload of the
/// awaited block is taken only where the count of bytes has room for it.
pub open spec fn takes(c: ChannelView, p: PacketView) -> bool {
    match p {
        PacketView::ACK { .. } => c.state == DataChannelState::WaitAck || c.state
            == DataChannelState::WaitLastAck,
        PacketView::DATA { blk, data } => c.state == DataChannelState::WaitData && (blk == c.blk
            ==> c.transferred + data.len() <= usize::MAX),
        _ => false,
    }
}

/// The transfer `c` after it took the packet `p`.
pub open spec fn fed(c: ChannelView, p: PacketView) -> ChannelView {
    match p {
        PacketView::ACK { blk } => c.on_ack(blk),
        PacketView::DATA { blk, data } => c.on_data(blk, data),
        _ => c,
    }
}

/// What is to be stored after the transfer `c` took the packet `p`: the
/// payload of a data packet with the awaited block number, and whether the
/// file is to be created first, which is so for block 1.
pub open spec fn due_store(c: ChannelView, p: PacketView) -> Option<(bool, Seq<u8>)> {
    match p {
        PacketView::DATA { blk, data } => if blk == c.blk {
            Some((blk == 1, data))
        } else {
            None
        },
        _ => None,
    }
}

/// What an order to store says.
pub open spec fn stored(order: Option<StoreOrder>) -> Option<(bool, Seq<u8>)> {
    match order {
        Some(o) => Some((o.create, o.data@)),
        None => None,
    }
}

/// What handing the datagram `raw` to the transfer `before` gives: the
/// transfer `after` and the delivery `d`. A packet that the transfer waits
/// for is taken. An error packet ends the session with the message of the
/// peer. Anything else, what cannot be decoded included, leaves the
/// transfer as it is and is answered with an error packet of the kind
/// illegal operation.
pub open spec fn delivered(before: ChannelView, raw: Seq<u8>, after: ChannelView, d: Delivery) -> bool {
    match parse_packet(raw) {
        Ok(p) => if takes(before, p) {
            &&& after == fed(before, p)
            &&& d matches Delivery::Taken(order) && stored(order) == due_store(before, p)
        } else if p is ERR {
            &&& after == before
            &&& d matches Delivery::PeerError(text) && text@ == p.message()
        } else {
            &&& after == before
            &&& d matches Delivery::Unexpected(reply) && reply@ == illegal_operation_wire()
        },
        Err(_) => {
            &&& after == before
            &&& d matches Delivery::Unexpected(reply) && reply@ == illegal_operation_wire()
        },
    }
}

/// Decodes a datagram and feeds it to the transfer where the transfer waits
/// for it.
pub fn deliver(channel: &mut DataChannel, raw: &[u8]) -> (d: Delivery)
    ensures
        delivered(old(channel)@, raw@, final(channel)@, d),
{
    match parse_udp_packet(raw) {
        Ok(TFTPPacket::DATA(data)) => {
            if channel.state() == DataChannelState::WaitData && (data.blk() != channel.blk()
                || data.data_length() <= usize::MAX - channel.transfer_size()) {
                Delivery::Taken(channel.on_data(data))
            } else {
                Delivery::Unexpected(illegal_operation())
            }
        },
        Ok(TFTPPacket::ACK(ack)) => {
            let state = channel.state();
            if state == DataChannelState::WaitAck || state == DataChannelState::WaitLastAck {
                channel.on_ack(ack);
                Delivery::Taken(None)
            } else {
                Delivery::Unexpected(illegal_operation())
            }
        },
        Ok(TFTPPacket::ERR(err)) => Delivery::PeerError(String::from_str(err.err())),
        _ => Delivery::Unexpected(illegal_operation()),
    }
}

/// The bytes of an error packet of the kind illegal operation.
pub fn illegal_operation() -> (bytes: Vec<u8>)
    ensures
        bytes@ == illegal_operation_wire(),
{
    ErrorPacket::new(TFTPError::IllegalOperation).serialize()
}

/// What the owner of a session does next.
pub enum Action {
    /// Read the next block of the file and hand it to `send_data`.
    ReadBlock,
    /// Send these bytes to the peer.
    Send(Vec<u8>),
    /// Wait for a datagram and hand it in.
    Receive,
    /// Stop: the transfer is complete.
    Finish,
    /// Stop: the transfer failed, for the reason given.
    Fail(String),
}

/// What an action says.
pub enum ActionView {
    ReadBlock,
    Send(Seq<u8>),
    Receive,
    Finish,
    Fail(Seq<char>),
}

impl View for Action {
    type V = ActionView;

    open spec fn view(&self) -> ActionView {
        match self {
            Action::ReadBlock => ActionView::ReadBlock,
            Action::Send(bytes) => ActionView::Send(bytes@),
            Action::Receive => ActionView::Receive,
            Action::Finish => ActionView::Finish,
            Action::Fail(text) => ActionView::Fail(text@),
        }
    }
}

/// Whether a transfer in the state of `c` has just made a packet.
pub open spec fn has_news(c: ChannelView) -> bool {
    c.state != DataChannelState::SendData && c.state != DataChannelState::Done
}

/// What a session holds.
pub struct SessionView {
    /// The transfer.
    pub channel: ChannelView,
    /// The bytes of the request that opens the session, until they went out.
    pub request: Option<Seq<u8>>,
    /// The message of the error that the peer reported, if it did.
    pub peer_error: Option<Seq<char>>,
    /// Whether there is a packet that has not gone out yet.
    pub unsent: bool,
}

impl SessionView {
    /// The bytes that go out next: the packet of the transfer, or else the
    /// request. Nothing goes out once the transfer is done.
    pub open spec fn outgoing(self) -> Option<Seq<u8>> {
        if self.channel.state == DataChannelState::Done {
            None
        } else if self.channel.packet is Some {
            self.channel.packet
        } else {
            self.request
        }
    }

    /// The session after the bytes that go out next were handed out: the
    /// request goes out once, and with the last acknowledgement the
    /// transfer ends.
    pub open spec fn packet_taken(self) -> SessionView {
        if self.channel.state == DataChannelState::Done {
            SessionView { unsent: false, ..self }
        } else {
            SessionView {
                channel: self.channel.packet_taken(),
                request: if self.channel.packet is Some {
                    self.request
                } else {
                    None
                },
                unsent: false,
                ..self
            }
        }
    }

    /// What is done next. An error that the peer reported ends the
    /// session. A transfer that asks for the next block of the file gets
    /// it. A packet that has not gone out is sent. After that, a transfer
    /// that failed ends the session, and so does one that is done; any
    /// other waits for a datagram.
    pub open spec fn due_action(self) -> ActionView {
        if self.peer_error is Some {
            ActionView::Fail(self.peer_error->0)
        } else if self.channel.state == DataChannelState::SendData {
            ActionView::ReadBlock
        } else if self.unsent && self.outgoing() is Some {
            ActionView::Send(self.outgoing()->0)
        } else if self.channel.error is Some {
            ActionView::Fail(self.channel.error->0)
        } else if self.channel.state == DataChannelState::Done {
            ActionView::Finish
        } else {
            ActionView::Receive
        }
    }

    /// The session after its owner was told what is done next: what is
    /// sent counts as gone out.
    pub open spec fn after_action(self) -> SessionView {
        if self.due_action() is Send {
            self.packet_taken()
        } else {
            self
        }
    }

    /// Whether the session `after`, with the delivery `d`, is what handing
    /// the datagram `raw` to this session gives: the transfer takes the
    /// packet where it waits for it and then has a packet to send unless it
    /// asks for a block or is done, and an error that the peer reports is
    /// kept.
    pub open spec fn handed(self, raw: Seq<u8>, after: SessionView, d: Delivery) -> bool {
        &&& delivered(self.channel, raw, after.channel, d)
        &&& after.request == self.request
        &&& after.peer_error == match d {
            Delivery::PeerError(text) => Some(text@),
            _ => self.peer_error,
        }
        &&& after.unsent == if d is Taken {
            has_news(after.channel)
        } else {
            self.unsent
        }
    }

    /// The session after its owner handed it the next block of the file.
    pub open spec fn send_data(self, chunk: Seq<u8>) -> SessionView {
        SessionView {
            channel: self.channel.send_data(chunk),
            unsent: has_news(self.channel.send_data(chunk)),
            ..self
        }
    }
}

/// Sending and waiting alternate: once a packet went out, the session
/// waits for a datagram or stops, and sends nothing more before it was
/// handed something. A session finishes only when its transfer is done and
/// nothing went wrong.
pub proof fn lemma_one_packet_at_a_time(s: SessionView)
    ensures
        s.due_action() is Send ==> s.after_action().due_action() is Receive
            || s.after_action().due_action() is Finish || s.after_action().due_action() is Fail,
        !(s.due_action() is Send) ==> s.after_action() == s,
        s.due_action() is Finish ==> s.channel.state == DataChannelState::Done
            && s.channel.error is None && s.peer_error is None,
        s.due_action() is Receive ==> s.channel.state != DataChannelState::Done
            && s.channel.state != DataChannelState::SendData && s.channel.error is None,
{
}

/// The bytes of a buffer, if there is one.
pub open spec fn bytes_of(buffer: Option<Vec<u8>>) -> Option<Seq<u8>> {
    match buffer {
        Some(bytes) => Some(bytes@),
        None => None,
    }
}

/// The characters of a text, if there is one.
pub open spec fn text_of(text: Option<String>) -> Option<Seq<char>> {
    match text {
        Some(t) => Some(t@),
        None => None,
    }
}

/// One transfer and what its owner needs to drive it.
pub struct Session {
    data_channel: DataChannel,
    packet_buffer: Option<Vec<u8>>,
    error: Option<String>,
    unsent: bool,
}

impl View for Session {
    type V = SessionView;

    closed spec fn view(&self) -> SessionView {
        SessionView {
            channel: self.data_channel@,
            request: bytes_of(self.packet_buffer),
            peer_error: text_of(self.error),
            unsent: self.unsent,
        }
    }
}

impl Session {
    /// The session of the transfer `data_channel`, which `request` opens
    /// where this end asks for the transfer.
    pub fn new(data_channel: DataChannel, request: Option<Vec<u8>>) -> (s: Session)
        ensures
            s@ == (SessionView {
                channel: data_channel@,
                request: bytes_of(request),
                peer_error: None,
                unsent: request is Some || data_channel@.packet is Some,
            }),
    {
        let unsent = request.is_some() || data_channel.has_packet();
        Session { data_channel, packet_buffer: request, error: None, unsent }
    }

    /// Tells what is done next, and counts what is sent as gone out.
    pub fn next_action(&mut self) -> (action: Action)
        ensures
            action@ == old(self)@.due_action(),
            final(self)@ == old(self)@.after_action(),
    {
        match &self.error {
            Some(text) => {
                return Action::Fail(text.clone());
            },
            None => {},
        }
        if self.data_channel.needs_data() {
            return Action::ReadBlock;
        }
        if self.unsent && !self.data_channel.is_done() && (self.data_channel.has_packet()
            || self.packet_buffer.is_some()) {
            match self.get_next_packet() {
                Some(bytes) => {
                    return Action::Send(bytes);
                },
                None => {},
            }
        }
        match self.data_channel.error_text() {
            Some(text) => {
                return Action::Fail(text);
            },
            None => {},
        }
        if self.data_channel.is_done() {
            Action::Finish
        } else {
            Action::Receive
        }
    }

    /// Returns the bytes to send next: the packet that the transfer holds,
    /// or else the request, which is handed out once. There are none once
    /// the transfer is done.
    pub fn get_next_packet(&mut self) -> (packet: Option<Vec<u8>>)
        ensures
            bytes_of(packet) == old(self)@.outgoing(),
            final(self)@ == old(self)@.packet_taken(),
    {
        self.unsent = false;
        if self.data_channel.is_done() {
            return None;
        }
        let packet_at_hand = self.data_channel.packet_at_hand();
        if packet_at_hand.is_none() {
            // RRQ / WRQ are managed here.
            return self.packet_buffer.take();
        }
        packet_at_hand
    }

    /// Takes a datagram of the peer.
    pub fn deliver(&mut self, raw: &[u8]) -> (d: Delivery)
        ensures
            old(self)@.handed(raw@, final(self)@, d),
    {
        let d = deliver(&mut self.data_channel, raw);
        match &d {
            Delivery::PeerError(text) => {
                self.error = Some(text.clone());
            },
            Delivery::Taken(_) => {
                self.unsent = !self.data_channel.needs_data() && !self.data_channel.is_done();
            },
            _ => {},
        }
        d
    }

    /// Tells whether the session waits for the next block of the file to be
    /// handed to `send_data`.
    pub fn needs_data(&self) -> (b: bool)
        ensures
            b == (self@.channel.state == DataChannelState::SendData),
    {
        self.data_channel.needs_data()
    }

    /// Hands the next block of the file to the transfer: as many bytes as
    /// could be read, a block at most.
    pub fn send_data(&mut self, chunk: &[u8])
        requires
            old(self)@.channel.state == DataChannelState::SendData,
            chunk@.len() <= STRIDE_SIZE,
            old(self)@.channel.transferred + chunk@.len() <= usize::MAX,
        ensures
            final(self)@ == old(self)@.send_data(chunk@),
    {
        self.data_channel.send_data(chunk);
        self.unsent = !self.data_channel.is_done();
    }

    /// Tells whether the transfer is over.
    pub fn is_done(&self) -> (b: bool)
        ensures
            b == (self@.channel.state == DataChannelState::Done),
    {
        self.data_channel.is_done()
    }

    /// Tells whether the peer reported an error.
    pub fn is_err(&self) -> (b: bool)
        ensures
            b == (self@.peer_error is Some),
    {
        self.error.is_some()
    }

    /// Extracts the message of the error that the peer reported.
    pub fn get_err(self) -> (text: String)
        requires
            self@.peer_error is Some,
        ensures
            Some(text@) == self@.peer_error,
    {
        self.error.unwrap()
    }

    /// Tells whether the transfer itself failed: a block arrived out of
    /// sequence.
    pub fn is_failed(&self) -> (b: bool)
        ensures
            b == (self@.channel.error is Some),
            b == (self@.channel.state == DataChannelState::Error),
    {
        self.data_channel.is_err()
    }

    /// Extracts the message of the failure of the transfer.
    pub fn into_failure(self) -> (text: String)
        requires
            self@.channel.error is Some,
        ensures
            Some(text@) == self@.channel.error,
    {
        self.data_channel.err()
    }

    /// The block that is awaited, or that was sent last.
    pub fn blk(&self) -> (blk: u16)
        ensures
            blk == self@.channel.blk,
    {
        self.data_channel.blk()
    }

    /// Number of bytes transferred.
    pub fn transferred_bytes(&self) -> (n: usize)
        ensures
            n == self@.channel.transferred,
    {
        self.data_channel.transfer_size()
    }
}

} // verus!
