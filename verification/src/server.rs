//! The server's side: what the listener does with a datagram on the
//! well-known port, and the session that serves one client.

use crate::shared::data_channel::{
    refusal, ChannelView, DataChannel, DataChannelMode, DataChannelOwner, DataChannelState,
    FileProbe,
};
use crate::shared::err_packet::{canonical_text, error_code, ErrorPacket, TFTPError};
use crate::shared::request_packet::{ReadRequestPacket, Request, WriteRequestPacket};
use crate::shared::session::{Action, Delivery, Session, SessionView};
use crate::shared::{
    parse_packet, parse_udp_packet, PacketView, Serializable, TFTPPacket, STRIDE_SIZE,
};
use vstd::prelude::*;
use vstd::string::*;

verus! {

/// The address and port that datagrams come from and go to.
#[derive(Debug, Clone, Copy, PartialEq, Eq, Structural)]
pub struct Endpoint {
    /// The address as a number; an IPv4 address fills the low 32 bits.
    pub host: u128,
    /// Whether the address is an IPv6 address.
    pub v6: bool,
    pub port: u16,
}

/// What the listener does with a datagram.
pub enum ListenerAction {
    /// Open a session for the transfer of `file_name` in direction `mode`,
    /// as seen from the server.
    Open { file_name: String, mode: DataChannelMode },
    /// Send these bytes back to the sender.
    Reject(Vec<u8>),
}

/// The file and the direction, as seen from the server, that the datagram
/// `raw` asks for, if it is a request.
pub open spec fn request_of(raw: Seq<u8>) -> Option<(Seq<char>, DataChannelMode)> {
    match parse_packet(raw) {
        Ok(PacketView::RRQ { filename, .. }) => Some((filename, DataChannelMode::Tx)),
        Ok(PacketView::WRQ { filename, .. }) => Some((filename, DataChannelMode::Rx)),
        _ => None,
    }
}

/// The error packet of a kind, with the message of that kind.
pub open spec fn error_packet_of(err: TFTPError) -> PacketView {
    PacketView::ERR { code: error_code(err), message: canonical_text(err) }
}

/// The session of a server before anything went out: the transfer as it
/// starts on the side of the server. Where the server receives, the
/// acknowledgement that opens the transfer has yet to go out.
pub open spec fn server_start(
    file_name: Seq<char>,
    mode: DataChannelMode,
    probe: FileProbe,
) -> SessionView {
    SessionView {
        channel: ChannelView::opened(file_name, mode, DataChannelOwner::Server, probe),
        request: None,
        peer_error: None,
        unsent: mode == DataChannelMode::Rx,
    }
}

/// Decides what to do with a datagram that arrived on the listening port: a
/// read or write request opens a session, and anything else is answered
/// with an error packet of the kind illegal operation.
pub fn accept_request(raw: &[u8]) -> (action: ListenerAction)
    ensures
        match request_of(raw@) {
            Some((name, mode)) => action matches ListenerAction::Open { file_name, mode: m }
                && file_name@ == name && m == mode,
            None => action matches ListenerAction::Reject(bytes) && bytes@ == error_packet_of(
                TFTPError::IllegalOperation,
            ).wire(),
        },
{
    match parse_udp_packet(raw) {
        Ok(TFTPPacket::RRQ(rrq)) => ListenerAction::Open {
            file_name: String::from_str(rrq.filename()),
            mode: DataChannelMode::Tx,
        },
        Ok(TFTPPacket::WRQ(wrq)) => ListenerAction::Open {
            file_name: String::from_str(wrq.filename()),
            mode: DataChannelMode::Rx,
        },
        _ => ListenerAction::Reject(ErrorPacket::new(TFTPError::IllegalOperation).serialize()),
    }
}

/// A TFTP server session that serves a single client.
pub struct TFTPServer {
    session: Session,
    client: Endpoint,
}

impl View for TFTPServer {
    type V = SessionView;

    closed spec fn view(&self) -> SessionView {
        self.session@
    }
}

impl TFTPServer {
    /// The client that opened the session.
    pub closed spec fn client(&self) -> Endpoint {
        self.client
    }

    /// Opens the session that the request `rq_packet` of `client` asks for,
    /// or gives the error packet that refuses it: the one that says why the
    /// transfer cannot start, or that of the kind illegal operation where
    /// the datagram is no request. `probe` is what was found at the path
    /// that the request names.
    pub fn new(rq_packet: &[u8], client: Endpoint, probe: &FileProbe) -> (r: Result<
        TFTPServer,
        ErrorPacket,
    >)
        ensures
            match request_of(rq_packet@) {
                Some((name, mode)) => match r {
                    Ok(server) => refusal(name, mode, DataChannelOwner::Server, *probe) is None
                        && server@ == server_start(name, mode, *probe) && server.client()
                        == client,
                    Err(packet) => refusal(name, mode, DataChannelOwner::Server, *probe) == Some(
                        packet@,
                    ),
                },
                None => r matches Err(packet) && packet@ == error_packet_of(
                    TFTPError::IllegalOperation,
                ),
            },
    {
        match parse_udp_packet(rq_packet) {
            Ok(TFTPPacket::RRQ(rrq)) => TFTPServer::init_rrq_response(rrq, client, probe),
            Ok(TFTPPacket::WRQ(wrq)) => TFTPServer::init_wrq_response(wrq, client, probe),
            _ => Err(ErrorPacket::new(TFTPError::IllegalOperation)),
        }
    }

    /// Tells whether the transfer failed: a block arrived out of sequence.
    pub fn is_err(&self) -> (b: bool)
        ensures
            b == (self@.channel.error is Some),
            b == (self@.channel.state == DataChannelState::Error),
    {
        self.session.is_failed()
    }

    /// Extracts the message of the failure of the transfer.
    pub fn err(self) -> (text: String)
        requires
            self@.channel.error is Some,
        ensures
            Some(text@) == self@.channel.error,
    {
        self.session.into_failure()
    }

    pub fn blk(&self) -> (blk: u16)
        ensures
            blk == self@.channel.blk,
    {
        self.session.blk()
    }

    /// Tells what is done next, and counts what is sent as gone out.
    pub fn next_action(&mut self) -> (action: Action)
        ensures
            action@ == old(self)@.due_action(),
            final(self)@ == old(self)@.after_action(),
            final(self).client() == old(self).client(),
    {
        self.session.next_action()
    }

    /// Takes a datagram of the client.
    pub fn run(&mut self, raw_packet: &[u8]) -> (d: Delivery)
        ensures
            old(self)@.handed(raw_packet@, final(self)@, d),
            final(self).client() == old(self).client(),
    {
        self.session.deliver(raw_packet)
    }

    /// Takes a datagram that arrived on the session's socket from `from`. A
    /// datagram of anyone but the client leaves the session as it is and is
    /// answered, to its sender, with an error packet of the kind unknown
    /// transfer ID.
    pub fn receive(&mut self, from: Endpoint, raw_packet: &[u8]) -> (d: Delivery)
        ensures
            final(self).client() == old(self).client(),
            from != old(self).client() ==> final(self)@ == old(self)@ && (
            d matches Delivery::Foreign(reply) && reply@ == error_packet_of(
                TFTPError::UnknownTID,
            ).wire()),
            from == old(self).client() ==> old(self)@.handed(raw_packet@, final(self)@, d),
    {
        if from != self.client {
            return Delivery::Foreign(ErrorPacket::new(TFTPError::UnknownTID).serialize());
        }
        self.run(raw_packet)
    }

    fn init_rrq_response(rrq: ReadRequestPacket, client: Endpoint, probe: &FileProbe) -> (r: Result<
        TFTPServer,
        ErrorPacket,
    >)
        ensures
            match r {
                Ok(server) => refusal(
                    rrq@.filename(),
                    DataChannelMode::Tx,
                    DataChannelOwner::Server,
                    *probe,
                ) is None && server@ == server_start(rrq@.filename(), DataChannelMode::Tx, *probe)
                    && server.client() == client,
                Err(packet) => refusal(
                    rrq@.filename(),
                    DataChannelMode::Tx,
                    DataChannelOwner::Server,
                    *probe,
                ) == Some(packet@),
            },
    {
        match DataChannel::new(
            rrq.filename(),
            DataChannelMode::Tx,
            DataChannelOwner::Server,
            probe,
        ) {
            Ok(data_channel) => Ok(TFTPServer { session: Session::new(data_channel, None), client }),
            Err(packet) => Err(packet),
        }
    }

    fn init_wrq_response(wrq: WriteRequestPacket, client: Endpoint, probe: &FileProbe) -> (r:
        Result<TFTPServer, ErrorPacket>)
        ensures
            match r {
                Ok(server) => refusal(
                    wrq@.filename(),
                    DataChannelMode::Rx,
                    DataChannelOwner::Server,
                    *probe,
                ) is None && server@ == server_start(wrq@.filename(), DataChannelMode::Rx, *probe)
                    && server.client() == client,
                Err(packet) => refusal(
                    wrq@.filename(),
                    DataChannelMode::Rx,
                    DataChannelOwner::Server,
                    *probe,
                ) == Some(packet@),
            },
    {
        match DataChannel::new(
            wrq.filename(),
            DataChannelMode::Rx,
            DataChannelOwner::Server,
            probe,
        ) {
            Ok(data_channel) => Ok(TFTPServer { session: Session::new(data_channel, None), client }),
            Err(packet) => Err(packet),
        }
    }

    /// Tells whether the session waits for the next block of the file to be
    /// handed to `send_data`.
    pub fn needs_data(&self) -> (b: bool)
        ensures
            b == (self@.channel.state == DataChannelState::SendData),
    {
        self.session.needs_data()
    }

    /// Hands the next block of the file to the transfer: as many bytes as
    /// could be read, a block at most.
    pub fn send_data(&mut self, chunk: &[u8])
        requires
            old(self)@.channel.state == DataChannelState::SendData,
            chunk@.len() <= STRIDE_SIZE,
            old(self)@.channel.transferred + chunk@.len() <= usize::MAX,
        ensures
            final(self)@ == old(self)@.send_data(chunk@),
            final(self).client() == old(self).client(),
    {
        self.session.send_data(chunk)
    }

    /// The bytes of the datagram to send to the client next: none once the
    /// transfer is done, and none before there is a packet.
    pub fn get_next_packet(&mut self) -> (packet: Option<Vec<u8>>)
        ensures
            match packet {
                Some(bytes) => old(self)@.outgoing() == Some(bytes@),
                None => old(self)@.outgoing() is None,
            },
            final(self)@ == old(self)@.packet_taken(),
            final(self).client() == old(self).client(),
    {
        self.session.get_next_packet()
    }

    /// Tells whether the transfer is over.
    pub fn done(&self) -> (b: bool)
        ensures
            b == (self@.channel.state == DataChannelState::Done),
    {
        self.session.is_done()
    }

    /// The number of payload bytes that went over the wire.
    pub fn transferred_bytes(&self) -> (n: usize)
        ensures
            n == self@.channel.transferred,
    {
        self.session.transferred_bytes()
    }
}

} // verus!
