//! The client's side of a session: one download or one upload.

use crate::shared::data_channel::{
    refusal, ChannelView, DataChannel, DataChannelMode, DataChannelOwner, DataChannelState,
    FileProbe,
};
use crate::shared::err_packet::ErrorPacket;
use crate::shared::request_packet::{ReadRequestPacket, WriteRequestPacket};
use crate::shared::session::{Action, Delivery, Session, SessionView};
use crate::shared::{request_wire, Serializable, OP_RRQ, OP_WRQ, STRIDE_SIZE};
use vstd::prelude::*;

verus! {

/// The state of a client session.
pub struct TFTPClient {
    session: Session,
}

impl View for TFTPClient {
    type V = SessionView;

    closed spec fn view(&self) -> SessionView {
        self.session@
    }
}

/// The transfer mode that the client asks for.
pub open spec fn octet() -> Seq<char> {
    "octet"@
}

/// The session of a client before anything went out: the transfer as it
/// starts on the side of the client, and the request to send.
pub open spec fn client_start(
    file_name: Seq<char>,
    mode: DataChannelMode,
    probe: FileProbe,
) -> SessionView {
    SessionView {
        channel: ChannelView::opened(file_name, mode, DataChannelOwner::Client, probe),
        request: Some(
            request_wire(
                if mode == DataChannelMode::Rx {
                    OP_RRQ
                } else {
                    OP_WRQ
                },
                file_name,
                octet(),
            ),
        ),
        peer_error: None,
        unsent: true,
    }
}

impl TFTPClient {
    /// Constructs a new TFTPClient with its request, or gives the error
    /// packet that says why the transfer cannot start.
    fn new(file_name: &str, mode: DataChannelMode, probe: &FileProbe) -> (r: Result<
        TFTPClient,
        ErrorPacket,
    >)
        ensures
            match r {
                Ok(client) => refusal(file_name@, mode, DataChannelOwner::Client, *probe) is None
                    && client@ == client_start(file_name@, mode, *probe),
                Err(packet) => refusal(file_name@, mode, DataChannelOwner::Client, *probe) == Some(
                    packet@,
                ),
            },
    {
        match DataChannel::new(file_name, mode, DataChannelOwner::Client, probe) {
            Ok(data_channel) => {
                let request = if mode == DataChannelMode::Rx {
                    ReadRequestPacket::new(file_name, "octet").serialize()
                } else {
                    WriteRequestPacket::new(file_name, "octet").serialize()
                };
                Ok(TFTPClient { session: Session::new(data_channel, Some(request)) })
            },
            Err(packet) => Err(packet),
        }
    }

    /// Places a RRQ in the packet buffer to be sent to the server.
    pub fn download(file_name: &str, probe: &FileProbe) -> (r: Result<TFTPClient, ErrorPacket>)
        ensures
            match r {
                Ok(client) => refusal(
                    file_name@,
                    DataChannelMode::Rx,
                    DataChannelOwner::Client,
                    *probe,
                ) is None && client@ == client_start(file_name@, DataChannelMode::Rx, *probe),
                Err(packet) => refusal(
                    file_name@,
                    DataChannelMode::Rx,
                    DataChannelOwner::Client,
                    *probe,
                ) == Some(packet@),
            },
    {
        TFTPClient::new(file_name, DataChannelMode::Rx, probe)
    }

    /// Places a WRQ in the packet buffer to be sent to the server.
    pub fn upload(file_name: &str, probe: &FileProbe) -> (r: Result<TFTPClient, ErrorPacket>)
        ensures
            match r {
                Ok(client) => refusal(
                    file_name@,
                    DataChannelMode::Tx,
                    DataChannelOwner::Client,
                    *probe,
                ) is None && client@ == client_start(file_name@, DataChannelMode::Tx, *probe),
                Err(packet) => refusal(
                    file_name@,
                    DataChannelMode::Tx,
                    DataChannelOwner::Client,
                    *probe,
                ) == Some(packet@),
            },
    {
        TFTPClient::new(file_name, DataChannelMode::Tx, probe)
    }

    /// Tells what is done next, and counts what is sent as gone out.
    pub fn next_action(&mut self) -> (action: Action)
        ensures
            action@ == old(self)@.due_action(),
            final(self)@ == old(self)@.after_action(),
    {
        self.session.next_action()
    }

    /// Returns the packet to be sent to the server next: the packet that
    /// the transfer holds, or else the request, which is handed out once.
    /// There is none once the transfer is done.
    pub fn get_next_packet(&mut self) -> (packet: Option<Vec<u8>>)
        ensures
            match packet {
                Some(bytes) => old(self)@.outgoing() == Some(bytes@),
                None => old(self)@.outgoing() is None,
            },
            final(self)@ == old(self)@.packet_taken(),
    {
        self.session.get_next_packet()
    }

    /// Tells whether the transfer is over.
    pub fn is_done(&self) -> (b: bool)
        ensures
            b == (self@.channel.state == DataChannelState::Done),
    {
        self.session.is_done()
    }

    /// Facade to client logic, parses the given buffer to a TFTP packet
    /// then acts accordingly. An error that the server reports is kept.
    pub fn process_packet(&mut self, buf: &[u8]) -> (d: Delivery)
        ensures
            old(self)@.handed(buf@, final(self)@, d),
    {
        self.session.deliver(buf)
    }

    /// Tells whether the session waits for the next block of the file to be
    /// handed to `send_data`.
    pub fn needs_data(&self) -> (b: bool)
        ensures
            b == (self@.channel.state == DataChannelState::SendData),
    {
        self.session.needs_data()
    }

    /// Hands the next block of the file to the transfer: as many bytes as
    /// could be read, a block at most.
    pub fn send_data(&mut self, chunk: &[u8])
        requires
            old(self)@.channel.state == DataChannelState::SendData,
            chunk@.len() <= STRIDE_SIZE,
            old(self)@.channel.transferred + chunk@.len() <= usize::MAX,
        ensures
            final(self)@ == old(self)@.send_data(chunk@),
    {
        self.session.send_data(chunk)
    }

    /// Returns true if the server reported an error.
    pub fn is_err(&self) -> (b: bool)
        ensures
            b == (self@.peer_error is Some),
    {
        self.session.is_err()
    }

    /// Returns true if the transfer itself failed: a block arrived out of
    /// sequence.
    pub fn is_failed(&self) -> (b: bool)
        ensures
            b == (self@.channel.error is Some),
            b == (self@.channel.state == DataChannelState::Error),
    {
        self.session.is_failed()
    }

    /// Extracts the message of the failure of the transfer.
    pub fn into_failure(self) -> (text: String)
        requires
            self@.channel.error is Some,
        ensures
            Some(text@) == self@.channel.error,
    {
        self.session.into_failure()
    }

    /// Number of bytes transferred.
    pub fn transferred_bytes(&self) -> (n: usize)
        ensures
            n == self@.channel.transferred,
    {
        self.session.transferred_bytes()
    }

    /// Extracts the error message from the client.
    pub fn get_err(self) -> (text: String)
        requires
            self@.peer_error is Some,
        ensures
            Some(text@) == self@.peer_error,
    {
        self.session.get_err()
    }
}

} // verus!
