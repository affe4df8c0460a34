//! The transfer engine: the state machine that drives one transfer, block
//! by block, for either role and either direction.
//!
//! The channel owns no file. Its owner reads the file and hands each block
//! to `send_data`, and stores what `on_data` hands back.

use crate::shared::ack_packet::AckPacket;
use crate::shared::data_packet::DataPacket;
use crate::shared::err_packet::{canonical_text, error_code, ErrorPacket, TFTPError};
use crate::shared::wire::{decimal, push_decimal};
use crate::shared::{ack_wire, data_wire, error_wire, PacketView, Serializable, STRIDE_SIZE};
use vstd::prelude::*;
use vstd::slice::slice_to_vec;
use vstd::string::*;

verus! {

/// Whether this end sends the file (`Tx`) or receives it (`Rx`).
#[derive(Debug, Eq, PartialEq, Copy, Clone, Structural)]
pub enum DataChannelMode {
    Tx,
    Rx,
}

/// What the channel does next.
#[derive(Debug, Eq, PartialEq, Copy, Clone, Structural)]
pub enum DataChannelState {
    /// The next block of the file is awaited.
    WaitData,
    /// A block that is not the last was taken and is to be acknowledged.
    SendAck,
    /// The last block was taken; its acknowledgement ends the transfer.
    SendLastAck,
    /// The next block of the file is to be read and sent.
    SendData,
    /// A block that is not the last went out; its acknowledgement is
    /// awaited.
    WaitAck,
    /// The last block went out; its acknowledgement ends the transfer.
    WaitLastAck,
    /// A block arrived out of sequence. The transfer is over.
    Error,
    /// The transfer is complete.
    Done,
}

/// Which end of the transfer owns the channel.
#[derive(Debug, Eq, PartialEq, Copy, Clone, Structural)]
pub enum DataChannelOwner {
    Server,
    Client,
}

/// What the owner found out about the path of the file before the transfer.
pub struct FileProbe {
    /// Whether anything exists at the path.
    pub exists: bool,
    /// Whether the path names a directory.
    pub is_dir: bool,
    /// Whether the path ends in a file name.
    pub has_file_name: bool,
    /// Whether the path starts at the root.
    pub is_absolute: bool,
    /// The length of the file in bytes, where it exists.
    pub size: u64,
    /// Why the file could not be opened for reading though it exists.
    pub open_error: Option<String>,
}

/// What the owner has to do with the payload of a block that was accepted.
pub struct StoreOrder {
    /// Whether the file is to be created before the payload is written.
    pub create: bool,
    /// The bytes to append to the file.
    pub data: Vec<u8>,
}

/// The block number after `blk`; after 65535 comes 0.
pub open spec fn next_blk(blk: u16) -> u16 {
    if blk == u16::MAX {
        0
    } else {
        (blk + 1) as u16
    }
}

/// The block number and the state that a transfer starts with. A transfer
/// that starts by sending moves on to block 1 with what it sends first.
pub open spec fn initial_state(mode: DataChannelMode, owner: DataChannelOwner) -> (
    u16,
    DataChannelState,
) {
    match (mode, owner) {
        (DataChannelMode::Tx, DataChannelOwner::Client) => (0, DataChannelState::WaitAck),
        (DataChannelMode::Tx, DataChannelOwner::Server) => (0, DataChannelState::SendData),
        (DataChannelMode::Rx, DataChannelOwner::Client) => (1, DataChannelState::WaitData),
        (DataChannelMode::Rx, DataChannelOwner::Server) => (0, DataChannelState::SendAck),
    }
}

/// The local message for a block number `actual` where `expected` was due.
pub open spec fn block_error_text(actual: u16, expected: u16) -> Seq<char> {
    "Invalid block number ["@ + decimal(actual as nat) + "] expected ["@ + decimal(
        expected as nat,
    ) + "]"@
}

/// The bytes of the error packet that answers a block out of sequence.
pub open spec fn illegal_operation_wire() -> Seq<u8> {
    error_wire(
        error_code(TFTPError::IllegalOperation),
        canonical_text(TFTPError::IllegalOperation),
    )
}

/// The message for a file to send that holds no byte.
pub open spec fn empty_file_text(owner: DataChannelOwner) -> Seq<char> {
    match owner {
        DataChannelOwner::Server => "Requested file is empty."@,
        DataChannelOwner::Client => "Transmitted file is empty."@,
    }
}

/// Whether a segment of the path `name` names the parent directory: two
/// full stops with the start of the name or a slash before them, and the
/// end of the name or a slash behind them.
pub open spec fn has_parent_segment(name: Seq<char>) -> bool {
    exists|i: int|
        0 <= i && i + 1 < name.len() && name[i] == '.' && #[trigger] name[i + 1] == '.' && (i == 0
            || name[i - 1] == '/') && (i + 2 == name.len() || name[i + 2] == '/')
}

/// Whether a transfer may send the file that was probed, and if not, the
/// error packet that says why.
pub open spec fn source_refusal(probe: FileProbe, owner: DataChannelOwner) -> Option<PacketView> {
    if !probe.exists {
        Some(
            PacketView::ERR {
                code: error_code(TFTPError::FileNotFound),
                message: canonical_text(TFTPError::FileNotFound),
            },
        )
    } else if probe.open_error is Some {
        Some(PacketView::ERR { code: 0, message: probe.open_error->0@ })
    } else if probe.size == 0 {
        Some(PacketView::ERR { code: 0, message: empty_file_text(owner) })
    } else {
        None
    }
}

/// Whether a transfer may receive into the path that was probed, and if
/// not, the error packet that says why.
pub open spec fn target_refusal(
    file_name: Seq<char>,
    probe: FileProbe,
    owner: DataChannelOwner,
) -> Option<PacketView> {
    if probe.exists && owner == DataChannelOwner::Server {
        Some(
            PacketView::ERR {
                code: error_code(TFTPError::FileExists),
                message: canonical_text(TFTPError::FileExists),
            },
        )
    } else if !probe.has_file_name || probe.is_dir {
        Some(PacketView::ERR { code: 0, message: "Can't write a directory"@ })
    } else if has_parent_segment(file_name) {
        Some(PacketView::ERR { code: 0, message: "Only absolute paths are allowed."@ })
    } else if probe.is_absolute {
        Some(PacketView::ERR { code: 0, message: "File path must not start with root."@ })
    } else {
        None
    }
}

/// Whether a transfer may start, and if not, the error packet that says why.
pub open spec fn refusal(
    file_name: Seq<char>,
    mode: DataChannelMode,
    owner: DataChannelOwner,
    probe: FileProbe,
) -> Option<PacketView> {
    match mode {
        DataChannelMode::Tx => source_refusal(probe, owner),
        DataChannelMode::Rx => target_refusal(file_name, probe, owner),
    }
}

/// What a channel holds.
pub struct ChannelView {
    pub state: DataChannelState,
    /// The block that is awaited, or that was sent last.
    pub blk: u16,
    /// The payload bytes received or sent so far.
    pub transferred: nat,
    /// The length of the file to send; 0 on the receiving side.
    pub file_size: nat,
    /// The bytes of the datagram to send next.
    pub packet: Option<Seq<u8>>,
    /// What went wrong, once the state is `Error`.
    pub error: Option<Seq<char>>,
    pub file_name: Seq<char>,
}

impl ChannelView {
    /// The channel of a transfer that was not refused. A server that
    /// receives starts by acknowledging block 0, after which it awaits
    /// block 1. A server that sends starts with block 1, for which it asks
    /// its owner.
    pub open spec fn opened(
        file_name: Seq<char>,
        mode: DataChannelMode,
        owner: DataChannelOwner,
        probe: FileProbe,
    ) -> ChannelView {
        let fresh = ChannelView {
            state: initial_state(mode, owner).1,
            blk: initial_state(mode, owner).0,
            transferred: 0,
            file_size: if mode == DataChannelMode::Tx {
                probe.size as nat
            } else {
                0
            },
            packet: None,
            error: None,
            file_name,
        };
        if fresh.state == DataChannelState::SendAck {
            fresh.ack_sent()
        } else if fresh.state == DataChannelState::SendData {
            ChannelView { blk: next_blk(fresh.blk), ..fresh }
        } else {
            fresh
        }
    }

    /// Whether the channel holds a message of what went wrong exactly when
    /// it is in `Error`, and then also the error packet to send.
    pub open spec fn coherent(self) -> bool {
        &&& (self.state == DataChannelState::Error) == (self.error is Some)
        &&& self.state == DataChannelState::Error ==> self.packet == Some(
            illegal_operation_wire(),
        )
    }

    /// After a block number `actual` that was not the one awaited: the
    /// channel is in `Error`, holds an error packet of the kind illegal
    /// operation to send, and a message of its own.
    pub open spec fn refused(self, actual: u16) -> ChannelView {
        ChannelView {
            state: DataChannelState::Error,
            packet: Some(illegal_operation_wire()),
            error: Some(block_error_text(actual, self.blk)),
            ..self
        }
    }

    /// After the payload of the awaited block was taken: a full block asks
    /// for an acknowledgement, a shorter one for the last acknowledgement.
    pub open spec fn data_taken(self, data: Seq<u8>) -> ChannelView {
        ChannelView {
            state: if data.len() == STRIDE_SIZE {
                DataChannelState::SendAck
            } else {
                DataChannelState::SendLastAck
            },
            transferred: self.transferred + data.len(),
            ..self
        }
    }

    /// After the acknowledgement of the current block was made ready: the
    /// next block is awaited, unless the acknowledgement is the last.
    pub open spec fn ack_sent(self) -> ChannelView {
        ChannelView {
            state: if self.state == DataChannelState::SendAck {
                DataChannelState::WaitData
            } else {
                self.state
            },
            blk: next_blk(self.blk),
            packet: Some(ack_wire(self.blk)),
            ..self
        }
    }

    /// After a data packet arrived while data was awaited.
    pub open spec fn on_data(self, blk: u16, data: Seq<u8>) -> ChannelView {
        if blk != self.blk {
            self.refused(blk)
        } else {
            self.data_taken(data).ack_sent()
        }
    }

    /// After an acknowledgement arrived while one was awaited.
    pub open spec fn on_ack(self, blk: u16) -> ChannelView {
        if blk != self.blk {
            self.refused(blk)
        } else {
            ChannelView {
                state: if self.state == DataChannelState::WaitAck {
                    DataChannelState::SendData
                } else {
                    DataChannelState::Done
                },
                blk: next_blk(self.blk),
                ..self
            }
        }
    }

    /// Whether all of the file has gone out already.
    pub open spec fn exhausted(self) -> bool {
        self.transferred >= self.file_size
    }

    /// After the owner read `chunk` from the file for the next block. With
    /// the file exhausted, a file of a whole number of blocks still gets one
    /// closing block, and any other file is done. Otherwise a short chunk
    /// is the last block and a full one is not.
    pub open spec fn send_data(self, chunk: Seq<u8>) -> ChannelView {
        if self.exhausted() && self.file_size % (STRIDE_SIZE as nat) != 0 {
            ChannelView { state: DataChannelState::Done, ..self }
        } else {
            ChannelView {
                state: if self.exhausted() || chunk.len() < STRIDE_SIZE {
                    DataChannelState::WaitLastAck
                } else {
                    DataChannelState::WaitAck
                },
                transferred: self.transferred + chunk.len(),
                packet: Some(data_wire(self.blk, chunk)),
                ..self
            }
        }
    }

    /// After the owner took the packet to send: handing out the last
    /// acknowledgement ends the transfer.
    pub open spec fn packet_taken(self) -> ChannelView {
        if self.state == DataChannelState::SendLastAck {
            ChannelView { state: DataChannelState::Done, ..self }
        } else {
            self
        }
    }
}

/// The state of one transfer.
pub struct DataChannel {
    file_name: String,
    file_size: u64,
    transferred_bytes: usize,
    blk: u16,
    error: Option<String>,
    state: DataChannelState,
    packet_at_hand: Option<Vec<u8>>,
}

impl View for DataChannel {
    type V = ChannelView;

    closed spec fn view(&self) -> ChannelView {
        ChannelView {
            state: self.state,
            blk: self.blk,
            transferred: self.transferred_bytes as nat,
            file_size: self.file_size as nat,
            packet: match self.packet_at_hand {
                Some(p) => Some(p@),
                None => None,
            },
            error: match self.error {
                Some(e) => Some(e@),
                None => None,
            },
            file_name: self.file_name@,
        }
    }
}

/// Tells whether a segment of the path `name` names the parent directory.
pub fn contains_parent_segment(name: &str) -> (found: bool)
    ensures
        found == has_parent_segment(name@),
{
    let n = name.unicode_len();
    if n < 2 {
        return false;
    }
    let mut i: usize = 0;
    while i < n - 1
        invariant
            n == name@.len(),
            n >= 2,
            forall|j: int|
                0 <= j < i ==> !(name@[j] == '.' && #[trigger] name@[j + 1] == '.' && (j == 0
                    || name@[j - 1] == '/') && (j + 2 == n || name@[j + 2] == '/')),
        decreases n - i,
    {
        if name.get_char(i) == '.' && name.get_char(i + 1) == '.' && (i == 0 || name.get_char(
            i - 1,
        ) == '/') && (i + 2 == n || name.get_char(i + 2) == '/') {
            return true;
        }
        i = i + 1;
    }
    false
}

/// Puts a transfer into `Error` with the message of what went wrong.
fn fail(state: &mut DataChannelState, error: &mut Option<String>, text: String)
    ensures
        *final(state) == DataChannelState::Error,
        *final(error) == Some(text),
    no_unwind
{
    *state = DataChannelState::Error;
    *error = Some(text);
}

impl DataChannel {
    /// What holds of every channel: it is in `Error` exactly when it holds
    /// a message of what went wrong, and then it holds the error packet to
    /// send as well.
    #[verifier::type_invariant]
    closed spec fn is_coherent(&self) -> bool {
        self@.coherent()
    }

    /// Makes the channel of a transfer of the file `file_name`, or the error
    /// packet that refuses the transfer.
    ///
    /// * `file_name` - the file to read data from or write data to.
    /// * `mode` - whether this channel sends or receives the file.
    /// * `owner` - which end of the transfer this is.
    /// * `probe` - what the owner found at the path.
    ///
    /// A channel that starts in `SendData` waits for its owner to hand the
    /// first block to `send_data`.
    pub fn new(
        file_name: &str,
        mode: DataChannelMode,
        owner: DataChannelOwner,
        probe: &FileProbe,
    ) -> (r: Result<DataChannel, ErrorPacket>)
        ensures
            match r {
                Ok(channel) => refusal(file_name@, mode, owner, *probe) is None && channel@
                    == ChannelView::opened(file_name@, mode, owner, *probe)
                    && channel@.coherent(),
                Err(packet) => refusal(file_name@, mode, owner, *probe) == Some(packet@),
            },
    {
        let (initial_blk, initial_state) = DataChannel::compute_initial_state(mode, owner);
        let size = if mode == DataChannelMode::Tx {
            match DataChannel::open_file_for_transmission(probe, owner) {
                Ok(size) => size,
                Err(packet) => {
                    return Err(packet);
                },
            }
        } else {
            match DataChannel::validate_file_for_reception(file_name, probe, owner) {
                Ok(()) => 0,
                Err(packet) => {
                    return Err(packet);
                },
            }
        };
        let mut channel = DataChannel {
            file_name: String::from_str(file_name),
            file_size: size,
            transferred_bytes: 0,
            blk: initial_blk,
            error: None,
            state: initial_state,
            packet_at_hand: None,
        };
        if channel.state == DataChannelState::SendAck {
            channel.send_ack();
        } else if channel.state == DataChannelState::SendData {
            channel.blk = channel.blk + 1;
        }
        Ok(channel)
    }

    /// The block number and the state that a transfer starts with.
    pub fn compute_initial_state(mode: DataChannelMode, owner: DataChannelOwner) -> (r: (
        u16,
        DataChannelState,
    ))
        ensures
            r == initial_state(mode, owner),
    {
        match mode {
            DataChannelMode::Tx => {
                if owner == DataChannelOwner::Client {
                    // An uploading client will be waiting for ACK #0
                    (0, DataChannelState::WaitAck)
                } else {
                    // A server sending data will start with DATA #1,
                    // the block after this one.
                    (0, DataChannelState::SendData)
                }
            },
            DataChannelMode::Rx => {
                if owner == DataChannelOwner::Client {
                    // A downloading client will wait for DATA 1
                    (1, DataChannelState::WaitData)
                } else {
                    // A server receiving data will be sending ACK 0.
                    (0, DataChannelState::SendAck)
                }
            },
        }
    }

    /// Decides whether the file that was probed can be sent, and gives its
    /// length if it can.
    pub fn open_file_for_transmission(probe: &FileProbe, owner: DataChannelOwner) -> (r: Result<
        u64,
        ErrorPacket,
    >)
        ensures
            match r {
                Ok(size) => source_refusal(*probe, owner) is None && size == probe.size,
                Err(packet) => source_refusal(*probe, owner) == Some(packet@),
            },
    {
        if !probe.exists {
            return Err(ErrorPacket::new(TFTPError::FileNotFound));
        }
        match &probe.open_error {
            Some(text) => {
                return Err(ErrorPacket::new_custom(text.clone()));
            },
            None => {},
        }
        if probe.size == 0 {
            let msg = if owner == DataChannelOwner::Server {
                String::from_str("Requested file is empty.")
            } else {
                String::from_str("Transmitted file is empty.")
            };
            return Err(ErrorPacket::new_custom(msg));
        }
        Ok(probe.size)
    }

    /// Decides whether the path that was probed can take the file.
    pub fn validate_file_for_reception(
        file_name: &str,
        probe: &FileProbe,
        owner: DataChannelOwner,
    ) -> (r: Result<(), ErrorPacket>)
        ensures
            match r {
                Ok(_) => target_refusal(file_name@, *probe, owner) is None,
                Err(packet) => target_refusal(file_name@, *probe, owner) == Some(packet@),
            },
    {
        if probe.exists && owner == DataChannelOwner::Server {
            return Err(ErrorPacket::new(TFTPError::FileExists));
        }
        if !probe.has_file_name || probe.is_dir {
            return Err(ErrorPacket::new_custom(String::from_str("Can't write a directory")));
        }
        // Client isn't allowed to traverse the TFTP directory upwards
        // in any case.
        if contains_parent_segment(file_name) {
            return Err(
                ErrorPacket::new_custom(String::from_str("Only absolute paths are allowed.")),
            );
        }
        // Client needn't know anything about the server's host.
        if probe.is_absolute {
            return Err(
                ErrorPacket::new_custom(String::from_str("File path must not start with root.")),
            );
        }
        Ok(())
    }

    /// Receives a data packet and checks its block number. If the number is
    /// not the one awaited, an error packet is buffered and nothing is to
    /// be stored; otherwise an acknowledgement is buffered and the payload
    /// is handed back to be stored.
    ///
    /// * `dp` - Data packet received from the other end.
    pub fn on_data(&mut self, dp: DataPacket) -> (order: Option<StoreOrder>)
        requires
            old(self)@.state == DataChannelState::WaitData,
            dp@.blk() == old(self)@.blk ==> old(self)@.transferred + dp@.payload().len()
                <= usize::MAX,
        ensures
            final(self)@ == old(self)@.on_data(dp@.blk(), dp@.payload()),
            final(self)@.coherent(),
            dp@.blk() != old(self)@.blk ==> {
                &&& order is None
                &&& final(self)@.state == DataChannelState::Error
                &&& final(self)@.packet == Some(illegal_operation_wire())
                &&& final(self)@.error == Some(block_error_text(dp@.blk(), old(self)@.blk))
                &&& final(self)@.blk == old(self)@.blk
                &&& final(self)@.transferred == old(self)@.transferred
            },
            dp@.blk() == old(self)@.blk ==> {
                &&& order is Some
                &&& order->0.data@ == dp@.payload()
                &&& order->0.create == (dp@.blk() == 1)
                &&& final(self)@.state == if dp@.payload().len() == STRIDE_SIZE {
                    DataChannelState::WaitData
                } else {
                    DataChannelState::SendLastAck
                }
                &&& final(self)@.packet == Some(ack_wire(dp@.blk()))
                &&& final(self)@.error is None
                &&& final(self)@.blk == next_blk(dp@.blk())
                &&& final(self)@.transferred == old(self)@.transferred + dp@.payload().len()
            },
    {
        proof {
            use_type_invariant(&*self);
        }
        // The received blk
        // is the awaited blk number.
        if self.blk != dp.blk() {
            self.set_blk_error(dp.blk());
            return None;
        }
        // To avoid making empty files needlessly.
        let create = dp.blk() == 1;
        let data = dp.data();
        self.transferred_bytes = self.transferred_bytes + data.len();
        if data.len() == STRIDE_SIZE {
            self.state = DataChannelState::SendAck;
        } else {
            self.state = DataChannelState::SendLastAck;
        }
        self.send_ack();
        Some(StoreOrder { create, data })
    }

    fn send_ack(&mut self)
        requires
            old(self)@.state == DataChannelState::SendAck || old(self)@.state
                == DataChannelState::SendLastAck,
        ensures
            final(self)@ == old(self)@.ack_sent(),
    {
        proof {
            use_type_invariant(&*self);
        }
        self.packet_at_hand = Some(AckPacket::new(self.blk).serialize());
        self.blk = if self.blk == u16::MAX {
            0
        } else {
            self.blk + 1
        };
        if self.state == DataChannelState::SendAck {
            self.state = DataChannelState::WaitData;
        }
    }

    /// Tells whether the channel waits for its owner to read the next block
    /// of the file and hand it to `send_data`.
    pub fn needs_data(&self) -> (b: bool)
        ensures
            b == (self@.state == DataChannelState::SendData),
    {
        self.state == DataChannelState::SendData
    }

    /// Takes the next block of the file, as many bytes as its owner could
    /// read up to the length of a block, and buffers the data packet that
    /// carries it, unless the transfer is over.
    pub fn send_data(&mut self, chunk: &[u8])
        requires
            old(self)@.state == DataChannelState::SendData,
            chunk@.len() <= STRIDE_SIZE,
            old(self)@.transferred + chunk@.len() <= usize::MAX,
        ensures
            final(self)@ == old(self)@.send_data(chunk@),
            final(self)@.coherent(),
    {
        proof {
            use_type_invariant(&*self);
        }
        let bytes_read = chunk.len();
        // When nothing is left to read, the other end
        // just sent the ack for the last chunk in the file.
        if self.transferred_bytes as u64 >= self.file_size {
            if self.file_size % (STRIDE_SIZE as u64) == 0 {
                // Send 0-length Data packet
                self.state = DataChannelState::WaitLastAck;
            } else {
                self.state = DataChannelState::Done;
                return;  // Don't prepare any data packets, we're done.
            }
        } else if bytes_read < STRIDE_SIZE {
            self.state = DataChannelState::WaitLastAck;
        } else {
            self.state = DataChannelState::WaitAck;
        }
        // Update transfer size when sending the
        // packet to avoid having off by 1 error
        // when checking termination conditions.
        self.transferred_bytes = self.transferred_bytes + bytes_read;
        // Send the next data packet.
        let data = slice_to_vec(chunk);
        self.packet_at_hand = Some(DataPacket::new(self.blk, data).serialize());
    }

    /// Receives an acknowledgement and checks its block number. After the
    /// acknowledgement of a block that was not the last, the channel waits
    /// for the next block of the file; after that of the last, it is done.
    pub fn on_ack(&mut self, ap: AckPacket)
        requires
            old(self)@.state == DataChannelState::WaitAck || old(self)@.state
                == DataChannelState::WaitLastAck,
        ensures
            final(self)@ == old(self)@.on_ack(ap@.blk()),
            final(self)@.coherent(),
    {
        proof {
            use_type_invariant(&*self);
        }
        if self.blk != ap.blk() {
            self.set_blk_error(ap.blk());
            return;
        }
        self.blk = if self.blk == u16::MAX {
            0
        } else {
            self.blk + 1
        };
        if self.state == DataChannelState::WaitAck {
            self.state = DataChannelState::SendData;
        } else {
            self.state = DataChannelState::Done;
        }
    }

    fn set_blk_error(&mut self, actual: u16)
        ensures
            final(self)@ == old(self)@.refused(actual),
    {
        let mut err = String::from_str("Invalid block number [");
        push_decimal(&mut err, actual);
        err.append("] expected [");
        push_decimal(&mut err, self.blk);
        err.append("]");
        proof {
            use_type_invariant(&*self);
        }
        self.packet_at_hand = Some(ErrorPacket::new(TFTPError::IllegalOperation).serialize());
        fail(&mut self.state, &mut self.error, err);
    }

    pub fn transfer_size(&self) -> (n: usize)
        ensures
            n == self@.transferred,
    {
        self.transferred_bytes
    }

    pub fn is_done(&self) -> (b: bool)
        ensures
            b == (self@.state == DataChannelState::Done),
    {
        self.state == DataChannelState::Done
    }

    /// The state of the transfer.
    pub fn state(&self) -> (state: DataChannelState)
        ensures
            state == self@.state,
    {
        self.state
    }

    pub fn blk(&self) -> (blk: u16)
        ensures
            blk == self@.blk,
    {
        self.blk
    }

    pub fn is_err(&self) -> (b: bool)
        ensures
            b == (self@.error is Some),
            b == (self@.state == DataChannelState::Error),
    {
        proof {
            use_type_invariant(self);
        }
        self.error.is_some()
    }

    /// The name of the file that is transferred.
    pub fn file_name(&self) -> (name: &str)
        ensures
            name@ == self@.file_name,
    {
        self.file_name.as_str()
    }

    /// Tells whether there are bytes of a datagram to send.
    pub fn has_packet(&self) -> (b: bool)
        ensures
            b == (self@.packet is Some),
    {
        self.packet_at_hand.is_some()
    }

    /// A copy of the message of what went wrong, if anything did.
    pub fn error_text(&self) -> (text: Option<String>)
        ensures
            match text {
                Some(t) => self@.error == Some(t@),
                None => self@.error is None,
            },
    {
        match &self.error {
            Some(e) => Some(e.clone()),
            None => None,
        }
    }

    pub fn err(self) -> (text: String)
        requires
            self@.error is Some,
        ensures
            Some(text@) == self@.error,
    {
        self.error.unwrap()
    }

    /// The bytes of the datagram to send next, if there are any. Handing out
    /// the last acknowledgement ends the transfer; in every other state the
    /// channel stays as it is.
    pub fn packet_at_hand(&mut self) -> (packet: Option<Vec<u8>>)
        requires
            old(self)@.state != DataChannelState::Done,
        ensures
            final(self)@ == old(self)@.packet_taken(),
            final(self)@.coherent(),
            old(self)@.state == DataChannelState::SendLastAck ==> final(self)@.state
                == DataChannelState::Done,
            old(self)@.state != DataChannelState::SendLastAck ==> final(self)@ == old(self)@,
            match packet {
                Some(bytes) => old(self)@.packet == Some(bytes@),
                None => old(self)@.packet is None,
            },
    {
        proof {
            use_type_invariant(&*self);
        }
        // If the previous state was SendLastAck,
        // now we're done.
        if self.state == DataChannelState::SendLastAck {
            self.state = DataChannelState::Done;
        }
        match &self.packet_at_hand {
            None => None,
            Some(p) => Some(slice_to_vec(p.as_slice())),
        }
    }
}

} // verus!
