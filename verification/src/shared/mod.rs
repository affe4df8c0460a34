//! What client and server share: the packet codec and the transfer engine.

use crate::shared::ack_packet::AckPacket;
use crate::shared::data_packet::DataPacket;
use crate::shared::err_packet::ErrorPacket;
use crate::shared::request_packet::{ReadRequestPacket, Request, WriteRequestPacket};
use crate::shared::wire::{
    be16, decimal, field_end, field_start, nul_ended, push_decimal, read_u16, u16_wire,
};
use vstd::prelude::*;
use vstd::string::*;
use vstd::utf8::*;

pub mod ack_packet;
pub mod data_channel;
pub mod data_packet;
pub mod err_packet;
pub mod request_packet;
pub mod round_trip;
pub mod session;
pub mod transfer;
pub mod wire;

verus! {

/// Length of the opcode field in bytes.
pub const OP_LEN: usize = 2;

/// Stride size for reading and writing files: the length of a full block.
pub const STRIDE_SIZE: usize = 512;

/// Op code for Read Request
pub const OP_RRQ: u16 = 1;

/// Op code for Write Request
pub const OP_WRQ: u16 = 2;

/// Op code for Data packet
pub const OP_DATA: u16 = 3;

/// Op code for ACK packet
pub const OP_ACK: u16 = 4;

/// Op code for Error packet
pub const OP_ERR: u16 = 5;

/// What a packet says, apart from how it is stored.
pub enum PacketView {
    RRQ { filename: Seq<char>, mode: Seq<char> },
    WRQ { filename: Seq<char>, mode: Seq<char> },
    ACK { blk: u16 },
    ERR { code: u16, message: Seq<char> },
    DATA { blk: u16, data: Seq<u8> },
}

/// The bytes of a request: opcode, file name, NUL, mode, NUL.
pub open spec fn request_wire(op: u16, filename: Seq<char>, mode: Seq<char>) -> Seq<u8> {
    u16_wire(op) + encode_utf8(filename) + seq![0u8] + encode_utf8(mode) + seq![0u8]
}

/// The bytes of an acknowledgement: opcode, block number.
pub open spec fn ack_wire(blk: u16) -> Seq<u8> {
    u16_wire(OP_ACK) + u16_wire(blk)
}

/// The bytes of a data packet: opcode, block number, payload.
pub open spec fn data_wire(blk: u16, data: Seq<u8>) -> Seq<u8> {
    u16_wire(OP_DATA) + u16_wire(blk) + data
}

/// The bytes of an error packet: opcode, error code, message, and a NUL
/// unless the message already ends with one.
pub open spec fn error_wire(code: u16, message: Seq<char>) -> Seq<u8> {
    u16_wire(OP_ERR) + u16_wire(code) + encode_utf8(message) + (if nul_ended(message) {
        Seq::<u8>::empty()
    } else {
        seq![0u8]
    })
}

impl PacketView {
    /// The block number of an acknowledgement or a data packet.
    pub open spec fn blk(self) -> u16 {
        match self {
            PacketView::ACK { blk } => blk,
            PacketView::DATA { blk, .. } => blk,
            _ => 0,
        }
    }

    /// The payload of a data packet.
    pub open spec fn payload(self) -> Seq<u8> {
        match self {
            PacketView::DATA { data, .. } => data,
            _ => Seq::empty(),
        }
    }

    /// The code of an error packet.
    pub open spec fn code(self) -> u16 {
        match self {
            PacketView::ERR { code, .. } => code,
            _ => 0,
        }
    }

    /// The message of an error packet.
    pub open spec fn message(self) -> Seq<char> {
        match self {
            PacketView::ERR { message, .. } => message,
            _ => Seq::empty(),
        }
    }

    /// The file name of a request.
    pub open spec fn filename(self) -> Seq<char> {
        match self {
            PacketView::RRQ { filename, .. } => filename,
            PacketView::WRQ { filename, .. } => filename,
            _ => Seq::empty(),
        }
    }

    /// The mode of a request.
    pub open spec fn mode(self) -> Seq<char> {
        match self {
            PacketView::RRQ { mode, .. } => mode,
            PacketView::WRQ { mode, .. } => mode,
            _ => Seq::empty(),
        }
    }

    /// The datagram payload that carries this packet.
    pub open spec fn wire(self) -> Seq<u8> {
        match self {
            PacketView::RRQ { filename, mode } => request_wire(OP_RRQ, filename, mode),
            PacketView::WRQ { filename, mode } => request_wire(OP_WRQ, filename, mode),
            PacketView::ACK { blk } => ack_wire(blk),
            PacketView::ERR { code, message } => error_wire(code, message),
            PacketView::DATA { blk, data } => data_wire(blk, data),
        }
    }
}

/// Details of a buffer too short to hold the fields of its packet kind.
pub open spec fn truncated_text() -> Seq<char> {
    "Truncated packet"@
}

/// Details of a request whose opcode is neither read nor write, and of a
/// data packet whose opcode is not that of data.
pub open spec fn bad_op_text() -> Seq<char> {
    "Bad OP code!"@
}

/// Details of an acknowledgement or error packet under the opcode `op`.
pub open spec fn bad_op_text_of(op: u16) -> Seq<char> {
    "Bad OP code! ["@ + decimal(op as nat) + "]"@
}

/// Details of a datagram under an opcode that no packet kind has.
pub open spec fn invalid_op_text_of(op: u16) -> Seq<char> {
    "Invalid opcode ["@ + decimal(op as nat) + "]"@
}

/// Details of a request with fewer than two text fields.
pub open spec fn missing_field_text() -> Seq<char> {
    "Missing file name or mode"@
}

/// Details of a text field that is not UTF-8.
pub open spec fn bad_text_text() -> Seq<char> {
    "Invalid text"@
}

/// Details of a data packet with more than a block of payload.
pub open spec fn bad_length_text() -> Seq<char> {
    "Invalid data length"@
}

/// What decoding `s` as a request gives: the packet, or the details of the
/// failure. The bytes after the opcode are split at NUL bytes; the first two
/// pieces that are not empty are the file name and the mode.
pub open spec fn parse_request(s: Seq<u8>) -> Result<PacketView, Seq<char>> {
    if s.len() < 2 {
        Err(truncated_text())
    } else if be16(s[0], s[1]) != OP_RRQ && be16(s[0], s[1]) != OP_WRQ {
        Err(bad_op_text())
    } else {
        let a = field_start(s, 2);
        let b = field_end(s, a);
        let c = field_start(s, b);
        let d = field_end(s, c);
        if a == b || c == d {
            Err(missing_field_text())
        } else if !valid_utf8(s.subrange(a, b)) || !valid_utf8(s.subrange(c, d)) {
            Err(bad_text_text())
        } else if be16(s[0], s[1]) == OP_RRQ {
            Ok(
                PacketView::RRQ {
                    filename: decode_utf8(s.subrange(a, b)),
                    mode: decode_utf8(s.subrange(c, d)),
                },
            )
        } else {
            Ok(
                PacketView::WRQ {
                    filename: decode_utf8(s.subrange(a, b)),
                    mode: decode_utf8(s.subrange(c, d)),
                },
            )
        }
    }
}

/// What decoding `s` as a read request gives: as a request, but a write
/// request is refused.
pub open spec fn parse_read_request(s: Seq<u8>) -> Result<PacketView, Seq<char>> {
    if s.len() >= 2 && be16(s[0], s[1]) != OP_RRQ {
        Err(bad_op_text())
    } else {
        parse_request(s)
    }
}

/// What decoding `s` as a write request gives: as a request, but a read
/// request is refused.
pub open spec fn parse_write_request(s: Seq<u8>) -> Result<PacketView, Seq<char>> {
    if s.len() >= 2 && be16(s[0], s[1]) != OP_WRQ {
        Err(bad_op_text())
    } else {
        parse_request(s)
    }
}

/// What decoding `s` as an acknowledgement gives. Bytes after the block
/// number are ignored.
pub open spec fn parse_ack(s: Seq<u8>) -> Result<PacketView, Seq<char>> {
    if s.len() < 2 {
        Err(truncated_text())
    } else if be16(s[0], s[1]) != OP_ACK {
        Err(bad_op_text_of(be16(s[0], s[1])))
    } else if s.len() < 4 {
        Err(truncated_text())
    } else {
        Ok(PacketView::ACK { blk: be16(s[2], s[3]) })
    }
}

/// What decoding `s` as a data packet gives.
pub open spec fn parse_data(s: Seq<u8>) -> Result<PacketView, Seq<char>> {
    if s.len() < 2 {
        Err(truncated_text())
    } else if be16(s[0], s[1]) != OP_DATA {
        Err(bad_op_text())
    } else if s.len() < 4 {
        Err(truncated_text())
    } else if s.len() - 4 > STRIDE_SIZE {
        Err(bad_length_text())
    } else {
        Ok(PacketView::DATA { blk: be16(s[2], s[3]), data: s.skip(4) })
    }
}

/// What decoding `s` as an error packet gives. The message is all that
/// follows the error code, its closing NUL included.
pub open spec fn parse_error(s: Seq<u8>) -> Result<PacketView, Seq<char>> {
    if s.len() < 2 {
        Err(truncated_text())
    } else if be16(s[0], s[1]) != OP_ERR {
        Err(bad_op_text_of(be16(s[0], s[1])))
    } else if s.len() < 4 {
        Err(truncated_text())
    } else if !valid_utf8(s.skip(4)) {
        Err(bad_text_text())
    } else {
        Ok(PacketView::ERR { code: be16(s[2], s[3]), message: decode_utf8(s.skip(4)) })
    }
}

/// What decoding a datagram gives: the opcode picks the packet kind.
pub open spec fn parse_packet(s: Seq<u8>) -> Result<PacketView, Seq<char>> {
    if s.len() < 2 {
        Err(truncated_text())
    } else {
        let op = be16(s[0], s[1]);
        if op == OP_RRQ {
            parse_read_request(s)
        } else if op == OP_WRQ {
            parse_write_request(s)
        } else if op == OP_ACK {
            parse_ack(s)
        } else if op == OP_ERR {
            parse_error(s)
        } else if op == OP_DATA {
            parse_data(s)
        } else {
            Err(invalid_op_text_of(op))
        }
    }
}

/// A packet of any of the five kinds.
#[derive(Debug, PartialEq, Eq)]
pub enum TFTPPacket {
    RRQ(ReadRequestPacket),
    WRQ(WriteRequestPacket),
    ACK(AckPacket),
    ERR(ErrorPacket),
    DATA(DataPacket),
}

impl View for TFTPPacket {
    type V = PacketView;

    open spec fn view(&self) -> PacketView {
        match self {
            TFTPPacket::RRQ(p) => p@,
            TFTPPacket::WRQ(p) => p@,
            TFTPPacket::ACK(p) => p@,
            TFTPPacket::ERR(p) => p@,
            TFTPPacket::DATA(p) => p@,
        }
    }
}

/// A packet in words, for a log.
pub open spec fn packet_text(p: PacketView) -> Seq<char> {
    match p {
        PacketView::RRQ { filename, mode } => "RRQ ["@ + filename + "] ["@ + mode + "]"@,
        PacketView::WRQ { filename, mode } => "WRQ ["@ + filename + "] ["@ + mode + "]"@,
        PacketView::ACK { blk } => "ACK ["@ + decimal(blk as nat) + "]"@,
        PacketView::ERR { code, message } => "ERR ["@ + decimal(code as nat) + "]: "@ + message,
        PacketView::DATA { blk, .. } => "DATA ["@ + decimal(blk as nat) + "]"@,
    }
}

impl TFTPPacket {
    /// The packet in words: its kind and, in brackets, what it names or
    /// counts.
    pub fn to_text(&self) -> (text: String)
        ensures
            text@ == packet_text(self@),
    {
        match self {
            TFTPPacket::RRQ(p) => {
                let mut text = String::from_str("RRQ [");
                text.append(p.filename());
                text.append("] [");
                text.append(p.mode());
                text.append("]");
                text
            },
            TFTPPacket::WRQ(p) => {
                let mut text = String::from_str("WRQ [");
                text.append(p.filename());
                text.append("] [");
                text.append(p.mode());
                text.append("]");
                text
            },
            TFTPPacket::ACK(p) => {
                let mut text = String::from_str("ACK [");
                push_decimal(&mut text, p.blk());
                text.append("]");
                text
            },
            TFTPPacket::ERR(p) => {
                let mut text = String::from_str("ERR [");
                push_decimal(&mut text, p.code());
                text.append("]: ");
                text.append(p.err());
                text
            },
            TFTPPacket::DATA(p) => {
                let mut text = String::from_str("DATA [");
                push_decimal(&mut text, p.blk());
                text.append("]");
                text
            },
        }
    }
}

/// Why a buffer could not be decoded.
#[derive(Debug, PartialEq, Eq)]
pub struct TFTPParseError {
    details: String,
}

impl View for TFTPParseError {
    type V = Seq<char>;

    closed spec fn view(&self) -> Seq<char> {
        self.details@
    }
}

impl TFTPParseError {
    pub fn new(msg: &str) -> (e: TFTPParseError)
        ensures
            e@ == msg@,
    {
        TFTPParseError { details: String::from_str(msg) }
    }

    /// The error for an opcode `op` where another was due.
    pub fn bad_op(op: u16) -> (e: TFTPParseError)
        ensures
            e@ == bad_op_text_of(op),
    {
        let mut details = String::from_str("Bad OP code! [");
        push_decimal(&mut details, op);
        details.append("]");
        TFTPParseError { details }
    }

    /// The error for an opcode `op` that no packet kind has.
    pub fn invalid_op(op: u16) -> (e: TFTPParseError)
        ensures
            e@ == invalid_op_text_of(op),
    {
        let mut details = String::from_str("Invalid opcode [");
        push_decimal(&mut details, op);
        details.append("]");
        TFTPParseError { details }
    }

    /// What went wrong.
    pub fn details(&self) -> (text: &str)
        ensures
            text@ == self@,
    {
        self.details.as_str()
    }

    /// The details behind the words "Failed to parse packet: ".
    pub fn message(&self) -> (text: String)
        ensures
            text@ == "Failed to parse packet: "@ + self@,
    {
        let mut text = String::from_str("Failed to parse packet: ");
        text.append(self.details.as_str());
        text
    }
}

/// What a decoder returned, as values of the model.
pub open spec fn decoded(r: Result<TFTPPacket, TFTPParseError>) -> Result<PacketView, Seq<char>> {
    match r {
        Ok(p) => Ok(p@),
        Err(e) => Err(e@),
    }
}

/// A packet that can be turned into the bytes of a datagram.
pub trait Serializable: Sized {
    /// The bytes that carry the packet.
    spec fn wire(&self) -> Seq<u8>;

    fn serialize(self) -> (bytes: Vec<u8>)
        ensures
            bytes@ == self.wire(),
    ;
}

/// A packet kind that can be read from the bytes of a datagram.
pub trait Deserializable {
    /// What decoding `buf` as this kind gives: the packet, or the details of
    /// the failure.
    spec fn parse(buf: Seq<u8>) -> Result<PacketView, Seq<char>>;

    fn deserialize(buf: &[u8]) -> (r: Result<TFTPPacket, TFTPParseError>)
        ensures
            decoded(r) == Self::parse(buf@),
    ;
}

/// Decodes a datagram: reads the opcode and hands the buffer to the decoder
/// of that packet kind.
pub fn parse_udp_packet(buf: &[u8]) -> (r: Result<TFTPPacket, TFTPParseError>)
    ensures
        decoded(r) == parse_packet(buf@),
{
    if buf.len() < 2 {
        return Err(TFTPParseError::new("Truncated packet"));
    }
    let op = read_u16(buf);
    if op == OP_RRQ {
        ReadRequestPacket::deserialize(buf)
    } else if op == OP_WRQ {
        WriteRequestPacket::deserialize(buf)
    } else if op == OP_ACK {
        AckPacket::deserialize(buf)
    } else if op == OP_ERR {
        ErrorPacket::deserialize(buf)
    } else if op == OP_DATA {
        DataPacket::deserialize(buf)
    } else {
        Err(TFTPParseError::invalid_op(op))
    }
}

} // verus!
