//! Read and write requests open a transfer; the opcodes are 1 and 2.
//!
//! A request names a file and a transfer mode, each as text closed by a zero
//! byte.

use crate::shared::wire::{read_u16, skip_nuls, skip_text, str_from_utf8, write_u16, write_u8};
use crate::shared::{
    parse_read_request, parse_request, parse_write_request, request_wire, Deserializable,
    PacketView, Serializable, TFTPPacket, TFTPParseError, OP_RRQ, OP_WRQ,
};
use vstd::prelude::*;
use vstd::slice::slice_subrange;
use vstd::string::*;
use vstd::utf8::*;

verus! {

/// What read and write requests have in common.
pub trait Request: Serializable + Deserializable {
    /// The opcode of this kind of request.
    spec fn spec_op(&self) -> u16;

    /// The name of the file asked for.
    spec fn spec_filename(&self) -> Seq<char>;

    /// The transfer mode asked for.
    spec fn spec_mode(&self) -> Seq<char>;

    fn op(&self) -> (op: u16)
        ensures
            op == self.spec_op(),
    ;

    fn filename(&self) -> (name: &str)
        ensures
            name@ == self.spec_filename(),
    ;

    fn mode(&self) -> (mode: &str)
        ensures
            mode@ == self.spec_mode(),
    ;
}

/// A request under any opcode: the fields as they go on the wire.
#[derive(Debug, PartialEq, Eq)]
pub struct RequestPacket {
    op: u16,
    filename: String,
    mode: String,
}

impl RequestPacket {
    pub closed spec fn spec_op(&self) -> u16 {
        self.op
    }

    pub closed spec fn spec_filename(&self) -> Seq<char> {
        self.filename@
    }

    pub closed spec fn spec_mode(&self) -> Seq<char> {
        self.mode@
    }

    pub fn new(op: u16, filename: &str, mode: &str) -> (p: RequestPacket)
        ensures
            p.spec_op() == op,
            p.spec_filename() == filename@,
            p.spec_mode() == mode@,
    {
        RequestPacket { op, filename: String::from_str(filename), mode: String::from_str(mode) }
    }
}

impl Serializable for RequestPacket {
    open spec fn wire(&self) -> Seq<u8> {
        request_wire(self.spec_op(), self.spec_filename(), self.spec_mode())
    }

    fn serialize(self) -> (bytes: Vec<u8>) {
        let mut buf: Vec<u8> = Vec::new();
        write_u16(&mut buf, self.op);
        let ghost head = buf@;
        buf.extend_from_slice(self.filename.as_str().as_bytes());
        assert(buf@ =~= head + encode_utf8(self.filename@));
        write_u8(&mut buf, 0);
        let ghost middle = buf@;
        buf.extend_from_slice(self.mode.as_str().as_bytes());
        assert(buf@ =~= middle + encode_utf8(self.mode@));
        write_u8(&mut buf, 0);
        assert(buf@ =~= request_wire(self.op, self.filename@, self.mode@));
        buf
    }
}

impl Deserializable for RequestPacket {
    open spec fn parse(buf: Seq<u8>) -> Result<PacketView, Seq<char>> {
        parse_request(buf)
    }

    fn deserialize(buf: &[u8]) -> (r: Result<TFTPPacket, TFTPParseError>) {
        if buf.len() < 2 {
            return Err(TFTPParseError::new("Truncated packet"));
        }
        let op = read_u16(buf);
        if op != OP_RRQ && op != OP_WRQ {
            return Err(TFTPParseError::new("Bad OP code!"));
        }
        let a = skip_nuls(buf, 2);
        let b = skip_text(buf, a);
        let c = skip_nuls(buf, b);
        let d = skip_text(buf, c);
        if a == b || c == d {
            return Err(TFTPParseError::new("Missing file name or mode"));
        }
        let filename = str_from_utf8(slice_subrange(buf, a, b));
        let mode = str_from_utf8(slice_subrange(buf, c, d));
        match (filename, mode) {
            (Some(filename), Some(mode)) => {
                if op == OP_RRQ {
                    Ok(TFTPPacket::RRQ(ReadRequestPacket::new(filename, mode)))
                } else {
                    Ok(TFTPPacket::WRQ(WriteRequestPacket::new(filename, mode)))
                }
            },
            _ => Err(TFTPParseError::new("Invalid text")),
        }
    }
}

#[derive(Debug, PartialEq, Eq)]
pub struct ReadRequestPacket {
    filename: String,
    mode: String,
}

impl View for ReadRequestPacket {
    type V = PacketView;

    open spec fn view(&self) -> PacketView {
        PacketView::RRQ { filename: self.text_filename(), mode: self.text_mode() }
    }
}

impl ReadRequestPacket {
    pub closed spec fn text_filename(&self) -> Seq<char> {
        self.filename@
    }

    pub closed spec fn text_mode(&self) -> Seq<char> {
        self.mode@
    }

    pub fn new(filename: &str, mode: &str) -> (p: ReadRequestPacket)
        ensures
            p@ == (PacketView::RRQ { filename: filename@, mode: mode@ }),
    {
        ReadRequestPacket { filename: String::from_str(filename), mode: String::from_str(mode) }
    }
}

impl Request for ReadRequestPacket {
    open spec fn spec_op(&self) -> u16 {
        OP_RRQ
    }

    open spec fn spec_filename(&self) -> Seq<char> {
        self.text_filename()
    }

    open spec fn spec_mode(&self) -> Seq<char> {
        self.text_mode()
    }

    fn op(&self) -> (op: u16) {
        OP_RRQ
    }

    fn filename(&self) -> (name: &str) {
        self.filename.as_str()
    }

    fn mode(&self) -> (mode: &str) {
        self.mode.as_str()
    }
}

impl Serializable for ReadRequestPacket {
    open spec fn wire(&self) -> Seq<u8> {
        self@.wire()
    }

    fn serialize(self) -> (bytes: Vec<u8>) {
        let req = RequestPacket { op: OP_RRQ, filename: self.filename, mode: self.mode };
        req.serialize()
    }
}

impl Deserializable for ReadRequestPacket {
    open spec fn parse(buf: Seq<u8>) -> Result<PacketView, Seq<char>> {
        parse_read_request(buf)
    }

    fn deserialize(buf: &[u8]) -> (r: Result<TFTPPacket, TFTPParseError>) {
        if buf.len() >= 2 && read_u16(buf) != OP_RRQ {
            return Err(TFTPParseError::new("Bad OP code!"));
        }
        RequestPacket::deserialize(buf)
    }
}

#[derive(Debug, PartialEq, Eq)]
pub struct WriteRequestPacket {
    filename: String,
    mode: String,
}

impl View for WriteRequestPacket {
    type V = PacketView;

    open spec fn view(&self) -> PacketView {
        PacketView::WRQ { filename: self.text_filename(), mode: self.text_mode() }
    }
}

impl WriteRequestPacket {
    pub closed spec fn text_filename(&self) -> Seq<char> {
        self.filename@
    }

    pub closed spec fn text_mode(&self) -> Seq<char> {
        self.mode@
    }

    pub fn new(filename: &str, mode: &str) -> (p: WriteRequestPacket)
        ensures
            p@ == (PacketView::WRQ { filename: filename@, mode: mode@ }),
    {
        WriteRequestPacket { filename: String::from_str(filename), mode: String::from_str(mode) }
    }
}

impl Request for WriteRequestPacket {
    open spec fn spec_op(&self) -> u16 {
        OP_WRQ
    }

    open spec fn spec_filename(&self) -> Seq<char> {
        self.text_filename()
    }

    open spec fn spec_mode(&self) -> Seq<char> {
        self.text_mode()
    }

    fn op(&self) -> (op: u16) {
        OP_WRQ
    }

    fn filename(&self) -> (name: &str) {
        self.filename.as_str()
    }

    fn mode(&self) -> (mode: &str) {
        self.mode.as_str()
    }
}

impl Serializable for WriteRequestPacket {
    open spec fn wire(&self) -> Seq<u8> {
        self@.wire()
    }

    fn serialize(self) -> (bytes: Vec<u8>) {
        let req = RequestPacket { op: OP_WRQ, filename: self.filename, mode: self.mode };
        req.serialize()
    }
}

impl Deserializable for WriteRequestPacket {
    open spec fn parse(buf: Seq<u8>) -> Result<PacketView, Seq<char>> {
        parse_write_request(buf)
    }

    fn deserialize(buf: &[u8]) -> (r: Result<TFTPPacket, TFTPParseError>) {
        if buf.len() >= 2 && read_u16(buf) != OP_WRQ {
            return Err(TFTPParseError::new("Bad OP code!"));
        }
        RequestPacket::deserialize(buf)
    }
}

} // verus!
