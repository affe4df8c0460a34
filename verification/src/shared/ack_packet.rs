//! ACK packets acknowledge DATA packets and write requests; the opcode is 4.
//!
//! The block number in an ACK echoes the block number of the DATA packet
//! being acknowledged. A WRQ is acknowledged with an ACK packet having a
//! block number of zero.

use crate::shared::wire::{read_u16, write_u16};
use crate::shared::{
    parse_ack, Deserializable, PacketView, Serializable, TFTPPacket, TFTPParseError, OP_ACK,
};
use vstd::prelude::*;
use vstd::slice::slice_subrange;

verus! {

#[derive(Debug, PartialEq, Eq)]
pub struct AckPacket {
    blk: u16,
}

impl View for AckPacket {
    type V = PacketView;

    open spec fn view(&self) -> PacketView {
        PacketView::ACK { blk: self.spec_blk() }
    }
}

impl AckPacket {
    /// The number of the block that is acknowledged.
    pub closed spec fn spec_blk(&self) -> u16 {
        self.blk
    }

    pub fn new(blk: u16) -> (p: AckPacket)
        ensures
            p@ == (PacketView::ACK { blk }),
    {
        AckPacket { blk }
    }

    /// The opcode of the packet.
    pub fn op(&self) -> (op: u16)
        ensures
            op == OP_ACK,
    {
        OP_ACK
    }

    /// The number of the block that is acknowledged.
    pub fn blk(&self) -> (blk: u16)
        ensures
            blk == self.spec_blk(),
    {
        self.blk
    }
}

impl Serializable for AckPacket {
    open spec fn wire(&self) -> Seq<u8> {
        self@.wire()
    }

    fn serialize(self) -> (bytes: Vec<u8>) {
        let mut buf: Vec<u8> = Vec::with_capacity(4);
        write_u16(&mut buf, OP_ACK);
        write_u16(&mut buf, self.blk);
        buf
    }
}

impl Deserializable for AckPacket {
    open spec fn parse(buf: Seq<u8>) -> Result<PacketView, Seq<char>> {
        parse_ack(buf)
    }

    fn deserialize(buf: &[u8]) -> (r: Result<TFTPPacket, TFTPParseError>) {
        if buf.len() < 2 {
            return Err(TFTPParseError::new("Truncated packet"));
        }
        let op = read_u16(buf);
        if op != OP_ACK {
            return Err(TFTPParseError::bad_op(op));
        }
        if buf.len() < 4 {
            return Err(TFTPParseError::new("Truncated packet"));
        }
        let blk = read_u16(slice_subrange(buf, 2, 4));
        Ok(TFTPPacket::ACK(AckPacket::new(blk)))
    }
}

} // verus!
