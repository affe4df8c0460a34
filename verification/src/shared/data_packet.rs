//! DATA packets carry one block of the file; the opcode is 3.

use crate::shared::wire::{read_u16, write_u16};
use crate::shared::{
    parse_data, Deserializable, PacketView, Serializable, TFTPPacket, TFTPParseError, OP_DATA,
    STRIDE_SIZE,
};
use vstd::prelude::*;
use vstd::slice::{slice_subrange, slice_to_vec};

verus! {

#[derive(Debug, PartialEq, Eq)]
pub struct DataPacket {
    blk: u16,
    data: Vec<u8>,
}

impl View for DataPacket {
    type V = PacketView;

    open spec fn view(&self) -> PacketView {
        PacketView::DATA { blk: self.spec_blk(), data: self.spec_data() }
    }
}

impl DataPacket {
    /// The number of the block.
    pub closed spec fn spec_blk(&self) -> u16 {
        self.blk
    }

    /// The payload.
    pub closed spec fn spec_data(&self) -> Seq<u8> {
        self.data@
    }

    pub fn new(blk: u16, data: Vec<u8>) -> (p: DataPacket)
        ensures
            p@ == (PacketView::DATA { blk, data: data@ }),
    {
        DataPacket { blk, data }
    }

    /// The opcode of the packet.
    pub fn op(&self) -> (op: u16)
        ensures
            op == OP_DATA,
    {
        OP_DATA
    }

    pub fn blk(&self) -> (blk: u16)
        ensures
            blk == self.spec_blk(),
    {
        self.blk
    }

    pub fn data(self) -> (data: Vec<u8>)
        ensures
            data@ == self.spec_data(),
    {
        self.data
    }

    /// The length of the payload in bytes.
    pub fn data_length(&self) -> (n: usize)
        ensures
            n == self.spec_data().len(),
    {
        self.data.len()
    }
}

impl Serializable for DataPacket {
    open spec fn wire(&self) -> Seq<u8> {
        self@.wire()
    }

    fn serialize(self) -> (bytes: Vec<u8>) {
        let mut buf: Vec<u8> = Vec::new();
        write_u16(&mut buf, OP_DATA);
        write_u16(&mut buf, self.blk);
        let ghost head = buf@;
        buf.extend_from_slice(self.data.as_slice());
        assert(buf@ =~= head + self.data@);
        buf
    }
}

impl Deserializable for DataPacket {
    open spec fn parse(buf: Seq<u8>) -> Result<PacketView, Seq<char>> {
        parse_data(buf)
    }

    fn deserialize(buf: &[u8]) -> (r: Result<TFTPPacket, TFTPParseError>) {
        if buf.len() < 2 {
            return Err(TFTPParseError::new("Truncated packet"));
        }
        let op = read_u16(buf);
        if op != OP_DATA {
            return Err(TFTPParseError::new("Bad OP code!"));
        }
        if buf.len() < 4 {
            return Err(TFTPParseError::new("Truncated packet"));
        }
        let blk = read_u16(slice_subrange(buf, 2, 4));
        let data = slice_subrange(buf, 4, buf.len());
        if data.len() > STRIDE_SIZE {
            return Err(TFTPParseError::new("Invalid data length"));
        }
        assert(data@ =~= buf@.skip(4));
        Ok(TFTPPacket::DATA(DataPacket::new(blk, slice_to_vec(data))))
    }
}

} // verus!
