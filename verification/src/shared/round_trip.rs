//! What encoding and decoding have to do with each other.

use crate::shared::wire::{
    be16, field_end, field_start, hi_byte, lemma_be16_of_bytes, lo_byte, nul_ended, nul_free,
};
use crate::shared::{
    bad_op_text, bad_op_text_of, parse_ack, parse_data, parse_error, parse_packet,
    parse_read_request, parse_request, parse_write_request, request_wire, PacketView, OP_ACK,
    OP_DATA, OP_ERR, OP_RRQ, OP_WRQ, STRIDE_SIZE,
};
use vstd::prelude::*;
use vstd::utf8::*;

verus! {

/// Whether `text` can be a file name or a mode: it is not empty and holds no
/// NUL character.
pub open spec fn is_field_text(text: Seq<char>) -> bool {
    text.len() > 0 && forall|i: int| 0 <= i < text.len() ==> text[i] != '\0'
}

impl PacketView {
    /// Whether the packet is one that the wire format carries unchanged:
    /// the texts of a request are not empty and hold no NUL, a payload is at
    /// most a block long, and the message of an error ends with NUL.
    pub open spec fn is_canonical(self) -> bool {
        match self {
            PacketView::RRQ { filename, mode } => is_field_text(filename) && is_field_text(mode),
            PacketView::WRQ { filename, mode } => is_field_text(filename) && is_field_text(mode),
            PacketView::ACK { .. } => true,
            PacketView::ERR { message, .. } => nul_ended(message),
            PacketView::DATA { data, .. } => data.len() <= STRIDE_SIZE,
        }
    }

    /// The packet that the peer reads: the same packet, but for an error
    /// message without a closing NUL, which arrives with one.
    pub open spec fn as_received(self) -> PacketView {
        match self {
            PacketView::ERR { code, message } => if nul_ended(message) {
                self
            } else {
                PacketView::ERR { code, message: message.push('\0') }
            },
            _ => self,
        }
    }
}

proof fn lemma_scalar_bytes(c: u32)
    by (bit_vector)
    ensures
        c != 0 && c <= 0x7F ==> (c & 0x7F) as u8 != 0,
        c == 0 ==> (c & 0x7F) as u8 == 0,
        0xC0 | ((c >> 6) & 0x1F) as u8 != 0,
        0xE0 | ((c >> 12) & 0x0F) as u8 != 0,
        0xF0 | ((c >> 18) & 0x7) as u8 != 0,
        0x80 | (c & 0x3F) as u8 != 0,
        0x80 | ((c >> 6) & 0x3F) as u8 != 0,
        0x80 | ((c >> 12) & 0x3F) as u8 != 0,
{
}

/// Text without a NUL character is encoded without a NUL byte, and text
/// that is not empty is encoded by at least one byte.
pub proof fn lemma_encoding_nul_free(text: Seq<char>)
    requires
        forall|i: int| 0 <= i < text.len() ==> text[i] != '\0',
    ensures
        nul_free(encode_utf8(text)),
        text.len() > 0 ==> encode_utf8(text).len() > 0,
    decreases text.len(),
{
    if text.len() > 0 {
        let c = text[0] as u32;
        char_is_scalar(text[0]);
        assert(c != 0) by {
            char_u32_cast(text[0], c);
            char_u32_cast('\0', 0u32);
            assert(text[0] != '\0');
        }
        lemma_scalar_bytes(c);
        let rest = text.drop_first();
        assert forall|i: int| 0 <= i < rest.len() implies rest[i] != '\0' by {
            assert(rest[i] == text[i + 1]);
        }
        lemma_encoding_nul_free(rest);
        let head = encode_scalar(c);
        assert(nul_free(head));
        assert(head.len() > 0);
        assert(encode_utf8(text) == head + encode_utf8(rest));
    }
}

/// Appending a NUL character to a text appends a NUL byte to its encoding.
pub proof fn lemma_encoding_push_nul(text: Seq<char>)
    ensures
        encode_utf8(text.push('\0')) == encode_utf8(text) + seq![0u8],
    decreases text.len(),
{
    let full = text.push('\0');
    lemma_scalar_bytes(0);
    if text.len() == 0 {
        assert(full.drop_first() =~= Seq::<char>::empty());
        assert(encode_utf8(full.drop_first()) =~= Seq::<u8>::empty());
        assert(encode_scalar('\0' as u32) =~= seq![0u8]);
        assert(encode_utf8(full) =~= seq![0u8]);
        assert(encode_utf8(text) =~= Seq::<u8>::empty());
        assert(encode_utf8(full) =~= encode_utf8(text) + seq![0u8]);
    } else {
        lemma_encoding_push_nul(text.drop_first());
        assert(full.drop_first() =~= text.drop_first().push('\0'));
        assert(full[0] == text[0]);
        assert(encode_utf8(full) =~= encode_utf8(text) + seq![0u8]);
    }
}

/// In a buffer where no byte from `from` up to `end` is NUL and the byte at
/// `end` is NUL, the text field that starts at `from` ends at `end`.
pub proof fn lemma_field_end(s: Seq<u8>, from: int, end: int)
    requires
        0 <= from <= end < s.len(),
        forall|i: int| from <= i < end ==> s[i] != 0,
        s[end] == 0,
    ensures
        field_end(s, from) == end,
    decreases end - from,
{
    if from < end {
        lemma_field_end(s, from + 1, end);
    }
}

/// A request whose texts are not empty and hold no NUL is read back from its
/// bytes as it was written.
pub proof fn lemma_request_round_trip(op: u16, filename: Seq<char>, mode: Seq<char>)
    requires
        op == OP_RRQ || op == OP_WRQ,
        is_field_text(filename),
        is_field_text(mode),
    ensures
        parse_request(request_wire(op, filename, mode)) == Ok::<PacketView, Seq<char>>(
            if op == OP_RRQ {
                PacketView::RRQ { filename, mode }
            } else {
                PacketView::WRQ { filename, mode }
            },
        ),
{
    let f = encode_utf8(filename);
    let m = encode_utf8(mode);
    let s = request_wire(op, filename, mode);
    lemma_encoding_nul_free(filename);
    lemma_encoding_nul_free(mode);
    lemma_be16_of_bytes(op);
    encode_utf8_valid_utf8(filename);
    encode_utf8_valid_utf8(mode);
    encode_utf8_decode_utf8(filename);
    encode_utf8_decode_utf8(mode);
    let a: int = 2;
    let b: int = 2 + (f.len() as int);
    let c: int = b + 1;
    let d: int = c + (m.len() as int);
    assert(s.len() == d + 1);
    assert(s[0] == hi_byte(op) && s[1] == lo_byte(op));
    assert forall|i: int| a <= i < b implies s[i] != 0 by {
        assert(s[i] == f[i - 2]);
    }
    assert(s[b] == 0);
    assert forall|i: int| c <= i < d implies s[i] != 0 by {
        assert(s[i] == m[i - c]);
    }
    assert(s[d] == 0);
    assert(s[a] != 0);
    assert(s[c] != 0);
    assert(field_start(s, 2) == a);
    lemma_field_end(s, a, b);
    assert(field_start(s, b) == c) by {
        assert(field_start(s, b) == field_start(s, b + 1));
    }
    lemma_field_end(s, c, d);
    assert(s.subrange(a, b) =~= f);
    assert(s.subrange(c, d) =~= m);
}

/// Decoding what a packet was encoded to gives the packet as the peer reads
/// it, for every request whose texts are not empty and hold no NUL, every
/// acknowledgement, every data packet of at most a block, and every error
/// packet.
pub proof fn lemma_decode_encode(p: PacketView)
    requires
        p.as_received().is_canonical(),
    ensures
        parse_packet(p.wire()) == Ok::<PacketView, Seq<char>>(p.as_received()),
{
    let s = p.wire();
    match p {
        PacketView::RRQ { filename, mode } => {
            lemma_request_round_trip(OP_RRQ, filename, mode);
            lemma_be16_of_bytes(OP_RRQ);
            assert(s[0] == hi_byte(OP_RRQ) && s[1] == lo_byte(OP_RRQ));
        },
        PacketView::WRQ { filename, mode } => {
            lemma_request_round_trip(OP_WRQ, filename, mode);
            lemma_be16_of_bytes(OP_WRQ);
            assert(s[0] == hi_byte(OP_WRQ) && s[1] == lo_byte(OP_WRQ));
        },
        PacketView::ACK { blk } => {
            lemma_be16_of_bytes(OP_ACK);
            lemma_be16_of_bytes(blk);
            assert(s[0] == hi_byte(OP_ACK) && s[1] == lo_byte(OP_ACK));
            assert(s[2] == hi_byte(blk) && s[3] == lo_byte(blk));
        },
        PacketView::DATA { blk, data } => {
            lemma_be16_of_bytes(OP_DATA);
            lemma_be16_of_bytes(blk);
            assert(s[0] == hi_byte(OP_DATA) && s[1] == lo_byte(OP_DATA));
            assert(s[2] == hi_byte(blk) && s[3] == lo_byte(blk));
            assert(s.skip(4) =~= data);
        },
        PacketView::ERR { code, message } => {
            lemma_be16_of_bytes(OP_ERR);
            lemma_be16_of_bytes(code);
            assert(s[0] == hi_byte(OP_ERR) && s[1] == lo_byte(OP_ERR));
            assert(s[2] == hi_byte(code) && s[3] == lo_byte(code));
            let sent = if nul_ended(message) {
                message
            } else {
                message.push('\0')
            };
            if !nul_ended(message) {
                lemma_encoding_push_nul(message);
            }
            assert(s.skip(4) =~= encode_utf8(sent));
            encode_utf8_valid_utf8(sent);
            encode_utf8_decode_utf8(sent);
        },
    }
}

/// Decoding what a packet was encoded to gives the packet back, where the
/// packet is one that the wire format carries unchanged.
pub proof fn lemma_round_trip(p: PacketView)
    requires
        p.is_canonical(),
    ensures
        parse_packet(p.wire()) == Ok::<PacketView, Seq<char>>(p),
{
    lemma_decode_encode(p);
}

/// A buffer whose opcode is not that of the packet kind asked for is
/// refused by the decoder of that kind, and one whose opcode belongs to no
/// kind is refused by the decoder of datagrams.
pub proof fn lemma_opcode_guard(s: Seq<u8>)
    requires
        s.len() >= 2,
    ensures
        be16(s[0], s[1]) != OP_RRQ ==> parse_read_request(s) == Err::<PacketView, Seq<char>>(
            bad_op_text(),
        ),
        be16(s[0], s[1]) != OP_WRQ ==> parse_write_request(s) == Err::<PacketView, Seq<char>>(
            bad_op_text(),
        ),
        be16(s[0], s[1]) != OP_RRQ && be16(s[0], s[1]) != OP_WRQ ==> parse_request(s) == Err::<
            PacketView,
            Seq<char>,
        >(bad_op_text()),
        be16(s[0], s[1]) != OP_ACK ==> parse_ack(s) == Err::<PacketView, Seq<char>>(
            bad_op_text_of(be16(s[0], s[1])),
        ),
        be16(s[0], s[1]) != OP_DATA ==> parse_data(s) == Err::<PacketView, Seq<char>>(
            bad_op_text(),
        ),
        be16(s[0], s[1]) != OP_ERR ==> parse_error(s) == Err::<PacketView, Seq<char>>(
            bad_op_text_of(be16(s[0], s[1])),
        ),
        be16(s[0], s[1]) < 1 || be16(s[0], s[1]) > 5 ==> parse_packet(s) is Err,
{
}

/// Whatever the bytes, the decoder of datagrams gives a packet of the kind
/// that the opcode names, or fails.
pub proof fn lemma_decoded_kind(s: Seq<u8>)
    ensures
        match parse_packet(s) {
            Ok(PacketView::RRQ { .. }) => be16(s[0], s[1]) == OP_RRQ,
            Ok(PacketView::WRQ { .. }) => be16(s[0], s[1]) == OP_WRQ,
            Ok(PacketView::ACK { .. }) => be16(s[0], s[1]) == OP_ACK,
            Ok(PacketView::ERR { .. }) => be16(s[0], s[1]) == OP_ERR,
            Ok(PacketView::DATA { .. }) => be16(s[0], s[1]) == OP_DATA,
            Err(_) => true,
        },
{
}

} // verus!
