//! Byte-level building blocks of the wire format: big-endian 16-bit fields,
//! NUL-separated text fields and decimal numbers in diagnostics.

use byteorder::{ByteOrder, NetworkEndian, WriteBytesExt};
use vstd::prelude::*;
use vstd::string::*;
use vstd::utf8::*;

verus! {

/// The 16-bit number whose big-endian encoding is `hi` followed by `lo`.
pub open spec fn be16(hi: u8, lo: u8) -> u16 {
    (hi as int * 256 + lo as int) as u16
}

/// The more significant byte of `n`.
pub open spec fn hi_byte(n: u16) -> u8 {
    (n / 256) as u8
}

/// The less significant byte of `n`.
pub open spec fn lo_byte(n: u16) -> u8 {
    (n % 256) as u8
}

/// The two bytes that carry `n` on the wire.
pub open spec fn u16_wire(n: u16) -> Seq<u8> {
    seq![hi_byte(n), lo_byte(n)]
}

/// Reading back the two bytes of a number gives the number.
pub proof fn lemma_be16_of_bytes(n: u16)
    ensures
        be16(hi_byte(n), lo_byte(n)) == n,
{
}

/// `byteorder::ByteOrder::read_u16` in network byte order. It panics on fewer
/// than two bytes, which `requires` leaves out; of the rest it is trusted to
/// return the first byte times 256 plus the second.
#[verifier::external_body]
pub(crate) fn read_u16(buf: &[u8]) -> (n: u16)
    requires
        buf@.len() >= 2,
    ensures
        n == be16(buf@[0], buf@[1]),
{
    NetworkEndian::read_u16(buf)
}

/// `byteorder::WriteBytesExt::write_u16` in network byte order on a vector,
/// a writer that cannot fail. It is trusted to append the more significant
/// byte of `n` and then the less significant one.
#[verifier::external_body]
pub(crate) fn write_u16(buf: &mut Vec<u8>, n: u16)
    ensures
        final(buf)@ == old(buf)@ + u16_wire(n),
{
    buf.write_u16::<NetworkEndian>(n).unwrap()
}

/// `byteorder::WriteBytesExt::write_u8` on a vector, a writer that cannot
/// fail. It is trusted to append the one byte `n`.
#[verifier::external_body]
pub(crate) fn write_u8(buf: &mut Vec<u8>, n: u8)
    ensures
        final(buf)@ == old(buf)@.push(n),
{
    buf.write_u8(n).unwrap()
}

/// `std::str::from_utf8`. It is trusted to accept exactly the well-formed
/// UTF-8 byte strings and to hand back the text that those bytes encode.
#[verifier::external_body]
pub(crate) fn str_from_utf8<'a>(bytes: &'a [u8]) -> (r: Option<&'a str>)
    ensures
        r is Some <==> valid_utf8(bytes@),
        r is Some ==> r->0@ == decode_utf8(bytes@),
{
    match std::str::from_utf8(bytes) {
        Ok(s) => Some(s),
        Err(_) => None,
    }
}

/// The first position at or after `from` that holds a byte other than NUL,
/// or the length of `s` where there is none.
pub open spec fn field_start(s: Seq<u8>, from: int) -> int
    decreases s.len() - from,
{
    if from < 0 || from >= s.len() {
        s.len() as int
    } else if s[from] != 0 {
        from
    } else {
        field_start(s, from + 1)
    }
}

/// The first position at or after `from` that holds a NUL byte, or the
/// length of `s` where there is none.
pub open spec fn field_end(s: Seq<u8>, from: int) -> int
    decreases s.len() - from,
{
    if from < 0 || from >= s.len() {
        s.len() as int
    } else if s[from] == 0 {
        from
    } else {
        field_end(s, from + 1)
    }
}

/// Whether no byte of `s` is NUL.
pub open spec fn nul_free(s: Seq<u8>) -> bool {
    forall|i: int| 0 <= i < s.len() ==> s[i] != 0
}

/// Skips the NUL bytes from `from` on.
pub fn skip_nuls(buf: &[u8], from: usize) -> (at: usize)
    requires
        from <= buf@.len(),
    ensures
        at == field_start(buf@, from as int),
        from <= at <= buf@.len(),
        forall|i: int| from <= i < at ==> buf@[i] == 0,
        at < buf@.len() ==> buf@[at as int] != 0,
{
    let mut at: usize = from;
    while at < buf.len() && buf[at] == 0
        invariant
            from <= at <= buf@.len(),
            field_start(buf@, from as int) == field_start(buf@, at as int),
            forall|i: int| from <= i < at ==> buf@[i] == 0,
        decreases buf@.len() - at,
    {
        at = at + 1;
    }
    at
}

/// Skips the bytes other than NUL from `from` on.
pub fn skip_text(buf: &[u8], from: usize) -> (at: usize)
    requires
        from <= buf@.len(),
    ensures
        at == field_end(buf@, from as int),
        from <= at <= buf@.len(),
        forall|i: int| from <= i < at ==> buf@[i] != 0,
        at < buf@.len() ==> buf@[at as int] == 0,
{
    let mut at: usize = from;
    while at < buf.len() && buf[at] != 0
        invariant
            from <= at <= buf@.len(),
            field_end(buf@, from as int) == field_end(buf@, at as int),
            forall|i: int| from <= i < at ==> buf@[i] != 0,
        decreases buf@.len() - at,
    {
        at = at + 1;
    }
    at
}

proof fn lemma_scalar_last_byte(c: u32)
    by (bit_vector)
    ensures
        c <= 0x7F ==> ((c & 0x7F) as u8 == 0 <==> c == 0),
        0x80 | (c & 0x3F) as u8 != 0,
{
}

/// The encoding of a text is empty exactly if the text is, and it ends
/// with a NUL byte exactly if the text ends with a NUL character.
pub proof fn lemma_encoding_last_byte(text: Seq<char>)
    ensures
        (encode_utf8(text).len() == 0) == (text.len() == 0),
        text.len() > 0 ==> (encode_utf8(text).last() == 0 <==> text.last() == '\0'),
    decreases text.len(),
{
    if text.len() > 0 {
        let c = text[0] as u32;
        let rest = text.drop_first();
        let head = encode_scalar(c);
        char_is_scalar(text[0]);
        lemma_scalar_last_byte(c);
        lemma_encoding_last_byte(rest);
        assert(encode_utf8(text) == head + encode_utf8(rest));
        assert(head.len() > 0);
        if rest.len() > 0 {
            assert(text.last() == rest.last());
            assert(encode_utf8(text).last() == encode_utf8(rest).last());
        } else {
            assert(encode_utf8(rest).len() == 0);
            assert(encode_utf8(text) =~= head);
            assert(text.last() == text[0]);
            assert((c == 0) == (text[0] == '\0')) by {
                char_u32_cast(text[0], c);
                char_u32_cast('\0', 0u32);
            }
        }
    }
}

/// Tells whether the text is not empty and its last character is NUL.
pub fn ends_with_nul(text: &str) -> (b: bool)
    ensures
        b == nul_ended(text@),
{
    let bytes = text.as_bytes();
    let n = bytes.len();
    proof {
        lemma_encoding_last_byte(text@);
    }
    n > 0 && bytes[n - 1] == 0
}

/// Whether `text` is not empty and its last character is NUL.
pub open spec fn nul_ended(text: Seq<char>) -> bool {
    text.len() > 0 && text.last() == '\0'
}

/// The character that stands for the digit `d`.
pub open spec fn digit_char(d: nat) -> char {
    if d == 0 {
        '0'
    } else if d == 1 {
        '1'
    } else if d == 2 {
        '2'
    } else if d == 3 {
        '3'
    } else if d == 4 {
        '4'
    } else if d == 5 {
        '5'
    } else if d == 6 {
        '6'
    } else if d == 7 {
        '7'
    } else if d == 8 {
        '8'
    } else {
        '9'
    }
}

/// `n` written in decimal, without leading zeros.
pub open spec fn decimal(n: nat) -> Seq<char>
    decreases n,
{
    if n < 10 {
        seq![digit_char(n)]
    } else {
        decimal(n / 10).push(digit_char(n % 10))
    }
}

fn digit_str(d: u16) -> (s: &'static str)
    requires
        d < 10,
    ensures
        s@ == seq![digit_char(d as nat)],
{
    proof {
        reveal_strlit("0");
        reveal_strlit("1");
        reveal_strlit("2");
        reveal_strlit("3");
        reveal_strlit("4");
        reveal_strlit("5");
        reveal_strlit("6");
        reveal_strlit("7");
        reveal_strlit("8");
        reveal_strlit("9");
    }
    let s = if d == 0 {
        "0"
    } else if d == 1 {
        "1"
    } else if d == 2 {
        "2"
    } else if d == 3 {
        "3"
    } else if d == 4 {
        "4"
    } else if d == 5 {
        "5"
    } else if d == 6 {
        "6"
    } else if d == 7 {
        "7"
    } else if d == 8 {
        "8"
    } else {
        "9"
    };
    assert(s@ =~= seq![digit_char(d as nat)]);
    s
}

/// Appends `n` in decimal to `out`.
pub fn push_decimal(out: &mut String, n: u16)
    ensures
        final(out)@ == old(out)@ + decimal(n as nat),
    decreases n,
{
    if n >= 10 {
        push_decimal(out, n / 10);
    }
    let ghost before = out@;
    out.append(digit_str(n % 10));
    proof {
        if n >= 10 {
            assert(out@ =~= old(out)@ + decimal(n as nat));
        } else {
            assert(before == old(out)@);
            assert(out@ =~= old(out)@ + decimal(n as nat));
        }
    }
}

} // verus!
