//! ERROR packets can answer any other packet; the opcode is 5.
//!
//! The error code is an integer that tells the nature of the error. The
//! message is meant for people; like all other strings it ends with a zero
//! byte.

use crate::shared::wire::{ends_with_nul, read_u16, str_from_utf8, write_u16, write_u8};
use crate::shared::{
    error_wire, parse_error, Deserializable, PacketView, Serializable, TFTPPacket, TFTPParseError,
    OP_ERR,
};
use vstd::prelude::*;
use vstd::slice::slice_subrange;
use vstd::string::*;
use vstd::utf8::*;

verus! {

/// The kinds of error that the protocol defines.
#[derive(Debug, Clone, Copy, PartialEq, Eq, Structural)]
pub enum TFTPError {
    UndefinedError,
    FileNotFound,
    AccessViolation,
    DiskFull,
    IllegalOperation,
    UnknownTID,
    FileExists,
}

/// The code that stands for an error kind on the wire.
pub open spec fn error_code(err: TFTPError) -> u16 {
    match err {
        TFTPError::UndefinedError => 0,
        TFTPError::FileNotFound => 1,
        TFTPError::AccessViolation => 2,
        TFTPError::DiskFull => 3,
        TFTPError::IllegalOperation => 4,
        TFTPError::UnknownTID => 5,
        TFTPError::FileExists => 6,
    }
}

/// The error kind that a code of at most 6 stands for.
pub open spec fn error_of_code(code: u16) -> TFTPError {
    if code == 0 {
        TFTPError::UndefinedError
    } else if code == 1 {
        TFTPError::FileNotFound
    } else if code == 2 {
        TFTPError::AccessViolation
    } else if code == 3 {
        TFTPError::DiskFull
    } else if code == 4 {
        TFTPError::IllegalOperation
    } else if code == 5 {
        TFTPError::UnknownTID
    } else {
        TFTPError::FileExists
    }
}

/// The message that an error kind has where none is given, with its
/// closing NUL.
pub open spec fn canonical_text(err: TFTPError) -> Seq<char> {
    match err {
        TFTPError::UndefinedError => "Not defined, see error message (if any).\0"@,
        TFTPError::FileNotFound => "File not found.\0"@,
        TFTPError::AccessViolation => "Access violation.\0"@,
        TFTPError::DiskFull => "Disk full or allocation exceeded.\0"@,
        TFTPError::IllegalOperation => "Illegal TFTP operation.\0"@,
        TFTPError::UnknownTID => "Unknown transfer ID.\0"@,
        TFTPError::FileExists => "File already exists.\0"@,
    }
}

/// The error kind of a code, and its message.
pub fn get_err_by_code(code: u16) -> (r: (TFTPError, String))
    requires
        code <= 6,
    ensures
        r.0 == error_of_code(code),
        error_code(r.0) == code,
        r.1@ == canonical_text(r.0),
{
    let err = if code == 0 {
        TFTPError::UndefinedError
    } else if code == 1 {
        TFTPError::FileNotFound
    } else if code == 2 {
        TFTPError::AccessViolation
    } else if code == 3 {
        TFTPError::DiskFull
    } else if code == 4 {
        TFTPError::IllegalOperation
    } else if code == 5 {
        TFTPError::UnknownTID
    } else {
        TFTPError::FileExists
    };
    let (_, text) = get_err_details(err);
    (err, text)
}

/// The code of an error kind, and its message.
pub fn get_err_details(err: TFTPError) -> (r: (u16, String))
    ensures
        r.0 == error_code(err),
        r.1@ == canonical_text(err),
{
    match err {
        TFTPError::UndefinedError => (
            0,
            String::from_str("Not defined, see error message (if any).\0"),
        ),
        TFTPError::FileNotFound => (1, String::from_str("File not found.\0")),
        TFTPError::AccessViolation => (2, String::from_str("Access violation.\0")),
        TFTPError::DiskFull => (3, String::from_str("Disk full or allocation exceeded.\0")),
        TFTPError::IllegalOperation => (4, String::from_str("Illegal TFTP operation.\0")),
        TFTPError::UnknownTID => (5, String::from_str("Unknown transfer ID.\0")),
        TFTPError::FileExists => (6, String::from_str("File already exists.\0")),
    }
}

#[derive(Debug, PartialEq, Eq)]
pub struct ErrorPacket {
    code: u16,
    err: String,
}

impl View for ErrorPacket {
    type V = PacketView;

    open spec fn view(&self) -> PacketView {
        PacketView::ERR { code: self.spec_code(), message: self.spec_err() }
    }
}

impl ErrorPacket {
    /// The error code.
    pub closed spec fn spec_code(&self) -> u16 {
        self.code
    }

    /// The message, as it is stored.
    pub closed spec fn spec_err(&self) -> Seq<char> {
        self.err@
    }

    /// An error packet of the kind `err`, with the message of that kind.
    pub fn new(err: TFTPError) -> (p: ErrorPacket)
        ensures
            p@ == (PacketView::ERR { code: error_code(err), message: canonical_text(err) }),
    {
        let (code, msg) = get_err_details(err);
        ErrorPacket { code, err: msg }
    }

    /// An error packet of no defined kind (code 0) with a message of its own.
    pub fn new_custom(msg: String) -> (p: ErrorPacket)
        ensures
            p@ == (PacketView::ERR { code: 0, message: msg@ }),
    {
        ErrorPacket { code: 0, err: msg }
    }

    /// The opcode of the packet.
    pub fn op(&self) -> (op: u16)
        ensures
            op == OP_ERR,
    {
        OP_ERR
    }

    pub fn code(&self) -> (code: u16)
        ensures
            code == self.spec_code(),
    {
        self.code
    }

    pub fn err(&self) -> (err: &str)
        ensures
            err@ == self.spec_err(),
    {
        self.err.as_str()
    }
}

impl Serializable for ErrorPacket {
    open spec fn wire(&self) -> Seq<u8> {
        self@.wire()
    }

    fn serialize(self) -> (bytes: Vec<u8>) {
        let mut buf: Vec<u8> = Vec::with_capacity(4);
        write_u16(&mut buf, OP_ERR);
        write_u16(&mut buf, self.code);
        let ghost head = buf@;
        buf.extend_from_slice(self.err.as_str().as_bytes());
        assert(buf@ =~= head + encode_utf8(self.err@));
        if !ends_with_nul(self.err.as_str()) {
            write_u8(&mut buf, 0);
        }
        assert(buf@ =~= error_wire(self.code, self.err@));
        buf
    }
}

impl Deserializable for ErrorPacket {
    open spec fn parse(buf: Seq<u8>) -> Result<PacketView, Seq<char>> {
        parse_error(buf)
    }

    fn deserialize(buf: &[u8]) -> (r: Result<TFTPPacket, TFTPParseError>) {
        if buf.len() < 2 {
            return Err(TFTPParseError::new("Truncated packet"));
        }
        let op = read_u16(buf);
        if op != OP_ERR {
            return Err(TFTPParseError::bad_op(op));
        }
        if buf.len() < 4 {
            return Err(TFTPParseError::new("Truncated packet"));
        }
        let code = read_u16(slice_subrange(buf, 2, 4));
        let text = slice_subrange(buf, 4, buf.len());
        assert(text@ =~= buf@.skip(4));
        match str_from_utf8(text) {
            Some(msg) => Ok(TFTPPacket::ERR(ErrorPacket { code, err: String::from_str(msg) })),
            None => Err(TFTPParseError::new("Invalid text")),
        }
    }
}

} // verus!
