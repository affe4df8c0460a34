use std::io::Write;

use byteorder::{NetworkEndian, WriteBytesExt};
use tftpeer::shared::ack_packet::AckPacket;
use tftpeer::shared::data_packet::DataPacket;
use tftpeer::shared::err_packet::{get_err_by_code, get_err_details, ErrorPacket, TFTPError};
use tftpeer::shared::request_packet::{
    ReadRequestPacket, Request, RequestPacket, WriteRequestPacket,
};
use tftpeer::shared::{
    parse_udp_packet, Deserializable, Serializable, TFTPPacket, TFTPParseError, OP_ACK, OP_DATA,
    OP_ERR, OP_RRQ, OP_WRQ,
};

const FILE_NAME: &str = "a.txt";
const MODE: &str = "octet";

#[test]
fn err_packet_serialize_ack_packet() {
    let err_msg = "error message\0";
    let p = ErrorPacket::new_custom(String::from(err_msg));
    let msg_bytes = &mut Vec::from(err_msg.as_bytes());
    let mut serialized = vec![0, 5, 0, 0];
    serialized.append(msg_bytes);

    assert_eq!(p.serialize(), serialized);

    let p = ErrorPacket::new(TFTPError::IllegalOperation);
    let (code, err) = get_err_details(TFTPError::IllegalOperation);
    let msg_bytes = &mut Vec::from(err.as_bytes());
    let mut serialized = vec![0, 5, 0, code as u8];
    serialized.append(msg_bytes);

    assert_eq!(p.serialize(), serialized);
}

#[test]
fn err_packet_deserialize_ack_packet() {
    let err_msg = "error message\0";
    let err_code: u16 = 5;
    let mut buf = Vec::new();
    let msg_bytes = &mut Vec::from(err_msg.as_bytes());
    buf.write_u16::<NetworkEndian>(OP_ERR).unwrap();
    buf.write_u16::<NetworkEndian>(err_code).unwrap();
    buf.write_all(msg_bytes.as_slice()).unwrap();

    if let TFTPPacket::ERR(p) = ErrorPacket::deserialize(&mut buf).unwrap() {
        assert_eq!(p.op(), OP_ERR);
        assert_eq!(p.code(), err_code);
        assert_eq!(p.err(), err_msg);
    } else {
        panic!("Invalid type")
    }

    let (err_code, err_msg) = get_err_details(TFTPError::IllegalOperation);
    let mut buf = Vec::new();
    let msg_bytes = &mut Vec::from(err_msg.as_bytes());
    buf.write_u16::<NetworkEndian>(OP_ERR).unwrap();
    buf.write_u16::<NetworkEndian>(err_code).unwrap();
    buf.write_all(msg_bytes.as_slice()).unwrap();

    if let TFTPPacket::ERR(p) = ErrorPacket::deserialize(&mut buf).unwrap() {
        assert_eq!(p.op(), OP_ERR);
        assert_eq!(p.code(), err_code);
        assert_eq!(p.err(), err_msg);
    } else {
        panic!("Invalid type")
    }
}

#[test]
fn err_packet_deserialize_error() {
    let err_msg = "error message\0";
    let err_code: u16 = 5;

    let mut buf = Vec::new();
    let msg_bytes = &mut Vec::from(err_msg.as_bytes());
    let bad_op = OP_ERR + 1;
    buf.write_u16::<NetworkEndian>(bad_op).unwrap();
    buf.write_u16::<NetworkEndian>(err_code).unwrap();
    buf.write_all(msg_bytes.as_slice()).unwrap();

    let p = ErrorPacket::deserialize(&mut buf).unwrap_err();
    assert_eq!(p.details(), format!("Bad OP code! [{}]", bad_op).as_str())
}

#[test]
fn ack_packet_serialize_ack_packet() {
    let blk = 42;
    let p = AckPacket::new(blk);

    let mut buf: Vec<u8> = Vec::new();
    buf.write_u16::<NetworkEndian>(OP_ACK).unwrap();
    buf.write_u16::<NetworkEndian>(blk).unwrap();

    assert_eq!(p.serialize(), buf);
}

#[test]
fn ack_packet_deserialize_ack_packet() {
    let blk = 42;
    let mut buf: Vec<u8> = Vec::new();
    buf.write_u16::<NetworkEndian>(OP_ACK).unwrap();
    buf.write_u16::<NetworkEndian>(blk).unwrap();

    let p = AckPacket::new(blk);
    if let TFTPPacket::ACK(d) = AckPacket::deserialize(&mut buf).unwrap() {
        assert_eq!(d, p);
    } else {
        panic!("Invalid type")
    }
}

#[test]
fn ack_packet_deserialize_error() {
    let blk = 42;
    let bad_op = OP_ACK + 1;
    let mut buf: Vec<u8> = Vec::new();
    buf.write_u16::<NetworkEndian>(bad_op).unwrap();
    buf.write_u16::<NetworkEndian>(blk).unwrap();

    let p = AckPacket::deserialize(&mut buf).unwrap_err();
    assert_eq!(p.details(), format!("Bad OP code! [{}]", bad_op).as_str())
}

#[test]
fn serialize_data_packet() {
    let p = DataPacket::new(0x0102, vec![9, 8, 7]);
    assert_eq!(p.op(), OP_DATA);
    assert_eq!(p.blk(), 0x0102);
    assert_eq!(p.data_length(), 3);
    assert_eq!(p.serialize(), vec![0, 3, 1, 2, 9, 8, 7]);
    assert_eq!(DataPacket::new(65535, Vec::new()).serialize(), vec![0, 3, 255, 255]);
}

#[test]
fn deserialize_data_packet() {
    let buf: Vec<u8> = vec![0, 3, 1, 2, 9, 8, 7];
    if let TFTPPacket::DATA(p) = DataPacket::deserialize(&buf).unwrap() {
        assert_eq!(p.blk(), 0x0102);
        assert_eq!(p.data(), vec![9, 8, 7]);
    } else {
        panic!("Invalid type")
    }
    let mut full: Vec<u8> = vec![0, 3, 0, 1];
    full.extend(std::iter::repeat(0xAB).take(512));
    if let TFTPPacket::DATA(p) = DataPacket::deserialize(&full).unwrap() {
        assert_eq!(p.data_length(), 512);
    } else {
        panic!("Invalid type")
    }
    if let TFTPPacket::DATA(p) = DataPacket::deserialize(&[0, 3, 0, 0]).unwrap() {
        assert_eq!(p.blk(), 0);
        assert_eq!(p.data_length(), 0);
    } else {
        panic!("Invalid type")
    }
}

#[test]
fn data_packet_deserialize_error() {
    let p = DataPacket::deserialize(&[0, 4, 0, 1, 5]).unwrap_err();
    assert_eq!(p, TFTPParseError::new("Bad OP code!"));
    let mut long: Vec<u8> = vec![0, 3, 0, 1];
    long.extend(std::iter::repeat(1).take(513));
    let p = DataPacket::deserialize(&long).unwrap_err();
    assert_eq!(p.details(), "Invalid data length");
    let p = DataPacket::deserialize(&[0, 3, 0]).unwrap_err();
    assert_eq!(p.details(), "Truncated packet");
    let p = DataPacket::deserialize(&[3]).unwrap_err();
    assert_eq!(p.details(), "Truncated packet");
}

#[test]
fn serialize_rrq() {
    let p = RequestPacket::new(OP_RRQ, FILE_NAME, MODE);
    let bytes: Vec<u8> = vec![
        0x0, 0x1, 0x61, 0x2E, 0x74, 0x78, 0x74, 0x0, 0x6F, 0x63, 0x74, 0x65, 0x74, 0x0,
    ];
    assert_eq!(bytes, p.serialize());
}

#[test]
fn serialize_wrq() {
    let p = RequestPacket::new(OP_WRQ, FILE_NAME, MODE);
    let bytes: Vec<u8> = vec![
        0x0, 0x2, 0x61, 0x2E, 0x74, 0x78, 0x74, 0x0, 0x6F, 0x63, 0x74, 0x65, 0x74, 0x0,
    ];
    assert_eq!(bytes, p.serialize());
}

#[test]
fn deserialize_rrq() {
    let mut bytes: Vec<u8> = vec![
        0x0, 0x1, 0x61, 0x2E, 0x74, 0x78, 0x74, 0x0, 0x6F, 0x63, 0x74, 0x65, 0x74, 0x0,
    ];

    if let TFTPPacket::RRQ(p) = RequestPacket::deserialize(&mut bytes).unwrap() {
        assert_eq!(p.op(), OP_RRQ);
        assert_eq!(p.filename(), "a.txt");
        assert_eq!(p.mode(), "octet");
    } else {
        panic!("Wrong packet type")
    }
}

#[test]
fn deserialize_bad_op() {
    let mut bytes: Vec<u8> = vec![
        0x0, 0x61, 0x2E, 0x74, 0x78, 0x74, 0x0, 0x6F, 0x63, 0x74, 0x65, 0x74, 0x0,
    ];
    let p = RequestPacket::deserialize(&mut bytes).err().unwrap();
    assert_eq!(p, TFTPParseError::new("Bad OP code!"));
}

#[test]
fn deserialize_wrq() {
    let bytes: Vec<u8> = vec![0, 2, b'b', 0, b'n', b'e', b't', b'a', b's', b'c', b'i', b'i', 0];
    if let TFTPPacket::WRQ(p) = WriteRequestPacket::deserialize(&bytes).unwrap() {
        assert_eq!(p.op(), OP_WRQ);
        assert_eq!(p.filename(), "b");
        assert_eq!(p.mode(), "netascii");
    } else {
        panic!("Wrong packet type")
    }
}

#[test]
fn typed_requests_serialize_under_their_opcode() {
    assert_eq!(
        ReadRequestPacket::new("f", "m").serialize(),
        vec![0, 1, b'f', 0, b'm', 0]
    );
    assert_eq!(
        WriteRequestPacket::new("f", "m").serialize(),
        vec![0, 2, b'f', 0, b'm', 0]
    );
    assert_eq!(RequestPacket::new(0x0807, "f", "m").serialize(), vec![8, 7, b'f', 0, b'm', 0]);
}

#[test]
fn request_decoder_guards_the_opcode() {
    let rrq = ReadRequestPacket::new("f", "m").serialize();
    let wrq = WriteRequestPacket::new("f", "m").serialize();
    assert_eq!(
        ReadRequestPacket::deserialize(&wrq).unwrap_err().details(),
        "Bad OP code!"
    );
    assert_eq!(
        WriteRequestPacket::deserialize(&rrq).unwrap_err().details(),
        "Bad OP code!"
    );
    assert!(matches!(RequestPacket::deserialize(&wrq), Ok(TFTPPacket::WRQ(_))));
    assert!(matches!(ReadRequestPacket::deserialize(&rrq), Ok(TFTPPacket::RRQ(_))));
    assert_eq!(
        AckPacket::deserialize(&rrq).unwrap_err().details(),
        "Bad OP code! [1]"
    );
    assert_eq!(
        ErrorPacket::deserialize(&[0xFF, 0xFF, 0, 0]).unwrap_err().details(),
        "Bad OP code! [65535]"
    );
    assert_eq!(
        AckPacket::deserialize(&[0, 0, 0, 0]).unwrap_err().details(),
        "Bad OP code! [0]"
    );
    assert_eq!(
        AckPacket::deserialize(&[1, 4, 0, 0]).unwrap_err().details(),
        "Bad OP code! [260]"
    );
}

#[test]
fn request_with_missing_fields_fails() {
    for bytes in [
        vec![0u8, 1],
        vec![0, 1, 0],
        vec![0, 1, 0, 0, 0],
        vec![0, 1, b'a', 0],
        vec![0, 1, b'a'],
        vec![0, 2, 0, 0, b'a', 0, 0],
    ] {
        let e = RequestPacket::deserialize(&bytes).unwrap_err();
        assert_eq!(e.details(), "Missing file name or mode");
        assert_eq!(parse_udp_packet(&bytes).unwrap_err().details(), "Missing file name or mode");
    }
    assert_eq!(RequestPacket::deserialize(&[1]).unwrap_err().details(), "Truncated packet");
    assert_eq!(RequestPacket::deserialize(&[]).unwrap_err().details(), "Truncated packet");
}

#[test]
fn request_skips_empty_segments_and_ignores_further_fields() {
    let bytes = vec![0u8, 1, 0, 0, b'a', 0, 0, 0, b'm', b'x', 0, b'z', 0];
    if let TFTPPacket::RRQ(p) = parse_udp_packet(&bytes).unwrap() {
        assert_eq!(p.filename(), "a");
        assert_eq!(p.mode(), "mx");
    } else {
        panic!("Wrong packet type")
    }
    let unterminated = vec![0u8, 2, b'a', 0, b'm'];
    if let TFTPPacket::WRQ(p) = parse_udp_packet(&unterminated).unwrap() {
        assert_eq!(p.filename(), "a");
        assert_eq!(p.mode(), "m");
    } else {
        panic!("Wrong packet type")
    }
}

#[test]
fn text_that_is_not_utf8_fails() {
    let bytes = vec![0u8, 1, 0xFF, 0xFE, 0, b'm', 0];
    assert_eq!(RequestPacket::deserialize(&bytes).unwrap_err().details(), "Invalid text");
    let bytes = vec![0u8, 1, b'a', 0, 0xC3, 0];
    assert_eq!(RequestPacket::deserialize(&bytes).unwrap_err().details(), "Invalid text");
    let bytes = vec![0u8, 5, 0, 1, 0x80, 0];
    assert_eq!(ErrorPacket::deserialize(&bytes).unwrap_err().details(), "Invalid text");
}

#[test]
fn text_beyond_ascii_round_trips() {
    let name = "d\u{e9}j\u{e0}/\u{6587}\u{4ef6}.txt";
    let bytes = ReadRequestPacket::new(name, "octet").serialize();
    if let TFTPPacket::RRQ(p) = parse_udp_packet(&bytes).unwrap() {
        assert_eq!(p.filename(), name);
        assert_eq!(p.mode(), "octet");
    } else {
        panic!("Wrong packet type")
    }
}

#[test]
fn parse_udp_packet_dispatches_on_the_opcode() {
    assert_eq!(
        parse_udp_packet(&[0, 4, 0x12, 0x34]).unwrap(),
        TFTPPacket::ACK(AckPacket::new(0x1234))
    );
    assert_eq!(
        parse_udp_packet(&[0, 3, 0, 7, 1, 2]).unwrap(),
        TFTPPacket::DATA(DataPacket::new(7, vec![1, 2]))
    );
    assert_eq!(
        parse_udp_packet(&[0, 1, b'a', 0, b'b', 0]).unwrap(),
        TFTPPacket::RRQ(ReadRequestPacket::new("a", "b"))
    );
    assert_eq!(
        parse_udp_packet(&[0, 2, b'a', 0, b'b', 0]).unwrap(),
        TFTPPacket::WRQ(WriteRequestPacket::new("a", "b"))
    );
    assert_eq!(
        parse_udp_packet(&[0, 5, 0, 3, b'x', 0]).unwrap(),
        TFTPPacket::ERR(ErrorPacket::deserialize(&[0, 5, 0, 3, b'x', 0]).map(|p| match p {
            TFTPPacket::ERR(e) => e,
            _ => panic!("Invalid type"),
        }).unwrap())
    );
    assert_eq!(parse_udp_packet(&[0, 6, 0, 0]).unwrap_err().details(), "Invalid opcode [6]");
    assert_eq!(parse_udp_packet(&[0, 0]).unwrap_err().details(), "Invalid opcode [0]");
    assert_eq!(parse_udp_packet(&[0x30, 0x39]).unwrap_err().details(), "Invalid opcode [12345]");
    assert_eq!(parse_udp_packet(&[4]).unwrap_err().details(), "Truncated packet");
    assert_eq!(parse_udp_packet(&[0, 4, 1]).unwrap_err().details(), "Truncated packet");
    assert_eq!(parse_udp_packet(&[0, 5, 1]).unwrap_err().details(), "Truncated packet");
}

#[test]
fn ack_ignores_trailing_bytes() {
    assert_eq!(
        parse_udp_packet(&[0, 4, 0, 9, 1, 2, 3]).unwrap(),
        TFTPPacket::ACK(AckPacket::new(9))
    );
}

#[test]
fn error_message_gets_one_closing_nul() {
    let open = ErrorPacket::new_custom(String::from("boom"));
    assert_eq!(open.code(), 0);
    assert_eq!(open.err(), "boom");
    let bytes = open.serialize();
    assert_eq!(bytes, vec![0, 5, 0, 0, b'b', b'o', b'o', b'm', 0]);
    if let TFTPPacket::ERR(p) = parse_udp_packet(&bytes).unwrap() {
        assert_eq!(p.code(), 0);
        assert_eq!(p.err(), "boom\0");
        assert_eq!(p.serialize(), bytes);
    } else {
        panic!("Invalid type")
    }
    let empty = ErrorPacket::new_custom(String::new()).serialize();
    assert_eq!(empty, vec![0, 5, 0, 0, 0]);
    if let TFTPPacket::ERR(p) = parse_udp_packet(&[0, 5, 0, 9]).unwrap() {
        assert_eq!(p.code(), 9);
        assert_eq!(p.err(), "");
    } else {
        panic!("Invalid type")
    }
}

#[test]
fn error_kinds_have_their_codes_and_messages() {
    let table: [(TFTPError, u16, &str); 7] = [
        (TFTPError::UndefinedError, 0, "Not defined, see error message (if any).\0"),
        (TFTPError::FileNotFound, 1, "File not found.\0"),
        (TFTPError::AccessViolation, 2, "Access violation.\0"),
        (TFTPError::DiskFull, 3, "Disk full or allocation exceeded.\0"),
        (TFTPError::IllegalOperation, 4, "Illegal TFTP operation.\0"),
        (TFTPError::UnknownTID, 5, "Unknown transfer ID.\0"),
        (TFTPError::FileExists, 6, "File already exists.\0"),
    ];
    for (kind, code, text) in table {
        assert_eq!(get_err_details(kind), (code, String::from(text)));
        let (k, t) = get_err_by_code(code);
        assert_eq!(k, kind);
        assert_eq!(t, text);
        let p = ErrorPacket::new(kind);
        assert_eq!(p.code(), code);
        assert_eq!(p.err(), text);
        let bytes = p.serialize();
        assert_eq!(&bytes[..4], &[0, 5, 0, code as u8]);
        assert_eq!(&bytes[4..], text.as_bytes());
        assert_eq!(parse_udp_packet(&bytes).unwrap(), TFTPPacket::ERR(ErrorPacket::new(kind)));
    }
}

#[test]
fn every_kind_round_trips() {
    for blk in [0u16, 1, 255, 256, 4660, 65535] {
        let bytes = AckPacket::new(blk).serialize();
        assert_eq!(parse_udp_packet(&bytes).unwrap(), TFTPPacket::ACK(AckPacket::new(blk)));
        for len in [0usize, 1, 511, 512] {
            let payload: Vec<u8> = (0..len).map(|i| (i % 251) as u8).collect();
            let bytes = DataPacket::new(blk, payload.clone()).serialize();
            assert_eq!(bytes.len(), 4 + len);
            assert_eq!(
                parse_udp_packet(&bytes).unwrap(),
                TFTPPacket::DATA(DataPacket::new(blk, payload))
            );
        }
    }
    let bytes = WriteRequestPacket::new("dir/file.bin", "netascii").serialize();
    assert_eq!(
        parse_udp_packet(&bytes).unwrap(),
        TFTPPacket::WRQ(WriteRequestPacket::new("dir/file.bin", "netascii"))
    );
}

#[test]
fn parse_error_message_names_the_failure() {
    let e = TFTPParseError::new("Bad OP code!");
    assert_eq!(e.details(), "Bad OP code!");
    assert_eq!(e.message(), "Failed to parse packet: Bad OP code!");
    assert_eq!(TFTPParseError::bad_op(70).details(), "Bad OP code! [70]");
    assert_eq!(TFTPParseError::invalid_op(9).details(), "Invalid opcode [9]");
}
