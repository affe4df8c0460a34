use tftpeer::shared::ack_packet::AckPacket;
use tftpeer::shared::data_channel::{
    contains_parent_segment, DataChannel, DataChannelMode, DataChannelOwner, DataChannelState,
    FileProbe,
};
use tftpeer::shared::data_packet::DataPacket;
use tftpeer::shared::err_packet::{ErrorPacket, TFTPError};
use tftpeer::shared::{parse_udp_packet, Serializable, TFTPPacket};

fn absent() -> FileProbe {
    FileProbe {
        exists: false,
        is_dir: false,
        has_file_name: true,
        is_absolute: false,
        size: 0,
        open_error: None,
    }
}

fn present(size: u64) -> FileProbe {
    FileProbe {
        exists: true,
        is_dir: false,
        has_file_name: true,
        is_absolute: false,
        size,
        open_error: None,
    }
}

fn sender(size: u64, owner: DataChannelOwner) -> DataChannel {
    DataChannel::new("a.txt", DataChannelMode::Tx, owner, &present(size)).unwrap()
}

fn receiver(owner: DataChannelOwner) -> DataChannel {
    DataChannel::new("a.txt", DataChannelMode::Rx, owner, &absent()).unwrap()
}

fn refused(name: &str, mode: DataChannelMode, owner: DataChannelOwner, probe: FileProbe) -> ErrorPacket {
    match DataChannel::new(name, mode, owner, &probe) {
        Ok(_) => panic!("the transfer was not refused"),
        Err(packet) => packet,
    }
}

/// Sends a file of `len` bytes through a channel of a server and returns the
/// payload lengths of the data packets that went out.
fn lengths_sent(len: usize) -> Vec<usize> {
    let file: Vec<u8> = (0..len).map(|i| (i % 253) as u8).collect();
    let mut channel = sender(len as u64, DataChannelOwner::Server);
    let mut sent = Vec::new();
    let mut offset = 0;
    let mut received = Vec::new();
    while !channel.is_done() {
        assert!(channel.needs_data());
        let end = usize::min(offset + 512, len);
        channel.send_data(&file[offset..end]);
        offset = end;
        let bytes = channel.packet_at_hand().unwrap();
        let blk = match parse_udp_packet(&bytes).unwrap() {
            TFTPPacket::DATA(p) => {
                assert_eq!(p.blk() as usize, sent.len() + 1);
                assert_eq!(p.blk(), channel.blk());
                let blk = p.blk();
                let data = p.data();
                sent.push(data.len());
                received.extend(data);
                blk
            }
            _ => panic!("Invalid type"),
        };
        channel.on_ack(AckPacket::new(blk));
    }
    assert_eq!(received, file);
    assert_eq!(channel.transfer_size(), len);
    assert!(!channel.is_err());
    sent
}

#[test]
fn initial_state_follows_mode_and_owner() {
    assert_eq!(
        DataChannel::compute_initial_state(DataChannelMode::Tx, DataChannelOwner::Client),
        (0, DataChannelState::WaitAck)
    );
    assert_eq!(
        DataChannel::compute_initial_state(DataChannelMode::Tx, DataChannelOwner::Server),
        (0, DataChannelState::SendData)
    );
    assert_eq!(
        DataChannel::compute_initial_state(DataChannelMode::Rx, DataChannelOwner::Client),
        (1, DataChannelState::WaitData)
    );
    assert_eq!(
        DataChannel::compute_initial_state(DataChannelMode::Rx, DataChannelOwner::Server),
        (0, DataChannelState::SendAck)
    );
}

#[test]
fn new_channels_start_as_their_role_asks() {
    let mut c = sender(10, DataChannelOwner::Client);
    assert_eq!((c.blk(), c.state()), (0, DataChannelState::WaitAck));
    assert_eq!(c.packet_at_hand(), None);
    assert_eq!(c.transfer_size(), 0);

    let mut c = sender(10, DataChannelOwner::Server);
    assert_eq!((c.blk(), c.state()), (1, DataChannelState::SendData));
    assert!(c.needs_data());
    assert_eq!(c.packet_at_hand(), None);

    let mut c = receiver(DataChannelOwner::Client);
    assert_eq!((c.blk(), c.state()), (1, DataChannelState::WaitData));
    assert_eq!(c.packet_at_hand(), None);

    let mut c = receiver(DataChannelOwner::Server);
    assert_eq!((c.blk(), c.state()), (1, DataChannelState::WaitData));
    assert_eq!(c.packet_at_hand(), Some(vec![0, 4, 0, 0]));
    assert!(!c.is_done());
    assert!(!c.is_err());
}

#[test]
fn missing_source_is_file_not_found() {
    for owner in [DataChannelOwner::Server, DataChannelOwner::Client] {
        let p = refused("a.txt", DataChannelMode::Tx, owner, absent());
        assert_eq!(p, ErrorPacket::new(TFTPError::FileNotFound));
        assert_eq!(p.code(), 1);
    }
}

#[test]
fn empty_source_is_refused_in_the_words_of_the_role() {
    let p = refused("a.txt", DataChannelMode::Tx, DataChannelOwner::Server, present(0));
    assert_eq!((p.code(), p.err()), (0, "Requested file is empty."));
    let p = refused("a.txt", DataChannelMode::Tx, DataChannelOwner::Client, present(0));
    assert_eq!((p.code(), p.err()), (0, "Transmitted file is empty."));
}

#[test]
fn unreadable_source_is_refused_with_the_reason() {
    let mut probe = present(12);
    probe.open_error = Some(String::from("Permission denied (os error 13)"));
    let p = refused("a.txt", DataChannelMode::Tx, DataChannelOwner::Server, probe);
    assert_eq!((p.code(), p.err()), (0, "Permission denied (os error 13)"));
}

#[test]
fn existing_target_is_refused_by_the_server_only() {
    let p = refused("a.txt", DataChannelMode::Rx, DataChannelOwner::Server, present(3));
    assert_eq!(p, ErrorPacket::new(TFTPError::FileExists));
    assert_eq!(p.code(), 6);
    assert!(DataChannel::new(
        "a.txt",
        DataChannelMode::Rx,
        DataChannelOwner::Client,
        &present(3)
    )
    .is_ok());
}

#[test]
fn bad_target_paths_are_refused() {
    let mut dir = present(0);
    dir.is_dir = true;
    let p = refused("d", DataChannelMode::Rx, DataChannelOwner::Client, dir);
    assert_eq!((p.code(), p.err()), (0, "Can't write a directory"));

    let mut nameless = absent();
    nameless.has_file_name = false;
    let p = refused("d/..", DataChannelMode::Rx, DataChannelOwner::Server, nameless);
    assert_eq!(p.err(), "Can't write a directory");

    let p = refused("../a.txt", DataChannelMode::Rx, DataChannelOwner::Server, absent());
    assert_eq!((p.code(), p.err()), (0, "Only absolute paths are allowed."));
    let p = refused("a/../b.txt", DataChannelMode::Rx, DataChannelOwner::Client, absent());
    assert_eq!(p.err(), "Only absolute paths are allowed.");

    let mut rooted = absent();
    rooted.is_absolute = true;
    let p = refused("/etc/a.txt", DataChannelMode::Rx, DataChannelOwner::Server, rooted);
    assert_eq!((p.code(), p.err()), (0, "File path must not start with root."));

    assert!(DataChannel::new(
        "sub/dir/a.b.txt",
        DataChannelMode::Rx,
        DataChannelOwner::Server,
        &absent()
    )
    .is_ok());
}

#[test]
fn parent_segments_are_found() {
    assert!(contains_parent_segment(".."));
    assert!(contains_parent_segment("../a"));
    assert!(contains_parent_segment("a/.."));
    assert!(contains_parent_segment("a/../b"));
    assert!(contains_parent_segment("a/b/../../c"));
    assert!(contains_parent_segment("/.."));
    assert!(contains_parent_segment("\u{e9}/../\u{e9}"));
    assert!(contains_parent_segment("a..b/.."));
}

#[test]
fn adjacent_full_stops_inside_a_name_are_no_parent_segment() {
    assert!(!contains_parent_segment(""));
    assert!(!contains_parent_segment("."));
    assert!(!contains_parent_segment("a.b.c"));
    assert!(!contains_parent_segment("./a/./b"));
    assert!(!contains_parent_segment("a..b"));
    assert!(!contains_parent_segment("a/b..c"));
    assert!(!contains_parent_segment("x.."));
    assert!(!contains_parent_segment("..x"));
    assert!(!contains_parent_segment("..."));
    assert!(!contains_parent_segment("a/.../b"));
    assert!(!contains_parent_segment("a/..b/c"));
    assert!(!contains_parent_segment("a/b../c"));
    assert!(!contains_parent_segment("\u{e9}..\u{e9}"));
}

#[test]
fn names_with_adjacent_full_stops_are_received() {
    for name in ["a..b", "a/b..c", "x..", "..x", "dir/archive..tar"] {
        for owner in [DataChannelOwner::Server, DataChannelOwner::Client] {
            let c = DataChannel::new(name, DataChannelMode::Rx, owner, &absent()).unwrap();
            assert_eq!(c.file_name(), name);
            assert!(!c.is_err());
        }
        assert!(DataChannel::validate_file_for_reception(
            name,
            &absent(),
            DataChannelOwner::Server
        )
        .is_ok());
    }
}

#[test]
fn awaited_full_block_is_acknowledged_and_the_next_awaited() {
    let mut c = receiver(DataChannelOwner::Client);
    let order = c.on_data(DataPacket::new(1, vec![7; 512])).unwrap();
    assert!(order.create);
    assert_eq!(order.data, vec![7; 512]);
    assert_eq!(c.state(), DataChannelState::WaitData);
    assert_eq!(c.blk(), 2);
    assert_eq!(c.transfer_size(), 512);
    assert_eq!(c.packet_at_hand(), Some(vec![0, 4, 0, 1]));
    assert_eq!(c.packet_at_hand(), Some(vec![0, 4, 0, 1]));
    assert_eq!(c.state(), DataChannelState::WaitData);

    let order = c.on_data(DataPacket::new(2, vec![8; 512])).unwrap();
    assert!(!order.create);
    assert_eq!(c.transfer_size(), 1024);
    assert_eq!(c.packet_at_hand(), Some(vec![0, 4, 0, 2]));
}

#[test]
fn awaited_short_block_is_the_last() {
    for len in [0usize, 1, 18, 511, 513] {
        let mut c = receiver(DataChannelOwner::Client);
        let order = c.on_data(DataPacket::new(1, vec![1; len])).unwrap();
        assert_eq!(order.data.len(), len);
        assert_eq!(c.state(), DataChannelState::SendLastAck);
        assert!(!c.is_done());
        assert_eq!(c.transfer_size(), len);
        assert_eq!(c.packet_at_hand(), Some(vec![0, 4, 0, 1]));
        assert_eq!(c.state(), DataChannelState::Done);
        assert!(c.is_done());
        assert!(!c.is_err());
    }
}

#[test]
fn block_out_of_sequence_is_fatal() {
    let mut c = receiver(DataChannelOwner::Client);
    assert!(c.on_data(DataPacket::new(7, vec![1, 2, 3])).is_none());
    assert_eq!(c.state(), DataChannelState::Error);
    assert!(c.is_err());
    assert!(!c.is_done());
    assert_eq!(c.blk(), 1);
    assert_eq!(c.transfer_size(), 0);
    let expected = ErrorPacket::new(TFTPError::IllegalOperation).serialize();
    assert_eq!(c.packet_at_hand(), Some(expected.clone()));
    assert_eq!(c.packet_at_hand(), Some(expected));
    assert_eq!(c.state(), DataChannelState::Error);
    assert_eq!(c.err(), "Invalid block number [7] expected [1]");
}

#[test]
fn error_state_and_error_message_go_together() {
    let mut c = receiver(DataChannelOwner::Client);
    assert!(!c.is_err());
    assert_eq!(c.error_text(), None);
    assert!(c.on_data(DataPacket::new(1, vec![0; 512])).is_some());
    assert!(!c.is_err());
    assert_eq!(c.state(), DataChannelState::WaitData);
    assert!(c.on_data(DataPacket::new(2, vec![0; 3])).is_some());
    assert!(!c.is_err());
    assert_eq!(c.state(), DataChannelState::SendLastAck);
    assert!(c.packet_at_hand().is_some());
    assert!(c.is_done());
    assert!(!c.is_err());

    let mut c = receiver(DataChannelOwner::Server);
    assert!(c.on_data(DataPacket::new(0, vec![0; 512])).is_none());
    assert!(c.is_err());
    assert_eq!(c.state(), DataChannelState::Error);
    assert_eq!((c.blk(), c.transfer_size()), (1, 0));
}

#[test]
fn acknowledgement_out_of_sequence_is_fatal() {
    let mut c = sender(600, DataChannelOwner::Client);
    c.on_ack(AckPacket::new(65535));
    assert_eq!(c.state(), DataChannelState::Error);
    assert_eq!(
        c.packet_at_hand(),
        Some(ErrorPacket::new(TFTPError::IllegalOperation).serialize())
    );
    assert_eq!(c.err(), "Invalid block number [65535] expected [0]");
}

#[test]
fn block_numbers_wrap_around() {
    let mut c = receiver(DataChannelOwner::Client);
    let mut blk: u16 = 1;
    for _ in 0..65535 {
        assert!(c.on_data(DataPacket::new(blk, vec![0; 512])).is_some());
        blk = blk.wrapping_add(1);
    }
    assert_eq!(blk, 0);
    assert_eq!(c.blk(), 0);
    assert_eq!(c.state(), DataChannelState::WaitData);
    assert_eq!(c.packet_at_hand(), Some(vec![0, 4, 255, 255]));
    assert!(c.on_data(DataPacket::new(0, vec![0; 512])).is_some());
    assert_eq!(c.blk(), 1);
    assert_eq!(c.packet_at_hand(), Some(vec![0, 4, 0, 0]));
    assert_eq!(c.transfer_size(), 65536 * 512);
}

#[test]
fn file_of_whole_blocks_ends_with_one_empty_block() {
    assert_eq!(lengths_sent(512), vec![512, 0]);
    assert_eq!(lengths_sent(1024), vec![512, 512, 0]);
    assert_eq!(lengths_sent(5 * 512), vec![512, 512, 512, 512, 512, 0]);
}

#[test]
fn file_with_a_rest_ends_with_a_short_block() {
    assert_eq!(lengths_sent(1), vec![1]);
    assert_eq!(lengths_sent(511), vec![511]);
    assert_eq!(lengths_sent(513), vec![512, 1]);
    assert_eq!(lengths_sent(530), vec![512, 18]);
    assert_eq!(lengths_sent(3 * 512 + 100), vec![512, 512, 512, 100]);
}

#[test]
fn sender_states_follow_the_blocks() {
    let mut c = sender(1024, DataChannelOwner::Server);
    c.send_data(&[1; 512]);
    assert_eq!(c.state(), DataChannelState::WaitAck);
    let mut first = vec![0, 3, 0, 1];
    first.extend([1; 512]);
    assert_eq!(c.packet_at_hand(), Some(first));
    c.on_ack(AckPacket::new(1));
    assert_eq!((c.state(), c.blk()), (DataChannelState::SendData, 2));
    c.send_data(&[2; 512]);
    assert_eq!(c.state(), DataChannelState::WaitAck);
    c.on_ack(AckPacket::new(2));
    c.send_data(&[]);
    assert_eq!(c.state(), DataChannelState::WaitLastAck);
    assert_eq!(c.packet_at_hand(), Some(vec![0, 3, 0, 3]));
    assert_eq!(c.transfer_size(), 1024);
    c.on_ack(AckPacket::new(3));
    assert_eq!(c.state(), DataChannelState::Done);
    assert_eq!(c.blk(), 4);
}

#[test]
fn exhausted_file_with_a_rest_is_done_without_a_packet() {
    let mut c = sender(100, DataChannelOwner::Server);
    c.send_data(&[5; 512]);
    assert_eq!(c.state(), DataChannelState::WaitAck);
    c.on_ack(AckPacket::new(1));
    c.send_data(&[]);
    assert_eq!(c.state(), DataChannelState::Done);
    assert_eq!(c.transfer_size(), 512);
}

#[test]
fn channel_tells_what_it_holds() {
    let mut c = DataChannel::new(
        "dir/a.txt",
        DataChannelMode::Rx,
        DataChannelOwner::Client,
        &absent(),
    )
    .unwrap();
    assert_eq!(c.file_name(), "dir/a.txt");
    assert!(!c.has_packet());
    assert_eq!(c.error_text(), None);
    assert!(c.on_data(DataPacket::new(3, vec![1])).is_none());
    assert!(c.has_packet());
    assert_eq!(
        c.error_text(),
        Some(String::from("Invalid block number [3] expected [1]"))
    );
}
