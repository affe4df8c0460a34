//! What holds of every transfer that a channel drives.

use crate::shared::data_channel::{
    illegal_operation_wire, next_blk, ChannelView, DataChannelMode, DataChannelOwner,
    DataChannelState, FileProbe,
};
use crate::shared::{ack_wire, data_wire, STRIDE_SIZE};
use vstd::prelude::*;

verus! {

/// A channel is in `Error` exactly when it holds a message of what went
/// wrong: a new channel is in that way, and whatever the channel is handed
/// while it waits for it leaves it so.
pub proof fn lemma_error_is_kept(
    c: ChannelView,
    blk: u16,
    data: Seq<u8>,
    file_name: Seq<char>,
    mode: DataChannelMode,
    owner: DataChannelOwner,
    probe: FileProbe,
)
    requires
        c.coherent(),
    ensures
        ChannelView::opened(file_name, mode, owner, probe).coherent(),
        c.state == DataChannelState::WaitData ==> c.on_data(blk, data).coherent(),
        c.state == DataChannelState::WaitAck || c.state == DataChannelState::WaitLastAck
            ==> c.on_ack(blk).coherent(),
        c.state == DataChannelState::SendData ==> c.send_data(data).coherent(),
        c.state != DataChannelState::Done ==> c.packet_taken().coherent(),
{
}

/// A channel that awaits block N refuses a data packet with another block
/// number: it goes to `Error` and buffers an error packet of the kind
/// illegal operation. It takes a data packet with block N: a payload of a
/// full block asks for an acknowledgement, after which the next block is
/// awaited, and a shorter payload asks for the last acknowledgement. Either
/// way the acknowledgement of block N is buffered, and the channel, which
/// held no message of an error, holds none afterwards.
pub proof fn lemma_block_sequencing(c: ChannelView, blk: u16, data: Seq<u8>)
    requires
        c.state == DataChannelState::WaitData,
    ensures
        blk != c.blk ==> c.on_data(blk, data).state == DataChannelState::Error && c.on_data(
            blk,
            data,
        ).packet == Some(illegal_operation_wire()) && c.on_data(blk, data).error is Some,
        blk == c.blk && data.len() == STRIDE_SIZE ==> c.data_taken(data).state
            == DataChannelState::SendAck && c.on_data(blk, data).state
            == DataChannelState::WaitData,
        blk == c.blk && data.len() != STRIDE_SIZE ==> c.data_taken(data).state
            == DataChannelState::SendLastAck && c.on_data(blk, data).state
            == DataChannelState::SendLastAck,
        blk == c.blk ==> c.on_data(blk, data).packet == Some(ack_wire(blk)) && c.on_data(
            blk,
            data,
        ).blk == next_blk(blk) && c.on_data(blk, data).transferred == c.transferred + data.len(),
        blk != c.blk ==> c.on_data(blk, data).blk == c.blk && c.on_data(blk, data).transferred
            == c.transferred,
        blk == c.blk && c.coherent() ==> c.on_data(blk, data).error is None,
{
}

/// A channel that awaits an acknowledgement of block N refuses one of
/// another block as it refuses data out of sequence. The acknowledgement of
/// block N makes it ask for the next block of the file, or ends the
/// transfer where block N was the last.
pub proof fn lemma_ack_sequencing(c: ChannelView, blk: u16)
    requires
        c.state == DataChannelState::WaitAck || c.state == DataChannelState::WaitLastAck,
    ensures
        blk != c.blk ==> c.on_ack(blk).state == DataChannelState::Error && c.on_ack(blk).packet
            == Some(illegal_operation_wire()),
        blk == c.blk && c.state == DataChannelState::WaitAck ==> c.on_ack(blk).state
            == DataChannelState::SendData,
        blk == c.blk && c.state == DataChannelState::WaitLastAck ==> c.on_ack(blk).state
            == DataChannelState::Done,
{
}

/// Taking the packet to send from a channel that holds the last
/// acknowledgement ends the transfer, and the channel that results, being
/// done, hands out no packet again. Taking it in any other state changes
/// nothing, however often it is done.
pub proof fn lemma_last_ack_ends_transfer(c: ChannelView)
    requires
        c.state != DataChannelState::Done,
    ensures
        c.state == DataChannelState::SendLastAck ==> c.packet_taken().state
            == DataChannelState::Done,
        c.state != DataChannelState::SendLastAck ==> c.packet_taken() == c,
        c.packet_taken().packet == c.packet,
        c.packet_taken().state != DataChannelState::Done ==> c.packet_taken().packet_taken()
            == c.packet_taken(),
{
}

/// What a reader that has handed out the first `done` bytes of `file` hands
/// out next: a block, or what is left where that is less.
pub open spec fn next_chunk(file: Seq<u8>, done: nat) -> Seq<u8> {
    if done >= file.len() {
        Seq::empty()
    } else if done + STRIDE_SIZE <= file.len() {
        file.subrange(done as int, done + STRIDE_SIZE)
    } else {
        file.subrange(done as int, file.len() as int)
    }
}

/// The block number `n` blocks after `blk`.
pub open spec fn blk_after(blk: u16, n: nat) -> u16 {
    ((blk + n) % 65536) as u16
}

/// The channel `c` after `n` more blocks of `file` went out in order and
/// each was acknowledged.
pub open spec fn after_rounds(c: ChannelView, file: Seq<u8>, n: nat) -> ChannelView
    decreases n,
{
    if n == 0 {
        c
    } else {
        let before = after_rounds(c, file, (n - 1) as nat);
        let sent = before.send_data(next_chunk(file, before.transferred));
        sent.on_ack(sent.blk)
    }
}

/// Of a file of at least `n` full blocks, the first `n` data packets carry
/// the first `n` blocks, each of them full and in order, and after the
/// acknowledgement of each the channel asks for the next block.
pub proof fn lemma_full_blocks(c: ChannelView, file: Seq<u8>, n: nat)
    requires
        c.state == DataChannelState::SendData,
        c.transferred == 0,
        c.file_size == file.len(),
        n * 512 <= file.len(),
    ensures
        after_rounds(c, file, n).state == DataChannelState::SendData,
        after_rounds(c, file, n).transferred == n * 512,
        after_rounds(c, file, n).file_size == c.file_size,
        after_rounds(c, file, n).blk == blk_after(c.blk, n),
        n > 0 ==> after_rounds(c, file, n).packet == Some(
            data_wire(blk_after(c.blk, (n - 1) as nat), next_chunk(file, ((n - 1) * 512) as nat)),
        ),
        n > 0 ==> next_chunk(file, ((n - 1) * 512) as nat).len() == STRIDE_SIZE,
    decreases n,
{
    if n > 0 {
        lemma_full_blocks(c, file, (n - 1) as nat);
        let before = after_rounds(c, file, (n - 1) as nat);
        let chunk = next_chunk(file, before.transferred);
        assert(chunk == next_chunk(file, ((n - 1) * 512) as nat));
        assert(chunk.len() == STRIDE_SIZE);
        let sent = before.send_data(chunk);
        assert(sent.state == DataChannelState::WaitAck);
    }
}

/// A file of `k` full blocks and `r` more bytes, with `r` less than a block,
/// goes out as `k` full data packets and one last data packet of `r` bytes:
/// an empty one where the length of the file is a whole number of blocks.
/// The acknowledgement of that packet ends the transfer.
pub proof fn lemma_last_block(c: ChannelView, file: Seq<u8>)
    requires
        c.state == DataChannelState::SendData,
        c.transferred == 0,
        c.file_size == file.len(),
        file.len() > 0,
    ensures
        ({
            let k = file.len() / 512;
            let before = after_rounds(c, file, k);
            let sent = before.send_data(next_chunk(file, before.transferred));
            &&& before.state == DataChannelState::SendData
            &&& sent.state == DataChannelState::WaitLastAck
            &&& sent.packet == Some(data_wire(blk_after(c.blk, k), next_chunk(file, k * 512)))
            &&& next_chunk(file, k * 512).len() == file.len() % 512
            &&& sent.transferred == file.len()
            &&& sent.on_ack(sent.blk).state == DataChannelState::Done
        }),
{
    let k = file.len() / 512;
    lemma_full_blocks(c, file, k);
    let before = after_rounds(c, file, k);
    let chunk = next_chunk(file, before.transferred);
    assert(chunk == next_chunk(file, k * 512));
}

/// The channel `c` after the first `n` blocks of `file` arrived in order.
pub open spec fn after_blocks(c: ChannelView, file: Seq<u8>, n: nat) -> ChannelView
    decreases n,
{
    if n == 0 {
        c
    } else {
        let before = after_blocks(c, file, (n - 1) as nat);
        before.on_data(before.blk, next_chunk(file, ((n - 1) * 512) as nat))
    }
}

/// The first `n` blocks of `file`, one after the other.
pub open spec fn blocks_joined(file: Seq<u8>, n: nat) -> Seq<u8>
    decreases n,
{
    if n == 0 {
        Seq::empty()
    } else {
        blocks_joined(file, (n - 1) as nat) + next_chunk(file, ((n - 1) * 512) as nat)
    }
}

/// A receiver that took `n` full blocks of a file in order has counted
/// their bytes, holds the acknowledgement of the last of them, and awaits
/// the next block.
pub proof fn lemma_full_blocks_taken(c: ChannelView, file: Seq<u8>, n: nat)
    requires
        c.state == DataChannelState::WaitData,
        n * 512 <= file.len(),
    ensures
        after_blocks(c, file, n).state == DataChannelState::WaitData,
        after_blocks(c, file, n).transferred == c.transferred + n * 512,
        after_blocks(c, file, n).blk == blk_after(c.blk, n),
        n > 0 ==> after_blocks(c, file, n).packet == Some(
            ack_wire(blk_after(c.blk, (n - 1) as nat)),
        ),
    decreases n,
{
    if n > 0 {
        lemma_full_blocks_taken(c, file, (n - 1) as nat);
        assert(next_chunk(file, ((n - 1) * 512) as nat).len() == STRIDE_SIZE);
    }
}

/// A receiver that took all blocks of a file in order, the last of them
/// the one that is shorter than a block, has counted every byte of the
/// file and holds the last acknowledgement; handing that out ends the
/// transfer.
pub proof fn lemma_last_block_taken(c: ChannelView, file: Seq<u8>)
    requires
        c.state == DataChannelState::WaitData,
    ensures
        ({
            let k = file.len() / 512;
            let last = after_blocks(c, file, k + 1);
            &&& last.state == DataChannelState::SendLastAck
            &&& last.transferred == c.transferred + file.len()
            &&& last.packet == Some(ack_wire(blk_after(c.blk, k)))
            &&& last.packet_taken().state == DataChannelState::Done
        }),
{
    let k = file.len() / 512;
    lemma_full_blocks_taken(c, file, k);
    assert(next_chunk(file, k * 512).len() == file.len() % 512);
}

/// The blocks of a file, the last short one included, make up the file.
pub proof fn lemma_blocks_join(file: Seq<u8>, n: nat)
    requires
        n <= file.len() / 512 + 1,
    ensures
        n * 512 <= file.len() ==> blocks_joined(file, n) == file.take((n * 512) as int),
        n == file.len() / 512 + 1 ==> blocks_joined(file, n) == file,
    decreases n,
{
    if n > 0 {
        lemma_blocks_join(file, (n - 1) as nat);
        let done = ((n - 1) * 512) as nat;
        assert(blocks_joined(file, (n - 1) as nat) == file.take(done as int));
        if n * 512 <= file.len() {
            assert(file.take(done as int) + next_chunk(file, done) =~= file.take(
                (n * 512) as int,
            ));
        } else {
            assert(file.take(done as int) + next_chunk(file, done) =~= file);
        }
    } else {
        assert(blocks_joined(file, 0) =~= file.take(0));
    }
}

} // verus!
