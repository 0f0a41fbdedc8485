use crate::cancel::OpId;
use crate::error::OpError;
use crate::event::{Completion, Started};
use crate::lock::{holds, ops_of};
use crate::stream::{
    next_read, next_write, read_outcome, write_outcome, ReadDoneModel, StreamModel,
};
use vstd::prelude::*;

verus! {

/// Two reads on one stream do not overlap. Issued one after the other,
/// they stand in the line in that order, each with the buffer that the
/// caller handed in, and the second waits. On a closed stream both are
/// canceled at once and neither is pending.
pub proof fn lemma_second_read_waits_for_first(
    stream: StreamModel,
    first: OpId,
    buf1: Seq<u8>,
    second: OpId,
    buf2: Seq<u8>,
)
    ensures
        ({
            let (one, started1) = stream.read(first, buf1);
            let (two, started2) = one.read(second, buf2);
            if stream.closed {
                &&& two == stream
                &&& started1 == Err::<Started, OpError>(OpError::Canceled)
                &&& started2 == Err::<Started, OpError>(OpError::Canceled)
            } else {
                &&& started1 == Ok::<Started, OpError>(Started::Run) <==> stream.reads.len() == 0
                &&& started2 == Ok::<Started, OpError>(Started::Wait)
                &&& two.reads == stream.reads + seq![(first, buf1), (second, buf2)]
                &&& two.writes == stream.writes
            }
        }),
{
}

/// While a read is in flight, the read behind it cannot end, and its
/// buffer is as the caller handed it in. When the read in flight ends,
/// only its own buffer has been written to, and the read behind it is the
/// one that starts.
pub proof fn lemma_next_read_starts_when_the_first_ends(
    stream: StreamModel,
    io: Completion<Seq<u8>>,
)
    requires
        stream.reads.len() >= 2,
    ensures
        ({
            let (first, buf1) = stream.reads[0];
            let (second, buf2) = stream.reads[1];
            let (after, done) = stream.read_done(first, io);
            &&& second != first ==> stream.read_done(second, io) == (stream, None::<ReadDoneModel>)
            &&& done is Some
            &&& done->Some_0.outcome == read_outcome(buf1, io)
            &&& done->Some_0.next == Some((second, buf2.len()))
            &&& after.reads == stream.reads.drop_first()
            &&& after.reads[0] == (second, buf2)
            &&& after.writes == stream.writes
        }),
{
}

/// No step on a stream but the end of the read in flight, and closing,
/// changes the line of reads before its end; a read that waits keeps its
/// buffer, byte for byte, until it is its turn.
pub proof fn lemma_waiting_read_is_untouched(
    stream: StreamModel,
    i: int,
    op: OpId,
    buf: Seq<u8>,
    len: usize,
    read_io: Completion<Seq<u8>>,
    write_io: Completion<usize>,
)
    requires
        1 <= i < stream.reads.len(),
    ensures
        stream.read(op, buf).0.reads[i] == stream.reads[i],
        stream.write(op, len).0.reads[i] == stream.reads[i],
        stream.write_done(op, write_io).0.reads[i] == stream.reads[i],
        stream.read_done(op, read_io).1 is None ==> stream.read_done(op, read_io).0.reads[i]
            == stream.reads[i],
        stream.read_done(op, read_io).1 is Some ==> stream.read_done(op, read_io).0.reads[i - 1]
            == stream.reads[i],
{
}

/// On each half of a stream one operation runs at a time: the head of the
/// line. An operation runs at once exactly when its line is empty; else it
/// waits and the holder stays; and when the holder ends, the next in line,
/// and no other, is told to run.
pub proof fn lemma_one_operation_runs_per_half(
    stream: StreamModel,
    op: OpId,
    buf: Seq<u8>,
    len: usize,
    read_io: Completion<Seq<u8>>,
    write_io: Completion<usize>,
)
    requires
        !stream.closed,
    ensures
        ({
            let (reading, started) = stream.read(op, buf);
            &&& started == Ok::<Started, OpError>(Started::Run) <==> stream.reads.len() == 0
            &&& started == Ok::<Started, OpError>(Started::Wait) <==> stream.reads.len() > 0
            &&& stream.reads.len() == 0 ==> holds(reading.reads, op)
            &&& stream.reads.len() > 0 ==> reading.reads[0] == stream.reads[0]
        }),
        ({
            let (writing, started) = stream.write(op, len);
            &&& started == Started::Run <==> stream.writes.len() == 0
            &&& stream.writes.len() == 0 ==> holds(writing.writes, op)
            &&& stream.writes.len() > 0 ==> writing.writes[0] == stream.writes[0]
        }),
        ({
            let (after, done) = stream.read_done(op, read_io);
            &&& done is Some <==> holds(stream.reads, op)
            &&& done is Some ==> done->Some_0.next == next_read(after.reads) && after.reads.len() + 1
                == stream.reads.len()
            &&& done is None ==> after == stream
        }),
        ({
            let (after, done) = stream.write_done(op, write_io);
            &&& done is Some <==> holds(stream.writes, op)
            &&& done is Some ==> done->Some_0.next == next_write(after.writes) && after.writes.len()
                + 1 == stream.writes.len()
            &&& done is None ==> after == stream
        }),
{
}

/// Where each pending operation of a half has an identifier of its own,
/// an operation ends once: after its end the stream gives no second result
/// for it.
pub proof fn lemma_each_operation_ends_once(
    stream: StreamModel,
    op: OpId,
    read_io: Completion<Seq<u8>>,
    again_read_io: Completion<Seq<u8>>,
    write_io: Completion<usize>,
    again_write_io: Completion<usize>,
)
    ensures
        ops_of(stream.reads).no_duplicates() && stream.read_done(op, read_io).1 is Some
            ==> stream.read_done(op, read_io).0.read_done(op, again_read_io).1 is None,
        ops_of(stream.writes).no_duplicates() && stream.write_done(op, write_io).1 is Some
            ==> stream.write_done(op, write_io).0.write_done(op, again_write_io).1 is None,
{
    if ops_of(stream.reads).no_duplicates() && holds(stream.reads, op) && stream.reads.len() > 1 {
        assert(ops_of(stream.reads)[0] != ops_of(stream.reads)[1]);
    }
    if ops_of(stream.writes).no_duplicates() && holds(stream.writes, op) && stream.writes.len()
        > 1 {
        assert(ops_of(stream.writes)[0] != ops_of(stream.writes)[1]);
    }
}

/// The result of a read leaves the buffer's length as it was, changes
/// only its front, and never reports more bytes than the buffer holds.
pub proof fn lemma_read_fills_in_place(buf: Seq<u8>, io: Completion<Seq<u8>>)
    ensures
        match read_outcome(buf, io) {
            Ok((count, filled)) => {
                &&& io matches Completion::Done(data)
                &&& count == data.len()
                &&& count <= buf.len()
                &&& filled.len() == buf.len()
                &&& filled.subrange(0, count as int) == data
                &&& filled.subrange(count as int, buf.len() as int) == buf.subrange(
                    count as int,
                    buf.len() as int,
                )
            },
            Err(e) => e == OpError::IoError,
        },
{
    match read_outcome(buf, io) {
        Ok((count, filled)) => {
            let data = io->Done_0;
            assert(filled.subrange(0, count as int) =~= data);
            assert(filled.subrange(count as int, buf.len() as int) =~= buf.subrange(
                count as int,
                buf.len() as int,
            ));
        },
        Err(_) => {},
    }
}

/// A write of `len` bytes ends with a count of at most `len`, the one
/// that the socket reported, or fails with `IoError`.
pub proof fn lemma_write_count_is_bounded(len: usize, io: Completion<usize>)
    ensures
        match write_outcome(len, io) {
            Ok(count) => count <= len && io == Completion::Done(count),
            Err(e) => e == OpError::IoError,
        },
{
}

/// Every step keeps a stream well formed: a closed stream never has a
/// pending read.
pub proof fn lemma_stream_steps_keep_wf(
    stream: StreamModel,
    op: OpId,
    buf: Seq<u8>,
    len: usize,
    read_io: Completion<Seq<u8>>,
    write_io: Completion<usize>,
)
    requires
        stream.wf(),
    ensures
        StreamModel::fresh().wf(),
        stream.read(op, buf).0.wf(),
        stream.read_done(op, read_io).0.wf(),
        stream.write(op, len).0.wf(),
        stream.write_done(op, write_io).0.wf(),
        stream.close().0.wf(),
        stream.close().0.close() == (stream.close().0, Seq::<(OpId, OpError)>::empty()),
{
}

} // verus!
