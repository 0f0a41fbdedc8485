use crate::cancel::{cancel_each, canceled_all, CancelToken, OpId, Race};
use crate::error::OpError;
use crate::event::{Completion, Started};
use crate::lock::{holds, ops_of, HalfLock};
use vstd::prelude::*;

verus! {

/// The end of a read: the result for the script, and the read that now
/// holds the read half, with the size of its buffer.
pub struct ReadDoneModel {
    pub outcome: Result<(nat, Seq<u8>), OpError>,
    pub next: Option<(OpId, nat)>,
}

/// The end of a read: the result for the script, and the read that now
/// holds the read half, with the size of its buffer.
#[derive(Debug)]
pub struct ReadDone {
    /// The number of bytes read and the caller's buffer, or the failure.
    pub outcome: Result<(usize, Vec<u8>), OpError>,
    /// The read whose work on the socket starts now, if one was waiting.
    pub next: Option<(OpId, usize)>,
}

impl View for ReadDone {
    type V = ReadDoneModel;

    open spec fn view(&self) -> ReadDoneModel {
        ReadDoneModel {
            outcome: match self.outcome {
                Ok((count, buf)) => Ok((count as nat, buf@)),
                Err(e) => Err(e),
            },
            next: match self.next {
                Some((op, len)) => Some((op, len as nat)),
                None => None,
            },
        }
    }
}

/// The end of a write: the result for the script, and the write that now
/// holds the write half, with the number of bytes it wants to send.
#[derive(Clone, Copy, Debug, PartialEq, Eq)]
pub struct WriteDone {
    /// The number of bytes written, or the failure.
    pub outcome: Result<usize, OpError>,
    /// The write whose work on the socket starts now, if one was waiting.
    pub next: Option<(OpId, usize)>,
}

/// The bytes that a completed read received.
pub open spec fn received(io: Completion<Vec<u8>>) -> Completion<Seq<u8>> {
    match io {
        Completion::Done(data) => Completion::Done(data@),
        Completion::Failed => Completion::Failed,
    }
}

/// The result of a read into `buf`. The bytes received overwrite the front
/// of the buffer; the rest of it, and its length, stay as they were. No
/// bytes received means that the peer has closed. More bytes than the buffer
/// holds cannot come from a sound transport and count as its failure.
pub open spec fn read_outcome(buf: Seq<u8>, io: Completion<Seq<u8>>) -> Result<
    (nat, Seq<u8>),
    OpError,
> {
    match io {
        Completion::Done(data) => if data.len() <= buf.len() {
            Ok((data.len(), data + buf.subrange(data.len() as int, buf.len() as int)))
        } else {
            Err(OpError::IoError)
        },
        Completion::Failed => Err(OpError::IoError),
    }
}

/// The result of a write of `len` bytes. A count above `len` cannot come
/// from a sound transport and counts as its failure.
pub open spec fn write_outcome(len: usize, io: Completion<usize>) -> Result<usize, OpError> {
    match io {
        Completion::Done(count) => if count <= len {
            Ok(count)
        } else {
            Err(OpError::IoError)
        },
        Completion::Failed => Err(OpError::IoError),
    }
}

/// The read at the head of a line, with the size of its buffer.
pub open spec fn next_read(reads: Seq<(OpId, Seq<u8>)>) -> Option<(OpId, nat)> {
    if reads.len() > 0 {
        Some((reads[0].0, reads[0].1.len()))
    } else {
        None
    }
}

/// The write at the head of a line, with the number of bytes it sends.
pub open spec fn next_write(writes: Seq<(OpId, usize)>) -> Option<(OpId, usize)> {
    if writes.len() > 0 {
        Some(writes[0])
    } else {
        None
    }
}

/// The mathematical state of a connected stream: the reads and the writes
/// that are pending on it, each line in the order of issue with the one in
/// flight first, and whether the stream has been closed.
pub struct StreamModel {
    /// Pending reads, each with the buffer that the caller handed in.
    pub reads: Seq<(OpId, Seq<u8>)>,
    /// Pending writes, each with the number of bytes to send.
    pub writes: Seq<(OpId, usize)>,
    pub closed: bool,
}

impl StreamModel {
    /// A closed stream has no pending read.
    pub open spec fn wf(self) -> bool {
        self.closed ==> self.reads.len() == 0
    }

    /// An open stream with nothing pending.
    pub open spec fn fresh() -> StreamModel {
        StreamModel { reads: Seq::empty(), writes: Seq::empty(), closed: false }
    }

    /// A closed stream whose writes have all finished.
    pub open spec fn drained(self) -> bool {
        self.closed && self.writes.len() == 0
    }

    /// Issues a read. On a closed stream it is canceled at once. Otherwise
    /// it joins the line of reads, and runs now if that line was empty.
    pub open spec fn read(self, op: OpId, buf: Seq<u8>) -> (StreamModel, Result<Started, OpError>) {
        if self.closed {
            (self, Err(OpError::Canceled))
        } else {
            (
                StreamModel {
                    reads: self.reads.push((op, buf)),
                    writes: self.writes,
                    closed: self.closed,
                },
                Ok(
                    if self.reads.len() == 0 {
                        Started::Run
                    } else {
                        Started::Wait
                    },
                ),
            )
        }
    }

    /// Ends the read in flight. Only the read at the head of the line can
    /// end; it leaves the line with its result and the next read starts.
    pub open spec fn read_done(self, op: OpId, io: Completion<Seq<u8>>) -> (
        StreamModel,
        Option<ReadDoneModel>,
    ) {
        if holds(self.reads, op) {
            let rest = self.reads.drop_first();
            (
                StreamModel { reads: rest, writes: self.writes, closed: self.closed },
                Some(
                    ReadDoneModel {
                        outcome: read_outcome(self.reads[0].1, io),
                        next: next_read(rest),
                    },
                ),
            )
        } else {
            (self, None)
        }
    }

    /// Issues a write of `len` bytes. It joins the line of writes, and runs
    /// now if that line was empty. Closing does not stand in its way.
    pub open spec fn write(self, op: OpId, len: usize) -> (StreamModel, Started) {
        (
            StreamModel {
                reads: self.reads,
                writes: self.writes.push((op, len)),
                closed: self.closed,
            },
            if self.writes.len() == 0 {
                Started::Run
            } else {
                Started::Wait
            },
        )
    }

    /// Ends the write in flight. Only the write at the head of the line can
    /// end; it leaves the line with its result and the next write starts.
    pub open spec fn write_done(self, op: OpId, io: Completion<usize>) -> (
        StreamModel,
        Option<WriteDone>,
    ) {
        if holds(self.writes, op) {
            let rest = self.writes.drop_first();
            (
                StreamModel { reads: self.reads, writes: rest, closed: self.closed },
                Some(
                    WriteDone {
                        outcome: write_outcome(self.writes[0].1, io),
                        next: next_write(rest),
                    },
                ),
            )
        } else {
            (self, None)
        }
    }

    /// Closes the stream. Every pending read fails with `Canceled`, the one
    /// in flight first; the pending writes stay as they are.
    pub open spec fn close(self) -> (StreamModel, Seq<(OpId, OpError)>) {
        (
            StreamModel { reads: Seq::empty(), writes: self.writes, closed: true },
            canceled_all(ops_of(self.reads)),
        )
    }
}

/// The views of the buffers in a line of reads.
pub open spec fn reads_view(line: Seq<(OpId, Vec<u8>)>) -> Seq<(OpId, Seq<u8>)> {
    Seq::new(line.len(), |i: int| (line[i].0, line[i].1@))
}

/// The operation that a token has parked for a line: its holder.
pub open spec fn parked_for<T>(line: Seq<(OpId, T)>) -> Seq<OpId> {
    if line.len() > 0 {
        seq![line[0].0]
    } else {
        Seq::empty()
    }
}

/// A connected socket as the operations see it: a read half and a write
/// half, each behind its own lock, and the token that closing revokes. Only
/// reads race against the token.
pub struct Stream {
    rd: HalfLock<Vec<u8>>,
    wr: HalfLock<usize>,
    cancel: CancelToken,
}

impl View for Stream {
    type V = StreamModel;

    closed spec fn view(&self) -> StreamModel {
        StreamModel { reads: reads_view(self.rd@), writes: self.wr@, closed: self.cancel@.canceled }
    }
}

/// Copies `data` over the front of `buf` and settles the read's result.
pub fn settle_read(buf: Vec<u8>, io: Completion<Vec<u8>>) -> (outcome: Result<
    (usize, Vec<u8>),
    OpError,
>)
    ensures
        match outcome {
            Ok((count, filled)) => read_outcome(buf@, received(io)) == Ok::<
                (nat, Seq<u8>),
                OpError,
            >((count as nat, filled@)),
            Err(e) => read_outcome(buf@, received(io)) == Err::<(nat, Seq<u8>), OpError>(e),
        },
{
    match io {
        Completion::Failed => Err(OpError::IoError),
        Completion::Done(data) => {
            let count = data.len();
            if count > buf.len() {
                return Err(OpError::IoError);
            }
            let mut filled = buf;
            let mut i: usize = 0;
            while i < count
                invariant
                    i <= count,
                    count == data@.len(),
                    count <= filled@.len(),
                    filled@.len() == buf@.len(),
                    forall|j: int| 0 <= j < i ==> filled@[j] == data@[j],
                    forall|j: int| i <= j < buf@.len() ==> filled@[j] == buf@[j],
                decreases count - i,
            {
                filled.set(i, data[i]);
                i += 1;
            }
            assert(filled@ =~= data@ + buf@.subrange(data@.len() as int, buf@.len() as int));
            Ok((count, filled))
        },
    }
}

/// Settles the result of a write that was to send `len` bytes.
pub fn settle_write(len: usize, io: Completion<usize>) -> (outcome: Result<usize, OpError>)
    ensures
        outcome == write_outcome(len, io),
{
    match io {
        Completion::Done(count) => if count <= len {
            Ok(count)
        } else {
            Err(OpError::IoError)
        },
        Completion::Failed => Err(OpError::IoError),
    }
}

impl Stream {
    /// The token has parked the read in flight and nothing else, and a
    /// closed stream has no pending read.
    pub closed spec fn wf(&self) -> bool {
        &&& self.cancel@.wf()
        &&& self.cancel@.waiters == parked_for(self.rd@)
        &&& self@.wf()
    }

    /// A well-formed stream has a well-formed state.
    pub proof fn lemma_wf_view(&self)
        requires
            self.wf(),
        ensures
            self@.wf(),
    {
    }

    /// A stream for a connection that has just been accepted.
    pub fn new() -> (stream: Stream)
        ensures
            stream.wf(),
            stream@ == StreamModel::fresh(),
    {
        let stream = Stream { rd: HalfLock::new(), wr: HalfLock::new(), cancel: CancelToken::new() };
        assert(stream@.reads =~= Seq::empty());
        stream
    }

    /// Whether the stream has been closed.
    pub fn is_closed(&self) -> (closed: bool)
        ensures
            closed == self@.closed,
    {
        self.cancel.is_canceled()
    }

    /// Whether the stream is closed and its last write has finished.
    pub fn is_drained(&self) -> (drained: bool)
        ensures
            drained == self@.drained(),
    {
        self.cancel.is_canceled() && self.wr.is_idle()
    }

    /// Issues the read `op` into `buf`. It runs now if no other read is
    /// pending, and waits behind the others if one is. On a closed stream it
    /// fails with `Canceled` and is not pending.
    pub fn read(&mut self, op: OpId, buf: Vec<u8>) -> (started: Result<Started, OpError>)
        requires
            old(self).wf(),
        ensures
            final(self).wf(),
            (final(self)@, started) == old(self)@.read(op, buf@),
    {
        let granted = self.rd.acquire(op, buf);
        assert(reads_view(self.rd@) =~= reads_view(old(self).rd@).push((op, buf@)));
        if !granted {
            return Ok(Started::Wait);
        }
        // The read holds the lock; from here on it races against the token.
        match self.cancel.race::<()>(op, None) {
            Race::Canceled => {
                self.rd.release(op);
                assert(self.rd@ =~= old(self).rd@);
                Err(OpError::Canceled)
            },
            Race::Pending | Race::Ready(_) => Ok(Started::Run),
        }
    }

    /// Ends the read `op` with what the socket reported. Only the read in
    /// flight can end: it gets its buffer back, filled, and the read behind
    /// it starts. For any other `op` nothing changes and nothing is returned.
    pub fn read_done(&mut self, op: OpId, io: Completion<Vec<u8>>) -> (done: Option<ReadDone>)
        requires
            old(self).wf(),
        ensures
            final(self).wf(),
            final(self)@ == old(self)@.read_done(op, received(io)).0,
            match done {
                Some(d) => old(self)@.read_done(op, received(io)).1 == Some(d@),
                None => old(self)@.read_done(op, received(io)).1.is_none(),
            },
    {
        let buf = match self.rd.release(op) {
            Some(buf) => buf,
            None => {
                return None;
            },
        };
        assert(reads_view(self.rd@) =~= reads_view(old(self).rd@).drop_first());
        proof {
            let parked = old(self).cancel@.waiters;
            assert(parked.len() == 1 && parked[0] == op);
            parked.index_of_first_ensures(op);
        }
        let outcome = match self.cancel.race(op, Some(io)) {
            Race::Ready(io) => settle_read(buf, io),
            Race::Canceled | Race::Pending => Err(OpError::Canceled),
        };
        // The lock has passed to the next read, which races from now on.
        let next = match self.rd.head() {
            Some(heir) => {
                self.cancel.race::<()>(heir.0, None);
                Some((heir.0, heir.1.len()))
            },
            None => None,
        };
        assert(self.cancel@.waiters =~= parked_for(self.rd@));
        Some(ReadDone { outcome, next })
    }

    /// Issues the write `op` of `len` bytes. It runs now if no other write
    /// is pending, and waits behind the others if one is, whether or not the
    /// stream has been closed.
    pub fn write(&mut self, op: OpId, len: usize) -> (started: Started)
        requires
            old(self).wf(),
        ensures
            final(self).wf(),
            (final(self)@, started) == old(self)@.write(op, len),
    {
        if self.wr.acquire(op, len) {
            Started::Run
        } else {
            Started::Wait
        }
    }

    /// Ends the write `op` with what the socket reported. Only the write
    /// in flight can end, and the write behind it starts. For any other `op`
    /// nothing changes and nothing is returned.
    pub fn write_done(&mut self, op: OpId, io: Completion<usize>) -> (done: Option<WriteDone>)
        requires
            old(self).wf(),
        ensures
            final(self).wf(),
            (final(self)@, done) == old(self)@.write_done(op, io),
    {
        let len = match self.wr.release(op) {
            Some(len) => len,
            None => {
                return None;
            },
        };
        let outcome = settle_write(len, io);
        let next = match self.wr.head() {
            Some(heir) => Some(*heir),
            None => None,
        };
        Some(WriteDone { outcome, next })
    }

    /// Closes the stream and settles the reads that were pending on it.
    /// The read in flight is woken by the token; those that waited for
    /// their turn fall as the lock passes down the line.
    pub fn close(&mut self) -> (canceled: Vec<(OpId, OpError)>)
        requires
            old(self).wf(),
        ensures
            final(self).wf(),
            (final(self)@, canceled@) == old(self)@.close(),
    {
        let woken = self.cancel.cancel();
        let line = self.rd.drain();
        let mut canceled: Vec<(OpId, OpError)> = Vec::new();
        cancel_each(&woken, 0, &mut canceled);
        cancel_each(&line, 1, &mut canceled);
        assert(self@.reads =~= Seq::empty());
        canceled
    }
}

} // verus!
