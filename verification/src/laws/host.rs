use crate::cancel::{canceled_all, lemma_token_steps_keep_wf, OpId, TokenModel};
use crate::error::OpError;
use crate::event::{Completion, Started};
use crate::lock::{holds, ops_of};
use crate::ops::HostModel;
use crate::resource::ResourceModel;
use crate::stream::{write_outcome, StreamModel, WriteDone};
use crate::table::Handle;
use vstd::prelude::*;

verus! {

/// An operation on a handle that names no open resource of the right kind
/// fails with `InvalidHandle` and leaves the host as it was: nothing is
/// started.
pub proof fn lemma_wrong_handle_starts_nothing(
    host: HostModel,
    rid: Handle,
    op: OpId,
    buf: Seq<u8>,
    len: usize,
)
    ensures
        !host.listener_at(rid) ==> host.accept(rid, op) == (
            host,
            Err::<(), OpError>(OpError::InvalidHandle),
        ),
        !host.open_stream_at(rid) ==> host.read(rid, op, buf) == (
            host,
            Err::<Started, OpError>(OpError::InvalidHandle),
        ),
        !host.open_stream_at(rid) ==> host.write(rid, op, len) == (
            host,
            Err::<Started, OpError>(OpError::InvalidHandle),
        ),
        !host.is_open(rid) ==> host.close(rid) == (
            host,
            Err::<Seq<(OpId, OpError)>, OpError>(OpError::InvalidHandle),
        ),
        host.wf() && rid >= host.next_handle ==> !host.is_open(rid),
{
}

/// Once a handle is closed, it names nothing: every operation on it fails
/// with `InvalidHandle`, closing again included.
pub proof fn lemma_closed_handle_is_invalid(
    host: HostModel,
    rid: Handle,
    op: OpId,
    buf: Seq<u8>,
    len: usize,
)
    requires
        host.wf(),
        host.is_open(rid),
    ensures
        ({
            let closed = host.close(rid).0;
            &&& closed.wf()
            &&& !closed.is_open(rid)
            &&& closed.next_handle == host.next_handle
            &&& closed.accept(rid, op).1 == Err::<(), OpError>(OpError::InvalidHandle)
            &&& closed.read(rid, op, buf).1 == Err::<Started, OpError>(OpError::InvalidHandle)
            &&& closed.write(rid, op, len).1 == Err::<Started, OpError>(OpError::InvalidHandle)
            &&& closed.close(rid) == (closed, Err::<Seq<(OpId, OpError)>, OpError>(OpError::InvalidHandle))
            &&& forall|other: Handle|
                other != rid ==> (#[trigger] closed.resources.contains_key(other)
                    == host.resources.contains_key(other) && closed.resources[other]
                    == host.resources[other])
        }),
{
}

/// Closing a resource cancels exactly what waits on it, in the order of
/// issue: every pending accept of a listener, every pending read of a
/// stream, and no write. Each of them fails with `Canceled`.
pub proof fn lemma_close_cancels_what_waits(host: HostModel, rid: Handle)
    requires
        host.wf(),
        host.is_open(rid),
    ensures
        ({
            let (closed, reply) = host.close(rid);
            let canceled = reply->Ok_0;
            &&& reply is Ok
            &&& forall|i: int|
                0 <= i < canceled.len() ==> (#[trigger] canceled[i]).1 == OpError::Canceled
            &&& match host.resources[rid] {
                ResourceModel::Listener(listener) => {
                    &&& canceled.len() == listener.accepts.len()
                    &&& forall|i: int|
                        0 <= i < canceled.len() ==> (#[trigger] canceled[i]).0
                            == listener.accepts[i]
                    &&& !closed.resources.contains_key(rid)
                },
                ResourceModel::Stream(stream) => {
                    &&& canceled.len() == stream.reads.len()
                    &&& forall|i: int|
                        0 <= i < canceled.len() ==> (#[trigger] canceled[i]).0 == stream.reads[i].0
                    &&& closed.resources.contains_key(rid) <==> stream.writes.len() > 0
                    &&& stream.writes.len() > 0 ==> closed.resources[rid]
                        == ResourceModel::Stream(
                        StreamModel { reads: Seq::empty(), writes: stream.writes, closed: true },
                    )
                },
            }
        }),
{
}

/// Whether `after` holds no handle that `before` did not hold or could
/// not yet have issued, and issues its next handle no lower.
pub open spec fn grows_from(before: HostModel, after: HostModel) -> bool {
    &&& before.next_handle <= after.next_handle
    &&& forall|rid: Handle| #[trigger]
        after.resources.contains_key(rid) ==> before.resources.contains_key(rid)
            || before.next_handle <= rid < after.next_handle
}

/// Handles are issued in increasing order and never again: no step of the
/// host lowers the next handle, and none brings back a handle that has left
/// the table.
pub proof fn lemma_handles_are_never_reused(
    host: HostModel,
    rid: Handle,
    op: OpId,
    buf: Seq<u8>,
    len: usize,
    bound: Completion<()>,
    read_io: Completion<Seq<u8>>,
    write_io: Completion<usize>,
)
    requires
        host.wf(),
        host.next_handle < u32::MAX,
    ensures
        grows_from(host, host.listen(bound).0),
        grows_from(host, host.accept(rid, op).0),
        grows_from(host, host.accepted(rid, op, bound).0),
        grows_from(host, host.read(rid, op, buf).0),
        grows_from(host, host.read_done(rid, op, read_io).0),
        grows_from(host, host.write(rid, op, len).0),
        grows_from(host, host.write_done(rid, op, write_io).0),
        grows_from(host, host.close(rid).0),
        host.listen(bound).1 is Ok ==> !host.resources.contains_key(host.listen(bound).1->Ok_0),
        host.accepted(rid, op, bound).1 matches Some(Ok(fresh)) ==> !host.resources.contains_key(
            fresh,
        ),
{
}

/// Closing a listener cancels the accept that is pending on it. The
/// accept does not end a second time when a connection arrives later, and
/// no stream is registered for it.
pub proof fn lemma_close_cancels_pending_accept(
    host: HostModel,
    rid: Handle,
    op: OpId,
    conn: Completion<()>,
)
    requires
        host.wf(),
        host.listener_at(rid),
    ensures
        ({
            let (accepting, started) = host.accept(rid, op);
            let (closed, canceled) = accepting.close(rid);
            let (later, late) = closed.accepted(rid, op, conn);
            &&& started == Ok::<(), OpError>(())
            &&& canceled is Ok
            &&& canceled->Ok_0.contains((op, OpError::Canceled))
            &&& late is None
            &&& later == closed
            &&& closed.resources == host.resources.remove(rid)
            &&& closed.next_handle == host.next_handle
        }),
{
    // After the accept, `op` is among the pending accepts, at some place.
    let listener = host.resources[rid]->Listener_0;
    let parked = listener.accept(op).0;
    if !listener.accepts.contains(op) {
        assert(parked.accepts[parked.accepts.len() - 1] == op);
    }
    let at = choose|i: int| 0 <= i < parked.accepts.len() && parked.accepts[i] == op;
    // At the same place closing names it, with its failure.
    assert(canceled_all(parked.accepts)[at] == (op, OpError::Canceled));
}

/// Closing a stream cancels the read that is pending on it, whether it is
/// in flight or waits for its turn. The read does not end a second time
/// when bytes arrive later.
pub proof fn lemma_close_cancels_pending_read(
    host: HostModel,
    rid: Handle,
    op: OpId,
    buf: Seq<u8>,
    io: Completion<Seq<u8>>,
)
    requires
        host.wf(),
        host.open_stream_at(rid),
    ensures
        ({
            let (reading, started) = host.read(rid, op, buf);
            let (closed, canceled) = reading.close(rid);
            let (later, late) = closed.read_done(rid, op, io);
            &&& started is Ok
            &&& canceled is Ok
            &&& canceled->Ok_0.contains((op, OpError::Canceled))
            &&& late is None
            &&& later == closed
        }),
{
    // The read stands last in the line, and closing names it at that place.
    let line = host.resources[rid]->Stream_0.reads.push((op, buf));
    assert(canceled_all(ops_of(line))[line.len() - 1] == (op, OpError::Canceled));
    // The end of a read that is no longer pending changes nothing.
    let closed = host.read(rid, op, buf).0.close(rid).0;
    assert(closed.read_done(rid, op, io).0.resources =~= closed.resources);
}

/// Closing a stream leaves its pending writes as they are, and a write
/// that was in flight still ends with the result that the socket reports:
/// its true byte count. The last write to end takes the stream out of the
/// table.
pub proof fn lemma_close_spares_pending_write(
    host: HostModel,
    rid: Handle,
    op: OpId,
    len: usize,
    io: Completion<usize>,
)
    requires
        host.wf(),
        host.open_stream_at(rid),
    ensures
        ({
            let (writing, started) = host.write(rid, op, len);
            let (closed, canceled) = writing.close(rid);
            let (later, done) = closed.write_done(rid, op, io);
            &&& started is Ok
            &&& canceled is Ok
            &&& closed.stream_at(rid)
            &&& closed.resources[rid]->Stream_0.writes == writing.resources[rid]->Stream_0.writes
            &&& started == Ok::<Started, OpError>(Started::Run) ==> {
                &&& done == Some(WriteDone { outcome: write_outcome(len, io), next: None })
                &&& forall|count: usize|
                    io == Completion::Done(count) && count <= len ==> done->Some_0.outcome == Ok::<
                        usize,
                        OpError,
                    >(count)
                &&& !later.resources.contains_key(rid)
            }
        }),
{
    // The line of writes is not empty once `op` has joined it, so closing
    // keeps the stream in the table.
    let line = host.resources[rid]->Stream_0.writes.push((op, len));
    assert(line.len() > 0);
}

/// Only a pending operation can end: the host gives a result for an
/// accept that is pending on an open listener, and for the read or the
/// write that is in flight on a stream, and for nothing else. An accept
/// that has ended is no longer pending.
pub proof fn lemma_only_pending_operations_end(
    host: HostModel,
    rid: Handle,
    op: OpId,
    conn: Completion<()>,
    read_io: Completion<Seq<u8>>,
    write_io: Completion<usize>,
)
    requires
        host.wf(),
    ensures
        host.accepted(rid, op, conn).1 is Some <==> host.listener_at(rid)
            && host.resources[rid]->Listener_0.accepts.contains(op),
        host.accepted(rid, op, conn).1 is Some ==> host.accepted(rid, op, conn).0.accepted(
            rid,
            op,
            conn,
        ).1 is None,
        host.read_done(rid, op, read_io).1 is Some <==> host.stream_at(rid) && holds(
            host.resources[rid]->Stream_0.reads,
            op,
        ),
        host.write_done(rid, op, write_io).1 is Some <==> host.stream_at(rid) && holds(
            host.resources[rid]->Stream_0.writes,
            op,
        ),
{
    if host.listener_at(rid) && host.resources[rid]->Listener_0.accepts.contains(op) {
        let listener = host.resources[rid]->Listener_0;
        lemma_token_steps_keep_wf(
            TokenModel { canceled: false, waiters: listener.accepts },
            op,
            Some(()),
        );
    }
}

/// The write that ends on a host reports at most the number of bytes that
/// it was issued with.
pub proof fn lemma_host_write_count_is_bounded(
    host: HostModel,
    rid: Handle,
    op: OpId,
    io: Completion<usize>,
)
    requires
        host.wf(),
    ensures
        match host.write_done(rid, op, io).1 {
            Some(done) => {
                &&& host.stream_at(rid)
                &&& host.resources[rid]->Stream_0.writes.len() > 0
                &&& host.resources[rid]->Stream_0.writes[0].0 == op
                &&& match done.outcome {
                    Ok(count) => count <= host.resources[rid]->Stream_0.writes[0].1,
                    Err(e) => e == OpError::IoError,
                }
            },
            None => host.write_done(rid, op, io).0 == host,
        },
{
    if host.stream_at(rid) {
        let stream = host.resources[rid]->Stream_0;
        if stream.write_done(op, io).1 is None {
            assert(host.write_done(rid, op, io).0.resources =~= host.resources);
        }
    }
}

/// Every step of the host keeps it well formed.
pub proof fn lemma_host_steps_keep_wf(
    host: HostModel,
    rid: Handle,
    op: OpId,
    buf: Seq<u8>,
    len: usize,
    bound: Completion<()>,
    read_io: Completion<Seq<u8>>,
    write_io: Completion<usize>,
)
    requires
        host.wf(),
        host.next_handle < u32::MAX,
    ensures
        HostModel::fresh().wf(),
        host.listen(bound).0.wf(),
        host.accept(rid, op).0.wf(),
        host.accepted(rid, op, bound).0.wf(),
        host.read(rid, op, buf).0.wf(),
        host.read_done(rid, op, read_io).0.wf(),
        host.write(rid, op, len).0.wf(),
        host.write_done(rid, op, write_io).0.wf(),
        host.close(rid).0.wf(),
{
    if host.listener_at(rid) {
        let token = TokenModel { canceled: false, waiters: host.resources[rid]->Listener_0.accepts };
        lemma_token_steps_keep_wf::<()>(token, op, None);
        lemma_token_steps_keep_wf(token, op, Some(()));
    }
}

} // verus!
