use crate::cancel::OpId;
use crate::error::OpError;
use crate::event::{Completion, Started};
use crate::listener::{Listener, ListenerModel};
use crate::resource::{Claim, Resource, ResourceModel};
use crate::stream::{received, ReadDone, ReadDoneModel, Stream, WriteDone};
use crate::table::{Handle, ResourceTable};
use vstd::prelude::*;

verus! {

/// One of the four operations that the script can name, with its
/// arguments.
pub enum Op {
    /// Listen on a socket. `bound` tells whether the caller could bind it.
    Listen { bound: Completion<()> },
    /// Accept a connection on the listener `rid`.
    Accept { rid: Handle, op: OpId },
    /// Read from the stream `rid` into `buf`.
    Read { rid: Handle, op: OpId, buf: Vec<u8> },
    /// Write `len` bytes to the stream `rid`.
    Write { rid: Handle, op: OpId, len: usize },
}

/// An operation with its arguments as mathematical values.
pub enum OpModel {
    Listen { bound: Completion<()> },
    Accept { rid: Handle, op: OpId },
    Read { rid: Handle, op: OpId, buf: Seq<u8> },
    Write { rid: Handle, op: OpId, len: usize },
}

impl View for Op {
    type V = OpModel;

    open spec fn view(&self) -> OpModel {
        match self {
            Op::Listen { bound } => OpModel::Listen { bound: *bound },
            Op::Accept { rid, op } => OpModel::Accept { rid: *rid, op: *op },
            Op::Read { rid, op, buf } => OpModel::Read { rid: *rid, op: *op, buf: buf@ },
            Op::Write { rid, op, len } => OpModel::Write { rid: *rid, op: *op, len: *len },
        }
    }
}

/// What the script learns when an operation has been issued.
#[derive(Clone, Copy, Debug, PartialEq, Eq)]
pub enum Issued {
    /// `listen` is complete: the handle of the new listener.
    Listening(Handle),
    /// The accept is pending.
    Accepting,
    /// The read runs or waits for the read half.
    Reading(Started),
    /// The write runs or waits for the write half.
    Writing(Started),
}

/// The mathematical state of the host: the resources behind their handles
/// and the handle that will be issued next.
pub struct HostModel {
    pub resources: Map<Handle, ResourceModel>,
    pub next_handle: Handle,
}

impl HostModel {
    /// Every handle in use was issued earlier, every resource is well
    /// formed, and none is kept that is closed with nothing pending.
    pub open spec fn wf(self) -> bool {
        forall|rid: Handle| #[trigger]
            self.resources.contains_key(rid) ==> {
                &&& rid < self.next_handle
                &&& self.resources[rid].wf()
                &&& !self.resources[rid].spent()
            }
    }

    /// A host without resources, whose first handle is 0.
    pub open spec fn fresh() -> HostModel {
        HostModel { resources: Map::empty(), next_handle: 0 }
    }

    /// Whether `rid` names a resource that is what `claim` asks for. This
    /// is the validation that every operation begins with.
    pub open spec fn admits(self, rid: Handle, claim: Claim) -> bool {
        self.resources.contains_key(rid) && self.resources[rid].meets(claim)
    }

    /// Whether `rid` names a resource that has not been closed.
    pub open spec fn is_open(self, rid: Handle) -> bool {
        self.admits(rid, Claim::Open)
    }

    /// Whether `rid` names a listener that has not been closed.
    pub open spec fn listener_at(self, rid: Handle) -> bool {
        self.admits(rid, Claim::OpenListener)
    }

    /// Whether `rid` names a stream, open or still finishing its writes.
    pub open spec fn stream_at(self, rid: Handle) -> bool {
        self.admits(rid, Claim::AnyStream)
    }

    /// Whether `rid` names a stream that has not been closed.
    pub open spec fn open_stream_at(self, rid: Handle) -> bool {
        self.admits(rid, Claim::OpenStream)
    }

    /// The host with the resource behind `rid` in a new state. A resource
    /// that is closed with nothing pending leaves the table.
    pub open spec fn with(self, rid: Handle, resource: ResourceModel) -> HostModel {
        HostModel {
            resources: if resource.spent() {
                self.resources.remove(rid)
            } else {
                self.resources.insert(rid, resource)
            },
            next_handle: self.next_handle,
        }
    }

    /// The host with `resource` behind the next handle.
    pub open spec fn registered(self, resource: ResourceModel) -> HostModel {
        HostModel {
            resources: self.resources.insert(self.next_handle, resource),
            next_handle: (self.next_handle + 1) as Handle,
        }
    }

    /// `listen`, once the socket has been bound or has failed to.
    pub open spec fn listen(self, bound: Completion<()>) -> (HostModel, Result<Handle, OpError>) {
        match bound {
            Completion::Done(_) => (
                self.registered(ResourceModel::Listener(ListenerModel::fresh())),
                Ok(self.next_handle),
            ),
            Completion::Failed => (self, Err(OpError::BindError)),
        }
    }

    /// `accept` on `rid`, issued as `op`.
    pub open spec fn accept(self, rid: Handle, op: OpId) -> (HostModel, Result<(), OpError>) {
        if self.listener_at(rid) {
            let (listener, started) = self.resources[rid]->Listener_0.accept(op);
            (self.with(rid, ResourceModel::Listener(listener)), started)
        } else {
            (self, Err(OpError::InvalidHandle))
        }
    }

    /// The end of the accept `op` on `rid`: on success the new stream is
    /// registered and its handle returned.
    pub open spec fn accepted(self, rid: Handle, op: OpId, conn: Completion<()>) -> (
        HostModel,
        Option<Result<Handle, OpError>>,
    ) {
        if self.listener_at(rid) {
            let (listener, done) = self.resources[rid]->Listener_0.accepted(op, conn);
            let host = self.with(rid, ResourceModel::Listener(listener));
            match done {
                Some(Ok(stream)) => (
                    host.registered(ResourceModel::Stream(stream)),
                    Some(Ok(self.next_handle)),
                ),
                Some(Err(e)) => (host, Some(Err(e))),
                None => (self, None),
            }
        } else {
            (self, None)
        }
    }

    /// `read` on `rid` into `buf`, issued as `op`.
    pub open spec fn read(self, rid: Handle, op: OpId, buf: Seq<u8>) -> (
        HostModel,
        Result<Started, OpError>,
    ) {
        if self.open_stream_at(rid) {
            let (stream, started) = self.resources[rid]->Stream_0.read(op, buf);
            (self.with(rid, ResourceModel::Stream(stream)), started)
        } else {
            (self, Err(OpError::InvalidHandle))
        }
    }

    /// The end of the read `op` on `rid`.
    pub open spec fn read_done(self, rid: Handle, op: OpId, io: Completion<Seq<u8>>) -> (
        HostModel,
        Option<ReadDoneModel>,
    ) {
        if self.stream_at(rid) {
            let (stream, done) = self.resources[rid]->Stream_0.read_done(op, io);
            (self.with(rid, ResourceModel::Stream(stream)), done)
        } else {
            (self, None)
        }
    }

    /// `write` of `len` bytes on `rid`, issued as `op`.
    pub open spec fn write(self, rid: Handle, op: OpId, len: usize) -> (
        HostModel,
        Result<Started, OpError>,
    ) {
        if self.open_stream_at(rid) {
            let (stream, started) = self.resources[rid]->Stream_0.write(op, len);
            (self.with(rid, ResourceModel::Stream(stream)), Ok(started))
        } else {
            (self, Err(OpError::InvalidHandle))
        }
    }

    /// The end of the write `op` on `rid`. It may end after the stream was
    /// closed; the last such write takes the stream out of the table.
    pub open spec fn write_done(self, rid: Handle, op: OpId, io: Completion<usize>) -> (
        HostModel,
        Option<WriteDone>,
    ) {
        if self.stream_at(rid) {
            let (stream, done) = self.resources[rid]->Stream_0.write_done(op, io);
            (self.with(rid, ResourceModel::Stream(stream)), done)
        } else {
            (self, None)
        }
    }

    /// Validates and issues one operation, whichever it is.
    pub open spec fn dispatch(self, op: OpModel) -> (HostModel, Result<Issued, OpError>) {
        match op {
            OpModel::Listen { bound } => (
                self.listen(bound).0,
                match self.listen(bound).1 {
                    Ok(rid) => Ok(Issued::Listening(rid)),
                    Err(e) => Err(e),
                },
            ),
            OpModel::Accept { rid, op } => (
                self.accept(rid, op).0,
                match self.accept(rid, op).1 {
                    Ok(_) => Ok(Issued::Accepting),
                    Err(e) => Err(e),
                },
            ),
            OpModel::Read { rid, op, buf } => (
                self.read(rid, op, buf).0,
                match self.read(rid, op, buf).1 {
                    Ok(started) => Ok(Issued::Reading(started)),
                    Err(e) => Err(e),
                },
            ),
            OpModel::Write { rid, op, len } => (
                self.write(rid, op, len).0,
                match self.write(rid, op, len).1 {
                    Ok(started) => Ok(Issued::Writing(started)),
                    Err(e) => Err(e),
                },
            ),
        }
    }

    /// Closes `rid`. The handle is invalid from now on and the pending
    /// accepts or reads fail with `Canceled`; a stream stays until its
    /// pending writes have finished.
    pub open spec fn close(self, rid: Handle) -> (
        HostModel,
        Result<Seq<(OpId, OpError)>, OpError>,
    ) {
        if self.is_open(rid) {
            let (resource, canceled) = self.resources[rid].close();
            (self.with(rid, resource), Ok(canceled))
        } else {
            (self, Err(OpError::InvalidHandle))
        }
    }
}

/// The views of the resources in a table.
pub open spec fn resources_view(table: Map<Handle, Resource>) -> Map<Handle, ResourceModel> {
    Map::new(|rid: Handle| table.contains_key(rid), |rid: Handle| table[rid]@)
}

/// The operation layer: the table of resources and the named operations
/// that reach them through their handles.
pub struct Host {
    table: ResourceTable<Resource>,
}

impl View for Host {
    type V = HostModel;

    closed spec fn view(&self) -> HostModel {
        HostModel {
            resources: resources_view(self.table@.entries),
            next_handle: self.table@.next_handle,
        }
    }
}

/// Every resource of the table is well formed.
spec fn entries_wf(table: Map<Handle, Resource>) -> bool {
    forall|rid: Handle| #[trigger] table.contains_key(rid) ==> table[rid].wf()
}

/// Validates a handle: takes the resource behind `rid` out of the table if
/// it is what `claim` asks for, and leaves the table as it is otherwise.
fn take(table: &mut ResourceTable<Resource>, rid: Handle, claim: Claim) -> (taken: Option<Resource>)
    requires
        old(table).wf(),
    ensures
        final(table).wf(),
        match taken {
            Some(resource) => {
                &&& old(table)@.has(rid)
                &&& old(table)@.entries[rid] == resource
                &&& resource@.meets(claim)
                &&& rid < old(table)@.next_handle
                &&& final(table)@ == old(table)@.remove(rid).0
            },
            None => {
                &&& final(table)@ == old(table)@
                &&& !(old(table)@.has(rid) && old(table)@.entries[rid]@.meets(claim))
            },
        },
{
    let met = match table.get(rid) {
        Ok(resource) => resource.meets(claim),
        Err(_) => false,
    };
    if !met {
        return None;
    }
    match table.remove(rid) {
        Ok(resource) => Some(resource),
        Err(_) => None,
    }
}

/// Takes the open listener behind `rid` out of the table.
fn take_listener(table: &mut ResourceTable<Resource>, rid: Handle) -> (taken: Option<Listener>)
    requires
        old(table).wf(),
    ensures
        final(table).wf(),
        match taken {
            Some(listener) => {
                &&& old(table)@.has(rid)
                &&& old(table)@.entries[rid] == Resource::Listener(listener)
                &&& !listener@.closed
                &&& rid < old(table)@.next_handle
                &&& final(table)@ == old(table)@.remove(rid).0
            },
            None => {
                &&& final(table)@ == old(table)@
                &&& !(old(table)@.has(rid) && old(table)@.entries[rid]@.meets(Claim::OpenListener))
            },
        },
{
    match take(table, rid, Claim::OpenListener) {
        Some(Resource::Listener(listener)) => Some(listener),
        Some(other) => {
            table.restore(rid, other);
            None
        },
        None => None,
    }
}

/// Takes the stream behind `rid` out of the table if it is what `claim`
/// asks for.
fn take_stream(table: &mut ResourceTable<Resource>, rid: Handle, claim: Claim) -> (taken: Option<
    Stream,
>)
    requires
        old(table).wf(),
        claim == Claim::OpenStream || claim == Claim::AnyStream,
    ensures
        final(table).wf(),
        match taken {
            Some(stream) => {
                &&& old(table)@.has(rid)
                &&& old(table)@.entries[rid] == Resource::Stream(stream)
                &&& claim == Claim::OpenStream ==> !stream@.closed
                &&& rid < old(table)@.next_handle
                &&& final(table)@ == old(table)@.remove(rid).0
            },
            None => {
                &&& final(table)@ == old(table)@
                &&& !(old(table)@.has(rid) && old(table)@.entries[rid]@.meets(claim))
            },
        },
{
    match take(table, rid, claim) {
        Some(Resource::Stream(stream)) => Some(stream),
        Some(other) => {
            table.restore(rid, other);
            None
        },
        None => None,
    }
}

impl Host {
    /// The table and each resource in it are well formed, and so is the
    /// state that they make up.
    pub closed spec fn wf(&self) -> bool {
        &&& self.table.wf()
        &&& entries_wf(self.table@.entries)
        &&& self@.wf()
    }

    /// A well-formed host has a well-formed state.
    pub proof fn lemma_wf_view(&self)
        requires
            self.wf(),
        ensures
            self@.wf(),
    {
    }

    /// A host without resources.
    pub fn new() -> (host: Host)
        ensures
            host.wf(),
            host@ == HostModel::fresh(),
    {
        let host = Host { table: ResourceTable::new() };
        assert(host@.resources =~= Map::empty());
        host
    }

    /// Whether another handle can be issued.
    pub fn can_register(&self) -> (room: bool)
        ensures
            room == (self@.next_handle < u32::MAX),
    {
        self.table.next_handle() < u32::MAX
    }

    /// Whether `rid` names a resource that has not been closed.
    pub fn is_open(&self, rid: Handle) -> (open: bool)
        ensures
            open == self@.is_open(rid),
    {
        match self.table.get(rid) {
            Ok(resource) => !resource.is_closed(),
            Err(_) => false,
        }
    }

    /// Puts `resource` back behind `rid` after an operation on it, unless
    /// it is closed with nothing pending.
    fn settle(&mut self, rid: Handle, resource: Resource, Ghost(before): Ghost<HostModel>)
        requires
            old(self).table.wf(),
            entries_wf(old(self).table@.entries),
            resource.wf(),
            rid < old(self).table@.next_handle,
            !old(self).table@.has(rid),
            before.wf(),
            before.next_handle == old(self).table@.next_handle,
            before.resources.remove(rid) =~= resources_view(old(self).table@.entries),
        ensures
            final(self).wf(),
            final(self)@ == before.with(rid, resource@),
    {
        proof {
            resource.lemma_wf_view();
        }
        let ghost rest = before.resources.remove(rid);
        if !resource.is_spent() {
            self.table.restore(rid, resource);
            assert forall|h: Handle|
                self@.resources.contains_key(h) == before.resources.insert(
                    rid,
                    resource@,
                ).contains_key(h) by {
                if h != rid {
                    assert(rest.contains_key(h) == old(self).table@.entries.contains_key(h));
                }
            }
            assert forall|h: Handle| #[trigger]
                self@.resources.contains_key(h) implies self@.resources[h]
                == before.resources.insert(rid, resource@)[h] by {
                if h != rid {
                    assert(rest[h] == before.resources[h]);
                }
            }
            assert(self@.resources =~= before.resources.insert(rid, resource@));
        }
        assert forall|h: Handle| #[trigger] self@.resources.contains_key(h) implies {
            &&& h < self@.next_handle
            &&& self@.resources[h].wf()
            &&& !self@.resources[h].spent()
        } by {
            if h != rid {
                assert(before.resources.contains_key(h));
            }
        }
    }

    /// `listen`: registers a listener for a socket that the caller has
    /// bound, or reports that binding failed.
    pub fn listen(&mut self, bound: Completion<()>) -> (reply: Result<Handle, OpError>)
        requires
            old(self).wf(),
            bound is Done ==> old(self)@.next_handle < u32::MAX,
        ensures
            final(self).wf(),
            (final(self)@, reply) == old(self)@.listen(bound),
    {
        match bound {
            Completion::Failed => Err(OpError::BindError),
            Completion::Done(_) => Ok(self.register(Resource::Listener(Listener::new()))),
        }
    }

    /// Registers an open resource under the next handle.
    fn register(&mut self, resource: Resource) -> (rid: Handle)
        requires
            old(self).wf(),
            old(self)@.next_handle < u32::MAX,
            resource.wf(),
            !resource@.spent(),
        ensures
            final(self).wf(),
            rid == old(self)@.next_handle,
            final(self)@ == old(self)@.registered(resource@),
    {
        proof {
            resource.lemma_wf_view();
        }
        let rid = self.table.register(resource);
        assert(self@.resources =~= old(self)@.resources.insert(rid, resource@));
        assert forall|h: Handle| #[trigger] self@.resources.contains_key(h) implies {
            &&& h < self@.next_handle
            &&& self@.resources[h].wf()
            &&& !self@.resources[h].spent()
        } by {
            if h != rid {
                assert(old(self)@.resources.contains_key(h));
            }
        }
        rid
    }

    /// `accept`: issues the accept `op` on the listener `rid`. On `Ok` the
    /// caller starts to wait for a connection.
    pub fn accept(&mut self, rid: Handle, op: OpId) -> (reply: Result<(), OpError>)
        requires
            old(self).wf(),
        ensures
            final(self).wf(),
            (final(self)@, reply) == old(self)@.accept(rid, op),
    {
        let ghost before = self@;
        let mut listener = match take_listener(&mut self.table, rid) {
            Some(listener) => listener,
            None => {
                return Err(OpError::InvalidHandle);
            },
        };
        let started = listener.accept(op);
        self.settle(rid, Resource::Listener(listener), Ghost(before));
        started
    }

    /// Ends the accept `op` on `rid` with what the socket reported. A new
    /// connection becomes a stream behind a fresh handle.
    pub fn accepted(&mut self, rid: Handle, op: OpId, conn: Completion<()>) -> (reply: Option<
        Result<Handle, OpError>,
    >)
        requires
            old(self).wf(),
            conn is Done ==> old(self)@.next_handle < u32::MAX,
        ensures
            final(self).wf(),
            (final(self)@, reply) == old(self)@.accepted(rid, op, conn),
    {
        let ghost before = self@;
        let mut listener = match take_listener(&mut self.table, rid) {
            Some(listener) => listener,
            None => {
                return None;
            },
        };
        let done = listener.accepted(op, conn);
        self.settle(rid, Resource::Listener(listener), Ghost(before));
        match done {
            Some(Ok(stream)) => Some(Ok(self.register(Resource::Stream(stream)))),
            Some(Err(e)) => Some(Err(e)),
            None => {
                assert(self@.resources =~= before.resources);
                None
            },
        }
    }

    /// `read`: issues the read `op` on the stream `rid` into `buf`. On
    /// `Ok(Run)` the caller starts to read from the socket.
    pub fn read(&mut self, rid: Handle, op: OpId, buf: Vec<u8>) -> (reply: Result<
        Started,
        OpError,
    >)
        requires
            old(self).wf(),
        ensures
            final(self).wf(),
            (final(self)@, reply) == old(self)@.read(rid, op, buf@),
    {
        let ghost before = self@;
        let mut stream = match take_stream(&mut self.table, rid, Claim::OpenStream) {
            Some(stream) => stream,
            None => {
                return Err(OpError::InvalidHandle);
            },
        };
        let started = stream.read(op, buf);
        self.settle(rid, Resource::Stream(stream), Ghost(before));
        started
    }

    /// Ends the read `op` on `rid` with what the socket reported. The
    /// caller hands the result to the script and starts the next read.
    pub fn read_done(&mut self, rid: Handle, op: OpId, io: Completion<Vec<u8>>) -> (reply: Option<
        ReadDone,
    >)
        requires
            old(self).wf(),
        ensures
            final(self).wf(),
            final(self)@ == old(self)@.read_done(rid, op, received(io)).0,
            match reply {
                Some(done) => old(self)@.read_done(rid, op, received(io)).1 == Some(done@),
                None => old(self)@.read_done(rid, op, received(io)).1.is_none(),
            },
    {
        let ghost before = self@;
        let mut stream = match take_stream(&mut self.table, rid, Claim::AnyStream) {
            Some(stream) => stream,
            None => {
                return None;
            },
        };
        let done = stream.read_done(op, io);
        self.settle(rid, Resource::Stream(stream), Ghost(before));
        done
    }

    /// `write`: issues the write `op` of `len` bytes on the stream `rid`.
    /// On `Ok(Run)` the caller starts to write to the socket.
    pub fn write(&mut self, rid: Handle, op: OpId, len: usize) -> (reply: Result<Started, OpError>)
        requires
            old(self).wf(),
        ensures
            final(self).wf(),
            (final(self)@, reply) == old(self)@.write(rid, op, len),
    {
        let ghost before = self@;
        let mut stream = match take_stream(&mut self.table, rid, Claim::OpenStream) {
            Some(stream) => stream,
            None => {
                return Err(OpError::InvalidHandle);
            },
        };
        let started = stream.write(op, len);
        self.settle(rid, Resource::Stream(stream), Ghost(before));
        Ok(started)
    }

    /// Ends the write `op` on `rid` with what the socket reported. The
    /// caller hands the result to the script and starts the next write.
    pub fn write_done(&mut self, rid: Handle, op: OpId, io: Completion<usize>) -> (reply: Option<
        WriteDone,
    >)
        requires
            old(self).wf(),
        ensures
            final(self).wf(),
            (final(self)@, reply) == old(self)@.write_done(rid, op, io),
    {
        let ghost before = self@;
        let mut stream = match take_stream(&mut self.table, rid, Claim::AnyStream) {
            Some(stream) => stream,
            None => {
                return None;
            },
        };
        let done = stream.write_done(op, io);
        self.settle(rid, Resource::Stream(stream), Ghost(before));
        done
    }

    /// Validates and issues one operation, whichever it is.
    pub fn dispatch(&mut self, op: Op) -> (reply: Result<Issued, OpError>)
        requires
            old(self).wf(),
            op matches Op::Listen { bound: Completion::Done(_) } ==> old(self)@.next_handle
                < u32::MAX,
        ensures
            final(self).wf(),
            (final(self)@, reply) == old(self)@.dispatch(op@),
    {
        match op {
            Op::Listen { bound } => match self.listen(bound) {
                Ok(rid) => Ok(Issued::Listening(rid)),
                Err(e) => Err(e),
            },
            Op::Accept { rid, op } => match self.accept(rid, op) {
                Ok(_) => Ok(Issued::Accepting),
                Err(e) => Err(e),
            },
            Op::Read { rid, op, buf } => match self.read(rid, op, buf) {
                Ok(started) => Ok(Issued::Reading(started)),
                Err(e) => Err(e),
            },
            Op::Write { rid, op, len } => match self.write(rid, op, len) {
                Ok(started) => Ok(Issued::Writing(started)),
                Err(e) => Err(e),
            },
        }
    }

    /// Closes `rid` and settles the operations that are canceled by it.
    pub fn close(&mut self, rid: Handle) -> (reply: Result<Vec<(OpId, OpError)>, OpError>)
        requires
            old(self).wf(),
        ensures
            final(self).wf(),
            final(self)@ == old(self)@.close(rid).0,
            match reply {
                Ok(canceled) => old(self)@.close(rid).1 == Ok::<Seq<(OpId, OpError)>, OpError>(
                    canceled@,
                ),
                Err(e) => old(self)@.close(rid).1 == Err::<Seq<(OpId, OpError)>, OpError>(e),
            },
    {
        let ghost before = self@;
        match take(&mut self.table, rid, Claim::Open) {
            Some(mut resource) => {
                let canceled = resource.close();
                self.settle(rid, resource, Ghost(before));
                Ok(canceled)
            },
            None => Err(OpError::InvalidHandle),
        }
    }
}

} // verus!
