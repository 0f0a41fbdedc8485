use crate::cancel::{cancel_each, canceled_all, CancelToken, OpId, Race};
use crate::error::OpError;
use crate::event::Completion;
use crate::stream::{Stream, StreamModel};
use vstd::prelude::*;

verus! {

/// The mathematical state of a listening socket: the accepts that are
/// pending on it, in the order of issue, and whether it has been closed.
pub struct ListenerModel {
    pub accepts: Seq<OpId>,
    pub closed: bool,
}

/// The result of an accept that the socket has answered: a new open
/// stream, or the failure that the operating system reported.
pub open spec fn accept_outcome(conn: Completion<()>) -> Result<StreamModel, OpError> {
    match conn {
        Completion::Done(_) => Ok(StreamModel::fresh()),
        Completion::Failed => Err(OpError::IoError),
    }
}

impl ListenerModel {
    /// No accept is pending twice, and none on a closed listener.
    pub open spec fn wf(self) -> bool {
        &&& self.accepts.no_duplicates()
        &&& self.closed ==> self.accepts.len() == 0
    }

    /// An open listener with no pending accept.
    pub open spec fn fresh() -> ListenerModel {
        ListenerModel { accepts: Seq::empty(), closed: false }
    }

    /// Issues an accept. On a closed listener it is canceled at once;
    /// otherwise it is pending from now on.
    pub open spec fn accept(self, op: OpId) -> (ListenerModel, Result<(), OpError>) {
        if self.closed {
            (self, Err(OpError::Canceled))
        } else if self.accepts.contains(op) {
            (self, Ok(()))
        } else {
            (ListenerModel { accepts: self.accepts.push(op), closed: self.closed }, Ok(()))
        }
    }

    /// Ends a pending accept with what the socket reported. An accept that
    /// is not pending cannot end.
    pub open spec fn accepted(self, op: OpId, conn: Completion<()>) -> (
        ListenerModel,
        Option<Result<StreamModel, OpError>>,
    ) {
        if self.accepts.contains(op) {
            (
                ListenerModel { accepts: self.accepts.remove_value(op), closed: self.closed },
                Some(accept_outcome(conn)),
            )
        } else {
            (self, None)
        }
    }

    /// Closes the listener: every pending accept fails with `Canceled`.
    pub open spec fn close(self) -> (ListenerModel, Seq<(OpId, OpError)>) {
        (ListenerModel { accepts: Seq::empty(), closed: true }, canceled_all(self.accepts))
    }
}

/// A bound, passively open socket as the operations see it. Its one
/// capability is accept; every pending accept races against the token that
/// closing revokes.
pub struct Listener {
    cancel: CancelToken,
}

impl View for Listener {
    type V = ListenerModel;

    closed spec fn view(&self) -> ListenerModel {
        ListenerModel { accepts: self.cancel@.waiters, closed: self.cancel@.canceled }
    }
}

impl Listener {
    /// The state of the listener is well formed.
    pub open spec fn wf(&self) -> bool {
        self@.wf()
    }

    /// A listener for a socket that has just been bound.
    pub fn new() -> (listener: Listener)
        ensures
            listener.wf(),
            listener@ == ListenerModel::fresh(),
    {
        Listener { cancel: CancelToken::new() }
    }

    /// Whether the listener has been closed.
    pub fn is_closed(&self) -> (closed: bool)
        ensures
            closed == self@.closed,
    {
        self.cancel.is_canceled()
    }

    /// Issues the accept `op`: it is pending from now on. On a closed
    /// listener it fails with `Canceled` and is not pending.
    pub fn accept(&mut self, op: OpId) -> (started: Result<(), OpError>)
        requires
            old(self).wf(),
        ensures
            final(self).wf(),
            (final(self)@, started) == old(self)@.accept(op),
    {
        match self.cancel.race::<()>(op, None) {
            Race::Canceled => Err(OpError::Canceled),
            Race::Pending | Race::Ready(_) => Ok(()),
        }
    }

    /// Ends the accept `op` with what the socket reported. On success the
    /// new connection is wrapped as a stream for the caller to register. For
    /// an `op` that is not pending nothing changes and nothing is returned.
    pub fn accepted(&mut self, op: OpId, conn: Completion<()>) -> (done: Option<
        Result<Stream, OpError>,
    >)
        requires
            old(self).wf(),
        ensures
            final(self).wf(),
            final(self)@ == old(self)@.accepted(op, conn).0,
            match done {
                Some(Ok(stream)) => stream.wf() && old(self)@.accepted(op, conn).1 == Some(
                    Ok::<StreamModel, OpError>(stream@),
                ),
                Some(Err(e)) => old(self)@.accepted(op, conn).1 == Some(
                    Err::<StreamModel, OpError>(e),
                ),
                None => old(self)@.accepted(op, conn).1.is_none(),
            },
    {
        if !self.cancel.is_waiting(op) {
            return None;
        }
        match self.cancel.race(op, Some(conn)) {
            Race::Ready(Completion::Done(_)) => Some(Ok(Stream::new())),
            Race::Ready(Completion::Failed) => Some(Err(OpError::IoError)),
            Race::Canceled | Race::Pending => Some(Err(OpError::Canceled)),
        }
    }

    /// Closes the listener and settles the accepts that were pending on it.
    pub fn close(&mut self) -> (canceled: Vec<(OpId, OpError)>)
        requires
            old(self).wf(),
        ensures
            final(self).wf(),
            (final(self)@, canceled@) == old(self)@.close(),
    {
        let woken = self.cancel.cancel();
        let mut canceled: Vec<(OpId, OpError)> = Vec::new();
        cancel_each(&woken, 0, &mut canceled);
        canceled
    }
}

} // verus!
