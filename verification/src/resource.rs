use crate::cancel::OpId;
use crate::error::OpError;
use crate::listener::{Listener, ListenerModel};
use crate::stream::{Stream, StreamModel};
use vstd::prelude::*;

verus! {

/// What an operation needs the resource behind its handle to be.
#[derive(Clone, Copy, Debug, PartialEq, Eq)]
pub enum Claim {
    /// A listener that has not been closed: for accept.
    OpenListener,
    /// A stream that has not been closed: for read and write.
    OpenStream,
    /// A stream, open or still finishing its writes: for the end of a read
    /// or of a write.
    AnyStream,
    /// A resource of either kind that has not been closed: for close.
    Open,
}

/// The mathematical state of a resource of either kind.
pub enum ResourceModel {
    Listener(ListenerModel),
    Stream(StreamModel),
}

impl ResourceModel {
    /// The state, whatever the kind, is well formed.
    pub open spec fn wf(self) -> bool {
        match self {
            ResourceModel::Listener(listener) => listener.wf(),
            ResourceModel::Stream(stream) => stream.wf(),
        }
    }

    /// Whether the resource has been closed.
    pub open spec fn closed(self) -> bool {
        match self {
            ResourceModel::Listener(listener) => listener.closed,
            ResourceModel::Stream(stream) => stream.closed,
        }
    }

    /// Whether the resource is what `claim` asks for.
    pub open spec fn meets(self, claim: Claim) -> bool {
        match claim {
            Claim::OpenListener => self is Listener && !self.closed(),
            Claim::OpenStream => self is Stream && !self.closed(),
            Claim::AnyStream => self is Stream,
            Claim::Open => !self.closed(),
        }
    }

    /// Closed, with no operation left that could still finish: a closed
    /// listener, or a closed stream without a pending write.
    pub open spec fn spent(self) -> bool {
        match self {
            ResourceModel::Listener(listener) => listener.closed,
            ResourceModel::Stream(stream) => stream.drained(),
        }
    }

    /// Closes the resource, whatever its kind, and settles the operations
    /// that are canceled by it.
    pub open spec fn close(self) -> (ResourceModel, Seq<(OpId, OpError)>) {
        match self {
            ResourceModel::Listener(listener) => (
                ResourceModel::Listener(listener.close().0),
                listener.close().1,
            ),
            ResourceModel::Stream(stream) => (
                ResourceModel::Stream(stream.close().0),
                stream.close().1,
            ),
        }
    }
}

/// A live object behind a handle: a listening socket or a connected stream.
pub enum Resource {
    Listener(Listener),
    Stream(Stream),
}

impl View for Resource {
    type V = ResourceModel;

    open spec fn view(&self) -> ResourceModel {
        match self {
            Resource::Listener(listener) => ResourceModel::Listener(listener@),
            Resource::Stream(stream) => ResourceModel::Stream(stream@),
        }
    }
}

impl Resource {
    /// The resource, whatever its kind, is well formed.
    pub open spec fn wf(&self) -> bool {
        match self {
            Resource::Listener(listener) => listener.wf(),
            Resource::Stream(stream) => stream.wf(),
        }
    }

    /// A well-formed resource has a well-formed state.
    pub proof fn lemma_wf_view(&self)
        requires
            self.wf(),
        ensures
            self@.wf(),
    {
        match self {
            Resource::Listener(_) => {},
            Resource::Stream(stream) => {
                stream.lemma_wf_view();
            },
        }
    }

    /// Whether the resource has been closed.
    pub fn is_closed(&self) -> (closed: bool)
        ensures
            closed == self@.closed(),
    {
        match self {
            Resource::Listener(listener) => listener.is_closed(),
            Resource::Stream(stream) => stream.is_closed(),
        }
    }

    /// Whether the resource is what `claim` asks for.
    pub fn meets(&self, claim: Claim) -> (met: bool)
        ensures
            met == self@.meets(claim),
    {
        let is_stream = match self {
            Resource::Listener(_) => false,
            Resource::Stream(_) => true,
        };
        match claim {
            Claim::OpenListener => !is_stream && !self.is_closed(),
            Claim::OpenStream => is_stream && !self.is_closed(),
            Claim::AnyStream => is_stream,
            Claim::Open => !self.is_closed(),
        }
    }

    /// Whether the resource is closed and nothing pending is left on it.
    pub fn is_spent(&self) -> (spent: bool)
        ensures
            spent == self@.spent(),
    {
        match self {
            Resource::Listener(listener) => listener.is_closed(),
            Resource::Stream(stream) => stream.is_drained(),
        }
    }

    /// Closes the resource, whatever its kind, and settles the operations
    /// that are canceled by it.
    pub fn close(&mut self) -> (canceled: Vec<(OpId, OpError)>)
        requires
            old(self).wf(),
        ensures
            final(self).wf(),
            (final(self)@, canceled@) == old(self)@.close(),
    {
        match self {
            Resource::Listener(listener) => listener.close(),
            Resource::Stream(stream) => stream.close(),
        }
    }
}

} // verus!
