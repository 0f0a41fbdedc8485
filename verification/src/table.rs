use crate::error::OpError;
use std::collections::BTreeMap;
use vstd::prelude::*;

verus! {

/// An opaque integer capability naming one live resource.
pub type Handle = u32;

/// The mathematical state of a resource table: the resources behind their
/// handles, and the handle that the next registration will issue. Handles
/// are issued in increasing order and never again.
pub struct TableModel<R> {
    pub entries: Map<Handle, R>,
    pub next_handle: Handle,
}

impl<R> TableModel<R> {
    /// Every registered handle was issued earlier.
    pub open spec fn wf(self) -> bool {
        forall|rid: Handle| #[trigger] self.entries.contains_key(rid) ==> rid < self.next_handle
    }

    /// The empty table, whose first handle is 0.
    pub open spec fn fresh() -> TableModel<R> {
        TableModel { entries: Map::empty(), next_handle: 0 }
    }

    /// Whether `rid` is registered.
    pub open spec fn has(self, rid: Handle) -> bool {
        self.entries.contains_key(rid)
    }

    /// The table after `resource` was registered, and its handle.
    pub open spec fn register(self, resource: R) -> (TableModel<R>, Handle) {
        (
            TableModel {
                entries: self.entries.insert(self.next_handle, resource),
                next_handle: (self.next_handle + 1) as Handle,
            },
            self.next_handle,
        )
    }

    /// The resource behind `rid`.
    pub open spec fn get(self, rid: Handle) -> Result<R, OpError> {
        if self.has(rid) {
            Ok(self.entries[rid])
        } else {
            Err(OpError::InvalidHandle)
        }
    }

    /// The table without `rid`, and the resource that was behind it.
    pub open spec fn remove(self, rid: Handle) -> (TableModel<R>, Result<R, OpError>) {
        (
            TableModel { entries: self.entries.remove(rid), next_handle: self.next_handle },
            self.get(rid),
        )
    }

    /// The table with `resource` behind `rid`.
    pub open spec fn restore(self, rid: Handle, resource: R) -> TableModel<R> {
        TableModel { entries: self.entries.insert(rid, resource), next_handle: self.next_handle }
    }
}

/// The registry that maps handles to the resources it owns.
pub struct ResourceTable<R> {
    index: BTreeMap<Handle, R>,
    next_rid: Handle,
}

impl<R> View for ResourceTable<R> {
    type V = TableModel<R>;

    closed spec fn view(&self) -> TableModel<R> {
        TableModel { entries: self.index@, next_handle: self.next_rid }
    }
}

impl<R> ResourceTable<R> {
    /// The state of the table is well formed.
    pub open spec fn wf(&self) -> bool {
        self@.wf()
    }

    /// The empty table.
    pub fn new() -> (table: Self)
        ensures
            table.wf(),
            table@ == TableModel::<R>::fresh(),
    {
        ResourceTable { index: BTreeMap::new(), next_rid: 0 }
    }

    /// The handle that the next registration will issue.
    pub fn next_handle(&self) -> (next: Handle)
        ensures
            next == self@.next_handle,
    {
        self.next_rid
    }

    /// Whether `rid` is registered.
    pub fn has(&self, rid: Handle) -> (found: bool)
        ensures
            found == self@.has(rid),
    {
        self.index.contains_key(&rid)
    }

    /// Takes ownership of `resource` and issues a fresh handle for it.
    pub fn register(&mut self, resource: R) -> (rid: Handle)
        requires
            old(self).wf(),
            old(self)@.next_handle < u32::MAX,
        ensures
            final(self).wf(),
            (final(self)@, rid) == old(self)@.register(resource),
    {
        let rid = self.next_rid;
        self.index.insert(rid, resource);
        self.next_rid = rid + 1;
        proof {
            assert forall|h: Handle| #[trigger] self@.entries.contains_key(h) implies h
                < self@.next_handle by {
                if h != rid {
                    assert(old(self)@.entries.contains_key(h));
                }
            }
        }
        rid
    }

    /// The resource behind `rid`, or `InvalidHandle` where `rid` was never
    /// issued or has been removed.
    pub fn get(&self, rid: Handle) -> (found: Result<&R, OpError>)
        ensures
            match found {
                Ok(resource) => self@.get(rid) == Ok::<R, OpError>(*resource),
                Err(e) => self@.get(rid) == Err::<R, OpError>(e),
            },
    {
        match self.index.get(&rid) {
            Some(resource) => Ok(resource),
            None => Err(OpError::InvalidHandle),
        }
    }

    /// Removes `rid` and hands its resource to the caller, or reports
    /// `InvalidHandle` where `rid` was never issued or has been removed.
    pub fn remove(&mut self, rid: Handle) -> (taken: Result<R, OpError>)
        requires
            old(self).wf(),
        ensures
            final(self).wf(),
            (final(self)@, taken) == old(self)@.remove(rid),
    {
        let taken = self.index.remove(&rid);
        proof {
            assert forall|h: Handle| #[trigger] self@.entries.contains_key(h) implies h
                < self@.next_handle by {
                assert(old(self)@.entries.contains_key(h));
            }
        }
        match taken {
            Some(resource) => Ok(resource),
            None => Err(OpError::InvalidHandle),
        }
    }

    /// Puts a resource back behind a handle that was issued earlier.
    pub(crate) fn restore(&mut self, rid: Handle, resource: R)
        requires
            old(self).wf(),
            rid < old(self)@.next_handle,
        ensures
            final(self).wf(),
            final(self)@ == old(self)@.restore(rid, resource),
    {
        self.index.insert(rid, resource);
        proof {
            assert forall|h: Handle| #[trigger] self@.entries.contains_key(h) implies h
                < self@.next_handle by {
                if h != rid {
                    assert(old(self)@.entries.contains_key(h));
                }
            }
        }
    }
}

} // verus!
