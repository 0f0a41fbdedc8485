use crate::cancel::OpId;
use std::collections::VecDeque;
use vstd::prelude::*;

verus! {

/// Whether `op` holds the lock of this line.
pub open spec fn holds<T>(line: Seq<(OpId, T)>, op: OpId) -> bool {
    line.len() > 0 && line[0].0 == op
}

/// The operations of a line, in the order in which they will hold the lock.
pub open spec fn ops_of<T>(line: Seq<(OpId, T)>) -> Seq<OpId> {
    Seq::new(line.len(), |i: int| line[i].0)
}

/// A single-holder lock for one half of a connection. Operations line up in
/// the order in which they ask; the head of the line holds the lock and the
/// others wait their turn. Each operation brings an item of its own, which
/// it gets back when it lets go of the lock.
///
/// The view is the line itself, holder first.
pub struct HalfLock<T> {
    line: VecDeque<(OpId, T)>,
}

impl<T> View for HalfLock<T> {
    type V = Seq<(OpId, T)>;

    closed spec fn view(&self) -> Seq<(OpId, T)> {
        self.line@
    }
}

impl<T> HalfLock<T> {
    /// A lock that nobody holds.
    pub fn new() -> (lock: Self)
        ensures
            lock@ == Seq::<(OpId, T)>::empty(),
    {
        HalfLock { line: VecDeque::new() }
    }

    /// Whether no operation holds or awaits the lock.
    pub fn is_idle(&self) -> (idle: bool)
        ensures
            idle == (self@.len() == 0),
    {
        self.line.len() == 0
    }

    /// The holder of the lock and the item it brought.
    pub fn head(&self) -> (head: Option<&(OpId, T)>)
        ensures
            match head {
                Some(entry) => self@.len() > 0 && *entry == self@[0],
                None => self@.len() == 0,
            },
    {
        if self.line.len() > 0 {
            Some(&self.line[0])
        } else {
            None
        }
    }

    /// Joins the end of the line. The lock is granted at once exactly when
    /// the line was empty.
    pub fn acquire(&mut self, op: OpId, item: T) -> (granted: bool)
        ensures
            final(self)@ == old(self)@.push((op, item)),
            granted == (old(self)@.len() == 0),
    {
        let granted = self.line.len() == 0;
        self.line.push_back((op, item));
        granted
    }

    /// Lets go of the lock if `op` holds it: `op` leaves the line with its
    /// item, and the next in line, if any, becomes the holder. Another
    /// operation changes nothing.
    pub fn release(&mut self, op: OpId) -> (item: Option<T>)
        ensures
            (final(self)@, item) == if holds(old(self)@, op) {
                (old(self)@.drop_first(), Some(old(self)@[0].1))
            } else {
                (old(self)@, None)
            },
    {
        if self.line.len() > 0 && self.line[0].0 == op {
            match self.line.pop_front() {
                Some(entry) => Some(entry.1),
                None => None,
            }
        } else {
            None
        }
    }

    /// Empties the line and names the operations that stood in it, holder
    /// first.
    pub fn drain(&mut self) -> (ops: Vec<OpId>)
        ensures
            final(self)@ == Seq::<(OpId, T)>::empty(),
            ops@ == ops_of(old(self)@),
    {
        let mut ops: Vec<OpId> = Vec::new();
        while self.line.len() > 0
            invariant
                ops@.len() + self@.len() == old(self)@.len(),
                forall|i: int| 0 <= i < ops@.len() ==> ops@[i] == old(self)@[i].0,
                forall|i: int|
                    0 <= i < self@.len() ==> self@[i] == old(self)@[ops@.len() + i],
            decreases self@.len(),
        {
            match self.line.pop_front() {
                Some(entry) => {
                    ops.push(entry.0);
                },
                None => {},
            }
        }
        ops
    }
}

} // verus!
