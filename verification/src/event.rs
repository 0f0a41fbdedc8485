use vstd::prelude::*;

verus! {

/// What the operating system reported at the end of one piece of work.
#[derive(Debug, PartialEq, Eq)]
pub enum Completion<T> {
    /// The work was done and produced this value.
    Done(T),
    /// The operating system reported a failure.
    Failed,
}

/// What becomes of an operation on one half of a connection when it is
/// issued.
#[derive(Clone, Copy, Debug, PartialEq, Eq, Structural)]
pub enum Started {
    /// It holds the half's lock: its work on the socket starts now.
    Run,
    /// Another operation holds the lock: it waits for its turn.
    Wait,
}

} // verus!
