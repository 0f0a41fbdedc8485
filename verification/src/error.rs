use vstd::prelude::*;

verus! {

/// The failure kinds that an operation can deliver to the script.
#[derive(Clone, Copy, Debug, PartialEq, Eq, Structural)]
pub enum OpError {
    /// The operation named a handle that is unknown or no longer valid.
    InvalidHandle,
    /// The address could not be bound or listened on.
    BindError,
    /// The operating system reported a failure during accept, read or write.
    IoError,
    /// The resource was closed while the operation was waiting.
    Canceled,
}

} // verus!
