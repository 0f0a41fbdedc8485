//! The handle-indexed resource model of a host that does network I/O for a
//! sandboxed, single-threaded script.
//!
//! The script names sockets by integer handles and issues four operations:
//! listen, accept, read and write. This library decides what becomes of
//! each of them: whether the handle is valid, whether the operation runs
//! now or waits for its half of the stream, what it returns when the socket
//! has answered, and what closing a resource cancels. The work on the
//! sockets is the caller's: it tells the library what the operating system
//! reported and gets back what to hand to the script.
//!
//! Every type has a mathematical state, its view, and each function states
//! the change of that state exactly. The module `laws` holds what follows
//! for sequences of calls.

pub mod cancel;
pub mod error;
pub mod event;
pub mod laws;
pub mod listener;
pub mod lock;
pub mod ops;
pub mod resource;
pub mod stream;
pub mod table;
