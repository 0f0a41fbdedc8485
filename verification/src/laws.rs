//! What follows from the contracts for sequences of calls: each law is a
//! proof over the mathematical states that the functions' contracts speak
//! of.

pub mod host;
pub mod stream;
pub mod table;
