//! A value-carrying condition variable: a typed value guarded by an
//! exclusive lock, paired with a signal channel, so that threads can block
//! until the value satisfies a predicate, optionally bounded by a timeout.

mod cvar;
mod sys;

pub use cvar::ConditionVariable;
pub use cvar::LockFault;
pub use cvar::Notify;
pub use cvar::seq_has;
pub use cvar::slice_contains;
