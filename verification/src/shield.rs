//! The value an entry point returns when its work was cut short.
//!
//! An unwind must never reach the host, so the caller runs every entry point
//! under a guard that catches it. What the host then receives is decided
//! here: the result if there is one, the default of the result type if there
//! is none (`false`, zero, no string).

use vstd::prelude::*;

verus! {

/// Settles the outcome of a guarded operation: `Some` carries what the
/// operation returned, `None` stands for one that was cut short and is
/// answered with the default of its result type.
pub fn with_unwind_default<T: Default>(outcome: Option<T>) -> (value: T)
    ensures
        match outcome {
            Some(returned) => value == returned,
            None => call_ensures(T::default, (), value),
        },
{
    match outcome {
        Some(returned) => returned,
        None => T::default(),
    }
}

} // verus!
