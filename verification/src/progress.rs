//! The outcome of asking a pick, once, whether it has something to give.

use vstd::prelude::*;

verus! {

/// What one poll found.
#[derive(Debug)]
pub enum Progress<T> {
    /// The value is there.
    Ready(T),
    /// Nothing yet: the task that polled is woken when that changes.
    Pending,
}

} // verus!
