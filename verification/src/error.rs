//! The error type shared by the cell view and the registry.

use vstd::prelude::*;

verus! {

/// The two ways in which an operation of this crate can fail.
#[derive(Debug, PartialEq, Eq)]
pub enum Error {
    /// An index was not below the length of the buffer.
    IndexOutOfRange,
    /// An item refused to be consumed. The text is the cause that the item gave.
    ConsumptionFailed(String),
}

} // verus!
