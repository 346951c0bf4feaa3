//! Errors of the performance component.

use vstd::prelude::*;

verus! {

/// Errors of the performance record handling.
#[derive(Debug, Clone, Copy, PartialEq, Eq, Structural)]
pub enum PerformanceError {
    /// A record's data does not fit in a record whose length is one byte.
    RecordTooLarge,
}

} // verus!
