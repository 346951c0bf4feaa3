//! Errors of the ESRT component.

use vstd::prelude::*;

verus! {

/// Errors of the ESRT component.
#[derive(Debug, Clone, Copy, PartialEq, Eq, Structural)]
pub enum EsrtError {
    /// The operation is not implemented.
    NotImplemented,
}

} // verus!
