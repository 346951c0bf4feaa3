//! The ESRT component.

use vstd::prelude::*;

verus! {

/// Publishes the EFI System Resource Table.
#[derive(Debug, Clone, Copy)]
pub struct Esrt;

} // verus!
