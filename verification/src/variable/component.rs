//! Variable storage components.

use vstd::prelude::*;

verus! {

/// Sets up the variable storage provider.
#[derive(Debug, Clone, Copy, PartialEq, Eq, Structural)]
pub struct VariableStorageInitManager {}

impl VariableStorageInitManager {
    /// Creates the component.
    pub fn new() -> (r: Self)
        ensures
            r == (VariableStorageInitManager {}),
    {
        Self {}
    }
}

/// Sets up the variable services.
#[derive(Debug, Clone, Copy, PartialEq, Eq, Structural)]
pub struct VariableServiceInitManager {}

impl VariableServiceInitManager {
    /// Creates the component.
    pub fn new() -> (r: Self)
        ensures
            r == (VariableServiceInitManager {}),
    {
        Self {}
    }
}

} // verus!
