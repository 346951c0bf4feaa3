//! The graphics console component.

use vstd::prelude::*;

verus! {

/// Installs the driver binding of the graphics console.
#[derive(Debug, Clone, Copy, PartialEq, Eq, Structural)]
pub struct GraphicsConsoleProvider;

impl GraphicsConsoleProvider {
    /// Creates the component.
    pub fn new() -> (r: Self)
        ensures
            r == GraphicsConsoleProvider,
    {
        Self
    }
}

} // verus!
