//! The default font component.

use vstd::prelude::*;

verus! {

/// Registers the default narrow-glyph "simple font" package with the HII
/// database once the HII Database protocol is installed.
#[derive(Debug, Clone, Copy, Default, PartialEq, Eq, Structural)]
pub struct DefaultFontProvider;

impl DefaultFontProvider {
    /// Creates the component.
    pub fn new() -> (r: Self)
        ensures
            r == DefaultFontProvider,
    {
        Self
    }
}

} // verus!
