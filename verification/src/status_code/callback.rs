//! Identity of a registered status code callback.

use vstd::prelude::*;

verus! {

/// A status code callback, identified by the address of its function: a
/// Rust function or an EFI function.
#[derive(Debug, Clone, Copy, PartialEq, Eq, Structural)]
pub enum RscHandlerCallback {
    /// A Rust callback.
    Rust(usize),
    /// An EFI callback.
    Efi(usize),
}

} // verus!
