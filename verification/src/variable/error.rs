//! Errors of variable storage.

pub use crate::efi_status::EFI_BUFFER_TOO_SMALL;
use crate::efi_status::EFI_INVALID_PARAMETER;
use vstd::prelude::*;

verus! {

/// Errors of variable storage.
#[derive(Debug, Clone, Copy, PartialEq, Eq, Structural)]
pub enum VariableError {
    /// The buffer is too small for the variable.
    BufferTooSmall,
    /// The variable name is not valid UTF-16.
    InvalidUtf16Name,
}

impl VariableError {
    /// The error that an EFI status stands for: EFI_BUFFER_TOO_SMALL or
    /// EFI_INVALID_PARAMETER (an invalid name); no other status is an
    /// error of variable storage.
    pub fn from_status(status: usize) -> (r: Self)
        requires
            status == EFI_BUFFER_TOO_SMALL || status == EFI_INVALID_PARAMETER,
        ensures
            status == EFI_BUFFER_TOO_SMALL ==> r == VariableError::BufferTooSmall,
            status == EFI_INVALID_PARAMETER ==> r == VariableError::InvalidUtf16Name,
    {
        if status == EFI_BUFFER_TOO_SMALL {
            VariableError::BufferTooSmall
        } else {
            VariableError::InvalidUtf16Name
        }
    }
}

} // verus!
