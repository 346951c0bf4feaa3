//! EFI status values.

use vstd::prelude::*;

verus! {

/// The bit that marks an EFI status as an error: the top bit of a `usize`.
pub const EFI_ERROR_BIT: usize = usize::MAX / 2 + 1;

/// EFI_SUCCESS.
pub const EFI_SUCCESS: usize = 0;

/// EFI_INVALID_PARAMETER.
pub const EFI_INVALID_PARAMETER: usize = EFI_ERROR_BIT + 2;

/// EFI_BUFFER_TOO_SMALL.
pub const EFI_BUFFER_TOO_SMALL: usize = EFI_ERROR_BIT + 5;

/// EFI_NOT_READY.
pub const EFI_NOT_READY: usize = EFI_ERROR_BIT + 6;

/// EFI_DEVICE_ERROR.
pub const EFI_DEVICE_ERROR: usize = EFI_ERROR_BIT + 7;

/// EFI_OUT_OF_RESOURCES.
pub const EFI_OUT_OF_RESOURCES: usize = EFI_ERROR_BIT + 9;

/// EFI_NOT_FOUND.
pub const EFI_NOT_FOUND: usize = EFI_ERROR_BIT + 14;

/// EFI_ALREADY_STARTED.
pub const EFI_ALREADY_STARTED: usize = EFI_ERROR_BIT + 20;

} // verus!
