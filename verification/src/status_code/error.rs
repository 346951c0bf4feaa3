//! Errors of the report status code handler and their EFI status values.

pub use crate::efi_status::{
    EFI_ALREADY_STARTED, EFI_ERROR_BIT, EFI_INVALID_PARAMETER, EFI_NOT_FOUND, EFI_NOT_READY, EFI_SUCCESS,
};
use vstd::prelude::*;

verus! {

/// Errors of the report status code handler.
#[derive(Debug, Clone, Copy, PartialEq, Eq, Structural)]
pub enum RscHandlerError {
    /// The callback is registered already.
    CallbackAlreadyRegistered,
    /// An event operation of the boot services failed with this status.
    EventCreationFailed(usize),
    /// The callback to unregister is not registered.
    UnregisterNotFound,
    /// A callback at or below TPL_HIGH_LEVEL has no event.
    MissingEvent,
    /// The handler is initialized already.
    AlreadyInitialized,
    /// The handler is not initialized.
    NotInitialized,
    /// A status code was reported while another report was in progress.
    ReentrantReportStatusCode,
}

/// The EFI status that an error is reported as.
pub open spec fn error_status(e: RscHandlerError) -> usize {
    match e {
        RscHandlerError::CallbackAlreadyRegistered => EFI_ALREADY_STARTED,
        RscHandlerError::EventCreationFailed(status) => status,
        RscHandlerError::UnregisterNotFound => EFI_NOT_FOUND,
        RscHandlerError::MissingEvent => EFI_NOT_FOUND,
        RscHandlerError::AlreadyInitialized => EFI_ALREADY_STARTED,
        RscHandlerError::NotInitialized => EFI_NOT_READY,
        RscHandlerError::ReentrantReportStatusCode => EFI_ALREADY_STARTED,
    }
}

impl RscHandlerError {
    /// The EFI status that this error is reported as.
    pub fn to_status(self) -> (r: usize)
        ensures
            r == error_status(self),
    {
        match self {
            RscHandlerError::CallbackAlreadyRegistered => EFI_ALREADY_STARTED,
            RscHandlerError::EventCreationFailed(status) => status,
            RscHandlerError::UnregisterNotFound => EFI_NOT_FOUND,
            RscHandlerError::MissingEvent => EFI_NOT_FOUND,
            RscHandlerError::AlreadyInitialized => EFI_ALREADY_STARTED,
            RscHandlerError::NotInitialized => EFI_NOT_READY,
            RscHandlerError::ReentrantReportStatusCode => EFI_ALREADY_STARTED,
        }
    }
}

/// The EFI status that a handler operation returns: success, or its error's
/// status.
pub fn result_status(r: Result<(), RscHandlerError>) -> (s: usize)
    ensures
        s == match r {
            Ok(()) => EFI_SUCCESS,
            Err(e) => error_status(e),
        },
{
    match r {
        Ok(()) => EFI_SUCCESS,
        Err(e) => e.to_status(),
    }
}

} // verus!
