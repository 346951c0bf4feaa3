//! The retry policy of variable reads.
//!
//! A variable is read with a buffer of the size the caller suggests (none
//! when it suggests none). When the runtime services answer that the
//! buffer is too small, the buffer is resized to the size they give and the
//! read is tried once more; a second such answer is an error.

use crate::efi_status::EFI_INVALID_PARAMETER;
use crate::variable::error::{EFI_BUFFER_TOO_SMALL, VariableError};
use vstd::prelude::*;

verus! {

/// What a read of a variable returned.
#[derive(Debug, Clone, Copy, PartialEq, Eq, Structural)]
pub enum GetVariableStatus {
    /// The variable was read.
    Success { data_size: usize, attributes: u32 },
    /// The buffer was too small; `data_size` is the size needed.
    BufferTooSmall { data_size: usize, attributes: u32 },
    /// The read failed with this EFI status.
    Error(usize),
}

/// What to do after a read.
#[derive(Debug, Clone, Copy, PartialEq, Eq, Structural)]
pub enum GetVariableStep {
    /// Return the buffer with these attributes.
    Done { attributes: u32 },
    /// Resize the buffer to this size and read again.
    Retry { data_size: usize },
    /// Fail with this error.
    Fail(VariableError),
}

/// Size of the buffer of the first read: the suggested size, or none.
pub fn initial_buffer_size(data_size: Option<usize>) -> (r: usize)
    ensures
        r == match data_size {
            Some(n) => n,
            None => 0,
        },
{
    match data_size {
        Some(n) => n,
        None => 0,
    }
}

/// The step after a read that returned `status`; `first_attempt` tells
/// whether it was the first read. Only EFI_BUFFER_TOO_SMALL and
/// EFI_INVALID_PARAMETER are expected as error statuses.
pub fn get_variable_step(first_attempt: bool, status: GetVariableStatus) -> (r: GetVariableStep)
    requires
        status matches GetVariableStatus::Error(s) ==> s == EFI_BUFFER_TOO_SMALL || s == EFI_INVALID_PARAMETER,
    ensures
        r == match status {
            GetVariableStatus::Success { data_size, attributes } => GetVariableStep::Done { attributes },
            GetVariableStatus::BufferTooSmall { data_size, attributes } => if first_attempt {
                GetVariableStep::Retry { data_size }
            } else {
                GetVariableStep::Fail(VariableError::BufferTooSmall)
            },
            GetVariableStatus::Error(s) => if s == EFI_BUFFER_TOO_SMALL {
                GetVariableStep::Fail(VariableError::BufferTooSmall)
            } else {
                GetVariableStep::Fail(VariableError::InvalidUtf16Name)
            },
        },
{
    match status {
        GetVariableStatus::Success { data_size: _, attributes } => GetVariableStep::Done { attributes },
        GetVariableStatus::BufferTooSmall { data_size, attributes: _ } => {
            if first_attempt {
                GetVariableStep::Retry { data_size }
            } else {
                GetVariableStep::Fail(VariableError::BufferTooSmall)
            }
        },
        GetVariableStatus::Error(s) => GetVariableStep::Fail(VariableError::from_status(s)),
    }
}

/// The error of variable storage that an expected EFI error status
/// stands for.
pub open spec fn status_error(s: usize) -> VariableError {
    if s == EFI_BUFFER_TOO_SMALL {
        VariableError::BufferTooSmall
    } else {
        VariableError::InvalidUtf16Name
    }
}

/// Whether a read answered a status that variable storage expects: any but
/// an error other than EFI_BUFFER_TOO_SMALL and EFI_INVALID_PARAMETER.
pub open spec fn expected_status(status: GetVariableStatus) -> bool {
    status matches GetVariableStatus::Error(s) ==> s == EFI_BUFFER_TOO_SMALL || s == EFI_INVALID_PARAMETER
}

/// What a second read that answered `o` gives.
pub open spec fn second_read_result(o: (GetVariableStatus, Vec<u8>), r: Result<(Vec<u8>, u32), VariableError>) -> bool {
    match o.0 {
        GetVariableStatus::Success { data_size, attributes } => r == Ok::<(Vec<u8>, u32), VariableError>(
            (o.1, attributes),
        ),
        GetVariableStatus::BufferTooSmall { .. } => r == Err::<(Vec<u8>, u32), VariableError>(
            VariableError::BufferTooSmall,
        ),
        GetVariableStatus::Error(s) => r == Err::<(Vec<u8>, u32), VariableError>(status_error(s)),
    }
}

/// Reads a variable. `read` reads it into a buffer of the size it is given
/// (no buffer for size 0) and answers the status and the buffer. The first
/// read uses the size that `data_size` suggests; when it answers that the
/// buffer is too small, a second read uses the size it gave, and a second
/// such answer is an error. A read that succeeds gives the buffer and the
/// variable's attributes.
pub fn get_variable<R: Fn(usize) -> (GetVariableStatus, Vec<u8>)>(data_size: Option<usize>, read: R) -> (r:
    Result<(Vec<u8>, u32), VariableError>)
    requires
        forall|n: usize| read.requires((n,)),
        forall|n: usize, o: (GetVariableStatus, Vec<u8>)| #[trigger] read.ensures((n,), o) ==> expected_status(o.0),
    ensures
        exists|o1: (GetVariableStatus, Vec<u8>)|
            #[trigger] read.ensures((initial_size(data_size),), o1) && match o1.0 {
                GetVariableStatus::Success { data_size, attributes } => r == Ok::<
                    (Vec<u8>, u32),
                    VariableError,
                >((o1.1, attributes)),
                GetVariableStatus::BufferTooSmall { data_size, attributes } => exists|
                    o2: (GetVariableStatus, Vec<u8>),
                | #[trigger] read.ensures((data_size,), o2) && second_read_result(o2, r),
                GetVariableStatus::Error(s) => r == Err::<(Vec<u8>, u32), VariableError>(status_error(s)),
            },
{
    let (status, data) = read(initial_buffer_size(data_size));
    assert(read.ensures((initial_size(data_size),), (status, data)));
    match get_variable_step(true, status) {
        GetVariableStep::Done { attributes } => Ok((data, attributes)),
        GetVariableStep::Retry { data_size: size } => {
            let (status2, data2) = read(size);
            assert(read.ensures((size,), (status2, data2)));
            match get_variable_step(false, status2) {
                GetVariableStep::Done { attributes } => Ok((data2, attributes)),
                GetVariableStep::Retry { .. } => Err(VariableError::BufferTooSmall),
                GetVariableStep::Fail(e) => Err(e),
            }
        },
        GetVariableStep::Fail(e) => Err(e),
    }
}

/// Size that `initial_buffer_size` gives for `data_size`.
pub open spec fn initial_size(data_size: Option<usize>) -> usize {
    match data_size {
        Some(n) => n,
        None => 0,
    }
}

} // verus!
