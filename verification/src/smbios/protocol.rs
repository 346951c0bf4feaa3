//! The decisions of the EFI SMBIOS protocol (EFI_SMBIOS_PROTOCOL) on top of
//! the record manager: how much memory a record passed to Add spans, which
//! record GetNext returns, and the EFI status that each manager error is
//! reported as.

use crate::efi_status::{
    EFI_BUFFER_TOO_SMALL, EFI_DEVICE_ERROR, EFI_INVALID_PARAMETER, EFI_NOT_FOUND, EFI_OUT_OF_RESOURCES, EFI_SUCCESS,
};
use crate::smbios::error::SmbiosError;
use crate::smbios::smbios_derive::{ProducerHandle, SmbiosError as ManagerError, SmbiosManager};
use crate::smbios::service::{SMBIOS_HANDLE_PI_RESERVED, SmbiosHandle, SmbiosTableHeader, SmbiosType};
use vstd::prelude::*;

verus! {

/// How far past its structured part a record passed to Add is searched for
/// the double null that ends its string pool.
pub const MAX_STRING_POOL_SIZE: usize = 4096;

/// Outcome of searching `b` from `off` for two consecutive null bytes, with
/// `nulls` nulls just seen and the search bounded at `start` plus
/// `MAX_STRING_POOL_SIZE`: `Some(Some(end))` when found (`end` is the offset
/// just past them), `Some(None)` when the bound is reached first, `None`
/// where a byte past the end of `b` would be read.
pub open spec fn pool_scan(b: Seq<u8>, start: int, off: int, nulls: int) -> Option<Option<int>>
    decreases start + MAX_STRING_POOL_SIZE - off,
{
    if nulls >= 2 {
        Some(Some(off))
    } else if off >= start + MAX_STRING_POOL_SIZE {
        Some(None)
    } else if off < 0 || off >= b.len() {
        None
    } else {
        pool_scan(b, start, off + 1, if b[off] == 0 { nulls + 1 } else { 0 })
    }
}

/// The size of the record at the start of `record` (the memory that holds
/// it): its structured part, whose length its header gives, and its string
/// pool up to the double null that ends it. Fails with
/// EFI_INVALID_PARAMETER when the length is shorter than a header or when
/// no double null comes within `MAX_STRING_POOL_SIZE` bytes.
pub fn record_size_for_add(record: &[u8]) -> (r: Result<usize, usize>)
    requires
        record@.len() >= 4,
        record@[1] >= 4 ==> pool_scan(record@, record@[1] as int, record@[1] as int, 0) is Some,
    ensures
        record@[1] < 4 ==> r == Err::<usize, usize>(EFI_INVALID_PARAMETER),
        record@[1] >= 4 ==> match pool_scan(record@, record@[1] as int, record@[1] as int, 0)->0 {
            Some(end) => r == Ok::<usize, usize>(end as usize),
            None => r == Err::<usize, usize>(EFI_INVALID_PARAMETER),
        },
{
    let record_length = record[1] as usize;
    if record_length < 4 {
        return Err(EFI_INVALID_PARAMETER);
    }
    let ghost b = record@;
    let mut consecutive_nulls: usize = 0;
    let mut offset: usize = record_length;
    while consecutive_nulls < 2 && offset < record_length + MAX_STRING_POOL_SIZE
        invariant
            b == record@,
            record_length == b[1],
            record_length <= offset <= record_length + MAX_STRING_POOL_SIZE,
            consecutive_nulls <= 2,
            pool_scan(b, record_length as int, offset as int, consecutive_nulls as int) == pool_scan(
                b,
                record_length as int,
                record_length as int,
                0,
            ),
            pool_scan(b, record_length as int, offset as int, consecutive_nulls as int) is Some,
        decreases record_length + MAX_STRING_POOL_SIZE - offset,
    {
        let byte = record[offset];
        if byte == 0 {
            consecutive_nulls += 1;
        } else {
            consecutive_nulls = 0;
        }
        offset += 1;
    }
    if consecutive_nulls < 2 {
        return Err(EFI_INVALID_PARAMETER);
    }
    Ok(offset)
}

/// The status that Add reports for the manager's answer.
pub open spec fn add_status(r: Result<SmbiosHandle, SmbiosError>) -> usize {
    match r {
        Ok(_) => EFI_SUCCESS,
        Err(SmbiosError::StringContainsNull) => EFI_INVALID_PARAMETER,
        Err(SmbiosError::EmptyStringInPool) => EFI_INVALID_PARAMETER,
        Err(SmbiosError::RecordTooSmall) => EFI_BUFFER_TOO_SMALL,
        Err(SmbiosError::MalformedRecordHeader) => EFI_INVALID_PARAMETER,
        Err(SmbiosError::InvalidStringPoolTermination) => EFI_INVALID_PARAMETER,
        Err(SmbiosError::StringPoolTooSmall) => EFI_BUFFER_TOO_SMALL,
        Err(SmbiosError::HandleExhausted) => EFI_OUT_OF_RESOURCES,
        Err(SmbiosError::AllocationFailed) => EFI_OUT_OF_RESOURCES,
        Err(SmbiosError::StringTooLong) => EFI_INVALID_PARAMETER,
        Err(_) => EFI_DEVICE_ERROR,
    }
}

/// The status that Add reports for the manager's answer.
pub fn add_result_status(r: Result<SmbiosHandle, SmbiosError>) -> (s: usize)
    ensures
        s == add_status(r),
{
    match r {
        Ok(_) => EFI_SUCCESS,
        Err(SmbiosError::StringContainsNull) => EFI_INVALID_PARAMETER,
        Err(SmbiosError::EmptyStringInPool) => EFI_INVALID_PARAMETER,
        Err(SmbiosError::RecordTooSmall) => EFI_BUFFER_TOO_SMALL,
        Err(SmbiosError::MalformedRecordHeader) => EFI_INVALID_PARAMETER,
        Err(SmbiosError::InvalidStringPoolTermination) => EFI_INVALID_PARAMETER,
        Err(SmbiosError::StringPoolTooSmall) => EFI_BUFFER_TOO_SMALL,
        Err(SmbiosError::HandleExhausted) => EFI_OUT_OF_RESOURCES,
        Err(SmbiosError::AllocationFailed) => EFI_OUT_OF_RESOURCES,
        Err(SmbiosError::StringTooLong) => EFI_INVALID_PARAMETER,
        Err(_) => EFI_DEVICE_ERROR,
    }
}

/// The status that Add reports for what the record manager answered:
/// EFI_BUFFER_TOO_SMALL for a record or pool too small, EFI_OUT_OF_RESOURCES
/// when no handle is left, EFI_INVALID_PARAMETER for a malformed string or
/// pool, EFI_DEVICE_ERROR otherwise.
pub open spec fn manager_add_status(r: Result<SmbiosHandle, ManagerError>) -> usize {
    match r {
        Ok(_) => EFI_SUCCESS,
        Err(ManagerError::BufferTooSmall) => EFI_BUFFER_TOO_SMALL,
        Err(ManagerError::OutOfResources) => EFI_OUT_OF_RESOURCES,
        Err(ManagerError::InvalidParameter) => EFI_INVALID_PARAMETER,
        Err(ManagerError::StringTooLong) => EFI_INVALID_PARAMETER,
        Err(_) => EFI_DEVICE_ERROR,
    }
}

/// Add: adds the record at the start of `record` (the memory that holds
/// it) to `manager`. The record spans its structured part and its string
/// pool up to the double null that ends it (`record_size_for_add`); a
/// record whose extent cannot be found is EFI_INVALID_PARAMETER and changes
/// nothing. Otherwise exactly those bytes go to `add_from_bytes`; on
/// success `*smbios_handle` is set to the handle assigned, else it is left
/// as it was; the status is that of `manager_add_status`.
pub fn add_record(
    manager: &mut SmbiosManager,
    producer_handle: Option<ProducerHandle>,
    record: &[u8],
    smbios_handle: &mut SmbiosHandle,
) -> (status: usize)
    requires
        record@.len() >= 4,
        record@[1] >= 4 ==> pool_scan(record@, record@[1] as int, record@[1] as int, 0) is Some,
    ensures
        ({
            let b = record@;
            let scan = pool_scan(b, b[1] as int, b[1] as int, 0);
            if b[1] < 4 || scan->0 is None {
                &&& status == EFI_INVALID_PARAMETER
                &&& *final(manager) == *old(manager)
                &&& *final(smbios_handle) == *old(smbios_handle)
            } else {
                exists|res: Result<SmbiosHandle, ManagerError>|
                    #[trigger] SmbiosManager::added_from_bytes(
                        *old(manager),
                        *final(manager),
                        producer_handle,
                        b.take(scan->0->0),
                        res,
                    ) && status == manager_add_status(res) && *final(smbios_handle) == match res {
                        Ok(h) => h,
                        Err(_) => *old(smbios_handle),
                    }
            }
        }),
{
    let total = match record_size_for_add(record) {
        Ok(n) => n,
        Err(s) => {
            return s;
        },
    };
    let ghost b = record@;
    let record_len = record.len();
    proof {
        assert(b[1] >= 4);
        assert(pool_scan(b, b[1] as int, b[1] as int, 0) matches Some(Some(_)));
        lemma_pool_scan_bound(b, b[1] as int, b[1] as int, 0);
        let end = pool_scan(b, b[1] as int, b[1] as int, 0)->0->0;
        assert(end <= record_len);
        assert(total == end as usize);
        assert(total == end);
    }
    let full = vstd::slice::slice_subrange(record, 0, total);
    assert(full@ =~= b.take(total as int));
    let res = manager.add_from_bytes(producer_handle, full);
    match res {
        Ok(h) => {
            *smbios_handle = h;
            EFI_SUCCESS
        },
        Err(ManagerError::BufferTooSmall) => EFI_BUFFER_TOO_SMALL,
        Err(ManagerError::OutOfResources) => EFI_OUT_OF_RESOURCES,
        Err(ManagerError::InvalidParameter) => EFI_INVALID_PARAMETER,
        Err(ManagerError::StringTooLong) => EFI_INVALID_PARAMETER,
        Err(_) => EFI_DEVICE_ERROR,
    }
}

/// Where the search for the end of a string pool ends, it ends within `b`.
proof fn lemma_pool_scan_bound(b: Seq<u8>, start: int, off: int, nulls: int)
    requires
        0 <= off,
        pool_scan(b, start, off, nulls) matches Some(Some(_)),
        nulls >= 2 ==> off <= b.len(),
    ensures
        off <= pool_scan(b, start, off, nulls)->0->0 <= b.len(),
    decreases start + MAX_STRING_POOL_SIZE - off,
{
    if nulls < 2 && off < start + MAX_STRING_POOL_SIZE && off < b.len() {
        lemma_pool_scan_bound(b, start, off + 1, if b[off] == 0 { nulls + 1 } else { 0 });
    }
}

/// The status that UpdateString reports for the manager's answer.
pub open spec fn update_string_status(r: Result<(), SmbiosError>) -> usize {
    match r {
        Ok(()) => EFI_SUCCESS,
        Err(SmbiosError::StringContainsNull) => EFI_INVALID_PARAMETER,
        Err(SmbiosError::HandleNotFound) => EFI_NOT_FOUND,
        Err(SmbiosError::StringIndexOutOfRange) => EFI_INVALID_PARAMETER,
        Err(SmbiosError::StringTooLong) => EFI_INVALID_PARAMETER,
        Err(_) => EFI_DEVICE_ERROR,
    }
}

/// The status that UpdateString reports for the manager's answer.
pub fn update_string_result_status(r: Result<(), SmbiosError>) -> (s: usize)
    ensures
        s == update_string_status(r),
{
    match r {
        Ok(()) => EFI_SUCCESS,
        Err(SmbiosError::StringContainsNull) => EFI_INVALID_PARAMETER,
        Err(SmbiosError::HandleNotFound) => EFI_NOT_FOUND,
        Err(SmbiosError::StringIndexOutOfRange) => EFI_INVALID_PARAMETER,
        Err(SmbiosError::StringTooLong) => EFI_INVALID_PARAMETER,
        Err(_) => EFI_DEVICE_ERROR,
    }
}

/// The status that Remove reports for the manager's answer.
pub fn remove_result_status(r: Result<(), SmbiosError>) -> (s: usize)
    ensures
        s == match r {
            Ok(()) => EFI_SUCCESS,
            Err(SmbiosError::HandleNotFound) => EFI_NOT_FOUND,
            Err(_) => EFI_DEVICE_ERROR,
        },
{
    match r {
        Ok(()) => EFI_SUCCESS,
        Err(SmbiosError::HandleNotFound) => EFI_NOT_FOUND,
        Err(_) => EFI_DEVICE_ERROR,
    }
}

/// Whether a header passes the type filter.
pub open spec fn passes(h: SmbiosTableHeader, type_filter: Option<SmbiosType>) -> bool {
    match type_filter {
        Some(t) => h.record_type == t,
        None => true,
    }
}

/// Index of the first header at or after `from` that passes the filter, or
/// `hs.len()`.
pub open spec fn first_passing(hs: Seq<SmbiosTableHeader>, type_filter: Option<SmbiosType>, from: int) -> int
    decreases hs.len() - from,
{
    if from < 0 || from >= hs.len() {
        hs.len() as int
    } else if passes(hs[from], type_filter) {
        from
    } else {
        first_passing(hs, type_filter, from + 1)
    }
}

/// Index of the first header that passes the filter and carries `handle`,
/// or `hs.len()`.
pub open spec fn first_with_handle(
    hs: Seq<SmbiosTableHeader>,
    type_filter: Option<SmbiosType>,
    handle: SmbiosHandle,
    from: int,
) -> int
    decreases hs.len() - from,
{
    if from < 0 || from >= hs.len() {
        hs.len() as int
    } else if passes(hs[from], type_filter) && hs[from].handle == handle {
        from
    } else {
        first_with_handle(hs, type_filter, handle, from + 1)
    }
}

/// Index of the record that GetNext returns after `handle` among the
/// records that pass the filter: the first one for the reserved handle,
/// else the one after the record carrying `handle`; `hs.len()` when there
/// is none.
pub open spec fn successor(hs: Seq<SmbiosTableHeader>, type_filter: Option<SmbiosType>, handle: SmbiosHandle) -> int {
    if handle == SMBIOS_HANDLE_PI_RESERVED {
        first_passing(hs, type_filter, 0)
    } else {
        let k = first_with_handle(hs, type_filter, handle, 0);
        if k >= hs.len() {
            hs.len() as int
        } else {
            first_passing(hs, type_filter, k + 1)
        }
    }
}

fn passes_filter(h: SmbiosTableHeader, type_filter: Option<SmbiosType>) -> (r: bool)
    ensures
        r == passes(h, type_filter),
{
    match type_filter {
        Some(t) => h.record_type == t,
        None => true,
    }
}

fn find_passing(headers: &[SmbiosTableHeader], type_filter: Option<SmbiosType>, from: usize) -> (r: usize)
    requires
        from <= headers@.len(),
    ensures
        r == first_passing(headers@, type_filter, from as int),
{
    let mut i = from;
    while i < headers.len()
        invariant
            from <= i <= headers@.len(),
            first_passing(headers@, type_filter, i as int) == first_passing(headers@, type_filter, from as int),
        decreases headers@.len() - i,
    {
        if passes_filter(headers[i], type_filter) {
            return i;
        }
        i += 1;
    }
    i
}

/// GetNext over the records whose headers are `headers`, in table order:
/// the index of the record after `*smbios_handle` among those that pass
/// `type_filter` (the first one when `*smbios_handle` is the reserved
/// handle), with `*smbios_handle` set to its handle; EFI_NOT_FOUND, with
/// `*smbios_handle` set to the reserved handle, when there is none.
pub fn get_next_record(
    headers: &[SmbiosTableHeader],
    smbios_handle: &mut SmbiosHandle,
    type_filter: Option<SmbiosType>,
) -> (r: Result<usize, usize>)
    ensures
        ({
            let j = successor(headers@, type_filter, *old(smbios_handle));
            if j < headers@.len() {
                r == Ok::<usize, usize>(j as usize) && *final(smbios_handle) == headers@[j].handle
            } else {
                r == Err::<usize, usize>(EFI_NOT_FOUND) && *final(smbios_handle) == SMBIOS_HANDLE_PI_RESERVED
            }
        }),
{
    let handle = *smbios_handle;
    let next = if handle == SMBIOS_HANDLE_PI_RESERVED {
        find_passing(headers, type_filter, 0)
    } else {
        let mut k: usize = 0;
        while k < headers.len() && !(passes_filter(headers[k], type_filter) && headers[k].handle == handle)
            invariant
                k <= headers@.len(),
                first_with_handle(headers@, type_filter, handle, k as int) == first_with_handle(
                    headers@,
                    type_filter,
                    handle,
                    0,
                ),
            decreases headers@.len() - k,
        {
            k += 1;
        }
        if k >= headers.len() {
            headers.len()
        } else {
            find_passing(headers, type_filter, k + 1)
        }
    };
    if next < headers.len() {
        *smbios_handle = headers[next].handle;
        Ok(next)
    } else {
        *smbios_handle = SMBIOS_HANDLE_PI_RESERVED;
        Err(EFI_NOT_FOUND)
    }
}

} // verus!
