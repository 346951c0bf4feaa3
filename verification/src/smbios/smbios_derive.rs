//! A self-contained SMBIOS record manager.
//!
//! Records are stored as complete byte images (header, structured data and
//! string pool). The manager validates string pools, hands out unique
//! handles and supports string updates, removal and lookup by handle and
//! type.

use crate::le_bytes::{le16, le32, le64, push_le16, push_le32, push_le64};
use crate::smbios::manager_laws::{
    law_add_keeps_handles_unique, law_remove_keeps_handles_unique, law_updated_pool_count, lemma_pool_count,
    lossy_keeps_readable, string_readable, unique_handles,
};
use vstd::prelude::*;
use vstd::string::StringSliceAdditionalSpecFns;

verus! {

/// SMBIOS record handle (16-bit identifier).
pub type SmbiosHandle = u16;

/// Special handle value asking for automatic assignment.
pub const SMBIOS_HANDLE_PI_RESERVED: SmbiosHandle = 0xFFFE;

/// SMBIOS record type.
pub type SmbiosType = u8;

/// Maximum length of an SMBIOS string, per the specification.
pub const SMBIOS_STRING_MAX_LENGTH: usize = 64;

/// Exclusive upper bound of the handles the manager assigns (1 up to 0xFEFE).
pub const SMBIOS_HANDLE_LIMIT: u16 = 0xFEFF;

/// Identity of the driver that produced a record (the address of its image
/// handle), kept so that lookups can report it back.
pub type ProducerHandle = usize;

/// Errors of the record manager.
#[derive(Debug, Clone, Copy, PartialEq, Eq, Structural)]
pub enum SmbiosError {
    InvalidParameter,
    OutOfResources,
    HandleAlreadyInUse,
    HandleNotFound,
    UnsupportedRecordType,
    InvalidHandle,
    StringTooLong,
    BufferTooSmall,
}

/// SMBIOS 2.x (32-bit) entry point structure.
pub struct SmbiosEntryPoint {
    /// "_SM_"
    pub anchor_string: [u8; 4],
    pub checksum: u8,
    pub length: u8,
    pub major_version: u8,
    pub minor_version: u8,
    pub max_structure_size: u16,
    pub revision: u8,
    pub formatted_area: [u8; 5],
    /// "_DMI_"
    pub intermediate_anchor: [u8; 5],
    pub intermediate_checksum: u8,
    pub table_length: u16,
    pub table_address: u32,
    pub structure_count: u16,
    pub bcd_revision: u8,
}

/// SMBIOS 3.x (64-bit) entry point structure.
pub struct Smbios30EntryPoint {
    /// "_SM3_"
    pub anchor_string: [u8; 5],
    pub checksum: u8,
    pub length: u8,
    pub major_version: u8,
    pub minor_version: u8,
    pub doc_rev: u8,
    pub revision: u8,
    pub reserved: u8,
    pub table_max_size: u32,
    pub table_address: u64,
}

/// The 4-byte header at the start of every SMBIOS record.
#[derive(Debug, Clone, Copy, PartialEq, Eq, Structural)]
pub struct SmbiosTableHeader {
    pub record_type: SmbiosType,
    pub length: u8,
    pub handle: SmbiosHandle,
}

impl SmbiosTableHeader {
    /// Creates a header from its three fields.
    pub fn new(record_type: SmbiosType, length: u8, handle: SmbiosHandle) -> (r: Self)
        ensures
            r == (SmbiosTableHeader { record_type, length, handle }),
    {
        Self { record_type, length, handle }
    }

    /// The header as it is laid out in memory: type, length, handle (little-endian).
    pub open spec fn spec_bytes(self) -> Seq<u8> {
        seq![self.record_type, self.length] + le16(self.handle)
    }

    /// Serializes the header in its memory layout.
    pub fn to_bytes(&self) -> (r: Vec<u8>)
        ensures
            r@ == self.spec_bytes(),
    {
        let mut out: Vec<u8> = Vec::new();
        out.push(self.record_type);
        out.push(self.length);
        push_le16(&mut out, self.handle);
        assert(out@ =~= self.spec_bytes());
        out
    }
}

// ---------------------------------------------------------------------------
// String pools
// ---------------------------------------------------------------------------

/// Index of the first zero byte of `s`, or `s.len()` when there is none.
pub open spec fn first_zero(s: Seq<u8>) -> int
    decreases s.len(),
{
    if s.len() == 0 {
        0
    } else if s[0] == 0 {
        0
    } else {
        1 + first_zero(s.drop_first())
    }
}

/// Outcome of checking the body of a string pool (the pool without its final
/// two null bytes): the body is a run of non-empty strings of at most 64 bytes,
/// each ended by a null byte (the last one may instead end at the body's end).
/// The count is the number of strings; otherwise the error of the first bad
/// string: an empty one (consecutive nulls) or a too long one.
pub open spec fn pool_body_result(p: Seq<u8>) -> Result<nat, SmbiosError>
    decreases p.len(),
{
    if p.len() == 0 {
        Ok(0)
    } else {
        let k = first_zero(p);
        if k <= 0 {
            Err(SmbiosError::InvalidParameter)
        } else if k > SMBIOS_STRING_MAX_LENGTH {
            Err(SmbiosError::StringTooLong)
        } else {
            let next = if k + 1 <= p.len() {
                k + 1
            } else {
                p.len() as int
            };
            match pool_body_result(p.subrange(next, p.len() as int)) {
                Ok(n) => Ok(n + 1),
                Err(e) => Err(e),
            }
        }
    }
}

/// Outcome of validating a whole string pool area and counting its strings:
/// it must end with a double null, and its body must be well formed.
pub open spec fn pool_result(area: Seq<u8>) -> Result<nat, SmbiosError> {
    let len = area.len();
    if len < 2 || area[len - 1] != 0 || area[len - 2] != 0 {
        Err(SmbiosError::InvalidParameter)
    } else {
        pool_body_result(area.take(len - 2))
    }
}

/// Outcome of validating a string for a string pool (by its UTF-8 bytes).
pub open spec fn string_check(bytes: Seq<u8>) -> Result<(), SmbiosError> {
    if bytes.len() > SMBIOS_STRING_MAX_LENGTH {
        Err(SmbiosError::StringTooLong)
    } else if bytes.contains(0) {
        Err(SmbiosError::InvalidParameter)
    } else {
        Ok(())
    }
}

/// Outcome of counting the strings of a complete record image.
pub open spec fn record_strings_result(data: Seq<u8>) -> Result<nat, SmbiosError> {
    if data.len() < 4 {
        Err(SmbiosError::BufferTooSmall)
    } else if data.len() < data[1] {
        Err(SmbiosError::BufferTooSmall)
    } else if data.len() < data[1] + 2 {
        Err(SmbiosError::InvalidParameter)
    } else {
        pool_result(data.skip(data[1] as int))
    }
}

/// Serialized string pool of a list of strings: each string followed by a
/// null byte, then a final null; an empty list is two null bytes.
pub open spec fn pool_bytes(strings: Seq<Seq<u8>>) -> Seq<u8> {
    if strings.len() == 0 {
        seq![0u8, 0u8]
    } else {
        terminated(strings) + seq![0u8]
    }
}

/// Each string followed by a null byte, concatenated.
pub open spec fn terminated(strings: Seq<Seq<u8>>) -> Seq<u8>
    decreases strings.len(),
{
    if strings.len() == 0 {
        Seq::empty()
    } else {
        terminated(strings.drop_last()) + strings.last() + seq![0u8]
    }
}

pub(crate) proof fn lemma_first_zero(s: Seq<u8>, k: int)
    requires
        0 <= k <= s.len(),
        forall|j: int| 0 <= j < k ==> s[j] != 0,
        k == s.len() || s[k] == 0,
    ensures
        first_zero(s) == k,
    decreases k,
{
    if k > 0 {
        lemma_first_zero(s.drop_first(), k - 1);
    }
}

/// Combines a count of strings already seen with the outcome of the rest.
pub open spec fn add_count(c: nat, r: Result<nat, SmbiosError>) -> Result<nat, SmbiosError> {
    match r {
        Ok(n) => Ok(c + n),
        Err(e) => Err(e),
    }
}

/// Validates the format of a string pool area and counts its strings.
///
/// The area must end with a double null; between, non-empty strings of at
/// most 64 bytes separated by single nulls.
pub fn validate_and_count_strings(area: &[u8]) -> (r: Result<usize, SmbiosError>)
    ensures
        match r {
            Ok(n) => pool_result(area@) == Ok::<nat, SmbiosError>(n as nat),
            Err(e) => pool_result(area@) == Err::<nat, SmbiosError>(e),
        },
{
    let len = area.len();
    if len < 2 || area[len - 1] != 0 || area[len - 2] != 0 {
        return Err(SmbiosError::InvalidParameter);
    }
    if len == 2 {
        assert(area@.take(0) =~= Seq::<u8>::empty());
        return Ok(0);
    }
    let ghost body = area@.take(len - 2);
    let mut count: usize = 0;
    let mut i: usize = 0;
    let data_end = len - 2;
    assert(body.subrange(0, data_end as int) =~= body);
    while i < data_end
        invariant
            data_end == len - 2,
            len == area@.len(),
            body == area@.take(len - 2),
            i <= data_end,
            count <= i,
            pool_result(area@) == add_count(
                count as nat,
                pool_body_result(body.subrange(i as int, data_end as int)),
            ),
        decreases data_end - i,
    {
        let start = i;
        while i < data_end && area[i] != 0
            invariant
                start <= i <= data_end,
                data_end == len - 2,
                len == area@.len(),
                forall|j: int| start <= j < i ==> area@[j] != 0,
            decreases data_end - i,
        {
            i += 1;
        }
        let ghost rest = body.subrange(start as int, data_end as int);
        proof {
            lemma_first_zero(rest, i - start);
        }
        if i > start {
            let string_len = i - start;
            if string_len > SMBIOS_STRING_MAX_LENGTH {
                return Err(SmbiosError::StringTooLong);
            }
            count += 1;
        } else {
            return Err(SmbiosError::InvalidParameter);
        }
        i += 1;
        proof {
            if i <= data_end {
                assert(rest.subrange(i - start, rest.len() as int) =~= body.subrange(
                    i as int,
                    data_end as int,
                ));
            } else {
                assert(rest.subrange(rest.len() as int, rest.len() as int) =~= body.subrange(
                    data_end as int,
                    data_end as int,
                ));
            }
        }
        if i > data_end {
            i = data_end;
        }
    }
    assert(body.subrange(data_end as int, data_end as int) =~= Seq::<u8>::empty());
    Ok(count)
}

/// Checks a string for use in a string pool: at most 64 bytes and no null byte.
pub fn validate_string(s: &str) -> (r: Result<(), SmbiosError>)
    ensures
        r == string_check(s.spec_bytes()),
{
    let bytes = s.as_bytes();
    if bytes.len() > SMBIOS_STRING_MAX_LENGTH {
        return Err(SmbiosError::StringTooLong);
    }
    let mut i: usize = 0;
    while i < bytes.len()
        invariant
            i <= bytes@.len(),
            bytes@.len() <= SMBIOS_STRING_MAX_LENGTH,
            bytes@ == s.spec_bytes(),
            forall|j: int| 0 <= j < i ==> bytes@[j] != 0,
        decreases bytes@.len() - i,
    {
        if bytes[i] == 0 {
            assert(bytes@.contains(0));
            return Err(SmbiosError::InvalidParameter);
        }
        i += 1;
    }
    Ok(())
}

/// Counts the strings of a complete record image (header, structured data and
/// string pool), the string pool starting at the header's length.
pub fn count_strings_in_record(data: &[u8]) -> (r: Result<usize, SmbiosError>)
    ensures
        match r {
            Ok(n) => record_strings_result(data@) == Ok::<nat, SmbiosError>(n as nat),
            Err(e) => record_strings_result(data@) == Err::<nat, SmbiosError>(e),
        },
{
    if data.len() < 4 {
        return Err(SmbiosError::BufferTooSmall);
    }
    let header_length = data[1] as usize;
    if data.len() < header_length {
        return Err(SmbiosError::BufferTooSmall);
    }
    if data.len() < header_length + 2 {
        return Err(SmbiosError::InvalidParameter);
    }
    let pool = slice_from(data, header_length);
    validate_and_count_strings(pool)
}

/// Appends the bytes of `src` to `out`.
fn append_bytes(out: &mut Vec<u8>, src: &[u8])
    ensures
        final(out)@ == old(out)@ + src@,
{
    let mut i: usize = 0;
    while i < src.len()
        invariant
            i <= src@.len(),
            out@ == old(out)@ + src@.take(i as int),
        decreases src@.len() - i,
    {
        out.push(src[i]);
        proof {
            assert(out@ =~= old(out)@ + src@.take(i + 1));
        }
        i += 1;
    }
    proof {
        assert(src@.take(src@.len() as int) =~= src@);
    }
}

/// The suffix of `s` from `start`.
fn slice_from(s: &[u8], start: usize) -> (r: &[u8])
    requires
        start <= s@.len(),
    ensures
        r@ == s@.skip(start as int),
{
    let r = vstd::slice::slice_subrange(s, start, s.len());
    assert(r@ =~= s@.skip(start as int));
    r
}


// ---------------------------------------------------------------------------
// Records and the manager
// ---------------------------------------------------------------------------

/// A stored SMBIOS record.
pub struct SmbiosRecord {
    /// Header of the record, carrying the handle it was given.
    pub header: SmbiosTableHeader,
    /// Driver that produced the record, if known.
    pub producer_handle: Option<ProducerHandle>,
    /// Complete record image: header, structured data and string pool.
    pub data: Vec<u8>,
    /// Number of strings in the string pool.
    pub string_count: usize,
    /// Whether the record belongs in the 32-bit table.
    pub smbios32_table: bool,
    /// Whether the record belongs in the 64-bit table.
    pub smbios64_table: bool,
}

/// A record whose header is complete (at least 4 bytes long) holds its
/// string pool after the header's length, and its string count is the
/// number of strings that the pool reads back as.
pub open spec fn record_counted(r: SmbiosRecord) -> bool {
    r.header.length >= 4 ==> r.data@.len() >= r.header.length + 2 && r.string_count == pool_strings(
        r.data@.skip(r.header.length as int),
    ).len()
}

/// Whether some record carries handle `h`.
pub open spec fn handle_in_use(records: Seq<SmbiosRecord>, h: int) -> bool {
    exists|i: int| 0 <= i < records.len() && records[i].header.handle == h
}

/// Handles that the manager may assign: 1 up to 0xFEFE.
pub open spec fn assignable(h: int) -> bool {
    1 <= h < SMBIOS_HANDLE_LIMIT
}

/// Every assignable handle is in use.
pub open spec fn all_handles_in_use(records: Seq<SmbiosRecord>) -> bool {
    forall|k: int| assignable(k) ==> #[trigger] handle_in_use(records, k)
}

/// Where the search for a free handle starts: the stored next handle, or 1
/// when the stored value is not assignable.
pub open spec fn scan_start(next_handle: u16) -> int {
    if assignable(next_handle as int) {
        next_handle as int
    } else {
        1
    }
}

/// `h` is the first free assignable handle met when scanning upwards from
/// `start` and wrapping around to 1 after 0xFEFE.
pub open spec fn first_free_from(records: Seq<SmbiosRecord>, start: int, h: int) -> bool {
    &&& assignable(h)
    &&& !handle_in_use(records, h)
    &&& if start <= h {
        forall|k: int| start <= k < h ==> #[trigger] handle_in_use(records, k)
    } else {
        &&& forall|k: int| start <= k < SMBIOS_HANDLE_LIMIT ==> #[trigger] handle_in_use(records, k)
        &&& forall|k: int| 1 <= k < h ==> #[trigger] handle_in_use(records, k)
    }
}

/// Index of the first record carrying handle `h`, or -1.
pub open spec fn index_of_handle(records: Seq<SmbiosRecord>, h: int) -> int
    decreases records.len(),
{
    if records.len() == 0 {
        -1
    } else if records[0].header.handle == h {
        0
    } else {
        let r = index_of_handle(records.drop_first(), h);
        if r < 0 {
            -1
        } else {
            r + 1
        }
    }
}

/// A record matches an optional type filter.
pub open spec fn type_matches(record: SmbiosRecord, filter: Option<SmbiosType>) -> bool {
    match filter {
        Some(t) => record.header.record_type == t,
        None => true,
    }
}

/// Index of the first record at or after `start` matching `filter`, or -1.
pub open spec fn next_match(records: Seq<SmbiosRecord>, start: int, filter: Option<SmbiosType>) -> int
    decreases records.len() - start,
{
    if start < 0 || start >= records.len() {
        -1
    } else if type_matches(records[start], filter) {
        start
    } else {
        next_match(records, start + 1, filter)
    }
}

/// Where a `get_next` search starts after handle `h`: the beginning for the
/// reserved handle, after the record carrying `h`, or past the end when no
/// record carries it.
pub open spec fn search_start(records: Seq<SmbiosRecord>, h: u16) -> int {
    if h == SMBIOS_HANDLE_PI_RESERVED {
        0
    } else {
        let i = index_of_handle(records, h as int);
        if i < 0 {
            records.len() as int
        } else {
            i + 1
        }
    }
}

/// The name of what `String::from_utf8_lossy` makes of a byte sequence, taken
/// back to bytes.
pub uninterp spec fn utf8_lossy(bytes: Seq<u8>) -> Seq<u8>;

/// Strings of a string pool, read up to its double null: each null-terminated
/// run of bytes, empty runs skipped, a run not terminated before the end of
/// `p` dropped.
pub open spec fn pool_strings(p: Seq<u8>) -> Seq<Seq<u8>> {
    pool_strings_from(p, 0, Seq::empty(), 0)
}

/// Strings read from position `i` of `p`, given the pending run `cur` and the
/// number of nulls just seen.
pub open spec fn pool_strings_from(p: Seq<u8>, i: int, cur: Seq<u8>, nulls: int) -> Seq<Seq<u8>>
    decreases p.len() - i,
{
    if i < 0 || i >= p.len() {
        Seq::empty()
    } else if p[i] == 0 {
        let emitted = if cur.len() > 0 {
            seq![cur]
        } else {
            Seq::empty()
        };
        if nulls + 1 >= 2 {
            emitted
        } else {
            emitted + pool_strings_from(p, i + 1, Seq::empty(), nulls + 1)
        }
    } else {
        pool_strings_from(p, i + 1, cur.push(p[i]), 0)
    }
}

/// Bytes of a string.
pub open spec fn string_bytes(s: String) -> Seq<u8> {
    vstd::utf8::encode_utf8(s@)
}

/// The string pool of a record whose string `n` (1-based) becomes `new_string`,
/// the other strings passing through lossy UTF-8 decoding.
pub open spec fn updated_pool(old_pool: Seq<u8>, n: int, new_string: Seq<u8>) -> Seq<u8> {
    let strings = lossy_all(pool_strings(old_pool));
    terminated(strings.update(n - 1, new_string)) + seq![0u8]
}

/// Lossy UTF-8 decoding gives back each of `strings` that is valid UTF-8
/// unchanged.
pub open spec fn lossy_keeps_valid(strings: Seq<Seq<u8>>) -> bool {
    forall|t: int|
        0 <= t < strings.len() && vstd::utf8::valid_utf8(strings[t]) ==> #[trigger] utf8_lossy(strings[t])
            == strings[t]
}

/// Each byte sequence passed through lossy UTF-8 decoding.
pub open spec fn lossy_all(strings: Seq<Seq<u8>>) -> Seq<Seq<u8>> {
    strings.map_values(|b: Seq<u8>| utf8_lossy(b))
}

/// The contents of a list of byte vectors.
pub open spec fn views(vs: Seq<Vec<u8>>) -> Seq<Seq<u8>> {
    vs.map_values(|v: Vec<u8>| v@)
}

/// Outcome of validating a list of strings: the error of the first bad one.
pub open spec fn strings_check(strings: Seq<Seq<u8>>) -> Result<(), SmbiosError>
    decreases strings.len(),
{
    if strings.len() == 0 {
        Ok(())
    } else {
        match string_check(strings[0]) {
            Err(e) => Err(e),
            Ok(()) => strings_check(strings.drop_first()),
        }
    }
}

/// Decodes `bytes` with `String::from_utf8_lossy` and returns the bytes of
/// the string it makes. The contract names the result (`utf8_lossy`, a
/// function of the bytes alone) and claims what std documents: the result
/// is valid UTF-8, valid UTF-8 comes back unchanged, and each invalid
/// sequence becomes U+FFFD (the bytes EF BF BD), so that bytes that are
/// not empty give bytes that are not empty and no null byte appears that
/// was not there. Which sequences count as one invalid sequence is not
/// stated.
#[verifier::external_body]
fn lossy_utf8_bytes(bytes: &[u8]) -> (r: Vec<u8>)
    ensures
        r@ == utf8_lossy(bytes@),
        vstd::utf8::valid_utf8(r@),
        vstd::utf8::valid_utf8(bytes@) ==> r@ == bytes@,
        bytes@.len() > 0 ==> r@.len() > 0,
        !bytes@.contains(0) ==> !r@.contains(0),
{
    String::from_utf8_lossy(bytes).as_bytes().to_vec()
}

proof fn lemma_index_of_handle(records: Seq<SmbiosRecord>, h: int, i: int)
    requires
        0 <= i <= records.len(),
        forall|j: int| 0 <= j < i ==> records[j].header.handle != h,
        i < records.len() ==> records[i].header.handle == h,
    ensures
        i < records.len() ==> index_of_handle(records, h) == i,
        i == records.len() ==> index_of_handle(records, h) == -1,
    decreases i,
{
    if i > 0 {
        lemma_index_of_handle(records.drop_first(), h, i - 1);
    }
}

proof fn lemma_index_of_handle_found(records: Seq<SmbiosRecord>, h: int)
    ensures
        index_of_handle(records, h) >= 0 ==> {
            let i = index_of_handle(records, h);
            &&& i < records.len()
            &&& records[i].header.handle == h
            &&& forall|j: int| 0 <= j < i ==> records[j].header.handle != h
        },
        index_of_handle(records, h) < 0 ==> index_of_handle(records, h) == -1 && !handle_in_use(
            records,
            h,
        ),
    decreases records.len(),
{
    if records.len() > 0 {
        lemma_index_of_handle_found(records.drop_first(), h);
        if index_of_handle(records, h) < 0 {
            assert forall|i: int| 0 <= i < records.len() implies records[i].header.handle != h by {
                if i > 0 {
                    assert(records[i] == records.drop_first()[i - 1]);
                }
            }
        }
        if index_of_handle(records, h) > 0 {
            assert forall|j: int| 0 <= j < index_of_handle(records, h) implies records[j].header.handle != h by {
                if j > 0 {
                    assert(records[j] == records.drop_first()[j - 1]);
                }
            }
        }
    }
}

proof fn lemma_next_match(records: Seq<SmbiosRecord>, start: int, filter: Option<SmbiosType>, j: int)
    requires
        0 <= start <= j <= records.len(),
        forall|k: int| start <= k < j ==> !type_matches(records[k], filter),
        j < records.len() ==> type_matches(records[j], filter),
    ensures
        j < records.len() ==> next_match(records, start, filter) == j,
        j == records.len() ==> next_match(records, start, filter) == -1,
    decreases j - start,
{
    if start < j {
        lemma_next_match(records, start + 1, filter, j);
    }
}

/// Number of candidates the handle search examines before giving up.
const MAX_HANDLE_ATTEMPTS: u32 = 0xFEFF;

/// The SMBIOS record manager.
pub struct SmbiosManager {
    records: Vec<SmbiosRecord>,
    next_handle: SmbiosHandle,
    major_version: u8,
    minor_version: u8,
    entry_point_32: Option<Box<SmbiosEntryPoint>>,
    entry_point_64: Option<Box<Smbios30EntryPoint>>,
    table_32_address: Option<u64>,
    table_64_address: Option<u64>,
}

impl SmbiosManager {
    /// The stored records, in insertion order.
    pub closed spec fn spec_records(&self) -> Seq<SmbiosRecord> {
        self.records@
    }

    /// Where the next handle search starts.
    pub closed spec fn spec_next_handle(&self) -> SmbiosHandle {
        self.next_handle
    }

    /// The SMBIOS version (major, minor).
    pub closed spec fn spec_version(&self) -> (u8, u8) {
        (self.major_version, self.minor_version)
    }

    /// No two stored records carry the same handle.
    pub open spec fn handles_unique(&self) -> bool {
        unique_handles(self.spec_records())
    }

    /// The manager is well formed: no two records carry the same handle, and
    /// each record whose header is complete holds its string pool, with as
    /// many strings as its string count says.
    pub open spec fn wf(&self) -> bool {
        &&& self.handles_unique()
        &&& forall|i: int| 0 <= i < self.spec_records().len() ==> #[trigger] record_counted(self.spec_records()[i])
    }

    /// Creates an empty manager for the given SMBIOS version.
    pub fn new(major_version: u8, minor_version: u8) -> (r: Self)
        ensures
            r.wf(),
            r.handles_unique(),
            r.spec_records() == Seq::<SmbiosRecord>::empty(),
            r.spec_next_handle() == 1,
            r.spec_version() == (major_version, minor_version),
    {
        Self {
            records: Vec::new(),
            next_handle: 1,
            major_version,
            minor_version,
            entry_point_32: None,
            entry_point_64: None,
            table_32_address: None,
            table_64_address: None,
        }
    }

    /// Whether some record carries `handle`.
    fn is_handle_allocated(&self, handle: SmbiosHandle) -> (r: bool)
        ensures
            r == handle_in_use(self.records@, handle as int),
    {
        let mut i: usize = 0;
        while i < self.records.len()
            invariant
                i <= self.records@.len(),
                forall|j: int| 0 <= j < i ==> self.records@[j].header.handle != handle,
            decreases self.records@.len() - i,
        {
            if self.records[i].header.handle == handle {
                return true;
            }
            i += 1;
        }
        false
    }

    /// Index of the first record carrying `handle`.
    fn find_record(&self, handle: SmbiosHandle) -> (r: Option<usize>)
        ensures
            match r {
                Some(i) => i == index_of_handle(self.records@, handle as int) && i
                    < self.records@.len(),
                None => index_of_handle(self.records@, handle as int) == -1,
            },
    {
        let mut i: usize = 0;
        while i < self.records.len()
            invariant
                i <= self.records@.len(),
                forall|j: int| 0 <= j < i ==> self.records@[j].header.handle != handle,
            decreases self.records@.len() - i,
        {
            if self.records[i].header.handle == handle {
                proof {
                    lemma_index_of_handle(self.records@, handle as int, i as int);
                }
                return Some(i);
            }
            i += 1;
        }
        proof {
            lemma_index_of_handle(self.records@, handle as int, i as int);
        }
        None
    }

    /// Assigns a handle: the first free one scanning upwards from the stored
    /// next handle, wrapping from 0xFEFE back to 1.
    fn allocate_handle(&mut self) -> (r: Result<SmbiosHandle, SmbiosError>)
        ensures
            final(self).records == old(self).records,
            final(self).major_version == old(self).major_version,
            final(self).minor_version == old(self).minor_version,
            final(self).entry_point_32 == old(self).entry_point_32,
            final(self).entry_point_64 == old(self).entry_point_64,
            final(self).table_32_address == old(self).table_32_address,
            final(self).table_64_address == old(self).table_64_address,
            match r {
                Ok(h) => {
                    &&& first_free_from(old(self).records@, scan_start(old(self).next_handle), h as int)
                    &&& final(self).next_handle == h + 1
                },
                Err(e) => {
                    &&& e == SmbiosError::OutOfResources
                    &&& all_handles_in_use(old(self).records@)
                    &&& final(self).next_handle == if assignable(old(self).next_handle as int) {
                        old(self).next_handle
                    } else {
                        SMBIOS_HANDLE_LIMIT
                    }
                },
            },
    {
        let mut attempts: u32 = 0;
        let ghost n0 = self.next_handle as int;
        let ghost start_valid = assignable(n0);
        let ghost mut wrapped = false;
        let ghost recs = self.records@;
        loop
            invariant
                self.records == old(self).records,
                self.records@ == recs,
                self.major_version == old(self).major_version,
                self.minor_version == old(self).minor_version,
                self.entry_point_32 == old(self).entry_point_32,
                self.entry_point_64 == old(self).entry_point_64,
                self.table_32_address == old(self).table_32_address,
                self.table_64_address == old(self).table_64_address,
                n0 == old(self).next_handle,
                start_valid == assignable(n0),
                attempts < MAX_HANDLE_ATTEMPTS,
                !wrapped ==> if start_valid {
                    &&& n0 <= self.next_handle <= SMBIOS_HANDLE_LIMIT
                    &&& attempts == self.next_handle - n0
                    &&& forall|k: int| n0 <= k < self.next_handle ==> #[trigger] handle_in_use(recs, k)
                } else {
                    attempts == 0 && self.next_handle == n0
                },
                wrapped ==> {
                    &&& 1 <= self.next_handle
                    &&& forall|k: int| 1 <= k < self.next_handle ==> #[trigger] handle_in_use(recs, k)
                    &&& if start_valid {
                        &&& self.next_handle < n0
                        &&& attempts == (SMBIOS_HANDLE_LIMIT - n0) + self.next_handle
                        &&& forall|k: int| n0 <= k < SMBIOS_HANDLE_LIMIT ==> #[trigger] handle_in_use(recs, k)
                    } else {
                        attempts == self.next_handle
                    }
                },
            decreases MAX_HANDLE_ATTEMPTS - attempts,
        {
            let candidate = self.next_handle;
            if candidate == 0 || candidate >= SMBIOS_HANDLE_LIMIT {
                self.next_handle = 1;
                attempts += 1;
                proof {
                    wrapped = true;
                }
                if attempts >= MAX_HANDLE_ATTEMPTS {
                    return Err(SmbiosError::OutOfResources);
                }
                continue;
            }
            if !self.is_handle_allocated(candidate) {
                self.next_handle = candidate + 1;
                return Ok(candidate);
            }
            self.next_handle += 1;
            attempts += 1;
            if attempts >= MAX_HANDLE_ATTEMPTS {
                return Err(SmbiosError::OutOfResources);
            }
        }
    }

    /// The record image stored for `record_data` under handle `h`: the same
    /// bytes with the handle field (bytes 2 and 3) set to `h`.
    pub open spec fn stored_image(record_data: Seq<u8>, h: u16) -> Seq<u8> {
        record_data.update(2, le16(h)[0]).update(3, le16(h)[1])
    }

    /// What `add_from_bytes` does: `new` is the manager after adding the
    /// record image `d` for `producer_handle` to `old`, with outcome `r`.
    pub open spec fn added_from_bytes(
        old: SmbiosManager,
        new: SmbiosManager,
        producer_handle: Option<ProducerHandle>,
        d: Seq<u8>,
        r: Result<SmbiosHandle, SmbiosError>,
    ) -> bool {
        let old_recs = old.spec_records();
        if d.len() < 4 || d[1] + 2 > d.len() {
            r == Err::<SmbiosHandle, SmbiosError>(SmbiosError::BufferTooSmall) && new == old
        } else if pool_result(d.skip(d[1] as int)) is Err {
            r == Err::<SmbiosHandle, SmbiosError>(pool_result(d.skip(d[1] as int))->Err_0) && new == old
        } else if all_handles_in_use(old_recs) {
            &&& r == Err::<SmbiosHandle, SmbiosError>(SmbiosError::OutOfResources)
            &&& new.spec_records() == old_recs
            &&& new.spec_version() == old.spec_version()
        } else {
            r is Ok && {
                let h = r->Ok_0;
                let rec = new.spec_records().last();
                &&& first_free_from(old_recs, scan_start(old.spec_next_handle()), h as int)
                &&& new.spec_next_handle() == h + 1
                &&& new.spec_version() == old.spec_version()
                &&& new.spec_records().len() == old_recs.len() + 1
                &&& new.spec_records().drop_last() == old_recs
                &&& rec.header == (SmbiosTableHeader { record_type: d[0], length: d[1], handle: h })
                &&& rec.producer_handle == producer_handle
                &&& rec.data@ == Self::stored_image(d, h)
                &&& rec.string_count as nat == pool_result(d.skip(d[1] as int))->Ok_0
                &&& rec.smbios32_table && rec.smbios64_table
            }
        }
    }

    /// Adds a record from its complete byte image (header, structured data and
    /// string pool) and returns the handle assigned to it.
    ///
    /// The image must be at least 4 bytes long and hold at least the header's
    /// length plus 2 bytes; the string pool that starts at the header's length
    /// must be well formed. The handle field of the stored image is set to the
    /// assigned handle.
    pub fn add_from_bytes(
        &mut self,
        producer_handle: Option<ProducerHandle>,
        record_data: &[u8],
    ) -> (r: Result<SmbiosHandle, SmbiosError>)
        ensures
            old(self).handles_unique() ==> final(self).handles_unique(),
            old(self).wf() ==> final(self).wf(),
            Self::added_from_bytes(*old(self), *final(self), producer_handle, record_data@, r),
    {
        if record_data.len() < 4 {
            return Err(SmbiosError::BufferTooSmall);
        }
        let record_type = record_data[0];
        let length = record_data[1];
        if (length as usize + 2) > record_data.len() {
            return Err(SmbiosError::BufferTooSmall);
        }
        let string_pool_start = length as usize;
        let string_pool_area = slice_from(record_data, string_pool_start);
        if string_pool_area.len() < 2 {
            return Err(SmbiosError::InvalidParameter);
        }
        let string_count = match validate_and_count_strings(string_pool_area) {
            Ok(n) => n,
            Err(e) => {
                return Err(e);
            },
        };
        let smbios_handle = match self.allocate_handle() {
            Ok(h) => h,
            Err(e) => {
                return Err(e);
            },
        };
        let record_header = SmbiosTableHeader { record_type, length, handle: smbios_handle };
        let mut data = vstd::slice::slice_to_vec(record_data);
        data.set(2, (smbios_handle & 0xff) as u8);
        data.set(3, ((smbios_handle >> 8) & 0xff) as u8);
        let smbios_record = SmbiosRecord {
            header: record_header,
            producer_handle,
            data,
            string_count,
            smbios32_table: true,
            smbios64_table: true,
        };
        self.records.push(smbios_record);
        proof {
            assert(self.records@.drop_last() =~= old(self).records@);
            assert(self.records@ =~= old(self).records@.push(self.records@.last()));
            let last = self.records@.last();
            if length >= 4 {
                let d = record_data@;
                assert(last.data@.skip(length as int) =~= d.skip(length as int));
                assert(string_pool_area@ =~= d.skip(length as int));
                lemma_pool_count(d.skip(length as int));
            }
            assert(record_counted(last));
            assert forall|k: int| 0 <= k < self.records@.len() && old(self).wf() implies #[trigger] record_counted(
                self.records@[k],
            ) by {
                if k < old(self).records@.len() {
                    assert(self.records@[k] == old(self).records@[k]);
                }
            }
            if unique_handles(old(self).records@) {
                law_add_keeps_handles_unique(
                    old(self).records@,
                    scan_start(old(self).next_handle),
                    smbios_handle as int,
                    self.records@.last(),
                );
            }
        }
        Ok(smbios_handle)
    }

    /// Adds a record from the structured part of its image (`record` holds at
    /// least the header and the header's length in bytes); the stored image is
    /// that part followed by an empty string pool. The string count is taken
    /// from the stored image, 0 when it cannot be read.
    pub fn add(&mut self, producer_handle: Option<ProducerHandle>, record: &[u8]) -> (r: Result<
        SmbiosHandle,
        SmbiosError,
    >)
        requires
            old(self).spec_records().len() < usize::MAX,
            record@.len() >= 4,
            record@.len() >= record@[1],
        ensures
            old(self).handles_unique() ==> final(self).handles_unique(),
            old(self).wf() ==> final(self).wf(),
            ({
                let d = record@;
                let old_recs = old(self).spec_records();
                if all_handles_in_use(old_recs) {
                    &&& r == Err::<SmbiosHandle, SmbiosError>(SmbiosError::OutOfResources)
                    &&& final(self).spec_records() == old_recs
                    &&& final(self).spec_version() == old(self).spec_version()
                } else {
                    r is Ok && {
                        let h = r->Ok_0;
                        let rec = final(self).spec_records().last();
                        let image = d.take(d[1] as int) + seq![0u8, 0u8];
                        &&& first_free_from(old_recs, scan_start(old(self).spec_next_handle()), h as int)
                        &&& final(self).spec_next_handle() == h + 1
                        &&& final(self).spec_version() == old(self).spec_version()
                        &&& final(self).spec_records().len() == old_recs.len() + 1
                        &&& final(self).spec_records().drop_last() == old_recs
                        &&& rec.header == (SmbiosTableHeader { record_type: d[0], length: d[1], handle: h })
                        &&& rec.producer_handle == producer_handle
                        &&& rec.data@ == image
                        &&& rec.string_count as nat == match record_strings_result(image) {
                            Ok(n) => n,
                            Err(_) => 0,
                        }
                        &&& rec.smbios32_table && rec.smbios64_table
                    }
                }
            }),
    {
        let smbios_handle = match self.allocate_handle() {
            Ok(h) => h,
            Err(e) => {
                return Err(e);
            },
        };
        let record_size = record[1] as usize;
        let mut data = vstd::slice::slice_to_vec(vstd::slice::slice_subrange(record, 0, record_size));
        data.push(0);
        data.push(0);
        let stored_header = SmbiosTableHeader {
            record_type: record[0],
            length: record[1],
            handle: smbios_handle,
        };
        let string_count = match count_strings_in_record(data.as_slice()) {
            Ok(n) => n,
            Err(_) => 0,
        };
        proof {
            assert(data@ =~= record@.take(record@[1] as int) + seq![0u8, 0u8]);
        }
        let smbios_record = SmbiosRecord {
            header: stored_header,
            producer_handle,
            data,
            string_count,
            smbios32_table: true,
            smbios64_table: true,
        };
        self.records.push(smbios_record);
        proof {
            assert(self.records@.drop_last() =~= old(self).records@);
            assert(self.records@ =~= old(self).records@.push(self.records@.last()));
            let last = self.records@.last();
            if record_size >= 4 {
                let d = record@;
                let image = d.take(record_size as int) + seq![0u8, 0u8];
                assert(last.data@ == image);
                assert(image.skip(record_size as int) =~= seq![0u8, 0u8]);
                assert(image[1] == d[1]);
                assert(image.skip(image[1] as int) =~= seq![0u8, 0u8]);
                assert(seq![0u8, 0u8].take(0) =~= Seq::<u8>::empty());
                assert(record_strings_result(image) == Ok::<nat, SmbiosError>(0));
                assert(pool_strings_from(seq![0u8, 0u8], 1, Seq::empty(), 1) =~= Seq::<Seq<u8>>::empty());
                assert(pool_strings(seq![0u8, 0u8]) =~= Seq::<Seq<u8>>::empty());
            }
            assert(record_counted(last));
            assert forall|k: int| 0 <= k < self.records@.len() && old(self).wf() implies #[trigger] record_counted(
                self.records@[k],
            ) by {
                if k < old(self).records@.len() {
                    assert(self.records@[k] == old(self).records@[k]);
                }
            }
            if unique_handles(old(self).records@) {
                law_add_keeps_handles_unique(
                    old(self).records@,
                    scan_start(old(self).next_handle),
                    smbios_handle as int,
                    self.records@.last(),
                );
            }
        }
        Ok(smbios_handle)
    }

    /// Replaces string `string_number` (1-based) of the record carrying
    /// `smbios_handle` with `string`.
    ///
    /// The string must be at most 64 bytes without a null byte; the record must
    /// exist and hold that many strings. The record's string pool is rebuilt:
    /// the other strings keep their order, passed through lossy UTF-8 decoding.
    pub fn update_string(&mut self, smbios_handle: SmbiosHandle, string_number: usize, string: &str) -> (r:
        Result<(), SmbiosError>)
        ensures
            old(self).handles_unique() ==> final(self).handles_unique(),
            old(self).wf() && string.spec_bytes().len() > 0 ==> final(self).wf(),
            ({
                let recs = old(self).spec_records();
                let i = index_of_handle(recs, smbios_handle as int);
                let new_bytes = string.spec_bytes();
                if string_check(new_bytes) is Err {
                    r == Err::<(), SmbiosError>(string_check(new_bytes)->Err_0) && *final(self)
                        == *old(self)
                } else if i < 0 {
                    r == Err::<(), SmbiosError>(SmbiosError::HandleNotFound) && *final(self)
                        == *old(self)
                } else if string_number == 0 || string_number > recs[i].string_count {
                    r == Err::<(), SmbiosError>(SmbiosError::InvalidHandle) && *final(self)
                        == *old(self)
                } else if recs[i].data@.len() < recs[i].header.length + 2 {
                    r == Err::<(), SmbiosError>(SmbiosError::BufferTooSmall) && *final(self)
                        == *old(self)
                } else if string_number > pool_strings(
                    recs[i].data@.skip(recs[i].header.length as int),
                ).len() {
                    r == Err::<(), SmbiosError>(SmbiosError::InvalidHandle) && *final(self)
                        == *old(self)
                } else {
                    let d = recs[i].data@;
                    let hl = recs[i].header.length as int;
                    let new_recs = final(self).spec_records();
                    &&& r is Ok
                    &&& final(self).spec_next_handle() == old(self).spec_next_handle()
                    &&& final(self).spec_version() == old(self).spec_version()
                    &&& new_recs.len() == recs.len()
                    &&& forall|j: int| 0 <= j < recs.len() && j != i ==> new_recs[j] == recs[j]
                    &&& new_recs[i].header == recs[i].header
                    &&& new_recs[i].producer_handle == recs[i].producer_handle
                    &&& new_recs[i].string_count == recs[i].string_count
                    &&& new_recs[i].smbios32_table == recs[i].smbios32_table
                    &&& new_recs[i].smbios64_table == recs[i].smbios64_table
                    &&& new_recs[i].data@ == d.take(hl) + updated_pool(
                        d.skip(hl),
                        string_number as int,
                        new_bytes,
                    )
                    &&& lossy_keeps_valid(pool_strings(d.skip(hl)))
                    &&& lossy_keeps_readable(pool_strings(d.skip(hl)))
                }
            }),
    {
        match validate_string(string) {
            Ok(()) => {},
            Err(e) => {
                return Err(e);
            },
        }
        let idx = match self.find_record(smbios_handle) {
            Some(i) => i,
            None => {
                return Err(SmbiosError::HandleNotFound);
            },
        };
        if string_number == 0 || string_number > self.records[idx].string_count {
            return Err(SmbiosError::InvalidHandle);
        }
        let header_length = self.records[idx].header.length as usize;
        if self.records[idx].data.len() < header_length + 2 {
            return Err(SmbiosError::BufferTooSmall);
        }
        let string_pool = slice_from(self.records[idx].data.as_slice(), header_length);
        let ghost pool = string_pool@;
        let mut existing_strings: Vec<Vec<u8>> = Vec::new();
        let mut current_string: Vec<u8> = Vec::new();
        let mut null_count: usize = 0;
        let mut k: usize = 0;
        let ghost mut raw: Seq<Seq<u8>> = Seq::empty();
        while k < string_pool.len()
            invariant_except_break
                k <= pool.len(),
                null_count <= 1,
                pool_strings(pool) == raw + pool_strings_from(
                    pool,
                    k as int,
                    current_string@,
                    null_count as int,
                ),
            invariant
                string_pool@ == pool,
                views(existing_strings@) == lossy_all(raw),
                lossy_keeps_valid(raw),
                lossy_keeps_readable(raw),
            ensures
                pool_strings(pool) == raw,
            decreases pool.len() - k,
        {
            let byte = string_pool[k];
            if byte == 0 {
                let ghost emitted = if current_string@.len() > 0 {
                    seq![current_string@]
                } else {
                    Seq::<Seq<u8>>::empty()
                };
                let ghost prev = existing_strings@;
                let ghost cur_old = current_string@;
                if current_string.len() > 0 {
                    let s = lossy_utf8_bytes(current_string.as_slice());
                    existing_strings.push(s);
                    current_string = Vec::new();
                    assert(existing_strings@[prev.len() as int]@ == utf8_lossy(cur_old));
                    assert(emitted[0] == cur_old);
                } else {
                    assert(existing_strings@ == prev);
                }
                assert(views(prev).len() == prev.len());
                assert(lossy_all(raw).len() == raw.len());
                assert(existing_strings@.len() == raw.len() + emitted.len());
                proof {
                    assert forall|t: int| 0 <= t < existing_strings@.len() implies #[trigger] views(
                        existing_strings@,
                    )[t] == lossy_all(raw + emitted)[t] by {
                        if t < prev.len() {
                            assert(existing_strings@[t] == prev[t]);
                            assert(views(prev)[t] == lossy_all(raw)[t]);
                            assert((raw + emitted)[t] == raw[t]);
                        } else {
                            assert((raw + emitted)[t] == emitted[0]);
                        }
                    }
                    assert(views(existing_strings@) =~= lossy_all(raw + emitted));
                    assert forall|t: int|
                        0 <= t < (raw + emitted).len() && vstd::utf8::valid_utf8(
                            (raw + emitted)[t],
                        ) implies #[trigger] utf8_lossy((raw + emitted)[t]) == (raw + emitted)[t] by {
                        if t < raw.len() {
                            assert((raw + emitted)[t] == raw[t]);
                        } else {
                            assert((raw + emitted)[t] == cur_old);
                        }
                    }
                    assert forall|t: int|
                        0 <= t < (raw + emitted).len() && string_readable((raw + emitted)[t]) implies string_readable(
                            #[trigger] utf8_lossy((raw + emitted)[t]),
                        ) by {
                        if t < raw.len() {
                            assert((raw + emitted)[t] == raw[t]);
                        } else {
                            assert((raw + emitted)[t] == cur_old);
                        }
                    }
                    raw = raw + emitted;
                }
                null_count += 1;
                if null_count >= 2 {
                    proof {
                        assert(raw + Seq::<Seq<u8>>::empty() =~= raw);
                    }
                    break ;
                }
                proof {
                    assert(current_string@ =~= Seq::<u8>::empty());
                }
            } else {
                null_count = 0;
                current_string.push(byte);
            }
            k += 1;
        }
        proof {
            assert(existing_strings@.len() == pool_strings(pool).len());
        }
        if string_number > existing_strings.len() {
            return Err(SmbiosError::InvalidHandle);
        }
        let new_value = vstd::slice::slice_to_vec(string.as_bytes());
        existing_strings.set(string_number - 1, new_value);
        let ghost strings = views(existing_strings@);
        proof {
            assert(strings =~= lossy_all(pool_strings(pool)).update(
                string_number - 1,
                string.spec_bytes(),
            ));
        }
        let mut new_data = vstd::slice::slice_to_vec(
            vstd::slice::slice_subrange(self.records[idx].data.as_slice(), 0, header_length),
        );
        let ghost prefix = new_data@;
        let mut j: usize = 0;
        assert(strings.take(0) =~= Seq::<Seq<u8>>::empty());
        while j < existing_strings.len()
            invariant
                j <= existing_strings@.len(),
                strings == views(existing_strings@),
                new_data@ == prefix + terminated(strings.take(j as int)),
            decreases existing_strings@.len() - j,
        {
            append_bytes(&mut new_data, existing_strings[j].as_slice());
            new_data.push(0);
            proof {
                assert(strings.take(j + 1).drop_last() =~= strings.take(j as int));
                assert(new_data@ =~= prefix + terminated(strings.take(j + 1)));
            }
            j += 1;
        }
        new_data.push(0);
        proof {
            assert(strings.take(strings.len() as int) =~= strings);
            assert(prefix =~= self.records@[idx as int].data@.take(header_length as int));
            assert(pool =~= self.records@[idx as int].data@.skip(header_length as int));
        }
        let mut rec = self.records.remove(idx);
        rec.data = new_data;
        self.records.insert(idx, rec);
        proof {
            assert forall|jj: int| 0 <= jj < old(self).records@.len() && jj != idx implies self.records@[jj]
                == old(self).records@[jj] by {
                if jj < idx {
                } else {
                }
            }
            let o = old(self).records@[idx as int];
            let nr = self.records@[idx as int];
            let hl = header_length as int;
            let newp = updated_pool(pool, string_number as int, string.spec_bytes());
            assert(nr.data@ =~= o.data@.take(hl) + newp);
            assert(nr.data@.skip(hl) =~= newp);
            if old(self).wf() && string.spec_bytes().len() > 0 {
                assert(record_counted(o));
                if hl >= 4 {
                    assert(!string.spec_bytes().contains(0));
                    assert(string_readable(string.spec_bytes()));
                    law_updated_pool_count(pool, string_number as int, string.spec_bytes());
                }
                assert(record_counted(nr));
                assert forall|k: int| 0 <= k < self.records@.len() implies #[trigger] record_counted(
                    self.records@[k],
                ) by {
                    if k != idx {
                        assert(self.records@[k] == old(self).records@[k]);
                    }
                }
            }
        }
        Ok(())
    }

    /// Removes the record carrying `smbios_handle`. The search for the next
    /// handle goes on where it was, so a freed handle is not assigned again
    /// until the search has wrapped around past the last assignable handle
    /// (0xFEFE).
    pub fn remove(&mut self, smbios_handle: SmbiosHandle) -> (r: Result<(), SmbiosError>)
        ensures
            old(self).handles_unique() ==> final(self).handles_unique(),
            old(self).wf() ==> final(self).wf(),
            ({
                let recs = old(self).spec_records();
                let i = index_of_handle(recs, smbios_handle as int);
                if i < 0 {
                    r == Err::<(), SmbiosError>(SmbiosError::HandleNotFound) && *final(self)
                        == *old(self)
                } else {
                    &&& r is Ok
                    &&& final(self).spec_records() == recs.remove(i)
                    &&& final(self).spec_version() == old(self).spec_version()
                    &&& final(self).spec_next_handle() == old(self).spec_next_handle()
                }
            }),
    {
        let pos = match self.find_record(smbios_handle) {
            Some(i) => i,
            None => {
                return Err(SmbiosError::HandleNotFound);
            },
        };
        let _removed = self.records.remove(pos);
        proof {
            if unique_handles(old(self).records@) {
                law_remove_keeps_handles_unique(old(self).records@, smbios_handle as int);
            }
        }
        Ok(())
    }

    /// Finds the record following the one carrying `*smbios_handle` (or the
    /// first record when it holds the reserved handle) whose type matches
    /// `record_type`. On success `*smbios_handle` becomes that record's handle;
    /// otherwise it becomes the reserved handle.
    pub fn get_next(&self, smbios_handle: &mut SmbiosHandle, record_type: Option<SmbiosType>) -> (r:
        Result<(&SmbiosTableHeader, Option<ProducerHandle>), SmbiosError>)
        ensures
            ({
                let recs = self.spec_records();
                let j = next_match(recs, search_start(recs, *old(smbios_handle)), record_type);
                match r {
                    Ok((hdr, producer)) => {
                        &&& 0 <= j < recs.len()
                        &&& *hdr == recs[j].header
                        &&& producer == recs[j].producer_handle
                        &&& *final(smbios_handle) == recs[j].header.handle
                    },
                    Err(e) => {
                        &&& j == -1
                        &&& e == SmbiosError::HandleNotFound
                        &&& *final(smbios_handle) == SMBIOS_HANDLE_PI_RESERVED
                    },
                }
            }),
    {
        let ghost recs = self.records@;
        let _n = self.records.len();
        let start_idx = if *smbios_handle == SMBIOS_HANDLE_PI_RESERVED {
            0
        } else {
            match self.find_record(*smbios_handle) {
                Some(i) => i + 1,
                None => self.records.len(),
            }
        };
        let mut idx = start_idx;
        while idx < self.records.len()
            invariant
                start_idx <= idx <= recs.len(),
                recs == self.records@,
                start_idx == search_start(recs, *old(smbios_handle)),
                *smbios_handle == *old(smbios_handle),
                forall|k: int| start_idx <= k < idx ==> !type_matches(recs[k], record_type),
            decreases recs.len() - idx,
        {
            let record = &self.records[idx];
            let matches = match record_type {
                Some(rt) => record.header.record_type == rt,
                None => true,
            };
            if matches {
                proof {
                    lemma_next_match(recs, start_idx as int, record_type, idx as int);
                }
                *smbios_handle = record.header.handle;
                return Ok((&record.header, record.producer_handle));
            }
            idx += 1;
        }
        proof {
            lemma_next_match(recs, start_idx as int, record_type, idx as int);
        }
        *smbios_handle = SMBIOS_HANDLE_PI_RESERVED;
        Err(SmbiosError::HandleNotFound)
    }

    /// All stored records, in insertion order.
    pub fn iter(&self) -> (r: &[SmbiosRecord])
        ensures
            r@ == self.spec_records(),
    {
        self.records.as_slice()
    }

    /// The SMBIOS version (major, minor).
    pub fn version(&self) -> (r: (u8, u8))
        ensures
            r == self.spec_version(),
    {
        (self.major_version, self.minor_version)
    }

    /// Installing the table in the system configuration table is the caller's
    /// part; the manager has nothing to record and succeeds.
    pub fn install_configuration_table(&self) -> (r: Result<(), SmbiosError>)
        ensures
            r is Ok,
    {
        Ok(())
    }

    /// Builds a record image from a header and strings: the first
    /// `header.length` bytes of the header's memory layout (at most the 4
    /// header bytes) followed by the string pool of `strings`. Fails with the
    /// error of the first invalid string.
    pub fn build_record_with_strings(header: &SmbiosTableHeader, strings: &[&str]) -> (r: Result<
        Vec<u8>,
        SmbiosError,
    >)
        requires
            header.length <= 4,
        ensures
            ({
                let bytes = strings@.map_values(|s: &str| s.spec_bytes());
                match strings_check(bytes) {
                    Err(e) => r == Err::<Vec<u8>, SmbiosError>(e),
                    Ok(()) => r is Ok && r->Ok_0@ == header.spec_bytes().take(header.length as int)
                        + pool_bytes(bytes),
                }
            }),
    {
        let ghost bytes = strings@.map_values(|s: &str| s.spec_bytes());
        let mut i: usize = 0;
        assert(bytes.skip(0) =~= bytes);
        while i < strings.len()
            invariant
                i <= strings@.len(),
                bytes == strings@.map_values(|s: &str| s.spec_bytes()),
                strings_check(bytes) == strings_check(bytes.skip(i as int)),
            decreases strings@.len() - i,
        {
            proof {
                assert(bytes.skip(i as int).drop_first() =~= bytes.skip(i + 1));
                assert(bytes.skip(i as int)[0] == strings@[i as int].spec_bytes());
            }
            match validate_string(strings[i]) {
                Ok(()) => {},
                Err(e) => {
                    return Err(e);
                },
            }
            i += 1;
        }
        proof {
            assert(bytes.skip(i as int) =~= Seq::<Seq<u8>>::empty());
        }
        let mut record: Vec<u8> = Vec::new();
        let header_bytes = header.to_bytes();
        append_bytes(&mut record, vstd::slice::slice_subrange(
            header_bytes.as_slice(),
            0,
            header.length as usize,
        ));
        let ghost prefix = record@;
        if strings.len() == 0 {
            record.push(0);
            record.push(0);
            proof {
                assert(record@ =~= prefix + pool_bytes(bytes));
            }
        } else {
            let mut j: usize = 0;
            assert(bytes.take(0) =~= Seq::<Seq<u8>>::empty());
            while j < strings.len()
                invariant
                    j <= strings@.len(),
                    bytes == strings@.map_values(|s: &str| s.spec_bytes()),
                    record@ == prefix + terminated(bytes.take(j as int)),
                decreases strings@.len() - j,
            {
                append_bytes(&mut record, strings[j].as_bytes());
                record.push(0);
                proof {
                    assert(bytes.take(j + 1).drop_last() =~= bytes.take(j as int));
                    assert(record@ =~= prefix + terminated(bytes.take(j + 1)));
                }
                j += 1;
            }
            record.push(0);
            proof {
                assert(bytes.take(bytes.len() as int) =~= bytes);
                assert(record@ =~= prefix + pool_bytes(bytes));
            }
        }
        Ok(record)
    }
}

/// Incrementally builds the byte image of an SMBIOS record.
pub struct SmbiosRecordBuilder {
    record_type: u8,
    data: Vec<u8>,
    strings: Vec<String>,
}

/// A value that can be laid out as a record field: its bytes in memory
/// (little-endian for integers).
pub trait SmbiosField: Copy {
    /// Bytes of the value.
    spec fn spec_field_bytes(&self) -> Seq<u8>;

    /// Serializes the value.
    fn field_bytes(&self) -> (r: Vec<u8>)
        ensures
            r@ == self.spec_field_bytes(),
    ;
}

impl SmbiosField for u8 {
    open spec fn spec_field_bytes(&self) -> Seq<u8> {
        seq![*self]
    }

    fn field_bytes(&self) -> (r: Vec<u8>) {
        let mut v: Vec<u8> = Vec::new();
        v.push(*self);
        assert(v@ =~= seq![*self]);
        v
    }
}

impl SmbiosField for u16 {
    open spec fn spec_field_bytes(&self) -> Seq<u8> {
        le16(*self)
    }

    fn field_bytes(&self) -> (r: Vec<u8>) {
        let mut v: Vec<u8> = Vec::new();
        push_le16(&mut v, *self);
        assert(v@ =~= le16(*self));
        v
    }
}

impl SmbiosField for u32 {
    open spec fn spec_field_bytes(&self) -> Seq<u8> {
        le32(*self)
    }

    fn field_bytes(&self) -> (r: Vec<u8>) {
        let mut v: Vec<u8> = Vec::new();
        push_le32(&mut v, *self);
        assert(v@ =~= le32(*self));
        v
    }
}

impl SmbiosField for u64 {
    open spec fn spec_field_bytes(&self) -> Seq<u8> {
        le64(*self)
    }

    fn field_bytes(&self) -> (r: Vec<u8>) {
        let mut v: Vec<u8> = Vec::new();
        push_le64(&mut v, *self);
        assert(v@ =~= le64(*self));
        v
    }
}

impl SmbiosRecordBuilder {
    /// The record type being built.
    pub closed spec fn spec_record_type(&self) -> u8 {
        self.record_type
    }

    /// The structured data added so far (after the header).
    pub closed spec fn spec_data(&self) -> Seq<u8> {
        self.data@
    }

    /// The strings added so far.
    pub closed spec fn spec_strings(&self) -> Seq<String> {
        self.strings@
    }

    /// Starts a record of the given type, with no fields and no strings.
    pub fn new(record_type: u8) -> (r: Self)
        ensures
            r.spec_record_type() == record_type,
            r.spec_data() == Seq::<u8>::empty(),
            r.spec_strings() == Seq::<String>::empty(),
    {
        Self { record_type, data: Vec::new(), strings: Vec::new() }
    }

    /// Appends a field's bytes to the structured data.
    pub fn add_field<T: SmbiosField>(self, value: T) -> (r: Self)
        ensures
            r.spec_record_type() == self.spec_record_type(),
            r.spec_data() == self.spec_data() + value.spec_field_bytes(),
            r.spec_strings() == self.spec_strings(),
    {
        let mut this = self;
        let bytes = value.field_bytes();
        append_bytes(&mut this.data, bytes.as_slice());
        this
    }

    /// Appends a string to the string pool, if it is at most 64 bytes without
    /// a null byte.
    pub fn add_string(self, s: String) -> (r: Result<Self, SmbiosError>)
        ensures
            match string_check(string_bytes(s)) {
                Err(e) => r == Err::<Self, SmbiosError>(e),
                Ok(()) => r is Ok && {
                    let b = r->Ok_0;
                    &&& b.spec_record_type() == self.spec_record_type()
                    &&& b.spec_data() == self.spec_data()
                    &&& b.spec_strings() == self.spec_strings().push(s)
                },
            },
    {
        match validate_string(s.as_str()) {
            Ok(()) => {},
            Err(e) => {
                return Err(e);
            },
        }
        let mut this = self;
        this.strings.push(s);
        Ok(this)
    }

    /// The record image: header (type, length 4 plus the data length modulo
    /// 256, reserved handle), the structured data and the string pool.
    pub fn build(self) -> (r: Result<Vec<u8>, SmbiosError>)
        ensures
            r is Ok,
            r->Ok_0@ == (SmbiosTableHeader {
                record_type: self.spec_record_type(),
                length: ((4 + self.spec_data().len()) % 256) as u8,
                handle: SMBIOS_HANDLE_PI_RESERVED,
            }).spec_bytes() + self.spec_data() + pool_bytes(
                self.spec_strings().map_values(|s: String| string_bytes(s)),
            ),
    {
        let mut record: Vec<u8> = Vec::new();
        let low = (self.data.len() % 256) as u8;
        let length = low.wrapping_add(4);
        proof {
            assert(length == ((4 + self.data@.len()) % 256) as u8) by (nonlinear_arith)
                requires
                    low == self.data@.len() % 256,
                    length == (low + 4) % 256,
            ;
        }
        let header = SmbiosTableHeader {
            record_type: self.record_type,
            length,
            handle: SMBIOS_HANDLE_PI_RESERVED,
        };
        let header_bytes = header.to_bytes();
        append_bytes(&mut record, header_bytes.as_slice());
        append_bytes(&mut record, self.data.as_slice());
        let ghost prefix = record@;
        let ghost bytes = self.strings@.map_values(|s: String| string_bytes(s));
        if self.strings.len() == 0 {
            record.push(0);
            record.push(0);
            proof {
                assert(record@ =~= prefix + pool_bytes(bytes));
            }
        } else {
            let mut j: usize = 0;
            assert(bytes.take(0) =~= Seq::<Seq<u8>>::empty());
            while j < self.strings.len()
                invariant
                    j <= self.strings@.len(),
                    bytes == self.strings@.map_values(|s: String| string_bytes(s)),
                    record@ == prefix + terminated(bytes.take(j as int)),
                decreases self.strings@.len() - j,
            {
                append_bytes(&mut record, self.strings[j].as_str().as_bytes());
                record.push(0);
                proof {
                    assert(bytes.take(j + 1).drop_last() =~= bytes.take(j as int));
                    assert(record@ =~= prefix + terminated(bytes.take(j + 1)));
                }
                j += 1;
            }
            record.push(0);
            proof {
                assert(bytes.take(bytes.len() as int) =~= bytes);
                assert(record@ =~= prefix + pool_bytes(bytes));
            }
        }
        Ok(record)
    }
}

} // verus!
