//! Public SMBIOS types: handles, record types, the record header and an
//! iterator over stored records.

use crate::le_bytes::{le16, push_le16};
use crate::smbios::smbios_derive::{ProducerHandle, SmbiosRecord};
use vstd::prelude::*;

verus! {

/// SMBIOS record handle (16-bit identifier).
pub type SmbiosHandle = u16;

/// SMBIOS record type.
pub type SmbiosType = u8;

/// Special handle value asking for automatic assignment.
pub const SMBIOS_HANDLE_PI_RESERVED: SmbiosHandle = 0xFFFE;

/// Maximum length of an SMBIOS string, per the specification.
pub const SMBIOS_STRING_MAX_LENGTH: usize = 64;

/// The standard 4-byte header at the start of every SMBIOS record: record
/// type, length of the structured data (header included) and handle.
#[derive(Debug, Clone, Copy, PartialEq, Eq, Structural)]
pub struct SmbiosTableHeader {
    /// SMBIOS record type.
    pub record_type: SmbiosType,
    /// Length of the structured data, header included.
    pub length: u8,
    /// Unique handle of the record.
    pub handle: SmbiosHandle,
}

impl SmbiosTableHeader {
    /// Creates a header from its three fields.
    pub fn new(record_type: SmbiosType, length: u8, handle: SmbiosHandle) -> (r: Self)
        ensures
            r == (SmbiosTableHeader { record_type, length, handle }),
    {
        Self { record_type, length, handle }
    }

    /// The header in its memory layout: type, length, handle (little-endian).
    pub open spec fn spec_bytes(self) -> Seq<u8> {
        seq![self.record_type, self.length] + le16(self.handle)
    }

    /// Serializes the header in its memory layout.
    pub fn as_bytes(&self) -> (r: Vec<u8>)
        ensures
            r@ == self.spec_bytes(),
    {
        let mut out: Vec<u8> = Vec::new();
        out.push(self.record_type);
        out.push(self.length);
        push_le16(&mut out, self.handle);
        assert(out@ =~= self.spec_bytes());
        out
    }
}

/// Iterator over stored records, optionally restricted to one record type.
pub struct SmbiosRecordsIter<'a> {
    records: &'a [SmbiosRecord],
    position: usize,
    filter_type: Option<SmbiosType>,
}

impl<'a> SmbiosRecordsIter<'a> {
    /// The records iterated over.
    pub closed spec fn spec_records(&self) -> Seq<SmbiosRecord> {
        self.records@
    }

    /// Index of the next record to examine.
    pub closed spec fn spec_position(&self) -> int {
        self.position as int
    }

    /// The record type filter.
    pub closed spec fn spec_filter(&self) -> Option<SmbiosType> {
        self.filter_type
    }

    /// Creates an iterator over `records`, starting at the first record.
    pub fn new(records: &'a [SmbiosRecord], filter_type: Option<SmbiosType>) -> (r: Self)
        ensures
            r.spec_records() == records@,
            r.spec_position() == 0,
            r.spec_filter() == filter_type,
    {
        Self { records, position: 0, filter_type }
    }

    /// The header and producer of the next record matching the filter, or
    /// `None` once every record has been examined.
    pub fn next(&mut self) -> (r: Option<(SmbiosTableHeader, Option<ProducerHandle>)>)
        requires
            0 <= old(self).spec_position() <= old(self).spec_records().len(),
        ensures
            final(self).spec_records() == old(self).spec_records(),
            final(self).spec_filter() == old(self).spec_filter(),
            ({
                let recs = old(self).spec_records();
                let j = crate::smbios::smbios_derive::next_match(
                    recs,
                    old(self).spec_position(),
                    old(self).spec_filter(),
                );
                match r {
                    Some((h, p)) => {
                        &&& 0 <= j < recs.len()
                        &&& h == (SmbiosTableHeader {
                            record_type: recs[j].header.record_type,
                            length: recs[j].header.length,
                            handle: recs[j].header.handle,
                        })
                        &&& p == recs[j].producer_handle
                        &&& final(self).spec_position() == j + 1
                    },
                    None => j == -1 && final(self).spec_position() == recs.len(),
                }
            }),
    {
        let ghost start = self.position as int;
        while self.position < self.records.len()
            invariant
                self.records == old(self).records,
                self.filter_type == old(self).filter_type,
                start <= self.position <= self.records@.len(),
                start == old(self).position,
                crate::smbios::smbios_derive::next_match(self.records@, start, self.filter_type)
                    == crate::smbios::smbios_derive::next_match(
                    self.records@,
                    self.position as int,
                    self.filter_type,
                ),
            decreases self.records@.len() - self.position,
        {
            let record = &self.records[self.position];
            self.position += 1;
            let keep = match self.filter_type {
                Some(filter) => record.header.record_type == filter,
                None => true,
            };
            if !keep {
                continue;
            }
            let header = SmbiosTableHeader {
                record_type: record.header.record_type,
                length: record.header.length,
                handle: record.header.handle,
            };
            return Some((header, record.producer_handle));
        }
        None
    }
}

} // verus!
