//! Performance records and the buffer that holds them.
//!
//! A record is laid out as its type (2 bytes, little-endian), its length (1
//! byte, header included), its revision (1 byte) and its data.

use crate::le_bytes::{from_le16, law_le16_roundtrip, le16, push_bytes, push_le16};
use crate::performance::error::PerformanceError;
use vstd::prelude::*;

verus! {

/// Size of a record header.
pub const PERFORMANCE_RECORD_HEADER_SIZE: usize = 4;

/// A performance record.
pub struct GenericPerformanceRecord {
    /// Record type.
    pub record_type: u16,
    /// Length of the record, header included.
    pub length: u8,
    /// Record revision.
    pub revision: u8,
    /// Record data.
    pub data: Vec<u8>,
}

/// A record seen as its type, length, revision and data.
pub type RecordView = (u16, u8, u8, Seq<u8>);

/// The bytes of a record of type `record_type`, revision `revision` and
/// data `data`; its length field is the header size plus the data size.
pub open spec fn record_bytes(record_type: u16, revision: u8, data: Seq<u8>) -> Seq<u8> {
    le16(record_type) + seq![(4 + data.len()) as u8, revision] + data
}

/// The bytes of a sequence of records, one after another.
pub open spec fn records_bytes(records: Seq<RecordView>) -> Seq<u8>
    decreases records.len(),
{
    if records.len() == 0 {
        Seq::empty()
    } else {
        records_bytes(records.drop_last()) + record_bytes(
            records.last().0,
            records.last().2,
            records.last().3,
        )
    }
}

/// The records at the start of `b`: each record needs its 4-byte header, a
/// length of at least 4 and no more than what is left; reading stops at the
/// first place where that does not hold.
pub open spec fn parse_records(b: Seq<u8>) -> Seq<RecordView>
    decreases b.len(),
{
    if b.len() < 4 {
        Seq::empty()
    } else {
        let len = b[2] as int;
        if len < 4 || len > b.len() {
            Seq::empty()
        } else {
            seq![(from_le16(b[0], b[1]), b[2], b[3], b.subrange(4, len))] + parse_records(b.skip(len))
        }
    }
}

/// A buffer of performance records.
pub struct PerformanceRecordBuffer {
    buffer: Vec<u8>,
}

impl View for PerformanceRecordBuffer {
    type V = Seq<u8>;

    closed spec fn view(&self) -> Seq<u8> {
        self.buffer@
    }
}

impl PerformanceRecordBuffer {
    /// An empty buffer.
    pub fn new() -> (r: Self)
        ensures
            r@ == Seq::<u8>::empty(),
    {
        Self { buffer: Vec::new() }
    }

    /// Appends `record`, its length field set to the header size plus the
    /// data size, and returns the offset at which it was written. Fails with
    /// `RecordTooLarge`, the buffer unchanged, when that length exceeds 255.
    pub fn push_record(&mut self, record: GenericPerformanceRecord) -> (r: Result<usize, PerformanceError>)
        ensures
            record.data@.len() + 4 > 255 ==> r == Err::<usize, PerformanceError>(PerformanceError::RecordTooLarge)
                && final(self)@ == old(self)@,
            record.data@.len() + 4 <= 255 ==> r == Ok::<usize, PerformanceError>(old(self)@.len() as usize)
                && final(self)@ == old(self)@ + record_bytes(record.record_type, record.revision, record.data@),
    {
        if record.data.len() > 251 {
            return Err(PerformanceError::RecordTooLarge);
        }
        let offset = self.buffer.len();
        let length = (4 + record.data.len()) as u8;
        push_le16(&mut self.buffer, record.record_type);
        self.buffer.push(length);
        self.buffer.push(record.revision);
        push_bytes(&mut self.buffer, record.data.as_slice());
        assert(self.buffer@ =~= old(self)@ + record_bytes(record.record_type, record.revision, record.data@));
        Ok(offset)
    }

    /// Size of the buffer in bytes.
    pub fn size(&self) -> (r: usize)
        ensures
            r == self@.len(),
    {
        self.buffer.len()
    }

    /// The bytes of the buffer.
    pub fn buffer(&self) -> (r: &[u8])
        ensures
            r@ == self@,
    {
        self.buffer.as_slice()
    }

    /// Iterates over the records of the buffer.
    pub fn iter(&self) -> (r: Iter<'_>)
        ensures
            r.spec_remaining() == parse_records(self@),
    {
        Iter::new(self.buffer.as_slice())
    }
}

/// Iterator over the records of a byte buffer.
pub struct Iter<'a> {
    buffer: &'a [u8],
    offset: usize,
}

impl<'a> Iter<'a> {
    #[verifier::type_invariant]
    spec fn offset_in_buffer(&self) -> bool {
        self.offset <= self.buffer@.len()
    }

    /// The records not yet returned.
    pub closed spec fn spec_remaining(&self) -> Seq<RecordView> {
        parse_records(self.buffer@.skip(self.offset as int))
    }

    /// Iterates over the records at the start of `buffer`.
    pub fn new(buffer: &'a [u8]) -> (r: Self)
        ensures
            r.spec_remaining() == parse_records(buffer@),
    {
        assert(buffer@.skip(0) =~= buffer@);
        Self { buffer, offset: 0 }
    }

    /// The next record, or `None` when no further record can be read.
    pub fn next(&mut self) -> (r: Option<GenericPerformanceRecord>)
        ensures
            old(self).spec_remaining().len() == 0 ==> r is None && final(self).spec_remaining() == old(
                self,
            ).spec_remaining(),
            old(self).spec_remaining().len() > 0 ==> r is Some && ({
                let rec = r->0;
                let v = old(self).spec_remaining()[0];
                &&& rec.record_type == v.0
                &&& rec.length == v.1
                &&& rec.revision == v.2
                &&& rec.data@ == v.3
                &&& final(self).spec_remaining() == old(self).spec_remaining().drop_first()
            }),
    {
        proof {
            use_type_invariant(&*self);
        }
        let ghost b = self.buffer@.skip(self.offset as int);
        let rest = self.buffer.len() - self.offset;
        if rest < 4 {
            return None;
        }
        let o = self.offset;
        let len = self.buffer[o + 2] as usize;
        if len < 4 || len > rest {
            return None;
        }
        let record_type = (self.buffer[o] as u16) | ((self.buffer[o + 1] as u16) << 8);
        let mut data: Vec<u8> = Vec::new();
        let mut k: usize = 4;
        while k < len
            invariant
                4 <= k <= len,
                o + len <= self.buffer@.len(),
                o + len <= usize::MAX,
                data@ == self.buffer@.subrange(o + 4, o + k),
            decreases len - k,
        {
            data.push(self.buffer[o + k]);
            assert(data@ =~= self.buffer@.subrange(o + 4, o + k + 1));
            k += 1;
        }
        let record = GenericPerformanceRecord {
            record_type,
            length: self.buffer[o + 2],
            revision: self.buffer[o + 3],
            data,
        };
        proof {
            assert(b[0] == self.buffer@[o as int]);
            assert(b[1] == self.buffer@[o + 1]);
            assert(b.subrange(4, len as int) =~= self.buffer@.subrange(o + 4, o + len));
            assert(b.skip(len as int) =~= self.buffer@.skip(o + len));
        }
        self.offset = o + len;
        Some(record)
    }
}

/// Whether every record's length field is its header plus its data, within
/// one byte.
pub open spec fn records_fit(rs: Seq<RecordView>) -> bool {
    forall|k: int| 0 <= k < rs.len() ==> (#[trigger] rs[k]).3.len() + 4 <= 255 && rs[k].1 == rs[k].3.len() + 4
}

proof fn lemma_records_bytes_front(rs: Seq<RecordView>)
    requires
        rs.len() > 0,
    ensures
        records_bytes(rs) == record_bytes(rs[0].0, rs[0].2, rs[0].3) + records_bytes(rs.drop_first()),
    decreases rs.len(),
{
    if rs.len() == 1 {
        assert(rs.drop_last() =~= Seq::<RecordView>::empty());
        assert(rs.drop_first() =~= Seq::<RecordView>::empty());
        assert(records_bytes(rs.drop_last()) == Seq::<u8>::empty());
        assert(rs.last() == rs[0]);
        assert(records_bytes(rs) =~= record_bytes(rs[0].0, rs[0].2, rs[0].3));
        assert(records_bytes(rs.drop_first()) == Seq::<u8>::empty());
        assert(record_bytes(rs[0].0, rs[0].2, rs[0].3) + Seq::<u8>::empty() =~= record_bytes(rs[0].0, rs[0].2, rs[0].3));
    } else {
        lemma_records_bytes_front(rs.drop_last());
        assert(rs.drop_first().drop_last() =~= rs.drop_last().drop_first());
        assert(rs.drop_first().last() == rs.last());
        assert(rs.drop_last()[0] == rs[0]);
        let a = record_bytes(rs[0].0, rs[0].2, rs[0].3);
        let m = records_bytes(rs.drop_last().drop_first());
        let z = record_bytes(rs.last().0, rs.last().2, rs.last().3);
        assert((a + m) + z =~= a + (m + z));
    }
}

proof fn lemma_parse_one(t: u16, r: u8, d: Seq<u8>, rest: Seq<u8>)
    requires
        d.len() + 4 <= 255,
    ensures
        parse_records(record_bytes(t, r, d) + rest) == seq![((t, (4 + d.len()) as u8, r, d))] + parse_records(
            rest,
        ),
{
    let b = record_bytes(t, r, d) + rest;
    let len = 4 + d.len();
    law_le16_roundtrip(t);
    assert(b[2] == (4 + d.len()) as u8);
    assert(b.subrange(4, len as int) =~= d);
    assert(b.skip(len as int) =~= rest);
}

/// Records written one after another read back as the same records.
pub proof fn law_parse_written_records(rs: Seq<RecordView>)
    requires
        records_fit(rs),
    ensures
        parse_records(records_bytes(rs)) == rs,
    decreases rs.len(),
{
    if rs.len() == 0 {
        assert(parse_records(records_bytes(rs)) =~= rs);
    } else {
        lemma_records_bytes_front(rs);
        let rest = rs.drop_first();
        assert(records_fit(rest)) by {
            assert forall|k: int| 0 <= k < rest.len() implies (#[trigger] rest[k]).3.len() + 4 <= 255 && rest[k].1
                == rest[k].3.len() + 4 by {
                assert(rest[k] == rs[k + 1]);
            }
        }
        law_parse_written_records(rest);
        assert(rs[0].3.len() + 4 <= 255 && rs[0].1 == rs[0].3.len() + 4);
        lemma_parse_one(rs[0].0, rs[0].2, rs[0].3, records_bytes(rest));
        assert(parse_records(records_bytes(rs)) =~= rs);
    }
}

} // verus!
