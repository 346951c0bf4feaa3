//! Performance records handed over by HOBs.
//!
//! The data of a performance HOB starts with three little-endian `u32`: the
//! size of the record data, the number of images loaded and whether the HOB
//! is full; the record data follows.

use crate::le_bytes::{from_le32, push_bytes};
use crate::performance::error::PerformanceError;
use crate::performance::record::{
    Iter, PerformanceRecordBuffer, RecordView, law_parse_written_records, parse_records, records_bytes, records_fit,
};
use scroll::Pread;
use vstd::prelude::*;

verus! {

#[verifier::external_type_specification]
#[verifier::external_body]
pub struct ExScrollError(scroll::Error);

/// Reads three `u32` from the start of `bytes`, least significant byte
/// first, with `scroll::Pread::gread_with` and the little-endian context,
/// and returns them with the offset that the read advanced to. The contract
/// claims what scroll's source shows: the read succeeds exactly when
/// `bytes` holds 12 bytes, and then yields the three little-endian values
/// and the offset 12.
#[verifier::external_body]
fn gread_u32_triple(bytes: &[u8]) -> (r: Result<([u32; 3], usize), scroll::Error>)
    ensures
        r is Ok <==> bytes@.len() >= 12,
        r is Ok ==> r->Ok_0.1 == 12 && r->Ok_0.0@ == seq![
            from_le32(bytes@.subrange(0, 4)),
            from_le32(bytes@.subrange(4, 8)),
            from_le32(bytes@.subrange(8, 12)),
        ],
{
    let mut offset: usize = 0;
    match bytes.gread_with::<[u32; 3]>(&mut offset, scroll::LE) {
        Ok(values) => Ok((values, offset)),
        Err(e) => Err(e),
    }
}

/// Data of a performance HOB.
#[derive(Debug, Default)]
pub struct HobPerformanceData {
    /// Number of images loaded.
    pub load_image_count: u32,
    /// Buffer containing performance records.
    pub records_data_buffer: Vec<u8>,
}

/// Size of the record data that a HOB of at least 12 bytes announces.
pub open spec fn announced_size(bytes: Seq<u8>) -> int {
    from_le32(bytes.subrange(0, 4)) as int
}

impl HobPerformanceData {
    /// Decodes the data of a performance HOB. A HOB shorter than its
    /// 12-byte header gives no image and no record.
    pub fn parse(bytes: &[u8]) -> (r: HobPerformanceData)
        requires
            bytes@.len() >= 12 ==> 12 + announced_size(bytes@) <= bytes@.len(),
        ensures
            bytes@.len() < 12 ==> r.load_image_count == 0 && r.records_data_buffer@ == Seq::<u8>::empty(),
            bytes@.len() >= 12 ==> r.load_image_count == from_le32(bytes@.subrange(4, 8))
                && r.records_data_buffer@ == bytes@.subrange(12, 12 + announced_size(bytes@)),
    {
        match gread_u32_triple(bytes) {
            Err(_) => HobPerformanceData { load_image_count: 0, records_data_buffer: Vec::new() },
            Ok((values, offset)) => {
                let size_of_all_entries = values[0];
                let load_image_count = values[1];
                assert(values@[0] == from_le32(bytes@.subrange(0, 4)));
                assert(values@[1] == from_le32(bytes@.subrange(4, 8)));
                let total = bytes.len();
                assert(12 + announced_size(bytes@) <= total);
                let end = offset + size_of_all_entries as usize;
                let mut records_data_buffer: Vec<u8> = Vec::new();
                push_bytes(&mut records_data_buffer, vstd::slice::slice_subrange(bytes, offset, end));
                HobPerformanceData { load_image_count, records_data_buffer }
            },
        }
    }
}

/// Sum of the image counts of `hobs`.
pub open spec fn total_load_images(hobs: Seq<HobPerformanceData>) -> int
    decreases hobs.len(),
{
    if hobs.len() == 0 {
        0
    } else {
        total_load_images(hobs.drop_last()) + hobs.last().load_image_count
    }
}

/// The records of `hobs`, those of the first HOB first, each record written
/// anew from what was read of it.
pub open spec fn merged_records(hobs: Seq<HobPerformanceData>) -> Seq<u8>
    decreases hobs.len(),
{
    if hobs.len() == 0 {
        Seq::empty()
    } else {
        merged_records(hobs.drop_last()) + records_bytes(parse_records(hobs.last().records_data_buffer@))
    }
}

/// Every record read from a buffer has a length of its header plus its
/// data, within one byte.
pub proof fn lemma_parsed_lengths(b: Seq<u8>)
    ensures
        forall|k: int|
            0 <= k < parse_records(b).len() ==> (#[trigger] parse_records(b)[k]).1 == parse_records(b)[k].3.len()
                + 4 && parse_records(b)[k].3.len() + 4 <= 255,
    decreases b.len(),
{
    if b.len() >= 4 {
        let len = b[2] as int;
        if 4 <= len <= b.len() {
            lemma_parsed_lengths(b.skip(len));
            let head = seq![(crate::le_bytes::from_le16(b[0], b[1]), b[2], b[3], b.subrange(4, len))];
            assert forall|k: int| 0 <= k < parse_records(b).len() implies (#[trigger] parse_records(b)[k]).1
                == parse_records(b)[k].3.len() + 4 && parse_records(b)[k].3.len() + 4 <= 255 by {
                if k > 0 {
                    assert(parse_records(b)[k] == parse_records(b.skip(len))[k - 1]);
                }
            }
        }
    }
}

/// Merges the performance data of `hobs`: the image counts are added and
/// the records of all HOBs are gathered into one buffer, in order.
pub fn merge_hob_performance_buffer(hobs: &[HobPerformanceData]) -> (r: Result<
    (u32, PerformanceRecordBuffer),
    PerformanceError,
>)
    requires
        total_load_images(hobs@) <= u32::MAX,
    ensures
        r is Ok,
        r->Ok_0.0 == total_load_images(hobs@),
        r->Ok_0.1@ == merged_records(hobs@),
{
    let mut load_image_count: u32 = 0;
    let mut records = PerformanceRecordBuffer::new();
    let mut i: usize = 0;
    proof {
        lemma_total_prefix_bound(hobs@, 0);
    }
    while i < hobs.len()
        invariant
            i <= hobs@.len(),
            total_load_images(hobs@) <= u32::MAX,
            load_image_count == total_load_images(hobs@.take(i as int)),
            records@ == merged_records(hobs@.take(i as int)),
        decreases hobs@.len() - i,
    {
        proof {
            assert(hobs@.take(i + 1).drop_last() =~= hobs@.take(i as int));
            lemma_total_prefix_bound(hobs@, i + 1);
        }
        load_image_count = load_image_count + hobs[i].load_image_count;
        let ghost parsed = parse_records(hobs@[i as int].records_data_buffer@);
        let ghost before = records@;
        proof {
            lemma_parsed_lengths(hobs@[i as int].records_data_buffer@);
        }
        let mut iter = Iter::new(hobs[i].records_data_buffer.as_slice());
        let ghost mut j: int = 0;
        loop
            invariant
                0 <= j <= parsed.len(),
                iter.spec_remaining() == parsed.skip(j),
                records@ == before + records_bytes(parsed.take(j)),
                forall|k: int| 0 <= k < parsed.len() ==> (#[trigger] parsed[k]).3.len() + 4 <= 255,
            ensures
                j == parsed.len(),
                records@ == before + records_bytes(parsed.take(j)),
            decreases parsed.len() - j,
        {
            let next = iter.next();
            match next {
                None => {
                    assert(parsed.skip(j).len() == 0);
                    break;
                },
                Some(rec) => {
                    proof {
                        assert(parsed.skip(j)[0] == parsed[j]);
                        assert(parsed.skip(j).drop_first() =~= parsed.skip(j + 1));
                        assert(parsed.take(j + 1).drop_last() =~= parsed.take(j));
                    }
                    let pushed = records.push_record(rec);
                    proof {
                        assert(records@ == before + records_bytes(parsed.take(j + 1)));
                        j = j + 1;
                    }
                },
            }
        }
        proof {
            assert(parsed.take(j) =~= parsed);
        }
        i += 1;
    }
    proof {
        assert(hobs@.take(hobs@.len() as int) =~= hobs@);
    }
    Ok((load_image_count, records))
}

proof fn lemma_total_prefix_bound(hobs: Seq<HobPerformanceData>, n: int)
    requires
        0 <= n <= hobs.len(),
    ensures
        0 <= total_load_images(hobs.take(n)) <= total_load_images(hobs),
    decreases hobs.len(),
{
    if hobs.len() > 0 {
        if n == hobs.len() {
            assert(hobs.take(n) =~= hobs);
            lemma_total_nonneg(hobs);
        } else {
            assert(hobs.drop_last().take(n) =~= hobs.take(n));
            lemma_total_prefix_bound(hobs.drop_last(), n);
        }
    }
}

proof fn lemma_total_nonneg(hobs: Seq<HobPerformanceData>)
    ensures
        total_load_images(hobs) >= 0,
    decreases hobs.len(),
{
    if hobs.len() > 0 {
        lemma_total_nonneg(hobs.drop_last());
    }
}

/// Source of the performance data that HOBs hand over.
pub trait HobPerformanceDataExtractor {
    /// The number of images loaded and the performance records.
    fn extract_hob_perf_data(&self) -> Result<(u32, PerformanceRecordBuffer), PerformanceError>;
}

/// The record buffers of `hobs`, one after another.
pub open spec fn buffers_concat(hobs: Seq<HobPerformanceData>) -> Seq<u8>
    decreases hobs.len(),
{
    if hobs.len() == 0 {
        Seq::empty()
    } else {
        buffers_concat(hobs.drop_last()) + hobs.last().records_data_buffer@
    }
}

/// HOBs whose buffers hold records written one after another merge to the
/// concatenation of their buffers.
pub proof fn law_merge_written_buffers(hobs: Seq<HobPerformanceData>, rs: Seq<Seq<RecordView>>)
    requires
        hobs.len() == rs.len(),
        forall|i: int|
            0 <= i < hobs.len() ==> records_fit(#[trigger] rs[i]) && hobs[i].records_data_buffer@ == records_bytes(
                rs[i],
            ),
    ensures
        merged_records(hobs) == buffers_concat(hobs),
    decreases hobs.len(),
{
    if hobs.len() > 0 {
        let k = hobs.len() - 1;
        assert(records_fit(rs[k]));
        law_parse_written_records(rs[k]);
        let hs = hobs.drop_last();
        let rs2 = rs.drop_last();
        assert forall|i: int| 0 <= i < hs.len() implies records_fit(#[trigger] rs2[i])
            && hs[i].records_data_buffer@ == records_bytes(rs2[i]) by {
            assert(rs2[i] == rs[i]);
            assert(hs[i] == hobs[i]);
        }
        law_merge_written_buffers(hs, rs2);
    }
}

} // verus!
