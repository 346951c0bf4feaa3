//! HID I/O: report types, reading a device's report descriptor and
//! sending output reports.
//!
//! A report descriptor is read into a 4096-byte buffer; when the device
//! answers that the buffer is too small, it is read once more into a buffer
//! of the size the device gave. The bytes read are parsed by `hidparser`.

use crate::efi_status::{EFI_BUFFER_TOO_SMALL, EFI_DEVICE_ERROR, EFI_SUCCESS};
use hidparser::report_descriptor_parser::ReportDescriptorError;
use hidparser::ReportDescriptor;
use vstd::prelude::*;

verus! {

/// HID report types per the HID specification.
#[derive(Debug, Clone, Copy, PartialEq, Eq, Structural)]
pub enum HidReportType {
    /// Input report (device to host).
    InputReport,
    /// Output report (host to device).
    OutputReport,
    /// Feature report (bidirectional).
    Feature,
}

/// The number of a report type in the HID specification.
pub open spec fn report_type_value(t: HidReportType) -> u32 {
    match t {
        HidReportType::InputReport => 1,
        HidReportType::OutputReport => 2,
        HidReportType::Feature => 3,
    }
}

impl HidReportType {
    /// The number of the report type in the HID specification.
    pub fn value(self) -> (r: u32)
        ensures
            r == report_type_value(self),
    {
        match self {
            HidReportType::InputReport => 1,
            HidReportType::OutputReport => 2,
            HidReportType::Feature => 3,
        }
    }

    /// The report type of a number, if it is one.
    pub fn from_value(v: u32) -> (r: Option<Self>)
        ensures
            r matches Some(t) ==> report_type_value(t) == v,
            r is None <==> !(1 <= v <= 3),
    {
        if v == 1 {
            Some(HidReportType::InputReport)
        } else if v == 2 {
            Some(HidReportType::OutputReport)
        } else if v == 3 {
            Some(HidReportType::Feature)
        } else {
            None
        }
    }
}

#[verifier::external_type_specification]
#[verifier::external_body]
pub struct ExReportDescriptor(ReportDescriptor);

#[verifier::external_type_specification]
#[verifier::external_body]
pub struct ExReportDescriptorError(ReportDescriptorError);

/// Whether `hidparser` accepts `bytes` as a report descriptor.
pub uninterp spec fn report_descriptor_parses(bytes: Seq<u8>) -> bool;

/// The value of the `size` data bytes of an item that start at `start`,
/// least significant first.
pub open spec fn item_value(b: Seq<u8>, start: int, size: int) -> int {
    if size == 0 {
        0
    } else if size == 1 {
        b[start] as int
    } else if size == 2 {
        b[start] + b[start + 1] * 0x100
    } else {
        b[start] + b[start + 1] * 0x100 + b[start + 2] * 0x1_0000 + b[start + 3] * 0x100_0000
    }
}

/// What the parser adds up for one report: its kind (0 for input, 1 for
/// output, 2 for feature reports), its report id, the bits of its items
/// so far, and whether an item without a Report Size or Report Count has
/// ended it (the parser adds nothing for the items after such an item).
pub type ReportTally = (u8, Option<u32>, u64, bool);

/// Index of the tally of the report of kind `kind` and id `id` among
/// `ts[j..]`, or -1.
pub open spec fn tally_from(ts: Seq<ReportTally>, kind: u8, id: Option<u32>, j: int) -> int
    decreases ts.len() - j,
{
    if j < 0 || j >= ts.len() {
        -1
    } else if ts[j].0 == kind && ts[j].1 == id {
        j
    } else {
        tally_from(ts, kind, id, j + 1)
    }
}

/// The tallies after a main item of kind `kind` while the current Report
/// Size, Report Count and Report ID are `size`, `count` and `id`; `None`
/// when the report's bits pass `u32::MAX`.
pub open spec fn tally_item(
    ts: Seq<ReportTally>,
    kind: u8,
    size: Option<u32>,
    count: Option<u32>,
    id: Option<u32>,
) -> Option<Seq<ReportTally>> {
    let k = tally_from(ts, kind, id, 0);
    if k < 0 {
        match (size, count) {
            (Some(sz), Some(c)) => if c * sz > 0xFFFF_FFFF {
                None
            } else {
                Some(ts.push((kind, id, (c * sz) as u64, false)))
            },
            _ => Some(ts.push((kind, id, 0u64, true))),
        }
    } else if ts[k].3 {
        Some(ts)
    } else {
        match (size, count) {
            (Some(sz), Some(c)) => if ts[k].2 + c * sz > 0xFFFF_FFFF {
                None
            } else {
                Some(ts.update(k, (kind, id, (ts[k].2 + c * sz) as u64, false)))
            },
            _ => Some(ts.update(k, (kind, id, ts[k].2, true))),
        }
    }
}

/// Walks the short items of `b` from `pos` as the parser tokenizes them,
/// with `size`, `count` and `id` the current Report Size, Report Count and
/// Report ID and `ts` the tallies of the reports so far. The walk ends, and
/// holds, at the end of `b`, at an item that does not fit in `b` or at an
/// item of the reserved type (long items among them): the parser fails
/// there and sums nothing. It fails as soon as a report's bits pass
/// `u32::MAX`.
pub open spec fn limits_from(
    b: Seq<u8>,
    pos: int,
    size: Option<u32>,
    count: Option<u32>,
    id: Option<u32>,
    ts: Seq<ReportTally>,
) -> bool
    decreases b.len() - pos,
{
    if pos < 0 || pos >= b.len() {
        true
    } else {
        let h = b[pos];
        let ty = (h / 4) % 4;
        let tag = h / 16;
        let n = if h % 4 == 3 { 4 } else { (h % 4) as int };
        if ty == 3 || pos + 1 + n > b.len() {
            true
        } else {
            let v = item_value(b, pos + 1, n) as u32;
            let next = pos + 1 + n;
            if ty == 1 && tag == 7 {
                limits_from(b, next, Some(v), count, id, ts)
            } else if ty == 1 && tag == 9 {
                limits_from(b, next, size, Some(v), id, ts)
            } else if ty == 1 && tag == 8 {
                limits_from(b, next, size, count, Some(v), ts)
            } else if ty == 0 && (tag == 8 || tag == 9 || tag == 11) {
                let kind: u8 = if tag == 8 { 0 } else if tag == 9 { 1 } else { 2 };
                match tally_item(ts, kind, size, count, id) {
                    None => false,
                    Some(ts2) => limits_from(b, next, size, count, id, ts2),
                }
            } else {
                limits_from(b, next, size, count, id, ts)
            }
        }
    }
}

/// Whether the parser can sum the bits of every report of the descriptor
/// `b` in `u32`: for each report (each kind and report id), the Report
/// Count times the Report Size of its Input, Output or Feature items, up to
/// an item that lacks either, add up to at most `u32::MAX`. This counts
/// also the items after one that the parser rejects for its logical range
/// or usages, so it may refuse a descriptor whose bad report would overflow
/// only there.
pub open spec fn within_limits(b: Seq<u8>) -> bool {
    limits_from(b, 0, None, None, None, Seq::empty())
}

/// Parses a report descriptor with `hidparser::parse_report_descriptor`.
/// The parser adds up report sizes and counts in `u32` and so may overflow
/// on a descriptor whose reports declare more bits than that, which `requires`
/// leaves out (`within_limits`).
/// The contract claims only that the outcome is a function of the bytes:
/// whether the parse succeeds is named, not stated, and nothing is claimed
/// of the descriptor or of the error.
#[verifier::external_body]
fn hidparser_parse(bytes: &[u8]) -> (r: Result<ReportDescriptor, ReportDescriptorError>)
    requires
        within_limits(bytes@),
    ensures
        r is Ok == report_descriptor_parses(bytes@),
{
    hidparser::parse_report_descriptor(bytes)
}

/// Whether `bytes` stays within the limits under which the parser can sum
/// its reports' bits (`within_limits`).
pub fn descriptor_within_limits(bytes: &[u8]) -> (r: bool)
    ensures
        r == within_limits(bytes@),
{
    let mut pos: usize = 0;
    let mut size: Option<u32> = None;
    let mut count: Option<u32> = None;
    let mut id: Option<u32> = None;
    let mut ts: Vec<ReportTally> = Vec::new();
    while pos < bytes.len()
        invariant
            pos <= bytes@.len(),
            forall|j: int| 0 <= j < ts@.len() ==> #[trigger] ts@[j].2 <= 0xFFFF_FFFF,
            limits_from(bytes@, pos as int, size, count, id, ts@) == within_limits(bytes@),
        decreases bytes@.len() - pos,
    {
        let h = bytes[pos];
        let ty = (h / 4) % 4;
        let tag = h / 16;
        let n: usize = if h % 4 == 3 { 4 } else { (h % 4) as usize };
        assert(h == bytes@[pos as int]);
        assert(n == (if h % 4 == 3 { 4 } else { (h % 4) as int }));
        if ty == 3 || n > bytes.len() - pos - 1 {
            assert(limits_from(bytes@, pos as int, size, count, id, ts@));
            return true;
        }
        let start = pos + 1;
        let v64: u64 = if n == 0 {
            0
        } else if n == 1 {
            bytes[start] as u64
        } else if n == 2 {
            bytes[start] as u64 + bytes[start + 1] as u64 * 0x100
        } else {
            bytes[start] as u64 + bytes[start + 1] as u64 * 0x100 + bytes[start + 2] as u64 * 0x1_0000
                + bytes[start + 3] as u64 * 0x100_0000
        };
        assert(v64 == item_value(bytes@, start as int, n as int));
        let v = v64 as u32;
        if ty == 1 && tag == 7 {
            size = Some(v);
        } else if ty == 1 && tag == 9 {
            count = Some(v);
        } else if ty == 1 && tag == 8 {
            id = Some(v);
        } else if ty == 0 && (tag == 8 || tag == 9 || tag == 11) {
            let kind: u8 = if tag == 8 {
                0
            } else if tag == 9 {
                1
            } else {
                2
            };
            let ghost old_ts = ts@;
            let mut k: usize = 0;
            while k < ts.len() && !(ts[k].0 == kind && ts[k].1 == id)
                invariant
                    k <= ts@.len(),
                    ts@ == old_ts,
                    tally_from(old_ts, kind, id, k as int) == tally_from(old_ts, kind, id, 0),
                decreases ts@.len() - k,
            {
                k += 1;
            }
            let grown: Option<u64> = match (size, count) {
                (Some(sz), Some(c)) => {
                    assert((c as u64) * (sz as u64) <= 0xFFFF_FFFF * 0xFFFF_FFFF) by (nonlinear_arith)
                        requires
                            c <= 0xFFFF_FFFF,
                            sz <= 0xFFFF_FFFF,
                    ;
                    let p: u64 = (c as u64) * (sz as u64);
                    let base: u64 = if k < ts.len() { ts[k].2 } else { 0 };
                    if p > 0xFFFF_FFFF || base > 0xFFFF_FFFF - p {
                        None
                    } else {
                        Some(base + p)
                    }
                },
                _ => Some(0),
            };
            if k < ts.len() {
                if !ts[k].3 {
                    match (size, count) {
                        (Some(_), Some(_)) => {
                            match grown {
                                None => {
                                    assert(tally_item(old_ts, kind, size, count, id) is None);
                                    return false;
                                },
                                Some(g) => {
                                    ts.set(k, (kind, id, g, false));
                                },
                            }
                        },
                        _ => {
                            let keep = ts[k].2;
                            ts.set(k, (kind, id, keep, true));
                        },
                    }
                }
            } else {
                match (size, count) {
                    (Some(_), Some(_)) => {
                        match grown {
                            None => {
                                assert(tally_item(old_ts, kind, size, count, id) is None);
                                return false;
                            },
                            Some(g) => {
                                ts.push((kind, id, g, false));
                            },
                        }
                    },
                    _ => {
                        ts.push((kind, id, 0, true));
                    },
                }
            }
            assert(tally_item(old_ts, kind, size, count, id) == Some(ts@));
        }
        pos = start + n;
    }
    true
}

/// Size of the buffer of the first read of a report descriptor.
pub const INITIAL_REPORT_DESCRIPTOR_SIZE: usize = 4096;

/// What to do after a read of the report descriptor.
#[derive(Debug, Clone, Copy, PartialEq, Eq, Structural)]
pub enum ReportDescriptorStep {
    /// Parse the first `size` bytes read.
    Parse { size: usize },
    /// Read again into a buffer of `size` bytes.
    Retry { size: usize },
    /// Fail with this status.
    Fail(usize),
}

/// The step after a read of the report descriptor that returned `status`
/// and the size `size`; `first_attempt` tells whether it was the first read.
pub fn report_descriptor_step(first_attempt: bool, status: usize, size: usize) -> (r: ReportDescriptorStep)
    ensures
        r == (if status == EFI_SUCCESS {
            ReportDescriptorStep::Parse { size }
        } else if status == EFI_BUFFER_TOO_SMALL && first_attempt {
            ReportDescriptorStep::Retry { size }
        } else {
            ReportDescriptorStep::Fail(status)
        }),
{
    if status == EFI_SUCCESS {
        ReportDescriptorStep::Parse { size }
    } else if status == EFI_BUFFER_TOO_SMALL && first_attempt {
        ReportDescriptorStep::Retry { size }
    } else {
        ReportDescriptorStep::Fail(status)
    }
}

/// Parses the report descriptor held in the first `size` bytes of `buffer`
/// (all of it when it is shorter); a descriptor whose report bits the parser
/// could not sum in `u32` (`within_limits`) or that does not parse is reported as
/// EFI_DEVICE_ERROR.
pub fn parse_report_descriptor(buffer: &[u8], size: usize) -> (r: Result<ReportDescriptor, usize>)
    ensures
        ({
            let n = if size < buffer@.len() { size as int } else { buffer@.len() as int };
            &&& r is Ok == (within_limits(buffer@.take(n)) && report_descriptor_parses(buffer@.take(n)))
            &&& r is Err ==> r == Err::<ReportDescriptor, usize>(EFI_DEVICE_ERROR)
        }),
{
    let n = if size < buffer.len() { size } else { buffer.len() };
    let bytes = vstd::slice::slice_subrange(buffer, 0, n);
    assert(bytes@ =~= buffer@.take(n as int));
    if !descriptor_within_limits(bytes) {
        return Err(EFI_DEVICE_ERROR);
    }
    match hidparser_parse(bytes) {
        Ok(descriptor) => Ok(descriptor),
        Err(_) => Err(EFI_DEVICE_ERROR),
    }
}

/// What `parse_report_descriptor` makes of a read that answered `o`: the
/// status, the size and the buffer read.
pub open spec fn parsed_from_read(r: Result<ReportDescriptor, usize>, o: (usize, usize, Vec<u8>)) -> bool {
    let n = if o.1 < o.2@.len() { o.1 as int } else { o.2@.len() as int };
    &&& r is Ok == (within_limits(o.2@.take(n)) && report_descriptor_parses(o.2@.take(n)))
    &&& r is Err ==> r == Err::<ReportDescriptor, usize>(EFI_DEVICE_ERROR)
}

/// Reads and parses a device's report descriptor. `read` reads the
/// descriptor into a buffer of the size it is given and answers the
/// status, the size of the descriptor and the buffer. The first read is
/// into `INITIAL_REPORT_DESCRIPTOR_SIZE` bytes; when it answers
/// EFI_BUFFER_TOO_SMALL, a second read is into a buffer of the size it
/// gave. A read that succeeds is parsed; any other status is the error.
pub fn get_report_descriptor<R: Fn(usize) -> (usize, usize, Vec<u8>)>(read: R) -> (r: Result<
    ReportDescriptor,
    usize,
>)
    requires
        forall|n: usize| read.requires((n,)),
    ensures
        exists|o1: (usize, usize, Vec<u8>)|
            #[trigger] read.ensures((INITIAL_REPORT_DESCRIPTOR_SIZE,), o1) && if o1.0 == EFI_SUCCESS {
                parsed_from_read(r, o1)
            } else if o1.0 == EFI_BUFFER_TOO_SMALL {
                exists|o2: (usize, usize, Vec<u8>)|
                    #[trigger] read.ensures((o1.1,), o2) && if o2.0 == EFI_SUCCESS {
                        parsed_from_read(r, o2)
                    } else {
                        r == Err::<ReportDescriptor, usize>(o2.0)
                    }
            } else {
                r == Err::<ReportDescriptor, usize>(o1.0)
            },
{
    let first = read(INITIAL_REPORT_DESCRIPTOR_SIZE);
    let (s1, n1, b1) = first;
    match report_descriptor_step(true, s1, n1) {
        ReportDescriptorStep::Parse { size } => parse_report_descriptor(&b1, size),
        ReportDescriptorStep::Retry { size } => {
            let second = read(size);
            let (s2, n2, b2) = second;
            assert(read.ensures((n1,), (s2, n2, b2)));
            if s2 == EFI_SUCCESS {
                parse_report_descriptor(&b2, n2)
            } else {
                Err(s2)
            }
        },
        ReportDescriptorStep::Fail(s) => Err(s),
    }
}

/// The report id, report type and size with which an output report is
/// sent: a report without id is sent as id 0.
pub fn output_report_request(id: Option<u8>, report: &[u8]) -> (r: (u8, HidReportType, usize))
    ensures
        r.0 == (match id {
            Some(i) => i,
            None => 0,
        }),
        r.1 == HidReportType::OutputReport,
        r.2 == report@.len(),
{
    let report_id = match id {
        Some(i) => i,
        None => 0,
    };
    (report_id, HidReportType::OutputReport, report.len())
}

/// The outcome of sending a report that returned `status`.
pub fn set_report_result(status: usize) -> (r: Result<(), usize>)
    ensures
        status == EFI_SUCCESS ==> r is Ok,
        status != EFI_SUCCESS ==> r == Err::<(), usize>(status),
{
    if status == EFI_SUCCESS {
        Ok(())
    } else {
        Err(status)
    }
}

} // verus!
