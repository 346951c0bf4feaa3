//! AML handles and the sizing of AML nodes.
//!
//! An AML node starts with a one-byte opcode, or with the extended prefix
//! `0x5B` and a second opcode byte. Opcodes with a package length are sized
//! by it; the others are sized by walking their operands.

use crate::acpi::error::AmlError;
use crate::acpi::opcode::{
    AML_OPCODE_BYTE_SIZE, AML_OPCODE_EXTENDED_BYTE_SIZE, AML_OPCODE_EXTENDED_PREFIX, OperandType, opcode_info,
    opcode_table,
};
use crate::smbios::smbios_derive::{first_zero, lemma_first_zero};
use vstd::prelude::*;

verus! {

/// Key of an installed ACPI table.
#[derive(Debug, Clone, Copy, PartialEq, Eq, Structural)]
pub struct TableKey(pub usize);

/// A node of the AML stream of a table.
#[derive(Debug, Clone, Copy, PartialEq, Eq, Structural)]
pub struct AmlSdtHandleInternal {
    /// Whether the table was modified through this handle.
    pub modified: bool,
    /// The table that holds the node.
    pub table_key: TableKey,
    /// Offset of the node in the table.
    pub offset: usize,
    /// Size of the node in bytes.
    pub size: usize,
}

impl AmlSdtHandleInternal {
    /// A handle on an unmodified node.
    pub fn new(table_key: TableKey, offset: usize, size: usize) -> (r: Self)
        ensures
            r == (AmlSdtHandleInternal { modified: false, table_key, offset, size }),
    {
        Self { modified: false, table_key, offset, size }
    }
}

/// Handle on an AML node.
pub type AmlHandle = AmlSdtHandleInternal;

/// Operation of an AML node. No operation is decoded yet: the one variant
/// stands for any of them.
pub enum AmlOp {
    /// An operation that is not decoded.
    Undecoded,
}

/// Path of an AML NameString.
pub struct AmlNameStringPath {}

/// A decoded AML option.
pub enum AmlData {
    /// No data.
    Empty,
    /// An opcode.
    Opcode(u8),
    /// A name.
    NameString(AmlNameStringPath),
    /// An operation.
    OpFn(AmlOp),
    /// An integer constant.
    UnsignedInt(u64),
    /// A string constant.
    StringLiteral(String),
    /// A child node.
    Child(AmlHandle),
}

// ---------------------------------------------------------------------------
// NameString
// ---------------------------------------------------------------------------

/// Position of the first byte at or after `i` that is not a parent prefix `^`.
pub open spec fn after_prefixes(b: Seq<u8>, i: int) -> int
    decreases b.len() - i,
{
    if 0 <= i < b.len() && b[i] == 0x5E {
        after_prefixes(b, i + 1)
    } else {
        i
    }
}

/// Size of the NameString at the start of `b`: an optional root `\`, any
/// number of parent prefixes `^`, then a null name (1 byte), a multi-name path
/// (`0x2F`, a count and that many 4-byte segments), a dual-name path (`0x2E`
/// and 8 bytes) or a single 4-byte segment. `None` where a byte that must be
/// inspected lies past the end of `b`, or where the size does not fit in a
/// `usize`.
pub open spec fn name_string_size(b: Seq<u8>) -> Option<int> {
    if b.len() == 0 {
        None
    } else {
        let start: int = if b[0] == 0x5C { 1 } else { 0 };
        let p = after_prefixes(b, start);
        if p >= b.len() {
            None
        } else {
            let n: Option<int> = if b[p] == 0x00 {
                Some(p + 1)
            } else if b[p] == 0x2F {
                if p + 1 >= b.len() {
                    None
                } else {
                    Some(p + 2 + 4 * b[p + 1])
                }
            } else if b[p] == 0x2E {
                Some(p + 9)
            } else {
                Some(p + 4)
            };
            match n {
                Some(k) => if k <= usize::MAX { Some(k) } else { None },
                None => None,
            }
        }
    }
}

proof fn lemma_after_prefixes(b: Seq<u8>, i: int)
    requires
        0 <= i,
    ensures
        i <= after_prefixes(b, i),
        after_prefixes(b, i) < b.len() ==> b[after_prefixes(b, i)] != 0x5E,
        after_prefixes(b, i) <= b.len() || after_prefixes(b, i) == i,
    decreases b.len() - i,
{
    if 0 <= i < b.len() && b[i] == 0x5E {
        lemma_after_prefixes(b, i + 1);
    }
}

/// Size of the NameString at the start of `name_bytes`.
pub fn get_name_string_size(name_bytes: &[u8]) -> (r: Result<usize, AmlError>)
    requires
        name_string_size(name_bytes@) is Some,
    ensures
        r == Ok::<usize, AmlError>(name_string_size(name_bytes@)->0 as usize),
{
    let ghost b = name_bytes@;
    let mut offset: usize = 0;
    if name_bytes[0] == 0x5C {
        offset = 1;
    }
    let ghost start = offset as int;
    proof {
        lemma_after_prefixes(b, start);
    }
    while name_bytes[offset] == 0x5E
        invariant
            b == name_bytes@,
            start <= offset <= after_prefixes(b, start),
            after_prefixes(b, offset as int) == after_prefixes(b, start),
            after_prefixes(b, start) < b.len(),
        decreases b.len() - offset,
    {
        proof {
            lemma_after_prefixes(b, offset + 1);
        }
        offset += 1;
    }
    assert(offset == after_prefixes(b, start));
    let namepath_type = name_bytes[offset];
    if namepath_type == 0x00 {
        offset += 1;
    } else if namepath_type == 0x2F {
        offset += 1;
        let seg_count = name_bytes[offset] as usize;
        offset += 1;
        offset += seg_count * 4;
    } else if namepath_type == 0x2E {
        offset += 1;
        offset += 8;
    } else {
        offset += 4;
    }
    Ok(offset)
}

// ---------------------------------------------------------------------------
// Node sizes
// ---------------------------------------------------------------------------

/// Weight of the `i`-th byte that follows a package length lead byte:
/// with follow bytes, the lead byte gives the low 4 bits and each follow
/// byte the next 8.
pub open spec fn follow_weight(i: int) -> int {
    if i == 0 {
        0x10
    } else if i == 1 {
        0x1000
    } else {
        0x10_0000
    }
}

/// Value of the `n` bytes from `start` on, each at its weight.
pub open spec fn follow_value(b: Seq<u8>, start: int, n: int) -> int
    decreases n,
{
    if n <= 0 {
        0
    } else {
        follow_value(b, start, n - 1) + b[start + n - 1] * follow_weight(n - 1)
    }
}

/// The package length encoded from the lead byte `lead` followed by the
/// `lead / 64` follow bytes from `start` on: bits 0 to 5 of the lead byte
/// alone, or bits 0 to 3 of it below the follow bytes.
pub open spec fn pkg_length_value(b: Seq<u8>, lead: u8, start: int) -> int {
    if lead / 64 == 0 {
        (lead % 64) as int
    } else {
        lead % 16 + follow_value(b, start, (lead / 64) as int)
    }
}

/// Size of a node whose opcode takes `osize` bytes and is followed by a
/// package length. The two high bits of the lead byte count the follow
/// bytes; the package length counts the bytes of the package from the lead
/// byte on, so the node is the opcode and that many bytes.
pub open spec fn pkg_node_size(b: Seq<u8>, osize: int) -> Option<Result<int, AmlError>> {
    if osize >= b.len() {
        None
    } else {
        let lead = b[osize];
        let follow: int = (lead / 64) as int;
        if osize + 1 + follow > b.len() {
            Some(Err(AmlError::OutOfBounds))
        } else {
            Some(Ok(osize + pkg_length_value(b, lead, osize + 1)))
        }
    }
}

/// `b.len() - off`, or zero past the end.
pub open spec fn remaining(b: Seq<u8>, off: int) -> nat {
    if off <= b.len() {
        (b.len() - off) as nat
    } else {
        0
    }
}

/// Outcome of sizing the AML node at the start of `b`: `None` where the
/// node cannot be sized without reading past the end of `b` (or beyond the
/// range of `usize`), `Some(Err(..))` where it is rejected, and
/// `Some(Ok(n))` for a node of `n` bytes.
pub open spec fn node_size(b: Seq<u8>) -> Option<Result<int, AmlError>>
    decreases b.len(), 0nat,
{
    if b.len() == 0 || (b[0] == 0x5B && b.len() < 2) {
        None
    } else {
        let ext = b[0] == 0x5B;
        let opcode: u16 = if ext { (0x5B00 + b[1]) as u16 } else { b[0] as u16 };
        let osize: int = if ext { 2 } else { 1 };
        match opcode_table(opcode) {
            None => Some(Err(AmlError::InvalidOpcode)),
            Some((has_pkg, ops)) => if has_pkg {
                pkg_node_size(b, osize)
            } else {
                operands_size(b, ops, 0, osize)
            },
        }
    }
}

/// Outcome of sizing the operands `ops[i..]` of a node whose first `off`
/// bytes are accounted for.
pub open spec fn operands_size(b: Seq<u8>, ops: Seq<OperandType>, i: int, off: int) -> Option<Result<int, AmlError>>
    decreases remaining(b, off), (ops.len() - i + 1) as nat,
{
    if i < 0 || i >= ops.len() {
        Some(Ok(off))
    } else {
        let next: Option<Result<int, AmlError>> = match ops[i] {
            OperandType::Byte => Some(Ok(off + 1)),
            OperandType::Word => Some(Ok(off + 2)),
            OperandType::DWord => Some(Ok(off + 4)),
            OperandType::QWord => Some(Ok(off + 8)),
            OperandType::String => if off > b.len() {
                None
            } else if first_zero(b.skip(off)) == b.len() - off {
                Some(Err(AmlError::OutOfBounds))
            } else {
                Some(Ok(off + first_zero(b.skip(off)) + 1))
            },
            OperandType::NameString => if off > b.len() {
                None
            } else {
                match name_string_size(b.skip(off)) {
                    None => None,
                    Some(n) => Some(Ok(off + n)),
                }
            },
            OperandType::DataRefObject => if off > b.len() {
                Some(Err(AmlError::OutOfBounds))
            } else if off <= 0 {
                None
            } else {
                match node_size(b.skip(off)) {
                    None => None,
                    Some(Err(e)) => Some(Err(e)),
                    Some(Ok(n)) => Some(Ok(off + n)),
                }
            },
            _ => Some(Err(AmlError::InvalidOpcode)),
        };
        match next {
            None => None,
            Some(Err(e)) => Some(Err(e)),
            Some(Ok(n)) => if n > usize::MAX {
                None
            } else if n < off {
                None
            } else {
                operands_size(b, ops, i + 1, n)
            },
        }
    }
}

/// The outcome that a returned size or error stands for.
pub open spec fn size_outcome(r: Result<usize, AmlError>) -> Option<Result<int, AmlError>> {
    match r {
        Ok(n) => Some(Ok(n as int)),
        Err(e) => Some(Err(e)),
    }
}

proof fn lemma_follow_bound(b: Seq<u8>, start: int, n: int)
    requires
        0 <= n <= 3,
        0 <= start,
        start + n <= b.len(),
    ensures
        0 <= follow_value(b, start, n),
        follow_value(b, start, n) < 0x10 * (if n == 0 { 1int } else if n == 1 { 0x100int } else if n == 2 {
            0x1_0000int
        } else {
            0x100_0000int
        }),
    decreases n,
{
    if n > 0 {
        lemma_follow_bound(b, start, n - 1);
    }
}

/// Size of the AML node at the start of `table_bytes`.
pub fn get_node_size(table_bytes: &[u8]) -> (r: Result<usize, AmlError>)
    requires
        node_size(table_bytes@) is Some,
    ensures
        size_outcome(r) == node_size(table_bytes@),
    decreases table_bytes@.len(),
{
    let ghost b = table_bytes@;
    let ext = table_bytes[0] == AML_OPCODE_EXTENDED_PREFIX;
    let (opcode, opcode_size) = if ext {
        ((0x5B00u16 | table_bytes[1] as u16), AML_OPCODE_EXTENDED_BYTE_SIZE)
    } else {
        (table_bytes[0] as u16, AML_OPCODE_BYTE_SIZE)
    };
    proof {
        if ext {
            let x = table_bytes@[1];
            assert(0x5B00u16 | (x as u16) == 0x5B00 + x) by (bit_vector);
        }
    }
    let mut offset: usize = opcode_size;
    let info = match opcode_info(opcode) {
        Some(info) => info,
        None => {
            return Err(AmlError::InvalidOpcode);
        },
    };
    if info.has_pkg_length {
        let lead = table_bytes[offset];
        proof {
            assert(lead >> 6u8 == lead / 64 && lead & 0x3Fu8 == lead % 64) by (bit_vector);
        }
        let follow: u8 = lead >> 6;
        let mut pkg_length: u64 = if follow == 0 {
            (lead & 0x3F) as u64
        } else {
            (lead & 0x0F) as u64
        };
        proof {
            assert(lead & 0x0Fu8 == lead % 16) by (bit_vector);
        }
        let mut i: u8 = 0;
        while i < follow
            invariant
                b == table_bytes@,
                offset == opcode_size,
                offset < b.len(),
                lead == b[offset as int],
                follow == lead / 64,
                follow <= 3,
                i <= follow,
                offset <= 2,
                node_size(b) == pkg_node_size(b, offset as int),
                node_size(b) is Some,
                offset + 1 + i <= b.len(),
                follow == 0 ==> pkg_length == lead % 64,
                follow > 0 ==> pkg_length == lead % 16 + follow_value(b, offset + 1, i as int),
            decreases follow - i,
        {
            let idx = offset + 1 + i as usize;
            if idx >= table_bytes.len() {
                return Err(AmlError::OutOfBounds);
            }
            let next_byte = table_bytes[idx];
            proof {
                lemma_follow_bound(b, offset + 1, i as int);
            }
            let weight: u64 = if i == 0 {
                0x10
            } else if i == 1 {
                0x1000
            } else {
                0x10_0000
            };
            pkg_length = pkg_length + (next_byte as u64) * weight;
            i += 1;
        }
        proof {
            lemma_follow_bound(b, offset + 1, follow as int);
        }
        let total: u64 = offset as u64 + pkg_length;
        Ok(total as usize)
    } else {
        let ops = info.operands;
        let mut k: usize = 0;
        while k < ops.len()
            invariant
                b == table_bytes@,
                1 <= offset,
                k <= ops@.len(),
                operands_size(b, ops@, k as int, offset as int) == node_size(b),
                node_size(b) is Some,
            decreases ops@.len() - k,
        {
            match ops[k] {
                OperandType::Byte => {
                    offset += 1;
                },
                OperandType::Word => {
                    offset += 2;
                },
                OperandType::DWord => {
                    offset += 4;
                },
                OperandType::QWord => {
                    offset += 8;
                },
                OperandType::String => {
                    let mut j: usize = offset;
                    while j < table_bytes.len() && table_bytes[j] != 0
                        invariant
                            b == table_bytes@,
                            offset <= j <= b.len(),
                            forall|m: int| offset <= m < j ==> b[m] != 0,
                        decreases b.len() - j,
                    {
                        j += 1;
                    }
                    proof {
                        let s = b.skip(offset as int);
                        assert forall|m: int| 0 <= m < j - offset implies s[m] != 0 by {
                            assert(s[m] == b[offset + m]);
                        }
                        lemma_first_zero(s, j - offset);
                    }
                    if j == table_bytes.len() {
                        return Err(AmlError::OutOfBounds);
                    }
                    offset = j + 1;
                },
                OperandType::NameString => {
                    let rest = vstd::slice::slice_subrange(table_bytes, offset, table_bytes.len());
                    assert(rest@ =~= b.skip(offset as int));
                    let n = match get_name_string_size(rest) {
                        Ok(n) => n,
                        Err(e) => {
                            return Err(e);
                        },
                    };
                    offset += n;
                },
                OperandType::DataRefObject => {
                    if offset > table_bytes.len() {
                        return Err(AmlError::OutOfBounds);
                    }
                    let rest = vstd::slice::slice_subrange(table_bytes, offset, table_bytes.len());
                    assert(rest@ =~= b.skip(offset as int));
                    let n = match get_node_size(rest) {
                        Ok(n) => n,
                        Err(e) => {
                            return Err(e);
                        },
                    };
                    offset += n;
                },
                _ => {
                    return Err(AmlError::InvalidOpcode);
                },
            }
            k += 1;
        }
        Ok(offset)
    }
}

// ---------------------------------------------------------------------------
// The parser: the set of open handles
// ---------------------------------------------------------------------------

/// Position of the first handle equal to `h`, or `s.len()` when none is.
pub open spec fn handle_position(s: Seq<AmlHandle>, h: AmlHandle) -> int
    decreases s.len(),
{
    if s.len() == 0 {
        0
    } else if s[0] == h {
        0
    } else {
        1 + handle_position(s.drop_first(), h)
    }
}

proof fn lemma_handle_position(s: Seq<AmlHandle>, h: AmlHandle, k: int)
    requires
        0 <= k <= s.len(),
        forall|j: int| 0 <= j < k ==> s[j] != h,
        k == s.len() || s[k] == h,
    ensures
        handle_position(s, h) == k,
    decreases k,
{
    if k > 0 {
        lemma_handle_position(s.drop_first(), h, k - 1);
    }
}

/// Opens AML tables and walks their nodes. The bytes of a table are handed
/// in by the caller, who fetches them from the ACPI table service by the key
/// of the handle.
pub struct StandardAmlParser {
    /// The handles opened and not closed yet, oldest first.
    pub open_handles: Vec<AmlHandle>,
}

impl StandardAmlParser {
    /// A parser with no open handle.
    pub fn new() -> (r: Self)
        ensures
            r.open_handles@ == Seq::<AmlHandle>::empty(),
    {
        Self { open_handles: Vec::new() }
    }

    /// Opens the table `table_key`, whose bytes are `table_bytes`: the
    /// handle covers the AML node at its start and joins the open handles.
    pub fn open_sdt(&mut self, table_key: TableKey, table_bytes: &[u8]) -> (r: Result<AmlHandle, AmlError>)
        requires
            node_size(table_bytes@) is Some,
        ensures
            match node_size(table_bytes@) {
                Some(Ok(n)) => r == Ok::<AmlHandle, AmlError>(
                    AmlSdtHandleInternal { modified: false, table_key, offset: 0, size: n as usize },
                ) && final(self).open_handles@ == old(self).open_handles@.push(r->Ok_0),
                Some(Err(e)) => r == Err::<AmlHandle, AmlError>(e) && final(self).open_handles@
                    == old(self).open_handles@,
                None => false,
            },
    {
        let size = match get_node_size(table_bytes) {
            Ok(n) => n,
            Err(e) => {
                return Err(e);
            },
        };
        let handle = AmlHandle::new(table_key, 0, size);
        self.open_handles.push(handle);
        Ok(handle)
    }

    /// Closes `handle`: the first open handle equal to it is removed and
    /// returned, so that the caller can update the checksum of its table.
    /// Fails with `InvalidHandle` when no open handle equals it.
    pub fn close_sdt(&mut self, handle: AmlHandle) -> (r: Result<AmlHandle, AmlError>)
        ensures
            ({
                let k = handle_position(old(self).open_handles@, handle);
                if k < old(self).open_handles@.len() {
                    r == Ok::<AmlHandle, AmlError>(handle) && final(self).open_handles@
                        == old(self).open_handles@.remove(k)
                } else {
                    r == Err::<AmlHandle, AmlError>(AmlError::InvalidHandle) && final(self).open_handles@
                        == old(self).open_handles@
                }
            }),
    {
        let mut i: usize = 0;
        while i < self.open_handles.len() && self.open_handles[i] != handle
            invariant
                i <= self.open_handles@.len(),
                self.open_handles@ == old(self).open_handles@,
                forall|j: int| 0 <= j < i ==> self.open_handles@[j] != handle,
            decreases self.open_handles@.len() - i,
        {
            i += 1;
        }
        proof {
            lemma_handle_position(self.open_handles@, handle, i as int);
        }
        if i < self.open_handles.len() {
            let removed = self.open_handles.remove(i);
            Ok(removed)
        } else {
            Err(AmlError::InvalidHandle)
        }
    }

    /// The options of the node `handle` in its table `table_bytes`: one
    /// undecoded option per byte of the node. Fails with `InvalidAcpiTable`
    /// when the node does not lie within the table.
    pub fn iter_options(&self, handle: AmlHandle, table_bytes: &[u8]) -> (r: Result<Vec<AmlData>, AmlError>)
        requires
            handle.offset + handle.size <= usize::MAX,
        ensures
            handle.offset + handle.size > table_bytes@.len() ==> r == Err::<Vec<AmlData>, AmlError>(
                AmlError::InvalidAcpiTable,
            ),
            handle.offset + handle.size <= table_bytes@.len() ==> r is Ok && r->Ok_0@.len() == handle.size
                && forall|i: int| 0 <= i < handle.size ==> #[trigger] r->Ok_0@[i] is Empty,
    {
        if handle.offset + handle.size > table_bytes.len() {
            return Err(AmlError::InvalidAcpiTable);
        }
        let mut all_options: Vec<AmlData> = Vec::new();
        let mut options_offset: usize = 0;
        while options_offset < handle.size
            invariant
                options_offset <= handle.size,
                all_options@.len() == options_offset,
                forall|i: int| 0 <= i < options_offset ==> #[trigger] all_options@[i] is Empty,
            decreases handle.size - options_offset,
        {
            all_options.push(AmlData::Empty);
            options_offset += 1;
        }
        Ok(all_options)
    }

    /// The node that follows `handle` in its table `table_bytes`, taken to
    /// be one byte long. Fails with `OutOfBounds` when it would start past
    /// the end of the table.
    pub fn get_sibling(&self, handle: AmlHandle, table_bytes: &[u8]) -> (r: Result<AmlHandle, AmlError>)
        requires
            handle.offset + handle.size <= usize::MAX,
        ensures
            handle.offset + handle.size > table_bytes@.len() ==> r == Err::<AmlHandle, AmlError>(
                AmlError::OutOfBounds,
            ),
            handle.offset + handle.size <= table_bytes@.len() ==> r == Ok::<AmlHandle, AmlError>(
                AmlSdtHandleInternal {
                    modified: false,
                    table_key: handle.table_key,
                    offset: (handle.offset + handle.size) as usize,
                    size: 1,
                },
            ),
    {
        let sibling_start = handle.offset + handle.size;
        if sibling_start > table_bytes.len() {
            return Err(AmlError::OutOfBounds);
        }
        Ok(AmlHandle::new(handle.table_key, sibling_start, 1))
    }
}

/// Closing the handle that `open_sdt` just returned gives the set of open
/// handles back as it was, where no equal handle was open before.
pub proof fn law_close_undoes_open(before: Seq<AmlHandle>, h: AmlHandle)
    requires
        handle_position(before, h) == before.len(),
    ensures
        handle_position(before.push(h), h) == before.len(),
        before.push(h).remove(before.len() as int) == before,
{
    let s = before.push(h);
    assert forall|j: int| 0 <= j < before.len() implies s[j] != h by {
        lemma_position_absent(before, h, j);
    }
    lemma_handle_position(s, h, before.len() as int);
    assert(s.remove(before.len() as int) =~= before);
}

proof fn lemma_position_absent(s: Seq<AmlHandle>, h: AmlHandle, j: int)
    requires
        handle_position(s, h) == s.len(),
        0 <= j < s.len(),
    ensures
        s[j] != h,
    decreases s.len(),
{
    if j > 0 {
        lemma_position_absent(s.drop_first(), h, j - 1);
    }
}

/// The one-byte opcodes that the AML grammar gives a package length
/// (ScopeOp, PackageOp, VarPackageOp, IfOp, ElseOp, WhileOp)
/// among those the table knows.
pub open spec fn grammar_pkg_opcode(op: u8) -> bool {
    op == 0x10 || op == 0x12 || op == 0x13 || op == 0xA0 || op == 0xA1 || op == 0xA2
}

/// The extended opcodes (after the 0x5B prefix) that the AML grammar gives
/// a package length (FieldOp, DeviceOp, ProcessorOp, PowerResOp,
/// ThermalZoneOp) among those the table knows.
pub open spec fn grammar_ext_pkg_opcode(op: u8) -> bool {
    op == 0x81 || op == 0x82 || op == 0x83 || op == 0x84 || op == 0x85
}

/// A node whose opcode the AML grammar gives a package length spans the
/// opcode and the bytes that the package length counts (the length byte
/// among them): with a one-byte package length `L` (a lead byte below
/// 0x40), a one-byte opcode node is `1 + L` bytes and an extended one
/// `2 + L`, whatever follows.
pub proof fn law_pkg_length_node_size(b: Seq<u8>)
    ensures
        b.len() >= 2 && grammar_pkg_opcode(b[0]) && b[1] < 0x40 ==> node_size(b) == Some(
            Ok::<int, AmlError>(1 + b[1]),
        ),
        b.len() >= 3 && b[0] == 0x5B && grammar_ext_pkg_opcode(b[1]) && b[2] < 0x40 ==> node_size(b) == Some(
            Ok::<int, AmlError>(2 + b[2]),
        ),
{
}

/// The data objects that carry a constant are sized by the constant's
/// width: ZeroOp, OneOp and OnesOp are one byte, ByteConst two, WordConst
/// three, DWordConst five and QWordConst nine.
pub proof fn law_constant_node_size(b: Seq<u8>)
    ensures
        b.len() >= 1 && (b[0] == 0x00 || b[0] == 0x01 || b[0] == 0xFF) ==> node_size(b) == Some(
            Ok::<int, AmlError>(1),
        ),
        b.len() >= 1 && b[0] == 0x0A ==> node_size(b) == Some(Ok::<int, AmlError>(2)),
        b.len() >= 1 && b[0] == 0x0B ==> node_size(b) == Some(Ok::<int, AmlError>(3)),
        b.len() >= 1 && b[0] == 0x0C ==> node_size(b) == Some(Ok::<int, AmlError>(5)),
        b.len() >= 1 && b[0] == 0x0E ==> node_size(b) == Some(Ok::<int, AmlError>(9)),
{
    if b.len() >= 1 && b[0] != 0x5B {
        let op = b[0] as u16;
        if b[0] == 0x0A || b[0] == 0x0B || b[0] == 0x0C || b[0] == 0x0E {
            let entry = opcode_table(op)->0;
            let ops = entry.1;
            assert(ops.len() == 1);
            let w: int = if b[0] == 0x0A {
                1
            } else if b[0] == 0x0B {
                2
            } else if b[0] == 0x0C {
                4
            } else {
                8
            };
            assert(operands_size(b, ops, 1, 1 + w) == Some(Ok::<int, AmlError>(1 + w)));
            assert(operands_size(b, ops, 0, 1) == operands_size(b, ops, 1, 1 + w));
        }
    }
}

} // verus!
