//! The AML opcode table: which opcodes are known, whether each carries a
//! package length, and the operands that follow it.

use vstd::prelude::*;

verus! {

/// Prefix byte of the two-byte (extended) opcodes.
pub const AML_OPCODE_EXTENDED_PREFIX: u8 = 0x5B;

/// Size of an extended opcode.
pub const AML_OPCODE_EXTENDED_BYTE_SIZE: usize = 2;

/// Size of a one-byte opcode.
pub const AML_OPCODE_BYTE_SIZE: usize = 1;

/// Kinds of operand that follow an AML opcode.
#[derive(Debug, Clone, Copy, PartialEq, Eq, Structural)]
pub enum OperandType {
    /// 1-byte immediate.
    Byte,
    /// 2-byte immediate.
    Word,
    /// 4-byte immediate.
    DWord,
    /// 8-byte immediate.
    QWord,
    /// Null-terminated ASCII string.
    String,
    /// Variable-length ACPI NameString.
    NameString,
    /// Package length field.
    PkgLength,
    /// Sequence of terms (children).
    TermList,
    /// A constant, buffer, package or other data object.
    DataRefObject,
}

/// What the parser knows of an opcode.
#[derive(Debug)]
pub struct OpcodeInfo {
    /// Whether a package length follows the opcode.
    pub has_pkg_length: bool,
    /// The operands, in order.
    pub operands: Vec<OperandType>,
}

/// The opcode table: for each known opcode, whether it has a package length
/// and its operands.
pub open spec fn opcode_table(opcode: u16) -> Option<(bool, Seq<OperandType>)> {
    if opcode == 0x08 {
        // NameOp
        Some((false, seq![OperandType::NameString, OperandType::DataRefObject]))
    } else if opcode == 0x09 {
        // AliasOp
        Some((false, seq![OperandType::NameString, OperandType::NameString]))
    } else if opcode == 0x10 {
        // ScopeOp
        Some((true, seq![OperandType::NameString, OperandType::TermList]))
    } else if opcode == 0x5B82 {
        // DeviceOp
        Some((true, seq![OperandType::NameString, OperandType::TermList]))
    } else if opcode == 0x5B14 {
        // MethodOp
        Some((true, seq![OperandType::NameString, OperandType::Byte, OperandType::TermList]))
    } else if opcode == 0x12 {
        // PackageOp
        Some((true, seq![OperandType::Byte, OperandType::DataRefObject]))
    } else if opcode == 0x13 {
        // VarPackageOp
        Some((true, seq![OperandType::DataRefObject, OperandType::DataRefObject]))
    } else if opcode == 0x5B80 {
        // RegionOp
        Some((true, seq![OperandType::NameString, OperandType::Byte, OperandType::DataRefObject, OperandType::DataRefObject, OperandType::TermList]))
    } else if opcode == 0x5B81 {
        // FieldOp
        Some((true, seq![OperandType::NameString, OperandType::TermList]))
    } else if opcode == 0x5B83 {
        // ProcessorOp
        Some((true, seq![OperandType::NameString, OperandType::Byte, OperandType::DWord, OperandType::Byte, OperandType::TermList]))
    } else if opcode == 0x5B84 {
        // PowerResOp
        Some((true, seq![OperandType::NameString, OperandType::Byte, OperandType::Word, OperandType::TermList]))
    } else if opcode == 0x5B85 {
        // ThermalZoneOp
        Some((true, seq![OperandType::NameString, OperandType::TermList]))
    } else if opcode == 0xA0 {
        // IfOp
        Some((true, seq![OperandType::DataRefObject, OperandType::TermList]))
    } else if opcode == 0xA1 {
        // ElseOp
        Some((true, seq![OperandType::TermList]))
    } else if opcode == 0xA2 {
        // WhileOp
        Some((true, seq![OperandType::DataRefObject, OperandType::TermList]))
    } else if opcode == 0xA4 {
        // ReturnOp
        Some((false, seq![OperandType::DataRefObject]))
    } else if opcode == 0xA5 {
        // BreakOp
        Some((false, Seq::<OperandType>::empty()))
    } else if opcode == 0xA6 {
        // ContinueOp
        Some((false, Seq::<OperandType>::empty()))
    } else if opcode == 0x00 {
        // ZeroOp
        Some((false, Seq::<OperandType>::empty()))
    } else if opcode == 0x01 {
        // OneOp
        Some((false, Seq::<OperandType>::empty()))
    } else if opcode == 0xFF {
        // OnesOp
        Some((false, Seq::<OperandType>::empty()))
    } else if opcode == 0x0A {
        // ByteConst
        Some((false, seq![OperandType::Byte]))
    } else if opcode == 0x0B {
        // WordConst
        Some((false, seq![OperandType::Word]))
    } else if opcode == 0x0C {
        // DWordConst
        Some((false, seq![OperandType::DWord]))
    } else if opcode == 0x0E {
        // QWordConst
        Some((false, seq![OperandType::QWord]))
    } else if opcode == 0x0D {
        // StringOp
        Some((false, seq![OperandType::String]))
    } else {
        None
    }
}

/// Looks an opcode up in the table.
pub fn opcode_info(opcode: u16) -> (r: Option<OpcodeInfo>)
    ensures
        match opcode_table(opcode) {
            None => r is None,
            Some((pkg, ops)) => r is Some && r->0.has_pkg_length == pkg && r->0.operands@ == ops,
        },
{
    if opcode == 0x08 {
        Some(OpcodeInfo { has_pkg_length: false, operands: vec![OperandType::NameString, OperandType::DataRefObject] })
    } else if opcode == 0x09 {
        Some(OpcodeInfo { has_pkg_length: false, operands: vec![OperandType::NameString, OperandType::NameString] })
    } else if opcode == 0x10 {
        Some(OpcodeInfo { has_pkg_length: true, operands: vec![OperandType::NameString, OperandType::TermList] })
    } else if opcode == 0x5B82 {
        Some(OpcodeInfo { has_pkg_length: true, operands: vec![OperandType::NameString, OperandType::TermList] })
    } else if opcode == 0x5B14 {
        Some(OpcodeInfo { has_pkg_length: true, operands: vec![OperandType::NameString, OperandType::Byte, OperandType::TermList] })
    } else if opcode == 0x12 {
        Some(OpcodeInfo { has_pkg_length: true, operands: vec![OperandType::Byte, OperandType::DataRefObject] })
    } else if opcode == 0x13 {
        Some(OpcodeInfo { has_pkg_length: true, operands: vec![OperandType::DataRefObject, OperandType::DataRefObject] })
    } else if opcode == 0x5B80 {
        Some(OpcodeInfo { has_pkg_length: true, operands: vec![OperandType::NameString, OperandType::Byte, OperandType::DataRefObject, OperandType::DataRefObject, OperandType::TermList] })
    } else if opcode == 0x5B81 {
        Some(OpcodeInfo { has_pkg_length: true, operands: vec![OperandType::NameString, OperandType::TermList] })
    } else if opcode == 0x5B83 {
        Some(OpcodeInfo { has_pkg_length: true, operands: vec![OperandType::NameString, OperandType::Byte, OperandType::DWord, OperandType::Byte, OperandType::TermList] })
    } else if opcode == 0x5B84 {
        Some(OpcodeInfo { has_pkg_length: true, operands: vec![OperandType::NameString, OperandType::Byte, OperandType::Word, OperandType::TermList] })
    } else if opcode == 0x5B85 {
        Some(OpcodeInfo { has_pkg_length: true, operands: vec![OperandType::NameString, OperandType::TermList] })
    } else if opcode == 0xA0 {
        Some(OpcodeInfo { has_pkg_length: true, operands: vec![OperandType::DataRefObject, OperandType::TermList] })
    } else if opcode == 0xA1 {
        Some(OpcodeInfo { has_pkg_length: true, operands: vec![OperandType::TermList] })
    } else if opcode == 0xA2 {
        Some(OpcodeInfo { has_pkg_length: true, operands: vec![OperandType::DataRefObject, OperandType::TermList] })
    } else if opcode == 0xA4 {
        Some(OpcodeInfo { has_pkg_length: false, operands: vec![OperandType::DataRefObject] })
    } else if opcode == 0xA5 {
        Some(OpcodeInfo { has_pkg_length: false, operands: Vec::new() })
    } else if opcode == 0xA6 {
        Some(OpcodeInfo { has_pkg_length: false, operands: Vec::new() })
    } else if opcode == 0x00 {
        Some(OpcodeInfo { has_pkg_length: false, operands: Vec::new() })
    } else if opcode == 0x01 {
        Some(OpcodeInfo { has_pkg_length: false, operands: Vec::new() })
    } else if opcode == 0xFF {
        Some(OpcodeInfo { has_pkg_length: false, operands: Vec::new() })
    } else if opcode == 0x0A {
        Some(OpcodeInfo { has_pkg_length: false, operands: vec![OperandType::Byte] })
    } else if opcode == 0x0B {
        Some(OpcodeInfo { has_pkg_length: false, operands: vec![OperandType::Word] })
    } else if opcode == 0x0C {
        Some(OpcodeInfo { has_pkg_length: false, operands: vec![OperandType::DWord] })
    } else if opcode == 0x0E {
        Some(OpcodeInfo { has_pkg_length: false, operands: vec![OperandType::QWord] })
    } else if opcode == 0x0D {
        Some(OpcodeInfo { has_pkg_length: false, operands: vec![OperandType::String] })
    } else {
        None
    }
}

} // verus!
