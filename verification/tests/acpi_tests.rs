use patina_components::acpi::acpi::StandardAcpiProvider;
use patina_components::acpi::acpi_table::{AcpiFadt, AcpiRsdp, AcpiTableHeader, GenericAddressStructure};
use patina_components::acpi::aml::{
    get_name_string_size, get_node_size, AmlData, AmlSdtHandleInternal, StandardAmlParser, TableKey,
};
use patina_components::acpi::error::{AcpiError, AmlError};
use patina_components::acpi::opcode::{opcode_info, OperandType};
use patina_components::acpi::signature::{ACPI_HEADER_LEN, ACPI_RSDP_TABLE, XSDT};

#[test]
fn test_get_xsdt_entry() {
    let entry0: u64 = 0x1111_2222_3333_4444;
    let entry1: u64 = 0xAAAA_BBBB_CCCC_DDDD;
    let xsdt_len = ACPI_HEADER_LEN + 2 * std::mem::size_of::<u64>();
    let mut buf = vec![0u8; xsdt_len];
    let off0 = ACPI_HEADER_LEN;
    buf[off0..off0 + 8].copy_from_slice(&entry0.to_le_bytes());
    let off1 = ACPI_HEADER_LEN + std::mem::size_of::<u64>();
    buf[off1..off1 + 8].copy_from_slice(&entry1.to_le_bytes());

    let got0 = StandardAcpiProvider::get_xsdt_entry_from_hob(0, &buf, xsdt_len).expect("entry0 should be valid");
    let got1 = StandardAcpiProvider::get_xsdt_entry_from_hob(1, &buf, xsdt_len).expect("entry1 should be valid");
    assert_eq!(got0, entry0);
    assert_eq!(got1, entry1);

    let err = StandardAcpiProvider::get_xsdt_entry_from_hob(2, &buf, xsdt_len).unwrap_err();
    assert!(matches!(err, AcpiError::InvalidXsdtEntry));
}

#[test]
fn xsdt_entry_must_lie_within_the_table() {
    // An entry that starts inside a 40-byte table but ends past it is not read.
    let buf = vec![0xABu8; 48];
    assert_eq!(StandardAcpiProvider::get_xsdt_entry_from_hob(0, &buf, 40), Err(AcpiError::InvalidXsdtEntry));
    // A buffer that holds exactly the table.
    let exact = vec![0x11u8; 44];
    assert_eq!(StandardAcpiProvider::get_xsdt_entry_from_hob(0, &exact, 44), Ok(0x1111_1111_1111_1111));
}

fn mock_rsdp(rsdp_signature: u64, xsdt_address: u64) -> AcpiRsdp {
    AcpiRsdp { signature: rsdp_signature, xsdt_address, ..Default::default() }
}

fn mock_xsdt(xsdt_length: usize, xsdt_signature: u32) -> AcpiTableHeader {
    AcpiTableHeader { signature: xsdt_signature, length: xsdt_length as u32, ..Default::default() }
}

#[test]
fn test_get_xsdt_address() {
    let none = mock_xsdt(0, 0);
    assert_eq!(
        StandardAcpiProvider::get_xsdt_address_from_rsdp(0, &mock_rsdp(0, 0), &none).unwrap_err(),
        AcpiError::NullRsdpFromHob
    );
    assert_eq!(
        StandardAcpiProvider::get_xsdt_address_from_rsdp(0x1000, &mock_rsdp(0, 0), &none).unwrap_err(),
        AcpiError::InvalidSignature
    );
    assert_eq!(
        StandardAcpiProvider::get_xsdt_address_from_rsdp(0x1000, &mock_rsdp(ACPI_RSDP_TABLE, 0), &none).unwrap_err(),
        AcpiError::XsdtNotInitializedFromHob
    );
    assert_eq!(
        StandardAcpiProvider::get_xsdt_address_from_rsdp(
            0x1000,
            &mock_rsdp(ACPI_RSDP_TABLE, 0x2000),
            &mock_xsdt(ACPI_HEADER_LEN, 0)
        )
        .unwrap_err(),
        AcpiError::InvalidSignature
    );
    assert_eq!(
        StandardAcpiProvider::get_xsdt_address_from_rsdp(
            0x1000,
            &mock_rsdp(ACPI_RSDP_TABLE, 0x2000),
            &mock_xsdt(ACPI_HEADER_LEN - 1, XSDT)
        )
        .unwrap_err(),
        AcpiError::XsdtInvalidLengthFromHob
    );
    assert_eq!(
        StandardAcpiProvider::get_xsdt_address_from_rsdp(
            0x1000,
            &mock_rsdp(ACPI_RSDP_TABLE, 0x2000),
            &mock_xsdt(ACPI_HEADER_LEN, XSDT)
        ),
        Ok(0x2000)
    );
}

#[test]
fn signatures_spell_their_names() {
    assert_eq!(&ACPI_RSDP_TABLE.to_le_bytes(), b"RSD PTR ");
    assert_eq!(&XSDT.to_le_bytes(), b"XSDT");
}

#[test]
fn header_serializes_in_acpi_layout() {
    let h = AcpiTableHeader {
        signature: XSDT,
        length: 0x44,
        revision: 1,
        checksum: 0xAB,
        oem_id: *b"OEMIDX",
        oem_table_id: *b"TABLEID8",
        oem_revision: 0x0102_0304,
        creator_id: 5,
        creator_revision: 6,
    };
    let b = h.hdr_to_bytes();
    assert_eq!(b.len(), 36);
    assert_eq!(&b[0..4], b"XSDT");
    assert_eq!(&b[4..8], &[0x44, 0, 0, 0]);
    assert_eq!(&b[8..10], &[1, 0xAB]);
    assert_eq!(&b[10..16], b"OEMIDX");
    assert_eq!(&b[16..24], b"TABLEID8");
    assert_eq!(&b[24..28], &[4, 3, 2, 1]);
    assert_eq!(&b[28..36], &[5, 0, 0, 0, 6, 0, 0, 0]);
}

#[test]
fn fadt_pm_timer_block() {
    let mut fadt = AcpiFadt::default();
    assert!(fadt.x_pm_timer_blk().is_none());
    fadt.inner.x_pm_tmr_blk = GenericAddressStructure { access_size: 3, ..Default::default() };
    assert_eq!(fadt.x_pm_timer_blk(), Some(GenericAddressStructure { access_size: 3, ..Default::default() }));
    let rsdp = AcpiRsdp { xsdt_address: 0x55, ..Default::default() };
    assert_eq!(rsdp.xsdt_address(), 0x55);
}

#[test]
fn name_string_sizes() {
    assert_eq!(get_name_string_size(b"ABCD"), Ok(4));
    assert_eq!(get_name_string_size(b"\\ABCD"), Ok(5));
    assert_eq!(get_name_string_size(b"^^ABCD"), Ok(6));
    assert_eq!(get_name_string_size(&[0x00]), Ok(1));
    assert_eq!(get_name_string_size(&[0x2E, b'A', b'B', b'C', b'D', b'E', b'F', b'G', b'H']), Ok(9));
    assert_eq!(get_name_string_size(&[b'\\', 0x2F, 3]), Ok(1 + 2 + 12));
}

#[test]
fn node_sizes() {
    // ZeroOp: no operand.
    assert_eq!(get_node_size(&[0x00]), Ok(1));
    // ByteConst, WordConst, DWordConst, QWordConst.
    assert_eq!(get_node_size(&[0x0A, 7]), Ok(2));
    assert_eq!(get_node_size(&[0x0B, 1, 2]), Ok(3));
    assert_eq!(get_node_size(&[0x0C, 0, 0, 0, 0]), Ok(5));
    assert_eq!(get_node_size(&[0x0E, 0, 0, 0, 0, 0, 0, 0, 0]), Ok(9));
    // StringOp: up to and including the null byte.
    assert_eq!(get_node_size(&[0x0D, b'h', b'i', 0, 0xFF]), Ok(4));
    assert_eq!(get_node_size(&[0x0D, b'h', b'i']), Err(AmlError::OutOfBounds));
    // NameOp: a NameString then a data object.
    assert_eq!(get_node_size(&[0x08, b'A', b'B', b'C', b'D', 0x0A, 5]), Ok(7));
    // ReturnOp with a data object past the end.
    assert_eq!(get_node_size(&[0xA4, 0x01]), Ok(2));
    // Unknown opcodes.
    assert_eq!(get_node_size(&[0x77]), Err(AmlError::InvalidOpcode));
    assert_eq!(get_node_size(&[0x5B, 0x99]), Err(AmlError::InvalidOpcode));
}

#[test]
fn package_length_sizes() {
    // ScopeOp with a one-byte PkgLength of 5, covering the PkgLength byte and "ABCD".
    assert_eq!(get_node_size(&[0x10, 0x05, 0x41, 0x42, 0x43, 0x44]), Ok(6));
    // Lead byte 0x45: one follow byte; bits 0-3 of the lead are the low bits.
    assert_eq!(get_node_size(&[0x10, 0x45, 0x02]), Ok(1 + (5 | (0x02 << 4))));
    // Lead byte 0x83: two follow bytes.
    assert_eq!(get_node_size(&[0x10, 0x83, 0x02, 0x01]), Ok(1 + (3 | (0x02 << 4) | (0x01 << 12))));
    // Lead byte 0xC1: three follow bytes, one missing.
    assert_eq!(get_node_size(&[0x10, 0xC1, 0x02, 0x01]), Err(AmlError::OutOfBounds));
    // DeviceOp (extended), lead byte 0x45 without the follow byte it announces.
    assert_eq!(get_node_size(&[0x5B, 0x82, 0x45]), Err(AmlError::OutOfBounds));
}

#[test]
fn opcode_table_lookup() {
    let name = opcode_info(0x08).unwrap();
    assert!(!name.has_pkg_length);
    assert_eq!(name.operands, vec![OperandType::NameString, OperandType::DataRefObject]);
    assert!(opcode_info(0x5B82).unwrap().has_pkg_length);
    assert!(opcode_info(0x02).is_none());
}

#[test]
fn parser_open_close() {
    let mut parser = StandardAmlParser::new();
    let table = [0x0A, 7, 0xEE];
    let h = parser.open_sdt(TableKey(4), &table).unwrap();
    assert_eq!(h, AmlSdtHandleInternal::new(TableKey(4), 0, 2));
    assert_eq!(parser.open_handles.len(), 1);
    let options = parser.iter_options(h, &table).unwrap();
    assert_eq!(options.len(), 2);
    assert!(options.iter().all(|o| matches!(o, AmlData::Empty)));
    assert_eq!(parser.get_sibling(h, &table), Ok(AmlSdtHandleInternal::new(TableKey(4), 2, 1)));
    assert_eq!(parser.get_sibling(AmlSdtHandleInternal::new(TableKey(4), 2, 2), &table), Err(AmlError::OutOfBounds));
    assert!(matches!(
        parser.iter_options(AmlSdtHandleInternal::new(TableKey(4), 2, 2), &table),
        Err(AmlError::InvalidAcpiTable)
    ));
    assert_eq!(parser.close_sdt(h), Ok(h));
    assert!(parser.open_handles.is_empty());
    assert_eq!(parser.close_sdt(h), Err(AmlError::InvalidHandle));
    assert_eq!(parser.open_sdt(TableKey(1), &[0x77]), Err(AmlError::InvalidOpcode));
    assert!(parser.open_handles.is_empty());
}
