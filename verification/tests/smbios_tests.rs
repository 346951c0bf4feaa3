use patina_components::smbios::component::SmbiosProvider;
use patina_components::smbios::config::SmbiosConfiguration;
use patina_components::smbios::error::SmbiosError;
use patina_components::smbios::service::{SmbiosTableHeader, SMBIOS_HANDLE_PI_RESERVED, SMBIOS_STRING_MAX_LENGTH};
use patina_components::smbios::smbios_derive;
use patina_components::smbios::smbios_derive::{SmbiosManager, SmbiosRecordBuilder};
use patina_components::smbios::smbios_record::{
    serialize_string_pool, SmbiosRecordStructure, Type0PlatformFirmwareInformation, Type127EndOfTable,
    Type1SystemInformation,
};

#[test]
fn test_smbios_provider_new() {
    let provider = SmbiosProvider::new();
    let _ = provider;
}

#[test]
fn test_smbios_configuration_default() {
    let config = SmbiosConfiguration::default();
    assert_eq!(config.major_version, 3);
    assert_eq!(config.minor_version, 9);
}

#[test]
fn test_smbios_configuration_custom() {
    let config = SmbiosConfiguration { major_version: 2, minor_version: 4 };
    assert_eq!(config.major_version, 2);
    assert_eq!(config.minor_version, 4);
}

#[test]
fn test_smbios_configuration_clone() {
    let config1 = SmbiosConfiguration { major_version: 3, minor_version: 0 };
    let config2 = config1.clone();
    assert_eq!(config1.major_version, config2.major_version);
    assert_eq!(config1.minor_version, config2.minor_version);
}

#[test]
fn test_component_creation() {
    let provider = SmbiosProvider::new();
    let _ = provider;
}

#[test]
fn test_default_configuration() {
    let config = SmbiosConfiguration::default();
    assert_eq!(config.major_version, 3);
    assert_eq!(config.minor_version, 9);
}

#[test]
fn test_custom_configuration() {
    let config = SmbiosConfiguration { major_version: 2, minor_version: 8 };
    assert_eq!(config.major_version, 2);
    assert_eq!(config.minor_version, 8);
}

#[test]
fn test_configuration_clone() {
    let config1 = SmbiosConfiguration { major_version: 3, minor_version: 5 };
    let config2 = config1.clone();
    assert_eq!(config1, config2);
}

#[test]
fn test_configuration_debug() {
    let config = SmbiosConfiguration { major_version: 3, minor_version: 9 };
    let debug_str = format!("{:?}", config);
    assert!(debug_str.contains("3"));
    assert!(debug_str.contains("9"));
}

#[test]
fn test_smbios_error_all_variants() {
    let errors = vec![
        SmbiosError::StringTooLong,
        SmbiosError::StringContainsNull,
        SmbiosError::EmptyStringInPool,
        SmbiosError::RecordTooSmall,
        SmbiosError::MalformedRecordHeader,
        SmbiosError::InvalidStringPoolTermination,
        SmbiosError::StringPoolTooSmall,
        SmbiosError::HandleExhausted,
        SmbiosError::HandleNotFound,
        SmbiosError::StringIndexOutOfRange,
        SmbiosError::AllocationFailed,
        SmbiosError::NoRecordsAvailable,
        SmbiosError::AlreadyInitialized,
        SmbiosError::NotInitialized,
        SmbiosError::UnsupportedVersion,
    ];
    for err in errors {
        let cloned = err.clone();
        assert_eq!(err, cloned);
    }
}

#[test]
fn test_smbios_error_clone_and_eq() {
    let err1 = SmbiosError::StringTooLong;
    let err2 = err1.clone();
    assert_eq!(err1, err2);
    let err3 = SmbiosError::AllocationFailed;
    assert_ne!(err1, err3);
}

#[test]
fn test_smbios_error_types() {
    let _e1 = SmbiosError::StringTooLong;
    let _e2 = SmbiosError::HandleExhausted;
    let _e3 = SmbiosError::AllocationFailed;
    let _e4 = SmbiosError::NotInitialized;
    let _e5 = SmbiosError::UnsupportedVersion;
    let _e6 = SmbiosError::StringIndexOutOfRange;
    let _e7 = SmbiosError::RecordTooSmall;
    let _e8 = SmbiosError::InvalidStringPoolTermination;
}

#[test]
fn test_smbios_table_header_new() {
    let header = SmbiosTableHeader::new(0, 24, 0x0001);
    assert_eq!(header.record_type, 0);
    assert_eq!(header.length, 24);
    let handle = header.handle;
    assert_eq!(handle, 0x0001);
}

#[test]
fn test_smbios_table_header_clone() {
    let header1 = SmbiosTableHeader::new(1, 32, 0x0002);
    let header2 = header1.clone();
    assert_eq!(header1, header2);
}

#[test]
fn test_smbios_table_header_debug() {
    let header = SmbiosTableHeader::new(127, 4, 0xFFFF);
    let debug_str = format!("{:?}", header);
    assert!(debug_str.contains("127"));
    assert!(debug_str.contains("4"));
}

#[test]
fn test_smbios_handle_pi_reserved() {
    assert_eq!(SMBIOS_HANDLE_PI_RESERVED, 0xFFFE);
}

#[test]
fn test_smbios_string_max_length() {
    assert_eq!(SMBIOS_STRING_MAX_LENGTH, 64);
}

fn type0_with_pool(string_pool: Vec<String>) -> Type0PlatformFirmwareInformation {
    Type0PlatformFirmwareInformation {
        header: SmbiosTableHeader { record_type: 0, length: 0, handle: 0 },
        vendor: 1,
        firmware_version: 2,
        bios_starting_address_segment: 0xE800,
        firmware_release_date: 3,
        firmware_rom_size: 0xFF,
        characteristics: 0x08,
        characteristics_ext1: 0x03,
        characteristics_ext2: 0x03,
        system_bios_major_release: 1,
        system_bios_minor_release: 0,
        embedded_controller_major_release: 0xFF,
        embedded_controller_minor_release: 0xFF,
        extended_bios_rom_size: 0,
        string_pool,
    }
}

fn type1_with_pool(string_pool: Vec<String>) -> Type1SystemInformation {
    Type1SystemInformation {
        header: SmbiosTableHeader { record_type: 1, length: 0, handle: 0 },
        manufacturer: 1,
        product_name: 2,
        version: 3,
        serial_number: 4,
        uuid: [0; 16],
        wake_up_type: 0x06,
        sku_number: 5,
        family: 6,
        string_pool,
    }
}

#[test]
fn test_type0_new() {
    let type0 = type0_with_pool(vec![String::from("Vendor"), String::from("Version"), String::from("Date")]);
    assert!(type0.validate().is_ok());
    assert_eq!(type0.string_pool().len(), 3);
    assert_eq!(Type0PlatformFirmwareInformation::RECORD_TYPE, 0);
}

#[test]
fn test_type0_validate_string_too_long() {
    let type0 = type0_with_pool(vec![String::from("x").repeat(SMBIOS_STRING_MAX_LENGTH + 1)]);
    assert_eq!(type0.validate(), Err(SmbiosError::StringTooLong));
}

#[test]
fn test_type1_new() {
    let type1 = type1_with_pool(vec![
        String::from("Manufacturer"),
        String::from("Product"),
        String::from("Version"),
        String::from("Serial"),
        String::from("SKU"),
        String::from("Family"),
    ]);
    assert!(type1.validate().is_ok());
    assert_eq!(type1.string_pool().len(), 6);
    assert_eq!(Type1SystemInformation::RECORD_TYPE, 1);
}

#[test]
fn test_type1_string_pool_mut() {
    let mut type1 = type1_with_pool(vec![String::from("Initial")]);
    let pool = type1.string_pool_mut();
    pool.push(String::from("Added"));
    assert_eq!(type1.string_pool().len(), 2);
    assert_eq!(type1.string_pool()[1], "Added");
}

#[test]
fn test_type127_end_of_table() {
    let type127 = Type127EndOfTable::new();
    assert_eq!(type127.header.record_type, 127);
    assert_eq!(type127.header.length, 4);
    let handle = type127.header.handle;
    assert_eq!(handle, SMBIOS_HANDLE_PI_RESERVED);
    assert_eq!(type127.string_pool.len(), 0);
    assert!(type127.validate().is_ok());
    assert_eq!(Type127EndOfTable::RECORD_TYPE, 127);
}

#[test]
fn test_type127_default() {
    let type127 = Type127EndOfTable::default();
    assert_eq!(type127.header.record_type, 127);
    assert_eq!(type127.string_pool.len(), 0);
}

#[test]
fn test_smbios_record_structure_validation() {
    let mut type1 = type1_with_pool(vec![String::from("Valid")]);
    assert!(type1.validate().is_ok());
    type1.string_pool.push("x".repeat(SMBIOS_STRING_MAX_LENGTH + 1));
    assert_eq!(type1.validate(), Err(SmbiosError::StringTooLong));
}

#[test]
fn test_smbios_record_builder_builds_bytes() {
    let record = SmbiosRecordBuilder::new(1)
        .add_field(1u8)
        .add_field(2u8)
        .add_string(String::from("ACME Corp"))
        .expect("add_string failed")
        .add_string(String::from("SuperServer 3000"))
        .expect("add_string failed")
        .build()
        .expect("build failed");
    assert!(record.len() > 4);
    assert_eq!(record[0], 1u8);
}

#[test]
fn test_add_type0_platform_firmware_information_to_manager() {
    let mut manager = SmbiosManager::new(3, 8);
    let type0 = Type0PlatformFirmwareInformation {
        header: SmbiosTableHeader::new(0, 0, SMBIOS_HANDLE_PI_RESERVED),
        vendor: 1,
        firmware_version: 2,
        bios_starting_address_segment: 0xE000,
        firmware_release_date: 3,
        firmware_rom_size: 0x0F,
        characteristics: 0x08,
        characteristics_ext1: 0x01,
        characteristics_ext2: 0x00,
        system_bios_major_release: 9,
        system_bios_minor_release: 9,
        embedded_controller_major_release: 0xFF,
        embedded_controller_minor_release: 0xFF,
        extended_bios_rom_size: 0x0000,
        string_pool: vec![String::from("TestVendor"), String::from("9.9.9"), String::from("09/24/2025")],
    };
    let record_bytes = type0.to_bytes();
    let header_size = 4;
    assert!(record_bytes.len() >= header_size + 2);
    let handle = manager.add(None, &record_bytes).expect("add failed");
    let mut search_handle = smbios_derive::SMBIOS_HANDLE_PI_RESERVED;
    let (found_header, _producer) = manager
        .get_next(&mut search_handle, Some(Type0PlatformFirmwareInformation::RECORD_TYPE))
        .expect("get_next failed");
    assert_eq!(found_header.record_type, Type0PlatformFirmwareInformation::RECORD_TYPE);
    assert_eq!(search_handle, handle);
}

// ---------------------------------------------------------------------------
// Exact images and manager behaviour
// ---------------------------------------------------------------------------

#[test]
fn builder_writes_exact_image() {
    let record = SmbiosRecordBuilder::new(1)
        .add_field(1u8)
        .add_field(2u8)
        .add_string(String::from("ACME Corp"))
        .unwrap()
        .add_string(String::from("SuperServer 3000"))
        .unwrap()
        .build()
        .unwrap();
    assert_eq!(record, b"\x01\x06\xfe\xff\x01\x02ACME Corp\x00SuperServer 3000\x00\x00".to_vec());
}

#[test]
fn builder_rejects_long_and_null_strings() {
    let long = SmbiosRecordBuilder::new(1).add_string("y".repeat(65));
    assert!(matches!(long, Err(smbios_derive::SmbiosError::StringTooLong)));
    let with_null = SmbiosRecordBuilder::new(1).add_string(String::from("a\0b"));
    assert!(matches!(with_null, Err(smbios_derive::SmbiosError::InvalidParameter)));
}

#[test]
fn string_pool_serialization() {
    assert_eq!(serialize_string_pool(&[]), vec![0, 0]);
    assert_eq!(serialize_string_pool(&[String::from("ab"), String::from("c")]), b"ab\0c\0\0".to_vec());
}

#[test]
fn type127_serializes_to_header_and_empty_pool() {
    let t = Type127EndOfTable::new();
    assert_eq!(t.to_bytes(), vec![127, 4, 0xFE, 0xFF, 0, 0]);
    assert_eq!(Type127EndOfTable::record_type(), 127);
}

#[test]
fn serialized_record_is_accepted_and_found() {
    let mut manager = SmbiosManager::new(3, 8);
    let t = type0_with_pool(vec![String::from("Vendor"), String::from("1.0"), String::from("Date")]);
    let bytes = t.to_bytes();
    assert_eq!(bytes[1], 26);
    let handle = manager.add_from_bytes(Some(7), &bytes).unwrap();
    let mut search = smbios_derive::SMBIOS_HANDLE_PI_RESERVED;
    let (hdr, producer) = manager.get_next(&mut search, Some(0)).unwrap();
    assert_eq!(hdr.handle, handle);
    assert_eq!(producer, Some(7));
    assert_eq!(manager.iter()[0].string_count, 3);
}

#[test]
fn add_from_bytes_errors() {
    let mut manager = SmbiosManager::new(3, 8);
    assert!(matches!(manager.add_from_bytes(None, &[1, 2, 3]), Err(smbios_derive::SmbiosError::BufferTooSmall)));
    // A pool without its double null.
    assert!(manager.add_from_bytes(None, &[1, 4, 0, 0, b'a', 0]).is_err());
    // A string of 65 bytes in the pool.
    let mut rec = vec![1u8, 4, 0, 0];
    rec.extend(std::iter::repeat(b'z').take(65));
    rec.extend([0u8, 0u8]);
    assert!(matches!(manager.add_from_bytes(None, &rec), Err(smbios_derive::SmbiosError::StringTooLong)));
    assert_eq!(manager.iter().len(), 0);
}

#[test]
fn remove_undoes_add_and_second_remove_fails() {
    let mut manager = SmbiosManager::new(3, 8);
    let h = manager.add_from_bytes(None, &[2, 4, 0, 0, 0, 0]).unwrap();
    assert_eq!(manager.iter().len(), 1);
    assert!(manager.remove(h).is_ok());
    assert_eq!(manager.iter().len(), 0);
    assert!(matches!(manager.remove(h), Err(smbios_derive::SmbiosError::HandleNotFound)));
}

#[test]
fn handles_are_distinct() {
    let mut manager = SmbiosManager::new(3, 8);
    let a = manager.add_from_bytes(None, &[2, 4, 0, 0, 0, 0]).unwrap();
    let b = manager.add_from_bytes(None, &[3, 4, 0, 0, 0, 0]).unwrap();
    assert_ne!(a, b);
    let mut search = smbios_derive::SMBIOS_HANDLE_PI_RESERVED;
    let (hdr, _) = manager.get_next(&mut search, Some(3)).unwrap();
    assert_eq!(hdr.handle, b);
}

#[test]
fn update_string_replaces_the_string() {
    let mut manager = SmbiosManager::new(3, 8);
    let h = manager.add_from_bytes(None, b"\x01\x04\x00\x00ab\x00cd\x00\x00").unwrap();
    manager.update_string(h, 2, "xyz").unwrap();
    let rec = &manager.iter()[0];
    assert_eq!(&rec.data[4..], b"ab\x00xyz\x00\x00");
    assert!(manager.update_string(h, 3, "q").is_err());
}

#[test]
fn version_is_kept() {
    let manager = SmbiosManager::new(3, 8);
    assert_eq!(manager.version(), (3, 8));
}

// ---------------------------------------------------------------------------
// The EFI SMBIOS protocol's decisions
// ---------------------------------------------------------------------------

use patina_components::efi_status::{
    EFI_BUFFER_TOO_SMALL, EFI_DEVICE_ERROR, EFI_INVALID_PARAMETER, EFI_NOT_FOUND, EFI_OUT_OF_RESOURCES, EFI_SUCCESS,
};
use patina_components::smbios::protocol::{
    add_record, add_result_status, get_next_record, record_size_for_add, remove_result_status, update_string_result_status,
};

#[test]
fn protocol_record_size() {
    let mut mem = vec![1u8, 6, 0, 0, 9, 9, b'a', 0, 0, 0xEE];
    assert_eq!(record_size_for_add(&mem), Ok(9));
    mem[1] = 3;
    assert_eq!(record_size_for_add(&mem), Err(EFI_INVALID_PARAMETER));
    // Empty pool right after the structured part.
    assert_eq!(record_size_for_add(&[127, 4, 0, 0, 0, 0]), Ok(6));
    // No double null within 4096 bytes.
    let mut long = vec![1u8, 4, 0, 0];
    long.extend(std::iter::repeat(b'x').take(4096));
    assert_eq!(record_size_for_add(&long), Err(EFI_INVALID_PARAMETER));
}

#[test]
fn protocol_status_mapping() {
    assert_eq!(add_result_status(Ok(3)), EFI_SUCCESS);
    assert_eq!(add_result_status(Err(SmbiosError::RecordTooSmall)), EFI_BUFFER_TOO_SMALL);
    assert_eq!(add_result_status(Err(SmbiosError::HandleExhausted)), EFI_OUT_OF_RESOURCES);
    assert_eq!(add_result_status(Err(SmbiosError::StringTooLong)), EFI_INVALID_PARAMETER);
    assert_eq!(add_result_status(Err(SmbiosError::NotInitialized)), EFI_DEVICE_ERROR);
    assert_eq!(update_string_result_status(Err(SmbiosError::HandleNotFound)), EFI_NOT_FOUND);
    assert_eq!(update_string_result_status(Err(SmbiosError::StringIndexOutOfRange)), EFI_INVALID_PARAMETER);
    assert_eq!(update_string_result_status(Err(SmbiosError::AllocationFailed)), EFI_DEVICE_ERROR);
    assert_eq!(remove_result_status(Ok(())), EFI_SUCCESS);
    assert_eq!(remove_result_status(Err(SmbiosError::HandleNotFound)), EFI_NOT_FOUND);
    assert_eq!(remove_result_status(Err(SmbiosError::RecordTooSmall)), EFI_DEVICE_ERROR);
}

#[test]
fn protocol_get_next_walks_the_table() {
    let headers = [
        SmbiosTableHeader::new(0, 4, 1),
        SmbiosTableHeader::new(1, 4, 2),
        SmbiosTableHeader::new(0, 4, 3),
    ];
    let mut h = SMBIOS_HANDLE_PI_RESERVED;
    assert_eq!(get_next_record(&headers, &mut h, None), Ok(0));
    assert_eq!(h, 1);
    assert_eq!(get_next_record(&headers, &mut h, None), Ok(1));
    assert_eq!(get_next_record(&headers, &mut h, None), Ok(2));
    assert_eq!(get_next_record(&headers, &mut h, None), Err(EFI_NOT_FOUND));
    assert_eq!(h, SMBIOS_HANDLE_PI_RESERVED);
    // With a type filter, the records of other types are skipped.
    let mut t = SMBIOS_HANDLE_PI_RESERVED;
    assert_eq!(get_next_record(&headers, &mut t, Some(0)), Ok(0));
    assert_eq!(get_next_record(&headers, &mut t, Some(0)), Ok(2));
    assert_eq!(t, 3);
    // An unknown handle finds nothing.
    let mut u = 77;
    assert_eq!(get_next_record(&headers, &mut u, None), Err(EFI_NOT_FOUND));
}

fn create_test_bios_info_record() -> Vec<u8> {
    let mut record = Vec::new();
    record.push(0); // Type: BIOS Information
    record.push(24); // Length
    record.extend_from_slice(&0x0001u16.to_le_bytes()); // Handle
    record.push(1); // Vendor string number
    record.push(2); // BIOS Version string number
    record.extend_from_slice(&0x0000u16.to_le_bytes()); // BIOS Starting Address Segment
    record.push(3); // BIOS Release Date string number
    record.push(0); // BIOS ROM Size
    record.extend_from_slice(&[0; 8]); // BIOS Characteristics
    record.extend_from_slice(&[0; 2]); // BIOS Characteristics Extension Bytes
    record.push(0); // System BIOS Major Release
    record.push(0); // System BIOS Minor Release
    record.push(0); // Embedded Controller Firmware Major Release
    record.push(0); // Embedded Controller Firmware Minor Release
    record.extend_from_slice(b"Test Vendor\0");
    record.extend_from_slice(b"Test Version\0");
    record.extend_from_slice(b"01/01/2023\0");
    record.push(0);
    record
}

#[test]
fn test_manager_add_record() {
    let mut manager = SmbiosManager::new(3, 6);
    let record_data = create_test_bios_info_record();

    let result = manager.add_from_bytes(None, &record_data);
    assert!(result.is_ok());

    let handle = result.unwrap();
    assert_ne!(handle, 0);
}

#[test]
fn test_manager_add_invalid_record() {
    let mut manager = SmbiosManager::new(3, 6);
    let invalid_record = std::vec![1, 2, 3]; // Too small

    let result = manager.add_from_bytes(None, &invalid_record);
    assert!(result.is_err());
    // This manager reports a record shorter than its header as too small a buffer.
    assert!(matches!(result.unwrap_err(), smbios_derive::SmbiosError::BufferTooSmall));
}

#[test]
fn test_manager_operations() {
    let mut manager = SmbiosManager::new(3, 6);
    let record_data = create_test_bios_info_record();

    let handle = manager.add_from_bytes(None, &record_data).unwrap();

    let result = manager.update_string(handle, 1, "Updated Vendor");
    assert!(result.is_ok());
    let data = &manager.iter()[0].data;
    assert_eq!(&data[..2], &record_data[..2]);
    assert_eq!(&data[4..24], &record_data[4..24]);
    assert_eq!(&data[24..], b"Updated Vendor\0Test Version\001/01/2023\0\0");

    let result = manager.remove(handle);
    assert!(result.is_ok());

    let result2 = manager.remove(handle);
    assert!(result2.is_err());
}

#[test]
fn removed_handles_are_not_assigned_again() {
    let mut m = SmbiosManager::new(3, 9);
    let r = [1u8, 4, 0, 0, 0, 0];
    let h1 = m.add_from_bytes(None, &r).unwrap();
    let h2 = m.add_from_bytes(None, &r).unwrap();
    let h3 = m.add_from_bytes(None, &r).unwrap();
    assert_eq!(m.remove(h2), Ok(()));
    let h = m.add_from_bytes(None, &r).unwrap();
    assert!(h != h1 && h != h2 && h != h3);
}

#[test]
fn update_string_keeps_the_other_strings() {
    let mut m = SmbiosManager::new(3, 9);
    let h = m.add_from_bytes(None, &[1, 4, 0, 0, 0x41, 0, 0x42, 0x43, 0, 0]).unwrap();
    assert_eq!(m.update_string(h, 2, "XYZ"), Ok(()));
    let [h0, h1] = h.to_le_bytes();
    assert_eq!(m.iter()[0].data, vec![1, 4, h0, h1, 0x41, 0, 0x58, 0x59, 0x5A, 0, 0]);
}

#[test]
fn protocol_add_hands_the_scanned_record_to_the_manager() {
    let mut m = SmbiosManager::new(3, 9);
    let mut memory = create_test_bios_info_record();
    memory.extend_from_slice(&[0xEE; 8]); // bytes past the record
    let mut handle: u16 = 0xFFFE;
    let status = add_record(&mut m, Some(7), &memory, &mut handle);
    assert_eq!(status, EFI_SUCCESS);
    assert_eq!(m.iter().len(), 1);
    assert_eq!(m.iter()[0].header.handle, handle);
    assert_eq!(m.iter()[0].data.len(), create_test_bios_info_record().len());
    assert_eq!(m.iter()[0].producer_handle, Some(7));
    // A header length below a header: nothing changes.
    let mut other: u16 = 5;
    assert_eq!(add_record(&mut m, None, &[0, 2, 0, 0, 0, 0], &mut other), EFI_INVALID_PARAMETER);
    assert_eq!(other, 5);
    assert_eq!(m.iter().len(), 1);
}
