use std::cell::Cell;

use patina_components::efi_status::{EFI_BUFFER_TOO_SMALL as BUFFER_TOO_SMALL, EFI_DEVICE_ERROR, EFI_SUCCESS};
use patina_components::hid::{
    descriptor_within_limits, get_report_descriptor, output_report_request, parse_report_descriptor, INITIAL_REPORT_DESCRIPTOR_SIZE, report_descriptor_step, set_report_result, ReportDescriptorStep,
};

use patina_components::adv_logger::{adv_logger_entry_step, AdvLoggerError, AdvLoggerStep, AdvancedLoggerProtocol};
use patina_components::boot::{BootOptions, DevicePathBuf};
use patina_components::default_font::DefaultFontProvider;
use patina_components::esrt::component::Esrt;
use patina_components::esrt::config::EsrtConfig;
use patina_components::esrt::repository::EsrtRepository;
use patina_components::graphics_console::GraphicsConsoleProvider;
use patina_components::hid::HidReportType;
use patina_components::smbios::smbios::{
    signature_32, BaseBoardType, ExtendedBiosRomSize, MemoryErrorType, ProcessorFamilyData,
};
use patina_components::smbios::smbios_types::{BiosCharacteristics, CacheConfiguration, ContainedElements};
use patina_components::status_code::error::{EFI_INVALID_PARAMETER};
use patina_components::variable::component::{VariableServiceInitManager, VariableStorageInitManager};
use patina_components::variable::error::{VariableError, EFI_BUFFER_TOO_SMALL};
use patina_components::variable::variable::{get_variable, get_variable_step, initial_buffer_size, GetVariableStatus, GetVariableStep};

#[test]
fn test_esrt_component_compiles() {
    let _component = Esrt;
}

fn create_test_device_path() -> DevicePathBuf {
    DevicePathBuf(vec![0x7F, 0xFF, 0x04, 0x00])
}

#[test]
fn test_default_boot_options() {
    let options = BootOptions::<fn()>::default();
    assert!(options.primary().is_none());
    assert!(options.secondary().is_none());
    assert!(options.hotkey().is_none());
    assert_eq!(options.devices().len(), 0);
}

#[test]
fn test_new_with_primary() {
    let options = BootOptions::<fn()>::new(create_test_device_path());
    assert!(options.primary().is_some());
    assert!(options.secondary().is_none());
    assert_eq!(options.devices().len(), 1);
}

#[test]
fn test_with_secondary() {
    let options = BootOptions::<fn()>::new(create_test_device_path()).with_secondary(create_test_device_path());
    assert!(options.primary().is_some());
    assert!(options.secondary().is_some());
    assert_eq!(options.devices().len(), 2);
}

#[test]
fn test_with_hotkey() {
    let options = BootOptions::<fn()>::new(create_test_device_path()).with_hotkey(0x86);
    assert_eq!(options.hotkey(), Some(0x86));
}

#[test]
fn test_failure_handler_called() {
    let called = Cell::new(false);
    let options = BootOptions::<fn()>::new(create_test_device_path()).with_failure_handler(|| called.set(true));
    assert!(!called.get());
    options.handle_failure();
    assert!(called.get());
}

#[test]
fn test_failure_handler_not_configured() {
    let options = BootOptions::<fn()>::default();
    options.handle_failure();
}

#[test]
fn test_devices_iterator_order() {
    let options = BootOptions::<fn()>::new(create_test_device_path()).with_secondary(create_test_device_path());
    let devices = options.devices();
    assert_eq!(devices.len(), 2);
    assert!(std::ptr::eq(devices[0], options.primary().unwrap()));
    assert!(std::ptr::eq(devices[1], options.secondary().unwrap()));
}

#[test]
fn small_components() {
    assert_eq!(EsrtConfig::default().max_fmp_entries, 32);
    let _ = EsrtRepository::new_fmp(4);
    let _ = EsrtRepository::new_non_fmp(4);
    let _ = DefaultFontProvider::new();
    let _ = GraphicsConsoleProvider::new();
    let _ = VariableStorageInitManager::new();
    let _ = VariableServiceInitManager::new();
    let p = AdvancedLoggerProtocol::new(0x1234, 0x5678);
    assert_eq!((p.signature, p.version, p.write_log, p.log_info), (0x5047_4F4C, 2, 0x1234, 0x5678));
    assert_eq!(&p.signature.to_le_bytes(), b"LOGP");
}

#[test]
fn hid_report_type_numbers() {
    assert_eq!(HidReportType::InputReport.value(), 1);
    assert_eq!(HidReportType::OutputReport.value(), 2);
    assert_eq!(HidReportType::Feature.value(), 3);
    assert_eq!(HidReportType::from_value(2), Some(HidReportType::OutputReport));
    assert_eq!(HidReportType::from_value(4), None);
}

#[test]
fn variable_read_retry_policy() {
    assert_eq!(initial_buffer_size(Some(16)), 16);
    assert_eq!(initial_buffer_size(None), 0);
    let ok = GetVariableStatus::Success { data_size: 4, attributes: 7 };
    assert_eq!(get_variable_step(true, ok), GetVariableStep::Done { attributes: 7 });
    let small = GetVariableStatus::BufferTooSmall { data_size: 32, attributes: 0 };
    assert_eq!(get_variable_step(true, small), GetVariableStep::Retry { data_size: 32 });
    assert_eq!(get_variable_step(false, small), GetVariableStep::Fail(VariableError::BufferTooSmall));
    assert_eq!(
        get_variable_step(true, GetVariableStatus::Error(EFI_INVALID_PARAMETER)),
        GetVariableStep::Fail(VariableError::InvalidUtf16Name)
    );
    assert_eq!(VariableError::from_status(EFI_BUFFER_TOO_SMALL), VariableError::BufferTooSmall);
}

#[test]
fn smbios_catalog_values() {
    assert_eq!(signature_32(b'S', b'B', b'i', b's'), u32::from_le_bytes(*b"SBis"));
    let ext = ExtendedBiosRomSize { raw: 0b10_00000000000101 };
    assert_eq!(ext.size(), 5);
    assert_eq!(ext.unit(), 2);
    assert_eq!(BaseBoardType::MotherBoard.value(), 0x0A);
    assert_eq!(MemoryErrorType::NoError.value(), 0x03);
    assert_eq!(ProcessorFamilyData::ProcessorFamilyOther.value(), 0x01);
}

#[test]
fn smbios_bitfield_accessors() {
    let c = BiosCharacteristics::new().with_pci_supported(true).with_reserved_bios_vendor(0xBEEF);
    assert!(c.pci_supported());
    assert!(!c.isa_supported());
    assert_eq!(c.reserved_bios_vendor(), 0xBEEF);
    assert_eq!(c.into_bits(), (1u64 << 7) | (0xBEEFu64 << 32));
    let cfg = CacheConfiguration::from_bits(0b0000_0011_1000_1010);
    assert_eq!(cfg.cache_level(), 2);
    assert!(cfg.cache_socketed());
    assert_eq!(cfg.location(), 0);
    assert!(cfg.enabled_disabled());
    assert_eq!(cfg.operational_mode(), 3);
    let e = ContainedElements::default();
    assert_eq!(e.contained_element_type.into_bits(), 0);
}


const MOUSE_DESCRIPTOR: [u8; 26] = [
    0x05, 0x01, // Usage Page (Generic Desktop)
    0x09, 0x02, // Usage (Mouse)
    0xA1, 0x01, // Collection (Application)
    0x05, 0x09, //   Usage Page (Button)
    0x19, 0x01, //   Usage Minimum (1)
    0x29, 0x03, //   Usage Maximum (3)
    0x15, 0x00, //   Logical Minimum (0)
    0x25, 0x01, //   Logical Maximum (1)
    0x95, 0x03, //   Report Count (3)
    0x75, 0x01, //   Report Size (1)
    0x81, 0x02, //   Input (Data, Variable, Absolute)
    0x95, 0x01, //   Report Count (1)
    0xC0, 0x00, // End Collection, padding byte
];

#[test]
fn report_descriptor_is_parsed_by_hidparser() {
    // Only the first 25 bytes are the descriptor.
    let parsed = parse_report_descriptor(&MOUSE_DESCRIPTOR, 25).expect("descriptor parses");
    let direct = hidparser::parse_report_descriptor(&MOUSE_DESCRIPTOR[..25]).unwrap();
    assert_eq!(parsed.input_reports.len(), direct.input_reports.len());
    assert_eq!(parsed.input_reports.len(), 1);
    // A global item with an unknown tag is rejected.
    assert_eq!(parse_report_descriptor(&[0xF4, 0x00], 2).err(), Some(EFI_DEVICE_ERROR));
    assert_eq!(report_descriptor_step(true, EFI_SUCCESS, 27), ReportDescriptorStep::Parse { size: 27 });
    assert_eq!(report_descriptor_step(true, BUFFER_TOO_SMALL, 9000), ReportDescriptorStep::Retry { size: 9000 });
    assert_eq!(
        report_descriptor_step(false, BUFFER_TOO_SMALL, 9000),
        ReportDescriptorStep::Fail(BUFFER_TOO_SMALL)
    );
}

#[test]
fn report_descriptor_read_and_retry() {
    // Read at once.
    let reads = Cell::new(0);
    let once = |n: usize| {
        reads.set(reads.get() + 1);
        assert_eq!(n, INITIAL_REPORT_DESCRIPTOR_SIZE);
        let mut b = vec![0u8; n];
        b[..26].copy_from_slice(&MOUSE_DESCRIPTOR);
        (EFI_SUCCESS, 25, b)
    };
    let d = get_report_descriptor(once).expect("descriptor parses");
    assert_eq!(d.input_reports.len(), 1);
    assert_eq!(reads.get(), 1);
    // The first read asks for a larger buffer of the size it gives.
    let sizes = std::cell::RefCell::new(Vec::new());
    let twice = |n: usize| {
        sizes.borrow_mut().push(n);
        if n == INITIAL_REPORT_DESCRIPTOR_SIZE {
            (BUFFER_TOO_SMALL, 5000, vec![0u8; n])
        } else {
            let mut b = vec![0u8; n];
            b[..26].copy_from_slice(&MOUSE_DESCRIPTOR);
            (EFI_SUCCESS, 25, b)
        }
    };
    assert!(get_report_descriptor(twice).is_ok());
    assert_eq!(*sizes.borrow(), vec![INITIAL_REPORT_DESCRIPTOR_SIZE, 5000]);
    // A second "too small" answer and other errors are returned as they are.
    let always_small = |n: usize| (BUFFER_TOO_SMALL, n + 1, vec![0u8; n]);
    assert_eq!(get_report_descriptor(always_small).err(), Some(BUFFER_TOO_SMALL));
    let broken = |n: usize| (EFI_DEVICE_ERROR - 7 + 3, 0, vec![0u8; n]);
    assert_eq!(get_report_descriptor(broken).err(), Some(EFI_DEVICE_ERROR - 4));
    // What is read but does not parse is a device error.
    let garbage = |n: usize| (EFI_SUCCESS, 2, {
        let mut b = vec![0u8; n];
        b[0] = 0xF4;
        b
    });
    assert_eq!(get_report_descriptor(garbage).err(), Some(EFI_DEVICE_ERROR));
}

#[test]
fn output_reports() {
    assert_eq!(output_report_request(None, &[1, 2]), (0, HidReportType::OutputReport, 2));
    assert_eq!(output_report_request(Some(5), &[]), (5, HidReportType::OutputReport, 0));
    assert_eq!(set_report_result(0), Ok(()));
    assert_eq!(set_report_result(7), Err(7));
}

#[test]
fn get_variable_reads_with_at_most_one_retry() {
    // The suggested size is right.
    let sizes = std::cell::RefCell::new(Vec::new());
    let exact = |n: usize| {
        sizes.borrow_mut().push(n);
        (GetVariableStatus::Success { data_size: n, attributes: 7 }, vec![0xAB; n])
    };
    assert_eq!(get_variable(Some(4), exact).ok(), Some((vec![0xAB; 4], 7)));
    assert_eq!(*sizes.borrow(), vec![4]);
    // No size suggested: the first read only learns the size.
    sizes.borrow_mut().clear();
    let sized = |n: usize| {
        sizes.borrow_mut().push(n);
        if n < 6 {
            (GetVariableStatus::BufferTooSmall { data_size: 6, attributes: 0 }, vec![0; n])
        } else {
            (GetVariableStatus::Success { data_size: 6, attributes: 3 }, vec![1, 2, 3, 4, 5, 6])
        }
    };
    assert_eq!(get_variable(None, sized).ok(), Some((vec![1, 2, 3, 4, 5, 6], 3)));
    assert_eq!(*sizes.borrow(), vec![0, 6]);
    // Too small twice.
    let growing = |n: usize| (GetVariableStatus::BufferTooSmall { data_size: n + 1, attributes: 0 }, vec![0; n]);
    assert_eq!(get_variable(Some(2), growing).err(), Some(VariableError::BufferTooSmall));
    // An invalid name.
    let invalid = |_n: usize| (GetVariableStatus::Error(EFI_INVALID_PARAMETER), Vec::new());
    assert_eq!(get_variable(None, invalid).err(), Some(VariableError::InvalidUtf16Name));
}

#[test]
fn descriptors_beyond_the_limits_are_refused() {
    // Report Size and Report Count of 0xFFFFFFFF, then an Input item without usage.
    let huge = [0x77, 0xFF, 0xFF, 0xFF, 0xFF, 0x97, 0xFF, 0xFF, 0xFF, 0xFF, 0x81, 0x00];
    assert!(!descriptor_within_limits(&huge));
    assert_eq!(parse_report_descriptor(&huge, huge.len()).err(), Some(EFI_DEVICE_ERROR));
    assert!(descriptor_within_limits(&MOUSE_DESCRIPTOR[..25]));
    // A 0x10000-bit Input field, then 0xFFFF one-bit Input fields: 0x1FFFF bits.
    let large = [
        0x77, 0x00, 0x00, 0x01, 0x00, 0x95, 0x01, 0x81, 0x02, 0x75, 0x01, 0x96, 0xFF, 0xFF, 0x81, 0x02,
    ];
    assert!(descriptor_within_limits(&large));
    let parsed = parse_report_descriptor(&large, large.len()).expect("within the limits and parses");
    assert_eq!(parsed.input_reports[0].size_in_bits, 0x1FFFF);
    // Two reports of 0xFFFF_0000 bits each are within the limits ...
    let two_ids = [
        0x85, 0x01, 0x77, 0x00, 0x00, 0xFF, 0xFF, 0x95, 0x01, 0x81, 0x02, 0x85, 0x02, 0x81, 0x02,
    ];
    assert!(descriptor_within_limits(&two_ids));
    // ... but the same bits in one report are not.
    let one_id = [0x85, 0x01, 0x77, 0x00, 0x00, 0xFF, 0xFF, 0x95, 0x01, 0x81, 0x02, 0x81, 0x02];
    assert!(!descriptor_within_limits(&one_id));
    // An input and an output report with the same id are summed apart.
    let in_out = [0x77, 0x00, 0x00, 0xFF, 0xFF, 0x95, 0x01, 0x81, 0x02, 0x91, 0x02];
    assert!(descriptor_within_limits(&in_out));
}

#[test]
fn adv_logger_entry_steps() {
    assert_eq!(adv_logger_entry_step(None, None, false), AdvLoggerStep::Fail(AdvLoggerError::NotStarted));
    assert_eq!(adv_logger_entry_step(Some(0x1000), None, false), AdvLoggerStep::Install { log_info: 0x1000 });
    assert_eq!(adv_logger_entry_step(Some(0x1000), Some(Err(9)), false), AdvLoggerStep::Fail(AdvLoggerError::ProtocolError));
    assert_eq!(adv_logger_entry_step(Some(0x1000), Some(Ok(())), false), AdvLoggerStep::RegisterEvents);
    // Event failures are only logged: the entry point succeeds.
    assert_eq!(adv_logger_entry_step(Some(0x1000), Some(Ok(())), true), AdvLoggerStep::Succeed);
}
