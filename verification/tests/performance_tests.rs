use patina_components::performance::component::{
    hob_data_or_default, performance_entry_step, Performance, PerfEntryAction, PerfEntryConfig, PerfEntryError,
    PerfEntryStage, PerformanceTimer, PmTimer,
};
use patina_components::performance::config_provider::{
    convert_edk2_mask_to_patina, PerfConfig, PerformanceConfigHob, PerformanceConfigurationProvider,
};
use patina_components::performance::error::PerformanceError;
use patina_components::performance::firmware_performance::{
    AcpiFpdtPerformanceRecordHeader, AcpiFpdtPerformanceTableHeader,
};
use patina_components::performance::hob_records::{merge_hob_performance_buffer, HobPerformanceData};
use patina_components::performance::record::{GenericPerformanceRecord, Iter, PerformanceRecordBuffer};
use patina_components::acpi::acpi_table::{AcpiFadt, AcpiTableHeader, GenericAddressStructure};
use patina_components::acpi::error::AcpiError;
use patina_components::acpi::signature::FACP;
use scroll::Pwrite;

fn record(record_type: u16, length: u8, revision: u8, data: &[u8]) -> GenericPerformanceRecord {
    GenericPerformanceRecord { record_type, length, revision, data: data.to_vec() }
}

#[test]
fn test_hob_performance_record_buffer_parse_from_hob() {
    let mut buffer = [0_u8; 32];
    let mut offset = 0;

    let mut perf_record_buffer = PerformanceRecordBuffer::new();
    perf_record_buffer.push_record(record(1, 5, 1, &[1_u8, 2, 3, 4, 5])).unwrap();

    let size_of_all_entries = perf_record_buffer.size() as u32;
    let load_image_count = 12_u32;
    let hob_is_full = 0_u32;

    buffer.gwrite(size_of_all_entries, &mut offset).unwrap();
    buffer.gwrite(load_image_count, &mut offset).unwrap();
    buffer.gwrite(hob_is_full, &mut offset).unwrap();
    buffer.gwrite(perf_record_buffer.buffer(), &mut offset).unwrap();

    let hob_perf_record_buffer = HobPerformanceData::parse(&buffer);

    assert_eq!(load_image_count, hob_perf_record_buffer.load_image_count);
    assert_eq!(perf_record_buffer.buffer(), hob_perf_record_buffer.records_data_buffer.as_slice());
}

#[test]
fn test_hob_performance_record_buffer_parse_from_hob_invalid() {
    let buffer = [0_u8; 1];
    let hob_perf_record_buffer = HobPerformanceData::parse(&buffer);
    assert_eq!(0, hob_perf_record_buffer.load_image_count);
    assert!(hob_perf_record_buffer.records_data_buffer.is_empty());
}

#[test]
fn test_merge_hob_performance_buffer() {
    let mut perf_record_buffer_1 = PerformanceRecordBuffer::new();
    perf_record_buffer_1.push_record(record(1, 5, 1, &[1_u8, 2, 3, 4, 5])).unwrap();

    let mut perf_record_buffer_2 = PerformanceRecordBuffer::new();
    perf_record_buffer_2.push_record(record(1, 9, 1, &[10_u8, 20, 30, 40, 50])).unwrap();

    let buffer = [
        HobPerformanceData { load_image_count: 1, records_data_buffer: perf_record_buffer_1.buffer().to_vec() },
        HobPerformanceData { load_image_count: 1, records_data_buffer: perf_record_buffer_2.buffer().to_vec() },
    ];

    let (loaded_image_count, perf_record_buffer) = merge_hob_performance_buffer(&buffer).unwrap();

    let mut expected_perf_record_buffer = PerformanceRecordBuffer::new();
    expected_perf_record_buffer.push_record(record(1, 9, 1, &[1_u8, 2, 3, 4, 5])).unwrap();
    expected_perf_record_buffer.push_record(record(1, 9, 1, &[10_u8, 20, 30, 40, 50])).unwrap();

    assert_eq!(2, loaded_image_count);
    assert_eq!(expected_perf_record_buffer.buffer(), perf_record_buffer.buffer());
}

#[test]
fn record_layout_and_length_field() {
    let mut b = PerformanceRecordBuffer::new();
    assert_eq!(b.push_record(record(0x1234, 0, 2, &[9, 8])), Ok(0));
    assert_eq!(b.push_record(record(1, 0, 1, &[])), Ok(6));
    assert_eq!(b.buffer(), &[0x34, 0x12, 6, 2, 9, 8, 1, 0, 4, 1]);
    assert_eq!(b.size(), 10);
    assert_eq!(b.push_record(record(1, 0, 1, &[0u8; 252])), Err(PerformanceError::RecordTooLarge));
    assert_eq!(b.size(), 10);
}

#[test]
fn iterator_reads_back_written_records() {
    let mut b = PerformanceRecordBuffer::new();
    b.push_record(record(7, 0, 3, &[1, 2, 3])).unwrap();
    b.push_record(record(8, 0, 4, &[])).unwrap();
    let mut it = b.iter();
    let r1 = it.next().unwrap();
    assert_eq!((r1.record_type, r1.length, r1.revision, r1.data), (7, 7, 3, vec![1, 2, 3]));
    let r2 = it.next().unwrap();
    assert_eq!((r2.record_type, r2.length, r2.revision, r2.data.len()), (8, 4, 4, 0));
    assert!(it.next().is_none());
}

#[test]
fn iterator_stops_at_malformed_record() {
    // Second record claims 50 bytes but only 5 remain.
    let bytes = [1u8, 0, 4, 1, 2, 0, 50, 1, 0];
    let mut it = Iter::new(&bytes);
    assert!(it.next().is_some());
    assert!(it.next().is_none());
    let mut empty = Iter::new(&[1u8, 0, 3, 1]);
    assert!(empty.next().is_none());
}

#[test]
fn merge_keeps_only_readable_records() {
    let hobs = [HobPerformanceData { load_image_count: 3, records_data_buffer: vec![5, 0, 4, 1, 0xFF] }];
    let (count, buf) = merge_hob_performance_buffer(&hobs).unwrap();
    assert_eq!(count, 3);
    assert_eq!(buf.buffer(), &[5, 0, 4, 1]);
}

#[test]
fn parse_reads_little_endian_header() {
    let bytes = [2u8, 0, 0, 0, 0x34, 0x12, 0, 0, 1, 0, 0, 0, 0xAA, 0xBB, 0xCC];
    let hob = HobPerformanceData::parse(&bytes);
    assert_eq!(hob.load_image_count, 0x1234);
    assert_eq!(hob.records_data_buffer, vec![0xAA, 0xBB]);
}

#[test]
fn edk2_mask_conversion_examples() {
    assert_eq!(convert_edk2_mask_to_patina(0x01), 0x1F);
    assert_eq!(convert_edk2_mask_to_patina(0x03), 0x1E);
    assert_eq!(convert_edk2_mask_to_patina(0x7F), 0x00);
    assert_eq!(convert_edk2_mask_to_patina(0x04), 0x1D);
    assert_eq!(convert_edk2_mask_to_patina(0xFFFF_FF81), 0x1F);
}

#[test]
fn config_provider_applies_hob() {
    let mut config = PerfConfig { enable_component: false, enabled_measurements: 0 };
    PerformanceConfigurationProvider.entry_point(
        &PerformanceConfigHob { enable_component: 1, enabled_measurements: 0x03 },
        &mut config,
    );
    assert!(config.enable_component);
    assert_eq!(config.enabled_measurements, 0x1E);
    let mut disabled = PerfConfig { enable_component: true, enabled_measurements: 7 };
    PerformanceConfigurationProvider.entry_point(
        &PerformanceConfigHob { enable_component: 0, enabled_measurements: 0x01 },
        &mut disabled,
    );
    assert!(!disabled.enable_component);
    assert_eq!(disabled.enabled_measurements, 7);
}

#[test]
fn cpuid_frequency_choices() {
    let mut t = PerformanceTimer::new(0x1000);
    assert_eq!(t.perf_frequency(0, 2, 100, 24_000_000, 0), Some(1_200_000_000));
    // Cached: later calls keep it.
    assert_eq!(t.perf_frequency(0, 0, 0, 0, 0), Some(1_200_000_000));

    let mut vm = PerformanceTimer::new(0);
    assert_eq!(vm.perf_frequency(0x8000_0000, 2, 100, 24_000_000, 3000), Some(3_000_000_000));
    assert_eq!(vm.perf_frequency, 3_000_000_000);

    let mut none = PerformanceTimer::new(0);
    assert_eq!(none.perf_frequency(0x8000_0000, 0, 0, 0, 0), None);
    none.store_frequency(42);
    assert_eq!(none.perf_frequency(0, 0, 0, 0, 0), Some(42));
}

#[test]
fn tsc_calibration_arithmetic() {
    // 178977 PM ticks are 49_999_930 ns (rounded down).
    let f = PerformanceTimer::tsc_frequency_from_samples(10, 10 + 178_977, 1_000, 1_000 + 50_000_000);
    assert_eq!(f, 50_000_000u64 * 1_000_000_000 / 49_999_930);
    // Across a wrap of the PM timer.
    let g = PerformanceTimer::tsc_frequency_from_samples(u32::MAX - 9, 178_967, 0, 50_000_000);
    assert_eq!(g, f);
    assert!(PerformanceTimer::calibration_interval_elapsed(u32::MAX, 178_976));
    assert!(!PerformanceTimer::calibration_interval_elapsed(u32::MAX, 178_975));
}

#[test]
fn pm_timer_from_fadt() {
    let mut fadt = AcpiFadt::default();
    assert_eq!(PerformanceTimer::pm_timer_from_fadt(&fadt), None);
    fadt.inner.x_pm_tmr_blk = GenericAddressStructure { address_space_id: 1, address: 0x1_0608, ..Default::default() };
    assert_eq!(PerformanceTimer::pm_timer_from_fadt(&fadt), Some(PmTimer::IoPort { port: 0x0608 }));
    fadt.inner.x_pm_tmr_blk.address_space_id = 0;
    assert_eq!(PerformanceTimer::pm_timer_from_fadt(&fadt), Some(PmTimer::Mmio { base: 0x1_0608 }));
    fadt.inner.x_pm_tmr_blk.address_space_id = 2;
    assert_eq!(PerformanceTimer::pm_timer_from_fadt(&fadt), None);
    assert_eq!(PerformanceTimer::xsdt_entry_count(36 + 3 * 8), 3);
}

#[test]
fn counter_bounds_and_component() {
    assert_eq!(PerformanceTimer::cpu_count_start(), 0);
    assert_eq!(PerformanceTimer::cpu_count_end(), u64::MAX);
    assert!(Performance::new().perf_timer.is_none());
    assert_eq!(PerformanceTimer::DEFAULT_PM_PORT, 0x608);
}

#[test]
fn fpdt_headers() {
    let t = AcpiFpdtPerformanceTableHeader::new_boot_performance_table();
    assert_eq!((t.signature, t.length), (0x5450_4246, 56));
    let r = AcpiFpdtPerformanceRecordHeader::new_boot_performance_table();
    assert_eq!((r.record_type, r.length, r.revision), (0, 16, 1));
}

fn xsdt_with_entries(entries: &[u64]) -> Vec<u8> {
    let len = 36 + 8 * entries.len();
    let mut xsdt = vec![0u8; len];
    xsdt[4..8].copy_from_slice(&(len as u32).to_le_bytes());
    for (i, e) in entries.iter().enumerate() {
        xsdt[36 + 8 * i..44 + 8 * i].copy_from_slice(&e.to_le_bytes());
    }
    xsdt
}

#[test]
fn read_fadt_timer_info_searches_entries() {
    let xsdt = xsdt_with_entries(&[0x1000, 0x2000, 0x3000]);
    let header_at = |a: u64| AcpiTableHeader {
        signature: if a == 0x2000 || a == 0x3000 { FACP } else { 0x1234 },
        ..Default::default()
    };
    let fadt_at = |a: u64| {
        let mut f = AcpiFadt::default();
        f.inner.x_pm_tmr_blk = GenericAddressStructure { address_space_id: 1, address: a + 8, ..Default::default() };
        f
    };
    // The first FACP entry decides.
    assert_eq!(
        PerformanceTimer::read_fadt_timer_info(Ok(0x100), &xsdt, header_at, fadt_at),
        Some(PmTimer::IoPort { port: 0x2008 })
    );
    // No FACP entry.
    let none_at = |_a: u64| AcpiTableHeader { signature: 0x1234, ..Default::default() };
    assert_eq!(PerformanceTimer::read_fadt_timer_info(Ok(0x100), &xsdt, none_at, fadt_at), None);
    // An invalid RSDP.
    assert_eq!(
        PerformanceTimer::read_fadt_timer_info(Err(AcpiError::InvalidSignature), &xsdt, header_at, fadt_at),
        None
    );
}

fn run_entry(cfg: PerfEntryConfig, fail_at: Option<PerfEntryStage>) -> (Vec<PerfEntryAction>, PerfEntryAction) {
    let mut stage = PerfEntryStage::Begin;
    let mut last: Result<(), usize> = Ok(());
    let mut done = Vec::new();
    loop {
        let action = performance_entry_step(cfg, stage, last);
        stage = match action {
            PerfEntryAction::RegisterEndOfDxeEvent => PerfEntryStage::EndOfDxeEvent,
            PerfEntryAction::ApplyHobData => PerfEntryStage::HobData,
            PerfEntryAction::InstallProtocol => PerfEntryStage::Protocol,
            PerfEntryAction::RegisterReadyToBootEvent => PerfEntryStage::ReadyToBootEvent,
            PerfEntryAction::InstallConfigTable => PerfEntryStage::ConfigTable,
            PerfEntryAction::Succeed | PerfEntryAction::Fail(_) => return (done, action),
        };
        done.push(action);
        last = if Some(stage) == fail_at { Err(7) } else { Ok(()) };
    }
}

#[test]
fn performance_entry_sequence() {
    let full = PerfEntryConfig {
        enable_component: true,
        static_state_ready: true,
        mm_comm_region: Some(true),
        hob_data_present: true,
    };
    let (done, end) = run_entry(full, None);
    assert_eq!(
        done,
        vec![
            PerfEntryAction::RegisterEndOfDxeEvent,
            PerfEntryAction::ApplyHobData,
            PerfEntryAction::InstallProtocol,
            PerfEntryAction::RegisterReadyToBootEvent,
            PerfEntryAction::InstallConfigTable,
        ]
    );
    assert_eq!(end, PerfEntryAction::Succeed);
    // Without MM communication region HOBs the timer is never set up.
    let (done, end) = run_entry(PerfEntryConfig { mm_comm_region: None, hob_data_present: false, ..full }, None);
    assert_eq!(done, vec![PerfEntryAction::RegisterEndOfDxeEvent, PerfEntryAction::InstallProtocol]);
    assert_eq!(end, PerfEntryAction::Fail(PerfEntryError::NotReady));
    // Regions of which none is of the user type: nothing is done.
    let (done, end) = run_entry(PerfEntryConfig { mm_comm_region: Some(false), ..full }, None);
    assert!(done.is_empty());
    assert_eq!(end, PerfEntryAction::Succeed);
    assert_eq!(run_entry(PerfEntryConfig { enable_component: false, ..full }, None).1, PerfEntryAction::Succeed);
    assert_eq!(
        run_entry(PerfEntryConfig { static_state_ready: false, ..full }, None).1,
        PerfEntryAction::Fail(PerfEntryError::Aborted)
    );
    // A failed boot service ends the entry point with its status.
    let (done, end) = run_entry(full, Some(PerfEntryStage::Protocol));
    assert_eq!(done.len(), 3);
    assert_eq!(end, PerfEntryAction::Fail(PerfEntryError::Status(7)));
}

#[test]
fn hob_data_falls_back_to_defaults() {
    let (n, b) = hob_data_or_default(Err(PerformanceError::RecordTooLarge));
    assert_eq!(n, 0);
    assert_eq!(b.size(), 0);
    let mut buf = PerformanceRecordBuffer::new();
    buf.push_record(GenericPerformanceRecord { record_type: 1, length: 5, revision: 1, data: vec![9] }).unwrap();
    let (n, b) = hob_data_or_default(Ok((3, buf)));
    assert_eq!(n, 3);
    assert_eq!(b.size(), 5);
}
