//! The performance component and its timer.
//!
//! The timer frequency comes from CPUID leaf 0x15 (crystal clock times the
//! TSC ratio) outside a virtual machine, else from leaf 0x16 (in MHz), else
//! from calibrating the TSC against the ACPI PM timer that the FADT locates.

use crate::acpi::acpi::{StandardAcpiProvider, xsdt_entry_offset};
use crate::acpi::acpi_table::{AcpiFadt, AcpiTableHeader, gas_is_zero};
use crate::acpi::error::AcpiError;
use crate::acpi::signature::{ACPI_HEADER_LEN, DEFAULT_ACPI_TIMER_FREQUENCY, FACP};
use crate::le_bytes::{from_le32, from_le64, read_le32};
use crate::performance::error::PerformanceError;
use crate::performance::record::PerformanceRecordBuffer;
use vstd::prelude::*;

verus! {

/// How the ACPI PM timer is reached.
#[derive(Debug, Clone, Copy, PartialEq, Eq, Structural)]
pub enum PmTimer {
    /// Through an I/O port.
    IoPort { port: u16 },
    /// Through memory-mapped I/O.
    Mmio { base: u64 },
}

/// The performance counter: where the ACPI tables are, and the frequency
/// once it is known (zero before).
pub struct PerformanceTimer {
    /// Address of the RSDP.
    pub rsdp_address: usize,
    /// The frequency in Hz, zero while not known.
    pub perf_frequency: u64,
}

/// PM timer ticks that the calibration waits for: a twentieth of a second.
pub const CALIBRATION_TARGET_TICKS: u32 = 178_977;

/// The frequency that CPUID reports: from leaf 0x15 (`ecx * ebx / eax`)
/// when not in a virtual machine and all three are non-zero, else from
/// leaf 0x16 (`eax16` MHz) when non-zero, else none.
pub open spec fn cpuid_frequency(is_vm: bool, eax: u32, ebx: u32, ecx: u32, eax16: u32) -> Option<u64> {
    if !is_vm && ecx != 0 && eax != 0 && ebx != 0 {
        Some(((ecx * ebx) / (eax as int)) as u64)
    } else if eax16 != 0 {
        Some((eax16 * 1_000_000) as u64)
    } else {
        None
    }
}

impl PerformanceTimer {
    /// The PM timer port of Q35, the platform most likely to use the ACPI
    /// PM timer.
    pub const DEFAULT_PM_PORT: u16 = 0x608;

    /// A timer for the ACPI tables at `rsdp_address`, frequency not known.
    pub fn new(rsdp_address: usize) -> (r: Self)
        ensures
            r.rsdp_address == rsdp_address,
            r.perf_frequency == 0,
    {
        Self { rsdp_address, perf_frequency: 0 }
    }

    /// The PM timer that the FADT locates: memory-mapped for address space
    /// 0, an I/O port (the low 16 bits of the address) for address space 1,
    /// none for another address space or when the FADT has no PM timer.
    pub fn pm_timer_from_fadt(fadt: &AcpiFadt) -> (r: Option<PmTimer>)
        ensures
            r == fadt_pm_timer(*fadt),
    {
        match fadt.x_pm_timer_blk() {
            Some(tmr_info) => {
                if tmr_info.address_space_id == 0 {
                    Some(PmTimer::Mmio { base: tmr_info.address })
                } else if tmr_info.address_space_id == 1 {
                    let a = tmr_info.address;
                    assert(a & 0xFFFF == a % 0x1_0000) by (bit_vector);
                    Some(PmTimer::IoPort { port: (tmr_info.address & 0xFFFF) as u16 })
                } else {
                    None
                }
            },
            None => None,
        }
    }

    /// Finds the ACPI PM timer through the FADT. `xsdt_address` is the outcome
    /// of validating the RSDP (see `get_xsdt_address_from_rsdp`) and `xsdt`
    /// the memory of the XSDT it points to; `read_header` and `read_fadt`
    /// read the header and the FADT at an address. The entries are searched
    /// in order for the first table with the FACP signature, whose PM timer
    /// block decides; there is none when the RSDP is not valid or no entry
    /// is a FADT.
    pub fn read_fadt_timer_info<H: Fn(u64) -> AcpiTableHeader, F: Fn(u64) -> AcpiFadt>(
        xsdt_address: Result<u64, AcpiError>,
        xsdt: &[u8],
        read_header: H,
        read_fadt: F,
    ) -> (r: Option<PmTimer>)
        requires
            xsdt_address is Ok ==> xsdt@.len() >= 8 && ACPI_HEADER_LEN <= xsdt_length(xsdt@) <= xsdt@.len(),
            forall|a: u64| read_header.requires((a,)),
            forall|a: u64| read_fadt.requires((a,)),
        ensures
            xsdt_address is Err ==> r is None,
            xsdt_address is Ok ==> {
                ||| exists|i: int|
                    0 <= i < xsdt_entries(xsdt@) && (forall|j: int|
                        0 <= j < i ==> #[trigger] not_facp_at(read_header, xsdt_entry(xsdt@, j)))
                        && #[trigger] facp_timer_at(read_header, read_fadt, xsdt_entry(xsdt@, i), r)
                ||| r is None && forall|j: int|
                    0 <= j < xsdt_entries(xsdt@) ==> #[trigger] not_facp_at(read_header, xsdt_entry(xsdt@, j))
            },
    {
        if xsdt_address.is_err() {
            return None;
        }
        let length = read_le32(xsdt, 4);
        let entries = Self::xsdt_entry_count(length);
        let mut i: usize = 0;
        while i < entries
            invariant
                xsdt_address is Ok,
                xsdt@.len() >= 8,
                length as int == xsdt_length(xsdt@),
                ACPI_HEADER_LEN <= length <= xsdt@.len(),
                entries == xsdt_entries(xsdt@),
                i <= entries,
                forall|a: u64| read_header.requires((a,)),
                forall|a: u64| read_fadt.requires((a,)),
                forall|j: int| 0 <= j < i ==> #[trigger] not_facp_at(read_header, xsdt_entry(xsdt@, j)),
            decreases entries - i,
        {
            assert(xsdt_entry_offset(i) + 8 <= length) by (nonlinear_arith)
                requires
                    i < entries,
                    entries == (length - 36) / 8,
                    length >= 36,
            ;
            let entry_addr = match StandardAcpiProvider::get_xsdt_entry_from_hob(i, xsdt, length as usize) {
                Ok(a) => a,
                Err(_) => {
                    return None;
                },
            };
            assert(entry_addr == xsdt_entry(xsdt@, i as int));
            let tbl_header = read_header(entry_addr);
            if tbl_header.signature == FACP {
                let fadt = read_fadt(entry_addr);
                let timer = Self::pm_timer_from_fadt(&fadt);
                assert(facp_timer_at(read_header, read_fadt, xsdt_entry(xsdt@, i as int), timer));
                return timer;
            }
            assert(not_facp_at(read_header, xsdt_entry(xsdt@, i as int)));
            i += 1;
        }
        None
    }

    /// Number of entries of an XSDT `xsdt_length` bytes long.
    pub fn xsdt_entry_count(xsdt_length: u32) -> (r: usize)
        requires
            xsdt_length >= ACPI_HEADER_LEN,
        ensures
            r == (xsdt_length - ACPI_HEADER_LEN) / 8,
    {
        (xsdt_length as usize - ACPI_HEADER_LEN) / 8
    }

    /// Whether the PM timer has advanced by the calibration interval since
    /// `start_pm`, counting across a wrap of the counter.
    pub fn calibration_interval_elapsed(start_pm: u32, current_pm: u32) -> (r: bool)
        ensures
            r == ((if current_pm >= start_pm {
                current_pm - start_pm
            } else {
                current_pm + 0x1_0000_0000 - start_pm
            }) >= CALIBRATION_TARGET_TICKS),
    {
        current_pm.wrapping_sub(start_pm) >= CALIBRATION_TARGET_TICKS
    }

    /// The TSC frequency in Hz measured over an interval: the PM timer went
    /// from `start_pm` to `end_pm` (counting across a wrap) while the TSC
    /// went from `start_tsc` to `end_tsc`. The interval is first converted
    /// to whole nanoseconds.
    pub fn tsc_frequency_from_samples(start_pm: u32, end_pm: u32, start_tsc: u64, end_tsc: u64) -> (r: u64)
        requires
            start_tsc <= end_tsc,
            (end_tsc - start_tsc) * 1_000_000_000 <= u64::MAX,
            pm_elapsed_ns(start_pm, end_pm) > 0,
        ensures
            r == (end_tsc - start_tsc) * 1_000_000_000 / pm_elapsed_ns(start_pm, end_pm),
    {
        let delta_pm = end_pm.wrapping_sub(start_pm) as u64;
        assert(delta_pm * 1_000_000_000 <= u64::MAX) by (nonlinear_arith)
            requires
                delta_pm <= u32::MAX,
        ;
        let delta_time_ns = (delta_pm * 1_000_000_000) / DEFAULT_ACPI_TIMER_FREQUENCY;
        let delta_tsc = end_tsc - start_tsc;
        (delta_tsc * 1_000_000_000) / delta_time_ns
    }

    /// The frequency from CPUID: `leaf1_ecx` is ECX of leaf 0x1 (bit 31 set
    /// in a virtual machine), `eax`, `ebx`, `ecx` those of leaf 0x15 and
    /// `eax16` EAX of leaf 0x16. A frequency already known is kept; one
    /// found is cached. `None` means that the TSC must be calibrated.
    pub fn perf_frequency(&mut self, leaf1_ecx: u32, eax: u32, ebx: u32, ecx: u32, eax16: u32) -> (r: Option<
        u64,
    >)
        requires
            old(self).perf_frequency == 0 && !(!(leaf1_ecx >= 0x8000_0000) && ecx != 0 && eax != 0 && ebx != 0)
                && eax16 != 0 ==> eax16 * 1_000_000 <= u32::MAX,
        ensures
            final(self).rsdp_address == old(self).rsdp_address,
            old(self).perf_frequency != 0 ==> r == Some(old(self).perf_frequency) && final(self).perf_frequency
                == old(self).perf_frequency,
            old(self).perf_frequency == 0 ==> r == cpuid_frequency(leaf1_ecx >= 0x8000_0000, eax, ebx, ecx, eax16)
                && final(self).perf_frequency == (match r {
                Some(f) => f,
                None => 0,
            }),
    {
        let cached = self.perf_frequency;
        if cached != 0 {
            return Some(cached);
        }
        let is_vm = (leaf1_ecx & (1u32 << 31)) != 0;
        assert(((leaf1_ecx & (1u32 << 31)) != 0) == (leaf1_ecx >= 0x8000_0000)) by (bit_vector);
        if !is_vm && ecx != 0 && eax != 0 && ebx != 0 {
            let c = ecx as u64;
            let b = ebx as u64;
            assert(c * b <= u64::MAX) by (nonlinear_arith)
                requires
                    c <= u32::MAX,
                    b <= u32::MAX,
            ;
            let frequency = (c * b) / eax as u64;
            self.perf_frequency = frequency;
            return Some(frequency);
        }
        if eax16 != 0 {
            let frequency = (eax16 * 1_000_000) as u64;
            self.perf_frequency = frequency;
            return Some(frequency);
        }
        None
    }

    /// Caches a frequency found by calibration.
    pub fn store_frequency(&mut self, frequency: u64)
        ensures
            final(self).rsdp_address == old(self).rsdp_address,
            final(self).perf_frequency == frequency,
    {
        self.perf_frequency = frequency;
    }

    /// Value that the performance counter starts at.
    pub fn cpu_count_start() -> (r: u64)
        ensures
            r == 0,
    {
        0
    }

    /// Value that the performance counter ends at before it rolls over.
    pub fn cpu_count_end() -> (r: u64)
        ensures
            r == u64::MAX,
    {
        u64::MAX
    }
}

/// Nanoseconds that the PM timer measured from `start_pm` to `end_pm`,
/// counting across a wrap, rounded down.
pub open spec fn pm_elapsed_ns(start_pm: u32, end_pm: u32) -> int {
    let delta = if end_pm >= start_pm {
        end_pm - start_pm
    } else {
        end_pm + 0x1_0000_0000 - start_pm
    };
    delta * 1_000_000_000 / (DEFAULT_ACPI_TIMER_FREQUENCY as int)
}

/// The PM timer that a FADT locates, as `pm_timer_from_fadt` finds it.
pub open spec fn fadt_pm_timer(fadt: AcpiFadt) -> Option<PmTimer> {
    let g = fadt.inner.x_pm_tmr_blk;
    if gas_is_zero(g) {
        None
    } else if g.address_space_id == 0 {
        Some(PmTimer::Mmio { base: g.address })
    } else if g.address_space_id == 1 {
        Some(PmTimer::IoPort { port: (g.address % 0x1_0000) as u16 })
    } else {
        None
    }
}

/// The length that the header at the start of `xsdt` gives.
pub open spec fn xsdt_length(xsdt: Seq<u8>) -> int {
    from_le32(xsdt.subrange(4, 8)) as int
}

/// Number of entries of the XSDT `xsdt`.
pub open spec fn xsdt_entries(xsdt: Seq<u8>) -> int {
    (xsdt_length(xsdt) - ACPI_HEADER_LEN) / 8
}

/// Some header that `read_header` may give for address `a` has another
/// signature than FACP.
pub open spec fn not_facp_at<H: Fn(u64) -> AcpiTableHeader>(read_header: H, a: u64) -> bool {
    exists|h: AcpiTableHeader| read_header.ensures((a,), h) && h.signature != FACP
}

/// The table at `a` was read as a FACP header and a FADT whose PM timer is
/// `t`.
pub open spec fn facp_timer_at<H: Fn(u64) -> AcpiTableHeader, F: Fn(u64) -> AcpiFadt>(
    read_header: H,
    read_fadt: F,
    a: u64,
    t: Option<PmTimer>,
) -> bool {
    exists|h: AcpiTableHeader, f: AcpiFadt|
        read_header.ensures((a,), h) && h.signature == FACP && read_fadt.ensures((a,), f) && t
            == fadt_pm_timer(f)
}

/// Address held by entry `i` of the XSDT `xsdt`.
pub open spec fn xsdt_entry(xsdt: Seq<u8>, i: int) -> u64 {
    from_le64(xsdt.subrange(36 + 8 * i, 36 + 8 * i + 8))
}

/// The performance component.
pub struct Performance {
    /// The timer, once it is set up.
    pub perf_timer: Option<PerformanceTimer>,
}

impl Performance {
    /// A component whose timer is not set up yet.
    pub fn new() -> (r: Self)
        ensures
            r.perf_timer is None,
    {
        Self { perf_timer: None }
    }
}

/// What the performance component's entry point is configured with and
/// finds.
#[derive(Debug, Clone, Copy, PartialEq, Eq, Structural)]
pub struct PerfEntryConfig {
    /// Whether the component runs.
    pub enable_component: bool,
    /// Whether the global performance state could be set up.
    pub static_state_ready: bool,
    /// The MM communication regions: `None` when no HOB describes one,
    /// `Some(found)` with whether one of them is of the user type.
    pub mm_comm_region: Option<bool>,
    /// Whether HOBs hand over performance data.
    pub hob_data_present: bool,
}

/// The last thing the entry point did.
#[derive(Debug, Clone, Copy, PartialEq, Eq, Structural)]
pub enum PerfEntryStage {
    /// Nothing yet.
    Begin,
    /// Registered the End of DXE event that reports the boot performance table.
    EndOfDxeEvent,
    /// Set the image count and records from the HOB data.
    HobData,
    /// Installed the performance measurement protocol.
    Protocol,
    /// Registered the Ready to Boot event that adds the MM records.
    ReadyToBootEvent,
    /// Installed the performance property configuration table.
    ConfigTable,
}

/// Why the entry point fails.
#[derive(Debug, Clone, Copy, PartialEq, Eq, Structural)]
pub enum PerfEntryError {
    /// The global performance state is not there.
    Aborted,
    /// The performance timer is not set up.
    NotReady,
    /// A boot service failed with this status.
    Status(usize),
}

/// What the entry point does next.
#[derive(Debug, Clone, Copy, PartialEq, Eq, Structural)]
pub enum PerfEntryAction {
    /// Register the End of DXE event.
    RegisterEndOfDxeEvent,
    /// Set the image count and records from the HOB data (see
    /// `hob_data_or_default`).
    ApplyHobData,
    /// Install the performance measurement protocol.
    InstallProtocol,
    /// Register the Ready to Boot event.
    RegisterReadyToBootEvent,
    /// Install the performance property configuration table.
    InstallConfigTable,
    /// End with success.
    Succeed,
    /// End with this error.
    Fail(PerfEntryError),
}

/// The action after `stage`, whose boot-service call answered `last`:
///
/// - a failed call ends the entry point with its status;
/// - at the start: a disabled component, or MM communication regions of
///   which none is of the user type, succeed at once; without the global
///   state it fails with `Aborted`; else the End of DXE event is
///   registered;
/// - then the HOB data, when there is some, is applied, and the protocol
///   installed;
/// - the Ready to Boot event is registered only with a user MM
///   communication region, which is also the only case in which the timer
///   is set up: without one the entry point ends with `NotReady`;
/// - the configuration table is installed last.
pub fn performance_entry_step(cfg: PerfEntryConfig, stage: PerfEntryStage, last: Result<(), usize>) -> (r:
    PerfEntryAction)
    ensures
        r == (match last {
            Err(s) => PerfEntryAction::Fail(PerfEntryError::Status(s)),
            Ok(_) => match stage {
                PerfEntryStage::Begin => if !cfg.enable_component {
                    PerfEntryAction::Succeed
                } else if !cfg.static_state_ready {
                    PerfEntryAction::Fail(PerfEntryError::Aborted)
                } else if cfg.mm_comm_region == Some(false) {
                    PerfEntryAction::Succeed
                } else {
                    PerfEntryAction::RegisterEndOfDxeEvent
                },
                PerfEntryStage::EndOfDxeEvent => if cfg.hob_data_present {
                    PerfEntryAction::ApplyHobData
                } else {
                    PerfEntryAction::InstallProtocol
                },
                PerfEntryStage::HobData => PerfEntryAction::InstallProtocol,
                PerfEntryStage::Protocol => if cfg.mm_comm_region == Some(true) {
                    PerfEntryAction::RegisterReadyToBootEvent
                } else {
                    PerfEntryAction::Fail(PerfEntryError::NotReady)
                },
                PerfEntryStage::ReadyToBootEvent => PerfEntryAction::InstallConfigTable,
                PerfEntryStage::ConfigTable => PerfEntryAction::Succeed,
            },
        }),
{
    match last {
        Err(s) => PerfEntryAction::Fail(PerfEntryError::Status(s)),
        Ok(_) => match stage {
            PerfEntryStage::Begin => {
                if !cfg.enable_component {
                    PerfEntryAction::Succeed
                } else if !cfg.static_state_ready {
                    PerfEntryAction::Fail(PerfEntryError::Aborted)
                } else if cfg.mm_comm_region == Some(false) {
                    PerfEntryAction::Succeed
                } else {
                    PerfEntryAction::RegisterEndOfDxeEvent
                }
            },
            PerfEntryStage::EndOfDxeEvent => {
                if cfg.hob_data_present {
                    PerfEntryAction::ApplyHobData
                } else {
                    PerfEntryAction::InstallProtocol
                }
            },
            PerfEntryStage::HobData => PerfEntryAction::InstallProtocol,
            PerfEntryStage::Protocol => {
                if cfg.mm_comm_region == Some(true) {
                    PerfEntryAction::RegisterReadyToBootEvent
                } else {
                    PerfEntryAction::Fail(PerfEntryError::NotReady)
                }
            },
            PerfEntryStage::ReadyToBootEvent => PerfEntryAction::InstallConfigTable,
            PerfEntryStage::ConfigTable => PerfEntryAction::Succeed,
        },
    }
}

/// The image count and records that the HOBs handed over, or none when
/// extracting them failed.
pub fn hob_data_or_default(extracted: Result<(u32, PerformanceRecordBuffer), PerformanceError>) -> (r: (
    u32,
    PerformanceRecordBuffer,
))
    ensures
        match extracted {
            Ok((n, b)) => r.0 == n && r.1@ == b@,
            Err(_) => r.0 == 0 && r.1@ == Seq::<u8>::empty(),
        },
{
    match extracted {
        Ok(v) => v,
        Err(_) => (0, PerformanceRecordBuffer::new()),
    }
}

} // verus!
