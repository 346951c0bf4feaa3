//! Performance configuration handed over by a HOB.
//!
//! EDK II's PcdPerformanceLibraryPropertyMask uses disable bits (BIT1 to
//! BIT5 disable StartImage, LoadImage, DriverBindingSupport,
//! DriverBindingStart and DriverBindingStop logging); the enabled
//! measurements use enable bits (1, 2, 4, 8 and 16 for the same five).

use vstd::prelude::*;

verus! {

/// Enable bit of StartImage measurements.
pub const MEASUREMENT_START_IMAGE: u32 = 1;

/// Enable bit of LoadImage measurements.
pub const MEASUREMENT_LOAD_IMAGE: u32 = 2;

/// Enable bit of DriverBindingSupport measurements.
pub const MEASUREMENT_DRIVER_BINDING_SUPPORT: u32 = 4;

/// Enable bit of DriverBindingStart measurements.
pub const MEASUREMENT_DRIVER_BINDING_START: u32 = 8;

/// Enable bit of DriverBindingStop measurements.
pub const MEASUREMENT_DRIVER_BINDING_STOP: u32 = 16;

/// Configuration of the performance component.
#[derive(Debug, Clone, Copy, Default, PartialEq, Eq, Structural)]
pub struct PerfConfig {
    /// Whether the component runs.
    pub enable_component: bool,
    /// Enable bits of the measurements taken.
    pub enabled_measurements: u32,
}

/// Responsible for providing performance configuration information to
/// other performance components.
pub struct PerformanceConfigurationProvider;

/// The HOB that carries the performance configuration.
#[derive(Debug, Clone, Copy, PartialEq, Eq, Structural)]
pub struct PerformanceConfigHob {
    /// Non-zero when the performance component is enabled.
    pub enable_component: u8,
    /// The measurements, in EDK II's disable-bit format.
    pub enabled_measurements: u32,
}

/// Converts EDK II's disable-bit mask to enable bits: measurement `k`
/// (`k` in 0..5) is enabled when bit `k + 1` of `edk2_mask` is clear; BIT0
/// and the higher bits are ignored.
pub fn convert_edk2_mask_to_patina(edk2_mask: u32) -> (r: u32)
    ensures
        r == !(edk2_mask >> 1u32) & 0x1F,
        forall|k: u32| k < 5 ==> ((r >> k) & 1 == 1 <==> (edk2_mask >> (k + 1)) & 1 == 0),
        r < 32,
{
    let mut patina_mask: u32 = 0;
    if edk2_mask & (1 << 1) == 0 {
        patina_mask = patina_mask | MEASUREMENT_START_IMAGE;
    }
    let ghost p1 = patina_mask;
    if edk2_mask & (1 << 2) == 0 {
        patina_mask = patina_mask | MEASUREMENT_LOAD_IMAGE;
    }
    let ghost p2 = patina_mask;
    if edk2_mask & (1 << 3) == 0 {
        patina_mask = patina_mask | MEASUREMENT_DRIVER_BINDING_SUPPORT;
    }
    let ghost p3 = patina_mask;
    if edk2_mask & (1 << 4) == 0 {
        patina_mask = patina_mask | MEASUREMENT_DRIVER_BINDING_START;
    }
    let ghost p4 = patina_mask;
    if edk2_mask & (1 << 5) == 0 {
        patina_mask = patina_mask | MEASUREMENT_DRIVER_BINDING_STOP;
    }
    assert(patina_mask == !(edk2_mask >> 1u32) & 0x1F) by (bit_vector)
        requires
            p1 == (if edk2_mask & (1u32 << 1u32) == 0 { 0u32 | 1u32 } else { 0u32 }),
            p2 == (if edk2_mask & (1u32 << 2u32) == 0 { p1 | 2u32 } else { p1 }),
            p3 == (if edk2_mask & (1u32 << 3u32) == 0 { p2 | 4u32 } else { p2 }),
            p4 == (if edk2_mask & (1u32 << 4u32) == 0 { p3 | 8u32 } else { p3 }),
            patina_mask == (if edk2_mask & (1u32 << 5u32) == 0 { p4 | 16u32 } else { p4 }),
    ;
    assert(forall|k: u32|
        k < 5 ==> ((patina_mask >> k) & 1 == 1 <==> (edk2_mask >> (k + 1)) & 1 == 0)) by (bit_vector)
        requires
            patina_mask == !(edk2_mask >> 1u32) & 0x1F,
    ;
    assert(patina_mask < 32) by (bit_vector)
        requires
            patina_mask == !(edk2_mask >> 1u32) & 0x1F,
    ;
    patina_mask
}

impl PerformanceConfigurationProvider {
    /// Transfers the HOB's configuration: the component is enabled when the
    /// HOB says so, and then its measurements are converted to enable bits;
    /// a disabled component keeps its measurements.
    pub fn entry_point(self, perf_config_hob: &PerformanceConfigHob, config: &mut PerfConfig)
        ensures
            final(config).enable_component == (perf_config_hob.enable_component != 0),
            final(config).enabled_measurements == (if perf_config_hob.enable_component != 0 {
                !(perf_config_hob.enabled_measurements >> 1u32) & 0x1F
            } else {
                old(config).enabled_measurements
            }),
    {
        config.enable_component = perf_config_hob.enable_component != 0;
        if config.enable_component {
            config.enabled_measurements = convert_edk2_mask_to_patina(perf_config_hob.enabled_measurements);
        }
    }
}

} // verus!
