//! Types used in SMBIOS records: bit fields (newtypes over their integer,
//! fields from the least significant bit up) and enumerations, whose
//! number in the SMBIOS specification `value` gives.

use vstd::prelude::*;

verus! {

/// BIOS Characteristics (Type 0, offset 0x0A) - 8 bytes
#[derive(Debug, Clone, Copy)]
pub struct BiosCharacteristics(u64);

impl View for BiosCharacteristics {
    type V = u64;

    closed spec fn view(&self) -> u64 {
        self.0
    }
}

impl BiosCharacteristics {
    /// A value with every bit clear.
    pub fn new() -> (r: Self)
        ensures
            r@ == 0,
    {
        Self(0)
    }

    /// The value whose bits are `bits`.
    pub fn from_bits(bits: u64) -> (r: Self)
        ensures
            r@ == bits,
    {
        Self(bits)
    }

    /// The bits of the value.
    pub fn into_bits(self) -> (r: u64)
        ensures
            r == self@,
    {
        self.0
    }

    pub fn reserved(&self) -> (r: u8)
        ensures
            r == ((self@ >> 0u32) & 0x3) as u8,
    {
        ((self.0 >> 0u32) & 0x3) as u8
    }

    /// The value with `reserved` set to `value`, which must fit in 2 bits.
    pub fn with_reserved(self, value: u8) -> (r: Self)
        requires
            value <= 0x3,
        ensures
            r@ == ((self@ & !(0x3u64 << 0u32)) | ((value as u64) << 0u32)),
    {
        Self((self.0 & !(0x3u64 << 0u32)) | ((value as u64) << 0u32))
    }

    pub fn unknown(&self) -> (r: bool)
        ensures
            r == ((self@ >> 2u32) & 1 == 1),
    {
        (self.0 >> 2u32) & 1 == 1
    }

    /// The value with `unknown` set to `value`.
    pub fn with_unknown(self, value: bool) -> (r: Self)
        ensures
            r@ == (if value { self@ | (1u64 << 2u32) } else { self@ & !(1u64 << 2u32) }),
    {
        if value {
            Self(self.0 | (1u64 << 2u32))
        } else {
            Self(self.0 & !(1u64 << 2u32))
        }
    }

    pub fn bios_characteristics_unsupported(&self) -> (r: bool)
        ensures
            r == ((self@ >> 3u32) & 1 == 1),
    {
        (self.0 >> 3u32) & 1 == 1
    }

    /// The value with `bios_characteristics_unsupported` set to `value`.
    pub fn with_bios_characteristics_unsupported(self, value: bool) -> (r: Self)
        ensures
            r@ == (if value { self@ | (1u64 << 3u32) } else { self@ & !(1u64 << 3u32) }),
    {
        if value {
            Self(self.0 | (1u64 << 3u32))
        } else {
            Self(self.0 & !(1u64 << 3u32))
        }
    }

    pub fn isa_supported(&self) -> (r: bool)
        ensures
            r == ((self@ >> 4u32) & 1 == 1),
    {
        (self.0 >> 4u32) & 1 == 1
    }

    /// The value with `isa_supported` set to `value`.
    pub fn with_isa_supported(self, value: bool) -> (r: Self)
        ensures
            r@ == (if value { self@ | (1u64 << 4u32) } else { self@ & !(1u64 << 4u32) }),
    {
        if value {
            Self(self.0 | (1u64 << 4u32))
        } else {
            Self(self.0 & !(1u64 << 4u32))
        }
    }

    pub fn mca_supported(&self) -> (r: bool)
        ensures
            r == ((self@ >> 5u32) & 1 == 1),
    {
        (self.0 >> 5u32) & 1 == 1
    }

    /// The value with `mca_supported` set to `value`.
    pub fn with_mca_supported(self, value: bool) -> (r: Self)
        ensures
            r@ == (if value { self@ | (1u64 << 5u32) } else { self@ & !(1u64 << 5u32) }),
    {
        if value {
            Self(self.0 | (1u64 << 5u32))
        } else {
            Self(self.0 & !(1u64 << 5u32))
        }
    }

    pub fn eisa_supported(&self) -> (r: bool)
        ensures
            r == ((self@ >> 6u32) & 1 == 1),
    {
        (self.0 >> 6u32) & 1 == 1
    }

    /// The value with `eisa_supported` set to `value`.
    pub fn with_eisa_supported(self, value: bool) -> (r: Self)
        ensures
            r@ == (if value { self@ | (1u64 << 6u32) } else { self@ & !(1u64 << 6u32) }),
    {
        if value {
            Self(self.0 | (1u64 << 6u32))
        } else {
            Self(self.0 & !(1u64 << 6u32))
        }
    }

    pub fn pci_supported(&self) -> (r: bool)
        ensures
            r == ((self@ >> 7u32) & 1 == 1),
    {
        (self.0 >> 7u32) & 1 == 1
    }

    /// The value with `pci_supported` set to `value`.
    pub fn with_pci_supported(self, value: bool) -> (r: Self)
        ensures
            r@ == (if value { self@ | (1u64 << 7u32) } else { self@ & !(1u64 << 7u32) }),
    {
        if value {
            Self(self.0 | (1u64 << 7u32))
        } else {
            Self(self.0 & !(1u64 << 7u32))
        }
    }

    pub fn pcmcia_supported(&self) -> (r: bool)
        ensures
            r == ((self@ >> 8u32) & 1 == 1),
    {
        (self.0 >> 8u32) & 1 == 1
    }

    /// The value with `pcmcia_supported` set to `value`.
    pub fn with_pcmcia_supported(self, value: bool) -> (r: Self)
        ensures
            r@ == (if value { self@ | (1u64 << 8u32) } else { self@ & !(1u64 << 8u32) }),
    {
        if value {
            Self(self.0 | (1u64 << 8u32))
        } else {
            Self(self.0 & !(1u64 << 8u32))
        }
    }

    pub fn plug_play_supported(&self) -> (r: bool)
        ensures
            r == ((self@ >> 9u32) & 1 == 1),
    {
        (self.0 >> 9u32) & 1 == 1
    }

    /// The value with `plug_play_supported` set to `value`.
    pub fn with_plug_play_supported(self, value: bool) -> (r: Self)
        ensures
            r@ == (if value { self@ | (1u64 << 9u32) } else { self@ & !(1u64 << 9u32) }),
    {
        if value {
            Self(self.0 | (1u64 << 9u32))
        } else {
            Self(self.0 & !(1u64 << 9u32))
        }
    }

    pub fn apm_supported(&self) -> (r: bool)
        ensures
            r == ((self@ >> 10u32) & 1 == 1),
    {
        (self.0 >> 10u32) & 1 == 1
    }

    /// The value with `apm_supported` set to `value`.
    pub fn with_apm_supported(self, value: bool) -> (r: Self)
        ensures
            r@ == (if value { self@ | (1u64 << 10u32) } else { self@ & !(1u64 << 10u32) }),
    {
        if value {
            Self(self.0 | (1u64 << 10u32))
        } else {
            Self(self.0 & !(1u64 << 10u32))
        }
    }

    pub fn bios_is_upgradable(&self) -> (r: bool)
        ensures
            r == ((self@ >> 11u32) & 1 == 1),
    {
        (self.0 >> 11u32) & 1 == 1
    }

    /// The value with `bios_is_upgradable` set to `value`.
    pub fn with_bios_is_upgradable(self, value: bool) -> (r: Self)
        ensures
            r@ == (if value { self@ | (1u64 << 11u32) } else { self@ & !(1u64 << 11u32) }),
    {
        if value {
            Self(self.0 | (1u64 << 11u32))
        } else {
            Self(self.0 & !(1u64 << 11u32))
        }
    }

    pub fn bios_shadowing_allowed(&self) -> (r: bool)
        ensures
            r == ((self@ >> 12u32) & 1 == 1),
    {
        (self.0 >> 12u32) & 1 == 1
    }

    /// The value with `bios_shadowing_allowed` set to `value`.
    pub fn with_bios_shadowing_allowed(self, value: bool) -> (r: Self)
        ensures
            r@ == (if value { self@ | (1u64 << 12u32) } else { self@ & !(1u64 << 12u32) }),
    {
        if value {
            Self(self.0 | (1u64 << 12u32))
        } else {
            Self(self.0 & !(1u64 << 12u32))
        }
    }

    pub fn vlvesa_supported(&self) -> (r: bool)
        ensures
            r == ((self@ >> 13u32) & 1 == 1),
    {
        (self.0 >> 13u32) & 1 == 1
    }

    /// The value with `vlvesa_supported` set to `value`.
    pub fn with_vlvesa_supported(self, value: bool) -> (r: Self)
        ensures
            r@ == (if value { self@ | (1u64 << 13u32) } else { self@ & !(1u64 << 13u32) }),
    {
        if value {
            Self(self.0 | (1u64 << 13u32))
        } else {
            Self(self.0 & !(1u64 << 13u32))
        }
    }

    pub fn escd_supported(&self) -> (r: bool)
        ensures
            r == ((self@ >> 14u32) & 1 == 1),
    {
        (self.0 >> 14u32) & 1 == 1
    }

    /// The value with `escd_supported` set to `value`.
    pub fn with_escd_supported(self, value: bool) -> (r: Self)
        ensures
            r@ == (if value { self@ | (1u64 << 14u32) } else { self@ & !(1u64 << 14u32) }),
    {
        if value {
            Self(self.0 | (1u64 << 14u32))
        } else {
            Self(self.0 & !(1u64 << 14u32))
        }
    }

    pub fn cd_boot_supported(&self) -> (r: bool)
        ensures
            r == ((self@ >> 15u32) & 1 == 1),
    {
        (self.0 >> 15u32) & 1 == 1
    }

    /// The value with `cd_boot_supported` set to `value`.
    pub fn with_cd_boot_supported(self, value: bool) -> (r: Self)
        ensures
            r@ == (if value { self@ | (1u64 << 15u32) } else { self@ & !(1u64 << 15u32) }),
    {
        if value {
            Self(self.0 | (1u64 << 15u32))
        } else {
            Self(self.0 & !(1u64 << 15u32))
        }
    }

    pub fn selectable_boot_supported(&self) -> (r: bool)
        ensures
            r == ((self@ >> 16u32) & 1 == 1),
    {
        (self.0 >> 16u32) & 1 == 1
    }

    /// The value with `selectable_boot_supported` set to `value`.
    pub fn with_selectable_boot_supported(self, value: bool) -> (r: Self)
        ensures
            r@ == (if value { self@ | (1u64 << 16u32) } else { self@ & !(1u64 << 16u32) }),
    {
        if value {
            Self(self.0 | (1u64 << 16u32))
        } else {
            Self(self.0 & !(1u64 << 16u32))
        }
    }

    pub fn bios_rom_socketed(&self) -> (r: bool)
        ensures
            r == ((self@ >> 17u32) & 1 == 1),
    {
        (self.0 >> 17u32) & 1 == 1
    }

    /// The value with `bios_rom_socketed` set to `value`.
    pub fn with_bios_rom_socketed(self, value: bool) -> (r: Self)
        ensures
            r@ == (if value { self@ | (1u64 << 17u32) } else { self@ & !(1u64 << 17u32) }),
    {
        if value {
            Self(self.0 | (1u64 << 17u32))
        } else {
            Self(self.0 & !(1u64 << 17u32))
        }
    }

    pub fn pc_card_boot_supported(&self) -> (r: bool)
        ensures
            r == ((self@ >> 18u32) & 1 == 1),
    {
        (self.0 >> 18u32) & 1 == 1
    }

    /// The value with `pc_card_boot_supported` set to `value`.
    pub fn with_pc_card_boot_supported(self, value: bool) -> (r: Self)
        ensures
            r@ == (if value { self@ | (1u64 << 18u32) } else { self@ & !(1u64 << 18u32) }),
    {
        if value {
            Self(self.0 | (1u64 << 18u32))
        } else {
            Self(self.0 & !(1u64 << 18u32))
        }
    }

    pub fn edd_spec_supported(&self) -> (r: bool)
        ensures
            r == ((self@ >> 19u32) & 1 == 1),
    {
        (self.0 >> 19u32) & 1 == 1
    }

    /// The value with `edd_spec_supported` set to `value`.
    pub fn with_edd_spec_supported(self, value: bool) -> (r: Self)
        ensures
            r@ == (if value { self@ | (1u64 << 19u32) } else { self@ & !(1u64 << 19u32) }),
    {
        if value {
            Self(self.0 | (1u64 << 19u32))
        } else {
            Self(self.0 & !(1u64 << 19u32))
        }
    }

    pub fn japanese_nec_9800_supported(&self) -> (r: bool)
        ensures
            r == ((self@ >> 20u32) & 1 == 1),
    {
        (self.0 >> 20u32) & 1 == 1
    }

    /// The value with `japanese_nec_9800_supported` set to `value`.
    pub fn with_japanese_nec_9800_supported(self, value: bool) -> (r: Self)
        ensures
            r@ == (if value { self@ | (1u64 << 20u32) } else { self@ & !(1u64 << 20u32) }),
    {
        if value {
            Self(self.0 | (1u64 << 20u32))
        } else {
            Self(self.0 & !(1u64 << 20u32))
        }
    }

    pub fn japanese_toshiba_supported(&self) -> (r: bool)
        ensures
            r == ((self@ >> 21u32) & 1 == 1),
    {
        (self.0 >> 21u32) & 1 == 1
    }

    /// The value with `japanese_toshiba_supported` set to `value`.
    pub fn with_japanese_toshiba_supported(self, value: bool) -> (r: Self)
        ensures
            r@ == (if value { self@ | (1u64 << 21u32) } else { self@ & !(1u64 << 21u32) }),
    {
        if value {
            Self(self.0 | (1u64 << 21u32))
        } else {
            Self(self.0 & !(1u64 << 21u32))
        }
    }

    pub fn kb_525_360_supported(&self) -> (r: bool)
        ensures
            r == ((self@ >> 22u32) & 1 == 1),
    {
        (self.0 >> 22u32) & 1 == 1
    }

    /// The value with `kb_525_360_supported` set to `value`.
    pub fn with_kb_525_360_supported(self, value: bool) -> (r: Self)
        ensures
            r@ == (if value { self@ | (1u64 << 22u32) } else { self@ & !(1u64 << 22u32) }),
    {
        if value {
            Self(self.0 | (1u64 << 22u32))
        } else {
            Self(self.0 & !(1u64 << 22u32))
        }
    }

    pub fn mb_535_12_supported(&self) -> (r: bool)
        ensures
            r == ((self@ >> 23u32) & 1 == 1),
    {
        (self.0 >> 23u32) & 1 == 1
    }

    /// The value with `mb_535_12_supported` set to `value`.
    pub fn with_mb_535_12_supported(self, value: bool) -> (r: Self)
        ensures
            r@ == (if value { self@ | (1u64 << 23u32) } else { self@ & !(1u64 << 23u32) }),
    {
        if value {
            Self(self.0 | (1u64 << 23u32))
        } else {
            Self(self.0 & !(1u64 << 23u32))
        }
    }

    pub fn mb_35_720_supported(&self) -> (r: bool)
        ensures
            r == ((self@ >> 24u32) & 1 == 1),
    {
        (self.0 >> 24u32) & 1 == 1
    }

    /// The value with `mb_35_720_supported` set to `value`.
    pub fn with_mb_35_720_supported(self, value: bool) -> (r: Self)
        ensures
            r@ == (if value { self@ | (1u64 << 24u32) } else { self@ & !(1u64 << 24u32) }),
    {
        if value {
            Self(self.0 | (1u64 << 24u32))
        } else {
            Self(self.0 & !(1u64 << 24u32))
        }
    }

    pub fn mb_35_288_supported(&self) -> (r: bool)
        ensures
            r == ((self@ >> 25u32) & 1 == 1),
    {
        (self.0 >> 25u32) & 1 == 1
    }

    /// The value with `mb_35_288_supported` set to `value`.
    pub fn with_mb_35_288_supported(self, value: bool) -> (r: Self)
        ensures
            r@ == (if value { self@ | (1u64 << 25u32) } else { self@ & !(1u64 << 25u32) }),
    {
        if value {
            Self(self.0 | (1u64 << 25u32))
        } else {
            Self(self.0 & !(1u64 << 25u32))
        }
    }

    pub fn print_screen_supported(&self) -> (r: bool)
        ensures
            r == ((self@ >> 26u32) & 1 == 1),
    {
        (self.0 >> 26u32) & 1 == 1
    }

    /// The value with `print_screen_supported` set to `value`.
    pub fn with_print_screen_supported(self, value: bool) -> (r: Self)
        ensures
            r@ == (if value { self@ | (1u64 << 26u32) } else { self@ & !(1u64 << 26u32) }),
    {
        if value {
            Self(self.0 | (1u64 << 26u32))
        } else {
            Self(self.0 & !(1u64 << 26u32))
        }
    }

    pub fn keyboard_8042_supported(&self) -> (r: bool)
        ensures
            r == ((self@ >> 27u32) & 1 == 1),
    {
        (self.0 >> 27u32) & 1 == 1
    }

    /// The value with `keyboard_8042_supported` set to `value`.
    pub fn with_keyboard_8042_supported(self, value: bool) -> (r: Self)
        ensures
            r@ == (if value { self@ | (1u64 << 27u32) } else { self@ & !(1u64 << 27u32) }),
    {
        if value {
            Self(self.0 | (1u64 << 27u32))
        } else {
            Self(self.0 & !(1u64 << 27u32))
        }
    }

    pub fn serial_services_supported(&self) -> (r: bool)
        ensures
            r == ((self@ >> 28u32) & 1 == 1),
    {
        (self.0 >> 28u32) & 1 == 1
    }

    /// The value with `serial_services_supported` set to `value`.
    pub fn with_serial_services_supported(self, value: bool) -> (r: Self)
        ensures
            r@ == (if value { self@ | (1u64 << 28u32) } else { self@ & !(1u64 << 28u32) }),
    {
        if value {
            Self(self.0 | (1u64 << 28u32))
        } else {
            Self(self.0 & !(1u64 << 28u32))
        }
    }

    pub fn printer_services_supported(&self) -> (r: bool)
        ensures
            r == ((self@ >> 29u32) & 1 == 1),
    {
        (self.0 >> 29u32) & 1 == 1
    }

    /// The value with `printer_services_supported` set to `value`.
    pub fn with_printer_services_supported(self, value: bool) -> (r: Self)
        ensures
            r@ == (if value { self@ | (1u64 << 29u32) } else { self@ & !(1u64 << 29u32) }),
    {
        if value {
            Self(self.0 | (1u64 << 29u32))
        } else {
            Self(self.0 & !(1u64 << 29u32))
        }
    }

    pub fn cga_mono_video_supported(&self) -> (r: bool)
        ensures
            r == ((self@ >> 30u32) & 1 == 1),
    {
        (self.0 >> 30u32) & 1 == 1
    }

    /// The value with `cga_mono_video_supported` set to `value`.
    pub fn with_cga_mono_video_supported(self, value: bool) -> (r: Self)
        ensures
            r@ == (if value { self@ | (1u64 << 30u32) } else { self@ & !(1u64 << 30u32) }),
    {
        if value {
            Self(self.0 | (1u64 << 30u32))
        } else {
            Self(self.0 & !(1u64 << 30u32))
        }
    }

    pub fn nec_pc_98(&self) -> (r: bool)
        ensures
            r == ((self@ >> 31u32) & 1 == 1),
    {
        (self.0 >> 31u32) & 1 == 1
    }

    /// The value with `nec_pc_98` set to `value`.
    pub fn with_nec_pc_98(self, value: bool) -> (r: Self)
        ensures
            r@ == (if value { self@ | (1u64 << 31u32) } else { self@ & !(1u64 << 31u32) }),
    {
        if value {
            Self(self.0 | (1u64 << 31u32))
        } else {
            Self(self.0 & !(1u64 << 31u32))
        }
    }

    pub fn reserved_bios_vendor(&self) -> (r: u16)
        ensures
            r == ((self@ >> 32u32) & 0xffff) as u16,
    {
        ((self.0 >> 32u32) & 0xffff) as u16
    }

    /// The value with `reserved_bios_vendor` set to `value`, which must fit in 16 bits.
    pub fn with_reserved_bios_vendor(self, value: u16) -> (r: Self)
        requires
            value <= 0xffff,
        ensures
            r@ == ((self@ & !(0xffffu64 << 32u32)) | ((value as u64) << 32u32)),
    {
        Self((self.0 & !(0xffffu64 << 32u32)) | ((value as u64) << 32u32))
    }

    pub fn reserved_system_vendor(&self) -> (r: u16)
        ensures
            r == ((self@ >> 48u32) & 0xffff) as u16,
    {
        ((self.0 >> 48u32) & 0xffff) as u16
    }

    /// The value with `reserved_system_vendor` set to `value`, which must fit in 16 bits.
    pub fn with_reserved_system_vendor(self, value: u16) -> (r: Self)
        requires
            value <= 0xffff,
        ensures
            r@ == ((self@ & !(0xffffu64 << 48u32)) | ((value as u64) << 48u32)),
    {
        Self((self.0 & !(0xffffu64 << 48u32)) | ((value as u64) << 48u32))
    }
}

/// BIOS Characteristics Extension Byte 1 (Type 0, offset 0x12)
#[derive(Debug, Clone, Copy)]
pub struct BiosCharacteristicsExt1(u8);

impl View for BiosCharacteristicsExt1 {
    type V = u8;

    closed spec fn view(&self) -> u8 {
        self.0
    }
}

impl BiosCharacteristicsExt1 {
    /// A value with every bit clear.
    pub fn new() -> (r: Self)
        ensures
            r@ == 0,
    {
        Self(0)
    }

    /// The value whose bits are `bits`.
    pub fn from_bits(bits: u8) -> (r: Self)
        ensures
            r@ == bits,
    {
        Self(bits)
    }

    /// The bits of the value.
    pub fn into_bits(self) -> (r: u8)
        ensures
            r == self@,
    {
        self.0
    }

    pub fn acpi_supported(&self) -> (r: bool)
        ensures
            r == ((self@ >> 0u32) & 1 == 1),
    {
        (self.0 >> 0u32) & 1 == 1
    }

    /// The value with `acpi_supported` set to `value`.
    pub fn with_acpi_supported(self, value: bool) -> (r: Self)
        ensures
            r@ == (if value { self@ | (1u8 << 0u32) } else { self@ & !(1u8 << 0u32) }),
    {
        if value {
            Self(self.0 | (1u8 << 0u32))
        } else {
            Self(self.0 & !(1u8 << 0u32))
        }
    }

    pub fn usb_legacy_supported(&self) -> (r: bool)
        ensures
            r == ((self@ >> 1u32) & 1 == 1),
    {
        (self.0 >> 1u32) & 1 == 1
    }

    /// The value with `usb_legacy_supported` set to `value`.
    pub fn with_usb_legacy_supported(self, value: bool) -> (r: Self)
        ensures
            r@ == (if value { self@ | (1u8 << 1u32) } else { self@ & !(1u8 << 1u32) }),
    {
        if value {
            Self(self.0 | (1u8 << 1u32))
        } else {
            Self(self.0 & !(1u8 << 1u32))
        }
    }

    pub fn agp_supported(&self) -> (r: bool)
        ensures
            r == ((self@ >> 2u32) & 1 == 1),
    {
        (self.0 >> 2u32) & 1 == 1
    }

    /// The value with `agp_supported` set to `value`.
    pub fn with_agp_supported(self, value: bool) -> (r: Self)
        ensures
            r@ == (if value { self@ | (1u8 << 2u32) } else { self@ & !(1u8 << 2u32) }),
    {
        if value {
            Self(self.0 | (1u8 << 2u32))
        } else {
            Self(self.0 & !(1u8 << 2u32))
        }
    }

    pub fn i20_supported(&self) -> (r: bool)
        ensures
            r == ((self@ >> 3u32) & 1 == 1),
    {
        (self.0 >> 3u32) & 1 == 1
    }

    /// The value with `i20_supported` set to `value`.
    pub fn with_i20_supported(self, value: bool) -> (r: Self)
        ensures
            r@ == (if value { self@ | (1u8 << 3u32) } else { self@ & !(1u8 << 3u32) }),
    {
        if value {
            Self(self.0 | (1u8 << 3u32))
        } else {
            Self(self.0 & !(1u8 << 3u32))
        }
    }

    pub fn superdisk_boot_supported(&self) -> (r: bool)
        ensures
            r == ((self@ >> 4u32) & 1 == 1),
    {
        (self.0 >> 4u32) & 1 == 1
    }

    /// The value with `superdisk_boot_supported` set to `value`.
    pub fn with_superdisk_boot_supported(self, value: bool) -> (r: Self)
        ensures
            r@ == (if value { self@ | (1u8 << 4u32) } else { self@ & !(1u8 << 4u32) }),
    {
        if value {
            Self(self.0 | (1u8 << 4u32))
        } else {
            Self(self.0 & !(1u8 << 4u32))
        }
    }

    pub fn zip_drive_boot_supported(&self) -> (r: bool)
        ensures
            r == ((self@ >> 5u32) & 1 == 1),
    {
        (self.0 >> 5u32) & 1 == 1
    }

    /// The value with `zip_drive_boot_supported` set to `value`.
    pub fn with_zip_drive_boot_supported(self, value: bool) -> (r: Self)
        ensures
            r@ == (if value { self@ | (1u8 << 5u32) } else { self@ & !(1u8 << 5u32) }),
    {
        if value {
            Self(self.0 | (1u8 << 5u32))
        } else {
            Self(self.0 & !(1u8 << 5u32))
        }
    }

    pub fn boot_1394_supported(&self) -> (r: bool)
        ensures
            r == ((self@ >> 6u32) & 1 == 1),
    {
        (self.0 >> 6u32) & 1 == 1
    }

    /// The value with `boot_1394_supported` set to `value`.
    pub fn with_boot_1394_supported(self, value: bool) -> (r: Self)
        ensures
            r@ == (if value { self@ | (1u8 << 6u32) } else { self@ & !(1u8 << 6u32) }),
    {
        if value {
            Self(self.0 | (1u8 << 6u32))
        } else {
            Self(self.0 & !(1u8 << 6u32))
        }
    }

    pub fn smart_battery_supported(&self) -> (r: bool)
        ensures
            r == ((self@ >> 7u32) & 1 == 1),
    {
        (self.0 >> 7u32) & 1 == 1
    }

    /// The value with `smart_battery_supported` set to `value`.
    pub fn with_smart_battery_supported(self, value: bool) -> (r: Self)
        ensures
            r@ == (if value { self@ | (1u8 << 7u32) } else { self@ & !(1u8 << 7u32) }),
    {
        if value {
            Self(self.0 | (1u8 << 7u32))
        } else {
            Self(self.0 & !(1u8 << 7u32))
        }
    }
}

/// BIOS Characteristics Extension Byte 2 (Type 0, offset 0x13)
#[derive(Debug, Clone, Copy)]
pub struct BiosCharacteristicsExt2(u8);

impl View for BiosCharacteristicsExt2 {
    type V = u8;

    closed spec fn view(&self) -> u8 {
        self.0
    }
}

impl BiosCharacteristicsExt2 {
    /// A value with every bit clear.
    pub fn new() -> (r: Self)
        ensures
            r@ == 0,
    {
        Self(0)
    }

    /// The value whose bits are `bits`.
    pub fn from_bits(bits: u8) -> (r: Self)
        ensures
            r@ == bits,
    {
        Self(bits)
    }

    /// The bits of the value.
    pub fn into_bits(self) -> (r: u8)
        ensures
            r == self@,
    {
        self.0
    }

    pub fn bios_boot_specification_supported(&self) -> (r: bool)
        ensures
            r == ((self@ >> 0u32) & 1 == 1),
    {
        (self.0 >> 0u32) & 1 == 1
    }

    /// The value with `bios_boot_specification_supported` set to `value`.
    pub fn with_bios_boot_specification_supported(self, value: bool) -> (r: Self)
        ensures
            r@ == (if value { self@ | (1u8 << 0u32) } else { self@ & !(1u8 << 0u32) }),
    {
        if value {
            Self(self.0 | (1u8 << 0u32))
        } else {
            Self(self.0 & !(1u8 << 0u32))
        }
    }

    pub fn fn_network_service_boot_supported(&self) -> (r: bool)
        ensures
            r == ((self@ >> 1u32) & 1 == 1),
    {
        (self.0 >> 1u32) & 1 == 1
    }

    /// The value with `fn_network_service_boot_supported` set to `value`.
    pub fn with_fn_network_service_boot_supported(self, value: bool) -> (r: Self)
        ensures
            r@ == (if value { self@ | (1u8 << 1u32) } else { self@ & !(1u8 << 1u32) }),
    {
        if value {
            Self(self.0 | (1u8 << 1u32))
        } else {
            Self(self.0 & !(1u8 << 1u32))
        }
    }

    pub fn enable_targeted_content_distribution(&self) -> (r: bool)
        ensures
            r == ((self@ >> 2u32) & 1 == 1),
    {
        (self.0 >> 2u32) & 1 == 1
    }

    /// The value with `enable_targeted_content_distribution` set to `value`.
    pub fn with_enable_targeted_content_distribution(self, value: bool) -> (r: Self)
        ensures
            r@ == (if value { self@ | (1u8 << 2u32) } else { self@ & !(1u8 << 2u32) }),
    {
        if value {
            Self(self.0 | (1u8 << 2u32))
        } else {
            Self(self.0 & !(1u8 << 2u32))
        }
    }

    pub fn uefi_spec_supported(&self) -> (r: bool)
        ensures
            r == ((self@ >> 3u32) & 1 == 1),
    {
        (self.0 >> 3u32) & 1 == 1
    }

    /// The value with `uefi_spec_supported` set to `value`.
    pub fn with_uefi_spec_supported(self, value: bool) -> (r: Self)
        ensures
            r@ == (if value { self@ | (1u8 << 3u32) } else { self@ & !(1u8 << 3u32) }),
    {
        if value {
            Self(self.0 | (1u8 << 3u32))
        } else {
            Self(self.0 & !(1u8 << 3u32))
        }
    }

    pub fn smbios_describes_vm(&self) -> (r: bool)
        ensures
            r == ((self@ >> 4u32) & 1 == 1),
    {
        (self.0 >> 4u32) & 1 == 1
    }

    /// The value with `smbios_describes_vm` set to `value`.
    pub fn with_smbios_describes_vm(self, value: bool) -> (r: Self)
        ensures
            r@ == (if value { self@ | (1u8 << 4u32) } else { self@ & !(1u8 << 4u32) }),
    {
        if value {
            Self(self.0 | (1u8 << 4u32))
        } else {
            Self(self.0 & !(1u8 << 4u32))
        }
    }

    pub fn reserved(&self) -> (r: u8)
        ensures
            r == ((self@ >> 5u32) & 0x7),
    {
        ((self.0 >> 5u32) & 0x7)
    }

    /// The value with `reserved` set to `value`, which must fit in 3 bits.
    pub fn with_reserved(self, value: u8) -> (r: Self)
        requires
            value <= 0x7,
        ensures
            r@ == ((self@ & !(0x7u8 << 5u32)) | ((value) << 5u32)),
    {
        Self((self.0 & !(0x7u8 << 5u32)) | ((value) << 5u32))
    }
}

/// Extended BIOS ROM Size (Type 0, offset 0x18) - 2 bytes
#[derive(Debug, Clone, Copy)]
pub struct ExtendedBiosRomSize(u16);

impl View for ExtendedBiosRomSize {
    type V = u16;

    closed spec fn view(&self) -> u16 {
        self.0
    }
}

impl ExtendedBiosRomSize {
    /// A value with every bit clear.
    pub fn new() -> (r: Self)
        ensures
            r@ == 0,
    {
        Self(0)
    }

    /// The value whose bits are `bits`.
    pub fn from_bits(bits: u16) -> (r: Self)
        ensures
            r@ == bits,
    {
        Self(bits)
    }

    /// The bits of the value.
    pub fn into_bits(self) -> (r: u16)
        ensures
            r == self@,
    {
        self.0
    }

    pub fn size(&self) -> (r: u16)
        ensures
            r == ((self@ >> 0u32) & 0x3fff),
    {
        ((self.0 >> 0u32) & 0x3fff)
    }

    /// The value with `size` set to `value`, which must fit in 14 bits.
    pub fn with_size(self, value: u16) -> (r: Self)
        requires
            value <= 0x3fff,
        ensures
            r@ == ((self@ & !(0x3fffu16 << 0u32)) | ((value) << 0u32)),
    {
        Self((self.0 & !(0x3fffu16 << 0u32)) | ((value) << 0u32))
    }

    pub fn unit(&self) -> (r: u8)
        ensures
            r == ((self@ >> 14u32) & 0x3) as u8,
    {
        ((self.0 >> 14u32) & 0x3) as u8
    }

    /// The value with `unit` set to `value`, which must fit in 2 bits.
    pub fn with_unit(self, value: u8) -> (r: Self)
        requires
            value <= 0x3,
        ensures
            r@ == ((self@ & !(0x3u16 << 14u32)) | ((value as u16) << 14u32)),
    {
        Self((self.0 & !(0x3u16 << 14u32)) | ((value as u16) << 14u32))
    }
}

/// Wake-Up Type (Type 1, offset 0x18)
#[derive(Copy, Clone, Debug)]
pub enum WakeUpType {
    Reserved,
    Other,
    Unknown,
    ApmTimer,
    ModemRing,
    LanRemote,
    PowerSwitch,
    PciPme,
    AcPowerRestored,
}

impl WakeUpType {
    /// The number of the variant in the SMBIOS specification.
    pub open spec fn spec_value(&self) -> u8 {
        match self {
            WakeUpType::Reserved => 0,
            WakeUpType::Other => 1,
            WakeUpType::Unknown => 2,
            WakeUpType::ApmTimer => 3,
            WakeUpType::ModemRing => 4,
            WakeUpType::LanRemote => 5,
            WakeUpType::PowerSwitch => 6,
            WakeUpType::PciPme => 7,
            WakeUpType::AcPowerRestored => 8,
        }
    }

    /// The number of the variant in the SMBIOS specification.
    pub fn value(&self) -> (r: u8)
        ensures
            r == self.spec_value(),
    {
        match self {
            WakeUpType::Reserved => 0,
            WakeUpType::Other => 1,
            WakeUpType::Unknown => 2,
            WakeUpType::ApmTimer => 3,
            WakeUpType::ModemRing => 4,
            WakeUpType::LanRemote => 5,
            WakeUpType::PowerSwitch => 6,
            WakeUpType::PciPme => 7,
            WakeUpType::AcPowerRestored => 8,
        }
    }
}

/// Baseboard Feature Flags (Type 2, offset 0x09)
#[derive(Debug, Clone, Copy)]
pub struct FeatureFlags(u8);

impl View for FeatureFlags {
    type V = u8;

    closed spec fn view(&self) -> u8 {
        self.0
    }
}

impl FeatureFlags {
    /// A value with every bit clear.
    pub fn new() -> (r: Self)
        ensures
            r@ == 0,
    {
        Self(0)
    }

    /// The value whose bits are `bits`.
    pub fn from_bits(bits: u8) -> (r: Self)
        ensures
            r@ == bits,
    {
        Self(bits)
    }

    /// The bits of the value.
    pub fn into_bits(self) -> (r: u8)
        ensures
            r == self@,
    {
        self.0
    }

    pub fn hosting_board(&self) -> (r: bool)
        ensures
            r == ((self@ >> 0u32) & 1 == 1),
    {
        (self.0 >> 0u32) & 1 == 1
    }

    /// The value with `hosting_board` set to `value`.
    pub fn with_hosting_board(self, value: bool) -> (r: Self)
        ensures
            r@ == (if value { self@ | (1u8 << 0u32) } else { self@ & !(1u8 << 0u32) }),
    {
        if value {
            Self(self.0 | (1u8 << 0u32))
        } else {
            Self(self.0 & !(1u8 << 0u32))
        }
    }

    pub fn require_aux_board(&self) -> (r: bool)
        ensures
            r == ((self@ >> 1u32) & 1 == 1),
    {
        (self.0 >> 1u32) & 1 == 1
    }

    /// The value with `require_aux_board` set to `value`.
    pub fn with_require_aux_board(self, value: bool) -> (r: Self)
        ensures
            r@ == (if value { self@ | (1u8 << 1u32) } else { self@ & !(1u8 << 1u32) }),
    {
        if value {
            Self(self.0 | (1u8 << 1u32))
        } else {
            Self(self.0 & !(1u8 << 1u32))
        }
    }

    pub fn removable_board(&self) -> (r: bool)
        ensures
            r == ((self@ >> 2u32) & 1 == 1),
    {
        (self.0 >> 2u32) & 1 == 1
    }

    /// The value with `removable_board` set to `value`.
    pub fn with_removable_board(self, value: bool) -> (r: Self)
        ensures
            r@ == (if value { self@ | (1u8 << 2u32) } else { self@ & !(1u8 << 2u32) }),
    {
        if value {
            Self(self.0 | (1u8 << 2u32))
        } else {
            Self(self.0 & !(1u8 << 2u32))
        }
    }

    pub fn replaceable_board(&self) -> (r: bool)
        ensures
            r == ((self@ >> 3u32) & 1 == 1),
    {
        (self.0 >> 3u32) & 1 == 1
    }

    /// The value with `replaceable_board` set to `value`.
    pub fn with_replaceable_board(self, value: bool) -> (r: Self)
        ensures
            r@ == (if value { self@ | (1u8 << 3u32) } else { self@ & !(1u8 << 3u32) }),
    {
        if value {
            Self(self.0 | (1u8 << 3u32))
        } else {
            Self(self.0 & !(1u8 << 3u32))
        }
    }

    pub fn hot_swappable_board(&self) -> (r: bool)
        ensures
            r == ((self@ >> 4u32) & 1 == 1),
    {
        (self.0 >> 4u32) & 1 == 1
    }

    /// The value with `hot_swappable_board` set to `value`.
    pub fn with_hot_swappable_board(self, value: bool) -> (r: Self)
        ensures
            r@ == (if value { self@ | (1u8 << 4u32) } else { self@ & !(1u8 << 4u32) }),
    {
        if value {
            Self(self.0 | (1u8 << 4u32))
        } else {
            Self(self.0 & !(1u8 << 4u32))
        }
    }

    pub fn reserved(&self) -> (r: u8)
        ensures
            r == ((self@ >> 5u32) & 0x7),
    {
        ((self.0 >> 5u32) & 0x7)
    }

    /// The value with `reserved` set to `value`, which must fit in 3 bits.
    pub fn with_reserved(self, value: u8) -> (r: Self)
        requires
            value <= 0x7,
        ensures
            r@ == ((self@ & !(0x7u8 << 5u32)) | ((value) << 5u32)),
    {
        Self((self.0 & !(0x7u8 << 5u32)) | ((value) << 5u32))
    }
}

/// Baseboard Type (Type 2, offset 0x0D)
#[derive(Copy, Clone, Debug)]
pub enum BoardType {
    Unknown,
    Other,
    ServerBlade,
    ConnectivitySwitch,
    SystemManagementModule,
    ProcessorModule,
    IoModule,
    MemoryModule,
    DaughterBoard,
    Motherboard,
    ProcessorMemoryModule,
    ProcessorIoModule,
    InterconnectBoard,
}

impl BoardType {
    /// The number of the variant in the SMBIOS specification.
    pub open spec fn spec_value(&self) -> u8 {
        match self {
            BoardType::Unknown => 1,
            BoardType::Other => 2,
            BoardType::ServerBlade => 3,
            BoardType::ConnectivitySwitch => 4,
            BoardType::SystemManagementModule => 5,
            BoardType::ProcessorModule => 6,
            BoardType::IoModule => 7,
            BoardType::MemoryModule => 8,
            BoardType::DaughterBoard => 9,
            BoardType::Motherboard => 0xa,
            BoardType::ProcessorMemoryModule => 0xb,
            BoardType::ProcessorIoModule => 0xc,
            BoardType::InterconnectBoard => 0xd,
        }
    }

    /// The number of the variant in the SMBIOS specification.
    pub fn value(&self) -> (r: u8)
        ensures
            r == self.spec_value(),
    {
        match self {
            BoardType::Unknown => 1,
            BoardType::Other => 2,
            BoardType::ServerBlade => 3,
            BoardType::ConnectivitySwitch => 4,
            BoardType::SystemManagementModule => 5,
            BoardType::ProcessorModule => 6,
            BoardType::IoModule => 7,
            BoardType::MemoryModule => 8,
            BoardType::DaughterBoard => 9,
            BoardType::Motherboard => 0xa,
            BoardType::ProcessorMemoryModule => 0xb,
            BoardType::ProcessorIoModule => 0xc,
            BoardType::InterconnectBoard => 0xd,
        }
    }
}

/// System Enclosure Boot-Up State (Type 3, offset 0x09).
///
/// Per SMBIOS spec Table 17 (System — Boot Up State).
#[derive(Copy, Clone, Debug)]
pub enum BootUpState {
    Other,
    Unknown,
    Safe,
    Warning,
    Critical,
    NonRecoverable,
}

impl BootUpState {
    /// The number of the variant in the SMBIOS specification.
    pub open spec fn spec_value(&self) -> u8 {
        match self {
            BootUpState::Other => 1,
            BootUpState::Unknown => 2,
            BootUpState::Safe => 3,
            BootUpState::Warning => 4,
            BootUpState::Critical => 5,
            BootUpState::NonRecoverable => 6,
        }
    }

    /// The number of the variant in the SMBIOS specification.
    pub fn value(&self) -> (r: u8)
        ensures
            r == self.spec_value(),
    {
        match self {
            BootUpState::Other => 1,
            BootUpState::Unknown => 2,
            BootUpState::Safe => 3,
            BootUpState::Warning => 4,
            BootUpState::Critical => 5,
            BootUpState::NonRecoverable => 6,
        }
    }
}

/// System Enclosure Power Supply State (Type 3, offset 0x0A).
///
/// Per SMBIOS spec Table 17 (Power Supply State).
#[derive(Copy, Clone, Debug)]
pub enum PowerSupplyState {
    Other,
    Unknown,
    Safe,
    Warning,
    Critical,
    NonRecoverable,
}

impl PowerSupplyState {
    /// The number of the variant in the SMBIOS specification.
    pub open spec fn spec_value(&self) -> u8 {
        match self {
            PowerSupplyState::Other => 1,
            PowerSupplyState::Unknown => 2,
            PowerSupplyState::Safe => 3,
            PowerSupplyState::Warning => 4,
            PowerSupplyState::Critical => 5,
            PowerSupplyState::NonRecoverable => 6,
        }
    }

    /// The number of the variant in the SMBIOS specification.
    pub fn value(&self) -> (r: u8)
        ensures
            r == self.spec_value(),
    {
        match self {
            PowerSupplyState::Other => 1,
            PowerSupplyState::Unknown => 2,
            PowerSupplyState::Safe => 3,
            PowerSupplyState::Warning => 4,
            PowerSupplyState::Critical => 5,
            PowerSupplyState::NonRecoverable => 6,
        }
    }
}

/// System Enclosure Thermal State (Type 3, offset 0x0B)
#[derive(Copy, Clone, Debug)]
pub enum ThermalState {
    Other,
    Unknown,
    Safe,
    Warning,
    Critical,
    NonRecoverable,
}

impl ThermalState {
    /// The number of the variant in the SMBIOS specification.
    pub open spec fn spec_value(&self) -> u8 {
        match self {
            ThermalState::Other => 1,
            ThermalState::Unknown => 2,
            ThermalState::Safe => 3,
            ThermalState::Warning => 4,
            ThermalState::Critical => 5,
            ThermalState::NonRecoverable => 6,
        }
    }

    /// The number of the variant in the SMBIOS specification.
    pub fn value(&self) -> (r: u8)
        ensures
            r == self.spec_value(),
    {
        match self {
            ThermalState::Other => 1,
            ThermalState::Unknown => 2,
            ThermalState::Safe => 3,
            ThermalState::Warning => 4,
            ThermalState::Critical => 5,
            ThermalState::NonRecoverable => 6,
        }
    }
}

/// System Enclosure Security Status (Type 3, offset 0x0C).
///
/// `NoneStatus` is named to avoid the reserved `None` keyword.
#[derive(Copy, Clone, Debug)]
pub enum SecurityStatus {
    Other,
    Unknown,
    NoneStatus,
    ExternalInterfaceLockedOut,
    ExternalInterfaceEnabled,
}

impl SecurityStatus {
    /// The number of the variant in the SMBIOS specification.
    pub open spec fn spec_value(&self) -> u8 {
        match self {
            SecurityStatus::Other => 1,
            SecurityStatus::Unknown => 2,
            SecurityStatus::NoneStatus => 3,
            SecurityStatus::ExternalInterfaceLockedOut => 4,
            SecurityStatus::ExternalInterfaceEnabled => 5,
        }
    }

    /// The number of the variant in the SMBIOS specification.
    pub fn value(&self) -> (r: u8)
        ensures
            r == self.spec_value(),
    {
        match self {
            SecurityStatus::Other => 1,
            SecurityStatus::Unknown => 2,
            SecurityStatus::NoneStatus => 3,
            SecurityStatus::ExternalInterfaceLockedOut => 4,
            SecurityStatus::ExternalInterfaceEnabled => 5,
        }
    }
}

/// Contained Element Type (Type 3 element record, byte 0)
#[derive(Debug, Clone, Copy)]
pub struct ContainedElementType(u8);

impl View for ContainedElementType {
    type V = u8;

    closed spec fn view(&self) -> u8 {
        self.0
    }
}

impl ContainedElementType {
    /// A value with every bit clear.
    pub fn new() -> (r: Self)
        ensures
            r@ == 0,
    {
        Self(0)
    }

    /// The value whose bits are `bits`.
    pub fn from_bits(bits: u8) -> (r: Self)
        ensures
            r@ == bits,
    {
        Self(bits)
    }

    /// The bits of the value.
    pub fn into_bits(self) -> (r: u8)
        ensures
            r == self@,
    {
        self.0
    }

    pub fn element_type(&self) -> (r: u8)
        ensures
            r == ((self@ >> 0u32) & 0x7f),
    {
        ((self.0 >> 0u32) & 0x7f)
    }

    /// The value with `element_type` set to `value`, which must fit in 7 bits.
    pub fn with_element_type(self, value: u8) -> (r: Self)
        requires
            value <= 0x7f,
        ensures
            r@ == ((self@ & !(0x7fu8 << 0u32)) | ((value) << 0u32)),
    {
        Self((self.0 & !(0x7fu8 << 0u32)) | ((value) << 0u32))
    }

    pub fn type_select(&self) -> (r: bool)
        ensures
            r == ((self@ >> 7u32) & 1 == 1),
    {
        (self.0 >> 7u32) & 1 == 1
    }

    /// The value with `type_select` set to `value`.
    pub fn with_type_select(self, value: bool) -> (r: Self)
        ensures
            r@ == (if value { self@ | (1u8 << 7u32) } else { self@ & !(1u8 << 7u32) }),
    {
        if value {
            Self(self.0 | (1u8 << 7u32))
        } else {
            Self(self.0 & !(1u8 << 7u32))
        }
    }
}

/// Contained Element (Type 3 element record - 3 bytes)
#[derive(Copy, Clone, Debug)]
pub struct ContainedElements {
    pub contained_element_type: ContainedElementType,
    pub contained_element_minimum: u8,
    pub contained_element_maximum: u8,
}

impl Default for ContainedElements {
    fn default() -> (r: Self)
        ensures
            r.contained_element_type@ == 0,
            r.contained_element_minimum == 0,
            r.contained_element_maximum == 0,
    {
        Self {
            contained_element_type: ContainedElementType::new(),
            contained_element_minimum: 0,
            contained_element_maximum: 0,
        }
    }
}

/// Processor Type (Type 4, offset 0x05)
#[derive(Copy, Clone, Debug)]
pub enum ProcessorTypeData {
    ProcessorOther,
    ProcessorUnknown,
    CentralProcessor,
    MathProcessor,
    DspProcessor,
    VideoProcessor,
}

impl ProcessorTypeData {
    /// The number of the variant in the SMBIOS specification.
    pub open spec fn spec_value(&self) -> u8 {
        match self {
            ProcessorTypeData::ProcessorOther => 1,
            ProcessorTypeData::ProcessorUnknown => 2,
            ProcessorTypeData::CentralProcessor => 3,
            ProcessorTypeData::MathProcessor => 4,
            ProcessorTypeData::DspProcessor => 5,
            ProcessorTypeData::VideoProcessor => 6,
        }
    }

    /// The number of the variant in the SMBIOS specification.
    pub fn value(&self) -> (r: u8)
        ensures
            r == self.spec_value(),
    {
        match self {
            ProcessorTypeData::ProcessorOther => 1,
            ProcessorTypeData::ProcessorUnknown => 2,
            ProcessorTypeData::CentralProcessor => 3,
            ProcessorTypeData::MathProcessor => 4,
            ProcessorTypeData::DspProcessor => 5,
            ProcessorTypeData::VideoProcessor => 6,
        }
    }
}

/// Processor Family / Family 2 (Type 4, offset 0x06 BYTE / 0x28 WORD).
///
/// Tagged `#[repr(u16)]` to cover the full SMBIOS extended family list.
/// The 1-byte `processor_family` field on `Type4ProcessorInformation` is a
/// raw `u8`; set it to `0xFE` (IndicatorFamily2) when using the extended
/// `processor_family2` field for values >= 0x100.
#[derive(Copy, Clone, Debug)]
pub enum ProcessorFamilyData {
    Other,
    Unknown,
    Processor8086,
    Processor80286,
    Intel386,
    Intel486,
    Processor8087,
    Processor80287,
    Processor80387,
    Processor80487,
    Pentium,
    PentiumPro,
    PentiumII,
    PentiumMMX,
    Celeron,
    PentiumIIXeon,
    PentiumIII,
    M1Family,
    M2Family,
    IntelCeleronM,
    IntelPentium4Ht,
    IntelProcessor,
    AmdDuron,
    K5Family,
    K6Family,
    K6_2,
    K6_3,
    AmdAthlon,
    Amd29000,
    K6_2Plus,
    PowerPC,
    PowerPC601,
    PowerPC603,
    PowerPC603Plus,
    PowerPC604,
    PowerPC620,
    PowerPCx704,
    PowerPC750,
    IntelCoreDuo,
    IntelCoreDuoMobile,
    IntelCoreSoloMobile,
    IntelAtom,
    IntelCoreM,
    IntelCorem3,
    IntelCorem5,
    IntelCorem7,
    Alpha,
    Alpha21064,
    Alpha21066,
    Alpha21164,
    Alpha21164PC,
    Alpha21164a,
    Alpha21264,
    Alpha21364,
    AmdTurionIIUltraDualCoreMobileM,
    AmdTurionIIDualCoreMobileM,
    AmdAthlonIIDualCoreM,
    AmdOpteron6100Series,
    AmdOpteron4100Series,
    AmdOpteron6200Series,
    AmdOpteron4200Series,
    AmdFxSeries,
    MipsFamily,
    MipsR4000,
    MipsR4200,
    MipsR4400,
    MipsR4600,
    MipsR10000,
    AmdCSeries,
    AmdESeries,
    AmdASeries,
    AmdGSeries,
    AmdZSeries,
    AmdRSeries,
    AmdOpteron4300,
    AmdOpteron6300,
    AmdOpteron3300,
    AmdFireProSeries,
    Sparc,
    SuperSparc,
    MicroSparcII,
    MicroSparcIIep,
    UltraSparc,
    UltraSparcII,
    UltraSparcIii,
    UltraSparcIII,
    UltraSparcIIIi,
    Processor68040,
    Processor68xxx,
    Processor68000,
    Processor68010,
    Processor68020,
    Processor68030,
    AmdAthlonX4QuadCore,
    AmdOpteronX1000Series,
    AmdOpteronX2000Series,
    AmdOpteronASeries,
    AmdOpteronX3000Series,
    AmdZen,
    HobbitFamily,
    CrusoeTM5000,
    CrusoeTM3000,
    EfficeonTM8000,
    Weitek,
    Itanium,
    AmdAthlon64,
    AmdOpteron,
    AmdSempron,
    AmdTurion64Mobile,
    DualCoreAmdOpteron,
    AmdAthlon64X2DualCore,
    AmdTurion64X2Mobile,
    QuadCoreAmdOpteron,
    ThirdGenerationAmdOpteron,
    AmdPhenomFxQuadCore,
    AmdPhenomX4QuadCore,
    AmdPhenomX2DualCore,
    AmdAthlonX2DualCore,
    Parisc,
    PaRisc8500,
    PaRisc8000,
    PaRisc7300LC,
    PaRisc7200,
    PaRisc7100LC,
    PaRisc7100,
    V30Family,
    QuadCoreIntelXeon3200Series,
    DualCoreIntelXeon3000Series,
    QuadCoreIntelXeon5300Series,
    DualCoreIntelXeon5100Series,
    DualCoreIntelXeon5000Series,
    DualCoreIntelXeonLV,
    DualCoreIntelXeonULV,
    DualCoreIntelXeon7100Series,
    QuadCoreIntelXeon5400Series,
    QuadCoreIntelXeon,
    DualCoreIntelXeon5200Series,
    DualCoreIntelXeon7200Series,
    QuadCoreIntelXeon7300Series,
    QuadCoreIntelXeon7400Series,
    MultiCoreIntelXeon7400Series,
    PentiumIIIXeon,
    PentiumIIISpeedStep,
    Pentium4,
    IntelXeon,
    As400,
    IntelXeonMP,
    AMDAthlonXP,
    AMDAthlonMP,
    IntelItanium2,
    IntelPentiumM,
    IntelCeleronD,
    IntelPentiumD,
    IntelPentiumEx,
    IntelCoreSolo,
    Reserved,
    IntelCore2,
    IntelCore2Solo,
    IntelCore2Extreme,
    IntelCore2Quad,
    IntelCore2ExtremeMobile,
    IntelCore2DuoMobile,
    IntelCore2SoloMobile,
    IntelCoreI7,
    DualCoreIntelCeleron,
    Ibm390,
    G4,
    G5,
    EsaG6,
    ZArchitecture,
    IntelCoreI5,
    IntelCoreI3,
    IntelCoreI9,
    IntelXeonD,
    ViaC7M,
    ViaC7D,
    ViaC7,
    ViaEden,
    MultiCoreIntelXeon,
    DualCoreIntelXeon3Series,
    QuadCoreIntelXeon3Series,
    ViaNano,
    DualCoreIntelXeon5Series,
    QuadCoreIntelXeon5Series,
    DualCoreIntelXeon7Series,
    QuadCoreIntelXeon7Series,
    MultiCoreIntelXeon7Series,
    MultiCoreIntelXeon3400Series,
    AmdOpteron3000Series,
    AmdSempronII,
    EmbeddedAmdOpteronQuadCore,
    AmdPhenomTripleCore,
    AmdTurionUltraDualCoreMobile,
    AmdTurionDualCoreMobile,
    AmdAthlonDualCore,
    AmdSempronSI,
    AmdPhenomII,
    AmdAthlonII,
    SixCoreAmdOpteron,
    AmdSempronM,
    I860,
    I960,
    /// Use this u8 marker (0xFE) in `processor_family` to indicate that the
    /// real value is in `processor_family2`.
    IndicatorFamily2,
    Reserved1,
    ARMv7,
    ARMv8,
    ARMv9,
    Sh3,
    Sh4,
    Arm,
    StrongARM,
    Processor6x86,
    MediaGX,
    Mii,
    WinChip,
    Dsp,
    VideoProcessor,
    RiscvRV32,
    RiscVRV64,
    RiscVRV128,
    LoongArch,
    Loongson1,
    Loongson2,
    Loongson3,
    Loongson2K,
    Loongson3A,
    Loongson3B,
    Loongson3C,
    Loongson3D,
    Loongson3E,
    DualCoreLoongson2K,
    QuadCoreLoongson3A,
    MultiCoreLoongson3A,
    QuadCoreLoongson3B,
    MultiCoreLoongson3B,
    MultiCoreLoongson3C,
    MultiCoreLoongson3D,
    IntelCore3,
    IntelCore5,
    IntelCore7,
    IntelCore9,
    IntelCoreUltra3,
    IntelCoreUltra5,
    IntelCoreUltra7,
    IntelCoreUltra9,
}

impl ProcessorFamilyData {
    /// The number of the variant in the SMBIOS specification.
    pub open spec fn spec_value(&self) -> u16 {
        match self {
            ProcessorFamilyData::Other => 1,
            ProcessorFamilyData::Unknown => 2,
            ProcessorFamilyData::Processor8086 => 3,
            ProcessorFamilyData::Processor80286 => 4,
            ProcessorFamilyData::Intel386 => 5,
            ProcessorFamilyData::Intel486 => 6,
            ProcessorFamilyData::Processor8087 => 7,
            ProcessorFamilyData::Processor80287 => 8,
            ProcessorFamilyData::Processor80387 => 9,
            ProcessorFamilyData::Processor80487 => 0xa,
            ProcessorFamilyData::Pentium => 0xb,
            ProcessorFamilyData::PentiumPro => 0xc,
            ProcessorFamilyData::PentiumII => 0xd,
            ProcessorFamilyData::PentiumMMX => 0xe,
            ProcessorFamilyData::Celeron => 0xf,
            ProcessorFamilyData::PentiumIIXeon => 0x10,
            ProcessorFamilyData::PentiumIII => 0x11,
            ProcessorFamilyData::M1Family => 0x12,
            ProcessorFamilyData::M2Family => 0x13,
            ProcessorFamilyData::IntelCeleronM => 0x14,
            ProcessorFamilyData::IntelPentium4Ht => 0x15,
            ProcessorFamilyData::IntelProcessor => 0x16,
            ProcessorFamilyData::AmdDuron => 0x18,
            ProcessorFamilyData::K5Family => 0x19,
            ProcessorFamilyData::K6Family => 0x1a,
            ProcessorFamilyData::K6_2 => 0x1b,
            ProcessorFamilyData::K6_3 => 0x1c,
            ProcessorFamilyData::AmdAthlon => 0x1d,
            ProcessorFamilyData::Amd29000 => 0x1e,
            ProcessorFamilyData::K6_2Plus => 0x1f,
            ProcessorFamilyData::PowerPC => 0x20,
            ProcessorFamilyData::PowerPC601 => 0x21,
            ProcessorFamilyData::PowerPC603 => 0x22,
            ProcessorFamilyData::PowerPC603Plus => 0x23,
            ProcessorFamilyData::PowerPC604 => 0x24,
            ProcessorFamilyData::PowerPC620 => 0x25,
            ProcessorFamilyData::PowerPCx704 => 0x26,
            ProcessorFamilyData::PowerPC750 => 0x27,
            ProcessorFamilyData::IntelCoreDuo => 0x28,
            ProcessorFamilyData::IntelCoreDuoMobile => 0x29,
            ProcessorFamilyData::IntelCoreSoloMobile => 0x2a,
            ProcessorFamilyData::IntelAtom => 0x2b,
            ProcessorFamilyData::IntelCoreM => 0x2c,
            ProcessorFamilyData::IntelCorem3 => 0x2d,
            ProcessorFamilyData::IntelCorem5 => 0x2e,
            ProcessorFamilyData::IntelCorem7 => 0x2f,
            ProcessorFamilyData::Alpha => 0x30,
            ProcessorFamilyData::Alpha21064 => 0x31,
            ProcessorFamilyData::Alpha21066 => 0x32,
            ProcessorFamilyData::Alpha21164 => 0x33,
            ProcessorFamilyData::Alpha21164PC => 0x34,
            ProcessorFamilyData::Alpha21164a => 0x35,
            ProcessorFamilyData::Alpha21264 => 0x36,
            ProcessorFamilyData::Alpha21364 => 0x37,
            ProcessorFamilyData::AmdTurionIIUltraDualCoreMobileM => 0x38,
            ProcessorFamilyData::AmdTurionIIDualCoreMobileM => 0x39,
            ProcessorFamilyData::AmdAthlonIIDualCoreM => 0x3a,
            ProcessorFamilyData::AmdOpteron6100Series => 0x3b,
            ProcessorFamilyData::AmdOpteron4100Series => 0x3c,
            ProcessorFamilyData::AmdOpteron6200Series => 0x3d,
            ProcessorFamilyData::AmdOpteron4200Series => 0x3e,
            ProcessorFamilyData::AmdFxSeries => 0x3f,
            ProcessorFamilyData::MipsFamily => 0x40,
            ProcessorFamilyData::MipsR4000 => 0x41,
            ProcessorFamilyData::MipsR4200 => 0x42,
            ProcessorFamilyData::MipsR4400 => 0x43,
            ProcessorFamilyData::MipsR4600 => 0x44,
            ProcessorFamilyData::MipsR10000 => 0x45,
            ProcessorFamilyData::AmdCSeries => 0x46,
            ProcessorFamilyData::AmdESeries => 0x47,
            ProcessorFamilyData::AmdASeries => 0x48,
            ProcessorFamilyData::AmdGSeries => 0x49,
            ProcessorFamilyData::AmdZSeries => 0x4a,
            ProcessorFamilyData::AmdRSeries => 0x4b,
            ProcessorFamilyData::AmdOpteron4300 => 0x4c,
            ProcessorFamilyData::AmdOpteron6300 => 0x4d,
            ProcessorFamilyData::AmdOpteron3300 => 0x4e,
            ProcessorFamilyData::AmdFireProSeries => 0x4f,
            ProcessorFamilyData::Sparc => 0x50,
            ProcessorFamilyData::SuperSparc => 0x51,
            ProcessorFamilyData::MicroSparcII => 0x52,
            ProcessorFamilyData::MicroSparcIIep => 0x53,
            ProcessorFamilyData::UltraSparc => 0x54,
            ProcessorFamilyData::UltraSparcII => 0x55,
            ProcessorFamilyData::UltraSparcIii => 0x56,
            ProcessorFamilyData::UltraSparcIII => 0x57,
            ProcessorFamilyData::UltraSparcIIIi => 0x58,
            ProcessorFamilyData::Processor68040 => 0x60,
            ProcessorFamilyData::Processor68xxx => 0x61,
            ProcessorFamilyData::Processor68000 => 0x62,
            ProcessorFamilyData::Processor68010 => 0x63,
            ProcessorFamilyData::Processor68020 => 0x64,
            ProcessorFamilyData::Processor68030 => 0x65,
            ProcessorFamilyData::AmdAthlonX4QuadCore => 0x66,
            ProcessorFamilyData::AmdOpteronX1000Series => 0x67,
            ProcessorFamilyData::AmdOpteronX2000Series => 0x68,
            ProcessorFamilyData::AmdOpteronASeries => 0x69,
            ProcessorFamilyData::AmdOpteronX3000Series => 0x6a,
            ProcessorFamilyData::AmdZen => 0x6b,
            ProcessorFamilyData::HobbitFamily => 0x70,
            ProcessorFamilyData::CrusoeTM5000 => 0x78,
            ProcessorFamilyData::CrusoeTM3000 => 0x79,
            ProcessorFamilyData::EfficeonTM8000 => 0x7a,
            ProcessorFamilyData::Weitek => 0x80,
            ProcessorFamilyData::Itanium => 0x82,
            ProcessorFamilyData::AmdAthlon64 => 0x83,
            ProcessorFamilyData::AmdOpteron => 0x84,
            ProcessorFamilyData::AmdSempron => 0x85,
            ProcessorFamilyData::AmdTurion64Mobile => 0x86,
            ProcessorFamilyData::DualCoreAmdOpteron => 0x87,
            ProcessorFamilyData::AmdAthlon64X2DualCore => 0x88,
            ProcessorFamilyData::AmdTurion64X2Mobile => 0x89,
            ProcessorFamilyData::QuadCoreAmdOpteron => 0x8a,
            ProcessorFamilyData::ThirdGenerationAmdOpteron => 0x8b,
            ProcessorFamilyData::AmdPhenomFxQuadCore => 0x8c,
            ProcessorFamilyData::AmdPhenomX4QuadCore => 0x8d,
            ProcessorFamilyData::AmdPhenomX2DualCore => 0x8e,
            ProcessorFamilyData::AmdAthlonX2DualCore => 0x8f,
            ProcessorFamilyData::Parisc => 0x90,
            ProcessorFamilyData::PaRisc8500 => 0x91,
            ProcessorFamilyData::PaRisc8000 => 0x92,
            ProcessorFamilyData::PaRisc7300LC => 0x93,
            ProcessorFamilyData::PaRisc7200 => 0x94,
            ProcessorFamilyData::PaRisc7100LC => 0x95,
            ProcessorFamilyData::PaRisc7100 => 0x96,
            ProcessorFamilyData::V30Family => 0xa0,
            ProcessorFamilyData::QuadCoreIntelXeon3200Series => 0xa1,
            ProcessorFamilyData::DualCoreIntelXeon3000Series => 0xa2,
            ProcessorFamilyData::QuadCoreIntelXeon5300Series => 0xa3,
            ProcessorFamilyData::DualCoreIntelXeon5100Series => 0xa4,
            ProcessorFamilyData::DualCoreIntelXeon5000Series => 0xa5,
            ProcessorFamilyData::DualCoreIntelXeonLV => 0xa6,
            ProcessorFamilyData::DualCoreIntelXeonULV => 0xa7,
            ProcessorFamilyData::DualCoreIntelXeon7100Series => 0xa8,
            ProcessorFamilyData::QuadCoreIntelXeon5400Series => 0xa9,
            ProcessorFamilyData::QuadCoreIntelXeon => 0xaa,
            ProcessorFamilyData::DualCoreIntelXeon5200Series => 0xab,
            ProcessorFamilyData::DualCoreIntelXeon7200Series => 0xac,
            ProcessorFamilyData::QuadCoreIntelXeon7300Series => 0xad,
            ProcessorFamilyData::QuadCoreIntelXeon7400Series => 0xae,
            ProcessorFamilyData::MultiCoreIntelXeon7400Series => 0xaf,
            ProcessorFamilyData::PentiumIIIXeon => 0xb0,
            ProcessorFamilyData::PentiumIIISpeedStep => 0xb1,
            ProcessorFamilyData::Pentium4 => 0xb2,
            ProcessorFamilyData::IntelXeon => 0xb3,
            ProcessorFamilyData::As400 => 0xb4,
            ProcessorFamilyData::IntelXeonMP => 0xb5,
            ProcessorFamilyData::AMDAthlonXP => 0xb6,
            ProcessorFamilyData::AMDAthlonMP => 0xb7,
            ProcessorFamilyData::IntelItanium2 => 0xb8,
            ProcessorFamilyData::IntelPentiumM => 0xb9,
            ProcessorFamilyData::IntelCeleronD => 0xba,
            ProcessorFamilyData::IntelPentiumD => 0xbb,
            ProcessorFamilyData::IntelPentiumEx => 0xbc,
            ProcessorFamilyData::IntelCoreSolo => 0xbd,
            ProcessorFamilyData::Reserved => 0xbe,
            ProcessorFamilyData::IntelCore2 => 0xbf,
            ProcessorFamilyData::IntelCore2Solo => 0xc0,
            ProcessorFamilyData::IntelCore2Extreme => 0xc1,
            ProcessorFamilyData::IntelCore2Quad => 0xc2,
            ProcessorFamilyData::IntelCore2ExtremeMobile => 0xc3,
            ProcessorFamilyData::IntelCore2DuoMobile => 0xc4,
            ProcessorFamilyData::IntelCore2SoloMobile => 0xc5,
            ProcessorFamilyData::IntelCoreI7 => 0xc6,
            ProcessorFamilyData::DualCoreIntelCeleron => 0xc7,
            ProcessorFamilyData::Ibm390 => 0xc8,
            ProcessorFamilyData::G4 => 0xc9,
            ProcessorFamilyData::G5 => 0xca,
            ProcessorFamilyData::EsaG6 => 0xcb,
            ProcessorFamilyData::ZArchitecture => 0xcc,
            ProcessorFamilyData::IntelCoreI5 => 0xcd,
            ProcessorFamilyData::IntelCoreI3 => 0xce,
            ProcessorFamilyData::IntelCoreI9 => 0xcf,
            ProcessorFamilyData::IntelXeonD => 0xd0,
            ProcessorFamilyData::ViaC7M => 0xd2,
            ProcessorFamilyData::ViaC7D => 0xd3,
            ProcessorFamilyData::ViaC7 => 0xd4,
            ProcessorFamilyData::ViaEden => 0xd5,
            ProcessorFamilyData::MultiCoreIntelXeon => 0xd6,
            ProcessorFamilyData::DualCoreIntelXeon3Series => 0xd7,
            ProcessorFamilyData::QuadCoreIntelXeon3Series => 0xd8,
            ProcessorFamilyData::ViaNano => 0xd9,
            ProcessorFamilyData::DualCoreIntelXeon5Series => 0xda,
            ProcessorFamilyData::QuadCoreIntelXeon5Series => 0xdb,
            ProcessorFamilyData::DualCoreIntelXeon7Series => 0xdd,
            ProcessorFamilyData::QuadCoreIntelXeon7Series => 0xde,
            ProcessorFamilyData::MultiCoreIntelXeon7Series => 0xdf,
            ProcessorFamilyData::MultiCoreIntelXeon3400Series => 0xe0,
            ProcessorFamilyData::AmdOpteron3000Series => 0xe4,
            ProcessorFamilyData::AmdSempronII => 0xe5,
            ProcessorFamilyData::EmbeddedAmdOpteronQuadCore => 0xe6,
            ProcessorFamilyData::AmdPhenomTripleCore => 0xe7,
            ProcessorFamilyData::AmdTurionUltraDualCoreMobile => 0xe8,
            ProcessorFamilyData::AmdTurionDualCoreMobile => 0xe9,
            ProcessorFamilyData::AmdAthlonDualCore => 0xea,
            ProcessorFamilyData::AmdSempronSI => 0xeb,
            ProcessorFamilyData::AmdPhenomII => 0xec,
            ProcessorFamilyData::AmdAthlonII => 0xed,
            ProcessorFamilyData::SixCoreAmdOpteron => 0xee,
            ProcessorFamilyData::AmdSempronM => 0xef,
            ProcessorFamilyData::I860 => 0xfa,
            ProcessorFamilyData::I960 => 0xfb,
            ProcessorFamilyData::IndicatorFamily2 => 0xfe,
            ProcessorFamilyData::Reserved1 => 0xff,
            ProcessorFamilyData::ARMv7 => 0x100,
            ProcessorFamilyData::ARMv8 => 0x101,
            ProcessorFamilyData::ARMv9 => 0x102,
            ProcessorFamilyData::Sh3 => 0x103,
            ProcessorFamilyData::Sh4 => 0x104,
            ProcessorFamilyData::Arm => 0x118,
            ProcessorFamilyData::StrongARM => 0x119,
            ProcessorFamilyData::Processor6x86 => 0x12c,
            ProcessorFamilyData::MediaGX => 0x12d,
            ProcessorFamilyData::Mii => 0x12e,
            ProcessorFamilyData::WinChip => 0x140,
            ProcessorFamilyData::Dsp => 0x15e,
            ProcessorFamilyData::VideoProcessor => 0x1f4,
            ProcessorFamilyData::RiscvRV32 => 0x200,
            ProcessorFamilyData::RiscVRV64 => 0x201,
            ProcessorFamilyData::RiscVRV128 => 0x202,
            ProcessorFamilyData::LoongArch => 0x258,
            ProcessorFamilyData::Loongson1 => 0x259,
            ProcessorFamilyData::Loongson2 => 0x25a,
            ProcessorFamilyData::Loongson3 => 0x25b,
            ProcessorFamilyData::Loongson2K => 0x25c,
            ProcessorFamilyData::Loongson3A => 0x25d,
            ProcessorFamilyData::Loongson3B => 0x25e,
            ProcessorFamilyData::Loongson3C => 0x25f,
            ProcessorFamilyData::Loongson3D => 0x260,
            ProcessorFamilyData::Loongson3E => 0x261,
            ProcessorFamilyData::DualCoreLoongson2K => 0x262,
            ProcessorFamilyData::QuadCoreLoongson3A => 0x26c,
            ProcessorFamilyData::MultiCoreLoongson3A => 0x26d,
            ProcessorFamilyData::QuadCoreLoongson3B => 0x26e,
            ProcessorFamilyData::MultiCoreLoongson3B => 0x26f,
            ProcessorFamilyData::MultiCoreLoongson3C => 0x270,
            ProcessorFamilyData::MultiCoreLoongson3D => 0x271,
            ProcessorFamilyData::IntelCore3 => 0x300,
            ProcessorFamilyData::IntelCore5 => 0x301,
            ProcessorFamilyData::IntelCore7 => 0x302,
            ProcessorFamilyData::IntelCore9 => 0x303,
            ProcessorFamilyData::IntelCoreUltra3 => 0x304,
            ProcessorFamilyData::IntelCoreUltra5 => 0x305,
            ProcessorFamilyData::IntelCoreUltra7 => 0x306,
            ProcessorFamilyData::IntelCoreUltra9 => 0x307,
        }
    }

    /// The number of the variant in the SMBIOS specification.
    pub fn value(&self) -> (r: u16)
        ensures
            r == self.spec_value(),
    {
        match self {
            ProcessorFamilyData::Other => 1,
            ProcessorFamilyData::Unknown => 2,
            ProcessorFamilyData::Processor8086 => 3,
            ProcessorFamilyData::Processor80286 => 4,
            ProcessorFamilyData::Intel386 => 5,
            ProcessorFamilyData::Intel486 => 6,
            ProcessorFamilyData::Processor8087 => 7,
            ProcessorFamilyData::Processor80287 => 8,
            ProcessorFamilyData::Processor80387 => 9,
            ProcessorFamilyData::Processor80487 => 0xa,
            ProcessorFamilyData::Pentium => 0xb,
            ProcessorFamilyData::PentiumPro => 0xc,
            ProcessorFamilyData::PentiumII => 0xd,
            ProcessorFamilyData::PentiumMMX => 0xe,
            ProcessorFamilyData::Celeron => 0xf,
            ProcessorFamilyData::PentiumIIXeon => 0x10,
            ProcessorFamilyData::PentiumIII => 0x11,
            ProcessorFamilyData::M1Family => 0x12,
            ProcessorFamilyData::M2Family => 0x13,
            ProcessorFamilyData::IntelCeleronM => 0x14,
            ProcessorFamilyData::IntelPentium4Ht => 0x15,
            ProcessorFamilyData::IntelProcessor => 0x16,
            ProcessorFamilyData::AmdDuron => 0x18,
            ProcessorFamilyData::K5Family => 0x19,
            ProcessorFamilyData::K6Family => 0x1a,
            ProcessorFamilyData::K6_2 => 0x1b,
            ProcessorFamilyData::K6_3 => 0x1c,
            ProcessorFamilyData::AmdAthlon => 0x1d,
            ProcessorFamilyData::Amd29000 => 0x1e,
            ProcessorFamilyData::K6_2Plus => 0x1f,
            ProcessorFamilyData::PowerPC => 0x20,
            ProcessorFamilyData::PowerPC601 => 0x21,
            ProcessorFamilyData::PowerPC603 => 0x22,
            ProcessorFamilyData::PowerPC603Plus => 0x23,
            ProcessorFamilyData::PowerPC604 => 0x24,
            ProcessorFamilyData::PowerPC620 => 0x25,
            ProcessorFamilyData::PowerPCx704 => 0x26,
            ProcessorFamilyData::PowerPC750 => 0x27,
            ProcessorFamilyData::IntelCoreDuo => 0x28,
            ProcessorFamilyData::IntelCoreDuoMobile => 0x29,
            ProcessorFamilyData::IntelCoreSoloMobile => 0x2a,
            ProcessorFamilyData::IntelAtom => 0x2b,
            ProcessorFamilyData::IntelCoreM => 0x2c,
            ProcessorFamilyData::IntelCorem3 => 0x2d,
            ProcessorFamilyData::IntelCorem5 => 0x2e,
            ProcessorFamilyData::IntelCorem7 => 0x2f,
            ProcessorFamilyData::Alpha => 0x30,
            ProcessorFamilyData::Alpha21064 => 0x31,
            ProcessorFamilyData::Alpha21066 => 0x32,
            ProcessorFamilyData::Alpha21164 => 0x33,
            ProcessorFamilyData::Alpha21164PC => 0x34,
            ProcessorFamilyData::Alpha21164a => 0x35,
            ProcessorFamilyData::Alpha21264 => 0x36,
            ProcessorFamilyData::Alpha21364 => 0x37,
            ProcessorFamilyData::AmdTurionIIUltraDualCoreMobileM => 0x38,
            ProcessorFamilyData::AmdTurionIIDualCoreMobileM => 0x39,
            ProcessorFamilyData::AmdAthlonIIDualCoreM => 0x3a,
            ProcessorFamilyData::AmdOpteron6100Series => 0x3b,
            ProcessorFamilyData::AmdOpteron4100Series => 0x3c,
            ProcessorFamilyData::AmdOpteron6200Series => 0x3d,
            ProcessorFamilyData::AmdOpteron4200Series => 0x3e,
            ProcessorFamilyData::AmdFxSeries => 0x3f,
            ProcessorFamilyData::MipsFamily => 0x40,
            ProcessorFamilyData::MipsR4000 => 0x41,
            ProcessorFamilyData::MipsR4200 => 0x42,
            ProcessorFamilyData::MipsR4400 => 0x43,
            ProcessorFamilyData::MipsR4600 => 0x44,
            ProcessorFamilyData::MipsR10000 => 0x45,
            ProcessorFamilyData::AmdCSeries => 0x46,
            ProcessorFamilyData::AmdESeries => 0x47,
            ProcessorFamilyData::AmdASeries => 0x48,
            ProcessorFamilyData::AmdGSeries => 0x49,
            ProcessorFamilyData::AmdZSeries => 0x4a,
            ProcessorFamilyData::AmdRSeries => 0x4b,
            ProcessorFamilyData::AmdOpteron4300 => 0x4c,
            ProcessorFamilyData::AmdOpteron6300 => 0x4d,
            ProcessorFamilyData::AmdOpteron3300 => 0x4e,
            ProcessorFamilyData::AmdFireProSeries => 0x4f,
            ProcessorFamilyData::Sparc => 0x50,
            ProcessorFamilyData::SuperSparc => 0x51,
            ProcessorFamilyData::MicroSparcII => 0x52,
            ProcessorFamilyData::MicroSparcIIep => 0x53,
            ProcessorFamilyData::UltraSparc => 0x54,
            ProcessorFamilyData::UltraSparcII => 0x55,
            ProcessorFamilyData::UltraSparcIii => 0x56,
            ProcessorFamilyData::UltraSparcIII => 0x57,
            ProcessorFamilyData::UltraSparcIIIi => 0x58,
            ProcessorFamilyData::Processor68040 => 0x60,
            ProcessorFamilyData::Processor68xxx => 0x61,
            ProcessorFamilyData::Processor68000 => 0x62,
            ProcessorFamilyData::Processor68010 => 0x63,
            ProcessorFamilyData::Processor68020 => 0x64,
            ProcessorFamilyData::Processor68030 => 0x65,
            ProcessorFamilyData::AmdAthlonX4QuadCore => 0x66,
            ProcessorFamilyData::AmdOpteronX1000Series => 0x67,
            ProcessorFamilyData::AmdOpteronX2000Series => 0x68,
            ProcessorFamilyData::AmdOpteronASeries => 0x69,
            ProcessorFamilyData::AmdOpteronX3000Series => 0x6a,
            ProcessorFamilyData::AmdZen => 0x6b,
            ProcessorFamilyData::HobbitFamily => 0x70,
            ProcessorFamilyData::CrusoeTM5000 => 0x78,
            ProcessorFamilyData::CrusoeTM3000 => 0x79,
            ProcessorFamilyData::EfficeonTM8000 => 0x7a,
            ProcessorFamilyData::Weitek => 0x80,
            ProcessorFamilyData::Itanium => 0x82,
            ProcessorFamilyData::AmdAthlon64 => 0x83,
            ProcessorFamilyData::AmdOpteron => 0x84,
            ProcessorFamilyData::AmdSempron => 0x85,
            ProcessorFamilyData::AmdTurion64Mobile => 0x86,
            ProcessorFamilyData::DualCoreAmdOpteron => 0x87,
            ProcessorFamilyData::AmdAthlon64X2DualCore => 0x88,
            ProcessorFamilyData::AmdTurion64X2Mobile => 0x89,
            ProcessorFamilyData::QuadCoreAmdOpteron => 0x8a,
            ProcessorFamilyData::ThirdGenerationAmdOpteron => 0x8b,
            ProcessorFamilyData::AmdPhenomFxQuadCore => 0x8c,
            ProcessorFamilyData::AmdPhenomX4QuadCore => 0x8d,
            ProcessorFamilyData::AmdPhenomX2DualCore => 0x8e,
            ProcessorFamilyData::AmdAthlonX2DualCore => 0x8f,
            ProcessorFamilyData::Parisc => 0x90,
            ProcessorFamilyData::PaRisc8500 => 0x91,
            ProcessorFamilyData::PaRisc8000 => 0x92,
            ProcessorFamilyData::PaRisc7300LC => 0x93,
            ProcessorFamilyData::PaRisc7200 => 0x94,
            ProcessorFamilyData::PaRisc7100LC => 0x95,
            ProcessorFamilyData::PaRisc7100 => 0x96,
            ProcessorFamilyData::V30Family => 0xa0,
            ProcessorFamilyData::QuadCoreIntelXeon3200Series => 0xa1,
            ProcessorFamilyData::DualCoreIntelXeon3000Series => 0xa2,
            ProcessorFamilyData::QuadCoreIntelXeon5300Series => 0xa3,
            ProcessorFamilyData::DualCoreIntelXeon5100Series => 0xa4,
            ProcessorFamilyData::DualCoreIntelXeon5000Series => 0xa5,
            ProcessorFamilyData::DualCoreIntelXeonLV => 0xa6,
            ProcessorFamilyData::DualCoreIntelXeonULV => 0xa7,
            ProcessorFamilyData::DualCoreIntelXeon7100Series => 0xa8,
            ProcessorFamilyData::QuadCoreIntelXeon5400Series => 0xa9,
            ProcessorFamilyData::QuadCoreIntelXeon => 0xaa,
            ProcessorFamilyData::DualCoreIntelXeon5200Series => 0xab,
            ProcessorFamilyData::DualCoreIntelXeon7200Series => 0xac,
            ProcessorFamilyData::QuadCoreIntelXeon7300Series => 0xad,
            ProcessorFamilyData::QuadCoreIntelXeon7400Series => 0xae,
            ProcessorFamilyData::MultiCoreIntelXeon7400Series => 0xaf,
            ProcessorFamilyData::PentiumIIIXeon => 0xb0,
            ProcessorFamilyData::PentiumIIISpeedStep => 0xb1,
            ProcessorFamilyData::Pentium4 => 0xb2,
            ProcessorFamilyData::IntelXeon => 0xb3,
            ProcessorFamilyData::As400 => 0xb4,
            ProcessorFamilyData::IntelXeonMP => 0xb5,
            ProcessorFamilyData::AMDAthlonXP => 0xb6,
            ProcessorFamilyData::AMDAthlonMP => 0xb7,
            ProcessorFamilyData::IntelItanium2 => 0xb8,
            ProcessorFamilyData::IntelPentiumM => 0xb9,
            ProcessorFamilyData::IntelCeleronD => 0xba,
            ProcessorFamilyData::IntelPentiumD => 0xbb,
            ProcessorFamilyData::IntelPentiumEx => 0xbc,
            ProcessorFamilyData::IntelCoreSolo => 0xbd,
            ProcessorFamilyData::Reserved => 0xbe,
            ProcessorFamilyData::IntelCore2 => 0xbf,
            ProcessorFamilyData::IntelCore2Solo => 0xc0,
            ProcessorFamilyData::IntelCore2Extreme => 0xc1,
            ProcessorFamilyData::IntelCore2Quad => 0xc2,
            ProcessorFamilyData::IntelCore2ExtremeMobile => 0xc3,
            ProcessorFamilyData::IntelCore2DuoMobile => 0xc4,
            ProcessorFamilyData::IntelCore2SoloMobile => 0xc5,
            ProcessorFamilyData::IntelCoreI7 => 0xc6,
            ProcessorFamilyData::DualCoreIntelCeleron => 0xc7,
            ProcessorFamilyData::Ibm390 => 0xc8,
            ProcessorFamilyData::G4 => 0xc9,
            ProcessorFamilyData::G5 => 0xca,
            ProcessorFamilyData::EsaG6 => 0xcb,
            ProcessorFamilyData::ZArchitecture => 0xcc,
            ProcessorFamilyData::IntelCoreI5 => 0xcd,
            ProcessorFamilyData::IntelCoreI3 => 0xce,
            ProcessorFamilyData::IntelCoreI9 => 0xcf,
            ProcessorFamilyData::IntelXeonD => 0xd0,
            ProcessorFamilyData::ViaC7M => 0xd2,
            ProcessorFamilyData::ViaC7D => 0xd3,
            ProcessorFamilyData::ViaC7 => 0xd4,
            ProcessorFamilyData::ViaEden => 0xd5,
            ProcessorFamilyData::MultiCoreIntelXeon => 0xd6,
            ProcessorFamilyData::DualCoreIntelXeon3Series => 0xd7,
            ProcessorFamilyData::QuadCoreIntelXeon3Series => 0xd8,
            ProcessorFamilyData::ViaNano => 0xd9,
            ProcessorFamilyData::DualCoreIntelXeon5Series => 0xda,
            ProcessorFamilyData::QuadCoreIntelXeon5Series => 0xdb,
            ProcessorFamilyData::DualCoreIntelXeon7Series => 0xdd,
            ProcessorFamilyData::QuadCoreIntelXeon7Series => 0xde,
            ProcessorFamilyData::MultiCoreIntelXeon7Series => 0xdf,
            ProcessorFamilyData::MultiCoreIntelXeon3400Series => 0xe0,
            ProcessorFamilyData::AmdOpteron3000Series => 0xe4,
            ProcessorFamilyData::AmdSempronII => 0xe5,
            ProcessorFamilyData::EmbeddedAmdOpteronQuadCore => 0xe6,
            ProcessorFamilyData::AmdPhenomTripleCore => 0xe7,
            ProcessorFamilyData::AmdTurionUltraDualCoreMobile => 0xe8,
            ProcessorFamilyData::AmdTurionDualCoreMobile => 0xe9,
            ProcessorFamilyData::AmdAthlonDualCore => 0xea,
            ProcessorFamilyData::AmdSempronSI => 0xeb,
            ProcessorFamilyData::AmdPhenomII => 0xec,
            ProcessorFamilyData::AmdAthlonII => 0xed,
            ProcessorFamilyData::SixCoreAmdOpteron => 0xee,
            ProcessorFamilyData::AmdSempronM => 0xef,
            ProcessorFamilyData::I860 => 0xfa,
            ProcessorFamilyData::I960 => 0xfb,
            ProcessorFamilyData::IndicatorFamily2 => 0xfe,
            ProcessorFamilyData::Reserved1 => 0xff,
            ProcessorFamilyData::ARMv7 => 0x100,
            ProcessorFamilyData::ARMv8 => 0x101,
            ProcessorFamilyData::ARMv9 => 0x102,
            ProcessorFamilyData::Sh3 => 0x103,
            ProcessorFamilyData::Sh4 => 0x104,
            ProcessorFamilyData::Arm => 0x118,
            ProcessorFamilyData::StrongARM => 0x119,
            ProcessorFamilyData::Processor6x86 => 0x12c,
            ProcessorFamilyData::MediaGX => 0x12d,
            ProcessorFamilyData::Mii => 0x12e,
            ProcessorFamilyData::WinChip => 0x140,
            ProcessorFamilyData::Dsp => 0x15e,
            ProcessorFamilyData::VideoProcessor => 0x1f4,
            ProcessorFamilyData::RiscvRV32 => 0x200,
            ProcessorFamilyData::RiscVRV64 => 0x201,
            ProcessorFamilyData::RiscVRV128 => 0x202,
            ProcessorFamilyData::LoongArch => 0x258,
            ProcessorFamilyData::Loongson1 => 0x259,
            ProcessorFamilyData::Loongson2 => 0x25a,
            ProcessorFamilyData::Loongson3 => 0x25b,
            ProcessorFamilyData::Loongson2K => 0x25c,
            ProcessorFamilyData::Loongson3A => 0x25d,
            ProcessorFamilyData::Loongson3B => 0x25e,
            ProcessorFamilyData::Loongson3C => 0x25f,
            ProcessorFamilyData::Loongson3D => 0x260,
            ProcessorFamilyData::Loongson3E => 0x261,
            ProcessorFamilyData::DualCoreLoongson2K => 0x262,
            ProcessorFamilyData::QuadCoreLoongson3A => 0x26c,
            ProcessorFamilyData::MultiCoreLoongson3A => 0x26d,
            ProcessorFamilyData::QuadCoreLoongson3B => 0x26e,
            ProcessorFamilyData::MultiCoreLoongson3B => 0x26f,
            ProcessorFamilyData::MultiCoreLoongson3C => 0x270,
            ProcessorFamilyData::MultiCoreLoongson3D => 0x271,
            ProcessorFamilyData::IntelCore3 => 0x300,
            ProcessorFamilyData::IntelCore5 => 0x301,
            ProcessorFamilyData::IntelCore7 => 0x302,
            ProcessorFamilyData::IntelCore9 => 0x303,
            ProcessorFamilyData::IntelCoreUltra3 => 0x304,
            ProcessorFamilyData::IntelCoreUltra5 => 0x305,
            ProcessorFamilyData::IntelCoreUltra7 => 0x306,
            ProcessorFamilyData::IntelCoreUltra9 => 0x307,
        }
    }
}

/// Processor Upgrade (Type 4, offset 0x19)
#[derive(Copy, Clone, Debug)]
pub enum ProcessorUpgrade {
    Other,
    Unknown,
    DaughterBoard,
    ZIFSocket,
    ReplaceablePiggyBack,
    NoUpgrade,
    LIFSocket,
    Slot1,
    Slot2,
    Pin370Socket,
    SlotA,
    SlotM,
    Socket423,
    SocketA,
    Socket478,
    Socket754,
    Socket940,
    Socket939,
    SocketmPGA604,
    SocketLGA771,
    SocketLGA775,
    SocketS1,
    SocketAM2,
    SocketF1207,
    SocketLGA1366,
    SocketG34,
    SocketAM3,
    SocketC32,
    SocketLGA1156,
    SocketLGA1567,
    SocketPGA988A,
    SocketBGA1288,
    SocketrPGA988B,
    SocketBGA1023,
    SocketBGA1224,
    SocketLGA1155,
    SocketLGA1356,
    SocketLGA2011,
    SocketFS1,
    SocketFS2,
    SocketFM1,
    SocketFM2,
    SocketLGA2011_3,
    SocketLGA1356_3,
    SocketLGA1150,
    SocketBGA1168,
    SocketBGA1234,
    SocketBGA1364,
    SocketAM4,
    SocketLGA1151,
    SocketBGA1356,
    SocketBGA1440,
    SocketBGA1515,
    SocketLGA3647_1,
    SocketSP3,
    SocketSP3r2,
    SocketLGA2066,
    SocketBGA1392,
    SocketBGA1510,
    SocketBGA1528,
    SocketLGA4189,
    SocketLGA1200,
    SocketLGA4677,
    SocketLGA1700,
    SocketBGA1744,
    SocketBGA1781,
    SocketBGA1211,
    SocketBGA2422,
    SocketLGA1211,
    SocketLGA2422,
    SocketLGA5773,
    SocketBGA5773,
    SocketAM5,
    SocketSP5,
    SocketSP6,
    SocketBGA883,
    SocketBGA1190,
    SocketBGA4129,
    SocketLGA4710,
    SocketLGA7529,
    SocketBGA1964,
    SocketBGA1792,
    SocketBGA2049,
    SocketBGA2551,
    SocketLGA1851,
    SocketBGA2114,
    SocketBGA2833,
    NotAvailable,
}

impl ProcessorUpgrade {
    /// The number of the variant in the SMBIOS specification.
    pub open spec fn spec_value(&self) -> u8 {
        match self {
            ProcessorUpgrade::Other => 1,
            ProcessorUpgrade::Unknown => 2,
            ProcessorUpgrade::DaughterBoard => 3,
            ProcessorUpgrade::ZIFSocket => 4,
            ProcessorUpgrade::ReplaceablePiggyBack => 5,
            ProcessorUpgrade::NoUpgrade => 6,
            ProcessorUpgrade::LIFSocket => 7,
            ProcessorUpgrade::Slot1 => 8,
            ProcessorUpgrade::Slot2 => 9,
            ProcessorUpgrade::Pin370Socket => 0xa,
            ProcessorUpgrade::SlotA => 0xb,
            ProcessorUpgrade::SlotM => 0xc,
            ProcessorUpgrade::Socket423 => 0xd,
            ProcessorUpgrade::SocketA => 0xe,
            ProcessorUpgrade::Socket478 => 0xf,
            ProcessorUpgrade::Socket754 => 0x10,
            ProcessorUpgrade::Socket940 => 0x11,
            ProcessorUpgrade::Socket939 => 0x12,
            ProcessorUpgrade::SocketmPGA604 => 0x13,
            ProcessorUpgrade::SocketLGA771 => 0x14,
            ProcessorUpgrade::SocketLGA775 => 0x15,
            ProcessorUpgrade::SocketS1 => 0x16,
            ProcessorUpgrade::SocketAM2 => 0x17,
            ProcessorUpgrade::SocketF1207 => 0x18,
            ProcessorUpgrade::SocketLGA1366 => 0x19,
            ProcessorUpgrade::SocketG34 => 0x1a,
            ProcessorUpgrade::SocketAM3 => 0x1b,
            ProcessorUpgrade::SocketC32 => 0x1c,
            ProcessorUpgrade::SocketLGA1156 => 0x1d,
            ProcessorUpgrade::SocketLGA1567 => 0x1e,
            ProcessorUpgrade::SocketPGA988A => 0x1f,
            ProcessorUpgrade::SocketBGA1288 => 0x20,
            ProcessorUpgrade::SocketrPGA988B => 0x21,
            ProcessorUpgrade::SocketBGA1023 => 0x22,
            ProcessorUpgrade::SocketBGA1224 => 0x23,
            ProcessorUpgrade::SocketLGA1155 => 0x24,
            ProcessorUpgrade::SocketLGA1356 => 0x25,
            ProcessorUpgrade::SocketLGA2011 => 0x26,
            ProcessorUpgrade::SocketFS1 => 0x27,
            ProcessorUpgrade::SocketFS2 => 0x28,
            ProcessorUpgrade::SocketFM1 => 0x29,
            ProcessorUpgrade::SocketFM2 => 0x2a,
            ProcessorUpgrade::SocketLGA2011_3 => 0x2b,
            ProcessorUpgrade::SocketLGA1356_3 => 0x2c,
            ProcessorUpgrade::SocketLGA1150 => 0x2d,
            ProcessorUpgrade::SocketBGA1168 => 0x2e,
            ProcessorUpgrade::SocketBGA1234 => 0x2f,
            ProcessorUpgrade::SocketBGA1364 => 0x30,
            ProcessorUpgrade::SocketAM4 => 0x31,
            ProcessorUpgrade::SocketLGA1151 => 0x32,
            ProcessorUpgrade::SocketBGA1356 => 0x33,
            ProcessorUpgrade::SocketBGA1440 => 0x34,
            ProcessorUpgrade::SocketBGA1515 => 0x35,
            ProcessorUpgrade::SocketLGA3647_1 => 0x36,
            ProcessorUpgrade::SocketSP3 => 0x37,
            ProcessorUpgrade::SocketSP3r2 => 0x38,
            ProcessorUpgrade::SocketLGA2066 => 0x39,
            ProcessorUpgrade::SocketBGA1392 => 0x3a,
            ProcessorUpgrade::SocketBGA1510 => 0x3b,
            ProcessorUpgrade::SocketBGA1528 => 0x3c,
            ProcessorUpgrade::SocketLGA4189 => 0x3d,
            ProcessorUpgrade::SocketLGA1200 => 0x3e,
            ProcessorUpgrade::SocketLGA4677 => 0x3f,
            ProcessorUpgrade::SocketLGA1700 => 0x40,
            ProcessorUpgrade::SocketBGA1744 => 0x41,
            ProcessorUpgrade::SocketBGA1781 => 0x42,
            ProcessorUpgrade::SocketBGA1211 => 0x43,
            ProcessorUpgrade::SocketBGA2422 => 0x44,
            ProcessorUpgrade::SocketLGA1211 => 0x45,
            ProcessorUpgrade::SocketLGA2422 => 0x46,
            ProcessorUpgrade::SocketLGA5773 => 0x47,
            ProcessorUpgrade::SocketBGA5773 => 0x48,
            ProcessorUpgrade::SocketAM5 => 0x49,
            ProcessorUpgrade::SocketSP5 => 0x4a,
            ProcessorUpgrade::SocketSP6 => 0x4b,
            ProcessorUpgrade::SocketBGA883 => 0x4c,
            ProcessorUpgrade::SocketBGA1190 => 0x4d,
            ProcessorUpgrade::SocketBGA4129 => 0x4e,
            ProcessorUpgrade::SocketLGA4710 => 0x4f,
            ProcessorUpgrade::SocketLGA7529 => 0x50,
            ProcessorUpgrade::SocketBGA1964 => 0x51,
            ProcessorUpgrade::SocketBGA1792 => 0x52,
            ProcessorUpgrade::SocketBGA2049 => 0x53,
            ProcessorUpgrade::SocketBGA2551 => 0x54,
            ProcessorUpgrade::SocketLGA1851 => 0x55,
            ProcessorUpgrade::SocketBGA2114 => 0x56,
            ProcessorUpgrade::SocketBGA2833 => 0x57,
            ProcessorUpgrade::NotAvailable => 0xff,
        }
    }

    /// The number of the variant in the SMBIOS specification.
    pub fn value(&self) -> (r: u8)
        ensures
            r == self.spec_value(),
    {
        match self {
            ProcessorUpgrade::Other => 1,
            ProcessorUpgrade::Unknown => 2,
            ProcessorUpgrade::DaughterBoard => 3,
            ProcessorUpgrade::ZIFSocket => 4,
            ProcessorUpgrade::ReplaceablePiggyBack => 5,
            ProcessorUpgrade::NoUpgrade => 6,
            ProcessorUpgrade::LIFSocket => 7,
            ProcessorUpgrade::Slot1 => 8,
            ProcessorUpgrade::Slot2 => 9,
            ProcessorUpgrade::Pin370Socket => 0xa,
            ProcessorUpgrade::SlotA => 0xb,
            ProcessorUpgrade::SlotM => 0xc,
            ProcessorUpgrade::Socket423 => 0xd,
            ProcessorUpgrade::SocketA => 0xe,
            ProcessorUpgrade::Socket478 => 0xf,
            ProcessorUpgrade::Socket754 => 0x10,
            ProcessorUpgrade::Socket940 => 0x11,
            ProcessorUpgrade::Socket939 => 0x12,
            ProcessorUpgrade::SocketmPGA604 => 0x13,
            ProcessorUpgrade::SocketLGA771 => 0x14,
            ProcessorUpgrade::SocketLGA775 => 0x15,
            ProcessorUpgrade::SocketS1 => 0x16,
            ProcessorUpgrade::SocketAM2 => 0x17,
            ProcessorUpgrade::SocketF1207 => 0x18,
            ProcessorUpgrade::SocketLGA1366 => 0x19,
            ProcessorUpgrade::SocketG34 => 0x1a,
            ProcessorUpgrade::SocketAM3 => 0x1b,
            ProcessorUpgrade::SocketC32 => 0x1c,
            ProcessorUpgrade::SocketLGA1156 => 0x1d,
            ProcessorUpgrade::SocketLGA1567 => 0x1e,
            ProcessorUpgrade::SocketPGA988A => 0x1f,
            ProcessorUpgrade::SocketBGA1288 => 0x20,
            ProcessorUpgrade::SocketrPGA988B => 0x21,
            ProcessorUpgrade::SocketBGA1023 => 0x22,
            ProcessorUpgrade::SocketBGA1224 => 0x23,
            ProcessorUpgrade::SocketLGA1155 => 0x24,
            ProcessorUpgrade::SocketLGA1356 => 0x25,
            ProcessorUpgrade::SocketLGA2011 => 0x26,
            ProcessorUpgrade::SocketFS1 => 0x27,
            ProcessorUpgrade::SocketFS2 => 0x28,
            ProcessorUpgrade::SocketFM1 => 0x29,
            ProcessorUpgrade::SocketFM2 => 0x2a,
            ProcessorUpgrade::SocketLGA2011_3 => 0x2b,
            ProcessorUpgrade::SocketLGA1356_3 => 0x2c,
            ProcessorUpgrade::SocketLGA1150 => 0x2d,
            ProcessorUpgrade::SocketBGA1168 => 0x2e,
            ProcessorUpgrade::SocketBGA1234 => 0x2f,
            ProcessorUpgrade::SocketBGA1364 => 0x30,
            ProcessorUpgrade::SocketAM4 => 0x31,
            ProcessorUpgrade::SocketLGA1151 => 0x32,
            ProcessorUpgrade::SocketBGA1356 => 0x33,
            ProcessorUpgrade::SocketBGA1440 => 0x34,
            ProcessorUpgrade::SocketBGA1515 => 0x35,
            ProcessorUpgrade::SocketLGA3647_1 => 0x36,
            ProcessorUpgrade::SocketSP3 => 0x37,
            ProcessorUpgrade::SocketSP3r2 => 0x38,
            ProcessorUpgrade::SocketLGA2066 => 0x39,
            ProcessorUpgrade::SocketBGA1392 => 0x3a,
            ProcessorUpgrade::SocketBGA1510 => 0x3b,
            ProcessorUpgrade::SocketBGA1528 => 0x3c,
            ProcessorUpgrade::SocketLGA4189 => 0x3d,
            ProcessorUpgrade::SocketLGA1200 => 0x3e,
            ProcessorUpgrade::SocketLGA4677 => 0x3f,
            ProcessorUpgrade::SocketLGA1700 => 0x40,
            ProcessorUpgrade::SocketBGA1744 => 0x41,
            ProcessorUpgrade::SocketBGA1781 => 0x42,
            ProcessorUpgrade::SocketBGA1211 => 0x43,
            ProcessorUpgrade::SocketBGA2422 => 0x44,
            ProcessorUpgrade::SocketLGA1211 => 0x45,
            ProcessorUpgrade::SocketLGA2422 => 0x46,
            ProcessorUpgrade::SocketLGA5773 => 0x47,
            ProcessorUpgrade::SocketBGA5773 => 0x48,
            ProcessorUpgrade::SocketAM5 => 0x49,
            ProcessorUpgrade::SocketSP5 => 0x4a,
            ProcessorUpgrade::SocketSP6 => 0x4b,
            ProcessorUpgrade::SocketBGA883 => 0x4c,
            ProcessorUpgrade::SocketBGA1190 => 0x4d,
            ProcessorUpgrade::SocketBGA4129 => 0x4e,
            ProcessorUpgrade::SocketLGA4710 => 0x4f,
            ProcessorUpgrade::SocketLGA7529 => 0x50,
            ProcessorUpgrade::SocketBGA1964 => 0x51,
            ProcessorUpgrade::SocketBGA1792 => 0x52,
            ProcessorUpgrade::SocketBGA2049 => 0x53,
            ProcessorUpgrade::SocketBGA2551 => 0x54,
            ProcessorUpgrade::SocketLGA1851 => 0x55,
            ProcessorUpgrade::SocketBGA2114 => 0x56,
            ProcessorUpgrade::SocketBGA2833 => 0x57,
            ProcessorUpgrade::NotAvailable => 0xff,
        }
    }
}

/// Processor Voltage (Type 4, offset 0x11)
#[derive(Debug, Clone, Copy)]
pub struct ProcessorVoltage(u8);

impl View for ProcessorVoltage {
    type V = u8;

    closed spec fn view(&self) -> u8 {
        self.0
    }
}

impl ProcessorVoltage {
    /// A value with every bit clear.
    pub fn new() -> (r: Self)
        ensures
            r@ == 0,
    {
        Self(0)
    }

    /// The value whose bits are `bits`.
    pub fn from_bits(bits: u8) -> (r: Self)
        ensures
            r@ == bits,
    {
        Self(bits)
    }

    /// The bits of the value.
    pub fn into_bits(self) -> (r: u8)
        ensures
            r == self@,
    {
        self.0
    }

    pub fn processor_voltage_capability_5v(&self) -> (r: bool)
        ensures
            r == ((self@ >> 0u32) & 1 == 1),
    {
        (self.0 >> 0u32) & 1 == 1
    }

    /// The value with `processor_voltage_capability_5v` set to `value`.
    pub fn with_processor_voltage_capability_5v(self, value: bool) -> (r: Self)
        ensures
            r@ == (if value { self@ | (1u8 << 0u32) } else { self@ & !(1u8 << 0u32) }),
    {
        if value {
            Self(self.0 | (1u8 << 0u32))
        } else {
            Self(self.0 & !(1u8 << 0u32))
        }
    }

    pub fn processor_voltage_capability_3_3v(&self) -> (r: bool)
        ensures
            r == ((self@ >> 1u32) & 1 == 1),
    {
        (self.0 >> 1u32) & 1 == 1
    }

    /// The value with `processor_voltage_capability_3_3v` set to `value`.
    pub fn with_processor_voltage_capability_3_3v(self, value: bool) -> (r: Self)
        ensures
            r@ == (if value { self@ | (1u8 << 1u32) } else { self@ & !(1u8 << 1u32) }),
    {
        if value {
            Self(self.0 | (1u8 << 1u32))
        } else {
            Self(self.0 & !(1u8 << 1u32))
        }
    }

    pub fn processor_voltage_capability_2_9v(&self) -> (r: bool)
        ensures
            r == ((self@ >> 2u32) & 1 == 1),
    {
        (self.0 >> 2u32) & 1 == 1
    }

    /// The value with `processor_voltage_capability_2_9v` set to `value`.
    pub fn with_processor_voltage_capability_2_9v(self, value: bool) -> (r: Self)
        ensures
            r@ == (if value { self@ | (1u8 << 2u32) } else { self@ & !(1u8 << 2u32) }),
    {
        if value {
            Self(self.0 | (1u8 << 2u32))
        } else {
            Self(self.0 & !(1u8 << 2u32))
        }
    }

    pub fn processor_voltage_capability_reserved(&self) -> (r: bool)
        ensures
            r == ((self@ >> 3u32) & 1 == 1),
    {
        (self.0 >> 3u32) & 1 == 1
    }

    /// The value with `processor_voltage_capability_reserved` set to `value`.
    pub fn with_processor_voltage_capability_reserved(self, value: bool) -> (r: Self)
        ensures
            r@ == (if value { self@ | (1u8 << 3u32) } else { self@ & !(1u8 << 3u32) }),
    {
        if value {
            Self(self.0 | (1u8 << 3u32))
        } else {
            Self(self.0 & !(1u8 << 3u32))
        }
    }

    pub fn processor_voltage_reserved(&self) -> (r: u8)
        ensures
            r == ((self@ >> 4u32) & 0x7),
    {
        ((self.0 >> 4u32) & 0x7)
    }

    /// The value with `processor_voltage_reserved` set to `value`, which must fit in 3 bits.
    pub fn with_processor_voltage_reserved(self, value: u8) -> (r: Self)
        requires
            value <= 0x7,
        ensures
            r@ == ((self@ & !(0x7u8 << 4u32)) | ((value) << 4u32)),
    {
        Self((self.0 & !(0x7u8 << 4u32)) | ((value) << 4u32))
    }

    pub fn processor_voltage_indicate_legacy(&self) -> (r: bool)
        ensures
            r == ((self@ >> 7u32) & 1 == 1),
    {
        (self.0 >> 7u32) & 1 == 1
    }

    /// The value with `processor_voltage_indicate_legacy` set to `value`.
    pub fn with_processor_voltage_indicate_legacy(self, value: bool) -> (r: Self)
        ensures
            r@ == (if value { self@ | (1u8 << 7u32) } else { self@ & !(1u8 << 7u32) }),
    {
        if value {
            Self(self.0 | (1u8 << 7u32))
        } else {
            Self(self.0 & !(1u8 << 7u32))
        }
    }
}

/// Processor Information Status (Type 4, offset 0x18)
#[derive(Debug, Clone, Copy)]
pub struct ProcessorInformationStatus(u8);

impl View for ProcessorInformationStatus {
    type V = u8;

    closed spec fn view(&self) -> u8 {
        self.0
    }
}

impl ProcessorInformationStatus {
    /// A value with every bit clear.
    pub fn new() -> (r: Self)
        ensures
            r@ == 0,
    {
        Self(0)
    }

    /// The value whose bits are `bits`.
    pub fn from_bits(bits: u8) -> (r: Self)
        ensures
            r@ == bits,
    {
        Self(bits)
    }

    /// The bits of the value.
    pub fn into_bits(self) -> (r: u8)
        ensures
            r == self@,
    {
        self.0
    }

    pub fn cpu_status(&self) -> (r: u8)
        ensures
            r == ((self@ >> 0u32) & 0x7),
    {
        ((self.0 >> 0u32) & 0x7)
    }

    /// The value with `cpu_status` set to `value`, which must fit in 3 bits.
    pub fn with_cpu_status(self, value: u8) -> (r: Self)
        requires
            value <= 0x7,
        ensures
            r@ == ((self@ & !(0x7u8 << 0u32)) | ((value) << 0u32)),
    {
        Self((self.0 & !(0x7u8 << 0u32)) | ((value) << 0u32))
    }

    pub fn reserved(&self) -> (r: u8)
        ensures
            r == ((self@ >> 3u32) & 0x7),
    {
        ((self.0 >> 3u32) & 0x7)
    }

    /// The value with `reserved` set to `value`, which must fit in 3 bits.
    pub fn with_reserved(self, value: u8) -> (r: Self)
        requires
            value <= 0x7,
        ensures
            r@ == ((self@ & !(0x7u8 << 3u32)) | ((value) << 3u32)),
    {
        Self((self.0 & !(0x7u8 << 3u32)) | ((value) << 3u32))
    }

    pub fn cpu_socket_populated(&self) -> (r: bool)
        ensures
            r == ((self@ >> 6u32) & 1 == 1),
    {
        (self.0 >> 6u32) & 1 == 1
    }

    /// The value with `cpu_socket_populated` set to `value`.
    pub fn with_cpu_socket_populated(self, value: bool) -> (r: Self)
        ensures
            r@ == (if value { self@ | (1u8 << 6u32) } else { self@ & !(1u8 << 6u32) }),
    {
        if value {
            Self(self.0 | (1u8 << 6u32))
        } else {
            Self(self.0 & !(1u8 << 6u32))
        }
    }

    pub fn reserved2(&self) -> (r: bool)
        ensures
            r == ((self@ >> 7u32) & 1 == 1),
    {
        (self.0 >> 7u32) & 1 == 1
    }

    /// The value with `reserved2` set to `value`.
    pub fn with_reserved2(self, value: bool) -> (r: Self)
        ensures
            r@ == (if value { self@ | (1u8 << 7u32) } else { self@ & !(1u8 << 7u32) }),
    {
        if value {
            Self(self.0 | (1u8 << 7u32))
        } else {
            Self(self.0 & !(1u8 << 7u32))
        }
    }
}

/// Processor Characteristics (Type 4, offset 0x26)
#[derive(Debug, Clone, Copy)]
pub struct ProcessorCharacteristics(u16);

impl View for ProcessorCharacteristics {
    type V = u16;

    closed spec fn view(&self) -> u16 {
        self.0
    }
}

impl ProcessorCharacteristics {
    /// A value with every bit clear.
    pub fn new() -> (r: Self)
        ensures
            r@ == 0,
    {
        Self(0)
    }

    /// The value whose bits are `bits`.
    pub fn from_bits(bits: u16) -> (r: Self)
        ensures
            r@ == bits,
    {
        Self(bits)
    }

    /// The bits of the value.
    pub fn into_bits(self) -> (r: u16)
        ensures
            r == self@,
    {
        self.0
    }

    pub fn reserved(&self) -> (r: bool)
        ensures
            r == ((self@ >> 0u32) & 1 == 1),
    {
        (self.0 >> 0u32) & 1 == 1
    }

    /// The value with `reserved` set to `value`.
    pub fn with_reserved(self, value: bool) -> (r: Self)
        ensures
            r@ == (if value { self@ | (1u16 << 0u32) } else { self@ & !(1u16 << 0u32) }),
    {
        if value {
            Self(self.0 | (1u16 << 0u32))
        } else {
            Self(self.0 & !(1u16 << 0u32))
        }
    }

    pub fn unknown(&self) -> (r: bool)
        ensures
            r == ((self@ >> 1u32) & 1 == 1),
    {
        (self.0 >> 1u32) & 1 == 1
    }

    /// The value with `unknown` set to `value`.
    pub fn with_unknown(self, value: bool) -> (r: Self)
        ensures
            r@ == (if value { self@ | (1u16 << 1u32) } else { self@ & !(1u16 << 1u32) }),
    {
        if value {
            Self(self.0 | (1u16 << 1u32))
        } else {
            Self(self.0 & !(1u16 << 1u32))
        }
    }

    pub fn capable_64bit(&self) -> (r: bool)
        ensures
            r == ((self@ >> 2u32) & 1 == 1),
    {
        (self.0 >> 2u32) & 1 == 1
    }

    /// The value with `capable_64bit` set to `value`.
    pub fn with_capable_64bit(self, value: bool) -> (r: Self)
        ensures
            r@ == (if value { self@ | (1u16 << 2u32) } else { self@ & !(1u16 << 2u32) }),
    {
        if value {
            Self(self.0 | (1u16 << 2u32))
        } else {
            Self(self.0 & !(1u16 << 2u32))
        }
    }

    pub fn multi_core(&self) -> (r: bool)
        ensures
            r == ((self@ >> 3u32) & 1 == 1),
    {
        (self.0 >> 3u32) & 1 == 1
    }

    /// The value with `multi_core` set to `value`.
    pub fn with_multi_core(self, value: bool) -> (r: Self)
        ensures
            r@ == (if value { self@ | (1u16 << 3u32) } else { self@ & !(1u16 << 3u32) }),
    {
        if value {
            Self(self.0 | (1u16 << 3u32))
        } else {
            Self(self.0 & !(1u16 << 3u32))
        }
    }

    pub fn hardware_thread(&self) -> (r: bool)
        ensures
            r == ((self@ >> 4u32) & 1 == 1),
    {
        (self.0 >> 4u32) & 1 == 1
    }

    /// The value with `hardware_thread` set to `value`.
    pub fn with_hardware_thread(self, value: bool) -> (r: Self)
        ensures
            r@ == (if value { self@ | (1u16 << 4u32) } else { self@ & !(1u16 << 4u32) }),
    {
        if value {
            Self(self.0 | (1u16 << 4u32))
        } else {
            Self(self.0 & !(1u16 << 4u32))
        }
    }

    pub fn execute_protection(&self) -> (r: bool)
        ensures
            r == ((self@ >> 5u32) & 1 == 1),
    {
        (self.0 >> 5u32) & 1 == 1
    }

    /// The value with `execute_protection` set to `value`.
    pub fn with_execute_protection(self, value: bool) -> (r: Self)
        ensures
            r@ == (if value { self@ | (1u16 << 5u32) } else { self@ & !(1u16 << 5u32) }),
    {
        if value {
            Self(self.0 | (1u16 << 5u32))
        } else {
            Self(self.0 & !(1u16 << 5u32))
        }
    }

    pub fn enhanced_virtualization(&self) -> (r: bool)
        ensures
            r == ((self@ >> 6u32) & 1 == 1),
    {
        (self.0 >> 6u32) & 1 == 1
    }

    /// The value with `enhanced_virtualization` set to `value`.
    pub fn with_enhanced_virtualization(self, value: bool) -> (r: Self)
        ensures
            r@ == (if value { self@ | (1u16 << 6u32) } else { self@ & !(1u16 << 6u32) }),
    {
        if value {
            Self(self.0 | (1u16 << 6u32))
        } else {
            Self(self.0 & !(1u16 << 6u32))
        }
    }

    pub fn performance_control(&self) -> (r: bool)
        ensures
            r == ((self@ >> 7u32) & 1 == 1),
    {
        (self.0 >> 7u32) & 1 == 1
    }

    /// The value with `performance_control` set to `value`.
    pub fn with_performance_control(self, value: bool) -> (r: Self)
        ensures
            r@ == (if value { self@ | (1u16 << 7u32) } else { self@ & !(1u16 << 7u32) }),
    {
        if value {
            Self(self.0 | (1u16 << 7u32))
        } else {
            Self(self.0 & !(1u16 << 7u32))
        }
    }

    pub fn capable_128bit(&self) -> (r: bool)
        ensures
            r == ((self@ >> 8u32) & 1 == 1),
    {
        (self.0 >> 8u32) & 1 == 1
    }

    /// The value with `capable_128bit` set to `value`.
    pub fn with_capable_128bit(self, value: bool) -> (r: Self)
        ensures
            r@ == (if value { self@ | (1u16 << 8u32) } else { self@ & !(1u16 << 8u32) }),
    {
        if value {
            Self(self.0 | (1u16 << 8u32))
        } else {
            Self(self.0 & !(1u16 << 8u32))
        }
    }

    pub fn arm64_soc_id(&self) -> (r: bool)
        ensures
            r == ((self@ >> 9u32) & 1 == 1),
    {
        (self.0 >> 9u32) & 1 == 1
    }

    /// The value with `arm64_soc_id` set to `value`.
    pub fn with_arm64_soc_id(self, value: bool) -> (r: Self)
        ensures
            r@ == (if value { self@ | (1u16 << 9u32) } else { self@ & !(1u16 << 9u32) }),
    {
        if value {
            Self(self.0 | (1u16 << 9u32))
        } else {
            Self(self.0 & !(1u16 << 9u32))
        }
    }

    pub fn reserved2(&self) -> (r: u8)
        ensures
            r == ((self@ >> 10u32) & 0x3f) as u8,
    {
        ((self.0 >> 10u32) & 0x3f) as u8
    }

    /// The value with `reserved2` set to `value`, which must fit in 6 bits.
    pub fn with_reserved2(self, value: u8) -> (r: Self)
        requires
            value <= 0x3f,
        ensures
            r@ == ((self@ & !(0x3fu16 << 10u32)) | ((value as u16) << 10u32)),
    {
        Self((self.0 & !(0x3fu16 << 10u32)) | ((value as u16) << 10u32))
    }
}

/// Cache Configuration (Type 7, offset 0x05)
#[derive(Debug, Clone, Copy)]
pub struct CacheConfiguration(u16);

impl View for CacheConfiguration {
    type V = u16;

    closed spec fn view(&self) -> u16 {
        self.0
    }
}

impl CacheConfiguration {
    /// A value with every bit clear.
    pub fn new() -> (r: Self)
        ensures
            r@ == 0,
    {
        Self(0)
    }

    /// The value whose bits are `bits`.
    pub fn from_bits(bits: u16) -> (r: Self)
        ensures
            r@ == bits,
    {
        Self(bits)
    }

    /// The bits of the value.
    pub fn into_bits(self) -> (r: u16)
        ensures
            r == self@,
    {
        self.0
    }

    pub fn cache_level(&self) -> (r: u8)
        ensures
            r == ((self@ >> 0u32) & 0x7) as u8,
    {
        ((self.0 >> 0u32) & 0x7) as u8
    }

    /// The value with `cache_level` set to `value`, which must fit in 3 bits.
    pub fn with_cache_level(self, value: u8) -> (r: Self)
        requires
            value <= 0x7,
        ensures
            r@ == ((self@ & !(0x7u16 << 0u32)) | ((value as u16) << 0u32)),
    {
        Self((self.0 & !(0x7u16 << 0u32)) | ((value as u16) << 0u32))
    }

    pub fn cache_socketed(&self) -> (r: bool)
        ensures
            r == ((self@ >> 3u32) & 1 == 1),
    {
        (self.0 >> 3u32) & 1 == 1
    }

    /// The value with `cache_socketed` set to `value`.
    pub fn with_cache_socketed(self, value: bool) -> (r: Self)
        ensures
            r@ == (if value { self@ | (1u16 << 3u32) } else { self@ & !(1u16 << 3u32) }),
    {
        if value {
            Self(self.0 | (1u16 << 3u32))
        } else {
            Self(self.0 & !(1u16 << 3u32))
        }
    }

    pub fn reserved(&self) -> (r: bool)
        ensures
            r == ((self@ >> 4u32) & 1 == 1),
    {
        (self.0 >> 4u32) & 1 == 1
    }

    /// The value with `reserved` set to `value`.
    pub fn with_reserved(self, value: bool) -> (r: Self)
        ensures
            r@ == (if value { self@ | (1u16 << 4u32) } else { self@ & !(1u16 << 4u32) }),
    {
        if value {
            Self(self.0 | (1u16 << 4u32))
        } else {
            Self(self.0 & !(1u16 << 4u32))
        }
    }

    pub fn location(&self) -> (r: u8)
        ensures
            r == ((self@ >> 5u32) & 0x3) as u8,
    {
        ((self.0 >> 5u32) & 0x3) as u8
    }

    /// The value with `location` set to `value`, which must fit in 2 bits.
    pub fn with_location(self, value: u8) -> (r: Self)
        requires
            value <= 0x3,
        ensures
            r@ == ((self@ & !(0x3u16 << 5u32)) | ((value as u16) << 5u32)),
    {
        Self((self.0 & !(0x3u16 << 5u32)) | ((value as u16) << 5u32))
    }

    pub fn enabled_disabled(&self) -> (r: bool)
        ensures
            r == ((self@ >> 7u32) & 1 == 1),
    {
        (self.0 >> 7u32) & 1 == 1
    }

    /// The value with `enabled_disabled` set to `value`.
    pub fn with_enabled_disabled(self, value: bool) -> (r: Self)
        ensures
            r@ == (if value { self@ | (1u16 << 7u32) } else { self@ & !(1u16 << 7u32) }),
    {
        if value {
            Self(self.0 | (1u16 << 7u32))
        } else {
            Self(self.0 & !(1u16 << 7u32))
        }
    }

    pub fn operational_mode(&self) -> (r: u8)
        ensures
            r == ((self@ >> 8u32) & 0x3) as u8,
    {
        ((self.0 >> 8u32) & 0x3) as u8
    }

    /// The value with `operational_mode` set to `value`, which must fit in 2 bits.
    pub fn with_operational_mode(self, value: u8) -> (r: Self)
        requires
            value <= 0x3,
        ensures
            r@ == ((self@ & !(0x3u16 << 8u32)) | ((value as u16) << 8u32)),
    {
        Self((self.0 & !(0x3u16 << 8u32)) | ((value as u16) << 8u32))
    }

    pub fn reserved2(&self) -> (r: u8)
        ensures
            r == ((self@ >> 10u32) & 0x3f) as u8,
    {
        ((self.0 >> 10u32) & 0x3f) as u8
    }

    /// The value with `reserved2` set to `value`, which must fit in 6 bits.
    pub fn with_reserved2(self, value: u8) -> (r: Self)
        requires
            value <= 0x3f,
        ensures
            r@ == ((self@ & !(0x3fu16 << 10u32)) | ((value as u16) << 10u32)),
    {
        Self((self.0 & !(0x3fu16 << 10u32)) | ((value as u16) << 10u32))
    }
}

/// Cache Size (Type 7, offset 0x07 / 0x09)
#[derive(Debug, Clone, Copy)]
pub struct CacheSize(u16);

impl View for CacheSize {
    type V = u16;

    closed spec fn view(&self) -> u16 {
        self.0
    }
}

impl CacheSize {
    /// A value with every bit clear.
    pub fn new() -> (r: Self)
        ensures
            r@ == 0,
    {
        Self(0)
    }

    /// The value whose bits are `bits`.
    pub fn from_bits(bits: u16) -> (r: Self)
        ensures
            r@ == bits,
    {
        Self(bits)
    }

    /// The bits of the value.
    pub fn into_bits(self) -> (r: u16)
        ensures
            r == self@,
    {
        self.0
    }

    pub fn max_size(&self) -> (r: u16)
        ensures
            r == ((self@ >> 0u32) & 0x7fff),
    {
        ((self.0 >> 0u32) & 0x7fff)
    }

    /// The value with `max_size` set to `value`, which must fit in 15 bits.
    pub fn with_max_size(self, value: u16) -> (r: Self)
        requires
            value <= 0x7fff,
        ensures
            r@ == ((self@ & !(0x7fffu16 << 0u32)) | ((value) << 0u32)),
    {
        Self((self.0 & !(0x7fffu16 << 0u32)) | ((value) << 0u32))
    }

    pub fn granularity(&self) -> (r: bool)
        ensures
            r == ((self@ >> 15u32) & 1 == 1),
    {
        (self.0 >> 15u32) & 1 == 1
    }

    /// The value with `granularity` set to `value`.
    pub fn with_granularity(self, value: bool) -> (r: Self)
        ensures
            r@ == (if value { self@ | (1u16 << 15u32) } else { self@ & !(1u16 << 15u32) }),
    {
        if value {
            Self(self.0 | (1u16 << 15u32))
        } else {
            Self(self.0 & !(1u16 << 15u32))
        }
    }
}

/// Cache Size 2 (Type 7, offset 0x13 / 0x17)
#[derive(Debug, Clone, Copy)]
pub struct CacheSize2(u32);

impl View for CacheSize2 {
    type V = u32;

    closed spec fn view(&self) -> u32 {
        self.0
    }
}

impl CacheSize2 {
    /// A value with every bit clear.
    pub fn new() -> (r: Self)
        ensures
            r@ == 0,
    {
        Self(0)
    }

    /// The value whose bits are `bits`.
    pub fn from_bits(bits: u32) -> (r: Self)
        ensures
            r@ == bits,
    {
        Self(bits)
    }

    /// The bits of the value.
    pub fn into_bits(self) -> (r: u32)
        ensures
            r == self@,
    {
        self.0
    }

    pub fn max_size(&self) -> (r: u32)
        ensures
            r == ((self@ >> 0u32) & 0x7fffffff),
    {
        ((self.0 >> 0u32) & 0x7fffffff)
    }

    /// The value with `max_size` set to `value`, which must fit in 31 bits.
    pub fn with_max_size(self, value: u32) -> (r: Self)
        requires
            value <= 0x7fffffff,
        ensures
            r@ == ((self@ & !(0x7fffffffu32 << 0u32)) | ((value) << 0u32)),
    {
        Self((self.0 & !(0x7fffffffu32 << 0u32)) | ((value) << 0u32))
    }

    pub fn granularity(&self) -> (r: bool)
        ensures
            r == ((self@ >> 31u32) & 1 == 1),
    {
        (self.0 >> 31u32) & 1 == 1
    }

    /// The value with `granularity` set to `value`.
    pub fn with_granularity(self, value: bool) -> (r: Self)
        ensures
            r@ == (if value { self@ | (1u32 << 31u32) } else { self@ & !(1u32 << 31u32) }),
    {
        if value {
            Self(self.0 | (1u32 << 31u32))
        } else {
            Self(self.0 & !(1u32 << 31u32))
        }
    }
}

/// Cache SRAM Type (Type 7, offset 0x0B / 0x0D)
#[derive(Debug, Clone, Copy)]
pub struct CacheSramTypeData(u16);

impl View for CacheSramTypeData {
    type V = u16;

    closed spec fn view(&self) -> u16 {
        self.0
    }
}

impl CacheSramTypeData {
    /// A value with every bit clear.
    pub fn new() -> (r: Self)
        ensures
            r@ == 0,
    {
        Self(0)
    }

    /// The value whose bits are `bits`.
    pub fn from_bits(bits: u16) -> (r: Self)
        ensures
            r@ == bits,
    {
        Self(bits)
    }

    /// The bits of the value.
    pub fn into_bits(self) -> (r: u16)
        ensures
            r == self@,
    {
        self.0
    }

    pub fn other(&self) -> (r: bool)
        ensures
            r == ((self@ >> 0u32) & 1 == 1),
    {
        (self.0 >> 0u32) & 1 == 1
    }

    /// The value with `other` set to `value`.
    pub fn with_other(self, value: bool) -> (r: Self)
        ensures
            r@ == (if value { self@ | (1u16 << 0u32) } else { self@ & !(1u16 << 0u32) }),
    {
        if value {
            Self(self.0 | (1u16 << 0u32))
        } else {
            Self(self.0 & !(1u16 << 0u32))
        }
    }

    pub fn unknown(&self) -> (r: bool)
        ensures
            r == ((self@ >> 1u32) & 1 == 1),
    {
        (self.0 >> 1u32) & 1 == 1
    }

    /// The value with `unknown` set to `value`.
    pub fn with_unknown(self, value: bool) -> (r: Self)
        ensures
            r@ == (if value { self@ | (1u16 << 1u32) } else { self@ & !(1u16 << 1u32) }),
    {
        if value {
            Self(self.0 | (1u16 << 1u32))
        } else {
            Self(self.0 & !(1u16 << 1u32))
        }
    }

    pub fn non_burst(&self) -> (r: bool)
        ensures
            r == ((self@ >> 2u32) & 1 == 1),
    {
        (self.0 >> 2u32) & 1 == 1
    }

    /// The value with `non_burst` set to `value`.
    pub fn with_non_burst(self, value: bool) -> (r: Self)
        ensures
            r@ == (if value { self@ | (1u16 << 2u32) } else { self@ & !(1u16 << 2u32) }),
    {
        if value {
            Self(self.0 | (1u16 << 2u32))
        } else {
            Self(self.0 & !(1u16 << 2u32))
        }
    }

    pub fn burst(&self) -> (r: bool)
        ensures
            r == ((self@ >> 3u32) & 1 == 1),
    {
        (self.0 >> 3u32) & 1 == 1
    }

    /// The value with `burst` set to `value`.
    pub fn with_burst(self, value: bool) -> (r: Self)
        ensures
            r@ == (if value { self@ | (1u16 << 3u32) } else { self@ & !(1u16 << 3u32) }),
    {
        if value {
            Self(self.0 | (1u16 << 3u32))
        } else {
            Self(self.0 & !(1u16 << 3u32))
        }
    }

    pub fn pipeline_burst(&self) -> (r: bool)
        ensures
            r == ((self@ >> 4u32) & 1 == 1),
    {
        (self.0 >> 4u32) & 1 == 1
    }

    /// The value with `pipeline_burst` set to `value`.
    pub fn with_pipeline_burst(self, value: bool) -> (r: Self)
        ensures
            r@ == (if value { self@ | (1u16 << 4u32) } else { self@ & !(1u16 << 4u32) }),
    {
        if value {
            Self(self.0 | (1u16 << 4u32))
        } else {
            Self(self.0 & !(1u16 << 4u32))
        }
    }

    pub fn synchronous(&self) -> (r: bool)
        ensures
            r == ((self@ >> 5u32) & 1 == 1),
    {
        (self.0 >> 5u32) & 1 == 1
    }

    /// The value with `synchronous` set to `value`.
    pub fn with_synchronous(self, value: bool) -> (r: Self)
        ensures
            r@ == (if value { self@ | (1u16 << 5u32) } else { self@ & !(1u16 << 5u32) }),
    {
        if value {
            Self(self.0 | (1u16 << 5u32))
        } else {
            Self(self.0 & !(1u16 << 5u32))
        }
    }

    pub fn asynchronous(&self) -> (r: bool)
        ensures
            r == ((self@ >> 6u32) & 1 == 1),
    {
        (self.0 >> 6u32) & 1 == 1
    }

    /// The value with `asynchronous` set to `value`.
    pub fn with_asynchronous(self, value: bool) -> (r: Self)
        ensures
            r@ == (if value { self@ | (1u16 << 6u32) } else { self@ & !(1u16 << 6u32) }),
    {
        if value {
            Self(self.0 | (1u16 << 6u32))
        } else {
            Self(self.0 & !(1u16 << 6u32))
        }
    }

    pub fn reserved(&self) -> (r: u16)
        ensures
            r == ((self@ >> 7u32) & 0x1ff),
    {
        ((self.0 >> 7u32) & 0x1ff)
    }

    /// The value with `reserved` set to `value`, which must fit in 9 bits.
    pub fn with_reserved(self, value: u16) -> (r: Self)
        requires
            value <= 0x1ff,
        ensures
            r@ == ((self@ & !(0x1ffu16 << 7u32)) | ((value) << 7u32)),
    {
        Self((self.0 & !(0x1ffu16 << 7u32)) | ((value) << 7u32))
    }
}

/// Cache Error Correction Type (Type 7, offset 0x10)
#[derive(Copy, Clone, Debug)]
pub enum ErrorCorrectionType {
    Other,
    Unknown,
    NoEcc,
    Parity,
    SingleBitEcc,
    MutliBitEcc,
}

impl ErrorCorrectionType {
    /// The number of the variant in the SMBIOS specification.
    pub open spec fn spec_value(&self) -> u8 {
        match self {
            ErrorCorrectionType::Other => 1,
            ErrorCorrectionType::Unknown => 2,
            ErrorCorrectionType::NoEcc => 3,
            ErrorCorrectionType::Parity => 4,
            ErrorCorrectionType::SingleBitEcc => 5,
            ErrorCorrectionType::MutliBitEcc => 6,
        }
    }

    /// The number of the variant in the SMBIOS specification.
    pub fn value(&self) -> (r: u8)
        ensures
            r == self.spec_value(),
    {
        match self {
            ErrorCorrectionType::Other => 1,
            ErrorCorrectionType::Unknown => 2,
            ErrorCorrectionType::NoEcc => 3,
            ErrorCorrectionType::Parity => 4,
            ErrorCorrectionType::SingleBitEcc => 5,
            ErrorCorrectionType::MutliBitEcc => 6,
        }
    }
}

/// System Cache Type (Type 7, offset 0x11)
#[derive(Copy, Clone, Debug)]
pub enum SystemCacheType {
    Other,
    Unknown,
    Instruction,
    Data,
    Unified,
}

impl SystemCacheType {
    /// The number of the variant in the SMBIOS specification.
    pub open spec fn spec_value(&self) -> u8 {
        match self {
            SystemCacheType::Other => 1,
            SystemCacheType::Unknown => 2,
            SystemCacheType::Instruction => 3,
            SystemCacheType::Data => 4,
            SystemCacheType::Unified => 5,
        }
    }

    /// The number of the variant in the SMBIOS specification.
    pub fn value(&self) -> (r: u8)
        ensures
            r == self.spec_value(),
    {
        match self {
            SystemCacheType::Other => 1,
            SystemCacheType::Unknown => 2,
            SystemCacheType::Instruction => 3,
            SystemCacheType::Data => 4,
            SystemCacheType::Unified => 5,
        }
    }
}

/// Cache Associativity Field (Type 7, offset 0x12)
#[derive(Copy, Clone, Debug)]
pub enum AssociativityField {
    Other,
    Unknown,
    DirectMapped,
    SetAssociative2Way,
    SetAssociative4Way,
    FullyAssociative,
    SetAssociative8Way,
    SetAssociative16Way,
    SetAssociative12Way,
    SetAssociative24Way,
    SetAssociative32Way,
    SetAssociative48Way,
    SetAssociative64Way,
    SetAssociative20Way,
}

impl AssociativityField {
    /// The number of the variant in the SMBIOS specification.
    pub open spec fn spec_value(&self) -> u8 {
        match self {
            AssociativityField::Other => 1,
            AssociativityField::Unknown => 2,
            AssociativityField::DirectMapped => 3,
            AssociativityField::SetAssociative2Way => 4,
            AssociativityField::SetAssociative4Way => 5,
            AssociativityField::FullyAssociative => 6,
            AssociativityField::SetAssociative8Way => 7,
            AssociativityField::SetAssociative16Way => 8,
            AssociativityField::SetAssociative12Way => 9,
            AssociativityField::SetAssociative24Way => 0xa,
            AssociativityField::SetAssociative32Way => 0xb,
            AssociativityField::SetAssociative48Way => 0xc,
            AssociativityField::SetAssociative64Way => 0xd,
            AssociativityField::SetAssociative20Way => 0xe,
        }
    }

    /// The number of the variant in the SMBIOS specification.
    pub fn value(&self) -> (r: u8)
        ensures
            r == self.spec_value(),
    {
        match self {
            AssociativityField::Other => 1,
            AssociativityField::Unknown => 2,
            AssociativityField::DirectMapped => 3,
            AssociativityField::SetAssociative2Way => 4,
            AssociativityField::SetAssociative4Way => 5,
            AssociativityField::FullyAssociative => 6,
            AssociativityField::SetAssociative8Way => 7,
            AssociativityField::SetAssociative16Way => 8,
            AssociativityField::SetAssociative12Way => 9,
            AssociativityField::SetAssociative24Way => 0xa,
            AssociativityField::SetAssociative32Way => 0xb,
            AssociativityField::SetAssociative48Way => 0xc,
            AssociativityField::SetAssociative64Way => 0xd,
            AssociativityField::SetAssociative20Way => 0xe,
        }
    }
}

/// System Slot Type (Type 9, offset 0x05) - BYTE per spec
#[derive(Copy, Clone, Debug)]
pub enum SlotType {
    Other,
    Unknown,
    Isa,
    Mca,
    Eisa,
    Pci,
    PcCard,
    VlVesa,
    Proprietary,
    ProcessorCardSlot,
    ProprietaryMemroyCardSlot,
    IoRiserCardSlot,
    NuBus,
    Pci66mhz,
    Agp,
    Agp2x,
    Agp4x,
    PciX,
    Agp8x,
    M2Socket1DP,
    M2Socket1SD,
    M2Socket2,
    M2Socket3,
    MxmTypeI,
    MxmTypeII,
    MxmTypeIIIStandard,
    MxmTypeIIIHe,
    MxmTypeIV,
    Mxm3TypeA,
    Mxm3TypeB,
    PciExpressGen2Sff8629,
    PciExpressGen3Sff8629,
    PciExpressMini52PinBottomSideKeepOuts,
    PciExpressMini52Pin,
    PciExpressMini76Pin,
    PciExpressGen4Sff8639,
    PciExpressGen5Sff8639,
    OcpNic3SFF,
    OcpNic3LFF,
    OcpNicPrior,
    Pc98C20,
    Pc98C24,
    Pc98E,
    Pc98LocalBus,
    Pc98Card,
    PciExpress,
    PciExpressx1,
    PciExpressx2,
    PciExpressx4,
    PciExpressx8,
    PciExpressx16,
    PciExpressGen2,
    PciExpressGen2x1,
    PciExpressGen2x2,
    PciExpressGen2x4,
    PciExpressGen2x8,
    PciExpressGen2x16,
    PciExpressGen3,
    PciExpressGen3x1,
    PciExpressGen3x2,
    PciExpressGen3x4,
    PciExpressGen3x8,
    PciExpressGen3x16,
    PciExpressGen4,
    PciExpressGen4x1,
    PciExpressGen4x2,
    PciExpressGen4x4,
    PciExpressGen4x8,
    PciExpressGen4x16,
    PciExpressGen5,
    PciExpressGen5x1,
    PciExpressGen5x2,
    PciExpressGen5x4,
    PciExpressGen5x8,
    PciExpressGen5x16,
    PciExpressGen6,
    EdsffE1SE1L,
    EdsffE3SE3L,
}

impl SlotType {
    /// The number of the variant in the SMBIOS specification.
    pub open spec fn spec_value(&self) -> u8 {
        match self {
            SlotType::Other => 1,
            SlotType::Unknown => 2,
            SlotType::Isa => 3,
            SlotType::Mca => 4,
            SlotType::Eisa => 5,
            SlotType::Pci => 6,
            SlotType::PcCard => 7,
            SlotType::VlVesa => 8,
            SlotType::Proprietary => 9,
            SlotType::ProcessorCardSlot => 0xa,
            SlotType::ProprietaryMemroyCardSlot => 0xb,
            SlotType::IoRiserCardSlot => 0xc,
            SlotType::NuBus => 0xd,
            SlotType::Pci66mhz => 0xe,
            SlotType::Agp => 0xf,
            SlotType::Agp2x => 0x10,
            SlotType::Agp4x => 0x11,
            SlotType::PciX => 0x12,
            SlotType::Agp8x => 0x13,
            SlotType::M2Socket1DP => 0x14,
            SlotType::M2Socket1SD => 0x15,
            SlotType::M2Socket2 => 0x16,
            SlotType::M2Socket3 => 0x17,
            SlotType::MxmTypeI => 0x18,
            SlotType::MxmTypeII => 0x19,
            SlotType::MxmTypeIIIStandard => 0x1a,
            SlotType::MxmTypeIIIHe => 0x1b,
            SlotType::MxmTypeIV => 0x1c,
            SlotType::Mxm3TypeA => 0x1d,
            SlotType::Mxm3TypeB => 0x1e,
            SlotType::PciExpressGen2Sff8629 => 0x1f,
            SlotType::PciExpressGen3Sff8629 => 0x20,
            SlotType::PciExpressMini52PinBottomSideKeepOuts => 0x21,
            SlotType::PciExpressMini52Pin => 0x22,
            SlotType::PciExpressMini76Pin => 0x23,
            SlotType::PciExpressGen4Sff8639 => 0x24,
            SlotType::PciExpressGen5Sff8639 => 0x25,
            SlotType::OcpNic3SFF => 0x26,
            SlotType::OcpNic3LFF => 0x27,
            SlotType::OcpNicPrior => 0x28,
            SlotType::Pc98C20 => 0xa0,
            SlotType::Pc98C24 => 0xa1,
            SlotType::Pc98E => 0xa2,
            SlotType::Pc98LocalBus => 0xa3,
            SlotType::Pc98Card => 0xa4,
            SlotType::PciExpress => 0xa5,
            SlotType::PciExpressx1 => 0xa6,
            SlotType::PciExpressx2 => 0xa7,
            SlotType::PciExpressx4 => 0xa8,
            SlotType::PciExpressx8 => 0xa9,
            SlotType::PciExpressx16 => 0xaa,
            SlotType::PciExpressGen2 => 0xab,
            SlotType::PciExpressGen2x1 => 0xac,
            SlotType::PciExpressGen2x2 => 0xad,
            SlotType::PciExpressGen2x4 => 0xae,
            SlotType::PciExpressGen2x8 => 0xaf,
            SlotType::PciExpressGen2x16 => 0xb0,
            SlotType::PciExpressGen3 => 0xb1,
            SlotType::PciExpressGen3x1 => 0xb2,
            SlotType::PciExpressGen3x2 => 0xb3,
            SlotType::PciExpressGen3x4 => 0xb4,
            SlotType::PciExpressGen3x8 => 0xb5,
            SlotType::PciExpressGen3x16 => 0xb6,
            SlotType::PciExpressGen4 => 0xb8,
            SlotType::PciExpressGen4x1 => 0xb9,
            SlotType::PciExpressGen4x2 => 0xba,
            SlotType::PciExpressGen4x4 => 0xbb,
            SlotType::PciExpressGen4x8 => 0xbc,
            SlotType::PciExpressGen4x16 => 0xbd,
            SlotType::PciExpressGen5 => 0xbe,
            SlotType::PciExpressGen5x1 => 0xbf,
            SlotType::PciExpressGen5x2 => 0xc0,
            SlotType::PciExpressGen5x4 => 0xc1,
            SlotType::PciExpressGen5x8 => 0xc2,
            SlotType::PciExpressGen5x16 => 0xc3,
            SlotType::PciExpressGen6 => 0xc4,
            SlotType::EdsffE1SE1L => 0xc5,
            SlotType::EdsffE3SE3L => 0xc6,
        }
    }

    /// The number of the variant in the SMBIOS specification.
    pub fn value(&self) -> (r: u8)
        ensures
            r == self.spec_value(),
    {
        match self {
            SlotType::Other => 1,
            SlotType::Unknown => 2,
            SlotType::Isa => 3,
            SlotType::Mca => 4,
            SlotType::Eisa => 5,
            SlotType::Pci => 6,
            SlotType::PcCard => 7,
            SlotType::VlVesa => 8,
            SlotType::Proprietary => 9,
            SlotType::ProcessorCardSlot => 0xa,
            SlotType::ProprietaryMemroyCardSlot => 0xb,
            SlotType::IoRiserCardSlot => 0xc,
            SlotType::NuBus => 0xd,
            SlotType::Pci66mhz => 0xe,
            SlotType::Agp => 0xf,
            SlotType::Agp2x => 0x10,
            SlotType::Agp4x => 0x11,
            SlotType::PciX => 0x12,
            SlotType::Agp8x => 0x13,
            SlotType::M2Socket1DP => 0x14,
            SlotType::M2Socket1SD => 0x15,
            SlotType::M2Socket2 => 0x16,
            SlotType::M2Socket3 => 0x17,
            SlotType::MxmTypeI => 0x18,
            SlotType::MxmTypeII => 0x19,
            SlotType::MxmTypeIIIStandard => 0x1a,
            SlotType::MxmTypeIIIHe => 0x1b,
            SlotType::MxmTypeIV => 0x1c,
            SlotType::Mxm3TypeA => 0x1d,
            SlotType::Mxm3TypeB => 0x1e,
            SlotType::PciExpressGen2Sff8629 => 0x1f,
            SlotType::PciExpressGen3Sff8629 => 0x20,
            SlotType::PciExpressMini52PinBottomSideKeepOuts => 0x21,
            SlotType::PciExpressMini52Pin => 0x22,
            SlotType::PciExpressMini76Pin => 0x23,
            SlotType::PciExpressGen4Sff8639 => 0x24,
            SlotType::PciExpressGen5Sff8639 => 0x25,
            SlotType::OcpNic3SFF => 0x26,
            SlotType::OcpNic3LFF => 0x27,
            SlotType::OcpNicPrior => 0x28,
            SlotType::Pc98C20 => 0xa0,
            SlotType::Pc98C24 => 0xa1,
            SlotType::Pc98E => 0xa2,
            SlotType::Pc98LocalBus => 0xa3,
            SlotType::Pc98Card => 0xa4,
            SlotType::PciExpress => 0xa5,
            SlotType::PciExpressx1 => 0xa6,
            SlotType::PciExpressx2 => 0xa7,
            SlotType::PciExpressx4 => 0xa8,
            SlotType::PciExpressx8 => 0xa9,
            SlotType::PciExpressx16 => 0xaa,
            SlotType::PciExpressGen2 => 0xab,
            SlotType::PciExpressGen2x1 => 0xac,
            SlotType::PciExpressGen2x2 => 0xad,
            SlotType::PciExpressGen2x4 => 0xae,
            SlotType::PciExpressGen2x8 => 0xaf,
            SlotType::PciExpressGen2x16 => 0xb0,
            SlotType::PciExpressGen3 => 0xb1,
            SlotType::PciExpressGen3x1 => 0xb2,
            SlotType::PciExpressGen3x2 => 0xb3,
            SlotType::PciExpressGen3x4 => 0xb4,
            SlotType::PciExpressGen3x8 => 0xb5,
            SlotType::PciExpressGen3x16 => 0xb6,
            SlotType::PciExpressGen4 => 0xb8,
            SlotType::PciExpressGen4x1 => 0xb9,
            SlotType::PciExpressGen4x2 => 0xba,
            SlotType::PciExpressGen4x4 => 0xbb,
            SlotType::PciExpressGen4x8 => 0xbc,
            SlotType::PciExpressGen4x16 => 0xbd,
            SlotType::PciExpressGen5 => 0xbe,
            SlotType::PciExpressGen5x1 => 0xbf,
            SlotType::PciExpressGen5x2 => 0xc0,
            SlotType::PciExpressGen5x4 => 0xc1,
            SlotType::PciExpressGen5x8 => 0xc2,
            SlotType::PciExpressGen5x16 => 0xc3,
            SlotType::PciExpressGen6 => 0xc4,
            SlotType::EdsffE1SE1L => 0xc5,
            SlotType::EdsffE3SE3L => 0xc6,
        }
    }
}

/// System Slot Data Bus Width (Type 9, offset 0x06)
#[derive(Copy, Clone, Debug)]
pub enum SlotWidth {
    Other,
    Unknown,
    Bit8,
    Bit16,
    Bit32,
    Bit64,
    Bit128,
    X1,
    X2,
    X4,
    X8,
    X12,
    X16,
    X32,
}

impl SlotWidth {
    /// The number of the variant in the SMBIOS specification.
    pub open spec fn spec_value(&self) -> u8 {
        match self {
            SlotWidth::Other => 1,
            SlotWidth::Unknown => 2,
            SlotWidth::Bit8 => 3,
            SlotWidth::Bit16 => 4,
            SlotWidth::Bit32 => 5,
            SlotWidth::Bit64 => 6,
            SlotWidth::Bit128 => 7,
            SlotWidth::X1 => 8,
            SlotWidth::X2 => 9,
            SlotWidth::X4 => 0xa,
            SlotWidth::X8 => 0xb,
            SlotWidth::X12 => 0xc,
            SlotWidth::X16 => 0xd,
            SlotWidth::X32 => 0xe,
        }
    }

    /// The number of the variant in the SMBIOS specification.
    pub fn value(&self) -> (r: u8)
        ensures
            r == self.spec_value(),
    {
        match self {
            SlotWidth::Other => 1,
            SlotWidth::Unknown => 2,
            SlotWidth::Bit8 => 3,
            SlotWidth::Bit16 => 4,
            SlotWidth::Bit32 => 5,
            SlotWidth::Bit64 => 6,
            SlotWidth::Bit128 => 7,
            SlotWidth::X1 => 8,
            SlotWidth::X2 => 9,
            SlotWidth::X4 => 0xa,
            SlotWidth::X8 => 0xb,
            SlotWidth::X12 => 0xc,
            SlotWidth::X16 => 0xd,
            SlotWidth::X32 => 0xe,
        }
    }
}

/// System Slot Current Usage (Type 9, offset 0x07)
#[derive(Copy, Clone, Debug)]
pub enum CurrentUsage {
    Other,
    Unknown,
    Available,
    InUse,
    Unavailable,
}

impl CurrentUsage {
    /// The number of the variant in the SMBIOS specification.
    pub open spec fn spec_value(&self) -> u8 {
        match self {
            CurrentUsage::Other => 1,
            CurrentUsage::Unknown => 2,
            CurrentUsage::Available => 3,
            CurrentUsage::InUse => 4,
            CurrentUsage::Unavailable => 5,
        }
    }

    /// The number of the variant in the SMBIOS specification.
    pub fn value(&self) -> (r: u8)
        ensures
            r == self.spec_value(),
    {
        match self {
            CurrentUsage::Other => 1,
            CurrentUsage::Unknown => 2,
            CurrentUsage::Available => 3,
            CurrentUsage::InUse => 4,
            CurrentUsage::Unavailable => 5,
        }
    }
}

/// System Slot Length (Type 9, offset 0x08)
#[derive(Copy, Clone, Debug)]
pub enum SlotLength {
    Other,
    Unknown,
    ShortLength,
    LongLength,
    DriveFF25,
    DriveFF35,
}

impl SlotLength {
    /// The number of the variant in the SMBIOS specification.
    pub open spec fn spec_value(&self) -> u8 {
        match self {
            SlotLength::Other => 1,
            SlotLength::Unknown => 2,
            SlotLength::ShortLength => 3,
            SlotLength::LongLength => 4,
            SlotLength::DriveFF25 => 5,
            SlotLength::DriveFF35 => 6,
        }
    }

    /// The number of the variant in the SMBIOS specification.
    pub fn value(&self) -> (r: u8)
        ensures
            r == self.spec_value(),
    {
        match self {
            SlotLength::Other => 1,
            SlotLength::Unknown => 2,
            SlotLength::ShortLength => 3,
            SlotLength::LongLength => 4,
            SlotLength::DriveFF25 => 5,
            SlotLength::DriveFF35 => 6,
        }
    }
}

/// System Slot Characteristics 1 (Type 9, offset 0x0B)
#[derive(Debug, Clone, Copy)]
pub struct SlotCharacteristics1(u8);

impl View for SlotCharacteristics1 {
    type V = u8;

    closed spec fn view(&self) -> u8 {
        self.0
    }
}

impl SlotCharacteristics1 {
    /// A value with every bit clear.
    pub fn new() -> (r: Self)
        ensures
            r@ == 0,
    {
        Self(0)
    }

    /// The value whose bits are `bits`.
    pub fn from_bits(bits: u8) -> (r: Self)
        ensures
            r@ == bits,
    {
        Self(bits)
    }

    /// The bits of the value.
    pub fn into_bits(self) -> (r: u8)
        ensures
            r == self@,
    {
        self.0
    }

    pub fn characteristics_unknown(&self) -> (r: bool)
        ensures
            r == ((self@ >> 0u32) & 1 == 1),
    {
        (self.0 >> 0u32) & 1 == 1
    }

    /// The value with `characteristics_unknown` set to `value`.
    pub fn with_characteristics_unknown(self, value: bool) -> (r: Self)
        ensures
            r@ == (if value { self@ | (1u8 << 0u32) } else { self@ & !(1u8 << 0u32) }),
    {
        if value {
            Self(self.0 | (1u8 << 0u32))
        } else {
            Self(self.0 & !(1u8 << 0u32))
        }
    }

    pub fn provides_5_volts(&self) -> (r: bool)
        ensures
            r == ((self@ >> 1u32) & 1 == 1),
    {
        (self.0 >> 1u32) & 1 == 1
    }

    /// The value with `provides_5_volts` set to `value`.
    pub fn with_provides_5_volts(self, value: bool) -> (r: Self)
        ensures
            r@ == (if value { self@ | (1u8 << 1u32) } else { self@ & !(1u8 << 1u32) }),
    {
        if value {
            Self(self.0 | (1u8 << 1u32))
        } else {
            Self(self.0 & !(1u8 << 1u32))
        }
    }

    pub fn provides_3_volts(&self) -> (r: bool)
        ensures
            r == ((self@ >> 2u32) & 1 == 1),
    {
        (self.0 >> 2u32) & 1 == 1
    }

    /// The value with `provides_3_volts` set to `value`.
    pub fn with_provides_3_volts(self, value: bool) -> (r: Self)
        ensures
            r@ == (if value { self@ | (1u8 << 2u32) } else { self@ & !(1u8 << 2u32) }),
    {
        if value {
            Self(self.0 | (1u8 << 2u32))
        } else {
            Self(self.0 & !(1u8 << 2u32))
        }
    }

    pub fn shared_slot(&self) -> (r: bool)
        ensures
            r == ((self@ >> 3u32) & 1 == 1),
    {
        (self.0 >> 3u32) & 1 == 1
    }

    /// The value with `shared_slot` set to `value`.
    pub fn with_shared_slot(self, value: bool) -> (r: Self)
        ensures
            r@ == (if value { self@ | (1u8 << 3u32) } else { self@ & !(1u8 << 3u32) }),
    {
        if value {
            Self(self.0 | (1u8 << 3u32))
        } else {
            Self(self.0 & !(1u8 << 3u32))
        }
    }

    pub fn pc_supports_pccard16(&self) -> (r: bool)
        ensures
            r == ((self@ >> 4u32) & 1 == 1),
    {
        (self.0 >> 4u32) & 1 == 1
    }

    /// The value with `pc_supports_pccard16` set to `value`.
    pub fn with_pc_supports_pccard16(self, value: bool) -> (r: Self)
        ensures
            r@ == (if value { self@ | (1u8 << 4u32) } else { self@ & !(1u8 << 4u32) }),
    {
        if value {
            Self(self.0 | (1u8 << 4u32))
        } else {
            Self(self.0 & !(1u8 << 4u32))
        }
    }

    pub fn pc_supports_cardbus(&self) -> (r: bool)
        ensures
            r == ((self@ >> 5u32) & 1 == 1),
    {
        (self.0 >> 5u32) & 1 == 1
    }

    /// The value with `pc_supports_cardbus` set to `value`.
    pub fn with_pc_supports_cardbus(self, value: bool) -> (r: Self)
        ensures
            r@ == (if value { self@ | (1u8 << 5u32) } else { self@ & !(1u8 << 5u32) }),
    {
        if value {
            Self(self.0 | (1u8 << 5u32))
        } else {
            Self(self.0 & !(1u8 << 5u32))
        }
    }

    pub fn pc_supports_zoomvideo(&self) -> (r: bool)
        ensures
            r == ((self@ >> 6u32) & 1 == 1),
    {
        (self.0 >> 6u32) & 1 == 1
    }

    /// The value with `pc_supports_zoomvideo` set to `value`.
    pub fn with_pc_supports_zoomvideo(self, value: bool) -> (r: Self)
        ensures
            r@ == (if value { self@ | (1u8 << 6u32) } else { self@ & !(1u8 << 6u32) }),
    {
        if value {
            Self(self.0 | (1u8 << 6u32))
        } else {
            Self(self.0 & !(1u8 << 6u32))
        }
    }

    pub fn pc_supports_modemringresume(&self) -> (r: bool)
        ensures
            r == ((self@ >> 7u32) & 1 == 1),
    {
        (self.0 >> 7u32) & 1 == 1
    }

    /// The value with `pc_supports_modemringresume` set to `value`.
    pub fn with_pc_supports_modemringresume(self, value: bool) -> (r: Self)
        ensures
            r@ == (if value { self@ | (1u8 << 7u32) } else { self@ & !(1u8 << 7u32) }),
    {
        if value {
            Self(self.0 | (1u8 << 7u32))
        } else {
            Self(self.0 & !(1u8 << 7u32))
        }
    }
}

/// System Slot Characteristics 2 (Type 9, offset 0x0C)
#[derive(Debug, Clone, Copy)]
pub struct SlotCharacteristics2(u8);

impl View for SlotCharacteristics2 {
    type V = u8;

    closed spec fn view(&self) -> u8 {
        self.0
    }
}

impl SlotCharacteristics2 {
    /// A value with every bit clear.
    pub fn new() -> (r: Self)
        ensures
            r@ == 0,
    {
        Self(0)
    }

    /// The value whose bits are `bits`.
    pub fn from_bits(bits: u8) -> (r: Self)
        ensures
            r@ == bits,
    {
        Self(bits)
    }

    /// The bits of the value.
    pub fn into_bits(self) -> (r: u8)
        ensures
            r == self@,
    {
        self.0
    }

    pub fn pci_supports_pme(&self) -> (r: bool)
        ensures
            r == ((self@ >> 0u32) & 1 == 1),
    {
        (self.0 >> 0u32) & 1 == 1
    }

    /// The value with `pci_supports_pme` set to `value`.
    pub fn with_pci_supports_pme(self, value: bool) -> (r: Self)
        ensures
            r@ == (if value { self@ | (1u8 << 0u32) } else { self@ & !(1u8 << 0u32) }),
    {
        if value {
            Self(self.0 | (1u8 << 0u32))
        } else {
            Self(self.0 & !(1u8 << 0u32))
        }
    }

    pub fn supports_hotplug(&self) -> (r: bool)
        ensures
            r == ((self@ >> 1u32) & 1 == 1),
    {
        (self.0 >> 1u32) & 1 == 1
    }

    /// The value with `supports_hotplug` set to `value`.
    pub fn with_supports_hotplug(self, value: bool) -> (r: Self)
        ensures
            r@ == (if value { self@ | (1u8 << 1u32) } else { self@ & !(1u8 << 1u32) }),
    {
        if value {
            Self(self.0 | (1u8 << 1u32))
        } else {
            Self(self.0 & !(1u8 << 1u32))
        }
    }

    pub fn pci_supports_smbus(&self) -> (r: bool)
        ensures
            r == ((self@ >> 2u32) & 1 == 1),
    {
        (self.0 >> 2u32) & 1 == 1
    }

    /// The value with `pci_supports_smbus` set to `value`.
    pub fn with_pci_supports_smbus(self, value: bool) -> (r: Self)
        ensures
            r@ == (if value { self@ | (1u8 << 2u32) } else { self@ & !(1u8 << 2u32) }),
    {
        if value {
            Self(self.0 | (1u8 << 2u32))
        } else {
            Self(self.0 & !(1u8 << 2u32))
        }
    }

    pub fn pcie_supports_bifurcation(&self) -> (r: bool)
        ensures
            r == ((self@ >> 3u32) & 1 == 1),
    {
        (self.0 >> 3u32) & 1 == 1
    }

    /// The value with `pcie_supports_bifurcation` set to `value`.
    pub fn with_pcie_supports_bifurcation(self, value: bool) -> (r: Self)
        ensures
            r@ == (if value { self@ | (1u8 << 3u32) } else { self@ & !(1u8 << 3u32) }),
    {
        if value {
            Self(self.0 | (1u8 << 3u32))
        } else {
            Self(self.0 & !(1u8 << 3u32))
        }
    }

    pub fn supports_async_removal(&self) -> (r: bool)
        ensures
            r == ((self@ >> 4u32) & 1 == 1),
    {
        (self.0 >> 4u32) & 1 == 1
    }

    /// The value with `supports_async_removal` set to `value`.
    pub fn with_supports_async_removal(self, value: bool) -> (r: Self)
        ensures
            r@ == (if value { self@ | (1u8 << 4u32) } else { self@ & !(1u8 << 4u32) }),
    {
        if value {
            Self(self.0 | (1u8 << 4u32))
        } else {
            Self(self.0 & !(1u8 << 4u32))
        }
    }

    pub fn flexbus_slot1(&self) -> (r: bool)
        ensures
            r == ((self@ >> 5u32) & 1 == 1),
    {
        (self.0 >> 5u32) & 1 == 1
    }

    /// The value with `flexbus_slot1` set to `value`.
    pub fn with_flexbus_slot1(self, value: bool) -> (r: Self)
        ensures
            r@ == (if value { self@ | (1u8 << 5u32) } else { self@ & !(1u8 << 5u32) }),
    {
        if value {
            Self(self.0 | (1u8 << 5u32))
        } else {
            Self(self.0 & !(1u8 << 5u32))
        }
    }

    pub fn flexbus_slot2(&self) -> (r: bool)
        ensures
            r == ((self@ >> 6u32) & 1 == 1),
    {
        (self.0 >> 6u32) & 1 == 1
    }

    /// The value with `flexbus_slot2` set to `value`.
    pub fn with_flexbus_slot2(self, value: bool) -> (r: Self)
        ensures
            r@ == (if value { self@ | (1u8 << 6u32) } else { self@ & !(1u8 << 6u32) }),
    {
        if value {
            Self(self.0 | (1u8 << 6u32))
        } else {
            Self(self.0 & !(1u8 << 6u32))
        }
    }

    pub fn flexbus_slot3(&self) -> (r: bool)
        ensures
            r == ((self@ >> 7u32) & 1 == 1),
    {
        (self.0 >> 7u32) & 1 == 1
    }

    /// The value with `flexbus_slot3` set to `value`.
    pub fn with_flexbus_slot3(self, value: bool) -> (r: Self)
        ensures
            r@ == (if value { self@ | (1u8 << 7u32) } else { self@ & !(1u8 << 7u32) }),
    {
        if value {
            Self(self.0 | (1u8 << 7u32))
        } else {
            Self(self.0 & !(1u8 << 7u32))
        }
    }
}

/// System Slot Device/Function Number (Type 9, offset 0x10)
#[derive(Debug, Clone, Copy)]
pub struct DeviceFunctionNumber(u8);

impl View for DeviceFunctionNumber {
    type V = u8;

    closed spec fn view(&self) -> u8 {
        self.0
    }
}

impl DeviceFunctionNumber {
    /// A value with every bit clear.
    pub fn new() -> (r: Self)
        ensures
            r@ == 0,
    {
        Self(0)
    }

    /// The value whose bits are `bits`.
    pub fn from_bits(bits: u8) -> (r: Self)
        ensures
            r@ == bits,
    {
        Self(bits)
    }

    /// The bits of the value.
    pub fn into_bits(self) -> (r: u8)
        ensures
            r == self@,
    {
        self.0
    }

    pub fn function_number(&self) -> (r: u8)
        ensures
            r == ((self@ >> 0u32) & 0x7),
    {
        ((self.0 >> 0u32) & 0x7)
    }

    /// The value with `function_number` set to `value`, which must fit in 3 bits.
    pub fn with_function_number(self, value: u8) -> (r: Self)
        requires
            value <= 0x7,
        ensures
            r@ == ((self@ & !(0x7u8 << 0u32)) | ((value) << 0u32)),
    {
        Self((self.0 & !(0x7u8 << 0u32)) | ((value) << 0u32))
    }

    pub fn device_number(&self) -> (r: u8)
        ensures
            r == ((self@ >> 3u32) & 0x1f),
    {
        ((self.0 >> 3u32) & 0x1f)
    }

    /// The value with `device_number` set to `value`, which must fit in 5 bits.
    pub fn with_device_number(self, value: u8) -> (r: Self)
        requires
            value <= 0x1f,
        ensures
            r@ == ((self@ & !(0x1fu8 << 3u32)) | ((value) << 3u32)),
    {
        Self((self.0 & !(0x1fu8 << 3u32)) | ((value) << 3u32))
    }
}

/// System Slot Peer Group entry (5 bytes)
#[derive(Copy, Clone, Debug)]
pub struct MiscSlotPeerGroup {
    pub segment_group_num: u16,
    pub bus_num: u8,
    pub dev_func_num: DeviceFunctionNumber,
    pub data_bus_width: u8,
}

/// Memory Array Location (Type 16, offset 0x04)
#[derive(Copy, Clone, Debug)]
pub enum MemoryArrayLocation {
    Other,
    Unknown,
    SystemBoard,
    IsaAddOn,
    EisaAddOn,
    PciAddOn,
    McaAddOn,
    PcmciaAddOn,
    ProprietaryAddOn,
    NuBus,
    Pc98C20AddOn,
    Pc98C24AddOn,
    Pc98EAddOn,
    Pc98LocalAddOn,
    CxlAddOn,
}

impl MemoryArrayLocation {
    /// The number of the variant in the SMBIOS specification.
    pub open spec fn spec_value(&self) -> u8 {
        match self {
            MemoryArrayLocation::Other => 1,
            MemoryArrayLocation::Unknown => 2,
            MemoryArrayLocation::SystemBoard => 3,
            MemoryArrayLocation::IsaAddOn => 4,
            MemoryArrayLocation::EisaAddOn => 5,
            MemoryArrayLocation::PciAddOn => 6,
            MemoryArrayLocation::McaAddOn => 7,
            MemoryArrayLocation::PcmciaAddOn => 8,
            MemoryArrayLocation::ProprietaryAddOn => 9,
            MemoryArrayLocation::NuBus => 0xa,
            MemoryArrayLocation::Pc98C20AddOn => 0xa0,
            MemoryArrayLocation::Pc98C24AddOn => 0xa1,
            MemoryArrayLocation::Pc98EAddOn => 0xa2,
            MemoryArrayLocation::Pc98LocalAddOn => 0xa3,
            MemoryArrayLocation::CxlAddOn => 0xa4,
        }
    }

    /// The number of the variant in the SMBIOS specification.
    pub fn value(&self) -> (r: u8)
        ensures
            r == self.spec_value(),
    {
        match self {
            MemoryArrayLocation::Other => 1,
            MemoryArrayLocation::Unknown => 2,
            MemoryArrayLocation::SystemBoard => 3,
            MemoryArrayLocation::IsaAddOn => 4,
            MemoryArrayLocation::EisaAddOn => 5,
            MemoryArrayLocation::PciAddOn => 6,
            MemoryArrayLocation::McaAddOn => 7,
            MemoryArrayLocation::PcmciaAddOn => 8,
            MemoryArrayLocation::ProprietaryAddOn => 9,
            MemoryArrayLocation::NuBus => 0xa,
            MemoryArrayLocation::Pc98C20AddOn => 0xa0,
            MemoryArrayLocation::Pc98C24AddOn => 0xa1,
            MemoryArrayLocation::Pc98EAddOn => 0xa2,
            MemoryArrayLocation::Pc98LocalAddOn => 0xa3,
            MemoryArrayLocation::CxlAddOn => 0xa4,
        }
    }
}

/// Memory Array Use (Type 16, offset 0x05)
#[derive(Copy, Clone, Debug)]
pub enum MemoryArrayUse {
    Other,
    Unknown,
    SystemMemory,
    VideoMemory,
    FlashMemory,
    NonVolatileRam,
    CacheMemory,
}

impl MemoryArrayUse {
    /// The number of the variant in the SMBIOS specification.
    pub open spec fn spec_value(&self) -> u8 {
        match self {
            MemoryArrayUse::Other => 1,
            MemoryArrayUse::Unknown => 2,
            MemoryArrayUse::SystemMemory => 3,
            MemoryArrayUse::VideoMemory => 4,
            MemoryArrayUse::FlashMemory => 5,
            MemoryArrayUse::NonVolatileRam => 6,
            MemoryArrayUse::CacheMemory => 7,
        }
    }

    /// The number of the variant in the SMBIOS specification.
    pub fn value(&self) -> (r: u8)
        ensures
            r == self.spec_value(),
    {
        match self {
            MemoryArrayUse::Other => 1,
            MemoryArrayUse::Unknown => 2,
            MemoryArrayUse::SystemMemory => 3,
            MemoryArrayUse::VideoMemory => 4,
            MemoryArrayUse::FlashMemory => 5,
            MemoryArrayUse::NonVolatileRam => 6,
            MemoryArrayUse::CacheMemory => 7,
        }
    }
}

/// Memory Array Error Correction Types (Type 16, offset 0x06)
#[derive(Copy, Clone, Debug)]
pub enum ErrorCorrectionTypes {
    Other,
    Unknown,
    NoEcc,
    Parity,
    SingleBitEcc,
    MultiBitEcc,
    Crc,
}

impl ErrorCorrectionTypes {
    /// The number of the variant in the SMBIOS specification.
    pub open spec fn spec_value(&self) -> u8 {
        match self {
            ErrorCorrectionTypes::Other => 1,
            ErrorCorrectionTypes::Unknown => 2,
            ErrorCorrectionTypes::NoEcc => 3,
            ErrorCorrectionTypes::Parity => 4,
            ErrorCorrectionTypes::SingleBitEcc => 5,
            ErrorCorrectionTypes::MultiBitEcc => 6,
            ErrorCorrectionTypes::Crc => 7,
        }
    }

    /// The number of the variant in the SMBIOS specification.
    pub fn value(&self) -> (r: u8)
        ensures
            r == self.spec_value(),
    {
        match self {
            ErrorCorrectionTypes::Other => 1,
            ErrorCorrectionTypes::Unknown => 2,
            ErrorCorrectionTypes::NoEcc => 3,
            ErrorCorrectionTypes::Parity => 4,
            ErrorCorrectionTypes::SingleBitEcc => 5,
            ErrorCorrectionTypes::MultiBitEcc => 6,
            ErrorCorrectionTypes::Crc => 7,
        }
    }
}

/// Memory Device Form Factor (Type 17, offset 0x0E)
#[derive(Copy, Clone, Debug)]
pub enum MemoryFormFactor {
    Other,
    Unknown,
    Simm,
    Sip,
    Chip,
    Dip,
    Zip,
    ProprietaryCard,
    Dimm,
    Tsop,
    RowOfChips,
    Rimm,
    Sodimm,
    Srimm,
    FbDimm,
    Die,
    Camm,
    Cudimm,
    Csodimm,
}

impl MemoryFormFactor {
    /// The number of the variant in the SMBIOS specification.
    pub open spec fn spec_value(&self) -> u8 {
        match self {
            MemoryFormFactor::Other => 1,
            MemoryFormFactor::Unknown => 2,
            MemoryFormFactor::Simm => 3,
            MemoryFormFactor::Sip => 4,
            MemoryFormFactor::Chip => 5,
            MemoryFormFactor::Dip => 6,
            MemoryFormFactor::Zip => 7,
            MemoryFormFactor::ProprietaryCard => 8,
            MemoryFormFactor::Dimm => 9,
            MemoryFormFactor::Tsop => 0xa,
            MemoryFormFactor::RowOfChips => 0xb,
            MemoryFormFactor::Rimm => 0xc,
            MemoryFormFactor::Sodimm => 0xd,
            MemoryFormFactor::Srimm => 0xe,
            MemoryFormFactor::FbDimm => 0xf,
            MemoryFormFactor::Die => 0x10,
            MemoryFormFactor::Camm => 0x11,
            MemoryFormFactor::Cudimm => 0x12,
            MemoryFormFactor::Csodimm => 0x13,
        }
    }

    /// The number of the variant in the SMBIOS specification.
    pub fn value(&self) -> (r: u8)
        ensures
            r == self.spec_value(),
    {
        match self {
            MemoryFormFactor::Other => 1,
            MemoryFormFactor::Unknown => 2,
            MemoryFormFactor::Simm => 3,
            MemoryFormFactor::Sip => 4,
            MemoryFormFactor::Chip => 5,
            MemoryFormFactor::Dip => 6,
            MemoryFormFactor::Zip => 7,
            MemoryFormFactor::ProprietaryCard => 8,
            MemoryFormFactor::Dimm => 9,
            MemoryFormFactor::Tsop => 0xa,
            MemoryFormFactor::RowOfChips => 0xb,
            MemoryFormFactor::Rimm => 0xc,
            MemoryFormFactor::Sodimm => 0xd,
            MemoryFormFactor::Srimm => 0xe,
            MemoryFormFactor::FbDimm => 0xf,
            MemoryFormFactor::Die => 0x10,
            MemoryFormFactor::Camm => 0x11,
            MemoryFormFactor::Cudimm => 0x12,
            MemoryFormFactor::Csodimm => 0x13,
        }
    }
}

/// Memory Device Memory Type (Type 17, offset 0x12)
#[derive(Copy, Clone, Debug)]
pub enum MemoryDeviceType {
    Other,
    Unknown,
    Dram,
    Edram,
    Vram,
    Sram,
    Ram,
    Rom,
    Flash,
    Eeprom,
    Feprom,
    Eprom,
    Cdram,
    ThreeDram,
    Sdram,
    Sgram,
    Rdram,
    Ddr,
    Ddr2,
    Ddr2FbDimm,
    Ddr3,
    Fbd2,
    Ddr4,
    Lpddr,
    Lpddr2,
    Lpddr3,
    Lpddr4,
    LogicalNonVolatileDevice,
    Hbm,
    Hbm2,
    Ddr5,
    Lpddr5,
    Hbm3,
    Mrdimm,
}

impl MemoryDeviceType {
    /// The number of the variant in the SMBIOS specification.
    pub open spec fn spec_value(&self) -> u8 {
        match self {
            MemoryDeviceType::Other => 1,
            MemoryDeviceType::Unknown => 2,
            MemoryDeviceType::Dram => 3,
            MemoryDeviceType::Edram => 4,
            MemoryDeviceType::Vram => 5,
            MemoryDeviceType::Sram => 6,
            MemoryDeviceType::Ram => 7,
            MemoryDeviceType::Rom => 8,
            MemoryDeviceType::Flash => 9,
            MemoryDeviceType::Eeprom => 0xa,
            MemoryDeviceType::Feprom => 0xb,
            MemoryDeviceType::Eprom => 0xc,
            MemoryDeviceType::Cdram => 0xd,
            MemoryDeviceType::ThreeDram => 0xe,
            MemoryDeviceType::Sdram => 0xf,
            MemoryDeviceType::Sgram => 0x10,
            MemoryDeviceType::Rdram => 0x11,
            MemoryDeviceType::Ddr => 0x12,
            MemoryDeviceType::Ddr2 => 0x13,
            MemoryDeviceType::Ddr2FbDimm => 0x14,
            MemoryDeviceType::Ddr3 => 0x18,
            MemoryDeviceType::Fbd2 => 0x19,
            MemoryDeviceType::Ddr4 => 0x1a,
            MemoryDeviceType::Lpddr => 0x1b,
            MemoryDeviceType::Lpddr2 => 0x1c,
            MemoryDeviceType::Lpddr3 => 0x1d,
            MemoryDeviceType::Lpddr4 => 0x1e,
            MemoryDeviceType::LogicalNonVolatileDevice => 0x1f,
            MemoryDeviceType::Hbm => 0x20,
            MemoryDeviceType::Hbm2 => 0x21,
            MemoryDeviceType::Ddr5 => 0x22,
            MemoryDeviceType::Lpddr5 => 0x23,
            MemoryDeviceType::Hbm3 => 0x24,
            MemoryDeviceType::Mrdimm => 0x25,
        }
    }

    /// The number of the variant in the SMBIOS specification.
    pub fn value(&self) -> (r: u8)
        ensures
            r == self.spec_value(),
    {
        match self {
            MemoryDeviceType::Other => 1,
            MemoryDeviceType::Unknown => 2,
            MemoryDeviceType::Dram => 3,
            MemoryDeviceType::Edram => 4,
            MemoryDeviceType::Vram => 5,
            MemoryDeviceType::Sram => 6,
            MemoryDeviceType::Ram => 7,
            MemoryDeviceType::Rom => 8,
            MemoryDeviceType::Flash => 9,
            MemoryDeviceType::Eeprom => 0xa,
            MemoryDeviceType::Feprom => 0xb,
            MemoryDeviceType::Eprom => 0xc,
            MemoryDeviceType::Cdram => 0xd,
            MemoryDeviceType::ThreeDram => 0xe,
            MemoryDeviceType::Sdram => 0xf,
            MemoryDeviceType::Sgram => 0x10,
            MemoryDeviceType::Rdram => 0x11,
            MemoryDeviceType::Ddr => 0x12,
            MemoryDeviceType::Ddr2 => 0x13,
            MemoryDeviceType::Ddr2FbDimm => 0x14,
            MemoryDeviceType::Ddr3 => 0x18,
            MemoryDeviceType::Fbd2 => 0x19,
            MemoryDeviceType::Ddr4 => 0x1a,
            MemoryDeviceType::Lpddr => 0x1b,
            MemoryDeviceType::Lpddr2 => 0x1c,
            MemoryDeviceType::Lpddr3 => 0x1d,
            MemoryDeviceType::Lpddr4 => 0x1e,
            MemoryDeviceType::LogicalNonVolatileDevice => 0x1f,
            MemoryDeviceType::Hbm => 0x20,
            MemoryDeviceType::Hbm2 => 0x21,
            MemoryDeviceType::Ddr5 => 0x22,
            MemoryDeviceType::Lpddr5 => 0x23,
            MemoryDeviceType::Hbm3 => 0x24,
            MemoryDeviceType::Mrdimm => 0x25,
        }
    }
}

/// Memory Device Type Detail (Type 17, offset 0x13)
#[derive(Debug, Clone, Copy)]
pub struct MemoryDeviceTypeDetails(u16);

impl View for MemoryDeviceTypeDetails {
    type V = u16;

    closed spec fn view(&self) -> u16 {
        self.0
    }
}

impl MemoryDeviceTypeDetails {
    /// A value with every bit clear.
    pub fn new() -> (r: Self)
        ensures
            r@ == 0,
    {
        Self(0)
    }

    /// The value whose bits are `bits`.
    pub fn from_bits(bits: u16) -> (r: Self)
        ensures
            r@ == bits,
    {
        Self(bits)
    }

    /// The bits of the value.
    pub fn into_bits(self) -> (r: u16)
        ensures
            r == self@,
    {
        self.0
    }

    pub fn reserved(&self) -> (r: bool)
        ensures
            r == ((self@ >> 0u32) & 1 == 1),
    {
        (self.0 >> 0u32) & 1 == 1
    }

    /// The value with `reserved` set to `value`.
    pub fn with_reserved(self, value: bool) -> (r: Self)
        ensures
            r@ == (if value { self@ | (1u16 << 0u32) } else { self@ & !(1u16 << 0u32) }),
    {
        if value {
            Self(self.0 | (1u16 << 0u32))
        } else {
            Self(self.0 & !(1u16 << 0u32))
        }
    }

    pub fn other(&self) -> (r: bool)
        ensures
            r == ((self@ >> 1u32) & 1 == 1),
    {
        (self.0 >> 1u32) & 1 == 1
    }

    /// The value with `other` set to `value`.
    pub fn with_other(self, value: bool) -> (r: Self)
        ensures
            r@ == (if value { self@ | (1u16 << 1u32) } else { self@ & !(1u16 << 1u32) }),
    {
        if value {
            Self(self.0 | (1u16 << 1u32))
        } else {
            Self(self.0 & !(1u16 << 1u32))
        }
    }

    pub fn unknown(&self) -> (r: bool)
        ensures
            r == ((self@ >> 2u32) & 1 == 1),
    {
        (self.0 >> 2u32) & 1 == 1
    }

    /// The value with `unknown` set to `value`.
    pub fn with_unknown(self, value: bool) -> (r: Self)
        ensures
            r@ == (if value { self@ | (1u16 << 2u32) } else { self@ & !(1u16 << 2u32) }),
    {
        if value {
            Self(self.0 | (1u16 << 2u32))
        } else {
            Self(self.0 & !(1u16 << 2u32))
        }
    }

    pub fn fast_paged(&self) -> (r: bool)
        ensures
            r == ((self@ >> 3u32) & 1 == 1),
    {
        (self.0 >> 3u32) & 1 == 1
    }

    /// The value with `fast_paged` set to `value`.
    pub fn with_fast_paged(self, value: bool) -> (r: Self)
        ensures
            r@ == (if value { self@ | (1u16 << 3u32) } else { self@ & !(1u16 << 3u32) }),
    {
        if value {
            Self(self.0 | (1u16 << 3u32))
        } else {
            Self(self.0 & !(1u16 << 3u32))
        }
    }

    pub fn static_column(&self) -> (r: bool)
        ensures
            r == ((self@ >> 4u32) & 1 == 1),
    {
        (self.0 >> 4u32) & 1 == 1
    }

    /// The value with `static_column` set to `value`.
    pub fn with_static_column(self, value: bool) -> (r: Self)
        ensures
            r@ == (if value { self@ | (1u16 << 4u32) } else { self@ & !(1u16 << 4u32) }),
    {
        if value {
            Self(self.0 | (1u16 << 4u32))
        } else {
            Self(self.0 & !(1u16 << 4u32))
        }
    }

    pub fn pseudo_static(&self) -> (r: bool)
        ensures
            r == ((self@ >> 5u32) & 1 == 1),
    {
        (self.0 >> 5u32) & 1 == 1
    }

    /// The value with `pseudo_static` set to `value`.
    pub fn with_pseudo_static(self, value: bool) -> (r: Self)
        ensures
            r@ == (if value { self@ | (1u16 << 5u32) } else { self@ & !(1u16 << 5u32) }),
    {
        if value {
            Self(self.0 | (1u16 << 5u32))
        } else {
            Self(self.0 & !(1u16 << 5u32))
        }
    }

    pub fn rambus(&self) -> (r: bool)
        ensures
            r == ((self@ >> 6u32) & 1 == 1),
    {
        (self.0 >> 6u32) & 1 == 1
    }

    /// The value with `rambus` set to `value`.
    pub fn with_rambus(self, value: bool) -> (r: Self)
        ensures
            r@ == (if value { self@ | (1u16 << 6u32) } else { self@ & !(1u16 << 6u32) }),
    {
        if value {
            Self(self.0 | (1u16 << 6u32))
        } else {
            Self(self.0 & !(1u16 << 6u32))
        }
    }

    pub fn synchronous(&self) -> (r: bool)
        ensures
            r == ((self@ >> 7u32) & 1 == 1),
    {
        (self.0 >> 7u32) & 1 == 1
    }

    /// The value with `synchronous` set to `value`.
    pub fn with_synchronous(self, value: bool) -> (r: Self)
        ensures
            r@ == (if value { self@ | (1u16 << 7u32) } else { self@ & !(1u16 << 7u32) }),
    {
        if value {
            Self(self.0 | (1u16 << 7u32))
        } else {
            Self(self.0 & !(1u16 << 7u32))
        }
    }

    pub fn cmos(&self) -> (r: bool)
        ensures
            r == ((self@ >> 8u32) & 1 == 1),
    {
        (self.0 >> 8u32) & 1 == 1
    }

    /// The value with `cmos` set to `value`.
    pub fn with_cmos(self, value: bool) -> (r: Self)
        ensures
            r@ == (if value { self@ | (1u16 << 8u32) } else { self@ & !(1u16 << 8u32) }),
    {
        if value {
            Self(self.0 | (1u16 << 8u32))
        } else {
            Self(self.0 & !(1u16 << 8u32))
        }
    }

    pub fn edo(&self) -> (r: bool)
        ensures
            r == ((self@ >> 9u32) & 1 == 1),
    {
        (self.0 >> 9u32) & 1 == 1
    }

    /// The value with `edo` set to `value`.
    pub fn with_edo(self, value: bool) -> (r: Self)
        ensures
            r@ == (if value { self@ | (1u16 << 9u32) } else { self@ & !(1u16 << 9u32) }),
    {
        if value {
            Self(self.0 | (1u16 << 9u32))
        } else {
            Self(self.0 & !(1u16 << 9u32))
        }
    }

    pub fn window_dram(&self) -> (r: bool)
        ensures
            r == ((self@ >> 10u32) & 1 == 1),
    {
        (self.0 >> 10u32) & 1 == 1
    }

    /// The value with `window_dram` set to `value`.
    pub fn with_window_dram(self, value: bool) -> (r: Self)
        ensures
            r@ == (if value { self@ | (1u16 << 10u32) } else { self@ & !(1u16 << 10u32) }),
    {
        if value {
            Self(self.0 | (1u16 << 10u32))
        } else {
            Self(self.0 & !(1u16 << 10u32))
        }
    }

    pub fn cache_dram(&self) -> (r: bool)
        ensures
            r == ((self@ >> 11u32) & 1 == 1),
    {
        (self.0 >> 11u32) & 1 == 1
    }

    /// The value with `cache_dram` set to `value`.
    pub fn with_cache_dram(self, value: bool) -> (r: Self)
        ensures
            r@ == (if value { self@ | (1u16 << 11u32) } else { self@ & !(1u16 << 11u32) }),
    {
        if value {
            Self(self.0 | (1u16 << 11u32))
        } else {
            Self(self.0 & !(1u16 << 11u32))
        }
    }

    pub fn nonvolatile(&self) -> (r: bool)
        ensures
            r == ((self@ >> 12u32) & 1 == 1),
    {
        (self.0 >> 12u32) & 1 == 1
    }

    /// The value with `nonvolatile` set to `value`.
    pub fn with_nonvolatile(self, value: bool) -> (r: Self)
        ensures
            r@ == (if value { self@ | (1u16 << 12u32) } else { self@ & !(1u16 << 12u32) }),
    {
        if value {
            Self(self.0 | (1u16 << 12u32))
        } else {
            Self(self.0 & !(1u16 << 12u32))
        }
    }

    pub fn registered(&self) -> (r: bool)
        ensures
            r == ((self@ >> 13u32) & 1 == 1),
    {
        (self.0 >> 13u32) & 1 == 1
    }

    /// The value with `registered` set to `value`.
    pub fn with_registered(self, value: bool) -> (r: Self)
        ensures
            r@ == (if value { self@ | (1u16 << 13u32) } else { self@ & !(1u16 << 13u32) }),
    {
        if value {
            Self(self.0 | (1u16 << 13u32))
        } else {
            Self(self.0 & !(1u16 << 13u32))
        }
    }

    pub fn unbuffered(&self) -> (r: bool)
        ensures
            r == ((self@ >> 14u32) & 1 == 1),
    {
        (self.0 >> 14u32) & 1 == 1
    }

    /// The value with `unbuffered` set to `value`.
    pub fn with_unbuffered(self, value: bool) -> (r: Self)
        ensures
            r@ == (if value { self@ | (1u16 << 14u32) } else { self@ & !(1u16 << 14u32) }),
    {
        if value {
            Self(self.0 | (1u16 << 14u32))
        } else {
            Self(self.0 & !(1u16 << 14u32))
        }
    }

    pub fn lr_dimm(&self) -> (r: bool)
        ensures
            r == ((self@ >> 15u32) & 1 == 1),
    {
        (self.0 >> 15u32) & 1 == 1
    }

    /// The value with `lr_dimm` set to `value`.
    pub fn with_lr_dimm(self, value: bool) -> (r: Self)
        ensures
            r@ == (if value { self@ | (1u16 << 15u32) } else { self@ & !(1u16 << 15u32) }),
    {
        if value {
            Self(self.0 | (1u16 << 15u32))
        } else {
            Self(self.0 & !(1u16 << 15u32))
        }
    }
}

/// Memory Device Memory Technology (Type 17, offset 0x28)
#[derive(Copy, Clone, Debug)]
pub enum MemoryDeviceTechnology {
    Other,
    Unknown,
    Dram,
    NvdimmN,
    NvdimmF,
    NvdimmP,
    IntelOptanePersistentMemory,
}

impl MemoryDeviceTechnology {
    /// The number of the variant in the SMBIOS specification.
    pub open spec fn spec_value(&self) -> u8 {
        match self {
            MemoryDeviceTechnology::Other => 1,
            MemoryDeviceTechnology::Unknown => 2,
            MemoryDeviceTechnology::Dram => 3,
            MemoryDeviceTechnology::NvdimmN => 4,
            MemoryDeviceTechnology::NvdimmF => 5,
            MemoryDeviceTechnology::NvdimmP => 6,
            MemoryDeviceTechnology::IntelOptanePersistentMemory => 7,
        }
    }

    /// The number of the variant in the SMBIOS specification.
    pub fn value(&self) -> (r: u8)
        ensures
            r == self.spec_value(),
    {
        match self {
            MemoryDeviceTechnology::Other => 1,
            MemoryDeviceTechnology::Unknown => 2,
            MemoryDeviceTechnology::Dram => 3,
            MemoryDeviceTechnology::NvdimmN => 4,
            MemoryDeviceTechnology::NvdimmF => 5,
            MemoryDeviceTechnology::NvdimmP => 6,
            MemoryDeviceTechnology::IntelOptanePersistentMemory => 7,
        }
    }
}

/// Memory Device Attributes (Type 17, offset 0x21)
#[derive(Debug, Clone, Copy)]
pub struct MemoryDeviceAttributes(u8);

impl View for MemoryDeviceAttributes {
    type V = u8;

    closed spec fn view(&self) -> u8 {
        self.0
    }
}

impl MemoryDeviceAttributes {
    /// A value with every bit clear.
    pub fn new() -> (r: Self)
        ensures
            r@ == 0,
    {
        Self(0)
    }

    /// The value whose bits are `bits`.
    pub fn from_bits(bits: u8) -> (r: Self)
        ensures
            r@ == bits,
    {
        Self(bits)
    }

    /// The bits of the value.
    pub fn into_bits(self) -> (r: u8)
        ensures
            r == self@,
    {
        self.0
    }

    pub fn rank(&self) -> (r: u8)
        ensures
            r == ((self@ >> 0u32) & 0xf),
    {
        ((self.0 >> 0u32) & 0xf)
    }

    /// The value with `rank` set to `value`, which must fit in 4 bits.
    pub fn with_rank(self, value: u8) -> (r: Self)
        requires
            value <= 0xf,
        ensures
            r@ == ((self@ & !(0xfu8 << 0u32)) | ((value) << 0u32)),
    {
        Self((self.0 & !(0xfu8 << 0u32)) | ((value) << 0u32))
    }

    pub fn reserved(&self) -> (r: u8)
        ensures
            r == ((self@ >> 4u32) & 0xf),
    {
        ((self.0 >> 4u32) & 0xf)
    }

    /// The value with `reserved` set to `value`, which must fit in 4 bits.
    pub fn with_reserved(self, value: u8) -> (r: Self)
        requires
            value <= 0xf,
        ensures
            r@ == ((self@ & !(0xfu8 << 4u32)) | ((value) << 4u32)),
    {
        Self((self.0 & !(0xfu8 << 4u32)) | ((value) << 4u32))
    }
}

/// Memory Device Operating Mode Capability (Type 17, offset 0x29)
#[derive(Debug, Clone, Copy)]
pub struct MemoryCapability(u16);

impl View for MemoryCapability {
    type V = u16;

    closed spec fn view(&self) -> u16 {
        self.0
    }
}

impl MemoryCapability {
    /// A value with every bit clear.
    pub fn new() -> (r: Self)
        ensures
            r@ == 0,
    {
        Self(0)
    }

    /// The value whose bits are `bits`.
    pub fn from_bits(bits: u16) -> (r: Self)
        ensures
            r@ == bits,
    {
        Self(bits)
    }

    /// The bits of the value.
    pub fn into_bits(self) -> (r: u16)
        ensures
            r == self@,
    {
        self.0
    }

    pub fn reserved(&self) -> (r: bool)
        ensures
            r == ((self@ >> 0u32) & 1 == 1),
    {
        (self.0 >> 0u32) & 1 == 1
    }

    /// The value with `reserved` set to `value`.
    pub fn with_reserved(self, value: bool) -> (r: Self)
        ensures
            r@ == (if value { self@ | (1u16 << 0u32) } else { self@ & !(1u16 << 0u32) }),
    {
        if value {
            Self(self.0 | (1u16 << 0u32))
        } else {
            Self(self.0 & !(1u16 << 0u32))
        }
    }

    pub fn other(&self) -> (r: bool)
        ensures
            r == ((self@ >> 1u32) & 1 == 1),
    {
        (self.0 >> 1u32) & 1 == 1
    }

    /// The value with `other` set to `value`.
    pub fn with_other(self, value: bool) -> (r: Self)
        ensures
            r@ == (if value { self@ | (1u16 << 1u32) } else { self@ & !(1u16 << 1u32) }),
    {
        if value {
            Self(self.0 | (1u16 << 1u32))
        } else {
            Self(self.0 & !(1u16 << 1u32))
        }
    }

    pub fn unknown(&self) -> (r: bool)
        ensures
            r == ((self@ >> 2u32) & 1 == 1),
    {
        (self.0 >> 2u32) & 1 == 1
    }

    /// The value with `unknown` set to `value`.
    pub fn with_unknown(self, value: bool) -> (r: Self)
        ensures
            r@ == (if value { self@ | (1u16 << 2u32) } else { self@ & !(1u16 << 2u32) }),
    {
        if value {
            Self(self.0 | (1u16 << 2u32))
        } else {
            Self(self.0 & !(1u16 << 2u32))
        }
    }

    pub fn volatile_memory(&self) -> (r: bool)
        ensures
            r == ((self@ >> 3u32) & 1 == 1),
    {
        (self.0 >> 3u32) & 1 == 1
    }

    /// The value with `volatile_memory` set to `value`.
    pub fn with_volatile_memory(self, value: bool) -> (r: Self)
        ensures
            r@ == (if value { self@ | (1u16 << 3u32) } else { self@ & !(1u16 << 3u32) }),
    {
        if value {
            Self(self.0 | (1u16 << 3u32))
        } else {
            Self(self.0 & !(1u16 << 3u32))
        }
    }

    pub fn byte_persistent_memory(&self) -> (r: bool)
        ensures
            r == ((self@ >> 4u32) & 1 == 1),
    {
        (self.0 >> 4u32) & 1 == 1
    }

    /// The value with `byte_persistent_memory` set to `value`.
    pub fn with_byte_persistent_memory(self, value: bool) -> (r: Self)
        ensures
            r@ == (if value { self@ | (1u16 << 4u32) } else { self@ & !(1u16 << 4u32) }),
    {
        if value {
            Self(self.0 | (1u16 << 4u32))
        } else {
            Self(self.0 & !(1u16 << 4u32))
        }
    }

    pub fn block_persistent_memory(&self) -> (r: bool)
        ensures
            r == ((self@ >> 5u32) & 1 == 1),
    {
        (self.0 >> 5u32) & 1 == 1
    }

    /// The value with `block_persistent_memory` set to `value`.
    pub fn with_block_persistent_memory(self, value: bool) -> (r: Self)
        ensures
            r@ == (if value { self@ | (1u16 << 5u32) } else { self@ & !(1u16 << 5u32) }),
    {
        if value {
            Self(self.0 | (1u16 << 5u32))
        } else {
            Self(self.0 & !(1u16 << 5u32))
        }
    }

    pub fn reserved2(&self) -> (r: u16)
        ensures
            r == ((self@ >> 6u32) & 0x3ff),
    {
        ((self.0 >> 6u32) & 0x3ff)
    }

    /// The value with `reserved2` set to `value`, which must fit in 10 bits.
    pub fn with_reserved2(self, value: u16) -> (r: Self)
        requires
            value <= 0x3ff,
        ensures
            r@ == ((self@ & !(0x3ffu16 << 6u32)) | ((value) << 6u32)),
    {
        Self((self.0 & !(0x3ffu16 << 6u32)) | ((value) << 6u32))
    }
}

} // verus!
