//! Typed SMBIOS record structures and their serialization.
//!
//! A record is laid out as its 4-byte header, its structured fields in order
//! (integers little-endian) and its string pool. The `string_pool` of each
//! structure is not part of the binary layout: it holds the strings that the
//! 1-based string index fields refer to.

use crate::le_bytes::{
    from_le16, from_le32, from_le64, law_le16_roundtrip, law_le32_roundtrip, law_le64_roundtrip, le16, le32, le64,
    push_le16, push_le32, push_le64,
};
use crate::smbios::error::SmbiosError;
use crate::smbios::service::{SMBIOS_HANDLE_PI_RESERVED, SMBIOS_STRING_MAX_LENGTH, SmbiosTableHeader};
use crate::smbios::smbios_derive::{pool_bytes, string_bytes, terminated};
use vstd::prelude::*;
use vstd::string::StringSliceAdditionalSpecFns;

verus! {

/// Bytes of each string of a pool.
pub open spec fn pool_views(strings: Seq<String>) -> Seq<Seq<u8>> {
    strings.map_values(|s: String| string_bytes(s))
}

/// Some string of the pool is longer than 64 bytes.
pub open spec fn pool_has_long_string(strings: Seq<String>) -> bool {
    exists|i: int| 0 <= i < strings.len() && string_bytes(#[trigger] strings[i]).len() > SMBIOS_STRING_MAX_LENGTH
}

/// The header a record type serializes with: its type, the length of its
/// structured part and the reserved handle.
pub open spec fn record_header_bytes(record_type: u8, structured_size: u8) -> Seq<u8> {
    (SmbiosTableHeader {
        record_type,
        length: structured_size,
        handle: SMBIOS_HANDLE_PI_RESERVED,
    }).spec_bytes()
}

/// Interface of the typed SMBIOS record structures.
pub trait SmbiosRecordStructure {
    /// The SMBIOS record type number.
    spec fn spec_record_type() -> u8;

    /// The strings of the record.
    spec fn spec_string_pool(&self) -> Seq<String>;

    /// The header and structured fields, as serialized.
    spec fn spec_structured_bytes(&self) -> Seq<u8>;

    /// The structured part starts with a header whose length field is the
    /// size of the structured part.
    proof fn lemma_structured_layout(&self)
        ensures
            self.spec_structured_bytes().len() >= 4,
            self.spec_structured_bytes()[1] as int == self.spec_structured_bytes().len(),
    ;

    /// The SMBIOS record type number.
    fn record_type() -> (r: u8)
        ensures
            r == Self::spec_record_type(),
    ;

    /// Serializes the record.
    fn to_bytes(&self) -> (r: Vec<u8>)
        ensures
            r@ == self.spec_structured_bytes() + pool_bytes(pool_views(self.spec_string_pool())),
    ;

    /// Fails with `StringTooLong` when some string exceeds 64 bytes.
    fn validate(&self) -> (r: Result<(), SmbiosError>)
        ensures
            r is Err <==> pool_has_long_string(self.spec_string_pool()),
            r is Err ==> r == Err::<(), SmbiosError>(SmbiosError::StringTooLong),
    ;

    /// The strings of the record.
    fn string_pool(&self) -> (r: &[String])
        ensures
            r@ == self.spec_string_pool(),
    ;

    /// Mutable access to the strings of the record.
    fn string_pool_mut(&mut self) -> (r: &mut Vec<String>)
        ensures
            r@ == old(self).spec_string_pool(),
            final(self).spec_string_pool() == final(r)@,
            final(self).spec_structured_bytes() == old(self).spec_structured_bytes(),
    ;
}

/// Serializes a string pool: each string followed by a null byte, then a
/// final null; an empty pool is two null bytes.
pub fn serialize_string_pool(strings: &[String]) -> (r: Vec<u8>)
    ensures
        r@ == pool_bytes(pool_views(strings@)),
{
    let mut bytes: Vec<u8> = Vec::new();
    let ghost views = pool_views(strings@);
    if strings.len() == 0 {
        bytes.push(0);
        bytes.push(0);
        proof {
            assert(bytes@ =~= pool_bytes(views));
        }
    } else {
        let mut j: usize = 0;
        assert(views.take(0) =~= Seq::<Seq<u8>>::empty());
        while j < strings.len()
            invariant
                j <= strings@.len(),
                views == pool_views(strings@),
                bytes@ == terminated(views.take(j as int)),
            decreases strings@.len() - j,
        {
            let ghost before = bytes@;
            let s = strings[j].as_str();
            if !s.is_empty() {
                let b = s.as_bytes();
                let mut k: usize = 0;
                while k < b.len()
                    invariant
                        k <= b@.len(),
                        bytes@ == before + b@.take(k as int),
                    decreases b@.len() - k,
                {
                    bytes.push(b[k]);
                    proof {
                        assert(bytes@ =~= before + b@.take(k + 1));
                    }
                    k += 1;
                }
                proof {
                    assert(b@.take(b@.len() as int) =~= b@);
                }
            } else {
                proof {
                    assert(s.spec_bytes() =~= Seq::<u8>::empty()) by {
                        assert(s@.len() == 0);
                        assert(s@ =~= Seq::<char>::empty());
                    }
                    assert(bytes@ =~= before + s.spec_bytes());
                }
            }
            bytes.push(0);
            proof {
                assert(views[j as int] == s.spec_bytes());
                assert(views.take(j + 1).drop_last() =~= views.take(j as int));
                assert(bytes@ =~= terminated(views.take(j + 1)));
            }
            j += 1;
        }
        bytes.push(0);
        proof {
            assert(views.take(views.len() as int) =~= views);
        }
    }
    bytes
}

/// Validation shared by the record types: fails when a string is longer than
/// 64 bytes.
fn validate_pool(strings: &[String]) -> (r: Result<(), SmbiosError>)
    ensures
        r is Err <==> pool_has_long_string(strings@),
        r is Err ==> r == Err::<(), SmbiosError>(SmbiosError::StringTooLong),
{
    let mut i: usize = 0;
    while i < strings.len()
        invariant
            i <= strings@.len(),
            forall|j: int| 0 <= j < i ==> string_bytes(#[trigger] strings@[j]).len() <= SMBIOS_STRING_MAX_LENGTH,
        decreases strings@.len() - i,
    {
        let n = strings[i].as_str().as_bytes().len();
        if n > SMBIOS_STRING_MAX_LENGTH {
            return Err(SmbiosError::StringTooLong);
        }
        i += 1;
    }
    Ok(())
}

/// Appends the pool of `strings` to `bytes`.
fn append_pool(bytes: &mut Vec<u8>, strings: &[String])
    ensures
        final(bytes)@ == old(bytes)@ + pool_bytes(pool_views(strings@)),
{
    let pool = serialize_string_pool(strings);
    let mut k: usize = 0;
    while k < pool.len()
        invariant
            k <= pool@.len(),
            bytes@ == old(bytes)@ + pool@.take(k as int),
        decreases pool@.len() - k,
    {
        bytes.push(pool[k]);
        proof {
            assert(bytes@ =~= old(bytes)@ + pool@.take(k + 1));
        }
        k += 1;
    }
    proof {
        assert(pool@.take(pool@.len() as int) =~= pool@);
    }
}

/// Appends a record header with the reserved handle.
fn push_header(bytes: &mut Vec<u8>, record_type: u8, structured_size: u8)
    ensures
        final(bytes)@ == old(bytes)@ + record_header_bytes(record_type, structured_size),
{
    bytes.push(record_type);
    bytes.push(structured_size);
    push_le16(bytes, SMBIOS_HANDLE_PI_RESERVED);
    assert(final(bytes)@ =~= old(bytes)@ + record_header_bytes(record_type, structured_size));
}

/// Type 0: Platform Firmware Information (BIOS Information).
pub struct Type0PlatformFirmwareInformation {
    /// SMBIOS table header
    pub header: SmbiosTableHeader,
    /// Vendor string index
    pub vendor: u8,
    /// Firmware version string index
    pub firmware_version: u8,
    /// BIOS starting address segment
    pub bios_starting_address_segment: u16,
    /// Firmware release date string index
    pub firmware_release_date: u8,
    /// Firmware ROM size
    pub firmware_rom_size: u8,
    /// BIOS characteristics
    pub characteristics: u64,
    /// BIOS characteristics extension byte 1
    pub characteristics_ext1: u8,
    /// BIOS characteristics extension byte 2
    pub characteristics_ext2: u8,
    /// System BIOS major release
    pub system_bios_major_release: u8,
    /// System BIOS minor release
    pub system_bios_minor_release: u8,
    /// Embedded controller firmware major release
    pub embedded_controller_major_release: u8,
    /// Embedded controller firmware minor release
    pub embedded_controller_minor_release: u8,
    /// Extended BIOS ROM size
    pub extended_bios_rom_size: u16,
    /// Strings referred to by the index fields (not part of the binary layout).
    pub string_pool: Vec<String>,
}

impl Type0PlatformFirmwareInformation {
    /// SMBIOS record type of this structure.
    pub const RECORD_TYPE: u8 = 0;
}

impl SmbiosRecordStructure for Type0PlatformFirmwareInformation {
    open spec fn spec_record_type() -> u8 {
        0
    }

    open spec fn spec_string_pool(&self) -> Seq<String> {
        self.string_pool@
    }

    open spec fn spec_structured_bytes(&self) -> Seq<u8> {
        record_header_bytes(0, 26) + seq![self.vendor, self.firmware_version] + le16(
            self.bios_starting_address_segment,
        ) + seq![self.firmware_release_date, self.firmware_rom_size] + le64(self.characteristics)
            + seq![
            self.characteristics_ext1,
            self.characteristics_ext2,
            self.system_bios_major_release,
            self.system_bios_minor_release,
            self.embedded_controller_major_release,
            self.embedded_controller_minor_release,
        ] + le16(self.extended_bios_rom_size)
    }

    proof fn lemma_structured_layout(&self) {
    }

    fn record_type() -> (r: u8) {
        Self::RECORD_TYPE
    }

    fn to_bytes(&self) -> (r: Vec<u8>) {
        let mut bytes: Vec<u8> = Vec::new();
        push_header(&mut bytes, 0, 26);
        bytes.push(self.vendor);
        bytes.push(self.firmware_version);
        push_le16(&mut bytes, self.bios_starting_address_segment);
        bytes.push(self.firmware_release_date);
        bytes.push(self.firmware_rom_size);
        push_le64(&mut bytes, self.characteristics);
        bytes.push(self.characteristics_ext1);
        bytes.push(self.characteristics_ext2);
        bytes.push(self.system_bios_major_release);
        bytes.push(self.system_bios_minor_release);
        bytes.push(self.embedded_controller_major_release);
        bytes.push(self.embedded_controller_minor_release);
        push_le16(&mut bytes, self.extended_bios_rom_size);
        assert(bytes@ =~= self.spec_structured_bytes());
        append_pool(&mut bytes, self.string_pool.as_slice());
        bytes
    }

    fn validate(&self) -> (r: Result<(), SmbiosError>) {
        validate_pool(self.string_pool.as_slice())
    }

    fn string_pool(&self) -> (r: &[String]) {
        self.string_pool.as_slice()
    }

    fn string_pool_mut(&mut self) -> (r: &mut Vec<String>) {
        &mut self.string_pool
    }
}

/// Type 1: System Information.
pub struct Type1SystemInformation {
    /// SMBIOS table header
    pub header: SmbiosTableHeader,
    /// Manufacturer string index
    pub manufacturer: u8,
    /// Product name string index
    pub product_name: u8,
    /// Version string index
    pub version: u8,
    /// Serial number string index
    pub serial_number: u8,
    /// UUID bytes
    pub uuid: [u8; 16],
    /// Wake-up type
    pub wake_up_type: u8,
    /// SKU number string index
    pub sku_number: u8,
    /// Family string index
    pub family: u8,
    /// Strings referred to by the index fields (not part of the binary layout).
    pub string_pool: Vec<String>,
}

impl Type1SystemInformation {
    /// SMBIOS record type of this structure.
    pub const RECORD_TYPE: u8 = 1;
}

impl SmbiosRecordStructure for Type1SystemInformation {
    open spec fn spec_record_type() -> u8 {
        1
    }

    open spec fn spec_string_pool(&self) -> Seq<String> {
        self.string_pool@
    }

    open spec fn spec_structured_bytes(&self) -> Seq<u8> {
        record_header_bytes(1, 27) + seq![
            self.manufacturer,
            self.product_name,
            self.version,
            self.serial_number,
        ] + self.uuid@ + seq![self.wake_up_type, self.sku_number, self.family]
    }

    proof fn lemma_structured_layout(&self) {
    }

    fn record_type() -> (r: u8) {
        Self::RECORD_TYPE
    }

    fn to_bytes(&self) -> (r: Vec<u8>) {
        let mut bytes: Vec<u8> = Vec::new();
        push_header(&mut bytes, 1, 27);
        bytes.push(self.manufacturer);
        bytes.push(self.product_name);
        bytes.push(self.version);
        bytes.push(self.serial_number);
        let ghost before = bytes@;
        let mut k: usize = 0;
        while k < 16
            invariant
                k <= 16,
                bytes@ == before + self.uuid@.take(k as int),
            decreases 16 - k,
        {
            bytes.push(self.uuid[k]);
            proof {
                assert(bytes@ =~= before + self.uuid@.take(k + 1));
            }
            k += 1;
        }
        assert(self.uuid@.take(16) =~= self.uuid@);
        bytes.push(self.wake_up_type);
        bytes.push(self.sku_number);
        bytes.push(self.family);
        assert(bytes@ =~= self.spec_structured_bytes());
        append_pool(&mut bytes, self.string_pool.as_slice());
        bytes
    }

    fn validate(&self) -> (r: Result<(), SmbiosError>) {
        validate_pool(self.string_pool.as_slice())
    }

    fn string_pool(&self) -> (r: &[String]) {
        self.string_pool.as_slice()
    }

    fn string_pool_mut(&mut self) -> (r: &mut Vec<String>) {
        &mut self.string_pool
    }
}

/// Type 2: Baseboard Information.
pub struct Type2BaseboardInformation {
    /// SMBIOS table header
    pub header: SmbiosTableHeader,
    /// Manufacturer string index
    pub manufacturer: u8,
    /// Product string index
    pub product: u8,
    /// Version string index
    pub version: u8,
    /// Serial number string index
    pub serial_number: u8,
    /// Asset tag string index
    pub asset_tag: u8,
    /// Feature flags
    pub feature_flags: u8,
    /// Location in chassis string index
    pub location_in_chassis: u8,
    /// Chassis handle
    pub chassis_handle: u16,
    /// Board type
    pub board_type: u8,
    /// Number of contained object handles
    pub contained_object_handles: u8,
    /// Strings referred to by the index fields (not part of the binary layout).
    pub string_pool: Vec<String>,
}

impl Type2BaseboardInformation {
    /// SMBIOS record type of this structure.
    pub const RECORD_TYPE: u8 = 2;
}

impl SmbiosRecordStructure for Type2BaseboardInformation {
    open spec fn spec_record_type() -> u8 {
        2
    }

    open spec fn spec_string_pool(&self) -> Seq<String> {
        self.string_pool@
    }

    open spec fn spec_structured_bytes(&self) -> Seq<u8> {
        record_header_bytes(2, 15) + seq![
            self.manufacturer,
            self.product,
            self.version,
            self.serial_number,
            self.asset_tag,
            self.feature_flags,
            self.location_in_chassis,
        ] + le16(self.chassis_handle) + seq![self.board_type, self.contained_object_handles]
    }

    proof fn lemma_structured_layout(&self) {
    }

    fn record_type() -> (r: u8) {
        Self::RECORD_TYPE
    }

    fn to_bytes(&self) -> (r: Vec<u8>) {
        let mut bytes: Vec<u8> = Vec::new();
        push_header(&mut bytes, 2, 15);
        bytes.push(self.manufacturer);
        bytes.push(self.product);
        bytes.push(self.version);
        bytes.push(self.serial_number);
        bytes.push(self.asset_tag);
        bytes.push(self.feature_flags);
        bytes.push(self.location_in_chassis);
        push_le16(&mut bytes, self.chassis_handle);
        bytes.push(self.board_type);
        bytes.push(self.contained_object_handles);
        assert(bytes@ =~= self.spec_structured_bytes());
        append_pool(&mut bytes, self.string_pool.as_slice());
        bytes
    }

    fn validate(&self) -> (r: Result<(), SmbiosError>) {
        validate_pool(self.string_pool.as_slice())
    }

    fn string_pool(&self) -> (r: &[String]) {
        self.string_pool.as_slice()
    }

    fn string_pool_mut(&mut self) -> (r: &mut Vec<String>) {
        &mut self.string_pool
    }
}

/// Type 3: System Enclosure.
pub struct Type3SystemEnclosure {
    /// SMBIOS table header
    pub header: SmbiosTableHeader,
    /// Manufacturer string index
    pub manufacturer: u8,
    /// Enclosure type
    pub enclosure_type: u8,
    /// Version string index
    pub version: u8,
    /// Serial number string index
    pub serial_number: u8,
    /// Asset tag number string index
    pub asset_tag_number: u8,
    /// Boot-up state
    pub bootup_state: u8,
    /// Power supply state
    pub power_supply_state: u8,
    /// Thermal state
    pub thermal_state: u8,
    /// Security status
    pub security_status: u8,
    /// OEM-defined
    pub oem_defined: u32,
    /// Height
    pub height: u8,
    /// Number of power cords
    pub number_of_power_cords: u8,
    /// Contained element count
    pub contained_element_count: u8,
    /// Contained element record length
    pub contained_element_record_length: u8,
    /// Strings referred to by the index fields (not part of the binary layout).
    pub string_pool: Vec<String>,
}

impl Type3SystemEnclosure {
    /// SMBIOS record type of this structure.
    pub const RECORD_TYPE: u8 = 3;
}

impl SmbiosRecordStructure for Type3SystemEnclosure {
    open spec fn spec_record_type() -> u8 {
        3
    }

    open spec fn spec_string_pool(&self) -> Seq<String> {
        self.string_pool@
    }

    open spec fn spec_structured_bytes(&self) -> Seq<u8> {
        record_header_bytes(3, 21) + seq![
            self.manufacturer,
            self.enclosure_type,
            self.version,
            self.serial_number,
            self.asset_tag_number,
            self.bootup_state,
            self.power_supply_state,
            self.thermal_state,
            self.security_status,
        ] + le32(self.oem_defined) + seq![
            self.height,
            self.number_of_power_cords,
            self.contained_element_count,
            self.contained_element_record_length,
        ]
    }

    proof fn lemma_structured_layout(&self) {
    }

    fn record_type() -> (r: u8) {
        Self::RECORD_TYPE
    }

    fn to_bytes(&self) -> (r: Vec<u8>) {
        let mut bytes: Vec<u8> = Vec::new();
        push_header(&mut bytes, 3, 21);
        bytes.push(self.manufacturer);
        bytes.push(self.enclosure_type);
        bytes.push(self.version);
        bytes.push(self.serial_number);
        bytes.push(self.asset_tag_number);
        bytes.push(self.bootup_state);
        bytes.push(self.power_supply_state);
        bytes.push(self.thermal_state);
        bytes.push(self.security_status);
        push_le32(&mut bytes, self.oem_defined);
        bytes.push(self.height);
        bytes.push(self.number_of_power_cords);
        bytes.push(self.contained_element_count);
        bytes.push(self.contained_element_record_length);
        assert(bytes@ =~= self.spec_structured_bytes());
        append_pool(&mut bytes, self.string_pool.as_slice());
        bytes
    }

    fn validate(&self) -> (r: Result<(), SmbiosError>) {
        validate_pool(self.string_pool.as_slice())
    }

    fn string_pool(&self) -> (r: &[String]) {
        self.string_pool.as_slice()
    }

    fn string_pool_mut(&mut self) -> (r: &mut Vec<String>) {
        &mut self.string_pool
    }
}

/// Type 127: End-of-Table marker. Header only (length 4), no strings.
pub struct Type127EndOfTable {
    /// SMBIOS header
    pub header: SmbiosTableHeader,
    /// String pool (always empty for Type 127)
    pub string_pool: Vec<String>,
}

impl Type127EndOfTable {
    /// SMBIOS record type of this structure.
    pub const RECORD_TYPE: u8 = 127;

    /// Creates an End-of-Table marker: type 127, length 4, reserved handle,
    /// no strings.
    pub fn new() -> (r: Self)
        ensures
            r.header == (SmbiosTableHeader {
                record_type: 127,
                length: 4,
                handle: SMBIOS_HANDLE_PI_RESERVED,
            }),
            r.string_pool@ == Seq::<String>::empty(),
    {
        Self { header: SmbiosTableHeader::new(127, 4, SMBIOS_HANDLE_PI_RESERVED), string_pool: Vec::new() }
    }
}

impl Default for Type127EndOfTable {
    fn default() -> (r: Self)
        ensures
            r.header == (SmbiosTableHeader {
                record_type: 127,
                length: 4,
                handle: SMBIOS_HANDLE_PI_RESERVED,
            }),
            r.string_pool@ == Seq::<String>::empty(),
    {
        Self::new()
    }
}

impl SmbiosRecordStructure for Type127EndOfTable {
    open spec fn spec_record_type() -> u8 {
        127
    }

    open spec fn spec_string_pool(&self) -> Seq<String> {
        self.string_pool@
    }

    open spec fn spec_structured_bytes(&self) -> Seq<u8> {
        record_header_bytes(127, 4)
    }

    proof fn lemma_structured_layout(&self) {
    }

    fn record_type() -> (r: u8) {
        Self::RECORD_TYPE
    }

    fn to_bytes(&self) -> (r: Vec<u8>) {
        let mut bytes: Vec<u8> = Vec::new();
        push_header(&mut bytes, 127, 4);
        append_pool(&mut bytes, self.string_pool.as_slice());
        bytes
    }

    fn validate(&self) -> (r: Result<(), SmbiosError>) {
        validate_pool(self.string_pool.as_slice())
    }

    fn string_pool(&self) -> (r: &[String]) {
        self.string_pool.as_slice()
    }

    fn string_pool_mut(&mut self) -> (r: &mut Vec<String>) {
        &mut self.string_pool
    }
}

/// The structured part of a Type 0 record follows the SMBIOS layout: type
/// 0 and length 0x1A, then at 0x04 the vendor, 0x05 the firmware version,
/// 0x06 the starting address segment (a word), 0x08 the release date, 0x09
/// the ROM size, 0x0A the characteristics (a quad word), 0x12 and 0x13 the
/// extension bytes, 0x14 to 0x17 the BIOS and embedded controller
/// releases, and 0x18 the extended ROM size (a word).
pub proof fn law_type0_field_offsets(t: Type0PlatformFirmwareInformation)
    ensures
        ({
            let b = t.spec_structured_bytes();
            &&& b.len() == 0x1A
            &&& b[0x00] == 0 && b[0x01] == 0x1A
            &&& b[0x04] == t.vendor
            &&& b[0x05] == t.firmware_version
            &&& from_le16(b[0x06], b[0x07]) == t.bios_starting_address_segment
            &&& b[0x08] == t.firmware_release_date
            &&& b[0x09] == t.firmware_rom_size
            &&& from_le64(b.subrange(0x0A, 0x12)) == t.characteristics
            &&& b[0x12] == t.characteristics_ext1
            &&& b[0x13] == t.characteristics_ext2
            &&& b[0x14] == t.system_bios_major_release
            &&& b[0x15] == t.system_bios_minor_release
            &&& b[0x16] == t.embedded_controller_major_release
            &&& b[0x17] == t.embedded_controller_minor_release
            &&& from_le16(b[0x18], b[0x19]) == t.extended_bios_rom_size
        }),
{
    let b = t.spec_structured_bytes();
    law_le16_roundtrip(t.bios_starting_address_segment);
    law_le16_roundtrip(t.extended_bios_rom_size);
    law_le64_roundtrip(t.characteristics);
    assert(b.subrange(0x0A, 0x12) =~= le64(t.characteristics));
}

/// The structured part of a Type 1 record follows the SMBIOS layout: type
/// 1 and length 0x1B, then at 0x04 the manufacturer, 0x05 the product
/// name, 0x06 the version, 0x07 the serial number, 0x08 to 0x17 the UUID,
/// 0x18 the wake-up type, 0x19 the SKU number and 0x1A the family.
pub proof fn law_type1_field_offsets(t: Type1SystemInformation)
    ensures
        ({
            let b = t.spec_structured_bytes();
            &&& b.len() == 0x1B
            &&& b[0x00] == 1 && b[0x01] == 0x1B
            &&& b[0x04] == t.manufacturer
            &&& b[0x05] == t.product_name
            &&& b[0x06] == t.version
            &&& b[0x07] == t.serial_number
            &&& b.subrange(0x08, 0x18) == t.uuid@
            &&& b[0x18] == t.wake_up_type
            &&& b[0x19] == t.sku_number
            &&& b[0x1A] == t.family
        }),
{
    let b = t.spec_structured_bytes();
    assert(b.subrange(0x08, 0x18) =~= t.uuid@);
}

/// The structured part of a Type 2 record follows the SMBIOS layout: type
/// 2 and length 0x0F, then at 0x04 the manufacturer, 0x05 the product,
/// 0x06 the version, 0x07 the serial number, 0x08 the asset tag, 0x09 the
/// feature flags, 0x0A the location in the chassis, 0x0B the chassis
/// handle (a word), 0x0D the board type and 0x0E the number of contained
/// object handles.
pub proof fn law_type2_field_offsets(t: Type2BaseboardInformation)
    ensures
        ({
            let b = t.spec_structured_bytes();
            &&& b.len() == 0x0F
            &&& b[0x00] == 2 && b[0x01] == 0x0F
            &&& b[0x04] == t.manufacturer
            &&& b[0x05] == t.product
            &&& b[0x06] == t.version
            &&& b[0x07] == t.serial_number
            &&& b[0x08] == t.asset_tag
            &&& b[0x09] == t.feature_flags
            &&& b[0x0A] == t.location_in_chassis
            &&& from_le16(b[0x0B], b[0x0C]) == t.chassis_handle
            &&& b[0x0D] == t.board_type
            &&& b[0x0E] == t.contained_object_handles
        }),
{
    law_le16_roundtrip(t.chassis_handle);
}

/// The structured part of a Type 3 record follows the SMBIOS layout: type
/// 3 and length 0x15, then at 0x04 the manufacturer, 0x05 the enclosure
/// type, 0x06 the version, 0x07 the serial number, 0x08 the asset tag,
/// 0x09 to 0x0C the boot-up, power supply, thermal and security states,
/// 0x0D the OEM-defined value (a double word), 0x11 the height, 0x12 the
/// number of power cords, 0x13 the contained element count and 0x14 the
/// contained element record length.
pub proof fn law_type3_field_offsets(t: Type3SystemEnclosure)
    ensures
        ({
            let b = t.spec_structured_bytes();
            &&& b.len() == 0x15
            &&& b[0x00] == 3 && b[0x01] == 0x15
            &&& b[0x04] == t.manufacturer
            &&& b[0x05] == t.enclosure_type
            &&& b[0x06] == t.version
            &&& b[0x07] == t.serial_number
            &&& b[0x08] == t.asset_tag_number
            &&& b[0x09] == t.bootup_state
            &&& b[0x0A] == t.power_supply_state
            &&& b[0x0B] == t.thermal_state
            &&& b[0x0C] == t.security_status
            &&& from_le32(b.subrange(0x0D, 0x11)) == t.oem_defined
            &&& b[0x11] == t.height
            &&& b[0x12] == t.number_of_power_cords
            &&& b[0x13] == t.contained_element_count
            &&& b[0x14] == t.contained_element_record_length
        }),
{
    let b = t.spec_structured_bytes();
    law_le32_roundtrip(t.oem_defined);
    assert(b.subrange(0x0D, 0x11) =~= le32(t.oem_defined));
}

/// The serialized record is its structured part, laid out as the SMBIOS
/// layout laws above state, followed by its string pool: the bytes at
/// each field's offset in `to_bytes`' result are those of the field.
pub proof fn law_serialized_prefix<T: SmbiosRecordStructure>(t: &T, r: Seq<u8>)
    requires
        r == t.spec_structured_bytes() + pool_bytes(
            pool_views(t.spec_string_pool()),
        ),
    ensures
        r.take(t.spec_structured_bytes().len() as int) == t.spec_structured_bytes(),
{
    assert(r.take(t.spec_structured_bytes().len() as int) =~= t.spec_structured_bytes());
}

} // verus!
