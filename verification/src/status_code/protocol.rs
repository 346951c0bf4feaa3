//! The EFI status code data header and the payload handed to EFI callbacks.

use crate::le_bytes::{from_le16, law_le16_roundtrip, le16, push_bytes, push_le16};
use crate::status_code::service::{Guid, StatusCodeData};
use vstd::prelude::*;

verus! {

/// Header of extended status code data (EFI_STATUS_CODE_DATA).
#[derive(Debug, Clone, Copy, PartialEq, Eq)]
pub struct EfiStatusCodeHeader {
    /// Size of the header.
    pub header_size: u16,
    /// Data size in bytes, excluding the header size itself.
    pub data_size: u16,
    /// Type of the data.
    pub data_type: Guid,
}

impl EfiStatusCodeHeader {
    /// The bytes of the header: its two sizes in the byte order of UEFI
    /// platforms (little-endian), then the GUID's bytes.
    pub open spec fn spec_bytes(&self) -> Seq<u8> {
        le16(self.header_size) + le16(self.data_size) + self.data_type@
    }

    /// Serializes the header.
    pub fn to_bytes(&self) -> (r: Vec<u8>)
        ensures
            r@ == self.spec_bytes(),
    {
        let mut buf: Vec<u8> = Vec::new();
        push_le16(&mut buf, self.header_size);
        push_le16(&mut buf, self.data_size);
        push_bytes(&mut buf, self.data_type.as_slice());
        assert(buf@ =~= self.spec_bytes());
        buf
    }
}

/// The extended data as an EFI callback receives it: the header's bytes
/// followed by the data.
pub fn efi_status_code_payload(data: &StatusCodeData) -> (r: Vec<u8>)
    ensures
        r@ == data.data_header.spec_bytes() + data.data_bytes@,
{
    let mut buf = data.data_header.to_bytes();
    push_bytes(&mut buf, data.data_bytes.as_slice());
    buf
}

/// Size of the status code data header: two sizes and a GUID.
pub const EFI_STATUS_CODE_HEADER_SIZE: u16 = 20;

/// The header at the start of `m`.
pub open spec fn header_at(m: Seq<u8>) -> EfiStatusCodeHeader {
    EfiStatusCodeHeader {
        header_size: from_le16(m[0], m[1]),
        data_size: from_le16(m[2], m[3]),
        data_type: [
            m[4],
            m[5],
            m[6],
            m[7],
            m[8],
            m[9],
            m[10],
            m[11],
            m[12],
            m[13],
            m[14],
            m[15],
            m[16],
            m[17],
            m[18],
            m[19],
        ],
    }
}

/// The extended data that a caller passes as the memory `memory` starting
/// at its header: the header, then `data_size` bytes that start
/// `header_size` bytes after the header's start.
pub fn status_code_data_from_memory(memory: &[u8]) -> (r: StatusCodeData)
    requires
        memory@.len() >= 20,
        header_at(memory@).header_size + header_at(memory@).data_size <= memory@.len(),
    ensures
        r.data_header == header_at(memory@),
        r.data_bytes@ == memory@.subrange(
            header_at(memory@).header_size as int,
            header_at(memory@).header_size + header_at(memory@).data_size,
        ),
{
    let header_size = (memory[0] as u16) | ((memory[1] as u16) << 8);
    let data_size = (memory[2] as u16) | ((memory[3] as u16) << 8);
    let data_type: Guid = [
        memory[4],
        memory[5],
        memory[6],
        memory[7],
        memory[8],
        memory[9],
        memory[10],
        memory[11],
        memory[12],
        memory[13],
        memory[14],
        memory[15],
        memory[16],
        memory[17],
        memory[18],
        memory[19],
    ];
    let start = header_size as usize;
    let end = start + data_size as usize;
    let mut data_bytes: Vec<u8> = Vec::new();
    push_bytes(&mut data_bytes, vstd::slice::slice_subrange(memory, start, end));
    StatusCodeData { data_header: EfiStatusCodeHeader { header_size, data_size, data_type }, data_bytes }
}

/// The payload handed to an EFI callback reads back as the same data, for
/// data whose header has the standard size and counts the data bytes.
pub proof fn law_payload_reads_back(header: EfiStatusCodeHeader, data: Seq<u8>)
    requires
        header.header_size == EFI_STATUS_CODE_HEADER_SIZE,
        header.data_size == data.len(),
    ensures
        ({
            let m = header.spec_bytes() + data;
            &&& m.len() >= 20
            &&& header_at(m) == header
            &&& header_at(m).header_size + header_at(m).data_size <= m.len()
            &&& m.subrange(header.header_size as int, header.header_size + header.data_size) == data
        }),
{
    let m = header.spec_bytes() + data;
    law_le16_roundtrip(header.header_size);
    law_le16_roundtrip(header.data_size);
    assert(m.subrange(20, 20 + data.len() as int) =~= data);
    let g = header.data_type;
    assert(header_at(m).data_type =~= g);
}

} // verus!
