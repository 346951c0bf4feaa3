//! Types of reported status codes.

use crate::le_bytes::push_bytes;
use crate::status_code::protocol::EfiStatusCodeHeader;
use vstd::prelude::*;

verus! {

/// Type of a status code.
pub type StatusCodeType = u32;

/// Value of a status code.
pub type StatusCodeValue = u32;

/// A GUID, as its 16 bytes.
pub type Guid = [u8; 16];

/// Extended data of a status code: its header and the data bytes.
pub struct StatusCodeData {
    /// The header.
    pub data_header: EfiStatusCodeHeader,
    /// The data.
    pub data_bytes: Vec<u8>,
}

impl View for StatusCodeData {
    type V = (EfiStatusCodeHeader, Seq<u8>);

    open spec fn view(&self) -> (EfiStatusCodeHeader, Seq<u8>) {
        (self.data_header, self.data_bytes@)
    }
}

impl Clone for StatusCodeData {
    fn clone(&self) -> (r: Self)
        ensures
            r@ == self@,
    {
        let mut data_bytes: Vec<u8> = Vec::new();
        push_bytes(&mut data_bytes, self.data_bytes.as_slice());
        StatusCodeData { data_header: self.data_header, data_bytes }
    }
}

} // verus!
