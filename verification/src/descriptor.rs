//! The fixed header at the start of a device-property response.
//!
//! | bytes  | field                     |
//! |--------|---------------------------|
//! | 0..4   | `version`                 |
//! | 4..8   | `size`                    |
//! | 8      | `device_type`             |
//! | 9      | `device_type_modifier`    |
//! | 10     | `removable_media`         |
//! | 11     | `command_queueing`        |
//! | 12..16 | `vendor_id_offset`        |
//! | 16..20 | `product_id_offset`       |
//! | 20..24 | `product_revision_offset` |
//! | 24..28 | `serial_number_offset`    |
//! | 28..32 | `bus_type`                |
//! | 32..36 | `raw_properties_length`   |
//!
//! Numbers of four bytes are little-endian. The two flags are set by any
//! byte other than zero. The four offsets count bytes from the start of the
//! response; zero means that the string is absent.

use vstd::prelude::*;
use crate::layout::{le_u32, read_u32_le};

verus! {

/// Length in bytes of the fixed header.
pub const HEADER_LEN: usize = 36;

/// Where each field starts, in bytes from the start of the response.
pub const VERSION_AT: usize = 0;
pub const SIZE_AT: usize = 4;
pub const DEVICE_TYPE_AT: usize = 8;
pub const DEVICE_TYPE_MODIFIER_AT: usize = 9;
pub const REMOVABLE_MEDIA_AT: usize = 10;
pub const COMMAND_QUEUEING_AT: usize = 11;
pub const VENDOR_ID_OFFSET_AT: usize = 12;
pub const PRODUCT_ID_OFFSET_AT: usize = 16;
pub const PRODUCT_REVISION_OFFSET_AT: usize = 20;
pub const SERIAL_NUMBER_OFFSET_AT: usize = 24;
pub const BUS_TYPE_AT: usize = 28;
pub const RAW_PROPERTIES_LENGTH_AT: usize = 32;

/// The header fields of a device-property response, decoded.
#[derive(Clone, Copy, Debug, PartialEq, Eq, Structural)]
pub struct DeviceDescriptor {
    /// Length in bytes of the header structure, as the system declares it.
    pub version: u32,
    /// Length in bytes of the whole descriptor, trailing strings included.
    pub size: u32,
    /// Class of the device.
    pub device_type: u8,
    /// Refinement of the class.
    pub device_type_modifier: u8,
    /// Whether the medium can be taken out.
    pub removable_media: bool,
    /// Whether the device queues commands.
    pub command_queueing: bool,
    /// Where the vendor identifier starts, or zero.
    pub vendor_id_offset: u32,
    /// Where the product identifier starts, or zero.
    pub product_id_offset: u32,
    /// Where the product revision starts, or zero.
    pub product_revision_offset: u32,
    /// Where the serial number starts, or zero.
    pub serial_number_offset: u32,
    /// Kind of bus that the device sits on.
    pub bus_type: u32,
    /// Length in bytes of the bus-specific data.
    pub raw_properties_length: u32,
}

/// The header that the first `HEADER_LEN` bytes of `bytes` spell.
pub open spec fn header_of(bytes: Seq<u8>) -> DeviceDescriptor
    recommends
        bytes.len() >= HEADER_LEN,
{
    DeviceDescriptor {
        version: le_u32(bytes, VERSION_AT as int),
        size: le_u32(bytes, SIZE_AT as int),
        device_type: bytes[DEVICE_TYPE_AT as int],
        device_type_modifier: bytes[DEVICE_TYPE_MODIFIER_AT as int],
        removable_media: bytes[REMOVABLE_MEDIA_AT as int] != 0,
        command_queueing: bytes[COMMAND_QUEUEING_AT as int] != 0,
        vendor_id_offset: le_u32(bytes, VENDOR_ID_OFFSET_AT as int),
        product_id_offset: le_u32(bytes, PRODUCT_ID_OFFSET_AT as int),
        product_revision_offset: le_u32(bytes, PRODUCT_REVISION_OFFSET_AT as int),
        serial_number_offset: le_u32(bytes, SERIAL_NUMBER_OFFSET_AT as int),
        bus_type: le_u32(bytes, BUS_TYPE_AT as int),
        raw_properties_length: le_u32(bytes, RAW_PROPERTIES_LENGTH_AT as int),
    }
}

impl DeviceDescriptor {
    /// Decodes the header field by field. A block shorter than the header
    /// has none.
    pub fn parse(bytes: &[u8]) -> (header: Option<DeviceDescriptor>)
        ensures
            header == if bytes@.len() >= HEADER_LEN {
                Some(header_of(bytes@))
            } else {
                None
            },
    {
        if bytes.len() < HEADER_LEN {
            return None;
        }
        Some(
            DeviceDescriptor {
                version: read_u32_le(bytes, VERSION_AT),
                size: read_u32_le(bytes, SIZE_AT),
                device_type: bytes[DEVICE_TYPE_AT],
                device_type_modifier: bytes[DEVICE_TYPE_MODIFIER_AT],
                removable_media: bytes[REMOVABLE_MEDIA_AT] != 0,
                command_queueing: bytes[COMMAND_QUEUEING_AT] != 0,
                vendor_id_offset: read_u32_le(bytes, VENDOR_ID_OFFSET_AT),
                product_id_offset: read_u32_le(bytes, PRODUCT_ID_OFFSET_AT),
                product_revision_offset: read_u32_le(bytes, PRODUCT_REVISION_OFFSET_AT),
                serial_number_offset: read_u32_le(bytes, SERIAL_NUMBER_OFFSET_AT),
                bus_type: read_u32_le(bytes, BUS_TYPE_AT),
                raw_properties_length: read_u32_le(bytes, RAW_PROPERTIES_LENGTH_AT),
            },
        )
    }
}

} // verus!
