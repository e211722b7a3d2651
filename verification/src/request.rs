//! What is asked of the operating system: how the device is opened, and
//! which property is queried.

use vstd::prelude::*;
use crate::layout::{le_bytes, push_u32_le};

verus! {

/// Access that asks for neither reading nor writing the device's data.
pub const ACCESS_NONE: u32 = 0;

/// Sharing that lets other openers read.
pub const SHARE_READ: u32 = 0x1;

/// Sharing that lets other openers write.
pub const SHARE_WRITE: u32 = 0x2;

/// Sharing that lets other openers read and write.
pub const SHARE_READ_WRITE: u32 = 0x3;

/// Disposition that opens only what already exists.
pub const OPEN_EXISTING: u32 = 3;

/// Flag that lets the path name a device object and not a regular file.
pub const FLAG_BACKUP_SEMANTICS: u32 = 0x0200_0000;

/// Control code of the storage property query.
pub const IOCTL_STORAGE_QUERY_PROPERTY: u32 = 0x002D_1400;

/// Property selector for the identity of the device.
pub const STORAGE_DEVICE_PROPERTY: u32 = 0;

/// Query style that asks for the property itself.
pub const PROPERTY_STANDARD_QUERY: u32 = 0;

/// Length in bytes of an encoded property query.
pub const QUERY_LEN: usize = 12;

/// Capacity in bytes of the zeroed buffer that receives the response.
pub const RESPONSE_CAPACITY: u32 = 1024;

/// The four numbers that go with the path when a device is opened.
#[derive(Clone, Copy, Debug, PartialEq, Eq, Structural)]
pub struct OpenMode {
    /// Access to the device's data that is asked for.
    pub desired_access: u32,
    /// Access that other openers keep.
    pub share_mode: u32,
    /// What to do when the path does or does not exist.
    pub creation_disposition: u32,
    /// Flags and attributes of the open.
    pub flags_and_attributes: u32,
}

impl OpenMode {
    /// The mode for reading a device's properties: no data access, other
    /// openers may read and write, the device must exist already, and the
    /// path may name a device object.
    pub open spec fn metadata_only() -> OpenMode {
        OpenMode {
            desired_access: ACCESS_NONE,
            share_mode: SHARE_READ_WRITE,
            creation_disposition: OPEN_EXISTING,
            flags_and_attributes: FLAG_BACKUP_SEMANTICS,
        }
    }

    /// Gives the mode for reading a device's properties.
    pub fn for_metadata() -> (mode: OpenMode)
        ensures
            mode == OpenMode::metadata_only(),
    {
        OpenMode {
            desired_access: ACCESS_NONE,
            share_mode: SHARE_READ_WRITE,
            creation_disposition: OPEN_EXISTING,
            flags_and_attributes: FLAG_BACKUP_SEMANTICS,
        }
    }
}

/// Which property is asked for, and in which style.
#[derive(Clone, Copy, Debug, PartialEq, Eq, Structural)]
pub struct PropertyQueryRequest {
    /// Selector of the property.
    pub property_id: u32,
    /// Selector of the query style.
    pub query_type: u32,
}

impl PropertyQueryRequest {
    /// The standard query for the identity of the device.
    pub open spec fn identity() -> PropertyQueryRequest {
        PropertyQueryRequest {
            property_id: STORAGE_DEVICE_PROPERTY,
            query_type: PROPERTY_STANDARD_QUERY,
        }
    }

    /// The bytes of the request as the system reads it: the two selectors,
    /// little-endian, then one byte of additional parameters and three of
    /// padding, all zero.
    pub open spec fn encoded(self) -> Seq<u8> {
        le_bytes(self.property_id) + le_bytes(self.query_type) + seq![0u8, 0u8, 0u8, 0u8]
    }

    /// Gives the standard query for the identity of the device.
    pub fn device_identity() -> (request: PropertyQueryRequest)
        ensures
            request == PropertyQueryRequest::identity(),
    {
        PropertyQueryRequest {
            property_id: STORAGE_DEVICE_PROPERTY,
            query_type: PROPERTY_STANDARD_QUERY,
        }
    }

    /// Lays the request out as the bytes that are handed to the system.
    pub fn encode(&self) -> (bytes: Vec<u8>)
        ensures
            bytes@ == self.encoded(),
            bytes@.len() == QUERY_LEN,
    {
        let mut bytes: Vec<u8> = Vec::new();
        push_u32_le(&mut bytes, self.property_id);
        push_u32_le(&mut bytes, self.query_type);
        bytes.push(0);
        bytes.push(0);
        bytes.push(0);
        bytes.push(0);
        assert(bytes@ =~= self.encoded());
        bytes
    }
}

} // verus!
