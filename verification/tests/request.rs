use disk_serial::request::{
    OpenMode, PropertyQueryRequest, ACCESS_NONE, FLAG_BACKUP_SEMANTICS,
    IOCTL_STORAGE_QUERY_PROPERTY, OPEN_EXISTING, PROPERTY_STANDARD_QUERY, QUERY_LEN,
    RESPONSE_CAPACITY, SHARE_READ, SHARE_READ_WRITE, SHARE_WRITE, STORAGE_DEVICE_PROPERTY,
};

#[test]
fn open_mode_asks_for_metadata_only() {
    let mode = OpenMode::for_metadata();
    assert_eq!(
        mode,
        OpenMode {
            desired_access: 0,
            share_mode: 3,
            creation_disposition: 3,
            flags_and_attributes: 0x0200_0000,
        }
    );
    assert_eq!(mode.desired_access, ACCESS_NONE);
    assert_eq!(mode.share_mode, SHARE_READ | SHARE_WRITE);
    assert_eq!(mode.share_mode, SHARE_READ_WRITE);
    assert_eq!(mode.creation_disposition, OPEN_EXISTING);
    assert_eq!(mode.flags_and_attributes, FLAG_BACKUP_SEMANTICS);
}

#[test]
fn control_code_is_the_storage_property_query() {
    let mass_storage: u32 = 0x2d;
    let function: u32 = 0x0500;
    assert_eq!(IOCTL_STORAGE_QUERY_PROPERTY, (mass_storage << 16) | (function << 2));
    assert_eq!(IOCTL_STORAGE_QUERY_PROPERTY, 0x002D_1400);
}

#[test]
fn response_buffer_has_1024_bytes() {
    assert_eq!(RESPONSE_CAPACITY, 1024);
}

#[test]
fn identity_query_selects_device_and_standard() {
    let request = PropertyQueryRequest::device_identity();
    assert_eq!(request, PropertyQueryRequest { property_id: 0, query_type: 0 });
    assert_eq!(request.property_id, STORAGE_DEVICE_PROPERTY);
    assert_eq!(request.query_type, PROPERTY_STANDARD_QUERY);
}

#[test]
fn identity_query_is_twelve_zero_bytes() {
    let bytes = PropertyQueryRequest::device_identity().encode();
    assert_eq!(bytes.len(), QUERY_LEN);
    assert_eq!(bytes, vec![0u8; 12]);
}

#[test]
fn query_selectors_are_laid_out_little_endian() {
    let request = PropertyQueryRequest { property_id: 0x0102_0304, query_type: 0xFFFE_FDFC };
    assert_eq!(
        request.encode(),
        vec![0x04, 0x03, 0x02, 0x01, 0xFC, 0xFD, 0xFE, 0xFF, 0x00, 0x00, 0x00, 0x00]
    );
    let small = PropertyQueryRequest { property_id: 1, query_type: 256 };
    assert_eq!(small.encode(), vec![1, 0, 0, 0, 0, 1, 0, 0, 0, 0, 0, 0]);
}
