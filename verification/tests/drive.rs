use disk_serial::drive::{drive_path, FIRST_DRIVE, LAST_DRIVE};

#[test]
fn drive_paths_name_physical_drives() {
    assert_eq!(drive_path(0), "\\\\.\\PhysicalDrive0");
    assert_eq!(drive_path(8), "\\\\.\\PhysicalDrive8");
    assert_eq!(drive_path(9), r"\\.\PhysicalDrive9");
    assert_eq!(drive_path(10), r"\\.\PhysicalDrive10");
    assert_eq!(drive_path(107), r"\\.\PhysicalDrive107");
    assert_eq!(drive_path(u32::MAX), r"\\.\PhysicalDrive4294967295");
}

#[test]
fn drive_paths_agree_with_formatting() {
    for index in [0u32, 1, 7, 19, 100, 999, 1000, 65535, 4_000_000_000] {
        assert_eq!(drive_path(index), format!("\\\\.\\PhysicalDrive{}", index));
    }
}

#[test]
fn drives_zero_to_eight_are_probed() {
    assert_eq!(FIRST_DRIVE, 0);
    assert_eq!(LAST_DRIVE, 8);
    assert_eq!((FIRST_DRIVE..=LAST_DRIVE).count(), 9);
}
