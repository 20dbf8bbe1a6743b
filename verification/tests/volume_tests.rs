use sd_reader::fault::{
    CardReport, DeviceFault, FileFault, FsReport, SdError, UsageFault, VolumeFault,
};
use sd_reader::header::{locate_partition, VolumeHeader};
use sd_reader::volume::{DirHandle, FileHandle, VolumeHandle, VolumeManager};

/// The headers of partition `index` of a card with four FAT16 partitions.
fn header(index: usize) -> VolumeHeader {
    let mut table = [0u8; 512];
    for entry in 0..4 {
        let at = 446 + 16 * entry;
        table[at + 4] = 0x06;
        table[at + 8..at + 12].copy_from_slice(&(63 + 5000 * entry as u32).to_le_bytes());
        table[at + 12..at + 16].copy_from_slice(&5000u32.to_le_bytes());
    }
    table[510] = 0x55;
    table[511] = 0xAA;
    let mut boot = [0u8; 512];
    boot[11..13].copy_from_slice(&512u16.to_le_bytes());
    boot[13] = 1;
    boot[14..16].copy_from_slice(&1u16.to_le_bytes());
    boot[16] = 2;
    boot[17..19].copy_from_slice(&512u16.to_le_bytes());
    boot[19..21].copy_from_slice(&5000u16.to_le_bytes());
    boot[22..24].copy_from_slice(&20u16.to_le_bytes());
    boot[510] = 0x55;
    boot[511] = 0xAA;
    locate_partition(&table, index).unwrap().judge(&boot).unwrap()
}

#[test]
fn new_manager_has_nothing_open() {
    let m = VolumeManager::new();
    assert!(m.is_idle());
    assert!(!m.volume_is_open(0));
}

#[test]
fn handles_are_issued_in_order() {
    let mut m = VolumeManager::new();
    assert_eq!(m.open_raw_volume(&header(0), Ok(())), Ok(VolumeHandle(0)));
    assert_eq!(m.open_root_dir(VolumeHandle(0), Ok(())), Ok(DirHandle(1)));
    assert_eq!(m.open_file_in_dir(DirHandle(1), Ok(12)), Ok(FileHandle(2)));
    assert_eq!(m.open_raw_volume(&header(1), Ok(())), Ok(VolumeHandle(3)));
    assert!(m.volume_is_open(0));
    assert!(m.volume_is_open(1));
    assert!(!m.volume_is_open(2));
    assert!(!m.is_idle());
}

#[test]
fn unrecognised_header_gives_unsupported_format_and_can_be_retried() {
    let mut m = VolumeManager::new();
    assert_eq!(
        m.open_raw_volume(&header(0), Err(FsReport::FormatError)),
        Err(SdError::Volume(VolumeFault::UnsupportedFormat))
    );
    assert!(m.is_idle());
    assert!(!m.volume_is_open(0));
    assert_eq!(
        m.open_raw_volume(&header(0), Err(FsReport::FormatError)),
        Err(SdError::Volume(VolumeFault::UnsupportedFormat))
    );
    assert_eq!(m.open_raw_volume(&header(0), Ok(())), Ok(VolumeHandle(0)));
    assert!(m.volume_is_open(0));
}

#[test]
fn missing_partition_and_unreadable_card_are_told_apart() {
    let mut m = VolumeManager::new();
    assert_eq!(
        m.open_raw_volume(&header(3), Err(FsReport::NoSuchVolume)),
        Err(SdError::Volume(VolumeFault::NoPartition))
    );
    assert_eq!(
        m.open_raw_volume(&header(0), Err(FsReport::DeviceError(CardReport::TimeoutReadBuffer))),
        Err(SdError::Volume(VolumeFault::Io(DeviceFault::Timeout)))
    );
    assert!(m.is_idle());
}

#[test]
fn a_partition_is_open_once() {
    let mut m = VolumeManager::new();
    let v = m.open_raw_volume(&header(0), Ok(())).unwrap();
    assert_eq!(m.open_raw_volume(&header(0), Ok(())), Err(SdError::Usage(UsageFault::AlreadyOpen)));
    assert_eq!(
        m.open_raw_volume(&header(0), Err(FsReport::FormatError)),
        Err(SdError::Usage(UsageFault::AlreadyOpen))
    );
    assert_eq!(m.close_volume(v), Ok(()));
    assert_eq!(m.open_raw_volume(&header(0), Ok(())), Ok(VolumeHandle(1)));
}

#[test]
fn missing_file_gives_not_found_and_leaves_the_directory_open() {
    let mut m = VolumeManager::new();
    let v = m.open_raw_volume(&header(0), Ok(())).unwrap();
    let d = m.open_root_dir(v, Ok(())).unwrap();
    assert_eq!(
        m.open_file_in_dir(d, Err(FsReport::NotFound)),
        Err(SdError::File(FileFault::NotFound))
    );
    assert!(!m.dir_in_use(d));
    assert!(m.volume_in_use(v));
    assert_eq!(m.open_file_in_dir(d, Ok(5)), Ok(FileHandle(2)));
    assert_eq!(m.close_file(FileHandle(2)), Ok(()));
    assert_eq!(m.close_dir(d), Ok(()));
    assert_eq!(m.close_volume(v), Ok(()));
    assert!(m.is_idle());
}

#[test]
fn a_directory_is_not_a_file() {
    let mut m = VolumeManager::new();
    let v = m.open_raw_volume(&header(0), Ok(())).unwrap();
    let d = m.open_root_dir(v, Ok(())).unwrap();
    assert_eq!(
        m.open_file_in_dir(d, Err(FsReport::OpenedDirAsFile)),
        Err(SdError::File(FileFault::NotAFile))
    );
    assert_eq!(
        m.open_file_in_dir(d, Err(FsReport::DeviceError(CardReport::CrcError(1, 2)))),
        Err(SdError::File(FileFault::Io(DeviceFault::CrcMismatch)))
    );
    assert!(!m.dir_in_use(d));
}

#[test]
fn closing_in_order_succeeds() {
    let mut m = VolumeManager::new();
    let v = m.open_raw_volume(&header(0), Ok(())).unwrap();
    let d = m.open_root_dir(v, Ok(())).unwrap();
    let f = m.open_file_in_dir(d, Ok(100)).unwrap();
    assert_eq!(m.close_file(f), Ok(()));
    assert_eq!(m.close_dir(d), Ok(()));
    assert_eq!(m.close_volume(v), Ok(()));
    assert!(m.is_idle());
}

#[test]
fn closing_out_of_order_is_rejected_and_changes_nothing() {
    let mut m = VolumeManager::new();
    let v = m.open_raw_volume(&header(0), Ok(())).unwrap();
    let d = m.open_root_dir(v, Ok(())).unwrap();
    let f = m.open_file_in_dir(d, Ok(100)).unwrap();
    assert_eq!(m.close_dir(d), Err(SdError::Usage(UsageFault::StillInUse)));
    assert_eq!(m.close_volume(v), Err(SdError::Usage(UsageFault::StillInUse)));
    assert!(m.dir_in_use(d));
    assert!(m.volume_in_use(v));
    assert_eq!(m.file_length(f), Ok(100));
    assert_eq!(m.close_file(f), Ok(()));
    assert_eq!(m.close_volume(v), Err(SdError::Usage(UsageFault::StillInUse)));
    assert_eq!(m.close_dir(d), Ok(()));
    assert_eq!(m.close_volume(v), Ok(()));
}

#[test]
fn a_directory_with_two_files_closes_after_both() {
    let mut m = VolumeManager::new();
    let v = m.open_raw_volume(&header(0), Ok(())).unwrap();
    let d = m.open_root_dir(v, Ok(())).unwrap();
    let f = m.open_file_in_dir(d, Ok(1)).unwrap();
    let g = m.open_file_in_dir(d, Ok(2)).unwrap();
    assert_eq!(m.close_file(f), Ok(()));
    assert_eq!(m.close_dir(d), Err(SdError::Usage(UsageFault::StillInUse)));
    assert_eq!(m.close_file(g), Ok(()));
    assert_eq!(m.close_dir(d), Ok(()));
}

#[test]
fn closed_handles_are_unknown() {
    let mut m = VolumeManager::new();
    let v = m.open_raw_volume(&header(0), Ok(())).unwrap();
    let d = m.open_root_dir(v, Ok(())).unwrap();
    let f = m.open_file_in_dir(d, Ok(4)).unwrap();
    m.close_file(f).unwrap();
    assert_eq!(m.close_file(f), Err(SdError::Usage(UsageFault::UnknownHandle)));
    assert_eq!(m.file_eof(f), Err(SdError::Usage(UsageFault::UnknownHandle)));
    assert_eq!(m.file_length(f), Err(SdError::Usage(UsageFault::UnknownHandle)));
    assert_eq!(m.file_offset(f), Err(SdError::Usage(UsageFault::UnknownHandle)));
    assert_eq!(m.read(f, 4, Ok(1)), Err(SdError::Usage(UsageFault::UnknownHandle)));
    m.close_dir(d).unwrap();
    assert_eq!(m.close_dir(d), Err(SdError::Usage(UsageFault::UnknownHandle)));
    assert_eq!(m.open_file_in_dir(d, Ok(4)), Err(SdError::Usage(UsageFault::UnknownHandle)));
    m.close_volume(v).unwrap();
    assert_eq!(m.close_volume(v), Err(SdError::Usage(UsageFault::UnknownHandle)));
    assert_eq!(m.open_root_dir(v, Ok(())), Err(SdError::Usage(UsageFault::UnknownHandle)));
}

#[test]
fn read_moves_the_cursor_by_the_bytes_delivered() {
    let mut m = VolumeManager::new();
    let v = m.open_raw_volume(&header(0), Ok(())).unwrap();
    let d = m.open_root_dir(v, Ok(())).unwrap();
    let f = m.open_file_in_dir(d, Ok(10)).unwrap();
    assert_eq!(m.file_offset(f), Ok(0));
    assert_eq!(m.file_eof(f), Ok(false));
    assert_eq!(m.read(f, 4, Ok(4)), Ok(4));
    assert_eq!(m.file_offset(f), Ok(4));
    assert_eq!(m.read(f, 4, Ok(3)), Ok(3));
    assert_eq!(m.file_offset(f), Ok(7));
    assert_eq!(m.read(f, 4, Ok(0)), Ok(0));
    assert_eq!(m.file_offset(f), Ok(7));
    assert_eq!(m.read(f, 4, Ok(3)), Ok(3));
    assert_eq!(m.file_offset(f), Ok(10));
    assert_eq!(m.file_eof(f), Ok(true));
    assert_eq!(m.file_length(f), Ok(10));
}

#[test]
fn read_past_the_end_delivers_nothing() {
    let mut m = VolumeManager::new();
    let v = m.open_raw_volume(&header(0), Ok(())).unwrap();
    let d = m.open_root_dir(v, Ok(())).unwrap();
    let f = m.open_file_in_dir(d, Ok(2)).unwrap();
    assert_eq!(m.read(f, 32, Ok(2)), Ok(2));
    assert_eq!(m.file_eof(f), Ok(true));
    assert_eq!(m.read(f, 32, Ok(0)), Ok(0));
    assert_eq!(m.file_offset(f), Ok(2));
    assert_eq!(m.file_eof(f), Ok(true));
}

#[test]
fn impossible_byte_counts_are_rejected() {
    let mut m = VolumeManager::new();
    let v = m.open_raw_volume(&header(0), Ok(())).unwrap();
    let d = m.open_root_dir(v, Ok(())).unwrap();
    let f = m.open_file_in_dir(d, Ok(10)).unwrap();
    assert_eq!(m.read(f, 4, Ok(5)), Err(SdError::Usage(UsageFault::BadLength)));
    assert_eq!(m.read(f, 32, Ok(11)), Err(SdError::Usage(UsageFault::BadLength)));
    assert_eq!(m.file_offset(f), Ok(0));
    assert_eq!(m.read(f, 32, Ok(10)), Ok(10));
    assert_eq!(m.read(f, 32, Ok(1)), Err(SdError::Usage(UsageFault::BadLength)));
    assert_eq!(m.file_offset(f), Ok(10));
}

#[test]
fn failed_read_leaves_the_cursor() {
    let mut m = VolumeManager::new();
    let v = m.open_raw_volume(&header(0), Ok(())).unwrap();
    let d = m.open_root_dir(v, Ok(())).unwrap();
    let f = m.open_file_in_dir(d, Ok(10)).unwrap();
    m.read(f, 4, Ok(4)).unwrap();
    assert_eq!(
        m.read(f, 4, Err(FsReport::DeviceError(CardReport::TimeoutWaitNotBusy))),
        Err(SdError::File(FileFault::Io(DeviceFault::Timeout)))
    );
    assert_eq!(m.file_offset(f), Ok(4));
    assert_eq!(m.close_file(f), Ok(()));
}
