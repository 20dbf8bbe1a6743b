use std::cell::Cell;

use embedded_sdmmc::Error as E;
use embedded_sdmmc::{
    Block, BlockCount, BlockDevice, BlockIdx, Mode, RawDirectory, RawFile, RawVolume, SdCardError,
    TimeSource, Timestamp, VolumeIdx, VolumeManager,
};
use sd_reader::fault::{
    CardReport, DeviceFault, FileFault, FsReport, SdError, UsageFault, VolumeFault,
};
use sd_reader::header::FatKind;
use sd_reader::reader::{FileRead, Step};

/// The sector that the partition starts at.
const START: usize = 1;
/// The sectors of one file allocation table.
const FAT_SECTORS: usize = 17;
/// The clusters of the volume, of one sector each.
const CLUSTERS: usize = 4100;
/// The sectors of the partition: the boot sector, one table, one sector of
/// root directory and the clusters.
const SECTORS: usize = 1 + FAT_SECTORS + 1 + CLUSTERS;

/// A card in memory.
struct RamDisk {
    bytes: Vec<u8>,
    /// How many sectors the filesystem driver has read.
    sector_reads: Cell<usize>,
    /// The sector that the card fails to deliver, if it fails at one.
    broken: Option<u32>,
}

impl BlockDevice for RamDisk {
    type Error = SdCardError;

    fn read(&self, blocks: &mut [Block], start: BlockIdx, _reason: &str) -> Result<(), SdCardError> {
        for (i, block) in blocks.iter_mut().enumerate() {
            let index = start.0 as usize + i;
            if self.broken == Some(index as u32) {
                return Err(SdCardError::TimeoutReadBuffer);
            }
            let at = index * 512;
            if at + 512 > self.bytes.len() {
                return Err(SdCardError::ReadError);
            }
            block.contents.copy_from_slice(&self.bytes[at..at + 512]);
            self.sector_reads.set(self.sector_reads.get() + 1);
        }
        Ok(())
    }

    fn write(&self, _blocks: &[Block], _start: BlockIdx) -> Result<(), SdCardError> {
        Err(SdCardError::WriteError)
    }

    fn num_blocks(&self) -> Result<BlockCount, SdCardError> {
        Ok(BlockCount((self.bytes.len() / 512) as u32))
    }
}

struct Clock;

impl TimeSource for Clock {
    fn get_timestamp(&self) -> Timestamp {
        Timestamp {
            year_since_1970: 0,
            zero_indexed_month: 0,
            zero_indexed_day: 0,
            hours: 0,
            minutes: 0,
            seconds: 0,
        }
    }
}

/// An image of a card with one FAT16 partition that holds the given files in
/// its root directory, under their short names of eleven bytes.
fn image(files: &[(&[u8; 11], &[u8])]) -> RamDisk {
    let mut bytes = vec![0u8; (START + SECTORS) * 512];
    // The partition table.
    bytes[446 + 4] = 0x06;
    bytes[446 + 8..446 + 12].copy_from_slice(&(START as u32).to_le_bytes());
    bytes[446 + 12..446 + 16].copy_from_slice(&(SECTORS as u32).to_le_bytes());
    bytes[510] = 0x55;
    bytes[511] = 0xAA;
    // The boot sector.
    let boot = START * 512;
    bytes[boot + 11..boot + 13].copy_from_slice(&512u16.to_le_bytes());
    bytes[boot + 13] = 1;
    bytes[boot + 14..boot + 16].copy_from_slice(&1u16.to_le_bytes());
    bytes[boot + 16] = 1;
    bytes[boot + 17..boot + 19].copy_from_slice(&16u16.to_le_bytes());
    bytes[boot + 19..boot + 21].copy_from_slice(&(SECTORS as u16).to_le_bytes());
    bytes[boot + 21] = 0xF8;
    bytes[boot + 22..boot + 24].copy_from_slice(&(FAT_SECTORS as u16).to_le_bytes());
    bytes[boot + 510] = 0x55;
    bytes[boot + 511] = 0xAA;
    // The file allocation table, the root directory and the clusters.
    let fat = (START + 1) * 512;
    let root = (START + 1 + FAT_SECTORS) * 512;
    let data = (START + 1 + FAT_SECTORS + 1) * 512;
    bytes[fat..fat + 4].copy_from_slice(&[0xF8, 0xFF, 0xFF, 0xFF]);
    let mut next_cluster = 2usize;
    for (slot, (name, content)) in files.iter().enumerate() {
        let entry = root + slot * 32;
        bytes[entry..entry + 11].copy_from_slice(&name[..]);
        bytes[entry + 11] = 0x20;
        bytes[entry + 28..entry + 32].copy_from_slice(&(content.len() as u32).to_le_bytes());
        if content.is_empty() {
            continue;
        }
        bytes[entry + 26..entry + 28].copy_from_slice(&(next_cluster as u16).to_le_bytes());
        let clusters = (content.len() + 511) / 512;
        for k in 0..clusters {
            let cluster = next_cluster + k;
            let link: u16 = if k + 1 == clusters { 0xFFFF } else { (cluster + 1) as u16 };
            bytes[fat + 2 * cluster..fat + 2 * cluster + 2].copy_from_slice(&link.to_le_bytes());
            let from = k * 512;
            let to = if from + 512 < content.len() { from + 512 } else { content.len() };
            let at = data + (cluster - 2) * 512;
            bytes[at..at + to - from].copy_from_slice(&content[from..to]);
        }
        next_cluster += clusters;
    }
    RamDisk { bytes, sector_reads: Cell::new(0), broken: None }
}

fn card_report(error: &SdCardError) -> CardReport {
    match error {
        SdCardError::Transport => CardReport::Transport,
        SdCardError::CantEnableCRC => CardReport::CantEnableCrc,
        SdCardError::TimeoutReadBuffer => CardReport::TimeoutReadBuffer,
        SdCardError::TimeoutWaitNotBusy => CardReport::TimeoutWaitNotBusy,
        SdCardError::TimeoutCommand(command) => CardReport::TimeoutCommand(*command),
        SdCardError::TimeoutACommand(command) => CardReport::TimeoutACommand(*command),
        SdCardError::Cmd58Error => CardReport::Cmd58Error,
        SdCardError::RegisterReadError => CardReport::RegisterReadError,
        SdCardError::CrcError(received, computed) => CardReport::CrcError(*received, *computed),
        SdCardError::ReadError => CardReport::ReadError,
        SdCardError::WriteError => CardReport::WriteError,
        SdCardError::BadState => CardReport::BadState,
        SdCardError::CardNotFound => CardReport::CardNotFound,
        SdCardError::GpioError => CardReport::GpioError,
    }
}

fn fs_report(error: &embedded_sdmmc::Error<SdCardError>) -> FsReport {
    match error {
        E::DeviceError(card) => FsReport::DeviceError(card_report(card)),
        E::FormatError(_) => FsReport::FormatError,
        E::NoSuchVolume => FsReport::NoSuchVolume,
        E::FilenameError(_) => FsReport::FilenameError,
        E::TooManyOpenVolumes => FsReport::TooManyOpenVolumes,
        E::TooManyOpenDirs => FsReport::TooManyOpenDirs,
        E::TooManyOpenFiles => FsReport::TooManyOpenFiles,
        E::BadHandle => FsReport::BadHandle,
        E::NotFound => FsReport::NotFound,
        E::FileAlreadyOpen => FsReport::FileAlreadyOpen,
        E::DirAlreadyOpen => FsReport::DirAlreadyOpen,
        E::OpenedDirAsFile => FsReport::OpenedDirAsFile,
        E::OpenedFileAsDir => FsReport::OpenedFileAsDir,
        E::DeleteDirAsFile => FsReport::DeleteDirAsFile,
        E::VolumeStillInUse => FsReport::VolumeStillInUse,
        E::VolumeAlreadyOpen => FsReport::VolumeAlreadyOpen,
        E::Unsupported => FsReport::Unsupported,
        E::EndOfFile => FsReport::EndOfFile,
        E::BadCluster => FsReport::BadCluster,
        E::ConversionError => FsReport::ConversionError,
        E::NotEnoughSpace => FsReport::NotEnoughSpace,
        E::AllocationError => FsReport::AllocationError,
        E::UnterminatedFatChain => FsReport::UnterminatedFatChain,
        E::ReadOnly => FsReport::ReadOnly,
        E::FileAlreadyExists => FsReport::FileAlreadyExists,
        E::BadBlockSize(size) => FsReport::BadBlockSize(*size),
        E::InvalidOffset => FsReport::InvalidOffset,
        E::DiskFull => FsReport::DiskFull,
        E::DirAlreadyExists => FsReport::DirAlreadyExists,
    }
}

/// What one errand did on a card.
struct Run {
    result: Result<Vec<u8>, SdError>,
    /// The bytes that each read delivered.
    delivered: Vec<usize>,
    steps: Vec<Step>,
    /// Whether the filesystem driver had anything open at the end.
    left_open: bool,
    fat: Option<FatKind>,
    disk: RamDisk,
}

/// Carries an errand out with the filesystem driver on a card in memory.
fn read_file(disk: RamDisk, name: &str, buf_size: usize) -> Run {
    let mut volume_mgr = VolumeManager::new(disk, Clock);
    let mut errand = FileRead::new(name, 0, buf_size).unwrap();
    let mut volume: Option<RawVolume> = None;
    let mut root_dir: Option<RawDirectory> = None;
    let mut file: Option<RawFile> = None;
    let mut delivered = Vec::new();
    let mut steps = Vec::new();
    loop {
        let step = errand.next_step();
        steps.push(step);
        match step {
            Step::ReadSector { sector } => {
                let mut blocks = [Block::new()];
                match volume_mgr.device().read(&mut blocks, BlockIdx(sector), "header") {
                    Ok(()) => errand.sector_read(Ok(&blocks[0].contents)),
                    Err(error) => errand.sector_read(Err(card_report(&error))),
                }
            }
            Step::OpenVolume { index } => match volume_mgr.open_raw_volume(VolumeIdx(index)) {
                Ok(opened) => {
                    volume = Some(opened);
                    errand.volume_opened(Ok(()));
                }
                Err(error) => errand.volume_opened(Err(fs_report(&error))),
            },
            Step::OpenRootDir { .. } => match volume_mgr.open_root_dir(volume.unwrap()) {
                Ok(opened) => {
                    root_dir = Some(opened);
                    errand.dir_opened(Ok(()));
                }
                Err(error) => errand.dir_opened(Err(fs_report(&error))),
            },
            Step::OpenFile { .. } => {
                match volume_mgr.open_file_in_dir(root_dir.unwrap(), errand.name(), Mode::ReadOnly) {
                    Ok(opened) => match volume_mgr.file_length(opened) {
                        Ok(length) => {
                            file = Some(opened);
                            errand.file_opened(Ok(length));
                        }
                        Err(error) => {
                            volume_mgr.close_file(opened).unwrap();
                            errand.file_opened(Err(fs_report(&error)));
                        }
                    },
                    Err(error) => errand.file_opened(Err(fs_report(&error))),
                }
            }
            Step::Read { max, .. } => {
                let mut buffer = vec![0u8; max];
                match volume_mgr.read(file.unwrap(), &mut buffer) {
                    Ok(count) => {
                        delivered.push(count);
                        errand.data_read(Ok(&buffer[0..count]));
                        // The driver and the errand agree on where the file ends.
                        let at_end = volume_mgr.file_eof(file.unwrap()).unwrap();
                        assert_eq!(at_end, errand.next_step() != step);
                    }
                    Err(error) => errand.data_read(Err(fs_report(&error))),
                }
            }
            Step::CloseFile { .. } => {
                let closed = volume_mgr.close_file(file.unwrap());
                errand.closed(closed.map_err(|error| fs_report(&error)));
            }
            Step::CloseDir { .. } => {
                let closed = volume_mgr.close_dir(root_dir.unwrap());
                errand.closed(closed.map_err(|error| fs_report(&error)));
            }
            Step::CloseVolume { .. } => {
                let closed = volume_mgr.close_volume(volume.unwrap());
                errand.closed(closed.map_err(|error| fs_report(&error)));
            }
            Step::Finished => break,
        }
    }
    let fat = errand.fat_kind();
    let reads = errand.reads();
    assert!(!errand.left_open());
    let result = errand.finish();
    assert_eq!(reads as usize, steps.iter().filter(|s| matches!(s, Step::Read { .. })).count());
    // A volume that can be opened again was closed.
    let left_open = match volume {
        Some(_) => volume_mgr.open_raw_volume(VolumeIdx(0)).is_err(),
        None => false,
    };
    let (disk, _clock) = volume_mgr.free();
    Run { result, delivered, steps, left_open, fat, disk }
}

fn pattern(length: usize) -> Vec<u8> {
    (0..length).map(|i| (i * 13 + 5) as u8).collect()
}

#[test]
fn hello_world_is_read_off_a_fat16_card() {
    let run = read_file(image(&[(b"TEST    TXT", b"hello world\n")]), "test.txt", 32);
    assert_eq!(run.delivered, vec![12]);
    assert_eq!(run.fat, Some(FatKind::Fat16));
    assert!(!run.left_open);
    let bytes = run.result.unwrap();
    assert_eq!(bytes.len(), 12);
    assert_eq!(std::str::from_utf8(&bytes).unwrap(), "hello world\n");
    assert_eq!(run.steps.len(), 10);
    assert_eq!(run.steps[0], Step::ReadSector { sector: 0 });
    assert_eq!(run.steps[1], Step::ReadSector { sector: START as u32 });
}

#[test]
fn missing_file_on_the_card_gives_not_found_and_everything_is_closed() {
    let run = read_file(image(&[(b"TEST    TXT", b"hello world\n")]), "missing.txt", 32);
    assert_eq!(run.result, Err(SdError::File(FileFault::NotFound)));
    assert!(run.delivered.is_empty());
    assert!(!run.left_open);
    assert!(matches!(run.steps[run.steps.len() - 3], Step::CloseDir { .. }));
    assert!(matches!(run.steps[run.steps.len() - 2], Step::CloseVolume { .. }));
}

#[test]
fn name_that_is_no_short_name_gives_not_found() {
    let run = read_file(image(&[(b"TEST    TXT", b"hello world\n")]), "much too long a name", 32);
    assert_eq!(run.result, Err(SdError::File(FileFault::NotFound)));
    assert!(!run.left_open);
}

#[test]
fn file_over_several_clusters_takes_the_length_over_the_buffer_rounded_up() {
    for (length, buf_size) in [(1000usize, 32usize), (1024, 512), (1025, 512), (1500, 700), (513, 1)] {
        let content = pattern(length);
        let run = read_file(image(&[(b"DATA    BIN", &content)]), "data.bin", buf_size);
        assert_eq!(run.delivered.len(), (length + buf_size - 1) / buf_size);
        assert_eq!(run.delivered.iter().sum::<usize>(), length);
        assert_eq!(run.result, Ok(content));
        assert!(!run.left_open);
    }
}

#[test]
fn second_file_of_the_directory_is_found() {
    let first = pattern(700);
    let run = read_file(
        image(&[(b"FIRST   BIN", &first), (b"EMPTY   TXT", b""), (b"TEST    TXT", b"hello world\n")]),
        "TEST.TXT",
        32,
    );
    assert_eq!(run.result, Ok(b"hello world\n".to_vec()));
    let run = read_file(
        image(&[(b"FIRST   BIN", &first), (b"EMPTY   TXT", b""), (b"TEST    TXT", b"hello world\n")]),
        "empty.txt",
        32,
    );
    assert_eq!(run.result, Ok(Vec::new()));
    assert!(run.delivered.is_empty());
    assert!(!run.left_open);
}

#[test]
fn blank_card_gives_unsupported_format_and_the_card_can_be_tried_again() {
    let blank = RamDisk { bytes: vec![0u8; 64 * 512], sector_reads: Cell::new(0), broken: None };
    let run = read_file(blank, "test.txt", 32);
    assert_eq!(run.result, Err(SdError::Volume(VolumeFault::UnsupportedFormat)));
    assert_eq!(run.steps, vec![Step::ReadSector { sector: 0 }, Step::Finished]);
    assert!(!run.left_open);
    let again = read_file(run.disk, "test.txt", 32);
    assert_eq!(again.result, Err(SdError::Volume(VolumeFault::UnsupportedFormat)));
}

#[test]
fn boot_sector_that_would_trip_the_driver_never_reaches_it() {
    let mut disk = image(&[(b"TEST    TXT", b"hello world\n")]);
    // No sectors in a cluster: the driver would divide by zero.
    disk.bytes[START * 512 + 13] = 0;
    let run = read_file(disk, "test.txt", 32);
    assert_eq!(run.result, Err(SdError::Volume(VolumeFault::UnsupportedFormat)));
    assert_eq!(
        run.steps,
        vec![Step::ReadSector { sector: 0 }, Step::ReadSector { sector: START as u32 }, Step::Finished]
    );
    assert_eq!(run.disk.sector_reads.get(), 2);
    // Mended, the same card is read.
    let mut disk = run.disk;
    disk.bytes[START * 512 + 13] = 1;
    let run = read_file(disk, "test.txt", 32);
    assert_eq!(run.result, Ok(b"hello world\n".to_vec()));
}

#[test]
fn boot_sector_without_signature_gives_unsupported_format_and_can_be_retried() {
    let mut disk = image(&[(b"TEST    TXT", b"hello world\n")]);
    disk.bytes[START * 512 + 510] = 0;
    let run = read_file(disk, "test.txt", 32);
    assert_eq!(run.result, Err(SdError::Volume(VolumeFault::UnsupportedFormat)));
    assert!(!run.left_open);
    let mut disk = run.disk;
    disk.bytes[START * 512 + 510] = 0x55;
    let run = read_file(disk, "test.txt", 32);
    assert_eq!(run.result, Ok(b"hello world\n".to_vec()));
}

#[test]
fn volume_too_small_for_fat16_is_unsupported() {
    let mut disk = image(&[(b"TEST    TXT", b"hello world\n")]);
    let boot = START * 512;
    disk.bytes[boot + 19..boot + 21].copy_from_slice(&4000u16.to_le_bytes());
    let run = read_file(disk, "test.txt", 32);
    assert_eq!(run.result, Err(SdError::Volume(VolumeFault::UnsupportedFormat)));
    assert_eq!(run.steps.len(), 3);
}

#[test]
fn card_that_fails_at_the_header_gives_an_io_fault() {
    let mut disk = image(&[(b"TEST    TXT", b"hello world\n")]);
    disk.broken = Some(0);
    let run = read_file(disk, "test.txt", 32);
    assert_eq!(run.result, Err(SdError::Volume(VolumeFault::Io(DeviceFault::Timeout))));
    assert_eq!(run.steps.len(), 2);
}

#[test]
fn card_that_fails_in_the_file_gives_an_io_fault_and_everything_is_closed() {
    let content = pattern(2000);
    let mut disk = image(&[(b"DATA    BIN", &content)]);
    // The third cluster of the file.
    disk.broken = Some((START + 1 + FAT_SECTORS + 1 + 2) as u32);
    let run = read_file(disk, "data.bin", 100);
    assert_eq!(run.result, Err(SdError::File(FileFault::Io(DeviceFault::Timeout))));
    assert_eq!(run.delivered.len(), 10);
    assert!(!run.left_open);
    assert!(matches!(run.steps[run.steps.len() - 4], Step::CloseFile { .. }));
}

#[test]
fn directory_is_not_opened_as_a_file() {
    let mut disk = image(&[(b"TEST    TXT", b"hello world\n")]);
    let root = (START + 1 + FAT_SECTORS) * 512;
    disk.bytes[root + 11] = 0x10;
    let run = read_file(disk, "test.txt", 32);
    assert_eq!(run.result, Err(SdError::File(FileFault::NotAFile)));
    assert!(!run.left_open);
}

#[test]
fn buffer_of_no_bytes_is_refused_before_the_card_is_touched() {
    assert_eq!(FileRead::new("test.txt", 0, 0).err(), Some(SdError::Usage(UsageFault::BadLength)));
}
