//! The two headers that stand before a FAT volume: the partition table in the
//! first sector of the card, and the boot sector in the first sector of the
//! partition.
//!
//! A volume is handed to the filesystem driver only after both headers have
//! been looked at here: the volume manager opens a volume against a
//! [`VolumeHeader`], and this module hands one out only for headers that it
//! has found in order. The partition table is read by this module. The boot
//! sector is judged by the driver's own parser, which is called only on
//! sectors whose fields it can compute with: a boot sector that would make it
//! divide by zero or count below zero is turned away before the call.

use crate::fault::VolumeFault;
use vstd::prelude::*;

verus! {

/// The signature in the last two bytes of both headers, read as one
/// little-endian number.
pub const SIGNATURE: u16 = 0xAA55;

/// Where the signature stands.
pub const SIGNATURE_AT: usize = 510;

/// Where the partition table starts in the first sector of the card.
pub const TABLE_AT: usize = 446;

/// The length of one entry of the partition table.
pub const ENTRY_LEN: usize = 16;

/// The partition types that hold a FAT volume.
pub const TYPE_FAT16: u8 = 0x06;

pub const TYPE_FAT32_CHS_LBA: u8 = 0x0B;

pub const TYPE_FAT32_LBA: u8 = 0x0C;

pub const TYPE_FAT16_LBA: u8 = 0x0E;

/// The smallest count of clusters that makes a volume FAT16; below it the
/// volume is FAT12, which this stack does not read.
pub const FAT16_MIN_CLUSTERS: u32 = 4085;

/// The smallest count of clusters that makes a volume FAT32.
pub const FAT32_MIN_CLUSTERS: u32 = 65525;

/// The width of the file allocation table of a volume.
#[derive(Clone, Copy, Debug, PartialEq, Eq, Structural)]
pub enum FatKind {
    Fat16,
    Fat32,
}

/// One entry of the partition table.
#[derive(Clone, Copy, Debug, PartialEq, Eq, Structural)]
pub struct Partition {
    /// The partition type.
    pub kind: u8,
    /// The index of the first sector of the partition.
    pub start: u32,
    /// How many sectors the partition has.
    pub blocks: u32,
}

/// A partition that was found in the partition table of a card. Only
/// [`locate_partition`] makes one.
#[derive(Clone, Copy, Debug)]
pub struct Located {
    index: usize,
    partition: Partition,
}

/// The headers of a partition, both found in order: the evidence that a
/// volume may be opened. Only [`Located::judge`] makes one.
#[derive(Clone, Copy, Debug)]
pub struct VolumeHeader {
    index: usize,
    partition: Partition,
    kind: FatKind,
}

/// A volume header, as contracts see it.
pub struct HeaderView {
    /// The index of the partition in the partition table.
    pub index: usize,
    pub partition: Partition,
    /// The kind of the volume in the partition.
    pub kind: FatKind,
}

impl View for Located {
    type V = (usize, Partition);

    closed spec fn view(&self) -> (usize, Partition) {
        (self.index, self.partition)
    }
}

impl View for VolumeHeader {
    type V = HeaderView;

    closed spec fn view(&self) -> HeaderView {
        HeaderView { index: self.index, partition: self.partition, kind: self.kind }
    }
}

/// The two bytes at `at`, as one little-endian number.
pub open spec fn le16(s: Seq<u8>, at: int) -> int {
    s[at] as int + 256 * (s[at + 1] as int)
}

/// The four bytes at `at`, as one little-endian number.
pub open spec fn le32(s: Seq<u8>, at: int) -> int {
    s[at] as int + 256 * (s[at + 1] as int) + 65536 * (s[at + 2] as int) + 16777216 * (s[at
        + 3] as int)
}

/// Whether a partition type holds a FAT volume.
pub open spec fn is_fat_type(kind: u8) -> bool {
    kind == TYPE_FAT16 || kind == TYPE_FAT32_CHS_LBA || kind == TYPE_FAT32_LBA || kind
        == TYPE_FAT16_LBA
}

/// The partition `index` of the card whose first sector is `s`.
///
/// The sector has to end in the signature. The table has four entries. An
/// entry is in order if its status byte is `0x00` or `0x80`. An entry of type
/// zero is empty: there is no such partition. Any other type that does not
/// hold a FAT volume is not supported.
pub open spec fn partition_at(s: Seq<u8>, index: int) -> Result<Partition, VolumeFault> {
    if s.len() != 512 || le16(s, SIGNATURE_AT as int) != SIGNATURE {
        Err(VolumeFault::UnsupportedFormat)
    } else if index < 0 || index > 3 {
        Err(VolumeFault::NoPartition)
    } else {
        let at = TABLE_AT + ENTRY_LEN * index;
        if s[at] != 0x00 && s[at] != 0x80 {
            Err(VolumeFault::UnsupportedFormat)
        } else if s[at + 4] == 0 {
            Err(VolumeFault::NoPartition)
        } else if !is_fat_type(s[at + 4]) {
            Err(VolumeFault::UnsupportedFormat)
        } else {
            Ok(
                Partition {
                    kind: s[at + 4],
                    start: le32(s, at + 8) as u32,
                    blocks: le32(s, at + 12) as u32,
                },
            )
        }
    }
}

/// The size of one file allocation table in sectors: the 16-bit field, or the
/// 32-bit field where the 16-bit field is zero.
pub open spec fn fat_size(s: Seq<u8>) -> int {
    if le16(s, 22) != 0 {
        le16(s, 22)
    } else {
        le32(s, 36)
    }
}

/// The number of sectors of the volume: the 16-bit field, or the 32-bit field
/// where the 16-bit field is zero.
pub open spec fn total_blocks(s: Seq<u8>) -> int {
    if le16(s, 19) != 0 {
        le16(s, 19)
    } else {
        le32(s, 32)
    }
}

/// The number of sectors that the root directory of a FAT16 volume takes:
/// its entries, of 32 bytes each, rounded up to whole sectors.
pub open spec fn root_dir_blocks(s: Seq<u8>) -> int {
    (le16(s, 17) * 32 + 511) / 512
}

/// The number of sectors before the first cluster: the reserved sectors, the
/// file allocation tables and the root directory.
pub open spec fn non_data_blocks(s: Seq<u8>) -> int {
    le16(s, 14) + (s[16] as int) * fat_size(s) + root_dir_blocks(s)
}

/// Whether the fields of a boot sector can be computed with: a cluster has
/// at least one sector, and the sectors before the first cluster are no more
/// than the volume has.
pub open spec fn countable(s: Seq<u8>) -> bool {
    s[13] > 0 && non_data_blocks(s) <= total_blocks(s)
}

/// The number of clusters of the volume.
pub open spec fn cluster_count(s: Seq<u8>) -> int {
    (total_blocks(s) - non_data_blocks(s)) / (s[13] as int)
}

/// What the driver's parser makes of the boot sector `s`: the number of
/// clusters of the volume if it accepts the sector, and nothing if it does
/// not.
///
/// It accepts a sector that ends in the signature and has the clusters of a
/// FAT16 volume, or those of a FAT32 volume together with version 0.0 of the
/// filesystem.
pub open spec fn parsed_clusters(s: Seq<u8>) -> Option<u32> {
    if le16(s, SIGNATURE_AT as int) != SIGNATURE {
        None
    } else if cluster_count(s) < FAT16_MIN_CLUSTERS {
        None
    } else if cluster_count(s) < FAT32_MIN_CLUSTERS {
        Some(cluster_count(s) as u32)
    } else if le16(s, 42) == 0 {
        Some(cluster_count(s) as u32)
    } else {
        None
    }
}

/// Whether `s` is the boot sector of a volume that this stack reads: it ends
/// in the signature, its sectors are of 512 bytes, its fields can be computed
/// with, and the driver's parser accepts it.
pub open spec fn recognised(s: Seq<u8>) -> bool {
    &&& s.len() == 512
    &&& le16(s, SIGNATURE_AT as int) == SIGNATURE
    &&& le16(s, 11) == 512
    &&& countable(s)
    &&& parsed_clusters(s) is Some
}

/// The kind of volume that the boot sector `s` describes, or the fault of a
/// sector that is not recognised.
pub open spec fn boot_sector_kind(s: Seq<u8>) -> Result<FatKind, VolumeFault> {
    if !recognised(s) {
        Err(VolumeFault::UnsupportedFormat)
    } else if parsed_clusters(s).unwrap() < FAT32_MIN_CLUSTERS {
        Ok(FatKind::Fat16)
    } else {
        Ok(FatKind::Fat32)
    }
}

/// A boot sector that is not recognised always gives `UnsupportedFormat`, and
/// a sector that does not end in the signature is never recognised, as a boot
/// sector or as a partition table.
pub proof fn lemma_unrecognised_is_unsupported(s: Seq<u8>, index: int)
    ensures
        boot_sector_kind(s) is Err ==> boot_sector_kind(s) == Err::<FatKind, VolumeFault>(
            VolumeFault::UnsupportedFormat,
        ),
        s.len() != 512 || le16(s, SIGNATURE_AT as int) != SIGNATURE ==> boot_sector_kind(s)
            is Err && partition_at(s, index) == Err::<Partition, VolumeFault>(
            VolumeFault::UnsupportedFormat,
        ),
        partition_at(s, index) is Err ==> partition_at(s, index) == Err::<Partition, VolumeFault>(
            VolumeFault::UnsupportedFormat,
        ) || partition_at(s, index) == Err::<Partition, VolumeFault>(VolumeFault::NoPartition),
{
}

/// The two bytes at `at`, as one little-endian number.
fn read_le16(sector: &[u8; 512], at: usize) -> (r: u16)
    requires
        at + 2 <= 512,
    ensures
        r == le16(sector@, at as int),
{
    let lo: u16 = sector[at] as u16;
    let hi: u16 = sector[at + 1] as u16;
    lo + hi * 256
}

/// The four bytes at `at`, as one little-endian number.
fn read_le32(sector: &[u8; 512], at: usize) -> (r: u32)
    requires
        at + 4 <= 512,
    ensures
        r == le32(sector@, at as int),
{
    let b0: u32 = sector[at] as u32;
    let b1: u32 = sector[at + 1] as u32;
    let b2: u32 = sector[at + 2] as u32;
    let b3: u32 = sector[at + 3] as u32;
    b0 + b1 * 256 + b2 * 65536 + b3 * 16777216
}

/// Finds partition `index` in the first sector of a card.
pub fn locate_partition(sector: &[u8; 512], index: usize) -> (r: Result<Located, VolumeFault>)
    ensures
        match r {
            Ok(located) => located@.0 == index && partition_at(sector@, index as int) == Ok::<
                Partition,
                VolumeFault,
            >(located@.1),
            Err(fault) => partition_at(sector@, index as int) == Err::<Partition, VolumeFault>(
                fault,
            ),
        },
{
    if read_le16(sector, SIGNATURE_AT) != SIGNATURE {
        return Err(VolumeFault::UnsupportedFormat);
    }
    if index > 3 {
        return Err(VolumeFault::NoPartition);
    }
    let at: usize = TABLE_AT + ENTRY_LEN * index;
    let status: u8 = sector[at];
    if status != 0x00 && status != 0x80 {
        return Err(VolumeFault::UnsupportedFormat);
    }
    let kind: u8 = sector[at + 4];
    if kind == 0 {
        return Err(VolumeFault::NoPartition);
    }
    if !(kind == TYPE_FAT16 || kind == TYPE_FAT32_CHS_LBA || kind == TYPE_FAT32_LBA || kind
        == TYPE_FAT16_LBA) {
        return Err(VolumeFault::UnsupportedFormat);
    }
    Ok(
        Located {
            index,
            partition: Partition {
                kind,
                start: read_le32(sector, at + 8),
                blocks: read_le32(sector, at + 12),
            },
        },
    )
}

impl Located {
    /// The index of the partition in the partition table.
    pub fn index(&self) -> (r: usize)
        ensures
            r == self@.0,
    {
        self.index
    }

    /// Where the partition lies.
    pub fn partition(&self) -> (r: Partition)
        ensures
            r == self@.1,
    {
        self.partition
    }

    /// Judges the first sector of the partition, and hands out the header of
    /// the volume if the sector is recognised.
    pub fn judge(&self, boot: &[u8; 512]) -> (r: Result<VolumeHeader, VolumeFault>)
        ensures
            match r {
                Ok(header) => header@.index == self@.0 && header@.partition == self@.1
                    && boot_sector_kind(boot@) == Ok::<FatKind, VolumeFault>(header@.kind),
                Err(fault) => boot_sector_kind(boot@) == Err::<FatKind, VolumeFault>(fault),
            },
    {
        match check_boot_sector(boot) {
            Ok(kind) => Ok(VolumeHeader { index: self.index, partition: self.partition, kind }),
            Err(fault) => Err(fault),
        }
    }
}

impl VolumeHeader {
    /// The index of the partition in the partition table.
    pub fn index(&self) -> (r: usize)
        ensures
            r == self@.index,
    {
        self.index
    }

    /// Where the partition lies.
    pub fn partition(&self) -> (r: Partition)
        ensures
            r == self@.partition,
    {
        self.partition
    }

    /// The kind of the volume.
    pub fn kind(&self) -> (r: FatKind)
        ensures
            r == self@.kind,
    {
        self.kind
    }
}

/// Whether the fields of a boot sector can be computed with.
fn is_countable(sector: &[u8; 512]) -> (r: bool)
    ensures
        r == countable(sector@),
{
    if sector[13] == 0 {
        return false;
    }
    let reserved: u64 = read_le16(sector, 14) as u64;
    let fats: u64 = sector[16] as u64;
    let small_fat: u16 = read_le16(sector, 22);
    let fat: u64 = if small_fat != 0 {
        small_fat as u64
    } else {
        read_le32(sector, 36) as u64
    };
    let small_total: u16 = read_le16(sector, 19);
    let total: u64 = if small_total != 0 {
        small_total as u64
    } else {
        read_le32(sector, 32) as u64
    };
    let entries: u64 = read_le16(sector, 17) as u64;
    let root: u64 = (entries * 32 + 511) / 512;
    assert(fats * fat <= 255 * 0xFFFF_FFFF) by (nonlinear_arith)
        requires
            fats <= 255,
            fat <= 0xFFFF_FFFF,
    ;
    reserved + fats * fat + root <= total
}

/// Calls the boot-sector parser of the filesystem driver,
/// `embedded_sdmmc::fat::Bpb::create_from_bytes`, and reads the count of
/// clusters off what it accepted with `Bpb::total_clusters`.
///
/// The contract claims that the parser gives what [`parsed_clusters`] says:
/// it turns away a sector without the signature before it reads anything
/// else, counts the clusters as [`cluster_count`] does, and accepts the sector
/// if that count is the one of a FAT16 volume, or the one of a FAT32 volume
/// whose version field is zero. The parser subtracts and divides without
/// looking, so the call is made only on a sector that either lacks the
/// signature or is [`countable`].
#[verifier::external_body]
fn driver_parse(sector: &[u8; 512]) -> (r: Option<u32>)
    requires
        le16(sector@, SIGNATURE_AT as int) == SIGNATURE ==> countable(sector@),
    ensures
        r == parsed_clusters(sector@),
{
    match embedded_sdmmc::fat::Bpb::create_from_bytes(sector) {
        Ok(bpb) => Some(bpb.total_clusters()),
        Err(_) => None,
    }
}

/// Judges the first sector of a partition.
///
/// A sector that is recognised gives the kind of its volume. Every other
/// sector gives `UnsupportedFormat`, whatever its bytes are.
pub fn check_boot_sector(sector: &[u8; 512]) -> (r: Result<FatKind, VolumeFault>)
    ensures
        r == boot_sector_kind(sector@),
{
    if read_le16(sector, SIGNATURE_AT) != SIGNATURE {
        return Err(VolumeFault::UnsupportedFormat);
    }
    if read_le16(sector, 11) != 512 {
        return Err(VolumeFault::UnsupportedFormat);
    }
    if !is_countable(sector) {
        return Err(VolumeFault::UnsupportedFormat);
    }
    match driver_parse(sector) {
        None => Err(VolumeFault::UnsupportedFormat),
        Some(clusters) => {
            if clusters < FAT32_MIN_CLUSTERS {
                Ok(FatKind::Fat16)
            } else {
                Ok(FatKind::Fat32)
            }
        },
    }
}

} // verus!
