//! Reading one file from its first byte to its last.
//!
//! A [`FileRead`] is the whole errand as a state machine: look at the
//! partition table and at the boot sector of the partition, open the volume,
//! open its root directory, open the file, read it buffer by buffer until its
//! end, and close the file, the directory and the volume in that order. It
//! says which step is due ([`FileRead::next_step`]); the caller has the
//! filesystem driver carry the step out and reports the outcome. When an
//! opening or a read fails, the errand goes on to close whatever it had
//! opened, and ends with the first fault it met. When a closing fails, the
//! errand ends at once: what could not be closed stays open, and nothing
//! that it hangs on is asked to be closed over it.

use crate::fault::{CardReport, DeviceFault, FsReport, SdError, UsageFault, VolumeFault};
use crate::header::{
    boot_sector_kind, locate_partition, partition_at, FatKind, Located, Partition, VolumeHeader,
};
use crate::volume::{DirHandle, FileHandle, Table, VolumeHandle, VolumeManager};
use vstd::prelude::*;

verus! {

/// Where an errand stands: the step that is due.
#[derive(Clone, Copy, Debug, PartialEq, Eq, Structural)]
pub enum Phase {
    ReadTable,
    ReadBoot,
    OpenVolume,
    OpenDir,
    OpenFile,
    Reading,
    CloseFile,
    CloseDir,
    CloseVolume,
    Done,
}

/// What the caller is to have the driver do next.
#[derive(Clone, Copy, Debug, PartialEq, Eq, Structural)]
pub enum Step {
    /// Read the sector with this index off the card.
    ReadSector { sector: u32 },
    /// Open the volume on this partition.
    OpenVolume { index: usize },
    /// Open the root directory of the volume.
    OpenRootDir { volume: VolumeHandle },
    /// Open the file of the errand's name in the directory, for reading.
    OpenFile { dir: DirHandle },
    /// Read at most `max` bytes from the file.
    Read { file: FileHandle, max: usize },
    CloseFile { file: FileHandle },
    CloseDir { dir: DirHandle },
    CloseVolume { volume: VolumeHandle },
    /// Nothing: the errand is over.
    Finished,
}

/// An errand, as contracts see it.
pub struct ReadState {
    /// The name of the file.
    pub name: Seq<char>,
    /// The partition that holds it.
    pub index: usize,
    /// How many bytes one read asks for.
    pub buf_size: usize,
    pub phase: Phase,
    /// The partition, once the partition table has been read.
    pub partition: Option<Partition>,
    /// The kind of the volume, once its boot sector has been judged.
    pub fat: Option<FatKind>,
    /// The table of the errand's volume manager.
    pub table: Table,
    pub volume: Option<VolumeHandle>,
    pub dir: Option<DirHandle>,
    pub file: Option<FileHandle>,
    /// The bytes gathered so far.
    pub data: Seq<u8>,
    /// How many reads have been reported, failed ones among them.
    pub reads: nat,
    /// The first fault that the errand met.
    pub failure: Option<SdError>,
}

/// The fault that stays on record when `found` comes up: the one on record
/// already, if there is one.
pub open spec fn first_fault(recorded: Option<SdError>, found: SdError) -> SdError {
    match recorded {
        Some(earlier) => earlier,
        None => found,
    }
}

/// The number of reads of `buf_size` bytes that `length` bytes take: the
/// quotient, rounded up.
pub open spec fn reads_needed(length: nat, buf_size: nat) -> nat {
    ((length + buf_size - 1) / (buf_size as int)) as nat
}

/// The bytes that a read of `buf_size` bytes delivers at `cursor`, when the
/// driver fills the buffer as far as the file goes.
pub open spec fn full_chunk(content: Seq<u8>, cursor: nat, buf_size: nat) -> Seq<u8> {
    if cursor + buf_size <= content.len() {
        content.subrange(cursor as int, (cursor + buf_size) as int)
    } else {
        content.subrange(cursor as int, content.len() as int)
    }
}

impl ReadState {
    /// The state of a new errand.
    pub open spec fn fresh(name: Seq<char>, index: usize, buf_size: usize) -> ReadState {
        ReadState {
            name,
            index,
            buf_size,
            phase: Phase::ReadTable,
            partition: None,
            fat: None,
            table: Table::empty(),
            volume: None,
            dir: None,
            file: None,
            data: Seq::empty(),
            reads: 0,
            failure: None,
        }
    }

    /// What holds of every state that an errand reaches.
    ///
    /// The table holds what the errand has opened and not closed, and nothing
    /// else. While the file is read, the bytes gathered are as many as the
    /// cursor has passed. An errand that is over without a fault has nothing
    /// open.
    pub open spec fn wf(self) -> bool {
        &&& self.table.wf()
        &&& self.buf_size > 0
        &&& self.table.issued <= 3
        &&& self.reads <= u64::MAX
        &&& match self.volume {
            Some(v) => self.table.volumes == Map::<u64, usize>::empty().insert(v.0, self.index),
            None => self.table.volumes == Map::<u64, usize>::empty(),
        }
        &&& match self.dir {
            Some(d) => self.volume is Some && self.table.dirs == Map::<u64, u64>::empty().insert(
                d.0,
                self.volume.unwrap().0,
            ),
            None => self.table.dirs == Map::<u64, u64>::empty(),
        }
        &&& match self.file {
            Some(f) => self.dir is Some && self.table.files.dom() == Set::<u64>::empty().insert(
                f.0,
            ) && self.table.files[f.0].dir == self.dir.unwrap().0,
            None => self.table.files == Map::<u64, crate::volume::FileState>::empty(),
        }
        &&& match self.phase {
            Phase::ReadTable => self.volume is None && self.table.issued == 0 && self.failure
                is None && self.data.len() == 0 && self.partition is None && self.fat is None,
            Phase::ReadBoot => self.volume is None && self.table.issued == 0 && self.failure
                is None && self.data.len() == 0 && self.partition is Some && self.fat is None,
            Phase::OpenVolume => self.volume is None && self.table.issued == 0 && self.failure
                is None && self.data.len() == 0 && self.partition is Some && self.fat is Some,
            Phase::OpenDir => self.volume is Some && self.dir is None && self.table.issued == 1
                && self.failure is None && self.data.len() == 0,
            Phase::OpenFile => self.dir is Some && self.file is None && self.table.issued == 2
                && self.failure is None && self.data.len() == 0,
            Phase::Reading => self.file is Some && self.failure is None
                && !self.table.files[self.file.unwrap().0].at_end() && self.data.len()
                == self.table.files[self.file.unwrap().0].cursor,
            Phase::CloseFile => self.file is Some && (self.failure is None
                ==> self.table.files[self.file.unwrap().0].at_end() && self.data.len()
                == self.table.files[self.file.unwrap().0].length),
            Phase::CloseDir => self.file is None && self.dir is Some,
            Phase::CloseVolume => self.dir is None && self.volume is Some,
            Phase::Done => self.failure is None ==> self.volume is None,
        }
    }

    /// The step that is due.
    pub open spec fn next(self) -> Step {
        match self.phase {
            Phase::ReadTable => Step::ReadSector { sector: 0 },
            Phase::ReadBoot => Step::ReadSector { sector: self.partition.unwrap().start },
            Phase::OpenVolume => Step::OpenVolume { index: self.index },
            Phase::OpenDir => Step::OpenRootDir { volume: self.volume.unwrap() },
            Phase::OpenFile => Step::OpenFile { dir: self.dir.unwrap() },
            Phase::Reading => Step::Read { file: self.file.unwrap(), max: self.buf_size },
            Phase::CloseFile => Step::CloseFile { file: self.file.unwrap() },
            Phase::CloseDir => Step::CloseDir { dir: self.dir.unwrap() },
            Phase::CloseVolume => Step::CloseVolume { volume: self.volume.unwrap() },
            Phase::Done => Step::Finished,
        }
    }

    /// The phase that closes the innermost thing that is open.
    pub open spec fn cleanup_phase(self) -> Phase {
        if self.file is Some {
            Phase::CloseFile
        } else if self.dir is Some {
            Phase::CloseDir
        } else if self.volume is Some {
            Phase::CloseVolume
        } else {
            Phase::Done
        }
    }

    /// The state after `fault` has come up: the first fault stays on record,
    /// the bytes gathered are dropped, and what is open gets closed.
    pub open spec fn failed(self, fault: SdError) -> ReadState {
        ReadState {
            failure: Some(first_fault(self.failure, fault)),
            data: Seq::empty(),
            phase: self.cleanup_phase(),
            ..self
        }
    }

    /// The state after a closing has failed with `fault`: the errand is over
    /// at once. The first fault stays on record and the bytes gathered are
    /// dropped. What was to be closed stays open, and so does what it hangs
    /// on.
    pub open spec fn halted(self, fault: SdError) -> ReadState {
        ReadState {
            failure: Some(first_fault(self.failure, fault)),
            data: Seq::empty(),
            phase: Phase::Done,
            ..self
        }
    }

    /// The state after a report that was not due. An errand that is over
    /// stays as it is.
    pub open spec fn misused(self) -> ReadState {
        if self.phase == Phase::Done {
            self
        } else {
            self.failed(SdError::Usage(UsageFault::UnexpectedEvent))
        }
    }

    /// The state after a sector has been read off the card: its bytes, or the
    /// card's failure.
    ///
    /// The first sector of the card is read as the partition table, the
    /// first sector of the partition is judged as a boot sector. A header
    /// that is not recognised ends the errand before anything is opened.
    pub open spec fn on_sector(self, outcome: Result<Seq<u8>, CardReport>) -> ReadState {
        if self.phase != Phase::ReadTable && self.phase != Phase::ReadBoot {
            self.misused()
        } else {
            match outcome {
                Err(report) => self.failed(
                    SdError::Volume(VolumeFault::Io(DeviceFault::of_report(report))),
                ),
                Ok(sector) => if self.phase == Phase::ReadTable {
                    match partition_at(sector, self.index as int) {
                        Ok(partition) => ReadState {
                            phase: Phase::ReadBoot,
                            partition: Some(partition),
                            ..self
                        },
                        Err(fault) => self.failed(SdError::Volume(fault)),
                    }
                } else {
                    match boot_sector_kind(sector) {
                        Ok(kind) => ReadState { phase: Phase::OpenVolume, fat: Some(kind), ..self },
                        Err(fault) => self.failed(SdError::Volume(fault)),
                    }
                },
            }
        }
    }

    /// The state after the driver has served the opening of the volume.
    pub open spec fn on_volume_opened(self, outcome: Result<(), FsReport>) -> ReadState {
        if self.phase != Phase::OpenVolume {
            self.misused()
        } else {
            match self.table.volume_opening(self.index, outcome) {
                Ok(handle) => ReadState {
                    phase: Phase::OpenDir,
                    volume: Some(handle),
                    table: self.table.after_volume_opening(self.index, outcome),
                    ..self
                },
                Err(fault) => self.failed(fault),
            }
        }
    }

    /// The state after the driver has served the opening of the root
    /// directory.
    pub open spec fn on_dir_opened(self, outcome: Result<(), FsReport>) -> ReadState {
        if self.phase != Phase::OpenDir {
            self.misused()
        } else {
            match self.table.dir_opening(self.volume.unwrap(), outcome) {
                Ok(handle) => ReadState {
                    phase: Phase::OpenFile,
                    dir: Some(handle),
                    table: self.table.after_dir_opening(self.volume.unwrap(), outcome),
                    ..self
                },
                Err(fault) => self.failed(fault),
            }
        }
    }

    /// The state after the driver has served the opening of the file, and
    /// reported its length. An empty file has nothing to read and gets
    /// closed at once.
    pub open spec fn on_file_opened(self, outcome: Result<u32, FsReport>) -> ReadState {
        if self.phase != Phase::OpenFile {
            self.misused()
        } else {
            match (self.table.file_opening(self.dir.unwrap(), outcome), outcome) {
                (Ok(handle), Ok(length)) => ReadState {
                    phase: if length == 0 {
                        Phase::CloseFile
                    } else {
                        Phase::Reading
                    },
                    file: Some(handle),
                    table: self.table.after_file_opening(self.dir.unwrap(), outcome),
                    ..self
                },
                (Err(fault), _) => self.failed(fault),
                (Ok(_), Err(_)) => self,
            }
        }
    }

    /// The count of reads after one more, held at the largest number that
    /// the counter can show.
    pub open spec fn one_more_read(self) -> nat {
        if self.reads < u64::MAX {
            self.reads + 1
        } else {
            self.reads
        }
    }

    /// The state after the driver has served a read: the bytes it delivered,
    /// or its failure. The read is counted either way. The bytes join those
    /// gathered, and the file gets closed once its end is reached.
    pub open spec fn on_data(self, outcome: Result<Seq<u8>, FsReport>) -> ReadState {
        if self.phase != Phase::Reading {
            self.misused()
        } else {
            let file = self.file.unwrap();
            let counted: Result<usize, FsReport> = match outcome {
                Ok(chunk) => Ok(chunk.len() as usize),
                Err(report) => Err(report),
            };
            if outcome is Ok && outcome.unwrap().len() > usize::MAX {
                ReadState {
                    reads: self.one_more_read(),
                    ..self.failed(SdError::Usage(UsageFault::BadLength))
                }
            } else {
                match self.table.reading(file, self.buf_size, counted) {
                    Ok(_) => {
                        let table = self.table.after_reading(file, self.buf_size, counted);
                        ReadState {
                            phase: if table.files[file.0].at_end() {
                                Phase::CloseFile
                            } else {
                                Phase::Reading
                            },
                            table,
                            data: self.data + outcome.unwrap(),
                            reads: self.one_more_read(),
                            ..self
                        }
                    },
                    Err(fault) => ReadState { reads: self.one_more_read(), ..self.failed(fault) },
                }
            }
        }
    }

    /// The state after the driver has served a closing.
    ///
    /// A closing that went well takes what was closed off the table, and the
    /// next thing is closed. A closing that failed ends the errand at once,
    /// with what was to be closed still on the table: a directory is never
    /// asked to be closed over a file that is still open, nor a volume over
    /// a directory.
    pub open spec fn on_closed(self, outcome: Result<(), FsReport>) -> ReadState {
        match self.phase {
            Phase::CloseFile => match outcome {
                Ok(_) => ReadState {
                    phase: Phase::CloseDir,
                    file: None,
                    table: self.table.after_file_closing(self.file.unwrap()),
                    ..self
                },
                Err(report) => self.halted(SdError::of_file_report(report)),
            },
            Phase::CloseDir => match outcome {
                Ok(_) => ReadState {
                    phase: Phase::CloseVolume,
                    dir: None,
                    table: self.table.after_dir_closing(self.dir.unwrap()),
                    ..self
                },
                Err(report) => self.halted(SdError::of_volume_report(report)),
            },
            Phase::CloseVolume => match outcome {
                Ok(_) => ReadState {
                    phase: Phase::Done,
                    volume: None,
                    table: self.table.after_volume_closing(self.volume.unwrap()),
                    ..self
                },
                Err(report) => self.halted(SdError::of_volume_report(report)),
            },
            _ => self.misused(),
        }
    }

    /// Whether the errand has left something open: it is over, and a closing
    /// had failed.
    pub open spec fn left_open(self) -> bool {
        self.phase == Phase::Done && !self.table.nothing_open()
    }

    /// What the errand has come to, once it is over: the bytes of the file,
    /// or the first fault that it met.
    pub open spec fn result(self) -> Option<Result<Seq<u8>, SdError>> {
        if self.phase == Phase::Done {
            Some(
                match self.failure {
                    Some(fault) => Err(fault),
                    None => Ok(self.data),
                },
            )
        } else {
            None
        }
    }

    /// The state after the driver has served full reads until the end of a
    /// file whose bytes are `content`.
    pub open spec fn drained(self, content: Seq<u8>) -> ReadState
        decreases content.len() - self.data.len(),
    {
        if self.phase == Phase::Reading && self.data.len() < content.len() {
            let next = self.on_data(
                Ok(full_chunk(content, self.data.len(), self.buf_size as nat)),
            );
            if next.data.len() > self.data.len() {
                next.drained(content)
            } else {
                next
            }
        } else {
            self
        }
    }
}

/// Every report keeps an errand well formed.
pub proof fn lemma_reports_keep_wf(s: ReadState)
    requires
        s.wf(),
    ensures
        forall|outcome: Result<Seq<u8>, CardReport>| #[trigger] s.on_sector(outcome).wf(),
        forall|outcome: Result<(), FsReport>| #[trigger] s.on_volume_opened(outcome).wf(),
        forall|outcome: Result<(), FsReport>| #[trigger] s.on_dir_opened(outcome).wf(),
        forall|outcome: Result<u32, FsReport>| #[trigger] s.on_file_opened(outcome).wf(),
        forall|outcome: Result<Seq<u8>, FsReport>| #[trigger] s.on_data(outcome).wf(),
        forall|outcome: Result<(), FsReport>| #[trigger] s.on_closed(outcome).wf(),
{
    assert forall|outcome: Result<Seq<u8>, CardReport>| #[trigger] s.on_sector(outcome).wf() by {
        lemma_sector_wf(s, outcome);
    }
    assert forall|outcome: Result<(), FsReport>| #[trigger] s.on_volume_opened(outcome).wf() by {
        lemma_volume_opened_wf(s, outcome);
    }
    assert forall|outcome: Result<(), FsReport>| #[trigger] s.on_dir_opened(outcome).wf() by {
        lemma_dir_opened_wf(s, outcome);
    }
    assert forall|outcome: Result<u32, FsReport>| #[trigger] s.on_file_opened(outcome).wf() by {
        lemma_file_opened_wf(s, outcome);
    }
    assert forall|outcome: Result<Seq<u8>, FsReport>| #[trigger] s.on_data(outcome).wf() by {
        lemma_data_wf(s, outcome);
    }
    assert forall|outcome: Result<(), FsReport>| #[trigger] s.on_closed(outcome).wf() by {
        lemma_closed_wf(s, outcome);
    }
}

proof fn lemma_failed_wf(s: ReadState, fault: SdError)
    requires
        s.wf(),
        s.phase != Phase::Done,
    ensures
        s.failed(fault).wf(),
{
}

proof fn lemma_sector_wf(s: ReadState, outcome: Result<Seq<u8>, CardReport>)
    requires
        s.wf(),
    ensures
        s.on_sector(outcome).wf(),
{
}

proof fn lemma_volume_opened_wf(s: ReadState, outcome: Result<(), FsReport>)
    requires
        s.wf(),
    ensures
        s.on_volume_opened(outcome).wf(),
        s.phase == Phase::OpenVolume && outcome is Ok ==> s.on_volume_opened(outcome).phase
            == Phase::OpenDir,
{
    crate::volume::lemma_transitions_keep_wf(s.table);
    if s.phase == Phase::OpenVolume {
        assert(!s.table.index_open(s.index));
    }
}

proof fn lemma_dir_opened_wf(s: ReadState, outcome: Result<(), FsReport>)
    requires
        s.wf(),
    ensures
        s.on_dir_opened(outcome).wf(),
        s.phase == Phase::OpenDir && outcome is Ok ==> s.on_dir_opened(outcome).phase
            == Phase::OpenFile,
{
    crate::volume::lemma_transitions_keep_wf(s.table);
    if s.phase == Phase::OpenDir {
        assert(s.table.volumes.contains_key(s.volume.unwrap().0));
    }
}

proof fn lemma_file_opened_wf(s: ReadState, outcome: Result<u32, FsReport>)
    requires
        s.wf(),
    ensures
        s.on_file_opened(outcome).wf(),
        s.phase == Phase::OpenFile && outcome is Ok ==> s.on_file_opened(outcome).file is Some
            && s.on_file_opened(outcome).failure is None,
{
    crate::volume::lemma_transitions_keep_wf(s.table);
    if s.phase == Phase::OpenFile {
        assert(s.table.dirs.contains_key(s.dir.unwrap().0));
        let after = s.on_file_opened(outcome);
        if after.file is Some {
            assert(after.table.files.dom() =~= Set::<u64>::empty().insert(after.file.unwrap().0));
        }
    }
}

proof fn lemma_data_wf(s: ReadState, outcome: Result<Seq<u8>, FsReport>)
    requires
        s.wf(),
    ensures
        s.on_data(outcome).wf(),
{
    crate::volume::lemma_transitions_keep_wf(s.table);
    if s.phase == Phase::Reading {
        let file = s.file.unwrap();
        assert(s.table.files.dom().contains(file.0));
        assert(s.table.files.contains_key(file.0));
        let after = s.on_data(outcome);
        assert(after.table.files.dom() =~= Set::<u64>::empty().insert(file.0));
    }
}

proof fn lemma_closed_wf(s: ReadState, outcome: Result<(), FsReport>)
    requires
        s.wf(),
    ensures
        s.on_closed(outcome).wf(),
{
    crate::volume::lemma_transitions_keep_wf(s.table);
    if outcome is Ok {
        match s.phase {
            Phase::CloseFile => {
                let file = s.file.unwrap();
                assert(s.table.files.dom().contains(file.0));
                assert(s.table.after_file_closing(file).files =~= Map::<
                    u64,
                    crate::volume::FileState,
                >::empty()) by {
                    assert forall|k: u64| !s.table.files.remove(file.0).contains_key(k) by {
                        if k != file.0 {
                            assert(!s.table.files.dom().contains(k));
                        }
                    }
                }
            },
            Phase::CloseDir => {
                let dir = s.dir.unwrap();
                assert(s.table.dirs.contains_key(dir.0));
                assert(!s.table.dir_in_use(dir.0));
                assert(s.table.after_dir_closing(dir).dirs =~= Map::<u64, u64>::empty());
            },
            Phase::CloseVolume => {
                let volume = s.volume.unwrap();
                assert(s.table.volumes.contains_key(volume.0));
                assert(!s.table.volume_in_use(volume.0));
                assert(s.table.after_volume_closing(volume).volumes =~= Map::<
                    u64,
                    usize,
                >::empty());
            },
            _ => {},
        }
    }
}

/// No dangling handles. An errand that is over has nothing open in its
/// table unless a closing failed: if it ended without a fault, or if no
/// volume is left in its hands, nothing is open. What is left open otherwise
/// is what the failed closing could not close, and what that hangs on.
pub proof fn lemma_finished_leaves_nothing_open(s: ReadState)
    requires
        s.wf(),
        s.phase == Phase::Done,
    ensures
        s.result() is Some,
        s.failure is None ==> s.table.nothing_open(),
        s.volume is None <==> s.table.nothing_open(),
        s.left_open() ==> s.failure is Some,
{
    if s.volume is Some {
        assert(s.table.volumes.contains_key(s.volume.unwrap().0));
    }
}

/// A failed closing ends the errand. Whatever is being closed, a closing
/// that the driver reports as failed ends the errand at once; the table is
/// as it was, so what could not be closed is still open, and nothing is
/// asked to be closed over it. The errand ends with the fault that came
/// first: that of the closing, unless an earlier one is on record.
pub proof fn lemma_failed_closing_ends_errand(s: ReadState, report: FsReport)
    requires
        s.wf(),
        s.phase == Phase::CloseFile || s.phase == Phase::CloseDir || s.phase
            == Phase::CloseVolume,
    ensures
        ({
            let after = s.on_closed(Err(report));
            let fault = if s.phase == Phase::CloseFile {
                SdError::of_file_report(report)
            } else {
                SdError::of_volume_report(report)
            };
            &&& after.wf()
            &&& after.next() == Step::Finished
            &&& after.table == s.table
            &&& after.file == s.file && after.dir == s.dir && after.volume == s.volume
            &&& after.left_open()
            &&& after.result() == Some(Err::<Seq<u8>, SdError>(first_fault(s.failure, fault)))
        }),
{
    assert(s.table.volumes.contains_key(s.volume.unwrap().0));
}

/// Cleanup after a fault. From wherever a fault in an opening or a read
/// leaves an errand, three reports of closings at most bring it to its end,
/// whatever they are, and the errand ends with the fault that came first. If
/// the closings went well, nothing is open afterwards.
pub proof fn lemma_cleanup_ends_with_first_fault(
    s: ReadState,
    fault: SdError,
    a: Result<(), FsReport>,
    b: Result<(), FsReport>,
    c: Result<(), FsReport>,
)
    requires
        s.wf(),
        s.phase != Phase::Done,
    ensures
        ({
            let failed = s.failed(fault);
            let ended = failed.on_closed(a).on_closed(b).on_closed(c);
            &&& failed.failure == Some(first_fault(s.failure, fault))
            &&& ended.phase == Phase::Done
            &&& ended.result() == Some(
                Err::<Seq<u8>, SdError>(first_fault(s.failure, fault)),
            )
            &&& a is Ok && b is Ok && c is Ok ==> ended.table.nothing_open()
        }),
{
    let failed = s.failed(fault);
    lemma_failed_wf(s, fault);
    let s1 = failed.on_closed(a);
    lemma_closed_wf(failed, a);
    let s2 = s1.on_closed(b);
    lemma_closed_wf(s1, b);
    let s3 = s2.on_closed(c);
    lemma_closed_wf(s2, c);
    lemma_finished_leaves_nothing_open(s3);
}

/// One full read more is one read more: rounding up commutes with taking a
/// whole buffer off.
proof fn lemma_reads_needed(left: nat, buf_size: nat)
    requires
        buf_size > 0,
    ensures
        left == 0 ==> reads_needed(left, buf_size) == 0,
        0 < left <= buf_size ==> reads_needed(left, buf_size) == 1,
        left > buf_size ==> reads_needed(left, buf_size) == 1 + reads_needed(
            (left - buf_size) as nat,
            buf_size,
        ),
        reads_needed(left, buf_size) <= left,
{
    let b = buf_size as int;
    let x = left as int;
    assert(x == 0 ==> (x + b - 1) / b == 0) by (nonlinear_arith)
        requires
            b > 0,
    ;
    assert(0 < x <= b ==> (x + b - 1) / b == 1) by (nonlinear_arith)
        requires
            b > 0,
    ;
    assert(x > b ==> (x + b - 1) / b == 1 + (x - b + b - 1) / b) by (nonlinear_arith)
        requires
            b > 0,
    ;
    assert(0 <= (x + b - 1) / b <= x) by (nonlinear_arith)
        requires
            b > 0,
            x >= 0,
    ;
}

proof fn lemma_drained(s: ReadState, content: Seq<u8>)
    requires
        s.wf(),
        s.file is Some,
        s.failure is None,
        s.phase == Phase::Reading || s.phase == Phase::CloseFile,
        s.table.files[s.file.unwrap().0].length == content.len(),
        s.data.len() == s.table.files[s.file.unwrap().0].cursor,
        s.data == content.subrange(0, s.data.len() as int),
        s.reads + (content.len() - s.data.len()) <= u64::MAX,
    ensures
        s.drained(content).wf(),
        s.drained(content).phase == Phase::CloseFile,
        s.drained(content).failure is None,
        s.drained(content).data == content,
        s.drained(content).reads == s.reads + reads_needed(
            (content.len() - s.data.len()) as nat,
            s.buf_size as nat,
        ),
        s.drained(content).file == s.file,
        s.drained(content).name == s.name,
        s.drained(content).buf_size == s.buf_size,
    decreases content.len() - s.data.len(),
{
    let file = s.file.unwrap();
    let left = (content.len() - s.data.len()) as nat;
    lemma_reads_needed(left, s.buf_size as nat);
    assert(s.table.files.dom().contains(file.0));
    assert(s.table.files.contains_key(file.0));
    if s.phase == Phase::Reading {
        let chunk = full_chunk(content, s.data.len(), s.buf_size as nat);
        let next = s.on_data(Ok(chunk));
        lemma_data_wf(s, Ok(chunk));
        assert(chunk.len() <= s.buf_size);
        assert(chunk.len() <= left);
        assert(chunk.len() > 0);
        assert(next.data =~= content.subrange(0, next.data.len() as int));
        assert(next.table.files.dom().contains(file.0));
        lemma_drained(next, content);
        if next.data.len() == content.len() {
            assert(next.data =~= content);
        }
    } else {
        assert(s.data =~= content);
    }
}

/// The bytes of `chunks`, one after the other.
pub open spec fn joined(chunks: Seq<Seq<u8>>) -> Seq<u8>
    decreases chunks.len(),
{
    if chunks.len() == 0 {
        Seq::empty()
    } else {
        joined(chunks.drop_last()) + chunks.last()
    }
}

/// The state of `s` after the driver has delivered `chunks`, one read each.
pub open spec fn fed(s: ReadState, chunks: Seq<Seq<u8>>) -> ReadState
    decreases chunks.len(),
{
    if chunks.len() == 0 {
        s
    } else {
        fed(s, chunks.drop_last()).on_data(Ok(chunks.last()))
    }
}

/// Reading in pieces of any size. Let the driver deliver the reads of an
/// errand in whatever pieces it likes: none longer than the buffer, none
/// reaching past the end of the file, and the end not reached before the last
/// of them. Then the bytes gathered are the pieces one after the other, every
/// read is counted, and the errand goes on reading exactly until the pieces
/// have reached the end of the file.
pub proof fn lemma_reads_in_any_pieces(s: ReadState, chunks: Seq<Seq<u8>>)
    requires
        s.wf(),
        s.phase == Phase::Reading,
        forall|i: int| 0 <= i < chunks.len() ==> (#[trigger] chunks[i]).len() <= s.buf_size,
        s.data.len() + joined(chunks).len() <= s.table.files[s.file.unwrap().0].length,
        forall|k: int|
            0 <= k < chunks.len() ==> s.data.len() + (#[trigger] joined(chunks.take(k))).len()
                < s.table.files[s.file.unwrap().0].length,
        s.reads + chunks.len() <= u64::MAX,
    ensures
        fed(s, chunks).wf(),
        fed(s, chunks).data == s.data + joined(chunks),
        fed(s, chunks).reads == s.reads + chunks.len(),
        fed(s, chunks).failure is None,
        fed(s, chunks).file == s.file,
        fed(s, chunks).buf_size == s.buf_size,
        fed(s, chunks).table.files[s.file.unwrap().0].length
            == s.table.files[s.file.unwrap().0].length,
        fed(s, chunks).phase == (if fed(s, chunks).data.len()
            == s.table.files[s.file.unwrap().0].length {
            Phase::CloseFile
        } else {
            Phase::Reading
        }),
    decreases chunks.len(),
{
    let file = s.file.unwrap();
    assert(s.table.files.dom().contains(file.0));
    assert(s.table.files.contains_key(file.0));
    if chunks.len() == 0 {
        assert(s.data + joined(chunks) =~= s.data);
    } else {
        let earlier = chunks.drop_last();
        assert(chunks.take(chunks.len() - 1) =~= earlier);
        assert forall|k: int| 0 <= k < earlier.len() implies s.data.len() + (#[trigger] joined(
            earlier.take(k),
        )).len() < s.table.files[file.0].length by {
            assert(earlier.take(k) =~= chunks.take(k));
        }
        assert(joined(chunks).len() == joined(earlier).len() + chunks.last().len());
        lemma_reads_in_any_pieces(s, earlier);
        let before = fed(s, earlier);
        assert(before.data.len() < s.table.files[file.0].length);
        assert(before.table.files.dom().contains(file.0));
        assert(before.table.files.contains_key(file.0));
        lemma_data_wf(before, Ok(chunks.last()));
        assert(fed(s, chunks).data =~= s.data + joined(chunks));
    }
}

/// Reading to the end. Let the headers be recognised, let the volume, the
/// directory and a file of `content` open without fault, and let the driver
/// fill every buffer as far as the file goes. Then every read asks for the
/// errand's buffer size, and the errand asks for exactly as many reads as the length of
/// the file divided by the buffer size, rounded up; after them it wants the
/// file closed, and the bytes it has gathered are the file's, byte for byte.
/// Three closings later it is over, with those bytes as its result.
pub proof fn lemma_full_reads(
    name: Seq<char>,
    index: usize,
    buf_size: usize,
    table: Seq<u8>,
    boot: Seq<u8>,
    content: Seq<u8>,
)
    requires
        buf_size > 0,
        content.len() <= u32::MAX,
        partition_at(table, index as int) is Ok,
        boot_sector_kind(boot) is Ok,
    ensures
        ({
            let opened = ReadState::fresh(name, index, buf_size).on_sector(Ok(table)).on_sector(
                Ok(boot),
            ).on_volume_opened(Ok(())).on_dir_opened(Ok(())).on_file_opened(
                Ok(content.len() as u32),
            );
            let read = opened.drained(content);
            let ended = read.on_closed(Ok(())).on_closed(Ok(())).on_closed(Ok(()));
            &&& read.phase == Phase::CloseFile
            &&& read.buf_size == buf_size
            &&& opened.next() == (if content.len() == 0 {
                Step::CloseFile { file: opened.file.unwrap() }
            } else {
                Step::Read { file: opened.file.unwrap(), max: buf_size }
            })
            &&& read.reads == reads_needed(content.len(), buf_size as nat)
            &&& read.data == content
            &&& read.failure is None
            &&& ended.result() == Some(Ok::<Seq<u8>, SdError>(content))
            &&& ended.table.nothing_open()
        }),
{
    let fresh = ReadState::fresh(name, index, buf_size);
    assert(fresh.wf());
    let located = fresh.on_sector(Ok(table));
    let s0 = located.on_sector(Ok(boot));
    assert(s0.wf());
    let s1 = s0.on_volume_opened(Ok(()));
    lemma_volume_opened_wf(s0, Ok(()));
    let s2 = s1.on_dir_opened(Ok(()));
    lemma_dir_opened_wf(s1, Ok(()));
    let opened = s2.on_file_opened(Ok(content.len() as u32));
    lemma_file_opened_wf(s2, Ok(content.len() as u32));
    assert(s2.table.dirs.contains_key(s2.dir.unwrap().0));
    assert(opened.data =~= content.subrange(0, 0));
    lemma_drained(opened, content);
    let read = opened.drained(content);
    let c1 = read.on_closed(Ok(()));
    lemma_closed_wf(read, Ok(()));
    let c2 = c1.on_closed(Ok(()));
    lemma_closed_wf(c1, Ok(()));
    let c3 = c2.on_closed(Ok(()));
    lemma_closed_wf(c2, Ok(()));
}

/// An unrecognised header. When the partition table or the boot sector is
/// not one that this stack reads, the errand ends at once with a volume
/// fault, which for the boot sector is always `UnsupportedFormat`. Nothing
/// has been opened and no handle issued: the card has only been read, and a
/// new errand finds it as the first one did.
pub proof fn lemma_unrecognised_header_ends_errand(
    name: Seq<char>,
    index: usize,
    buf_size: usize,
    table: Seq<u8>,
    boot: Seq<u8>,
)
    requires
        buf_size > 0,
    ensures
        ({
            let fresh = ReadState::fresh(name, index, buf_size);
            let located = fresh.on_sector(Ok(table));
            let judged = located.on_sector(Ok(boot));
            &&& partition_at(table, index as int) is Err ==> {
                &&& located.result() == Some(
                    Err::<Seq<u8>, SdError>(
                        SdError::Volume(partition_at(table, index as int)->Err_0),
                    ),
                )
                &&& located.table == Table::empty()
            }
            &&& partition_at(table, index as int) is Ok && boot_sector_kind(boot) is Err ==> {
                &&& judged.result() == Some(
                    Err::<Seq<u8>, SdError>(SdError::Volume(VolumeFault::UnsupportedFormat)),
                )
                &&& judged.table == Table::empty()
            }
            &&& partition_at(table, index as int) is Ok && boot_sector_kind(boot) is Ok ==> {
                &&& judged.next() == Step::OpenVolume { index }
                &&& judged.failure is None
            }
        }),
{
}

/// The errand of reading one file.
pub struct FileRead {
    name: String,
    index: usize,
    buf_size: usize,
    phase: Phase,
    located: Option<Located>,
    header: Option<VolumeHeader>,
    manager: VolumeManager,
    volume: Option<VolumeHandle>,
    dir: Option<DirHandle>,
    file: Option<FileHandle>,
    data: Vec<u8>,
    reads: u64,
    failure: Option<SdError>,
}

impl View for FileRead {
    type V = ReadState;

    closed spec fn view(&self) -> ReadState {
        ReadState {
            name: self.name@,
            index: self.index,
            buf_size: self.buf_size,
            phase: self.phase,
            partition: match self.located {
                Some(located) => Some(located@.1),
                None => None,
            },
            fat: match self.header {
                Some(header) => Some(header@.kind),
                None => None,
            },
            table: self.manager@,
            volume: self.volume,
            dir: self.dir,
            file: self.file,
            data: self.data@,
            reads: self.reads as nat,
            failure: self.failure,
        }
    }
}

/// Appends the bytes of `chunk` to `buf`.
fn append(buf: &mut Vec<u8>, chunk: &[u8])
    ensures
        final(buf)@ == old(buf)@ + chunk@,
{
    let ghost before = buf@;
    let mut i: usize = 0;
    while i < chunk.len()
        invariant
            i <= chunk@.len(),
            buf@ == before + chunk@.subrange(0, i as int),
        decreases chunk@.len() - i,
    {
        buf.push(chunk[i]);
        i = i + 1;
        assert(buf@ =~= before + chunk@.subrange(0, i as int));
    }
    assert(chunk@.subrange(0, i as int) =~= chunk@);
}

/// A sector that was read off the card as contracts see it: the bytes by
/// their value.
pub open spec fn sector_view(outcome: Result<&[u8; 512], CardReport>) -> Result<
    Seq<u8>,
    CardReport,
> {
    match outcome {
        Ok(sector) => Ok(sector@),
        Err(report) => Err(report),
    }
}

/// The outcome of a read as contracts see it: the bytes by their value.
pub open spec fn outcome_view(outcome: Result<&[u8], FsReport>) -> Result<Seq<u8>, FsReport> {
    match outcome {
        Ok(chunk) => Ok(chunk@),
        Err(report) => Err(report),
    }
}

impl FileRead {
    /// Whether the errand is well formed. Every errand that this module hands
    /// out is, and stays so.
    pub closed spec fn wf(&self) -> bool {
        &&& self.manager.wf()
        &&& self@.wf()
        &&& self.located is Some ==> self.located.unwrap()@.0 == self.index
        &&& self.header is Some ==> self.located is Some && self.header.unwrap()@.index
            == self.index && self.header.unwrap()@.partition == self.located.unwrap()@.1
    }

    /// The state of a well-formed errand is well formed.
    pub proof fn lemma_state_wf(&self)
        requires
            self.wf(),
        ensures
            self@.wf(),
    {
    }

    /// The errand of reading the file `name` from the root directory of
    /// partition `index`, `buf_size` bytes at a time. A buffer of no bytes
    /// reads nothing and is refused.
    pub fn new(name: &str, index: usize, buf_size: usize) -> (r: Result<FileRead, SdError>)
        ensures
            match r {
                Ok(errand) => buf_size > 0 && errand.wf() && errand@ == ReadState::fresh(
                    name@,
                    index,
                    buf_size,
                ),
                Err(fault) => buf_size == 0 && fault == SdError::Usage(UsageFault::BadLength),
            },
    {
        if buf_size == 0 {
            return Err(SdError::Usage(UsageFault::BadLength));
        }
        Ok(
            FileRead {
                name: String::from_str(name),
                index,
                buf_size,
                phase: Phase::ReadTable,
                located: None,
                header: None,
                manager: VolumeManager::new(),
                volume: None,
                dir: None,
                file: None,
                data: Vec::new(),
                reads: 0,
                failure: None,
            },
        )
    }

    /// The name of the file.
    pub fn name(&self) -> (r: &str)
        ensures
            r@ == self@.name,
    {
        self.name.as_str()
    }

    /// The step that is due.
    pub fn next_step(&self) -> (r: Step)
        requires
            self.wf(),
        ensures
            r == self@.next(),
    {
        match self.phase {
            Phase::ReadTable => Step::ReadSector { sector: 0 },
            Phase::ReadBoot => Step::ReadSector {
                sector: self.located.unwrap().partition().start,
            },
            Phase::OpenVolume => Step::OpenVolume { index: self.index },
            Phase::OpenDir => Step::OpenRootDir { volume: self.volume.unwrap() },
            Phase::OpenFile => Step::OpenFile { dir: self.dir.unwrap() },
            Phase::Reading => Step::Read { file: self.file.unwrap(), max: self.buf_size },
            Phase::CloseFile => Step::CloseFile { file: self.file.unwrap() },
            Phase::CloseDir => Step::CloseDir { dir: self.dir.unwrap() },
            Phase::CloseVolume => Step::CloseVolume { volume: self.volume.unwrap() },
            Phase::Done => Step::Finished,
        }
    }

    /// Whether the errand is over.
    pub fn is_finished(&self) -> (r: bool)
        ensures
            r == (self@.phase == Phase::Done),
    {
        match self.phase {
            Phase::Done => true,
            _ => false,
        }
    }

    /// How many reads have been reported, failed ones among them.
    pub fn reads(&self) -> (r: u64)
        ensures
            r == self@.reads,
    {
        self.reads
    }

    /// How many bytes have been gathered.
    pub fn bytes_read(&self) -> (r: usize)
        ensures
            r == self@.data.len(),
    {
        self.data.len()
    }

    /// The first fault that the errand met, if it met one.
    pub fn failure(&self) -> (r: Option<SdError>)
        ensures
            r == self@.failure,
    {
        self.failure
    }

    /// The partition that the errand reads from, once the partition table has
    /// been read.
    pub fn partition(&self) -> (r: Option<Partition>)
        ensures
            r == self@.partition,
    {
        match self.located {
            Some(located) => Some(located.partition()),
            None => None,
        }
    }

    /// The kind of the volume, once its boot sector has been judged.
    pub fn fat_kind(&self) -> (r: Option<FatKind>)
        ensures
            r == self@.fat,
    {
        match self.header {
            Some(header) => Some(header.kind()),
            None => None,
        }
    }

    /// Takes the sector that was to be read off the card, or the card's
    /// failure to deliver it.
    ///
    /// A partition table without the partition, or a boot sector that is not
    /// recognised, ends the errand; the volume is not handed to the driver.
    pub fn sector_read(&mut self, outcome: Result<&[u8; 512], CardReport>)
        requires
            old(self).wf(),
        ensures
            final(self).wf(),
            final(self)@ == old(self)@.on_sector(sector_view(outcome)),
    {
        proof {
            lemma_sector_wf(self@, sector_view(outcome));
        }
        match self.phase {
            Phase::ReadTable => {
                match outcome {
                    Err(report) => {
                        self.fail(SdError::Volume(VolumeFault::Io(DeviceFault::from_report(report))));
                    },
                    Ok(sector) => {
                        match locate_partition(sector, self.index) {
                            Ok(located) => {
                                self.located = Some(located);
                                self.phase = Phase::ReadBoot;
                            },
                            Err(fault) => {
                                self.fail(SdError::Volume(fault));
                            },
                        }
                    },
                }
            },
            Phase::ReadBoot => {
                match outcome {
                    Err(report) => {
                        self.fail(SdError::Volume(VolumeFault::Io(DeviceFault::from_report(report))));
                    },
                    Ok(sector) => {
                        match self.located.unwrap().judge(sector) {
                            Ok(header) => {
                                self.header = Some(header);
                                self.phase = Phase::OpenVolume;
                            },
                            Err(fault) => {
                                self.fail(SdError::Volume(fault));
                            },
                        }
                    },
                }
            },
            _ => {
                self.misuse();
            },
        }
    }

    /// Takes the driver's report on the opening of the volume.
    pub fn volume_opened(&mut self, outcome: Result<(), FsReport>)
        requires
            old(self).wf(),
        ensures
            final(self).wf(),
            final(self)@ == old(self)@.on_volume_opened(outcome),
    {
        proof {
            lemma_volume_opened_wf(self@, outcome);
        }
        match self.phase {
            Phase::OpenVolume => {},
            _ => {
                self.misuse();
                return ;
            },
        }
        let header = self.header.unwrap();
        match self.manager.open_raw_volume(&header, outcome) {
            Ok(handle) => {
                self.volume = Some(handle);
                self.phase = Phase::OpenDir;
            },
            Err(fault) => {
                self.fail(fault);
            },
        }
    }

    /// Takes the driver's report on the opening of the root directory.
    pub fn dir_opened(&mut self, outcome: Result<(), FsReport>)
        requires
            old(self).wf(),
        ensures
            final(self).wf(),
            final(self)@ == old(self)@.on_dir_opened(outcome),
    {
        proof {
            lemma_dir_opened_wf(self@, outcome);
        }
        match self.phase {
            Phase::OpenDir => {},
            _ => {
                self.misuse();
                return ;
            },
        }
        let volume = self.volume.unwrap();
        match self.manager.open_root_dir(volume, outcome) {
            Ok(handle) => {
                self.dir = Some(handle);
                self.phase = Phase::OpenFile;
            },
            Err(fault) => {
                self.fail(fault);
            },
        }
    }

    /// Takes the driver's report on the opening of the file: its length, or
    /// the driver's failure.
    pub fn file_opened(&mut self, outcome: Result<u32, FsReport>)
        requires
            old(self).wf(),
        ensures
            final(self).wf(),
            final(self)@ == old(self)@.on_file_opened(outcome),
    {
        proof {
            lemma_file_opened_wf(self@, outcome);
        }
        match self.phase {
            Phase::OpenFile => {},
            _ => {
                self.misuse();
                return ;
            },
        }
        let dir = self.dir.unwrap();
        match self.manager.open_file_in_dir(dir, outcome) {
            Ok(handle) => {
                self.file = Some(handle);
                match outcome {
                    Ok(length) => {
                        if length == 0 {
                            self.phase = Phase::CloseFile;
                        } else {
                            self.phase = Phase::Reading;
                        }
                    },
                    Err(_) => {},
                }
            },
            Err(fault) => {
                self.fail(fault);
            },
        }
    }

    /// Takes the driver's report on a read: the bytes it delivered, or its
    /// failure.
    ///
    /// The driver may deliver fewer bytes than were asked for; the errand
    /// goes on reading until the end of the file is reached, however many
    /// reads that takes. A failure ends the reading: the bytes gathered are
    /// dropped, and the file gets closed.
    pub fn data_read(&mut self, outcome: Result<&[u8], FsReport>)
        requires
            old(self).wf(),
        ensures
            final(self).wf(),
            final(self)@ == old(self)@.on_data(outcome_view(outcome)),
    {
        proof {
            lemma_data_wf(self@, outcome_view(outcome));
        }
        match self.phase {
            Phase::Reading => {},
            _ => {
                self.misuse();
                return ;
            },
        }
        let file = self.file.unwrap();
        if self.reads < u64::MAX {
            self.reads = self.reads + 1;
        }
        match outcome {
            Err(report) => {
                match self.manager.read(file, self.buf_size, Err(report)) {
                    Ok(_) => {},
                    Err(fault) => {
                        self.fail(fault);
                    },
                }
            },
            Ok(chunk) => {
                match self.manager.read(file, self.buf_size, Ok(chunk.len())) {
                    Ok(_) => {
                        append(&mut self.data, chunk);
                        match self.manager.file_eof(file) {
                            Ok(true) => {
                                self.phase = Phase::CloseFile;
                            },
                            _ => {},
                        }
                    },
                    Err(fault) => {
                        self.fail(fault);
                    },
                }
            },
        }
    }

    /// Takes the driver's report on the closing that was due.
    ///
    /// After a closing that went well the errand turns to the next thing to
    /// close. A closing that failed ends the errand at once: what could not
    /// be closed stays on the table, and nothing is closed over it.
    pub fn closed(&mut self, outcome: Result<(), FsReport>)
        requires
            old(self).wf(),
        ensures
            final(self).wf(),
            final(self)@ == old(self)@.on_closed(outcome),
    {
        proof {
            lemma_closed_wf(self@, outcome);
            crate::volume::lemma_transitions_keep_wf(self@.table);
        }
        match self.phase {
            Phase::CloseFile => {
                match outcome {
                    Ok(_) => {
                        let file = self.file.unwrap();
                        let _ = self.manager.close_file(file);
                        self.file = None;
                        self.phase = Phase::CloseDir;
                    },
                    Err(report) => {
                        self.halt(SdError::from_file_report(report));
                    },
                }
            },
            Phase::CloseDir => {
                match outcome {
                    Ok(_) => {
                        let dir = self.dir.unwrap();
                        let _ = self.manager.close_dir(dir);
                        self.dir = None;
                        self.phase = Phase::CloseVolume;
                    },
                    Err(report) => {
                        self.halt(SdError::from_volume_report(report));
                    },
                }
            },
            Phase::CloseVolume => {
                match outcome {
                    Ok(_) => {
                        let volume = self.volume.unwrap();
                        let _ = self.manager.close_volume(volume);
                        self.volume = None;
                        self.phase = Phase::Done;
                    },
                    Err(report) => {
                        self.halt(SdError::from_volume_report(report));
                    },
                }
            },
            _ => {
                self.misuse();
            },
        }
    }

    /// Whether the errand is over and has left something open, because a
    /// closing failed.
    pub fn left_open(&self) -> (r: bool)
        requires
            self.wf(),
        ensures
            r == self@.left_open(),
    {
        match self.phase {
            Phase::Done => !self.manager.is_idle(),
            _ => false,
        }
    }

    /// Ends the errand and hands out what it has come to: the bytes of the
    /// file, or the first fault that it met. An errand that is not over yet
    /// gives `UnexpectedEvent`.
    pub fn finish(self) -> (r: Result<Vec<u8>, SdError>)
        ensures
            match r {
                Ok(bytes) => self@.result() == Some(Ok::<Seq<u8>, SdError>(bytes@)),
                Err(fault) => match self@.result() {
                    Some(ended) => ended == Err::<Seq<u8>, SdError>(fault),
                    None => fault == SdError::Usage(UsageFault::UnexpectedEvent),
                },
            },
    {
        match self.phase {
            Phase::Done => {},
            _ => {
                return Err(SdError::Usage(UsageFault::UnexpectedEvent));
            },
        }
        match self.failure {
            Some(fault) => Err(fault),
            None => Ok(self.data),
        }
    }

    /// Puts `fault` on record unless an earlier one stands there, drops the
    /// bytes gathered, and turns to closing what is open.
    fn fail(&mut self, fault: SdError)
        ensures
            final(self)@ == old(self)@.failed(fault),
            final(self).manager == old(self).manager,
            final(self).located == old(self).located,
            final(self).header == old(self).header,
            final(self).index == old(self).index,
    {
        match self.failure {
            Some(_) => {},
            None => {
                self.failure = Some(fault);
            },
        }
        self.data = Vec::new();
        if self.file.is_some() {
            self.phase = Phase::CloseFile;
        } else if self.dir.is_some() {
            self.phase = Phase::CloseDir;
        } else if self.volume.is_some() {
            self.phase = Phase::CloseVolume;
        } else {
            self.phase = Phase::Done;
        }
    }

    /// Puts `fault` on record unless an earlier one stands there, drops the
    /// bytes gathered, and ends the errand with what is open left open.
    fn halt(&mut self, fault: SdError)
        ensures
            final(self)@ == old(self)@.halted(fault),
            final(self).manager == old(self).manager,
            final(self).located == old(self).located,
            final(self).header == old(self).header,
            final(self).index == old(self).index,
    {
        match self.failure {
            Some(_) => {},
            None => {
                self.failure = Some(fault);
            },
        }
        self.data = Vec::new();
        self.phase = Phase::Done;
    }

    /// Takes a report that was not due.
    fn misuse(&mut self)
        ensures
            final(self)@ == old(self)@.misused(),
            final(self).manager == old(self).manager,
            final(self).located == old(self).located,
            final(self).header == old(self).header,
            final(self).index == old(self).index,
    {
        match self.phase {
            Phase::Done => {},
            _ => {
                self.fail(SdError::Usage(UsageFault::UnexpectedEvent));
            },
        }
    }
}

} // verus!
