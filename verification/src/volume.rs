//! The volume manager: the table of open volumes, directories and files.
//!
//! A volume is opened on a partition whose headers have been found in order,
//! a directory on a volume, a file in a directory. The handles form a tree,
//! and the manager keeps it sound: a directory cannot outlive its volume, nor
//! a file its directory, and each file carries a read cursor that never
//! passes its length.
//!
//! The filesystem on the card is read by a driver outside this crate. The
//! caller makes the driver's call and hands its outcome to the manager, which
//! sorts failures into the taxonomy of [`crate::fault`] and records what is
//! open.

use crate::fault::{FsReport, SdError, UsageFault};
use crate::header::VolumeHeader;
use crate::registry::Registry;
use vstd::prelude::*;

verus! {

/// Names an open volume.
#[derive(Clone, Copy, Debug, PartialEq, Eq, Structural)]
pub struct VolumeHandle(pub u64);

/// Names an open directory.
#[derive(Clone, Copy, Debug, PartialEq, Eq, Structural)]
pub struct DirHandle(pub u64);

/// Names an open file.
#[derive(Clone, Copy, Debug, PartialEq, Eq, Structural)]
pub struct FileHandle(pub u64);

/// What the manager knows of an open file.
#[derive(Clone, Copy, Debug, PartialEq, Eq, Structural)]
pub struct FileState {
    /// The number of the directory handle that the file was opened in.
    pub dir: u64,
    /// The length of the file in bytes.
    pub length: u32,
    /// How many bytes have been read so far.
    pub cursor: u32,
}

/// The table of a manager, as contracts see it.
pub struct Table {
    /// The open volumes: handle number to partition index.
    pub volumes: Map<u64, usize>,
    /// The open directories: handle number to the number of their volume.
    pub dirs: Map<u64, u64>,
    /// The open files, by handle number.
    pub files: Map<u64, FileState>,
    /// How many handles have been issued so far. The next one gets this
    /// number.
    pub issued: nat,
}

impl FileState {
    /// Whether the cursor stands at the end of the file.
    pub open spec fn at_end(self) -> bool {
        self.cursor == self.length
    }

    /// How many bytes lie between the cursor and the end.
    pub open spec fn left(self) -> nat {
        (self.length - self.cursor) as nat
    }
}

impl Table {
    /// The table of a new manager: nothing open, nothing issued.
    pub open spec fn empty() -> Table {
        Table { volumes: Map::empty(), dirs: Map::empty(), files: Map::empty(), issued: 0 }
    }

    /// What holds of every table that a manager reaches.
    ///
    /// Handle numbers lie below the count of issued handles. Every directory
    /// hangs on an open volume and every file on an open directory. No
    /// partition is open twice. No cursor lies past the end of its file.
    pub open spec fn wf(self) -> bool {
        &&& self.issued <= u64::MAX
        &&& forall|v: u64| #[trigger] self.volumes.contains_key(v) ==> v < self.issued
        &&& forall|d: u64| #[trigger]
            self.dirs.contains_key(d) ==> d < self.issued && self.volumes.contains_key(
                self.dirs[d],
            )
        &&& forall|f: u64| #[trigger]
            self.files.contains_key(f) ==> f < self.issued && self.dirs.contains_key(
                self.files[f].dir,
            ) && self.files[f].cursor <= self.files[f].length
        &&& forall|v: u64, w: u64|
            #[trigger] self.volumes.contains_key(v) && #[trigger] self.volumes.contains_key(w)
                && self.volumes[v] == self.volumes[w] ==> v == w
    }

    /// Whether nothing is open.
    pub open spec fn nothing_open(self) -> bool {
        self.volumes == Map::<u64, usize>::empty() && self.dirs == Map::<u64, u64>::empty()
            && self.files == Map::<u64, FileState>::empty()
    }

    /// Whether the partition `index` is open.
    pub open spec fn index_open(self, index: usize) -> bool {
        exists|v: u64| #[trigger] self.volumes.contains_key(v) && self.volumes[v] == index
    }

    /// Whether a directory is open on the volume numbered `volume`.
    pub open spec fn volume_in_use(self, volume: u64) -> bool {
        exists|d: u64| #[trigger] self.dirs.contains_key(d) && self.dirs[d] == volume
    }

    /// Whether a file is open in the directory numbered `dir`.
    pub open spec fn dir_in_use(self, dir: u64) -> bool {
        exists|f: u64| #[trigger] self.files.contains_key(f) && self.files[f].dir == dir
    }

    /// Whether one more handle can be issued.
    pub open spec fn has_room(self) -> bool {
        self.issued < u64::MAX
    }

    /// What the opening of partition `index` gives, when the driver reported
    /// `outcome`.
    pub open spec fn volume_opening(self, index: usize, outcome: Result<(), FsReport>) -> Result<
        VolumeHandle,
        SdError,
    > {
        if self.index_open(index) {
            Err(SdError::Usage(UsageFault::AlreadyOpen))
        } else {
            match outcome {
                Err(report) => Err(SdError::of_volume_report(report)),
                Ok(_) => if self.has_room() {
                    Ok(VolumeHandle(self.issued as u64))
                } else {
                    Err(SdError::Usage(UsageFault::TableFull))
                },
            }
        }
    }

    /// The table once the opening of partition `index` has been served.
    pub open spec fn after_volume_opening(
        self,
        index: usize,
        outcome: Result<(), FsReport>,
    ) -> Table {
        match self.volume_opening(index, outcome) {
            Ok(handle) => Table {
                volumes: self.volumes.insert(handle.0, index),
                issued: self.issued + 1,
                ..self
            },
            Err(_) => self,
        }
    }

    /// What the opening of the root directory of `volume` gives.
    pub open spec fn dir_opening(self, volume: VolumeHandle, outcome: Result<(), FsReport>) -> Result<
        DirHandle,
        SdError,
    > {
        if !self.volumes.contains_key(volume.0) {
            Err(SdError::Usage(UsageFault::UnknownHandle))
        } else {
            match outcome {
                Err(report) => Err(SdError::of_volume_report(report)),
                Ok(_) => if self.has_room() {
                    Ok(DirHandle(self.issued as u64))
                } else {
                    Err(SdError::Usage(UsageFault::TableFull))
                },
            }
        }
    }

    /// The table once the opening of the root directory has been served.
    pub open spec fn after_dir_opening(
        self,
        volume: VolumeHandle,
        outcome: Result<(), FsReport>,
    ) -> Table {
        match self.dir_opening(volume, outcome) {
            Ok(handle) => Table {
                dirs: self.dirs.insert(handle.0, volume.0),
                issued: self.issued + 1,
                ..self
            },
            Err(_) => self,
        }
    }

    /// What the opening of a file in `dir` gives, when the driver reported
    /// `outcome`: the length of the file, or why it could not be opened.
    pub open spec fn file_opening(self, dir: DirHandle, outcome: Result<u32, FsReport>) -> Result<
        FileHandle,
        SdError,
    > {
        if !self.dirs.contains_key(dir.0) {
            Err(SdError::Usage(UsageFault::UnknownHandle))
        } else {
            match outcome {
                Err(report) => Err(SdError::of_file_report(report)),
                Ok(_) => if self.has_room() {
                    Ok(FileHandle(self.issued as u64))
                } else {
                    Err(SdError::Usage(UsageFault::TableFull))
                },
            }
        }
    }

    /// The table once the opening of a file has been served.
    pub open spec fn after_file_opening(
        self,
        dir: DirHandle,
        outcome: Result<u32, FsReport>,
    ) -> Table {
        match (self.file_opening(dir, outcome), outcome) {
            (Ok(handle), Ok(length)) => Table {
                files: self.files.insert(handle.0, FileState { dir: dir.0, length, cursor: 0 }),
                issued: self.issued + 1,
                ..self
            },
            _ => self,
        }
    }

    /// What a read of at most `requested` bytes from `file` gives, when the
    /// driver reported `outcome`: the number of bytes it delivered, or why it
    /// could not.
    pub open spec fn reading(
        self,
        file: FileHandle,
        requested: usize,
        outcome: Result<usize, FsReport>,
    ) -> Result<usize, SdError> {
        if !self.files.contains_key(file.0) {
            Err(SdError::Usage(UsageFault::UnknownHandle))
        } else {
            match outcome {
                Err(report) => Err(SdError::of_file_report(report)),
                Ok(count) => if count <= requested && count <= self.files[file.0].left() {
                    Ok(count)
                } else {
                    Err(SdError::Usage(UsageFault::BadLength))
                },
            }
        }
    }

    /// The table once a read has been served: the cursor has moved on by the
    /// bytes delivered.
    pub open spec fn after_reading(
        self,
        file: FileHandle,
        requested: usize,
        outcome: Result<usize, FsReport>,
    ) -> Table {
        match self.reading(file, requested, outcome) {
            Ok(count) => Table {
                files: self.files.insert(
                    file.0,
                    FileState {
                        cursor: (self.files[file.0].cursor + count) as u32,
                        ..self.files[file.0]
                    },
                ),
                ..self
            },
            Err(_) => self,
        }
    }

    /// What the closing of `file` gives.
    pub open spec fn file_closing(self, file: FileHandle) -> Result<(), SdError> {
        if self.files.contains_key(file.0) {
            Ok(())
        } else {
            Err(SdError::Usage(UsageFault::UnknownHandle))
        }
    }

    /// The table once the closing of `file` has been served.
    pub open spec fn after_file_closing(self, file: FileHandle) -> Table {
        Table { files: self.files.remove(file.0), ..self }
    }

    /// What the closing of `dir` gives: a directory with an open file in it
    /// stays open.
    pub open spec fn dir_closing(self, dir: DirHandle) -> Result<(), SdError> {
        if !self.dirs.contains_key(dir.0) {
            Err(SdError::Usage(UsageFault::UnknownHandle))
        } else if self.dir_in_use(dir.0) {
            Err(SdError::Usage(UsageFault::StillInUse))
        } else {
            Ok(())
        }
    }

    /// The table once the closing of `dir` has been served.
    pub open spec fn after_dir_closing(self, dir: DirHandle) -> Table {
        match self.dir_closing(dir) {
            Ok(_) => Table { dirs: self.dirs.remove(dir.0), ..self },
            Err(_) => self,
        }
    }

    /// What the closing of `volume` gives: a volume with an open directory on
    /// it stays open.
    pub open spec fn volume_closing(self, volume: VolumeHandle) -> Result<(), SdError> {
        if !self.volumes.contains_key(volume.0) {
            Err(SdError::Usage(UsageFault::UnknownHandle))
        } else if self.volume_in_use(volume.0) {
            Err(SdError::Usage(UsageFault::StillInUse))
        } else {
            Ok(())
        }
    }

    /// The table once the closing of `volume` has been served.
    pub open spec fn after_volume_closing(self, volume: VolumeHandle) -> Table {
        match self.volume_closing(volume) {
            Ok(_) => Table { volumes: self.volumes.remove(volume.0), ..self },
            Err(_) => self,
        }
    }
}

/// Every transition keeps the table well formed.
pub proof fn lemma_transitions_keep_wf(t: Table)
    requires
        t.wf(),
    ensures
        forall|index: usize, outcome: Result<(), FsReport>| #[trigger]
            t.after_volume_opening(index, outcome).wf(),
        forall|volume: VolumeHandle, outcome: Result<(), FsReport>| #[trigger]
            t.after_dir_opening(volume, outcome).wf(),
        forall|dir: DirHandle, outcome: Result<u32, FsReport>| #[trigger]
            t.after_file_opening(dir, outcome).wf(),
        forall|file: FileHandle, requested: usize, outcome: Result<usize, FsReport>| #[trigger]
            t.after_reading(file, requested, outcome).wf(),
        forall|file: FileHandle| #[trigger] t.after_file_closing(file).wf(),
        forall|dir: DirHandle| #[trigger] t.after_dir_closing(dir).wf(),
        forall|volume: VolumeHandle| #[trigger] t.after_volume_closing(volume).wf(),
{
    assert forall|index: usize, outcome: Result<(), FsReport>| #[trigger]
        t.after_volume_opening(index, outcome).wf() by {
        lemma_volume_opening_wf(t, index, outcome);
    }
    assert forall|volume: VolumeHandle, outcome: Result<(), FsReport>| #[trigger]
        t.after_dir_opening(volume, outcome).wf() by {
        lemma_dir_opening_wf(t, volume, outcome);
    }
    assert forall|dir: DirHandle, outcome: Result<u32, FsReport>| #[trigger]
        t.after_file_opening(dir, outcome).wf() by {
        lemma_file_opening_wf(t, dir, outcome);
    }
    assert forall|file: FileHandle, requested: usize, outcome: Result<usize, FsReport>| #[trigger]
        t.after_reading(file, requested, outcome).wf() by {
        lemma_reading_wf(t, file, requested, outcome);
    }
    assert forall|file: FileHandle| #[trigger] t.after_file_closing(file).wf() by {
        lemma_file_closing_wf(t, file);
    }
    assert forall|dir: DirHandle| #[trigger] t.after_dir_closing(dir).wf() by {
        lemma_dir_closing_wf(t, dir);
    }
    assert forall|volume: VolumeHandle| #[trigger] t.after_volume_closing(volume).wf() by {
        lemma_volume_closing_wf(t, volume);
    }
}

proof fn lemma_volume_opening_wf(t: Table, index: usize, outcome: Result<(), FsReport>)
    requires
        t.wf(),
    ensures
        t.after_volume_opening(index, outcome).wf(),
{
}

proof fn lemma_dir_opening_wf(t: Table, volume: VolumeHandle, outcome: Result<(), FsReport>)
    requires
        t.wf(),
    ensures
        t.after_dir_opening(volume, outcome).wf(),
{
}

proof fn lemma_file_opening_wf(t: Table, dir: DirHandle, outcome: Result<u32, FsReport>)
    requires
        t.wf(),
    ensures
        t.after_file_opening(dir, outcome).wf(),
{
}

proof fn lemma_reading_wf(
    t: Table,
    file: FileHandle,
    requested: usize,
    outcome: Result<usize, FsReport>,
)
    requires
        t.wf(),
    ensures
        t.after_reading(file, requested, outcome).wf(),
{
}

proof fn lemma_file_closing_wf(t: Table, file: FileHandle)
    requires
        t.wf(),
    ensures
        t.after_file_closing(file).wf(),
{
}

proof fn lemma_dir_closing_wf(t: Table, dir: DirHandle)
    requires
        t.wf(),
    ensures
        t.after_dir_closing(dir).wf(),
{
}

proof fn lemma_volume_closing_wf(t: Table, volume: VolumeHandle)
    requires
        t.wf(),
    ensures
        t.after_volume_closing(volume).wf(),
{
}

/// Handles are not issued twice. The number that the next handle gets names
/// nothing that is open, and every opening that succeeds raises it.
pub proof fn lemma_next_handle_is_new(t: Table)
    requires
        t.wf(),
    ensures
        !t.volumes.contains_key(t.issued as u64),
        !t.dirs.contains_key(t.issued as u64),
        !t.files.contains_key(t.issued as u64),
        forall|index: usize, outcome: Result<(), FsReport>|
            (#[trigger] t.volume_opening(index, outcome)) is Ok ==> t.after_volume_opening(
                index,
                outcome,
            ).issued == t.issued + 1,
        forall|volume: VolumeHandle, outcome: Result<(), FsReport>|
            (#[trigger] t.dir_opening(volume, outcome)) is Ok ==> t.after_dir_opening(
                volume,
                outcome,
            ).issued == t.issued + 1,
        forall|dir: DirHandle, outcome: Result<u32, FsReport>|
            (#[trigger] t.file_opening(dir, outcome)) is Ok ==> t.after_file_opening(
                dir,
                outcome,
            ).issued == t.issued + 1,
{
}

/// Closing in order. Take an open file, the directory it was opened in and
/// the volume of that directory, where the file is the only one open in the
/// directory and the directory the only one open on the volume. Then closing
/// the file, the directory and the volume, in that order, succeeds at every
/// step, and none of the three is open afterwards.
pub proof fn lemma_close_in_order(t: Table, file: FileHandle)
    requires
        t.wf(),
        t.files.contains_key(file.0),
        forall|g: u64| #[trigger]
            t.files.contains_key(g) && t.files[g].dir == t.files[file.0].dir ==> g == file.0,
        forall|e: u64| #[trigger]
            t.dirs.contains_key(e) && t.dirs[e] == t.dirs[t.files[file.0].dir] ==> e
                == t.files[file.0].dir,
    ensures
        ({
            let dir = DirHandle(t.files[file.0].dir);
            let volume = VolumeHandle(t.dirs[dir.0]);
            let t1 = t.after_file_closing(file);
            let t2 = t1.after_dir_closing(dir);
            let t3 = t2.after_volume_closing(volume);
            &&& t.file_closing(file) is Ok
            &&& t1.dir_closing(dir) is Ok
            &&& t2.volume_closing(volume) is Ok
            &&& t3.wf()
            &&& t3.files == t.files.remove(file.0)
            &&& t3.dirs == t.dirs.remove(dir.0)
            &&& t3.volumes == t.volumes.remove(volume.0)
        }),
{
    let dir = DirHandle(t.files[file.0].dir);
    let volume = VolumeHandle(t.dirs[dir.0]);
    let t1 = t.after_file_closing(file);
    assert(t.dirs.contains_key(t.files[file.0].dir));
    assert(t.volumes.contains_key(t.dirs[dir.0]));
    assert(!t1.dir_in_use(dir.0)) by {
        if t1.dir_in_use(dir.0) {
            let g = choose|g: u64| #[trigger] t1.files.contains_key(g) && t1.files[g].dir == dir.0;
            assert(t.files.contains_key(g));
            assert(t.files[g].dir == dir.0);
        }
    }
    let t2 = t1.after_dir_closing(dir);
    assert(!t2.volume_in_use(volume.0)) by {
        if t2.volume_in_use(volume.0) {
            let e = choose|e: u64| #[trigger] t2.dirs.contains_key(e) && t2.dirs[e] == volume.0;
            assert(t.dirs.contains_key(e));
            assert(t.dirs[e] == volume.0);
        }
    }
    lemma_file_closing_wf(t, file);
    lemma_dir_closing_wf(t1, dir);
    lemma_volume_closing_wf(t2, volume);
}

/// Closing out of order is rejected and changes nothing: a directory with an
/// open file in it cannot be closed, nor a volume with an open directory on
/// it.
pub proof fn lemma_close_out_of_order(t: Table, file: FileHandle)
    requires
        t.wf(),
        t.files.contains_key(file.0),
    ensures
        ({
            let dir = DirHandle(t.files[file.0].dir);
            let volume = VolumeHandle(t.dirs[dir.0]);
            &&& t.dir_closing(dir) == Err::<(), SdError>(SdError::Usage(UsageFault::StillInUse))
            &&& t.after_dir_closing(dir) == t
            &&& t.volume_closing(volume) == Err::<(), SdError>(
                SdError::Usage(UsageFault::StillInUse),
            )
            &&& t.after_volume_closing(volume) == t
        }),
{
    let dir = DirHandle(t.files[file.0].dir);
    assert(t.dirs.contains_key(t.files[file.0].dir));
    assert(t.dir_in_use(dir.0));
    let volume = VolumeHandle(t.dirs[dir.0]);
    assert(t.volumes.contains_key(t.dirs[dir.0]));
    assert(t.volume_in_use(volume.0));
}

/// A failed opening can be tried again. When the driver does not recognise
/// the headers of a partition that is not open, the opening gives
/// `UnsupportedFormat`, the table is as it was, and the same opening succeeds
/// as soon as the driver does.
pub proof fn lemma_failed_opening_is_retryable(t: Table, index: usize)
    requires
        t.wf(),
        !t.index_open(index),
        t.has_room(),
    ensures
        t.volume_opening(index, Err(FsReport::FormatError)) == Err::<VolumeHandle, SdError>(
            SdError::Volume(crate::fault::VolumeFault::UnsupportedFormat),
        ),
        t.after_volume_opening(index, Err(FsReport::FormatError)) == t,
        t.after_volume_opening(index, Err(FsReport::FormatError)).volume_opening(index, Ok(()))
            is Ok,
{
}

/// The volume manager.
pub struct VolumeManager {
    issued: u64,
    volumes: Registry<usize>,
    dirs: Registry<u64>,
    files: Registry<FileState>,
}

impl View for VolumeManager {
    type V = Table;

    closed spec fn view(&self) -> Table {
        Table {
            volumes: self.volumes@,
            dirs: self.dirs@,
            files: self.files@,
            issued: self.issued as nat,
        }
    }
}

impl VolumeManager {
    /// Whether the manager is well formed. Every manager that this module
    /// hands out is, and stays so.
    pub closed spec fn wf(&self) -> bool {
        &&& self.volumes.wf()
        &&& self.dirs.wf()
        &&& self.files.wf()
        &&& self@.wf()
    }

    /// The table of a well-formed manager is well formed.
    pub proof fn lemma_table_wf(&self)
        requires
            self.wf(),
        ensures
            self@.wf(),
    {
    }

    /// A manager with nothing open.
    pub fn new() -> (r: VolumeManager)
        ensures
            r.wf(),
            r@ == Table::empty(),
    {
        VolumeManager {
            issued: 0,
            volumes: Registry::new(),
            dirs: Registry::new(),
            files: Registry::new(),
        }
    }

    /// Whether the partition `index` is open.
    pub fn volume_is_open(&self, index: usize) -> (r: bool)
        requires
            self.wf(),
        ensures
            r == self@.index_open(index),
    {
        proof {
            self.volumes.lemma_covered();
        }
        let n: usize = self.volumes.len();
        let mut i: usize = 0;
        while i < n
            invariant
                self.volumes.wf(),
                self.volumes.covered(),
                n == self.volumes.count(),
                i <= n,
                forall|j: int| 0 <= j < i ==> self.volumes@[#[trigger] self.volumes.key_at(j)] != index,
            decreases n - i,
        {
            let e = self.volumes.entry(i);
            if e.1 == index {
                assert(self@.volumes[e.0] == index);
                return true;
            }
            i = i + 1;
        }
        assert forall|v: u64| self@.volumes.contains_key(v) implies #[trigger] self@.volumes[v]
            != index by {
            let j = choose|j: int| 0 <= j < self.volumes.count() && #[trigger] self.volumes.key_at(j) == v;
            assert(self.volumes@[self.volumes.key_at(j)] != index);
        }
        false
    }

    /// Whether a directory is open on `volume`.
    pub fn volume_in_use(&self, volume: VolumeHandle) -> (r: bool)
        requires
            self.wf(),
        ensures
            r == self@.volume_in_use(volume.0),
    {
        proof {
            self.dirs.lemma_covered();
        }
        let n: usize = self.dirs.len();
        let mut i: usize = 0;
        while i < n
            invariant
                self.dirs.wf(),
                self.dirs.covered(),
                n == self.dirs.count(),
                i <= n,
                forall|j: int| 0 <= j < i ==> self.dirs@[#[trigger] self.dirs.key_at(j)] != volume.0,
            decreases n - i,
        {
            let e = self.dirs.entry(i);
            if e.1 == volume.0 {
                assert(self@.dirs[e.0] == volume.0);
                return true;
            }
            i = i + 1;
        }
        assert forall|d: u64| self@.dirs.contains_key(d) implies #[trigger] self@.dirs[d]
            != volume.0 by {
            let j = choose|j: int| 0 <= j < self.dirs.count() && #[trigger] self.dirs.key_at(j) == d;
            assert(self.dirs@[self.dirs.key_at(j)] != volume.0);
        }
        false
    }

    /// Whether a file is open in `dir`.
    pub fn dir_in_use(&self, dir: DirHandle) -> (r: bool)
        requires
            self.wf(),
        ensures
            r == self@.dir_in_use(dir.0),
    {
        proof {
            self.files.lemma_covered();
        }
        let n: usize = self.files.len();
        let mut i: usize = 0;
        while i < n
            invariant
                self.files.wf(),
                self.files.covered(),
                n == self.files.count(),
                i <= n,
                forall|j: int| 0 <= j < i ==> self.files@[#[trigger] self.files.key_at(j)].dir != dir.0,
            decreases n - i,
        {
            let e = self.files.entry(i);
            if e.1.dir == dir.0 {
                assert(self@.files[e.0].dir == dir.0);
                return true;
            }
            i = i + 1;
        }
        assert forall|f: u64| self@.files.contains_key(f) implies (#[trigger] self@.files[f]).dir
            != dir.0 by {
            let j = choose|j: int| 0 <= j < self.files.count() && #[trigger] self.files.key_at(j) == f;
            assert(self.files@[self.files.key_at(j)].dir != dir.0);
        }
        false
    }

    /// Whether nothing is open.
    pub fn is_idle(&self) -> (r: bool)
        requires
            self.wf(),
        ensures
            r == self@.nothing_open(),
    {
        proof {
            self.volumes.lemma_covered();
            self.dirs.lemma_covered();
            self.files.lemma_covered();
        }
        let r = self.volumes.len() == 0 && self.dirs.len() == 0 && self.files.len() == 0;
        proof {
            if self.volumes.count() == 0 {
                assert(self@.volumes =~= Map::<u64, usize>::empty());
            } else {
                assert(self@.volumes.contains_key(self.volumes.key_at(0)));
            }
            if self.dirs.count() == 0 {
                assert(self@.dirs =~= Map::<u64, u64>::empty());
            } else {
                assert(self@.dirs.contains_key(self.dirs.key_at(0)));
            }
            if self.files.count() == 0 {
                assert(self@.files =~= Map::<u64, FileState>::empty());
            } else {
                assert(self@.files.contains_key(self.files.key_at(0)));
            }
        }
        r
    }

    /// Records the opening of the partition whose headers are `header`, which
    /// the driver served with `outcome`.
    ///
    /// A partition that is open already is not opened again. A failure of the
    /// driver is sorted into the taxonomy and leaves the table as it was, so
    /// the opening can be tried again.
    pub fn open_raw_volume(&mut self, header: &VolumeHeader, outcome: Result<(), FsReport>) -> (r:
        Result<VolumeHandle, SdError>)
        requires
            old(self).wf(),
        ensures
            final(self).wf(),
            r == old(self)@.volume_opening(header@.index, outcome),
            final(self)@ == old(self)@.after_volume_opening(header@.index, outcome),
    {
        let index: usize = header.index();
        proof {
            lemma_volume_opening_wf(self@, index, outcome);
        }
        if self.volume_is_open(index) {
            return Err(SdError::Usage(UsageFault::AlreadyOpen));
        }
        match outcome {
            Err(report) => Err(SdError::from_volume_report(report)),
            Ok(_) => {
                if self.issued == u64::MAX {
                    return Err(SdError::Usage(UsageFault::TableFull));
                }
                let id: u64 = self.issued;
                self.volumes.insert(id, index);
                self.issued = id + 1;
                Ok(VolumeHandle(id))
            },
        }
    }

    /// Records the opening of the root directory of `volume`, which the
    /// driver served with `outcome`.
    pub fn open_root_dir(&mut self, volume: VolumeHandle, outcome: Result<(), FsReport>) -> (r:
        Result<DirHandle, SdError>)
        requires
            old(self).wf(),
        ensures
            final(self).wf(),
            r == old(self)@.dir_opening(volume, outcome),
            final(self)@ == old(self)@.after_dir_opening(volume, outcome),
    {
        proof {
            lemma_dir_opening_wf(self@, volume, outcome);
        }
        if !self.volumes.contains(volume.0) {
            return Err(SdError::Usage(UsageFault::UnknownHandle));
        }
        match outcome {
            Err(report) => Err(SdError::from_volume_report(report)),
            Ok(_) => {
                if self.issued == u64::MAX {
                    return Err(SdError::Usage(UsageFault::TableFull));
                }
                let id: u64 = self.issued;
                self.dirs.insert(id, volume.0);
                self.issued = id + 1;
                Ok(DirHandle(id))
            },
        }
    }

    /// Records the opening of a file in `dir` for reading, which the driver
    /// served with `outcome`: the length of the file, or its failure. The
    /// cursor of a file that was opened stands at its first byte.
    pub fn open_file_in_dir(&mut self, dir: DirHandle, outcome: Result<u32, FsReport>) -> (r:
        Result<FileHandle, SdError>)
        requires
            old(self).wf(),
        ensures
            final(self).wf(),
            r == old(self)@.file_opening(dir, outcome),
            final(self)@ == old(self)@.after_file_opening(dir, outcome),
    {
        proof {
            lemma_file_opening_wf(self@, dir, outcome);
        }
        if !self.dirs.contains(dir.0) {
            return Err(SdError::Usage(UsageFault::UnknownHandle));
        }
        match outcome {
            Err(report) => Err(SdError::from_file_report(report)),
            Ok(length) => {
                if self.issued == u64::MAX {
                    return Err(SdError::Usage(UsageFault::TableFull));
                }
                let id: u64 = self.issued;
                self.files.insert(id, FileState { dir: dir.0, length, cursor: 0 });
                self.issued = id + 1;
                Ok(FileHandle(id))
            },
        }
    }

    /// Records a read of at most `requested` bytes from `file`, which the
    /// driver served with `outcome`: how many bytes it delivered, or its
    /// failure.
    ///
    /// The cursor moves on by the bytes delivered. At the end of the file a
    /// read delivers nothing and succeeds. A count that exceeds the request
    /// or what is left of the file is rejected, and the cursor stays.
    pub fn read(&mut self, file: FileHandle, requested: usize, outcome: Result<usize, FsReport>) -> (r:
        Result<usize, SdError>)
        requires
            old(self).wf(),
        ensures
            final(self).wf(),
            r == old(self)@.reading(file, requested, outcome),
            final(self)@ == old(self)@.after_reading(file, requested, outcome),
    {
        proof {
            lemma_reading_wf(self@, file, requested, outcome);
        }
        let state = match self.files.get(file.0) {
            Some(state) => state,
            None => {
                return Err(SdError::Usage(UsageFault::UnknownHandle));
            },
        };
        match outcome {
            Err(report) => Err(SdError::from_file_report(report)),
            Ok(count) => {
                let left: u32 = state.length - state.cursor;
                if count > requested || count > left as usize {
                    return Err(SdError::Usage(UsageFault::BadLength));
                }
                let moved = FileState {
                    dir: state.dir,
                    length: state.length,
                    cursor: state.cursor + count as u32,
                };
                self.files.insert(file.0, moved);
                Ok(count)
            },
        }
    }

    /// Whether the cursor of `file` stands at its end.
    pub fn file_eof(&self, file: FileHandle) -> (r: Result<bool, SdError>)
        requires
            self.wf(),
        ensures
            r == (if self@.files.contains_key(file.0) {
                Ok::<bool, SdError>(self@.files[file.0].at_end())
            } else {
                Err(SdError::Usage(UsageFault::UnknownHandle))
            }),
    {
        match self.files.get(file.0) {
            Some(state) => Ok(state.cursor == state.length),
            None => Err(SdError::Usage(UsageFault::UnknownHandle)),
        }
    }

    /// The length of `file` in bytes.
    pub fn file_length(&self, file: FileHandle) -> (r: Result<u32, SdError>)
        requires
            self.wf(),
        ensures
            r == (if self@.files.contains_key(file.0) {
                Ok::<u32, SdError>(self@.files[file.0].length)
            } else {
                Err(SdError::Usage(UsageFault::UnknownHandle))
            }),
    {
        match self.files.get(file.0) {
            Some(state) => Ok(state.length),
            None => Err(SdError::Usage(UsageFault::UnknownHandle)),
        }
    }

    /// How many bytes of `file` have been read.
    pub fn file_offset(&self, file: FileHandle) -> (r: Result<u32, SdError>)
        requires
            self.wf(),
        ensures
            r == (if self@.files.contains_key(file.0) {
                Ok::<u32, SdError>(self@.files[file.0].cursor)
            } else {
                Err(SdError::Usage(UsageFault::UnknownHandle))
            }),
            r is Ok ==> r.unwrap() <= self@.files[file.0].length,
    {
        match self.files.get(file.0) {
            Some(state) => Ok(state.cursor),
            None => Err(SdError::Usage(UsageFault::UnknownHandle)),
        }
    }

    /// Closes `file`.
    pub fn close_file(&mut self, file: FileHandle) -> (r: Result<(), SdError>)
        requires
            old(self).wf(),
        ensures
            final(self).wf(),
            r == old(self)@.file_closing(file),
            final(self)@ == old(self)@.after_file_closing(file),
    {
        proof {
            lemma_file_closing_wf(self@, file);
        }
        match self.files.remove(file.0) {
            Some(_) => Ok(()),
            None => Err(SdError::Usage(UsageFault::UnknownHandle)),
        }
    }

    /// Closes `dir`, unless a file is still open in it.
    pub fn close_dir(&mut self, dir: DirHandle) -> (r: Result<(), SdError>)
        requires
            old(self).wf(),
        ensures
            final(self).wf(),
            r == old(self)@.dir_closing(dir),
            final(self)@ == old(self)@.after_dir_closing(dir),
    {
        proof {
            lemma_dir_closing_wf(self@, dir);
        }
        if !self.dirs.contains(dir.0) {
            return Err(SdError::Usage(UsageFault::UnknownHandle));
        }
        if self.dir_in_use(dir) {
            return Err(SdError::Usage(UsageFault::StillInUse));
        }
        self.dirs.remove(dir.0);
        Ok(())
    }

    /// Closes `volume`, unless a directory is still open on it.
    pub fn close_volume(&mut self, volume: VolumeHandle) -> (r: Result<(), SdError>)
        requires
            old(self).wf(),
        ensures
            final(self).wf(),
            r == old(self)@.volume_closing(volume),
            final(self)@ == old(self)@.after_volume_closing(volume),
    {
        proof {
            lemma_volume_closing_wf(self@, volume);
        }
        if !self.volumes.contains(volume.0) {
            return Err(SdError::Usage(UsageFault::UnknownHandle));
        }
        if self.volume_in_use(volume) {
            return Err(SdError::Usage(UsageFault::StillInUse));
        }
        self.volumes.remove(volume.0);
        Ok(())
    }
}

} // verus!
