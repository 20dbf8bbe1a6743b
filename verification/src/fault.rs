//! The error taxonomy of the stack, and the rules that sort low-level reports
//! into it.
//!
//! Every layer wraps the fault of the layer below it: a volume fault caused by
//! the card carries the card's fault, and a card fault caused by the bus
//! carries the bus fault. [`SdError`] is the one type a caller has to match on.

use vstd::prelude::*;

verus! {

/// A failure of the shared bus controller itself.
#[derive(Clone, Copy, Debug, PartialEq, Eq, Structural)]
pub enum BusFault {
    /// The controller refused the clock rate or transfer mode of a session.
    ClockConfig,
    /// A transfer on the bus failed.
    Transfer,
    /// The chip-select line could not be driven.
    ChipSelect,
}

/// A failure of one sector operation on the card.
#[derive(Clone, Copy, Debug, PartialEq, Eq, Structural)]
pub enum DeviceFault {
    /// The card did not answer in time.
    Timeout,
    /// Data arrived with a checksum that does not match.
    CrcMismatch,
    /// The card answered, but is in no state to serve the operation.
    NotReady,
    /// The bus below the card failed.
    Bus(BusFault),
}

/// A failure of the card's initialisation handshake, by the stage that failed.
#[derive(Clone, Copy, Debug, PartialEq, Eq, Structural)]
pub enum CardInitError {
    /// No card answered the idle command.
    NoResponse,
    /// Checksum protection could not be switched on, or a checksum was wrong.
    CrcError,
    /// The card rejected the voltage range or the capacity negotiation.
    UnsupportedVoltage,
    /// A later stage of the handshake ran out of time.
    Timeout,
    /// The bus failed during the handshake.
    Bus(BusFault),
}

/// A failure to open a volume.
#[derive(Clone, Copy, Debug, PartialEq, Eq, Structural)]
pub enum VolumeFault {
    /// The partition table has no such partition.
    NoPartition,
    /// The partition table or the filesystem header is not one this stack reads.
    UnsupportedFormat,
    /// The card failed while the headers were read.
    Io(DeviceFault),
}

/// A failure to open or read a file.
#[derive(Clone, Copy, Debug, PartialEq, Eq, Structural)]
pub enum FileFault {
    /// The directory holds no entry of that name.
    NotFound,
    /// The entry of that name is a directory.
    NotAFile,
    /// The card failed while the file was looked up or read.
    Io(DeviceFault),
}

/// A misuse of the handle table or of the bus: a programming error of the
/// caller, reported instead of being carried out.
#[derive(Clone, Copy, Debug, PartialEq, Eq, Structural)]
pub enum UsageFault {
    /// The handle names nothing that is open.
    UnknownHandle,
    /// Something that depends on the handle is still open.
    StillInUse,
    /// The volume or the file is open already.
    AlreadyOpen,
    /// No further handle can be issued.
    TableFull,
    /// A reported byte count exceeds the request or what is left of the file.
    BadLength,
    /// An outcome was reported for a step that was not asked for.
    UnexpectedEvent,
    /// The bus is held by another session.
    Busy,
    /// The operation is outside the read-only scope of this stack.
    Unsupported,
}

/// Any fault of the stack.
#[derive(Clone, Copy, Debug, PartialEq, Eq, Structural)]
pub enum SdError {
    Bus(BusFault),
    Device(DeviceFault),
    CardInit(CardInitError),
    Volume(VolumeFault),
    File(FileFault),
    Usage(UsageFault),
}

/// What the card driver reports when it fails, as plain values.
#[derive(Clone, Copy, Debug, PartialEq, Eq, Structural)]
pub enum CardReport {
    /// The bus peripheral reported an error.
    Transport,
    /// Checksum protection could not be switched on.
    CantEnableCrc,
    /// No data token arrived while reading.
    TimeoutReadBuffer,
    /// The card stayed busy.
    TimeoutWaitNotBusy,
    /// The command with this index was not answered.
    TimeoutCommand(u8),
    /// The application command with this index was not answered.
    TimeoutACommand(u8),
    /// The operating-conditions register could not be read.
    Cmd58Error,
    /// The card-specific-data register could not be read.
    RegisterReadError,
    /// A checksum mismatch: the one received, the one computed.
    CrcError(u16, u16),
    /// The card flagged a read error.
    ReadError,
    /// The card flagged a write error.
    WriteError,
    /// The card is in the wrong state for the operation.
    BadState,
    /// No card was found.
    CardNotFound,
    /// The chip-select pin could not be set.
    GpioError,
}

/// What the filesystem driver reports when it fails, as plain values.
#[derive(Clone, Copy, Debug, PartialEq, Eq, Structural)]
pub enum FsReport {
    /// The card failed underneath the filesystem.
    DeviceError(CardReport),
    /// A header or table on disk is malformed.
    FormatError,
    /// The partition table has no such volume.
    NoSuchVolume,
    /// The name cannot be a short file name.
    FilenameError,
    TooManyOpenVolumes,
    TooManyOpenDirs,
    TooManyOpenFiles,
    BadHandle,
    /// No entry of that name.
    NotFound,
    FileAlreadyOpen,
    DirAlreadyOpen,
    /// The entry is a directory, and a file was asked for.
    OpenedDirAsFile,
    /// The entry is a file, and a directory was asked for.
    OpenedFileAsDir,
    DeleteDirAsFile,
    VolumeStillInUse,
    VolumeAlreadyOpen,
    Unsupported,
    EndOfFile,
    BadCluster,
    ConversionError,
    NotEnoughSpace,
    AllocationError,
    UnterminatedFatChain,
    ReadOnly,
    FileAlreadyExists,
    /// The card's block size, where it is not 512 bytes.
    BadBlockSize(u16),
    InvalidOffset,
    DiskFull,
    DirAlreadyExists,
}

/// The command index of the interface-condition check, which fails on a card
/// that does not accept the supply voltage.
pub const CMD_INTERFACE_CONDITION: u8 = 8;

/// The command index of the idle command, the first of the handshake.
pub const CMD_GO_IDLE: u8 = 0;

impl BusFault {
    /// The text of this fault.
    pub open spec fn text(self) -> Seq<char> {
        match self {
            BusFault::ClockConfig => "clock configuration rejected"@,
            BusFault::Transfer => "transfer failed"@,
            BusFault::ChipSelect => "chip-select line failed"@,
        }
    }

    /// Renders the fault as text.
    pub fn describe(&self) -> (r: String)
        ensures
            r@ == self.text(),
    {
        match self {
            BusFault::ClockConfig => String::from_str("clock configuration rejected"),
            BusFault::Transfer => String::from_str("transfer failed"),
            BusFault::ChipSelect => String::from_str("chip-select line failed"),
        }
    }
}

impl DeviceFault {
    /// The fault that a report of the card driver stands for, when it fails a
    /// sector operation.
    pub open spec fn of_report(report: CardReport) -> DeviceFault {
        match report {
            CardReport::Transport => DeviceFault::Bus(BusFault::Transfer),
            CardReport::GpioError => DeviceFault::Bus(BusFault::ChipSelect),
            CardReport::TimeoutReadBuffer => DeviceFault::Timeout,
            CardReport::TimeoutWaitNotBusy => DeviceFault::Timeout,
            CardReport::TimeoutCommand(_) => DeviceFault::Timeout,
            CardReport::TimeoutACommand(_) => DeviceFault::Timeout,
            CardReport::CantEnableCrc => DeviceFault::CrcMismatch,
            CardReport::CrcError(_, _) => DeviceFault::CrcMismatch,
            CardReport::Cmd58Error => DeviceFault::NotReady,
            CardReport::RegisterReadError => DeviceFault::NotReady,
            CardReport::ReadError => DeviceFault::NotReady,
            CardReport::WriteError => DeviceFault::NotReady,
            CardReport::BadState => DeviceFault::NotReady,
            CardReport::CardNotFound => DeviceFault::NotReady,
        }
    }

    /// Sorts a report of the card driver into the fault of a sector operation.
    pub fn from_report(report: CardReport) -> (r: DeviceFault)
        ensures
            r == DeviceFault::of_report(report),
    {
        match report {
            CardReport::Transport => DeviceFault::Bus(BusFault::Transfer),
            CardReport::GpioError => DeviceFault::Bus(BusFault::ChipSelect),
            CardReport::TimeoutReadBuffer
            | CardReport::TimeoutWaitNotBusy
            | CardReport::TimeoutCommand(_)
            | CardReport::TimeoutACommand(_) => DeviceFault::Timeout,
            CardReport::CantEnableCrc | CardReport::CrcError(_, _) => DeviceFault::CrcMismatch,
            _ => DeviceFault::NotReady,
        }
    }

    /// The bus fault below this one, if the bus caused it.
    pub open spec fn bus_cause(self) -> Option<BusFault> {
        match self {
            DeviceFault::Bus(b) => Some(b),
            _ => None,
        }
    }

    /// The text of this fault.
    pub open spec fn text(self) -> Seq<char> {
        match self {
            DeviceFault::Timeout => "timeout"@,
            DeviceFault::CrcMismatch => "checksum mismatch"@,
            DeviceFault::NotReady => "card not ready"@,
            DeviceFault::Bus(b) => "bus fault: "@ + b.text(),
        }
    }

    /// Renders the fault as text.
    pub fn describe(&self) -> (r: String)
        ensures
            r@ == self.text(),
    {
        match self {
            DeviceFault::Timeout => String::from_str("timeout"),
            DeviceFault::CrcMismatch => String::from_str("checksum mismatch"),
            DeviceFault::NotReady => String::from_str("card not ready"),
            DeviceFault::Bus(b) => {
                let inner = b.describe();
                String::from_str("bus fault: ").concat(inner.as_str())
            },
        }
    }
}

impl CardInitError {
    /// The stage of the handshake that a report of the card driver stands for.
    ///
    /// The idle command opens the handshake, so a card that does not answer it
    /// is no card at all. The interface-condition check, the read of the
    /// operating conditions and the read of the card's own data settle the
    /// voltage range and the capacity.
    pub open spec fn of_report(report: CardReport) -> CardInitError {
        match report {
            CardReport::Transport => CardInitError::Bus(BusFault::Transfer),
            CardReport::GpioError => CardInitError::Bus(BusFault::ChipSelect),
            CardReport::CardNotFound => CardInitError::NoResponse,
            CardReport::TimeoutCommand(c) => if c == CMD_GO_IDLE {
                CardInitError::NoResponse
            } else if c == CMD_INTERFACE_CONDITION {
                CardInitError::UnsupportedVoltage
            } else {
                CardInitError::Timeout
            },
            CardReport::Cmd58Error => CardInitError::UnsupportedVoltage,
            CardReport::RegisterReadError => CardInitError::UnsupportedVoltage,
            CardReport::CantEnableCrc => CardInitError::CrcError,
            CardReport::CrcError(_, _) => CardInitError::CrcError,
            CardReport::TimeoutReadBuffer => CardInitError::Timeout,
            CardReport::TimeoutWaitNotBusy => CardInitError::Timeout,
            CardReport::TimeoutACommand(_) => CardInitError::Timeout,
            CardReport::ReadError => CardInitError::NoResponse,
            CardReport::WriteError => CardInitError::NoResponse,
            CardReport::BadState => CardInitError::NoResponse,
        }
    }

    /// Sorts a report of the card driver into the stage of the handshake that
    /// failed.
    pub fn from_report(report: CardReport) -> (r: CardInitError)
        ensures
            r == CardInitError::of_report(report),
    {
        match report {
            CardReport::Transport => CardInitError::Bus(BusFault::Transfer),
            CardReport::GpioError => CardInitError::Bus(BusFault::ChipSelect),
            CardReport::TimeoutCommand(c) => {
                if c == CMD_GO_IDLE {
                    CardInitError::NoResponse
                } else if c == CMD_INTERFACE_CONDITION {
                    CardInitError::UnsupportedVoltage
                } else {
                    CardInitError::Timeout
                }
            },
            CardReport::Cmd58Error | CardReport::RegisterReadError => {
                CardInitError::UnsupportedVoltage
            },
            CardReport::CantEnableCrc | CardReport::CrcError(_, _) => CardInitError::CrcError,
            CardReport::TimeoutReadBuffer
            | CardReport::TimeoutWaitNotBusy
            | CardReport::TimeoutACommand(_) => CardInitError::Timeout,
            _ => CardInitError::NoResponse,
        }
    }

    /// The text of this fault.
    pub open spec fn text(self) -> Seq<char> {
        match self {
            CardInitError::NoResponse => "no response"@,
            CardInitError::CrcError => "checksum error"@,
            CardInitError::UnsupportedVoltage => "unsupported voltage range"@,
            CardInitError::Timeout => "timeout"@,
            CardInitError::Bus(b) => "bus fault: "@ + b.text(),
        }
    }

    /// Renders the fault as text.
    pub fn describe(&self) -> (r: String)
        ensures
            r@ == self.text(),
    {
        match self {
            CardInitError::NoResponse => String::from_str("no response"),
            CardInitError::CrcError => String::from_str("checksum error"),
            CardInitError::UnsupportedVoltage => String::from_str("unsupported voltage range"),
            CardInitError::Timeout => String::from_str("timeout"),
            CardInitError::Bus(b) => {
                let inner = b.describe();
                String::from_str("bus fault: ").concat(inner.as_str())
            },
        }
    }
}

impl VolumeFault {
    /// The text of this fault.
    pub open spec fn text(self) -> Seq<char> {
        match self {
            VolumeFault::NoPartition => "no such partition"@,
            VolumeFault::UnsupportedFormat => "unsupported format"@,
            VolumeFault::Io(d) => "device fault: "@ + d.text(),
        }
    }

    /// Renders the fault as text.
    pub fn describe(&self) -> (r: String)
        ensures
            r@ == self.text(),
    {
        match self {
            VolumeFault::NoPartition => String::from_str("no such partition"),
            VolumeFault::UnsupportedFormat => String::from_str("unsupported format"),
            VolumeFault::Io(d) => {
                let inner = d.describe();
                String::from_str("device fault: ").concat(inner.as_str())
            },
        }
    }
}

impl FileFault {
    /// The text of this fault.
    pub open spec fn text(self) -> Seq<char> {
        match self {
            FileFault::NotFound => "not found"@,
            FileFault::NotAFile => "not a file"@,
            FileFault::Io(d) => "device fault: "@ + d.text(),
        }
    }

    /// Renders the fault as text.
    pub fn describe(&self) -> (r: String)
        ensures
            r@ == self.text(),
    {
        match self {
            FileFault::NotFound => String::from_str("not found"),
            FileFault::NotAFile => String::from_str("not a file"),
            FileFault::Io(d) => {
                let inner = d.describe();
                String::from_str("device fault: ").concat(inner.as_str())
            },
        }
    }
}

impl UsageFault {
    /// The text of this fault.
    pub open spec fn text(self) -> Seq<char> {
        match self {
            UsageFault::UnknownHandle => "unknown handle"@,
            UsageFault::StillInUse => "still in use"@,
            UsageFault::AlreadyOpen => "already open"@,
            UsageFault::TableFull => "handle table full"@,
            UsageFault::BadLength => "byte count out of range"@,
            UsageFault::UnexpectedEvent => "unexpected event"@,
            UsageFault::Busy => "bus busy"@,
            UsageFault::Unsupported => "unsupported operation"@,
        }
    }

    /// Renders the fault as text.
    pub fn describe(&self) -> (r: String)
        ensures
            r@ == self.text(),
    {
        match self {
            UsageFault::UnknownHandle => String::from_str("unknown handle"),
            UsageFault::StillInUse => String::from_str("still in use"),
            UsageFault::AlreadyOpen => String::from_str("already open"),
            UsageFault::TableFull => String::from_str("handle table full"),
            UsageFault::BadLength => String::from_str("byte count out of range"),
            UsageFault::UnexpectedEvent => String::from_str("unexpected event"),
            UsageFault::Busy => String::from_str("bus busy"),
            UsageFault::Unsupported => String::from_str("unsupported operation"),
        }
    }
}

/// Whether a report of the filesystem driver says that the structures on disk
/// are not what this stack reads.
pub open spec fn is_format_report(report: FsReport) -> bool {
    report == FsReport::FormatError || report == FsReport::Unsupported
        || report == FsReport::BadCluster || report == FsReport::ConversionError
        || report == FsReport::UnterminatedFatChain || report == FsReport::EndOfFile
        || report is BadBlockSize
}

/// Whether a report of the filesystem driver says that the caller's handles or
/// open items are at fault, and which usage fault that is.
pub open spec fn usage_of_report(report: FsReport) -> Option<UsageFault> {
    match report {
        FsReport::BadHandle => Some(UsageFault::UnknownHandle),
        FsReport::TooManyOpenVolumes => Some(UsageFault::TableFull),
        FsReport::TooManyOpenDirs => Some(UsageFault::TableFull),
        FsReport::TooManyOpenFiles => Some(UsageFault::TableFull),
        FsReport::FileAlreadyOpen => Some(UsageFault::AlreadyOpen),
        FsReport::DirAlreadyOpen => Some(UsageFault::AlreadyOpen),
        FsReport::VolumeAlreadyOpen => Some(UsageFault::AlreadyOpen),
        FsReport::VolumeStillInUse => Some(UsageFault::StillInUse),
        FsReport::DeleteDirAsFile => Some(UsageFault::Unsupported),
        FsReport::NotEnoughSpace => Some(UsageFault::Unsupported),
        FsReport::AllocationError => Some(UsageFault::Unsupported),
        FsReport::ReadOnly => Some(UsageFault::Unsupported),
        FsReport::FileAlreadyExists => Some(UsageFault::Unsupported),
        FsReport::InvalidOffset => Some(UsageFault::Unsupported),
        FsReport::DiskFull => Some(UsageFault::Unsupported),
        FsReport::DirAlreadyExists => Some(UsageFault::Unsupported),
        _ => None,
    }
}

impl SdError {
    /// The fault that a report of the filesystem driver stands for, when it
    /// fails the opening of a volume.
    pub open spec fn of_volume_report(report: FsReport) -> SdError {
        match report {
            FsReport::DeviceError(c) => SdError::Volume(VolumeFault::Io(DeviceFault::of_report(c))),
            FsReport::NoSuchVolume => SdError::Volume(VolumeFault::NoPartition),
            FsReport::NotFound => SdError::Volume(VolumeFault::NoPartition),
            FsReport::FilenameError => SdError::Usage(UsageFault::Unsupported),
            FsReport::OpenedDirAsFile => SdError::Usage(UsageFault::Unsupported),
            FsReport::OpenedFileAsDir => SdError::Usage(UsageFault::Unsupported),
            _ => if is_format_report(report) {
                SdError::Volume(VolumeFault::UnsupportedFormat)
            } else {
                SdError::Usage(usage_of_report(report).unwrap())
            },
        }
    }

    /// The fault that a report of the filesystem driver stands for, when it
    /// fails the opening or the reading of a file.
    pub open spec fn of_file_report(report: FsReport) -> SdError {
        match report {
            FsReport::DeviceError(c) => SdError::File(FileFault::Io(DeviceFault::of_report(c))),
            FsReport::NotFound => SdError::File(FileFault::NotFound),
            FsReport::FilenameError => SdError::File(FileFault::NotFound),
            FsReport::OpenedDirAsFile => SdError::File(FileFault::NotAFile),
            FsReport::OpenedFileAsDir => SdError::File(FileFault::NotAFile),
            FsReport::NoSuchVolume => SdError::Volume(VolumeFault::NoPartition),
            _ => if is_format_report(report) {
                SdError::Volume(VolumeFault::UnsupportedFormat)
            } else {
                SdError::Usage(usage_of_report(report).unwrap())
            },
        }
    }

    /// Sorts a failed volume opening into the taxonomy.
    pub fn from_volume_report(report: FsReport) -> (r: SdError)
        ensures
            r == SdError::of_volume_report(report),
    {
        match report {
            FsReport::DeviceError(c) => SdError::Volume(VolumeFault::Io(DeviceFault::from_report(c))),
            FsReport::NoSuchVolume | FsReport::NotFound => SdError::Volume(VolumeFault::NoPartition),
            FsReport::FilenameError | FsReport::OpenedDirAsFile | FsReport::OpenedFileAsDir => {
                SdError::Usage(UsageFault::Unsupported)
            },
            _ => shared_report(report),
        }
    }

    /// Sorts a failed file opening or read into the taxonomy.
    pub fn from_file_report(report: FsReport) -> (r: SdError)
        ensures
            r == SdError::of_file_report(report),
    {
        match report {
            FsReport::DeviceError(c) => SdError::File(FileFault::Io(DeviceFault::from_report(c))),
            FsReport::NotFound | FsReport::FilenameError => SdError::File(FileFault::NotFound),
            FsReport::OpenedDirAsFile | FsReport::OpenedFileAsDir => {
                SdError::File(FileFault::NotAFile)
            },
            FsReport::NoSuchVolume => SdError::Volume(VolumeFault::NoPartition),
            _ => shared_report(report),
        }
    }

    /// The fault of the layer below that this fault wraps, if it wraps one.
    pub open spec fn spec_source(self) -> Option<SdError> {
        match self {
            SdError::Volume(VolumeFault::Io(d)) => Some(SdError::Device(d)),
            SdError::File(FileFault::Io(d)) => Some(SdError::Device(d)),
            SdError::Device(DeviceFault::Bus(b)) => Some(SdError::Bus(b)),
            SdError::CardInit(CardInitError::Bus(b)) => Some(SdError::Bus(b)),
            _ => None,
        }
    }

    /// How many faults lie below this one.
    pub open spec fn depth(self) -> nat {
        match self {
            SdError::Volume(VolumeFault::Io(DeviceFault::Bus(_))) => 2,
            SdError::File(FileFault::Io(DeviceFault::Bus(_))) => 2,
            SdError::Volume(VolumeFault::Io(_)) => 1,
            SdError::File(FileFault::Io(_)) => 1,
            SdError::Device(DeviceFault::Bus(_)) => 1,
            SdError::CardInit(CardInitError::Bus(_)) => 1,
            _ => 0,
        }
    }

    /// The fault at the bottom of the chain: the one that wraps no other.
    pub open spec fn spec_root_cause(self) -> SdError
        decreases self.depth(),
    {
        match self.spec_source() {
            Some(below) => below.spec_root_cause(),
            None => self,
        }
    }

    /// The fault of the layer below that this fault wraps.
    pub fn source(&self) -> (r: Option<SdError>)
        ensures
            r == self.spec_source(),
    {
        match self {
            SdError::Volume(VolumeFault::Io(d)) => Some(SdError::Device(*d)),
            SdError::File(FileFault::Io(d)) => Some(SdError::Device(*d)),
            SdError::Device(DeviceFault::Bus(b)) => Some(SdError::Bus(*b)),
            SdError::CardInit(CardInitError::Bus(b)) => Some(SdError::Bus(*b)),
            _ => None,
        }
    }

    /// The same as [`SdError::source`].
    pub fn cause(&self) -> (r: Option<SdError>)
        ensures
            r == self.spec_source(),
    {
        self.source()
    }

    /// Follows the chain of sources down to the fault that started it.
    pub fn root_cause(&self) -> (r: SdError)
        ensures
            r == self.spec_root_cause(),
            r.spec_source() is None,
    {
        proof {
            lemma_root_cause_is_bottom(*self);
        }
        let mut at: SdError = *self;
        let mut below: Option<SdError> = at.source();
        while below.is_some()
            invariant
                below == at.spec_source(),
                at.spec_root_cause() == self.spec_root_cause(),
            decreases at.depth(),
        {
            proof {
                lemma_root_cause_is_bottom(at);
            }
            at = below.unwrap();
            below = at.source();
        }
        at
    }

    /// The text of this fault: the layer, and what went wrong in it.
    pub open spec fn text(self) -> Seq<char> {
        match self {
            SdError::Bus(b) => "bus fault: "@ + b.text(),
            SdError::Device(d) => "device fault: "@ + d.text(),
            SdError::CardInit(c) => "card initialisation failed: "@ + c.text(),
            SdError::Volume(v) => "volume fault: "@ + v.text(),
            SdError::File(f) => "file fault: "@ + f.text(),
            SdError::Usage(u) => "usage fault: "@ + u.text(),
        }
    }

    /// Renders the fault as one line of text that names every layer of the
    /// chain, outermost first.
    pub fn describe(&self) -> (r: String)
        ensures
            r@ == self.text(),
    {
        match self {
            SdError::Bus(b) => {
                let inner = b.describe();
                String::from_str("bus fault: ").concat(inner.as_str())
            },
            SdError::Device(d) => {
                let inner = d.describe();
                String::from_str("device fault: ").concat(inner.as_str())
            },
            SdError::CardInit(c) => {
                let inner = c.describe();
                String::from_str("card initialisation failed: ").concat(inner.as_str())
            },
            SdError::Volume(v) => {
                let inner = v.describe();
                String::from_str("volume fault: ").concat(inner.as_str())
            },
            SdError::File(f) => {
                let inner = f.describe();
                String::from_str("file fault: ").concat(inner.as_str())
            },
            SdError::Usage(u) => {
                let inner = u.describe();
                String::from_str("usage fault: ").concat(inner.as_str())
            },
        }
    }
}

/// What the report on an exchange with the card says of the chip-select
/// line: the card driver drives the line itself, around the exchange, and
/// reports a line that it could not drive as `GpioError`. Every other report
/// leaves the line in order.
pub fn line_report(exchange: Result<u64, CardReport>) -> (r: Result<(), BusFault>)
    ensures
        r == (if exchange == Err::<u64, CardReport>(CardReport::GpioError) {
            Err::<(), BusFault>(BusFault::ChipSelect)
        } else {
            Ok(())
        }),
{
    match exchange {
        Err(CardReport::GpioError) => Err(BusFault::ChipSelect),
        _ => Ok(()),
    }
}

/// The part of the sorting that does not depend on the operation that failed.
fn shared_report(report: FsReport) -> (r: SdError)
    requires
        is_format_report(report) || usage_of_report(report) is Some,
    ensures
        is_format_report(report) ==> r == SdError::Volume(VolumeFault::UnsupportedFormat),
        !is_format_report(report) ==> r == SdError::Usage(usage_of_report(report).unwrap()),
{
    match report {
        FsReport::BadHandle => SdError::Usage(UsageFault::UnknownHandle),
        FsReport::TooManyOpenVolumes | FsReport::TooManyOpenDirs | FsReport::TooManyOpenFiles => {
            SdError::Usage(UsageFault::TableFull)
        },
        FsReport::FileAlreadyOpen | FsReport::DirAlreadyOpen | FsReport::VolumeAlreadyOpen => {
            SdError::Usage(UsageFault::AlreadyOpen)
        },
        FsReport::VolumeStillInUse => SdError::Usage(UsageFault::StillInUse),
        FsReport::FormatError
        | FsReport::Unsupported
        | FsReport::BadCluster
        | FsReport::ConversionError
        | FsReport::UnterminatedFatChain
        | FsReport::EndOfFile
        | FsReport::BadBlockSize(_) => SdError::Volume(VolumeFault::UnsupportedFormat),
        _ => SdError::Usage(UsageFault::Unsupported),
    }
}

/// Every chain of sources ends, after at most two steps, in a fault that wraps
/// no other; each step goes one layer down; and a chain of two steps ends in a
/// bus fault.
pub proof fn lemma_root_cause_is_bottom(e: SdError)
    ensures
        e.spec_root_cause().spec_source() is None,
        e.depth() <= 2,
        e.spec_source() is Some ==> e.spec_source().unwrap().depth() < e.depth(),
        e.depth() == 0 <==> e.spec_source() is None,
        e.depth() == 2 ==> e.spec_root_cause() is Bus,
    decreases e.depth(),
{
    reveal_with_fuel(SdError::spec_root_cause, 3);
    match e.spec_source() {
        Some(below) => {
            lemma_root_cause_is_bottom(below);
        },
        None => {},
    }
}

/// Every report is sorted. Whatever the filesystem driver reports, the two
/// sortings give it a place: a report that neither names the card, a missing
/// entry or a wrong kind of entry is either a complaint about the structures
/// on disk or one about the caller's handles.
pub proof fn lemma_every_report_is_sorted(report: FsReport)
    ensures
        report is DeviceError || report == FsReport::NoSuchVolume || report == FsReport::NotFound
            || report == FsReport::FilenameError || report == FsReport::OpenedDirAsFile || report
            == FsReport::OpenedFileAsDir || is_format_report(report) || usage_of_report(report)
            is Some,
        !(is_format_report(report) && usage_of_report(report) is Some),
{
}

/// A card failure underneath the filesystem is never lost: whichever
/// operation it fails, the fault that comes out carries the device fault that
/// the card's report stands for as its source.
pub proof fn lemma_device_report_is_wrapped(c: CardReport)
    ensures
        SdError::of_volume_report(FsReport::DeviceError(c)).spec_source() == Some(
            SdError::Device(DeviceFault::of_report(c)),
        ),
        SdError::of_file_report(FsReport::DeviceError(c)).spec_source() == Some(
            SdError::Device(DeviceFault::of_report(c)),
        ),
{
}

impl From<BusFault> for SdError {
    fn from(fault: BusFault) -> (r: SdError) {
        SdError::Bus(fault)
    }
}

impl vstd::std_specs::convert::FromSpecImpl<BusFault> for SdError {
    open spec fn obeys_from_spec() -> bool {
        true
    }

    open spec fn from_spec(fault: BusFault) -> SdError {
        SdError::Bus(fault)
    }
}

impl From<DeviceFault> for SdError {
    fn from(fault: DeviceFault) -> (r: SdError) {
        SdError::Device(fault)
    }
}

impl vstd::std_specs::convert::FromSpecImpl<DeviceFault> for SdError {
    open spec fn obeys_from_spec() -> bool {
        true
    }

    open spec fn from_spec(fault: DeviceFault) -> SdError {
        SdError::Device(fault)
    }
}

impl From<CardInitError> for SdError {
    fn from(fault: CardInitError) -> (r: SdError) {
        SdError::CardInit(fault)
    }
}

impl vstd::std_specs::convert::FromSpecImpl<CardInitError> for SdError {
    open spec fn obeys_from_spec() -> bool {
        true
    }

    open spec fn from_spec(fault: CardInitError) -> SdError {
        SdError::CardInit(fault)
    }
}

impl From<VolumeFault> for SdError {
    fn from(fault: VolumeFault) -> (r: SdError) {
        SdError::Volume(fault)
    }
}

impl vstd::std_specs::convert::FromSpecImpl<VolumeFault> for SdError {
    open spec fn obeys_from_spec() -> bool {
        true
    }

    open spec fn from_spec(fault: VolumeFault) -> SdError {
        SdError::Volume(fault)
    }
}

impl From<FileFault> for SdError {
    fn from(fault: FileFault) -> (r: SdError) {
        SdError::File(fault)
    }
}

impl vstd::std_specs::convert::FromSpecImpl<FileFault> for SdError {
    open spec fn obeys_from_spec() -> bool {
        true
    }

    open spec fn from_spec(fault: FileFault) -> SdError {
        SdError::File(fault)
    }
}

impl From<UsageFault> for SdError {
    fn from(fault: UsageFault) -> (r: SdError) {
        SdError::Usage(fault)
    }
}

impl vstd::std_specs::convert::FromSpecImpl<UsageFault> for SdError {
    open spec fn obeys_from_spec() -> bool {
        true
    }

    open spec fn from_spec(fault: UsageFault) -> SdError {
        SdError::Usage(fault)
    }
}

} // verus!
