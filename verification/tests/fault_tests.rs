use sd_reader::fault::{
    line_report, BusFault, CardInitError, CardReport, DeviceFault, FileFault, FsReport, SdError,
    UsageFault, VolumeFault, CMD_GO_IDLE, CMD_INTERFACE_CONDITION,
};

#[test]
fn device_fault_sorts_every_card_report() {
    assert_eq!(DeviceFault::from_report(CardReport::Transport), DeviceFault::Bus(BusFault::Transfer));
    assert_eq!(DeviceFault::from_report(CardReport::GpioError), DeviceFault::Bus(BusFault::ChipSelect));
    assert_eq!(DeviceFault::from_report(CardReport::TimeoutReadBuffer), DeviceFault::Timeout);
    assert_eq!(DeviceFault::from_report(CardReport::TimeoutWaitNotBusy), DeviceFault::Timeout);
    assert_eq!(DeviceFault::from_report(CardReport::TimeoutCommand(17)), DeviceFault::Timeout);
    assert_eq!(DeviceFault::from_report(CardReport::TimeoutACommand(41)), DeviceFault::Timeout);
    assert_eq!(DeviceFault::from_report(CardReport::CantEnableCrc), DeviceFault::CrcMismatch);
    assert_eq!(
        DeviceFault::from_report(CardReport::CrcError(0x1234, 0x4321)),
        DeviceFault::CrcMismatch
    );
    assert_eq!(DeviceFault::from_report(CardReport::Cmd58Error), DeviceFault::NotReady);
    assert_eq!(DeviceFault::from_report(CardReport::RegisterReadError), DeviceFault::NotReady);
    assert_eq!(DeviceFault::from_report(CardReport::ReadError), DeviceFault::NotReady);
    assert_eq!(DeviceFault::from_report(CardReport::WriteError), DeviceFault::NotReady);
    assert_eq!(DeviceFault::from_report(CardReport::BadState), DeviceFault::NotReady);
    assert_eq!(DeviceFault::from_report(CardReport::CardNotFound), DeviceFault::NotReady);
}

#[test]
fn card_init_error_names_the_stage() {
    assert_eq!(CardInitError::from_report(CardReport::CardNotFound), CardInitError::NoResponse);
    assert_eq!(
        CardInitError::from_report(CardReport::TimeoutCommand(CMD_GO_IDLE)),
        CardInitError::NoResponse
    );
    assert_eq!(
        CardInitError::from_report(CardReport::TimeoutCommand(CMD_INTERFACE_CONDITION)),
        CardInitError::UnsupportedVoltage
    );
    assert_eq!(CardInitError::from_report(CardReport::TimeoutCommand(55)), CardInitError::Timeout);
    assert_eq!(CardInitError::from_report(CardReport::Cmd58Error), CardInitError::UnsupportedVoltage);
    assert_eq!(
        CardInitError::from_report(CardReport::RegisterReadError),
        CardInitError::UnsupportedVoltage
    );
    assert_eq!(CardInitError::from_report(CardReport::CantEnableCrc), CardInitError::CrcError);
    assert_eq!(CardInitError::from_report(CardReport::CrcError(1, 2)), CardInitError::CrcError);
    assert_eq!(CardInitError::from_report(CardReport::TimeoutACommand(41)), CardInitError::Timeout);
    assert_eq!(CardInitError::from_report(CardReport::TimeoutReadBuffer), CardInitError::Timeout);
    assert_eq!(CardInitError::from_report(CardReport::TimeoutWaitNotBusy), CardInitError::Timeout);
    assert_eq!(
        CardInitError::from_report(CardReport::Transport),
        CardInitError::Bus(BusFault::Transfer)
    );
    assert_eq!(
        CardInitError::from_report(CardReport::GpioError),
        CardInitError::Bus(BusFault::ChipSelect)
    );
    assert_eq!(CardInitError::from_report(CardReport::BadState), CardInitError::NoResponse);
    assert_eq!(CardInitError::from_report(CardReport::ReadError), CardInitError::NoResponse);
    assert_eq!(CardInitError::from_report(CardReport::WriteError), CardInitError::NoResponse);
}

#[test]
fn volume_reports_sort_into_the_taxonomy() {
    assert_eq!(
        SdError::from_volume_report(FsReport::FormatError),
        SdError::Volume(VolumeFault::UnsupportedFormat)
    );
    assert_eq!(
        SdError::from_volume_report(FsReport::BadBlockSize(1024)),
        SdError::Volume(VolumeFault::UnsupportedFormat)
    );
    assert_eq!(
        SdError::from_volume_report(FsReport::Unsupported),
        SdError::Volume(VolumeFault::UnsupportedFormat)
    );
    assert_eq!(
        SdError::from_volume_report(FsReport::NoSuchVolume),
        SdError::Volume(VolumeFault::NoPartition)
    );
    assert_eq!(
        SdError::from_volume_report(FsReport::DeviceError(CardReport::TimeoutReadBuffer)),
        SdError::Volume(VolumeFault::Io(DeviceFault::Timeout))
    );
    assert_eq!(
        SdError::from_volume_report(FsReport::TooManyOpenVolumes),
        SdError::Usage(UsageFault::TableFull)
    );
    assert_eq!(
        SdError::from_volume_report(FsReport::VolumeAlreadyOpen),
        SdError::Usage(UsageFault::AlreadyOpen)
    );
    assert_eq!(
        SdError::from_volume_report(FsReport::BadHandle),
        SdError::Usage(UsageFault::UnknownHandle)
    );
    assert_eq!(
        SdError::from_volume_report(FsReport::VolumeStillInUse),
        SdError::Usage(UsageFault::StillInUse)
    );
    assert_eq!(
        SdError::from_volume_report(FsReport::FilenameError),
        SdError::Usage(UsageFault::Unsupported)
    );
}

#[test]
fn file_reports_sort_into_the_taxonomy() {
    assert_eq!(SdError::from_file_report(FsReport::NotFound), SdError::File(FileFault::NotFound));
    assert_eq!(
        SdError::from_file_report(FsReport::FilenameError),
        SdError::File(FileFault::NotFound)
    );
    assert_eq!(
        SdError::from_file_report(FsReport::OpenedDirAsFile),
        SdError::File(FileFault::NotAFile)
    );
    assert_eq!(
        SdError::from_file_report(FsReport::DeviceError(CardReport::CrcError(7, 9))),
        SdError::File(FileFault::Io(DeviceFault::CrcMismatch))
    );
    assert_eq!(
        SdError::from_file_report(FsReport::DeviceError(CardReport::Transport)),
        SdError::File(FileFault::Io(DeviceFault::Bus(BusFault::Transfer)))
    );
    assert_eq!(
        SdError::from_file_report(FsReport::UnterminatedFatChain),
        SdError::Volume(VolumeFault::UnsupportedFormat)
    );
    assert_eq!(
        SdError::from_file_report(FsReport::BadCluster),
        SdError::Volume(VolumeFault::UnsupportedFormat)
    );
    assert_eq!(
        SdError::from_file_report(FsReport::TooManyOpenFiles),
        SdError::Usage(UsageFault::TableFull)
    );
    assert_eq!(
        SdError::from_file_report(FsReport::FileAlreadyOpen),
        SdError::Usage(UsageFault::AlreadyOpen)
    );
    assert_eq!(
        SdError::from_file_report(FsReport::ReadOnly),
        SdError::Usage(UsageFault::Unsupported)
    );
    assert_eq!(
        SdError::from_file_report(FsReport::DiskFull),
        SdError::Usage(UsageFault::Unsupported)
    );
}

#[test]
fn source_goes_one_layer_down() {
    let top = SdError::File(FileFault::Io(DeviceFault::Bus(BusFault::Transfer)));
    assert_eq!(top.source(), Some(SdError::Device(DeviceFault::Bus(BusFault::Transfer))));
    assert_eq!(top.cause(), top.source());
    assert_eq!(
        SdError::Device(DeviceFault::Bus(BusFault::Transfer)).source(),
        Some(SdError::Bus(BusFault::Transfer))
    );
    assert_eq!(SdError::Bus(BusFault::Transfer).source(), None);
    assert_eq!(SdError::File(FileFault::NotFound).source(), None);
    assert_eq!(SdError::Usage(UsageFault::Busy).source(), None);
    assert_eq!(
        SdError::Volume(VolumeFault::Io(DeviceFault::Timeout)).source(),
        Some(SdError::Device(DeviceFault::Timeout))
    );
    assert_eq!(
        SdError::CardInit(CardInitError::Bus(BusFault::ClockConfig)).source(),
        Some(SdError::Bus(BusFault::ClockConfig))
    );
    assert_eq!(SdError::CardInit(CardInitError::Timeout).source(), None);
}

#[test]
fn root_cause_is_the_fault_that_started_the_chain() {
    let top = SdError::Volume(VolumeFault::Io(DeviceFault::Bus(BusFault::ChipSelect)));
    assert_eq!(top.root_cause(), SdError::Bus(BusFault::ChipSelect));
    assert_eq!(
        SdError::File(FileFault::Io(DeviceFault::CrcMismatch)).root_cause(),
        SdError::Device(DeviceFault::CrcMismatch)
    );
    assert_eq!(
        SdError::File(FileFault::NotFound).root_cause(),
        SdError::File(FileFault::NotFound)
    );
    assert_eq!(top.root_cause().source(), None);
}

#[test]
fn describe_names_every_layer() {
    assert_eq!(SdError::File(FileFault::NotFound).describe(), "file fault: not found");
    assert_eq!(SdError::File(FileFault::NotAFile).describe(), "file fault: not a file");
    assert_eq!(
        SdError::Volume(VolumeFault::UnsupportedFormat).describe(),
        "volume fault: unsupported format"
    );
    assert_eq!(
        SdError::Volume(VolumeFault::NoPartition).describe(),
        "volume fault: no such partition"
    );
    assert_eq!(
        SdError::Volume(VolumeFault::Io(DeviceFault::Bus(BusFault::Transfer))).describe(),
        "volume fault: device fault: bus fault: transfer failed"
    );
    assert_eq!(
        SdError::CardInit(CardInitError::Bus(BusFault::ClockConfig)).describe(),
        "card initialisation failed: bus fault: clock configuration rejected"
    );
    assert_eq!(
        SdError::CardInit(CardInitError::UnsupportedVoltage).describe(),
        "card initialisation failed: unsupported voltage range"
    );
    assert_eq!(SdError::Device(DeviceFault::Timeout).describe(), "device fault: timeout");
    assert_eq!(
        SdError::Device(DeviceFault::CrcMismatch).describe(),
        "device fault: checksum mismatch"
    );
    assert_eq!(SdError::Device(DeviceFault::NotReady).describe(), "device fault: card not ready");
    assert_eq!(
        SdError::Bus(BusFault::ChipSelect).describe(),
        "bus fault: chip-select line failed"
    );
    assert_eq!(SdError::Usage(UsageFault::StillInUse).describe(), "usage fault: still in use");
    assert_eq!(SdError::Usage(UsageFault::Busy).describe(), "usage fault: bus busy");
    assert_eq!(FileFault::Io(DeviceFault::Timeout).describe(), "device fault: timeout");
    assert_eq!(BusFault::Transfer.describe(), "transfer failed");
}

#[test]
fn every_layer_converts_into_the_one_error() {
    assert_eq!(SdError::from(BusFault::Transfer), SdError::Bus(BusFault::Transfer));
    assert_eq!(SdError::from(DeviceFault::Timeout), SdError::Device(DeviceFault::Timeout));
    assert_eq!(
        SdError::from(CardInitError::NoResponse),
        SdError::CardInit(CardInitError::NoResponse)
    );
    assert_eq!(SdError::from(VolumeFault::NoPartition), SdError::Volume(VolumeFault::NoPartition));
    assert_eq!(SdError::from(FileFault::NotAFile), SdError::File(FileFault::NotAFile));
    assert_eq!(SdError::from(UsageFault::Busy), SdError::Usage(UsageFault::Busy));
    let through: SdError = FileFault::NotFound.into();
    assert_eq!(through, SdError::File(FileFault::NotFound));
}

#[test]
fn only_a_pin_error_is_a_fault_of_the_line() {
    assert_eq!(line_report(Err(CardReport::GpioError)), Err(BusFault::ChipSelect));
    assert_eq!(line_report(Ok(0)), Ok(()));
    assert_eq!(line_report(Ok(2_000_000_000)), Ok(()));
    assert_eq!(line_report(Err(CardReport::Transport)), Ok(()));
    assert_eq!(line_report(Err(CardReport::TimeoutCommand(8))), Ok(()));
    assert_eq!(line_report(Err(CardReport::CrcError(1, 2))), Ok(()));
    assert_eq!(line_report(Err(CardReport::CardNotFound)), Ok(()));
}
