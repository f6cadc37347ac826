//! The numeric codes of the Arcam protocol: zones, commands, answer codes and the values that
//! the amplifier reports for its display, sources, power and mute state.
//!
//! Each of these enums has a byte that stands for each of its values in a packet. `code` states
//! that byte, `from_code` the inverse partial map; `to_u8` and `from_u8` compute them.

use vstd::prelude::*;

verus! {

/// Zone numbers 1 and 2 for AVR850 but 1, 2, and 3 for AVR600.
#[derive(Clone, Copy, Debug, PartialEq, Eq, Hash, Structural)]
pub enum ZoneNumber {
    One,
    Two,
}

impl ZoneNumber {
    /// The byte that stands for this value in a packet.
    pub open spec fn code(self) -> u8 {
        match self {
            ZoneNumber::One => 1,
            ZoneNumber::Two => 2,
        }
    }

    /// The value that a byte of a packet stands for, if it stands for one.
    pub open spec fn from_code(value: u8) -> Option<ZoneNumber> {
        match value {
            1 => Some(ZoneNumber::One),
            2 => Some(ZoneNumber::Two),
            _ => None,
        }
    }

    /// The byte that stands for this value in a packet.
    pub fn to_u8(self) -> (r: u8)
        ensures
            r == self.code(),
    {
        match self {
            ZoneNumber::One => 1,
            ZoneNumber::Two => 2,
        }
    }

    /// The value that a byte of a packet stands for; `None` where it stands for none.
    pub fn from_u8(value: u8) -> (r: Option<ZoneNumber>)
        ensures
            r == ZoneNumber::from_code(value),
    {
        match value {
            1 => Some(ZoneNumber::One),
            2 => Some(ZoneNumber::Two),
            _ => None,
        }
    }

    /// Decoding the byte of a value gives that value back.
    pub proof fn lemma_code_decodes(x: ZoneNumber)
        ensures
            ZoneNumber::from_code(x.code()) == Some(x),
    {
        match x {
            ZoneNumber::One => {},
            ZoneNumber::Two => {},
        }
    }

    /// A byte that decodes to a value is the byte of that value.
    pub proof fn lemma_decoded_code(value: u8)
        ensures
            ZoneNumber::from_code(value) matches Some(x) ==> x.code() == value,
    {
    }
}

/// The commands (Cc entries) that can be sent to the amplifier using the message protocol.
#[derive(Clone, Copy, Debug, PartialEq, Eq, Hash, Structural)]
pub enum Command {
    Power,
    DisplayBrightness,
    Headphones,
    FMGenre,
    SoftwareVersion,
    RestoreFactoryDefaultSettings,
    SaveRestoreSecureCopyOfSettings,
    SimulateRC5IRCommand,
    DisplayInformationType,
    RequestCurrentSource,
    HeadphoneOverride,
    VideoSelection,
    SelectAnalogueDigital,
    SetRequestVolume,
    RequestMuteStatus,
    RequestDirectModeStatus,
    RequestDecodeModeStatus2ch,
    RequestDecodeModeStatusMCH,
    RequestRDSInformation,
    SetRequestVideoOutputResolution,
    RequestMenuStatus,
    RequestTunerPreset,
    Tune,
    RequestDABStation,  // Was called RequestDABSiriusStation for AVR600
    ProgrammeTypeCategory,  // Was called RadioProgrammeTypeCategory for AVR600
    DLSPDTInformation,  // Was called RequestRDSDLSInformation dor AVR600
    RequestPresetDetails,
    NetworkPlaybackStatus,
    IMAXEnhanced,  // In AVR850, not in AVR600
    TrebleEqualisation,
    BassEqualisation,
    RoomEqualisation,
    DolbyVolume,
    DolbyLeveller,
    DolbyVolumeCalibrationOffset,
    Balance,
    DolbyProLogicIIDimension,
    DolbyProLogicIICentreWidth,
    DolbyProLogicIIPanorama,
    SubwooferTrim,
    LipsyncDelay,
    Compression,
    RequestIncomingVideoParameters,
    RequestIncomingAudioFormat,
    RequestIncomingAudioSampleRate,
    SetRequestSubStereoTrim,
    SetRequestZone1OSDOnOff,
    SetRequestVideoOutputSwitching,
    SetRequestInputName,  // In AVR850, not in AVR600
    FMScanUpDown,  // In AVR850, not in AVR600
    DABScan,  // In AVR850, not in AVR600
    Heartbeat,  // In AVR850, not in AVR600
    Reboot,  // In AVR850, not in AVR600
}

impl Command {
    /// The byte that stands for this value in a packet.
    pub open spec fn code(self) -> u8 {
        match self {
            Command::Power => 0,
            Command::DisplayBrightness => 1,
            Command::Headphones => 2,
            Command::FMGenre => 3,
            Command::SoftwareVersion => 4,
            Command::RestoreFactoryDefaultSettings => 5,
            Command::SaveRestoreSecureCopyOfSettings => 6,
            Command::SimulateRC5IRCommand => 8,
            Command::DisplayInformationType => 9,
            Command::RequestCurrentSource => 0x1D,
            Command::HeadphoneOverride => 0x1F,
            Command::VideoSelection => 0x0A,
            Command::SelectAnalogueDigital => 0x0B,
            Command::SetRequestVolume => 0x0D,
            Command::RequestMuteStatus => 0x0E,
            Command::RequestDirectModeStatus => 0x0F,
            Command::RequestDecodeModeStatus2ch => 0x10,
            Command::RequestDecodeModeStatusMCH => 0x11,
            Command::RequestRDSInformation => 0x12,
            Command::SetRequestVideoOutputResolution => 0x13,
            Command::RequestMenuStatus => 0x14,
            Command::RequestTunerPreset => 0x15,
            Command::Tune => 0x16,
            Command::RequestDABStation => 0x18,
            Command::ProgrammeTypeCategory => 0x19,
            Command::DLSPDTInformation => 0x1A,
            Command::RequestPresetDetails => 0x1B,
            Command::NetworkPlaybackStatus => 0x1C,
            Command::IMAXEnhanced => 0x0C,
            Command::TrebleEqualisation => 0x35,
            Command::BassEqualisation => 0x36,
            Command::RoomEqualisation => 0x37,
            Command::DolbyVolume => 0x38,
            Command::DolbyLeveller => 0x39,
            Command::DolbyVolumeCalibrationOffset => 0x3A,
            Command::Balance => 0x3B,
            Command::DolbyProLogicIIDimension => 0x3C,
            Command::DolbyProLogicIICentreWidth => 0x3D,
            Command::DolbyProLogicIIPanorama => 0x3E,
            Command::SubwooferTrim => 0x3F,
            Command::LipsyncDelay => 0x40,
            Command::Compression => 0x41,
            Command::RequestIncomingVideoParameters => 0x42,
            Command::RequestIncomingAudioFormat => 0x43,
            Command::RequestIncomingAudioSampleRate => 0x44,
            Command::SetRequestSubStereoTrim => 0x45,
            Command::SetRequestZone1OSDOnOff => 0x4E,
            Command::SetRequestVideoOutputSwitching => 0x4F,
            Command::SetRequestInputName => 0x20,
            Command::FMScanUpDown => 0x23,
            Command::DABScan => 0x24,
            Command::Heartbeat => 0x25,
            Command::Reboot => 0x26,
        }
    }

    /// The value that a byte of a packet stands for, if it stands for one.
    pub open spec fn from_code(value: u8) -> Option<Command> {
        match value {
            0 => Some(Command::Power),
            1 => Some(Command::DisplayBrightness),
            2 => Some(Command::Headphones),
            3 => Some(Command::FMGenre),
            4 => Some(Command::SoftwareVersion),
            5 => Some(Command::RestoreFactoryDefaultSettings),
            6 => Some(Command::SaveRestoreSecureCopyOfSettings),
            8 => Some(Command::SimulateRC5IRCommand),
            9 => Some(Command::DisplayInformationType),
            0x1D => Some(Command::RequestCurrentSource),
            0x1F => Some(Command::HeadphoneOverride),
            0x0A => Some(Command::VideoSelection),
            0x0B => Some(Command::SelectAnalogueDigital),
            0x0D => Some(Command::SetRequestVolume),
            0x0E => Some(Command::RequestMuteStatus),
            0x0F => Some(Command::RequestDirectModeStatus),
            0x10 => Some(Command::RequestDecodeModeStatus2ch),
            0x11 => Some(Command::RequestDecodeModeStatusMCH),
            0x12 => Some(Command::RequestRDSInformation),
            0x13 => Some(Command::SetRequestVideoOutputResolution),
            0x14 => Some(Command::RequestMenuStatus),
            0x15 => Some(Command::RequestTunerPreset),
            0x16 => Some(Command::Tune),
            0x18 => Some(Command::RequestDABStation),
            0x19 => Some(Command::ProgrammeTypeCategory),
            0x1A => Some(Command::DLSPDTInformation),
            0x1B => Some(Command::RequestPresetDetails),
            0x1C => Some(Command::NetworkPlaybackStatus),
            0x0C => Some(Command::IMAXEnhanced),
            0x35 => Some(Command::TrebleEqualisation),
            0x36 => Some(Command::BassEqualisation),
            0x37 => Some(Command::RoomEqualisation),
            0x38 => Some(Command::DolbyVolume),
            0x39 => Some(Command::DolbyLeveller),
            0x3A => Some(Command::DolbyVolumeCalibrationOffset),
            0x3B => Some(Command::Balance),
            0x3C => Some(Command::DolbyProLogicIIDimension),
            0x3D => Some(Command::DolbyProLogicIICentreWidth),
            0x3E => Some(Command::DolbyProLogicIIPanorama),
            0x3F => Some(Command::SubwooferTrim),
            0x40 => Some(Command::LipsyncDelay),
            0x41 => Some(Command::Compression),
            0x42 => Some(Command::RequestIncomingVideoParameters),
            0x43 => Some(Command::RequestIncomingAudioFormat),
            0x44 => Some(Command::RequestIncomingAudioSampleRate),
            0x45 => Some(Command::SetRequestSubStereoTrim),
            0x4E => Some(Command::SetRequestZone1OSDOnOff),
            0x4F => Some(Command::SetRequestVideoOutputSwitching),
            0x20 => Some(Command::SetRequestInputName),
            0x23 => Some(Command::FMScanUpDown),
            0x24 => Some(Command::DABScan),
            0x25 => Some(Command::Heartbeat),
            0x26 => Some(Command::Reboot),
            _ => None,
        }
    }

    /// The byte that stands for this value in a packet.
    pub fn to_u8(self) -> (r: u8)
        ensures
            r == self.code(),
    {
        match self {
            Command::Power => 0,
            Command::DisplayBrightness => 1,
            Command::Headphones => 2,
            Command::FMGenre => 3,
            Command::SoftwareVersion => 4,
            Command::RestoreFactoryDefaultSettings => 5,
            Command::SaveRestoreSecureCopyOfSettings => 6,
            Command::SimulateRC5IRCommand => 8,
            Command::DisplayInformationType => 9,
            Command::RequestCurrentSource => 0x1D,
            Command::HeadphoneOverride => 0x1F,
            Command::VideoSelection => 0x0A,
            Command::SelectAnalogueDigital => 0x0B,
            Command::SetRequestVolume => 0x0D,
            Command::RequestMuteStatus => 0x0E,
            Command::RequestDirectModeStatus => 0x0F,
            Command::RequestDecodeModeStatus2ch => 0x10,
            Command::RequestDecodeModeStatusMCH => 0x11,
            Command::RequestRDSInformation => 0x12,
            Command::SetRequestVideoOutputResolution => 0x13,
            Command::RequestMenuStatus => 0x14,
            Command::RequestTunerPreset => 0x15,
            Command::Tune => 0x16,
            Command::RequestDABStation => 0x18,
            Command::ProgrammeTypeCategory => 0x19,
            Command::DLSPDTInformation => 0x1A,
            Command::RequestPresetDetails => 0x1B,
            Command::NetworkPlaybackStatus => 0x1C,
            Command::IMAXEnhanced => 0x0C,
            Command::TrebleEqualisation => 0x35,
            Command::BassEqualisation => 0x36,
            Command::RoomEqualisation => 0x37,
            Command::DolbyVolume => 0x38,
            Command::DolbyLeveller => 0x39,
            Command::DolbyVolumeCalibrationOffset => 0x3A,
            Command::Balance => 0x3B,
            Command::DolbyProLogicIIDimension => 0x3C,
            Command::DolbyProLogicIICentreWidth => 0x3D,
            Command::DolbyProLogicIIPanorama => 0x3E,
            Command::SubwooferTrim => 0x3F,
            Command::LipsyncDelay => 0x40,
            Command::Compression => 0x41,
            Command::RequestIncomingVideoParameters => 0x42,
            Command::RequestIncomingAudioFormat => 0x43,
            Command::RequestIncomingAudioSampleRate => 0x44,
            Command::SetRequestSubStereoTrim => 0x45,
            Command::SetRequestZone1OSDOnOff => 0x4E,
            Command::SetRequestVideoOutputSwitching => 0x4F,
            Command::SetRequestInputName => 0x20,
            Command::FMScanUpDown => 0x23,
            Command::DABScan => 0x24,
            Command::Heartbeat => 0x25,
            Command::Reboot => 0x26,
        }
    }

    /// The value that a byte of a packet stands for; `None` where it stands for none.
    pub fn from_u8(value: u8) -> (r: Option<Command>)
        ensures
            r == Command::from_code(value),
    {
        match value {
            0 => Some(Command::Power),
            1 => Some(Command::DisplayBrightness),
            2 => Some(Command::Headphones),
            3 => Some(Command::FMGenre),
            4 => Some(Command::SoftwareVersion),
            5 => Some(Command::RestoreFactoryDefaultSettings),
            6 => Some(Command::SaveRestoreSecureCopyOfSettings),
            8 => Some(Command::SimulateRC5IRCommand),
            9 => Some(Command::DisplayInformationType),
            0x1D => Some(Command::RequestCurrentSource),
            0x1F => Some(Command::HeadphoneOverride),
            0x0A => Some(Command::VideoSelection),
            0x0B => Some(Command::SelectAnalogueDigital),
            0x0D => Some(Command::SetRequestVolume),
            0x0E => Some(Command::RequestMuteStatus),
            0x0F => Some(Command::RequestDirectModeStatus),
            0x10 => Some(Command::RequestDecodeModeStatus2ch),
            0x11 => Some(Command::RequestDecodeModeStatusMCH),
            0x12 => Some(Command::RequestRDSInformation),
            0x13 => Some(Command::SetRequestVideoOutputResolution),
            0x14 => Some(Command::RequestMenuStatus),
            0x15 => Some(Command::RequestTunerPreset),
            0x16 => Some(Command::Tune),
            0x18 => Some(Command::RequestDABStation),
            0x19 => Some(Command::ProgrammeTypeCategory),
            0x1A => Some(Command::DLSPDTInformation),
            0x1B => Some(Command::RequestPresetDetails),
            0x1C => Some(Command::NetworkPlaybackStatus),
            0x0C => Some(Command::IMAXEnhanced),
            0x35 => Some(Command::TrebleEqualisation),
            0x36 => Some(Command::BassEqualisation),
            0x37 => Some(Command::RoomEqualisation),
            0x38 => Some(Command::DolbyVolume),
            0x39 => Some(Command::DolbyLeveller),
            0x3A => Some(Command::DolbyVolumeCalibrationOffset),
            0x3B => Some(Command::Balance),
            0x3C => Some(Command::DolbyProLogicIIDimension),
            0x3D => Some(Command::DolbyProLogicIICentreWidth),
            0x3E => Some(Command::DolbyProLogicIIPanorama),
            0x3F => Some(Command::SubwooferTrim),
            0x40 => Some(Command::LipsyncDelay),
            0x41 => Some(Command::Compression),
            0x42 => Some(Command::RequestIncomingVideoParameters),
            0x43 => Some(Command::RequestIncomingAudioFormat),
            0x44 => Some(Command::RequestIncomingAudioSampleRate),
            0x45 => Some(Command::SetRequestSubStereoTrim),
            0x4E => Some(Command::SetRequestZone1OSDOnOff),
            0x4F => Some(Command::SetRequestVideoOutputSwitching),
            0x20 => Some(Command::SetRequestInputName),
            0x23 => Some(Command::FMScanUpDown),
            0x24 => Some(Command::DABScan),
            0x25 => Some(Command::Heartbeat),
            0x26 => Some(Command::Reboot),
            _ => None,
        }
    }

    /// Decoding the byte of a value gives that value back.
    pub proof fn lemma_code_decodes(x: Command)
        ensures
            Command::from_code(x.code()) == Some(x),
    {
        match x {
            Command::Power => {},
            Command::DisplayBrightness => {},
            Command::Headphones => {},
            Command::FMGenre => {},
            Command::SoftwareVersion => {},
            Command::RestoreFactoryDefaultSettings => {},
            Command::SaveRestoreSecureCopyOfSettings => {},
            Command::SimulateRC5IRCommand => {},
            Command::DisplayInformationType => {},
            Command::RequestCurrentSource => {},
            Command::HeadphoneOverride => {},
            Command::VideoSelection => {},
            Command::SelectAnalogueDigital => {},
            Command::SetRequestVolume => {},
            Command::RequestMuteStatus => {},
            Command::RequestDirectModeStatus => {},
            Command::RequestDecodeModeStatus2ch => {},
            Command::RequestDecodeModeStatusMCH => {},
            Command::RequestRDSInformation => {},
            Command::SetRequestVideoOutputResolution => {},
            Command::RequestMenuStatus => {},
            Command::RequestTunerPreset => {},
            Command::Tune => {},
            Command::RequestDABStation => {},
            Command::ProgrammeTypeCategory => {},
            Command::DLSPDTInformation => {},
            Command::RequestPresetDetails => {},
            Command::NetworkPlaybackStatus => {},
            Command::IMAXEnhanced => {},
            Command::TrebleEqualisation => {},
            Command::BassEqualisation => {},
            Command::RoomEqualisation => {},
            Command::DolbyVolume => {},
            Command::DolbyLeveller => {},
            Command::DolbyVolumeCalibrationOffset => {},
            Command::Balance => {},
            Command::DolbyProLogicIIDimension => {},
            Command::DolbyProLogicIICentreWidth => {},
            Command::DolbyProLogicIIPanorama => {},
            Command::SubwooferTrim => {},
            Command::LipsyncDelay => {},
            Command::Compression => {},
            Command::RequestIncomingVideoParameters => {},
            Command::RequestIncomingAudioFormat => {},
            Command::RequestIncomingAudioSampleRate => {},
            Command::SetRequestSubStereoTrim => {},
            Command::SetRequestZone1OSDOnOff => {},
            Command::SetRequestVideoOutputSwitching => {},
            Command::SetRequestInputName => {},
            Command::FMScanUpDown => {},
            Command::DABScan => {},
            Command::Heartbeat => {},
            Command::Reboot => {},
        }
    }

    /// A byte that decodes to a value is the byte of that value.
    pub proof fn lemma_decoded_code(value: u8)
        ensures
            Command::from_code(value) matches Some(x) ==> x.code() == value,
    {
    }

    /// The name of this value, as the amplifier documentation spells it.
    pub open spec fn spec_name(self) -> Seq<char> {
        match self {
            Command::Power => "Power"@,
            Command::DisplayBrightness => "DisplayBrightness"@,
            Command::Headphones => "Headphones"@,
            Command::FMGenre => "FMGenre"@,
            Command::SoftwareVersion => "SoftwareVersion"@,
            Command::RestoreFactoryDefaultSettings => "RestoreFactoryDefaultSettings"@,
            Command::SaveRestoreSecureCopyOfSettings => "SaveRestoreSecureCopyOfSettings"@,
            Command::SimulateRC5IRCommand => "SimulateRC5IRCommand"@,
            Command::DisplayInformationType => "DisplayInformationType"@,
            Command::RequestCurrentSource => "RequestCurrentSource"@,
            Command::HeadphoneOverride => "HeadphoneOverride"@,
            Command::VideoSelection => "VideoSelection"@,
            Command::SelectAnalogueDigital => "SelectAnalogueDigital"@,
            Command::SetRequestVolume => "SetRequestVolume"@,
            Command::RequestMuteStatus => "RequestMuteStatus"@,
            Command::RequestDirectModeStatus => "RequestDirectModeStatus"@,
            Command::RequestDecodeModeStatus2ch => "RequestDecodeModeStatus2ch"@,
            Command::RequestDecodeModeStatusMCH => "RequestDecodeModeStatusMCH"@,
            Command::RequestRDSInformation => "RequestRDSInformation"@,
            Command::SetRequestVideoOutputResolution => "SetRequestVideoOutputResolution"@,
            Command::RequestMenuStatus => "RequestMenuStatus"@,
            Command::RequestTunerPreset => "RequestTunerPreset"@,
            Command::Tune => "Tune"@,
            Command::RequestDABStation => "RequestDABStation"@,
            Command::ProgrammeTypeCategory => "ProgrammeTypeCategory"@,
            Command::DLSPDTInformation => "DLSPDTInformation"@,
            Command::RequestPresetDetails => "RequestPresetDetails"@,
            Command::NetworkPlaybackStatus => "NetworkPlaybackStatus"@,
            Command::IMAXEnhanced => "IMAXEnhanced"@,
            Command::TrebleEqualisation => "TrebleEqualisation"@,
            Command::BassEqualisation => "BassEqualisation"@,
            Command::RoomEqualisation => "RoomEqualisation"@,
            Command::DolbyVolume => "DolbyVolume"@,
            Command::DolbyLeveller => "DolbyLeveller"@,
            Command::DolbyVolumeCalibrationOffset => "DolbyVolumeCalibrationOffset"@,
            Command::Balance => "Balance"@,
            Command::DolbyProLogicIIDimension => "DolbyProLogicIIDimension"@,
            Command::DolbyProLogicIICentreWidth => "DolbyProLogicIICentreWidth"@,
            Command::DolbyProLogicIIPanorama => "DolbyProLogicIIPanorama"@,
            Command::SubwooferTrim => "SubwooferTrim"@,
            Command::LipsyncDelay => "LipsyncDelay"@,
            Command::Compression => "Compression"@,
            Command::RequestIncomingVideoParameters => "RequestIncomingVideoParameters"@,
            Command::RequestIncomingAudioFormat => "RequestIncomingAudioFormat"@,
            Command::RequestIncomingAudioSampleRate => "RequestIncomingAudioSampleRate"@,
            Command::SetRequestSubStereoTrim => "SetRequestSubStereoTrim"@,
            Command::SetRequestZone1OSDOnOff => "SetRequestZone1OSDOnOff"@,
            Command::SetRequestVideoOutputSwitching => "SetRequestVideoOutputSwitching"@,
            Command::SetRequestInputName => "SetRequestInputName"@,
            Command::FMScanUpDown => "FMScanUpDown"@,
            Command::DABScan => "DABScan"@,
            Command::Heartbeat => "Heartbeat"@,
            Command::Reboot => "Reboot"@,
        }
    }

    /// The name of this value, as the amplifier documentation spells it.
    pub fn name(self) -> (r: &'static str)
        ensures
            r@ == self.spec_name(),
    {
        match self {
            Command::Power => "Power",
            Command::DisplayBrightness => "DisplayBrightness",
            Command::Headphones => "Headphones",
            Command::FMGenre => "FMGenre",
            Command::SoftwareVersion => "SoftwareVersion",
            Command::RestoreFactoryDefaultSettings => "RestoreFactoryDefaultSettings",
            Command::SaveRestoreSecureCopyOfSettings => "SaveRestoreSecureCopyOfSettings",
            Command::SimulateRC5IRCommand => "SimulateRC5IRCommand",
            Command::DisplayInformationType => "DisplayInformationType",
            Command::RequestCurrentSource => "RequestCurrentSource",
            Command::HeadphoneOverride => "HeadphoneOverride",
            Command::VideoSelection => "VideoSelection",
            Command::SelectAnalogueDigital => "SelectAnalogueDigital",
            Command::SetRequestVolume => "SetRequestVolume",
            Command::RequestMuteStatus => "RequestMuteStatus",
            Command::RequestDirectModeStatus => "RequestDirectModeStatus",
            Command::RequestDecodeModeStatus2ch => "RequestDecodeModeStatus2ch",
            Command::RequestDecodeModeStatusMCH => "RequestDecodeModeStatusMCH",
            Command::RequestRDSInformation => "RequestRDSInformation",
            Command::SetRequestVideoOutputResolution => "SetRequestVideoOutputResolution",
            Command::RequestMenuStatus => "RequestMenuStatus",
            Command::RequestTunerPreset => "RequestTunerPreset",
            Command::Tune => "Tune",
            Command::RequestDABStation => "RequestDABStation",
            Command::ProgrammeTypeCategory => "ProgrammeTypeCategory",
            Command::DLSPDTInformation => "DLSPDTInformation",
            Command::RequestPresetDetails => "RequestPresetDetails",
            Command::NetworkPlaybackStatus => "NetworkPlaybackStatus",
            Command::IMAXEnhanced => "IMAXEnhanced",
            Command::TrebleEqualisation => "TrebleEqualisation",
            Command::BassEqualisation => "BassEqualisation",
            Command::RoomEqualisation => "RoomEqualisation",
            Command::DolbyVolume => "DolbyVolume",
            Command::DolbyLeveller => "DolbyLeveller",
            Command::DolbyVolumeCalibrationOffset => "DolbyVolumeCalibrationOffset",
            Command::Balance => "Balance",
            Command::DolbyProLogicIIDimension => "DolbyProLogicIIDimension",
            Command::DolbyProLogicIICentreWidth => "DolbyProLogicIICentreWidth",
            Command::DolbyProLogicIIPanorama => "DolbyProLogicIIPanorama",
            Command::SubwooferTrim => "SubwooferTrim",
            Command::LipsyncDelay => "LipsyncDelay",
            Command::Compression => "Compression",
            Command::RequestIncomingVideoParameters => "RequestIncomingVideoParameters",
            Command::RequestIncomingAudioFormat => "RequestIncomingAudioFormat",
            Command::RequestIncomingAudioSampleRate => "RequestIncomingAudioSampleRate",
            Command::SetRequestSubStereoTrim => "SetRequestSubStereoTrim",
            Command::SetRequestZone1OSDOnOff => "SetRequestZone1OSDOnOff",
            Command::SetRequestVideoOutputSwitching => "SetRequestVideoOutputSwitching",
            Command::SetRequestInputName => "SetRequestInputName",
            Command::FMScanUpDown => "FMScanUpDown",
            Command::DABScan => "DABScan",
            Command::Heartbeat => "Heartbeat",
            Command::Reboot => "Reboot",
        }
    }
}

/// The answer codes (Ac entries) that can be received from the amplifier.
#[derive(Clone, Copy, Debug, PartialEq, Eq, Hash, Structural)]
pub enum AnswerCode {
    StatusUpdate,
    ZoneInvalid,
    CommandNotRecognized,
    ParameterNotRecognized,
    CommandInvalidAtThisTime,
    InvalidDataLength,
}

impl AnswerCode {
    /// The byte that stands for this value in a packet.
    pub open spec fn code(self) -> u8 {
        match self {
            AnswerCode::StatusUpdate => 0,
            AnswerCode::ZoneInvalid => 0x82,
            AnswerCode::CommandNotRecognized => 0x83,
            AnswerCode::ParameterNotRecognized => 0x84,
            AnswerCode::CommandInvalidAtThisTime => 0x85,
            AnswerCode::InvalidDataLength => 0x86,
        }
    }

    /// The value that a byte of a packet stands for, if it stands for one.
    pub open spec fn from_code(value: u8) -> Option<AnswerCode> {
        match value {
            0 => Some(AnswerCode::StatusUpdate),
            0x82 => Some(AnswerCode::ZoneInvalid),
            0x83 => Some(AnswerCode::CommandNotRecognized),
            0x84 => Some(AnswerCode::ParameterNotRecognized),
            0x85 => Some(AnswerCode::CommandInvalidAtThisTime),
            0x86 => Some(AnswerCode::InvalidDataLength),
            _ => None,
        }
    }

    /// The byte that stands for this value in a packet.
    pub fn to_u8(self) -> (r: u8)
        ensures
            r == self.code(),
    {
        match self {
            AnswerCode::StatusUpdate => 0,
            AnswerCode::ZoneInvalid => 0x82,
            AnswerCode::CommandNotRecognized => 0x83,
            AnswerCode::ParameterNotRecognized => 0x84,
            AnswerCode::CommandInvalidAtThisTime => 0x85,
            AnswerCode::InvalidDataLength => 0x86,
        }
    }

    /// The value that a byte of a packet stands for; `None` where it stands for none.
    pub fn from_u8(value: u8) -> (r: Option<AnswerCode>)
        ensures
            r == AnswerCode::from_code(value),
    {
        match value {
            0 => Some(AnswerCode::StatusUpdate),
            0x82 => Some(AnswerCode::ZoneInvalid),
            0x83 => Some(AnswerCode::CommandNotRecognized),
            0x84 => Some(AnswerCode::ParameterNotRecognized),
            0x85 => Some(AnswerCode::CommandInvalidAtThisTime),
            0x86 => Some(AnswerCode::InvalidDataLength),
            _ => None,
        }
    }

    /// Decoding the byte of a value gives that value back.
    pub proof fn lemma_code_decodes(x: AnswerCode)
        ensures
            AnswerCode::from_code(x.code()) == Some(x),
    {
        match x {
            AnswerCode::StatusUpdate => {},
            AnswerCode::ZoneInvalid => {},
            AnswerCode::CommandNotRecognized => {},
            AnswerCode::ParameterNotRecognized => {},
            AnswerCode::CommandInvalidAtThisTime => {},
            AnswerCode::InvalidDataLength => {},
        }
    }

    /// A byte that decodes to a value is the byte of that value.
    pub proof fn lemma_decoded_code(value: u8)
        ensures
            AnswerCode::from_code(value) matches Some(x) ==> x.code() == value,
    {
    }
}

/// The three levels of brightness of the amplifier display.
#[derive(Clone, Copy, Debug, PartialEq, Eq, Hash, Structural)]
pub enum Brightness {
    Off,
    Level1,
    Level2,
}

impl Brightness {
    /// The byte that stands for this value in a packet.
    pub open spec fn code(self) -> u8 {
        match self {
            Brightness::Off => 0,
            Brightness::Level1 => 1,
            Brightness::Level2 => 2,
        }
    }

    /// The value that a byte of a packet stands for, if it stands for one.
    pub open spec fn from_code(value: u8) -> Option<Brightness> {
        match value {
            0 => Some(Brightness::Off),
            1 => Some(Brightness::Level1),
            2 => Some(Brightness::Level2),
            _ => None,
        }
    }

    /// The byte that stands for this value in a packet.
    pub fn to_u8(self) -> (r: u8)
        ensures
            r == self.code(),
    {
        match self {
            Brightness::Off => 0,
            Brightness::Level1 => 1,
            Brightness::Level2 => 2,
        }
    }

    /// The value that a byte of a packet stands for; `None` where it stands for none.
    pub fn from_u8(value: u8) -> (r: Option<Brightness>)
        ensures
            r == Brightness::from_code(value),
    {
        match value {
            0 => Some(Brightness::Off),
            1 => Some(Brightness::Level1),
            2 => Some(Brightness::Level2),
            _ => None,
        }
    }

    /// Decoding the byte of a value gives that value back.
    pub proof fn lemma_code_decodes(x: Brightness)
        ensures
            Brightness::from_code(x.code()) == Some(x),
    {
        match x {
            Brightness::Off => {},
            Brightness::Level1 => {},
            Brightness::Level2 => {},
        }
    }

    /// A byte that decodes to a value is the byte of that value.
    pub proof fn lemma_decoded_code(value: u8)
        ensures
            Brightness::from_code(value) matches Some(x) ==> x.code() == value,
    {
    }
}

/// The various sources the amplifier can use.
///
/// The byte of each is as per the `RequestCurrentSource` [Command] return value.
#[derive(Clone, Copy, Debug, PartialEq, Eq, Hash, Structural)]
pub enum Source {
    FollowZone1,
    CD,
    BD,
    AV,
    SAT,
    PVR,
    VCR,
    AUX,
    DISPLAY,
    TUNER,  // TUNER (FM) according to the documentation.
    TUNERDAB,  // (AVR450/750 only) according to the documentation.
    NET,
    USB,
    STB,
    GAME,
}

impl Source {
    /// The byte that stands for this value in a packet.
    pub open spec fn code(self) -> u8 {
        match self {
            Source::FollowZone1 => 0,
            Source::CD => 1,
            Source::BD => 2,
            Source::AV => 3,
            Source::SAT => 4,
            Source::PVR => 5,
            Source::VCR => 6,
            Source::AUX => 8,
            Source::DISPLAY => 9,
            Source::TUNER => 0x0B,
            Source::TUNERDAB => 0x0C,
            Source::NET => 0x0E,
            Source::USB => 0x0F,
            Source::STB => 0x10,
            Source::GAME => 0x11,
        }
    }

    /// The value that a byte of a packet stands for, if it stands for one.
    pub open spec fn from_code(value: u8) -> Option<Source> {
        match value {
            0 => Some(Source::FollowZone1),
            1 => Some(Source::CD),
            2 => Some(Source::BD),
            3 => Some(Source::AV),
            4 => Some(Source::SAT),
            5 => Some(Source::PVR),
            6 => Some(Source::VCR),
            8 => Some(Source::AUX),
            9 => Some(Source::DISPLAY),
            0x0B => Some(Source::TUNER),
            0x0C => Some(Source::TUNERDAB),
            0x0E => Some(Source::NET),
            0x0F => Some(Source::USB),
            0x10 => Some(Source::STB),
            0x11 => Some(Source::GAME),
            _ => None,
        }
    }

    /// The byte that stands for this value in a packet.
    pub fn to_u8(self) -> (r: u8)
        ensures
            r == self.code(),
    {
        match self {
            Source::FollowZone1 => 0,
            Source::CD => 1,
            Source::BD => 2,
            Source::AV => 3,
            Source::SAT => 4,
            Source::PVR => 5,
            Source::VCR => 6,
            Source::AUX => 8,
            Source::DISPLAY => 9,
            Source::TUNER => 0x0B,
            Source::TUNERDAB => 0x0C,
            Source::NET => 0x0E,
            Source::USB => 0x0F,
            Source::STB => 0x10,
            Source::GAME => 0x11,
        }
    }

    /// The value that a byte of a packet stands for; `None` where it stands for none.
    pub fn from_u8(value: u8) -> (r: Option<Source>)
        ensures
            r == Source::from_code(value),
    {
        match value {
            0 => Some(Source::FollowZone1),
            1 => Some(Source::CD),
            2 => Some(Source::BD),
            3 => Some(Source::AV),
            4 => Some(Source::SAT),
            5 => Some(Source::PVR),
            6 => Some(Source::VCR),
            8 => Some(Source::AUX),
            9 => Some(Source::DISPLAY),
            0x0B => Some(Source::TUNER),
            0x0C => Some(Source::TUNERDAB),
            0x0E => Some(Source::NET),
            0x0F => Some(Source::USB),
            0x10 => Some(Source::STB),
            0x11 => Some(Source::GAME),
            _ => None,
        }
    }

    /// Decoding the byte of a value gives that value back.
    pub proof fn lemma_code_decodes(x: Source)
        ensures
            Source::from_code(x.code()) == Some(x),
    {
        match x {
            Source::FollowZone1 => {},
            Source::CD => {},
            Source::BD => {},
            Source::AV => {},
            Source::SAT => {},
            Source::PVR => {},
            Source::VCR => {},
            Source::AUX => {},
            Source::DISPLAY => {},
            Source::TUNER => {},
            Source::TUNERDAB => {},
            Source::NET => {},
            Source::USB => {},
            Source::STB => {},
            Source::GAME => {},
        }
    }

    /// A byte that decodes to a value is the byte of that value.
    pub proof fn lemma_decoded_code(value: u8)
        ensures
            Source::from_code(value) matches Some(x) ==> x.code() == value,
    {
    }
}

/// The video sources.
///
/// The byte of each is as per the `VideoSelection` [Command] return value.
#[derive(Clone, Copy, Debug, PartialEq, Eq, Hash, Structural)]
pub enum VideoSource {
    BD,
    SAT,
    AV,
    PVR,
    VCR,
    Game,
    STB,
}

impl VideoSource {
    /// The byte that stands for this value in a packet.
    pub open spec fn code(self) -> u8 {
        match self {
            VideoSource::BD => 0,
            VideoSource::SAT => 1,
            VideoSource::AV => 2,
            VideoSource::PVR => 3,
            VideoSource::VCR => 4,
            VideoSource::Game => 5,
            VideoSource::STB => 6,
        }
    }

    /// The value that a byte of a packet stands for, if it stands for one.
    pub open spec fn from_code(value: u8) -> Option<VideoSource> {
        match value {
            0 => Some(VideoSource::BD),
            1 => Some(VideoSource::SAT),
            2 => Some(VideoSource::AV),
            3 => Some(VideoSource::PVR),
            4 => Some(VideoSource::VCR),
            5 => Some(VideoSource::Game),
            6 => Some(VideoSource::STB),
            _ => None,
        }
    }

    /// The byte that stands for this value in a packet.
    pub fn to_u8(self) -> (r: u8)
        ensures
            r == self.code(),
    {
        match self {
            VideoSource::BD => 0,
            VideoSource::SAT => 1,
            VideoSource::AV => 2,
            VideoSource::PVR => 3,
            VideoSource::VCR => 4,
            VideoSource::Game => 5,
            VideoSource::STB => 6,
        }
    }

    /// The value that a byte of a packet stands for; `None` where it stands for none.
    pub fn from_u8(value: u8) -> (r: Option<VideoSource>)
        ensures
            r == VideoSource::from_code(value),
    {
        match value {
            0 => Some(VideoSource::BD),
            1 => Some(VideoSource::SAT),
            2 => Some(VideoSource::AV),
            3 => Some(VideoSource::PVR),
            4 => Some(VideoSource::VCR),
            5 => Some(VideoSource::Game),
            6 => Some(VideoSource::STB),
            _ => None,
        }
    }

    /// Decoding the byte of a value gives that value back.
    pub proof fn lemma_code_decodes(x: VideoSource)
        ensures
            VideoSource::from_code(x.code()) == Some(x),
    {
        match x {
            VideoSource::BD => {},
            VideoSource::SAT => {},
            VideoSource::AV => {},
            VideoSource::PVR => {},
            VideoSource::VCR => {},
            VideoSource::Game => {},
            VideoSource::STB => {},
        }
    }

    /// A byte that decodes to a value is the byte of that value.
    pub proof fn lemma_decoded_code(value: u8)
        ensures
            VideoSource::from_code(value) matches Some(x) ==> x.code() == value,
    {
    }
}

/// An analogue of bool to represent the power state of a zone.
///
/// The byte of each is as per the `Power` [Command] return value.
#[derive(Clone, Copy, Debug, PartialEq, Eq, Hash, Structural)]
pub enum PowerState {
    Standby,
    On,
}

impl PowerState {
    /// The byte that stands for this value in a packet.
    pub open spec fn code(self) -> u8 {
        match self {
            PowerState::Standby => 0,
            PowerState::On => 1,
        }
    }

    /// The value that a byte of a packet stands for, if it stands for one.
    pub open spec fn from_code(value: u8) -> Option<PowerState> {
        match value {
            0 => Some(PowerState::Standby),
            1 => Some(PowerState::On),
            _ => None,
        }
    }

    /// The byte that stands for this value in a packet.
    pub fn to_u8(self) -> (r: u8)
        ensures
            r == self.code(),
    {
        match self {
            PowerState::Standby => 0,
            PowerState::On => 1,
        }
    }

    /// The value that a byte of a packet stands for; `None` where it stands for none.
    pub fn from_u8(value: u8) -> (r: Option<PowerState>)
        ensures
            r == PowerState::from_code(value),
    {
        match value {
            0 => Some(PowerState::Standby),
            1 => Some(PowerState::On),
            _ => None,
        }
    }

    /// Decoding the byte of a value gives that value back.
    pub proof fn lemma_code_decodes(x: PowerState)
        ensures
            PowerState::from_code(x.code()) == Some(x),
    {
        match x {
            PowerState::Standby => {},
            PowerState::On => {},
        }
    }

    /// A byte that decodes to a value is the byte of that value.
    pub proof fn lemma_decoded_code(value: u8)
        ensures
            PowerState::from_code(value) matches Some(x) ==> x.code() == value,
    {
    }
}

/// An analogue of bool to represent the mute state of a zone.
///
/// The byte of each is as per the `RequestMuteStatus` [Command] return value.
#[derive(Clone, Copy, Debug, PartialEq, Eq, Hash, Structural)]
pub enum MuteState {
    Muted,
    NotMuted,
}

impl MuteState {
    /// The byte that stands for this value in a packet.
    pub open spec fn code(self) -> u8 {
        match self {
            MuteState::Muted => 0,
            MuteState::NotMuted => 1,
        }
    }

    /// The value that a byte of a packet stands for, if it stands for one.
    pub open spec fn from_code(value: u8) -> Option<MuteState> {
        match value {
            0 => Some(MuteState::Muted),
            1 => Some(MuteState::NotMuted),
            _ => None,
        }
    }

    /// The byte that stands for this value in a packet.
    pub fn to_u8(self) -> (r: u8)
        ensures
            r == self.code(),
    {
        match self {
            MuteState::Muted => 0,
            MuteState::NotMuted => 1,
        }
    }

    /// The value that a byte of a packet stands for; `None` where it stands for none.
    pub fn from_u8(value: u8) -> (r: Option<MuteState>)
        ensures
            r == MuteState::from_code(value),
    {
        match value {
            0 => Some(MuteState::Muted),
            1 => Some(MuteState::NotMuted),
            _ => None,
        }
    }

    /// Decoding the byte of a value gives that value back.
    pub proof fn lemma_code_decodes(x: MuteState)
        ensures
            MuteState::from_code(x.code()) == Some(x),
    {
        match x {
            MuteState::Muted => {},
            MuteState::NotMuted => {},
        }
    }

    /// A byte that decodes to a value is the byte of that value.
    pub proof fn lemma_decoded_code(value: u8)
        ensures
            MuteState::from_code(value) matches Some(x) ==> x.code() == value,
    {
    }
}

impl ZoneNumber {
    /// The name of this value as it is written in the source, as `Debug` writes it.
    pub open spec fn spec_name(self) -> Seq<char> {
        match self {
            ZoneNumber::One => "One"@,
            ZoneNumber::Two => "Two"@,
        }
    }

    /// The name of this value as it is written in the source, as `Debug` writes it.
    pub fn name(self) -> (r: &'static str)
        ensures
            r@ == self.spec_name(),
    {
        match self {
            ZoneNumber::One => "One",
            ZoneNumber::Two => "Two",
        }
    }
}

impl AnswerCode {
    /// The name of this value as it is written in the source, as `Debug` writes it.
    pub open spec fn spec_name(self) -> Seq<char> {
        match self {
            AnswerCode::StatusUpdate => "StatusUpdate"@,
            AnswerCode::ZoneInvalid => "ZoneInvalid"@,
            AnswerCode::CommandNotRecognized => "CommandNotRecognized"@,
            AnswerCode::ParameterNotRecognized => "ParameterNotRecognized"@,
            AnswerCode::CommandInvalidAtThisTime => "CommandInvalidAtThisTime"@,
            AnswerCode::InvalidDataLength => "InvalidDataLength"@,
        }
    }

    /// The name of this value as it is written in the source, as `Debug` writes it.
    pub fn name(self) -> (r: &'static str)
        ensures
            r@ == self.spec_name(),
    {
        match self {
            AnswerCode::StatusUpdate => "StatusUpdate",
            AnswerCode::ZoneInvalid => "ZoneInvalid",
            AnswerCode::CommandNotRecognized => "CommandNotRecognized",
            AnswerCode::ParameterNotRecognized => "ParameterNotRecognized",
            AnswerCode::CommandInvalidAtThisTime => "CommandInvalidAtThisTime",
            AnswerCode::InvalidDataLength => "InvalidDataLength",
        }
    }
}

/// The byte of each zone in a packet is the one the Arcam protocol documents, and reading
/// that byte gives the zone back.
pub proof fn lemma_zone_number_protocol_bytes()
    ensures
        ZoneNumber::One.code() == 0x01,
        ZoneNumber::Two.code() == 0x02,
        ZoneNumber::from_code(0x01) == Some(ZoneNumber::One),
        ZoneNumber::from_code(0x02) == Some(ZoneNumber::Two),
{
}

/// The name of each zone in a description is its name in the protocol's table.
pub proof fn lemma_zone_number_names()
    ensures
        ZoneNumber::One.spec_name() == "One"@,
        ZoneNumber::Two.spec_name() == "Two"@,
{
}

/// The byte of each command in a packet is the one the Arcam protocol documents, and reading
/// that byte gives the command back.
pub proof fn lemma_command_protocol_bytes()
    ensures
        Command::Power.code() == 0x00,
        Command::DisplayBrightness.code() == 0x01,
        Command::Headphones.code() == 0x02,
        Command::FMGenre.code() == 0x03,
        Command::SoftwareVersion.code() == 0x04,
        Command::RestoreFactoryDefaultSettings.code() == 0x05,
        Command::SaveRestoreSecureCopyOfSettings.code() == 0x06,
        Command::SimulateRC5IRCommand.code() == 0x08,
        Command::DisplayInformationType.code() == 0x09,
        Command::RequestCurrentSource.code() == 0x1d,
        Command::HeadphoneOverride.code() == 0x1f,
        Command::VideoSelection.code() == 0x0a,
        Command::SelectAnalogueDigital.code() == 0x0b,
        Command::SetRequestVolume.code() == 0x0d,
        Command::RequestMuteStatus.code() == 0x0e,
        Command::RequestDirectModeStatus.code() == 0x0f,
        Command::RequestDecodeModeStatus2ch.code() == 0x10,
        Command::RequestDecodeModeStatusMCH.code() == 0x11,
        Command::RequestRDSInformation.code() == 0x12,
        Command::SetRequestVideoOutputResolution.code() == 0x13,
        Command::RequestMenuStatus.code() == 0x14,
        Command::RequestTunerPreset.code() == 0x15,
        Command::Tune.code() == 0x16,
        Command::RequestDABStation.code() == 0x18,
        Command::ProgrammeTypeCategory.code() == 0x19,
        Command::DLSPDTInformation.code() == 0x1a,
        Command::RequestPresetDetails.code() == 0x1b,
        Command::NetworkPlaybackStatus.code() == 0x1c,
        Command::IMAXEnhanced.code() == 0x0c,
        Command::TrebleEqualisation.code() == 0x35,
        Command::BassEqualisation.code() == 0x36,
        Command::RoomEqualisation.code() == 0x37,
        Command::DolbyVolume.code() == 0x38,
        Command::DolbyLeveller.code() == 0x39,
        Command::DolbyVolumeCalibrationOffset.code() == 0x3a,
        Command::Balance.code() == 0x3b,
        Command::DolbyProLogicIIDimension.code() == 0x3c,
        Command::DolbyProLogicIICentreWidth.code() == 0x3d,
        Command::DolbyProLogicIIPanorama.code() == 0x3e,
        Command::SubwooferTrim.code() == 0x3f,
        Command::LipsyncDelay.code() == 0x40,
        Command::Compression.code() == 0x41,
        Command::RequestIncomingVideoParameters.code() == 0x42,
        Command::RequestIncomingAudioFormat.code() == 0x43,
        Command::RequestIncomingAudioSampleRate.code() == 0x44,
        Command::SetRequestSubStereoTrim.code() == 0x45,
        Command::SetRequestZone1OSDOnOff.code() == 0x4e,
        Command::SetRequestVideoOutputSwitching.code() == 0x4f,
        Command::SetRequestInputName.code() == 0x20,
        Command::FMScanUpDown.code() == 0x23,
        Command::DABScan.code() == 0x24,
        Command::Heartbeat.code() == 0x25,
        Command::Reboot.code() == 0x26,
        Command::from_code(0x00) == Some(Command::Power),
        Command::from_code(0x01) == Some(Command::DisplayBrightness),
        Command::from_code(0x02) == Some(Command::Headphones),
        Command::from_code(0x03) == Some(Command::FMGenre),
        Command::from_code(0x04) == Some(Command::SoftwareVersion),
        Command::from_code(0x05) == Some(Command::RestoreFactoryDefaultSettings),
        Command::from_code(0x06) == Some(Command::SaveRestoreSecureCopyOfSettings),
        Command::from_code(0x08) == Some(Command::SimulateRC5IRCommand),
        Command::from_code(0x09) == Some(Command::DisplayInformationType),
        Command::from_code(0x1d) == Some(Command::RequestCurrentSource),
        Command::from_code(0x1f) == Some(Command::HeadphoneOverride),
        Command::from_code(0x0a) == Some(Command::VideoSelection),
        Command::from_code(0x0b) == Some(Command::SelectAnalogueDigital),
        Command::from_code(0x0d) == Some(Command::SetRequestVolume),
        Command::from_code(0x0e) == Some(Command::RequestMuteStatus),
        Command::from_code(0x0f) == Some(Command::RequestDirectModeStatus),
        Command::from_code(0x10) == Some(Command::RequestDecodeModeStatus2ch),
        Command::from_code(0x11) == Some(Command::RequestDecodeModeStatusMCH),
        Command::from_code(0x12) == Some(Command::RequestRDSInformation),
        Command::from_code(0x13) == Some(Command::SetRequestVideoOutputResolution),
        Command::from_code(0x14) == Some(Command::RequestMenuStatus),
        Command::from_code(0x15) == Some(Command::RequestTunerPreset),
        Command::from_code(0x16) == Some(Command::Tune),
        Command::from_code(0x18) == Some(Command::RequestDABStation),
        Command::from_code(0x19) == Some(Command::ProgrammeTypeCategory),
        Command::from_code(0x1a) == Some(Command::DLSPDTInformation),
        Command::from_code(0x1b) == Some(Command::RequestPresetDetails),
        Command::from_code(0x1c) == Some(Command::NetworkPlaybackStatus),
        Command::from_code(0x0c) == Some(Command::IMAXEnhanced),
        Command::from_code(0x35) == Some(Command::TrebleEqualisation),
        Command::from_code(0x36) == Some(Command::BassEqualisation),
        Command::from_code(0x37) == Some(Command::RoomEqualisation),
        Command::from_code(0x38) == Some(Command::DolbyVolume),
        Command::from_code(0x39) == Some(Command::DolbyLeveller),
        Command::from_code(0x3a) == Some(Command::DolbyVolumeCalibrationOffset),
        Command::from_code(0x3b) == Some(Command::Balance),
        Command::from_code(0x3c) == Some(Command::DolbyProLogicIIDimension),
        Command::from_code(0x3d) == Some(Command::DolbyProLogicIICentreWidth),
        Command::from_code(0x3e) == Some(Command::DolbyProLogicIIPanorama),
        Command::from_code(0x3f) == Some(Command::SubwooferTrim),
        Command::from_code(0x40) == Some(Command::LipsyncDelay),
        Command::from_code(0x41) == Some(Command::Compression),
        Command::from_code(0x42) == Some(Command::RequestIncomingVideoParameters),
        Command::from_code(0x43) == Some(Command::RequestIncomingAudioFormat),
        Command::from_code(0x44) == Some(Command::RequestIncomingAudioSampleRate),
        Command::from_code(0x45) == Some(Command::SetRequestSubStereoTrim),
        Command::from_code(0x4e) == Some(Command::SetRequestZone1OSDOnOff),
        Command::from_code(0x4f) == Some(Command::SetRequestVideoOutputSwitching),
        Command::from_code(0x20) == Some(Command::SetRequestInputName),
        Command::from_code(0x23) == Some(Command::FMScanUpDown),
        Command::from_code(0x24) == Some(Command::DABScan),
        Command::from_code(0x25) == Some(Command::Heartbeat),
        Command::from_code(0x26) == Some(Command::Reboot),
{
}

/// The name of each command in a description is its name in the protocol's table.
pub proof fn lemma_command_names()
    ensures
        Command::Power.spec_name() == "Power"@,
        Command::DisplayBrightness.spec_name() == "DisplayBrightness"@,
        Command::Headphones.spec_name() == "Headphones"@,
        Command::FMGenre.spec_name() == "FMGenre"@,
        Command::SoftwareVersion.spec_name() == "SoftwareVersion"@,
        Command::RestoreFactoryDefaultSettings.spec_name() == "RestoreFactoryDefaultSettings"@,
        Command::SaveRestoreSecureCopyOfSettings.spec_name() == "SaveRestoreSecureCopyOfSettings"@,
        Command::SimulateRC5IRCommand.spec_name() == "SimulateRC5IRCommand"@,
        Command::DisplayInformationType.spec_name() == "DisplayInformationType"@,
        Command::RequestCurrentSource.spec_name() == "RequestCurrentSource"@,
        Command::HeadphoneOverride.spec_name() == "HeadphoneOverride"@,
        Command::VideoSelection.spec_name() == "VideoSelection"@,
        Command::SelectAnalogueDigital.spec_name() == "SelectAnalogueDigital"@,
        Command::SetRequestVolume.spec_name() == "SetRequestVolume"@,
        Command::RequestMuteStatus.spec_name() == "RequestMuteStatus"@,
        Command::RequestDirectModeStatus.spec_name() == "RequestDirectModeStatus"@,
        Command::RequestDecodeModeStatus2ch.spec_name() == "RequestDecodeModeStatus2ch"@,
        Command::RequestDecodeModeStatusMCH.spec_name() == "RequestDecodeModeStatusMCH"@,
        Command::RequestRDSInformation.spec_name() == "RequestRDSInformation"@,
        Command::SetRequestVideoOutputResolution.spec_name() == "SetRequestVideoOutputResolution"@,
        Command::RequestMenuStatus.spec_name() == "RequestMenuStatus"@,
        Command::RequestTunerPreset.spec_name() == "RequestTunerPreset"@,
        Command::Tune.spec_name() == "Tune"@,
        Command::RequestDABStation.spec_name() == "RequestDABStation"@,
        Command::ProgrammeTypeCategory.spec_name() == "ProgrammeTypeCategory"@,
        Command::DLSPDTInformation.spec_name() == "DLSPDTInformation"@,
        Command::RequestPresetDetails.spec_name() == "RequestPresetDetails"@,
        Command::NetworkPlaybackStatus.spec_name() == "NetworkPlaybackStatus"@,
        Command::IMAXEnhanced.spec_name() == "IMAXEnhanced"@,
        Command::TrebleEqualisation.spec_name() == "TrebleEqualisation"@,
        Command::BassEqualisation.spec_name() == "BassEqualisation"@,
        Command::RoomEqualisation.spec_name() == "RoomEqualisation"@,
        Command::DolbyVolume.spec_name() == "DolbyVolume"@,
        Command::DolbyLeveller.spec_name() == "DolbyLeveller"@,
        Command::DolbyVolumeCalibrationOffset.spec_name() == "DolbyVolumeCalibrationOffset"@,
        Command::Balance.spec_name() == "Balance"@,
        Command::DolbyProLogicIIDimension.spec_name() == "DolbyProLogicIIDimension"@,
        Command::DolbyProLogicIICentreWidth.spec_name() == "DolbyProLogicIICentreWidth"@,
        Command::DolbyProLogicIIPanorama.spec_name() == "DolbyProLogicIIPanorama"@,
        Command::SubwooferTrim.spec_name() == "SubwooferTrim"@,
        Command::LipsyncDelay.spec_name() == "LipsyncDelay"@,
        Command::Compression.spec_name() == "Compression"@,
        Command::RequestIncomingVideoParameters.spec_name() == "RequestIncomingVideoParameters"@,
        Command::RequestIncomingAudioFormat.spec_name() == "RequestIncomingAudioFormat"@,
        Command::RequestIncomingAudioSampleRate.spec_name() == "RequestIncomingAudioSampleRate"@,
        Command::SetRequestSubStereoTrim.spec_name() == "SetRequestSubStereoTrim"@,
        Command::SetRequestZone1OSDOnOff.spec_name() == "SetRequestZone1OSDOnOff"@,
        Command::SetRequestVideoOutputSwitching.spec_name() == "SetRequestVideoOutputSwitching"@,
        Command::SetRequestInputName.spec_name() == "SetRequestInputName"@,
        Command::FMScanUpDown.spec_name() == "FMScanUpDown"@,
        Command::DABScan.spec_name() == "DABScan"@,
        Command::Heartbeat.spec_name() == "Heartbeat"@,
        Command::Reboot.spec_name() == "Reboot"@,
{
}

/// The byte of each answer code in a packet is the one the Arcam protocol documents, and reading
/// that byte gives the answer code back.
pub proof fn lemma_answercode_protocol_bytes()
    ensures
        AnswerCode::StatusUpdate.code() == 0x00,
        AnswerCode::ZoneInvalid.code() == 0x82,
        AnswerCode::CommandNotRecognized.code() == 0x83,
        AnswerCode::ParameterNotRecognized.code() == 0x84,
        AnswerCode::CommandInvalidAtThisTime.code() == 0x85,
        AnswerCode::InvalidDataLength.code() == 0x86,
        AnswerCode::from_code(0x00) == Some(AnswerCode::StatusUpdate),
        AnswerCode::from_code(0x82) == Some(AnswerCode::ZoneInvalid),
        AnswerCode::from_code(0x83) == Some(AnswerCode::CommandNotRecognized),
        AnswerCode::from_code(0x84) == Some(AnswerCode::ParameterNotRecognized),
        AnswerCode::from_code(0x85) == Some(AnswerCode::CommandInvalidAtThisTime),
        AnswerCode::from_code(0x86) == Some(AnswerCode::InvalidDataLength),
{
}

/// The name of each answer code in a description is its name in the protocol's table.
pub proof fn lemma_answercode_names()
    ensures
        AnswerCode::StatusUpdate.spec_name() == "StatusUpdate"@,
        AnswerCode::ZoneInvalid.spec_name() == "ZoneInvalid"@,
        AnswerCode::CommandNotRecognized.spec_name() == "CommandNotRecognized"@,
        AnswerCode::ParameterNotRecognized.spec_name() == "ParameterNotRecognized"@,
        AnswerCode::CommandInvalidAtThisTime.spec_name() == "CommandInvalidAtThisTime"@,
        AnswerCode::InvalidDataLength.spec_name() == "InvalidDataLength"@,
{
}

/// The byte of each display brightness in a packet is the one the Arcam protocol documents, and reading
/// that byte gives the display brightness back.
pub proof fn lemma_brightness_protocol_bytes()
    ensures
        Brightness::Off.code() == 0x00,
        Brightness::Level1.code() == 0x01,
        Brightness::Level2.code() == 0x02,
        Brightness::from_code(0x00) == Some(Brightness::Off),
        Brightness::from_code(0x01) == Some(Brightness::Level1),
        Brightness::from_code(0x02) == Some(Brightness::Level2),
{
}

/// The byte of each source in a packet is the one the Arcam protocol documents, and reading
/// that byte gives the source back.
pub proof fn lemma_source_protocol_bytes()
    ensures
        Source::FollowZone1.code() == 0x00,
        Source::CD.code() == 0x01,
        Source::BD.code() == 0x02,
        Source::AV.code() == 0x03,
        Source::SAT.code() == 0x04,
        Source::PVR.code() == 0x05,
        Source::VCR.code() == 0x06,
        Source::AUX.code() == 0x08,
        Source::DISPLAY.code() == 0x09,
        Source::TUNER.code() == 0x0b,
        Source::TUNERDAB.code() == 0x0c,
        Source::NET.code() == 0x0e,
        Source::USB.code() == 0x0f,
        Source::STB.code() == 0x10,
        Source::GAME.code() == 0x11,
        Source::from_code(0x00) == Some(Source::FollowZone1),
        Source::from_code(0x01) == Some(Source::CD),
        Source::from_code(0x02) == Some(Source::BD),
        Source::from_code(0x03) == Some(Source::AV),
        Source::from_code(0x04) == Some(Source::SAT),
        Source::from_code(0x05) == Some(Source::PVR),
        Source::from_code(0x06) == Some(Source::VCR),
        Source::from_code(0x08) == Some(Source::AUX),
        Source::from_code(0x09) == Some(Source::DISPLAY),
        Source::from_code(0x0b) == Some(Source::TUNER),
        Source::from_code(0x0c) == Some(Source::TUNERDAB),
        Source::from_code(0x0e) == Some(Source::NET),
        Source::from_code(0x0f) == Some(Source::USB),
        Source::from_code(0x10) == Some(Source::STB),
        Source::from_code(0x11) == Some(Source::GAME),
{
}

/// The byte of each video source in a packet is the one the Arcam protocol documents, and reading
/// that byte gives the video source back.
pub proof fn lemma_videosource_protocol_bytes()
    ensures
        VideoSource::BD.code() == 0x00,
        VideoSource::SAT.code() == 0x01,
        VideoSource::AV.code() == 0x02,
        VideoSource::PVR.code() == 0x03,
        VideoSource::VCR.code() == 0x04,
        VideoSource::Game.code() == 0x05,
        VideoSource::STB.code() == 0x06,
        VideoSource::from_code(0x00) == Some(VideoSource::BD),
        VideoSource::from_code(0x01) == Some(VideoSource::SAT),
        VideoSource::from_code(0x02) == Some(VideoSource::AV),
        VideoSource::from_code(0x03) == Some(VideoSource::PVR),
        VideoSource::from_code(0x04) == Some(VideoSource::VCR),
        VideoSource::from_code(0x05) == Some(VideoSource::Game),
        VideoSource::from_code(0x06) == Some(VideoSource::STB),
{
}

/// The byte of each power state in a packet is the one the Arcam protocol documents, and reading
/// that byte gives the power state back.
pub proof fn lemma_powerstate_protocol_bytes()
    ensures
        PowerState::Standby.code() == 0x00,
        PowerState::On.code() == 0x01,
        PowerState::from_code(0x00) == Some(PowerState::Standby),
        PowerState::from_code(0x01) == Some(PowerState::On),
{
}

/// The byte of each mute state in a packet is the one the Arcam protocol documents, and reading
/// that byte gives the mute state back.
pub proof fn lemma_mutestate_protocol_bytes()
    ensures
        MuteState::Muted.code() == 0x00,
        MuteState::NotMuted.code() == 0x01,
        MuteState::from_code(0x00) == Some(MuteState::Muted),
        MuteState::from_code(0x01) == Some(MuteState::NotMuted),
{
}

} // verus!
