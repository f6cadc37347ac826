//! The RC5 infra-red remote control commands that the amplifier accepts through the
//! `SimulateRC5IRCommand` command, and the pairs of bytes that stand for them.

use vstd::prelude::*;

verus! {

/// The RC5 commands used via the `SimulateRC5IRCommand` [Command].
///
/// The order of the variants is as it is written in the table of the documentation. It is
/// neither numeric order nor function order.
#[allow(non_camel_case_types)]
#[derive(Clone, Copy, Debug, PartialEq, Eq, Hash, Structural)]
pub enum RC5Command {
    Standby,
    One,
    Two,
    Three,
    Four,
    Five,
    Six,
    Seven,
    Eight,
    Nine,
    AccessLipsyncDelayControl,
    Zero,
    CycleBetweenVFDInformationPanels,
    Rewind,
    FastForward,
    SkipBack,
    SkipForward,
    Stop,
    Play,
    Pause,
    Disc_Record_EnterTrimMenu,
    MENU_EnterSystemMenu,
    NavigateUp,
    PopUp_DolbyVolumeOnOff,
    NavigateLeft,
    OK,
    NavigateRight,
    Audio_RoomEQOnOff,
    NavigateDown,
    RTN_AccessSubwooferTrimControl,
    HOME,
    Mute,
    IncreaseVolume,
    MODE_CycleBetweenDecodingModes,
    DISP_ChangeVFDBrightness,
    ActivateDIRECTMode,
    DecreaseVolume,
    Red,
    Green,
    Yellow,
    Blue,
    Radio,
    Aux,
    Net,
    USB,
    AV,
    Sat,
    PVR,
    Game,
    BD,
    CD,
    STB,
    VCR,
    Display,
    PowerOn,
    PowerOff,
    ChangeControlToNextZone,
    CycleBetweenOutputResolutions,
    AccessBassControl,
    AccessSpeakerTrimControls,
    AccessTrebleControl,
    Random,
    Repeat,
    DirectModeOn,
    DirectModeOff,
    MultiChannel,
    Stereo,
    DolbySurround,
    DTSNeo6Cinema,
    DTSNeo6Music,
    DTSNeuralX,
    Reserved,
    DTSVirtualX,
    FiveSevenChannelStereo,
    DolbyDEX,
    MuteOn,
    MuteOff,
    FM,
    DAB,
    LipSyncPlus5ms,
    LipSyncMinus5ms,
    SubTrimPlusHalfDb,
    SubTrimMinusHalfDb,
    DisplayOff,
    DisplayL1,
    DisplayL2,
    BalanceLeft,
    BalanceRight,
    BassPlus1,
    BassMinus1,
    TreblePlus1,
    TrebleMinus1,
    SetZone2ToFollowZone1,
    Zone2PowerOn,
    Zone2PowerOff,
    Zone2VolumePlus,
    Zone2VolumeMinus,
    Zone2Mute,
    Zone2MuteOn,
    Zone2MuteOff,
    Zone2CD,
    Zone2BD,
    Zone2STB,
    Zone2AV,
    Zone2Game,
    Zone2Aux,
    Zone2PVR,
    Zone2FM,
    Zone2DAB,
    Zone2USB,
    Zone2NET,
    Zone2Sat,
    Zone2VCR,
    SelectHDMIOut1,
    SelectHDMIOut2,
    SelectHDMIOut1And2,
}

impl RC5Command {
    /// The pair of bytes that stands for this command in a packet.
    pub open spec fn data(self) -> (u8, u8) {
        match self {
            RC5Command::Standby => (0x10, 0x0c),
            RC5Command::One => (0x10, 0x01),
            RC5Command::Two => (0x10, 0x02),
            RC5Command::Three => (0x10, 0x03),
            RC5Command::Four => (0x10, 0x04),
            RC5Command::Five => (0x10, 0x05),
            RC5Command::Six => (0x10, 0x06),
            RC5Command::Seven => (0x10, 0x07),
            RC5Command::Eight => (0x10, 0x08),
            RC5Command::Nine => (0x10, 0x09),
            RC5Command::AccessLipsyncDelayControl => (0x10, 0x32),
            RC5Command::Zero => (0x10, 0x00),
            RC5Command::CycleBetweenVFDInformationPanels => (0x10, 0x37),
            RC5Command::Rewind => (0x10, 0x79),
            RC5Command::FastForward => (0x10, 0x34),
            RC5Command::SkipBack => (0x10, 0x21),
            RC5Command::SkipForward => (0x10, 0x0b),
            RC5Command::Stop => (0x10, 0x36),
            RC5Command::Play => (0x10, 0x35),
            RC5Command::Pause => (0x10, 0x30),
            RC5Command::Disc_Record_EnterTrimMenu => (0x10, 0x5a),
            RC5Command::MENU_EnterSystemMenu => (0x10, 0x52),
            RC5Command::NavigateUp => (0x10, 0x56),
            RC5Command::PopUp_DolbyVolumeOnOff => (0x10, 0x46),
            RC5Command::NavigateLeft => (0x10, 0x51),
            RC5Command::OK => (0x10, 0x57),
            RC5Command::NavigateRight => (0x10, 0x50),
            RC5Command::Audio_RoomEQOnOff => (0x10, 0x1e),
            RC5Command::NavigateDown => (0x10, 0x55),
            RC5Command::RTN_AccessSubwooferTrimControl => (0x10, 0x33),
            RC5Command::HOME => (0x10, 0x2b),
            RC5Command::Mute => (0x10, 0x0d),
            RC5Command::IncreaseVolume => (0x10, 0x10),
            RC5Command::MODE_CycleBetweenDecodingModes => (0x10, 0x20),
            RC5Command::DISP_ChangeVFDBrightness => (0x10, 0x3b),
            RC5Command::ActivateDIRECTMode => (0x10, 0x0a),
            RC5Command::DecreaseVolume => (0x10, 0x11),
            RC5Command::Red => (0x10, 0x29),
            RC5Command::Green => (0x10, 0x2a),
            RC5Command::Yellow => (0x10, 0x2b),
            RC5Command::Blue => (0x10, 0x37),
            RC5Command::Radio => (0x10, 0x5b),
            RC5Command::Aux => (0x10, 0x63),
            RC5Command::Net => (0x10, 0x5c),
            RC5Command::USB => (0x10, 0x5d),
            RC5Command::AV => (0x10, 0x5e),
            RC5Command::Sat => (0x10, 0x1b),
            RC5Command::PVR => (0x10, 0x60),
            RC5Command::Game => (0x10, 0x61),
            RC5Command::BD => (0x10, 0x62),
            RC5Command::CD => (0x10, 0x76),
            RC5Command::STB => (0x10, 0x64),
            RC5Command::VCR => (0x10, 0x77),
            RC5Command::Display => (0x10, 0x3a),
            RC5Command::PowerOn => (0x10, 0x7b),
            RC5Command::PowerOff => (0x10, 0x7c),
            RC5Command::ChangeControlToNextZone => (0x10, 0x5f),
            RC5Command::CycleBetweenOutputResolutions => (0x10, 0x2f),
            RC5Command::AccessBassControl => (0x10, 0x27),
            RC5Command::AccessSpeakerTrimControls => (0x10, 0x25),
            RC5Command::AccessTrebleControl => (0x10, 0x0e),
            RC5Command::Random => (0x10, 0x4c),
            RC5Command::Repeat => (0x10, 0x31),
            RC5Command::DirectModeOn => (0x10, 0x4e),
            RC5Command::DirectModeOff => (0x10, 0x4f),
            RC5Command::MultiChannel => (0x10, 0x6a),
            RC5Command::Stereo => (0x10, 0x6b),
            RC5Command::DolbySurround => (0x10, 0x6e),
            RC5Command::DTSNeo6Cinema => (0x10, 0x6f),
            RC5Command::DTSNeo6Music => (0x10, 0x70),
            RC5Command::DTSNeuralX => (0x10, 0x71),
            RC5Command::Reserved => (0x10, 0x72),
            RC5Command::DTSVirtualX => (0x10, 0x73),
            RC5Command::FiveSevenChannelStereo => (0x10, 0x45),
            RC5Command::DolbyDEX => (0x10, 0x17),
            RC5Command::MuteOn => (0x10, 0x1a),
            RC5Command::MuteOff => (0x10, 0x78),
            RC5Command::FM => (0x10, 0x1c),
            RC5Command::DAB => (0x10, 0x48),
            RC5Command::LipSyncPlus5ms => (0x10, 0x0f),
            RC5Command::LipSyncMinus5ms => (0x10, 0x65),
            RC5Command::SubTrimPlusHalfDb => (0x10, 0x69),
            RC5Command::SubTrimMinusHalfDb => (0x10, 0x6c),
            RC5Command::DisplayOff => (0x10, 0x1f),
            RC5Command::DisplayL1 => (0x10, 0x22),
            RC5Command::DisplayL2 => (0x10, 0x23),
            RC5Command::BalanceLeft => (0x10, 0x26),
            RC5Command::BalanceRight => (0x10, 0x28),
            RC5Command::BassPlus1 => (0x10, 0x2c),
            RC5Command::BassMinus1 => (0x10, 0x2d),
            RC5Command::TreblePlus1 => (0x10, 0x2e),
            RC5Command::TrebleMinus1 => (0x10, 0x66),
            RC5Command::SetZone2ToFollowZone1 => (0x10, 0x14),
            RC5Command::Zone2PowerOn => (0x17, 0x7b),
            RC5Command::Zone2PowerOff => (0x17, 0x7c),
            RC5Command::Zone2VolumePlus => (0x17, 0x01),
            RC5Command::Zone2VolumeMinus => (0x17, 0x02),
            RC5Command::Zone2Mute => (0x17, 0x03),
            RC5Command::Zone2MuteOn => (0x17, 0x04),
            RC5Command::Zone2MuteOff => (0x17, 0x05),
            RC5Command::Zone2CD => (0x17, 0x06),
            RC5Command::Zone2BD => (0x17, 0x07),
            RC5Command::Zone2STB => (0x17, 0x08),
            RC5Command::Zone2AV => (0x17, 0x09),
            RC5Command::Zone2Game => (0x17, 0x0b),
            RC5Command::Zone2Aux => (0x17, 0x0d),
            RC5Command::Zone2PVR => (0x17, 0x0f),
            RC5Command::Zone2FM => (0x17, 0x0e),
            RC5Command::Zone2DAB => (0x17, 0x10),
            RC5Command::Zone2USB => (0x17, 0x12),
            RC5Command::Zone2NET => (0x17, 0x13),
            RC5Command::Zone2Sat => (0x17, 0x14),
            RC5Command::Zone2VCR => (0x17, 0x15),
            RC5Command::SelectHDMIOut1 => (0x10, 0x49),
            RC5Command::SelectHDMIOut2 => (0x10, 0x4a),
            RC5Command::SelectHDMIOut1And2 => (0x10, 0x4b),
        }
    }

    /// The command that a pair of bytes stands for, if any. Two pairs are written twice in
    /// the documentation; each stands for the first command written with it.
    pub open spec fn decoded(value: (u8, u8)) -> Option<RC5Command> {
        match value {
            (0x10, 0x0c) => Some(RC5Command::Standby),
            (0x10, 0x01) => Some(RC5Command::One),
            (0x10, 0x02) => Some(RC5Command::Two),
            (0x10, 0x03) => Some(RC5Command::Three),
            (0x10, 0x04) => Some(RC5Command::Four),
            (0x10, 0x05) => Some(RC5Command::Five),
            (0x10, 0x06) => Some(RC5Command::Six),
            (0x10, 0x07) => Some(RC5Command::Seven),
            (0x10, 0x08) => Some(RC5Command::Eight),
            (0x10, 0x09) => Some(RC5Command::Nine),
            (0x10, 0x32) => Some(RC5Command::AccessLipsyncDelayControl),
            (0x10, 0x00) => Some(RC5Command::Zero),
            (0x10, 0x37) => Some(RC5Command::CycleBetweenVFDInformationPanels),
            (0x10, 0x79) => Some(RC5Command::Rewind),
            (0x10, 0x34) => Some(RC5Command::FastForward),
            (0x10, 0x21) => Some(RC5Command::SkipBack),
            (0x10, 0x0b) => Some(RC5Command::SkipForward),
            (0x10, 0x36) => Some(RC5Command::Stop),
            (0x10, 0x35) => Some(RC5Command::Play),
            (0x10, 0x30) => Some(RC5Command::Pause),
            (0x10, 0x5a) => Some(RC5Command::Disc_Record_EnterTrimMenu),
            (0x10, 0x52) => Some(RC5Command::MENU_EnterSystemMenu),
            (0x10, 0x56) => Some(RC5Command::NavigateUp),
            (0x10, 0x46) => Some(RC5Command::PopUp_DolbyVolumeOnOff),
            (0x10, 0x51) => Some(RC5Command::NavigateLeft),
            (0x10, 0x57) => Some(RC5Command::OK),
            (0x10, 0x50) => Some(RC5Command::NavigateRight),
            (0x10, 0x1e) => Some(RC5Command::Audio_RoomEQOnOff),
            (0x10, 0x55) => Some(RC5Command::NavigateDown),
            (0x10, 0x33) => Some(RC5Command::RTN_AccessSubwooferTrimControl),
            (0x10, 0x2b) => Some(RC5Command::HOME),
            (0x10, 0x0d) => Some(RC5Command::Mute),
            (0x10, 0x10) => Some(RC5Command::IncreaseVolume),
            (0x10, 0x20) => Some(RC5Command::MODE_CycleBetweenDecodingModes),
            (0x10, 0x3b) => Some(RC5Command::DISP_ChangeVFDBrightness),
            (0x10, 0x0a) => Some(RC5Command::ActivateDIRECTMode),
            (0x10, 0x11) => Some(RC5Command::DecreaseVolume),
            (0x10, 0x29) => Some(RC5Command::Red),
            (0x10, 0x2a) => Some(RC5Command::Green),
            // (0x10, 0x2b) also stands for Yellow; the arm above wins.
            // (0x10, 0x37) also stands for Blue; the arm above wins.
            (0x10, 0x5b) => Some(RC5Command::Radio),
            (0x10, 0x63) => Some(RC5Command::Aux),
            (0x10, 0x5c) => Some(RC5Command::Net),
            (0x10, 0x5d) => Some(RC5Command::USB),
            (0x10, 0x5e) => Some(RC5Command::AV),
            (0x10, 0x1b) => Some(RC5Command::Sat),
            (0x10, 0x60) => Some(RC5Command::PVR),
            (0x10, 0x61) => Some(RC5Command::Game),
            (0x10, 0x62) => Some(RC5Command::BD),
            (0x10, 0x76) => Some(RC5Command::CD),
            (0x10, 0x64) => Some(RC5Command::STB),
            (0x10, 0x77) => Some(RC5Command::VCR),
            (0x10, 0x3a) => Some(RC5Command::Display),
            (0x10, 0x7b) => Some(RC5Command::PowerOn),
            (0x10, 0x7c) => Some(RC5Command::PowerOff),
            (0x10, 0x5f) => Some(RC5Command::ChangeControlToNextZone),
            (0x10, 0x2f) => Some(RC5Command::CycleBetweenOutputResolutions),
            (0x10, 0x27) => Some(RC5Command::AccessBassControl),
            (0x10, 0x25) => Some(RC5Command::AccessSpeakerTrimControls),
            (0x10, 0x0e) => Some(RC5Command::AccessTrebleControl),
            (0x10, 0x4c) => Some(RC5Command::Random),
            (0x10, 0x31) => Some(RC5Command::Repeat),
            (0x10, 0x4e) => Some(RC5Command::DirectModeOn),
            (0x10, 0x4f) => Some(RC5Command::DirectModeOff),
            (0x10, 0x6a) => Some(RC5Command::MultiChannel),
            (0x10, 0x6b) => Some(RC5Command::Stereo),
            (0x10, 0x6e) => Some(RC5Command::DolbySurround),
            (0x10, 0x6f) => Some(RC5Command::DTSNeo6Cinema),
            (0x10, 0x70) => Some(RC5Command::DTSNeo6Music),
            (0x10, 0x71) => Some(RC5Command::DTSNeuralX),
            (0x10, 0x72) => Some(RC5Command::Reserved),
            (0x10, 0x73) => Some(RC5Command::DTSVirtualX),
            (0x10, 0x45) => Some(RC5Command::FiveSevenChannelStereo),
            (0x10, 0x17) => Some(RC5Command::DolbyDEX),
            (0x10, 0x1a) => Some(RC5Command::MuteOn),
            (0x10, 0x78) => Some(RC5Command::MuteOff),
            (0x10, 0x1c) => Some(RC5Command::FM),
            (0x10, 0x48) => Some(RC5Command::DAB),
            (0x10, 0x0f) => Some(RC5Command::LipSyncPlus5ms),
            (0x10, 0x65) => Some(RC5Command::LipSyncMinus5ms),
            (0x10, 0x69) => Some(RC5Command::SubTrimPlusHalfDb),
            (0x10, 0x6c) => Some(RC5Command::SubTrimMinusHalfDb),
            (0x10, 0x1f) => Some(RC5Command::DisplayOff),
            (0x10, 0x22) => Some(RC5Command::DisplayL1),
            (0x10, 0x23) => Some(RC5Command::DisplayL2),
            (0x10, 0x26) => Some(RC5Command::BalanceLeft),
            (0x10, 0x28) => Some(RC5Command::BalanceRight),
            (0x10, 0x2c) => Some(RC5Command::BassPlus1),
            (0x10, 0x2d) => Some(RC5Command::BassMinus1),
            (0x10, 0x2e) => Some(RC5Command::TreblePlus1),
            (0x10, 0x66) => Some(RC5Command::TrebleMinus1),
            (0x10, 0x14) => Some(RC5Command::SetZone2ToFollowZone1),
            (0x17, 0x7b) => Some(RC5Command::Zone2PowerOn),
            (0x17, 0x7c) => Some(RC5Command::Zone2PowerOff),
            (0x17, 0x01) => Some(RC5Command::Zone2VolumePlus),
            (0x17, 0x02) => Some(RC5Command::Zone2VolumeMinus),
            (0x17, 0x03) => Some(RC5Command::Zone2Mute),
            (0x17, 0x04) => Some(RC5Command::Zone2MuteOn),
            (0x17, 0x05) => Some(RC5Command::Zone2MuteOff),
            (0x17, 0x06) => Some(RC5Command::Zone2CD),
            (0x17, 0x07) => Some(RC5Command::Zone2BD),
            (0x17, 0x08) => Some(RC5Command::Zone2STB),
            (0x17, 0x09) => Some(RC5Command::Zone2AV),
            (0x17, 0x0b) => Some(RC5Command::Zone2Game),
            (0x17, 0x0d) => Some(RC5Command::Zone2Aux),
            (0x17, 0x0f) => Some(RC5Command::Zone2PVR),
            (0x17, 0x0e) => Some(RC5Command::Zone2FM),
            (0x17, 0x10) => Some(RC5Command::Zone2DAB),
            (0x17, 0x12) => Some(RC5Command::Zone2USB),
            (0x17, 0x13) => Some(RC5Command::Zone2NET),
            (0x17, 0x14) => Some(RC5Command::Zone2Sat),
            (0x17, 0x15) => Some(RC5Command::Zone2VCR),
            (0x10, 0x49) => Some(RC5Command::SelectHDMIOut1),
            (0x10, 0x4a) => Some(RC5Command::SelectHDMIOut2),
            (0x10, 0x4b) => Some(RC5Command::SelectHDMIOut1And2),
            _ => None,
        }
    }

    /// The command that a pair of bytes stands for; `None` where it stands for none. This
    /// tells a caller whether [RC5Command::from_data] may be called on the pair.
    pub fn decode(value: (u8, u8)) -> (r: Option<RC5Command>)
        ensures
            r == RC5Command::decoded(value),
    {
        match value {
            (0x10, 0x0c) => Some(RC5Command::Standby),
            (0x10, 0x01) => Some(RC5Command::One),
            (0x10, 0x02) => Some(RC5Command::Two),
            (0x10, 0x03) => Some(RC5Command::Three),
            (0x10, 0x04) => Some(RC5Command::Four),
            (0x10, 0x05) => Some(RC5Command::Five),
            (0x10, 0x06) => Some(RC5Command::Six),
            (0x10, 0x07) => Some(RC5Command::Seven),
            (0x10, 0x08) => Some(RC5Command::Eight),
            (0x10, 0x09) => Some(RC5Command::Nine),
            (0x10, 0x32) => Some(RC5Command::AccessLipsyncDelayControl),
            (0x10, 0x00) => Some(RC5Command::Zero),
            (0x10, 0x37) => Some(RC5Command::CycleBetweenVFDInformationPanels),
            (0x10, 0x79) => Some(RC5Command::Rewind),
            (0x10, 0x34) => Some(RC5Command::FastForward),
            (0x10, 0x21) => Some(RC5Command::SkipBack),
            (0x10, 0x0b) => Some(RC5Command::SkipForward),
            (0x10, 0x36) => Some(RC5Command::Stop),
            (0x10, 0x35) => Some(RC5Command::Play),
            (0x10, 0x30) => Some(RC5Command::Pause),
            (0x10, 0x5a) => Some(RC5Command::Disc_Record_EnterTrimMenu),
            (0x10, 0x52) => Some(RC5Command::MENU_EnterSystemMenu),
            (0x10, 0x56) => Some(RC5Command::NavigateUp),
            (0x10, 0x46) => Some(RC5Command::PopUp_DolbyVolumeOnOff),
            (0x10, 0x51) => Some(RC5Command::NavigateLeft),
            (0x10, 0x57) => Some(RC5Command::OK),
            (0x10, 0x50) => Some(RC5Command::NavigateRight),
            (0x10, 0x1e) => Some(RC5Command::Audio_RoomEQOnOff),
            (0x10, 0x55) => Some(RC5Command::NavigateDown),
            (0x10, 0x33) => Some(RC5Command::RTN_AccessSubwooferTrimControl),
            (0x10, 0x2b) => Some(RC5Command::HOME),
            (0x10, 0x0d) => Some(RC5Command::Mute),
            (0x10, 0x10) => Some(RC5Command::IncreaseVolume),
            (0x10, 0x20) => Some(RC5Command::MODE_CycleBetweenDecodingModes),
            (0x10, 0x3b) => Some(RC5Command::DISP_ChangeVFDBrightness),
            (0x10, 0x0a) => Some(RC5Command::ActivateDIRECTMode),
            (0x10, 0x11) => Some(RC5Command::DecreaseVolume),
            (0x10, 0x29) => Some(RC5Command::Red),
            (0x10, 0x2a) => Some(RC5Command::Green),
            // (0x10, 0x2b) also stands for Yellow; the arm above wins.
            // (0x10, 0x37) also stands for Blue; the arm above wins.
            (0x10, 0x5b) => Some(RC5Command::Radio),
            (0x10, 0x63) => Some(RC5Command::Aux),
            (0x10, 0x5c) => Some(RC5Command::Net),
            (0x10, 0x5d) => Some(RC5Command::USB),
            (0x10, 0x5e) => Some(RC5Command::AV),
            (0x10, 0x1b) => Some(RC5Command::Sat),
            (0x10, 0x60) => Some(RC5Command::PVR),
            (0x10, 0x61) => Some(RC5Command::Game),
            (0x10, 0x62) => Some(RC5Command::BD),
            (0x10, 0x76) => Some(RC5Command::CD),
            (0x10, 0x64) => Some(RC5Command::STB),
            (0x10, 0x77) => Some(RC5Command::VCR),
            (0x10, 0x3a) => Some(RC5Command::Display),
            (0x10, 0x7b) => Some(RC5Command::PowerOn),
            (0x10, 0x7c) => Some(RC5Command::PowerOff),
            (0x10, 0x5f) => Some(RC5Command::ChangeControlToNextZone),
            (0x10, 0x2f) => Some(RC5Command::CycleBetweenOutputResolutions),
            (0x10, 0x27) => Some(RC5Command::AccessBassControl),
            (0x10, 0x25) => Some(RC5Command::AccessSpeakerTrimControls),
            (0x10, 0x0e) => Some(RC5Command::AccessTrebleControl),
            (0x10, 0x4c) => Some(RC5Command::Random),
            (0x10, 0x31) => Some(RC5Command::Repeat),
            (0x10, 0x4e) => Some(RC5Command::DirectModeOn),
            (0x10, 0x4f) => Some(RC5Command::DirectModeOff),
            (0x10, 0x6a) => Some(RC5Command::MultiChannel),
            (0x10, 0x6b) => Some(RC5Command::Stereo),
            (0x10, 0x6e) => Some(RC5Command::DolbySurround),
            (0x10, 0x6f) => Some(RC5Command::DTSNeo6Cinema),
            (0x10, 0x70) => Some(RC5Command::DTSNeo6Music),
            (0x10, 0x71) => Some(RC5Command::DTSNeuralX),
            (0x10, 0x72) => Some(RC5Command::Reserved),
            (0x10, 0x73) => Some(RC5Command::DTSVirtualX),
            (0x10, 0x45) => Some(RC5Command::FiveSevenChannelStereo),
            (0x10, 0x17) => Some(RC5Command::DolbyDEX),
            (0x10, 0x1a) => Some(RC5Command::MuteOn),
            (0x10, 0x78) => Some(RC5Command::MuteOff),
            (0x10, 0x1c) => Some(RC5Command::FM),
            (0x10, 0x48) => Some(RC5Command::DAB),
            (0x10, 0x0f) => Some(RC5Command::LipSyncPlus5ms),
            (0x10, 0x65) => Some(RC5Command::LipSyncMinus5ms),
            (0x10, 0x69) => Some(RC5Command::SubTrimPlusHalfDb),
            (0x10, 0x6c) => Some(RC5Command::SubTrimMinusHalfDb),
            (0x10, 0x1f) => Some(RC5Command::DisplayOff),
            (0x10, 0x22) => Some(RC5Command::DisplayL1),
            (0x10, 0x23) => Some(RC5Command::DisplayL2),
            (0x10, 0x26) => Some(RC5Command::BalanceLeft),
            (0x10, 0x28) => Some(RC5Command::BalanceRight),
            (0x10, 0x2c) => Some(RC5Command::BassPlus1),
            (0x10, 0x2d) => Some(RC5Command::BassMinus1),
            (0x10, 0x2e) => Some(RC5Command::TreblePlus1),
            (0x10, 0x66) => Some(RC5Command::TrebleMinus1),
            (0x10, 0x14) => Some(RC5Command::SetZone2ToFollowZone1),
            (0x17, 0x7b) => Some(RC5Command::Zone2PowerOn),
            (0x17, 0x7c) => Some(RC5Command::Zone2PowerOff),
            (0x17, 0x01) => Some(RC5Command::Zone2VolumePlus),
            (0x17, 0x02) => Some(RC5Command::Zone2VolumeMinus),
            (0x17, 0x03) => Some(RC5Command::Zone2Mute),
            (0x17, 0x04) => Some(RC5Command::Zone2MuteOn),
            (0x17, 0x05) => Some(RC5Command::Zone2MuteOff),
            (0x17, 0x06) => Some(RC5Command::Zone2CD),
            (0x17, 0x07) => Some(RC5Command::Zone2BD),
            (0x17, 0x08) => Some(RC5Command::Zone2STB),
            (0x17, 0x09) => Some(RC5Command::Zone2AV),
            (0x17, 0x0b) => Some(RC5Command::Zone2Game),
            (0x17, 0x0d) => Some(RC5Command::Zone2Aux),
            (0x17, 0x0f) => Some(RC5Command::Zone2PVR),
            (0x17, 0x0e) => Some(RC5Command::Zone2FM),
            (0x17, 0x10) => Some(RC5Command::Zone2DAB),
            (0x17, 0x12) => Some(RC5Command::Zone2USB),
            (0x17, 0x13) => Some(RC5Command::Zone2NET),
            (0x17, 0x14) => Some(RC5Command::Zone2Sat),
            (0x17, 0x15) => Some(RC5Command::Zone2VCR),
            (0x10, 0x49) => Some(RC5Command::SelectHDMIOut1),
            (0x10, 0x4a) => Some(RC5Command::SelectHDMIOut2),
            (0x10, 0x4b) => Some(RC5Command::SelectHDMIOut1And2),
            _ => None,
        }
    }

    /// The command that a pair of bytes stands for. The pair must be that of a command: there
    /// is no command for any other pair.
    pub fn from_data(value: (u8, u8)) -> (r: RC5Command)
        requires
            RC5Command::decoded(value) is Some,
        ensures
            RC5Command::decoded(value) == Some(r),
            r.data() == value,
    {
        proof {
            lemma_rc5_decoded_is_data(value);
        }
        match RC5Command::decode(value) {
            Some(c) => c,
            None => RC5Command::Standby,
        }
    }

    /// The command that a two-byte data field stands for. The field must hold the pair of a
    /// command.
    pub fn from_vec(data: &Vec<u8>) -> (r: RC5Command)
        requires
            data@.len() == 2,
            RC5Command::decoded((data@[0], data@[1])) is Some,
        ensures
            RC5Command::decoded((data@[0], data@[1])) == Some(r),
            r.data() == (data@[0], data@[1]),
    {
        RC5Command::from_data((data[0], data[1]))
    }
}

impl RC5Command {
    /// The name of this value as it is written in the source, as `Debug` writes it.
    pub open spec fn spec_name(self) -> Seq<char> {
        match self {
            RC5Command::Standby => "Standby"@,
            RC5Command::One => "One"@,
            RC5Command::Two => "Two"@,
            RC5Command::Three => "Three"@,
            RC5Command::Four => "Four"@,
            RC5Command::Five => "Five"@,
            RC5Command::Six => "Six"@,
            RC5Command::Seven => "Seven"@,
            RC5Command::Eight => "Eight"@,
            RC5Command::Nine => "Nine"@,
            RC5Command::AccessLipsyncDelayControl => "AccessLipsyncDelayControl"@,
            RC5Command::Zero => "Zero"@,
            RC5Command::CycleBetweenVFDInformationPanels => "CycleBetweenVFDInformationPanels"@,
            RC5Command::Rewind => "Rewind"@,
            RC5Command::FastForward => "FastForward"@,
            RC5Command::SkipBack => "SkipBack"@,
            RC5Command::SkipForward => "SkipForward"@,
            RC5Command::Stop => "Stop"@,
            RC5Command::Play => "Play"@,
            RC5Command::Pause => "Pause"@,
            RC5Command::Disc_Record_EnterTrimMenu => "Disc_Record_EnterTrimMenu"@,
            RC5Command::MENU_EnterSystemMenu => "MENU_EnterSystemMenu"@,
            RC5Command::NavigateUp => "NavigateUp"@,
            RC5Command::PopUp_DolbyVolumeOnOff => "PopUp_DolbyVolumeOnOff"@,
            RC5Command::NavigateLeft => "NavigateLeft"@,
            RC5Command::OK => "OK"@,
            RC5Command::NavigateRight => "NavigateRight"@,
            RC5Command::Audio_RoomEQOnOff => "Audio_RoomEQOnOff"@,
            RC5Command::NavigateDown => "NavigateDown"@,
            RC5Command::RTN_AccessSubwooferTrimControl => "RTN_AccessSubwooferTrimControl"@,
            RC5Command::HOME => "HOME"@,
            RC5Command::Mute => "Mute"@,
            RC5Command::IncreaseVolume => "IncreaseVolume"@,
            RC5Command::MODE_CycleBetweenDecodingModes => "MODE_CycleBetweenDecodingModes"@,
            RC5Command::DISP_ChangeVFDBrightness => "DISP_ChangeVFDBrightness"@,
            RC5Command::ActivateDIRECTMode => "ActivateDIRECTMode"@,
            RC5Command::DecreaseVolume => "DecreaseVolume"@,
            RC5Command::Red => "Red"@,
            RC5Command::Green => "Green"@,
            RC5Command::Yellow => "Yellow"@,
            RC5Command::Blue => "Blue"@,
            RC5Command::Radio => "Radio"@,
            RC5Command::Aux => "Aux"@,
            RC5Command::Net => "Net"@,
            RC5Command::USB => "USB"@,
            RC5Command::AV => "AV"@,
            RC5Command::Sat => "Sat"@,
            RC5Command::PVR => "PVR"@,
            RC5Command::Game => "Game"@,
            RC5Command::BD => "BD"@,
            RC5Command::CD => "CD"@,
            RC5Command::STB => "STB"@,
            RC5Command::VCR => "VCR"@,
            RC5Command::Display => "Display"@,
            RC5Command::PowerOn => "PowerOn"@,
            RC5Command::PowerOff => "PowerOff"@,
            RC5Command::ChangeControlToNextZone => "ChangeControlToNextZone"@,
            RC5Command::CycleBetweenOutputResolutions => "CycleBetweenOutputResolutions"@,
            RC5Command::AccessBassControl => "AccessBassControl"@,
            RC5Command::AccessSpeakerTrimControls => "AccessSpeakerTrimControls"@,
            RC5Command::AccessTrebleControl => "AccessTrebleControl"@,
            RC5Command::Random => "Random"@,
            RC5Command::Repeat => "Repeat"@,
            RC5Command::DirectModeOn => "DirectModeOn"@,
            RC5Command::DirectModeOff => "DirectModeOff"@,
            RC5Command::MultiChannel => "MultiChannel"@,
            RC5Command::Stereo => "Stereo"@,
            RC5Command::DolbySurround => "DolbySurround"@,
            RC5Command::DTSNeo6Cinema => "DTSNeo6Cinema"@,
            RC5Command::DTSNeo6Music => "DTSNeo6Music"@,
            RC5Command::DTSNeuralX => "DTSNeuralX"@,
            RC5Command::Reserved => "Reserved"@,
            RC5Command::DTSVirtualX => "DTSVirtualX"@,
            RC5Command::FiveSevenChannelStereo => "FiveSevenChannelStereo"@,
            RC5Command::DolbyDEX => "DolbyDEX"@,
            RC5Command::MuteOn => "MuteOn"@,
            RC5Command::MuteOff => "MuteOff"@,
            RC5Command::FM => "FM"@,
            RC5Command::DAB => "DAB"@,
            RC5Command::LipSyncPlus5ms => "LipSyncPlus5ms"@,
            RC5Command::LipSyncMinus5ms => "LipSyncMinus5ms"@,
            RC5Command::SubTrimPlusHalfDb => "SubTrimPlusHalfDb"@,
            RC5Command::SubTrimMinusHalfDb => "SubTrimMinusHalfDb"@,
            RC5Command::DisplayOff => "DisplayOff"@,
            RC5Command::DisplayL1 => "DisplayL1"@,
            RC5Command::DisplayL2 => "DisplayL2"@,
            RC5Command::BalanceLeft => "BalanceLeft"@,
            RC5Command::BalanceRight => "BalanceRight"@,
            RC5Command::BassPlus1 => "BassPlus1"@,
            RC5Command::BassMinus1 => "BassMinus1"@,
            RC5Command::TreblePlus1 => "TreblePlus1"@,
            RC5Command::TrebleMinus1 => "TrebleMinus1"@,
            RC5Command::SetZone2ToFollowZone1 => "SetZone2ToFollowZone1"@,
            RC5Command::Zone2PowerOn => "Zone2PowerOn"@,
            RC5Command::Zone2PowerOff => "Zone2PowerOff"@,
            RC5Command::Zone2VolumePlus => "Zone2VolumePlus"@,
            RC5Command::Zone2VolumeMinus => "Zone2VolumeMinus"@,
            RC5Command::Zone2Mute => "Zone2Mute"@,
            RC5Command::Zone2MuteOn => "Zone2MuteOn"@,
            RC5Command::Zone2MuteOff => "Zone2MuteOff"@,
            RC5Command::Zone2CD => "Zone2CD"@,
            RC5Command::Zone2BD => "Zone2BD"@,
            RC5Command::Zone2STB => "Zone2STB"@,
            RC5Command::Zone2AV => "Zone2AV"@,
            RC5Command::Zone2Game => "Zone2Game"@,
            RC5Command::Zone2Aux => "Zone2Aux"@,
            RC5Command::Zone2PVR => "Zone2PVR"@,
            RC5Command::Zone2FM => "Zone2FM"@,
            RC5Command::Zone2DAB => "Zone2DAB"@,
            RC5Command::Zone2USB => "Zone2USB"@,
            RC5Command::Zone2NET => "Zone2NET"@,
            RC5Command::Zone2Sat => "Zone2Sat"@,
            RC5Command::Zone2VCR => "Zone2VCR"@,
            RC5Command::SelectHDMIOut1 => "SelectHDMIOut1"@,
            RC5Command::SelectHDMIOut2 => "SelectHDMIOut2"@,
            RC5Command::SelectHDMIOut1And2 => "SelectHDMIOut1And2"@,
        }
    }

    /// The name of this value as it is written in the source, as `Debug` writes it.
    pub fn name(self) -> (r: &'static str)
        ensures
            r@ == self.spec_name(),
    {
        match self {
            RC5Command::Standby => "Standby",
            RC5Command::One => "One",
            RC5Command::Two => "Two",
            RC5Command::Three => "Three",
            RC5Command::Four => "Four",
            RC5Command::Five => "Five",
            RC5Command::Six => "Six",
            RC5Command::Seven => "Seven",
            RC5Command::Eight => "Eight",
            RC5Command::Nine => "Nine",
            RC5Command::AccessLipsyncDelayControl => "AccessLipsyncDelayControl",
            RC5Command::Zero => "Zero",
            RC5Command::CycleBetweenVFDInformationPanels => "CycleBetweenVFDInformationPanels",
            RC5Command::Rewind => "Rewind",
            RC5Command::FastForward => "FastForward",
            RC5Command::SkipBack => "SkipBack",
            RC5Command::SkipForward => "SkipForward",
            RC5Command::Stop => "Stop",
            RC5Command::Play => "Play",
            RC5Command::Pause => "Pause",
            RC5Command::Disc_Record_EnterTrimMenu => "Disc_Record_EnterTrimMenu",
            RC5Command::MENU_EnterSystemMenu => "MENU_EnterSystemMenu",
            RC5Command::NavigateUp => "NavigateUp",
            RC5Command::PopUp_DolbyVolumeOnOff => "PopUp_DolbyVolumeOnOff",
            RC5Command::NavigateLeft => "NavigateLeft",
            RC5Command::OK => "OK",
            RC5Command::NavigateRight => "NavigateRight",
            RC5Command::Audio_RoomEQOnOff => "Audio_RoomEQOnOff",
            RC5Command::NavigateDown => "NavigateDown",
            RC5Command::RTN_AccessSubwooferTrimControl => "RTN_AccessSubwooferTrimControl",
            RC5Command::HOME => "HOME",
            RC5Command::Mute => "Mute",
            RC5Command::IncreaseVolume => "IncreaseVolume",
            RC5Command::MODE_CycleBetweenDecodingModes => "MODE_CycleBetweenDecodingModes",
            RC5Command::DISP_ChangeVFDBrightness => "DISP_ChangeVFDBrightness",
            RC5Command::ActivateDIRECTMode => "ActivateDIRECTMode",
            RC5Command::DecreaseVolume => "DecreaseVolume",
            RC5Command::Red => "Red",
            RC5Command::Green => "Green",
            RC5Command::Yellow => "Yellow",
            RC5Command::Blue => "Blue",
            RC5Command::Radio => "Radio",
            RC5Command::Aux => "Aux",
            RC5Command::Net => "Net",
            RC5Command::USB => "USB",
            RC5Command::AV => "AV",
            RC5Command::Sat => "Sat",
            RC5Command::PVR => "PVR",
            RC5Command::Game => "Game",
            RC5Command::BD => "BD",
            RC5Command::CD => "CD",
            RC5Command::STB => "STB",
            RC5Command::VCR => "VCR",
            RC5Command::Display => "Display",
            RC5Command::PowerOn => "PowerOn",
            RC5Command::PowerOff => "PowerOff",
            RC5Command::ChangeControlToNextZone => "ChangeControlToNextZone",
            RC5Command::CycleBetweenOutputResolutions => "CycleBetweenOutputResolutions",
            RC5Command::AccessBassControl => "AccessBassControl",
            RC5Command::AccessSpeakerTrimControls => "AccessSpeakerTrimControls",
            RC5Command::AccessTrebleControl => "AccessTrebleControl",
            RC5Command::Random => "Random",
            RC5Command::Repeat => "Repeat",
            RC5Command::DirectModeOn => "DirectModeOn",
            RC5Command::DirectModeOff => "DirectModeOff",
            RC5Command::MultiChannel => "MultiChannel",
            RC5Command::Stereo => "Stereo",
            RC5Command::DolbySurround => "DolbySurround",
            RC5Command::DTSNeo6Cinema => "DTSNeo6Cinema",
            RC5Command::DTSNeo6Music => "DTSNeo6Music",
            RC5Command::DTSNeuralX => "DTSNeuralX",
            RC5Command::Reserved => "Reserved",
            RC5Command::DTSVirtualX => "DTSVirtualX",
            RC5Command::FiveSevenChannelStereo => "FiveSevenChannelStereo",
            RC5Command::DolbyDEX => "DolbyDEX",
            RC5Command::MuteOn => "MuteOn",
            RC5Command::MuteOff => "MuteOff",
            RC5Command::FM => "FM",
            RC5Command::DAB => "DAB",
            RC5Command::LipSyncPlus5ms => "LipSyncPlus5ms",
            RC5Command::LipSyncMinus5ms => "LipSyncMinus5ms",
            RC5Command::SubTrimPlusHalfDb => "SubTrimPlusHalfDb",
            RC5Command::SubTrimMinusHalfDb => "SubTrimMinusHalfDb",
            RC5Command::DisplayOff => "DisplayOff",
            RC5Command::DisplayL1 => "DisplayL1",
            RC5Command::DisplayL2 => "DisplayL2",
            RC5Command::BalanceLeft => "BalanceLeft",
            RC5Command::BalanceRight => "BalanceRight",
            RC5Command::BassPlus1 => "BassPlus1",
            RC5Command::BassMinus1 => "BassMinus1",
            RC5Command::TreblePlus1 => "TreblePlus1",
            RC5Command::TrebleMinus1 => "TrebleMinus1",
            RC5Command::SetZone2ToFollowZone1 => "SetZone2ToFollowZone1",
            RC5Command::Zone2PowerOn => "Zone2PowerOn",
            RC5Command::Zone2PowerOff => "Zone2PowerOff",
            RC5Command::Zone2VolumePlus => "Zone2VolumePlus",
            RC5Command::Zone2VolumeMinus => "Zone2VolumeMinus",
            RC5Command::Zone2Mute => "Zone2Mute",
            RC5Command::Zone2MuteOn => "Zone2MuteOn",
            RC5Command::Zone2MuteOff => "Zone2MuteOff",
            RC5Command::Zone2CD => "Zone2CD",
            RC5Command::Zone2BD => "Zone2BD",
            RC5Command::Zone2STB => "Zone2STB",
            RC5Command::Zone2AV => "Zone2AV",
            RC5Command::Zone2Game => "Zone2Game",
            RC5Command::Zone2Aux => "Zone2Aux",
            RC5Command::Zone2PVR => "Zone2PVR",
            RC5Command::Zone2FM => "Zone2FM",
            RC5Command::Zone2DAB => "Zone2DAB",
            RC5Command::Zone2USB => "Zone2USB",
            RC5Command::Zone2NET => "Zone2NET",
            RC5Command::Zone2Sat => "Zone2Sat",
            RC5Command::Zone2VCR => "Zone2VCR",
            RC5Command::SelectHDMIOut1 => "SelectHDMIOut1",
            RC5Command::SelectHDMIOut2 => "SelectHDMIOut2",
            RC5Command::SelectHDMIOut1And2 => "SelectHDMIOut1And2",
        }
    }
}

/// The pair of bytes that stands for an RC5 command.
pub fn get_rc5command_data(rc5command: RC5Command) -> (r: (u8, u8))
    ensures
        r == rc5command.data(),
{
    match rc5command {
        RC5Command::Standby => (0x10, 0x0c),
        RC5Command::One => (0x10, 0x01),
        RC5Command::Two => (0x10, 0x02),
        RC5Command::Three => (0x10, 0x03),
        RC5Command::Four => (0x10, 0x04),
        RC5Command::Five => (0x10, 0x05),
        RC5Command::Six => (0x10, 0x06),
        RC5Command::Seven => (0x10, 0x07),
        RC5Command::Eight => (0x10, 0x08),
        RC5Command::Nine => (0x10, 0x09),
        RC5Command::AccessLipsyncDelayControl => (0x10, 0x32),
        RC5Command::Zero => (0x10, 0x00),
        RC5Command::CycleBetweenVFDInformationPanels => (0x10, 0x37),
        RC5Command::Rewind => (0x10, 0x79),
        RC5Command::FastForward => (0x10, 0x34),
        RC5Command::SkipBack => (0x10, 0x21),
        RC5Command::SkipForward => (0x10, 0x0b),
        RC5Command::Stop => (0x10, 0x36),
        RC5Command::Play => (0x10, 0x35),
        RC5Command::Pause => (0x10, 0x30),
        RC5Command::Disc_Record_EnterTrimMenu => (0x10, 0x5a),
        RC5Command::MENU_EnterSystemMenu => (0x10, 0x52),
        RC5Command::NavigateUp => (0x10, 0x56),
        RC5Command::PopUp_DolbyVolumeOnOff => (0x10, 0x46),
        RC5Command::NavigateLeft => (0x10, 0x51),
        RC5Command::OK => (0x10, 0x57),
        RC5Command::NavigateRight => (0x10, 0x50),
        RC5Command::Audio_RoomEQOnOff => (0x10, 0x1e),
        RC5Command::NavigateDown => (0x10, 0x55),
        RC5Command::RTN_AccessSubwooferTrimControl => (0x10, 0x33),
        RC5Command::HOME => (0x10, 0x2b),
        RC5Command::Mute => (0x10, 0x0d),
        RC5Command::IncreaseVolume => (0x10, 0x10),
        RC5Command::MODE_CycleBetweenDecodingModes => (0x10, 0x20),
        RC5Command::DISP_ChangeVFDBrightness => (0x10, 0x3b),
        RC5Command::ActivateDIRECTMode => (0x10, 0x0a),
        RC5Command::DecreaseVolume => (0x10, 0x11),
        RC5Command::Red => (0x10, 0x29),
        RC5Command::Green => (0x10, 0x2a),
        RC5Command::Yellow => (0x10, 0x2b),
        RC5Command::Blue => (0x10, 0x37),
        RC5Command::Radio => (0x10, 0x5b),
        RC5Command::Aux => (0x10, 0x63),
        RC5Command::Net => (0x10, 0x5c),
        RC5Command::USB => (0x10, 0x5d),
        RC5Command::AV => (0x10, 0x5e),
        RC5Command::Sat => (0x10, 0x1b),
        RC5Command::PVR => (0x10, 0x60),
        RC5Command::Game => (0x10, 0x61),
        RC5Command::BD => (0x10, 0x62),
        RC5Command::CD => (0x10, 0x76),
        RC5Command::STB => (0x10, 0x64),
        RC5Command::VCR => (0x10, 0x77),
        RC5Command::Display => (0x10, 0x3a),
        RC5Command::PowerOn => (0x10, 0x7b),
        RC5Command::PowerOff => (0x10, 0x7c),
        RC5Command::ChangeControlToNextZone => (0x10, 0x5f),
        RC5Command::CycleBetweenOutputResolutions => (0x10, 0x2f),
        RC5Command::AccessBassControl => (0x10, 0x27),
        RC5Command::AccessSpeakerTrimControls => (0x10, 0x25),
        RC5Command::AccessTrebleControl => (0x10, 0x0e),
        RC5Command::Random => (0x10, 0x4c),
        RC5Command::Repeat => (0x10, 0x31),
        RC5Command::DirectModeOn => (0x10, 0x4e),
        RC5Command::DirectModeOff => (0x10, 0x4f),
        RC5Command::MultiChannel => (0x10, 0x6a),
        RC5Command::Stereo => (0x10, 0x6b),
        RC5Command::DolbySurround => (0x10, 0x6e),
        RC5Command::DTSNeo6Cinema => (0x10, 0x6f),
        RC5Command::DTSNeo6Music => (0x10, 0x70),
        RC5Command::DTSNeuralX => (0x10, 0x71),
        RC5Command::Reserved => (0x10, 0x72),
        RC5Command::DTSVirtualX => (0x10, 0x73),
        RC5Command::FiveSevenChannelStereo => (0x10, 0x45),
        RC5Command::DolbyDEX => (0x10, 0x17),
        RC5Command::MuteOn => (0x10, 0x1a),
        RC5Command::MuteOff => (0x10, 0x78),
        RC5Command::FM => (0x10, 0x1c),
        RC5Command::DAB => (0x10, 0x48),
        RC5Command::LipSyncPlus5ms => (0x10, 0x0f),
        RC5Command::LipSyncMinus5ms => (0x10, 0x65),
        RC5Command::SubTrimPlusHalfDb => (0x10, 0x69),
        RC5Command::SubTrimMinusHalfDb => (0x10, 0x6c),
        RC5Command::DisplayOff => (0x10, 0x1f),
        RC5Command::DisplayL1 => (0x10, 0x22),
        RC5Command::DisplayL2 => (0x10, 0x23),
        RC5Command::BalanceLeft => (0x10, 0x26),
        RC5Command::BalanceRight => (0x10, 0x28),
        RC5Command::BassPlus1 => (0x10, 0x2c),
        RC5Command::BassMinus1 => (0x10, 0x2d),
        RC5Command::TreblePlus1 => (0x10, 0x2e),
        RC5Command::TrebleMinus1 => (0x10, 0x66),
        RC5Command::SetZone2ToFollowZone1 => (0x10, 0x14),
        RC5Command::Zone2PowerOn => (0x17, 0x7b),
        RC5Command::Zone2PowerOff => (0x17, 0x7c),
        RC5Command::Zone2VolumePlus => (0x17, 0x01),
        RC5Command::Zone2VolumeMinus => (0x17, 0x02),
        RC5Command::Zone2Mute => (0x17, 0x03),
        RC5Command::Zone2MuteOn => (0x17, 0x04),
        RC5Command::Zone2MuteOff => (0x17, 0x05),
        RC5Command::Zone2CD => (0x17, 0x06),
        RC5Command::Zone2BD => (0x17, 0x07),
        RC5Command::Zone2STB => (0x17, 0x08),
        RC5Command::Zone2AV => (0x17, 0x09),
        RC5Command::Zone2Game => (0x17, 0x0b),
        RC5Command::Zone2Aux => (0x17, 0x0d),
        RC5Command::Zone2PVR => (0x17, 0x0f),
        RC5Command::Zone2FM => (0x17, 0x0e),
        RC5Command::Zone2DAB => (0x17, 0x10),
        RC5Command::Zone2USB => (0x17, 0x12),
        RC5Command::Zone2NET => (0x17, 0x13),
        RC5Command::Zone2Sat => (0x17, 0x14),
        RC5Command::Zone2VCR => (0x17, 0x15),
        RC5Command::SelectHDMIOut1 => (0x10, 0x49),
        RC5Command::SelectHDMIOut2 => (0x10, 0x4a),
        RC5Command::SelectHDMIOut1And2 => (0x10, 0x4b),
    }
}

/// Every command decodes from its pair of bytes, except the two that share their pair with a
/// command written before them in the documentation.
pub proof fn lemma_rc5_data_decodes(c: RC5Command)
    ensures
        RC5Command::decoded(c.data()) == Some(
            if c == RC5Command::Yellow {
                RC5Command::HOME
            } else if c == RC5Command::Blue {
                RC5Command::CycleBetweenVFDInformationPanels
            } else {
                c
            },
        ),
{
    match c {
        RC5Command::Standby => {},
        RC5Command::One => {},
        RC5Command::Two => {},
        RC5Command::Three => {},
        RC5Command::Four => {},
        RC5Command::Five => {},
        RC5Command::Six => {},
        RC5Command::Seven => {},
        RC5Command::Eight => {},
        RC5Command::Nine => {},
        RC5Command::AccessLipsyncDelayControl => {},
        RC5Command::Zero => {},
        RC5Command::CycleBetweenVFDInformationPanels => {},
        RC5Command::Rewind => {},
        RC5Command::FastForward => {},
        RC5Command::SkipBack => {},
        RC5Command::SkipForward => {},
        RC5Command::Stop => {},
        RC5Command::Play => {},
        RC5Command::Pause => {},
        RC5Command::Disc_Record_EnterTrimMenu => {},
        RC5Command::MENU_EnterSystemMenu => {},
        RC5Command::NavigateUp => {},
        RC5Command::PopUp_DolbyVolumeOnOff => {},
        RC5Command::NavigateLeft => {},
        RC5Command::OK => {},
        RC5Command::NavigateRight => {},
        RC5Command::Audio_RoomEQOnOff => {},
        RC5Command::NavigateDown => {},
        RC5Command::RTN_AccessSubwooferTrimControl => {},
        RC5Command::HOME => {},
        RC5Command::Mute => {},
        RC5Command::IncreaseVolume => {},
        RC5Command::MODE_CycleBetweenDecodingModes => {},
        RC5Command::DISP_ChangeVFDBrightness => {},
        RC5Command::ActivateDIRECTMode => {},
        RC5Command::DecreaseVolume => {},
        RC5Command::Red => {},
        RC5Command::Green => {},
        RC5Command::Yellow => {},
        RC5Command::Blue => {},
        RC5Command::Radio => {},
        RC5Command::Aux => {},
        RC5Command::Net => {},
        RC5Command::USB => {},
        RC5Command::AV => {},
        RC5Command::Sat => {},
        RC5Command::PVR => {},
        RC5Command::Game => {},
        RC5Command::BD => {},
        RC5Command::CD => {},
        RC5Command::STB => {},
        RC5Command::VCR => {},
        RC5Command::Display => {},
        RC5Command::PowerOn => {},
        RC5Command::PowerOff => {},
        RC5Command::ChangeControlToNextZone => {},
        RC5Command::CycleBetweenOutputResolutions => {},
        RC5Command::AccessBassControl => {},
        RC5Command::AccessSpeakerTrimControls => {},
        RC5Command::AccessTrebleControl => {},
        RC5Command::Random => {},
        RC5Command::Repeat => {},
        RC5Command::DirectModeOn => {},
        RC5Command::DirectModeOff => {},
        RC5Command::MultiChannel => {},
        RC5Command::Stereo => {},
        RC5Command::DolbySurround => {},
        RC5Command::DTSNeo6Cinema => {},
        RC5Command::DTSNeo6Music => {},
        RC5Command::DTSNeuralX => {},
        RC5Command::Reserved => {},
        RC5Command::DTSVirtualX => {},
        RC5Command::FiveSevenChannelStereo => {},
        RC5Command::DolbyDEX => {},
        RC5Command::MuteOn => {},
        RC5Command::MuteOff => {},
        RC5Command::FM => {},
        RC5Command::DAB => {},
        RC5Command::LipSyncPlus5ms => {},
        RC5Command::LipSyncMinus5ms => {},
        RC5Command::SubTrimPlusHalfDb => {},
        RC5Command::SubTrimMinusHalfDb => {},
        RC5Command::DisplayOff => {},
        RC5Command::DisplayL1 => {},
        RC5Command::DisplayL2 => {},
        RC5Command::BalanceLeft => {},
        RC5Command::BalanceRight => {},
        RC5Command::BassPlus1 => {},
        RC5Command::BassMinus1 => {},
        RC5Command::TreblePlus1 => {},
        RC5Command::TrebleMinus1 => {},
        RC5Command::SetZone2ToFollowZone1 => {},
        RC5Command::Zone2PowerOn => {},
        RC5Command::Zone2PowerOff => {},
        RC5Command::Zone2VolumePlus => {},
        RC5Command::Zone2VolumeMinus => {},
        RC5Command::Zone2Mute => {},
        RC5Command::Zone2MuteOn => {},
        RC5Command::Zone2MuteOff => {},
        RC5Command::Zone2CD => {},
        RC5Command::Zone2BD => {},
        RC5Command::Zone2STB => {},
        RC5Command::Zone2AV => {},
        RC5Command::Zone2Game => {},
        RC5Command::Zone2Aux => {},
        RC5Command::Zone2PVR => {},
        RC5Command::Zone2FM => {},
        RC5Command::Zone2DAB => {},
        RC5Command::Zone2USB => {},
        RC5Command::Zone2NET => {},
        RC5Command::Zone2Sat => {},
        RC5Command::Zone2VCR => {},
        RC5Command::SelectHDMIOut1 => {},
        RC5Command::SelectHDMIOut2 => {},
        RC5Command::SelectHDMIOut1And2 => {},
    }
}

/// A pair of bytes decodes to a command only if it is that command's pair.
pub proof fn lemma_rc5_decoded_is_data(value: (u8, u8))
    ensures
        RC5Command::decoded(value) matches Some(c) ==> c.data() == value,
{
}

/// A pair of bytes decodes to no command exactly when it is the pair of no command.
pub proof fn lemma_rc5_undecodable(value: (u8, u8))
    ensures
        RC5Command::decoded(value) is None <==> forall|c: RC5Command| c.data() != value,
{
    if RC5Command::decoded(value) is None {
        assert forall|c: RC5Command| c.data() != value by {
            lemma_rc5_data_decodes(c);
        }
    } else {
        let c = RC5Command::decoded(value).unwrap();
        assert(c.data() == value);
    }
}

/// The pair of bytes of each RC5 command is the one the Arcam protocol documents.
pub proof fn lemma_rc5_protocol_pairs()
    ensures
        RC5Command::Standby.data() == (0x10u8, 0x0cu8),
        RC5Command::One.data() == (0x10u8, 0x01u8),
        RC5Command::Two.data() == (0x10u8, 0x02u8),
        RC5Command::Three.data() == (0x10u8, 0x03u8),
        RC5Command::Four.data() == (0x10u8, 0x04u8),
        RC5Command::Five.data() == (0x10u8, 0x05u8),
        RC5Command::Six.data() == (0x10u8, 0x06u8),
        RC5Command::Seven.data() == (0x10u8, 0x07u8),
        RC5Command::Eight.data() == (0x10u8, 0x08u8),
        RC5Command::Nine.data() == (0x10u8, 0x09u8),
        RC5Command::AccessLipsyncDelayControl.data() == (0x10u8, 0x32u8),
        RC5Command::Zero.data() == (0x10u8, 0x00u8),
        RC5Command::CycleBetweenVFDInformationPanels.data() == (0x10u8, 0x37u8),
        RC5Command::Rewind.data() == (0x10u8, 0x79u8),
        RC5Command::FastForward.data() == (0x10u8, 0x34u8),
        RC5Command::SkipBack.data() == (0x10u8, 0x21u8),
        RC5Command::SkipForward.data() == (0x10u8, 0x0bu8),
        RC5Command::Stop.data() == (0x10u8, 0x36u8),
        RC5Command::Play.data() == (0x10u8, 0x35u8),
        RC5Command::Pause.data() == (0x10u8, 0x30u8),
        RC5Command::Disc_Record_EnterTrimMenu.data() == (0x10u8, 0x5au8),
        RC5Command::MENU_EnterSystemMenu.data() == (0x10u8, 0x52u8),
        RC5Command::NavigateUp.data() == (0x10u8, 0x56u8),
        RC5Command::PopUp_DolbyVolumeOnOff.data() == (0x10u8, 0x46u8),
        RC5Command::NavigateLeft.data() == (0x10u8, 0x51u8),
        RC5Command::OK.data() == (0x10u8, 0x57u8),
        RC5Command::NavigateRight.data() == (0x10u8, 0x50u8),
        RC5Command::Audio_RoomEQOnOff.data() == (0x10u8, 0x1eu8),
        RC5Command::NavigateDown.data() == (0x10u8, 0x55u8),
        RC5Command::RTN_AccessSubwooferTrimControl.data() == (0x10u8, 0x33u8),
        RC5Command::HOME.data() == (0x10u8, 0x2bu8),
        RC5Command::Mute.data() == (0x10u8, 0x0du8),
        RC5Command::IncreaseVolume.data() == (0x10u8, 0x10u8),
        RC5Command::MODE_CycleBetweenDecodingModes.data() == (0x10u8, 0x20u8),
        RC5Command::DISP_ChangeVFDBrightness.data() == (0x10u8, 0x3bu8),
        RC5Command::ActivateDIRECTMode.data() == (0x10u8, 0x0au8),
        RC5Command::DecreaseVolume.data() == (0x10u8, 0x11u8),
        RC5Command::Red.data() == (0x10u8, 0x29u8),
        RC5Command::Green.data() == (0x10u8, 0x2au8),
        RC5Command::Yellow.data() == (0x10u8, 0x2bu8),
        RC5Command::Blue.data() == (0x10u8, 0x37u8),
        RC5Command::Radio.data() == (0x10u8, 0x5bu8),
        RC5Command::Aux.data() == (0x10u8, 0x63u8),
        RC5Command::Net.data() == (0x10u8, 0x5cu8),
        RC5Command::USB.data() == (0x10u8, 0x5du8),
        RC5Command::AV.data() == (0x10u8, 0x5eu8),
        RC5Command::Sat.data() == (0x10u8, 0x1bu8),
        RC5Command::PVR.data() == (0x10u8, 0x60u8),
        RC5Command::Game.data() == (0x10u8, 0x61u8),
        RC5Command::BD.data() == (0x10u8, 0x62u8),
        RC5Command::CD.data() == (0x10u8, 0x76u8),
        RC5Command::STB.data() == (0x10u8, 0x64u8),
        RC5Command::VCR.data() == (0x10u8, 0x77u8),
        RC5Command::Display.data() == (0x10u8, 0x3au8),
        RC5Command::PowerOn.data() == (0x10u8, 0x7bu8),
        RC5Command::PowerOff.data() == (0x10u8, 0x7cu8),
        RC5Command::ChangeControlToNextZone.data() == (0x10u8, 0x5fu8),
        RC5Command::CycleBetweenOutputResolutions.data() == (0x10u8, 0x2fu8),
        RC5Command::AccessBassControl.data() == (0x10u8, 0x27u8),
        RC5Command::AccessSpeakerTrimControls.data() == (0x10u8, 0x25u8),
        RC5Command::AccessTrebleControl.data() == (0x10u8, 0x0eu8),
        RC5Command::Random.data() == (0x10u8, 0x4cu8),
        RC5Command::Repeat.data() == (0x10u8, 0x31u8),
        RC5Command::DirectModeOn.data() == (0x10u8, 0x4eu8),
        RC5Command::DirectModeOff.data() == (0x10u8, 0x4fu8),
        RC5Command::MultiChannel.data() == (0x10u8, 0x6au8),
        RC5Command::Stereo.data() == (0x10u8, 0x6bu8),
        RC5Command::DolbySurround.data() == (0x10u8, 0x6eu8),
        RC5Command::DTSNeo6Cinema.data() == (0x10u8, 0x6fu8),
        RC5Command::DTSNeo6Music.data() == (0x10u8, 0x70u8),
        RC5Command::DTSNeuralX.data() == (0x10u8, 0x71u8),
        RC5Command::Reserved.data() == (0x10u8, 0x72u8),
        RC5Command::DTSVirtualX.data() == (0x10u8, 0x73u8),
        RC5Command::FiveSevenChannelStereo.data() == (0x10u8, 0x45u8),
        RC5Command::DolbyDEX.data() == (0x10u8, 0x17u8),
        RC5Command::MuteOn.data() == (0x10u8, 0x1au8),
        RC5Command::MuteOff.data() == (0x10u8, 0x78u8),
        RC5Command::FM.data() == (0x10u8, 0x1cu8),
        RC5Command::DAB.data() == (0x10u8, 0x48u8),
        RC5Command::LipSyncPlus5ms.data() == (0x10u8, 0x0fu8),
        RC5Command::LipSyncMinus5ms.data() == (0x10u8, 0x65u8),
        RC5Command::SubTrimPlusHalfDb.data() == (0x10u8, 0x69u8),
        RC5Command::SubTrimMinusHalfDb.data() == (0x10u8, 0x6cu8),
        RC5Command::DisplayOff.data() == (0x10u8, 0x1fu8),
        RC5Command::DisplayL1.data() == (0x10u8, 0x22u8),
        RC5Command::DisplayL2.data() == (0x10u8, 0x23u8),
        RC5Command::BalanceLeft.data() == (0x10u8, 0x26u8),
        RC5Command::BalanceRight.data() == (0x10u8, 0x28u8),
        RC5Command::BassPlus1.data() == (0x10u8, 0x2cu8),
        RC5Command::BassMinus1.data() == (0x10u8, 0x2du8),
        RC5Command::TreblePlus1.data() == (0x10u8, 0x2eu8),
        RC5Command::TrebleMinus1.data() == (0x10u8, 0x66u8),
        RC5Command::SetZone2ToFollowZone1.data() == (0x10u8, 0x14u8),
        RC5Command::Zone2PowerOn.data() == (0x17u8, 0x7bu8),
        RC5Command::Zone2PowerOff.data() == (0x17u8, 0x7cu8),
        RC5Command::Zone2VolumePlus.data() == (0x17u8, 0x01u8),
        RC5Command::Zone2VolumeMinus.data() == (0x17u8, 0x02u8),
        RC5Command::Zone2Mute.data() == (0x17u8, 0x03u8),
        RC5Command::Zone2MuteOn.data() == (0x17u8, 0x04u8),
        RC5Command::Zone2MuteOff.data() == (0x17u8, 0x05u8),
        RC5Command::Zone2CD.data() == (0x17u8, 0x06u8),
        RC5Command::Zone2BD.data() == (0x17u8, 0x07u8),
        RC5Command::Zone2STB.data() == (0x17u8, 0x08u8),
        RC5Command::Zone2AV.data() == (0x17u8, 0x09u8),
        RC5Command::Zone2Game.data() == (0x17u8, 0x0bu8),
        RC5Command::Zone2Aux.data() == (0x17u8, 0x0du8),
        RC5Command::Zone2PVR.data() == (0x17u8, 0x0fu8),
        RC5Command::Zone2FM.data() == (0x17u8, 0x0eu8),
        RC5Command::Zone2DAB.data() == (0x17u8, 0x10u8),
        RC5Command::Zone2USB.data() == (0x17u8, 0x12u8),
        RC5Command::Zone2NET.data() == (0x17u8, 0x13u8),
        RC5Command::Zone2Sat.data() == (0x17u8, 0x14u8),
        RC5Command::Zone2VCR.data() == (0x17u8, 0x15u8),
        RC5Command::SelectHDMIOut1.data() == (0x10u8, 0x49u8),
        RC5Command::SelectHDMIOut2.data() == (0x10u8, 0x4au8),
        RC5Command::SelectHDMIOut1And2.data() == (0x10u8, 0x4bu8),
{
}

/// Each documented pair of bytes is read as its command; of two commands with one pair, as the
/// one written first.
pub proof fn lemma_rc5_pairs_read()
    ensures
        RC5Command::decoded((0x10u8, 0x0cu8)) == Some(RC5Command::Standby),
        RC5Command::decoded((0x10u8, 0x01u8)) == Some(RC5Command::One),
        RC5Command::decoded((0x10u8, 0x02u8)) == Some(RC5Command::Two),
        RC5Command::decoded((0x10u8, 0x03u8)) == Some(RC5Command::Three),
        RC5Command::decoded((0x10u8, 0x04u8)) == Some(RC5Command::Four),
        RC5Command::decoded((0x10u8, 0x05u8)) == Some(RC5Command::Five),
        RC5Command::decoded((0x10u8, 0x06u8)) == Some(RC5Command::Six),
        RC5Command::decoded((0x10u8, 0x07u8)) == Some(RC5Command::Seven),
        RC5Command::decoded((0x10u8, 0x08u8)) == Some(RC5Command::Eight),
        RC5Command::decoded((0x10u8, 0x09u8)) == Some(RC5Command::Nine),
        RC5Command::decoded((0x10u8, 0x32u8)) == Some(RC5Command::AccessLipsyncDelayControl),
        RC5Command::decoded((0x10u8, 0x00u8)) == Some(RC5Command::Zero),
        RC5Command::decoded((0x10u8, 0x37u8)) == Some(RC5Command::CycleBetweenVFDInformationPanels),
        RC5Command::decoded((0x10u8, 0x79u8)) == Some(RC5Command::Rewind),
        RC5Command::decoded((0x10u8, 0x34u8)) == Some(RC5Command::FastForward),
        RC5Command::decoded((0x10u8, 0x21u8)) == Some(RC5Command::SkipBack),
        RC5Command::decoded((0x10u8, 0x0bu8)) == Some(RC5Command::SkipForward),
        RC5Command::decoded((0x10u8, 0x36u8)) == Some(RC5Command::Stop),
        RC5Command::decoded((0x10u8, 0x35u8)) == Some(RC5Command::Play),
        RC5Command::decoded((0x10u8, 0x30u8)) == Some(RC5Command::Pause),
        RC5Command::decoded((0x10u8, 0x5au8)) == Some(RC5Command::Disc_Record_EnterTrimMenu),
        RC5Command::decoded((0x10u8, 0x52u8)) == Some(RC5Command::MENU_EnterSystemMenu),
        RC5Command::decoded((0x10u8, 0x56u8)) == Some(RC5Command::NavigateUp),
        RC5Command::decoded((0x10u8, 0x46u8)) == Some(RC5Command::PopUp_DolbyVolumeOnOff),
        RC5Command::decoded((0x10u8, 0x51u8)) == Some(RC5Command::NavigateLeft),
        RC5Command::decoded((0x10u8, 0x57u8)) == Some(RC5Command::OK),
        RC5Command::decoded((0x10u8, 0x50u8)) == Some(RC5Command::NavigateRight),
        RC5Command::decoded((0x10u8, 0x1eu8)) == Some(RC5Command::Audio_RoomEQOnOff),
        RC5Command::decoded((0x10u8, 0x55u8)) == Some(RC5Command::NavigateDown),
        RC5Command::decoded((0x10u8, 0x33u8)) == Some(RC5Command::RTN_AccessSubwooferTrimControl),
        RC5Command::decoded((0x10u8, 0x2bu8)) == Some(RC5Command::HOME),
        RC5Command::decoded((0x10u8, 0x0du8)) == Some(RC5Command::Mute),
        RC5Command::decoded((0x10u8, 0x10u8)) == Some(RC5Command::IncreaseVolume),
        RC5Command::decoded((0x10u8, 0x20u8)) == Some(RC5Command::MODE_CycleBetweenDecodingModes),
        RC5Command::decoded((0x10u8, 0x3bu8)) == Some(RC5Command::DISP_ChangeVFDBrightness),
        RC5Command::decoded((0x10u8, 0x0au8)) == Some(RC5Command::ActivateDIRECTMode),
        RC5Command::decoded((0x10u8, 0x11u8)) == Some(RC5Command::DecreaseVolume),
        RC5Command::decoded((0x10u8, 0x29u8)) == Some(RC5Command::Red),
        RC5Command::decoded((0x10u8, 0x2au8)) == Some(RC5Command::Green),
        RC5Command::decoded((0x10u8, 0x5bu8)) == Some(RC5Command::Radio),
        RC5Command::decoded((0x10u8, 0x63u8)) == Some(RC5Command::Aux),
        RC5Command::decoded((0x10u8, 0x5cu8)) == Some(RC5Command::Net),
        RC5Command::decoded((0x10u8, 0x5du8)) == Some(RC5Command::USB),
        RC5Command::decoded((0x10u8, 0x5eu8)) == Some(RC5Command::AV),
        RC5Command::decoded((0x10u8, 0x1bu8)) == Some(RC5Command::Sat),
        RC5Command::decoded((0x10u8, 0x60u8)) == Some(RC5Command::PVR),
        RC5Command::decoded((0x10u8, 0x61u8)) == Some(RC5Command::Game),
        RC5Command::decoded((0x10u8, 0x62u8)) == Some(RC5Command::BD),
        RC5Command::decoded((0x10u8, 0x76u8)) == Some(RC5Command::CD),
        RC5Command::decoded((0x10u8, 0x64u8)) == Some(RC5Command::STB),
        RC5Command::decoded((0x10u8, 0x77u8)) == Some(RC5Command::VCR),
        RC5Command::decoded((0x10u8, 0x3au8)) == Some(RC5Command::Display),
        RC5Command::decoded((0x10u8, 0x7bu8)) == Some(RC5Command::PowerOn),
        RC5Command::decoded((0x10u8, 0x7cu8)) == Some(RC5Command::PowerOff),
        RC5Command::decoded((0x10u8, 0x5fu8)) == Some(RC5Command::ChangeControlToNextZone),
        RC5Command::decoded((0x10u8, 0x2fu8)) == Some(RC5Command::CycleBetweenOutputResolutions),
        RC5Command::decoded((0x10u8, 0x27u8)) == Some(RC5Command::AccessBassControl),
        RC5Command::decoded((0x10u8, 0x25u8)) == Some(RC5Command::AccessSpeakerTrimControls),
        RC5Command::decoded((0x10u8, 0x0eu8)) == Some(RC5Command::AccessTrebleControl),
        RC5Command::decoded((0x10u8, 0x4cu8)) == Some(RC5Command::Random),
        RC5Command::decoded((0x10u8, 0x31u8)) == Some(RC5Command::Repeat),
        RC5Command::decoded((0x10u8, 0x4eu8)) == Some(RC5Command::DirectModeOn),
        RC5Command::decoded((0x10u8, 0x4fu8)) == Some(RC5Command::DirectModeOff),
        RC5Command::decoded((0x10u8, 0x6au8)) == Some(RC5Command::MultiChannel),
        RC5Command::decoded((0x10u8, 0x6bu8)) == Some(RC5Command::Stereo),
        RC5Command::decoded((0x10u8, 0x6eu8)) == Some(RC5Command::DolbySurround),
        RC5Command::decoded((0x10u8, 0x6fu8)) == Some(RC5Command::DTSNeo6Cinema),
        RC5Command::decoded((0x10u8, 0x70u8)) == Some(RC5Command::DTSNeo6Music),
        RC5Command::decoded((0x10u8, 0x71u8)) == Some(RC5Command::DTSNeuralX),
        RC5Command::decoded((0x10u8, 0x72u8)) == Some(RC5Command::Reserved),
        RC5Command::decoded((0x10u8, 0x73u8)) == Some(RC5Command::DTSVirtualX),
        RC5Command::decoded((0x10u8, 0x45u8)) == Some(RC5Command::FiveSevenChannelStereo),
        RC5Command::decoded((0x10u8, 0x17u8)) == Some(RC5Command::DolbyDEX),
        RC5Command::decoded((0x10u8, 0x1au8)) == Some(RC5Command::MuteOn),
        RC5Command::decoded((0x10u8, 0x78u8)) == Some(RC5Command::MuteOff),
        RC5Command::decoded((0x10u8, 0x1cu8)) == Some(RC5Command::FM),
        RC5Command::decoded((0x10u8, 0x48u8)) == Some(RC5Command::DAB),
        RC5Command::decoded((0x10u8, 0x0fu8)) == Some(RC5Command::LipSyncPlus5ms),
        RC5Command::decoded((0x10u8, 0x65u8)) == Some(RC5Command::LipSyncMinus5ms),
        RC5Command::decoded((0x10u8, 0x69u8)) == Some(RC5Command::SubTrimPlusHalfDb),
        RC5Command::decoded((0x10u8, 0x6cu8)) == Some(RC5Command::SubTrimMinusHalfDb),
        RC5Command::decoded((0x10u8, 0x1fu8)) == Some(RC5Command::DisplayOff),
        RC5Command::decoded((0x10u8, 0x22u8)) == Some(RC5Command::DisplayL1),
        RC5Command::decoded((0x10u8, 0x23u8)) == Some(RC5Command::DisplayL2),
        RC5Command::decoded((0x10u8, 0x26u8)) == Some(RC5Command::BalanceLeft),
        RC5Command::decoded((0x10u8, 0x28u8)) == Some(RC5Command::BalanceRight),
        RC5Command::decoded((0x10u8, 0x2cu8)) == Some(RC5Command::BassPlus1),
        RC5Command::decoded((0x10u8, 0x2du8)) == Some(RC5Command::BassMinus1),
        RC5Command::decoded((0x10u8, 0x2eu8)) == Some(RC5Command::TreblePlus1),
        RC5Command::decoded((0x10u8, 0x66u8)) == Some(RC5Command::TrebleMinus1),
        RC5Command::decoded((0x10u8, 0x14u8)) == Some(RC5Command::SetZone2ToFollowZone1),
        RC5Command::decoded((0x17u8, 0x7bu8)) == Some(RC5Command::Zone2PowerOn),
        RC5Command::decoded((0x17u8, 0x7cu8)) == Some(RC5Command::Zone2PowerOff),
        RC5Command::decoded((0x17u8, 0x01u8)) == Some(RC5Command::Zone2VolumePlus),
        RC5Command::decoded((0x17u8, 0x02u8)) == Some(RC5Command::Zone2VolumeMinus),
        RC5Command::decoded((0x17u8, 0x03u8)) == Some(RC5Command::Zone2Mute),
        RC5Command::decoded((0x17u8, 0x04u8)) == Some(RC5Command::Zone2MuteOn),
        RC5Command::decoded((0x17u8, 0x05u8)) == Some(RC5Command::Zone2MuteOff),
        RC5Command::decoded((0x17u8, 0x06u8)) == Some(RC5Command::Zone2CD),
        RC5Command::decoded((0x17u8, 0x07u8)) == Some(RC5Command::Zone2BD),
        RC5Command::decoded((0x17u8, 0x08u8)) == Some(RC5Command::Zone2STB),
        RC5Command::decoded((0x17u8, 0x09u8)) == Some(RC5Command::Zone2AV),
        RC5Command::decoded((0x17u8, 0x0bu8)) == Some(RC5Command::Zone2Game),
        RC5Command::decoded((0x17u8, 0x0du8)) == Some(RC5Command::Zone2Aux),
        RC5Command::decoded((0x17u8, 0x0fu8)) == Some(RC5Command::Zone2PVR),
        RC5Command::decoded((0x17u8, 0x0eu8)) == Some(RC5Command::Zone2FM),
        RC5Command::decoded((0x17u8, 0x10u8)) == Some(RC5Command::Zone2DAB),
        RC5Command::decoded((0x17u8, 0x12u8)) == Some(RC5Command::Zone2USB),
        RC5Command::decoded((0x17u8, 0x13u8)) == Some(RC5Command::Zone2NET),
        RC5Command::decoded((0x17u8, 0x14u8)) == Some(RC5Command::Zone2Sat),
        RC5Command::decoded((0x17u8, 0x15u8)) == Some(RC5Command::Zone2VCR),
        RC5Command::decoded((0x10u8, 0x49u8)) == Some(RC5Command::SelectHDMIOut1),
        RC5Command::decoded((0x10u8, 0x4au8)) == Some(RC5Command::SelectHDMIOut2),
        RC5Command::decoded((0x10u8, 0x4bu8)) == Some(RC5Command::SelectHDMIOut1And2),
{
}

/// The name of each RC5 command in a description is its name in the protocol's table.
pub proof fn lemma_rc5_names()
    ensures
        RC5Command::Standby.spec_name() == "Standby"@,
        RC5Command::One.spec_name() == "One"@,
        RC5Command::Two.spec_name() == "Two"@,
        RC5Command::Three.spec_name() == "Three"@,
        RC5Command::Four.spec_name() == "Four"@,
        RC5Command::Five.spec_name() == "Five"@,
        RC5Command::Six.spec_name() == "Six"@,
        RC5Command::Seven.spec_name() == "Seven"@,
        RC5Command::Eight.spec_name() == "Eight"@,
        RC5Command::Nine.spec_name() == "Nine"@,
        RC5Command::AccessLipsyncDelayControl.spec_name() == "AccessLipsyncDelayControl"@,
        RC5Command::Zero.spec_name() == "Zero"@,
        RC5Command::CycleBetweenVFDInformationPanels.spec_name() == "CycleBetweenVFDInformationPanels"@,
        RC5Command::Rewind.spec_name() == "Rewind"@,
        RC5Command::FastForward.spec_name() == "FastForward"@,
        RC5Command::SkipBack.spec_name() == "SkipBack"@,
        RC5Command::SkipForward.spec_name() == "SkipForward"@,
        RC5Command::Stop.spec_name() == "Stop"@,
        RC5Command::Play.spec_name() == "Play"@,
        RC5Command::Pause.spec_name() == "Pause"@,
        RC5Command::Disc_Record_EnterTrimMenu.spec_name() == "Disc_Record_EnterTrimMenu"@,
        RC5Command::MENU_EnterSystemMenu.spec_name() == "MENU_EnterSystemMenu"@,
        RC5Command::NavigateUp.spec_name() == "NavigateUp"@,
        RC5Command::PopUp_DolbyVolumeOnOff.spec_name() == "PopUp_DolbyVolumeOnOff"@,
        RC5Command::NavigateLeft.spec_name() == "NavigateLeft"@,
        RC5Command::OK.spec_name() == "OK"@,
        RC5Command::NavigateRight.spec_name() == "NavigateRight"@,
        RC5Command::Audio_RoomEQOnOff.spec_name() == "Audio_RoomEQOnOff"@,
        RC5Command::NavigateDown.spec_name() == "NavigateDown"@,
        RC5Command::RTN_AccessSubwooferTrimControl.spec_name() == "RTN_AccessSubwooferTrimControl"@,
        RC5Command::HOME.spec_name() == "HOME"@,
        RC5Command::Mute.spec_name() == "Mute"@,
        RC5Command::IncreaseVolume.spec_name() == "IncreaseVolume"@,
        RC5Command::MODE_CycleBetweenDecodingModes.spec_name() == "MODE_CycleBetweenDecodingModes"@,
        RC5Command::DISP_ChangeVFDBrightness.spec_name() == "DISP_ChangeVFDBrightness"@,
        RC5Command::ActivateDIRECTMode.spec_name() == "ActivateDIRECTMode"@,
        RC5Command::DecreaseVolume.spec_name() == "DecreaseVolume"@,
        RC5Command::Red.spec_name() == "Red"@,
        RC5Command::Green.spec_name() == "Green"@,
        RC5Command::Yellow.spec_name() == "Yellow"@,
        RC5Command::Blue.spec_name() == "Blue"@,
        RC5Command::Radio.spec_name() == "Radio"@,
        RC5Command::Aux.spec_name() == "Aux"@,
        RC5Command::Net.spec_name() == "Net"@,
        RC5Command::USB.spec_name() == "USB"@,
        RC5Command::AV.spec_name() == "AV"@,
        RC5Command::Sat.spec_name() == "Sat"@,
        RC5Command::PVR.spec_name() == "PVR"@,
        RC5Command::Game.spec_name() == "Game"@,
        RC5Command::BD.spec_name() == "BD"@,
        RC5Command::CD.spec_name() == "CD"@,
        RC5Command::STB.spec_name() == "STB"@,
        RC5Command::VCR.spec_name() == "VCR"@,
        RC5Command::Display.spec_name() == "Display"@,
        RC5Command::PowerOn.spec_name() == "PowerOn"@,
        RC5Command::PowerOff.spec_name() == "PowerOff"@,
        RC5Command::ChangeControlToNextZone.spec_name() == "ChangeControlToNextZone"@,
        RC5Command::CycleBetweenOutputResolutions.spec_name() == "CycleBetweenOutputResolutions"@,
        RC5Command::AccessBassControl.spec_name() == "AccessBassControl"@,
        RC5Command::AccessSpeakerTrimControls.spec_name() == "AccessSpeakerTrimControls"@,
        RC5Command::AccessTrebleControl.spec_name() == "AccessTrebleControl"@,
        RC5Command::Random.spec_name() == "Random"@,
        RC5Command::Repeat.spec_name() == "Repeat"@,
        RC5Command::DirectModeOn.spec_name() == "DirectModeOn"@,
        RC5Command::DirectModeOff.spec_name() == "DirectModeOff"@,
        RC5Command::MultiChannel.spec_name() == "MultiChannel"@,
        RC5Command::Stereo.spec_name() == "Stereo"@,
        RC5Command::DolbySurround.spec_name() == "DolbySurround"@,
        RC5Command::DTSNeo6Cinema.spec_name() == "DTSNeo6Cinema"@,
        RC5Command::DTSNeo6Music.spec_name() == "DTSNeo6Music"@,
        RC5Command::DTSNeuralX.spec_name() == "DTSNeuralX"@,
        RC5Command::Reserved.spec_name() == "Reserved"@,
        RC5Command::DTSVirtualX.spec_name() == "DTSVirtualX"@,
        RC5Command::FiveSevenChannelStereo.spec_name() == "FiveSevenChannelStereo"@,
        RC5Command::DolbyDEX.spec_name() == "DolbyDEX"@,
        RC5Command::MuteOn.spec_name() == "MuteOn"@,
        RC5Command::MuteOff.spec_name() == "MuteOff"@,
        RC5Command::FM.spec_name() == "FM"@,
        RC5Command::DAB.spec_name() == "DAB"@,
        RC5Command::LipSyncPlus5ms.spec_name() == "LipSyncPlus5ms"@,
        RC5Command::LipSyncMinus5ms.spec_name() == "LipSyncMinus5ms"@,
        RC5Command::SubTrimPlusHalfDb.spec_name() == "SubTrimPlusHalfDb"@,
        RC5Command::SubTrimMinusHalfDb.spec_name() == "SubTrimMinusHalfDb"@,
        RC5Command::DisplayOff.spec_name() == "DisplayOff"@,
        RC5Command::DisplayL1.spec_name() == "DisplayL1"@,
        RC5Command::DisplayL2.spec_name() == "DisplayL2"@,
        RC5Command::BalanceLeft.spec_name() == "BalanceLeft"@,
        RC5Command::BalanceRight.spec_name() == "BalanceRight"@,
        RC5Command::BassPlus1.spec_name() == "BassPlus1"@,
        RC5Command::BassMinus1.spec_name() == "BassMinus1"@,
        RC5Command::TreblePlus1.spec_name() == "TreblePlus1"@,
        RC5Command::TrebleMinus1.spec_name() == "TrebleMinus1"@,
        RC5Command::SetZone2ToFollowZone1.spec_name() == "SetZone2ToFollowZone1"@,
        RC5Command::Zone2PowerOn.spec_name() == "Zone2PowerOn"@,
        RC5Command::Zone2PowerOff.spec_name() == "Zone2PowerOff"@,
        RC5Command::Zone2VolumePlus.spec_name() == "Zone2VolumePlus"@,
        RC5Command::Zone2VolumeMinus.spec_name() == "Zone2VolumeMinus"@,
        RC5Command::Zone2Mute.spec_name() == "Zone2Mute"@,
        RC5Command::Zone2MuteOn.spec_name() == "Zone2MuteOn"@,
        RC5Command::Zone2MuteOff.spec_name() == "Zone2MuteOff"@,
        RC5Command::Zone2CD.spec_name() == "Zone2CD"@,
        RC5Command::Zone2BD.spec_name() == "Zone2BD"@,
        RC5Command::Zone2STB.spec_name() == "Zone2STB"@,
        RC5Command::Zone2AV.spec_name() == "Zone2AV"@,
        RC5Command::Zone2Game.spec_name() == "Zone2Game"@,
        RC5Command::Zone2Aux.spec_name() == "Zone2Aux"@,
        RC5Command::Zone2PVR.spec_name() == "Zone2PVR"@,
        RC5Command::Zone2FM.spec_name() == "Zone2FM"@,
        RC5Command::Zone2DAB.spec_name() == "Zone2DAB"@,
        RC5Command::Zone2USB.spec_name() == "Zone2USB"@,
        RC5Command::Zone2NET.spec_name() == "Zone2NET"@,
        RC5Command::Zone2Sat.spec_name() == "Zone2Sat"@,
        RC5Command::Zone2VCR.spec_name() == "Zone2VCR"@,
        RC5Command::SelectHDMIOut1.spec_name() == "SelectHDMIOut1"@,
        RC5Command::SelectHDMIOut2.spec_name() == "SelectHDMIOut2"@,
        RC5Command::SelectHDMIOut1And2.spec_name() == "SelectHDMIOut1And2"@,
{
}

} // verus!
