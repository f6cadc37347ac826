//! The logic of a mock AVR850, so that integration tests of the Arcam client can be undertaken
//! without an amplifier: the state of the amplifier and how it answers each request.
//!
//! A real AVR850 listens on port 50000 and answers requests within three seconds; listening,
//! reading and writing are left to the program around this library.

use vstd::prelude::*;

use crate::arcam_protocol::{
    parse_request, request_header_known, AnswerCode, Brightness, Command, MuteState, PowerState, RC5Command, Request, Response, Source,
    VideoSource, ZoneNumber, REQUEST_QUERY,
};
use crate::functionality::{mute_rc5_command, power_rc5_command, source_rc5_command};
use crate::rc5::lemma_rc5_data_decodes;
use crate::text::{decimal, decimal_string, trim, trimmed, utf8_string};
use vstd::string::StringSliceAdditionalSpecFns;

verus! {

/// The state of one zone of a mock AVR.
#[derive(Clone, Copy, Debug, PartialEq, Eq, Structural)]
pub struct ZoneState {
    pub power: PowerState,
    /// Always in the range 0..100.
    pub volume: u8,
    pub mute: MuteState,
    pub source: Source,
}

/// The state of a mock AVR: its two zones and its display.
#[derive(Clone, Copy, Debug, PartialEq, Eq, Structural)]
pub struct AmpState {
    pub zone_one: ZoneState,
    pub zone_two: ZoneState,
    pub brightness: Brightness,
}

/// The video source that has the same name as a source, if any.
pub open spec fn video_source_of(source: Source) -> Option<VideoSource> {
    match source {
        Source::BD => Some(VideoSource::BD),
        Source::SAT => Some(VideoSource::SAT),
        Source::AV => Some(VideoSource::AV),
        Source::PVR => Some(VideoSource::PVR),
        Source::VCR => Some(VideoSource::VCR),
        Source::GAME => Some(VideoSource::Game),
        Source::STB => Some(VideoSource::STB),
        _ => None,
    }
}

/// The source that has the same name as a video source.
pub open spec fn source_of_video(video_source: VideoSource) -> Source {
    match video_source {
        VideoSource::BD => Source::BD,
        VideoSource::SAT => Source::SAT,
        VideoSource::AV => Source::AV,
        VideoSource::PVR => Source::PVR,
        VideoSource::VCR => Source::VCR,
        VideoSource::Game => Source::GAME,
        VideoSource::STB => Source::STB,
    }
}

/// The zone that a remote control command must be sent to, for those that belong to one zone.
pub open spec fn rc5_zone(rc5command: RC5Command) -> Option<ZoneNumber> {
    match rc5command {
        RC5Command::MuteOn | RC5Command::MuteOff | RC5Command::PowerOn | RC5Command::PowerOff => Some(
            ZoneNumber::One,
        ),
        RC5Command::Zone2PowerOn | RC5Command::Zone2PowerOff | RC5Command::Zone2MuteOn
        | RC5Command::Zone2MuteOff => Some(ZoneNumber::Two),
        _ => None,
    }
}

/// Why the mock amplifier does not answer a request with a response.
#[derive(Clone, Copy, Debug, PartialEq, Eq, Structural)]
pub enum CommandError {
    /// A command that is only answered for queries was sent with this value.
    IncorrectValue(Command, u8),
    /// A volume of 100 or more was asked for.
    VolumeOutOfRange,
    /// A remote control command that the mock does not simulate.
    NotImplemented,
    /// A command that the mock does not simulate.
    UnhandledCommand(Command),
}

impl CommandError {
    /// The text of this error.
    pub open spec fn spec_message(self) -> Seq<char> {
        match self {
            CommandError::IncorrectValue(cc, value) => "Incorrect "@ + cc.spec_name() + " command "@
                + decimal(value as nat) + "."@,
            CommandError::VolumeOutOfRange => "Failed to deal with SetRequestVolume command SetRequestVolume."@,
            CommandError::NotImplemented => "Not implemented."@,
            CommandError::UnhandledCommand(cc) => "Failed to deal with command "@ + cc.spec_name()
                + "."@,
        }
    }

    /// The text of this error.
    pub fn message(&self) -> (r: String)
        ensures
            r@ == self.spec_message(),
    {
        match self {
            CommandError::IncorrectValue(cc, value) => {
                let mut text = String::from_str("Incorrect ");
                text.append(cc.name());
                text.append(" command ");
                let digits = decimal_string(*value);
                text.append(digits.as_str());
                text.append(".");
                text
            },
            CommandError::VolumeOutOfRange => String::from_str(
                "Failed to deal with SetRequestVolume command SetRequestVolume.",
            ),
            CommandError::NotImplemented => String::from_str("Not implemented."),
            CommandError::UnhandledCommand(cc) => {
                let mut text = String::from_str("Failed to deal with command ");
                text.append(cc.name());
                text.append(".");
                text
            },
        }
    }
}

impl ZoneState {
    /// The zone with its power state replaced.
    pub open spec fn with_power(self, power: PowerState) -> ZoneState {
        ZoneState { power, ..self }
    }

    /// The zone with its volume replaced.
    pub open spec fn with_volume(self, volume: u8) -> ZoneState {
        ZoneState { volume, ..self }
    }

    /// The zone with its mute state replaced.
    pub open spec fn with_mute(self, mute: MuteState) -> ZoneState {
        ZoneState { mute, ..self }
    }

    /// The zone with its source replaced.
    pub open spec fn with_source(self, source: Source) -> ZoneState {
        ZoneState { source, ..self }
    }
}

impl AmpState {
    /// The volume of each zone is below 100.
    pub open spec fn wf(self) -> bool {
        self.zone_one.volume < 100 && self.zone_two.volume < 100
    }

    /// The state of a zone.
    pub open spec fn zone_state(self, zone: ZoneNumber) -> ZoneState {
        match zone {
            ZoneNumber::One => self.zone_one,
            ZoneNumber::Two => self.zone_two,
        }
    }

    /// The amplifier with the state of a zone replaced.
    pub open spec fn with_zone(self, zone: ZoneNumber, state: ZoneState) -> AmpState {
        match zone {
            ZoneNumber::One => AmpState { zone_one: state, ..self },
            ZoneNumber::Two => AmpState { zone_two: state, ..self },
        }
    }

    /// The state of a zone.
    pub fn zone(&self, zone: ZoneNumber) -> (r: ZoneState)
        ensures
            r == self.zone_state(zone),
    {
        match zone {
            ZoneNumber::One => self.zone_one,
            ZoneNumber::Two => self.zone_two,
        }
    }

    /// Whether a zone is listening to a tuner, during which a real AVR850 sends out radio
    /// information of its own accord.
    pub fn is_on_tuner(&self, zone: ZoneNumber) -> (r: bool)
        ensures
            r == (self.zone_state(zone).source == Source::TUNER || self.zone_state(zone).source
                == Source::TUNERDAB),
    {
        let source = self.zone(zone).source;
        source == Source::TUNER || source == Source::TUNERDAB
    }

    /// The amplifier after a simulated remote control command for a zone, or `None` for a
    /// command that the mock does not simulate.
    pub open spec fn rc5_effect(self, zone: ZoneNumber, rc5command: RC5Command) -> Option<AmpState> {
        let z = self.zone_state(zone);
        match rc5command {
            RC5Command::DisplayOff => Some(AmpState { brightness: Brightness::Off, ..self }),
            RC5Command::DisplayL1 => Some(AmpState { brightness: Brightness::Level1, ..self }),
            RC5Command::DisplayL2 => Some(AmpState { brightness: Brightness::Level2, ..self }),
            RC5Command::MuteOn | RC5Command::Zone2MuteOn => Some(
                self.with_zone(zone, z.with_mute(MuteState::Muted)),
            ),
            RC5Command::MuteOff | RC5Command::Zone2MuteOff => Some(
                self.with_zone(zone, z.with_mute(MuteState::NotMuted)),
            ),
            RC5Command::PowerOn | RC5Command::Zone2PowerOn => Some(
                self.with_zone(zone, z.with_power(PowerState::On)),
            ),
            RC5Command::PowerOff | RC5Command::Zone2PowerOff => Some(
                self.with_zone(zone, z.with_power(PowerState::Standby)),
            ),
            RC5Command::Radio => Some(self.with_zone(zone, z.with_source(Source::TUNER))),
            RC5Command::CD => Some(self.with_zone(zone, z.with_source(Source::CD))),
            RC5Command::BD => Some(self.with_zone(zone, z.with_source(Source::BD))),
            RC5Command::AV => Some(self.with_zone(zone, z.with_source(Source::AV))),
            RC5Command::Sat => Some(self.with_zone(zone, z.with_source(Source::SAT))),
            RC5Command::PVR => Some(self.with_zone(zone, z.with_source(Source::PVR))),
            RC5Command::VCR => Some(self.with_zone(zone, z.with_source(Source::VCR))),
            RC5Command::Aux => Some(self.with_zone(zone, z.with_source(Source::AUX))),
            RC5Command::Display => Some(self.with_zone(zone, z.with_source(Source::DISPLAY))),
            RC5Command::Net => Some(self.with_zone(zone, z.with_source(Source::NET))),
            RC5Command::USB => Some(self.with_zone(zone, z.with_source(Source::USB))),
            RC5Command::STB => Some(self.with_zone(zone, z.with_source(Source::STB))),
            RC5Command::Game => Some(self.with_zone(zone, z.with_source(Source::GAME))),
            _ => None,
        }
    }

    /// The request is one on which the mock has an answer: the commands it simulates carry
    /// the data they take (one byte, or the two bytes of a known remote control command sent to
    /// the zone it belongs to), and a video source is asked for only while the zone's source has
    /// one.
    pub open spec fn serviceable(self, zone: ZoneNumber, cc: Command, data: Seq<u8>) -> bool {
        match cc {
            Command::Power | Command::DisplayBrightness | Command::SetRequestVolume
            | Command::RequestCurrentSource | Command::RequestMuteStatus => data.len() == 1,
            Command::VideoSelection => data.len() == 1 && if data[0] == REQUEST_QUERY {
                video_source_of(self.zone_state(zone).source) is Some
            } else {
                VideoSource::from_code(data[0]) is Some
            },
            Command::SimulateRC5IRCommand => data.len() == 2 && match RC5Command::decoded(
                (data[0], data[1]),
            ) {
                Some(c) => rc5_zone(c) is Some ==> rc5_zone(c) == Some(zone),
                None => false,
            },
            _ => true,
        }
    }

    /// The answer of a query: the state is unchanged and the response data is the given byte,
    /// or, for another value, the error for an incorrect command.
    pub open spec fn query_answer(self, cc: Command, data: Seq<u8>, value: u8) -> (
        AmpState,
        Result<Seq<u8>, CommandError>,
    ) {
        if data[0] != REQUEST_QUERY {
            (self, Err(CommandError::IncorrectValue(cc, data[0])))
        } else {
            (self, Ok(seq![value]))
        }
    }

    /// How the mock amplifier deals with a request: its state afterwards, and the data of the
    /// status update response that it sends back for the request's zone and command, or why it
    /// sends none.
    pub open spec fn answer(self, zone: ZoneNumber, cc: Command, data: Seq<u8>) -> (
        AmpState,
        Result<Seq<u8>, CommandError>,
    ) {
        let z = self.zone_state(zone);
        match cc {
            Command::Power => self.query_answer(cc, data, z.power.code()),
            Command::DisplayBrightness => self.query_answer(cc, data, self.brightness.code()),
            Command::RequestCurrentSource => self.query_answer(cc, data, z.source.code()),
            Command::RequestMuteStatus => self.query_answer(cc, data, z.mute.code()),
            Command::SetRequestVolume => if data[0] == REQUEST_QUERY {
                (self, Ok(seq![z.volume]))
            } else if data[0] < 100 {
                (self.with_zone(zone, z.with_volume(data[0])), Ok(seq![data[0]]))
            } else {
                (self, Err(CommandError::VolumeOutOfRange))
            },
            Command::VideoSelection => if data[0] == REQUEST_QUERY {
                (self, Ok(seq![video_source_of(z.source).unwrap().code()]))
            } else {
                (
                    self.with_zone(
                        zone,
                        z.with_source(source_of_video(VideoSource::from_code(data[0]).unwrap())),
                    ),
                    Ok(data),
                )
            },
            Command::SimulateRC5IRCommand => match self.rc5_effect(
                zone,
                RC5Command::decoded((data[0], data[1])).unwrap(),
            ) {
                Some(next) => (next, Ok(data)),
                None => (self, Err(CommandError::NotImplemented)),
            },
            _ => (self, Err(CommandError::UnhandledCommand(cc))),
        }
    }

    /// Whether the mock has an answer for the request; see [AmpState::serviceable].
    pub fn is_serviceable(&self, request: &Request) -> (r: bool)
        ensures
            r == self.serviceable(request.zone, request.cc, request.data@),
    {
        let data = &request.data;
        match request.cc {
            Command::Power | Command::DisplayBrightness | Command::SetRequestVolume
            | Command::RequestCurrentSource | Command::RequestMuteStatus => data.len() == 1,
            Command::VideoSelection => {
                if data.len() != 1 {
                    false
                } else if data[0] == REQUEST_QUERY {
                    video_source(self.zone(request.zone).source).is_some()
                } else {
                    VideoSource::from_u8(data[0]).is_some()
                }
            },
            Command::SimulateRC5IRCommand => {
                if data.len() != 2 {
                    false
                } else {
                    match RC5Command::decode((data[0], data[1])) {
                        Some(c) => match zone_of_rc5(c) {
                            Some(zone) => zone == request.zone,
                            None => true,
                        },
                        None => false,
                    }
                }
            },
            _ => true,
        }
    }

    /// Return a response to a given request updating the state of the mock amp as needed, and
    /// whether the request switched the zone to the radio, upon which a real AVR850 starts
    /// sending out radio information.
    pub fn create_command_response(&mut self, request: &Request) -> (r: (
        Result<Response, CommandError>,
        bool,
    ))
        requires
            old(self).serviceable(request.zone, request.cc, request.data@),
        ensures
            ({
                let (next, reply) = old(self).answer(request.zone, request.cc, request.data@);
                &&& *final(self) == next
                &&& match reply {
                    Ok(data) => r.0 matches Ok(response) && response.zone == request.zone
                        && response.cc == request.cc && response.ac == AnswerCode::StatusUpdate
                        && response.data@ == data,
                    Err(e) => r.0 == Err::<Response, CommandError>(e),
                }
                &&& r.1 == (request.cc == Command::SimulateRC5IRCommand && RC5Command::decoded(
                    (request.data@[0], request.data@[1]),
                ) == Some(RC5Command::Radio))
            }),
    {
        let zone = request.zone;
        let cc = request.cc;
        let z = self.zone(zone);
        match cc {
            Command::Power => (query_reply(zone, cc, &request.data, z.power.to_u8()), false),
            Command::DisplayBrightness => (
                query_reply(zone, cc, &request.data, self.brightness.to_u8()),
                false,
            ),
            Command::RequestCurrentSource => (
                query_reply(zone, cc, &request.data, z.source.to_u8()),
                false,
            ),
            Command::RequestMuteStatus => (query_reply(zone, cc, &request.data, z.mute.to_u8()), false),
            Command::SetRequestVolume => {
                let value = request.data[0];
                if value == REQUEST_QUERY {
                    (Ok(status_update(zone, cc, vec![z.volume])), false)
                } else if value < 100 {
                    self.set_zone(zone, ZoneState { volume: value, ..z });
                    (Ok(status_update(zone, cc, vec![value])), false)
                } else {
                    (Err(CommandError::VolumeOutOfRange), false)
                }
            },
            Command::VideoSelection => {
                let value = request.data[0];
                if value == REQUEST_QUERY {
                    let video = video_source(z.source).unwrap();
                    (Ok(status_update(zone, cc, vec![video.to_u8()])), false)
                } else {
                    let source = source_of(VideoSource::from_u8(value).unwrap());
                    self.set_zone(zone, ZoneState { source, ..z });
                    (Ok(status_update(zone, cc, copy_data(&request.data))), false)
                }
            },
            Command::SimulateRC5IRCommand => {
                let rc5command = RC5Command::from_data((request.data[0], request.data[1]));
                let implemented = self.apply_rc5(zone, rc5command);
                if implemented {
                    (
                        Ok(status_update(zone, cc, copy_data(&request.data))),
                        rc5command == RC5Command::Radio,
                    )
                } else {
                    (Err(CommandError::NotImplemented), false)
                }
            },
            _ => (Err(CommandError::UnhandledCommand(cc)), false),
        }
    }

    /// Replace the state of a zone.
    fn set_zone(&mut self, zone: ZoneNumber, state: ZoneState)
        ensures
            *final(self) == old(self).with_zone(zone, state),
    {
        match zone {
            ZoneNumber::One => self.zone_one = state,
            ZoneNumber::Two => self.zone_two = state,
        }
    }

    /// Simulate a remote control command for a zone; whether the mock simulates it.
    fn apply_rc5(&mut self, zone: ZoneNumber, rc5command: RC5Command) -> (r: bool)
        ensures
            match old(self).rc5_effect(zone, rc5command) {
                Some(next) => r && *final(self) == next,
                None => !r && *final(self) == *old(self),
            },
    {
        let z = self.zone(zone);
        match rc5command {
            RC5Command::DisplayOff => self.brightness = Brightness::Off,
            RC5Command::DisplayL1 => self.brightness = Brightness::Level1,
            RC5Command::DisplayL2 => self.brightness = Brightness::Level2,
            RC5Command::MuteOn | RC5Command::Zone2MuteOn => self.set_zone(
                zone,
                ZoneState { mute: MuteState::Muted, ..z },
            ),
            RC5Command::MuteOff | RC5Command::Zone2MuteOff => self.set_zone(
                zone,
                ZoneState { mute: MuteState::NotMuted, ..z },
            ),
            RC5Command::PowerOn | RC5Command::Zone2PowerOn => self.set_zone(
                zone,
                ZoneState { power: PowerState::On, ..z },
            ),
            RC5Command::PowerOff | RC5Command::Zone2PowerOff => self.set_zone(
                zone,
                ZoneState { power: PowerState::Standby, ..z },
            ),
            RC5Command::Radio => self.set_zone(zone, ZoneState { source: Source::TUNER, ..z }),
            RC5Command::CD => self.set_zone(zone, ZoneState { source: Source::CD, ..z }),
            RC5Command::BD => self.set_zone(zone, ZoneState { source: Source::BD, ..z }),
            RC5Command::AV => self.set_zone(zone, ZoneState { source: Source::AV, ..z }),
            RC5Command::Sat => self.set_zone(zone, ZoneState { source: Source::SAT, ..z }),
            RC5Command::PVR => self.set_zone(zone, ZoneState { source: Source::PVR, ..z }),
            RC5Command::VCR => self.set_zone(zone, ZoneState { source: Source::VCR, ..z }),
            RC5Command::Aux => self.set_zone(zone, ZoneState { source: Source::AUX, ..z }),
            RC5Command::Display => self.set_zone(zone, ZoneState { source: Source::DISPLAY, ..z }),
            RC5Command::Net => self.set_zone(zone, ZoneState { source: Source::NET, ..z }),
            RC5Command::USB => self.set_zone(zone, ZoneState { source: Source::USB, ..z }),
            RC5Command::STB => self.set_zone(zone, ZoneState { source: Source::STB, ..z }),
            RC5Command::Game => self.set_zone(zone, ZoneState { source: Source::GAME, ..z }),
            _ => return false,
        }
        true
    }
}

impl Default for AmpState {
    /// A mock AVR850 as it starts: display at level 2, zone 1 on playing CD at volume 30, zone 2
    /// in standby following zone 1 at volume 20, neither zone muted.
    fn default() -> (r: Self)
        ensures
            r == (AmpState {
                zone_one: ZoneState {
                    power: PowerState::On,
                    volume: 30,
                    mute: MuteState::NotMuted,
                    source: Source::CD,
                },
                zone_two: ZoneState {
                    power: PowerState::Standby,
                    volume: 20,
                    mute: MuteState::NotMuted,
                    source: Source::FollowZone1,
                },
                brightness: Brightness::Level2,
            }),
    {
        AmpState {
            zone_one: ZoneState {
                power: PowerState::On,
                volume: 30,
                mute: MuteState::NotMuted,
                source: Source::CD,
            },
            zone_two: ZoneState {
                power: PowerState::Standby,
                volume: 20,
                mute: MuteState::NotMuted,
                source: Source::FollowZone1,
            },
            brightness: Brightness::Level2,
        }
    }
}

/// The video source that has the same name as a source, if any.
fn video_source(source: Source) -> (r: Option<VideoSource>)
    ensures
        r == video_source_of(source),
{
    match source {
        Source::BD => Some(VideoSource::BD),
        Source::SAT => Some(VideoSource::SAT),
        Source::AV => Some(VideoSource::AV),
        Source::PVR => Some(VideoSource::PVR),
        Source::VCR => Some(VideoSource::VCR),
        Source::GAME => Some(VideoSource::Game),
        Source::STB => Some(VideoSource::STB),
        _ => None,
    }
}

/// The source that has the same name as a video source.
fn source_of(video_source: VideoSource) -> (r: Source)
    ensures
        r == source_of_video(video_source),
{
    match video_source {
        VideoSource::BD => Source::BD,
        VideoSource::SAT => Source::SAT,
        VideoSource::AV => Source::AV,
        VideoSource::PVR => Source::PVR,
        VideoSource::VCR => Source::VCR,
        VideoSource::Game => Source::GAME,
        VideoSource::STB => Source::STB,
    }
}

/// The zone that a remote control command belongs to, for those that belong to one zone.
fn zone_of_rc5(rc5command: RC5Command) -> (r: Option<ZoneNumber>)
    ensures
        r == rc5_zone(rc5command),
{
    match rc5command {
        RC5Command::MuteOn | RC5Command::MuteOff | RC5Command::PowerOn | RC5Command::PowerOff => Some(
            ZoneNumber::One,
        ),
        RC5Command::Zone2PowerOn | RC5Command::Zone2PowerOff | RC5Command::Zone2MuteOn
        | RC5Command::Zone2MuteOff => Some(ZoneNumber::Two),
        _ => None,
    }
}

/// A status update response with at most two bytes of data.
fn status_update(zone: ZoneNumber, cc: Command, data: Vec<u8>) -> (r: Response)
    requires
        data@.len() <= 2,
    ensures
        r.zone == zone && r.cc == cc && r.ac == AnswerCode::StatusUpdate && r.data@ == data@,
{
    Response { zone, cc, ac: AnswerCode::StatusUpdate, data }
}

/// A copy of the data of a request.
fn copy_data(data: &Vec<u8>) -> (r: Vec<u8>)
    ensures
        r@ == data@,
{
    let mut copy: Vec<u8> = Vec::new();
    let mut i: usize = 0;
    while i < data.len()
        invariant
            i <= data@.len(),
            copy@ == data@.take(i as int),
        decreases data@.len() - i,
    {
        copy.push(data[i]);
        i = i + 1;
        assert(copy@ =~= data@.take(i as int));
    }
    assert(data@.take(data@.len() as int) =~= data@);
    copy
}

/// The answer to a query of one byte: the value where the request data is the query value,
/// the error for an incorrect command otherwise.
fn query_reply(zone: ZoneNumber, cc: Command, data: &Vec<u8>, value: u8) -> (r: Result<
    Response,
    CommandError,
>)
    requires
        data@.len() == 1,
    ensures
        data@[0] != REQUEST_QUERY ==> r == Err::<Response, CommandError>(
            CommandError::IncorrectValue(cc, data@[0]),
        ),
        data@[0] == REQUEST_QUERY ==> (r matches Ok(response) && response.zone == zone
            && response.cc == cc && response.ac == AnswerCode::StatusUpdate && response.data@
            == seq![value]),
{
    if data[0] != REQUEST_QUERY {
        Err(CommandError::IncorrectValue(cc, data[0]))
    } else {
        let reply = vec![value];
        assert(reply@ =~= seq![value]);
        Ok(status_update(zone, cc, reply))
    }
}

/// The reply of an AVR850 to the message "AMX".
pub const AMX_RESPONSE: &'static str = "AMXB<Device-SDKClass=Receiver><Device-Make=ARCAM><Device-Model=AVR850><Device-Revision=2.0.0>\r";

/// The reply to bytes that are not a packet: [AMX_RESPONSE] where they are the text "AMX",
/// give or take surrounding white space; nothing otherwise.
pub fn amx_response(message: &[u8]) -> (r: Option<Vec<u8>>)
    ensures
        r is Some <==> vstd::utf8::valid_utf8(message@) && trimmed(
            vstd::utf8::decode_utf8(message@),
        ) == "AMX"@,
        r matches Some(bytes) ==> bytes@ == AMX_RESPONSE.spec_bytes(),
{
    match utf8_string(message) {
        Some(text) => {
            let message_text = trim(text.as_str()).to_owned();
            if message_text == String::from_str("AMX") {
                Some(vstd::slice::slice_to_vec(AMX_RESPONSE.as_bytes()))
            } else {
                None
            }
        },
        None => None,
    }
}

/// The name of the station that the mock's DAB tuner plays, 16 bytes as a station name always is.
pub const STATION_NAME: &'static str = "A DAB Station   ";

/// The programme type of the station that the mock's DAB tuner plays, 16 bytes as a programme
/// type always is.
pub const PROGRAMME_TYPE: &'static str = "Good Music      ";

/// The station name response that the mock sends out when a zone switches to its tuner.
pub fn station_name_response(zone: ZoneNumber) -> (r: Response)
    ensures
        r.zone == zone && r.cc == Command::RequestDABStation && r.ac == AnswerCode::StatusUpdate
            && r.data@ == STATION_NAME.spec_bytes(),
{
    let data = vstd::slice::slice_to_vec(STATION_NAME.as_bytes());
    Response { zone, cc: Command::RequestDABStation, ac: AnswerCode::StatusUpdate, data }
}

/// The programme type response that the mock sends out when a zone switches to its tuner.
pub fn programme_type_response(zone: ZoneNumber) -> (r: Response)
    ensures
        r.zone == zone && r.cc == Command::ProgrammeTypeCategory && r.ac
            == AnswerCode::StatusUpdate && r.data@ == PROGRAMME_TYPE.spec_bytes(),
{
    let data = vstd::slice::slice_to_vec(PROGRAMME_TYPE.as_bytes());
    Response { zone, cc: Command::ProgrammeTypeCategory, ac: AnswerCode::StatusUpdate, data }
}

/// The data of a DLS/PDT information response as a real AVR850 sends it: 129 bytes holding the
/// text, then a nul, then a second nul where there is room before the last byte, then spaces.
/// (The manual speaks of 128 bytes padded with spaces.)
pub open spec fn dls_pdt_data(text: Seq<u8>) -> Seq<u8> {
    Seq::new(
        129,
        |i: int|
            if i < text.len() {
                text[i]
            } else if i == text.len() || (i == text.len() + 1 && text.len() < 128) {
                0u8
            } else {
                0x20u8
            },
    )
}

/// The DLS/PDT information response for a zone carrying the given text.
pub fn dls_pdt_response(zone: ZoneNumber, text: &[u8]) -> (r: Response)
    requires
        text@.len() <= 128,
    ensures
        r.zone == zone && r.cc == Command::DLSPDTInformation && r.ac == AnswerCode::StatusUpdate
            && r.data@ == dls_pdt_data(text@),
{
    let mut buffer: Vec<u8> = Vec::new();
    let mut i: usize = 0;
    while i < 129
        invariant
            i <= 129,
            text@.len() <= 128,
            buffer@ == dls_pdt_data(text@).take(i as int),
        decreases 129 - i,
    {
        let byte = if i < text.len() {
            text[i]
        } else if i == text.len() || (i == text.len() + 1 && text.len() < 128) {
            0u8
        } else {
            0x20u8
        };
        buffer.push(byte);
        i = i + 1;
        assert(buffer@ =~= dls_pdt_data(text@).take(i as int));
    }
    assert(dls_pdt_data(text@).take(129) =~= dls_pdt_data(text@));
    Response { zone, cc: Command::DLSPDTInformation, ac: AnswerCode::StatusUpdate, data: buffer }
}

/// What one request asks of the mock amplifier, as the mock reads it from a chunk of bytes: its
/// zone, its command, the answer, and whether it switched the zone to the radio.
pub type ChunkAnswer = (ZoneNumber, Command, Result<Seq<u8>, CommandError>, bool);

/// Whether a request switches its zone to the radio, upon which a real AVR850 starts sending
/// out radio information.
pub open spec fn switches_to_radio(cc: Command, data: Seq<u8>) -> bool {
    cc == Command::SimulateRC5IRCommand && data.len() == 2 && RC5Command::decoded(
        (data[0], data[1]),
    ) == Some(RC5Command::Radio)
}

impl AmpState {
    /// Whether the mock can read every request at the start of a chunk of bytes and has an
    /// answer for each: each packet has a known zone and command, and each request is
    /// serviceable in the state that the requests before it leave.
    pub open spec fn chunk_answerable(self, chunk: Seq<u8>) -> bool
        decreases chunk.len(),
    {
        &&& request_header_known(chunk)
        &&& match parse_request(chunk) {
            Ok((zone, cc, data, n)) => {
                &&& self.serviceable(zone, cc, data)
                &&& (0 < n <= chunk.len() ==> self.answer(zone, cc, data).0.chunk_answerable(
                    chunk.subrange(n, chunk.len() as int),
                ))
            },
            Err(_) => true,
        }
    }

    /// The requests at the start of a chunk of bytes, answered one after the other until the
    /// rest of the chunk is no whole request: the state they leave and what each asked.
    pub open spec fn chunk_run(self, chunk: Seq<u8>) -> (AmpState, Seq<ChunkAnswer>)
        decreases chunk.len(),
    {
        match parse_request(chunk) {
            Ok((zone, cc, data, n)) => if 0 < n <= chunk.len() {
                let (next, reply) = self.answer(zone, cc, data);
                let (last, rest) = next.chunk_run(chunk.subrange(n, chunk.len() as int));
                (last, seq![(zone, cc, reply, switches_to_radio(cc, data))] + rest)
            } else {
                (self, Seq::empty())
            },
            Err(_) => (self, Seq::empty()),
        }
    }

    /// Whether the mock can read and answer every request in a chunk of bytes; see
    /// [AmpState::chunk_answerable].
    pub fn is_chunk_answerable(&self, chunk: &[u8]) -> (r: bool)
        ensures
            r == self.chunk_answerable(chunk@),
        decreases chunk@.len(),
    {
        if !Request::header_is_known(chunk) {
            return false;
        }
        match Request::parse_bytes(chunk) {
            Ok((request, count)) => {
                if !self.is_serviceable(&request) {
                    return false;
                }
                let mut next = *self;
                let _ = next.create_command_response(&request);
                let (_, rest) = chunk.split_at(count);
                next.is_chunk_answerable(rest)
            },
            Err(_) => true,
        }
    }

    /// Answer the requests at the start of a chunk of bytes read from a connection, one after
    /// the other, until the rest of the chunk is no whole request: for each, the response or why
    /// there is none, and whether it switched its zone to the radio.
    pub fn answer_chunk(&mut self, chunk: &[u8]) -> (r: Vec<(Result<Response, CommandError>, bool)>)
        requires
            old(self).chunk_answerable(chunk@),
        ensures
            ({
                let (last, answers) = old(self).chunk_run(chunk@);
                &&& *final(self) == last
                &&& r@.len() == answers.len()
                &&& forall|i: int|
                    0 <= i < answers.len() ==> {
                        let (zone, cc, reply, radio) = #[trigger] answers[i];
                        &&& match reply {
                            Ok(data) => r@[i].0 matches Ok(response) && response.zone == zone
                                && response.cc == cc && response.ac == AnswerCode::StatusUpdate
                                && response.data@ == data,
                            Err(e) => r@[i].0 == Err::<Response, CommandError>(e),
                        }
                        &&& r@[i].1 == radio
                    }
            }),
    {
        let mut replies: Vec<(Result<Response, CommandError>, bool)> = Vec::new();
        let mut rest: &[u8] = chunk;
        let ghost start = *self;
        loop
            invariant
                self.chunk_answerable(rest@),
                ({
                    let (last, answers) = start.chunk_run(chunk@);
                    let (last_rest, answers_rest) = self.chunk_run(rest@);
                    &&& last == last_rest
                    &&& answers.len() == replies@.len() + answers_rest.len()
                    &&& forall|i: int|
                        0 <= i < answers_rest.len() ==> answers[replies@.len() + i]
                            == answers_rest[i]
                    &&& forall|i: int|
                        0 <= i < replies@.len() ==> {
                            let (zone, cc, reply, radio) = #[trigger] answers[i];
                            &&& match reply {
                                Ok(data) => replies@[i].0 matches Ok(response) && response.zone
                                    == zone && response.cc == cc && response.ac
                                    == AnswerCode::StatusUpdate && response.data@ == data,
                                Err(e) => replies@[i].0 == Err::<Response, CommandError>(e),
                            }
                            &&& replies@[i].1 == radio
                        }
                }),
            ensures
                ({
                    let (last, answers) = start.chunk_run(chunk@);
                    &&& *self == last
                    &&& replies@.len() == answers.len()
                    &&& forall|i: int|
                        0 <= i < replies@.len() ==> {
                            let (zone, cc, reply, radio) = #[trigger] answers[i];
                            &&& match reply {
                                Ok(data) => replies@[i].0 matches Ok(response) && response.zone
                                    == zone && response.cc == cc && response.ac
                                    == AnswerCode::StatusUpdate && response.data@ == data,
                                Err(e) => replies@[i].0 == Err::<Response, CommandError>(e),
                            }
                            &&& replies@[i].1 == radio
                        }
                }),
            decreases rest@.len(),
        {
            let ghost before = *self;
            let ghost bytes = rest@;
            match Request::parse_bytes(rest) {
                Ok((request, count)) => {
                    let ghost old_replies = replies@;
                    let answer = self.create_command_response(&request);
                    replies.push(answer);
                    let (_, tail) = rest.split_at(count);
                    rest = tail;
                    proof {
                        let (next, reply) = before.answer(request.zone, request.cc, request.data@);
                        let (last_tail, answers_tail) = next.chunk_run(rest@);
                        assert(before.chunk_run(bytes) == (
                            last_tail,
                            seq![(request.zone, request.cc, reply, switches_to_radio(request.cc, request.data@))]
                                + answers_tail,
                        ));
                        let (last, answers) = start.chunk_run(chunk@);
                        assert forall|i: int| 0 <= i < answers_tail.len() implies answers[replies@.len()
                            + i] == answers_tail[i] by {
                            assert(answers[old_replies.len() + (i + 1)] == before.chunk_run(bytes).1[i + 1]);
                        }
                        assert(answers[old_replies.len() as int] == before.chunk_run(bytes).1[0]);
                    }
                },
                Err(_) => {
                    assert(self.chunk_run(rest@) == (*self, Seq::<ChunkAnswer>::empty()));
                    break;
                },
            }
        }
        replies
    }
}

/// A query of the power, display brightness, volume, source or mute state leaves the mock
/// amplifier as it is.
pub proof fn lemma_queries_keep_state(state: AmpState, zone: ZoneNumber, cc: Command)
    requires
        cc == Command::Power || cc == Command::DisplayBrightness || cc == Command::SetRequestVolume
            || cc == Command::RequestCurrentSource || cc == Command::RequestMuteStatus
            || cc == Command::VideoSelection,
        state.serviceable(zone, cc, seq![REQUEST_QUERY]),
    ensures
        state.answer(zone, cc, seq![REQUEST_QUERY]).0 == state,
        state.answer(zone, cc, seq![REQUEST_QUERY]).1 is Ok,
{
}

/// A request that the mock answers with an error leaves it as it is.
pub proof fn lemma_errors_keep_state(state: AmpState, zone: ZoneNumber, cc: Command, data: Seq<u8>)
    requires
        state.serviceable(zone, cc, data),
    ensures
        state.answer(zone, cc, data).1 is Err ==> state.answer(zone, cc, data).0 == state,
{
}

/// A request for one zone leaves the other zone as it is.
pub proof fn lemma_other_zone_unchanged(
    state: AmpState,
    zone: ZoneNumber,
    other: ZoneNumber,
    cc: Command,
    data: Seq<u8>,
)
    requires
        other != zone,
        state.serviceable(zone, cc, data),
    ensures
        state.answer(zone, cc, data).0.zone_state(other) == state.zone_state(other),
{
}

/// Every volume stays below 100.
pub proof fn lemma_answer_keeps_volumes_in_range(
    state: AmpState,
    zone: ZoneNumber,
    cc: Command,
    data: Seq<u8>,
)
    requires
        state.wf(),
        state.serviceable(zone, cc, data),
    ensures
        state.answer(zone, cc, data).0.wf(),
{
}

/// After setting the volume of a zone below 100, a volume query of the zone answers that volume.
pub proof fn lemma_volume_set_then_query(state: AmpState, zone: ZoneNumber, volume: u8)
    requires
        volume < 100,
    ensures
        ({
            let (next, reply) = state.answer(zone, Command::SetRequestVolume, seq![volume]);
            &&& reply == Ok::<_, CommandError>(seq![volume])
            &&& next.answer(zone, Command::SetRequestVolume, seq![REQUEST_QUERY]) == (
                next,
                Ok::<_, CommandError>(seq![volume]),
            )
        }),
{
}

/// After the remote control command that [crate::functionality::set_power_requests] sends,
/// a power query of the zone answers the power state asked for.
pub proof fn lemma_power_set_then_query(state: AmpState, zone: ZoneNumber, power: PowerState)
    ensures
        ({
            let c = power_rc5_command(zone, power);
            let (next, reply) = state.answer(
                zone,
                Command::SimulateRC5IRCommand,
                seq![c.data().0, c.data().1],
            );
            &&& state.serviceable(zone, Command::SimulateRC5IRCommand, seq![c.data().0, c.data().1])
            &&& reply is Ok
            &&& next.answer(zone, Command::Power, seq![REQUEST_QUERY]).1 == Ok::<_, CommandError>(
                seq![power.code()],
            )
        }),
{
    lemma_rc5_data_decodes(power_rc5_command(zone, power));
}

/// After the remote control command that [crate::functionality::set_mute_requests] sends,
/// a mute query of the zone answers the mute state asked for.
pub proof fn lemma_mute_set_then_query(state: AmpState, zone: ZoneNumber, mute: MuteState)
    ensures
        ({
            let c = mute_rc5_command(zone, mute);
            let (next, reply) = state.answer(
                zone,
                Command::SimulateRC5IRCommand,
                seq![c.data().0, c.data().1],
            );
            &&& state.serviceable(zone, Command::SimulateRC5IRCommand, seq![c.data().0, c.data().1])
            &&& reply is Ok
            &&& next.answer(zone, Command::RequestMuteStatus, seq![REQUEST_QUERY]).1 == Ok::<
                _,
                CommandError,
            >(seq![mute.code()])
        }),
{
    lemma_rc5_data_decodes(mute_rc5_command(zone, mute));
}

/// After the remote control command that [crate::functionality::set_source_requests] sends for
/// a source other than following zone 1 or the DAB tuner, a source query of the zone answers
/// that source. (Both tuners share the radio button, which selects the FM tuner, and the mock
/// does not simulate following zone 1.)
pub proof fn lemma_source_set_then_query(state: AmpState, zone: ZoneNumber, source: Source)
    requires
        source != Source::FollowZone1,
        source != Source::TUNERDAB,
    ensures
        ({
            let c = source_rc5_command(source);
            let (next, reply) = state.answer(
                zone,
                Command::SimulateRC5IRCommand,
                seq![c.data().0, c.data().1],
            );
            &&& state.serviceable(zone, Command::SimulateRC5IRCommand, seq![c.data().0, c.data().1])
            &&& reply is Ok
            &&& next.answer(zone, Command::RequestCurrentSource, seq![REQUEST_QUERY]).1 == Ok::<
                _,
                CommandError,
            >(seq![source.code()])
        }),
{
    lemma_rc5_data_decodes(source_rc5_command(source));
}

/// After the remote control command DisplayOff, DisplayL1 or DisplayL2 (the pairs (0x10, 0x1f),
/// (0x10, 0x22) and (0x10, 0x23)) from either zone, the display of the mock amplifier is off, at
/// level 1 or at level 2, and a brightness query from either zone answers 0, 1 or 2 and leaves
/// the mock as it is.
pub proof fn lemma_brightness_set_then_query(state: AmpState, zone: ZoneNumber, query_zone: ZoneNumber)
    ensures
        ({
            let (next, reply) = state.answer(zone, Command::SimulateRC5IRCommand, seq![0x10u8, 0x1fu8]);
            &&& state.serviceable(zone, Command::SimulateRC5IRCommand, seq![0x10u8, 0x1fu8])
            &&& reply == Ok::<_, CommandError>(seq![0x10u8, 0x1fu8])
            &&& next.brightness == Brightness::Off
            &&& next.answer(query_zone, Command::DisplayBrightness, seq![0xf0u8]) == (
                next,
                Ok::<_, CommandError>(seq![0u8]),
            )
        }),
        ({
            let (next, reply) = state.answer(zone, Command::SimulateRC5IRCommand, seq![0x10u8, 0x22u8]);
            &&& state.serviceable(zone, Command::SimulateRC5IRCommand, seq![0x10u8, 0x22u8])
            &&& reply == Ok::<_, CommandError>(seq![0x10u8, 0x22u8])
            &&& next.brightness == Brightness::Level1
            &&& next.answer(query_zone, Command::DisplayBrightness, seq![0xf0u8]) == (
                next,
                Ok::<_, CommandError>(seq![1u8]),
            )
        }),
        ({
            let (next, reply) = state.answer(zone, Command::SimulateRC5IRCommand, seq![0x10u8, 0x23u8]);
            &&& state.serviceable(zone, Command::SimulateRC5IRCommand, seq![0x10u8, 0x23u8])
            &&& reply == Ok::<_, CommandError>(seq![0x10u8, 0x23u8])
            &&& next.brightness == Brightness::Level2
            &&& next.answer(query_zone, Command::DisplayBrightness, seq![0xf0u8]) == (
                next,
                Ok::<_, CommandError>(seq![2u8]),
            )
        }),
{
}

/// A video selection selects the source of the same name, and a source has a video source
/// exactly when it is one of those: reading back the video source of the selected source gives
/// the video selection.
pub proof fn lemma_video_sources(video_source: VideoSource, source: Source)
    ensures
        video_source_of(source_of_video(video_source)) == Some(video_source),
        video_source_of(source) matches Some(v) ==> source_of_video(v) == source,
        source_of_video(VideoSource::BD) == Source::BD,
        source_of_video(VideoSource::SAT) == Source::SAT,
        source_of_video(VideoSource::AV) == Source::AV,
        source_of_video(VideoSource::PVR) == Source::PVR,
        source_of_video(VideoSource::VCR) == Source::VCR,
        source_of_video(VideoSource::Game) == Source::GAME,
        source_of_video(VideoSource::STB) == Source::STB,
        video_source_of(Source::FollowZone1) is None,
        video_source_of(Source::CD) is None,
        video_source_of(Source::AUX) is None,
        video_source_of(Source::DISPLAY) is None,
        video_source_of(Source::TUNER) is None,
        video_source_of(Source::TUNERDAB) is None,
        video_source_of(Source::NET) is None,
        video_source_of(Source::USB) is None,
{
}

} // verus!
