//! The decisions between the user interface and the connection to the amplifier: which
//! [Request]s to send for what the user asks for, and what the user interface should show for
//! each [Response] that arrives.
//!
//! Sending the requests and changing the user interface are left to the program around this
//! library; the functions here compute what is sent and what is shown.

use vstd::prelude::*;

use crate::arcam_protocol::{
    get_rc5command_data, parse_response, response_header_known, Brightness, Command, MuteState,
    PacketError, PowerState, RC5Command, Request, Response, Source, ZoneNumber, REQUEST_QUERY,
};
use crate::control_window::ConnectedState;
use crate::text::{display_text, text_for_display};

verus! {

/// The request is for the given zone and command, with the given data.
pub open spec fn is_request(request: Request, zone: ZoneNumber, cc: Command, data: Seq<u8>) -> bool {
    &&& request.zone == zone
    &&& request.cc == cc
    &&& request.data@ == data
}

/// A request with one byte of data.
fn one_byte_request(zone: ZoneNumber, cc: Command, value: u8) -> (r: Request)
    ensures
        is_request(r, zone, cc, seq![value]),
{
    let data = vec![value];
    assert(data@ =~= seq![value]);
    Request { zone, cc, data }
}

/// The request asking the amplifier which value of `cc` is set for `zone`.
pub fn query_request(zone: ZoneNumber, cc: Command) -> (r: Request)
    ensures
        is_request(r, zone, cc, seq![REQUEST_QUERY]),
{
    one_byte_request(zone, cc, REQUEST_QUERY)
}

/// The request that simulates pressing `rc5command` on the remote control for `zone`.
pub fn rc5_request(zone: ZoneNumber, rc5command: RC5Command) -> (r: Request)
    ensures
        is_request(r, zone, Command::SimulateRC5IRCommand, seq![rc5command.data().0, rc5command.data().1]),
{
    let rc5_data = get_rc5command_data(rc5command);
    Request { zone, cc: Command::SimulateRC5IRCommand, data: vec![rc5_data.0, rc5_data.1] }
}

/// The request asking the amplifier for the brightness of its display.
pub fn brightness_request() -> (r: Request)
    ensures
        is_request(r, ZoneNumber::One, Command::DisplayBrightness, seq![REQUEST_QUERY]),
{
    query_request(ZoneNumber::One, Command::DisplayBrightness)
}

/// The request asking the amplifier for the power state of a zone.
pub fn power_request(zone: ZoneNumber) -> (r: Request)
    ensures
        is_request(r, zone, Command::Power, seq![REQUEST_QUERY]),
{
    query_request(zone, Command::Power)
}

/// The request asking the amplifier for the volume of a zone.
pub fn volume_request(zone: ZoneNumber) -> (r: Request)
    ensures
        is_request(r, zone, Command::SetRequestVolume, seq![REQUEST_QUERY]),
{
    query_request(zone, Command::SetRequestVolume)
}

/// The request asking the amplifier for the mute state of a zone.
pub fn mute_request(zone: ZoneNumber) -> (r: Request)
    ensures
        is_request(r, zone, Command::RequestMuteStatus, seq![REQUEST_QUERY]),
{
    query_request(zone, Command::RequestMuteStatus)
}

/// The request asking the amplifier for the source of a zone.
pub fn source_request(zone: ZoneNumber) -> (r: Request)
    ensures
        is_request(r, zone, Command::RequestCurrentSource, seq![REQUEST_QUERY]),
{
    query_request(zone, Command::RequestCurrentSource)
}

/// The remote control command that sets the power state of a zone.
pub open spec fn power_rc5_command(zone: ZoneNumber, power: PowerState) -> RC5Command {
    match (zone, power) {
        (ZoneNumber::One, PowerState::On) => RC5Command::PowerOn,
        (ZoneNumber::One, PowerState::Standby) => RC5Command::PowerOff,
        (ZoneNumber::Two, PowerState::On) => RC5Command::Zone2PowerOn,
        (ZoneNumber::Two, PowerState::Standby) => RC5Command::Zone2PowerOff,
    }
}

/// The requests that set the power state of a zone: the remote control command, then a query
/// of the power state, since the amplifier does not answer remote control commands with the
/// changed state.
pub fn set_power_requests(zone: ZoneNumber, power: PowerState) -> (r: Vec<Request>)
    ensures
        r@.len() == 2,
        is_request(r@[0], zone, Command::SimulateRC5IRCommand,
            seq![power_rc5_command(zone, power).data().0, power_rc5_command(zone, power).data().1]),
        is_request(r@[1], zone, Command::Power, seq![REQUEST_QUERY]),
{
    let rc5command = if zone == ZoneNumber::One {
        if power == PowerState::On { RC5Command::PowerOn } else { RC5Command::PowerOff }
    } else {
        if power == PowerState::On { RC5Command::Zone2PowerOn } else { RC5Command::Zone2PowerOff }
    };
    vec![rc5_request(zone, rc5command), power_request(zone)]
}

/// The request that sets the volume of a zone.
pub fn set_volume_request(zone: ZoneNumber, volume: u8) -> (r: Request)
    requires
        volume < 100,
    ensures
        is_request(r, zone, Command::SetRequestVolume, seq![volume]),
{
    one_byte_request(zone, Command::SetRequestVolume, volume)
}

/// The remote control command that sets the mute state of a zone.
pub open spec fn mute_rc5_command(zone: ZoneNumber, mute: MuteState) -> RC5Command {
    match (zone, mute) {
        (ZoneNumber::One, MuteState::Muted) => RC5Command::MuteOn,
        (ZoneNumber::One, MuteState::NotMuted) => RC5Command::MuteOff,
        (ZoneNumber::Two, MuteState::Muted) => RC5Command::Zone2MuteOn,
        (ZoneNumber::Two, MuteState::NotMuted) => RC5Command::Zone2MuteOff,
    }
}

/// The requests that set the mute state of a zone: the remote control command, then a query
/// of the mute state.
pub fn set_mute_requests(zone: ZoneNumber, mute: MuteState) -> (r: Vec<Request>)
    ensures
        r@.len() == 2,
        is_request(r@[0], zone, Command::SimulateRC5IRCommand,
            seq![mute_rc5_command(zone, mute).data().0, mute_rc5_command(zone, mute).data().1]),
        is_request(r@[1], zone, Command::RequestMuteStatus, seq![REQUEST_QUERY]),
{
    let rc5command = if zone == ZoneNumber::One {
        if mute == MuteState::Muted { RC5Command::MuteOn } else { RC5Command::MuteOff }
    } else {
        if mute == MuteState::Muted { RC5Command::Zone2MuteOn } else { RC5Command::Zone2MuteOff }
    };
    vec![rc5_request(zone, rc5command), mute_request(zone)]
}

/// The remote control command that selects a source. Both tuners are selected by the one
/// radio button; following zone 1 is for zone 2 only.
pub open spec fn source_rc5_command(source: Source) -> RC5Command {
    match source {
        Source::FollowZone1 => RC5Command::SetZone2ToFollowZone1,
        Source::CD => RC5Command::CD,
        Source::BD => RC5Command::BD,
        Source::AV => RC5Command::AV,
        Source::SAT => RC5Command::Sat,
        Source::PVR => RC5Command::PVR,
        Source::VCR => RC5Command::VCR,
        Source::AUX => RC5Command::Aux,
        Source::DISPLAY => RC5Command::Display,
        Source::TUNER => RC5Command::Radio,
        Source::TUNERDAB => RC5Command::Radio,
        Source::NET => RC5Command::Net,
        Source::USB => RC5Command::USB,
        Source::STB => RC5Command::STB,
        Source::GAME => RC5Command::Game,
    }
}

/// The requests that set the source of a zone: the remote control command, then a query of
/// the source.
pub fn set_source_requests(zone: ZoneNumber, source: Source) -> (r: Vec<Request>)
    requires
        source == Source::FollowZone1 ==> zone == ZoneNumber::Two,
    ensures
        r@.len() == 2,
        is_request(r@[0], zone, Command::SimulateRC5IRCommand,
            seq![source_rc5_command(source).data().0, source_rc5_command(source).data().1]),
        is_request(r@[1], zone, Command::RequestCurrentSource, seq![REQUEST_QUERY]),
{
    let rc5command = match source {
        Source::FollowZone1 => RC5Command::SetZone2ToFollowZone1,
        Source::CD => RC5Command::CD,
        Source::BD => RC5Command::BD,
        Source::AV => RC5Command::AV,
        Source::SAT => RC5Command::Sat,
        Source::PVR => RC5Command::PVR,
        Source::VCR => RC5Command::VCR,
        Source::AUX => RC5Command::Aux,
        Source::DISPLAY => RC5Command::Display,
        Source::TUNER => RC5Command::Radio,
        Source::TUNERDAB => RC5Command::Radio,
        Source::NET => RC5Command::Net,
        Source::USB => RC5Command::USB,
        Source::STB => RC5Command::STB,
        Source::GAME => RC5Command::Game,
    };
    vec![rc5_request(zone, rc5command), source_request(zone)]
}

/// The requests that fill in every display of the user interface, in the order in which they
/// are sent: brightness, then power, volume, mute state and source of zone 1 and of zone 2.
pub fn initialisation_requests() -> (r: Vec<Request>)
    ensures
        r@.len() == 9,
        is_request(r@[0], ZoneNumber::One, Command::DisplayBrightness, seq![REQUEST_QUERY]),
        is_request(r@[1], ZoneNumber::One, Command::Power, seq![REQUEST_QUERY]),
        is_request(r@[2], ZoneNumber::Two, Command::Power, seq![REQUEST_QUERY]),
        is_request(r@[3], ZoneNumber::One, Command::SetRequestVolume, seq![REQUEST_QUERY]),
        is_request(r@[4], ZoneNumber::Two, Command::SetRequestVolume, seq![REQUEST_QUERY]),
        is_request(r@[5], ZoneNumber::One, Command::RequestMuteStatus, seq![REQUEST_QUERY]),
        is_request(r@[6], ZoneNumber::Two, Command::RequestMuteStatus, seq![REQUEST_QUERY]),
        is_request(r@[7], ZoneNumber::One, Command::RequestCurrentSource, seq![REQUEST_QUERY]),
        is_request(r@[8], ZoneNumber::Two, Command::RequestCurrentSource, seq![REQUEST_QUERY]),
{
    vec![
        brightness_request(),
        power_request(ZoneNumber::One),
        power_request(ZoneNumber::Two),
        volume_request(ZoneNumber::One),
        volume_request(ZoneNumber::Two),
        mute_request(ZoneNumber::One),
        mute_request(ZoneNumber::Two),
        source_request(ZoneNumber::One),
        source_request(ZoneNumber::Two),
    ]
}

/// What the user interface should show for a response from the amplifier.
#[derive(Debug)]
pub enum DisplayUpdate {
    /// The power state of a zone.
    Power(ZoneNumber, PowerState),
    /// The brightness of the amplifier display.
    Brightness(Brightness),
    /// The volume of a zone.
    Volume(ZoneNumber, u8),
    /// The mute state of a zone.
    Mute(ZoneNumber, MuteState),
    /// The name of the radio station a zone is tuned to.
    RadioStation(ZoneNumber, String),
    /// The type of music on the radio station a zone is tuned to.
    MusicType(ZoneNumber, String),
    /// The DLS/PDT information of the radio station a zone is tuned to.
    DlsPdtInformation(ZoneNumber, String),
    /// The source of a zone.
    Source(ZoneNumber, Source),
    /// An answer to a simulated remote control command, which tells nothing of the state of
    /// the amplifier.
    RemoteControlAnswer,
    /// A response to a command that the user interface does not show.
    Unhandled(Command),
}

/// The response has the data that the user interface expects for its command: one byte
/// that stands for a value where a value is expected, 16 bytes of text for a station name or
/// music type, 129 bytes for DLS/PDT information and two bytes for a remote control command.
pub open spec fn response_displayable(response: Response) -> bool {
    let data = response.data@;
    match response.cc {
        Command::Power => data.len() == 1 && PowerState::from_code(data[0]) is Some,
        Command::DisplayBrightness => data.len() == 1 && Brightness::from_code(data[0]) is Some,
        Command::SetRequestVolume => data.len() == 1,
        Command::RequestMuteStatus => data.len() == 1 && MuteState::from_code(data[0]) is Some,
        Command::RequestDABStation => data.len() == 16,
        Command::ProgrammeTypeCategory => data.len() == 16,
        Command::DLSPDTInformation => data.len() == 129,
        Command::RequestCurrentSource => data.len() == 1 && Source::from_code(data[0]) is Some,
        Command::SimulateRC5IRCommand => data.len() == 2,
        _ => true,
    }
}

/// Whether the response has the data that the user interface expects for its command; see
/// [response_displayable].
pub fn is_displayable(response: &Response) -> (r: bool)
    ensures
        r == response_displayable(*response),
{
    let data = &response.data;
    match response.cc {
        Command::Power => data.len() == 1 && PowerState::from_u8(data[0]).is_some(),
        Command::DisplayBrightness => data.len() == 1 && Brightness::from_u8(data[0]).is_some(),
        Command::SetRequestVolume => data.len() == 1,
        Command::RequestMuteStatus => data.len() == 1 && MuteState::from_u8(data[0]).is_some(),
        Command::RequestDABStation => data.len() == 16,
        Command::ProgrammeTypeCategory => data.len() == 16,
        Command::DLSPDTInformation => data.len() == 129,
        Command::RequestCurrentSource => data.len() == 1 && Source::from_u8(data[0]).is_some(),
        Command::SimulateRC5IRCommand => data.len() == 2,
        _ => true,
    }
}

/// The text bytes of DLS/PDT information: those before the first nul byte, all of them where
/// there is none. (An AVR850 sends a nul terminated string padded out with spaces, where its
/// documentation speaks of a string padded with spaces.)
pub open spec fn text_before_nul(data: Seq<u8>) -> Seq<u8> {
    match data.index_of_first(0u8) {
        Some(i) => data.take(i),
        None => data,
    }
}

/// The bytes before the first nul byte, all of them where there is none.
fn bytes_before_nul(data: &Vec<u8>) -> (r: Vec<u8>)
    ensures
        r@ == text_before_nul(data@),
{
    let mut end: usize = 0;
    while end < data.len() && data[end] != 0
        invariant
            end <= data@.len(),
            forall|j: int| 0 <= j < end ==> data@[j] != 0u8,
        decreases data@.len() - end,
    {
        end = end + 1;
    }
    proof {
        data@.index_of_first_ensures(0u8);
        if end < data@.len() {
            assert(data@.contains(0u8));
        }
    }
    let mut text: Vec<u8> = Vec::new();
    let mut i: usize = 0;
    while i < end
        invariant
            i <= end <= data@.len(),
            text@ == data@.take(i as int),
        decreases end - i,
    {
        text.push(data[i]);
        i = i + 1;
        assert(text@ =~= data@.take(i as int));
    }
    assert(data@.take(data@.len() as int) =~= data@);
    text
}

/// Deal with a [Response] packet received from the amplifier: what the user interface should
/// show for it, and the connection state to show, which after any response is connected.
pub fn display_update(response: &Response) -> (r: (DisplayUpdate, ConnectedState))
    requires
        response_displayable(*response),
    ensures
        r.1 == ConnectedState::Connected,
        ({
            let r = r.0;
            let zone = response.zone;
            let data = response.data@;
            match response.cc {
                Command::Power => r == DisplayUpdate::Power(zone, PowerState::from_code(data[0]).unwrap()),
                Command::DisplayBrightness => r == DisplayUpdate::Brightness(
                    Brightness::from_code(data[0]).unwrap(),
                ),
                Command::SetRequestVolume => r == DisplayUpdate::Volume(zone, data[0]),
                Command::RequestMuteStatus => r == DisplayUpdate::Mute(zone, MuteState::from_code(data[0]).unwrap()),
                Command::RequestDABStation => r matches DisplayUpdate::RadioStation(z, text) && z
                    == zone && text@ == display_text(data),
                Command::ProgrammeTypeCategory => r matches DisplayUpdate::MusicType(z, text) && z
                    == zone && text@ == display_text(data),
                Command::DLSPDTInformation => r matches DisplayUpdate::DlsPdtInformation(z, text)
                    && z == zone && text@ == display_text(text_before_nul(data)),
                Command::RequestCurrentSource => r == DisplayUpdate::Source(zone, Source::from_code(data[0]).unwrap()),
                Command::SimulateRC5IRCommand => r is RemoteControlAnswer,
                cc => r == DisplayUpdate::Unhandled(cc),
            }
        }),
{
    let zone = response.zone;
    let update = match response.cc {
        Command::Power => DisplayUpdate::Power(zone, PowerState::from_u8(response.data[0]).unwrap()),
        Command::DisplayBrightness => DisplayUpdate::Brightness(
            Brightness::from_u8(response.data[0]).unwrap(),
        ),
        Command::SetRequestVolume => DisplayUpdate::Volume(zone, response.data[0]),
        Command::RequestMuteStatus => DisplayUpdate::Mute(zone, MuteState::from_u8(response.data[0]).unwrap()),
        Command::RequestDABStation => DisplayUpdate::RadioStation(zone, text_for_display(response.data.as_slice())),
        Command::ProgrammeTypeCategory => DisplayUpdate::MusicType(zone, text_for_display(response.data.as_slice())),
        Command::DLSPDTInformation => DisplayUpdate::DlsPdtInformation(
            zone,
            text_for_display(bytes_before_nul(&response.data).as_slice()),
        ),
        Command::RequestCurrentSource => DisplayUpdate::Source(zone, Source::from_u8(response.data[0]).unwrap()),
        Command::SimulateRC5IRCommand => DisplayUpdate::RemoteControlAnswer,
        cc => DisplayUpdate::Unhandled(cc),
    };
    (update, ConnectedState::Connected)
}

/// The queue of bytes received from the amplifier either starts with a whole response packet
/// or with the beginning of one: it holds no bytes that cannot be a packet.
pub open spec fn response_queue_parses(queue: Seq<u8>) -> bool {
    match parse_response(queue) {
        Ok(_) => true,
        Err(e) => e == PacketError::InsufficientBytes,
    }
}

/// Why the queue of bytes received from the amplifier cannot start with a response packet;
/// `None` where it starts with one or with the beginning of one. This tells a caller whether
/// [try_parse_of_response_data] may be called on the queue.
pub fn response_queue_error(queue: &[u8]) -> (r: Option<&'static str>)
    requires
        response_header_known(queue@),
    ensures
        r is None <==> response_queue_parses(queue@),
        r matches Some(message) ==> (parse_response(queue@) matches Err(e) && message@
            == e.spec_message()),
{
    match Response::parse_packet(queue) {
        Ok(_) => None,
        Err(PacketError::InsufficientBytes) => None,
        Err(e) => Some(e.message()),
    }
}

/// Attempt to extract a [Response] packet from the queue of bytes received from the amplifier.
///
/// Where the queue starts with a whole packet, its bytes are removed from the queue and the
/// response is given. Where the queue does not yet hold a whole packet, it is left as it is and
/// there is no response. The queue must not start with anything other than a packet.
pub fn try_parse_of_response_data(queue: &mut Vec<u8>) -> (r: Option<Response>)
    requires
        response_header_known(old(queue)@),
        response_queue_parses(old(queue)@),
    ensures
        match parse_response(old(queue)@) {
            Ok((zone, cc, ac, data, n)) => {
                &&& r matches Some(response) && response.zone == zone && response.cc == cc
                    && response.ac == ac && response.data@ == data
                &&& final(queue)@ == old(queue)@.subrange(n, old(queue)@.len() as int)
            },
            Err(_) => {
                &&& r is None
                &&& final(queue)@ == old(queue)@
            },
        },
{
    match Response::parse_packet(queue.as_slice()) {
        Ok((response, count)) => {
            let ghost start = queue@;
            let mut removed: usize = 0;
            while removed < count
                invariant
                    removed <= count <= start.len(),
                    queue@ == start.subrange(removed as int, start.len() as int),
                decreases count - removed,
            {
                queue.remove(0);
                removed = removed + 1;
            }
            Some(response)
        },
        Err(_) => None,
    }
}

/// The remote control commands sent to set a power state, mute state or source: for zone 1
/// PowerOn, PowerOff, MuteOn and MuteOff, for zone 2 their Zone2 forms, and for each source the
/// command that selects it (both tuners by Radio, following zone 1 by SetZone2ToFollowZone1).
pub proof fn lemma_remote_control_choices()
    ensures
        power_rc5_command(ZoneNumber::One, PowerState::On) == RC5Command::PowerOn,
        power_rc5_command(ZoneNumber::One, PowerState::Standby) == RC5Command::PowerOff,
        power_rc5_command(ZoneNumber::Two, PowerState::On) == RC5Command::Zone2PowerOn,
        power_rc5_command(ZoneNumber::Two, PowerState::Standby) == RC5Command::Zone2PowerOff,
        mute_rc5_command(ZoneNumber::One, MuteState::Muted) == RC5Command::MuteOn,
        mute_rc5_command(ZoneNumber::One, MuteState::NotMuted) == RC5Command::MuteOff,
        mute_rc5_command(ZoneNumber::Two, MuteState::Muted) == RC5Command::Zone2MuteOn,
        mute_rc5_command(ZoneNumber::Two, MuteState::NotMuted) == RC5Command::Zone2MuteOff,
        source_rc5_command(Source::FollowZone1) == RC5Command::SetZone2ToFollowZone1,
        source_rc5_command(Source::CD) == RC5Command::CD,
        source_rc5_command(Source::BD) == RC5Command::BD,
        source_rc5_command(Source::AV) == RC5Command::AV,
        source_rc5_command(Source::SAT) == RC5Command::Sat,
        source_rc5_command(Source::PVR) == RC5Command::PVR,
        source_rc5_command(Source::VCR) == RC5Command::VCR,
        source_rc5_command(Source::AUX) == RC5Command::Aux,
        source_rc5_command(Source::DISPLAY) == RC5Command::Display,
        source_rc5_command(Source::TUNER) == RC5Command::Radio,
        source_rc5_command(Source::TUNERDAB) == RC5Command::Radio,
        source_rc5_command(Source::NET) == RC5Command::Net,
        source_rc5_command(Source::USB) == RC5Command::USB,
        source_rc5_command(Source::STB) == RC5Command::STB,
        source_rc5_command(Source::GAME) == RC5Command::Game,
{
}

} // verus!
