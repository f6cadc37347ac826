use arcamclient::arcam_protocol::{
    get_rc5command_data, packet_is_describable, AnswerCode, Brightness, Command, MuteState, PowerState, RC5Command,
    Request, Response, Source, VideoSource, ZoneNumber, INSUFFICIENT_BYTES, NO_END_MARKER,
    NO_START_MARKER, PACKET_END, PACKET_START, REQUEST_DATA_TOO_LONG, REQUEST_QUERY,
    RESPONSE_DATA_TOO_LONG,
};

#[test]
fn create_display_brightness_request() {
    let request = Request::new(ZoneNumber::One, Command::DisplayBrightness, vec![REQUEST_QUERY]).unwrap();
    assert_eq!(
        request.to_bytes(),
        [PACKET_START, ZoneNumber::One.to_u8(), Command::DisplayBrightness.to_u8(), 0x01, REQUEST_QUERY, PACKET_END]
    );
}

#[test]
fn create_get_volume_request() {
    let request = Request::new(ZoneNumber::One, Command::SetRequestVolume, vec![REQUEST_QUERY]).unwrap();
    assert_eq!(
        request.to_bytes(),
        [PACKET_START, ZoneNumber::One.to_u8(), Command::SetRequestVolume.to_u8(), 0x01, REQUEST_QUERY, PACKET_END]
    );
}

#[test]
fn create_set_volume_request() {
    let request = Request::new(ZoneNumber::One, Command::SetRequestVolume, vec![20]).unwrap();
    assert_eq!(
        request.to_bytes(),
        [PACKET_START, ZoneNumber::One.to_u8(), Command::SetRequestVolume.to_u8(), 0x01, 0x14, PACKET_END]
    );
}

#[test]
fn parse_empty_request_buffer() {
    if let Err(e) = Request::parse_bytes(&[]) {
        assert_eq!(e, "Insufficient bytes to form a packet.");
    };
}

#[test]
fn parse_request_buffer_with_incorrect_start_marker() {
    if let Err(e) = Request::parse_bytes(&[21, 0, 0, 0, 0, 0]) {
        assert_eq!(e, "First byte is not the start of packet marker.");
    };
}

#[test]
fn parse_valid_set_volume_request() {
    let request = Request::new(ZoneNumber::One, Command::SetRequestVolume, vec![20]).unwrap();
    assert_eq!(Request::parse_bytes(&request.to_bytes()).unwrap(), (request, 6));
}

#[test]
fn parse_buffer_with_multiple_request_packets() {
    let r1 = Request::new(ZoneNumber::One, Command::RequestCurrentSource, vec![REQUEST_QUERY]).unwrap();
    let r2 = Request::new(ZoneNumber::One, Command::DisplayBrightness, vec![REQUEST_QUERY]).unwrap();
    let r3 = Request::new(ZoneNumber::One, Command::SetRequestVolume, vec![30u8]).unwrap();
    let mut input = r1.to_bytes();
    input.append(&mut r2.to_bytes());
    input.append(&mut r3.to_bytes());
    assert_eq!(input, vec![
        PACKET_START, ZoneNumber::One.to_u8(), Command::RequestCurrentSource.to_u8(), 1, REQUEST_QUERY, PACKET_END,
        PACKET_START, ZoneNumber::One.to_u8(), Command::DisplayBrightness.to_u8(), 1, REQUEST_QUERY, PACKET_END,
        PACKET_START, ZoneNumber::One.to_u8(), Command::SetRequestVolume.to_u8(), 1, 30, PACKET_END,
    ]);
    assert_eq!(
        Request::parse_bytes(&input).unwrap(),
        (r1, 6)
    );
}

#[test]
fn cannot_create_zone_zero() {
    let zone: Option<ZoneNumber> = ZoneNumber::from_u8(0);
    assert!(zone.is_none())
}

#[test]
fn cannot_create_zone_four() {
    let zone: Option<ZoneNumber> = ZoneNumber::from_u8(4);
    assert!(zone.is_none())
}

#[test]
fn cannot_create_unknown_command() {
    // We know that 0x61 is not known Command.
    let cc: Option<Command> = Command::from_u8(0x61);
    assert!(cc.is_none());
}

#[test]
fn data_length_must_be_less_than_256() {
    assert!(Request::new(ZoneNumber::One, Command::Power, vec![0u8; 300]).is_err());
}

#[test]
fn create_display_brightness_response() {
    let response = Response::new(ZoneNumber::One, Command::DisplayBrightness, AnswerCode::StatusUpdate, vec![Brightness::Level1.to_u8()]).unwrap();
    assert_eq!(
        response.to_bytes(),
        [PACKET_START, ZoneNumber::One.to_u8(), Command::DisplayBrightness.to_u8(), AnswerCode::StatusUpdate.to_u8(), 0x01, Brightness::Level1.to_u8(), PACKET_END]
    );
}

#[test]
fn parse_empty_response_buffer() {
    if let Err(e) = Response::parse_bytes(&[]) {
        assert_eq!(e, "Insufficient bytes to form a packet.");
    };
}

#[test]
fn parse_response_buffer_with_incorrect_start_marker() {
    if let Err(e) = Response::parse_bytes(&[21, 0, 0, 0, 0, 0]) {
        assert_eq!(e, "First byte is not the start of packet marker.");
    };
}

#[test]
fn parse_valid_display_brightness_response() {
    let response = Response::new(ZoneNumber::One, Command::DisplayBrightness, AnswerCode::StatusUpdate, vec![0x01]).unwrap();
    assert_eq!(
        Response::parse_bytes(&response.to_bytes()).unwrap(),
        (response, 7)
    );
}

#[test]
fn parse_buffer_with_multiple_response_packets() {
    let r1 = Response::new(ZoneNumber::One, Command::RequestCurrentSource, AnswerCode::StatusUpdate, vec![REQUEST_QUERY]).unwrap();
    let r2 = Response::new(ZoneNumber::One, Command::DisplayBrightness, AnswerCode::StatusUpdate, vec![REQUEST_QUERY]).unwrap();
    let r3 = Response::new(ZoneNumber::One, Command::SetRequestVolume, AnswerCode::StatusUpdate, vec![30u8]).unwrap();
    let mut input = r1.to_bytes();
    input.append(&mut r2.to_bytes());
    input.append(&mut r3.to_bytes());
    assert_eq!(input, vec![
        PACKET_START, ZoneNumber::One.to_u8(), Command::RequestCurrentSource.to_u8(), AnswerCode::StatusUpdate.to_u8(), 1, REQUEST_QUERY, PACKET_END,
        PACKET_START, ZoneNumber::One.to_u8(), Command::DisplayBrightness.to_u8(), AnswerCode::StatusUpdate.to_u8(), 1, REQUEST_QUERY, PACKET_END,
        PACKET_START, ZoneNumber::One.to_u8(), Command::SetRequestVolume.to_u8(), AnswerCode::StatusUpdate.to_u8(), 1, 30, PACKET_END,
    ]);
    assert_eq!(
        Response::parse_bytes(&input).unwrap(),
        (r1, 7)
    );
}

//  Some real response packets from an AVR850.

#[test]
fn create_station_name_response() {
    let response = Response::new(ZoneNumber::One, Command::RequestDABStation, AnswerCode::StatusUpdate, "Smooth Country  ".as_bytes().to_vec()).unwrap();
    assert_eq!(
        response.to_bytes(),
        [33, 1, 24, 0, 16, 83, 109, 111, 111, 116, 104, 32, 67, 111, 117, 110, 116, 114, 121, 32, 32, 13]
    )
}

#[test]
fn parse_station_name_response() {
    let input = [33, 1, 24, 0, 16, 83, 109, 111, 111, 116, 104, 32, 67, 111, 117, 110, 116, 114, 121, 32, 32, 13];
    let response = Response::new(ZoneNumber::One, Command::RequestDABStation, AnswerCode::StatusUpdate, "Smooth Country  ".as_bytes().to_vec()).unwrap();
    assert_eq!(Response::parse_bytes(&input).unwrap(), (response, 22));
}

#[test]
fn create_station_category_response() {
    let response = Response::new(ZoneNumber::One, Command::ProgrammeTypeCategory, AnswerCode::StatusUpdate, "Country Music   ".as_bytes().to_vec()).unwrap();
    assert_eq!(
        response.to_bytes(),
        [33, 1, 25, 0, 16, 67, 111, 117, 110, 116, 114, 121, 32, 77, 117, 115, 105, 99, 32, 32, 32, 13]
    );
}

#[test]
fn parse_station_category_response() {
    let input = [33, 1, 25, 0, 16, 67, 111, 117, 110, 116, 114, 121, 32, 77, 117, 115, 105, 99, 32, 32, 32, 13];
    let response = Response::new(ZoneNumber::One, Command::ProgrammeTypeCategory, AnswerCode::StatusUpdate, "Country Music   ".as_bytes().to_vec()).unwrap();
    assert_eq!(Response::parse_bytes(&input).unwrap(), (response, 22));
}

#[test]
fn parse_station_rds_dls() {
    // String here is actually "Now on Smooth: Living In A Box with Room In Your Heart"
    let input = [33, 1, 26, 0, 129, 12, 78, 111, 119, 32, 111, 110, 32, 83, 109, 111, 111, 116, 104, 58,
            32, 76, 105, 118, 105, 110, 103, 32, 73, 110, 32, 65, 32, 66, 111, 120, 32, 119, 105, 116, 104, 32, 82,
            111, 111, 109, 32, 73, 110, 32, 89, 111, 117, 114, 32, 72, 101, 97, 114, 116, 0, 0, 32, 32, 32, 32, 32,
            32, 32, 32, 32, 32, 32, 32, 32, 32, 32, 32, 32, 32, 32, 32, 32, 32, 32, 32, 32, 32, 32, 32, 32, 32, 32,
            32, 32, 32, 32, 32, 32, 32, 32, 32, 32, 32, 32, 32, 32, 32, 32, 32, 32, 32, 32, 32, 32, 32, 32, 32, 32,
            32, 32, 32, 32, 32, 32, 32, 32, 32, 32, 32, 32, 32, 32, 32, 13,];
    assert_eq!(input.len(), 135);
    let response = Response::new(ZoneNumber::One, Command::DLSPDTInformation, AnswerCode::StatusUpdate,
                                 vec![12, 78, 111, 119, 32, 111, 110, 32, 83, 109, 111, 111, 116, 104, 58,
              32, 76, 105, 118, 105, 110, 103, 32, 73, 110, 32, 65, 32, 66, 111, 120, 32, 119, 105, 116, 104, 32, 82,
              111, 111, 109, 32, 73, 110, 32, 89, 111, 117, 114, 32, 72, 101, 97, 114, 116, 0, 0, 32, 32, 32, 32, 32,
              32, 32, 32, 32, 32, 32, 32, 32, 32, 32, 32, 32, 32, 32, 32, 32, 32, 32, 32, 32, 32, 32, 32, 32, 32, 32,
              32, 32, 32, 32, 32, 32, 32, 32, 32, 32, 32, 32, 32, 32, 32, 32, 32, 32, 32, 32, 32, 32, 32, 32, 32, 32,
              32, 32, 32, 32, 32, 32, 32, 32, 32, 32, 32, 32, 32, 32, 32,]).unwrap();
    assert_eq!(Response::parse_bytes(&input).unwrap(), (response, 135));
}

#[test]
fn rc5_data_correctly_accessed() {
    assert_eq!(get_rc5command_data(RC5Command::Nine), (0x10, 0x09));
}

#[test]
fn rc5command_round_trip() {
    let expected = RC5Command::One;
    let result: RC5Command = RC5Command::from_data(get_rc5command_data(expected));
    assert_eq!(result, expected);
}

// Further cases.

#[test]
fn rc5_shared_pairs_decode_to_the_first_command() {
    assert_eq!(get_rc5command_data(RC5Command::Yellow), (0x10, 0x2b));
    assert_eq!(RC5Command::from_data(get_rc5command_data(RC5Command::Yellow)), RC5Command::HOME);
    assert_eq!(get_rc5command_data(RC5Command::Blue), (0x10, 0x37));
    assert_eq!(RC5Command::from_data(get_rc5command_data(RC5Command::Blue)), RC5Command::CycleBetweenVFDInformationPanels);
    assert_eq!(RC5Command::from_data((0x17, 0x14)), RC5Command::Zone2Sat);
    assert_eq!(RC5Command::from_data((0x10, 0x14)), RC5Command::SetZone2ToFollowZone1);
    assert_eq!(RC5Command::decode((0x10, 0x14)), Some(RC5Command::SetZone2ToFollowZone1));
    assert_eq!(RC5Command::from_vec(&vec![0x17, 0x7b]), RC5Command::Zone2PowerOn);
}

#[test]
fn rc5_pairs_of_no_command_are_recognised() {
    assert_eq!(RC5Command::decode((0x11, 0x00)), None);
    assert_eq!(RC5Command::decode((0x00, 0x00)), None);
    assert_eq!(RC5Command::decode((0x10, 0x13)), None);
    assert_eq!(RC5Command::decode((0x17, 0x00)), None);
}

#[test]
fn codes_round_trip() {
    for b in 0..=255u8 {
        if let Some(z) = ZoneNumber::from_u8(b) { assert_eq!(z.to_u8(), b); }
        if let Some(c) = Command::from_u8(b) { assert_eq!(c.to_u8(), b); }
        if let Some(a) = AnswerCode::from_u8(b) { assert_eq!(a.to_u8(), b); }
        if let Some(s) = Source::from_u8(b) { assert_eq!(s.to_u8(), b); }
        if let Some(v) = VideoSource::from_u8(b) { assert_eq!(v.to_u8(), b); }
    }
    assert_eq!(Command::from_u8(0x1D), Some(Command::RequestCurrentSource));
    assert_eq!(Command::RequestDABStation.to_u8(), 0x18);
    assert_eq!(AnswerCode::from_u8(0x86), Some(AnswerCode::InvalidDataLength));
    assert_eq!(Source::TUNERDAB.to_u8(), 0x0C);
    assert_eq!(Source::from_u8(0x07), None);
    assert_eq!(VideoSource::Game.to_u8(), 0x05);
    assert_eq!(MuteState::Muted.to_u8(), 0);
    assert_eq!(PowerState::from_u8(1), Some(PowerState::On));
    assert_eq!(Brightness::from_u8(3), None);
}

#[test]
fn labels_round_trip() {
    for b in [Brightness::Off, Brightness::Level1, Brightness::Level2] {
        assert_eq!(Brightness::from_label(&b.to_string()), b);
    }
    assert_eq!(Brightness::Level1.to_string(), "Level1");
    assert_eq!(PowerState::Standby.to_string(), "Standby");
    assert_eq!(PowerState::from_label("On"), PowerState::On);
    assert_eq!(PowerState::parse_label("on"), None);
    assert_eq!(MuteState::NotMuted.to_string(), "Not Muted");
    assert_eq!(MuteState::from_label("Muted"), MuteState::Muted);
    assert_eq!(MuteState::from_label("Not Muted"), MuteState::NotMuted);
    assert_eq!(MuteState::parse_label("muted"), None);
    assert_eq!(Source::from_label("TUNERDAB"), Source::TUNERDAB);
    assert_eq!(Brightness::parse_label("Level3"), None);
    assert_eq!(Source::GAME.label_string(), "GAME");
    assert_eq!(Source::parse_label("Game"), None);
}

#[test]
fn bool_conversions() {
    assert_eq!(PowerState::from(true), PowerState::On);
    assert_eq!(PowerState::from(false), PowerState::Standby);
    assert!(bool::from(PowerState::On));
    assert_eq!(MuteState::from(true), MuteState::Muted);
    assert!(!bool::from(MuteState::NotMuted));
}

#[test]
fn request_and_response_errors() {
    assert_eq!(Request::new(ZoneNumber::Two, Command::Power, vec![0u8; 256]).unwrap_err(), REQUEST_DATA_TOO_LONG);
    assert!(Request::new(ZoneNumber::Two, Command::Power, vec![0u8; 255]).is_ok());
    assert_eq!(Response::new(ZoneNumber::Two, Command::Power, AnswerCode::StatusUpdate, vec![0u8; 256]).unwrap_err(), RESPONSE_DATA_TOO_LONG);
    assert_eq!(Request::parse_bytes(&[PACKET_START, 1, 0, 1, 0xf0]).unwrap_err(), INSUFFICIENT_BYTES);
    assert_eq!(Request::parse_bytes(&[PACKET_START, 1, 0, 1, 0xf0, 0x0e]).unwrap_err(), NO_END_MARKER);
    assert_eq!(Response::parse_bytes(&[0, 1, 0, 0, 1, 0xf0, 0x0d]).unwrap_err(), NO_START_MARKER);
    assert_eq!(Response::parse_bytes(&[PACKET_START, 1, 0, 0, 1, 0xf0]).unwrap_err(), INSUFFICIENT_BYTES);
    assert!(!Request::header_is_known(&[PACKET_START, 3, 0, 1, 0xf0, 0x0d]));
    assert!(!Request::header_is_known(&[PACKET_START, 1, 0x61, 1, 0xf0, 0x0d]));
    assert!(Request::header_is_known(&[PACKET_START, 3, 0, 1]));
    assert!(!Response::header_is_known(&[PACKET_START, 1, 0, 0x81, 1, 0xf0, 0x0d]));
}

#[test]
fn request_with_empty_data_round_trips() {
    let request = Request::new(ZoneNumber::Two, Command::Heartbeat, vec![]).unwrap();
    let mut bytes = request.to_bytes();
    assert_eq!(bytes, vec![0x21, 2, 0x25, 0, 0x0d]);
    bytes.extend_from_slice(&[1, 2, 3]);
    assert_eq!(Request::parse_bytes(&bytes).unwrap(), (request, 5));
}

#[test]
fn packet_descriptions() {
    let request = Request::new(ZoneNumber::One, Command::DisplayBrightness, vec![REQUEST_QUERY]).unwrap();
    assert!(packet_is_describable(request.cc, &request.data));
    assert_eq!(
        request.debug_text(),
        "Request { zone: One, cc: DisplayBrightness, data: [240], value: \"RequestQuery\" }"
    );
    let request = Request::new(ZoneNumber::Two, Command::SimulateRC5IRCommand, vec![0x10, 0x3b]).unwrap();
    assert_eq!(
        request.debug_text(),
        "Request { zone: Two, cc: SimulateRC5IRCommand, data: [16, 59], rc5command: DISP_ChangeVFDBrightness }"
    );
    let response = Response::new(ZoneNumber::One, Command::RequestCurrentSource, AnswerCode::StatusUpdate, vec![0x0B]).unwrap();
    assert_eq!(
        response.debug_text(),
        "Response { zone: One, cc: RequestCurrentSource, ac: StatusUpdate, data: [11], value: TUNER }"
    );
    let response = Response::new(ZoneNumber::Two, Command::SetRequestVolume, AnswerCode::ParameterNotRecognized, vec![]).unwrap();
    assert_eq!(
        response.debug_text(),
        "Response { zone: Two, cc: SetRequestVolume, ac: ParameterNotRecognized, data: [] }"
    );
    let response = Response::new(ZoneNumber::One, Command::SetRequestVolume, AnswerCode::StatusUpdate, vec![0, 100, 255]).unwrap();
    assert_eq!(
        response.debug_text(),
        "Response { zone: One, cc: SetRequestVolume, ac: StatusUpdate, data: [0, 100, 255] }"
    );
    assert!(!packet_is_describable(Command::SimulateRC5IRCommand, &vec![0x17, 0x00]));
    assert!(!packet_is_describable(Command::SimulateRC5IRCommand, &vec![0x10]));
    assert!(!packet_is_describable(Command::RequestCurrentSource, &vec![0x07]));
    assert!(packet_is_describable(Command::RequestCurrentSource, &vec![REQUEST_QUERY]));
}

#[test]
fn packet_descriptions_match_the_derived_names() {
    assert_eq!(RC5Command::Zone2PowerOn.name(), format!("{:?}", RC5Command::Zone2PowerOn));
    assert_eq!(Command::DLSPDTInformation.name(), format!("{:?}", Command::DLSPDTInformation));
    assert_eq!(AnswerCode::CommandInvalidAtThisTime.name(), format!("{:?}", AnswerCode::CommandInvalidAtThisTime));
    assert_eq!(ZoneNumber::Two.name(), "Two");
}
