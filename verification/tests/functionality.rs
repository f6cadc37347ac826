use arcamclient::arcam_protocol::{
    get_rc5command_data, AnswerCode, Brightness, Command, MuteState, PowerState, RC5Command,
    Response, Source, ZoneNumber, INSUFFICIENT_BYTES, NO_END_MARKER, NO_START_MARKER, REQUEST_QUERY,
};
use arcamclient::control_window::{
    connect_target, ConnectedState, DEFAULT_PORT_NUMBER, EMPTY_ADDRESS, NO_ADDRESS,
};
use arcamclient::functionality::{
    display_update, initialisation_requests, set_mute_requests, set_power_requests,
    set_source_requests, set_volume_request, response_queue_error, try_parse_of_response_data,
    DisplayUpdate,
};
use arcamclient::text::{decimal_string, text_for_display, trim};

fn update(response: &Response) -> DisplayUpdate {
    let (update, connected) = display_update(response);
    assert_eq!(connected, ConnectedState::Connected);
    update
}

fn response(cc: Command, data: Vec<u8>) -> Response {
    Response::new(ZoneNumber::Two, cc, AnswerCode::StatusUpdate, data).unwrap()
}

#[test]
fn initialisation_asks_for_every_display() {
    let requests = initialisation_requests();
    let expected = [
        (ZoneNumber::One, Command::DisplayBrightness),
        (ZoneNumber::One, Command::Power),
        (ZoneNumber::Two, Command::Power),
        (ZoneNumber::One, Command::SetRequestVolume),
        (ZoneNumber::Two, Command::SetRequestVolume),
        (ZoneNumber::One, Command::RequestMuteStatus),
        (ZoneNumber::Two, Command::RequestMuteStatus),
        (ZoneNumber::One, Command::RequestCurrentSource),
        (ZoneNumber::Two, Command::RequestCurrentSource),
    ];
    assert_eq!(requests.len(), 9);
    for (request, (zone, cc)) in requests.iter().zip(expected.iter()) {
        assert_eq!((request.zone, request.cc, request.data.clone()), (*zone, *cc, vec![REQUEST_QUERY]));
    }
}

#[test]
fn setting_sends_the_remote_control_command_then_a_query() {
    let requests = set_power_requests(ZoneNumber::Two, PowerState::On);
    assert_eq!(requests[0].to_bytes(), vec![0x21, 2, 0x08, 2, 0x17, 0x7b, 0x0d]);
    assert_eq!(requests[1].to_bytes(), vec![0x21, 2, 0x00, 1, REQUEST_QUERY, 0x0d]);
    let requests = set_mute_requests(ZoneNumber::One, MuteState::Muted);
    let data = get_rc5command_data(RC5Command::MuteOn);
    assert_eq!(requests[0].data, vec![data.0, data.1]);
    assert_eq!(requests[1].cc, Command::RequestMuteStatus);
    let requests = set_source_requests(ZoneNumber::One, Source::TUNERDAB);
    let data = get_rc5command_data(RC5Command::Radio);
    assert_eq!(requests[0].data, vec![data.0, data.1]);
    assert_eq!(requests[1].cc, Command::RequestCurrentSource);
    let requests = set_source_requests(ZoneNumber::Two, Source::FollowZone1);
    assert_eq!(requests[0].data, vec![0x10, 0x14]);
    let request = set_volume_request(ZoneNumber::One, 99);
    assert_eq!(request.to_bytes(), vec![0x21, 1, 0x0d, 1, 99, 0x0d]);
}

#[test]
fn display_updates_for_responses() {
    match update(&response(Command::Power, vec![1])) {
        DisplayUpdate::Power(ZoneNumber::Two, PowerState::On) => {},
        u => panic!("{:?}", u),
    }
    match update(&response(Command::DisplayBrightness, vec![0])) {
        DisplayUpdate::Brightness(Brightness::Off) => {},
        u => panic!("{:?}", u),
    }
    match update(&response(Command::SetRequestVolume, vec![45])) {
        DisplayUpdate::Volume(ZoneNumber::Two, 45) => {},
        u => panic!("{:?}", u),
    }
    match update(&response(Command::RequestMuteStatus, vec![0])) {
        DisplayUpdate::Mute(ZoneNumber::Two, MuteState::Muted) => {},
        u => panic!("{:?}", u),
    }
    match update(&response(Command::RequestCurrentSource, vec![0x0B])) {
        DisplayUpdate::Source(ZoneNumber::Two, Source::TUNER) => {},
        u => panic!("{:?}", u),
    }
    match update(&response(Command::RequestDABStation, b"Smooth Country  ".to_vec())) {
        DisplayUpdate::RadioStation(ZoneNumber::Two, s) => assert_eq!(s, "Smooth Country"),
        u => panic!("{:?}", u),
    }
    match update(&response(Command::ProgrammeTypeCategory, b"  Country Music ".to_vec())) {
        DisplayUpdate::MusicType(ZoneNumber::Two, s) => assert_eq!(s, "Country Music"),
        u => panic!("{:?}", u),
    }
    let mut dls = b"Now on Smooth: Living In A Box\0\0".to_vec();
    dls.resize(129, b' ');
    match update(&response(Command::DLSPDTInformation, dls)) {
        DisplayUpdate::DlsPdtInformation(ZoneNumber::Two, s) => assert_eq!(s, "Now on Smooth: Living In A Box"),
        u => panic!("{:?}", u),
    }
    let mut dls = vec![b' '; 128];
    dls.push(b'A');
    match update(&response(Command::DLSPDTInformation, dls)) {
        DisplayUpdate::DlsPdtInformation(ZoneNumber::Two, s) => assert_eq!(s, "A"),
        u => panic!("{:?}", u),
    }
    let mut bad = vec![0xffu8, 0xfe];
    bad.resize(16, b' ');
    match update(&response(Command::RequestDABStation, bad)) {
        DisplayUpdate::RadioStation(ZoneNumber::Two, s) => assert_eq!(s, ""),
        u => panic!("{:?}", u),
    }
    match update(&response(Command::SimulateRC5IRCommand, vec![0x10, 0x0c])) {
        DisplayUpdate::RemoteControlAnswer => {},
        u => panic!("{:?}", u),
    }
    match update(&response(Command::Heartbeat, vec![])) {
        DisplayUpdate::Unhandled(Command::Heartbeat) => {},
        u => panic!("{:?}", u),
    }
}

#[test]
fn response_queue_is_consumed_a_packet_at_a_time() {
    let first = response(Command::Power, vec![1]).to_bytes();
    let second = response(Command::SetRequestVolume, vec![20]).to_bytes();
    let mut queue = first.clone();
    queue.extend_from_slice(&second[..3]);
    assert_eq!(response_queue_error(&queue), None);
    let parsed = try_parse_of_response_data(&mut queue).unwrap();
    assert_eq!(parsed, response(Command::Power, vec![1]));
    assert_eq!(queue, second[..3].to_vec());
    assert_eq!(response_queue_error(&queue), None);
    assert_eq!(try_parse_of_response_data(&mut queue), None);
    assert_eq!(queue, second[..3].to_vec());
    queue.extend_from_slice(&second[3..]);
    assert_eq!(try_parse_of_response_data(&mut queue).unwrap(), response(Command::SetRequestVolume, vec![20]));
    assert!(queue.is_empty());
    assert_eq!(try_parse_of_response_data(&mut queue), None);
    let junk = vec![0x41, 0x42, 0x43, 0x44, 0x45, 0x46];
    assert_eq!(response_queue_error(&junk), Some(NO_START_MARKER));
    let mut unended = response(Command::Power, vec![1]).to_bytes();
    unended[6] = 0;
    assert_eq!(response_queue_error(&unended), Some(NO_END_MARKER));
    assert_eq!(response_queue_error(&[21, 0, 0, 0, 0, 0]), Some(NO_START_MARKER));
    assert_eq!(INSUFFICIENT_BYTES, "Insufficient bytes to form a packet.");
}

#[test]
fn text_and_numbers_for_display() {
    assert_eq!(text_for_display(b"  Smooth  "), "Smooth");
    assert_eq!(text_for_display(&[0xff]), "");
    assert_eq!(text_for_display("\u{a0}Radio 3\u{3000}\n".as_bytes()), "Radio 3");
    for text in ["", "   ", " a b ", "\t\r\nx", "y\u{2028}", "\u{200b}z\u{200b}", "\u{85}\u{1680}w", "é "] {
        assert_eq!(trim(text), text.trim());
    }
    assert_eq!(decimal_string(0), "0");
    assert_eq!(decimal_string(7), "7");
    assert_eq!(decimal_string(42), "42");
    assert_eq!(decimal_string(100), "100");
    assert_eq!(decimal_string(255), "255");
}

#[test]
fn connected_state_conversions() {
    assert_eq!(ConnectedState::from(true), ConnectedState::Connected);
    assert!(!bool::from(ConnectedState::NotConnected));
    assert_eq!(ConnectedState::NotConnected.to_string(), "Not Connected");
    assert_eq!(ConnectedState::from_label("Connected"), ConnectedState::Connected);
    assert_eq!(ConnectedState::from_label("Not Connected"), ConnectedState::NotConnected);
    assert_eq!(ConnectedState::parse_label("connected"), None);
}

#[test]
fn connect_target_needs_an_address() {
    assert_eq!(connect_target(None, None), Err(NO_ADDRESS));
    assert_eq!(connect_target(Some(""), Some(50001)), Err(EMPTY_ADDRESS));
    assert_eq!(connect_target(Some("192.168.1.20"), None), Ok(("192.168.1.20".to_string(), DEFAULT_PORT_NUMBER)));
    assert_eq!(connect_target(Some("localhost"), Some(50001)), Ok(("localhost".to_string(), 50001)));
    assert_eq!(DEFAULT_PORT_NUMBER, 50000);
}
