use std::str::from_utf8;

use arcamclient::arcam_protocol::{
    get_rc5command_data, AnswerCode, Brightness, Command, MuteState, PowerState, RC5Command,
    Request, Response, Source, ZoneNumber, REQUEST_QUERY,
};
use arcamclient::mock_avr850::{amx_response, AmpState};

// Each test starts from a fresh mock amplifier in its default state.

#[test]
fn get_display_brightness() {
    let mut amp_state = AmpState::default();
    assert_eq!(amp_state.brightness, Brightness::Level2);
    assert_eq!(
        amp_state.create_command_response(&Request::new(ZoneNumber::One, Command::DisplayBrightness, vec![REQUEST_QUERY]).unwrap()).0.unwrap(),
        Response::new(ZoneNumber::One, Command::DisplayBrightness, AnswerCode::StatusUpdate, vec![Brightness::Level2.to_u8()]).unwrap());
    assert_eq!(amp_state.brightness, Brightness::Level2);
}

#[test]
fn set_display_brightness_error() {
    let mut amp_state = AmpState::default();
    assert_eq!(amp_state.brightness, Brightness::Level2);
    match amp_state.create_command_response(&Request::new(ZoneNumber::One, Command::DisplayBrightness, vec![Brightness::Level2.to_u8()]).unwrap()).0 {
        Ok(_) => assert!(false),
        Err(e) => assert_eq!(e.message(), "Incorrect DisplayBrightness command 2."),
    }
    assert_eq!(amp_state.brightness, Brightness::Level2);
}

#[test]
fn set_display_brightness_using_rc5() {
    let mut amp_state = AmpState::default();
    assert_eq!(amp_state.brightness, Brightness::Level2);
    let rc5_data = get_rc5command_data(RC5Command::DisplayL1);
    let data = vec![rc5_data.0, rc5_data.1];
    assert_eq!(
        amp_state.create_command_response(&Request::new(ZoneNumber::One, Command::SimulateRC5IRCommand, data.clone()).unwrap()).0.unwrap(),
        Response::new(ZoneNumber::One, Command::SimulateRC5IRCommand, AnswerCode::StatusUpdate, data).unwrap());
    assert_eq!(amp_state.brightness, Brightness::Level1);
}

#[test]
fn get_zone_1_power() {
    let mut amp_state = AmpState::default();
    assert_eq!(amp_state.zone(ZoneNumber::One).power, PowerState::On);
    assert_eq!(
        amp_state.create_command_response(&Request::new(ZoneNumber::One, Command::Power, vec![REQUEST_QUERY]).unwrap()).0.unwrap(),
        Response::new(ZoneNumber::One, Command::Power, AnswerCode::StatusUpdate, vec![PowerState::On.to_u8()]).unwrap());
    assert_eq!(amp_state.zone(ZoneNumber::One).power, PowerState::On);
}

#[test]
fn set_zone_1_power_error() {
    let mut amp_state = AmpState::default();
    assert_eq!(amp_state.zone(ZoneNumber::One).power, PowerState::On);
    match amp_state.create_command_response(&Request::new(ZoneNumber::One, Command::Power, vec![0x0]).unwrap()).0 {
        Ok(_) => assert!(false),
        Err(e) => assert_eq!(e.message(), "Incorrect Power command 0."),
    }
}

#[test]
fn set_zone_1_power_using_rc5() {
    let mut amp_state = AmpState::default();
    assert_eq!(amp_state.zone(ZoneNumber::One).power, PowerState::On);
    let rc5_data = get_rc5command_data(RC5Command::PowerOff);
    let data = vec![rc5_data.0, rc5_data.1];
    assert_eq!(
        amp_state.create_command_response(&Request::new(ZoneNumber::One, Command::SimulateRC5IRCommand, data.clone()).unwrap()).0.unwrap(),
        Response::new(ZoneNumber::One, Command::SimulateRC5IRCommand, AnswerCode::StatusUpdate, data).unwrap());
    assert_eq!(amp_state.zone(ZoneNumber::One).power, PowerState::Standby);
}

#[test]
fn get_zone_1_volume() {
    let mut amp_state = AmpState::default();
    let volume = 30u8;
    assert_eq!(amp_state.zone(ZoneNumber::One).volume, volume);
    assert_eq!(
        amp_state.create_command_response(&Request::new(ZoneNumber::One, Command::SetRequestVolume, vec![REQUEST_QUERY]).unwrap()).0.unwrap(),
        Response::new(ZoneNumber::One, Command::SetRequestVolume, AnswerCode::StatusUpdate, vec![volume]).unwrap());
    assert_eq!(amp_state.zone(ZoneNumber::One).volume, volume);
}

#[test]
fn set_zone_1_volume() {
    let mut amp_state = AmpState::default();
    assert_eq!(amp_state.zone(ZoneNumber::One).volume, 30);
    assert_eq!(
        amp_state.create_command_response(&Request::new(ZoneNumber::One, Command::SetRequestVolume, vec![0x0f]).unwrap()).0.unwrap(),
        Response::new(ZoneNumber::One, Command::SetRequestVolume, AnswerCode::StatusUpdate, vec![0x0f]).unwrap()
    );
    assert_eq!(amp_state.zone(ZoneNumber::One).volume, 15);
}

#[test]
fn get_zone_1_mute() {
    let mut amp_state = AmpState::default();
    assert_eq!(amp_state.zone(ZoneNumber::One).mute, MuteState::NotMuted);
    assert_eq!(
        amp_state.create_command_response(&Request::new(ZoneNumber::One, Command::RequestMuteStatus, vec![REQUEST_QUERY]).unwrap()).0.unwrap(),
        Response::new(ZoneNumber::One, Command::RequestMuteStatus, AnswerCode::StatusUpdate, vec![MuteState::NotMuted.to_u8()]).unwrap());
    assert_eq!(amp_state.zone(ZoneNumber::One).mute, MuteState::NotMuted);
}

#[test]
fn set_zone_1_mute_error() {
    let mut amp_state = AmpState::default();
    assert_eq!(amp_state.zone(ZoneNumber::One).mute, MuteState::NotMuted);
    match amp_state.create_command_response(&Request::new(ZoneNumber::One, Command::RequestMuteStatus, vec![0x0]).unwrap()).0 {
        Ok(_) => assert!(false),
        Err(e) => assert_eq!(e.message(), "Incorrect RequestMuteStatus command 0."),
    }
}

#[test]
fn set_zone_1_mute_using_rc5() {
    let mut amp_state = AmpState::default();
    assert_eq!(amp_state.zone(ZoneNumber::One).mute, MuteState::NotMuted);
    let rc5_data = get_rc5command_data(RC5Command::MuteOn);
    let data = vec![rc5_data.0, rc5_data.1];
    assert_eq!(
        amp_state.create_command_response(&Request::new(ZoneNumber::One, Command::SimulateRC5IRCommand, data.clone()).unwrap()).0.unwrap(),
        Response::new(ZoneNumber::One, Command::SimulateRC5IRCommand, AnswerCode::StatusUpdate, data).unwrap());
    assert_eq!(amp_state.zone(ZoneNumber::One).mute, MuteState::Muted);
}

#[test]
fn get_zone_1_source() {
    let mut amp_state = AmpState::default();
    assert_eq!(amp_state.zone(ZoneNumber::One).source, Source::CD);
    assert_eq!(
        amp_state.create_command_response(&Request::new(ZoneNumber::One, Command::RequestCurrentSource, vec![REQUEST_QUERY]).unwrap()).0.unwrap(),
        Response::new(ZoneNumber::One, Command::RequestCurrentSource, AnswerCode::StatusUpdate, vec![Source::CD.to_u8()]).unwrap());
    assert_eq!(amp_state.zone(ZoneNumber::One).source, Source::CD);
}

#[test]
fn set_zone_1_source_error() {
    let mut amp_state = AmpState::default();
    assert_eq!(amp_state.zone(ZoneNumber::One).source, Source::CD);
    match amp_state.create_command_response(&Request::new(ZoneNumber::One, Command::RequestCurrentSource, vec![Source::TUNER.to_u8()]).unwrap()).0 {
        Ok(_) => assert!(false),
        Err(e) => assert_eq!(e.message(), "Incorrect RequestCurrentSource command 11."),
    }
}

#[test]
fn set_zone_1_source_using_rc5() {
    let mut amp_state = AmpState::default();
    assert_eq!(amp_state.zone(ZoneNumber::One).source, Source::CD);
    let rc5_data = get_rc5command_data(RC5Command::BD);
    let data = vec![rc5_data.0, rc5_data.1];
    assert_eq!(
        amp_state.create_command_response(&Request::new(ZoneNumber::One, Command::SimulateRC5IRCommand, data.clone()).unwrap()).0.unwrap(),
        Response::new(ZoneNumber::One, Command::SimulateRC5IRCommand, AnswerCode::StatusUpdate, data).unwrap()
    );
    assert_eq!(amp_state.zone(ZoneNumber::One).source, Source::BD);
}

#[test]
fn get_zone_2_power() {
    let mut amp_state = AmpState::default();
    assert_eq!(amp_state.zone(ZoneNumber::Two).power, PowerState::Standby);
    assert_eq!(
        amp_state.create_command_response(&Request::new(ZoneNumber::Two, Command::Power, vec![REQUEST_QUERY]).unwrap()).0.unwrap(),
        Response::new(ZoneNumber::Two, Command::Power, AnswerCode::StatusUpdate, vec![PowerState::Standby.to_u8()]).unwrap());
    assert_eq!(amp_state.zone(ZoneNumber::Two).power, PowerState::Standby);
}

#[test]
fn set_zone_2_power_error() {
    let mut amp_state = AmpState::default();
    assert_eq!(amp_state.zone(ZoneNumber::Two).power, PowerState::Standby);
    match amp_state.create_command_response(&Request::new(ZoneNumber::Two, Command::Power, vec![0x0]).unwrap()).0 {
        Ok(_) => assert!(false),
        Err(e) => assert_eq!(e.message(), "Incorrect Power command 0."),
    }
}

#[test]
fn set_zone_2_power_using_rc5() {
    let mut amp_state = AmpState::default();
    assert_eq!(amp_state.zone(ZoneNumber::Two).power, PowerState::Standby);
    let rc5_data = get_rc5command_data(RC5Command::Zone2PowerOn);
    let data = vec![rc5_data.0, rc5_data.1];
    assert_eq!(
        amp_state.create_command_response(&Request::new(ZoneNumber::Two, Command::SimulateRC5IRCommand, data.clone()).unwrap()).0.unwrap(),
        Response::new(ZoneNumber::Two, Command::SimulateRC5IRCommand, AnswerCode::StatusUpdate, data).unwrap());
    assert_eq!(amp_state.zone(ZoneNumber::Two).power, PowerState::On);
}

#[test]
fn get_zone_2_volume() {
    let mut amp_state = AmpState::default();
    let volume = 20u8;
    assert_eq!(amp_state.zone(ZoneNumber::Two).volume, volume);
    assert_eq!(
        amp_state.create_command_response(&Request::new(ZoneNumber::Two, Command::SetRequestVolume, vec![REQUEST_QUERY]).unwrap()).0.unwrap(),
        Response::new(ZoneNumber::Two, Command::SetRequestVolume, AnswerCode::StatusUpdate, vec![volume]).unwrap());
    assert_eq!(amp_state.zone(ZoneNumber::Two).volume, volume);
}

#[test]
fn set_zone_2_volume() {
    let mut amp_state = AmpState::default();
    let volume = 15u8;
    assert_eq!(amp_state.zone(ZoneNumber::Two).volume, 20);
    assert_eq!(
        amp_state.create_command_response(&Request::new(ZoneNumber::Two, Command::SetRequestVolume, vec![volume]).unwrap()).0.unwrap(),
        Response::new(ZoneNumber::Two, Command::SetRequestVolume, AnswerCode::StatusUpdate, vec![volume]).unwrap());
    assert_eq!(amp_state.zone(ZoneNumber::Two).volume, volume);
}

#[test]
fn get_zone_2_mute() {
    let mut amp_state = AmpState::default();
    assert_eq!(amp_state.zone(ZoneNumber::Two).mute, MuteState::NotMuted);
    assert_eq!(
        amp_state.create_command_response(&Request::new(ZoneNumber::Two, Command::RequestMuteStatus, vec![REQUEST_QUERY]).unwrap()).0.unwrap(),
        Response::new(ZoneNumber::Two, Command::RequestMuteStatus, AnswerCode::StatusUpdate, vec![MuteState::NotMuted.to_u8()]).unwrap());
    assert_eq!(amp_state.zone(ZoneNumber::Two).mute, MuteState::NotMuted);
}

#[test]
fn set_zone_2_mute_error() {
    let mut amp_state = AmpState::default();
    assert_eq!(amp_state.zone(ZoneNumber::Two).mute, MuteState::NotMuted);
    match amp_state.create_command_response(&Request::new(ZoneNumber::Two, Command::RequestMuteStatus, vec![0x1]).unwrap()).0 {
        Ok(_) => assert!(false),
        Err(e) => assert_eq!(e.message(), "Incorrect RequestMuteStatus command 1."),
    }
}

#[test]
fn set_zone_2_mute_using_rc5() {
    let mut amp_state = AmpState::default();
    assert_eq!(amp_state.zone(ZoneNumber::Two).mute, MuteState::NotMuted);
    let rc5_data = get_rc5command_data(RC5Command::Zone2MuteOn);
    let data =vec! [rc5_data.0, rc5_data.1];
    assert_eq!(
        amp_state.create_command_response(&Request::new(ZoneNumber::Two, Command::SimulateRC5IRCommand, data.clone()).unwrap()).0.unwrap(),
        Response::new(ZoneNumber::Two, Command::SimulateRC5IRCommand, AnswerCode::StatusUpdate, data).unwrap());
    assert_eq!(amp_state.zone(ZoneNumber::Two).mute, MuteState::Muted);
}

#[test]
fn get_zone_2_source() {
    let mut amp_state = AmpState::default();
    assert_eq!(amp_state.zone(ZoneNumber::Two).source, Source::FollowZone1);
    assert_eq!(
        amp_state.create_command_response(&Request::new(ZoneNumber::Two, Command::RequestCurrentSource, vec![REQUEST_QUERY]).unwrap()).0.unwrap(),
        Response::new(ZoneNumber::Two, Command::RequestCurrentSource, AnswerCode::StatusUpdate, vec![Source::FollowZone1.to_u8()]).unwrap());
    assert_eq!(amp_state.zone(ZoneNumber::Two).source, Source::FollowZone1);
}

#[test]
fn set_zone_2_source_error() {
    let mut amp_state = AmpState::default();
    assert_eq!(amp_state.zone(ZoneNumber::Two).source, Source::FollowZone1);
    match amp_state.create_command_response(&Request::new(ZoneNumber::Two, Command::RequestCurrentSource, vec![Source::TUNER.to_u8()]).unwrap()).0 {
        Ok(_) => assert!(false),
        Err(e) => assert_eq!(e.message(), "Incorrect RequestCurrentSource command 11."),
    }
}

#[test]
fn set_zone_2_source_using_rc5() {
    let mut amp_state = AmpState::default();
    assert_eq!(amp_state.zone(ZoneNumber::Two).source, Source::FollowZone1);
    let rc5_data= get_rc5command_data(RC5Command::BD);
    let data = vec![rc5_data.0, rc5_data.1];
    assert_eq!(
        amp_state.create_command_response(&Request::new(ZoneNumber::Two, Command::SimulateRC5IRCommand, data.clone()).unwrap()).0.unwrap(),
        Response::new(ZoneNumber::Two, Command::SimulateRC5IRCommand, AnswerCode::StatusUpdate, data).unwrap());
    assert_eq!(amp_state.zone(ZoneNumber::Two).source, Source::BD);
}

#[test]
fn amx_value() {
    let data = amx_response("AMX".as_bytes()).unwrap();
    assert_eq!(
        from_utf8(&data).unwrap().trim(),
        "AMXB<Device-SDKClass=Receiver><Device-Make=ARCAM><Device-Model=AVR850><Device-Revision=2.0.0>"
    );
}

#[test]
fn set_zone_1_source_to_bd() {
    let mut amp_state = AmpState::default();
    let rc5_data = get_rc5command_data(RC5Command::BD);
    let data = [rc5_data.0, rc5_data.1];
    let request_bytes = Request::new(ZoneNumber::One, Command::SimulateRC5IRCommand, data.to_vec()).unwrap().to_bytes();
    let (request, _) = Request::parse_bytes(&request_bytes).unwrap();
    let response_data = amp_state.create_command_response(&request).0.unwrap().to_bytes();
    let (response, count) = Response::parse_bytes(&response_data).unwrap();
    assert_eq!(
        (response.zone, response.cc, response.ac, response.data, count),
        (ZoneNumber::One, Command::SimulateRC5IRCommand, AnswerCode::StatusUpdate, data.to_vec(), 8)
    );
}

// Further cases.

#[test]
fn amx_with_white_space_and_other_messages() {
    assert!(amx_response(" AMX\r\n".as_bytes()).is_some());
    assert!(amx_response("AMXB".as_bytes()).is_none());
    assert!(amx_response(&[0xff, 0x41]).is_none());
}

#[test]
fn video_selection_query_and_set() {
    let mut amp_state = AmpState::default();
    let request = Request::new(ZoneNumber::Two, Command::VideoSelection, vec![0x05]).unwrap();
    assert!(amp_state.is_serviceable(&request));
    let (reply, radio) = amp_state.create_command_response(&request);
    assert!(!radio);
    assert_eq!(reply.unwrap().data, vec![0x05]);
    assert_eq!(amp_state.zone(ZoneNumber::Two).source, Source::GAME);
    let query = Request::new(ZoneNumber::Two, Command::VideoSelection, vec![REQUEST_QUERY]).unwrap();
    assert_eq!(amp_state.create_command_response(&query).0.unwrap().data, vec![0x05]);
    // Zone 1 plays a CD, which has no video source.
    let query = Request::new(ZoneNumber::One, Command::VideoSelection, vec![REQUEST_QUERY]).unwrap();
    assert!(!amp_state.is_serviceable(&query));
}

#[test]
fn volume_out_of_range_and_unhandled_commands() {
    let mut amp_state = AmpState::default();
    let request = Request::new(ZoneNumber::One, Command::SetRequestVolume, vec![100]).unwrap();
    let (reply, _) = amp_state.create_command_response(&request);
    assert_eq!(reply.unwrap_err().message(), "Failed to deal with SetRequestVolume command SetRequestVolume.");
    assert_eq!(amp_state.zone(ZoneNumber::One).volume, 30);
    let request = Request::new(ZoneNumber::One, Command::Heartbeat, vec![]).unwrap();
    assert_eq!(amp_state.create_command_response(&request).0.unwrap_err().message(), "Failed to deal with command Heartbeat.");
    let rc5_data = get_rc5command_data(RC5Command::Stop);
    let request = Request::new(ZoneNumber::One, Command::SimulateRC5IRCommand, vec![rc5_data.0, rc5_data.1]).unwrap();
    assert_eq!(amp_state.create_command_response(&request).0.unwrap_err().message(), "Not implemented.");
    assert_eq!(amp_state, AmpState::default());
    let request = Request::new(ZoneNumber::Two, Command::RequestMuteStatus, vec![123]).unwrap();
    assert_eq!(amp_state.create_command_response(&request).0.unwrap_err().message(), "Incorrect RequestMuteStatus command 123.");
}

#[test]
fn radio_starts_the_tuner_broadcast() {
    let mut amp_state = AmpState::default();
    let rc5_data = get_rc5command_data(RC5Command::Radio);
    let request = Request::new(ZoneNumber::One, Command::SimulateRC5IRCommand, vec![rc5_data.0, rc5_data.1]).unwrap();
    let (reply, radio) = amp_state.create_command_response(&request);
    assert!(reply.is_ok());
    assert!(radio);
    assert!(amp_state.is_on_tuner(ZoneNumber::One));
    assert!(!amp_state.is_on_tuner(ZoneNumber::Two));
}

#[test]
fn rc5_command_for_the_wrong_zone_is_not_serviceable() {
    let amp_state = AmpState::default();
    let rc5_data = get_rc5command_data(RC5Command::Zone2PowerOn);
    let request = Request::new(ZoneNumber::One, Command::SimulateRC5IRCommand, vec![rc5_data.0, rc5_data.1]).unwrap();
    assert!(!amp_state.is_serviceable(&request));
    let request = Request::new(ZoneNumber::One, Command::SimulateRC5IRCommand, vec![0x11, 0x00]).unwrap();
    assert!(!amp_state.is_serviceable(&request));
    let request = Request::new(ZoneNumber::One, Command::Power, vec![REQUEST_QUERY, 0]).unwrap();
    assert!(!amp_state.is_serviceable(&request));
}

#[test]
fn set_volume_then_query() {
    let mut amp_state = AmpState::default();
    let set = Request::new(ZoneNumber::Two, Command::SetRequestVolume, vec![42]).unwrap();
    assert_eq!(amp_state.create_command_response(&set).0.unwrap().data, vec![42]);
    let query = Request::new(ZoneNumber::Two, Command::SetRequestVolume, vec![REQUEST_QUERY]).unwrap();
    assert_eq!(amp_state.create_command_response(&query).0.unwrap().data, vec![42]);
    assert_eq!(amp_state.zone(ZoneNumber::One).volume, 30);
}

#[test]
fn tuner_responses() {
    let response = arcamclient::mock_avr850::station_name_response(ZoneNumber::One);
    assert_eq!(response.data.len(), 16);
    assert_eq!(response.to_bytes()[..5], [33, 1, 24, 0, 16]);
    let response = arcamclient::mock_avr850::programme_type_response(ZoneNumber::Two);
    assert_eq!(from_utf8(&response.data).unwrap(), "Good Music      ");
    let response = arcamclient::mock_avr850::dls_pdt_response(ZoneNumber::One, b"On Air");
    assert_eq!(response.data.len(), 129);
    assert_eq!(&response.data[..8], b"On Air\0\0");
    assert!(response.data[8..].iter().all(|b| *b == b' '));
    let full = [b'x'; 128];
    let response = arcamclient::mock_avr850::dls_pdt_response(ZoneNumber::One, &full);
    assert_eq!(response.data[127], b'x');
    assert_eq!(response.data[128], 0);
}

fn request_bytes(zone: ZoneNumber, cc: Command, data: Vec<u8>) -> Vec<u8> {
    Request::new(zone, cc, data).unwrap().to_bytes()
}

#[test]
fn chunk_of_requests_is_answered_in_order() {
    let mut amp_state = AmpState::default();
    let mut chunk = request_bytes(ZoneNumber::One, Command::DisplayBrightness, vec![REQUEST_QUERY]);
    chunk.extend(request_bytes(ZoneNumber::One, Command::RequestCurrentSource, vec![REQUEST_QUERY]));
    chunk.extend(request_bytes(ZoneNumber::Two, Command::RequestCurrentSource, vec![REQUEST_QUERY]));
    chunk.extend(request_bytes(ZoneNumber::Two, Command::SetRequestVolume, vec![30]));
    chunk.extend(request_bytes(ZoneNumber::Two, Command::SetRequestVolume, vec![REQUEST_QUERY]));
    chunk.extend(request_bytes(ZoneNumber::One, Command::SetRequestVolume, vec![100]));
    chunk.extend(&[0x21, 0x01, 0x00]);
    assert!(amp_state.is_chunk_answerable(&chunk));
    let replies = amp_state.answer_chunk(&chunk);
    assert_eq!(replies.len(), 6);
    let status = |zone, cc, data: Vec<u8>| Response::new(zone, cc, AnswerCode::StatusUpdate, data).unwrap();
    assert_eq!(replies[0], (Ok(status(ZoneNumber::One, Command::DisplayBrightness, vec![Brightness::Level2.to_u8()])), false));
    assert_eq!(replies[1], (Ok(status(ZoneNumber::One, Command::RequestCurrentSource, vec![Source::CD.to_u8()])), false));
    assert_eq!(replies[2], (Ok(status(ZoneNumber::Two, Command::RequestCurrentSource, vec![Source::FollowZone1.to_u8()])), false));
    assert_eq!(replies[3], (Ok(status(ZoneNumber::Two, Command::SetRequestVolume, vec![30])), false));
    assert_eq!(replies[4], (Ok(status(ZoneNumber::Two, Command::SetRequestVolume, vec![30])), false));
    assert_eq!(replies[5].0.clone().unwrap_err().message(), "Failed to deal with SetRequestVolume command SetRequestVolume.");
    assert_eq!(amp_state.zone_two.volume, 30);
}

#[test]
fn chunk_switching_to_the_radio_is_flagged() {
    let mut amp_state = AmpState::default();
    let radio = get_rc5command_data(RC5Command::Radio);
    let chunk = request_bytes(ZoneNumber::One, Command::SimulateRC5IRCommand, vec![radio.0, radio.1]);
    assert!(amp_state.is_chunk_answerable(&chunk));
    let replies = amp_state.answer_chunk(&chunk);
    assert_eq!(replies.len(), 1);
    assert!(replies[0].0.is_ok());
    assert!(replies[0].1);
    assert!(amp_state.is_on_tuner(ZoneNumber::One));
}

#[test]
fn chunk_with_a_request_that_cannot_be_answered() {
    let amp_state = AmpState::default();
    let chunk = request_bytes(ZoneNumber::One, Command::SimulateRC5IRCommand, vec![0x17, 0x00]);
    assert!(!amp_state.is_chunk_answerable(&chunk));
    let mut chunk = request_bytes(ZoneNumber::One, Command::Power, vec![REQUEST_QUERY]);
    chunk.extend(&[0x21, 0x07, 0x00, 0x01, 0xf0, 0x0d]);
    assert!(!amp_state.is_chunk_answerable(&chunk));
    assert!(amp_state.is_chunk_answerable(&[0x21, 0x01]));
    let mut fresh = AmpState::default();
    assert_eq!(fresh.answer_chunk(&[0x21, 0x01]).len(), 0);
}
