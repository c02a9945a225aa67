use fsd_messages::aircraft_config::{unwrap_config, wrap_config};
use fsd_messages::enums::{ClientCapability, VoiceCapability};
use fsd_messages::errors::FsdMessageParseError;
use fsd_messages::messages::response::read_valid_atc;
use fsd_messages::messages::{ClientQueryMessage, ClientQueryResponseMessage, SharedStateMessage};
use fsd_messages::scratchpad::ScratchPad;
use fsd_messages::sim_time::SimTime;
use fsd_messages::structs::{RadioFrequency, TransponderCode};
use fsd_messages::{AtisLine, ClientQueryType, ClientResponseType, SharedStateType};

fn split(line: &str) -> Vec<&str> {
    line.split(':').collect()
}

fn query(line: &str) -> Result<ClientQueryMessage, FsdMessageParseError> {
    ClientQueryMessage::try_from(&split(line))
}

fn response(line: &str) -> Result<ClientQueryResponseMessage, FsdMessageParseError> {
    ClientQueryResponseMessage::try_from(&split(line))
}

fn shared(line: &str) -> Result<SharedStateMessage, FsdMessageParseError> {
    SharedStateMessage::try_from(&split(line))
}

#[test]
fn queries_without_a_subject() {
    assert!(matches!(query("$CQa:b:C?").unwrap().query_type, ClientQueryType::Com1Freq));
    assert!(matches!(query("$CQa:b:IP").unwrap().query_type, ClientQueryType::PublicIP));
    assert!(matches!(query("$CQa:b:ATIS").unwrap().query_type, ClientQueryType::ATIS));
    assert!(matches!(query("$CQa:b:RN").unwrap().query_type, ClientQueryType::RealName));
    assert!(matches!(query("$CQa:b:SV").unwrap().query_type, ClientQueryType::Server));
    assert!(matches!(query("$CQa:b:BY").unwrap().query_type, ClientQueryType::RequestRelief));
    assert!(matches!(query("$CQa:b:CAPS").unwrap().query_type, ClientQueryType::Capabilities));
    assert!(matches!(
        query("$CQa:b:HI").unwrap().query_type,
        ClientQueryType::CancelRequestRelief
    ));
    assert!(matches!(query("$CQa:b:INF").unwrap().query_type, ClientQueryType::INF));
    let m = query("$CQa:b:CAPS:more:fields").unwrap();
    assert_eq!((m.from.as_str(), m.to.as_str()), ("A", "B"));
    assert_eq!(m.to_string(), "$CQA:B:CAPS");
}

#[test]
fn queries_with_a_subject() {
    match query("$CQa:b:ATC:egll_twr").unwrap().query_type {
        ClientQueryType::IsValidATC { atc_callsign } => assert_eq!(atc_callsign, "EGLL_TWR"),
        other => panic!("{:?}", other),
    }
    match query("$CQa:b:FP:baw1").unwrap().query_type {
        ClientQueryType::FlightPlan { aircraft_callsign } => assert_eq!(aircraft_callsign, "BAW1"),
        other => panic!("{:?}", other),
    }
    match query("$CQa:b:IT:baw1").unwrap().query_type {
        ClientQueryType::InitiateTrack { aircraft_callsign } => {
            assert_eq!(aircraft_callsign, "BAW1")
        },
        other => panic!("{:?}", other),
    }
    match query("$CQa:b:DR:baw1").unwrap().query_type {
        ClientQueryType::DropTrack { aircraft_callsign } => assert_eq!(aircraft_callsign, "BAW1"),
        other => panic!("{:?}", other),
    }
    match query("$CQa:b:HT:baw1:egll_app").unwrap().query_type {
        ClientQueryType::AcceptHandoff { aircraft_callsign, atc_callsign } => {
            assert_eq!(aircraft_callsign, "BAW1");
            assert_eq!(atc_callsign, "EGLL_APP");
        },
        other => panic!("{:?}", other),
    }
    match query("$CQa:b:FA:baw1:FL100").unwrap().query_type {
        ClientQueryType::SetFinalAltitude { aircraft_callsign, altitude } => {
            assert_eq!(aircraft_callsign, "BAW1");
            assert_eq!(altitude, 10000);
        },
        other => panic!("{:?}", other),
    }
    match query("$CQa:b:TA:baw1:").unwrap().query_type {
        ClientQueryType::SetTempAltitude { altitude, .. } => assert_eq!(altitude, 0),
        other => panic!("{:?}", other),
    }
    match query("$CQa:b:BC:baw1:4701").unwrap().query_type {
        ClientQueryType::SetBeaconCode { code, .. } => assert_eq!(code.to_string(), "4701"),
        other => panic!("{:?}", other),
    }
    match query("$CQa:b:SC:baw1:S250").unwrap().query_type {
        ClientQueryType::SetScratchpad { contents, .. } => {
            assert!(matches!(contents, ScratchPad::Speed(250)))
        },
        other => panic!("{:?}", other),
    }
    match query("$CQa:b:VT:baw1:R").unwrap().query_type {
        ClientQueryType::SetVoiceType { voice_capability, .. } => {
            assert_eq!(voice_capability, VoiceCapability::Receive)
        },
        other => panic!("{:?}", other),
    }
}

#[test]
fn query_failures() {
    assert!(matches!(
        query("$CQa:b:XYZ:1"),
        Err(FsdMessageParseError::UnknownMessageType(t)) if t == "XYZ"
    ));
    assert!(matches!(
        query("$CQa:b:wh:1"),
        Err(FsdMessageParseError::UnknownMessageType(t)) if t == "wh"
    ));
    assert!(matches!(
        query("$CQa:b:NEWINFO:B"),
        Err(FsdMessageParseError::UnknownMessageType(t)) if t == "NEWINFO"
    ));
    assert!(matches!(
        query("$CQa:b:FA:c:high"),
        Err(FsdMessageParseError::InvalidAltitude(t)) if t == "high"
    ));
    assert!(matches!(
        query("$CQa:b:BC:c:9000"),
        Err(FsdMessageParseError::InvalidTransponderCode(t)) if t == "9000"
    ));
    assert!(matches!(
        query("$CQa:b:VT:c:q"),
        Err(FsdMessageParseError::InvalidVoiceCapability(t)) if t == "q"
    ));
    assert!(matches!(
        query("$CQa:b:IPC:R:852:8704"),
        Err(FsdMessageParseError::UnknownMessageType(t)) if t == "IPC:$CQa:b:IPC"
    ));
    assert!(matches!(
        query("$CQa:b:IPC:W:853:8704"),
        Err(FsdMessageParseError::UnknownMessageType(_))
    ));
    assert!(matches!(
        query("$CQa:b:IPC:W:852:8"),
        Err(FsdMessageParseError::InvalidTransponderCode(t)) if t == "8"
    ));
    assert!(matches!(
        query("$CQa:b:SIMTIME:yesterday"),
        Err(FsdMessageParseError::InvalidTime(t)) if t == "yesterday"
    ));
    assert!(matches!(
        query("$CQa:b:SIMTIME:20241301000000"),
        Err(FsdMessageParseError::InvalidTime(_))
    ));
    assert!(matches!(
        query("$CQa:b:ACC:{broken"),
        Err(FsdMessageParseError::InvalidAircraftConfig(t)) if t == "{broken"
    ));
    assert!(matches!(
        query("$CQa:b:ACC:{\"other\":{}}"),
        Err(FsdMessageParseError::InvalidAircraftConfig(t)) if t == "{\"other\":{}}"
    ));
    assert!(matches!(
        query("$CQa:b:NEWATIS:ATIS 4:  31016KT Q1022"),
        Err(FsdMessageParseError::InvalidNewAtisMessage(t)) if t == "ATIS 4:31016KT Q1022"
    ));
    for (tag, count) in [
        ("ATC", 4),
        ("FP", 4),
        ("WH", 4),
        ("DR", 4),
        ("IT", 4),
        ("ACC", 4),
        ("SIMTIME", 4),
        ("SC", 5),
        ("HT", 5),
        ("FA", 5),
        ("TA", 5),
        ("BC", 5),
        ("VT", 5),
        ("NEWATIS", 5),
        ("IPC", 6),
    ] {
        let line = format!("$CQa:b:{}", tag);
        match query(&line) {
            Err(FsdMessageParseError::InvalidFieldCount(e, f)) => assert_eq!((e, f), (count, 3)),
            other => panic!("{}: {:?}", line, other),
        }
    }
}

#[test]
fn help_requests() {
    match query("$CQa:b:HLP").unwrap().query_type {
        ClientQueryType::HelpRequest { message } => assert_eq!(message, None),
        other => panic!("{:?}", other),
    }
    match query("$CQa:b:HLP:").unwrap().query_type {
        ClientQueryType::HelpRequest { message } => assert_eq!(message, None),
        other => panic!("{:?}", other),
    }
    match query("$CQa:b:HLP:Busy").unwrap().query_type {
        ClientQueryType::HelpRequest { message } => assert_eq!(message.as_deref(), Some("Busy")),
        other => panic!("{:?}", other),
    }
    match query("$CQa:b:NOHLP:Fine").unwrap().query_type {
        ClientQueryType::CancelHelpRequest { message } => {
            assert_eq!(message.as_deref(), Some("Fine"))
        },
        other => panic!("{:?}", other),
    }
}

#[test]
fn forced_beacon_code() {
    let m = query("$CQserver:n194q:IPC:W:852:8704").unwrap();
    match &m.query_type {
        ClientQueryType::ForceBeaconCode { code } => assert_eq!(code.to_string(), "2200"),
        other => panic!("{:?}", other),
    }
    assert_eq!(m.to_string(), "$CQSERVER:N194Q:IPC:W:852:8704");
    let code = TransponderCode::try_from(7777).unwrap();
    assert_eq!(
        ClientQueryMessage::force_beacon_code("server", "n1", code).to_string(),
        "$CQSERVER:N1:IPC:W:852:30583"
    );
}

#[test]
fn simulator_time_goes_through_chrono() {
    let m = query("$CQserver:baw1:SIMTIME:20240229235958").unwrap();
    match &m.query_type {
        ClientQueryType::SimTime { time } => {
            assert_eq!(
                *time,
                SimTime { year: 2024, month: 2, day: 29, hour: 23, minute: 59, second: 58 }
            )
        },
        other => panic!("{:?}", other),
    }
    assert_eq!(m.to_string(), "$CQSERVER:BAW1:SIMTIME:20240229235958");
    assert!(query("$CQserver:baw1:SIMTIME:20230229235958").is_err());
    assert!(query("$CQserver:baw1:SIMTIME:20240229245958").is_err());
    assert_eq!(
        SimTime::from_str("19991231000000"),
        Some(SimTime { year: 1999, month: 12, day: 31, hour: 0, minute: 0, second: 0 })
    );
    assert_eq!(SimTime::from_str("1999-12-31"), None);
    let t = SimTime { year: 2025, month: 1, day: 2, hour: 3, minute: 4, second: 5 };
    assert_eq!(t.to_string(), "20250102030405");
    let none = SimTime { year: 2025, month: 13, day: 2, hour: 3, minute: 4, second: 5 };
    assert_eq!(none.to_string(), "");
}

#[test]
fn aircraft_configuration_goes_through_serde_json() {
    assert_eq!(
        unwrap_config("{ \"config\" : { \"gear_down\" : true } }").as_deref(),
        Some("{\"gear_down\":true}")
    );
    assert_eq!(unwrap_config("{\"config\":7}").as_deref(), Some("7"));
    assert_eq!(unwrap_config("{\"other\":7}"), None);
    assert_eq!(unwrap_config("[1,2]"), None);
    assert_eq!(unwrap_config("not json"), None);
    assert_eq!(wrap_config("{\"gear_down\":true}"), "{\"config\":{\"gear_down\":true}}");
    let line = "$CQbaw1:@94835:ACC:{\"config\": {\"lights\": {\"strobe_on\": true}, \"flaps_pct\": 25}}";
    let m = query(line).unwrap();
    match &m.query_type {
        ClientQueryType::AircraftConfigurationResponse { aircraft_config } => {
            assert_eq!(aircraft_config, "{\"flaps_pct\":25,\"lights\":{\"strobe_on\":true}}")
        },
        other => panic!("{:?}", other),
    }
    assert_eq!(
        m.to_string(),
        "$CQBAW1:@94835:ACC:{\"config\":{\"flaps_pct\":25,\"lights\":{\"strobe_on\":true}}}"
    );
    assert!(matches!(
        query("$CQbaw1:@94835:ACC:{\"request\":\"full\"}").unwrap().query_type,
        ClientQueryType::AircraftConfigurationRequest
    ));
    assert_eq!(
        ClientQueryMessage::aircraft_config_request("a", "b").to_string(),
        "$CQA:B:ACC:{\"request\":\"full\"}"
    );
    assert_eq!(
        ClientQueryMessage::aircraft_config_response("a", "b", "{\"on_ground\":true}").to_string(),
        "$CQA:B:ACC:{\"config\":{\"on_ground\":true}}"
    );
}

#[test]
fn new_atis_query() {
    let m = query("$CQegcc_atis:@94835:NEWATIS:ATIS B:  31016KT Q1022").unwrap();
    match &m.query_type {
        ClientQueryType::NewATIS { atis_letter, surface_wind, pressure } => {
            assert_eq!(*atis_letter, 'B');
            assert_eq!(surface_wind, "31016KT");
            assert_eq!(pressure, "Q1022");
        },
        other => panic!("{:?}", other),
    }
    assert_eq!(m.to_string(), "$CQEGCC_ATIS:@94835:NEWATIS:ATIS B:  31016KT - Q1022");
    assert_eq!(
        ClientQueryMessage::new_atis("a", "b", 'C', "27005kt", "q999").to_string(),
        "$CQA:B:NEWATIS:ATIS C:  27005KT - Q999"
    );
    let info = ClientQueryType::NewInfo { atis_letter: 'D' };
    assert_eq!(info.to_string(), "NEWINFO:D");
}

#[test]
fn query_builders() {
    let cases = [
        (ClientQueryMessage::com_1_freq("a", "b"), "$CQA:B:C?"),
        (ClientQueryMessage::public_ip("a", "b"), "$CQA:B:IP"),
        (ClientQueryMessage::atis("a", "b"), "$CQA:B:ATIS"),
        (ClientQueryMessage::real_name("a", "b"), "$CQA:B:RN"),
        (ClientQueryMessage::server("a", "b"), "$CQA:B:SV"),
        (ClientQueryMessage::capabilities("a", "b"), "$CQA:B:CAPS"),
        (ClientQueryMessage::client_information("a", "b"), "$CQA:B:INF"),
        (ClientQueryMessage::request_relief("a", "b"), "$CQA:B:BY"),
        (ClientQueryMessage::cancel_request_relief("a", "b"), "$CQA:B:HI"),
        (ClientQueryMessage::is_valid_atc("a", "b", "c"), "$CQA:B:ATC:C"),
        (ClientQueryMessage::flight_plan("a", "b", "c"), "$CQA:B:FP:C"),
        (ClientQueryMessage::who_has("lirf_twr", "@94835", "ity1561"), "$CQLIRF_TWR:@94835:WH:ITY1561"),
        (ClientQueryMessage::initiate_track("a", "b", "c"), "$CQA:B:IT:C"),
        (ClientQueryMessage::drop_track("a", "b", "c"), "$CQA:B:DR:C"),
        (ClientQueryMessage::accept_handoff("a", "b", "c", "d"), "$CQA:B:HT:C:D"),
        (ClientQueryMessage::set_final_altitude("a", "b", "c", 35000), "$CQA:B:FA:C:35000"),
        (ClientQueryMessage::set_temp_altitude("a", "b", "c", 0), "$CQA:B:TA:C:0"),
        (
            ClientQueryMessage::set_beacon_code("a", "b", "c", TransponderCode::try_from(12).unwrap()),
            "$CQA:B:BC:C:0012",
        ),
        (
            ClientQueryMessage::set_scratchpad("a", "b", "c", ScratchPad::Heading(90)),
            "$CQA:B:SC:C:H90",
        ),
        (
            ClientQueryMessage::set_voice_type("a", "b", "c", VoiceCapability::Text),
            "$CQA:B:VT:C:t",
        ),
        (ClientQueryMessage::help_request("a", "b", Some("x")), "$CQA:B:HLP:x"),
        (ClientQueryMessage::help_request("a", "b", None), "$CQA:B:HLP"),
        (ClientQueryMessage::cancel_help_request("a", "b", Some("x")), "$CQA:B:NOHLP:x"),
        (ClientQueryMessage::cancel_help_request("a", "b", None), "$CQA:B:NOHLP"),
    ];
    for (message, line) in cases {
        assert_eq!(message.to_string(), line);
    }
}

#[test]
fn responses() {
    match response("$CRa:b:C?:118.500").unwrap().response_type {
        ClientResponseType::Com1Freq { frequency } => assert_eq!(frequency.frequency(), (118, 500)),
        other => panic!("{:?}", other),
    }
    match response("$CRa:b:RN:Jo Bloggs:EGLL:4").unwrap().response_type {
        ClientResponseType::RealName { name, sector_file, rating } => {
            assert_eq!((name.as_str(), sector_file.as_str(), rating), ("Jo Bloggs", "EGLL", 4))
        },
        other => panic!("{:?}", other),
    }
    match response("$CRa:b:IP:192.0.2.1").unwrap().response_type {
        ClientResponseType::PublicIP { ip_address } => assert_eq!(ip_address, "192.0.2.1"),
        other => panic!("{:?}", other),
    }
    match response("$CRa:b:SV:fsd.example.org").unwrap().response_type {
        ClientResponseType::Server { hostname_or_ip_address } => {
            assert_eq!(hostname_or_ip_address, "fsd.example.org")
        },
        other => panic!("{:?}", other),
    }
    match response("$CRa:b:ATC:y:egll_twr").unwrap().response_type {
        ClientResponseType::IsValidATC { atc_callsign, valid_atc } => {
            assert_eq!(atc_callsign, "EGLL_TWR");
            assert!(valid_atc);
        },
        other => panic!("{:?}", other),
    }
    match response("$CRa:b:ATC:N:egll_twr").unwrap().response_type {
        ClientResponseType::IsValidATC { valid_atc, .. } => assert!(!valid_atc),
        other => panic!("{:?}", other),
    }
    match response("$CRa:b:CAPS:ATCINFO=1:SECPOS=1:MODELDESC=1:ATCINFO=1").unwrap().response_type {
        ClientResponseType::Capabilities { capabilities } => assert_eq!(
            capabilities,
            vec![ClientCapability::ATCInfo, ClientCapability::SecPos, ClientCapability::ModelDesc]
        ),
        other => panic!("{:?}", other),
    }
}

#[test]
fn atis_lines() {
    match response("$CRa:b:ATIS:V:voice.example.org").unwrap().response_type {
        ClientResponseType::ATIS { atis_line: AtisLine::VoiceServer(s) } => {
            assert_eq!(s, "voice.example.org")
        },
        other => panic!("{:?}", other),
    }
    match response("$CRa:b:ATIS:T:Runway 27L: wet").unwrap().response_type {
        ClientResponseType::ATIS { atis_line: AtisLine::TextLine(s) } => {
            assert_eq!(s, "Runway 27L: wet")
        },
        other => panic!("{:?}", other),
    }
    match response("$CRa:b:ATIS:Z:2300z").unwrap().response_type {
        ClientResponseType::ATIS { atis_line: AtisLine::LogoffTime(t) } => {
            assert_eq!(t, Some(2300))
        },
        other => panic!("{:?}", other),
    }
    match response("$CRa:b:ATIS:Z:2300").unwrap().response_type {
        ClientResponseType::ATIS { atis_line: AtisLine::LogoffTime(t) } => {
            assert_eq!(t, Some(2300))
        },
        other => panic!("{:?}", other),
    }
    match response("$CRa:b:ATIS:Z:z").unwrap().response_type {
        ClientResponseType::ATIS { atis_line: AtisLine::LogoffTime(t) } => assert_eq!(t, None),
        other => panic!("{:?}", other),
    }
    match response("$CRa:b:ATIS:Z:70000z").unwrap().response_type {
        ClientResponseType::ATIS { atis_line: AtisLine::LogoffTime(t) } => assert_eq!(t, None),
        other => panic!("{:?}", other),
    }
    match response("$CRa:b:ATIS:E:12").unwrap().response_type {
        ClientResponseType::ATIS { atis_line: AtisLine::EndMarker(n) } => assert_eq!(n, 12),
        other => panic!("{:?}", other),
    }
    assert_eq!(AtisLine::LogoffTime(Some(5)).to_string(), "Z:0005z");
    assert_eq!(AtisLine::LogoffTime(None).to_string(), "Z:z");
    assert_eq!(AtisLine::EndMarker(3).to_string(), "E:3");
    assert_eq!(AtisLine::VoiceServer("v".to_string()).to_string(), "V:v");
    assert_eq!(AtisLine::TextLine("t".to_string()).to_string(), "T:t");
}

#[test]
fn response_failures() {
    assert!(matches!(
        response("$CRa:b:C?:118"),
        Err(FsdMessageParseError::InvalidFrequency(t)) if t == "118"
    ));
    assert!(matches!(
        response("$CRa:b:C?:100.000"),
        Err(FsdMessageParseError::InvalidFrequency(t)) if t == "100.000"
    ));
    assert!(matches!(
        response("$CRa:b:ATIS:X:1"),
        Err(FsdMessageParseError::InvalidATISLine(t)) if t == "X"
    ));
    assert!(matches!(
        response("$CRa:b:ATIS:E:many"),
        Err(FsdMessageParseError::InvalidATISLine(t)) if t == "many"
    ));
    assert!(matches!(
        response("$CRa:b:RN:n:s:300"),
        Err(FsdMessageParseError::InvalidRating(t)) if t == "300"
    ));
    assert!(matches!(
        response("$CRa:b:ATC:maybe:c"),
        Err(FsdMessageParseError::InvalidValidAtcStatus(t)) if t == "maybe"
    ));
    assert!(matches!(
        response("$CRa:b:FOO:1"),
        Err(FsdMessageParseError::UnknownMessageType(t)) if t == "FOO"
    ));
    assert!(matches!(
        response("$CRa:b:ATC:Y"),
        Err(FsdMessageParseError::InvalidFieldCount(5, 4))
    ));
}

#[test]
fn response_builders() {
    let f = RadioFrequency::new(121, 500).unwrap();
    let cases = [
        (ClientQueryResponseMessage::com_1_freq("a", "b", f), "$CRA:B:C?:121.500"),
        (
            ClientQueryResponseMessage::atis("a", "b", AtisLine::EndMarker(2)),
            "$CRA:B:ATIS:E:2",
        ),
        (ClientQueryResponseMessage::real_name("a", "b", "Jo", "x", 3), "$CRA:B:RN:Jo:x:3"),
        (
            ClientQueryResponseMessage::capabilities(
                "a",
                "b",
                vec![
                    ClientCapability::FastPos,
                    ClientCapability::Version,
                    ClientCapability::FastPos,
                ],
            ),
            "$CRA:B:CAPS:FASTPOS=1:VERSION=1",
        ),
        (ClientQueryResponseMessage::capabilities("a", "b", vec![]), "$CRA:B:CAPS:"),
        (ClientQueryResponseMessage::public_ip("a", "b", "::1"), "$CRA:B:IP:::1"),
        (ClientQueryResponseMessage::is_valid_atc("a", "b", "c", true), "$CRA:B:ATC:Y:C"),
        (ClientQueryResponseMessage::is_valid_atc("a", "b", "c", false), "$CRA:B:ATC:N:C"),
    ];
    for (message, line) in cases {
        assert_eq!(message.to_string(), line);
    }
}

#[test]
fn shared_state() {
    assert!(matches!(
        shared("#PCa:b:CCP:VER").unwrap().shared_state_type,
        SharedStateType::Version
    ));
    assert!(matches!(shared("#PCa:b:CCP:ID").unwrap().shared_state_type, SharedStateType::ID));
    assert!(matches!(shared("#PCa:b:CCP:DI").unwrap().shared_state_type, SharedStateType::DI));
    match shared("#PCa:b:CCP:IH:baw1").unwrap().shared_state_type {
        SharedStateType::IHave { aircraft_callsign } => assert_eq!(aircraft_callsign, "BAW1"),
        other => panic!("{:?}", other),
    }
    match shared("#PCa:b:CCP:HC:baw1").unwrap().shared_state_type {
        SharedStateType::HandoffCancel { aircraft_callsign } => {
            assert_eq!(aircraft_callsign, "BAW1")
        },
        other => panic!("{:?}", other),
    }
    match shared("#PCa:b:CCP:SC:baw1:GRP/S/12").unwrap().shared_state_type {
        SharedStateType::ScratchPad { contents: ScratchPad::Stand(s), .. } => assert_eq!(s, "12"),
        other => panic!("{:?}", other),
    }
    match shared("#PCa:b:CCP:TA:baw1:FL60").unwrap().shared_state_type {
        SharedStateType::TempAltitude { altitude, .. } => assert_eq!(altitude, 6000),
        other => panic!("{:?}", other),
    }
    match shared("#PCa:b:CCP:FA:baw1:7000").unwrap().shared_state_type {
        SharedStateType::FinalAltitude { altitude, .. } => assert_eq!(altitude, 7000),
        other => panic!("{:?}", other),
    }
    match shared("#PCa:b:CCP:VT:baw1:").unwrap().shared_state_type {
        SharedStateType::VoiceType { voice_capability, .. } => {
            assert_eq!(voice_capability, VoiceCapability::Unknown)
        },
        other => panic!("{:?}", other),
    }
    match shared("#PCa:b:CCP:BC:baw1:0023").unwrap().shared_state_type {
        SharedStateType::BeaconCode { code, .. } => assert_eq!(code.to_string(), "0023"),
        other => panic!("{:?}", other),
    }
}

#[test]
fn shared_state_failures() {
    assert!(matches!(
        shared("#PCa:b:CCP:ZZ:c"),
        Err(FsdMessageParseError::InvalidSharedStateType(t)) if t == "ZZ"
    ));
    assert!(matches!(
        shared("#PCa:b:CCP:ST:c"),
        Err(FsdMessageParseError::InvalidSharedStateType(t)) if t == "ST"
    ));
    assert!(matches!(
        shared("#PCa:b:CCP:TA:c:up"),
        Err(FsdMessageParseError::InvalidAltitude(t)) if t == "up"
    ));
    assert!(matches!(
        shared("#PCa:b:CCP:VT:c:zz"),
        Err(FsdMessageParseError::InvalidVoiceCapability(t)) if t == "zz"
    ));
    assert!(matches!(
        shared("#PCa:b:CCP:BC:c:8"),
        Err(FsdMessageParseError::InvalidTransponderCode(t)) if t == "8"
    ));
    for (tag, count) in [("IH", 5), ("HC", 5), ("SC", 6), ("TA", 6), ("FA", 6), ("VT", 6), ("BC", 6)] {
        let line = format!("#PCa:b:CCP:{}", tag);
        match shared(&line) {
            Err(FsdMessageParseError::InvalidFieldCount(e, f)) => assert_eq!((e, f), (count, 4)),
            other => panic!("{}: {:?}", line, other),
        }
    }
}

#[test]
fn shared_state_builders_and_strips() {
    let code = TransponderCode::try_from(4321).unwrap();
    let cases = [
        (SharedStateMessage::id("a", "b"), "#PCA:B:CCP:ID"),
        (SharedStateMessage::di("a", "b"), "#PCA:B:CCP:DI"),
        (SharedStateMessage::i_have("a", "b", "c"), "#PCA:B:CCP:IH:C"),
        (
            SharedStateMessage::scratchpad("a", "b", "c", ScratchPad::ClearanceReceived),
            "#PCA:B:CCP:SC:C:CLEA",
        ),
        (SharedStateMessage::temp_altitude("a", "b", "c", 5000), "#PCA:B:CCP:TA:C:5000"),
        (SharedStateMessage::beacon_code("a", "b", "c", code), "#PCA:B:CCP:BC:C:4321"),
        (
            SharedStateMessage::voice_type("a", "b", "c", VoiceCapability::Voice),
            "#PCA:B:CCP:VT:C:v",
        ),
        (SharedStateMessage::handoff_cancel("a", "b", "c"), "#PCA:B:CCP:HC:C"),
    ];
    for (message, line) in cases {
        assert_eq!(message.to_string(), line);
    }
    let strip = SharedStateType::FlightStrip {
        aircraft_callsign: "BAW1".to_string(),
        format: Some(-1),
        contents: Some(vec!["a".to_string(), "".to_string(), "c".to_string()]),
    };
    assert_eq!(strip.to_string(), "ST:BAW1:-1:a::c");
    let strip = SharedStateType::FlightStrip {
        aircraft_callsign: "BAW1".to_string(),
        format: None,
        contents: None,
    };
    assert_eq!(strip.to_string(), "ST:BAW1");
    let out = SharedStateType::PointOut { aircraft_callsign: "BAW1".to_string() };
    assert_eq!(out.to_string(), "PT:BAW1");
    let list = SharedStateType::PushToDepartureList { aircraft_callsign: "BAW1".to_string() };
    assert_eq!(list.to_string(), "DP:BAW1");
    assert_eq!(SharedStateType::Version.to_string(), "VER");
}

#[test]
fn valid_atc_status_in_upper_case() {
    assert_eq!(read_valid_atc("Y"), Some(true));
    assert_eq!(read_valid_atc("N"), Some(false));
    assert_eq!(read_valid_atc("y"), None);
    assert_eq!(read_valid_atc(""), None);
    assert_eq!(read_valid_atc("YES"), None);
}
