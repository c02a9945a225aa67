use fsd_messages::enums::{
    AtcRating, AtcType, PilotRating, ProtocolRevision, SimulatorType, TransponderMode,
};
use fsd_messages::errors::{FsdError, FsdMessageParseError};
use fsd_messages::messages::{
    AtcDeregisterMessage, AtcPositionUpdateMessage, AtcRegisterMessage,
    AtcSecondaryVisCentreMessage, AuthenticationChallengeMessage, AuthenticationResponseMessage,
    ChangeServerMessage, FlightPlanAmendmentMessage, FlightPlanMessage, FrequencyMessage,
    FsdErrorMessage, HandoffAcceptMessage, HandoffOfferMessage, InitialClientHandshakeMessage,
    InitialServerHandshakeMessage, KillMessage, MetarRequestMessage, MetarResponseMessage,
    PilotDeregisterMessage, PilotPositionUpdateMessage, PilotRegisterMessage, PingMessage,
    PlaneInfoRequestMessage, PlaneInfoResponseMessage, PongMessage,
    SendFastPositionUpdatesMessage, TextMessage, VelocityPositionFastMessage,
    VelocityPositionSlowMessage, VelocityPositionStoppedMessage,
};
use fsd_messages::numbers::is_decimal_text;
use fsd_messages::structs::{FlightPlan, PlaneInfo, RadioFrequency, TransponderCode};
use fsd_messages::{FlightRules, AIRCRAFT_HANDLER_RECIPIENT, SERVER_CALLSIGN};

fn split(line: &str) -> Vec<&str> {
    line.split(':').collect()
}

#[test]
fn constants() {
    assert_eq!(SERVER_CALLSIGN, "SERVER");
    assert_eq!(AIRCRAFT_HANDLER_RECIPIENT, "@94835");
}

#[test]
fn atc_register() {
    let m = AtcRegisterMessage::try_from(&split("#AAegph_app:server:Jo Bloggs:1234567:pw:4:100"))
        .unwrap();
    assert_eq!(m.from, "EGPH_APP");
    assert_eq!(m.to, "SERVER");
    assert_eq!(m.real_name, "Jo Bloggs");
    assert_eq!(m.cid, "1234567");
    assert_eq!(m.password, "pw");
    assert_eq!(m.rating, AtcRating::S3);
    assert_eq!(m.protocol, ProtocolRevision::VatsimAuth);
    assert_eq!(m.to_string(), "#AAEGPH_APP:SERVER:Jo Bloggs:1234567:pw:4:100");
    let m = AtcRegisterMessage::new(
        "egll_twr",
        "server",
        "Name",
        "1",
        "2",
        AtcRating::C1,
        ProtocolRevision::Vatsim2022,
    );
    assert_eq!(m.to_string(), "#AAEGLL_TWR:SERVER:Name:1:2:5:101");
    assert!(matches!(
        AtcRegisterMessage::try_from(&split("#AAX:S:n:c:p:13:9")),
        Err(FsdMessageParseError::InvalidRating(t)) if t == "13"
    ));
    assert!(matches!(
        AtcRegisterMessage::try_from(&split("#AAX:S:n:c:p:4:8")),
        Err(FsdMessageParseError::InvalidProtocolRevison(t)) if t == "8"
    ));
    assert!(matches!(
        AtcRegisterMessage::try_from(&split("#AAX:S:n:c:p:x:8")),
        Err(FsdMessageParseError::InvalidRating(t)) if t == "x"
    ));
    let short = AtcRegisterMessage::try_from(&split("#A:S:n:c:p:4:9")).unwrap();
    assert_eq!(short.from, "");
}

#[test]
fn pilot_register() {
    let m = PilotRegisterMessage::try_from(&split("#APezy38ub:server:1234567:pw:1:101:16:Jo"))
        .unwrap();
    assert_eq!(m.from, "EZY38UB");
    assert_eq!(m.to, "SERVER");
    assert_eq!(m.cid, "1234567");
    assert_eq!(m.password, "pw");
    assert_eq!(m.rating, PilotRating::Student);
    assert_eq!(m.protocol, ProtocolRevision::Vatsim2022);
    assert_eq!(m.simulator_type, SimulatorType::XPLANE12);
    assert_eq!(m.real_name, "Jo");
    assert_eq!(m.to_string(), "#APEZY38UB:SERVER:1234567:pw:1:101:16:Jo");
    let m = PilotRegisterMessage::try_from(&split("#APX:S:c:p:2:9:zz")).unwrap();
    assert_eq!(m.simulator_type, SimulatorType::Unknown);
    assert_eq!(m.real_name, "");
    let m = PilotRegisterMessage::new(
        "x",
        "s",
        "Name",
        "c",
        "p",
        PilotRating::IFR,
        ProtocolRevision::Classic,
        SimulatorType::MSFS,
    );
    assert_eq!(m.to_string(), "#APX:S:c:p:3:9:10:Name");
    assert!(matches!(
        PilotRegisterMessage::try_from(&split("#APX:S:c:p:6:9:1")),
        Err(FsdMessageParseError::InvalidRating(t)) if t == "6"
    ));
    assert!(matches!(
        PilotRegisterMessage::try_from(&split("#APX:S:c:p:1:7:1")),
        Err(FsdMessageParseError::InvalidProtocolRevison(t)) if t == "7"
    ));
}

#[test]
fn deregistration() {
    let m = AtcDeregisterMessage::try_from(&split("#DAegph_app:1234567:more")).unwrap();
    assert_eq!((m.from.as_str(), m.cid.as_str()), ("EGPH_APP", "1234567"));
    assert_eq!(m.to_string(), "#DAEGPH_APP:1234567");
    let m = PilotDeregisterMessage::new("baw1", "77");
    assert_eq!(m.to_string(), "#DPBAW1:77");
    assert_eq!(AtcDeregisterMessage::new("a", "B").to_string(), "#DAA:B");
}

#[test]
fn authentication() {
    let m = AuthenticationChallengeMessage::try_from(&split("$ZCserver:baw1:Ab12")).unwrap();
    assert_eq!((m.from.as_str(), m.to.as_str(), m.challenge.as_str()), ("SERVER", "BAW1", "Ab12"));
    assert_eq!(m.to_string(), "$ZCSERVER:BAW1:Ab12");
    let m = AuthenticationResponseMessage::try_from(&split("$ZRbaw1:server:Cd34")).unwrap();
    assert_eq!((m.from.as_str(), m.to.as_str(), m.response.as_str()), ("BAW1", "SERVER", "Cd34"));
    assert_eq!(m.to_string(), "$ZRBAW1:SERVER:Cd34");
    assert_eq!(AuthenticationChallengeMessage::new("a", "b", "c").to_string(), "$ZCA:B:c");
    assert_eq!(AuthenticationResponseMessage::new("a", "b", "c").to_string(), "$ZRA:B:c");
}

#[test]
fn text_and_frequency() {
    let m = TextMessage::try_from(&split("#TMa:b:one:two::three")).unwrap();
    assert_eq!((m.from.as_str(), m.to.as_str()), ("A", "B"));
    assert_eq!(m.message, "one:two::three");
    assert_eq!(m.to_string(), "#TMA:B:one:two::three");
    assert_eq!(TextMessage::new("a", "b", "Hi there").to_string(), "#TMA:B:Hi there");
    let m = FrequencyMessage::try_from(&split("#TMa:@18300&@21500&@junk:hello:there")).unwrap();
    assert_eq!(m.from, "A");
    assert_eq!(m.to.len(), 2);
    assert_eq!(m.to[0].frequency(), (118, 300));
    assert_eq!(m.to[1].frequency(), (121, 500));
    assert_eq!(m.message, "hello:there");
    assert_eq!(m.to_string(), "#TMA:@18300&@21500:hello:there");
    let f = RadioFrequency::new(133, 175).unwrap();
    assert_eq!(FrequencyMessage::new("a", vec![f], "x").to_string(), "#TMA:@33175:x");
    assert_eq!(FrequencyMessage::new("a", vec![], "x").to_string(), "#TMA::x");
}

#[test]
fn server_messages() {
    let m = ChangeServerMessage::try_from(&split("$XXserver:baw1:fsd.example.org")).unwrap();
    assert_eq!(m.hostname, "fsd.example.org");
    assert_eq!(m.to_string(), "$XXSERVER:BAW1:fsd.example.org");
    assert_eq!(ChangeServerMessage::new("a", "b", "H").to_string(), "$XXA:B:H");
    let m = InitialServerHandshakeMessage::try_from(&split("$DIserver:client:V3:key")).unwrap();
    assert_eq!((m.version.as_str(), m.initial_key.as_str()), ("V3", "key"));
    assert_eq!(m.to_string(), "$DISERVER:CLIENT:V3:key");
    let m = InitialServerHandshakeMessage::try_from(&split("$DIserver:client:V3")).unwrap();
    assert_eq!(m.initial_key, "");
    assert_eq!(InitialServerHandshakeMessage::new("a", "b", "v", "k").to_string(), "$DIA:B:v:k");
    let m = SendFastPositionUpdatesMessage::try_from(&split("$SFa:b:1")).unwrap();
    assert!(m.send_fast);
    let m = SendFastPositionUpdatesMessage::try_from(&split("$SFa:b:01")).unwrap();
    assert!(!m.send_fast);
    assert_eq!(SendFastPositionUpdatesMessage::new("a", "b", true).to_string(), "$SFA:B:1");
    let m = KillMessage::try_from(&split("$!!sup:baw1:bye:now")).unwrap();
    assert_eq!(m.reason.as_deref(), Some("bye"));
    assert_eq!(m.to_string(), "$!!SUP:BAW1:bye");
    let m = KillMessage::try_from(&split("$!!sup:baw1")).unwrap();
    assert_eq!(m.reason, None);
    assert_eq!(KillMessage::new("a", "b", Some("r")).to_string(), "$!!A:B:r");
    assert_eq!(KillMessage::new("a", "b", None).to_string(), "$!!A:B");
}

#[test]
fn client_handshake() {
    let m = InitialClientHandshakeMessage::try_from(&split("$IDa:b:69d7:Client:3:2:123:guid"))
        .unwrap();
    assert_eq!(m.client_id, 0x69d7);
    assert_eq!(m.client_name, "Client");
    assert_eq!((m.major_version, m.minor_version), (3, 2));
    assert_eq!((m.cid.as_str(), m.guid.as_str()), ("123", "guid"));
    assert_eq!(m.initial_key, None);
    assert_eq!(m.to_string(), "$IDA:B:69d7:Client:3:2:123:guid");
    let m = InitialClientHandshakeMessage::try_from(&split("$IDa:b:F:Client:3:2:123:guid:key"))
        .unwrap();
    assert_eq!(m.client_id, 15);
    assert_eq!(m.initial_key.as_deref(), Some("key"));
    assert_eq!(m.to_string(), "$IDA:B:000f:Client:3:2:123:guid:key");
    assert!(matches!(
        InitialClientHandshakeMessage::try_from(&split("$IDa:b:10000:C:3:2:1:g")),
        Err(FsdMessageParseError::InvalidClientID(t)) if t == "10000"
    ));
    assert!(matches!(
        InitialClientHandshakeMessage::try_from(&split("$IDa:b:xyz:C:3:2:1:g")),
        Err(FsdMessageParseError::InvalidClientID(t)) if t == "xyz"
    ));
    assert!(matches!(
        InitialClientHandshakeMessage::try_from(&split("$IDa:b:1:C:three:2:1:g")),
        Err(FsdMessageParseError::InvalidVersionNumber(t)) if t == "three"
    ));
    assert!(matches!(
        InitialClientHandshakeMessage::try_from(&split("$IDa:b:1:C:3:4294967296:1:g")),
        Err(FsdMessageParseError::InvalidVersionNumber(t)) if t == "4294967296"
    ));
    let m = InitialClientHandshakeMessage::new("a", "b", 255, "n", 1, 2, "c", "g", Some("k"));
    assert_eq!(m.to_string(), "$IDA:B:00ff:n:1:2:c:g:k");
}

#[test]
fn weather() {
    let m = MetarRequestMessage::try_from(&split("$AXa:server:METAR:egll")).unwrap();
    assert_eq!(m.station, "EGLL");
    assert_eq!(m.to_string(), "$AXA:SERVER:METAR:EGLL");
    assert_eq!(MetarRequestMessage::new("a", "b", "eham").to_string(), "$AXA:B:METAR:EHAM");
    let m = MetarResponseMessage::try_from(&split("$ARserver:a:METAR:egll 27005kt")).unwrap();
    assert_eq!(m.metar, "EGLL 27005KT");
    assert_eq!(MetarResponseMessage::new("a", "b", "x").to_string(), "$ARA:B:METAR:X");
}

#[test]
fn ping_and_pong() {
    let m = PingMessage::try_from(&split("$PIa:b:18446744073709551615")).unwrap();
    assert_eq!(m.timestamp, u64::MAX);
    assert_eq!(m.to_string(), "$PIA:B:18446744073709551615");
    assert!(matches!(
        PingMessage::try_from(&split("$PIa:b:18446744073709551616")),
        Err(FsdMessageParseError::InvalidPingTime(t)) if t == "18446744073709551616"
    ));
    assert!(matches!(
        PongMessage::try_from(&split("$POa:b:soon")),
        Err(FsdMessageParseError::InvalidPingTime(t)) if t == "soon"
    ));
    assert_eq!(PingMessage::new("a", "b", 5).to_string(), "$PIA:B:5");
    assert_eq!(PongMessage::new("a", "b", 5).to_string(), "$POA:B:5");
    assert_eq!(PongMessage::try_from(&split("$POa:b:007")).unwrap().timestamp, 7);
}

#[test]
fn plane_information() {
    let m = PlaneInfoRequestMessage::try_from(&split("#SBbaw1:klm2:PIR")).unwrap();
    assert_eq!((m.from.as_str(), m.to.as_str()), ("BAW1", "KLM2"));
    assert_eq!(m.to_string(), "#SBBAW1:KLM2:PIR");
    assert_eq!(PlaneInfoRequestMessage::new("a", "b").to_string(), "#SBA:B:PIR");
    let m = PlaneInfoResponseMessage::try_from(&split(
        "#SBbaw1:klm2:PI:GEN:EQUIPMENT=B738:AIRLINE=BAW:LIVERY=STD",
    ))
    .unwrap();
    assert_eq!(m.plane_info.equipment.as_deref(), Some("B738"));
    assert_eq!(m.plane_info.airline.as_deref(), Some("BAW"));
    assert_eq!(m.plane_info.livery.as_deref(), Some("STD"));
    assert_eq!(m.to_string(), "#SBBAW1:KLM2:PI:GEN:EQUIPMENT=B738:AIRLINE=BAW:LIVERY=STD");
    let m = PlaneInfoResponseMessage::try_from(&split("#SBbaw1:klm2:PI:GEN:")).unwrap();
    assert_eq!(m.to_string(), "#SBBAW1:KLM2:PI:GEN:");
    let info = PlaneInfo::new(Some("A320".to_string()), None, Some("X".to_string()));
    assert_eq!(
        PlaneInfoResponseMessage::new("a", "b", info).to_string(),
        "#SBA:B:PI:GEN:EQUIPMENT=A320:LIVERY=X"
    );
}

#[test]
fn server_faults() {
    let m = FsdErrorMessage::try_from(&split("$ERserver:a:004::")).unwrap();
    assert!(matches!(m.error_type, FsdError::SyntaxError));
    assert_eq!(m.to_string(), "$ERSERVER:A:004::");
    let m = FsdErrorMessage::try_from(&split("$ERserver:a:5::")).unwrap();
    assert!(matches!(m.error_type, FsdError::InvalidSourceCallsign));
    let m = FsdErrorMessage::try_from(&split("$ERserver:a:8:baw1:")).unwrap();
    assert!(matches!(&m.error_type, FsdError::NoFlightPlan(c) if c == "BAW1"));
    assert_eq!(m.to_string(), "$ERSERVER:A:008::");
    let m = FsdErrorMessage::try_from(&split("$ERserver:a:18:x:Oops")).unwrap();
    assert!(matches!(&m.error_type, FsdError::Other(t) if t == "Oops"));
    assert_eq!(m.to_string(), "$ERSERVER:A:018::Oops");
    assert!(matches!(
        FsdErrorMessage::try_from(&split("$ERserver:a:256::")),
        Err(FsdMessageParseError::InvalidServerError(t)) if t == "256"
    ));
    assert!(matches!(
        FsdErrorMessage::try_from(&split("$ERserver:a:::")),
        Err(FsdMessageParseError::InvalidServerError(t)) if t == ""
    ));
    assert_eq!(
        FsdErrorMessage::new("s", "a", FsdError::ServerFull).to_string(),
        "$ERS:A:012::"
    );
    assert_eq!(
        FsdErrorMessage::new("s", "a", FsdError::NoSuchCallsign("X".to_string())).to_string(),
        "$ERS:A:007::"
    );
}

#[test]
fn flight_plans() {
    let line = "$FPbaw1:*a:I:B738:450:EGLL:1200:1210:FL350:EHAM:1:15:3:30:EBBR:Rmk:DVR UFA";
    let m = FlightPlanMessage::try_from(&split(line)).unwrap();
    assert_eq!((m.callsign.as_str(), m.to.as_str()), ("BAW1", "*A"));
    assert_eq!(m.flight_plan.cruise_level, 35000);
    assert_eq!(
        m.to_string(),
        "$FPBAW1:*A:I:B738:450:EGLL:1200:1210:35000:EHAM:1:15:3:30:EBBR:Rmk:DVR UFA"
    );
    let line = "$AMtwr:server:baw1:V:C172:100:EGKB:900:0:2500:EGMD:0:45:2:0:EGKA::DCT";
    let m = FlightPlanAmendmentMessage::try_from(&split(line)).unwrap();
    assert_eq!((m.from.as_str(), m.to.as_str(), m.callsign.as_str()), ("TWR", "SERVER", "BAW1"));
    assert_eq!(m.flight_plan.flight_rules, FlightRules::VFR);
    assert_eq!(m.flight_plan.mins_enroute, 45);
    assert!(matches!(
        FlightPlanMessage::try_from(&split(
            "$FPbaw1:*a:I:B738:450:EGLL:1200:1210:FL350:EHAM:1:75:3:30:EBBR:Rmk:DVR"
        )),
        Err(FsdMessageParseError::InvalidMinute(t)) if t == "75"
    ));
    assert!(matches!(
        FlightPlanAmendmentMessage::try_from(&split(
            "$AMtwr:server:baw1:Q:C172:100:EGKB:900:0:2500:EGMD:0:45:2:0:EGKA::DCT"
        )),
        Err(FsdMessageParseError::InvalidFlightRules(t)) if t == "Q"
    ));
    let plan = FlightPlan::new(
        FlightRules::SVFR,
        "c172",
        95,
        "egkb",
        1,
        2,
        1500,
        "egmd",
        0,
        30,
        2,
        15,
        "egka",
        "Remarks kept",
        "dct",
    );
    assert_eq!(
        FlightPlanMessage::new("server", "g-abcd", plan.clone()).to_string(),
        "$FPG-ABCD:SERVER:S:C172:95:EGKB:1:2:1500:EGMD:0:30:2:15:EGKA:Remarks kept:DCT"
    );
    assert_eq!(
        FlightPlanAmendmentMessage::new("twr", "server", "g-abcd", plan).to_string(),
        "$AMTWR:SERVER:G-ABCD:S:C172:95:EGKB:1:2:1500:EGMD:0:30:2:15:EGKA:Remarks kept:DCT"
    );
}

#[test]
fn handoffs() {
    let m = HandoffOfferMessage::try_from(&split("$HOtwr:app:baw1")).unwrap();
    assert_eq!((m.from.as_str(), m.to.as_str(), m.aircraft.as_str()), ("TWR", "APP", "BAW1"));
    assert_eq!(m.to_string(), "$HOTWR:APP:BAW1");
    let m = HandoffAcceptMessage::try_from(&split("$HAapp:twr:baw1")).unwrap();
    assert_eq!(m.to_string(), "$HAAPP:TWR:BAW1");
    assert_eq!(HandoffOfferMessage::new("a", "b", "c").to_string(), "$HOA:B:C");
    assert_eq!(HandoffAcceptMessage::new("a", "b", "c").to_string(), "$HAA:B:C");
}

#[test]
fn decimal_texts() {
    for text in [
        "0", "1", "-1", "+1", "51.47750", "-0.46139", "1.", ".5", "-.5", "1e5", "1E5", "1e+5",
        "1.5e-3", "1.e5", "inf", "-inf", "+Infinity", "NaN", "nan", "-NAN", "007", "0.0000000",
        "123456789012345678901234567890",
    ] {
        assert!(is_decimal_text(text), "{}", text);
        assert!(text.parse::<f64>().is_ok(), "{}", text);
    }
    for text in [
        "", "+", "-", ".", "-.", "e5", ".e5", "1e", "1e+", "1e5.0", "1..2", "1.2.3", " 1", "1 ",
        "1,5", "0x10", "1f", "in", "infinit", "infinityy", "na", "nane", "--1", "+-1", "1_000",
        "١",
    ] {
        assert!(!is_decimal_text(text), "{:?}", text);
        assert!(text.parse::<f64>().is_err(), "{:?}", text);
    }
}

#[test]
fn atc_position() {
    let m = AtcPositionUpdateMessage::try_from(&split("%egll_twr:18500&@21975:4:50:5:51.47750:-0.46139:83"))
        .unwrap();
    assert_eq!(m.callsign, "EGLL_TWR");
    assert_eq!(m.frequencies.len(), 2);
    assert_eq!(m.frequencies[1].frequency(), (121, 975));
    assert_eq!(m.atc_type, AtcType::Tower);
    assert_eq!(m.vis_range, 50);
    assert_eq!(m.rating, AtcRating::C1);
    assert_eq!((m.latitude.as_str(), m.longitude.as_str()), ("51.47750", "-0.46139"));
    assert_eq!(m.elevation, 83);
    assert_eq!(m.to_string(), "%EGLL_TWR:18500&21975:4:50:5:51.47750:-0.46139:83");
    let m = AtcPositionUpdateMessage::try_from(&split("%a:18500:4:50:5:1:2")).unwrap();
    assert_eq!(m.elevation, 0);
    let m = AtcPositionUpdateMessage::try_from(&split("%a:18500:4:50:5:1:2:3.5")).unwrap();
    assert_eq!(m.elevation, 0);
    let m = AtcPositionUpdateMessage::try_from(&split("%a:18500:4:50:5:1:2:-12")).unwrap();
    assert_eq!(m.elevation, -12);
    let check = |line: &str| AtcPositionUpdateMessage::try_from(&split(line));
    assert!(matches!(check("%a:1:9:50:5:1:2"), Err(FsdMessageParseError::InvalidAtcType(t)) if t == "9"));
    assert!(matches!(check("%a:1:4:far:5:1:2"), Err(FsdMessageParseError::InvalidVisRange(t)) if t == "far"));
    assert!(matches!(check("%a:1:4:50:0:1:2"), Err(FsdMessageParseError::InvalidRating(t)) if t == "0"));
    assert!(matches!(check("%a:1:4:50:5:north:2"), Err(FsdMessageParseError::InvalidCoordinate(t)) if t == "north"));
    assert!(matches!(check("%a:1:4:50:5:1:"), Err(FsdMessageParseError::InvalidCoordinate(t)) if t == ""));
    let f = RadioFrequency::new(118, 500).unwrap();
    let m = AtcPositionUpdateMessage::new(
        "a",
        vec![f],
        AtcType::Ground,
        20,
        AtcRating::S2,
        "51.5",
        "-0.1",
        -3,
    );
    assert_eq!(m.to_string(), "%A:18500:3:20:3:51.5:-0.1:-3");
}

#[test]
fn secondary_visibility_centre() {
    let m = AtcSecondaryVisCentreMessage::try_from(&split("'egll_twr:1:51.4:-0.4")).unwrap();
    assert_eq!((m.callsign.as_str(), m.index), ("EGLL_TWR", 1));
    assert_eq!(m.to_string(), "'EGLL_TWR:1:51.4:-0.4");
    let check = |line: &str| AtcSecondaryVisCentreMessage::try_from(&split(line));
    assert!(matches!(check("'a:x:1:2"), Err(FsdMessageParseError::InvalidIndex(t)) if t == "x"));
    assert!(matches!(check("'a:-1:1:2"), Err(FsdMessageParseError::InvalidIndex(t)) if t == "-1"));
    assert!(matches!(check("'a:1:x:2"), Err(FsdMessageParseError::InvalidCoordinate(t)) if t == "x"));
    assert!(matches!(check("'a:1:1:y"), Err(FsdMessageParseError::InvalidCoordinate(t)) if t == "y"));
    assert_eq!(AtcSecondaryVisCentreMessage::new("a", 2, "1", "2").to_string(), "'A:2:1:2");
}

#[test]
fn pilot_position() {
    let line = "@N:baw123:7000:1:51.47000:-0.45000:2500:250:4269819904:-150";
    let m = PilotPositionUpdateMessage::try_from(&split(line)).unwrap();
    assert_eq!(m.callsign, "BAW123");
    assert_eq!(m.transponder_mode, TransponderMode::ModeC);
    assert_eq!(m.transponder_code, TransponderCode::try_from(7000).unwrap());
    assert_eq!(m.rating, PilotRating::Student);
    assert_eq!(m.true_altitude, "2500");
    assert_eq!(m.altitude_difference, "-150");
    assert_eq!(m.ground_speed, 250);
    assert_eq!((m.pitch, m.bank, m.heading, m.on_ground), (1018, 4, 512, false));
    assert_eq!(m.to_string(), "@N:BAW123:7000:1:51.47000:-0.45000:2500:250:4269819904:-150");
    let on_ground = "@S:baw123:7000:1:51.47000:-0.45000:2500:0:4269819906:0";
    let m = PilotPositionUpdateMessage::try_from(&split(on_ground)).unwrap();
    assert!(!m.on_ground);
    assert_eq!(m.to_string(), "@S:BAW123:7000:1:51.47000:-0.45000:2500:0:4269819904:0");
    let check = |i: usize, text: &str| {
        let mut fields = split(line);
        fields[i] = text;
        PilotPositionUpdateMessage::try_from(&fields)
    };
    assert!(matches!(check(6, "high"), Err(FsdMessageParseError::InvalidAltitude(t)) if t == "high"));
    assert!(matches!(check(9, "x"), Err(FsdMessageParseError::InvalidAltitudeDifference(t)) if t == "x"));
    assert!(matches!(check(8, "-1"), Err(FsdMessageParseError::InvalidPitchBankHeading(t)) if t == "-1"));
    assert!(matches!(check(0, "@X"), Err(FsdMessageParseError::InvalidTransponderMode(t)) if t == "X"));
    assert!(matches!(check(0, "@"), Err(FsdMessageParseError::InvalidTransponderMode(t)) if t == ""));
    assert!(matches!(check(2, "7800"), Err(FsdMessageParseError::InvalidTransponderCode(t)) if t == "7800"));
    assert!(matches!(check(3, "9"), Err(FsdMessageParseError::InvalidRating(t)) if t == "9"));
    assert!(matches!(check(4, "n"), Err(FsdMessageParseError::InvalidCoordinate(t)) if t == "n"));
    assert!(matches!(check(5, "w"), Err(FsdMessageParseError::InvalidCoordinate(t)) if t == "w"));
    assert!(matches!(check(7, "fast"), Err(FsdMessageParseError::InvalidSpeed(t)) if t == "fast"));
    let mut two = split(line);
    two[6] = "high";
    two[0] = "@X";
    assert!(matches!(
        PilotPositionUpdateMessage::try_from(&two),
        Err(FsdMessageParseError::InvalidAltitude(_))
    ));
    let m = PilotPositionUpdateMessage::new(
        "baw1",
        TransponderMode::Ident,
        TransponderCode::try_from(1234).unwrap(),
        PilotRating::VFR,
        "1.0",
        "2.0",
        "300",
        "10",
        120,
        1,
        2,
        3,
        true,
    );
    assert_eq!(m.to_string(), "@Y:BAW1:1234:2:1.0:2.0:300:120:4202510:10");
}

#[test]
fn velocity_positions() {
    let stopped = "#STbaw1:51.4700000:-0.4500000:83.00:4.50:4269819904";
    let m = VelocityPositionStoppedMessage::try_from(&split(stopped)).unwrap();
    assert_eq!(m.from, "BAW1");
    assert_eq!(m.altitude_agl, "4.50");
    assert_eq!(m.nose_gear_angle, None);
    assert_eq!((m.pitch, m.bank, m.heading), (1018, 4, 512));
    assert_eq!(m.to_string(), "#STBAW1:51.4700000:-0.4500000:83.00:4.50:4269819904");
    let with_angle = "#STbaw1:51.4700000:-0.4500000:83.00:4.50:4269819904:-12.50";
    let m = VelocityPositionStoppedMessage::try_from(&split(with_angle)).unwrap();
    assert_eq!(m.nose_gear_angle.as_deref(), Some("-12.50"));
    let check = |line: &str| VelocityPositionStoppedMessage::try_from(&split(line));
    assert!(matches!(check("#STa:1:2:3:4:x"), Err(FsdMessageParseError::InvalidPitchBankHeading(t)) if t == "x"));
    assert!(matches!(check("#STa:1:2:3:4:5:left"), Err(FsdMessageParseError::InvalidNosewheelAngle(t)) if t == "left"));
    assert!(matches!(check("#STa:n:2:3:4:5"), Err(FsdMessageParseError::InvalidCoordinate(t)) if t == "n"));
    assert!(matches!(check("#STa:1:e:3:4:5"), Err(FsdMessageParseError::InvalidCoordinate(t)) if t == "e"));
    assert!(matches!(check("#STa:1:2:up:4:5"), Err(FsdMessageParseError::InvalidAltitude(t)) if t == "up"));
    assert!(matches!(check("#STa:1:2:3:up:5"), Err(FsdMessageParseError::InvalidAltitude(t)) if t == "up"));
    assert!(matches!(check("#STa:n:2:3:4:x:left"), Err(FsdMessageParseError::InvalidPitchBankHeading(_))));
    assert!(matches!(check("#STa:n:2:3:4:5:left"), Err(FsdMessageParseError::InvalidNosewheelAngle(_))));

    let slow = "#SLbaw1:1.5:2.5:3.5:4.5:4269819904:10.0:0.0:-2.5:0.0:0.01:0.0";
    let m = VelocityPositionSlowMessage::try_from(&split(slow)).unwrap();
    assert_eq!(m.x_velocity, "10.0");
    assert_eq!(m.z_velocity, "-2.5");
    assert_eq!(m.heading_rad_per_sec, "0.01");
    assert_eq!(m.to_string(), "#SLBAW1:1.5:2.5:3.5:4.5:4269819904:10.0:0.0:-2.5:0.0:0.01:0.0");
    for i in 6..12 {
        let mut fields = split(slow);
        fields[i] = "quick";
        assert!(matches!(
            VelocityPositionSlowMessage::try_from(&fields),
            Err(FsdMessageParseError::InvalidPositionVelocity(t)) if t == "quick"
        ));
    }
    let fast = "^baw1:1.5:2.5:3.5:4.5:4269819904:10.0:0.0:-2.5:0.0:0.01:0.0:1.25";
    let f = VelocityPositionFastMessage::try_from(&split(fast)).unwrap();
    assert_eq!(f.nose_gear_angle.as_deref(), Some("1.25"));
    assert_eq!(f.to_string(), "^BAW1:1.5:2.5:3.5:4.5:4269819904:10.0:0.0:-2.5:0.0:0.01:0.0:1.25");
    let converted = VelocityPositionFastMessage::from(m.clone());
    assert_eq!(converted.to_string(), "^BAW1:1.5:2.5:3.5:4.5:4269819904:10.0:0.0:-2.5:0.0:0.01:0.0");
    assert_eq!(converted.from, m.from);
    assert_eq!(converted.latitude, m.latitude);
    assert_eq!(converted.bank_rad_per_sec, m.bank_rad_per_sec);
    let built = VelocityPositionStoppedMessage::new("a", "1", "2", "3", "4", 0, 0, 256, true, None);
    assert_eq!(built.to_string(), "#STA:1:2:3:4:1026");
}
