use fsd_messages::errors::FsdMessageParseError;
use fsd_messages::message_type::{classify, FsdMessageType, MessageKind};
use fsd_messages::messages::query::ClientQueryType;
use fsd_messages::parse_message;

#[test]
fn who_has_query_is_read_and_written_back() {
    let line = "$CQEHAM_GND:@94835:WH:KLM167";
    match parse_message(line).unwrap() {
        FsdMessageType::ClientQueryMessage(m) => {
            assert_eq!(m.from, "EHAM_GND");
            assert_eq!(m.to, "@94835");
            match &m.query_type {
                ClientQueryType::WhoHas { aircraft_callsign } => {
                    assert_eq!(aircraft_callsign, "KLM167")
                },
                other => panic!("{:?}", other),
            }
            assert_eq!(m.to_string(), line);
        },
        other => panic!("{:?}", other),
    }
    assert_eq!(parse_message(line).unwrap().to_string(), line);
}

#[test]
fn deregistration_with_callsign_and_cid() {
    match parse_message("#DAEGPH_APP:123456").unwrap() {
        FsdMessageType::AtcDeregisterMessage(m) => {
            assert_eq!(m.from, "EGPH_APP");
            assert_eq!(m.cid, "123456");
            assert_eq!(m.to_string(), "#DAEGPH_APP:123456");
        },
        other => panic!("{:?}", other),
    }
    match parse_message("#DPbaw123:654321").unwrap() {
        FsdMessageType::PilotDeregisterMessage(m) => {
            assert_eq!(m.from, "BAW123");
            assert_eq!(m.cid, "654321");
        },
        other => panic!("{:?}", other),
    }
}

#[test]
fn line_of_one_field_is_a_deregistration_or_unknown() {
    assert!(matches!(
        parse_message("#DAEGPH_APP"),
        Err(FsdMessageParseError::InvalidFieldCount(2, 1))
    ));
    assert!(matches!(
        parse_message("#DPBAW123"),
        Err(FsdMessageParseError::InvalidFieldCount(2, 1))
    ));
    for line in ["#AAEGPH_APP", "", "hello", "$CQEHAM_GND", "#DL"] {
        match parse_message(line) {
            Err(FsdMessageParseError::UnknownMessageType(t)) => assert_eq!(t, line),
            other => panic!("{:?}", other),
        }
    }
}

#[test]
fn unknown_marker_gives_the_line_back() {
    for line in ["$ZZA:B:C", "#XXA:B", "hello:world", ":", "#SBA:B:NOPE", "#SBA:B:pir"] {
        match parse_message(line) {
            Err(FsdMessageParseError::UnknownMessageType(t)) => assert_eq!(t, line),
            other => panic!("{:?}", other),
        }
    }
    assert!(matches!(
        parse_message("#SBA:B"),
        Err(FsdMessageParseError::InvalidFieldCount(3, 2))
    ));
}

#[test]
fn every_marker_is_told_apart() {
    let cases = [
        ("#DAX:1", MessageKind::AtcDeregisterMessage),
        ("#DPX:1", MessageKind::PilotDeregisterMessage),
        ("#AAX:1", MessageKind::AtcRegisterMessage),
        ("#APX:1", MessageKind::PilotRegisterMessage),
        ("%X:1", MessageKind::AtcPositionUpdateMessage),
        ("'X:1", MessageKind::AtcSecondaryVisCentreMessage),
        ("@N:1", MessageKind::PilotPositionUpdateMessage),
        ("$ZCX:1", MessageKind::AuthenticationChallengeMessage),
        ("$ZRX:1", MessageKind::AuthenticationResponseMessage),
        ("$ERX:1", MessageKind::FsdErrorMessage),
        ("$HOX:1", MessageKind::HandoffOfferMessage),
        ("$HAX:1", MessageKind::HandoffAcceptMessage),
        ("#TMX:Y", MessageKind::TextMessage),
        ("#TMX:@18300", MessageKind::FrequencyMessage),
        ("$XXX:1", MessageKind::ChangeServerMessage),
        ("$FPX:1", MessageKind::FlightPlanMessage),
        ("$AMX:1", MessageKind::FlightPlanAmendmentMessage),
        ("$DIX:1", MessageKind::InitialServerHandshakeMessage),
        ("$IDX:1", MessageKind::InitialClientHandshakeMessage),
        ("$SFX:1", MessageKind::SendFastPositionUpdatesMessage),
        ("#STX:1", MessageKind::VelocityPositionStoppedMessage),
        ("#DLX:1", MessageKind::ServerHeartbeat),
        ("#SLX:1", MessageKind::VelocityPositionSlowMessage),
        ("#PCX:1", MessageKind::SharedStateMessage),
        ("^X:1", MessageKind::VelocityPositionFastMessage),
        ("$!!X:1", MessageKind::KillMessage),
        ("$AXX:1", MessageKind::MetarRequestMessage),
        ("$ARX:1", MessageKind::MetarResponseMessage),
        ("$CQX:1", MessageKind::ClientQueryMessage),
        ("$CRX:1", MessageKind::ClientQueryResponseMessage),
        ("$PIX:1", MessageKind::PingMessage),
        ("$POX:1", MessageKind::PongMessage),
        ("#SBX:Y:PIR", MessageKind::PlaneInfoRequestMessage),
        ("#SBX:Y:PI", MessageKind::PlaneInfoResponseMessage),
        ("#SBX:Y:FSIPI", MessageKind::FSInnPlaneInformationResponseMessage),
        ("#SBX:Y:FSIPIR", MessageKind::FSInnPlaneInformationRequestMessage),
    ];
    for (line, kind) in cases {
        let fields: Vec<&str> = line.split(':').collect();
        assert_eq!(classify(&fields), Some(kind), "{}", line);
    }
    assert_eq!(classify(&[]), None);
    assert_eq!(classify(&["#DA"]), Some(MessageKind::AtcDeregisterMessage));
    assert_eq!(classify(&["#AA"]), None);
}

#[test]
fn messages_that_carry_nothing() {
    assert!(matches!(
        parse_message("#DLSERVER:*:0:0").unwrap(),
        FsdMessageType::ServerHeartbeat
    ));
    assert!(matches!(
        parse_message("#SBBAW1:KLM2:FSIPIR:0:BAW:B738").unwrap(),
        FsdMessageType::FSInnPlaneInformationRequestMessage
    ));
    assert!(matches!(
        parse_message("#SBBAW1:KLM2:FSIPI:0:BAW:B738").unwrap(),
        FsdMessageType::FSInnPlaneInformationResponseMessage
    ));
    for m in [
        FsdMessageType::ServerHeartbeat,
        FsdMessageType::FSInnPlaneInformationRequestMessage,
        FsdMessageType::FSInnPlaneInformationResponseMessage,
    ] {
        let line = m.to_string();
        let again = parse_message(&line).unwrap();
        assert_eq!(again.to_string(), line);
    }
    assert_eq!(FsdMessageType::ServerHeartbeat.to_string(), "#DL:");
}

#[test]
fn too_few_fields_name_both_counts() {
    let cases: [(&str, usize, usize); 34] = [
        ("#AAX:1:2:3:4:5", 7, 6),
        ("#APX:1:2:3:4:5", 7, 6),
        ("%X:1:2:3:4:5", 7, 6),
        ("'X:1:2", 4, 3),
        ("@N:1:2:3:4:5:6:7:8", 10, 9),
        ("$ZCX:1", 3, 2),
        ("$ZRX:1", 3, 2),
        ("$ERX:1:2:3", 5, 4),
        ("$HOX:1", 3, 2),
        ("$HAX:1", 3, 2),
        ("#TMX:1", 3, 2),
        ("#TMX:@18300", 3, 2),
        ("$XXX:1", 3, 2),
        ("$FPX:1:2", 17, 3),
        ("$AMX:1:2", 18, 3),
        ("$DIX:1", 3, 2),
        ("$IDX:1:2:3:4:5:6", 8, 7),
        ("$SFX:1", 3, 2),
        ("#STX:1:2:3:4", 6, 5),
        ("#SLX:1:2:3:4:5:6:7:8:9:10", 12, 11),
        ("#PCX:1:2", 4, 3),
        ("^X:1:2:3:4:5:6:7:8:9:10", 12, 11),
        ("$AXX:1:2", 4, 3),
        ("$ARX:1:2", 4, 3),
        ("$CQX:1", 3, 2),
        ("$CRX:1:2", 4, 3),
        ("$PIX:1", 3, 2),
        ("$POX:1", 3, 2),
        ("#SBX:1:PI:GEN", 5, 4),
        ("$CQX:1:WH", 4, 3),
        ("$CQX:1:IPC:W:852", 6, 5),
        ("$CRX:1:RN:a:b", 6, 5),
        ("#PCX:1:CCP:BC:a", 6, 5),
        ("$CRX:1:ATIS:T", 5, 4),
    ];
    for (line, expected, found) in cases {
        match parse_message(line) {
            Err(FsdMessageParseError::InvalidFieldCount(e, f)) => {
                assert_eq!((e, f), (expected, found), "{}", line)
            },
            other => panic!("{}: {:?}", line, other),
        }
    }
    let plan = "$FPX:1:I:B738:450:EGLL:1200:1210:35000:EHAM:1:15:3:30:EBBR:R:DVR:extra";
    assert!(matches!(parse_message(plan), Err(FsdMessageParseError::InvalidFieldCount(17, 18))));
}

#[test]
fn canonical_lines_are_written_back_unchanged() {
    let lines = [
        "#AAEGPH_APP:SERVER:Caspian:1234567:secret:4:9",
        "#AAEGPH_APP:SERVER:Caspian:1234567:secret:12:101",
        "#APEZY38UB:SERVER:1234567:secret:1:101:16:Jo Bloggs",
        "#DAEGPH_APP:1234567",
        "#DPEZY38UB:1234567",
        "$ZCSERVER:EZY38UB:abcdef0123",
        "$ZREZY38UB:SERVER:3210fedcba",
        "#TMEGLL_TWR:BAW123:Good evening: cleared to land",
        "#TMEGLL_TWR:*S:Supervisor please",
        "#TMBAW123:@18300:Heathrow Tower, Speedbird 123",
        "#TMBAW123:@18300&@21500:Two at once: really",
        "$XXSERVER:EZY38UB:fsd.example.org",
        "$DISERVER:CLIENT:VATSIM FSD V3.13:0123456789abcdef",
        "$IDEGLL_TWR:SERVER:69d7:EuroScope 3.2:3:2:1234567:987654321",
        "$IDEGLL_TWR:SERVER:00ab:EuroScope 3.2:3:2:1234567:987654321:0123456789abcdef",
        "$SFSERVER:BAW123:1",
        "$SFSERVER:BAW123:0",
        "$!!SUP1:BAW123",
        "$!!SUP1:BAW123:Goodbye",
        "$AXEGLL_TWR:SERVER:METAR:EGLL",
        "$ARSERVER:EGLL_TWR:METAR:EGLL 010920Z 27005KT CAVOK 15/07 Q1022",
        "$PIBAW123:SERVER:1700000000",
        "$POSERVER:BAW123:1700000000",
        "#SBBAW123:KLM456:PIR",
        "#SBBAW123:KLM456:PI:GEN:EQUIPMENT=B738:AIRLINE=BAW:LIVERY=STD",
        "#SBBAW123:KLM456:PI:GEN:AIRLINE=BAW",
        "$ERSERVER:EGLL_TWR:004::",
        "$ERSERVER:EGLL_TWR:018::Something went wrong",
        "$FPBAW123:*A:I:B738:450:EGLL:1200:1210:35000:EHAM:1:15:3:30:EBBR:No remarks:DVR UFA",
        "$AMEGLL_TWR:SERVER:BAW123:V:C172:100:EGKB:900:0:2500:EGMD:0:45:2:0:EGKA::DCT",
        "$HOEGLL_TWR:EGLL_APP:BAW123",
        "$HAEGLL_APP:EGLL_TWR:BAW123",
        "$CQEGLL_TWR:SERVER:ATC:EGLL_APP",
        "$CQEGLL_TWR:BAW123:CAPS",
        "$CQEGLL_TWR:BAW123:C?",
        "$CQEGLL_TWR:BAW123:RN",
        "$CQEGLL_TWR:BAW123:SV",
        "$CQEGLL_TWR:EGLL_APP:ATIS",
        "$CQEGLL_TWR:SERVER:IP",
        "$CQEGLL_TWR:BAW123:INF",
        "$CQEGLL_TWR:SERVER:FP:BAW123",
        "$CQSERVER:N194Q:IPC:W:852:8704",
        "$CQEGLL_TWR:@94835:BY",
        "$CQEGLL_TWR:@94835:HI",
        "$CQEGLL_TWR:@94835:HLP",
        "$CQEGLL_TWR:@94835:HLP:Too busy",
        "$CQEGLL_TWR:@94835:NOHLP",
        "$CQEGLL_TWR:@94835:NOHLP:All fine",
        "$CQEGLL_TWR:@94835:WH:BAW123",
        "$CQEGLL_TWR:@94835:IT:BAW123",
        "$CQEGLL_TWR:@94835:HT:BAW123:EGLL_APP",
        "$CQEGLL_TWR:@94835:DR:BAW123",
        "$CQEGLL_TWR:@94835:FA:BAW123:35000",
        "$CQEGLL_TWR:@94835:TA:BAW123:6000",
        "$CQEGLL_TWR:@94835:BC:BAW123:0412",
        "$CQEGLL_TWR:@94835:SC:BAW123:GRP/S/A12",
        "$CQEGLL_TWR:@94835:SC:BAW123:H270",
        "$CQEGLL_TWR:@94835:SC:BAW123:M78",
        "$CQEGLL_TWR:@94835:SC:BAW123:GRP/M/EGLL/512",
        "$CQEGLL_TWR:@94835:VT:BAW123:v",
        "$CQEGLL_TWR:@94835:VT:BAW123:",
        "$CQBAW123:@94835:ACC:{\"request\":\"full\"}",
        "$CQBAW123:@94835:ACC:{\"config\":{\"gear_down\":true,\"on_ground\":false}}",
        "$CQSERVER:BAW123:SIMTIME:20240102030405",
        "$CRBAW123:EGLL_TWR:C?:118.500",
        "$CREGLL_APP:EGLL_TWR:ATIS:V:voice.example.org/egll_app",
        "$CREGLL_APP:EGLL_TWR:ATIS:T:Heathrow Director: good evening",
        "$CREGLL_APP:EGLL_TWR:ATIS:Z:2300z",
        "$CREGLL_APP:EGLL_TWR:ATIS:Z:0030z",
        "$CREGLL_APP:EGLL_TWR:ATIS:Z:z",
        "$CREGLL_APP:EGLL_TWR:ATIS:E:4",
        "$CRBAW123:EGLL_TWR:RN:Jo Bloggs:EGLL sector:4",
        "$CRBAW123:EGLL_TWR:CAPS:ATCINFO=1:SECPOS=1:MODELDESC=1",
        "$CRBAW123:EGLL_TWR:CAPS:",
        "$CRSERVER:EGLL_TWR:IP:192.0.2.17",
        "$CRBAW123:EGLL_TWR:SV:fsd.example.org",
        "$CRSERVER:EGLL_TWR:ATC:Y:EGLL_APP",
        "$CRSERVER:EGLL_TWR:ATC:N:EGLL_APP",
        "#PCEGLL_TWR:EGLL_APP:CCP:VER",
        "#PCEGLL_TWR:EGLL_APP:CCP:ID",
        "#PCEGLL_TWR:EGLL_APP:CCP:DI",
        "#PCEGLL_TWR:EGLL_APP:CCP:IH:BAW123",
        "#PCEGLL_TWR:EGLL_APP:CCP:SC:BAW123:/ASP-/",
        "#PCEGLL_TWR:EGLL_APP:CCP:TA:BAW123:6000",
        "#PCEGLL_TWR:EGLL_APP:CCP:FA:BAW123:35000",
        "#PCEGLL_TWR:EGLL_APP:CCP:VT:BAW123:t",
        "#PCEGLL_TWR:EGLL_APP:CCP:BC:BAW123:7000",
        "#PCEGLL_TWR:EGLL_APP:CCP:HC:BAW123",
        "%EGLL_TWR:18500:4:50:5:51.47750:-0.46139:0",
        "%EGLL_TWR:18500&21975:4:50:5:51.47750:-0.46139:-12",
        "'EGLL_TWR:1:51.47750:-0.46139",
        "@N:BAW123:7000:1:51.47000:-0.45000:2500:250:4269819904:-150",
        "#STBAW123:51.4700000:-0.4500000:83.00:4.50:4269819904",
        "#STBAW123:51.4700000:-0.4500000:83.00:4.50:4269819904:0.00",
        "#SLBAW123:51.4700000:-0.4500000:2500.00:2417.00:4269819904:10.0000:0.0000:-2.5000:0.0000:0.0100:0.0000",
        "^BAW123:51.4700000:-0.4500000:2500.00:2417.00:4269819904:10.0000:0.0000:-2.5000:0.0000:0.0100:0.0000:1.25",
    ];
    for line in lines {
        match parse_message(line) {
            Ok(m) => assert_eq!(m.to_string(), line),
            Err(e) => panic!("{}: {:?}", line, e),
        }
    }
}

#[test]
fn lines_are_normalised_when_written_back() {
    let cases = [
        ("#AAegph_app:server:Caspian:1234567:secret:04:1", "#AAEGPH_APP:SERVER:Caspian:1234567:secret:4:9"),
        ("#APezy38ub:server:1234567:secret:1:9:99", "#APEZY38UB:SERVER:1234567:secret:1:9:0:"),
        ("$DIserver:client:V3", "$DISERVER:CLIENT:V3:"),
        ("$IDa:b:69D7:n:+3:02:c:g", "$IDA:B:69d7:n:3:2:c:g"),
        ("$SFa:b:yes", "$SFA:B:0"),
        ("$AXa:b:whatever:egll", "$AXA:B:METAR:EGLL"),
        ("$ARa:b:METAR:egll 27005kt", "$ARA:B:METAR:EGLL 27005KT"),
        ("#SBa:b:PIR:more", "#SBA:B:PIR"),
        ("#SBa:b:PI:X:livery=std:equipment=b738", "#SBA:B:PI:GEN:EQUIPMENT=b738:LIVERY=std"),
        ("$ERa:b:5::", "$ERA:B:005::"),
        ("$ERa:b:7:baw1:", "$ERA:B:007::"),
        ("$ERa:b:99:x:y", "$ERA:B:018::y"),
        ("$CQa:b:FA:baw1:FL350", "$CQA:B:FA:BAW1:35000"),
        ("$CQa:b:BC:baw1:412", "$CQA:B:BC:BAW1:0412"),
        ("$CQa:b:VT:baw1:V", "$CQA:B:VT:BAW1:v"),
        ("$CQa:b:SC:baw1:NOSTATE", "$CQA:B:SC:BAW1:NSTS"),
        ("$CQa:b:HLP:", "$CQA:B:HLP"),
        ("$CQa:b:ACC:{\"config\": {\"on_ground\": true}}", "$CQA:B:ACC:{\"config\":{\"on_ground\":true}}"),
        ("$CQa:b:ACC:{ \"request\" : \"full\" }", "$CQA:B:ACC:{\"request\":\"full\"}"),
        ("$CQa:b:NEWATIS:ATIS B:  31016KT Q1022", "$CQA:B:NEWATIS:ATIS B:  31016KT - Q1022"),
        ("$CRa:b:C?:118.5", "$CRA:B:C?:118.005"),
        ("$CRa:b:ATIS:Z:noon", "$CRA:B:ATIS:Z:z"),
        ("$CRa:b:ATIS:Z:930", "$CRA:B:ATIS:Z:0930z"),
        ("$CRa:b:ATC:y:egll_app", "$CRA:B:ATC:Y:EGLL_APP"),
        ("$CRa:b:CAPS:secpos=1:x=1:SECPOS=1:VERSION=0", "$CRA:B:CAPS:SECPOS=1"),
        ("#PCa:b:XXX:ta:c:1", "#PCA:B:CCP:ta:c:1"),
        ("%a:18500:4:50:5:51.4:-0.4", "%A:18500:4:50:5:51.4:-0.4:0"),
        ("%a:@18500&junk:4:50:5:51.4:-0.4:high", "%A:18500:4:50:5:51.4:-0.4:0"),
        ("@S:baw1:0:1:1:2:3:4:7:5", "@S:BAW1:0000:1:1:2:3:4:4:5"),
    ];
    for (read, written) in cases {
        match parse_message(read) {
            Ok(m) => assert_eq!(m.to_string(), written, "{}", read),
            Err(FsdMessageParseError::InvalidSharedStateType(t)) => {
                assert_eq!(read, "#PCa:b:XXX:ta:c:1");
                assert_eq!(t, "ta");
            },
            Err(e) => panic!("{}: {:?}", read, e),
        }
    }
}
