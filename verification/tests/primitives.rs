use fsd_messages::enums::{
    AtcRating, AtcType, ClientCapability, FlightRules, GroundState, Operator, PilotRating,
    ProtocolRevision, SimulatorType, TransponderMode, VoiceCapability,
};
use fsd_messages::errors::{FsdError, FsdMessageParseError};
use fsd_messages::numbers::{number_text, padded_text, parse_i32, parse_unsigned, signed_text};
use fsd_messages::scratchpad::ScratchPad;
use fsd_messages::structs::{FlightPlan, PlaneInfo, RadioFrequency, TransponderCode};
use fsd_messages::text::{
    chars_of, followed_by, join_from, join_strings, same_text, skip_prefix, split_on, starts_with,
    string_of,
};
use fsd_messages::util::{
    assemble_with_colons, contains_text, group_frequencies_with_symbol,
    group_frequencies_without_symbol, pack_pitch_bank_heading, parse_altitude, parse_new_atis,
    read_capabilities, read_new_atis, split_frequencies, unpack_pitch_bank_heading,
};

#[test]
fn transponder_code_reads_and_writes_four_digits() {
    let code = TransponderCode::from_str("4700").unwrap();
    assert_eq!(code.to_string(), "4700");
    assert_eq!(TransponderCode::from_str("0012").unwrap().to_string(), "0012");
    assert_eq!(TransponderCode::from_str("7777").unwrap().to_string(), "7777");
    assert_eq!(TransponderCode::from_str("0000").unwrap().to_string(), "0000");
    assert_eq!(TransponderCode::from_str("12").unwrap().to_string(), "0012");
}

#[test]
fn transponder_code_round_trips_every_octal_code() {
    for a in 0..8u16 {
        for b in 0..8u16 {
            for c in 0..8u16 {
                for d in 0..8u16 {
                    let text = format!("{}{}{}{}", a, b, c, d);
                    let code = TransponderCode::from_str(&text).unwrap();
                    assert_eq!(code.to_string(), text);
                    assert_eq!(
                        TransponderCode::try_from(a * 1000 + b * 100 + c * 10 + d).unwrap(),
                        code
                    );
                }
            }
        }
    }
}

#[test]
fn transponder_code_refuses_high_digits() {
    for text in ["8000", "0800", "0080", "0008", "9999", "1239", "7778"] {
        match TransponderCode::from_str(text) {
            Err(FsdMessageParseError::InvalidTransponderCode(t)) => assert_eq!(t, text),
            other => panic!("{:?}", other),
        }
    }
    assert!(matches!(
        TransponderCode::from_str("abcd"),
        Err(FsdMessageParseError::InvalidTransponderCode(_))
    ));
    assert!(matches!(
        TransponderCode::from_str(""),
        Err(FsdMessageParseError::InvalidTransponderCode(_))
    ));
    assert!(matches!(
        TransponderCode::from_str("70000"),
        Err(FsdMessageParseError::InvalidTransponderCode(_))
    ));
}

#[test]
fn transponder_code_from_number_names_the_refused_code() {
    match TransponderCode::try_from(1289) {
        Err(FsdMessageParseError::InvalidTransponderCode(t)) => assert_eq!(t, "1289"),
        other => panic!("{:?}", other),
    }
    match TransponderCode::try_from(8) {
        Err(FsdMessageParseError::InvalidTransponderCode(t)) => assert_eq!(t, "0008"),
        other => panic!("{:?}", other),
    }
    match TransponderCode::try_from(65535) {
        Err(FsdMessageParseError::InvalidTransponderCode(t)) => assert_eq!(t, "65535"),
        other => panic!("{:?}", other),
    }
    assert_eq!(TransponderCode::try_from(4700).unwrap().to_string(), "4700");
}

#[test]
fn transponder_code_in_binary_coded_decimal() {
    let code = TransponderCode::from_str("2200").unwrap();
    assert_eq!(code.as_bcd_format(), 8704);
    assert_eq!(TransponderCode::try_from_bcd_format("8704").unwrap(), code);
    let code = TransponderCode::from_str("1234").unwrap();
    assert_eq!(code.as_bcd_format(), 0x1234);
    assert_eq!(TransponderCode::try_from_bcd_format("4660").unwrap(), code);
    assert_eq!(TransponderCode::from_str("7777").unwrap().as_bcd_format(), 0x7777);
    assert!(matches!(
        TransponderCode::try_from_bcd_format("8"),
        Err(FsdMessageParseError::InvalidTransponderCode(_))
    ));
    assert!(matches!(
        TransponderCode::try_from_bcd_format("32768"),
        Err(FsdMessageParseError::InvalidTransponderCode(_))
    ));
    assert!(matches!(
        TransponderCode::try_from_bcd_format("x"),
        Err(FsdMessageParseError::InvalidTransponderCode(_))
    ));
}

#[test]
fn radio_frequency_has_two_texts() {
    let f = RadioFrequency::new(118, 300).unwrap();
    assert_eq!(f.to_human_readable_string(), "118.300");
    assert_eq!(f.to_string(), "18300");
    assert_eq!(f.frequency(), (118, 300));
    let f = RadioFrequency::new(133, 175).unwrap();
    assert_eq!(f.to_human_readable_string(), "133.175");
    assert_eq!(f.to_string(), "33175");
    let f = RadioFrequency::new(121, 5).unwrap();
    assert_eq!(f.to_human_readable_string(), "121.005");
    assert_eq!(f.to_string(), "21005");
}

#[test]
fn radio_frequency_keeps_to_the_airband_and_the_data_channels() {
    assert!(RadioFrequency::new(118, 0).is_ok());
    assert!(RadioFrequency::new(137, 999).is_ok());
    assert!(RadioFrequency::new(199, 998).is_ok());
    assert!(RadioFrequency::new(149, 999).is_ok());
    assert_eq!(RadioFrequency::atc_text_channel().frequency(), (149, 999));
    match RadioFrequency::new(117, 999) {
        Err(FsdMessageParseError::InvalidFrequency(t)) => assert_eq!(t, "117.999"),
        other => panic!("{:?}", other),
    }
    match RadioFrequency::new(138, 0) {
        Err(FsdMessageParseError::InvalidFrequency(t)) => assert_eq!(t, "138.000"),
        other => panic!("{:?}", other),
    }
    assert!(RadioFrequency::new(199, 997).is_err());
    assert!(RadioFrequency::new(149, 998).is_err());
}

#[test]
fn radio_frequency_texts_agree() {
    for left in 118..=137u16 {
        for right in [0u16, 5, 25, 300, 999] {
            let f = RadioFrequency::new(left, right).unwrap();
            let dotted = f.to_human_readable_string();
            let compact = f.to_string();
            assert_eq!(RadioFrequency::try_from_human_readable_string(&dotted).unwrap(), f);
            assert_eq!(RadioFrequency::from_str(&compact).unwrap(), f);
        }
    }
    for (left, right) in [(199u16, 998u16), (149, 999)] {
        let f = RadioFrequency::new(left, right).unwrap();
        assert_eq!(
            RadioFrequency::try_from_human_readable_string(&f.to_human_readable_string()).unwrap(),
            f
        );
        assert_eq!(RadioFrequency::from_str(&f.to_string()).unwrap(), f);
    }
    assert_eq!(RadioFrequency::from_str("99998").unwrap().frequency(), (199, 998));
    assert_eq!(RadioFrequency::from_str("49999").unwrap().frequency(), (149, 999));
}

#[test]
fn radio_frequency_refuses_other_texts() {
    for text in ["", "1830", "183000", "ab300", "18abc", "17300", "38000", "é1234"] {
        match RadioFrequency::from_str(text) {
            Err(FsdMessageParseError::InvalidFrequency(t)) => assert_eq!(t, text),
            other => panic!("{:?}", other),
        }
    }
    for text in ["", "118", "118.", ".300", "abc.300", "118.abc", "117.300", "70000.1"] {
        match RadioFrequency::try_from_human_readable_string(text) {
            Err(FsdMessageParseError::InvalidFrequency(t)) => assert_eq!(t, text),
            other => panic!("{:?}", other),
        }
    }
    assert_eq!(
        RadioFrequency::try_from_human_readable_string("118.300.7").unwrap().frequency(),
        (118, 300)
    );
}

#[test]
fn altitude_and_flight_level() {
    assert_eq!(parse_altitude("FL350").unwrap(), 35000);
    assert_eq!(parse_altitude("").unwrap(), 0);
    assert_eq!(parse_altitude("10000").unwrap(), 10000);
    assert_eq!(parse_altitude("fl90").unwrap(), 9000);
    assert_eq!(parse_altitude("Fl0").unwrap(), 0);
    assert_eq!(parse_altitude("4294967295").unwrap(), 4294967295);
    assert_eq!(parse_altitude("FL42949672").unwrap(), 4294967200);
    for text in ["FL", "FLX", "A100", "-5", "4294967296", "FL42949673", "12 000"] {
        match parse_altitude(text) {
            Err(FsdMessageParseError::InvalidAltitude(t)) => assert_eq!(t, text),
            other => panic!("{:?}", other),
        }
    }
}

#[test]
fn orientation_packs_into_thirty_two_bits() {
    assert_eq!(pack_pitch_bank_heading(0, 0, 0, false), 0);
    assert_eq!(pack_pitch_bank_heading(0, 0, 0, true), 2);
    assert_eq!(pack_pitch_bank_heading(1, 0, 0, false), 1 << 22);
    assert_eq!(pack_pitch_bank_heading(0, 1, 0, false), 1 << 12);
    assert_eq!(pack_pitch_bank_heading(0, 0, 1, false), 1 << 2);
    assert_eq!(pack_pitch_bank_heading(1023, 1023, 1023, true), 0xffff_fffe);
    assert_eq!(pack_pitch_bank_heading(1024, 1025, 2047, false), (1 << 12) | (1023 << 2));
    assert_eq!(pack_pitch_bank_heading(1018, 4, 512, false), 4269819904);
}

#[test]
fn orientation_unpacks_without_the_flag() {
    assert_eq!(unpack_pitch_bank_heading(0), (0, 0, 0, false));
    assert_eq!(unpack_pitch_bank_heading(2), (0, 0, 0, false));
    assert_eq!(unpack_pitch_bank_heading(3), (0, 0, 0, false));
    assert_eq!(unpack_pitch_bank_heading(0xffff_ffff), (1023, 1023, 1023, false));
    assert_eq!(unpack_pitch_bank_heading(4269819904), (1018, 4, 512, false));
    for (p, b, h) in [(0u32, 0u32, 0u32), (1, 2, 3), (1023, 0, 512), (511, 1023, 1)] {
        for g in [false, true] {
            let packed = pack_pitch_bank_heading(p, b, h, g);
            assert_eq!(unpack_pitch_bank_heading(packed), (p, b, h, false));
            assert_eq!(packed & 2 == 2, g);
        }
    }
}

#[test]
fn scratchpad_commands() {
    assert!(matches!(ScratchPad::from_str("H270").unwrap(), ScratchPad::Heading(270)));
    assert!(matches!(ScratchPad::from_str("R1500").unwrap(), ScratchPad::RateOfClimbDescent(1500)));
    assert!(matches!(ScratchPad::from_str("S250").unwrap(), ScratchPad::Speed(250)));
    assert!(matches!(ScratchPad::from_str("M78").unwrap(), ScratchPad::Mach(78)));
    assert_eq!(ScratchPad::Heading(270).to_string(), "H270");
    assert_eq!(ScratchPad::RateOfClimbDescent(1500).to_string(), "R1500");
    assert_eq!(ScratchPad::Speed(250).to_string(), "S250");
    assert_eq!(ScratchPad::Mach(78).to_string(), "M78");
    match ScratchPad::from_str("HELLO").unwrap() {
        ScratchPad::PlainTextOrDirect(t) => assert_eq!(t, "HELLO"),
        other => panic!("{:?}", other),
    }
    match ScratchPad::from_str("S").unwrap() {
        ScratchPad::PlainTextOrDirect(t) => assert_eq!(t, "S"),
        other => panic!("{:?}", other),
    }
    match ScratchPad::from_str("").unwrap() {
        ScratchPad::PlainTextOrDirect(t) => assert_eq!(t, ""),
        other => panic!("{:?}", other),
    }
    match ScratchPad::from_str("H4294967296").unwrap() {
        ScratchPad::PlainTextOrDirect(t) => assert_eq!(t, "H4294967296"),
        other => panic!("{:?}", other),
    }
}

#[test]
fn scratchpad_stands() {
    match ScratchPad::from_str("GRP/S/A12").unwrap() {
        ScratchPad::Stand(stand) => assert_eq!(stand, "A12"),
        other => panic!("{:?}", other),
    }
    assert!(matches!(ScratchPad::from_str("GRP/S/").unwrap(), ScratchPad::CancelledStand));
    match ScratchPad::from_str("GRP/M/EHAM/B21").unwrap() {
        ScratchPad::ManualStand(icao, stand) => {
            assert_eq!(icao, "EHAM");
            assert_eq!(stand, "B21");
        },
        other => panic!("{:?}", other),
    }
    match ScratchPad::from_str("GRP/M/EHAM/B/21").unwrap() {
        ScratchPad::ManualStand(icao, stand) => {
            assert_eq!(icao, "EHAM");
            assert_eq!(stand, "B/21");
        },
        other => panic!("{:?}", other),
    }
    match ScratchPad::from_str("GRP/M/EHAM").unwrap() {
        ScratchPad::ManualStand(icao, stand) => {
            assert_eq!(icao, "EHAM");
            assert_eq!(stand, "");
        },
        other => panic!("{:?}", other),
    }
    assert!(matches!(ScratchPad::from_str("GRP/M/").unwrap(), ScratchPad::CancelledManualStand));
    assert_eq!(ScratchPad::Stand("A12".to_string()).to_string(), "GRP/S/A12");
    assert_eq!(ScratchPad::CancelledStand.to_string(), "GRP/S/");
    assert_eq!(
        ScratchPad::ManualStand("EHAM".to_string(), "B21".to_string()).to_string(),
        "GRP/M/EHAM/B21"
    );
    assert_eq!(ScratchPad::CancelledManualStand.to_string(), "GRP/M/");
}

#[test]
fn scratchpad_tokens() {
    let tokens = [
        ("/ASP=/", "/ASP=/"),
        ("/ASP-/", "/ASP-/"),
        ("/ASP+/", "/ASP+/"),
        ("/ARC=/", "/ARC=/"),
        ("/ARC-/", "/ARC-/"),
        ("/ARC+/", "/ARC+/"),
        ("NSTS", "NSTS"),
        ("NOSTATE", "NSTS"),
        ("ONFREQ", "ONFREQ"),
        ("DE-ICE", "DE-ICE"),
        ("STUP", "STUP"),
        ("ST-UP", "STUP"),
        ("PUSH", "PUSH"),
        ("TAXI", "TAXI"),
        ("LINEUP", "LINEUP"),
        ("TXIN", "TXIN"),
        ("DEPA", "DEPA"),
        ("PARK", "PARK"),
        ("CLEA", "CLEA"),
        ("NOTC", "NOTC"),
        ("DIRECT TO LAM", "DIRECT TO LAM"),
    ];
    for (read, written) in tokens {
        assert_eq!(ScratchPad::from_str(read).unwrap().to_string(), written);
    }
    assert!(matches!(
        ScratchPad::from_str("/ASP-/").unwrap(),
        ScratchPad::SpeedOperator(Operator::OrLess)
    ));
    assert!(matches!(
        ScratchPad::from_str("/ARC+/").unwrap(),
        ScratchPad::RateOfClimbDescentOperator(Operator::OrGreater)
    ));
    assert!(matches!(
        ScratchPad::from_str("DEPA").unwrap(),
        ScratchPad::GroundState(GroundState::TakeOff)
    ));
    assert!(matches!(ScratchPad::from_str("CLEA").unwrap(), ScratchPad::ClearanceReceived));
    assert!(matches!(ScratchPad::from_str("NOTC").unwrap(), ScratchPad::ClearanceCancelled));
    assert!(matches!(ScratchPad::from_str("clea").unwrap(), ScratchPad::PlainTextOrDirect(_)));
}

#[test]
fn frequencies_in_a_list() {
    let list = split_frequencies("18300&21500");
    assert_eq!(list.len(), 2);
    assert_eq!(list[0].frequency(), (118, 300));
    assert_eq!(list[1].frequency(), (121, 500));
    let list = split_frequencies("@18300&@21500");
    assert_eq!(list.len(), 2);
    let list = split_frequencies("@99998");
    assert_eq!(list[0].frequency(), (199, 998));
    assert_eq!(split_frequencies("").len(), 0);
    assert_eq!(split_frequencies("nonsense&18300&17000").len(), 1);
    let list = split_frequencies("18300&21500&33175");
    assert_eq!(group_frequencies_without_symbol(&list), "18300&21500&33175");
    assert_eq!(group_frequencies_with_symbol(&list), "@18300&@21500&@33175");
    assert_eq!(group_frequencies_without_symbol(&[]), "");
    assert_eq!(group_frequencies_with_symbol(&[]), "");
    assert_eq!(group_frequencies_with_symbol(&list[..1]), "@18300");
}

#[test]
fn capabilities_in_a_list() {
    let caps =
        read_capabilities(&["ATCINFO=1", "SECPOS=1", "bogus=1", "MODELDESC=0", "atcinfo=1"]);
    assert_eq!(caps, vec![ClientCapability::ATCInfo, ClientCapability::SecPos]);
    assert_eq!(read_capabilities(&[]), vec![]);
    assert_eq!(read_capabilities(&["VERSION", "=1", "VERSION=", "VERSION=11"]), vec![]);
    assert_eq!(
        read_capabilities(&["Version=1=9", "fastpos=1"]),
        vec![ClientCapability::Version, ClientCapability::FastPos]
    );
}

#[test]
fn new_atis_notice() {
    let (letter, wind, pressure) = parse_new_atis(&["ATIS B", "  31016KT Q1022"]).unwrap();
    assert_eq!(letter, 'B');
    assert_eq!(wind, "31016KT");
    assert_eq!(pressure, "Q1022");
    let (letter, wind, pressure) = parse_new_atis(&["atis n", " 31016kt-a2992  "]).unwrap();
    assert_eq!(letter, 'N');
    assert_eq!(wind, "31016KT");
    assert_eq!(pressure, "A2992");
    match parse_new_atis(&["ATIS N", "  31016KT - Q986"]) {
        Err(FsdMessageParseError::InvalidNewAtisMessage(t)) => {
            assert_eq!(t, "ATIS N:31016KT - Q986")
        },
        other => panic!("{:?}", other),
    }
    for (head, body) in [
        ("", "31016KT Q1022"),
        ("ATIS 1", "31016KT Q1022"),
        ("ATIS B", "3101KT Q1022"),
        ("ATIS B", "31016KT Q10"),
        ("ATIS B", "31016KT"),
        ("ATIS B", ""),
    ] {
        assert!(matches!(
            parse_new_atis(&[head, body]),
            Err(FsdMessageParseError::InvalidNewAtisMessage(_))
        ));
    }
    assert!(matches!(
        parse_new_atis(&["ATIS B"]),
        Err(FsdMessageParseError::InvalidFieldCount(2, 1))
    ));
}

#[test]
fn plane_info_entries() {
    let info = PlaneInfo::from(&["EQUIPMENT=B738", "AIRLINE=RYR", "LIVERY=STD"]);
    assert_eq!(info.equipment.as_deref(), Some("B738"));
    assert_eq!(info.airline.as_deref(), Some("RYR"));
    assert_eq!(info.livery.as_deref(), Some("STD"));
    assert_eq!(info.to_string(), "EQUIPMENT=B738:AIRLINE=RYR:LIVERY=STD");
    let info = PlaneInfo::from(&["livery=OLD", "other=1", "junk", "Livery=NEW", "equipment="]);
    assert_eq!(info.equipment.as_deref(), Some(""));
    assert_eq!(info.airline, None);
    assert_eq!(info.livery.as_deref(), Some("NEW"));
    assert_eq!(info.to_string(), "EQUIPMENT=:LIVERY=NEW");
    let info = PlaneInfo::from(&[]);
    assert_eq!(info.to_string(), "");
    let info = PlaneInfo::new(None, Some("BAW".to_string()), None);
    assert_eq!(info.to_string(), "AIRLINE=BAW");
}

#[test]
fn flight_plan_fields() {
    let fields = [
        "I", "b738", "450", "egll", "1200", "1210", "FL350", "eham", "1", "15", "3", "30", "ebbr",
        "No remarks", "dvr ufa",
    ];
    let plan = FlightPlan::try_from(&fields).unwrap();
    assert_eq!(plan.flight_rules, FlightRules::IFR);
    assert_eq!(plan.ac_type, "B738");
    assert_eq!(plan.filed_tas, 450);
    assert_eq!(plan.origin, "EGLL");
    assert_eq!(plan.etd, 1200);
    assert_eq!(plan.atd, 1210);
    assert_eq!(plan.cruise_level, 35000);
    assert_eq!(plan.destination, "EHAM");
    assert_eq!(plan.hours_enroute, 1);
    assert_eq!(plan.mins_enroute, 15);
    assert_eq!(plan.hours_fuel, 3);
    assert_eq!(plan.mins_fuel, 30);
    assert_eq!(plan.alternate, "EBBR");
    assert_eq!(plan.remarks, "No remarks");
    assert_eq!(plan.route, "DVR UFA");
    assert_eq!(
        plan.to_string(),
        "I:B738:450:EGLL:1200:1210:35000:EHAM:1:15:3:30:EBBR:No remarks:DVR UFA"
    );
    let empty = ["v", "", "", "", "", "", "", "", "", "", "", "", "", "", ""];
    let plan = FlightPlan::try_from(&empty).unwrap();
    assert_eq!(plan.flight_rules, FlightRules::VFR);
    assert_eq!(plan.to_string(), "V::0::0:0:0::0:0:0:0:::");
}

#[test]
fn flight_plan_failures() {
    let good = [
        "I", "B738", "450", "EGLL", "1200", "1210", "35000", "EHAM", "1", "15", "3", "30", "EBBR",
        "", "DVR",
    ];
    assert!(FlightPlan::try_from(&good).is_ok());
    assert!(matches!(
        FlightPlan::try_from(&good[..14]),
        Err(FsdMessageParseError::InvalidFieldCount(15, 14))
    ));
    let check = |i: usize, text: &str| {
        let mut fields = good;
        fields[i] = text;
        FlightPlan::try_from(&fields)
    };
    assert!(matches!(check(2, "fast"), Err(FsdMessageParseError::InvalidSpeed(t)) if t == "fast"));
    assert!(matches!(check(4, "noon"), Err(FsdMessageParseError::InvalidTime(t)) if t == "noon"));
    assert!(matches!(check(5, "70000"), Err(FsdMessageParseError::InvalidTime(t)) if t == "70000"));
    assert!(matches!(check(8, "256"), Err(FsdMessageParseError::InvalidTime(t)) if t == "256"));
    assert!(matches!(check(10, "x"), Err(FsdMessageParseError::InvalidTime(t)) if t == "x"));
    assert!(matches!(check(9, "x"), Err(FsdMessageParseError::InvalidTime(t)) if t == "x"));
    assert!(matches!(check(9, "60"), Err(FsdMessageParseError::InvalidMinute(t)) if t == "60"));
    assert!(matches!(check(11, "99"), Err(FsdMessageParseError::InvalidMinute(t)) if t == "99"));
    assert!(matches!(check(9, "59"), Ok(_)));
    assert!(
        matches!(check(0, "X"), Err(FsdMessageParseError::InvalidFlightRules(t)) if t == "X")
    );
    assert!(
        matches!(check(6, "high"), Err(FsdMessageParseError::InvalidAltitude(t)) if t == "high")
    );
}

#[test]
fn enumerations_by_number() {
    assert_eq!(AtcRating::from_str("1").unwrap(), AtcRating::Observer);
    assert_eq!(AtcRating::from_str("12").unwrap(), AtcRating::Administrator);
    assert_eq!(AtcRating::from_str("05").unwrap(), AtcRating::C1);
    assert_eq!(AtcRating::C1.number(), 5);
    for text in ["0", "13", "", "x", "256"] {
        assert!(
            matches!(AtcRating::from_str(text), Err(FsdMessageParseError::InvalidRating(t)) if t == text)
        );
    }
    assert_eq!(PilotRating::from_str("3").unwrap(), PilotRating::IFR);
    assert_eq!(PilotRating::Supervisor.number(), 5);
    assert!(matches!(PilotRating::from_str("6"), Err(FsdMessageParseError::InvalidRating(_))));
    assert_eq!(ProtocolRevision::from_str("1").unwrap(), ProtocolRevision::Classic);
    assert_eq!(ProtocolRevision::from_str("9").unwrap(), ProtocolRevision::Classic);
    assert_eq!(ProtocolRevision::from_str("101").unwrap(), ProtocolRevision::Vatsim2022);
    assert_eq!(ProtocolRevision::Classic.number(), 9);
    assert_eq!(ProtocolRevision::VatsimNoAuth.number(), 10);
    assert_eq!(ProtocolRevision::VatsimAuth.number(), 100);
    assert_eq!(ProtocolRevision::Vatsim2022.number(), 101);
    assert!(matches!(
        ProtocolRevision::from_str("09"),
        Err(FsdMessageParseError::InvalidProtocolRevison(t)) if t == "09"
    ));
    assert_eq!(SimulatorType::from("1"), SimulatorType::MSFS95);
    assert_eq!(SimulatorType::from("22"), SimulatorType::FlightGear);
    assert_eq!(SimulatorType::from("23"), SimulatorType::Unknown);
    assert_eq!(SimulatorType::from(""), SimulatorType::Unknown);
    assert_eq!(SimulatorType::XPLANE12.number(), 16);
    assert_eq!(SimulatorType::Unknown.number(), 0);
    assert_eq!(AtcType::from_str("0").unwrap(), AtcType::Observer);
    assert_eq!(AtcType::from_str("6").unwrap(), AtcType::Centre);
    assert_eq!(AtcType::Tower.number(), 4);
    assert!(matches!(AtcType::from_str("7"), Err(FsdMessageParseError::InvalidAtcType(t)) if t == "7"));
}

#[test]
fn enumerations_by_text() {
    assert_eq!(FlightRules::from_str("d").unwrap(), FlightRules::DVFR);
    assert_eq!(FlightRules::from_str("S").unwrap(), FlightRules::SVFR);
    assert_eq!(FlightRules::IFR.to_string(), "I");
    assert_eq!(FlightRules::VFR.to_string(), "V");
    assert_eq!(TransponderMode::from_str("S").unwrap(), TransponderMode::Standby);
    assert_eq!(TransponderMode::from_str("N").unwrap(), TransponderMode::ModeC);
    assert_eq!(TransponderMode::from_str("Y").unwrap(), TransponderMode::Ident);
    assert_eq!(TransponderMode::ModeC.to_string(), "N");
    assert!(matches!(
        TransponderMode::from_str("s"),
        Err(FsdMessageParseError::InvalidTransponderMode(t)) if t == "s"
    ));
    assert_eq!(VoiceCapability::from_str("").unwrap(), VoiceCapability::Unknown);
    assert_eq!(VoiceCapability::from_str("V").unwrap(), VoiceCapability::Voice);
    assert_eq!(VoiceCapability::from_str("t").unwrap(), VoiceCapability::Text);
    assert_eq!(VoiceCapability::from_str("R").unwrap(), VoiceCapability::Receive);
    assert_eq!(VoiceCapability::Receive.to_string(), "r");
    assert_eq!(VoiceCapability::Unknown.to_string(), "");
    assert!(matches!(
        VoiceCapability::from_str("X"),
        Err(FsdMessageParseError::InvalidVoiceCapability(t)) if t == "X"
    ));
    assert_eq!(ClientCapability::from_str("modeldesc").unwrap(), ClientCapability::ModelDesc);
    assert_eq!(ClientCapability::from_str("NEWATIS").unwrap(), ClientCapability::NewATIS);
    assert_eq!(ClientCapability::OngoingCoord.to_string(), "ONGOINGCOORD");
    assert!(matches!(
        ClientCapability::from_str("fly"),
        Err(FsdMessageParseError::InvalidClientCapability(t)) if t == "fly"
    ));
    assert_eq!(Operator::OrGreater.to_string(), "+");
    assert_eq!(GroundState::DeIcing.to_string(), "DE-ICE");
}

#[test]
fn every_capability_reads_back() {
    let all = [
        ClientCapability::Version,
        ClientCapability::ATCInfo,
        ClientCapability::ModelDesc,
        ClientCapability::ACConfig,
        ClientCapability::VisUpdate,
        ClientCapability::RadarUpdate,
        ClientCapability::ATCMulti,
        ClientCapability::SecPos,
        ClientCapability::IcaoEq,
        ClientCapability::FastPos,
        ClientCapability::OngoingCoord,
        ClientCapability::InterimPos,
        ClientCapability::Stealth,
        ClientCapability::Teamspeak,
        ClientCapability::NewATIS,
        ClientCapability::Mumble,
        ClientCapability::GlobalData,
        ClientCapability::Simulated,
        ClientCapability::ObsPilot,
    ];
    for c in all {
        assert_eq!(ClientCapability::from_str(&c.to_string()).unwrap(), c);
    }
}

#[test]
fn server_fault_numbers() {
    assert_eq!(FsdError::CallsignInUse.error_number(), 1);
    assert_eq!(FsdError::InvalidSourceCallsign.error_number(), 5);
    assert_eq!(FsdError::NoSuchCallsign("X".to_string()).error_number(), 7);
    assert_eq!(FsdError::AuthTimeOut.error_number(), 17);
    assert_eq!(FsdError::Other("x".to_string()).error_number(), 18);
    for code in 1..=17u8 {
        assert_eq!(FsdError::from_code(code, "s", "t").error_number(), code);
    }
    for code in [0u8, 18, 19, 255] {
        match FsdError::from_code(code, "s", "t") {
            FsdError::Other(t) => assert_eq!(t, "t"),
            other => panic!("{:?}", other),
        }
    }
    match FsdError::from_code(7, "baw1", "t") {
        FsdError::NoSuchCallsign(c) => assert_eq!(c, "BAW1"),
        other => panic!("{:?}", other),
    }
}

#[test]
fn numerals() {
    assert_eq!(parse_unsigned("0", false, 255), Some(0));
    assert_eq!(parse_unsigned("255", false, 255), Some(255));
    assert_eq!(parse_unsigned("256", false, 255), None);
    assert_eq!(parse_unsigned("+7", false, 255), Some(7));
    assert_eq!(parse_unsigned("007", false, 255), Some(7));
    assert_eq!(parse_unsigned("", false, 255), None);
    assert_eq!(parse_unsigned("+", false, 255), None);
    assert_eq!(parse_unsigned("-0", false, 255), None);
    assert_eq!(parse_unsigned("1 ", false, 255), None);
    assert_eq!(parse_unsigned("ff", true, 255), Some(255));
    assert_eq!(parse_unsigned("FF", true, 255), Some(255));
    assert_eq!(parse_unsigned("fg", true, 255), None);
    assert_eq!(parse_unsigned("ff", false, 255), None);
    assert_eq!(parse_unsigned("18446744073709551615", false, u64::MAX), Some(u64::MAX));
    assert_eq!(parse_unsigned("18446744073709551616", false, u64::MAX), None);
    assert_eq!(parse_unsigned("000000000000000000000000000001", false, 1), Some(1));
    assert_eq!(parse_i32("-2147483648"), Some(i32::MIN));
    assert_eq!(parse_i32("2147483647"), Some(i32::MAX));
    assert_eq!(parse_i32("2147483648"), None);
    assert_eq!(parse_i32("-2147483649"), None);
    assert_eq!(parse_i32("+12"), Some(12));
    assert_eq!(parse_i32("-"), None);
    assert_eq!(parse_i32("--1"), None);
    assert_eq!(number_text(0), "0");
    assert_eq!(number_text(u64::MAX), "18446744073709551615");
    assert_eq!(padded_text(7, false, 4), "0007");
    assert_eq!(padded_text(12345, false, 4), "12345");
    assert_eq!(padded_text(0x69d7, true, 4), "69d7");
    assert_eq!(padded_text(0xab, true, 4), "00ab");
    assert_eq!(signed_text(-42), "-42");
    assert_eq!(signed_text(i32::MIN), "-2147483648");
    assert_eq!(signed_text(0), "0");
    for n in [0u64, 9, 10, 99, 100, 65535, 4294967295] {
        assert_eq!(parse_unsigned(&number_text(n), false, u64::MAX), Some(n));
        assert_eq!(parse_unsigned(&padded_text(n, true, 6), true, u64::MAX), Some(n));
    }
}

#[test]
fn texts() {
    assert_eq!(chars_of("añb"), vec!['a', 'ñ', 'b']);
    assert_eq!(string_of(&vec!['a', 'b', 'c', 'd'], 1, 3), "bc");
    assert!(same_text("ab", "ab"));
    assert!(!same_text("ab", "abc"));
    assert!(!same_text("ab", "aB"));
    assert!(starts_with("#AAX", "#AA"));
    assert!(!starts_with("#A", "#AA"));
    assert!(starts_with("x", ""));
    assert_eq!(skip_prefix("#AAEGLL", 3), "EGLL");
    assert_eq!(skip_prefix("#A", 3), "");
    assert_eq!(skip_prefix("ñandú", 1), "andú");
    assert_eq!(split_on("a:b::c", ':', ':'), vec!["a", "b", "", "c"]);
    assert_eq!(split_on("", ':', ':'), vec![""]);
    assert_eq!(split_on(":", ':', ':'), vec!["", ""]);
    assert_eq!(split_on("a&b@c", '&', '@'), vec!["a", "b", "c"]);
    assert_eq!(join_from(&["a", "b", "c"], 1, ':'), "b:c");
    assert_eq!(join_from(&["a", "b", "c"], 3, ':'), "");
    assert_eq!(assemble_with_colons(&["a", "", "c"]), "a::c");
    assert_eq!(assemble_with_colons(&[]), "");
    assert_eq!(join_strings(&vec!["x".to_string(), "y".to_string()], 0, '/'), "x/y");
    assert_eq!(followed_by("ab", "cd"), "abcd");
    assert!(contains_text("{\"request\":\"full\"}", "request"));
    assert!(!contains_text("{\"config\":{}}", "request"));
    assert!(contains_text("abc", ""));
    assert!(!contains_text("ab", "abc"));
    for line in ["", "a", "a:b", ":a::b:", "$CQA:B:WH:C"] {
        let pieces = split_on(line, ':', ':');
        assert_eq!(join_strings(&pieces, 0, ':'), line);
    }
}

#[test]
fn names_in_upper_case_are_matched_as_they_are() {
    assert_eq!(ClientCapability::from_name("VERSION"), Some(ClientCapability::Version));
    assert_eq!(ClientCapability::from_name("OBSPILOT"), Some(ClientCapability::ObsPilot));
    assert_eq!(ClientCapability::from_name("version"), None);
    assert_eq!(ClientCapability::from_name(""), None);
    assert_eq!(FlightRules::from_name("I"), Some(FlightRules::IFR));
    assert_eq!(FlightRules::from_name("i"), None);
    assert_eq!(VoiceCapability::from_letter("v"), Some(VoiceCapability::Voice));
    assert_eq!(VoiceCapability::from_letter("t"), Some(VoiceCapability::Text));
    assert_eq!(VoiceCapability::from_letter("r"), Some(VoiceCapability::Receive));
    assert_eq!(VoiceCapability::from_letter("V"), None);
    assert_eq!(VoiceCapability::from_letter(""), None);
}

#[test]
fn new_atis_notice_in_upper_case() {
    let (letter, wind, pressure) = read_new_atis("ATIS B", "31016KT Q1022").unwrap();
    assert_eq!((letter, wind.as_str(), pressure.as_str()), ('B', "31016KT", "Q1022"));
    let (letter, wind, pressure) = read_new_atis("Z", "VRB02KT-A2992-MORE").unwrap();
    assert_eq!((letter, wind.as_str(), pressure.as_str()), ('Z', "VRB02KT", "A2992"));
    match read_new_atis("ATIS b", "31016KT Q1022") {
        Err(FsdMessageParseError::InvalidNewAtisMessage(t)) => {
            assert_eq!(t, "ATIS b:31016KT Q1022")
        },
        other => panic!("{:?}", other),
    }
    match read_new_atis("ATIS B", " 31016KT Q1022") {
        Err(FsdMessageParseError::InvalidNewAtisMessage(t)) => {
            assert_eq!(t, "ATIS B: 31016KT Q1022")
        },
        other => panic!("{:?}", other),
    }
    assert!(read_new_atis("ATIS B", "31016KT Q10").is_err());
    assert!(read_new_atis("ATIS B", "31016K Q1022").is_err());
    assert!(read_new_atis("", "31016KT Q1022").is_err());
}

#[test]
fn plane_info_entry_by_key() {
    let info = PlaneInfo::new(None, None, None)
        .with_entry("EQUIPMENT", "B738")
        .with_entry("LIVERY", "OLD")
        .with_entry("LIVERY", "NEW")
        .with_entry("equipment", "ignored")
        .with_entry("OTHER", "ignored");
    assert_eq!(info.equipment.as_deref(), Some("B738"));
    assert_eq!(info.airline, None);
    assert_eq!(info.livery.as_deref(), Some("NEW"));
}
