//! The client query: an envelope whose third field says what is asked, and
//! so how many fields follow and what they mean.

use vstd::prelude::*;
use vstd::slice::slice_subrange;
use vstd::string::*;
use crate::aircraft_config::{config_payload, unwrap_config, wrap_config, wrapped_config};
use crate::enums::VoiceCapability;
use crate::errors::{FsdMessageParseError, ParseFailure};
use crate::numbers::{
    is_padded_number, is_plain_number, number_text, numeral, padded, unsigned_value,
};
use crate::scratchpad::ScratchPad;
use crate::sim_time::{sim_time_read, SimTime};
use crate::structs::{
    bcd_of, lemma_bcd_round_trip, lemma_plain_number_is_no_flight_level, squawk_of_bcd_text,
    squawk_of_text, TransponderCode,
};
use crate::text::{
    begins_with, followed_by, is_upper, join, join_from, join_strings, optional_text, optional_view,
    owned, push_char, same_text, skip_prefix, split, texts, to_upper, uppercase, views,
    without_prefix,
};
use crate::util::{
    altitude_of, atis_accepted, atis_body, atis_head, atis_refused, contains_text, occurs_in,
    parse_altitude, parse_new_atis,
};

verus! {

/// What a client query asks, with what it asks it of.
#[derive(Debug, Clone)]
pub enum ClientQueryType {
    /// Is this callsign a valid controller? (`ATC`)
    IsValidATC { atc_callsign: String },
    /// What can the client do? (`CAPS`)
    Capabilities,
    /// Which frequency is tuned on COM 1? (`C?`)
    Com1Freq,
    /// What is the real name of the user? (`RN`)
    RealName,
    /// Which server is the client connected to? (`SV`)
    Server,
    /// What is the controller's ATIS? (`ATIS`)
    ATIS,
    /// What is the public address of the client? (`IP`)
    PublicIP,
    /// Who is the client? (`INF`)
    INF,
    /// What is the flight plan of this aircraft? (`FP`)
    FlightPlan { aircraft_callsign: String },
    /// Sets the beacon code of a pilot client from afar (`IPC:W:852`).
    ForceBeaconCode { code: TransponderCode },
    /// The controller asks to be relieved (`BY`).
    RequestRelief,
    /// The controller no longer asks to be relieved (`HI`).
    CancelRequestRelief,
    /// The controller asks for help (`HLP`).
    HelpRequest { message: Option<String> },
    /// The controller no longer asks for help (`NOHLP`).
    CancelHelpRequest { message: Option<String> },
    /// Who has this aircraft under control? (`WH`)
    WhoHas { aircraft_callsign: String },
    /// The controller starts to track this aircraft (`IT`).
    InitiateTrack { aircraft_callsign: String },
    /// The controller takes this aircraft over from another (`HT`).
    AcceptHandoff { aircraft_callsign: String, atc_callsign: String },
    /// The controller lets go of this aircraft (`DR`).
    DropTrack { aircraft_callsign: String },
    /// Sets the cleared cruise altitude of this aircraft (`FA`).
    SetFinalAltitude { aircraft_callsign: String, altitude: u32 },
    /// Sets the temporary altitude of this aircraft (`TA`).
    SetTempAltitude { aircraft_callsign: String, altitude: u32 },
    /// Assigns a beacon code to this aircraft (`BC`).
    SetBeaconCode { aircraft_callsign: String, code: TransponderCode },
    /// Sets the scratchpad of this aircraft (`SC`).
    SetScratchpad { aircraft_callsign: String, contents: ScratchPad },
    /// Sets how this aircraft communicates (`VT`).
    SetVoiceType { aircraft_callsign: String, voice_capability: VoiceCapability },
    /// Asks for the full configuration of an aircraft (`ACC`).
    AircraftConfigurationRequest,
    /// Carries the configuration of an aircraft, as the compact JSON of what
    /// stands under `config` (`ACC`).
    AircraftConfigurationResponse { aircraft_config: String },
    /// Tells the time of the simulator (`SIMTIME`).
    SimTime { time: SimTime },
    /// Tells that the ATIS has a new letter (`NEWINFO`).
    NewInfo { atis_letter: char },
    /// Tells the letter, wind and pressure of a new ATIS (`NEWATIS`).
    NewATIS { atis_letter: char, surface_wind: String, pressure: String },
}

/// The failure for a list of fewer than `minimum` fields, or `None`.
pub open spec fn too_few(f: Seq<Seq<char>>, minimum: nat) -> Option<ParseFailure> {
    if f.len() < minimum {
        Some(ParseFailure::InvalidFieldCount(minimum, f.len()))
    } else {
        None
    }
}

/// What is refused of a beacon-code command that does not write to the
/// beacon-code offset.
pub open spec fn refused_command(f: Seq<Seq<char>>) -> Seq<char> {
    "IPC:"@ + f[0] + ":"@ + f[1] + ":"@ + f[2]
}

/// The configuration document of an `ACC` query: its fields from the fourth
/// on, with the colons that parted them.
pub open spec fn config_document(f: Seq<Seq<char>>) -> Seq<char> {
    join(f.subrange(3, f.len() as int), ':')
}

/// The message of a call for help: the fourth field, where there is one and
/// it is not empty.
pub open spec fn help_text(f: Seq<Seq<char>>) -> Option<Seq<char>> {
    if f.len() > 3 && f[3].len() > 0 {
        Some(f[3])
    } else {
        None
    }
}

impl ClientQueryType {
    /// The query that a tag alone stands for, where it stands for one.
    pub open spec fn plain(tag: Seq<char>) -> Option<ClientQueryType> {
        if tag == "C?"@ {
            Some(ClientQueryType::Com1Freq)
        } else if tag == "IP"@ {
            Some(ClientQueryType::PublicIP)
        } else if tag == "ATIS"@ {
            Some(ClientQueryType::ATIS)
        } else if tag == "RN"@ {
            Some(ClientQueryType::RealName)
        } else if tag == "SV"@ {
            Some(ClientQueryType::Server)
        } else if tag == "BY"@ {
            Some(ClientQueryType::RequestRelief)
        } else if tag == "CAPS"@ {
            Some(ClientQueryType::Capabilities)
        } else if tag == "HI"@ {
            Some(ClientQueryType::CancelRequestRelief)
        } else if tag == "INF"@ {
            Some(ClientQueryType::INF)
        } else {
            None
        }
    }

    /// Whether a tag is followed by the callsign of one subject and nothing
    /// more.
    pub open spec fn has_one_subject(tag: Seq<char>) -> bool {
        tag == "ATC"@ || tag == "FP"@ || tag == "WH"@ || tag == "DR"@ || tag == "IT"@
    }

    /// Why the fields of a client-query line are refused, or `None` where
    /// they are accepted. `f` is the whole line; its third field is the tag.
    pub open spec fn rejection(f: Seq<Seq<char>>) -> Option<ParseFailure> {
        if f.len() < 3 {
            Some(ParseFailure::InvalidFieldCount(3, f.len()))
        } else if ClientQueryType::plain(f[2]) is Some {
            None
        } else if f[2] == "IPC"@ {
            if f.len() < 6 {
                Some(ParseFailure::InvalidFieldCount(6, f.len()))
            } else if f[3] != "W"@ || f[4] != "852"@ {
                Some(ParseFailure::UnknownMessageType(refused_command(f)))
            } else if squawk_of_bcd_text(f[5]) is None {
                Some(ParseFailure::InvalidTransponderCode(f[5]))
            } else {
                None
            }
        } else if f[2] == "ACC"@ {
            if f.len() < 4 {
                Some(ParseFailure::InvalidFieldCount(4, f.len()))
            } else if occurs_in("request"@, f[3]) {
                None
            } else if config_payload(config_document(f)) is None {
                Some(ParseFailure::InvalidAircraftConfig(config_document(f)))
            } else {
                None
            }
        } else if f[2] == "HLP"@ || f[2] == "NOHLP"@ {
            None
        } else if f[2] == "SC"@ || f[2] == "HT"@ {
            too_few(f, 5)
        } else if f[2] == "FA"@ || f[2] == "TA"@ {
            if f.len() < 5 {
                Some(ParseFailure::InvalidFieldCount(5, f.len()))
            } else if altitude_of(f[4]) is None {
                Some(ParseFailure::InvalidAltitude(f[4]))
            } else {
                None
            }
        } else if f[2] == "BC"@ {
            if f.len() < 5 {
                Some(ParseFailure::InvalidFieldCount(5, f.len()))
            } else if squawk_of_text(f[4]) is None {
                Some(ParseFailure::InvalidTransponderCode(f[4]))
            } else {
                None
            }
        } else if ClientQueryType::has_one_subject(f[2]) {
            too_few(f, 4)
        } else if f[2] == "NEWATIS"@ {
            if f.len() < 5 {
                Some(ParseFailure::InvalidFieldCount(5, f.len()))
            } else if !atis_accepted(atis_head(f[3]), atis_body(f[4])) {
                Some(
                    ParseFailure::InvalidNewAtisMessage(
                        atis_refused(atis_head(f[3]), atis_body(f[4])),
                    ),
                )
            } else {
                None
            }
        } else if f[2] == "VT"@ {
            if f.len() < 5 {
                Some(ParseFailure::InvalidFieldCount(5, f.len()))
            } else if VoiceCapability::of_text(f[4]) is None {
                Some(ParseFailure::InvalidVoiceCapability(f[4]))
            } else {
                None
            }
        } else if f[2] == "SIMTIME"@ {
            if f.len() < 4 {
                Some(ParseFailure::InvalidFieldCount(4, f.len()))
            } else if sim_time_read(f[3]) is None {
                Some(ParseFailure::InvalidTime(f[3]))
            } else {
                None
            }
        } else {
            Some(ParseFailure::UnknownMessageType(f[2]))
        }
    }

    /// The least number of fields that a client-query line with the tag
    /// `tag` must have.
    pub open spec fn fields_asked(tag: Seq<char>) -> nat {
        if ClientQueryType::plain(tag) is Some {
            3
        } else if tag == "IPC"@ {
            6
        } else if tag == "ACC"@ {
            4
        } else if tag == "HLP"@ || tag == "NOHLP"@ {
            3
        } else if tag == "SC"@ || tag == "HT"@ || tag == "FA"@ || tag == "TA"@ || tag == "BC"@ {
            5
        } else if ClientQueryType::has_one_subject(tag) {
            4
        } else if tag == "NEWATIS"@ || tag == "VT"@ {
            5
        } else if tag == "SIMTIME"@ {
            4
        } else {
            3
        }
    }

    /// A client-query line with fewer fields than its tag asks for is
    /// refused with the number asked for and the number found.
    pub proof fn law_field_count(f: Seq<Seq<char>>)
        requires
            f.len() < 3 || f.len() < ClientQueryType::fields_asked(f[2]),
        ensures
            ClientQueryType::rejection(f) == Some(
                ParseFailure::InvalidFieldCount(
                    if f.len() < 3 {
                        3
                    } else {
                        ClientQueryType::fields_asked(f[2])
                    },
                    f.len(),
                ),
            ),
    {
    }

    /// Whether the accepted fields of a client-query line are read as the
    /// query `q`.
    pub open spec fn decodes(f: Seq<Seq<char>>, q: ClientQueryType) -> bool {
        if f.len() < 3 {
            false
        } else if ClientQueryType::plain(f[2]) is Some {
            q == ClientQueryType::plain(f[2])->0
        } else if f[2] == "IPC"@ {
            q matches ClientQueryType::ForceBeaconCode { code } && f.len() >= 6
                && squawk_of_bcd_text(f[5]) == Some(code.value())
        } else if f[2] == "ACC"@ {
            if f.len() >= 4 && occurs_in("request"@, f[3]) {
                q == ClientQueryType::AircraftConfigurationRequest
            } else {
                q matches ClientQueryType::AircraftConfigurationResponse { aircraft_config }
                    && config_payload(config_document(f)) == Some(aircraft_config@)
            }
        } else if f[2] == "HLP"@ {
            q matches ClientQueryType::HelpRequest { message } && optional_text(message)
                == help_text(f)
        } else if f[2] == "NOHLP"@ {
            q matches ClientQueryType::CancelHelpRequest { message } && optional_text(message)
                == help_text(f)
        } else if f[2] == "SC"@ {
            q matches ClientQueryType::SetScratchpad { aircraft_callsign, contents } && f.len()
                >= 5 && aircraft_callsign@ == uppercase(f[3]) && ScratchPad::reads_as(
                f[4],
                contents,
            )
        } else if f[2] == "HT"@ {
            q matches ClientQueryType::AcceptHandoff { aircraft_callsign, atc_callsign }
                && f.len() >= 5 && aircraft_callsign@ == uppercase(f[3]) && atc_callsign@
                == uppercase(f[4])
        } else if f[2] == "FA"@ {
            q matches ClientQueryType::SetFinalAltitude { aircraft_callsign, altitude }
                && f.len() >= 5 && aircraft_callsign@ == uppercase(f[3]) && altitude_of(f[4])
                == Some(altitude as nat)
        } else if f[2] == "TA"@ {
            q matches ClientQueryType::SetTempAltitude { aircraft_callsign, altitude } && f.len()
                >= 5 && aircraft_callsign@ == uppercase(f[3]) && altitude_of(f[4]) == Some(
                altitude as nat,
            )
        } else if f[2] == "BC"@ {
            q matches ClientQueryType::SetBeaconCode { aircraft_callsign, code } && f.len() >= 5
                && aircraft_callsign@ == uppercase(f[3]) && squawk_of_text(f[4]) == Some(
                code.value(),
            )
        } else if f[2] == "ATC"@ {
            q matches ClientQueryType::IsValidATC { atc_callsign } && f.len() >= 4
                && atc_callsign@ == uppercase(f[3])
        } else if f[2] == "FP"@ {
            q matches ClientQueryType::FlightPlan { aircraft_callsign } && f.len() >= 4
                && aircraft_callsign@ == uppercase(f[3])
        } else if f[2] == "WH"@ {
            q matches ClientQueryType::WhoHas { aircraft_callsign } && f.len() >= 4
                && aircraft_callsign@ == uppercase(f[3])
        } else if f[2] == "DR"@ {
            q matches ClientQueryType::DropTrack { aircraft_callsign } && f.len() >= 4
                && aircraft_callsign@ == uppercase(f[3])
        } else if f[2] == "IT"@ {
            q matches ClientQueryType::InitiateTrack { aircraft_callsign } && f.len() >= 4
                && aircraft_callsign@ == uppercase(f[3])
        } else if f[2] == "NEWATIS"@ {
            q matches ClientQueryType::NewATIS { atis_letter, surface_wind, pressure } && f.len()
                >= 5 && {
                let groups = split(atis_body(f[4]), ' ', '-');
                &&& atis_accepted(atis_head(f[3]), atis_body(f[4]))
                &&& atis_letter == atis_head(f[3]).last()
                &&& surface_wind@ == groups[0]
                &&& pressure@ == groups[1]
            }
        } else if f[2] == "VT"@ {
            q matches ClientQueryType::SetVoiceType { aircraft_callsign, voice_capability }
                && f.len() >= 5 && aircraft_callsign@ == uppercase(f[3])
                && VoiceCapability::of_text(f[4]) == Some(voice_capability)
        } else if f[2] == "SIMTIME"@ {
            q matches ClientQueryType::SimTime { time } && f.len() >= 4 && sim_time_read(f[3])
                == Some(time.parts())
        } else {
            false
        }
    }

    /// The fields that are written for the query: its tag, then what it asks
    /// it of.
    pub open spec fn fields(&self) -> Seq<Seq<char>> {
        match *self {
            ClientQueryType::IsValidATC { atc_callsign } => seq!["ATC"@, atc_callsign@],
            ClientQueryType::Capabilities => seq!["CAPS"@],
            ClientQueryType::Com1Freq => seq!["C?"@],
            ClientQueryType::RealName => seq!["RN"@],
            ClientQueryType::Server => seq!["SV"@],
            ClientQueryType::ATIS => seq!["ATIS"@],
            ClientQueryType::PublicIP => seq!["IP"@],
            ClientQueryType::INF => seq!["INF"@],
            ClientQueryType::FlightPlan { aircraft_callsign } => seq!["FP"@, aircraft_callsign@],
            ClientQueryType::ForceBeaconCode { code } => seq![
                "IPC"@,
                "W"@,
                "852"@,
                numeral(bcd_of(code.value()), false),
            ],
            ClientQueryType::RequestRelief => seq!["BY"@],
            ClientQueryType::CancelRequestRelief => seq!["HI"@],
            ClientQueryType::HelpRequest { message } => match message {
                Some(text) => seq!["HLP"@, text@],
                None => seq!["HLP"@],
            },
            ClientQueryType::CancelHelpRequest { message } => match message {
                Some(text) => seq!["NOHLP"@, text@],
                None => seq!["NOHLP"@],
            },
            ClientQueryType::WhoHas { aircraft_callsign } => seq!["WH"@, aircraft_callsign@],
            ClientQueryType::InitiateTrack { aircraft_callsign } => seq![
                "IT"@,
                aircraft_callsign@,
            ],
            ClientQueryType::AcceptHandoff { aircraft_callsign, atc_callsign } => seq![
                "HT"@,
                aircraft_callsign@,
                atc_callsign@,
            ],
            ClientQueryType::DropTrack { aircraft_callsign } => seq!["DR"@, aircraft_callsign@],
            ClientQueryType::SetFinalAltitude { aircraft_callsign, altitude } => seq![
                "FA"@,
                aircraft_callsign@,
                numeral(altitude as nat, false),
            ],
            ClientQueryType::SetTempAltitude { aircraft_callsign, altitude } => seq![
                "TA"@,
                aircraft_callsign@,
                numeral(altitude as nat, false),
            ],
            ClientQueryType::SetBeaconCode { aircraft_callsign, code } => seq![
                "BC"@,
                aircraft_callsign@,
                padded(code.value(), false, 4),
            ],
            ClientQueryType::SetScratchpad { aircraft_callsign, contents } => seq![
                "SC"@,
                aircraft_callsign@,
                contents.wire(),
            ],
            ClientQueryType::SetVoiceType { aircraft_callsign, voice_capability } => seq![
                "VT"@,
                aircraft_callsign@,
                voice_capability.text(),
            ],
            ClientQueryType::AircraftConfigurationRequest => seq![
                "ACC"@,
                "{\"request\":\"full\"}"@,
            ],
            ClientQueryType::AircraftConfigurationResponse { aircraft_config } => seq![
                "ACC"@,
                wrapped_config(aircraft_config@),
            ],
            ClientQueryType::SimTime { time } => seq!["SIMTIME"@, time.wire()],
            ClientQueryType::NewInfo { atis_letter } => seq!["NEWINFO"@, seq![atis_letter]],
            ClientQueryType::NewATIS { atis_letter, surface_wind, pressure } => seq![
                "NEWATIS"@,
                "ATIS "@.push(atis_letter),
                "  "@ + surface_wind@ + " - "@ + pressure@,
            ],
        }
    }

    /// The text that is written for the query.
    pub open spec fn wire(&self) -> Seq<char> {
        join(self.fields(), ':')
    }

    /// Reads the query that a tag alone stands for.
    fn read_plain(tag: &str) -> (r: Option<ClientQueryType>)
        ensures
            r == ClientQueryType::plain(tag@),
    {
        if same_text(tag, "C?") {
            Some(ClientQueryType::Com1Freq)
        } else if same_text(tag, "IP") {
            Some(ClientQueryType::PublicIP)
        } else if same_text(tag, "ATIS") {
            Some(ClientQueryType::ATIS)
        } else if same_text(tag, "RN") {
            Some(ClientQueryType::RealName)
        } else if same_text(tag, "SV") {
            Some(ClientQueryType::Server)
        } else if same_text(tag, "BY") {
            Some(ClientQueryType::RequestRelief)
        } else if same_text(tag, "CAPS") {
            Some(ClientQueryType::Capabilities)
        } else if same_text(tag, "HI") {
            Some(ClientQueryType::CancelRequestRelief)
        } else if same_text(tag, "INF") {
            Some(ClientQueryType::INF)
        } else {
            None
        }
    }

    /// Reads a query that is followed by one subject.
    fn read_one_subject(tag: &str, subject: &str) -> (r: Option<ClientQueryType>)
        ensures
            r is Some <==> ClientQueryType::has_one_subject(tag@),
            r is Some ==> {
                let q = r->0;
                if tag@ == "ATC"@ {
                    q matches ClientQueryType::IsValidATC { atc_callsign } && atc_callsign@
                        == uppercase(subject@)
                } else if tag@ == "FP"@ {
                    q matches ClientQueryType::FlightPlan { aircraft_callsign }
                        && aircraft_callsign@ == uppercase(subject@)
                } else if tag@ == "WH"@ {
                    q matches ClientQueryType::WhoHas { aircraft_callsign } && aircraft_callsign@
                        == uppercase(subject@)
                } else if tag@ == "DR"@ {
                    q matches ClientQueryType::DropTrack { aircraft_callsign }
                        && aircraft_callsign@ == uppercase(subject@)
                } else {
                    q matches ClientQueryType::InitiateTrack { aircraft_callsign }
                        && aircraft_callsign@ == uppercase(subject@)
                }
            },
    {
        if same_text(tag, "ATC") {
            Some(ClientQueryType::IsValidATC { atc_callsign: to_upper(subject) })
        } else if same_text(tag, "FP") {
            Some(ClientQueryType::FlightPlan { aircraft_callsign: to_upper(subject) })
        } else if same_text(tag, "WH") {
            Some(ClientQueryType::WhoHas { aircraft_callsign: to_upper(subject) })
        } else if same_text(tag, "DR") {
            Some(ClientQueryType::DropTrack { aircraft_callsign: to_upper(subject) })
        } else if same_text(tag, "IT") {
            Some(ClientQueryType::InitiateTrack { aircraft_callsign: to_upper(subject) })
        } else {
            None
        }
    }

    /// The message of a call for help.
    fn read_help_text(fields: &[&str]) -> (r: Option<String>)
        ensures
            optional_text(r) == help_text(texts(fields@)),
    {
        if fields.len() > 3 && !fields[3].is_empty() {
            Some(fields[3].to_owned())
        } else {
            None
        }
    }

    /// Reads the query of a client-query line from the fields of the line.
    #[verifier::rlimit(40)]
    pub fn try_from(fields: &[&str]) -> (r: Result<ClientQueryType, FsdMessageParseError>)
        ensures
            match r {
                Ok(q) => ClientQueryType::rejection(texts(fields@)) is None
                    && ClientQueryType::decodes(texts(fields@), q),
                Err(e) => ClientQueryType::rejection(texts(fields@)) == Some(e@),
            },
    {
        let ghost f = texts(fields@);
        if fields.len() < 3 {
            return Err(FsdMessageParseError::InvalidFieldCount(3, fields.len()));
        }
        assert(forall|i: int| 0 <= i < fields.len() ==> f[i] == (#[trigger] fields@[i])@);
        let tag = fields[2];
        match ClientQueryType::read_plain(tag) {
            Some(q) => {
                return Ok(q);
            },
            None => {},
        }
        if same_text(tag, "IPC") {
            if fields.len() < 6 {
                return Err(FsdMessageParseError::InvalidFieldCount(6, fields.len()));
            }
            if !same_text(fields[3], "W") || !same_text(fields[4], "852") {
                let mut refused = followed_by("IPC:", fields[0]);
                refused.append(":");
                refused.append(fields[1]);
                refused.append(":");
                refused.append(fields[2]);
                return Err(FsdMessageParseError::UnknownMessageType(refused));
            }
            return match TransponderCode::try_from_bcd_format(fields[5]) {
                Ok(code) => Ok(ClientQueryType::ForceBeaconCode { code }),
                Err(e) => Err(e),
            };
        }
        if same_text(tag, "ACC") {
            if fields.len() < 4 {
                return Err(FsdMessageParseError::InvalidFieldCount(4, fields.len()));
            }
            if contains_text(fields[3], "request") {
                return Ok(ClientQueryType::AircraftConfigurationRequest);
            }
            let document = join_from(fields, 3, ':');
            return match unwrap_config(document.as_str()) {
                Some(aircraft_config) => Ok(
                    ClientQueryType::AircraftConfigurationResponse { aircraft_config },
                ),
                None => Err(FsdMessageParseError::InvalidAircraftConfig(document)),
            };
        }
        if same_text(tag, "HLP") {
            return Ok(
                ClientQueryType::HelpRequest { message: ClientQueryType::read_help_text(fields) },
            );
        }
        if same_text(tag, "NOHLP") {
            return Ok(
                ClientQueryType::CancelHelpRequest {
                    message: ClientQueryType::read_help_text(fields),
                },
            );
        }
        if same_text(tag, "SC") {
            if fields.len() < 5 {
                return Err(FsdMessageParseError::InvalidFieldCount(5, fields.len()));
            }
            return match ScratchPad::from_str(fields[4]) {
                Ok(contents) => Ok(
                    ClientQueryType::SetScratchpad {
                        aircraft_callsign: to_upper(fields[3]),
                        contents,
                    },
                ),
                Err(e) => Err(e),
            };
        }
        if same_text(tag, "HT") {
            if fields.len() < 5 {
                return Err(FsdMessageParseError::InvalidFieldCount(5, fields.len()));
            }
            return Ok(
                ClientQueryType::AcceptHandoff {
                    aircraft_callsign: to_upper(fields[3]),
                    atc_callsign: to_upper(fields[4]),
                },
            );
        }
        if same_text(tag, "FA") {
            if fields.len() < 5 {
                return Err(FsdMessageParseError::InvalidFieldCount(5, fields.len()));
            }
            return match parse_altitude(fields[4]) {
                Ok(altitude) => Ok(
                    ClientQueryType::SetFinalAltitude {
                        aircraft_callsign: to_upper(fields[3]),
                        altitude,
                    },
                ),
                Err(e) => Err(e),
            };
        }
        if same_text(tag, "TA") {
            if fields.len() < 5 {
                return Err(FsdMessageParseError::InvalidFieldCount(5, fields.len()));
            }
            return match parse_altitude(fields[4]) {
                Ok(altitude) => Ok(
                    ClientQueryType::SetTempAltitude {
                        aircraft_callsign: to_upper(fields[3]),
                        altitude,
                    },
                ),
                Err(e) => Err(e),
            };
        }
        if same_text(tag, "BC") {
            if fields.len() < 5 {
                return Err(FsdMessageParseError::InvalidFieldCount(5, fields.len()));
            }
            return match TransponderCode::from_str(fields[4]) {
                Ok(code) => Ok(
                    ClientQueryType::SetBeaconCode { aircraft_callsign: to_upper(fields[3]), code },
                ),
                Err(e) => Err(e),
            };
        }
        let subject = if fields.len() >= 4 {
            fields[3]
        } else {
            ""
        };
        match ClientQueryType::read_one_subject(tag, subject) {
            Some(q) => {
                if fields.len() < 4 {
                    return Err(FsdMessageParseError::InvalidFieldCount(4, fields.len()));
                }
                return Ok(q);
            },
            None => {},
        }
        if same_text(tag, "NEWATIS") {
            if fields.len() < 5 {
                return Err(FsdMessageParseError::InvalidFieldCount(5, fields.len()));
            }
            let notice = slice_subrange(fields, 3, 5);
            assert(texts(notice@)[0] == f[3] && texts(notice@)[1] == f[4]);
            return match parse_new_atis(notice) {
                Ok((atis_letter, surface_wind, pressure)) => Ok(
                    ClientQueryType::NewATIS { atis_letter, surface_wind, pressure },
                ),
                Err(e) => Err(e),
            };
        }
        if same_text(tag, "VT") {
            if fields.len() < 5 {
                return Err(FsdMessageParseError::InvalidFieldCount(5, fields.len()));
            }
            return match VoiceCapability::from_str(fields[4]) {
                Ok(voice_capability) => Ok(
                    ClientQueryType::SetVoiceType {
                        aircraft_callsign: to_upper(fields[3]),
                        voice_capability,
                    },
                ),
                Err(e) => Err(e),
            };
        }
        if same_text(tag, "SIMTIME") {
            if fields.len() < 4 {
                return Err(FsdMessageParseError::InvalidFieldCount(4, fields.len()));
            }
            return match SimTime::from_str(fields[3]) {
                Some(time) => Ok(ClientQueryType::SimTime { time }),
                None => Err(FsdMessageParseError::InvalidTime(fields[3].to_owned())),
            };
        }
        Err(FsdMessageParseError::UnknownMessageType(tag.to_owned()))
    }

    /// Whether the fields of a client-query line are written as the query
    /// writes them: callsigns in upper case, numbers without sign or
    /// needless zeros, a beacon code in four digits, and no field more than
    /// is written. No line with an aircraft configuration, a new ATIS or the
    /// time of the simulator is taken to be in this form.
    pub open spec fn canonical(f: Seq<Seq<char>>) -> bool {
        if f.len() < 3 {
            false
        } else if ClientQueryType::plain(f[2]) is Some {
            f.len() == 3
        } else if f[2] == "IPC"@ {
            f.len() == 6 && f[3] == "W"@ && f[4] == "852"@ && is_plain_number(f[5], false, 0xffff)
        } else if f[2] == "ACC"@ {
            f.len() == 4 && f[3] == "{\"request\":\"full\"}"@
        } else if f[2] == "HLP"@ || f[2] == "NOHLP"@ {
            f.len() == 3 || (f.len() == 4 && f[3].len() > 0)
        } else if f[2] == "SC"@ {
            f.len() == 5 && is_upper(f[3]) && ScratchPad::canonical(f[4])
        } else if f[2] == "HT"@ {
            f.len() == 5 && is_upper(f[3]) && is_upper(f[4])
        } else if f[2] == "FA"@ || f[2] == "TA"@ {
            f.len() == 5 && is_upper(f[3]) && is_plain_number(f[4], false, 0xffff_ffff)
        } else if f[2] == "BC"@ {
            f.len() == 5 && is_upper(f[3]) && is_padded_number(f[4], false, 4, 0xffff)
        } else if ClientQueryType::has_one_subject(f[2]) {
            f.len() == 4 && is_upper(f[3])
        } else if f[2] == "NEWATIS"@ {
            false
        } else if f[2] == "VT"@ {
            f.len() == 5 && is_upper(f[3]) && (VoiceCapability::of_text(f[4]) is Some
                ==> VoiceCapability::of_text(f[4])->0.text() == f[4])
        } else {
            false
        }
    }

    /// Fields in the form in which the query is written are read as a query
    /// that is written as those very fields.
    #[verifier::rlimit(60)]
    pub proof fn law_round_trip(f: Seq<Seq<char>>, q: ClientQueryType)
        requires
            ClientQueryType::canonical(f),
            ClientQueryType::decodes(f, q),
        ensures
            q.fields() == f.subrange(2, f.len() as int),
    {
        let written = f.subrange(2, f.len() as int);
        let tag = f[2];
        if ClientQueryType::plain(tag) is Some {
            assert(f.len() == 3);
            assert(q == ClientQueryType::plain(tag)->0);
            assert(q.fields() =~= seq![tag]);
        } else if tag == "IPC"@ {
            let b = unsigned_value(f[5], false, 0xffff)->0;
            lemma_bcd_round_trip(b);
            assert(q.fields() =~= written);
        } else if tag == "ACC"@ {
            reveal_strlit("request");
            reveal_strlit("{\"request\":\"full\"}");
            assert(f[3].subrange(2int, 2int + "request"@.len()) =~= "request"@);
            assert(q == ClientQueryType::AircraftConfigurationRequest);
            assert(q.fields() =~= written);
        } else if tag == "HLP"@ {
            assert(q.fields() =~= written);
        } else if tag == "NOHLP"@ {
            assert(q.fields() =~= written);
        } else if tag == "SC"@ {
            match q {
                ClientQueryType::SetScratchpad { aircraft_callsign, contents } => {
                    ScratchPad::law_round_trip(f[4], contents);
                },
                _ => {},
            }
            assert(q.fields() =~= written);
        } else if tag == "HT"@ {
            assert(q.fields() =~= written);
        } else if tag == "FA"@ {
            lemma_plain_number_is_no_flight_level(f[4], 0xffff_ffff);
            assert(q.fields() =~= written);
        } else if tag == "TA"@ {
            lemma_plain_number_is_no_flight_level(f[4], 0xffff_ffff);
            assert(q.fields() =~= written);
        } else if tag == "BC"@ {
            assert(q.fields() =~= written);
        } else if tag == "ATC"@ {
            assert(q.fields() =~= written);
        } else if tag == "FP"@ {
            assert(q.fields() =~= written);
        } else if tag == "WH"@ {
            assert(q.fields() =~= written);
        } else if tag == "DR"@ {
            assert(q.fields() =~= written);
        } else if tag == "IT"@ {
            assert(q.fields() =~= written);
        } else if tag == "NEWATIS"@ {
        } else if tag == "VT"@ {
            assert(q.fields() =~= written);
        }
    }

    /// The fields that are written for the query, as strings.
    pub fn parts(&self) -> (r: Vec<String>)
        ensures
            views(r@) == self.fields(),
    {
        let mut parts: Vec<String> = Vec::new();
        match self {
            ClientQueryType::IsValidATC { atc_callsign } => {
                parts.push("ATC".to_owned());
                parts.push(atc_callsign.clone());
            },
            ClientQueryType::Capabilities => {
                parts.push("CAPS".to_owned());
            },
            ClientQueryType::Com1Freq => {
                parts.push("C?".to_owned());
            },
            ClientQueryType::RealName => {
                parts.push("RN".to_owned());
            },
            ClientQueryType::Server => {
                parts.push("SV".to_owned());
            },
            ClientQueryType::ATIS => {
                parts.push("ATIS".to_owned());
            },
            ClientQueryType::PublicIP => {
                parts.push("IP".to_owned());
            },
            ClientQueryType::INF => {
                parts.push("INF".to_owned());
            },
            ClientQueryType::FlightPlan { aircraft_callsign } => {
                parts.push("FP".to_owned());
                parts.push(aircraft_callsign.clone());
            },
            ClientQueryType::ForceBeaconCode { code } => {
                parts.push("IPC".to_owned());
                parts.push("W".to_owned());
                parts.push("852".to_owned());
                parts.push(number_text(code.as_bcd_format() as u64));
            },
            ClientQueryType::RequestRelief => {
                parts.push("BY".to_owned());
            },
            ClientQueryType::CancelRequestRelief => {
                parts.push("HI".to_owned());
            },
            ClientQueryType::HelpRequest { message } => {
                parts.push("HLP".to_owned());
                match message {
                    Some(text) => {
                        parts.push(text.clone());
                    },
                    None => {},
                }
            },
            ClientQueryType::CancelHelpRequest { message } => {
                parts.push("NOHLP".to_owned());
                match message {
                    Some(text) => {
                        parts.push(text.clone());
                    },
                    None => {},
                }
            },
            ClientQueryType::WhoHas { aircraft_callsign } => {
                parts.push("WH".to_owned());
                parts.push(aircraft_callsign.clone());
            },
            ClientQueryType::InitiateTrack { aircraft_callsign } => {
                parts.push("IT".to_owned());
                parts.push(aircraft_callsign.clone());
            },
            ClientQueryType::AcceptHandoff { aircraft_callsign, atc_callsign } => {
                parts.push("HT".to_owned());
                parts.push(aircraft_callsign.clone());
                parts.push(atc_callsign.clone());
            },
            ClientQueryType::DropTrack { aircraft_callsign } => {
                parts.push("DR".to_owned());
                parts.push(aircraft_callsign.clone());
            },
            ClientQueryType::SetFinalAltitude { aircraft_callsign, altitude } => {
                parts.push("FA".to_owned());
                parts.push(aircraft_callsign.clone());
                parts.push(number_text(*altitude as u64));
            },
            ClientQueryType::SetTempAltitude { aircraft_callsign, altitude } => {
                parts.push("TA".to_owned());
                parts.push(aircraft_callsign.clone());
                parts.push(number_text(*altitude as u64));
            },
            ClientQueryType::SetBeaconCode { aircraft_callsign, code } => {
                parts.push("BC".to_owned());
                parts.push(aircraft_callsign.clone());
                parts.push(code.to_string());
            },
            ClientQueryType::SetScratchpad { aircraft_callsign, contents } => {
                parts.push("SC".to_owned());
                parts.push(aircraft_callsign.clone());
                parts.push(contents.to_string());
            },
            ClientQueryType::SetVoiceType { aircraft_callsign, voice_capability } => {
                parts.push("VT".to_owned());
                parts.push(aircraft_callsign.clone());
                parts.push(voice_capability.to_string());
            },
            ClientQueryType::AircraftConfigurationRequest => {
                parts.push("ACC".to_owned());
                parts.push("{\"request\":\"full\"}".to_owned());
            },
            ClientQueryType::AircraftConfigurationResponse { aircraft_config } => {
                parts.push("ACC".to_owned());
                parts.push(wrap_config(aircraft_config.as_str()));
            },
            ClientQueryType::SimTime { time } => {
                parts.push("SIMTIME".to_owned());
                parts.push(time.to_string());
            },
            ClientQueryType::NewInfo { atis_letter } => {
                parts.push("NEWINFO".to_owned());
                let mut letter = String::new();
                push_char(&mut letter, *atis_letter);
                assert(letter@ =~= seq![*atis_letter]);
                parts.push(letter);
            },
            ClientQueryType::NewATIS { atis_letter, surface_wind, pressure } => {
                parts.push("NEWATIS".to_owned());
                let mut head = "ATIS ".to_owned();
                push_char(&mut head, *atis_letter);
                parts.push(head);
                let mut body = followed_by("  ", surface_wind.as_str());
                body.append(" - ");
                body.append(pressure.as_str());
                parts.push(body);
            },
        }
        assert(views(parts@) =~= self.fields());
        parts
    }

    /// The text that is written for the query.
    pub fn to_string(&self) -> (r: String)
        ensures
            r@ == self.wire(),
    {
        let parts = self.parts();
        assert(views(parts@).subrange(0, parts.len() as int) =~= views(parts@));
        join_strings(&parts, 0, ':')
    }
}

/// Asks something of another client, or tells it something, through the
/// server.
#[non_exhaustive]
#[derive(Debug, Clone)]
pub struct ClientQueryMessage {
    pub from: String,
    pub to: String,
    pub query_type: ClientQueryType,
}

impl ClientQueryMessage {
    /// The fields that are written for the message, in order.
    pub open spec fn fields(&self) -> Seq<Seq<char>> {
        seq!["$CQ"@ + self.from@, self.to@] + self.query_type.fields()
    }

    /// The line that is written for the message.
    pub open spec fn wire(&self) -> Seq<char> {
        join(self.fields(), ':')
    }

    /// Why a list of fields is refused, or `None` where it is accepted.
    pub open spec fn rejection(f: Seq<Seq<char>>) -> Option<ParseFailure> {
        ClientQueryType::rejection(f)
    }

    /// Whether an accepted list of fields is read as the message `m`.
    pub open spec fn decodes(f: Seq<Seq<char>>, m: ClientQueryMessage) -> bool {
        &&& f.len() >= 3
        &&& m.from@ == uppercase(without_prefix(f[0], 3))
        &&& m.to@ == uppercase(f[1])
        &&& ClientQueryType::decodes(f, m.query_type)
    }

    /// Whether a list of fields is written as the message writes it: the
    /// marker in front, callsigns in upper case, and the query as it is
    /// written.
    pub open spec fn canonical(f: Seq<Seq<char>>) -> bool {
        &&& f.len() >= 3
        &&& begins_with(f[0], "$CQ"@)
        &&& is_upper(without_prefix(f[0], 3))
        &&& is_upper(f[1])
        &&& ClientQueryType::canonical(f)
    }

    /// A line in the form in which the message is written is read as a
    /// message that is written as that very line.
    pub proof fn law_round_trip(f: Seq<Seq<char>>, m: ClientQueryMessage)
        requires
            ClientQueryMessage::canonical(f),
            ClientQueryMessage::decodes(f, m),
        ensures
            m.fields() == f,
            m.wire() == join(f, ':'),
    {
        reveal_strlit("$CQ");
        assert("$CQ"@ + without_prefix(f[0], 3) =~= f[0]);
        ClientQueryType::law_round_trip(f, m.query_type);
        assert(m.fields() =~= f);
    }

    /// Whether `m` is the query `q` from `from` to `to`, the two callsigns
    /// in upper case.
    pub open spec fn carries(
        m: ClientQueryMessage,
        from: Seq<char>,
        to: Seq<char>,
        q: ClientQueryType,
    ) -> bool {
        m.from@ == uppercase(from) && m.to@ == uppercase(to) && m.query_type == q
    }

    /// The message that carries the query, its callsigns put in upper case.
    fn new(from: &str, to: &str, query_type: ClientQueryType) -> (m: ClientQueryMessage)
        ensures
            ClientQueryMessage::carries(m, from@, to@, query_type),
    {
        ClientQueryMessage { from: to_upper(from), to: to_upper(to), query_type }
    }

    /// Reads the message from the fields of its line.
    pub fn try_from(fields: &[&str]) -> (r: Result<ClientQueryMessage, FsdMessageParseError>)
        ensures
            match r {
                Ok(m) => ClientQueryMessage::rejection(texts(fields@)) is None
                    && ClientQueryMessage::decodes(texts(fields@), m),
                Err(e) => ClientQueryMessage::rejection(texts(fields@)) == Some(e@),
            },
    {
        match ClientQueryType::try_from(fields) {
            Ok(query_type) => {
                assert(texts(fields@)[0] == fields@[0]@);
                assert(texts(fields@)[1] == fields@[1]@);
                let first = skip_prefix(fields[0], 3);
                Ok(ClientQueryMessage::new(first.as_str(), fields[1], query_type))
            },
            Err(e) => Err(e),
        }
    }

    /// The line that is written for the message.
    pub fn to_string(&self) -> (r: String)
        ensures
            r@ == self.wire(),
    {
        let mut parts: Vec<String> = Vec::new();
        parts.push(followed_by("$CQ", self.from.as_str()));
        parts.push(self.to.clone());
        let mut rest = self.query_type.parts();
        let ghost head = views(parts@);
        let ghost tail = views(rest@);
        parts.append(&mut rest);
        proof {
            assert(views(parts@) =~= head + tail);
            assert(views(parts@) =~= self.fields());
            assert(views(parts@).subrange(0, parts.len() as int) =~= views(parts@));
        }
        join_strings(&parts, 0, ':')
    }

    /// Asks which frequency is tuned on COM 1.
    pub fn com_1_freq(from: &str, to: &str) -> (m: ClientQueryMessage)
        ensures
            ClientQueryMessage::carries(m, from@, to@, ClientQueryType::Com1Freq),
    {
        ClientQueryMessage::new(from, to, ClientQueryType::Com1Freq)
    }

    /// Asks for the public address of the client.
    pub fn public_ip(from: &str, to: &str) -> (m: ClientQueryMessage)
        ensures
            ClientQueryMessage::carries(m, from@, to@, ClientQueryType::PublicIP),
    {
        ClientQueryMessage::new(from, to, ClientQueryType::PublicIP)
    }

    /// Asks for the ATIS of a controller.
    pub fn atis(from: &str, to: &str) -> (m: ClientQueryMessage)
        ensures
            ClientQueryMessage::carries(m, from@, to@, ClientQueryType::ATIS),
    {
        ClientQueryMessage::new(from, to, ClientQueryType::ATIS)
    }

    /// Asks for the real name of the user.
    pub fn real_name(from: &str, to: &str) -> (m: ClientQueryMessage)
        ensures
            ClientQueryMessage::carries(m, from@, to@, ClientQueryType::RealName),
    {
        ClientQueryMessage::new(from, to, ClientQueryType::RealName)
    }

    /// Asks which server the client is connected to.
    pub fn server(from: &str, to: &str) -> (m: ClientQueryMessage)
        ensures
            ClientQueryMessage::carries(m, from@, to@, ClientQueryType::Server),
    {
        ClientQueryMessage::new(from, to, ClientQueryType::Server)
    }

    /// Asks what the client can do.
    pub fn capabilities(from: &str, to: &str) -> (m: ClientQueryMessage)
        ensures
            ClientQueryMessage::carries(m, from@, to@, ClientQueryType::Capabilities),
    {
        ClientQueryMessage::new(from, to, ClientQueryType::Capabilities)
    }

    /// Asks who the client is.
    pub fn client_information(from: &str, to: &str) -> (m: ClientQueryMessage)
        ensures
            ClientQueryMessage::carries(m, from@, to@, ClientQueryType::INF),
    {
        ClientQueryMessage::new(from, to, ClientQueryType::INF)
    }

    /// Asks to be relieved.
    pub fn request_relief(from: &str, to: &str) -> (m: ClientQueryMessage)
        ensures
            ClientQueryMessage::carries(m, from@, to@, ClientQueryType::RequestRelief),
    {
        ClientQueryMessage::new(from, to, ClientQueryType::RequestRelief)
    }

    /// Withdraws the request to be relieved.
    pub fn cancel_request_relief(from: &str, to: &str) -> (m: ClientQueryMessage)
        ensures
            ClientQueryMessage::carries(m, from@, to@, ClientQueryType::CancelRequestRelief),
    {
        ClientQueryMessage::new(from, to, ClientQueryType::CancelRequestRelief)
    }

    /// Asks for the full configuration of an aircraft.
    pub fn aircraft_config_request(from: &str, to: &str) -> (m: ClientQueryMessage)
        ensures
            ClientQueryMessage::carries(
                m,
                from@,
                to@,
                ClientQueryType::AircraftConfigurationRequest,
            ),
    {
        ClientQueryMessage::new(from, to, ClientQueryType::AircraftConfigurationRequest)
    }

    /// Asks whether `subject` is a valid controller.
    pub fn is_valid_atc(from: &str, to: &str, subject: &str) -> (m: ClientQueryMessage)
        ensures
            m.from@ == uppercase(from@),
            m.to@ == uppercase(to@),
            m.query_type matches ClientQueryType::IsValidATC { atc_callsign }
                && atc_callsign@ == uppercase(subject@),
    {
        ClientQueryMessage::new(
            from,
            to,
            ClientQueryType::IsValidATC { atc_callsign: to_upper(subject) },
        )
    }

    /// Asks for the flight plan of `subject`.
    pub fn flight_plan(from: &str, to: &str, subject: &str) -> (m: ClientQueryMessage)
        ensures
            m.from@ == uppercase(from@),
            m.to@ == uppercase(to@),
            m.query_type matches ClientQueryType::FlightPlan { aircraft_callsign }
                && aircraft_callsign@ == uppercase(subject@),
    {
        ClientQueryMessage::new(
            from,
            to,
            ClientQueryType::FlightPlan { aircraft_callsign: to_upper(subject) },
        )
    }

    /// Asks who has `subject` under control.
    pub fn who_has(from: &str, to: &str, subject: &str) -> (m: ClientQueryMessage)
        ensures
            m.from@ == uppercase(from@),
            m.to@ == uppercase(to@),
            m.query_type matches ClientQueryType::WhoHas { aircraft_callsign }
                && aircraft_callsign@ == uppercase(subject@),
    {
        ClientQueryMessage::new(
            from,
            to,
            ClientQueryType::WhoHas { aircraft_callsign: to_upper(subject) },
        )
    }

    /// Starts to track `subject`.
    pub fn initiate_track(from: &str, to: &str, subject: &str) -> (m: ClientQueryMessage)
        ensures
            m.from@ == uppercase(from@),
            m.to@ == uppercase(to@),
            m.query_type matches ClientQueryType::InitiateTrack { aircraft_callsign }
                && aircraft_callsign@ == uppercase(subject@),
    {
        ClientQueryMessage::new(
            from,
            to,
            ClientQueryType::InitiateTrack { aircraft_callsign: to_upper(subject) },
        )
    }

    /// Lets go of `subject`.
    pub fn drop_track(from: &str, to: &str, subject: &str) -> (m: ClientQueryMessage)
        ensures
            m.from@ == uppercase(from@),
            m.to@ == uppercase(to@),
            m.query_type matches ClientQueryType::DropTrack { aircraft_callsign }
                && aircraft_callsign@ == uppercase(subject@),
    {
        ClientQueryMessage::new(
            from,
            to,
            ClientQueryType::DropTrack { aircraft_callsign: to_upper(subject) },
        )
    }

    /// Sets the cleared cruise altitude of `subject`.
    pub fn set_final_altitude(from: &str, to: &str, subject: &str, altitude: u32) -> (m:
        ClientQueryMessage)
        ensures
            m.from@ == uppercase(from@),
            m.to@ == uppercase(to@),
            m.query_type matches ClientQueryType::SetFinalAltitude { aircraft_callsign, altitude }
                && aircraft_callsign@ == uppercase(subject@) && altitude == altitude,
    {
        ClientQueryMessage::new(
            from,
            to,
            ClientQueryType::SetFinalAltitude { aircraft_callsign: to_upper(subject), altitude },
        )
    }

    /// Sets the temporary altitude of `subject`.
    pub fn set_temp_altitude(from: &str, to: &str, subject: &str, altitude: u32) -> (m:
        ClientQueryMessage)
        ensures
            m.from@ == uppercase(from@),
            m.to@ == uppercase(to@),
            m.query_type matches ClientQueryType::SetTempAltitude { aircraft_callsign, altitude }
                && aircraft_callsign@ == uppercase(subject@) && altitude == altitude,
    {
        ClientQueryMessage::new(
            from,
            to,
            ClientQueryType::SetTempAltitude { aircraft_callsign: to_upper(subject), altitude },
        )
    }

    /// Assigns a beacon code to `subject`.
    pub fn set_beacon_code(from: &str, to: &str, subject: &str, code: TransponderCode) -> (m:
        ClientQueryMessage)
        ensures
            m.from@ == uppercase(from@),
            m.to@ == uppercase(to@),
            m.query_type matches ClientQueryType::SetBeaconCode { aircraft_callsign, code }
                && aircraft_callsign@ == uppercase(subject@) && code == code,
    {
        ClientQueryMessage::new(
            from,
            to,
            ClientQueryType::SetBeaconCode { aircraft_callsign: to_upper(subject), code },
        )
    }

    /// Sets how `subject` communicates.
    pub fn set_voice_type(from: &str, to: &str, subject: &str, voice_type: VoiceCapability) -> (m:
        ClientQueryMessage)
        ensures
            m.from@ == uppercase(from@),
            m.to@ == uppercase(to@),
            m.query_type matches ClientQueryType::SetVoiceType {
                aircraft_callsign,
                voice_capability,
            } && aircraft_callsign@ == uppercase(subject@) && voice_capability == voice_type,
    {
        ClientQueryMessage::new(
            from,
            to,
            ClientQueryType::SetVoiceType {
                aircraft_callsign: to_upper(subject),
                voice_capability: voice_type,
            },
        )
    }

    /// Sets the scratchpad of `subject`.
    pub fn set_scratchpad(
        from: &str,
        to: &str,
        subject: &str,
        scratchpad_contents: ScratchPad,
    ) -> (m: ClientQueryMessage)
        ensures
            m.from@ == uppercase(from@),
            m.to@ == uppercase(to@),
            m.query_type matches ClientQueryType::SetScratchpad { aircraft_callsign, contents }
                && aircraft_callsign@ == uppercase(subject@) && contents == scratchpad_contents,
    {
        ClientQueryMessage::new(
            from,
            to,
            ClientQueryType::SetScratchpad {
                aircraft_callsign: to_upper(subject),
                contents: scratchpad_contents,
            },
        )
    }

    /// Takes `subject_aircraft` over from `subject_atc`.
    pub fn accept_handoff(from: &str, to: &str, subject_aircraft: &str, subject_atc: &str) -> (m:
        ClientQueryMessage)
        ensures
            m.from@ == uppercase(from@),
            m.to@ == uppercase(to@),
            m.query_type matches ClientQueryType::AcceptHandoff { aircraft_callsign, atc_callsign }
                && aircraft_callsign@ == uppercase(subject_aircraft@) && atc_callsign@
                == uppercase(subject_atc@),
    {
        ClientQueryMessage::new(
            from,
            to,
            ClientQueryType::AcceptHandoff {
                aircraft_callsign: to_upper(subject_aircraft),
                atc_callsign: to_upper(subject_atc),
            },
        )
    }

    /// Sets the beacon code of a pilot client from afar.
    pub fn force_beacon_code(from: &str, to: &str, code: TransponderCode) -> (m:
        ClientQueryMessage)
        ensures
            ClientQueryMessage::carries(m, from@, to@, ClientQueryType::ForceBeaconCode { code }),
    {
        ClientQueryMessage::new(from, to, ClientQueryType::ForceBeaconCode { code })
    }

    /// Asks for help, with or without a message.
    pub fn help_request(from: &str, to: &str, message: Option<&str>) -> (m: ClientQueryMessage)
        ensures
            m.from@ == uppercase(from@),
            m.to@ == uppercase(to@),
            m.query_type matches ClientQueryType::HelpRequest { message: text } && optional_text(
                text,
            ) == optional_view(message),
    {
        ClientQueryMessage::new(
            from,
            to,
            ClientQueryType::HelpRequest { message: owned(message) },
        )
    }

    /// Withdraws a call for help, with or without a message.
    pub fn cancel_help_request(from: &str, to: &str, message: Option<&str>) -> (m:
        ClientQueryMessage)
        ensures
            m.from@ == uppercase(from@),
            m.to@ == uppercase(to@),
            m.query_type matches ClientQueryType::CancelHelpRequest { message: text }
                && optional_text(text) == optional_view(message),
    {
        ClientQueryMessage::new(
            from,
            to,
            ClientQueryType::CancelHelpRequest {
                message: owned(message),
            },
        )
    }

    /// Carries the configuration of an aircraft, given as the compact JSON
    /// of what stands under `config`.
    pub fn aircraft_config_response(from: &str, to: &str, aircraft_config: &str) -> (m:
        ClientQueryMessage)
        ensures
            m.from@ == uppercase(from@),
            m.to@ == uppercase(to@),
            m.query_type matches ClientQueryType::AircraftConfigurationResponse {
                aircraft_config: payload,
            } && payload@ == aircraft_config@,
    {
        ClientQueryMessage::new(
            from,
            to,
            ClientQueryType::AircraftConfigurationResponse {
                aircraft_config: aircraft_config.to_owned(),
            },
        )
    }

    /// Tells the letter, wind and pressure of a new ATIS; wind and pressure
    /// are put in upper case.
    pub fn new_atis(
        from: &str,
        to: &str,
        atis_letter: char,
        wind_dir_and_speed: &str,
        pressure: &str,
    ) -> (m: ClientQueryMessage)
        ensures
            m.from@ == uppercase(from@),
            m.to@ == uppercase(to@),
            m.query_type matches ClientQueryType::NewATIS {
                atis_letter: letter,
                surface_wind,
                pressure: group,
            } && letter == atis_letter && surface_wind@ == uppercase(wind_dir_and_speed@)
                && group@ == uppercase(pressure@),
    {
        ClientQueryMessage::new(
            from,
            to,
            ClientQueryType::NewATIS {
                atis_letter,
                surface_wind: to_upper(wind_dir_and_speed),
                pressure: to_upper(pressure),
            },
        )
    }
}

} // verus!
