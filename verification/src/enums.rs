//! The enumerations that message fields are read into, each with the text
//! or the number that stands for it on the wire.

use vstd::prelude::*;
use vstd::string::*;
use crate::errors::{FsdMessageParseError, ParseFailure};
use crate::numbers::{parse_unsigned, unsigned_value};
use crate::text::{lowercase, same_text, to_lower, to_upper, uppercase};

verus! {
/// Something a client can do, as it tells its peers in answer to a
/// capabilities query.
#[derive(Debug, Clone, Copy, PartialEq, Eq, Structural, Hash)]
pub enum ClientCapability {
    Version,
    ATCInfo,
    ModelDesc,
    ACConfig,
    VisUpdate,
    RadarUpdate,
    ATCMulti,
    SecPos,
    IcaoEq,
    FastPos,
    OngoingCoord,
    InterimPos,
    Stealth,
    Teamspeak,
    NewATIS,
    Mumble,
    GlobalData,
    Simulated,
    ObsPilot,
}

impl ClientCapability {
    /// The text that stands for the value on the wire.
    pub open spec fn text(&self) -> Seq<char> {
        match *self {
            ClientCapability::Version => "VERSION"@,
            ClientCapability::ATCInfo => "ATCINFO"@,
            ClientCapability::ModelDesc => "MODELDESC"@,
            ClientCapability::ACConfig => "ACCONFIG"@,
            ClientCapability::VisUpdate => "VISUPDATE"@,
            ClientCapability::RadarUpdate => "RADARUPDATE"@,
            ClientCapability::ATCMulti => "ATCMULTI"@,
            ClientCapability::SecPos => "SECPOS"@,
            ClientCapability::IcaoEq => "ICAOEQ"@,
            ClientCapability::FastPos => "FASTPOS"@,
            ClientCapability::OngoingCoord => "ONGOINGCOORD"@,
            ClientCapability::InterimPos => "INTERIMPOS"@,
            ClientCapability::Stealth => "STEALTH"@,
            ClientCapability::Teamspeak => "TEAMSPEAK"@,
            ClientCapability::NewATIS => "NEWATIS"@,
            ClientCapability::Mumble => "MUMBLE"@,
            ClientCapability::GlobalData => "GLOBALDATA"@,
            ClientCapability::Simulated => "SIMULATED"@,
            ClientCapability::ObsPilot => "OBSPILOT"@,
        }
    }

    /// The failure that a refused text gives.
    pub open spec fn refusal(s: Seq<char>) -> ParseFailure {
        ParseFailure::InvalidClientCapability(s)
    }

    /// The value that a text stands for, where it stands for one.
    pub open spec fn of_text(s: Seq<char>) -> Option<ClientCapability> {
        if s == "VERSION"@ {
            Some(ClientCapability::Version)
        } else if s == "ATCINFO"@ {
            Some(ClientCapability::ATCInfo)
        } else if s == "MODELDESC"@ {
            Some(ClientCapability::ModelDesc)
        } else if s == "ACCONFIG"@ {
            Some(ClientCapability::ACConfig)
        } else if s == "VISUPDATE"@ {
            Some(ClientCapability::VisUpdate)
        } else if s == "RADARUPDATE"@ {
            Some(ClientCapability::RadarUpdate)
        } else if s == "ATCMULTI"@ {
            Some(ClientCapability::ATCMulti)
        } else if s == "SECPOS"@ {
            Some(ClientCapability::SecPos)
        } else if s == "ICAOEQ"@ {
            Some(ClientCapability::IcaoEq)
        } else if s == "FASTPOS"@ {
            Some(ClientCapability::FastPos)
        } else if s == "ONGOINGCOORD"@ {
            Some(ClientCapability::OngoingCoord)
        } else if s == "INTERIMPOS"@ {
            Some(ClientCapability::InterimPos)
        } else if s == "STEALTH"@ {
            Some(ClientCapability::Stealth)
        } else if s == "TEAMSPEAK"@ {
            Some(ClientCapability::Teamspeak)
        } else if s == "NEWATIS"@ {
            Some(ClientCapability::NewATIS)
        } else if s == "MUMBLE"@ {
            Some(ClientCapability::Mumble)
        } else if s == "GLOBALDATA"@ {
            Some(ClientCapability::GlobalData)
        } else if s == "SIMULATED"@ {
            Some(ClientCapability::Simulated)
        } else if s == "OBSPILOT"@ {
            Some(ClientCapability::ObsPilot)
        } else {
            None
        }
    }

    /// Reads a value from its text in upper case.
    pub fn from_name(name: &str) -> (r: Option<ClientCapability>)
        ensures
            r == ClientCapability::of_text(name@),
    {
        if same_text(name, "VERSION") {
            Some(ClientCapability::Version)
        } else if same_text(name, "ATCINFO") {
            Some(ClientCapability::ATCInfo)
        } else if same_text(name, "MODELDESC") {
            Some(ClientCapability::ModelDesc)
        } else if same_text(name, "ACCONFIG") {
            Some(ClientCapability::ACConfig)
        } else if same_text(name, "VISUPDATE") {
            Some(ClientCapability::VisUpdate)
        } else if same_text(name, "RADARUPDATE") {
            Some(ClientCapability::RadarUpdate)
        } else if same_text(name, "ATCMULTI") {
            Some(ClientCapability::ATCMulti)
        } else if same_text(name, "SECPOS") {
            Some(ClientCapability::SecPos)
        } else if same_text(name, "ICAOEQ") {
            Some(ClientCapability::IcaoEq)
        } else if same_text(name, "FASTPOS") {
            Some(ClientCapability::FastPos)
        } else if same_text(name, "ONGOINGCOORD") {
            Some(ClientCapability::OngoingCoord)
        } else if same_text(name, "INTERIMPOS") {
            Some(ClientCapability::InterimPos)
        } else if same_text(name, "STEALTH") {
            Some(ClientCapability::Stealth)
        } else if same_text(name, "TEAMSPEAK") {
            Some(ClientCapability::Teamspeak)
        } else if same_text(name, "NEWATIS") {
            Some(ClientCapability::NewATIS)
        } else if same_text(name, "MUMBLE") {
            Some(ClientCapability::Mumble)
        } else if same_text(name, "GLOBALDATA") {
            Some(ClientCapability::GlobalData)
        } else if same_text(name, "SIMULATED") {
            Some(ClientCapability::Simulated)
        } else if same_text(name, "OBSPILOT") {
            Some(ClientCapability::ObsPilot)
        } else {
            None
        }
    }

    /// Reads a value from its text, in either case.
    pub fn from_str(s: &str) -> (r: Result<ClientCapability, FsdMessageParseError>)
        ensures
            match r {
                Ok(v) => ClientCapability::of_text(uppercase(s@)) == Some(v),
                Err(e) => ClientCapability::of_text(uppercase(s@)) is None
                    && e@ == ParseFailure::InvalidClientCapability(s@),
            },
    {
        match ClientCapability::from_name(to_upper(s).as_str()) {
            Some(v) => Ok(v),
            None => Err(FsdMessageParseError::InvalidClientCapability(s.to_owned())),
        }
    }

    /// The text that stands for the value on the wire.
    pub fn to_string(&self) -> (r: String)
        ensures
            r@ == self.text(),
    {
        match self {
            ClientCapability::Version => "VERSION".to_owned(),
            ClientCapability::ATCInfo => "ATCINFO".to_owned(),
            ClientCapability::ModelDesc => "MODELDESC".to_owned(),
            ClientCapability::ACConfig => "ACCONFIG".to_owned(),
            ClientCapability::VisUpdate => "VISUPDATE".to_owned(),
            ClientCapability::RadarUpdate => "RADARUPDATE".to_owned(),
            ClientCapability::ATCMulti => "ATCMULTI".to_owned(),
            ClientCapability::SecPos => "SECPOS".to_owned(),
            ClientCapability::IcaoEq => "ICAOEQ".to_owned(),
            ClientCapability::FastPos => "FASTPOS".to_owned(),
            ClientCapability::OngoingCoord => "ONGOINGCOORD".to_owned(),
            ClientCapability::InterimPos => "INTERIMPOS".to_owned(),
            ClientCapability::Stealth => "STEALTH".to_owned(),
            ClientCapability::Teamspeak => "TEAMSPEAK".to_owned(),
            ClientCapability::NewATIS => "NEWATIS".to_owned(),
            ClientCapability::Mumble => "MUMBLE".to_owned(),
            ClientCapability::GlobalData => "GLOBALDATA".to_owned(),
            ClientCapability::Simulated => "SIMULATED".to_owned(),
            ClientCapability::ObsPilot => "OBSPILOT".to_owned(),
        }
    }
}

/// The rating of a controller.
#[derive(Debug, Clone, Copy, PartialEq, Eq, Structural)]
pub enum AtcRating {
    Observer,
    S1,
    S2,
    S3,
    C1,
    C2,
    C3,
    I1,
    I2,
    I3,
    Supervisor,
    Administrator,
}

impl AtcRating {
    /// The number that stands for the value on the wire.
    pub open spec fn code(&self) -> nat {
        match *self {
            AtcRating::Observer => 1,
            AtcRating::S1 => 2,
            AtcRating::S2 => 3,
            AtcRating::S3 => 4,
            AtcRating::C1 => 5,
            AtcRating::C2 => 6,
            AtcRating::C3 => 7,
            AtcRating::I1 => 8,
            AtcRating::I2 => 9,
            AtcRating::I3 => 10,
            AtcRating::Supervisor => 11,
            AtcRating::Administrator => 12,
        }
    }

    /// The number that stands for the value on the wire.
    pub fn number(&self) -> (n: u8)
        ensures
            n == self.code(),
    {
        match self {
            AtcRating::Observer => 1,
            AtcRating::S1 => 2,
            AtcRating::S2 => 3,
            AtcRating::S3 => 4,
            AtcRating::C1 => 5,
            AtcRating::C2 => 6,
            AtcRating::C3 => 7,
            AtcRating::I1 => 8,
            AtcRating::I2 => 9,
            AtcRating::I3 => 10,
            AtcRating::Supervisor => 11,
            AtcRating::Administrator => 12,
        }
    }

    /// The failure that a refused text gives.
    pub open spec fn refusal(s: Seq<char>) -> ParseFailure {
        ParseFailure::InvalidRating(s)
    }

    /// The value that a number stands for, where it stands for one.
    pub open spec fn of_code(n: nat) -> Option<AtcRating> {
        if n == 1 {
            Some(AtcRating::Observer)
        } else if n == 2 {
            Some(AtcRating::S1)
        } else if n == 3 {
            Some(AtcRating::S2)
        } else if n == 4 {
            Some(AtcRating::S3)
        } else if n == 5 {
            Some(AtcRating::C1)
        } else if n == 6 {
            Some(AtcRating::C2)
        } else if n == 7 {
            Some(AtcRating::C3)
        } else if n == 8 {
            Some(AtcRating::I1)
        } else if n == 9 {
            Some(AtcRating::I2)
        } else if n == 10 {
            Some(AtcRating::I3)
        } else if n == 11 {
            Some(AtcRating::Supervisor)
        } else if n == 12 {
            Some(AtcRating::Administrator)
        } else {
            None
        }
    }

    /// The value that a text stands for: the text is read as a number of
    /// eight bits, and the number stands for the value.
    pub open spec fn of_text(s: Seq<char>) -> Option<AtcRating> {
        match unsigned_value(s, false, 255) {
            Some(n) => AtcRating::of_code(n),
            None => None,
        }
    }

    /// Reads a value from the decimal text of its number.
    pub fn from_str(s: &str) -> (r: Result<AtcRating, FsdMessageParseError>)
        ensures
            match r {
                Ok(v) => AtcRating::of_text(s@) == Some(v),
                Err(e) => AtcRating::of_text(s@) is None && e@ == ParseFailure::InvalidRating(s@),
            },
    {
        match parse_unsigned(s, false, 255) {
            Some(n) => {
                if n == 1 {
                    Ok(AtcRating::Observer)
                } else if n == 2 {
                    Ok(AtcRating::S1)
                } else if n == 3 {
                    Ok(AtcRating::S2)
                } else if n == 4 {
                    Ok(AtcRating::S3)
                } else if n == 5 {
                    Ok(AtcRating::C1)
                } else if n == 6 {
                    Ok(AtcRating::C2)
                } else if n == 7 {
                    Ok(AtcRating::C3)
                } else if n == 8 {
                    Ok(AtcRating::I1)
                } else if n == 9 {
                    Ok(AtcRating::I2)
                } else if n == 10 {
                    Ok(AtcRating::I3)
                } else if n == 11 {
                    Ok(AtcRating::Supervisor)
                } else if n == 12 {
                    Ok(AtcRating::Administrator)
                } else {
                    Err(FsdMessageParseError::InvalidRating(s.to_owned()))
                }
            },
            None => Err(FsdMessageParseError::InvalidRating(s.to_owned())),
        }
    }
}

/// The rating of a pilot.
#[derive(Debug, Clone, Copy, PartialEq, Eq, Structural)]
pub enum PilotRating {
    Student,
    VFR,
    IFR,
    Instructor,
    Supervisor,
}

impl PilotRating {
    /// The number that stands for the value on the wire.
    pub open spec fn code(&self) -> nat {
        match *self {
            PilotRating::Student => 1,
            PilotRating::VFR => 2,
            PilotRating::IFR => 3,
            PilotRating::Instructor => 4,
            PilotRating::Supervisor => 5,
        }
    }

    /// The number that stands for the value on the wire.
    pub fn number(&self) -> (n: u8)
        ensures
            n == self.code(),
    {
        match self {
            PilotRating::Student => 1,
            PilotRating::VFR => 2,
            PilotRating::IFR => 3,
            PilotRating::Instructor => 4,
            PilotRating::Supervisor => 5,
        }
    }

    /// The failure that a refused text gives.
    pub open spec fn refusal(s: Seq<char>) -> ParseFailure {
        ParseFailure::InvalidRating(s)
    }

    /// The value that a number stands for, where it stands for one.
    pub open spec fn of_code(n: nat) -> Option<PilotRating> {
        if n == 1 {
            Some(PilotRating::Student)
        } else if n == 2 {
            Some(PilotRating::VFR)
        } else if n == 3 {
            Some(PilotRating::IFR)
        } else if n == 4 {
            Some(PilotRating::Instructor)
        } else if n == 5 {
            Some(PilotRating::Supervisor)
        } else {
            None
        }
    }

    /// The value that a text stands for: the text is read as a number of
    /// eight bits, and the number stands for the value.
    pub open spec fn of_text(s: Seq<char>) -> Option<PilotRating> {
        match unsigned_value(s, false, 255) {
            Some(n) => PilotRating::of_code(n),
            None => None,
        }
    }

    /// Reads a value from the decimal text of its number.
    pub fn from_str(s: &str) -> (r: Result<PilotRating, FsdMessageParseError>)
        ensures
            match r {
                Ok(v) => PilotRating::of_text(s@) == Some(v),
                Err(e) => PilotRating::of_text(s@) is None && e@ == ParseFailure::InvalidRating(s@),
            },
    {
        match parse_unsigned(s, false, 255) {
            Some(n) => {
                if n == 1 {
                    Ok(PilotRating::Student)
                } else if n == 2 {
                    Ok(PilotRating::VFR)
                } else if n == 3 {
                    Ok(PilotRating::IFR)
                } else if n == 4 {
                    Ok(PilotRating::Instructor)
                } else if n == 5 {
                    Ok(PilotRating::Supervisor)
                } else {
                    Err(FsdMessageParseError::InvalidRating(s.to_owned()))
                }
            },
            None => Err(FsdMessageParseError::InvalidRating(s.to_owned())),
        }
    }
}

/// A version of the FSD protocol.
#[derive(Debug, Clone, Copy, PartialEq, Eq, Structural)]
pub enum ProtocolRevision {
    /// Used on legacy servers; privately run servers mostly speak this one.
    Classic,
    /// Used on VATSIM before clients had to authenticate.
    VatsimNoAuth,
    /// Used on VATSIM servers until 2022.
    VatsimAuth,
    /// VATSIM Velocity, used on VATSIM servers since 2022.
    Vatsim2022,
}

impl ProtocolRevision {
    /// The number that stands for the value on the wire.
    pub open spec fn code(&self) -> nat {
        match *self {
            ProtocolRevision::Classic => 9,
            ProtocolRevision::VatsimNoAuth => 10,
            ProtocolRevision::VatsimAuth => 100,
            ProtocolRevision::Vatsim2022 => 101,
        }
    }

    /// The number that stands for the value on the wire.
    pub fn number(&self) -> (n: u8)
        ensures
            n == self.code(),
    {
        match self {
            ProtocolRevision::Classic => 9,
            ProtocolRevision::VatsimNoAuth => 10,
            ProtocolRevision::VatsimAuth => 100,
            ProtocolRevision::Vatsim2022 => 101,
        }
    }

    /// The failure that a refused text gives.
    pub open spec fn refusal(s: Seq<char>) -> ParseFailure {
        ParseFailure::InvalidProtocolRevison(s)
    }

    /// The value that a text stands for, where it stands for one.
    pub open spec fn of_text(s: Seq<char>) -> Option<ProtocolRevision> {
        if s == "1"@ {
            Some(ProtocolRevision::Classic)
        } else if s == "9"@ {
            Some(ProtocolRevision::Classic)
        } else if s == "10"@ {
            Some(ProtocolRevision::VatsimNoAuth)
        } else if s == "100"@ {
            Some(ProtocolRevision::VatsimAuth)
        } else if s == "101"@ {
            Some(ProtocolRevision::Vatsim2022)
        } else {
            None
        }
    }

    /// Reads a value from its text.
    pub fn from_str(s: &str) -> (r: Result<ProtocolRevision, FsdMessageParseError>)
        ensures
            match r {
                Ok(v) => ProtocolRevision::of_text(s@) == Some(v),
                Err(e) => ProtocolRevision::of_text(s@) is None
                    && e@ == ParseFailure::InvalidProtocolRevison(s@),
            },
    {
        if same_text(s, "1") {
            Ok(ProtocolRevision::Classic)
        } else if same_text(s, "9") {
            Ok(ProtocolRevision::Classic)
        } else if same_text(s, "10") {
            Ok(ProtocolRevision::VatsimNoAuth)
        } else if same_text(s, "100") {
            Ok(ProtocolRevision::VatsimAuth)
        } else if same_text(s, "101") {
            Ok(ProtocolRevision::Vatsim2022)
        } else {
            Err(FsdMessageParseError::InvalidProtocolRevison(s.to_owned()))
        }
    }
}

/// The flight simulator that a pilot client is attached to.
#[derive(Debug, Clone, Copy, PartialEq, Eq, Structural)]
pub enum SimulatorType {
    Unknown,
    MSFS95,
    MSFS98,
    MSCFS,
    MSFS2000,
    MSCFS2,
    MSFS2002,
    MSCFS3,
    MSFS2004,
    MSFSX,
    MSFS,
    MSFS2024,
    XPLANE8,
    XPLANE9,
    XPLANE10,
    XPLANE11,
    XPLANE12,
    P3Dv1,
    P3Dv2,
    P3Dv3,
    P3Dv4,
    P3Dv5,
    FlightGear,
}

impl SimulatorType {
    /// The number that stands for the value on the wire.
    pub open spec fn code(&self) -> nat {
        match *self {
            SimulatorType::Unknown => 0,
            SimulatorType::MSFS95 => 1,
            SimulatorType::MSFS98 => 2,
            SimulatorType::MSCFS => 3,
            SimulatorType::MSFS2000 => 4,
            SimulatorType::MSCFS2 => 5,
            SimulatorType::MSFS2002 => 6,
            SimulatorType::MSCFS3 => 7,
            SimulatorType::MSFS2004 => 8,
            SimulatorType::MSFSX => 9,
            SimulatorType::MSFS => 10,
            SimulatorType::MSFS2024 => 11,
            SimulatorType::XPLANE8 => 12,
            SimulatorType::XPLANE9 => 13,
            SimulatorType::XPLANE10 => 14,
            SimulatorType::XPLANE11 => 15,
            SimulatorType::XPLANE12 => 16,
            SimulatorType::P3Dv1 => 17,
            SimulatorType::P3Dv2 => 18,
            SimulatorType::P3Dv3 => 19,
            SimulatorType::P3Dv4 => 20,
            SimulatorType::P3Dv5 => 21,
            SimulatorType::FlightGear => 22,
        }
    }

    /// The number that stands for the value on the wire.
    pub fn number(&self) -> (n: u8)
        ensures
            n == self.code(),
    {
        match self {
            SimulatorType::Unknown => 0,
            SimulatorType::MSFS95 => 1,
            SimulatorType::MSFS98 => 2,
            SimulatorType::MSCFS => 3,
            SimulatorType::MSFS2000 => 4,
            SimulatorType::MSCFS2 => 5,
            SimulatorType::MSFS2002 => 6,
            SimulatorType::MSCFS3 => 7,
            SimulatorType::MSFS2004 => 8,
            SimulatorType::MSFSX => 9,
            SimulatorType::MSFS => 10,
            SimulatorType::MSFS2024 => 11,
            SimulatorType::XPLANE8 => 12,
            SimulatorType::XPLANE9 => 13,
            SimulatorType::XPLANE10 => 14,
            SimulatorType::XPLANE11 => 15,
            SimulatorType::XPLANE12 => 16,
            SimulatorType::P3Dv1 => 17,
            SimulatorType::P3Dv2 => 18,
            SimulatorType::P3Dv3 => 19,
            SimulatorType::P3Dv4 => 20,
            SimulatorType::P3Dv5 => 21,
            SimulatorType::FlightGear => 22,
        }
    }

    /// The value that a text stands for, where it stands for one.
    pub open spec fn of_text(s: Seq<char>) -> Option<SimulatorType> {
        if s == "1"@ {
            Some(SimulatorType::MSFS95)
        } else if s == "2"@ {
            Some(SimulatorType::MSFS98)
        } else if s == "3"@ {
            Some(SimulatorType::MSCFS)
        } else if s == "4"@ {
            Some(SimulatorType::MSFS2000)
        } else if s == "5"@ {
            Some(SimulatorType::MSCFS2)
        } else if s == "6"@ {
            Some(SimulatorType::MSFS2002)
        } else if s == "7"@ {
            Some(SimulatorType::MSCFS3)
        } else if s == "8"@ {
            Some(SimulatorType::MSFS2004)
        } else if s == "9"@ {
            Some(SimulatorType::MSFSX)
        } else if s == "10"@ {
            Some(SimulatorType::MSFS)
        } else if s == "11"@ {
            Some(SimulatorType::MSFS2024)
        } else if s == "12"@ {
            Some(SimulatorType::XPLANE8)
        } else if s == "13"@ {
            Some(SimulatorType::XPLANE9)
        } else if s == "14"@ {
            Some(SimulatorType::XPLANE10)
        } else if s == "15"@ {
            Some(SimulatorType::XPLANE11)
        } else if s == "16"@ {
            Some(SimulatorType::XPLANE12)
        } else if s == "17"@ {
            Some(SimulatorType::P3Dv1)
        } else if s == "18"@ {
            Some(SimulatorType::P3Dv2)
        } else if s == "19"@ {
            Some(SimulatorType::P3Dv3)
        } else if s == "20"@ {
            Some(SimulatorType::P3Dv4)
        } else if s == "21"@ {
            Some(SimulatorType::P3Dv5)
        } else if s == "22"@ {
            Some(SimulatorType::FlightGear)
        } else {
            None
        }
    }

    /// Reads a value from its text; any text that stands for none gives
    /// `Unknown`.
    pub fn from(value: &str) -> (r: SimulatorType)
        ensures
            r == match SimulatorType::of_text(value@) {
                Some(v) => v,
                None => SimulatorType::Unknown,
            },
    {
        if same_text(value, "1") {
            SimulatorType::MSFS95
        } else if same_text(value, "2") {
            SimulatorType::MSFS98
        } else if same_text(value, "3") {
            SimulatorType::MSCFS
        } else if same_text(value, "4") {
            SimulatorType::MSFS2000
        } else if same_text(value, "5") {
            SimulatorType::MSCFS2
        } else if same_text(value, "6") {
            SimulatorType::MSFS2002
        } else if same_text(value, "7") {
            SimulatorType::MSCFS3
        } else if same_text(value, "8") {
            SimulatorType::MSFS2004
        } else if same_text(value, "9") {
            SimulatorType::MSFSX
        } else if same_text(value, "10") {
            SimulatorType::MSFS
        } else if same_text(value, "11") {
            SimulatorType::MSFS2024
        } else if same_text(value, "12") {
            SimulatorType::XPLANE8
        } else if same_text(value, "13") {
            SimulatorType::XPLANE9
        } else if same_text(value, "14") {
            SimulatorType::XPLANE10
        } else if same_text(value, "15") {
            SimulatorType::XPLANE11
        } else if same_text(value, "16") {
            SimulatorType::XPLANE12
        } else if same_text(value, "17") {
            SimulatorType::P3Dv1
        } else if same_text(value, "18") {
            SimulatorType::P3Dv2
        } else if same_text(value, "19") {
            SimulatorType::P3Dv3
        } else if same_text(value, "20") {
            SimulatorType::P3Dv4
        } else if same_text(value, "21") {
            SimulatorType::P3Dv5
        } else if same_text(value, "22") {
            SimulatorType::FlightGear
        } else {
            SimulatorType::Unknown
        }
    }
}

/// The rules under which a flight is filed.
#[derive(Debug, Clone, Copy, PartialEq, Eq, Structural)]
pub enum FlightRules {
    DVFR,
    SVFR,
    VFR,
    IFR,
}

impl FlightRules {
    /// The text that stands for the value on the wire.
    pub open spec fn text(&self) -> Seq<char> {
        match *self {
            FlightRules::DVFR => "D"@,
            FlightRules::SVFR => "S"@,
            FlightRules::VFR => "V"@,
            FlightRules::IFR => "I"@,
        }
    }

    /// The failure that a refused text gives.
    pub open spec fn refusal(s: Seq<char>) -> ParseFailure {
        ParseFailure::InvalidFlightRules(s)
    }

    /// The value that a text stands for, where it stands for one.
    pub open spec fn of_text(s: Seq<char>) -> Option<FlightRules> {
        if s == "D"@ {
            Some(FlightRules::DVFR)
        } else if s == "S"@ {
            Some(FlightRules::SVFR)
        } else if s == "V"@ {
            Some(FlightRules::VFR)
        } else if s == "I"@ {
            Some(FlightRules::IFR)
        } else {
            None
        }
    }

    /// Reads a value from its text in upper case.
    pub fn from_name(name: &str) -> (r: Option<FlightRules>)
        ensures
            r == FlightRules::of_text(name@),
    {
        if same_text(name, "D") {
            Some(FlightRules::DVFR)
        } else if same_text(name, "S") {
            Some(FlightRules::SVFR)
        } else if same_text(name, "V") {
            Some(FlightRules::VFR)
        } else if same_text(name, "I") {
            Some(FlightRules::IFR)
        } else {
            None
        }
    }

    /// Reads a value from its text, in either case.
    pub fn from_str(s: &str) -> (r: Result<FlightRules, FsdMessageParseError>)
        ensures
            match r {
                Ok(v) => FlightRules::of_text(uppercase(s@)) == Some(v),
                Err(e) => FlightRules::of_text(uppercase(s@)) is None
                    && e@ == ParseFailure::InvalidFlightRules(s@),
            },
    {
        match FlightRules::from_name(to_upper(s).as_str()) {
            Some(v) => Ok(v),
            None => Err(FsdMessageParseError::InvalidFlightRules(s.to_owned())),
        }
    }

    /// The text that stands for the value on the wire.
    pub fn to_string(&self) -> (r: String)
        ensures
            r@ == self.text(),
    {
        match self {
            FlightRules::DVFR => "D".to_owned(),
            FlightRules::SVFR => "S".to_owned(),
            FlightRules::VFR => "V".to_owned(),
            FlightRules::IFR => "I".to_owned(),
        }
    }
}

/// The kind of position that a controller staffs.
#[derive(Debug, Clone, Copy, PartialEq, Eq, Structural)]
pub enum AtcType {
    Observer,
    FlightServiceStation,
    Delivery,
    Ground,
    Tower,
    Approach,
    Centre,
}

impl AtcType {
    /// The number that stands for the value on the wire.
    pub open spec fn code(&self) -> nat {
        match *self {
            AtcType::Observer => 0,
            AtcType::FlightServiceStation => 1,
            AtcType::Delivery => 2,
            AtcType::Ground => 3,
            AtcType::Tower => 4,
            AtcType::Approach => 5,
            AtcType::Centre => 6,
        }
    }

    /// The number that stands for the value on the wire.
    pub fn number(&self) -> (n: u8)
        ensures
            n == self.code(),
    {
        match self {
            AtcType::Observer => 0,
            AtcType::FlightServiceStation => 1,
            AtcType::Delivery => 2,
            AtcType::Ground => 3,
            AtcType::Tower => 4,
            AtcType::Approach => 5,
            AtcType::Centre => 6,
        }
    }

    /// The failure that a refused text gives.
    pub open spec fn refusal(s: Seq<char>) -> ParseFailure {
        ParseFailure::InvalidAtcType(s)
    }

    /// The value that a text stands for, where it stands for one.
    pub open spec fn of_text(s: Seq<char>) -> Option<AtcType> {
        if s == "0"@ {
            Some(AtcType::Observer)
        } else if s == "1"@ {
            Some(AtcType::FlightServiceStation)
        } else if s == "2"@ {
            Some(AtcType::Delivery)
        } else if s == "3"@ {
            Some(AtcType::Ground)
        } else if s == "4"@ {
            Some(AtcType::Tower)
        } else if s == "5"@ {
            Some(AtcType::Approach)
        } else if s == "6"@ {
            Some(AtcType::Centre)
        } else {
            None
        }
    }

    /// Reads a value from its text.
    pub fn from_str(s: &str) -> (r: Result<AtcType, FsdMessageParseError>)
        ensures
            match r {
                Ok(v) => AtcType::of_text(s@) == Some(v),
                Err(e) => AtcType::of_text(s@) is None && e@ == ParseFailure::InvalidAtcType(s@),
            },
    {
        if same_text(s, "0") {
            Ok(AtcType::Observer)
        } else if same_text(s, "1") {
            Ok(AtcType::FlightServiceStation)
        } else if same_text(s, "2") {
            Ok(AtcType::Delivery)
        } else if same_text(s, "3") {
            Ok(AtcType::Ground)
        } else if same_text(s, "4") {
            Ok(AtcType::Tower)
        } else if same_text(s, "5") {
            Ok(AtcType::Approach)
        } else if same_text(s, "6") {
            Ok(AtcType::Centre)
        } else {
            Err(FsdMessageParseError::InvalidAtcType(s.to_owned()))
        }
    }
}

/// What the transponder of an aircraft is doing.
#[derive(Debug, Clone, Copy, PartialEq, Eq, Structural)]
pub enum TransponderMode {
    Standby,
    ModeC,
    Ident,
}

impl TransponderMode {
    /// The text that stands for the value on the wire.
    pub open spec fn text(&self) -> Seq<char> {
        match *self {
            TransponderMode::Standby => "S"@,
            TransponderMode::ModeC => "N"@,
            TransponderMode::Ident => "Y"@,
        }
    }

    /// The failure that a refused text gives.
    pub open spec fn refusal(s: Seq<char>) -> ParseFailure {
        ParseFailure::InvalidTransponderMode(s)
    }

    /// The value that a text stands for, where it stands for one.
    pub open spec fn of_text(s: Seq<char>) -> Option<TransponderMode> {
        if s == "S"@ {
            Some(TransponderMode::Standby)
        } else if s == "N"@ {
            Some(TransponderMode::ModeC)
        } else if s == "Y"@ {
            Some(TransponderMode::Ident)
        } else {
            None
        }
    }

    /// Reads a value from its text.
    pub fn from_str(s: &str) -> (r: Result<TransponderMode, FsdMessageParseError>)
        ensures
            match r {
                Ok(v) => TransponderMode::of_text(s@) == Some(v),
                Err(e) => TransponderMode::of_text(s@) is None
                    && e@ == ParseFailure::InvalidTransponderMode(s@),
            },
    {
        let key = s;
        if same_text(key, "S") {
            Ok(TransponderMode::Standby)
        } else if same_text(key, "N") {
            Ok(TransponderMode::ModeC)
        } else if same_text(key, "Y") {
            Ok(TransponderMode::Ident)
        } else {
            Err(FsdMessageParseError::InvalidTransponderMode(s.to_owned()))
        }
    }

    /// The text that stands for the value on the wire.
    pub fn to_string(&self) -> (r: String)
        ensures
            r@ == self.text(),
    {
        match self {
            TransponderMode::Standby => "S".to_owned(),
            TransponderMode::ModeC => "N".to_owned(),
            TransponderMode::Ident => "Y".to_owned(),
        }
    }
}

/// How an assigned speed or rate is to be kept: exactly, or as a bound.
#[derive(Debug, Clone, Copy, PartialEq, Eq, Structural)]
pub enum Operator {
    Exactly,
    OrLess,
    OrGreater,
}

impl Operator {
    /// The text that stands for the value on the wire.
    pub open spec fn text(&self) -> Seq<char> {
        match *self {
            Operator::Exactly => "="@,
            Operator::OrLess => "-"@,
            Operator::OrGreater => "+"@,
        }
    }

    /// The text that stands for the value on the wire.
    pub fn to_string(&self) -> (r: String)
        ensures
            r@ == self.text(),
    {
        match self {
            Operator::Exactly => "=".to_owned(),
            Operator::OrLess => "-".to_owned(),
            Operator::OrGreater => "+".to_owned(),
        }
    }
}

/// Where an aircraft on the ground is in its departure or arrival.
#[derive(Debug, Clone, Copy, PartialEq, Eq, Structural)]
pub enum GroundState {
    NoState,
    OnFrequency,
    DeIcing,
    Startup,
    Pushback,
    Taxi,
    LineUp,
    TakeOff,
    TaxiIn,
    OnBlock,
}

impl GroundState {
    /// The text that stands for the value on the wire.
    pub open spec fn text(&self) -> Seq<char> {
        match *self {
            GroundState::NoState => "NSTS"@,
            GroundState::OnFrequency => "ONFREQ"@,
            GroundState::DeIcing => "DE-ICE"@,
            GroundState::Startup => "STUP"@,
            GroundState::Pushback => "PUSH"@,
            GroundState::Taxi => "TAXI"@,
            GroundState::LineUp => "LINEUP"@,
            GroundState::TakeOff => "DEPA"@,
            GroundState::TaxiIn => "TXIN"@,
            GroundState::OnBlock => "PARK"@,
        }
    }

    /// The text that stands for the value on the wire.
    pub fn to_string(&self) -> (r: String)
        ensures
            r@ == self.text(),
    {
        match self {
            GroundState::NoState => "NSTS".to_owned(),
            GroundState::OnFrequency => "ONFREQ".to_owned(),
            GroundState::DeIcing => "DE-ICE".to_owned(),
            GroundState::Startup => "STUP".to_owned(),
            GroundState::Pushback => "PUSH".to_owned(),
            GroundState::Taxi => "TAXI".to_owned(),
            GroundState::LineUp => "LINEUP".to_owned(),
            GroundState::TakeOff => "DEPA".to_owned(),
            GroundState::TaxiIn => "TXIN".to_owned(),
            GroundState::OnBlock => "PARK".to_owned(),
        }
    }
}

/// How a pilot can communicate.
#[derive(Debug, Clone, Copy, PartialEq, Eq, Structural)]
pub enum VoiceCapability {
    Unknown,
    Voice,
    Text,
    Receive,
}

impl VoiceCapability {
    /// The text that stands for the value on the wire.
    pub open spec fn text(&self) -> Seq<char> {
        match *self {
            VoiceCapability::Unknown => ""@,
            VoiceCapability::Voice => "v"@,
            VoiceCapability::Text => "t"@,
            VoiceCapability::Receive => "r"@,
        }
    }

    /// The failure that a refused text gives.
    pub open spec fn refusal(s: Seq<char>) -> ParseFailure {
        ParseFailure::InvalidVoiceCapability(s)
    }

    /// The value that a text stands for: the empty text for `Unknown`, and
    /// one letter, in either case, for each of the others.
    pub open spec fn of_text(s: Seq<char>) -> Option<VoiceCapability> {
        if s.len() == 0 {
            Some(VoiceCapability::Unknown)
        } else {
            VoiceCapability::of_letter(lowercase(s))
        }
    }

    /// The value that a letter in lower case stands for.
    pub open spec fn of_letter(letter: Seq<char>) -> Option<VoiceCapability> {
        if letter == "v"@ {
            Some(VoiceCapability::Voice)
        } else if letter == "t"@ {
            Some(VoiceCapability::Text)
        } else if letter == "r"@ {
            Some(VoiceCapability::Receive)
        } else {
            None
        }
    }

    /// Reads a value from its letter in lower case.
    pub fn from_letter(letter: &str) -> (r: Option<VoiceCapability>)
        ensures
            r == VoiceCapability::of_letter(letter@),
    {
        if same_text(letter, "v") {
            Some(VoiceCapability::Voice)
        } else if same_text(letter, "t") {
            Some(VoiceCapability::Text)
        } else if same_text(letter, "r") {
            Some(VoiceCapability::Receive)
        } else {
            None
        }
    }

    /// Reads a value from its text.
    pub fn from_str(s: &str) -> (r: Result<VoiceCapability, FsdMessageParseError>)
        ensures
            match r {
                Ok(v) => VoiceCapability::of_text(s@) == Some(v),
                Err(e) => VoiceCapability::of_text(s@) is None && e@
                    == ParseFailure::InvalidVoiceCapability(s@),
            },
    {
        if s.is_empty() {
            return Ok(VoiceCapability::Unknown);
        }
        match VoiceCapability::from_letter(to_lower(s).as_str()) {
            Some(v) => Ok(v),
            None => Err(FsdMessageParseError::InvalidVoiceCapability(s.to_owned())),
        }
    }

    /// The text that stands for the value on the wire.
    pub fn to_string(&self) -> (r: String)
        ensures
            r@ == self.text(),
    {
        match self {
            VoiceCapability::Unknown => "".to_owned(),
            VoiceCapability::Voice => "v".to_owned(),
            VoiceCapability::Text => "t".to_owned(),
            VoiceCapability::Receive => "r".to_owned(),
        }
    }
}

} // verus!
