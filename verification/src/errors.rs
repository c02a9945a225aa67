//! Failures of decoding, and the faults a server reports.

use vstd::prelude::*;

verus! {

/// A fault reported by the server in an error message.
#[derive(Debug, Clone)]
pub enum FsdError {
    /// Attempted to log in with a callsign that is already in use
    CallsignInUse,
    /// Attempted to log in with an invalid callsign
    InvalidCallsign,
    /// Client attempted to register itself more than once
    AlreadyRegistered,
    /// Packet with invalid syntax sent to the server
    SyntaxError,
    /// Client sent a message with the wrong source callsign
    InvalidSourceCallsign,
    /// Attempted to log in with an invalid CID or password
    InvalidCidPassword,
    /// Attempted an action on a callsign that does not exist
    NoSuchCallsign(String),
    /// No flight plan exists for that callsign
    NoFlightPlan(String),
    /// No weather profile was found for this location
    NoWeatherProfile(String),
    /// The protocol version is not supported by the server
    InvalidProtocolRevision,
    /// Attempted to log in with too high a rating
    RequestedLevelTooHigh,
    /// Server is full
    ServerFull,
    /// The CID has been suspended
    CertificateSuspended,
    /// Attempted an unauthorised ATC action
    InvalidControl,
    /// The user's rating does not allow this ATC position
    InvalidPositionForRating,
    /// The client is not approved for use on the network
    UnauthorisedClient,
    /// Client did not answer the authentication challenge in time
    AuthTimeOut,
    /// Other error
    Other(String),
}

impl FsdError {
    /// The numeric code that stands for this fault on the wire.
    pub open spec fn code(&self) -> int {
        match *self {
            FsdError::CallsignInUse => 1,
            FsdError::InvalidCallsign => 2,
            FsdError::AlreadyRegistered => 3,
            FsdError::SyntaxError => 4,
            FsdError::InvalidSourceCallsign => 5,
            FsdError::InvalidCidPassword => 6,
            FsdError::NoSuchCallsign(_) => 7,
            FsdError::NoFlightPlan(_) => 8,
            FsdError::NoWeatherProfile(_) => 9,
            FsdError::InvalidProtocolRevision => 10,
            FsdError::RequestedLevelTooHigh => 11,
            FsdError::ServerFull => 12,
            FsdError::CertificateSuspended => 13,
            FsdError::InvalidControl => 14,
            FsdError::InvalidPositionForRating => 15,
            FsdError::UnauthorisedClient => 16,
            FsdError::AuthTimeOut => 17,
            FsdError::Other(_) => 18,
        }
    }

    pub fn error_number(&self) -> (n: u8)
        ensures
            n == self.code(),
            1 <= n <= 18,
    {
        match self {
            FsdError::CallsignInUse => 1,
            FsdError::InvalidCallsign => 2,
            FsdError::AlreadyRegistered => 3,
            FsdError::SyntaxError => 4,
            FsdError::InvalidSourceCallsign => 5,
            FsdError::InvalidCidPassword => 6,
            FsdError::NoSuchCallsign(_) => 7,
            FsdError::NoFlightPlan(_) => 8,
            FsdError::NoWeatherProfile(_) => 9,
            FsdError::InvalidProtocolRevision => 10,
            FsdError::RequestedLevelTooHigh => 11,
            FsdError::ServerFull => 12,
            FsdError::CertificateSuspended => 13,
            FsdError::InvalidControl => 14,
            FsdError::InvalidPositionForRating => 15,
            FsdError::UnauthorisedClient => 16,
            FsdError::AuthTimeOut => 17,
            FsdError::Other(_) => 18,
        }
    }
}

/// Why a line or a field could not be decoded. Every variant but the first
/// carries the text that was refused.
#[derive(Debug)]
pub enum FsdMessageParseError {
    /// Too few fields, or not the exact number: the count asked for, then the
    /// count found.
    InvalidFieldCount(usize, usize),
    /// The text is not a valid rating.
    InvalidRating(String),
    /// The text is not a valid protocol revision.
    InvalidProtocolRevison(String),
    /// The text is not a valid flight rules.
    InvalidFlightRules(String),
    /// The text is not a valid simulator type.
    InvalidSimulatorType(String),
    /// The text is not a valid ATC type.
    InvalidAtcType(String),
    /// The text is not a valid time.
    InvalidTime(String),
    /// The text is not a valid minute.
    InvalidMinute(String),
    /// The text is not a valid index.
    InvalidIndex(String),
    /// The text is not a valid radio frequency.
    InvalidFrequency(String),
    /// The text is not a valid visibility range.
    InvalidVisRange(String),
    /// The text is not a valid latitude or longitude.
    InvalidCoordinate(String),
    /// The text is not a valid transponder mode.
    InvalidTransponderMode(String),
    /// The text is not a valid transponder code.
    InvalidTransponderCode(String),
    /// The text is not a valid aircraft configuration.
    InvalidAircraftConfig(String),
    /// The text is not a valid packed pitch, bank and heading.
    InvalidPitchBankHeading(String),
    /// The text is not a valid altitude.
    InvalidAltitude(String),
    /// The text is not a valid altitude difference.
    InvalidAltitudeDifference(String),
    /// The text is not a valid voice capability.
    InvalidVoiceCapability(String),
    /// The text is not a valid speed.
    InvalidSpeed(String),
    /// The text is not a valid client ID.
    InvalidClientID(String),
    /// The text is not a valid version number part.
    InvalidVersionNumber(String),
    /// The text is not a valid nosewheel angle.
    InvalidNosewheelAngle(String),
    /// The text is not a valid position velocity.
    InvalidPositionVelocity(String),
    /// The text names no known message type.
    UnknownMessageType(String),
    /// The text is not a valid ping time.
    InvalidPingTime(String),
    /// The text is not a valid server error code.
    InvalidServerError(String),
    /// The text is not a valid client query type.
    InvalidClientQueryType(String),
    /// The text is not a valid new-ATIS message.
    InvalidNewAtisMessage(String),
    /// The text is not a valid valid-ATC status.
    InvalidValidAtcStatus(String),
    /// The text is not a valid ATIS line.
    InvalidATISLine(String),
    /// The text is not a valid shared state type.
    InvalidSharedStateType(String),
    /// The text is not a valid client capability.
    InvalidClientCapability(String),
    /// The text is not a valid IP address.
    InvalidIPAddress(String),
    /// The text is not a valid port.
    InvalidPort(String),
}

/// What a decoding failure says, with texts as sequences of characters.
pub enum ParseFailure {
    InvalidFieldCount(nat, nat),
    InvalidRating(Seq<char>),
    InvalidProtocolRevison(Seq<char>),
    InvalidFlightRules(Seq<char>),
    InvalidSimulatorType(Seq<char>),
    InvalidAtcType(Seq<char>),
    InvalidTime(Seq<char>),
    InvalidMinute(Seq<char>),
    InvalidIndex(Seq<char>),
    InvalidFrequency(Seq<char>),
    InvalidVisRange(Seq<char>),
    InvalidCoordinate(Seq<char>),
    InvalidTransponderMode(Seq<char>),
    InvalidTransponderCode(Seq<char>),
    InvalidAircraftConfig(Seq<char>),
    InvalidPitchBankHeading(Seq<char>),
    InvalidAltitude(Seq<char>),
    InvalidAltitudeDifference(Seq<char>),
    InvalidVoiceCapability(Seq<char>),
    InvalidSpeed(Seq<char>),
    InvalidClientID(Seq<char>),
    InvalidVersionNumber(Seq<char>),
    InvalidNosewheelAngle(Seq<char>),
    InvalidPositionVelocity(Seq<char>),
    UnknownMessageType(Seq<char>),
    InvalidPingTime(Seq<char>),
    InvalidServerError(Seq<char>),
    InvalidClientQueryType(Seq<char>),
    InvalidNewAtisMessage(Seq<char>),
    InvalidValidAtcStatus(Seq<char>),
    InvalidATISLine(Seq<char>),
    InvalidSharedStateType(Seq<char>),
    InvalidClientCapability(Seq<char>),
    InvalidIPAddress(Seq<char>),
    InvalidPort(Seq<char>),
}

impl View for FsdMessageParseError {
    type V = ParseFailure;

    open spec fn view(&self) -> ParseFailure {
        match *self {
            FsdMessageParseError::InvalidFieldCount(expected, found) => {
                ParseFailure::InvalidFieldCount(expected as nat, found as nat)
            },
            FsdMessageParseError::InvalidRating(text) => ParseFailure::InvalidRating(text@),
            FsdMessageParseError::InvalidProtocolRevison(text) => {
                ParseFailure::InvalidProtocolRevison(text@)
            },
            FsdMessageParseError::InvalidFlightRules(text) => {
                ParseFailure::InvalidFlightRules(text@)
            },
            FsdMessageParseError::InvalidSimulatorType(text) => {
                ParseFailure::InvalidSimulatorType(text@)
            },
            FsdMessageParseError::InvalidAtcType(text) => ParseFailure::InvalidAtcType(text@),
            FsdMessageParseError::InvalidTime(text) => ParseFailure::InvalidTime(text@),
            FsdMessageParseError::InvalidMinute(text) => ParseFailure::InvalidMinute(text@),
            FsdMessageParseError::InvalidIndex(text) => ParseFailure::InvalidIndex(text@),
            FsdMessageParseError::InvalidFrequency(text) => ParseFailure::InvalidFrequency(text@),
            FsdMessageParseError::InvalidVisRange(text) => ParseFailure::InvalidVisRange(text@),
            FsdMessageParseError::InvalidCoordinate(text) => ParseFailure::InvalidCoordinate(text@),
            FsdMessageParseError::InvalidTransponderMode(text) => {
                ParseFailure::InvalidTransponderMode(text@)
            },
            FsdMessageParseError::InvalidTransponderCode(text) => {
                ParseFailure::InvalidTransponderCode(text@)
            },
            FsdMessageParseError::InvalidAircraftConfig(text) => {
                ParseFailure::InvalidAircraftConfig(text@)
            },
            FsdMessageParseError::InvalidPitchBankHeading(text) => {
                ParseFailure::InvalidPitchBankHeading(text@)
            },
            FsdMessageParseError::InvalidAltitude(text) => ParseFailure::InvalidAltitude(text@),
            FsdMessageParseError::InvalidAltitudeDifference(text) => {
                ParseFailure::InvalidAltitudeDifference(text@)
            },
            FsdMessageParseError::InvalidVoiceCapability(text) => {
                ParseFailure::InvalidVoiceCapability(text@)
            },
            FsdMessageParseError::InvalidSpeed(text) => ParseFailure::InvalidSpeed(text@),
            FsdMessageParseError::InvalidClientID(text) => ParseFailure::InvalidClientID(text@),
            FsdMessageParseError::InvalidVersionNumber(text) => {
                ParseFailure::InvalidVersionNumber(text@)
            },
            FsdMessageParseError::InvalidNosewheelAngle(text) => {
                ParseFailure::InvalidNosewheelAngle(text@)
            },
            FsdMessageParseError::InvalidPositionVelocity(text) => {
                ParseFailure::InvalidPositionVelocity(text@)
            },
            FsdMessageParseError::UnknownMessageType(text) => {
                ParseFailure::UnknownMessageType(text@)
            },
            FsdMessageParseError::InvalidPingTime(text) => ParseFailure::InvalidPingTime(text@),
            FsdMessageParseError::InvalidServerError(text) => {
                ParseFailure::InvalidServerError(text@)
            },
            FsdMessageParseError::InvalidClientQueryType(text) => {
                ParseFailure::InvalidClientQueryType(text@)
            },
            FsdMessageParseError::InvalidNewAtisMessage(text) => {
                ParseFailure::InvalidNewAtisMessage(text@)
            },
            FsdMessageParseError::InvalidValidAtcStatus(text) => {
                ParseFailure::InvalidValidAtcStatus(text@)
            },
            FsdMessageParseError::InvalidATISLine(text) => ParseFailure::InvalidATISLine(text@),
            FsdMessageParseError::InvalidSharedStateType(text) => {
                ParseFailure::InvalidSharedStateType(text@)
            },
            FsdMessageParseError::InvalidClientCapability(text) => {
                ParseFailure::InvalidClientCapability(text@)
            },
            FsdMessageParseError::InvalidIPAddress(text) => ParseFailure::InvalidIPAddress(text@),
            FsdMessageParseError::InvalidPort(text) => ParseFailure::InvalidPort(text@),
        }
    }
}

} // verus!
