//! A codec for the colon-delimited FSD protocol spoken between flight-simulation
//! clients and their relay servers.

use vstd::prelude::*;

pub mod errors;
pub mod text;
pub mod numbers;
pub mod structs;
pub mod enums;
pub mod util;
pub mod scratchpad;
pub mod sim_time;
pub mod aircraft_config;
pub mod messages;
pub mod message_type;

pub use crate::aircraft_config::{AircraftEngine, AircraftEnginesConfig, AircraftLightsConfig};
pub use crate::enums::{
    AtcRating, AtcType, ClientCapability, FlightRules, GroundState, Operator, PilotRating,
    ProtocolRevision, SimulatorType, TransponderMode, VoiceCapability,
};
pub use crate::message_type::{FsdMessageType, MessageKind};
pub use crate::messages::query::ClientQueryType;
pub use crate::messages::response::{AtisLine, ClientResponseType};
pub use crate::messages::shared_state::SharedStateType;
pub use crate::scratchpad::ScratchPad;
pub use crate::sim_time::SimTime;
pub use crate::structs::{FlightPlan, PlaneInfo, RadioFrequency, TransponderCode};

use crate::errors::FsdMessageParseError;
use crate::text::split;

verus! {

/// The callsign of the server in the messages that it sends.
pub const SERVER_CALLSIGN: &'static str = "SERVER";

/// The receiver of the queries that concern an aircraft and no one
/// controller.
pub const AIRCRAFT_HANDLER_RECIPIENT: &'static str = "@94835";

/// Reads a message from a line of text.
///
/// Where the line is a message of a known kind, the message is returned in
/// the variant of its kind; where it is not, the failure says what was
/// refused.
pub fn parse_message(message: &str) -> (r: Result<FsdMessageType, FsdMessageParseError>)
    ensures
        match r {
            Ok(m) => FsdMessageType::rejection(split(message@, ':', ':')) is None
                && FsdMessageType::decodes(split(message@, ':', ':'), m),
            Err(e) => FsdMessageType::rejection(split(message@, ':', ':')) == Some(e@),
        },
{
    FsdMessageType::identify(message)
}

} // verus!
