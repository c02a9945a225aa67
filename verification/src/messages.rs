//! The messages of the protocol, one record for each kind.

pub mod records;
pub mod query;
pub mod response;
pub mod shared_state;
pub mod chat;
pub mod plans;
pub mod position;

pub use self::records::{
    AtcDeregisterMessage, AtcRegisterMessage, AuthenticationChallengeMessage,
    AuthenticationResponseMessage, ChangeServerMessage, HandoffAcceptMessage, HandoffOfferMessage,
    InitialClientHandshakeMessage, InitialServerHandshakeMessage, KillMessage, MetarRequestMessage,
    MetarResponseMessage, PilotDeregisterMessage, PingMessage, PlaneInfoRequestMessage, PongMessage,
    SendFastPositionUpdatesMessage,
};
pub use self::query::ClientQueryMessage;
pub use self::response::ClientQueryResponseMessage;
pub use self::shared_state::SharedStateMessage;
pub use self::chat::{FrequencyMessage, PilotRegisterMessage, TextMessage};
pub use self::plans::{
    FlightPlanAmendmentMessage, FlightPlanMessage, FsdErrorMessage, PlaneInfoResponseMessage,
};
pub use self::position::{
    AtcPositionUpdateMessage, AtcSecondaryVisCentreMessage, PilotPositionUpdateMessage,
    VelocityPositionFastMessage, VelocityPositionSlowMessage, VelocityPositionStoppedMessage,
};
