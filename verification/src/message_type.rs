//! The union of all messages, and the dispatcher that tells from the
//! marker of a line which message it is.

use vstd::prelude::*;
use vstd::string::*;
use crate::errors::{FsdMessageParseError, ParseFailure};
use crate::messages::chat::{FrequencyMessage, PilotRegisterMessage, TextMessage};
use crate::messages::plans::{
    FlightPlanAmendmentMessage, FlightPlanMessage, FsdErrorMessage, PlaneInfoResponseMessage,
};
use crate::messages::position::{
    AtcPositionUpdateMessage, AtcSecondaryVisCentreMessage, PilotPositionUpdateMessage,
    VelocityPositionFastMessage, VelocityPositionSlowMessage, VelocityPositionStoppedMessage,
};
use crate::messages::query::ClientQueryMessage;
use crate::messages::records::{
    AtcDeregisterMessage, AtcRegisterMessage, AuthenticationChallengeMessage,
    AuthenticationResponseMessage, ChangeServerMessage, HandoffAcceptMessage, HandoffOfferMessage,
    InitialClientHandshakeMessage, InitialServerHandshakeMessage, KillMessage, MetarRequestMessage,
    MetarResponseMessage, PilotDeregisterMessage, PingMessage, PlaneInfoRequestMessage, PongMessage,
    SendFastPositionUpdatesMessage,
};
use crate::messages::response::ClientQueryResponseMessage;
use crate::messages::shared_state::SharedStateMessage;
use crate::text::{
    begins_with, borrow_all, join, join_from, lemma_join_split, same_text, split, split_on,
    starts_with, texts, views,
};

verus! {

/// The kinds of message.
#[derive(Debug, Clone, Copy, PartialEq, Eq, Structural)]
pub enum MessageKind {
    AtcRegisterMessage,
    PilotRegisterMessage,
    AtcDeregisterMessage,
    PilotDeregisterMessage,
    AtcPositionUpdateMessage,
    AtcSecondaryVisCentreMessage,
    PilotPositionUpdateMessage,
    AuthenticationChallengeMessage,
    AuthenticationResponseMessage,
    TextMessage,
    FrequencyMessage,
    ChangeServerMessage,
    InitialServerHandshakeMessage,
    InitialClientHandshakeMessage,
    SendFastPositionUpdatesMessage,
    VelocityPositionStoppedMessage,
    VelocityPositionSlowMessage,
    VelocityPositionFastMessage,
    KillMessage,
    MetarRequestMessage,
    MetarResponseMessage,
    PingMessage,
    PongMessage,
    PlaneInfoRequestMessage,
    PlaneInfoResponseMessage,
    FsdErrorMessage,
    FlightPlanMessage,
    FlightPlanAmendmentMessage,
    FSInnPlaneInformationRequestMessage,
    FSInnPlaneInformationResponseMessage,
    ServerHeartbeat,
    ClientQueryMessage,
    ClientQueryResponseMessage,
    HandoffOfferMessage,
    HandoffAcceptMessage,
    SharedStateMessage,
}

/// A message of any kind.
#[derive(Debug, Clone)]
pub enum FsdMessageType {
    AtcRegisterMessage(AtcRegisterMessage),
    PilotRegisterMessage(PilotRegisterMessage),
    AtcDeregisterMessage(AtcDeregisterMessage),
    PilotDeregisterMessage(PilotDeregisterMessage),
    AtcPositionUpdateMessage(AtcPositionUpdateMessage),
    AtcSecondaryVisCentreMessage(AtcSecondaryVisCentreMessage),
    PilotPositionUpdateMessage(PilotPositionUpdateMessage),
    AuthenticationChallengeMessage(AuthenticationChallengeMessage),
    AuthenticationResponseMessage(AuthenticationResponseMessage),
    TextMessage(TextMessage),
    FrequencyMessage(FrequencyMessage),
    ChangeServerMessage(ChangeServerMessage),
    InitialServerHandshakeMessage(InitialServerHandshakeMessage),
    InitialClientHandshakeMessage(InitialClientHandshakeMessage),
    SendFastPositionUpdatesMessage(SendFastPositionUpdatesMessage),
    VelocityPositionStoppedMessage(VelocityPositionStoppedMessage),
    VelocityPositionSlowMessage(VelocityPositionSlowMessage),
    VelocityPositionFastMessage(VelocityPositionFastMessage),
    KillMessage(KillMessage),
    MetarRequestMessage(MetarRequestMessage),
    MetarResponseMessage(MetarResponseMessage),
    PingMessage(PingMessage),
    PongMessage(PongMessage),
    PlaneInfoRequestMessage(PlaneInfoRequestMessage),
    PlaneInfoResponseMessage(PlaneInfoResponseMessage),
    FsdErrorMessage(FsdErrorMessage),
    FlightPlanMessage(FlightPlanMessage),
    FlightPlanAmendmentMessage(FlightPlanAmendmentMessage),
    /// A request for plane information in the FSInn form; it carries nothing more.
    FSInnPlaneInformationRequestMessage,
    /// Plane information in the FSInn form; it carries nothing more.
    FSInnPlaneInformationResponseMessage,
    /// The heartbeat of the server; it carries nothing more.
    ServerHeartbeat,
    ClientQueryMessage(ClientQueryMessage),
    ClientQueryResponseMessage(ClientQueryResponseMessage),
    HandoffOfferMessage(HandoffOfferMessage),
    HandoffAcceptMessage(HandoffAcceptMessage),
    SharedStateMessage(SharedStateMessage),
}

/// The kind of message that the fields of a line belong to, told from the
/// marker in front of the first field, or `None` where the marker is not
/// known. A line of one field can only be a deregistration. A text message
/// whose second field begins with `@` is text on frequencies; a line with
/// the marker `#SB` is told apart by its third field.
pub open spec fn kind_of(f: Seq<Seq<char>>) -> Option<MessageKind> {
    if f.len() < 1 {
        None
    } else if begins_with(f[0], "#DA"@) {
        Some(MessageKind::AtcDeregisterMessage)
    } else if begins_with(f[0], "#DP"@) {
        Some(MessageKind::PilotDeregisterMessage)
    } else if f.len() < 2 {
        None
    } else if begins_with(f[0], "#AA"@) {
        Some(MessageKind::AtcRegisterMessage)
    } else if begins_with(f[0], "#AP"@) {
        Some(MessageKind::PilotRegisterMessage)
    } else if begins_with(f[0], "%"@) {
        Some(MessageKind::AtcPositionUpdateMessage)
    } else if begins_with(f[0], "'"@) {
        Some(MessageKind::AtcSecondaryVisCentreMessage)
    } else if begins_with(f[0], "@"@) {
        Some(MessageKind::PilotPositionUpdateMessage)
    } else if begins_with(f[0], "$ZC"@) {
        Some(MessageKind::AuthenticationChallengeMessage)
    } else if begins_with(f[0], "$ZR"@) {
        Some(MessageKind::AuthenticationResponseMessage)
    } else if begins_with(f[0], "$ER"@) {
        Some(MessageKind::FsdErrorMessage)
    } else if begins_with(f[0], "$HO"@) {
        Some(MessageKind::HandoffOfferMessage)
    } else if begins_with(f[0], "$HA"@) {
        Some(MessageKind::HandoffAcceptMessage)
    } else if begins_with(f[0], "#TM"@) {
        if begins_with(f[1], "@"@) {
            Some(MessageKind::FrequencyMessage)
        } else {
            Some(MessageKind::TextMessage)
        }
    } else if begins_with(f[0], "$XX"@) {
        Some(MessageKind::ChangeServerMessage)
    } else if begins_with(f[0], "$FP"@) {
        Some(MessageKind::FlightPlanMessage)
    } else if begins_with(f[0], "$AM"@) {
        Some(MessageKind::FlightPlanAmendmentMessage)
    } else if begins_with(f[0], "$DI"@) {
        Some(MessageKind::InitialServerHandshakeMessage)
    } else if begins_with(f[0], "$ID"@) {
        Some(MessageKind::InitialClientHandshakeMessage)
    } else if begins_with(f[0], "$SF"@) {
        Some(MessageKind::SendFastPositionUpdatesMessage)
    } else if begins_with(f[0], "#ST"@) {
        Some(MessageKind::VelocityPositionStoppedMessage)
    } else if begins_with(f[0], "#DL"@) {
        Some(MessageKind::ServerHeartbeat)
    } else if begins_with(f[0], "#SL"@) {
        Some(MessageKind::VelocityPositionSlowMessage)
    } else if begins_with(f[0], "#PC"@) {
        Some(MessageKind::SharedStateMessage)
    } else if begins_with(f[0], "^"@) {
        Some(MessageKind::VelocityPositionFastMessage)
    } else if begins_with(f[0], "$!!"@) {
        Some(MessageKind::KillMessage)
    } else if begins_with(f[0], "$AX"@) {
        Some(MessageKind::MetarRequestMessage)
    } else if begins_with(f[0], "$AR"@) {
        Some(MessageKind::MetarResponseMessage)
    } else if begins_with(f[0], "$CQ"@) {
        Some(MessageKind::ClientQueryMessage)
    } else if begins_with(f[0], "$CR"@) {
        Some(MessageKind::ClientQueryResponseMessage)
    } else if begins_with(f[0], "$PI"@) {
        Some(MessageKind::PingMessage)
    } else if begins_with(f[0], "$PO"@) {
        Some(MessageKind::PongMessage)
    } else if begins_with(f[0], "#SB"@) && f.len() >= 3 {
        if f[2] == "PIR"@ {
            Some(MessageKind::PlaneInfoRequestMessage)
        } else if f[2] == "PI"@ {
            Some(MessageKind::PlaneInfoResponseMessage)
        } else if f[2] == "FSIPI"@ {
            Some(MessageKind::FSInnPlaneInformationResponseMessage)
        } else if f[2] == "FSIPIR"@ {
            Some(MessageKind::FSInnPlaneInformationRequestMessage)
        } else {
            None
        }
    } else {
        None
    }
}

/// The number of fields that a line of the kind must have: at least, or, for
/// a flight plan and its amendment, exactly.
pub open spec fn fields_asked(kind: MessageKind) -> nat {
    match kind {
        MessageKind::AtcRegisterMessage => 7,
        MessageKind::PilotRegisterMessage => 7,
        MessageKind::AtcDeregisterMessage => 2,
        MessageKind::PilotDeregisterMessage => 2,
        MessageKind::AtcPositionUpdateMessage => 7,
        MessageKind::AtcSecondaryVisCentreMessage => 4,
        MessageKind::PilotPositionUpdateMessage => 10,
        MessageKind::AuthenticationChallengeMessage => 3,
        MessageKind::AuthenticationResponseMessage => 3,
        MessageKind::TextMessage => 3,
        MessageKind::FrequencyMessage => 3,
        MessageKind::ChangeServerMessage => 3,
        MessageKind::InitialServerHandshakeMessage => 3,
        MessageKind::InitialClientHandshakeMessage => 8,
        MessageKind::SendFastPositionUpdatesMessage => 3,
        MessageKind::VelocityPositionStoppedMessage => 6,
        MessageKind::VelocityPositionSlowMessage => 12,
        MessageKind::VelocityPositionFastMessage => 12,
        MessageKind::KillMessage => 2,
        MessageKind::MetarRequestMessage => 4,
        MessageKind::MetarResponseMessage => 4,
        MessageKind::PingMessage => 3,
        MessageKind::PongMessage => 3,
        MessageKind::PlaneInfoRequestMessage => 3,
        MessageKind::PlaneInfoResponseMessage => 5,
        MessageKind::FsdErrorMessage => 5,
        MessageKind::FlightPlanMessage => 17,
        MessageKind::FlightPlanAmendmentMessage => 18,
        MessageKind::FSInnPlaneInformationRequestMessage => 0,
        MessageKind::FSInnPlaneInformationResponseMessage => 0,
        MessageKind::ServerHeartbeat => 0,
        MessageKind::ClientQueryMessage => 3,
        MessageKind::ClientQueryResponseMessage => 4,
        MessageKind::HandoffOfferMessage => 3,
        MessageKind::HandoffAcceptMessage => 3,
        MessageKind::SharedStateMessage => 4,
    }
}

/// Whether a line of the kind may have `count` fields.
pub open spec fn takes_count(kind: MessageKind, count: nat) -> bool {
    match kind {
        MessageKind::FlightPlanMessage | MessageKind::FlightPlanAmendmentMessage => count
            == fields_asked(kind),
        _ => count >= fields_asked(kind),
    }
}

/// Tells the kind of message from the fields of a line.
#[verifier::rlimit(40)]
pub fn classify(fields: &[&str]) -> (r: Option<MessageKind>)
    ensures
        r == kind_of(texts(fields@)),
{
    let ghost f = texts(fields@);
    if fields.len() < 1 {
        return None;
    }
    assert(forall|i: int| 0 <= i < fields.len() ==> f[i] == (#[trigger] fields@[i])@);
    let first = fields[0];
    if starts_with(first, "#DA") {
        return Some(MessageKind::AtcDeregisterMessage);
    }
    if starts_with(first, "#DP") {
        return Some(MessageKind::PilotDeregisterMessage);
    }
    if fields.len() < 2 {
        return None;
    }
    if starts_with(first, "#AA") {
        return Some(MessageKind::AtcRegisterMessage);
    }
    if starts_with(first, "#AP") {
        return Some(MessageKind::PilotRegisterMessage);
    }
    if starts_with(first, "%") {
        return Some(MessageKind::AtcPositionUpdateMessage);
    }
    if starts_with(first, "'") {
        return Some(MessageKind::AtcSecondaryVisCentreMessage);
    }
    if starts_with(first, "@") {
        return Some(MessageKind::PilotPositionUpdateMessage);
    }
    if starts_with(first, "$ZC") {
        return Some(MessageKind::AuthenticationChallengeMessage);
    }
    if starts_with(first, "$ZR") {
        return Some(MessageKind::AuthenticationResponseMessage);
    }
    if starts_with(first, "$ER") {
        return Some(MessageKind::FsdErrorMessage);
    }
    if starts_with(first, "$HO") {
        return Some(MessageKind::HandoffOfferMessage);
    }
    if starts_with(first, "$HA") {
        return Some(MessageKind::HandoffAcceptMessage);
    }
    if starts_with(first, "#TM") {
        if starts_with(fields[1], "@") {
            return Some(MessageKind::FrequencyMessage);
        }
        return Some(MessageKind::TextMessage);
    }
    if starts_with(first, "$XX") {
        return Some(MessageKind::ChangeServerMessage);
    }
    if starts_with(first, "$FP") {
        return Some(MessageKind::FlightPlanMessage);
    }
    if starts_with(first, "$AM") {
        return Some(MessageKind::FlightPlanAmendmentMessage);
    }
    if starts_with(first, "$DI") {
        return Some(MessageKind::InitialServerHandshakeMessage);
    }
    if starts_with(first, "$ID") {
        return Some(MessageKind::InitialClientHandshakeMessage);
    }
    if starts_with(first, "$SF") {
        return Some(MessageKind::SendFastPositionUpdatesMessage);
    }
    if starts_with(first, "#ST") {
        return Some(MessageKind::VelocityPositionStoppedMessage);
    }
    if starts_with(first, "#DL") {
        return Some(MessageKind::ServerHeartbeat);
    }
    if starts_with(first, "#SL") {
        return Some(MessageKind::VelocityPositionSlowMessage);
    }
    if starts_with(first, "#PC") {
        return Some(MessageKind::SharedStateMessage);
    }
    if starts_with(first, "^") {
        return Some(MessageKind::VelocityPositionFastMessage);
    }
    if starts_with(first, "$!!") {
        return Some(MessageKind::KillMessage);
    }
    if starts_with(first, "$AX") {
        return Some(MessageKind::MetarRequestMessage);
    }
    if starts_with(first, "$AR") {
        return Some(MessageKind::MetarResponseMessage);
    }
    if starts_with(first, "$CQ") {
        return Some(MessageKind::ClientQueryMessage);
    }
    if starts_with(first, "$CR") {
        return Some(MessageKind::ClientQueryResponseMessage);
    }
    if starts_with(first, "$PI") {
        return Some(MessageKind::PingMessage);
    }
    if starts_with(first, "$PO") {
        return Some(MessageKind::PongMessage);
    }
    if starts_with(first, "#SB") && fields.len() >= 3 {
        if same_text(fields[2], "PIR") {
            return Some(MessageKind::PlaneInfoRequestMessage);
        }
        if same_text(fields[2], "PI") {
            return Some(MessageKind::PlaneInfoResponseMessage);
        }
        if same_text(fields[2], "FSIPI") {
            return Some(MessageKind::FSInnPlaneInformationResponseMessage);
        }
        if same_text(fields[2], "FSIPIR") {
            return Some(MessageKind::FSInnPlaneInformationRequestMessage);
        }
        return None;
    }
    None
}

impl FsdMessageType {
    /// The kind of the message.
    pub open spec fn kind(&self) -> MessageKind {
        match *self {
            FsdMessageType::AtcRegisterMessage(_) => MessageKind::AtcRegisterMessage,
            FsdMessageType::PilotRegisterMessage(_) => MessageKind::PilotRegisterMessage,
            FsdMessageType::AtcDeregisterMessage(_) => MessageKind::AtcDeregisterMessage,
            FsdMessageType::PilotDeregisterMessage(_) => MessageKind::PilotDeregisterMessage,
            FsdMessageType::AtcPositionUpdateMessage(_) => MessageKind::AtcPositionUpdateMessage,
            FsdMessageType::AtcSecondaryVisCentreMessage(_) => {
                MessageKind::AtcSecondaryVisCentreMessage
            },
            FsdMessageType::PilotPositionUpdateMessage(_) => {
                MessageKind::PilotPositionUpdateMessage
            },
            FsdMessageType::AuthenticationChallengeMessage(_) => {
                MessageKind::AuthenticationChallengeMessage
            },
            FsdMessageType::AuthenticationResponseMessage(_) => {
                MessageKind::AuthenticationResponseMessage
            },
            FsdMessageType::TextMessage(_) => MessageKind::TextMessage,
            FsdMessageType::FrequencyMessage(_) => MessageKind::FrequencyMessage,
            FsdMessageType::ChangeServerMessage(_) => MessageKind::ChangeServerMessage,
            FsdMessageType::InitialServerHandshakeMessage(_) => {
                MessageKind::InitialServerHandshakeMessage
            },
            FsdMessageType::InitialClientHandshakeMessage(_) => {
                MessageKind::InitialClientHandshakeMessage
            },
            FsdMessageType::SendFastPositionUpdatesMessage(_) => {
                MessageKind::SendFastPositionUpdatesMessage
            },
            FsdMessageType::VelocityPositionStoppedMessage(_) => {
                MessageKind::VelocityPositionStoppedMessage
            },
            FsdMessageType::VelocityPositionSlowMessage(_) => {
                MessageKind::VelocityPositionSlowMessage
            },
            FsdMessageType::VelocityPositionFastMessage(_) => {
                MessageKind::VelocityPositionFastMessage
            },
            FsdMessageType::KillMessage(_) => MessageKind::KillMessage,
            FsdMessageType::MetarRequestMessage(_) => MessageKind::MetarRequestMessage,
            FsdMessageType::MetarResponseMessage(_) => MessageKind::MetarResponseMessage,
            FsdMessageType::PingMessage(_) => MessageKind::PingMessage,
            FsdMessageType::PongMessage(_) => MessageKind::PongMessage,
            FsdMessageType::PlaneInfoRequestMessage(_) => MessageKind::PlaneInfoRequestMessage,
            FsdMessageType::PlaneInfoResponseMessage(_) => MessageKind::PlaneInfoResponseMessage,
            FsdMessageType::FsdErrorMessage(_) => MessageKind::FsdErrorMessage,
            FsdMessageType::FlightPlanMessage(_) => MessageKind::FlightPlanMessage,
            FsdMessageType::FlightPlanAmendmentMessage(_) => {
                MessageKind::FlightPlanAmendmentMessage
            },
            FsdMessageType::FSInnPlaneInformationRequestMessage => {
                MessageKind::FSInnPlaneInformationRequestMessage
            },
            FsdMessageType::FSInnPlaneInformationResponseMessage => {
                MessageKind::FSInnPlaneInformationResponseMessage
            },
            FsdMessageType::ServerHeartbeat => MessageKind::ServerHeartbeat,
            FsdMessageType::ClientQueryMessage(_) => MessageKind::ClientQueryMessage,
            FsdMessageType::ClientQueryResponseMessage(_) => {
                MessageKind::ClientQueryResponseMessage
            },
            FsdMessageType::HandoffOfferMessage(_) => MessageKind::HandoffOfferMessage,
            FsdMessageType::HandoffAcceptMessage(_) => MessageKind::HandoffAcceptMessage,
            FsdMessageType::SharedStateMessage(_) => MessageKind::SharedStateMessage,
        }
    }

    /// Why the fields of a line are refused, or `None` where they are
    /// accepted: the marker is not known, which gives the whole line back, or
    /// the message of that kind refuses the fields.
    pub open spec fn rejection(f: Seq<Seq<char>>) -> Option<ParseFailure> {
        match kind_of(f) {
            None => if f.len() == 2 && begins_with(f[0], "#SB"@) {
                Some(ParseFailure::InvalidFieldCount(3, 2))
            } else {
                Some(ParseFailure::UnknownMessageType(join(f, ':')))
            },
            Some(MessageKind::AtcRegisterMessage) => AtcRegisterMessage::rejection(f),
            Some(MessageKind::PilotRegisterMessage) => PilotRegisterMessage::rejection(f),
            Some(MessageKind::AtcDeregisterMessage) => AtcDeregisterMessage::rejection(f),
            Some(MessageKind::PilotDeregisterMessage) => PilotDeregisterMessage::rejection(f),
            Some(MessageKind::AtcPositionUpdateMessage) => AtcPositionUpdateMessage::rejection(f),
            Some(MessageKind::AtcSecondaryVisCentreMessage) => {
                AtcSecondaryVisCentreMessage::rejection(f)
            },
            Some(MessageKind::PilotPositionUpdateMessage) => {
                PilotPositionUpdateMessage::rejection(f)
            },
            Some(MessageKind::AuthenticationChallengeMessage) => {
                AuthenticationChallengeMessage::rejection(f)
            },
            Some(MessageKind::AuthenticationResponseMessage) => {
                AuthenticationResponseMessage::rejection(f)
            },
            Some(MessageKind::TextMessage) => TextMessage::rejection(f),
            Some(MessageKind::FrequencyMessage) => FrequencyMessage::rejection(f),
            Some(MessageKind::ChangeServerMessage) => ChangeServerMessage::rejection(f),
            Some(MessageKind::InitialServerHandshakeMessage) => {
                InitialServerHandshakeMessage::rejection(f)
            },
            Some(MessageKind::InitialClientHandshakeMessage) => {
                InitialClientHandshakeMessage::rejection(f)
            },
            Some(MessageKind::SendFastPositionUpdatesMessage) => {
                SendFastPositionUpdatesMessage::rejection(f)
            },
            Some(MessageKind::VelocityPositionStoppedMessage) => {
                VelocityPositionStoppedMessage::rejection(f)
            },
            Some(MessageKind::VelocityPositionSlowMessage) => {
                VelocityPositionSlowMessage::rejection(f)
            },
            Some(MessageKind::VelocityPositionFastMessage) => {
                VelocityPositionFastMessage::rejection(f)
            },
            Some(MessageKind::KillMessage) => KillMessage::rejection(f),
            Some(MessageKind::MetarRequestMessage) => MetarRequestMessage::rejection(f),
            Some(MessageKind::MetarResponseMessage) => MetarResponseMessage::rejection(f),
            Some(MessageKind::PingMessage) => PingMessage::rejection(f),
            Some(MessageKind::PongMessage) => PongMessage::rejection(f),
            Some(MessageKind::PlaneInfoRequestMessage) => PlaneInfoRequestMessage::rejection(f),
            Some(MessageKind::PlaneInfoResponseMessage) => PlaneInfoResponseMessage::rejection(f),
            Some(MessageKind::FsdErrorMessage) => FsdErrorMessage::rejection(f),
            Some(MessageKind::FlightPlanMessage) => FlightPlanMessage::rejection(f),
            Some(MessageKind::FlightPlanAmendmentMessage) => {
                FlightPlanAmendmentMessage::rejection(f)
            },
            Some(MessageKind::FSInnPlaneInformationRequestMessage) => None,
            Some(MessageKind::FSInnPlaneInformationResponseMessage) => None,
            Some(MessageKind::ServerHeartbeat) => None,
            Some(MessageKind::ClientQueryMessage) => ClientQueryMessage::rejection(f),
            Some(MessageKind::ClientQueryResponseMessage) => {
                ClientQueryResponseMessage::rejection(f)
            },
            Some(MessageKind::HandoffOfferMessage) => HandoffOfferMessage::rejection(f),
            Some(MessageKind::HandoffAcceptMessage) => HandoffAcceptMessage::rejection(f),
            Some(MessageKind::SharedStateMessage) => SharedStateMessage::rejection(f),
        }
    }

    /// Whether the accepted fields of a line are read as the message `m`:
    /// `m` is of the kind that the marker tells, and the fields are read as
    /// what it carries.
    pub open spec fn decodes(f: Seq<Seq<char>>, m: FsdMessageType) -> bool {
        kind_of(f) == Some(m.kind()) && match m {
            FsdMessageType::AtcRegisterMessage(inner) => AtcRegisterMessage::decodes(f, inner),
            FsdMessageType::PilotRegisterMessage(inner) => PilotRegisterMessage::decodes(f, inner),
            FsdMessageType::AtcDeregisterMessage(inner) => AtcDeregisterMessage::decodes(f, inner),
            FsdMessageType::PilotDeregisterMessage(inner) => {
                PilotDeregisterMessage::decodes(f, inner)
            },
            FsdMessageType::AtcPositionUpdateMessage(inner) => {
                AtcPositionUpdateMessage::decodes(f, inner)
            },
            FsdMessageType::AtcSecondaryVisCentreMessage(inner) => {
                AtcSecondaryVisCentreMessage::decodes(f, inner)
            },
            FsdMessageType::PilotPositionUpdateMessage(inner) => {
                PilotPositionUpdateMessage::decodes(f, inner)
            },
            FsdMessageType::AuthenticationChallengeMessage(inner) => {
                AuthenticationChallengeMessage::decodes(f, inner)
            },
            FsdMessageType::AuthenticationResponseMessage(inner) => {
                AuthenticationResponseMessage::decodes(f, inner)
            },
            FsdMessageType::TextMessage(inner) => TextMessage::decodes(f, inner),
            FsdMessageType::FrequencyMessage(inner) => FrequencyMessage::decodes(f, inner),
            FsdMessageType::ChangeServerMessage(inner) => ChangeServerMessage::decodes(f, inner),
            FsdMessageType::InitialServerHandshakeMessage(inner) => {
                InitialServerHandshakeMessage::decodes(f, inner)
            },
            FsdMessageType::InitialClientHandshakeMessage(inner) => {
                InitialClientHandshakeMessage::decodes(f, inner)
            },
            FsdMessageType::SendFastPositionUpdatesMessage(inner) => {
                SendFastPositionUpdatesMessage::decodes(f, inner)
            },
            FsdMessageType::VelocityPositionStoppedMessage(inner) => {
                VelocityPositionStoppedMessage::decodes(f, inner)
            },
            FsdMessageType::VelocityPositionSlowMessage(inner) => {
                VelocityPositionSlowMessage::decodes(f, inner)
            },
            FsdMessageType::VelocityPositionFastMessage(inner) => {
                VelocityPositionFastMessage::decodes(f, inner)
            },
            FsdMessageType::KillMessage(inner) => KillMessage::decodes(f, inner),
            FsdMessageType::MetarRequestMessage(inner) => MetarRequestMessage::decodes(f, inner),
            FsdMessageType::MetarResponseMessage(inner) => MetarResponseMessage::decodes(f, inner),
            FsdMessageType::PingMessage(inner) => PingMessage::decodes(f, inner),
            FsdMessageType::PongMessage(inner) => PongMessage::decodes(f, inner),
            FsdMessageType::PlaneInfoRequestMessage(inner) => {
                PlaneInfoRequestMessage::decodes(f, inner)
            },
            FsdMessageType::PlaneInfoResponseMessage(inner) => {
                PlaneInfoResponseMessage::decodes(f, inner)
            },
            FsdMessageType::FsdErrorMessage(inner) => FsdErrorMessage::decodes(f, inner),
            FsdMessageType::FlightPlanMessage(inner) => FlightPlanMessage::decodes(f, inner),
            FsdMessageType::FlightPlanAmendmentMessage(inner) => {
                FlightPlanAmendmentMessage::decodes(f, inner)
            },
            FsdMessageType::FSInnPlaneInformationRequestMessage => true,
            FsdMessageType::FSInnPlaneInformationResponseMessage => true,
            FsdMessageType::ServerHeartbeat => true,
            FsdMessageType::ClientQueryMessage(inner) => ClientQueryMessage::decodes(f, inner),
            FsdMessageType::ClientQueryResponseMessage(inner) => {
                ClientQueryResponseMessage::decodes(f, inner)
            },
            FsdMessageType::HandoffOfferMessage(inner) => HandoffOfferMessage::decodes(f, inner),
            FsdMessageType::HandoffAcceptMessage(inner) => HandoffAcceptMessage::decodes(f, inner),
            FsdMessageType::SharedStateMessage(inner) => SharedStateMessage::decodes(f, inner),
        }
    }

    /// The line that is written for the message. The three kinds that
    /// carry nothing are written as their marker and what tells them apart.
    pub open spec fn wire(&self) -> Seq<char> {
        match *self {
            FsdMessageType::AtcRegisterMessage(inner) => inner.wire(),
            FsdMessageType::PilotRegisterMessage(inner) => inner.wire(),
            FsdMessageType::AtcDeregisterMessage(inner) => inner.wire(),
            FsdMessageType::PilotDeregisterMessage(inner) => inner.wire(),
            FsdMessageType::AtcPositionUpdateMessage(inner) => inner.wire(),
            FsdMessageType::AtcSecondaryVisCentreMessage(inner) => inner.wire(),
            FsdMessageType::PilotPositionUpdateMessage(inner) => inner.wire(),
            FsdMessageType::AuthenticationChallengeMessage(inner) => inner.wire(),
            FsdMessageType::AuthenticationResponseMessage(inner) => inner.wire(),
            FsdMessageType::TextMessage(inner) => inner.wire(),
            FsdMessageType::FrequencyMessage(inner) => inner.wire(),
            FsdMessageType::ChangeServerMessage(inner) => inner.wire(),
            FsdMessageType::InitialServerHandshakeMessage(inner) => inner.wire(),
            FsdMessageType::InitialClientHandshakeMessage(inner) => inner.wire(),
            FsdMessageType::SendFastPositionUpdatesMessage(inner) => inner.wire(),
            FsdMessageType::VelocityPositionStoppedMessage(inner) => inner.wire(),
            FsdMessageType::VelocityPositionSlowMessage(inner) => inner.wire(),
            FsdMessageType::VelocityPositionFastMessage(inner) => inner.wire(),
            FsdMessageType::KillMessage(inner) => inner.wire(),
            FsdMessageType::MetarRequestMessage(inner) => inner.wire(),
            FsdMessageType::MetarResponseMessage(inner) => inner.wire(),
            FsdMessageType::PingMessage(inner) => inner.wire(),
            FsdMessageType::PongMessage(inner) => inner.wire(),
            FsdMessageType::PlaneInfoRequestMessage(inner) => inner.wire(),
            FsdMessageType::PlaneInfoResponseMessage(inner) => inner.wire(),
            FsdMessageType::FsdErrorMessage(inner) => inner.wire(),
            FsdMessageType::FlightPlanMessage(inner) => inner.wire(),
            FsdMessageType::FlightPlanAmendmentMessage(inner) => inner.wire(),
            FsdMessageType::FSInnPlaneInformationRequestMessage => "#SB::FSIPIR"@,
            FsdMessageType::FSInnPlaneInformationResponseMessage => "#SB::FSIPI"@,
            FsdMessageType::ServerHeartbeat => "#DL:"@,
            FsdMessageType::ClientQueryMessage(inner) => inner.wire(),
            FsdMessageType::ClientQueryResponseMessage(inner) => inner.wire(),
            FsdMessageType::HandoffOfferMessage(inner) => inner.wire(),
            FsdMessageType::HandoffAcceptMessage(inner) => inner.wire(),
            FsdMessageType::SharedStateMessage(inner) => inner.wire(),
        }
    }

    /// Reads a message from the fields of its line.
    #[verifier::rlimit(40)]
    pub fn from_fields(fields: &[&str]) -> (r: Result<FsdMessageType, FsdMessageParseError>)
        ensures
            match r {
                Ok(m) => FsdMessageType::rejection(texts(fields@)) is None
                    && FsdMessageType::decodes(texts(fields@), m),
                Err(e) => FsdMessageType::rejection(texts(fields@)) == Some(e@),
            },
    {
        let ghost f = texts(fields@);
        let kind = match classify(fields) {
            Some(kind) => kind,
            None => {
                if fields.len() == 2 && starts_with(fields[0], "#SB") {
                    assert(f[0] == fields@[0]@);
                    return Err(FsdMessageParseError::InvalidFieldCount(3, 2));
                }
                let line = join_from(fields, 0, ':');
                assert(f.subrange(0, f.len() as int) =~= f);
                return Err(FsdMessageParseError::UnknownMessageType(line));
            },
        };
        match kind {
            MessageKind::AtcRegisterMessage => {
                match AtcRegisterMessage::try_from(fields) {
                    Ok(inner) => Ok(FsdMessageType::AtcRegisterMessage(inner)),
                    Err(e) => Err(e),
                }
            },
            MessageKind::PilotRegisterMessage => {
                match PilotRegisterMessage::try_from(fields) {
                    Ok(inner) => Ok(FsdMessageType::PilotRegisterMessage(inner)),
                    Err(e) => Err(e),
                }
            },
            MessageKind::AtcDeregisterMessage => {
                match AtcDeregisterMessage::try_from(fields) {
                    Ok(inner) => Ok(FsdMessageType::AtcDeregisterMessage(inner)),
                    Err(e) => Err(e),
                }
            },
            MessageKind::PilotDeregisterMessage => {
                match PilotDeregisterMessage::try_from(fields) {
                    Ok(inner) => Ok(FsdMessageType::PilotDeregisterMessage(inner)),
                    Err(e) => Err(e),
                }
            },
            MessageKind::AtcPositionUpdateMessage => {
                match AtcPositionUpdateMessage::try_from(fields) {
                    Ok(inner) => Ok(FsdMessageType::AtcPositionUpdateMessage(inner)),
                    Err(e) => Err(e),
                }
            },
            MessageKind::AtcSecondaryVisCentreMessage => {
                match AtcSecondaryVisCentreMessage::try_from(fields) {
                    Ok(inner) => Ok(FsdMessageType::AtcSecondaryVisCentreMessage(inner)),
                    Err(e) => Err(e),
                }
            },
            MessageKind::PilotPositionUpdateMessage => {
                match PilotPositionUpdateMessage::try_from(fields) {
                    Ok(inner) => Ok(FsdMessageType::PilotPositionUpdateMessage(inner)),
                    Err(e) => Err(e),
                }
            },
            MessageKind::AuthenticationChallengeMessage => {
                match AuthenticationChallengeMessage::try_from(fields) {
                    Ok(inner) => Ok(FsdMessageType::AuthenticationChallengeMessage(inner)),
                    Err(e) => Err(e),
                }
            },
            MessageKind::AuthenticationResponseMessage => {
                match AuthenticationResponseMessage::try_from(fields) {
                    Ok(inner) => Ok(FsdMessageType::AuthenticationResponseMessage(inner)),
                    Err(e) => Err(e),
                }
            },
            MessageKind::TextMessage => {
                match TextMessage::try_from(fields) {
                    Ok(inner) => Ok(FsdMessageType::TextMessage(inner)),
                    Err(e) => Err(e),
                }
            },
            MessageKind::FrequencyMessage => {
                match FrequencyMessage::try_from(fields) {
                    Ok(inner) => Ok(FsdMessageType::FrequencyMessage(inner)),
                    Err(e) => Err(e),
                }
            },
            MessageKind::ChangeServerMessage => {
                match ChangeServerMessage::try_from(fields) {
                    Ok(inner) => Ok(FsdMessageType::ChangeServerMessage(inner)),
                    Err(e) => Err(e),
                }
            },
            MessageKind::InitialServerHandshakeMessage => {
                match InitialServerHandshakeMessage::try_from(fields) {
                    Ok(inner) => Ok(FsdMessageType::InitialServerHandshakeMessage(inner)),
                    Err(e) => Err(e),
                }
            },
            MessageKind::InitialClientHandshakeMessage => {
                match InitialClientHandshakeMessage::try_from(fields) {
                    Ok(inner) => Ok(FsdMessageType::InitialClientHandshakeMessage(inner)),
                    Err(e) => Err(e),
                }
            },
            MessageKind::SendFastPositionUpdatesMessage => {
                match SendFastPositionUpdatesMessage::try_from(fields) {
                    Ok(inner) => Ok(FsdMessageType::SendFastPositionUpdatesMessage(inner)),
                    Err(e) => Err(e),
                }
            },
            MessageKind::VelocityPositionStoppedMessage => {
                match VelocityPositionStoppedMessage::try_from(fields) {
                    Ok(inner) => Ok(FsdMessageType::VelocityPositionStoppedMessage(inner)),
                    Err(e) => Err(e),
                }
            },
            MessageKind::VelocityPositionSlowMessage => {
                match VelocityPositionSlowMessage::try_from(fields) {
                    Ok(inner) => Ok(FsdMessageType::VelocityPositionSlowMessage(inner)),
                    Err(e) => Err(e),
                }
            },
            MessageKind::VelocityPositionFastMessage => {
                match VelocityPositionFastMessage::try_from(fields) {
                    Ok(inner) => Ok(FsdMessageType::VelocityPositionFastMessage(inner)),
                    Err(e) => Err(e),
                }
            },
            MessageKind::KillMessage => {
                match KillMessage::try_from(fields) {
                    Ok(inner) => Ok(FsdMessageType::KillMessage(inner)),
                    Err(e) => Err(e),
                }
            },
            MessageKind::MetarRequestMessage => {
                match MetarRequestMessage::try_from(fields) {
                    Ok(inner) => Ok(FsdMessageType::MetarRequestMessage(inner)),
                    Err(e) => Err(e),
                }
            },
            MessageKind::MetarResponseMessage => {
                match MetarResponseMessage::try_from(fields) {
                    Ok(inner) => Ok(FsdMessageType::MetarResponseMessage(inner)),
                    Err(e) => Err(e),
                }
            },
            MessageKind::PingMessage => {
                match PingMessage::try_from(fields) {
                    Ok(inner) => Ok(FsdMessageType::PingMessage(inner)),
                    Err(e) => Err(e),
                }
            },
            MessageKind::PongMessage => {
                match PongMessage::try_from(fields) {
                    Ok(inner) => Ok(FsdMessageType::PongMessage(inner)),
                    Err(e) => Err(e),
                }
            },
            MessageKind::PlaneInfoRequestMessage => {
                match PlaneInfoRequestMessage::try_from(fields) {
                    Ok(inner) => Ok(FsdMessageType::PlaneInfoRequestMessage(inner)),
                    Err(e) => Err(e),
                }
            },
            MessageKind::PlaneInfoResponseMessage => {
                match PlaneInfoResponseMessage::try_from(fields) {
                    Ok(inner) => Ok(FsdMessageType::PlaneInfoResponseMessage(inner)),
                    Err(e) => Err(e),
                }
            },
            MessageKind::FsdErrorMessage => {
                match FsdErrorMessage::try_from(fields) {
                    Ok(inner) => Ok(FsdMessageType::FsdErrorMessage(inner)),
                    Err(e) => Err(e),
                }
            },
            MessageKind::FlightPlanMessage => {
                match FlightPlanMessage::try_from(fields) {
                    Ok(inner) => Ok(FsdMessageType::FlightPlanMessage(inner)),
                    Err(e) => Err(e),
                }
            },
            MessageKind::FlightPlanAmendmentMessage => {
                match FlightPlanAmendmentMessage::try_from(fields) {
                    Ok(inner) => Ok(FsdMessageType::FlightPlanAmendmentMessage(inner)),
                    Err(e) => Err(e),
                }
            },
            MessageKind::FSInnPlaneInformationRequestMessage => {
                Ok(FsdMessageType::FSInnPlaneInformationRequestMessage)
            },
            MessageKind::FSInnPlaneInformationResponseMessage => {
                Ok(FsdMessageType::FSInnPlaneInformationResponseMessage)
            },
            MessageKind::ServerHeartbeat => Ok(FsdMessageType::ServerHeartbeat),
            MessageKind::ClientQueryMessage => {
                match ClientQueryMessage::try_from(fields) {
                    Ok(inner) => Ok(FsdMessageType::ClientQueryMessage(inner)),
                    Err(e) => Err(e),
                }
            },
            MessageKind::ClientQueryResponseMessage => {
                match ClientQueryResponseMessage::try_from(fields) {
                    Ok(inner) => Ok(FsdMessageType::ClientQueryResponseMessage(inner)),
                    Err(e) => Err(e),
                }
            },
            MessageKind::HandoffOfferMessage => {
                match HandoffOfferMessage::try_from(fields) {
                    Ok(inner) => Ok(FsdMessageType::HandoffOfferMessage(inner)),
                    Err(e) => Err(e),
                }
            },
            MessageKind::HandoffAcceptMessage => {
                match HandoffAcceptMessage::try_from(fields) {
                    Ok(inner) => Ok(FsdMessageType::HandoffAcceptMessage(inner)),
                    Err(e) => Err(e),
                }
            },
            MessageKind::SharedStateMessage => {
                match SharedStateMessage::try_from(fields) {
                    Ok(inner) => Ok(FsdMessageType::SharedStateMessage(inner)),
                    Err(e) => Err(e),
                }
            },
        }
    }

    /// Reads a message from a line: the line is split at its colons, the
    /// marker of the first field tells the kind, and the message of that
    /// kind reads the fields.
    pub fn identify(message: &str) -> (r: Result<FsdMessageType, FsdMessageParseError>)
        ensures
            match r {
                Ok(m) => FsdMessageType::rejection(split(message@, ':', ':')) is None
                    && FsdMessageType::decodes(split(message@, ':', ':'), m),
                Err(e) => FsdMessageType::rejection(split(message@, ':', ':')) == Some(e@),
            },
    {
        let pieces = split_on(message, ':', ':');
        let fields = borrow_all(&pieces);
        proof {
            assert(views(pieces@) =~= split(message@, ':', ':'));
        }
        FsdMessageType::from_fields(fields.as_slice())
    }

    /// The line that is written for the message.
    pub fn to_string(&self) -> (r: String)
        ensures
            r@ == self.wire(),
    {
        match self {
            FsdMessageType::AtcRegisterMessage(inner) => inner.to_string(),
            FsdMessageType::PilotRegisterMessage(inner) => inner.to_string(),
            FsdMessageType::AtcDeregisterMessage(inner) => inner.to_string(),
            FsdMessageType::PilotDeregisterMessage(inner) => inner.to_string(),
            FsdMessageType::AtcPositionUpdateMessage(inner) => inner.to_string(),
            FsdMessageType::AtcSecondaryVisCentreMessage(inner) => inner.to_string(),
            FsdMessageType::PilotPositionUpdateMessage(inner) => inner.to_string(),
            FsdMessageType::AuthenticationChallengeMessage(inner) => inner.to_string(),
            FsdMessageType::AuthenticationResponseMessage(inner) => inner.to_string(),
            FsdMessageType::TextMessage(inner) => inner.to_string(),
            FsdMessageType::FrequencyMessage(inner) => inner.to_string(),
            FsdMessageType::ChangeServerMessage(inner) => inner.to_string(),
            FsdMessageType::InitialServerHandshakeMessage(inner) => inner.to_string(),
            FsdMessageType::InitialClientHandshakeMessage(inner) => inner.to_string(),
            FsdMessageType::SendFastPositionUpdatesMessage(inner) => inner.to_string(),
            FsdMessageType::VelocityPositionStoppedMessage(inner) => inner.to_string(),
            FsdMessageType::VelocityPositionSlowMessage(inner) => inner.to_string(),
            FsdMessageType::VelocityPositionFastMessage(inner) => inner.to_string(),
            FsdMessageType::KillMessage(inner) => inner.to_string(),
            FsdMessageType::MetarRequestMessage(inner) => inner.to_string(),
            FsdMessageType::MetarResponseMessage(inner) => inner.to_string(),
            FsdMessageType::PingMessage(inner) => inner.to_string(),
            FsdMessageType::PongMessage(inner) => inner.to_string(),
            FsdMessageType::PlaneInfoRequestMessage(inner) => inner.to_string(),
            FsdMessageType::PlaneInfoResponseMessage(inner) => inner.to_string(),
            FsdMessageType::FsdErrorMessage(inner) => inner.to_string(),
            FsdMessageType::FlightPlanMessage(inner) => inner.to_string(),
            FsdMessageType::FlightPlanAmendmentMessage(inner) => inner.to_string(),
            FsdMessageType::FSInnPlaneInformationRequestMessage => "#SB::FSIPIR".to_owned(),
            FsdMessageType::FSInnPlaneInformationResponseMessage => "#SB::FSIPI".to_owned(),
            FsdMessageType::ServerHeartbeat => "#DL:".to_owned(),
            FsdMessageType::ClientQueryMessage(inner) => inner.to_string(),
            FsdMessageType::ClientQueryResponseMessage(inner) => inner.to_string(),
            FsdMessageType::HandoffOfferMessage(inner) => inner.to_string(),
            FsdMessageType::HandoffAcceptMessage(inner) => inner.to_string(),
            FsdMessageType::SharedStateMessage(inner) => inner.to_string(),
        }
    }

    /// A line with a number of fields that its kind does not take is refused
    /// with the number asked for and the number found.
    pub proof fn law_field_count(f: Seq<Seq<char>>)
        requires
            kind_of(f) is Some,
            !takes_count(kind_of(f)->0, f.len()),
        ensures
            FsdMessageType::rejection(f) == Some(
                ParseFailure::InvalidFieldCount(fields_asked(kind_of(f)->0), f.len()),
            ),
    {
    }

    /// Whether the fields of a line are written as the message of their
    /// kind writes them.
    pub open spec fn canonical(f: Seq<Seq<char>>) -> bool {
        match kind_of(f) {
            Some(MessageKind::AtcRegisterMessage) => AtcRegisterMessage::canonical(f),
            Some(MessageKind::PilotRegisterMessage) => PilotRegisterMessage::canonical(f),
            Some(MessageKind::AtcDeregisterMessage) => AtcDeregisterMessage::canonical(f),
            Some(MessageKind::PilotDeregisterMessage) => PilotDeregisterMessage::canonical(f),
            Some(MessageKind::AtcPositionUpdateMessage) => AtcPositionUpdateMessage::canonical(f),
            Some(MessageKind::AtcSecondaryVisCentreMessage) => {
                AtcSecondaryVisCentreMessage::canonical(f)
            },
            Some(MessageKind::PilotPositionUpdateMessage) => {
                PilotPositionUpdateMessage::canonical(f)
            },
            Some(MessageKind::AuthenticationChallengeMessage) => {
                AuthenticationChallengeMessage::canonical(f)
            },
            Some(MessageKind::AuthenticationResponseMessage) => {
                AuthenticationResponseMessage::canonical(f)
            },
            Some(MessageKind::TextMessage) => TextMessage::canonical(f),
            Some(MessageKind::FrequencyMessage) => FrequencyMessage::canonical(f),
            Some(MessageKind::ChangeServerMessage) => ChangeServerMessage::canonical(f),
            Some(MessageKind::InitialServerHandshakeMessage) => {
                InitialServerHandshakeMessage::canonical(f)
            },
            Some(MessageKind::InitialClientHandshakeMessage) => {
                InitialClientHandshakeMessage::canonical(f)
            },
            Some(MessageKind::SendFastPositionUpdatesMessage) => {
                SendFastPositionUpdatesMessage::canonical(f)
            },
            Some(MessageKind::VelocityPositionStoppedMessage) => {
                VelocityPositionStoppedMessage::canonical(f)
            },
            Some(MessageKind::VelocityPositionSlowMessage) => {
                VelocityPositionSlowMessage::canonical(f)
            },
            Some(MessageKind::VelocityPositionFastMessage) => {
                VelocityPositionFastMessage::canonical(f)
            },
            Some(MessageKind::KillMessage) => KillMessage::canonical(f),
            Some(MessageKind::MetarRequestMessage) => MetarRequestMessage::canonical(f),
            Some(MessageKind::MetarResponseMessage) => MetarResponseMessage::canonical(f),
            Some(MessageKind::PingMessage) => PingMessage::canonical(f),
            Some(MessageKind::PongMessage) => PongMessage::canonical(f),
            Some(MessageKind::PlaneInfoRequestMessage) => PlaneInfoRequestMessage::canonical(f),
            Some(MessageKind::PlaneInfoResponseMessage) => PlaneInfoResponseMessage::canonical(f),
            Some(MessageKind::FsdErrorMessage) => FsdErrorMessage::canonical(f),
            Some(MessageKind::FlightPlanMessage) => FlightPlanMessage::canonical(f),
            Some(MessageKind::FlightPlanAmendmentMessage) => {
                FlightPlanAmendmentMessage::canonical(f)
            },
            Some(MessageKind::FSInnPlaneInformationRequestMessage) => {
                f == seq!["#SB"@, ""@, "FSIPIR"@]
            },
            Some(MessageKind::FSInnPlaneInformationResponseMessage) => {
                f == seq!["#SB"@, ""@, "FSIPI"@]
            },
            Some(MessageKind::ServerHeartbeat) => f == seq!["#DL"@, ""@],
            Some(MessageKind::ClientQueryMessage) => ClientQueryMessage::canonical(f),
            Some(MessageKind::ClientQueryResponseMessage) => {
                ClientQueryResponseMessage::canonical(f)
            },
            Some(MessageKind::HandoffOfferMessage) => HandoffOfferMessage::canonical(f),
            Some(MessageKind::HandoffAcceptMessage) => HandoffAcceptMessage::canonical(f),
            Some(MessageKind::SharedStateMessage) => SharedStateMessage::canonical(f),
            None => false,
        }
    }

    /// A line in the form in which its message is written is read as a
    /// message that is written as that very line.
    #[verifier::rlimit(40)]
    pub proof fn law_round_trip(line: Seq<char>, m: FsdMessageType)
        requires
            FsdMessageType::canonical(split(line, ':', ':')),
            FsdMessageType::decodes(split(line, ':', ':'), m),
        ensures
            m.wire() == line,
    {
        let f = split(line, ':', ':');
        lemma_join_split(line, ':');
        match m {
            FsdMessageType::AtcRegisterMessage(inner) => {
                assert(kind_of(f) == Some(MessageKind::AtcRegisterMessage));
                AtcRegisterMessage::law_round_trip(f, inner);
            },
            FsdMessageType::PilotRegisterMessage(inner) => {
                assert(kind_of(f) == Some(MessageKind::PilotRegisterMessage));
                PilotRegisterMessage::law_round_trip(f, inner);
            },
            FsdMessageType::AtcDeregisterMessage(inner) => {
                assert(kind_of(f) == Some(MessageKind::AtcDeregisterMessage));
                AtcDeregisterMessage::law_round_trip(f, inner);
            },
            FsdMessageType::PilotDeregisterMessage(inner) => {
                assert(kind_of(f) == Some(MessageKind::PilotDeregisterMessage));
                PilotDeregisterMessage::law_round_trip(f, inner);
            },
            FsdMessageType::AtcPositionUpdateMessage(inner) => {
                assert(kind_of(f) == Some(MessageKind::AtcPositionUpdateMessage));
                AtcPositionUpdateMessage::law_round_trip(f, inner);
            },
            FsdMessageType::AtcSecondaryVisCentreMessage(inner) => {
                assert(kind_of(f) == Some(MessageKind::AtcSecondaryVisCentreMessage));
                AtcSecondaryVisCentreMessage::law_round_trip(f, inner);
            },
            FsdMessageType::PilotPositionUpdateMessage(inner) => {
                assert(kind_of(f) == Some(MessageKind::PilotPositionUpdateMessage));
                PilotPositionUpdateMessage::law_round_trip(f, inner);
            },
            FsdMessageType::AuthenticationChallengeMessage(inner) => {
                assert(kind_of(f) == Some(MessageKind::AuthenticationChallengeMessage));
                AuthenticationChallengeMessage::law_round_trip(f, inner);
            },
            FsdMessageType::AuthenticationResponseMessage(inner) => {
                assert(kind_of(f) == Some(MessageKind::AuthenticationResponseMessage));
                AuthenticationResponseMessage::law_round_trip(f, inner);
            },
            FsdMessageType::TextMessage(inner) => {
                assert(kind_of(f) == Some(MessageKind::TextMessage));
                TextMessage::law_round_trip(f, inner);
            },
            FsdMessageType::FrequencyMessage(inner) => {
                assert(kind_of(f) == Some(MessageKind::FrequencyMessage));
                FrequencyMessage::law_round_trip(f, inner);
            },
            FsdMessageType::ChangeServerMessage(inner) => {
                assert(kind_of(f) == Some(MessageKind::ChangeServerMessage));
                ChangeServerMessage::law_round_trip(f, inner);
            },
            FsdMessageType::InitialServerHandshakeMessage(inner) => {
                assert(kind_of(f) == Some(MessageKind::InitialServerHandshakeMessage));
                InitialServerHandshakeMessage::law_round_trip(f, inner);
            },
            FsdMessageType::InitialClientHandshakeMessage(inner) => {
                assert(kind_of(f) == Some(MessageKind::InitialClientHandshakeMessage));
                InitialClientHandshakeMessage::law_round_trip(f, inner);
            },
            FsdMessageType::SendFastPositionUpdatesMessage(inner) => {
                assert(kind_of(f) == Some(MessageKind::SendFastPositionUpdatesMessage));
                SendFastPositionUpdatesMessage::law_round_trip(f, inner);
            },
            FsdMessageType::VelocityPositionStoppedMessage(inner) => {
                assert(kind_of(f) == Some(MessageKind::VelocityPositionStoppedMessage));
                VelocityPositionStoppedMessage::law_round_trip(f, inner);
            },
            FsdMessageType::VelocityPositionSlowMessage(inner) => {
                assert(kind_of(f) == Some(MessageKind::VelocityPositionSlowMessage));
                VelocityPositionSlowMessage::law_round_trip(f, inner);
            },
            FsdMessageType::VelocityPositionFastMessage(inner) => {
                assert(kind_of(f) == Some(MessageKind::VelocityPositionFastMessage));
                VelocityPositionFastMessage::law_round_trip(f, inner);
            },
            FsdMessageType::KillMessage(inner) => {
                assert(kind_of(f) == Some(MessageKind::KillMessage));
                KillMessage::law_round_trip(f, inner);
            },
            FsdMessageType::MetarRequestMessage(inner) => {
                assert(kind_of(f) == Some(MessageKind::MetarRequestMessage));
                MetarRequestMessage::law_round_trip(f, inner);
            },
            FsdMessageType::MetarResponseMessage(inner) => {
                assert(kind_of(f) == Some(MessageKind::MetarResponseMessage));
                MetarResponseMessage::law_round_trip(f, inner);
            },
            FsdMessageType::PingMessage(inner) => {
                assert(kind_of(f) == Some(MessageKind::PingMessage));
                PingMessage::law_round_trip(f, inner);
            },
            FsdMessageType::PongMessage(inner) => {
                assert(kind_of(f) == Some(MessageKind::PongMessage));
                PongMessage::law_round_trip(f, inner);
            },
            FsdMessageType::PlaneInfoRequestMessage(inner) => {
                assert(kind_of(f) == Some(MessageKind::PlaneInfoRequestMessage));
                PlaneInfoRequestMessage::law_round_trip(f, inner);
            },
            FsdMessageType::PlaneInfoResponseMessage(inner) => {
                assert(kind_of(f) == Some(MessageKind::PlaneInfoResponseMessage));
                PlaneInfoResponseMessage::law_round_trip(f, inner);
            },
            FsdMessageType::FsdErrorMessage(inner) => {
                assert(kind_of(f) == Some(MessageKind::FsdErrorMessage));
                FsdErrorMessage::law_round_trip(f, inner);
            },
            FsdMessageType::FlightPlanMessage(inner) => {
                assert(kind_of(f) == Some(MessageKind::FlightPlanMessage));
                FlightPlanMessage::law_round_trip(f, inner);
            },
            FsdMessageType::FlightPlanAmendmentMessage(inner) => {
                assert(kind_of(f) == Some(MessageKind::FlightPlanAmendmentMessage));
                FlightPlanAmendmentMessage::law_round_trip(f, inner);
            },
            FsdMessageType::FSInnPlaneInformationRequestMessage => {
                reveal_strlit("");
                reveal_strlit("#SB");
                reveal_strlit("#SB::FSIPIR");
                reveal_strlit("FSIPIR");
                let two = f.drop_last();
                assert(two =~= seq![f[0], f[1]]);
                assert(two.drop_last() =~= seq![f[0]]);
                assert(join(two.drop_last(), ':') == f[0]);
                assert(join(two, ':') == f[0].push(':') + f[1]);
                assert(join(f, ':') == join(two, ':').push(':') + f[2]);
                assert(join(f, ':') =~= "#SB::FSIPIR"@);
            },
            FsdMessageType::FSInnPlaneInformationResponseMessage => {
                reveal_strlit("");
                reveal_strlit("#SB");
                reveal_strlit("#SB::FSIPI");
                reveal_strlit("FSIPI");
                let two = f.drop_last();
                assert(two =~= seq![f[0], f[1]]);
                assert(two.drop_last() =~= seq![f[0]]);
                assert(join(two.drop_last(), ':') == f[0]);
                assert(join(two, ':') == f[0].push(':') + f[1]);
                assert(join(f, ':') == join(two, ':').push(':') + f[2]);
                assert(join(f, ':') =~= "#SB::FSIPI"@);
            },
            FsdMessageType::ServerHeartbeat => {
                reveal_strlit("");
                reveal_strlit("#DL");
                reveal_strlit("#DL:");
                assert(f.drop_last() =~= seq![f[0]]);
                assert(join(f.drop_last(), ':') == f[0]);
                assert(join(f, ':') == f[0].push(':') + f[1]);
                assert(join(f, ':') =~= "#DL:"@);
            },
            FsdMessageType::ClientQueryMessage(inner) => {
                assert(kind_of(f) == Some(MessageKind::ClientQueryMessage));
                ClientQueryMessage::law_round_trip(f, inner);
            },
            FsdMessageType::ClientQueryResponseMessage(inner) => {
                assert(kind_of(f) == Some(MessageKind::ClientQueryResponseMessage));
                ClientQueryResponseMessage::law_round_trip(f, inner);
            },
            FsdMessageType::HandoffOfferMessage(inner) => {
                assert(kind_of(f) == Some(MessageKind::HandoffOfferMessage));
                HandoffOfferMessage::law_round_trip(f, inner);
            },
            FsdMessageType::HandoffAcceptMessage(inner) => {
                assert(kind_of(f) == Some(MessageKind::HandoffAcceptMessage));
                HandoffAcceptMessage::law_round_trip(f, inner);
            },
            FsdMessageType::SharedStateMessage(inner) => {
                assert(kind_of(f) == Some(MessageKind::SharedStateMessage));
                SharedStateMessage::law_round_trip(f, inner);
            },
        }
    }
}

} // verus!
