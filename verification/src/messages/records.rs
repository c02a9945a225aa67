//! The messages whose fields stand one for one on the wire: registration,
//! handshakes, authentication, pings, weather requests and handoffs.

use vstd::prelude::*;
use vstd::string::*;
use crate::enums::{AtcRating, ProtocolRevision};
use crate::errors::{FsdMessageParseError, ParseFailure};
use crate::numbers::{
    is_padded_number, is_plain_number, number_text, numeral, padded, padded_text, parse_unsigned,
    unsigned_value,
};
use crate::text::{
    begins_with, field_if_present, field_or_empty, followed_by, is_upper, join, join_strings,
    optional_text, optional_view, owned, same_text, skip_prefix, texts, to_upper, uppercase, views,
    without_prefix,
};

verus! {

/// Sent by a controller client to register itself on the network after the
/// initial handshake.
#[derive(Debug, Clone)]
pub struct AtcRegisterMessage {
    pub from: String,
    pub to: String,
    pub real_name: String,
    pub cid: String,
    pub password: String,
    pub rating: AtcRating,
    pub protocol: ProtocolRevision,
}

impl AtcRegisterMessage {
    /// The fields that are written for the message, in order, the first
    /// behind the marker of its kind.
    pub open spec fn fields(&self) -> Seq<Seq<char>> {
        seq![
            "#AA"@ + self.from@,
            self.to@,
            self.real_name@,
            self.cid@,
            self.password@,
            numeral(self.rating.code(), false),
            numeral(self.protocol.code(), false),
        ]
    }

    /// The line that is written for the message.
    pub open spec fn wire(&self) -> Seq<char> {
        join(self.fields(), ':')
    }

    /// Why a list of fields is refused, or `None` where it is accepted.
    /// The count is tested first, then the fields in their order.
    pub open spec fn rejection(f: Seq<Seq<char>>) -> Option<ParseFailure> {
        if f.len() < 7 {
            Some(ParseFailure::InvalidFieldCount(7, f.len()))
        } else if AtcRating::of_text(f[5]) is None {
            Some(AtcRating::refusal(f[5]))
        } else if ProtocolRevision::of_text(f[6]) is None {
            Some(ProtocolRevision::refusal(f[6]))
        } else {
            None
        }
    }

    /// Whether an accepted list of fields is read as the message `m`.
    pub open spec fn decodes(f: Seq<Seq<char>>, m: AtcRegisterMessage) -> bool {
        &&& f.len() >= 7
        &&& m.from@ == uppercase(without_prefix(f[0], 3))
        &&& m.to@ == uppercase(f[1])
        &&& m.real_name@ == f[2]
        &&& m.cid@ == f[3]
        &&& m.password@ == f[4]
        &&& AtcRating::of_text(f[5]) == Some(m.rating)
        &&& ProtocolRevision::of_text(f[6]) == Some(m.protocol)
    }

    /// Whether a list of fields is written as the message writes it: the
    /// marker in front, callsigns in upper case, numbers without sign or
    /// needless zeros, and no field more than is written.
    pub open spec fn canonical(f: Seq<Seq<char>>) -> bool {
        &&& f.len() == 7
        &&& begins_with(f[0], "#AA"@)
        &&& is_upper(without_prefix(f[0], 3))
        &&& is_upper(f[1])
        &&& AtcRating::of_text(f[5]) is Some ==> numeral(
            AtcRating::of_text(f[5])->0.code(),
            false,
        ) == f[5]
        &&& ProtocolRevision::of_text(f[6]) is Some ==> numeral(
            ProtocolRevision::of_text(f[6])->0.code(),
            false,
        ) == f[6]
    }

    /// The message of the given parts, its callsigns put in upper case.
    pub fn new(
        from: &str,
        to: &str,
        real_name: &str,
        cid: &str,
        password: &str,
        rating: AtcRating,
        protocol: ProtocolRevision,
    ) -> (m: AtcRegisterMessage)
        ensures
            m.from@ == uppercase(from@),
            m.to@ == uppercase(to@),
            m.real_name@ == real_name@,
            m.cid@ == cid@,
            m.password@ == password@,
            m.rating == rating,
            m.protocol == protocol,
    {
        AtcRegisterMessage {
            from: to_upper(from),
            to: to_upper(to),
            real_name: real_name.to_owned(),
            cid: cid.to_owned(),
            password: password.to_owned(),
            rating,
            protocol,
        }
    }

    /// Reads the message from the fields of its line.
    pub fn try_from(fields: &[&str]) -> (r: Result<AtcRegisterMessage, FsdMessageParseError>)
        ensures
            match r {
                Ok(m) => AtcRegisterMessage::rejection(texts(fields@)) is None
                    && AtcRegisterMessage::decodes(texts(fields@), m),
                Err(e) => AtcRegisterMessage::rejection(texts(fields@)) == Some(e@),
            },
    {
        let ghost f = texts(fields@);
        if fields.len() < 7 {
            return Err(FsdMessageParseError::InvalidFieldCount(7, fields.len()));
        }
        assert(forall|i: int| 0 <= i < fields.len() ==> f[i] == (#[trigger] fields@[i])@);
        let first = skip_prefix(fields[0], 3);
        let rating = match AtcRating::from_str(fields[5]) {
            Ok(v) => v,
            Err(e) => {
                return Err(e);
            },
        };
        let protocol = match ProtocolRevision::from_str(fields[6]) {
            Ok(v) => v,
            Err(e) => {
                return Err(e);
            },
        };
        Ok(
            AtcRegisterMessage::new(
                first.as_str(),
                fields[1],
                fields[2],
                fields[3],
                fields[4],
                rating,
                protocol,
            ),
        )
    }

    /// The line that is written for the message.
    pub fn to_string(&self) -> (r: String)
        ensures
            r@ == self.wire(),
    {
        let mut parts: Vec<String> = Vec::new();
        parts.push(followed_by("#AA", self.from.as_str()));
        parts.push(self.to.clone());
        parts.push(self.real_name.clone());
        parts.push(self.cid.clone());
        parts.push(self.password.clone());
        parts.push(number_text(self.rating.number() as u64));
        parts.push(number_text(self.protocol.number() as u64));
        let r = join_strings(&parts, 0, ':');
        proof {
            assert(views(parts@) =~= self.fields());
            assert(views(parts@).subrange(0, parts.len() as int) =~= views(parts@));
        }
        r
    }

    /// A line in the form in which the message is written is read as a
    /// message that is written as that very line.
    pub proof fn law_round_trip(f: Seq<Seq<char>>, m: AtcRegisterMessage)
        requires
            AtcRegisterMessage::canonical(f),
            AtcRegisterMessage::decodes(f, m),
        ensures
            m.fields() == f,
            m.wire() == join(f, ':'),
    {
        reveal_strlit("#AA");
        assert("#AA"@ + without_prefix(f[0], 3) =~= f[0]);
        assert(m.fields() =~= f);
    }
}

/// Sent by a controller client before it disconnects.
#[derive(Debug, Clone)]
pub struct AtcDeregisterMessage {
    pub from: String,
    pub cid: String,
}

impl AtcDeregisterMessage {
    /// The fields that are written for the message, in order, the first
    /// behind the marker of its kind.
    pub open spec fn fields(&self) -> Seq<Seq<char>> {
        seq![
            "#DA"@ + self.from@,
            self.cid@,
        ]
    }

    /// The line that is written for the message.
    pub open spec fn wire(&self) -> Seq<char> {
        join(self.fields(), ':')
    }

    /// Why a list of fields is refused, or `None` where it is accepted.
    pub open spec fn rejection(f: Seq<Seq<char>>) -> Option<ParseFailure> {
        if f.len() < 2 {
            Some(ParseFailure::InvalidFieldCount(2, f.len()))
        } else {
            None
        }
    }

    /// Whether an accepted list of fields is read as the message `m`.
    pub open spec fn decodes(f: Seq<Seq<char>>, m: AtcDeregisterMessage) -> bool {
        &&& f.len() >= 2
        &&& m.from@ == uppercase(without_prefix(f[0], 3))
        &&& m.cid@ == f[1]
    }

    /// Whether a list of fields is written as the message writes it: the
    /// marker in front, callsigns in upper case, numbers without sign or
    /// needless zeros, and no field more than is written.
    pub open spec fn canonical(f: Seq<Seq<char>>) -> bool {
        &&& f.len() == 2
        &&& begins_with(f[0], "#DA"@)
        &&& is_upper(without_prefix(f[0], 3))
    }

    /// The message of the given parts, its callsign put in upper case.
    pub fn new(from: &str, cid: &str) -> (m: AtcDeregisterMessage)
        ensures
            m.from@ == uppercase(from@),
            m.cid@ == cid@,
    {
        AtcDeregisterMessage {
            from: to_upper(from),
            cid: cid.to_owned(),
        }
    }

    /// Reads the message from the fields of its line.
    pub fn try_from(fields: &[&str]) -> (r: Result<AtcDeregisterMessage, FsdMessageParseError>)
        ensures
            match r {
                Ok(m) => AtcDeregisterMessage::rejection(texts(fields@)) is None
                    && AtcDeregisterMessage::decodes(texts(fields@), m),
                Err(e) => AtcDeregisterMessage::rejection(texts(fields@)) == Some(e@),
            },
    {
        let ghost f = texts(fields@);
        if fields.len() < 2 {
            return Err(FsdMessageParseError::InvalidFieldCount(2, fields.len()));
        }
        assert(forall|i: int| 0 <= i < fields.len() ==> f[i] == (#[trigger] fields@[i])@);
        let first = skip_prefix(fields[0], 3);
        Ok(AtcDeregisterMessage::new(first.as_str(), fields[1]))
    }

    /// The line that is written for the message.
    pub fn to_string(&self) -> (r: String)
        ensures
            r@ == self.wire(),
    {
        let mut parts: Vec<String> = Vec::new();
        parts.push(followed_by("#DA", self.from.as_str()));
        parts.push(self.cid.clone());
        let r = join_strings(&parts, 0, ':');
        proof {
            assert(views(parts@) =~= self.fields());
            assert(views(parts@).subrange(0, parts.len() as int) =~= views(parts@));
        }
        r
    }

    /// A line in the form in which the message is written is read as a
    /// message that is written as that very line.
    pub proof fn law_round_trip(f: Seq<Seq<char>>, m: AtcDeregisterMessage)
        requires
            AtcDeregisterMessage::canonical(f),
            AtcDeregisterMessage::decodes(f, m),
        ensures
            m.fields() == f,
            m.wire() == join(f, ':'),
    {
        reveal_strlit("#DA");
        assert("#DA"@ + without_prefix(f[0], 3) =~= f[0]);
        assert(m.fields() =~= f);
    }
}

/// Sent by a pilot client before it disconnects.
#[derive(Debug, Clone)]
pub struct PilotDeregisterMessage {
    pub from: String,
    pub cid: String,
}

impl PilotDeregisterMessage {
    /// The fields that are written for the message, in order, the first
    /// behind the marker of its kind.
    pub open spec fn fields(&self) -> Seq<Seq<char>> {
        seq![
            "#DP"@ + self.from@,
            self.cid@,
        ]
    }

    /// The line that is written for the message.
    pub open spec fn wire(&self) -> Seq<char> {
        join(self.fields(), ':')
    }

    /// Why a list of fields is refused, or `None` where it is accepted.
    pub open spec fn rejection(f: Seq<Seq<char>>) -> Option<ParseFailure> {
        if f.len() < 2 {
            Some(ParseFailure::InvalidFieldCount(2, f.len()))
        } else {
            None
        }
    }

    /// Whether an accepted list of fields is read as the message `m`.
    pub open spec fn decodes(f: Seq<Seq<char>>, m: PilotDeregisterMessage) -> bool {
        &&& f.len() >= 2
        &&& m.from@ == uppercase(without_prefix(f[0], 3))
        &&& m.cid@ == f[1]
    }

    /// Whether a list of fields is written as the message writes it: the
    /// marker in front, callsigns in upper case, numbers without sign or
    /// needless zeros, and no field more than is written.
    pub open spec fn canonical(f: Seq<Seq<char>>) -> bool {
        &&& f.len() == 2
        &&& begins_with(f[0], "#DP"@)
        &&& is_upper(without_prefix(f[0], 3))
    }

    /// The message of the given parts, its callsign put in upper case.
    pub fn new(from: &str, cid: &str) -> (m: PilotDeregisterMessage)
        ensures
            m.from@ == uppercase(from@),
            m.cid@ == cid@,
    {
        PilotDeregisterMessage {
            from: to_upper(from),
            cid: cid.to_owned(),
        }
    }

    /// Reads the message from the fields of its line.
    pub fn try_from(fields: &[&str]) -> (r: Result<PilotDeregisterMessage, FsdMessageParseError>)
        ensures
            match r {
                Ok(m) => PilotDeregisterMessage::rejection(texts(fields@)) is None
                    && PilotDeregisterMessage::decodes(texts(fields@), m),
                Err(e) => PilotDeregisterMessage::rejection(texts(fields@)) == Some(e@),
            },
    {
        let ghost f = texts(fields@);
        if fields.len() < 2 {
            return Err(FsdMessageParseError::InvalidFieldCount(2, fields.len()));
        }
        assert(forall|i: int| 0 <= i < fields.len() ==> f[i] == (#[trigger] fields@[i])@);
        let first = skip_prefix(fields[0], 3);
        Ok(PilotDeregisterMessage::new(first.as_str(), fields[1]))
    }

    /// The line that is written for the message.
    pub fn to_string(&self) -> (r: String)
        ensures
            r@ == self.wire(),
    {
        let mut parts: Vec<String> = Vec::new();
        parts.push(followed_by("#DP", self.from.as_str()));
        parts.push(self.cid.clone());
        let r = join_strings(&parts, 0, ':');
        proof {
            assert(views(parts@) =~= self.fields());
            assert(views(parts@).subrange(0, parts.len() as int) =~= views(parts@));
        }
        r
    }

    /// A line in the form in which the message is written is read as a
    /// message that is written as that very line.
    pub proof fn law_round_trip(f: Seq<Seq<char>>, m: PilotDeregisterMessage)
        requires
            PilotDeregisterMessage::canonical(f),
            PilotDeregisterMessage::decodes(f, m),
        ensures
            m.fields() == f,
            m.wire() == join(f, ':'),
    {
        reveal_strlit("#DP");
        assert("#DP"@ + without_prefix(f[0], 3) =~= f[0]);
        assert(m.fields() =~= f);
    }
}

/// Asks the peer to prove that it holds the shared key.
#[derive(Debug, Clone)]
pub struct AuthenticationChallengeMessage {
    pub from: String,
    pub to: String,
    pub challenge: String,
}

impl AuthenticationChallengeMessage {
    /// The fields that are written for the message, in order, the first
    /// behind the marker of its kind.
    pub open spec fn fields(&self) -> Seq<Seq<char>> {
        seq![
            "$ZC"@ + self.from@,
            self.to@,
            self.challenge@,
        ]
    }

    /// The line that is written for the message.
    pub open spec fn wire(&self) -> Seq<char> {
        join(self.fields(), ':')
    }

    /// Why a list of fields is refused, or `None` where it is accepted.
    pub open spec fn rejection(f: Seq<Seq<char>>) -> Option<ParseFailure> {
        if f.len() < 3 {
            Some(ParseFailure::InvalidFieldCount(3, f.len()))
        } else {
            None
        }
    }

    /// Whether an accepted list of fields is read as the message `m`.
    pub open spec fn decodes(f: Seq<Seq<char>>, m: AuthenticationChallengeMessage) -> bool {
        &&& f.len() >= 3
        &&& m.from@ == uppercase(without_prefix(f[0], 3))
        &&& m.to@ == uppercase(f[1])
        &&& m.challenge@ == f[2]
    }

    /// Whether a list of fields is written as the message writes it: the
    /// marker in front, callsigns in upper case, numbers without sign or
    /// needless zeros, and no field more than is written.
    pub open spec fn canonical(f: Seq<Seq<char>>) -> bool {
        &&& f.len() == 3
        &&& begins_with(f[0], "$ZC"@)
        &&& is_upper(without_prefix(f[0], 3))
        &&& is_upper(f[1])
    }

    /// The message of the given parts, its callsigns put in upper case.
    pub fn new(from: &str, to: &str, challenge: &str) -> (m: AuthenticationChallengeMessage)
        ensures
            m.from@ == uppercase(from@),
            m.to@ == uppercase(to@),
            m.challenge@ == challenge@,
    {
        AuthenticationChallengeMessage {
            from: to_upper(from),
            to: to_upper(to),
            challenge: challenge.to_owned(),
        }
    }

    /// Reads the message from the fields of its line.
    pub fn try_from(fields: &[&str]) -> (r: Result<
        AuthenticationChallengeMessage,
        FsdMessageParseError,
    >)
        ensures
            match r {
                Ok(m) => AuthenticationChallengeMessage::rejection(texts(fields@)) is None
                    && AuthenticationChallengeMessage::decodes(texts(fields@), m),
                Err(e) => AuthenticationChallengeMessage::rejection(texts(fields@)) == Some(e@),
            },
    {
        let ghost f = texts(fields@);
        if fields.len() < 3 {
            return Err(FsdMessageParseError::InvalidFieldCount(3, fields.len()));
        }
        assert(forall|i: int| 0 <= i < fields.len() ==> f[i] == (#[trigger] fields@[i])@);
        let first = skip_prefix(fields[0], 3);
        Ok(AuthenticationChallengeMessage::new(first.as_str(), fields[1], fields[2]))
    }

    /// The line that is written for the message.
    pub fn to_string(&self) -> (r: String)
        ensures
            r@ == self.wire(),
    {
        let mut parts: Vec<String> = Vec::new();
        parts.push(followed_by("$ZC", self.from.as_str()));
        parts.push(self.to.clone());
        parts.push(self.challenge.clone());
        let r = join_strings(&parts, 0, ':');
        proof {
            assert(views(parts@) =~= self.fields());
            assert(views(parts@).subrange(0, parts.len() as int) =~= views(parts@));
        }
        r
    }

    /// A line in the form in which the message is written is read as a
    /// message that is written as that very line.
    pub proof fn law_round_trip(f: Seq<Seq<char>>, m: AuthenticationChallengeMessage)
        requires
            AuthenticationChallengeMessage::canonical(f),
            AuthenticationChallengeMessage::decodes(f, m),
        ensures
            m.fields() == f,
            m.wire() == join(f, ':'),
    {
        reveal_strlit("$ZC");
        assert("$ZC"@ + without_prefix(f[0], 3) =~= f[0]);
        assert(m.fields() =~= f);
    }
}

/// Answers an authentication challenge.
#[derive(Debug, Clone)]
pub struct AuthenticationResponseMessage {
    pub from: String,
    pub to: String,
    pub response: String,
}

impl AuthenticationResponseMessage {
    /// The fields that are written for the message, in order, the first
    /// behind the marker of its kind.
    pub open spec fn fields(&self) -> Seq<Seq<char>> {
        seq![
            "$ZR"@ + self.from@,
            self.to@,
            self.response@,
        ]
    }

    /// The line that is written for the message.
    pub open spec fn wire(&self) -> Seq<char> {
        join(self.fields(), ':')
    }

    /// Why a list of fields is refused, or `None` where it is accepted.
    pub open spec fn rejection(f: Seq<Seq<char>>) -> Option<ParseFailure> {
        if f.len() < 3 {
            Some(ParseFailure::InvalidFieldCount(3, f.len()))
        } else {
            None
        }
    }

    /// Whether an accepted list of fields is read as the message `m`.
    pub open spec fn decodes(f: Seq<Seq<char>>, m: AuthenticationResponseMessage) -> bool {
        &&& f.len() >= 3
        &&& m.from@ == uppercase(without_prefix(f[0], 3))
        &&& m.to@ == uppercase(f[1])
        &&& m.response@ == f[2]
    }

    /// Whether a list of fields is written as the message writes it: the
    /// marker in front, callsigns in upper case, numbers without sign or
    /// needless zeros, and no field more than is written.
    pub open spec fn canonical(f: Seq<Seq<char>>) -> bool {
        &&& f.len() == 3
        &&& begins_with(f[0], "$ZR"@)
        &&& is_upper(without_prefix(f[0], 3))
        &&& is_upper(f[1])
    }

    /// The message of the given parts, its callsigns put in upper case.
    pub fn new(from: &str, to: &str, response: &str) -> (m: AuthenticationResponseMessage)
        ensures
            m.from@ == uppercase(from@),
            m.to@ == uppercase(to@),
            m.response@ == response@,
    {
        AuthenticationResponseMessage {
            from: to_upper(from),
            to: to_upper(to),
            response: response.to_owned(),
        }
    }

    /// Reads the message from the fields of its line.
    pub fn try_from(fields: &[&str]) -> (r: Result<
        AuthenticationResponseMessage,
        FsdMessageParseError,
    >)
        ensures
            match r {
                Ok(m) => AuthenticationResponseMessage::rejection(texts(fields@)) is None
                    && AuthenticationResponseMessage::decodes(texts(fields@), m),
                Err(e) => AuthenticationResponseMessage::rejection(texts(fields@)) == Some(e@),
            },
    {
        let ghost f = texts(fields@);
        if fields.len() < 3 {
            return Err(FsdMessageParseError::InvalidFieldCount(3, fields.len()));
        }
        assert(forall|i: int| 0 <= i < fields.len() ==> f[i] == (#[trigger] fields@[i])@);
        let first = skip_prefix(fields[0], 3);
        Ok(AuthenticationResponseMessage::new(first.as_str(), fields[1], fields[2]))
    }

    /// The line that is written for the message.
    pub fn to_string(&self) -> (r: String)
        ensures
            r@ == self.wire(),
    {
        let mut parts: Vec<String> = Vec::new();
        parts.push(followed_by("$ZR", self.from.as_str()));
        parts.push(self.to.clone());
        parts.push(self.response.clone());
        let r = join_strings(&parts, 0, ':');
        proof {
            assert(views(parts@) =~= self.fields());
            assert(views(parts@).subrange(0, parts.len() as int) =~= views(parts@));
        }
        r
    }

    /// A line in the form in which the message is written is read as a
    /// message that is written as that very line.
    pub proof fn law_round_trip(f: Seq<Seq<char>>, m: AuthenticationResponseMessage)
        requires
            AuthenticationResponseMessage::canonical(f),
            AuthenticationResponseMessage::decodes(f, m),
        ensures
            m.fields() == f,
            m.wire() == join(f, ':'),
    {
        reveal_strlit("$ZR");
        assert("$ZR"@ + without_prefix(f[0], 3) =~= f[0]);
        assert(m.fields() =~= f);
    }
}

/// Tells a client to connect to another server.
#[derive(Debug, Clone)]
pub struct ChangeServerMessage {
    pub from: String,
    pub to: String,
    pub hostname: String,
}

impl ChangeServerMessage {
    /// The fields that are written for the message, in order, the first
    /// behind the marker of its kind.
    pub open spec fn fields(&self) -> Seq<Seq<char>> {
        seq![
            "$XX"@ + self.from@,
            self.to@,
            self.hostname@,
        ]
    }

    /// The line that is written for the message.
    pub open spec fn wire(&self) -> Seq<char> {
        join(self.fields(), ':')
    }

    /// Why a list of fields is refused, or `None` where it is accepted.
    pub open spec fn rejection(f: Seq<Seq<char>>) -> Option<ParseFailure> {
        if f.len() < 3 {
            Some(ParseFailure::InvalidFieldCount(3, f.len()))
        } else {
            None
        }
    }

    /// Whether an accepted list of fields is read as the message `m`.
    pub open spec fn decodes(f: Seq<Seq<char>>, m: ChangeServerMessage) -> bool {
        &&& f.len() >= 3
        &&& m.from@ == uppercase(without_prefix(f[0], 3))
        &&& m.to@ == uppercase(f[1])
        &&& m.hostname@ == f[2]
    }

    /// Whether a list of fields is written as the message writes it: the
    /// marker in front, callsigns in upper case, numbers without sign or
    /// needless zeros, and no field more than is written.
    pub open spec fn canonical(f: Seq<Seq<char>>) -> bool {
        &&& f.len() == 3
        &&& begins_with(f[0], "$XX"@)
        &&& is_upper(without_prefix(f[0], 3))
        &&& is_upper(f[1])
    }

    /// The message of the given parts, its callsigns put in upper case.
    pub fn new(from: &str, to: &str, hostname: &str) -> (m: ChangeServerMessage)
        ensures
            m.from@ == uppercase(from@),
            m.to@ == uppercase(to@),
            m.hostname@ == hostname@,
    {
        ChangeServerMessage {
            from: to_upper(from),
            to: to_upper(to),
            hostname: hostname.to_owned(),
        }
    }

    /// Reads the message from the fields of its line.
    pub fn try_from(fields: &[&str]) -> (r: Result<ChangeServerMessage, FsdMessageParseError>)
        ensures
            match r {
                Ok(m) => ChangeServerMessage::rejection(texts(fields@)) is None
                    && ChangeServerMessage::decodes(texts(fields@), m),
                Err(e) => ChangeServerMessage::rejection(texts(fields@)) == Some(e@),
            },
    {
        let ghost f = texts(fields@);
        if fields.len() < 3 {
            return Err(FsdMessageParseError::InvalidFieldCount(3, fields.len()));
        }
        assert(forall|i: int| 0 <= i < fields.len() ==> f[i] == (#[trigger] fields@[i])@);
        let first = skip_prefix(fields[0], 3);
        Ok(ChangeServerMessage::new(first.as_str(), fields[1], fields[2]))
    }

    /// The line that is written for the message.
    pub fn to_string(&self) -> (r: String)
        ensures
            r@ == self.wire(),
    {
        let mut parts: Vec<String> = Vec::new();
        parts.push(followed_by("$XX", self.from.as_str()));
        parts.push(self.to.clone());
        parts.push(self.hostname.clone());
        let r = join_strings(&parts, 0, ':');
        proof {
            assert(views(parts@) =~= self.fields());
            assert(views(parts@).subrange(0, parts.len() as int) =~= views(parts@));
        }
        r
    }

    /// A line in the form in which the message is written is read as a
    /// message that is written as that very line.
    pub proof fn law_round_trip(f: Seq<Seq<char>>, m: ChangeServerMessage)
        requires
            ChangeServerMessage::canonical(f),
            ChangeServerMessage::decodes(f, m),
        ensures
            m.fields() == f,
            m.wire() == join(f, ':'),
    {
        reveal_strlit("$XX");
        assert("$XX"@ + without_prefix(f[0], 3) =~= f[0]);
        assert(m.fields() =~= f);
    }
}

/// The first message of a server to a client that has connected. The key
/// is empty where the line carries none.
#[derive(Debug, Clone)]
pub struct InitialServerHandshakeMessage {
    pub from: String,
    pub to: String,
    pub version: String,
    pub initial_key: String,
}

impl InitialServerHandshakeMessage {
    /// The fields that are written for the message, in order, the first
    /// behind the marker of its kind.
    pub open spec fn fields(&self) -> Seq<Seq<char>> {
        seq![
            "$DI"@ + self.from@,
            self.to@,
            self.version@,
            self.initial_key@,
        ]
    }

    /// The line that is written for the message.
    pub open spec fn wire(&self) -> Seq<char> {
        join(self.fields(), ':')
    }

    /// Why a list of fields is refused, or `None` where it is accepted.
    pub open spec fn rejection(f: Seq<Seq<char>>) -> Option<ParseFailure> {
        if f.len() < 3 {
            Some(ParseFailure::InvalidFieldCount(3, f.len()))
        } else {
            None
        }
    }

    /// Whether an accepted list of fields is read as the message `m`.
    pub open spec fn decodes(f: Seq<Seq<char>>, m: InitialServerHandshakeMessage) -> bool {
        &&& f.len() >= 3
        &&& m.from@ == uppercase(without_prefix(f[0], 3))
        &&& m.to@ == uppercase(f[1])
        &&& m.version@ == f[2]
        &&& m.initial_key@ == field_or_empty(f, 3)
    }

    /// Whether a list of fields is written as the message writes it: the
    /// marker in front, callsigns in upper case, numbers without sign or
    /// needless zeros, and no field more than is written.
    pub open spec fn canonical(f: Seq<Seq<char>>) -> bool {
        &&& f.len() == 4
        &&& begins_with(f[0], "$DI"@)
        &&& is_upper(without_prefix(f[0], 3))
        &&& is_upper(f[1])
    }

    /// The message of the given parts, its callsigns put in upper case.
    pub fn new(
        from: &str,
        to: &str,
        version: &str,
        initial_key: &str,
    ) -> (m: InitialServerHandshakeMessage)
        ensures
            m.from@ == uppercase(from@),
            m.to@ == uppercase(to@),
            m.version@ == version@,
            m.initial_key@ == initial_key@,
    {
        InitialServerHandshakeMessage {
            from: to_upper(from),
            to: to_upper(to),
            version: version.to_owned(),
            initial_key: initial_key.to_owned(),
        }
    }

    /// Reads the message from the fields of its line.
    pub fn try_from(fields: &[&str]) -> (r: Result<
        InitialServerHandshakeMessage,
        FsdMessageParseError,
    >)
        ensures
            match r {
                Ok(m) => InitialServerHandshakeMessage::rejection(texts(fields@)) is None
                    && InitialServerHandshakeMessage::decodes(texts(fields@), m),
                Err(e) => InitialServerHandshakeMessage::rejection(texts(fields@)) == Some(e@),
            },
    {
        let ghost f = texts(fields@);
        if fields.len() < 3 {
            return Err(FsdMessageParseError::InvalidFieldCount(3, fields.len()));
        }
        assert(forall|i: int| 0 <= i < fields.len() ==> f[i] == (#[trigger] fields@[i])@);
        let first = skip_prefix(fields[0], 3);
        let initial_key = if fields.len() > 3 {
            fields[3]
        } else {
            ""
        };
        proof {
            reveal_strlit("");
            assert(""@ =~= Seq::<char>::empty());
        }
        Ok(InitialServerHandshakeMessage::new(first.as_str(), fields[1], fields[2], initial_key))
    }

    /// The line that is written for the message.
    pub fn to_string(&self) -> (r: String)
        ensures
            r@ == self.wire(),
    {
        let mut parts: Vec<String> = Vec::new();
        parts.push(followed_by("$DI", self.from.as_str()));
        parts.push(self.to.clone());
        parts.push(self.version.clone());
        parts.push(self.initial_key.clone());
        let r = join_strings(&parts, 0, ':');
        proof {
            assert(views(parts@) =~= self.fields());
            assert(views(parts@).subrange(0, parts.len() as int) =~= views(parts@));
        }
        r
    }

    /// A line in the form in which the message is written is read as a
    /// message that is written as that very line.
    pub proof fn law_round_trip(f: Seq<Seq<char>>, m: InitialServerHandshakeMessage)
        requires
            InitialServerHandshakeMessage::canonical(f),
            InitialServerHandshakeMessage::decodes(f, m),
        ensures
            m.fields() == f,
            m.wire() == join(f, ':'),
    {
        reveal_strlit("$DI");
        assert("$DI"@ + without_prefix(f[0], 3) =~= f[0]);
        assert(m.fields() =~= f);
    }
}

/// The answer of a client to the handshake of the server. The client ID is
/// written as four hexadecimal digits.
#[derive(Debug, Clone)]
pub struct InitialClientHandshakeMessage {
    pub from: String,
    pub to: String,
    pub client_id: u16,
    pub client_name: String,
    pub major_version: u32,
    pub minor_version: u32,
    pub cid: String,
    pub guid: String,
    pub initial_key: Option<String>,
}

impl InitialClientHandshakeMessage {
    /// The fields that are written for the message, in order, the first
    /// behind the marker of its kind.
    pub open spec fn fields(&self) -> Seq<Seq<char>> {
        seq![
            "$ID"@ + self.from@,
            self.to@,
            padded(self.client_id as nat, true, 4),
            self.client_name@,
            numeral(self.major_version as nat, false),
            numeral(self.minor_version as nat, false),
            self.cid@,
            self.guid@,
        ] + match self.initial_key {
            Some(initial_key) => seq![initial_key@],
            None => Seq::empty(),
        }
    }

    /// The line that is written for the message.
    pub open spec fn wire(&self) -> Seq<char> {
        join(self.fields(), ':')
    }

    /// Why a list of fields is refused, or `None` where it is accepted.
    /// The count is tested first, then the fields in their order.
    pub open spec fn rejection(f: Seq<Seq<char>>) -> Option<ParseFailure> {
        if f.len() < 8 {
            Some(ParseFailure::InvalidFieldCount(8, f.len()))
        } else if unsigned_value(f[2], true, 0xffff) is None {
            Some(ParseFailure::InvalidClientID(f[2]))
        } else if unsigned_value(f[4], false, 0xffff_ffff) is None {
            Some(ParseFailure::InvalidVersionNumber(f[4]))
        } else if unsigned_value(f[5], false, 0xffff_ffff) is None {
            Some(ParseFailure::InvalidVersionNumber(f[5]))
        } else {
            None
        }
    }

    /// Whether an accepted list of fields is read as the message `m`.
    pub open spec fn decodes(f: Seq<Seq<char>>, m: InitialClientHandshakeMessage) -> bool {
        &&& f.len() >= 8
        &&& m.from@ == uppercase(without_prefix(f[0], 3))
        &&& m.to@ == uppercase(f[1])
        &&& unsigned_value(f[2], true, 0xffff) == Some(m.client_id as nat)
        &&& m.client_name@ == f[3]
        &&& unsigned_value(f[4], false, 0xffff_ffff) == Some(m.major_version as nat)
        &&& unsigned_value(f[5], false, 0xffff_ffff) == Some(m.minor_version as nat)
        &&& m.cid@ == f[6]
        &&& m.guid@ == f[7]
        &&& optional_text(m.initial_key) == field_if_present(f, 8)
    }

    /// Whether a list of fields is written as the message writes it: the
    /// marker in front, callsigns in upper case, numbers without sign or
    /// needless zeros, and no field more than is written.
    pub open spec fn canonical(f: Seq<Seq<char>>) -> bool {
        &&& 8 <= f.len() <= 9
        &&& begins_with(f[0], "$ID"@)
        &&& is_upper(without_prefix(f[0], 3))
        &&& is_upper(f[1])
        &&& is_padded_number(f[2], true, 4, 0xffff)
        &&& is_plain_number(f[4], false, 0xffff_ffff)
        &&& is_plain_number(f[5], false, 0xffff_ffff)
    }

    /// The message of the given parts, its callsigns put in upper case.
    pub fn new(
        from: &str,
        to: &str,
        client_id: u16,
        client_name: &str,
        major_version: u32,
        minor_version: u32,
        cid: &str,
        guid: &str,
        initial_key: Option<&str>,
    ) -> (m: InitialClientHandshakeMessage)
        ensures
            m.from@ == uppercase(from@),
            m.to@ == uppercase(to@),
            m.client_id == client_id,
            m.client_name@ == client_name@,
            m.major_version == major_version,
            m.minor_version == minor_version,
            m.cid@ == cid@,
            m.guid@ == guid@,
            optional_text(m.initial_key) == optional_view(initial_key),
    {
        InitialClientHandshakeMessage {
            from: to_upper(from),
            to: to_upper(to),
            client_id,
            client_name: client_name.to_owned(),
            major_version,
            minor_version,
            cid: cid.to_owned(),
            guid: guid.to_owned(),
            initial_key: owned(initial_key),
        }
    }

    /// Reads the message from the fields of its line.
    pub fn try_from(fields: &[&str]) -> (r: Result<
        InitialClientHandshakeMessage,
        FsdMessageParseError,
    >)
        ensures
            match r {
                Ok(m) => InitialClientHandshakeMessage::rejection(texts(fields@)) is None
                    && InitialClientHandshakeMessage::decodes(texts(fields@), m),
                Err(e) => InitialClientHandshakeMessage::rejection(texts(fields@)) == Some(e@),
            },
    {
        let ghost f = texts(fields@);
        if fields.len() < 8 {
            return Err(FsdMessageParseError::InvalidFieldCount(8, fields.len()));
        }
        assert(forall|i: int| 0 <= i < fields.len() ==> f[i] == (#[trigger] fields@[i])@);
        let first = skip_prefix(fields[0], 3);
        let client_id = match parse_unsigned(fields[2], true, 0xffff) {
            Some(n) => n as u16,
            None => {
                return Err(FsdMessageParseError::InvalidClientID(fields[2].to_owned()));
            },
        };
        let major_version = match parse_unsigned(fields[4], false, 0xffff_ffff) {
            Some(n) => n as u32,
            None => {
                return Err(FsdMessageParseError::InvalidVersionNumber(fields[4].to_owned()));
            },
        };
        let minor_version = match parse_unsigned(fields[5], false, 0xffff_ffff) {
            Some(n) => n as u32,
            None => {
                return Err(FsdMessageParseError::InvalidVersionNumber(fields[5].to_owned()));
            },
        };
        let initial_key = if fields.len() > 8 {
            Some(fields[8])
        } else {
            None
        };
        Ok(
            InitialClientHandshakeMessage::new(
                first.as_str(),
                fields[1],
                client_id,
                fields[3],
                major_version,
                minor_version,
                fields[6],
                fields[7],
                initial_key,
            ),
        )
    }

    /// The line that is written for the message.
    pub fn to_string(&self) -> (r: String)
        ensures
            r@ == self.wire(),
    {
        let mut parts: Vec<String> = Vec::new();
        parts.push(followed_by("$ID", self.from.as_str()));
        parts.push(self.to.clone());
        parts.push(padded_text(self.client_id as u64, true, 4));
        parts.push(self.client_name.clone());
        parts.push(number_text(self.major_version as u64));
        parts.push(number_text(self.minor_version as u64));
        parts.push(self.cid.clone());
        parts.push(self.guid.clone());
        match &self.initial_key {
            Some(initial_key) => {
                parts.push(initial_key.clone());
            },
            None => {},
        }
        let r = join_strings(&parts, 0, ':');
        proof {
            assert(views(parts@) =~= self.fields());
            assert(views(parts@).subrange(0, parts.len() as int) =~= views(parts@));
        }
        r
    }

    /// A line in the form in which the message is written is read as a
    /// message that is written as that very line.
    pub proof fn law_round_trip(f: Seq<Seq<char>>, m: InitialClientHandshakeMessage)
        requires
            InitialClientHandshakeMessage::canonical(f),
            InitialClientHandshakeMessage::decodes(f, m),
        ensures
            m.fields() == f,
            m.wire() == join(f, ':'),
    {
        reveal_strlit("$ID");
        assert("$ID"@ + without_prefix(f[0], 3) =~= f[0]);
        assert(m.fields() =~= f);
    }
}

/// Asks a pilot client to send, or to stop sending, fast position updates.
#[derive(Debug, Clone)]
pub struct SendFastPositionUpdatesMessage {
    pub from: String,
    pub to: String,
    pub send_fast: bool,
}

impl SendFastPositionUpdatesMessage {
    /// The fields that are written for the message, in order, the first
    /// behind the marker of its kind.
    pub open spec fn fields(&self) -> Seq<Seq<char>> {
        seq![
            "$SF"@ + self.from@,
            self.to@,
            if self.send_fast {
                "1"@
            } else {
                "0"@
            },
        ]
    }

    /// The line that is written for the message.
    pub open spec fn wire(&self) -> Seq<char> {
        join(self.fields(), ':')
    }

    /// Why a list of fields is refused, or `None` where it is accepted.
    pub open spec fn rejection(f: Seq<Seq<char>>) -> Option<ParseFailure> {
        if f.len() < 3 {
            Some(ParseFailure::InvalidFieldCount(3, f.len()))
        } else {
            None
        }
    }

    /// Whether an accepted list of fields is read as the message `m`.
    pub open spec fn decodes(f: Seq<Seq<char>>, m: SendFastPositionUpdatesMessage) -> bool {
        &&& f.len() >= 3
        &&& m.from@ == uppercase(without_prefix(f[0], 3))
        &&& m.to@ == uppercase(f[1])
        &&& m.send_fast == (f[2] == "1"@)
    }

    /// Whether a list of fields is written as the message writes it: the
    /// marker in front, callsigns in upper case, numbers without sign or
    /// needless zeros, and no field more than is written.
    pub open spec fn canonical(f: Seq<Seq<char>>) -> bool {
        &&& f.len() == 3
        &&& begins_with(f[0], "$SF"@)
        &&& is_upper(without_prefix(f[0], 3))
        &&& is_upper(f[1])
        &&& f[2] == "1"@ || f[2] == "0"@
    }

    /// The message of the given parts, its callsigns put in upper case.
    pub fn new(from: &str, to: &str, send_fast: bool) -> (m: SendFastPositionUpdatesMessage)
        ensures
            m.from@ == uppercase(from@),
            m.to@ == uppercase(to@),
            m.send_fast == send_fast,
    {
        SendFastPositionUpdatesMessage {
            from: to_upper(from),
            to: to_upper(to),
            send_fast,
        }
    }

    /// Reads the message from the fields of its line.
    pub fn try_from(fields: &[&str]) -> (r: Result<
        SendFastPositionUpdatesMessage,
        FsdMessageParseError,
    >)
        ensures
            match r {
                Ok(m) => SendFastPositionUpdatesMessage::rejection(texts(fields@)) is None
                    && SendFastPositionUpdatesMessage::decodes(texts(fields@), m),
                Err(e) => SendFastPositionUpdatesMessage::rejection(texts(fields@)) == Some(e@),
            },
    {
        let ghost f = texts(fields@);
        if fields.len() < 3 {
            return Err(FsdMessageParseError::InvalidFieldCount(3, fields.len()));
        }
        assert(forall|i: int| 0 <= i < fields.len() ==> f[i] == (#[trigger] fields@[i])@);
        let first = skip_prefix(fields[0], 3);
        Ok(
            SendFastPositionUpdatesMessage::new(
                first.as_str(),
                fields[1],
                same_text(fields[2], "1"),
            ),
        )
    }

    /// The line that is written for the message.
    pub fn to_string(&self) -> (r: String)
        ensures
            r@ == self.wire(),
    {
        let mut parts: Vec<String> = Vec::new();
        parts.push(followed_by("$SF", self.from.as_str()));
        parts.push(self.to.clone());
        parts.push(if self.send_fast {
            "1".to_owned()
        } else {
            "0".to_owned()
        });
        let r = join_strings(&parts, 0, ':');
        proof {
            assert(views(parts@) =~= self.fields());
            assert(views(parts@).subrange(0, parts.len() as int) =~= views(parts@));
        }
        r
    }

    /// A line in the form in which the message is written is read as a
    /// message that is written as that very line.
    pub proof fn law_round_trip(f: Seq<Seq<char>>, m: SendFastPositionUpdatesMessage)
        requires
            SendFastPositionUpdatesMessage::canonical(f),
            SendFastPositionUpdatesMessage::decodes(f, m),
        ensures
            m.fields() == f,
            m.wire() == join(f, ':'),
    {
        reveal_strlit("$SF");
        assert("$SF"@ + without_prefix(f[0], 3) =~= f[0]);
        assert(m.fields() =~= f);
    }
}

/// Removes a client from the network, with or without a reason.
#[derive(Debug, Clone)]
pub struct KillMessage {
    pub from: String,
    pub to: String,
    pub reason: Option<String>,
}

impl KillMessage {
    /// The fields that are written for the message, in order, the first
    /// behind the marker of its kind.
    pub open spec fn fields(&self) -> Seq<Seq<char>> {
        seq![
            "$!!"@ + self.from@,
            self.to@,
        ] + match self.reason {
            Some(reason) => seq![reason@],
            None => Seq::empty(),
        }
    }

    /// The line that is written for the message.
    pub open spec fn wire(&self) -> Seq<char> {
        join(self.fields(), ':')
    }

    /// Why a list of fields is refused, or `None` where it is accepted.
    pub open spec fn rejection(f: Seq<Seq<char>>) -> Option<ParseFailure> {
        if f.len() < 2 {
            Some(ParseFailure::InvalidFieldCount(2, f.len()))
        } else {
            None
        }
    }

    /// Whether an accepted list of fields is read as the message `m`.
    pub open spec fn decodes(f: Seq<Seq<char>>, m: KillMessage) -> bool {
        &&& f.len() >= 2
        &&& m.from@ == uppercase(without_prefix(f[0], 3))
        &&& m.to@ == uppercase(f[1])
        &&& optional_text(m.reason) == field_if_present(f, 2)
    }

    /// Whether a list of fields is written as the message writes it: the
    /// marker in front, callsigns in upper case, numbers without sign or
    /// needless zeros, and no field more than is written.
    pub open spec fn canonical(f: Seq<Seq<char>>) -> bool {
        &&& 2 <= f.len() <= 3
        &&& begins_with(f[0], "$!!"@)
        &&& is_upper(without_prefix(f[0], 3))
        &&& is_upper(f[1])
    }

    /// The message of the given parts, its callsigns put in upper case.
    pub fn new(from: &str, to: &str, reason: Option<&str>) -> (m: KillMessage)
        ensures
            m.from@ == uppercase(from@),
            m.to@ == uppercase(to@),
            optional_text(m.reason) == optional_view(reason),
    {
        KillMessage {
            from: to_upper(from),
            to: to_upper(to),
            reason: owned(reason),
        }
    }

    /// Reads the message from the fields of its line.
    pub fn try_from(fields: &[&str]) -> (r: Result<KillMessage, FsdMessageParseError>)
        ensures
            match r {
                Ok(m) => KillMessage::rejection(texts(fields@)) is None && KillMessage::decodes(
                    texts(fields@),
                    m,
                ),
                Err(e) => KillMessage::rejection(texts(fields@)) == Some(e@),
            },
    {
        let ghost f = texts(fields@);
        if fields.len() < 2 {
            return Err(FsdMessageParseError::InvalidFieldCount(2, fields.len()));
        }
        assert(forall|i: int| 0 <= i < fields.len() ==> f[i] == (#[trigger] fields@[i])@);
        let first = skip_prefix(fields[0], 3);
        let reason = if fields.len() > 2 {
            Some(fields[2])
        } else {
            None
        };
        Ok(KillMessage::new(first.as_str(), fields[1], reason))
    }

    /// The line that is written for the message.
    pub fn to_string(&self) -> (r: String)
        ensures
            r@ == self.wire(),
    {
        let mut parts: Vec<String> = Vec::new();
        parts.push(followed_by("$!!", self.from.as_str()));
        parts.push(self.to.clone());
        match &self.reason {
            Some(reason) => {
                parts.push(reason.clone());
            },
            None => {},
        }
        let r = join_strings(&parts, 0, ':');
        proof {
            assert(views(parts@) =~= self.fields());
            assert(views(parts@).subrange(0, parts.len() as int) =~= views(parts@));
        }
        r
    }

    /// A line in the form in which the message is written is read as a
    /// message that is written as that very line.
    pub proof fn law_round_trip(f: Seq<Seq<char>>, m: KillMessage)
        requires
            KillMessage::canonical(f),
            KillMessage::decodes(f, m),
        ensures
            m.fields() == f,
            m.wire() == join(f, ':'),
    {
        reveal_strlit("$!!");
        assert("$!!"@ + without_prefix(f[0], 3) =~= f[0]);
        assert(m.fields() =~= f);
    }
}

/// Asks for the weather report of a station.
#[derive(Debug, Clone)]
pub struct MetarRequestMessage {
    pub from: String,
    pub to: String,
    pub station: String,
}

impl MetarRequestMessage {
    /// The fields that are written for the message, in order, the first
    /// behind the marker of its kind.
    pub open spec fn fields(&self) -> Seq<Seq<char>> {
        seq![
            "$AX"@ + self.from@,
            self.to@,
            "METAR"@,
            self.station@,
        ]
    }

    /// The line that is written for the message.
    pub open spec fn wire(&self) -> Seq<char> {
        join(self.fields(), ':')
    }

    /// Why a list of fields is refused, or `None` where it is accepted.
    pub open spec fn rejection(f: Seq<Seq<char>>) -> Option<ParseFailure> {
        if f.len() < 4 {
            Some(ParseFailure::InvalidFieldCount(4, f.len()))
        } else {
            None
        }
    }

    /// Whether an accepted list of fields is read as the message `m`.
    pub open spec fn decodes(f: Seq<Seq<char>>, m: MetarRequestMessage) -> bool {
        &&& f.len() >= 4
        &&& m.from@ == uppercase(without_prefix(f[0], 3))
        &&& m.to@ == uppercase(f[1])
        &&& m.station@ == uppercase(f[3])
    }

    /// Whether a list of fields is written as the message writes it: the
    /// marker in front, callsigns in upper case, numbers without sign or
    /// needless zeros, and no field more than is written.
    pub open spec fn canonical(f: Seq<Seq<char>>) -> bool {
        &&& f.len() == 4
        &&& begins_with(f[0], "$AX"@)
        &&& is_upper(without_prefix(f[0], 3))
        &&& is_upper(f[1])
        &&& f[2] == "METAR"@
        &&& is_upper(f[3])
    }

    /// The message of the given parts, its callsigns put in upper case.
    pub fn new(from: &str, to: &str, station: &str) -> (m: MetarRequestMessage)
        ensures
            m.from@ == uppercase(from@),
            m.to@ == uppercase(to@),
            m.station@ == uppercase(station@),
    {
        MetarRequestMessage {
            from: to_upper(from),
            to: to_upper(to),
            station: to_upper(station),
        }
    }

    /// Reads the message from the fields of its line.
    pub fn try_from(fields: &[&str]) -> (r: Result<MetarRequestMessage, FsdMessageParseError>)
        ensures
            match r {
                Ok(m) => MetarRequestMessage::rejection(texts(fields@)) is None
                    && MetarRequestMessage::decodes(texts(fields@), m),
                Err(e) => MetarRequestMessage::rejection(texts(fields@)) == Some(e@),
            },
    {
        let ghost f = texts(fields@);
        if fields.len() < 4 {
            return Err(FsdMessageParseError::InvalidFieldCount(4, fields.len()));
        }
        assert(forall|i: int| 0 <= i < fields.len() ==> f[i] == (#[trigger] fields@[i])@);
        let first = skip_prefix(fields[0], 3);
        Ok(MetarRequestMessage::new(first.as_str(), fields[1], fields[3]))
    }

    /// The line that is written for the message.
    pub fn to_string(&self) -> (r: String)
        ensures
            r@ == self.wire(),
    {
        let mut parts: Vec<String> = Vec::new();
        parts.push(followed_by("$AX", self.from.as_str()));
        parts.push(self.to.clone());
        parts.push("METAR".to_owned());
        parts.push(self.station.clone());
        let r = join_strings(&parts, 0, ':');
        proof {
            assert(views(parts@) =~= self.fields());
            assert(views(parts@).subrange(0, parts.len() as int) =~= views(parts@));
        }
        r
    }

    /// A line in the form in which the message is written is read as a
    /// message that is written as that very line.
    pub proof fn law_round_trip(f: Seq<Seq<char>>, m: MetarRequestMessage)
        requires
            MetarRequestMessage::canonical(f),
            MetarRequestMessage::decodes(f, m),
        ensures
            m.fields() == f,
            m.wire() == join(f, ':'),
    {
        reveal_strlit("$AX");
        assert("$AX"@ + without_prefix(f[0], 3) =~= f[0]);
        assert(m.fields() =~= f);
    }
}

/// Carries a weather report, in upper case.
#[derive(Debug, Clone)]
pub struct MetarResponseMessage {
    pub from: String,
    pub to: String,
    pub metar: String,
}

impl MetarResponseMessage {
    /// The fields that are written for the message, in order, the first
    /// behind the marker of its kind.
    pub open spec fn fields(&self) -> Seq<Seq<char>> {
        seq![
            "$AR"@ + self.from@,
            self.to@,
            "METAR"@,
            self.metar@,
        ]
    }

    /// The line that is written for the message.
    pub open spec fn wire(&self) -> Seq<char> {
        join(self.fields(), ':')
    }

    /// Why a list of fields is refused, or `None` where it is accepted.
    pub open spec fn rejection(f: Seq<Seq<char>>) -> Option<ParseFailure> {
        if f.len() < 4 {
            Some(ParseFailure::InvalidFieldCount(4, f.len()))
        } else {
            None
        }
    }

    /// Whether an accepted list of fields is read as the message `m`.
    pub open spec fn decodes(f: Seq<Seq<char>>, m: MetarResponseMessage) -> bool {
        &&& f.len() >= 4
        &&& m.from@ == uppercase(without_prefix(f[0], 3))
        &&& m.to@ == uppercase(f[1])
        &&& m.metar@ == uppercase(f[3])
    }

    /// Whether a list of fields is written as the message writes it: the
    /// marker in front, callsigns in upper case, numbers without sign or
    /// needless zeros, and no field more than is written.
    pub open spec fn canonical(f: Seq<Seq<char>>) -> bool {
        &&& f.len() == 4
        &&& begins_with(f[0], "$AR"@)
        &&& is_upper(without_prefix(f[0], 3))
        &&& is_upper(f[1])
        &&& f[2] == "METAR"@
        &&& is_upper(f[3])
    }

    /// The message of the given parts, its callsigns put in upper case.
    pub fn new(from: &str, to: &str, metar: &str) -> (m: MetarResponseMessage)
        ensures
            m.from@ == uppercase(from@),
            m.to@ == uppercase(to@),
            m.metar@ == uppercase(metar@),
    {
        MetarResponseMessage {
            from: to_upper(from),
            to: to_upper(to),
            metar: to_upper(metar),
        }
    }

    /// Reads the message from the fields of its line.
    pub fn try_from(fields: &[&str]) -> (r: Result<MetarResponseMessage, FsdMessageParseError>)
        ensures
            match r {
                Ok(m) => MetarResponseMessage::rejection(texts(fields@)) is None
                    && MetarResponseMessage::decodes(texts(fields@), m),
                Err(e) => MetarResponseMessage::rejection(texts(fields@)) == Some(e@),
            },
    {
        let ghost f = texts(fields@);
        if fields.len() < 4 {
            return Err(FsdMessageParseError::InvalidFieldCount(4, fields.len()));
        }
        assert(forall|i: int| 0 <= i < fields.len() ==> f[i] == (#[trigger] fields@[i])@);
        let first = skip_prefix(fields[0], 3);
        Ok(MetarResponseMessage::new(first.as_str(), fields[1], fields[3]))
    }

    /// The line that is written for the message.
    pub fn to_string(&self) -> (r: String)
        ensures
            r@ == self.wire(),
    {
        let mut parts: Vec<String> = Vec::new();
        parts.push(followed_by("$AR", self.from.as_str()));
        parts.push(self.to.clone());
        parts.push("METAR".to_owned());
        parts.push(self.metar.clone());
        let r = join_strings(&parts, 0, ':');
        proof {
            assert(views(parts@) =~= self.fields());
            assert(views(parts@).subrange(0, parts.len() as int) =~= views(parts@));
        }
        r
    }

    /// A line in the form in which the message is written is read as a
    /// message that is written as that very line.
    pub proof fn law_round_trip(f: Seq<Seq<char>>, m: MetarResponseMessage)
        requires
            MetarResponseMessage::canonical(f),
            MetarResponseMessage::decodes(f, m),
        ensures
            m.fields() == f,
            m.wire() == join(f, ':'),
    {
        reveal_strlit("$AR");
        assert("$AR"@ + without_prefix(f[0], 3) =~= f[0]);
        assert(m.fields() =~= f);
    }
}

/// Asks the peer to answer with the same timestamp.
#[derive(Debug, Clone)]
pub struct PingMessage {
    pub from: String,
    pub to: String,
    pub timestamp: u64,
}

impl PingMessage {
    /// The fields that are written for the message, in order, the first
    /// behind the marker of its kind.
    pub open spec fn fields(&self) -> Seq<Seq<char>> {
        seq![
            "$PI"@ + self.from@,
            self.to@,
            numeral(self.timestamp as nat, false),
        ]
    }

    /// The line that is written for the message.
    pub open spec fn wire(&self) -> Seq<char> {
        join(self.fields(), ':')
    }

    /// Why a list of fields is refused, or `None` where it is accepted.
    /// The count is tested first, then the fields in their order.
    pub open spec fn rejection(f: Seq<Seq<char>>) -> Option<ParseFailure> {
        if f.len() < 3 {
            Some(ParseFailure::InvalidFieldCount(3, f.len()))
        } else if unsigned_value(f[2], false, 0xffff_ffff_ffff_ffff) is None {
            Some(ParseFailure::InvalidPingTime(f[2]))
        } else {
            None
        }
    }

    /// Whether an accepted list of fields is read as the message `m`.
    pub open spec fn decodes(f: Seq<Seq<char>>, m: PingMessage) -> bool {
        &&& f.len() >= 3
        &&& m.from@ == uppercase(without_prefix(f[0], 3))
        &&& m.to@ == uppercase(f[1])
        &&& unsigned_value(f[2], false, 0xffff_ffff_ffff_ffff) == Some(m.timestamp as nat)
    }

    /// Whether a list of fields is written as the message writes it: the
    /// marker in front, callsigns in upper case, numbers without sign or
    /// needless zeros, and no field more than is written.
    pub open spec fn canonical(f: Seq<Seq<char>>) -> bool {
        &&& f.len() == 3
        &&& begins_with(f[0], "$PI"@)
        &&& is_upper(without_prefix(f[0], 3))
        &&& is_upper(f[1])
        &&& is_plain_number(f[2], false, 0xffff_ffff_ffff_ffff)
    }

    /// The message of the given parts, its callsigns put in upper case.
    pub fn new(from: &str, to: &str, timestamp: u64) -> (m: PingMessage)
        ensures
            m.from@ == uppercase(from@),
            m.to@ == uppercase(to@),
            m.timestamp == timestamp,
    {
        PingMessage {
            from: to_upper(from),
            to: to_upper(to),
            timestamp,
        }
    }

    /// Reads the message from the fields of its line.
    pub fn try_from(fields: &[&str]) -> (r: Result<PingMessage, FsdMessageParseError>)
        ensures
            match r {
                Ok(m) => PingMessage::rejection(texts(fields@)) is None && PingMessage::decodes(
                    texts(fields@),
                    m,
                ),
                Err(e) => PingMessage::rejection(texts(fields@)) == Some(e@),
            },
    {
        let ghost f = texts(fields@);
        if fields.len() < 3 {
            return Err(FsdMessageParseError::InvalidFieldCount(3, fields.len()));
        }
        assert(forall|i: int| 0 <= i < fields.len() ==> f[i] == (#[trigger] fields@[i])@);
        let first = skip_prefix(fields[0], 3);
        let timestamp = match parse_unsigned(fields[2], false, 0xffff_ffff_ffff_ffff) {
            Some(n) => n as u64,
            None => {
                return Err(FsdMessageParseError::InvalidPingTime(fields[2].to_owned()));
            },
        };
        Ok(PingMessage::new(first.as_str(), fields[1], timestamp))
    }

    /// The line that is written for the message.
    pub fn to_string(&self) -> (r: String)
        ensures
            r@ == self.wire(),
    {
        let mut parts: Vec<String> = Vec::new();
        parts.push(followed_by("$PI", self.from.as_str()));
        parts.push(self.to.clone());
        parts.push(number_text(self.timestamp as u64));
        let r = join_strings(&parts, 0, ':');
        proof {
            assert(views(parts@) =~= self.fields());
            assert(views(parts@).subrange(0, parts.len() as int) =~= views(parts@));
        }
        r
    }

    /// A line in the form in which the message is written is read as a
    /// message that is written as that very line.
    pub proof fn law_round_trip(f: Seq<Seq<char>>, m: PingMessage)
        requires
            PingMessage::canonical(f),
            PingMessage::decodes(f, m),
        ensures
            m.fields() == f,
            m.wire() == join(f, ':'),
    {
        reveal_strlit("$PI");
        assert("$PI"@ + without_prefix(f[0], 3) =~= f[0]);
        assert(m.fields() =~= f);
    }
}

/// Answers a ping with its timestamp.
#[derive(Debug, Clone)]
pub struct PongMessage {
    pub from: String,
    pub to: String,
    pub timestamp: u64,
}

impl PongMessage {
    /// The fields that are written for the message, in order, the first
    /// behind the marker of its kind.
    pub open spec fn fields(&self) -> Seq<Seq<char>> {
        seq![
            "$PO"@ + self.from@,
            self.to@,
            numeral(self.timestamp as nat, false),
        ]
    }

    /// The line that is written for the message.
    pub open spec fn wire(&self) -> Seq<char> {
        join(self.fields(), ':')
    }

    /// Why a list of fields is refused, or `None` where it is accepted.
    /// The count is tested first, then the fields in their order.
    pub open spec fn rejection(f: Seq<Seq<char>>) -> Option<ParseFailure> {
        if f.len() < 3 {
            Some(ParseFailure::InvalidFieldCount(3, f.len()))
        } else if unsigned_value(f[2], false, 0xffff_ffff_ffff_ffff) is None {
            Some(ParseFailure::InvalidPingTime(f[2]))
        } else {
            None
        }
    }

    /// Whether an accepted list of fields is read as the message `m`.
    pub open spec fn decodes(f: Seq<Seq<char>>, m: PongMessage) -> bool {
        &&& f.len() >= 3
        &&& m.from@ == uppercase(without_prefix(f[0], 3))
        &&& m.to@ == uppercase(f[1])
        &&& unsigned_value(f[2], false, 0xffff_ffff_ffff_ffff) == Some(m.timestamp as nat)
    }

    /// Whether a list of fields is written as the message writes it: the
    /// marker in front, callsigns in upper case, numbers without sign or
    /// needless zeros, and no field more than is written.
    pub open spec fn canonical(f: Seq<Seq<char>>) -> bool {
        &&& f.len() == 3
        &&& begins_with(f[0], "$PO"@)
        &&& is_upper(without_prefix(f[0], 3))
        &&& is_upper(f[1])
        &&& is_plain_number(f[2], false, 0xffff_ffff_ffff_ffff)
    }

    /// The message of the given parts, its callsigns put in upper case.
    pub fn new(from: &str, to: &str, timestamp: u64) -> (m: PongMessage)
        ensures
            m.from@ == uppercase(from@),
            m.to@ == uppercase(to@),
            m.timestamp == timestamp,
    {
        PongMessage {
            from: to_upper(from),
            to: to_upper(to),
            timestamp,
        }
    }

    /// Reads the message from the fields of its line.
    pub fn try_from(fields: &[&str]) -> (r: Result<PongMessage, FsdMessageParseError>)
        ensures
            match r {
                Ok(m) => PongMessage::rejection(texts(fields@)) is None && PongMessage::decodes(
                    texts(fields@),
                    m,
                ),
                Err(e) => PongMessage::rejection(texts(fields@)) == Some(e@),
            },
    {
        let ghost f = texts(fields@);
        if fields.len() < 3 {
            return Err(FsdMessageParseError::InvalidFieldCount(3, fields.len()));
        }
        assert(forall|i: int| 0 <= i < fields.len() ==> f[i] == (#[trigger] fields@[i])@);
        let first = skip_prefix(fields[0], 3);
        let timestamp = match parse_unsigned(fields[2], false, 0xffff_ffff_ffff_ffff) {
            Some(n) => n as u64,
            None => {
                return Err(FsdMessageParseError::InvalidPingTime(fields[2].to_owned()));
            },
        };
        Ok(PongMessage::new(first.as_str(), fields[1], timestamp))
    }

    /// The line that is written for the message.
    pub fn to_string(&self) -> (r: String)
        ensures
            r@ == self.wire(),
    {
        let mut parts: Vec<String> = Vec::new();
        parts.push(followed_by("$PO", self.from.as_str()));
        parts.push(self.to.clone());
        parts.push(number_text(self.timestamp as u64));
        let r = join_strings(&parts, 0, ':');
        proof {
            assert(views(parts@) =~= self.fields());
            assert(views(parts@).subrange(0, parts.len() as int) =~= views(parts@));
        }
        r
    }

    /// A line in the form in which the message is written is read as a
    /// message that is written as that very line.
    pub proof fn law_round_trip(f: Seq<Seq<char>>, m: PongMessage)
        requires
            PongMessage::canonical(f),
            PongMessage::decodes(f, m),
        ensures
            m.fields() == f,
            m.wire() == join(f, ':'),
    {
        reveal_strlit("$PO");
        assert("$PO"@ + without_prefix(f[0], 3) =~= f[0]);
        assert(m.fields() =~= f);
    }
}

/// Asks a pilot client what aircraft it flies.
#[derive(Debug, Clone)]
pub struct PlaneInfoRequestMessage {
    pub from: String,
    pub to: String,
}

impl PlaneInfoRequestMessage {
    /// The fields that are written for the message, in order, the first
    /// behind the marker of its kind.
    pub open spec fn fields(&self) -> Seq<Seq<char>> {
        seq![
            "#SB"@ + self.from@,
            self.to@,
            "PIR"@,
        ]
    }

    /// The line that is written for the message.
    pub open spec fn wire(&self) -> Seq<char> {
        join(self.fields(), ':')
    }

    /// Why a list of fields is refused, or `None` where it is accepted.
    pub open spec fn rejection(f: Seq<Seq<char>>) -> Option<ParseFailure> {
        if f.len() < 3 {
            Some(ParseFailure::InvalidFieldCount(3, f.len()))
        } else {
            None
        }
    }

    /// Whether an accepted list of fields is read as the message `m`.
    pub open spec fn decodes(f: Seq<Seq<char>>, m: PlaneInfoRequestMessage) -> bool {
        &&& f.len() >= 3
        &&& m.from@ == uppercase(without_prefix(f[0], 3))
        &&& m.to@ == uppercase(f[1])
    }

    /// Whether a list of fields is written as the message writes it: the
    /// marker in front, callsigns in upper case, numbers without sign or
    /// needless zeros, and no field more than is written.
    pub open spec fn canonical(f: Seq<Seq<char>>) -> bool {
        &&& f.len() == 3
        &&& begins_with(f[0], "#SB"@)
        &&& is_upper(without_prefix(f[0], 3))
        &&& is_upper(f[1])
        &&& f[2] == "PIR"@
    }

    /// The message of the given parts, its callsigns put in upper case.
    pub fn new(from: &str, to: &str) -> (m: PlaneInfoRequestMessage)
        ensures
            m.from@ == uppercase(from@),
            m.to@ == uppercase(to@),
    {
        PlaneInfoRequestMessage {
            from: to_upper(from),
            to: to_upper(to),
        }
    }

    /// Reads the message from the fields of its line.
    pub fn try_from(fields: &[&str]) -> (r: Result<PlaneInfoRequestMessage, FsdMessageParseError>)
        ensures
            match r {
                Ok(m) => PlaneInfoRequestMessage::rejection(texts(fields@)) is None
                    && PlaneInfoRequestMessage::decodes(texts(fields@), m),
                Err(e) => PlaneInfoRequestMessage::rejection(texts(fields@)) == Some(e@),
            },
    {
        let ghost f = texts(fields@);
        if fields.len() < 3 {
            return Err(FsdMessageParseError::InvalidFieldCount(3, fields.len()));
        }
        assert(forall|i: int| 0 <= i < fields.len() ==> f[i] == (#[trigger] fields@[i])@);
        let first = skip_prefix(fields[0], 3);
        Ok(PlaneInfoRequestMessage::new(first.as_str(), fields[1]))
    }

    /// The line that is written for the message.
    pub fn to_string(&self) -> (r: String)
        ensures
            r@ == self.wire(),
    {
        let mut parts: Vec<String> = Vec::new();
        parts.push(followed_by("#SB", self.from.as_str()));
        parts.push(self.to.clone());
        parts.push("PIR".to_owned());
        let r = join_strings(&parts, 0, ':');
        proof {
            assert(views(parts@) =~= self.fields());
            assert(views(parts@).subrange(0, parts.len() as int) =~= views(parts@));
        }
        r
    }

    /// A line in the form in which the message is written is read as a
    /// message that is written as that very line.
    pub proof fn law_round_trip(f: Seq<Seq<char>>, m: PlaneInfoRequestMessage)
        requires
            PlaneInfoRequestMessage::canonical(f),
            PlaneInfoRequestMessage::decodes(f, m),
        ensures
            m.fields() == f,
            m.wire() == join(f, ':'),
    {
        reveal_strlit("#SB");
        assert("#SB"@ + without_prefix(f[0], 3) =~= f[0]);
        assert(m.fields() =~= f);
    }
}

/// Offers the track of an aircraft to another controller.
#[derive(Debug, Clone)]
pub struct HandoffOfferMessage {
    pub from: String,
    pub to: String,
    pub aircraft: String,
}

impl HandoffOfferMessage {
    /// The fields that are written for the message, in order, the first
    /// behind the marker of its kind.
    pub open spec fn fields(&self) -> Seq<Seq<char>> {
        seq![
            "$HO"@ + self.from@,
            self.to@,
            self.aircraft@,
        ]
    }

    /// The line that is written for the message.
    pub open spec fn wire(&self) -> Seq<char> {
        join(self.fields(), ':')
    }

    /// Why a list of fields is refused, or `None` where it is accepted.
    pub open spec fn rejection(f: Seq<Seq<char>>) -> Option<ParseFailure> {
        if f.len() < 3 {
            Some(ParseFailure::InvalidFieldCount(3, f.len()))
        } else {
            None
        }
    }

    /// Whether an accepted list of fields is read as the message `m`.
    pub open spec fn decodes(f: Seq<Seq<char>>, m: HandoffOfferMessage) -> bool {
        &&& f.len() >= 3
        &&& m.from@ == uppercase(without_prefix(f[0], 3))
        &&& m.to@ == uppercase(f[1])
        &&& m.aircraft@ == uppercase(f[2])
    }

    /// Whether a list of fields is written as the message writes it: the
    /// marker in front, callsigns in upper case, numbers without sign or
    /// needless zeros, and no field more than is written.
    pub open spec fn canonical(f: Seq<Seq<char>>) -> bool {
        &&& f.len() == 3
        &&& begins_with(f[0], "$HO"@)
        &&& is_upper(without_prefix(f[0], 3))
        &&& is_upper(f[1])
        &&& is_upper(f[2])
    }

    /// The message of the given parts, its callsigns put in upper case.
    pub fn new(from: &str, to: &str, aircraft: &str) -> (m: HandoffOfferMessage)
        ensures
            m.from@ == uppercase(from@),
            m.to@ == uppercase(to@),
            m.aircraft@ == uppercase(aircraft@),
    {
        HandoffOfferMessage {
            from: to_upper(from),
            to: to_upper(to),
            aircraft: to_upper(aircraft),
        }
    }

    /// Reads the message from the fields of its line.
    pub fn try_from(fields: &[&str]) -> (r: Result<HandoffOfferMessage, FsdMessageParseError>)
        ensures
            match r {
                Ok(m) => HandoffOfferMessage::rejection(texts(fields@)) is None
                    && HandoffOfferMessage::decodes(texts(fields@), m),
                Err(e) => HandoffOfferMessage::rejection(texts(fields@)) == Some(e@),
            },
    {
        let ghost f = texts(fields@);
        if fields.len() < 3 {
            return Err(FsdMessageParseError::InvalidFieldCount(3, fields.len()));
        }
        assert(forall|i: int| 0 <= i < fields.len() ==> f[i] == (#[trigger] fields@[i])@);
        let first = skip_prefix(fields[0], 3);
        Ok(HandoffOfferMessage::new(first.as_str(), fields[1], fields[2]))
    }

    /// The line that is written for the message.
    pub fn to_string(&self) -> (r: String)
        ensures
            r@ == self.wire(),
    {
        let mut parts: Vec<String> = Vec::new();
        parts.push(followed_by("$HO", self.from.as_str()));
        parts.push(self.to.clone());
        parts.push(self.aircraft.clone());
        let r = join_strings(&parts, 0, ':');
        proof {
            assert(views(parts@) =~= self.fields());
            assert(views(parts@).subrange(0, parts.len() as int) =~= views(parts@));
        }
        r
    }

    /// A line in the form in which the message is written is read as a
    /// message that is written as that very line.
    pub proof fn law_round_trip(f: Seq<Seq<char>>, m: HandoffOfferMessage)
        requires
            HandoffOfferMessage::canonical(f),
            HandoffOfferMessage::decodes(f, m),
        ensures
            m.fields() == f,
            m.wire() == join(f, ':'),
    {
        reveal_strlit("$HO");
        assert("$HO"@ + without_prefix(f[0], 3) =~= f[0]);
        assert(m.fields() =~= f);
    }
}

/// Accepts the track of an aircraft that was offered.
#[derive(Debug, Clone)]
pub struct HandoffAcceptMessage {
    pub from: String,
    pub to: String,
    pub aircraft: String,
}

impl HandoffAcceptMessage {
    /// The fields that are written for the message, in order, the first
    /// behind the marker of its kind.
    pub open spec fn fields(&self) -> Seq<Seq<char>> {
        seq![
            "$HA"@ + self.from@,
            self.to@,
            self.aircraft@,
        ]
    }

    /// The line that is written for the message.
    pub open spec fn wire(&self) -> Seq<char> {
        join(self.fields(), ':')
    }

    /// Why a list of fields is refused, or `None` where it is accepted.
    pub open spec fn rejection(f: Seq<Seq<char>>) -> Option<ParseFailure> {
        if f.len() < 3 {
            Some(ParseFailure::InvalidFieldCount(3, f.len()))
        } else {
            None
        }
    }

    /// Whether an accepted list of fields is read as the message `m`.
    pub open spec fn decodes(f: Seq<Seq<char>>, m: HandoffAcceptMessage) -> bool {
        &&& f.len() >= 3
        &&& m.from@ == uppercase(without_prefix(f[0], 3))
        &&& m.to@ == uppercase(f[1])
        &&& m.aircraft@ == uppercase(f[2])
    }

    /// Whether a list of fields is written as the message writes it: the
    /// marker in front, callsigns in upper case, numbers without sign or
    /// needless zeros, and no field more than is written.
    pub open spec fn canonical(f: Seq<Seq<char>>) -> bool {
        &&& f.len() == 3
        &&& begins_with(f[0], "$HA"@)
        &&& is_upper(without_prefix(f[0], 3))
        &&& is_upper(f[1])
        &&& is_upper(f[2])
    }

    /// The message of the given parts, its callsigns put in upper case.
    pub fn new(from: &str, to: &str, aircraft: &str) -> (m: HandoffAcceptMessage)
        ensures
            m.from@ == uppercase(from@),
            m.to@ == uppercase(to@),
            m.aircraft@ == uppercase(aircraft@),
    {
        HandoffAcceptMessage {
            from: to_upper(from),
            to: to_upper(to),
            aircraft: to_upper(aircraft),
        }
    }

    /// Reads the message from the fields of its line.
    pub fn try_from(fields: &[&str]) -> (r: Result<HandoffAcceptMessage, FsdMessageParseError>)
        ensures
            match r {
                Ok(m) => HandoffAcceptMessage::rejection(texts(fields@)) is None
                    && HandoffAcceptMessage::decodes(texts(fields@), m),
                Err(e) => HandoffAcceptMessage::rejection(texts(fields@)) == Some(e@),
            },
    {
        let ghost f = texts(fields@);
        if fields.len() < 3 {
            return Err(FsdMessageParseError::InvalidFieldCount(3, fields.len()));
        }
        assert(forall|i: int| 0 <= i < fields.len() ==> f[i] == (#[trigger] fields@[i])@);
        let first = skip_prefix(fields[0], 3);
        Ok(HandoffAcceptMessage::new(first.as_str(), fields[1], fields[2]))
    }

    /// The line that is written for the message.
    pub fn to_string(&self) -> (r: String)
        ensures
            r@ == self.wire(),
    {
        let mut parts: Vec<String> = Vec::new();
        parts.push(followed_by("$HA", self.from.as_str()));
        parts.push(self.to.clone());
        parts.push(self.aircraft.clone());
        let r = join_strings(&parts, 0, ':');
        proof {
            assert(views(parts@) =~= self.fields());
            assert(views(parts@).subrange(0, parts.len() as int) =~= views(parts@));
        }
        r
    }

    /// A line in the form in which the message is written is read as a
    /// message that is written as that very line.
    pub proof fn law_round_trip(f: Seq<Seq<char>>, m: HandoffAcceptMessage)
        requires
            HandoffAcceptMessage::canonical(f),
            HandoffAcceptMessage::decodes(f, m),
        ensures
            m.fields() == f,
            m.wire() == join(f, ':'),
    {
        reveal_strlit("$HA");
        assert("$HA"@ + without_prefix(f[0], 3) =~= f[0]);
        assert(m.fields() =~= f);
    }
}

} // verus!
