//! Text sent to a callsign or on radio frequencies, and the registration
//! of a pilot.

use vstd::prelude::*;
use vstd::string::*;
use crate::enums::{PilotRating, ProtocolRevision, SimulatorType};
use crate::errors::{FsdMessageParseError, ParseFailure};
use crate::numbers::{number_text, numeral};
use crate::structs::RadioFrequency;
use crate::text::{
    begins_with, field_or_empty, followed_by, is_upper, join, join_from, join_strings,
    lemma_join_parts, skip_prefix, split, texts, to_upper, uppercase, views, without_prefix,
};
use crate::util::{
    frequencies_among, frequency_parts, group_frequencies_with_symbol, marked_of, marked_texts,
    split_frequencies,
};

verus! {

/// Sent by a pilot client to register itself on the network after the
/// initial handshake.
#[derive(Debug, Clone)]
pub struct PilotRegisterMessage {
    pub from: String,
    pub to: String,
    pub cid: String,
    pub password: String,
    pub rating: PilotRating,
    pub protocol: ProtocolRevision,
    pub simulator_type: SimulatorType,
    pub real_name: String,
}

impl PilotRegisterMessage {
    /// The fields that are written for the message, in order, the first
    /// behind the marker of its kind.
    pub open spec fn fields(&self) -> Seq<Seq<char>> {
        seq![
            "#AP"@ + self.from@,
            self.to@,
            self.cid@,
            self.password@,
            numeral(self.rating.code(), false),
            numeral(self.protocol.code(), false),
            numeral(self.simulator_type.code(), false),
            self.real_name@,
        ]
    }

    /// The line that is written for the message.
    pub open spec fn wire(&self) -> Seq<char> {
        join(self.fields(), ':')
    }

    /// Why a list of fields is refused, or `None` where it is accepted.
    /// The count is tested first, then rating and protocol.
    pub open spec fn rejection(f: Seq<Seq<char>>) -> Option<ParseFailure> {
        if f.len() < 7 {
            Some(ParseFailure::InvalidFieldCount(7, f.len()))
        } else if PilotRating::of_text(f[4]) is None {
            Some(ParseFailure::InvalidRating(f[4]))
        } else if ProtocolRevision::of_text(f[5]) is None {
            Some(ParseFailure::InvalidProtocolRevison(f[5]))
        } else {
            None
        }
    }

    /// Whether an accepted list of fields is read as the message `m`. The
    /// real name is the eighth field, or empty where there is none; a
    /// simulator that is not known is `Unknown`.
    pub open spec fn decodes(f: Seq<Seq<char>>, m: PilotRegisterMessage) -> bool {
        &&& f.len() >= 7
        &&& m.from@ == uppercase(without_prefix(f[0], 3))
        &&& m.to@ == uppercase(f[1])
        &&& m.cid@ == f[2]
        &&& m.password@ == f[3]
        &&& PilotRating::of_text(f[4]) == Some(m.rating)
        &&& ProtocolRevision::of_text(f[5]) == Some(m.protocol)
        &&& m.simulator_type == match SimulatorType::of_text(f[6]) {
            Some(simulator) => simulator,
            None => SimulatorType::Unknown,
        }
        &&& m.real_name@ == field_or_empty(f, 7)
    }

    /// Whether a list of fields is written as the message writes it: the
    /// marker in front, callsigns in upper case, the three numbers without
    /// sign or needless zeros, and eight fields.
    pub open spec fn canonical(f: Seq<Seq<char>>) -> bool {
        &&& f.len() == 8
        &&& begins_with(f[0], "#AP"@)
        &&& is_upper(without_prefix(f[0], 3))
        &&& is_upper(f[1])
        &&& PilotRating::of_text(f[4]) is Some ==> numeral(
            PilotRating::of_text(f[4])->0.code(),
            false,
        ) == f[4]
        &&& ProtocolRevision::of_text(f[5]) is Some ==> numeral(
            ProtocolRevision::of_text(f[5])->0.code(),
            false,
        ) == f[5]
        &&& numeral(
            match SimulatorType::of_text(f[6]) {
                Some(simulator) => simulator.code(),
                None => 0,
            },
            false,
        ) == f[6]
    }

    /// A line in the form in which the message is written is read as a
    /// message that is written as that very line.
    pub proof fn law_round_trip(f: Seq<Seq<char>>, m: PilotRegisterMessage)
        requires
            PilotRegisterMessage::canonical(f),
            PilotRegisterMessage::decodes(f, m),
        ensures
            m.fields() == f,
            m.wire() == join(f, ':'),
    {
        reveal_strlit("#AP");
        assert("#AP"@ + without_prefix(f[0], 3) =~= f[0]);
        assert(m.fields() =~= f);
    }

    /// The message of the given parts, its callsigns put in upper case.
    pub fn new(
        from: &str,
        to: &str,
        real_name: &str,
        cid: &str,
        password: &str,
        rating: PilotRating,
        protocol: ProtocolRevision,
        simulator_type: SimulatorType,
    ) -> (m: PilotRegisterMessage)
        ensures
            m.from@ == uppercase(from@),
            m.to@ == uppercase(to@),
            m.real_name@ == real_name@,
            m.cid@ == cid@,
            m.password@ == password@,
            m.rating == rating,
            m.protocol == protocol,
            m.simulator_type == simulator_type,
    {
        PilotRegisterMessage {
            from: to_upper(from),
            to: to_upper(to),
            cid: cid.to_owned(),
            password: password.to_owned(),
            rating,
            protocol,
            simulator_type,
            real_name: real_name.to_owned(),
        }
    }

    /// Reads the message from the fields of its line.
    pub fn try_from(fields: &[&str]) -> (r: Result<PilotRegisterMessage, FsdMessageParseError>)
        ensures
            match r {
                Ok(m) => PilotRegisterMessage::rejection(texts(fields@)) is None
                    && PilotRegisterMessage::decodes(texts(fields@), m),
                Err(e) => PilotRegisterMessage::rejection(texts(fields@)) == Some(e@),
            },
    {
        let ghost f = texts(fields@);
        if fields.len() < 7 {
            return Err(FsdMessageParseError::InvalidFieldCount(7, fields.len()));
        }
        assert(forall|i: int| 0 <= i < fields.len() ==> f[i] == (#[trigger] fields@[i])@);
        let first = skip_prefix(fields[0], 3);
        let real_name = if fields.len() > 7 {
            fields[7]
        } else {
            ""
        };
        proof {
            reveal_strlit("");
            assert(""@ =~= Seq::<char>::empty());
        }
        let rating = match PilotRating::from_str(fields[4]) {
            Ok(v) => v,
            Err(e) => {
                return Err(e);
            },
        };
        let protocol = match ProtocolRevision::from_str(fields[5]) {
            Ok(v) => v,
            Err(e) => {
                return Err(e);
            },
        };
        Ok(
            PilotRegisterMessage::new(
                first.as_str(),
                fields[1],
                real_name,
                fields[2],
                fields[3],
                rating,
                protocol,
                SimulatorType::from(fields[6]),
            ),
        )
    }

    /// The line that is written for the message.
    pub fn to_string(&self) -> (r: String)
        ensures
            r@ == self.wire(),
    {
        let mut parts: Vec<String> = Vec::new();
        parts.push(followed_by("#AP", self.from.as_str()));
        parts.push(self.to.clone());
        parts.push(self.cid.clone());
        parts.push(self.password.clone());
        parts.push(number_text(self.rating.number() as u64));
        parts.push(number_text(self.protocol.number() as u64));
        parts.push(number_text(self.simulator_type.number() as u64));
        parts.push(self.real_name.clone());
        let r = join_strings(&parts, 0, ':');
        proof {
            assert(views(parts@) =~= self.fields());
            assert(views(parts@).subrange(0, parts.len() as int) =~= views(parts@));
        }
        r
    }
}

/// Text sent to a callsign.
#[derive(Debug, Clone)]
pub struct TextMessage {
    pub from: String,
    pub to: String,
    pub message: String,
}

impl TextMessage {
    /// The fields that are written for the message, in order. The text is
    /// one field here, whatever colons it holds.
    pub open spec fn fields(&self) -> Seq<Seq<char>> {
        seq!["#TM"@ + self.from@, self.to@, self.message@]
    }

    /// The line that is written for the message.
    pub open spec fn wire(&self) -> Seq<char> {
        join(self.fields(), ':')
    }

    /// Why a list of fields is refused, or `None` where it is accepted.
    pub open spec fn rejection(f: Seq<Seq<char>>) -> Option<ParseFailure> {
        if f.len() < 3 {
            Some(ParseFailure::InvalidFieldCount(3, f.len()))
        } else {
            None
        }
    }

    /// Whether an accepted list of fields is read as the message `m`. The
    /// text is all that follows the second field, colons included.
    pub open spec fn decodes(f: Seq<Seq<char>>, m: TextMessage) -> bool {
        &&& f.len() >= 3
        &&& m.from@ == uppercase(without_prefix(f[0], 3))
        &&& m.to@ == uppercase(f[1])
        &&& m.message@ == join(f.subrange(2, f.len() as int), ':')
    }

    /// Whether a list of fields is written as the message writes it.
    pub open spec fn canonical(f: Seq<Seq<char>>) -> bool {
        &&& f.len() >= 3
        &&& begins_with(f[0], "#TM"@)
        &&& is_upper(without_prefix(f[0], 3))
        &&& is_upper(f[1])
    }

    /// The message of the given parts, its callsigns put in upper case.
    pub fn new(from: &str, to: &str, message: &str) -> (m: TextMessage)
        ensures
            m.from@ == uppercase(from@),
            m.to@ == uppercase(to@),
            m.message@ == message@,
    {
        TextMessage { from: to_upper(from), to: to_upper(to), message: message.to_owned() }
    }

    /// Reads the message from the fields of its line.
    pub fn try_from(fields: &[&str]) -> (r: Result<TextMessage, FsdMessageParseError>)
        ensures
            match r {
                Ok(m) => TextMessage::rejection(texts(fields@)) is None && TextMessage::decodes(
                    texts(fields@),
                    m,
                ),
                Err(e) => TextMessage::rejection(texts(fields@)) == Some(e@),
            },
    {
        let ghost f = texts(fields@);
        if fields.len() < 3 {
            return Err(FsdMessageParseError::InvalidFieldCount(3, fields.len()));
        }
        assert(forall|i: int| 0 <= i < fields.len() ==> f[i] == (#[trigger] fields@[i])@);
        let first = skip_prefix(fields[0], 3);
        let message = join_from(fields, 2, ':');
        Ok(TextMessage::new(first.as_str(), fields[1], message.as_str()))
    }

    /// The line that is written for the message.
    pub fn to_string(&self) -> (r: String)
        ensures
            r@ == self.wire(),
    {
        let mut parts: Vec<String> = Vec::new();
        parts.push(followed_by("#TM", self.from.as_str()));
        parts.push(self.to.clone());
        parts.push(self.message.clone());
        let r = join_strings(&parts, 0, ':');
        proof {
            assert(views(parts@) =~= self.fields());
            assert(views(parts@).subrange(0, parts.len() as int) =~= views(parts@));
        }
        r
    }

    /// A line in the form in which the message is written is read as a
    /// message that is written as that very line, whatever colons the text
    /// holds.
    pub proof fn law_round_trip(f: Seq<Seq<char>>, m: TextMessage)
        requires
            TextMessage::canonical(f),
            TextMessage::decodes(f, m),
        ensures
            m.wire() == join(f, ':'),
    {
        reveal_strlit("#TM");
        assert("#TM"@ + without_prefix(f[0], 3) =~= f[0]);
        let written = m.fields();
        lemma_join_parts(written, 2, ':');
        lemma_join_parts(f, 2, ':');
        assert(written.subrange(0, 2) =~= f.subrange(0, 2));
        assert(written.subrange(2, 3) =~= seq![m.message@]);
        assert(join(seq![m.message@], ':') == m.message@);
    }
}

/// Text sent on one or more radio frequencies.
#[derive(Debug, Clone)]
pub struct FrequencyMessage {
    pub from: String,
    pub to: Vec<RadioFrequency>,
    pub message: String,
}

impl FrequencyMessage {
    /// The fields that are written for the message, in order: the sender,
    /// the frequencies, each behind an `@` and with `&` between them, and
    /// the text.
    pub open spec fn fields(&self) -> Seq<Seq<char>> {
        seq!["#TM"@ + self.from@, join(marked_texts(self.to@), '&'), self.message@]
    }

    /// The line that is written for the message.
    pub open spec fn wire(&self) -> Seq<char> {
        join(self.fields(), ':')
    }

    /// Why a list of fields is refused, or `None` where it is accepted.
    pub open spec fn rejection(f: Seq<Seq<char>>) -> Option<ParseFailure> {
        if f.len() < 3 {
            Some(ParseFailure::InvalidFieldCount(3, f.len()))
        } else {
            None
        }
    }

    /// Whether an accepted list of fields is read as the message `m`. The
    /// frequencies are those among the pieces of the second field; the text
    /// is all that follows that field, colons included.
    pub open spec fn decodes(f: Seq<Seq<char>>, m: FrequencyMessage) -> bool {
        &&& f.len() >= 3
        &&& m.from@ == uppercase(without_prefix(f[0], 3))
        &&& frequency_parts(m.to@) == frequencies_among(split(f[1], '&', '@'))
        &&& m.message@ == join(f.subrange(2, f.len() as int), ':')
    }

    /// Whether a list of fields is written as the message writes it: the
    /// marker in front, the sender in upper case, and the second field as
    /// the frequencies that are read from it are written.
    pub open spec fn canonical(f: Seq<Seq<char>>) -> bool {
        &&& f.len() >= 3
        &&& begins_with(f[0], "#TM"@)
        &&& is_upper(without_prefix(f[0], 3))
        &&& join(marked_of(frequencies_among(split(f[1], '&', '@'))), '&') == f[1]
    }

    /// A line in the form in which the message is written is read as a
    /// message that is written as that very line, whatever colons the text
    /// holds.
    pub proof fn law_round_trip(f: Seq<Seq<char>>, m: FrequencyMessage)
        requires
            FrequencyMessage::canonical(f),
            FrequencyMessage::decodes(f, m),
        ensures
            m.wire() == join(f, ':'),
    {
        reveal_strlit("#TM");
        assert("#TM"@ + without_prefix(f[0], 3) =~= f[0]);
        assert(marked_texts(m.to@) =~= marked_of(frequency_parts(m.to@)));
        let written = m.fields();
        lemma_join_parts(written, 2, ':');
        lemma_join_parts(f, 2, ':');
        assert(written.subrange(0, 2) =~= f.subrange(0, 2));
        assert(written.subrange(2, 3) =~= seq![m.message@]);
        assert(join(seq![m.message@], ':') == m.message@);
    }

    /// The message of the given parts, its callsigns put in upper case.
    pub fn new(from: &str, to: Vec<RadioFrequency>, message: &str) -> (m: FrequencyMessage)
        ensures
            m.from@ == uppercase(from@),
            m.to == to,
            m.message@ == message@,
    {
        FrequencyMessage { from: to_upper(from), to, message: message.to_owned() }
    }

    /// Reads the message from the fields of its line.
    pub fn try_from(fields: &[&str]) -> (r: Result<FrequencyMessage, FsdMessageParseError>)
        ensures
            match r {
                Ok(m) => FrequencyMessage::rejection(texts(fields@)) is None
                    && FrequencyMessage::decodes(texts(fields@), m),
                Err(e) => FrequencyMessage::rejection(texts(fields@)) == Some(e@),
            },
    {
        let ghost f = texts(fields@);
        if fields.len() < 3 {
            return Err(FsdMessageParseError::InvalidFieldCount(3, fields.len()));
        }
        assert(forall|i: int| 0 <= i < fields.len() ==> f[i] == (#[trigger] fields@[i])@);
        let first = skip_prefix(fields[0], 3);
        let message = join_from(fields, 2, ':');
        Ok(FrequencyMessage::new(first.as_str(), split_frequencies(fields[1]), message.as_str()))
    }

    /// The line that is written for the message.
    pub fn to_string(&self) -> (r: String)
        ensures
            r@ == self.wire(),
    {
        let mut parts: Vec<String> = Vec::new();
        parts.push(followed_by("#TM", self.from.as_str()));
        parts.push(group_frequencies_with_symbol(self.to.as_slice()));
        parts.push(self.message.clone());
        let r = join_strings(&parts, 0, ':');
        proof {
            assert(views(parts@) =~= self.fields());
            assert(views(parts@).subrange(0, parts.len() as int) =~= views(parts@));
        }
        r
    }
}

} // verus!
