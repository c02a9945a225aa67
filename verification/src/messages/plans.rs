//! Flight plans and their amendments, the answer that tells what aircraft
//! a pilot flies, and the faults that a server reports.

use vstd::prelude::*;
use vstd::slice::slice_subrange;
use vstd::string::*;
use crate::errors::{FsdError, FsdMessageParseError, ParseFailure};
use crate::numbers::{is_padded_number, padded, padded_text, parse_unsigned, unsigned_value};
use crate::structs::{entry_value, plane_entries, FlightPlan, PlaneInfo};
use crate::text::{
    begins_with, followed_by, is_upper, join, join_strings, lemma_join_parts, optional_text,
    skip_prefix, texts, to_upper, uppercase, views, without_prefix,
};

verus! {

/// Tells what aircraft a pilot flies.
#[derive(Debug, Clone)]
pub struct PlaneInfoResponseMessage {
    pub from: String,
    pub to: String,
    pub plane_info: PlaneInfo,
}

impl PlaneInfoResponseMessage {
    /// The fields that are written for the message, in order. The plane
    /// information is one field here, with the colons between its entries.
    pub open spec fn fields(&self) -> Seq<Seq<char>> {
        seq!["#SB"@ + self.from@, self.to@, "PI"@, "GEN"@, self.plane_info.wire()]
    }

    /// The line that is written for the message.
    pub open spec fn wire(&self) -> Seq<char> {
        join(self.fields(), ':')
    }

    /// Why a list of fields is refused, or `None` where it is accepted.
    pub open spec fn rejection(f: Seq<Seq<char>>) -> Option<ParseFailure> {
        if f.len() < 5 {
            Some(ParseFailure::InvalidFieldCount(5, f.len()))
        } else {
            None
        }
    }

    /// Whether an accepted list of fields is read as the message `m`. The
    /// plane information is read from the fifth field on.
    pub open spec fn decodes(f: Seq<Seq<char>>, m: PlaneInfoResponseMessage) -> bool {
        let entries = f.subrange(4, f.len() as int);
        &&& f.len() >= 5
        &&& m.from@ == uppercase(without_prefix(f[0], 3))
        &&& m.to@ == uppercase(f[1])
        &&& optional_text(m.plane_info.equipment) == entry_value(entries, "EQUIPMENT"@)
        &&& optional_text(m.plane_info.airline) == entry_value(entries, "AIRLINE"@)
        &&& optional_text(m.plane_info.livery) == entry_value(entries, "LIVERY"@)
    }

    /// Whether a list of fields is written as the message writes it: the
    /// marker in front, callsigns in upper case, `PI` and `GEN` in the third
    /// and fourth field, and the entries as the plane information that is
    /// read from them is written.
    pub open spec fn canonical(f: Seq<Seq<char>>) -> bool {
        let entries = f.subrange(4, f.len() as int);
        &&& f.len() >= 5
        &&& begins_with(f[0], "#SB"@)
        &&& is_upper(without_prefix(f[0], 3))
        &&& is_upper(f[1])
        &&& f[2] == "PI"@
        &&& f[3] == "GEN"@
        &&& join(
            plane_entries(
                entry_value(entries, "EQUIPMENT"@),
                entry_value(entries, "AIRLINE"@),
                entry_value(entries, "LIVERY"@),
            ),
            ':',
        ) == join(entries, ':')
    }

    /// A line in the form in which the message is written is read as a
    /// message that is written as that very line.
    pub proof fn law_round_trip(f: Seq<Seq<char>>, m: PlaneInfoResponseMessage)
        requires
            PlaneInfoResponseMessage::canonical(f),
            PlaneInfoResponseMessage::decodes(f, m),
        ensures
            m.wire() == join(f, ':'),
    {
        reveal_strlit("#SB");
        assert("#SB"@ + without_prefix(f[0], 3) =~= f[0]);
        let written = m.fields();
        lemma_join_parts(written, 4, ':');
        lemma_join_parts(f, 4, ':');
        assert(written.subrange(0, 4) =~= f.subrange(0, 4));
        assert(written.subrange(4, 5) =~= seq![m.plane_info.wire()]);
        assert(join(seq![m.plane_info.wire()], ':') == m.plane_info.wire());
    }

    /// The message of the given parts, its callsigns put in upper case.
    pub fn new(from: &str, to: &str, plane_info: PlaneInfo) -> (m: PlaneInfoResponseMessage)
        ensures
            m.from@ == uppercase(from@),
            m.to@ == uppercase(to@),
            m.plane_info == plane_info,
    {
        PlaneInfoResponseMessage { from: to_upper(from), to: to_upper(to), plane_info }
    }

    /// Reads the message from the fields of its line.
    pub fn try_from(fields: &[&str]) -> (r: Result<
        PlaneInfoResponseMessage,
        FsdMessageParseError,
    >)
        ensures
            match r {
                Ok(m) => PlaneInfoResponseMessage::rejection(texts(fields@)) is None
                    && PlaneInfoResponseMessage::decodes(texts(fields@), m),
                Err(e) => PlaneInfoResponseMessage::rejection(texts(fields@)) == Some(e@),
            },
    {
        let ghost f = texts(fields@);
        if fields.len() < 5 {
            return Err(FsdMessageParseError::InvalidFieldCount(5, fields.len()));
        }
        assert(forall|i: int| 0 <= i < fields.len() ==> f[i] == (#[trigger] fields@[i])@);
        let first = skip_prefix(fields[0], 3);
        let entries = slice_subrange(fields, 4, fields.len());
        assert(texts(entries@) =~= f.subrange(4, f.len() as int));
        Ok(PlaneInfoResponseMessage::new(first.as_str(), fields[1], PlaneInfo::from(entries)))
    }

    /// The line that is written for the message.
    pub fn to_string(&self) -> (r: String)
        ensures
            r@ == self.wire(),
    {
        let mut parts: Vec<String> = Vec::new();
        parts.push(followed_by("#SB", self.from.as_str()));
        parts.push(self.to.clone());
        parts.push("PI".to_owned());
        parts.push("GEN".to_owned());
        parts.push(self.plane_info.to_string());
        let r = join_strings(&parts, 0, ':');
        proof {
            assert(views(parts@) =~= self.fields());
            assert(views(parts@).subrange(0, parts.len() as int) =~= views(parts@));
        }
        r
    }
}

/// Files the flight plan of an aircraft.
#[derive(Debug, Clone)]
pub struct FlightPlanMessage {
    pub to: String,
    pub callsign: String,
    pub flight_plan: FlightPlan,
}

impl FlightPlanMessage {
    /// The seventeen fields that are written for the message, in order.
    pub open spec fn fields(&self) -> Seq<Seq<char>> {
        seq!["$FP"@ + self.callsign@, self.to@] + self.flight_plan.fields()
    }

    /// The line that is written for the message.
    pub open spec fn wire(&self) -> Seq<char> {
        join(self.fields(), ':')
    }

    /// Why a list of fields is refused, or `None` where it is accepted:
    /// there are not exactly seventeen, or the fifteen from the third on are
    /// refused as a flight plan.
    pub open spec fn rejection(f: Seq<Seq<char>>) -> Option<ParseFailure> {
        if f.len() != 17 {
            Some(ParseFailure::InvalidFieldCount(17, f.len()))
        } else {
            FlightPlan::rejection(f.subrange(2, 17))
        }
    }

    /// Whether an accepted list of fields is read as the message `m`.
    pub open spec fn decodes(f: Seq<Seq<char>>, m: FlightPlanMessage) -> bool {
        &&& f.len() == 17
        &&& m.callsign@ == uppercase(without_prefix(f[0], 3))
        &&& m.to@ == uppercase(f[1])
        &&& FlightPlan::decodes(f.subrange(2, 17), m.flight_plan)
    }

    /// Whether a list of fields is written as the message writes it: the
    /// marker in front, callsigns in upper case, and the flight plan as it is
    /// written.
    pub open spec fn canonical(f: Seq<Seq<char>>) -> bool {
        &&& f.len() == 17
        &&& begins_with(f[0], "$FP"@)
        &&& is_upper(without_prefix(f[0], 3))
        &&& is_upper(f[1])
        &&& FlightPlan::canonical(f.subrange(2, 17))
    }

    /// A line in the form in which the message is written is read as a
    /// message that is written as that very line.
    pub proof fn law_round_trip(f: Seq<Seq<char>>, m: FlightPlanMessage)
        requires
            FlightPlanMessage::canonical(f),
            FlightPlanMessage::decodes(f, m),
        ensures
            m.fields() == f,
            m.wire() == join(f, ':'),
    {
        reveal_strlit("$FP");
        assert("$FP"@ + without_prefix(f[0], 3) =~= f[0]);
        FlightPlan::law_round_trip(f.subrange(2, 17), m.flight_plan);
        assert(m.fields() =~= f);
    }

    /// The message of the given parts, its callsigns put in upper case.
    pub fn new(to: &str, callsign: &str, flight_plan: FlightPlan) -> (m: FlightPlanMessage)
        ensures
            m.to@ == uppercase(to@),
            m.callsign@ == uppercase(callsign@),
            m.flight_plan == flight_plan,
    {
        FlightPlanMessage { to: to_upper(to), callsign: to_upper(callsign), flight_plan }
    }

    /// Reads the message from the fields of its line.
    pub fn try_from(fields: &[&str]) -> (r: Result<FlightPlanMessage, FsdMessageParseError>)
        ensures
            match r {
                Ok(m) => FlightPlanMessage::rejection(texts(fields@)) is None
                    && FlightPlanMessage::decodes(texts(fields@), m),
                Err(e) => FlightPlanMessage::rejection(texts(fields@)) == Some(e@),
            },
    {
        let ghost f = texts(fields@);
        if fields.len() != 17 {
            return Err(FsdMessageParseError::InvalidFieldCount(17, fields.len()));
        }
        assert(forall|i: int| 0 <= i < fields.len() ==> f[i] == (#[trigger] fields@[i])@);
        let first = skip_prefix(fields[0], 3);
        let plan = slice_subrange(fields, 2, 17);
        assert(texts(plan@) =~= f.subrange(2, 17));
        match FlightPlan::try_from(plan) {
            Ok(flight_plan) => Ok(FlightPlanMessage::new(fields[1], first.as_str(), flight_plan)),
            Err(e) => Err(e),
        }
    }

    /// The line that is written for the message.
    pub fn to_string(&self) -> (r: String)
        ensures
            r@ == self.wire(),
    {
        let mut parts: Vec<String> = Vec::new();
        parts.push(followed_by("$FP", self.callsign.as_str()));
        parts.push(self.to.clone());
        parts.push(self.flight_plan.to_string());
        let r = join_strings(&parts, 0, ':');
        proof {
            let written = self.fields();
            assert(views(parts@) =~= seq![written[0], written[1], self.flight_plan.wire()]);
            assert(views(parts@).subrange(0, parts.len() as int) =~= views(parts@));
            lemma_join_parts(views(parts@), 2, ':');
            lemma_join_parts(written, 2, ':');
            assert(views(parts@).subrange(0, 2) =~= written.subrange(0, 2));
            assert(views(parts@).subrange(2, 3) =~= seq![self.flight_plan.wire()]);
            assert(join(seq![self.flight_plan.wire()], ':') == self.flight_plan.wire());
            assert(written.subrange(2, written.len() as int) =~= self.flight_plan.fields());
        }
        r
    }
}

/// Amends the flight plan of an aircraft.
#[derive(Debug, Clone)]
pub struct FlightPlanAmendmentMessage {
    pub from: String,
    pub to: String,
    pub callsign: String,
    pub flight_plan: FlightPlan,
}

impl FlightPlanAmendmentMessage {
    /// The eighteen fields that are written for the message, in order.
    pub open spec fn fields(&self) -> Seq<Seq<char>> {
        seq!["$AM"@ + self.from@, self.to@, self.callsign@] + self.flight_plan.fields()
    }

    /// The line that is written for the message.
    pub open spec fn wire(&self) -> Seq<char> {
        join(self.fields(), ':')
    }

    /// Why a list of fields is refused, or `None` where it is accepted:
    /// there are not exactly eighteen, or the fifteen from the fourth on are
    /// refused as a flight plan.
    pub open spec fn rejection(f: Seq<Seq<char>>) -> Option<ParseFailure> {
        if f.len() != 18 {
            Some(ParseFailure::InvalidFieldCount(18, f.len()))
        } else {
            FlightPlan::rejection(f.subrange(3, 18))
        }
    }

    /// Whether an accepted list of fields is read as the message `m`.
    pub open spec fn decodes(f: Seq<Seq<char>>, m: FlightPlanAmendmentMessage) -> bool {
        &&& f.len() == 18
        &&& m.from@ == uppercase(without_prefix(f[0], 3))
        &&& m.to@ == uppercase(f[1])
        &&& m.callsign@ == uppercase(f[2])
        &&& FlightPlan::decodes(f.subrange(3, 18), m.flight_plan)
    }

    /// Whether a list of fields is written as the message writes it: the
    /// marker in front, callsigns in upper case, and the flight plan as it is
    /// written.
    pub open spec fn canonical(f: Seq<Seq<char>>) -> bool {
        &&& f.len() == 18
        &&& begins_with(f[0], "$AM"@)
        &&& is_upper(without_prefix(f[0], 3))
        &&& is_upper(f[1])
        &&& is_upper(f[2])
        &&& FlightPlan::canonical(f.subrange(3, 18))
    }

    /// A line in the form in which the message is written is read as a
    /// message that is written as that very line.
    pub proof fn law_round_trip(f: Seq<Seq<char>>, m: FlightPlanAmendmentMessage)
        requires
            FlightPlanAmendmentMessage::canonical(f),
            FlightPlanAmendmentMessage::decodes(f, m),
        ensures
            m.fields() == f,
            m.wire() == join(f, ':'),
    {
        reveal_strlit("$AM");
        assert("$AM"@ + without_prefix(f[0], 3) =~= f[0]);
        FlightPlan::law_round_trip(f.subrange(3, 18), m.flight_plan);
        assert(m.fields() =~= f);
    }

    /// The message of the given parts, its callsigns put in upper case.
    pub fn new(from: &str, to: &str, callsign: &str, flight_plan: FlightPlan) -> (m:
        FlightPlanAmendmentMessage)
        ensures
            m.from@ == uppercase(from@),
            m.to@ == uppercase(to@),
            m.callsign@ == uppercase(callsign@),
            m.flight_plan == flight_plan,
    {
        FlightPlanAmendmentMessage {
            from: to_upper(from),
            to: to_upper(to),
            callsign: to_upper(callsign),
            flight_plan,
        }
    }

    /// Reads the message from the fields of its line.
    pub fn try_from(fields: &[&str]) -> (r: Result<
        FlightPlanAmendmentMessage,
        FsdMessageParseError,
    >)
        ensures
            match r {
                Ok(m) => FlightPlanAmendmentMessage::rejection(texts(fields@)) is None
                    && FlightPlanAmendmentMessage::decodes(texts(fields@), m),
                Err(e) => FlightPlanAmendmentMessage::rejection(texts(fields@)) == Some(e@),
            },
    {
        let ghost f = texts(fields@);
        if fields.len() != 18 {
            return Err(FsdMessageParseError::InvalidFieldCount(18, fields.len()));
        }
        assert(forall|i: int| 0 <= i < fields.len() ==> f[i] == (#[trigger] fields@[i])@);
        let first = skip_prefix(fields[0], 3);
        let plan = slice_subrange(fields, 3, 18);
        assert(texts(plan@) =~= f.subrange(3, 18));
        match FlightPlan::try_from(plan) {
            Ok(flight_plan) => Ok(
                FlightPlanAmendmentMessage::new(first.as_str(), fields[1], fields[2], flight_plan),
            ),
            Err(e) => Err(e),
        }
    }

    /// The line that is written for the message.
    pub fn to_string(&self) -> (r: String)
        ensures
            r@ == self.wire(),
    {
        let mut parts: Vec<String> = Vec::new();
        parts.push(followed_by("$AM", self.from.as_str()));
        parts.push(self.to.clone());
        parts.push(self.callsign.clone());
        parts.push(self.flight_plan.to_string());
        let r = join_strings(&parts, 0, ':');
        proof {
            let written = self.fields();
            assert(views(parts@) =~= seq![
                written[0],
                written[1],
                written[2],
                self.flight_plan.wire(),
            ]);
            assert(views(parts@).subrange(0, parts.len() as int) =~= views(parts@));
            lemma_join_parts(views(parts@), 3, ':');
            lemma_join_parts(written, 3, ':');
            assert(views(parts@).subrange(0, 3) =~= written.subrange(0, 3));
            assert(views(parts@).subrange(3, 4) =~= seq![self.flight_plan.wire()]);
            assert(join(seq![self.flight_plan.wire()], ':') == self.flight_plan.wire());
            assert(written.subrange(3, written.len() as int) =~= self.flight_plan.fields());
        }
        r
    }
}

impl FsdError {
    /// Whether the code, the subject and the text of an error line are read
    /// as the fault `e`. The codes from 1 to 17 each stand for one fault;
    /// those for a missing callsign, flight plan or weather profile carry
    /// the subject in upper case; any other code is `Other`, with the text.
    pub open spec fn reads_as(code: nat, subject: Seq<char>, text: Seq<char>, e: FsdError) -> bool {
        if code == 7 {
            e matches FsdError::NoSuchCallsign(callsign) && callsign@ == uppercase(subject)
        } else if code == 8 {
            e matches FsdError::NoFlightPlan(callsign) && callsign@ == uppercase(subject)
        } else if code == 9 {
            e matches FsdError::NoWeatherProfile(station) && station@ == uppercase(subject)
        } else if 1 <= code <= 17 {
            e.code() == code
        } else {
            e matches FsdError::Other(message) && message@ == text
        }
    }

    /// The text that is written behind the code of the fault: that of
    /// `Other`, and nothing for any other fault.
    pub open spec fn text(&self) -> Seq<char> {
        match *self {
            FsdError::Other(message) => message@,
            _ => ""@,
        }
    }

    /// Reads a fault from the code, the subject and the text of an error
    /// line.
    pub fn from_code(code: u8, subject: &str, text: &str) -> (e: FsdError)
        ensures
            FsdError::reads_as(code as nat, subject@, text@, e),
    {
        if code == 1 {
            FsdError::CallsignInUse
        } else if code == 2 {
            FsdError::InvalidCallsign
        } else if code == 3 {
            FsdError::AlreadyRegistered
        } else if code == 4 {
            FsdError::SyntaxError
        } else if code == 5 {
            FsdError::InvalidSourceCallsign
        } else if code == 6 {
            FsdError::InvalidCidPassword
        } else if code == 7 {
            FsdError::NoSuchCallsign(to_upper(subject))
        } else if code == 8 {
            FsdError::NoFlightPlan(to_upper(subject))
        } else if code == 9 {
            FsdError::NoWeatherProfile(to_upper(subject))
        } else if code == 10 {
            FsdError::InvalidProtocolRevision
        } else if code == 11 {
            FsdError::RequestedLevelTooHigh
        } else if code == 12 {
            FsdError::ServerFull
        } else if code == 13 {
            FsdError::CertificateSuspended
        } else if code == 14 {
            FsdError::InvalidControl
        } else if code == 15 {
            FsdError::InvalidPositionForRating
        } else if code == 16 {
            FsdError::UnauthorisedClient
        } else if code == 17 {
            FsdError::AuthTimeOut
        } else {
            FsdError::Other(text.to_owned())
        }
    }
}

/// Reports a fault to a client.
#[derive(Debug, Clone)]
pub struct FsdErrorMessage {
    pub from: String,
    pub to: String,
    pub error_type: FsdError,
}

impl FsdErrorMessage {
    /// The five fields that are written for the message, in order: sender,
    /// receiver, the code in three digits, an empty field, and the text of
    /// the fault.
    pub open spec fn fields(&self) -> Seq<Seq<char>> {
        seq![
            "$ER"@ + self.from@,
            self.to@,
            padded(self.error_type.code() as nat, false, 3),
            ""@,
            self.error_type.text(),
        ]
    }

    /// The line that is written for the message.
    pub open spec fn wire(&self) -> Seq<char> {
        join(self.fields(), ':')
    }

    /// Why a list of fields is refused, or `None` where it is accepted.
    pub open spec fn rejection(f: Seq<Seq<char>>) -> Option<ParseFailure> {
        if f.len() < 5 {
            Some(ParseFailure::InvalidFieldCount(5, f.len()))
        } else if unsigned_value(f[2], false, 0xff) is None {
            Some(ParseFailure::InvalidServerError(f[2]))
        } else {
            None
        }
    }

    /// Whether an accepted list of fields is read as the message `m`.
    pub open spec fn decodes(f: Seq<Seq<char>>, m: FsdErrorMessage) -> bool {
        &&& f.len() >= 5
        &&& m.from@ == uppercase(without_prefix(f[0], 3))
        &&& m.to@ == uppercase(f[1])
        &&& unsigned_value(f[2], false, 0xff) is Some
        &&& FsdError::reads_as(unsigned_value(f[2], false, 0xff)->0, f[3], f[4], m.error_type)
    }

    /// Whether a list of fields is written as the message writes it: the
    /// marker in front, callsigns in upper case, a code from 1 to 18 in three
    /// digits, an empty fourth field, and a text only with the code 18.
    pub open spec fn canonical(f: Seq<Seq<char>>) -> bool {
        &&& f.len() == 5
        &&& begins_with(f[0], "$ER"@)
        &&& is_upper(without_prefix(f[0], 3))
        &&& is_upper(f[1])
        &&& is_padded_number(f[2], false, 3, 0xff)
        &&& 1 <= unsigned_value(f[2], false, 0xff)->0 <= 18
        &&& f[3] == ""@
        &&& unsigned_value(f[2], false, 0xff)->0 != 18 ==> f[4] == ""@
    }

    /// A line in the form in which the message is written is read as a
    /// message that is written as that very line.
    pub proof fn law_round_trip(f: Seq<Seq<char>>, m: FsdErrorMessage)
        requires
            FsdErrorMessage::canonical(f),
            FsdErrorMessage::decodes(f, m),
        ensures
            m.fields() == f,
            m.wire() == join(f, ':'),
    {
        reveal_strlit("$ER");
        assert("$ER"@ + without_prefix(f[0], 3) =~= f[0]);
        let code = unsigned_value(f[2], false, 0xff)->0;
        assert(m.error_type.code() == code);
        assert(m.fields() =~= f);
    }

    /// The message of the given parts, its callsigns put in upper case.
    pub fn new(from: &str, to: &str, error_type: FsdError) -> (m: FsdErrorMessage)
        ensures
            m.from@ == uppercase(from@),
            m.to@ == uppercase(to@),
            m.error_type == error_type,
    {
        FsdErrorMessage { from: to_upper(from), to: to_upper(to), error_type }
    }

    /// Reads the message from the fields of its line.
    pub fn try_from(fields: &[&str]) -> (r: Result<FsdErrorMessage, FsdMessageParseError>)
        ensures
            match r {
                Ok(m) => FsdErrorMessage::rejection(texts(fields@)) is None
                    && FsdErrorMessage::decodes(texts(fields@), m),
                Err(e) => FsdErrorMessage::rejection(texts(fields@)) == Some(e@),
            },
    {
        let ghost f = texts(fields@);
        if fields.len() < 5 {
            return Err(FsdMessageParseError::InvalidFieldCount(5, fields.len()));
        }
        assert(forall|i: int| 0 <= i < fields.len() ==> f[i] == (#[trigger] fields@[i])@);
        let first = skip_prefix(fields[0], 3);
        match parse_unsigned(fields[2], false, 0xff) {
            Some(code) => {
                let error_type = FsdError::from_code(code as u8, fields[3], fields[4]);
                Ok(FsdErrorMessage::new(first.as_str(), fields[1], error_type))
            },
            None => Err(FsdMessageParseError::InvalidServerError(fields[2].to_owned())),
        }
    }

    /// The line that is written for the message.
    pub fn to_string(&self) -> (r: String)
        ensures
            r@ == self.wire(),
    {
        let mut parts: Vec<String> = Vec::new();
        parts.push(followed_by("$ER", self.from.as_str()));
        parts.push(self.to.clone());
        parts.push(padded_text(self.error_type.error_number() as u64, false, 3));
        parts.push("".to_owned());
        parts.push(
            match &self.error_type {
                FsdError::Other(message) => message.clone(),
                _ => "".to_owned(),
            },
        );
        let r = join_strings(&parts, 0, ':');
        proof {
            assert(views(parts@) =~= self.fields());
            assert(views(parts@).subrange(0, parts.len() as int) =~= views(parts@));
        }
        r
    }
}

} // verus!
