//! The shared-state update: an envelope by which controller clients keep
//! what they know of an aircraft in step.

use vstd::prelude::*;
use vstd::string::*;
use crate::enums::VoiceCapability;
use crate::errors::{FsdMessageParseError, ParseFailure};
use crate::messages::query::too_few;
use crate::numbers::{
    is_padded_number, is_plain_number, number_text, numeral, padded, signed_numeral, signed_text,
};
use crate::scratchpad::ScratchPad;
use crate::structs::{lemma_plain_number_is_no_flight_level, squawk_of_text, TransponderCode};
use crate::text::{
    begins_with, followed_by, is_upper, join, join_strings, same_text, skip_prefix, texts, to_upper,
    uppercase, views, without_prefix,
};
use crate::util::{altitude_of, parse_altitude};

verus! {

/// What a shared-state update tells.
#[derive(Debug, Clone)]
pub enum SharedStateType {
    /// Asks for the version of the peer (`VER`).
    Version,
    /// Asks the peer to say who it is (`ID`).
    ID,
    /// Says who the sender is (`DI`).
    DI,
    /// The sender has this aircraft under control (`IH`).
    IHave { aircraft_callsign: String },
    /// The scratchpad of this aircraft (`SC`).
    ScratchPad { aircraft_callsign: String, contents: ScratchPad },
    /// The temporary altitude of this aircraft (`TA`).
    TempAltitude { aircraft_callsign: String, altitude: u32 },
    /// The cleared cruise altitude of this aircraft (`FA`).
    FinalAltitude { aircraft_callsign: String, altitude: u32 },
    /// How this aircraft communicates (`VT`).
    VoiceType { aircraft_callsign: String, voice_capability: VoiceCapability },
    /// The beacon code assigned to this aircraft (`BC`).
    BeaconCode { aircraft_callsign: String, code: TransponderCode },
    /// The offer to hand this aircraft off is withdrawn (`HC`).
    HandoffCancel { aircraft_callsign: String },
    /// The flight strip of this aircraft, with its format and its
    /// annotations where it has them (`ST`).
    FlightStrip { aircraft_callsign: String, format: Option<i32>, contents: Option<Vec<String>> },
    /// This aircraft is put on the departure list of the peer (`DP`).
    PushToDepartureList { aircraft_callsign: String },
    /// This aircraft is pointed out to the peer (`PT`).
    PointOut { aircraft_callsign: String },
}

/// The field of the format of a flight strip, where it has one.
pub open spec fn strip_format(format: Option<i32>) -> Seq<Seq<char>> {
    match format {
        Some(n) => seq![signed_numeral(n as int)],
        None => Seq::empty(),
    }
}

/// The fields of the annotations of a flight strip, where it has them.
pub open spec fn strip_contents(contents: Option<Vec<String>>) -> Seq<Seq<char>> {
    match contents {
        Some(items) => views(items@),
        None => Seq::empty(),
    }
}

impl SharedStateType {
    /// The update that a tag alone stands for, where it stands for one.
    pub open spec fn plain(tag: Seq<char>) -> Option<SharedStateType> {
        if tag == "VER"@ {
            Some(SharedStateType::Version)
        } else if tag == "ID"@ {
            Some(SharedStateType::ID)
        } else if tag == "DI"@ {
            Some(SharedStateType::DI)
        } else {
            None
        }
    }

    /// Why the fields of a shared-state line are refused, or `None` where
    /// they are accepted. `f` is the whole line; its fourth field is the tag.
    pub open spec fn rejection(f: Seq<Seq<char>>) -> Option<ParseFailure> {
        if f.len() < 4 {
            Some(ParseFailure::InvalidFieldCount(4, f.len()))
        } else if SharedStateType::plain(f[3]) is Some {
            None
        } else if f[3] == "IH"@ || f[3] == "HC"@ {
            too_few(f, 5)
        } else if f[3] == "SC"@ {
            too_few(f, 6)
        } else if f[3] == "TA"@ || f[3] == "FA"@ {
            if f.len() < 6 {
                Some(ParseFailure::InvalidFieldCount(6, f.len()))
            } else if altitude_of(f[5]) is None {
                Some(ParseFailure::InvalidAltitude(f[5]))
            } else {
                None
            }
        } else if f[3] == "VT"@ {
            if f.len() < 6 {
                Some(ParseFailure::InvalidFieldCount(6, f.len()))
            } else if VoiceCapability::of_text(f[5]) is None {
                Some(ParseFailure::InvalidVoiceCapability(f[5]))
            } else {
                None
            }
        } else if f[3] == "BC"@ {
            if f.len() < 6 {
                Some(ParseFailure::InvalidFieldCount(6, f.len()))
            } else if squawk_of_text(f[5]) is None {
                Some(ParseFailure::InvalidTransponderCode(f[5]))
            } else {
                None
            }
        } else {
            Some(ParseFailure::InvalidSharedStateType(f[3]))
        }
    }

    /// The least number of fields that a shared-state line with the tag
    /// `tag` must have.
    pub open spec fn fields_asked(tag: Seq<char>) -> nat {
        if SharedStateType::plain(tag) is Some {
            4
        } else if tag == "IH"@ || tag == "HC"@ {
            5
        } else if tag == "SC"@ || tag == "TA"@ || tag == "FA"@ || tag == "VT"@ || tag == "BC"@ {
            6
        } else {
            4
        }
    }

    /// A shared-state line with fewer fields than its tag asks for is
    /// refused with the number asked for and the number found.
    pub proof fn law_field_count(f: Seq<Seq<char>>)
        requires
            f.len() < 4 || f.len() < SharedStateType::fields_asked(f[3]),
        ensures
            SharedStateType::rejection(f) == Some(
                ParseFailure::InvalidFieldCount(
                    if f.len() < 4 {
                        4
                    } else {
                        SharedStateType::fields_asked(f[3])
                    },
                    f.len(),
                ),
            ),
    {
    }

    /// Whether the accepted fields of a shared-state line are read as `t`.
    pub open spec fn decodes(f: Seq<Seq<char>>, t: SharedStateType) -> bool {
        if f.len() < 4 {
            false
        } else if SharedStateType::plain(f[3]) is Some {
            t == SharedStateType::plain(f[3])->0
        } else if f[3] == "IH"@ {
            t matches SharedStateType::IHave { aircraft_callsign } && f.len() >= 5
                && aircraft_callsign@ == uppercase(f[4])
        } else if f[3] == "HC"@ {
            t matches SharedStateType::HandoffCancel { aircraft_callsign } && f.len() >= 5
                && aircraft_callsign@ == uppercase(f[4])
        } else if f[3] == "SC"@ {
            t matches SharedStateType::ScratchPad { aircraft_callsign, contents } && f.len() >= 6
                && aircraft_callsign@ == uppercase(f[4]) && ScratchPad::reads_as(f[5], contents)
        } else if f[3] == "TA"@ {
            t matches SharedStateType::TempAltitude { aircraft_callsign, altitude } && f.len()
                >= 6 && aircraft_callsign@ == uppercase(f[4]) && altitude_of(f[5]) == Some(
                altitude as nat,
            )
        } else if f[3] == "FA"@ {
            t matches SharedStateType::FinalAltitude { aircraft_callsign, altitude } && f.len()
                >= 6 && aircraft_callsign@ == uppercase(f[4]) && altitude_of(f[5]) == Some(
                altitude as nat,
            )
        } else if f[3] == "VT"@ {
            t matches SharedStateType::VoiceType { aircraft_callsign, voice_capability }
                && f.len() >= 6 && aircraft_callsign@ == uppercase(f[4])
                && VoiceCapability::of_text(f[5]) == Some(voice_capability)
        } else if f[3] == "BC"@ {
            t matches SharedStateType::BeaconCode { aircraft_callsign, code } && f.len() >= 6
                && aircraft_callsign@ == uppercase(f[4]) && squawk_of_text(f[5]) == Some(
                code.value(),
            )
        } else {
            false
        }
    }

    /// The fields that are written for the update: its tag, then what it
    /// tells.
    pub open spec fn fields(&self) -> Seq<Seq<char>> {
        match *self {
            SharedStateType::Version => seq!["VER"@],
            SharedStateType::ID => seq!["ID"@],
            SharedStateType::DI => seq!["DI"@],
            SharedStateType::IHave { aircraft_callsign } => seq!["IH"@, aircraft_callsign@],
            SharedStateType::ScratchPad { aircraft_callsign, contents } => seq![
                "SC"@,
                aircraft_callsign@,
                contents.wire(),
            ],
            SharedStateType::TempAltitude { aircraft_callsign, altitude } => seq![
                "TA"@,
                aircraft_callsign@,
                numeral(altitude as nat, false),
            ],
            SharedStateType::FinalAltitude { aircraft_callsign, altitude } => seq![
                "FA"@,
                aircraft_callsign@,
                numeral(altitude as nat, false),
            ],
            SharedStateType::VoiceType { aircraft_callsign, voice_capability } => seq![
                "VT"@,
                aircraft_callsign@,
                voice_capability.text(),
            ],
            SharedStateType::BeaconCode { aircraft_callsign, code } => seq![
                "BC"@,
                aircraft_callsign@,
                padded(code.value(), false, 4),
            ],
            SharedStateType::HandoffCancel { aircraft_callsign } => seq![
                "HC"@,
                aircraft_callsign@,
            ],
            SharedStateType::PointOut { aircraft_callsign } => seq!["PT"@, aircraft_callsign@],
            SharedStateType::PushToDepartureList { aircraft_callsign } => seq![
                "DP"@,
                aircraft_callsign@,
            ],
            SharedStateType::FlightStrip { aircraft_callsign, format, contents } => seq![
                "ST"@,
                aircraft_callsign@,
            ] + strip_format(format) + strip_contents(contents),
        }
    }

    /// The text that is written for the update.
    pub open spec fn wire(&self) -> Seq<char> {
        join(self.fields(), ':')
    }

    /// Reads the update of a shared-state line from the fields of the line.
    #[verifier::rlimit(40)]
    pub fn try_from(fields: &[&str]) -> (r: Result<SharedStateType, FsdMessageParseError>)
        ensures
            match r {
                Ok(t) => SharedStateType::rejection(texts(fields@)) is None
                    && SharedStateType::decodes(texts(fields@), t),
                Err(e) => SharedStateType::rejection(texts(fields@)) == Some(e@),
            },
    {
        let ghost f = texts(fields@);
        if fields.len() < 4 {
            return Err(FsdMessageParseError::InvalidFieldCount(4, fields.len()));
        }
        assert(forall|i: int| 0 <= i < fields.len() ==> f[i] == (#[trigger] fields@[i])@);
        let tag = fields[3];
        if same_text(tag, "VER") {
            return Ok(SharedStateType::Version);
        }
        if same_text(tag, "ID") {
            return Ok(SharedStateType::ID);
        }
        if same_text(tag, "DI") {
            return Ok(SharedStateType::DI);
        }
        if same_text(tag, "IH") {
            if fields.len() < 5 {
                return Err(FsdMessageParseError::InvalidFieldCount(5, fields.len()));
            }
            return Ok(SharedStateType::IHave { aircraft_callsign: to_upper(fields[4]) });
        }
        if same_text(tag, "HC") {
            if fields.len() < 5 {
                return Err(FsdMessageParseError::InvalidFieldCount(5, fields.len()));
            }
            return Ok(SharedStateType::HandoffCancel { aircraft_callsign: to_upper(fields[4]) });
        }
        let known = same_text(tag, "SC") || same_text(tag, "TA") || same_text(tag, "FA")
            || same_text(tag, "VT") || same_text(tag, "BC");
        if !known {
            return Err(FsdMessageParseError::InvalidSharedStateType(tag.to_owned()));
        }
        if fields.len() < 6 {
            return Err(FsdMessageParseError::InvalidFieldCount(6, fields.len()));
        }
        let aircraft_callsign = to_upper(fields[4]);
        if same_text(tag, "SC") {
            match ScratchPad::from_str(fields[5]) {
                Ok(contents) => Ok(SharedStateType::ScratchPad { aircraft_callsign, contents }),
                Err(e) => Err(e),
            }
        } else if same_text(tag, "TA") {
            match parse_altitude(fields[5]) {
                Ok(altitude) => Ok(SharedStateType::TempAltitude { aircraft_callsign, altitude }),
                Err(e) => Err(e),
            }
        } else if same_text(tag, "FA") {
            match parse_altitude(fields[5]) {
                Ok(altitude) => Ok(SharedStateType::FinalAltitude { aircraft_callsign, altitude }),
                Err(e) => Err(e),
            }
        } else if same_text(tag, "VT") {
            match VoiceCapability::from_str(fields[5]) {
                Ok(voice_capability) => Ok(
                    SharedStateType::VoiceType { aircraft_callsign, voice_capability },
                ),
                Err(e) => Err(e),
            }
        } else {
            match TransponderCode::from_str(fields[5]) {
                Ok(code) => Ok(SharedStateType::BeaconCode { aircraft_callsign, code }),
                Err(e) => Err(e),
            }
        }
    }

    /// Whether the fields of a shared-state line are written as the update
    /// writes them: callsigns in upper case, numbers without sign or
    /// needless zeros, a beacon code in four digits, and no field more than
    /// is written.
    pub open spec fn canonical(f: Seq<Seq<char>>) -> bool {
        if f.len() < 4 {
            false
        } else if SharedStateType::plain(f[3]) is Some {
            f.len() == 4
        } else if f[3] == "IH"@ || f[3] == "HC"@ {
            f.len() == 5 && is_upper(f[4])
        } else if f[3] == "SC"@ {
            f.len() == 6 && is_upper(f[4]) && ScratchPad::canonical(f[5])
        } else if f[3] == "TA"@ || f[3] == "FA"@ {
            f.len() == 6 && is_upper(f[4]) && is_plain_number(f[5], false, 0xffff_ffff)
        } else if f[3] == "VT"@ {
            f.len() == 6 && is_upper(f[4]) && (VoiceCapability::of_text(f[5]) is Some
                ==> VoiceCapability::of_text(f[5])->0.text() == f[5])
        } else if f[3] == "BC"@ {
            f.len() == 6 && is_upper(f[4]) && is_padded_number(f[5], false, 4, 0xffff)
        } else {
            false
        }
    }

    /// Fields in the form in which the update is written are read as an
    /// update that is written as those very fields.
    #[verifier::rlimit(40)]
    pub proof fn law_round_trip(f: Seq<Seq<char>>, t: SharedStateType)
        requires
            SharedStateType::canonical(f),
            SharedStateType::decodes(f, t),
        ensures
            t.fields() == f.subrange(3, f.len() as int),
    {
        let written = f.subrange(3, f.len() as int);
        let tag = f[3];
        if SharedStateType::plain(tag) is Some {
            assert(t == SharedStateType::plain(tag)->0);
            assert(t.fields() =~= seq![tag]);
        } else if tag == "IH"@ {
            assert(t.fields() =~= written);
        } else if tag == "HC"@ {
            assert(t.fields() =~= written);
        } else if tag == "SC"@ {
            match t {
                SharedStateType::ScratchPad { aircraft_callsign, contents } => {
                    ScratchPad::law_round_trip(f[5], contents);
                },
                _ => {},
            }
            assert(t.fields() =~= written);
        } else if tag == "TA"@ {
            lemma_plain_number_is_no_flight_level(f[5], 0xffff_ffff);
            assert(t.fields() =~= written);
        } else if tag == "FA"@ {
            lemma_plain_number_is_no_flight_level(f[5], 0xffff_ffff);
            assert(t.fields() =~= written);
        } else if tag == "VT"@ {
            assert(t.fields() =~= written);
        } else if tag == "BC"@ {
            assert(t.fields() =~= written);
        }
    }

    /// The fields that are written for the update, as strings.
    pub fn parts(&self) -> (r: Vec<String>)
        ensures
            views(r@) == self.fields(),
    {
        let mut parts: Vec<String> = Vec::new();
        match self {
            SharedStateType::Version => {
                parts.push("VER".to_owned());
            },
            SharedStateType::ID => {
                parts.push("ID".to_owned());
            },
            SharedStateType::DI => {
                parts.push("DI".to_owned());
            },
            SharedStateType::IHave { aircraft_callsign } => {
                parts.push("IH".to_owned());
                parts.push(aircraft_callsign.clone());
            },
            SharedStateType::ScratchPad { aircraft_callsign, contents } => {
                parts.push("SC".to_owned());
                parts.push(aircraft_callsign.clone());
                parts.push(contents.to_string());
            },
            SharedStateType::TempAltitude { aircraft_callsign, altitude } => {
                parts.push("TA".to_owned());
                parts.push(aircraft_callsign.clone());
                parts.push(number_text(*altitude as u64));
            },
            SharedStateType::FinalAltitude { aircraft_callsign, altitude } => {
                parts.push("FA".to_owned());
                parts.push(aircraft_callsign.clone());
                parts.push(number_text(*altitude as u64));
            },
            SharedStateType::VoiceType { aircraft_callsign, voice_capability } => {
                parts.push("VT".to_owned());
                parts.push(aircraft_callsign.clone());
                parts.push(voice_capability.to_string());
            },
            SharedStateType::BeaconCode { aircraft_callsign, code } => {
                parts.push("BC".to_owned());
                parts.push(aircraft_callsign.clone());
                parts.push(code.to_string());
            },
            SharedStateType::HandoffCancel { aircraft_callsign } => {
                parts.push("HC".to_owned());
                parts.push(aircraft_callsign.clone());
            },
            SharedStateType::PointOut { aircraft_callsign } => {
                parts.push("PT".to_owned());
                parts.push(aircraft_callsign.clone());
            },
            SharedStateType::PushToDepartureList { aircraft_callsign } => {
                parts.push("DP".to_owned());
                parts.push(aircraft_callsign.clone());
            },
            SharedStateType::FlightStrip { aircraft_callsign, format, contents } => {
                parts.push("ST".to_owned());
                parts.push(aircraft_callsign.clone());
                match format {
                    Some(n) => {
                        parts.push(signed_text(*n));
                    },
                    None => {},
                }
                let ghost head = views(parts@);
                assert(head =~= seq!["ST"@, aircraft_callsign@] + strip_format(*format));
                match contents {
                    Some(items) => {
                        let mut i: usize = 0;
                        assert(views(parts@) =~= head + views(items@).subrange(0, 0));
                        while i < items.len()
                            invariant
                                i <= items.len(),
                                views(parts@) == head + views(items@).subrange(0, i as int),
                            decreases items.len() - i,
                        {
                            let ghost before = views(parts@);
                            let item = items[i].clone();
                            assert(item@ == items@[i as int]@);
                            parts.push(item);
                            assert(views(parts@) =~= before.push(items@[i as int]@));
                            i += 1;
                            assert(views(items@).subrange(0, i as int) =~= views(items@).subrange(
                                0,
                                i - 1,
                            ).push(items@[i - 1]@));
                            assert(views(parts@) =~= head + views(items@).subrange(0, i as int));
                        }
                        assert(views(items@).subrange(0, i as int) =~= views(items@));
                    },
                    None => {
                        assert(views(parts@) =~= head + strip_contents(*contents));
                    },
                }
            },
        }
        assert(views(parts@) =~= self.fields());
        parts
    }

    /// The text that is written for the update.
    pub fn to_string(&self) -> (r: String)
        ensures
            r@ == self.wire(),
    {
        let parts = self.parts();
        assert(views(parts@).subrange(0, parts.len() as int) =~= views(parts@));
        join_strings(&parts, 0, ':')
    }
}

/// Tells another controller client what the sender knows of an aircraft.
#[non_exhaustive]
#[derive(Debug, Clone)]
pub struct SharedStateMessage {
    pub from: String,
    pub to: String,
    pub shared_state_type: SharedStateType,
}

impl SharedStateMessage {
    /// The fields that are written for the message, in order.
    pub open spec fn fields(&self) -> Seq<Seq<char>> {
        seq!["#PC"@ + self.from@, self.to@, "CCP"@] + self.shared_state_type.fields()
    }

    /// The line that is written for the message.
    pub open spec fn wire(&self) -> Seq<char> {
        join(self.fields(), ':')
    }

    /// Why a list of fields is refused, or `None` where it is accepted.
    pub open spec fn rejection(f: Seq<Seq<char>>) -> Option<ParseFailure> {
        SharedStateType::rejection(f)
    }

    /// Whether an accepted list of fields is read as the message `m`.
    pub open spec fn decodes(f: Seq<Seq<char>>, m: SharedStateMessage) -> bool {
        &&& f.len() >= 4
        &&& m.from@ == uppercase(without_prefix(f[0], 3))
        &&& m.to@ == uppercase(f[1])
        &&& SharedStateType::decodes(f, m.shared_state_type)
    }

    /// Whether a list of fields is written as the message writes it: the
    /// marker in front, callsigns in upper case, `CCP` in the third field,
    /// and the update as it is written.
    pub open spec fn canonical(f: Seq<Seq<char>>) -> bool {
        &&& f.len() >= 4
        &&& begins_with(f[0], "#PC"@)
        &&& is_upper(without_prefix(f[0], 3))
        &&& is_upper(f[1])
        &&& f[2] == "CCP"@
        &&& SharedStateType::canonical(f)
    }

    /// A line in the form in which the message is written is read as a
    /// message that is written as that very line.
    pub proof fn law_round_trip(f: Seq<Seq<char>>, m: SharedStateMessage)
        requires
            SharedStateMessage::canonical(f),
            SharedStateMessage::decodes(f, m),
        ensures
            m.fields() == f,
            m.wire() == join(f, ':'),
    {
        reveal_strlit("#PC");
        assert("#PC"@ + without_prefix(f[0], 3) =~= f[0]);
        SharedStateType::law_round_trip(f, m.shared_state_type);
        assert(m.fields() =~= f);
    }

    /// Whether `m` is the update `t` from `from` to `to`, the two callsigns
    /// in upper case.
    pub open spec fn carries(
        m: SharedStateMessage,
        from: Seq<char>,
        to: Seq<char>,
        t: SharedStateType,
    ) -> bool {
        m.from@ == uppercase(from) && m.to@ == uppercase(to) && m.shared_state_type == t
    }

    /// The message that carries the update, its callsigns put in upper case.
    fn new(from: &str, to: &str, shared_state_type: SharedStateType) -> (m: SharedStateMessage)
        ensures
            SharedStateMessage::carries(m, from@, to@, shared_state_type),
    {
        SharedStateMessage { from: to_upper(from), to: to_upper(to), shared_state_type }
    }

    /// Reads the message from the fields of its line.
    pub fn try_from(fields: &[&str]) -> (r: Result<SharedStateMessage, FsdMessageParseError>)
        ensures
            match r {
                Ok(m) => SharedStateMessage::rejection(texts(fields@)) is None
                    && SharedStateMessage::decodes(texts(fields@), m),
                Err(e) => SharedStateMessage::rejection(texts(fields@)) == Some(e@),
            },
    {
        match SharedStateType::try_from(fields) {
            Ok(shared_state_type) => {
                assert(texts(fields@)[0] == fields@[0]@);
                assert(texts(fields@)[1] == fields@[1]@);
                let first = skip_prefix(fields[0], 3);
                Ok(SharedStateMessage::new(first.as_str(), fields[1], shared_state_type))
            },
            Err(e) => Err(e),
        }
    }

    /// The line that is written for the message.
    pub fn to_string(&self) -> (r: String)
        ensures
            r@ == self.wire(),
    {
        let mut parts: Vec<String> = Vec::new();
        parts.push(followed_by("#PC", self.from.as_str()));
        parts.push(self.to.clone());
        parts.push("CCP".to_owned());
        let mut rest = self.shared_state_type.parts();
        let ghost head = views(parts@);
        let ghost tail = views(rest@);
        parts.append(&mut rest);
        proof {
            assert(views(parts@) =~= head + tail);
            assert(views(parts@) =~= self.fields());
            assert(views(parts@).subrange(0, parts.len() as int) =~= views(parts@));
        }
        join_strings(&parts, 0, ':')
    }

    /// Asks the peer to say who it is.
    pub fn id(from: &str, to: &str) -> (m: SharedStateMessage)
        ensures
            SharedStateMessage::carries(m, from@, to@, SharedStateType::ID),
    {
        SharedStateMessage::new(from, to, SharedStateType::ID)
    }

    /// Says who the sender is.
    pub fn di(from: &str, to: &str) -> (m: SharedStateMessage)
        ensures
            SharedStateMessage::carries(m, from@, to@, SharedStateType::DI),
    {
        SharedStateMessage::new(from, to, SharedStateType::DI)
    }

    /// Tells that the sender has `subject` under control.
    pub fn i_have(from: &str, to: &str, subject: &str) -> (m: SharedStateMessage)
        ensures
            m.from@ == uppercase(from@),
            m.to@ == uppercase(to@),
            m.shared_state_type matches SharedStateType::IHave { aircraft_callsign }
                && aircraft_callsign@ == uppercase(subject@),
    {
        SharedStateMessage::new(
            from,
            to,
            SharedStateType::IHave { aircraft_callsign: to_upper(subject) },
        )
    }

    /// Tells the scratchpad of `subject`.
    pub fn scratchpad(from: &str, to: &str, subject: &str, scratchpad_contents: ScratchPad) -> (m:
        SharedStateMessage)
        ensures
            m.from@ == uppercase(from@),
            m.to@ == uppercase(to@),
            m.shared_state_type matches SharedStateType::ScratchPad { aircraft_callsign, contents }
                && aircraft_callsign@ == uppercase(subject@) && contents == scratchpad_contents,
    {
        SharedStateMessage::new(
            from,
            to,
            SharedStateType::ScratchPad {
                aircraft_callsign: to_upper(subject),
                contents: scratchpad_contents,
            },
        )
    }

    /// Tells the temporary altitude of `subject`.
    pub fn temp_altitude(from: &str, to: &str, subject: &str, altitude: u32) -> (m:
        SharedStateMessage)
        ensures
            m.from@ == uppercase(from@),
            m.to@ == uppercase(to@),
            m.shared_state_type matches SharedStateType::TempAltitude {
                aircraft_callsign,
                altitude: feet,
            } && aircraft_callsign@ == uppercase(subject@) && feet == altitude,
    {
        SharedStateMessage::new(
            from,
            to,
            SharedStateType::TempAltitude { aircraft_callsign: to_upper(subject), altitude },
        )
    }

    /// Tells the beacon code assigned to `subject`.
    pub fn beacon_code(from: &str, to: &str, subject: &str, code: TransponderCode) -> (m:
        SharedStateMessage)
        ensures
            m.from@ == uppercase(from@),
            m.to@ == uppercase(to@),
            m.shared_state_type matches SharedStateType::BeaconCode {
                aircraft_callsign,
                code: squawk,
            } && aircraft_callsign@ == uppercase(subject@) && squawk == code,
    {
        SharedStateMessage::new(
            from,
            to,
            SharedStateType::BeaconCode { aircraft_callsign: to_upper(subject), code },
        )
    }

    /// Tells how `subject` communicates.
    pub fn voice_type(from: &str, to: &str, subject: &str, voice_type: VoiceCapability) -> (m:
        SharedStateMessage)
        ensures
            m.from@ == uppercase(from@),
            m.to@ == uppercase(to@),
            m.shared_state_type matches SharedStateType::VoiceType {
                aircraft_callsign,
                voice_capability,
            } && aircraft_callsign@ == uppercase(subject@) && voice_capability == voice_type,
    {
        SharedStateMessage::new(
            from,
            to,
            SharedStateType::VoiceType {
                aircraft_callsign: to_upper(subject),
                voice_capability: voice_type,
            },
        )
    }

    /// Withdraws the offer to hand `subject` off.
    pub fn handoff_cancel(from: &str, to: &str, subject: &str) -> (m: SharedStateMessage)
        ensures
            m.from@ == uppercase(from@),
            m.to@ == uppercase(to@),
            m.shared_state_type matches SharedStateType::HandoffCancel { aircraft_callsign }
                && aircraft_callsign@ == uppercase(subject@),
    {
        SharedStateMessage::new(
            from,
            to,
            SharedStateType::HandoffCancel { aircraft_callsign: to_upper(subject) },
        )
    }
}

} // verus!
