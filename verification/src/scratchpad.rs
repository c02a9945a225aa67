//! The scratchpad: a free-text annotation that doubles as a small command
//! language between controller clients.

use vstd::prelude::*;
use vstd::string::*;
use crate::enums::{GroundState, Operator};
use crate::errors::FsdMessageParseError;
use crate::numbers::{is_plain_number, number_text, numeral, parse_unsigned, unsigned_value};
use crate::text::{
    begins_with, chars_of, followed_by, free_of, join, lemma_join_parts, lemma_join_split,
    lemma_split_pieces, same_text, split, split_on, starts_with, string_of, without_prefix,
};

verus! {

/// What a scratchpad holds.
#[derive(Debug, Clone)]
pub enum ScratchPad {
    /// Free text, or a point the aircraft is cleared direct to.
    PlainTextOrDirect(String),
    /// An assigned rate of climb or descent.
    RateOfClimbDescent(u32),
    /// An assigned heading.
    Heading(u32),
    /// An assigned speed.
    Speed(u32),
    /// An assigned Mach number.
    Mach(u32),
    /// How the assigned speed is to be kept.
    SpeedOperator(Operator),
    /// How the assigned rate of climb or descent is to be kept.
    RateOfClimbDescentOperator(Operator),
    /// A stand assigned to the aircraft.
    Stand(String),
    /// The stand assignment is withdrawn.
    CancelledStand,
    /// A stand keyed in by hand: the airport, then the stand.
    ManualStand(String, String),
    /// The stand keyed in by hand is withdrawn.
    CancelledManualStand,
    /// The aircraft has received its clearance.
    ClearanceReceived,
    /// The clearance is withdrawn.
    ClearanceCancelled,
    /// Where the aircraft is on the ground.
    GroundState(GroundState),
}

/// The number of a command: the text begins with the command's letter and
/// goes on with a number of 32 bits.
pub open spec fn command_value(s: Seq<char>, letter: char) -> Option<nat> {
    if s.len() > 0 && s[0] == letter {
        unsigned_value(s.subrange(1, s.len() as int), false, 0xffff_ffff)
    } else {
        None
    }
}

/// The airport of a stand keyed in by hand: the third piece between the
/// slashes of the text.
pub open spec fn manual_icao(s: Seq<char>) -> Seq<char> {
    let pieces = split(s, '/', '/');
    if pieces.len() >= 3 {
        pieces[2]
    } else {
        Seq::empty()
    }
}

/// The stand of a stand keyed in by hand: what follows the slash behind the
/// airport.
pub open spec fn manual_stand(s: Seq<char>) -> Seq<char> {
    without_prefix(s, 7 + manual_icao(s).len())
}

/// The ground state that a text names, where it names one.
pub open spec fn ground_state_of(s: Seq<char>) -> Option<GroundState> {
    if s == "NSTS"@ || s == "NOSTATE"@ {
        Some(GroundState::NoState)
    } else if s == "ONFREQ"@ {
        Some(GroundState::OnFrequency)
    } else if s == "DE-ICE"@ {
        Some(GroundState::DeIcing)
    } else if s == "STUP"@ || s == "ST-UP"@ {
        Some(GroundState::Startup)
    } else if s == "PUSH"@ {
        Some(GroundState::Pushback)
    } else if s == "TAXI"@ {
        Some(GroundState::Taxi)
    } else if s == "LINEUP"@ {
        Some(GroundState::LineUp)
    } else if s == "TXIN"@ {
        Some(GroundState::TaxiIn)
    } else if s == "DEPA"@ {
        Some(GroundState::TakeOff)
    } else if s == "PARK"@ {
        Some(GroundState::OnBlock)
    } else {
        None
    }
}

/// The operator that a text names between `/ASP` or `/ARC` and `/`.
pub open spec fn operator_of(s: Seq<char>, stem: Seq<char>) -> Option<Operator> {
    if s == stem + "=/"@ {
        Some(Operator::Exactly)
    } else if s == stem + "-/"@ {
        Some(Operator::OrLess)
    } else if s == stem + "+/"@ {
        Some(Operator::OrGreater)
    } else {
        None
    }
}

/// A text that begins with `GRP/M/` and has a slash behind the airport is
/// that mark, the airport, a slash, and the stand.
#[verifier::rlimit(40)]
pub proof fn lemma_manual_stand(s: Seq<char>)
    requires
        s.len() > 6,
        begins_with(s, "GRP/M/"@),
        split(s, '/', '/').len() >= 4,
    ensures
        "GRP/M/"@ + manual_icao(s) + "/"@ + manual_stand(s) == s,
{
    reveal_strlit("GRP/M/");
    reveal_strlit("/");
    let pieces = split(s, '/', '/');
    let n = pieces.len() as int;
    lemma_join_split(s, '/');
    lemma_split_pieces(s, '/', '/');
    lemma_join_parts(pieces, 3, '/');
    let head = pieces.subrange(0, 3);
    let tail = pieces.subrange(3, n);
    lemma_join_parts(head, 2, '/');
    lemma_join_parts(head.subrange(0, 2), 1, '/');
    assert(head.subrange(0, 2).subrange(0, 1) =~= seq![pieces[0]]);
    assert(head.subrange(0, 2).subrange(1, 2) =~= seq![pieces[1]]);
    assert(head.subrange(2, 3) =~= seq![pieces[2]]);
    assert(join(seq![pieces[0]], '/') == pieces[0]);
    assert(join(seq![pieces[1]], '/') == pieces[1]);
    assert(join(seq![pieces[2]], '/') == pieces[2]);
    let a = pieces[0];
    let b = pieces[1];
    let c = pieces[2];
    let front = a.push('/') + b;
    assert(join(head.subrange(0, 2), '/') == front);
    assert(join(head, '/') == front.push('/') + c);
    assert(s == (front.push('/') + c).push('/') + join(tail, '/'));
    assert(free_of(a, '/', '/'));
    assert(free_of(b, '/', '/'));
    assert(s.subrange(0, 6) == "GRP/M/"@);
    assert(s[3] == "GRP/M/"@[3] && s[5] == "GRP/M/"@[5]);
    assert(s[0] == "GRP/M/"@[0] && s[1] == "GRP/M/"@[1] && s[2] == "GRP/M/"@[2] && s[4]
        == "GRP/M/"@[4]) by {
        assert(s.subrange(0, 6)[0] == s[0]);
        assert(s.subrange(0, 6)[1] == s[1]);
        assert(s.subrange(0, 6)[2] == s[2]);
        assert(s.subrange(0, 6)[4] == s[4]);
    }
    assert(s[3] == '/' && s[5] == '/') by {
        assert(s.subrange(0, 6)[3] == s[3]);
        assert(s.subrange(0, 6)[5] == s[5]);
    }
    // the first piece ends where the first slash stands
    assert(s[a.len() as int] == '/');
    if a.len() < 3 {
        assert(s[a.len() as int] != '/');
    }
    if a.len() > 3 {
        assert(a[3] == s[3]);
    }
    assert(a.len() == 3);
    // and the second where the second stands
    assert(s[4 + b.len() as int] == '/');
    if b.len() > 1 {
        assert(b[1] == s[5]);
    }
    assert(b.len() == 1);
    assert(manual_icao(s) == c);
    assert(manual_stand(s) =~= join(tail, '/'));
    assert("GRP/M/"@ =~= front.push('/'));
    assert("GRP/M/"@ + c + "/"@ + join(tail, '/') =~= s);
}

impl ScratchPad {
    /// Whether the text `s` is read as the scratchpad `p`. The forms are
    /// tried in a fixed order and the first that fits decides; a text that
    /// fits none is plain text, so every text is read as something.
    pub open spec fn reads_as(s: Seq<char>, p: ScratchPad) -> bool {
        if command_value(s, 'H') is Some {
            p == ScratchPad::Heading(command_value(s, 'H')->0 as u32)
        } else if command_value(s, 'R') is Some {
            p == ScratchPad::RateOfClimbDescent(command_value(s, 'R')->0 as u32)
        } else if command_value(s, 'S') is Some {
            p == ScratchPad::Speed(command_value(s, 'S')->0 as u32)
        } else if command_value(s, 'M') is Some {
            p == ScratchPad::Mach(command_value(s, 'M')->0 as u32)
        } else if s.len() > 6 && begins_with(s, "GRP/S/"@) {
            p matches ScratchPad::Stand(stand) && stand@ == without_prefix(s, 6)
        } else if s.len() > 6 && begins_with(s, "GRP/M/"@) {
            p matches ScratchPad::ManualStand(icao, stand) && icao@ == manual_icao(s) && stand@
                == manual_stand(s)
        } else if operator_of(s, "/ASP"@) is Some {
            p == ScratchPad::SpeedOperator(operator_of(s, "/ASP"@)->0)
        } else if operator_of(s, "/ARC"@) is Some {
            p == ScratchPad::RateOfClimbDescentOperator(operator_of(s, "/ARC"@)->0)
        } else if s == "GRP/S/"@ {
            p == ScratchPad::CancelledStand
        } else if s == "GRP/M/"@ {
            p == ScratchPad::CancelledManualStand
        } else if ground_state_of(s) is Some {
            p == ScratchPad::GroundState(ground_state_of(s)->0)
        } else if s == "CLEA"@ {
            p == ScratchPad::ClearanceReceived
        } else if s == "NOTC"@ {
            p == ScratchPad::ClearanceCancelled
        } else {
            p matches ScratchPad::PlainTextOrDirect(text) && text@ == s
        }
    }

    /// The text that is written for the scratchpad.
    pub open spec fn wire(&self) -> Seq<char> {
        match *self {
            ScratchPad::RateOfClimbDescent(r) => "R"@ + numeral(r as nat, false),
            ScratchPad::Heading(h) => "H"@ + numeral(h as nat, false),
            ScratchPad::Speed(speed) => "S"@ + numeral(speed as nat, false),
            ScratchPad::Mach(m) => "M"@ + numeral(m as nat, false),
            ScratchPad::SpeedOperator(op) => "/ASP"@ + op.text() + "/"@,
            ScratchPad::RateOfClimbDescentOperator(op) => "/ARC"@ + op.text() + "/"@,
            ScratchPad::PlainTextOrDirect(text) => text@,
            ScratchPad::Stand(stand) => "GRP/S/"@ + stand@,
            ScratchPad::CancelledStand => "GRP/S/"@,
            ScratchPad::ManualStand(icao, stand) => "GRP/M/"@ + icao@ + "/"@ + stand@,
            ScratchPad::CancelledManualStand => "GRP/M/"@,
            ScratchPad::GroundState(gs) => gs.text(),
            ScratchPad::ClearanceReceived => "CLEA"@,
            ScratchPad::ClearanceCancelled => "NOTC"@,
        }
    }

    /// Whether a text is written as its scratchpad writes it: the number of
    /// a command without sign or needless zeros, a stand keyed in by hand
    /// with a slash behind the airport, and a ground state by the name under
    /// which it is written.
    pub open spec fn canonical(s: Seq<char>) -> bool {
        if command_value(s, 'H') is Some || command_value(s, 'R') is Some || command_value(s, 'S')
            is Some || command_value(s, 'M') is Some {
            is_plain_number(s.subrange(1, s.len() as int), false, 0xffff_ffff)
        } else if s.len() > 6 && begins_with(s, "GRP/S/"@) {
            true
        } else if s.len() > 6 && begins_with(s, "GRP/M/"@) {
            split(s, '/', '/').len() >= 4
        } else {
            s != "NOSTATE"@ && s != "ST-UP"@
        }
    }

    /// A text in the form in which its scratchpad is written is read as a
    /// scratchpad that is written as that very text.
    #[verifier::rlimit(40)]
    pub proof fn law_round_trip(s: Seq<char>, p: ScratchPad)
        requires
            ScratchPad::canonical(s),
            ScratchPad::reads_as(s, p),
        ensures
            p.wire() == s,
    {
        reveal_strlit("H");
        reveal_strlit("R");
        reveal_strlit("S");
        reveal_strlit("M");
        reveal_strlit("GRP/S/");
        reveal_strlit("GRP/M/");
        reveal_strlit("/");
        reveal_strlit("=");
        reveal_strlit("-");
        reveal_strlit("+");
        reveal_strlit("=/");
        reveal_strlit("-/");
        reveal_strlit("+/");
        let rest = s.subrange(1, s.len() as int);
        if command_value(s, 'H') is Some {
            assert("H"@ + rest =~= s);
        } else if command_value(s, 'R') is Some {
            assert("R"@ + rest =~= s);
        } else if command_value(s, 'S') is Some {
            assert("S"@ + rest =~= s);
        } else if command_value(s, 'M') is Some {
            assert("M"@ + rest =~= s);
        } else if s.len() > 6 && begins_with(s, "GRP/S/"@) {
            assert("GRP/S/"@ + without_prefix(s, 6) =~= s);
        } else if s.len() > 6 && begins_with(s, "GRP/M/"@) {
            lemma_manual_stand(s);
        } else if operator_of(s, "/ASP"@) is Some {
            assert("/ASP"@ + "="@ + "/"@ =~= "/ASP"@ + "=/"@);
            assert("/ASP"@ + "-"@ + "/"@ =~= "/ASP"@ + "-/"@);
            assert("/ASP"@ + "+"@ + "/"@ =~= "/ASP"@ + "+/"@);
        } else if operator_of(s, "/ARC"@) is Some {
            assert("/ARC"@ + "="@ + "/"@ =~= "/ARC"@ + "=/"@);
            assert("/ARC"@ + "-"@ + "/"@ =~= "/ARC"@ + "-/"@);
            assert("/ARC"@ + "+"@ + "/"@ =~= "/ARC"@ + "+/"@);
        }
    }

    /// Reads a scratchpad from its text. This never fails: a text that is
    /// no command is plain text.
    #[verifier::rlimit(40)]
    pub fn from_str(s: &str) -> (r: Result<ScratchPad, FsdMessageParseError>)
        ensures
            r is Ok,
            ScratchPad::reads_as(s@, r->Ok_0),
    {
        let v = chars_of(s);
        if v.len() > 0 && (v[0] == 'H' || v[0] == 'R' || v[0] == 'S' || v[0] == 'M') {
            let rest = string_of(&v, 1, v.len());
            match parse_unsigned(rest.as_str(), false, 0xffff_ffff) {
                Some(n) => {
                    let n = n as u32;
                    if v[0] == 'H' {
                        return Ok(ScratchPad::Heading(n));
                    } else if v[0] == 'R' {
                        return Ok(ScratchPad::RateOfClimbDescent(n));
                    } else if v[0] == 'S' {
                        return Ok(ScratchPad::Speed(n));
                    } else {
                        return Ok(ScratchPad::Mach(n));
                    }
                },
                None => {},
            }
        }
        if v.len() > 6 && starts_with(s, "GRP/S/") {
            return Ok(ScratchPad::Stand(string_of(&v, 6, v.len())));
        }
        if v.len() > 6 && starts_with(s, "GRP/M/") {
            let pieces = split_on(s, '/', '/');
            let icao = if pieces.len() >= 3 {
                pieces[2].clone()
            } else {
                String::new()
            };
            let icao_chars = chars_of(icao.as_str());
            let stand = if icao_chars.len() <= v.len() - 7 {
                string_of(&v, 7 + icao_chars.len(), v.len())
            } else {
                String::new()
            };
            return Ok(ScratchPad::ManualStand(icao, stand));
        }
        if same_text(s, followed_by("/ASP", "=/").as_str()) {
            Ok(ScratchPad::SpeedOperator(Operator::Exactly))
        } else if same_text(s, followed_by("/ASP", "-/").as_str()) {
            Ok(ScratchPad::SpeedOperator(Operator::OrLess))
        } else if same_text(s, followed_by("/ASP", "+/").as_str()) {
            Ok(ScratchPad::SpeedOperator(Operator::OrGreater))
        } else if same_text(s, followed_by("/ARC", "=/").as_str()) {
            Ok(ScratchPad::RateOfClimbDescentOperator(Operator::Exactly))
        } else if same_text(s, followed_by("/ARC", "-/").as_str()) {
            Ok(ScratchPad::RateOfClimbDescentOperator(Operator::OrLess))
        } else if same_text(s, followed_by("/ARC", "+/").as_str()) {
            Ok(ScratchPad::RateOfClimbDescentOperator(Operator::OrGreater))
        } else if same_text(s, "GRP/S/") {
            Ok(ScratchPad::CancelledStand)
        } else if same_text(s, "GRP/M/") {
            Ok(ScratchPad::CancelledManualStand)
        } else if same_text(s, "NSTS") || same_text(s, "NOSTATE") {
            Ok(ScratchPad::GroundState(GroundState::NoState))
        } else if same_text(s, "ONFREQ") {
            Ok(ScratchPad::GroundState(GroundState::OnFrequency))
        } else if same_text(s, "DE-ICE") {
            Ok(ScratchPad::GroundState(GroundState::DeIcing))
        } else if same_text(s, "STUP") || same_text(s, "ST-UP") {
            Ok(ScratchPad::GroundState(GroundState::Startup))
        } else if same_text(s, "PUSH") {
            Ok(ScratchPad::GroundState(GroundState::Pushback))
        } else if same_text(s, "TAXI") {
            Ok(ScratchPad::GroundState(GroundState::Taxi))
        } else if same_text(s, "LINEUP") {
            Ok(ScratchPad::GroundState(GroundState::LineUp))
        } else if same_text(s, "TXIN") {
            Ok(ScratchPad::GroundState(GroundState::TaxiIn))
        } else if same_text(s, "DEPA") {
            Ok(ScratchPad::GroundState(GroundState::TakeOff))
        } else if same_text(s, "PARK") {
            Ok(ScratchPad::GroundState(GroundState::OnBlock))
        } else if same_text(s, "CLEA") {
            Ok(ScratchPad::ClearanceReceived)
        } else if same_text(s, "NOTC") {
            Ok(ScratchPad::ClearanceCancelled)
        } else {
            Ok(ScratchPad::PlainTextOrDirect(s.to_owned()))
        }
    }

    /// The text that is written for the scratchpad.
    pub fn to_string(&self) -> (r: String)
        ensures
            r@ == self.wire(),
    {
        match self {
            ScratchPad::RateOfClimbDescent(r) => followed_by("R", number_text(*r as u64).as_str()),
            ScratchPad::Heading(h) => followed_by("H", number_text(*h as u64).as_str()),
            ScratchPad::Speed(speed) => followed_by("S", number_text(*speed as u64).as_str()),
            ScratchPad::Mach(m) => followed_by("M", number_text(*m as u64).as_str()),
            ScratchPad::SpeedOperator(op) => {
                let mut r = followed_by("/ASP", op.to_string().as_str());
                r.append("/");
                r
            },
            ScratchPad::RateOfClimbDescentOperator(op) => {
                let mut r = followed_by("/ARC", op.to_string().as_str());
                r.append("/");
                r
            },
            ScratchPad::PlainTextOrDirect(text) => text.clone(),
            ScratchPad::Stand(stand) => followed_by("GRP/S/", stand.as_str()),
            ScratchPad::CancelledStand => "GRP/S/".to_owned(),
            ScratchPad::ManualStand(icao, stand) => {
                let mut r = followed_by("GRP/M/", icao.as_str());
                r.append("/");
                r.append(stand.as_str());
                r
            },
            ScratchPad::CancelledManualStand => "GRP/M/".to_owned(),
            ScratchPad::GroundState(gs) => gs.to_string(),
            ScratchPad::ClearanceReceived => "CLEA".to_owned(),
            ScratchPad::ClearanceCancelled => "NOTC".to_owned(),
        }
    }
}

} // verus!
