//! The answer to a client query: an envelope whose third field says what is
//! answered.

use vstd::prelude::*;
use vstd::slice::slice_subrange;
use vstd::string::*;
use crate::enums::ClientCapability;
use crate::errors::{FsdMessageParseError, ParseFailure};
use crate::numbers::{
    is_plain_number, number_text, numeral, padded, padded_text, parse_unsigned, unsigned_value,
};
use crate::structs::{dotted, frequency_of_dotted, RadioFrequency};
use crate::text::{
    begins_with, chars_of, followed_by, is_upper, join, join_from, join_strings, lemma_join_parts,
    same_text, skip_prefix, string_of, texts, to_upper, uppercase, views, without_prefix,
};
use crate::util::{capabilities_in, holds_capability, read_capabilities};

verus! {

/// One line of a controller's ATIS.
#[derive(Debug, Clone)]
pub enum AtisLine {
    /// The address of the voice server (`V`).
    VoiceServer(String),
    /// A line of text (`T`).
    TextLine(String),
    /// When the controller expects to log off, as hours and minutes in one
    /// number, where it is known (`Z`).
    LogoffTime(Option<u16>),
    /// The end of the ATIS, with the number of its lines (`E`).
    EndMarker(usize),
}

/// The text of a logoff time without the `z` that may end it.
pub open spec fn logoff_digits(s: Seq<char>) -> Seq<char> {
    if s.len() > 0 && s.last() == 'z' {
        s.drop_last()
    } else {
        s
    }
}

impl AtisLine {
    /// Why the fields of an ATIS answer are refused, or `None` where they
    /// are accepted. `f` is the whole line; its fourth field says which
    /// kind of line follows.
    pub open spec fn rejection(f: Seq<Seq<char>>) -> Option<ParseFailure> {
        if f.len() < 5 {
            Some(ParseFailure::InvalidFieldCount(5, f.len()))
        } else if f[3] == "V"@ || f[3] == "T"@ || f[3] == "Z"@ {
            None
        } else if f[3] == "E"@ {
            if unsigned_value(f[4], false, usize::MAX as nat) is None {
                Some(ParseFailure::InvalidATISLine(f[4]))
            } else {
                None
            }
        } else {
            Some(ParseFailure::InvalidATISLine(f[3]))
        }
    }

    /// Whether the accepted fields of an ATIS answer are read as `line`.
    pub open spec fn decodes(f: Seq<Seq<char>>, line: AtisLine) -> bool {
        if f.len() < 5 {
            false
        } else if f[3] == "V"@ {
            line matches AtisLine::VoiceServer(server) && server@ == f[4]
        } else if f[3] == "T"@ {
            line matches AtisLine::TextLine(text) && text@ == join(
                f.subrange(4, f.len() as int),
                ':',
            )
        } else if f[3] == "Z"@ {
            line matches AtisLine::LogoffTime(time) && match unsigned_value(
                logoff_digits(f[4]),
                false,
                0xffff,
            ) {
                Some(n) => time == Some(n as u16),
                None => time is None,
            }
        } else if f[3] == "E"@ {
            line matches AtisLine::EndMarker(count) && unsigned_value(
                f[4],
                false,
                usize::MAX as nat,
            ) == Some(count as nat)
        } else {
            false
        }
    }

    /// The two fields that are written for the line.
    pub open spec fn fields(&self) -> Seq<Seq<char>> {
        match *self {
            AtisLine::VoiceServer(server) => seq!["V"@, server@],
            AtisLine::TextLine(text) => seq!["T"@, text@],
            AtisLine::LogoffTime(time) => match time {
                Some(t) => seq!["Z"@, padded(t as nat, false, 4) + "z"@],
                None => seq!["Z"@, "z"@],
            },
            AtisLine::EndMarker(count) => seq!["E"@, numeral(count as nat, false)],
        }
    }

    /// The text that is written for the line.
    pub open spec fn wire(&self) -> Seq<char> {
        join(self.fields(), ':')
    }

    /// Reads the ATIS line of an answer from the fields of its line.
    pub fn try_from(fields: &[&str]) -> (r: Result<AtisLine, FsdMessageParseError>)
        ensures
            match r {
                Ok(line) => AtisLine::rejection(texts(fields@)) is None && AtisLine::decodes(
                    texts(fields@),
                    line,
                ),
                Err(e) => AtisLine::rejection(texts(fields@)) == Some(e@),
            },
    {
        let ghost f = texts(fields@);
        if fields.len() < 5 {
            return Err(FsdMessageParseError::InvalidFieldCount(5, fields.len()));
        }
        assert(forall|i: int| 0 <= i < fields.len() ==> f[i] == (#[trigger] fields@[i])@);
        let kind = fields[3];
        if same_text(kind, "V") {
            Ok(AtisLine::VoiceServer(fields[4].to_owned()))
        } else if same_text(kind, "T") {
            Ok(AtisLine::TextLine(join_from(fields, 4, ':')))
        } else if same_text(kind, "Z") {
            let v = chars_of(fields[4]);
            let digits = if v.len() > 0 && v[v.len() - 1] == 'z' {
                string_of(&v, 0, v.len() - 1)
            } else {
                string_of(&v, 0, v.len())
            };
            proof {
                assert(v@.subrange(0, v.len() as int) =~= v@);
                assert(v@.subrange(0, v.len() - 1) =~= v@.drop_last());
            }
            match parse_unsigned(digits.as_str(), false, 0xffff) {
                Some(n) => Ok(AtisLine::LogoffTime(Some(n as u16))),
                None => Ok(AtisLine::LogoffTime(None)),
            }
        } else if same_text(kind, "E") {
            match parse_unsigned(fields[4], false, usize::MAX as u64) {
                Some(n) => Ok(AtisLine::EndMarker(n as usize)),
                None => Err(FsdMessageParseError::InvalidATISLine(fields[4].to_owned())),
            }
        } else {
            Err(FsdMessageParseError::InvalidATISLine(kind.to_owned()))
        }
    }

    /// Whether the fields of an ATIS answer are written as the line writes
    /// them: a logoff time in four digits and a `z`, or the `z` alone, and a
    /// number of lines without sign or needless zeros; no field more than is
    /// written, but for a line of text, which may hold colons.
    pub open spec fn canonical(f: Seq<Seq<char>>) -> bool {
        if f.len() < 5 {
            false
        } else if f[3] == "V"@ {
            f.len() == 5
        } else if f[3] == "T"@ {
            true
        } else if f[3] == "Z"@ {
            f.len() == 5 && f[4] == match unsigned_value(logoff_digits(f[4]), false, 0xffff) {
                Some(n) => padded(n, false, 4) + "z"@,
                None => "z"@,
            }
        } else if f[3] == "E"@ {
            f.len() == 5 && is_plain_number(f[4], false, usize::MAX as nat)
        } else {
            false
        }
    }

    /// Fields in the form in which the line is written are read as a line
    /// that is written as those very fields, once they are joined.
    pub proof fn law_round_trip(f: Seq<Seq<char>>, line: AtisLine)
        requires
            AtisLine::canonical(f),
            AtisLine::decodes(f, line),
        ensures
            line.wire() == join(f.subrange(3, f.len() as int), ':'),
    {
        let written = f.subrange(3, f.len() as int);
        if f[3] == "V"@ {
            assert(line.fields() =~= written);
        } else if f[3] == "T"@ {
            lemma_join_parts(written, 1, ':');
            lemma_join_parts(line.fields(), 1, ':');
            assert(written.subrange(0, 1) =~= line.fields().subrange(0, 1));
            assert(written.subrange(1, written.len() as int) =~= f.subrange(4, f.len() as int));
            assert(line.fields().subrange(1, 2) =~= seq![line.fields()[1]]);
            assert(join(seq![line.fields()[1]], ':') == line.fields()[1]);
        } else {
            assert(line.fields() =~= written);
        }
    }

    /// The two fields that are written for the line, as strings.
    pub fn parts(&self) -> (r: Vec<String>)
        ensures
            views(r@) == self.fields(),
    {
        let mut parts: Vec<String> = Vec::new();
        match self {
            AtisLine::VoiceServer(server) => {
                parts.push("V".to_owned());
                parts.push(server.clone());
            },
            AtisLine::TextLine(text) => {
                parts.push("T".to_owned());
                parts.push(text.clone());
            },
            AtisLine::LogoffTime(time) => {
                parts.push("Z".to_owned());
                match time {
                    Some(t) => {
                        let mut text = padded_text(*t as u64, false, 4);
                        text.append("z");
                        parts.push(text);
                    },
                    None => {
                        parts.push("z".to_owned());
                    },
                }
            },
            AtisLine::EndMarker(count) => {
                parts.push("E".to_owned());
                parts.push(number_text(*count as u64));
            },
        }
        assert(views(parts@) =~= self.fields());
        parts
    }

    /// The text that is written for the line.
    pub fn to_string(&self) -> (r: String)
        ensures
            r@ == self.wire(),
    {
        let parts = self.parts();
        assert(views(parts@).subrange(0, parts.len() as int) =~= views(parts@));
        join_strings(&parts, 0, ':')
    }
}

/// What a client answers to a query.
#[derive(Debug, Clone)]
pub enum ClientResponseType {
    /// The frequency tuned on COM 1 (`C?`).
    Com1Freq { frequency: RadioFrequency },
    /// One line of the ATIS (`ATIS`).
    ATIS { atis_line: AtisLine },
    /// The real name of the user, the sector file in use and the rating
    /// (`RN`).
    RealName { name: String, sector_file: String, rating: u8 },
    /// What the client can do, each capability once (`CAPS`).
    Capabilities { capabilities: Vec<ClientCapability> },
    /// The public address of the client (`IP`).
    PublicIP { ip_address: String },
    /// The server that the client is connected to (`SV`).
    Server { hostname_or_ip_address: String },
    /// Whether a callsign is a valid controller (`ATC`).
    IsValidATC { atc_callsign: String, valid_atc: bool },
}

/// What a status in upper case says of a controller: `Y` that it is valid,
/// `N` that it is not.
pub open spec fn valid_atc_of(status: Seq<char>) -> Option<bool> {
    if status == "Y"@ {
        Some(true)
    } else if status == "N"@ {
        Some(false)
    } else {
        None
    }
}

/// Reads whether a controller is valid from the status in upper case.
pub fn read_valid_atc(status: &str) -> (r: Option<bool>)
    ensures
        r == valid_atc_of(status@),
{
    if same_text(status, "Y") {
        Some(true)
    } else if same_text(status, "N") {
        Some(false)
    } else {
        None
    }
}

/// The entries that are written for a list of capabilities: each name with
/// `=1` behind it.
pub open spec fn capability_entries(list: Seq<ClientCapability>) -> Seq<Seq<char>> {
    Seq::new(list.len(), |i: int| list[i].text() + "=1"@)
}

impl ClientResponseType {
    /// Why the fields of an answer are refused, or `None` where they are
    /// accepted. `f` is the whole line; its third field is the tag.
    pub open spec fn rejection(f: Seq<Seq<char>>) -> Option<ParseFailure> {
        if f.len() < 4 {
            Some(ParseFailure::InvalidFieldCount(4, f.len()))
        } else if f[2] == "C?"@ {
            if frequency_of_dotted(f[3]) is None {
                Some(ParseFailure::InvalidFrequency(f[3]))
            } else {
                None
            }
        } else if f[2] == "ATIS"@ {
            AtisLine::rejection(f)
        } else if f[2] == "RN"@ {
            if f.len() < 6 {
                Some(ParseFailure::InvalidFieldCount(6, f.len()))
            } else if unsigned_value(f[5], false, 0xff) is None {
                Some(ParseFailure::InvalidRating(f[5]))
            } else {
                None
            }
        } else if f[2] == "IP"@ || f[2] == "SV"@ || f[2] == "CAPS"@ {
            None
        } else if f[2] == "ATC"@ {
            if f.len() < 5 {
                Some(ParseFailure::InvalidFieldCount(5, f.len()))
            } else if valid_atc_of(uppercase(f[3])) is None {
                Some(ParseFailure::InvalidValidAtcStatus(f[3]))
            } else {
                None
            }
        } else {
            Some(ParseFailure::UnknownMessageType(f[2]))
        }
    }

    /// The least number of fields that an answer with the tag `tag` must
    /// have.
    pub open spec fn fields_asked(tag: Seq<char>) -> nat {
        if tag == "C?"@ {
            4
        } else if tag == "ATIS"@ {
            5
        } else if tag == "RN"@ {
            6
        } else if tag == "IP"@ || tag == "SV"@ || tag == "CAPS"@ {
            4
        } else if tag == "ATC"@ {
            5
        } else {
            4
        }
    }

    /// An answer with fewer fields than its tag asks for is refused with the
    /// number asked for and the number found.
    pub proof fn law_field_count(f: Seq<Seq<char>>)
        requires
            f.len() < 4 || f.len() < ClientResponseType::fields_asked(f[2]),
        ensures
            ClientResponseType::rejection(f) == Some(
                ParseFailure::InvalidFieldCount(
                    if f.len() < 4 {
                        4
                    } else {
                        ClientResponseType::fields_asked(f[2])
                    },
                    f.len(),
                ),
            ),
    {
    }

    /// Whether the accepted fields of an answer are read as `a`.
    pub open spec fn decodes(f: Seq<Seq<char>>, a: ClientResponseType) -> bool {
        if f.len() < 4 {
            false
        } else if f[2] == "C?"@ {
            a matches ClientResponseType::Com1Freq { frequency } && frequency_of_dotted(f[3])
                == Some((frequency.left(), frequency.right()))
        } else if f[2] == "ATIS"@ {
            a matches ClientResponseType::ATIS { atis_line } && AtisLine::decodes(f, atis_line)
        } else if f[2] == "RN"@ {
            a matches ClientResponseType::RealName { name, sector_file, rating } && f.len() >= 6
                && name@ == f[3] && sector_file@ == f[4] && unsigned_value(f[5], false, 0xff)
                == Some(rating as nat)
        } else if f[2] == "IP"@ {
            a matches ClientResponseType::PublicIP { ip_address } && ip_address@ == f[3]
        } else if f[2] == "SV"@ {
            a matches ClientResponseType::Server { hostname_or_ip_address }
                && hostname_or_ip_address@ == f[3]
        } else if f[2] == "CAPS"@ {
            a matches ClientResponseType::Capabilities { capabilities } && capabilities@
                == capabilities_in(f.subrange(3, f.len() as int)) && capabilities@.no_duplicates()
        } else if f[2] == "ATC"@ {
            a matches ClientResponseType::IsValidATC { atc_callsign, valid_atc } && f.len() >= 5
                && atc_callsign@ == uppercase(f[4]) && valid_atc_of(uppercase(f[3])) == Some(
                valid_atc,
            )
        } else {
            false
        }
    }

    /// The fields that are written for the answer: its tag, then what it
    /// says.
    pub open spec fn fields(&self) -> Seq<Seq<char>> {
        match *self {
            ClientResponseType::Com1Freq { frequency } => seq![
                "C?"@,
                dotted(frequency.left(), frequency.right()),
            ],
            ClientResponseType::ATIS { atis_line } => seq!["ATIS"@] + atis_line.fields(),
            ClientResponseType::RealName { name, sector_file, rating } => seq![
                "RN"@,
                name@,
                sector_file@,
                numeral(rating as nat, false),
            ],
            ClientResponseType::Capabilities { capabilities } => if capabilities@.len() == 0 {
                seq!["CAPS"@, ""@]
            } else {
                seq!["CAPS"@] + capability_entries(capabilities@)
            },
            ClientResponseType::PublicIP { ip_address } => seq!["IP"@, ip_address@],
            ClientResponseType::Server { hostname_or_ip_address } => seq![
                "SV"@,
                hostname_or_ip_address@,
            ],
            ClientResponseType::IsValidATC { atc_callsign, valid_atc } => seq![
                "ATC"@,
                if valid_atc {
                    "Y"@
                } else {
                    "N"@
                },
                atc_callsign@,
            ],
        }
    }

    /// The text that is written for the answer.
    pub open spec fn wire(&self) -> Seq<char> {
        join(self.fields(), ':')
    }

    /// Reads the answer of a client-query-response line from the fields of
    /// the line.
    #[verifier::rlimit(40)]
    pub fn try_from(fields: &[&str]) -> (r: Result<ClientResponseType, FsdMessageParseError>)
        ensures
            match r {
                Ok(a) => ClientResponseType::rejection(texts(fields@)) is None
                    && ClientResponseType::decodes(texts(fields@), a),
                Err(e) => ClientResponseType::rejection(texts(fields@)) == Some(e@),
            },
    {
        let ghost f = texts(fields@);
        if fields.len() < 4 {
            return Err(FsdMessageParseError::InvalidFieldCount(4, fields.len()));
        }
        assert(forall|i: int| 0 <= i < fields.len() ==> f[i] == (#[trigger] fields@[i])@);
        let tag = fields[2];
        if same_text(tag, "C?") {
            match RadioFrequency::try_from_human_readable_string(fields[3]) {
                Ok(frequency) => Ok(ClientResponseType::Com1Freq { frequency }),
                Err(e) => Err(e),
            }
        } else if same_text(tag, "ATIS") {
            match AtisLine::try_from(fields) {
                Ok(atis_line) => Ok(ClientResponseType::ATIS { atis_line }),
                Err(e) => Err(e),
            }
        } else if same_text(tag, "RN") {
            if fields.len() < 6 {
                return Err(FsdMessageParseError::InvalidFieldCount(6, fields.len()));
            }
            match parse_unsigned(fields[5], false, 0xff) {
                Some(rating) => Ok(
                    ClientResponseType::RealName {
                        name: fields[3].to_owned(),
                        sector_file: fields[4].to_owned(),
                        rating: rating as u8,
                    },
                ),
                None => Err(FsdMessageParseError::InvalidRating(fields[5].to_owned())),
            }
        } else if same_text(tag, "IP") {
            Ok(ClientResponseType::PublicIP { ip_address: fields[3].to_owned() })
        } else if same_text(tag, "SV") {
            Ok(ClientResponseType::Server { hostname_or_ip_address: fields[3].to_owned() })
        } else if same_text(tag, "CAPS") {
            let entries = slice_subrange(fields, 3, fields.len());
            assert(texts(entries@) =~= f.subrange(3, f.len() as int));
            Ok(ClientResponseType::Capabilities { capabilities: read_capabilities(entries) })
        } else if same_text(tag, "ATC") {
            if fields.len() < 5 {
                return Err(FsdMessageParseError::InvalidFieldCount(5, fields.len()));
            }
            match read_valid_atc(to_upper(fields[3]).as_str()) {
                Some(valid_atc) => Ok(
                    ClientResponseType::IsValidATC {
                        atc_callsign: to_upper(fields[4]),
                        valid_atc,
                    },
                ),
                None => Err(FsdMessageParseError::InvalidValidAtcStatus(fields[3].to_owned())),
            }
        } else {
            Err(FsdMessageParseError::UnknownMessageType(tag.to_owned()))
        }
    }

    /// Whether the fields of an answer are written as the answer writes
    /// them: a frequency in its dotted form, callsigns in upper case, a
    /// rating without sign or needless zeros, `Y` or `N`, each capability
    /// once by its name and `=1`, and no field more than is written.
    pub open spec fn canonical(f: Seq<Seq<char>>) -> bool {
        if f.len() < 4 {
            false
        } else if f[2] == "C?"@ {
            f.len() == 4 && match frequency_of_dotted(f[3]) {
                Some((left, right)) => dotted(left, right) == f[3],
                None => true,
            }
        } else if f[2] == "ATIS"@ {
            AtisLine::canonical(f)
        } else if f[2] == "RN"@ {
            f.len() == 6 && is_plain_number(f[5], false, 0xff)
        } else if f[2] == "IP"@ || f[2] == "SV"@ {
            f.len() == 4
        } else if f[2] == "CAPS"@ {
            let entries = f.subrange(3, f.len() as int);
            if capabilities_in(entries).len() == 0 {
                f.len() == 4 && f[3] == ""@
            } else {
                capability_entries(capabilities_in(entries)) == entries
            }
        } else if f[2] == "ATC"@ {
            f.len() == 5 && (f[3] == "Y"@ || f[3] == "N"@) && is_upper(f[3]) && is_upper(f[4])
        } else {
            false
        }
    }

    /// Fields in the form in which the answer is written are read as an
    /// answer that is written as those very fields, once they are joined.
    #[verifier::rlimit(40)]
    pub proof fn law_round_trip(f: Seq<Seq<char>>, a: ClientResponseType)
        requires
            ClientResponseType::canonical(f),
            ClientResponseType::decodes(f, a),
        ensures
            a.wire() == join(f.subrange(2, f.len() as int), ':'),
    {
        let written = f.subrange(2, f.len() as int);
        if f[2] == "C?"@ {
            assert(a.fields() =~= written);
        } else if f[2] == "ATIS"@ {
            match a {
                ClientResponseType::ATIS { atis_line } => {
                    AtisLine::law_round_trip(f, atis_line);
                    lemma_join_parts(written, 1, ':');
                    lemma_join_parts(a.fields(), 1, ':');
                    assert(written.subrange(0, 1) =~= a.fields().subrange(0, 1));
                    assert(written.subrange(1, written.len() as int) =~= f.subrange(
                        3,
                        f.len() as int,
                    ));
                    assert(a.fields().subrange(1, a.fields().len() as int)
                        =~= atis_line.fields());
                },
                _ => {},
            }
        } else if f[2] == "RN"@ {
            assert(a.fields() =~= written);
        } else if f[2] == "IP"@ || f[2] == "SV"@ {
            assert(a.fields() =~= written);
        } else if f[2] == "CAPS"@ {
            assert(a.fields() =~= written);
        } else if f[2] == "ATC"@ {
            reveal_strlit("Y");
            reveal_strlit("N");
            assert("Y"@[0] != "N"@[0]);
            assert(a.fields() =~= written);
        }
    }

    /// The fields that are written for the answer, as strings.
    pub fn parts(&self) -> (r: Vec<String>)
        ensures
            views(r@) == self.fields(),
    {
        let mut parts: Vec<String> = Vec::new();
        match self {
            ClientResponseType::Com1Freq { frequency } => {
                parts.push("C?".to_owned());
                parts.push(frequency.to_human_readable_string());
            },
            ClientResponseType::ATIS { atis_line } => {
                parts.push("ATIS".to_owned());
                let mut line = atis_line.parts();
                let ghost head = views(parts@);
                let ghost tail = views(line@);
                parts.append(&mut line);
                assert(views(parts@) =~= head + tail);
            },
            ClientResponseType::RealName { name, sector_file, rating } => {
                parts.push("RN".to_owned());
                parts.push(name.clone());
                parts.push(sector_file.clone());
                parts.push(number_text(*rating as u64));
            },
            ClientResponseType::Capabilities { capabilities } => {
                parts.push("CAPS".to_owned());
                if capabilities.len() == 0 {
                    parts.push("".to_owned());
                } else {
                    let mut i: usize = 0;
                    while i < capabilities.len()
                        invariant
                            i <= capabilities.len(),
                            parts.len() == i + 1,
                            parts@[0]@ == "CAPS"@,
                            forall|j: int|
                                0 <= j < i ==> (#[trigger] parts@[j + 1])@
                                    == capabilities@[j].text() + "=1"@,
                        decreases capabilities.len() - i,
                    {
                        parts.push(followed_by(capabilities[i].to_string().as_str(), "=1"));
                        i += 1;
                    }
                    proof {
                        let written = seq!["CAPS"@] + capability_entries(capabilities@);
                        assert(views(parts@).len() == written.len());
                        assert forall|j: int| 0 <= j < written.len() implies views(parts@)[j]
                            == written[j] by {
                            if j > 0 {
                                assert(parts@[(j - 1) + 1]@ == capabilities@[j - 1].text() + "=1"@);
                            }
                        }
                        assert(views(parts@) =~= written);
                    }
                }
            },
            ClientResponseType::PublicIP { ip_address } => {
                parts.push("IP".to_owned());
                parts.push(ip_address.clone());
            },
            ClientResponseType::Server { hostname_or_ip_address } => {
                parts.push("SV".to_owned());
                parts.push(hostname_or_ip_address.clone());
            },
            ClientResponseType::IsValidATC { atc_callsign, valid_atc } => {
                parts.push("ATC".to_owned());
                parts.push(if *valid_atc {
                    "Y".to_owned()
                } else {
                    "N".to_owned()
                });
                parts.push(atc_callsign.clone());
            },
        }
        assert(views(parts@) =~= self.fields());
        parts
    }

    /// The text that is written for the answer.
    pub fn to_string(&self) -> (r: String)
        ensures
            r@ == self.wire(),
    {
        let parts = self.parts();
        assert(views(parts@).subrange(0, parts.len() as int) =~= views(parts@));
        join_strings(&parts, 0, ':')
    }
}

/// Answers a client query.
#[non_exhaustive]
#[derive(Debug, Clone)]
pub struct ClientQueryResponseMessage {
    pub from: String,
    pub to: String,
    pub response_type: ClientResponseType,
}

impl ClientQueryResponseMessage {
    /// The fields that are written for the message, in order.
    pub open spec fn fields(&self) -> Seq<Seq<char>> {
        seq!["$CR"@ + self.from@, self.to@] + self.response_type.fields()
    }

    /// The line that is written for the message.
    pub open spec fn wire(&self) -> Seq<char> {
        join(self.fields(), ':')
    }

    /// Why a list of fields is refused, or `None` where it is accepted.
    pub open spec fn rejection(f: Seq<Seq<char>>) -> Option<ParseFailure> {
        ClientResponseType::rejection(f)
    }

    /// Whether an accepted list of fields is read as the message `m`.
    pub open spec fn decodes(f: Seq<Seq<char>>, m: ClientQueryResponseMessage) -> bool {
        &&& f.len() >= 4
        &&& m.from@ == uppercase(without_prefix(f[0], 3))
        &&& m.to@ == uppercase(f[1])
        &&& ClientResponseType::decodes(f, m.response_type)
    }

    /// Whether a list of fields is written as the message writes it: the
    /// marker in front, callsigns in upper case, and the answer as it is
    /// written.
    pub open spec fn canonical(f: Seq<Seq<char>>) -> bool {
        &&& f.len() >= 4
        &&& begins_with(f[0], "$CR"@)
        &&& is_upper(without_prefix(f[0], 3))
        &&& is_upper(f[1])
        &&& ClientResponseType::canonical(f)
    }

    /// A line in the form in which the message is written is read as a
    /// message that is written as that very line.
    pub proof fn law_round_trip(f: Seq<Seq<char>>, m: ClientQueryResponseMessage)
        requires
            ClientQueryResponseMessage::canonical(f),
            ClientQueryResponseMessage::decodes(f, m),
        ensures
            m.wire() == join(f, ':'),
    {
        reveal_strlit("$CR");
        assert("$CR"@ + without_prefix(f[0], 3) =~= f[0]);
        ClientResponseType::law_round_trip(f, m.response_type);
        let written = m.fields();
        lemma_join_parts(written, 2, ':');
        lemma_join_parts(f, 2, ':');
        assert(written.subrange(0, 2) =~= f.subrange(0, 2));
        assert(written.subrange(2, written.len() as int) =~= m.response_type.fields());
    }

    /// Whether `m` is the answer `a` from `from` to `to`, the two callsigns
    /// in upper case.
    pub open spec fn carries(
        m: ClientQueryResponseMessage,
        from: Seq<char>,
        to: Seq<char>,
        a: ClientResponseType,
    ) -> bool {
        m.from@ == uppercase(from) && m.to@ == uppercase(to) && m.response_type == a
    }

    /// The message that carries the answer, its callsigns put in upper case.
    fn new(from: &str, to: &str, response_type: ClientResponseType) -> (m:
        ClientQueryResponseMessage)
        ensures
            ClientQueryResponseMessage::carries(m, from@, to@, response_type),
    {
        ClientQueryResponseMessage { from: to_upper(from), to: to_upper(to), response_type }
    }

    /// Reads the message from the fields of its line.
    pub fn try_from(fields: &[&str]) -> (r: Result<
        ClientQueryResponseMessage,
        FsdMessageParseError,
    >)
        ensures
            match r {
                Ok(m) => ClientQueryResponseMessage::rejection(texts(fields@)) is None
                    && ClientQueryResponseMessage::decodes(texts(fields@), m),
                Err(e) => ClientQueryResponseMessage::rejection(texts(fields@)) == Some(e@),
            },
    {
        match ClientResponseType::try_from(fields) {
            Ok(response_type) => {
                assert(texts(fields@)[0] == fields@[0]@);
                assert(texts(fields@)[1] == fields@[1]@);
                let first = skip_prefix(fields[0], 3);
                Ok(ClientQueryResponseMessage::new(first.as_str(), fields[1], response_type))
            },
            Err(e) => Err(e),
        }
    }

    /// The line that is written for the message.
    pub fn to_string(&self) -> (r: String)
        ensures
            r@ == self.wire(),
    {
        let mut parts: Vec<String> = Vec::new();
        parts.push(followed_by("$CR", self.from.as_str()));
        parts.push(self.to.clone());
        let mut rest = self.response_type.parts();
        let ghost head = views(parts@);
        let ghost tail = views(rest@);
        parts.append(&mut rest);
        proof {
            assert(views(parts@) =~= head + tail);
            assert(views(parts@) =~= self.fields());
            assert(views(parts@).subrange(0, parts.len() as int) =~= views(parts@));
        }
        join_strings(&parts, 0, ':')
    }

    /// Answers with the frequency tuned on COM 1.
    pub fn com_1_freq(from: &str, to: &str, frequency: RadioFrequency) -> (m:
        ClientQueryResponseMessage)
        ensures
            ClientQueryResponseMessage::carries(
                m,
                from@,
                to@,
                ClientResponseType::Com1Freq { frequency },
            ),
    {
        ClientQueryResponseMessage::new(from, to, ClientResponseType::Com1Freq { frequency })
    }

    /// Answers with one line of the ATIS.
    pub fn atis(from: &str, to: &str, atis_line: AtisLine) -> (m: ClientQueryResponseMessage)
        ensures
            ClientQueryResponseMessage::carries(
                m,
                from@,
                to@,
                ClientResponseType::ATIS { atis_line },
            ),
    {
        ClientQueryResponseMessage::new(from, to, ClientResponseType::ATIS { atis_line })
    }

    /// Answers with the real name of the user, some more about the user,
    /// and the rating.
    pub fn real_name(from: &str, to: &str, real_name: &str, extra_info: &str, rating: u8) -> (m:
        ClientQueryResponseMessage)
        ensures
            m.from@ == uppercase(from@),
            m.to@ == uppercase(to@),
            m.response_type matches ClientResponseType::RealName { name, sector_file, rating: r }
                && name@ == real_name@ && sector_file@ == extra_info@ && r == rating,
    {
        ClientQueryResponseMessage::new(
            from,
            to,
            ClientResponseType::RealName {
                name: real_name.to_owned(),
                sector_file: extra_info.to_owned(),
                rating,
            },
        )
    }

    /// Answers with what the client can do. Of a capability that is listed
    /// more than once only the first is kept.
    pub fn capabilities(from: &str, to: &str, capabilities: Vec<ClientCapability>) -> (m:
        ClientQueryResponseMessage)
        ensures
            m.from@ == uppercase(from@),
            m.to@ == uppercase(to@),
            m.response_type matches ClientResponseType::Capabilities { capabilities: kept }
                && kept@ == once_each(capabilities@) && kept@.no_duplicates(),
    {
        let kept = keep_once(&capabilities);
        ClientQueryResponseMessage::new(
            from,
            to,
            ClientResponseType::Capabilities { capabilities: kept },
        )
    }

    /// Answers with the public address of the client.
    pub fn public_ip(from: &str, to: &str, ip_address: &str) -> (m: ClientQueryResponseMessage)
        ensures
            m.from@ == uppercase(from@),
            m.to@ == uppercase(to@),
            m.response_type matches ClientResponseType::PublicIP { ip_address: address }
                && address@ == ip_address@,
    {
        ClientQueryResponseMessage::new(
            from,
            to,
            ClientResponseType::PublicIP { ip_address: ip_address.to_owned() },
        )
    }

    /// Answers whether `subject` is a valid controller.
    pub fn is_valid_atc(from: &str, to: &str, subject: &str, valid: bool) -> (m:
        ClientQueryResponseMessage)
        ensures
            m.from@ == uppercase(from@),
            m.to@ == uppercase(to@),
            m.response_type matches ClientResponseType::IsValidATC { atc_callsign, valid_atc }
                && atc_callsign@ == uppercase(subject@) && valid_atc == valid,
    {
        ClientQueryResponseMessage::new(
            from,
            to,
            ClientResponseType::IsValidATC { atc_callsign: to_upper(subject), valid_atc: valid },
        )
    }
}

/// The items of a list, each once, in the order in which they first occur.
pub open spec fn once_each(list: Seq<ClientCapability>) -> Seq<ClientCapability>
    decreases list.len(),
{
    if list.len() == 0 {
        Seq::empty()
    } else {
        let before = once_each(list.drop_last());
        if before.contains(list.last()) {
            before
        } else {
            before.push(list.last())
        }
    }
}

/// The capabilities of a list, each once, in the order in which they first
/// occur.
pub fn keep_once(list: &Vec<ClientCapability>) -> (r: Vec<ClientCapability>)
    ensures
        r@ == once_each(list@),
        r@.no_duplicates(),
{
    let mut r: Vec<ClientCapability> = Vec::new();
    let mut i: usize = 0;
    assert(list@.subrange(0, 0) =~= Seq::<ClientCapability>::empty());
    while i < list.len()
        invariant
            i <= list.len(),
            r@ == once_each(list@.subrange(0, i as int)),
            r@.no_duplicates(),
        decreases list.len() - i,
    {
        proof {
            assert(list@.subrange(0, i + 1).drop_last() =~= list@.subrange(0, i as int));
        }
        if !holds_capability(&r, list[i]) {
            r.push(list[i]);
        }
        i += 1;
    }
    assert(list@.subrange(0, i as int) =~= list@);
    r
}

} // verus!
