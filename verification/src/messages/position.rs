//! Position updates. A number with a decimal fraction is held to the form
//! of a decimal number and carried as the text that stands on the wire;
//! pitch, bank and heading are carried in the units in which they are
//! packed, 1024 to the full turn.

use vstd::prelude::*;
use vstd::string::*;
use crate::enums::{AtcRating, AtcType, PilotRating, TransponderMode};
use crate::errors::{FsdMessageParseError, ParseFailure};
use crate::numbers::{
    is_decimal, is_decimal_text, is_padded_number, is_plain_number, number_text, numeral, padded,
    parse_i32, parse_unsigned, signed_numeral, signed_text, signed_value, unsigned_value,
};
use crate::structs::{squawk_of_text, RadioFrequency, TransponderCode};
use crate::text::{
    begins_with, field_if_present, followed_by, is_upper, join, join_strings, optional_text,
    optional_view, owned, skip_prefix, split, texts, to_upper, uppercase, views, without_prefix,
};
use crate::util::{
    compact_of, compact_texts, frequencies_among, frequency_parts, group_frequencies_without_symbol,
    lemma_orientation_repacks, pack_pitch_bank_heading, packed_orientation, split_frequencies,
    unpack_pitch_bank_heading, unpacked_orientation,
};

verus! {

/// The field at `i`, or the text `0` where the list is shorter.
pub open spec fn field_or_zero(f: Seq<Seq<char>>, i: int) -> Seq<char> {
    if 0 <= i < f.len() { f[i] } else { "0"@ }
}

/// Sent at regular intervals by a controller client to tell the server where
/// it is and what it covers. The elevation is nought where the line has
/// none or it cannot be read.
#[derive(Debug, Clone)]
pub struct AtcPositionUpdateMessage {
    pub callsign: String,
    pub frequencies: Vec<RadioFrequency>,
    pub atc_type: AtcType,
    pub vis_range: u32,
    pub rating: AtcRating,
    /// The latitude in degrees, as the decimal text that stands on the wire.
    pub latitude: String,
    /// The longitude in degrees, as the decimal text that stands on the wire.
    pub longitude: String,
    pub elevation: i32,
}

impl AtcPositionUpdateMessage {
    /// The fields that are written for the message, in order, the first
    /// behind the marker of its kind.
    pub open spec fn fields(&self) -> Seq<Seq<char>> {
        seq![
            "%"@ + self.callsign@,
            join(compact_texts(self.frequencies@), '&'),
            numeral(self.atc_type.code(), false),
            numeral(self.vis_range as nat, false),
            numeral(self.rating.code(), false),
            self.latitude@,
            self.longitude@,
            signed_numeral(self.elevation as int),
        ]
    }

    /// The line that is written for the message.
    pub open spec fn wire(&self) -> Seq<char> {
        join(self.fields(), ':')
    }

    /// Why a list of fields is refused, or `None` where it is accepted.
    /// The count is tested first, then the fields in their order.
    pub open spec fn rejection(f: Seq<Seq<char>>) -> Option<ParseFailure> {
        if f.len() < 7 {
            Some(ParseFailure::InvalidFieldCount(7, f.len()))
        } else if AtcType::of_text(f[2]) is None {
            Some(AtcType::refusal(f[2]))
        } else if unsigned_value(f[3], false, 0xffff_ffff) is None {
            Some(ParseFailure::InvalidVisRange(f[3]))
        } else if AtcRating::of_text(f[4]) is None {
            Some(AtcRating::refusal(f[4]))
        } else if !is_decimal(f[5]) {
            Some(ParseFailure::InvalidCoordinate(f[5]))
        } else if !is_decimal(f[6]) {
            Some(ParseFailure::InvalidCoordinate(f[6]))
        } else {
            None
        }
    }

    /// Whether an accepted list of fields is read as the message `m`.
    pub open spec fn decodes(f: Seq<Seq<char>>, m: AtcPositionUpdateMessage) -> bool {
        &&& f.len() >= 7
        &&& m.callsign@ == uppercase(without_prefix(f[0], 1))
        &&& frequency_parts(m.frequencies@) == frequencies_among(
            split(f[1], '&', '@'),
        )
        &&& AtcType::of_text(f[2]) == Some(m.atc_type)
        &&& unsigned_value(f[3], false, 0xffff_ffff) == Some(m.vis_range as nat)
        &&& AtcRating::of_text(f[4]) == Some(m.rating)
        &&& m.latitude@ == f[5]
        &&& is_decimal(f[5])
        &&& m.longitude@ == f[6]
        &&& is_decimal(f[6])
        &&& m.elevation as int == match signed_value(
            field_or_zero(f, 7),
            0x7fff_ffff,
        ) {
            Some(n) => n,
            None => 0,
        }
    }

    /// Whether a list of fields is written as the message writes it: the
    /// marker in front, callsigns in upper case, numbers without sign or
    /// needless zeros, and no field more than is written.
    pub open spec fn canonical(f: Seq<Seq<char>>) -> bool {
        &&& f.len() == 8
        &&& begins_with(f[0], "%"@)
        &&& is_upper(without_prefix(f[0], 1))
        &&& join(
            compact_of(frequencies_among(split(f[1], '&', '@'))),
            '&',
        ) == f[1]
        &&& AtcType::of_text(f[2]) is Some ==> numeral(
            AtcType::of_text(f[2])->0.code(),
            false,
        ) == f[2]
        &&& is_plain_number(f[3], false, 0xffff_ffff)
        &&& AtcRating::of_text(f[4]) is Some ==> numeral(
            AtcRating::of_text(f[4])->0.code(),
            false,
        ) == f[4]
        &&& signed_value(f[7], 0x7fff_ffff) is Some
        &&& signed_numeral(signed_value(f[7], 0x7fff_ffff)->0) == f[7]
    }

    /// The message of the given parts, its callsign put in upper case.
    pub fn new(
        callsign: &str,
        frequencies: Vec<RadioFrequency>,
        atc_type: AtcType,
        vis_range: u32,
        rating: AtcRating,
        latitude: &str,
        longitude: &str,
        elevation: i32,
    ) -> (m: AtcPositionUpdateMessage)
        ensures
            m.callsign@ == uppercase(callsign@),
            m.frequencies == frequencies,
            m.atc_type == atc_type,
            m.vis_range == vis_range,
            m.rating == rating,
            m.latitude@ == latitude@,
            m.longitude@ == longitude@,
            m.elevation == elevation,
    {
        AtcPositionUpdateMessage {
            callsign: to_upper(callsign),
            frequencies,
            atc_type,
            vis_range,
            rating,
            latitude: latitude.to_owned(),
            longitude: longitude.to_owned(),
            elevation,
        }
    }

    /// Reads the message from the fields of its line.
    pub fn try_from(fields: &[&str]) -> (r: Result<AtcPositionUpdateMessage, FsdMessageParseError>)
        ensures
            match r {
                Ok(m) => AtcPositionUpdateMessage::rejection(texts(fields@)) is None
                    && AtcPositionUpdateMessage::decodes(texts(fields@), m),
                Err(e) => AtcPositionUpdateMessage::rejection(texts(fields@)) == Some(e@),
            },
    {
        let ghost f = texts(fields@);
        if fields.len() < 7 {
            return Err(FsdMessageParseError::InvalidFieldCount(7, fields.len()));
        }
        assert(forall|i: int| 0 <= i < fields.len() ==> f[i] == (#[trigger] fields@[i])@);
        let first = skip_prefix(fields[0], 1);
        let atc_type = match AtcType::from_str(fields[2]) {
            Ok(v) => v,
            Err(e) => {
                return Err(e);
            },
        };
        let vis_range = match parse_unsigned(fields[3], false, 0xffff_ffff) {
            Some(n) => n as u32,
            None => {
                return Err(FsdMessageParseError::InvalidVisRange(fields[3].to_owned()));
            },
        };
        let rating = match AtcRating::from_str(fields[4]) {
            Ok(v) => v,
            Err(e) => {
                return Err(e);
            },
        };
        if !is_decimal_text(fields[5]) {
            return Err(FsdMessageParseError::InvalidCoordinate(fields[5].to_owned()));
        }
        if !is_decimal_text(fields[6]) {
            return Err(FsdMessageParseError::InvalidCoordinate(fields[6].to_owned()));
        }
        let elevation = match parse_i32(if fields.len() > 7 {
            fields[7]
        } else {
            "0"
        }) {
            Some(n) => n,
            None => 0,
        };
        Ok(
            AtcPositionUpdateMessage::new(
                first.as_str(),
                split_frequencies(fields[1]),
                atc_type,
                vis_range,
                rating,
                fields[5],
                fields[6],
                elevation,
            ),
        )
    }

    /// The line that is written for the message.
    pub fn to_string(&self) -> (r: String)
        ensures
            r@ == self.wire(),
    {
        let mut parts: Vec<String> = Vec::new();
        parts.push(followed_by("%", self.callsign.as_str()));
        parts.push(group_frequencies_without_symbol(self.frequencies.as_slice()));
        parts.push(number_text(self.atc_type.number() as u64));
        parts.push(number_text(self.vis_range as u64));
        parts.push(number_text(self.rating.number() as u64));
        parts.push(self.latitude.clone());
        parts.push(self.longitude.clone());
        parts.push(signed_text(self.elevation));
        let r = join_strings(&parts, 0, ':');
        proof {
            assert(views(parts@) =~= self.fields());
            assert(views(parts@).subrange(0, parts.len() as int) =~= views(parts@));
        }
        r
    }

    /// A line in the form in which the message is written is read as a
    /// message that is written as that very line.
    pub proof fn law_round_trip(f: Seq<Seq<char>>, m: AtcPositionUpdateMessage)
        requires
            AtcPositionUpdateMessage::canonical(f),
            AtcPositionUpdateMessage::decodes(f, m),
        ensures
            m.fields() == f,
            m.wire() == join(f, ':'),
    {
        reveal_strlit("%");
        assert("%"@ + without_prefix(f[0], 1) =~= f[0]);
        assert(compact_texts(m.frequencies@) =~= compact_of(
            frequency_parts(m.frequencies@),
        ));
        assert(m.fields() =~= f);
    }
}

/// Tells the server of one more centre of visibility of a controller.
#[derive(Debug, Clone)]
pub struct AtcSecondaryVisCentreMessage {
    pub callsign: String,
    pub index: usize,
    /// The latitude in degrees, as the decimal text that stands on the wire.
    pub latitude: String,
    /// The longitude in degrees, as the decimal text that stands on the wire.
    pub longitude: String,
}

impl AtcSecondaryVisCentreMessage {
    /// The fields that are written for the message, in order, the first
    /// behind the marker of its kind.
    pub open spec fn fields(&self) -> Seq<Seq<char>> {
        seq![
            "'"@ + self.callsign@,
            numeral(self.index as nat, false),
            self.latitude@,
            self.longitude@,
        ]
    }

    /// The line that is written for the message.
    pub open spec fn wire(&self) -> Seq<char> {
        join(self.fields(), ':')
    }

    /// Why a list of fields is refused, or `None` where it is accepted.
    /// The count is tested first, then the fields in their order.
    pub open spec fn rejection(f: Seq<Seq<char>>) -> Option<ParseFailure> {
        if f.len() < 4 {
            Some(ParseFailure::InvalidFieldCount(4, f.len()))
        } else if unsigned_value(f[1], false, usize::MAX as nat) is None {
            Some(ParseFailure::InvalidIndex(f[1]))
        } else if !is_decimal(f[2]) {
            Some(ParseFailure::InvalidCoordinate(f[2]))
        } else if !is_decimal(f[3]) {
            Some(ParseFailure::InvalidCoordinate(f[3]))
        } else {
            None
        }
    }

    /// Whether an accepted list of fields is read as the message `m`.
    pub open spec fn decodes(f: Seq<Seq<char>>, m: AtcSecondaryVisCentreMessage) -> bool {
        &&& f.len() >= 4
        &&& m.callsign@ == uppercase(without_prefix(f[0], 1))
        &&& unsigned_value(f[1], false, usize::MAX as nat) == Some(m.index as nat)
        &&& m.latitude@ == f[2]
        &&& is_decimal(f[2])
        &&& m.longitude@ == f[3]
        &&& is_decimal(f[3])
    }

    /// Whether a list of fields is written as the message writes it: the
    /// marker in front, callsigns in upper case, numbers without sign or
    /// needless zeros, and no field more than is written.
    pub open spec fn canonical(f: Seq<Seq<char>>) -> bool {
        &&& f.len() == 4
        &&& begins_with(f[0], "'"@)
        &&& is_upper(without_prefix(f[0], 1))
        &&& is_plain_number(f[1], false, usize::MAX as nat)
    }

    /// The message of the given parts, its callsign put in upper case.
    pub fn new(
        callsign: &str,
        index: usize,
        latitude: &str,
        longitude: &str,
    ) -> (m: AtcSecondaryVisCentreMessage)
        ensures
            m.callsign@ == uppercase(callsign@),
            m.index == index,
            m.latitude@ == latitude@,
            m.longitude@ == longitude@,
    {
        AtcSecondaryVisCentreMessage {
            callsign: to_upper(callsign),
            index,
            latitude: latitude.to_owned(),
            longitude: longitude.to_owned(),
        }
    }

    /// Reads the message from the fields of its line.
    pub fn try_from(fields: &[&str]) -> (r: Result<
        AtcSecondaryVisCentreMessage,
        FsdMessageParseError,
    >)
        ensures
            match r {
                Ok(m) => AtcSecondaryVisCentreMessage::rejection(texts(fields@)) is None
                    && AtcSecondaryVisCentreMessage::decodes(texts(fields@), m),
                Err(e) => AtcSecondaryVisCentreMessage::rejection(texts(fields@)) == Some(e@),
            },
    {
        let ghost f = texts(fields@);
        if fields.len() < 4 {
            return Err(FsdMessageParseError::InvalidFieldCount(4, fields.len()));
        }
        assert(forall|i: int| 0 <= i < fields.len() ==> f[i] == (#[trigger] fields@[i])@);
        let first = skip_prefix(fields[0], 1);
        let index = match parse_unsigned(fields[1], false, usize::MAX as u64) {
            Some(n) => n as usize,
            None => {
                return Err(FsdMessageParseError::InvalidIndex(fields[1].to_owned()));
            },
        };
        if !is_decimal_text(fields[2]) {
            return Err(FsdMessageParseError::InvalidCoordinate(fields[2].to_owned()));
        }
        if !is_decimal_text(fields[3]) {
            return Err(FsdMessageParseError::InvalidCoordinate(fields[3].to_owned()));
        }
        Ok(AtcSecondaryVisCentreMessage::new(first.as_str(), index, fields[2], fields[3]))
    }

    /// The line that is written for the message.
    pub fn to_string(&self) -> (r: String)
        ensures
            r@ == self.wire(),
    {
        let mut parts: Vec<String> = Vec::new();
        parts.push(followed_by("'", self.callsign.as_str()));
        parts.push(number_text(self.index as u64));
        parts.push(self.latitude.clone());
        parts.push(self.longitude.clone());
        let r = join_strings(&parts, 0, ':');
        proof {
            assert(views(parts@) =~= self.fields());
            assert(views(parts@).subrange(0, parts.len() as int) =~= views(parts@));
        }
        r
    }

    /// A line in the form in which the message is written is read as a
    /// message that is written as that very line.
    pub proof fn law_round_trip(f: Seq<Seq<char>>, m: AtcSecondaryVisCentreMessage)
        requires
            AtcSecondaryVisCentreMessage::canonical(f),
            AtcSecondaryVisCentreMessage::decodes(f, m),
        ensures
            m.fields() == f,
            m.wire() == join(f, ':'),
    {
        reveal_strlit("'");
        assert("'"@ + without_prefix(f[0], 1) =~= f[0]);
        assert(m.fields() =~= f);
    }
}

/// The position of an aircraft that stands still.
#[derive(Debug, Clone)]
pub struct VelocityPositionStoppedMessage {
    pub from: String,
    /// The latitude in degrees, as the decimal text that stands on the wire.
    pub latitude: String,
    /// The longitude in degrees, as the decimal text that stands on the wire.
    pub longitude: String,
    /// The true altitude in feet, as decimal text.
    pub true_altitude: String,
    /// The height above ground in feet, as decimal text.
    pub altitude_agl: String,
    /// Pitch, in units of 360/1024 degrees.
    pub pitch: u32,
    /// Bank, in units of 360/1024 degrees.
    pub bank: u32,
    /// Heading, in units of 360/1024 degrees.
    pub heading: u32,
    pub on_ground: bool,
    /// The angle of the nose gear in degrees, as decimal text, where the line
    /// has one.
    pub nose_gear_angle: Option<String>,
}

impl VelocityPositionStoppedMessage {
    /// The fields that are written for the message, in order, the first
    /// behind the marker of its kind.
    pub open spec fn fields(&self) -> Seq<Seq<char>> {
        seq![
            "#ST"@ + self.from@,
            self.latitude@,
            self.longitude@,
            self.true_altitude@,
            self.altitude_agl@,
            numeral(
                packed_orientation(self.pitch, self.bank, self.heading, self.on_ground) as nat,
                false,
            ),
        ] + match self.nose_gear_angle {
            Some(nose_gear_angle) => seq![nose_gear_angle@],
            None => Seq::empty(),
        }
    }

    /// The line that is written for the message.
    pub open spec fn wire(&self) -> Seq<char> {
        join(self.fields(), ':')
    }

    /// Why a list of fields is refused, or `None` where it is accepted.
    /// The count is tested first, then the packed orientation, the angle of
    /// the nose gear, and the other fields in their order.
    pub open spec fn rejection(f: Seq<Seq<char>>) -> Option<ParseFailure> {
        if f.len() < 6 {
            Some(ParseFailure::InvalidFieldCount(6, f.len()))
        } else if unsigned_value(f[5], false, 0xffff_ffff) is None {
            Some(ParseFailure::InvalidPitchBankHeading(f[5]))
        } else if f.len() > 6 && !is_decimal(f[6]) {
            Some(ParseFailure::InvalidNosewheelAngle(f[6]))
        } else if !is_decimal(f[1]) {
            Some(ParseFailure::InvalidCoordinate(f[1]))
        } else if !is_decimal(f[2]) {
            Some(ParseFailure::InvalidCoordinate(f[2]))
        } else if !is_decimal(f[3]) {
            Some(ParseFailure::InvalidAltitude(f[3]))
        } else if !is_decimal(f[4]) {
            Some(ParseFailure::InvalidAltitude(f[4]))
        } else {
            None
        }
    }

    /// Whether an accepted list of fields is read as the message `m`.
    pub open spec fn decodes(f: Seq<Seq<char>>, m: VelocityPositionStoppedMessage) -> bool {
        &&& f.len() >= 6
        &&& m.from@ == uppercase(without_prefix(f[0], 3))
        &&& m.latitude@ == f[1]
        &&& is_decimal(f[1])
        &&& m.longitude@ == f[2]
        &&& is_decimal(f[2])
        &&& m.true_altitude@ == f[3]
        &&& is_decimal(f[3])
        &&& m.altitude_agl@ == f[4]
        &&& is_decimal(f[4])
        &&& unsigned_value(f[5], false, 0xffff_ffff) is Some
        &&& (m.pitch, m.bank, m.heading, m.on_ground) == unpacked_orientation(
            unsigned_value(f[5], false, 0xffff_ffff)->0 as u32,
        )
        &&& optional_text(m.nose_gear_angle) == field_if_present(f, 6)
        &&& f.len() > 6 ==> is_decimal(f[6])
    }

    /// Whether a list of fields is written as the message writes it: the
    /// marker in front, callsigns in upper case, numbers without sign or
    /// needless zeros, and no field more than is written.
    pub open spec fn canonical(f: Seq<Seq<char>>) -> bool {
        &&& 6 <= f.len() <= 7
        &&& begins_with(f[0], "#ST"@)
        &&& is_upper(without_prefix(f[0], 3))
        &&& is_plain_number(f[5], false, 0xffff_ffff)
        &&& (unsigned_value(f[5], false, 0xffff_ffff)->0 as u32) & 3 == 0
    }

    /// The message of the given parts, its callsign put in upper case.
    pub fn new(
        from: &str,
        latitude: &str,
        longitude: &str,
        true_altitude: &str,
        altitude_agl: &str,
        pitch: u32,
        bank: u32,
        heading: u32,
        on_ground: bool,
        nose_gear_angle: Option<&str>,
    ) -> (m: VelocityPositionStoppedMessage)
        ensures
            m.from@ == uppercase(from@),
            m.latitude@ == latitude@,
            m.longitude@ == longitude@,
            m.true_altitude@ == true_altitude@,
            m.altitude_agl@ == altitude_agl@,
            m.pitch == pitch,
            m.bank == bank,
            m.heading == heading,
            m.on_ground == on_ground,
            optional_text(m.nose_gear_angle) == optional_view(nose_gear_angle),
    {
        VelocityPositionStoppedMessage {
            from: to_upper(from),
            latitude: latitude.to_owned(),
            longitude: longitude.to_owned(),
            true_altitude: true_altitude.to_owned(),
            altitude_agl: altitude_agl.to_owned(),
            pitch,
            bank,
            heading,
            on_ground,
            nose_gear_angle: owned(nose_gear_angle),
        }
    }

    /// Reads the message from the fields of its line.
    pub fn try_from(fields: &[&str]) -> (r: Result<
        VelocityPositionStoppedMessage,
        FsdMessageParseError,
    >)
        ensures
            match r {
                Ok(m) => VelocityPositionStoppedMessage::rejection(texts(fields@)) is None
                    && VelocityPositionStoppedMessage::decodes(texts(fields@), m),
                Err(e) => VelocityPositionStoppedMessage::rejection(texts(fields@)) == Some(e@),
            },
    {
        let ghost f = texts(fields@);
        if fields.len() < 6 {
            return Err(FsdMessageParseError::InvalidFieldCount(6, fields.len()));
        }
        assert(forall|i: int| 0 <= i < fields.len() ==> f[i] == (#[trigger] fields@[i])@);
        let first = skip_prefix(fields[0], 3);
        let packed = match parse_unsigned(fields[5], false, 0xffff_ffff) {
            Some(n) => n as u32,
            None => {
                return Err(
                    FsdMessageParseError::InvalidPitchBankHeading(fields[5].to_owned()),
                );
            },
        };
        let (pitch, bank, heading, on_ground) = unpack_pitch_bank_heading(packed);
        let nose_gear_angle = if fields.len() > 6 {
            if !is_decimal_text(fields[6]) {
                return Err(FsdMessageParseError::InvalidNosewheelAngle(fields[6].to_owned()));
            }
            Some(fields[6])
        } else {
            None
        };
        if !is_decimal_text(fields[1]) {
            return Err(FsdMessageParseError::InvalidCoordinate(fields[1].to_owned()));
        }
        if !is_decimal_text(fields[2]) {
            return Err(FsdMessageParseError::InvalidCoordinate(fields[2].to_owned()));
        }
        if !is_decimal_text(fields[3]) {
            return Err(FsdMessageParseError::InvalidAltitude(fields[3].to_owned()));
        }
        if !is_decimal_text(fields[4]) {
            return Err(FsdMessageParseError::InvalidAltitude(fields[4].to_owned()));
        }
        Ok(
            VelocityPositionStoppedMessage::new(
                first.as_str(),
                fields[1],
                fields[2],
                fields[3],
                fields[4],
                pitch,
                bank,
                heading,
                on_ground,
                nose_gear_angle,
            ),
        )
    }

    /// The line that is written for the message.
    pub fn to_string(&self) -> (r: String)
        ensures
            r@ == self.wire(),
    {
        let mut parts: Vec<String> = Vec::new();
        parts.push(followed_by("#ST", self.from.as_str()));
        parts.push(self.latitude.clone());
        parts.push(self.longitude.clone());
        parts.push(self.true_altitude.clone());
        parts.push(self.altitude_agl.clone());
        parts.push(
            number_text(
                pack_pitch_bank_heading(self.pitch, self.bank, self.heading, self.on_ground) as u64,
            ),
        );
        match &self.nose_gear_angle {
            Some(nose_gear_angle) => {
                parts.push(nose_gear_angle.clone());
            },
            None => {},
        }
        let r = join_strings(&parts, 0, ':');
        proof {
            assert(views(parts@) =~= self.fields());
            assert(views(parts@).subrange(0, parts.len() as int) =~= views(parts@));
        }
        r
    }

    /// A line in the form in which the message is written is read as a
    /// message that is written as that very line.
    pub proof fn law_round_trip(f: Seq<Seq<char>>, m: VelocityPositionStoppedMessage)
        requires
            VelocityPositionStoppedMessage::canonical(f),
            VelocityPositionStoppedMessage::decodes(f, m),
        ensures
            m.fields() == f,
            m.wire() == join(f, ':'),
    {
        reveal_strlit("#ST");
        assert("#ST"@ + without_prefix(f[0], 3) =~= f[0]);
        lemma_orientation_repacks(
            unsigned_value(f[5], false, 0xffff_ffff)->0 as u32,
        );
        assert(m.fields() =~= f);
    }
}

/// The position and velocity of an aircraft, sent at the slow rate.
#[derive(Debug, Clone)]
pub struct VelocityPositionSlowMessage {
    pub from: String,
    /// The latitude in degrees, as the decimal text that stands on the wire.
    pub latitude: String,
    /// The longitude in degrees, as the decimal text that stands on the wire.
    pub longitude: String,
    /// The true altitude in feet, as decimal text.
    pub true_altitude: String,
    /// The height above ground in feet, as decimal text.
    pub altitude_agl: String,
    /// Pitch, in units of 360/1024 degrees.
    pub pitch: u32,
    /// Bank, in units of 360/1024 degrees.
    pub bank: u32,
    /// Heading, in units of 360/1024 degrees.
    pub heading: u32,
    pub on_ground: bool,
    /// The velocity along each axis, as decimal text.
    pub x_velocity: String,
    pub y_velocity: String,
    pub z_velocity: String,
    /// The rate of turn about each axis in radians per second, as decimal text.
    pub pitch_rad_per_sec: String,
    pub heading_rad_per_sec: String,
    pub bank_rad_per_sec: String,
    /// The angle of the nose gear in degrees, as decimal text, where the line
    /// has one.
    pub nose_gear_angle: Option<String>,
}

impl VelocityPositionSlowMessage {
    /// The fields that are written for the message, in order, the first
    /// behind the marker of its kind.
    pub open spec fn fields(&self) -> Seq<Seq<char>> {
        seq![
            "#SL"@ + self.from@,
            self.latitude@,
            self.longitude@,
            self.true_altitude@,
            self.altitude_agl@,
            numeral(
                packed_orientation(self.pitch, self.bank, self.heading, self.on_ground) as nat,
                false,
            ),
            self.x_velocity@,
            self.y_velocity@,
            self.z_velocity@,
            self.pitch_rad_per_sec@,
            self.heading_rad_per_sec@,
            self.bank_rad_per_sec@,
        ] + match self.nose_gear_angle {
            Some(nose_gear_angle) => seq![nose_gear_angle@],
            None => Seq::empty(),
        }
    }

    /// The line that is written for the message.
    pub open spec fn wire(&self) -> Seq<char> {
        join(self.fields(), ':')
    }

    /// Why a list of fields is refused, or `None` where it is accepted.
    /// The count is tested first, then the packed orientation, the angle of
    /// the nose gear, and the other fields in their order.
    pub open spec fn rejection(f: Seq<Seq<char>>) -> Option<ParseFailure> {
        if f.len() < 12 {
            Some(ParseFailure::InvalidFieldCount(12, f.len()))
        } else if unsigned_value(f[5], false, 0xffff_ffff) is None {
            Some(ParseFailure::InvalidPitchBankHeading(f[5]))
        } else if f.len() > 12 && !is_decimal(f[12]) {
            Some(ParseFailure::InvalidNosewheelAngle(f[12]))
        } else if !is_decimal(f[1]) {
            Some(ParseFailure::InvalidCoordinate(f[1]))
        } else if !is_decimal(f[2]) {
            Some(ParseFailure::InvalidCoordinate(f[2]))
        } else if !is_decimal(f[3]) {
            Some(ParseFailure::InvalidAltitude(f[3]))
        } else if !is_decimal(f[4]) {
            Some(ParseFailure::InvalidAltitude(f[4]))
        } else if !is_decimal(f[6]) {
            Some(ParseFailure::InvalidPositionVelocity(f[6]))
        } else if !is_decimal(f[7]) {
            Some(ParseFailure::InvalidPositionVelocity(f[7]))
        } else if !is_decimal(f[8]) {
            Some(ParseFailure::InvalidPositionVelocity(f[8]))
        } else if !is_decimal(f[9]) {
            Some(ParseFailure::InvalidPositionVelocity(f[9]))
        } else if !is_decimal(f[10]) {
            Some(ParseFailure::InvalidPositionVelocity(f[10]))
        } else if !is_decimal(f[11]) {
            Some(ParseFailure::InvalidPositionVelocity(f[11]))
        } else {
            None
        }
    }

    /// Whether an accepted list of fields is read as the message `m`.
    pub open spec fn decodes(f: Seq<Seq<char>>, m: VelocityPositionSlowMessage) -> bool {
        &&& f.len() >= 12
        &&& m.from@ == uppercase(without_prefix(f[0], 3))
        &&& m.latitude@ == f[1]
        &&& is_decimal(f[1])
        &&& m.longitude@ == f[2]
        &&& is_decimal(f[2])
        &&& m.true_altitude@ == f[3]
        &&& is_decimal(f[3])
        &&& m.altitude_agl@ == f[4]
        &&& is_decimal(f[4])
        &&& unsigned_value(f[5], false, 0xffff_ffff) is Some
        &&& (m.pitch, m.bank, m.heading, m.on_ground) == unpacked_orientation(
            unsigned_value(f[5], false, 0xffff_ffff)->0 as u32,
        )
        &&& m.x_velocity@ == f[6]
        &&& is_decimal(f[6])
        &&& m.y_velocity@ == f[7]
        &&& is_decimal(f[7])
        &&& m.z_velocity@ == f[8]
        &&& is_decimal(f[8])
        &&& m.pitch_rad_per_sec@ == f[9]
        &&& is_decimal(f[9])
        &&& m.heading_rad_per_sec@ == f[10]
        &&& is_decimal(f[10])
        &&& m.bank_rad_per_sec@ == f[11]
        &&& is_decimal(f[11])
        &&& optional_text(m.nose_gear_angle) == field_if_present(f, 12)
        &&& f.len() > 12 ==> is_decimal(f[12])
    }

    /// Whether a list of fields is written as the message writes it: the
    /// marker in front, callsigns in upper case, numbers without sign or
    /// needless zeros, and no field more than is written.
    pub open spec fn canonical(f: Seq<Seq<char>>) -> bool {
        &&& 12 <= f.len() <= 13
        &&& begins_with(f[0], "#SL"@)
        &&& is_upper(without_prefix(f[0], 3))
        &&& is_plain_number(f[5], false, 0xffff_ffff)
        &&& (unsigned_value(f[5], false, 0xffff_ffff)->0 as u32) & 3 == 0
    }

    /// The message of the given parts, its callsign put in upper case.
    pub fn new(
        from: &str,
        latitude: &str,
        longitude: &str,
        true_altitude: &str,
        altitude_agl: &str,
        pitch: u32,
        bank: u32,
        heading: u32,
        on_ground: bool,
        x_velocity: &str,
        y_velocity: &str,
        z_velocity: &str,
        pitch_rad_per_sec: &str,
        heading_rad_per_sec: &str,
        bank_rad_per_sec: &str,
        nose_gear_angle: Option<&str>,
    ) -> (m: VelocityPositionSlowMessage)
        ensures
            m.from@ == uppercase(from@),
            m.latitude@ == latitude@,
            m.longitude@ == longitude@,
            m.true_altitude@ == true_altitude@,
            m.altitude_agl@ == altitude_agl@,
            m.pitch == pitch,
            m.bank == bank,
            m.heading == heading,
            m.on_ground == on_ground,
            m.x_velocity@ == x_velocity@,
            m.y_velocity@ == y_velocity@,
            m.z_velocity@ == z_velocity@,
            m.pitch_rad_per_sec@ == pitch_rad_per_sec@,
            m.heading_rad_per_sec@ == heading_rad_per_sec@,
            m.bank_rad_per_sec@ == bank_rad_per_sec@,
            optional_text(m.nose_gear_angle) == optional_view(nose_gear_angle),
    {
        VelocityPositionSlowMessage {
            from: to_upper(from),
            latitude: latitude.to_owned(),
            longitude: longitude.to_owned(),
            true_altitude: true_altitude.to_owned(),
            altitude_agl: altitude_agl.to_owned(),
            pitch,
            bank,
            heading,
            on_ground,
            x_velocity: x_velocity.to_owned(),
            y_velocity: y_velocity.to_owned(),
            z_velocity: z_velocity.to_owned(),
            pitch_rad_per_sec: pitch_rad_per_sec.to_owned(),
            heading_rad_per_sec: heading_rad_per_sec.to_owned(),
            bank_rad_per_sec: bank_rad_per_sec.to_owned(),
            nose_gear_angle: owned(nose_gear_angle),
        }
    }

    /// Reads the message from the fields of its line.
    pub fn try_from(fields: &[&str]) -> (r: Result<
        VelocityPositionSlowMessage,
        FsdMessageParseError,
    >)
        ensures
            match r {
                Ok(m) => VelocityPositionSlowMessage::rejection(texts(fields@)) is None
                    && VelocityPositionSlowMessage::decodes(texts(fields@), m),
                Err(e) => VelocityPositionSlowMessage::rejection(texts(fields@)) == Some(e@),
            },
    {
        let ghost f = texts(fields@);
        if fields.len() < 12 {
            return Err(FsdMessageParseError::InvalidFieldCount(12, fields.len()));
        }
        assert(forall|i: int| 0 <= i < fields.len() ==> f[i] == (#[trigger] fields@[i])@);
        let first = skip_prefix(fields[0], 3);
        let packed = match parse_unsigned(fields[5], false, 0xffff_ffff) {
            Some(n) => n as u32,
            None => {
                return Err(
                    FsdMessageParseError::InvalidPitchBankHeading(fields[5].to_owned()),
                );
            },
        };
        let (pitch, bank, heading, on_ground) = unpack_pitch_bank_heading(packed);
        let nose_gear_angle = if fields.len() > 12 {
            if !is_decimal_text(fields[12]) {
                return Err(FsdMessageParseError::InvalidNosewheelAngle(fields[12].to_owned()));
            }
            Some(fields[12])
        } else {
            None
        };
        if !is_decimal_text(fields[1]) {
            return Err(FsdMessageParseError::InvalidCoordinate(fields[1].to_owned()));
        }
        if !is_decimal_text(fields[2]) {
            return Err(FsdMessageParseError::InvalidCoordinate(fields[2].to_owned()));
        }
        if !is_decimal_text(fields[3]) {
            return Err(FsdMessageParseError::InvalidAltitude(fields[3].to_owned()));
        }
        if !is_decimal_text(fields[4]) {
            return Err(FsdMessageParseError::InvalidAltitude(fields[4].to_owned()));
        }
        if !is_decimal_text(fields[6]) {
            return Err(FsdMessageParseError::InvalidPositionVelocity(fields[6].to_owned()));
        }
        if !is_decimal_text(fields[7]) {
            return Err(FsdMessageParseError::InvalidPositionVelocity(fields[7].to_owned()));
        }
        if !is_decimal_text(fields[8]) {
            return Err(FsdMessageParseError::InvalidPositionVelocity(fields[8].to_owned()));
        }
        if !is_decimal_text(fields[9]) {
            return Err(FsdMessageParseError::InvalidPositionVelocity(fields[9].to_owned()));
        }
        if !is_decimal_text(fields[10]) {
            return Err(FsdMessageParseError::InvalidPositionVelocity(fields[10].to_owned()));
        }
        if !is_decimal_text(fields[11]) {
            return Err(FsdMessageParseError::InvalidPositionVelocity(fields[11].to_owned()));
        }
        Ok(
            VelocityPositionSlowMessage::new(
                first.as_str(),
                fields[1],
                fields[2],
                fields[3],
                fields[4],
                pitch,
                bank,
                heading,
                on_ground,
                fields[6],
                fields[7],
                fields[8],
                fields[9],
                fields[10],
                fields[11],
                nose_gear_angle,
            ),
        )
    }

    /// The line that is written for the message.
    pub fn to_string(&self) -> (r: String)
        ensures
            r@ == self.wire(),
    {
        let mut parts: Vec<String> = Vec::new();
        parts.push(followed_by("#SL", self.from.as_str()));
        parts.push(self.latitude.clone());
        parts.push(self.longitude.clone());
        parts.push(self.true_altitude.clone());
        parts.push(self.altitude_agl.clone());
        parts.push(
            number_text(
                pack_pitch_bank_heading(self.pitch, self.bank, self.heading, self.on_ground) as u64,
            ),
        );
        parts.push(self.x_velocity.clone());
        parts.push(self.y_velocity.clone());
        parts.push(self.z_velocity.clone());
        parts.push(self.pitch_rad_per_sec.clone());
        parts.push(self.heading_rad_per_sec.clone());
        parts.push(self.bank_rad_per_sec.clone());
        match &self.nose_gear_angle {
            Some(nose_gear_angle) => {
                parts.push(nose_gear_angle.clone());
            },
            None => {},
        }
        let r = join_strings(&parts, 0, ':');
        proof {
            assert(views(parts@) =~= self.fields());
            assert(views(parts@).subrange(0, parts.len() as int) =~= views(parts@));
        }
        r
    }

    /// A line in the form in which the message is written is read as a
    /// message that is written as that very line.
    pub proof fn law_round_trip(f: Seq<Seq<char>>, m: VelocityPositionSlowMessage)
        requires
            VelocityPositionSlowMessage::canonical(f),
            VelocityPositionSlowMessage::decodes(f, m),
        ensures
            m.fields() == f,
            m.wire() == join(f, ':'),
    {
        reveal_strlit("#SL");
        assert("#SL"@ + without_prefix(f[0], 3) =~= f[0]);
        lemma_orientation_repacks(
            unsigned_value(f[5], false, 0xffff_ffff)->0 as u32,
        );
        assert(m.fields() =~= f);
    }
}

/// The position and velocity of an aircraft, sent at the fast rate.
#[derive(Debug, Clone)]
pub struct VelocityPositionFastMessage {
    pub from: String,
    /// The latitude in degrees, as the decimal text that stands on the wire.
    pub latitude: String,
    /// The longitude in degrees, as the decimal text that stands on the wire.
    pub longitude: String,
    /// The true altitude in feet, as decimal text.
    pub true_altitude: String,
    /// The height above ground in feet, as decimal text.
    pub altitude_agl: String,
    /// Pitch, in units of 360/1024 degrees.
    pub pitch: u32,
    /// Bank, in units of 360/1024 degrees.
    pub bank: u32,
    /// Heading, in units of 360/1024 degrees.
    pub heading: u32,
    pub on_ground: bool,
    /// The velocity along each axis, as decimal text.
    pub x_velocity: String,
    pub y_velocity: String,
    pub z_velocity: String,
    /// The rate of turn about each axis in radians per second, as decimal text.
    pub pitch_rad_per_sec: String,
    pub heading_rad_per_sec: String,
    pub bank_rad_per_sec: String,
    /// The angle of the nose gear in degrees, as decimal text, where the line
    /// has one.
    pub nose_gear_angle: Option<String>,
}

impl VelocityPositionFastMessage {
    /// The fields that are written for the message, in order, the first
    /// behind the marker of its kind.
    pub open spec fn fields(&self) -> Seq<Seq<char>> {
        seq![
            "^"@ + self.from@,
            self.latitude@,
            self.longitude@,
            self.true_altitude@,
            self.altitude_agl@,
            numeral(
                packed_orientation(self.pitch, self.bank, self.heading, self.on_ground) as nat,
                false,
            ),
            self.x_velocity@,
            self.y_velocity@,
            self.z_velocity@,
            self.pitch_rad_per_sec@,
            self.heading_rad_per_sec@,
            self.bank_rad_per_sec@,
        ] + match self.nose_gear_angle {
            Some(nose_gear_angle) => seq![nose_gear_angle@],
            None => Seq::empty(),
        }
    }

    /// The line that is written for the message.
    pub open spec fn wire(&self) -> Seq<char> {
        join(self.fields(), ':')
    }

    /// Why a list of fields is refused, or `None` where it is accepted.
    /// The count is tested first, then the packed orientation, the angle of
    /// the nose gear, and the other fields in their order.
    pub open spec fn rejection(f: Seq<Seq<char>>) -> Option<ParseFailure> {
        if f.len() < 12 {
            Some(ParseFailure::InvalidFieldCount(12, f.len()))
        } else if unsigned_value(f[5], false, 0xffff_ffff) is None {
            Some(ParseFailure::InvalidPitchBankHeading(f[5]))
        } else if f.len() > 12 && !is_decimal(f[12]) {
            Some(ParseFailure::InvalidNosewheelAngle(f[12]))
        } else if !is_decimal(f[1]) {
            Some(ParseFailure::InvalidCoordinate(f[1]))
        } else if !is_decimal(f[2]) {
            Some(ParseFailure::InvalidCoordinate(f[2]))
        } else if !is_decimal(f[3]) {
            Some(ParseFailure::InvalidAltitude(f[3]))
        } else if !is_decimal(f[4]) {
            Some(ParseFailure::InvalidAltitude(f[4]))
        } else if !is_decimal(f[6]) {
            Some(ParseFailure::InvalidPositionVelocity(f[6]))
        } else if !is_decimal(f[7]) {
            Some(ParseFailure::InvalidPositionVelocity(f[7]))
        } else if !is_decimal(f[8]) {
            Some(ParseFailure::InvalidPositionVelocity(f[8]))
        } else if !is_decimal(f[9]) {
            Some(ParseFailure::InvalidPositionVelocity(f[9]))
        } else if !is_decimal(f[10]) {
            Some(ParseFailure::InvalidPositionVelocity(f[10]))
        } else if !is_decimal(f[11]) {
            Some(ParseFailure::InvalidPositionVelocity(f[11]))
        } else {
            None
        }
    }

    /// Whether an accepted list of fields is read as the message `m`.
    pub open spec fn decodes(f: Seq<Seq<char>>, m: VelocityPositionFastMessage) -> bool {
        &&& f.len() >= 12
        &&& m.from@ == uppercase(without_prefix(f[0], 1))
        &&& m.latitude@ == f[1]
        &&& is_decimal(f[1])
        &&& m.longitude@ == f[2]
        &&& is_decimal(f[2])
        &&& m.true_altitude@ == f[3]
        &&& is_decimal(f[3])
        &&& m.altitude_agl@ == f[4]
        &&& is_decimal(f[4])
        &&& unsigned_value(f[5], false, 0xffff_ffff) is Some
        &&& (m.pitch, m.bank, m.heading, m.on_ground) == unpacked_orientation(
            unsigned_value(f[5], false, 0xffff_ffff)->0 as u32,
        )
        &&& m.x_velocity@ == f[6]
        &&& is_decimal(f[6])
        &&& m.y_velocity@ == f[7]
        &&& is_decimal(f[7])
        &&& m.z_velocity@ == f[8]
        &&& is_decimal(f[8])
        &&& m.pitch_rad_per_sec@ == f[9]
        &&& is_decimal(f[9])
        &&& m.heading_rad_per_sec@ == f[10]
        &&& is_decimal(f[10])
        &&& m.bank_rad_per_sec@ == f[11]
        &&& is_decimal(f[11])
        &&& optional_text(m.nose_gear_angle) == field_if_present(f, 12)
        &&& f.len() > 12 ==> is_decimal(f[12])
    }

    /// Whether a list of fields is written as the message writes it: the
    /// marker in front, callsigns in upper case, numbers without sign or
    /// needless zeros, and no field more than is written.
    pub open spec fn canonical(f: Seq<Seq<char>>) -> bool {
        &&& 12 <= f.len() <= 13
        &&& begins_with(f[0], "^"@)
        &&& is_upper(without_prefix(f[0], 1))
        &&& is_plain_number(f[5], false, 0xffff_ffff)
        &&& (unsigned_value(f[5], false, 0xffff_ffff)->0 as u32) & 3 == 0
    }

    /// The message of the given parts, its callsign put in upper case.
    pub fn new(
        from: &str,
        latitude: &str,
        longitude: &str,
        true_altitude: &str,
        altitude_agl: &str,
        pitch: u32,
        bank: u32,
        heading: u32,
        on_ground: bool,
        x_velocity: &str,
        y_velocity: &str,
        z_velocity: &str,
        pitch_rad_per_sec: &str,
        heading_rad_per_sec: &str,
        bank_rad_per_sec: &str,
        nose_gear_angle: Option<&str>,
    ) -> (m: VelocityPositionFastMessage)
        ensures
            m.from@ == uppercase(from@),
            m.latitude@ == latitude@,
            m.longitude@ == longitude@,
            m.true_altitude@ == true_altitude@,
            m.altitude_agl@ == altitude_agl@,
            m.pitch == pitch,
            m.bank == bank,
            m.heading == heading,
            m.on_ground == on_ground,
            m.x_velocity@ == x_velocity@,
            m.y_velocity@ == y_velocity@,
            m.z_velocity@ == z_velocity@,
            m.pitch_rad_per_sec@ == pitch_rad_per_sec@,
            m.heading_rad_per_sec@ == heading_rad_per_sec@,
            m.bank_rad_per_sec@ == bank_rad_per_sec@,
            optional_text(m.nose_gear_angle) == optional_view(nose_gear_angle),
    {
        VelocityPositionFastMessage {
            from: to_upper(from),
            latitude: latitude.to_owned(),
            longitude: longitude.to_owned(),
            true_altitude: true_altitude.to_owned(),
            altitude_agl: altitude_agl.to_owned(),
            pitch,
            bank,
            heading,
            on_ground,
            x_velocity: x_velocity.to_owned(),
            y_velocity: y_velocity.to_owned(),
            z_velocity: z_velocity.to_owned(),
            pitch_rad_per_sec: pitch_rad_per_sec.to_owned(),
            heading_rad_per_sec: heading_rad_per_sec.to_owned(),
            bank_rad_per_sec: bank_rad_per_sec.to_owned(),
            nose_gear_angle: owned(nose_gear_angle),
        }
    }

    /// Reads the message from the fields of its line.
    pub fn try_from(fields: &[&str]) -> (r: Result<
        VelocityPositionFastMessage,
        FsdMessageParseError,
    >)
        ensures
            match r {
                Ok(m) => VelocityPositionFastMessage::rejection(texts(fields@)) is None
                    && VelocityPositionFastMessage::decodes(texts(fields@), m),
                Err(e) => VelocityPositionFastMessage::rejection(texts(fields@)) == Some(e@),
            },
    {
        let ghost f = texts(fields@);
        if fields.len() < 12 {
            return Err(FsdMessageParseError::InvalidFieldCount(12, fields.len()));
        }
        assert(forall|i: int| 0 <= i < fields.len() ==> f[i] == (#[trigger] fields@[i])@);
        let first = skip_prefix(fields[0], 1);
        let packed = match parse_unsigned(fields[5], false, 0xffff_ffff) {
            Some(n) => n as u32,
            None => {
                return Err(
                    FsdMessageParseError::InvalidPitchBankHeading(fields[5].to_owned()),
                );
            },
        };
        let (pitch, bank, heading, on_ground) = unpack_pitch_bank_heading(packed);
        let nose_gear_angle = if fields.len() > 12 {
            if !is_decimal_text(fields[12]) {
                return Err(FsdMessageParseError::InvalidNosewheelAngle(fields[12].to_owned()));
            }
            Some(fields[12])
        } else {
            None
        };
        if !is_decimal_text(fields[1]) {
            return Err(FsdMessageParseError::InvalidCoordinate(fields[1].to_owned()));
        }
        if !is_decimal_text(fields[2]) {
            return Err(FsdMessageParseError::InvalidCoordinate(fields[2].to_owned()));
        }
        if !is_decimal_text(fields[3]) {
            return Err(FsdMessageParseError::InvalidAltitude(fields[3].to_owned()));
        }
        if !is_decimal_text(fields[4]) {
            return Err(FsdMessageParseError::InvalidAltitude(fields[4].to_owned()));
        }
        if !is_decimal_text(fields[6]) {
            return Err(FsdMessageParseError::InvalidPositionVelocity(fields[6].to_owned()));
        }
        if !is_decimal_text(fields[7]) {
            return Err(FsdMessageParseError::InvalidPositionVelocity(fields[7].to_owned()));
        }
        if !is_decimal_text(fields[8]) {
            return Err(FsdMessageParseError::InvalidPositionVelocity(fields[8].to_owned()));
        }
        if !is_decimal_text(fields[9]) {
            return Err(FsdMessageParseError::InvalidPositionVelocity(fields[9].to_owned()));
        }
        if !is_decimal_text(fields[10]) {
            return Err(FsdMessageParseError::InvalidPositionVelocity(fields[10].to_owned()));
        }
        if !is_decimal_text(fields[11]) {
            return Err(FsdMessageParseError::InvalidPositionVelocity(fields[11].to_owned()));
        }
        Ok(
            VelocityPositionFastMessage::new(
                first.as_str(),
                fields[1],
                fields[2],
                fields[3],
                fields[4],
                pitch,
                bank,
                heading,
                on_ground,
                fields[6],
                fields[7],
                fields[8],
                fields[9],
                fields[10],
                fields[11],
                nose_gear_angle,
            ),
        )
    }

    /// The line that is written for the message.
    pub fn to_string(&self) -> (r: String)
        ensures
            r@ == self.wire(),
    {
        let mut parts: Vec<String> = Vec::new();
        parts.push(followed_by("^", self.from.as_str()));
        parts.push(self.latitude.clone());
        parts.push(self.longitude.clone());
        parts.push(self.true_altitude.clone());
        parts.push(self.altitude_agl.clone());
        parts.push(
            number_text(
                pack_pitch_bank_heading(self.pitch, self.bank, self.heading, self.on_ground) as u64,
            ),
        );
        parts.push(self.x_velocity.clone());
        parts.push(self.y_velocity.clone());
        parts.push(self.z_velocity.clone());
        parts.push(self.pitch_rad_per_sec.clone());
        parts.push(self.heading_rad_per_sec.clone());
        parts.push(self.bank_rad_per_sec.clone());
        match &self.nose_gear_angle {
            Some(nose_gear_angle) => {
                parts.push(nose_gear_angle.clone());
            },
            None => {},
        }
        let r = join_strings(&parts, 0, ':');
        proof {
            assert(views(parts@) =~= self.fields());
            assert(views(parts@).subrange(0, parts.len() as int) =~= views(parts@));
        }
        r
    }

    /// A line in the form in which the message is written is read as a
    /// message that is written as that very line.
    pub proof fn law_round_trip(f: Seq<Seq<char>>, m: VelocityPositionFastMessage)
        requires
            VelocityPositionFastMessage::canonical(f),
            VelocityPositionFastMessage::decodes(f, m),
        ensures
            m.fields() == f,
            m.wire() == join(f, ':'),
    {
        reveal_strlit("^");
        assert("^"@ + without_prefix(f[0], 1) =~= f[0]);
        lemma_orientation_repacks(
            unsigned_value(f[5], false, 0xffff_ffff)->0 as u32,
        );
        assert(m.fields() =~= f);
    }
}

/// Sent at regular intervals by a pilot client to tell the server where it is.
/// The transponder mode stands behind the marker, before the callsign.
#[derive(Debug, Clone)]
pub struct PilotPositionUpdateMessage {
    pub callsign: String,
    pub transponder_mode: TransponderMode,
    pub transponder_code: TransponderCode,
    pub rating: PilotRating,
    /// The latitude in degrees, as the decimal text that stands on the wire.
    pub latitude: String,
    /// The longitude in degrees, as the decimal text that stands on the wire.
    pub longitude: String,
    /// The true altitude in feet, as decimal text.
    pub true_altitude: String,
    /// The pressure altitude less the true altitude in feet, as decimal text.
    pub altitude_difference: String,
    pub ground_speed: u32,
    /// Pitch, in units of 360/1024 degrees.
    pub pitch: u32,
    /// Bank, in units of 360/1024 degrees.
    pub bank: u32,
    /// Heading, in units of 360/1024 degrees.
    pub heading: u32,
    pub on_ground: bool,
}

impl PilotPositionUpdateMessage {
    /// The fields that are written for the message, in order, the first
    /// behind the marker of its kind.
    pub open spec fn fields(&self) -> Seq<Seq<char>> {
        seq![
            "@"@ + self.transponder_mode.text(),
            self.callsign@,
            padded(self.transponder_code.value(), false, 4),
            numeral(self.rating.code(), false),
            self.latitude@,
            self.longitude@,
            self.true_altitude@,
            numeral(self.ground_speed as nat, false),
            numeral(
                packed_orientation(self.pitch, self.bank, self.heading, self.on_ground) as nat,
                false,
            ),
            self.altitude_difference@,
        ]
    }

    /// The line that is written for the message.
    pub open spec fn wire(&self) -> Seq<char> {
        join(self.fields(), ':')
    }

    /// Why a list of fields is refused, or `None` where it is accepted.
    /// The count is tested first, then the true altitude, the altitude
    /// difference, the packed orientation, and the other fields in their
    /// order.
    pub open spec fn rejection(f: Seq<Seq<char>>) -> Option<ParseFailure> {
        if f.len() < 10 {
            Some(ParseFailure::InvalidFieldCount(10, f.len()))
        } else if !is_decimal(f[6]) {
            Some(ParseFailure::InvalidAltitude(f[6]))
        } else if !is_decimal(f[9]) {
            Some(ParseFailure::InvalidAltitudeDifference(f[9]))
        } else if unsigned_value(f[8], false, 0xffff_ffff) is None {
            Some(ParseFailure::InvalidPitchBankHeading(f[8]))
        } else if TransponderMode::of_text(without_prefix(f[0], 1)) is None {
            Some(TransponderMode::refusal(without_prefix(f[0], 1)))
        } else if squawk_of_text(f[2]) is None {
            Some(ParseFailure::InvalidTransponderCode(f[2]))
        } else if PilotRating::of_text(f[3]) is None {
            Some(PilotRating::refusal(f[3]))
        } else if !is_decimal(f[4]) {
            Some(ParseFailure::InvalidCoordinate(f[4]))
        } else if !is_decimal(f[5]) {
            Some(ParseFailure::InvalidCoordinate(f[5]))
        } else if unsigned_value(f[7], false, 0xffff_ffff) is None {
            Some(ParseFailure::InvalidSpeed(f[7]))
        } else {
            None
        }
    }

    /// Whether an accepted list of fields is read as the message `m`.
    pub open spec fn decodes(f: Seq<Seq<char>>, m: PilotPositionUpdateMessage) -> bool {
        &&& f.len() >= 10
        &&& TransponderMode::of_text(without_prefix(f[0], 1)) == Some(m.transponder_mode)
        &&& m.callsign@ == uppercase(f[1])
        &&& squawk_of_text(f[2]) == Some(m.transponder_code.value())
        &&& PilotRating::of_text(f[3]) == Some(m.rating)
        &&& m.latitude@ == f[4]
        &&& is_decimal(f[4])
        &&& m.longitude@ == f[5]
        &&& is_decimal(f[5])
        &&& m.true_altitude@ == f[6]
        &&& is_decimal(f[6])
        &&& unsigned_value(f[7], false, 0xffff_ffff) == Some(m.ground_speed as nat)
        &&& unsigned_value(f[8], false, 0xffff_ffff) is Some
        &&& (m.pitch, m.bank, m.heading, m.on_ground) == unpacked_orientation(
            unsigned_value(f[8], false, 0xffff_ffff)->0 as u32,
        )
        &&& m.altitude_difference@ == f[9]
        &&& is_decimal(f[9])
    }

    /// Whether a list of fields is written as the message writes it: the
    /// marker in front, callsigns in upper case, numbers without sign or
    /// needless zeros, and no field more than is written.
    pub open spec fn canonical(f: Seq<Seq<char>>) -> bool {
        &&& f.len() == 10
        &&& begins_with(f[0], "@"@)
        &&& is_upper(f[1])
        &&& is_padded_number(f[2], false, 4, 0xffff)
        &&& PilotRating::of_text(f[3]) is Some ==> numeral(
            PilotRating::of_text(f[3])->0.code(),
            false,
        ) == f[3]
        &&& is_plain_number(f[7], false, 0xffff_ffff)
        &&& is_plain_number(f[8], false, 0xffff_ffff)
        &&& (unsigned_value(f[8], false, 0xffff_ffff)->0 as u32) & 3 == 0
    }

    /// The message of the given parts, its callsign put in upper case.
    pub fn new(
        callsign: &str,
        transponder_mode: TransponderMode,
        transponder_code: TransponderCode,
        rating: PilotRating,
        latitude: &str,
        longitude: &str,
        true_altitude: &str,
        altitude_difference: &str,
        ground_speed: u32,
        pitch: u32,
        bank: u32,
        heading: u32,
        on_ground: bool,
    ) -> (m: PilotPositionUpdateMessage)
        ensures
            m.callsign@ == uppercase(callsign@),
            m.transponder_mode == transponder_mode,
            m.transponder_code == transponder_code,
            m.rating == rating,
            m.latitude@ == latitude@,
            m.longitude@ == longitude@,
            m.true_altitude@ == true_altitude@,
            m.altitude_difference@ == altitude_difference@,
            m.ground_speed == ground_speed,
            m.pitch == pitch,
            m.bank == bank,
            m.heading == heading,
            m.on_ground == on_ground,
    {
        PilotPositionUpdateMessage {
            callsign: to_upper(callsign),
            transponder_mode,
            transponder_code,
            rating,
            latitude: latitude.to_owned(),
            longitude: longitude.to_owned(),
            true_altitude: true_altitude.to_owned(),
            altitude_difference: altitude_difference.to_owned(),
            ground_speed,
            pitch,
            bank,
            heading,
            on_ground,
        }
    }

    /// Reads the message from the fields of its line.
    pub fn try_from(fields: &[&str]) -> (r: Result<
        PilotPositionUpdateMessage,
        FsdMessageParseError,
    >)
        ensures
            match r {
                Ok(m) => PilotPositionUpdateMessage::rejection(texts(fields@)) is None
                    && PilotPositionUpdateMessage::decodes(texts(fields@), m),
                Err(e) => PilotPositionUpdateMessage::rejection(texts(fields@)) == Some(e@),
            },
    {
        let ghost f = texts(fields@);
        if fields.len() < 10 {
            return Err(FsdMessageParseError::InvalidFieldCount(10, fields.len()));
        }
        assert(forall|i: int| 0 <= i < fields.len() ==> f[i] == (#[trigger] fields@[i])@);
        if !is_decimal_text(fields[6]) {
            return Err(FsdMessageParseError::InvalidAltitude(fields[6].to_owned()));
        }
        if !is_decimal_text(fields[9]) {
            return Err(FsdMessageParseError::InvalidAltitudeDifference(fields[9].to_owned()));
        }
        let packed = match parse_unsigned(fields[8], false, 0xffff_ffff) {
            Some(n) => n as u32,
            None => {
                return Err(
                    FsdMessageParseError::InvalidPitchBankHeading(fields[8].to_owned()),
                );
            },
        };
        let (pitch, bank, heading, on_ground) = unpack_pitch_bank_heading(packed);
        let head = skip_prefix(fields[0], 1);
        let transponder_mode = match TransponderMode::from_str(head.as_str()) {
            Ok(v) => v,
            Err(e) => {
                return Err(e);
            },
        };
        let transponder_code = match TransponderCode::from_str(fields[2]) {
            Ok(v) => v,
            Err(e) => {
                return Err(e);
            },
        };
        let rating = match PilotRating::from_str(fields[3]) {
            Ok(v) => v,
            Err(e) => {
                return Err(e);
            },
        };
        if !is_decimal_text(fields[4]) {
            return Err(FsdMessageParseError::InvalidCoordinate(fields[4].to_owned()));
        }
        if !is_decimal_text(fields[5]) {
            return Err(FsdMessageParseError::InvalidCoordinate(fields[5].to_owned()));
        }
        let ground_speed = match parse_unsigned(fields[7], false, 0xffff_ffff) {
            Some(n) => n as u32,
            None => {
                return Err(FsdMessageParseError::InvalidSpeed(fields[7].to_owned()));
            },
        };
        Ok(
            PilotPositionUpdateMessage::new(
                fields[1],
                transponder_mode,
                transponder_code,
                rating,
                fields[4],
                fields[5],
                fields[6],
                fields[9],
                ground_speed,
                pitch,
                bank,
                heading,
                on_ground,
            ),
        )
    }

    /// The line that is written for the message.
    pub fn to_string(&self) -> (r: String)
        ensures
            r@ == self.wire(),
    {
        let mut parts: Vec<String> = Vec::new();
        parts.push(followed_by("@", self.transponder_mode.to_string().as_str()));
        parts.push(self.callsign.clone());
        parts.push(self.transponder_code.to_string());
        parts.push(number_text(self.rating.number() as u64));
        parts.push(self.latitude.clone());
        parts.push(self.longitude.clone());
        parts.push(self.true_altitude.clone());
        parts.push(number_text(self.ground_speed as u64));
        parts.push(
            number_text(
                pack_pitch_bank_heading(self.pitch, self.bank, self.heading, self.on_ground) as u64,
            ),
        );
        parts.push(self.altitude_difference.clone());
        let r = join_strings(&parts, 0, ':');
        proof {
            assert(views(parts@) =~= self.fields());
            assert(views(parts@).subrange(0, parts.len() as int) =~= views(parts@));
        }
        r
    }

    /// A line in the form in which the message is written is read as a
    /// message that is written as that very line.
    pub proof fn law_round_trip(f: Seq<Seq<char>>, m: PilotPositionUpdateMessage)
        requires
            PilotPositionUpdateMessage::canonical(f),
            PilotPositionUpdateMessage::decodes(f, m),
        ensures
            m.fields() == f,
            m.wire() == join(f, ':'),
    {
        reveal_strlit("@");
        assert("@"@ + without_prefix(f[0], 1) =~= f[0]);
        lemma_orientation_repacks(
            unsigned_value(f[8], false, 0xffff_ffff)->0 as u32,
        );
        assert(m.fields() =~= f);
    }
}

impl VelocityPositionFastMessage {
    /// The fast message with the parts of a slow one, each as it is.
    pub fn from(value: VelocityPositionSlowMessage) -> (m: VelocityPositionFastMessage)
        ensures
            m.from == value.from,
            m.latitude == value.latitude,
            m.longitude == value.longitude,
            m.true_altitude == value.true_altitude,
            m.altitude_agl == value.altitude_agl,
            m.pitch == value.pitch,
            m.bank == value.bank,
            m.heading == value.heading,
            m.on_ground == value.on_ground,
            m.x_velocity == value.x_velocity,
            m.y_velocity == value.y_velocity,
            m.z_velocity == value.z_velocity,
            m.pitch_rad_per_sec == value.pitch_rad_per_sec,
            m.heading_rad_per_sec == value.heading_rad_per_sec,
            m.bank_rad_per_sec == value.bank_rad_per_sec,
            m.nose_gear_angle == value.nose_gear_angle,
    {
        VelocityPositionFastMessage {
            from: value.from,
            latitude: value.latitude,
            longitude: value.longitude,
            true_altitude: value.true_altitude,
            altitude_agl: value.altitude_agl,
            pitch: value.pitch,
            bank: value.bank,
            heading: value.heading,
            on_ground: value.on_ground,
            x_velocity: value.x_velocity,
            y_velocity: value.y_velocity,
            z_velocity: value.z_velocity,
            pitch_rad_per_sec: value.pitch_rad_per_sec,
            heading_rad_per_sec: value.heading_rad_per_sec,
            bank_rad_per_sec: value.bank_rad_per_sec,
            nose_gear_angle: value.nose_gear_angle,
        }
    }
}

} // verus!
