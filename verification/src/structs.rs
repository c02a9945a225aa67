//! Value types carried inside messages: beacon codes, radio frequencies,
//! plane information and flight plans.

use vstd::prelude::*;
use vstd::string::*;
use crate::enums::FlightRules;
use crate::errors::{FsdMessageParseError, ParseFailure};
use crate::numbers::{
    all_digits, digit_of, is_plain_number, lemma_digit_char, lemma_leading_zeros,
    lemma_numeral_reads_back, lemma_padded_digits, lemma_padded_reads_back, lemma_short_runs,
    lemma_small_numerals, lemma_two_characters, number_text, numeral, numeral_value, padded,
    parse_unsigned, unsigned_body, unsigned_value, write_number, write_padded, zeros,
};
use crate::text::{
    chars_of, followed_by, free_of, is_upper, join, join_strings, lemma_split_join, optional_text,
    push_char, same_text, split, split_on, string_of, texts, to_upper, uppercase, views,
};
use crate::util::{altitude_of, is_flight_level, parse_altitude};

verus! {

/// Whether `n`, read as four decimal digits, is a beacon code: each digit is
/// at most seven.
pub open spec fn is_squawk(n: nat) -> bool {
    n / 1000 <= 7 && (n / 100) % 10 <= 7 && (n / 10) % 10 <= 7 && n % 10 <= 7
}

/// The number whose hexadecimal digits are the four decimal digits of the
/// beacon code `n`: one digit in each group of four bits.
pub open spec fn bcd_of(n: nat) -> nat {
    (n / 1000) * 4096 + ((n / 100) % 10) * 256 + ((n / 10) % 10) * 16 + n % 10
}

/// The beacon code that the binary-coded decimal `b` stands for, where each
/// of its four groups of bits is a digit of at most seven.
pub open spec fn squawk_of_bcd(b: nat) -> Option<nat> {
    if b / 4096 <= 7 && (b / 256) % 16 <= 7 && (b / 16) % 16 <= 7 && b % 16 <= 7 {
        Some((b / 4096) * 1000 + ((b / 256) % 16) * 100 + ((b / 16) % 16) * 10 + b % 16)
    } else {
        None
    }
}

/// The beacon code that a text denotes: a decimal number of at most 16 bits
/// whose digits are all at most seven.
pub open spec fn squawk_of_text(s: Seq<char>) -> Option<nat> {
    match unsigned_value(s, false, 0xffff) {
        Some(n) => if is_squawk(n) { Some(n) } else { None },
        None => None,
    }
}

/// The beacon code that a text in binary-coded decimal denotes.
pub open spec fn squawk_of_bcd_text(s: Seq<char>) -> Option<nat> {
    match unsigned_value(s, false, 0xffff) {
        Some(b) => squawk_of_bcd(b),
        None => None,
    }
}

/// Four digits of at most seven, packed four bits each, unpack to themselves.
pub proof fn lemma_bcd_digits(d3: nat, d2: nat, d1: nat, d0: nat)
    requires
        d3 <= 7,
        d2 <= 7,
        d1 <= 7,
        d0 <= 7,
    ensures
        ({
            let b = d3 * 4096 + d2 * 256 + d1 * 16 + d0;
            b / 4096 == d3 && (b / 256) % 16 == d2 && (b / 16) % 16 == d1 && b % 16 == d0
        }),
        ({
            let n = d3 * 1000 + d2 * 100 + d1 * 10 + d0;
            n / 1000 == d3 && (n / 100) % 10 == d2 && (n / 10) % 10 == d1 && n % 10 == d0
        }),
{
    let a: u32 = d3 as u32;
    let b: u32 = d2 as u32;
    let c: u32 = d1 as u32;
    let d: u32 = d0 as u32;
    assert(a <= 7 && b <= 7 && c <= 7 && d <= 7 ==> {
        let x = (a * 4096 + b * 256 + c * 16 + d) as u32;
        x / 4096 == a && (x / 256) % 16 == b && (x / 16) % 16 == c && x % 16 == d
    }) by (bit_vector);
    assert(a <= 7 && b <= 7 && c <= 7 && d <= 7 ==> {
        let x = (a * 1000 + b * 100 + c * 10 + d) as u32;
        x / 1000 == a && (x / 100) % 10 == b && (x / 10) % 10 == c && x % 10 == d
    }) by (bit_vector);
}

/// A number below ten thousand is the sum of its four decimal digits, each
/// times its power of ten.
pub proof fn lemma_decimal_digits(n: nat)
    requires
        n < 10000,
    ensures
        n == (n / 1000) * 1000 + ((n / 100) % 10) * 100 + ((n / 10) % 10) * 10 + n % 10,
{
    let x: u32 = n as u32;
    assert(x < 10000 ==> x == (x / 1000) * 1000 + ((x / 100) % 10) * 100 + ((x / 10) % 10) * 10
        + x % 10) by (bit_vector);
}

/// A number of 16 bits is the sum of its four hexadecimal digits, each times
/// its power of sixteen.
pub proof fn lemma_hex_digits(b: nat)
    requires
        b < 65536,
    ensures
        b == (b / 4096) * 4096 + ((b / 256) % 16) * 256 + ((b / 16) % 16) * 16 + b % 16,
{
    let x: u32 = b as u32;
    assert(x < 65536 ==> x == (x / 4096) * 4096 + ((x / 256) % 16) * 256 + ((x / 16) % 16) * 16
        + x % 16) by (bit_vector);
}

/// Packing a beacon code into binary-coded decimal and unpacking it gives
/// the code back, and the other way round.
pub proof fn lemma_bcd_round_trip(n: nat)
    ensures
        is_squawk(n) ==> squawk_of_bcd(bcd_of(n)) == Some(n),
        squawk_of_bcd(n) is Some && n < 65536 ==> is_squawk(squawk_of_bcd(n)->0) && bcd_of(
            squawk_of_bcd(n)->0,
        ) == n,
{
    if is_squawk(n) {
        lemma_bcd_digits(n / 1000, (n / 100) % 10, (n / 10) % 10, n % 10);
        lemma_decimal_digits(n);
    }
    if squawk_of_bcd(n) is Some && n < 65536 {
        lemma_bcd_digits(n / 4096, (n / 256) % 16, (n / 16) % 16, n % 16);
        lemma_hex_digits(n);
    }
}

/// A transponder (beacon) code: four digits, each between 0 and 7.
#[derive(Debug, Clone, Copy, PartialEq, Eq, Structural)]
pub struct TransponderCode(u16);

impl TransponderCode {
    /// The code as a number: its four digits read in decimal.
    pub closed spec fn value(&self) -> nat {
        self.0 as nat
    }

    /// Every code is made of four digits of at most seven.
    #[verifier::type_invariant]
    pub closed spec fn well_formed(&self) -> bool {
        is_squawk(self.0 as nat)
    }

    /// The code with the digits of `code`, or a failure that carries the
    /// four-digit numeral of `code` where a digit is above seven.
    pub fn try_from(code: u16) -> (r: Result<TransponderCode, FsdMessageParseError>)
        ensures
            match r {
                Ok(c) => is_squawk(code as nat) && c.value() == code,
                Err(e) => !is_squawk(code as nat) && e@ == ParseFailure::InvalidTransponderCode(
                    padded(code as nat, false, 4),
                ),
            },
    {
        if code / 1000 > 7 || (code / 100) % 10 > 7 || (code / 10) % 10 > 7 || code % 10 > 7 {
            let mut text = String::new();
            write_padded(&mut text, code as u64, false, 4);
            assert(text@ =~= padded(code as nat, false, 4));
            Err(FsdMessageParseError::InvalidTransponderCode(text))
        } else {
            Ok(TransponderCode(code))
        }
    }

    /// Reads a code from its decimal text.
    pub fn from_str(s: &str) -> (r: Result<TransponderCode, FsdMessageParseError>)
        ensures
            match r {
                Ok(c) => squawk_of_text(s@) == Some(c.value()),
                Err(e) => squawk_of_text(s@) is None && e@
                    == ParseFailure::InvalidTransponderCode(s@),
            },
    {
        match parse_unsigned(s, false, 0xffff) {
            Some(n) => {
                let code = n as u16;
                if code / 1000 > 7 || (code / 100) % 10 > 7 || (code / 10) % 10 > 7 || code % 10
                    > 7 {
                    Err(FsdMessageParseError::InvalidTransponderCode(s.to_owned()))
                } else {
                    Ok(TransponderCode(code))
                }
            },
            None => Err(FsdMessageParseError::InvalidTransponderCode(s.to_owned())),
        }
    }

    /// The code as four decimal digits.
    pub fn to_string(&self) -> (r: String)
        ensures
            r@ == padded(self.value(), false, 4),
            is_squawk(self.value()),
    {
        proof {
            use_type_invariant(self);
        }
        let mut r = String::new();
        write_padded(&mut r, self.0 as u64, false, 4);
        assert(r@ =~= padded(self.value(), false, 4));
        r
    }

    /// The code in binary-coded decimal: one digit in each group of four bits.
    pub fn as_bcd_format(&self) -> (r: u16)
        ensures
            r == bcd_of(self.value()),
            is_squawk(self.value()),
            squawk_of_bcd(r as nat) == Some(self.value()),
    {
        proof {
            use_type_invariant(self);
            lemma_bcd_round_trip(self.0 as nat);
        }
        let d3: u16 = self.0 / 1000;
        let d2: u16 = (self.0 / 100) % 10;
        let d1: u16 = (self.0 / 10) % 10;
        let d0: u16 = self.0 % 10;
        d3 * 4096 + d2 * 256 + d1 * 16 + d0
    }

    /// Reads a code from the decimal text of its binary-coded decimal form.
    pub fn try_from_bcd_format(s: &str) -> (r: Result<TransponderCode, FsdMessageParseError>)
        ensures
            match r {
                Ok(c) => squawk_of_bcd_text(s@) == Some(c.value()),
                Err(e) => squawk_of_bcd_text(s@) is None && e@
                    == ParseFailure::InvalidTransponderCode(s@),
            },
    {
        match parse_unsigned(s, false, 0xffff) {
            Some(n) => {
                let b = n as u16;
                let d3: u16 = b / 4096;
                let d2: u16 = (b / 256) % 16;
                let d1: u16 = (b / 16) % 16;
                let d0: u16 = b % 16;
                if d3 > 7 || d2 > 7 || d1 > 7 || d0 > 7 {
                    Err(FsdMessageParseError::InvalidTransponderCode(s.to_owned()))
                } else {
                    proof {
                        lemma_bcd_round_trip(b as nat);
                    }
                    Ok(TransponderCode(d3 * 1000 + d2 * 100 + d1 * 10 + d0))
                }
            },
            None => Err(FsdMessageParseError::InvalidTransponderCode(s.to_owned())),
        }
    }
}

/// Every text of four digits, each at most seven, is read as a beacon code,
/// and that code is written as the same four digits.
pub proof fn law_squawk_text_round_trip(s: Seq<char>)
    requires
        s.len() == 4,
        forall|i: int| 0 <= i < 4 ==> '0' <= #[trigger] s[i] <= '7',
    ensures
        squawk_of_text(s) is Some,
        padded(squawk_of_text(s)->0, false, 4) == s,
{
    assert forall|i: int| 0 <= i < s.len() implies (#[trigger] digit_of(s[i], false)) is Some by {
        assert('0' <= s[i] <= '7');
    }
    assert(unsigned_body(s) == s);
    lemma_short_runs(s);
    let d3 = digit_of(s[0], false)->0;
    let d2 = digit_of(s[1], false)->0;
    let d1 = digit_of(s[2], false)->0;
    let d0 = digit_of(s[3], false)->0;
    assert('0' <= s[0] <= '7' && '0' <= s[1] <= '7' && '0' <= s[2] <= '7' && '0' <= s[3] <= '7');
    lemma_bcd_digits(d3, d2, d1, d0);
    let n = numeral_value(s, false);
    lemma_padded_digits(n);
    lemma_digit_char(s[0]);
    lemma_digit_char(s[1]);
    lemma_digit_char(s[2]);
    lemma_digit_char(s[3]);
    assert(padded(n, false, 4) =~= s);
}

/// What a run of digits with an eight or a nine in it denotes is no beacon
/// code.
pub proof fn lemma_high_digit_is_no_squawk(s: Seq<char>, i: int)
    requires
        all_digits(s, false),
        0 <= i < s.len(),
        s[i] == '8' || s[i] == '9',
    ensures
        !is_squawk(numeral_value(s, false)),
    decreases s.len(),
{
    let front = s.drop_last();
    let d = digit_of(s.last(), false);
    assert(d is Some);
    if i == s.len() - 1 {
        assert(d->0 >= 8);
    } else {
        assert forall|k: int| 0 <= k < front.len() implies (#[trigger] digit_of(front[k], false))
            is Some by {
            assert(front[k] == s[k]);
        }
        assert(front[i] == s[i]);
        lemma_high_digit_is_no_squawk(front, i);
        let m = numeral_value(front, false);
        let n = numeral_value(s, false);
        assert(n == m * 10 + d->0);
        assert(d->0 <= 9);
        if is_squawk(n) {
            assert(n / 10 == m);
            assert(m % 10 == (n / 10) % 10);
            assert((m / 10) % 10 == (n / 100) % 10);
            assert((m / 100) % 10 == (n / 1000) % 10);
            assert(m / 1000 == 0);
            assert(is_squawk(m));
        }
    }
}

/// No text with an eight or a nine in it is read as a beacon code.
pub proof fn law_squawk_rejects_high_digits(s: Seq<char>, i: int)
    requires
        0 <= i < s.len(),
        s[i] == '8' || s[i] == '9',
    ensures
        squawk_of_text(s) is None,
{
    let body = unsigned_body(s);
    if body.len() > 0 && all_digits(body, false) {
        if body.len() == s.len() {
            lemma_high_digit_is_no_squawk(body, i);
        } else {
            assert(body[i - 1] == s[i]);
            lemma_high_digit_is_no_squawk(body, i - 1);
        }
    }
}

/// Whether the whole and the thousandths part make a frequency that can be
/// carried: a whole part in the civil airband, or one of the two channels
/// kept for data.
pub open spec fn is_frequency(left: nat, right: nat) -> bool {
    118 <= left <= 137 || (left == 199 && right == 998) || (left == 149 && right == 999)
}

/// The dotted text of a frequency, as in `118.300`.
pub open spec fn dotted(left: nat, right: nat) -> Seq<char> {
    numeral(left, false).push('.') + padded(right, false, 3)
}

/// The compact text of a frequency, as in `18300`: the whole part less a
/// hundred, then the thousandths.
pub open spec fn compact(left: nat, right: nat) -> Seq<char> {
    numeral((left - 100) as nat, false) + padded(right, false, 3)
}

/// The frequency that a dotted text denotes: the first two pieces between
/// its dots, each a number of 16 bits.
pub open spec fn frequency_of_dotted(s: Seq<char>) -> Option<(nat, nat)> {
    let pieces = split(s, '.', '.');
    if pieces.len() >= 2 {
        match (
            unsigned_value(pieces[0], false, 0xffff),
            unsigned_value(pieces[1], false, 0xffff),
        ) {
            (Some(left), Some(right)) => if is_frequency(left, right) {
                Some((left, right))
            } else {
                None
            },
            _ => None,
        }
    } else {
        None
    }
}

/// The frequency that a compact text denotes: five characters, two for the
/// whole part less a hundred and three for the thousandths.
pub open spec fn frequency_of_compact(s: Seq<char>) -> Option<(nat, nat)> {
    if s.len() == 5 {
        match (
            unsigned_value(s.subrange(0, 2), false, 0xffff),
            unsigned_value(s.subrange(2, 5), false, 0xffff),
        ) {
            (Some(left), Some(right)) => if is_frequency(left + 100, right) {
                Some((left + 100, right))
            } else {
                None
            },
            _ => None,
        }
    } else {
        None
    }
}

/// A VHF airband radio frequency from 118.000 MHz to 137.999 MHz, or one of
/// the two channels kept for data, 199.998 and 149.999.
///
/// It holds the part before the decimal point and the part after it:
/// 118.3 MHz is the pair 118 and 300.
#[derive(Debug, Clone, Copy, PartialEq, Eq, Structural)]
pub struct RadioFrequency(pub(crate) u16, pub(crate) u16);

impl RadioFrequency {
    /// The whole-MHz part.
    pub closed spec fn left(&self) -> nat {
        self.0 as nat
    }

    /// The thousandths part.
    pub closed spec fn right(&self) -> nat {
        self.1 as nat
    }

    /// Every frequency lies in the airband or is one of the two data
    /// channels.
    #[verifier::type_invariant]
    pub closed spec fn well_formed(&self) -> bool {
        is_frequency(self.0 as nat, self.1 as nat)
    }

    /// The frequency of the two parts, or a failure that carries their
    /// dotted text.
    pub fn new(left: u16, right: u16) -> (r: Result<RadioFrequency, FsdMessageParseError>)
        ensures
            match r {
                Ok(f) => is_frequency(left as nat, right as nat) && f.left() == left && f.right()
                    == right,
                Err(e) => !is_frequency(left as nat, right as nat) && e@
                    == ParseFailure::InvalidFrequency(dotted(left as nat, right as nat)),
            },
    {
        if !((118 <= left && left <= 137) || (left == 199 && right == 998) || (left == 149
            && right == 999)) {
            let mut text = String::new();
            write_number(&mut text, left as u64);
            push_char(&mut text, '.');
            write_padded(&mut text, right as u64, false, 3);
            assert(text@ =~= dotted(left as nat, right as nat));
            return Err(FsdMessageParseError::InvalidFrequency(text));
        }
        Ok(RadioFrequency(left, right))
    }

    /// The frequency on which controllers exchange text.
    pub fn atc_text_channel() -> (f: RadioFrequency)
        ensures
            f.left() == 149,
            f.right() == 999,
    {
        RadioFrequency(149, 999)
    }

    /// The two parts of the frequency.
    pub fn frequency(&self) -> (r: (u16, u16))
        ensures
            r.0 == self.left(),
            r.1 == self.right(),
            is_frequency(self.left(), self.right()),
    {
        proof {
            use_type_invariant(self);
        }
        (self.0, self.1)
    }

    /// The frequency in the form XXX.YYY.
    pub fn to_human_readable_string(&self) -> (r: String)
        ensures
            r@ == dotted(self.left(), self.right()),
    {
        let mut r = String::new();
        write_number(&mut r, self.0 as u64);
        push_char(&mut r, '.');
        write_padded(&mut r, self.1 as u64, false, 3);
        assert(r@ =~= dotted(self.left(), self.right()));
        r
    }

    /// Reads a frequency from the form XXX.YYY.
    pub fn try_from_human_readable_string(input: &str) -> (r: Result<
        RadioFrequency,
        FsdMessageParseError,
    >)
        ensures
            match r {
                Ok(f) => frequency_of_dotted(input@) == Some((f.left(), f.right())),
                Err(e) => frequency_of_dotted(input@) is None && e@
                    == ParseFailure::InvalidFrequency(input@),
            },
    {
        let pieces = split_on(input, '.', '.');
        if pieces.len() < 2 {
            return Err(FsdMessageParseError::InvalidFrequency(input.to_owned()));
        }
        let left = parse_unsigned(pieces[0].as_str(), false, 0xffff);
        let right = parse_unsigned(pieces[1].as_str(), false, 0xffff);
        match (left, right) {
            (Some(left), Some(right)) => {
                let left = left as u16;
                let right = right as u16;
                if (118 <= left && left <= 137) || (left == 199 && right == 998) || (left == 149
                    && right == 999) {
                    Ok(RadioFrequency(left, right))
                } else {
                    Err(FsdMessageParseError::InvalidFrequency(input.to_owned()))
                }
            },
            _ => Err(FsdMessageParseError::InvalidFrequency(input.to_owned())),
        }
    }

    /// Reads a frequency from its compact form of five characters.
    pub fn from_str(short_form: &str) -> (r: Result<RadioFrequency, FsdMessageParseError>)
        ensures
            match r {
                Ok(f) => frequency_of_compact(short_form@) == Some((f.left(), f.right())),
                Err(e) => frequency_of_compact(short_form@) is None && e@
                    == ParseFailure::InvalidFrequency(short_form@),
            },
    {
        let v = chars_of(short_form);
        if v.len() != 5 {
            return Err(FsdMessageParseError::InvalidFrequency(short_form.to_owned()));
        }
        let head = string_of(&v, 0, 2);
        let tail = string_of(&v, 2, 5);
        let left = parse_unsigned(head.as_str(), false, 0xffff);
        let right = parse_unsigned(tail.as_str(), false, 0xffff);
        match (left, right) {
            (Some(left), Some(right)) => {
                proof {
                    lemma_two_characters(head@);
                }
                let left = left as u16 + 100;
                let right = right as u16;
                if (118 <= left && left <= 137) || (left == 199 && right == 998) || (left == 149
                    && right == 999) {
                    Ok(RadioFrequency(left, right))
                } else {
                    Err(FsdMessageParseError::InvalidFrequency(short_form.to_owned()))
                }
            },
            _ => Err(FsdMessageParseError::InvalidFrequency(short_form.to_owned())),
        }
    }

    /// The frequency in its compact form: the whole part less a hundred, then
    /// the thousandths in three digits.
    pub fn to_string(&self) -> (r: String)
        ensures
            r@ == compact(self.left(), self.right()),
            is_frequency(self.left(), self.right()),
    {
        proof {
            use_type_invariant(self);
        }
        let mut r = String::new();
        write_number(&mut r, (self.0 - 100) as u64);
        write_padded(&mut r, self.1 as u64, false, 3);
        assert(r@ =~= compact(self.left(), self.right()));
        r
    }
}

/// A run of digits holds no character but digits: no dot among them.
pub proof fn lemma_digits_hold_no(s: Seq<char>, c: char)
    requires
        all_digits(s, false),
        digit_of(c, false) is None,
    ensures
        free_of(s, c, c),
{
    assert forall|i: int| 0 <= i < s.len() implies #[trigger] s[i] != c by {
        assert(digit_of(s[i], false) is Some);
    }
}

/// The dotted text of a frequency is read as that frequency.
pub proof fn lemma_dotted_reads_back(left: nat, right: nat)
    requires
        is_frequency(left, right),
        left <= 0xffff,
        right <= 0xffff,
    ensures
        frequency_of_dotted(dotted(left, right)) == Some((left, right)),
{
    let whole = numeral(left, false);
    let part = padded(right, false, 3);
    lemma_padded_reads_back(left, false, 0, 0xffff);
    lemma_padded_reads_back(right, false, 3, 0xffff);
    lemma_numeral_reads_back(left, false);
    lemma_numeral_reads_back(right, false);
    if numeral(right, false).len() < 3 {
        lemma_leading_zeros(
            (3 - numeral(right, false).len()) as nat,
            numeral(right, false),
            false,
        );
    }
    lemma_digits_hold_no(whole, '.');
    lemma_digits_hold_no(part, '.');
    let parts = seq![whole, part];
    assert(parts.drop_last() =~= seq![whole]);
    assert(join(parts.drop_last(), '.') == whole);
    assert(join(parts, '.') == join(parts.drop_last(), '.').push('.') + parts.last());
    assert(join(parts, '.') == dotted(left, right));
    lemma_split_join(parts, '.');
}

/// The compact text of a frequency whose thousandths are below a thousand
/// is read as that frequency.
pub proof fn lemma_compact_reads_back(left: nat, right: nat)
    requires
        is_frequency(left, right),
        right <= 999,
    ensures
        frequency_of_compact(compact(left, right)) == Some((left, right)),
{
    let part = padded(right, false, 3);
    let less = (left - 100) as nat;
    lemma_padded_reads_back(right, false, 3, 0xffff);
    lemma_small_numerals(less);
    lemma_padded_digits(right);
    lemma_padded_reads_back(less, false, 0, 0xffff);
    let c = compact(left, right);
    assert(numeral(less, false).len() == 2);
    assert(part.len() == 3);
    assert(c.len() == 5);
    assert(c.subrange(0, 2) =~= numeral(less, false));
    assert(c.subrange(2, 5) =~= part);
}

/// Both texts of a frequency are read as that frequency: the dotted one
/// always, the compact one where the thousandths are below a thousand.
pub proof fn law_frequency_texts_agree(left: nat, right: nat)
    requires
        is_frequency(left, right),
        left <= 0xffff,
        right <= 0xffff,
    ensures
        frequency_of_dotted(dotted(left, right)) == Some((left, right)),
        right <= 999 ==> frequency_of_compact(compact(left, right)) == Some((left, right)),
{
    lemma_dotted_reads_back(left, right);
    if right <= 999 {
        lemma_compact_reads_back(left, right);
    }
}

/// The value that a list of `KEY=value` entries gives to `key`: that of the
/// last entry whose key, in upper case, is `key`.
pub open spec fn entry_value(entries: Seq<Seq<char>>, key: Seq<char>) -> Option<Seq<char>>
    decreases entries.len(),
{
    if entries.len() == 0 {
        None
    } else {
        let pieces = split(entries.last(), '=', '=');
        if pieces.len() >= 2 && uppercase(pieces[0]) == key {
            Some(pieces[1])
        } else {
            entry_value(entries.drop_last(), key)
        }
    }
}

/// What a pilot client tells of its aircraft: type, airline and livery, each
/// of which may be left out.
#[derive(Debug, Clone)]
pub struct PlaneInfo {
    pub equipment: Option<String>,
    pub airline: Option<String>,
    pub livery: Option<String>,
}

/// The entries that are written for a type, an airline and a livery, each
/// only where it is given, in this order.
pub open spec fn plane_entries(
    equipment: Option<Seq<char>>,
    airline: Option<Seq<char>>,
    livery: Option<Seq<char>>,
) -> Seq<Seq<char>> {
    (match equipment {
        Some(text) => seq!["EQUIPMENT="@ + text],
        None => Seq::empty(),
    }) + (match airline {
        Some(text) => seq!["AIRLINE="@ + text],
        None => Seq::empty(),
    }) + (match livery {
        Some(text) => seq!["LIVERY="@ + text],
        None => Seq::empty(),
    })
}

impl PlaneInfo {
    /// The entries that are written for the plane information, in order.
    pub open spec fn entries(&self) -> Seq<Seq<char>> {
        plane_entries(
            optional_text(self.equipment),
            optional_text(self.airline),
            optional_text(self.livery),
        )
    }

    /// The text that is written for the plane information.
    pub open spec fn wire(&self) -> Seq<char> {
        join(self.entries(), ':')
    }

    /// Plane information of the given parts.
    pub fn new(equipment: Option<String>, airline: Option<String>, livery: Option<String>) -> (r:
        PlaneInfo)
        ensures
            r.equipment == equipment,
            r.airline == airline,
            r.livery == livery,
    {
        PlaneInfo { equipment, airline, livery }
    }

    /// The plane information with `value` under `key`, which is taken as it
    /// is: `EQUIPMENT`, `AIRLINE` or `LIVERY`. Any other key changes nothing.
    pub fn with_entry(self, key: &str, value: &str) -> (r: PlaneInfo)
        ensures
            optional_text(r.equipment) == if key@ == "EQUIPMENT"@ {
                Some(value@)
            } else {
                optional_text(self.equipment)
            },
            optional_text(r.airline) == if key@ == "AIRLINE"@ {
                Some(value@)
            } else {
                optional_text(self.airline)
            },
            optional_text(r.livery) == if key@ == "LIVERY"@ {
                Some(value@)
            } else {
                optional_text(self.livery)
            },
    {
        let mut r = self;
        if same_text(key, "EQUIPMENT") {
            r.equipment = Some(value.to_owned());
        }
        if same_text(key, "AIRLINE") {
            r.airline = Some(value.to_owned());
        }
        if same_text(key, "LIVERY") {
            r.livery = Some(value.to_owned());
        }
        r
    }

    /// Reads plane information from a list of `KEY=value` entries. Keys are
    /// taken in either case; entries with another key, or with no `=`, are
    /// passed over; of two entries with one key the later decides.
    pub fn from(value: &[&str]) -> (r: PlaneInfo)
        ensures
            optional_text(r.equipment) == entry_value(texts(value@), "EQUIPMENT"@),
            optional_text(r.airline) == entry_value(texts(value@), "AIRLINE"@),
            optional_text(r.livery) == entry_value(texts(value@), "LIVERY"@),
    {
        let ghost entries = texts(value@);
        let mut r = PlaneInfo { equipment: None, airline: None, livery: None };
        let mut i: usize = 0;
        assert(entries.subrange(0, 0) =~= Seq::<Seq<char>>::empty());
        while i < value.len()
            invariant
                i <= value.len(),
                entries == texts(value@),
                optional_text(r.equipment) == entry_value(
                    entries.subrange(0, i as int),
                    "EQUIPMENT"@,
                ),
                optional_text(r.airline) == entry_value(entries.subrange(0, i as int), "AIRLINE"@),
                optional_text(r.livery) == entry_value(entries.subrange(0, i as int), "LIVERY"@),
            decreases value.len() - i,
        {
            proof {
                assert(entries.subrange(0, i + 1).drop_last() =~= entries.subrange(0, i as int));
                assert(entries.subrange(0, i + 1).last() == value@[i as int]@);
            }
            let pieces = split_on(value[i], '=', '=');
            if pieces.len() >= 2 {
                r = r.with_entry(to_upper(pieces[0].as_str()).as_str(), pieces[1].as_str());
            }
            i += 1;
        }
        assert(entries.subrange(0, i as int) =~= entries);
        r
    }

    /// The text that is written for the plane information.
    pub fn to_string(&self) -> (r: String)
        ensures
            r@ == self.wire(),
    {
        let mut parts: Vec<String> = Vec::new();
        match &self.equipment {
            Some(equipment) => {
                parts.push(followed_by("EQUIPMENT=", equipment.as_str()));
            },
            None => {},
        }
        match &self.airline {
            Some(airline) => {
                parts.push(followed_by("AIRLINE=", airline.as_str()));
            },
            None => {},
        }
        match &self.livery {
            Some(livery) => {
                parts.push(followed_by("LIVERY=", livery.as_str()));
            },
            None => {},
        }
        let r = join_strings(&parts, 0, ':');
        proof {
            assert(views(parts@) =~= self.entries());
            assert(views(parts@).subrange(0, parts.len() as int) =~= views(parts@));
        }
        r
    }
}

/// The number in a field that may be left empty: nothing for the empty
/// text, else the number of at most `max` that the text denotes.
pub open spec fn optional_number(s: Seq<char>, max: nat) -> Option<nat> {
    if s.len() == 0 {
        Some(0)
    } else {
        unsigned_value(s, false, max)
    }
}

/// Reads the number in a field that may be left empty.
pub fn read_optional_number(s: &str, max: u64) -> (r: Option<u64>)
    ensures
        r is Some <==> optional_number(s@, max as nat) is Some,
        r is Some ==> r->0 as nat == optional_number(s@, max as nat)->0,
{
    if s.is_empty() {
        Some(0)
    } else {
        parse_unsigned(s, false, max)
    }
}

/// A plain number is not empty and begins with a digit, so it is read as
/// feet and not as a flight level.
pub proof fn lemma_plain_number_is_no_flight_level(s: Seq<char>, max: nat)
    requires
        is_plain_number(s, false, max),
    ensures
        s.len() > 0,
        !is_flight_level(s),
        optional_number(s, max) == unsigned_value(s, false, max),
        altitude_of(s) == unsigned_value(s, false, 0xffff_ffff),
{
    let n = unsigned_value(s, false, max)->0;
    lemma_numeral_reads_back(n, false);
    assert(digit_of(s[0], false) is Some);
}

/// A filed flight plan.
#[derive(Debug, Clone)]
pub struct FlightPlan {
    pub flight_rules: FlightRules,
    pub ac_type: String,
    pub filed_tas: u16,
    pub origin: String,
    pub etd: u16,
    pub atd: u16,
    pub cruise_level: u32,
    pub destination: String,
    pub hours_enroute: u8,
    pub mins_enroute: u8,
    pub hours_fuel: u8,
    pub mins_fuel: u8,
    pub alternate: String,
    pub remarks: String,
    pub route: String,
}

impl FlightPlan {
    /// The fifteen fields that are written for the flight plan, in order.
    pub open spec fn fields(&self) -> Seq<Seq<char>> {
        seq![
            self.flight_rules.text(),
            self.ac_type@,
            numeral(self.filed_tas as nat, false),
            self.origin@,
            numeral(self.etd as nat, false),
            numeral(self.atd as nat, false),
            numeral(self.cruise_level as nat, false),
            self.destination@,
            numeral(self.hours_enroute as nat, false),
            numeral(self.mins_enroute as nat, false),
            numeral(self.hours_fuel as nat, false),
            numeral(self.mins_fuel as nat, false),
            self.alternate@,
            self.remarks@,
            self.route@,
        ]
    }

    /// The text that is written for the flight plan.
    pub open spec fn wire(&self) -> Seq<char> {
        join(self.fields(), ':')
    }

    /// Why a list of fields is refused as a flight plan, or `None` where it
    /// is accepted. The count is tested first, then speed, the two times of
    /// departure, the hours en route and of fuel, the minutes en route and of
    /// fuel, the flight rules and the cruise level, and the first that fails
    /// decides.
    pub open spec fn rejection(f: Seq<Seq<char>>) -> Option<ParseFailure> {
        if f.len() != 15 {
            Some(ParseFailure::InvalidFieldCount(15, f.len()))
        } else if optional_number(f[2], 0xffff) is None {
            Some(ParseFailure::InvalidSpeed(f[2]))
        } else if optional_number(f[4], 0xffff) is None {
            Some(ParseFailure::InvalidTime(f[4]))
        } else if optional_number(f[5], 0xffff) is None {
            Some(ParseFailure::InvalidTime(f[5]))
        } else if optional_number(f[8], 0xff) is None {
            Some(ParseFailure::InvalidTime(f[8]))
        } else if optional_number(f[10], 0xff) is None {
            Some(ParseFailure::InvalidTime(f[10]))
        } else if optional_number(f[9], 0xff) is None {
            Some(ParseFailure::InvalidTime(f[9]))
        } else if optional_number(f[9], 0xff)->0 > 59 {
            Some(ParseFailure::InvalidMinute(f[9]))
        } else if optional_number(f[11], 0xff) is None {
            Some(ParseFailure::InvalidTime(f[11]))
        } else if optional_number(f[11], 0xff)->0 > 59 {
            Some(ParseFailure::InvalidMinute(f[11]))
        } else if FlightRules::of_text(uppercase(f[0])) is None {
            Some(ParseFailure::InvalidFlightRules(f[0]))
        } else if altitude_of(f[6]) is None {
            Some(ParseFailure::InvalidAltitude(f[6]))
        } else {
            None
        }
    }

    /// Whether an accepted list of fields is read as the flight plan `p`.
    pub open spec fn decodes(f: Seq<Seq<char>>, p: FlightPlan) -> bool {
        &&& f.len() == 15
        &&& FlightRules::of_text(uppercase(f[0])) == Some(p.flight_rules)
        &&& p.ac_type@ == uppercase(f[1])
        &&& optional_number(f[2], 0xffff) == Some(p.filed_tas as nat)
        &&& p.origin@ == uppercase(f[3])
        &&& optional_number(f[4], 0xffff) == Some(p.etd as nat)
        &&& optional_number(f[5], 0xffff) == Some(p.atd as nat)
        &&& altitude_of(f[6]) == Some(p.cruise_level as nat)
        &&& p.destination@ == uppercase(f[7])
        &&& optional_number(f[8], 0xff) == Some(p.hours_enroute as nat)
        &&& optional_number(f[9], 0xff) == Some(p.mins_enroute as nat)
        &&& optional_number(f[10], 0xff) == Some(p.hours_fuel as nat)
        &&& optional_number(f[11], 0xff) == Some(p.mins_fuel as nat)
        &&& p.mins_enroute <= 59
        &&& p.mins_fuel <= 59
        &&& p.alternate@ == uppercase(f[12])
        &&& p.remarks@ == f[13]
        &&& p.route@ == uppercase(f[14])
    }

    /// Whether a list of fields is written as the flight plan writes it:
    /// the rules as one capital letter, aircraft type, airports and route in
    /// upper case, and every number, none left empty, without sign, needless
    /// zeros or flight-level mark.
    pub open spec fn canonical(f: Seq<Seq<char>>) -> bool {
        &&& f.len() == 15
        &&& FlightRules::of_text(uppercase(f[0])) is Some ==> FlightRules::of_text(
            uppercase(f[0]),
        )->0.text() == f[0]
        &&& is_upper(f[1])
        &&& is_plain_number(f[2], false, 0xffff)
        &&& is_upper(f[3])
        &&& is_plain_number(f[4], false, 0xffff)
        &&& is_plain_number(f[5], false, 0xffff)
        &&& is_plain_number(f[6], false, 0xffff_ffff)
        &&& is_upper(f[7])
        &&& is_plain_number(f[8], false, 0xff)
        &&& is_plain_number(f[9], false, 0xff)
        &&& is_plain_number(f[10], false, 0xff)
        &&& is_plain_number(f[11], false, 0xff)
        &&& is_upper(f[12])
        &&& is_upper(f[14])
    }

    /// Fields in the form in which the flight plan is written are read as a
    /// flight plan that is written as those very fields.
    pub proof fn law_round_trip(f: Seq<Seq<char>>, p: FlightPlan)
        requires
            FlightPlan::canonical(f),
            FlightPlan::decodes(f, p),
        ensures
            p.fields() == f,
            p.wire() == join(f, ':'),
    {
        lemma_plain_number_is_no_flight_level(f[2], 0xffff);
        lemma_plain_number_is_no_flight_level(f[4], 0xffff);
        lemma_plain_number_is_no_flight_level(f[5], 0xffff);
        lemma_plain_number_is_no_flight_level(f[6], 0xffff_ffff);
        lemma_plain_number_is_no_flight_level(f[8], 0xff);
        lemma_plain_number_is_no_flight_level(f[9], 0xff);
        lemma_plain_number_is_no_flight_level(f[10], 0xff);
        lemma_plain_number_is_no_flight_level(f[11], 0xff);
        assert(p.fields() =~= f);
    }

    /// A flight plan of the given parts. Aircraft type, airports and route
    /// are put in upper case; the remarks are kept as they are.
    pub fn new(
        flight_rules: FlightRules,
        ac_type: &str,
        filed_tas: u16,
        origin: &str,
        etd: u16,
        atd: u16,
        cruise_level: u32,
        destination: &str,
        hours_enroute: u8,
        mins_enroute: u8,
        hours_fuel: u8,
        mins_fuel: u8,
        alternate: &str,
        remarks: &str,
        route: &str,
    ) -> (p: FlightPlan)
        ensures
            p.flight_rules == flight_rules,
            p.ac_type@ == uppercase(ac_type@),
            p.filed_tas == filed_tas,
            p.origin@ == uppercase(origin@),
            p.etd == etd,
            p.atd == atd,
            p.cruise_level == cruise_level,
            p.destination@ == uppercase(destination@),
            p.hours_enroute == hours_enroute,
            p.mins_enroute == mins_enroute,
            p.hours_fuel == hours_fuel,
            p.mins_fuel == mins_fuel,
            p.alternate@ == uppercase(alternate@),
            p.remarks@ == remarks@,
            p.route@ == uppercase(route@),
    {
        FlightPlan {
            flight_rules,
            ac_type: to_upper(ac_type),
            filed_tas,
            origin: to_upper(origin),
            etd,
            atd,
            cruise_level,
            destination: to_upper(destination),
            hours_enroute,
            mins_enroute,
            hours_fuel,
            mins_fuel,
            alternate: to_upper(alternate),
            remarks: remarks.to_owned(),
            route: to_upper(route),
        }
    }

    /// Reads a flight plan from its fifteen fields.
    #[verifier::rlimit(40)]
    pub fn try_from(fields: &[&str]) -> (r: Result<FlightPlan, FsdMessageParseError>)
        ensures
            match r {
                Ok(p) => FlightPlan::rejection(texts(fields@)) is None && FlightPlan::decodes(
                    texts(fields@),
                    p,
                ),
                Err(e) => FlightPlan::rejection(texts(fields@)) == Some(e@),
            },
    {
        let ghost f = texts(fields@);
        if fields.len() != 15 {
            return Err(FsdMessageParseError::InvalidFieldCount(15, fields.len()));
        }
        assert(forall|i: int| 0 <= i < 15 ==> f[i] == (#[trigger] fields@[i])@);
        let filed_tas = match read_optional_number(fields[2], 0xffff) {
            Some(n) => n as u16,
            None => { return Err(FsdMessageParseError::InvalidSpeed(fields[2].to_owned())); },
        };
        let etd = match read_optional_number(fields[4], 0xffff) {
            Some(n) => n as u16,
            None => { return Err(FsdMessageParseError::InvalidTime(fields[4].to_owned())); },
        };
        let atd = match read_optional_number(fields[5], 0xffff) {
            Some(n) => n as u16,
            None => { return Err(FsdMessageParseError::InvalidTime(fields[5].to_owned())); },
        };
        let hours_enroute = match read_optional_number(fields[8], 0xff) {
            Some(n) => n as u8,
            None => { return Err(FsdMessageParseError::InvalidTime(fields[8].to_owned())); },
        };
        let hours_fuel = match read_optional_number(fields[10], 0xff) {
            Some(n) => n as u8,
            None => { return Err(FsdMessageParseError::InvalidTime(fields[10].to_owned())); },
        };
        let mins_enroute = match read_optional_number(fields[9], 0xff) {
            Some(n) => n as u8,
            None => { return Err(FsdMessageParseError::InvalidTime(fields[9].to_owned())); },
        };
        if mins_enroute > 59 {
            return Err(FsdMessageParseError::InvalidMinute(fields[9].to_owned()));
        }
        let mins_fuel = match read_optional_number(fields[11], 0xff) {
            Some(n) => n as u8,
            None => { return Err(FsdMessageParseError::InvalidTime(fields[11].to_owned())); },
        };
        if mins_fuel > 59 {
            return Err(FsdMessageParseError::InvalidMinute(fields[11].to_owned()));
        }
        let flight_rules = match FlightRules::from_str(fields[0]) {
            Ok(rules) => rules,
            Err(e) => { return Err(e); },
        };
        let cruise_level = match parse_altitude(fields[6]) {
            Ok(feet) => feet,
            Err(e) => { return Err(e); },
        };
        Ok(
            FlightPlan::new(
                flight_rules,
                fields[1],
                filed_tas,
                fields[3],
                etd,
                atd,
                cruise_level,
                fields[7],
                hours_enroute,
                mins_enroute,
                hours_fuel,
                mins_fuel,
                fields[12],
                fields[13],
                fields[14],
            ),
        )
    }

    /// The text that is written for the flight plan: its fifteen fields with
    /// colons between them.
    pub fn to_string(&self) -> (r: String)
        ensures
            r@ == self.wire(),
    {
        let mut parts: Vec<String> = Vec::new();
        parts.push(self.flight_rules.to_string());
        parts.push(self.ac_type.clone());
        parts.push(number_text(self.filed_tas as u64));
        parts.push(self.origin.clone());
        parts.push(number_text(self.etd as u64));
        parts.push(number_text(self.atd as u64));
        parts.push(number_text(self.cruise_level as u64));
        parts.push(self.destination.clone());
        parts.push(number_text(self.hours_enroute as u64));
        parts.push(number_text(self.mins_enroute as u64));
        parts.push(number_text(self.hours_fuel as u64));
        parts.push(number_text(self.mins_fuel as u64));
        parts.push(self.alternate.clone());
        parts.push(self.remarks.clone());
        parts.push(self.route.clone());
        let r = join_strings(&parts, 0, ':');
        proof {
            assert(views(parts@) =~= self.fields());
            assert(views(parts@).subrange(0, parts.len() as int) =~= views(parts@));
        }
        r
    }
}

} // verus!
