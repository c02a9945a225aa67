//! Encodings that live inside single fields: packed orientation, altitudes
//! and flight levels, lists of frequencies, the new-ATIS notice and the
//! capability list.

use vstd::prelude::*;
use vstd::string::*;
use crate::enums::ClientCapability;
use crate::errors::{FsdMessageParseError, ParseFailure};
use crate::numbers::{
    all_digits, digit_of, lemma_leading_zeros, lemma_numeral_reads_back, lemma_padded_reads_back,
    numeral, padded, parse_unsigned, unsigned_value,
};
use crate::structs::{
    compact, frequency_of_compact, is_frequency, lemma_compact_reads_back, lemma_digits_hold_no,
    RadioFrequency,
};
use crate::text::{
    chars_of, free_of, join, join_from, lemma_last_separator, push_char, same_chars, same_text,
    split, split_on, string_of, texts, to_upper, uppercase, without_prefix,
};

verus! {

/// The packed orientation: ten bits of pitch, ten of bank, ten of heading,
/// one bit for being on the ground, and one bit unused, from the most
/// significant end. Each angle is taken modulo 1024.
pub open spec fn packed_orientation(pitch: u32, bank: u32, heading: u32, on_ground: bool) -> u32 {
    ((pitch & 1023) << 22) | ((bank & 1023) << 12) | ((heading & 1023) << 2) | (if on_ground {
        2u32
    } else {
        0u32
    })
}

/// Packs pitch, bank and heading, each in units of 360/1024 degrees, and the
/// on-ground flag into one number.
pub fn pack_pitch_bank_heading(pitch: u32, bank: u32, heading: u32, on_ground: bool) -> (r: u32)
    ensures
        r == packed_orientation(pitch, bank, heading, on_ground),
{
    let flag: u32 = if on_ground { 2 } else { 0 };
    ((pitch & 1023) << 22) | ((bank & 1023) << 12) | ((heading & 1023) << 2) | flag
}

/// What a packed orientation unpacks to: pitch, bank, heading, and the flag,
/// which is never read as set.
pub open spec fn unpacked_orientation(input: u32) -> (u32, u32, u32, bool) {
    (input >> 22, (input >> 12) & 1023, (input >> 2) & 1023, false)
}

/// Unpacks pitch, bank and heading, each in units of 360/1024 degrees.
///
/// The flag is read by comparing the second bit, taken in place, with one,
/// which it never equals: the flag comes back `false` whatever was packed.
pub fn unpack_pitch_bank_heading(input: u32) -> (r: (u32, u32, u32, bool))
    ensures
        r == unpacked_orientation(input),
        r.0 < 1024 && r.1 < 1024 && r.2 < 1024,
{
    let on_ground = (input & 2) == 1;
    let heading = (input >> 2) & 1023;
    let bank = (input >> 12) & 1023;
    let pitch = input >> 22;
    assert((input & 2) != 1) by (bit_vector);
    assert(input >> 22 < 1024) by (bit_vector);
    assert((input >> 12) & 1023 < 1024) by (bit_vector);
    assert((input >> 2) & 1023 < 1024) by (bit_vector);
    (pitch, bank, heading, on_ground)
}

/// Unpacking a packed orientation gives the three angles back, each modulo
/// 1024, and never the flag.
pub proof fn law_orientation_round_trip(pitch: u32, bank: u32, heading: u32, on_ground: bool)
    ensures
        packed_orientation(pitch, bank, heading, on_ground) >> 22 == pitch & 1023,
        (packed_orientation(pitch, bank, heading, on_ground) >> 12) & 1023 == bank & 1023,
        (packed_orientation(pitch, bank, heading, on_ground) >> 2) & 1023 == heading & 1023,
        pitch < 1024 ==> pitch & 1023 == pitch,
        bank < 1024 ==> bank & 1023 == bank,
        heading < 1024 ==> heading & 1023 == heading,
        (packed_orientation(pitch, bank, heading, on_ground) & 2 == 2) == on_ground,
{
    let flag: u32 = if on_ground { 2 } else { 0 };
    assert(flag == 0 || flag == 2);
    assert(flag == 0 || flag == 2 ==> ((((pitch & 1023) << 22) | ((bank & 1023) << 12) | ((heading
        & 1023) << 2) | flag) >> 22) == pitch & 1023) by (bit_vector);
    assert(flag == 0 || flag == 2 ==> ((((pitch & 1023) << 22) | ((bank & 1023) << 12) | ((heading
        & 1023) << 2) | flag) >> 12) & 1023 == bank & 1023) by (bit_vector);
    assert(flag == 0 || flag == 2 ==> ((((pitch & 1023) << 22) | ((bank & 1023) << 12) | ((heading
        & 1023) << 2) | flag) >> 2) & 1023 == heading & 1023) by (bit_vector);
    assert(flag == 0 || flag == 2 ==> (((pitch & 1023) << 22) | ((bank & 1023) << 12) | ((heading
        & 1023) << 2) | flag) & 2 == flag) by (bit_vector);
    assert(pitch < 1024 ==> pitch & 1023 == pitch) by (bit_vector);
    assert(bank < 1024 ==> bank & 1023 == bank) by (bit_vector);
    assert(heading < 1024 ==> heading & 1023 == heading) by (bit_vector);
}

/// A packed orientation whose two lowest bits are clear is packed again, from
/// what it unpacks to, as the same number.
pub proof fn lemma_orientation_repacks(input: u32)
    requires
        input & 3 == 0,
    ensures
        packed_orientation(
            unpacked_orientation(input).0,
            unpacked_orientation(input).1,
            unpacked_orientation(input).2,
            unpacked_orientation(input).3,
        ) == input,
{
    assert(input & 3 == 0 ==> ((((input >> 22) & 1023) << 22) | ((((input >> 12) & 1023) & 1023)
        << 12) | ((((input >> 2) & 1023) & 1023) << 2) | 0u32) == input) by (bit_vector);
}

/// Whether a text begins with the flight-level mark `FL`, in either case.
pub open spec fn is_flight_level(s: Seq<char>) -> bool {
    s.len() >= 2 && (s[0] == 'F' || s[0] == 'f') && (s[1] == 'L' || s[1] == 'l')
}

/// The altitude in feet that a text denotes: nothing for the empty text, a
/// hundred times the number after `FL`, or the number itself. `None` where
/// the number cannot be read or the altitude does not fit in 32 bits.
pub open spec fn altitude_of(s: Seq<char>) -> Option<nat> {
    if s.len() == 0 {
        Some(0)
    } else if is_flight_level(s) {
        match unsigned_value(without_prefix(s, 2), false, 0xffff_ffff) {
            Some(level) => if level * 100 <= 0xffff_ffff {
                Some(level * 100)
            } else {
                None
            },
            None => None,
        }
    } else {
        unsigned_value(s, false, 0xffff_ffff)
    }
}

/// Reads an altitude in feet or a flight level.
pub fn parse_altitude(input: &str) -> (r: Result<u32, FsdMessageParseError>)
    ensures
        match r {
            Ok(feet) => altitude_of(input@) == Some(feet as nat),
            Err(e) => altitude_of(input@) is None && e@ == ParseFailure::InvalidAltitude(input@),
        },
{
    let v = chars_of(input);
    if v.len() == 0 {
        return Ok(0);
    }
    let flight_level = v.len() >= 2 && (v[0] == 'F' || v[0] == 'f') && (v[1] == 'L' || v[1]
        == 'l');
    if flight_level {
        let digits = string_of(&v, 2, v.len());
        match parse_unsigned(digits.as_str(), false, 0xffff_ffff) {
            Some(level) => {
                if level <= 42949672 {
                    Ok((level * 100) as u32)
                } else {
                    Err(FsdMessageParseError::InvalidAltitude(input.to_owned()))
                }
            },
            None => Err(FsdMessageParseError::InvalidAltitude(input.to_owned())),
        }
    } else {
        match parse_unsigned(input, false, 0xffff_ffff) {
            Some(feet) => Ok(feet as u32),
            None => Err(FsdMessageParseError::InvalidAltitude(input.to_owned())),
        }
    }
}

/// The two parts of each frequency in a list.
pub open spec fn frequency_parts(list: Seq<RadioFrequency>) -> Seq<(nat, nat)> {
    Seq::new(list.len(), |i: int| (list[i].left(), list[i].right()))
}

/// The frequencies among the pieces: each piece that reads as a compact
/// frequency, in order; the others are passed over.
pub open spec fn frequencies_among(pieces: Seq<Seq<char>>) -> Seq<(nat, nat)>
    decreases pieces.len(),
{
    if pieces.len() == 0 {
        Seq::empty()
    } else {
        let before = frequencies_among(pieces.drop_last());
        match frequency_of_compact(pieces.last()) {
            Some(f) => before.push(f),
            None => before,
        }
    }
}

/// The frequencies in a list whose items are set apart by `&` or `@`. Items
/// that are no frequency are passed over.
pub fn split_frequencies(input: &str) -> (r: Vec<RadioFrequency>)
    ensures
        frequency_parts(r@) == frequencies_among(split(input@, '&', '@')),
{
    let pieces = split_on(input, '&', '@');
    let ghost all = split(input@, '&', '@');
    let mut r: Vec<RadioFrequency> = Vec::new();
    let mut i: usize = 0;
    assert(frequency_parts(r@) =~= frequencies_among(all.subrange(0, 0)));
    while i < pieces.len()
        invariant
            i <= pieces.len(),
            all == split(input@, '&', '@'),
            pieces.len() == all.len(),
            forall|j: int| 0 <= j < pieces.len() ==> (#[trigger] pieces[j])@ == all[j],
            frequency_parts(r@) == frequencies_among(all.subrange(0, i as int)),
        decreases pieces.len() - i,
    {
        let ghost before = r@;
        proof {
            assert(all.subrange(0, i + 1).drop_last() =~= all.subrange(0, i as int));
            assert(all.subrange(0, i + 1).last() == pieces[i as int]@);
        }
        match RadioFrequency::from_str(pieces[i].as_str()) {
            Ok(f) => {
                r.push(f);
                assert(frequency_parts(r@) =~= frequency_parts(before).push(
                    (f.left(), f.right()),
                ));
            },
            Err(_) => {},
        }
        i += 1;
    }
    assert(all.subrange(0, i as int) =~= all);
    r
}

/// The compact texts of a list of frequencies.
pub open spec fn compact_texts(list: Seq<RadioFrequency>) -> Seq<Seq<char>> {
    Seq::new(list.len(), |i: int| compact(list[i].left(), list[i].right()))
}

/// The compact texts of frequencies given by their two parts.
pub open spec fn compact_of(parts: Seq<(nat, nat)>) -> Seq<Seq<char>> {
    Seq::new(parts.len(), |i: int| compact(parts[i].0, parts[i].1))
}

/// The compact texts of frequencies given by their two parts, each behind
/// an `@`.
pub open spec fn marked_of(parts: Seq<(nat, nat)>) -> Seq<Seq<char>> {
    Seq::new(parts.len(), |i: int| seq!['@'] + compact(parts[i].0, parts[i].1))
}

/// The compact texts of a list of frequencies, each behind an `@`.
pub open spec fn marked_texts(list: Seq<RadioFrequency>) -> Seq<Seq<char>> {
    Seq::new(list.len(), |i: int| seq!['@'] + compact(list[i].left(), list[i].right()))
}

/// A text that ends in a separator and goes on with a piece free of
/// separators is split into the pieces of what stands before that separator
/// and the piece behind it.
pub proof fn lemma_split_last_piece(t: Seq<char>, sep: char, piece: Seq<char>, a: char, b: char)
    requires
        sep == a || sep == b,
        free_of(piece, a, b),
    ensures
        split(t.push(sep) + piece, a, b) == split(t, a, b).push(piece),
{
    let s = t.push(sep) + piece;
    assert(s.subrange(t.len() as int + 1, s.len() as int) =~= piece);
    assert(s[t.len() as int] == sep);
    lemma_last_separator(s, a, b, t.len() as int);
    assert(s.subrange(0, t.len() as int) =~= t);
}

/// A list of frequencies whose thousandths are below a thousand, written in
/// compact form with `&` between them, each behind an `@` where `marked`,
/// is read back as that list.
#[verifier::rlimit(40)]
pub proof fn law_frequency_list_reads_back(parts: Seq<(nat, nat)>, marked: bool)
    requires
        forall|i: int|
            0 <= i < parts.len() ==> is_frequency((#[trigger] parts[i]).0, parts[i].1)
                && parts[i].1 <= 999,
    ensures
        frequencies_among(
            split(
                join(
                    if marked {
                        marked_of(parts)
                    } else {
                        compact_of(parts)
                    },
                    '&',
                ),
                '&',
                '@',
            ),
        ) == parts,
    decreases parts.len(),
{
    let texts = if marked { marked_of(parts) } else { compact_of(parts) };
    let line = join(texts, '&');
    let none = Seq::<char>::empty();
    assert(frequency_of_compact(none) is None);
    if parts.len() == 0 {
        let one = seq![none];
        assert(split(line, '&', '@') =~= one);
        assert(one.last() == none);
        assert(one.drop_last().len() == 0);
        assert(frequencies_among(one) == frequencies_among(one.drop_last()));
        assert(frequencies_among(one) =~= parts);
    } else {
        let front = parts.drop_last();
        let last = parts.last();
        let c = compact(last.0, last.1);
        law_frequency_list_reads_back(front, marked);
        lemma_compact_reads_back(last.0, last.1);
        lemma_compact_is_digits(last.0, last.1);
        lemma_digits_hold_no(c, '&');
        lemma_digits_hold_no(c, '@');
        let before = if marked { marked_of(front) } else { compact_of(front) };
        assert(texts.drop_last() =~= before);
        let sofar = join(before, '&');
        // what stands before the last piece, and how it is split
        let t: Seq<char> = if parts.len() == 1 {
            none
        } else if marked {
            sofar.push('&')
        } else {
            sofar
        };
        let sep = if marked { '@' } else { '&' };
        if parts.len() == 1 && !marked {
            assert(line == c);
            assert(c.subrange(0, c.len() as int) =~= c);
            lemma_last_separator(c, '&', '@', -1);
            let one = seq![c];
            assert(split(line, '&', '@') =~= one);
            assert(one.last() == c);
            assert(one.drop_last().len() == 0);
            assert(frequencies_among(one) == frequencies_among(one.drop_last()).push(last));
            assert(frequencies_among(one) =~= parts);
        } else {
            assert(line =~= t.push(sep) + c);
            lemma_split_last_piece(t, sep, c, '&', '@');
            let pieces = split(t, '&', '@');
            assert(split(line, '&', '@').drop_last() =~= pieces);
            if parts.len() == 1 {
                assert(pieces =~= seq![none]);
                assert(pieces.last() == none);
                assert(pieces.drop_last().len() == 0);
                assert(frequencies_among(pieces) == frequencies_among(pieces.drop_last()));
                assert(frequencies_among(pieces) =~= front);
            } else if marked {
                assert(t =~= sofar.push('&') + none);
                lemma_split_last_piece(sofar, '&', none, '&', '@');
                assert(pieces.drop_last() =~= split(sofar, '&', '@'));
                assert(frequencies_among(pieces) == front);
            }
            assert(frequencies_among(split(line, '&', '@')) =~= front.push(last));
            assert(front.push(last) =~= parts);
        }
    }
}

/// The compact text of a frequency whose thousandths are below a thousand
/// is made of digits.
pub proof fn lemma_compact_is_digits(left: nat, right: nat)
    requires
        is_frequency(left, right),
        right <= 999,
    ensures
        all_digits(compact(left, right), false),
{
    let less = (left - 100) as nat;
    lemma_numeral_reads_back(less, false);
    lemma_padded_reads_back(right, false, 3, 0xffff);
    lemma_numeral_reads_back(right, false);
    let part = padded(right, false, 3);
    if numeral(right, false).len() < 3 {
        lemma_leading_zeros((3 - numeral(right, false).len()) as nat, numeral(right, false), false);
    }
    let c = compact(left, right);
    let head = numeral(less, false);
    assert forall|i: int| 0 <= i < c.len() implies (#[trigger] digit_of(c[i], false)) is Some by {
        if i < head.len() {
            assert(c[i] == head[i]);
        } else {
            assert(c[i] == part[i - head.len()]);
        }
    }
}

/// Writes the frequencies in compact form with `&` between them, each
/// behind an `@` where `marked`.
fn group_frequencies(frequencies: &[RadioFrequency], marked: bool) -> (r: String)
    ensures
        r@ == join(
            if marked {
                marked_texts(frequencies@)
            } else {
                compact_texts(frequencies@)
            },
            '&',
        ),
{
    let ghost parts = if marked {
        marked_texts(frequencies@)
    } else {
        compact_texts(frequencies@)
    };
    let mut r = String::new();
    let mut i: usize = 0;
    while i < frequencies.len()
        invariant
            i <= frequencies.len(),
            parts == if marked {
                marked_texts(frequencies@)
            } else {
                compact_texts(frequencies@)
            },
            r@ == join(parts.subrange(0, i as int), '&'),
        decreases frequencies.len() - i,
    {
        let ghost after = parts.subrange(0, i + 1);
        proof {
            assert(after.drop_last() =~= parts.subrange(0, i as int));
        }
        if i > 0 {
            push_char(&mut r, '&');
        }
        let ghost mid = r@;
        if marked {
            push_char(&mut r, '@');
        }
        let text = frequencies[i].to_string();
        r.append(text.as_str());
        i += 1;
        proof {
            assert(r@ =~= mid + after.last());
            assert(r@ =~= join(after, '&'));
        }
    }
    proof {
        assert(parts.subrange(0, i as int) =~= parts);
    }
    r
}

/// The frequencies in compact form with `&` between them.
pub fn group_frequencies_without_symbol(frequencies: &[RadioFrequency]) -> (r: String)
    ensures
        r@ == join(compact_texts(frequencies@), '&'),
{
    group_frequencies(frequencies, false)
}

/// The frequencies in compact form, each behind an `@`, with `&` between
/// them.
pub fn group_frequencies_with_symbol(frequencies: &[RadioFrequency]) -> (r: String)
    ensures
        r@ == join(marked_texts(frequencies@), '&'),
{
    group_frequencies(frequencies, true)
}

/// The fields written one after another with a colon between them.
pub fn assemble_with_colons(slice: &[&str]) -> (r: String)
    ensures
        r@ == join(texts(slice@), ':'),
{
    let r = join_from(slice, 0, ':');
    assert(texts(slice@).subrange(0, slice.len() as int) =~= texts(slice@));
    r
}

/// The capability that an entry grants: its text before the first `=`
/// names the capability, in either case, and the text after it is `1`.
pub open spec fn capability_in(entry: Seq<char>) -> Option<ClientCapability> {
    let pieces = split(entry, '=', '=');
    if pieces.len() >= 2 && pieces[1] == "1"@ {
        ClientCapability::of_text(uppercase(pieces[0]))
    } else {
        None
    }
}

/// The capabilities that a list of entries grants, each once, in the order
/// in which they first occur.
pub open spec fn capabilities_in(entries: Seq<Seq<char>>) -> Seq<ClientCapability>
    decreases entries.len(),
{
    if entries.len() == 0 {
        Seq::empty()
    } else {
        let before = capabilities_in(entries.drop_last());
        match capability_in(entries.last()) {
            Some(c) => if before.contains(c) {
                before
            } else {
                before.push(c)
            },
            None => before,
        }
    }
}

/// Whether `list` holds `c`.
pub fn holds_capability(list: &Vec<ClientCapability>, c: ClientCapability) -> (r: bool)
    ensures
        r == list@.contains(c),
{
    let mut i: usize = 0;
    while i < list.len()
        invariant
            i <= list.len(),
            forall|j: int| 0 <= j < i ==> list@[j] != c,
        decreases list.len() - i,
    {
        if list[i] == c {
            return true;
        }
        i += 1;
    }
    false
}

/// Reads the capabilities that a list of `NAME=1` entries grants. Entries
/// that name no capability, or grant none, are passed over.
pub fn read_capabilities(caps_str: &[&str]) -> (r: Vec<ClientCapability>)
    ensures
        r@ == capabilities_in(texts(caps_str@)),
        r@.no_duplicates(),
{
    let ghost entries = texts(caps_str@);
    let mut r: Vec<ClientCapability> = Vec::new();
    let mut i: usize = 0;
    assert(entries.subrange(0, 0) =~= Seq::<Seq<char>>::empty());
    while i < caps_str.len()
        invariant
            i <= caps_str.len(),
            entries == texts(caps_str@),
            r@ == capabilities_in(entries.subrange(0, i as int)),
            r@.no_duplicates(),
        decreases caps_str.len() - i,
    {
        proof {
            assert(entries.subrange(0, i + 1).drop_last() =~= entries.subrange(0, i as int));
            assert(entries.subrange(0, i + 1).last() == caps_str@[i as int]@);
        }
        let pieces = split_on(caps_str[i], '=', '=');
        if pieces.len() >= 2 && same_text(pieces[1].as_str(), "1") {
            match ClientCapability::from_str(pieces[0].as_str()) {
                Ok(c) => {
                    if !holds_capability(&r, c) {
                        r.push(c);
                    }
                },
                Err(_) => {},
            }
        }
        i += 1;
    }
    assert(entries.subrange(0, i as int) =~= entries);
    r
}

/// A text without the white space at its two ends, as the standard library
/// trims it.
pub uninterp spec fn trimmed(s: Seq<char>) -> Seq<char>;

/// Calls `str::trim`. The contract only gives the result its name: the
/// table of white-space characters is not restated here.
#[verifier::external_body]
pub(crate) fn trim(s: &str) -> (r: &str)
    ensures
        r@ == trimmed(s@),
{
    s.trim()
}

/// Whether `needle` occurs in `s`.
pub open spec fn occurs_in(needle: Seq<char>, s: Seq<char>) -> bool {
    exists|i: int| 0 <= i <= s.len() - needle.len() && #[trigger] s.subrange(
        i,
        i + needle.len(),
    ) == needle
}

/// Whether `needle` occurs in `s`.
pub fn contains_text(s: &str, needle: &str) -> (r: bool)
    ensures
        r == occurs_in(needle@, s@),
{
    let x = chars_of(s);
    let y = chars_of(needle);
    if y.len() > x.len() {
        return false;
    }
    if y.len() == 0 {
        assert(s@.subrange(0int, 0int + needle@.len()) =~= needle@);
        return true;
    }
    let last: usize = x.len() - y.len();
    let mut i: usize = 0;
    while i <= last
        invariant
            x@ == s@,
            y@ == needle@,
            y.len() > 0,
            last == x.len() - y.len(),
            i <= last + 1,
            forall|j: int| 0 <= j < i ==> #[trigger] x@.subrange(j, j + y.len()) != y@,
        decreases last + 1 - i,
    {
        if same_chars(&x, i, i + y.len(), &y) {
            return true;
        }
        i += 1;
    }
    false
}

/// Whether the head and the body of a new-ATIS notice are accepted: the
/// head ends in a letter from A to Z, and of the pieces of the body between
/// spaces and hyphens the first, the wind group, has at least seven
/// characters and the second, the pressure group, at least four.
pub open spec fn atis_accepted(head: Seq<char>, body: Seq<char>) -> bool {
    let groups = split(body, ' ', '-');
    &&& head.len() > 0
    &&& 'A' <= head.last() <= 'Z'
    &&& groups.len() >= 2
    &&& groups[0].len() >= 7
    &&& groups[1].len() >= 4
}

/// The head of a new-ATIS notice as it is judged: the field in upper case.
pub open spec fn atis_head(field: Seq<char>) -> Seq<char> {
    uppercase(field)
}

/// The body of a new-ATIS notice as it is judged: the field without the
/// white space at its ends, in upper case.
pub open spec fn atis_body(field: Seq<char>) -> Seq<char> {
    uppercase(trimmed(field))
}

/// What is refused of a new-ATIS notice: its head and its body with a
/// colon between them.
pub open spec fn atis_refused(head: Seq<char>, body: Seq<char>) -> Seq<char> {
    head.push(':') + body
}

/// Reads the letter, the wind and the pressure of a new-ATIS notice from
/// its head and its body, both in upper case and the body without white
/// space at its ends. The letter is the last character of the head; wind
/// and pressure are the first two pieces of the body between spaces and
/// hyphens.
pub fn read_new_atis(head: &str, body: &str) -> (r: Result<
    (char, String, String),
    FsdMessageParseError,
>)
    ensures
        match r {
            Ok(atis) => {
                let groups = split(body@, ' ', '-');
                &&& atis_accepted(head@, body@)
                &&& atis.0 == head@.last()
                &&& atis.1@ == groups[0]
                &&& atis.2@ == groups[1]
            },
            Err(e) => !atis_accepted(head@, body@) && e@ == ParseFailure::InvalidNewAtisMessage(
                atis_refused(head@, body@),
            ),
        },
{
    let mut refused = head.to_owned();
    push_char(&mut refused, ':');
    refused.append(body);
    let letters = chars_of(head);
    if letters.len() == 0 {
        return Err(FsdMessageParseError::InvalidNewAtisMessage(refused));
    }
    let letter = letters[letters.len() - 1];
    if letter < 'A' || letter > 'Z' {
        return Err(FsdMessageParseError::InvalidNewAtisMessage(refused));
    }
    let groups = split_on(body, ' ', '-');
    if groups.len() < 2 {
        return Err(FsdMessageParseError::InvalidNewAtisMessage(refused));
    }
    let wind = chars_of(groups[0].as_str());
    let pressure = chars_of(groups[1].as_str());
    if wind.len() < 7 || pressure.len() < 4 {
        return Err(FsdMessageParseError::InvalidNewAtisMessage(refused));
    }
    Ok((letter, groups[0].clone(), groups[1].clone()))
}

/// Reads the letter, the wind and the pressure of a new-ATIS notice from
/// its two fields, which are taken in upper case, the second without the
/// white space at its ends.
pub fn parse_new_atis(input: &[&str]) -> (r: Result<(char, String, String), FsdMessageParseError>)
    ensures
        match r {
            Ok(atis) => {
                let f = texts(input@);
                let head = atis_head(f[0]);
                let body = atis_body(f[1]);
                &&& f.len() >= 2
                &&& atis_accepted(head, body)
                &&& atis.0 == head.last()
                &&& atis.1@ == split(body, ' ', '-')[0]
                &&& atis.2@ == split(body, ' ', '-')[1]
            },
            Err(e) => {
                let f = texts(input@);
                if f.len() < 2 {
                    e@ == ParseFailure::InvalidFieldCount(2, f.len())
                } else {
                    let head = atis_head(f[0]);
                    let body = atis_body(f[1]);
                    !atis_accepted(head, body) && e@ == ParseFailure::InvalidNewAtisMessage(
                        atis_refused(head, body),
                    )
                }
            },
        },
{
    let ghost f = texts(input@);
    if input.len() < 2 {
        return Err(FsdMessageParseError::InvalidFieldCount(2, input.len()));
    }
    assert(f[0] == input@[0]@ && f[1] == input@[1]@);
    let head = to_upper(input[0]);
    let body = to_upper(trim(input[1]));
    read_new_atis(head.as_str(), body.as_str())
}

} // verus!
