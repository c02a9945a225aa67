//! Numerals: reading and writing unsigned and signed integers in decimal and
//! hexadecimal, with the laws that relate the two directions.

use vstd::prelude::*;
use crate::text::{chars_of, push_char};

verus! {

/// The base of a numeral: sixteen when `hex`, ten otherwise.
pub open spec fn radix(hex: bool) -> nat {
    if hex { 16 } else { 10 }
}

/// The value of one digit, or `None` where `c` is no digit of that base.
/// Hexadecimal digits may be written in either case.
pub open spec fn digit_of(c: char, hex: bool) -> Option<nat> {
    if '0' <= c <= '9' {
        Some((c as nat - '0' as nat) as nat)
    } else if hex && 'a' <= c <= 'f' {
        Some((c as nat - 'a' as nat + 10) as nat)
    } else if hex && 'A' <= c <= 'F' {
        Some((c as nat - 'A' as nat + 10) as nat)
    } else {
        None
    }
}

/// Every character of `s` is a digit of the base.
pub open spec fn all_digits(s: Seq<char>, hex: bool) -> bool {
    forall|i: int| 0 <= i < s.len() ==> (#[trigger] digit_of(s[i], hex)) is Some
}

/// The number that a run of digits denotes, most significant digit first.
pub open spec fn numeral_value(s: Seq<char>, hex: bool) -> nat
    decreases s.len(),
{
    if s.len() == 0 {
        0
    } else {
        numeral_value(s.drop_last(), hex) * radix(hex) + match digit_of(s.last(), hex) {
            Some(d) => d,
            None => 0,
        }
    }
}

/// The digits of `s` once an optional leading `+` is taken off.
pub open spec fn unsigned_body(s: Seq<char>) -> Seq<char> {
    if s.len() > 0 && s[0] == '+' { s.drop_first() } else { s }
}

/// What a text denotes as an unsigned integer no larger than `max`: an
/// optional `+`, then at least one digit, and nothing else. `None` for any
/// other text and for a value above `max`.
pub open spec fn unsigned_value(s: Seq<char>, hex: bool, max: nat) -> Option<nat> {
    let body = unsigned_body(s);
    if body.len() > 0 && all_digits(body, hex) && numeral_value(body, hex) <= max {
        Some(numeral_value(body, hex))
    } else {
        None
    }
}

/// What a text denotes as a signed integer between `-limit - 1` and `limit`:
/// an optional `+` or `-`, then at least one decimal digit.
pub open spec fn signed_value(s: Seq<char>, limit: nat) -> Option<int> {
    if s.len() > 0 && s[0] == '-' {
        let body = s.drop_first();
        if body.len() > 0 && all_digits(body, false) && numeral_value(body, false) <= limit + 1 {
            Some(-(numeral_value(body, false) as int))
        } else {
            None
        }
    } else {
        match unsigned_value(s, false, limit) {
            Some(v) => Some(v as int),
            None => None,
        }
    }
}

/// A longer run of digits denotes at least as much as any of its prefixes.
pub proof fn lemma_numeral_value_monotone(s: Seq<char>, hex: bool, i: int)
    requires
        0 <= i <= s.len(),
    ensures
        numeral_value(s.subrange(0, i), hex) <= numeral_value(s, hex),
    decreases s.len() - i,
{
    if i == s.len() {
        assert(s.subrange(0, i) =~= s);
    } else {
        lemma_numeral_value_monotone(s.drop_last(), hex, i);
        assert(s.drop_last().subrange(0, i) =~= s.subrange(0, i));
        assert(numeral_value(s.drop_last(), hex) <= numeral_value(s.drop_last(), hex) * radix(hex))
            by (nonlinear_arith)
            requires
                radix(hex) >= 1,
        ;
    }
}

fn digit_at(c: char, hex: bool) -> (r: Option<u8>)
    ensures
        r is Some <==> digit_of(c, hex) is Some,
        r is Some ==> r->0 as nat == digit_of(c, hex)->0 && r->0 < radix(hex),
{
    let n: u32 = c as u32;
    if 48 <= n && n <= 57 {
        Some((n - 48) as u8)
    } else if hex && 97 <= n && n <= 102 {
        Some((n - 97 + 10) as u8)
    } else if hex && 65 <= n && n <= 70 {
        Some((n - 65 + 10) as u8)
    } else {
        None
    }
}

/// Reads the digits `v[from..]` as a number no larger than `max`.
fn read_digits(v: &Vec<char>, from: usize, hex: bool, max: u64) -> (r: Option<u64>)
    requires
        from <= v.len(),
    ensures
        ({
            let body = v@.subrange(from as int, v.len() as int);
            let ok = body.len() > 0 && all_digits(body, hex) && numeral_value(body, hex) <= max;
            &&& r is Some <==> ok
            &&& r is Some ==> r->0 as nat == numeral_value(body, hex)
        }),
{
    let ghost body = v@.subrange(from as int, v.len() as int);
    if from == v.len() {
        return None;
    }
    let base: u128 = if hex { 16 } else { 10 };
    let mut acc: u128 = 0;
    let mut i: usize = from;
    while i < v.len()
        invariant
            from <= i <= v.len(),
            body == v@.subrange(from as int, v.len() as int),
            base == radix(hex),
            acc <= max,
            acc as nat == numeral_value(body.subrange(0, i - from), hex),
            all_digits(body.subrange(0, i - from), hex),
        decreases v.len() - i,
    {
        let ghost before = body.subrange(0, i - from);
        let ghost after = body.subrange(0, i + 1 - from);
        proof {
            assert(after.drop_last() =~= before);
            assert(after.last() == v@[i as int]);
        }
        match digit_at(v[i], hex) {
            None => {
                proof {
                    assert(body[i - from] == v@[i as int]);
                }
                return None;
            },
            Some(d) => {
                let next: u128 = acc * base + d as u128;
                if next > max as u128 {
                    proof {
                        lemma_numeral_value_monotone(body, hex, i + 1 - from);
                    }
                    return None;
                }
                acc = next;
                proof {
                    assert forall|k: int| 0 <= k < after.len() implies (#[trigger] digit_of(
                        after[k],
                        hex,
                    )) is Some by {
                        if k < before.len() {
                            assert(after[k] == before[k]);
                        }
                    }
                }
            },
        }
        i += 1;
    }
    proof {
        assert(body.subrange(0, i - from) =~= body);
    }
    Some(acc as u64)
}

/// Reads `s` as an unsigned integer no larger than `max`.
pub fn parse_unsigned(s: &str, hex: bool, max: u64) -> (r: Option<u64>)
    ensures
        r is Some <==> unsigned_value(s@, hex, max as nat) is Some,
        r is Some ==> r->0 as nat == unsigned_value(s@, hex, max as nat)->0,
{
    let v = chars_of(s);
    let from: usize = if v.len() > 0 && v[0] == '+' { 1 } else { 0 };
    proof {
        assert(unsigned_body(s@) =~= v@.subrange(from as int, v.len() as int));
    }
    read_digits(&v, from, hex, max)
}

/// Reads `s` as a decimal integer of 32 bits with a sign.
pub fn parse_i32(s: &str) -> (r: Option<i32>)
    ensures
        r is Some <==> signed_value(s@, 0x7fff_ffff) is Some,
        r is Some ==> r->0 as int == signed_value(s@, 0x7fff_ffff)->0,
{
    let v = chars_of(s);
    if v.len() > 0 && v[0] == '-' {
        proof {
            assert(s@.drop_first() =~= v@.subrange(1, v.len() as int));
        }
        match read_digits(&v, 1, false, 0x8000_0000) {
            Some(n) => Some((0 - n as i64) as i32),
            None => None,
        }
    } else {
        let from: usize = if v.len() > 0 && v[0] == '+' { 1 } else { 0 };
        proof {
            assert(unsigned_body(s@) =~= v@.subrange(from as int, v.len() as int));
        }
        match read_digits(&v, from, false, 0x7fff_ffff) {
            Some(n) => Some(n as i32),
            None => None,
        }
    }
}

/// The character that writes the digit `d`; hexadecimal digits above nine are
/// written in lower case.
pub open spec fn digit_char(d: nat) -> char {
    if d == 0 {
        '0'
    } else if d == 1 {
        '1'
    } else if d == 2 {
        '2'
    } else if d == 3 {
        '3'
    } else if d == 4 {
        '4'
    } else if d == 5 {
        '5'
    } else if d == 6 {
        '6'
    } else if d == 7 {
        '7'
    } else if d == 8 {
        '8'
    } else if d == 9 {
        '9'
    } else if d == 10 {
        'a'
    } else if d == 11 {
        'b'
    } else if d == 12 {
        'c'
    } else if d == 13 {
        'd'
    } else if d == 14 {
        'e'
    } else {
        'f'
    }
}

/// The shortest numeral of `n`: no sign and no leading zero, `0` for zero.
pub open spec fn numeral(n: nat, hex: bool) -> Seq<char>
    decreases n,
{
    if n < radix(hex) {
        seq![digit_char(n)]
    } else {
        numeral(n / radix(hex), hex).push(digit_char(n % radix(hex)))
    }
}

/// A run of `k` zeros.
pub open spec fn zeros(k: nat) -> Seq<char> {
    Seq::new(k, |i: int| '0')
}

/// The numeral of `n` with zeros in front until it is `width` characters
/// long; a numeral that is longer already is left as it is.
pub open spec fn padded(n: nat, hex: bool, width: nat) -> Seq<char> {
    let digits = numeral(n, hex);
    if digits.len() < width {
        zeros((width - digits.len()) as nat) + digits
    } else {
        digits
    }
}

/// The numeral of a signed integer: a `-` in front of the numeral of its
/// magnitude when it is negative.
pub open spec fn signed_numeral(n: int) -> Seq<char> {
    if n < 0 {
        seq!['-'] + numeral((-n) as nat, false)
    } else {
        numeral(n as nat, false)
    }
}

/// A numeral is made of digits, is not empty, and denotes its number.
pub proof fn lemma_numeral_reads_back(n: nat, hex: bool)
    ensures
        numeral(n, hex).len() > 0,
        all_digits(numeral(n, hex), hex),
        numeral_value(numeral(n, hex), hex) == n,
        numeral(n, hex)[0] != '+',
        numeral(n, hex)[0] != '-',
    decreases n,
{
    let r = radix(hex);
    if n < r {
        let s = seq![digit_char(n)];
        assert(s.drop_last() =~= Seq::<char>::empty());
        assert(numeral_value(s.drop_last(), hex) == 0);
        assert(digit_of(s.last(), hex) == Some(n));
    } else {
        let head = numeral(n / r, hex);
        let s = head.push(digit_char(n % r));
        lemma_numeral_reads_back(n / r, hex);
        assert(s.drop_last() =~= head);
        assert(digit_of(s.last(), hex) == Some(n % r));
        assert(s[0] == head[0]);
        assert forall|i: int| 0 <= i < s.len() implies (#[trigger] digit_of(s[i], hex)) is Some by {
            if i < head.len() {
                assert(s[i] == head[i]);
            }
        }
        assert((n / r) * r + n % r == n) by (nonlinear_arith)
            requires
                r > 0,
        ;
    }
}

/// Zeros in front of a run of digits change neither what it denotes nor that
/// it is made of digits.
pub proof fn lemma_leading_zeros(k: nat, s: Seq<char>, hex: bool)
    requires
        all_digits(s, hex),
    ensures
        all_digits(zeros(k) + s, hex),
        numeral_value(zeros(k) + s, hex) == numeral_value(s, hex),
    decreases s.len(),
{
    let t = zeros(k) + s;
    assert forall|i: int| 0 <= i < t.len() implies (#[trigger] digit_of(t[i], hex)) is Some by {
        if i >= k {
            assert(t[i] == s[i - k]);
        }
    }
    if s.len() == 0 {
        assert(t =~= zeros(k));
        lemma_zeros_denote_nothing(k, hex);
    } else {
        lemma_leading_zeros(k, s.drop_last(), hex);
        assert(t.drop_last() =~= zeros(k) + s.drop_last());
        assert(t.last() == s.last());
    }
}

/// A run of zeros denotes zero.
pub proof fn lemma_zeros_denote_nothing(k: nat, hex: bool)
    ensures
        numeral_value(zeros(k), hex) == 0,
    decreases k,
{
    if k > 0 {
        lemma_zeros_denote_nothing((k - 1) as nat, hex);
        assert(zeros(k).drop_last() =~= zeros((k - 1) as nat));
    }
}

/// Reading a numeral, padded or not, gives back the number it was written
/// from, whenever that number is within the bound.
pub proof fn lemma_padded_reads_back(n: nat, hex: bool, width: nat, max: nat)
    requires
        n <= max,
    ensures
        unsigned_value(padded(n, hex, width), hex, max) == Some(n),
        unsigned_value(numeral(n, hex), hex, max) == Some(n),
        padded(n, hex, width).len() >= width,
        padded(n, hex, width).len() > 0,
{
    lemma_numeral_reads_back(n, hex);
    let digits = numeral(n, hex);
    let p = padded(n, hex, width);
    if digits.len() < width {
        let k = (width - digits.len()) as nat;
        lemma_leading_zeros(k, digits, hex);
        assert(p[0] == '0');
    }
    assert(unsigned_body(p) == p);
    assert(unsigned_body(digits) == digits);
}

/// The decimal numerals of the numbers below ten thousand, digit by digit.
pub proof fn lemma_small_numerals(n: nat)
    requires
        n < 10000,
    ensures
        n < 10 ==> numeral(n, false) == seq![digit_char(n)],
        10 <= n < 100 ==> numeral(n, false) == seq![digit_char(n / 10), digit_char(n % 10)],
        100 <= n < 1000 ==> numeral(n, false) == seq![
            digit_char(n / 100),
            digit_char((n / 10) % 10),
            digit_char(n % 10),
        ],
        1000 <= n ==> numeral(n, false) == seq![
            digit_char(n / 1000),
            digit_char((n / 100) % 10),
            digit_char((n / 10) % 10),
            digit_char(n % 10),
        ],
    decreases n,
{
    if n >= 10 {
        lemma_small_numerals(n / 10);
        let m = n / 10;
        assert(numeral(n, false) == numeral(m, false).push(digit_char(n % 10)));
        if n < 100 {
            assert(numeral(n, false) =~= seq![digit_char(n / 10), digit_char(n % 10)]);
        } else if n < 1000 {
            assert(m / 10 == n / 100 && m % 10 == (n / 10) % 10);
            assert(numeral(n, false) =~= seq![
                digit_char(n / 100),
                digit_char((n / 10) % 10),
                digit_char(n % 10),
            ]);
        } else {
            assert(m / 100 == n / 1000 && (m / 10) % 10 == (n / 100) % 10 && m % 10 == (n / 10)
                % 10);
            assert(numeral(n, false) =~= seq![
                digit_char(n / 1000),
                digit_char((n / 100) % 10),
                digit_char((n / 10) % 10),
                digit_char(n % 10),
            ]);
        }
    }
}

/// A number below a thousand, padded to three digits, and one below ten
/// thousand, padded to four, digit by digit.
pub proof fn lemma_padded_digits(n: nat)
    requires
        n < 10000,
    ensures
        n < 1000 ==> padded(n, false, 3) == seq![
            digit_char(n / 100),
            digit_char((n / 10) % 10),
            digit_char(n % 10),
        ],
        padded(n, false, 4) == seq![
            digit_char(n / 1000),
            digit_char((n / 100) % 10),
            digit_char((n / 10) % 10),
            digit_char(n % 10),
        ],
{
    lemma_small_numerals(n);
    let four = seq![
        digit_char(n / 1000),
        digit_char((n / 100) % 10),
        digit_char((n / 10) % 10),
        digit_char(n % 10),
    ];
    let three = seq![digit_char(n / 100), digit_char((n / 10) % 10), digit_char(n % 10)];
    if n < 10 {
        assert(zeros(3) + numeral(n, false) =~= four);
        assert(zeros(2) + numeral(n, false) =~= three);
    } else if n < 100 {
        assert(zeros(2) + numeral(n, false) =~= four);
        assert(zeros(1) + numeral(n, false) =~= three);
    } else if n < 1000 {
        assert(zeros(1) + numeral(n, false) =~= four);
    }
}

/// A decimal digit is written by the character that reads as it.
pub proof fn lemma_digit_char(c: char)
    requires
        digit_of(c, false) is Some,
    ensures
        digit_char(digit_of(c, false)->0) == c,
        digit_of(c, false)->0 <= 9,
{
}

/// What a run of two, three or four decimal digits denotes.
pub proof fn lemma_short_runs(s: Seq<char>)
    requires
        2 <= s.len() <= 4,
        all_digits(s, false),
    ensures
        s.len() == 2 ==> numeral_value(s, false) == digit_of(s[0], false)->0 * 10 + digit_of(
            s[1],
            false,
        )->0,
        s.len() == 3 ==> numeral_value(s, false) == digit_of(s[0], false)->0 * 100 + digit_of(
            s[1],
            false,
        )->0 * 10 + digit_of(s[2], false)->0,
        s.len() == 4 ==> numeral_value(s, false) == digit_of(s[0], false)->0 * 1000 + digit_of(
            s[1],
            false,
        )->0 * 100 + digit_of(s[2], false)->0 * 10 + digit_of(s[3], false)->0,
    decreases s.len(),
{
    let front = s.drop_last();
    assert forall|i: int| 0 <= i < front.len() implies (#[trigger] digit_of(front[i], false))
        is Some by {
        assert(front[i] == s[i]);
    }
    assert(digit_of(s[0], false) is Some);
    assert(digit_of(s[1], false) is Some);
    if s.len() == 2 {
        assert(front.drop_last() =~= Seq::<char>::empty());
        assert(numeral_value(front.drop_last(), false) == 0);
        assert(numeral_value(front, false) == digit_of(s[0], false)->0);
    } else {
        assert(digit_of(s[2], false) is Some);
        if s.len() == 4 {
            assert(digit_of(s[3], false) is Some);
        }
        lemma_short_runs(front);
    }
}

/// A text of two characters that reads as a number reads as one below a
/// hundred.
pub proof fn lemma_two_characters(s: Seq<char>)
    requires
        s.len() == 2,
    ensures
        forall|max: nat| (#[trigger] unsigned_value(s, false, max)) is Some ==> unsigned_value(
            s,
            false,
            max,
        )->0 <= 99,
{
    assert forall|max: nat| (#[trigger] unsigned_value(s, false, max)) is Some implies
        unsigned_value(s, false, max)->0 <= 99 by {
        let body = unsigned_body(s);
        if body.len() == 2 {
            lemma_short_runs(body);
            lemma_digit_char(body[0]);
            lemma_digit_char(body[1]);
        } else {
            assert(body.drop_last() =~= Seq::<char>::empty());
            assert(numeral_value(body.drop_last(), false) == 0);
            assert(digit_of(body[0], false) is Some);
            lemma_digit_char(body[0]);
        }
    }
}

fn digit_to_char(d: u8) -> (c: char)
    requires
        d < 16,
    ensures
        c == digit_char(d as nat),
{
    if d == 0 {
        '0'
    } else if d == 1 {
        '1'
    } else if d == 2 {
        '2'
    } else if d == 3 {
        '3'
    } else if d == 4 {
        '4'
    } else if d == 5 {
        '5'
    } else if d == 6 {
        '6'
    } else if d == 7 {
        '7'
    } else if d == 8 {
        '8'
    } else if d == 9 {
        '9'
    } else if d == 10 {
        'a'
    } else if d == 11 {
        'b'
    } else if d == 12 {
        'c'
    } else if d == 13 {
        'd'
    } else if d == 14 {
        'e'
    } else {
        'f'
    }
}

/// The digits of `n`, most significant first.
fn digits_of(n: u64, hex: bool) -> (v: Vec<char>)
    ensures
        v@ == numeral(n as nat, hex),
    decreases n,
{
    let base: u64 = if hex { 16 } else { 10 };
    if n < base {
        let mut v: Vec<char> = Vec::new();
        v.push(digit_to_char(n as u8));
        assert(v@ =~= seq![digit_char(n as nat)]);
        v
    } else {
        let mut v = digits_of(n / base, hex);
        v.push(digit_to_char((n % base) as u8));
        v
    }
}

/// Appends the numeral of `n` to `out`, with zeros in front up to `width`
/// characters.
pub fn write_padded(out: &mut String, n: u64, hex: bool, width: usize)
    ensures
        final(out)@ == old(out)@ + padded(n as nat, hex, width as nat),
{
    let v = digits_of(n, hex);
    let ghost start = out@;
    let mut k: usize = v.len();
    while k < width
        invariant
            v.len() <= k,
            k <= width || k == v.len(),
            out@ == start + zeros((k - v.len()) as nat),
        decreases width - k,
    {
        push_char(out, '0');
        k += 1;
        assert(out@ =~= start + zeros((k - v.len()) as nat));
    }
    let ghost lead = out@;
    let mut i: usize = 0;
    while i < v.len()
        invariant
            i <= v.len(),
            out@ == lead + v@.subrange(0, i as int),
        decreases v.len() - i,
    {
        push_char(out, v[i]);
        i += 1;
        assert(out@ =~= lead + v@.subrange(0, i as int));
    }
    proof {
        assert(v@.subrange(0, v.len() as int) =~= v@);
        assert(out@ =~= start + padded(n as nat, hex, width as nat));
    }
}

/// Appends the shortest decimal numeral of `n` to `out`.
pub fn write_number(out: &mut String, n: u64)
    ensures
        final(out)@ == old(out)@ + numeral(n as nat, false),
{
    write_padded(out, n, false, 0);
}

/// Appends the decimal numeral of a signed integer to `out`.
pub fn write_signed(out: &mut String, n: i32)
    ensures
        final(out)@ == old(out)@ + signed_numeral(n as int),
{
    if n < 0 {
        let ghost start = out@;
        push_char(out, '-');
        write_number(out, (0 - n as i64) as u64);
        proof {
            assert(out@ =~= start + signed_numeral(n as int));
        }
    } else {
        write_number(out, n as u64);
    }
}

/// The shortest decimal numeral of `n`.
pub fn number_text(n: u64) -> (r: String)
    ensures
        r@ == numeral(n as nat, false),
{
    let mut r = String::new();
    write_number(&mut r, n);
    assert(r@ =~= numeral(n as nat, false));
    r
}

/// The numeral of `n` with zeros in front up to `width` characters.
pub fn padded_text(n: u64, hex: bool, width: usize) -> (r: String)
    ensures
        r@ == padded(n as nat, hex, width as nat),
{
    let mut r = String::new();
    write_padded(&mut r, n, hex, width);
    assert(r@ =~= padded(n as nat, hex, width as nat));
    r
}

/// The decimal numeral of a signed integer.
pub fn signed_text(n: i32) -> (r: String)
    ensures
        r@ == signed_numeral(n as int),
{
    let mut r = String::new();
    write_signed(&mut r, n);
    assert(r@ =~= signed_numeral(n as int));
    r
}

/// Whether a text is the shortest numeral of a number no larger than `max`:
/// no sign and no zero in front.
pub open spec fn is_plain_number(s: Seq<char>, hex: bool, max: nat) -> bool {
    unsigned_value(s, hex, max) is Some && numeral(unsigned_value(s, hex, max)->0, hex) == s
}

/// Whether a text is the numeral, padded to `width`, of a number no larger
/// than `max`.
pub open spec fn is_padded_number(s: Seq<char>, hex: bool, width: nat, max: nat) -> bool {
    unsigned_value(s, hex, max) is Some && padded(unsigned_value(s, hex, max)->0, hex, width) == s
}

/// How many digits stand one after another in `s` from the index `from` on.
pub open spec fn digit_run(s: Seq<char>, from: int) -> nat
    decreases s.len() - from,
{
    if 0 <= from < s.len() && digit_of(s[from], false) is Some {
        1 + digit_run(s, from + 1)
    } else {
        0
    }
}

/// Whether `c` is the letter `lower`, in either case.
pub open spec fn is_letter(c: char, lower: char, upper: char) -> bool {
    c == lower || c == upper
}

/// Whether `s` from `from` on is one of the words `inf`, `infinity` and
/// `nan`, in either case.
pub open spec fn is_special_number(s: Seq<char>, from: int) -> bool {
    let n = s.len() - from;
    ||| (n == 3 && is_letter(s[from], 'i', 'I') && is_letter(s[from + 1], 'n', 'N') && is_letter(
        s[from + 2],
        'f',
        'F',
    ))
    ||| (n == 3 && is_letter(s[from], 'n', 'N') && is_letter(s[from + 1], 'a', 'A') && is_letter(
        s[from + 2],
        'n',
        'N',
    ))
    ||| (n == 8 && is_letter(s[from], 'i', 'I') && is_letter(s[from + 1], 'n', 'N') && is_letter(
        s[from + 2],
        'f',
        'F',
    ) && is_letter(s[from + 3], 'i', 'I') && is_letter(s[from + 4], 'n', 'N') && is_letter(
        s[from + 5],
        'i',
        'I',
    ) && is_letter(s[from + 6], 't', 'T') && is_letter(s[from + 7], 'y', 'Y'))
}

/// Whether `s` from `at` on is an exponent: an `e` in either case, an
/// optional sign, and at least one digit up to the end.
pub open spec fn is_exponent(s: Seq<char>, at: int) -> bool {
    &&& 0 <= at < s.len()
    &&& is_letter(s[at], 'e', 'E')
    &&& {
        let from = if at + 1 < s.len() && (s[at + 1] == '+' || s[at + 1] == '-') {
            at + 2
        } else {
            at + 1
        };
        digit_run(s, from) >= 1 && from + digit_run(s, from) == s.len()
    }
}

/// Whether `s` from `from` on is a number with an optional fraction and an
/// optional exponent: digits, a dot and digits, of which either run of
/// digits may be empty but not both, and then nothing or an exponent.
pub open spec fn is_plain_decimal(s: Seq<char>, from: int) -> bool {
    let whole = digit_run(s, from);
    let dot = from + whole < s.len() && s[from + whole] == '.';
    let fraction = if dot { digit_run(s, from + whole + 1) } else { 0 };
    let end = from + whole + if dot { 1 + fraction } else { 0 };
    whole + fraction >= 1 && (end == s.len() || is_exponent(s, end))
}

/// Whether a text is a decimal number as the standard library reads one for
/// a floating-point value: an optional sign, then `inf`, `infinity` or `nan`
/// in either case, or digits with an optional fraction and an optional
/// exponent.
pub open spec fn is_decimal(s: Seq<char>) -> bool {
    let from: int = if s.len() > 0 && (s[0] == '+' || s[0] == '-') { 1 } else { 0 };
    is_special_number(s, from) || is_plain_decimal(s, from)
}

/// Counts the digits that stand one after another in `v` from `from` on.
fn count_digits(v: &Vec<char>, from: usize) -> (r: usize)
    requires
        from <= v.len(),
    ensures
        r == digit_run(v@, from as int),
        from + r <= v.len(),
{
    let mut i: usize = from;
    while i < v.len() && digit_at(v[i], false).is_some()
        invariant
            from <= i <= v.len(),
            digit_run(v@, from as int) == (i - from) + digit_run(v@, i as int),
        decreases v.len() - i,
    {
        i += 1;
    }
    i - from
}

fn letter_at(v: &Vec<char>, i: usize, lower: char, upper: char) -> (r: bool)
    requires
        i < v.len(),
    ensures
        r == is_letter(v@[i as int], lower, upper),
{
    v[i] == lower || v[i] == upper
}

fn is_special_at(v: &Vec<char>, from: usize) -> (r: bool)
    requires
        from <= v.len(),
    ensures
        r == is_special_number(v@, from as int),
{
    let n = v.len() - from;
    if n == 3 {
        (letter_at(v, from, 'i', 'I') && letter_at(v, from + 1, 'n', 'N') && letter_at(
            v,
            from + 2,
            'f',
            'F',
        )) || (letter_at(v, from, 'n', 'N') && letter_at(v, from + 1, 'a', 'A') && letter_at(
            v,
            from + 2,
            'n',
            'N',
        ))
    } else if n == 8 {
        letter_at(v, from, 'i', 'I') && letter_at(v, from + 1, 'n', 'N') && letter_at(
            v,
            from + 2,
            'f',
            'F',
        ) && letter_at(v, from + 3, 'i', 'I') && letter_at(v, from + 4, 'n', 'N') && letter_at(
            v,
            from + 5,
            'i',
            'I',
        ) && letter_at(v, from + 6, 't', 'T') && letter_at(v, from + 7, 'y', 'Y')
    } else {
        false
    }
}

fn is_exponent_at(v: &Vec<char>, at: usize) -> (r: bool)
    requires
        at < v.len(),
    ensures
        r == is_exponent(v@, at as int),
{
    if !letter_at(v, at, 'e', 'E') {
        return false;
    }
    let from: usize = if at + 1 < v.len() && (v[at + 1] == '+' || v[at + 1] == '-') {
        at + 2
    } else {
        at + 1
    };
    let digits = count_digits(v, from);
    digits >= 1 && from + digits == v.len()
}

fn is_plain_decimal_at(v: &Vec<char>, from: usize) -> (r: bool)
    requires
        from <= v.len(),
    ensures
        r == is_plain_decimal(v@, from as int),
{
    let whole = count_digits(v, from);
    let dot = from + whole < v.len() && v[from + whole] == '.';
    let fraction = if dot { count_digits(v, from + whole + 1) } else { 0 };
    let end = if dot { from + whole + 1 + fraction } else { from + whole };
    if whole + fraction < 1 {
        false
    } else if end == v.len() {
        true
    } else {
        is_exponent_at(v, end)
    }
}

/// Whether `s` is a decimal number as the standard library reads one for a
/// floating-point value.
pub fn is_decimal_text(s: &str) -> (r: bool)
    ensures
        r == is_decimal(s@),
{
    let v = chars_of(s);
    let from: usize = if v.len() > 0 && (v[0] == '+' || v[0] == '-') { 1 } else { 0 };
    is_special_at(&v, from) || is_plain_decimal_at(&v, from)
}

} // verus!
