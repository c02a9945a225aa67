//! Text primitives shared by every codec: characters of a string, case
//! folding, splitting a line into fields and joining fields into a line.

use vstd::prelude::*;
use vstd::std_specs::iter::IteratorSpec;
use vstd::string::*;

verus! {

/// The upper-case form of a text, as the standard library computes it.
pub uninterp spec fn uppercase(s: Seq<char>) -> Seq<char>;

/// The lower-case form of a text, as the standard library computes it.
pub uninterp spec fn lowercase(s: Seq<char>) -> Seq<char>;

/// Calls `str::to_uppercase`. The contract only gives the result its name:
/// the Unicode case tables are not restated here.
#[verifier::external_body]
pub(crate) fn to_upper(s: &str) -> (r: String)
    ensures
        r@ == uppercase(s@),
{
    s.to_uppercase()
}

/// Calls `str::to_lowercase`. The contract only gives the result its name.
#[verifier::external_body]
pub(crate) fn to_lower(s: &str) -> (r: String)
    ensures
        r@ == lowercase(s@),
{
    s.to_lowercase()
}

/// Calls `String::push`: the character is appended and nothing else changes.
#[verifier::external_body]
pub(crate) fn push_char(s: &mut String, c: char)
    ensures
        final(s)@ == old(s)@.push(c),
{
    s.push(c)
}

/// The characters of `s`, in order.
pub fn chars_of(s: &str) -> (v: Vec<char>)
    ensures
        v@ == s@,
{
    broadcast use vstd::string::group_string_axioms;

    let mut rest = s.chars();
    let mut v: Vec<char> = Vec::new();
    assert(v@ + rest.remaining() =~= s@);
    loop
        invariant
            rest.obeys_prophetic_iter_laws(),
            rest.decrease() is Some,
            v@ + rest.remaining() == s@,
        ensures
            v@ == s@,
        decreases rest.decrease()->0,
    {
        match rest.next() {
            Some(c) => {
                v.push(c);
                assert(v@ + rest.remaining() =~= s@);
            },
            None => {
                assert(v@ =~= s@);
                break;
            },
        }
    }
    v
}

/// The string made of the characters `v[from..to]`.
pub fn string_of(v: &Vec<char>, from: usize, to: usize) -> (s: String)
    requires
        from <= to <= v.len(),
    ensures
        s@ == v@.subrange(from as int, to as int),
{
    let mut s = String::new();
    let mut i: usize = from;
    while i < to
        invariant
            from <= i <= to <= v.len(),
            s@ == v@.subrange(from as int, i as int),
        decreases to - i,
    {
        push_char(&mut s, v[i]);
        i += 1;
        assert(s@ =~= v@.subrange(from as int, i as int));
    }
    s
}

/// The texts of a list of fields.
pub open spec fn texts(fields: Seq<&str>) -> Seq<Seq<char>> {
    Seq::new(fields.len(), |i: int| fields[i]@)
}

/// What is left of `s` once its first `n` characters are taken off; nothing
/// where `s` is shorter than that.
pub open spec fn without_prefix(s: Seq<char>, n: nat) -> Seq<char> {
    if n <= s.len() { s.subrange(n as int, s.len() as int) } else { Seq::empty() }
}

/// `s` begins with `p`.
pub open spec fn begins_with(s: Seq<char>, p: Seq<char>) -> bool {
    p.len() <= s.len() && s.subrange(0, p.len() as int) == p
}

/// Whether two texts are the same.
pub fn same_text(a: &str, b: &str) -> (r: bool)
    ensures
        r == (a@ == b@),
{
    let x = chars_of(a);
    let y = chars_of(b);
    assert(x@.subrange(0, x.len() as int) =~= x@);
    same_chars(&x, 0, x.len(), &y)
}

/// Whether `x[from..to]` is the text `y`.
pub fn same_chars(x: &Vec<char>, from: usize, to: usize, y: &Vec<char>) -> (r: bool)
    requires
        from <= to <= x.len(),
    ensures
        r == (x@.subrange(from as int, to as int) == y@),
{
    if to - from != y.len() {
        return false;
    }
    let mut i: usize = 0;
    while i < y.len()
        invariant
            from <= to <= x.len(),
            to - from == y.len(),
            i <= y.len(),
            x@.subrange(from as int, from + i) == y@.subrange(0, i as int),
        decreases y.len() - i,
    {
        if x[from + i] != y[i] {
            assert(x@.subrange(from as int, to as int)[i as int] != y@[i as int]);
            return false;
        }
        i += 1;
        assert(x@.subrange(from as int, from + i) =~= y@.subrange(0, i as int)) by {
            assert(x@.subrange(from as int, from + i).drop_last() =~= x@.subrange(
                from as int,
                from + i - 1,
            ));
            assert(y@.subrange(0, i as int).drop_last() =~= y@.subrange(0, i - 1));
        }
    }
    assert(y@.subrange(0, y.len() as int) =~= y@);
    true
}

/// Whether `s` begins with `p`.
pub fn starts_with(s: &str, p: &str) -> (r: bool)
    ensures
        r == begins_with(s@, p@),
{
    let x = chars_of(s);
    let y = chars_of(p);
    if y.len() > x.len() {
        return false;
    }
    same_chars(&x, 0, y.len(), &y)
}

/// `s` without its first `n` characters.
pub fn skip_prefix(s: &str, n: usize) -> (r: String)
    ensures
        r@ == without_prefix(s@, n as nat),
{
    let v = chars_of(s);
    if n <= v.len() {
        string_of(&v, n, v.len())
    } else {
        String::new()
    }
}

/// The index of the last separator in `s`, or -1 where it holds none. A
/// separator is either of the characters `a` and `b`.
pub open spec fn last_separator(s: Seq<char>, a: char, b: char) -> int
    decreases s.len(),
{
    if s.len() == 0 {
        -1
    } else if s.last() == a || s.last() == b {
        s.len() - 1
    } else {
        last_separator(s.drop_last(), a, b)
    }
}

/// No character of `s` is a separator.
pub open spec fn free_of(s: Seq<char>, a: char, b: char) -> bool {
    forall|i: int| 0 <= i < s.len() ==> #[trigger] s[i] != a && s[i] != b
}

/// The pieces of `s` between its separators, in order. There is always at
/// least one piece; with `n` separators there are `n + 1`, empty ones
/// included.
pub open spec fn split(s: Seq<char>, a: char, b: char) -> Seq<Seq<char>>
    decreases s.len(),
{
    let k = last_separator(s, a, b);
    if 0 <= k < s.len() {
        split(s.subrange(0, k), a, b).push(s.subrange(k + 1, s.len() as int))
    } else {
        seq![s]
    }
}

/// The parts written one after another with `sep` between them.
pub open spec fn join(parts: Seq<Seq<char>>, sep: char) -> Seq<char>
    decreases parts.len(),
{
    if parts.len() == 0 {
        Seq::empty()
    } else if parts.len() == 1 {
        parts[0]
    } else {
        join(parts.drop_last(), sep).push(sep) + parts.last()
    }
}

/// Where the character at `k` is a separator (or `k` is -1) and none follows
/// it, `k` is the last separator.
pub proof fn lemma_last_separator(s: Seq<char>, a: char, b: char, k: int)
    requires
        -1 <= k < s.len(),
        k >= 0 ==> s[k] == a || s[k] == b,
        free_of(s.subrange(k + 1, s.len() as int), a, b),
    ensures
        last_separator(s, a, b) == k,
    decreases s.len(),
{
    if s.len() == 0 {
    } else if k == s.len() - 1 {
    } else {
        let tail = s.subrange(k + 1, s.len() as int);
        assert(tail[tail.len() - 1] == s.last());
        assert(s.last() != a && s.last() != b);
        let front = s.drop_last();
        let rest = front.subrange(k + 1, front.len() as int);
        assert forall|i: int| 0 <= i < rest.len() implies #[trigger] rest[i] != a && rest[i]
            != b by {
            assert(rest[i] == tail[i]);
        }
        lemma_last_separator(front, a, b, k);
    }
}

/// The last separator, where there is one, is a separator, and none follows.
pub proof fn lemma_last_separator_is_last(s: Seq<char>, a: char, b: char)
    ensures
        -1 <= last_separator(s, a, b) < s.len(),
        last_separator(s, a, b) >= 0 ==> s[last_separator(s, a, b)] == a || s[last_separator(
            s,
            a,
            b,
        )] == b,
        free_of(s.subrange(last_separator(s, a, b) + 1, s.len() as int), a, b),
    decreases s.len(),
{
    if s.len() == 0 {
    } else if s.last() == a || s.last() == b {
    } else {
        lemma_last_separator_is_last(s.drop_last(), a, b);
        let k = last_separator(s, a, b);
        let tail = s.subrange(k + 1, s.len() as int);
        assert forall|i: int| 0 <= i < tail.len() implies #[trigger] tail[i] != a && tail[i]
            != b by {
            if i < tail.len() - 1 {
                assert(tail[i] == s.drop_last().subrange(k + 1, s.len() - 1)[i]);
            }
        }
    }
}

/// Splitting gives at least one piece, and no piece holds a separator.
pub proof fn lemma_split_pieces(s: Seq<char>, a: char, b: char)
    ensures
        split(s, a, b).len() >= 1,
        forall|i: int|
            0 <= i < split(s, a, b).len() ==> free_of(#[trigger] split(s, a, b)[i], a, b),
    decreases s.len(),
{
    lemma_last_separator_is_last(s, a, b);
    let k = last_separator(s, a, b);
    let pieces = split(s, a, b);
    if 0 <= k < s.len() {
        let front = split(s.subrange(0, k), a, b);
        lemma_split_pieces(s.subrange(0, k), a, b);
        assert forall|i: int| 0 <= i < pieces.len() implies free_of(#[trigger] pieces[i], a, b) by {
            if i < front.len() {
                assert(pieces[i] == front[i]);
            }
        }
    } else {
        assert(s.subrange(0, s.len() as int) =~= s);
        assert(pieces[0] == s);
    }
}

/// Joining the pieces of a text with the separator it was split on gives
/// the text back.
pub proof fn lemma_join_split(s: Seq<char>, sep: char)
    ensures
        join(split(s, sep, sep), sep) == s,
    decreases s.len(),
{
    lemma_last_separator_is_last(s, sep, sep);
    let k = last_separator(s, sep, sep);
    if 0 <= k < s.len() {
        let front = s.subrange(0, k);
        let tail = s.subrange(k + 1, s.len() as int);
        lemma_join_split(front, sep);
        lemma_split_pieces(front, sep, sep);
        let parts = split(front, sep, sep).push(tail);
        assert(parts.drop_last() =~= split(front, sep, sep));
        assert(join(parts, sep) =~= s);
    }
}

/// Splitting a join of separator-free parts gives the parts back.
pub proof fn lemma_split_join(parts: Seq<Seq<char>>, sep: char)
    requires
        parts.len() >= 1,
        forall|i: int| 0 <= i < parts.len() ==> free_of(#[trigger] parts[i], sep, sep),
    ensures
        split(join(parts, sep), sep, sep) == parts,
    decreases parts.len(),
{
    let s = join(parts, sep);
    if parts.len() == 1 {
        assert(s.subrange(0, s.len() as int) =~= s);
        lemma_last_separator(s, sep, sep, -1);
        assert(seq![s] =~= parts);
    } else {
        let front = join(parts.drop_last(), sep);
        let k = front.len() as int;
        assert(s[k] == sep);
        assert(s.subrange(k + 1, s.len() as int) =~= parts.last());
        lemma_last_separator(s, sep, sep, k);
        assert(s.subrange(0, k) =~= front);
        lemma_split_join(parts.drop_last(), sep);
        assert(parts.drop_last().push(parts.last()) =~= parts);
    }
}

/// The pieces of `s` between its separators `a` and `b`.
pub fn split_on(s: &str, a: char, b: char) -> (out: Vec<String>)
    ensures
        out.len() >= 1,
        out.len() == split(s@, a, b).len(),
        forall|i: int| 0 <= i < out.len() ==> (#[trigger] out[i])@ == split(s@, a, b)[i],
{
    let v = chars_of(s);
    let mut out: Vec<String> = Vec::new();
    let mut start: usize = 0;
    let mut i: usize = 0;
    while i < v.len()
        invariant
            v@ == s@,
            start <= i <= v.len(),
            free_of(v@.subrange(start as int, i as int), a, b),
            start == 0 ==> out.len() == 0,
            start > 0 ==> (v@[start - 1] == a || v@[start - 1] == b),
            start > 0 ==> out.len() == split(v@.subrange(0, start - 1), a, b).len(),
            start > 0 ==> forall|j: int|
                0 <= j < out.len() ==> (#[trigger] out[j])@ == split(
                    v@.subrange(0, start - 1),
                    a,
                    b,
                )[j],
        decreases v.len() - i,
    {
        if v[i] == a || v[i] == b {
            let piece = string_of(&v, start, i);
            proof {
                let t = v@.subrange(0, i as int);
                assert(t.subrange(start as int, t.len() as int) =~= v@.subrange(
                    start as int,
                    i as int,
                ));
                lemma_last_separator(t, a, b, start - 1);
                if start > 0 {
                    assert(t.subrange(0, start - 1) =~= v@.subrange(0, start - 1));
                }
            }
            out.push(piece);
            start = i + 1;
            proof {
                assert(v@.subrange(start as int, start as int) =~= Seq::<char>::empty());
            }
        } else {
            proof {
                let t = v@.subrange(start as int, i + 1);
                assert forall|j: int| 0 <= j < t.len() implies #[trigger] t[j] != a && t[j]
                    != b by {
                    if j < i - start {
                        assert(t[j] == v@.subrange(start as int, i as int)[j]);
                    }
                }
            }
        }
        i += 1;
    }
    let piece = string_of(&v, start, v.len());
    proof {
        lemma_last_separator(v@, a, b, start - 1);
    }
    out.push(piece);
    out
}

/// The line made of the fields `fields[from..]` with `sep` between them.
pub fn join_from(fields: &[&str], from: usize, sep: char) -> (r: String)
    requires
        from <= fields.len(),
    ensures
        r@ == join(texts(fields@).subrange(from as int, fields.len() as int), sep),
{
    let ghost parts = texts(fields@).subrange(from as int, fields.len() as int);
    let mut r = String::new();
    let mut i: usize = from;
    while i < fields.len()
        invariant
            from <= i <= fields.len(),
            parts == texts(fields@).subrange(from as int, fields.len() as int),
            r@ == join(parts.subrange(0, i - from), sep),
        decreases fields.len() - i,
    {
        let ghost before = parts.subrange(0, i - from);
        let ghost after = parts.subrange(0, i + 1 - from);
        proof {
            assert(after.drop_last() =~= before);
            assert(after.last() == fields@[i as int]@);
        }
        if i > from {
            push_char(&mut r, sep);
        }
        r.append(fields[i]);
        i += 1;
        proof {
            assert(r@ =~= join(after, sep));
        }
    }
    proof {
        assert(parts.subrange(0, i - from) =~= parts);
    }
    r
}

/// The texts of a list of strings.
pub open spec fn views(list: Seq<String>) -> Seq<Seq<char>> {
    Seq::new(list.len(), |i: int| list[i]@)
}

/// The text of a string that may be absent.
pub open spec fn optional_text(s: Option<String>) -> Option<Seq<char>> {
    match s {
        Some(t) => Some(t@),
        None => None,
    }
}

/// The line made of the strings `parts[from..]` with `sep` between them.
pub fn join_strings(parts: &Vec<String>, from: usize, sep: char) -> (r: String)
    requires
        from <= parts.len(),
    ensures
        r@ == join(views(parts@).subrange(from as int, parts.len() as int), sep),
{
    let ghost all = views(parts@).subrange(from as int, parts.len() as int);
    let mut r = String::new();
    let mut i: usize = from;
    while i < parts.len()
        invariant
            from <= i <= parts.len(),
            all == views(parts@).subrange(from as int, parts.len() as int),
            r@ == join(all.subrange(0, i - from), sep),
        decreases parts.len() - i,
    {
        let ghost after = all.subrange(0, i + 1 - from);
        proof {
            assert(after.drop_last() =~= all.subrange(0, i - from));
            assert(after.last() == parts@[i as int]@);
        }
        if i > from {
            push_char(&mut r, sep);
        }
        r.append(parts[i].as_str());
        i += 1;
        proof {
            assert(r@ =~= join(after, sep));
        }
    }
    proof {
        assert(all.subrange(0, i - from) =~= all);
    }
    r
}

/// The strings of a list as borrowed texts, in order.
pub fn borrow_all(list: &Vec<String>) -> (r: Vec<&str>)
    ensures
        texts(r@) == views(list@),
{
    let mut r: Vec<&str> = Vec::new();
    let mut i: usize = 0;
    while i < list.len()
        invariant
            i <= list.len(),
            r.len() == i,
            forall|j: int| 0 <= j < i ==> (#[trigger] r@[j])@ == list@[j]@,
        decreases list.len() - i,
    {
        r.push(list[i].as_str());
        i += 1;
    }
    assert(texts(r@) =~= views(list@));
    r
}

/// The two texts one after the other.
pub fn followed_by(a: &str, b: &str) -> (r: String)
    ensures
        r@ == a@ + b@,
{
    let mut r = a.to_owned();
    r.append(b);
    r
}

/// Whether a text is its own upper-case form, as callsigns on the wire are.
pub open spec fn is_upper(s: Seq<char>) -> bool {
    uppercase(s) == s
}

/// The field at `i`, or the empty text where the list is shorter.
pub open spec fn field_or_empty(f: Seq<Seq<char>>, i: int) -> Seq<char> {
    if 0 <= i < f.len() { f[i] } else { Seq::empty() }
}

/// The field at `i`, or `None` where the list is shorter.
pub open spec fn field_if_present(f: Seq<Seq<char>>, i: int) -> Option<Seq<char>> {
    if 0 <= i < f.len() { Some(f[i]) } else { None }
}

/// A join of parts is the join of the first `k`, the separator, and the
/// join of the others.
pub proof fn lemma_join_parts(parts: Seq<Seq<char>>, k: int, sep: char)
    requires
        0 < k < parts.len(),
    ensures
        join(parts, sep) == join(parts.subrange(0, k), sep).push(sep) + join(
            parts.subrange(k, parts.len() as int),
            sep,
        ),
    decreases parts.len(),
{
    let head = parts.subrange(0, k);
    let tail = parts.subrange(k, parts.len() as int);
    let front = parts.drop_last();
    assert(join(parts, sep) == join(front, sep).push(sep) + parts.last());
    if k == parts.len() - 1 {
        assert(head =~= front);
        assert(tail.len() == 1 && tail[0] == parts.last());
    } else {
        lemma_join_parts(front, k, sep);
        assert(front.subrange(0, k) =~= head);
        assert(front.subrange(k, front.len() as int) =~= tail.drop_last());
        assert(tail.last() == parts.last());
        assert(join(tail, sep) == join(tail.drop_last(), sep).push(sep) + tail.last());
        assert(join(parts, sep) =~= join(head, sep).push(sep) + join(tail, sep));
    }
}

/// The text behind a borrowed string that may be absent.
pub open spec fn optional_view(s: Option<&str>) -> Option<Seq<char>> {
    match s {
        Some(t) => Some(t@),
        None => None,
    }
}

/// An owned copy of a text that may be absent.
pub fn owned(s: Option<&str>) -> (r: Option<String>)
    ensures
        optional_text(r) == optional_view(s),
{
    match s {
        Some(t) => Some(t.to_owned()),
        None => None,
    }
}

} // verus!
