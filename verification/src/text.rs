//! Text as sequences of characters: conversion, comparison, search,
//! replacement and trimming.
//!
//! Every contract in this crate speaks of a string through its view, a
//! `Seq<char>`. The functions here are the executable counterparts of the
//! few sequence operations the rest of the crate needs.

use vstd::prelude::*;
use vstd::std_specs::iter::IteratorSpec;

verus! {

/// `String::push` of the standard library. Trusted: the string afterwards
/// is the string before with `c` appended as its last character.
pub assume_specification[ String::push ](s: &mut String, c: char)
    ensures
        final(s)@ == old(s)@.push(c),
;

/// The mathematical value of an optional value.
pub open spec fn option_view<T: View>(o: Option<T>) -> Option<T::V> {
    match o {
        Some(t) => Some(t@),
        None => None,
    }
}

/// The characters of `s`, in order.
pub fn chars_of(s: &str) -> (v: Vec<char>)
    ensures
        v@ == s@,
{
    let mut v: Vec<char> = Vec::new();
    for c in it: s.chars()
        invariant
            v@ == it.seq().take(it.index() as int),
    {
        v.push(c);
    }
    v
}

/// The string made of the characters of `v`, in order.
pub fn string_of(v: &[char]) -> (s: String)
    ensures
        s@ == v@,
{
    let mut s = String::new();
    let mut i: usize = 0;
    while i < v.len()
        invariant
            i <= v.len(),
            s@ == v@.take(i as int),
        decreases v.len() - i,
    {
        s.push(v[i]);
        proof {
            assert(v@.take(i + 1) == v@.take(i as int).push(v@[i as int]));
        }
        i = i + 1;
    }
    proof {
        assert(v@.take(v.len() as int) == v@);
    }
    s
}

/// Whether two strings hold the same characters.
pub fn same_text(a: &str, b: &str) -> (r: bool)
    ensures
        r == (a@ == b@),
{
    let mut ia = a.chars();
    let mut ib = b.chars();
    let ghost mut k: int = 0;
    loop
        invariant
            0 <= k <= a@.len(),
            k <= b@.len(),
            ia.obeys_prophetic_iter_laws(),
            ib.obeys_prophetic_iter_laws(),
            ia.remaining() == a@.skip(k),
            ib.remaining() == b@.skip(k),
            a@.take(k) == b@.take(k),
        decreases a@.len() - k,
    {
        let x = ia.next();
        let y = ib.next();
        match (x, y) {
            (None, None) => {
                proof {
                    assert(a@.take(k) == a@);
                    assert(b@.take(k) == b@);
                }
                return true;
            },
            (Some(c), Some(d)) => {
                if c != d {
                    assert(a@[k] != b@[k]);
                    return false;
                }
                proof {
                    assert(a@.take(k + 1) == a@.take(k).push(a@[k]));
                    assert(b@.take(k + 1) == b@.take(k).push(b@[k]));
                    assert(a@.skip(k).drop_first() == a@.skip(k + 1));
                    assert(b@.skip(k).drop_first() == b@.skip(k + 1));
                    k = k + 1;
                }
            },
            _ => {
                return false;
            },
        }
    }
}

/// Whether two character slices hold the same characters.
pub fn same_chars(a: &[char], b: &[char]) -> (r: bool)
    ensures
        r == (a@ == b@),
{
    if a.len() != b.len() {
        return false;
    }
    let mut i: usize = 0;
    while i < a.len()
        invariant
            i <= a.len(),
            a.len() == b.len(),
            a@.take(i as int) == b@.take(i as int),
        decreases a.len() - i,
    {
        if a[i] != b[i] {
            return false;
        }
        proof {
            assert(a@.take(i + 1) == a@.take(i as int).push(a@[i as int]));
            assert(b@.take(i + 1) == b@.take(i as int).push(b@[i as int]));
        }
        i = i + 1;
    }
    proof {
        assert(a@.take(a.len() as int) == a@);
        assert(b@.take(b.len() as int) == b@);
    }
    true
}

/// Appends the characters of `part` to `out`.
pub fn push_all(out: &mut Vec<char>, part: &[char])
    ensures
        final(out)@ == old(out)@ + part@,
{
    let mut i: usize = 0;
    while i < part.len()
        invariant
            i <= part.len(),
            out@ == old(out)@ + part@.take(i as int),
        decreases part.len() - i,
    {
        out.push(part[i]);
        proof {
            assert(part@.take(i + 1) == part@.take(i as int).push(part@[i as int]));
        }
        i = i + 1;
    }
    proof {
        assert(part@.take(part.len() as int) == part@);
    }
}

/// The characters of `s` from index `from` up to, not including, `to`.
pub fn slice_of(s: &[char], from: usize, to: usize) -> (v: Vec<char>)
    requires
        from <= to <= s.len(),
    ensures
        v@ == s@.subrange(from as int, to as int),
{
    let mut v: Vec<char> = Vec::new();
    let mut i: usize = from;
    while i < to
        invariant
            from <= i <= to <= s.len(),
            v@ == s@.subrange(from as int, i as int),
        decreases to - i,
    {
        v.push(s[i]);
        proof {
            assert(s@.subrange(from as int, i + 1) == s@.subrange(from as int, i as int).push(
                s@[i as int],
            ));
        }
        i = i + 1;
    }
    v
}

/// `a` followed by `b`.
pub fn followed_by(a: &str, b: &str) -> (r: String)
    ensures
        r@ == a@ + b@,
{
    let mut r = String::from_str(a);
    r.append(b);
    r
}

/// `pat` stands in `s` at index `i`.
pub open spec fn occurs_at(s: Seq<char>, pat: Seq<char>, i: int) -> bool {
    0 <= i && i + pat.len() <= s.len() && s.subrange(i, i + pat.len()) == pat
}

/// `pat` stands somewhere in `s`.
pub open spec fn contains(s: Seq<char>, pat: Seq<char>) -> bool {
    exists|i: int| occurs_at(s, pat, i)
}

/// The index of the first `c` in `s`, or the length of `s` where it holds none.
pub open spec fn position(s: Seq<char>, c: char) -> nat
    decreases s.len(),
{
    if s.len() == 0 || s[0] == c {
        0
    } else {
        1 + position(s.drop_first(), c)
    }
}

/// `position` stays within the sequence, points at a `c` when it is inside,
/// and no `c` stands before it.
pub proof fn lemma_position(s: Seq<char>, c: char)
    ensures
        position(s, c) <= s.len(),
        position(s, c) < s.len() ==> s[position(s, c) as int] == c,
        forall|j: int| 0 <= j < position(s, c) ==> s[j] != c,
    decreases s.len(),
{
    if s.len() == 0 || s[0] == c {
    } else {
        lemma_position(s.drop_first(), c);
        assert forall|j: int| 0 <= j < position(s, c) implies s[j] != c by {
            if j > 0 {
                assert(s[j] == s.drop_first()[j - 1]);
            }
        }
    }
}

/// An index is `position(s, c)` once nothing before it is `c` and it either
/// ends the sequence or holds `c`.
pub proof fn lemma_position_is(s: Seq<char>, c: char, i: int)
    requires
        0 <= i <= s.len(),
        forall|j: int| 0 <= j < i ==> s[j] != c,
        i < s.len() ==> s[i] == c,
    ensures
        position(s, c) == i,
{
    lemma_position(s, c);
    let p = position(s, c) as int;
    if p < i {
        assert(s[p] == c);
    } else if p > i {
        assert(s[i] == c);
    }
}

/// Whether `pat` stands in `s` at index `i`.
pub fn occurs_here(s: &[char], pat: &[char], i: usize) -> (r: bool)
    ensures
        r == occurs_at(s@, pat@, i as int),
{
    if pat.len() > s.len() || i > s.len() - pat.len() {
        return false;
    }
    let mut k: usize = 0;
    while k < pat.len()
        invariant
            k <= pat.len(),
            i + pat.len() <= s.len(),
            s@.subrange(i as int, i + k) == pat@.take(k as int),
        decreases pat.len() - k,
    {
        if s[i + k] != pat[k] {
            proof {
                assert(s@.subrange(i as int, i + pat.len())[k as int] == s@[i + k]);
            }
            return false;
        }
        proof {
            assert(s@.subrange(i as int, i + k + 1) == s@.subrange(i as int, i + k).push(
                s@[i + k],
            ));
            assert(pat@.take(k + 1) == pat@.take(k as int).push(pat@[k as int]));
        }
        k = k + 1;
    }
    proof {
        assert(pat@.take(pat.len() as int) == pat@);
    }
    true
}

/// Whether `s` begins with `prefix`.
pub fn starts_with(s: &[char], prefix: &[char]) -> (r: bool)
    ensures
        r == prefix@.is_prefix_of(s@),
{
    occurs_here(s, prefix, 0)
}

/// Whether `pat` stands somewhere in `s`.
pub fn has_part(s: &[char], pat: &[char]) -> (r: bool)
    ensures
        r == contains(s@, pat@),
{
    if pat.len() > s.len() {
        return false;
    }
    let last: usize = s.len() - pat.len();
    let mut i: usize = 0;
    loop
        invariant
            i <= last,
            last == s.len() - pat.len(),
            forall|j: int| 0 <= j < i ==> !occurs_at(s@, pat@, j),
        decreases last - i,
    {
        if occurs_here(s, pat, i) {
            return true;
        }
        if i == last {
            return false;
        }
        i = i + 1;
    }
}

/// The index of the first `c` in `s`, or the length of `s` where it holds none.
pub fn find_char(s: &[char], c: char) -> (i: usize)
    ensures
        i == position(s@, c),
{
    let mut i: usize = 0;
    while i < s.len() && s[i] != c
        invariant
            i <= s.len(),
            forall|j: int| 0 <= j < i ==> s@[j] != c,
        decreases s.len() - i,
    {
        i = i + 1;
    }
    proof {
        lemma_position_is(s@, c, i as int);
    }
    i
}

/// The index of the first `c` in `s` at or after `from`, or the length of
/// `s` where none follows.
pub fn find_char_from(s: &[char], c: char, from: usize) -> (i: usize)
    requires
        from <= s.len(),
    ensures
        from <= i <= s.len(),
        i == from + position(s@.skip(from as int), c),
{
    let mut i: usize = from;
    while i < s.len() && s[i] != c
        invariant
            from <= i <= s.len(),
            forall|j: int| from <= j < i ==> s@[j] != c,
        decreases s.len() - i,
    {
        i = i + 1;
    }
    proof {
        lemma_position_is(s@.skip(from as int), c, i - from);
    }
    i
}

/// The text before the first `c` of `s`; all of `s` where it holds none.
pub open spec fn before(s: Seq<char>, c: char) -> Seq<char> {
    s.take(position(s, c) as int)
}

/// The text after the first `c` of `s`; nothing where it holds none.
pub open spec fn after(s: Seq<char>, c: char) -> Seq<char> {
    if position(s, c) < s.len() {
        s.skip(position(s, c) as int + 1)
    } else {
        Seq::empty()
    }
}

/// `s` with every `from` turned into `to`.
pub open spec fn swap_char(s: Seq<char>, from: char, to: char) -> Seq<char> {
    Seq::new(
        s.len(),
        |i: int|
            if s[i] == from {
                to
            } else {
                s[i]
            },
    )
}

/// `s` with every `from` turned into `to`.
pub fn replace_char(s: &[char], from: char, to: char) -> (v: Vec<char>)
    ensures
        v@ == swap_char(s@, from, to),
{
    let mut v: Vec<char> = Vec::new();
    let mut i: usize = 0;
    while i < s.len()
        invariant
            i <= s.len(),
            v@ == swap_char(s@, from, to).take(i as int),
        decreases s.len() - i,
    {
        let c = s[i];
        if c == from {
            v.push(to);
        } else {
            v.push(c);
        }
        proof {
            let t = swap_char(s@, from, to);
            assert(t.take(i + 1) == t.take(i as int).push(t[i as int]));
        }
        i = i + 1;
    }
    proof {
        let t = swap_char(s@, from, to);
        assert(t.take(s.len() as int) == t);
    }
    v
}

/// `s` with each occurrence of `pat` replaced by `to`, read from the left;
/// occurrences do not overlap. An empty `pat` replaces nothing.
pub open spec fn replace_all(s: Seq<char>, pat: Seq<char>, to: Seq<char>) -> Seq<char>
    decreases s.len(),
{
    if pat.len() == 0 || s.len() < pat.len() {
        s
    } else if occurs_at(s, pat, 0) {
        to + replace_all(s.skip(pat.len() as int), pat, to)
    } else {
        seq![s[0]] + replace_all(s.skip(1), pat, to)
    }
}

/// `s` with each occurrence of `pat` replaced by `to`.
pub fn replace(s: &[char], pat: &[char], to: &[char]) -> (v: Vec<char>)
    ensures
        v@ == replace_all(s@, pat@, to@),
{
    let mut v: Vec<char> = Vec::new();
    if pat.len() == 0 {
        push_all(&mut v, s);
        return v;
    }
    let mut i: usize = 0;
    proof {
        assert(s@.skip(0) == s@);
        assert(v@ + replace_all(s@, pat@, to@) == replace_all(s@, pat@, to@));
    }
    while i < s.len()
        invariant
            i <= s.len(),
            pat.len() > 0,
            v@ + replace_all(s@.skip(i as int), pat@, to@) == replace_all(s@, pat@, to@),
        decreases s.len() - i,
    {
        let ghost rest = s@.skip(i as int);
        if occurs_here(s, pat, i) {
            proof {
                assert(rest.subrange(0, pat.len() as int) == s@.subrange(
                    i as int,
                    i + pat.len(),
                ));
                assert(rest.skip(pat.len() as int) == s@.skip(i + pat.len()));
                assert(v@ + (to@ + replace_all(rest.skip(pat.len() as int), pat@, to@)) == (v@
                    + to@) + replace_all(rest.skip(pat.len() as int), pat@, to@));
            }
            push_all(&mut v, to);
            i = i + pat.len();
        } else {
            proof {
                if rest.len() >= pat.len() {
                    assert(rest.subrange(0, pat.len() as int) == s@.subrange(
                        i as int,
                        i + pat.len(),
                    ));
                }
            }
            if s.len() - i < pat.len() {
                proof {
                    assert(v@ + rest == v@ + s@.subrange(i as int, s.len() as int));
                }
                let tail = slice_of(s, i, s.len());
                push_all(&mut v, tail.as_slice());
                i = s.len();
                proof {
                    assert(s@.skip(s.len() as int) == Seq::<char>::empty());
                    assert(replace_all(Seq::<char>::empty(), pat@, to@) == Seq::<char>::empty());
                }
            } else {
                proof {
                    assert(rest.skip(1) == s@.skip(i + 1));
                    assert(v@ + (seq![rest[0]] + replace_all(rest.skip(1), pat@, to@)) == v@.push(
                        s@[i as int],
                    ) + replace_all(rest.skip(1), pat@, to@));
                }
                v.push(s[i]);
                i = i + 1;
            }
        }
    }
    proof {
        assert(s@.skip(s.len() as int) == Seq::<char>::empty());
        assert(v@ + Seq::<char>::empty() == v@);
    }
    v
}

/// The characters with the Unicode property `White_Space`.
pub open spec fn is_whitespace(c: char) -> bool {
    let n = c as u32;
    ||| 0x09 <= n <= 0x0d
    ||| n == 0x20
    ||| n == 0x85
    ||| n == 0xa0
    ||| n == 0x1680
    ||| 0x2000 <= n <= 0x200a
    ||| n == 0x2028
    ||| n == 0x2029
    ||| n == 0x202f
    ||| n == 0x205f
    ||| n == 0x3000
}

/// What a trim takes away from the ends of a text.
#[derive(Debug, Clone, Copy)]
pub enum Strip {
    /// Every character with the property `White_Space`.
    Whitespace,
    /// One given character.
    Char(char),
}

impl Strip {
    /// Whether the trim takes `c` away.
    pub open spec fn takes(self, c: char) -> bool {
        match self {
            Strip::Whitespace => is_whitespace(c),
            Strip::Char(d) => c == d,
        }
    }

    /// Whether the trim takes `c` away.
    pub fn test(self, c: char) -> (r: bool)
        ensures
            r == self.takes(c),
    {
        match self {
            Strip::Whitespace => {
                let n: u32 = c as u32;
                (0x09 <= n && n <= 0x0d) || n == 0x20 || n == 0x85 || n == 0xa0 || n == 0x1680 || (
                0x2000 <= n && n <= 0x200a) || n == 0x2028 || n == 0x2029 || n == 0x202f || n
                    == 0x205f || n == 0x3000
            },
            Strip::Char(d) => c == d,
        }
    }
}

/// How many characters at the front of `s` the trim takes away.
pub open spec fn leading(s: Seq<char>, strip: Strip) -> nat
    decreases s.len(),
{
    if s.len() > 0 && strip.takes(s[0]) {
        1 + leading(s.drop_first(), strip)
    } else {
        0
    }
}

/// How many characters at the back of `s` the trim takes away.
pub open spec fn trailing(s: Seq<char>, strip: Strip) -> nat
    decreases s.len(),
{
    if s.len() > 0 && strip.takes(s.last()) {
        1 + trailing(s.drop_last(), strip)
    } else {
        0
    }
}

/// `s` without the characters that the trim takes away at its front and,
/// of what is left, at its back.
pub open spec fn trimmed(s: Seq<char>, strip: Strip) -> Seq<char> {
    let rest = s.skip(leading(s, strip) as int);
    rest.take(rest.len() - trailing(rest, strip))
}

/// The front count stays within the sequence, everything before it is
/// taken, and the character at it, if any, is kept.
pub proof fn lemma_leading(s: Seq<char>, strip: Strip)
    ensures
        leading(s, strip) <= s.len(),
        forall|j: int| 0 <= j < leading(s, strip) ==> strip.takes(s[j]),
        leading(s, strip) < s.len() ==> !strip.takes(s[leading(s, strip) as int]),
    decreases s.len(),
{
    if s.len() > 0 && strip.takes(s[0]) {
        let t = s.drop_first();
        lemma_leading(t, strip);
        assert forall|j: int| 0 <= j < leading(s, strip) implies strip.takes(s[j]) by {
            if j > 0 {
                assert(s[j] == t[j - 1]);
            }
        }
        if leading(s, strip) < s.len() {
            assert(s[leading(s, strip) as int] == t[leading(t, strip) as int]);
        }
    }
}

/// The back count stays within the sequence, everything in it is taken,
/// and the character before it, if any, is kept.
pub proof fn lemma_trailing(s: Seq<char>, strip: Strip)
    ensures
        trailing(s, strip) <= s.len(),
        forall|j: int| s.len() - trailing(s, strip) <= j < s.len() ==> strip.takes(s[j]),
        trailing(s, strip) < s.len() ==> !strip.takes(s[s.len() - trailing(s, strip) - 1]),
    decreases s.len(),
{
    if s.len() > 0 && strip.takes(s.last()) {
        let t = s.drop_last();
        lemma_trailing(t, strip);
        assert forall|j: int| s.len() - trailing(s, strip) <= j < s.len() implies strip.takes(
            s[j],
        ) by {
            if j < s.len() - 1 {
                assert(s[j] == t[j]);
            }
        }
        if trailing(s, strip) < s.len() {
            assert(s[s.len() - trailing(s, strip) - 1] == t[t.len() - trailing(t, strip) - 1]);
        }
    }
}

/// A count is `leading(s, strip)` once everything before it is taken and
/// the character at it, if any, is kept.
pub proof fn lemma_leading_is(s: Seq<char>, strip: Strip, n: int)
    requires
        0 <= n <= s.len(),
        forall|j: int| 0 <= j < n ==> strip.takes(s[j]),
        n < s.len() ==> !strip.takes(s[n]),
    ensures
        leading(s, strip) == n,
{
    lemma_leading(s, strip);
    let p = leading(s, strip) as int;
    if p < n {
        assert(strip.takes(s[p]));
    } else if p > n {
        assert(strip.takes(s[n]));
    }
}

/// A count is `trailing(s, strip)` once everything in it is taken and the
/// character before it, if any, is kept.
pub proof fn lemma_trailing_is(s: Seq<char>, strip: Strip, n: int)
    requires
        0 <= n <= s.len(),
        forall|j: int| s.len() - n <= j < s.len() ==> strip.takes(s[j]),
        n < s.len() ==> !strip.takes(s[s.len() - n - 1]),
    ensures
        trailing(s, strip) == n,
{
    lemma_trailing(s, strip);
    let p = trailing(s, strip) as int;
    if p < n {
        assert(strip.takes(s[s.len() - p - 1]));
    } else if p > n {
        assert(strip.takes(s[s.len() - n - 1]));
    }
}

/// `s` without what the trim takes away at both ends.
pub fn trim(s: &[char], strip: Strip) -> (v: Vec<char>)
    ensures
        v@ == trimmed(s@, strip),
{
    let mut lo: usize = 0;
    while lo < s.len() && strip.test(s[lo])
        invariant
            lo <= s.len(),
            forall|j: int| 0 <= j < lo ==> strip.takes(s@[j]),
        decreases s.len() - lo,
    {
        lo = lo + 1;
    }
    let mut hi: usize = s.len();
    while hi > lo && strip.test(s[hi - 1])
        invariant
            lo <= hi <= s.len(),
            forall|j: int| hi <= j < s.len() ==> strip.takes(s@[j]),
        decreases hi - lo,
    {
        hi = hi - 1;
    }
    proof {
        lemma_leading_is(s@, strip, lo as int);
        let rest = s@.skip(lo as int);
        lemma_trailing_is(rest, strip, s.len() - hi);
        assert(rest.take(rest.len() - (s.len() - hi)) == s@.subrange(lo as int, hi as int));
    }
    slice_of(s, lo, hi)
}

/// The character for one digit below sixteen: `0` to `9`, `a` to `f`.
pub open spec fn digit(d: nat) -> char {
    if d < 10 {
        ('0' as int + d) as char
    } else {
        ('a' as int + d - 10) as char
    }
}

/// The decimal numeral of `n`, without leading zeros.
pub open spec fn decimal(n: nat) -> Seq<char>
    decreases n,
{
    if n < 10 {
        seq![digit(n)]
    } else {
        decimal(n / 10).push(digit(n % 10))
    }
}

/// The hexadecimal numeral of `n` in lower case, without leading zeros.
pub open spec fn hex(n: nat) -> Seq<char>
    decreases n,
{
    if n < 16 {
        seq![digit(n)]
    } else {
        hex(n / 16).push(digit(n % 16))
    }
}

/// The decimal numeral of an integer, with `-` before a negative one.
pub open spec fn signed_decimal(i: int) -> Seq<char> {
    if i < 0 {
        seq!['-'] + decimal((-i) as nat)
    } else {
        decimal(i as nat)
    }
}

/// The character for one digit below sixteen.
pub fn digit_char(d: u8) -> (c: char)
    requires
        d < 16,
    ensures
        c == digit(d as nat),
{
    if d < 10 {
        (48u8 + d) as char
    } else {
        (87u8 + d) as char
    }
}

/// Appends the decimal numeral of `n` to `out`.
pub fn push_decimal(out: &mut String, n: u64)
    ensures
        final(out)@ == old(out)@ + decimal(n as nat),
    decreases n,
{
    if n >= 10 {
        push_decimal(out, n / 10);
    }
    out.push(digit_char((n % 10) as u8));
    proof {
        if n >= 10 {
            assert(old(out)@ + decimal(n as nat / 10).push(digit(n as nat % 10)) == (old(out)@
                + decimal(n as nat / 10)).push(digit(n as nat % 10)));
        } else {
            assert(old(out)@ + seq![digit(n as nat)] == old(out)@.push(digit(n as nat)));
        }
    }
}

/// Appends the lower-case hexadecimal numeral of `n` to `out`.
pub fn push_hex(out: &mut String, n: u64)
    ensures
        final(out)@ == old(out)@ + hex(n as nat),
    decreases n,
{
    if n >= 16 {
        push_hex(out, n / 16);
    }
    out.push(digit_char((n % 16) as u8));
    proof {
        if n >= 16 {
            assert(old(out)@ + hex(n as nat / 16).push(digit(n as nat % 16)) == (old(out)@ + hex(
                n as nat / 16,
            )).push(digit(n as nat % 16)));
        } else {
            assert(old(out)@ + seq![digit(n as nat)] == old(out)@.push(digit(n as nat)));
        }
    }
}

/// Appends the decimal numeral of `i` to `out`, with `-` before a negative one.
pub fn push_signed(out: &mut String, i: i32)
    ensures
        final(out)@ == old(out)@ + signed_decimal(i as int),
{
    if i < 0 {
        out.push('-');
        let m: i64 = -(i as i64);
        push_decimal(out, m as u64);
        proof {
            assert(old(out)@.push('-') + decimal((-i) as nat) == old(out)@ + (seq!['-'] + decimal(
                (-i) as nat,
            )));
        }
    } else {
        push_decimal(out, i as u64);
    }
}

} // verus!
