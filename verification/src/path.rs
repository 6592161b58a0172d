//! Paths as text, with `/` between their segments.

use crate::text::{chars_of, lemma_trailing_is, slice_of, trailing, Strip};
use vstd::prelude::*;

verus! {

/// `part` adjoined to `base`: an absolute `part` stands alone; otherwise
/// `part` follows `base`, with one `/` between them unless `base` is empty
/// or ends in one already.
pub open spec fn join(base: Seq<char>, part: Seq<char>) -> Seq<char> {
    if part.len() > 0 && part[0] == '/' {
        part
    } else if base.len() == 0 || base.last() == '/' {
        base + part
    } else {
        base.push('/') + part
    }
}

/// `part` adjoined to `base`.
pub fn join_path(base: &str, part: &str) -> (r: String)
    ensures
        r@ == join(base@, part@),
{
    let p = chars_of(part);
    if p.len() > 0 && p[0] == '/' {
        return String::from_str(part);
    }
    let b = chars_of(base);
    let mut r = String::from_str(base);
    if b.len() > 0 && b[b.len() - 1] != '/' {
        r.push('/');
    }
    r.append(part);
    r
}

/// The index just after the last `c` in `s`, or 0 where it holds none.
pub open spec fn after_last(s: Seq<char>, c: char) -> nat
    decreases s.len(),
{
    if s.len() == 0 || s.last() == c {
        s.len()
    } else {
        after_last(s.drop_last(), c)
    }
}

/// `after_last` stays within the sequence, a `c` stands just before it
/// unless it is 0, and no `c` stands at or after it.
pub proof fn lemma_after_last(s: Seq<char>, c: char)
    ensures
        after_last(s, c) <= s.len(),
        after_last(s, c) > 0 ==> s[after_last(s, c) - 1] == c,
        forall|j: int| after_last(s, c) <= j < s.len() ==> s[j] != c,
    decreases s.len(),
{
    if s.len() == 0 || s.last() == c {
    } else {
        let t = s.drop_last();
        lemma_after_last(t, c);
        assert forall|j: int| after_last(s, c) <= j < s.len() implies s[j] != c by {
            if j < s.len() - 1 {
                assert(s[j] == t[j]);
            }
        }
        if after_last(s, c) > 0 {
            assert(s[after_last(s, c) - 1] == t[after_last(t, c) - 1]);
        }
    }
}

/// The last segment of a path: what follows its last `/`.
pub open spec fn file_name(path: Seq<char>) -> Seq<char> {
    path.skip(after_last(path, '/') as int)
}

/// The extension of a path: what follows the last `.` of its last segment,
/// where that segment holds a `.` other than as its first character.
pub open spec fn extension(path: Seq<char>) -> Option<Seq<char>> {
    let name = file_name(path);
    let k = after_last(name, '.');
    if k <= 1 {
        None
    } else {
        Some(name.skip(k as int))
    }
}

/// The index just after the last `c` in `s`, or 0 where it holds none.
pub fn find_after_last(s: &[char], c: char) -> (i: usize)
    ensures
        i == after_last(s@, c),
{
    let mut i: usize = s.len();
    proof {
        assert(s@.take(s.len() as int) == s@);
    }
    while i > 0 && s[i - 1] != c
        invariant
            i <= s.len(),
            after_last(s@, c) == after_last(s@.take(i as int), c),
        decreases i,
    {
        proof {
            assert(s@.take(i as int).drop_last() == s@.take(i - 1));
        }
        i = i - 1;
    }
    i
}

/// The extension of a path, if it has one.
pub fn extension_of(path: &[char]) -> (r: Option<Vec<char>>)
    ensures
        match extension(path@) {
            Some(e) => r matches Some(v) && v@ == e,
            None => r is None,
        },
{
    let start = find_after_last(path, '/');
    proof {
        lemma_after_last(path@, '/');
    }
    let name = slice_of(path, start, path.len());
    let k = find_after_last(name.as_slice(), '.');
    if k <= 1 {
        None
    } else {
        proof {
            lemma_after_last(name@, '.');
        }
        Some(slice_of(name.as_slice(), k, name.len()))
    }
}

/// The name of the directory or file that a path ends in: its last
/// segment, trailing `/` set aside. Empty for a path made of `/` alone.
pub open spec fn last_segment(path: Seq<char>) -> Seq<char> {
    file_name(path.take(path.len() - trailing(path, Strip::Char('/'))))
}

/// The name of the directory or file that a path ends in.
pub fn last_segment_of(path: &[char]) -> (r: Vec<char>)
    ensures
        r@ == last_segment(path@),
{
    let mut end: usize = path.len();
    while end > 0 && path[end - 1] == '/'
        invariant
            end <= path.len(),
            forall|j: int| end <= j < path.len() ==> path@[j] == '/',
        decreases end,
    {
        end = end - 1;
    }
    proof {
        lemma_trailing_is(path@, Strip::Char('/'), path.len() - end);
    }
    let body = slice_of(path, 0, end);
    let start = find_after_last(body.as_slice(), '/');
    proof {
        lemma_after_last(body@, '/');
        assert(body@ == path@.take(end as int));
        assert(body@.subrange(start as int, body.len() as int) == body@.skip(start as int));
    }
    slice_of(body.as_slice(), start, body.len())
}

} // verus!
