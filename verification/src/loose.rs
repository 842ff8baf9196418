//! Fallback reading of a stream data line that is not standard JSON.
//!
//! The first of the markers `"content"`, `"reasoning_content"`, `"thought"` and
//! `"arguments"` found in the line is followed to its `:`; when a quoted string
//! comes next, its first characters (at most [`LOOSE_MAX_CHARS`]) are taken, with the
//! escapes `\n`, `\t`, `\r` decoded and any other escaped character kept as it is.

use vstd::prelude::*;

use crate::text::{
    chars_of, find, find_chars, push_char, string_of, sub_chars, trim_start, trim_start_chars,
};

verus! {

broadcast use vstd::string::group_string_axioms;

/// Most characters taken from a loosely read line.
pub const LOOSE_MAX_CHARS: usize = 40;

/// The first marker that occurs in `s`, with its position.
pub open spec fn marker_position(s: Seq<char>) -> Option<int> {
    match find(s, "\"content\""@) {
        Some(i) => Some(i),
        None => match find(s, "\"reasoning_content\""@) {
            Some(i) => Some(i),
            None => match find(s, "\"thought\""@) {
                Some(i) => Some(i),
                None => find(s, "\"arguments\""@),
            },
        },
    }
}

/// The character that an escape `\e` stands for.
pub open spec fn unescaped(e: char) -> char {
    if e == 'n' {
        '\n'
    } else if e == 't' {
        '\t'
    } else if e == 'r' {
        '\r'
    } else {
        e
    }
}

/// Reads quoted text `s` (the opening quote already consumed) after `out` was read:
/// stops at the closing quote, at the end of `s`, or once `out` holds
/// [`LOOSE_MAX_CHARS`] characters. A lone `\` at the end of `s` is dropped.
pub open spec fn unquote(s: Seq<char>, out: Seq<char>) -> Seq<char>
    decreases s.len(),
{
    if s.len() == 0 || s[0] == '"' {
        out
    } else if s[0] == '\\' {
        if s.len() >= 2 {
            let next = out.push(unescaped(s[1]));
            if next.len() >= LOOSE_MAX_CHARS {
                next
            } else {
                unquote(s.subrange(2, s.len() as int), next)
            }
        } else {
            if out.len() >= LOOSE_MAX_CHARS {
                out
            } else {
                unquote(s.subrange(1, s.len() as int), out)
            }
        }
    } else {
        let next = out.push(s[0]);
        if next.len() >= LOOSE_MAX_CHARS {
            next
        } else {
            unquote(s.drop_first(), next)
        }
    }
}

/// What is read loosely from the data line `data`.
pub open spec fn loose_content_of(data: Seq<char>) -> Option<Seq<char>> {
    match marker_position(data) {
        None => None,
        Some(idx) => {
            let after = data.subrange(idx, data.len() as int);
            match find(after, seq![':']) {
                None => None,
                Some(colon) => {
                    let rest = trim_start(after.subrange(colon + 1, after.len() as int));
                    if rest.len() > 0 && rest[0] == '"' {
                        let out = unquote(rest.drop_first(), Seq::empty());
                        if out.len() == 0 {
                            None
                        } else {
                            Some(out)
                        }
                    } else {
                        None
                    }
                },
            }
        },
    }
}

/// The text that was read never exceeds the limit when it started below it.
pub proof fn lemma_unquote_bounded(s: Seq<char>, out: Seq<char>)
    requires
        out.len() < LOOSE_MAX_CHARS,
    ensures
        unquote(s, out).len() <= LOOSE_MAX_CHARS,
        out.len() <= unquote(s, out).len(),
        unquote(s, out).take(out.len() as int) == out,
    decreases s.len(),
{
    if s.len() == 0 || s[0] == '"' {
        assert(out.take(out.len() as int) =~= out);
    } else if s[0] == '\\' {
        if s.len() >= 2 {
            let next = out.push(unescaped(s[1]));
            if next.len() < LOOSE_MAX_CHARS {
                lemma_unquote_bounded(s.subrange(2, s.len() as int), next);
                assert(unquote(s, out).take(next.len() as int).take(out.len() as int) =~= next.take(
                    out.len() as int,
                ));
                assert(unquote(s, out).take(next.len() as int).take(out.len() as int)
                    =~= unquote(s, out).take(out.len() as int));
                assert(next.take(out.len() as int) =~= out);
            } else {
                assert(next.take(out.len() as int) =~= out);
            }
        } else {
            lemma_unquote_bounded(s.subrange(1, s.len() as int), out);
        }
    } else {
        let next = out.push(s[0]);
        if next.len() < LOOSE_MAX_CHARS {
            lemma_unquote_bounded(s.drop_first(), next);
            assert(unquote(s, out).take(next.len() as int).take(out.len() as int) =~= next.take(
                out.len() as int,
            ));
            assert(unquote(s, out).take(next.len() as int).take(out.len() as int)
                =~= unquote(s, out).take(out.len() as int));
            assert(next.take(out.len() as int) =~= out);
        } else {
            assert(next.take(out.len() as int) =~= out);
        }
    }
}

/// Whatever is read loosely is non-empty and at most [`LOOSE_MAX_CHARS`] characters long.
pub proof fn loose_content_bounded(data: Seq<char>)
    ensures
        loose_content_of(data) matches Some(t) ==> 0 < t.len() <= LOOSE_MAX_CHARS,
{
    match marker_position(data) {
        None => {},
        Some(idx) => {
            let after = data.subrange(idx, data.len() as int);
            match find(after, seq![':']) {
                None => {},
                Some(colon) => {
                    let rest = trim_start(after.subrange(colon + 1, after.len() as int));
                    if rest.len() > 0 && rest[0] == '"' {
                        lemma_unquote_bounded(rest.drop_first(), Seq::empty());
                    }
                },
            }
        },
    }
}

fn unescaped_exec(e: char) -> (r: char)
    ensures
        r == unescaped(e),
{
    if e == 'n' {
        '\n'
    } else if e == 't' {
        '\t'
    } else if e == 'r' {
        '\r'
    } else {
        e
    }
}

/// Reads the quoted text `s` whose opening quote was already consumed.
fn unquote_exec(s: &[char]) -> (r: String)
    ensures
        r@ == unquote(s@, Seq::empty()),
{
    let n = s.len();
    let mut out = String::new();
    let mut count: usize = 0;
    let mut i: usize = 0;
    assert(s@.subrange(0, n as int) =~= s@);
    while i < n
        invariant
            n == s@.len(),
            i <= n,
            count == out@.len(),
            count < LOOSE_MAX_CHARS,
            unquote(s@, Seq::empty()) == unquote(s@.subrange(i as int, n as int), out@),
        decreases n - i,
    {
        let ghost rest = s@.subrange(i as int, n as int);
        let c = s[i];
        if c == '"' {
            return out;
        }
        if c == '\\' {
            if i + 1 < n {
                push_char(&mut out, unescaped_exec(s[i + 1]));
                count = count + 1;
                assert(rest.subrange(2, rest.len() as int) =~= s@.subrange(i + 2, n as int));
                i = i + 2;
            } else {
                assert(rest.subrange(1, rest.len() as int) =~= s@.subrange(i + 1, n as int));
                i = i + 1;
            }
        } else {
            push_char(&mut out, c);
            count = count + 1;
            assert(rest.drop_first() =~= s@.subrange(i + 1, n as int));
            i = i + 1;
        }
        if count >= LOOSE_MAX_CHARS {
            return out;
        }
    }
    out
}

/// Reads the first marker's quoted value from a data line that is not standard JSON.
pub fn loose_content(data: &str) -> (r: Option<String>)
    ensures
        r matches Some(t) ==> loose_content_of(data@) == Some(t@),
        r is None ==> loose_content_of(data@) is None,
{
    let cs = chars_of(data);
    let m0 = chars_of("\"content\"");
    let m1 = chars_of("\"reasoning_content\"");
    let m2 = chars_of("\"thought\"");
    let m3 = chars_of("\"arguments\"");
    let mut idx = find_chars(cs.as_slice(), m0.as_slice(), 0);
    if idx.is_none() {
        idx = find_chars(cs.as_slice(), m1.as_slice(), 0);
    }
    if idx.is_none() {
        idx = find_chars(cs.as_slice(), m2.as_slice(), 0);
    }
    if idx.is_none() {
        idx = find_chars(cs.as_slice(), m3.as_slice(), 0);
    }
    let idx = match idx {
        Some(i) => i,
        None => {
            return None;
        },
    };
    proof {
        crate::text::lemma_find_from_bounds(cs@, m0@, 0);
        crate::text::lemma_find_from_bounds(cs@, m1@, 0);
        crate::text::lemma_find_from_bounds(cs@, m2@, 0);
        crate::text::lemma_find_from_bounds(cs@, m3@, 0);
    }
    let after = sub_chars(cs.as_slice(), idx, cs.len());
    let colon_pat = [':'];
    assert(colon_pat@ =~= seq![':']);
    let colon = match find_chars(after.as_slice(), &colon_pat, 0) {
        Some(k) => k,
        None => {
            return None;
        },
    };
    proof {
        crate::text::lemma_find_from_bounds(after@, seq![':'], 0);
    }
    let tail = sub_chars(after.as_slice(), colon + 1, after.len());
    let rest = trim_start_chars(tail.as_slice());
    if !(rest.len() > 0 && rest[0] == '"') {
        return None;
    }
    let body = sub_chars(rest.as_slice(), 1, rest.len());
    assert(body@ =~= rest@.drop_first());
    let out = unquote_exec(body.as_slice());
    if out.as_str().is_empty() {
        None
    } else {
        Some(out)
    }
}

} // verus!
