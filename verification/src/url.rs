//! The chat-completions address of an endpoint.
//!
//! The configured address may be a base address (`https://host`, `https://host/v1`)
//! or the full chat address; surrounding white space and trailing slashes are ignored.

use vstd::prelude::*;

use crate::text::{
    chars_of, ends_with, ends_with_chars, find, find_chars, is_white_space, lemma_trim_end_char_shape,
    lemma_trim_end_shape, lemma_trim_identity, lemma_trim_start_shape, occurs_at, push_chars, find_from, push_text,
    string_of, trim, trim_chars, trim_end_char, trim_end_char_chars, trim_start,
};

verus! {

broadcast use vstd::string::group_string_axioms;

/// The path of the chat-completions resource.
pub open spec fn chat_path() -> Seq<char> {
    "/chat/completions"@
}

/// The versioned path of the chat-completions resource.
pub open spec fn v1_chat_path() -> Seq<char> {
    "/v1/chat/completions"@
}

/// A configured address with surrounding white space and trailing slashes removed.
pub open spec fn normalized_base(base: Seq<char>) -> Seq<char> {
    trim_end_char(trim(base), '/')
}

/// The chat-completions address for a configured address.
pub open spec fn chat_url_of(base: Seq<char>) -> Seq<char> {
    let t = normalized_base(base);
    if ends_with(t, chat_path()) {
        t
    } else if ends_with(t, "/v1"@) || find(t, "/v1/"@) is Some {
        t + chat_path()
    } else {
        t + v1_chat_path()
    }
}

/// The chat-completions address for the configured address `base`.
pub fn chat_url(base: &str) -> (r: String)
    ensures
        r@ == chat_url_of(base@),
{
    let cs = chars_of(base);
    let trimmed = trim_chars(cs.as_slice());
    let t = trim_end_char_chars(trimmed.as_slice(), '/');
    let chat = chars_of("/chat/completions");
    let mut out = string_of(t.as_slice());
    if ends_with_chars(t.as_slice(), chat.as_slice()) {
        return out;
    }
    let v1 = chars_of("/v1");
    let v1_dir = chars_of("/v1/");
    if ends_with_chars(t.as_slice(), v1.as_slice()) || find_chars(
        t.as_slice(),
        v1_dir.as_slice(),
        0,
    ).is_some() {
        push_chars(&mut out, chat.as_slice());
    } else {
        push_text(&mut out, "/v1/chat/completions");
    }
    out
}

/// The character sequences of the fixed paths.
proof fn lemma_paths()
    ensures
        chat_path().len() == 17,
        chat_path()[0] == '/',
        chat_path().last() == 's',
        v1_chat_path().len() == 20,
        v1_chat_path()[0] == '/',
        v1_chat_path().last() == 's',
        v1_chat_path().subrange(3, 20) == chat_path(),
{
    reveal_strlit("/chat/completions");
    reveal_strlit("/v1/chat/completions");
    assert(v1_chat_path().subrange(3, 20) =~= chat_path());
}

/// A normalized address starts with a non-white-space character and does not end with '/'.
proof fn lemma_normalized_shape(base: Seq<char>)
    ensures
        normalized_base(base).len() > 0 ==> !is_white_space(normalized_base(base)[0]),
        normalized_base(base).len() > 0 ==> normalized_base(base).last() != '/',
{
    let s = trim_start(base);
    lemma_trim_start_shape(base);
    lemma_trim_end_shape(s);
    lemma_trim_end_char_shape(trim(base), '/');
    let t = normalized_base(base);
    if t.len() > 0 {
        assert(t[0] == trim(base)[0]);
        assert(trim(base)[0] == s[0]);
    }
}

/// The chat address always ends with `/chat/completions`.
pub proof fn chat_url_ends_with_chat_path(base: Seq<char>)
    ensures
        ends_with(chat_url_of(base), chat_path()),
        chat_url_of(base).len() > 0,
        chat_url_of(base).last() == 's',
        !is_white_space(chat_url_of(base)[0]),
{
    lemma_paths();
    lemma_normalized_shape(base);
    let t = normalized_base(base);
    let r = chat_url_of(base);
    if ends_with(t, chat_path()) {
        assert(r.last() == r.subrange(r.len() - 17, r.len() as int)[16]);
    } else if ends_with(t, "/v1"@) || find(t, "/v1/"@) is Some {
        assert(r.subrange(r.len() - 17, r.len() as int) =~= chat_path());
        assert(r.last() == chat_path()[16]);
        if t.len() == 0 {
            assert(r[0] == chat_path()[0]);
        } else {
            assert(r[0] == t[0]);
        }
    } else {
        assert(r.subrange(r.len() - 17, r.len() as int) =~= v1_chat_path().subrange(3, 20));
        assert(r.last() == v1_chat_path()[19]);
        if t.len() == 0 {
            assert(r[0] == v1_chat_path()[0]);
        } else {
            assert(r[0] == t[0]);
        }
    }
}

/// The chat address of a chat address is itself: a full address is accepted as it is.
pub proof fn chat_url_idempotent(base: Seq<char>)
    ensures
        chat_url_of(chat_url_of(base)) == chat_url_of(base),
{
    let r = chat_url_of(base);
    chat_url_ends_with_chat_path(base);
    lemma_trim_identity(r);
    assert(trim_end_char(r, '/') == r);
}

/// The chat address starts with the normalized configured address.
pub proof fn chat_url_extends_base(base: Seq<char>)
    ensures
        chat_url_of(base).len() >= normalized_base(base).len(),
        chat_url_of(base).take(normalized_base(base).len() as int) == normalized_base(base),
{
    let t = normalized_base(base);
    let r = chat_url_of(base);
    if ends_with(t, chat_path()) {
        assert(r.take(t.len() as int) =~= t);
    } else if ends_with(t, "/v1"@) || find(t, "/v1/"@) is Some {
        assert(r.take(t.len() as int) =~= t);
    } else {
        assert(r.take(t.len() as int) =~= t);
    }
}

/// When `p` occurs nowhere in `s`, `find` finds nothing.
proof fn lemma_find_none(s: Seq<char>, p: Seq<char>)
    requires
        forall|i: int| !#[trigger] occurs_at(s, p, i),
    ensures
        find(s, p) is None,
{
    crate::text::lemma_find_from_bounds(s, p, 0);
}

/// When `p` occurs in `s`, `find` finds it.
proof fn lemma_find_some(s: Seq<char>, p: Seq<char>, i: int)
    requires
        occurs_at(s, p, i),
    ensures
        find(s, p) is Some,
    decreases i,
{
    lemma_find_from_some(s, p, 0, i);
}

proof fn lemma_find_from_some(s: Seq<char>, p: Seq<char>, j: int, i: int)
    requires
        0 <= j <= i,
        occurs_at(s, p, i),
    ensures
        find_from(s, p, j) is Some,
    decreases i - j,
{
    if !occurs_at(s, p, j) {
        lemma_find_from_some(s, p, j + 1, i);
    }
}

/// Which suffix the chat address gets, for a configured address whose normalized
/// form is `t`:
/// - a full chat address (`t` ends with `/chat/completions`) is taken as it is;
/// - a versioned base (`t` ends with `/v1` or holds `/v1/`) gets `/chat/completions`;
/// - any other base gets `/v1/chat/completions`.
pub proof fn chat_url_suffix_rule(base: Seq<char>)
    ensures
        ({
            let t = trim_end_char(trim(base), '/');
            let versioned = ends_with(t, "/v1"@) || exists|i: int| #[trigger] occurs_at(t, "/v1/"@, i);
            &&& ends_with(t, "/chat/completions"@) ==> chat_url_of(base) == t
            &&& !ends_with(t, "/chat/completions"@) && versioned ==> chat_url_of(base) == t
                + "/chat/completions"@
            &&& !ends_with(t, "/chat/completions"@) && !versioned ==> chat_url_of(base) == t
                + "/v1/chat/completions"@
        }),
{
    let t = trim_end_char(trim(base), '/');
    if exists|i: int| #[trigger] occurs_at(t, "/v1/"@, i) {
        let i = choose|i: int| #[trigger] occurs_at(t, "/v1/"@, i);
        lemma_find_some(t, "/v1/"@, i);
    } else {
        lemma_find_none(t, "/v1/"@);
    }
}

} // verus!
