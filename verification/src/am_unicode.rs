//! Guessing from the locale whether the terminal takes Unicode.
//!
//! A locale is written `language.charset@modifier`, with the charset and the
//! modifier optional. What counts here is whether the charset is UTF-8.

use crate::metadata::lower;
use crate::metadata::lowered;
use vstd::prelude::*;
use vstd::utf8::encode_utf8;

verus! {

/// What follows the first `mark` in `s`, if `mark` occurs in it.
pub open spec fn after_first(s: Seq<u8>, mark: u8) -> Option<Seq<u8>>
    decreases s.len(),
{
    if s.len() == 0 {
        None
    } else if s[0] == mark {
        Some(s.skip(1))
    } else {
        after_first(s.skip(1), mark)
    }
}

/// What comes before the first `a` or `b` in `s`: all of `s` where neither occurs.
pub open spec fn before_either(s: Seq<u8>, a: u8, b: u8) -> Seq<u8>
    decreases s.len(),
{
    if s.len() == 0 || s[0] == a || s[0] == b {
        Seq::empty()
    } else {
        seq![s[0]] + before_either(s.skip(1), a, b)
    }
}

/// The charset that a locale names: what stands between its first dot and
/// the next dot or at-sign.
pub open spec fn charset_named(locale: Seq<u8>) -> Option<Seq<u8>> {
    match after_first(locale, 46) {
        None => None,
        Some(rest) => Some(before_either(rest, 46, 64)),
    }
}

/// Whether a locale names UTF-8 as its charset, in capitals or small
/// letters: `None` where it names no charset.
pub open spec fn names_utf8(locale: Seq<char>) -> Option<bool> {
    match charset_named(encode_utf8(locale)) {
        None => None,
        Some(charset) => Some(lowered(charset) == encode_utf8("utf-8"@)),
    }
}

/// What the first of the three locale settings that names a charset says;
/// `false` where none does, and on Windows.
pub open spec fn unicode_guess(
    windows: bool,
    lc_all: Option<&str>,
    lc_ctype: Option<&str>,
    lang: Option<&str>,
) -> bool {
    if windows {
        false
    } else if lc_all is Some && names_utf8(lc_all->0@) is Some {
        names_utf8(lc_all->0@)->0
    } else if lc_ctype is Some && names_utf8(lc_ctype->0@) is Some {
        names_utf8(lc_ctype->0@)->0
    } else if lang is Some && names_utf8(lang->0@) is Some {
        names_utf8(lang->0@)->0
    } else {
        false
    }
}

proof fn lemma_after_first(s: Seq<u8>, mark: u8, i: int)
    requires
        0 <= i <= s.len(),
        forall|j: int| 0 <= j < i ==> s[j] != mark,
        i < s.len() ==> s[i] == mark,
    ensures
        after_first(s, mark) == if i < s.len() {
            Some(s.skip(i + 1))
        } else {
            None
        },
    decreases i,
{
    if i == 0 {
        if s.len() > 0 {
            assert(s.skip(1) =~= s.skip(i + 1));
        }
    } else {
        let t = s.skip(1);
        assert forall|j: int| 0 <= j < i - 1 implies t[j] != mark by {
            assert(t[j] == s[j + 1]);
        }
        lemma_after_first(t, mark, i - 1);
        if i < s.len() {
            assert(t.skip(i) =~= s.skip(i + 1));
        }
    }
}

proof fn lemma_before_either(s: Seq<u8>, a: u8, b: u8, k: int)
    requires
        0 <= k <= s.len(),
        forall|j: int| 0 <= j < k ==> s[j] != a && s[j] != b,
        k < s.len() ==> s[k] == a || s[k] == b,
    ensures
        before_either(s, a, b) =~= s.take(k),
    decreases k,
{
    if k > 0 {
        let t = s.skip(1);
        assert forall|j: int| 0 <= j < k - 1 implies t[j] != a && t[j] != b by {
            assert(t[j] == s[j + 1]);
        }
        lemma_before_either(t, a, b, k - 1);
        assert(seq![s[0]] + t.take(k - 1) =~= s.take(k));
    }
}

/// Says whether the value of a locale setting names UTF-8 as its charset;
/// `None` where it names no charset at all.
pub fn is_utf8(value: &str) -> (r: Option<bool>)
    ensures
        r == names_utf8(value@),
{
    let b = value.as_bytes();
    let n: usize = b.len();
    let mut i: usize = 0;
    while i < n && b[i] != 46
        invariant
            i <= n,
            n == b@.len(),
            forall|j: int| 0 <= j < i ==> b@[j] != 46,
        decreases n - i,
    {
        i += 1;
    }
    proof {
        lemma_after_first(b@, 46, i as int);
    }
    if i == n {
        return None;
    }
    let start: usize = i + 1;
    let mut end: usize = start;
    while end < n && b[end] != 46 && b[end] != 64
        invariant
            start <= end <= n,
            n == b@.len(),
            forall|j: int| start <= j < end ==> b@[j] != 46 && b@[j] != 64,
        decreases n - end,
    {
        end += 1;
    }
    let ghost rest = b@.skip(start as int);
    let ghost charset = rest.take(end - start);
    proof {
        assert forall|j: int| 0 <= j < end - start implies rest[j] != 46 && rest[j] != 64 by {
            assert(rest[j] == b@[start + j]);
        }
        lemma_before_either(rest, 46, 64, end - start);
        assert(charset_named(b@) == Some(charset));
    }
    let want = "utf-8".as_bytes();
    if end - start != want.len() {
        assert(lowered(charset).len() != want@.len());
        return Some(false);
    }
    let len: usize = want.len();
    let mut k: usize = 0;
    while k < len
        invariant
            k <= len,
            len == want@.len(),
            len == end - start,
            end <= n,
            n == b@.len(),
            charset == b@.skip(start as int).take(end - start),
            charset_named(encode_utf8(value@)) == Some(charset),
            want@ == encode_utf8("utf-8"@),
            forall|m: int| 0 <= m < k ==> lowered(charset)[m] == want@[m],
        decreases len - k,
    {
        assert(charset[k as int] == b@[start + k]);
        if lower(b[start + k]) != want[k] {
            assert(lowered(charset)[k as int] != want@[k as int]);
            return Some(false);
        }
        k += 1;
    }
    assert(lowered(charset) =~= want@);
    Some(true)
}

/// A best guess as to whether Unicode can be used on the terminal, from the
/// values of `LC_ALL`, `LC_CTYPE` and `LANG` (`None` for one that is not set).
/// The first of them that names a charset decides. On Windows the guess is
/// no.
pub fn am_unicode(
    windows: bool,
    lc_all: Option<&str>,
    lc_ctype: Option<&str>,
    lang: Option<&str>,
) -> (r: bool)
    ensures
        r == unicode_guess(windows, lc_all, lc_ctype, lang),
{
    if windows {
        return false;
    }
    if let Some(value) = lc_all {
        if let Some(answer) = is_utf8(value) {
            return answer;
        }
    }
    if let Some(value) = lc_ctype {
        if let Some(answer) = is_utf8(value) {
            return answer;
        }
    }
    if let Some(value) = lang {
        if let Some(answer) = is_utf8(value) {
            return answer;
        }
    }
    false
}

} // verus!
