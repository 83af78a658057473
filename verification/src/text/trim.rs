//! Whitespace at the ends of a text.

use vstd::prelude::*;
use vstd::string::StringExecFns;

verus! {

/// The code points with the Unicode property `White_Space`.
pub open spec fn is_whitespace(c: char) -> bool {
    let n = c as int;
    ||| 0x09 <= n <= 0x0D
    ||| n == 0x20
    ||| n == 0x85
    ||| n == 0xA0
    ||| n == 0x1680
    ||| 0x2000 <= n <= 0x200A
    ||| n == 0x2028
    ||| n == 0x2029
    ||| n == 0x202F
    ||| n == 0x205F
    ||| n == 0x3000
}

/// `s` without its leading whitespace.
pub open spec fn trim_start(s: Seq<char>) -> Seq<char>
    decreases s.len(),
{
    if s.len() > 0 && is_whitespace(s[0]) {
        trim_start(s.drop_first())
    } else {
        s
    }
}

/// `s` without its trailing whitespace.
pub open spec fn trim_end(s: Seq<char>) -> Seq<char>
    decreases s.len(),
{
    if s.len() > 0 && is_whitespace(s.last()) {
        trim_end(s.drop_last())
    } else {
        s
    }
}

/// `s` without leading and trailing whitespace.
pub open spec fn trimmed(s: Seq<char>) -> Seq<char> {
    trim_end(trim_start(s))
}

/// What a text input counts as its content: the trimmed text, or nothing
/// when only whitespace was typed.
pub open spec fn spec_text_option(s: Seq<char>) -> Option<Seq<char>> {
    if trimmed(s).len() == 0 {
        None
    } else {
        Some(trimmed(s))
    }
}

/// `str::trim` of std: cuts leading and trailing whitespace, where
/// whitespace is the Unicode property `White_Space`. The contract restates
/// that over the characters of the text.
#[verifier::external_body]
pub(crate) fn trim(s: &str) -> (t: &str)
    ensures
        t@ == trimmed(s@),
{
    s.trim()
}

/// The trimmed content of a text input, or `None` when it is blank.
pub fn text_option(text: &str) -> (content: Option<String>)
    ensures
        content is Some == spec_text_option(text@) is Some,
        content matches Some(c) ==> c@ == spec_text_option(text@)->0,
{
    let t = trim(text);
    if t.is_empty() {
        None
    } else {
        Some(String::from_str(t))
    }
}

/// Cutting leading whitespace leaves the rest of the text as it is: the
/// result is the text from some position on, everything before that
/// position is whitespace, and the result does not begin with whitespace.
pub proof fn lemma_trim_start(s: Seq<char>) -> (cut: int)
    ensures
        0 <= cut <= s.len(),
        trim_start(s) == s.subrange(cut, s.len() as int),
        forall|i: int| 0 <= i < cut ==> is_whitespace(#[trigger] s[i]),
        cut < s.len() ==> !is_whitespace(s[cut]),
    decreases s.len(),
{
    if s.len() > 0 && is_whitespace(s[0]) {
        let rest = lemma_trim_start(s.drop_first());
        assert forall|i: int| 0 <= i < rest + 1 implies is_whitespace(#[trigger] s[i]) by {
            if i > 0 {
                assert(s[i] == s.drop_first()[i - 1]);
            }
        }
        rest + 1
    } else {
        0
    }
}

/// Cutting trailing whitespace leaves the rest of the text as it is: the
/// result is the text up to some position, everything from that position
/// on is whitespace, and the result does not end in whitespace.
pub proof fn lemma_trim_end(s: Seq<char>) -> (cut: int)
    ensures
        0 <= cut <= s.len(),
        trim_end(s) == s.subrange(0, cut),
        forall|i: int| cut <= i < s.len() ==> is_whitespace(#[trigger] s[i]),
        cut > 0 ==> !is_whitespace(s[cut - 1]),
    decreases s.len(),
{
    if s.len() > 0 && is_whitespace(s.last()) {
        let rest = lemma_trim_end(s.drop_last());
        assert forall|i: int| rest <= i < s.len() implies is_whitespace(#[trigger] s[i]) by {
            if i < s.len() - 1 {
                assert(s[i] == s.drop_last()[i]);
            }
        }
        rest
    } else {
        s.len() as int
    }
}

/// A trimmed text is a stretch of the text it was cut from, bounded by
/// whitespace on both sides, and neither begins nor ends with whitespace.
pub proof fn lemma_trimmed(s: Seq<char>) -> (bounds: (int, int))
    ensures
        0 <= bounds.0 <= bounds.1 <= s.len(),
        trimmed(s) == s.subrange(bounds.0, bounds.1),
        forall|i: int| 0 <= i < bounds.0 ==> is_whitespace(#[trigger] s[i]),
        forall|i: int| bounds.1 <= i < s.len() ==> is_whitespace(#[trigger] s[i]),
        trimmed(s).len() > 0 ==> !is_whitespace(trimmed(s).first()) && !is_whitespace(
            trimmed(s).last(),
        ),
{
    let from = lemma_trim_start(s);
    let tail = s.subrange(from, s.len() as int);
    let to = lemma_trim_end(tail);
    assert forall|i: int| from + to <= i < s.len() implies is_whitespace(#[trigger] s[i]) by {
        assert(s[i] == tail[i - from]);
    }
    (from, from + to)
}

/// Trimming a trimmed text changes nothing.
pub proof fn lemma_trimmed_twice(s: Seq<char>)
    ensures
        trimmed(trimmed(s)) == trimmed(s),
{
    let _ = lemma_trimmed(s);
}

} // verus!
