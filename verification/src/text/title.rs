//! Titles cut to a length.

use vstd::prelude::*;
use vstd::string::StrSliceExecFns;
use vstd::string::StringExecFns;

verus! {

/// `s`, cut after `max_chars` characters and closed with an ellipsis when it
/// is longer than that.
pub open spec fn spec_truncate_and_trailoff(s: Seq<char>, max_chars: nat) -> Seq<char> {
    if s.len() > max_chars {
        s.take(max_chars as int).push('\u{2026}')
    } else {
        s
    }
}

/// A title that was cut short has one character more than the limit, ends
/// in an ellipsis and begins as the text does; a text within the limit is
/// its own title.
pub proof fn lemma_truncate_and_trailoff(s: Seq<char>, max_chars: nat)
    ensures
        s.len() <= max_chars ==> spec_truncate_and_trailoff(s, max_chars) == s,
        s.len() > max_chars ==> {
            let title = spec_truncate_and_trailoff(s, max_chars);
            &&& title.len() == max_chars + 1
            &&& title.last() == '\u{2026}'
            &&& forall|i: int| 0 <= i < max_chars ==> title[i] == s[i]
        },
{
}

/// Cuts `s` after `max_chars` characters and closes it with an ellipsis
/// when it is longer than that; hands it back whole otherwise.
pub fn truncate_and_trailoff(s: &str, max_chars: usize) -> (title: String)
    ensures
        title@ == spec_truncate_and_trailoff(s@, max_chars as nat),
{
    if s.unicode_len() > max_chars {
        let mut title = String::from_str(s.substring_char(0, max_chars));
        proof {
            reveal_strlit("\u{2026}");
            assert(s@.take(max_chars as int) + seq!['\u{2026}'] == s@.take(max_chars as int).push(
                '\u{2026}',
            ));
        }
        title.append("\u{2026}");
        title
    } else {
        String::from_str(s)
    }
}

} // verus!
