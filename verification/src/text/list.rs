//! Lists of texts: splitting at a separator, joining with one, and the
//! entries of a comma-separated list.

use crate::text::trim::lemma_trimmed;
use crate::text::trim::lemma_trimmed_twice;
use crate::text::trim::trim;
use crate::text::trim::trimmed;
use vstd::prelude::*;
use vstd::string::StrSliceExecFns;
use vstd::string::StringExecFns;

verus! {

/// The views of a list of strings.
pub open spec fn views(strings: Seq<String>) -> Seq<Seq<char>> {
    strings.map_values(|s: String| s@)
}

/// The view of a text that may be absent.
pub open spec fn option_view(text: Option<String>) -> Option<Seq<char>> {
    match text {
        Some(t) => Some(t@),
        None => None,
    }
}

/// The pieces of `s` between occurrences of `sep`. A text without `sep` is
/// one piece; a text that ends in `sep` ends in an empty piece.
pub open spec fn split(s: Seq<char>, sep: char) -> Seq<Seq<char>>
    decreases s.len(),
{
    if s.len() == 0 {
        seq![Seq::<char>::empty()]
    } else {
        let before = split(s.drop_last(), sep);
        if s.last() == sep {
            before.push(Seq::<char>::empty())
        } else {
            before.drop_last().push(before.last().push(s.last()))
        }
    }
}

/// The pieces, each trimmed, without those that are empty after trimming.
pub open spec fn trimmed_nonempty(pieces: Seq<Seq<char>>) -> Seq<Seq<char>>
    decreases pieces.len(),
{
    if pieces.len() == 0 {
        Seq::<Seq<char>>::empty()
    } else {
        let before = trimmed_nonempty(pieces.drop_last());
        let piece = trimmed(pieces.last());
        if piece.len() > 0 {
            before.push(piece)
        } else {
            before
        }
    }
}

/// The entries of a comma-separated list, trimmed, blank entries left out.
pub open spec fn comma_separated(text: Seq<char>) -> Seq<Seq<char>> {
    trimmed_nonempty(split(text, ','))
}

/// The parts written one after another with `sep` between neighbours.
pub open spec fn joined(parts: Seq<Seq<char>>, sep: Seq<char>) -> Seq<char>
    decreases parts.len(),
{
    if parts.len() == 0 {
        Seq::<char>::empty()
    } else if parts.len() == 1 {
        parts[0]
    } else {
        joined(parts.drop_last(), sep) + sep + parts.last()
    }
}

/// Every text splits into at least one piece.
pub proof fn lemma_split_nonempty(s: Seq<char>, sep: char)
    ensures
        split(s, sep).len() >= 1,
    decreases s.len(),
{
    if s.len() > 0 {
        lemma_split_nonempty(s.drop_last(), sep);
    }
}

/// No piece of a split text holds the separator.
pub proof fn lemma_split_pieces_hold_no_separator(s: Seq<char>, sep: char)
    ensures
        forall|i: int, j: int|
            0 <= i < split(s, sep).len() && 0 <= j < split(s, sep)[i].len() ==> #[trigger] split(
                s,
                sep,
            )[i][j] != sep,
    decreases s.len(),
{
    if s.len() > 0 {
        lemma_split_nonempty(s.drop_last(), sep);
        lemma_split_pieces_hold_no_separator(s.drop_last(), sep);
    }
}

/// Writing the pieces of a split text one after another, with the separator
/// between them, gives the text back.
pub proof fn lemma_split_joins_back(s: Seq<char>, sep: char)
    ensures
        joined(split(s, sep), seq![sep]) == s,
    decreases s.len(),
{
    if s.len() > 0 {
        let before = split(s.drop_last(), sep);
        lemma_split_nonempty(s.drop_last(), sep);
        lemma_split_joins_back(s.drop_last(), sep);
        if s.last() == sep {
            let all = before.push(Seq::<char>::empty());
            assert(all.drop_last() == before);
            assert(joined(all, seq![sep]) == joined(before, seq![sep]) + seq![sep]
                + Seq::<char>::empty());
        } else {
            let piece = before.last().push(s.last());
            let all = before.drop_last().push(piece);
            assert(all.drop_last() == before.drop_last());
            if before.len() > 1 {
                assert(joined(all, seq![sep]) == joined(before.drop_last(), seq![sep]) + seq![sep]
                    + piece);
                assert(joined(before, seq![sep]) == joined(before.drop_last(), seq![sep])
                    + seq![sep] + before.last());
            }
            assert(s == s.drop_last().push(s.last()));
        }
    }
}

/// What is left of trimmed pieces is trimmed and not empty, there are no
/// more entries than pieces, and a character that no piece holds is in no
/// entry.
pub proof fn lemma_trimmed_nonempty_entries(pieces: Seq<Seq<char>>, absent: char)
    requires
        forall|k: int| 0 <= k < pieces.len() ==> !(#[trigger] pieces[k]).contains(absent),
    ensures
        trimmed_nonempty(pieces).len() <= pieces.len(),
        forall|i: int|
            0 <= i < trimmed_nonempty(pieces).len() ==> {
                let entry = #[trigger] trimmed_nonempty(pieces)[i];
                entry.len() > 0 && trimmed(entry) == entry && !entry.contains(absent)
            },
    decreases pieces.len(),
{
    if pieces.len() > 0 {
        assert forall|k: int| 0 <= k < pieces.drop_last().len() implies !(
        #[trigger] pieces.drop_last()[k]).contains(absent) by {
            assert(pieces.drop_last()[k] == pieces[k]);
        }
        lemma_trimmed_nonempty_entries(pieces.drop_last(), absent);
        lemma_trimmed_twice(pieces.last());
        let bounds = lemma_trimmed(pieces.last());
        let entry = trimmed(pieces.last());
        if entry.contains(absent) {
            let j = choose|j: int| 0 <= j < entry.len() && entry[j] == absent;
            assert(pieces.last()[bounds.0 + j] == absent);
        }
    }
}

/// The entries of a comma-separated list are trimmed, not empty, and hold
/// no comma.
pub proof fn lemma_comma_separated_entries(text: Seq<char>)
    ensures
        forall|i: int|
            0 <= i < comma_separated(text).len() ==> {
                let entry = #[trigger] comma_separated(text)[i];
                entry.len() > 0 && trimmed(entry) == entry && !entry.contains(',')
            },
{
    lemma_split_pieces_hold_no_separator(text, ',');
    assert forall|k: int| 0 <= k < split(text, ',').len() implies !(#[trigger] split(
        text,
        ',',
    )[k]).contains(',') by {
        let piece = split(text, ',')[k];
        if piece.contains(',') {
            let j = choose|j: int| 0 <= j < piece.len() && piece[j] == ',';
            assert(split(text, ',')[k][j] != ',');
        }
    }
    lemma_trimmed_nonempty_entries(split(text, ','), ',');
}

/// Splits a comma-separated list into its entries, trims each and leaves
/// out the blank ones.
pub fn split_comma_separated(text: &str) -> (entries: Vec<String>)
    ensures
        views(entries@) == comma_separated(text@),
{
    let n = text.unicode_len();
    let mut entries: Vec<String> = Vec::new();
    let mut start: usize = 0;
    let mut i: usize = 0;
    let ghost mut done: Seq<Seq<char>> = Seq::empty();
    proof {
        assert(text@.take(0) == Seq::<char>::empty());
    }
    while i < n
        invariant
            n == text@.len(),
            start <= i <= n,
            split(text@.take(i as int), ',') == done.push(text@.subrange(start as int, i as int)),
            views(entries@) == trimmed_nonempty(done),
        decreases n - i,
    {
        let c = text.get_char(i);
        proof {
            let prefix = text@.take(i as int + 1);
            assert(prefix.drop_last() == text@.take(i as int));
            let before = done.push(text@.subrange(start as int, i as int));
            if c != ',' {
                assert(before.last().push(c) == text@.subrange(start as int, i as int + 1));
            } else {
                assert(text@.subrange(i as int + 1, i as int + 1) == Seq::<char>::empty());
            }
        }
        if c == ',' {
            let piece = trim(text.substring_char(start, i));
            proof {
                let finished = done.push(text@.subrange(start as int, i as int));
                assert(finished.drop_last() == done);
                done = finished;
            }
            if !piece.is_empty() {
                entries.push(String::from_str(piece));
            }
            start = i + 1;
        }
        i += 1;
    }
    let piece = trim(text.substring_char(start, n));
    proof {
        assert(text@.take(n as int) == text@);
        let finished = done.push(text@.subrange(start as int, n as int));
        assert(finished.drop_last() == done);
    }
    if !piece.is_empty() {
        entries.push(String::from_str(piece));
    }
    entries
}

/// Writes the parts one after another with `sep` between neighbours.
pub fn join(parts: &Vec<String>, sep: &str) -> (text: String)
    ensures
        text@ == joined(views(parts@), sep@),
{
    let mut text = String::new();
    let mut i: usize = 0;
    while i < parts.len()
        invariant
            i <= parts.len(),
            text@ == joined(views(parts@).take(i as int), sep@),
        decreases parts.len() - i,
    {
        proof {
            let next = views(parts@).take(i as int + 1);
            assert(next.drop_last() == views(parts@).take(i as int));
        }
        if i > 0 {
            text.append(sep);
        }
        text.append(parts[i].as_str());
        i += 1;
    }
    proof {
        assert(views(parts@).take(parts.len() as int) == views(parts@));
    }
    text
}

/// Whether `c` occurs in `text`.
pub fn contains_char(text: &str, c: char) -> (found: bool)
    ensures
        found == text@.contains(c),
{
    let n = text.unicode_len();
    let mut i: usize = 0;
    while i < n
        invariant
            n == text@.len(),
            i <= n,
            forall|j: int| 0 <= j < i ==> text@[j] != c,
        decreases n - i,
    {
        if text.get_char(i) == c {
            return true;
        }
        i += 1;
    }
    false
}

/// A copy of a text that may be absent.
pub fn clone_option(text: &Option<String>) -> (copy: Option<String>)
    ensures
        option_view(copy) == option_view(*text),
{
    match text {
        Some(t) => Some(t.clone()),
        None => None,
    }
}

/// A copy of a list of texts.
pub fn clone_strings(texts: &Vec<String>) -> (copy: Vec<String>)
    ensures
        views(copy@) == views(texts@),
{
    let mut copy: Vec<String> = Vec::new();
    let mut i: usize = 0;
    while i < texts.len()
        invariant
            i <= texts.len(),
            views(copy@) == views(texts@).take(i as int),
        decreases texts.len() - i,
    {
        let text = texts[i].clone();
        proof {
            assert(views(texts@).take(i as int + 1) =~= views(texts@).take(i as int).push(
                texts@[i as int]@,
            ));
        }
        copy.push(text);
        i += 1;
    }
    copy
}

} // verus!
