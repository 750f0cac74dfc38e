//! Cutting text into pieces: at a character, into lines, and at a substring.

use vstd::prelude::*;
use vstd::string::*;
use crate::text::{find_char, index_of_char, to_chars};

verus! {

/// `pattern` stands in `s` at position `at`.
pub open spec fn occurs_at(s: Seq<char>, pattern: Seq<char>, at: int) -> bool {
    0 <= at && at + pattern.len() <= s.len() && s.subrange(at, at + pattern.len()) == pattern
}

/// `pattern` stands somewhere in `s`.
pub open spec fn has_substring(s: Seq<char>, pattern: Seq<char>) -> bool {
    exists|at: int| occurs_at(s, pattern, at)
}

/// The first position at or after `from` where `pattern` stands in `s`, or
/// the length of `s` if there is none.
pub open spec fn first_occurrence(s: Seq<char>, pattern: Seq<char>, from: int) -> int
    decreases s.len() - from,
{
    if 0 <= from < s.len() && !occurs_at(s, pattern, from) {
        first_occurrence(s, pattern, from + 1)
    } else if from == s.len() && pattern.len() > 0 {
        s.len() as int
    } else {
        from
    }
}

/// `first_occurrence` finds the first place, and only a place where the
/// pattern stands, unless it answers with the length.
pub proof fn lemma_first_occurrence(s: Seq<char>, pattern: Seq<char>, from: int)
    requires
        0 <= from <= s.len(),
    ensures
        from <= first_occurrence(s, pattern, from) <= s.len(),
        first_occurrence(s, pattern, from) < s.len() ==> occurs_at(
            s,
            pattern,
            first_occurrence(s, pattern, from),
        ),
        forall|at: int| from <= at < first_occurrence(s, pattern, from) ==> !occurs_at(s, pattern, at),
        first_occurrence(s, pattern, from) == s.len() ==> (occurs_at(s, pattern, s.len() as int)
            <==> pattern.len() == 0),
    decreases s.len() - from,
{
    if from < s.len() && !occurs_at(s, pattern, from) {
        lemma_first_occurrence(s, pattern, from + 1);
    }
    if pattern.len() == 0 {
        assert(s.subrange(s.len() as int, s.len() as int) =~= pattern);
    }
}

/// Tells whether `pattern` stands in `chars` at position `at`.
pub fn matches_at(chars: &[char], pattern: &[char], at: usize) -> (yes: bool)
    requires
        at <= chars@.len(),
    ensures
        yes == occurs_at(chars@, pattern@, at as int),
{
    if pattern.len() > chars.len() - at {
        return false;
    }
    let mut i: usize = 0;
    while i < pattern.len()
        invariant
            i <= pattern@.len(),
            at + pattern@.len() <= chars@.len() <= usize::MAX,
            chars@.subrange(at as int, at + i) == pattern@.take(i as int),
        decreases pattern@.len() - i,
    {
        if chars[at + i] != pattern[i] {
            assert(chars@.subrange(at as int, at + pattern@.len())[i as int] != pattern@[i as int]);
            return false;
        }
        assert(chars@.subrange(at as int, at + i + 1) =~= chars@.subrange(at as int, at + i).push(
            chars@[at + i],
        ));
        assert(pattern@.take(i + 1) =~= pattern@.take(i as int).push(pattern@[i as int]));
        i += 1;
    }
    assert(pattern@.take(i as int) =~= pattern@);
    true
}

/// The first position at or after `from` where `pattern` stands in `chars`,
/// or the length of `chars` if there is none.
pub fn find_text(chars: &[char], pattern: &[char], from: usize) -> (at: usize)
    requires
        from <= chars@.len(),
    ensures
        at == first_occurrence(chars@, pattern@, from as int),
        from <= at <= chars@.len(),
{
    let mut at: usize = from;
    while at < chars.len() && !matches_at(chars, pattern, at)
        invariant
            from <= at <= chars@.len(),
            first_occurrence(chars@, pattern@, from as int) == first_occurrence(
                chars@,
                pattern@,
                at as int,
            ),
        decreases chars@.len() - at,
    {
        at += 1;
    }
    at
}

/// Tells whether `pattern` stands somewhere in `text`.
pub fn contains_text(text: &str, pattern: &str) -> (yes: bool)
    ensures
        yes == has_substring(text@, pattern@),
{
    let chars = to_chars(text);
    let wanted = to_chars(pattern);
    let at = find_text(chars.as_slice(), wanted.as_slice(), 0);
    proof {
        lemma_first_occurrence(chars@, wanted@, 0);
        if at < chars@.len() {
            assert(occurs_at(chars@, wanted@, at as int));
        } else {
            assert forall|k: int| occurs_at(chars@, wanted@, k) implies wanted@.len() == 0 by {
                if k < chars@.len() {
                    assert(!occurs_at(chars@, wanted@, k));
                }
            }
        }
    }
    at < chars.len() || wanted.len() == 0
}

/// The pieces of `s` between the occurrences of `separator`, from `from` on.
/// There is always one piece more than there are separators.
pub open spec fn pieces_from(s: Seq<char>, separator: char, from: int) -> Seq<Seq<char>>
    decreases s.len() - from,
{
    let end = index_of_char(s, separator, from);
    if 0 <= from <= end < s.len() {
        seq![s.subrange(from, end)] + pieces_from(s, separator, end + 1)
    } else {
        seq![s.skip(from)]
    }
}

/// The pieces of `s` between the occurrences of `separator`.
pub open spec fn pieces(s: Seq<char>, separator: char) -> Seq<Seq<char>> {
    pieces_from(s, separator, 0)
}

/// The views of a list of character vectors.
pub open spec fn char_texts(list: Seq<Vec<char>>) -> Seq<Seq<char>> {
    list.map_values(|piece: Vec<char>| piece@)
}

/// Splits `chars` at every occurrence of `separator`.
pub fn split_on(chars: &[char], separator: char) -> (list: Vec<Vec<char>>)
    ensures
        char_texts(list@) == pieces(chars@, separator),
{
    let mut list: Vec<Vec<char>> = Vec::new();
    let mut from: usize = 0;
    let mut more = true;
    assert(char_texts(list@) =~= Seq::<Seq<char>>::empty());
    while more
        invariant
            from <= chars@.len(),
            more ==> pieces(chars@, separator) == char_texts(list@) + pieces_from(
                chars@,
                separator,
                from as int,
            ),
            !more ==> pieces(chars@, separator) == char_texts(list@),
        decreases chars@.len() - from + (if more { 1int } else { 0int }),
    {
        let end = find_char(chars, separator, from);
        let ghost listed = char_texts(list@);
        let piece = vstd::slice::slice_to_vec(vstd::slice::slice_subrange(chars, from, end));
        list.push(piece);
        assert(char_texts(list@) =~= listed.push(chars@.subrange(from as int, end as int)));
        if end < chars.len() {
            assert(listed + (seq![chars@.subrange(from as int, end as int)] + pieces_from(
                chars@,
                separator,
                end + 1,
            )) =~= listed.push(chars@.subrange(from as int, end as int)) + pieces_from(
                chars@,
                separator,
                end + 1,
            ));
            from = end + 1;
        } else {
            assert(chars@.subrange(from as int, end as int) =~= chars@.skip(from as int));
            assert(listed + seq![chars@.skip(from as int)] =~= listed.push(
                chars@.skip(from as int),
            ));
            more = false;
        }
    }
    list
}

/// A line as it stands between two line feeds, without the carriage return
/// that may precede the line feed that ends it.
pub open spec fn without_line_ending(raw: Seq<char>, ended: bool) -> Seq<char> {
    if ended && raw.len() > 0 && raw.last() == '\r' {
        raw.drop_last()
    } else {
        raw
    }
}

/// The lines of `s` from `from` on. A line ends at a line feed, or at a
/// carriage return followed by a line feed; the last line need not be ended.
pub open spec fn lines_from(s: Seq<char>, from: int) -> Seq<Seq<char>>
    decreases s.len() - from,
{
    let end = index_of_char(s, '\n', from);
    if 0 <= from <= end < s.len() {
        seq![without_line_ending(s.subrange(from, end), true)] + lines_from(s, end + 1)
    } else if 0 <= from < s.len() {
        seq![s.skip(from)]
    } else {
        Seq::empty()
    }
}

/// The lines of `s`.
pub open spec fn lines(s: Seq<char>) -> Seq<Seq<char>> {
    lines_from(s, 0)
}

/// Splits `chars` into its lines.
pub fn split_lines(chars: &[char]) -> (list: Vec<Vec<char>>)
    ensures
        char_texts(list@) == lines(chars@),
{
    let mut list: Vec<Vec<char>> = Vec::new();
    let mut from: usize = 0;
    assert(char_texts(list@) =~= Seq::<Seq<char>>::empty());
    while from < chars.len()
        invariant
            from <= chars@.len(),
            lines(chars@) == char_texts(list@) + lines_from(chars@, from as int),
        decreases chars@.len() - from,
    {
        let end = find_char(chars, '\n', from);
        let ghost listed = char_texts(list@);
        if end < chars.len() {
            let stop = if end > from && chars[end - 1] == '\r' {
                end - 1
            } else {
                end
            };
            let ghost raw = chars@.subrange(from as int, end as int);
            let piece = vstd::slice::slice_to_vec(vstd::slice::slice_subrange(chars, from, stop));
            assert(piece@ =~= without_line_ending(raw, true));
            list.push(piece);
            assert(char_texts(list@) =~= listed.push(without_line_ending(raw, true)));
            assert(listed + (seq![without_line_ending(raw, true)] + lines_from(chars@, end + 1))
                =~= listed.push(without_line_ending(raw, true)) + lines_from(chars@, end + 1));
            from = end + 1;
        } else {
            let piece = vstd::slice::slice_to_vec(vstd::slice::slice_subrange(chars, from, end));
            assert(piece@ =~= chars@.skip(from as int));
            list.push(piece);
            assert(char_texts(list@) =~= listed + seq![chars@.skip(from as int)]);
            assert(lines_from(chars@, end as int) =~= Seq::<Seq<char>>::empty());
            from = end;
        }
    }
    assert(char_texts(list@) + Seq::<Seq<char>>::empty() =~= char_texts(list@));
    list
}

/// `text` followed by as many spaces as it takes to reach `width` characters.
pub open spec fn padded(text: Seq<char>, width: nat) -> Seq<char> {
    if text.len() >= width {
        text
    } else {
        text + Seq::new((width - text.len()) as nat, |i: int| ' ')
    }
}

/// Pads `text` with spaces on the right to `width` characters.
pub fn pad_right(text: &str, width: usize) -> (out: String)
    ensures
        out@ == padded(text@, width as nat),
{
    let mut out = text.to_string();
    let mut n = text.unicode_len();
    while n < width
        invariant
            text@.len() <= n,
            n <= width || n == text@.len(),
            n >= width ==> out@ == padded(text@, width as nat),
            n < width ==> out@ == text@ + Seq::new((n - text@.len()) as nat, |i: int| ' '),
        decreases width - n,
    {
        out.push(' ');
        n += 1;
        assert(out@ =~= text@ + Seq::new((n - text@.len()) as nat, |i: int| ' '));
    }
    proof {
        if text@.len() < width {
            assert(n == width);
        } else {
            assert(text@ + Seq::new(0nat, |i: int| ' ') =~= text@);
        }
    }
    out
}

} // verus!
