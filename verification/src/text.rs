//! Text primitives: substring containment, case folding, lines and decimal
//! numerals.

use vstd::prelude::*;

verus! {

/// `needle` occurs in `haystack` as a contiguous run of characters.
pub open spec fn is_infix(needle: Seq<char>, haystack: Seq<char>) -> bool {
    exists|start: int|
        0 <= start && start + needle.len() <= haystack.len() && #[trigger] haystack.subrange(
            start,
            start + needle.len(),
        ) == needle
}

/// The lower-case form that `str::to_lowercase` gives a string.
pub uninterp spec fn lowercase_of(s: Seq<char>) -> Seq<char>;

/// `needle` occurs in `haystack` once both are lower-cased.
pub open spec fn contains_ignoring_case(haystack: Seq<char>, needle: Seq<char>) -> bool {
    is_infix(lowercase_of(needle), lowercase_of(haystack))
}

/// The text made of `before`, `piece` and `after` lower-cases piece by
/// piece: lower-casing each of the three on its own and joining the
/// results gives the lower-cased text.
pub open spec fn folds_piecewise(before: Seq<char>, piece: Seq<char>, after: Seq<char>) -> bool {
    lowercase_of(before + piece + after) == lowercase_of(before) + lowercase_of(piece)
        + lowercase_of(after)
}

/// The character of the decimal digit `d`.
pub open spec fn digit_char(d: nat) -> char
    recommends
        d < 10,
{
    ((d + 48) as u8) as char
}

/// The decimal numeral of `n`, without leading zeros.
pub open spec fn decimal(n: nat) -> Seq<char>
    decreases n,
{
    if n < 10 {
        seq![digit_char(n)]
    } else {
        decimal(n / 10).push(digit_char(n % 10))
    }
}

/// `line` without the carriage return at its end, if it has one.
pub open spec fn strip_return(line: Seq<char>) -> Seq<char> {
    if line.len() > 0 && line.last() == '\r' {
        line.drop_last()
    } else {
        line
    }
}

/// The lines that the first `upto` characters of `text` have completed,
/// and the characters of the line that they have begun.
pub open spec fn scan_lines(text: Seq<char>, upto: nat) -> (Seq<Seq<char>>, Seq<char>)
    decreases upto,
{
    if upto == 0 {
        (Seq::empty(), Seq::empty())
    } else {
        let (done, current) = scan_lines(text, (upto - 1) as nat);
        if text[upto - 1] == '\n' {
            (done.push(strip_return(current)), Seq::empty())
        } else {
            (done, current.push(text[upto - 1]))
        }
    }
}

/// The lines of `text`. A line ends at a line feed, or at a carriage
/// return followed by a line feed; neither belongs to the line. The last
/// line needs no line ending, and a text that ends in one has no empty
/// line after it.
pub open spec fn lines_of(text: Seq<char>) -> Seq<Seq<char>> {
    let (done, current) = scan_lines(text, text.len());
    if current.len() > 0 {
        done.push(current)
    } else {
        done
    }
}

/// The character sequences that the strings of `lines` hold.
pub open spec fn texts_of(lines: Seq<String>) -> Seq<Seq<char>> {
    lines.map_values(|line: String| line@)
}

/// `str::to_lowercase`: the result is the lower-case form of the argument,
/// a function of the argument's characters alone.
pub assume_specification[ str::to_lowercase ](s: &str) -> (lowered: String)
    ensures
        lowered@ == lowercase_of(s@),
;

/// `String::push`: appends one character.
pub assume_specification[ String::push ](s: &mut String, ch: char)
    ensures
        final(s)@ == old(s)@.push(ch),
;

/// `String::pop`: removes the last character and returns it; on an empty
/// string it returns `None` and changes nothing.
pub assume_specification[ String::pop ](s: &mut String) -> (last: Option<char>)
    ensures
        old(s)@.len() == 0 ==> last is None && final(s)@ == old(s)@,
        old(s)@.len() > 0 ==> last == Some(old(s)@.last()) && final(s)@ == old(s)@.drop_last(),
;

/// `str::contains` with a string pattern: whether `needle` occurs in
/// `haystack` as a substring. The empty string occurs in every string.
#[verifier::external_body]
pub(crate) fn contains_str(haystack: &str, needle: &str) -> (found: bool)
    ensures
        found == is_infix(needle@, haystack@),
{
    haystack.contains(needle)
}

/// Every string contains itself.
pub proof fn lemma_infix_reflexive(s: Seq<char>)
    ensures
        is_infix(s, s),
{
    assert(s.subrange(0, 0int + s.len()) =~= s);
}

/// A piece of a text occurs in the text when case is ignored, where the
/// text lower-cases piece by piece.
pub proof fn lemma_piece_is_contained(before: Seq<char>, piece: Seq<char>, after: Seq<char>)
    requires
        folds_piecewise(before, piece, after),
    ensures
        contains_ignoring_case(before + piece + after, piece),
{
    let folded = lowercase_of(before) + lowercase_of(piece) + lowercase_of(after);
    let start = lowercase_of(before).len() as int;
    assert(folded.subrange(start, start + lowercase_of(piece).len()) =~= lowercase_of(piece));
}

/// Whether `haystack`, lower-cased, contains `folded`, a text that is
/// lower-cased already.
pub fn contains_folded(haystack: &str, folded: &str) -> (found: bool)
    ensures
        found == is_infix(folded@, lowercase_of(haystack@)),
{
    let folded_haystack = haystack.to_lowercase();
    contains_str(folded_haystack.as_str(), folded)
}

/// Whether `haystack` contains `needle` when case is ignored.
pub fn contains_ignore_case(haystack: &str, needle: &str) -> (found: bool)
    ensures
        found == contains_ignoring_case(haystack@, needle@),
{
    let folded = needle.to_lowercase();
    contains_folded(haystack, folded.as_str())
}

/// `line` holds no line feed.
pub open spec fn has_no_line_feed(line: Seq<char>) -> bool {
    forall|j: int| 0 <= j < line.len() ==> line[j] != '\n'
}

/// While a text is scanned, no completed line holds a line feed, nor does
/// the line that has begun.
pub proof fn lemma_scan_holds_no_line_feed(text: Seq<char>, upto: nat)
    requires
        upto <= text.len(),
    ensures
        forall|i: int|
            0 <= i < scan_lines(text, upto).0.len() ==> has_no_line_feed(
                #[trigger] scan_lines(text, upto).0[i],
            ),
        has_no_line_feed(scan_lines(text, upto).1),
    decreases upto,
{
    if upto > 0 {
        lemma_scan_holds_no_line_feed(text, (upto - 1) as nat);
        let (done, current) = scan_lines(text, (upto - 1) as nat);
        if text[upto - 1] == '\n' {
            let line = strip_return(current);
            assert(has_no_line_feed(line));
            let all = done.push(line);
            assert forall|i: int| 0 <= i < all.len() implies has_no_line_feed(#[trigger] all[i]) by {
                if i < done.len() {
                    assert(all[i] == done[i]);
                }
            }
        } else {
            assert(has_no_line_feed(current.push(text[upto - 1])));
        }
    }
}

/// No line of a text holds a line feed.
pub proof fn lemma_lines_hold_no_line_feed(text: Seq<char>)
    ensures
        forall|i: int|
            0 <= i < lines_of(text).len() ==> has_no_line_feed(#[trigger] lines_of(text)[i]),
{
    lemma_scan_holds_no_line_feed(text, text.len());
    let (done, current) = scan_lines(text, text.len());
    let all = lines_of(text);
    assert forall|i: int| 0 <= i < all.len() implies has_no_line_feed(#[trigger] all[i]) by {
        if i < done.len() {
            assert(all[i] == done[i]);
        }
    }
}

/// The lines of `text`, as `str::lines` splits them.
pub fn split_lines(text: &str) -> (lines: Vec<String>)
    ensures
        texts_of(lines@) == lines_of(text@),
{
    let mut lines: Vec<String> = Vec::new();
    let mut current = String::new();
    for c in it: text.chars()
        invariant
            it.seq() == text@,
            texts_of(lines@) == scan_lines(text@, it.index() as nat).0,
            current@ == scan_lines(text@, it.index() as nat).1,
    {
        if c == '\n' {
            let last = current.pop();
            match last {
                Some(ch) => {
                    if ch != '\r' {
                        current.push(ch);
                    }
                },
                None => {},
            }
            assert(current@ =~= strip_return(scan_lines(text@, it.index() as nat).1));
            let ghost before = texts_of(lines@);
            lines.push(current);
            assert(texts_of(lines@) =~= before.push(current@));
            current = String::new();
        } else {
            current.push(c);
        }
    }
    if !current.as_str().is_empty() {
        let ghost before = texts_of(lines@);
        lines.push(current);
        assert(texts_of(lines@) =~= before.push(current@));
    }
    lines
}

/// The decimal numeral of `n`.
pub fn decimal_string(n: usize) -> (numeral: String)
    ensures
        numeral@ == decimal(n as nat),
    decreases n,
{
    if n < 10 {
        let mut numeral = String::new();
        numeral.push((n as u8 + 48) as char);
        assert(numeral@ =~= seq![digit_char(n as nat)]);
        numeral
    } else {
        let mut numeral = decimal_string(n / 10);
        numeral.push(((n % 10) as u8 + 48) as char);
        numeral
    }
}

} // verus!
