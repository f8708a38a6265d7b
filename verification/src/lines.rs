//! Where the lines of a text begin and end.
//!
//! A line runs from its first character up to and including the line break that
//! ends it. The first line starts at index 0, every line break starts a new
//! line right behind it, and so a text that ends in a line break has an empty
//! last line. The line breaks are LF, VT, FF, CR, NEL, the line separator, the
//! paragraph separator, and CR directly followed by LF, which counts as one.

use vstd::prelude::*;

verus! {

/// Whether `c` is one of the characters that can end a line.
pub open spec fn is_line_break(c: char) -> bool {
    c == '\n' || c == '\u{0B}' || c == '\u{0C}' || c == '\r' || c == '\u{85}' || c == '\u{2028}'
        || c == '\u{2029}'
}

/// Whether a line ends with the character at index `i`: it is a line break,
/// and not a CR that the LF behind it completes.
pub open spec fn ends_line(text: Seq<char>, i: int) -> bool {
    &&& 0 <= i < text.len()
    &&& is_line_break(text[i])
    &&& !(text[i] == '\r' && i + 1 < text.len() && text[i + 1] == '\n')
}

/// The number of lines that end among the first `n` characters.
pub open spec fn breaks_before(text: Seq<char>, n: nat) -> nat
    decreases n,
{
    if n == 0 {
        0
    } else {
        breaks_before(text, (n - 1) as nat) + if ends_line(text, n - 1) {
            1nat
        } else {
            0nat
        }
    }
}

/// The number of lines: one more than the number of line ends.
pub open spec fn line_count(text: Seq<char>) -> nat {
    breaks_before(text, text.len()) + 1
}

/// The index behind the first line end at or after `from`; the length of the
/// text where no line ends there.
pub open spec fn next_line_start(text: Seq<char>, from: int) -> int
    decreases text.len() - from,
{
    if from < 0 || from >= text.len() {
        text.len() as int
    } else if ends_line(text, from) {
        from + 1
    } else {
        next_line_start(text, from + 1)
    }
}

/// The index at which line `line` begins. For every index from the number of
/// lines on, this is the length of the text.
pub open spec fn line_start(text: Seq<char>, line: nat) -> int
    decreases line,
{
    if line == 0 {
        0
    } else {
        next_line_start(text, line_start(text, (line - 1) as nat))
    }
}

/// The characters of line `line`, its line break included.
pub open spec fn line_text(text: Seq<char>, line: nat) -> Seq<char> {
    text.subrange(line_start(text, line), line_start(text, line + 1))
}

/// `line` without the carriage returns and line feeds at its end.
pub open spec fn strip_line_end(line: Seq<char>) -> Seq<char>
    decreases line.len(),
{
    if line.len() > 0 && (line.last() == '\n' || line.last() == '\r') {
        strip_line_end(line.drop_last())
    } else {
        line
    }
}

/// The search for the next line start moves forward, stays inside the text,
/// and passes over no line end on its way.
pub proof fn lemma_next_line_start(text: Seq<char>, from: int)
    requires
        0 <= from <= text.len(),
    ensures
        from <= next_line_start(text, from) <= text.len(),
        breaks_before(text, next_line_start(text, from) as nat) <= breaks_before(text, from as nat)
            + 1,
        next_line_start(text, from) > from && ends_line(text, next_line_start(text, from) - 1)
            ==> breaks_before(text, next_line_start(text, from) as nat) == breaks_before(
            text,
            from as nat,
        ) + 1,
        !(next_line_start(text, from) > from && ends_line(text, next_line_start(text, from) - 1))
            ==> next_line_start(text, from) == text.len() && breaks_before(text, text.len())
            == breaks_before(text, from as nat),
    decreases text.len() - from,
{
    if from < text.len() && !ends_line(text, from) {
        lemma_next_line_start(text, from + 1);
    }
}

/// Counting line ends is monotone in the prefix length.
pub proof fn lemma_breaks_before_monotone(text: Seq<char>, m: nat, n: nat)
    requires
        m <= n,
    ensures
        breaks_before(text, m) <= breaks_before(text, n),
    decreases n,
{
    if m < n {
        lemma_breaks_before_monotone(text, m, (n - 1) as nat);
    }
}

/// Every line starts inside the text, no line starts before the one ahead of
/// it, and as many lines have ended before line `line` as its index says.
pub proof fn lemma_line_start(text: Seq<char>, line: nat)
    ensures
        0 <= line_start(text, line) <= line_start(text, line + 1) <= text.len(),
        line < line_count(text) ==> breaks_before(text, line_start(text, line) as nat) == line,
        line >= line_count(text) ==> line_start(text, line) == text.len(),
    decreases line,
{
    if line > 0 {
        let before = (line - 1) as nat;
        lemma_line_start(text, before);
        lemma_next_line_start(text, line_start(text, before));
        lemma_breaks_before_monotone(text, line_start(text, line) as nat, text.len());
    }
    lemma_next_line_start(text, line_start(text, line));
}

/// The lines tile the text: the first starts at 0, and the index behind the
/// last line is the length of the text.
pub proof fn lemma_lines_tile(text: Seq<char>)
    ensures
        line_start(text, 0) == 0,
        line_start(text, line_count(text)) == text.len(),
{
    lemma_line_start(text, line_count(text));
}

} // verus!
