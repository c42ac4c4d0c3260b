//! The token grammar of the scanner, stated over the stream of unread characters.
use vstd::prelude::*;

verus! {

/// A character that separates tokens.
pub open spec fn is_separator(c: char) -> bool {
    c == ' ' || c == '\n' || c == '\r'
}

/// A character that ends a line.
pub open spec fn is_line_end(c: char) -> bool {
    c == '\n' || c == '\r'
}

/// The index of the first non-separator at or after `i` (or the end of `s`).
pub open spec fn skip_separators(s: Seq<char>, i: int) -> int
    decreases s.len() - i,
{
    if 0 <= i < s.len() && is_separator(s[i]) {
        skip_separators(s, i + 1)
    } else {
        i
    }
}

/// The index of the first separator at or after `i` (or the end of `s`).
pub open spec fn skip_word(s: Seq<char>, i: int) -> int
    decreases s.len() - i,
{
    if 0 <= i < s.len() && !is_separator(s[i]) {
        skip_word(s, i + 1)
    } else {
        i
    }
}

/// The next token of the stream `s` and the stream that follows it.
///
/// Leading separators are skipped; the token is the maximal run of
/// non-separators after them. A token counts as complete only once a
/// separator follows it: a run that reaches the end of `s` may still
/// continue in input that has not arrived, so there is no token yet.
/// The remaining stream starts at that separator.
pub open spec fn next_token(s: Seq<char>) -> Option<(Seq<char>, Seq<char>)> {
    let a = skip_separators(s, 0);
    let b = skip_word(s, a);
    if a < b && b < s.len() {
        Some((s.subrange(a, b), s.skip(b)))
    } else {
        None
    }
}

/// A non-empty run of characters none of which is a separator.
pub open spec fn is_word(t: Seq<char>) -> bool {
    t.len() > 0 && forall|i: int| 0 <= i < t.len() ==> !is_separator(#[trigger] t[i])
}

/// A run of characters all of which are separators.
pub open spec fn is_gap(g: Seq<char>) -> bool {
    forall|i: int| 0 <= i < g.len() ==> is_separator(#[trigger] g[i])
}

/// What a line contributes to the stream: the line is cut at its first
/// line end, which becomes a single `'\n'`; the rest of the line is
/// never scanned. A line without a line end is taken whole, so a token at
/// its end continues into the next line.
pub open spec fn line_content(l: Seq<char>) -> Seq<char>
    decreases l.len(),
{
    if l.len() == 0 {
        Seq::empty()
    } else if is_line_end(l[0]) {
        seq!['\n']
    } else {
        seq![l[0]] + line_content(l.drop_first())
    }
}

/// Tells whether `c` separates tokens.
pub fn separator(c: char) -> (r: bool)
    ensures
        r == is_separator(c),
{
    c == ' ' || c == '\n' || c == '\r'
}

/// Tells whether `c` ends a line.
pub fn line_end(c: char) -> (r: bool)
    ensures
        r == is_line_end(c),
{
    c == '\n' || c == '\r'
}

} // verus!
