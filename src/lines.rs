//! The line structure of a text: how many lines it has and how long its
//! last line is. A line separator is `'\n'`.
use vstd::prelude::*;

verus! {

/// The number of line separators in `s`.
pub open spec fn separator_count(s: Seq<char>) -> nat
    decreases s.len(),
{
    if s.len() == 0 {
        0
    } else {
        separator_count(s.drop_last()) + if s.last() == '\n' {
            1nat
        } else {
            0nat
        }
    }
}

/// The number of lines of `s`: one more than its separators, so the empty
/// text has one (empty) line and a text ending in a separator has an empty
/// last line.
pub open spec fn line_count(s: Seq<char>) -> nat {
    separator_count(s) + 1
}

/// The number of characters after the last separator of `s`.
pub open spec fn last_line_len(s: Seq<char>) -> nat
    decreases s.len(),
{
    if s.len() == 0 {
        0
    } else if s.last() == '\n' {
        0
    } else {
        last_line_len(s.drop_last()) + 1
    }
}

/// Appending a character other than a separator lengthens the last line by
/// one and keeps the line count.
pub proof fn lemma_push_char(s: Seq<char>, c: char)
    requires
        c != '\n',
    ensures
        last_line_len(s.push(c)) == last_line_len(s) + 1,
        separator_count(s.push(c)) == separator_count(s),
{
    assert(s.push(c).drop_last() =~= s);
}

/// Appending a separator starts an empty line.
pub proof fn lemma_push_separator(s: Seq<char>)
    ensures
        last_line_len(s.push('\n')) == 0,
        separator_count(s.push('\n')) == separator_count(s) + 1,
{
    assert(s.push('\n').drop_last() =~= s);
}

/// The last line is never longer than the text, nor are the separators
/// more than the characters.
pub proof fn lemma_bounds(s: Seq<char>)
    ensures
        last_line_len(s) <= s.len(),
        separator_count(s) <= s.len(),
    decreases s.len(),
{
    if s.len() > 0 {
        lemma_bounds(s.drop_last());
    }
}

/// A text with an empty last line and at least one separator ends in a
/// separator.
pub proof fn lemma_ends_in_separator(s: Seq<char>)
    requires
        last_line_len(s) == 0,
        separator_count(s) > 0,
    ensures
        s.len() > 0,
        s.last() == '\n',
        separator_count(s.drop_last()) + 1 == separator_count(s),
{
}

/// A text with a non-empty last line ends in a character other than a
/// separator.
pub proof fn lemma_ends_in_char(s: Seq<char>)
    requires
        last_line_len(s) > 0,
    ensures
        s.len() > 0,
        s.last() != '\n',
        last_line_len(s.drop_last()) + 1 == last_line_len(s),
        separator_count(s.drop_last()) == separator_count(s),
{
}

} // verus!
