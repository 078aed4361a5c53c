use vstd::prelude::*;

verus! {

/// Index of the first line feed in `s`, or `s.len()` when it holds none.
pub open spec fn first_line_feed(s: Seq<char>) -> int
    decreases s.len(),
{
    if s.len() == 0 || s[0] == '\n' {
        0
    } else {
        1 + first_line_feed(s.drop_first())
    }
}

/// The lines of a text: the pieces between line feeds, each without its
/// terminator. A carriage return directly before a line feed belongs to the
/// terminator; a last line needs no terminator, and a text that ends in one
/// has no empty line after it.
pub open spec fn spec_lines(s: Seq<char>) -> Seq<Seq<char>>
    decreases s.len(),
{
    let cut = first_line_feed(s);
    if s.len() == 0 {
        Seq::empty()
    } else if 0 <= cut < s.len() {
        let raw = s.subrange(0, cut);
        let line = if raw.len() > 0 && raw.last() == '\r' {
            raw.drop_last()
        } else {
            raw
        };
        seq![line] + spec_lines(s.subrange(cut + 1, s.len() as int))
    } else {
        seq![s]
    }
}

/// The characters of each string of `lines`.
pub open spec fn lines_view(lines: Seq<String>) -> Seq<Seq<char>> {
    Seq::new(lines.len(), |i: int| lines[i]@)
}

/// Calls `str::lines` and copies each line into a `String`. The contract is
/// what std documents of `lines`: the text is cut at every line feed, a
/// carriage return before it goes with it, and a final terminator adds no
/// empty line.
#[verifier::external_body]
pub(crate) fn split_lines(s: &str) -> (lines: Vec<String>)
    ensures
        lines_view(lines@) == spec_lines(s@),
{
    s.lines().map(String::from).collect()
}

/// Collects characters into a `String` with std's `FromIterator<char>`; the
/// string holds those characters in order.
#[verifier::external_body]
pub(crate) fn string_from_chars(chars: &Vec<char>) -> (s: String)
    ensures
        s@ == chars@,
{
    chars.iter().collect()
}

/// The characters of `s`, in order.
pub fn chars_of(s: &str) -> (chars: Vec<char>)
    ensures
        chars@ == s@,
{
    broadcast use vstd::string::axiom_spec_iter;

    let mut chars: Vec<char> = Vec::new();
    for c in it: s.chars()
        invariant
            it.seq() == s@,
            chars@ == s@.take(it.index() as int),
    {
        chars.push(c);
    }
    chars
}

} // verus!
