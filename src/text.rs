//! Text helpers over `String` and `&str`, stated over character sequences.

use vstd::prelude::*;
use unicode_width::UnicodeWidthStr;

verus! {

/// The lines joined with `sep` between each two neighbours.
pub open spec fn join_seq(lines: Seq<Seq<char>>, sep: Seq<char>) -> Seq<char>
    decreases lines.len(),
{
    if lines.len() == 0 {
        Seq::empty()
    } else if lines.len() == 1 {
        lines[0]
    } else {
        join_seq(lines.drop_last(), sep) + sep + lines.last()
    }
}

/// The character sequences of a list of strings.
pub open spec fn views(lines: Seq<String>) -> Seq<Seq<char>> {
    lines.map_values(|s: String| s@)
}

/// The lines of a text joined with a newline between each two neighbours.
pub open spec fn join_lines(lines: Seq<String>) -> Seq<char> {
    join_seq(views(lines), seq!['\n'])
}

/// Whether a character has the Unicode `White_Space` property.
pub open spec fn is_white(c: char) -> bool {
    let u = c as u32;
    (0x9 <= u <= 0xd) || u == 0x20 || u == 0x85 || u == 0xa0 || u == 0x1680 || (0x2000 <= u
        <= 0x200a) || u == 0x2028 || u == 0x2029 || u == 0x202f || u == 0x205f || u == 0x3000
}

/// The text without its leading whitespace.
pub open spec fn trim_start_of(s: Seq<char>) -> Seq<char>
    decreases s.len(),
{
    if s.len() > 0 && is_white(s[0]) {
        trim_start_of(s.drop_first())
    } else {
        s
    }
}

/// The text without its trailing whitespace.
pub open spec fn trim_end_of(s: Seq<char>) -> Seq<char>
    decreases s.len(),
{
    if s.len() > 0 && is_white(s.last()) {
        trim_end_of(s.drop_last())
    } else {
        s
    }
}

/// The text without its leading and trailing whitespace.
pub open spec fn trim_of(s: Seq<char>) -> Seq<char> {
    trim_end_of(trim_start_of(s))
}

/// The number of terminal columns a text takes, as `UnicodeWidthStr::width`
/// counts them.
pub uninterp spec fn display_width(s: Seq<char>) -> nat;

/// Relies on `str::trim`: the text without its leading and trailing
/// characters of the Unicode `White_Space` property.
#[verifier::external_body]
pub(crate) fn trim(s: &str) -> (r: String)
    ensures
        r@ == trim_of(s@),
{
    s.trim().to_string()
}

/// Relies on `unicode_width::UnicodeWidthStr::width`: the width depends on
/// the characters alone, and an empty text is zero columns wide.
#[verifier::external_body]
pub(crate) fn width_of(s: &str) -> (r: usize)
    ensures
        r as nat == display_width(s@),
        s@.len() == 0 ==> r == 0,
{
    UnicodeWidthStr::width(s)
}

/// A copy of a string, with the same characters.
pub fn copy_text(s: &String) -> (r: String)
    ensures
        r == *s,
        r@ == s@,
{
    s.clone()
}

/// A copy of a list of strings, element by element.
pub fn copy_lines(lines: &Vec<String>) -> (r: Vec<String>)
    ensures
        r@ == lines@,
{
    let mut r: Vec<String> = Vec::new();
    let mut i: usize = 0;
    while i < lines.len()
        invariant
            i <= lines@.len(),
            r@ == lines@.take(i as int),
        decreases lines@.len() - i,
    {
        r.push(lines[i].clone());
        i = i + 1;
        assert(r@ =~= lines@.take(i as int));
    }
    assert(lines@.take(lines@.len() as int) =~= lines@);
    r
}

/// The lines joined with a newline between each two neighbours, as
/// `[String]::join("\n")` does.
pub fn join_newline(lines: &Vec<String>) -> (r: String)
    ensures
        r@ == join_lines(lines@),
{
    let mut r = String::new();
    let mut i: usize = 0;
    proof {
        reveal_strlit("\n");
    }
    while i < lines.len()
        invariant
            i <= lines@.len(),
            "\n"@ == seq!['\n'],
            r@ == join_seq(views(lines@.take(i as int)), seq!['\n']),
        decreases lines@.len() - i,
    {
        let ghost before = views(lines@.take(i as int));
        if i > 0 {
            r.append("\n");
        }
        r.append(lines[i].as_str());
        i = i + 1;
        proof {
            let now = views(lines@.take(i as int));
            assert(now.drop_last() =~= before);
            assert(now.last() == lines@[i - 1]@);
            if i == 1 {
                assert(before.len() == 0);
                assert(r@ =~= now[0]);
            } else {
                assert(r@ =~= join_seq(before, seq!['\n']) + seq!['\n'] + now.last());
            }
        }
    }
    assert(lines@.take(lines@.len() as int) =~= lines@);
    r
}

/// Whether lines joined by newlines give an empty text: there is at most
/// one line, and it is empty.
pub fn is_empty(lines: &Vec<String>) -> (r: bool)
    ensures
        r == (join_lines(lines@).len() == 0),
{
    let joined = join_newline(lines);
    joined.as_str().is_empty()
}

/// Whether two texts hold the same characters.
pub fn same_text(a: &str, b: &str) -> (r: bool)
    ensures
        r == (a@ == b@),
{
    let n = a.unicode_len();
    if n != b.unicode_len() {
        return false;
    }
    let mut i: usize = 0;
    while i < n
        invariant
            n == a@.len(),
            n == b@.len(),
            i <= n,
            a@.take(i as int) == b@.take(i as int),
        decreases n - i,
    {
        if a.get_char(i) != b.get_char(i) {
            return false;
        }
        i = i + 1;
        assert(a@.take(i as int) =~= a@.take(i - 1).push(a@[i - 1]));
        assert(b@.take(i as int) =~= b@.take(i - 1).push(b@[i - 1]));
    }
    assert(a@ =~= a@.take(n as int));
    assert(b@ =~= b@.take(n as int));
    true
}

} // verus!
