//! Splitting text into lines and words, stated over character sequences.

use vstd::prelude::*;
use crate::text::{is_white, views};

verus! {

/// The pieces of `s` between the occurrences of `c`: one more piece than
/// there are occurrences, empty pieces included.
pub open spec fn split_spec(s: Seq<char>, c: char) -> Seq<Seq<char>>
    decreases s.len(),
{
    if s.len() == 0 {
        seq![Seq::empty()]
    } else {
        let init = split_spec(s.drop_last(), c);
        if s.last() == c {
            init.push(Seq::empty())
        } else {
            init.update(init.len() - 1, init.last().push(s.last()))
        }
    }
}

/// The maximal runs of non-whitespace characters of `s`, in order.
pub open spec fn words(s: Seq<char>) -> Seq<Seq<char>>
    decreases s.len(),
{
    if s.len() == 0 {
        Seq::empty()
    } else {
        let w = words(s.drop_last());
        let c = s.last();
        if is_white(c) {
            w
        } else if s.len() >= 2 && !is_white(s[s.len() - 2]) && w.len() > 0 {
            w.update(w.len() - 1, w.last().push(c))
        } else {
            w.push(seq![c])
        }
    }
}

/// `s` without the copies of `c` at its end.
pub open spec fn strip_trailing(s: Seq<char>, c: char) -> Seq<char>
    decreases s.len(),
{
    if s.len() > 0 && s.last() == c {
        strip_trailing(s.drop_last(), c)
    } else {
        s
    }
}

pub proof fn lemma_words_nonempty(s: Seq<char>)
    ensures
        forall|k: int| 0 <= k < words(s).len() ==> #[trigger] words(s)[k].len() > 0,
    decreases s.len(),
{
    if s.len() > 0 {
        let w = words(s.drop_last());
        lemma_words_nonempty(s.drop_last());
        let c = s.last();
        if !is_white(c) {
            if s.len() >= 2 && !is_white(s[s.len() - 2]) && w.len() > 0 {
                assert(w.last().push(c).len() > 0);
                assert(forall|k: int|
                    0 <= k < words(s).len() ==> #[trigger] words(s)[k] == (if k == w.len() - 1 {
                        w.last().push(c)
                    } else {
                        w[k]
                    }));
            } else {
                assert(forall|k: int|
                    0 <= k < words(s).len() ==> #[trigger] words(s)[k] == (if k == w.len() {
                        seq![c]
                    } else {
                        w[k]
                    }));
            }
        }
    }
}

/// Whether a character has the Unicode `White_Space` property, as
/// `char::is_whitespace` tells.
pub fn is_whitespace_char(c: char) -> (r: bool)
    ensures
        r == is_white(c),
{
    let u = c as u32;
    (0x9 <= u && u <= 0xd) || u == 0x20 || u == 0x85 || u == 0xa0 || u == 0x1680 || (0x2000 <= u
        && u <= 0x200a) || u == 0x2028 || u == 0x2029 || u == 0x202f || u == 0x205f || u == 0x3000
}

fn piece(s: &str, from: usize, to: usize) -> (r: String)
    requires
        from <= to <= s@.len(),
    ensures
        r@ == s@.subrange(from as int, to as int),
{
    String::from_str(s.substring_char(from, to))
}

/// The pieces of `s` between the occurrences of `c`, as `str::split` gives
/// them.
pub fn split_on(s: &str, c: char) -> (r: Vec<String>)
    ensures
        views(r@) == split_spec(s@, c),
{
    let n = s.unicode_len();
    let mut pieces: Vec<String> = Vec::new();
    let mut start: usize = 0;
    let mut i: usize = 0;
    assert(s@.take(0) =~= Seq::<char>::empty());
    assert(s@.subrange(0, 0) =~= Seq::<char>::empty());
    assert(views(pieces@).push(Seq::<char>::empty()) =~= seq![Seq::<char>::empty()]);
    while i < n
        invariant
            n == s@.len(),
            start <= i <= n,
            split_spec(s@.take(i as int), c) == views(pieces@).push(
                s@.subrange(start as int, i as int),
            ),
        decreases n - i,
    {
        let ch = s.get_char(i);
        let ghost old_pieces = pieces@;
        let ghost old_start = start;
        assert(s@.take(i + 1).drop_last() =~= s@.take(i as int));
        assert(s@.take(i + 1).last() == ch);
        if ch == c {
            pieces.push(piece(s, start, i));
            start = i + 1;
            assert(views(pieces@) =~= views(old_pieces).push(
                s@.subrange(old_start as int, i as int),
            ));
            assert(s@.subrange(start as int, i + 1) =~= Seq::<char>::empty());
        } else {
            assert(s@.subrange(start as int, i + 1) =~= s@.subrange(start as int, i as int).push(
                ch,
            ));
        }
        i = i + 1;
        assert(split_spec(s@.take(i as int), c) =~= views(pieces@).push(
            s@.subrange(start as int, i as int),
        ));
    }
    let ghost before = pieces@;
    pieces.push(piece(s, start, n));
    assert(s@.take(n as int) =~= s@);
    assert(views(pieces@) =~= views(before).push(s@.subrange(start as int, n as int)));
    pieces
}

/// The words of `s`, as `str::split_whitespace` gives them.
pub fn split_words(s: &str) -> (r: Vec<String>)
    ensures
        views(r@) == words(s@),
{
    let n = s.unicode_len();
    let mut pieces: Vec<String> = Vec::new();
    let mut start: usize = 0;
    let mut in_word = false;
    let mut i: usize = 0;
    while i < n
        invariant
            n == s@.len(),
            start <= i <= n,
            in_word ==> i > 0 && start < i && !is_white(s@[i - 1]) && words(s@.take(i as int))
                == views(pieces@).push(s@.subrange(start as int, i as int)),
            !in_word ==> (i == 0 || is_white(s@[i - 1])) && words(s@.take(i as int)) == views(
                pieces@,
            ),
        decreases n - i,
    {
        let ch = s.get_char(i);
        let ghost old_pieces = pieces@;
        let ghost old_start = start;
        assert(s@.take(i + 1).drop_last() =~= s@.take(i as int));
        assert(s@.take(i + 1).last() == ch);
        if i > 0 {
            assert(s@.take(i + 1)[i - 1] == s@[i - 1]);
        }
        if is_whitespace_char(ch) {
            if in_word {
                pieces.push(piece(s, start, i));
                in_word = false;
                assert(views(pieces@) =~= views(old_pieces).push(
                    s@.subrange(old_start as int, i as int),
                ));
            }
        } else if in_word {
            assert(s@.subrange(start as int, i + 1) =~= s@.subrange(start as int, i as int).push(
                ch,
            ));
            assert(words(s@.take(i + 1)) =~= views(pieces@).push(
                s@.subrange(start as int, i + 1),
            ));
        } else {
            start = i;
            in_word = true;
            assert(s@.subrange(start as int, i + 1) =~= seq![ch]);
            assert(words(s@.take(i + 1)) =~= views(pieces@).push(
                s@.subrange(start as int, i + 1),
            ));
        }
        i = i + 1;
    }
    assert(s@.take(n as int) =~= s@);
    if in_word {
        let ghost before = pieces@;
        pieces.push(piece(s, start, n));
        assert(views(pieces@) =~= views(before).push(s@.subrange(start as int, n as int)));
    }
    pieces
}

/// `s` without the copies of `c` at its end, as `str::trim_end_matches`
/// gives it for a character.
pub fn strip_trailing_char(s: &str, c: char) -> (r: String)
    ensures
        r@ == strip_trailing(s@, c),
{
    let mut j = s.unicode_len();
    assert(s@.take(j as int) =~= s@);
    loop
        invariant
            j <= s@.len(),
            strip_trailing(s@, c) == strip_trailing(s@.take(j as int), c),
        ensures
            j <= s@.len(),
            strip_trailing(s@, c) == strip_trailing(s@.take(j as int), c),
            j == 0 || s@[j - 1] != c,
        decreases j,
    {
        assert(s@.take(j as int).len() == j);
        if j == 0 {
            break;
        }
        if s.get_char(j - 1) != c {
            break;
        }
        assert(s@.take(j as int).drop_last() =~= s@.take(j - 1));
        j = j - 1;
    }
    assert(s@.subrange(0, j as int) =~= s@.take(j as int));
    if j > 0 {
        assert(s@.take(j as int).last() == s@[j - 1]);
    }
    piece(s, 0, j)
}

} // verus!
