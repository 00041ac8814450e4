//! Reading what the version-control tool prints after a commit and about a
//! commit.

use vstd::prelude::*;
use crate::commit::CommitInfo;
use crate::parse::{
    lemma_words_nonempty, split_on, split_spec, split_words, strip_trailing, strip_trailing_char,
    words,
};
use crate::text::views;

verus! {

/// Why a run of the version-control tool did not give a commit.
#[derive(Debug, Clone, PartialEq, Eq)]
pub enum GitError {
    /// The tool exited with a failure; what it printed on its error stream.
    CommandFailed(String),
    /// The tool succeeded but its output could not be read; that output.
    UnparsableOutput(String),
}

/// Whether a line of `git commit` output is its summary line
/// `[branch hash] title`: it starts with `[` and has at least three words.
pub open spec fn is_commit_line(line: Seq<char>) -> bool {
    line.len() > 0 && line[0] == '[' && words(line).len() >= 3
}

/// The first summary line among `lines`, if any.
pub open spec fn first_commit_line(lines: Seq<Seq<char>>) -> Option<Seq<char>>
    decreases lines.len(),
{
    if lines.len() == 0 {
        None
    } else if is_commit_line(lines[0]) {
        Some(lines[0])
    } else {
        first_commit_line(lines.drop_first())
    }
}

/// Whether a word closes the bracket of a summary line: it ends with `]`.
pub open spec fn closes_bracket(word: Seq<char>) -> bool {
    word.len() > 0 && word.last() == ']'
}

/// The position of the first word from `k` on that closes the bracket, or
/// 1 when none does.
pub open spec fn hash_index(ws: Seq<Seq<char>>, k: int) -> int
    decreases ws.len() - k,
{
    if k >= ws.len() {
        1
    } else if closes_bracket(ws[k]) {
        k
    } else {
        hash_index(ws, k + 1)
    }
}

/// The hash named on a summary line: the word that closes the bracket
/// (`[main 0a1b2c3]`, `[main (root-commit) 0a1b2c3]`), without its `]`.
pub open spec fn line_hash(line: Seq<char>) -> Seq<char> {
    strip_trailing(words(line)[hash_index(words(line), 1)], ']')
}

/// The branch named on a summary line: its first word without the `[`.
pub open spec fn line_branch(line: Seq<char>) -> Seq<char> {
    words(line)[0].drop_first()
}

/// The lines of the output of `git show` with one field per line: the
/// hash, the author, the author's e-mail and the date.
pub open spec fn log_lines(out: Seq<char>) -> Seq<Seq<char>> {
    split_spec(out, '\n')
}

/// Reads the output of `git commit`: the hash and the branch named on the
/// first line of the form `[branch hash] title`.
pub fn parse_commit_output(commit_out: &str) -> (r: Result<(String, String), GitError>)
    ensures
        match first_commit_line(split_spec(commit_out@, '\n')) {
            Some(line) => r matches Ok((hash, branch)) && hash@ == line_hash(line) && branch@
                == line_branch(line),
            None => r matches Err(GitError::UnparsableOutput(_)),
        },
{
    let lines = split_on(commit_out, '\n');
    let ghost all = views(lines@);
    let mut i: usize = 0;
    assert(all.skip(0) =~= all);
    while i < lines.len()
        invariant
            i <= lines@.len(),
            all == views(lines@),
            all == split_spec(commit_out@, '\n'),
            first_commit_line(all) == first_commit_line(all.skip(i as int)),
        decreases lines@.len() - i,
    {
        let line = lines[i].as_str();
        let ghost rest = all.skip(i as int);
        assert(rest[0] == line@);
        assert(rest.drop_first() =~= all.skip(i + 1));
        if line.unicode_len() > 0 && line.get_char(0) == '[' {
            let parts = split_words(line);
            proof {
                lemma_words_nonempty(line@);
                assert(views(parts@).len() == parts@.len());
            }
            if parts.len() >= 3 {
                let first = parts[0].as_str();
                assert(is_commit_line(line@));
                assert(views(parts@)[0] == first@);
                assert(views(parts@)[1] == parts@[1]@);
                let n = first.unicode_len();
                let branch = String::from_str(first.substring_char(1, n));
                assert(first@.subrange(1, n as int) =~= first@.drop_first());
                let ghost ws = views(parts@);
                let mut k: usize = 1;
                while k < parts.len()
                    invariant
                        1 <= k <= parts@.len(),
                        ws == views(parts@),
                        hash_index(ws, 1) == hash_index(ws, k as int),
                    ensures
                        1 <= k <= parts@.len(),
                        hash_index(ws, 1) == hash_index(ws, k as int),
                        k == parts@.len() || closes_bracket(ws[k as int]),
                    decreases parts@.len() - k,
                {
                    let w = parts[k].as_str();
                    assert(ws[k as int] == w@);
                    let wl = w.unicode_len();
                    if wl > 0 && w.get_char(wl - 1) == ']' {
                        break;
                    }
                    k = k + 1;
                }
                let found: usize = if k < parts.len() {
                    k
                } else {
                    1
                };
                assert(found as int == hash_index(ws, 1));
                assert(ws[found as int] == parts@[found as int]@);
                let hash = strip_trailing_char(parts[found].as_str(), ']');
                return Ok((hash, branch));
            }
        }
        i = i + 1;
    }
    proof {
        assert(all.skip(i as int).len() == 0);
    }
    Err(GitError::UnparsableOutput(String::from_str("no commit line in the output")))
}

/// Reads the output of `git show` printed with one field per line: the
/// hash, the author, the author's e-mail and the date, in that order.
pub fn parse_log(out: String) -> (r: Result<CommitInfo, GitError>)
    ensures
        log_lines(out@).len() >= 4 ==> (r matches Ok(info) && info.hash@ == log_lines(out@)[0]
            && info.author@ == log_lines(out@)[1] && info.author_email@ == log_lines(out@)[2]
            && info.date@ == log_lines(out@)[3]),
        log_lines(out@).len() < 4 ==> (r matches Err(GitError::UnparsableOutput(o)) && o@
            == out@),
{
    let lines = split_on(out.as_str(), '\n');
    if lines.len() < 4 {
        return Err(GitError::UnparsableOutput(out));
    }
    assert(views(lines@)[0] == lines@[0]@);
    assert(views(lines@)[1] == lines@[1]@);
    assert(views(lines@)[2] == lines@[2]@);
    assert(views(lines@)[3] == lines@[3]@);
    Ok(
        CommitInfo {
            hash: lines[0].clone(),
            author: lines[1].clone(),
            author_email: lines[2].clone(),
            date: lines[3].clone(),
        },
    )
}

} // verus!
