//! The commit draft in its final form, and its canonical text.

use vstd::prelude::*;
use crate::parse::{split_on, split_spec};
use crate::text::{
    copy_lines, copy_text, display_width, is_empty, join_lines, join_newline, trim, trim_of, views,
    width_of,
};

verus! {

/// What the version-control tool reports of a commit it created.
#[derive(Debug, Clone)]
pub struct CommitInfo {
    pub hash: String,
    pub author: String,
    pub author_email: String,
    pub date: String,
}

/// A commit as shown once it was made: what the tool reported, and the
/// message it was made with.
#[derive(Debug, Clone)]
pub struct Commit {
    pub info: Option<CommitInfo>,
    pub message: Option<ConventionalCommitMessage>,
}

/// The fields of a conventional commit message.
#[derive(Debug, Clone)]
pub struct ConventionalCommitMessage {
    pub kind: String,
    pub emoji: String,
    pub scope: String,
    pub summary: String,
    pub body: Vec<String>,
    pub footer: Vec<String>,
    pub breaking: bool,
}

/// `(scope)` when the trimmed scope is not empty, else nothing.
pub open spec fn scope_segment(scope: Seq<char>) -> Seq<char> {
    if trim_of(scope).len() > 0 {
        seq!['('] + trim_of(scope) + seq![')']
    } else {
        Seq::empty()
    }
}

/// `!` for a breaking change, else nothing.
pub open spec fn breaking_segment(breaking: bool) -> Seq<char> {
    if breaking {
        seq!['!']
    } else {
        Seq::empty()
    }
}

/// The trimmed emoji and a space when the trimmed emoji is not empty, else
/// nothing.
pub open spec fn emoji_segment(emoji: Seq<char>) -> Seq<char> {
    if trim_of(emoji).len() > 0 {
        trim_of(emoji) + seq![' ']
    } else {
        Seq::empty()
    }
}

/// The title line before trimming: `kind(scope)!: emoji summary`.
pub open spec fn title_spec(
    kind: Seq<char>,
    scope: Seq<char>,
    breaking: bool,
    emoji: Seq<char>,
    summary: Seq<char>,
) -> Seq<char> {
    kind + scope_segment(scope) + breaking_segment(breaking) + seq![':', ' '] + emoji_segment(
        emoji,
    ) + summary
}

/// With a scope and an emoji that trim to nothing, the title is the kind,
/// the breaking mark, a colon and a space, and the summary: neither the
/// parenthesized segment nor the space after an emoji is there.
pub proof fn lemma_title_without_optional_segments(
    kind: Seq<char>,
    scope: Seq<char>,
    breaking: bool,
    emoji: Seq<char>,
    summary: Seq<char>,
)
    requires
        trim_of(scope).len() == 0,
        trim_of(emoji).len() == 0,
    ensures
        title_spec(kind, scope, breaking, emoji, summary) == kind + breaking_segment(breaking)
            + seq![':', ' '] + summary,
{
    assert(title_spec(kind, scope, breaking, emoji, summary) =~= kind + breaking_segment(breaking)
        + seq![':', ' '] + summary);
}

/// A section separated from what precedes it by a blank line, or nothing
/// when the section is empty.
pub open spec fn section(part: Seq<char>) -> Seq<char> {
    if part.len() > 0 {
        seq!['\n', '\n'] + part
    } else {
        Seq::empty()
    }
}

/// The lines of a block, joined and trimmed.
pub open spec fn block_spec(lines: Seq<String>) -> Seq<char> {
    trim_of(join_lines(lines))
}

/// The body and the footer, with a blank line between them when both are
/// there.
pub open spec fn full_body_spec(body: Seq<char>, footer: Seq<char>) -> Seq<char> {
    if body.len() > 0 {
        body + section(footer)
    } else {
        footer
    }
}

/// The rows a message takes: the title, then each non-empty block with a
/// blank row before it.
pub open spec fn height_spec(body: Seq<String>, footer: Seq<String>) -> nat {
    1 + (if join_lines(body).len() > 0 {
        body.len() + 1
    } else {
        0
    }) + (if join_lines(footer).len() > 0 {
        footer.len() + 1
    } else {
        0
    })
}

/// The widest of the given lines, or 0 when there is none.
pub open spec fn max_width(lines: Seq<Seq<char>>) -> nat
    decreases lines.len(),
{
    if lines.len() == 0 {
        0
    } else {
        let w = display_width(lines.last());
        let rest = max_width(lines.drop_last());
        if w > rest {
            w
        } else {
            rest
        }
    }
}

/// A count capped at the largest `u16`.
pub open spec fn cap_u16(n: nat) -> u16 {
    if n > u16::MAX {
        u16::MAX
    } else {
        n as u16
    }
}

/// The canonical title line of a message with these fields.
pub open spec fn canonical_title(
    kind: Seq<char>,
    scope: Seq<char>,
    breaking: bool,
    emoji: Seq<char>,
    summary: Seq<char>,
) -> Seq<char> {
    trim_of(title_spec(kind, scope, breaking, emoji, summary))
}

/// The canonical commit text of a message with these fields.
pub open spec fn commit_text_of(
    kind: Seq<char>,
    scope: Seq<char>,
    breaking: bool,
    emoji: Seq<char>,
    summary: Seq<char>,
    body: Seq<String>,
    footer: Seq<String>,
) -> Seq<char> {
    trim_of(title_spec(kind, scope, breaking, emoji, summary)) + section(block_spec(body))
        + section(block_spec(footer))
}

impl ConventionalCommitMessage {
    /// The title line, before trimming.
    pub open spec fn title_view(&self) -> Seq<char> {
        title_spec(self.kind@, self.scope@, self.breaking, self.emoji@, self.summary@)
    }

    /// The canonical title line.
    pub open spec fn title(&self) -> Seq<char> {
        trim_of(self.title_view())
    }

    /// The canonical body block.
    pub open spec fn body_block(&self) -> Seq<char> {
        block_spec(self.body@)
    }

    /// The canonical footer block.
    pub open spec fn footer_block(&self) -> Seq<char> {
        block_spec(self.footer@)
    }

    /// The canonical commit text: the title, then the body and the footer,
    /// each after a blank line and each only when not empty.
    pub open spec fn commit_text(&self) -> Seq<char> {
        commit_text_of(
            self.kind@,
            self.scope@,
            self.breaking,
            self.emoji@,
            self.summary@,
            self.body@,
            self.footer@,
        )
    }

    fn block_width(lines: &Vec<String>) -> (r: usize)
        ensures
            r as nat == max_width(views(lines@)),
    {
        let mut best: usize = 0;
        let mut i: usize = 0;
        while i < lines.len()
            invariant
                i <= lines@.len(),
                best as nat == max_width(views(lines@.take(i as int))),
            decreases lines@.len() - i,
        {
            let w = width_of(lines[i].as_str());
            proof {
                let now = views(lines@.take(i + 1));
                assert(now.drop_last() =~= views(lines@.take(i as int)));
                assert(now.last() == lines@[i as int]@);
            }
            if w > best {
                best = w;
            }
            i = i + 1;
        }
        assert(lines@.take(lines@.len() as int) =~= lines@);
        best
    }

    /// The columns the message takes: the widest of its title and of the
    /// lines of its body and footer, capped at the largest `u16`.
    pub fn width(&self) -> (r: u16)
        ensures
            r == cap_u16(
                vstd::math::max(
                    vstd::math::max(
                        display_width(self.title()) as int,
                        max_width(views(self.body@)) as int,
                    ),
                    max_width(views(self.footer@)) as int,
                ) as nat,
            ),
    {
        let title = self.raw_title();
        let t = width_of(title.as_str());
        let b = Self::block_width(&self.body);
        let f = Self::block_width(&self.footer);
        let mut w = t;
        if b > w {
            w = b;
        }
        if f > w {
            w = f;
        }
        if w > 65535 {
            65535
        } else {
            w as u16
        }
    }

    /// The rows the message takes: one for the title, and for a body or a
    /// footer whose lines are not all empty, one per line and one blank row
    /// before it; capped at the largest `u16`.
    pub fn height(&self) -> (r: u16)
        ensures
            r == cap_u16(height_spec(self.body@, self.footer@)),
    {
        let mut h: u128 = 1;
        if !is_empty(&self.body) {
            h = h + self.body.len() as u128 + 1;
        }
        if !is_empty(&self.footer) {
            h = h + self.footer.len() as u128 + 1;
        }
        if h > 65535 {
            65535
        } else {
            h as u16
        }
    }

    /// The body lines joined and trimmed.
    pub fn raw_body(&self) -> (r: String)
        ensures
            r@ == self.body_block(),
    {
        let joined = join_newline(&self.body);
        trim(joined.as_str())
    }

    /// The footer lines joined and trimmed.
    pub fn raw_footer(&self) -> (r: String)
        ensures
            r@ == self.footer_block(),
    {
        let joined = join_newline(&self.footer);
        trim(joined.as_str())
    }

    /// The title line `kind(scope)!: emoji summary`, trimmed; the scope
    /// segment, the `!` and the emoji segment are each there only when their
    /// field is.
    pub fn raw_title(&self) -> (r: String)
        ensures
            r@ == self.title(),
    {
        proof {
            reveal_strlit("(");
            reveal_strlit(")");
            reveal_strlit("!");
            reveal_strlit(": ");
            reveal_strlit(" ");
        }
        let mut title = copy_text(&self.kind);
        let scope = trim(self.scope.as_str());
        if !scope.as_str().is_empty() {
            title.append("(");
            title.append(scope.as_str());
            title.append(")");
        }
        if self.breaking {
            title.append("!");
        }
        title.append(": ");
        let emoji = trim(self.emoji.as_str());
        if !emoji.as_str().is_empty() {
            title.append(emoji.as_str());
            title.append(" ");
        }
        title.append(self.summary.as_str());
        assert(title@ =~= self.title_view());
        trim(title.as_str())
    }

    /// The whole commit text handed to the version-control tool.
    pub fn raw_commit(&self) -> (r: String)
        ensures
            r@ == self.commit_text(),
    {
        proof {
            reveal_strlit("\n\n");
        }
        let mut commit = self.raw_title();
        let raw_body = self.raw_body();
        let raw_footer = self.raw_footer();
        if !raw_body.as_str().is_empty() {
            commit.append("\n\n");
            commit.append(raw_body.as_str());
        }
        if !raw_footer.as_str().is_empty() {
            commit.append("\n\n");
            commit.append(raw_footer.as_str());
        }
        assert(commit@ =~= self.commit_text());
        commit
    }

    /// The body and the footer, with a blank line between them when both
    /// are there.
    pub fn raw_full_body(&self) -> (r: String)
        ensures
            r@ == full_body_spec(self.body_block(), self.footer_block()),
    {
        proof {
            reveal_strlit("\n\n");
        }
        let mut result = String::new();
        let raw_body = self.raw_body();
        let raw_footer = self.raw_footer();
        if !raw_body.as_str().is_empty() {
            result.append(raw_body.as_str());
        }
        if !raw_footer.as_str().is_empty() {
            if !raw_body.as_str().is_empty() {
                result.append("\n\n");
            }
            result.append(raw_footer.as_str());
        }
        assert(result@ =~= full_body_spec(self.body_block(), self.footer_block()));
        result
    }

    /// The width and the height of the message.
    pub fn size(&self) -> (r: (u16, u16))
        ensures
            r.1 == cap_u16(height_spec(self.body@, self.footer@)),
            r.0 == cap_u16(
                vstd::math::max(
                    vstd::math::max(
                        display_width(self.title()) as int,
                        max_width(views(self.body@)) as int,
                    ),
                    max_width(views(self.footer@)) as int,
                ) as nat,
            ),
    {
        (self.width(), self.height())
    }
}

/// The lines that show a made commit: its hash, author and date under
/// aligned labels, a blank line, the title, and the body and footer after
/// one more blank line when there are any.
pub open spec fn commit_lines(info: CommitInfo, title: Seq<char>, full_body: Seq<char>) -> Seq<
    Seq<char>,
> {
    seq![
        "Commit "@ + info.hash@,
        "Author "@ + info.author@ + " <"@ + info.author_email@ + ">"@,
        "Date   "@ + info.date@,
        Seq::empty(),
        title,
    ] + if full_body.len() > 0 {
        seq![Seq::<char>::empty()] + split_spec(full_body, '\n')
    } else {
        Seq::empty()
    }
}

impl Commit {
    /// The lines that show the commit once it was made; `None` while the
    /// report or the message is missing.
    pub fn as_lines(&self) -> (r: Option<Vec<String>>)
        ensures
            match (self.info, self.message) {
                (Some(info), Some(message)) => r matches Some(lines) && views(lines@)
                    == commit_lines(
                    info,
                    message.title(),
                    full_body_spec(message.body_block(), message.footer_block()),
                ),
                _ => r is None,
            },
    {
        match (&self.info, &self.message) {
            (Some(info), Some(message)) => {
                let mut lines: Vec<String> = Vec::new();
                let mut commit_line = String::from_str("Commit ");
                commit_line.append(info.hash.as_str());
                let mut author_line = String::from_str("Author ");
                author_line.append(info.author.as_str());
                author_line.append(" <");
                author_line.append(info.author_email.as_str());
                author_line.append(">");
                let mut date_line = String::from_str("Date   ");
                date_line.append(info.date.as_str());
                lines.push(commit_line);
                lines.push(author_line);
                lines.push(date_line);
                lines.push(String::new());
                lines.push(message.raw_title());
                let ghost head = lines@;
                let body = message.raw_full_body();
                if !body.as_str().is_empty() {
                    lines.push(String::new());
                    let mut rest = split_on(body.as_str(), '\n');
                    let ghost with_blank = lines@;
                    lines.append(&mut rest);
                    assert(views(lines@) =~= views(with_blank) + split_spec(body@, '\n'));
                }
                let ghost expected = commit_lines(
                    *info,
                    message.title(),
                    full_body_spec(message.body_block(), message.footer_block()),
                );
                assert(views(head) =~= expected.take(5));
                assert(views(lines@) =~= expected);
                Some(lines)
            },
            _ => None,
        }
    }
}

} // verus!
