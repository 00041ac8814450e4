//! The shared application state: the commit in progress, the validity of
//! each step and the configuration of the run.

use vstd::prelude::*;
use crate::commit::{Commit, CommitInfo, ConventionalCommitMessage};
use crate::config::{CocoConfig, CommitKind};
use crate::steps::{FormStep, StepStatus};
use crate::text::{copy_lines, copy_text};

verus! {

/// A copy of a commit kind, with the same texts.
pub fn copy_kind(kind: &CommitKind) -> (r: CommitKind)
    ensures
        r == *kind,
{
    CommitKind {
        name: copy_text(&kind.name),
        emoji: copy_text(&kind.emoji),
        description: copy_text(&kind.description),
    }
}

/// A copy of what the tool reported of a commit.
pub fn copy_info(info: &CommitInfo) -> (r: CommitInfo)
    ensures
        r == *info,
{
    CommitInfo {
        hash: copy_text(&info.hash),
        author: copy_text(&info.author),
        author_email: copy_text(&info.author_email),
        date: copy_text(&info.date),
    }
}

/// The text of an optional field, or an empty text.
pub open spec fn text_or_empty(t: Option<String>) -> Seq<char> {
    match t {
        Some(s) => s@,
        None => Seq::empty(),
    }
}

/// The lines of an optional field, or no line.
pub open spec fn lines_or_empty(t: Option<Vec<String>>) -> Seq<String> {
    match t {
        Some(v) => v@,
        None => Seq::empty(),
    }
}

/// The validity of the commit step given its fields: valid with a
/// non-empty summary, and a body and a footer that have been given.
pub open spec fn commit_status_for(
    summary: Option<String>,
    body: Option<Vec<String>>,
    footer: Option<Vec<String>>,
) -> StepStatus {
    if summary matches Some(s) && s@.len() > 0 && body is Some && footer is Some {
        StepStatus::Valid
    } else {
        StepStatus::Invalid
    }
}

/// The state shared by the components of the wizard.
pub struct AppState {
    pub config: CocoConfig,
    pub type_status: StepStatus,
    pub scope_status: StepStatus,
    pub commit_status: StepStatus,
    pub breaking_status: StepStatus,
    pub preview_status: StepStatus,
    pub kind: Option<CommitKind>,
    pub scope: Option<String>,
    pub summary: Option<String>,
    pub body: Option<Vec<String>>,
    pub footer: Option<Vec<String>>,
    pub breaking: bool,
    pub commit_info: Option<CommitInfo>,
}

impl AppState {
    /// The validity recorded for a step.
    pub open spec fn status_of(&self, step: FormStep) -> StepStatus {
        match step {
            FormStep::Type => self.type_status,
            FormStep::Scope => self.scope_status,
            FormStep::Commit => self.commit_status,
            FormStep::BreakingChange => self.breaking_status,
            FormStep::Preview => self.preview_status,
        }
    }

    /// This state with the validity of one step replaced.
    pub open spec fn with_status(self, step: FormStep, status: StepStatus) -> AppState {
        match step {
            FormStep::Type => AppState { type_status: status, ..self },
            FormStep::Scope => AppState { scope_status: status, ..self },
            FormStep::Commit => AppState { commit_status: status, ..self },
            FormStep::BreakingChange => AppState { breaking_status: status, ..self },
            FormStep::Preview => AppState { preview_status: status, ..self },
        }
    }

    /// The name of the chosen kind, or an empty text.
    pub open spec fn kind_name(&self) -> Seq<char> {
        match self.kind {
            Some(k) => k.name@,
            None => Seq::empty(),
        }
    }

    /// The emoji of the chosen kind, or an empty text.
    pub open spec fn kind_emoji(&self) -> Seq<char> {
        match self.kind {
            Some(k) => k.emoji@,
            None => Seq::empty(),
        }
    }

    /// The canonical commit text of the draft.
    pub open spec fn draft_text(&self) -> Seq<char> {
        crate::commit::commit_text_of(
            self.kind_name(),
            text_or_empty(self.scope),
            self.breaking,
            self.kind_emoji(),
            text_or_empty(self.summary),
            lines_or_empty(self.body),
            lines_or_empty(self.footer),
        )
    }

    /// Whether a message is the one made of the draft: a missing field is
    /// empty.
    pub open spec fn is_draft_message(&self, m: ConventionalCommitMessage) -> bool {
        &&& m.kind@ == self.kind_name()
        &&& m.emoji@ == self.kind_emoji()
        &&& m.scope@ == text_or_empty(self.scope)
        &&& m.summary@ == text_or_empty(self.summary)
        &&& m.body@ == lines_or_empty(self.body)
        &&& m.footer@ == lines_or_empty(self.footer)
        &&& m.breaking == self.breaking
    }

    /// The message made of the draft has the draft's title and commit text.
    pub proof fn lemma_draft_message_text(&self, m: ConventionalCommitMessage)
        requires
            self.is_draft_message(m),
        ensures
            m.commit_text() == self.draft_text(),
            m.title() == crate::commit::canonical_title(
                self.kind_name(),
                text_or_empty(self.scope),
                self.breaking,
                self.kind_emoji(),
                text_or_empty(self.summary),
            ),
    {
    }

    /// Whether the draft fields of two states are the same.
    pub open spec fn same_draft(&self, other: &AppState) -> bool {
        &&& self.kind == other.kind
        &&& self.scope == other.scope
        &&& self.summary == other.summary
        &&& self.body == other.body
        &&& self.footer == other.footer
        &&& self.breaking == other.breaking
    }

    /// Whether the commit step is complete by its fields: a non-empty
    /// summary, and a body and a footer that have been given.
    pub open spec fn commit_fields_valid(&self) -> bool {
        &&& self.summary matches Some(s) && s@.len() > 0
        &&& self.body is Some
        &&& self.footer is Some
    }

    /// A state with nothing entered yet, every step invalid and no commit
    /// made.
    pub fn new(config: CocoConfig) -> (r: AppState)
        ensures
            r.config == config,
            forall|s: FormStep| r.status_of(s) == StepStatus::Invalid,
            r.kind is None,
            r.scope is None,
            r.summary is None,
            r.body is None,
            r.footer is None,
            !r.breaking,
            r.commit_info is None,
    {
        AppState {
            config,
            type_status: StepStatus::Invalid,
            scope_status: StepStatus::Invalid,
            commit_status: StepStatus::Invalid,
            breaking_status: StepStatus::Invalid,
            preview_status: StepStatus::Invalid,
            kind: None,
            scope: None,
            summary: None,
            body: None,
            footer: None,
            breaking: false,
            commit_info: None,
        }
    }

    pub fn get_kind(&self) -> (r: Option<CommitKind>)
        ensures
            r == self.kind,
    {
        match &self.kind {
            Some(k) => Some(copy_kind(k)),
            None => None,
        }
    }

    pub fn set_kind(&mut self, kind: Option<CommitKind>)
        ensures
            *final(self) == (AppState { kind, ..*old(self) }),
    {
        self.kind = kind;
    }

    /// Records the validity of a step; the others keep theirs.
    pub fn set_step_status(&mut self, step: FormStep, status: StepStatus)
        ensures
            *final(self) == old(self).with_status(step, status),
    {
        match step {
            FormStep::Type => self.type_status = status,
            FormStep::Scope => self.scope_status = status,
            FormStep::Commit => self.commit_status = status,
            FormStep::BreakingChange => self.breaking_status = status,
            FormStep::Preview => self.preview_status = status,
        }
    }

    /// The validity recorded for a step.
    pub fn get_step_status(&self, step: FormStep) -> (r: StepStatus)
        ensures
            r == self.status_of(step),
    {
        match step {
            FormStep::Type => self.type_status,
            FormStep::Scope => self.scope_status,
            FormStep::Commit => self.commit_status,
            FormStep::BreakingChange => self.breaking_status,
            FormStep::Preview => self.preview_status,
        }
    }

    pub fn set_scope(&mut self, scope: Option<String>)
        ensures
            *final(self) == (AppState { scope, ..*old(self) }),
    {
        self.scope = scope;
    }

    pub fn get_scope(&self) -> (r: Option<String>)
        ensures
            r == self.scope,
    {
        match &self.scope {
            Some(s) => Some(s.clone()),
            None => None,
        }
    }

    fn update_commit_step_status(&mut self)
        ensures
            *final(self) == (AppState {
                commit_status: commit_status_for(
                    old(self).summary,
                    old(self).body,
                    old(self).footer,
                ),
                ..*old(self)
            }),
    {
        let summary_ok = match &self.summary {
            Some(s) => !s.as_str().is_empty(),
            None => false,
        };
        let status = if summary_ok && self.body.is_some() && self.footer.is_some() {
            StepStatus::Valid
        } else {
            StepStatus::Invalid
        };
        self.commit_status = status;
    }

    /// Records the summary; the commit step is then valid exactly when its
    /// fields are.
    pub fn set_summary(&mut self, summary: String)
        ensures
            *final(self) == (AppState {
                summary: Some(summary),
                commit_status: commit_status_for(
                    Some(summary),
                    old(self).body,
                    old(self).footer,
                ),
                ..*old(self)
            }),
    {
        self.summary = Some(summary);
        self.update_commit_step_status();
    }

    pub fn get_summary(&self) -> (r: Option<String>)
        ensures
            r == self.summary,
    {
        match &self.summary {
            Some(s) => Some(s.clone()),
            None => None,
        }
    }

    /// Records the body lines; the commit step is then valid exactly when
    /// its fields are.
    pub fn set_body(&mut self, body: &Vec<String>)
        ensures
            final(self).body matches Some(b) && b@ == body@,
            *final(self) == (AppState {
                body: final(self).body,
                commit_status: commit_status_for(
                    old(self).summary,
                    final(self).body,
                    old(self).footer,
                ),
                ..*old(self)
            }),
    {
        self.body = Some(copy_lines(body));
        self.update_commit_step_status();
    }

    pub fn get_body(&self) -> (r: Option<Vec<String>>)
        ensures
            lines_or_empty(r) == lines_or_empty(self.body),
            r is Some <==> self.body is Some,
    {
        match &self.body {
            Some(b) => Some(copy_lines(b)),
            None => None,
        }
    }

    /// Records the footer lines; the commit step is then valid exactly when
    /// its fields are.
    pub fn set_footer(&mut self, footer: &Vec<String>)
        ensures
            final(self).footer matches Some(f) && f@ == footer@,
            *final(self) == (AppState {
                footer: final(self).footer,
                commit_status: commit_status_for(
                    old(self).summary,
                    old(self).body,
                    final(self).footer,
                ),
                ..*old(self)
            }),
    {
        self.footer = Some(copy_lines(footer));
        self.update_commit_step_status();
    }

    pub fn get_footer(&self) -> (r: Option<Vec<String>>)
        ensures
            lines_or_empty(r) == lines_or_empty(self.footer),
            r is Some <==> self.footer is Some,
    {
        match &self.footer {
            Some(f) => Some(copy_lines(f)),
            None => None,
        }
    }

    pub fn set_breaking(&mut self, breaking: bool)
        ensures
            *final(self) == (AppState { breaking, ..*old(self) }),
    {
        self.breaking = breaking;
    }

    pub fn get_breaking(&self) -> (r: bool)
        ensures
            r == self.breaking,
    {
        self.breaking
    }

    /// Records what the tool reported of the commit it made.
    pub fn set_commit_info(&mut self, info: CommitInfo)
        ensures
            *final(self) == (AppState { commit_info: Some(info), ..*old(self) }),
    {
        self.commit_info = Some(info);
    }

    pub fn get_commit_info(&self) -> (r: Option<CommitInfo>)
        ensures
            r == self.commit_info,
    {
        match &self.commit_info {
            Some(i) => Some(copy_info(i)),
            None => None,
        }
    }

    /// The commit message made of the draft: a missing field is empty.
    pub fn get_commit_message(&self) -> (r: ConventionalCommitMessage)
        ensures
            self.is_draft_message(r),
    {
        let (kind, emoji) = match &self.kind {
            Some(k) => (copy_text(&k.name), copy_text(&k.emoji)),
            None => (String::new(), String::new()),
        };
        let scope = match &self.scope {
            Some(s) => copy_text(s),
            None => String::new(),
        };
        let summary = match &self.summary {
            Some(s) => copy_text(s),
            None => String::new(),
        };
        let body = match &self.body {
            Some(b) => copy_lines(b),
            None => Vec::new(),
        };
        let footer = match &self.footer {
            Some(f) => copy_lines(f),
            None => Vec::new(),
        };
        ConventionalCommitMessage {
            kind,
            emoji,
            scope,
            summary,
            body,
            footer,
            breaking: self.breaking,
        }
    }

    /// The commit as it stands: the tool's report if the commit was made,
    /// and the message of the draft.
    pub fn get_commit(&self) -> (r: Commit)
        ensures
            r.info == self.commit_info,
            r.message matches Some(m) && self.is_draft_message(m),
    {
        Commit { info: self.get_commit_info(), message: Some(self.get_commit_message()) }
    }
}

} // verus!
