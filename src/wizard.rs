//! The top of the component tree: the route between the phases, the task
//! that makes the commit, and the runtime that delivers each message of the
//! event bus to the components in a fixed order.

use vstd::prelude::*;
use crate::builder::{
    builder_after, BreakingChangeStep, BuilderSection, CommitStep, PreviewStep, ScopeStep,
    TypeStep,
};
use crate::commit::{Commit, CommitInfo};
use crate::config::CocoConfig;
use crate::git::{
    first_commit_line, line_hash, log_lines, parse_commit_output, parse_log, GitError,
};
use crate::message::{Key, Message};
use crate::parse::split_spec;
use crate::state::AppState;
use crate::steps::{FormStep, InputType, StepStatus};

verus! {

/// The overall status of the program: starting, ready for the user, or
/// stopped by an error it cannot recover from.
#[derive(Debug, Clone, Copy, PartialEq, Eq, Structural)]
pub enum AppStatus {
    Loading,
    Ready,
    Error,
}

/// The phases of a run, and the help page that can stand in for any of
/// them.
#[derive(Debug, Clone, Copy, PartialEq, Eq, Structural)]
pub enum ContentRoute {
    Builder,
    Committing,
    Summary,
    Help,
}

/// Which phase is shown, and which one the help page stands in for.
#[derive(Debug, Clone, Copy, PartialEq, Eq, Structural)]
pub struct AppRouter {
    pub stashed_route: Option<ContentRoute>,
    pub current_route: ContentRoute,
}

/// The router after toggling the help page: from the help page back to the
/// phase it stands in for (staying there when there is none); from a phase
/// to the help page, remembering the phase.
pub open spec fn help_toggled(r: AppRouter) -> AppRouter {
    if r.current_route == ContentRoute::Help {
        match r.stashed_route {
            Some(s) => AppRouter { stashed_route: None, current_route: s },
            None => r,
        }
    } else {
        AppRouter { stashed_route: Some(r.current_route), current_route: ContentRoute::Help }
    }
}

/// The router after a message.
pub open spec fn router_after(r: AppRouter, m: Message) -> AppRouter {
    match m {
        Message::BuilderDone => AppRouter { current_route: ContentRoute::Committing, ..r },
        Message::CommittingDone => AppRouter { current_route: ContentRoute::Summary, ..r },
        Message::Key(Key::F2) => help_toggled(r),
        _ => r,
    }
}

impl AppRouter {
    /// Starts on the builder phase with nothing remembered.
    pub fn new() -> (r: AppRouter)
        ensures
            r.current_route == ContentRoute::Builder,
            r.stashed_route is None,
    {
        AppRouter { stashed_route: None, current_route: ContentRoute::Builder }
    }

    /// Shows `route`.
    pub fn route(&mut self, route: ContentRoute)
        ensures
            *final(self) == (AppRouter { current_route: route, ..*old(self) }),
    {
        self.current_route = route;
    }

    /// Shows the help page, or leaves it for the phase it stands in for.
    pub fn toggle_help(&mut self)
        ensures
            *final(self) == help_toggled(*old(self)),
    {
        if self.current_route == ContentRoute::Help {
            match self.stashed_route {
                Some(route) => {
                    self.stashed_route = None;
                    self.route(route);
                },
                None => {},
            }
        } else {
            self.stashed_route = Some(self.current_route);
            self.route(ContentRoute::Help);
        }
    }

    /// Reacts to a message: the end of the builder phase leads to the
    /// committing phase, the end of that one to the summary, and F2 toggles
    /// the help page.
    pub fn receive_message(&mut self, m: Message)
        ensures
            *final(self) == router_after(*old(self), m),
    {
        match m {
            Message::BuilderDone => self.route(ContentRoute::Committing),
            Message::CommittingDone => self.route(ContentRoute::Summary),
            Message::Key(Key::F2) => self.toggle_help(),
            _ => {},
        }
    }
}

/// Toggling the help page twice from a phase comes back to that phase.
pub proof fn lemma_help_round_trip(r: AppRouter)
    requires
        r.current_route != ContentRoute::Help,
    ensures
        help_toggled(help_toggled(r)).current_route == r.current_route,
        help_toggled(help_toggled(r)).stashed_route is None,
{
}

/// What the commit task does next after a run of the version-control tool.
#[derive(Debug, Clone)]
pub enum TaskDecision {
    /// Ask the tool about the commit with this hash.
    Show(String),
    /// The commit was made; record what the tool reported.
    Record(CommitInfo),
    /// The commit could not be made or read back.
    Fail(GitError),
}

/// What the commit task does once `git commit` has exited: on success it
/// asks about the commit named in the output; on failure, or when no
/// commit is named, it fails.
pub fn after_commit_command(success: bool, stdout: &str, stderr: &str) -> (r: TaskDecision)
    ensures
        !success ==> (r matches TaskDecision::Fail(GitError::CommandFailed(e)) && e@ == stderr@),
        success ==> match first_commit_line(split_spec(stdout@, '\n')) {
            Some(line) => r matches TaskDecision::Show(h) && h@ == line_hash(line),
            None => r matches TaskDecision::Fail(_),
        },
{
    if !success {
        return TaskDecision::Fail(GitError::CommandFailed(String::from_str(stderr)));
    }
    match parse_commit_output(stdout) {
        Ok((hash, _branch)) => TaskDecision::Show(hash),
        Err(e) => TaskDecision::Fail(e),
    }
}

/// What the commit task does once `git show` has exited: on success it
/// records the four fields of the output; on failure, or with fewer than
/// four lines, it fails.
pub fn after_show_command(success: bool, stdout: String, stderr: &str) -> (r: TaskDecision)
    ensures
        !success ==> (r matches TaskDecision::Fail(GitError::CommandFailed(e)) && e@ == stderr@),
        success && log_lines(stdout@).len() >= 4 ==> (r matches TaskDecision::Record(info)
            && info.hash@ == log_lines(stdout@)[0] && info.author@ == log_lines(stdout@)[1]
            && info.author_email@ == log_lines(stdout@)[2] && info.date@ == log_lines(
            stdout@,
        )[3]),
        success && log_lines(stdout@).len() < 4 ==> r matches TaskDecision::Fail(_),
{
    if !success {
        return TaskDecision::Fail(GitError::CommandFailed(String::from_str(stderr)));
    }
    match parse_log(stdout) {
        Ok(info) => TaskDecision::Record(info),
        Err(e) => TaskDecision::Fail(e),
    }
}

/// Outside work that the runtime asks the program around it to do.
#[derive(Debug, Clone)]
pub enum Effect {
    /// Run `git commit` with this message, in the background, and report
    /// its exit through `Wizard::on_commit_finished`.
    RunCommit(String),
    /// Run `git show` on this hash, in the background, and report its exit
    /// through `Wizard::on_show_finished`.
    RunShow(String),
    /// End the program.
    Quit,
}

/// The text fields whose lines the terminal widgets edit.
#[derive(Debug, Clone, Copy, PartialEq, Eq, Structural)]
pub enum FieldId {
    Scope,
    Summary,
    Body,
    Footer,
}

/// The text field of a field of the commit step.
pub open spec fn field_of_input(input: InputType) -> FieldId {
    match input {
        InputType::Summary => FieldId::Summary,
        InputType::Body => FieldId::Body,
        InputType::Footer => FieldId::Footer,
    }
}

/// The whole component tree with its shared state and its event bus.
pub struct Wizard {
    pub state: AppState,
    pub router: AppRouter,
    pub builder: BuilderSection,
    pub type_step: TypeStep,
    pub scope_step: ScopeStep,
    pub commit_step: CommitStep,
    pub breaking_step: BreakingChangeStep,
    pub preview_step: PreviewStep,
    /// The commit shown by the summary phase, once the committing phase is
    /// over.
    pub summary: Option<Commit>,
    /// Every message published so far, in order.
    pub queue: Vec<Message>,
    /// How many messages of the queue have been delivered.
    pub head: usize,
    /// Outside work asked for and not yet taken.
    pub effects: Vec<Effect>,
}

impl Wizard {
    /// The step cursor leaves the type step only once that step is valid,
    /// and no step is valid before the type step is.
    pub open spec fn cursor_consistent(&self) -> bool {
        &&& self.builder.current_step != FormStep::Type ==> self.state.type_status
            == StepStatus::Valid
        &&& self.state.type_status == StepStatus::Invalid ==> {
            &&& self.state.scope_status == StepStatus::Invalid
            &&& self.state.commit_status == StepStatus::Invalid
            &&& self.state.breaking_status == StepStatus::Invalid
            &&& self.state.preview_status == StepStatus::Invalid
        }
    }

    /// Whether a step is the one that receives keys: the builder phase is
    /// shown and the step is the current one.
    pub open spec fn step_has_focus(&self, step: FormStep) -> bool {
        self.router.current_route == ContentRoute::Builder && self.builder.current_step == step
    }

    /// A fresh run on the type step, with an empty draft and an empty bus.
    pub fn new(config: CocoConfig) -> (r: Wizard)
        ensures
            r.router.current_route == ContentRoute::Builder,
            r.builder.current_step == FormStep::Type,
            r.state.config == config,
            r.state.commit_info is None,
            r.queue@.len() == 0,
            r.head == 0,
            r.effects@.len() == 0,
            r.summary is None,
            r.cursor_consistent(),
    {
        let state = AppState::new(config);
        assert(state.status_of(FormStep::Type) == StepStatus::Invalid);
        assert(state.status_of(FormStep::Scope) == StepStatus::Invalid);
        assert(state.status_of(FormStep::Commit) == StepStatus::Invalid);
        assert(state.status_of(FormStep::BreakingChange) == StepStatus::Invalid);
        assert(state.status_of(FormStep::Preview) == StepStatus::Invalid);
        let scope_step = ScopeStep::new(&state.config);
        let commit_step = CommitStep::new(&state);
        Wizard {
            state,
            router: AppRouter::new(),
            builder: BuilderSection::new(),
            type_step: TypeStep::new(),
            scope_step,
            commit_step,
            breaking_step: BreakingChangeStep::new(),
            preview_step: PreviewStep::new(),
            summary: None,
            queue: Vec::new(),
            head: 0,
            effects: Vec::new(),
        }
    }

    /// Puts a message at the end of the bus.
    pub fn publish(&mut self, m: Message)
        ensures
            old(self).cursor_consistent() ==> final(self).cursor_consistent(),
            final(self).queue@ == old(self).queue@.push(m),
            final(self).head == old(self).head,
            final(self).state == old(self).state,
            final(self).router == old(self).router,
            final(self).builder == old(self).builder,
    {
        self.queue.push(m);
    }

    /// The step that receives keys, if the builder phase is shown.
    pub fn active_step(&self) -> (r: Option<FormStep>)
        ensures
            r == (if self.router.current_route == ContentRoute::Builder {
                Some(self.builder.current_step)
            } else {
                None
            }),
    {
        if self.router.current_route == ContentRoute::Builder {
            Some(self.builder.current_step)
        } else {
            None
        }
    }

    /// The text field that receives typed keys, if any.
    pub fn focused_field(&self) -> (r: Option<FieldId>)
        ensures
            r == Some(FieldId::Scope) <==> self.step_has_focus(FormStep::Scope)
                && self.scope_step.input is Some,
            self.step_has_focus(FormStep::Commit) ==> r == Some(
                field_of_input(self.commit_step.active_input),
            ),
            !self.step_has_focus(FormStep::Commit) && !self.step_has_focus(FormStep::Scope) ==> r
                is None,
    {
        match self.active_step() {
            Some(FormStep::Scope) => if self.scope_step.input.is_some() {
                Some(FieldId::Scope)
            } else {
                None
            },
            Some(FormStep::Commit) => Some(
                match self.commit_step.active_input {
                    InputType::Summary => FieldId::Summary,
                    InputType::Body => FieldId::Body,
                    InputType::Footer => FieldId::Footer,
                },
            ),
            _ => None,
        }
    }

    /// Records the grid position under the cursor of the type step.
    pub fn set_type_hovered(&mut self, index: Option<usize>)
        ensures
            old(self).cursor_consistent() ==> final(self).cursor_consistent(),
            final(self).type_step.hovered == index,
            final(self).state == old(self).state,
            final(self).queue@ == old(self).queue@,
    {
        self.type_step.hovered = index;
    }

    /// Records the grid position under the cursor of the scope step.
    pub fn set_scope_hovered(&mut self, index: Option<usize>)
        ensures
            old(self).cursor_consistent() ==> final(self).cursor_consistent(),
            final(self).scope_step.hovered == index,
            final(self).state == old(self).state,
            final(self).queue@ == old(self).queue@,
    {
        self.scope_step.hovered = index;
    }

    /// Takes the lines that the terminal widget of a field produced.
    pub fn set_field_lines(&mut self, field: FieldId, lines: &Vec<String>)
        ensures
            old(self).cursor_consistent() ==> final(self).cursor_consistent(),
            final(self).state == old(self).state,
            final(self).queue@ == old(self).queue@,
            field == FieldId::Summary ==> final(self).commit_step.summary_input.lines@ == lines@,
            field == FieldId::Body ==> final(self).commit_step.body_input.lines@ == lines@,
            field == FieldId::Footer ==> final(self).commit_step.footer_input.lines@ == lines@,
            field == FieldId::Scope && old(self).scope_step.input is Some
                ==> (final(self).scope_step.input matches Some(f) && f.lines@ == lines@),
    {
        match field {
            FieldId::Summary => self.commit_step.summary_input.set_lines(lines),
            FieldId::Body => self.commit_step.body_input.set_lines(lines),
            FieldId::Footer => self.commit_step.footer_input.set_lines(lines),
            FieldId::Scope => {
                match &mut self.scope_step.input {
                    Some(f) => f.set_lines(lines),
                    None => {},
                }
            },
        }
    }

    /// Whether the program should end on any key: the summary is shown.
    pub fn key_quits(&self) -> (r: bool)
        ensures
            r == (self.router.current_route == ContentRoute::Summary),
    {
        self.router.current_route == ContentRoute::Summary
    }

    /// What delivering one message does to the tree, from `before` to
    /// `after`.
    pub open spec fn dispatched(before: Wizard, after: Wizard, m: Message) -> bool {
        &&& (after.router == router_after(before.router, m))
        &&& (before.cursor_consistent() ==> after.cursor_consistent())
        &&& (after.state.commit_info == before.state.commit_info)
        &&& (after.head == before.head)
        &&& (before.queue@.len() <= after.queue@.len())
        &&& (after.queue@.subrange(0, before.queue@.len() as int) == before.queue@)
        &&& (after.state.config == before.state.config)
        &&& (after.router.current_route == ContentRoute::Builder
            ==> after.builder.current_step
            == builder_after(before.builder.current_step, m, before.state))
        &&& (after.router.current_route != ContentRoute::Builder ==> after.builder
            == before.builder)
        &&& (m == Message::BuilderNext || m == Message::BuilderPrev || m == Message::BuilderRestart
            || m == Message::CommittingFailed ==> {
            &&& after.state == before.state
            &&& after.queue@ == before.queue@
            &&& after.effects@ == before.effects@
            &&& after.summary == before.summary
        })
        &&& (m == Message::BuilderDone && before.router.current_route == ContentRoute::Builder
            ==> {
            &&& after.state == before.state
            &&& after.queue@ == before.queue@
            &&& after.effects@.len() == before.effects@.len() + 1
            &&& after.effects@.drop_last() == before.effects@
            &&& after.effects@.last() matches Effect::RunCommit(text) && text@
                == before.state.draft_text()
        })
        &&& (before.router.current_route == ContentRoute::Builder && m is Key && m
            != Message::Key(Key::F2) ==> {
            &&& after.builder == before.builder
            &&& after.effects@ == before.effects@
            &&& match before.builder.current_step {
                FormStep::Type => TypeStep::handled(
                    m,
                    before.type_step,
                    after.type_step,
                    before.state,
                    after.state,
                    before.queue@,
                    after.queue@,
                ),
                FormStep::Scope => ScopeStep::handled(
                    m,
                    before.scope_step,
                    after.scope_step,
                    before.state,
                    after.state,
                    before.queue@,
                    after.queue@,
                ),
                FormStep::Commit => CommitStep::handled(
                    m,
                    before.commit_step,
                    after.commit_step,
                    before.state,
                    after.state,
                    before.queue@,
                    after.queue@,
                ),
                FormStep::BreakingChange => BreakingChangeStep::handled(
                    m,
                    before.breaking_step,
                    after.breaking_step,
                    before.state,
                    after.state,
                    before.queue@,
                    after.queue@,
                ),
                FormStep::Preview => PreviewStep::handled(
                    m,
                    before.preview_step,
                    after.preview_step,
                    before.state,
                    after.state,
                    before.queue@,
                    after.queue@,
                ),
            }
        })
        &&& (before.router.current_route == ContentRoute::Help && m is Key && m != Message::Key(
            Key::F2,
        ) ==> {
            &&& after.state == before.state
            &&& after.queue@ == before.queue@
            &&& after.effects@ == before.effects@
        })
        &&& (m == Message::Key(Key::Enter) && before.router.current_route
            == ContentRoute::Summary ==> {
            &&& after.state == before.state
            &&& after.queue@ == before.queue@
            &&& after.effects@ == before.effects@.push(Effect::Quit)
        })
        &&& (m == Message::CommittingCommitted && before.router.current_route
            == ContentRoute::Committing ==> {
            &&& after.state == before.state
            &&& after.queue@ == before.queue@.push(Message::CommittingDone)
            &&& after.effects@ == before.effects@
            &&& after.summary == before.summary
        })
        &&& (m == Message::CommittingDone && before.router.current_route
            == ContentRoute::Committing ==> {
            &&& after.state == before.state
            &&& after.queue@ == before.queue@
            &&& after.effects@ == before.effects@
            &&& after.summary matches Some(c) && c.info == before.state.commit_info && (
            c.message matches Some(msg) && before.state.is_draft_message(msg))
        })
    }

    /// Delivers one message to the whole tree, parents before children: the
    /// router first, then the section of the phase it shows, and in the
    /// builder phase the current step. Messages published meanwhile go to
    /// the end of the bus.
    pub fn dispatch(&mut self, m: Message)
        ensures
            Self::dispatched(*old(self), *final(self), m),
    {
        let ghost q0 = self.queue@;
        self.router.receive_message(m);
        match self.router.current_route {
            ContentRoute::Builder => {
                let moved = self.builder.receive_message(m, &self.state);
                if moved && self.builder.current_step == FormStep::Commit {
                    self.commit_step.on_activated(&self.state);
                }
                match self.builder.current_step {
                    FormStep::Type => self.type_step.receive_message(
                        m,
                        &mut self.state,
                        &mut self.queue,
                    ),
                    FormStep::Scope => self.scope_step.receive_message(
                        m,
                        &mut self.state,
                        &mut self.queue,
                    ),
                    FormStep::Commit => self.commit_step.receive_message(
                        m,
                        &mut self.state,
                        &mut self.queue,
                    ),
                    FormStep::BreakingChange => self.breaking_step.receive_message(
                        m,
                        &mut self.state,
                        &mut self.queue,
                    ),
                    FormStep::Preview => self.preview_step.receive_message(
                        m,
                        &mut self.state,
                        &mut self.queue,
                    ),
                }
            },
            ContentRoute::Committing => {
                match m {
                    Message::BuilderDone => {
                        let ghost e0 = self.effects@;
                        let message = self.state.get_commit_message();
                        self.effects.push(Effect::RunCommit(message.raw_commit()));
                        assert(self.effects@.drop_last() =~= e0);
                    },
                    Message::CommittingCommitted => self.queue.push(Message::CommittingDone),
                    _ => {},
                }
            },
            ContentRoute::Summary => {
                match m {
                    Message::CommittingDone => {
                        self.summary = Some(self.state.get_commit());
                    },
                    Message::Key(Key::Enter) => self.effects.push(Effect::Quit),
                    _ => {},
                }
            },
            ContentRoute::Help => {},
        }
        assert(self.queue@.subrange(0, q0.len() as int) =~= q0);
    }

    /// `after` is the tree once the oldest pending message of `before` has
    /// been taken off the bus and delivered.
    pub open spec fn delivered_next(before: Wizard, after: Wizard) -> bool {
        &&& before.head < before.queue@.len()
        &&& Self::dispatched(
            Wizard { head: (before.head + 1) as usize, ..before },
            after,
            before.queue@[before.head as int],
        )
    }

    /// Each tree of `chain` is the one before it once the oldest pending
    /// message has been delivered.
    pub open spec fn delivery_chain(chain: Seq<Wizard>) -> bool {
        forall|i: int|
            0 <= i < chain.len() - 1 ==> #[trigger] Self::delivered_next(chain[i], chain[i + 1])
    }

    /// `after` is the tree once the `n` oldest pending messages of `before`
    /// have been delivered, one after another, including those published
    /// meanwhile.
    pub open spec fn delivered(before: Wizard, after: Wizard, n: nat) -> bool {
        exists|chain: Seq<Wizard>|
            #![trigger Self::delivery_chain(chain)]
            chain.len() == n + 1 && chain[0] == before && chain.last() == after
                && Self::delivery_chain(chain)
    }

    /// Delivers the oldest message not yet delivered, if any; tells whether
    /// there was one. Messages go out strictly in the order they were
    /// published.
    pub fn process_next(&mut self) -> (r: bool)
        ensures
            final(self).state.commit_info == old(self).state.commit_info,
            old(self).cursor_consistent() ==> final(self).cursor_consistent(),
            r == (old(self).head < old(self).queue@.len()),
            r ==> Self::delivered_next(*old(self), *final(self)),
            !r ==> *final(self) == *old(self),
            r ==> {
                &&& final(self).head == old(self).head + 1
                &&& final(self).router == router_after(
                    old(self).router,
                    old(self).queue@[old(self).head as int],
                )
                &&& old(self).queue@.len() <= final(self).queue@.len()
                &&& final(self).queue@.subrange(0, old(self).queue@.len() as int)
                    == old(self).queue@
            },
            !r ==> {
                &&& final(self).head == old(self).head
                &&& final(self).queue@ == old(self).queue@
                &&& final(self).router == old(self).router
                &&& final(self).state == old(self).state
            },
    {
        if self.head < self.queue.len() {
            let m = self.queue[self.head];
            self.head = self.head + 1;
            self.dispatch(m);
            true
        } else {
            false
        }
    }

    /// Delivers pending messages, those published meanwhile included, until
    /// none is left or `limit` were delivered; tells how many were.
    pub fn run_pending(&mut self, limit: usize) -> (n: usize)
        ensures
            final(self).state.commit_info == old(self).state.commit_info,
            old(self).cursor_consistent() ==> final(self).cursor_consistent(),
            n <= limit,
            final(self).head == old(self).head + n,
            old(self).queue@.len() <= final(self).queue@.len(),
            final(self).queue@.subrange(0, old(self).queue@.len() as int) == old(self).queue@,
            n < limit ==> final(self).head >= final(self).queue@.len(),
            old(self).head <= old(self).queue@.len()
                ==> final(self).head <= final(self).queue@.len(),
            Self::delivered(*old(self), *final(self), n as nat),
    {
        let mut n: usize = 0;
        let ghost q0 = self.queue@;
        let ghost h0 = self.head;
        let ghost w0 = *self;
        let ghost mut chain: Seq<Wizard> = seq![w0];
        while n < limit
            invariant
                n <= limit,
                self.head == h0 + n,
                old(self).cursor_consistent() ==> self.cursor_consistent(),
                self.state.commit_info == old(self).state.commit_info,
                q0.len() <= self.queue@.len(),
                self.queue@.subrange(0, q0.len() as int) == q0,
                h0 <= q0.len() ==> self.head <= self.queue@.len(),
                chain.len() == n + 1,
                chain[0] == w0,
                chain.last() == *self,
                Self::delivery_chain(chain),
            ensures
                n <= limit,
                self.head == h0 + n,
                old(self).cursor_consistent() ==> self.cursor_consistent(),
                self.state.commit_info == old(self).state.commit_info,
                q0.len() <= self.queue@.len(),
                self.queue@.subrange(0, q0.len() as int) == q0,
                n < limit ==> self.head >= self.queue@.len(),
                h0 <= q0.len() ==> self.head <= self.queue@.len(),
                chain.len() == n + 1,
                chain[0] == w0,
                chain.last() == *self,
                Self::delivery_chain(chain),
            decreases limit - n,
        {
            let ghost q1 = self.queue@;
            let ghost prev = *self;
            if !self.process_next() {
                break;
            }
            proof {
                let old_chain = chain;
                chain = chain.push(*self);
                assert forall|i: int| 0 <= i < chain.len() - 1 implies #[trigger] Self::delivered_next(
                    chain[i],
                    chain[i + 1],
                ) by {
                    if i < old_chain.len() - 1 {
                        assert(chain[i] == old_chain[i] && chain[i + 1] == old_chain[i + 1]);
                    } else {
                        assert(chain[i] == prev);
                    }
                }
            }
            assert(self.queue@.subrange(0, q0.len() as int) =~= q1.subrange(0, q0.len() as int));
            n = n + 1;
        }
        assert(Self::delivery_chain(chain));
        n
    }

    /// Hands out the outside work asked for so far, oldest first.
    pub fn take_effects(&mut self) -> (r: Vec<Effect>)
        ensures
            old(self).cursor_consistent() ==> final(self).cursor_consistent(),
            r@ == old(self).effects@,
            final(self).effects@.len() == 0,
            final(self).state == old(self).state,
            final(self).queue@ == old(self).queue@,
            final(self).router == old(self).router,
    {
        let mut taken: Vec<Effect> = Vec::new();
        std::mem::swap(&mut taken, &mut self.effects);
        taken
    }

    /// Takes the exit of `git commit`: on success the task goes on to read
    /// the commit back; otherwise it reports the failure on the bus.
    pub fn on_commit_finished(&mut self, success: bool, stdout: &str, stderr: &str)
        ensures
            old(self).cursor_consistent() ==> final(self).cursor_consistent(),
            final(self).state == old(self).state,
            final(self).router == old(self).router,
            final(self).builder == old(self).builder,
            final(self).head == old(self).head,
            !success ==> {
                &&& final(self).queue@ == old(self).queue@.push(Message::CommittingFailed)
                &&& final(self).effects@ == old(self).effects@
            },
            success ==> match first_commit_line(split_spec(stdout@, '\n')) {
                Some(line) => {
                    &&& final(self).queue@ == old(self).queue@
                    &&& final(self).effects@.len() == old(self).effects@.len() + 1
                    &&& final(self).effects@.last() matches Effect::RunShow(h) && h@ == line_hash(
                        line,
                    )
                },
                None => {
                    &&& final(self).queue@ == old(self).queue@.push(Message::CommittingFailed)
                    &&& final(self).effects@ == old(self).effects@
                },
            },
    {
        match after_commit_command(success, stdout, stderr) {
            TaskDecision::Show(hash) => self.effects.push(Effect::RunShow(hash)),
            _ => self.queue.push(Message::CommittingFailed),
        }
    }

    /// Takes the exit of `git show`: on success it records the commit and
    /// reports it on the bus; otherwise it reports the failure.
    pub fn on_show_finished(&mut self, success: bool, stdout: String, stderr: &str)
        ensures
            old(self).cursor_consistent() ==> final(self).cursor_consistent(),
            final(self).router == old(self).router,
            final(self).builder == old(self).builder,
            final(self).head == old(self).head,
            final(self).effects@ == old(self).effects@,
            success && log_lines(stdout@).len() >= 4 ==> {
                &&& final(self).queue@ == old(self).queue@.push(Message::CommittingCommitted)
                &&& final(self).state.commit_info matches Some(info) && info.hash@ == log_lines(
                    stdout@,
                )[0] && info.author@ == log_lines(stdout@)[1] && info.author_email@ == log_lines(
                    stdout@,
                )[2] && info.date@ == log_lines(stdout@)[3]
                &&& final(self).state == (AppState {
                    commit_info: final(self).state.commit_info,
                    ..old(self).state
                })
            },
            !(success && log_lines(stdout@).len() >= 4) ==> {
                &&& final(self).queue@ == old(self).queue@.push(Message::CommittingFailed)
                &&& final(self).state == old(self).state
            },
    {
        match after_show_command(success, stdout, stderr) {
            TaskDecision::Record(info) => {
                self.state.set_commit_info(info);
                self.queue.push(Message::CommittingCommitted);
            },
            _ => self.queue.push(Message::CommittingFailed),
        }
    }
}

/// Confirming the draft on the builder phase shows the committing phase
/// and asks, once, for the commit with the draft's canonical text.
pub proof fn lemma_done_requests_commit(before: Wizard, after: Wizard)
    requires
        Wizard::dispatched(before, after, Message::BuilderDone),
        before.router.current_route == ContentRoute::Builder,
    ensures
        after.router.current_route == ContentRoute::Committing,
        after.state == before.state,
        after.queue@ == before.queue@,
        after.effects@ == before.effects@.push(after.effects@.last()),
        after.effects@.last() matches Effect::RunCommit(text) && text@
            == before.state.draft_text(),
{
    assert(after.effects@ =~= before.effects@.push(after.effects@.last()));
}

/// The end of the committing phase shows the summary, with the report the
/// tool gave and the message made of the draft.
pub proof fn lemma_summary_shows_commit(before: Wizard, after: Wizard)
    requires
        Wizard::dispatched(before, after, Message::CommittingDone),
        before.router.current_route == ContentRoute::Committing,
    ensures
        after.router.current_route == ContentRoute::Summary,
        after.summary matches Some(c) && c.info == before.state.commit_info && (
        c.message matches Some(m) && m.title() == crate::commit::canonical_title(
            before.state.kind_name(),
            crate::state::text_or_empty(before.state.scope),
            before.state.breaking,
            before.state.kind_emoji(),
            crate::state::text_or_empty(before.state.summary),
        )),
{
    let c = after.summary->0;
    let m = c.message->0;
    before.state.lemma_draft_message_text(m);
}

/// A failure reported on the bus changes nothing: the committing phase
/// stays shown, nothing is published, no work is asked for and no commit
/// is recorded.
pub proof fn lemma_failure_changes_nothing(before: Wizard, after: Wizard)
    requires
        Wizard::dispatched(before, after, Message::CommittingFailed),
    ensures
        after.router == before.router,
        after.state == before.state,
        after.queue@ == before.queue@,
        after.effects@ == before.effects@,
        after.summary == before.summary,
{
}

} // verus!
