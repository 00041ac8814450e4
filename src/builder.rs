//! The components of the wizard's builder phase: one per step, and the
//! section that moves between them.

use vstd::prelude::*;
use crate::config::{CocoConfig, CommitKind};
use crate::textarea::LabeledTextArea;
use crate::message::{Key, Message};
use crate::state::{copy_kind, AppState};
use crate::steps::{
    next_input, next_step, prev_input, prev_step, FormStep, InputType, NavigationDirection,
    NavigationResult, StepStatus,
};
use crate::text::copy_text;

verus! {

/// Whether a message is the confirming key: enter or page-down.
pub open spec fn is_confirm(m: Message) -> bool {
    m == Message::Key(Key::Enter) || m == Message::Key(Key::PageDown)
}

/// The longest summary that fits the configured title budget once the
/// kind, the scope in parentheses, the breaking mark, the colon and the
/// emoji with its spaces are counted; the whole budget before a kind is chosen, and nothing when
/// they alone exceed it.
pub open spec fn summary_budget(
    max: nat,
    kind: Option<CommitKind>,
    scope: Seq<char>,
    breaking: bool,
    use_emoji: bool,
) -> nat {
    match kind {
        None => max,
        Some(k) => {
            let reserved = k.name@.len() + (if scope.len() > 0 {
                scope.len() + 2
            } else {
                0
            }) + (if breaking {
                1nat
            } else {
                0nat
            }) + 1 + (if use_emoji {
                3nat
            } else {
                0nat
            });
            if reserved > max {
                0
            } else {
                (max - reserved) as nat
            }
        },
    }
}

/// The summary budget for the draft as it stands.
pub open spec fn state_summary_budget(state: AppState) -> nat {
    summary_budget(
        state.config.max_summary_length as nat,
        state.kind,
        crate::state::text_or_empty(state.scope),
        state.breaking,
        state.config.use_emoji,
    )
}

/// The summary budget for the draft as it stands.
pub fn calculate_summary_max_char_count(state: &AppState) -> (r: usize)
    ensures
        r == state_summary_budget(*state),
{
    let max = state.config.max_summary_length;
    match &state.kind {
        None => max,
        Some(kind) => {
            let scope_len: usize = match &state.scope {
                Some(s) => s.as_str().unicode_len(),
                None => 0,
            };
            let scope_part: u128 = if scope_len > 0 {
                scope_len as u128 + 2
            } else {
                0
            };
            let type_len = kind.name.as_str().unicode_len() as u128;
            let emoji_len: u128 = if state.config.use_emoji {
                3
            } else {
                0
            };
            let breaking_len: u128 = if state.breaking {
                1
            } else {
                0
            };
            let reserved = type_len + scope_part + breaking_len + 1 + emoji_len;
            if reserved > max as u128 {
                0
            } else {
                (max as u128 - reserved) as usize
            }
        },
    }
}

/// The kind at a grid position, if the position holds one.
pub open spec fn kind_at(types: Seq<CommitKind>, index: Option<usize>) -> Option<CommitKind> {
    match index {
        Some(i) => if i < types.len() {
            Some(types[i as int])
        } else {
            None
        },
        None => None,
    }
}

/// The scope at a grid position, if the position holds one.
pub open spec fn scope_at(scopes: Seq<String>, index: Option<usize>) -> Option<String> {
    match index {
        Some(i) => if i < scopes.len() {
            Some(scopes[i as int])
        } else {
            None
        },
        None => None,
    }
}

/// The step that chooses the kind of commit from a grid.
pub struct TypeStep {
    /// The grid position under the cursor, as the grid widget reports it.
    pub hovered: Option<usize>,
    /// The grid position chosen last.
    pub selected: Option<usize>,
}

impl TypeStep {
    pub fn new() -> (r: TypeStep)
        ensures
            r.hovered == Some(0usize),
            r.selected is None,
    {
        TypeStep { hovered: Some(0), selected: None }
    }

    /// What a message does to the step while it has the focus, from
    /// `before` (with `state` and `bus`) to `after` (with `state_after` and
    /// `bus_after`).
    pub open spec fn handled(
        m: Message,
        before: TypeStep,
        after: TypeStep,
        state: AppState,
        state_after: AppState,
        bus: Seq<Message>,
        bus_after: Seq<Message>,
    ) -> bool {
        &&& (m == Message::Key(Key::Enter) ==> {
            &&& after.selected == before.hovered
            &&& after.hovered == before.hovered
            &&& state_after == (AppState {
                kind: kind_at(state.config.types@, before.hovered),
                type_status: StepStatus::Valid,
                ..state
            })
            &&& bus_after == bus.push(Message::BuilderNext)
        })
        &&& (m == Message::Key(Key::PageDown) ==> {
            &&& after == before
            &&& state_after == state
            &&& bus_after == if before.selected is Some {
                bus.push(Message::BuilderNext)
            } else {
                bus
            }
        })
        &&& (m != Message::Key(Key::Enter) && m != Message::Key(Key::PageDown) ==> {
            &&& after == before
            &&& state_after == state
            &&& bus_after == bus
        })
    }

    /// Reacts to a message while the step has the focus: confirming picks
    /// the kind under the cursor, marks the step valid and asks for the
    /// next step; page-down after a choice asks for the next step.
    pub fn receive_message(&mut self, m: Message, state: &mut AppState, bus: &mut Vec<Message>)
        ensures
            Self::handled(
                m,
                *old(self),
                *final(self),
                *old(state),
                *final(state),
                old(bus)@,
                final(bus)@,
            ),
    {
        match m {
            Message::Key(Key::Enter) => {
                self.selected = self.hovered;
                let kind = match self.hovered {
                    Some(i) => {
                        if i < state.config.types.len() {
                            Some(copy_kind(&state.config.types[i]))
                        } else {
                            None
                        }
                    },
                    None => None,
                };
                state.set_kind(kind);
                state.set_step_status(FormStep::Type, StepStatus::Valid);
                bus.push(Message::BuilderNext);
            },
            Message::Key(Key::PageDown) => {
                if self.selected.is_some() {
                    bus.push(Message::BuilderNext);
                }
            },
            _ => {},
        }
    }
}

/// The step that sets the scope: a grid of the configured scopes, or a
/// free text field when none is configured.
pub struct ScopeStep {
    /// The grid position under the cursor, as the grid widget reports it.
    pub hovered: Option<usize>,
    /// The grid position chosen last.
    pub selected: Option<usize>,
    /// The free text field; `None` when the scopes come from a grid.
    pub input: Option<LabeledTextArea>,
}

impl ScopeStep {
    /// A grid when the configuration lists scopes, else a single-line text
    /// field of at most 20 characters.
    pub fn new(config: &CocoConfig) -> (r: ScopeStep)
        ensures
            r.hovered == Some(0usize),
            r.selected is None,
            r.input is None <==> config.scopes@.len() > 0,
            r.input matches Some(f) ==> f.text_view().len() == 0 && f.active && f.single_line
                && f.max_char_count == Some(20usize) && !f.required,
    {
        let input = if config.scopes.len() > 0 {
            None
        } else {
            Some(LabeledTextArea::new(false, true, Some(20), true))
        };
        ScopeStep { hovered: Some(0), selected: None, input }
    }

    /// What a message does to the step while it has the focus, from
    /// `before` (with `state` and `bus`) to `after` (with `state_after` and
    /// `bus_after`).
    pub open spec fn handled(
        m: Message,
        before: ScopeStep,
        after: ScopeStep,
        state: AppState,
        state_after: AppState,
        bus: Seq<Message>,
        bus_after: Seq<Message>,
    ) -> bool {
        &&& (is_confirm(m) && before.input is None ==> {
            &&& after.selected == before.hovered
            &&& after.hovered == before.hovered
            &&& after.input == before.input
            &&& state_after == (AppState {
                scope: scope_at(state.config.scopes@, before.hovered),
                scope_status: StepStatus::Valid,
                ..state
            })
            &&& bus_after == bus.push(Message::BuilderNext)
        })
        &&& (is_confirm(m) && before.input is Some ==> {
            &&& after == before
            &&& state_after.scope matches Some(s) && s@ == before.input->0.text_view()
            &&& state_after == (AppState {
                scope: state_after.scope,
                scope_status: StepStatus::Valid,
                ..state
            })
            &&& bus_after == bus.push(Message::BuilderNext)
        })
        &&& (m == Message::Key(Key::PageUp) ==> {
            &&& after == before
            &&& state_after == state
            &&& bus_after == bus.push(Message::BuilderPrev)
        })
        &&& (!is_confirm(m) && m != Message::Key(Key::PageUp) ==> {
            &&& after == before
            &&& state_after == state
            &&& bus_after == bus
        })
    }

    /// Reacts to a message while the step has the focus: confirming sets
    /// the scope (the one under the cursor, or the typed text), marks the
    /// step valid and asks for the next step; page-up asks for the previous
    /// step.
    pub fn receive_message(&mut self, m: Message, state: &mut AppState, bus: &mut Vec<Message>)
        ensures
            Self::handled(
                m,
                *old(self),
                *final(self),
                *old(state),
                *final(state),
                old(bus)@,
                final(bus)@,
            ),
    {
        match m {
            Message::Key(Key::Enter) | Message::Key(Key::PageDown) => {
                match &self.input {
                    None => {
                        self.selected = self.hovered;
                        let scope = match self.hovered {
                            Some(i) => {
                                if i < state.config.scopes.len() {
                                    Some(copy_text(&state.config.scopes[i]))
                                } else {
                                    None
                                }
                            },
                            None => None,
                        };
                        state.set_scope(scope);
                    },
                    Some(field) => {
                        state.set_scope(Some(field.text()));
                    },
                }
                state.set_step_status(FormStep::Scope, StepStatus::Valid);
                bus.push(Message::BuilderNext);
            },
            Message::Key(Key::PageUp) => {
                bus.push(Message::BuilderPrev);
            },
            _ => {},
        }
    }
}

/// The step that asks whether the commit breaks compatibility.
pub struct BreakingChangeStep {
    pub breaking_change_choice: bool,
}

impl BreakingChangeStep {
    pub fn new() -> (r: BreakingChangeStep)
        ensures
            !r.breaking_change_choice,
    {
        BreakingChangeStep { breaking_change_choice: false }
    }

    /// Stores the choice in the draft and records the step's validity.
    pub fn set_step_status(&self, state: &mut AppState, step: FormStep, status: StepStatus)
        ensures
            *final(state) == (AppState {
                breaking: self.breaking_change_choice,
                ..*old(state)
            }.with_status(step, status)),
    {
        state.set_breaking(self.breaking_change_choice);
        state.set_step_status(step, status);
    }

    pub fn toggle_breaking_change(&mut self)
        ensures
            final(self).breaking_change_choice == !old(self).breaking_change_choice,
    {
        self.breaking_change_choice = !self.breaking_change_choice;
    }

    pub fn set_breaking_change(&mut self, choice: bool)
        ensures
            final(self).breaking_change_choice == choice,
    {
        self.breaking_change_choice = choice;
    }

    /// What a message does to the step while it has the focus, from
    /// `before` (with `state` and `bus`) to `after` (with `state_after` and
    /// `bus_after`).
    pub open spec fn handled(
        m: Message,
        before: BreakingChangeStep,
        after: BreakingChangeStep,
        state: AppState,
        state_after: AppState,
        bus: Seq<Message>,
        bus_after: Seq<Message>,
    ) -> bool {
        &&& (is_confirm(m) ==> {
            &&& after == before
            &&& state_after == (AppState {
                breaking: before.breaking_change_choice,
                breaking_status: StepStatus::Valid,
                ..state
            })
            &&& bus_after == bus.push(Message::BuilderNext)
        })
        &&& (!is_confirm(m) ==> state_after == state)
        &&& (m == Message::Key(Key::PageUp) ==> bus_after == bus.push(Message::BuilderPrev)
            && after == before)
        &&& (m == Message::Key(Key::Left) ==> !after.breaking_change_choice)
        &&& (m == Message::Key(Key::Right) ==> after.breaking_change_choice)
        &&& (m == Message::Key(Key::Space) ==> after.breaking_change_choice
            == !before.breaking_change_choice)
        &&& (!is_confirm(m) && m != Message::Key(Key::PageUp) ==> bus_after == bus)
        &&& (!is_confirm(m) && m != Message::Key(Key::PageUp) && m != Message::Key(Key::Left) && m
            != Message::Key(Key::Right) && m != Message::Key(Key::Space) ==> after
            == before)
    }

    /// Reacts to a message while the step has the focus: confirming stores
    /// the choice, marks the step valid and asks for the next step; page-up
    /// asks for the previous step; left, right and space set or flip the
    /// choice.
    pub fn receive_message(&mut self, m: Message, state: &mut AppState, bus: &mut Vec<Message>)
        ensures
            Self::handled(
                m,
                *old(self),
                *final(self),
                *old(state),
                *final(state),
                old(bus)@,
                final(bus)@,
            ),
    {
        match m {
            Message::Key(Key::Enter) | Message::Key(Key::PageDown) => {
                self.set_step_status(state, FormStep::BreakingChange, StepStatus::Valid);
                bus.push(Message::BuilderNext);
            },
            Message::Key(Key::PageUp) => bus.push(Message::BuilderPrev),
            Message::Key(Key::Left) => self.set_breaking_change(false),
            Message::Key(Key::Right) => self.set_breaking_change(true),
            Message::Key(Key::Space) => self.toggle_breaking_change(),
            _ => {},
        }
    }
}

/// The step that shows the assembled message and asks to confirm it or to
/// start over.
pub struct PreviewStep {
    /// Whether "yes, make the commit" is chosen.
    pub decision: bool,
}

impl PreviewStep {
    pub fn new() -> (r: PreviewStep)
        ensures
            r.decision,
    {
        PreviewStep { decision: true }
    }

    /// Records the step's validity.
    pub fn set_step_status(&self, state: &mut AppState, step: FormStep, status: StepStatus)
        ensures
            *final(state) == old(state).with_status(step, status),
    {
        state.set_step_status(step, status);
    }

    /// What a message does to the step while it has the focus, from
    /// `before` (with `state` and `bus`) to `after` (with `state_after` and
    /// `bus_after`).
    pub open spec fn handled(
        m: Message,
        before: PreviewStep,
        after: PreviewStep,
        state: AppState,
        state_after: AppState,
        bus: Seq<Message>,
        bus_after: Seq<Message>,
    ) -> bool {
        &&& (is_confirm(m) && before.decision ==> {
            &&& state_after == state.with_status(FormStep::Preview, StepStatus::Valid)
            &&& bus_after == bus.push(Message::BuilderDone)
        })
        &&& (is_confirm(m) && !before.decision ==> {
            &&& state_after == state
            &&& bus_after == bus.push(Message::BuilderRestart)
        })
        &&& (is_confirm(m) ==> after == before)
        &&& (!is_confirm(m) ==> state_after == state)
        &&& (m == Message::Key(Key::PageUp) ==> bus_after == bus.push(Message::BuilderPrev)
            && after == before)
        &&& (m == Message::Key(Key::Left) ==> after.decision)
        &&& (m == Message::Key(Key::Right) ==> !after.decision)
        &&& (m == Message::Key(Key::Space) ==> after.decision == !before.decision)
        &&& (!is_confirm(m) && m != Message::Key(Key::PageUp) ==> bus_after == bus)
        &&& (!is_confirm(m) && m != Message::Key(Key::PageUp) && m != Message::Key(Key::Left) && m
            != Message::Key(Key::Right) && m != Message::Key(Key::Space) ==> after
            == before)
    }

    /// Reacts to a message while the step has the focus: confirming with
    /// "yes" marks the step valid and announces that the draft is done;
    /// with "no" it asks to start over; page-up asks for the previous step;
    /// left, right and space set or flip the decision.
    pub fn receive_message(&mut self, m: Message, state: &mut AppState, bus: &mut Vec<Message>)
        ensures
            Self::handled(
                m,
                *old(self),
                *final(self),
                *old(state),
                *final(state),
                old(bus)@,
                final(bus)@,
            ),
    {
        match m {
            Message::Key(Key::Enter) | Message::Key(Key::PageDown) => {
                if self.decision {
                    self.set_step_status(state, FormStep::Preview, StepStatus::Valid);
                    bus.push(Message::BuilderDone);
                } else {
                    bus.push(Message::BuilderRestart);
                }
            },
            Message::Key(Key::PageUp) => bus.push(Message::BuilderPrev),
            Message::Key(Key::Left) => self.decision = true,
            Message::Key(Key::Right) => self.decision = false,
            Message::Key(Key::Space) => self.decision = !self.decision,
            _ => {},
        }
    }
}

/// A field with the focus given or taken; one that gets it counts as
/// touched from then on.
pub open spec fn focused(f: LabeledTextArea, active: bool) -> LabeledTextArea {
    LabeledTextArea { active, touched: f.touched || active, ..f }
}

/// The step with three fields: the summary, which is required, then the
/// optional body and footer.
pub struct CommitStep {
    pub summary_input: LabeledTextArea,
    pub body_input: LabeledTextArea,
    pub footer_input: LabeledTextArea,
    pub active_input: InputType,
}

impl CommitStep {
    pub open spec fn input_of(&self, input: InputType) -> LabeledTextArea {
        match input {
            InputType::Summary => self.summary_input,
            InputType::Body => self.body_input,
            InputType::Footer => self.footer_input,
        }
    }

    /// Whether the field with the focus holds an acceptable text.
    pub open spec fn active_valid(&self) -> bool {
        self.input_of(self.active_input).valid()
    }

    /// Whether every field holds an acceptable text.
    pub open spec fn all_valid(&self) -> bool {
        self.summary_input.valid() && self.body_input.valid() && self.footer_input.valid()
    }

    /// `after` is `before` with the focus moved to `input`.
    pub open spec fn focus_moved(before: CommitStep, after: CommitStep, input: InputType) -> bool {
        &&& after.active_input == input
        &&& after.summary_input == focused(before.summary_input, input == InputType::Summary)
        &&& after.body_input == focused(before.body_input, input == InputType::Body)
        &&& after.footer_input == focused(before.footer_input, input == InputType::Footer)
    }

    /// `after` is `before` with the fields of `step` written into the draft.
    pub open spec fn recorded(before: AppState, after: AppState, step: CommitStep) -> bool {
        &&& after.summary matches Some(s) && s@ == step.summary_input.text_view()
        &&& after.body matches Some(b) && b@ == step.body_input.lines@
        &&& after.footer matches Some(f) && f@ == step.footer_input.lines@
        &&& after == (AppState {
            summary: after.summary,
            body: after.body,
            footer: after.footer,
            commit_status: crate::state::commit_status_for(after.summary, after.body, after.footer),
            ..before
        })
    }

    /// The step with the summary focused and limited to the draft's budget,
    /// and the body and the footer untouched.
    pub fn new(state: &AppState) -> (r: CommitStep)
        ensures
            r.active_input == InputType::Summary,
            r.summary_input.active && r.summary_input.touched && r.summary_input.required
                && r.summary_input.single_line,
            r.summary_input.max_char_count == Some(state_summary_budget(*state) as usize),
            r.summary_input.text_view().len() == 0,
            !r.body_input.active && !r.body_input.touched && !r.body_input.required,
            !r.footer_input.active && !r.footer_input.touched && !r.footer_input.required,
            r.body_input.max_char_count is None,
            r.footer_input.max_char_count is None,
    {
        let max = calculate_summary_max_char_count(state);
        CommitStep {
            summary_input: LabeledTextArea::new(true, true, Some(max), true),
            body_input: LabeledTextArea::new(false, false, None, false),
            footer_input: LabeledTextArea::new(false, false, None, false),
            active_input: InputType::Summary,
        }
    }

    /// On getting the focus, the summary's limit follows the draft's
    /// current budget.
    pub fn on_activated(&mut self, state: &AppState)
        ensures
            *final(self) == (CommitStep {
                summary_input: LabeledTextArea {
                    max_char_count: Some(state_summary_budget(*state) as usize),
                    ..old(self).summary_input
                },
                ..*old(self)
            }),
    {
        let max = calculate_summary_max_char_count(state);
        self.summary_input.set_max_char_count(max);
    }

    /// Whether the field with the focus holds an acceptable text.
    pub fn is_active_input_valid(&self) -> (r: bool)
        ensures
            r == self.active_valid(),
    {
        match self.active_input {
            InputType::Summary => self.summary_input.is_valid(),
            InputType::Body => self.body_input.is_valid(),
            InputType::Footer => self.footer_input.is_valid(),
        }
    }

    /// Whether every field holds an acceptable text.
    pub fn are_all_inputs_valid(&self) -> (r: bool)
        ensures
            r == self.all_valid(),
    {
        self.summary_input.is_valid() && self.body_input.is_valid() && self.footer_input.is_valid()
    }

    /// Writes the three fields into the draft.
    pub fn set_app_state(&self, state: &mut AppState)
        ensures
            Self::recorded(*old(state), *final(state), *self),
    {
        state.set_summary(self.summary_input.text());
        state.set_body(&self.body_input.lines);
        state.set_footer(&self.footer_input.lines);
    }

    /// When the focused field is acceptable: moves the focus to `next`
    /// (or keeps it where it is) and writes the fields into the draft.
    /// Otherwise nothing changes.
    pub fn update_inputs_active_states(&mut self, next: Option<InputType>, state: &mut AppState)
        ensures
            !old(self).active_valid() ==> *final(self) == *old(self) && *final(state)
                == *old(state),
            old(self).active_valid() ==> {
                &&& Self::focus_moved(
                    *old(self),
                    *final(self),
                    match next {
                        Some(n) => n,
                        None => old(self).active_input,
                    },
                )
                &&& Self::recorded(*old(state), *final(state), *final(self))
            },
    {
        if !self.is_active_input_valid() {
            return;
        }
        match next {
            Some(n) => self.active_input = n,
            None => {},
        }
        let a = self.active_input;
        self.summary_input.set_active(a == InputType::Summary);
        self.body_input.set_active(a == InputType::Body);
        self.footer_input.set_active(a == InputType::Footer);
        self.set_app_state(state);
    }

    /// What moving between the fields does, from `before` (with `state`
    /// and `bus`) to `after` (with `state2` and `bus2`).
    pub open spec fn navigated(
        direction: NavigationDirection,
        before: CommitStep,
        after: CommitStep,
        state: AppState,
        state2: AppState,
        bus: Seq<Message>,
        bus2: Seq<Message>,
    ) -> bool {
        let result = match direction {
            NavigationDirection::Next => next_input(
                before.active_input,
                state.config.ask_body,
                state.config.ask_footer,
            ),
            NavigationDirection::Prev => prev_input(
                before.active_input,
                state.config.ask_body,
                state.config.ask_footer,
            ),
        };
        match result {
            NavigationResult::PrevStep => {
                &&& after == before
                &&& state2 == state
                &&& bus2 == bus.push(Message::BuilderPrev)
            },
            NavigationResult::NextStep => if before.all_valid() {
                &&& Self::focus_moved(before, after, before.active_input)
                &&& Self::recorded(state, state2, after)
                &&& bus2 == bus.push(Message::BuilderNext)
            } else {
                &&& after == before
                &&& state2 == state
                &&& bus2 == bus
            },
            NavigationResult::Input(i) => {
                &&& bus2 == bus
                &&& before.active_valid() ==> Self::focus_moved(
                    before,
                    after,
                    i,
                ) && Self::recorded(state, state2, after)
                &&& !before.active_valid() ==> after == before
                    && state2 == state
            },
        }
    }

    /// Moves between the fields: past the first field to the previous
    /// step, past the last one to the next step once every field is
    /// acceptable, else to the next asked field once the focused one is.
    pub fn navigate(
        &mut self,
        direction: NavigationDirection,
        state: &mut AppState,
        bus: &mut Vec<Message>,
    )
        ensures
            Self::navigated(
                direction,
                *old(self),
                *final(self),
                *old(state),
                *final(state),
                old(bus)@,
                final(bus)@,
            ),
    {
        let result = match direction {
            NavigationDirection::Next => self.active_input.next(&state.config),
            NavigationDirection::Prev => self.active_input.prev(&state.config),
        };
        match result {
            NavigationResult::PrevStep => bus.push(Message::BuilderPrev),
            NavigationResult::NextStep => {
                if self.are_all_inputs_valid() {
                    self.update_inputs_active_states(None, state);
                    bus.push(Message::BuilderNext);
                }
            },
            NavigationResult::Input(input) => self.update_inputs_active_states(Some(input), state),
        }
    }

    /// What a message does to the step while it has the focus, from
    /// `before` (with `state` and `bus`) to `after` (with `state_after` and
    /// `bus_after`).
    pub open spec fn handled(
        m: Message,
        before: CommitStep,
        after: CommitStep,
        state: AppState,
        state_after: AppState,
        bus: Seq<Message>,
        bus_after: Seq<Message>,
    ) -> bool {
        &&& (is_confirm(m) ==> Self::navigated(
            NavigationDirection::Next,
            before,
            after,
            state,
            state_after,
            bus,
            bus_after,
        ))
        &&& (m == Message::Key(Key::PageUp) ==> Self::navigated(
            NavigationDirection::Prev,
            before,
            after,
            state,
            state_after,
            bus,
            bus_after,
        ))
        &&& (!is_confirm(m) && m != Message::Key(Key::PageUp) ==> after == before
            && state_after == state && bus_after == bus)
        &&& (bus_after == bus || bus_after == bus.push(Message::BuilderNext)
            || bus_after == bus.push(Message::BuilderPrev))
        &&& (state_after.config == state.config)
        &&& (state_after.kind == state.kind)
        &&& (state_after.scope == state.scope)
        &&& (state_after.breaking == state.breaking)
        &&& (state_after.commit_info == state.commit_info)
    }

    /// Reacts to a message while the step has the focus: confirming moves
    /// forward, page-up moves back.
    pub fn receive_message(&mut self, m: Message, state: &mut AppState, bus: &mut Vec<Message>)
        ensures
            Self::handled(
                m,
                *old(self),
                *final(self),
                *old(state),
                *final(state),
                old(bus)@,
                final(bus)@,
            ),
    {
        match m {
            Message::Key(Key::Enter) | Message::Key(Key::PageDown) => {
                self.navigate(NavigationDirection::Next, state, bus)
            },
            Message::Key(Key::PageUp) => self.navigate(NavigationDirection::Prev, state, bus),
            _ => {},
        }
    }
}

/// The step that a moving message asks for, before the guard: the next or
/// the previous asked step.
pub open spec fn builder_target(current: FormStep, m: Message, config: CocoConfig) -> Option<
    FormStep,
> {
    match m {
        Message::BuilderNext => next_step(current, config.ask_scope, config.ask_breaking_change),
        Message::BuilderPrev => prev_step(current, config.ask_scope, config.ask_breaking_change),
        _ => None,
    }
}

/// Whether the guard lets the wizard move from `current` to `target`: one
/// of the two steps is valid.
pub open spec fn guard_allows(current: FormStep, target: FormStep, state: AppState) -> bool {
    state.status_of(current) == StepStatus::Valid || state.status_of(target) == StepStatus::Valid
}

/// The step the wizard is on after asking to move to `target`.
pub open spec fn guarded_step(
    current: FormStep,
    target: Option<FormStep>,
    state: AppState,
) -> FormStep {
    match target {
        Some(t) => if guard_allows(current, t, state) {
            t
        } else {
            current
        },
        None => current,
    }
}

/// The step the wizard is on after a message: starting over always goes
/// back to the type step; moving goes where the guard allows.
pub open spec fn builder_after(current: FormStep, m: Message, state: AppState) -> FormStep {
    if m == Message::BuilderRestart {
        FormStep::Type
    } else {
        guarded_step(current, builder_target(current, m, state.config), state)
    }
}

/// The section of the builder phase: it knows the current step and moves
/// between steps on the builder messages.
pub struct BuilderSection {
    pub current_step: FormStep,
}

impl BuilderSection {
    pub fn new() -> (r: BuilderSection)
        ensures
            r.current_step == FormStep::Type,
    {
        BuilderSection { current_step: FormStep::Type }
    }

    /// Moves to `step` when the guard allows it; tells whether it moved.
    pub fn set_step(&mut self, step: Option<FormStep>, state: &AppState) -> (moved: bool)
        ensures
            final(self).current_step == guarded_step(old(self).current_step, step, *state),
            moved == (step matches Some(t) && guard_allows(old(self).current_step, t, *state)),
    {
        match step {
            Some(target) => {
                let current_valid = state.get_step_status(self.current_step);
                let target_valid = state.get_step_status(target);
                if current_valid == StepStatus::Valid || target_valid == StepStatus::Valid {
                    self.current_step = target;
                    true
                } else {
                    false
                }
            },
            None => false,
        }
    }

    /// Reacts to a builder message: starting over goes back to the type
    /// step; moving goes as the guard allows. Tells whether the cursor was
    /// set.
    pub fn receive_message(&mut self, m: Message, state: &AppState) -> (moved: bool)
        ensures
            final(self).current_step == builder_after(old(self).current_step, m, *state),
            m == Message::BuilderRestart ==> moved && final(self).current_step == FormStep::Type,
            m != Message::BuilderRestart ==> moved == (builder_target(
                old(self).current_step,
                m,
                state.config,
            ) matches Some(t) && guard_allows(old(self).current_step, t, *state)),
    {
        match m {
            Message::BuilderNext => {
                let next = self.current_step.next(&state.config);
                self.set_step(next, state)
            },
            Message::BuilderPrev => {
                let prev = self.current_step.prev(&state.config);
                self.set_step(prev, state)
            },
            Message::BuilderRestart => {
                self.current_step = FormStep::Type;
                true
            },
            _ => false,
        }
    }
}

/// A move between steps happens exactly when the current step or the
/// target step is valid; with both invalid, the wizard stays where it is.
pub proof fn lemma_guard(current: FormStep, m: Message, state: AppState)
    requires
        builder_target(current, m, state.config) is Some,
    ensures
        ({
            let t = builder_target(current, m, state.config)->0;
            &&& builder_after(current, m, state) == t <== (state.status_of(current)
                == StepStatus::Valid || state.status_of(t) == StepStatus::Valid)
            &&& (state.status_of(current) == StepStatus::Invalid && state.status_of(t)
                == StepStatus::Invalid) ==> builder_after(current, m, state) == current
        }),
{
}

/// Asking to start over puts the cursor on the type step from any step,
/// whatever the validity of the steps; asking twice in a row ends where
/// asking once does.
pub proof fn lemma_restart_idempotent(current: FormStep, state: AppState)
    ensures
        builder_after(current, Message::BuilderRestart, state) == FormStep::Type,
        builder_after(
            builder_after(current, Message::BuilderRestart, state),
            Message::BuilderRestart,
            state,
        )
            == builder_after(current, Message::BuilderRestart, state),
{
}

} // verus!
