//! The steps of the wizard and the fields of its commit step, with the
//! configuration-driven skipping of optional ones.

use vstd::prelude::*;
use crate::config::CocoConfig;

verus! {

/// Whether a step has been completed.
#[derive(Debug, Clone, Copy, PartialEq, Eq, Structural)]
pub enum StepStatus {
    Valid,
    Invalid,
}

/// The steps of the wizard, in their base order.
#[derive(Debug, Clone, Copy, PartialEq, Eq, Structural)]
pub enum FormStep {
    Type,
    Scope,
    Commit,
    BreakingChange,
    Preview,
}

/// The position of a step in the base order.
pub open spec fn step_index(step: FormStep) -> nat {
    match step {
        FormStep::Type => 0,
        FormStep::Scope => 1,
        FormStep::Commit => 2,
        FormStep::BreakingChange => 3,
        FormStep::Preview => 4,
    }
}

/// Whether a step is asked, given the two switches of the configuration.
pub open spec fn step_enabled(step: FormStep, ask_scope: bool, ask_breaking_change: bool) -> bool {
    match step {
        FormStep::Scope => ask_scope,
        FormStep::BreakingChange => ask_breaking_change,
        _ => true,
    }
}

/// The step after `step` in the base order, if any.
pub open spec fn base_next(step: FormStep) -> Option<FormStep> {
    match step {
        FormStep::Type => Some(FormStep::Scope),
        FormStep::Scope => Some(FormStep::Commit),
        FormStep::Commit => Some(FormStep::BreakingChange),
        FormStep::BreakingChange => Some(FormStep::Preview),
        FormStep::Preview => None,
    }
}

/// The step before `step` in the base order, if any.
pub open spec fn base_prev(step: FormStep) -> Option<FormStep> {
    match step {
        FormStep::Type => None,
        FormStep::Scope => Some(FormStep::Type),
        FormStep::Commit => Some(FormStep::Scope),
        FormStep::BreakingChange => Some(FormStep::Commit),
        FormStep::Preview => Some(FormStep::BreakingChange),
    }
}

/// The first asked step after `step`, if any.
pub open spec fn next_step(step: FormStep, ask_scope: bool, ask_breaking_change: bool) -> Option<
    FormStep,
>
    decreases 4 - step_index(step),
{
    match base_next(step) {
        None => None,
        Some(n) => if step_enabled(n, ask_scope, ask_breaking_change) {
            Some(n)
        } else {
            next_step(n, ask_scope, ask_breaking_change)
        },
    }
}

/// The last asked step before `step`, if any.
pub open spec fn prev_step(step: FormStep, ask_scope: bool, ask_breaking_change: bool) -> Option<
    FormStep,
>
    decreases step_index(step),
{
    match base_prev(step) {
        None => None,
        Some(p) => if step_enabled(p, ask_scope, ask_breaking_change) {
            Some(p)
        } else {
            prev_step(p, ask_scope, ask_breaking_change)
        },
    }
}

/// The name by which a step is known.
pub open spec fn step_key(step: FormStep) -> Seq<char> {
    match step {
        FormStep::Type => "type"@,
        FormStep::Scope => "scope"@,
        FormStep::Commit => "commit"@,
        FormStep::BreakingChange => "breaking-change"@,
        FormStep::Preview => "preview"@,
    }
}

fn is_step_enabled(step: FormStep, config: &CocoConfig) -> (r: bool)
    ensures
        r == step_enabled(step, config.ask_scope, config.ask_breaking_change),
{
    match step {
        FormStep::Type => true,
        FormStep::Scope => config.ask_scope,
        FormStep::Commit => true,
        FormStep::BreakingChange => config.ask_breaking_change,
        FormStep::Preview => true,
    }
}

impl FormStep {
    /// The first step after this one that the configuration asks for, or
    /// `None` after the last step.
    pub fn next(&self, config: &CocoConfig) -> (r: Option<FormStep>)
        ensures
            r == next_step(*self, config.ask_scope, config.ask_breaking_change),
        decreases 4 - step_index(*self),
    {
        let next = match self {
            FormStep::Type => FormStep::Scope,
            FormStep::Scope => FormStep::Commit,
            FormStep::Commit => FormStep::BreakingChange,
            FormStep::BreakingChange => FormStep::Preview,
            FormStep::Preview => {
                return None;
            },
        };
        if !is_step_enabled(next, config) {
            return next.next(config);
        }
        Some(next)
    }

    /// The last step before this one that the configuration asks for, or
    /// `None` before the first step.
    pub fn prev(&self, config: &CocoConfig) -> (r: Option<FormStep>)
        ensures
            r == prev_step(*self, config.ask_scope, config.ask_breaking_change),
        decreases step_index(*self),
    {
        let prev = match self {
            FormStep::Type => {
                return None;
            },
            FormStep::Scope => FormStep::Type,
            FormStep::Commit => FormStep::Scope,
            FormStep::BreakingChange => FormStep::Commit,
            FormStep::Preview => FormStep::BreakingChange,
        };
        if !is_step_enabled(prev, config) {
            return prev.prev(config);
        }
        Some(prev)
    }

    /// The name by which the step is known: `type`, `scope`, `commit`,
    /// `breaking-change` or `preview`.
    pub fn key(&self) -> (r: String)
        ensures
            r@ == step_key(*self),
    {
        match self {
            FormStep::Type => String::from_str("type"),
            FormStep::Scope => String::from_str("scope"),
            FormStep::Commit => String::from_str("commit"),
            FormStep::BreakingChange => String::from_str("breaking-change"),
            FormStep::Preview => String::from_str("preview"),
        }
    }
}

/// With neither the scope nor the breaking-change step asked, moving
/// forward from the type step visits the commit step, then the preview,
/// then ends.
pub proof fn lemma_skipped_steps(config: CocoConfig)
    requires
        !config.ask_scope,
        !config.ask_breaking_change,
    ensures
        next_step(FormStep::Type, config.ask_scope, config.ask_breaking_change) == Some(
            FormStep::Commit,
        ),
        next_step(FormStep::Commit, config.ask_scope, config.ask_breaking_change) == Some(
            FormStep::Preview,
        ),
        next_step(FormStep::Preview, config.ask_scope, config.ask_breaking_change) is None,
{
    reveal_with_fuel(next_step, 3);
}

/// The fields of the commit step, in order.
#[derive(Debug, Clone, Copy, PartialEq, Eq, Structural)]
pub enum InputType {
    Summary,
    Body,
    Footer,
}

/// Where moving from a field of the commit step leads.
#[derive(Debug, Clone, Copy, PartialEq, Eq, Structural)]
pub enum NavigationResult {
    PrevStep,
    Input(InputType),
    NextStep,
}

/// Which way to move between the fields of the commit step.
#[derive(Debug, Clone, Copy, PartialEq, Eq, Structural)]
pub enum NavigationDirection {
    Next,
    Prev,
}

/// Whether a field is asked, given the two switches of the configuration.
pub open spec fn input_enabled(input: InputType, ask_body: bool, ask_footer: bool) -> bool {
    match input {
        InputType::Summary => true,
        InputType::Body => ask_body,
        InputType::Footer => ask_footer,
    }
}

pub open spec fn input_index(input: InputType) -> nat {
    match input {
        InputType::Summary => 0,
        InputType::Body => 1,
        InputType::Footer => 2,
    }
}

/// Where moving forward from a field leads: the next asked field, or past
/// the last one to the next step.
pub open spec fn next_input(input: InputType, ask_body: bool, ask_footer: bool) -> NavigationResult
    decreases 2 - input_index(input),
{
    let n = match input {
        InputType::Summary => NavigationResult::Input(InputType::Body),
        InputType::Body => NavigationResult::Input(InputType::Footer),
        InputType::Footer => NavigationResult::NextStep,
    };
    match n {
        NavigationResult::Input(i) => if input_enabled(i, ask_body, ask_footer) {
            n
        } else {
            next_input(i, ask_body, ask_footer)
        },
        _ => n,
    }
}

/// Where moving back from a field leads: the previous asked field, or
/// before the first one to the previous step.
pub open spec fn prev_input(input: InputType, ask_body: bool, ask_footer: bool) -> NavigationResult
    decreases input_index(input),
{
    let p = match input {
        InputType::Summary => NavigationResult::PrevStep,
        InputType::Body => NavigationResult::Input(InputType::Summary),
        InputType::Footer => NavigationResult::Input(InputType::Body),
    };
    match p {
        NavigationResult::Input(i) => if input_enabled(i, ask_body, ask_footer) {
            p
        } else {
            prev_input(i, ask_body, ask_footer)
        },
        _ => p,
    }
}

fn is_input_enabled(input: InputType, config: &CocoConfig) -> (r: bool)
    ensures
        r == input_enabled(input, config.ask_body, config.ask_footer),
{
    match input {
        InputType::Summary => true,
        InputType::Body => config.ask_body,
        InputType::Footer => config.ask_footer,
    }
}

impl InputType {
    /// Where moving forward from this field leads.
    pub fn next(&self, config: &CocoConfig) -> (r: NavigationResult)
        ensures
            r == next_input(*self, config.ask_body, config.ask_footer),
        decreases 2 - input_index(*self),
    {
        let next = match self {
            InputType::Summary => NavigationResult::Input(InputType::Body),
            InputType::Body => NavigationResult::Input(InputType::Footer),
            InputType::Footer => NavigationResult::NextStep,
        };
        match next {
            NavigationResult::Input(n) => {
                if !is_input_enabled(n, config) {
                    n.next(config)
                } else {
                    next
                }
            },
            _ => next,
        }
    }

    /// Where moving back from this field leads.
    pub fn prev(&self, config: &CocoConfig) -> (r: NavigationResult)
        ensures
            r == prev_input(*self, config.ask_body, config.ask_footer),
        decreases input_index(*self),
    {
        let prev = match self {
            InputType::Summary => NavigationResult::PrevStep,
            InputType::Body => NavigationResult::Input(InputType::Summary),
            InputType::Footer => NavigationResult::Input(InputType::Body),
        };
        match prev {
            NavigationResult::Input(p) => {
                if !is_input_enabled(p, config) {
                    p.prev(config)
                } else {
                    prev
                }
            },
            _ => prev,
        }
    }
}

} // verus!
