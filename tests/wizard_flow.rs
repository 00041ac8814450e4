use coco::builder::{calculate_summary_max_char_count, BuilderSection};
use coco::config::{ctype, CocoConfig};
use coco::message::{Key, Message};
use coco::state::AppState;
use coco::steps::{FormStep, InputType, NavigationResult, StepStatus};
use coco::wizard::{AppRouter, ContentRoute, Effect, FieldId, Wizard};

fn plain_config() -> CocoConfig {
    let mut config = CocoConfig::default_config();
    config.ask_body = false;
    config.ask_footer = false;
    config.types = vec![ctype("feat", "", "A feature"), ctype("fix", "", "A fix")];
    config
}

fn press(w: &mut Wizard, key: Key) {
    w.publish(Message::Key(key));
    w.run_pending(100);
}

#[test]
fn skipped_steps_are_not_visited() {
    let mut config = CocoConfig::default_config();
    config.ask_scope = false;
    config.ask_breaking_change = false;
    assert_eq!(FormStep::Type.next(&config), Some(FormStep::Commit));
    assert_eq!(FormStep::Commit.next(&config), Some(FormStep::Preview));
    assert_eq!(FormStep::Preview.next(&config), None);
    assert_eq!(FormStep::Preview.prev(&config), Some(FormStep::Commit));
    assert_eq!(FormStep::Commit.prev(&config), Some(FormStep::Type));
    assert_eq!(FormStep::Type.prev(&config), None);
}

#[test]
fn every_step_is_visited_by_default() {
    let config = CocoConfig::default_config();
    assert_eq!(FormStep::Type.next(&config), Some(FormStep::Scope));
    assert_eq!(FormStep::Scope.next(&config), Some(FormStep::Commit));
    assert_eq!(FormStep::Commit.next(&config), Some(FormStep::BreakingChange));
    assert_eq!(FormStep::BreakingChange.next(&config), Some(FormStep::Preview));
    assert_eq!(FormStep::BreakingChange.key(), "breaking-change");
}

#[test]
fn commit_fields_skip_disabled_ones() {
    let config = plain_config();
    assert_eq!(InputType::Summary.next(&config), NavigationResult::NextStep);
    assert_eq!(InputType::Footer.prev(&config), NavigationResult::Input(InputType::Summary));
    assert_eq!(InputType::Summary.prev(&config), NavigationResult::PrevStep);
    let full = CocoConfig::default_config();
    assert_eq!(InputType::Summary.next(&full), NavigationResult::Input(InputType::Body));
}

#[test]
fn forward_move_is_blocked_while_both_steps_are_invalid() {
    let mut w = Wizard::new(plain_config());
    w.publish(Message::BuilderNext);
    w.run_pending(10);
    assert_eq!(w.builder.current_step, FormStep::Type);
    w.publish(Message::BuilderPrev);
    w.run_pending(10);
    assert_eq!(w.builder.current_step, FormStep::Type);
}

#[test]
fn backward_move_to_a_valid_step_is_allowed() {
    let mut w = Wizard::new(plain_config());
    w.set_type_hovered(Some(0));
    press(&mut w, Key::Enter);
    assert_eq!(w.builder.current_step, FormStep::Scope);
    assert_eq!(w.state.get_step_status(FormStep::Scope), StepStatus::Invalid);
    w.publish(Message::BuilderNext);
    w.run_pending(10);
    assert_eq!(w.builder.current_step, FormStep::Scope);
    press(&mut w, Key::PageUp);
    assert_eq!(w.builder.current_step, FormStep::Type);
}

#[test]
fn restart_twice_is_restart_once() {
    let mut w = Wizard::new(plain_config());
    w.set_type_hovered(Some(1));
    press(&mut w, Key::Enter);
    w.set_field_lines(FieldId::Scope, &vec!["core".to_string()]);
    press(&mut w, Key::Enter);
    assert_eq!(w.builder.current_step, FormStep::Commit);
    w.publish(Message::BuilderRestart);
    w.run_pending(10);
    assert_eq!(w.builder.current_step, FormStep::Type);
    let scope = w.state.get_scope();
    let kind = w.state.get_kind().map(|k| k.name);
    w.publish(Message::BuilderRestart);
    w.run_pending(10);
    assert_eq!(w.builder.current_step, FormStep::Type);
    assert_eq!(w.state.get_scope(), scope);
    assert_eq!(w.state.get_kind().map(|k| k.name), kind);
    assert_eq!(scope, Some("core".to_string()));
}

#[test]
fn summary_budget_counts_kind_scope_and_emoji() {
    let mut config = CocoConfig::default_config();
    config.max_summary_length = 72;
    config.use_emoji = true;
    let mut state = AppState::new(config);
    assert_eq!(calculate_summary_max_char_count(&state), 72);
    state.set_kind(Some(ctype("feat", "✨", "A feature")));
    state.set_scope(Some("api".to_string()));
    assert_eq!(calculate_summary_max_char_count(&state), 59);
    state.set_breaking(true);
    assert_eq!(calculate_summary_max_char_count(&state), 58);
    state.set_scope(None);
    assert_eq!(calculate_summary_max_char_count(&state), 63);
    state.set_breaking(false);
    assert_eq!(calculate_summary_max_char_count(&state), 64);
}

#[test]
fn restart_returns_to_type_whatever_the_validity() {
    let state = AppState::new(plain_config());
    let mut builder = BuilderSection { current_step: FormStep::Preview };
    assert!(builder.receive_message(Message::BuilderRestart, &state));
    assert_eq!(builder.current_step, FormStep::Type);
    let mut w = Wizard::new(plain_config());
    w.builder.current_step = FormStep::Commit;
    w.publish(Message::BuilderRestart);
    w.publish(Message::BuilderRestart);
    assert_eq!(w.run_pending(10), 2);
    assert_eq!(w.builder.current_step, FormStep::Type);
    assert!(w.state.get_kind().is_none());
}

#[test]
fn summary_budget_never_goes_below_zero() {
    let mut config = CocoConfig::default_config();
    config.max_summary_length = 5;
    config.use_emoji = false;
    let mut state = AppState::new(config);
    state.set_kind(Some(ctype("refactor", "", "")));
    assert_eq!(calculate_summary_max_char_count(&state), 0);
}

#[test]
fn whole_run_makes_the_commit_and_shows_it() {
    let mut w = Wizard::new(plain_config());
    w.set_type_hovered(Some(1));
    press(&mut w, Key::Enter);
    assert_eq!(w.builder.current_step, FormStep::Scope);
    assert_eq!(w.focused_field(), Some(FieldId::Scope));
    w.set_field_lines(FieldId::Scope, &vec!["core".to_string()]);
    press(&mut w, Key::Enter);
    assert_eq!(w.builder.current_step, FormStep::Commit);
    assert_eq!(w.focused_field(), Some(FieldId::Summary));
    w.set_field_lines(FieldId::Summary, &vec!["handle nil pointer".to_string()]);
    press(&mut w, Key::Enter);
    assert!(!w.commit_step.body_input.is_touched());
    assert!(!w.commit_step.footer_input.is_touched());
    assert_eq!(w.builder.current_step, FormStep::BreakingChange);
    press(&mut w, Key::Enter);
    assert_eq!(w.builder.current_step, FormStep::Preview);
    press(&mut w, Key::Enter);
    assert_eq!(w.router.current_route, ContentRoute::Committing);
    let effects = w.take_effects();
    assert_eq!(effects.len(), 1);
    match &effects[0] {
        Effect::RunCommit(text) => assert_eq!(text, "fix(core): handle nil pointer"),
        other => panic!("unexpected effect {:?}", other),
    }
    w.on_commit_finished(true, "[main abc123] fix(core): handle nil pointer\n 1 file changed\n", "");
    let effects = w.take_effects();
    match &effects[0] {
        Effect::RunShow(hash) => assert_eq!(hash, "abc123"),
        other => panic!("unexpected effect {:?}", other),
    }
    w.on_show_finished(true, "abc123\nAnn\nann@x.org\nSat Sep 21 2024\n".to_string(), "");
    w.run_pending(10);
    assert_eq!(w.router.current_route, ContentRoute::Summary);
    let lines = w.summary.as_ref().unwrap().as_lines().unwrap();
    assert_eq!(lines[0], "Commit abc123");
    assert_eq!(lines[4], "fix(core): handle nil pointer");
    assert_eq!(lines.len(), 5);
    assert!(w.key_quits());
    press(&mut w, Key::Enter);
    assert!(matches!(w.take_effects().as_slice(), [Effect::Quit]));
}

#[test]
fn failed_commit_reports_once_and_stays() {
    let mut w = Wizard::new(plain_config());
    w.set_type_hovered(Some(0));
    press(&mut w, Key::Enter);
    press(&mut w, Key::Enter);
    w.set_field_lines(FieldId::Summary, &vec!["x".to_string()]);
    press(&mut w, Key::Enter);
    press(&mut w, Key::Enter);
    press(&mut w, Key::Enter);
    assert_eq!(w.router.current_route, ContentRoute::Committing);
    let before = w.queue.len();
    w.on_commit_finished(false, "", "fatal: nothing to commit");
    w.run_pending(10);
    let published = &w.queue[before..];
    assert_eq!(published.iter().filter(|m| **m == Message::CommittingFailed).count(), 1);
    assert_eq!(w.queue.iter().filter(|m| **m == Message::CommittingCommitted).count(), 0);
    assert_eq!(w.router.current_route, ContentRoute::Committing);
    assert!(w.state.get_commit_info().is_none());
}

#[test]
fn unreadable_show_output_fails_the_commit() {
    let mut w = Wizard::new(plain_config());
    let before = w.queue.len();
    w.on_show_finished(true, "abc\n".to_string(), "");
    assert_eq!(&w.queue[before..], &[Message::CommittingFailed]);
    assert!(w.state.get_commit_info().is_none());
}

#[test]
fn preview_no_restarts_and_keeps_fields() {
    let mut w = Wizard::new(plain_config());
    w.set_type_hovered(Some(0));
    press(&mut w, Key::Enter);
    press(&mut w, Key::Enter);
    w.set_field_lines(FieldId::Summary, &vec!["keep me".to_string()]);
    press(&mut w, Key::Enter);
    press(&mut w, Key::Right);
    press(&mut w, Key::Enter);
    assert_eq!(w.builder.current_step, FormStep::Preview);
    press(&mut w, Key::Right);
    press(&mut w, Key::Enter);
    assert_eq!(w.builder.current_step, FormStep::Type);
    assert_eq!(w.router.current_route, ContentRoute::Builder);
    assert_eq!(w.state.get_summary(), Some("keep me".to_string()));
    assert!(w.state.get_breaking());
}

#[test]
fn help_toggles_and_restores_route() {
    let mut r = AppRouter::new();
    r.receive_message(Message::Key(Key::F2));
    assert_eq!(r.current_route, ContentRoute::Help);
    assert_eq!(r.stashed_route, Some(ContentRoute::Builder));
    r.receive_message(Message::Key(Key::F2));
    assert_eq!(r.current_route, ContentRoute::Builder);
    assert_eq!(r.stashed_route, None);
    r.route(ContentRoute::Help);
    r.toggle_help();
    assert_eq!(r.current_route, ContentRoute::Help);
}

#[test]
fn keys_do_not_reach_steps_behind_help() {
    let mut w = Wizard::new(plain_config());
    press(&mut w, Key::F2);
    assert_eq!(w.active_step(), None);
    press(&mut w, Key::Enter);
    assert!(w.state.get_kind().is_none());
    press(&mut w, Key::F2);
    assert_eq!(w.active_step(), Some(FormStep::Type));
}

#[test]
fn summary_over_budget_blocks_the_step() {
    let mut config = plain_config();
    config.max_summary_length = 10;
    config.use_emoji = false;
    let mut w = Wizard::new(config);
    w.set_type_hovered(Some(0));
    press(&mut w, Key::Enter);
    press(&mut w, Key::Enter);
    assert_eq!(w.commit_step.summary_input.max_char_count, Some(5));
    w.set_field_lines(FieldId::Summary, &vec!["too long".to_string()]);
    press(&mut w, Key::Enter);
    assert_eq!(w.builder.current_step, FormStep::Commit);
    w.set_field_lines(FieldId::Summary, &vec!["ok".to_string()]);
    press(&mut w, Key::Enter);
    assert_eq!(w.builder.current_step, FormStep::BreakingChange);
}

#[test]
fn message_names_round_trip() {
    let all = [
        Message::BuilderNext,
        Message::BuilderPrev,
        Message::BuilderRestart,
        Message::BuilderDone,
        Message::CommittingCommitted,
        Message::CommittingFailed,
        Message::CommittingDone,
        Message::Key(Key::Enter),
        Message::Key(Key::F2),
        Message::Key(Key::PageDown),
    ];
    for m in all {
        assert_eq!(Message::from_name(&m.name()), Some(m));
    }
    assert_eq!(Message::Key(Key::PageUp).name(), "kb:pageup");
    assert_eq!(Message::from_name("builder:unknown"), None);
}
