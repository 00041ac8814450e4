use coco::cli::{action_from_flags, staged_files, stops_for_nothing_staged, Action};
use coco::config::{CocoConfig, PartialConfig, Theme};
use coco::textarea::LabeledTextArea;
use coco::help::{help_sections, CocoHelp};
use coco::locale::locale_language;
use coco::text::is_empty;

fn empty_partial() -> PartialConfig {
    PartialConfig {
        theme: None,
        use_emoji: None,
        ask_scope: None,
        ask_body: None,
        ask_footer: None,
        ask_breaking_change: None,
        max_summary_length: None,
        scopes: None,
        types: None,
    }
}

#[test]
fn project_file_overrides_global_file() {
    let mut home = empty_partial();
    home.use_emoji = Some(false);
    home.max_summary_length = Some(50);
    home.scopes = Some(vec!["api".to_string()]);
    let mut current = empty_partial();
    current.max_summary_length = Some(60);
    current.ask_scope = Some(false);
    let config = CocoConfig::merge_configs(CocoConfig::default_config(), Some(home), Some(current));
    assert!(!config.use_emoji);
    assert_eq!(config.max_summary_length, 60);
    assert!(!config.ask_scope);
    assert!(config.ask_body);
    assert_eq!(config.scopes, vec!["api".to_string()]);
    assert_eq!(config.types.len(), 13);
}

#[test]
fn no_files_keep_defaults() {
    let config = CocoConfig::merge_configs(CocoConfig::default_config(), None, None);
    assert_eq!(config.max_summary_length, 72);
    assert!(config.use_emoji && config.ask_scope && config.ask_breaking_change);
    assert_eq!(config.types[0].name, "feat");
    assert_eq!(config.types[0].emoji, "✨");
}

#[test]
fn theme_layers_override_by_key() {
    let base = Theme::default_theme();
    assert_eq!(base.get("yes"), Some("#00c980".to_string()));
    let over = Theme { entries: vec![("yes".to_string(), "#112233".to_string())] };
    let merged = base.merge(over);
    assert_eq!(merged.get("yes"), Some("#112233".to_string()));
    assert_eq!(merged.get("no"), Some("red".to_string()));
    assert_eq!(merged.get("missing"), None);
}

#[test]
fn flags_choose_the_action() {
    assert_eq!(action_from_flags(true, true, true), Action::Help);
    assert_eq!(action_from_flags(false, true, false), Action::Version);
    assert_eq!(action_from_flags(false, false, true), Action::Coco(false));
    assert_eq!(action_from_flags(false, false, false), Action::Coco(true));
}

#[test]
fn staged_files_are_read_per_line() {
    assert!(staged_files("").is_empty());
    assert_eq!(staged_files("a.rs\nsrc/b.rs\n"), vec!["a.rs", "src/b.rs"]);
    assert!(stops_for_nothing_staged(&vec![], true));
    assert!(!stops_for_nothing_staged(&vec![], false));
    assert!(!stops_for_nothing_staged(&vec!["a".to_string()], true));
}

#[test]
fn locale_language_is_its_first_part() {
    assert_eq!(locale_language(Some("pt_BR".to_string())), "pt");
    assert_eq!(locale_language(Some("en-US".to_string())), "en");
    assert_eq!(locale_language(Some("es".to_string())), "es");
    assert_eq!(locale_language(None), "en");
}

#[test]
fn help_page_height() {
    let help = CocoHelp::new(help_sections());
    assert_eq!(help.total_height(), 2 + 4 + 3 + 5 + 3);
    assert_eq!(CocoHelp::new(vec![]).total_height(), 0);
}

#[test]
fn text_field_rules() {
    let mut f = LabeledTextArea::new(true, true, Some(3), true);
    assert!(!f.is_valid());
    f.set_lines(&vec!["ab".to_string()]);
    assert!(f.is_valid());
    assert!(f.accepts_char());
    assert!(!f.accepts_newline());
    f.set_lines(&vec!["abc".to_string()]);
    assert!(!f.accepts_char());
    f.set_lines(&vec!["ab".to_string(), "c".to_string()]);
    assert_eq!(f.char_count(), 4);
    assert!(!f.is_valid());
    assert_eq!(f.text(), "ab\nc");
    assert_eq!(f.get_height(), 5);
    let mut g = LabeledTextArea::new(false, false, None, false);
    assert!(g.is_valid());
    assert!(!g.is_touched());
    g.set_active(true);
    g.set_active(false);
    assert!(g.is_touched());
}

#[test]
fn default_impls_match_the_defaults() {
    let config = CocoConfig::default();
    assert_eq!(config.max_summary_length, 72);
    assert_eq!(config.types.len(), 13);
    assert_eq!(Theme::default().entries.len(), 30);
}

#[test]
fn joined_lines_emptiness() {
    assert!(is_empty(&vec![]));
    assert!(is_empty(&vec!["".to_string()]));
    assert!(!is_empty(&vec!["".to_string(), "".to_string()]));
    assert!(!is_empty(&vec!["x".to_string()]));
}
