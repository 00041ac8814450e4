use coco::commit::{Commit, CommitInfo, ConventionalCommitMessage};

fn message(kind: &str, scope: &str, emoji: &str, summary: &str, breaking: bool) -> ConventionalCommitMessage {
    ConventionalCommitMessage {
        kind: kind.to_string(),
        emoji: emoji.to_string(),
        scope: scope.to_string(),
        summary: summary.to_string(),
        body: vec![],
        footer: vec![],
        breaking,
    }
}

#[test]
fn title_with_every_segment() {
    let m = message("feat", "api", "✨", "add x", true);
    assert_eq!(m.raw_title(), "feat(api)!: ✨ add x");
}

#[test]
fn title_without_scope_or_emoji() {
    let m = message("feat", "", "", "add x", false);
    assert_eq!(m.raw_title(), "feat: add x");
}

#[test]
fn title_trims_scope_and_emoji() {
    let m = message("fix", "  core ", "  ", "y", false);
    assert_eq!(m.raw_title(), "fix(core): y");
    let blank_scope = message("fix", "   ", " 🚑 ", "y", false);
    assert_eq!(blank_scope.raw_title(), "fix: 🚑 y");
}

#[test]
fn commit_text_with_body_and_footer() {
    let mut m = message("docs", "readme", "", "explain", false);
    m.body = vec!["line one".to_string(), "line two  ".to_string()];
    m.footer = vec!["Refs: #1".to_string()];
    assert_eq!(m.raw_body(), "line one\nline two");
    assert_eq!(m.raw_footer(), "Refs: #1");
    assert_eq!(m.raw_commit(), "docs(readme): explain\n\nline one\nline two\n\nRefs: #1");
    assert_eq!(m.raw_full_body(), "line one\nline two\n\nRefs: #1");
}

#[test]
fn commit_text_skips_empty_blocks() {
    let mut m = message("fix", "core", "", "handle nil pointer", false);
    m.body = vec!["".to_string()];
    m.footer = vec!["  ".to_string()];
    assert_eq!(m.raw_commit(), "fix(core): handle nil pointer");
    assert_eq!(m.raw_full_body(), "");
    m.body = vec![];
    m.footer = vec!["BREAKING CHANGE: x".to_string()];
    assert_eq!(m.raw_full_body(), "BREAKING CHANGE: x");
}

#[test]
fn height_counts_blocks() {
    let mut m = message("fix", "", "", "x", false);
    assert_eq!(m.height(), 1);
    m.body = vec!["a".to_string(), "b".to_string()];
    assert_eq!(m.height(), 4);
    m.footer = vec!["c".to_string()];
    assert_eq!(m.height(), 6);
    m.footer = vec!["".to_string()];
    assert_eq!(m.height(), 4);
}

#[test]
fn width_is_widest_line() {
    let mut m = message("feat", "", "", "add x", false);
    assert_eq!(m.width(), 11);
    m.body = vec!["a much longer body line".to_string()];
    assert_eq!(m.width(), 23);
    let wide = message("feat", "", "✨", "x", false);
    assert_eq!(wide.width(), 10);
    assert_eq!(wide.size(), (10, 1));
}

#[test]
fn commit_lines_need_report_and_message() {
    let c = Commit { info: None, message: Some(message("feat", "", "", "x", false)) };
    assert!(c.as_lines().is_none());
}

#[test]
fn commit_lines_show_report_and_title() {
    let mut m = message("feat", "ui", "", "add button", false);
    m.body = vec!["first".to_string(), "second".to_string()];
    let c = Commit {
        info: Some(CommitInfo {
            hash: "abc123".to_string(),
            author: "Ann".to_string(),
            author_email: "ann@x.org".to_string(),
            date: "today".to_string(),
        }),
        message: Some(m),
    };
    assert_eq!(
        c.as_lines().unwrap(),
        vec![
            "Commit abc123",
            "Author Ann <ann@x.org>",
            "Date   today",
            "",
            "feat(ui): add button",
            "",
            "first",
            "second",
        ]
    );
}
