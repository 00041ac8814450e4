use coco::git::{parse_commit_output, parse_log, GitError};
use coco::parse::{split_on, split_words, strip_trailing_char};

#[test]
fn test_output_parsing() {
    let output = vec![
        "[master e63e7aa] the first line of the message!",
        " 1 file changed, 0 insertions(+), 0 deletions(-)",
        " create mode 100644 wqeqwex.txt",
    ]
    .join("\n");

    let (hash, branch) = parse_commit_output(&output).unwrap();
    assert_eq!(hash, "e63e7aa");
    assert_eq!(branch, "master");
}

#[test]
fn test_parser() {
    let command_output = [
        "a80e068a86f84b31b62976cc85fd1bdf059c6c83",
        "Mr. Foo Bar",
        "foobar@baz.com",
        "Sat Sep 21 03:54:47 2024 -0300",
    ]
    .join("\n");

    let info = parse_log(command_output);

    let info = info.unwrap();

    assert_eq!(info.hash, "a80e068a86f84b31b62976cc85fd1bdf059c6c83");
    assert_eq!(info.author, "Mr. Foo Bar");
    assert_eq!(info.author_email, "foobar@baz.com");
    assert_eq!(info.date, "Sat Sep 21 03:54:47 2024 -0300");
}

#[test]
fn commit_output_without_summary_line_is_unparsable() {
    let r = parse_commit_output("nothing to commit, working tree clean\n");
    assert!(matches!(r, Err(GitError::UnparsableOutput(_))));
    let short = parse_commit_output("[main abc123]\n");
    assert!(matches!(short, Err(GitError::UnparsableOutput(_))));
}

#[test]
fn commit_output_takes_first_summary_line() {
    let out = "warning: x\n[feature/a 1234567] first\n[other 7654321] second\n";
    let (hash, branch) = parse_commit_output(out).unwrap();
    assert_eq!(hash, "1234567");
    assert_eq!(branch, "feature/a");
}

#[test]
fn commit_output_root_commit_line() {
    let (hash, branch) = parse_commit_output("[main (root-commit) 0a1b2c3] init").unwrap();
    assert_eq!(hash, "0a1b2c3");
    assert_eq!(branch, "main");
}

#[test]
fn log_with_too_few_lines_is_unparsable() {
    let r = parse_log("abc\nMe\nme@x.org".to_string());
    match r {
        Err(GitError::UnparsableOutput(o)) => assert_eq!(o, "abc\nMe\nme@x.org"),
        _ => panic!("expected an unparsable output"),
    }
}

#[test]
fn split_keeps_empty_pieces() {
    assert_eq!(split_on("a\n\nb\n", '\n'), vec!["a", "", "b", ""]);
    assert_eq!(split_on("", '\n'), vec![""]);
}

#[test]
fn words_split_on_any_whitespace() {
    assert_eq!(split_words("  [main\tabc]  x\u{3000}y "), vec!["[main", "abc]", "x", "y"]);
    assert!(split_words(" \t ").is_empty());
}

#[test]
fn trailing_brackets_are_stripped() {
    assert_eq!(strip_trailing_char("abc]]", ']'), "abc");
    assert_eq!(strip_trailing_char("]", ']'), "");
    assert_eq!(strip_trailing_char("a]b", ']'), "a]b");
}
