use cmd_launcher::candidates::{
    build_candidates, candidate_lines, is_candidate_line, split_lines, trim_start,
};
use cmd_launcher::text::{chars_of, same_text, string_of_range};

#[test]
fn inline_then_file_in_source_order() {
    let got = build_candidates(Some("#comment\nfoo\n\nbar"), Some("baz"));
    assert_eq!(got, vec!["foo", "bar", "baz"]);
}

#[test]
fn absent_sources_give_no_candidates() {
    assert!(build_candidates(None, None).is_empty());
    assert_eq!(build_candidates(None, Some("a\nb")), vec!["a", "b"]);
    assert_eq!(build_candidates(Some("a\nb"), None), vec!["a", "b"]);
}

#[test]
fn duplicates_are_kept() {
    let got = build_candidates(Some("ls\nls"), Some("ls"));
    assert_eq!(got, vec!["ls", "ls", "ls"]);
}

#[test]
fn inline_lines_are_trimmed_and_file_lines_are_not() {
    let got = build_candidates(Some("  ls -la\n\tgit status"), Some("  make\n\t# no\n   "));
    assert_eq!(got, vec!["ls -la", "git status", "  make"]);
}

#[test]
fn comments_behind_white_space_are_left_out() {
    assert!(!is_candidate_line("# comment"));
    assert!(!is_candidate_line("   # comment"));
    assert!(!is_candidate_line(""));
    assert!(!is_candidate_line(" \t "));
    assert!(is_candidate_line("ls # not a comment line"));
    assert!(is_candidate_line("  ls"));
}

#[test]
fn split_lines_agrees_with_std() {
    let texts = [
        "",
        "\n",
        "a",
        "a\n",
        "a\nb",
        "a\r\nb\r\n",
        "a\n\nb",
        "\n\na",
        "a\r",
        "a\r\r\nb",
        "\r\n",
        "a\rb\nc",
        "one two\n three \n",
    ];
    for text in texts {
        let expected: Vec<String> = text.lines().map(|l| l.to_string()).collect();
        assert_eq!(split_lines(text), expected, "text {:?}", text);
    }
}

#[test]
fn split_lines_strips_the_carriage_return_before_a_line_feed() {
    assert_eq!(split_lines("a\r\nb"), vec!["a", "b"]);
    assert_eq!(split_lines("a\r"), vec!["a\r"]);
}

#[test]
fn trim_start_agrees_with_std() {
    let lines = ["", "a", "  a ", "\t\ta b", " \u{3000}\u{a0}x", "\u{200b}x", "   "];
    for line in lines {
        assert_eq!(trim_start(line), line.trim_start(), "line {:?}", line);
    }
}

#[test]
fn candidate_lines_keep_or_trim() {
    assert_eq!(candidate_lines(" a\n#b\n  c", true), vec!["a", "c"]);
    assert_eq!(candidate_lines(" a\n#b\n  c", false), vec![" a", "  c"]);
}

#[test]
fn text_helpers_convert_both_ways() {
    let v = chars_of("héllo");
    assert_eq!(v, vec!['h', 'é', 'l', 'l', 'o']);
    assert_eq!(string_of_range(&v, 1, 3), "él");
    assert_eq!(string_of_range(&v, 2, 2), "");
    assert!(same_text("abc", "abc"));
    assert!(!same_text("abc", "abd"));
    assert!(!same_text("abc", "ab"));
}
