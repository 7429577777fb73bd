use cmd_launcher::buffer::InputBuffer;
use cmd_launcher::config::Config;
use cmd_launcher::session::{Key, Session};
use cmd_launcher::view::{compose_frame, prompt, Line};

fn config(entries: &[(&str, &str)]) -> Config {
    let mut c = Config::new();
    for (k, v) in entries {
        c.set(k.to_string(), v.to_string());
    }
    c
}

fn complete() -> Config {
    config(&[("shell", "zsh"), ("shell_flag", "-ic")])
}

fn typed(text: &str) -> InputBuffer {
    let mut b = InputBuffer::new();
    for c in text.chars() {
        b.insert(c);
    }
    b
}

fn type_text(s: &mut Session, text: &str) {
    for c in text.chars() {
        s.handle_key_event(Key::Char(c));
    }
}

fn strings(items: &[&str]) -> Vec<String> {
    items.iter().map(|s| s.to_string()).collect()
}

fn candidate(text: &str) -> Line {
    Line::Candidate(text.to_string())
}

#[test]
fn prompt_over_empty_text_is_a_hint() {
    assert_eq!(prompt(&InputBuffer::new(), true), Line::PromptHint { completing: true });
    assert_eq!(prompt(&InputBuffer::new(), false), Line::PromptHint { completing: false });
}

#[test]
fn prompt_parts_the_text_at_the_cursor() {
    let mut b = typed("git st");
    assert_eq!(
        prompt(&b, false),
        Line::Prompt { completing: false, before: "git st".to_string(), after: String::new() }
    );
    b.move_left();
    b.move_left();
    assert_eq!(
        prompt(&b, true),
        Line::Prompt { completing: true, before: "git ".to_string(), after: "st".to_string() }
    );
}

#[test]
fn missing_configuration_shows_only_the_error() {
    for c in [Config::new(), config(&[("shell", "zsh")]), config(&[("shell_flag", "-ic")])] {
        let mut s = Session::load(c, Some("ls"));
        type_text(&mut s, "ls");
        for rows in [0, 3, 7, 30] {
            assert_eq!(s.render(rows, 80), vec![Line::ConfigError]);
            assert!(s.completion_enabled);
        }
    }
}

#[test]
fn three_rows_show_validation_and_prompt_only() {
    let mut s = Session::load(complete(), Some("ls -la\nmake"));
    type_text(&mut s, "ls");
    assert!(s.completion_enabled);
    let lines = s.render(3, 80);
    assert_eq!(
        lines,
        vec![
            Line::CommandValid,
            Line::Prompt { completing: false, before: "ls".to_string(), after: String::new() },
        ]
    );
    assert!(!s.completion_enabled);
}

#[test]
fn three_rows_with_completion_already_off() {
    let mut s = Session::load(complete(), None);
    assert!(!s.completion_enabled);
    assert_eq!(s.render(3, 80), vec![Line::CommandValid, Line::PromptHint { completing: false }]);
    assert!(!s.completion_enabled);
}

#[test]
fn four_rows_are_still_too_few_and_five_are_not() {
    let mut s = Session::load(complete(), None);
    assert_eq!(s.render(4, 80).len(), 2);
    assert_eq!(
        s.render(5, 80),
        vec![
            Line::CommandValid,
            Line::PromptHint { completing: false },
            Line::Blank,
            Line::KeyHelp
        ]
    );
}

#[test]
fn fewer_than_ten_rows_switch_completion_off_and_go_on() {
    let mut s = Session::load(config(&[("shell", "zsh"), ("shell_flag", "-ic"), ("exec_cwd", "/w")]), Some("ls"));
    assert!(s.completion_enabled);
    let lines = s.render(9, 80);
    assert_eq!(
        lines,
        vec![
            Line::CommandValid,
            Line::PromptHint { completing: false },
            Line::Blank,
            Line::WorkingDir("/w".to_string()),
            Line::Blank,
            Line::KeyHelp,
        ]
    );
    assert!(!s.completion_enabled);
    assert_eq!(s.render(40, 80), lines);
}

#[test]
fn invalid_command_is_marked() {
    let mut s = Session::load(complete(), None);
    type_text(&mut s, "echo \"hello");
    let lines = s.render(20, 80);
    assert_eq!(lines[0], Line::CommandInvalid);
    assert_eq!(s.render(3, 80)[0], Line::CommandInvalid);
    s.handle_key_event(Key::Char('"'));
    assert_eq!(s.render(20, 80)[0], Line::CommandValid);
}

#[test]
fn validation_follows_the_selected_candidate() {
    let mut s = Session::load(complete(), Some("echo \"open"));
    type_text(&mut s, "ec");
    assert_eq!(s.render(20, 80)[0], Line::CommandInvalid);
    s.handle_key_event(Key::Ctrl('x'));
    assert_eq!(s.render(20, 80)[0], Line::CommandValid);
}

#[test]
fn completion_lists_match_and_candidates() {
    let mut s = Session::load(complete(), Some("ls -la\nmake\ntail -f log"));
    type_text(&mut s, "l");
    s.fuzzy_find_completion();
    let best = s.best_match.clone().unwrap();
    let lines = s.render(30, 80);
    assert_eq!(
        lines,
        vec![
            Line::CommandValid,
            Line::Prompt { completing: true, before: "l".to_string(), after: String::new() },
            Line::Match(best),
            Line::Blank,
            Line::ListHeader,
            candidate("ls -la"),
            candidate("tail -f log"),
            Line::Blank,
            Line::KeyHelp,
        ]
    );
    assert!(s.completion_enabled);
}

#[test]
fn completion_without_selection_lists_every_candidate_for_empty_text() {
    let mut s = Session::load(complete(), Some("ls -la\nmake"));
    let lines = s.render(30, 80);
    assert_eq!(
        lines,
        vec![
            Line::CommandValid,
            Line::PromptHint { completing: true },
            Line::NoMatch,
            Line::Blank,
            Line::ListHeader,
            candidate("ls -la"),
            candidate("make"),
            Line::Blank,
            Line::KeyHelp,
        ]
    );
}

#[test]
fn list_is_cut_to_the_room_of_the_viewport() {
    let mut s = Session::load(complete(), Some("a1\na2\na3\na4"));
    let lines = s.render(15, 80);
    assert_eq!(
        lines[2..],
        [
            Line::NoMatch,
            Line::Blank,
            Line::ListHeader,
            candidate("a1"),
            candidate("a2"),
            Line::Truncated,
            Line::Blank,
            Line::KeyHelp,
        ]
    );
    let lines = s.render(17, 80);
    assert_eq!(
        lines[5..],
        [candidate("a1"), candidate("a2"), candidate("a3"), candidate("a4"), Line::Blank, Line::KeyHelp]
    );
    let lines = s.render(16, 80);
    assert_eq!(
        lines[5..],
        [
            candidate("a1"),
            candidate("a2"),
            candidate("a3"),
            Line::Truncated,
            Line::Blank,
            Line::KeyHelp
        ]
    );
}

#[test]
fn ten_rows_have_room_for_no_candidate() {
    let mut s = Session::load(complete(), Some("a1\na2"));
    for rows in [10, 13] {
        assert_eq!(
            s.render(rows, 80),
            vec![
                Line::CommandValid,
                Line::PromptHint { completing: true },
                Line::NoMatch,
                Line::Blank,
                Line::ListHeader,
                Line::Truncated,
                Line::Blank,
                Line::KeyHelp,
            ]
        );
    }
    type_text(&mut s, "zz");
    let lines = s.render(10, 80);
    assert_eq!(lines[4..], [Line::ListHeader, Line::Blank, Line::KeyHelp]);
}

#[test]
fn debug_adds_diagnostic_lines() {
    let c = config(&[("shell", "zsh"), ("debug", "true"), ("shell_flag", "-ic")]);
    let mut s = Session::load(c, None);
    type_text(&mut s, "ab");
    s.handle_key_event(Key::Left);
    let lines = s.render(20, 80);
    assert_eq!(
        lines,
        vec![
            Line::CommandValid,
            Line::Prompt { completing: false, before: "a".to_string(), after: "b".to_string() },
            Line::Blank,
            Line::KeyHelp,
            Line::DebugInput("ab".to_string()),
            Line::DebugCursor(1),
            Line::DebugLength(2),
            Line::DebugConfigHeader,
            Line::DebugEntry { key: "shell".to_string(), value: "zsh".to_string() },
            Line::DebugEntry { key: "debug".to_string(), value: "true".to_string() },
            Line::DebugEntry { key: "shell_flag".to_string(), value: "-ic".to_string() },
        ]
    );
    assert_eq!(s.render(4, 80).len(), 2);
}

#[test]
fn debug_needs_the_word_true() {
    let c = config(&[("shell", "zsh"), ("debug", "1"), ("shell_flag", "-ic")]);
    let mut s = Session::load(c, None);
    assert_eq!(s.render(20, 80).len(), 4);
}

#[test]
fn compose_frame_takes_validity_and_matches_as_given() {
    let input = typed("x");
    let lines = compose_frame(
        &complete(),
        &input,
        true,
        &Some("pick".to_string()),
        &strings(&["m1", "m2"]),
        false,
        14,
    );
    assert_eq!(
        lines,
        vec![
            Line::CommandInvalid,
            Line::Prompt { completing: true, before: "x".to_string(), after: String::new() },
            Line::Match("pick".to_string()),
            Line::Blank,
            Line::ListHeader,
            candidate("m1"),
            Line::Truncated,
            Line::Blank,
            Line::KeyHelp,
        ]
    );
}

#[test]
fn render_does_not_touch_text_or_selection() {
    let mut s = Session::load(complete(), Some("ls -la"));
    type_text(&mut s, "ls");
    let before = s.clone();
    s.render(30, 80);
    assert_eq!(s, before);
    s.render(8, 80);
    assert_eq!(s.input, before.input);
    assert_eq!(s.best_match, before.best_match);
    assert_eq!(s.candidates, before.candidates);
}
