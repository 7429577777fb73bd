use cmd_launcher::config::{Config, ConfigEntry};
use cmd_launcher::dispatch::{
    configured_cwd, is_config_complete, plan_dispatch, ExecRequest, Placement,
};
use cmd_launcher::shell::{split_command, DispatchError};

fn config(entries: &[(&str, &str)]) -> Config {
    let mut c = Config::new();
    for (k, v) in entries {
        c.set(k.to_string(), v.to_string());
    }
    c
}

#[test]
fn config_get_returns_first_value_under_key() {
    let c = config(&[("shell", "zsh"), ("debug", "true"), ("shell", "bash")]);
    assert_eq!(c.get("shell"), Some(&"zsh".to_string()));
    assert_eq!(c.get("debug"), Some(&"true".to_string()));
    assert_eq!(c.get("shell_flag"), None);
    assert!(c.has("shell"));
    assert!(!c.has("shel"));
}

#[test]
fn config_flag_needs_the_word_true() {
    let c = config(&[("debug", "true"), ("embedded", "yes"), ("x", "True")]);
    assert!(c.flag("debug"));
    assert!(!c.flag("embedded"));
    assert!(!c.flag("x"));
    assert!(!c.flag("absent"));
}

#[test]
fn config_set_appends_entries() {
    let c = config(&[("a", "1"), ("b", "2")]);
    assert_eq!(
        c.entries,
        vec![
            ConfigEntry { key: "a".to_string(), value: "1".to_string() },
            ConfigEntry { key: "b".to_string(), value: "2".to_string() },
        ]
    );
    assert!(Config::new().entries.is_empty());
}

#[test]
fn split_command_gives_words() {
    assert_eq!(
        split_command("here are \"two words\""),
        Ok(vec!["here".to_string(), "are".to_string(), "two words".to_string()])
    );
    assert_eq!(
        split_command("cat file.txt | less"),
        Ok(vec!["cat".to_string(), "file.txt".to_string(), "|".to_string(), "less".to_string()])
    );
    assert_eq!(split_command(""), Ok(Vec::new()));
}

#[test]
fn split_command_rejects_open_quotes() {
    assert_eq!(split_command("echo \"hello"), Err(DispatchError::MalformedCommand));
    assert_eq!(split_command("a 'b c d e"), Err(DispatchError::MalformedCommand));
    assert_eq!(split_command("one '\"\"\""), Err(DispatchError::MalformedCommand));
}

#[test]
fn config_is_complete_with_shell_and_flag() {
    assert!(is_config_complete(&config(&[("shell", "zsh"), ("shell_flag", "-ic")])));
    assert!(!is_config_complete(&config(&[("shell", "zsh")])));
    assert!(!is_config_complete(&config(&[("shell_flag", "-ic")])));
    assert!(!is_config_complete(&Config::new()));
}

#[test]
fn working_directory_prefers_exec_cwd() {
    assert_eq!(configured_cwd(&Config::new()), None);
    assert_eq!(configured_cwd(&config(&[("cwd", "/a")])), Some("/a".to_string()));
    assert_eq!(
        configured_cwd(&config(&[("cwd", "/a"), ("exec_cwd", "/b")])),
        Some("/b".to_string())
    );
}

#[test]
fn plan_passes_the_whole_command_as_one_argument() {
    let c = config(&[("shell", "zsh"), ("shell_flag", "-ic"), ("exec_cwd", "/tmp")]);
    let plan = plan_dispatch("ls -la \"my dir\"".to_string(), true, &c, false);
    assert_eq!(
        plan,
        Ok(ExecRequest {
            path: "zsh".to_string(),
            args: vec!["-ic".to_string(), "ls -la \"my dir\"".to_string()],
            cwd: Some("/tmp".to_string()),
            placement: Placement::Floating,
        })
    );
}

#[test]
fn plan_places_embedded_when_asked() {
    let c = config(&[("shell", "fish"), ("shell_flag", "-c")]);
    let plan = plan_dispatch("ls".to_string(), true, &c, true).unwrap();
    assert_eq!(plan.placement, Placement::Embedded);
    assert_eq!(plan.cwd, None);
    assert_eq!(plan.path, "fish");
}

#[test]
fn plan_rejects_malformed_before_looking_at_config() {
    let complete = config(&[("shell", "zsh"), ("shell_flag", "-ic")]);
    assert_eq!(
        plan_dispatch("echo \"hello".to_string(), false, &complete, false),
        Err(DispatchError::MalformedCommand)
    );
    assert_eq!(
        plan_dispatch("echo \"hello".to_string(), false, &Config::new(), false),
        Err(DispatchError::MalformedCommand)
    );
}

#[test]
fn plan_rejects_incomplete_configuration() {
    assert_eq!(
        plan_dispatch("ls".to_string(), true, &config(&[("shell", "zsh")]), false),
        Err(DispatchError::IncompleteConfiguration)
    );
    assert_eq!(
        plan_dispatch("ls".to_string(), true, &config(&[("shell_flag", "-ic")]), false),
        Err(DispatchError::IncompleteConfiguration)
    );
}
