use pty_shell::command::{exec, exec_with_env};
use pty_shell::envmap::{capture_environment_vars, get_environment_for_child, EnvMap};

#[test]
fn test_capturing_env_for_header() {
    let mut environ = EnvMap::new();
    environ.insert("THIS_IS_A_TEST_1".to_string(), "1".to_string());
    environ.insert("THIS_IS_A_TEST_2".to_string(), "2".to_string());
    let keys = vec![
        "THIS_IS_A_TEST_1".to_string(),
        "THIS_IS_A_TEST_2".to_string(),
        "THIS_IS_A_TEST_3".to_string(),
    ];
    let result = capture_environment_vars(keys, &environ);
    assert_eq!(result.get("THIS_IS_A_TEST_1"), Some(&"1".to_string()));
    assert_eq!(result.get("THIS_IS_A_TEST_2"), Some(&"2".to_string()));
    assert_eq!(result.get("THIS_IS_A_TEST_3"), None);
}

#[test]
fn test_env_copies_parent() {
    let mut e: Vec<(String, String)> = Vec::new();
    e.push(("FOO".to_string(), "test".to_string()));
    e.push(("BAR".to_string(), "1".to_string()));
    let result = get_environment_for_child(e);
    assert_eq!(result.get("FOO"), Some(&"test".to_string()));
    assert_eq!(result.get("BAR"), Some(&"1".to_string()));
}

#[test]
fn test_env_sets_asciinema_rec() {
    let e: Vec<(String, String)> = Vec::new();
    let result = get_environment_for_child(e);
    assert_eq!(result.get("ASCIINEMA_REC"), Some(&"1".to_string()));
}

#[test]
fn env_last_insertion_wins() {
    let mut m = EnvMap::new();
    m.insert("TERM".to_string(), "dumb".to_string());
    m.insert("TERM".to_string(), "xterm".to_string());
    assert_eq!(m.get("TERM"), Some(&"xterm".to_string()));
    assert_eq!(m.get("SHELL"), None);
    assert_eq!(m.len(), 2);
}

#[test]
fn env_child_overrides_parent_marker() {
    let mut e: Vec<(String, String)> = Vec::new();
    e.push(("ASCIINEMA_REC".to_string(), "0".to_string()));
    let result = get_environment_for_child(e);
    assert_eq!(result.get("ASCIINEMA_REC"), Some(&"1".to_string()));
}

#[test]
fn exec_plan_inherits_environment() {
    let p = exec("pwd");
    assert_eq!(p.program, "pwd".to_string());
    assert!(p.env_lines.is_none());
}

#[test]
fn exec_plan_formats_env_lines() {
    let mut e: Vec<(String, String)> = Vec::new();
    e.push(("FOO".to_string(), "bar".to_string()));
    let child_env = get_environment_for_child(e);
    let p = exec_with_env("env", Some(child_env));
    assert_eq!(p.program, "env".to_string());
    let lines = p.env_lines.unwrap();
    assert_eq!(lines.len(), 2);
    assert_eq!(lines[0], "FOO=bar".to_string());
    assert_eq!(lines[1], "ASCIINEMA_REC=1".to_string());
}

#[test]
fn exec_plan_without_env_map() {
    let p = exec_with_env("sh", None);
    assert_eq!(p.program, "sh".to_string());
    assert!(p.env_lines.is_none());
}
