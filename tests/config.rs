use shim::config::{parse_shim_config, ConfigError, ShimConfig};

fn lines(ls: &[&str]) -> Vec<String> {
    ls.iter().map(|l| l.to_string()).collect()
}

#[test]
fn parses_path_args_and_log() {
    let c = parse_shim_config(&lines(&[
        "path = \"/bin/echo\"",
        "args = \"hello\"",
        "log = \"/tmp/run\"",
    ]))
    .unwrap();
    assert_eq!(c.path, "/bin/echo");
    assert_eq!(c.args, Some("hello".to_string()));
    assert_eq!(c.log, Some("/tmp/run".to_string()));
}

#[test]
fn missing_path_is_an_error() {
    let r = parse_shim_config(&lines(&["args = \"hello\"", "log = /tmp/run"]));
    assert!(matches!(r, Err(ConfigError::MissingPath)));
}

#[test]
fn empty_descriptor_is_an_error() {
    assert!(matches!(parse_shim_config(&Vec::new()), Err(ConfigError::MissingPath)));
}

#[test]
fn empty_path_value_is_an_error() {
    assert!(matches!(parse_shim_config(&lines(&["path = \"\""])), Err(ConfigError::MissingPath)));
}

#[test]
fn whitespace_around_key_and_value_is_trimmed() {
    let c = parse_shim_config(&lines(&["  path\t=   /usr/bin/env  \r"])).unwrap();
    assert_eq!(c.path, "/usr/bin/env");
    assert_eq!(c.args, None);
    assert_eq!(c.log, None);
}

#[test]
fn unicode_whitespace_is_trimmed() {
    let c = parse_shim_config(&lines(&["\u{3000}path\u{a0}= \u{2003}prog\u{2028}"])).unwrap();
    assert_eq!(c.path, "prog");
}

#[test]
fn quotes_are_stripped_inside_whitespace() {
    let c = parse_shim_config(&lines(&["path =   \"  spaced prog \"  "])).unwrap();
    assert_eq!(c.path, "  spaced prog ");
}

#[test]
fn only_one_pair_of_quotes_is_stripped() {
    let c = parse_shim_config(&lines(&["path = \"\"x\"\"", "args = \"open"])).unwrap();
    assert_eq!(c.path, "\"x\"");
    assert_eq!(c.args, Some("\"open".to_string()));
}

#[test]
fn value_is_split_at_first_equals() {
    let c = parse_shim_config(&lines(&["path = a=b", "args = --opt=1"])).unwrap();
    assert_eq!(c.path, "a=b");
    assert_eq!(c.args, Some("--opt=1".to_string()));
}

#[test]
fn unknown_keys_and_bare_lines_are_ignored() {
    let c = parse_shim_config(&lines(&["", "# comment", "name = x", "PATH = y", "path = z"]))
        .unwrap();
    assert_eq!(c.path, "z");
    assert_eq!(c.args, None);
    assert_eq!(c.log, None);
}

#[test]
fn later_line_wins() {
    let c = parse_shim_config(&lines(&["path = a", "args = 1", "path = b", "args = 2"])).unwrap();
    assert_eq!(c.path, "b");
    assert_eq!(c.args, Some("2".to_string()));
}

#[test]
fn later_empty_path_clears_earlier_one() {
    let r = parse_shim_config(&lines(&["path = a", "path ="]));
    assert!(matches!(r, Err(ConfigError::MissingPath)));
}

#[test]
fn empty_args_value_is_kept_as_a_token() {
    let c = parse_shim_config(&lines(&["path = p", "args = \"\""])).unwrap();
    assert_eq!(c.args, Some(String::new()));
}

#[test]
fn apply_line_changes_one_field() {
    let mut c = ShimConfig::empty();
    c.apply_line("log=prefix");
    assert_eq!(c.path, "");
    assert_eq!(c.log, Some("prefix".to_string()));
    c.apply_line("no equals here");
    assert_eq!(c.log, Some("prefix".to_string()));
}
