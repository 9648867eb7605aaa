use shim::config::parse_shim_config;
use shim::launch::{child_args, LaunchPlan, LogFiles};

fn strings(ls: &[&str]) -> Vec<String> {
    ls.iter().map(|l| l.to_string()).collect()
}

#[test]
fn echo_scenario_builds_command_line() {
    let c = parse_shim_config(&strings(&["path = \"/bin/echo\"", "args = \"hello\""])).unwrap();
    let plan = LaunchPlan::new(&c, &strings(&["world"]));
    assert_eq!(plan.program, "/bin/echo");
    assert_eq!(plan.args, strings(&["world", "hello"]));
    assert!(!plan.is_captured());
    assert!(plan.logs.is_none());
}

#[test]
fn echo_scenario_with_log_names_both_files() {
    let c = parse_shim_config(&strings(&[
        "path = \"/bin/echo\"",
        "args = \"hello\"",
        "log = \"/tmp/run\"",
    ]))
    .unwrap();
    let plan = LaunchPlan::new(&c, &strings(&["world"]));
    assert!(plan.is_captured());
    let logs = plan.logs.unwrap();
    assert_eq!(logs.stdout, "/tmp/run.stdout.log");
    assert_eq!(logs.stderr, "/tmp/run.stderr.log");
}

#[test]
fn caller_args_come_first_in_order() {
    let r = child_args(&strings(&["a", "b c", ""]), &Some("tok en".to_string()));
    assert_eq!(r, strings(&["a", "b c", "", "tok en"]));
}

#[test]
fn no_token_forwards_caller_args_only() {
    assert_eq!(child_args(&strings(&["x", "y"]), &None), strings(&["x", "y"]));
    assert_eq!(child_args(&Vec::new(), &None), Vec::<String>::new());
}

#[test]
fn token_alone_without_caller_args() {
    assert_eq!(child_args(&Vec::new(), &Some("only".to_string())), strings(&["only"]));
}

#[test]
fn log_names_append_suffixes() {
    let l = LogFiles::from_prefix("out/app");
    assert_eq!(l.stdout, "out/app.stdout.log");
    assert_eq!(l.stderr, "out/app.stderr.log");
}
