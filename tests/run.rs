use jsonschema_cli::cli::{command_for, exit_code, version_line, Command};
use jsonschema_cli::json::{load_document, LoadError};
use jsonschema_cli::report::Outcome;
use jsonschema_cli::run::{report_run, Action, Run};

fn strings(v: &[&str]) -> Vec<String> {
    v.iter().map(|s| s.to_string()).collect()
}

fn invalid(msgs: &[&str]) -> Outcome {
    Outcome::Invalid(strings(msgs))
}

#[test]
fn conforming_instances_succeed() {
    let results = vec![
        ("a.json".to_string(), Outcome::Valid),
        ("b.json".to_string(), Outcome::Valid),
    ];
    let (lines, ok) = report_run(&Ok(()), &results);
    assert!(ok);
    assert_eq!(exit_code(ok), 0);
    assert_eq!(lines, strings(&["a.json - VALID", "b.json - VALID"]));
}

#[test]
fn violations_are_numbered_and_fail() {
    let results = vec![("i.json".to_string(), invalid(&["e1", "e2", "e3"]))];
    let (lines, ok) = report_run(&Ok(()), &results);
    assert!(!ok);
    assert_eq!(exit_code(ok), 1);
    assert_eq!(lines, strings(&["i.json - INVALID. Errors:", "1. e1", "2. e2", "3. e3"]));
}

#[test]
fn invalid_schema_reports_once_and_skips_instances() {
    let results = vec![
        ("a.json".to_string(), Outcome::Valid),
        ("b.json".to_string(), invalid(&["x"])),
    ];
    let (lines, ok) = report_run(&Err("unknown type".to_string()), &results);
    assert!(!ok);
    assert_eq!(exit_code(ok), 1);
    assert_eq!(lines, strings(&["Schema is invalid. Error: unknown type"]));
}

#[test]
fn invalid_schema_fails_without_instances() {
    let (lines, ok) = report_run(&Err("bad".to_string()), &Vec::new());
    assert!(!ok);
    assert_eq!(lines.len(), 1);
}

#[test]
fn no_instances_succeed_silently() {
    let (lines, ok) = report_run(&Ok(()), &Vec::new());
    assert!(ok);
    assert_eq!(exit_code(ok), 0);
    assert!(lines.is_empty());
}

#[test]
fn report_keeps_instance_order() {
    let results = vec![
        ("a.json".to_string(), invalid(&["a is wrong"])),
        ("b.json".to_string(), Outcome::Valid),
    ];
    let (lines, ok) = report_run(&Ok(()), &results);
    assert!(!ok);
    assert_eq!(
        lines,
        strings(&["a.json - INVALID. Errors:", "1. a is wrong", "b.json - VALID"])
    );
}

#[test]
fn one_invalid_instance_fails_the_run() {
    let results = vec![
        ("a.json".to_string(), Outcome::Valid),
        ("b.json".to_string(), invalid(&["no"])),
        ("c.json".to_string(), Outcome::Valid),
    ];
    let (lines, ok) = report_run(&Ok(()), &results);
    assert!(!ok);
    assert_eq!(lines.len(), 4);
    assert_eq!(lines[3], "c.json - VALID");
}

#[test]
fn run_steps_through_instances() {
    let mut run = Run::new(2);
    assert!(!run.is_finished());
    let (lines, action) = run.on_compile(&Ok(()));
    assert!(lines.is_empty());
    assert_eq!(action, Action::CheckInstance(0));
    let (lines, action) = run.on_instance("a.json", &invalid(&["m"]));
    assert_eq!(lines, strings(&["a.json - INVALID. Errors:", "1. m"]));
    assert_eq!(action, Action::CheckInstance(1));
    let (lines, action) = run.on_instance("b.json", &Outcome::Valid);
    assert_eq!(lines, strings(&["b.json - VALID"]));
    assert_eq!(action, Action::Finish(false));
    assert!(run.is_finished());
}

#[test]
fn run_with_no_instances_finishes_after_compiling() {
    let mut run = Run::new(0);
    let (lines, action) = run.on_compile(&Ok(()));
    assert!(lines.is_empty());
    assert_eq!(action, Action::Finish(true));
    assert!(run.is_finished());
}

#[test]
fn run_stops_on_schema_error() {
    let mut run = Run::new(3);
    let (lines, action) = run.on_compile(&Err("oops".to_string()));
    assert_eq!(lines, strings(&["Schema is invalid. Error: oops"]));
    assert_eq!(action, Action::Finish(false));
    assert!(run.is_finished());
}

#[test]
fn version_flag_wins() {
    assert_eq!(command_for(true, true), Command::ShowVersion);
    assert_eq!(command_for(true, false), Command::ShowVersion);
    assert_eq!(command_for(false, true), Command::Validate);
    assert_eq!(command_for(false, false), Command::Nothing);
    assert_eq!(version_line("0.3.0"), "Version: 0.3.0");
}

#[test]
fn load_document_decodes_json() {
    let v = load_document(b"{\"type\": \"integer\"}").unwrap();
    assert_eq!(v["type"], "integer");
    let n = load_document(b"42").unwrap();
    assert_eq!(n, 42);
    let s = load_document(b"\"hello\"").unwrap();
    assert_eq!(s, "hello");
}

#[test]
fn load_document_rejects_malformed_json() {
    assert!(matches!(load_document(b"{\"type\": "), Err(LoadError::MalformedJson(_))));
    assert!(matches!(load_document(b"not json"), Err(LoadError::MalformedJson(_))));
    assert!(matches!(load_document(b""), Err(LoadError::MalformedJson(_))));
}
