use ecotest::project::Project;
use ecotest::ecosystem::Ecosystem;
use ecotest::report::failure_line;
use ecotest::report::outcome_line;
use ecotest::report::render_all;
use ecotest::report::render_result;
use ecotest::runner::Outcome;
use ecotest::runner::RunError;
use ecotest::runner::judge_launch;
use ecotest::runner::outcome_of_status;

#[test]
fn zero_exit_status_passes() {
    assert!(matches!(outcome_of_status(true), Outcome::Passed));
}

#[test]
fn nonzero_exit_status_fails() {
    assert!(matches!(outcome_of_status(false), Outcome::Failed));
}

#[test]
fn obtained_status_is_never_a_launch_error() {
    assert!(matches!(judge_launch(Ok(true)), Ok(Outcome::Passed)));
    assert!(matches!(judge_launch(Ok(false)), Ok(Outcome::Failed)));
}

#[test]
fn failed_launch_keeps_its_description() {
    let r = judge_launch(Err("command not found".to_string()));
    match r {
        Err(e) => assert_eq!(e.message, "command not found"),
        Ok(_) => panic!("a failed launch must not yield an outcome"),
    }
}

#[test]
fn outcome_lines_carry_glyph_and_name() {
    assert_eq!(outcome_line("alpha", Outcome::Passed), "\u{2705} alpha");
    assert_eq!(outcome_line("beta", Outcome::Failed), "\u{274c} beta");
}

#[test]
fn failure_lines_carry_name_and_description() {
    assert_eq!(
        failure_line("alpha", "no cargo on the path"),
        "\u{1f4a3} alpha: no cargo on the path",
    );
}

#[test]
fn outcome_reports_go_to_stdout() {
    let line = render_result("alpha", &Ok(Outcome::Passed));
    assert!(!line.to_stderr);
    assert_eq!(line.text, "\u{2705} alpha");
}

#[test]
fn launch_failure_reports_go_to_stderr() {
    let line = render_result("beta", &Err(RunError { message: "gone".to_string() }));
    assert!(line.to_stderr);
    assert_eq!(line.text, "\u{1f4a3} beta: gone");
}

fn project(name: &str, ecosystem: Ecosystem) -> Project {
    Project { name: name.to_string(), root: format!("/work/{}", name), ecosystem }
}

#[test]
fn every_result_gets_exactly_one_line() {
    let results = vec![
        (project("alpha", Ecosystem::Rust), Ok(Outcome::Passed)),
        (project("beta", Ecosystem::Elixir), Err(RunError { message: "lost".to_string() })),
        (project("gamma", Ecosystem::Rust), Ok(Outcome::Failed)),
    ];
    let lines = render_all(&results);
    assert_eq!(lines.len(), 3);
    assert_eq!(lines[0].text, "\u{2705} alpha");
    assert!(!lines[0].to_stderr);
    assert_eq!(lines[1].text, "\u{1f4a3} beta: lost");
    assert!(lines[1].to_stderr);
    assert_eq!(lines[2].text, "\u{274c} gamma");
    assert!(!lines[2].to_stderr);
}
