use lib::update::{judge, update_commands, Outcome, UpdateRun, Verdict};

#[test]
fn commands_in_order() {
    let lines: Vec<String> = update_commands().iter().map(|c| c.command_line()).collect();
    assert_eq!(
        lines,
        vec!["snap refresh", "apt update", "apt upgrade -y", "apt autoremove -y"]
    );
    let required: Vec<bool> = update_commands().iter().map(|c| c.required).collect();
    assert_eq!(required, vec![false, true, true, true]);
}

#[test]
fn verdicts() {
    assert!(matches!(judge(true, &Outcome::Succeeded), Verdict::Passed));
    assert!(matches!(judge(false, &Outcome::Succeeded), Verdict::Passed));
    assert!(matches!(judge(false, &Outcome::NotInstalled), Verdict::Skipped));
    assert!(matches!(judge(true, &Outcome::NotInstalled), Verdict::Failed));
    assert!(matches!(judge(false, &Outcome::Unsuccessful), Verdict::Failed));
    assert!(matches!(judge(true, &Outcome::LaunchFailed), Verdict::Failed));
}

fn run_with(outcomes: Vec<Outcome>) -> UpdateRun {
    let mut run = UpdateRun::new();
    for o in outcomes {
        assert!(run.next_command().is_some());
        run.record(o);
    }
    run
}

#[test]
fn all_succeed() {
    let run = run_with(vec![
        Outcome::Succeeded,
        Outcome::Succeeded,
        Outcome::Succeeded,
        Outcome::Succeeded,
    ]);
    assert!(run.next_command().is_none());
    assert!(run.succeeded());
    assert!(run.failures().is_empty());
}

#[test]
fn missing_snap_is_skipped() {
    let run = run_with(vec![
        Outcome::NotInstalled,
        Outcome::Succeeded,
        Outcome::Succeeded,
        Outcome::Succeeded,
    ]);
    assert!(run.succeeded());
}

#[test]
fn missing_apt_fails_every_apt_command() {
    let run = run_with(vec![
        Outcome::Succeeded,
        Outcome::NotInstalled,
        Outcome::NotInstalled,
        Outcome::NotInstalled,
    ]);
    assert!(!run.succeeded());
    assert_eq!(
        run.failures(),
        &vec![
            "apt update".to_string(),
            "apt upgrade -y".to_string(),
            "apt autoremove -y".to_string()
        ]
    );
}

#[test]
fn failures_are_kept_in_order() {
    let mut run = UpdateRun::new();
    assert_eq!(run.next_command().unwrap().command_line(), "snap refresh");
    assert!(matches!(run.record(Outcome::Unsuccessful), Verdict::Failed));
    assert_eq!(run.next_command().unwrap().command_line(), "apt update");
    assert!(matches!(run.record(Outcome::Succeeded), Verdict::Passed));
    assert!(matches!(run.record(Outcome::LaunchFailed), Verdict::Failed));
    assert!(!run.succeeded());
    assert_eq!(run.next_command().unwrap().command_line(), "apt autoremove -y");
    run.record(Outcome::Succeeded);
    assert!(run.next_command().is_none());
    assert_eq!(
        run.failures(),
        &vec!["snap refresh".to_string(), "apt upgrade -y".to_string()]
    );
}

#[test]
fn fresh_run_has_no_failures() {
    let run = UpdateRun::new();
    assert!(run.succeeded());
    assert_eq!(run.next_command().unwrap().program, "snap");
}
