use lib::caps::BoundingSet;
use lib::cli::{parse_mode, plan_cap_change, CapChange, Mode, Refusal};

fn mode(arg: &str) -> Mode {
    let s = arg.to_string();
    parse_mode(Some(&s))
}

#[test]
fn no_argument_runs_updates() {
    assert!(matches!(parse_mode(None), Mode::Run));
}

#[test]
fn help_and_version_flags() {
    for a in ["-h", "--help", "help"] {
        assert!(matches!(mode(a), Mode::Help), "{a}");
    }
    for a in ["-V", "--version", "version"] {
        assert!(matches!(mode(a), Mode::Version), "{a}");
    }
}

#[test]
fn setup_and_teardown_spellings() {
    for a in ["setup", "--setup"] {
        assert!(matches!(mode(a), Mode::Setup), "{a}");
    }
    for a in ["teardown", "--teardown", "remove", "--remove"] {
        assert!(matches!(mode(a), Mode::Teardown), "{a}");
    }
}

#[test]
fn unknown_argument_is_named() {
    match mode("--frobnicate") {
        Mode::Unknown(s) => assert_eq!(s, "--frobnicate"),
        _ => panic!("expected an unknown mode"),
    }
    match mode("") {
        Mode::Unknown(s) => assert_eq!(s, ""),
        _ => panic!("expected an unknown mode"),
    }
    assert!(matches!(mode("Setup"), Mode::Unknown(_)));
    assert!(matches!(mode("-help"), Mode::Unknown(_)));
}

fn full() -> BoundingSet {
    BoundingSet { present: vec![true; 41] }
}

#[test]
fn privileged_modes_need_root_first() {
    let empty = BoundingSet { present: vec![] };
    for change in [CapChange::Grant, CapChange::Revoke] {
        assert!(matches!(
            plan_cap_change(change, false, false, &empty),
            Err(Refusal::NotRoot)
        ));
    }
    assert!(matches!(
        plan_cap_change(CapChange::Grant, false, true, &full()),
        Err(Refusal::NotRoot)
    ));
}

#[test]
fn privileged_modes_need_the_executable() {
    let empty = BoundingSet { present: vec![] };
    assert!(matches!(
        plan_cap_change(CapChange::Grant, true, false, &empty),
        Err(Refusal::NoExecutable)
    ));
    assert!(matches!(
        plan_cap_change(CapChange::Revoke, true, false, &full()),
        Err(Refusal::NoExecutable)
    ));
}

#[test]
fn setup_with_nothing_available_is_refused() {
    let empty = BoundingSet { present: vec![] };
    assert!(matches!(
        plan_cap_change(CapChange::Grant, true, true, &empty),
        Err(Refusal::NothingToGrant)
    ));
}

#[test]
fn setup_grants_the_available_spec() {
    let mut b = full();
    b.present[21] = false;
    let call = plan_cap_change(CapChange::Grant, true, true, &b).ok().unwrap();
    assert!(call.argument.ends_with("+eip"));
    assert!(call.argument.starts_with("cap_chown,"));
    assert!(!call.argument.contains("cap_sys_admin"));
    assert_eq!(call.skipped, vec!["cap_sys_admin"]);
}

#[test]
fn teardown_removes_everything() {
    let empty = BoundingSet { present: vec![] };
    let call = plan_cap_change(CapChange::Revoke, true, true, &empty).ok().unwrap();
    assert_eq!(call.argument, "-r");
    assert!(call.skipped.is_empty());
}
