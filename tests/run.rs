use pacaptr::chocolatey::Chocolatey;
use pacaptr::dispatch::{select, Backend, Operation, Opt};
use pacaptr::error::{exit_code, Error, ExecError};
use pacaptr::exec::{to_owned_all, Action, Cmd, Event, Mode, Run};

fn cmd(words: &[&str], mode: Mode) -> Cmd {
    Cmd {
        cmd: words[0].to_string(),
        subcmd: to_owned_all(&words[1..]),
        kws: Vec::new(),
        flags: Vec::new(),
        mode,
    }
}

fn line(words: &[&str]) -> Vec<String> {
    words.iter().map(|w| w.to_string()).collect()
}

fn opt(op: Operation, using: Option<&str>, dry_run: bool) -> Opt {
    Opt {
        op,
        keywords: line(&["foo"]),
        flags: Vec::new(),
        dry_run,
        no_confirm: false,
        using: using.map(|s| s.to_string()),
    }
}

#[test]
fn tolerant_failure_goes_on_and_fails() {
    let mut run = Run::new(vec![cmd(&["a"], Mode::PrintErr), cmd(&["b"], Mode::PrintErr)]);
    assert!(matches!(run.next_action(), Action::Spawn(v, false) if v == line(&["a"])));
    run.on_event(Event::Exited(3));
    assert!(!run.is_finished());
    assert!(matches!(run.next_action(), Action::Spawn(v, false) if v == line(&["b"])));
    run.on_event(Event::Exited(0));
    assert!(run.is_finished());
    assert!(matches!(run.next_action(), Action::Finish(Err(ExecError::Failed(3)))));
}

#[test]
fn tolerant_keeps_first_failure() {
    let mut run = Run::new(vec![cmd(&["a"], Mode::PrintErr), cmd(&["b"], Mode::PrintErr)]);
    run.on_event(Event::SpawnFailed);
    run.on_event(Event::Exited(5));
    assert!(matches!(run.next_action(), Action::Finish(Err(ExecError::NotStarted))));
}

#[test]
fn fail_fast_halts() {
    let mut run = Run::new(vec![cmd(&["a"], Mode::CheckErr), cmd(&["b"], Mode::CheckErr)]);
    run.on_event(Event::Exited(2));
    assert!(run.is_finished());
    assert!(matches!(run.next_action(), Action::Finish(Err(ExecError::Failed(2)))));
}

#[test]
fn silent_step_is_muted_and_fails_fast() {
    let mut run = Run::new(vec![cmd(&["a", "refresh"], Mode::Mute), cmd(&["a", "up"], Mode::CheckErr)]);
    assert!(matches!(run.next_action(), Action::Spawn(v, true) if v == line(&["a", "refresh"])));
    run.on_event(Event::SpawnFailed);
    assert!(matches!(run.next_action(), Action::Finish(Err(ExecError::NotStarted))));
}

#[test]
fn successful_run_finishes_ok() {
    let mut run = Run::new(vec![cmd(&["a"], Mode::Mute), cmd(&["b"], Mode::CheckErr)]);
    run.on_event(Event::Exited(0));
    assert!(matches!(run.next_action(), Action::Spawn(v, false) if v == line(&["b"])));
    run.on_event(Event::Exited(0));
    assert!(matches!(run.next_action(), Action::Finish(Ok(()))));
}

#[test]
fn dry_run_prints_and_never_fails() {
    let mut run = opt(Operation::S, Some("choco"), true).dispatch("linux").ok().unwrap();
    assert!(matches!(run.next_action(), Action::Print(v) if v == line(&["choco", "install", "foo"])));
    run.on_event(Event::Exited(1));
    assert!(matches!(run.next_action(), Action::Finish(Ok(()))));
}

#[test]
fn empty_plan_finishes_at_once() {
    let run = Run::new(Vec::new());
    assert!(run.is_finished());
    assert!(matches!(run.next_action(), Action::Finish(Ok(()))));
}

#[test]
fn unknown_backend_is_refused() {
    let r = opt(Operation::S, Some("apt"), false).dispatch("windows");
    assert!(matches!(r, Err(Error::UnknownBackend(ref n)) if n == "apt"));
    assert_eq!(exit_code(&r.map(|_| ())), 1);
}

#[test]
fn host_platform_selects_choco() {
    let b = select(None, "windows", false, true);
    assert!(matches!(b, Ok(Backend::Chocolatey(Chocolatey { dry_run: false, no_confirm: true }))));
    assert_eq!(b.ok().unwrap().name(), "choco");
}

#[test]
fn unsupported_platform_is_refused() {
    let b = select(None, "linux", false, false);
    assert!(matches!(b, Err(Error::UnsupportedPlatform(ref os)) if os == "linux"));
}

#[test]
fn override_wins_over_platform() {
    assert!(select(Some("choco"), "linux", false, false).is_ok());
    assert!(matches!(select(Some("brew"), "windows", false, false), Err(Error::UnknownBackend(_))));
}

#[test]
fn dispatch_routes_each_operation() {
    let cases: [(Operation, &[&str]); 10] = [
        (Operation::Q, &["choco", "list", "--localonly", "foo"]),
        (Operation::Qi, &["choco", "info", "foo"]),
        (Operation::Qu, &["choco", "outdated", "foo"]),
        (Operation::R, &["choco", "uninstall", "foo"]),
        (Operation::Rs, &["choco", "uninstall", "--removedependencies", "foo"]),
        (Operation::S, &["choco", "install", "foo"]),
        (Operation::Si, &["choco", "info", "foo"]),
        (Operation::Ss, &["choco", "search", "foo"]),
        (Operation::Su, &["choco", "upgrade", "foo"]),
        (Operation::Suy, &["choco", "upgrade", "foo"]),
    ];
    for (op, want) in cases {
        let run = opt(op, None, false).dispatch("windows").ok().unwrap();
        assert!(matches!(run.next_action(), Action::Spawn(v, false) if v == line(want)));
    }
}

#[test]
fn exit_codes() {
    assert_eq!(exit_code(&Ok(())), 0);
    assert_eq!(exit_code(&Err(Error::Exec(ExecError::Failed(7)))), 7);
    assert_eq!(exit_code(&Err(Error::Exec(ExecError::NotStarted))), 1);
    assert_eq!(exit_code(&Err(Error::UnsupportedPlatform("x".to_string()))), 1);
}
