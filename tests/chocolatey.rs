use pacaptr::chocolatey::Chocolatey;
use pacaptr::exec::{Cmd, Mode};

fn argv(plan: &[Cmd]) -> Vec<Vec<String>> {
    plan.iter().map(|c| c.argv()).collect()
}

fn line(words: &[&str]) -> Vec<String> {
    words.iter().map(|w| w.to_string()).collect()
}

const PLAIN: Chocolatey = Chocolatey { dry_run: false, no_confirm: false };
const YES: Chocolatey = Chocolatey { dry_run: false, no_confirm: true };

#[test]
fn name_is_choco() {
    assert_eq!(PLAIN.name(), "choco");
}

#[test]
fn q_lists_local_packages() {
    let p = PLAIN.q(&["foo"], &["-v"]);
    assert_eq!(argv(&p), vec![line(&["choco", "list", "--localonly", "foo", "-v"])]);
    assert_eq!(p[0].mode, Mode::CheckErr);
}

#[test]
fn q_ignores_no_confirm() {
    let p = YES.q(&[], &[]);
    assert_eq!(argv(&p), vec![line(&["choco", "list", "--localonly"])]);
}

#[test]
fn qu_lists_outdated() {
    assert_eq!(argv(&YES.qu(&[], &[])), vec![line(&["choco", "outdated"])]);
}

#[test]
fn ss_searches() {
    assert_eq!(argv(&YES.ss(&["git"], &[])), vec![line(&["choco", "search", "git"])]);
}

#[test]
fn qi_composes_as_si() {
    let qi = argv(&PLAIN.qi(&["foo"], &[]));
    let si = argv(&PLAIN.si(&["foo"], &[]));
    assert_eq!(qi, si);
    assert_eq!(qi, vec![line(&["choco", "info", "foo"])]);
}

#[test]
fn su_without_keywords_upgrades_all() {
    assert_eq!(argv(&PLAIN.su(&[], &[])), vec![line(&["choco", "upgrade", "all"])]);
}

#[test]
fn su_with_keywords_upgrades_them() {
    assert_eq!(argv(&PLAIN.su(&["a", "b"], &[])), vec![line(&["choco", "upgrade", "a", "b"])]);
}

#[test]
fn su_no_confirm_puts_yes_before_all() {
    assert_eq!(argv(&YES.su(&[], &["-x"])), vec![line(&["choco", "upgrade", "--yes", "all", "-x"])]);
}

#[test]
fn suy_equals_su() {
    for c in [PLAIN, YES] {
        assert_eq!(argv(&c.suy(&[], &[])), argv(&c.su(&[], &[])));
        assert_eq!(argv(&c.suy(&["a"], &["-f"])), argv(&c.su(&["a"], &["-f"])));
    }
    assert_eq!(YES.suy(&[], &[]).len(), 1);
}

#[test]
fn no_confirm_adds_yes_once_before_keywords() {
    type Op = fn(&Chocolatey, &[&str], &[&str]) -> Vec<Cmd>;
    let ops: [(Op, &[&str]); 5] = [
        (Chocolatey::s, &["install"]),
        (Chocolatey::r, &["uninstall"]),
        (Chocolatey::rs, &["uninstall", "--removedependencies"]),
        (Chocolatey::su, &["upgrade"]),
        (Chocolatey::suy, &["upgrade"]),
    ];
    for (op, base) in ops {
        let got = argv(&op(&YES, &["pkg"], &["--f"]));
        let mut want = line(&["choco"]);
        want.extend(line(base));
        want.extend(line(&["--yes", "pkg", "--f"]));
        assert_eq!(got, vec![want.clone()]);
        assert_eq!(got[0].iter().filter(|t| *t == "--yes").count(), 1);
        let plain = argv(&op(&PLAIN, &["pkg"], &["--f"]));
        assert!(!plain[0].iter().any(|t| t == "--yes"));
    }
}

#[test]
fn install_keeps_keyword_and_flag_order() {
    let p = PLAIN.s(&["a", "b"], &["--x"]);
    assert_eq!(argv(&p), vec![line(&["choco", "install", "a", "b", "--x"])]);
}

#[test]
fn remove_with_dependencies() {
    let p = PLAIN.rs(&["b", "a"], &["--y", "--x"]);
    assert_eq!(argv(&p), vec![line(&["choco", "uninstall", "--removedependencies", "b", "a", "--y", "--x"])]);
}

#[test]
fn dry_run_shows_only() {
    let c = Chocolatey { dry_run: true, no_confirm: true };
    let p = c.s(&["a"], &[]);
    assert_eq!(p[0].mode, Mode::DryRun);
    assert_eq!(argv(&p), vec![line(&["choco", "install", "--yes", "a"])]);
}

#[test]
fn just_run_and_parts() {
    let c = PLAIN.just_run("choco", &["x"], &["k"], &["f"]);
    assert_eq!(c.cmd, "choco");
    assert_eq!(c.subcmd, line(&["x"]));
    assert_eq!(c.kws, line(&["k"]));
    assert_eq!(c.flags, line(&["f"]));
}
