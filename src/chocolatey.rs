use vstd::prelude::*;

use crate::dispatch::Operation;
use crate::exec::{plan_view, to_owned_all, Cmd, CmdView, Mode};

verus! {

/// The Chocolatey package manager of Windows.
pub struct Chocolatey {
    pub dry_run: bool,
    pub no_confirm: bool,
}

/// The subcommand tokens of an operation, before any confirmation token.
pub open spec fn base_tokens(op: Operation) -> Seq<Seq<char>> {
    match op {
        Operation::Q => seq!["list"@, "--localonly"@],
        Operation::Qi => seq!["info"@],
        Operation::Qu => seq!["outdated"@],
        Operation::R => seq!["uninstall"@],
        Operation::Rs => seq!["uninstall"@, "--removedependencies"@],
        Operation::S => seq!["install"@],
        Operation::Si => seq!["info"@],
        Operation::Ss => seq!["search"@],
        Operation::Su => seq!["upgrade"@],
        Operation::Suy => seq!["upgrade"@],
    }
}

/// The operations for which `choco` asks for confirmation.
pub open spec fn asks_confirm(op: Operation) -> bool {
    match op {
        Operation::R | Operation::Rs | Operation::S | Operation::Su | Operation::Suy => true,
        _ => false,
    }
}

/// The keywords an operation hands to `choco`: upgrading with no keyword
/// upgrades `all`.
pub open spec fn keywords_of(op: Operation, kws: Seq<Seq<char>>) -> Seq<Seq<char>> {
    if (op == Operation::Su || op == Operation::Suy) && kws.len() == 0 {
        seq!["all"@]
    } else {
        kws
    }
}

impl Chocolatey {
    /// Show-only under dry run, fail-fast otherwise.
    pub open spec fn mode_of(self) -> Mode {
        if self.dry_run { Mode::DryRun } else { Mode::CheckErr }
    }

    /// The given subcommand tokens, with `--yes` appended under no-confirm.
    pub open spec fn confirmed(self, subcmd: Seq<Seq<char>>) -> Seq<Seq<char>> {
        if self.no_confirm { subcmd.push("--yes"@) } else { subcmd }
    }

    /// The subcommand tokens of an operation.
    pub open spec fn tokens_of(self, op: Operation) -> Seq<Seq<char>> {
        if asks_confirm(op) { self.confirmed(base_tokens(op)) } else { base_tokens(op) }
    }

    /// The command an operation composes.
    pub open spec fn cmd_of(self, op: Operation, kws: Seq<Seq<char>>, flags: Seq<Seq<char>>) -> CmdView {
        CmdView {
            cmd: "choco"@,
            subcmd: self.tokens_of(op),
            kws: keywords_of(op, kws),
            flags,
            mode: self.mode_of(),
        }
    }

    /// The plan of an operation: a single command.
    pub open spec fn plan_of(self, op: Operation, kws: Seq<Seq<char>>, flags: Seq<Seq<char>>) -> Seq<CmdView> {
        seq![self.cmd_of(op, kws, flags)]
    }

    /// Composes a command that asks for confirmation, adding `--yes` to its
    /// subcommand tokens under no-confirm.
    pub fn check_no_confirm(&self, cmd: &str, subcmd: &[&str], kws: &[&str], flags: &[&str]) -> (r: Cmd)
        ensures
            r@ == (CmdView {
                cmd: cmd@,
                subcmd: self.confirmed(subcmd.deep_view()),
                kws: kws.deep_view(),
                flags: flags.deep_view(),
                mode: self.mode_of(),
            }),
    {
        let mut r = self.just_run(cmd, subcmd, kws, flags);
        if self.no_confirm {
            r.subcmd.push("--yes".to_owned());
        }
        assert(r@.subcmd =~= self.confirmed(subcmd.deep_view()));
        r
    }

    /// The canonical short name of the package manager.
    pub fn name(&self) -> (r: String)
        ensures
            r@ == "choco"@,
    {
        "choco".to_owned()
    }

    /// Composes a command as given, in the mode that dry run calls for.
    pub fn just_run(&self, cmd: &str, subcmd: &[&str], kws: &[&str], flags: &[&str]) -> (r: Cmd)
        ensures
            r@ == (CmdView {
                cmd: cmd@,
                subcmd: subcmd.deep_view(),
                kws: kws.deep_view(),
                flags: flags.deep_view(),
                mode: self.mode_of(),
            }),
    {
        let mode = if self.dry_run { Mode::DryRun } else { Mode::CheckErr };
        Cmd {
            cmd: cmd.to_owned(),
            subcmd: to_owned_all(subcmd),
            kws: to_owned_all(kws),
            flags: to_owned_all(flags),
            mode,
        }
    }

    /// Q lists the installed packages.
    pub fn q(&self, kws: &[&str], flags: &[&str]) -> (r: Vec<Cmd>)
        ensures
            plan_view(r@) == self.plan_of(Operation::Q, kws.deep_view(), flags.deep_view()),
    {
        let c = self.just_run("choco", &["list", "--localonly"], kws, flags);
        assert(c@.subcmd =~= base_tokens(Operation::Q));
        let r = vec![c];
        assert(plan_view(r@) =~= self.plan_of(Operation::Q, kws.deep_view(), flags.deep_view()));
        r
    }

    /// Qi shows information on installed packages, as Si does.
    pub fn qi(&self, kws: &[&str], flags: &[&str]) -> (r: Vec<Cmd>)
        ensures
            plan_view(r@) == self.plan_of(Operation::Qi, kws.deep_view(), flags.deep_view()),
    {
        self.si(kws, flags)
    }

    /// Qu lists the packages that have an update.
    pub fn qu(&self, kws: &[&str], flags: &[&str]) -> (r: Vec<Cmd>)
        ensures
            plan_view(r@) == self.plan_of(Operation::Qu, kws.deep_view(), flags.deep_view()),
    {
        let c = self.just_run("choco", &["outdated"], kws, flags);
        assert(c@.subcmd =~= self.tokens_of(Operation::Qu));
        let r = vec![c];
        assert(plan_view(r@) =~= self.plan_of(Operation::Qu, kws.deep_view(), flags.deep_view()));
        r
    }

    /// R removes packages and leaves their dependencies installed.
    pub fn r(&self, kws: &[&str], flags: &[&str]) -> (r: Vec<Cmd>)
        ensures
            plan_view(r@) == self.plan_of(Operation::R, kws.deep_view(), flags.deep_view()),
    {
        let c = self.check_no_confirm("choco", &["uninstall"], kws, flags);
        assert(c@.subcmd =~= self.tokens_of(Operation::R));
        let r = vec![c];
        assert(plan_view(r@) =~= self.plan_of(Operation::R, kws.deep_view(), flags.deep_view()));
        r
    }

    /// Rs removes packages with the dependencies that nothing else needs.
    pub fn rs(&self, kws: &[&str], flags: &[&str]) -> (r: Vec<Cmd>)
        ensures
            plan_view(r@) == self.plan_of(Operation::Rs, kws.deep_view(), flags.deep_view()),
    {
        let c = self.check_no_confirm("choco", &["uninstall", "--removedependencies"], kws, flags);
        assert(c@.subcmd =~= self.tokens_of(Operation::Rs));
        let r = vec![c];
        assert(plan_view(r@) =~= self.plan_of(Operation::Rs, kws.deep_view(), flags.deep_view()));
        r
    }

    /// S installs packages by name.
    pub fn s(&self, kws: &[&str], flags: &[&str]) -> (r: Vec<Cmd>)
        ensures
            plan_view(r@) == self.plan_of(Operation::S, kws.deep_view(), flags.deep_view()),
    {
        let c = self.check_no_confirm("choco", &["install"], kws, flags);
        assert(c@.subcmd =~= self.tokens_of(Operation::S));
        let r = vec![c];
        assert(plan_view(r@) =~= self.plan_of(Operation::S, kws.deep_view(), flags.deep_view()));
        r
    }

    /// Si shows information on packages of the repositories.
    pub fn si(&self, kws: &[&str], flags: &[&str]) -> (r: Vec<Cmd>)
        ensures
            plan_view(r@) == self.plan_of(Operation::Si, kws.deep_view(), flags.deep_view()),
    {
        let c = self.just_run("choco", &["info"], kws, flags);
        assert(c@.subcmd =~= self.tokens_of(Operation::Si));
        let r = vec![c];
        assert(plan_view(r@) =~= self.plan_of(Operation::Si, kws.deep_view(), flags.deep_view()));
        r
    }

    /// Ss searches the repositories.
    pub fn ss(&self, kws: &[&str], flags: &[&str]) -> (r: Vec<Cmd>)
        ensures
            plan_view(r@) == self.plan_of(Operation::Ss, kws.deep_view(), flags.deep_view()),
    {
        let c = self.just_run("choco", &["search"], kws, flags);
        assert(c@.subcmd =~= self.tokens_of(Operation::Ss));
        let r = vec![c];
        assert(plan_view(r@) =~= self.plan_of(Operation::Ss, kws.deep_view(), flags.deep_view()));
        r
    }

    /// Su upgrades the given packages, or all of them when none is given.
    pub fn su(&self, kws: &[&str], flags: &[&str]) -> (r: Vec<Cmd>)
        ensures
            plan_view(r@) == self.plan_of(Operation::Su, kws.deep_view(), flags.deep_view()),
    {
        let c = if kws.len() == 0 {
            self.check_no_confirm("choco", &["upgrade"], &["all"], flags)
        } else {
            self.check_no_confirm("choco", &["upgrade"], kws, flags)
        };
        proof {
            assert(c@.subcmd =~= self.tokens_of(Operation::Su));
            assert(c@.kws =~= keywords_of(Operation::Su, kws.deep_view()));
        }
        let r = vec![c];
        assert(plan_view(r@) =~= self.plan_of(Operation::Su, kws.deep_view(), flags.deep_view()));
        r
    }

    /// Suy refreshes the package database, then upgrades. `choco` has no
    /// refresh of its own, so this is Su.
    pub fn suy(&self, kws: &[&str], flags: &[&str]) -> (r: Vec<Cmd>)
        ensures
            plan_view(r@) == self.plan_of(Operation::Suy, kws.deep_view(), flags.deep_view()),
    {
        self.su(kws, flags)
    }
}

/// Upgrading with no keyword hands `choco` the single keyword `all`; without
/// no-confirm and flags the command line is `choco upgrade all`.
pub proof fn lemma_upgrade_all(c: Chocolatey, flags: Seq<Seq<char>>)
    ensures
        c.cmd_of(Operation::Su, seq![], flags).kws == seq!["all"@],
        c.cmd_of(Operation::Su, seq![], flags).argv().len() > 2,
        !c.no_confirm ==> c.cmd_of(Operation::Su, seq![], flags).argv()
            == seq!["choco"@, "upgrade"@, "all"@] + flags,
{
    let a = c.cmd_of(Operation::Su, seq![], flags).argv();
    if !c.no_confirm {
        assert(a =~= seq!["choco"@, "upgrade"@, "all"@] + flags);
    }
}

/// Suy composes exactly what Su composes, as `choco` has no refresh step.
pub proof fn lemma_suy_is_su(c: Chocolatey, kws: Seq<Seq<char>>, flags: Seq<Seq<char>>)
    ensures
        c.plan_of(Operation::Suy, kws, flags) == c.plan_of(Operation::Su, kws, flags),
{
}

/// Qi and Si compose the same plan, as `choco` has one info command.
pub proof fn lemma_qi_is_si(c: Chocolatey, kws: Seq<Seq<char>>, flags: Seq<Seq<char>>)
    ensures
        c.plan_of(Operation::Qi, kws, flags) == c.plan_of(Operation::Si, kws, flags),
{
}

/// Under no-confirm every operation that asks for confirmation carries
/// `--yes` exactly once, right after its own tokens and before the keywords;
/// without no-confirm it carries none.
pub proof fn lemma_no_confirm_token(c: Chocolatey, op: Operation, kws: Seq<Seq<char>>, flags: Seq<Seq<char>>)
    ensures
        !base_tokens(op).contains("--yes"@),
        c.no_confirm && asks_confirm(op) ==> c.tokens_of(op) == base_tokens(op).push("--yes"@),
        c.no_confirm && asks_confirm(op) ==> c.cmd_of(op, kws, flags).argv()
            == seq!["choco"@] + base_tokens(op) + seq!["--yes"@] + keywords_of(op, kws) + flags,
        !c.no_confirm ==> !c.tokens_of(op).contains("--yes"@),
{
    reveal_strlit("--yes");
    reveal_strlit("list");
    reveal_strlit("--localonly");
    reveal_strlit("info");
    reveal_strlit("outdated");
    reveal_strlit("uninstall");
    reveal_strlit("--removedependencies");
    reveal_strlit("install");
    reveal_strlit("search");
    reveal_strlit("upgrade");
    let b = base_tokens(op);
    assert forall|i: int| 0 <= i < b.len() implies b[i] != "--yes"@ by {
        assert(b[i].len() != 5 || b[i][2] != "--yes"@[2]);
    }
    if c.no_confirm && asks_confirm(op) {
        assert(c.cmd_of(op, kws, flags).argv()
            =~= seq!["choco"@] + base_tokens(op) + seq!["--yes"@] + keywords_of(op, kws) + flags);
    }
}

/// Keywords and flags reach the command line as given: the keywords follow
/// the subcommand tokens in their order, and the flags close the line in
/// theirs.
pub proof fn lemma_order_kept(c: Chocolatey, op: Operation, kws: Seq<Seq<char>>, flags: Seq<Seq<char>>)
    requires
        kws.len() > 0,
    ensures
        ({
            let a = c.cmd_of(op, kws, flags).argv();
            let k = 1 + c.tokens_of(op).len() as int;
            &&& a.len() == k + kws.len() + flags.len()
            &&& a.subrange(k, k + kws.len()) == kws
            &&& a.subrange(k + kws.len(), a.len() as int) == flags
        }),
{
    let a = c.cmd_of(op, kws, flags).argv();
    let k = 1 + c.tokens_of(op).len() as int;
    assert(a.subrange(k, k + kws.len()) =~= kws);
    assert(a.subrange(k + kws.len(), a.len() as int) =~= flags);
}

} // verus!
