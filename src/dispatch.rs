use vstd::prelude::*;

use crate::chocolatey::Chocolatey;
use crate::error::Error;
use crate::exec::{lemma_show_only_run, plan_view, Cmd, CmdView, Event, Mode, Run, RunView};

verus! {

/// A package operation in the pacman vocabulary.
#[derive(Clone, Copy, Debug, PartialEq, Eq, Structural)]
pub enum Operation {
    /// List the installed packages.
    Q,
    /// Show information on installed packages.
    Qi,
    /// List the packages that have an update.
    Qu,
    /// Remove packages.
    R,
    /// Remove packages with the dependencies nothing else needs.
    Rs,
    /// Install packages.
    S,
    /// Show information on packages of the repositories.
    Si,
    /// Search the repositories.
    Ss,
    /// Upgrade outdated packages.
    Su,
    /// Refresh the package database, then upgrade outdated packages.
    Suy,
}

/// The package manager that composes the commands.
pub enum Backend {
    Chocolatey(Chocolatey),
}

/// The name under which the user can ask for a backend.
pub open spec fn is_known(name: Seq<char>) -> bool {
    name == "choco"@
}

/// The backend chosen for an override name, if any, and a host platform;
/// `None` when there is none.
pub open spec fn selected(using: Option<Seq<char>>, os: Seq<char>, dry_run: bool, no_confirm: bool) -> Option<Backend> {
    let found = match using {
        Some(n) => is_known(n),
        None => os == "windows"@,
    };
    if found {
        Some(Backend::Chocolatey(Chocolatey { dry_run, no_confirm }))
    } else {
        None
    }
}

/// The error that selection fails with when no backend is chosen.
pub open spec fn selection_error(e: Error, using: Option<Seq<char>>, os: Seq<char>) -> bool {
    match using {
        Some(n) => e matches Error::UnknownBackend(s) && s@ == n,
        None => e matches Error::UnsupportedPlatform(s) && s@ == os,
    }
}

impl Backend {
    /// The short name of the backend.
    pub open spec fn name_of(self) -> Seq<char> {
        match self {
            Backend::Chocolatey(_) => "choco"@,
        }
    }

    /// Whether the backend only shows its commands.
    pub open spec fn dry_run_of(self) -> bool {
        match self {
            Backend::Chocolatey(c) => c.dry_run,
        }
    }

    /// The plan the backend composes for an operation.
    pub open spec fn plan_of(self, op: Operation, kws: Seq<Seq<char>>, flags: Seq<Seq<char>>) -> Seq<CmdView> {
        match self {
            Backend::Chocolatey(c) => c.plan_of(op, kws, flags),
        }
    }

    /// The short name of the backend.
    pub fn name(&self) -> (r: String)
        ensures
            r@ == self.name_of(),
    {
        match self {
            Backend::Chocolatey(c) => c.name(),
        }
    }

    /// Routes an operation to the backend's method for it.
    pub fn plan(&self, op: Operation, kws: &[&str], flags: &[&str]) -> (r: Vec<Cmd>)
        ensures
            plan_view(r@) == self.plan_of(op, kws.deep_view(), flags.deep_view()),
    {
        match self {
            Backend::Chocolatey(c) => match op {
                Operation::Q => c.q(kws, flags),
                Operation::Qi => c.qi(kws, flags),
                Operation::Qu => c.qu(kws, flags),
                Operation::R => c.r(kws, flags),
                Operation::Rs => c.rs(kws, flags),
                Operation::S => c.s(kws, flags),
                Operation::Si => c.si(kws, flags),
                Operation::Ss => c.ss(kws, flags),
                Operation::Su => c.su(kws, flags),
                Operation::Suy => c.suy(kws, flags),
            },
        }
    }
}

/// Chooses the backend: the one the user names, if a name is given, else
/// the one of the host platform.
pub fn select(using: Option<&str>, os: &str, dry_run: bool, no_confirm: bool) -> (r: Result<Backend, Error>)
    ensures
        r is Ok <==> selected(using.deep_view(), os@, dry_run, no_confirm) is Some,
        r is Ok ==> Some(r->Ok_0) == selected(using.deep_view(), os@, dry_run, no_confirm),
        r is Err ==> selection_error(r->Err_0, using.deep_view(), os@),
{
    match using {
        Some(n) => {
            let name = n.to_owned();
            if name == "choco".to_owned() {
                Ok(Backend::Chocolatey(Chocolatey { dry_run, no_confirm }))
            } else {
                Err(Error::UnknownBackend(name))
            }
        },
        None => {
            let host = os.to_owned();
            if host == "windows".to_owned() {
                Ok(Backend::Chocolatey(Chocolatey { dry_run, no_confirm }))
            } else {
                Err(Error::UnsupportedPlatform(host))
            }
        },
    }
}

/// Borrowed views of the given strings, in order.
fn as_strs(v: &Vec<String>) -> (r: Vec<&str>)
    ensures
        r.deep_view() == v.deep_view(),
{
    let mut r: Vec<&str> = Vec::new();
    let mut i: usize = 0;
    while i < v.len()
        invariant
            i <= v.len(),
            r.deep_view() == v.deep_view().subrange(0, i as int),
        decreases v.len() - i,
    {
        let ghost before = r.deep_view();
        let s = v[i].as_str();
        r.push(s);
        assert(r.deep_view() =~= before.push(v.deep_view()[i as int]));
        i = i + 1;
        assert(r.deep_view() =~= v.deep_view().subrange(0, i as int));
    }
    assert(v.deep_view().subrange(0, i as int) =~= v.deep_view());
    r
}

/// The parsed request of the user.
pub struct Opt {
    pub op: Operation,
    pub keywords: Vec<String>,
    pub flags: Vec<String>,
    pub dry_run: bool,
    pub no_confirm: bool,
    /// The backend the user forces, if any.
    pub using: Option<String>,
}

impl Opt {
    /// The backend this request selects on the given host platform.
    pub open spec fn backend_of(self, os: Seq<char>) -> Option<Backend> {
        selected(self.using.deep_view(), os, self.dry_run, self.no_confirm)
    }

    /// Selects the backend and routes the operation to it, once. The result
    /// is the run of the plan the backend composed; when no backend is
    /// selected, the error comes before any command is composed.
    pub fn dispatch(self, os: &str) -> (r: Result<Run, Error>)
        ensures
            r is Ok <==> self.backend_of(os@) is Some,
            r is Ok ==> r->Ok_0@ == RunView::start(
                self.backend_of(os@)->Some_0.plan_of(self.op, self.keywords.deep_view(), self.flags.deep_view()),
            ),
            r is Err ==> selection_error(r->Err_0, self.using.deep_view(), os@),
    {
        let using = match &self.using {
            Some(s) => Some(s.as_str()),
            None => None,
        };
        let backend = select(using, os, self.dry_run, self.no_confirm);
        match backend {
            Ok(b) => {
                let kws = as_strs(&self.keywords);
                let flags = as_strs(&self.flags);
                let plan = b.plan(self.op, kws.as_slice(), flags.as_slice());
                Ok(Run::new(plan))
            },
            Err(e) => Err(e),
        }
    }
}

/// Under dry run, whatever the backend and the operation, no step of the
/// run spawns a process, whatever the caller reports, and the run succeeds.
pub proof fn lemma_dry_run_spawns_nothing(
    b: Backend,
    op: Operation,
    kws: Seq<Seq<char>>,
    flags: Seq<Seq<char>>,
    evs: Seq<Event>,
)
    requires
        b.dry_run_of(),
    ensures
        !RunView::start(b.plan_of(op, kws, flags)).after_all(evs).spawns(),
        RunView::start(b.plan_of(op, kws, flags)).after_all(evs).outcome() is Ok,
{
    let p = b.plan_of(op, kws, flags);
    assert forall|i: int| 0 <= i < p.len() implies (#[trigger] p[i]).mode == Mode::DryRun by {}
    lemma_show_only_run(RunView::start(p), evs);
}

/// An override name that names no backend selects none, so dispatch fails
/// before any command is composed.
pub proof fn lemma_unknown_backend_refused(name: Seq<char>, os: Seq<char>, dry_run: bool, no_confirm: bool)
    requires
        !is_known(name),
    ensures
        selected(Some(name), os, dry_run, no_confirm) is None,
{
}

} // verus!
