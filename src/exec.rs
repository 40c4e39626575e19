use vstd::prelude::*;

use crate::error::ExecError;

verus! {

/// How a composed command is run.
#[derive(Clone, Copy, Debug, PartialEq, Eq, Structural)]
pub enum Mode {
    /// Print the command line and spawn nothing.
    DryRun,
    /// Spawn the command; a failure halts the whole operation.
    CheckErr,
    /// Spawn the command; a failure is recorded and the operation goes on.
    PrintErr,
    /// Spawn the command with its output discarded; a failure halts the
    /// operation.
    Mute,
}

/// One command line in parts: program, fixed subcommand tokens, user
/// keywords and passthrough flags, with the mode it runs in.
pub struct Cmd {
    pub cmd: String,
    pub subcmd: Vec<String>,
    pub kws: Vec<String>,
    pub flags: Vec<String>,
    pub mode: Mode,
}

/// What a `Cmd` stands for.
pub struct CmdView {
    pub cmd: Seq<char>,
    pub subcmd: Seq<Seq<char>>,
    pub kws: Seq<Seq<char>>,
    pub flags: Seq<Seq<char>>,
    pub mode: Mode,
}

impl CmdView {
    /// The argument vector: program, then subcommand tokens, then keywords,
    /// then flags.
    pub open spec fn argv(self) -> Seq<Seq<char>> {
        seq![self.cmd] + self.subcmd + self.kws + self.flags
    }
}

impl View for Cmd {
    type V = CmdView;

    open spec fn view(&self) -> CmdView {
        CmdView {
            cmd: self.cmd@,
            subcmd: self.subcmd.deep_view(),
            kws: self.kws.deep_view(),
            flags: self.flags.deep_view(),
            mode: self.mode,
        }
    }
}

/// The views of the commands of a plan.
pub open spec fn plan_view(p: Seq<Cmd>) -> Seq<CmdView> {
    p.map_values(|c: Cmd| c@)
}

/// Appends copies of the strings of `src` to `dst`.
fn append_all(dst: &mut Vec<String>, src: &Vec<String>)
    ensures
        final(dst).deep_view() == old(dst).deep_view() + src.deep_view(),
{
    let ghost start = dst.deep_view();
    let mut i: usize = 0;
    while i < src.len()
        invariant
            i <= src.len(),
            dst.deep_view() == start + src.deep_view().subrange(0, i as int),
        decreases src.len() - i,
    {
        let ghost before = dst.deep_view();
        let s = src[i].clone();
        dst.push(s);
        assert(dst.deep_view() =~= before.push(src.deep_view()[i as int]));
        i = i + 1;
        assert(dst.deep_view() =~= start + src.deep_view().subrange(0, i as int));
    }
    assert(src.deep_view().subrange(0, i as int) =~= src.deep_view());
}

/// Owned copies of the given strings, in order.
pub fn to_owned_all(v: &[&str]) -> (r: Vec<String>)
    ensures
        r.deep_view() == v.deep_view(),
{
    let mut r: Vec<String> = Vec::new();
    let mut i: usize = 0;
    while i < v.len()
        invariant
            i <= v.len(),
            r.deep_view() == v.deep_view().subrange(0, i as int),
        decreases v.len() - i,
    {
        let ghost before = r.deep_view();
        let s = v[i].to_owned();
        r.push(s);
        assert(r.deep_view() =~= before.push(v.deep_view()[i as int]));
        i = i + 1;
        assert(r.deep_view() =~= v.deep_view().subrange(0, i as int));
    }
    assert(v.deep_view().subrange(0, i as int) =~= v.deep_view());
    r
}

impl Cmd {
    /// Assembles the argument vector of the command.
    pub fn argv(&self) -> (r: Vec<String>)
        ensures
            r.deep_view() == self@.argv(),
    {
        let mut r: Vec<String> = Vec::new();
        r.push(self.cmd.clone());
        assert(r.deep_view() =~= seq![self.cmd@]);
        append_all(&mut r, &self.subcmd);
        append_all(&mut r, &self.kws);
        append_all(&mut r, &self.flags);
        r
    }
}

/// What the caller reports after carrying out an action.
#[derive(Clone, Copy, Debug, PartialEq, Eq, Structural)]
pub enum Event {
    /// The command line was printed.
    Shown,
    /// The process ran and exited with this status.
    Exited(i32),
    /// The process could not be started.
    SpawnFailed,
}

/// What the caller has to do next.
pub enum Action {
    /// Print this argument vector; spawn nothing.
    Print(Vec<String>),
    /// Spawn this argument vector; discard its output when the flag is set.
    Spawn(Vec<String>, bool),
    /// The run is over, with this outcome.
    Finish(Result<(), ExecError>),
}

/// The failure that an event means for a command run in the given mode.
/// Under `DryRun` nothing can fail.
pub open spec fn failure_of(mode: Mode, ev: Event) -> Option<ExecError> {
    if mode == Mode::DryRun {
        None
    } else {
        match ev {
            Event::Shown => None,
            Event::Exited(c) => if c == 0 { None } else { Some(ExecError::Failed(c)) },
            Event::SpawnFailed => Some(ExecError::NotStarted),
        }
    }
}

/// The progress of a plan of commands run one after another.
pub struct Run {
    pub plan: Vec<Cmd>,
    /// Index of the next command to run.
    pub next: usize,
    /// The failure the run ends with, if any so far.
    pub failure: Option<ExecError>,
    /// Set once a failure has stopped the run.
    pub halted: bool,
}

/// What a `Run` stands for.
pub struct RunView {
    pub plan: Seq<CmdView>,
    pub next: nat,
    pub failure: Option<ExecError>,
    pub halted: bool,
}

impl View for Run {
    type V = RunView;

    open spec fn view(&self) -> RunView {
        RunView {
            plan: plan_view(self.plan@),
            next: self.next as nat,
            failure: self.failure,
            halted: self.halted,
        }
    }
}

impl RunView {
    /// The run that has not yet started the given plan.
    pub open spec fn start(plan: Seq<CmdView>) -> RunView {
        RunView { plan, next: 0, failure: None, halted: false }
    }

    pub open spec fn wf(self) -> bool {
        self.next <= self.plan.len()
    }

    /// No command is left to run.
    pub open spec fn finished(self) -> bool {
        self.halted || self.next >= self.plan.len()
    }

    /// The command that runs next.
    pub open spec fn current(self) -> CmdView {
        self.plan[self.next as int]
    }

    /// The next action spawns a process.
    pub open spec fn spawns(self) -> bool {
        !self.finished() && self.current().mode != Mode::DryRun
    }

    /// The outcome of the run, once it is finished.
    pub open spec fn outcome(self) -> Result<(), ExecError> {
        match self.failure {
            None => Ok(()),
            Some(e) => Err(e),
        }
    }

    /// The run after the current command has had the given event.
    /// A success moves on; a failure under `PrintErr` is recorded (the first
    /// one is kept) and the run moves on; any other failure stops the run.
    pub open spec fn after(self, ev: Event) -> RunView {
        match failure_of(self.current().mode, ev) {
            None => RunView { next: self.next + 1, ..self },
            Some(e) => if self.current().mode == Mode::PrintErr {
                RunView {
                    next: self.next + 1,
                    failure: if self.failure is Some { self.failure } else { Some(e) },
                    ..self
                }
            } else {
                RunView { failure: Some(e), halted: true, ..self }
            },
        }
    }

    /// The run after a sequence of events, each handed to the run while it
    /// is not finished; events that come after the end are ignored.
    pub open spec fn after_all(self, evs: Seq<Event>) -> RunView
        decreases evs.len(),
    {
        if evs.len() == 0 || self.finished() {
            self
        } else {
            self.after(evs[0]).after_all(evs.drop_first())
        }
    }
}

impl Run {
    /// A run that has not yet started the plan.
    pub fn new(plan: Vec<Cmd>) -> (r: Run)
        ensures
            r@ == RunView::start(plan_view(plan@)),
    {
        Run { plan, next: 0, failure: None, halted: false }
    }

    /// Whether no command is left to run.
    pub fn is_finished(&self) -> (r: bool)
        requires
            self@.wf(),
        ensures
            r == self@.finished(),
    {
        self.halted || self.next >= self.plan.len()
    }

    /// What the caller has to do next: print or spawn the current command,
    /// or finish with the run's outcome.
    pub fn next_action(&self) -> (r: Action)
        requires
            self@.wf(),
        ensures
            self@.finished() ==> r == Action::Finish(self@.outcome()),
            !self@.finished() && self@.current().mode == Mode::DryRun ==> match r {
                Action::Print(argv) => argv.deep_view() == self@.current().argv(),
                _ => false,
            },
            !self@.finished() && self@.current().mode != Mode::DryRun ==> match r {
                Action::Spawn(argv, mute) => argv.deep_view() == self@.current().argv()
                    && mute == (self@.current().mode == Mode::Mute),
                _ => false,
            },
    {
        if self.is_finished() {
            match self.failure {
                None => Action::Finish(Ok(())),
                Some(e) => Action::Finish(Err(e)),
            }
        } else {
            let c = &self.plan[self.next];
            let argv = c.argv();
            match c.mode {
                Mode::DryRun => Action::Print(argv),
                Mode::Mute => Action::Spawn(argv, true),
                _ => Action::Spawn(argv, false),
            }
        }
    }

    /// Takes in what happened to the current command.
    pub fn on_event(&mut self, ev: Event)
        requires
            old(self)@.wf(),
            !old(self)@.finished(),
        ensures
            final(self)@ == old(self)@.after(ev),
            final(self)@.wf(),
    {
        let len = self.plan.len();
        assert(self.next < len);
        let mode = self.plan[self.next].mode;
        let failure = if mode == Mode::DryRun {
            None
        } else {
            match ev {
                Event::Shown => None,
                Event::Exited(c) => if c == 0 { None } else { Some(ExecError::Failed(c)) },
                Event::SpawnFailed => Some(ExecError::NotStarted),
            }
        };
        match failure {
            None => {
                self.next = self.next + 1;
            },
            Some(e) => {
                if mode == Mode::PrintErr {
                    if self.failure.is_none() {
                        self.failure = Some(e);
                    }
                    self.next = self.next + 1;
                } else {
                    self.failure = Some(e);
                    self.halted = true;
                }
            },
        }
    }
}

/// Once a run has recorded a failure it keeps one, whatever events follow:
/// its outcome is an error.
pub proof fn lemma_failure_kept(r: RunView, evs: Seq<Event>)
    requires
        r.failure is Some,
    ensures
        r.after_all(evs).failure is Some,
        r.after_all(evs).outcome() is Err,
    decreases evs.len(),
{
    if evs.len() > 0 && !r.finished() {
        lemma_failure_kept(r.after(evs[0]), evs.drop_first());
    }
}

/// A run whose commands are all show-only never spawns a process, whatever
/// the caller reports, and it ends in success.
pub proof fn lemma_show_only_run(r: RunView, evs: Seq<Event>)
    requires
        r.wf(),
        r.failure is None,
        forall|i: int| 0 <= i < r.plan.len() ==> (#[trigger] r.plan[i]).mode == Mode::DryRun,
    ensures
        !r.after_all(evs).spawns(),
        r.after_all(evs).outcome() == Ok::<(), ExecError>(()),
    decreases evs.len(),
{
    if evs.len() > 0 && !r.finished() {
        lemma_show_only_run(r.after(evs[0]), evs.drop_first());
    }
}

/// A command that fails under `PrintErr` does not stop the run: the next
/// command is still due, and the run ends in failure whatever follows.
pub proof fn lemma_tolerant_failure_goes_on(r: RunView, ev: Event, evs: Seq<Event>)
    requires
        r.wf(),
        !r.finished(),
        r.current().mode == Mode::PrintErr,
        failure_of(Mode::PrintErr, ev) is Some,
    ensures
        r.after(ev).next == r.next + 1,
        !r.after(ev).halted,
        r.next + 1 < r.plan.len() ==> r.after(ev).spawns() == (r.plan[r.next + 1int].mode != Mode::DryRun),
        r.after(ev).after_all(evs).outcome() is Err,
{
    lemma_failure_kept(r.after(ev), evs);
}

} // verus!
