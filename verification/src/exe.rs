//! Finding the tool's own executable.
//!
//! Three strategies are tried in a fixed order, each only when the one
//! before it has failed, and the first success wins:
//!
//! 1. the override that the environment names;
//! 2. the path that the operating system reports for the running process;
//! 3. the first command-line argument, looked up on the search path when it
//!    is a bare name and taken as a path when it is not.
//!
//! Every strategy first locates a candidate and then resolves it to an
//! absolute path. Both halves are work for the caller: the resolver names the
//! [`Probe`] it wants carried out, and the caller reports the outcome as an
//! [`Event`]. What the resolver decides is which probe comes next, and what
//! the whole run amounts to when no probe is left.

use crate::paths::{bare_name, is_bare_name};
use vstd::prelude::*;

verus! {

/// The name of the environment variable that names the tool's executable.
pub const SCARB_ENV: &'static str = "SCARB";

/// The strategies, in the order of their precedence.
#[derive(Clone, Copy, Debug, PartialEq, Eq, Structural)]
pub enum Strategy {
    /// The override named by the environment.
    EnvOverride,
    /// The running executable, as the operating system reports it.
    CurrentExe,
    /// The first command-line argument.
    Argv0,
}

impl Strategy {
    /// The place of the strategy in the order of precedence.
    pub open spec fn rank(self) -> nat {
        match self {
            Strategy::EnvOverride => 0,
            Strategy::CurrentExe => 1,
            Strategy::Argv0 => 2,
        }
    }

    /// The strategy tried when this one has failed.
    pub open spec fn following(self) -> Option<Strategy> {
        match self {
            Strategy::EnvOverride => Some(Strategy::CurrentExe),
            Strategy::CurrentExe => Some(Strategy::Argv0),
            Strategy::Argv0 => None,
        }
    }

    /// The probe that locates this strategy's candidate.
    pub open spec fn locate(self) -> ProbeView {
        match self {
            Strategy::EnvOverride => ProbeView::ReadOverride,
            Strategy::CurrentExe => ProbeView::CurrentExe,
            Strategy::Argv0 => ProbeView::ReadArgv0,
        }
    }

    /// The probe that resolves the candidate `found` of this strategy. Only a
    /// bare first argument is looked up on the search path; every other
    /// candidate is a path already and is made canonical as it stands.
    pub open spec fn resolve(self, found: Seq<char>, search_path: Seq<char>) -> ProbeView {
        if self == Strategy::Argv0 && is_bare_name(found) {
            ProbeView::SearchPath { name: found, search_path }
        } else {
            ProbeView::Canonicalize { path: found }
        }
    }

    fn next(self) -> (next: Option<Strategy>)
        ensures
            next == self.following(),
    {
        match self {
            Strategy::EnvOverride => Some(Strategy::CurrentExe),
            Strategy::CurrentExe => Some(Strategy::Argv0),
            Strategy::Argv0 => None,
        }
    }

    fn locate_probe(self) -> (probe: Probe)
        ensures
            probe@ == self.locate(),
    {
        match self {
            Strategy::EnvOverride => Probe::ReadOverride,
            Strategy::CurrentExe => Probe::CurrentExe,
            Strategy::Argv0 => Probe::ReadArgv0,
        }
    }

    fn resolve_probe(self, found: String, search_path: &str) -> (probe: Probe)
        ensures
            probe@ == self.resolve(found@, search_path@),
    {
        match self {
            Strategy::Argv0 => {
                if bare_name(found.as_str()) {
                    Probe::SearchPath { name: found, search_path: search_path.to_owned() }
                } else {
                    Probe::Canonicalize { path: found }
                }
            },
            _ => Probe::Canonicalize { path: found },
        }
    }
}

/// Work that the resolver asks its caller to carry out.
#[derive(Debug, PartialEq, Eq)]
pub enum Probe {
    /// Read the environment variable [`SCARB_ENV`].
    ReadOverride,
    /// Ask the operating system for the path of the running executable.
    CurrentExe,
    /// Read the first command-line argument.
    ReadArgv0,
    /// Make `path` absolute and free of symbolic links.
    Canonicalize { path: String },
    /// Find the first executable called `name` in the directories of
    /// `search_path`, starting from the current directory.
    SearchPath { name: String, search_path: String },
}

/// A [`Probe`] as the contracts see it.
pub enum ProbeView {
    ReadOverride,
    CurrentExe,
    ReadArgv0,
    Canonicalize { path: Seq<char> },
    SearchPath { name: Seq<char>, search_path: Seq<char> },
}

impl ProbeView {
    /// Whether the probe locates a candidate, rather than resolving one.
    pub open spec fn locates(self) -> bool {
        self is ReadOverride || self is CurrentExe || self is ReadArgv0
    }

    /// The cause recorded when the probe had nothing to report.
    pub open spec fn missing_cause(self) -> Seq<char> {
        match self {
            ProbeView::ReadOverride => "$SCARB not set"@,
            ProbeView::CurrentExe => "path of the current executable is not available"@,
            ProbeView::ReadArgv0 => "no argv[0]"@,
            ProbeView::Canonicalize { .. } => "path does not exist"@,
            ProbeView::SearchPath { .. } => "cannot find binary path"@,
        }
    }
}

impl View for Probe {
    type V = ProbeView;

    open spec fn view(&self) -> ProbeView {
        match *self {
            Probe::ReadOverride => ProbeView::ReadOverride,
            Probe::CurrentExe => ProbeView::CurrentExe,
            Probe::ReadArgv0 => ProbeView::ReadArgv0,
            Probe::Canonicalize { path } => ProbeView::Canonicalize { path: path@ },
            Probe::SearchPath { name, search_path } => ProbeView::SearchPath {
                name: name@,
                search_path: search_path@,
            },
        }
    }
}

impl Probe {
    fn duplicate(&self) -> (copy: Probe)
        ensures
            copy@ == self@,
    {
        match self {
            Probe::ReadOverride => Probe::ReadOverride,
            Probe::CurrentExe => Probe::CurrentExe,
            Probe::ReadArgv0 => Probe::ReadArgv0,
            Probe::Canonicalize { path } => Probe::Canonicalize { path: path.clone() },
            Probe::SearchPath { name, search_path } => Probe::SearchPath {
                name: name.clone(),
                search_path: search_path.clone(),
            },
        }
    }

    fn missing_label(&self) -> (label: String)
        ensures
            label@ == self@.missing_cause(),
    {
        match self {
            Probe::ReadOverride => "$SCARB not set".to_owned(),
            Probe::CurrentExe => "path of the current executable is not available".to_owned(),
            Probe::ReadArgv0 => "no argv[0]".to_owned(),
            Probe::Canonicalize { .. } => "path does not exist".to_owned(),
            Probe::SearchPath { .. } => "cannot find binary path".to_owned(),
        }
    }

    fn is_locating(&self) -> (locating: bool)
        ensures
            locating == self@.locates(),
    {
        match self {
            Probe::ReadOverride => true,
            Probe::CurrentExe => true,
            Probe::ReadArgv0 => true,
            Probe::Canonicalize { .. } => false,
            Probe::SearchPath { .. } => false,
        }
    }
}

/// What the caller tells the resolver.
#[derive(Debug, PartialEq, Eq)]
pub enum Event {
    /// Somebody wants the path to the executable.
    Query,
    /// The probe that was asked for produced this text.
    Found(String),
    /// The probe that was asked for had nothing to report: the variable is
    /// not set, there is no such argument, no such file.
    Missing,
    /// The probe that was asked for failed, for the cause given.
    Failed(String),
}

/// An [`Event`] as the contracts see it.
pub enum EventView {
    Query,
    Found(Seq<char>),
    Missing,
    Failed(Seq<char>),
}

impl View for Event {
    type V = EventView;

    open spec fn view(&self) -> EventView {
        match *self {
            Event::Query => EventView::Query,
            Event::Found(text) => EventView::Found(text@),
            Event::Missing => EventView::Missing,
            Event::Failed(cause) => EventView::Failed(cause@),
        }
    }
}

/// A strategy that failed, with the cause of its failure.
#[derive(Debug, PartialEq, Eq)]
pub struct Attempt {
    pub strategy: Strategy,
    pub cause: String,
}

/// An [`Attempt`] as the contracts see it.
pub struct AttemptView {
    pub strategy: Strategy,
    pub cause: Seq<char>,
}

impl View for Attempt {
    type V = AttemptView;

    open spec fn view(&self) -> AttemptView {
        AttemptView { strategy: self.strategy, cause: self.cause@ }
    }
}

/// The views of a run of attempts.
pub open spec fn attempts_view(attempts: Seq<Attempt>) -> Seq<AttemptView> {
    attempts.map_values(|a: Attempt| a@)
}

/// The first `failed.len()` strategies, in their order, and nothing else.
pub open spec fn in_order(failed: Seq<AttemptView>) -> bool {
    forall|i: int| 0 <= i < failed.len() ==> (#[trigger] failed[i]).strategy.rank() == i
}

/// One failure for each of the three strategies, in their order.
pub open spec fn all_failed(failed: Seq<AttemptView>) -> bool {
    &&& failed.len() == 3
    &&& failed[0].strategy == Strategy::EnvOverride
    &&& failed[1].strategy == Strategy::CurrentExe
    &&& failed[2].strategy == Strategy::Argv0
}

/// No strategy found the executable.
#[derive(Debug, PartialEq, Eq)]
pub struct ExeError {
    /// Why each strategy failed, in the order in which they were tried.
    pub attempts: Vec<Attempt>,
}

impl View for ExeError {
    type V = Seq<AttemptView>;

    open spec fn view(&self) -> Seq<AttemptView> {
        attempts_view(self.attempts@)
    }
}

impl ExeError {
    /// What went wrong, in one line. The causes are in `attempts`.
    pub fn message(&self) -> (message: String)
        ensures
            message@ == "could not get the path to the executable"@,
    {
        "could not get the path to the executable".to_owned()
    }
}

/// What the resolver answers.
#[derive(Debug, PartialEq, Eq)]
pub enum ExeStep {
    /// Carry out this probe and report its outcome.
    Ask(Probe),
    /// The resolution is over: the path, or the failures of all strategies.
    Done(Result<String, ExeError>),
}

/// An [`ExeStep`] as the contracts see it.
pub enum StepView {
    Ask(ProbeView),
    Done(Result<Seq<char>, Seq<AttemptView>>),
}

impl View for ExeStep {
    type V = StepView;

    open spec fn view(&self) -> StepView {
        match *self {
            ExeStep::Ask(probe) => StepView::Ask(probe@),
            ExeStep::Done(Ok(path)) => StepView::Done(Ok(path@)),
            ExeStep::Done(Err(error)) => StepView::Done(Err(error@)),
        }
    }
}

/// A resolution under way: the strategy being tried, the probe that is out,
/// and the failures of the strategies before it.
pub struct PendingView {
    pub strategy: Strategy,
    pub probe: ProbeView,
    pub failed: Seq<AttemptView>,
}

impl PendingView {
    /// Every strategy before the current one has failed, and is on record.
    pub open spec fn wf(self) -> bool {
        &&& self.failed.len() == self.strategy.rank()
        &&& in_order(self.failed)
    }

    /// The outcome of recording `cause` as the failure of the current
    /// strategy: the next strategy starts, or, after the last one, the
    /// resolution ends with all the failures.
    pub open spec fn fail(self, cause: Seq<char>) -> (Option<PendingView>, StepView) {
        let failed = self.failed.push(AttemptView { strategy: self.strategy, cause });
        match self.strategy.following() {
            Some(next) => (
                Some(PendingView { strategy: next, probe: next.locate(), failed }),
                StepView::Ask(next.locate()),
            ),
            None => (None, StepView::Done(Err(failed))),
        }
    }
}

/// The start of a resolution: the first strategy locates its candidate.
pub open spec fn begin() -> (Option<PendingView>, StepView) {
    (
        Some(
            PendingView {
                strategy: Strategy::EnvOverride,
                probe: ProbeView::ReadOverride,
                failed: Seq::empty(),
            },
        ),
        StepView::Ask(ProbeView::ReadOverride),
    )
}

/// The resolver's transition: from its state (`None` when no resolution is
/// under way) and an event to the next state and the answer.
///
/// - With nothing under way, any event starts a resolution; an outcome that
///   answers no probe is not looked at.
/// - A query during a resolution is answered with the probe that is out.
/// - A candidate that was located is handed on to be resolved; a candidate
///   that was resolved is the result.
/// - A probe that found nothing, or failed, ends its strategy.
pub open spec fn step_spec(state: Option<PendingView>, event: EventView, search_path: Seq<char>) -> (
    Option<PendingView>,
    StepView,
) {
    match state {
        None => begin(),
        Some(pending) => match event {
            EventView::Query => (state, StepView::Ask(pending.probe)),
            EventView::Found(text) => if pending.probe.locates() {
                let probe = pending.strategy.resolve(text, search_path);
                (Some(PendingView { probe, ..pending }), StepView::Ask(probe))
            } else {
                (None, StepView::Done(Ok(text)))
            },
            EventView::Missing => pending.fail(pending.probe.missing_cause()),
            EventView::Failed(cause) => pending.fail(cause),
        },
    }
}

struct Pending {
    strategy: Strategy,
    probe: Probe,
    failed: Vec<Attempt>,
}

impl View for Pending {
    type V = PendingView;

    closed spec fn view(&self) -> PendingView {
        PendingView {
            strategy: self.strategy,
            probe: self.probe@,
            failed: attempts_view(self.failed@),
        }
    }
}

/// The state of the search for the executable.
pub struct ExeResolver {
    state: Option<Pending>,
}

impl View for ExeResolver {
    type V = Option<PendingView>;

    closed spec fn view(&self) -> Option<PendingView> {
        match self.state {
            Some(pending) => Some(pending@),
            None => None,
        }
    }
}

impl ExeResolver {
    #[verifier::type_invariant]
    spec fn inv(self) -> bool {
        self.state matches Some(pending) ==> pending@.wf()
    }

    /// A resolver with no resolution under way.
    pub fn new() -> (resolver: ExeResolver)
        ensures
            resolver@ is None,
    {
        ExeResolver { state: None }
    }

    /// The probe that is out, if a resolution is under way.
    pub fn pending(&self) -> (probe: Option<Probe>)
        ensures
            probe is Some == self@ is Some,
            probe matches Some(p) ==> p@ == self@->Some_0.probe,
    {
        match &self.state {
            Some(pending) => Some(pending.probe.duplicate()),
            None => None,
        }
    }

    /// Takes one event and answers it, as `step_spec` says. `search_path` is
    /// the list of directories in which a bare first argument is looked up.
    ///
    /// When the answer is an error, it holds one failure for each of the
    /// three strategies, in their order.
    pub fn step(&mut self, event: Event, search_path: &str) -> (step: ExeStep)
        ensures
            (final(self)@, step@) == step_spec(old(self)@, event@, search_path@),
            step@ matches StepView::Done(Err(failed)) ==> all_failed(failed),
    {
        proof {
            use_type_invariant(&*self);
        }
        let mut state: Option<Pending> = None;
        core::mem::swap(&mut self.state, &mut state);
        match state {
            None => {
                self.state = Some(
                    Pending {
                        strategy: Strategy::EnvOverride,
                        probe: Probe::ReadOverride,
                        failed: Vec::new(),
                    },
                );
                assert(attempts_view(Seq::<Attempt>::empty()) =~= Seq::<AttemptView>::empty());
                ExeStep::Ask(Probe::ReadOverride)
            },
            Some(pending) => match event {
                Event::Query => {
                    let probe = pending.probe.duplicate();
                    self.state = Some(pending);
                    ExeStep::Ask(probe)
                },
                Event::Found(text) => {
                    if pending.probe.is_locating() {
                        let probe = pending.strategy.resolve_probe(text, search_path);
                        let ask = probe.duplicate();
                        self.state = Some(
                            Pending { strategy: pending.strategy, probe, failed: pending.failed },
                        );
                        ExeStep::Ask(ask)
                    } else {
                        ExeStep::Done(Ok(text))
                    }
                },
                Event::Missing => {
                    let cause = pending.probe.missing_label();
                    self.fail(pending, cause)
                },
                Event::Failed(cause) => self.fail(pending, cause),
            },
        }
    }

    fn fail(&mut self, pending: Pending, cause: String) -> (step: ExeStep)
        requires
            old(self)@ is None,
            pending@.wf(),
        ensures
            (final(self)@, step@) == pending@.fail(cause@),
            step@ matches StepView::Done(Err(failed)) ==> all_failed(failed),
    {
        let mut failed = pending.failed;
        let ghost before = failed@;
        failed.push(Attempt { strategy: pending.strategy, cause });
        assert(attempts_view(failed@) =~= attempts_view(before).push(
            AttemptView { strategy: pending.strategy, cause: cause@ },
        ));
        match pending.strategy.next() {
            Some(next) => {
                self.state = Some(Pending { strategy: next, probe: next.locate_probe(), failed });
                ExeStep::Ask(next.locate_probe())
            },
            None => ExeStep::Done(Err(ExeError { attempts: failed })),
        }
    }
}

} // verus!
