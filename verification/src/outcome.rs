//! What a resolution amounts to.
//!
//! The resolver of [`crate::exe`] is described step by step. This module
//! says the same thing at once: given what every probe would report, which
//! path comes out, or which failures. It then shows that running the
//! resolver against those reports arrives at exactly that, and draws the
//! consequences that callers rely on: the order of precedence, the fall
//! through to the first argument, and the record kept when all fails.

use crate::config::ConfigView;
use crate::exe::{all_failed, AttemptView, EventView, PendingView, ProbeView, StepView, Strategy, step_spec};
use crate::paths::is_bare_name;
use vstd::prelude::*;

verus! {

/// What a probe reports.
pub enum Outcome {
    Found(Seq<char>),
    Missing,
    Failed(Seq<char>),
}

impl Outcome {
    /// The event by which the caller reports this outcome.
    pub open spec fn event(self) -> EventView {
        match self {
            Outcome::Found(text) => EventView::Found(text),
            Outcome::Missing => EventView::Missing,
            Outcome::Failed(cause) => EventView::Failed(cause),
        }
    }
}

/// The surroundings of one resolution: what each probe would report.
pub struct World {
    /// The value of the override variable.
    pub env_override: Outcome,
    /// The path of the running executable.
    pub current_exe: Outcome,
    /// The first command-line argument.
    pub argv0: Outcome,
    /// The canonical form of a path.
    pub canonical: spec_fn(Seq<char>) -> Outcome,
    /// The executable of a given name on a given search path.
    pub on_search_path: spec_fn(Seq<char>, Seq<char>) -> Outcome,
}

impl World {
    /// What `probe` reports in this world.
    pub open spec fn answer(self, probe: ProbeView) -> Outcome {
        match probe {
            ProbeView::ReadOverride => self.env_override,
            ProbeView::CurrentExe => self.current_exe,
            ProbeView::ReadArgv0 => self.argv0,
            ProbeView::Canonicalize { path } => (self.canonical)(path),
            ProbeView::SearchPath { name, search_path } => (self.on_search_path)(name, search_path),
        }
    }

    /// What `strategy` comes to in this world: the path it finds, or the
    /// cause of its failure. A strategy fails when its candidate cannot be
    /// located, and when the candidate cannot be resolved.
    pub open spec fn attempt(self, strategy: Strategy, search_path: Seq<char>) -> Result<
        Seq<char>,
        Seq<char>,
    > {
        let locate = strategy.locate();
        match self.answer(locate) {
            Outcome::Found(candidate) => {
                let resolve = strategy.resolve(candidate, search_path);
                match self.answer(resolve) {
                    Outcome::Found(path) => Ok(path),
                    Outcome::Missing => Err(resolve.missing_cause()),
                    Outcome::Failed(cause) => Err(cause),
                }
            },
            Outcome::Missing => Err(locate.missing_cause()),
            Outcome::Failed(cause) => Err(cause),
        }
    }

    /// What the resolution comes to in this world: the path found by the
    /// first strategy that succeeds, or, when none does, the failure of each
    /// in the order of precedence.
    pub open spec fn resolved(self, search_path: Seq<char>) -> Result<Seq<char>, Seq<AttemptView>> {
        match self.attempt(Strategy::EnvOverride, search_path) {
            Ok(path) => Ok(path),
            Err(first) => match self.attempt(Strategy::CurrentExe, search_path) {
                Ok(path) => Ok(path),
                Err(second) => match self.attempt(Strategy::Argv0, search_path) {
                    Ok(path) => Ok(path),
                    Err(third) => Err(
                        Seq::empty().push(
                            AttemptView { strategy: Strategy::EnvOverride, cause: first },
                        ).push(AttemptView { strategy: Strategy::CurrentExe, cause: second }).push(
                            AttemptView { strategy: Strategy::Argv0, cause: third },
                        ),
                    ),
                },
            },
        }
    }
}

/// The resolver run against a world: `event` is handed to the resolver in
/// `state`; as long as it asks for a probe, and at most `rounds` times, the
/// world's report of that probe is handed in next.
pub open spec fn run(
    state: Option<PendingView>,
    event: EventView,
    world: World,
    search_path: Seq<char>,
    rounds: nat,
) -> (Option<PendingView>, StepView)
    decreases rounds,
{
    let (next, step) = step_spec(state, event, search_path);
    match step {
        StepView::Ask(probe) if rounds > 0 => run(
            next,
            world.answer(probe).event(),
            world,
            search_path,
            (rounds - 1) as nat,
        ),
        _ => (next, step),
    }
}

/// The resolver does what [`World::resolved`] says: started by a query, and
/// told the outcome of each probe it asks for, it ends within six probes,
/// with no resolution left under way, on the path or the failures that the
/// world determines.
pub proof fn lemma_run_resolves(world: World, search_path: Seq<char>)
    ensures
        run(None, EventView::Query, world, search_path, 6) == (
            None::<PendingView>,
            StepView::Done(world.resolved(search_path)),
        ),
{
    reveal_with_fuel(run, 7);
}

/// The resolver keeps its state well formed.
pub proof fn lemma_step_keeps_wf(state: Option<PendingView>, event: EventView, search_path: Seq<char>)
    requires
        state matches Some(pending) ==> pending.wf(),
    ensures
        step_spec(state, event, search_path).0 matches Some(pending) ==> pending.wf(),
{
}

/// The override has precedence: where the variable is set and its value can
/// be made canonical, that path is the result, whatever the other two
/// strategies would have found.
pub proof fn lemma_override_wins(
    world: World,
    search_path: Seq<char>,
    value: Seq<char>,
    path: Seq<char>,
)
    requires
        world.env_override == Outcome::Found(value),
        (world.canonical)(value) == Outcome::Found(path),
    ensures
        world.resolved(search_path) == Ok::<Seq<char>, Seq<AttemptView>>(path),
        run(None, EventView::Query, world, search_path, 2) == (
            None::<PendingView>,
            StepView::Done(Ok(path)),
        ),
{
    reveal_with_fuel(run, 3);
}

/// Where the first two strategies fail, the first argument decides: a bare
/// name is looked up on the search path, anything else is made canonical,
/// and the result is the path that this yields.
pub proof fn lemma_falls_back_to_argv0(
    world: World,
    search_path: Seq<char>,
    argv0: Seq<char>,
    path: Seq<char>,
)
    requires
        world.attempt(Strategy::EnvOverride, search_path) is Err,
        world.attempt(Strategy::CurrentExe, search_path) is Err,
        world.argv0 == Outcome::Found(argv0),
        if is_bare_name(argv0) {
            (world.on_search_path)(argv0, search_path) == Outcome::Found(path)
        } else {
            (world.canonical)(argv0) == Outcome::Found(path)
        },
    ensures
        world.resolved(search_path) == Ok::<Seq<char>, Seq<AttemptView>>(path),
{
}

/// With the first two strategies out of the way, the probe that follows the
/// reading of the first argument is a search for a bare name and a
/// canonicalisation for anything else.
pub proof fn lemma_argv0_probe(pending: PendingView, argv0: Seq<char>, search_path: Seq<char>)
    requires
        pending.strategy == Strategy::Argv0,
        pending.probe == ProbeView::ReadArgv0,
    ensures
        step_spec(Some(pending), EventView::Found(argv0), search_path).1 == if is_bare_name(argv0) {
            StepView::Ask(ProbeView::SearchPath { name: argv0, search_path })
        } else {
            StepView::Ask(ProbeView::Canonicalize { path: argv0 })
        },
{
}

/// Where all three strategies fail, the resolution fails, and the error
/// holds the cause of each failure, in the order of precedence.
pub proof fn lemma_total_failure(world: World, search_path: Seq<char>)
    requires
        world.attempt(Strategy::EnvOverride, search_path) is Err,
        world.attempt(Strategy::CurrentExe, search_path) is Err,
        world.attempt(Strategy::Argv0, search_path) is Err,
    ensures
        world.resolved(search_path) matches Err(failed) && {
            &&& all_failed(failed)
            &&& Err::<Seq<char>, Seq<char>>(failed[0].cause) == world.attempt(
                Strategy::EnvOverride,
                search_path,
            )
            &&& Err::<Seq<char>, Seq<char>>(failed[1].cause) == world.attempt(
                Strategy::CurrentExe,
                search_path,
            )
            &&& Err::<Seq<char>, Seq<char>>(failed[2].cause) == world.attempt(
                Strategy::Argv0,
                search_path,
            )
        },
{
}

/// The resolution fails only where every strategy fails.
pub proof fn lemma_failure_is_total(world: World, search_path: Seq<char>)
    requires
        world.resolved(search_path) is Err,
    ensures
        world.attempt(Strategy::EnvOverride, search_path) is Err,
        world.attempt(Strategy::CurrentExe, search_path) is Err,
        world.attempt(Strategy::Argv0, search_path) is Err,
{
}

/// A context run against a world: `event` is handed to the context; as long
/// as it asks for a probe, and at most `rounds` times, the world's report of
/// that probe is handed in next.
pub open spec fn run_context<U, L>(
    config: ConfigView<U, L>,
    event: EventView,
    world: World,
    rounds: nat,
) -> (ConfigView<U, L>, StepView)
    decreases rounds,
{
    let (next, step) = config.exe_step(event);
    match step {
        StepView::Ask(probe) if rounds > 0 => run_context(
            next,
            world.answer(probe).event(),
            world,
            (rounds - 1) as nat,
        ),
        _ => (next, step),
    }
}

/// A context that does not know the path yet, asked for it and told the
/// outcome of each probe, ends on what the world determines for the search
/// path of its directory layout. A path that was found is known to the
/// context from then on; a failure leaves the context as it was.
pub proof fn lemma_context_resolves<U, L>(config: ConfigView<U, L>, world: World)
    requires
        config.app_exe is None,
        config.resolving is None,
    ensures
        run_context(config, EventView::Query, world, 6) == (
            ConfigView {
                app_exe: match world.resolved(config.dirs.path_env@) {
                    Ok(path) => Some(path),
                    Err(_) => None,
                },
                ..config
            },
            StepView::Done(world.resolved(config.dirs.path_env@)),
        ),
{
    reveal_with_fuel(run_context, 7);
}

/// A context that knows the path answers with it at once, in any world.
pub proof fn lemma_context_remembers<U, L>(
    config: ConfigView<U, L>,
    path: Seq<char>,
    event: EventView,
    world: World,
    rounds: nat,
)
    requires
        config.app_exe == Some(path),
    ensures
        run_context(config, event, world, rounds) == (config, StepView::Done(Ok(path))),
{
}

} // verus!
