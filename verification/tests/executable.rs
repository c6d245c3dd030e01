use scarb_config::{
    AppDirs, Attempt, Config, Event, ExeError, ExeResolver, ExeStep, Probe, Strategy, SCARB_ENV,
};

const SEARCH_PATH: &str = "/usr/local/bin:/usr/bin";

fn context() -> Config<(), u32> {
    let dirs = AppDirs {
        cache_dir: String::from("/cache"),
        config_dir: String::from("/config"),
        path_env: String::from(SEARCH_PATH),
    };
    Config::init(String::from("/proj/Scarb.toml"), dirs, (), None, None, 0)
}

fn found(text: &str) -> Event {
    Event::Found(String::from(text))
}

fn failed(cause: &str) -> Event {
    Event::Failed(String::from(cause))
}

fn canonicalize(path: &str) -> ExeStep {
    ExeStep::Ask(Probe::Canonicalize { path: String::from(path) })
}

fn search(name: &str) -> ExeStep {
    ExeStep::Ask(Probe::SearchPath {
        name: String::from(name),
        search_path: String::from(SEARCH_PATH),
    })
}

fn done(path: &str) -> ExeStep {
    ExeStep::Done(Ok(String::from(path)))
}

fn attempt(strategy: Strategy, cause: &str) -> Attempt {
    Attempt { strategy, cause: String::from(cause) }
}

/// Drives the context to the point where the first argument has been asked for.
fn at_argv0(config: &mut Config<(), u32>) {
    assert_eq!(config.app_exe(Event::Query), ExeStep::Ask(Probe::ReadOverride));
    assert_eq!(config.app_exe(Event::Missing), ExeStep::Ask(Probe::CurrentExe));
    assert_eq!(config.app_exe(failed("no /proc")), ExeStep::Ask(Probe::ReadArgv0));
}

#[test]
fn override_variable_name() {
    assert_eq!(SCARB_ENV, "SCARB");
}

#[test]
fn a_query_starts_with_the_override() {
    let mut config = context();
    assert_eq!(config.app_exe(Event::Query), ExeStep::Ask(Probe::ReadOverride));
}

#[test]
fn the_override_wins() {
    let mut config = context();
    assert_eq!(config.app_exe(Event::Query), ExeStep::Ask(Probe::ReadOverride));
    assert_eq!(config.app_exe(found("bin/../bin/scarb")), canonicalize("bin/../bin/scarb"));
    assert_eq!(config.app_exe(found("/opt/scarb/bin/scarb")), done("/opt/scarb/bin/scarb"));
}

#[test]
fn a_bare_override_is_not_searched_for() {
    let mut config = context();
    config.app_exe(Event::Query);
    assert_eq!(config.app_exe(found("scarb")), canonicalize("scarb"));
}

#[test]
fn the_current_exe_comes_second() {
    let mut config = context();
    config.app_exe(Event::Query);
    assert_eq!(config.app_exe(Event::Missing), ExeStep::Ask(Probe::CurrentExe));
    assert_eq!(config.app_exe(found("/proc/self/exe")), canonicalize("/proc/self/exe"));
    assert_eq!(config.app_exe(found("/usr/bin/scarb")), done("/usr/bin/scarb"));
}

#[test]
fn an_override_that_cannot_be_resolved_falls_through() {
    let mut config = context();
    config.app_exe(Event::Query);
    assert_eq!(config.app_exe(found("/gone/scarb")), canonicalize("/gone/scarb"));
    assert_eq!(
        config.app_exe(failed("No such file or directory (os error 2)")),
        ExeStep::Ask(Probe::CurrentExe)
    );
}

#[test]
fn a_bare_first_argument_is_searched_for() {
    let mut config = context();
    at_argv0(&mut config);
    assert_eq!(config.app_exe(found("scarb")), search("scarb"));
    assert_eq!(config.app_exe(found("/usr/local/bin/scarb")), done("/usr/local/bin/scarb"));
}

#[test]
fn a_relative_first_argument_is_made_canonical() {
    let mut config = context();
    at_argv0(&mut config);
    assert_eq!(config.app_exe(found("./scarb")), canonicalize("./scarb"));
    assert_eq!(config.app_exe(found("/work/scarb")), done("/work/scarb"));
}

#[test]
fn a_nested_first_argument_is_made_canonical() {
    let mut config = context();
    at_argv0(&mut config);
    assert_eq!(config.app_exe(found("target/debug/scarb")), canonicalize("target/debug/scarb"));
}

#[test]
fn an_absolute_first_argument_is_made_canonical() {
    let mut config = context();
    at_argv0(&mut config);
    assert_eq!(
        config.app_exe(found("/usr/local/bin/scarb")),
        canonicalize("/usr/local/bin/scarb")
    );
}

#[test]
fn an_empty_first_argument_is_searched_for() {
    let mut config = context();
    at_argv0(&mut config);
    assert_eq!(config.app_exe(found("")), search(""));
}

#[test]
fn all_three_failures_are_kept() {
    let mut config = context();
    config.app_exe(Event::Query);
    config.app_exe(found("/gone/scarb"));
    config.app_exe(failed("No such file or directory (os error 2)"));
    config.app_exe(failed("no /proc"));
    assert_eq!(config.app_exe(found("scarb")), search("scarb"));
    let step = config.app_exe(Event::Missing);
    let expected = ExeError {
        attempts: vec![
            attempt(Strategy::EnvOverride, "No such file or directory (os error 2)"),
            attempt(Strategy::CurrentExe, "no /proc"),
            attempt(Strategy::Argv0, "cannot find binary path"),
        ],
    };
    assert_eq!(step, ExeStep::Done(Err(expected)));
}

#[test]
fn what_is_missing_is_named() {
    let mut config = context();
    config.app_exe(Event::Query);
    config.app_exe(Event::Missing);
    config.app_exe(Event::Missing);
    let step = config.app_exe(Event::Missing);
    let ExeStep::Done(Err(error)) = step else {
        panic!("{step:?}");
    };
    assert_eq!(
        error.attempts,
        vec![
            attempt(Strategy::EnvOverride, "$SCARB not set"),
            attempt(Strategy::CurrentExe, "path of the current executable is not available"),
            attempt(Strategy::Argv0, "no argv[0]"),
        ]
    );
    assert_eq!(error.message(), "could not get the path to the executable");
}

#[test]
fn a_path_that_is_missing_is_named() {
    let mut config = context();
    at_argv0(&mut config);
    config.app_exe(found("./scarb"));
    let step = config.app_exe(Event::Missing);
    let ExeStep::Done(Err(error)) = step else {
        panic!("{step:?}");
    };
    assert_eq!(error.attempts.len(), 3);
    assert_eq!(error.attempts[2], attempt(Strategy::Argv0, "path does not exist"));
}

#[test]
fn the_path_is_found_once() {
    let mut config = context();
    config.app_exe(Event::Query);
    config.app_exe(found("/opt/scarb"));
    assert_eq!(config.app_exe(found("/opt/scarb/bin/scarb")), done("/opt/scarb/bin/scarb"));
    // No probe is asked for again, whatever comes in.
    assert_eq!(config.app_exe(Event::Query), done("/opt/scarb/bin/scarb"));
    assert_eq!(config.app_exe(Event::Query), done("/opt/scarb/bin/scarb"));
    assert_eq!(config.app_exe(found("/somewhere/else")), done("/opt/scarb/bin/scarb"));
    assert_eq!(config.app_exe(Event::Missing), done("/opt/scarb/bin/scarb"));
    assert_eq!(config.app_exe(failed("late")), done("/opt/scarb/bin/scarb"));
}

#[test]
fn a_failure_is_not_kept() {
    let mut config = context();
    config.app_exe(Event::Query);
    config.app_exe(Event::Missing);
    config.app_exe(Event::Missing);
    assert!(matches!(config.app_exe(Event::Missing), ExeStep::Done(Err(_))));
    assert_eq!(config.app_exe(Event::Query), ExeStep::Ask(Probe::ReadOverride));
    assert_eq!(config.app_exe(found("/opt/scarb")), canonicalize("/opt/scarb"));
    assert_eq!(config.app_exe(found("/opt/scarb")), done("/opt/scarb"));
    assert_eq!(config.app_exe(Event::Query), done("/opt/scarb"));
}

#[test]
fn a_query_under_way_repeats_the_probe() {
    let mut config = context();
    at_argv0(&mut config);
    assert_eq!(config.app_exe(Event::Query), ExeStep::Ask(Probe::ReadArgv0));
    assert_eq!(config.app_exe(Event::Query), ExeStep::Ask(Probe::ReadArgv0));
    assert_eq!(config.app_exe(found("scarb")), search("scarb"));
    assert_eq!(config.app_exe(Event::Query), search("scarb"));
}

#[test]
fn an_outcome_that_answers_nothing_starts_a_resolution() {
    let mut config = context();
    assert_eq!(config.app_exe(found("/not/asked/for")), ExeStep::Ask(Probe::ReadOverride));
    assert_eq!(config.app_exe(Event::Missing), ExeStep::Ask(Probe::CurrentExe));
}

#[test]
fn the_resolver_runs_without_a_context() {
    let mut resolver = ExeResolver::new();
    assert_eq!(resolver.pending(), None);
    assert_eq!(resolver.step(Event::Query, "/bin"), ExeStep::Ask(Probe::ReadOverride));
    assert_eq!(resolver.pending(), Some(Probe::ReadOverride));
    assert_eq!(resolver.step(Event::Missing, "/bin"), ExeStep::Ask(Probe::CurrentExe));
    assert_eq!(resolver.step(Event::Missing, "/bin"), ExeStep::Ask(Probe::ReadArgv0));
    assert_eq!(
        resolver.step(found("tool"), "/bin"),
        ExeStep::Ask(Probe::SearchPath { name: String::from("tool"), search_path: String::from("/bin") })
    );
    assert_eq!(resolver.step(found("/bin/tool"), "/bin"), done("/bin/tool"));
    assert_eq!(resolver.pending(), None);
}

#[test]
fn the_resolver_forgets_a_finished_run() {
    let mut resolver = ExeResolver::new();
    resolver.step(Event::Query, "");
    resolver.step(failed("a"), "");
    resolver.step(failed("b"), "");
    let step = resolver.step(failed("c"), "");
    assert_eq!(
        step,
        ExeStep::Done(Err(ExeError {
            attempts: vec![
                attempt(Strategy::EnvOverride, "a"),
                attempt(Strategy::CurrentExe, "b"),
                attempt(Strategy::Argv0, "c"),
            ],
        }))
    );
    assert_eq!(resolver.pending(), None);
    resolver.step(Event::Query, "");
    resolver.step(failed("d"), "");
    resolver.step(failed("e"), "");
    let ExeStep::Done(Err(error)) = resolver.step(failed("f"), "") else {
        panic!("the second run did not fail");
    };
    assert_eq!(error.attempts.len(), 3);
    assert_eq!(error.attempts[0], attempt(Strategy::EnvOverride, "d"));
}
