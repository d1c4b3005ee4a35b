use miseo::error::Error;
use miseo::spec::{Backend, Runtime, RuntimePins, RuntimeSpec, ToolSpec};
use miseo::tasks::install::{self, Action, Event, InstallRun, Next, Phase, PlanFacts, Step};
use miseo::tasks::uninstall;

fn node_pins(selector: &str) -> RuntimePins {
    RuntimePins::try_from(vec![RuntimeSpec::new(Runtime::Node, selector)]).unwrap()
}

fn facts(current_matches: bool) -> PlanFacts {
    PlanFacts {
        tool_id: "npm:prettier".parse().unwrap(),
        package_version: "3.8.2".to_string(),
        runtime_labels: vec!["node@24.13.1".to_string()],
        current_matches,
        runtime_pins: node_pins("24.13.1"),
        variant_dir: "/tools/npm-prettier/3.8.2".to_string(),
    }
}

fn run_to_plan(force: bool) -> InstallRun {
    let spec: ToolSpec = "npm:prettier".parse().unwrap();
    let (mut run, next) = install::execute(spec, node_pins("24"), force);
    match next {
        Next::Run(Step::ResolveRuntimePins { backend, uses }) => {
            assert_eq!(backend, Backend::Npm);
            assert_eq!(uses, node_pins("24"));
        }
        other => panic!("unexpected {other:?}"),
    }
    match run.advance(Event::PinsResolved(node_pins("24.13.1"))) {
        Next::Run(Step::ResolveLatestVersion { requested, runtime_pins }) => {
            assert_eq!(requested.to_string(), "npm:prettier@latest");
            assert_eq!(runtime_pins, node_pins("24.13.1"));
        }
        other => panic!("unexpected {other:?}"),
    }
    let exact: ToolSpec = "npm:prettier@3.8.2".parse().unwrap();
    match run.advance(Event::VersionResolved(exact)) {
        Next::Run(Step::PlanInstall { exact_spec, runtime_pins }) => {
            assert_eq!(exact_spec.to_string(), "npm:prettier@3.8.2");
            assert_eq!(runtime_pins, node_pins("24.13.1"));
        }
        other => panic!("unexpected {other:?}"),
    }
    assert_eq!(run.phase(), Phase::Planning);
    run
}

#[test]
fn install_runs_every_step_in_order() {
    let mut run = run_to_plan(false);
    match run.advance(Event::Planned(facts(false))) {
        Next::Run(Step::InstallInto { runtime_pins, exact_spec, variant_dir }) => {
            assert_eq!(runtime_pins, node_pins("24.13.1"));
            assert_eq!(exact_spec.to_string(), "npm:prettier@3.8.2");
            assert_eq!(variant_dir, "/tools/npm-prettier/3.8.2");
        }
        other => panic!("unexpected {other:?}"),
    }
    match run.advance(Event::Succeeded) {
        Next::Run(Step::InitializeVariant { variant_dir, runtime_pins }) => {
            assert_eq!(variant_dir, "/tools/npm-prettier/3.8.2");
            assert_eq!(runtime_pins, node_pins("24.13.1"));
        }
        other => panic!("unexpected {other:?}"),
    }
    let config = "/tools/npm-prettier/3.8.2/mise.toml".to_string();
    match run.advance(Event::VariantInitialized(config.clone())) {
        Next::Run(Step::TrustConfig(path)) => assert_eq!(path, config),
        other => panic!("unexpected {other:?}"),
    }
    match run.advance(Event::Succeeded) {
        Next::Run(Step::ListBinPaths { tool_id, variant_dir }) => {
            assert_eq!(tool_id.to_string(), "npm:prettier");
            assert_eq!(variant_dir, "/tools/npm-prettier/3.8.2");
        }
        other => panic!("unexpected {other:?}"),
    }
    let bins = vec!["/tools/npm-prettier/3.8.2/bin".to_string()];
    match run.advance(Event::BinPathsListed(bins.clone())) {
        Next::Run(Step::DiscoverExecutables(listed)) => assert_eq!(listed, bins),
        other => panic!("unexpected {other:?}"),
    }
    let found = vec![("prettier".to_string(), "/tools/npm-prettier/3.8.2/bin/prettier".to_string())];
    match run.advance(Event::ExecutablesFound(found.clone())) {
        Next::Run(Step::FinalizeInstall(discovered)) => assert_eq!(discovered, found),
        other => panic!("unexpected {other:?}"),
    }
    match run.advance(Event::Exported { commands: vec!["prettier".to_string()], elapsed_ms: 9 }) {
        Next::Finish(Ok(success)) => {
            assert_eq!(success.action, Action::Installed);
            assert_eq!(success.tool_id.to_string(), "npm:prettier");
            assert_eq!(success.package_version, "3.8.2");
            assert_eq!(success.runtimes, vec!["node@24.13.1"]);
            assert_eq!(success.commands, vec!["prettier"]);
            assert_eq!(success.elapsed_ms, 9);
        }
        other => panic!("unexpected {other:?}"),
    }
    assert_eq!(run.phase(), Phase::Done);
}

#[test]
fn pinned_request_keeps_its_version() {
    let spec: ToolSpec = "npm:prettier@3.0.0".parse().unwrap();
    let (mut run, _) = install::execute(spec, RuntimePins::new(), false);
    match run.advance(Event::PinsResolved(RuntimePins::new())) {
        Next::Run(Step::ResolveLatestVersion { requested, runtime_pins }) => {
            assert_eq!(requested.to_string(), "npm:prettier@3.0.0");
            assert!(runtime_pins.is_empty());
        }
        other => panic!("unexpected {other:?}"),
    }
}

/// Runs the steps after planning up to finalizing.
fn run_to_finalize(run: &mut InstallRun) {
    run.advance(Event::Succeeded);
    run.advance(Event::VariantInitialized("mise.toml".to_string()));
    run.advance(Event::Succeeded);
    run.advance(Event::BinPathsListed(vec![]));
    run.advance(Event::ExecutablesFound(vec![]));
    assert_eq!(run.phase(), Phase::Finalizing);
}

#[test]
fn current_variant_is_already_current_unless_forced() {
    let mut run = run_to_plan(false);
    match run.advance(Event::Planned(facts(true))) {
        Next::Finish(Err(current)) => {
            assert_eq!(current.package_version, "3.8.2");
            assert_eq!(current.runtimes, vec!["node@24.13.1"]);
        }
        other => panic!("unexpected {other:?}"),
    }
    let mut run = run_to_plan(true);
    assert!(matches!(run.advance(Event::Planned(facts(true))), Next::Run(Step::InstallInto { .. })));
    run_to_finalize(&mut run);
    match run.advance(Event::Exported { commands: vec![], elapsed_ms: 1 }) {
        Next::Finish(Ok(success)) => assert_eq!(success.action, Action::Reinstalled),
        other => panic!("unexpected {other:?}"),
    }
}

#[test]
fn failures_clean_up_only_after_the_package_is_trusted() {
    let mut run = run_to_plan(false);
    run.advance(Event::Planned(facts(false)));
    let failed = run.advance(Event::Failed(Error::ManifestInvariant("x".to_string())));
    assert!(matches!(failed, Next::Fail(Error::ManifestInvariant(_))));

    let mut run = run_to_plan(false);
    run.advance(Event::Planned(facts(false)));
    run.advance(Event::Succeeded);
    run.advance(Event::VariantInitialized("mise.toml".to_string()));
    run.advance(Event::Succeeded);
    assert_eq!(run.phase(), Phase::ListingBinPaths);
    let failed = run.advance(Event::Failed(Error::ToolNotInstalled { tool_id: "x".to_string() }));
    assert!(matches!(failed, Next::CleanUpAndFail(Error::ToolNotInstalled { .. })));
}

#[test]
fn uninstall_outcome_carries_removed_commands() {
    let outcome = uninstall::execute("npm:prettier".parse().unwrap(), Ok(vec!["prettier".to_string()])).unwrap();
    assert_eq!(outcome.removed_commands, vec!["prettier"]);
    let err = uninstall::execute(
        "npm:prettier".parse().unwrap(),
        Err(Error::ToolNotInstalled { tool_id: "npm:prettier".to_string() }),
    )
    .unwrap_err();
    assert_eq!(err.exit_code(), 3);
}
