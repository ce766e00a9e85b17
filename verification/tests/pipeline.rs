use composable_build::error::{ArtifactFile, BuildError, Channel};
use composable_build::pipeline::{
    BuildAction, BuildEvent, BuildPath, ComponentBuild, Phase, Stage,
};
use composable_build::scanner::WatContractsScanner;

fn registry() -> WatContractsScanner {
    let mut scanner = WatContractsScanner::new_empty();
    scanner.add_contract("inline", "\"(module)\"");
    scanner
}

fn run(build: &mut ComponentBuild, events: &[BuildEvent]) -> Vec<BuildAction> {
    events.iter().map(|event| build.advance(*event)).collect()
}

#[test]
fn registered_component_is_compiled_inline() {
    let scanner = registry();
    let mut build = ComponentBuild::new(&scanner, "inline".to_string());
    assert_eq!(build.path, BuildPath::Inline);
    assert_eq!(build.stage, Stage::Pending);
    assert_eq!(build.phase(), Phase::Pending);
    let actions = run(&mut build, &[BuildEvent::Begin; 1]);
    assert_eq!(actions, vec![BuildAction::CompileInline]);
    assert_eq!(build.phase(), Phase::InlineCompile);
    let actions = run(&mut build, &[BuildEvent::Succeeded; 5]);
    assert_eq!(
        actions,
        vec![
            BuildAction::WriteDestination,
            BuildAction::LocateOptimizer,
            BuildAction::RunOptimizer,
            BuildAction::ReplaceDestination,
            BuildAction::Finish,
        ]
    );
    assert_eq!(build.stage, Stage::Done);
    assert_eq!(build.outcome(), Some(Ok(())));
}

#[test]
fn unregistered_component_is_cross_compiled() {
    let scanner = registry();
    let mut build = ComponentBuild::new(&scanner, "compiled".to_string());
    assert_eq!(build.path, BuildPath::CrossCompile);
    let mut phases = vec![build.phase()];
    let mut actions = vec![build.advance(BuildEvent::Begin)];
    phases.push(build.phase());
    for _ in 0..6 {
        actions.push(build.advance(BuildEvent::Succeeded));
        phases.push(build.phase());
    }
    assert_eq!(
        actions,
        vec![
            BuildAction::CrossCompile,
            BuildAction::PostProcess,
            BuildAction::WriteDestination,
            BuildAction::LocateOptimizer,
            BuildAction::RunOptimizer,
            BuildAction::ReplaceDestination,
            BuildAction::Finish,
        ]
    );
    assert_eq!(
        phases,
        vec![
            Phase::Pending,
            Phase::CrossCompile,
            Phase::CrossCompile,
            Phase::CrossCompile,
            Phase::PostProcessed,
            Phase::PostProcessed,
            Phase::Optimized,
            Phase::Done,
        ]
    );
}

#[test]
fn of_two_components_only_the_unregistered_is_cross_compiled() {
    let scanner = registry();
    let events = [
        BuildEvent::Begin,
        BuildEvent::Succeeded,
        BuildEvent::Succeeded,
        BuildEvent::Succeeded,
        BuildEvent::Succeeded,
        BuildEvent::Succeeded,
        BuildEvent::Succeeded,
    ];
    let mut inline = ComponentBuild::new(&scanner, "inline".to_string());
    let asked = run(&mut inline, &events);
    assert!(!asked.contains(&BuildAction::CrossCompile));
    assert!(!asked.contains(&BuildAction::PostProcess));
    let mut compiled = ComponentBuild::new(&scanner, "compiled".to_string());
    let asked = run(&mut compiled, &events);
    assert_eq!(asked[0], BuildAction::CrossCompile);
}

#[test]
fn missing_optimizer_ends_the_build_well() {
    let scanner = registry();
    let mut build = ComponentBuild::new(&scanner, "compiled".to_string());
    run(&mut build, &[BuildEvent::Begin, BuildEvent::Succeeded, BuildEvent::Succeeded, BuildEvent::Succeeded]);
    assert_eq!(build.stage, Stage::LocatingOptimizer);
    let actions = run(&mut build, &[BuildEvent::OptimizerMissing, BuildEvent::Succeeded]);
    assert_eq!(actions, vec![BuildAction::RecommendOptimizer, BuildAction::Finish]);
    assert_eq!(build.outcome(), Some(Ok(())));
    assert_eq!(build.advance(BuildEvent::Succeeded), BuildAction::Finish);
}

#[test]
fn failed_post_processing_writes_nothing() {
    let scanner = registry();
    let mut build = ComponentBuild::new(&scanner, "compiled".to_string());
    run(&mut build, &[BuildEvent::Begin, BuildEvent::Succeeded]);
    assert_eq!(build.stage, Stage::PostProcessing);
    let error = BuildError::MemoryCeilingExceeded { requested: 17, allowed: 16 };
    let actions = run(
        &mut build,
        &[BuildEvent::Failed(error), BuildEvent::Succeeded, BuildEvent::Begin],
    );
    assert_eq!(actions, vec![BuildAction::Abort; 3]);
    assert_eq!(build.stage, Stage::Failed(error));
    assert_eq!(build.phase(), Phase::Failed);
    assert_eq!(build.outcome(), Some(Err(error)));
}

#[test]
fn failure_ends_the_build_from_every_stage() {
    let scanner = registry();
    for steps in 0..6 {
        let mut build = ComponentBuild::new(&scanner, "compiled".to_string());
        build.advance(BuildEvent::Begin);
        for _ in 0..steps {
            build.advance(BuildEvent::Succeeded);
        }
        assert!(!build.is_over());
        assert_eq!(build.outcome(), None);
        let error = BuildError::Io { file: ArtifactFile::Destination };
        assert_eq!(build.advance(BuildEvent::Failed(error)), BuildAction::Abort);
        assert_eq!(build.stage, Stage::Failed(error));
        assert!(build.is_over());
    }
}

#[test]
fn failed_optimizer_fails_the_build() {
    let scanner = registry();
    let mut build = ComponentBuild::new(&scanner, "inline".to_string());
    run(&mut build, &[BuildEvent::Begin, BuildEvent::Succeeded, BuildEvent::Succeeded, BuildEvent::Succeeded]);
    assert_eq!(build.stage, Stage::Optimizing);
    assert_eq!(
        build.advance(BuildEvent::Failed(BuildError::OptimizerFailed)),
        BuildAction::Abort
    );
    assert_eq!(build.outcome(), Some(Err(BuildError::OptimizerFailed)));
}

#[test]
fn event_out_of_turn_fails_the_build() {
    let scanner = registry();
    let mut build = ComponentBuild::new(&scanner, "inline".to_string());
    assert_eq!(build.advance(BuildEvent::Succeeded), BuildAction::Abort);
    assert_eq!(build.stage, Stage::Failed(BuildError::OutOfTurn));
    let mut build = ComponentBuild::new(&scanner, "inline".to_string());
    build.advance(BuildEvent::Begin);
    assert_eq!(build.advance(BuildEvent::OptimizerMissing), BuildAction::Abort);
    assert_eq!(build.stage, Stage::Failed(BuildError::OutOfTurn));
    let mut build = ComponentBuild::new(&scanner, "inline".to_string());
    build.advance(BuildEvent::Begin);
    assert_eq!(build.advance(BuildEvent::Begin), BuildAction::Abort);
    assert_eq!(build.stage, Stage::Failed(BuildError::OutOfTurn));
}

#[test]
fn failed_cross_compilation_fails_with_its_exit_status() {
    let scanner = registry();
    let mut build = ComponentBuild::new(&scanner, "compiled".to_string());
    assert_eq!(build.advance(BuildEvent::Begin), BuildAction::CrossCompile);
    let error = BuildError::ToolchainFailed { status: Some(101) };
    assert_eq!(build.advance(BuildEvent::Failed(error)), BuildAction::Abort);
    assert_eq!(build.outcome(), Some(Err(BuildError::ToolchainFailed { status: Some(101) })));
    assert_ne!(build.outcome(), Some(Err(BuildError::ToolchainFailed { status: Some(1) })));
}

#[test]
fn a_process_has_succeeded_only_with_the_exit_code_zero() {
    assert_eq!(BuildEvent::of_cross_compilation(Some(0)), BuildEvent::Succeeded);
    assert_eq!(
        BuildEvent::of_cross_compilation(Some(101)),
        BuildEvent::Failed(BuildError::ToolchainFailed { status: Some(101) })
    );
    assert_eq!(
        BuildEvent::of_cross_compilation(Some(-1)),
        BuildEvent::Failed(BuildError::ToolchainFailed { status: Some(-1) })
    );
    assert_eq!(
        BuildEvent::of_cross_compilation(None),
        BuildEvent::Failed(BuildError::ToolchainFailed { status: None })
    );
    assert_eq!(BuildEvent::of_optimizer_run(Some(0)), BuildEvent::Succeeded);
    assert_eq!(
        BuildEvent::of_optimizer_run(Some(1)),
        BuildEvent::Failed(BuildError::OptimizerFailed)
    );
    assert_eq!(BuildEvent::of_optimizer_run(None), BuildEvent::Failed(BuildError::OptimizerFailed));
    assert_eq!(BuildEvent::of_optimizer_search(true), BuildEvent::Succeeded);
    assert_eq!(BuildEvent::of_optimizer_search(false), BuildEvent::OptimizerMissing);
}

#[test]
fn failed_dead_code_elimination_fails_the_build() {
    assert_eq!(BuildEvent::of_tree_shaking(true), BuildEvent::Succeeded);
    assert_eq!(
        BuildEvent::of_tree_shaking(false),
        BuildEvent::Failed(BuildError::TreeShakingFailed)
    );
}

#[test]
fn only_a_nightly_or_development_toolchain_builds() {
    assert_eq!(BuildEvent::of_toolchain(Channel::Nightly), None);
    assert_eq!(BuildEvent::of_toolchain(Channel::Dev), None);
    assert_eq!(
        BuildEvent::of_toolchain(Channel::Stable),
        Some(BuildEvent::Failed(BuildError::UnsupportedChannel { channel: Channel::Stable }))
    );
    assert_eq!(
        BuildEvent::of_toolchain(Channel::Beta),
        Some(BuildEvent::Failed(BuildError::UnsupportedChannel { channel: Channel::Beta }))
    );
}
