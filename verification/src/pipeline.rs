//! The build of one component as a state machine: from the event that the
//! caller reports to the next state and to what the caller is to do next.

use vstd::prelude::*;
use crate::error::{BuildError, Channel};
use crate::scanner::{has_named, WatContractsScanner};

verus! {

/// The way in which a component is built.
#[derive(Clone, Copy, Debug, PartialEq, Eq, Structural)]
pub enum BuildPath {
    /// Its inline contract is compiled from text.
    Inline,
    /// The project is cross-compiled for it and the artifact post-processed.
    CrossCompile,
}

/// What a build is waiting for.
#[derive(Clone, Copy, Debug, PartialEq, Eq, Structural)]
pub enum Stage {
    /// Nothing was asked for yet.
    Pending,
    /// The inline contract is being compiled.
    CompilingInline,
    /// The project is being cross-compiled.
    CrossCompiling,
    /// The cross-compiled artifact is being read and processed.
    PostProcessing,
    /// The finished artifact is being written.
    WritingDestination,
    /// The optimizer is being looked for.
    LocatingOptimizer,
    /// The optimizer is running.
    Optimizing,
    /// The optimizer's output is taking the place of the finished artifact.
    ReplacingDestination,
    /// The caller is being told to install the optimizer.
    RecommendingOptimizer,
    /// The component is built.
    Done,
    /// The build was given up.
    Failed(BuildError),
}

/// The states of a build as its operator sees them.
#[derive(Clone, Copy, Debug, PartialEq, Eq, Structural)]
pub enum Phase {
    Pending,
    InlineCompile,
    CrossCompile,
    PostProcessed,
    Optimized,
    Done,
    Failed,
}

/// What the caller reports.
#[derive(Clone, Copy, Debug, PartialEq, Eq, Structural)]
pub enum BuildEvent {
    /// The build is to start.
    Begin,
    /// What was asked for has been done.
    Succeeded,
    /// The optimizer is not installed.
    OptimizerMissing,
    /// What was asked for could not be done.
    Failed(BuildError),
}

impl BuildEvent {
    /// The report on the toolchain before the cross-compilation: a toolchain
    /// of the stable or of the beta channel fails the build, and with one of
    /// the nightly or of the development channel there is nothing to report
    /// yet.
    pub fn of_toolchain(channel: Channel) -> (event: Option<BuildEvent>)
        ensures
            event == (if channel == Channel::Nightly || channel == Channel::Dev {
                None
            } else {
                Some(BuildEvent::Failed(BuildError::UnsupportedChannel { channel }))
            }),
    {
        match channel {
            Channel::Dev | Channel::Nightly => None,
            Channel::Stable | Channel::Beta => Some(
                BuildEvent::Failed(BuildError::UnsupportedChannel { channel }),
            ),
        }
    }

    /// The report of a cross-compilation that has ended with the exit code
    /// `status`, `None` standing for a process that was killed or never ran:
    /// it has succeeded only if it ended with the code 0, and has else failed
    /// with its status.
    pub fn of_cross_compilation(status: Option<i32>) -> (event: BuildEvent)
        ensures
            event == (if status == Some(0i32) {
                BuildEvent::Succeeded
            } else {
                BuildEvent::Failed(BuildError::ToolchainFailed { status })
            }),
    {
        match status {
            Some(0) => BuildEvent::Succeeded,
            _ => BuildEvent::Failed(BuildError::ToolchainFailed { status }),
        }
    }

    /// The report of dead-code elimination: where it gave up on the module,
    /// the build fails.
    pub fn of_tree_shaking(succeeded: bool) -> (event: BuildEvent)
        ensures
            event == (if succeeded {
                BuildEvent::Succeeded
            } else {
                BuildEvent::Failed(BuildError::TreeShakingFailed)
            }),
    {
        if succeeded {
            BuildEvent::Succeeded
        } else {
            BuildEvent::Failed(BuildError::TreeShakingFailed)
        }
    }

    /// The report of a search for the optimizer: a missing optimizer is no
    /// failure.
    pub fn of_optimizer_search(found: bool) -> (event: BuildEvent)
        ensures
            event == (if found {
                BuildEvent::Succeeded
            } else {
                BuildEvent::OptimizerMissing
            }),
    {
        if found {
            BuildEvent::Succeeded
        } else {
            BuildEvent::OptimizerMissing
        }
    }

    /// The report of a run of the optimizer that has ended with the exit code
    /// `status`: it has succeeded only if it ended with the code 0.
    pub fn of_optimizer_run(status: Option<i32>) -> (event: BuildEvent)
        ensures
            event == (if status == Some(0i32) {
                BuildEvent::Succeeded
            } else {
                BuildEvent::Failed(BuildError::OptimizerFailed)
            }),
    {
        match status {
            Some(0) => BuildEvent::Succeeded,
            _ => BuildEvent::Failed(BuildError::OptimizerFailed),
        }
    }
}

/// What the caller is to do next.
#[derive(Clone, Copy, Debug, PartialEq, Eq, Structural)]
pub enum BuildAction {
    /// Compile the inline contract of the component.
    CompileInline,
    /// Cross-compile the project for the component.
    CrossCompile,
    /// Read the cross-compiled artifact, eliminate its dead code and
    /// post-process it.
    PostProcess,
    /// Write the finished artifact to its destination.
    WriteDestination,
    /// Look for the optimizer on the search path.
    LocateOptimizer,
    /// Run the optimizer on the finished artifact.
    RunOptimizer,
    /// Report the sizes before and after, and move the optimizer's output
    /// over the finished artifact.
    ReplaceDestination,
    /// Recommend installing the optimizer.
    RecommendOptimizer,
    /// Nothing: the component is built.
    Finish,
    /// Nothing: the build was given up.
    Abort,
}

/// What the operator is told as a build moves on, one line for each of its
/// three steps.
#[derive(Clone, Copy, Debug, PartialEq, Eq, Structural)]
pub enum Announcement {
    /// The first step of an inline build: nothing is cross-compiled.
    SkippingCargoBuild,
    /// The second step of an inline build.
    CompilingInline,
    /// The first step of a cross-compiled build.
    BuildingCargoProject,
    /// The second step of a cross-compiled build.
    PostProcessing,
    /// The third step of either build.
    Optimizing,
}

/// The number of steps that a build announces.
pub const STEPS: u8 = 3;

impl Announcement {
    /// The step that the line announces, from 1 to [`STEPS`].
    pub open spec fn step_spec(self) -> u8 {
        match self {
            Announcement::SkippingCargoBuild | Announcement::BuildingCargoProject => 1,
            Announcement::CompilingInline | Announcement::PostProcessing => 2,
            Announcement::Optimizing => 3,
        }
    }

    /// The step that the line announces, from 1 to [`STEPS`].
    pub fn step(&self) -> (step: u8)
        ensures
            step == self.step_spec(),
            1 <= step <= STEPS,
    {
        match self {
            Announcement::SkippingCargoBuild | Announcement::BuildingCargoProject => 1,
            Announcement::CompilingInline | Announcement::PostProcessing => 2,
            Announcement::Optimizing => 3,
        }
    }

    /// What the line says, before the name of the component.
    pub fn text(&self) -> (text: &'static str)
        ensures
            text@ == (match self {
                Announcement::SkippingCargoBuild =>
                    "Skipping cargo build; found WAT contract - component:"@,
                Announcement::CompilingInline =>
                    "Compiling scanned WAT contract to WASM - component:"@,
                Announcement::BuildingCargoProject => "Building cargo project - component:"@,
                Announcement::PostProcessing => "Post processing wasm file - component:"@,
                Announcement::Optimizing => "Optimizing wasm file - component:"@,
            }),
    {
        match self {
            Announcement::SkippingCargoBuild => {
                "Skipping cargo build; found WAT contract - component:"
            },
            Announcement::CompilingInline => "Compiling scanned WAT contract to WASM - component:",
            Announcement::BuildingCargoProject => "Building cargo project - component:",
            Announcement::PostProcessing => "Post processing wasm file - component:",
            Announcement::Optimizing => "Optimizing wasm file - component:",
        }
    }
}

/// The lines that are announced before `action` is carried out.
pub open spec fn announced(action: BuildAction) -> Seq<Announcement> {
    match action {
        BuildAction::CompileInline => seq![
            Announcement::SkippingCargoBuild,
            Announcement::CompilingInline,
        ],
        BuildAction::CrossCompile => seq![Announcement::BuildingCargoProject],
        BuildAction::PostProcess => seq![Announcement::PostProcessing],
        BuildAction::LocateOptimizer => seq![Announcement::Optimizing],
        _ => Seq::empty(),
    }
}

impl BuildAction {
    /// The lines to announce before the action is carried out.
    pub fn announcements(&self) -> (lines: Vec<Announcement>)
        ensures
            lines@ == announced(*self),
    {
        let mut lines: Vec<Announcement> = Vec::new();
        match self {
            BuildAction::CompileInline => {
                lines.push(Announcement::SkippingCargoBuild);
                lines.push(Announcement::CompilingInline);
            },
            BuildAction::CrossCompile => {
                lines.push(Announcement::BuildingCargoProject);
            },
            BuildAction::PostProcess => {
                lines.push(Announcement::PostProcessing);
            },
            BuildAction::LocateOptimizer => {
                lines.push(Announcement::Optimizing);
            },
            _ => {},
        }
        assert(lines@ =~= announced(*self));
        lines
    }
}

/// The build of one component.
#[derive(Clone, Copy, Debug, PartialEq, Eq, Structural)]
pub struct ComponentBuild {
    pub path: BuildPath,
    pub stage: Stage,
}

/// Whether the action touches the finished artifact.
pub open spec fn touches_destination(action: BuildAction) -> bool {
    action == BuildAction::WriteDestination || action == BuildAction::ReplaceDestination
}

/// The state that follows `stage` on `event`, and what is then to be done.
///
/// A failure ends the build from any state in which something was asked for.
/// A build that has ended stays as it is. An event that was not asked for
/// ends the build as well.
pub open spec fn next_step(path: BuildPath, stage: Stage, event: BuildEvent) -> (
    Stage,
    BuildAction,
) {
    match (stage, event) {
        (Stage::Done, _) => (Stage::Done, BuildAction::Finish),
        (Stage::Failed(error), _) => (Stage::Failed(error), BuildAction::Abort),
        (Stage::Pending, BuildEvent::Begin) => match path {
            BuildPath::Inline => (Stage::CompilingInline, BuildAction::CompileInline),
            BuildPath::CrossCompile => (Stage::CrossCompiling, BuildAction::CrossCompile),
        },
        (Stage::Pending, _) => (Stage::Failed(BuildError::OutOfTurn), BuildAction::Abort),
        (_, BuildEvent::Failed(error)) => (Stage::Failed(error), BuildAction::Abort),
        (Stage::CompilingInline, BuildEvent::Succeeded) => (
            Stage::WritingDestination,
            BuildAction::WriteDestination,
        ),
        (Stage::CrossCompiling, BuildEvent::Succeeded) => (
            Stage::PostProcessing,
            BuildAction::PostProcess,
        ),
        (Stage::PostProcessing, BuildEvent::Succeeded) => (
            Stage::WritingDestination,
            BuildAction::WriteDestination,
        ),
        (Stage::WritingDestination, BuildEvent::Succeeded) => (
            Stage::LocatingOptimizer,
            BuildAction::LocateOptimizer,
        ),
        (Stage::LocatingOptimizer, BuildEvent::Succeeded) => (
            Stage::Optimizing,
            BuildAction::RunOptimizer,
        ),
        (Stage::LocatingOptimizer, BuildEvent::OptimizerMissing) => (
            Stage::RecommendingOptimizer,
            BuildAction::RecommendOptimizer,
        ),
        (Stage::Optimizing, BuildEvent::Succeeded) => (
            Stage::ReplacingDestination,
            BuildAction::ReplaceDestination,
        ),
        (Stage::ReplacingDestination, BuildEvent::Succeeded) => (Stage::Done, BuildAction::Finish),
        (Stage::RecommendingOptimizer, BuildEvent::Succeeded) => (
            Stage::Done,
            BuildAction::Finish,
        ),
        _ => (Stage::Failed(BuildError::OutOfTurn), BuildAction::Abort),
    }
}

/// The state of a build as its operator sees it.
pub open spec fn phase_of(path: BuildPath, stage: Stage) -> Phase {
    match stage {
        Stage::Pending => Phase::Pending,
        Stage::CompilingInline => Phase::InlineCompile,
        Stage::CrossCompiling | Stage::PostProcessing => Phase::CrossCompile,
        Stage::WritingDestination => match path {
            BuildPath::Inline => Phase::InlineCompile,
            BuildPath::CrossCompile => Phase::CrossCompile,
        },
        Stage::LocatingOptimizer | Stage::Optimizing => match path {
            BuildPath::Inline => Phase::InlineCompile,
            BuildPath::CrossCompile => Phase::PostProcessed,
        },
        Stage::ReplacingDestination | Stage::RecommendingOptimizer => Phase::Optimized,
        Stage::Done => Phase::Done,
        Stage::Failed(_) => Phase::Failed,
    }
}

/// The moves between the states that an operator sees: from pending to one
/// of the two ways of compiling, from cross-compilation to the post-processed
/// artifact, from there or from inline compilation to the optimized one, from
/// there to the end; and from any state to failure.
pub open spec fn phase_follows(before: Phase, after: Phase) -> bool {
    ||| after == before
    ||| after == Phase::Failed
    ||| before == Phase::Pending && (after == Phase::InlineCompile || after == Phase::CrossCompile)
    ||| before == Phase::CrossCompile && after == Phase::PostProcessed
    ||| before == Phase::InlineCompile && after == Phase::Optimized
    ||| before == Phase::PostProcessed && after == Phase::Optimized
    ||| before == Phase::Optimized && after == Phase::Done
}

impl ComponentBuild {
    /// The stage fits the path: only an inline build compiles inline, only a
    /// cross-compiled one cross-compiles and post-processes.
    pub open spec fn wf(&self) -> bool {
        match self.stage {
            Stage::CompilingInline => self.path == BuildPath::Inline,
            Stage::CrossCompiling | Stage::PostProcessing => self.path == BuildPath::CrossCompile,
            _ => true,
        }
    }

    /// A build that has not started. The component is compiled from its
    /// inline contract where `scanner` holds one under its name, and is
    /// cross-compiled where it holds none.
    pub fn new(scanner: &WatContractsScanner, compose: String) -> (build: ComponentBuild)
        ensures
            build.stage == Stage::Pending,
            build.path == (if has_named(scanner@, compose@) {
                BuildPath::Inline
            } else {
                BuildPath::CrossCompile
            }),
            build.wf(),
    {
        let path = match scanner.find_by_name(compose) {
            Some(_) => BuildPath::Inline,
            None => BuildPath::CrossCompile,
        };
        ComponentBuild { path, stage: Stage::Pending }
    }

    /// Takes the caller's report, moves to the next state, and says what is
    /// to be done next.
    pub fn advance(&mut self, event: BuildEvent) -> (action: BuildAction)
        ensures
            final(self).path == old(self).path,
            (final(self).stage, action) == next_step(old(self).path, old(self).stage, event),
            old(self).wf() ==> final(self).wf(),
    {
        let (stage, action) = match (self.stage, event) {
            (Stage::Done, _) => (Stage::Done, BuildAction::Finish),
            (Stage::Failed(error), _) => (Stage::Failed(error), BuildAction::Abort),
            (Stage::Pending, BuildEvent::Begin) => match self.path {
                BuildPath::Inline => (Stage::CompilingInline, BuildAction::CompileInline),
                BuildPath::CrossCompile => (Stage::CrossCompiling, BuildAction::CrossCompile),
            },
            (Stage::Pending, _) => (Stage::Failed(BuildError::OutOfTurn), BuildAction::Abort),
            (_, BuildEvent::Failed(error)) => (Stage::Failed(error), BuildAction::Abort),
            (Stage::CompilingInline, BuildEvent::Succeeded) => (
                Stage::WritingDestination,
                BuildAction::WriteDestination,
            ),
            (Stage::CrossCompiling, BuildEvent::Succeeded) => (
                Stage::PostProcessing,
                BuildAction::PostProcess,
            ),
            (Stage::PostProcessing, BuildEvent::Succeeded) => (
                Stage::WritingDestination,
                BuildAction::WriteDestination,
            ),
            (Stage::WritingDestination, BuildEvent::Succeeded) => (
                Stage::LocatingOptimizer,
                BuildAction::LocateOptimizer,
            ),
            (Stage::LocatingOptimizer, BuildEvent::Succeeded) => (
                Stage::Optimizing,
                BuildAction::RunOptimizer,
            ),
            (Stage::LocatingOptimizer, BuildEvent::OptimizerMissing) => (
                Stage::RecommendingOptimizer,
                BuildAction::RecommendOptimizer,
            ),
            (Stage::Optimizing, BuildEvent::Succeeded) => (
                Stage::ReplacingDestination,
                BuildAction::ReplaceDestination,
            ),
            (Stage::ReplacingDestination, BuildEvent::Succeeded) => (
                Stage::Done,
                BuildAction::Finish,
            ),
            (Stage::RecommendingOptimizer, BuildEvent::Succeeded) => (
                Stage::Done,
                BuildAction::Finish,
            ),
            _ => (Stage::Failed(BuildError::OutOfTurn), BuildAction::Abort),
        };
        self.stage = stage;
        action
    }

    /// The state of the build as its operator sees it.
    pub fn phase(&self) -> (phase: Phase)
        ensures
            phase == phase_of(self.path, self.stage),
    {
        match self.stage {
            Stage::Pending => Phase::Pending,
            Stage::CompilingInline => Phase::InlineCompile,
            Stage::CrossCompiling | Stage::PostProcessing => Phase::CrossCompile,
            Stage::WritingDestination => match self.path {
                BuildPath::Inline => Phase::InlineCompile,
                BuildPath::CrossCompile => Phase::CrossCompile,
            },
            Stage::LocatingOptimizer | Stage::Optimizing => match self.path {
                BuildPath::Inline => Phase::InlineCompile,
                BuildPath::CrossCompile => Phase::PostProcessed,
            },
            Stage::ReplacingDestination | Stage::RecommendingOptimizer => Phase::Optimized,
            Stage::Done => Phase::Done,
            Stage::Failed(_) => Phase::Failed,
        }
    }

    /// Whether the build has ended, well or badly.
    pub fn is_over(&self) -> (over: bool)
        ensures
            over == (self.stage == Stage::Done || self.stage is Failed),
    {
        match self.stage {
            Stage::Done | Stage::Failed(_) => true,
            _ => false,
        }
    }

    /// How the build ended: `None` while it is still under way.
    pub fn outcome(&self) -> (outcome: Option<Result<(), BuildError>>)
        ensures
            outcome == match self.stage {
                Stage::Done => Some(Ok::<(), BuildError>(())),
                Stage::Failed(error) => Some(Err::<(), BuildError>(error)),
                _ => None,
            },
    {
        match self.stage {
            Stage::Done => Some(Ok(())),
            Stage::Failed(error) => Some(Err(error)),
            _ => None,
        }
    }
}

/// The build after the caller has reported `events`, one after another.
pub open spec fn run(build: ComponentBuild, events: Seq<BuildEvent>) -> ComponentBuild
    decreases events.len(),
{
    if events.len() == 0 {
        build
    } else {
        let before = run(build, events.drop_last());
        ComponentBuild {
            path: before.path,
            stage: next_step(before.path, before.stage, events.last()).0,
        }
    }
}

/// What the caller is asked to do upon the last of `events`.
pub open spec fn last_action(build: ComponentBuild, events: Seq<BuildEvent>) -> BuildAction
    recommends
        events.len() > 0,
{
    let before = run(build, events.drop_last());
    next_step(before.path, before.stage, events.last()).1
}

/// A build keeps its path, and a stage that fits it.
pub proof fn lemma_run_keeps_path(build: ComponentBuild, events: Seq<BuildEvent>)
    ensures
        run(build, events).path == build.path,
        build.wf() ==> run(build, events).wf(),
    decreases events.len(),
{
    if events.len() > 0 {
        lemma_run_keeps_path(build, events.drop_last());
    }
}

/// Each report moves the build along one of the arrows between the states
/// that its operator sees, or leaves it where it is.
pub proof fn lemma_phase_follows(build: ComponentBuild, event: BuildEvent)
    requires
        build.wf(),
    ensures
        phase_follows(
            phase_of(build.path, build.stage),
            phase_of(build.path, next_step(build.path, build.stage, event).0),
        ),
{
}

/// A build that has failed stays failed, with the error it failed with, and
/// asks for nothing more.
pub proof fn lemma_failure_is_final(build: ComponentBuild, events: Seq<BuildEvent>)
    requires
        build.stage is Failed,
    ensures
        run(build, events).stage == build.stage,
        events.len() > 0 ==> last_action(build, events) == BuildAction::Abort,
    decreases events.len(),
{
    if events.len() > 0 {
        lemma_failure_is_final(build, events.drop_last());
    }
}

/// A build that is done stays done and asks for nothing more.
pub proof fn lemma_done_is_final(build: ComponentBuild, events: Seq<BuildEvent>)
    requires
        build.stage == Stage::Done,
    ensures
        run(build, events).stage == Stage::Done,
        events.len() > 0 ==> last_action(build, events) == BuildAction::Finish,
    decreases events.len(),
{
    if events.len() > 0 {
        lemma_done_is_final(build, events.drop_last());
    }
}

/// The finished artifact is written only upon the success of what makes it:
/// the compilation of the inline contract, or post-processing.
pub proof fn lemma_destination_written_on_success(build: ComponentBuild, event: BuildEvent)
    ensures
        next_step(build.path, build.stage, event).1 == BuildAction::WriteDestination ==> event
            == BuildEvent::Succeeded && (build.stage == Stage::CompilingInline || build.stage
            == Stage::PostProcessing),
        next_step(build.path, build.stage, event).1 == BuildAction::ReplaceDestination ==> event
            == BuildEvent::Succeeded && build.stage == Stage::Optimizing,
{
}

/// A component with an inline contract is never cross-compiled, and nothing
/// of it is post-processed, whatever the caller reports.
pub proof fn lemma_inline_never_cross_compiles(build: ComponentBuild, events: Seq<BuildEvent>)
    requires
        build.path == BuildPath::Inline,
        build.wf(),
        events.len() > 0,
    ensures
        last_action(build, events) != BuildAction::CrossCompile,
        last_action(build, events) != BuildAction::PostProcess,
{
    lemma_run_keeps_path(build, events.drop_last());
}

/// A component without an inline contract is cross-compiled first: whatever
/// else its build asks for, it has asked for the cross-compilation before.
pub proof fn lemma_cross_compile_comes_first(build: ComponentBuild, events: Seq<BuildEvent>)
    requires
        build.path == BuildPath::CrossCompile,
        build.stage == Stage::Pending,
        events.len() > 0,
    ensures
        next_step(build.path, build.stage, BuildEvent::Begin).1 == BuildAction::CrossCompile,
        last_action(build, events) != BuildAction::Abort ==> last_action(build, events.take(1))
            == BuildAction::CrossCompile,
        !(run(build, events).stage is Failed) ==> last_action(build, events.take(1))
            == BuildAction::CrossCompile,
    decreases events.len(),
{
    assert(events.take(1).drop_last() =~= Seq::<BuildEvent>::empty());
    assert(events.take(1).last() == events[0]);
    if events.len() == 1 {
        assert(events.take(1) =~= events);
    } else {
        let earlier = events.drop_last();
        lemma_cross_compile_comes_first(build, earlier);
        assert(earlier.take(1) =~= events.take(1));
        if run(build, earlier).stage is Failed {
            lemma_failure_is_final(run(build, earlier), seq![events.last()]);
            assert(seq![events.last()].drop_last() =~= Seq::<BuildEvent>::empty());
        }
    }
}

/// Where post-processing fails, the build fails with its error, and the
/// finished artifact is neither written nor replaced, whatever the caller
/// reports afterwards.
pub proof fn lemma_failed_processing_spares_destination(
    build: ComponentBuild,
    error: BuildError,
    events: Seq<BuildEvent>,
)
    requires
        build.stage == Stage::PostProcessing,
        events.len() > 0,
        events[0] == BuildEvent::Failed(error),
    ensures
        run(build, events).stage == Stage::Failed(error),
        !touches_destination(last_action(build, events)),
    decreases events.len(),
{
    assert(events.drop_last().len() == 0 ==> run(build, events.drop_last()) == build);
    if events.len() > 1 {
        lemma_failed_processing_spares_destination(build, error, events.drop_last());
    }
}

/// Where the optimizer is not installed, the build goes on to its end without
/// failing, and the finished artifact is neither written nor replaced,
/// whatever the caller reports afterwards.
pub proof fn lemma_missing_optimizer_spares_destination(
    build: ComponentBuild,
    events: Seq<BuildEvent>,
)
    requires
        build.stage == Stage::LocatingOptimizer,
        events.len() > 0,
        events[0] == BuildEvent::OptimizerMissing,
    ensures
        !touches_destination(last_action(build, events)),
        run(build, events).stage == Stage::RecommendingOptimizer || run(build, events).stage
            == Stage::Done || run(build, events).stage is Failed,
        events.len() == 2 && events[1] == BuildEvent::Succeeded ==> run(build, events).stage
            == Stage::Done,
    decreases events.len(),
{
    assert(events.drop_last().len() == 0 ==> run(build, events.drop_last()) == build);
    if events.len() > 1 {
        lemma_missing_optimizer_spares_destination(build, events.drop_last());
    }
}

/// How far a build has come: a report never takes it back.
pub open spec fn progress_of(stage: Stage) -> nat {
    match stage {
        Stage::Pending => 0,
        Stage::CompilingInline | Stage::CrossCompiling => 1,
        Stage::PostProcessing => 2,
        Stage::WritingDestination => 3,
        Stage::LocatingOptimizer => 4,
        Stage::Optimizing => 5,
        Stage::ReplacingDestination | Stage::RecommendingOptimizer => 6,
        Stage::Done => 7,
        Stage::Failed(_) => 8,
    }
}

/// What the caller is asked to do upon the event at `at`.
pub open spec fn action_at(build: ComponentBuild, events: Seq<BuildEvent>, at: int) -> BuildAction
    recommends
        0 <= at < events.len(),
{
    last_action(build, events.take(at + 1))
}

/// The longer a run, the further the build has come.
pub proof fn lemma_progress_never_falls(build: ComponentBuild, events: Seq<BuildEvent>, upto: int)
    requires
        0 <= upto <= events.len(),
    ensures
        progress_of(run(build, events.take(upto)).stage) <= progress_of(run(build, events).stage),
    decreases events.len() - upto,
{
    if upto < events.len() {
        lemma_progress_never_falls(build, events.drop_last(), upto);
        assert(events.drop_last().take(upto) =~= events.take(upto));
    } else {
        assert(events.take(upto) =~= events);
    }
}

/// In the build of a component the finished artifact is written once at most:
/// it comes from the inline contract or from the cross-compiled and processed
/// artifact, never from both, and never twice.
pub proof fn lemma_destination_written_once(
    build: ComponentBuild,
    events: Seq<BuildEvent>,
    first: int,
    second: int,
)
    requires
        0 <= first < second < events.len(),
        action_at(build, events, first) == BuildAction::WriteDestination,
    ensures
        action_at(build, events, second) != BuildAction::WriteDestination,
{
    let early = events.take(first + 1);
    let late = events.take(second + 1);
    assert(late.drop_last() =~= events.take(second));
    assert(events.take(second).take(first + 1) =~= early);
    lemma_progress_never_falls(build, events.take(second), first + 1);
    assert(run(build, early).stage == Stage::WritingDestination);
}

} // verus!
