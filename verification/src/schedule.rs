//! The schedule of a project: its components are built one after another, in
//! the order in which the project lists them, and the result of each is kept.

use vstd::prelude::*;
use crate::error::BuildError;
use crate::metadata::CrateMetadata;

verus! {

/// How the build of one component ended.
pub type ComponentOutcome = Result<(), BuildError>;

/// `at` is the place of the first failure among `outcomes`.
pub open spec fn is_first_failure(outcomes: Seq<ComponentOutcome>, at: int) -> bool {
    &&& 0 <= at < outcomes.len()
    &&& outcomes[at] is Err
    &&& forall|j: int| 0 <= j < at ==> #[trigger] outcomes[j] is Ok
}

/// How a schedule ended whose components ended with `outcomes`: well where
/// there was a component and each was built, and else with the first failure.
/// A schedule without components has built nothing, which is a failure too.
pub open spec fn schedule_outcome(outcomes: Seq<ComponentOutcome>) -> ComponentOutcome {
    if outcomes.len() == 0 {
        Err(BuildError::EmptySchedule)
    } else if exists|at: int| is_first_failure(outcomes, at) {
        outcomes[choose|at: int| is_first_failure(outcomes, at)]
    } else {
        Ok(())
    }
}

/// The first failure stands at one place only.
pub proof fn lemma_first_failure_unique(outcomes: Seq<ComponentOutcome>, a: int, b: int)
    requires
        is_first_failure(outcomes, a),
        is_first_failure(outcomes, b),
    ensures
        a == b,
{
    if a < b {
        assert(outcomes[a] is Ok);
    } else if b < a {
        assert(outcomes[b] is Ok);
    }
}

/// A schedule ends well only if each of its components was built: no failure
/// is lost to the components that came after it.
pub proof fn lemma_no_failure_is_discarded(outcomes: Seq<ComponentOutcome>)
    ensures
        schedule_outcome(outcomes) is Ok <==> outcomes.len() > 0 && forall|j: int|
            0 <= j < outcomes.len() ==> #[trigger] outcomes[j] is Ok,
        forall|at: int|
            is_first_failure(outcomes, at) ==> schedule_outcome(outcomes) == outcomes[at],
{
    assert forall|at: int| is_first_failure(outcomes, at) implies schedule_outcome(outcomes)
        == outcomes[at] by {
        lemma_first_failure_unique(outcomes, at, choose|at: int| is_first_failure(outcomes, at));
    }
    if outcomes.len() > 0 && !(forall|j: int|
        0 <= j < outcomes.len() ==> #[trigger] outcomes[j] is Ok) {
        lemma_some_failure_is_first(outcomes, outcomes.len() as int);
    }
}

/// Where one of the first `upto` outcomes is a failure, one of them is the
/// first failure.
proof fn lemma_some_failure_is_first(outcomes: Seq<ComponentOutcome>, upto: int)
    requires
        0 <= upto <= outcomes.len(),
        exists|j: int| 0 <= j < upto && #[trigger] outcomes[j] is Err,
    ensures
        exists|at: int| is_first_failure(outcomes, at),
    decreases upto,
{
    if exists|j: int| 0 <= j < upto - 1 && #[trigger] outcomes[j] is Err {
        lemma_some_failure_is_first(outcomes, upto - 1);
    } else {
        assert(is_first_failure(outcomes, upto - 1));
    }
}

/// Runs through the components of a schedule.
#[derive(Debug)]
pub struct ScheduleDriver {
    components: Vec<String>,
    outcomes: Vec<ComponentOutcome>,
}

impl ScheduleDriver {
    /// The names of the components, in the order of the schedule.
    pub closed spec fn components(&self) -> Seq<Seq<char>> {
        Seq::new(self.components@.len(), |i: int| self.components@[i]@)
    }

    /// The outcomes recorded so far, one for each component that was built,
    /// in the order of the schedule.
    pub closed spec fn outcomes(&self) -> Seq<ComponentOutcome> {
        self.outcomes@
    }

    /// No component has more than one outcome.
    pub open spec fn wf(&self) -> bool {
        self.outcomes().len() <= self.components().len()
    }

    /// Each component has its outcome.
    pub open spec fn finished(&self) -> bool {
        self.outcomes().len() >= self.components().len()
    }

    /// A driver for the components of a schedule, none of them built yet.
    pub fn new(components: Vec<String>) -> (driver: ScheduleDriver)
        ensures
            driver.wf(),
            driver.components() == Seq::new(components@.len(), |i: int| components@[i]@),
            driver.outcomes() == Seq::<ComponentOutcome>::empty(),
    {
        ScheduleDriver { components, outcomes: Vec::new() }
    }

    /// A driver for the schedule that a project declares. A project without
    /// a schedule is refused, and so is one whose schedule names no component:
    /// there is nothing to build.
    pub fn for_project(crate_metadata: &CrateMetadata) -> (res: Result<ScheduleDriver, BuildError>)
        ensures
            match crate_metadata.t3rn_composable_schedule {
                None => res matches Err(error) && error == BuildError::ScheduleNotDeclared,
                Some(schedule) => if schedule.composables@.len() == 0 {
                    res matches Err(error) && error == BuildError::EmptySchedule
                } else {
                    res matches Ok(driver) && driver.wf() && driver.components() == Seq::new(
                        schedule.composables@.len(),
                        |i: int| schedule.composables@[i]@,
                    ) && driver.outcomes() == Seq::<ComponentOutcome>::empty()
                },
            },
    {
        match &crate_metadata.t3rn_composable_schedule {
            None => Err(BuildError::ScheduleNotDeclared),
            Some(schedule) => {
                if schedule.composables.len() == 0 {
                    return Err(BuildError::EmptySchedule);
                }
                let mut components: Vec<String> = Vec::new();
                let mut i: usize = 0;
                while i < schedule.composables.len()
                    invariant
                        i <= schedule.composables.len(),
                        components@.len() == i,
                        forall|j: int| 0 <= j < i ==> components@[j]@ == schedule.composables@[j]@,
                    decreases schedule.composables.len() - i,
                {
                    components.push(schedule.composables[i].clone());
                    i += 1;
                }
                let driver = ScheduleDriver::new(components);
                assert(driver.components() =~= Seq::new(
                    schedule.composables@.len(),
                    |i: int| schedule.composables@[i]@,
                ));
                Ok(driver)
            },
        }
    }

    /// The component whose turn it is: the first without an outcome.
    pub fn current(&self) -> (component: Option<&String>)
        ensures
            match component {
                Some(name) => !self.finished() && name@ == self.components()[self.outcomes().len() as int],
                None => self.finished(),
            },
    {
        if self.outcomes.len() < self.components.len() {
            Some(&self.components[self.outcomes.len()])
        } else {
            None
        }
    }

    /// Whether each component has its outcome.
    pub fn is_finished(&self) -> (finished: bool)
        ensures
            finished == self.finished(),
    {
        self.outcomes.len() >= self.components.len()
    }

    /// Records how the build of the current component ended, and moves on to
    /// the next. Says whether there was a component to record it for; if not,
    /// nothing changes.
    pub fn record(&mut self, outcome: ComponentOutcome) -> (recorded: bool)
        ensures
            final(self).components() == old(self).components(),
            old(self).wf() ==> final(self).wf(),
            recorded == !old(self).finished(),
            final(self).outcomes() == (if recorded {
                old(self).outcomes().push(outcome)
            } else {
                old(self).outcomes()
            }),
    {
        if self.outcomes.len() < self.components.len() {
            self.outcomes.push(outcome);
            true
        } else {
            false
        }
    }

    /// The outcome of the component at `index`, if it was built.
    pub fn outcome_of(&self, index: usize) -> (outcome: Option<ComponentOutcome>)
        ensures
            outcome == (if index < self.outcomes().len() {
                Some(self.outcomes()[index as int])
            } else {
                None
            }),
    {
        if index < self.outcomes.len() {
            Some(self.outcomes[index])
        } else {
            None
        }
    }

    /// How the schedule ended: `None` while a component is still to be built.
    pub fn finish(&self) -> (result: Option<ComponentOutcome>)
        ensures
            result == (if self.finished() {
                Some(schedule_outcome(self.outcomes()))
            } else {
                None
            }),
    {
        if self.outcomes.len() < self.components.len() {
            return None;
        }
        if self.outcomes.len() == 0 {
            return Some(Err(BuildError::EmptySchedule));
        }
        let mut i: usize = 0;
        while i < self.outcomes.len()
            invariant
                self.finished(),
                i <= self.outcomes.len(),
                forall|j: int| 0 <= j < i ==> #[trigger] self.outcomes@[j] is Ok,
            decreases self.outcomes.len() - i,
        {
            if let Err(error) = self.outcomes[i] {
                proof {
                    assert(is_first_failure(self.outcomes@, i as int));
                    lemma_no_failure_is_discarded(self.outcomes@);
                }
                return Some(Err(error));
            }
            i += 1;
        }
        proof {
            lemma_no_failure_is_discarded(self.outcomes@);
        }
        Some(Ok(()))
    }
}

} // verus!
