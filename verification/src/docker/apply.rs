//! Applying an update to a container: pull the new image, recreate the container in place, and
//! put the previous container back where that fails.
//!
//! The work itself is done elsewhere: [`ApplyRun`] names the next piece of it, and takes the
//! outcome.

use vstd::prelude::*;
use crate::docker::model::{ApplyProgress, ApplyStage, ProgressModel, StageModel, StageState};

verus! {

/// A run of the update of one container.
#[derive(Debug)]
pub struct ApplyRun {
    /// The stage whose outcome is awaited.
    pub stage: ApplyStage,
    /// Why the update failed, where it did.
    pub failure: Option<String>,
}

/// A run as mathematical values.
pub struct RunModel {
    pub stage: ApplyStage,
    pub failure: Option<Seq<char>>,
}

impl View for ApplyRun {
    type V = RunModel;

    open spec fn view(&self) -> RunModel {
        RunModel { stage: self.stage, failure: self.failure.deep_view() }
    }
}

/// What a run needs next: the work of a stage, or nothing where it is over.
#[derive(Debug, Clone, Copy, PartialEq, Eq, Structural)]
pub enum ApplyWork {
    /// Do the work of this stage.
    Run(ApplyStage),
    /// The run is over; whether the new container is in place.
    Over(bool),
}

/// The stage that follows a stage that succeeded.
pub open spec fn following(stage: ApplyStage) -> ApplyStage {
    match stage {
        ApplyStage::Inspect => ApplyStage::Pull,
        ApplyStage::Pull => ApplyStage::Stop,
        ApplyStage::Stop => ApplyStage::Rename,
        ApplyStage::Rename => ApplyStage::Create,
        ApplyStage::Create => ApplyStage::Start,
        ApplyStage::Start => ApplyStage::Cleanup,
        _ => ApplyStage::Done,
    }
}

/// Whether the previous container has been touched when `stage` is under way, and the new one
/// is not yet running.
pub open spec fn must_restore(stage: ApplyStage) -> bool {
    stage == ApplyStage::Stop || stage == ApplyStage::Rename || stage == ApplyStage::Create
        || stage == ApplyStage::Start
}

/// A run, what it reports and what it needs next.
pub struct RunStep {
    pub run: RunModel,
    pub reports: Seq<ProgressModel>,
    pub work: ApplyWork,
}

/// The outcome of a stage.
pub open spec fn stage_report(stage: ApplyStage, failure: Option<Seq<char>>) -> ProgressModel {
    ProgressModel::Stage(
        stage,
        match failure {
            Some(m) => StageModel::Failed(m),
            None => StageModel::Done,
        },
    )
}

/// A stage begins.
pub open spec fn stage_begins(stage: ApplyStage) -> ProgressModel {
    ProgressModel::Stage(stage, StageModel::Start)
}

impl RunModel {
    /// Goes on with `stage`.
    pub open spec fn go_on(self, stage: ApplyStage, told: Seq<ProgressModel>) -> RunStep {
        RunStep {
            run: RunModel { stage, ..self },
            reports: told.push(stage_begins(stage)),
            work: ApplyWork::Run(stage),
        }
    }

    /// Comes to its end.
    pub open spec fn end(self, told: Seq<ProgressModel>) -> RunStep {
        RunStep {
            run: RunModel { stage: ApplyStage::Done, ..self },
            reports: told.push(stage_report(ApplyStage::Done, self.failure)),
            work: ApplyWork::Over(self.failure is None),
        }
    }

    /// What follows the outcome of the stage under way.
    pub open spec fn after(self, failure: Option<Seq<char>>) -> RunStep {
        let told = seq![stage_report(self.stage, failure)];
        match self.stage {
            ApplyStage::Done => RunStep {
                run: self,
                reports: Seq::empty(),
                work: ApplyWork::Over(self.failure is None),
            },
            ApplyStage::Rollback => self.end(told),
            ApplyStage::Cleanup => self.end(told),
            _ => match failure {
                None => self.go_on(following(self.stage), told),
                Some(m) => {
                    let failed = RunModel { failure, ..self };
                    if must_restore(self.stage) {
                        failed.go_on(ApplyStage::Rollback, told)
                    } else {
                        failed.end(told)
                    }
                },
            },
        }
    }
}

/// The report of a stage's outcome.
fn report(stage: ApplyStage, failure: &Option<String>) -> (r: ApplyProgress)
    ensures
        r@ == stage_report(stage, failure.deep_view()),
{
    ApplyProgress::Stage(
        stage,
        match failure {
            Some(m) => StageState::Failed(m.clone()),
            None => StageState::Done,
        },
    )
}

impl ApplyRun {
    /// Begins the update of a container with the inspection of it.
    pub fn begin() -> (r: (Self, ApplyProgress, ApplyWork))
        ensures
            r.0@ == (RunModel { stage: ApplyStage::Inspect, failure: None }),
            r.1@ == stage_begins(ApplyStage::Inspect),
            r.2 == ApplyWork::Run(ApplyStage::Inspect),
    {
        (
            ApplyRun { stage: ApplyStage::Inspect, failure: None },
            ApplyProgress::Stage(ApplyStage::Inspect, StageState::Start),
            ApplyWork::Run(ApplyStage::Inspect),
        )
    }

    /// Goes on with `stage`.
    fn go_on(&mut self, stage: ApplyStage, told: Vec<ApplyProgress>) -> (r: (
        Vec<ApplyProgress>,
        ApplyWork,
    ))
        ensures
            final(self)@ == old(self)@.go_on(stage, told.deep_view()).run,
            r.0.deep_view() == old(self)@.go_on(stage, told.deep_view()).reports,
            r.1 == old(self)@.go_on(stage, told.deep_view()).work,
    {
        let mut out = told;
        let ghost before = out.deep_view();
        self.stage = stage;
        out.push(ApplyProgress::Stage(stage, StageState::Start));
        assert(out.deep_view() =~= before.push(stage_begins(stage)));
        (out, ApplyWork::Run(stage))
    }

    /// Comes to its end.
    fn end(&mut self, told: Vec<ApplyProgress>) -> (r: (Vec<ApplyProgress>, ApplyWork))
        ensures
            final(self)@ == old(self)@.end(told.deep_view()).run,
            r.0.deep_view() == old(self)@.end(told.deep_view()).reports,
            r.1 == old(self)@.end(told.deep_view()).work,
    {
        let mut out = told;
        let ghost before = out.deep_view();
        self.stage = ApplyStage::Done;
        out.push(report(ApplyStage::Done, &self.failure));
        assert(out.deep_view() =~= before.push(
            stage_report(ApplyStage::Done, self.failure.deep_view()),
        ));
        (out, ApplyWork::Over(self.failure.is_none()))
    }

    /// Takes the outcome of the stage under way (`failure` where it went wrong), and returns
    /// what to report and what is needed next.
    pub fn next(&mut self, failure: Option<String>) -> (r: (Vec<ApplyProgress>, ApplyWork))
        ensures
            final(self)@ == old(self)@.after(failure.deep_view()).run,
            r.0.deep_view() == old(self)@.after(failure.deep_view()).reports,
            r.1 == old(self)@.after(failure.deep_view()).work,
    {
        let stage = self.stage;
        let mut told: Vec<ApplyProgress> = Vec::new();
        assert(told.deep_view() =~= Seq::<ProgressModel>::empty());
        if stage == ApplyStage::Done {
            return (told, ApplyWork::Over(self.failure.is_none()));
        }
        told.push(report(stage, &failure));
        assert(told.deep_view() =~= seq![stage_report(stage, failure.deep_view())]);
        if stage == ApplyStage::Rollback || stage == ApplyStage::Cleanup {
            return self.end(told);
        }
        if failure.is_some() {
            self.failure = failure;
            if stage == ApplyStage::Stop || stage == ApplyStage::Rename || stage
                == ApplyStage::Create || stage == ApplyStage::Start {
                self.go_on(ApplyStage::Rollback, told)
            } else {
                self.end(told)
            }
        } else {
            let next = match stage {
                ApplyStage::Inspect => ApplyStage::Pull,
                ApplyStage::Pull => ApplyStage::Stop,
                ApplyStage::Stop => ApplyStage::Rename,
                ApplyStage::Rename => ApplyStage::Create,
                ApplyStage::Create => ApplyStage::Start,
                ApplyStage::Start => ApplyStage::Cleanup,
                _ => ApplyStage::Done,
            };
            self.go_on(next, told)
        }
    }
}

// ── Laws ───────────────────────────────────────────────────────────────────

/// What holds of every run that began with [`ApplyRun::begin`]: it has failed exactly when it
/// is rolling back, or over with a failure.
pub open spec fn sound(run: RunModel) -> bool {
    match run.stage {
        ApplyStage::Rollback => run.failure is Some,
        ApplyStage::Done => true,
        _ => run.failure is None,
    }
}

/// A run begins sound and stays sound.
pub proof fn law_runs_stay_sound(run: RunModel, failure: Option<Seq<char>>)
    ensures
        sound(RunModel { stage: ApplyStage::Inspect, failure: None }),
        sound(run) ==> sound(run.after(failure).run),
{
}

/// Where a stage fails after the previous container has been touched and before the new one
/// runs, the next work is to put the previous container back, and the run then ends as failed.
pub proof fn law_previous_container_is_restored(
    run: RunModel,
    reason: Seq<char>,
    outcome: Option<Seq<char>>,
)
    requires
        must_restore(run.stage),
    ensures
        run.after(Some(reason)).work == ApplyWork::Run(ApplyStage::Rollback),
        run.after(Some(reason)).run.after(outcome).work == ApplyWork::Over(false),
{
}

/// The previous container is removed only when the new one has been started: its removal is
/// asked for only upon the success of that stage.
pub proof fn law_removed_only_after_start(run: RunModel, failure: Option<Seq<char>>)
    ensures
        run.after(failure).work == ApplyWork::Run(ApplyStage::Cleanup) ==> run.stage
            == ApplyStage::Start && failure is None,
{
}

/// How many stages a run can still go through.
pub open spec fn stages_left(stage: ApplyStage) -> nat {
    match stage {
        ApplyStage::Inspect => 7,
        ApplyStage::Pull => 6,
        ApplyStage::Stop => 5,
        ApplyStage::Rename => 4,
        ApplyStage::Create => 3,
        ApplyStage::Start => 2,
        ApplyStage::Cleanup => 1,
        ApplyStage::Rollback => 1,
        ApplyStage::Done => 0,
    }
}

/// Every run ends: each outcome brings it closer to its end.
pub proof fn law_runs_end(run: RunModel, failure: Option<Seq<char>>)
    ensures
        run.stage != ApplyStage::Done ==> stages_left(run.after(failure).run.stage) < stages_left(
            run.stage,
        ),
        run.after(failure).work is Over <==> run.after(failure).run.stage == ApplyStage::Done,
{
}

/// The stages of a run that goes well, one after the other: inspect, pull, stop, set aside,
/// create, start, and only then remove the previous container.
pub proof fn law_stages_follow_in_order(run: RunModel)
    ensures
        run.stage == ApplyStage::Inspect ==> run.after(None).work == ApplyWork::Run(
            ApplyStage::Pull,
        ),
        run.stage == ApplyStage::Pull ==> run.after(None).work == ApplyWork::Run(ApplyStage::Stop),
        run.stage == ApplyStage::Stop ==> run.after(None).work == ApplyWork::Run(
            ApplyStage::Rename,
        ),
        run.stage == ApplyStage::Rename ==> run.after(None).work == ApplyWork::Run(
            ApplyStage::Create,
        ),
        run.stage == ApplyStage::Create ==> run.after(None).work == ApplyWork::Run(
            ApplyStage::Start,
        ),
        run.stage == ApplyStage::Start ==> run.after(None).work == ApplyWork::Run(
            ApplyStage::Cleanup,
        ),
        run.stage == ApplyStage::Cleanup ==> run.after(None).work == ApplyWork::Over(
            run.failure is None,
        ),
        run.after(None).work matches ApplyWork::Run(next) ==> run.after(None).run.stage == next,
        run.after(None).run.failure == run.failure,
{
}

/// A run that fails before the previous container is touched ends at once; from then on, until
/// the new container runs, it rolls back first. Once the new container runs the update has
/// succeeded, also where the previous container cannot be removed.
pub proof fn law_failures_roll_back_what_was_touched(run: RunModel, reason: Seq<char>)
    ensures
        run.stage == ApplyStage::Inspect || run.stage == ApplyStage::Pull ==> run.after(
            Some(reason),
        ).work == ApplyWork::Over(false),
        run.stage == ApplyStage::Stop || run.stage == ApplyStage::Rename || run.stage
            == ApplyStage::Create || run.stage == ApplyStage::Start ==> run.after(
            Some(reason),
        ).work == ApplyWork::Run(ApplyStage::Rollback),
        run.stage == ApplyStage::Cleanup && run.failure is None ==> run.after(Some(reason)).work
            == ApplyWork::Over(true),
        run.stage != ApplyStage::Cleanup && run.stage != ApplyStage::Rollback && run.stage
            != ApplyStage::Done ==> run.after(Some(reason)).run.failure == Some(reason),
        run.stage == ApplyStage::Rollback ==> run.after(Some(reason)).run.failure == run.failure,
{
}

/// Every outcome is told: first that of the stage, then the stage that begins, or at the end of
/// the run whether it failed and why; a run that is over tells nothing more.
pub proof fn law_every_outcome_is_told(run: RunModel, failure: Option<Seq<char>>)
    requires
        run.stage != ApplyStage::Done,
    ensures
        ({
            let told = run.after(failure).reports;
            let outcome = match failure {
                Some(m) => StageModel::Failed(m),
                None => StageModel::Done,
            };
            let whole = match run.after(failure).run.failure {
                Some(m) => StageModel::Failed(m),
                None => StageModel::Done,
            };
            &&& told.len() == 2
            &&& told[0] == ProgressModel::Stage(run.stage, outcome)
            &&& run.after(failure).work matches ApplyWork::Run(next) ==> told[1]
                == ProgressModel::Stage(next, StageModel::Start)
            &&& run.after(failure).work is Over ==> told[1] == ProgressModel::Stage(
                ApplyStage::Done,
                whole,
            )
        }),
{
}

/// A run that is over stays as it is, and tells nothing.
pub proof fn law_run_over_stays_over(run: RunModel, failure: Option<Seq<char>>)
    requires
        run.stage == ApplyStage::Done,
    ensures
        run.after(failure).run == run,
        run.after(failure).reports.len() == 0,
        run.after(failure).work == ApplyWork::Over(run.failure is None),
{
}

} // verus!
