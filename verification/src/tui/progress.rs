//! The progress of a container update, as it is shown.

use vstd::prelude::*;
use crate::docker::model::{ApplyProgress, ApplyStage, ProgressModel, StageModel, StageState};

verus! {

/// The status of a single apply step.
#[derive(Debug, Clone, Copy, PartialEq, Eq, Structural)]
pub enum StepStatus {
    Pending,
    Running,
    Done,
    Failed,
}

impl StepStatus {
    /// The status that a stage's state amounts to.
    pub open spec fn of(state: StageModel) -> StepStatus {
        match state {
            StageModel::Start => StepStatus::Running,
            StageModel::Done => StepStatus::Done,
            StageModel::Failed(_) => StepStatus::Failed,
        }
    }
}

/// The status that a stage's state amounts to.
pub fn step_status(state: &StageState) -> (r: StepStatus)
    ensures
        r == StepStatus::of(state@),
{
    match state {
        StageState::Start => StepStatus::Running,
        StageState::Done => StepStatus::Done,
        StageState::Failed(_) => StepStatus::Failed,
    }
}

/// How many lines of detail are kept.
pub const LOG_LIMIT: usize = 300;

/// Live state of an in-progress (or finished) container update.
#[derive(Debug)]
pub struct ApplyState {
    pub title: String,
    pub steps: Vec<(ApplyStage, StepStatus)>,
    pub rollback: Option<StepStatus>,
    pub log: Vec<String>,
    pub error: Option<String>,
    pub finished: bool,
    pub success: bool,
}

/// The state of a container update as mathematical values.
pub struct ApplyModel {
    pub title: Seq<char>,
    pub steps: Seq<(ApplyStage, StepStatus)>,
    pub rollback: Option<StepStatus>,
    pub log: Seq<Seq<char>>,
    pub error: Option<Seq<char>>,
    pub finished: bool,
    pub success: bool,
}

impl View for ApplyState {
    type V = ApplyModel;

    open spec fn view(&self) -> ApplyModel {
        ApplyModel {
            title: self.title@,
            steps: self.steps@,
            rollback: self.rollback,
            log: self.log.deep_view(),
            error: self.error.deep_view(),
            finished: self.finished,
            success: self.success,
        }
    }
}

impl DeepView for ApplyState {
    type V = ApplyModel;

    open spec fn deep_view(&self) -> ApplyModel {
        self@
    }
}

/// The last `n` elements, or all of them where there are fewer.
pub open spec fn last_of<A>(s: Seq<A>, n: nat) -> Seq<A> {
    if s.len() <= n {
        s
    } else {
        s.skip(s.len() - n)
    }
}

/// The place of the first step for `stage`, or the number of steps where there is none.
pub open spec fn step_place(steps: Seq<(ApplyStage, StepStatus)>, stage: ApplyStage) -> int
    decreases steps.len(),
{
    if steps.len() == 0 || steps[0].0 == stage {
        0
    } else {
        1 + step_place(steps.drop_first(), stage)
    }
}

proof fn lemma_step_place(steps: Seq<(ApplyStage, StepStatus)>, stage: ApplyStage, i: int)
    requires
        0 <= i <= steps.len(),
        i < steps.len() ==> steps[i].0 == stage,
        forall|j: int| 0 <= j < i ==> (#[trigger] steps[j]).0 != stage,
    ensures
        step_place(steps, stage) == i,
    decreases steps.len(),
{
    if i > 0 {
        let rest = steps.drop_first();
        assert(steps[0].0 != stage);
        assert forall|j: int| 0 <= j < i - 1 implies (#[trigger] rest[j]).0 != stage by {
            assert(rest[j] == steps[j + 1]);
        }
        if i < steps.len() {
            assert(rest[i - 1] == steps[i]);
        }
        lemma_step_place(rest, stage, i - 1);
    }
}

proof fn lemma_step_place_in_range(steps: Seq<(ApplyStage, StepStatus)>, stage: ApplyStage)
    ensures
        0 <= step_place(steps, stage) <= steps.len(),
        step_place(steps, stage) < steps.len() ==> steps[step_place(steps, stage)].0 == stage,
    decreases steps.len(),
{
    if steps.len() > 0 && steps[0].0 != stage {
        lemma_step_place_in_range(steps.drop_first(), stage);
    }
}

/// The steps after the first one for `stage` has got a status.
pub open spec fn marked(
    steps: Seq<(ApplyStage, StepStatus)>,
    stage: ApplyStage,
    status: StepStatus,
) -> Seq<(ApplyStage, StepStatus)> {
    if step_place(steps, stage) < steps.len() {
        steps.update(step_place(steps, stage), (stage, status))
    } else {
        steps
    }
}

impl ApplyModel {
    /// Nothing done yet.
    pub open spec fn fresh(title: Seq<char>) -> ApplyModel {
        ApplyModel {
            title,
            steps: ApplyStage::SEQUENCE@.map_values(|s: ApplyStage| (s, StepStatus::Pending)),
            rollback: None,
            log: Seq::empty(),
            error: None,
            finished: false,
            success: false,
        }
    }

    /// After a progress event.
    pub open spec fn after(self, progress: ProgressModel) -> ApplyModel {
        match progress {
            ProgressModel::Log(line) => ApplyModel {
                log: last_of(self.log.push(line), LOG_LIMIT as nat),
                ..self
            },
            ProgressModel::Stage(ApplyStage::Done, state) => ApplyModel {
                finished: true,
                success: state is Done,
                error: if self.error is None && state is Failed {
                    Some(state->Failed_0)
                } else {
                    self.error
                },
                ..self
            },
            ProgressModel::Stage(ApplyStage::Rollback, state) => ApplyModel {
                rollback: Some(StepStatus::of(state)),
                ..self
            },
            ProgressModel::Stage(stage, state) => ApplyModel {
                steps: marked(self.steps, stage, StepStatus::of(state)),
                error: match state {
                    StageModel::Failed(m) => Some(m),
                    _ => self.error,
                },
                ..self
            },
        }
    }

    /// The steps are the checklist in order, the log is short, and only what has finished can
    /// have succeeded.
    pub open spec fn sound(self) -> bool {
        &&& self.steps.len() == ApplyStage::SEQUENCE@.len()
        &&& forall|i: int|
            0 <= i < self.steps.len() ==> (#[trigger] self.steps[i]).0 == ApplyStage::SEQUENCE@[i]
        &&& self.log.len() <= LOG_LIMIT
        &&& self.success ==> self.finished
    }
}

impl ApplyState {
    /// Nothing done yet.
    pub fn new(title: String) -> (r: Self)
        ensures
            r@ == ApplyModel::fresh(title@),
    {
        let all = ApplyStage::SEQUENCE;
        let mut steps: Vec<(ApplyStage, StepStatus)> = Vec::new();
        let mut i: usize = 0;
        while i < 7
            invariant
                i <= 7,
                all@ == ApplyStage::SEQUENCE@,
                all@.len() == 7,
                steps@.len() == i,
                forall|j: int| 0 <= j < i ==> steps@[j] == (all@[j], StepStatus::Pending),
            decreases 7 - i,
        {
            steps.push((all[i], StepStatus::Pending));
            i = i + 1;
        }
        let r = ApplyState {
            title,
            steps,
            rollback: None,
            log: Vec::new(),
            error: None,
            finished: false,
            success: false,
        };
        assert(r@.steps =~= ApplyModel::fresh(title@).steps);
        assert(r@.log =~= Seq::<Seq<char>>::empty());
        r
    }

    /// Gives the first step for `stage` a status.
    fn mark(&mut self, stage: ApplyStage, status: StepStatus)
        ensures
            final(self)@ == (ApplyModel {
                steps: marked(old(self)@.steps, stage, status),
                ..old(self)@
            }),
    {
        let mut i: usize = 0;
        while i < self.steps.len()
            invariant
                *self == *old(self),
                i <= self.steps@.len(),
                forall|j: int| 0 <= j < i ==> (#[trigger] self.steps@[j]).0 != stage,
            decreases self.steps@.len() - i,
        {
            if self.steps[i].0 == stage {
                proof {
                    lemma_step_place(self.steps@, stage, i as int);
                }
                self.steps.set(i, (stage, status));
                return;
            }
            i = i + 1;
        }
        proof {
            lemma_step_place(self.steps@, stage, i as int);
        }
    }

    /// Adds a line of detail; the oldest goes where there are too many.
    fn note(&mut self, line: String)
        ensures
            final(self)@ == (ApplyModel {
                log: last_of(old(self)@.log.push(line@), LOG_LIMIT as nat),
                ..old(self)@
            }),
    {
        self.log.push(line);
        assert(self@.log =~= old(self)@.log.push(line@));
        let n = self.log.len();
        if n > LOG_LIMIT {
            let ghost all = self.log@;
            let tail = self.log.split_off(n - LOG_LIMIT);
            self.log = tail;
            assert(self@.log =~= last_of(old(self)@.log.push(line@), LOG_LIMIT as nat));
        }
    }

    /// Fold a progress event into the state.
    pub fn apply(&mut self, progress: ApplyProgress)
        ensures
            final(self)@ == old(self)@.after(progress@),
    {
        match progress {
            ApplyProgress::Log(line) => self.note(line),
            ApplyProgress::Stage(ApplyStage::Done, state) => {
                self.finished = true;
                self.success = matches!(state, StageState::Done);
                if let StageState::Failed(m) = state {
                    if self.error.is_none() {
                        self.error = Some(m);
                    }
                }
            },
            ApplyProgress::Stage(ApplyStage::Rollback, state) => {
                self.rollback = Some(step_status(&state));
            },
            ApplyProgress::Stage(stage, state) => {
                let status = step_status(&state);
                self.mark(stage, status);
                if let StageState::Failed(m) = state {
                    self.error = Some(m);
                }
            },
        }
    }
}

/// Every state of an update is sound: it starts so, and each progress event keeps it so.
pub proof fn law_apply_state_stays_sound(
    title: Seq<char>,
    state: ApplyModel,
    progress: ProgressModel,
)
    requires
        state.sound(),
    ensures
        ApplyModel::fresh(title).sound(),
        state.after(progress).sound(),
{
    match progress {
        ProgressModel::Stage(stage, st) => {
            lemma_step_place_in_range(state.steps, stage);
        },
        _ => {},
    }
}

/// The log always ends in the line that came last, and a line once dropped is older than every
/// line that is kept.
pub proof fn law_latest_output_is_kept(state: ApplyModel, line: Seq<char>)
    requires
        state.sound(),
    ensures
        state.after(ProgressModel::Log(line)).log.last() == line,
        state.log.len() < LOG_LIMIT ==> state.after(ProgressModel::Log(line)).log
            == state.log.push(line),
        state.log.len() == LOG_LIMIT ==> state.after(ProgressModel::Log(line)).log
            == state.log.drop_first().push(line),
{
    if state.log.len() == LOG_LIMIT {
        assert(last_of(state.log.push(line), LOG_LIMIT as nat) =~= state.log.drop_first().push(
            line,
        ));
    }
}

/// Once an update has finished, it stays finished.
pub proof fn law_finished_stays_finished(state: ApplyModel, progress: ProgressModel)
    requires
        state.finished,
    ensures
        state.after(progress).finished,
{
}

/// The steps of an update are shown from the first to the last, all pending before it begins;
/// nothing is logged, and it has neither failed nor come to an end.
pub proof fn law_update_begins_with_all_steps_pending(title: Seq<char>)
    ensures
        ({
            let s = ApplyModel::fresh(title);
            &&& s.title == title
            &&& s.steps.len() == 7
            &&& s.steps[0] == (ApplyStage::Inspect, StepStatus::Pending)
            &&& s.steps[1] == (ApplyStage::Pull, StepStatus::Pending)
            &&& s.steps[2] == (ApplyStage::Stop, StepStatus::Pending)
            &&& s.steps[3] == (ApplyStage::Rename, StepStatus::Pending)
            &&& s.steps[4] == (ApplyStage::Create, StepStatus::Pending)
            &&& s.steps[5] == (ApplyStage::Start, StepStatus::Pending)
            &&& s.steps[6] == (ApplyStage::Cleanup, StepStatus::Pending)
            &&& s.rollback is None && s.error is None && !s.finished && !s.success && s.log.len()
                == 0
        }),
{
}

/// An event of a stage changes the step of that stage and no other: it runs, is done or has
/// failed. A failure gives the reason, which stays until another failure gives one.
pub proof fn law_event_changes_its_own_step(state: ApplyModel, i: int, event: StageModel)
    requires
        state.sound(),
        0 <= i < state.steps.len(),
    ensures
        ({
            let t = state.after(ProgressModel::Stage(state.steps[i].0, event));
            &&& t.steps.len() == state.steps.len()
            &&& t.steps[i].0 == state.steps[i].0
            &&& event is Start ==> t.steps[i].1 == StepStatus::Running
            &&& event is Done ==> t.steps[i].1 == StepStatus::Done
            &&& event is Failed ==> t.steps[i].1 == StepStatus::Failed
            &&& forall|j: int|
                0 <= j < state.steps.len() && j != i ==> #[trigger] t.steps[j] == state.steps[j]
            &&& event matches StageModel::Failed(m) ==> t.error == Some(m)
            &&& !(event is Failed) ==> t.error == state.error
            &&& t.rollback == state.rollback && t.log == state.log && t.finished == state.finished
                && t.success == state.success
        }),
{
    let stage = state.steps[i].0;
    assert(stage == ApplyStage::SEQUENCE@[i]);
    assert forall|j: int| 0 <= j < i implies (#[trigger] state.steps[j]).0 != stage by {
        assert(state.steps[j].0 == ApplyStage::SEQUENCE@[j]);
    }
    lemma_step_place(state.steps, stage, i);
}

/// An update is over with its last event, and has succeeded exactly where that says so; the first
/// reason that was given stays. A rollback is shown beside the steps.
pub proof fn law_last_event_ends_the_update(state: ApplyModel, reason: Seq<char>)
    ensures
        ({
            let done = state.after(ProgressModel::Stage(ApplyStage::Done, StageModel::Done));
            let failed = state.after(
                ProgressModel::Stage(ApplyStage::Done, StageModel::Failed(reason)),
            );
            let back = state.after(ProgressModel::Stage(ApplyStage::Rollback, StageModel::Start));
            &&& done.finished && done.success && done.error == state.error
            &&& failed.finished && !failed.success
            &&& state.error is None ==> failed.error == Some(reason)
            &&& state.error is Some ==> failed.error == state.error
            &&& done.steps == state.steps && failed.steps == state.steps && back.steps
                == state.steps
            &&& back.rollback == Some(StepStatus::Running) && back.finished == state.finished
                && back.error == state.error
        }),
{
}

} // verus!
