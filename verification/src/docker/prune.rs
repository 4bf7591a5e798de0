//! Pruning everything unused: what is pruned, in which order, and what is said of it.

use vstd::prelude::*;
use crate::docker::usage;
use crate::text::cat2;
use crate::util;
use crate::util::format_bytes;

verus! {

/// A single prune that the engine can be asked for.
#[derive(Debug, Clone, Copy, PartialEq, Eq, Structural)]
pub enum PruneStep {
    /// Stopped containers.
    Containers,
    /// Images: all unused ones, or only the dangling.
    Images(bool),
    /// Unused volumes.
    Volumes,
    BuildCache,
}

/// The prunes that together remove everything unused. Stopped containers go first: an image or
/// a volume that only they use is unused behind them.
pub open spec fn everything() -> Seq<PruneStep> {
    seq![
        PruneStep::Containers,
        PruneStep::Images(true),
        PruneStep::Volumes,
        PruneStep::BuildCache,
    ]
}

/// The prunes that together remove everything unused, in order.
pub fn everything_unused() -> (r: Vec<PruneStep>)
    ensures
        r@ == everything(),
{
    let r = vec![
        PruneStep::Containers,
        PruneStep::Images(true),
        PruneStep::Volumes,
        PruneStep::BuildCache,
    ];
    assert(r@ =~= everything());
    r
}

/// The filters of an image prune: only dangling images, unless all unused ones are to go.
pub open spec fn image_filters(all_unused: bool) -> Seq<(Seq<char>, Seq<Seq<char>>)> {
    if all_unused {
        Seq::empty()
    } else {
        seq![("dangling"@, seq!["true"@])]
    }
}

/// The filters of an image prune: none where all unused images are to go, else the one that
/// keeps to dangling images.
pub fn prune_filters(all_unused: bool) -> (r: Vec<(String, Vec<String>)>)
    ensures
        r.deep_view() == image_filters(all_unused),
{
    let mut r: Vec<(String, Vec<String>)> = Vec::new();
    if !all_unused {
        let values = vec!["true".to_string()];
        assert(values.deep_view() =~= seq!["true"@]);
        r.push(("dangling".to_string(), values));
    }
    assert(r.deep_view() =~= image_filters(all_unused));
    r
}

/// What a prune freed; one that failed freed nothing.
pub open spec fn freed(result: Option<i64>) -> int {
    usage::or_zero(result)
}

/// What comes next in a run of prunes.
#[derive(Debug, PartialEq, Eq)]
pub enum PruneWork {
    /// A prune is to be made.
    Run(PruneStep),
    /// Nothing is left; the message that says what was freed, or `None` where the bytes cannot
    /// be added up in 64 bits.
    Over(Option<String>),
}

/// What comes next, as mathematical values.
pub enum WorkModel {
    Run(PruneStep),
    Over(Option<Seq<char>>),
}

impl View for PruneWork {
    type V = WorkModel;

    open spec fn view(&self) -> WorkModel {
        match self {
            PruneWork::Run(step) => WorkModel::Run(*step),
            PruneWork::Over(message) => WorkModel::Over(message.deep_view()),
        }
    }
}

/// A run of prunes, one after the other.
#[derive(Debug)]
pub struct PruneRun {
    steps: Vec<PruneStep>,
    /// How many of the steps are done.
    done: usize,
    /// What they freed, where that can be added up.
    total: Option<i64>,
}

/// A run of prunes as mathematical values.
pub struct PruneModel {
    /// The prunes that are still to be made.
    pub left: Seq<PruneStep>,
    /// What the others freed, where that can be added up.
    pub total: Option<i64>,
}

impl View for PruneRun {
    type V = PruneModel;

    closed spec fn view(&self) -> PruneModel {
        PruneModel { left: self.steps@.skip(self.done as int), total: self.total }
    }
}

/// A total with what one more prune freed.
pub open spec fn raised(total: Option<i64>, result: Option<i64>) -> Option<i64> {
    match total {
        Some(n) => if i64::MIN <= n + freed(result) <= i64::MAX {
            Some((n + freed(result)) as i64)
        } else {
            None
        },
        None => None,
    }
}

impl PruneModel {
    /// A run before its first prune.
    pub open spec fn start(steps: Seq<PruneStep>) -> PruneModel {
        PruneModel { left: steps, total: Some(0) }
    }

    /// What comes next.
    pub open spec fn work(self) -> WorkModel {
        if self.left.len() > 0 {
            WorkModel::Run(self.left[0])
        } else {
            WorkModel::Over(
                match self.total {
                    Some(n) => Some("pruned everything unused · "@ + util::bytes_text(n)),
                    None => None,
                },
            )
        }
    }

    /// The run behind a prune that freed so much, or failed. A run that is over stays as it is.
    pub open spec fn after(self, result: Option<i64>) -> PruneModel {
        if self.left.len() > 0 {
            PruneModel { left: self.left.drop_first(), total: raised(self.total, result) }
        } else {
            self
        }
    }

    /// The run behind so many prunes.
    pub open spec fn after_all(self, results: Seq<Option<i64>>) -> PruneModel
        decreases results.len(),
    {
        if results.len() == 0 {
            self
        } else {
            self.after_all(results.drop_last()).after(results.last())
        }
    }
}

impl PruneRun {
    #[verifier::type_invariant]
    spec fn within_steps(self) -> bool {
        self.done <= self.steps@.len()
    }

    fn work(&self) -> (r: PruneWork)
        ensures
            r@ == self@.work(),
    {
        proof {
            use_type_invariant(self);
        }
        if self.done < self.steps.len() {
            return PruneWork::Run(self.steps[self.done]);
        }
        match self.total {
            Some(n) => {
                let message = cat2("pruned everything unused · ", format_bytes(n).as_str());
                PruneWork::Over(Some(message))
            },
            None => PruneWork::Over(None),
        }
    }

    /// Begins a run of these prunes, and returns what comes first.
    pub fn begin(steps: Vec<PruneStep>) -> (r: (Self, PruneWork))
        ensures
            r.0@ == PruneModel::start(steps@),
            r.1@ == PruneModel::start(steps@).work(),
    {
        let run = PruneRun { steps, done: 0, total: Some(0) };
        assert(run@.left =~= steps@);
        let work = run.work();
        (run, work)
    }

    /// Takes what the prune under way freed (`None` where it failed), and returns what comes
    /// next. A failed prune stops nothing.
    pub fn next(&mut self, result: Option<i64>) -> (r: PruneWork)
        ensures
            final(self)@ == old(self)@.after(result),
            r@ == old(self)@.after(result).work(),
    {
        proof {
            use_type_invariant(&*self);
        }
        if self.done < self.steps.len() {
            let total = match self.total {
                Some(n) => n.checked_add(result.unwrap_or(0)),
                None => None,
            };
            self.done = self.done + 1;
            self.total = total;
            assert(self@.left =~= old(self)@.left.drop_first());
        }
        self.work()
    }
}

// ── Laws ───────────────────────────────────────────────────────────────────

/// What each prune freed.
pub open spec fn freed_each(results: Seq<Option<i64>>) -> Seq<int> {
    results.map_values(|r: Option<i64>| freed(r))
}

/// Every prune of a run is asked for once, in order, whether those before it failed or not; the
/// run then ends with the sum of what was freed.
pub proof fn law_every_prune_is_made(steps: Seq<PruneStep>, results: Seq<Option<i64>>)
    requires
        results.len() <= steps.len(),
    ensures
        results.len() < steps.len() ==> PruneModel::start(steps).after_all(results).work()
            == WorkModel::Run(steps[results.len() as int]),
        results.len() == steps.len() ==> PruneModel::start(steps).after_all(results).work()
            == WorkModel::Over(
            if usage::adds_up(freed_each(results)) {
                Some(
                    "pruned everything unused · "@ + util::bytes_text(
                        usage::sum(freed_each(results)) as i64,
                    ),
                )
            } else {
                None
            },
        ),
{
    lemma_run(steps, results);
}

proof fn lemma_run(steps: Seq<PruneStep>, results: Seq<Option<i64>>)
    requires
        results.len() <= steps.len(),
    ensures
        ({
            let run = PruneModel::start(steps).after_all(results);
            &&& run.left == steps.skip(results.len() as int)
            &&& run.total == (if usage::adds_up(freed_each(results)) {
                Some(usage::sum(freed_each(results)) as i64)
            } else {
                None
            })
        }),
    decreases results.len(),
{
    let all = freed_each(results);
    if results.len() == 0 {
        assert(steps.skip(0) =~= steps);
        assert forall|k: int| 0 <= k <= all.len() implies i64::MIN <= #[trigger] usage::sum(
            all.take(k),
        ) <= i64::MAX by {
            assert(all.take(k).len() == 0);
        }
    } else {
        let before = results.drop_last();
        lemma_run(steps, before);
        let some = freed_each(before);
        let n = before.len() as int;
        assert(all.drop_last() =~= some);
        assert(all.take(n + 1) =~= all);
        assert(some.take(n) =~= some);
        assert forall|k: int| 0 <= k <= n implies all.take(k) == #[trigger] some.take(k) by {
            assert(all.take(k) =~= some.take(k));
        }
        assert(steps.skip(n).drop_first() =~= steps.skip(n + 1));
        if usage::adds_up(some) {
            assert(i64::MIN <= usage::sum(some.take(n)) <= i64::MAX);
            if i64::MIN <= usage::sum(all) <= i64::MAX {
                assert forall|k: int| 0 <= k <= all.len() implies i64::MIN
                    <= #[trigger] usage::sum(all.take(k)) <= i64::MAX by {
                    if k <= n {
                        assert(all.take(k) == some.take(k));
                    }
                }
            } else {
                assert(!(i64::MIN <= usage::sum(all.take(n + 1)) <= i64::MAX));
            }
        } else {
            let k = choose|k: int|
                0 <= k <= some.len() && !(i64::MIN <= #[trigger] usage::sum(some.take(k))
                    <= i64::MAX);
            assert(all.take(k) == some.take(k));
            assert(!(i64::MIN <= usage::sum(all.take(k)) <= i64::MAX));
        }
    }
}

/// Everything unused is removed in four prunes, each made once: stopped containers before the
/// images and the volumes that only they use, and of the images all that are unused.
pub proof fn law_containers_are_pruned_first()
    ensures
        everything().len() == 4,
        everything()[0] == PruneStep::Containers,
        everything().contains(PruneStep::Images(true)),
        everything().contains(PruneStep::Volumes),
        everything().contains(PruneStep::BuildCache),
{
    assert(everything()[1] == PruneStep::Images(true));
    assert(everything()[2] == PruneStep::Volumes);
    assert(everything()[3] == PruneStep::BuildCache);
}

/// An image prune is limited to dangling images exactly where not all unused ones are to go.
pub proof fn law_only_dangling_images_are_filtered()
    ensures
        image_filters(true).len() == 0,
        image_filters(false) == seq![("dangling"@, seq!["true"@])],
{
}

/// A prune adds what it freed to the total, and one that failed adds nothing and stops nothing: the
/// prunes behind it are still made.
pub proof fn law_prunes_add_up(run: PruneModel, n: i64, k: i64)
    requires
        run.left.len() > 0,
        run.total == Some(n),
    ensures
        run.after(None) == (PruneModel { left: run.left.skip(1), total: Some(n) }),
        run.after(Some(k)).left == run.left.skip(1),
        i64::MIN <= n + k <= i64::MAX ==> (run.after(Some(k)).total matches Some(m) && m == n + k),
        !(i64::MIN <= n + k <= i64::MAX) ==> run.after(Some(k)).total is None,
{
    assert(run.left.drop_first() =~= run.left.skip(1));
}

/// A run begins with nothing freed and all of its prunes to make, and ends with what they freed.
pub proof fn law_run_reports_what_was_freed(steps: Seq<PruneStep>, n: i64)
    ensures
        PruneModel::start(steps) == (PruneModel { left: steps, total: Some(0) }),
        (PruneModel { left: Seq::empty(), total: Some(n) }).work() == WorkModel::Over(
            Some("pruned everything unused · "@ + util::bytes_text(n)),
        ),
        (PruneModel { left: Seq::empty(), total: None }).work() == WorkModel::Over(None),
        steps.len() > 0 ==> PruneModel::start(steps).work() == WorkModel::Run(steps[0]),
{
}

} // verus!
