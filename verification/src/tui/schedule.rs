//! Scheduled background update checks: what a round finds, and what it says.

use vstd::prelude::*;
use crate::clock;
use crate::clock::Timestamp;
use crate::config::{State, StateModel};
use crate::docker::model::{
    ContainerInfo, ContainerModel, StatusModel, UpdateInfo, UpdateModel, UpdateStatus,
};
use crate::text;
use crate::text::{cat3, cat4, decimal_usize, join};
use crate::tui::types::AppEvent;

verus! {

/// A round of checks over all containers.
#[derive(Debug)]
pub struct Round {
    /// The containers with an update so far, as `name (image)`.
    updated: Vec<String>,
}

impl View for Round {
    type V = Seq<Seq<char>>;

    closed spec fn view(&self) -> Seq<Seq<char>> {
        self.updated.deep_view()
    }
}

/// How a container with an update is named.
pub open spec fn entry(c: ContainerModel) -> Seq<char> {
    c.name + " ("@ + c.image + ")"@
}

/// Whether a round checks a container: not while updates of its image are deferred.
pub open spec fn is_due(c: ContainerModel, state: StateModel, now: Timestamp) -> bool {
    !state.deferred_at(c.image, now)
}

/// Whether a round that comes at `now` checks a container: not while updates of its image are
/// deferred.
pub fn due(c: &ContainerInfo, state: &State, now: Timestamp) -> (r: bool)
    ensures
        r == is_due(c@, state@, now),
{
    !state.is_deferred_at(c.image.as_str(), now)
}

/// An update that was deferred is left alone by every round that comes less than thirty days
/// later, and is checked again from then on; containers of other images are checked as before.
pub proof fn law_rounds_keep_to_deferrals(
    state: StateModel,
    c: ContainerModel,
    image: Seq<char>,
    now: Timestamp,
    then: Timestamp,
)
    requires
        clock::deferrable(now),
    ensures
        c.image == image ==> (is_due(c, state.after_defer(image, now), then)
            <==> !clock::in_thirty_days(now).later_than(then)),
        c.image != image ==> is_due(c, state.after_defer(image, now), then) == is_due(
            c,
            state,
            then,
        ),
{
}

/// What a round that found something says.
#[derive(Debug)]
pub struct RoundReport {
    /// The title and the body of the notification.
    pub title: String,
    pub body: String,
    /// The message in the status line.
    pub message: String,
}

impl Round {
    /// A round that has found nothing yet.
    pub fn new() -> (r: Round)
        ensures
            r@ == Seq::<Seq<char>>::empty(),
    {
        let r = Round { updated: Vec::new() };
        assert(r@ =~= Seq::<Seq<char>>::empty());
        r
    }

    /// Takes the result of one check, `None` where it failed. Where there is an update, the
    /// application is to be told so.
    pub fn note(&mut self, c: &ContainerInfo, available: Option<bool>) -> (r: Option<AppEvent>)
        ensures
            available == Some(true) ==> {
                &&& final(self)@ == old(self)@.push(entry(c@))
                &&& r matches Some(AppEvent::UpdateResult(image, info)) && image@ == c@.image
                    && info@ == UpdateModel::of_status(StatusModel::UpdateAvailable)
            },
            available != Some(true) ==> final(self)@ == old(self)@ && r is None,
    {
        match available {
            Some(true) => {
                let line = cat4(c.name.as_str(), " (", c.image.as_str(), ")");
                let ghost before = self@;
                self.updated.push(line);
                assert(self@ =~= before.push(entry(c@)));
                Some(
                    AppEvent::UpdateResult(
                        c.image.clone(),
                        UpdateInfo::from_status(UpdateStatus::UpdateAvailable),
                    ),
                )
            },
            _ => None,
        }
    }

    /// What the round says, where it has found anything.
    pub fn report(&self) -> (r: Option<RoundReport>)
        ensures
            r is Some <==> self@.len() > 0,
            r matches Some(report) ==> {
                &&& report.title@ == "Docker updates available"@
                &&& report.body@ == text::joined(self@, "\n"@)
                &&& report.message@ == "scheduler: "@ + text::decimal(self@.len())
                    + " update(s) available"@
            },
    {
        assert(self@.len() == self.updated@.len());
        if self.updated.len() == 0 {
            return None;
        }
        let count = decimal_usize(self.updated.len());
        Some(
            RoundReport {
                title: "Docker updates available".to_string(),
                body: join(&self.updated, "\n"),
                message: cat3("scheduler: ", count.as_str(), " update(s) available"),
            },
        )
    }
}

/// A round checks a container exactly where updates of its image are not deferred, or no longer:
/// neither the container's name nor its state has a part in it.
pub proof fn law_deferred_images_are_passed_over(
    c: ContainerModel,
    state: StateModel,
    now: Timestamp,
)
    ensures
        !state.deferred.contains_key(c.image) ==> is_due(c, state, now),
        state.deferred.contains_key(c.image) ==> (is_due(c, state, now) <==> now.secs
            > state.deferred[c.image].secs || now.secs == state.deferred[c.image].secs && now.nanos
            >= state.deferred[c.image].nanos),
        entry(c) == c.name + " ("@ + c.image + ")"@,
{
}

} // verus!
