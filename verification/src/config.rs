//! User configuration and runtime state.

use vstd::prelude::*;
use crate::clock;
use crate::clock::{now_utc, thirty_days_after, Timestamp};
use crate::docker::model::{UpdateInfo, UpdateModel};
use crate::refmap::RefMap;
use crate::text::{cat3, str_eq};

verus! {

/// A remote (or extra local) Docker host.
#[derive(Debug, Clone)]
pub struct HostConfig {
    /// Friendly name shown in the UI.
    pub name: String,
    /// Connection endpoint, e.g. `unix:///var/run/docker.sock`,
    /// `ssh://user@host`, or `tcp://host:2376`.
    pub endpoint: String,
}

/// A host as mathematical values.
pub struct HostModel {
    pub name: Seq<char>,
    pub endpoint: Seq<char>,
}

impl View for HostConfig {
    type V = HostModel;

    open spec fn view(&self) -> HostModel {
        HostModel { name: self.name@, endpoint: self.endpoint@ }
    }
}

impl DeepView for HostConfig {
    type V = HostModel;

    open spec fn deep_view(&self) -> HostModel {
        self@
    }
}

/// Notification settings.
#[derive(Debug, Clone)]
pub struct NotifyConfig {
    /// Optional ntfy topic URL (e.g. `https://ntfy.sh/my-topic`) or generic webhook.
    pub url: Option<String>,
}

impl Default for NotifyConfig {
    fn default() -> (r: Self)
        ensures
            r.url is None,
    {
        NotifyConfig { url: None }
    }
}

/// Scheduled background update checks.
#[derive(Debug, Clone, Copy, PartialEq, Eq, Structural)]
pub struct ScheduleConfig {
    /// Enable the periodic background check.
    pub enabled: bool,
    /// Interval between checks, in minutes.
    pub interval_minutes: u64,
}

/// Minutes between two scheduled checks where the configuration names none.
pub fn default_interval_minutes() -> (r: u64)
    ensures
        r == 360,
{
    360
}

impl Default for ScheduleConfig {
    fn default() -> (r: Self)
        ensures
            r == (ScheduleConfig { enabled: false, interval_minutes: 360 }),
    {
        ScheduleConfig { enabled: false, interval_minutes: default_interval_minutes() }
    }
}

impl ScheduleConfig {
    /// Seconds between two checks; an interval of zero counts as one minute.
    pub open spec fn period(self) -> int {
        if self.interval_minutes == 0 {
            60
        } else {
            self.interval_minutes * 60
        }
    }

    /// Seconds between two scheduled checks, or `None` where they cannot be counted in 64 bits.
    pub fn period_secs(&self) -> (r: Option<u64>)
        ensures
            r is Some <==> self.period() <= u64::MAX,
            r matches Some(s) ==> s == self.period(),
    {
        let minutes: u64 = if self.interval_minutes == 0 { 1 } else { self.interval_minutes };
        minutes.checked_mul(60)
    }
}

/// The full user configuration.
#[derive(Debug, Clone)]
pub struct Config {
    /// Active theme name (see [`crate::theme`]).
    pub theme: String,
    /// Remote/extra hosts.
    pub hosts: Vec<HostConfig>,
    /// Notification settings.
    pub notify: NotifyConfig,
    /// Scheduled check settings.
    pub schedule: ScheduleConfig,
    /// GitHub token for higher changelog API rate limits (optional).
    pub github_token: Option<String>,
}

/// The configuration as mathematical values.
pub struct ConfigModel {
    pub theme: Seq<char>,
    pub hosts: Seq<HostModel>,
    pub notify_url: Option<Seq<char>>,
    pub schedule: ScheduleConfig,
    pub github_token: Option<Seq<char>>,
}

impl View for Config {
    type V = ConfigModel;

    open spec fn view(&self) -> ConfigModel {
        ConfigModel {
            theme: self.theme@,
            hosts: self.hosts.deep_view(),
            notify_url: self.notify.url.deep_view(),
            schedule: self.schedule,
            github_token: self.github_token.deep_view(),
        }
    }
}

/// The theme where the configuration names none.
pub fn default_theme() -> (r: String)
    ensures
        r@ == "midnight"@,
{
    "midnight".to_string()
}

impl Default for Config {
    fn default() -> (r: Self)
        ensures
            r@ == ConfigModel::initial(),
    {
        let r = Config {
            theme: default_theme(),
            hosts: Vec::new(),
            notify: NotifyConfig::default(),
            schedule: ScheduleConfig::default(),
            github_token: None,
        };
        assert(r@.hosts =~= Seq::<HostModel>::empty());
        r
    }
}

impl ConfigModel {
    /// The configuration of a first run.
    pub open spec fn initial() -> ConfigModel {
        ConfigModel {
            theme: "midnight"@,
            hosts: Seq::empty(),
            notify_url: None,
            schedule: ScheduleConfig { enabled: false, interval_minutes: 360 },
            github_token: None,
        }
    }

    /// The endpoint of the first host called `name`.
    pub open spec fn endpoint(self, name: Seq<char>) -> Option<Seq<char>> {
        endpoint_in(self.hosts, name)
    }
}

/// The endpoint of the first host called `name`.
pub open spec fn endpoint_in(hosts: Seq<HostModel>, name: Seq<char>) -> Option<Seq<char>>
    decreases hosts.len(),
{
    if hosts.len() == 0 {
        None
    } else if hosts[0].name == name {
        Some(hosts[0].endpoint)
    } else {
        endpoint_in(hosts.drop_first(), name)
    }
}

impl Config {
    /// The endpoint of the host called `name`, or that there is none.
    pub fn find_host(&self, name: &str) -> (r: Result<String, String>)
        ensures
            match self@.endpoint(name@) {
                Some(e) => r is Ok && r->Ok_0@ == e,
                None => r is Err && r->Err_0@ == "no host named '"@ + name@ + "' in config"@,
            },
    {
        let ghost all = self.hosts.deep_view();
        let mut i: usize = 0;
        assert(all.skip(0) =~= all);
        while i < self.hosts.len()
            invariant
                all == self.hosts.deep_view(),
                i <= self.hosts@.len(),
                endpoint_in(all.skip(i as int), name@) == endpoint_in(all, name@),
            decreases self.hosts@.len() - i,
        {
            assert(all.skip(i as int)[0] == self.hosts@[i as int]@);
            if str_eq(self.hosts[i].name.as_str(), name) {
                return Ok(self.hosts[i].endpoint.clone());
            }
            assert(all.skip(i as int).drop_first() =~= all.skip(i + 1));
            i = i + 1;
        }
        Err(cat3("no host named '", name, "' in config"))
    }
}

// ── Runtime state ──────────────────────────────────────────────────────────

/// Mutable runtime state, persisted separately from user config.
#[derive(Debug)]
pub struct State {
    /// image reference -> time until which updates are deferred/ignored.
    /// A far-future timestamp means "ignore indefinitely".
    pub deferred: RefMap<Timestamp>,
    /// image reference -> a pinned changelog source (owner/repo) override.
    pub changelog_sources: RefMap<String>,
    /// image reference -> last update-check result, remembered across restarts.
    pub update_cache: RefMap<UpdateInfo>,
    /// Last time a full update check completed.
    pub last_check: Option<Timestamp>,
}

/// Runtime state as mathematical values.
pub struct StateModel {
    pub deferred: Map<Seq<char>, Timestamp>,
    pub changelog_sources: Map<Seq<char>, Seq<char>>,
    pub update_cache: Map<Seq<char>, UpdateModel>,
    pub last_check: Option<Timestamp>,
}

impl View for State {
    type V = StateModel;

    open spec fn view(&self) -> StateModel {
        StateModel {
            deferred: self.deferred@,
            changelog_sources: self.changelog_sources@,
            update_cache: self.update_cache@,
            last_check: self.last_check,
        }
    }
}

impl Default for State {
    fn default() -> (r: Self)
        ensures
            r@ == StateModel::initial(),
    {
        State {
            deferred: RefMap::new(),
            changelog_sources: RefMap::new(),
            update_cache: RefMap::new(),
            last_check: None,
        }
    }
}

impl StateModel {
    /// The state of a first run.
    pub open spec fn initial() -> StateModel {
        StateModel {
            deferred: Map::empty(),
            changelog_sources: Map::empty(),
            update_cache: Map::empty(),
            last_check: None,
        }
    }

    /// Whether updates of `image` are deferred at `now`.
    pub open spec fn deferred_at(self, image: Seq<char>, now: Timestamp) -> bool {
        self.deferred.contains_key(image) && self.deferred[image].later_than(now)
    }

    /// The state after updates of `image` have been deferred at `now`.
    pub open spec fn after_defer(self, image: Seq<char>, now: Timestamp) -> StateModel {
        StateModel {
            deferred: self.deferred.insert(image, clock::in_thirty_days(now)),
            ..self
        }
    }
}

impl State {
    /// Is this image deferred/ignored at `now`?
    pub fn is_deferred_at(&self, image: &str, now: Timestamp) -> (r: bool)
        ensures
            r == self@.deferred_at(image@, now),
    {
        match self.deferred.get(image) {
            Some(until) => until.is_after(&now),
            None => false,
        }
    }

    /// Is this image currently deferred/ignored?
    pub fn is_deferred(&self, image: &str) -> (r: bool)
        ensures
            exists|now: Timestamp| r == #[trigger] self@.deferred_at(image@, now),
            !self@.deferred.contains_key(image@) ==> !r,
    {
        let now = now_utc();
        self.is_deferred_at(image, now)
    }

    /// Defers updates of `image` for thirty days from `now`.
    pub fn defer(&mut self, image: String, now: Timestamp)
        requires
            clock::deferrable(now),
        ensures
            final(self)@ == old(self)@.after_defer(image@, now),
    {
        self.deferred.insert(image, thirty_days_after(now));
    }
}

/// A deferral silences an image for thirty days, to the nanosecond, and no longer; and it says
/// nothing about other images.
pub proof fn law_deferral_lasts_thirty_days(
    state: StateModel,
    image: Seq<char>,
    now: Timestamp,
    then: Timestamp,
    other: Seq<char>,
)
    requires
        clock::deferrable(now),
        other != image,
    ensures
        state.after_defer(image, now).deferred_at(image, then) <==> clock::in_thirty_days(
            now,
        ).later_than(then),
        !state.after_defer(image, now).deferred_at(image, clock::in_thirty_days(now)),
        state.after_defer(image, now).deferred_at(image, now),
        state.after_defer(image, now).deferred_at(other, then) == state.deferred_at(other, then),
{
}

/// A host is found by its name, wherever it stands in the list, and the first of that name is
/// taken; a name that no host has is not found.
pub proof fn law_first_host_of_the_name_is_found(
    config: ConfigModel,
    before: Seq<HostModel>,
    host: HostModel,
    behind: Seq<HostModel>,
)
    requires
        config.hosts == before + seq![host] + behind,
        forall|i: int| 0 <= i < before.len() ==> (#[trigger] before[i]).name != host.name,
    ensures
        config.endpoint(host.name) == Some(host.endpoint),
        forall|name: Seq<char>|
            (forall|i: int|
                0 <= i < config.hosts.len() ==> (#[trigger] config.hosts[i]).name != name)
                ==> #[trigger] config.endpoint(name) is None,
{
    lemma_host_found(before, host, behind);
    assert forall|name: Seq<char>|
        (forall|i: int| 0 <= i < config.hosts.len() ==> (#[trigger] config.hosts[i]).name != name)
        implies #[trigger] config.endpoint(name) is None by {
        lemma_host_missing(config.hosts, name);
    }
}

/// The first host of a name is found.
proof fn lemma_host_found(before: Seq<HostModel>, host: HostModel, behind: Seq<HostModel>)
    requires
        forall|i: int| 0 <= i < before.len() ==> (#[trigger] before[i]).name != host.name,
    ensures
        endpoint_in(before + seq![host] + behind, host.name) == Some(host.endpoint),
    decreases before.len(),
{
    let hosts = before + seq![host] + behind;
    if before.len() == 0 {
        assert(hosts[0] == host);
    } else {
        assert(hosts[0] == before[0]);
        assert(hosts.drop_first() =~= before.drop_first() + seq![host] + behind);
        lemma_host_found(before.drop_first(), host, behind);
    }
}

/// A name that no host has is not found.
proof fn lemma_host_missing(hosts: Seq<HostModel>, name: Seq<char>)
    requires
        forall|i: int| 0 <= i < hosts.len() ==> (#[trigger] hosts[i]).name != name,
    ensures
        endpoint_in(hosts, name) is None,
    decreases hosts.len(),
{
    if hosts.len() > 0 {
        assert(hosts[0].name != name);
        let rest = hosts.drop_first();
        assert forall|i: int| 0 <= i < rest.len() implies (#[trigger] rest[i]).name != name by {
            assert(rest[i] == hosts[i + 1]);
        }
        lemma_host_missing(rest, name);
    }
}

/// Checks come every so many minutes of sixty seconds; no minutes at all count as one.
pub proof fn law_interval_is_in_minutes(schedule: ScheduleConfig)
    ensures
        schedule.interval_minutes >= 1 ==> schedule.period() == 60 * schedule.interval_minutes,
        schedule.interval_minutes == 0 ==> schedule.period() == 60,
{
}

/// Updates of an image are deferred from the moment at which that is asked for until thirty days
/// later, to the nanosecond; what was deferred of other images stays, and so does all else that
/// is remembered.
pub proof fn law_deferral_ends_to_the_nanosecond(
    state: StateModel,
    image: Seq<char>,
    now: Timestamp,
    then: Timestamp,
)
    requires
        clock::deferrable(now),
    ensures
        state.after_defer(image, now).deferred_at(image, then) <==> then.secs - now.secs < 30 * 24
            * 60 * 60 || then.secs - now.secs == 30 * 24 * 60 * 60 && then.nanos < now.nanos,
        !state.deferred.contains_key(image) ==> !state.deferred_at(image, then),
        state.deferred.contains_key(image) ==> (state.deferred_at(image, then)
            <==> state.deferred[image].secs > then.secs || state.deferred[image].secs == then.secs
            && state.deferred[image].nanos > then.nanos),
        state.after_defer(image, now).changelog_sources == state.changelog_sources,
        state.after_defer(image, now).update_cache == state.update_cache,
        state.after_defer(image, now).last_check == state.last_check,
        state.after_defer(image, now).deferred.dom() == state.deferred.dom().insert(image),
{
}

/// A first run knows of no host, defers nothing and remembers nothing.
pub proof fn law_first_run_is_empty()
    ensures
        ConfigModel::initial().hosts.len() == 0 && ConfigModel::initial().notify_url is None
            && ConfigModel::initial().github_token is None,
        !ConfigModel::initial().schedule.enabled,
        ConfigModel::initial().schedule.period() == 6 * 60 * 60,
        StateModel::initial().deferred == Map::<Seq<char>, Timestamp>::empty(),
        StateModel::initial().changelog_sources.dom() == Set::<Seq<char>>::empty(),
        StateModel::initial().update_cache.dom() == Set::<Seq<char>>::empty(),
        StateModel::initial().last_check is None,
{
}

} // verus!
