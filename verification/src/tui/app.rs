//! The application: what it holds, and how events change it.
//!
//! Handlers change the state and return the work that is to be done outside of it.

use vstd::prelude::*;
use crate::clock;
use crate::clock::{now_utc, Timestamp};
use crate::config::{Config, State};
use crate::docker::model::{
    ApplyProgress, ContainerInfo, DiskUsage, ImageInfo, UpdateInfo, UpdateStatus,
};
use crate::docker::prune::everything_unused;
use crate::refmap::RefMap;
use crate::registry::{resolve_source, Release};
use crate::style;
use crate::style::{SpanModel, StyledLine};
use crate::text::{
    cat2, cat3, cat4, contains_str, copy_option, decimal_usize, str_eq, to_lowercase,
};
use crate::theme::Theme;
use crate::tui::changelog::changelog_lines;
use crate::tui::model;
use crate::tui::model::{AppModel, Outcome};
use crate::tui::progress::ApplyState;
use crate::tui::sort::{sort_containers, sort_images};
use crate::tui::types;
use crate::tui::types::{
    find_target, no_effects, one_effect, two_effects, AppEvent, ClickRegion, ClickTarget,
    ConfirmAction, ContainerStats, Effect, EffectModel, Input, Key, KeyPress, MouseAction,
    MouseInput, Overlay, PaletteAction, ReloadData, SortKey, Tab, UiAction,
};

verus! {

/// The application state.
#[derive(Debug)]
pub struct App {
    config: Config,
    state: State,
    theme: Theme,
    tab: Tab,
    overlay: Overlay,
    images: Vec<ImageInfo>,
    containers: Vec<ContainerInfo>,
    usage: Option<DiskUsage>,
    /// Selection index per tab.
    selected: usize,
    /// image reference -> latest known update status.
    updates: RefMap<UpdateInfo>,
    /// image reference -> latest stats sample.
    stats: RefMap<ContainerStats>,
    /// Scrollback (styled) for the logs / changelog overlay.
    overlay_view: Vec<StyledLine>,
    overlay_scroll: usize,
    overlay_title: String,
    status_message: String,
    should_quit: bool,
    /// Command palette query and selected index.
    palette_query: String,
    palette_index: usize,
    /// State of an in-progress or finished container update.
    apply: Option<ApplyState>,
    /// Clickable regions recorded during the last render.
    regions: Vec<ClickRegion>,
    /// What the lists are sorted by, and whether from high to low.
    sort: SortKey,
    descending: bool,
    /// Whether the application has the mouse.
    mouse: bool,
}

impl View for App {
    type V = AppModel;

    closed spec fn view(&self) -> AppModel {
        AppModel {
            config: self.config@,
            state: self.state@,
            theme: self.theme@,
            tab: self.tab,
            overlay: self.overlay@,
            images: self.images.deep_view(),
            containers: self.containers.deep_view(),
            usage: self.usage,
            selected: self.selected,
            updates: self.updates@,
            stats: self.stats@,
            overlay_view: self.overlay_view.deep_view(),
            overlay_scroll: self.overlay_scroll,
            overlay_title: self.overlay_title@,
            status_message: self.status_message@,
            should_quit: self.should_quit,
            palette_query: self.palette_query@,
            palette_index: self.palette_index,
            apply: self.apply.deep_view(),
            regions: self.regions@,
            sort: self.sort,
            descending: self.descending,
            mouse: self.mouse,
        }
    }
}

/// The elements of a sequence with one more at its end.
proof fn lemma_set_of_push(s: Seq<Seq<char>>, k: Seq<char>)
    ensures
        s.push(k).to_set() == s.to_set().insert(k),
{
    let t = s.push(k);
    assert forall|q: Seq<char>| t.contains(q) implies s.contains(q) || q == k by {
        let at = choose|at: int| 0 <= at < t.len() && t[at] == q;
        if at < s.len() {
            assert(s[at] == q);
        }
    }
    assert forall|q: Seq<char>| s.contains(q) || q == k implies t.contains(q) by {
        if q == k {
            assert(t[s.len() as int] == k);
        } else {
            let at = choose|at: int| 0 <= at < s.len() && s[at] == q;
            assert(t[at] == q);
        }
    }
    assert(t.to_set() =~= s.to_set().insert(k));
}

/// A copy of update results.
fn copy_updates(from: &RefMap<UpdateInfo>) -> (r: RefMap<UpdateInfo>)
    ensures
        r@ == from@,
{
    let mut r: RefMap<UpdateInfo> = RefMap::new();
    let keys = from.keys();
    let ghost listed = keys.deep_view();
    let mut i: usize = 0;
    while i < keys.len()
        invariant
            listed == keys.deep_view(),
            listed.to_set() == from@.dom(),
            i <= keys@.len(),
            forall|k: Seq<char>| #[trigger]
                r@.contains_key(k) ==> from@.contains_key(k) && r@[k] == from@[k],
            forall|j: int| 0 <= j < i ==> r@.contains_key(#[trigger] listed[j]),
        decreases keys@.len() - i,
    {
        let key = &keys[i];
        assert(listed[i as int] == key@);
        assert(listed.to_set().contains(key@));
        if let Some(info) = from.get(key.as_str()) {
            r.insert(key.clone(), info.clone());
        }
        i = i + 1;
    }
    proof {
        assert forall|k: Seq<char>| from@.contains_key(k) implies r@.contains_key(k) by {
            assert(listed.to_set().contains(k));
            let at = choose|at: int| 0 <= at < listed.len() && listed[at] == k;
            assert(r@.contains_key(listed[at]));
        }
        assert(r@ =~= from@);
    }
    r
}

/// The references of the images that have one, in order.
fn references_of(images: &Vec<ImageInfo>) -> (r: Vec<String>)
    ensures
        r.deep_view() == model::references(images.deep_view()),
{
    let ghost all = images.deep_view();
    let mut r: Vec<String> = Vec::new();
    let mut i: usize = 0;
    assert(r.deep_view() =~= model::references(all.take(0)));
    while i < images.len()
        invariant
            all == images.deep_view(),
            i <= images@.len(),
            r.deep_view() == model::references(all.take(i as int)),
        decreases images@.len() - i,
    {
        assert(all.take(i + 1).drop_last() =~= all.take(i as int));
        assert(all.take(i + 1).last() == images@[i as int]@);
        let ghost before = r.deep_view();
        if let Some(reference) = images[i].primary_reference() {
            r.push(reference);
            assert(r.deep_view() =~= before.push(reference@));
        }
        i = i + 1;
    }
    assert(all.take(images@.len() as int) =~= all);
    r
}

/// The id of the last image whose reference is `reference`.
fn id_of<'a>(images: &'a Vec<ImageInfo>, reference: &str) -> (r: Option<&'a String>)
    ensures
        r is Some <==> model::current_id(images.deep_view(), reference@) is Some,
        r matches Some(id) ==> model::current_id(images.deep_view(), reference@) == Some(id@),
{
    let ghost all = images.deep_view();
    let mut i: usize = images.len();
    assert(all.take(i as int) =~= all);
    while i > 0
        invariant
            all == images.deep_view(),
            i <= images@.len(),
            model::current_id(all.take(i as int), reference@) == model::current_id(
                all,
                reference@,
            ),
        decreases i,
    {
        assert(all.take(i as int).drop_last() =~= all.take(i - 1));
        assert(all.take(i as int).last() == images@[i - 1]@);
        if let Some(primary) = images[i - 1].primary_reference() {
            if str_eq(primary.as_str(), reference) {
                return Some(&images[i - 1].id);
            }
        }
        i = i - 1;
    }
    None
}

impl App {
    /// The application when it starts. Previously fetched update results show immediately.
    pub fn new(config: Config, state: State) -> (r: App)
        ensures
            r@ == AppModel::initial(config@, state@),
    {
        let theme = Theme::by_name(config.theme.as_str());
        let updates = copy_updates(&state.update_cache);
        let r = App {
            config,
            state,
            theme,
            tab: Tab::Images,
            overlay: Overlay::Closed,
            images: Vec::new(),
            containers: Vec::new(),
            usage: None,
            selected: 0,
            updates,
            stats: RefMap::new(),
            overlay_view: Vec::new(),
            overlay_scroll: 0,
            overlay_title: String::new(),
            status_message: "Loading…".to_string(),
            should_quit: false,
            palette_query: String::new(),
            palette_index: 0,
            apply: None,
            regions: Vec::new(),
            sort: SortKey::Listed,
            descending: false,
            mouse: true,
        };
        let ghost m = AppModel::initial(config@, state@);
        assert(r@.images =~= m.images);
        assert(r@.containers =~= m.containers);
        assert(r@.overlay_view =~= m.overlay_view);
        assert(r@.regions =~= m.regions);
        assert(r@.overlay_title =~= m.overlay_title);
        assert(r@.palette_query =~= m.palette_query);
        r
    }

    /// Puts the clickable regions of a render in place.
    pub fn set_regions(&mut self, regions: Vec<ClickRegion>)
        ensures
            final(self)@ == (AppModel { regions: regions@, ..old(self)@ }),
    {
        self.regions = regions;
    }

    // ── Accessors used by the renderer ─────────────────────────────────────

    pub fn config(&self) -> (r: &Config)
        ensures
            r@ == self@.config,
    {
        &self.config
    }

    pub fn state(&self) -> (r: &State)
        ensures
            r@ == self@.state,
    {
        &self.state
    }

    pub fn theme(&self) -> (r: &Theme)
        ensures
            r@ == self@.theme,
    {
        &self.theme
    }

    pub fn tab(&self) -> (r: Tab)
        ensures
            r == self@.tab,
    {
        self.tab
    }

    pub fn overlay(&self) -> (r: &Overlay)
        ensures
            r@ == self@.overlay,
    {
        &self.overlay
    }

    pub fn images(&self) -> (r: &Vec<ImageInfo>)
        ensures
            r.deep_view() == self@.images,
    {
        &self.images
    }

    pub fn containers(&self) -> (r: &Vec<ContainerInfo>)
        ensures
            r.deep_view() == self@.containers,
    {
        &self.containers
    }

    pub fn usage(&self) -> (r: Option<&DiskUsage>)
        ensures
            r == (match self@.usage {
                Some(u) => Some(&u),
                None => None,
            }),
    {
        match &self.usage {
            Some(u) => Some(u),
            None => None,
        }
    }

    /// What the lists are sorted by, and whether from high to low.
    pub fn sort(&self) -> (r: (SortKey, bool))
        ensures
            r == (self@.sort, self@.descending),
    {
        (self.sort, self.descending)
    }

    pub fn selected(&self) -> (r: usize)
        ensures
            r == self@.selected,
    {
        self.selected
    }

    pub fn updates(&self) -> (r: &RefMap<UpdateInfo>)
        ensures
            r@ == self@.updates,
    {
        &self.updates
    }

    /// The selected row's image reference plus its update info, if any.
    pub fn selected_update(&self) -> (r: Option<(String, Option<&UpdateInfo>)>)
        ensures
            match self@.selected_image_ref() {
                Some(image) => r is Some && r->Some_0.0@ == image && (r->Some_0.1 is Some
                    <==> self@.updates.contains_key(image)) && (r->Some_0.1 matches Some(info)
                    ==> info@ == self@.updates[image]),
                None => r is None,
            },
    {
        match self.selected_image_ref() {
            Some(image) => {
                let info = self.updates.get(image.as_str());
                Some((image, info))
            },
            None => None,
        }
    }

    pub fn stats(&self) -> (r: &RefMap<ContainerStats>)
        ensures
            r@ == self@.stats,
    {
        &self.stats
    }

    pub fn status_message(&self) -> (r: &str)
        ensures
            r@ == self@.status_message,
    {
        self.status_message.as_str()
    }

    pub fn overlay_view(&self) -> (r: &Vec<StyledLine>)
        ensures
            r.deep_view() == self@.overlay_view,
    {
        &self.overlay_view
    }

    pub fn overlay_scroll(&self) -> (r: usize)
        ensures
            r == self@.overlay_scroll,
    {
        self.overlay_scroll
    }

    pub fn overlay_title(&self) -> (r: &str)
        ensures
            r@ == self@.overlay_title,
    {
        self.overlay_title.as_str()
    }

    pub fn palette_query(&self) -> (r: &str)
        ensures
            r@ == self@.palette_query,
    {
        self.palette_query.as_str()
    }

    pub fn apply(&self) -> (r: Option<&ApplyState>)
        ensures
            match self@.apply {
                Some(a) => r is Some && r->Some_0@ == a,
                None => r is None,
            },
    {
        match &self.apply {
            Some(a) => Some(a),
            None => None,
        }
    }

    pub fn palette_index(&self) -> (r: usize)
        ensures
            r == self@.palette_index,
    {
        self.palette_index
    }

    /// Whether the application is to end.
    pub fn should_quit(&self) -> (r: bool)
        ensures
            r == self@.should_quit,
    {
        self.should_quit
    }

    /// Palette actions whose label contains the (case-insensitive) query.
    pub fn palette_matches(&self) -> (r: Vec<(&'static str, PaletteAction)>)
        ensures
            types::listed(r@) == self@.palette_matches(),
            self@.palette_query.len() == 0 ==> types::listed(r@) == PaletteAction::labels(),
    {
        let q = to_lowercase(self.palette_query.as_str());
        let catalog = PaletteAction::catalog();
        let ghost all = PaletteAction::labels();
        let mut r: Vec<(&'static str, PaletteAction)> = Vec::new();
        let mut i: usize = 0;
        assert(types::listed(r@) =~= model::matching(all.take(0), q@));
        while i < catalog.len()
            invariant
                all == PaletteAction::labels(),
                types::listed(catalog@) == all,
                i <= catalog@.len(),
                catalog@.len() == all.len(),
                types::listed(r@) == model::matching(all.take(i as int), q@),
                q@.len() == 0 ==> types::listed(r@) == all.take(i as int),
            decreases catalog@.len() - i,
        {
            let entry = catalog[i];
            let ghost before = r@;
            assert(all[i as int] == (entry.0@, entry.1));
            assert(all.take(i + 1).drop_last() =~= all.take(i as int));
            assert(all.take(i + 1).last() == all[i as int]);
            let label = to_lowercase(entry.0);
            if q.as_str().is_empty() || contains_str(label.as_str(), q.as_str()) {
                r.push(entry);
                assert(types::listed(r@) =~= types::listed(before).push((entry.0@, entry.1)));
            }
            i = i + 1;
        }
        assert(all.take(all.len() as int) =~= all);
        r
    }

    /// Number of rows in the currently active list.
    pub fn row_count(&self) -> (r: usize)
        ensures
            r == self@.row_count(),
    {
        match self.tab {
            Tab::Images => self.images.len(),
            Tab::Containers => self.containers.len(),
            Tab::Space => 0,
        }
    }

    /// The container under the selection.
    fn selected_container(&self) -> (r: Option<&ContainerInfo>)
        ensures
            match self@.selected_container() {
                Some(c) => r is Some && r->Some_0@ == c,
                None => r is None,
            },
    {
        if self.selected < self.containers.len() {
            assert(self@.containers[self.selected as int]
                == self.containers@[self.selected as int]@);
            Some(&self.containers[self.selected])
        } else {
            None
        }
    }

    /// The image reference for the current selection, if applicable.
    pub fn selected_image_ref(&self) -> (r: Option<String>)
        ensures
            r.deep_view() == self@.selected_image_ref(),
    {
        match self.tab {
            Tab::Images => {
                if self.selected < self.images.len() {
                    assert(self@.images[self.selected as int]
                        == self.images@[self.selected as int]@);
                    self.images[self.selected].primary_reference()
                } else {
                    None
                }
            },
            Tab::Containers => match self.selected_container() {
                Some(c) => Some(c.image.clone()),
                None => None,
            },
            Tab::Space => None,
        }
    }

    /// The image references of the active list.
    fn listed_refs(&self) -> (r: Vec<String>)
        ensures
            r.deep_view() == self@.listed_refs(),
    {
        match self.tab {
            Tab::Images => references_of(&self.images),
            Tab::Containers => {
                let mut r: Vec<String> = Vec::new();
                let mut i: usize = 0;
                while i < self.containers.len()
                    invariant
                        i <= self.containers@.len(),
                        r@.len() == i,
                        forall|j: int|
                            0 <= j < i ==> (#[trigger] r@[j])@ == self.containers@[j]@.image,
                    decreases self.containers@.len() - i,
                {
                    r.push(self.containers[i].image.clone());
                    i = i + 1;
                }
                assert(r.deep_view() =~= self@.listed_refs());
                r
            },
            Tab::Space => {
                let r: Vec<String> = Vec::new();
                assert(r.deep_view() =~= self@.listed_refs());
                r
            },
        }
    }

    // ── Actions ────────────────────────────────────────────────────────────

    fn set_tab(&mut self, tab: Tab)
        ensures
            final(self)@ == old(self)@.set_tab(tab),
    {
        self.tab = tab;
        self.selected = 0;
    }

    /// Moves the selection by `delta` rows, round the list.
    pub fn move_selection(&mut self, delta: i32)
        ensures
            final(self)@ == old(self)@.move_selection(delta as int),
    {
        let count = self.row_count();
        if count == 0 {
            return;
        }
        let n: u128 = count as u128;
        let cur: u128 = self.selected as u128;
        let ghost target = (self.selected + delta) % (count as int);
        let next: u128 = if delta >= 0 {
            (cur + delta as u128) % n
        } else {
            let back: u128 = ((-(delta as i64)) as u128) % n;
            proof {
                vstd::arithmetic::div_mod::lemma_sub_mod_noop_right(
                    cur as int,
                    -delta as int,
                    n as int,
                );
                vstd::arithmetic::div_mod::lemma_mod_add_multiples_vanish(
                    cur as int - back as int,
                    n as int,
                );
            }
            (cur + n - back) % n
        };
        assert(next == target);
        self.selected = next as usize;
    }

    fn clamp_selection(&mut self)
        ensures
            final(self)@ == old(self)@.clamp_selection(),
    {
        let count = self.row_count();
        if count == 0 {
            self.selected = 0;
        } else if self.selected >= count {
            self.selected = count - 1;
        }
    }

    fn scroll_down(&mut self)
        ensures
            final(self)@ == old(self)@.scroll_down(),
    {
        let lines = self.overlay_view.len();
        let bound: usize = if lines == 0 { 0 } else { lines - 1 };
        if self.overlay_scroll < bound {
            self.overlay_scroll = self.overlay_scroll + 1;
        } else {
            self.overlay_scroll = bound;
        }
    }

    fn scroll_up(&mut self)
        ensures
            final(self)@ == old(self)@.scroll_up(),
    {
        if self.overlay_scroll > 0 {
            self.overlay_scroll = self.overlay_scroll - 1;
        }
    }

    fn show(&mut self, overlay: Overlay)
        ensures
            final(self)@ == old(self)@.showing(overlay@),
    {
        self.overlay = overlay;
    }

    fn say(&mut self, message: String)
        ensures
            final(self)@ == old(self)@.saying(message@),
    {
        self.status_message = message;
    }

    fn close_overlay(&mut self)
        ensures
            final(self)@ == old(self)@.close_overlay(),
    {
        self.overlay = Overlay::Closed;
        self.overlay_view = Vec::new();
        assert(self@.overlay_view =~= Seq::<Seq<SpanModel>>::empty());
    }

    fn open_palette(&mut self)
        ensures
            final(self)@ == old(self)@.open_palette(),
    {
        self.palette_query = String::new();
        self.palette_index = 0;
        self.overlay = Overlay::Palette;
        assert(self@.palette_query =~= Seq::<char>::empty());
    }

    fn cycle_theme(&mut self) -> (r: Vec<Effect>)
        ensures
            (Outcome { app: final(self)@, effects: r.deep_view() }) == old(self)@.cycle_theme(),
    {
        let next = Theme::next(self.theme.name);
        self.theme = Theme::by_name(next);
        self.config.theme = next.to_string();
        self.status_message = cat2("theme: ", next);
        one_effect(Effect::SaveConfig)
    }

    fn refresh(&mut self) -> (r: Vec<Effect>)
        ensures
            (Outcome { app: final(self)@, effects: r.deep_view() }) == old(self)@.refresh(),
    {
        self.say("Refreshing…".to_string());
        one_effect(Effect::Reload)
    }

    /// Samples the stats of the selected container, if it runs.
    fn sample_stats(&self) -> (r: Vec<Effect>)
        ensures
            (Outcome { app: self@, effects: r.deep_view() }) == self@.sample_stats(),
    {
        match self.selected_container() {
            Some(c) => {
                if c.is_running() {
                    one_effect(Effect::SampleStats { id: c.id.clone(), image: c.image.clone() })
                } else {
                    no_effects()
                }
            },
            None => no_effects(),
        }
    }

    fn check_selected_update(&mut self) -> (r: Vec<Effect>)
        ensures
            (Outcome { app: final(self)@, effects: r.deep_view() }) == old(
                self,
            )@.check_selected_update(),
    {
        match self.selected_image_ref() {
            Some(image) => {
                self.updates.insert(
                    image.clone(),
                    UpdateInfo::from_status(UpdateStatus::Checking),
                );
                one_effect(Effect::CheckUpdate(image))
            },
            None => no_effects(),
        }
    }

    /// Marks each image that is not deferred as being checked, and asks for the check.
    fn check_refs(&mut self, refs: &Vec<String>, now: Timestamp) -> (r: Vec<Effect>)
        ensures
            final(self)@ == (AppModel {
                updates: model::checking(
                    old(self)@.updates,
                    model::awake(refs.deep_view(), old(self)@.state, now),
                ),
                ..old(self)@
            }),
            r.deep_view() == model::awake(refs.deep_view(), old(self)@.state, now).map_values(
                |r: Seq<char>| EffectModel::CheckUpdate(r),
            ),
    {
        let ghost before = self@;
        let ghost all = refs.deep_view();
        let ghost ask = |r: Seq<char>| EffectModel::CheckUpdate(r);
        let mut r = no_effects();
        let mut i: usize = 0;
        assert(all.take(0) =~= Seq::<Seq<char>>::empty());
        assert(r.deep_view() =~= model::awake(all.take(0), before.state, now).map_values(ask));
        while i < refs.len()
            invariant
                all == refs.deep_view(),
                ask == (|r: Seq<char>| EffectModel::CheckUpdate(r)),
                i <= refs@.len(),
                self@ == (AppModel {
                    updates: model::checking(
                        before.updates,
                        model::awake(all.take(i as int), before.state, now),
                    ),
                    ..before
                }),
                r.deep_view() == model::awake(all.take(i as int), before.state, now).map_values(
                    ask,
                ),
            decreases refs@.len() - i,
        {
            let ghost done = model::awake(all.take(i as int), before.state, now);
            assert(all.take(i + 1).drop_last() =~= all.take(i as int));
            assert(all.take(i + 1).last() == refs@[i as int]@);
            let image = &refs[i];
            if !self.state.is_deferred_at(image.as_str(), now) {
                let ghost effects = r.deep_view();
                self.updates.insert(
                    image.clone(),
                    UpdateInfo::from_status(UpdateStatus::Checking),
                );
                r.push(Effect::CheckUpdate(image.clone()));
                assert(r.deep_view() =~= effects.push(EffectModel::CheckUpdate(image@)));
                assert(done.push(image@).drop_last() =~= done);
                assert(done.push(image@).map_values(ask) =~= effects.push(
                    EffectModel::CheckUpdate(image@),
                ));
            }
            i = i + 1;
        }
        assert(all.take(refs@.len() as int) =~= all);
        r
    }

    fn check_all_updates(&mut self, now: Timestamp) -> (r: Vec<Effect>)
        ensures
            (Outcome { app: final(self)@, effects: r.deep_view() }) == old(
                self,
            )@.check_all_updates(now),
    {
        if self.tab == Tab::Space {
            return no_effects();
        }
        let refs = self.listed_refs();
        assert(refs@.len() == self@.listed_refs().len());
        let count = decimal_usize(refs.len());
        self.status_message = cat3("Checking ", count.as_str(), " images…");
        self.check_refs(&refs, now)
    }

    fn apply_selected_update(&mut self)
        ensures
            final(self)@ == old(self)@.apply_selected_update(),
    {
        if self.tab != Tab::Containers {
            self.status_message = "switch to the Containers tab to apply an update".to_string();
            return;
        }
        let action = match self.selected_container() {
            Some(c) => ConfirmAction::ApplyUpdate(c.id.clone(), c.image.clone()),
            None => return,
        };
        self.overlay = Overlay::Confirm(action);
    }

    fn open_logs(&mut self) -> (r: Vec<Effect>)
        ensures
            (Outcome { app: final(self)@, effects: r.deep_view() }) == old(self)@.open_logs(),
    {
        if self.tab != Tab::Containers {
            self.status_message = "logs are available on the Containers tab".to_string();
            return no_effects();
        }
        let (title, id) = match self.selected_container() {
            Some(c) => (cat2("logs: ", c.name.as_str()), c.id.clone()),
            None => return no_effects(),
        };
        self.overlay_title = title;
        self.status_message = "loading logs…".to_string();
        one_effect(Effect::FetchLogs { id, tail: 200 })
    }

    /// The changelog source that is known of an image: the pinned one, else what its last check
    /// found.
    fn known_source(&self, image: &str) -> (r: Option<String>)
        ensures
            r.deep_view() == self@.known_source(image@),
    {
        match self.state.changelog_sources.get(image) {
            Some(repo) => Some(repo.clone()),
            None => match self.updates.get(image) {
                Some(info) => copy_option(&info.changelog_repo),
                None => None,
            },
        }
    }

    fn open_changelog(&mut self) -> (r: Vec<Effect>)
        ensures
            (Outcome { app: final(self)@, effects: r.deep_view() }) == old(
                self,
            )@.open_changelog(),
    {
        let image = match self.selected_image_ref() {
            Some(image) => image,
            None => return no_effects(),
        };
        let known = self.known_source(image.as_str());
        let source = match &known {
            Some(repo) => resolve_source(image.as_str(), Some(repo.as_str())),
            None => resolve_source(image.as_str(), None),
        };
        let repo = match source {
            Some(repo) => repo,
            None => {
                self.status_message = cat2("no changelog source known for ", image.as_str());
                return no_effects();
            },
        };
        self.status_message = cat3("fetching ", repo.as_str(), " releases…");
        let title = cat2("changelog: ", repo.as_str());
        let token = copy_option(&self.config.github_token);
        one_effect(Effect::FetchReleases { repo, title, token, limit: 5 })
    }

    fn toggle_start_stop(&mut self) -> (r: Vec<Effect>)
        ensures
            (Outcome { app: final(self)@, effects: r.deep_view() }) == old(
                self,
            )@.toggle_start_stop(),
    {
        if self.tab != Tab::Containers {
            return no_effects();
        }
        match self.selected_container() {
            Some(c) => {
                let id = c.id.clone();
                let name = c.name.clone();
                let work = if c.is_running() {
                    Effect::StopContainer { id, name }
                } else {
                    Effect::StartContainer { id, name }
                };
                two_effects(work, Effect::ReloadSoon)
            },
            None => no_effects(),
        }
    }

    fn restart_selected(&mut self) -> (r: Vec<Effect>)
        ensures
            (Outcome { app: final(self)@, effects: r.deep_view() }) == old(
                self,
            )@.restart_selected(),
    {
        if self.tab != Tab::Containers {
            return no_effects();
        }
        match self.selected_container() {
            Some(c) => two_effects(
                Effect::RestartContainer { id: c.id.clone(), name: c.name.clone() },
                Effect::ReloadSoon,
            ),
            None => no_effects(),
        }
    }

    fn confirm_remove_selected(&mut self)
        ensures
            final(self)@ == old(self)@.confirm_remove_selected(),
    {
        if self.tab != Tab::Containers {
            return;
        }
        let action = match self.selected_container() {
            Some(c) => ConfirmAction::RemoveContainer(c.id.clone(), c.name.clone()),
            None => return,
        };
        self.overlay = Overlay::Confirm(action);
    }

    fn defer_selected(&mut self, now: Timestamp) -> (r: Vec<Effect>)
        requires
            clock::deferrable(now),
        ensures
            (Outcome { app: final(self)@, effects: r.deep_view() }) == old(
                self,
            )@.defer_selected(now),
    {
        match self.selected_image_ref() {
            Some(image) => {
                self.status_message = cat3("deferred ", image.as_str(), " for 30 days");
                self.state.defer(image, now);
                one_effect(Effect::SaveState)
            },
            None => no_effects(),
        }
    }

    fn run_confirmed(&mut self, action: ConfirmAction) -> (r: Vec<Effect>)
        ensures
            (Outcome { app: final(self)@, effects: r.deep_view() }) == old(
                self,
            )@.run_confirmed(action@),
    {
        match action {
            ConfirmAction::RemoveContainer(id, name) => two_effects(
                Effect::RemoveContainer { id, name },
                Effect::ReloadSoon,
            ),
            ConfirmAction::PruneImages(all) => two_effects(
                Effect::PruneImages(all),
                Effect::ReloadSoon,
            ),
            ConfirmAction::PruneContainers => two_effects(
                Effect::PruneContainers,
                Effect::ReloadSoon,
            ),
            ConfirmAction::PruneVolumes => two_effects(
                Effect::PruneVolumes,
                Effect::ReloadSoon,
            ),
            ConfirmAction::PruneBuildCache => two_effects(
                Effect::PruneBuildCache,
                Effect::ReloadSoon,
            ),
            ConfirmAction::PruneAll => two_effects(
                Effect::PruneAll(everything_unused()),
                Effect::ReloadSoon,
            ),
            ConfirmAction::ApplyUpdate(id, image) => {
                self.apply = Some(ApplyState::new(cat2("Updating ", image.as_str())));
                self.overlay = Overlay::ApplyProgress;
                one_effect(Effect::ApplyUpdate { id, image })
            },
        }
    }

    /// Answers the open confirmation with yes.
    fn confirm(&mut self) -> (r: Vec<Effect>)
        ensures
            (Outcome { app: final(self)@, effects: r.deep_view() }) == old(self)@.confirm(),
    {
        let action = match &self.overlay {
            Overlay::Confirm(action) => action.clone(),
            _ => return no_effects(),
        };
        self.overlay = Overlay::Closed;
        self.run_confirmed(action)
    }

    fn run_palette_action(&mut self, action: PaletteAction, now: Timestamp) -> (r: Vec<Effect>)
        ensures
            (Outcome { app: final(self)@, effects: r.deep_view() }) == old(
                self,
            )@.run_palette_action(action, now),
    {
        match action {
            PaletteAction::Refresh => self.refresh(),
            PaletteAction::CheckAll => self.check_all_updates(now),
            PaletteAction::OpenPrune => {
                self.show(Overlay::Prune);
                no_effects()
            },
            PaletteAction::PruneAll => {
                self.show(Overlay::Confirm(ConfirmAction::PruneAll));
                no_effects()
            },
            PaletteAction::CycleTheme => self.cycle_theme(),
            PaletteAction::GotoImages => {
                self.set_tab(Tab::Images);
                no_effects()
            },
            PaletteAction::GotoContainers => {
                self.set_tab(Tab::Containers);
                no_effects()
            },
            PaletteAction::GotoSpace => {
                self.set_tab(Tab::Space);
                no_effects()
            },
            PaletteAction::ApplySelected => {
                self.apply_selected_update();
                no_effects()
            },
            PaletteAction::Quit => {
                self.should_quit = true;
                no_effects()
            },
        }
    }

    /// Closes the palette and runs its match at `i`, if there is one.
    fn run_palette_match(&mut self, i: usize, now: Timestamp) -> (r: Vec<Effect>)
        ensures
            (Outcome { app: final(self)@, effects: r.deep_view() }) == old(
                self,
            )@.run_palette_match(i, now),
    {
        let matches = self.palette_matches();
        assert(types::listed(matches@).len() == matches@.len());
        if i < matches.len() {
            assert(types::listed(matches@)[i as int].1 == matches@[i as int].1);
            self.overlay = Overlay::Closed;
            self.run_palette_action(matches[i].1, now)
        } else {
            no_effects()
        }
    }

    /// Run a UI action originating from a key binding or a mouse click.
    fn run_ui_action(&mut self, action: UiAction, now: Timestamp) -> (r: Vec<Effect>)
        requires
            clock::deferrable(now),
        ensures
            (Outcome { app: final(self)@, effects: r.deep_view() }) == old(
                self,
            )@.run_ui_action(action, now),
    {
        match action {
            UiAction::Refresh => return self.refresh(),
            UiAction::CheckSelected => return self.check_selected_update(),
            UiAction::CheckAll => return self.check_all_updates(now),
            UiAction::Details => self.show(Overlay::UpdateDetails),
            UiAction::Apply => self.apply_selected_update(),
            UiAction::StartStop => return self.toggle_start_stop(),
            UiAction::Restart => return self.restart_selected(),
            UiAction::Logs => return self.open_logs(),
            UiAction::Changelog => return self.open_changelog(),
            UiAction::Remove => self.confirm_remove_selected(),
            UiAction::Defer => return self.defer_selected(now),
            UiAction::OpenPrune => self.show(Overlay::Prune),
            UiAction::CycleSort => self.cycle_sort(),
            UiAction::ToggleMouse => return self.toggle_mouse(),
            UiAction::CycleTheme => return self.cycle_theme(),
            UiAction::Help => self.show(Overlay::Help),
            UiAction::OpenPalette => self.open_palette(),
            UiAction::Quit => self.should_quit = true,
            UiAction::PruneImages(all) => self.show(
                Overlay::Confirm(ConfirmAction::PruneImages(all)),
            ),
            UiAction::PruneContainers => self.show(
                Overlay::Confirm(ConfirmAction::PruneContainers),
            ),
            UiAction::PruneVolumes => self.show(Overlay::Confirm(ConfirmAction::PruneVolumes)),
            UiAction::PruneBuildCache => self.show(
                Overlay::Confirm(ConfirmAction::PruneBuildCache),
            ),
            UiAction::PruneAll => self.show(Overlay::Confirm(ConfirmAction::PruneAll)),
            UiAction::ConfirmYes => return self.confirm(),
            UiAction::ConfirmNo => self.show(Overlay::Closed),
            UiAction::CloseOverlay => self.close_overlay(),
            UiAction::PaletteItem(i) => return self.run_palette_match(i, now),
        }
        no_effects()
    }

    /// Puts the lists in order.
    fn arrange(&mut self)
        ensures
            final(self)@ == old(self)@.arranged(),
    {
        let images = sort_images(&self.images, self.sort, self.descending, &self.updates);
        let containers = sort_containers(
            &self.containers,
            self.sort,
            self.descending,
            &self.updates,
            &self.stats,
        );
        self.images = images;
        self.containers = containers;
    }

    /// Sorts the lists by a column.
    fn sort_by(&mut self, key: SortKey, descending: bool)
        ensures
            final(self)@ == old(self)@.sorted_by(key, descending),
    {
        self.sort = key;
        self.descending = descending;
        self.arrange();
    }

    /// Sorts the lists by the next column of the active one.
    fn cycle_sort(&mut self)
        ensures
            final(self)@ == old(self)@.cycle_sort(),
    {
        if self.tab != Tab::Space {
            self.sort_by(self.sort.next(self.tab), false);
        }
    }

    /// Sorts the lists the other way round.
    fn reverse_sort(&mut self)
        ensures
            final(self)@ == old(self)@.reverse_sort(),
    {
        self.sort_by(self.sort, !self.descending);
    }

    /// Begins or ends select mode.
    fn toggle_mouse(&mut self) -> (r: Vec<Effect>)
        ensures
            (Outcome { app: final(self)@, effects: r.deep_view() }) == old(self)@.toggle_mouse(),
    {
        self.mouse = !self.mouse;
        one_effect(Effect::CaptureMouse(self.mouse))
    }

    /// Clicking a row selects it; clicking the already-selected row opens details.
    fn click_row(&mut self, i: usize)
        ensures
            final(self)@ == old(self)@.click_row(i),
    {
        if self.tab == Tab::Space {
            return;
        }
        if self.selected == i {
            self.overlay = Overlay::UpdateDetails;
        } else {
            self.selected = i;
        }
    }

    // ── Keys ───────────────────────────────────────────────────────────────

    /// Whether a container update is on its way.
    fn applying(&self) -> (r: bool)
        ensures
            r == self@.applying(),
    {
        match &self.apply {
            Some(a) => !a.finished,
            None => false,
        }
    }

    fn handle_confirm_key(&mut self, key: Key) -> (r: Vec<Effect>)
        ensures
            (Outcome { app: final(self)@, effects: r.deep_view() }) == old(
                self,
            )@.after_confirm_key(key),
    {
        match key {
            Key::Char('y') | Key::Enter => return self.confirm(),
            Key::Char('n') | Key::Esc | Key::Char('q') => self.show(Overlay::Closed),
            _ => {},
        }
        no_effects()
    }

    fn handle_prune_key(&mut self, key: Key)
        ensures
            final(self)@ == old(self)@.after_prune_key(key),
    {
        match key {
            Key::Char('i') => self.show(Overlay::Confirm(ConfirmAction::PruneImages(false))),
            Key::Char('I') => self.show(Overlay::Confirm(ConfirmAction::PruneImages(true))),
            Key::Char('c') => self.show(Overlay::Confirm(ConfirmAction::PruneContainers)),
            Key::Char('v') => self.show(Overlay::Confirm(ConfirmAction::PruneVolumes)),
            Key::Char('b') => self.show(Overlay::Confirm(ConfirmAction::PruneBuildCache)),
            Key::Char('a') => self.show(Overlay::Confirm(ConfirmAction::PruneAll)),
            Key::Esc | Key::Char('q') => self.show(Overlay::Closed),
            _ => {},
        }
    }

    fn handle_scroll_key(&mut self, key: Key)
        ensures
            final(self)@ == old(self)@.after_scroll_key(key),
    {
        match key {
            Key::Esc | Key::Char('q') => self.close_overlay(),
            Key::Down | Key::Char('j') => self.scroll_down(),
            Key::Up | Key::Char('k') => self.scroll_up(),
            _ => {},
        }
    }

    fn handle_details_key(&mut self, key: Key) -> (r: Vec<Effect>)
        ensures
            (Outcome { app: final(self)@, effects: r.deep_view() }) == old(
                self,
            )@.after_details_key(key),
    {
        match key {
            Key::Esc | Key::Char('q') | Key::Enter => self.show(Overlay::Closed),
            Key::Char('w') => {
                self.show(Overlay::Closed);
                return self.open_changelog();
            },
            Key::Char('u') => {
                self.show(Overlay::Closed);
                return self.check_selected_update();
            },
            _ => {},
        }
        no_effects()
    }

    /// Only allows dismissing once the operation has finished.
    fn handle_progress_key(&mut self, key: Key)
        ensures
            final(self)@ == old(self)@.after_progress_key(key),
    {
        match key {
            Key::Esc | Key::Char('q') => {
                if !self.applying() {
                    self.show(Overlay::Closed);
                }
            },
            _ => {},
        }
    }

    fn handle_palette_key(&mut self, key: Key, now: Timestamp) -> (r: Vec<Effect>)
        ensures
            (Outcome { app: final(self)@, effects: r.deep_view() }) == old(
                self,
            )@.after_palette_key(key, now),
    {
        match key {
            Key::Esc => self.show(Overlay::Closed),
            Key::Enter => return self.run_palette_match(self.palette_index, now),
            Key::Backspace => {
                let _ = self.palette_query.pop();
                self.palette_index = 0;
            },
            Key::Down => {
                let matches = self.palette_matches();
                assert(types::listed(matches@).len() == matches@.len());
                let n = matches.len();
                if n > 0 {
                    let at = self.palette_index % n;
                    proof {
                        vstd::arithmetic::div_mod::lemma_add_mod_noop_right(
                            1,
                            self.palette_index as int,
                            n as int,
                        );
                    }
                    self.palette_index = if at + 1 == n { 0 } else { at + 1 };
                    proof {
                        if at + 1 == n {
                            vstd::arithmetic::div_mod::lemma_mod_self_0(n as int);
                        } else {
                            vstd::arithmetic::div_mod::lemma_small_mod(
                                (at + 1) as nat,
                                n as nat,
                            );
                        }
                    }
                }
            },
            Key::Up => {
                let matches = self.palette_matches();
                assert(types::listed(matches@).len() == matches@.len());
                let n = matches.len();
                if n > 0 {
                    proof {
                        if self.palette_index == 0 {
                            vstd::arithmetic::div_mod::lemma_mod_add_multiples_vanish(
                                -1,
                                n as int,
                            );
                            vstd::arithmetic::div_mod::lemma_small_mod(
                                (n - 1) as nat,
                                n as nat,
                            );
                        }
                    }
                    self.palette_index = if self.palette_index == 0 {
                        n - 1
                    } else {
                        (self.palette_index - 1) % n
                    };
                }
            },
            Key::Char(c) => {
                self.palette_query.push(c);
                self.palette_index = 0;
            },
            _ => {},
        }
        no_effects()
    }

    fn handle_overlay_key(&mut self, key: Key, now: Timestamp) -> (r: Vec<Effect>)
        ensures
            (Outcome { app: final(self)@, effects: r.deep_view() }) == old(
                self,
            )@.after_overlay_key(key, now),
    {
        match &self.overlay {
            Overlay::Confirm(_) => return self.handle_confirm_key(key),
            Overlay::Prune => self.handle_prune_key(key),
            Overlay::Logs | Overlay::Changelog | Overlay::Help => self.handle_scroll_key(key),
            Overlay::UpdateDetails => return self.handle_details_key(key),
            Overlay::ApplyProgress => self.handle_progress_key(key),
            Overlay::Palette => return self.handle_palette_key(key, now),
            Overlay::Closed => {},
        }
        no_effects()
    }

    fn handle_plain_key(&mut self, key: Key, control: bool, now: Timestamp) -> (r: Vec<Effect>)
        requires
            clock::deferrable(now),
        ensures
            (Outcome { app: final(self)@, effects: r.deep_view() }) == old(
                self,
            )@.after_plain_key(key, control, now),
    {
        match key {
            Key::Char('q') => self.should_quit = true,
            Key::Char('c') => {
                if control {
                    self.should_quit = true;
                }
            },
            Key::Tab => {
                let next = self.tab.next();
                self.set_tab(next);
            },
            Key::Char('l') => {
                if control {
                    let next = self.tab.next();
                    self.set_tab(next);
                }
            },
            Key::BackTab => {
                let prev = self.tab.prev();
                self.set_tab(prev);
            },
            Key::Char('1') => self.set_tab(Tab::Images),
            Key::Char('2') => self.set_tab(Tab::Containers),
            Key::Char('3') => self.set_tab(Tab::Space),
            Key::Down | Key::Char('j') => self.move_selection(1),
            Key::Up | Key::Char('k') => self.move_selection(-1),
            Key::Home | Key::Char('g') => self.selected = 0,
            Key::End | Key::Char('G') => {
                let count = self.row_count();
                self.selected = if count == 0 { 0 } else { count - 1 };
            },
            Key::Char('r') => return self.refresh(),
            Key::Char('u') => return self.check_selected_update(),
            Key::Char('U') => return self.check_all_updates(now),
            Key::Enter => self.show(Overlay::UpdateDetails),
            Key::Char('a') => self.apply_selected_update(),
            Key::Char('L') => return self.open_logs(),
            Key::Char('w') => return self.open_changelog(),
            Key::Char('s') => return self.toggle_start_stop(),
            Key::Char('R') => return self.restart_selected(),
            Key::Char('x') => self.confirm_remove_selected(),
            Key::Char('d') => return self.defer_selected(now),
            Key::Char('p') => {
                if control {
                    self.open_palette();
                } else {
                    self.show(Overlay::Prune);
                }
            },
            Key::Char('o') => self.cycle_sort(),
            Key::Char('O') => self.reverse_sort(),
            Key::Char('y') => return self.toggle_mouse(),
            Key::Char('T') => return self.cycle_theme(),
            Key::Char('?') => self.show(Overlay::Help),
            Key::Char(':') => self.open_palette(),
            _ => {},
        }
        no_effects()
    }

    /// A key; only its way down counts.
    pub fn handle_key(&mut self, press: KeyPress, now: Timestamp) -> (r: Vec<Effect>)
        requires
            clock::deferrable(now),
        ensures
            (Outcome { app: final(self)@, effects: r.deep_view() }) == old(
                self,
            )@.after_key(press, now),
    {
        if press.release {
            return no_effects();
        }
        // Overlay-specific keys first.
        if !self.overlay.is_closed() {
            return self.handle_overlay_key(press.key, now);
        }
        self.handle_plain_key(press.key, press.control, now)
    }

    // ── Mouse ──────────────────────────────────────────────────────────────

    fn overlay_is_scrollable(&self) -> (r: bool)
        ensures
            r == self@.scrolls(),
    {
        matches!(&self.overlay, Overlay::Logs | Overlay::Changelog | Overlay::Help)
    }

    /// A click outside every hit region dismisses a dismissable overlay (confirmations and
    /// in-flight updates must not be dismissed by a stray click).
    fn handle_stray_click(&mut self)
        ensures
            final(self)@ == old(self)@.after_stray_click(),
    {
        let kept = match &self.overlay {
            Overlay::Closed => true,
            Overlay::Confirm(_) => true,
            Overlay::ApplyProgress => self.applying(),
            _ => false,
        };
        if !kept {
            self.close_overlay();
        }
    }

    pub fn handle_mouse(&mut self, mouse: MouseInput, now: Timestamp) -> (r: Vec<Effect>)
        requires
            clock::deferrable(now),
        ensures
            (Outcome { app: final(self)@, effects: r.deep_view() }) == old(
                self,
            )@.after_mouse(mouse, now),
    {
        match mouse.action {
            MouseAction::LeftDown => {
                match find_target(&self.regions, mouse.column, mouse.row) {
                    Some(ClickTarget::Tab(tab)) => self.set_tab(tab),
                    Some(ClickTarget::Row(i)) => self.click_row(i),
                    Some(ClickTarget::Header(key)) => self.sort_by(key, false),
                    Some(ClickTarget::Action(a)) => return self.run_ui_action(a, now),
                    None => self.handle_stray_click(),
                }
            },
            MouseAction::ScrollDown => {
                if self.overlay_is_scrollable() {
                    self.scroll_down();
                } else if self.overlay.is_closed() {
                    self.move_selection(1);
                }
            },
            MouseAction::ScrollUp => {
                if self.overlay_is_scrollable() {
                    self.scroll_up();
                } else if self.overlay.is_closed() {
                    self.move_selection(-1);
                }
            },
            MouseAction::Other => {},
        }
        no_effects()
    }

    // ── Events ─────────────────────────────────────────────────────────────

    fn handle_update_result(&mut self, image: String, info: UpdateInfo) -> (r: Vec<Effect>)
        ensures
            (Outcome { app: final(self)@, effects: r.deep_view() }) == old(
                self,
            )@.after_update_result(image@, info@),
    {
        if matches!(&info.status, UpdateStatus::UpdateAvailable) {
            let detail = match info.transition() {
                Some(t) => cat2(": ", t.as_str()),
                None => String::new(),
            };
            proof {
                if info@.transition() is None {
                    assert(detail@ =~= Seq::<char>::empty());
                }
            }
            self.status_message = cat3("update available: ", image.as_str(), detail.as_str());
        }
        // Persist conclusive results (not transient errors) so they survive restarts.
        if matches!(&info.status, UpdateStatus::Error(_)) {
            self.updates.insert(image, info);
            return no_effects();
        }
        self.state.update_cache.insert(image.clone(), info.clone());
        self.updates.insert(image, info);
        one_effect(Effect::SaveState)
    }

    /// The references whose update result is outdated.
    fn stale_refs(&self) -> (r: Vec<String>)
        ensures
            forall|k: Seq<char>|
                r.deep_view().contains(k) <==> #[trigger] model::stale(
                    self@.updates,
                    self@.images,
                ).contains(k),
    {
        let mut r: Vec<String> = Vec::new();
        let keys = self.updates.keys();
        let ghost listed = keys.deep_view();
        let mut i: usize = 0;
        let ghost out = model::stale(self@.updates, self@.images);
        while i < keys.len()
            invariant
                listed == keys.deep_view(),
                listed.to_set() == self.updates@.dom(),
                i <= keys@.len(),
                out == model::stale(self@.updates, self@.images),
                forall|k: Seq<char>| #[trigger] r.deep_view().contains(k) ==> out.contains(k),
                forall|j: int|
                    0 <= j < i && out.contains(#[trigger] listed[j]) ==> r.deep_view().contains(
                        listed[j],
                    ),
            decreases keys@.len() - i,
        {
            let key = &keys[i];
            assert(listed[i as int] == key@);
            assert(listed.to_set().contains(key@));
            let mut old = false;
            if let Some(info) = self.updates.get(key.as_str()) {
                if let (Some(cached), Some(current)) = (
                    &info.local_id,
                    id_of(&self.images, key.as_str()),
                ) {
                    old = !str_eq(cached.as_str(), current.as_str());
                }
            }
            assert(old == out.contains(key@));
            let ghost found = r.deep_view();
            if old {
                r.push(key.clone());
                assert(r.deep_view() =~= found.push(key@));
                assert(r.deep_view()[found.len() as int] == key@);
                assert forall|k: Seq<char>| found.contains(k) implies
                    #[trigger] r.deep_view().contains(k) by {
                    let at = choose|at: int| 0 <= at < found.len() && found[at] == k;
                    assert(r.deep_view()[at] == k);
                }
                assert forall|k: Seq<char>| #[trigger] r.deep_view().contains(k) implies
                    out.contains(k) by {
                    let at = choose|at: int| 0 <= at < r.deep_view().len() && r.deep_view()[at]
                        == k;
                    if at < found.len() {
                        assert(found[at] == k);
                        assert(found.contains(k));
                    }
                }
            }
            i = i + 1;
        }
        proof {
            assert forall|k: Seq<char>| #[trigger] out.contains(k) implies
                r.deep_view().contains(k) by {
                assert(listed.to_set().contains(k));
                let at = choose|at: int| 0 <= at < listed.len() && listed[at] == k;
                assert(out.contains(listed[at]));
            }
        }
        r
    }

    /// Drop cached update results whose local image id has since changed.
    fn invalidate_stale_updates(&mut self)
        ensures
            final(self)@ == old(self)@.invalidate_stale_updates(),
    {
        let old_refs = self.stale_refs();
        let ghost before = self@;
        let ghost out = model::stale(before.updates, before.images);
        let ghost all = old_refs.deep_view();
        let mut i: usize = 0;
        while i < old_refs.len()
            invariant
                all == old_refs.deep_view(),
                i <= old_refs@.len(),
                self@ == (AppModel {
                    updates: self@.updates,
                    state: (crate::config::StateModel {
                        update_cache: self@.state.update_cache,
                        ..before.state
                    }),
                    ..before
                }),
                self@.updates == before.updates.remove_keys(all.take(i as int).to_set()),
                self@.state.update_cache == before.state.update_cache.remove_keys(
                    all.take(i as int).to_set(),
                ),
            decreases old_refs@.len() - i,
        {
            let ghost was = self@;
            let reference = &old_refs[i];
            self.updates.remove(reference.as_str());
            self.state.update_cache.remove(reference.as_str());
            proof {
                let k = reference@;
                assert(all.take(i + 1) =~= all.take(i as int).push(k));
                lemma_set_of_push(all.take(i as int), k);
                assert(self@.updates =~= before.updates.remove_keys(
                    all.take(i + 1).to_set(),
                ));
                assert(self@.state.update_cache =~= before.state.update_cache.remove_keys(
                    all.take(i + 1).to_set(),
                ));
            }
            i = i + 1;
        }
        proof {
            assert(all.take(old_refs@.len() as int) =~= all);
            assert(all.to_set() =~= out);
        }
    }

    fn handle_reload(&mut self, data: ReloadData)
        ensures
            final(self)@ == old(self)@.after_reload(
                data.images.deep_view(),
                data.containers.deep_view(),
                data.usage,
            ),
    {
        self.images = data.images;
        self.containers = data.containers;
        self.usage = Some(data.usage);
        assert(self@.images.len() == self.images@.len());
        assert(self@.containers.len() == self.containers@.len());
        let images = decimal_usize(self.images.len());
        let containers = decimal_usize(self.containers.len());
        self.invalidate_stale_updates();
        self.arrange();
        self.clamp_selection();
        self.status_message = cat4(
            images.as_str(),
            " images · ",
            containers.as_str(),
            " containers",
        );
    }

    fn handle_logs(&mut self, lines: Vec<String>)
        ensures
            final(self)@ == old(self)@.after_logs(lines.deep_view()),
    {
        let mut view: Vec<StyledLine> = Vec::new();
        let mut i: usize = 0;
        while i < lines.len()
            invariant
                i <= lines@.len(),
                view@.len() == i,
                forall|j: int|
                    0 <= j < i ==> (#[trigger] view@[j])@ == style::raw(lines@[j]@),
            decreases lines@.len() - i,
        {
            view.push(StyledLine::plain(lines[i].as_str()));
            i = i + 1;
        }
        self.overlay_scroll = if view.len() == 0 { 0 } else { view.len() - 1 };
        self.overlay_view = view;
        self.overlay = Overlay::Logs;
        assert(self@.overlay_view =~= lines.deep_view().map_values(
            |l: Seq<char>| style::raw(l),
        ));
    }

    fn handle_changelog(&mut self, title: String, releases: &Vec<Release>)
        ensures
            final(self)@ == (AppModel {
                overlay_title: title@,
                overlay_view: crate::tui::changelog::changelog(releases@, old(self)@.theme),
                overlay_scroll: 0,
                overlay: types::OverlayModel::Changelog,
                ..old(self)@
            }),
    {
        self.overlay_title = title;
        self.overlay_view = changelog_lines(releases, &self.theme);
        self.overlay_scroll = 0;
        self.overlay = Overlay::Changelog;
    }

    fn handle_progress(&mut self, progress: ApplyProgress) -> (r: Vec<Effect>)
        ensures
            (Outcome { app: final(self)@, effects: r.deep_view() }) == old(
                self,
            )@.after_progress(progress@),
    {
        match self.apply.take() {
            Some(a) => {
                let mut a = a;
                a.apply(progress);
                let finished = a.finished;
                self.apply = Some(a);
                // Refresh the container/image lists after the update settles.
                if finished {
                    one_effect(Effect::Reload)
                } else {
                    no_effects()
                }
            },
            None => no_effects(),
        }
    }

    /// An event, at the moment `now`.
    pub fn handle_event_at(&mut self, event: AppEvent, now: Timestamp) -> (r: Vec<Effect>)
        requires
            clock::deferrable(now),
        ensures
            (Outcome { app: final(self)@, effects: r.deep_view() }) == old(
                self,
            )@.after_event(event, now),
    {
        match event {
            AppEvent::Input(Input::Key(press)) => return self.handle_key(press, now),
            AppEvent::Input(Input::Mouse(mouse)) => return self.handle_mouse(mouse, now),
            AppEvent::Input(Input::Other) => {},
            AppEvent::Tick => {
                // Refresh stats for visible running containers on the Containers tab.
                if self.tab == Tab::Containers && self.overlay.is_closed() {
                    return self.sample_stats();
                }
            },
            AppEvent::UpdateResult(image, info) => {
                return self.handle_update_result(image, info);
            },
            AppEvent::Reloaded(data) => self.handle_reload(data),
            AppEvent::Logs(lines) => self.handle_logs(lines),
            AppEvent::Changelog(title, releases) => self.handle_changelog(title, &releases),
            AppEvent::Stats(image, stats) => self.stats.insert(image, stats),
            AppEvent::Apply(progress) => return self.handle_progress(progress),
            AppEvent::Message(message) => self.say(message),
        }
        no_effects()
    }

    /// An event, now.
    pub fn handle_event(&mut self, event: AppEvent) -> (r: Vec<Effect>)
        ensures
            exists|now: Timestamp|
                clock::deferrable(now) && (Outcome {
                    app: final(self)@,
                    effects: r.deep_view(),
                }) == #[trigger] old(self)@.after_event(event, now),
    {
        let now = now_utc();
        self.handle_event_at(event, now)
    }
}

} // verus!
