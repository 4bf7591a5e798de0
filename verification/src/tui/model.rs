//! What every event does to the application, as mathematical values.

use vstd::prelude::*;
use crate::clock::Timestamp;
use crate::config::{ConfigModel, StateModel};
use crate::docker::model::{
    ContainerModel, DiskUsage, ImageModel, ProgressModel, StatusModel, UpdateModel,
};
use crate::docker::prune;
use crate::registry;
use crate::style;
use crate::style::SpanModel;
use crate::text;
use crate::theme::ThemeModel;
use crate::tui::changelog;
use crate::tui::progress::ApplyModel;
use crate::tui::sort;
use crate::tui::types;
use crate::tui::types::{
    AppEvent, ClickRegion, ClickTarget, ConfirmModel, EffectModel, Input, Key, KeyPress,
    MouseAction, MouseInput, OverlayModel, PaletteAction, SortKey, StatsModel, Tab, UiAction,
};

verus! {

/// The application as mathematical values.
pub struct AppModel {
    pub config: ConfigModel,
    pub state: StateModel,
    pub theme: ThemeModel,
    pub tab: Tab,
    pub overlay: OverlayModel,
    pub images: Seq<ImageModel>,
    pub containers: Seq<ContainerModel>,
    pub usage: Option<DiskUsage>,
    pub selected: usize,
    /// Image reference to the latest known update result.
    pub updates: Map<Seq<char>, UpdateModel>,
    /// Image reference to the latest stats sample.
    pub stats: Map<Seq<char>, StatsModel>,
    pub overlay_view: Seq<Seq<SpanModel>>,
    pub overlay_scroll: usize,
    pub overlay_title: Seq<char>,
    pub status_message: Seq<char>,
    pub should_quit: bool,
    pub palette_query: Seq<char>,
    pub palette_index: usize,
    pub apply: Option<ApplyModel>,
    pub regions: Seq<ClickRegion>,
    /// What the lists are sorted by, and whether from high to low.
    pub sort: SortKey,
    pub descending: bool,
    /// Whether the application has the mouse.
    pub mouse: bool,
}

/// What comes of an event: the application after it, and the work it asks for.
pub struct Outcome {
    pub app: AppModel,
    pub effects: Seq<EffectModel>,
}

/// The references of the images that have one, in order.
pub open spec fn references(images: Seq<ImageModel>) -> Seq<Seq<char>>
    decreases images.len(),
{
    if images.len() == 0 {
        Seq::empty()
    } else {
        match images.last().primary_reference() {
            Some(r) => references(images.drop_last()).push(r),
            None => references(images.drop_last()),
        }
    }
}

/// The references among `refs` whose updates are not deferred at `now`.
pub open spec fn awake(refs: Seq<Seq<char>>, state: StateModel, now: Timestamp) -> Seq<Seq<char>>
    decreases refs.len(),
{
    if refs.len() == 0 {
        Seq::empty()
    } else if state.deferred_at(refs.last(), now) {
        awake(refs.drop_last(), state, now)
    } else {
        awake(refs.drop_last(), state, now).push(refs.last())
    }
}

/// The update results once all of `refs` are being checked.
pub open spec fn checking(
    updates: Map<Seq<char>, UpdateModel>,
    refs: Seq<Seq<char>>,
) -> Map<Seq<char>, UpdateModel>
    decreases refs.len(),
{
    if refs.len() == 0 {
        updates
    } else {
        checking(updates, refs.drop_last()).insert(
            refs.last(),
            UpdateModel::of_status(StatusModel::Checking),
        )
    }
}

/// The id of the last image whose reference is `r`.
pub open spec fn current_id(images: Seq<ImageModel>, r: Seq<char>) -> Option<Seq<char>>
    decreases images.len(),
{
    if images.len() == 0 {
        None
    } else if images.last().primary_reference() == Some(r) {
        Some(images.last().id)
    } else {
        current_id(images.drop_last(), r)
    }
}

/// Whether an update result was computed against another image than the one that `r` names now.
pub open spec fn outdated(info: UpdateModel, images: Seq<ImageModel>, r: Seq<char>) -> bool {
    match (info.local_id, current_id(images, r)) {
        (Some(cached), Some(current)) => cached != current,
        _ => false,
    }
}

/// The references whose update result is outdated.
pub open spec fn stale(
    updates: Map<Seq<char>, UpdateModel>,
    images: Seq<ImageModel>,
) -> Set<Seq<char>> {
    Set::new(|r: Seq<char>| updates.contains_key(r) && outdated(updates[r], images, r))
}

/// The catalog's actions whose label contains `query`.
pub open spec fn matching(
    catalog: Seq<(Seq<char>, PaletteAction)>,
    query: Seq<char>,
) -> Seq<(Seq<char>, PaletteAction)>
    decreases catalog.len(),
{
    if catalog.len() == 0 {
        Seq::empty()
    } else {
        let rest = matching(catalog.drop_last(), query);
        if query.len() == 0 || text::occurs(text::lowercase(catalog.last().0), query) {
            rest.push(catalog.last())
        } else {
            rest
        }
    }
}

/// One less, or zero.
pub open spec fn before(n: nat) -> nat {
    if n == 0 {
        0
    } else {
        (n - 1) as nat
    }
}

impl AppModel {
    /// The application when it starts.
    pub open spec fn initial(config: ConfigModel, state: StateModel) -> AppModel {
        AppModel {
            config,
            state,
            theme: ThemeModel::named(config.theme),
            tab: Tab::Images,
            overlay: OverlayModel::Closed,
            images: Seq::empty(),
            containers: Seq::empty(),
            usage: None,
            selected: 0,
            updates: state.update_cache,
            stats: Map::empty(),
            overlay_view: Seq::empty(),
            overlay_scroll: 0,
            overlay_title: Seq::empty(),
            status_message: "Loading…"@,
            should_quit: false,
            palette_query: Seq::empty(),
            palette_index: 0,
            apply: None,
            regions: Seq::empty(),
            sort: SortKey::Listed,
            descending: false,
            mouse: true,
        }
    }

    /// Nothing further to do.
    pub open spec fn quiet(self) -> Outcome {
        Outcome { app: self, effects: Seq::empty() }
    }

    /// One thing further to do.
    pub open spec fn asks(self, e: EffectModel) -> Outcome {
        Outcome { app: self, effects: seq![e] }
    }

    /// Two things further to do.
    pub open spec fn asks_both(self, a: EffectModel, b: EffectModel) -> Outcome {
        Outcome { app: self, effects: seq![a, b] }
    }

    pub open spec fn saying(self, message: Seq<char>) -> AppModel {
        AppModel { status_message: message, ..self }
    }

    pub open spec fn showing(self, overlay: OverlayModel) -> AppModel {
        AppModel { overlay, ..self }
    }

    // ── Reading ────────────────────────────────────────────────────────────

    /// Number of rows in the currently active list.
    pub open spec fn row_count(self) -> nat {
        match self.tab {
            Tab::Images => self.images.len(),
            Tab::Containers => self.containers.len(),
            Tab::Space => 0,
        }
    }

    /// The container under the selection, on whatever tab.
    pub open spec fn selected_container(self) -> Option<ContainerModel> {
        if self.selected < self.containers.len() {
            Some(self.containers[self.selected as int])
        } else {
            None
        }
    }

    /// The image reference for the current selection, if applicable.
    pub open spec fn selected_image_ref(self) -> Option<Seq<char>> {
        match self.tab {
            Tab::Images => if self.selected < self.images.len() {
                self.images[self.selected as int].primary_reference()
            } else {
                None
            },
            Tab::Containers => match self.selected_container() {
                Some(c) => Some(c.image),
                None => None,
            },
            Tab::Space => None,
        }
    }

    /// The image references of the active list.
    pub open spec fn listed_refs(self) -> Seq<Seq<char>> {
        match self.tab {
            Tab::Images => references(self.images),
            Tab::Containers => self.containers.map_values(|c: ContainerModel| c.image),
            Tab::Space => Seq::empty(),
        }
    }

    /// Palette actions whose label contains the (case-insensitive) query.
    pub open spec fn palette_matches(self) -> Seq<(Seq<char>, PaletteAction)> {
        matching(PaletteAction::labels(), text::lowercase(self.palette_query))
    }

    /// Whether the open overlay is one that scrolls.
    pub open spec fn scrolls(self) -> bool {
        self.overlay is Logs || self.overlay is Changelog || self.overlay is Help
    }

    /// Whether a container update is on its way.
    pub open spec fn applying(self) -> bool {
        self.apply matches Some(a) && !a.finished
    }

    // ── Actions ────────────────────────────────────────────────────────────

    pub open spec fn set_tab(self, tab: Tab) -> AppModel {
        AppModel { tab, selected: 0, ..self }
    }

    /// The selection moves by `delta` rows, round the list.
    pub open spec fn move_selection(self, delta: int) -> AppModel {
        if self.row_count() == 0 {
            self
        } else {
            AppModel {
                selected: ((self.selected + delta) % (self.row_count() as int)) as usize,
                ..self
            }
        }
    }

    /// The selection goes to the last row where it stands behind it.
    pub open spec fn clamp_selection(self) -> AppModel {
        if self.row_count() == 0 {
            AppModel { selected: 0, ..self }
        } else if self.selected >= self.row_count() {
            AppModel { selected: (self.row_count() - 1) as usize, ..self }
        } else {
            self
        }
    }

    pub open spec fn scroll_down(self) -> AppModel {
        let bound = before(self.overlay_view.len());
        AppModel {
            overlay_scroll: if self.overlay_scroll + 1 <= bound {
                (self.overlay_scroll + 1) as usize
            } else {
                bound as usize
            },
            ..self
        }
    }

    pub open spec fn scroll_up(self) -> AppModel {
        AppModel { overlay_scroll: before(self.overlay_scroll as nat) as usize, ..self }
    }

    /// The lists are put in order.
    pub open spec fn arranged(self) -> AppModel {
        AppModel {
            images: sort::images_by(self.images, self.sort, self.descending, self.updates),
            containers: sort::containers_by(
                self.containers,
                self.sort,
                self.descending,
                self.updates,
                self.stats,
            ),
            ..self
        }
    }

    /// The lists are sorted by a column.
    pub open spec fn sorted_by(self, key: SortKey, descending: bool) -> AppModel {
        AppModel { sort: key, descending, ..self }.arranged()
    }

    /// The lists are sorted by the next column of the active list, from low to high.
    pub open spec fn cycle_sort(self) -> AppModel {
        if self.tab is Space {
            self
        } else {
            self.sorted_by(self.sort.following(self.tab), false)
        }
    }

    /// The lists are sorted the other way round.
    pub open spec fn reverse_sort(self) -> AppModel {
        self.sorted_by(self.sort, !self.descending)
    }

    /// Select mode begins or ends: without the mouse, the terminal lets text be selected.
    pub open spec fn toggle_mouse(self) -> Outcome {
        AppModel { mouse: !self.mouse, ..self }.asks(EffectModel::CaptureMouse(!self.mouse))
    }

    pub open spec fn cycle_theme(self) -> Outcome {
        let next = ThemeModel::next_name(self.theme.name);
        AppModel {
            theme: ThemeModel::named(next),
            config: ConfigModel { theme: next, ..self.config },
            status_message: "theme: "@ + next,
            ..self
        }.asks(EffectModel::SaveConfig)
    }

    pub open spec fn refresh(self) -> Outcome {
        self.saying("Refreshing…"@).asks(EffectModel::Reload)
    }

    /// The stats of the selected container are sampled, if it runs.
    pub open spec fn sample_stats(self) -> Outcome {
        match self.selected_container() {
            Some(c) => if c.is_running() {
                self.asks(EffectModel::SampleStats { id: c.id, image: c.image })
            } else {
                self.quiet()
            },
            None => self.quiet(),
        }
    }

    pub open spec fn check_selected_update(self) -> Outcome {
        match self.selected_image_ref() {
            Some(image) => AppModel {
                updates: self.updates.insert(
                    image,
                    UpdateModel::of_status(StatusModel::Checking),
                ),
                ..self
            }.asks(EffectModel::CheckUpdate(image)),
            None => self.quiet(),
        }
    }

    /// All images of the active list are checked but those deferred at `now`.
    pub open spec fn check_all_updates(self, now: Timestamp) -> Outcome {
        if self.tab is Space {
            self.quiet()
        } else {
            let due = awake(self.listed_refs(), self.state, now);
            Outcome {
                app: AppModel {
                    status_message: "Checking "@ + text::decimal(self.listed_refs().len())
                        + " images…"@,
                    updates: checking(self.updates, due),
                    ..self
                },
                effects: due.map_values(|r: Seq<char>| EffectModel::CheckUpdate(r)),
            }
        }
    }

    pub open spec fn apply_selected_update(self) -> AppModel {
        if !(self.tab is Containers) {
            self.saying("switch to the Containers tab to apply an update"@)
        } else {
            match self.selected_container() {
                Some(c) => self.showing(
                    OverlayModel::Confirm(ConfirmModel::ApplyUpdate(c.id, c.image)),
                ),
                None => self,
            }
        }
    }

    pub open spec fn open_logs(self) -> Outcome {
        if !(self.tab is Containers) {
            self.saying("logs are available on the Containers tab"@).quiet()
        } else {
            match self.selected_container() {
                Some(c) => AppModel {
                    overlay_title: "logs: "@ + c.name,
                    status_message: "loading logs…"@,
                    ..self
                }.asks(EffectModel::FetchLogs { id: c.id, tail: 200 }),
                None => self.quiet(),
            }
        }
    }

    /// The changelog source that is pinned for an image.
    pub open spec fn pinned(self, image: Seq<char>) -> Option<Seq<char>> {
        if self.state.changelog_sources.contains_key(image) {
            Some(self.state.changelog_sources[image])
        } else {
            None
        }
    }

    /// The changelog source that is known of an image: the pinned one, else what its last check
    /// found.
    pub open spec fn known_source(self, image: Seq<char>) -> Option<Seq<char>> {
        if self.pinned(image) is Some {
            self.pinned(image)
        } else if self.updates.contains_key(image) {
            self.updates[image].changelog_repo
        } else {
            None
        }
    }

    pub open spec fn open_changelog(self) -> Outcome {
        match self.selected_image_ref() {
            None => self.quiet(),
            Some(image) => match registry::source_of(image, self.known_source(image)) {
                None => self.saying("no changelog source known for "@ + image).quiet(),
                Some(repo) => self.saying("fetching "@ + repo + " releases…"@).asks(
                    EffectModel::FetchReleases {
                        repo,
                        title: "changelog: "@ + repo,
                        token: self.config.github_token,
                        limit: 5,
                    },
                ),
            },
        }
    }

    pub open spec fn toggle_start_stop(self) -> Outcome {
        if !(self.tab is Containers) {
            self.quiet()
        } else {
            match self.selected_container() {
                Some(c) => self.asks_both(
                    if c.is_running() {
                        EffectModel::StopContainer { id: c.id, name: c.name }
                    } else {
                        EffectModel::StartContainer { id: c.id, name: c.name }
                    },
                    EffectModel::ReloadSoon,
                ),
                None => self.quiet(),
            }
        }
    }

    pub open spec fn restart_selected(self) -> Outcome {
        if !(self.tab is Containers) {
            self.quiet()
        } else {
            match self.selected_container() {
                Some(c) => self.asks_both(
                    EffectModel::RestartContainer { id: c.id, name: c.name },
                    EffectModel::ReloadSoon,
                ),
                None => self.quiet(),
            }
        }
    }

    pub open spec fn confirm_remove_selected(self) -> AppModel {
        if !(self.tab is Containers) {
            self
        } else {
            match self.selected_container() {
                Some(c) => self.showing(
                    OverlayModel::Confirm(ConfirmModel::RemoveContainer(c.id, c.name)),
                ),
                None => self,
            }
        }
    }

    pub open spec fn defer_selected(self, now: Timestamp) -> Outcome {
        match self.selected_image_ref() {
            Some(image) => AppModel {
                state: self.state.after_defer(image, now),
                status_message: "deferred "@ + image + " for 30 days"@,
                ..self
            }.asks(EffectModel::SaveState),
            None => self.quiet(),
        }
    }

    pub open spec fn run_confirmed(self, action: ConfirmModel) -> Outcome {
        match action {
            ConfirmModel::RemoveContainer(id, name) => self.asks_both(
                EffectModel::RemoveContainer { id, name },
                EffectModel::ReloadSoon,
            ),
            ConfirmModel::PruneImages(all) => self.asks_both(
                EffectModel::PruneImages(all),
                EffectModel::ReloadSoon,
            ),
            ConfirmModel::PruneContainers => self.asks_both(
                EffectModel::PruneContainers,
                EffectModel::ReloadSoon,
            ),
            ConfirmModel::PruneVolumes => self.asks_both(
                EffectModel::PruneVolumes,
                EffectModel::ReloadSoon,
            ),
            ConfirmModel::PruneBuildCache => self.asks_both(
                EffectModel::PruneBuildCache,
                EffectModel::ReloadSoon,
            ),
            ConfirmModel::PruneAll => self.asks_both(
                EffectModel::PruneAll(prune::everything()),
                EffectModel::ReloadSoon,
            ),
            ConfirmModel::ApplyUpdate(id, image) => AppModel {
                apply: Some(ApplyModel::fresh("Updating "@ + image)),
                overlay: OverlayModel::ApplyProgress,
                ..self
            }.asks(EffectModel::ApplyUpdate { id, image }),
        }
    }

    /// The confirmation that is open is answered with yes.
    pub open spec fn confirm(self) -> Outcome {
        match self.overlay {
            OverlayModel::Confirm(action) => self.showing(OverlayModel::Closed).run_confirmed(
                action,
            ),
            _ => self.quiet(),
        }
    }

    /// The overlay closes, and what it showed is dropped.
    pub open spec fn close_overlay(self) -> AppModel {
        AppModel { overlay: OverlayModel::Closed, overlay_view: Seq::empty(), ..self }
    }

    pub open spec fn open_palette(self) -> AppModel {
        AppModel {
            palette_query: Seq::empty(),
            palette_index: 0,
            overlay: OverlayModel::Palette,
            ..self
        }
    }

    pub open spec fn run_palette_action(self, action: PaletteAction, now: Timestamp) -> Outcome {
        match action {
            PaletteAction::Refresh => self.refresh(),
            PaletteAction::CheckAll => self.check_all_updates(now),
            PaletteAction::OpenPrune => self.showing(OverlayModel::Prune).quiet(),
            PaletteAction::PruneAll => self.showing(
                OverlayModel::Confirm(ConfirmModel::PruneAll),
            ).quiet(),
            PaletteAction::CycleTheme => self.cycle_theme(),
            PaletteAction::GotoImages => self.set_tab(Tab::Images).quiet(),
            PaletteAction::GotoContainers => self.set_tab(Tab::Containers).quiet(),
            PaletteAction::GotoSpace => self.set_tab(Tab::Space).quiet(),
            PaletteAction::ApplySelected => self.apply_selected_update().quiet(),
            PaletteAction::Quit => AppModel { should_quit: true, ..self }.quiet(),
        }
    }

    /// The palette closes and runs its match at `i`, if there is one.
    pub open spec fn run_palette_match(self, i: usize, now: Timestamp) -> Outcome {
        if i < self.palette_matches().len() {
            self.showing(OverlayModel::Closed).run_palette_action(
                self.palette_matches()[i as int].1,
                now,
            )
        } else {
            self.quiet()
        }
    }

    pub open spec fn run_ui_action(self, action: UiAction, now: Timestamp) -> Outcome {
        match action {
            UiAction::Refresh => self.refresh(),
            UiAction::CheckSelected => self.check_selected_update(),
            UiAction::CheckAll => self.check_all_updates(now),
            UiAction::Details => self.showing(OverlayModel::UpdateDetails).quiet(),
            UiAction::Apply => self.apply_selected_update().quiet(),
            UiAction::StartStop => self.toggle_start_stop(),
            UiAction::Restart => self.restart_selected(),
            UiAction::Logs => self.open_logs(),
            UiAction::Changelog => self.open_changelog(),
            UiAction::Remove => self.confirm_remove_selected().quiet(),
            UiAction::Defer => self.defer_selected(now),
            UiAction::OpenPrune => self.showing(OverlayModel::Prune).quiet(),
            UiAction::CycleSort => self.cycle_sort().quiet(),
            UiAction::ToggleMouse => self.toggle_mouse(),
            UiAction::CycleTheme => self.cycle_theme(),
            UiAction::Help => self.showing(OverlayModel::Help).quiet(),
            UiAction::OpenPalette => self.open_palette().quiet(),
            UiAction::Quit => AppModel { should_quit: true, ..self }.quiet(),
            UiAction::PruneImages(all) => self.showing(
                OverlayModel::Confirm(ConfirmModel::PruneImages(all)),
            ).quiet(),
            UiAction::PruneContainers => self.showing(
                OverlayModel::Confirm(ConfirmModel::PruneContainers),
            ).quiet(),
            UiAction::PruneVolumes => self.showing(
                OverlayModel::Confirm(ConfirmModel::PruneVolumes),
            ).quiet(),
            UiAction::PruneBuildCache => self.showing(
                OverlayModel::Confirm(ConfirmModel::PruneBuildCache),
            ).quiet(),
            UiAction::PruneAll => self.showing(
                OverlayModel::Confirm(ConfirmModel::PruneAll),
            ).quiet(),
            UiAction::ConfirmYes => self.confirm(),
            UiAction::ConfirmNo => self.showing(OverlayModel::Closed).quiet(),
            UiAction::CloseOverlay => self.close_overlay().quiet(),
            UiAction::PaletteItem(i) => self.run_palette_match(i, now),
        }
    }

    /// Clicking a row selects it; clicking the already-selected row opens details.
    pub open spec fn click_row(self, i: usize) -> AppModel {
        if self.tab is Space {
            self
        } else if self.selected == i {
            self.showing(OverlayModel::UpdateDetails)
        } else {
            AppModel { selected: i, ..self }
        }
    }

    // ── Events ─────────────────────────────────────────────────────────────

    /// A key on a confirmation.
    pub open spec fn after_confirm_key(self, key: Key) -> Outcome {
        match key {
            Key::Char('y') | Key::Enter => self.confirm(),
            Key::Char('n') | Key::Esc | Key::Char('q') => self.showing(
                OverlayModel::Closed,
            ).quiet(),
            _ => self.quiet(),
        }
    }

    /// A key on the prune menu.
    pub open spec fn after_prune_key(self, key: Key) -> AppModel {
        match key {
            Key::Char('i') => self.showing(
                OverlayModel::Confirm(ConfirmModel::PruneImages(false)),
            ),
            Key::Char('I') => self.showing(
                OverlayModel::Confirm(ConfirmModel::PruneImages(true)),
            ),
            Key::Char('c') => self.showing(OverlayModel::Confirm(ConfirmModel::PruneContainers)),
            Key::Char('v') => self.showing(OverlayModel::Confirm(ConfirmModel::PruneVolumes)),
            Key::Char('b') => self.showing(OverlayModel::Confirm(ConfirmModel::PruneBuildCache)),
            Key::Char('a') => self.showing(OverlayModel::Confirm(ConfirmModel::PruneAll)),
            Key::Esc | Key::Char('q') => self.showing(OverlayModel::Closed),
            _ => self,
        }
    }

    /// A key on an overlay that scrolls.
    pub open spec fn after_scroll_key(self, key: Key) -> AppModel {
        match key {
            Key::Esc | Key::Char('q') => self.close_overlay(),
            Key::Down | Key::Char('j') => self.scroll_down(),
            Key::Up | Key::Char('k') => self.scroll_up(),
            _ => self,
        }
    }

    /// A key on the update details.
    pub open spec fn after_details_key(self, key: Key) -> Outcome {
        match key {
            Key::Esc | Key::Char('q') | Key::Enter => self.showing(OverlayModel::Closed).quiet(),
            Key::Char('w') => self.showing(OverlayModel::Closed).open_changelog(),
            Key::Char('u') => self.showing(OverlayModel::Closed).check_selected_update(),
            _ => self.quiet(),
        }
    }

    /// A key on the progress of an update.
    pub open spec fn after_progress_key(self, key: Key) -> AppModel {
        if (key is Esc || key == Key::Char('q')) && !self.applying() {
            self.showing(OverlayModel::Closed)
        } else {
            self
        }
    }

    /// A key on the palette.
    pub open spec fn after_palette_key(self, key: Key, now: Timestamp) -> Outcome {
        let count = self.palette_matches().len() as int;
        match key {
            Key::Esc => self.showing(OverlayModel::Closed).quiet(),
            Key::Enter => self.run_palette_match(self.palette_index, now),
            Key::Backspace => AppModel {
                palette_query: if self.palette_query.len() == 0 {
                    self.palette_query
                } else {
                    self.palette_query.drop_last()
                },
                palette_index: 0,
                ..self
            }.quiet(),
            Key::Down => if count > 0 {
                AppModel {
                    palette_index: ((self.palette_index + 1) % count) as usize,
                    ..self
                }.quiet()
            } else {
                self.quiet()
            },
            Key::Up => if count > 0 {
                AppModel {
                    palette_index: ((self.palette_index - 1) % count) as usize,
                    ..self
                }.quiet()
            } else {
                self.quiet()
            },
            Key::Char(c) => AppModel {
                palette_query: self.palette_query.push(c),
                palette_index: 0,
                ..self
            }.quiet(),
            _ => self.quiet(),
        }
    }

    /// A key while an overlay is open.
    pub open spec fn after_overlay_key(self, key: Key, now: Timestamp) -> Outcome {
        match self.overlay {
            OverlayModel::Confirm(_) => self.after_confirm_key(key),
            OverlayModel::Prune => self.after_prune_key(key).quiet(),
            OverlayModel::Logs | OverlayModel::Changelog | OverlayModel::Help =>
                self.after_scroll_key(key).quiet(),
            OverlayModel::UpdateDetails => self.after_details_key(key),
            OverlayModel::ApplyProgress => self.after_progress_key(key).quiet(),
            OverlayModel::Palette => self.after_palette_key(key, now),
            OverlayModel::Closed => self.quiet(),
        }
    }

    /// A key while no overlay is open.
    pub open spec fn after_plain_key(self, key: Key, control: bool, now: Timestamp) -> Outcome {
        match key {
            Key::Char('q') => AppModel { should_quit: true, ..self }.quiet(),
            Key::Char('c') => if control {
                AppModel { should_quit: true, ..self }.quiet()
            } else {
                self.quiet()
            },
            Key::Tab => self.set_tab(Tab::at(self.tab.place() + 1)).quiet(),
            Key::Char('l') => if control {
                self.set_tab(Tab::at(self.tab.place() + 1)).quiet()
            } else {
                self.quiet()
            },
            Key::BackTab => self.set_tab(Tab::at(self.tab.place() - 1)).quiet(),
            Key::Char('1') => self.set_tab(Tab::Images).quiet(),
            Key::Char('2') => self.set_tab(Tab::Containers).quiet(),
            Key::Char('3') => self.set_tab(Tab::Space).quiet(),
            Key::Down | Key::Char('j') => self.move_selection(1).quiet(),
            Key::Up | Key::Char('k') => self.move_selection(-1).quiet(),
            Key::Home | Key::Char('g') => AppModel { selected: 0, ..self }.quiet(),
            Key::End | Key::Char('G') => AppModel {
                selected: before(self.row_count()) as usize,
                ..self
            }.quiet(),
            Key::Char('r') => self.refresh(),
            Key::Char('u') => self.check_selected_update(),
            Key::Char('U') => self.check_all_updates(now),
            Key::Enter => self.showing(OverlayModel::UpdateDetails).quiet(),
            Key::Char('a') => self.apply_selected_update().quiet(),
            Key::Char('L') => self.open_logs(),
            Key::Char('w') => self.open_changelog(),
            Key::Char('s') => self.toggle_start_stop(),
            Key::Char('R') => self.restart_selected(),
            Key::Char('x') => self.confirm_remove_selected().quiet(),
            Key::Char('d') => self.defer_selected(now),
            Key::Char('p') => if control {
                self.open_palette().quiet()
            } else {
                self.showing(OverlayModel::Prune).quiet()
            },
            Key::Char('o') => self.cycle_sort().quiet(),
            Key::Char('O') => self.reverse_sort().quiet(),
            Key::Char('y') => self.toggle_mouse(),
            Key::Char('T') => self.cycle_theme(),
            Key::Char('?') => self.showing(OverlayModel::Help).quiet(),
            Key::Char(':') => self.open_palette().quiet(),
            _ => self.quiet(),
        }
    }

    /// A key; only its way down counts.
    pub open spec fn after_key(self, press: KeyPress, now: Timestamp) -> Outcome {
        if press.release {
            self.quiet()
        } else if self.overlay is Closed {
            self.after_plain_key(press.key, press.control, now)
        } else {
            self.after_overlay_key(press.key, now)
        }
    }

    /// A click outside every hit region: it dismisses a dismissable overlay. Confirmations and
    /// in-flight updates are none.
    pub open spec fn after_stray_click(self) -> AppModel {
        if self.overlay is Closed || self.overlay is Confirm || (self.overlay is ApplyProgress
            && self.applying()) {
            self
        } else {
            self.close_overlay()
        }
    }

    /// A click of the left mouse button.
    pub open spec fn after_click(self, x: u16, y: u16, now: Timestamp) -> Outcome {
        match types::hit(self.regions, x, y) {
            Some(ClickTarget::Tab(tab)) => self.set_tab(tab).quiet(),
            Some(ClickTarget::Row(i)) => self.click_row(i).quiet(),
            Some(ClickTarget::Header(key)) => self.sorted_by(key, false).quiet(),
            Some(ClickTarget::Action(a)) => self.run_ui_action(a, now),
            None => self.after_stray_click().quiet(),
        }
    }

    pub open spec fn after_mouse(self, mouse: MouseInput, now: Timestamp) -> Outcome {
        match mouse.action {
            MouseAction::LeftDown => self.after_click(mouse.column, mouse.row, now),
            MouseAction::ScrollDown => if self.scrolls() {
                self.scroll_down().quiet()
            } else if self.overlay is Closed {
                self.move_selection(1).quiet()
            } else {
                self.quiet()
            },
            MouseAction::ScrollUp => if self.scrolls() {
                self.scroll_up().quiet()
            } else if self.overlay is Closed {
                self.move_selection(-1).quiet()
            } else {
                self.quiet()
            },
            MouseAction::Other => self.quiet(),
        }
    }

    pub open spec fn after_tick(self) -> Outcome {
        if self.tab is Containers && self.overlay is Closed {
            self.sample_stats()
        } else {
            self.quiet()
        }
    }

    /// The result of an update check: it is shown, and remembered unless it is an error.
    pub open spec fn after_update_result(self, image: Seq<char>, info: UpdateModel) -> Outcome {
        let detail = match info.transition() {
            Some(t) => ": "@ + t,
            None => Seq::empty(),
        };
        let shown = AppModel {
            status_message: if info.status is UpdateAvailable {
                "update available: "@ + image + detail
            } else {
                self.status_message
            },
            updates: self.updates.insert(image, info),
            ..self
        };
        if info.status is Error {
            shown.quiet()
        } else {
            AppModel {
                state: StateModel {
                    update_cache: self.state.update_cache.insert(image, info),
                    ..self.state
                },
                ..shown
            }.asks(EffectModel::SaveState)
        }
    }

    /// Drop cached update results whose local image id has since changed.
    pub open spec fn invalidate_stale_updates(self) -> AppModel {
        let old = stale(self.updates, self.images);
        AppModel {
            updates: self.updates.remove_keys(old),
            state: StateModel {
                update_cache: self.state.update_cache.remove_keys(old),
                ..self.state
            },
            ..self
        }
    }

    pub open spec fn after_reload(
        self,
        images: Seq<ImageModel>,
        containers: Seq<ContainerModel>,
        usage: DiskUsage,
    ) -> AppModel {
        AppModel {
            images,
            containers,
            usage: Some(usage),
            ..self
        }.invalidate_stale_updates().arranged().clamp_selection().saying(
            text::decimal(images.len()) + " images · "@ + text::decimal(containers.len())
                + " containers"@,
        )
    }

    pub open spec fn after_logs(self, lines: Seq<Seq<char>>) -> AppModel {
        AppModel {
            overlay_view: lines.map_values(|l: Seq<char>| style::raw(l)),
            overlay_scroll: before(lines.len()) as usize,
            overlay: OverlayModel::Logs,
            ..self
        }
    }

    pub open spec fn after_progress(self, progress: ProgressModel) -> Outcome {
        match self.apply {
            Some(a) => {
                let app = AppModel { apply: Some(a.after(progress)), ..self };
                if a.after(progress).finished {
                    app.asks(EffectModel::Reload)
                } else {
                    app.quiet()
                }
            },
            None => self.quiet(),
        }
    }

    pub open spec fn after_event(self, event: AppEvent, now: Timestamp) -> Outcome {
        match event {
            AppEvent::Input(Input::Key(press)) => self.after_key(press, now),
            AppEvent::Input(Input::Mouse(mouse)) => self.after_mouse(mouse, now),
            AppEvent::Input(Input::Other) => self.quiet(),
            AppEvent::Tick => self.after_tick(),
            AppEvent::UpdateResult(image, info) => self.after_update_result(image@, info@),
            AppEvent::Reloaded(data) => self.after_reload(
                data.images.deep_view(),
                data.containers.deep_view(),
                data.usage,
            ).quiet(),
            AppEvent::Logs(lines) => self.after_logs(lines.deep_view()).quiet(),
            AppEvent::Changelog(title, releases) => AppModel {
                overlay_title: title@,
                overlay_view: changelog::changelog(releases@, self.theme),
                overlay_scroll: 0,
                overlay: OverlayModel::Changelog,
                ..self
            }.quiet(),
            AppEvent::Stats(image, stats) => AppModel {
                stats: self.stats.insert(image@, stats@),
                ..self
            }.quiet(),
            AppEvent::Apply(progress) => self.after_progress(progress@),
            AppEvent::Message(message) => self.saying(message@).quiet(),
        }
    }
}

} // verus!
