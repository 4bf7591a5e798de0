//! What holds of the application whatever the user does.

use vstd::prelude::*;
use crate::clock;
use crate::clock::Timestamp;
use crate::config::{ConfigModel, StateModel};
use crate::docker::model::{ContainerModel, DiskUsage, ImageModel, ProgressModel, UpdateModel};
use crate::docker::prune;
use crate::theme;
use crate::tui::model;
use crate::tui::model::{AppModel, Outcome};
use crate::tui::sort;
use crate::tui::types;
use crate::tui::types::{
    AppEvent, ClickRegion, ClickTarget, ConfirmModel, EffectModel, Input, Key, KeyPress,
    MouseInput, OverlayModel, PaletteAction, SortKey, Tab, UiAction,
};

verus! {

// ── Confirmation ───────────────────────────────────────────────────────────

/// The effect that a confirmation asks about.
pub open spec fn demanded(action: ConfirmModel) -> EffectModel {
    match action {
        ConfirmModel::RemoveContainer(id, name) => EffectModel::RemoveContainer { id, name },
        ConfirmModel::PruneImages(all) => EffectModel::PruneImages(all),
        ConfirmModel::PruneContainers => EffectModel::PruneContainers,
        ConfirmModel::PruneVolumes => EffectModel::PruneVolumes,
        ConfirmModel::PruneBuildCache => EffectModel::PruneBuildCache,
        ConfirmModel::PruneAll => EffectModel::PruneAll(prune::everything()),
        ConfirmModel::ApplyUpdate(id, image) => EffectModel::ApplyUpdate { id, image },
    }
}

/// Whether an event says yes to a confirmation: `y` or Enter, or a click on its button.
pub open spec fn says_yes(app: AppModel, event: AppEvent) -> bool {
    match event {
        AppEvent::Input(Input::Key(press)) => !press.release && (press.key is Enter || press.key
            == Key::Char('y')),
        AppEvent::Input(Input::Mouse(mouse)) => mouse.action is LeftDown && types::hit(
            app.regions,
            mouse.column,
            mouse.row,
        ) == Some(ClickTarget::Action(UiAction::ConfirmYes)),
        _ => false,
    }
}

/// Nothing is removed, pruned or replaced unasked: such an effect comes only of an event that
/// says yes to an open confirmation, and it is the effect that the confirmation asked about.
pub proof fn law_nothing_is_destroyed_unasked(
    app: AppModel,
    event: AppEvent,
    now: Timestamp,
    i: int,
)
    requires
        0 <= i < app.after_event(event, now).effects.len(),
        app.after_event(event, now).effects[i].destroys(),
    ensures
        says_yes(app, event),
        app.overlay is Confirm,
        app.after_event(event, now).effects[i] == demanded(app.overlay->Confirm_0),
{
    lemma_event(app, event, now);
}

/// A yes runs what was asked about, first of all, and closes the confirmation.
pub proof fn law_yes_runs_what_was_asked(app: AppModel, event: AppEvent, now: Timestamp)
    requires
        app.overlay is Confirm,
        says_yes(app, event),
    ensures
        app.after_event(event, now).effects.len() > 0,
        app.after_event(event, now).effects[0] == demanded(app.overlay->Confirm_0),
        !(app.after_event(event, now).app.overlay is Confirm),
{
}

/// A click outside every region dismisses neither a confirmation nor a running update; any
/// other overlay it does dismiss.
pub proof fn law_stray_click_keeps_what_matters(
    app: AppModel,
    mouse: MouseInput,
    now: Timestamp,
)
    requires
        mouse.action is LeftDown,
        types::hit(app.regions, mouse.column, mouse.row) is None,
    ensures
        app.overlay is Confirm || (app.overlay is ApplyProgress && app.applying())
            ==> app.after_mouse(mouse, now) == app.quiet(),
        !(app.overlay is Confirm || (app.overlay is ApplyProgress && app.applying()))
            ==> app.after_mouse(mouse, now).app.overlay is Closed,
        app.after_mouse(mouse, now).effects.len() == 0,
{
}

/// While an update runs, no key does anything to its progress overlay.
pub proof fn law_running_update_cannot_be_dismissed(
    app: AppModel,
    press: KeyPress,
    now: Timestamp,
)
    requires
        app.overlay is ApplyProgress,
        app.applying(),
    ensures
        app.after_key(press, now) == app.quiet(),
{
}

/// Once an update has finished, Esc closes its progress overlay.
pub proof fn law_finished_update_can_be_dismissed(
    app: AppModel,
    press: KeyPress,
    now: Timestamp,
)
    requires
        app.overlay is ApplyProgress,
        !app.applying(),
        press.key is Esc,
        !press.release,
    ensures
        app.after_key(press, now) == app.showing(OverlayModel::Closed).quiet(),
{
}

/// Whether an effect on a container meets the selected one, on the Containers tab.
pub open spec fn addressed(app: AppModel, e: EffectModel) -> bool {
    let c = app.selected_container();
    let there = app.tab is Containers && c is Some;
    match e {
        EffectModel::StartContainer { id, name } => there && c->0.id == id && c->0.name == name
            && !c->0.is_running(),
        EffectModel::StopContainer { id, name } => there && c->0.id == id && c->0.name == name
            && c->0.is_running(),
        EffectModel::RestartContainer { id, name } => there && c->0.id == id && c->0.name
            == name,
        EffectModel::FetchLogs { id, tail } => there && c->0.id == id && tail == 200,
        _ => true,
    }
}

/// Containers are started, stopped and restarted, and their logs are read, only from the
/// Containers tab, and it is the selected container then.
pub proof fn law_lifecycle_hits_the_selected_container(
    app: AppModel,
    event: AppEvent,
    now: Timestamp,
    i: int,
)
    requires
        0 <= i < app.after_event(event, now).effects.len(),
    ensures
        addressed(app, app.after_event(event, now).effects[i]),
{
    lemma_event(app, event, now);
}

// ── Selection and scrolling ────────────────────────────────────────────────

/// The selection stands on a row, or at the top.
pub open spec fn in_range(app: AppModel) -> bool {
    app.selected == 0 || app.selected < app.row_count()
}

/// Every row that can be clicked is there.
pub open spec fn rows_fit(app: AppModel) -> bool {
    forall|i: int|
        0 <= i < app.regions.len() ==> match (#[trigger] app.regions[i]).target {
            ClickTarget::Row(row) => row < app.row_count(),
            _ => true,
        }
}

/// What the application holds is no longer than lists can be.
pub open spec fn countable(app: AppModel) -> bool {
    &&& app.images.len() <= usize::MAX
    &&& app.containers.len() <= usize::MAX
    &&& app.overlay_view.len() <= usize::MAX
}

/// What every action but an answer of yes keeps to.
spec fn orderly(app: AppModel, o: Outcome) -> bool {
    &&& forall|i: int| 0 <= i < o.effects.len() ==> !(#[trigger] o.effects[i]).destroys()
    &&& settled(app, o)
}

/// What every action keeps to.
spec fn settled(app: AppModel, o: Outcome) -> bool {
    &&& forall|i: int| 0 <= i < o.effects.len() ==> addressed(app, #[trigger] o.effects[i])
    &&& in_range(app) && rows_fit(app) && countable(app) ==> in_range(o.app)
    &&& scroll_in_view(app) && countable(app) ==> scroll_in_view(o.app)
    &&& app.should_quit ==> o.app.should_quit
}

proof fn lemma_requests(app: AppModel, now: Timestamp)
    ensures
        orderly(app, app.refresh()),
        orderly(app, app.check_selected_update()),
        orderly(app, app.check_all_updates(now)),
        orderly(app, app.open_logs()),
        orderly(app, app.open_changelog()),
{
}

proof fn lemma_changes(app: AppModel, now: Timestamp)
    ensures
        orderly(app, app.toggle_start_stop()),
        orderly(app, app.restart_selected()),
        orderly(app, app.sample_stats()),
        orderly(app, app.defer_selected(now)),
        orderly(app, app.cycle_theme()),
        orderly(app, app.toggle_mouse()),
{
}

/// Sorting keeps the number of rows.
proof fn lemma_arranged_rows(app: AppModel)
    ensures
        app.arranged().images.len() == app.images.len(),
        app.arranged().containers.len() == app.containers.len(),
{
    let images = app.images.map_values(
        |i: ImageModel| sort::image_rank(i, app.sort, app.updates),
    );
    let containers = app.containers.map_values(
        |c: ContainerModel| sort::container_rank(c, app.sort, app.updates, app.stats),
    );
    sort::law_rows_are_sorted(images, app.descending);
    sort::law_rows_are_sorted(containers, app.descending);
}

proof fn lemma_sorts(app: AppModel, key: SortKey, descending: bool)
    ensures
        orderly(app, app.sorted_by(key, descending).quiet()),
{
    lemma_arranged_rows(AppModel { sort: key, descending, ..app });
}

proof fn lemma_views(app: AppModel, tab: Tab)
    ensures
        orderly(app, app.apply_selected_update().quiet()),
        orderly(app, app.confirm_remove_selected().quiet()),
        orderly(app, app.open_palette().quiet()),
        orderly(app, app.close_overlay().quiet()),
        orderly(app, app.set_tab(tab).quiet()),
        orderly(app, app.quiet()),
        orderly(app, app.scroll_down().quiet()),
        orderly(app, app.scroll_up().quiet()),
{
}

proof fn lemma_moves(app: AppModel)
    ensures
        orderly(app, app.move_selection(1).quiet()),
        orderly(app, app.move_selection(-1).quiet()),
{
    if app.row_count() > 0 {
        vstd::arithmetic::div_mod::lemma_mod_bound(app.selected + 1, app.row_count() as int);
        vstd::arithmetic::div_mod::lemma_mod_bound(app.selected - 1, app.row_count() as int);
    }
}

proof fn lemma_shows(app: AppModel, overlay: OverlayModel)
    requires
        !(overlay is Logs || overlay is Changelog),
    ensures
        orderly(app, app.showing(overlay).quiet()),
{
}

/// What is orderly once the overlay is closed is orderly from before.
proof fn lemma_closed_first(app: AppModel, o: Outcome)
    requires
        orderly(app.showing(OverlayModel::Closed), o),
    ensures
        orderly(app, o),
{
    let closed = app.showing(OverlayModel::Closed);
    assert forall|i: int| 0 <= i < o.effects.len() implies addressed(
        app,
        #[trigger] o.effects[i],
    ) by {
        assert(addressed(closed, o.effects[i]));
    }
}

proof fn lemma_palette_action(app: AppModel, action: PaletteAction, now: Timestamp)
    ensures
        orderly(app, app.run_palette_action(action, now)),
{
    lemma_requests(app, now);
    lemma_changes(app, now);
    lemma_views(app, Tab::Images);
    lemma_views(app, Tab::Containers);
    lemma_views(app, Tab::Space);
    lemma_shows(app, OverlayModel::Prune);
    lemma_shows(app, OverlayModel::Confirm(ConfirmModel::PruneAll));
}

proof fn lemma_palette_match(app: AppModel, i: usize, now: Timestamp)
    ensures
        orderly(app, app.run_palette_match(i, now)),
{
    lemma_views(app, Tab::Images);
    if i < app.palette_matches().len() {
        let closed = app.showing(OverlayModel::Closed);
        let action = app.palette_matches()[i as int].1;
        lemma_palette_action(closed, action, now);
        lemma_closed_first(app, closed.run_palette_action(action, now));
    }
}

/// An answer of yes destroys only what was asked about.
proof fn lemma_confirm(app: AppModel)
    ensures
        settled(app, app.confirm()),
        !(app.overlay is Confirm) ==> orderly(app, app.confirm()),
        app.overlay is Confirm ==> forall|i: int|
            0 <= i < app.confirm().effects.len() && (
            #[trigger] app.confirm().effects[i]).destroys() ==> app.confirm().effects[i]
                == demanded(app.overlay->Confirm_0),
{
    lemma_views(app, Tab::Images);
}

proof fn lemma_ui_action(app: AppModel, action: UiAction, now: Timestamp)
    requires
        !(action is ConfirmYes),
    ensures
        orderly(app, app.run_ui_action(action, now)),
{
    match action {
        UiAction::PruneImages(all) => lemma_shows(
            app,
            OverlayModel::Confirm(ConfirmModel::PruneImages(all)),
        ),
        UiAction::PaletteItem(i) => lemma_palette_match(app, i, now),
        _ => {
            lemma_requests(app, now);
            lemma_changes(app, now);
            lemma_views(app, Tab::Images);
            lemma_sorts(app, app.sort.following(app.tab), false);
            lemma_shows(app, OverlayModel::UpdateDetails);
            lemma_shows(app, OverlayModel::Prune);
            lemma_shows(app, OverlayModel::Help);
            lemma_shows(app, OverlayModel::Closed);
            lemma_shows(app, OverlayModel::Confirm(ConfirmModel::PruneContainers));
            lemma_shows(app, OverlayModel::Confirm(ConfirmModel::PruneVolumes));
            lemma_shows(app, OverlayModel::Confirm(ConfirmModel::PruneBuildCache));
            lemma_shows(app, OverlayModel::Confirm(ConfirmModel::PruneAll));
        },
    }
}

proof fn lemma_plain_key(app: AppModel, key: Key, control: bool, now: Timestamp)
    ensures
        orderly(app, app.after_plain_key(key, control, now)),
{
    lemma_requests(app, now);
    lemma_changes(app, now);
    lemma_views(app, Tab::at(app.tab.place() + 1));
    lemma_views(app, Tab::at(app.tab.place() - 1));
    lemma_views(app, Tab::Images);
    lemma_views(app, Tab::Containers);
    lemma_views(app, Tab::Space);
    lemma_moves(app);
    lemma_shows(app, OverlayModel::UpdateDetails);
    lemma_shows(app, OverlayModel::Prune);
    lemma_shows(app, OverlayModel::Help);
    lemma_jumps(app);
    lemma_sorts(app, app.sort.following(app.tab), false);
    lemma_sorts(app, app.sort, !app.descending);
}

proof fn lemma_jumps(app: AppModel)
    ensures
        orderly(app, (AppModel { selected: 0, ..app }).quiet()),
        orderly(
            app,
            (AppModel { selected: model::before(app.row_count()) as usize, ..app }).quiet(),
        ),
        orderly(app, (AppModel { should_quit: true, ..app }).quiet()),
{
}

proof fn lemma_details_key(app: AppModel, key: Key, now: Timestamp)
    ensures
        orderly(app, app.after_details_key(key)),
{
    let closed = app.showing(OverlayModel::Closed);
    lemma_requests(closed, now);
    lemma_closed_first(app, closed.open_changelog());
    lemma_closed_first(app, closed.check_selected_update());
    lemma_shows(app, OverlayModel::Closed);
    lemma_views(app, Tab::Images);
}

proof fn lemma_palette_key(app: AppModel, key: Key, now: Timestamp)
    requires
        app.overlay is Palette,
    ensures
        orderly(app, app.after_palette_key(key, now)),
{
    lemma_palette_match(app, app.palette_index, now);
    lemma_shows(app, OverlayModel::Closed);
    lemma_views(app, Tab::Images);
}

proof fn lemma_prune_key(app: AppModel, key: Key)
    ensures
        orderly(app, app.after_prune_key(key).quiet()),
{
    lemma_shows(app, OverlayModel::Closed);
    lemma_shows(app, OverlayModel::Confirm(ConfirmModel::PruneImages(true)));
    lemma_shows(app, OverlayModel::Confirm(ConfirmModel::PruneImages(false)));
    lemma_shows(app, OverlayModel::Confirm(ConfirmModel::PruneContainers));
    lemma_shows(app, OverlayModel::Confirm(ConfirmModel::PruneVolumes));
    lemma_shows(app, OverlayModel::Confirm(ConfirmModel::PruneBuildCache));
    lemma_shows(app, OverlayModel::Confirm(ConfirmModel::PruneAll));
    lemma_views(app, Tab::Images);
}

proof fn lemma_overlay_key(app: AppModel, key: Key, now: Timestamp)
    requires
        !(app.overlay is Confirm && (key is Enter || key == Key::Char('y'))),
    ensures
        orderly(app, app.after_overlay_key(key, now)),
{
    lemma_views(app, Tab::Images);
    lemma_shows(app, OverlayModel::Closed);
    match app.overlay {
        OverlayModel::Prune => lemma_prune_key(app, key),
        OverlayModel::UpdateDetails => lemma_details_key(app, key, now),
        OverlayModel::Palette => lemma_palette_key(app, key, now),
        _ => {},
    }
}

proof fn lemma_reload(
    app: AppModel,
    images: Seq<ImageModel>,
    containers: Seq<ContainerModel>,
    usage: DiskUsage,
)
    ensures
        scroll_in_view(app) ==> scroll_in_view(app.after_reload(images, containers, usage)),
        images.len() <= usize::MAX && containers.len() <= usize::MAX ==> in_range(
            app.after_reload(images, containers, usage),
        ),
        app.should_quit ==> app.after_reload(images, containers, usage).should_quit,
{
    lemma_arranged_rows(
        (AppModel { images, containers, usage: Some(usage), ..app }).invalidate_stale_updates(),
    );
}

proof fn lemma_click(app: AppModel, x: u16, y: u16, now: Timestamp)
    requires
        types::hit(app.regions, x, y) != Some(ClickTarget::Action(UiAction::ConfirmYes)),
    ensures
        orderly(app, app.after_click(x, y, now)),
{
    lemma_hit_is_recorded(app.regions, x, y);
    lemma_views(app, Tab::Images);
    match types::hit(app.regions, x, y) {
        Some(ClickTarget::Tab(tab)) => lemma_views(app, tab),
        Some(ClickTarget::Action(a)) => lemma_ui_action(app, a, now),
        Some(ClickTarget::Header(key)) => lemma_sorts(app, key, false),
        _ => {},
    }
}

proof fn lemma_hit_is_recorded(regions: Seq<ClickRegion>, x: u16, y: u16)
    ensures
        types::hit(regions, x, y) matches Some(t) ==> exists|i: int|
            0 <= i < regions.len() && (#[trigger] regions[i]).target == t,
    decreases regions.len(),
{
    if regions.len() > 0 {
        if regions.last().covers(x, y) {
            assert(regions[regions.len() - 1].target == regions.last().target);
        } else {
            lemma_hit_is_recorded(regions.drop_last(), x, y);
            if let Some(t) = types::hit(regions.drop_last(), x, y) {
                let i = choose|i: int|
                    0 <= i < regions.drop_last().len() && (
                    #[trigger] regions.drop_last()[i]).target == t;
                assert(regions[i].target == t);
            }
        }
    }
}

/// Whether what an event brings is no longer than lists can be.
pub open spec fn event_countable(event: AppEvent) -> bool {
    match event {
        AppEvent::Reloaded(data) => data.images@.len() <= usize::MAX && data.containers@.len()
            <= usize::MAX,
        AppEvent::Logs(lines) => lines@.len() <= usize::MAX,
        _ => true,
    }
}

proof fn lemma_input(app: AppModel, input: Input, now: Timestamp)
    ensures
        ({
            let event = AppEvent::Input(input);
            let o = app.after_event(event, now);
            &&& settled(app, o)
            &&& !(says_yes(app, event) && app.overlay is Confirm) ==> orderly(app, o)
            &&& says_yes(app, event) && app.overlay is Confirm ==> forall|i: int|
                0 <= i < o.effects.len() && (#[trigger] o.effects[i]).destroys()
                    ==> o.effects[i] == demanded(app.overlay->Confirm_0)
        }),
{
    lemma_views(app, Tab::Images);
    lemma_confirm(app);
    match input {
        Input::Key(press) => if !press.release {
            if app.overlay is Closed {
                lemma_plain_key(app, press.key, press.control, now);
            } else if !(app.overlay is Confirm && (press.key is Enter || press.key == Key::Char(
                'y',
            ))) {
                lemma_overlay_key(app, press.key, now);
            }
        },
        Input::Mouse(mouse) => {
            lemma_moves(app);
            if mouse.action is LeftDown && !says_yes(app, AppEvent::Input(input)) {
                lemma_click(app, mouse.column, mouse.row, now);
            }
        },
        Input::Other => {},
    }
}

/// What every event keeps to.
proof fn lemma_event(app: AppModel, event: AppEvent, now: Timestamp)
    ensures
        ({
            let o = app.after_event(event, now);
            &&& !(says_yes(app, event) && app.overlay is Confirm) ==> forall|i: int|
                0 <= i < o.effects.len() ==> !(#[trigger] o.effects[i]).destroys()
            &&& says_yes(app, event) && app.overlay is Confirm ==> forall|i: int|
                0 <= i < o.effects.len() && (#[trigger] o.effects[i]).destroys()
                    ==> o.effects[i] == demanded(app.overlay->Confirm_0)
            &&& forall|i: int|
                0 <= i < o.effects.len() ==> addressed(app, #[trigger] o.effects[i])
            &&& in_range(app) && rows_fit(app) && countable(app) && event_countable(event)
                ==> in_range(o.app)
            &&& scroll_in_view(app) && countable(app) && event_countable(event)
                ==> scroll_in_view(o.app)
            &&& app.should_quit ==> o.app.should_quit
        }),
{
    match event {
        AppEvent::Input(input) => lemma_input(app, input, now),
        AppEvent::Reloaded(data) => lemma_reload(
            app,
            data.images.deep_view(),
            data.containers.deep_view(),
            data.usage,
        ),
        AppEvent::Tick => lemma_changes(app, now),
        _ => {},
    }
}

/// Whatever happens, the selection stays on a row that is there.
pub proof fn law_selection_stays_in_range(app: AppModel, event: AppEvent, now: Timestamp)
    requires
        in_range(app),
        rows_fit(app),
        countable(app),
        event_countable(event),
    ensures
        in_range(app.after_event(event, now).app),
{
    lemma_event(app, event, now);
}

/// Moving down and up again ends on the same row, and so does moving up and down.
pub proof fn law_selection_moves_back(app: AppModel)
    requires
        in_range(app),
        app.row_count() <= usize::MAX,
    ensures
        app.move_selection(1).move_selection(-1) == app,
        app.move_selection(-1).move_selection(1) == app,
{
    let n = app.row_count() as int;
    if n > 0 {
        let s = app.selected as int;
        vstd::arithmetic::div_mod::lemma_small_mod(s as nat, n as nat);
        vstd::arithmetic::div_mod::lemma_mod_bound(s + 1, n);
        vstd::arithmetic::div_mod::lemma_mod_bound(s - 1, n);
        vstd::arithmetic::div_mod::lemma_add_mod_noop_right(-1, s + 1, n);
        vstd::arithmetic::div_mod::lemma_add_mod_noop_right(1, s - 1, n);
        assert(app.move_selection(1).move_selection(-1).selected == app.selected);
        assert(app.move_selection(-1).move_selection(1).selected == app.selected);
    }
}

/// Clicking a row twice opens the details of that row.
pub proof fn law_second_click_opens_details(app: AppModel, row: usize)
    requires
        !(app.tab is Space),
    ensures
        app.click_row(row).selected == row,
        app.click_row(row).click_row(row).selected == row,
        app.click_row(row).click_row(row).overlay is UpdateDetails,
{
}

/// An open log or changelog never scrolls past its last line.
pub open spec fn scroll_in_view(app: AppModel) -> bool {
    app.overlay is Logs || app.overlay is Changelog ==> app.overlay_scroll <= model::before(
        app.overlay_view.len(),
    )
}

/// Whatever happens, an open log or changelog never scrolls past its last line.
pub proof fn law_scroll_stays_in_view(app: AppModel, event: AppEvent, now: Timestamp)
    requires
        scroll_in_view(app),
        countable(app),
        event_countable(event),
    ensures
        scroll_in_view(app.after_event(event, now).app),
{
    lemma_event(app, event, now);
}

/// Going through the palette with the arrows stays on its matches.
pub proof fn law_palette_stays_on_its_matches(app: AppModel, key: Key, now: Timestamp)
    requires
        app.overlay is Palette,
        key is Up || key is Down,
        0 < app.palette_matches().len() <= usize::MAX,
    ensures
        app.after_overlay_key(key, now).app.palette_index < app.palette_matches().len(),
        app.after_overlay_key(key, now).effects.len() == 0,
{
    let n = app.palette_matches().len() as int;
    vstd::arithmetic::div_mod::lemma_mod_bound(app.palette_index + 1, n);
    vstd::arithmetic::div_mod::lemma_mod_bound(app.palette_index - 1, n);
}

/// Every match of the palette is an entry of the catalog.
pub proof fn law_matches_are_in_the_catalog(
    catalog: Seq<(Seq<char>, PaletteAction)>,
    query: Seq<char>,
    i: int,
)
    requires
        0 <= i < model::matching(catalog, query).len(),
    ensures
        catalog.contains(model::matching(catalog, query)[i]),
    decreases catalog.len(),
{
    let rest = model::matching(catalog.drop_last(), query);
    if i < rest.len() {
        law_matches_are_in_the_catalog(catalog.drop_last(), query, i);
        let at = choose|at: int|
            0 <= at < catalog.drop_last().len() && catalog.drop_last()[at] == rest[i];
        assert(catalog[at] == rest[i]);
    } else {
        assert(catalog[catalog.len() - 1] == catalog.last());
    }
}

// ── Sorting and select mode ────────────────────────────────────────────────

/// As long as no column was chosen, the lists stand as the daemon lists them.
pub proof fn law_unsorted_lists_stay_as_listed(app: AppModel)
    requires
        app.sort is Listed,
    ensures
        app.arranged() == app,
{
    let images = app.images.map_values(
        |i: ImageModel| sort::image_rank(i, app.sort, app.updates),
    );
    let containers = app.containers.map_values(
        |c: ContainerModel| sort::container_rank(c, app.sort, app.updates, app.stats),
    );
    sort::law_equal_rows_stay(app.images, images, app.descending);
    sort::law_equal_rows_stay(app.containers, containers, app.descending);
}

/// The same key ends select mode, and all is as it was before.
pub proof fn law_select_mode_ends(app: AppModel)
    ensures
        app.toggle_mouse().app.toggle_mouse().app == app,
        app.toggle_mouse().effects == seq![EffectModel::CaptureMouse(!app.mouse)],
{
}

// ── Deferred updates ───────────────────────────────────────────────────────

proof fn lemma_awake(refs: Seq<Seq<char>>, state: StateModel, now: Timestamp, r: Seq<char>)
    ensures
        model::awake(refs, state, now).contains(r) <==> refs.contains(r) && !state.deferred_at(
            r,
            now,
        ),
    decreases refs.len(),
{
    if refs.len() > 0 {
        let head = refs.drop_last();
        lemma_awake(head, state, now, r);
        let due = model::awake(head, state, now);
        if head.contains(r) {
            let at = choose|at: int| 0 <= at < head.len() && head[at] == r;
            assert(refs[at] == r);
        }
        assert(refs[refs.len() - 1] == refs.last());
        if refs.contains(r) && !head.contains(r) {
            let at = choose|at: int| 0 <= at < refs.len() && refs[at] == r;
            if at < head.len() {
                assert(head[at] == r);
            }
            assert(r == refs.last());
        }
        if !state.deferred_at(refs.last(), now) {
            let more = due.push(refs.last());
            assert(more[due.len() as int] == refs.last());
            if due.contains(r) {
                let at = choose|at: int| 0 <= at < due.len() && due[at] == r;
                assert(more[at] == r);
            }
            if more.contains(r) && r != refs.last() {
                let at = choose|at: int| 0 <= at < more.len() && more[at] == r;
                assert(due[at] == r);
            }
        }
    }
}

/// Checking all asks for a check of an image of the list exactly where its updates are not
/// deferred.
pub proof fn law_check_all_skips_deferred(app: AppModel, now: Timestamp, image: Seq<char>)
    requires
        !(app.tab is Space),
    ensures
        app.check_all_updates(now).effects.contains(EffectModel::CheckUpdate(image))
            <==> app.listed_refs().contains(image) && !app.state.deferred_at(image, now),
{
    let due = model::awake(app.listed_refs(), app.state, now);
    let effects = app.check_all_updates(now).effects;
    lemma_awake(app.listed_refs(), app.state, now, image);
    if due.contains(image) {
        let at = choose|at: int| 0 <= at < due.len() && due[at] == image;
        assert(effects[at] == EffectModel::CheckUpdate(image));
    }
    if effects.contains(EffectModel::CheckUpdate(image)) {
        let at = choose|at: int|
            0 <= at < effects.len() && effects[at] == EffectModel::CheckUpdate(image);
        assert(due[at] == image);
    }
}

/// An update that was deferred is left alone by every check of all that comes less than thirty
/// days later, and is checked again from then on.
pub proof fn law_defer_silences_for_thirty_days(
    app: AppModel,
    now: Timestamp,
    then: Timestamp,
    image: Seq<char>,
)
    requires
        clock::deferrable(now),
        app.selected_image_ref() == Some(image),
        app.listed_refs().contains(image),
    ensures
        app.defer_selected(now).app.check_all_updates(then).effects.contains(
            EffectModel::CheckUpdate(image),
        ) <==> !clock::in_thirty_days(now).later_than(then),
{
    let after = app.defer_selected(now).app;
    assert(after.listed_refs() == app.listed_refs());
    law_check_all_skips_deferred(after, then, image);
}

// ── Remembered results ─────────────────────────────────────────────────────

/// A conclusive result is remembered: the application that starts with the state that is saved
/// then shows it. An error is shown but changes nothing that is remembered.
pub proof fn law_conclusive_results_survive_restarts(
    app: AppModel,
    image: Seq<char>,
    info: UpdateModel,
    config: ConfigModel,
)
    ensures
        app.after_update_result(image, info).app.updates[image] == info,
        !(info.status is Error) ==> app.after_update_result(image, info).effects.contains(
            EffectModel::SaveState,
        ) && AppModel::initial(
            config,
            app.after_update_result(image, info).app.state,
        ).updates[image] == info,
        info.status is Error ==> app.after_update_result(image, info).app.state == app.state
            && app.after_update_result(image, info).effects.len() == 0,
{
    if !(info.status is Error) {
        assert(app.after_update_result(image, info).effects[0] == EffectModel::SaveState);
    }
}

/// After a reload no result is shown that was computed against another image than the one the
/// reference names now; such a result is forgotten too, and every other result is kept.
pub proof fn law_stale_results_are_dropped(
    app: AppModel,
    images: Seq<ImageModel>,
    containers: Seq<ContainerModel>,
    usage: DiskUsage,
    image: Seq<char>,
)
    ensures
        ({
            let after = app.after_reload(images, containers, usage);
            &&& after.updates.contains_key(image) ==> !model::outdated(
                after.updates[image],
                images,
                image,
            )
            &&& after.updates.contains_key(image) ==> after.updates[image] == app.updates[image]
            &&& app.updates.contains_key(image) && !after.updates.contains_key(image)
                ==> model::outdated(app.updates[image], images, image)
                && !after.state.update_cache.contains_key(image)
            &&& app.updates.contains_key(image) && after.updates.contains_key(image)
                && app.state.update_cache.contains_key(image)
                ==> after.state.update_cache.contains_key(image)
                && after.state.update_cache[image] == app.state.update_cache[image]
        }),
{
}

/// The theme that was chosen is saved, and the application that starts with the saved
/// configuration has it.
pub proof fn law_theme_is_remembered(app: AppModel, state: StateModel)
    ensures
        app.cycle_theme().effects == seq![EffectModel::SaveConfig],
        AppModel::initial(app.cycle_theme().app.config, state).theme
            == app.cycle_theme().app.theme,
        app.cycle_theme().app.theme.name == app.cycle_theme().app.config.theme,
{
    theme::law_next_theme_is_built_in(app.theme.name);
}

/// When an update settles, well or badly, the lists are loaded anew.
pub proof fn law_settled_update_reloads(app: AppModel, progress: ProgressModel)
    requires
        app.apply is Some,
        app.apply->0.after(progress).finished,
    ensures
        app.after_progress(progress).effects == seq![EffectModel::Reload],
        !app.after_progress(progress).app.applying(),
{
}

/// A request to quit stays, whatever comes after it.
pub proof fn law_quit_stays(app: AppModel, event: AppEvent, now: Timestamp)
    requires
        app.should_quit,
    ensures
        app.after_event(event, now).app.should_quit,
{
    lemma_event(app, event, now);
}

} // verus!
