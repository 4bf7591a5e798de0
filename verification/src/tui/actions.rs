//! What each key, click and event does, and what it leaves alone.

use vstd::prelude::*;
use crate::clock::Timestamp;
use crate::config::{ConfigModel, StateModel};
use crate::docker::model::{
    ApplyProgress, ContainerModel, DiskUsage, ImageModel, ProgressModel, UpdateInfo, UpdateModel,
};
use crate::registry;
use crate::registry::Release;
use crate::style;
use crate::text;
use crate::tui::changelog;
use crate::tui::model;
use crate::tui::model::{AppModel, Outcome};
use crate::tui::types;
use crate::tui::types::{
    AppEvent, ClickTarget, ConfirmModel, ContainerStats, EffectModel, Input, Key, KeyPress,
    MouseAction, MouseInput, OverlayModel, PaletteAction, SortKey, Tab, UiAction,
};

verus! {

/// What comes of a key on the list, without control.
pub open spec fn typed(app: AppModel, key: Key, now: Timestamp) -> Outcome {
    app.after_plain_key(key, false, now)
}

/// Whether an outcome is the application `app`, with `effects` to do.
pub open spec fn leads(o: Outcome, app: AppModel, effects: Seq<EffectModel>) -> bool {
    o.app == app && o.effects == effects
}

/// Whether an outcome is the application `app`, with nothing to do.
pub open spec fn nothing(app: AppModel, o: Outcome) -> bool {
    leads(o, app, Seq::empty())
}

/// Whether two outcomes are the same.
pub open spec fn alike(a: Outcome, b: Outcome) -> bool {
    a == b
}

/// The number of rows of the list that is open.
pub open spec fn rows(app: AppModel) -> int {
    if app.tab is Images {
        app.images.len() as int
    } else if app.tab is Containers {
        app.containers.len() as int
    } else {
        0
    }
}

// ── Keys without an overlay ────────────────────────────────────────────────

/// A key that goes down reaches the overlay that is open, or the list where none is; on its way up
/// it does nothing.
pub proof fn law_keys_count_on_their_way_down(app: AppModel, press: KeyPress, now: Timestamp)
    ensures
        press.release ==> nothing(app, app.after_key(press, now)),
        !press.release && app.overlay is Closed ==> alike(
            app.after_key(press, now),
            app.after_plain_key(press.key, press.control, now),
        ),
        !press.release && !(app.overlay is Closed) ==> alike(
            app.after_key(press, now),
            app.after_overlay_key(press.key, now),
        ),
{
}

/// `q`, and `c` with control, quit; `c` alone does nothing.
pub proof fn law_quit_keys(app: AppModel, now: Timestamp)
    ensures
        nothing(AppModel { should_quit: true, ..app }, typed(app, Key::Char('q'), now)),
        nothing(AppModel { should_quit: true, ..app }, app.after_plain_key(Key::Char('c'), true, now)),
        nothing(app, typed(app, Key::Char('c'), now)),
{
}

/// The application with another tab open, at its first row.
pub open spec fn opened(app: AppModel, tab: Tab) -> AppModel {
    AppModel { tab, selected: 0, ..app }
}

/// The tab key goes to the tab on the right, round and round.
pub proof fn law_tab_key_goes_right(app: AppModel, now: Timestamp)
    ensures
        app.tab is Images ==> nothing(opened(app, Tab::Containers), typed(app, Key::Tab, now)),
        app.tab is Containers ==> nothing(opened(app, Tab::Space), typed(app, Key::Tab, now)),
        app.tab is Space ==> nothing(opened(app, Tab::Images), typed(app, Key::Tab, now)),
        alike(app.after_plain_key(Key::Char('l'), true, now), typed(app, Key::Tab, now)),
{
}

/// The tab key with shift goes to the tab on the left, round and round.
pub proof fn law_tab_key_goes_left(app: AppModel, now: Timestamp)
    ensures
        app.tab is Images ==> nothing(opened(app, Tab::Space), typed(app, Key::BackTab, now)),
        app.tab is Containers ==> nothing(opened(app, Tab::Images), typed(app, Key::BackTab, now)),
        app.tab is Space ==> nothing(opened(app, Tab::Containers), typed(app, Key::BackTab, now)),
{
}

/// Digits go to a tab.
pub proof fn law_digits_open_tabs(app: AppModel, now: Timestamp)
    ensures
        nothing(opened(app, Tab::Images), typed(app, Key::Char('1'), now)),
        nothing(opened(app, Tab::Containers), typed(app, Key::Char('2'), now)),
        nothing(opened(app, Tab::Space), typed(app, Key::Char('3'), now)),
{
}

/// The application with another row selected.
pub open spec fn at_row(app: AppModel, i: int) -> AppModel {
    AppModel { selected: i as usize, ..app }
}

/// The selection moves by one row, from the last row to the first and back.
pub proof fn law_selection_goes_round(app: AppModel)
    requires
        app.selected < rows(app) <= usize::MAX,
    ensures
        app.selected + 1 < rows(app) ==> app.move_selection(1).selected == app.selected + 1,
        app.selected + 1 == rows(app) ==> app.move_selection(1).selected == 0,
        app.selected > 0 ==> app.move_selection(-1).selected == app.selected - 1,
        app.selected == 0 ==> app.move_selection(-1).selected == rows(app) - 1,
{
    let n = rows(app);
    assert(n == app.row_count());
    let i = app.selected as int;
    if i + 1 < n {
        assert((i + 1) % n == i + 1) by (nonlinear_arith)
            requires
                0 <= i + 1 < n,
        ;
    } else {
        assert(n % n == 0) by (nonlinear_arith)
            requires
                n > 0,
        ;
    }
    if i > 0 {
        assert((i - 1) % n == i - 1) by (nonlinear_arith)
            requires
                0 <= i - 1 < n,
        ;
    } else {
        assert((-1int) % n == n - 1) by (nonlinear_arith)
            requires
                n > 0,
        ;
    }
}

/// To move the selection changes nothing else, and nothing at all in an empty list.
pub proof fn law_moves_change_the_selection_only(app: AppModel, delta: int)
    ensures
        app.move_selection(delta) == (AppModel {
            selected: app.move_selection(delta).selected,
            ..app
        }),
        rows(app) == 0 ==> app.move_selection(delta) == app,
{
}

/// The arrows, and `j` and `k`, move the selection by one row.
pub proof fn law_arrows_move_the_selection(app: AppModel, now: Timestamp)
    ensures
        nothing(app.move_selection(1), typed(app, Key::Down, now)),
        nothing(app.move_selection(1), typed(app, Key::Char('j'), now)),
        nothing(app.move_selection(-1), typed(app, Key::Up, now)),
        nothing(app.move_selection(-1), typed(app, Key::Char('k'), now)),
{
}

/// Home and End, and `g` and `G`, go to the first and the last row.
pub proof fn law_home_and_end(app: AppModel, now: Timestamp)
    requires
        rows(app) > 0,
    ensures
        nothing(at_row(app, 0), typed(app, Key::Home, now)),
        nothing(at_row(app, 0), typed(app, Key::Char('g'), now)),
        nothing(at_row(app, rows(app) - 1), typed(app, Key::End, now)),
        nothing(at_row(app, rows(app) - 1), typed(app, Key::Char('G'), now)),
{
}


/// The application with an overlay open.
pub open spec fn with_overlay(app: AppModel, overlay: OverlayModel) -> AppModel {
    AppModel { overlay, ..app }
}

/// The details, the help and the prune menu open by their keys. Nothing is done yet.
pub proof fn law_overlay_keys(app: AppModel, now: Timestamp)
    ensures
        nothing(with_overlay(app, OverlayModel::UpdateDetails), typed(app, Key::Enter, now)),
        nothing(with_overlay(app, OverlayModel::Help), typed(app, Key::Char('?'), now)),
        nothing(with_overlay(app, OverlayModel::Prune), typed(app, Key::Char('p'), now)),
{
}

/// The palette opens at its first match with nothing typed.
pub proof fn law_palette_opens_empty(app: AppModel, now: Timestamp)
    ensures
        ({
            let palette = AppModel {
                overlay: OverlayModel::Palette,
                palette_query: Seq::empty(),
                palette_index: 0,
                ..app
            };
            &&& nothing(palette, app.after_plain_key(Key::Char('p'), true, now))
            &&& nothing(palette, typed(app, Key::Char(':'), now))
        }),
{
}

/// `r` asks for the lists again.
pub proof fn law_refresh_key(app: AppModel, now: Timestamp)
    ensures
        leads(
            typed(app, Key::Char('r'), now),
            AppModel { status_message: "Refreshing…"@, ..app },
            seq![EffectModel::Reload],
        ),
{
}

/// The reference of what is selected: that of the image, or the container's image.
pub open spec fn selection(app: AppModel) -> Option<Seq<char>> {
    if app.tab is Images && app.selected < app.images.len() {
        app.images[app.selected as int].primary_reference()
    } else if app.tab is Containers && app.selected < app.containers.len() {
        Some(app.containers[app.selected as int].image)
    } else {
        None
    }
}

/// `u` has the image that is selected checked, and shows that it is; the results of others stay.
pub proof fn law_check_key(app: AppModel, other: Seq<char>)
    ensures
        ({
            let o = app.check_selected_update();
            &&& selection(app) is None ==> nothing(app, o)
            &&& selection(app) matches Some(image) ==> {
                &&& o.effects == seq![EffectModel::CheckUpdate(image)]
                &&& o.app.updates.contains_key(image)
                &&& o.app.updates[image].status is Checking
                &&& other != image ==> (o.app.updates.contains_key(other)
                    <==> app.updates.contains_key(other)) && (app.updates.contains_key(other)
                    ==> o.app.updates[other] == app.updates[other])
                &&& o.app.state == app.state && o.app.overlay == app.overlay
            }
        }),
{
}

/// `d` defers the updates of the image that is selected for thirty days and has that remembered.
pub proof fn law_defer_key(app: AppModel, now: Timestamp)
    requires
        now.secs + 30 * 24 * 60 * 60 <= i64::MAX,
    ensures
        ({
            let o = app.defer_selected(now);
            &&& selection(app) is None ==> nothing(app, o)
            &&& selection(app) matches Some(image) ==> {
                &&& o.effects == seq![EffectModel::SaveState]
                &&& o.app.state.deferred.contains_key(image)
                &&& o.app.state.deferred[image].secs == now.secs + 30 * 24 * 60 * 60
                &&& o.app.state.deferred[image].nanos == now.nanos
                &&& o.app.state.deferred.remove(image) == app.state.deferred.remove(image)
                &&& o.app.status_message == "deferred "@ + image + " for 30 days"@
                &&& o.app.updates == app.updates && o.app.overlay == app.overlay
            }
        }),
{
    if let Some(image) = selection(app) {
        let o = app.defer_selected(now);
        assert(o.app.state.deferred.remove(image) =~= app.state.deferred.remove(image));
    }
}

/// The container that is selected, on the tab of the containers.
pub open spec fn chosen(app: AppModel) -> Option<ContainerModel> {
    if app.tab is Containers && app.selected < app.containers.len() {
        Some(app.containers[app.selected as int])
    } else {
        None
    }
}

/// `s` stops the container that is selected where it runs and starts it where it does not, and
/// the lists are read again soon after; away from the containers it does nothing.
pub proof fn law_start_stop_key(app: AppModel, now: Timestamp)
    ensures
        chosen(app) is None ==> nothing(app, typed(app, Key::Char('s'), now)),
        chosen(app) matches Some(c) ==> c.state == "running"@ ==> leads(
            typed(app, Key::Char('s'), now),
            app,
            seq![
                EffectModel::StopContainer { id: c.id, name: c.name },
                EffectModel::ReloadSoon,
            ],
        ),
        chosen(app) matches Some(c) ==> c.state != "running"@ ==> leads(
            typed(app, Key::Char('s'), now),
            app,
            seq![
                EffectModel::StartContainer { id: c.id, name: c.name },
                EffectModel::ReloadSoon,
            ],
        ),
{
}

/// `R` restarts the container that is selected, and the lists are read again soon after; away
/// from the containers it does nothing.
pub proof fn law_restart_key(app: AppModel, now: Timestamp)
    ensures
        chosen(app) is None ==> nothing(app, typed(app, Key::Char('R'), now)),
        chosen(app) matches Some(c) ==> leads(
            typed(app, Key::Char('R'), now),
            app,
            seq![
                EffectModel::RestartContainer { id: c.id, name: c.name },
                EffectModel::ReloadSoon,
            ],
        ),
{
}

/// `x` asks before the container that is selected is removed, and does nothing by itself.
pub proof fn law_remove_key_asks(app: AppModel, now: Timestamp)
    ensures
        chosen(app) is None ==> nothing(app, typed(app, Key::Char('x'), now)),
        chosen(app) matches Some(c) ==> nothing(
            with_overlay(
                app,
                OverlayModel::Confirm(ConfirmModel::RemoveContainer(c.id, c.name)),
            ),
            typed(app, Key::Char('x'), now),
        ),
{
}

/// `a` asks before the container that is selected is updated, and does nothing by itself.
pub proof fn law_apply_key_asks(app: AppModel, now: Timestamp)
    ensures
        chosen(app) matches Some(c) ==> nothing(
            with_overlay(app, OverlayModel::Confirm(ConfirmModel::ApplyUpdate(c.id, c.image))),
            typed(app, Key::Char('a'), now),
        ),
        app.tab is Containers && chosen(app) is None ==> nothing(
            app,
            typed(app, Key::Char('a'), now),
        ),
        !(app.tab is Containers) ==> nothing(
            AppModel {
                status_message: "switch to the Containers tab to apply an update"@,
                ..app
            },
            typed(app, Key::Char('a'), now),
        ),
{
}

/// `L` asks for the last two hundred lines of the container that is selected.
pub proof fn law_log_key(app: AppModel, now: Timestamp)
    ensures
        chosen(app) matches Some(c) ==> leads(
            typed(app, Key::Char('L'), now),
            AppModel {
                overlay_title: "logs: "@ + c.name,
                status_message: "loading logs…"@,
                ..app
            },
            seq![EffectModel::FetchLogs { id: c.id, tail: 200 }],
        ),
        chosen(app) is None ==> typed(app, Key::Char('L'), now).effects.len() == 0,
{
}

/// What asks for the latest releases of a repository, with the token of the configuration.
pub open spec fn asks_for_releases(app: AppModel, repo: Seq<char>) -> Seq<EffectModel> {
    seq![
        EffectModel::FetchReleases {
            repo,
            title: "changelog: "@ + repo,
            token: app.config.github_token,
            limit: 5,
        },
    ]
}

/// The changelog of what is selected is that of the repository that is pinned for the image, else
/// of the one that its last check found, else of the one that its name suggests.
pub proof fn law_changelog_source(app: AppModel, image: Seq<char>)
    requires
        selection(app) == Some(image),
    ensures
        ({
            let o = app.open_changelog();
            let pinned = app.state.changelog_sources.contains_key(image);
            let found = app.updates.contains_key(image) && app.updates[image].changelog_repo
                is Some;
            &&& pinned ==> o.effects == asks_for_releases(
                app,
                app.state.changelog_sources[image],
            )
            &&& !pinned && found ==> o.effects == asks_for_releases(
                app,
                app.updates[image].changelog_repo->0,
            )
            &&& !pinned && !found && registry::source_of(image, None) is Some ==> o.effects
                == asks_for_releases(app, registry::source_of(image, None)->0)
            &&& !pinned && !found && registry::source_of(image, None) is None ==> nothing(
                AppModel { status_message: "no changelog source known for "@ + image, ..app },
                o,
            )
        }),
{
}

/// `w` opens the changelog of what is selected; without a selection it does nothing.
pub proof fn law_changelog_key(app: AppModel, now: Timestamp)
    ensures
        alike(typed(app, Key::Char('w'), now), app.open_changelog()),
        selection(app) is None ==> nothing(app, app.open_changelog()),
{
}

/// `y` hands the mouse to the terminal and back.
pub proof fn law_mouse_key(app: AppModel, now: Timestamp)
    ensures
        leads(
            typed(app, Key::Char('y'), now),
            AppModel { mouse: !app.mouse, ..app },
            seq![EffectModel::CaptureMouse(!app.mouse)],
        ),
{
}

/// `T` goes to the next theme and has that remembered.
pub proof fn law_theme_key(app: AppModel, now: Timestamp)
    ensures
        typed(app, Key::Char('T'), now).app.config.theme == (if app.theme.name == "solar"@ {
            "gruvbox"@
        } else if app.theme.name == "gruvbox"@ {
            "mono"@
        } else if app.theme.name == "mono"@ {
            "midnight"@
        } else {
            "solar"@
        }),
        typed(app, Key::Char('T'), now).effects == seq![EffectModel::SaveConfig],
{
}

/// `o` goes to the next column to sort by, from low to high, and `O` turns the order round.
pub proof fn law_sort_keys(app: AppModel, now: Timestamp)
    ensures
        app.tab is Space ==> nothing(app, typed(app, Key::Char('o'), now)),
        !(app.tab is Space) ==> nothing(
            app.sorted_by(app.sort.following(app.tab), false),
            typed(app, Key::Char('o'), now),
        ),
        nothing(app.sorted_by(app.sort, !app.descending), typed(app, Key::Char('O'), now)),
{
}

/// To sort by a column keeps the rows' number, the selection and everything but the order.
pub proof fn law_sorting_sets_the_column(app: AppModel, key: SortKey, descending: bool)
    ensures
        ({
            let after = app.sorted_by(key, descending);
            &&& after.sort == key && after.descending == descending
            &&& after.selected == app.selected && after.tab == app.tab && after.overlay
                == app.overlay && after.updates == app.updates && after.state == app.state
        }),
{
}

// ── Checking the whole list ────────────────────────────────────────────────

/// The references of a list of images are those of its parts, in order: that of each image which
/// has one.
pub proof fn law_references_follow_the_images(a: Seq<ImageModel>, b: Seq<ImageModel>, image: ImageModel)
    ensures
        model::references(a + b) == model::references(a) + model::references(b),
        image.primary_reference() matches Some(r) ==> model::references(seq![image]) == seq![r],
        image.primary_reference() is None ==> model::references(seq![image]).len() == 0,
    decreases b.len(),
{
    assert(seq![image].drop_last() =~= Seq::<ImageModel>::empty());
    assert(model::references(seq![image].drop_last()) =~= Seq::<Seq<char>>::empty());
    if b.len() == 0 {
        assert(a + b =~= a);
    } else {
        law_references_follow_the_images(a, b.drop_last(), image);
        assert((a + b).drop_last() =~= a + b.drop_last());
        assert((a + b).last() == b.last());
    }
}

/// Of a list of references all are checked, in order, but those that are deferred at that moment.
pub proof fn law_only_deferred_references_are_left_out(
    a: Seq<Seq<char>>,
    b: Seq<Seq<char>>,
    r: Seq<char>,
    state: StateModel,
    now: Timestamp,
)
    ensures
        model::awake(a + b, state, now) == model::awake(a, state, now) + model::awake(
            b,
            state,
            now,
        ),
        state.deferred.contains_key(r) && (state.deferred[r].secs > now.secs
            || state.deferred[r].secs == now.secs && state.deferred[r].nanos > now.nanos)
            ==> model::awake(seq![r], state, now).len() == 0,
        !(state.deferred.contains_key(r) && (state.deferred[r].secs > now.secs
            || state.deferred[r].secs == now.secs && state.deferred[r].nanos > now.nanos))
            ==> model::awake(seq![r], state, now) == seq![r],
    decreases b.len(),
{
    assert(seq![r].drop_last() =~= Seq::<Seq<char>>::empty());
    assert(model::awake(seq![r].drop_last(), state, now) =~= Seq::<Seq<char>>::empty());
    if b.len() == 0 {
        assert(a + b =~= a);
    } else {
        law_only_deferred_references_are_left_out(a, b.drop_last(), r, state, now);
        assert((a + b).drop_last() =~= a + b.drop_last());
        assert((a + b).last() == b.last());
    }
}

/// Every reference that is being checked is shown as such, and no other result changes.
pub proof fn law_checked_references_are_shown(
    updates: Map<Seq<char>, UpdateModel>,
    refs: Seq<Seq<char>>,
    r: Seq<char>,
)
    ensures
        ({
            let after = model::checking(updates, refs);
            &&& refs.contains(r) ==> after.contains_key(r) && after[r].status is Checking
            &&& !refs.contains(r) ==> (after.contains_key(r) <==> updates.contains_key(r))
            &&& !refs.contains(r) && updates.contains_key(r) ==> after[r] == updates[r]
        }),
    decreases refs.len(),
{
    if refs.len() > 0 {
        law_checked_references_are_shown(updates, refs.drop_last(), r);
        if refs.contains(r) {
            let i = choose|i: int| 0 <= i < refs.len() && refs[i] == r;
            if i < refs.len() - 1 {
                assert(refs.drop_last()[i] == r);
            }
        } else if refs.drop_last().contains(r) {
            let i = choose|i: int| 0 <= i < refs.drop_last().len() && refs.drop_last()[i] == r;
            assert(refs[i] == r);
        } else {
            assert(refs.last() == refs[refs.len() - 1]);
        }
    }
}

/// `U` has the whole list checked: on the tab of the images by their references, on that of the
/// containers by their images, elsewhere nothing. It says how many there are.
pub proof fn law_check_all_key(app: AppModel, now: Timestamp)
    ensures
        ({
            let o = app.check_all_updates(now);
            let refs = if app.tab is Images {
                model::references(app.images)
            } else {
                Seq::new(app.containers.len(), |i: int| app.containers[i].image)
            };
            let due = model::awake(refs, app.state, now);
            &&& app.tab is Space ==> nothing(app, o)
            &&& !(app.tab is Space) ==> {
                &&& o.effects.len() == due.len()
                &&& forall|i: int|
                    0 <= i < due.len() ==> #[trigger] o.effects[i] == EffectModel::CheckUpdate(
                        due[i],
                    )
                &&& o.app.status_message == "Checking "@ + text::decimal(refs.len())
                    + " images…"@
                &&& o.app.updates == model::checking(app.updates, due)
                &&& o.app.state == app.state && o.app.overlay == app.overlay
            }
        }),
{
    let refs = Seq::new(app.containers.len(), |i: int| app.containers[i].image);
    assert(app.containers.map_values(|c: ContainerModel| c.image) =~= refs);
}

// ── Keys on overlays ───────────────────────────────────────────────────────

/// A confirmation is refused by `n`, `q` and Escape: it closes and nothing is done. Every key but
/// these, `y` and Enter leaves it open.
pub proof fn law_confirmation_is_refused(app: AppModel, key: Key)
    requires
        !(key is Enter),
        key != Key::Char('y'),
    ensures
        key is Esc || key == Key::Char('n') || key == Key::Char('q') ==> nothing(
            with_overlay(app, OverlayModel::Closed),
            app.after_confirm_key(key),
        ),
        !(key is Esc || key == Key::Char('n') || key == Key::Char('q')) ==> nothing(
            app,
            app.after_confirm_key(key),
        ),
{
}

/// A confirmation that is accepted, by `y` or Enter, closes, and what it asked about is done.
pub proof fn law_confirmation_is_accepted(app: AppModel, action: ConfirmModel)
    requires
        app.overlay == OverlayModel::Confirm(action),
    ensures
        ({
            let done = with_overlay(app, OverlayModel::Closed).run_confirmed(action);
            &&& alike(app.after_confirm_key(Key::Char('y')), done)
            &&& alike(app.after_confirm_key(Key::Enter), done)
        }),
{
}

/// What was asked about is done as it was asked, and the lists are read again soon after; an
/// update shows its progress.
pub proof fn law_confirmed_action_is_done(app: AppModel, id: Seq<char>, name: Seq<char>, all: bool)
    ensures
        leads(
            app.run_confirmed(ConfirmModel::RemoveContainer(id, name)),
            app,
            seq![EffectModel::RemoveContainer { id, name }, EffectModel::ReloadSoon],
        ),
        leads(
            app.run_confirmed(ConfirmModel::PruneImages(all)),
            app,
            seq![EffectModel::PruneImages(all), EffectModel::ReloadSoon],
        ),
        leads(
            app.run_confirmed(ConfirmModel::PruneContainers),
            app,
            seq![EffectModel::PruneContainers, EffectModel::ReloadSoon],
        ),
        leads(
            app.run_confirmed(ConfirmModel::PruneVolumes),
            app,
            seq![EffectModel::PruneVolumes, EffectModel::ReloadSoon],
        ),
        leads(
            app.run_confirmed(ConfirmModel::PruneBuildCache),
            app,
            seq![EffectModel::PruneBuildCache, EffectModel::ReloadSoon],
        ),
        app.run_confirmed(ConfirmModel::PruneAll).effects.len() == 2,
        app.run_confirmed(ConfirmModel::PruneAll).effects[1] == EffectModel::ReloadSoon,
        app.run_confirmed(ConfirmModel::ApplyUpdate(id, name)).effects == seq![
            EffectModel::ApplyUpdate { id, image: name },
        ],
        app.run_confirmed(ConfirmModel::ApplyUpdate(id, name)).app.overlay is ApplyProgress,
        app.run_confirmed(ConfirmModel::ApplyUpdate(id, name)).app.applying(),
{
}

/// The prune menu asks before each prune; its keys say what is to be pruned, and Escape and `q`
/// close it.
pub proof fn law_prune_menu_asks(app: AppModel)
    ensures
        app.after_prune_key(Key::Char('i')).overlay == OverlayModel::Confirm(
            ConfirmModel::PruneImages(false),
        ),
        app.after_prune_key(Key::Char('I')).overlay == OverlayModel::Confirm(
            ConfirmModel::PruneImages(true),
        ),
        app.after_prune_key(Key::Char('c')).overlay == OverlayModel::Confirm(
            ConfirmModel::PruneContainers,
        ),
        app.after_prune_key(Key::Char('v')).overlay == OverlayModel::Confirm(
            ConfirmModel::PruneVolumes,
        ),
        app.after_prune_key(Key::Char('b')).overlay == OverlayModel::Confirm(
            ConfirmModel::PruneBuildCache,
        ),
        app.after_prune_key(Key::Char('a')).overlay == OverlayModel::Confirm(
            ConfirmModel::PruneAll,
        ),
        app.after_prune_key(Key::Esc).overlay is Closed,
        app.after_prune_key(Key::Char('q')).overlay is Closed,
        app.after_prune_key(Key::Enter) == app,
{
}

/// Logs, changelogs and the help scroll by one line, from the first to the last and no further.
pub proof fn law_scrolling_stops_at_the_ends(app: AppModel)
    requires
        app.overlay_view.len() <= usize::MAX,
    ensures
        app.overlay_scroll < app.overlay_view.len() - 1 ==> app.scroll_down().overlay_scroll
            == app.overlay_scroll + 1,
        app.overlay_scroll == app.overlay_view.len() - 1 ==> app.scroll_down().overlay_scroll
            == app.overlay_scroll,
        app.overlay_scroll > 0 ==> app.scroll_up().overlay_scroll == app.overlay_scroll - 1,
        app.overlay_scroll == 0 ==> app.scroll_up().overlay_scroll == 0,
        app.scroll_down().overlay_view == app.overlay_view && app.scroll_up().overlay_view
            == app.overlay_view,
        app.scroll_down().overlay == app.overlay && app.scroll_up().overlay == app.overlay,
{
}

/// The arrows, and `j` and `k`, scroll; Escape and `q` close what scrolls.
pub proof fn law_scroll_keys(app: AppModel)
    ensures
        app.after_scroll_key(Key::Down) == app.scroll_down(),
        app.after_scroll_key(Key::Char('j')) == app.scroll_down(),
        app.after_scroll_key(Key::Up) == app.scroll_up(),
        app.after_scroll_key(Key::Char('k')) == app.scroll_up(),
        app.after_scroll_key(Key::Esc).overlay is Closed,
        app.after_scroll_key(Key::Char('q')).overlay is Closed,
        app.after_scroll_key(Key::Enter) == app,
{
}

/// Each overlay gets the keys that are pressed while it is open.
pub proof fn law_open_overlay_gets_the_keys(app: AppModel, key: Key, now: Timestamp)
    ensures
        app.overlay is Confirm ==> alike(
            app.after_overlay_key(key, now),
            app.after_confirm_key(key),
        ),
        app.overlay is Prune ==> nothing(
            app.after_prune_key(key),
            app.after_overlay_key(key, now),
        ),
        app.overlay is Logs || app.overlay is Changelog || app.overlay is Help ==> nothing(
            app.after_scroll_key(key),
            app.after_overlay_key(key, now),
        ),
        app.overlay is UpdateDetails ==> alike(
            app.after_overlay_key(key, now),
            app.after_details_key(key),
        ),
        app.overlay is ApplyProgress ==> nothing(
            app.after_progress_key(key),
            app.after_overlay_key(key, now),
        ),
        app.overlay is Palette ==> alike(
            app.after_overlay_key(key, now),
            app.after_palette_key(key, now),
        ),
{
}

/// The update details close by Escape, `q` and Enter; `w` and `u` close them and open the
/// changelog, or check for an update.
pub proof fn law_details_keys(app: AppModel)
    ensures
        nothing(with_overlay(app, OverlayModel::Closed), app.after_details_key(Key::Esc)),
        nothing(with_overlay(app, OverlayModel::Closed), app.after_details_key(Key::Char('q'))),
        nothing(with_overlay(app, OverlayModel::Closed), app.after_details_key(Key::Enter)),
        alike(
            app.after_details_key(Key::Char('w')),
            with_overlay(app, OverlayModel::Closed).open_changelog(),
        ),
        alike(
            app.after_details_key(Key::Char('u')),
            with_overlay(app, OverlayModel::Closed).check_selected_update(),
        ),
{
}

/// What is typed into the palette goes behind its query, and backspace takes the last character
/// away; either way the first match is chosen. Escape closes the palette.
pub proof fn law_palette_keys(app: AppModel, c: char, now: Timestamp)
    ensures
        nothing(
            AppModel { palette_query: app.palette_query.push(c), palette_index: 0, ..app },
            app.after_palette_key(Key::Char(c), now),
        ),
        app.palette_query.len() > 0 ==> app.after_palette_key(Key::Backspace, now).app.palette_query
            == app.palette_query.take(app.palette_query.len() - 1),
        app.after_palette_key(Key::Backspace, now).app.palette_index == 0,
        nothing(with_overlay(app, OverlayModel::Closed), app.after_palette_key(Key::Esc, now)),
{
    assert(app.palette_query.len() > 0 ==> app.palette_query.drop_last()
        =~= app.palette_query.take(app.palette_query.len() - 1));
}

/// The arrows choose among the matches of the palette, round and round.
pub proof fn law_palette_goes_round(app: AppModel, now: Timestamp)
    requires
        app.palette_index < app.palette_matches().len() <= usize::MAX,
    ensures
        ({
            let n = app.palette_matches().len();
            let i = app.palette_index;
            let down = app.after_palette_key(Key::Down, now).app.palette_index;
            let up = app.after_palette_key(Key::Up, now).app.palette_index;
            &&& i + 1 < n ==> down == i + 1
            &&& i + 1 == n ==> down == 0
            &&& i > 0 ==> up == i - 1
            &&& i == 0 ==> up == n - 1
        }),
{
    let n = app.palette_matches().len() as int;
    let i = app.palette_index as int;
    if i + 1 < n {
        assert((i + 1) % n == i + 1) by (nonlinear_arith)
            requires
                0 <= i + 1 < n,
        ;
    } else {
        assert(n % n == 0) by (nonlinear_arith)
            requires
                n > 0,
        ;
    }
    if i > 0 {
        assert((i - 1) % n == i - 1) by (nonlinear_arith)
            requires
                0 <= i - 1 < n,
        ;
    } else {
        assert((-1int) % n == n - 1) by (nonlinear_arith)
            requires
                n > 0,
        ;
    }
}

/// The palette lists, in the order of the catalog, the actions whose label holds what was typed,
/// upper and lower case alike, and no others; with nothing typed it lists them all.
pub proof fn law_palette_lists_what_was_typed(
    a: Seq<(Seq<char>, PaletteAction)>,
    b: Seq<(Seq<char>, PaletteAction)>,
    entry: (Seq<char>, PaletteAction),
    query: Seq<char>,
)
    ensures
        model::matching(a + b, query) == model::matching(a, query) + model::matching(b, query),
        query.len() == 0 || (exists|p: Seq<char>, q: Seq<char>|
            text::lowercase(entry.0) == #[trigger] (p + query + q)) ==> model::matching(
            seq![entry],
            query,
        ) == seq![entry],
        query.len() > 0 && (forall|p: Seq<char>, q: Seq<char>|
            text::lowercase(entry.0) != #[trigger] (p + query + q)) ==> model::matching(
            seq![entry],
            query,
        ).len() == 0,
    decreases b.len(),
{
    text::law_occurs_in_the_middle(text::lowercase(entry.0), query);
    let none = Seq::<(Seq<char>, PaletteAction)>::empty();
    assert(seq![entry].drop_last() =~= none);
    assert(model::matching(seq![entry].drop_last(), query) =~= none);
    if b.len() == 0 {
        assert(a + b =~= a);
    } else {
        law_palette_lists_what_was_typed(a, b.drop_last(), entry, query);
        assert((a + b).drop_last() =~= a + b.drop_last());
        assert((a + b).last() == b.last());
    }
}

/// The palette matches what was typed in lower case against the whole catalog, and Enter runs the
/// match that is chosen, with the palette closed; without a match it does nothing.
pub proof fn law_palette_runs_the_chosen_match(app: AppModel, now: Timestamp)
    ensures
        app.palette_matches() == model::matching(
            PaletteAction::labels(),
            text::lowercase(app.palette_query),
        ),
        app.palette_index >= app.palette_matches().len() ==> nothing(
            app,
            app.after_palette_key(Key::Enter, now),
        ),
        app.palette_index < app.palette_matches().len() ==> alike(
            app.after_palette_key(Key::Enter, now),
            with_overlay(app, OverlayModel::Closed).run_palette_action(
                app.palette_matches()[app.palette_index as int].1,
                now,
            ),
        ),
{
}

/// Each action of the palette does what its label says.
pub proof fn law_palette_actions(app: AppModel, now: Timestamp)
    ensures
        alike(app.run_palette_action(PaletteAction::Refresh, now), app.refresh()),
        alike(
            app.run_palette_action(PaletteAction::CheckAll, now),
            app.check_all_updates(now),
        ),
        alike(app.run_palette_action(PaletteAction::CycleTheme, now), app.cycle_theme()),
        nothing(
            with_overlay(app, OverlayModel::Prune),
            app.run_palette_action(PaletteAction::OpenPrune, now),
        ),
        nothing(
            with_overlay(app, OverlayModel::Confirm(ConfirmModel::PruneAll)),
            app.run_palette_action(PaletteAction::PruneAll, now),
        ),
        nothing(opened(app, Tab::Images), app.run_palette_action(PaletteAction::GotoImages, now)),
        nothing(
            opened(app, Tab::Containers),
            app.run_palette_action(PaletteAction::GotoContainers, now),
        ),
        nothing(opened(app, Tab::Space), app.run_palette_action(PaletteAction::GotoSpace, now)),
        nothing(
            app.apply_selected_update(),
            app.run_palette_action(PaletteAction::ApplySelected, now),
        ),
        nothing(
            AppModel { should_quit: true, ..app },
            app.run_palette_action(PaletteAction::Quit, now),
        ),
{
}

// ── The mouse ──────────────────────────────────────────────────────────────

/// A button does what the key beside it does.
pub proof fn law_buttons_do_as_their_keys(app: AppModel, now: Timestamp)
    ensures
        alike(app.run_ui_action(UiAction::Refresh, now), app.refresh()),
        alike(app.run_ui_action(UiAction::CheckSelected, now), app.check_selected_update()),
        alike(app.run_ui_action(UiAction::CheckAll, now), app.check_all_updates(now)),
        nothing(
            with_overlay(app, OverlayModel::UpdateDetails),
            app.run_ui_action(UiAction::Details, now),
        ),
        nothing(app.apply_selected_update(), app.run_ui_action(UiAction::Apply, now)),
        alike(app.run_ui_action(UiAction::StartStop, now), app.toggle_start_stop()),
        alike(app.run_ui_action(UiAction::Restart, now), app.restart_selected()),
        alike(app.run_ui_action(UiAction::Logs, now), app.open_logs()),
        alike(app.run_ui_action(UiAction::Changelog, now), app.open_changelog()),
        nothing(app.confirm_remove_selected(), app.run_ui_action(UiAction::Remove, now)),
        alike(app.run_ui_action(UiAction::Defer, now), app.defer_selected(now)),
        nothing(
            with_overlay(app, OverlayModel::Prune),
            app.run_ui_action(UiAction::OpenPrune, now),
        ),
        nothing(app.cycle_sort(), app.run_ui_action(UiAction::CycleSort, now)),
        alike(app.run_ui_action(UiAction::ToggleMouse, now), app.toggle_mouse()),
        alike(app.run_ui_action(UiAction::CycleTheme, now), app.cycle_theme()),
        nothing(with_overlay(app, OverlayModel::Help), app.run_ui_action(UiAction::Help, now)),
        nothing(app.open_palette(), app.run_ui_action(UiAction::OpenPalette, now)),
        nothing(
            AppModel { should_quit: true, ..app },
            app.run_ui_action(UiAction::Quit, now),
        ),
{
}

/// Each key does what the button beside it does.
pub proof fn law_keys_do_as_their_buttons(app: AppModel, now: Timestamp)
    ensures
        alike(app.after_plain_key(Key::Char('r'), false, now), app.refresh()),
        alike(app.after_plain_key(Key::Char('u'), false, now), app.check_selected_update()),
        alike(app.after_plain_key(Key::Char('U'), false, now), app.check_all_updates(now)),
        nothing(app.apply_selected_update(), app.after_plain_key(Key::Char('a'), false, now)),
        alike(app.after_plain_key(Key::Char('s'), false, now), app.toggle_start_stop()),
        alike(app.after_plain_key(Key::Char('R'), false, now), app.restart_selected()),
        alike(app.after_plain_key(Key::Char('L'), false, now), app.open_logs()),
        alike(app.after_plain_key(Key::Char('w'), false, now), app.open_changelog()),
        nothing(app.confirm_remove_selected(), app.after_plain_key(Key::Char('x'), false, now)),
        alike(app.after_plain_key(Key::Char('d'), false, now), app.defer_selected(now)),
        nothing(app.cycle_sort(), app.after_plain_key(Key::Char('o'), false, now)),
        alike(app.after_plain_key(Key::Char('y'), false, now), app.toggle_mouse()),
        alike(app.after_plain_key(Key::Char('T'), false, now), app.cycle_theme()),
        nothing(app.open_palette(), app.after_plain_key(Key::Char(':'), false, now)),
{
}

/// A button of an overlay does what the key beside it does there.
pub proof fn law_overlay_buttons_do_as_their_keys(app: AppModel, i: usize, now: Timestamp)
    ensures
        nothing(
            app.after_prune_key(Key::Char('i')),
            app.run_ui_action(UiAction::PruneImages(false), now),
        ),
        nothing(
            app.after_prune_key(Key::Char('I')),
            app.run_ui_action(UiAction::PruneImages(true), now),
        ),
        nothing(
            app.after_prune_key(Key::Char('c')),
            app.run_ui_action(UiAction::PruneContainers, now),
        ),
        nothing(
            app.after_prune_key(Key::Char('v')),
            app.run_ui_action(UiAction::PruneVolumes, now),
        ),
        nothing(
            app.after_prune_key(Key::Char('b')),
            app.run_ui_action(UiAction::PruneBuildCache, now),
        ),
        nothing(
            app.after_prune_key(Key::Char('a')),
            app.run_ui_action(UiAction::PruneAll, now),
        ),
        alike(app.run_ui_action(UiAction::ConfirmYes, now), app.confirm()),
        nothing(
            with_overlay(app, OverlayModel::Closed),
            app.run_ui_action(UiAction::ConfirmNo, now),
        ),
        nothing(app.close_overlay(), app.run_ui_action(UiAction::CloseOverlay, now)),
        alike(
            app.run_ui_action(UiAction::PaletteItem(i), now),
            app.run_palette_match(i, now),
        ),
{
}

/// To close an overlay drops what it showed and changes nothing else.
pub proof fn law_closing_drops_what_was_shown(app: AppModel)
    ensures
        app.close_overlay() == (AppModel {
            overlay: OverlayModel::Closed,
            overlay_view: Seq::empty(),
            ..app
        }),
{
}

/// A click on a tab opens it, one on a row selects it, one on the row that is selected already
/// shows its details, one on a column's head sorts by that column from low to high, and one on a
/// button does what the button is for.
pub proof fn law_clicks_reach_what_they_hit(
    app: AppModel,
    tab: Tab,
    row: usize,
    key: SortKey,
    a: UiAction,
    x: u16,
    y: u16,
    now: Timestamp,
)
    ensures
        ({
            let hit = types::hit(app.regions, x, y);
            let o = app.after_click(x, y, now);
            &&& hit == Some(ClickTarget::Tab(tab)) ==> nothing(opened(app, tab), o)
            &&& hit == Some(ClickTarget::Row(row)) && !(app.tab is Space) && row != app.selected
                ==> nothing(AppModel { selected: row, ..app }, o)
            &&& hit == Some(ClickTarget::Row(row)) && !(app.tab is Space) && row == app.selected
                ==> nothing(with_overlay(app, OverlayModel::UpdateDetails), o)
            &&& hit == Some(ClickTarget::Header(key)) ==> nothing(app.sorted_by(key, false), o)
            &&& hit == Some(ClickTarget::Action(a)) ==> alike(o, app.run_ui_action(a, now))
        }),
{
}

/// The wheel scrolls what scrolls, and otherwise moves the selection of the list, where no
/// overlay stands before it.
pub proof fn law_wheel_does_as_the_arrows(app: AppModel, x: u16, y: u16, now: Timestamp)
    ensures
        ({
            let down = MouseInput { action: MouseAction::ScrollDown, column: x, row: y };
            let up = MouseInput { action: MouseAction::ScrollUp, column: x, row: y };
            let click = MouseInput { action: MouseAction::LeftDown, column: x, row: y };
            let other = MouseInput { action: MouseAction::Other, column: x, row: y };
            let scrolls = app.overlay is Logs || app.overlay is Changelog || app.overlay is Help;
            &&& scrolls ==> nothing(app.scroll_down(), app.after_mouse(down, now)) && nothing(
                app.scroll_up(),
                app.after_mouse(up, now),
            )
            &&& app.overlay is Closed ==> nothing(app.move_selection(1), app.after_mouse(down, now))
                && nothing(app.move_selection(-1), app.after_mouse(up, now))
            &&& !scrolls && !(app.overlay is Closed) ==> nothing(app, app.after_mouse(down, now))
                && nothing(app, app.after_mouse(up, now))
            &&& nothing(app, app.after_mouse(other, now))
            &&& alike(app.after_mouse(click, now), app.after_click(x, y, now))
        }),
{
}

// ── Events ─────────────────────────────────────────────────────────────────

/// Every tick samples the container that is selected, where it runs and nothing stands before the
/// list; otherwise a tick does nothing.
pub proof fn law_ticks_sample_the_selected_container(app: AppModel)
    ensures
        ({
            let runs = app.overlay is Closed && chosen(app) is Some && chosen(app)->0.state
                == "running"@;
            &&& runs ==> leads(
                app.after_tick(),
                app,
                seq![
                    EffectModel::SampleStats { id: chosen(app)->0.id, image: chosen(app)->0.image },
                ],
            )
            &&& !runs ==> nothing(app, app.after_tick())
        }),
{
}

/// The result of a check is shown under its image, and no other result changes; it is said where
/// there is an update. Unless it is an error it is remembered too.
pub proof fn law_results_are_shown(app: AppModel, image: Seq<char>, info: UpdateModel)
    ensures
        ({
            let o = app.after_update_result(image, info);
            let cache = app.state.update_cache;
            &&& o.app.updates == app.updates.insert(image, info)
            &&& info.status is Error ==> o.effects.len() == 0 && o.app.state == app.state
            &&& !(info.status is Error) ==> o.effects == seq![EffectModel::SaveState]
                && o.app.state.update_cache == cache.insert(image, info) && o.app.state.deferred
                == app.state.deferred
            &&& !(info.status is UpdateAvailable) ==> o.app.status_message == app.status_message
            &&& info.status is UpdateAvailable && info.transition() is Some
                ==> o.app.status_message == "update available: "@ + image + (": "@
                + info.transition()->0)
            &&& info.status is UpdateAvailable && info.transition() is None
                ==> o.app.status_message == "update available: "@ + image
            &&& o.app.overlay == app.overlay && o.app.selected == app.selected && o.app.tab
                == app.tab
        }),
{
    assert("update available: "@ + image + Seq::<char>::empty() =~= "update available: "@ + image);
}

/// A tick, and the result of a check, are taken for what they are.
pub proof fn law_ticks_and_results_arrive(
    app: AppModel,
    image: String,
    info: UpdateInfo,
    now: Timestamp,
)
    ensures
        alike(app.after_event(AppEvent::Tick, now), app.after_tick()),
        alike(
            app.after_event(AppEvent::UpdateResult(image, info), now),
            app.after_update_result(image@, info@),
        ),
{
}

/// Logs, and the progress of an update, are taken for what they are.
pub proof fn law_logs_and_progress_arrive(
    app: AppModel,
    lines: Vec<String>,
    progress: ApplyProgress,
    now: Timestamp,
)
    ensures
        nothing(
            app.after_logs(lines.deep_view()),
            app.after_event(AppEvent::Logs(lines), now),
        ),
        alike(app.after_event(AppEvent::Apply(progress), now), app.after_progress(progress@)),
{
}

/// What the mouse does arrives as such.
pub proof fn law_mouse_arrives(app: AppModel, mouse: MouseInput, now: Timestamp)
    ensures
        alike(
            app.after_event(AppEvent::Input(Input::Mouse(mouse)), now),
            app.after_mouse(mouse, now),
        ),
{
}

/// A key arrives as such, and other input does nothing.
pub proof fn law_keys_arrive(app: AppModel, press: KeyPress, now: Timestamp)
    ensures
        alike(app.after_event(AppEvent::Input(Input::Key(press)), now), app.after_key(press, now)),
        nothing(app, app.after_event(AppEvent::Input(Input::Other), now)),
{
}

/// The id that a reference stands for is that of the last image that has it.
pub proof fn law_last_image_has_the_reference(
    before: Seq<ImageModel>,
    image: ImageModel,
    behind: Seq<ImageModel>,
    r: Seq<char>,
)
    requires
        image.primary_reference() == Some(r),
        forall|i: int|
            0 <= i < behind.len() ==> (#[trigger] behind[i]).primary_reference() != Some(r),
    ensures
        model::current_id(before + seq![image] + behind, r) == Some(image.id),
        model::current_id(behind, r) is None,
    decreases behind.len(),
{
    let all = before + seq![image] + behind;
    if behind.len() == 0 {
        assert(all.last() == image);
    } else {
        let fewer = behind.drop_last();
        assert(all.last() == behind[behind.len() - 1]);
        assert(all.drop_last() =~= before + seq![image] + fewer);
        assert forall|i: int| 0 <= i < fewer.len() implies (#[trigger] fewer[i]).primary_reference()
            != Some(r) by {
            assert(fewer[i] == behind[i]);
        }
        law_last_image_has_the_reference(before, image, fewer, r);
    }
}

/// A result goes stale exactly where it was computed against an image and its reference stands
/// for another one now: a result that names no image, or whose image is not listed, is kept.
pub proof fn law_results_go_stale_with_their_image(
    info: UpdateModel,
    images: Seq<ImageModel>,
    r: Seq<char>,
)
    ensures
        info.local_id is None ==> !model::outdated(info, images, r),
        model::current_id(images, r) is None ==> !model::outdated(info, images, r),
        info.local_id is Some && model::current_id(images, r) is Some ==> (model::outdated(
            info,
            images,
            r,
        ) <==> info.local_id->0 != model::current_id(images, r)->0),
{
}

/// Lists that have been read are shown, in the order in which they came unless they are sorted,
/// and are counted in the message; the selection stays on its row, or goes to the last one where
/// there are fewer.
pub proof fn law_lists_are_shown(
    app: AppModel,
    images: Seq<ImageModel>,
    containers: Seq<ContainerModel>,
    usage: DiskUsage,
)
    requires
        app.sort is Listed,
        images.len() <= usize::MAX,
        containers.len() <= usize::MAX,
    ensures
        ({
            let after = app.after_reload(images, containers, usage);
            let n = if app.tab is Images {
                images.len() as int
            } else if app.tab is Containers {
                containers.len() as int
            } else {
                0
            };
            &&& after.images == images && after.containers == containers && after.usage == Some(
                usage,
            )
            &&& app.selected < n ==> after.selected == app.selected
            &&& app.selected >= n && n > 0 ==> after.selected == n - 1
            &&& n == 0 ==> after.selected == 0
            &&& after.status_message == text::decimal(images.len()) + " images · "@ + text::decimal(
                containers.len(),
            ) + " containers"@
            &&& after.tab == app.tab && after.overlay == app.overlay && after.stats == app.stats
        }),
{
    let read = AppModel { images, containers, usage: Some(usage), ..app };
    crate::tui::laws::law_unsorted_lists_stay_as_listed(read.invalidate_stale_updates());
}

/// Logs are shown in their order, each line for itself, scrolled to the last.
pub proof fn law_logs_are_shown(app: AppModel, lines: Seq<Seq<char>>)
    requires
        lines.len() <= usize::MAX,
    ensures
        app.after_logs(lines).overlay is Logs,
        app.after_logs(lines).overlay_view.len() == lines.len(),
        forall|i: int|
            0 <= i < lines.len() ==> #[trigger] app.after_logs(lines).overlay_view[i] == style::raw(
                lines[i],
            ),
        lines.len() > 0 ==> app.after_logs(lines).overlay_scroll == lines.len() - 1,
        lines.len() == 0 ==> app.after_logs(lines).overlay_scroll == 0,
{
}

/// A changelog is shown from its first line, under its title, in the colors of the theme.
pub proof fn law_changelog_is_shown(
    app: AppModel,
    title: String,
    releases: Vec<Release>,
    now: Timestamp,
)
    ensures
        nothing(
            AppModel {
                overlay: OverlayModel::Changelog,
                overlay_title: title@,
                overlay_view: changelog::changelog(releases@, app.theme),
                overlay_scroll: 0,
                ..app
            },
            app.after_event(AppEvent::Changelog(title, releases), now),
        ),
{
}

/// A sample is kept under its image, and changes nothing else.
pub proof fn law_samples_are_kept(
    app: AppModel,
    image: String,
    stats: ContainerStats,
    now: Timestamp,
)
    ensures
        nothing(
            AppModel { stats: app.stats.insert(image@, stats@), ..app },
            app.after_event(AppEvent::Stats(image, stats), now),
        ),
{
}

/// A message is said, and changes nothing else.
pub proof fn law_messages_are_said(app: AppModel, message: String, now: Timestamp)
    ensures
        nothing(
            AppModel { status_message: message@, ..app },
            app.after_event(AppEvent::Message(message), now),
        ),
{
}

/// The progress of an update changes its display and nothing else, and the lists are read again
/// exactly when it is over.
pub proof fn law_progress_changes_the_display(app: AppModel, progress: ProgressModel)
    ensures
        ({
            let o = app.after_progress(progress);
            &&& app.apply is None ==> nothing(app, o)
            &&& app.apply is Some ==> o.app == (AppModel {
                apply: Some(app.apply->0.after(progress)),
                ..app
            }) && o.effects == (if app.apply->0.after(progress).finished {
                seq![EffectModel::Reload]
            } else {
                Seq::empty()
            })
        }),
{
}

/// The application starts on the tab of the images, with nothing before it and nothing listed
/// yet, in the theme of the configuration and with the results that were remembered.
pub proof fn law_application_starts_empty(config: ConfigModel, state: StateModel)
    ensures
        ({
            let app = AppModel::initial(config, state);
            &&& app.config == config && app.state == state && app.updates == state.update_cache
            &&& app.tab is Images && app.overlay is Closed && app.selected == 0
            &&& app.images.len() == 0 && app.containers.len() == 0 && app.usage is None
            &&& app.sort is Listed && !app.descending && app.mouse && !app.should_quit
            &&& app.apply is None
            &&& config.theme == "solar"@ || config.theme == "gruvbox"@ || config.theme == "mono"@
                || config.theme == "midnight"@ ==> app.theme.name == config.theme
        }),
{
}

} // verus!
