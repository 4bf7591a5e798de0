//! The application: events and what they do.

use dockersmith::clock::Timestamp;
use dockersmith::config::{Config, State};
use dockersmith::docker::model::{
    ApplyProgress, ApplyStage, ContainerInfo, DiskUsage, ImageInfo, StageState, UpdateInfo,
    UpdateStatus,
};
use dockersmith::docker::prune::PruneStep;
use dockersmith::tui::app::App;
use dockersmith::tui::changelog::changelog_error;
use dockersmith::tui::progress::{step_status, ApplyState, StepStatus, LOG_LIMIT};
use dockersmith::tui::schedule::{due, Round};
use dockersmith::tui::sort::comes_before;
use dockersmith::tui::types::{
    find_target, AppEvent, ClickRegion, ClickTarget, ConfirmAction, ContainerStats, Effect, Input,
    Key, KeyPress, MouseAction, MouseInput, Overlay, PaletteAction, Rect, ReloadData, SortKey,
    Tab, UiAction,
};

const NOW: Timestamp = Timestamp { secs: 1_000_000, nanos: 0 };

fn image(tag: &str, id: &str) -> ImageInfo {
    ImageInfo {
        id: id.to_string(),
        repo_tags: vec![tag.to_string()],
        size: 10,
        created: 0,
        version: None,
    }
}

fn container(name: &str, image: &str, state: &str) -> ContainerInfo {
    ContainerInfo {
        id: format!("id-{name}"),
        name: name.to_string(),
        image: image.to_string(),
        state: state.to_string(),
        status: String::new(),
    }
}

fn data() -> ReloadData {
    ReloadData {
        images: vec![image("redis:7", "sha256:r"), image("nginx:1", "sha256:n")],
        containers: vec![
            container("cache", "redis:7", "running"),
            container("web", "nginx:1", "exited"),
            container("web2", "nginx:1", "running"),
        ],
        usage: DiskUsage::default(),
    }
}

fn app() -> App {
    let mut a = App::new(Config::default(), State::default());
    let _ = a.handle_event_at(AppEvent::Reloaded(data()), NOW);
    a
}

fn send(a: &mut App, key: Key) -> Vec<Effect> {
    let press = KeyPress { key, control: false, release: false };
    a.handle_event_at(AppEvent::Input(Input::Key(press)), NOW)
}

fn ctrl(a: &mut App, c: char) -> Vec<Effect> {
    let press = KeyPress { key: Key::Char(c), control: true, release: false };
    a.handle_event_at(AppEvent::Input(Input::Key(press)), NOW)
}

fn press(a: &mut App, c: char) -> Vec<Effect> {
    send(a, Key::Char(c))
}

fn mouse(a: &mut App, action: MouseAction, column: u16, row: u16) -> Vec<Effect> {
    a.handle_event_at(AppEvent::Input(Input::Mouse(MouseInput { action, column, row })), NOW)
}

fn region(x: u16, target: ClickTarget) -> ClickRegion {
    ClickRegion { rect: Rect { x, y: 0, width: 5, height: 1 }, target }
}

#[test]
fn starts_with_what_is_remembered() {
    let mut state = State::default();
    state
        .update_cache
        .insert("redis:7".to_string(), UpdateInfo::from_status(UpdateStatus::UpToDate));
    let mut config = Config::default();
    config.theme = "solar".to_string();
    let a = App::new(config, state);
    assert_eq!(a.theme().name, "solar");
    assert_eq!(a.tab(), Tab::Images);
    assert!(a.overlay().is_closed());
    assert_eq!(a.status_message(), "Loading…");
    assert_eq!(a.updates().get("redis:7").map(|i| i.status.clone()), Some(UpdateStatus::UpToDate));
    assert!(a.usage().is_none());
    assert!(a.apply().is_none());
    assert_eq!(a.selected_update().map(|u| u.0), None);
}

#[test]
fn reloading_says_what_there_is() {
    let a = app();
    assert_eq!(a.status_message(), "2 images · 3 containers");
    assert_eq!(a.images().len(), 2);
    assert_eq!(a.containers().len(), 3);
    assert_eq!(a.row_count(), 2);
    assert_eq!(a.selected_image_ref(), Some("redis:7".to_string()));
}

#[test]
fn tabs_go_round() {
    for t in Tab::ALL {
        assert_eq!(t.next().prev(), t);
        assert_eq!(t.prev().next(), t);
        assert_eq!(t.next().next().next(), t);
        assert_eq!(Tab::ALL[t.index()], t);
    }
    let mut a = app();
    let _ = send(&mut a, Key::Tab);
    assert_eq!(a.tab(), Tab::Containers);
    let _ = send(&mut a, Key::BackTab);
    let _ = send(&mut a, Key::BackTab);
    assert_eq!(a.tab(), Tab::Space);
    let _ = press(&mut a, '1');
    assert_eq!(a.tab(), Tab::Images);
    let _ = ctrl(&mut a, 'l');
    assert_eq!(a.tab(), Tab::Containers);
    let _ = press(&mut a, 'l');
    assert_eq!(a.tab(), Tab::Containers);
    let _ = press(&mut a, '3');
    assert_eq!(a.tab(), Tab::Space);
}

#[test]
fn selection_goes_round_the_list() {
    let mut a = app();
    let _ = press(&mut a, '2');
    let _ = send(&mut a, Key::Up);
    assert_eq!(a.selected(), 2);
    let _ = send(&mut a, Key::Down);
    assert_eq!(a.selected(), 0);
    let _ = press(&mut a, 'G');
    assert_eq!(a.selected(), 2);
    let _ = press(&mut a, 'g');
    assert_eq!(a.selected(), 0);
    a.move_selection(7);
    assert_eq!(a.selected(), 1);
    a.move_selection(-5);
    assert_eq!(a.selected(), 2);
    let _ = press(&mut a, '3');
    a.move_selection(1);
    assert_eq!(a.selected(), 0);
}

#[test]
fn reloading_keeps_the_selection_on_a_row() {
    let mut a = app();
    let _ = press(&mut a, '2');
    let _ = send(&mut a, Key::End);
    let mut less = data();
    less.containers.truncate(1);
    let _ = a.handle_event_at(AppEvent::Reloaded(less), NOW);
    assert_eq!(a.selected(), 0);
}

#[test]
fn quitting_takes_a_key() {
    let mut a = app();
    let _ = press(&mut a, 'c');
    assert!(!a.should_quit());
    let release = KeyPress { key: Key::Char('q'), control: false, release: true };
    let _ = a.handle_event_at(AppEvent::Input(Input::Key(release)), NOW);
    assert!(!a.should_quit());
    let _ = ctrl(&mut a, 'c');
    assert!(a.should_quit());
    let mut b = app();
    let _ = press(&mut b, 'q');
    assert!(b.should_quit());
}

#[test]
fn refreshing_reloads() {
    let mut a = app();
    assert_eq!(press(&mut a, 'r'), vec![Effect::Reload]);
    assert_eq!(a.status_message(), "Refreshing…");
}

#[test]
fn checks_the_selected_image() {
    let mut a = app();
    assert_eq!(press(&mut a, 'u'), vec![Effect::CheckUpdate("redis:7".to_string())]);
    assert_eq!(a.updates().get("redis:7").map(|i| i.status.clone()), Some(UpdateStatus::Checking));
    let _ = press(&mut a, '3');
    assert_eq!(press(&mut a, 'u'), vec![]);
}

#[test]
fn checking_all_skips_what_is_deferred() {
    let mut a = app();
    assert_eq!(press(&mut a, 'd'), vec![Effect::SaveState]);
    assert_eq!(a.status_message(), "deferred redis:7 for 30 days");
    assert_eq!(press(&mut a, 'U'), vec![Effect::CheckUpdate("nginx:1".to_string())]);
    assert_eq!(a.status_message(), "Checking 2 images…");
    let later = Timestamp { secs: NOW.secs + 30 * 86_400, nanos: 0 };
    let all = KeyPress { key: Key::Char('U'), control: false, release: false };
    assert_eq!(
        a.handle_event_at(AppEvent::Input(Input::Key(all)), later),
        vec![
            Effect::CheckUpdate("redis:7".to_string()),
            Effect::CheckUpdate("nginx:1".to_string())
        ]
    );
    let _ = press(&mut a, '2');
    assert_eq!(press(&mut a, 'U').len(), 2);
    let _ = press(&mut a, '3');
    assert_eq!(press(&mut a, 'U'), vec![]);
}

#[test]
fn conclusive_results_are_remembered() {
    let mut a = app();
    let mut info = UpdateInfo::from_status(UpdateStatus::UpdateAvailable);
    info.current_version = Some("1".to_string());
    info.latest_version = Some("2".to_string());
    let effects = a.handle_event_at(AppEvent::UpdateResult("redis:7".to_string(), info), NOW);
    assert_eq!(effects, vec![Effect::SaveState]);
    assert_eq!(a.status_message(), "update available: redis:7: 1 → 2");
    assert!(a.state().update_cache.get("redis:7").is_some());
    let failed = UpdateInfo::from_status(UpdateStatus::Error("x".to_string()));
    let effects = a.handle_event_at(AppEvent::UpdateResult("nginx:1".to_string(), failed), NOW);
    assert_eq!(effects, vec![]);
    assert!(a.state().update_cache.get("nginx:1").is_none());
    assert!(a.updates().get("nginx:1").is_some());
    let bare = UpdateInfo::from_status(UpdateStatus::UpdateAvailable);
    let _ = a.handle_event_at(AppEvent::UpdateResult("nginx:1".to_string(), bare), NOW);
    assert_eq!(a.status_message(), "update available: nginx:1");
}

#[test]
fn stale_results_are_dropped() {
    let mut a = app();
    for (reference, id) in [("redis:7", "sha256:r"), ("nginx:1", "sha256:old")] {
        let mut info = UpdateInfo::from_status(UpdateStatus::UpToDate);
        info.local_id = Some(id.to_string());
        let _ = a.handle_event_at(AppEvent::UpdateResult(reference.to_string(), info), NOW);
    }
    let _ = a.handle_event_at(AppEvent::Reloaded(data()), NOW);
    assert!(a.updates().get("redis:7").is_some());
    assert!(a.updates().get("nginx:1").is_none());
    assert!(a.state().update_cache.get("redis:7").is_some());
    assert!(a.state().update_cache.get("nginx:1").is_none());
}

#[test]
fn removing_takes_a_yes() {
    let mut a = app();
    assert_eq!(press(&mut a, 'x'), vec![]);
    assert!(a.overlay().is_closed());
    let _ = press(&mut a, '2');
    assert_eq!(press(&mut a, 'x'), vec![]);
    assert!(matches!(
        a.overlay(),
        Overlay::Confirm(ConfirmAction::RemoveContainer(id, name)) if id == "id-cache" && name == "cache"
    ));
    assert_eq!(press(&mut a, 'z'), vec![]);
    assert_eq!(press(&mut a, 'n'), vec![]);
    assert!(a.overlay().is_closed());
    let _ = press(&mut a, 'x');
    assert_eq!(
        press(&mut a, 'y'),
        vec![
            Effect::RemoveContainer { id: "id-cache".to_string(), name: "cache".to_string() },
            Effect::ReloadSoon
        ]
    );
    assert!(a.overlay().is_closed());
}

#[test]
fn pruning_takes_a_yes() {
    for (key, effect) in [
        ('i', Effect::PruneImages(false)),
        ('I', Effect::PruneImages(true)),
        ('c', Effect::PruneContainers),
        ('v', Effect::PruneVolumes),
        ('b', Effect::PruneBuildCache),
        (
            'a',
            Effect::PruneAll(vec![
                PruneStep::Containers,
                PruneStep::Images(true),
                PruneStep::Volumes,
                PruneStep::BuildCache,
            ]),
        ),
    ] {
        let mut a = app();
        assert_eq!(press(&mut a, 'p'), vec![]);
        assert!(matches!(a.overlay(), Overlay::Prune));
        assert_eq!(press(&mut a, key), vec![]);
        assert!(matches!(a.overlay(), Overlay::Confirm(_)));
        assert_eq!(send(&mut a, Key::Enter), vec![effect, Effect::ReloadSoon]);
        assert!(a.overlay().is_closed());
    }
    let mut a = app();
    let _ = press(&mut a, 'p');
    let _ = send(&mut a, Key::Esc);
    assert!(a.overlay().is_closed());
}

#[test]
fn applying_needs_the_containers_tab() {
    let mut a = app();
    assert_eq!(press(&mut a, 'a'), vec![]);
    assert_eq!(a.status_message(), "switch to the Containers tab to apply an update");
    let _ = press(&mut a, '2');
    let _ = press(&mut a, 'a');
    assert_eq!(
        press(&mut a, 'y'),
        vec![Effect::ApplyUpdate { id: "id-cache".to_string(), image: "redis:7".to_string() }]
    );
    assert!(matches!(a.overlay(), Overlay::ApplyProgress));
    assert_eq!(a.apply().unwrap().title, "Updating redis:7");
    // A running update cannot be dismissed.
    let _ = send(&mut a, Key::Esc);
    let _ = mouse(&mut a, MouseAction::LeftDown, 0, 0);
    assert!(matches!(a.overlay(), Overlay::ApplyProgress));
    let done = ApplyProgress::Stage(ApplyStage::Done, StageState::Done);
    assert_eq!(a.handle_event_at(AppEvent::Apply(done), NOW), vec![Effect::Reload]);
    assert!(a.apply().unwrap().success);
    let _ = send(&mut a, Key::Esc);
    assert!(a.overlay().is_closed());
}

#[test]
fn containers_start_and_stop() {
    let mut a = app();
    assert_eq!(press(&mut a, 's'), vec![]);
    assert_eq!(press(&mut a, 'R'), vec![]);
    let _ = press(&mut a, '2');
    let cache = || ("id-cache".to_string(), "cache".to_string());
    let (id, name) = cache();
    assert_eq!(press(&mut a, 's'), vec![Effect::StopContainer { id, name }, Effect::ReloadSoon]);
    let (id, name) = cache();
    assert_eq!(
        press(&mut a, 'R'),
        vec![Effect::RestartContainer { id, name }, Effect::ReloadSoon]
    );
    let _ = press(&mut a, 'j');
    assert_eq!(
        press(&mut a, 's'),
        vec![
            Effect::StartContainer { id: "id-web".to_string(), name: "web".to_string() },
            Effect::ReloadSoon
        ]
    );
}

#[test]
fn logs_open_and_scroll() {
    let mut a = app();
    assert_eq!(press(&mut a, 'L'), vec![]);
    assert_eq!(a.status_message(), "logs are available on the Containers tab");
    let _ = press(&mut a, '2');
    assert_eq!(
        press(&mut a, 'L'),
        vec![Effect::FetchLogs { id: "id-cache".to_string(), tail: 200 }]
    );
    assert_eq!(a.overlay_title(), "logs: cache");
    assert_eq!(a.status_message(), "loading logs…");
    let lines = vec!["one".to_string(), "two".to_string(), "three".to_string()];
    let _ = a.handle_event_at(AppEvent::Logs(lines), NOW);
    assert!(matches!(a.overlay(), Overlay::Logs));
    assert_eq!(a.overlay_scroll(), 2);
    assert_eq!(a.overlay_view()[1].spans[0].content, "two");
    let _ = press(&mut a, 'j');
    assert_eq!(a.overlay_scroll(), 2);
    let _ = press(&mut a, 'k');
    let _ = mouse(&mut a, MouseAction::ScrollUp, 0, 0);
    let _ = mouse(&mut a, MouseAction::ScrollUp, 0, 0);
    assert_eq!(a.overlay_scroll(), 0);
    let _ = mouse(&mut a, MouseAction::ScrollDown, 0, 0);
    assert_eq!(a.overlay_scroll(), 1);
    let _ = press(&mut a, 'q');
    assert!(a.overlay().is_closed());
    assert_eq!(a.overlay_view().len(), 0);
    assert!(!a.should_quit());
}

#[test]
fn changelogs_have_sources() {
    let mut config = Config::default();
    config.github_token = Some("SECRET-REDACTED".to_string());
    let mut state = State::default();
    state.changelog_sources.insert("nginx:1".to_string(), "me/fork".to_string());
    let mut a = App::new(config, state);
    let mut loaded = data();
    loaded.images.push(image("quay.io/b:1", "sha256:q"));
    let _ = a.handle_event_at(AppEvent::Reloaded(loaded), NOW);
    let fetch = |repo: &str| Effect::FetchReleases {
        repo: repo.to_string(),
        title: format!("changelog: {repo}"),
        token: Some("SECRET-REDACTED".to_string()),
        limit: 5,
    };
    assert_eq!(press(&mut a, 'w'), vec![fetch("redis/redis")]);
    assert_eq!(a.status_message(), "fetching redis/redis releases…");
    let _ = press(&mut a, 'j');
    assert_eq!(press(&mut a, 'w'), vec![fetch("me/fork")]);
    let _ = press(&mut a, 'j');
    assert_eq!(press(&mut a, 'w'), vec![]);
    assert_eq!(a.status_message(), "no changelog source known for quay.io/b:1");
    let mut info = UpdateInfo::from_status(UpdateStatus::UpToDate);
    info.changelog_repo = Some("found/it".to_string());
    let _ = a.handle_event_at(AppEvent::UpdateResult("quay.io/b:1".to_string(), info), NOW);
    assert_eq!(press(&mut a, 'w'), vec![fetch("found/it")]);
    let _ = a.handle_event_at(AppEvent::Changelog("changelog: x".to_string(), Vec::new()), NOW);
    assert!(matches!(a.overlay(), Overlay::Changelog));
    assert_eq!(a.overlay_title(), "changelog: x");
    assert_eq!(a.overlay_view()[0].spans[0].content, "No releases found.");
}

#[test]
fn details_lead_on() {
    let mut a = app();
    let _ = send(&mut a, Key::Enter);
    assert!(matches!(a.overlay(), Overlay::UpdateDetails));
    assert_eq!(press(&mut a, 'u'), vec![Effect::CheckUpdate("redis:7".to_string())]);
    assert!(a.overlay().is_closed());
    let _ = send(&mut a, Key::Enter);
    assert_eq!(press(&mut a, 'w').len(), 1);
    assert!(a.overlay().is_closed());
    let _ = send(&mut a, Key::Enter);
    let _ = send(&mut a, Key::Enter);
    assert!(a.overlay().is_closed());
}

#[test]
fn themes_are_saved() {
    let mut a = app();
    assert_eq!(press(&mut a, 'T'), vec![Effect::SaveConfig]);
    assert_eq!(a.theme().name, "solar");
    assert_eq!(a.config().theme, "solar");
    assert_eq!(a.status_message(), "theme: solar");
}

#[test]
fn palette_finds_actions() {
    let mut a = app();
    let _ = press(&mut a, ':');
    assert!(matches!(a.overlay(), Overlay::Palette));
    assert_eq!(a.palette_matches().len(), PaletteAction::catalog().len());
    let _ = send(&mut a, Key::Up);
    assert_eq!(a.palette_index(), 9);
    let _ = send(&mut a, Key::Down);
    assert_eq!(a.palette_index(), 0);
    for c in "PRUNE".chars() {
        let _ = press(&mut a, c);
    }
    assert_eq!(a.palette_query(), "PRUNE");
    let found: Vec<PaletteAction> = a.palette_matches().iter().map(|m| m.1).collect();
    assert_eq!(found, vec![PaletteAction::OpenPrune, PaletteAction::PruneAll]);
    let _ = send(&mut a, Key::Down);
    assert_eq!(send(&mut a, Key::Enter), vec![]);
    assert!(matches!(a.overlay(), Overlay::Confirm(ConfirmAction::PruneAll)));
    let _ = send(&mut a, Key::Esc);
    let _ = ctrl(&mut a, 'p');
    assert_eq!(a.palette_query(), "");
    let _ = press(&mut a, 'z');
    let _ = press(&mut a, 'z');
    assert_eq!(a.palette_matches().len(), 0);
    let _ = send(&mut a, Key::Down);
    assert_eq!(send(&mut a, Key::Enter), vec![]);
    assert!(matches!(a.overlay(), Overlay::Palette));
    let _ = send(&mut a, Key::Backspace);
    assert_eq!(a.palette_query(), "z");
    let _ = send(&mut a, Key::Esc);
    assert!(a.overlay().is_closed());
}

#[test]
fn palette_runs_actions() {
    let run = |at: usize| {
        let mut a = app();
        let _ = press(&mut a, ':');
        for _ in 0..at {
            let _ = send(&mut a, Key::Down);
        }
        let effects = send(&mut a, Key::Enter);
        (a, effects)
    };
    assert_eq!(run(0).1, vec![Effect::Reload]);
    assert_eq!(run(1).1.len(), 2);
    assert!(matches!(run(2).0.overlay(), Overlay::Prune));
    assert_eq!(run(4).1, vec![Effect::SaveConfig]);
    assert_eq!(run(5).0.tab(), Tab::Images);
    assert_eq!(run(6).0.tab(), Tab::Containers);
    assert_eq!(run(7).0.tab(), Tab::Space);
    assert_eq!(
        run(8).0.status_message(),
        "switch to the Containers tab to apply an update"
    );
    assert!(run(9).0.should_quit());
}

#[test]
fn clicks_hit_what_lies_on_top() {
    let regions = vec![
        region(0, ClickTarget::Row(1)),
        region(3, ClickTarget::Tab(Tab::Space)),
    ];
    assert_eq!(find_target(&regions, 1, 0), Some(ClickTarget::Row(1)));
    assert_eq!(find_target(&regions, 4, 0), Some(ClickTarget::Tab(Tab::Space)));
    assert_eq!(find_target(&regions, 8, 0), None);
    assert_eq!(find_target(&regions, 1, 1), None);
    let edge = ClickRegion {
        rect: Rect { x: 65_530, y: 0, width: 10, height: 1 },
        target: ClickTarget::Row(0),
    };
    assert!(edge.contains(65_535, 0));
}

#[test]
fn rows_are_clicked_twice() {
    let mut a = app();
    a.set_regions(vec![region(0, ClickTarget::Row(1))]);
    let _ = mouse(&mut a, MouseAction::LeftDown, 0, 0);
    assert_eq!(a.selected(), 1);
    assert!(a.overlay().is_closed());
    let _ = mouse(&mut a, MouseAction::LeftDown, 0, 0);
    assert!(matches!(a.overlay(), Overlay::UpdateDetails));
    let mut b = app();
    let _ = press(&mut b, '3');
    b.set_regions(vec![region(0, ClickTarget::Row(1))]);
    let _ = mouse(&mut b, MouseAction::LeftDown, 0, 0);
    assert_eq!(b.selected(), 0);
}

#[test]
fn stray_clicks_close_what_may_close() {
    let mut a = app();
    let _ = press(&mut a, '?');
    assert!(matches!(a.overlay(), Overlay::Help));
    let _ = mouse(&mut a, MouseAction::LeftDown, 9, 9);
    assert!(a.overlay().is_closed());
    let _ = press(&mut a, 'p');
    let _ = press(&mut a, 'a');
    assert_eq!(mouse(&mut a, MouseAction::LeftDown, 9, 9), vec![]);
    assert!(matches!(a.overlay(), Overlay::Confirm(_)));
}

#[test]
fn clicking_a_button_answers() {
    let mut a = app();
    let _ = press(&mut a, 'p');
    let _ = press(&mut a, 'v');
    a.set_regions(vec![
        region(0, ClickTarget::Action(UiAction::ConfirmYes)),
        region(10, ClickTarget::Action(UiAction::ConfirmNo)),
    ]);
    let mut b = app();
    b.set_regions(vec![region(0, ClickTarget::Action(UiAction::ConfirmYes))]);
    assert_eq!(mouse(&mut b, MouseAction::LeftDown, 0, 0), vec![]);
    assert_eq!(
        mouse(&mut a, MouseAction::LeftDown, 2, 0),
        vec![Effect::PruneVolumes, Effect::ReloadSoon]
    );
    let _ = press(&mut a, 'p');
    let _ = press(&mut a, 'v');
    assert_eq!(mouse(&mut a, MouseAction::LeftDown, 12, 0), vec![]);
    assert!(a.overlay().is_closed());
}

#[test]
fn clicking_shortcuts_acts() {
    let click = |action: UiAction| {
        let mut a = app();
        a.set_regions(vec![region(0, ClickTarget::Action(action))]);
        let effects = mouse(&mut a, MouseAction::LeftDown, 0, 0);
        (a, effects)
    };
    assert_eq!(click(UiAction::Refresh).1, vec![Effect::Reload]);
    assert_eq!(click(UiAction::CheckSelected).1.len(), 1);
    assert_eq!(click(UiAction::CheckAll).1.len(), 2);
    assert!(matches!(click(UiAction::Details).0.overlay(), Overlay::UpdateDetails));
    assert_eq!(click(UiAction::Defer).1, vec![Effect::SaveState]);
    assert!(matches!(click(UiAction::OpenPrune).0.overlay(), Overlay::Prune));
    assert!(matches!(click(UiAction::OpenPalette).0.overlay(), Overlay::Palette));
    assert!(matches!(click(UiAction::Help).0.overlay(), Overlay::Help));
    assert!(click(UiAction::Quit).0.should_quit());
    assert!(matches!(
        click(UiAction::PruneImages(true)).0.overlay(),
        Overlay::Confirm(ConfirmAction::PruneImages(true))
    ));
    assert_eq!(click(UiAction::PaletteItem(0)).1, vec![Effect::Reload]);
    assert_eq!(click(UiAction::PaletteItem(99)).1, vec![]);
    assert!(click(UiAction::CloseOverlay).0.overlay().is_closed());
}

#[test]
fn the_wheel_moves_the_selection() {
    let mut a = app();
    let _ = mouse(&mut a, MouseAction::ScrollDown, 0, 0);
    assert_eq!(a.selected(), 1);
    let _ = mouse(&mut a, MouseAction::ScrollUp, 0, 0);
    assert_eq!(a.selected(), 0);
    let _ = press(&mut a, 'p');
    let _ = mouse(&mut a, MouseAction::ScrollDown, 0, 0);
    assert_eq!(a.selected(), 0);
    assert_eq!(mouse(&mut a, MouseAction::Other, 0, 0), vec![]);
}

#[test]
fn ticks_sample_the_selected_container() {
    let mut a = app();
    assert_eq!(a.handle_event_at(AppEvent::Tick, NOW), vec![]);
    let _ = press(&mut a, '2');
    assert_eq!(
        a.handle_event_at(AppEvent::Tick, NOW),
        vec![Effect::SampleStats { id: "id-cache".to_string(), image: "redis:7".to_string() }]
    );
    let _ = press(&mut a, 'j');
    assert_eq!(a.handle_event_at(AppEvent::Tick, NOW), vec![]);
    let sample = ContainerStats {
        cpu_percent: "1.5".to_string(),
        cpu_load: 1_500,
        mem_usage: 2_000,
        mem_percent: "3".to_string(),
    };
    let _ = a.handle_event_at(AppEvent::Stats("redis:7".to_string(), sample), NOW);
    assert_eq!(a.stats().get("redis:7").map(|s| s.mem_usage), Some(2_000));
}

#[test]
fn messages_show_in_the_status() {
    let mut a = app();
    let _ = a.handle_event(AppEvent::Message("hello".to_string()));
    assert_eq!(a.status_message(), "hello");
    let _ = a.handle_event(AppEvent::Input(Input::Other));
    let defer = KeyPress { key: Key::Char('d'), control: false, release: false };
    assert_eq!(
        a.handle_event(AppEvent::Input(Input::Key(defer))),
        vec![Effect::SaveState]
    );
    assert!(a.state().is_deferred("redis:7"));
}

#[test]
fn progress_is_folded() {
    let mut s = ApplyState::new("Updating x".to_string());
    assert_eq!(s.steps.len(), 7);
    assert!(s.steps.iter().all(|(_, status)| *status == StepStatus::Pending));
    s.apply(ApplyProgress::Stage(ApplyStage::Pull, StageState::Start));
    assert_eq!(s.steps[1], (ApplyStage::Pull, StepStatus::Running));
    s.apply(ApplyProgress::Stage(ApplyStage::Pull, StageState::Failed("no".to_string())));
    assert_eq!(s.steps[1].1, StepStatus::Failed);
    assert_eq!(s.error, Some("no".to_string()));
    s.apply(ApplyProgress::Stage(ApplyStage::Rollback, StageState::Done));
    assert_eq!(s.rollback, Some(StepStatus::Done));
    s.apply(ApplyProgress::Stage(ApplyStage::Done, StageState::Failed("late".to_string())));
    assert!(s.finished && !s.success);
    assert_eq!(s.error, Some("no".to_string()));
    assert_eq!(step_status(&StageState::Start), StepStatus::Running);
}

#[test]
fn the_log_keeps_its_tail() {
    let mut s = ApplyState::new("x".to_string());
    for i in 0..LOG_LIMIT + 5 {
        s.apply(ApplyProgress::Log(format!("{i}")));
    }
    assert_eq!(s.log.len(), LOG_LIMIT);
    assert_eq!(s.log[0], "5");
    assert_eq!(s.log[LOG_LIMIT - 1], format!("{}", LOG_LIMIT + 4));
}

#[test]
fn scheduled_rounds_report_updates() {
    let mut round = Round::new();
    let web = container("web", "nginx:1", "running");
    assert!(round.note(&web, Some(false)).is_none());
    assert!(round.note(&web, None).is_none());
    assert!(round.report().is_none());
    assert!(matches!(
        round.note(&web, Some(true)),
        Some(AppEvent::UpdateResult(image, info))
            if image == "nginx:1" && info.status == UpdateStatus::UpdateAvailable
    ));
    let _ = round.note(&container("db", "pg:1", "running"), Some(true));
    let report = round.report().unwrap();
    assert_eq!(report.title, "Docker updates available");
    assert_eq!(report.body, "web (nginx:1)\ndb (pg:1)");
    assert_eq!(report.message, "scheduler: 2 update(s) available");
}

#[test]
fn changelog_errors_are_named() {
    assert_eq!(changelog_error("offline"), "changelog error: offline");
}

#[test]
fn rounds_leave_deferred_images_alone() {
    let mut state = State::default();
    let web = container("web", "nginx:1", "running");
    assert!(due(&web, &state, NOW));
    state.defer("nginx:1".to_string(), NOW);
    assert!(!due(&web, &state, NOW));
    let last = Timestamp { secs: NOW.secs + 30 * 86_400 - 1, nanos: 999_999_999 };
    assert!(!due(&web, &state, last));
    let then = Timestamp { secs: NOW.secs + 30 * 86_400, nanos: 0 };
    assert!(due(&web, &state, then));
    assert!(due(&container("db", "pg:1", "running"), &state, NOW));
}

fn names(a: &App) -> Vec<String> {
    a.containers().iter().map(|c| c.name.clone()).collect()
}

#[test]
fn lists_are_sorted_by_a_column() {
    let mut a = app();
    assert_eq!(a.sort(), (SortKey::Listed, false));
    let first = |a: &App| a.images()[0].display_name();
    assert_eq!(first(&a), "redis:7");
    assert_eq!(press(&mut a, 'o'), vec![]);
    assert_eq!(a.sort(), (SortKey::Name, false));
    assert_eq!(first(&a), "nginx:1");
    assert_eq!(press(&mut a, 'O'), vec![]);
    assert_eq!(a.sort(), (SortKey::Name, true));
    assert_eq!(first(&a), "redis:7");
    assert_eq!(names(&a), vec!["web2", "web", "cache"]);
    let _ = a.handle_event_at(AppEvent::Reloaded(data()), NOW);
    assert_eq!(names(&a), vec!["web2", "web", "cache"]);
    let _ = press(&mut a, '2');
    let _ = press(&mut a, 'o');
    assert_eq!(a.sort(), (SortKey::Image, false));
    assert_eq!(names(&a), vec!["web2", "web", "cache"]);
    let _ = press(&mut a, 'o');
    assert_eq!(a.sort(), (SortKey::State, false));
    assert_eq!(names(&a), vec!["web", "web2", "cache"]);
    for key in [SortKey::Cpu, SortKey::Memory, SortKey::Update, SortKey::Name] {
        let _ = press(&mut a, 'o');
        assert_eq!(a.sort(), (key, false));
    }
    let _ = press(&mut a, '3');
    let _ = press(&mut a, 'o');
    assert_eq!(a.sort(), (SortKey::Name, false));
}

#[test]
fn samples_are_compared_by_number() {
    let mut a = app();
    for (image, load, bytes) in [("redis:7", 9_500, 10), ("nginx:1", 10_000, 9)] {
        let sample = ContainerStats {
            cpu_percent: format!("{}.{}", load / 1_000, load % 1_000 / 100),
            cpu_load: load,
            mem_usage: bytes,
            mem_percent: "1".to_string(),
        };
        let _ = a.handle_event_at(AppEvent::Stats(image.to_string(), sample), NOW);
    }
    let _ = press(&mut a, '2');
    a.set_regions(vec![
        region(0, ClickTarget::Header(SortKey::Cpu)),
        region(10, ClickTarget::Header(SortKey::Memory)),
    ]);
    let _ = mouse(&mut a, MouseAction::LeftDown, 0, 0);
    assert_eq!(names(&a), vec!["cache", "web", "web2"]);
    let _ = mouse(&mut a, MouseAction::LeftDown, 10, 0);
    assert_eq!(names(&a), vec!["web", "web2", "cache"]);
}

#[test]
fn texts_are_compared_character_by_character() {
    assert!(comes_before("a", "b"));
    assert!(comes_before("a", "ab"));
    assert!(comes_before("B", "a"));
    assert!(comes_before("z", "é"));
    assert!(!comes_before("ab", "a"));
    assert!(!comes_before("a", "a"));
}

#[test]
fn select_mode_leaves_the_mouse_to_the_terminal() {
    let mut a = app();
    assert_eq!(press(&mut a, 'y'), vec![Effect::CaptureMouse(false)]);
    assert_eq!(press(&mut a, 'y'), vec![Effect::CaptureMouse(true)]);
    a.set_regions(vec![
        region(0, ClickTarget::Action(UiAction::ToggleMouse)),
        region(10, ClickTarget::Action(UiAction::CycleSort)),
    ]);
    assert_eq!(mouse(&mut a, MouseAction::LeftDown, 0, 0), vec![Effect::CaptureMouse(false)]);
    assert_eq!(mouse(&mut a, MouseAction::LeftDown, 10, 0), vec![]);
    assert_eq!(a.sort(), (SortKey::Name, false));
}
