//! What is drawn.

use dockersmith::clock::Timestamp;
use dockersmith::config::{Config, State};
use dockersmith::docker::model::{
    ApplyProgress, ApplyStage, ContainerInfo, DiskUsage, ImageInfo, StageState, UpdateInfo,
    UpdateStatus,
};
use dockersmith::style::{Style, StyledLine};
use dockersmith::tui::app::App;
use dockersmith::tui::layout::{centered_rect, columns, three_rows, two_rows, Constraint};
use dockersmith::tui::screen::{can_draw, draw, draw_in, lay_out, Areas};
use dockersmith::tui::types::{
    AppEvent, ClickTarget, ContainerStats, Input, Key, KeyPress, MouseAction, MouseInput, Rect,
    ReloadData, SortKey, Tab, UiAction,
};
use dockersmith::tui::view::{Bar, BodyView, PopupView, Screen, SpaceBars, TableView};

const NOW: Timestamp = Timestamp { secs: 1_000_000, nanos: 0 };

fn rect(x: u16, y: u16, width: u16, height: u16) -> Rect {
    Rect { x, y, width, height }
}

fn flat(line: &StyledLine) -> String {
    line.spans.iter().map(|s| s.content.as_str()).collect()
}

fn cells(table: &TableView, row: usize) -> Vec<String> {
    table.rows[row].cells.iter().map(flat).collect()
}

fn bars() -> SpaceBars {
    let bar = |filled: usize, percent: &str| Bar { filled, percent: percent.to_string() };
    SpaceBars {
        images: bar(10, " 50"),
        containers: bar(0, "  0"),
        volumes: bar(25, "100"),
        build_cache: bar(0, "  0"),
    }
}

fn areas() -> Areas {
    Areas {
        tabs: rect(0, 0, 120, 3),
        body: rect(0, 3, 120, 19),
        heads: [
            rect(1, 4, 31, 1),
            rect(33, 4, 12, 1),
            rect(46, 4, 11, 1),
            rect(58, 4, 8, 1),
            rect(67, 4, 10, 1),
            rect(78, 4, 41, 1),
        ],
        status: rect(0, 22, 120, 1),
        keys: rect(0, 23, 120, 1),
        space_table: rect(2, 4, 116, 15),
        space_summary: rect(2, 19, 116, 2),
        popup: rect(20, 4, 80, 16),
    }
}

fn app() -> App {
    let mut a = App::new(Config::default(), State::default());
    let data = ReloadData {
        images: vec![
            ImageInfo {
                id: "sha256:r".to_string(),
                repo_tags: vec!["ghcr.io/owner/app:7".to_string()],
                size: 1_000,
                created: 1_700_000_000,
                version: Some("7.2".to_string()),
            },
            ImageInfo {
                id: "sha256:0123456789abcdef".to_string(),
                repo_tags: vec![],
                size: 5,
                created: 0,
                version: None,
            },
        ],
        containers: vec![ContainerInfo {
            id: "id".to_string(),
            name: "web".to_string(),
            image: "ghcr.io/owner/app:7".to_string(),
            state: "running".to_string(),
            status: "Up 2 hours".to_string(),
        }],
        usage: DiskUsage {
            images_total: 4_000,
            images_reclaimable: 2_000,
            images_count: 2,
            ..DiskUsage::default()
        },
    };
    let _ = a.handle_event_at(AppEvent::Reloaded(data), NOW);
    a
}

fn send(a: &mut App, key: Key) {
    let press = KeyPress { key, control: false, release: false };
    let _ = a.handle_event_at(AppEvent::Input(Input::Key(press)), NOW);
}

fn press(a: &mut App, c: char) {
    send(a, Key::Char(c));
}

fn shown(a: &App) -> Screen {
    assert!(can_draw(a, &areas()));
    draw_in(a, &areas(), &bars(), NOW)
}

fn list(s: &Screen) -> &TableView {
    match &s.body {
        BodyView::List { table, .. } => table,
        _ => panic!("no list"),
    }
}

fn popup(s: &Screen) -> &PopupView {
    s.popup.as_ref().unwrap()
}

fn popup_lines(s: &Screen) -> Vec<String> {
    popup(s).lines.iter().map(flat).collect()
}

#[test]
fn tabs_are_drawn_and_clickable() {
    let a = app();
    let s = shown(&a);
    assert_eq!(s.tabs.titles.iter().map(flat).collect::<Vec<_>>(), vec![" Images ", " Containers ", " Space "]);
    assert_eq!(s.tabs.selected, 0);
    assert_eq!(s.tabs.panel.title.content, " DockerSmith ");
    assert_eq!(s.regions[0].rect, rect(1, 1, 8, 1));
    assert_eq!(s.regions[1].rect, rect(12, 1, 12, 1));
    assert_eq!(s.regions[2].rect, rect(27, 1, 7, 1));
    assert_eq!(s.regions[2].target, ClickTarget::Tab(Tab::Space));
}

#[test]
fn images_are_listed() {
    let mut a = app();
    let mut info = UpdateInfo::from_status(UpdateStatus::UpdateAvailable);
    info.current_version = Some("7.2".to_string());
    info.latest_version = Some("7.4".to_string());
    let _ = a.handle_event_at(
        AppEvent::UpdateResult("ghcr.io/owner/app:7".to_string(), info),
        NOW,
    );
    let s = shown(&a);
    let t = list(&s);
    assert_eq!(
        cells(t, 0),
        vec!["owner/app:7", "7.2", "2023-11-14", "ghcr", "1 kB", "7.2 → 7.4"]
    );
    assert_eq!(cells(t, 1)[1], "—");
    assert_eq!(cells(t, 1)[5], "-");
    assert_eq!(t.rows[0].style, Style::marked_of(a.theme().accent));
    assert_eq!(t.rows[1].style, Style::of(a.theme().fg));
    assert_eq!(t.header.cells.iter().map(flat).collect::<Vec<_>>()[0], "NAME");
    assert_eq!(t.widths[0], Constraint::Percentage(26));
    // Two rows, below the border and the header.
    assert_eq!(s.regions[3].rect, rect(1, 5, 118, 1));
    assert_eq!(s.regions[3].target, ClickTarget::Row(0));
    assert_eq!(s.regions[4].target, ClickTarget::Row(1));
    match &s.body {
        BodyView::List { panel, .. } => assert_eq!(panel.title.content, " Images (2) "),
        _ => panic!("no list"),
    }
}

#[test]
fn rows_beyond_the_area_are_not_clickable() {
    let a = app();
    let mut small = areas();
    small.body.height = 4;
    let s = draw_in(&a, &small, &bars(), NOW);
    let rows = s.regions.iter().filter(|r| matches!(r.target, ClickTarget::Row(_))).count();
    assert_eq!(rows, 1);
}

#[test]
fn containers_are_listed() {
    let mut a = app();
    press(&mut a, '2');
    assert_eq!(
        cells(list(&shown(&a)), 0),
        vec!["web", "ghcr.io/owner/app:7", "Up 2 hours", "—", "—", "-"]
    );
    let sample = ContainerStats {
        cpu_percent: "1.5".to_string(),
        cpu_load: 1_500,
        mem_usage: 2_000,
        mem_percent: "3".to_string(),
    };
    let _ = a.handle_event_at(AppEvent::Stats("ghcr.io/owner/app:7".to_string(), sample), NOW);
    let s = shown(&a);
    assert_eq!(cells(list(&s), 0)[3], "1.5");
    assert_eq!(cells(list(&s), 0)[4], "2 kB (3%)");
    assert_eq!(list(&s).rows[0].cells[2].spans[0].style, Style::of(a.theme().ok));
}

#[test]
fn update_column_names_the_status() {
    let column = |info: UpdateInfo| {
        let mut a = app();
        let _ = a.handle_event_at(
            AppEvent::UpdateResult("ghcr.io/owner/app:7".to_string(), info),
            NOW,
        );
        cells(list(&shown(&a)), 0)[5].clone()
    };
    let of = UpdateInfo::from_status;
    assert_eq!(column(of(UpdateStatus::UpdateAvailable)), "UPDATE");
    assert_eq!(column(of(UpdateStatus::UpToDate)), "up to date");
    assert_eq!(column(of(UpdateStatus::Checking)), "checking…");
    assert_eq!(column(of(UpdateStatus::LocalOnly)), "local build");
    assert_eq!(column(of(UpdateStatus::Error("x".to_string()))), "error");
    let mut info = of(UpdateStatus::UpToDate);
    info.latest_version = Some("7.4".to_string());
    assert_eq!(column(info), "up to date (7.4)");
}

#[test]
fn disk_usage_is_shown() {
    let mut a = app();
    press(&mut a, '3');
    let s = shown(&a);
    match &s.body {
        BodyView::Space { table, summary, table_area, .. } => {
            let bar = format!("{}{}  50%", "█".repeat(10), "░".repeat(10));
            assert_eq!(cells(table, 0), vec!["Images", "4 kB", "2 kB", "2", bar.as_str()]);
            assert_eq!(cells(table, 2)[4], format!("{} 100%", "█".repeat(20)));
            assert_eq!(table.spacing, 2);
            assert_eq!(flat(summary), "TOTAL RECLAIMABLE: 2 kB   press p to prune");
            assert_eq!(*table_area, areas().space_table);
        }
        _ => panic!("no disk usage"),
    }
    let mut fresh = App::new(Config::default(), State::default());
    press(&mut fresh, '3');
    match &shown(&fresh).body {
        BodyView::Waiting { area, line, .. } => {
            assert_eq!(*area, rect(2, 4, 116, 17));
            assert_eq!(flat(line), "Loading…");
        }
        _ => panic!("disk usage out of nowhere"),
    }
}

#[test]
fn footer_shows_shortcuts() {
    let a = app();
    let s = shown(&a);
    assert_eq!(flat(&s.footer.status), " ● 2 images · 1 containers");
    assert_eq!(
        flat(&s.footer.keys),
        "q quit · : palette · u check · U all · ⏎ details · w changelog · d defer · p prune · o sort · y select · T theme · "
    );
    let quit = s
        .regions
        .iter()
        .find(|r| r.target == ClickTarget::Action(UiAction::Quit))
        .unwrap();
    assert_eq!(quit.rect, rect(0, 23, 6, 1));
    let palette = s
        .regions
        .iter()
        .find(|r| r.target == ClickTarget::Action(UiAction::OpenPalette))
        .unwrap();
    assert_eq!(palette.rect, rect(9, 23, 9, 1));
}

#[test]
fn footer_ends_where_the_screen_does() {
    let a = app();
    let mut narrow = areas();
    narrow.keys.width = 20;
    let s = draw_in(&a, &narrow, &bars(), NOW);
    assert_eq!(flat(&s.footer.keys), "q quit · : palette · ");
    let actions = s.regions.iter().filter(|r| matches!(r.target, ClickTarget::Action(_))).count();
    assert_eq!(actions, 2);
    let mut space = app();
    press(&mut space, '3');
    assert!(flat(&shown(&space).footer.keys).contains("r refresh"));
    let mut containers = app();
    press(&mut containers, '2');
    assert!(flat(&shown(&containers).footer.keys).contains("s start/stop"));
}

#[test]
fn overlays_cover_the_base() {
    let mut a = app();
    press(&mut a, '?');
    let s = shown(&a);
    assert!(s.regions.is_empty());
    a.set_regions(s.regions);
    let click = MouseInput { action: MouseAction::LeftDown, column: 13, row: 1 };
    let _ = a.handle_event_at(AppEvent::Input(Input::Mouse(click)), NOW);
    assert_eq!(a.tab(), Tab::Images);
    assert!(a.overlay().is_closed());
    let s = shown(&a);
    assert_eq!(s.regions[1].target, ClickTarget::Tab(Tab::Containers));
    press(&mut a, '?');
    let s = shown(&a);
    assert_eq!(popup_lines(&s)[0], "DockerSmith — keys");
    assert_eq!(popup_lines(&s)[1], "");
    assert_eq!(popup_lines(&s).len(), 19);
    assert_eq!(popup_lines(&s)[15], "  o / O        cycle sort column / reverse direction");
    assert_eq!(
        popup_lines(&s)[16],
        "  y            select mode (mouse off, so you can copy text)"
    );
    assert_eq!(popup(&s).panel.title.content, " Help ");
}

#[test]
fn prune_menu_is_clickable() {
    let mut a = app();
    press(&mut a, 'p');
    let s = shown(&a);
    assert_eq!(popup_lines(&s)[0], "Prune — up to 2 kB reclaimable");
    assert_eq!(popup_lines(&s)[2], "  i   dangling images");
    assert_eq!(s.regions[0].rect, rect(21, 7, 78, 1));
    assert_eq!(s.regions[0].target, ClickTarget::Action(UiAction::PruneImages(false)));
    assert_eq!(s.regions[5].rect, rect(21, 12, 78, 1));
    assert_eq!(s.regions[5].target, ClickTarget::Action(UiAction::PruneAll));
    let mut fresh = App::new(Config::default(), State::default());
    press(&mut fresh, 'p');
    assert_eq!(popup_lines(&shown(&fresh))[0], "Prune — up to ? reclaimable");
}

#[test]
fn palette_shows_matches() {
    let mut a = app();
    press(&mut a, ':');
    press(&mut a, 'q');
    let s = shown(&a);
    assert_eq!(popup_lines(&s), vec!["› q▏", "", "  Quit"]);
    assert_eq!(s.regions[0].target, ClickTarget::Action(UiAction::PaletteItem(0)));
    assert_eq!(s.regions[0].rect, rect(21, 7, 78, 1));
    assert_eq!(popup(&s).lines[2].spans[0].style, Style::marked_of(a.theme().accent));
    press(&mut a, 'q');
    assert_eq!(popup_lines(&shown(&a)), vec!["› qq▏", "", "  (no matching commands)"]);
}

#[test]
fn confirmations_ask() {
    let mut a = app();
    press(&mut a, '2');
    press(&mut a, 'x');
    let s = shown(&a);
    assert_eq!(
        popup_lines(&s),
        vec!["Remove container 'web'?", "", "[ Yes ]      [ No ]"]
    );
    assert!(popup(&s).centered);
    assert_eq!(s.regions[0].rect, rect(50, 7, 7, 1));
    assert_eq!(s.regions[0].target, ClickTarget::Action(UiAction::ConfirmYes));
    assert_eq!(s.regions[1].rect, rect(63, 7, 6, 1));
    assert_eq!(s.regions[1].target, ClickTarget::Action(UiAction::ConfirmNo));
    let ask = |keys: &str| {
        let mut a = app();
        press(&mut a, '2');
        for c in keys.chars() {
            press(&mut a, c);
        }
        popup_lines(&shown(&a))[0].clone()
    };
    assert_eq!(ask("pi"), "Prune dangling images?");
    assert_eq!(ask("pI"), "Prune ALL unused images?");
    assert_eq!(ask("pc"), "Prune all stopped containers?");
    assert_eq!(ask("pv"), "Prune all unused volumes?");
    assert_eq!(ask("pb"), "Prune the build cache?");
    assert_eq!(ask("pa"), "Prune EVERYTHING unused?");
    assert_eq!(
        ask("a"),
        "Pull ghcr.io/owner/app:7 and recreate this container?\n(preserves volumes, ports, env, and networks)"
    );
}

#[test]
fn logs_show_from_the_scroll_on() {
    let mut a = app();
    let lines: Vec<String> = (0..40).map(|i| format!("line {i}")).collect();
    let _ = a.handle_event_at(AppEvent::Logs(lines), NOW);
    assert_eq!(popup_lines(&shown(&a)), vec!["line 39"]);
    for _ in 0..36 {
        press(&mut a, 'k');
    }
    let s = shown(&a);
    assert_eq!(popup_lines(&s).len(), 14);
    assert_eq!(popup_lines(&s)[0], "line 3");
    assert_eq!(popup(&s).panel.title.content, " View ");
}

#[test]
fn details_of_an_update() {
    let mut a = app();
    send(&mut a, Key::Enter);
    assert_eq!(
        popup_lines(&shown(&a)),
        vec![
            "ghcr.io/owner/app:7",
            "",
            "Not checked yet — press u to check for updates.",
            "",
            "  u recheck · w changelog · Esc close"
        ]
    );
    let mut info = UpdateInfo::from_status(UpdateStatus::UpdateAvailable);
    info.current_version = Some("7.2".to_string());
    info.latest_version = Some("7.4".to_string());
    info.latest_date = Some("2024-02-02".to_string());
    info.changelog_repo = Some("owner/app".to_string());
    info.checked_at = Some(Timestamp { secs: NOW.secs - 120, nanos: 0 });
    let _ = a.handle_event_at(
        AppEvent::UpdateResult("ghcr.io/owner/app:7".to_string(), info),
        NOW,
    );
    let s = shown(&a);
    assert_eq!(
        popup_lines(&s),
        vec![
            "ghcr.io/owner/app:7",
            "",
            "status    UPDATE AVAILABLE",
            "checked   2m ago",
            "",
            "current   7.2   (—)",
            "latest    7.4   (2024-02-02)",
            "",
            "changelog github.com/owner/app",
            "  press w to fetch release notes",
            "",
            "  u recheck · w changelog · Esc close"
        ]
    );
    assert_eq!(s.regions[0].rect, rect(23, 16, 9, 1));
    assert_eq!(s.regions[1].rect, rect(35, 16, 11, 1));
    assert_eq!(s.regions[2].rect, rect(49, 16, 9, 1));
    assert_eq!(s.regions[2].target, ClickTarget::Action(UiAction::CloseOverlay));
    let failed = UpdateInfo::from_status(UpdateStatus::Error("offline".to_string()));
    let _ = a.handle_event_at(
        AppEvent::UpdateResult("ghcr.io/owner/app:7".to_string(), failed),
        NOW,
    );
    let lines = popup_lines(&shown(&a));
    assert_eq!(lines[2], "status    error: offline");
    assert_eq!(lines[7], "changelog not available for this image");
    let mut b = app();
    press(&mut b, '3');
    send(&mut b, Key::Enter);
    assert_eq!(popup_lines(&shown(&b)), vec!["No image selected."]);
}

#[test]
fn progress_of_an_update() {
    let mut a = app();
    press(&mut a, '2');
    press(&mut a, 'a');
    press(&mut a, 'y');
    let tell = |a: &mut App, p: ApplyProgress| {
        let _ = a.handle_event_at(AppEvent::Apply(p), NOW);
    };
    let lines = popup_lines(&shown(&a));
    assert_eq!(lines[0], "Updating ghcr.io/owner/app:7");
    assert_eq!(lines[2], "  ○  Inspect container");
    assert_eq!(lines[lines.len() - 1], "working…");
    for i in 0..10 {
        tell(&mut a, ApplyProgress::Log(format!("layer {i}")));
    }
    tell(&mut a, ApplyProgress::Stage(ApplyStage::Inspect, StageState::Done));
    tell(&mut a, ApplyProgress::Stage(ApplyStage::Pull, StageState::Start));
    let lines = popup_lines(&shown(&a));
    assert_eq!(lines[2], "  ✔  Inspect container");
    assert_eq!(lines[3], "  ◐  Pull new image");
    assert_eq!(lines[10], "recent output");
    assert_eq!(lines[11], "  layer 2");
    assert_eq!(lines[18], "  layer 9");
    tell(
        &mut a,
        ApplyProgress::Stage(ApplyStage::Start, StageState::Failed("bad\nport".to_string())),
    );
    tell(&mut a, ApplyProgress::Stage(ApplyStage::Rollback, StageState::Done));
    tell(
        &mut a,
        ApplyProgress::Stage(ApplyStage::Done, StageState::Failed("bad".to_string())),
    );
    let lines = popup_lines(&shown(&a));
    assert_eq!(lines[7], "  ✖  Start new container");
    assert_eq!(lines[9], "  ✔  Roll back to previous container");
    assert_eq!(lines[11], "ERROR");
    assert_eq!(lines[12], "  bad");
    assert_eq!(lines[13], "  port");
    assert_eq!(
        lines[lines.len() - 1],
        "✖ update failed — previous container restored — press Esc to close"
    );
    let mut b = app();
    press(&mut b, '2');
    press(&mut b, 'a');
    press(&mut b, 'y');
    tell(&mut b, ApplyProgress::Stage(ApplyStage::Done, StageState::Done));
    let lines = popup_lines(&shown(&b));
    assert_eq!(lines[lines.len() - 1], "✔ update complete — press Esc to close");
}

#[test]
fn screens_are_divided() {
    let a = app();
    let screen = rect(0, 0, 80, 24);
    let parts = lay_out(&a, screen);
    assert_eq!(parts.tabs, rect(0, 0, 80, 3));
    assert_eq!(parts.body, rect(0, 3, 80, 19));
    assert_eq!(parts.status, rect(0, 22, 80, 1));
    assert_eq!(parts.keys, rect(0, 23, 80, 1));
    let rows = three_rows(
        rect(5, 5, 10, 10),
        Constraint::Length(2),
        Constraint::Min(1),
        Constraint::Percentage(50),
    );
    assert_eq!((rows.0.x, rows.0.width), (5, 10));
    let center = centered_rect(50, 50, rect(0, 0, 100, 40));
    assert_eq!(center, rect(25, 10, 50, 20));
}

#[test]
fn screens_at_the_edge_are_not_drawn() {
    let a = app();
    assert!(draw(&a, rect(0, 0, 80, 24), &bars(), NOW).is_some());
    assert!(draw(&a, rect(65_500, 0, 35, 24), &bars(), NOW).is_none());
    let mut big = app();
    let data = ReloadData {
        images: Vec::new(),
        containers: Vec::new(),
        usage: DiskUsage {
            images_reclaimable: i64::MAX,
            volumes_reclaimable: 1,
            ..DiskUsage::default()
        },
    };
    let _ = big.handle_event_at(AppEvent::Reloaded(data), NOW);
    assert!(draw(&big, rect(0, 0, 80, 24), &bars(), NOW).is_some());
    press(&mut big, '3');
    assert!(draw(&big, rect(0, 0, 80, 24), &bars(), NOW).is_none());
    assert!(!can_draw(&big, &areas()));
}

fn nearest(hundredths: u32) -> u16 {
    ((hundredths + 50) / 100) as u16
}

#[test]
fn centered_rects_go_to_the_nearest_cell() {
    assert_eq!(centered_rect(64, 60, rect(0, 0, 80, 24)), rect(14, 5, 52, 14));
    assert_eq!(centered_rect(56, 22, rect(3, 2, 81, 25)), rect(21, 12, 45, 5));
    assert_eq!(centered_rect(0, 100, rect(7, 9, 10, 10)), rect(12, 9, 0, 10));
    let sizes: [u16; 6] = [0, 1, 25, 80, 237, 65_035];
    for percent in 0..=100u16 {
        let margin = (100 - percent) / 2;
        for size in sizes.iter().copied() {
            let at = nearest(margin as u32 * size as u32);
            let end = nearest((margin + percent) as u32 * size as u32);
            let wide = centered_rect(percent, 100, rect(500, 4, size, 9));
            assert_eq!(wide, rect(500 + at, 4, end - at, 9));
            let high = centered_rect(100, percent, rect(4, 500, 9, size));
            assert_eq!(high, rect(4, 500 + at, 9, end - at));
        }
    }
}

#[test]
fn parts_that_fit_get_what_they_ask_for() {
    for height in (0..=70u16).step_by(7) {
        let area = rect(5, 11, 10, height);
        for length in (0..=12u16).step_by(4) {
            for percent in (0..=100u16).step_by(9) {
                let share = percent as u32 * height as u32;
                if (length + 1) as u32 * 100 + share > height as u32 * 100 {
                    continue;
                }
                let rows = three_rows(
                    area,
                    Constraint::Length(length),
                    Constraint::Min(1),
                    Constraint::Percentage(percent),
                );
                let cut = nearest(height as u32 * 100 - share);
                assert_eq!(rows.0, rect(5, 11, 10, length));
                assert_eq!(rows.1, rect(5, 11 + length, 10, cut - length));
                assert_eq!(rows.2, rect(5, 11 + cut, 10, height - cut));
                let two =
                    two_rows(area, Constraint::Percentage(percent), Constraint::Length(length));
                let cut = nearest(share);
                let end = nearest(share + length as u32 * 100);
                assert_eq!(two.0, rect(5, 11, 10, cut));
                assert_eq!(two.1, rect(5, 11 + cut, 10, end - cut));
            }
        }
    }
}

#[test]
fn minimum_comes_before_length() {
    for height in 0..=5u16 {
        for least in 0..=7u16 {
            for length in 0..=7u16 {
                let rows = two_rows(
                    rect(1, 2, 3, height),
                    Constraint::Min(least),
                    Constraint::Length(length),
                );
                let cut = height.saturating_sub(length).max(least.min(height));
                assert_eq!(rows.0, rect(1, 2, 3, cut));
                assert_eq!(rows.1, rect(1, 2 + cut, 3, height - cut));
            }
        }
    }
}

#[test]
fn disk_usage_keeps_two_rows_for_its_summary() {
    let mut a = app();
    press(&mut a, '3');
    let parts = lay_out(&a, rect(0, 0, 80, 24));
    assert_eq!(parts.body, rect(0, 3, 80, 19));
    assert_eq!(parts.space_table, rect(2, 4, 76, 15));
    assert_eq!(parts.space_summary, rect(2, 19, 76, 2));
    assert_eq!(parts.popup, rect(0, 0, 0, 0));
    let low = lay_out(&a, rect(0, 0, 80, 9));
    assert_eq!(low.space_table, rect(2, 4, 76, 1));
    assert_eq!(low.space_summary, rect(2, 5, 76, 1));
    press(&mut a, '1');
    press(&mut a, '?');
    let help = lay_out(&a, rect(0, 0, 80, 24));
    assert_eq!(help.space_table, rect(0, 0, 0, 0));
    assert_eq!(help.popup, rect(14, 5, 52, 14));
}

#[test]
fn drawn_screens_are_laid_out_from_top_to_bottom() {
    let mut a = app();
    let s = draw(&a, rect(0, 0, 80, 24), &bars(), NOW).unwrap();
    assert_eq!(s.tabs.panel.area, rect(0, 0, 80, 3));
    assert!(s.popup.is_none());
    press(&mut a, '?');
    let s = draw(&a, rect(0, 0, 80, 24), &bars(), NOW).unwrap();
    assert_eq!(popup(&s).panel.area, rect(14, 5, 52, 14));
}

#[test]
fn overlays_need_room_for_what_they_record() {
    let mut a = app();
    press(&mut a, ':');
    let mut at = areas();
    at.popup = rect(0, u16::MAX - 12, 80, 12);
    assert!(can_draw(&a, &at));
    at.popup = rect(0, u16::MAX - 11, 80, 11);
    assert!(!can_draw(&a, &at));
    press(&mut a, 'q');
    at.popup = rect(0, u16::MAX - 3, 80, 3);
    assert!(can_draw(&a, &at));
    assert_eq!(draw_in(&a, &at, &bars(), NOW).regions[0].rect.y, u16::MAX);
    at.popup = rect(u16::MAX, 0, 0, 3);
    assert!(!can_draw(&a, &at));
    press(&mut a, 'q');
    assert!(can_draw(&a, &at));
    let mut b = app();
    send(&mut b, Key::Enter);
    at.popup = rect(u16::MAX - 29, u16::MAX - 5, 29, 5);
    assert!(can_draw(&b, &at));
    assert_eq!(draw_in(&b, &at, &bars(), NOW).regions[2].rect.y, u16::MAX);
    at.popup = rect(0, u16::MAX - 4, 29, 4);
    assert!(!can_draw(&b, &at));
    send(&mut b, Key::Esc);
    press(&mut b, '3');
    send(&mut b, Key::Enter);
    assert!(can_draw(&b, &at));
}

#[test]
fn column_headers_show_the_sort_and_are_clickable() {
    let mut a = app();
    let heads = |s: &Screen| list(s).header.cells.iter().map(flat).collect::<Vec<String>>();
    let s = shown(&a);
    assert_eq!(heads(&s), vec!["NAME", "VERSION", "BUILT", "SOURCE", "SIZE", "UPDATE"]);
    assert_eq!(s.regions[5].target, ClickTarget::Header(SortKey::Name));
    assert_eq!(s.regions[5].rect, rect(1, 4, 31, 1));
    assert_eq!(s.regions[10].target, ClickTarget::Header(SortKey::Update));
    let size = s.regions[9];
    assert_eq!(size.target, ClickTarget::Header(SortKey::Size));
    a.set_regions(s.regions);
    let click = MouseInput {
        action: MouseAction::LeftDown,
        column: size.rect.x,
        row: size.rect.y,
    };
    let _ = a.handle_event_at(AppEvent::Input(Input::Mouse(click)), NOW);
    assert_eq!(a.sort(), (SortKey::Size, false));
    let s = shown(&a);
    assert_eq!(heads(&s), vec!["NAME", "VERSION", "BUILT", "SOURCE", "SIZE ↑", "UPDATE"]);
    assert_eq!(list(&s).header.cells[4].spans[0].style, Style::bold_of(a.theme().accent));
    assert_eq!(list(&s).header.cells[0].spans[0].style, Style::bold_of(a.theme().secondary));
    assert_eq!(cells(list(&s), 0)[4], "5 B");
    press(&mut a, 'O');
    let s = shown(&a);
    assert_eq!(heads(&s)[4], "SIZE ↓");
    assert_eq!(cells(list(&s), 0)[4], "1 kB");
    press(&mut a, '2');
    assert_eq!(heads(&shown(&a)), vec!["NAME", "IMAGE", "STATE", "CPU%", "MEM", "UPDATE"]);
}

#[test]
fn column_headers_stand_over_their_columns() {
    let mut a = app();
    assert_eq!(lay_out(&a, rect(0, 0, 120, 24)).heads, areas().heads);
    let narrow = lay_out(&a, rect(0, 0, 80, 24)).heads;
    assert_eq!(narrow[0], rect(1, 4, 16, 1));
    assert_eq!(narrow[1], rect(18, 4, 12, 1));
    assert_eq!(narrow[5], rect(63, 4, 16, 1));
    press(&mut a, '2');
    let wide = lay_out(&a, rect(10, 0, 202, 24)).heads;
    assert_eq!(wide[0], rect(11, 4, 40, 1));
    assert_eq!(wide[1], rect(52, 4, 52, 1));
    assert_eq!(wide[5], rect(142, 4, 69, 1));
    press(&mut a, '3');
    assert_eq!(lay_out(&a, rect(0, 0, 80, 24)).heads, [rect(0, 0, 0, 0); 6]);
}

#[test]
fn low_screens_are_filled_from_top_to_bottom() {
    let a = app();
    for height in 0..=6u16 {
        let parts = lay_out(&a, rect(3, 7, 80, height));
        assert_eq!(parts.tabs.y, 7);
        assert_eq!(parts.body.y, parts.tabs.y + parts.tabs.height);
        assert_eq!(parts.status.y, parts.body.y + parts.body.height);
        assert_eq!(parts.keys.y, parts.status.y + parts.status.height);
        assert_eq!(parts.keys.y + parts.keys.height, 7 + height);
        assert_eq!(parts.body.height, height.min(1));
        assert!(parts.tabs.height <= 3 && parts.status.height <= 1 && parts.keys.height <= 1);
    }
}

#[test]
fn percentage_makes_do_with_the_rest() {
    let parts = columns(
        rect(0, 0, 20, 1),
        &vec![Constraint::Percentage(50), Constraint::Length(6), Constraint::Min(5)],
        2,
    );
    assert_eq!(parts, vec![rect(0, 0, 5, 1), rect(7, 0, 6, 1), rect(15, 0, 5, 1)]);
    let roomy = columns(
        rect(0, 0, 50, 1),
        &vec![Constraint::Percentage(50), Constraint::Length(6), Constraint::Min(5)],
        2,
    );
    assert_eq!(roomy, vec![rect(0, 0, 25, 1), rect(27, 0, 6, 1), rect(35, 0, 15, 1)]);
}
