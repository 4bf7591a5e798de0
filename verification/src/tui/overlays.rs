//! Rendering of the overlays. Pure functions over [`App`] state.

use vstd::prelude::*;
use crate::clock;
use crate::clock::{date_or_dash, format_relative, Timestamp};
use crate::docker::model::{ApplyStage, StatusModel, UpdateInfo, UpdateModel, UpdateStatus};
use crate::style;
use crate::style::{push_line, span, span_str, Color, Span, SpanModel, Style, StyledLine};
use crate::text;
use crate::text::{cat2, cat3, copy_option, lines_of, pad_right};
use crate::theme::{Theme, ThemeModel};
use crate::tui::app::App;
use crate::tui::model::AppModel;
use crate::tui::progress;
use crate::tui::progress::{ApplyModel, ApplyState, StepStatus};
use crate::tui::types;
use crate::tui::types::{
    ClickRegion, ClickTarget, ConfirmAction, ConfirmModel, PaletteAction, Rect, UiAction,
};
use crate::tui::ui;
use crate::tui::ui::{inside, push_region};
use crate::tui::view::{overlay_block, PanelModel, PopupModel, PopupView, Wrapping};
use crate::util;
use crate::util::format_bytes;

verus! {

/// Puts a line of one piece at the end.
fn push_text(lines: &mut Vec<StyledLine>, content: String, look: Style)
    ensures
        final(lines).deep_view() == old(lines).deep_view().push(style::line1(content@, look)),
{
    push_line(lines, StyledLine::one(content, look));
}

/// Puts a blank line at the end.
fn push_blank(lines: &mut Vec<StyledLine>)
    ensures
        final(lines).deep_view() == old(lines).deep_view().push(Seq::empty()),
{
    push_line(lines, StyledLine::empty());
}

// ── Help ───────────────────────────────────────────────────────────────────

/// What the help says of the keys.
pub open spec fn help_texts() -> Seq<Seq<char>> {
    seq![
        "  ⇥ / 1-3      switch tab (Images · Containers · Space)"@,
        "  ↑↓ / j k     move selection"@,
        "  r            refresh"@,
        "  u / U        check update (selected / all)"@,
        "  ⏎            update details (versions, dates, changelog)"@,
        "  a            apply update — pull + recreate container"@,
        "  s            start/stop container"@,
        "  R            restart container"@,
        "  L            view container logs"@,
        "  w            view changelog (What's new?)"@,
        "  x            remove container"@,
        "  d            defer update 30 days"@,
        "  p            prune menu"@,
        "  o / O        cycle sort column / reverse direction"@,
        "  y            select mode (mouse off, so you can copy text)"@,
        "  T            cycle theme"@,
        "  q / Esc      quit / close overlay"@,
    ]
}

/// The help.
pub open spec fn help_view(app: AppModel, area: Rect) -> PopupModel {
    PopupModel {
        panel: PanelModel::overlay(app.theme, " Help "@, area),
        lines: seq![
            style::line1("DockerSmith — keys"@, style::strong(app.theme.accent)),
            Seq::empty(),
        ] + help_texts().map_values(|t: Seq<char>| style::raw(t)),
        wrapping: Wrapping::Trim,
        centered: false,
    }
}

/// Draws the help.
pub fn draw_help(app: &App, area: Rect) -> (r: PopupView)
    ensures
        r@ == help_view(app@, area),
{
    let theme = app.theme();
    let lines = vec![
        StyledLine::one_str("DockerSmith — keys", Style::bold_of(theme.accent)),
        StyledLine::empty(),
        StyledLine::plain("  ⇥ / 1-3      switch tab (Images · Containers · Space)"),
        StyledLine::plain("  ↑↓ / j k     move selection"),
        StyledLine::plain("  r            refresh"),
        StyledLine::plain("  u / U        check update (selected / all)"),
        StyledLine::plain("  ⏎            update details (versions, dates, changelog)"),
        StyledLine::plain("  a            apply update — pull + recreate container"),
        StyledLine::plain("  s            start/stop container"),
        StyledLine::plain("  R            restart container"),
        StyledLine::plain("  L            view container logs"),
        StyledLine::plain("  w            view changelog (What's new?)"),
        StyledLine::plain("  x            remove container"),
        StyledLine::plain("  d            defer update 30 days"),
        StyledLine::plain("  p            prune menu"),
        StyledLine::plain("  o / O        cycle sort column / reverse direction"),
        StyledLine::plain("  y            select mode (mouse off, so you can copy text)"),
        StyledLine::plain("  T            cycle theme"),
        StyledLine::plain("  q / Esc      quit / close overlay"),
    ];
    assert(lines.deep_view() =~= help_view(app@, area).lines);
    PopupView {
        panel: overlay_block(theme, " Help ", area),
        lines,
        wrapping: Wrapping::Trim,
        centered: false,
    }
}

// ── Prune menu ─────────────────────────────────────────────────────────────

/// The options of the prune menu, in display order.
pub open spec fn prune_options() -> Seq<(Seq<char>, UiAction)> {
    seq![
        ("  i   dangling images"@, UiAction::PruneImages(false)),
        ("  I   ALL unused images"@, UiAction::PruneImages(true)),
        ("  c   stopped containers"@, UiAction::PruneContainers),
        ("  v   unused volumes"@, UiAction::PruneVolumes),
        ("  b   build cache"@, UiAction::PruneBuildCache),
        ("  a   everything unused"@, UiAction::PruneAll),
    ]
}

/// What pruning could reclaim, or `?` while that is unknown.
pub open spec fn reclaimable_text(app: AppModel) -> Seq<char> {
    match app.usage {
        Some(u) => util::bytes_text(u.reclaimable_sum() as i64),
        None => "?"@,
    }
}

/// The prune menu.
pub open spec fn prune_view(app: AppModel, area: Rect) -> PopupModel {
    PopupModel {
        panel: PanelModel::overlay(app.theme, " Prune "@, area),
        lines: seq![
            style::line1(
                "Prune — up to "@ + reclaimable_text(app) + " reclaimable"@,
                style::strong(app.theme.warn),
            ),
            Seq::empty(),
        ] + prune_options().map_values(|o: (Seq<char>, UiAction)| style::raw(o.0)) + seq![
            Seq::empty(),
            style::line1("  Esc  cancel"@, style::colored(app.theme.dim)),
        ],
        wrapping: Wrapping::Cut,
        centered: false,
    }
}

/// The regions of the prune menu. Options begin after the title and a blank line, inside the
/// top border.
pub open spec fn prune_regions(area: Rect) -> Seq<ClickRegion> {
    ui::menu_regions(
        area,
        area.y + 3,
        prune_options().map_values(|o: (Seq<char>, UiAction)| ClickTarget::Action(o.1)),
    )
}

/// Whether the prune menu can be drawn.
pub open spec fn prune_fits(app: AppModel, area: Rect) -> bool {
    &&& area.x < u16::MAX
    &&& area.y + 8 <= u16::MAX
    &&& app.usage matches Some(u) ==> u.sums_fit()
}

/// Draws the prune menu.
pub fn draw_prune_menu(app: &App, area: Rect, regions: &mut Vec<ClickRegion>) -> (r: PopupView)
    requires
        prune_fits(app@, area),
    ensures
        r@ == prune_view(app@, area),
        final(regions)@ == old(regions)@ + prune_regions(area),
{
    let theme = app.theme();
    let reclaimable = match app.usage() {
        Some(u) => format_bytes(u.total_reclaimable()),
        None => "?".to_string(),
    };
    let title = cat3("Prune — up to ", reclaimable.as_str(), " reclaimable");
    let lines = vec![
        StyledLine::one(title, Style::bold_of(theme.warn)),
        StyledLine::empty(),
        StyledLine::plain("  i   dangling images"),
        StyledLine::plain("  I   ALL unused images"),
        StyledLine::plain("  c   stopped containers"),
        StyledLine::plain("  v   unused volumes"),
        StyledLine::plain("  b   build cache"),
        StyledLine::plain("  a   everything unused"),
        StyledLine::empty(),
        StyledLine::one_str("  Esc  cancel", Style::of(theme.dim)),
    ];
    assert(lines.deep_view() =~= prune_view(app@, area).lines);
    let ghost before = regions@;
    let x = area.x + 1;
    let y = area.y + 3;
    let width = inside(area);
    push_region(regions, x, y, width, ClickTarget::Action(UiAction::PruneImages(false)));
    push_region(regions, x, y + 1, width, ClickTarget::Action(UiAction::PruneImages(true)));
    push_region(regions, x, y + 2, width, ClickTarget::Action(UiAction::PruneContainers));
    push_region(regions, x, y + 3, width, ClickTarget::Action(UiAction::PruneVolumes));
    push_region(regions, x, y + 4, width, ClickTarget::Action(UiAction::PruneBuildCache));
    push_region(regions, x, y + 5, width, ClickTarget::Action(UiAction::PruneAll));
    assert(regions@ =~= before + prune_regions(area));
    PopupView {
        panel: overlay_block(theme, " Prune ", area),
        lines,
        wrapping: Wrapping::Cut,
        centered: false,
    }
}

// ── Command palette ────────────────────────────────────────────────────────

/// The matches of the palette as lines.
pub open spec fn match_lines(
    theme: ThemeModel,
    matches: Seq<(Seq<char>, PaletteAction)>,
    selected: usize,
) -> Seq<Seq<SpanModel>> {
    Seq::new(
        matches.len(),
        |i: int| style::line1("  "@ + matches[i].0, ui::row_look(theme, i == selected)),
    )
}

/// The palette: the query with a cursor, a blank line, and the matches.
pub open spec fn palette_view(
    app: AppModel,
    matches: Seq<(Seq<char>, PaletteAction)>,
    area: Rect,
) -> PopupModel {
    let query = seq![
        style::piece("› "@, style::colored(app.theme.accent)),
        style::piece(app.palette_query, style::strong(app.theme.fg)),
        style::piece("▏"@, style::colored(app.theme.accent)),
    ];
    let list = if matches.len() == 0 {
        seq![style::line1("  (no matching commands)"@, style::colored(app.theme.dim))]
    } else {
        match_lines(app.theme, matches, app.palette_index)
    };
    PopupModel {
        panel: PanelModel::overlay(app.theme, " Command palette "@, area),
        lines: seq![query, Seq::empty()] + list,
        wrapping: Wrapping::Cut,
        centered: false,
    }
}

/// The regions of `count` matches. The list starts after the query line and a blank line,
/// inside the top border.
pub open spec fn palette_regions(area: Rect, count: nat) -> Seq<ClickRegion> {
    ui::menu_regions(
        area,
        area.y + 3,
        Seq::new(count, |i: int| ClickTarget::Action(UiAction::PaletteItem(i as usize))),
    )
}

/// Whether the regions of `count` matches have coordinates.
pub open spec fn palette_fits(count: nat, area: Rect) -> bool {
    &&& area.y + 3 <= u16::MAX
    &&& count > 0 ==> area.x < u16::MAX && area.y + 3 + (count - 1) <= u16::MAX
}

/// Whether the palette can be drawn.
pub fn can_draw_palette(app: &App, area: Rect) -> (r: bool)
    ensures
        r == palette_fits(app@.palette_matches().len(), area),
{
    let matches = app.palette_matches();
    assert(matches@.len() == types::listed(matches@).len());
    if area.y > u16::MAX - 3 {
        return false;
    }
    let room: u16 = u16::MAX - 3 - area.y;
    matches.len() == 0 || (area.x < u16::MAX && matches.len() - 1 <= room as usize)
}

/// Draws the palette with these matches.
pub fn draw_matches(
    app: &App,
    matches: &Vec<(&'static str, PaletteAction)>,
    area: Rect,
    regions: &mut Vec<ClickRegion>,
) -> (r: PopupView)
    requires
        palette_fits(matches@.len(), area),
    ensures
        r@ == palette_view(app@, types::listed(matches@), area),
        final(regions)@ == old(regions)@ + palette_regions(area, matches@.len()),
{
    let theme = app.theme();
    let ghost before = regions@;
    let ghost all = palette_regions(area, matches@.len());
    let ghost listed = types::listed(matches@);
    let ghost shown = match_lines(theme@, listed, app@.palette_index);
    let query = StyledLine::three(
        span_str("› ", Style::of(theme.accent)),
        span_str(app.palette_query(), Style::bold_of(theme.fg)),
        span_str("▏", Style::of(theme.accent)),
    );
    let mut lines = vec![query, StyledLine::empty()];
    let ghost head = lines.deep_view();
    assert(head =~= seq![query@, Seq::empty()]);
    let width = inside(area);
    let selected = app.palette_index();
    let mut i: usize = 0;
    assert(lines.deep_view() =~= head + shown.take(0));
    assert(regions@ =~= before + all.take(0));
    while i < matches.len()
        invariant
            theme@ == app@.theme,
            selected == app@.palette_index,
            listed == types::listed(matches@),
            shown == match_lines(theme@, listed, selected),
            all == palette_regions(area, matches@.len()),
            width == ui::inner_width(area),
            palette_fits(matches@.len(), area),
            i <= matches@.len(),
            lines.deep_view() == head + shown.take(i as int),
            regions@ == before + all.take(i as int),
        decreases matches@.len() - i,
    {
        let label = matches[i].0;
        let look = if i == selected { Style::marked_of(theme.accent) } else {
            Style::of(theme.fg)
        };
        assert(listed[i as int].0 == label@);
        push_line(&mut lines, StyledLine::one(cat2("  ", label), look));
        assert(shown[i as int] == style::line1("  "@ + label@, look));
        assert(lines.deep_view() =~= head + shown.take(i + 1));
        let y: u16 = area.y + 3 + i as u16;
        push_region(
            regions,
            area.x + 1,
            y,
            width,
            ClickTarget::Action(UiAction::PaletteItem(i)),
        );
        assert(all[i as int] == ui::stretch(
            area.x + 1,
            y as int,
            width as int,
            ClickTarget::Action(UiAction::PaletteItem(i)),
        ));
        assert(regions@ =~= before + all.take(i + 1));
        i = i + 1;
    }
    assert(all.take(matches@.len() as int) =~= all);
    assert(shown.take(matches@.len() as int) =~= shown);
    if matches.len() == 0 {
        push_text(&mut lines, "  (no matching commands)".to_string(), Style::of(theme.dim));
    }
    assert(lines.deep_view() =~= palette_view(app@, listed, area).lines);
    PopupView {
        panel: overlay_block(theme, " Command palette ", area),
        lines,
        wrapping: Wrapping::Cut,
        centered: false,
    }
}

/// Draws the palette.
pub fn draw_palette(app: &App, area: Rect, regions: &mut Vec<ClickRegion>) -> (r: PopupView)
    requires
        palette_fits(app@.palette_matches().len(), area),
    ensures
        r@ == palette_view(app@, app@.palette_matches(), area),
        final(regions)@ == old(regions)@ + palette_regions(area, app@.palette_matches().len()),
{
    let matches = app.palette_matches();
    assert(matches@.len() == types::listed(matches@).len());
    draw_matches(app, &matches, area, regions)
}

// ── Confirmation ───────────────────────────────────────────────────────────

/// What a confirmation asks.
pub open spec fn question(action: ConfirmModel) -> Seq<char> {
    match action {
        ConfirmModel::RemoveContainer(_, name) => "Remove container '"@ + name + "'?"@,
        ConfirmModel::PruneImages(all) => if all {
            "Prune ALL unused images?"@
        } else {
            "Prune dangling images?"@
        },
        ConfirmModel::PruneContainers => "Prune all stopped containers?"@,
        ConfirmModel::PruneVolumes => "Prune all unused volumes?"@,
        ConfirmModel::PruneBuildCache => "Prune the build cache?"@,
        ConfirmModel::PruneAll => "Prune EVERYTHING unused?"@,
        ConfirmModel::ApplyUpdate(_, image) => "Pull "@ + image
            + " and recreate this container?\n(preserves volumes, ports, env, and networks)"@,
    }
}

/// What a confirmation asks.
pub fn describe(action: &ConfirmAction) -> (r: String)
    ensures
        r@ == question(action@),
{
    match action {
        ConfirmAction::RemoveContainer(_, name) => cat3(
            "Remove container '",
            name.as_str(),
            "'?",
        ),
        ConfirmAction::PruneImages(all) => {
            if *all {
                "Prune ALL unused images?".to_string()
            } else {
                "Prune dangling images?".to_string()
            }
        },
        ConfirmAction::PruneContainers => "Prune all stopped containers?".to_string(),
        ConfirmAction::PruneVolumes => "Prune all unused volumes?".to_string(),
        ConfirmAction::PruneBuildCache => "Prune the build cache?".to_string(),
        ConfirmAction::PruneAll => "Prune EVERYTHING unused?".to_string(),
        ConfirmAction::ApplyUpdate(_, image) => cat3(
            "Pull ",
            image.as_str(),
            " and recreate this container?\n(preserves volumes, ports, env, and networks)",
        ),
    }
}

/// The confirmation: the question, a blank line, and the two buttons.
pub open spec fn confirm_view(app: AppModel, action: ConfirmModel, area: Rect) -> PopupModel {
    PopupModel {
        panel: PanelModel::overlay(app.theme, " Confirm "@, area),
        lines: seq![
            style::line1(question(action), style::strong(app.theme.fg)),
            Seq::empty(),
            seq![
                style::piece("[ Yes ]"@, style::strong(app.theme.ok)),
                style::piece("      "@, style::unstyled()),
                style::piece("[ No ]"@, style::strong(app.theme.err)),
            ],
        ],
        wrapping: Wrapping::Cut,
        centered: true,
    }
}

/// The column in the middle of an area.
pub open spec fn middle(area: Rect) -> int {
    area.x + area.width / 2
}

/// The regions of the Yes/No buttons on the centered button row (3rd content line).
pub open spec fn confirm_regions(area: Rect) -> Seq<ClickRegion> {
    let left = if middle(area) < 10 { 0 } else { middle(area) - 10 };
    seq![
        ui::stretch(left, area.y + 3, 7, ClickTarget::Action(UiAction::ConfirmYes)),
        ui::stretch(middle(area) + 3, area.y + 3, 6, ClickTarget::Action(UiAction::ConfirmNo)),
    ]
}

/// Whether the buttons of a confirmation have coordinates.
pub open spec fn confirm_fits(area: Rect) -> bool {
    area.y + 3 <= u16::MAX && middle(area) + 3 <= u16::MAX
}

/// Draws the confirmation.
pub fn draw_confirm(
    app: &App,
    action: &ConfirmAction,
    area: Rect,
    regions: &mut Vec<ClickRegion>,
) -> (r: PopupView)
    requires
        confirm_fits(area),
    ensures
        r@ == confirm_view(app@, action@, area),
        final(regions)@ == old(regions)@ + confirm_regions(area),
{
    let theme = app.theme();
    let buttons = StyledLine::three(
        span_str("[ Yes ]", Style::bold_of(theme.ok)),
        span_str("      ", Style::plain()),
        span_str("[ No ]", Style::bold_of(theme.err)),
    );
    let lines = vec![
        StyledLine::one(describe(action), Style::bold_of(theme.fg)),
        StyledLine::empty(),
        buttons,
    ];
    assert(lines.deep_view() =~= confirm_view(app@, action@, area).lines);
    let ghost before = regions@;
    let y = area.y + 3;
    let center = area.x + area.width / 2;
    let left: u16 = if center < 10 { 0 } else { center - 10 };
    push_region(regions, left, y, 7, ClickTarget::Action(UiAction::ConfirmYes));
    push_region(regions, center + 3, y, 6, ClickTarget::Action(UiAction::ConfirmNo));
    assert(regions@ =~= before + confirm_regions(area));
    PopupView {
        panel: overlay_block(theme, " Confirm ", area),
        lines,
        wrapping: Wrapping::Cut,
        centered: true,
    }
}

// ── Logs and changelog ─────────────────────────────────────────────────────

/// The lines of `view` that show, `start` being the first and `room` how many there is room
/// for.
pub open spec fn window(view: Seq<Seq<SpanModel>>, start: nat, room: nat) -> Seq<Seq<SpanModel>> {
    if start >= view.len() {
        Seq::empty()
    } else if view.len() - start <= room {
        view.skip(start as int)
    } else {
        view.subrange(start as int, (start + room) as int)
    }
}

/// A copy of a line.
fn copy_line(line: &StyledLine) -> (r: StyledLine)
    ensures
        r@ == line@,
{
    let mut spans: Vec<Span> = Vec::new();
    let mut i: usize = 0;
    while i < line.spans.len()
        invariant
            i <= line.spans@.len(),
            spans@.len() == i,
            forall|j: int| 0 <= j < i ==> (#[trigger] spans@[j])@ == line.spans@[j]@,
        decreases line.spans@.len() - i,
    {
        spans.push(Span { content: line.spans[i].content.clone(), style: line.spans[i].style });
        i = i + 1;
    }
    let r = StyledLine { spans };
    assert(r@ =~= line@);
    r
}

/// A copy of the lines that show.
fn copy_window(view: &Vec<StyledLine>, start: usize, room: usize) -> (r: Vec<StyledLine>)
    ensures
        r.deep_view() == window(view.deep_view(), start as nat, room as nat),
{
    let n = view.len();
    let mut r: Vec<StyledLine> = Vec::new();
    let mut i: usize = start;
    while i < n && i - start < room
        invariant
            n == view@.len(),
            start <= i,
            start <= n ==> i <= n,
            n < start ==> i == start,
            i - start <= room,
            r@.len() == i - start,
            forall|j: int|
                0 <= j < i - start ==> (#[trigger] r@[j])@ == view@[start + j]@,
        decreases n - i,
    {
        r.push(copy_line(&view[i]));
        i = i + 1;
    }
    assert(r.deep_view() =~= window(view.deep_view(), start as nat, room as nat));
    r
}

/// The first line of a log or changelog that shows.
pub open spec fn first_shown(app: AppModel) -> nat {
    let last = crate::tui::model::before(app.overlay_view.len());
    if app.overlay_scroll < last {
        app.overlay_scroll as nat
    } else {
        last
    }
}

/// A log or changelog.
pub open spec fn scroll_view(app: AppModel, area: Rect) -> PopupModel {
    let room: nat = if area.height < 2 { 0 } else { (area.height - 2) as nat };
    PopupModel {
        panel: PanelModel::overlay(
            app.theme,
            if app.overlay_title.len() == 0 {
                " View "@
            } else {
                " "@ + app.overlay_title + " "@
            },
            area,
        ),
        lines: window(app.overlay_view, first_shown(app), room),
        wrapping: Wrapping::Keep,
        centered: false,
    }
}

/// Draws a log or changelog.
pub fn draw_scroll_overlay(app: &App, area: Rect) -> (r: PopupView)
    ensures
        r@ == scroll_view(app@, area),
{
    let theme = app.theme();
    let view = app.overlay_view();
    assert(view@.len() == app@.overlay_view.len());
    let room: usize = if area.height < 2 { 0 } else { (area.height - 2) as usize };
    let last: usize = if view.len() == 0 { 0 } else { view.len() - 1 };
    let scroll = app.overlay_scroll();
    let start: usize = if scroll < last { scroll } else { last };
    let lines = copy_window(view, start, room);
    let title = if app.overlay_title().is_empty() { " View ".to_string() } else {
        cat3(" ", app.overlay_title(), " ")
    };
    PopupView {
        panel: overlay_block(theme, title.as_str(), area),
        lines,
        wrapping: Wrapping::Keep,
        centered: false,
    }
}

// ── Update details ─────────────────────────────────────────────────────────

/// A label of the details, ten columns wide.
pub open spec fn label_piece(theme: ThemeModel, label: Seq<char>) -> SpanModel {
    style::piece(text::padded(label, 10), style::colored(theme.secondary))
}

fn label(theme: &Theme, s: &str) -> (r: Span)
    ensures
        r@ == label_piece(theme@, s@),
{
    span(pad_right(s, 10), Style::of(theme.secondary))
}

/// How the details name a status, and in which color.
pub open spec fn status_text(theme: ThemeModel, status: StatusModel) -> (Seq<char>, Color) {
    match status {
        StatusModel::UpdateAvailable => ("UPDATE AVAILABLE"@, theme.warn),
        StatusModel::UpToDate => ("up to date"@, theme.ok),
        StatusModel::Checking => ("checking…"@, theme.dim),
        StatusModel::LocalOnly => ("locally built (no registry image)"@, theme.dim),
        StatusModel::Error(e) => ("error: "@ + e, theme.err),
    }
}

fn status_span(theme: &Theme, status: &UpdateStatus) -> (r: Span)
    ensures
        r@ == style::piece(
            status_text(theme@, status@).0,
            style::colored(status_text(theme@, status@).1),
        ),
{
    match status {
        UpdateStatus::UpdateAvailable => span_str("UPDATE AVAILABLE", Style::of(theme.warn)),
        UpdateStatus::UpToDate => span_str("up to date", Style::of(theme.ok)),
        UpdateStatus::Checking => span_str("checking…", Style::of(theme.dim)),
        UpdateStatus::LocalOnly => span_str(
            "locally built (no registry image)",
            Style::of(theme.dim),
        ),
        UpdateStatus::Error(e) => span(cat2("error: ", e.as_str()), Style::of(theme.err)),
    }
}

/// A version with its date.
pub open spec fn version_line(
    theme: ThemeModel,
    label: Seq<char>,
    version: Option<Seq<char>>,
    color: Color,
    date: Option<Seq<char>>,
) -> Seq<SpanModel> {
    seq![
        label_piece(theme, label),
        style::piece(clock::date_text(version), style::colored(color)),
        style::piece("   ("@ + clock::date_text(date) + ")"@, style::colored(theme.dim)),
    ]
}

fn draw_version(
    theme: &Theme,
    name: &str,
    version: &Option<String>,
    color: Color,
    date: &Option<String>,
) -> (r: StyledLine)
    ensures
        r@ == version_line(theme@, name@, version.deep_view(), color, date.deep_view()),
{
    let version = date_or_dash(copy_option(version));
    let date = date_or_dash(copy_option(date));
    StyledLine::three(
        label(theme, name),
        span(version, Style::of(color)),
        span(cat3("   (", date.as_str(), ")"), Style::of(theme.dim)),
    )
}

/// Where the changelog is, or that there is none.
pub open spec fn changelog_part(theme: ThemeModel, repo: Option<Seq<char>>) -> Seq<
    Seq<SpanModel>,
> {
    match repo {
        Some(repo) => seq![
            seq![
                label_piece(theme, "changelog"@),
                style::piece("github.com/"@ + repo, style::colored(theme.accent)),
            ],
            style::line1("  press w to fetch release notes"@, style::colored(theme.dim)),
        ],
        None => seq![
            seq![
                label_piece(theme, "changelog"@),
                style::piece("not available for this image"@, style::colored(theme.dim)),
            ],
        ],
    }
}

/// What a check found.
pub open spec fn info_part(theme: ThemeModel, info: UpdateModel, now: Timestamp) -> Seq<
    Seq<SpanModel>,
> {
    let status = seq![
        seq![
            label_piece(theme, "status"@),
            style::piece(
                status_text(theme, info.status).0,
                style::colored(status_text(theme, info.status).1),
            ),
        ],
    ];
    let checked = match info.checked_at {
        Some(at) => seq![
            seq![
                label_piece(theme, "checked"@),
                style::piece(clock::relative_text(now, at), style::colored(theme.dim)),
            ],
        ],
        None => Seq::empty(),
    };
    let versions = seq![
        Seq::empty(),
        version_line(theme, "current"@, info.current_version, theme.fg, info.current_date),
        version_line(
            theme,
            "latest"@,
            info.latest_version,
            if info.status is UpdateAvailable {
                theme.warn
            } else {
                theme.fg
            },
            info.latest_date,
        ),
        Seq::empty(),
    ];
    status + checked + versions + changelog_part(theme, info.changelog_repo)
}

/// The details of an image: its reference, what a check found, and what can be done.
pub open spec fn details_lines(
    theme: ThemeModel,
    image: Seq<char>,
    info: Option<UpdateModel>,
    now: Timestamp,
) -> Seq<Seq<SpanModel>> {
    let found = match info {
        None => seq![
            style::line1(
                "Not checked yet — press u to check for updates."@,
                style::colored(theme.dim),
            ),
        ],
        Some(info) => info_part(theme, info, now),
    };
    seq![style::line1(image, style::strong(theme.accent)), Seq::empty()] + found + seq![
        Seq::empty(),
        style::line1("  u recheck · w changelog · Esc close"@, style::colored(theme.dim)),
    ]
}

/// The details of the selected image.
pub open spec fn details_view(app: AppModel, area: Rect, now: Timestamp) -> PopupModel {
    match app.selected_image_ref() {
        None => PopupModel {
            panel: PanelModel::overlay(app.theme, " Update details "@, area),
            lines: seq![style::raw("No image selected."@)],
            wrapping: Wrapping::Cut,
            centered: false,
        },
        Some(image) => PopupModel {
            panel: PanelModel::overlay(app.theme, " Update details "@, area),
            lines: details_lines(app.theme, image, ui::look_up(app.updates, image), now),
            wrapping: Wrapping::Keep,
            centered: false,
        },
    }
}

/// The regions of the action words on the footer row:
/// `  u recheck · w changelog · Esc close`.
pub open spec fn details_regions(app: AppModel, area: Rect, now: Timestamp) -> Seq<ClickRegion> {
    match app.selected_image_ref() {
        None => Seq::empty(),
        Some(image) => {
            let row = area.y + details_lines(
                app.theme,
                image,
                ui::look_up(app.updates, image),
                now,
            ).len();
            seq![
                ui::stretch(area.x + 3, row, 9, ClickTarget::Action(UiAction::CheckSelected)),
                ui::stretch(area.x + 15, row, 11, ClickTarget::Action(UiAction::Changelog)),
                ui::stretch(area.x + 29, row, 9, ClickTarget::Action(UiAction::CloseOverlay)),
            ]
        },
    }
}

/// How many lines the details of an image have.
pub open spec fn details_height(info: Option<UpdateModel>) -> int {
    match info {
        None => 5,
        Some(info) => 10 + (if info.checked_at is Some { 1int } else { 0 }) + (
        if info.changelog_repo is Some { 1int } else { 0 }),
    }
}

/// The number of lines does not depend on what they say.
proof fn lemma_details_height(
    theme: ThemeModel,
    image: Seq<char>,
    info: Option<UpdateModel>,
    now: Timestamp,
)
    ensures
        details_lines(theme, image, info, now).len() == details_height(info),
{
}

/// Whether the regions of the details have coordinates, where there are any.
pub open spec fn details_fit(app: AppModel, area: Rect) -> bool {
    match app.selected_image_ref() {
        None => true,
        Some(image) => area.x + 29 <= u16::MAX && area.y + details_height(
            ui::look_up(app.updates, image),
        ) <= u16::MAX,
    }
}

/// Whether the details can be drawn.
pub fn can_draw_details(app: &App, area: Rect) -> (r: bool)
    ensures
        r == details_fit(app@, area),
{
    match app.selected_update() {
        None => true,
        Some((_, info)) => {
            let height: u16 = match info {
                None => 5,
                Some(info) => {
                    let checked: u16 = if info.checked_at.is_some() { 1 } else { 0 };
                    let linked: u16 = if info.changelog_repo.is_some() { 1 } else { 0 };
                    10 + checked + linked
                },
            };
            area.x <= u16::MAX - 29 && area.y <= u16::MAX - height
        },
    }
}

fn push_info(lines: &mut Vec<StyledLine>, theme: &Theme, info: &UpdateInfo, now: Timestamp)
    ensures
        final(lines).deep_view() == old(lines).deep_view() + info_part(theme@, info@, now),
{
    let ghost before = lines.deep_view();
    push_line(lines, StyledLine::two(label(theme, "status"), status_span(theme, &info.status)));
    if let Some(checked) = info.checked_at {
        push_line(
            lines,
            StyledLine::two(
                label(theme, "checked"),
                span(format_relative(now, checked), Style::of(theme.dim)),
            ),
        );
    }
    push_blank(lines);
    push_line(
        lines,
        draw_version(theme, "current", &info.current_version, theme.fg, &info.current_date),
    );
    let latest = if matches!(&info.status, UpdateStatus::UpdateAvailable) { theme.warn } else {
        theme.fg
    };
    push_line(
        lines,
        draw_version(theme, "latest", &info.latest_version, latest, &info.latest_date),
    );
    push_blank(lines);
    match &info.changelog_repo {
        Some(repo) => {
            push_line(
                lines,
                StyledLine::two(
                    label(theme, "changelog"),
                    span(cat2("github.com/", repo.as_str()), Style::of(theme.accent)),
                ),
            );
            push_text(
                lines,
                "  press w to fetch release notes".to_string(),
                Style::of(theme.dim),
            );
        },
        None => {
            push_line(
                lines,
                StyledLine::two(
                    label(theme, "changelog"),
                    span_str("not available for this image", Style::of(theme.dim)),
                ),
            );
        },
    }
    assert(lines.deep_view() =~= before + info_part(theme@, info@, now));
}

/// The update-details overlay: current vs latest version/date plus changelog link.
pub fn draw_update_details(
    app: &App,
    area: Rect,
    regions: &mut Vec<ClickRegion>,
    now: Timestamp,
) -> (r: PopupView)
    requires
        details_fit(app@, area),
    ensures
        r@ == details_view(app@, area, now),
        final(regions)@ == old(regions)@ + details_regions(app@, area, now),
{
    let theme = app.theme();
    let (image, info) = match app.selected_update() {
        Some(found) => found,
        None => {
            let lines = vec![StyledLine::plain("No image selected.")];
            assert(lines.deep_view() =~= details_view(app@, area, now).lines);
            assert(regions@ =~= regions@ + details_regions(app@, area, now));
            return PopupView {
                panel: overlay_block(theme, " Update details ", area),
                lines,
                wrapping: Wrapping::Cut,
                centered: false,
            };
        },
    };
    let mut lines: Vec<StyledLine> = Vec::new();
    assert(lines.deep_view() =~= Seq::<Seq<SpanModel>>::empty());
    let ghost reference = image@;
    push_text(&mut lines, image, Style::bold_of(theme.accent));
    push_blank(&mut lines);
    match info {
        None => push_text(
            &mut lines,
            "Not checked yet — press u to check for updates.".to_string(),
            Style::of(theme.dim),
        ),
        Some(info) => push_info(&mut lines, theme, info, now),
    }
    push_blank(&mut lines);
    push_text(
        &mut lines,
        "  u recheck · w changelog · Esc close".to_string(),
        Style::of(theme.dim),
    );
    let ghost drawn = details_lines(
        app@.theme,
        reference,
        ui::look_up(app@.updates, reference),
        now,
    );
    assert(lines.deep_view() =~= drawn);
    assert(lines@.len() == drawn.len());
    proof {
        lemma_details_height(app@.theme, reference, ui::look_up(app@.updates, reference), now);
    }
    let row: u16 = area.y + lines.len() as u16;
    let ghost before = regions@;
    push_region(regions, area.x + 3, row, 9, ClickTarget::Action(UiAction::CheckSelected));
    push_region(regions, area.x + 15, row, 11, ClickTarget::Action(UiAction::Changelog));
    push_region(regions, area.x + 29, row, 9, ClickTarget::Action(UiAction::CloseOverlay));
    assert(regions@ =~= before + details_regions(app@, area, now));
    PopupView {
        panel: overlay_block(theme, " Update details ", area),
        lines,
        wrapping: Wrapping::Keep,
        centered: false,
    }
}

// ── Progress of an update ──────────────────────────────────────────────────

/// Icon + color for an apply step status.
pub open spec fn icon(theme: ThemeModel, status: StepStatus) -> (Seq<char>, Color) {
    match status {
        StepStatus::Pending => ("○"@, theme.dim),
        StepStatus::Running => ("◐"@, theme.accent),
        StepStatus::Done => ("✔"@, theme.ok),
        StepStatus::Failed => ("✖"@, theme.err),
    }
}

/// Icon + color for an apply step status.
fn step_icon(theme: &Theme, status: StepStatus) -> (r: (&'static str, Color))
    ensures
        (r.0@, r.1) == icon(theme@, status),
{
    match status {
        StepStatus::Pending => ("○", theme.dim),
        StepStatus::Running => ("◐", theme.accent),
        StepStatus::Done => ("✔", theme.ok),
        StepStatus::Failed => ("✖", theme.err),
    }
}

/// A stage of the checklist.
pub open spec fn step_line(theme: ThemeModel, stage: ApplyStage, status: StepStatus) -> Seq<
    SpanModel,
> {
    seq![
        style::piece(
            "  "@ + icon(theme, status).0 + "  "@,
            style::colored(icon(theme, status).1),
        ),
        style::piece(
            stage.label_text(),
            style::colored(
                if status is Pending {
                    theme.dim
                } else {
                    theme.fg
                },
            ),
        ),
    ]
}

/// The checklist of stages, and the rollback where there is one.
pub open spec fn checklist(theme: ThemeModel, a: ApplyModel) -> Seq<Seq<SpanModel>> {
    let steps = a.steps.map_values(
        |s: (ApplyStage, StepStatus)| step_line(theme, s.0, s.1),
    );
    let rollback = match a.rollback {
        Some(rb) => seq![
            seq![
                style::piece("  "@ + icon(theme, rb).0 + "  "@, style::colored(theme.warn)),
                style::piece("Roll back to previous container"@, style::colored(theme.warn)),
            ],
        ],
        None => Seq::empty(),
    };
    steps + rollback
}

/// Texts as indented lines of a color.
pub open spec fn indented(texts: Seq<Seq<char>>, color: Color) -> Seq<Seq<SpanModel>> {
    texts.map_values(|t: Seq<char>| style::line1("  "@ + t, style::colored(color)))
}

/// Error detail, if any.
pub open spec fn error_part(theme: ThemeModel, error: Option<Seq<char>>) -> Seq<Seq<SpanModel>> {
    match error {
        Some(e) => (seq![style::line1("ERROR"@, style::strong(theme.err))] + indented(
            text::text_lines(e),
            theme.err,
        )).push(Seq::empty()),
        None => Seq::empty(),
    }
}

/// How many lines of output show.
pub const TAIL: usize = 8;

/// Recent output (tail of the detail log), if any.
pub open spec fn output_part(theme: ThemeModel, log: Seq<Seq<char>>) -> Seq<Seq<SpanModel>> {
    if log.len() == 0 {
        Seq::empty()
    } else {
        (seq![style::line1("recent output"@, style::colored(theme.secondary))] + indented(
            progress::last_of(log, TAIL as nat),
            theme.dim,
        )).push(Seq::empty())
    }
}

/// How the update stands.
pub open spec fn progress_footer(theme: ThemeModel, a: ApplyModel) -> Seq<SpanModel> {
    if !a.finished {
        style::line1("working…"@, style::colored(theme.accent))
    } else if a.success {
        style::line1("✔ update complete — press Esc to close"@, style::colored(theme.ok))
    } else {
        style::line1(
            "✖ update failed — previous container restored — press Esc to close"@,
            style::colored(theme.err),
        )
    }
}

/// The progress of an update.
pub open spec fn progress_lines(theme: ThemeModel, a: ApplyModel) -> Seq<Seq<SpanModel>> {
    (seq![style::line1(a.title, style::strong(theme.accent)), Seq::empty()] + checklist(
        theme,
        a,
    ) + seq![Seq::empty()] + error_part(theme, a.error) + output_part(theme, a.log)).push(
        progress_footer(theme, a),
    )
}

/// The progress of an update, where there is one.
pub open spec fn progress_view(app: AppModel, area: Rect) -> Option<PopupModel> {
    match app.apply {
        Some(a) => Some(
            PopupModel {
                panel: PanelModel::overlay(app.theme, " Applying update "@, area),
                lines: progress_lines(app.theme, a),
                wrapping: Wrapping::Keep,
                centered: false,
            },
        ),
        None => None,
    }
}

fn push_checklist(lines: &mut Vec<StyledLine>, theme: &Theme, a: &ApplyState)
    ensures
        final(lines).deep_view() == old(lines).deep_view() + checklist(theme@, a@),
{
    let ghost before = lines.deep_view();
    let ghost steps = a@.steps.map_values(
        |s: (ApplyStage, StepStatus)| step_line(theme@, s.0, s.1),
    );
    let mut i: usize = 0;
    assert(lines.deep_view() =~= before + steps.take(0));
    while i < a.steps.len()
        invariant
            steps == a@.steps.map_values(
                |s: (ApplyStage, StepStatus)| step_line(theme@, s.0, s.1),
            ),
            i <= a.steps@.len(),
            lines.deep_view() == before + steps.take(i as int),
        decreases a.steps@.len() - i,
    {
        let (stage, status) = a.steps[i];
        let (mark, color) = step_icon(theme, status);
        let label_color = if status == StepStatus::Pending { theme.dim } else { theme.fg };
        let line = StyledLine::two(
            span(cat3("  ", mark, "  "), Style::of(color)),
            span_str(stage.label(), Style::of(label_color)),
        );
        assert(line@ == steps[i as int]);
        push_line(lines, line);
        assert(lines.deep_view() =~= before + steps.take(i + 1));
        i = i + 1;
    }
    assert(steps.take(a.steps@.len() as int) =~= steps);
    if let Some(rb) = a.rollback {
        let (mark, _) = step_icon(theme, rb);
        push_line(
            lines,
            StyledLine::two(
                span(cat3("  ", mark, "  "), Style::of(theme.warn)),
                span_str("Roll back to previous container", Style::of(theme.warn)),
            ),
        );
    }
    assert(lines.deep_view() =~= before + checklist(theme@, a@));
}

/// Puts texts from the one at `from` on at the end, as indented lines of a color.
fn push_indented(lines: &mut Vec<StyledLine>, texts: &Vec<String>, from: usize, color: Color)
    requires
        from <= texts@.len(),
    ensures
        final(lines).deep_view() == old(lines).deep_view() + indented(
            texts.deep_view().skip(from as int),
            color,
        ),
{
    let ghost before = lines.deep_view();
    let ghost all = indented(texts.deep_view().skip(from as int), color);
    let mut i: usize = from;
    assert(lines.deep_view() =~= before + all.take(0));
    while i < texts.len()
        invariant
            from <= i <= texts@.len(),
            all == indented(texts.deep_view().skip(from as int), color),
            lines.deep_view() == before + all.take(i - from),
        decreases texts@.len() - i,
    {
        assert(texts.deep_view().skip(from as int)[i - from] == texts@[i as int]@);
        push_text(lines, cat2("  ", texts[i].as_str()), Style::of(color));
        assert(lines.deep_view() =~= before + all.take(i - from + 1));
        i = i + 1;
    }
    assert(all.take(texts@.len() - from) =~= all);
}

fn push_error(lines: &mut Vec<StyledLine>, theme: &Theme, error: &Option<String>)
    ensures
        final(lines).deep_view() == old(lines).deep_view() + error_part(
            theme@,
            error.deep_view(),
        ),
{
    let ghost before = lines.deep_view();
    if let Some(e) = error {
        let parts = lines_of(e.as_str());
        push_text(lines, "ERROR".to_string(), Style::bold_of(theme.err));
        push_indented(lines, &parts, 0, theme.err);
        assert(parts.deep_view().skip(0) =~= parts.deep_view());
        push_blank(lines);
    }
    assert(lines.deep_view() =~= before + error_part(theme@, error.deep_view()));
}

fn push_output(lines: &mut Vec<StyledLine>, theme: &Theme, log: &Vec<String>)
    ensures
        final(lines).deep_view() == old(lines).deep_view() + output_part(
            theme@,
            log.deep_view(),
        ),
{
    let ghost before = lines.deep_view();
    let n = log.len();
    assert(n == log.deep_view().len());
    if n > 0 {
        push_text(lines, "recent output".to_string(), Style::of(theme.secondary));
        let start: usize = if n < TAIL { 0 } else { n - TAIL };
        push_indented(lines, log, start, theme.dim);
        assert(log.deep_view().skip(start as int) =~= progress::last_of(
            log.deep_view(),
            TAIL as nat,
        ));
        push_blank(lines);
    }
    assert(lines.deep_view() =~= before + output_part(theme@, log.deep_view()));
}

/// The live progress overlay for an in-flight container update.
pub fn draw_apply_progress(app: &App, area: Rect) -> (r: Option<PopupView>)
    ensures
        r.deep_view() == progress_view(app@, area),
{
    let theme = app.theme();
    let a = match app.apply() {
        Some(a) => a,
        None => return None,
    };
    let mut lines: Vec<StyledLine> = Vec::new();
    assert(lines.deep_view() =~= Seq::<Seq<SpanModel>>::empty());
    push_text(&mut lines, a.title.clone(), Style::bold_of(theme.accent));
    push_blank(&mut lines);
    push_checklist(&mut lines, theme, a);
    push_blank(&mut lines);
    push_error(&mut lines, theme, &a.error);
    push_output(&mut lines, theme, &a.log);
    let (footer, color) = if !a.finished {
        ("working…", theme.accent)
    } else if a.success {
        ("✔ update complete — press Esc to close", theme.ok)
    } else {
        ("✖ update failed — previous container restored — press Esc to close", theme.err)
    };
    push_text(&mut lines, footer.to_string(), Style::of(color));
    assert(lines.deep_view() =~= progress_lines(app@.theme, a@));
    Some(
        PopupView {
            panel: overlay_block(theme, " Applying update ", area),
            lines,
            wrapping: Wrapping::Keep,
            centered: false,
        },
    )
}

// ── Laws of the overlays ───────────────────────────────────────────────────

/// A log or changelog shows the lines from where it is scrolled to, one below the other, as many
/// as there is room for; scrolled too far, it shows its last line.
pub proof fn law_scrolled_lines_show(app: AppModel, area: Rect)
    requires
        app.overlay_view.len() > 0,
    ensures
        ({
            let lines = scroll_view(app, area).lines;
            let room = if area.height < 2 { 0 } else { area.height - 2 };
            let n = app.overlay_view.len();
            let start = if app.overlay_scroll < n { app.overlay_scroll as int } else { n - 1 };
            &&& lines.len() == (if n - start <= room { n - start } else { room })
            &&& forall|k: int|
                0 <= k < lines.len() ==> #[trigger] lines[k] == app.overlay_view[start + k]
        }),
{
}

/// The options of the prune menu stand one below the other under its title, and each can be
/// clicked on its own row, over the width inside the border.
pub proof fn law_prune_options_are_where_they_stand(app: AppModel, area: Rect)
    requires
        area.x < u16::MAX,
        area.y + 8 <= u16::MAX,
    ensures
        ({
            let r = prune_regions(area);
            &&& r.len() == 6
            &&& forall|i: int|
                0 <= i < 6 ==> (#[trigger] r[i]).rect.y == area.y + 3 + i && r[i].rect.x == area.x
                    + 1 && r[i].rect.height == 1
            &&& area.width >= 2 ==> forall|i: int|
                0 <= i < 6 ==> (#[trigger] r[i]).rect.width == area.width - 2
            &&& r[0].target == ClickTarget::Action(UiAction::PruneImages(false))
            &&& r[1].target == ClickTarget::Action(UiAction::PruneImages(true))
            &&& r[2].target == ClickTarget::Action(UiAction::PruneContainers)
            &&& r[3].target == ClickTarget::Action(UiAction::PruneVolumes)
            &&& r[4].target == ClickTarget::Action(UiAction::PruneBuildCache)
            &&& r[5].target == ClickTarget::Action(UiAction::PruneAll)
        }),
{
}

/// The prune menu says what could be reclaimed, or that this is not known.
pub proof fn law_prune_menu_says_what_it_frees(app: AppModel, area: Rect)
    ensures
        app.usage is None ==> prune_view(app, area).lines[0][0].content == "Prune — up to "@ + "?"@
            + " reclaimable"@,
        app.usage matches Some(u) ==> u.sums_fit() ==> prune_view(
            app,
            area,
        ).lines[0][0].content == "Prune — up to "@ + util::bytes_text(
            (u.images_reclaimable + u.containers_reclaimable + u.volumes_reclaimable
                + u.build_cache_reclaimable) as i64,
        ) + " reclaimable"@,
{
}

/// The palette shows what was typed, and its matches one below the other, the chosen one and no
/// other marked; each can be clicked on its own row. Without a match it says so.
pub proof fn law_palette_shows_its_matches(
    app: AppModel,
    matches: Seq<(Seq<char>, PaletteAction)>,
    area: Rect,
    i: int,
)
    requires
        0 <= i < matches.len(),
        area.x < u16::MAX,
        area.y + 3 + matches.len() <= u16::MAX,
    ensures
        ({
            let lines = palette_view(app, matches, area).lines;
            let r = palette_regions(area, matches.len());
            &&& lines.len() == matches.len() + 2
            &&& lines[0][1].content == app.palette_query
            &&& lines[2 + i][0].content == "  "@ + matches[i].0
            &&& lines[2 + i][0].style.reversed <==> i == app.palette_index
            &&& r.len() == matches.len()
            &&& r[i].rect.y == area.y + 3 + i && r[i].rect.x == area.x + 1 && r[i].rect.height == 1
            &&& r[i].target == ClickTarget::Action(UiAction::PaletteItem(i as usize))
            &&& palette_view(app, Seq::empty(), area).lines[2][0].content
                == "  (no matching commands)"@
        }),
{
}

/// A confirmation asks about what it is for, by its name where it has one.
pub proof fn law_confirmations_say_what_they_ask(
    app: AppModel,
    area: Rect,
    id: Seq<char>,
    name: Seq<char>,
)
    ensures
        confirm_view(
            app,
            ConfirmModel::RemoveContainer(id, name),
            area,
        ).lines[0][0].content == "Remove container '"@ + name + "'?"@,
        confirm_view(
            app,
            ConfirmModel::ApplyUpdate(id, name),
            area,
        ).lines[0][0].content == "Pull "@ + name
            + " and recreate this container?\n(preserves volumes, ports, env, and networks)"@,
        question(ConfirmModel::PruneImages(true)) == "Prune ALL unused images?"@,
        question(ConfirmModel::PruneImages(false)) == "Prune dangling images?"@,
        question(ConfirmModel::PruneContainers) == "Prune all stopped containers?"@,
        question(ConfirmModel::PruneVolumes) == "Prune all unused volumes?"@,
        question(ConfirmModel::PruneBuildCache) == "Prune the build cache?"@,
        question(ConfirmModel::PruneAll) == "Prune EVERYTHING unused?"@,
{
}

/// The details of an image begin with its reference; one that was not checked says so.
pub proof fn law_details_name_the_image(theme: ThemeModel, image: Seq<char>, now: Timestamp)
    ensures
        details_lines(theme, image, None, now)[0][0].content == image,
        details_lines(theme, image, None, now).len() == 5,
        details_lines(theme, image, None, now)[2][0].content
            == "Not checked yet — press u to check for updates."@,
{
}

/// The details of a check give its status, when it was made, the version and the date of the
/// local image and of the latest one, and where the changelog is.
pub proof fn law_details_tell_both_versions(theme: ThemeModel, info: UpdateModel, now: Timestamp)
    ensures
        ({
            let lines = info_part(theme, info, now);
            let k: int = if info.checked_at is Some { 2 } else { 1 };
            let known = |t: Option<Seq<char>>| if t is Some { t->0 } else { "—"@ };
            &&& info.status is UpdateAvailable ==> lines[0][1].content == "UPDATE AVAILABLE"@
            &&& info.status is UpToDate ==> lines[0][1].content == "up to date"@
            &&& info.status is LocalOnly ==> lines[0][1].content
                == "locally built (no registry image)"@
            &&& info.status matches StatusModel::Error(e) ==> lines[0][1].content == "error: "@ + e
            &&& info.checked_at matches Some(at) ==> lines[1][1].content == clock::relative_text(
                now,
                at,
            )
            &&& lines[k + 1][1].content == known(info.current_version)
            &&& lines[k + 1][2].content == "   ("@ + known(info.current_date) + ")"@
            &&& lines[k + 2][1].content == known(info.latest_version)
            &&& lines[k + 2][2].content == "   ("@ + known(info.latest_date) + ")"@
            &&& info.changelog_repo matches Some(repo) ==> lines[k + 4][1].content
                == "github.com/"@ + repo
            &&& info.changelog_repo is None ==> lines[k + 4][1].content
                == "not available for this image"@
        }),
{
}

/// Each step of an update has a line, in order, with its label and a sign of how it stands: one
/// sign each for pending, running, done and failed. A rollback follows them.
pub proof fn law_each_step_has_its_line(theme: ThemeModel, a: ApplyModel, i: int)
    requires
        0 <= i < a.steps.len(),
    ensures
        ({
            let lines = checklist(theme, a);
            let sign = lines[i][0].content;
            &&& lines[i][1].content == a.steps[i].0.label_text()
            &&& a.steps[i].1 is Pending ==> sign == "  "@ + "○"@ + "  "@
            &&& a.steps[i].1 is Running ==> sign == "  "@ + "◐"@ + "  "@
            &&& a.steps[i].1 is Done ==> sign == "  "@ + "✔"@ + "  "@
            &&& a.steps[i].1 is Failed ==> sign == "  "@ + "✖"@ + "  "@
            &&& a.rollback is None ==> lines.len() == a.steps.len()
            &&& a.rollback is Some ==> lines.len() == a.steps.len() + 1 && lines.last()[1].content
                == "Roll back to previous container"@
        }),
{
}

/// An update shows its last output and how it stands: that it works as long as it is not over,
/// and then whether it succeeded. A reason is shown where there is one.
pub proof fn law_update_shows_how_it_stands(theme: ThemeModel, a: ApplyModel)
    ensures
        ({
            let out = output_part(theme, a.log);
            let n: int = if a.log.len() < 8 { a.log.len() as int } else { 8 };
            &&& progress_lines(theme, a).last() == progress_footer(theme, a)
            &&& progress_lines(theme, a)[0][0].content == a.title
            &&& !a.finished ==> progress_footer(theme, a)[0].content == "working…"@
            &&& a.finished && a.success ==> progress_footer(theme, a)[0].content
                == "✔ update complete — press Esc to close"@
            &&& a.finished && !a.success ==> progress_footer(theme, a)[0].content
                == "✖ update failed — previous container restored — press Esc to close"@
            &&& a.log.len() == 0 ==> out.len() == 0
            &&& a.log.len() > 0 ==> out.len() == n + 2 && forall|k: int|
                0 <= k < n ==> (#[trigger] out[1 + k])[0].content == "  "@ + a.log[a.log.len() - n
                    + k]
            &&& a.error is None ==> error_part(theme, a.error).len() == 0
            &&& a.error matches Some(e) ==> error_part(theme, a.error).len() == text::text_lines(
                e,
            ).len() + 2 && forall|k: int|
                0 <= k < text::text_lines(e).len() ==> (#[trigger] error_part(
                    theme,
                    a.error,
                )[1 + k])[0].content == "  "@ + text::text_lines(e)[k]
        }),
{
}

} // verus!
