//! Rendering for the TUI. Pure functions over [`App`] state.

use vstd::prelude::*;
use crate::clock;
use crate::clock::date_or_dash;
use crate::docker::model::{
    ContainerInfo, ContainerModel, DiskUsage, ImageInfo, StatusModel, UpdateInfo, UpdateModel, UpdateStatus,
};
use crate::style;
use crate::style::{push_span, span, span_str, Color, Span, SpanModel, Style, StyledLine};
use crate::text;
use crate::text::{cat3, cat4, copy_option, decimal_usize, repeat_char};
use crate::theme::{Theme, ThemeModel};
use crate::tui::app::App;
use crate::tui::layout::Constraint;
use crate::tui::model::AppModel;
use crate::tui::types;
use crate::tui::types::{ClickRegion, ClickTarget, Rect, SortKey, StatsModel, Tab, UiAction};
use crate::tui::view::{
    list_block, Bar, BodyModel, BodyView, FooterModel, FooterView, Panel, PanelModel, RowModel,
    RowView, SpaceBars, TableModel, TableView, TabsModel, TabsView,
};
use crate::util;
use crate::util::format_bytes;

verus! {

// ── Regions ────────────────────────────────────────────────────────────────

/// A clickable stretch of one row.
pub open spec fn stretch(x: int, y: int, width: int, target: ClickTarget) -> ClickRegion {
    ClickRegion {
        rect: Rect { x: x as u16, y: y as u16, width: width as u16, height: 1 },
        target,
    }
}

/// Record a clickable region.
pub(crate) fn push_region(
    regions: &mut Vec<ClickRegion>,
    x: u16,
    y: u16,
    width: u16,
    target: ClickTarget,
)
    ensures
        final(regions)@ == old(regions)@.push(
            stretch(x as int, y as int, width as int, target),
        ),
{
    regions.push(ClickRegion { rect: Rect { x, y, width, height: 1 }, target });
}

/// What an area holds inside its border, from side to side.
pub open spec fn inner_width(area: Rect) -> int {
    if area.width < 2 {
        0
    } else {
        area.width - 2
    }
}

pub(crate) fn inside(area: Rect) -> (r: u16)
    ensures
        r == inner_width(area),
{
    if area.width < 2 {
        0
    } else {
        area.width - 2
    }
}

/// One row for each target, one below the other, inside the border of an area.
pub open spec fn menu_regions(area: Rect, first: int, targets: Seq<ClickTarget>) -> Seq<
    ClickRegion,
> {
    Seq::new(
        targets.len(),
        |i: int| stretch(area.x + 1, first + i, inner_width(area), targets[i]),
    )
}

/// How many rows of a list show: all but the borders and the header.
pub open spec fn visible_rows(area: Rect, count: nat) -> nat {
    let room: nat = if area.height < 3 { 0 } else { (area.height - 3) as nat };
    if count < room {
        count
    } else {
        room
    }
}

/// The regions of the visible rows of a list.
pub open spec fn row_regions(area: Rect, count: nat, base: bool) -> Seq<ClickRegion> {
    if base {
        Seq::new(
            visible_rows(area, count),
            |i: int|
                stretch(
                    area.x + 1,
                    area.y + 2 + i,
                    inner_width(area),
                    ClickTarget::Row(i as usize),
                ),
        )
    } else {
        Seq::empty()
    }
}

/// Record a clickable region for each visible table row.
fn record_rows(regions: &mut Vec<ClickRegion>, area: Rect, count: usize, base: bool)
    requires
        base ==> area.x < u16::MAX && area.bottom() <= u16::MAX,
    ensures
        final(regions)@ == old(regions)@ + row_regions(area, count as nat, base),
{
    if !base {
        assert(regions@ =~= regions@ + row_regions(area, count as nat, base));
        return;
    }
    // Inside the block border, a header row occupies the first line; data rows
    // follow. Visible data height = area height minus top border, header, bottom border.
    let room: usize = if area.height < 3 { 0 } else { (area.height - 3) as usize };
    let shown: usize = if count < room { count } else { room };
    let width = inside(area);
    let ghost before = regions@;
    let ghost all = row_regions(area, count as nat, base);
    let mut i: usize = 0;
    assert(regions@ =~= before + all.take(0));
    while i < shown
        invariant
            i <= shown,
            shown == visible_rows(area, count as nat),
            shown <= area.height,
            shown + 3 <= area.height || shown == 0,
            width == inner_width(area),
            area.x < u16::MAX,
            area.bottom() <= u16::MAX,
            all == row_regions(area, count as nat, true),
            regions@ == before + all.take(i as int),
        decreases shown - i,
    {
        let y: u16 = area.y + 2 + i as u16;
        push_region(regions, area.x + 1, y, width, ClickTarget::Row(i));
        assert(all[i as int] == stretch(
            area.x + 1,
            y as int,
            width as int,
            ClickTarget::Row(i),
        ));
        assert(regions@ =~= before + all.take(i + 1));
        i = i + 1;
    }
    assert(all.take(shown as int) =~= all);
}

// ── Tabs ───────────────────────────────────────────────────────────────────

/// The regions of the tabs. Titles render inside the border as ` Title ` separated by the
/// default divider ` | `. They can only be clicked on the base.
pub open spec fn tab_regions(area: Rect, base: bool) -> Seq<ClickRegion> {
    let images = Tab::Images.title_text().len() + 2;
    let containers = Tab::Containers.title_text().len() + 2;
    let space = Tab::Space.title_text().len() + 2;
    let x = area.x + 1;
    let y = area.y + 1;
    if base {
        seq![
            stretch(x, y, images as int, ClickTarget::Tab(Tab::Images)),
            stretch(x + images + 3, y, containers as int, ClickTarget::Tab(Tab::Containers)),
            stretch(
                x + images + 3 + containers + 3,
                y,
                space as int,
                ClickTarget::Tab(Tab::Space),
            ),
        ]
    } else {
        Seq::empty()
    }
}

/// The tab bar.
pub open spec fn tabs_view(app: AppModel, area: Rect) -> TabsModel {
    TabsModel {
        panel: PanelModel {
            area,
            border: app.theme.border,
            title: style::piece(" DockerSmith "@, style::strong(app.theme.accent)),
        },
        titles: seq![
            style::raw(" "@ + Tab::Images.title_text() + " "@),
            style::raw(" "@ + Tab::Containers.title_text() + " "@),
            style::raw(" "@ + Tab::Space.title_text() + " "@),
        ],
        selected: app.tab.place(),
        plain: style::colored(app.theme.dim),
        highlight: style::strong(app.theme.accent),
    }
}

/// Whether the tab bar's regions have coordinates.
pub open spec fn tabs_fit(area: Rect) -> bool {
    area.x + 37 <= u16::MAX && area.y < u16::MAX
}

/// Record a clickable region for each tab.
fn record_tabs(regions: &mut Vec<ClickRegion>, area: Rect, base: bool)
    requires
        base ==> tabs_fit(area),
    ensures
        final(regions)@ == old(regions)@ + tab_regions(area, base),
{
    let ghost before = regions@;
    if base {
        proof {
            reveal_strlit("Images");
            reveal_strlit("Containers");
            reveal_strlit("Space");
        }
        let y = area.y + 1;
        push_region(regions, area.x + 1, y, 8, ClickTarget::Tab(Tab::Images));
        push_region(regions, area.x + 12, y, 12, ClickTarget::Tab(Tab::Containers));
        push_region(regions, area.x + 27, y, 7, ClickTarget::Tab(Tab::Space));
    }
    assert(regions@ =~= before + tab_regions(area, base));
}

/// Draws the tab bar.
pub fn draw_tabs(app: &App, area: Rect, regions: &mut Vec<ClickRegion>, base: bool) -> (r:
    TabsView)
    requires
        base ==> tabs_fit(area),
    ensures
        r@ == tabs_view(app@, area),
        final(regions)@ == old(regions)@ + tab_regions(area, base),
{
    let theme = app.theme();
    record_tabs(regions, area, base);
    let titles = vec![
        StyledLine::plain(cat3(" ", Tab::Images.title(), " ").as_str()),
        StyledLine::plain(cat3(" ", Tab::Containers.title(), " ").as_str()),
        StyledLine::plain(cat3(" ", Tab::Space.title(), " ").as_str()),
    ];
    let r = TabsView {
        panel: Panel {
            area,
            border: theme.border,
            title: span_str(" DockerSmith ", Style::bold_of(theme.accent)),
        },
        titles,
        selected: app.tab().index(),
        plain: Style::of(theme.dim),
        highlight: Style::bold_of(theme.accent),
    };
    assert(r@.titles =~= tabs_view(app@, area).titles);
    r
}

// ── Lists ──────────────────────────────────────────────────────────────────

/// How a row looks.
pub open spec fn row_look(theme: ThemeModel, selected: bool) -> Style {
    if selected {
        style::marked(theme.accent)
    } else {
        style::colored(theme.fg)
    }
}

fn row_style(theme: &Theme, selected: bool) -> (r: Style)
    ensures
        r == row_look(theme@, selected),
{
    if selected {
        Style::marked_of(theme.accent)
    } else {
        Style::of(theme.fg)
    }
}

/// What a map holds for a key.
pub open spec fn look_up<A>(m: Map<Seq<char>, A>, key: Seq<char>) -> Option<A> {
    if m.contains_key(key) {
        Some(m[key])
    } else {
        None
    }
}

/// The header of a column: the one that the list is sorted by shows a direction arrow.
pub open spec fn head(app: AppModel, label: Seq<char>, key: SortKey) -> Seq<SpanModel> {
    if key == app.sort {
        style::line1(
            label + " "@ + (if app.descending { "↓"@ } else { "↑"@ }),
            style::strong(app.theme.accent),
        )
    } else {
        style::line1(label, style::strong(app.theme.secondary))
    }
}

/// The headers of the columns of a tab's list.
pub open spec fn header(app: AppModel, tab: Tab) -> RowModel {
    RowModel {
        cells: SortKey::labels(tab).map_values(
            |c: (Seq<char>, SortKey)| head(app, c.0, c.1),
        ),
        style: style::unstyled(),
    }
}

/// Build a table header row whose active sort column shows a direction arrow.
fn sort_header(app: &App, tab: Tab) -> (r: RowView)
    ensures
        r@ == header(app@, tab),
{
    let theme = app.theme();
    let (key, desc) = app.sort();
    let columns = SortKey::columns(tab);
    let ghost labels = SortKey::labels(tab);
    assert(labels.len() == columns@.len());
    let mut cells: Vec<StyledLine> = Vec::new();
    let mut i: usize = 0;
    while i < columns.len()
        invariant
            theme@ == app@.theme,
            (key, desc) == (app@.sort, app@.descending),
            labels == types::listed(columns@),
            i <= columns@.len(),
            cells@.len() == i,
            forall|j: int|
                0 <= j < i ==> (#[trigger] cells@[j])@ == head(app@, labels[j].0, labels[j].1),
        decreases columns@.len() - i,
    {
        let (label, k) = columns[i];
        assert(labels[i as int] == (label@, k));
        let cell = if k == key {
            let arrow = if desc { "↓" } else { "↑" };
            StyledLine::one(cat3(label, " ", arrow), Style::bold_of(theme.accent))
        } else {
            StyledLine::one_str(label, Style::bold_of(theme.secondary))
        };
        cells.push(cell);
        i = i + 1;
    }
    let r = RowView { cells, style: Style::plain() };
    assert(r@.cells =~= header(app@, tab).cells);
    r
}

/// The regions of the column headers, which stand in `cells`.
pub open spec fn header_regions(cells: Seq<Rect>, tab: Tab, base: bool) -> Seq<ClickRegion> {
    if base {
        Seq::new(
            SortKey::labels(tab).len(),
            |i: int|
                ClickRegion {
                    rect: cells[i],
                    target: ClickTarget::Header(SortKey::labels(tab)[i].1),
                },
        )
    } else {
        Seq::empty()
    }
}

/// Record a clickable header region per column so clicking a header sorts by it.
fn record_header(regions: &mut Vec<ClickRegion>, cells: &[Rect; 6], tab: Tab, base: bool)
    ensures
        final(regions)@ == old(regions)@ + header_regions(cells@, tab, base),
{
    let ghost before = regions@;
    let ghost all = header_regions(cells@, tab, base);
    if !base {
        assert(regions@ =~= before + all);
        return;
    }
    let columns = SortKey::columns(tab);
    let ghost labels = SortKey::labels(tab);
    assert(labels.len() == columns@.len());
    assert(labels.len() <= 6);
    let mut i: usize = 0;
    assert(regions@ =~= before + all.take(0));
    while i < columns.len()
        invariant
            base,
            labels == types::listed(columns@),
            labels == SortKey::labels(tab),
            labels.len() <= 6,
            all == header_regions(cells@, tab, base),
            i <= columns@.len(),
            regions@ == before + all.take(i as int),
        decreases columns@.len() - i,
    {
        assert(labels[i as int].1 == columns@[i as int].1);
        regions.push(ClickRegion { rect: cells[i], target: ClickTarget::Header(columns[i].1) });
        assert(regions@ =~= before + all.take(i + 1));
        i = i + 1;
    }
    assert(all.take(columns@.len() as int) =~= all);
}

/// What the update column says.
pub open spec fn update_name(info: Option<UpdateModel>) -> Seq<char> {
    match info {
        None => "-"@,
        Some(info) => match info.status {
            StatusModel::UpdateAvailable => match info.transition() {
                Some(t) => t,
                None => "UPDATE"@,
            },
            StatusModel::UpToDate => match info.latest_label() {
                Some(v) => "up to date ("@ + v + ")"@,
                None => "up to date"@,
            },
            StatusModel::Checking => "checking…"@,
            StatusModel::LocalOnly => "local build"@,
            StatusModel::Error(_) => "error"@,
        },
    }
}

/// The color of the update column.
pub open spec fn update_color(theme: ThemeModel, info: Option<UpdateModel>) -> Color {
    match info {
        None => theme.dim,
        Some(info) => match info.status {
            StatusModel::UpdateAvailable => theme.warn,
            StatusModel::UpToDate => theme.ok,
            StatusModel::Checking => theme.dim,
            StatusModel::LocalOnly => theme.dim,
            StatusModel::Error(_) => theme.err,
        },
    }
}

/// The update column.
pub open spec fn update_line(theme: ThemeModel, info: Option<UpdateModel>) -> Seq<SpanModel> {
    style::line1(update_name(info), style::colored(update_color(theme, info)))
}

/// What the update column says.
pub fn update_label(info: Option<&UpdateInfo>) -> (r: String)
    ensures
        r@ == update_name(
            (match info {
                Some(i) => Some(i@),
                None => None,
            }),
        ),
{
    match info {
        None => "-".to_string(),
        Some(info) => match &info.status {
            UpdateStatus::UpdateAvailable => match info.transition() {
                Some(t) => t,
                None => "UPDATE".to_string(),
            },
            UpdateStatus::UpToDate => match info.latest_label() {
                Some(v) => cat3("up to date (", v.as_str(), ")"),
                None => "up to date".to_string(),
            },
            UpdateStatus::Checking => "checking…".to_string(),
            UpdateStatus::LocalOnly => "local build".to_string(),
            UpdateStatus::Error(_) => "error".to_string(),
        },
    }
}

/// The update column.
pub fn update_cell(theme: &Theme, info: Option<&UpdateInfo>) -> (r: StyledLine)
    ensures
        r@ == update_line(
            theme@,
            (match info {
                Some(i) => Some(i@),
                None => None,
            }),
        ),
{
    let color = match info {
        None => theme.dim,
        Some(info) => match &info.status {
            UpdateStatus::UpdateAvailable => theme.warn,
            UpdateStatus::UpToDate => theme.ok,
            UpdateStatus::Checking => theme.dim,
            UpdateStatus::LocalOnly => theme.dim,
            UpdateStatus::Error(_) => theme.err,
        },
    };
    StyledLine::one(update_label(info), Style::of(color))
}

/// An image in its list.
pub open spec fn image_row(app: AppModel, i: int) -> RowModel {
    let image = app.images[i];
    let info = match image.primary_reference() {
        Some(r) => look_up(app.updates, r),
        None => None,
    };
    RowModel {
        cells: seq![
            style::line1(image.short_name(), style::unstyled()),
            style::line1(clock::date_text(image.version), style::colored(app.theme.fg)),
            style::line1(image.created_date(), style::colored(app.theme.dim)),
            style::line1(image.source_short(), style::colored(app.theme.secondary)),
            style::line1(util::bytes_text(image.size), style::unstyled()),
            update_line(app.theme, info),
        ],
        style: row_look(app.theme, i == app.selected),
    }
}

fn draw_image(app: &App, image: &ImageInfo, i: usize) -> (r: RowView)
    requires
        i < app@.images.len(),
        app@.images[i as int] == image@,
    ensures
        r@ == image_row(app@, i as int),
{
    let theme = app.theme();
    let update = match image.primary_reference() {
        Some(reference) => update_cell(theme, app.updates().get(reference.as_str())),
        None => update_cell(theme, None),
    };
    let version = date_or_dash(copy_option(&image.version));
    let cells = vec![
        StyledLine::one(image.short_name(), Style::plain()),
        StyledLine::one(version, Style::of(theme.fg)),
        StyledLine::one(image.created_date(), Style::of(theme.dim)),
        StyledLine::one(image.source_short(), Style::of(theme.secondary)),
        StyledLine::one(format_bytes(image.size), Style::plain()),
        update,
    ];
    let r = RowView { cells, style: row_style(theme, i == app.selected()) };
    assert(r@.cells =~= image_row(app@, i as int).cells);
    r
}

/// How wide the columns of a tab's list want to be.
pub open spec fn column_widths(tab: Tab) -> Seq<Constraint> {
    match tab {
        Tab::Images => seq![
            Constraint::Percentage(26),
            Constraint::Length(12),
            Constraint::Length(11),
            Constraint::Length(8),
            Constraint::Length(10),
            Constraint::Min(16),
        ],
        Tab::Containers => seq![
            Constraint::Percentage(20),
            Constraint::Percentage(26),
            Constraint::Length(14),
            Constraint::Length(7),
            Constraint::Length(13),
            Constraint::Min(16),
        ],
        Tab::Space => Seq::empty(),
    }
}

/// How wide the columns of a tab's list want to be.
pub fn widths_of(tab: Tab) -> (r: Vec<Constraint>)
    ensures
        r@ == column_widths(tab),
{
    let r = match tab {
        Tab::Images => vec![
            Constraint::Percentage(26),
            Constraint::Length(12),
            Constraint::Length(11),
            Constraint::Length(8),
            Constraint::Length(10),
            Constraint::Min(16),
        ],
        Tab::Containers => vec![
            Constraint::Percentage(20),
            Constraint::Percentage(26),
            Constraint::Length(14),
            Constraint::Length(7),
            Constraint::Length(13),
            Constraint::Min(16),
        ],
        Tab::Space => Vec::new(),
    };
    assert(r@ =~= column_widths(tab));
    r
}

/// What can be clicked on a tab's list: its rows and the headers of its columns.
pub open spec fn list_regions(
    app: AppModel,
    tab: Tab,
    area: Rect,
    heads: Seq<Rect>,
    base: bool,
) -> Seq<ClickRegion> {
    let count = match tab {
        Tab::Images => app.images.len(),
        Tab::Containers => app.containers.len(),
        Tab::Space => 0,
    };
    row_regions(area, count, base) + header_regions(heads, tab, base)
}

/// The images.
pub open spec fn images_view(app: AppModel, area: Rect) -> BodyModel {
    BodyModel::List {
        panel: PanelModel::list(
            app.theme,
            " Images ("@ + text::decimal(app.images.len()) + ") "@,
            area,
        ),
        table: TableModel {
            header: header(app, Tab::Images),
            rows: Seq::new(app.images.len(), |i: int| image_row(app, i)),
            widths: column_widths(Tab::Images),
            spacing: 1,
        },
    }
}

/// Draws the images.
pub fn draw_images(
    app: &App,
    area: Rect,
    heads: &[Rect; 6],
    regions: &mut Vec<ClickRegion>,
    base: bool,
) -> (r: BodyView)
    requires
        base ==> area.x < u16::MAX && area.bottom() <= u16::MAX,
    ensures
        r@ == images_view(app@, area),
        final(regions)@ == old(regions)@ + list_regions(
            app@,
            Tab::Images,
            area,
            heads@,
            base,
        ),
{
    let theme = app.theme();
    let images = app.images();
    let mut rows: Vec<RowView> = Vec::new();
    let mut i: usize = 0;
    while i < images.len()
        invariant
            images.deep_view() == app@.images,
            i <= images@.len(),
            rows@.len() == i,
            forall|j: int| 0 <= j < i ==> (#[trigger] rows@[j])@ == image_row(app@, j),
        decreases images@.len() - i,
    {
        assert(app@.images[i as int] == images@[i as int]@);
        rows.push(draw_image(app, &images[i], i));
        i = i + 1;
    }
    assert(images@.len() == app@.images.len());
    let count = decimal_usize(images.len());
    let title = cat3(" Images (", count.as_str(), ") ");
    record_rows(regions, area, images.len(), base);
    record_header(regions, heads, Tab::Images, base);
    assert(regions@ =~= old(regions)@ + list_regions(app@, Tab::Images, area, heads@, base));
    let table = TableView {
        header: sort_header(app, Tab::Images),
        rows,
        widths: widths_of(Tab::Images),
        spacing: 1,
    };
    let r = BodyView::List { panel: list_block(theme, title.as_str(), area), table };
    assert(table@.rows =~= Seq::new(app@.images.len(), |i: int| image_row(app@, i)));
    r
}

/// The CPU column and the memory column of a container.
pub open spec fn stats_texts(stats: Option<StatsModel>) -> (Seq<char>, Seq<char>) {
    match stats {
        Some(s) => (
            s.cpu_percent,
            util::bytes_text(s.mem_usage) + " ("@ + s.mem_percent + "%)"@,
        ),
        None => ("—"@, "—"@),
    }
}

/// What the state column says: the status line, or the state where there is none.
pub open spec fn state_shown(c: ContainerModel) -> Seq<char> {
    if c.status.len() == 0 {
        c.state
    } else {
        c.status
    }
}

/// What the state column says: the status line, or the state where there is none.
pub fn state_text(c: &ContainerInfo) -> (r: String)
    ensures
        r@ == state_shown(c@),
{
    if c.status.as_str().is_empty() {
        c.state.clone()
    } else {
        c.status.clone()
    }
}

/// A container in its list.
pub open spec fn container_row(app: AppModel, i: int) -> RowModel {
    let c = app.containers[i];
    let stats = stats_texts(look_up(app.stats, c.image));
    RowModel {
        cells: seq![
            style::line1(c.name, style::unstyled()),
            style::line1(c.image, style::unstyled()),
            style::line1(
                state_shown(c),
                style::colored(
                    if c.is_running() {
                        app.theme.ok
                    } else {
                        app.theme.dim
                    },
                ),
            ),
            style::line1(stats.0, style::unstyled()),
            style::line1(stats.1, style::unstyled()),
            update_line(app.theme, look_up(app.updates, c.image)),
        ],
        style: row_look(app.theme, i == app.selected),
    }
}

fn draw_container(app: &App, c: &ContainerInfo, i: usize) -> (r: RowView)
    requires
        i < app@.containers.len(),
        app@.containers[i as int] == c@,
    ensures
        r@ == container_row(app@, i as int),
{
    let theme = app.theme();
    let (cpu, mem) = match app.stats().get(c.image.as_str()) {
        Some(s) => {
            let used = format_bytes(s.mem_usage);
            (s.cpu_percent.clone(), cat4(used.as_str(), " (", s.mem_percent.as_str(), "%)"))
        },
        None => ("—".to_string(), "—".to_string()),
    };
    let state_style = if c.is_running() { Style::of(theme.ok) } else { Style::of(theme.dim) };
    let update = update_cell(theme, app.updates().get(c.image.as_str()));
    let cells = vec![
        StyledLine::one(c.display_name(), Style::plain()),
        StyledLine::one(c.image.clone(), Style::plain()),
        StyledLine::one(state_text(c), state_style),
        StyledLine::one(cpu, Style::plain()),
        StyledLine::one(mem, Style::plain()),
        update,
    ];
    let r = RowView { cells, style: row_style(theme, i == app.selected()) };
    assert(r@.cells =~= container_row(app@, i as int).cells);
    r
}

/// The containers.
pub open spec fn containers_view(app: AppModel, area: Rect) -> BodyModel {
    BodyModel::List {
        panel: PanelModel::list(
            app.theme,
            " Containers ("@ + text::decimal(app.containers.len()) + ") "@,
            area,
        ),
        table: TableModel {
            header: header(app, Tab::Containers),
            rows: Seq::new(app.containers.len(), |i: int| container_row(app, i)),
            widths: column_widths(Tab::Containers),
            spacing: 1,
        },
    }
}

/// Draws the containers.
pub fn draw_containers(
    app: &App,
    area: Rect,
    heads: &[Rect; 6],
    regions: &mut Vec<ClickRegion>,
    base: bool,
) -> (r: BodyView)
    requires
        base ==> area.x < u16::MAX && area.bottom() <= u16::MAX,
    ensures
        r@ == containers_view(app@, area),
        final(regions)@ == old(regions)@ + list_regions(
            app@,
            Tab::Containers,
            area,
            heads@,
            base,
        ),
{
    let theme = app.theme();
    let containers = app.containers();
    let mut rows: Vec<RowView> = Vec::new();
    let mut i: usize = 0;
    while i < containers.len()
        invariant
            containers.deep_view() == app@.containers,
            i <= containers@.len(),
            rows@.len() == i,
            forall|j: int| 0 <= j < i ==> (#[trigger] rows@[j])@ == container_row(app@, j),
        decreases containers@.len() - i,
    {
        assert(app@.containers[i as int] == containers@[i as int]@);
        rows.push(draw_container(app, &containers[i], i));
        i = i + 1;
    }
    assert(containers@.len() == app@.containers.len());
    let count = decimal_usize(containers.len());
    let title = cat3(" Containers (", count.as_str(), ") ");
    record_rows(regions, area, containers.len(), base);
    record_header(regions, heads, Tab::Containers, base);
    assert(regions@ =~= old(regions)@ + list_regions(app@, Tab::Containers, area, heads@, base));
    let table = TableView {
        header: sort_header(app, Tab::Containers),
        rows,
        widths: widths_of(Tab::Containers),
        spacing: 1,
    };
    let r = BodyView::List { panel: list_block(theme, title.as_str(), area), table };
    assert(table@.rows =~= Seq::new(app@.containers.len(), |i: int| container_row(app@, i)));
    r
}

// ── Space ──────────────────────────────────────────────────────────────────

/// How many cells a bar has.
pub const BAR_WIDTH: usize = 20;

/// The filled cells of a bar.
pub open spec fn filled_cells(bar: Bar) -> nat {
    if bar.filled < BAR_WIDTH {
        bar.filled as nat
    } else {
        BAR_WIDTH as nat
    }
}

/// A bar, filled so far, and the percentage behind it.
pub open spec fn bar_line(theme: ThemeModel, bar: Bar) -> Seq<SpanModel> {
    seq![
        style::piece(text::run_of('█', filled_cells(bar)), style::colored(theme.warn)),
        style::piece(
            text::run_of('░', (BAR_WIDTH - filled_cells(bar)) as nat),
            style::colored(theme.dim),
        ),
        style::piece(" "@ + bar.percent@ + "%"@, style::colored(theme.dim)),
    ]
}

/// A kind of data in the disk usage.
pub open spec fn space_row(
    theme: ThemeModel,
    label: Seq<char>,
    total: i64,
    reclaimable: i64,
    count: usize,
    bar: Bar,
) -> RowModel {
    RowModel {
        cells: seq![
            style::line1(label, style::colored(theme.fg)),
            style::line1(util::bytes_text(total), style::unstyled()),
            style::line1(util::bytes_text(reclaimable), style::colored(theme.warn)),
            style::line1(text::decimal(count as nat), style::unstyled()),
            bar_line(theme, bar),
        ],
        style: style::unstyled(),
    }
}

fn draw_space_row(
    theme: &Theme,
    label: &str,
    total: i64,
    reclaimable: i64,
    count: usize,
    bar: &Bar,
) -> (r: RowView)
    ensures
        r@ == space_row(theme@, label@, total, reclaimable, count, *bar),
{
    let filled: usize = if bar.filled < BAR_WIDTH { bar.filled } else { BAR_WIDTH };
    let bar_cell = StyledLine::three(
        span(repeat_char('█', filled), Style::of(theme.warn)),
        span(repeat_char('░', BAR_WIDTH - filled), Style::of(theme.dim)),
        span(cat3(" ", bar.percent.as_str(), "%"), Style::of(theme.dim)),
    );
    let cells = vec![
        StyledLine::one_str(label, Style::of(theme.fg)),
        StyledLine::one(format_bytes(total), Style::plain()),
        StyledLine::one(format_bytes(reclaimable), Style::of(theme.warn)),
        StyledLine::one(decimal_usize(count), Style::plain()),
        bar_cell,
    ];
    let r = RowView { cells, style: Style::plain() };
    assert(r@.cells =~= space_row(theme@, label@, total, reclaimable, count, *bar).cells);
    r
}

/// What the disk usage holds inside its border.
pub open spec fn space_inner(area: Rect) -> Rect {
    Rect {
        x: (area.x + 2) as u16,
        y: (area.y + 1) as u16,
        width: if area.width < 4 { 0 } else { (area.width - 4) as u16 },
        height: if area.height < 2 { 0 } else { (area.height - 2) as u16 },
    }
}

/// What the disk usage holds inside its border.
fn space_inside(area: Rect) -> (r: Rect)
    requires
        area.x + 2 <= u16::MAX,
        area.y < u16::MAX,
    ensures
        r == space_inner(area),
{
    Rect {
        x: area.x + 2,
        y: area.y + 1,
        width: if area.width < 4 { 0 } else { area.width - 4 },
        height: if area.height < 2 { 0 } else { area.height - 2 },
    }
}

/// The four kinds of data.
pub open spec fn space_rows(theme: ThemeModel, u: DiskUsage, bars: SpaceBars) -> Seq<RowModel> {
    seq![
        space_row(
            theme,
            "Images"@,
            u.images_total,
            u.images_reclaimable,
            u.images_count,
            bars.images,
        ),
        space_row(
            theme,
            "Containers"@,
            u.containers_total,
            u.containers_reclaimable,
            u.containers_count,
            bars.containers,
        ),
        space_row(
            theme,
            "Volumes"@,
            u.volumes_total,
            u.volumes_reclaimable,
            u.volumes_count,
            bars.volumes,
        ),
        space_row(
            theme,
            "Build cache"@,
            u.build_cache_total,
            u.build_cache_reclaimable,
            u.build_cache_count,
            bars.build_cache,
        ),
    ]
}

/// The header of the disk usage.
pub open spec fn space_header(theme: ThemeModel) -> RowModel {
    RowModel {
        cells: seq![
            style::line1("TYPE"@, style::unstyled()),
            style::line1("TOTAL"@, style::unstyled()),
            style::line1("RECLAIMABLE"@, style::unstyled()),
            style::line1("ITEMS"@, style::unstyled()),
            style::line1("RECLAIMABLE"@, style::unstyled()),
        ],
        style: style::strong(theme.secondary),
    }
}

/// What can be reclaimed in all.
pub open spec fn space_summary(theme: ThemeModel, u: DiskUsage) -> Seq<SpanModel> {
    seq![
        style::piece("TOTAL RECLAIMABLE: "@, style::colored(theme.secondary)),
        style::piece(util::bytes_text(u.reclaimable_sum() as i64), style::strong(theme.warn)),
        style::piece("   press "@, style::colored(theme.dim)),
        style::piece("p"@, style::colored(theme.accent)),
        style::piece(" to prune"@, style::colored(theme.dim)),
    ]
}

/// The disk usage. The table stands in `table_area` and the summary in `summary_area`.
pub open spec fn space_view(
    app: AppModel,
    area: Rect,
    table_area: Rect,
    summary_area: Rect,
    bars: SpaceBars,
) -> BodyModel {
    let panel = PanelModel::list(app.theme, " Disk usage (docker system df) "@, area);
    match app.usage {
        None => BodyModel::Waiting {
            panel,
            area: space_inner(area),
            line: style::line1("Loading…"@, style::colored(app.theme.dim)),
        },
        Some(u) => BodyModel::Space {
            panel,
            table_area,
            table: TableModel {
                header: space_header(app.theme),
                rows: space_rows(app.theme, u, bars),
                widths: seq![
                    Constraint::Length(12),
                    Constraint::Length(11),
                    Constraint::Length(12),
                    Constraint::Length(6),
                    Constraint::Min(20),
                ],
                spacing: 2,
            },
            summary_area,
            summary: space_summary(app.theme, u),
        },
    }
}

/// Whether the disk usage can be drawn: its area has coordinates, and its sum a value.
pub open spec fn space_fits(app: AppModel, area: Rect) -> bool {
    &&& area.x + 2 <= u16::MAX
    &&& area.y < u16::MAX
    &&& app.usage matches Some(u) ==> u.sums_fit()
}

fn draw_space_table(theme: &Theme, u: &DiskUsage, bars: &SpaceBars) -> (r: TableView)
    ensures
        r@ == (TableModel {
            header: space_header(theme@),
            rows: space_rows(theme@, *u, *bars),
            widths: seq![
                Constraint::Length(12),
                Constraint::Length(11),
                Constraint::Length(12),
                Constraint::Length(6),
                Constraint::Min(20),
            ],
            spacing: 2,
        }),
{
    let rows = vec![
        draw_space_row(
            theme,
            "Images",
            u.images_total,
            u.images_reclaimable,
            u.images_count,
            &bars.images,
        ),
        draw_space_row(
            theme,
            "Containers",
            u.containers_total,
            u.containers_reclaimable,
            u.containers_count,
            &bars.containers,
        ),
        draw_space_row(
            theme,
            "Volumes",
            u.volumes_total,
            u.volumes_reclaimable,
            u.volumes_count,
            &bars.volumes,
        ),
        draw_space_row(
            theme,
            "Build cache",
            u.build_cache_total,
            u.build_cache_reclaimable,
            u.build_cache_count,
            &bars.build_cache,
        ),
    ];
    let cells = vec![
        StyledLine::one_str("TYPE", Style::plain()),
        StyledLine::one_str("TOTAL", Style::plain()),
        StyledLine::one_str("RECLAIMABLE", Style::plain()),
        StyledLine::one_str("ITEMS", Style::plain()),
        StyledLine::one_str("RECLAIMABLE", Style::plain()),
    ];
    let r = TableView {
        header: RowView { cells, style: Style::bold_of(theme.secondary) },
        rows,
        widths: vec![
            Constraint::Length(12),
            Constraint::Length(11),
            Constraint::Length(12),
            Constraint::Length(6),
            Constraint::Min(20),
        ],
        spacing: 2,
    };
    assert(r@.rows =~= space_rows(theme@, *u, *bars));
    assert(r@.header.cells =~= space_header(theme@).cells);
    assert(r@.widths =~= seq![
        Constraint::Length(12),
        Constraint::Length(11),
        Constraint::Length(12),
        Constraint::Length(6),
        Constraint::Min(20),
    ]);
    r
}

/// Draws the disk usage, with its table in `table_area` and its summary in `summary_area`.
pub fn draw_space(
    app: &App,
    area: Rect,
    table_area: Rect,
    summary_area: Rect,
    bars: &SpaceBars,
) -> (r: BodyView)
    requires
        space_fits(app@, area),
    ensures
        r@ == space_view(app@, area, table_area, summary_area, *bars),
{
    let theme = app.theme();
    let panel = list_block(theme, " Disk usage (docker system df) ", area);
    let u = match app.usage() {
        Some(u) => u,
        None => {
            return BodyView::Waiting {
                panel,
                area: space_inside(area),
                line: StyledLine::one_str("Loading…", Style::of(theme.dim)),
            };
        },
    };
    let spans = vec![
        span_str("TOTAL RECLAIMABLE: ", Style::of(theme.secondary)),
        span(format_bytes(u.total_reclaimable()), Style::bold_of(theme.warn)),
        span_str("   press ", Style::of(theme.dim)),
        span_str("p", Style::of(theme.accent)),
        span_str(" to prune", Style::of(theme.dim)),
    ];
    let summary = StyledLine { spans };
    assert(summary@ =~= space_summary(theme@, *u));
    BodyView::Space {
        panel,
        table_area,
        table: draw_space_table(theme, u, bars),
        summary_area,
        summary,
    }
}

// ── Footer ─────────────────────────────────────────────────────────────────

/// The shortcuts of a tab that stand between the common ones.
pub open spec fn tab_shortcuts(tab: Tab) -> Seq<(Seq<char>, UiAction)> {
    match tab {
        Tab::Containers => seq![
            ("a apply"@, UiAction::Apply),
            ("s start/stop"@, UiAction::StartStop),
            ("R restart"@, UiAction::Restart),
            ("L logs"@, UiAction::Logs),
            ("w changelog"@, UiAction::Changelog),
            ("x rm"@, UiAction::Remove),
            ("d defer"@, UiAction::Defer),
            ("p prune"@, UiAction::OpenPrune),
        ],
        Tab::Images => seq![
            ("w changelog"@, UiAction::Changelog),
            ("d defer"@, UiAction::Defer),
            ("p prune"@, UiAction::OpenPrune),
        ],
        Tab::Space => seq![
            ("p prune"@, UiAction::OpenPrune),
            ("r refresh"@, UiAction::Refresh),
        ],
    }
}

/// The shortcuts of the footer, in order.
pub open spec fn shortcuts(tab: Tab) -> Seq<(Seq<char>, UiAction)> {
    seq![
        ("q quit"@, UiAction::Quit),
        (": palette"@, UiAction::OpenPalette),
        ("u check"@, UiAction::CheckSelected),
        ("U all"@, UiAction::CheckAll),
        ("⏎ details"@, UiAction::Details),
    ] + tab_shortcuts(tab) + seq![
        ("o sort"@, UiAction::CycleSort),
        ("y select"@, UiAction::ToggleMouse),
        ("T theme"@, UiAction::CycleTheme),
        ("? help"@, UiAction::Help),
    ]
}

/// The shortcuts of the footer, in order.
pub fn footer_segments(tab: Tab) -> (r: Vec<(&'static str, UiAction)>)
    ensures
        types::listed(r@) == shortcuts(tab),
{
    let mut r: Vec<(&'static str, UiAction)> = vec![
        ("q quit", UiAction::Quit),
        (": palette", UiAction::OpenPalette),
        ("u check", UiAction::CheckSelected),
        ("U all", UiAction::CheckAll),
        ("⏎ details", UiAction::Details),
    ];
    match tab {
        Tab::Containers => {
            r.push(("a apply", UiAction::Apply));
            r.push(("s start/stop", UiAction::StartStop));
            r.push(("R restart", UiAction::Restart));
            r.push(("L logs", UiAction::Logs));
            r.push(("w changelog", UiAction::Changelog));
            r.push(("x rm", UiAction::Remove));
            r.push(("d defer", UiAction::Defer));
            r.push(("p prune", UiAction::OpenPrune));
        },
        Tab::Images => {
            r.push(("w changelog", UiAction::Changelog));
            r.push(("d defer", UiAction::Defer));
            r.push(("p prune", UiAction::OpenPrune));
        },
        Tab::Space => {
            r.push(("p prune", UiAction::OpenPrune));
            r.push(("r refresh", UiAction::Refresh));
        },
    }
    r.push(("o sort", UiAction::CycleSort));
    r.push(("y select", UiAction::ToggleMouse));
    r.push(("T theme", UiAction::CycleTheme));
    r.push(("? help", UiAction::Help));
    assert(types::listed(r@) =~= shortcuts(tab));
    r
}

/// A stretch of the footer: what it shows, and what can be clicked.
pub struct KeysModel {
    pub spans: Seq<SpanModel>,
    pub regions: Seq<ClickRegion>,
}

/// The shortcuts from the one at `i` on, with `x` the column behind the one before it. The
/// first that would not fit ends the line; its separator still shows.
pub open spec fn keys_from(
    theme: ThemeModel,
    segments: Seq<(Seq<char>, UiAction)>,
    i: int,
    x: int,
    y: int,
    end: int,
) -> KeysModel
    decreases segments.len() - i,
{
    if i < 0 || i >= segments.len() {
        KeysModel { spans: Seq::empty(), regions: Seq::empty() }
    } else {
        let separator = if i > 0 {
            seq![style::piece(" · "@, style::colored(theme.border))]
        } else {
            Seq::empty()
        };
        let at = if i > 0 { x + 3 } else { x };
        let label = segments[i].0;
        if at + label.len() > end {
            KeysModel { spans: separator, regions: Seq::empty() }
        } else {
            let rest = keys_from(theme, segments, i + 1, at + label.len(), y, end);
            KeysModel {
                spans: separator.push(style::piece(label, style::colored(theme.dim)))
                    + rest.spans,
                regions: seq![
                    stretch(at, y, label.len() as int, ClickTarget::Action(segments[i].1)),
                ] + rest.regions,
            }
        }
    }
}

/// The shortcuts of the footer in their area.
pub open spec fn footer_keys(app: AppModel, keys_area: Rect) -> KeysModel {
    keys_from(
        app.theme,
        shortcuts(app.tab),
        0,
        keys_area.x as int,
        keys_area.y as int,
        keys_area.right(),
    )
}

/// The footer. The status stands in `status_area` and the shortcuts in `keys_area`.
pub open spec fn footer_view(app: AppModel, status_area: Rect, keys_area: Rect) -> FooterModel {
    FooterModel {
        status_area,
        status: seq![
            style::piece(" ● "@, style::colored(app.theme.ok)),
            style::piece(app.status_message, style::colored(app.theme.fg)),
        ],
        keys_area,
        keys: footer_keys(app, keys_area).spans,
    }
}

fn draw_keys(app: &App, area: Rect, regions: &mut Vec<ClickRegion>, base: bool) -> (r: StyledLine)
    requires
        area.right() <= u16::MAX,
    ensures
        r@ == footer_keys(app@, area).spans,
        final(regions)@ == old(regions)@ + (if base {
            footer_keys(app@, area).regions
        } else {
            Seq::empty()
        }),
{
    let theme = app.theme();
    let segments = footer_segments(app.tab());
    let ghost all = shortcuts(app@.tab);
    let ghost whole = footer_keys(app@, area);
    let ghost before = regions@;
    let end: u64 = area.x as u64 + area.width as u64;
    let mut spans: Vec<Span> = Vec::new();
    let mut x: u64 = area.x as u64;
    let mut i: usize = 0;
    let mut full = false;
    let ghost mut rest = whole;
    assert(spans.deep_view() =~= Seq::<SpanModel>::empty());
    assert(spans.deep_view() + rest.spans =~= whole.spans);
    assert(regions@ + (if base {
        rest.regions
    } else {
        Seq::empty()
    }) =~= before + (if base {
        whole.regions
    } else {
        Seq::empty()
    }));
    while i < segments.len() && !full
        invariant
            theme@ == app@.theme,
            all == shortcuts(app@.tab),
            types::listed(segments@) == all,
            segments@.len() == all.len(),
            i <= segments@.len(),
            area.x <= x <= end,
            end == area.right(),
            end <= u16::MAX,
            full ==> rest == (KeysModel { spans: Seq::empty(), regions: Seq::empty() }),
            !full ==> rest == keys_from(
                app@.theme,
                all,
                i as int,
                x as int,
                area.y as int,
                end as int,
            ),
            spans.deep_view() + rest.spans == whole.spans,
            regions@ + (if base {
                rest.regions
            } else {
                Seq::empty()
            }) == before + (if base {
                whole.regions
            } else {
                Seq::empty()
            }),
        decreases segments@.len() - i, (if full { 0int } else { 1int }),
    {
        let (label, action) = segments[i];
        let ghost was_spans = spans.deep_view();
        let ghost was_regions = regions@;
        let ghost was = rest;
        assert(all[i as int] == (label@, action));
        let mut at: u64 = x;
        if i > 0 {
            // Account for the separator before the label.
            push_span(&mut spans, span_str(" · ", Style::of(theme.border)));
            at = x + 3;
        }
        let width: u64 = label.unicode_len() as u64;
        if at > end || width > end - at {
            // Ran out of horizontal room.
            full = true;
            proof {
                rest = KeysModel { spans: Seq::empty(), regions: Seq::empty() };
                assert(spans.deep_view() =~= was_spans + was.spans);
                assert(spans.deep_view() + rest.spans =~= whole.spans);
                assert(was_regions + Seq::<ClickRegion>::empty() =~= was_regions);
            }
        } else {
            push_span(&mut spans, span_str(label, Style::of(theme.dim)));
            if base {
                push_region(
                    regions,
                    at as u16,
                    area.y,
                    width as u16,
                    ClickTarget::Action(action),
                );
            }
            x = at + width;
            i = i + 1;
            proof {
                rest = keys_from(
                    app@.theme,
                    all,
                    i as int,
                    x as int,
                    area.y as int,
                    end as int,
                );
                assert(spans.deep_view() + rest.spans =~= was_spans + was.spans);
                if base {
                    assert(regions@ + rest.regions =~= was_regions + was.regions);
                }
            }
        }
    }
    proof {
        assert(spans.deep_view() + rest.spans =~= spans.deep_view());
        assert(regions@ + Seq::<ClickRegion>::empty() =~= regions@);
    }
    StyledLine { spans }
}

/// Draws the footer, with the status in `status_area` and the shortcuts in `keys_area`.
pub fn draw_footer(
    app: &App,
    status_area: Rect,
    keys_area: Rect,
    regions: &mut Vec<ClickRegion>,
    base: bool,
) -> (r: FooterView)
    requires
        keys_area.right() <= u16::MAX,
    ensures
        r@ == footer_view(app@, status_area, keys_area),
        final(regions)@ == old(regions)@ + (if base {
            footer_keys(app@, keys_area).regions
        } else {
            Seq::empty()
        }),
{
    let theme = app.theme();
    let status = StyledLine::two(
        span_str(" ● ", Style::of(theme.ok)),
        span_str(app.status_message(), Style::of(theme.fg)),
    );
    let keys = draw_keys(app, keys_area, regions, base);
    FooterView { status_area, status, keys_area, keys }
}

// ── Laws of what is shown ──────────────────────────────────────────────────

/// The update column tells what is known of an image: an update by its two versions where they
/// are known, an image that is up to date by its version, and all else by a word of its own.
pub proof fn law_update_column_tells_the_status(theme: ThemeModel, info: UpdateModel)
    ensures
        update_name(None) == "-"@,
        info.status is UpdateAvailable && info.transition() is Some ==> update_name(Some(info))
            == info.transition()->0,
        info.status is UpdateAvailable && info.transition() is None ==> update_name(Some(info))
            == "UPDATE"@,
        info.status is UpToDate && info.latest_label() is Some ==> update_name(Some(info))
            == "up to date ("@ + info.latest_label()->0 + ")"@,
        info.status is UpToDate && info.latest_label() is None ==> update_name(Some(info))
            == "up to date"@,
        info.status is Checking ==> update_name(Some(info)) == "checking…"@,
        info.status is LocalOnly ==> update_name(Some(info)) == "local build"@,
        info.status is Error ==> update_name(Some(info)) == "error"@,
        update_line(theme, Some(info)).len() == 1,
        update_line(theme, Some(info))[0].content == update_name(Some(info)),
        info.status is UpdateAvailable ==> update_line(theme, Some(info))[0].style.fg == Some(
            theme.warn,
        ),
        info.status is UpToDate ==> update_line(theme, Some(info))[0].style.fg == Some(theme.ok),
        info.status is Error ==> update_line(theme, Some(info))[0].style.fg == Some(theme.err),
{
}

/// Each image has a row, in the order of the list, with its name, version, date, source, size and
/// update; the row that is selected, and no other, is marked.
pub proof fn law_each_image_has_its_row(app: AppModel, area: Rect, i: int)
    requires
        0 <= i < app.images.len(),
    ensures
        ({
            let image = app.images[i];
            let shown = images_view(app, area);
            let row = shown->List_table.rows[i];
            let known = match image.primary_reference() {
                Some(r) => if app.updates.contains_key(r) {
                    Some(app.updates[r])
                } else {
                    None
                },
                None => None,
            };
            &&& shown is List
            &&& shown->List_table.rows.len() == app.images.len()
            &&& row.cells.len() == 6
            &&& row.cells[0][0].content == image.short_name()
            &&& image.version matches Some(v) ==> row.cells[1][0].content == v
            &&& image.version is None ==> row.cells[1][0].content == "—"@
            &&& row.cells[2][0].content == image.created_date()
            &&& row.cells[3][0].content == image.source_short()
            &&& row.cells[4][0].content == util::bytes_text(image.size)
            &&& row.cells[5][0].content == update_name(known)
            &&& row.style.reversed <==> i == app.selected
        }),
{
}

/// Each container has a row, in the order of the list, with its name, image, status, use of CPU
/// and memory, and update; the row that is selected, and no other, is marked.
pub proof fn law_each_container_has_its_row(app: AppModel, area: Rect, i: int)
    requires
        0 <= i < app.containers.len(),
    ensures
        ({
            let c = app.containers[i];
            let shown = containers_view(app, area);
            let row = shown->List_table.rows[i];
            let known = if app.updates.contains_key(c.image) {
                Some(app.updates[c.image])
            } else {
                None
            };
            &&& shown is List
            &&& shown->List_table.rows.len() == app.containers.len()
            &&& row.cells.len() == 6
            &&& row.cells[0][0].content == c.name
            &&& row.cells[1][0].content == c.image
            &&& c.status.len() > 0 ==> row.cells[2][0].content == c.status
            &&& c.status.len() == 0 ==> row.cells[2][0].content == c.state
            &&& c.state == "running"@ ==> row.cells[2][0].style.fg == Some(app.theme.ok)
            &&& c.state != "running"@ ==> row.cells[2][0].style.fg == Some(app.theme.dim)
            &&& app.stats.contains_key(c.image) ==> row.cells[3][0].content
                == app.stats[c.image].cpu_percent && row.cells[4][0].content == util::bytes_text(
                app.stats[c.image].mem_usage,
            ) + " ("@ + app.stats[c.image].mem_percent + "%)"@
            &&& !app.stats.contains_key(c.image) ==> row.cells[3][0].content == "—"@
                && row.cells[4][0].content == "—"@
            &&& row.cells[5][0].content == update_name(known)
            &&& row.style.reversed <==> i == app.selected
        }),
{
}

/// The column that a list is sorted by shows an arrow, up from low to high and down from high to
/// low; the other columns show their labels alone.
pub proof fn law_sorted_column_shows_an_arrow(app: AppModel, label: Seq<char>, key: SortKey)
    ensures
        head(app, label, key).len() == 1,
        key != app.sort ==> head(app, label, key)[0].content == label,
        key == app.sort && app.descending ==> head(app, label, key)[0].content == label + " "@
            + "↓"@,
        key == app.sort && !app.descending ==> head(app, label, key)[0].content == label + " "@
            + "↑"@,
{
}

/// The tab that is open is the one that is marked, and each tab can be clicked where its title
/// stands: from inside the border on, a column of space on either side, three columns apart.
pub proof fn law_tabs_are_where_their_titles_are(app: AppModel, area: Rect)
    requires
        area.x + 37 <= u16::MAX,
        area.y < u16::MAX,
    ensures
        ({
            let r = tab_regions(area, true);
            &&& r.len() == 3
            &&& r[0].target == ClickTarget::Tab(Tab::Images) && r[0].rect.x == area.x + 1
                && r[0].rect.width == 8
            &&& r[1].target == ClickTarget::Tab(Tab::Containers) && r[1].rect.x == r[0].rect.x
                + r[0].rect.width + 3 && r[1].rect.width == 12
            &&& r[2].target == ClickTarget::Tab(Tab::Space) && r[2].rect.x == r[1].rect.x
                + r[1].rect.width + 3 && r[2].rect.width == 7
            &&& forall|i: int|
                0 <= i < 3 ==> (#[trigger] r[i]).rect.y == area.y + 1 && r[i].rect.height == 1
            &&& tab_regions(area, false).len() == 0
            &&& app.tab is Images ==> tabs_view(app, area).selected == 0
            &&& app.tab is Containers ==> tabs_view(app, area).selected == 1
            &&& app.tab is Space ==> tabs_view(app, area).selected == 2
        }),
{
    reveal_strlit("Images");
    reveal_strlit("Containers");
    reveal_strlit("Space");
}

/// A bar has twenty cells, filled from the left; one that is asked for more is full.
pub proof fn law_bars_keep_their_width(theme: ThemeModel, bar: Bar)
    ensures
        ({
            let line = bar_line(theme, bar);
            &&& line.len() == 3
            &&& line[0].content.len() + line[1].content.len() == BAR_WIDTH
            &&& bar.filled <= BAR_WIDTH ==> line[0].content.len() == bar.filled
            &&& bar.filled > BAR_WIDTH ==> line[1].content.len() == 0
            &&& line[2].content == " "@ + bar.percent@ + "%"@
        }),
{
}

/// The disk usage has a row for each kind of data, with what it takes, what of it can be
/// reclaimed and how many there are, and a sum of what can be reclaimed.
pub proof fn law_disk_usage_shows_each_kind(theme: ThemeModel, u: DiskUsage, bars: SpaceBars)
    requires
        u.sums_fit(),
    ensures
        ({
            let r = space_rows(theme, u, bars);
            let all = u.images_reclaimable + u.containers_reclaimable + u.volumes_reclaimable
                + u.build_cache_reclaimable;
            &&& r.len() == 4
            &&& r[0].cells[0][0].content == "Images"@ && r[0].cells[1][0].content
                == util::bytes_text(u.images_total) && r[0].cells[2][0].content
                == util::bytes_text(u.images_reclaimable) && r[0].cells[3][0].content
                == text::decimal(u.images_count as nat)
            &&& r[1].cells[0][0].content == "Containers"@ && r[1].cells[1][0].content
                == util::bytes_text(u.containers_total) && r[1].cells[2][0].content
                == util::bytes_text(u.containers_reclaimable) && r[1].cells[3][0].content
                == text::decimal(u.containers_count as nat)
            &&& r[2].cells[0][0].content == "Volumes"@ && r[2].cells[1][0].content
                == util::bytes_text(u.volumes_total) && r[2].cells[2][0].content
                == util::bytes_text(u.volumes_reclaimable) && r[2].cells[3][0].content
                == text::decimal(u.volumes_count as nat)
            &&& r[3].cells[0][0].content == "Build cache"@ && r[3].cells[1][0].content
                == util::bytes_text(u.build_cache_total) && r[3].cells[2][0].content
                == util::bytes_text(u.build_cache_reclaimable) && r[3].cells[3][0].content
                == text::decimal(u.build_cache_count as nat)
            &&& space_summary(theme, u)[1].content == util::bytes_text(all as i64)
        }),
{
}

/// The status line says the last message.
pub proof fn law_footer_says_the_message(app: AppModel, status_area: Rect, keys_area: Rect)
    ensures
        footer_view(app, status_area, keys_area).status[1].content == app.status_message,
        footer_view(app, status_area, keys_area).status.len() == 2,
{
}

/// A shortcut that fits is shown behind a separator, but for the first, and can be clicked exactly
/// where its label stands; the shortcuts behind it go on from there.
pub proof fn law_shortcuts_stand_side_by_side(
    theme: ThemeModel,
    segments: Seq<(Seq<char>, UiAction)>,
    i: int,
    x: int,
    y: int,
    end: int,
)
    requires
        0 <= i < segments.len(),
        0 <= x,
        0 <= y <= u16::MAX,
        end <= u16::MAX,
    ensures
        ({
            let at = if i > 0 { x + 3 } else { x };
            let n = segments[i].0.len();
            let k = keys_from(theme, segments, i, x, y, end);
            let rest = keys_from(theme, segments, i + 1, at + n, y, end);
            let skip: int = if i > 0 { 1 } else { 0 };
            &&& at + n <= end ==> {
                &&& k.regions.len() == rest.regions.len() + 1
                &&& k.regions[0].rect == (Rect {
                    x: at as u16,
                    y: y as u16,
                    width: n as u16,
                    height: 1,
                })
                &&& k.regions[0].target == ClickTarget::Action(segments[i].1)
                &&& k.regions.skip(1) == rest.regions
                &&& k.spans.len() == rest.spans.len() + 1 + skip
                &&& k.spans[skip].content == segments[i].0
                &&& k.spans.skip(skip + 1) == rest.spans
            }
            &&& at + n > end ==> k.regions.len() == 0 && k.spans.len() == skip
        }),
{
    let at = if i > 0 { x + 3 } else { x };
    let n = segments[i].0.len();
    let k = keys_from(theme, segments, i, x, y, end);
    let rest = keys_from(theme, segments, i + 1, at + n, y, end);
    let skip: int = if i > 0 { 1 } else { 0 };
    if at + n <= end {
        assert(k.regions.skip(1) =~= rest.regions);
        assert(k.spans.skip(skip + 1) =~= rest.spans);
    }
}

/// The footer of each tab offers what can be done there, and everywhere to quit, to open the
/// palette, to check and to get help.
pub proof fn law_footer_offers_what_can_be_done(tab: Tab)
    ensures
        ({
            let offers = |a: UiAction|
                exists|i: int| 0 <= i < shortcuts(tab).len() && (#[trigger] shortcuts(tab)[i]).1 == a;
            &&& offers(UiAction::Quit) && offers(UiAction::OpenPalette) && offers(UiAction::Help)
            &&& offers(UiAction::CheckSelected) && offers(UiAction::CheckAll)
            &&& offers(UiAction::Details) && offers(UiAction::OpenPrune)
            &&& tab is Containers ==> offers(UiAction::Apply) && offers(UiAction::StartStop)
                && offers(UiAction::Restart) && offers(UiAction::Logs) && offers(UiAction::Remove)
            &&& !(tab is Space) ==> offers(UiAction::Changelog) && offers(UiAction::Defer)
            &&& tab is Space ==> offers(UiAction::Refresh)
        }),
{
    let s = shortcuts(tab);
    let n = tab_shortcuts(tab).len() as int;
    assert(s[0].1 == UiAction::Quit && s[1].1 == UiAction::OpenPalette);
    assert(s[2].1 == UiAction::CheckSelected && s[3].1 == UiAction::CheckAll);
    assert(s[4].1 == UiAction::Details);
    assert(s[5 + n + 3].1 == UiAction::Help);
    assert forall|i: int| 0 <= i < n implies #[trigger] s[5 + i] == tab_shortcuts(tab)[i] by {}
    match tab {
        Tab::Containers => {
            assert(s[5].1 == UiAction::Apply && s[6].1 == UiAction::StartStop);
            assert(s[7].1 == UiAction::Restart && s[8].1 == UiAction::Logs);
            assert(s[9].1 == UiAction::Changelog && s[10].1 == UiAction::Remove);
            assert(s[11].1 == UiAction::Defer && s[12].1 == UiAction::OpenPrune);
        },
        Tab::Images => {
            assert(s[5].1 == UiAction::Changelog && s[6].1 == UiAction::Defer);
            assert(s[7].1 == UiAction::OpenPrune);
        },
        Tab::Space => {
            assert(s[5].1 == UiAction::OpenPrune && s[6].1 == UiAction::Refresh);
        },
    }
}

} // verus!
