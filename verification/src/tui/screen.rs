//! The whole screen: what stands where, and what can be clicked.

use vstd::prelude::*;
use crate::clock::Timestamp;
use crate::text;
use crate::tui::app::App;
use crate::tui::laws;
use crate::tui::layout;
use crate::tui::layout::{centered_rect, columns, three_rows, two_rows, Constraint, Direction};
use crate::tui::model;
use crate::tui::model::AppModel;
use crate::tui::overlays;
use crate::tui::overlays::{
    can_draw_details, can_draw_palette, draw_apply_progress, draw_confirm, draw_help, draw_palette, draw_prune_menu,
    draw_scroll_overlay, draw_update_details,
};
use crate::tui::types;
use crate::tui::types::{
    ClickRegion, ClickTarget, Overlay, OverlayModel, PaletteAction, Rect, Tab, UiAction,
};
use crate::tui::ui;
use crate::tui::ui::{
    draw_containers, draw_footer, draw_images, draw_space, draw_tabs, inside, widths_of,
};
use crate::tui::view::{
    BodyModel, BodyView, PopupModel, PopupView, Screen, ScreenModel, SpaceBars,
};

verus! {

/// Where the parts of the screen stand.
#[derive(Debug, Clone, Copy)]
pub struct Areas {
    pub tabs: Rect,
    pub body: Rect,
    /// The headers of the columns of a list.
    pub heads: [Rect; 6],
    pub status: Rect,
    pub keys: Rect,
    /// The table of the disk usage, and the summary below it.
    pub space_table: Rect,
    pub space_summary: Rect,
    /// The open overlay.
    pub popup: Rect,
}

/// Whether a part spans the screen from side to side.
pub open spec fn spans(part: Rect, screen: Rect) -> bool {
    part.within(screen) && part.x == screen.x && part.width == screen.width
}

impl Areas {
    /// Whether the parts stand on the screen: the tabs, the body and the footer from side to
    /// side, the disk usage within the body, and the overlay anywhere.
    pub open spec fn on(self, screen: Rect) -> bool {
        &&& spans(self.tabs, screen)
        &&& spans(self.body, screen)
        &&& spans(self.status, screen)
        &&& spans(self.keys, screen)
        &&& self.popup.within(screen) || self.popup == Rect::nowhere()
        &&& self.space_table.within(ui::space_inner(self.body)) || self.space_table
            == Rect::nowhere()
        &&& self.space_summary.within(ui::space_inner(self.body)) || self.space_summary
            == Rect::nowhere()
    }
}

/// How many percent of the screen an overlay takes, across and down.
pub open spec fn popup_share(overlay: OverlayModel) -> Option<(u16, u16)> {
    match overlay {
        OverlayModel::Closed => None,
        OverlayModel::Help => Some((64, 60)),
        OverlayModel::Prune => Some((50, 45)),
        OverlayModel::Palette => Some((60, 60)),
        OverlayModel::UpdateDetails => Some((66, 55)),
        OverlayModel::ApplyProgress => Some((70, 76)),
        OverlayModel::Confirm(_) => Some((56, 22)),
        OverlayModel::Logs => Some((84, 80)),
        OverlayModel::Changelog => Some((84, 80)),
    }
}

/// How many percent of the screen an overlay takes, across and down.
pub fn share_of(overlay: &Overlay) -> (r: Option<(u16, u16)>)
    ensures
        r == popup_share(overlay@),
{
    match overlay {
        Overlay::Closed => None,
        Overlay::Help => Some((64, 60)),
        Overlay::Prune => Some((50, 45)),
        Overlay::Palette => Some((60, 60)),
        Overlay::UpdateDetails => Some((66, 55)),
        Overlay::ApplyProgress => Some((70, 76)),
        Overlay::Confirm(_) => Some((56, 22)),
        Overlay::Logs => Some((84, 80)),
        Overlay::Changelog => Some((84, 80)),
    }
}

/// Where the table of the disk usage and the summary below it stand: the summary takes the last
/// two rows, but leaves one to the table. There is no place for them where the frame reaches the
/// end of the coordinates.
pub open spec fn space_parts(body: Rect) -> (Rect, Rect) {
    if body.x > u16::MAX - 2 || body.y == u16::MAX {
        (Rect::nowhere(), Rect::nowhere())
    } else {
        let inner = ui::space_inner(body);
        let rows = layout::lead(1, 2, inner.height as int);
        (
            layout::band(inner, Direction::Vertical, 0, rows),
            layout::band(inner, Direction::Vertical, rows, inner.height as int),
        )
    }
}

/// Divides the disk usage into its table and, below it, two rows for the summary.
fn divide_space(body: Rect) -> (r: (Rect, Rect))
    requires
        body.on_grid(),
    ensures
        r == space_parts(body),
        r.0.within(ui::space_inner(body)) || r.0 == Rect::nowhere(),
        r.1.within(ui::space_inner(body)) || r.1 == Rect::nowhere(),
{
    if body.x > u16::MAX - 2 || body.y == u16::MAX {
        let none = Rect { x: 0, y: 0, width: 0, height: 0 };
        return (none, none);
    }
    let inner = Rect {
        x: body.x + 2,
        y: body.y + 1,
        width: if body.width < 4 { 0 } else { body.width - 4 },
        height: if body.height < 2 { 0 } else { body.height - 2 },
    };
    assert(inner == ui::space_inner(body));
    proof {
        lemma_kinds();
    }
    two_rows(inner, Constraint::Min(1), Constraint::Length(2))
}

/// The row of a list's frame that holds the headers of the columns. It sits on the first line
/// inside the block border.
pub open spec fn head_row(body: Rect) -> Rect {
    Rect {
        x: (body.x + 1) as u16,
        y: (body.y + 1) as u16,
        width: ui::inner_width(body) as u16,
        height: 1,
    }
}

/// Whether the headers of a list's columns stand in its first row, each where its column is, as
/// far as the columns get the width they want, or all but a single percentage. There is no place
/// for them where the frame reaches the end of the coordinates.
pub open spec fn headed(heads: Seq<Rect>, tab: Tab, body: Rect) -> bool {
    let row = head_row(body);
    if body.x == u16::MAX || body.y == u16::MAX {
        forall|i: int| 0 <= i < 6 ==> #[trigger] heads[i] == Rect::nowhere()
    } else {
        &&& forall|i: int|
            0 <= i < 6 ==> (#[trigger] heads[i]).within(row) && heads[i].y == row.y
                && heads[i].height == 1
        &&& layout::fit(ui::column_widths(tab), row.width as int, 1) ==> forall|i: int|
            0 <= i < 6 ==> #[trigger] heads[i] == layout::place(
                row,
                Direction::Horizontal,
                ui::column_widths(tab),
                1,
                i,
            )
    }
}

/// A rectangle in another row.
fn in_row(r: Rect, y: u16) -> (l: Rect)
    ensures
        l == (Rect { y, ..r }),
{
    Rect { x: r.x, y, width: r.width, height: r.height }
}

/// Where the headers of a list's columns stand.
fn divide_header(tab: Tab, body: Rect) -> (r: [Rect; 6])
    requires
        body.on_grid(),
        !(tab is Space),
    ensures
        headed(r@, tab, body),
{
    let none = Rect { x: 0, y: 0, width: 0, height: 0 };
    if body.x == u16::MAX || body.y == u16::MAX {
        return [none, none, none, none, none, none];
    }
    let width = inside(body);
    let y: u16 = body.y + 1;
    // The columns do not depend on the row.
    let top = Rect { x: body.x + 1, y: 0, width, height: 1 };
    let parts = columns(top, &widths_of(tab), 1);
    let r = [
        in_row(parts[0], y),
        in_row(parts[1], y),
        in_row(parts[2], y),
        in_row(parts[3], y),
        in_row(parts[4], y),
        in_row(parts[5], y),
    ];
    assert forall|i: int| 0 <= i < 6 implies #[trigger] r@[i] == (Rect { y, ..parts@[i] }) by {}
    assert forall|i: int| 0 <= i < 6 implies (#[trigger] r@[i]).within(head_row(body))
        && r@[i].y == y && r@[i].height == 1 by {
        assert(parts@[i].within(top));
    }
    proof {
        if layout::fit(ui::column_widths(tab), width as int, 1) {
            assert forall|i: int| 0 <= i < 6 implies #[trigger] r@[i] == layout::place(
                head_row(body),
                Direction::Horizontal,
                ui::column_widths(tab),
                1,
                i,
            ) by {
                assert(parts@[i] == layout::place(
                    top,
                    Direction::Horizontal,
                    ui::column_widths(tab),
                    1,
                    i,
                ));
            }
        }
    }
    r
}

/// Rows of the screen from side to side.
pub open spec fn rows_of(screen: Rect, from: int, to: int) -> Rect {
    layout::band(screen, Direction::Vertical, from, to)
}

impl Areas {
    /// Whether the tabs take the first three rows of the screen, the status and the shortcuts
    /// the last two, and the body all between.
    pub open spec fn stacked(self, screen: Rect) -> bool {
        &&& self.tabs == rows_of(screen, 0, 3)
        &&& self.body == rows_of(screen, 3, screen.height - 2)
        &&& self.status == rows_of(screen, screen.height - 2, screen.height - 1)
        &&& self.keys == rows_of(screen, screen.height - 1, screen.height as int)
    }

    /// Whether the tabs, the body, the status and the shortcuts follow each other from the top of
    /// the screen to its end, however low it is: the body has what three rows above it and two
    /// below it leave, but a row as long as there is one, and the others no more than those.
    pub open spec fn filled(self, screen: Rect) -> bool {
        &&& self.tabs.y == screen.y
        &&& self.body.y == self.tabs.bottom()
        &&& self.status.y == self.body.bottom()
        &&& self.keys.y == self.status.bottom()
        &&& self.keys.bottom() == screen.bottom()
        &&& self.body.height == layout::lead(1, 5, screen.height as int)
        &&& self.tabs.height <= 3
        &&& self.status.height <= 1
        &&& self.keys.height <= 1
    }

    /// Whether the parts that only some screens have stand where they belong, and nowhere on the
    /// others.
    pub open spec fn completed(self, app: AppModel, screen: Rect) -> bool {
        &&& (self.space_table, self.space_summary) == (if app.tab is Space {
            space_parts(self.body)
        } else {
            (Rect::nowhere(), Rect::nowhere())
        })
        &&& if app.tab is Space {
            forall|i: int| 0 <= i < 6 ==> #[trigger] self.heads@[i] == Rect::nowhere()
        } else {
            headed(self.heads@, app.tab, self.body)
        }
        &&& self.popup == match popup_share(app.overlay) {
            Some((across, down)) => layout::centered(across as int, down as int, screen),
            None => Rect::nowhere(),
        }
    }
}

/// The tabs, the body and the footer fit into six rows or more.
proof fn lemma_stack(rows: int)
    requires
        rows >= 6,
    ensures
        ({
            let parts = seq![Constraint::Length(3), Constraint::Min(1), Constraint::Length(2)];
            &&& layout::fit(parts, rows, 0)
            &&& layout::begins(parts, rows, 0, 1) == 300
            &&& layout::begins(parts, rows, 0, 2) == 100 * (rows - 2)
        }),
{
    let parts = seq![Constraint::Length(3), Constraint::Min(1), Constraint::Length(2)];
    let two = seq![Constraint::Length(3), Constraint::Min(1)];
    assert(parts.drop_last() =~= two);
    assert(two.drop_last() =~= seq![Constraint::Length(3)]);
    assert(seq![Constraint::Length(3)].drop_last() =~= Seq::<Constraint>::empty());
    reveal_with_fuel(layout::asks, 4);
    reveal_with_fuel(layout::minimums, 4);
    reveal_with_fuel(layout::begins, 3);
}

/// The status and the shortcuts fit into the two rows of the footer.
proof fn lemma_footer()
    ensures
        ({
            let parts = seq![Constraint::Length(1), Constraint::Length(1)];
            &&& layout::fit(parts, 2, 0)
            &&& layout::begins(parts, 2, 0, 1) == 100
        }),
{
    let parts = seq![Constraint::Length(1), Constraint::Length(1)];
    assert(parts.drop_last() =~= seq![Constraint::Length(1)]);
    assert(seq![Constraint::Length(1)].drop_last() =~= Seq::<Constraint>::empty());
    reveal_with_fuel(layout::asks, 3);
    reveal_with_fuel(layout::minimums, 3);
    reveal_with_fuel(layout::begins, 2);
}

/// What the rows of the screen and of its footer, and those of the disk usage, ask for.
proof fn lemma_kinds()
    ensures
        ({
            let stack = seq![Constraint::Length(3), Constraint::Min(1), Constraint::Length(2)];
            let footer = seq![Constraint::Length(1), Constraint::Length(1)];
            let space = seq![Constraint::Min(1), Constraint::Length(2)];
            &&& layout::one_minimum(stack) && layout::percentages(stack) == 0
            &&& layout::minimums(stack) == 1 && layout::lengths(stack) == 5
            &&& layout::one_minimum(footer) && layout::percentages(footer) == 0
            &&& layout::minimums(footer) == 0 && layout::lengths(footer) == 2
            &&& layout::one_minimum(space) && layout::percentages(space) == 0
            &&& layout::minimums(space) == 1 && layout::lengths(space) == 2
        }),
{
    let stack = seq![Constraint::Length(3), Constraint::Min(1), Constraint::Length(2)];
    let footer = seq![Constraint::Length(1), Constraint::Length(1)];
    let space = seq![Constraint::Min(1), Constraint::Length(2)];
    let two = seq![Constraint::Length(3), Constraint::Min(1)];
    assert(stack.drop_last() =~= two);
    assert(two.drop_last() =~= seq![Constraint::Length(3)]);
    assert(seq![Constraint::Length(3)].drop_last() =~= Seq::<Constraint>::empty());
    assert(footer.drop_last() =~= seq![Constraint::Length(1)]);
    assert(seq![Constraint::Length(1)].drop_last() =~= Seq::<Constraint>::empty());
    assert(space.drop_last() =~= seq![Constraint::Min(1)]);
    assert(seq![Constraint::Min(1)].drop_last() =~= Seq::<Constraint>::empty());
    reveal_with_fuel(layout::minimums, 4);
    reveal_with_fuel(layout::percentages, 4);
    reveal_with_fuel(layout::lengths, 4);
}

/// Divides the screen: the tabs, the body and the footer from top to bottom, the footer into
/// the status and the shortcuts, and the overlay in the middle. How the tabs and the footer share
/// fewer than six rows is left to the layout.
pub fn lay_out(app: &App, screen: Rect) -> (r: Areas)
    requires
        screen.on_grid(),
    ensures
        r.on(screen),
        r.completed(app@, screen),
        r.filled(screen),
        screen.height >= 6 ==> r.stacked(screen),
{
    let rows = three_rows(
        screen,
        Constraint::Length(3),
        Constraint::Min(1),
        Constraint::Length(2),
    );
    let footer = two_rows(rows.2, Constraint::Length(1), Constraint::Length(1));
    proof {
        if screen.height >= 6 {
            lemma_stack(screen.height as int);
            lemma_footer();
        }
        lemma_kinds();
    }
    let none = Rect { x: 0, y: 0, width: 0, height: 0 };
    let space = if app.tab() == Tab::Space { divide_space(rows.1) } else { (none, none) };
    let heads = if app.tab() == Tab::Space { [none, none, none, none, none, none] } else {
        divide_header(app.tab(), rows.1)
    };
    let popup = match share_of(app.overlay()) {
        Some((across, down)) => centered_rect(across, down, screen),
        None => none,
    };
    Areas {
        tabs: rows.0,
        body: rows.1,
        heads,
        status: footer.0,
        keys: footer.1,
        space_table: space.0,
        space_summary: space.1,
        popup,
    }
}

/// Whether the body can be drawn.
pub open spec fn body_fits(app: AppModel, areas: Areas) -> bool {
    match app.tab {
        Tab::Space => ui::space_fits(app, areas.body),
        _ => app.overlay is Closed ==> areas.body.x < u16::MAX && areas.body.y < u16::MAX
            && areas.body.bottom() <= u16::MAX,
    }
}

/// Whether the overlay can be drawn.
pub open spec fn popup_fits(app: AppModel, areas: Areas) -> bool {
    match app.overlay {
        OverlayModel::Prune => overlays::prune_fits(app, areas.popup),
        OverlayModel::Palette => overlays::palette_fits(app.palette_matches().len(), areas.popup),
        OverlayModel::UpdateDetails => overlays::details_fit(app, areas.popup),
        OverlayModel::Confirm(_) => overlays::confirm_fits(areas.popup),
        _ => true,
    }
}

/// Whether everything has coordinates, and every sum a value.
pub open spec fn drawable(app: AppModel, areas: Areas) -> bool {
    &&& app.overlay is Closed ==> ui::tabs_fit(areas.tabs)
    &&& body_fits(app, areas)
    &&& areas.keys.right() <= u16::MAX
    &&& popup_fits(app, areas)
}

/// Whether what can be reclaimed can be added up.
fn can_sum(app: &App) -> (r: bool)
    ensures
        r == (app@.usage matches Some(u) ==> u.sums_fit()),
{
    match app.usage() {
        Some(u) => u.can_total(),
        None => true,
    }
}

/// Whether everything has coordinates, and every sum a value.
pub fn can_draw(app: &App, areas: &Areas) -> (r: bool)
    ensures
        r == drawable(app@, *areas),
{
    let tabs = !app.overlay().is_closed() || (areas.tabs.x <= u16::MAX - 37 && areas.tabs.y
        < u16::MAX);
    let body = if app.tab() == Tab::Space {
        areas.body.x <= u16::MAX - 2 && areas.body.y < u16::MAX && can_sum(app)
    } else {
        !app.overlay().is_closed() || (areas.body.x < u16::MAX && areas.body.y < u16::MAX
            && areas.body.y as u32 + areas.body.height as u32 <= u16::MAX as u32)
    };
    let keys = areas.keys.x as u32 + areas.keys.width as u32 <= u16::MAX as u32;
    let at = areas.popup;
    let popup = match app.overlay() {
        Overlay::Prune => at.x < u16::MAX && at.y <= u16::MAX - 8 && can_sum(app),
        Overlay::Palette => can_draw_palette(app, at),
        Overlay::UpdateDetails => can_draw_details(app, at),
        Overlay::Confirm(_) => at.y <= u16::MAX - 3 && at.x as u32 + (at.width / 2) as u32 + 3
            <= u16::MAX as u32,
        _ => true,
    };
    tabs && body && keys && popup
}

/// What stands between the tabs and the footer.
pub open spec fn body_view(app: AppModel, areas: Areas, bars: SpaceBars) -> BodyModel {
    match app.tab {
        Tab::Images => ui::images_view(app, areas.body),
        Tab::Containers => ui::containers_view(app, areas.body),
        Tab::Space => ui::space_view(
            app,
            areas.body,
            areas.space_table,
            areas.space_summary,
            bars,
        ),
    }
}

/// The open overlay.
pub open spec fn popup_view(app: AppModel, areas: Areas, now: Timestamp) -> Option<PopupModel> {
    match app.overlay {
        OverlayModel::Closed => None,
        OverlayModel::Help => Some(overlays::help_view(app, areas.popup)),
        OverlayModel::Prune => Some(overlays::prune_view(app, areas.popup)),
        OverlayModel::Palette => Some(
            overlays::palette_view(app, app.palette_matches(), areas.popup),
        ),
        OverlayModel::UpdateDetails => Some(overlays::details_view(app, areas.popup, now)),
        OverlayModel::ApplyProgress => overlays::progress_view(app, areas.popup),
        OverlayModel::Confirm(action) => Some(
            overlays::confirm_view(app, action, areas.popup),
        ),
        OverlayModel::Logs => Some(overlays::scroll_view(app, areas.popup)),
        OverlayModel::Changelog => Some(overlays::scroll_view(app, areas.popup)),
    }
}

/// What can be clicked between the tabs and the footer.
pub open spec fn body_regions(app: AppModel, areas: Areas) -> Seq<ClickRegion> {
    if app.tab is Space {
        Seq::empty()
    } else {
        ui::list_regions(app, app.tab, areas.body, areas.heads@, app.overlay is Closed)
    }
}

/// What can be clicked on the base: the tabs, the rows of the list and the shortcuts where no
/// overlay is open, and nothing where one is.
pub open spec fn base_regions(app: AppModel, areas: Areas) -> Seq<ClickRegion> {
    if app.overlay is Closed {
        ui::tab_regions(areas.tabs, true) + body_regions(app, areas) + ui::footer_keys(app, areas.keys).regions
    } else {
        Seq::empty()
    }
}

/// What can be clicked on the overlay.
pub open spec fn popup_regions(app: AppModel, areas: Areas, now: Timestamp) -> Seq<ClickRegion> {
    match app.overlay {
        OverlayModel::Prune => overlays::prune_regions(areas.popup),
        OverlayModel::Palette => overlays::palette_regions(
            areas.popup,
            app.palette_matches().len(),
        ),
        OverlayModel::UpdateDetails => overlays::details_regions(app, areas.popup, now),
        OverlayModel::Confirm(_) => overlays::confirm_regions(areas.popup),
        _ => Seq::empty(),
    }
}

/// The screen with its parts in these areas.
pub open spec fn screen_view(
    app: AppModel,
    areas: Areas,
    bars: SpaceBars,
    now: Timestamp,
) -> ScreenModel {
    ScreenModel {
        tabs: ui::tabs_view(app, areas.tabs),
        body: body_view(app, areas, bars),
        footer: ui::footer_view(app, areas.status, areas.keys),
        popup: popup_view(app, areas, now),
        regions: base_regions(app, areas) + popup_regions(app, areas, now),
    }
}

fn draw_body(app: &App, areas: &Areas, bars: &SpaceBars, regions: &mut Vec<ClickRegion>) -> (r:
    BodyView)
    requires
        body_fits(app@, *areas),
    ensures
        r@ == body_view(app@, *areas, *bars),
        final(regions)@ == old(regions)@ + body_regions(app@, *areas),
{
    let base = app.overlay().is_closed();
    match app.tab() {
        Tab::Images => draw_images(app, areas.body, &areas.heads, regions, base),
        Tab::Containers => draw_containers(app, areas.body, &areas.heads, regions, base),
        Tab::Space => {
            assert(regions@ =~= regions@ + Seq::<ClickRegion>::empty());
            draw_space(app, areas.body, areas.space_table, areas.space_summary, bars)
        },
    }
}

fn draw_popup(app: &App, areas: &Areas, regions: &mut Vec<ClickRegion>, now: Timestamp) -> (r:
    Option<PopupView>)
    requires
        popup_fits(app@, *areas),
    ensures
        r.deep_view() == popup_view(app@, *areas, now),
        final(regions)@ == old(regions)@ + popup_regions(app@, *areas, now),
{
    let at = areas.popup;
    assert(regions@ =~= regions@ + Seq::<ClickRegion>::empty());
    match app.overlay() {
        Overlay::Closed => None,
        Overlay::Help => Some(draw_help(app, at)),
        Overlay::Prune => Some(draw_prune_menu(app, at, regions)),
        Overlay::Palette => Some(draw_palette(app, at, regions)),
        Overlay::UpdateDetails => Some(draw_update_details(app, at, regions, now)),
        Overlay::ApplyProgress => draw_apply_progress(app, at),
        Overlay::Confirm(action) => Some(draw_confirm(app, action, at, regions)),
        Overlay::Logs | Overlay::Changelog => Some(draw_scroll_overlay(app, at)),
    }
}

/// Draws the screen with its parts in these areas.
pub fn draw_in(app: &App, areas: &Areas, bars: &SpaceBars, now: Timestamp) -> (r: Screen)
    requires
        drawable(app@, *areas),
    ensures
        r@ == screen_view(app@, *areas, *bars, now),
{
    let mut regions: Vec<ClickRegion> = Vec::new();
    let base = app.overlay().is_closed();
    let tabs = draw_tabs(app, areas.tabs, &mut regions, base);
    let body = draw_body(app, areas, bars, &mut regions);
    let footer = draw_footer(app, areas.status, areas.keys, &mut regions, base);
    assert(regions@ =~= base_regions(app@, *areas));
    let popup = draw_popup(app, areas, &mut regions, now);
    Screen { tabs, body, footer, popup, regions }
}

/// There are no more matches than entries in the catalog.
proof fn lemma_matches_bounded(catalog: Seq<(Seq<char>, PaletteAction)>, query: Seq<char>)
    ensures
        model::matching(catalog, query).len() <= catalog.len(),
    decreases catalog.len(),
{
    if catalog.len() > 0 {
        lemma_matches_bounded(catalog.drop_last(), query);
    }
}

/// Whether there is room to spare to the right of the screen and below it.
pub open spec fn roomy(screen: Rect) -> bool {
    screen.right() + 37 <= u16::MAX && screen.bottom() + 13 <= u16::MAX
}

/// Top-level draw entry point: the screen, or `None` where a coordinate or the sum of what can
/// be reclaimed would be out of range.
pub fn draw(app: &App, screen: Rect, bars: &SpaceBars, now: Timestamp) -> (r: Option<Screen>)
    requires
        screen.on_grid(),
    ensures
        exists|areas: Areas|
            areas.on(screen) && areas.completed(app@, screen) && areas.filled(screen) && (
            screen.height >= 6 ==> areas.stacked(screen)) && (r is Some <==> #[trigger] drawable(app@, areas))
                && (r matches Some(s) ==> s@ == screen_view(app@, areas, *bars, now)),
        roomy(screen) && (app@.usage matches Some(u) ==> u.sums_fit()) ==> r is Some,
{
    let areas = lay_out(app, screen);
    proof {
        lemma_matches_bounded(PaletteAction::labels(), text::lowercase(app@.palette_query));
    }
    if can_draw(app, &areas) {
        Some(draw_in(app, &areas, bars, now))
    } else {
        None
    }
}

// ── Laws ───────────────────────────────────────────────────────────────────

/// Whether a region is not that of a row.
spec fn no_row(region: ClickRegion) -> bool {
    !(region.target is Row)
}

proof fn lemma_keys_are_actions(
    theme: crate::theme::ThemeModel,
    segments: Seq<(Seq<char>, UiAction)>,
    i: int,
    x: int,
    y: int,
    end: int,
)
    ensures
        forall|j: int|
            0 <= j < ui::keys_from(theme, segments, i, x, y, end).regions.len() ==> no_row(
                #[trigger] ui::keys_from(theme, segments, i, x, y, end).regions[j],
            ),
    decreases segments.len() - i,
{
    if 0 <= i < segments.len() {
        let at = if i > 0 { x + 3 } else { x };
        let next = at + segments[i].0.len();
        lemma_keys_are_actions(theme, segments, i + 1, next, y, end);
        let rest = ui::keys_from(theme, segments, i + 1, next, y, end).regions;
        let all = ui::keys_from(theme, segments, i, x, y, end).regions;
        assert forall|j: int| 0 <= j < all.len() implies no_row(#[trigger] all[j]) by {
            if j > 0 {
                assert(all[j] == rest[j - 1]);
            }
        }
    }
}

/// Every row that a drawn screen lets one click is there, so that clicking keeps the selection
/// on a row.
pub proof fn law_recorded_rows_are_there(
    app: AppModel,
    areas: Areas,
    bars: SpaceBars,
    now: Timestamp,
)
    requires
        app.row_count() <= usize::MAX,
    ensures
        laws::rows_fit(
            (AppModel { regions: screen_view(app, areas, bars, now).regions, ..app }),
        ),
{
    let drawn = screen_view(app, areas, bars, now).regions;
    let base = app.overlay is Closed;
    let tabs = ui::tab_regions(areas.tabs, base);
    let rows = body_regions(app, areas);
    let keys = if base {
        ui::footer_keys(app, areas.keys).regions
    } else {
        Seq::empty()
    };
    let popup = popup_regions(app, areas, now);
    lemma_keys_are_actions(
        app.theme,
        ui::shortcuts(app.tab),
        0,
        areas.keys.x as int,
        areas.keys.y as int,
        areas.keys.right(),
    );
    assert(drawn =~= tabs + rows + keys + popup);
    assert forall|i: int| 0 <= i < drawn.len() implies match (#[trigger] drawn[i]).target {
        ClickTarget::Row(row) => row < app.row_count(),
        _ => true,
    } by {
        let a = tabs.len() as int;
        let b = a + rows.len();
        let c = b + keys.len();
        if i < a {
            assert(drawn[i] == tabs[i]);
        } else if i < b {
            assert(drawn[i] == rows[i - a]);
            let list = ui::row_regions(areas.body, app.row_count(), base);
            let heads = ui::header_regions(areas.heads@, app.tab, base);
            if i - a < list.len() {
                assert(rows[i - a] == list[i - a]);
            } else {
                assert(rows[i - a] == heads[i - a - list.len()]);
            }
        } else if i < c {
            assert(drawn[i] == keys[i - b]);
            assert(no_row(keys[i - b]));
        } else {
            assert(drawn[i] == popup[i - c]);
        }
    }
}

/// While an overlay is open, nothing below it can be clicked, neither a tab nor a row nor a
/// shortcut of the footer: only the overlay's own regions are recorded.
pub proof fn law_overlay_covers_the_base(
    app: AppModel,
    areas: Areas,
    bars: SpaceBars,
    now: Timestamp,
)
    requires
        !(app.overlay is Closed),
    ensures
        screen_view(app, areas, bars, now).regions == popup_regions(app, areas, now),
{
    assert(base_regions(app, areas) + popup_regions(app, areas, now) =~= popup_regions(
        app,
        areas,
        now,
    ));
}

/// A click on a button of a confirmation answers it: the No button says no, and the Yes button,
/// wherever No does not lie over it, says yes.
pub proof fn law_buttons_answer(below: Seq<ClickRegion>, area: Rect, x: u16, y: u16)
    requires
        overlays::confirm_fits(area),
    ensures
        overlays::confirm_regions(area)[1].covers(x, y) ==> types::hit(
            below + overlays::confirm_regions(area),
            x,
            y,
        ) == Some(ClickTarget::Action(UiAction::ConfirmNo)),
        overlays::confirm_regions(area)[0].covers(x, y) && !overlays::confirm_regions(
            area,
        )[1].covers(x, y) ==> types::hit(below + overlays::confirm_regions(area), x, y) == Some(
            ClickTarget::Action(UiAction::ConfirmYes),
        ),
        overlays::middle(area) >= 10 ==> !(overlays::confirm_regions(area)[0].covers(x, y)
            && overlays::confirm_regions(area)[1].covers(x, y)),
{
    let buttons = overlays::confirm_regions(area);
    let all = below + buttons;
    assert(all =~= below.push(buttons[0]).push(buttons[1]));
    types::law_topmost_region_wins(below.push(buttons[0]), buttons[1], x, y);
    types::law_topmost_region_wins(below, buttons[0], x, y);
}

/// The tab that is open decides what the body shows: the images, the containers or the disk
/// usage, which waits as long as it is not known.
pub proof fn law_tab_decides_the_body(app: AppModel, areas: Areas, bars: SpaceBars, now: Timestamp)
    ensures
        ({
            let body = screen_view(app, areas, bars, now).body;
            &&& app.tab is Images ==> body is List && body->List_table.rows.len()
                == app.images.len()
            &&& app.tab is Containers ==> body is List && body->List_table.rows.len()
                == app.containers.len()
            &&& app.tab is Space && app.usage is Some ==> body is Space
            &&& app.tab is Space && app.usage is None ==> body is Waiting
        }),
{
}

/// An overlay that is open is shown under its own title, and none is where none is open.
pub proof fn law_open_overlay_is_shown(app: AppModel, areas: Areas, bars: SpaceBars, now: Timestamp)
    ensures
        ({
            let popup = screen_view(app, areas, bars, now).popup;
            let titled = |t: Seq<char>| popup is Some && popup->0.panel.title.content == t;
            &&& app.overlay is Closed ==> popup is None
            &&& app.overlay is Help ==> titled(" Help "@)
            &&& app.overlay is Prune ==> titled(" Prune "@)
            &&& app.overlay is Palette ==> titled(" Command palette "@)
            &&& app.overlay is UpdateDetails ==> titled(" Update details "@)
            &&& app.overlay is Confirm ==> titled(" Confirm "@)
            &&& app.overlay is ApplyProgress && app.apply is Some ==> titled(" Applying update "@)
            &&& (app.overlay is Logs || app.overlay is Changelog) && app.overlay_title.len() > 0
                ==> titled(" "@ + app.overlay_title + " "@)
        }),
{
}

/// A screen of six rows or more has the tabs in its first three, the shortcuts in its last and
/// the status in the one above; the body takes all between.
pub proof fn law_screen_is_stacked(areas: Areas, screen: Rect)
    requires
        screen.on_grid(),
        screen.height >= 6,
        areas.stacked(screen),
    ensures
        areas.tabs == (Rect { height: 3, ..screen }),
        areas.body == (Rect {
            y: (screen.y + 3) as u16,
            height: (screen.height - 5) as u16,
            ..screen
        }),
        areas.status == (Rect {
            y: (screen.y + screen.height - 2) as u16,
            height: 1,
            ..screen
        }),
        areas.keys == (Rect { y: (screen.y + screen.height - 1) as u16, height: 1, ..screen }),
{
}

} // verus!
