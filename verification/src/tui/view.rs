//! What is drawn, free of any terminal library.

use vstd::prelude::*;
use crate::style;
use crate::style::{Color, Span, SpanModel, Style, StyledLine};
use crate::theme::{Theme, ThemeModel};
use crate::tui::layout::Constraint;
use crate::tui::types::{ClickRegion, Rect};

verus! {

/// A bordered box with a title.
#[derive(Debug)]
pub struct Panel {
    pub area: Rect,
    pub border: Color,
    pub title: Span,
}

/// A box as mathematical values.
pub struct PanelModel {
    pub area: Rect,
    pub border: Color,
    pub title: SpanModel,
}

impl View for Panel {
    type V = PanelModel;

    open spec fn view(&self) -> PanelModel {
        PanelModel { area: self.area, border: self.border, title: self.title@ }
    }
}

impl PanelModel {
    /// The box of a list.
    pub open spec fn list(theme: ThemeModel, title: Seq<char>, area: Rect) -> PanelModel {
        PanelModel {
            area,
            border: theme.border,
            title: style::piece(title, style::colored(theme.secondary)),
        }
    }

    /// The box of an overlay.
    pub open spec fn overlay(theme: ThemeModel, title: Seq<char>, area: Rect) -> PanelModel {
        PanelModel {
            area,
            border: theme.accent,
            title: style::piece(title, style::strong(theme.accent)),
        }
    }
}

/// The box of a list.
pub fn list_block(theme: &Theme, title: &str, area: Rect) -> (r: Panel)
    ensures
        r@ == PanelModel::list(theme@, title@, area),
{
    Panel {
        area,
        border: theme.border,
        title: Span { content: title.to_string(), style: Style::of(theme.secondary) },
    }
}

/// The box of an overlay.
pub fn overlay_block(theme: &Theme, title: &str, area: Rect) -> (r: Panel)
    ensures
        r@ == PanelModel::overlay(theme@, title@, area),
{
    Panel {
        area,
        border: theme.accent,
        title: Span { content: title.to_string(), style: Style::bold_of(theme.accent) },
    }
}

/// A row of a table.
#[derive(Debug)]
pub struct RowView {
    pub cells: Vec<StyledLine>,
    pub style: Style,
}

/// A row of a table as mathematical values.
pub struct RowModel {
    pub cells: Seq<Seq<SpanModel>>,
    pub style: Style,
}

impl View for RowView {
    type V = RowModel;

    open spec fn view(&self) -> RowModel {
        RowModel { cells: self.cells.deep_view(), style: self.style }
    }
}

impl DeepView for RowView {
    type V = RowModel;

    open spec fn deep_view(&self) -> RowModel {
        self@
    }
}

/// A table.
#[derive(Debug)]
pub struct TableView {
    pub header: RowView,
    pub rows: Vec<RowView>,
    pub widths: Vec<Constraint>,
    /// Cells between two columns.
    pub spacing: u16,
}

/// A table as mathematical values.
pub struct TableModel {
    pub header: RowModel,
    pub rows: Seq<RowModel>,
    pub widths: Seq<Constraint>,
    pub spacing: u16,
}

impl View for TableView {
    type V = TableModel;

    open spec fn view(&self) -> TableModel {
        TableModel {
            header: self.header@,
            rows: self.rows.deep_view(),
            widths: self.widths@,
            spacing: self.spacing,
        }
    }
}

/// How long lines are wrapped.
#[derive(Debug, Clone, Copy, PartialEq, Eq, Structural)]
pub enum Wrapping {
    /// They are cut off.
    Cut,
    /// They are wrapped, and leading space is dropped.
    Trim,
    /// They are wrapped with their leading space.
    Keep,
}

/// A box over the screen.
#[derive(Debug)]
pub struct PopupView {
    pub panel: Panel,
    pub lines: Vec<StyledLine>,
    pub wrapping: Wrapping,
    pub centered: bool,
}

/// A box over the screen as mathematical values.
pub struct PopupModel {
    pub panel: PanelModel,
    pub lines: Seq<Seq<SpanModel>>,
    pub wrapping: Wrapping,
    pub centered: bool,
}

impl View for PopupView {
    type V = PopupModel;

    open spec fn view(&self) -> PopupModel {
        PopupModel {
            panel: self.panel@,
            lines: self.lines.deep_view(),
            wrapping: self.wrapping,
            centered: self.centered,
        }
    }
}

impl DeepView for PopupView {
    type V = PopupModel;

    open spec fn deep_view(&self) -> PopupModel {
        self@
    }
}

/// The tab bar.
#[derive(Debug)]
pub struct TabsView {
    pub panel: Panel,
    pub titles: Vec<StyledLine>,
    pub selected: usize,
    pub plain: Style,
    pub highlight: Style,
}

/// The tab bar as mathematical values.
pub struct TabsModel {
    pub panel: PanelModel,
    pub titles: Seq<Seq<SpanModel>>,
    pub selected: int,
    pub plain: Style,
    pub highlight: Style,
}

impl View for TabsView {
    type V = TabsModel;

    open spec fn view(&self) -> TabsModel {
        TabsModel {
            panel: self.panel@,
            titles: self.titles.deep_view(),
            selected: self.selected as int,
            plain: self.plain,
            highlight: self.highlight,
        }
    }
}

/// What stands between the tabs and the footer.
#[derive(Debug)]
pub enum BodyView {
    /// A list.
    List { panel: Panel, table: TableView },
    /// Disk usage that has not been loaded.
    Waiting { panel: Panel, area: Rect, line: StyledLine },
    /// Disk usage.
    Space {
        panel: Panel,
        table_area: Rect,
        table: TableView,
        summary_area: Rect,
        summary: StyledLine,
    },
}

/// What stands between the tabs and the footer, as mathematical values.
pub enum BodyModel {
    List { panel: PanelModel, table: TableModel },
    Waiting { panel: PanelModel, area: Rect, line: Seq<SpanModel> },
    Space {
        panel: PanelModel,
        table_area: Rect,
        table: TableModel,
        summary_area: Rect,
        summary: Seq<SpanModel>,
    },
}

impl View for BodyView {
    type V = BodyModel;

    open spec fn view(&self) -> BodyModel {
        match self {
            BodyView::List { panel, table } => BodyModel::List { panel: panel@, table: table@ },
            BodyView::Waiting { panel, area, line } => BodyModel::Waiting {
                panel: panel@,
                area: *area,
                line: line@,
            },
            BodyView::Space { panel, table_area, table, summary_area, summary } =>
                BodyModel::Space {
                panel: panel@,
                table_area: *table_area,
                table: table@,
                summary_area: *summary_area,
                summary: summary@,
            },
        }
    }
}

/// The footer.
#[derive(Debug)]
pub struct FooterView {
    pub status_area: Rect,
    pub status: StyledLine,
    pub keys_area: Rect,
    pub keys: StyledLine,
}

/// The footer as mathematical values.
pub struct FooterModel {
    pub status_area: Rect,
    pub status: Seq<SpanModel>,
    pub keys_area: Rect,
    pub keys: Seq<SpanModel>,
}

impl View for FooterView {
    type V = FooterModel;

    open spec fn view(&self) -> FooterModel {
        FooterModel {
            status_area: self.status_area,
            status: self.status@,
            keys_area: self.keys_area,
            keys: self.keys@,
        }
    }
}

/// The whole screen, and what can be clicked on it.
#[derive(Debug)]
pub struct Screen {
    pub tabs: TabsView,
    pub body: BodyView,
    pub footer: FooterView,
    pub popup: Option<PopupView>,
    pub regions: Vec<ClickRegion>,
}

/// The whole screen as mathematical values.
pub struct ScreenModel {
    pub tabs: TabsModel,
    pub body: BodyModel,
    pub footer: FooterModel,
    pub popup: Option<PopupModel>,
    pub regions: Seq<ClickRegion>,
}

impl View for Screen {
    type V = ScreenModel;

    open spec fn view(&self) -> ScreenModel {
        ScreenModel {
            tabs: self.tabs@,
            body: self.body@,
            footer: self.footer@,
            popup: self.popup.deep_view(),
            regions: self.regions@,
        }
    }
}

/// How much of a kind of data can be reclaimed, as it is shown.
#[derive(Debug)]
pub struct Bar {
    /// Filled cells of the bar.
    pub filled: usize,
    /// The share in percent without decimals, at least three characters wide.
    pub percent: String,
}

/// The bars of the four kinds of data.
#[derive(Debug)]
pub struct SpaceBars {
    pub images: Bar,
    pub containers: Bar,
    pub volumes: Bar,
    pub build_cache: Bar,
}

} // verus!
