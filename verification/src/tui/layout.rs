//! Where things stand on the screen.

use ratatui::layout as grid;
use vstd::prelude::*;
use crate::tui::types::Rect;

verus! {

/// How large a part wants to be.
#[derive(Debug, Clone, Copy, PartialEq, Eq, Structural)]
pub enum Constraint {
    /// So many cells.
    Length(u16),
    /// At least so many cells.
    Min(u16),
    /// So many percent of the whole.
    Percentage(u16),
}

/// How parts follow each other.
#[derive(Debug, Clone, Copy, PartialEq, Eq, Structural)]
pub enum Direction {
    /// From left to right.
    Horizontal,
    /// From top to bottom.
    Vertical,
}

impl Rect {
    /// No area at all.
    pub open spec fn nowhere() -> Rect {
        Rect { x: 0, y: 0, width: 0, height: 0 }
    }

    /// The first column to the right of the rectangle.
    pub open spec fn right(self) -> int {
        self.x + self.width
    }

    /// The first row below the rectangle.
    pub open spec fn bottom(self) -> int {
        self.y + self.height
    }

    /// Whether the rectangle lies within another.
    pub open spec fn within(self, outer: Rect) -> bool {
        &&& outer.x <= self.x && self.right() <= outer.right()
        &&& outer.y <= self.y && self.bottom() <= outer.bottom()
    }

    /// Whether the rectangle ends where coordinates do, or before.
    pub open spec fn on_grid(self) -> bool {
        self.right() <= u16::MAX && self.bottom() <= u16::MAX
    }
}

/// How many cells an area has along a direction.
pub open spec fn extent(area: Rect, direction: Direction) -> int {
    match direction {
        Direction::Horizontal => area.width as int,
        Direction::Vertical => area.height as int,
    }
}

/// What a part asks for out of `cells` cells, in hundredths of a cell.
pub open spec fn ask(part: Constraint, cells: int) -> int {
    match part {
        Constraint::Length(n) => 100 * n,
        Constraint::Min(n) => 100 * n,
        Constraint::Percentage(p) => p * cells,
    }
}

/// What all parts together ask for, in hundredths of a cell.
pub open spec fn asks(parts: Seq<Constraint>, cells: int) -> int
    decreases parts.len(),
{
    if parts.len() == 0 {
        0
    } else {
        asks(parts.drop_last(), cells) + ask(parts.last(), cells)
    }
}

/// How many parts ask for a minimum.
pub open spec fn minimums(parts: Seq<Constraint>) -> nat
    decreases parts.len(),
{
    if parts.len() == 0 {
        0
    } else {
        minimums(parts.drop_last()) + (if parts.last() is Min { 1nat } else { 0nat })
    }
}

/// How many parts ask for a percentage.
pub open spec fn percentages(parts: Seq<Constraint>) -> nat
    decreases parts.len(),
{
    if parts.len() == 0 {
        0
    } else {
        percentages(parts.drop_last()) + (if parts.last() is Percentage { 1nat } else { 0nat })
    }
}

/// What the lengths and the minimums together ask for, in hundredths of a cell.
pub open spec fn rigid(parts: Seq<Constraint>) -> int
    decreases parts.len(),
{
    if parts.len() == 0 {
        0
    } else {
        rigid(parts.drop_last()) + (if parts.last() is Percentage { 0 } else {
            ask(parts.last(), 0)
        })
    }
}

/// Whether at most one part asks for a minimum, and that is one that an `i16` holds: a larger one
/// does not count.
pub open spec fn one_minimum(parts: Seq<Constraint>) -> bool {
    &&& minimums(parts) <= 1
    &&& forall|i: int|
        0 <= i < parts.len() ==> ((#[trigger] parts[i]) matches Constraint::Min(n) ==> n
            <= i16::MAX)
}

/// What is there for the parts themselves, `gap` cells apart, in hundredths of a cell.
pub open spec fn room(parts: Seq<Constraint>, cells: int, gap: int) -> int {
    100 * (cells - gap * (parts.len() - 1))
}

/// Whether every part can get what it asks for, or all but a single percentage, which then makes
/// do with the rest; and at most one part may get more.
pub open spec fn fit(parts: Seq<Constraint>, cells: int, gap: int) -> bool {
    &&& one_minimum(parts)
    &&& asks(parts, cells) <= room(parts, cells, gap) || (percentages(parts) == 1 && rigid(parts)
        <= room(parts, cells, gap))
}

/// What a part gets where all fit, in hundredths of a cell: a length what it asks for, a
/// percentage the same but for what is missing, and a minimum the same and all that is left over.
pub open spec fn gets(parts: Seq<Constraint>, cells: int, gap: int, i: int) -> int {
    let spare = room(parts, cells, gap) - asks(parts, cells);
    match parts[i] {
        Constraint::Length(n) => 100 * n,
        Constraint::Min(n) => 100 * n + (if spare > 0 { spare } else { 0 }),
        Constraint::Percentage(p) => p * cells + (if spare < 0 { spare } else { 0 }),
    }
}

/// Where a part begins where all fit, in hundredths of a cell: behind all parts before it and
/// the gaps between them.
pub open spec fn begins(parts: Seq<Constraint>, cells: int, gap: int, i: int) -> int
    decreases i,
{
    if i <= 0 {
        0
    } else {
        begins(parts, cells, gap, i - 1) + gets(parts, cells, gap, i - 1) + 100 * gap
    }
}

/// The cell boundary nearest to so many hundredths of a cell, the farther one of two.
pub open spec fn nearest(hundredths: int) -> int {
    (hundredths + 50) / 100
}

/// The band of an area between two boundaries along a direction.
pub open spec fn band(area: Rect, direction: Direction, from: int, to: int) -> Rect {
    match direction {
        Direction::Horizontal => Rect {
            x: (area.x + from) as u16,
            width: (to - from) as u16,
            ..area
        },
        Direction::Vertical => Rect {
            y: (area.y + from) as u16,
            height: (to - from) as u16,
            ..area
        },
    }
}

/// Where a part stands where all fit.
pub open spec fn place(
    area: Rect,
    direction: Direction,
    parts: Seq<Constraint>,
    gap: int,
    i: int,
) -> Rect {
    let cells = extent(area, direction);
    let from = begins(parts, cells, gap, i);
    band(area, direction, nearest(from), nearest(from + gets(parts, cells, gap, i)))
}

/// How many of `cells` cells a part with a minimum gets beside lengths: what the lengths leave,
/// but no less than the minimum as long as there are cells.
pub open spec fn lead(least: int, lengths: int, cells: int) -> int {
    if least + lengths <= cells {
        cells - lengths
    } else if least <= cells {
        least
    } else {
        cells
    }
}

/// What the lengths together ask for, in cells.
pub open spec fn lengths(parts: Seq<Constraint>) -> int
    decreases parts.len(),
{
    if parts.len() == 0 {
        0
    } else {
        lengths(parts.drop_last()) + (match parts.last() {
            Constraint::Length(n) => n as int,
            _ => 0,
        })
    }
}

/// The first row or column of a rectangle.
pub open spec fn start(r: Rect, direction: Direction) -> int {
    match direction {
        Direction::Horizontal => r.x as int,
        Direction::Vertical => r.y as int,
    }
}

/// The first row or column behind a rectangle.
pub open spec fn end(r: Rect, direction: Direction) -> int {
    start(r, direction) + extent(r, direction)
}

/// Whether a part has the size that a length or a minimum leads to: no more than the length, and
/// exactly what the minimum gets beside the lengths.
pub open spec fn sized(part: Constraint, size: int, all_lengths: int, cells: int) -> bool {
    match part {
        Constraint::Length(n) => size <= n,
        Constraint::Min(n) => size == lead(n as int, all_lengths, cells),
        Constraint::Percentage(_) => true,
    }
}

/// Whether parts that ask for lengths and at most one minimum follow each other from the start of
/// an area without a gap, each with a size that it can have; with a minimum among them they fill
/// the area, and without one as far as the lengths go.
pub open spec fn tiled(
    area: Rect,
    direction: Direction,
    parts: Seq<Constraint>,
    rects: Seq<Rect>,
) -> bool {
    let cells = extent(area, direction);
    let all = lengths(parts);
    let filled = if minimums(parts) == 1 || all > cells { cells } else { all };
    parts.len() > 0 && percentages(parts) == 0 && one_minimum(parts) ==> {
        &&& start(rects[0], direction) == start(area, direction)
        &&& forall|i: int|
            0 < i < rects.len() ==> start(#[trigger] rects[i], direction) == end(
                rects[i - 1],
                direction,
            )
        &&& end(rects.last(), direction) == start(area, direction) + filled
        &&& forall|i: int|
            0 <= i < rects.len() ==> sized(
                parts[i],
                extent(#[trigger] rects[i], direction),
                all,
                cells,
            )
    }
}

/// `ratatui::layout::Layout::split` of a `Layout::new` with a spacing, which divides an area
/// by constraints. There is one part for each constraint, each part lies within the area (the
/// solver is given that as required), and across the direction of the division it is as wide or
/// as high as the area.
///
/// Where all constraints can be met at once, or all but a single percentage, and at most one of
/// them is a minimum, the parts follow each other from the start of the area with the spacing
/// between them: a length gets that length, a percentage that share of the whole area or what is
/// left of it, a minimum all that the others leave, and every boundary goes to the nearest cell.
/// The solver weighs a minimum above a length, a length above a percentage, and all of these
/// above the space behind the parts, so that there is one best division.
///
/// Where lengths and at most one minimum cannot all be met and there is no spacing, the parts
/// still follow each other without a gap and fill the area, the minimum is met first, and no
/// length is exceeded.
///
/// How large the parts come out along the direction is otherwise left open: where constraints of
/// one kind compete, several divisions can weigh the same, and which one the solver finds then
/// depends on hash maps that every process seeds anew.
#[verifier::external_body]
fn split(area: Rect, direction: Direction, parts: &Vec<Constraint>, gap: u16) -> (r: Vec<Rect>)
    requires
        area.on_grid(),
        gap <= i16::MAX,
    ensures
        r@.len() == parts@.len(),
        forall|i: int| 0 <= i < r@.len() ==> (#[trigger] r@[i]).within(area),
        direction is Vertical ==> forall|i: int|
            0 <= i < r@.len() ==> (#[trigger] r@[i]).x == area.x && r@[i].width == area.width,
        direction is Horizontal ==> forall|i: int|
            0 <= i < r@.len() ==> (#[trigger] r@[i]).y == area.y && r@[i].height == area.height,
        fit(parts@, extent(area, direction), gap as int) ==> forall|i: int|
            0 <= i < r@.len() ==> #[trigger] r@[i] == place(
                area,
                direction,
                parts@,
                gap as int,
                i,
            ),
        gap == 0 ==> tiled(area, direction, parts@, r@),
{
    let way = match direction {
        Direction::Horizontal => grid::Direction::Horizontal,
        Direction::Vertical => grid::Direction::Vertical,
    };
    let constraints = parts.iter().map(|p| match p {
        Constraint::Length(n) => grid::Constraint::Length(*n),
        Constraint::Min(n) => grid::Constraint::Min(*n),
        Constraint::Percentage(n) => grid::Constraint::Percentage(*n),
    });
    let layout = grid::Layout::new(way, constraints).spacing(gap);
    let rects = layout.split(grid::Rect::new(area.x, area.y, area.width, area.height));
    rects.iter().map(|r| Rect { x: r.x, y: r.y, width: r.width, height: r.height }).collect()
}

/// Two parts, one below the other.
pub fn two_rows(area: Rect, a: Constraint, b: Constraint) -> (r: (Rect, Rect))
    requires
        area.on_grid(),
    ensures
        r.0.within(area) && r.0.x == area.x && r.0.width == area.width,
        r.1.within(area) && r.1.x == area.x && r.1.width == area.width,
        fit(seq![a, b], area.height as int, 0) ==> {
            &&& r.0 == place(area, Direction::Vertical, seq![a, b], 0, 0)
            &&& r.1 == place(area, Direction::Vertical, seq![a, b], 0, 1)
        },
        tiled(area, Direction::Vertical, seq![a, b], seq![r.0, r.1]),
{
    let wanted = vec![a, b];
    assert(wanted@ =~= seq![a, b]);
    let parts = split(area, Direction::Vertical, &wanted, 0);
    assert(parts@ =~= seq![parts@[0], parts@[1]]);
    (parts[0], parts[1])
}

/// Three parts, one below the other.
pub fn three_rows(area: Rect, a: Constraint, b: Constraint, c: Constraint) -> (r: (
    Rect,
    Rect,
    Rect,
))
    requires
        area.on_grid(),
    ensures
        r.0.within(area) && r.0.x == area.x && r.0.width == area.width,
        r.1.within(area) && r.1.x == area.x && r.1.width == area.width,
        r.2.within(area) && r.2.x == area.x && r.2.width == area.width,
        fit(seq![a, b, c], area.height as int, 0) ==> {
            &&& r.0 == place(area, Direction::Vertical, seq![a, b, c], 0, 0)
            &&& r.1 == place(area, Direction::Vertical, seq![a, b, c], 0, 1)
            &&& r.2 == place(area, Direction::Vertical, seq![a, b, c], 0, 2)
        },
        tiled(area, Direction::Vertical, seq![a, b, c], seq![r.0, r.1, r.2]),
{
    let wanted = vec![a, b, c];
    assert(wanted@ =~= seq![a, b, c]);
    let parts = split(area, Direction::Vertical, &wanted, 0);
    assert(parts@ =~= seq![parts@[0], parts@[1], parts@[2]]);
    (parts[0], parts[1], parts[2])
}

/// A percentage between two equal margins fits, and begins and ends where they do.
proof fn lemma_middle(percent: u16, margin: u16, cells: int)
    requires
        percent + 2 * margin <= 100,
        cells >= 0,
    ensures
        ({
            let parts = seq![
                Constraint::Percentage(margin),
                Constraint::Percentage(percent),
                Constraint::Percentage(margin),
            ];
            &&& fit(parts, cells, 0)
            &&& begins(parts, cells, 0, 1) == margin * cells
            &&& begins(parts, cells, 0, 1) + gets(parts, cells, 0, 1) == (margin + percent) * cells
        }),
{
    let edge = Constraint::Percentage(margin);
    let middle = Constraint::Percentage(percent);
    let parts = seq![edge, middle, edge];
    assert(parts.drop_last() =~= seq![edge, middle]);
    assert(seq![edge, middle].drop_last() =~= seq![edge]);
    assert(seq![edge].drop_last() =~= Seq::<Constraint>::empty());
    reveal_with_fuel(asks, 4);
    reveal_with_fuel(minimums, 4);
    reveal_with_fuel(begins, 2);
    assert(margin * cells + percent * cells == (margin + percent) * cells) by (nonlinear_arith);
    assert((margin + percent) * cells + margin * cells <= 100 * cells) by (nonlinear_arith)
        requires
            percent + 2 * margin <= 100,
            cells >= 0,
    ;
}

/// The rectangle in the middle of `r` that takes `percent_x` × `percent_y` of it: half of what
/// is left stands before it, a whole number of percent, and its edges go to the nearest cell.
pub open spec fn centered(percent_x: int, percent_y: int, r: Rect) -> Rect {
    let margin_x = (100 - percent_x) / 2;
    let margin_y = (100 - percent_y) / 2;
    let left = nearest(margin_x * r.width);
    let right = nearest((margin_x + percent_x) * r.width);
    let top = nearest(margin_y * r.height);
    let bottom = nearest((margin_y + percent_y) * r.height);
    Rect {
        x: (r.x + left) as u16,
        y: (r.y + top) as u16,
        width: (right - left) as u16,
        height: (bottom - top) as u16,
    }
}

/// A centered rectangle occupying `percent_x` × `percent_y` of `r`.
pub fn centered_rect(percent_x: u16, percent_y: u16, r: Rect) -> (c: Rect)
    requires
        percent_x <= 100,
        percent_y <= 100,
        r.on_grid(),
    ensures
        c.within(r),
        c == centered(percent_x as int, percent_y as int, r),
{
    let margin_y: u16 = (100 - percent_y) / 2;
    let margin_x: u16 = (100 - percent_x) / 2;
    let rows = three_rows(
        r,
        Constraint::Percentage(margin_y),
        Constraint::Percentage(percent_y),
        Constraint::Percentage(margin_y),
    );
    let wanted = vec![
        Constraint::Percentage(margin_x),
        Constraint::Percentage(percent_x),
        Constraint::Percentage(margin_x),
    ];
    assert(wanted@ =~= seq![
        Constraint::Percentage(margin_x),
        Constraint::Percentage(percent_x),
        Constraint::Percentage(margin_x),
    ]);
    let columns = split(rows.1, Direction::Horizontal, &wanted, 0);
    proof {
        lemma_middle(percent_y, margin_y, r.height as int);
        lemma_middle(percent_x, margin_x, r.width as int);
    }
    columns[1]
}

/// Columns beside each other, `gap` cells apart.
pub fn columns(area: Rect, wanted: &Vec<Constraint>, gap: u16) -> (r: Vec<Rect>)
    requires
        area.on_grid(),
        gap <= i16::MAX,
    ensures
        r@.len() == wanted@.len(),
        forall|i: int|
            0 <= i < r@.len() ==> (#[trigger] r@[i]).within(area) && r@[i].y == area.y
                && r@[i].height == area.height,
        fit(wanted@, area.width as int, gap as int) ==> forall|i: int|
            0 <= i < r@.len() ==> #[trigger] r@[i] == place(
                area,
                Direction::Horizontal,
                wanted@,
                gap as int,
                i,
            ),
{
    split(area, Direction::Horizontal, wanted, gap)
}

/// A centered rectangle takes its share of the other, to within one cell, and leaves as much
/// space before it as behind it, to within one cell, in both directions.
pub proof fn law_centered_stands_in_the_middle(percent_x: int, percent_y: int, r: Rect)
    requires
        0 <= percent_x <= 100,
        0 <= percent_y <= 100,
        percent_x % 2 == 0,
        percent_y % 2 == 0,
        r.on_grid(),
    ensures
        ({
            let c = centered(percent_x, percent_y, r);
            let (left, right) = (c.x - r.x, r.x + r.width - (c.x + c.width));
            let (above, below) = (c.y - r.y, r.y + r.height - (c.y + c.height));
            &&& 0 <= left && 0 <= right && -1 <= left - right <= 1
            &&& 0 <= above && 0 <= below && -1 <= above - below <= 1
            &&& -100 <= 100 * c.width - percent_x * r.width <= 100
            &&& -100 <= 100 * c.height - percent_y * r.height <= 100
        }),
{
    let (mx, my) = ((100 - percent_x) / 2, (100 - percent_y) / 2);
    let (w, h) = (r.width as int, r.height as int);
    let (a, p) = (mx * w, percent_x * w);
    let (b, q) = (my * h, percent_y * h);
    assert((mx + percent_x) * w == a + p) by (nonlinear_arith)
        requires
            a == mx * w,
            p == percent_x * w,
    ;
    assert((my + percent_y) * h == b + q) by (nonlinear_arith)
        requires
            b == my * h,
            q == percent_y * h,
    ;
    assert(2 * a + p == 100 * w) by (nonlinear_arith)
        requires
            a == mx * w,
            p == percent_x * w,
            2 * mx + percent_x == 100,
    ;
    assert(2 * b + q == 100 * h) by (nonlinear_arith)
        requires
            b == my * h,
            q == percent_y * h,
            2 * my + percent_y == 100,
    ;
    assert(a >= 0 && p >= 0 && b >= 0 && q >= 0) by (nonlinear_arith)
        requires
            a == mx * w,
            p == percent_x * w,
            b == my * h,
            q == percent_y * h,
            mx >= 0,
            my >= 0,
            percent_x >= 0,
            percent_y >= 0,
            w >= 0,
            h >= 0,
    ;
}

/// A part with a minimum beside lengths never gets more than there is, gets all that the lengths
/// leave, and its minimum first.
pub proof fn law_minimum_comes_first(least: int, lengths: int, cells: int)
    requires
        0 <= least,
        0 <= lengths,
        0 <= cells,
    ensures
        0 <= lead(least, lengths, cells) <= cells,
        cells >= least ==> lead(least, lengths, cells) >= least,
        cells < least ==> lead(least, lengths, cells) == cells,
        cells >= least + lengths ==> lead(least, lengths, cells) + lengths == cells,
        least <= cells < least + lengths ==> lead(least, lengths, cells) == least,
{
}

} // verus!
