//! Division of the terminal's drawing area into the four dashboard panels.

use vstd::prelude::*;
use ratatui::layout::{Constraint, Direction, Layout, Rect};

verus! {

/// A rectangle of terminal cells.
#[derive(Clone, Copy, Debug, PartialEq, Eq, Structural)]
pub struct Area {
    pub x: u16,
    pub y: u16,
    pub width: u16,
    pub height: u16,
}

impl Area {
    pub open spec fn view(&self) -> (int, int, int, int) {
        (self.x as int, self.y as int, self.width as int, self.height as int)
    }
}

/// The end of a span of cells, held at the largest coordinate.
pub open spec fn span_end(start: int, len: int) -> int {
    if start + len > u16::MAX {
        u16::MAX as int
    } else {
        start + len
    }
}

/// Whether `p` lies within `a` along the rows (top to bottom) and spans it
/// across them.
pub open spec fn within_rows(p: Area, a: Area) -> bool {
    &&& p.x == a.x
    &&& p.width == a.width
    &&& a.y <= p.y
    &&& p.y + p.height <= span_end(a.y as int, a.height as int)
}

/// Whether `p` lies within `a` along the columns (left to right) and spans
/// it across them.
pub open spec fn within_columns(p: Area, a: Area) -> bool {
    &&& p.y == a.y
    &&& p.height == a.height
    &&& a.x <= p.x
    &&& p.x + p.width <= span_end(a.x as int, a.width as int)
}

/// Whether `p` lies within `a`.
pub open spec fn inside(p: Area, a: Area) -> bool {
    &&& a.x <= p.x
    &&& span_end(p.x as int, p.width as int) <= span_end(a.x as int, a.width as int)
    &&& a.y <= p.y
    &&& span_end(p.y as int, p.height as int) <= span_end(a.y as int, a.height as int)
}

/// Whether `p` above `q` cover `a` from its top to its bottom, with no gap
/// and no overlap.
pub open spec fn tiles_rows(a: Area, p: Area, q: Area) -> bool {
    &&& p.y == a.y
    &&& p.y + p.height == q.y
    &&& q.y + q.height == span_end(a.y as int, a.height as int)
}

/// Whether `p` left of `q` cover `a` from its left to its right edge, with
/// no gap and no overlap.
pub open spec fn tiles_columns(a: Area, p: Area, q: Area) -> bool {
    &&& p.x == a.x
    &&& p.x + p.width == q.x
    &&& q.x + q.width == span_end(a.x as int, a.width as int)
}

/// Whether two rectangles share no cell.
pub open spec fn disjoint(a: Area, b: Area) -> bool {
    ||| a.x + a.width <= b.x
    ||| b.x + b.width <= a.x
    ||| a.y + a.height <= b.y
    ||| b.y + b.height <= a.y
}

/// The number of cells of a rectangle.
pub open spec fn cells(a: Area) -> int {
    a.width * a.height
}

/// Whether a rectangle ends before the largest coordinate in both directions.
pub open spec fn unclipped(a: Area) -> bool {
    a.x + a.width <= u16::MAX && a.y + a.height <= u16::MAX
}

/// The two rectangles into which the terminal toolkit's solver divides
/// `area`, top to bottom when `rows` holds and left to right otherwise, by
/// two percentages.
pub uninterp spec fn split_of(area: (int, int, int, int), rows: bool, first: int, second: int) -> (
    (int, int, int, int),
    (int, int, int, int),
);

/// Relies on ratatui's `Layout::split` with the default margin (none),
/// spacing (none) and flex (legacy), in the given direction, with two
/// `Constraint::Percentage`s: its solver keeps each piece between the area's
/// start and end along the split (the end held at the largest coordinate),
/// and each piece spans the area across the split. Where the percentages
/// make up the whole, every constraint that the solver gets can be met at
/// once (the empty outer gaps, the zero-size gap between the pieces and both
/// sizes), so its optimum meets them all, and rounding one shared cut point
/// gives one cell: the pieces then tile the area in order.
#[verifier::external_body]
fn split_percentages(area: Area, rows: bool, first: u16, second: u16) -> (r: (Area, Area))
    ensures
        (r.0@, r.1@) == split_of(area@, rows, first as int, second as int),
        rows ==> within_rows(r.0, area) && within_rows(r.1, area),
        !rows ==> within_columns(r.0, area) && within_columns(r.1, area),
        first + second == 100 && rows ==> tiles_rows(area, r.0, r.1),
        first + second == 100 && !rows ==> tiles_columns(area, r.0, r.1),
{
    let direction = match rows {
        true => Direction::Vertical,
        false => Direction::Horizontal,
    };
    let rect = Rect { x: area.x, y: area.y, width: area.width, height: area.height };
    let parts = Layout::default().direction(direction).constraints(
        [Constraint::Percentage(first), Constraint::Percentage(second)],
    ).split(rect);
    let (a, b) = (parts[0], parts[1]);
    (
        Area { x: a.x, y: a.y, width: a.width, height: a.height },
        Area { x: b.x, y: b.y, width: b.width, height: b.height },
    )
}

/// Share of the height given to the dashboard; the settings panel has the rest.
pub const DASHBOARD_PERCENT: u16 = 80;

/// Share of the dashboard's width given to the navigation column; the map has
/// the rest.
pub const NAV_COLUMN_PERCENT: u16 = 32;

/// Share of the navigation column's height given to the navbar; the request
/// log has the rest.
pub const NAVBAR_PERCENT: u16 = 20;

/// The four panels of one frame.
#[derive(Clone, Copy, Debug, PartialEq, Eq, Structural)]
pub struct DashboardLayout {
    pub navbar: Area,
    pub request_log: Area,
    pub map: Area,
    pub settings: Area,
}

/// The panels of a frame drawn on `area`, as `(navbar, request_log, map,
/// settings)`: the area is cut into dashboard and settings rows, the
/// dashboard into a navigation column and the map, and the column into the
/// navbar and the request log.
pub open spec fn panels_of(area: (int, int, int, int)) -> (
    (int, int, int, int),
    (int, int, int, int),
    (int, int, int, int),
    (int, int, int, int),
) {
    let (dashboard, settings) = split_of(area, true, DASHBOARD_PERCENT as int, 100 - DASHBOARD_PERCENT);
    let (column, map) = split_of(dashboard, false, NAV_COLUMN_PERCENT as int, 100 - NAV_COLUMN_PERCENT);
    let (navbar, log) = split_of(column, true, NAVBAR_PERCENT as int, 100 - NAVBAR_PERCENT);
    (navbar, log, map, settings)
}

/// The panels of a frame drawn on `area`. Nothing is kept between calls, so
/// a resized terminal gets panels in proportion to its new size on the next
/// frame. Every panel lies within `area`, no two panels share a cell, and,
/// where `area` ends before the largest coordinate, the panels together have
/// exactly as many cells as `area`.
pub fn compute(area: Area) -> (r: DashboardLayout)
    ensures
        (r.navbar@, r.request_log@, r.map@, r.settings@) == panels_of(area@),
        inside(r.navbar, area),
        inside(r.request_log, area),
        inside(r.map, area),
        inside(r.settings, area),
        r.settings.x == area.x && r.settings.width == area.width,
        r.navbar.x == r.request_log.x && r.navbar.width == r.request_log.width,
        disjoint(r.navbar, r.request_log),
        disjoint(r.navbar, r.map),
        disjoint(r.navbar, r.settings),
        disjoint(r.request_log, r.map),
        disjoint(r.request_log, r.settings),
        disjoint(r.map, r.settings),
        unclipped(area) ==> cells(r.navbar) + cells(r.request_log) + cells(r.map) + cells(
            r.settings,
        ) == cells(area),
{
    let (dashboard, settings) = split_percentages(area, true, DASHBOARD_PERCENT, 100 - DASHBOARD_PERCENT);
    let (column, map) = split_percentages(dashboard, false, NAV_COLUMN_PERCENT, 100 - NAV_COLUMN_PERCENT);
    let (navbar, request_log) = split_percentages(column, true, NAVBAR_PERCENT, 100 - NAVBAR_PERCENT);
    proof {
        if unclipped(area) {
            let (cw, ch, mw, aw, ah) = (
                column.width as int,
                column.height as int,
                map.width as int,
                area.width as int,
                area.height as int,
            );
            let (nh, lh, sh) = (navbar.height as int, request_log.height as int, settings.height as int);
            assert(cw + mw == aw);
            assert(ch + sh == ah);
            assert(nh + lh == ch);
            assert(cw * nh + cw * lh + mw * ch + aw * sh == aw * ah) by (nonlinear_arith)
                requires
                    cw + mw == aw,
                    ch + sh == ah,
                    nh + lh == ch,
            ;
        }
    }
    DashboardLayout { navbar, request_log, map, settings }
}

} // verus!
