//! Where the popup stands: the middle of the content area, by the
//! layout engine of the terminal library.

use ratatui::layout::{Constraint, Direction, Layout};
use vstd::prelude::*;

verus! {

/// A rectangle of the screen, in cells.
#[derive(Debug, Clone, Copy, PartialEq, Eq, Structural)]
pub struct Rect {
    pub x: u16,
    pub y: u16,
    pub width: u16,
    pub height: u16,
}

/// The direction in which an area is cut.
#[derive(Debug, Clone, Copy, PartialEq, Eq, Structural)]
pub enum Cut {
    /// Into rows, one below the other.
    Rows,
    /// Into columns, side by side.
    Columns,
}

/// `part` spans `area` across the direction of the cut: a row has the
/// columns of the area, a column has its rows.
pub open spec fn spans(part: Rect, area: Rect, cut: Cut) -> bool {
    match cut {
        Cut::Rows => part.x == area.x && part.width == area.width,
        Cut::Columns => part.y == area.y && part.height == area.height,
    }
}

/// `part` lies within `area` along the direction of the cut: a row
/// begins and ends between the top and the bottom of the area, a column
/// between its left and its right edge.
pub open spec fn within(part: Rect, area: Rect, cut: Cut) -> bool {
    match cut {
        Cut::Rows => area.y <= part.y && part.y + part.height <= area.y + area.height,
        Cut::Columns => area.x <= part.x && part.x + part.width <= area.x + area.width,
    }
}

/// `part` lies inside `area`: no cell of it is outside.
pub open spec fn inside(part: Rect, area: Rect) -> bool {
    &&& area.x <= part.x
    &&& part.x + part.width <= area.x + area.width
    &&& area.y <= part.y
    &&& part.y + part.height <= area.y + area.height
}

/// The shares of an area that leave `percent` of it in the middle: what
/// is left over, halved and rounded down, on either side.
pub open spec fn shares_around(percent: u16) -> (u16, u16, u16) {
    (((100 - percent) / 2) as u16, percent, ((100 - percent) / 2) as u16)
}

/// The three parts that the layout engine makes of an area that is cut
/// by three shares in percent.
pub uninterp spec fn layout_thirds(area: Rect, cut: Cut, shares: (u16, u16, u16)) -> Seq<Rect>;

/// Asks ratatui to cut an area in three by percentages that leave no
/// more than the whole. Its `Layout` hands back one rectangle per
/// constraint. Each of them keeps the position and the extent of the
/// area across the direction of the cut, and along that direction it
/// begins and ends inside the area: the engine requires every cut to
/// fall between the two ends of the area. Where between them the cuts
/// fall is worked out by its constraint solver from the area and the
/// shares alone: shares of no more than a hundred percent together can
/// all be met at once, which leaves the solver no choice. The contract
/// gives that result a name and claims no more of it.
#[verifier::external_body]
pub(crate) fn cut_in_three(area: Rect, cut: Cut, shares: (u16, u16, u16)) -> (parts: Vec<Rect>)
    requires
        shares.0 + shares.1 + shares.2 <= 100,
    ensures
        parts@ == layout_thirds(area, cut, shares),
        parts@.len() == 3,
        forall|i: int| 0 <= i < 3 ==> spans(#[trigger] parts@[i], area, cut),
        forall|i: int| 0 <= i < 3 ==> within(#[trigger] parts@[i], area, cut),
{
    let direction = match cut {
        Cut::Rows => Direction::Vertical,
        Cut::Columns => Direction::Horizontal,
    };
    let whole = ratatui::layout::Rect { x: area.x, y: area.y, width: area.width, height: area.height };
    let shares = [shares.0, shares.1, shares.2].map(Constraint::Percentage);
    let parts = Layout::default().direction(direction).constraints(shares).split(whole);
    parts.iter().map(|r| Rect { x: r.x, y: r.y, width: r.width, height: r.height }).collect()
}

/// The rectangle in the middle of `r` that the layout engine makes: the
/// middle one of the three rows that leave `percent_y` of the area in
/// the middle, cut into three columns that leave `percent_x` of it in
/// the middle, of which it is the middle one.
pub open spec fn middle_rect(percent_x: u16, percent_y: u16, r: Rect) -> Rect {
    layout_thirds(
        layout_thirds(r, Cut::Rows, shares_around(percent_y))[1],
        Cut::Columns,
        shares_around(percent_x),
    )[1]
}

/// The shares to cut an area by, so that `percent` of it is in the
/// middle.
pub fn shares_for(percent: u16) -> (shares: (u16, u16, u16))
    requires
        percent <= 100,
    ensures
        shares == shares_around(percent),
{
    ((100 - percent) / 2, percent, (100 - percent) / 2)
}

/// The middle one of the three columns of the middle one of three rows.
pub fn middle_of(rows: &Vec<Rect>, columns: &Vec<Rect>) -> (middle: Rect)
    requires
        rows@.len() == 3,
        columns@.len() == 3,
    ensures
        middle == columns@[1],
{
    columns[1]
}

/// The rectangle for a popup over `r`: the area is cut into rows with
/// `percent_y` of it in the middle, and the middle row into columns with
/// `percent_x` of it in the middle; the popup takes the middle column.
/// It lies inside the area.
pub fn centered_rect(percent_x: u16, percent_y: u16, r: Rect) -> (popup: Rect)
    requires
        percent_x <= 100,
        percent_y <= 100,
    ensures
        popup == middle_rect(percent_x, percent_y, r),
        inside(popup, r),
{
    let rows = cut_in_three(r, Cut::Rows, shares_for(percent_y));
    let row = rows[1];
    assert(spans(row, r, Cut::Rows) && within(row, r, Cut::Rows));
    let columns = cut_in_three(row, Cut::Columns, shares_for(percent_x));
    assert(spans(columns@[1], row, Cut::Columns) && within(columns@[1], row, Cut::Columns));
    middle_of(&rows, &columns)
}

/// The rectangle for a popup over `r`, or none for percentages above a
/// hundred.
pub fn centered_rect_checked(percent_x: u16, percent_y: u16, r: Rect) -> (popup: Option<Rect>)
    ensures
        popup == if percent_x <= 100 && percent_y <= 100 {
            Some(middle_rect(percent_x, percent_y, r))
        } else {
            None
        },
        popup matches Some(popup) ==> inside(popup, r),
{
    if percent_x <= 100 && percent_y <= 100 {
        Some(centered_rect(percent_x, percent_y, r))
    } else {
        None
    }
}

} // verus!
