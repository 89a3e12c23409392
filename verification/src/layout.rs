//! Where things go on the screen: areas of character cells and how a
//! screen is divided into them.

use vstd::prelude::*;
use ratatui::layout::{Constraint, Direction, Layout, Rect};

verus! {

/// A rectangle of character cells: its top left corner and its size.
#[derive(Clone, Copy, Debug, PartialEq, Eq, Structural)]
pub struct Area {
    pub x: u16,
    pub y: u16,
    pub width: u16,
    pub height: u16,
}

/// `a + b`, or the largest `u16` where the sum does not fit.
pub open spec fn capped_sum(a: u16, b: u16) -> u16 {
    if a + b > u16::MAX {
        u16::MAX
    } else {
        (a + b) as u16
    }
}

/// `a - b`, or zero where `b` is the larger.
pub open spec fn floored_difference(a: u16, b: u16) -> u16 {
    if a - b < 0 {
        0
    } else {
        (a - b) as u16
    }
}

impl Area {
    /// The row just below the area, capped at the largest `u16`.
    pub open spec fn bottom_row(self) -> u16 {
        capped_sum(self.y, self.height)
    }

    /// The row just below the area.
    pub fn bottom(&self) -> (row: u16)
        ensures
            row == self.bottom_row(),
    {
        self.y.saturating_add(self.height)
    }
}

/// Rows taken by the heading of a list screen: the question and a blank.
pub const HEADING_ROWS: u16 = 2;

/// Rows taken by the footer of a list screen: a blank and the hint.
pub const FOOTER_ROWS: u16 = 2;

/// The three parts of a list screen, from top to bottom.
#[derive(Clone, Copy, Debug, PartialEq, Eq, Structural)]
pub struct ListAreas {
    pub heading: Area,
    pub list: Area,
    pub footer: Area,
}

/// A list screen inside `area`: the heading takes the first two rows, the
/// footer the last two, and the list what is between them (nothing, in an
/// area of four rows or fewer). All three are as wide as `area`.
pub open spec fn list_areas_of(area: Area) -> ListAreas {
    ListAreas {
        heading: Area { x: area.x, y: area.y, width: area.width, height: HEADING_ROWS },
        list: Area {
            x: area.x,
            y: capped_sum(area.y, HEADING_ROWS),
            width: area.width,
            height: floored_difference(area.height, (HEADING_ROWS + FOOTER_ROWS) as u16),
        },
        footer: Area {
            x: area.x,
            y: floored_difference(area.bottom_row(), FOOTER_ROWS),
            width: area.width,
            height: FOOTER_ROWS,
        },
    }
}

/// Divides `area` into heading, list and footer.
pub fn list_areas(area: Area) -> (parts: ListAreas)
    ensures
        parts == list_areas_of(area),
{
    ListAreas {
        heading: Area { x: area.x, y: area.y, width: area.width, height: HEADING_ROWS },
        list: Area {
            x: area.x,
            y: area.y.saturating_add(HEADING_ROWS),
            width: area.width,
            height: area.height.saturating_sub(HEADING_ROWS + FOOTER_ROWS),
        },
        footer: Area {
            x: area.x,
            y: area.bottom().saturating_sub(FOOTER_ROWS),
            width: area.width,
            height: FOOTER_ROWS,
        },
    }
}

/// Where the area has room for all three parts, they lie in it one below
/// the other without a gap, and the list gets every row that heading and
/// footer leave.
pub proof fn lemma_list_areas_tile(area: Area)
    requires
        area.height >= HEADING_ROWS + FOOTER_ROWS,
        area.y + area.height <= u16::MAX,
    ensures
        ({
            let parts = list_areas_of(area);
            &&& parts.heading.y == area.y
            &&& parts.list.y == parts.heading.y + parts.heading.height
            &&& parts.footer.y == parts.list.y + parts.list.height
            &&& parts.footer.y + parts.footer.height == area.y + area.height
            &&& parts.heading.height + parts.list.height + parts.footer.height == area.height
        }),
{
}

/// Rows of the title line at the top of the screen.
pub const TITLE_ROWS: u16 = 1;

/// Rows the body below the title asks for at least.
pub const BODY_MIN_ROWS: u16 = 5;

/// The title line and the body below it.
#[derive(Clone, Copy, Debug, PartialEq, Eq, Structural)]
pub struct ScreenAreas {
    pub title: Area,
    pub body: Area,
}

impl ScreenAreas {
    /// The two parts divide `screen`: both span its width, both lie within
    /// its rows, and the title ends where the body begins or above.
    pub open spec fn divides(self, screen: Area) -> bool {
        &&& self.title.spans_rows_of(screen)
        &&& self.body.spans_rows_of(screen)
        &&& self.title.y + self.title.height <= self.body.y
    }
}

impl Area {
    /// The area is as wide as `outer`, starts at its column, and lies
    /// within its rows.
    pub open spec fn spans_rows_of(self, outer: Area) -> bool {
        &&& self.x == outer.x
        &&& self.width == outer.width
        &&& outer.y <= self.y
        &&& self.y + self.height <= outer.bottom_row()
    }
}

/// Calls ratatui's `Layout::split` on a vertical layout without margin of
/// two parts: one of exactly `top_rows` rows, one of at least
/// `rest_min_rows`. The solver decides the rows. What is claimed holds
/// whatever it decides: two parts come back, each at the column and of the
/// width of `area` and within its rows, the first ending where the second
/// begins or above.
#[verifier::external_body]
fn split_rows(area: Area, top_rows: u16, rest_min_rows: u16) -> (parts: Vec<Area>)
    ensures
        parts@.len() == 2,
        forall|i: int|
            0 <= i < 2 ==> (#[trigger] parts@[i]).x == area.x && parts@[i].width == area.width,
        forall|i: int|
            0 <= i < 2 ==> area.y <= (#[trigger] parts@[i]).y && parts@[i].y + parts@[i].height
                <= area.bottom_row(),
        parts@[0].y + parts@[0].height <= parts@[1].y,
{
    let rect = Rect { x: area.x, y: area.y, width: area.width, height: area.height };
    let rows = [Constraint::Length(top_rows), Constraint::Min(rest_min_rows)];
    let parts = Layout::default().direction(Direction::Vertical).constraints(rows).split(rect);
    parts.iter().map(|r| Area { x: r.x, y: r.y, width: r.width, height: r.height }).collect()
}

/// Divides the screen into the title line and the body. Both span the
/// width of the screen and lie within it, the title above the body; which
/// rows each gets is the layout solver's choice.
pub fn screen_areas(screen: Area) -> (parts: ScreenAreas)
    ensures
        parts.divides(screen),
{
    let parts = split_rows(screen, TITLE_ROWS, BODY_MIN_ROWS);
    ScreenAreas { title: parts[0], body: parts[1] }
}

/// The parts of a divided screen take no more rows than the screen has:
/// the heights of title and body add up to the height of the screen at
/// most.
pub proof fn lemma_divided_rows_fit(parts: ScreenAreas, screen: Area)
    requires
        parts.divides(screen),
    ensures
        parts.title.height + parts.body.height <= screen.height,
        parts.body.height <= screen.height,
{
}

} // verus!
