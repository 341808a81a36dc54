//! The fixed two-region vertical layout of a frame.

use vstd::prelude::*;
use ratatui::layout::{Constraint, Direction, Layout, Rect};

verus! {

/// Height of the selector region: one row of labels inside a border.
pub const SELECTOR_HEIGHT: u16 = 3;

/// A rectangle of terminal cells whose right and bottom edges are
/// themselves valid coordinates.
#[derive(Clone, Copy, Debug, PartialEq, Eq, Structural)]
pub struct Area {
    x: u16,
    y: u16,
    width: u16,
    height: u16,
}

/// The two regions of a frame.
#[derive(Clone, Copy, Debug, PartialEq, Eq, Structural)]
pub struct Regions {
    /// The top region, which holds the tab selector.
    pub selector: Area,
    /// The bottom region, which holds the selected tab's content.
    pub content: Area,
}

/// Whether a rectangle's right and bottom edges fit the coordinate range.
pub open spec fn fits(x: int, y: int, width: int, height: int) -> bool {
    x + width <= u16::MAX && y + height <= u16::MAX
}

/// The smaller of two numbers.
pub open spec fn least(a: int, b: int) -> int {
    if a <= b {
        a
    } else {
        b
    }
}

impl Area {
    #[verifier::type_invariant]
    spec fn inv(self) -> bool {
        fits(self.x as int, self.y as int, self.width as int, self.height as int)
    }

    /// Column of the left edge.
    pub closed spec fn left(self) -> int {
        self.x as int
    }

    /// Row of the top edge.
    pub closed spec fn top(self) -> int {
        self.y as int
    }

    /// Number of columns.
    pub closed spec fn columns(self) -> int {
        self.width as int
    }

    /// Number of rows.
    pub closed spec fn rows(self) -> int {
        self.height as int
    }

    /// The first `rows` rows of this area, or all of it where it has fewer.
    pub open spec fn head(self, rows: int) -> (int, int, int, int) {
        (self.left(), self.top(), self.columns(), least(rows, self.rows()))
    }

    /// What is left of this area below its first `rows` rows.
    pub open spec fn tail(self, rows: int) -> (int, int, int, int) {
        (
            self.left(),
            self.top() + least(rows, self.rows()),
            self.columns(),
            self.rows() - least(rows, self.rows()),
        )
    }

    /// The four numbers of this area: left, top, columns, rows.
    pub open spec fn quad(self) -> (int, int, int, int) {
        (self.left(), self.top(), self.columns(), self.rows())
    }

    /// Makes an area, or `None` where an edge would leave the coordinate
    /// range.
    pub fn new(x: u16, y: u16, width: u16, height: u16) -> (area: Option<Area>)
        ensures
            area.is_some() == fits(x as int, y as int, width as int, height as int),
            area.is_some() ==> area.unwrap().quad() == (x as int, y as int, width as int, height as int),
    {
        if width <= u16::MAX - x && height <= u16::MAX - y {
            Some(Area { x, y, width, height })
        } else {
            None
        }
    }

    /// Column of the left edge.
    pub fn x(&self) -> (x: u16)
        ensures
            x == self.left(),
    {
        self.x
    }

    /// Row of the top edge.
    pub fn y(&self) -> (y: u16)
        ensures
            y == self.top(),
    {
        self.y
    }

    /// Number of columns.
    pub fn width(&self) -> (width: u16)
        ensures
            width == self.columns(),
            self.left() + width <= u16::MAX,
    {
        proof {
            use_type_invariant(self);
        }
        self.width
    }

    /// Number of rows.
    pub fn height(&self) -> (height: u16)
        ensures
            height == self.rows(),
            self.top() + height <= u16::MAX,
    {
        proof {
            use_type_invariant(self);
        }
        self.height
    }
}

/// Calls `ratatui::layout::Layout::split` on `area` with a vertical layout
/// of two constraints, `Length(rows)` then `Min(0)`, and returns the
/// rectangles it hands back, in order. An area whose right edge left the
/// coordinate range would make the solver's required constraints
/// contradict each other, which the call answers with a panic: the
/// precondition leaves such areas out.
///
/// Believed of it: there are two rectangles, stacked and as wide as the
/// area. The first holds the first `rows` rows, or all of the area where it
/// is shorter; the second holds the remainder, which may be empty. The
/// solver's required constraints pin the edges to the area and the second
/// rectangle's bottom to the area's bottom; the length constraint is
/// stronger than the second rectangle's preference for no height.
#[verifier::external_body]
fn split_rows(area: Area, rows: u16) -> (parts: Vec<Area>)
    requires
        fits(area.left(), area.top(), area.columns(), area.rows()),
    ensures
        parts@.len() == 2,
        parts@[0].quad() == area.head(rows as int),
        parts@[1].quad() == area.tail(rows as int),
{
    let rect = Rect { x: area.x, y: area.y, width: area.width, height: area.height };
    let layout = Layout::default()
        .direction(Direction::Vertical)
        .constraints([Constraint::Length(rows), Constraint::Min(0)]);
    layout
        .split(rect)
        .iter()
        .map(|r| Area { x: r.x, y: r.y, width: r.width, height: r.height })
        .collect()
}

/// Splits a frame's area into the selector region, `SELECTOR_HEIGHT` rows
/// at the top, and the content region, all the rows below it.
pub fn regions(area: Area) -> (r: Regions)
    ensures
        r.selector.quad() == area.head(SELECTOR_HEIGHT as int),
        r.content.quad() == area.tail(SELECTOR_HEIGHT as int),
{
    proof {
        use_type_invariant(area);
    }
    let parts = split_rows(area, SELECTOR_HEIGHT);
    Regions { selector: parts[0], content: parts[1] }
}

} // verus!
