//! Resize-aware layout: three vertical panes over a now-playing bar and a one-row
//! status bar, plus centered rectangles for overlays.

use ratatui::layout::{Constraint, Direction, Layout, Rect};
use vstd::prelude::*;

verus! {

/// Fixed height of the now-playing bar (1 top border + 4 content rows). It's
/// always present (showing an idle placeholder when nothing plays) so the rest
/// of the UI never shifts when playback starts or stops.
pub const NOW_PLAYING_HEIGHT: u16 = 5;

/// Width below which the key overview takes the whole screen width.
pub const CHEATSHEET_MIN_WIDTH: u16 = 40;

/// A rectangle of terminal cells.
#[derive(Debug, Clone, Copy, PartialEq, Eq, Structural)]
pub struct Area {
    pub x: u16,
    pub y: u16,
    pub width: u16,
    pub height: u16,
}

impl DeepView for Area {
    type V = Area;

    open spec fn deep_view(&self) -> Area {
        *self
    }
}

/// How much of a split area one part wants.
#[derive(Debug, Clone, Copy, PartialEq, Eq, Structural)]
pub enum Share {
    /// At least this many cells, and whatever the others leave.
    AtLeast(u16),
    /// Exactly this many cells.
    Exactly(u16),
    /// This many hundredths of the whole.
    Percent(u16),
}

/// Which way an area is split.
#[derive(Debug, Clone, Copy, PartialEq, Eq, Structural)]
pub enum Split {
    /// Parts on top of one another.
    Rows,
    /// Parts side by side.
    Columns,
}

impl Area {
    /// The column behind the last one, as far as columns are counted.
    pub open spec fn right_edge(self) -> int {
        if self.x + self.width > u16::MAX {
            u16::MAX as int
        } else {
            self.x + self.width
        }
    }

    /// The row below the last one, as far as rows are counted.
    pub open spec fn bottom_edge(self) -> int {
        if self.y + self.height > u16::MAX {
            u16::MAX as int
        } else {
            self.y + self.height
        }
    }

    /// Whether this area sticks out of `outer` nowhere.
    pub open spec fn inside(self, outer: Area) -> bool {
        &&& outer.x <= self.x
        &&& self.x + self.width <= outer.x + outer.width
        &&& outer.y <= self.y
        &&& self.y + self.height <= outer.y + outer.height
    }

    /// Where the area starts along a split.
    pub open spec fn start(self, split: Split) -> int {
        match split {
            Split::Rows => self.y as int,
            Split::Columns => self.x as int,
        }
    }

    /// How many cells the area takes along a split.
    pub open spec fn cells(self, split: Split) -> int {
        match split {
            Split::Rows => self.height as int,
            Split::Columns => self.width as int,
        }
    }

    /// How many cells of the area there are to split, as far as cells are counted.
    pub open spec fn extent(self, split: Split) -> int {
        match split {
            Split::Rows => self.bottom_edge() - self.y,
            Split::Columns => self.right_edge() - self.x,
        }
    }

    /// Whether this part spans `whole` across a split.
    pub open spec fn spans(self, whole: Area, split: Split) -> bool {
        match split {
            Split::Rows => self.x == whole.x && self.width == whole.width,
            Split::Columns => self.y == whole.y && self.height == whole.height,
        }
    }
}

/// The cells that the shares of fixed size take, together.
pub open spec fn fixed_cells(shares: Seq<Share>) -> int
    decreases shares.len(),
{
    if shares.len() == 0 {
        0
    } else {
        fixed_cells(shares.drop_last()) + (match shares.last() {
            Share::Exactly(n) => n as int,
            _ => 0,
        })
    }
}

/// Whether the shares are all of fixed size but for the one at `slack`, which takes
/// what is left, and whether there is room for all of them.
pub open spec fn room_for(shares: Seq<Share>, slack: int, extent: int) -> bool {
    &&& 0 <= slack < shares.len()
    &&& shares[slack] == Share::AtLeast(0)
    &&& forall|i: int| 0 <= i < shares.len() && i != slack ==> #[trigger] shares[i] is Exactly
    &&& fixed_cells(shares) <= extent
}

/// The cells of share `i` when there is room for all of them.
pub open spec fn share_cells(shares: Seq<Share>, i: int, extent: int) -> int {
    match shares[i] {
        Share::Exactly(n) => n as int,
        _ => extent - fixed_cells(shares),
    }
}

/// The cells of the shares in front of share `i` when there is room for all.
pub open spec fn cells_before(shares: Seq<Share>, i: int, extent: int) -> int
    decreases i,
{
    if i <= 0 {
        0
    } else {
        cells_before(shares, i - 1, extent) + share_cells(shares, i - 1, extent)
    }
}

/// Whether every share is a percentage.
pub open spec fn all_percent(shares: Seq<Share>) -> bool {
    forall|i: int| 0 <= i < shares.len() ==> #[trigger] shares[i] is Percent
}

/// The percentage that the shares in front of share `i` take, together.
pub open spec fn percent_before(shares: Seq<Share>, i: int) -> int
    decreases i,
{
    if i <= 0 {
        0
    } else {
        percent_before(shares, i - 1) + (match shares[i - 1] {
            Share::Percent(n) => n as int,
            _ => 0,
        })
    }
}

/// A percentage of an extent, to the nearest cell. Half a cell counts as a whole one.
pub open spec fn percent_cells(extent: int, percent: int) -> int {
    (extent * percent + 50) / 100
}

/// `ratatui`'s `Layout::split`: one part for each share, within the area along the
/// split, as wide (or as high) as the area across it, and none reaching into the next
/// one. Where all shares but one are of fixed size, the other takes what they leave,
/// and there is room for all, the parts have just these sizes and follow one another
/// without gaps. Where all are percentages that do not exceed the whole, they follow
/// one another too, and every edge is where the percentage in front of it puts it, to
/// the nearest cell. How cells are handed out where there is too little room is left
/// unsaid: the solver behind it may settle a tie either way.
#[verifier::external_body]
fn split(area: Area, way: Split, shares: &Vec<Share>) -> (parts: Vec<Area>)
    requires
        0 < shares@.len() <= 16,
    ensures
        parts@.len() == shares@.len(),
        forall|i: int|
            0 <= i < parts@.len() ==> {
                &&& (#[trigger] parts@[i]).spans(area, way)
                &&& area.start(way) <= parts@[i].start(way)
                &&& parts@[i].start(way) + parts@[i].cells(way) <= area.start(way) + area.extent(way)
            },
        forall|i: int, j: int|
            0 <= i < j < parts@.len() ==> (#[trigger] parts@[i]).start(way) + parts@[i].cells(way)
                <= (#[trigger] parts@[j]).start(way),
        forall|slack: int, i: int|
            #![trigger room_for(shares@, slack, area.extent(way)), parts@[i]]
            room_for(shares@, slack, area.extent(way)) && 0 <= i < parts@.len()
                ==> parts@[i].start(way) == area.start(way) + cells_before(
                shares@,
                i,
                area.extent(way),
            ) && parts@[i].cells(way) == share_cells(shares@, i, area.extent(way)),
        all_percent(shares@) && percent_before(shares@, shares@.len() as int) <= 100
            ==> forall|i: int|
            0 <= i < parts@.len() ==> {
                &&& (#[trigger] parts@[i]).start(way) == area.start(way) + percent_cells(
                    area.extent(way),
                    percent_before(shares@, i),
                )
                &&& parts@[i].start(way) + parts@[i].cells(way) == area.start(way) + percent_cells(
                    area.extent(way),
                    percent_before(shares@, i + 1),
                )
            },
{
    let direction = match way {
        Split::Rows => Direction::Vertical,
        Split::Columns => Direction::Horizontal,
    };
    let constraints = shares.iter().map(|share| match *share {
        Share::AtLeast(n) => Constraint::Min(n),
        Share::Exactly(n) => Constraint::Length(n),
        Share::Percent(n) => Constraint::Percentage(n),
    });
    let whole = Rect { x: area.x, y: area.y, width: area.width, height: area.height };
    let rects = Layout::new(direction, constraints).split(whole);
    rects.iter().map(|r| Area { x: r.x, y: r.y, width: r.width, height: r.height }).collect()
}

/// The screen's regions.
#[derive(Debug, Clone, Copy, PartialEq, Eq, Structural)]
pub struct Regions {
    pub sidebar: Area,
    pub list: Area,
    pub detail: Area,
    /// The always-present now-playing bar above the status row.
    pub now_playing: Area,
    pub status: Area,
}

/// The rows of the screen: the panes, the now-playing bar, the status row.
pub open spec fn screen_rows() -> Seq<Share> {
    seq![Share::AtLeast(0), Share::Exactly(NOW_PLAYING_HEIGHT), Share::Exactly(1)]
}

/// The columns of the panes.
pub open spec fn pane_columns() -> Seq<Share> {
    seq![Share::Percent(25), Share::Percent(40), Share::Percent(35)]
}

/// The parts around a centered one: the same on either side.
pub open spec fn centered_shares(percent: u16) -> Seq<Share> {
    let margin = ((100 - percent) / 2) as u16;
    seq![Share::Percent(margin), Share::Percent(percent), Share::Percent(margin)]
}

/// How the screen is split into rows.
pub fn row_shares() -> (shares: Vec<Share>)
    ensures
        shares@ == screen_rows(),
{
    let shares = vec![Share::AtLeast(0), Share::Exactly(NOW_PLAYING_HEIGHT), Share::Exactly(1)];
    assert(shares@ =~= screen_rows());
    shares
}

/// How the panes are split into columns.
pub fn column_shares() -> (shares: Vec<Share>)
    ensures
        shares@ == pane_columns(),
{
    let shares = vec![Share::Percent(25), Share::Percent(40), Share::Percent(35)];
    assert(shares@ =~= pane_columns());
    shares
}

/// How an area is split around a centered part.
pub fn center_shares(percent: u16) -> (shares: Vec<Share>)
    requires
        percent <= 100,
    ensures
        shares@ == centered_shares(percent),
{
    let margin: u16 = (100 - percent) / 2;
    let shares = vec![Share::Percent(margin), Share::Percent(percent), Share::Percent(margin)];
    assert(shares@ =~= centered_shares(percent));
    shares
}

/// The regions, given the screen's rows and the panes' columns.
pub fn regions_of(rows: &Vec<Area>, columns: &Vec<Area>) -> (regions: Regions)
    requires
        rows@.len() == 3,
        columns@.len() == 3,
    ensures
        regions == (Regions {
            sidebar: columns@[0],
            list: columns@[1],
            detail: columns@[2],
            now_playing: rows@[1],
            status: rows@[2],
        }),
{
    Regions {
        sidebar: columns[0],
        list: columns[1],
        detail: columns[2],
        now_playing: rows[1],
        status: rows[2],
    }
}

/// The area that the three panes share.
pub open spec fn main_area(screen: Area) -> Area {
    Area {
        x: screen.x,
        y: screen.y,
        width: screen.width,
        height: (screen.bottom_edge() - screen.y - NOW_PLAYING_HEIGHT - 1) as u16,
    }
}

/// Where a percentage of the area's columns ends.
pub open spec fn column_edge(area: Area, percent: int) -> int {
    area.x + percent_cells(area.extent(Split::Columns), percent)
}

/// Where a percentage of the area's rows ends.
pub open spec fn row_edge(area: Area, percent: int) -> int {
    area.y + percent_cells(area.extent(Split::Rows), percent)
}

/// Lay out the screen: the panes side by side, a quarter, two fifths and the rest of
/// the width, above the now-playing bar, above the status row. As soon as the fixed
/// rows fit, the status row is the last one and the now-playing bar the five above
/// it. How the rows are handed out on a lower screen is left unsaid.
pub fn compute(area: Area) -> (regions: Regions)
    ensures
        regions.sidebar.inside(area) && regions.list.inside(area) && regions.detail.inside(area),
        regions.now_playing.inside(area) && regions.status.inside(area),
        regions.sidebar.x == area.x,
        regions.sidebar.x + regions.sidebar.width == column_edge(area, 25) == regions.list.x,
        regions.list.x + regions.list.width == column_edge(area, 65) == regions.detail.x,
        regions.detail.x + regions.detail.width == area.right_edge(),
        regions.sidebar.y == regions.list.y == regions.detail.y,
        regions.sidebar.height == regions.list.height == regions.detail.height,
        regions.now_playing.spans(area, Split::Rows) && regions.status.spans(area, Split::Rows),
        regions.sidebar.y + regions.sidebar.height <= regions.now_playing.y,
        regions.now_playing.y + regions.now_playing.height <= regions.status.y,
        regions.status.y + regions.status.height <= area.bottom_edge(),
        area.extent(Split::Rows) >= NOW_PLAYING_HEIGHT + 1 ==> {
            &&& regions.status.height == 1
            &&& regions.status.y == area.bottom_edge() - 1
            &&& regions.now_playing.height == NOW_PLAYING_HEIGHT
            &&& regions.now_playing.y == area.bottom_edge() - 1 - NOW_PLAYING_HEIGHT
            &&& regions.sidebar.spans(main_area(area), Split::Columns)
        },
{
    let rows = split(area, Split::Rows, &row_shares());
    let main = rows[0];
    let columns = split(main, Split::Columns, &column_shares());
    proof {
        let shares = screen_rows();
        let extent = area.extent(Split::Rows);
        assert(shares.drop_last() =~= seq![
            Share::AtLeast(0),
            Share::Exactly(NOW_PLAYING_HEIGHT),
        ]);
        assert(shares.drop_last().drop_last() =~= seq![Share::AtLeast(0)]);
        reveal_with_fuel(fixed_cells, 4);
        reveal_with_fuel(cells_before, 4);
        assert(fixed_cells(shares) == NOW_PLAYING_HEIGHT + 1);
        if extent >= NOW_PLAYING_HEIGHT + 1 {
            assert(room_for(shares, 0, extent));
            assert(rows@[0].cells(Split::Rows) == share_cells(shares, 0, extent));
            assert(rows@[1].cells(Split::Rows) == share_cells(shares, 1, extent));
            assert(rows@[2].cells(Split::Rows) == share_cells(shares, 2, extent));
        }
        reveal_with_fuel(percent_before, 4);
        let panes = pane_columns();
        let wide = main.extent(Split::Columns);
        assert(percent_before(panes, 0) == 0);
        assert(percent_before(panes, 1) == 25);
        assert(percent_before(panes, 2) == 65);
        assert(percent_before(panes, 3) == 100);
        assert(main.x == area.x && main.width == area.width);
        assert(wide == area.extent(Split::Columns));
        assert(percent_cells(wide, 0) == 0) by (nonlinear_arith);
        assert(percent_cells(wide, 100) == wide) by (nonlinear_arith);
        assert(all_percent(panes));
        assert(columns@[0].start(Split::Columns) == main.start(Split::Columns) + percent_cells(
            wide,
            percent_before(panes, 0),
        ));
        assert(columns@[0].x == main.x);
        assert(columns@[0].cells(Split::Columns) == columns@[0].width);
        assert(columns@[1].cells(Split::Columns) == columns@[1].width);
        assert(columns@[2].cells(Split::Columns) == columns@[2].width);
    }
    regions_of(&rows, &columns)
}

/// The rectangle in the middle of `area`: in front of it stands half of the
/// percentage that it leaves.
pub open spec fn centered_area(percent_x: u16, percent_y: u16, area: Area) -> Area {
    let before_x = (100 - percent_x) / 2;
    let before_y = (100 - percent_y) / 2;
    let left = column_edge(area, before_x);
    let top = row_edge(area, before_y);
    Area {
        x: left as u16,
        y: top as u16,
        width: (column_edge(area, before_x + percent_x) - left) as u16,
        height: (row_edge(area, before_y + percent_y) - top) as u16,
    }
}

proof fn lemma_percent_cells(extent: int, percent: int)
    requires
        0 <= extent,
        0 <= percent <= 100,
    ensures
        0 <= percent_cells(extent, percent) <= extent,
{
    assert(0 <= extent * percent <= extent * 100) by (nonlinear_arith)
        requires
            0 <= extent,
            0 <= percent <= 100,
    ;
}

/// A rectangle centered within `area`, sized as a percentage of it.
pub fn centered_rect(percent_x: u16, percent_y: u16, area: Area) -> (center: Area)
    requires
        percent_x <= 100,
        percent_y <= 100,
    ensures
        center == centered_area(percent_x, percent_y, area),
        center.inside(area),
{
    let rows = split(area, Split::Rows, &center_shares(percent_y));
    let columns = split(rows[1], Split::Columns, &center_shares(percent_x));
    proof {
        reveal_with_fuel(percent_before, 4);
        let high = centered_shares(percent_y);
        let wide = centered_shares(percent_x);
        assert(percent_before(high, 3) <= 100);
        assert(percent_before(wide, 3) <= 100);
        assert(rows@[1].extent(Split::Columns) == area.extent(Split::Columns));
        assert(rows@[1].cells(Split::Rows) == rows@[1].height);
        assert(columns@[1].cells(Split::Columns) == columns@[1].width);
    }
    columns[1]
}

proof fn lemma_percent_steps(extent: int, before: int, percent: int)
    requires
        0 <= extent,
        0 <= before,
        0 <= percent,
        before + percent <= 100,
    ensures
        ({
            let size = percent_cells(extent, before + percent) - percent_cells(extent, before);
            -100 < 100 * size - extent * percent < 100
        }),
        2 * before + percent == 100 ==> {
            let behind = extent - percent_cells(extent, before + percent);
            -1 <= percent_cells(extent, before) - behind <= 1
        },
{
    assert(extent * (before + percent) == extent * before + extent * percent) by (nonlinear_arith);
    if 2 * before + percent == 100 {
        assert(extent * (before + percent) == extent * 100 - extent * before) by (nonlinear_arith)
            requires
                2 * before + percent == 100,
        ;
    }
}

/// A centered rectangle is as large as its percentage of the area, to less than a
/// cell. Where the percentage leaves the same on either side, what is left beside it
/// differs by one cell at most between left and right, and between top and bottom.
pub proof fn centered_rectangles_are_centered(percent_x: u16, percent_y: u16, area: Area)
    requires
        percent_x <= 100,
        percent_y <= 100,
    ensures
        ({
            let center = centered_area(percent_x, percent_y, area);
            let wide = area.extent(Split::Columns);
            let high = area.extent(Split::Rows);
            let left = center.x - area.x;
            let right = area.right_edge() - center.x - center.width;
            let above = center.y - area.y;
            let below = area.bottom_edge() - center.y - center.height;
            &&& center.inside(area)
            &&& -100 < 100 * center.width - wide * percent_x < 100
            &&& -100 < 100 * center.height - high * percent_y < 100
            &&& percent_x % 2 == 0 ==> -1 <= left - right <= 1
            &&& percent_y % 2 == 0 ==> -1 <= above - below <= 1
        }),
{
    let wide = area.extent(Split::Columns);
    let high = area.extent(Split::Rows);
    let before_x = (100 - percent_x) / 2;
    let before_y = (100 - percent_y) / 2;
    lemma_percent_cells(wide, before_x);
    lemma_percent_cells(wide, before_x + percent_x);
    lemma_percent_cells(high, before_y);
    lemma_percent_cells(high, before_y + percent_y);
    lemma_percent_steps(wide, before_x, percent_x as int);
    lemma_percent_steps(high, before_y, percent_y as int);
    lemma_percent_order(wide, before_x, before_x + percent_x);
    lemma_percent_order(high, before_y, before_y + percent_y);
}

proof fn lemma_percent_order(extent: int, less: int, more: int)
    requires
        0 <= extent,
        less <= more,
    ensures
        percent_cells(extent, less) <= percent_cells(extent, more),
{
    assert(extent * less <= extent * more) by (nonlinear_arith)
        requires
            0 <= extent,
            less <= more,
    ;
}

/// Three fifths of a width, but no less than fits the key overview's columns, as
/// far as the width allows.
pub open spec fn overview_width(width: u16) -> int {
    let wanted = (width * 3) / 5;
    let least = if width < CHEATSHEET_MIN_WIDTH {
        width as int
    } else {
        CHEATSHEET_MIN_WIDTH as int
    };
    if wanted < least {
        least
    } else {
        wanted
    }
}

/// The key overview's rectangle.
pub open spec fn overview_area(lines: u16, area: Area) -> Area {
    let width = overview_width(area.width);
    let height = if lines + 2 < area.height {
        lines + 2
    } else {
        area.height as int
    };
    Area {
        x: (area.x + (area.width - width) / 2) as u16,
        y: (area.y + (area.height - height) / 2) as u16,
        width: width as u16,
        height: height as u16,
    }
}

/// A rectangle centered in `area`, tall enough for `lines` (+ borders) and ~60%
/// wide, clamped so it always fits on screen.
pub fn sized_center(lines: u16, area: Area) -> (center: Area)
    requires
        lines <= u16::MAX - 2,
        area.width * 3 <= u16::MAX,
        area.x + area.width <= u16::MAX,
        area.y + area.height <= u16::MAX,
    ensures
        center == overview_area(lines, area),
        center.inside(area),
{
    let height: u16 = if lines + 2 < area.height {
        lines + 2
    } else {
        area.height
    };
    let least: u16 = if area.width < CHEATSHEET_MIN_WIDTH {
        area.width
    } else {
        CHEATSHEET_MIN_WIDTH
    };
    let wanted: u16 = area.width * 3 / 5;
    let width: u16 = if wanted < least {
        least
    } else {
        wanted
    };
    Area {
        x: area.x + (area.width - width) / 2,
        y: area.y + (area.height - height) / 2,
        width,
        height,
    }
}

/// The key overview sits in the middle: what is left beside it differs by one cell
/// at most between left and right, and between top and bottom.
pub proof fn the_overview_is_centered(lines: u16, area: Area)
    requires
        area.x + area.width <= u16::MAX,
        area.y + area.height <= u16::MAX,
    ensures
        ({
            let center = overview_area(lines, area);
            let left = center.x - area.x;
            let right = area.x + area.width - center.x - center.width;
            let above = center.y - area.y;
            let below = area.y + area.height - center.y - center.height;
            0 <= right - left <= 1 && 0 <= below - above <= 1
        }),
{
}

} // verus!
