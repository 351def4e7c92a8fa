//! Where the parts of the screen stand.
use vstd::prelude::*;

use crate::outside::split_area;
use crate::state::AppState;
use crate::view::environment::{error_rows, error_rows_for};
use crate::view::response::{HistoryView, HistoryViewModel, smaller};
use crate::view::screen::{
    Overlay, OverlayModel, Resolution, Room, Screen, screen, screen_for, showable,
};
use crate::view::{Area, inset, inside};

verus! {

/// The way in which an area is split: into parts below one another, or beside
/// one another.
#[derive(Clone, Copy, Debug, PartialEq, Eq, Structural)]
pub enum Along {
    Down,
    Across,
}

/// What one part of an area is to get: so many cells, at least so many, or so
/// many in a hundred.
#[derive(Clone, Copy, Debug, PartialEq, Eq, Structural)]
pub enum Share {
    Length(u16),
    AtLeast(u16),
    Percentage(u16),
}

/// Whether no cell of a part lies outside an area.
pub open spec fn within(part: Area, area: Area) -> bool {
    ||| part.width == 0
    ||| part.height == 0
    ||| {
        &&& area.x <= part.x
        &&& part.x + part.width <= area.x + area.width
        &&& area.y <= part.y
        &&& part.y + part.height <= area.y + area.height
    }
}

/// Whether a part goes through the whole of an area from side to side, and
/// stays inside it the way that it is split.
pub open spec fn slice_of(part: Area, area: Area, along: Along) -> bool {
    match along {
        Along::Down => {
            &&& part.x == area.x
            &&& part.width == area.width
            &&& area.y <= part.y
            &&& part.y + part.height <= area.y + area.height
        },
        Along::Across => {
            &&& part.y == area.y
            &&& part.height == area.height
            &&& area.x <= part.x
            &&& part.x + part.width <= area.x + area.width
        },
    }
}

/// How many hundredths a share asks for.
pub open spec fn percent_of(share: Share) -> int {
    match share {
        Share::Percentage(hundredths) => hundredths as int,
        _ => 0,
    }
}

/// How many hundredths the first `n` shares ask for together.
pub open spec fn percent_before(shares: Seq<Share>, n: int) -> int
    decreases n,
{
    if n <= 0 {
        0
    } else {
        percent_before(shares, n - 1) + percent_of(shares[n - 1])
    }
}

/// Whether all shares are percentages, and no more than a hundred together.
pub open spec fn can_be_met(shares: Seq<Share>) -> bool {
    &&& forall|i: int| 0 <= i < shares.len() ==> #[trigger] shares[i] is Percentage
    &&& percent_before(shares, shares.len() as int) <= 100
}

/// How many cells an area has the way that it is split. No cell lies beyond
/// the last that can be counted.
pub open spec fn extent(area: Area, along: Along) -> int {
    match along {
        Along::Down => smaller(area.y + area.height, u16::MAX as int) - area.y,
        Along::Across => smaller(area.x + area.width, u16::MAX as int) - area.x,
    }
}

/// The `size` cells of an area that follow its first `before`.
pub open spec fn piece(area: Area, along: Along, before: int, size: int) -> Area {
    match along {
        Along::Down => Area { y: (area.y + before) as u16, height: size as u16, ..area },
        Along::Across => Area { x: (area.x + before) as u16, width: size as u16, ..area },
    }
}

/// Whether there are two shares, one that takes what it is left and a number
/// of cells.
pub open spec fn one_grows_first(shares: Seq<Share>) -> bool {
    shares.len() == 2 && shares[0] == Share::AtLeast(0) && shares[1] is Length
}

/// An area in two parts: at its end as many cells as asked for, or all that
/// there are, and before them the others.
pub open spec fn grown_first(area: Area, along: Along, last: Share) -> Seq<Area> {
    let all = extent(area, along);
    let taken = smaller(last->Length_0 as int, all);
    seq![piece(area, along, 0, all - taken), piece(area, along, all - taken, taken)]
}

/// Whether there are three shares, one that takes what it is left and a cell
/// on either side of it.
pub open spec fn one_grows_between(shares: Seq<Share>) -> bool {
    shares == seq![Share::Length(1), Share::AtLeast(0), Share::Length(1)]
}

/// Whether the first of three parts is the first cell of an area, the last is
/// its last cell, and the other has the cells between them. Where there is
/// one cell only, either of the two has it.
pub open spec fn grown_between(parts: Seq<Area>, area: Area, along: Along) -> bool {
    let all = extent(area, along);
    &&& all >= 2 ==> parts == seq![
        piece(area, along, 0, 1),
        piece(area, along, 1, all - 2),
        piece(area, along, all - 1, 1),
    ]
    &&& all == 1 ==> parts == seq![
        piece(area, along, 0, 1),
        piece(area, along, 1, 0),
        piece(area, along, 1, 0),
    ] || parts == seq![
        piece(area, along, 0, 0),
        piece(area, along, 0, 0),
        piece(area, along, 0, 1),
    ]
    &&& all == 0 ==> parts == seq![
        piece(area, along, 0, 0),
        piece(area, along, 0, 0),
        piece(area, along, 0, 0),
    ]
}

/// An area without its last rows, and these: as many as asked for, or all
/// that there are.
pub open spec fn rows_below(area: Area, rows: int) -> (Area, Area) {
    let all = extent(area, Along::Down);
    let below = smaller(rows, all);
    (piece(area, Along::Down, 0, all - below), piece(area, Along::Down, all - below, below))
}

/// The first row of an area, its last, and those between them, in the order
/// in which they stand. Where there is one row only, `first` says whether it
/// counts as the first or as the last.
pub open spec fn rows_between(area: Area, first: bool) -> (Area, Area, Area) {
    let all = extent(area, Along::Down);
    let above = if first || all >= 2 {
        smaller(1, all)
    } else {
        0
    };
    let below = smaller(1, all - above);
    (
        piece(area, Along::Down, 0, above),
        piece(area, Along::Down, above, all - above - below),
        piece(area, Along::Down, all - below, below),
    )
}

/// The cell that lies `percent` hundredths into `length` cells from `start`
/// on, to the nearest cell, a half counting up. No cell lies beyond the last
/// that can be counted.
pub open spec fn cell_at(start: u16, length: u16, percent: int) -> int {
    start + (percent * (smaller(start + length, u16::MAX as int) - start) + 50) / 100
}

/// The part of an area from `from` to `to` hundredths of it.
pub open spec fn part_at(area: Area, along: Along, from: int, to: int) -> Area {
    match along {
        Along::Down => Area {
            y: cell_at(area.y, area.height, from) as u16,
            height: (cell_at(area.y, area.height, to) - cell_at(area.y, area.height, from)) as u16,
            ..area
        },
        Along::Across => Area {
            x: cell_at(area.x, area.width, from) as u16,
            width: (cell_at(area.x, area.width, to) - cell_at(area.x, area.width, from)) as u16,
            ..area
        },
    }
}

/// The middle of an area, as wide and as high as the percentages say, behind
/// half of what they leave, in whole hundredths.
pub open spec fn middle_of(percent_x: u16, percent_y: u16, area: Area) -> Area {
    let above = (100 - percent_y) / 2;
    let beside = (100 - percent_x) / 2;
    part_at(
        part_at(area, Along::Down, above, above + percent_y),
        Along::Across,
        beside,
        beside + percent_x,
    )
}

/// What lies inside a border of one cell lies inside what the border is drawn
/// in.
pub proof fn law_the_inside_is_within(area: Area)
    ensures
        within(inside(area), area),
{
}

/// What is inside a part of an area is inside the area.
pub proof fn law_within_is_transitive(inner: Area, part: Area, area: Area)
    requires
        within(inner, part),
        within(part, area),
    ensures
        within(inner, area),
{
}

fn split_in_two(area: Area, along: Along, first: Share, second: Share) -> (r: (Area, Area))
    ensures
        slice_of(r.0, area, along),
        slice_of(r.1, area, along),
        can_be_met(seq![first, second]) ==> {
            &&& r.0 == part_at(area, along, 0, percent_of(first))
            &&& r.1 == part_at(
                area,
                along,
                percent_of(first),
                percent_of(first) + percent_of(second),
            )
        },
        along == Along::Down && first == Share::AtLeast(0) ==> {
            second matches Share::Length(rows) ==> r == rows_below(area, rows as int)
        },
{
    let mut shares: Vec<Share> = Vec::new();
    shares.push(first);
    shares.push(second);
    proof {
        assert(shares@ =~= seq![first, second]);
        reveal_with_fuel(percent_before, 3);
    }
    let parts = split_area(area, along, &shares);
    assert(slice_of(parts@[0], area, along) && slice_of(parts@[1], area, along));
    (parts[0], parts[1])
}

fn split_in_three(area: Area, along: Along, first: Share, second: Share, third: Share) -> (r: (
    Area,
    Area,
    Area,
))
    ensures
        slice_of(r.0, area, along),
        slice_of(r.1, area, along),
        slice_of(r.2, area, along),
        can_be_met(seq![first, second, third]) ==> r.1 == part_at(
            area,
            along,
            percent_of(first),
            percent_of(first) + percent_of(second),
        ),
        along == Along::Down && first == Share::Length(1) && second == Share::AtLeast(0) && third
            == Share::Length(1) ==> r == rows_between(area, true) || r == rows_between(
            area,
            false,
        ),
{
    let mut shares: Vec<Share> = Vec::new();
    shares.push(first);
    shares.push(second);
    shares.push(third);
    proof {
        assert(shares@ =~= seq![first, second, third]);
        reveal_with_fuel(percent_before, 4);
    }
    let parts = split_area(area, along, &shares);
    assert(slice_of(parts@[0], area, along) && slice_of(parts@[1], area, along) && slice_of(
        parts@[2],
        area,
        along,
    ));
    (parts[0], parts[1], parts[2])
}

/// An area in two parts beside one another: a list, and something about what
/// is picked in it.
pub fn list_and_detail(area: Area) -> (r: (Area, Area))
    ensures
        r.0 == part_at(area, Along::Across, 0, 40),
        r.1 == part_at(area, Along::Across, 40, 100),
        slice_of(r.0, area, Along::Across),
        slice_of(r.1, area, Along::Across),
{
    proof {
        reveal_with_fuel(percent_before, 3);
    }
    split_in_two(area, Along::Across, Share::Percentage(40), Share::Percentage(60))
}

/// An area without its last row, and that row, for a line about the others.
pub fn with_footer(area: Area) -> (r: (Area, Area))
    ensures
        r == rows_below(area, 1),
        1 <= area.height && area.y + area.height <= u16::MAX ==> {
            &&& r.0 == (Area { height: (area.height - 1) as u16, ..area })
            &&& r.1 == (Area { y: (area.y + area.height - 1) as u16, height: 1, ..area })
        },
        slice_of(r.0, area, Along::Down),
        slice_of(r.1, area, Along::Down),
{
    split_in_two(area, Along::Down, Share::AtLeast(0), Share::Length(1))
}

/// An area without its last rows, and these, which tell of `errors`
/// environments that could not be read.
pub fn with_errors(area: Area, errors: usize) -> (r: (Area, Area))
    ensures
        r == rows_below(area, error_rows_for(errors as int, area.height as int)),
        area.y + area.height <= u16::MAX ==> {
            let rows = error_rows_for(errors as int, area.height as int);
            &&& r.0 == (Area { height: (area.height - rows) as u16, ..area })
            &&& r.1 == (Area {
                y: (area.y + area.height - rows) as u16,
                height: rows as u16,
                ..area
            })
        },
        slice_of(r.0, area, Along::Down),
        slice_of(r.1, area, Along::Down),
{
    let rows: u16 = error_rows(errors, area.height);
    split_in_two(area, Along::Down, Share::AtLeast(0), Share::Length(rows))
}

/// An area in the middle of another, as wide and as high as the percentages
/// say.
pub fn centered_rect(percent_x: u16, percent_y: u16, area: Area) -> (r: Area)
    requires
        percent_x <= 100,
        percent_y <= 100,
    ensures
        r == middle_of(percent_x, percent_y, area),
        within(r, area),
{
    let above: u16 = (100 - percent_y) / 2;
    let beside: u16 = (100 - percent_x) / 2;
    proof {
        reveal_with_fuel(percent_before, 4);
    }
    let (_, middle, _) = split_in_three(
        area,
        Along::Down,
        Share::Percentage(above),
        Share::Percentage(percent_y),
        Share::Percentage(above),
    );
    let (_, center, _) = split_in_three(
        middle,
        Along::Across,
        Share::Percentage(beside),
        Share::Percentage(percent_x),
        Share::Percentage(beside),
    );
    center
}

/// The part of the screen that something over the others takes: the cells up
/// to and with its border, and those inside it.
#[derive(Clone, Copy, Debug, PartialEq, Eq)]
pub struct Modal {
    pub outer: Area,
    pub inner: Area,
}

/// The part of the screen that something over the others takes.
pub fn modal(percent_x: u16, percent_y: u16, area: Area) -> (r: Modal)
    requires
        percent_x <= 100,
        percent_y <= 100,
    ensures
        r.outer == middle_of(percent_x, percent_y, area),
        within(r.outer, area),
        r.inner == inside(r.outer),
        within(r.inner, area),
{
    let outer = centered_rect(percent_x, percent_y, area);
    proof {
        law_the_inside_is_within(outer);
        law_within_is_transitive(inside(outer), outer, area);
    }
    Modal { outer, inner: inset(outer) }
}

/// How much of the screen something over the others takes, in hundredths of
/// its width and of its height.
pub open spec fn size_of(overlay: OverlayModel) -> (u16, u16) {
    match overlay {
        OverlayModel::Environments(_) => (70, 70),
        OverlayModel::History(HistoryViewModel::Entry { .. }) => (85, 85),
        OverlayModel::History(HistoryViewModel::Gone { .. }) => (85, 85),
        OverlayModel::History(_) => (70, 70),
        OverlayModel::Question(_) => (60, 30),
        OverlayModel::OpenPrompt { .. } => (70, 30),
        OverlayModel::Cheatsheet { .. } => (80, 90),
    }
}

/// How much of the screen something over the others takes, in hundredths of
/// its width and of its height.
pub fn overlay_size(overlay: &Overlay) -> (r: (u16, u16))
    ensures
        r == size_of(overlay@),
        r.0 <= 100,
        r.1 <= 100,
{
    match overlay {
        Overlay::Environments(_) => (70, 70),
        Overlay::History(view) => match view {
            HistoryView::Entry { .. } => (85, 85),
            HistoryView::Gone { .. } => (85, 85),
            HistoryView::Notice { .. } => (70, 70),
            HistoryView::Entries { .. } => (70, 70),
        },
        Overlay::Question(_) => (60, 30),
        Overlay::OpenPrompt { .. } => (70, 30),
        Overlay::Cheatsheet { .. } => (80, 90),
    }
}

/// Where a list of past runs stands inside its border, and the row for the
/// runs that were forgotten: the last, where some were.
pub open spec fn history_parts(view: HistoryViewModel, inner: Area) -> (Area, Option<Area>) {
    match view {
        HistoryViewModel::Entries { dropped: Some(_), .. } => {
            let (list, notice) = rows_below(inner, 1);
            (list, Some(notice))
        },
        _ => (inner, None),
    }
}

/// Where a list of past runs stands inside its border, and the row for the
/// runs that were forgotten.
pub fn history_places(view: &HistoryView, inner: Area) -> (r: (Area, Option<Area>))
    ensures
        r == history_parts(view@, inner),
{
    if let HistoryView::Entries { dropped: Some(_), .. } = view {
        let (list, notice) = with_footer(inner);
        return (list, Some(notice));
    }
    (inner, None)
}

/// Where the parts of the screen stand.
#[derive(Clone, Copy, Debug, PartialEq, Eq)]
pub struct Arrangement {
    /// The row of the tabs, where there is more than one.
    pub tabs: Option<Area>,
    /// The main part, and the two that it falls into while there are requests.
    pub main: Area,
    pub list: Area,
    pub detail: Area,
    /// The two parts of the detail while it shows a response.
    pub response: Area,
    pub response_footer: Area,
    /// The bottom bar.
    pub status: Area,
    /// A past run that is shown in full.
    pub past_run: Modal,
    pub past_response: Area,
    pub past_footer: Area,
}

impl Arrangement {
    /// Whether every part lies inside an area.
    pub open spec fn fits(self, area: Area) -> bool {
        &&& self.tabs is Some ==> within(self.tabs->0, area)
        &&& within(self.main, area)
        &&& within(self.list, area)
        &&& within(self.detail, area)
        &&& within(self.response, area)
        &&& within(self.response_footer, area)
        &&& within(self.status, area)
        &&& within(self.past_run.outer, area)
        &&& within(self.past_run.inner, area)
        &&& within(self.past_response, area)
        &&& within(self.past_footer, area)
    }

    /// How many rows there are for a response.
    pub open spec fn rows(self) -> Room {
        Room { detail: self.response.height, history: self.past_response.height }
    }

    /// How many rows there are for a response.
    pub fn room(&self) -> (r: Room)
        ensures
            r == self.rows(),
    {
        Room { detail: self.response.height, history: self.past_response.height }
    }
}

/// Where the parts of a screen stand that has `area` for them: the tabs, where
/// there is more than one, in the first row, the bottom bar in the last, the
/// main part between them, and under each response a row about it. Where one
/// row is all that there is, `tabs_first` says whether the tabs have it.
pub open spec fn arrangement_for(
    area: Area,
    several_tabs: bool,
    tabs_first: bool,
) -> Arrangement {
    let (tabs, main, status) = if several_tabs {
        let (tabs, main, status) = rows_between(area, tabs_first);
        (Some(tabs), main, status)
    } else {
        let (main, status) = rows_below(area, 1);
        (None, main, status)
    };
    let detail = part_at(main, Along::Across, 40, 100);
    let (response, response_footer) = rows_below(detail, 1);
    let past_run = Modal {
        outer: middle_of(85, 85, area),
        inner: inside(middle_of(85, 85, area)),
    };
    let (past_response, past_footer) = rows_below(past_run.inner, 1);
    Arrangement {
        tabs,
        main,
        list: part_at(main, Along::Across, 0, 40),
        detail,
        response,
        response_footer,
        status,
        past_run,
        past_response,
        past_footer,
    }
}

/// Whether the parts of a screen stand where they belong. Only where one row
/// is all that there is for several tabs and the bottom bar, either may have
/// it.
pub open spec fn arranged(r: Arrangement, area: Area, several_tabs: bool) -> bool {
    ||| r == arrangement_for(area, several_tabs, true)
    ||| r == arrangement_for(area, several_tabs, false)
}

/// Where the parts of a screen stand is settled by its area and by whether
/// there are several tabs, unless one row is all that there is for these and
/// the bottom bar.
pub proof fn law_the_area_settles_the_arrangement(r: Arrangement, area: Area, several_tabs: bool)
    requires
        arranged(r, area, several_tabs),
        several_tabs ==> extent(area, Along::Down) != 1,
    ensures
        r == arrangement_for(area, several_tabs, true),
{
}

/// The tabs have the first row of a screen, the bottom bar the last, and the
/// main part the rows between them. The last row of the part for a response
/// tells about it, and the others show it.
pub proof fn law_each_part_has_its_rows(r: Arrangement, area: Area, several_tabs: bool)
    requires
        arranged(r, area, several_tabs),
        area.y + area.height <= u16::MAX,
        area.height >= (if several_tabs {
            2int
        } else {
            1
        }),
    ensures
        r.tabs is Some <==> several_tabs,
        several_tabs ==> r.tabs == Some(Area { height: 1, ..area }),
        r.status == (Area { y: (area.y + area.height - 1) as u16, height: 1, ..area }),
        several_tabs ==> r.main == (Area {
            y: (area.y + 1) as u16,
            height: (area.height - 2) as u16,
            ..area
        }),
        !several_tabs ==> r.main == (Area { height: (area.height - 1) as u16, ..area }),
        r.list.y == r.main.y && r.list.height == r.main.height,
        r.detail.y == r.main.y && r.detail.height == r.main.height,
        r.detail.height >= 1 ==> {
            &&& r.response == (Area { height: (r.detail.height - 1) as u16, ..r.detail })
            &&& r.response_footer == (Area {
                y: (r.detail.y + r.detail.height - 1) as u16,
                height: 1,
                ..r.detail
            })
        },
        r.past_run.inner.height >= 1 ==> {
            let inner = r.past_run.inner;
            &&& r.past_response == (Area { height: (inner.height - 1) as u16, ..inner })
            &&& r.past_footer == (Area {
                y: (inner.y + inner.height - 1) as u16,
                height: 1,
                ..inner
            })
        },
{
    let upright = part_at(area, Along::Down, 7, 92);
    assert(upright.y + upright.height <= area.y + area.height);
    let outer = middle_of(85, 85, area);
    assert(outer == part_at(upright, Along::Across, 7, 92));
    assert(outer.y == upright.y && outer.height == upright.height);
}

/// The tabs, the main part and the bottom bar follow one another from the
/// first row of a screen to its last, however few there are, and so do the two
/// parts that the main part falls into, from side to side, and each response
/// and the row about it.
pub proof fn law_the_parts_follow_one_another(r: Arrangement, area: Area, several_tabs: bool)
    requires
        arranged(r, area, several_tabs),
        area.y + area.height <= u16::MAX,
        area.x + area.width <= u16::MAX,
    ensures
        r.tabs matches Some(tabs) ==> tabs.y == area.y && tabs.y + tabs.height == r.main.y,
        r.tabs is None ==> r.main.y == area.y,
        r.main.y + r.main.height == r.status.y,
        r.status.y + r.status.height == area.y + area.height,
        r.list.x == r.main.x,
        r.list.x + r.list.width == r.detail.x,
        r.detail.x + r.detail.width == r.main.x + r.main.width,
        r.response.y == r.detail.y,
        r.response.y + r.response.height == r.response_footer.y,
        r.response_footer.y + r.response_footer.height == r.detail.y + r.detail.height,
{
}

/// Where the parts of a screen stand that has `area` for them. There is a row
/// for the tabs exactly when there is more than one, and no part reaches
/// beyond the area.
pub fn arrange(area: Area, several_tabs: bool) -> (r: Arrangement)
    ensures
        arranged(r, area, several_tabs),
        r.fits(area),
{
    let (tabs, main, status) = if several_tabs {
        let (tabs, main, status) = split_in_three(
            area,
            Along::Down,
            Share::Length(1),
            Share::AtLeast(0),
            Share::Length(1),
        );
        (Some(tabs), main, status)
    } else {
        let (main, status) = with_footer(area);
        (None, main, status)
    };
    let (list, detail) = list_and_detail(main);
    let (response, response_footer) = with_footer(detail);
    let past_run = modal(85, 85, area);
    let (past_response, past_footer) = with_footer(past_run.inner);
    proof {
        law_within_is_transitive(list, main, area);
        law_within_is_transitive(detail, main, area);
        law_within_is_transitive(response, detail, area);
        law_within_is_transitive(response_footer, detail, area);
        law_within_is_transitive(past_response, past_run.inner, area);
        law_within_is_transitive(past_footer, past_run.inner, area);
    }
    Arrangement {
        tabs,
        main,
        list,
        detail,
        response,
        response_footer,
        status,
        past_run,
        past_response,
        past_footer,
    }
}

/// Everything that is on the screen at a time, and where its parts stand:
/// responses are scrolled for the rows that they are given.
pub fn arranged_screen(state: &AppState, resolution: &Resolution, area: Area, now: u64) -> (r: (
    Arrangement,
    Screen,
))
    requires
        state@.tabs_valid(),
        showable(state@.active()),
    ensures
        arranged(r.0, area, state@.collections.len() > 1),
        r.0.fits(area),
        r.1@ == screen_for(state@, resolution@, r.0.rows(), now as int),
{
    let arrangement = arrange(area, state.collections.len() > 1);
    let shown = screen(state, resolution, arrangement.room(), now);
    (arrangement, shown)
}

} // verus!
