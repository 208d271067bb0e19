//! Screen geometry: how the terminal area is divided among the panels and
//! where an overlay is placed.

use vstd::prelude::*;
use tui::layout::{Constraint, Direction, Layout};

verus! {

/// A rectangle of terminal cells.
#[derive(Clone, Copy, Debug, PartialEq, Eq, Structural)]
pub struct Rect {
    pub x: u16,
    pub y: u16,
    pub width: u16,
    pub height: u16,
}

/// The direction along which an area is divided.
#[derive(Clone, Copy, Debug, PartialEq, Eq, Structural)]
pub enum Axis {
    Horizontal,
    Vertical,
}

/// How much of an area one part asks for.
#[derive(Clone, Copy, Debug, PartialEq, Eq, Structural)]
pub enum Extent {
    /// A share of the area, in hundredths.
    Percentage(u16),
    /// A number of cells.
    Length(u16),
    /// At least a number of cells.
    Min(u16),
}

/// The share of the width that the list panel takes, in hundredths.
pub const LIST_PERCENT: u16 = 30;

/// The share of the width that the content panel takes, in hundredths.
pub const CONTENT_PERCENT: u16 = 70;

/// The share of the width that an overlay takes, in hundredths.
pub const OVERLAY_WIDTH_PERCENT: u16 = 60;

/// The share of the height that the help overlay takes, in hundredths.
pub const HELP_HEIGHT_PERCENT: u16 = 20;

/// The share of the height that the search overlay takes, in hundredths.
pub const SEARCH_HEIGHT_PERCENT: u16 = 10;

/// The length of `area` along `axis`.
pub open spec fn length_along(axis: Axis, area: Rect) -> int {
    match axis {
        Axis::Horizontal => area.width as int,
        Axis::Vertical => area.height as int,
    }
}

/// The layout engine can divide `area`: the area ends inside the
/// coordinate range, and every share times the length to divide does too.
pub open spec fn split_is_safe(axis: Axis, extents: Seq<Extent>, area: Rect) -> bool {
    &&& area.x + area.width <= u16::MAX
    &&& area.y + area.height <= u16::MAX
    &&& forall|i: int|
        0 <= i < extents.len() ==> (#[trigger] extents[i] matches Extent::Percentage(share)
            ==> share * length_along(axis, area) <= u16::MAX)
}

/// The margin, the share `percent` and the margin again: the parts that
/// centre a share of `percent` hundredths.
pub open spec fn centered_extents(percent: u16) -> Seq<Extent> {
    seq![
        Extent::Percentage(((100 - percent) / 2) as u16),
        Extent::Percentage(percent),
        Extent::Percentage(((100 - percent) / 2) as u16),
    ]
}

/// The parts of the whole screen from top to bottom: the panels, then one
/// row for the status bar.
pub open spec fn screen_extents() -> Seq<Extent> {
    seq![Extent::Min(1), Extent::Length(1)]
}

/// The parts of the panel area from left to right: the list, then the
/// content.
pub open spec fn panel_extents() -> Seq<Extent> {
    seq![Extent::Percentage(LIST_PERCENT), Extent::Percentage(CONTENT_PERCENT)]
}

/// The layout engine can divide a screen of `size` into the panel area
/// and the status bar, and a panel area no wider than the screen into
/// list and content.
pub open spec fn screen_is_safe(size: Rect) -> bool {
    &&& split_is_safe(Axis::Vertical, screen_extents(), size)
    &&& split_is_safe(Axis::Horizontal, panel_extents(), size)
}

/// The shares are no more than a hundred, and the layout engine can divide
/// `r` from top to bottom by `percent_y` and a part no wider than `r`
/// from left to right by `percent_x`.
pub open spec fn centering_is_safe(percent_x: u16, percent_y: u16, r: Rect) -> bool {
    &&& percent_x <= 100
    &&& percent_y <= 100
    &&& split_is_safe(Axis::Vertical, centered_extents(percent_y), r)
    &&& split_is_safe(Axis::Horizontal, centered_extents(percent_x), r)
}

/// Whether `inner` lies within `outer`.
pub open spec fn lies_within(inner: Rect, outer: Rect) -> bool {
    &&& outer.x <= inner.x
    &&& outer.y <= inner.y
    &&& inner.x + inner.width <= outer.x + outer.width
    &&& inner.y + inner.height <= outer.y + outer.height
}

/// `value` brought into the range from `low` to `high`.
pub open spec fn clamped(value: int, low: int, high: int) -> int {
    if value < low {
        low
    } else if value > high {
        high
    } else {
        value
    }
}

/// The part of `inner` that lies within `outer`: each edge of `inner` is
/// brought between the edges of `outer`. Where the two share nothing, what
/// is left is an empty rectangle on an edge of `outer`.
pub open spec fn clipped(inner: Rect, outer: Rect) -> Rect {
    let left = clamped(inner.x as int, outer.x as int, outer.x + outer.width);
    let right = clamped(inner.x + inner.width, left, outer.x + outer.width);
    let top = clamped(inner.y as int, outer.y as int, outer.y + outer.height);
    let bottom = clamped(inner.y + inner.height, top, outer.y + outer.height);
    Rect {
        x: left as u16,
        y: top as u16,
        width: (right - left) as u16,
        height: (bottom - top) as u16,
    }
}

/// The layout engine, asked to divide `area` along `axis` by `extents`,
/// has answered with `chunks`. The engine may answer one question in more
/// than one way: this says of an answer that it is one of the engine's,
/// not which.
pub uninterp spec fn engine_divides(
    axis: Axis,
    extents: Seq<Extent>,
    area: Rect,
    chunks: Seq<Rect>,
) -> bool;

/// `middle` is the middle of `area` divided along `axis` into margin,
/// share and margin: the second of three parts that the layout engine
/// answered with for these shares, cut to `area`.
pub open spec fn is_centered_along(axis: Axis, percent: u16, area: Rect, middle: Rect) -> bool {
    exists|chunks: Seq<Rect>|
        chunks.len() == 3 && #[trigger] engine_divides(
            axis,
            centered_extents(percent),
            area,
            chunks,
        ) && middle == clipped(chunks[1], area)
}

/// `centered` is centred in `r`: the middle, from left to right by
/// `percent_x`, of the middle of `r` from top to bottom by `percent_y`.
pub open spec fn is_centered_in(percent_x: u16, percent_y: u16, r: Rect, centered: Rect) -> bool {
    exists|band: Rect|
        is_centered_along(Axis::Vertical, percent_y, r, band) && #[trigger] is_centered_along(
            Axis::Horizontal,
            percent_x,
            band,
            centered,
        )
}

/// `tui::layout::Layout::split` with no margin: divides `area` along
/// `axis` into one rectangle for each extent, in order. The rectangles
/// come from a constraint solver: the contract promises their number and
/// records that they are the engine's answer to this question, no more.
/// The outside call multiplies each share by the length to divide in 16
/// bits and requires the area's far edges unclipped, which `requires`
/// asks for.
#[verifier::external_body]
fn solve_layout(axis: Axis, extents: &Vec<Extent>, area: Rect) -> (chunks: Vec<Rect>)
    requires
        split_is_safe(axis, extents@, area),
    ensures
        chunks@.len() == extents@.len(),
        engine_divides(axis, extents@, area, chunks@),
{
    let direction = match axis {
        Axis::Horizontal => Direction::Horizontal,
        Axis::Vertical => Direction::Vertical,
    };
    let constraints: Vec<Constraint> = extents.iter().map(|extent| match *extent {
        Extent::Percentage(share) => Constraint::Percentage(share),
        Extent::Length(cells) => Constraint::Length(cells),
        Extent::Min(cells) => Constraint::Min(cells),
    }).collect();
    let outer = tui::layout::Rect { x: area.x, y: area.y, width: area.width, height: area.height };
    let solved = Layout::default().direction(direction).constraints(constraints).split(outer);
    solved.iter().map(|r| Rect { x: r.x, y: r.y, width: r.width, height: r.height }).collect()
}

/// Whether the layout engine can divide `area` along `axis` by `extents`.
pub fn can_split(axis: Axis, extents: &Vec<Extent>, area: Rect) -> (safe: bool)
    ensures
        safe == split_is_safe(axis, extents@, area),
{
    if area.x as u32 + area.width as u32 > u16::MAX as u32 || area.y as u32 + area.height as u32
        > u16::MAX as u32 {
        return false;
    }
    let length: u32 = match axis {
        Axis::Horizontal => area.width as u32,
        Axis::Vertical => area.height as u32,
    };
    let mut i: usize = 0;
    while i < extents.len()
        invariant
            i <= extents.len(),
            length == length_along(axis, area),
            forall|j: int|
                0 <= j < i ==> (#[trigger] extents@[j] matches Extent::Percentage(share) ==> share
                    * length <= u16::MAX),
        decreases extents.len() - i,
    {
        match extents[i] {
            Extent::Percentage(share) => {
                assert(share * length <= 0xffff * 0xffff) by (nonlinear_arith)
                    requires
                        share <= 0xffff,
                        length <= 0xffff,
                ;
                if share as u32 * length > u16::MAX as u32 {
                    return false;
                }
            },
            _ => {},
        }
        i += 1;
    }
    true
}

/// Divides `area` along `axis` into one rectangle for each extent, or
/// returns `None` where the layout engine cannot divide it. The rectangles
/// are the layout engine's answer.
pub fn split(axis: Axis, extents: &Vec<Extent>, area: Rect) -> (chunks: Option<Vec<Rect>>)
    ensures
        chunks is Some <==> split_is_safe(axis, extents@, area),
        chunks matches Some(found) ==> found@.len() == extents@.len() && engine_divides(
            axis,
            extents@,
            area,
            found@,
        ),
{
    if can_split(axis, extents, area) {
        Some(solve_layout(axis, extents, area))
    } else {
        None
    }
}

/// `value` brought into the range from `low` to `high`.
fn clamp(value: u32, low: u32, high: u32) -> (fitted: u32)
    requires
        low <= high,
    ensures
        fitted == clamped(value as int, low as int, high as int),
{
    if value < low {
        low
    } else if value > high {
        high
    } else {
        value
    }
}

/// The part of `inner` that lies within `outer`. A rectangle that lies
/// within `outer` already is returned as it is.
pub fn clip(inner: Rect, outer: Rect) -> (part: Rect)
    ensures
        part == clipped(inner, outer),
        lies_within(part, outer),
        lies_within(inner, outer) ==> part == inner,
{
    let left = clamp(inner.x as u32, outer.x as u32, outer.x as u32 + outer.width as u32);
    let right = clamp(
        inner.x as u32 + inner.width as u32,
        left,
        outer.x as u32 + outer.width as u32,
    );
    let top = clamp(inner.y as u32, outer.y as u32, outer.y as u32 + outer.height as u32);
    let bottom = clamp(
        inner.y as u32 + inner.height as u32,
        top,
        outer.y as u32 + outer.height as u32,
    );
    Rect {
        x: left as u16,
        y: top as u16,
        width: (right - left) as u16,
        height: (bottom - top) as u16,
    }
}

/// Where the layout engine can divide an area, it can divide every
/// rectangle within it.
pub proof fn lemma_split_safe_within(axis: Axis, extents: Seq<Extent>, inner: Rect, outer: Rect)
    requires
        lies_within(inner, outer),
        split_is_safe(axis, extents, outer),
    ensures
        split_is_safe(axis, extents, inner),
{
    assert forall|i: int| 0 <= i < extents.len() implies (#[trigger] extents[i] matches Extent::Percentage(
        share,
    ) ==> share * length_along(axis, inner) <= u16::MAX) by {
        if let Extent::Percentage(share) = extents[i] {
            assert(share * length_along(axis, inner) <= share * length_along(axis, outer))
                by (nonlinear_arith)
                requires
                    0 <= share,
                    0 <= length_along(axis, inner) <= length_along(axis, outer),
            ;
        }
    }
}

/// The margin, the share and the margin again that centre a share of
/// `percent` hundredths, or `None` where `percent` is over a hundred.
pub fn centering(percent: u16) -> (extents: Option<Vec<Extent>>)
    ensures
        percent > 100 ==> extents is None,
        percent <= 100 ==> extents is Some && extents->Some_0@ == centered_extents(percent),
{
    if percent > 100 {
        return None;
    }
    let margin = (100 - percent) / 2;
    let mut extents: Vec<Extent> = Vec::new();
    extents.push(Extent::Percentage(margin));
    extents.push(Extent::Percentage(percent));
    extents.push(Extent::Percentage(margin));
    assert(extents@ =~= centered_extents(percent));
    Some(extents)
}

/// The rectangle at `position` of `chunks`, or `None` beyond its end.
pub fn chunk_at(chunks: &Vec<Rect>, position: usize) -> (chunk: Option<Rect>)
    ensures
        chunk == if position < chunks@.len() {
            Some(chunks@[position as int])
        } else {
            None
        },
{
    if position < chunks.len() {
        Some(chunks[position])
    } else {
        None
    }
}

/// The rectangle at `position` of `chunks`, cut to `area`, or `None`
/// beyond the end of `chunks`.
pub fn part_of(chunks: &Vec<Rect>, position: usize, area: Rect) -> (part: Option<Rect>)
    ensures
        part == if position < chunks@.len() {
            Some(clipped(chunks@[position as int], area))
        } else {
            None
        },
{
    match chunk_at(chunks, position) {
        Some(chunk) => Some(clip(chunk, area)),
        None => None,
    }
}

/// The middle of `area` when it is divided into margin, share and margin
/// along `axis`, or `None` where the share is over a hundred or the
/// layout engine cannot divide the area. The middle is the second part
/// that the engine answers with, cut to `area`.
pub fn centered_along(axis: Axis, percent: u16, area: Rect) -> (middle: Option<Rect>)
    ensures
        middle is Some <==> percent <= 100 && split_is_safe(axis, centered_extents(percent), area),
        middle matches Some(part) ==> is_centered_along(axis, percent, area, part) && lies_within(
            part,
            area,
        ),
{
    match centering(percent) {
        Some(extents) => match split(axis, &extents, area) {
            Some(chunks) => part_of(&chunks, 1, area),
            None => None,
        },
        None => None,
    }
}

/// A rectangle centred in `r` that takes `percent_x` hundredths of its
/// width and `percent_y` hundredths of its height: `r` is divided from top
/// to bottom, and the middle part from left to right.
///
/// Returns `None` where a share is over a hundred or the layout engine
/// cannot divide `r` in both directions. Everywhere else it returns the
/// middle of the middle: of `r`, from top to bottom, by margins of half
/// of what `percent_y` leaves, and of that band, from left to right, by
/// margins of half of what `percent_x` leaves, each as the layout engine
/// answers and cut to what was divided.
pub fn centered_rect(percent_x: u16, percent_y: u16, r: Rect) -> (centered: Option<Rect>)
    ensures
        centered is Some <==> centering_is_safe(percent_x, percent_y, r),
        centered matches Some(part) ==> is_centered_in(percent_x, percent_y, r, part)
            && lies_within(part, r),
{
    let columns = match centering(percent_x) {
        Some(columns) => columns,
        None => {
            return None;
        },
    };
    if !can_split(Axis::Horizontal, &columns, r) {
        return None;
    }
    match centered_along(Axis::Vertical, percent_y, r) {
        Some(band) => {
            proof {
                lemma_split_safe_within(
                    Axis::Horizontal,
                    centered_extents(percent_x),
                    band,
                    r,
                );
            }
            centered_along(Axis::Horizontal, percent_x, band)
        },
        None => None,
    }
}

/// Where the three fixed parts of the screen lie.
#[derive(Clone, Copy, Debug, PartialEq, Eq, Structural)]
pub struct ScreenLayout {
    pub list: Rect,
    pub content: Rect,
    pub status: Rect,
}

/// `layout` lies on a screen of `size`: the list, the content and the
/// status bar each lie within it.
pub open spec fn layout_lies_within(layout: ScreenLayout, size: Rect) -> bool {
    &&& lies_within(layout.list, size)
    &&& lies_within(layout.content, size)
    &&& lies_within(layout.status, size)
}

/// `parts` divide a screen of `size`: the layout engine answered with two
/// parts for the screen from top to bottom, the panel area of at least one
/// row and the status bar of one row, and with two parts for the panel
/// area from left to right, the list and the content by their shares of
/// the width. Each part is cut to what was divided.
pub open spec fn is_screen_layout(size: Rect, parts: ScreenLayout) -> bool {
    exists|main: Seq<Rect>, panels: Seq<Rect>|
        main.len() == 2 && panels.len() == 2 && engine_divides(
            Axis::Vertical,
            screen_extents(),
            size,
            main,
        ) && #[trigger] engine_divides(
            Axis::Horizontal,
            panel_extents(),
            clipped(main[0], size),
            panels,
        ) && parts == (ScreenLayout {
            list: clipped(panels[0], clipped(main[0], size)),
            content: clipped(panels[1], clipped(main[0], size)),
            status: clipped(main[1], size),
        })
}

/// The parts of the whole screen from top to bottom.
pub fn screen_rows() -> (rows: Vec<Extent>)
    ensures
        rows@ == screen_extents(),
{
    let mut rows: Vec<Extent> = Vec::new();
    rows.push(Extent::Min(1));
    rows.push(Extent::Length(1));
    assert(rows@ =~= screen_extents());
    rows
}

/// The parts of the panel area from left to right.
pub fn panel_columns() -> (columns: Vec<Extent>)
    ensures
        columns@ == panel_extents(),
{
    let mut columns: Vec<Extent> = Vec::new();
    columns.push(Extent::Percentage(LIST_PERCENT));
    columns.push(Extent::Percentage(CONTENT_PERCENT));
    assert(columns@ =~= panel_extents());
    columns
}

/// The screen's three parts, from the two parts `main` that the screen
/// was divided into, top to bottom, and the two parts `panels` that the
/// panel area was divided into, left to right: each cut to what was
/// divided. `None` where either holds fewer than two parts.
pub fn arrange_screen(main: &Vec<Rect>, panels: &Vec<Rect>, size: Rect) -> (layout: Option<
    ScreenLayout,
>)
    ensures
        layout == if main@.len() >= 2 && panels@.len() >= 2 {
            Some(
                ScreenLayout {
                    list: clipped(panels@[0], clipped(main@[0], size)),
                    content: clipped(panels@[1], clipped(main@[0], size)),
                    status: clipped(main@[1], size),
                },
            )
        } else {
            None
        },
{
    if main.len() >= 2 && panels.len() >= 2 {
        let panel = clip(main[0], size);
        Some(
            ScreenLayout {
                list: clip(panels[0], panel),
                content: clip(panels[1], panel),
                status: clip(main[1], size),
            },
        )
    } else {
        None
    }
}

/// Divides the screen into the panel area and the status bar, at least
/// one row for the first and one row for the second, and the panel area
/// into list and content by their shares of the width.
///
/// Returns `None` where the layout engine cannot divide the screen in
/// both directions. Everywhere else it returns the parts that the engine
/// answers with for these rows and these columns, each cut to what was
/// divided, so that all three lie within the screen.
pub fn screen_layout(size: Rect) -> (layout: Option<ScreenLayout>)
    ensures
        layout is Some <==> screen_is_safe(size),
        layout matches Some(parts) ==> is_screen_layout(size, parts) && layout_lies_within(
            parts,
            size,
        ),
{
    let rows = screen_rows();
    let columns = panel_columns();
    if !can_split(Axis::Horizontal, &columns, size) {
        return None;
    }
    match split(Axis::Vertical, &rows, size) {
        Some(main) => {
            let panel = clip(main[0], size);
            proof {
                lemma_split_safe_within(Axis::Horizontal, panel_extents(), panel, size);
            }
            match split(Axis::Horizontal, &columns, panel) {
                Some(panels) => arrange_screen(&main, &panels, size),
                None => None,
            }
        },
        None => None,
    }
}

} // verus!
