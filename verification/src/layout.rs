//! Rectangles of the screen and how one is divided into several.

use vstd::prelude::*;

verus! {

/// A rectangle of terminal cells.
#[derive(Debug, Clone, Copy, PartialEq, Eq, Structural)]
pub struct Rect {
    /// The first column.
    pub x: u16,
    /// The first row.
    pub y: u16,
    /// How many columns it has.
    pub width: u16,
    /// How many rows it has.
    pub height: u16,
}

impl Rect {
    /// Whether the cell at `column` and `row` lies in the rectangle.
    pub open spec fn holds(self, column: int, row: int) -> bool {
        self.x <= column < self.x + self.width && self.y <= row < self.y + self.height
    }

    /// A rectangle from its corner and its size.
    pub fn new(x: u16, y: u16, width: u16, height: u16) -> (r: Rect)
        ensures
            r == (Rect { x, y, width, height }),
    {
        Rect { x, y, width, height }
    }

    /// Whether the cell at `column` and `row` lies in the rectangle.
    pub fn contains(&self, column: u16, row: u16) -> (r: bool)
        ensures
            r == self.holds(column as int, row as int),
    {
        column >= self.x && column - self.x < self.width && row >= self.y && row - self.y
            < self.height
    }

    /// The rectangle inside a one-cell border.
    pub fn inside(&self) -> (r: Rect)
        ensures
            r == self.framed(),
    {
        let right: u16 = self.x.saturating_add(self.width);
        let bottom: u16 = self.y.saturating_add(self.height);
        Rect {
            x: if self.x < right { self.x + 1 } else { right },
            y: if self.y < bottom { self.y + 1 } else { bottom },
            width: self.width.saturating_sub(2),
            height: self.height.saturating_sub(2),
        }
    }

    /// The rectangle inside a one-cell border: one cell in from each side, as far as there are
    /// cells.
    pub open spec fn framed(self) -> Rect {
        let width = if self.width < 2 { 0 } else { (self.width - 2) as u16 };
        let height = if self.height < 2 { 0 } else { (self.height - 2) as u16 };
        let right = if self.x + self.width <= u16::MAX { self.x + self.width } else { u16::MAX as int };
        let bottom = if self.y + self.height <= u16::MAX { self.y + self.height } else { u16::MAX as int };
        Rect {
            x: if self.x + 1 < right { (self.x + 1) as u16 } else { right as u16 },
            y: if self.y + 1 < bottom { (self.y + 1) as u16 } else { bottom as u16 },
            width,
            height,
        }
    }
}

/// Along which axis a rectangle is divided.
#[derive(Debug, Clone, Copy, PartialEq, Eq, Structural)]
pub enum Direction {
    /// Into rows, one below the other.
    Vertical,
    /// Into columns, side by side.
    Horizontal,
}

/// How much of a rectangle one part takes.
#[derive(Debug, Clone, Copy, PartialEq, Eq, Structural)]
pub enum Constraint {
    /// Exactly this many cells.
    Length(u16),
    /// At least this many cells, and what is left over.
    Min(u16),
    /// This share of the whole, in percent.
    Percentage(u16),
}

/// How many cells the parts ask for at least.
pub open spec fn asked(parts: Seq<Constraint>) -> nat
    decreases parts.len(),
{
    if parts.len() == 0 {
        0
    } else {
        asked(parts.drop_last()) + match parts.last() {
            Constraint::Length(n) => n as nat,
            Constraint::Min(n) => n as nat,
            Constraint::Percentage(_) => 0,
        }
    }
}

/// Whether every part is of a fixed length but the one at `k`, which takes what is left.
pub open spec fn one_grows(parts: Seq<Constraint>, k: int) -> bool {
    &&& 0 <= k < parts.len()
    &&& parts[k] is Min
    &&& parts[k]->Min_0 <= i16::MAX
    &&& forall|i: int| 0 <= i < parts.len() && i != k ==> (#[trigger] parts[i]) is Length
}

/// How long a rectangle is along an axis.
pub open spec fn extent(direction: Direction, area: Rect) -> nat {
    match direction {
        Direction::Vertical => area.height as nat,
        Direction::Horizontal => area.width as nat,
    }
}

/// Where a rectangle starts along an axis.
pub open spec fn start_of(direction: Direction, area: Rect) -> nat {
    match direction {
        Direction::Vertical => area.y as nat,
        Direction::Horizontal => area.x as nat,
    }
}

/// How many cells of an area lie on the grid along an axis.
pub open spec fn room(direction: Direction, area: Rect) -> nat {
    let start = start_of(direction, area);
    let end = start + extent(direction, area);
    if end <= u16::MAX { extent(direction, area) } else { (u16::MAX - start) as nat }
}

/// How long the part at `k` is, which takes what the others leave: all of it where there is enough
/// for every part, and else what it asks for, as far as there is that much.
pub open spec fn grown_len(parts: Seq<Constraint>, k: int, total: nat) -> nat {
    let least = parts[k]->Min_0 as nat;
    if asked(parts) <= total {
        (total - asked(parts) + least) as nat
    } else if least <= total {
        least
    } else {
        total
    }
}

/// Whether the parts, all of a fixed length but one, fill an area one after the other, without gaps.
/// The growing one is as long as it should be; the others are no longer than they ask for, so that
/// they are exactly as long where there is enough for every part.
pub open spec fn tiled(
    direction: Direction,
    parts: Seq<Constraint>,
    area: Rect,
    rects: Seq<Rect>,
) -> bool {
    forall|k: int| #[trigger]
        one_grows(parts, k) ==> forall|i: int|
            0 <= i < parts.len() ==> {
                let len = extent(direction, #[trigger] rects[i]);
                let start = start_of(direction, rects[i]);
                &&& i == k ==> len == grown_len(parts, k, room(direction, area))
                &&& i != k ==> len <= parts[i]->Length_0
                &&& i != k && asked(parts) <= room(direction, area) ==> len == parts[i]->Length_0
                &&& i == 0 ==> start == start_of(direction, area)
                &&& i > 0 ==> start == start_of(direction, rects[i - 1]) + extent(
                    direction,
                    rects[i - 1],
                )
                &&& i == parts.len() - 1 ==> start + len == start_of(direction, area) + room(
                    direction,
                    area,
                )
            }
}

/// The sum of the first `n` shares, in percent.
pub open spec fn share_sum(parts: Seq<Constraint>, n: nat) -> nat
    decreases n,
{
    if n == 0 {
        0
    } else {
        share_sum(parts, (n - 1) as nat) + parts[n - 1]->Percentage_0 as nat
    }
}

/// So many percent of a length, rounded to the nearest number of cells.
pub open spec fn percent_of(total: nat, percent: nat) -> nat {
    (total * percent + 50) / 100
}

/// Whether the parts, all of them shares that leave nothing out or something over, end where the sum
/// of the shares so far puts it.
pub open spec fn shared(
    direction: Direction,
    parts: Seq<Constraint>,
    area: Rect,
    rects: Seq<Rect>,
) -> bool {
    (forall|i: int| 0 <= i < parts.len() ==> (#[trigger] parts[i]) is Percentage) && share_sum(
        parts,
        parts.len(),
    ) <= 100 ==> forall|i: int|
        0 <= i < parts.len() ==> {
            let total = room(direction, area);
            let begin = percent_of(total, share_sum(parts, i as nat));
            let end = percent_of(total, share_sum(parts, (i + 1) as nat));
            &&& start_of(direction, #[trigger] rects[i]) == start_of(direction, area) + begin
            &&& extent(direction, rects[i]) == end - begin
        }
}

/// Whether each rectangle spans the area across the axis.
pub open spec fn spans_across(direction: Direction, area: Rect, rects: Seq<Rect>) -> bool {
    forall|i: int|
        0 <= i < rects.len() ==> match direction {
            Direction::Vertical => (#[trigger] rects[i]).x == area.x && rects[i].width == area.width,
            Direction::Horizontal => rects[i].y == area.y && rects[i].height == area.height,
        }
}

/// Whether each rectangle lies within the area along the axis, and within the grid.
pub open spec fn contained(direction: Direction, area: Rect, rects: Seq<Rect>) -> bool {
    forall|i: int|
        0 <= i < rects.len() ==> {
            &&& start_of(direction, area) <= start_of(direction, #[trigger] rects[i])
            &&& start_of(direction, rects[i]) + extent(direction, rects[i]) <= start_of(
                direction,
                area,
            ) + room(direction, area)
        }
}

/// `ratatui::layout::Layout::split`: divides an area along an axis.
///
/// There is one rectangle for each part. Each spans the area across the axis, and lies within it
/// along the axis, no further than the grid reaches. Where one part may grow and the others have a
/// length, they fill the area without gaps: the others have the length they ask for and the growing
/// one has the rest. Where there is too little, the growing one still has what it asks for, as far
/// as there is that much, and the others share what is left, none of them longer than it asks for.
/// Shares of no more than the whole follow each other, rounded to the nearest cell. How two or more
/// parts of a fixed length share a shortage is left open: the solver breaks ties in the order in
/// which it walks its hash maps.
#[verifier::external_body]
pub(crate) fn split(direction: Direction, parts: &Vec<Constraint>, area: Rect) -> (rects: Vec<Rect>)
    ensures
        rects@.len() == parts@.len(),
        spans_across(direction, area, rects@),
        contained(direction, area, rects@),
        tiled(direction, parts@, area, rects@),
        shared(direction, parts@, area, rects@),
{
    let axis = match direction {
        Direction::Vertical => ratatui::layout::Direction::Vertical,
        Direction::Horizontal => ratatui::layout::Direction::Horizontal,
    };
    let list = parts.iter().map(|part| match part {
        Constraint::Length(n) => ratatui::layout::Constraint::Length(*n),
        Constraint::Min(n) => ratatui::layout::Constraint::Min(*n),
        Constraint::Percentage(n) => ratatui::layout::Constraint::Percentage(*n),
    });
    let Rect { x, y, width, height } = area;
    ratatui::layout::Layout::new(axis, list)
        .split(ratatui::layout::Rect { x, y, width, height })
        .iter()
        .map(|r| Rect { x: r.x, y: r.y, width: r.width, height: r.height })
        .collect()
}

proof fn lemma_asked_two(a: Constraint, b: Constraint)
    ensures
        asked(seq![a, b]) == asked(seq![a]) + asked(seq![b]),
        asked(seq![a]) == match a {
            Constraint::Length(n) => n as nat,
            Constraint::Min(n) => n as nat,
            Constraint::Percentage(_) => 0,
        },
{
    reveal_with_fuel(asked, 3);
    assert(seq![a, b].drop_last() =~= seq![a]);
    assert(seq![a].drop_last() =~= Seq::empty());
    assert(seq![b].drop_last() =~= Seq::empty());
}

/// How much of `total` cells the first of two parts has: what is left of a fixed second part, or
/// its own length, as far as what the growing part needs allows.
pub open spec fn first_len(first: Constraint, second: Constraint, total: nat) -> nat {
    match (first, second) {
        (Constraint::Length(n), Constraint::Min(m)) => if n + m <= total {
            n as nat
        } else if m <= total {
            (total - m) as nat
        } else {
            0
        },
        (Constraint::Min(m), Constraint::Length(n)) => if n + m <= total {
            (total - n) as nat
        } else if m <= total {
            m as nat
        } else {
            total
        },
        _ => total,
    }
}

/// A part of an area: `len` cells along an axis, `from` cells from its start.
pub open spec fn strip(direction: Direction, area: Rect, from: nat, len: nat) -> Rect {
    match direction {
        Direction::Vertical => Rect { y: (area.y + from) as u16, height: len as u16, ..area },
        Direction::Horizontal => Rect { x: (area.x + from) as u16, width: len as u16, ..area },
    }
}

/// Whether one of two parts has a fixed length and the other one grows.
pub open spec fn is_pair(first: Constraint, second: Constraint) -> bool {
    match (first, second) {
        (Constraint::Length(_), Constraint::Min(m)) => m <= i16::MAX,
        (Constraint::Min(m), Constraint::Length(_)) => m <= i16::MAX,
        _ => false,
    }
}

/// Two parts of an area, one of a fixed length and one that takes the rest.
pub open spec fn divided_in_two(
    direction: Direction,
    first: Constraint,
    second: Constraint,
    area: Rect,
) -> (Rect, Rect) {
    let total = room(direction, area);
    let len = first_len(first, second, total);
    (strip(direction, area, 0, len), strip(direction, area, len, (total - len) as nat))
}

/// Divides an area in two: one part of a fixed length, and one that takes the rest.
pub fn split_two(direction: Direction, first: Constraint, second: Constraint, area: Rect) -> (r: (
    Rect,
    Rect,
))
    requires
        is_pair(first, second),
    ensures
        r == divided_in_two(direction, first, second, area),
        contained(direction, area, seq![r.0, r.1]),
{
    let mut parts: Vec<Constraint> = Vec::new();
    parts.push(first);
    parts.push(second);
    assert(parts@ =~= seq![first, second]);
    proof {
        lemma_asked_two(first, second);
        lemma_asked_two(second, first);
    }
    let rects = split(direction, &parts, area);
    proof {
        let k: int = if first is Length { 1 } else { 0 };
        assert(one_grows(parts@, k));
        assert(rects@[0] == rects[0] && rects@[1] == rects[1]);
    }
    assert(seq![rects[0], rects[1]] =~= rects@);
    (rects[0], rects[1])
}

/// How long the part between two parts of a fixed length is.
pub open spec fn between_len(first: u16, least: u16, last: u16, total: nat) -> nat {
    if first + least + last <= total {
        (total - first - last) as nat
    } else if least <= total {
        least as nat
    } else {
        total
    }
}

/// Whether an area is divided in three, without gaps: a part of a fixed length at either end, and
/// what is left between them.
///
/// Where there is too little, the part between them comes first, and what is left then is shared by
/// the other two, neither of them longer than it should be.
pub open spec fn is_in_three(
    direction: Direction,
    first: u16,
    least: u16,
    last: u16,
    area: Rect,
    parts: (Rect, Rect, Rect),
) -> bool {
    let total = room(direction, area);
    let before = extent(direction, parts.0);
    let between = between_len(first, least, last, total);
    let after = total - before - between;
    &&& before <= first
    &&& 0 <= after <= last
    &&& parts.0 == strip(direction, area, 0, before)
    &&& parts.1 == strip(direction, area, before, between)
    &&& parts.2 == strip(direction, area, before + between, after as nat)
}

/// Divides an area in three: a part of a fixed length at either end, and what is left between them.
pub fn split_three(direction: Direction, first: u16, least: u16, last: u16, area: Rect) -> (r: (
    Rect,
    Rect,
    Rect,
))
    requires
        least <= i16::MAX,
    ensures
        is_in_three(direction, first, least, last, area, r),
{
    let mut parts: Vec<Constraint> = Vec::new();
    parts.push(Constraint::Length(first));
    parts.push(Constraint::Min(least));
    parts.push(Constraint::Length(last));
    let rects = split(direction, &parts, area);
    proof {
        let all = parts@;
        assert(one_grows(all, 1));
        assert(asked(all) == first + least + last) by {
            reveal_with_fuel(asked, 4);
            assert(all.drop_last().drop_last().drop_last().len() == 0);
        }
        assert(rects@[0] == rects[0] && rects@[1] == rects[1] && rects@[2] == rects[2]);
        assert(seq![rects[0], rects[1], rects[2]] =~= rects@);
    }
    (rects[0], rects[1], rects[2])
}

/// The middle of three parts: `percent` of an area, centred along an axis.
pub open spec fn middle(direction: Direction, percent: u16, area: Rect) -> Rect {
    let side = ((100 - percent) / 2) as nat;
    let total = room(direction, area);
    let begin = percent_of(total, side);
    strip(direction, area, begin, (percent_of(total, side + percent as nat) - begin) as nat)
}

fn middle_part(direction: Direction, percent: u16, area: Rect) -> (r: Rect)
    requires
        percent <= 100,
    ensures
        r == middle(direction, percent, area),
        direction == Direction::Vertical ==> r.x == area.x && r.width == area.width && r.y
            + r.height <= u16::MAX,
        direction == Direction::Horizontal ==> r.y == area.y && r.height == area.height && r.x
            + r.width <= u16::MAX,
{
    let side: u16 = (100 - percent) / 2;
    let mut parts: Vec<Constraint> = Vec::new();
    parts.push(Constraint::Percentage(side));
    parts.push(Constraint::Percentage(percent));
    parts.push(Constraint::Percentage(side));
    let rects = split(direction, &parts, area);
    proof {
        reveal_with_fuel(share_sum, 4);
        assert(share_sum(parts@, 1) == side);
        assert(share_sum(parts@, 2) == side + percent);
        assert(share_sum(parts@, 3) == side + percent + side);
        assert(rects@[1] == rects[1]);
    }
    rects[1]
}

/// The rectangle in the middle of `area`, as a percentage of it.
pub open spec fn centered_share(area: Rect, percent_x: u16, percent_y: u16) -> Rect {
    middle(Direction::Horizontal, percent_x, middle(Direction::Vertical, percent_y, area))
}

/// A rectangle centred in `area`, as a percentage of it.
pub fn center_share(area: Rect, percent_x: u16, percent_y: u16) -> (r: Rect)
    requires
        percent_x <= 100,
        percent_y <= 100,
    ensures
        r == centered_share(area, percent_x, percent_y),
        r.x + r.width <= u16::MAX,
        r.y + r.height <= u16::MAX,
{
    let row = middle_part(Direction::Vertical, percent_y, area);
    middle_part(Direction::Horizontal, percent_x, row)
}

/// The rectangle of the given size in the middle of `area`, no larger than it.
pub open spec fn centered_in(area: Rect, width: u16, height: u16) -> Rect {
    let w = if width < area.width { width } else { area.width };
    let h = if height < area.height { height } else { area.height };
    Rect {
        x: (area.x + (area.width - w) / 2) as u16,
        y: (area.y + (area.height - h) / 2) as u16,
        width: w,
        height: h,
    }
}

/// A rectangle of the given size, centred in `area` and no larger than it.
pub fn centered(area: Rect, width: u16, height: u16) -> (r: Rect)
    requires
        area.x + area.width <= u16::MAX,
        area.y + area.height <= u16::MAX,
    ensures
        r == centered_in(area, width, height),
        area.x <= r.x && r.x + r.width <= area.x + area.width,
        area.y <= r.y && r.y + r.height <= area.y + area.height,
{
    let w: u16 = if width < area.width { width } else { area.width };
    let h: u16 = if height < area.height { height } else { area.height };
    Rect {
        x: area.x + (area.width - w) / 2,
        y: area.y + (area.height - h) / 2,
        width: w,
        height: h,
    }
}

} // verus!
