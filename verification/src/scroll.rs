//! Windows over a list of rows: where the view starts and where the cursor may stand.

use vstd::prelude::*;

verus! {

/// The rows a window of the given height shows: never none.
pub open spec fn window(height: nat) -> nat {
    if height == 0 { 1 } else { height }
}

/// The offset nearest to `offset` that leaves no row of the window empty if it can be helped.
pub open spec fn clamped_offset(offset: nat, height: nat, len: nat) -> nat {
    let last: nat = if len > window(height) { (len - window(height)) as nat } else { 0 };
    if offset < last { offset } else { last }
}

/// Clamps a view offset to the rows that exist.
pub fn clamp_offset(offset: usize, height: usize, len: usize) -> (clamped: usize)
    ensures
        clamped == clamped_offset(offset as nat, height as nat, len as nat),
{
    let rows: usize = if height == 0 { 1 } else { height };
    let last: usize = len.saturating_sub(rows);
    if offset < last { offset } else { last }
}

/// The offset that shows `cursor`, as close to `offset` as the rows allow.
pub open spec fn visible_offset(cursor: nat, offset: nat, height: nat, len: nat) -> nat {
    let start = clamped_offset(offset, height, len);
    if cursor < start {
        clamped_offset(cursor, height, len)
    } else if cursor >= start + window(height) {
        clamped_offset((cursor + 1 - window(height)) as nat, height, len)
    } else {
        start
    }
}

/// The offset that keeps `cursor` inside the window.
///
/// A cursor that is already visible leaves the offset alone, so a view that was scrolled by
/// hand is not dragged back under the cursor.
pub fn ensure_visible(cursor: usize, offset: usize, height: usize, len: usize) -> (start: usize)
    ensures
        start == visible_offset(cursor as nat, offset as nat, height as nat, len as nat),
        cursor < len ==> start <= cursor < start + window(height as nat),
        start <= offset || start <= cursor,
{
    let rows: usize = if height == 0 { 1 } else { height };
    let start: usize = clamp_offset(offset, rows, len);
    if cursor < start {
        return clamp_offset(cursor, rows, len);
    }
    if cursor - start >= rows {
        return clamp_offset(cursor - (rows - 1), rows, len);
    }
    start
}

/// A window that shows the cursor and no empty row stays where it is.
pub proof fn lemma_visible_stays(cursor: nat, offset: nat, height: nat, len: nat)
    requires
        offset <= cursor < offset + window(height),
        offset + window(height) <= len,
    ensures
        visible_offset(cursor, offset, height, len) == offset,
{
}

/// Showing the cursor twice shows it where it was shown the first time.
pub proof fn lemma_visible_idempotent(cursor: nat, offset: nat, height: nat, len: nat)
    requires
        cursor < len,
    ensures
        visible_offset(cursor, visible_offset(cursor, offset, height, len), height, len)
            == visible_offset(cursor, offset, height, len),
{
}

/// A position moved by `delta`, stopping at zero and at the largest index a machine has.
pub open spec fn shifted(position: nat, delta: int) -> nat {
    if position + delta < 0 {
        0
    } else if position + delta > usize::MAX {
        usize::MAX as nat
    } else {
        (position + delta) as nat
    }
}

/// Moves a position by a signed number of rows, stopping at both ends of the range.
pub fn shift(position: usize, delta: i32) -> (r: usize)
    ensures
        r == shifted(position as nat, delta as int),
{
    if delta >= 0 {
        position.saturating_add(delta as usize)
    } else {
        let back: i64 = -(delta as i64);
        position.saturating_sub(back as usize)
    }
}

/// A cursor moved by `delta` among `len` rows.
pub open spec fn stepped(cursor: nat, delta: int, len: nat) -> nat {
    if len == 0 {
        cursor
    } else if shifted(cursor, delta) < len {
        shifted(cursor, delta)
    } else {
        (len - 1) as nat
    }
}

/// Moves a cursor by whole rows, stopping at the ends; without rows it stays.
pub fn step(cursor: usize, delta: i32, len: usize) -> (r: usize)
    ensures
        r == stepped(cursor as nat, delta as int, len as nat),
        len > 0 ==> r < len,
{
    if len == 0 {
        return cursor;
    }
    let moved: usize = shift(cursor, delta);
    if moved < len { moved } else { len - 1 }
}

/// Where the cursor is after the window moved to `offset`.
pub open spec fn dragged(cursor: nat, offset: nat, height: nat, len: nat) -> nat {
    let last: nat = if len > 0 { (len - 1) as nat } else { 0 };
    let bottom = (offset + window(height) - 1) as nat;
    if cursor < offset {
        offset
    } else if cursor > bottom {
        if bottom < last { bottom } else { last }
    } else {
        cursor
    }
}

/// Scrolls the view by `delta` rows, dragging the cursor only if it would fall outside the
/// window.
pub fn scroll_view(cursor: &mut usize, offset: &mut usize, delta: i32, height: usize, len: usize)
    ensures
        *final(offset) == clamped_offset(
            shifted(*old(offset) as nat, delta as int),
            height as nat,
            len as nat,
        ),
        *final(cursor) == dragged(
            *old(cursor) as nat,
            *final(offset) as nat,
            height as nat,
            len as nat,
        ),
        *old(cursor) < len ==> *final(cursor) < len && *final(offset) <= *final(cursor)
            < *final(offset) + window(height as nat),
{
    let rows: usize = if height == 0 { 1 } else { height };
    let start: usize = clamp_offset(shift(*offset, delta), rows, len);
    *offset = start;
    let last: usize = len.saturating_sub(1);
    if *cursor < start {
        *cursor = start;
    } else if *cursor - start >= rows {
        let bottom: usize = start + (rows - 1);
        *cursor = if bottom < last { bottom } else { last };
    }
}

/// Converts a number of lines into a height, saturating when there are too many for one.
pub fn height_for(lines: usize) -> (height: u16)
    ensures
        height == if lines <= u16::MAX { lines as int } else { u16::MAX as int },
{
    if lines <= 65535 { lines as u16 } else { u16::MAX }
}

/// A step lands exactly as far away as it says, and stops at the first and the last row.
pub proof fn lemma_a_step_stops_at_the_ends(cursor: nat, delta: int, len: nat)
    requires
        0 < len <= usize::MAX,
    ensures
        0 <= cursor + delta < len ==> stepped(cursor, delta, len) == cursor + delta,
        cursor + delta < 0 ==> stepped(cursor, delta, len) == 0,
        cursor + delta >= len ==> stepped(cursor, delta, len) == len - 1,
{
}

/// A step back undoes a step that stopped at neither end.
pub proof fn lemma_stepping_back_undoes_a_step(cursor: nat, delta: int, len: nat)
    requires
        cursor < len <= usize::MAX,
        0 <= cursor + delta < len,
    ensures
        stepped(stepped(cursor, delta, len), -delta, len) == cursor,
{
}

/// A window starts where it shows no empty row while there are rows enough to fill it, moves no
/// further than that, and otherwise stays where it was asked to start.
pub proof fn lemma_a_window_shows_rows(offset: nat, height: nat, len: nat)
    requires
        height > 0,
    ensures
        ({
            let start = clamped_offset(offset, height, len);
            &&& start <= offset
            &&& start == 0 || start + height <= len
            &&& offset + height <= len ==> start == offset
            &&& offset + height > len && len >= height ==> start + height == len
            &&& len < height ==> start == 0
        }),
{
}

/// The cursor's row is in the window, and a window that has to move for it moves no further than it
/// must: the cursor is then on its first or its last row.
pub proof fn lemma_the_cursor_is_in_the_window(cursor: nat, offset: nat, height: nat, len: nat)
    requires
        cursor < len,
        height > 0,
    ensures
        ({
            let start = visible_offset(cursor, offset, height, len);
            let asked = clamped_offset(offset, height, len);
            &&& start <= cursor < start + height
            &&& start == 0 || start + height <= len
            &&& start < asked ==> start == cursor || start + height == len
            &&& start > asked ==> start + height == cursor + 1
        }),
{
}

/// A cursor that the window still shows is not dragged; one above it goes to its first row, one
/// below it to its last row, and always to a row there is.
pub proof fn lemma_dragging_keeps_the_cursor_in_the_window(cursor: nat, offset: nat, height: nat, len: nat)
    requires
        height > 0,
        cursor < len,
        offset < len,
    ensures
        ({
            let after = dragged(cursor, offset, height, len);
            &&& offset <= after < offset + height
            &&& after < len
            &&& offset <= cursor < offset + height ==> after == cursor
            &&& cursor < offset ==> after == offset
            &&& cursor >= offset + height ==> after == offset + height - 1
        }),
{
}

} // verus!
