//! A box of text that is being typed: what it holds and where the cursor is.

use vstd::prelude::*;

use crate::keys::KeyCode;
use crate::strings::{characters, collected, parts_of, split, views};

verus! {

/// A text being typed, with the cursor between two of its characters.
#[derive(Debug, PartialEq, Eq)]
pub struct TextInput {
    /// The characters, newlines included.
    pub chars: Vec<char>,
    /// How many characters stand before the cursor.
    pub cursor: usize,
}

/// Where the line that holds position `p` starts.
pub open spec fn line_start(s: Seq<char>, p: nat) -> nat
    decreases p,
{
    if p == 0 || s[p - 1] == '\n' { p } else { line_start(s, (p - 1) as nat) }
}

/// Where the line that holds position `p` ends.
pub open spec fn line_end(s: Seq<char>, p: nat) -> nat
    decreases s.len() - p,
{
    if p >= s.len() || s[p as int] == '\n' { p } else { line_end(s, p + 1) }
}

/// How many newlines stand before position `p`.
pub open spec fn row_of(s: Seq<char>, p: nat) -> nat
    decreases p,
{
    if p == 0 {
        0
    } else {
        row_of(s, (p - 1) as nat) + if s[p - 1] == '\n' { 1nat } else { 0 }
    }
}

/// The position one line up, at the same column where that line is long enough.
pub open spec fn above(s: Seq<char>, p: nat) -> nat {
    let start = line_start(s, p);
    if start == 0 {
        p
    } else {
        let end = (start - 1) as nat;
        let there = line_start(s, end) + (p - start);
        if there < end { there as nat } else { end }
    }
}

/// The position one line down, at the same column where that line is long enough.
pub open spec fn below(s: Seq<char>, p: nat) -> nat {
    let end = line_end(s, p);
    if end >= s.len() {
        p
    } else {
        let last = line_end(s, end + 1);
        let there = end + 1 + (p - line_start(s, p));
        if there < last { there as nat } else { last }
    }
}

/// What a key makes of a text and a cursor, if the box takes it.
pub open spec fn edited(s: Seq<char>, p: nat, code: KeyCode) -> Option<(Seq<char>, nat)> {
    match code {
        KeyCode::Char(c) => Some((s.insert(p as int, c), p + 1)),
        KeyCode::Backspace => Some(
            if p == 0 { (s, p) } else { (s.remove(p - 1), (p - 1) as nat) },
        ),
        KeyCode::Delete => Some(if p >= s.len() { (s, p) } else { (s.remove(p as int), p) }),
        KeyCode::Left => Some((s, if p > 0 { (p - 1) as nat } else { 0 })),
        KeyCode::Right => Some((s, if p < s.len() { p + 1 } else { p })),
        KeyCode::Up => Some((s, above(s, p))),
        KeyCode::Down => Some((s, below(s, p))),
        KeyCode::Home => Some((s, line_start(s, p))),
        KeyCode::End => Some((s, line_end(s, p))),
        _ => None,
    }
}

impl View for TextInput {
    type V = Seq<char>;

    open spec fn view(&self) -> Seq<char> {
        self.chars@
    }
}

impl Default for TextInput {
    fn default() -> (r: Self)
        ensures
            r@ == Seq::<char>::empty(),
            r.cursor == 0,
    {
        TextInput::new()
    }
}

impl Clone for TextInput {
    fn clone(&self) -> (r: Self)
        ensures
            r@ == self@,
            r.cursor == self.cursor,
    {
        let chars = self.chars.clone();
        assert(chars@ =~= self.chars@);
        TextInput { chars, cursor: self.cursor }
    }
}

impl TextInput {
    /// Whether the cursor is in the text.
    pub open spec fn wf(&self) -> bool {
        self.cursor <= self@.len()
    }

    /// An empty box.
    #[must_use]
    pub fn new() -> (r: TextInput)
        ensures
            r@ == Seq::<char>::empty(),
            r.cursor == 0,
    {
        TextInput { chars: Vec::new(), cursor: 0 }
    }

    /// What the box holds.
    #[must_use]
    pub fn text(&self) -> (r: String)
        ensures
            r@ == self@,
    {
        collected(self.chars.as_slice())
    }

    /// Whether the box holds nothing.
    #[must_use]
    pub fn is_empty(&self) -> (r: bool)
        ensures
            r == (self@.len() == 0),
    {
        self.chars.len() == 0
    }

    /// Replaces what the box holds, with the cursor behind it.
    pub fn set_text(&mut self, text: &str)
        ensures
            final(self)@ == text@,
            final(self).cursor == text@.len(),
    {
        self.chars = characters(text);
        self.cursor = self.chars.len();
    }

    /// Empties the box.
    pub fn clear(&mut self)
        ensures
            final(self)@ == Seq::<char>::empty(),
            final(self).cursor == 0,
    {
        self.chars = Vec::new();
        self.cursor = 0;
    }

    /// Types a character at the cursor.
    pub fn insert(&mut self, c: char)
        requires
            old(self).wf(),
        ensures
            final(self)@ == old(self)@.insert(old(self).cursor as int, c),
            final(self).cursor == old(self).cursor + 1,
            final(self).wf(),
    {
        let at: usize = self.cursor;
        self.chars.insert(at, c);
        let len: usize = self.chars.len();
        assert(at < len);
        self.cursor = at + 1;
    }

    /// Types a text at the cursor.
    pub fn insert_str(&mut self, text: &str)
        requires
            old(self).wf(),
        ensures
            final(self)@ == old(self)@.subrange(0, old(self).cursor as int) + text@
                + old(self)@.subrange(old(self).cursor as int, old(self)@.len() as int),
            final(self).cursor == old(self).cursor + text@.len(),
            final(self).wf(),
    {
        let typed = characters(text);
        let ghost before = self@;
        let ghost at = self.cursor as int;
        let mut i: usize = 0;
        assert(before =~= before.subrange(0, at) + typed@.subrange(0, 0) + before.subrange(
            at,
            before.len() as int,
        ));
        while i < typed.len()
            invariant
                i <= typed@.len(),
                typed@ == text@,
                self.wf(),
                0 <= at <= before.len(),
                self.cursor == at + i,
                self@ == before.subrange(0, at) + typed@.subrange(0, i as int) + before.subrange(
                    at,
                    before.len() as int,
                ),
            decreases typed@.len() - i,
        {
            self.insert(typed[i]);
            i += 1;
            assert(self@ =~= before.subrange(0, at) + typed@.subrange(0, i as int)
                + before.subrange(at, before.len() as int));
        }
        assert(typed@.subrange(0, i as int) =~= text@);
    }

    /// Takes the character before the cursor out.
    pub fn backspace(&mut self)
        requires
            old(self).wf(),
        ensures
            old(self).cursor == 0 ==> *final(self) == *old(self),
            old(self).cursor > 0 ==> final(self)@ == old(self)@.remove(old(self).cursor - 1)
                && final(self).cursor == old(self).cursor - 1,
            final(self).wf(),
    {
        if self.cursor > 0 {
            let at: usize = self.cursor - 1;
            let _ = self.chars.remove(at);
            self.cursor = at;
        }
    }

    /// Takes the character behind the cursor out.
    pub fn delete(&mut self)
        requires
            old(self).wf(),
        ensures
            old(self).cursor >= old(self)@.len() ==> *final(self) == *old(self),
            old(self).cursor < old(self)@.len() ==> final(self)@ == old(self)@.remove(
                old(self).cursor as int,
            ) && final(self).cursor == old(self).cursor,
            final(self).wf(),
    {
        if self.cursor < self.chars.len() {
            let _ = self.chars.remove(self.cursor);
        }
    }

    /// Moves the cursor one character back.
    pub fn left(&mut self)
        ensures
            final(self)@ == old(self)@,
            final(self).cursor == if old(self).cursor > 0 { old(self).cursor - 1 } else { 0 },
    {
        if self.cursor > 0 {
            self.cursor = self.cursor - 1;
        }
    }

    /// Moves the cursor one character on.
    pub fn right(&mut self)
        ensures
            final(self)@ == old(self)@,
            final(self).cursor == if old(self).cursor < old(self)@.len() {
                old(self).cursor + 1
            } else {
                old(self).cursor as int
            },
    {
        if self.cursor < self.chars.len() {
            self.cursor = self.cursor + 1;
        }
    }

    fn start(&self, from: usize) -> (p: usize)
        requires
            from <= self@.len(),
        ensures
            p == line_start(self@, from as nat),
            p <= from,
    {
        let mut p: usize = from;
        while p > 0 && self.chars[p - 1] != '\n'
            invariant
                p <= from <= self@.len(),
                line_start(self@, p as nat) == line_start(self@, from as nat),
            decreases p,
        {
            p -= 1;
        }
        p
    }

    fn finish(&self, from: usize) -> (p: usize)
        requires
            from <= self@.len(),
        ensures
            p == line_end(self@, from as nat),
            from <= p <= self@.len(),
    {
        let mut p: usize = from;
        while p < self.chars.len() && self.chars[p] != '\n'
            invariant
                from <= p <= self@.len(),
                line_end(self@, p as nat) == line_end(self@, from as nat),
            decreases self@.len() - p,
        {
            p += 1;
        }
        p
    }

    /// Moves the cursor one line up.
    pub fn up(&mut self)
        requires
            old(self).wf(),
        ensures
            final(self)@ == old(self)@,
            final(self).cursor == above(old(self)@, old(self).cursor as nat),
            final(self).wf(),
    {
        let start: usize = self.start(self.cursor);
        if start > 0 {
            let end: usize = start - 1;
            let first: usize = self.start(end);
            let column: usize = self.cursor - start;
            self.cursor = if column < end - first { first + column } else { end };
        }
    }

    /// Moves the cursor one line down.
    pub fn down(&mut self)
        requires
            old(self).wf(),
        ensures
            final(self)@ == old(self)@,
            final(self).cursor == below(old(self)@, old(self).cursor as nat),
            final(self).wf(),
    {
        let end: usize = self.finish(self.cursor);
        if end < self.chars.len() {
            let first: usize = end + 1;
            let last: usize = self.finish(first);
            let column: usize = self.cursor - self.start(self.cursor);
            self.cursor = if column < last - first { first + column } else { last };
        }
    }

    /// Moves the cursor to the start of its line.
    pub fn home(&mut self)
        requires
            old(self).wf(),
        ensures
            final(self)@ == old(self)@,
            final(self).cursor == line_start(old(self)@, old(self).cursor as nat),
            final(self).wf(),
    {
        self.cursor = self.start(self.cursor);
    }

    /// Moves the cursor to the end of its line.
    pub fn end(&mut self)
        requires
            old(self).wf(),
        ensures
            final(self)@ == old(self)@,
            final(self).cursor == line_end(old(self)@, old(self).cursor as nat),
            final(self).wf(),
    {
        self.cursor = self.finish(self.cursor);
    }

    /// Takes a key, if it types or moves; returns whether it did.
    pub fn press(&mut self, code: KeyCode) -> (r: bool)
        requires
            old(self).wf(),
        ensures
            match edited(old(self)@, old(self).cursor as nat, code) {
                Some((text, cursor)) => r && final(self)@ == text && final(self).cursor == cursor,
                None => !r && *final(self) == *old(self),
            },
            final(self).wf(),
    {
        match code {
            KeyCode::Char(c) => self.insert(c),
            KeyCode::Backspace => self.backspace(),
            KeyCode::Delete => self.delete(),
            KeyCode::Left => self.left(),
            KeyCode::Right => self.right(),
            KeyCode::Up => self.up(),
            KeyCode::Down => self.down(),
            KeyCode::Home => self.home(),
            KeyCode::End => self.end(),
            _ => {
                return false;
            },
        }
        true
    }

    /// The lines of the box; there is always one.
    #[must_use]
    pub fn lines(&self) -> (r: Vec<String>)
        ensures
            views(r@) == parts_of(self@, '\n'),
            r@.len() > 0,
    {
        let text = self.text();
        split(text.as_str(), '\n')
    }

    /// What stands before and behind the cursor on its line.
    #[must_use]
    pub fn around_cursor(&self) -> (r: (String, String))
        requires
            self.wf(),
        ensures
            r.0@ == self@.subrange(
                line_start(self@, self.cursor as nat) as int,
                self.cursor as int,
            ),
            r.1@ == self@.subrange(
                self.cursor as int,
                line_end(self@, self.cursor as nat) as int,
            ),
    {
        let start: usize = self.start(self.cursor);
        let end: usize = self.finish(self.cursor);
        (
            collected(&self.chars.as_slice()[start..self.cursor]),
            collected(&self.chars.as_slice()[self.cursor..end]),
        )
    }

    /// The cursor's line and column, both counted from zero.
    #[must_use]
    pub fn position(&self) -> (r: (usize, usize))
        requires
            self.wf(),
        ensures
            r.0 == row_of(self@, self.cursor as nat),
            r.1 == self.cursor - line_start(self@, self.cursor as nat),
    {
        let mut row: usize = 0;
        let mut i: usize = 0;
        while i < self.cursor
            invariant
                i <= self.cursor <= self@.len(),
                row == row_of(self@, i as nat),
                row <= i,
            decreases self.cursor - i,
        {
            if self.chars[i] == '\n' {
                row += 1;
            }
            i += 1;
        }
        (row, self.cursor - self.start(self.cursor))
    }
}

/// Taking back what was just typed leaves the text and the cursor as they were.
pub proof fn lemma_backspace_undoes_typing(s: Seq<char>, p: nat, c: char)
    requires
        p <= s.len(),
    ensures
        ({
            let (text, cursor) = edited(s, p, KeyCode::Char(c))->0;
            edited(text, cursor, KeyCode::Backspace) == Some((s, p))
        }),
{
    assert(s.insert(p as int, c).remove(p as int) =~= s);
}

proof fn lemma_line_start_bound(s: Seq<char>, p: nat)
    ensures
        line_start(s, p) <= p,
    decreases p,
{
    if p > 0 {
        lemma_line_start_bound(s, (p - 1) as nat);
    }
}

proof fn lemma_line_end_bound(s: Seq<char>, p: nat)
    requires
        p <= s.len(),
    ensures
        p <= line_end(s, p) <= s.len(),
    decreases s.len() - p,
{
    if p < s.len() {
        lemma_line_end_bound(s, p + 1);
    }
}

/// No key moves the cursor out of the text.
pub proof fn lemma_the_cursor_stays_in_the_text(s: Seq<char>, p: nat, code: KeyCode)
    requires
        p <= s.len(),
    ensures
        edited(s, p, code) matches Some((text, cursor)) ==> cursor <= text.len(),
{
    lemma_line_start_bound(s, p);
    lemma_line_end_bound(s, p);
    if line_start(s, p) > 0 {
        lemma_line_start_bound(s, (line_start(s, p) - 1) as nat);
    }
    if line_end(s, p) < s.len() {
        lemma_line_end_bound(s, line_end(s, p) + 1);
    }
}

/// A line starts behind a line break or at the start of the text, and ends before one or at the
/// end; none stands between.
pub proof fn lemma_where_a_line_starts_and_ends(s: Seq<char>, p: nat, k: int)
    requires
        p <= s.len(),
    ensures
        line_start(s, p) <= p <= line_end(s, p) <= s.len(),
        line_start(s, p) == 0 || s[line_start(s, p) - 1] == '\n',
        line_end(s, p) == s.len() || s[line_end(s, p) as int] == '\n',
        line_start(s, p) <= k < line_end(s, p) ==> s[k] != '\n',
{
    lemma_line_start_bound(s, p);
    lemma_line_end_bound(s, p);
    lemma_line_start_is_near(s, p, k);
    lemma_line_end_is_near(s, p, k);
}

proof fn lemma_line_start_is_near(s: Seq<char>, p: nat, k: int)
    requires
        p <= s.len(),
    ensures
        line_start(s, p) == 0 || s[line_start(s, p) - 1] == '\n',
        line_start(s, p) <= k < p ==> s[k] != '\n',
    decreases p,
{
    if p > 0 && s[p - 1] != '\n' {
        lemma_line_start_is_near(s, (p - 1) as nat, k);
    }
}

proof fn lemma_line_end_is_near(s: Seq<char>, p: nat, k: int)
    requires
        p <= s.len(),
    ensures
        line_end(s, p) == s.len() || s[line_end(s, p) as int] == '\n',
        p <= k < line_end(s, p) ==> s[k] != '\n',
    decreases s.len() - p,
{
    if p < s.len() && s[p as int] != '\n' {
        lemma_line_end_is_near(s, p + 1, k);
    }
}

proof fn lemma_rows_along_a_line(s: Seq<char>, p: nat, q: nat)
    requires
        p <= q <= s.len(),
        forall|k: int| p <= k < q ==> s[k] != '\n',
    ensures
        row_of(s, q) == row_of(s, p),
    decreases q,
{
    if p < q {
        lemma_rows_along_a_line(s, p, (q - 1) as nat);
    }
}

/// Going up leads to the line above, and going down to the line below, at the same column or at the
/// end of a line that is too short for it; on the first and on the last line the cursor stays.
pub proof fn lemma_up_and_down_change_the_line(s: Seq<char>, p: nat)
    requires
        p <= s.len(),
    ensures
        line_start(s, p) == 0 ==> above(s, p) == p,
        line_start(s, p) > 0 ==> {
            &&& row_of(s, above(s, p)) == row_of(s, p) - 1
            &&& above(s, p) - line_start(s, (line_start(s, p) - 1) as nat) == p - line_start(s, p) || (
            above(s, p) == line_start(s, p) - 1 && above(s, p) - line_start(
                s,
                (line_start(s, p) - 1) as nat,
            ) <= p - line_start(s, p))
        },
        line_end(s, p) == s.len() ==> below(s, p) == p,
        line_end(s, p) < s.len() ==> {
            &&& row_of(s, below(s, p)) == row_of(s, p) + 1
            &&& below(s, p) - (line_end(s, p) + 1) == p - line_start(s, p) || (below(s, p) == line_end(
                s,
                line_end(s, p) + 1,
            ) && below(s, p) - (line_end(s, p) + 1) <= p - line_start(s, p))
        },
{
    lemma_line_start_bound(s, p);
    lemma_line_end_bound(s, p);
    let start = line_start(s, p);
    let end = line_end(s, p);
    assert forall|k: int| start <= k < end implies s[k] != '\n' by {
        lemma_where_a_line_starts_and_ends(s, p, k);
    }
    lemma_where_a_line_starts_and_ends(s, p, 0);
    lemma_rows_along_a_line(s, start, p);
    lemma_rows_along_a_line(s, p, end);
    if start > 0 {
        let last = (start - 1) as nat;
        lemma_line_start_bound(s, last);
        assert forall|k: int| line_start(s, last) <= k < last implies s[k] != '\n' by {
            lemma_line_start_is_near(s, last, k);
        }
        lemma_rows_along_a_line(s, above(s, p), last);
        assert(row_of(s, start) == row_of(s, last) + 1);
    }
    if end < s.len() {
        let next = end + 1;
        lemma_line_end_bound(s, next);
        assert forall|k: int| next <= k < line_end(s, next) implies s[k] != '\n' by {
            lemma_line_end_is_near(s, next, k);
        }
        lemma_rows_along_a_line(s, next, below(s, p));
        assert(row_of(s, next) == row_of(s, end) + 1);
    }
}

/// Typing puts the character where the cursor is and leaves all others in their order; taking one
/// out takes the one before the cursor, or with the other key the one behind it; the keys that move
/// leave the text alone.
pub proof fn lemma_a_key_changes_one_character(s: Seq<char>, p: nat, code: KeyCode)
    requires
        p <= s.len(),
        edited(s, p, code) is Some,
    ensures
        ({
            let (text, cursor) = edited(s, p, code)->0;
            &&& code is Char ==> text == s.subrange(0, p as int).push(code->Char_0) + s.subrange(
                p as int,
                s.len() as int,
            ) && cursor == p + 1
            &&& code is Backspace && p > 0 ==> text == s.subrange(0, p - 1) + s.subrange(
                p as int,
                s.len() as int,
            ) && cursor == p - 1
            &&& code is Delete && p < s.len() ==> text == s.subrange(0, p as int) + s.subrange(
                p as int + 1,
                s.len() as int,
            ) && cursor == p
            &&& !(code is Char) && !(code is Backspace) && !(code is Delete) ==> text == s
            &&& code is Left && p > 0 ==> cursor == p - 1
            &&& code is Right && p < s.len() ==> cursor == p + 1
        }),
{
    let (text, cursor) = edited(s, p, code)->0;
    if code is Char {
        assert(text =~= s.subrange(0, p as int).push(code->Char_0) + s.subrange(
            p as int,
            s.len() as int,
        ));
    }
    if code is Backspace && p > 0 {
        assert(text =~= s.subrange(0, p - 1) + s.subrange(p as int, s.len() as int));
    }
    if code is Delete && p < s.len() {
        assert(text =~= s.subrange(0, p as int) + s.subrange(p as int + 1, s.len() as int));
    }
}

} // verus!
