//! The conversation a pull request already has, as the interface walks it.
//!
//! The comments live with the rest of the pull request. What lives here is whether the panel is
//! open, where its cursor is, how far it is scrolled, and which resolve is in flight.

use vstd::prelude::*;

verus! {

/// The thread state shown in the Discussion tab.
#[derive(Debug, Clone, Copy, PartialEq, Eq, Structural)]
pub enum DiscussionFilter {
    /// Every record.
    All,
    /// Current unresolved threads.
    Open,
    /// Resolved threads.
    Resolved,
    /// Threads whose anchor is no longer current.
    Outdated,
}

impl Default for DiscussionFilter {
    fn default() -> (r: Self)
        ensures
            r == DiscussionFilter::All,
    {
        DiscussionFilter::All
    }
}

impl DiscussionFilter {
    /// The name of a filter.
    pub open spec fn name(self) -> Seq<char> {
        match self {
            DiscussionFilter::All => "all"@,
            DiscussionFilter::Open => "open"@,
            DiscussionFilter::Resolved => "resolved"@,
            DiscussionFilter::Outdated => "outdated"@,
        }
    }

    /// The filter that follows.
    pub open spec fn following(self) -> DiscussionFilter {
        match self {
            DiscussionFilter::All => DiscussionFilter::Open,
            DiscussionFilter::Open => DiscussionFilter::Resolved,
            DiscussionFilter::Resolved => DiscussionFilter::Outdated,
            DiscussionFilter::Outdated => DiscussionFilter::All,
        }
    }

    /// Label shown in the tab title.
    #[must_use]
    pub fn label(self) -> (r: &'static str)
        ensures
            r@ == self.name(),
    {
        match self {
            DiscussionFilter::All => "all",
            DiscussionFilter::Open => "open",
            DiscussionFilter::Resolved => "resolved",
            DiscussionFilter::Outdated => "outdated",
        }
    }

    /// The next visible filter.
    #[must_use]
    pub fn next(self) -> (r: Self)
        ensures
            r == self.following(),
    {
        match self {
            DiscussionFilter::All => DiscussionFilter::Open,
            DiscussionFilter::Open => DiscussionFilter::Resolved,
            DiscussionFilter::Resolved => DiscussionFilter::Outdated,
            DiscussionFilter::Outdated => DiscussionFilter::All,
        }
    }
}

/// Cycling four times comes back to the same filter, and not before.
pub proof fn lemma_filters_cycle(filter: DiscussionFilter)
    ensures
        filter.following().following().following().following() == filter,
        filter.following() != filter,
        filter.following().following() != filter,
        filter.following().following().following() != filter,
{
}

/// What the conversation panel is doing.
#[derive(Debug, Clone, Copy, PartialEq, Eq, Structural)]
pub struct DiscussionState {
    /// Whether the panel is what the overlay shows.
    pub panel: bool,
    /// The comment the cursor is on, one-based, as the panel numbers them.
    pub cursor: usize,
    /// Root comment selected in the full Discussion destination.
    pub selected_root: Option<u64>,
    /// How far the panel is scrolled from the top.
    pub scroll: usize,
    /// Which inline-thread state is displayed in the Discussion tab.
    pub filter: DiscussionFilter,
    /// The cursor for which `scroll` was last made visible.
    pub visible_cursor: usize,
    /// The job id of the resolve in flight.
    pub job: u64,
}

impl Default for DiscussionState {
    fn default() -> (r: Self)
        ensures
            r == (DiscussionState {
                panel: false,
                cursor: 0,
                selected_root: None,
                scroll: 0,
                filter: DiscussionFilter::All,
                visible_cursor: 0,
                job: 0,
            }),
    {
        DiscussionState {
            panel: false,
            cursor: 0,
            selected_root: None,
            scroll: 0,
            filter: DiscussionFilter::All,
            visible_cursor: 0,
            job: 0,
        }
    }
}

/// A number kept between one and the larger of one and `count`.
pub open spec fn one_to(n: int, count: nat) -> int {
    if n < 1 || count < 1 {
        1
    } else if n > count {
        count as int
    } else {
        n
    }
}

impl DiscussionState {
    /// Whether the panel was opened on its newest comment.
    pub open spec fn opened(&self, before: &DiscussionState, count: usize) -> bool {
        &&& *self == (DiscussionState {
            panel: true,
            cursor: if count > 1 { count } else { 1 },
            scroll: 0,
            visible_cursor: 0,
            ..*before
        })
    }

    /// Opens the panel on its newest comment.
    ///
    /// The newest, because a conversation is read from the end.
    pub fn open(&mut self, count: usize)
        ensures
            final(self).opened(old(self), count),
    {
        self.panel = true;
        self.cursor = if count > 1 { count } else { 1 };
        self.scroll = 0;
        self.visible_cursor = 0;
    }

    /// Forgets the panel.
    pub fn close(&mut self)
        ensures
            *final(self) == (DiscussionState {
                panel: false,
                cursor: 1,
                scroll: 0,
                visible_cursor: 0,
                ..*old(self)
            }),
    {
        self.panel = false;
        self.cursor = 1;
        self.scroll = 0;
        self.visible_cursor = 0;
    }

    /// The place a move starts from.
    pub open spec fn start(&self) -> int {
        if self.cursor <= isize::MAX { self.cursor as int } else { 1 }
    }

    /// Whether the cursor moved inside the list.
    pub open spec fn moved(&self, before: &DiscussionState, delta: isize, count: usize) -> bool {
        &&& *self == (DiscussionState {
            cursor: one_to(
                before.start() + delta,
                if count <= isize::MAX { count as nat } else { isize::MAX as nat },
            ) as usize,
            ..*before
        })
        &&& 1 <= self.cursor
        &&& count > 0 ==> self.cursor <= count
    }

    /// Moves the cursor, keeping it inside the list.
    pub fn move_cursor(&mut self, delta: isize, count: usize)
        requires
            count > 0 ==> isize::MIN <= old(self).start() + delta <= isize::MAX,
        ensures
            final(self).moved(old(self), delta, count),
    {
        if count == 0 {
            self.cursor = 1;
            return;
        }
        let current: isize = if self.cursor <= isize::MAX as usize { self.cursor as isize } else { 1 };
        let last: isize = if count <= isize::MAX as usize { count as isize } else { isize::MAX };
        let moved: isize = current + delta;
        let kept: isize = if moved < 1 { 1 } else if moved > last { last } else { moved };
        self.cursor = kept as usize;
    }

    /// Keeps the cursor inside the list after the list changed under it.
    pub fn clamp(&mut self, count: usize)
        ensures
            *final(self) == (DiscussionState {
                cursor: one_to(old(self).cursor as int, count as nat) as usize,
                ..*old(self)
            }),
    {
        let last: usize = if count > 1 { count } else { 1 };
        if self.cursor < 1 {
            self.cursor = 1;
        } else if self.cursor > last {
            self.cursor = last;
        }
    }

    /// The index into the comment list that the cursor is on, if there is one.
    #[must_use]
    pub fn index(&self) -> (r: Option<usize>)
        ensures
            r == if self.cursor >= 1 { Some((self.cursor - 1) as usize) } else { None },
    {
        if self.cursor >= 1 { Some(self.cursor - 1) } else { None }
    }

    /// Whether a cursor movement needs its wrapped comment brought into view.
    #[must_use]
    pub fn needs_visibility_sync(&self) -> (r: bool)
        ensures
            r == (self.cursor != self.visible_cursor),
    {
        self.cursor != self.visible_cursor
    }

    /// Records that the current cursor is visible at the supplied offset.
    pub fn set_visible(&mut self, offset: usize)
        ensures
            *final(self) == (DiscussionState {
                scroll: offset,
                visible_cursor: old(self).cursor,
                ..*old(self)
            }),
    {
        self.scroll = offset;
        self.visible_cursor = self.cursor;
    }

    /// Advances the Discussion tab's filter.
    pub fn cycle_filter(&mut self)
        ensures
            *final(self) == (DiscussionState {
                filter: old(self).filter.following(),
                ..*old(self)
            }),
    {
        self.filter = self.filter.next();
    }
}

/// The panel opens on the newest comment, and its cursor moves by as many comments as it is told while
/// there are that many, and otherwise to the end it goes towards.
pub proof fn lemma_the_panel_opens_on_the_newest(
    before: DiscussionState,
    opened: DiscussionState,
    moved: DiscussionState,
    delta: isize,
    count: usize,
)
    requires
        opened.opened(&before, count),
        moved.moved(&opened, delta, count),
        0 < count <= isize::MAX,
    ensures
        opened.panel,
        opened.cursor == count,
        opened.scroll == 0,
        opened.filter == before.filter,
        1 <= moved.cursor <= count,
        1 <= count + delta <= count ==> moved.cursor == count + delta,
        count + delta < 1 ==> moved.cursor == 1,
        count + delta > count ==> moved.cursor == count,
        moved.panel == opened.panel,
        moved.selected_root == before.selected_root,
{
}

} // verus!
