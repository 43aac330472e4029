//! The pull request list: what has been fetched, what the search leaves of it, and the cursor.

use vstd::prelude::*;

use crate::pr::PullRequestSummary;
use crate::scroll::{clamped_offset, dragged, scroll_view, shifted, step, stepped, window};
use crate::strings::{concat3, decimal, number};

verus! {

/// A page of pull requests.
#[derive(Debug, PartialEq, Eq)]
pub struct PullRequestPage {
    /// The pull requests, in the order the forge lists them.
    pub items: Vec<PullRequestSummary>,
    /// Which of them the search that is typed matches, in order.
    pub matches: Vec<usize>,
    /// How many there are in all, when that is known.
    pub total: Option<u64>,
    /// Whether there may be more than the page holds.
    pub may_have_more: bool,
}

/// The list and its cursor.
#[derive(Debug)]
pub struct PrListState {
    /// What has been fetched.
    pub items: Vec<PullRequestSummary>,
    /// Which of the items the search leaves, in order.
    pub visible: Vec<usize>,
    /// The cursor, as an index into [`Self::visible`].
    pub cursor: usize,
    /// The first visible row.
    pub scroll: usize,
    /// How many rows fit, learned from the last frame.
    pub viewport: u16,
    /// What is typed in the search box.
    pub search: String,
    /// The filters of the query, as they are typed.
    pub chips: Vec<String>,
    /// Whether any filter was added to the query.
    pub filtered: bool,
    /// The query, in words.
    pub query: String,
    /// Which state of pull requests is listed.
    pub state_label: String,
    /// How many there are in all, when that is known.
    pub total: Option<u64>,
    /// Whether there may be more than were fetched.
    pub may_have_more: bool,
    /// Whether a fetch is in flight.
    pub loading: bool,
    /// Whether a count is in flight.
    pub counting: bool,
    /// Why the last fetch failed, when it did.
    pub error: Option<String>,
    /// Why what is shown may be old, when it may.
    pub stale: Option<String>,
    /// How many a page asks for.
    pub page_size: u32,
    /// How many are fetched at most.
    pub max_items: u32,
}

/// Where a pull request stands among the first `n` visible ones.
pub open spec fn place_of_number(
    items: Seq<PullRequestSummary>,
    visible: Seq<usize>,
    number: u64,
    n: nat,
) -> Option<usize>
    decreases n,
{
    if n == 0 {
        None
    } else {
        match place_of_number(items, visible, number, (n - 1) as nat) {
            Some(i) => Some(i),
            None => if visible[n - 1] < items.len() && items[visible[n - 1] as int].number == number {
                Some((n - 1) as usize)
            } else {
                None
            },
        }
    }
}

impl PrListState {
    /// Whether nothing has been fetched, typed or filtered yet.
    pub open spec fn is_new(&self, page_size: u32, max_items: u32) -> bool {
        &&& self.items@.len() == 0
        &&& self.visible@.len() == 0
        &&& self.cursor == 0
        &&& self.scroll == 0
        &&& self.viewport == 0
        &&& self.search@.len() == 0
        &&& self.chips@.len() == 1 && self.chips@[0]@ == "is:open"@
        &&& !self.filtered
        &&& self.query@ == "is:open"@
        &&& self.state_label@ == "open"@
        &&& self.total is None
        &&& !self.may_have_more
        &&& !self.loading
        &&& !self.counting
        &&& self.error is None
        &&& self.stale is None
        &&& self.page_size == page_size
        &&& self.max_items == max_items
    }

    /// An empty list.
    #[must_use]
    pub fn new(page_size: u32, max_items: u32) -> (r: PrListState)
        ensures
            r.is_new(page_size, max_items),
    {
        let mut chips: Vec<String> = Vec::new();
        chips.push("is:open".to_owned());
        PrListState {
            items: Vec::new(),
            visible: Vec::new(),
            cursor: 0,
            scroll: 0,
            viewport: 0,
            search: String::new(),
            chips,
            filtered: false,
            query: "is:open".to_owned(),
            state_label: "open".to_owned(),
            total: None,
            may_have_more: false,
            loading: false,
            counting: false,
            error: None,
            stale: None,
            page_size,
            max_items,
        }
    }

    /// The number of the pull request under the cursor.
    pub open spec fn number_at_cursor(&self) -> Option<u64> {
        if self.cursor < self.visible@.len() && self.visible@[self.cursor as int] < self.items@.len() {
            Some(self.items@[self.visible@[self.cursor as int] as int].number)
        } else {
            None
        }
    }

    /// Whether the cursor is on a visible row, or at zero where there is none.
    pub open spec fn cursor_fits(&self) -> bool {
        self.cursor < self.visible@.len() || (self.cursor == 0 && self.visible@.len() == 0)
    }

    /// Where the cursor goes when a page replaces the list: to the pull request it was on.
    pub open spec fn cursor_in(&self, page: PullRequestPage) -> nat {
        let stays = crate::diff_view::clamped_cursor(self.cursor as nat, page.matches@.len());
        match self.number_at_cursor() {
            Some(number) => match place_of_number(
                page.items@,
                page.matches@,
                number,
                page.matches@.len(),
            ) {
                Some(i) => i as nat,
                None => stays,
            },
            None => stays,
        }
    }

    /// The list with a page in place of what was fetched.
    pub open spec fn replaced(self, page: PullRequestPage) -> PrListState {
        PrListState {
            items: page.items,
            visible: page.matches,
            cursor: self.cursor_in(page) as usize,
            total: page.total,
            may_have_more: page.may_have_more,
            loading: false,
            ..self
        }
    }

    /// The list with another search, given which items it matches.
    pub open spec fn searched(self, text: String, matches: Vec<usize>) -> PrListState {
        PrListState {
            search: text,
            visible: matches,
            cursor: crate::diff_view::clamped_cursor(self.cursor as nat, matches@.len()) as usize,
            ..self
        }
    }

    /// Replaces what was fetched, keeping the cursor on the same pull request.
    pub fn replace(&mut self, page: PullRequestPage)
        ensures
            *final(self) == old(self).replaced(page),
            final(self).cursor_fits(),
    {
        let held: Option<u64> = match self.selected() {
            Some(pr) => Some(pr.number),
            None => None,
        };
        let mut found: Option<usize> = None;
        match held {
            Some(number) => {
                let mut i: usize = 0;
                while i < page.matches.len()
                    invariant
                        i <= page.matches@.len(),
                        found == place_of_number(page.items@, page.matches@, number, i as nat),
                        found matches Some(f) ==> f < i,
                    decreases page.matches@.len() - i,
                {
                    let at: usize = page.matches[i];
                    if found.is_none() && at < page.items.len() && page.items[at].number == number {
                        found = Some(i);
                    }
                    i += 1;
                }
            },
            None => {},
        }
        let count: usize = page.matches.len();
        self.items = page.items;
        self.visible = page.matches;
        self.total = page.total;
        self.may_have_more = page.may_have_more;
        self.loading = false;
        match found {
            Some(i) => {
                self.cursor = i;
            },
            None => {
                if self.cursor >= count {
                    self.cursor = if count > 0 { count - 1 } else { 0 };
                }
            },
        }
    }

    /// Notes that a page is being fetched, which clears the last failure.
    pub fn await_page(&mut self)
        ensures
            *final(self) == (PrListState { loading: true, error: None, ..*old(self) }),
    {
        self.loading = true;
        self.error = None;
    }

    /// Notes that the total is being counted.
    pub fn await_count(&mut self)
        ensures
            *final(self) == (PrListState { counting: true, ..*old(self) }),
    {
        self.counting = true;
    }

    /// Records how many there are in all.
    pub fn set_total(&mut self, total: u64)
        ensures
            *final(self) == (PrListState { total: Some(total), counting: false, ..*old(self) }),
    {
        self.total = Some(total);
        self.counting = false;
    }

    /// How many rows the search leaves.
    #[must_use]
    pub fn visible_len(&self) -> (n: usize)
        ensures
            n == self.visible@.len(),
    {
        self.visible.len()
    }

    /// Where the cursor is among the visible rows.
    #[must_use]
    pub fn cursor_position(&self) -> (r: Option<usize>)
        ensures
            r == if self.cursor < self.visible@.len() { Some(self.cursor) } else { None },
    {
        if self.cursor < self.visible.len() { Some(self.cursor) } else { None }
    }

    /// The pull request under the cursor.
    #[must_use]
    pub fn selected(&self) -> (r: Option<&PullRequestSummary>)
        ensures
            r == if self.cursor < self.visible@.len() && self.visible@[self.cursor as int]
                < self.items@.len() {
                Some(&self.items@[self.visible@[self.cursor as int] as int])
            } else {
                None
            },
    {
        if self.cursor < self.visible.len() && self.visible[self.cursor] < self.items.len() {
            Some(&self.items[self.visible[self.cursor]])
        } else {
            None
        }
    }

    /// Puts the cursor on a visible row, clamped to the rows that exist.
    pub fn select_visible(&mut self, index: usize)
        ensures
            *final(self) == (PrListState {
                cursor: crate::diff_view::clamped_cursor(index as nat, old(self).visible@.len()) as usize,
                ..*old(self)
            }),
            final(self).cursor_fits(),
    {
        let count: usize = self.visible.len();
        self.cursor = if index < count { index } else if count > 0 { count - 1 } else { 0 };
    }

    /// Moves the cursor by whole rows, stopping at the ends.
    pub fn move_cursor(&mut self, delta: i32)
        ensures
            *final(self) == (PrListState {
                cursor: stepped(old(self).cursor as nat, delta as int, old(self).visible@.len()) as usize,
                ..*old(self)
            }),
    {
        self.cursor = step(self.cursor, delta, self.visible.len());
    }

    /// The list scrolled by `delta` rows, its cursor dragged along where it would be left outside.
    pub open spec fn scrolled(self, delta: int) -> PrListState {
        let height = window(self.viewport as nat);
        let scroll = clamped_offset(
            shifted(self.scroll as nat, delta),
            height,
            self.visible@.len(),
        );
        PrListState {
            scroll: scroll as usize,
            cursor: dragged(self.cursor as nat, scroll, height, self.visible@.len()) as usize,
            ..self
        }
    }

    /// Scrolls the list by `delta` rows, dragging the cursor if it would be left outside.
    pub fn scroll_by(&mut self, delta: i32)
        ensures
            *final(self) == old(self).scrolled(delta as int),
            old(self).cursor_fits() ==> final(self).cursor_fits(),
    {
        let height: usize = if self.viewport == 0 { 1 } else { self.viewport as usize };
        let len: usize = self.visible.len();
        let mut cursor: usize = self.cursor;
        let mut scroll: usize = self.scroll;
        scroll_view(&mut cursor, &mut scroll, delta, height, len);
        self.cursor = cursor;
        self.scroll = scroll;
    }

    /// Changes the search, given which items it matches.
    pub fn set_search(&mut self, text: String, matches: Vec<usize>)
        ensures
            *final(self) == old(self).searched(text, matches),
            final(self).cursor_fits(),
    {
        let count: usize = matches.len();
        self.search = text;
        self.visible = matches;
        if self.cursor >= count {
            self.cursor = if count > 0 { count - 1 } else { 0 };
        }
    }

    /// Whether it is the search that leaves nothing.
    #[must_use]
    pub fn is_empty_because_of_search(&self) -> (r: bool)
        ensures
            r == (self.search@.len() > 0 && self.items@.len() > 0 && self.visible@.len() == 0),
    {
        !self.search.as_str().is_empty() && self.items.len() > 0 && self.visible.len() == 0
    }

    /// What is asked for: the filters, and behind them what the search looks for.
    pub open spec fn asked(&self) -> Seq<char> {
        if self.search@.len() == 0 { self.query@ } else { self.query@ + " "@ + self.search@ }
    }

    /// What is asked for, in words.
    #[must_use]
    pub fn describe_query(&self) -> (r: String)
        ensures
            r@ == self.asked(),
    {
        if self.search.as_str().is_empty() {
            self.query.clone()
        } else {
            concat3(self.query.as_str(), " ", self.search.as_str())
        }
    }

    /// How much is shown, in words.
    pub open spec fn status(&self) -> Seq<char> {
        let shown = decimal(self.visible@.len());
        match self.total {
            Some(total) => "showing "@ + shown + " of "@ + decimal(total as nat),
            None => if self.may_have_more {
                "showing "@ + shown + " of ≥"@ + shown
            } else {
                "showing "@ + shown + " of "@ + shown
            },
        }
    }

    /// How much is shown, in words.
    #[must_use]
    pub fn status_label(&self) -> (r: String)
        ensures
            r@ == self.status(),
    {
        let shown = number(self.visible.len() as u64);
        match self.total {
            Some(total) => {
                let mut out = concat3("showing ", shown.as_str(), " of ");
                out.append(number(total).as_str());
                out
            },
            None => {
                let mut out = concat3(
                    "showing ",
                    shown.as_str(),
                    if self.may_have_more { " of ≥" } else { " of " },
                );
                out.append(shown.as_str());
                out
            },
        }
    }
}

proof fn lemma_place_of_number(
    items: Seq<PullRequestSummary>,
    visible: Seq<usize>,
    number: u64,
    n: nat,
)
    requires
        n <= visible.len() <= usize::MAX,
    ensures
        match place_of_number(items, visible, number, n) {
            Some(i) => {
                &&& i < n
                &&& visible[i as int] < items.len()
                &&& items[visible[i as int] as int].number == number
                &&& forall|j: int|
                    0 <= j < i ==> (#[trigger] visible[j]) >= items.len() || items[visible[j] as int].number
                        != number
            },
            None => forall|j: int|
                0 <= j < n ==> (#[trigger] visible[j]) >= items.len() || items[visible[j] as int].number
                    != number,
        },
    decreases n,
{
    if n > 0 {
        lemma_place_of_number(items, visible, number, (n - 1) as nat);
    }
}

/// A page replaces all that was fetched, and the cursor stays on the pull request it was on for as
/// long as that one can be seen; whatever the page holds, the cursor is on a row where there is
/// one.
pub proof fn lemma_a_page_keeps_the_cursor_on_its_pull_request(list: PrListState, page: PullRequestPage, at: int)
    ensures
        list.replaced(page).items == page.items,
        list.replaced(page).visible == page.matches,
        list.replaced(page).total == page.total,
        list.replaced(page).search == list.search,
        !list.replaced(page).loading,
        list.number_at_cursor() is Some && 0 <= at < page.matches@.len() && page.matches@[at]
            < page.items@.len() && page.items@[page.matches@[at] as int].number
            == list.number_at_cursor()->0 ==> list.replaced(page).number_at_cursor()
            == list.number_at_cursor() && list.replaced(page).cursor <= at,
        list.replaced(page).cursor_fits(),
        list.replaced(page).cursor > list.cursor ==> list.replaced(page).number_at_cursor()
            == list.number_at_cursor(),
{
    match list.number_at_cursor() {
        Some(number) => {
            assert(page.matches.len() == page.matches@.len());
            lemma_place_of_number(page.items@, page.matches@, number, page.matches@.len());
        },
        None => {},
    }
}

/// A search changes which rows are seen and nothing that was fetched; a cursor on a row that is
/// still there does not move, and one behind the last row goes to it.
pub proof fn lemma_a_search_keeps_what_was_fetched(list: PrListState, text: String, matches: Vec<usize>)
    ensures
        list.searched(text, matches).items == list.items,
        list.searched(text, matches).total == list.total,
        list.searched(text, matches).search == text,
        list.searched(text, matches).visible == matches,
        list.cursor < matches@.len() ==> list.searched(text, matches).cursor == list.cursor,
        list.cursor >= matches@.len() && matches@.len() > 0 ==> list.searched(text, matches).cursor
            == matches@.len() - 1,
        matches@.len() == 0 ==> list.searched(text, matches).cursor == 0,
{
}

} // verus!
