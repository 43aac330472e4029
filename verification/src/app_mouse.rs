//! The mouse, and the geometry of the last frame that places it.

use vstd::prelude::*;

use crate::app::{App, Geometry, Pane};
use crate::chat::ChatState;
use crate::components::chat::{chat_parts, chat_split};
use crate::components::chrome::{body_split, FILTER_BAR_HEIGHT};
use crate::components::files::{
    diff_page, drawn, draws_split, file_of, folded_of, is_current, is_marked, progress_of,
    tree_count, tree_rows, tree_spans, unified_spans, RowSyntax, TREE_WIDTH,
};
use crate::components::pr_list::{
    body_height, header_spans, is_table, item_spans, pane_lines, row_at, row_under, rows_in,
    rows_left, rule_len, table_start, Columns,
};
use crate::components::review::review_parts;
use crate::diff_view::DiffView;
use crate::drafts::DraftState;
use crate::effect::Effect;
use crate::keys::{MouseAction, MouseEvent};
use crate::layout::{divided_in_two, Constraint, Direction, Rect};
use crate::list_view::PrListState;
use crate::paint::{line_of, Element};
use crate::scroll::{ensure_visible, visible_offset};
use crate::strings::repeated;

verus! {

/// How many rows a notch of the wheel scrolls.
pub const WHEEL_ROWS: i32 = 3;

impl App {
    /// The pane at a place on the screen, if any.
    pub open spec fn pane_under(&self, column: u16, row: u16) -> Option<Pane> {
        if self.review is Some {
            if self.geometry.chat is Some && self.geometry.chat->0.holds(column as int, row as int) {
                Some(Pane::Chat)
            } else if self.geometry.body.holds(column as int, row as int) && row
                >= self.geometry.review_top {
                Some(Pane::Diff)
            } else {
                None
            }
        } else if self.geometry.list.holds(column as int, row as int) {
            Some(Pane::PullRequests)
        } else {
            None
        }
    }

    /// The pane at a place on the screen, if any.
    ///
    /// Anything outside of the panes is none: a click on the filter bar, the tabs or the status line
    /// must not move a cursor to where nobody pointed.
    #[must_use]
    pub fn pane_at(&self, column: u16, row: u16) -> (r: Option<Pane>)
        ensures
            r == self.pane_under(column, row),
    {
        if self.review.is_some() {
            match self.geometry.chat {
                Some(chat) => {
                    if chat.contains(column, row) {
                        return Some(Pane::Chat);
                    }
                },
                None => {},
            }
            if self.geometry.body.contains(column, row) && row >= self.geometry.review_top {
                Some(Pane::Diff)
            } else {
                None
            }
        } else if self.geometry.list.contains(column, row) {
            Some(Pane::PullRequests)
        } else {
            None
        }
    }

    /// The row of a review pane at a row of the screen, counted from the first that is drawn; a
    /// border or the tab row is none.
    pub open spec fn review_row_under(&self, row: u16) -> Option<nat> {
        let bottom = self.geometry.body.y + self.geometry.body.height;
        let end = if bottom <= u16::MAX { bottom } else { u16::MAX as int };
        let first = if self.geometry.review_top < u16::MAX {
            self.geometry.review_top + 1
        } else {
            u16::MAX as int
        };
        let last = if end < 2 { 0 } else { end - 2 };
        if row < first || row > last { None } else { Some((row - first) as nat) }
    }

    fn review_row(&self, row: u16) -> (r: Option<usize>)
        ensures
            match r {
                Some(offset) => self.review_row_under(row) == Some(offset as nat),
                None => self.review_row_under(row) is None,
            },
    {
        let first: u16 = self.geometry.review_top.saturating_add(1);
        let last: u16 = self.geometry.body.y.saturating_add(
            self.geometry.body.height,
        ).saturating_sub(2);
        if row < first || row > last { None } else { Some((row - first) as usize) }
    }

    /// The state after the wheel turned by `delta` rows at a place.
    ///
    /// A wheel moves what is being read, rather than the selection in it. The conversation is
    /// measured from its end, so it scrolls the other way.
    pub open spec fn wheeled(self, column: u16, row: u16, delta: int) -> App {
        let pane = match self.pane_under(column, row) {
            Some(pane) => pane,
            None => self.focus,
        };
        match pane {
            Pane::PullRequests => App {
                list: self.list.scrolled(delta),
                focus: Pane::PullRequests,
                ..self
            },
            Pane::Diff => App {
                review: match self.review {
                    Some(view) => Some(view.wheeled(column < self.geometry.tree_width, delta)),
                    None => None,
                },
                ..self
            },
            Pane::Chat => App {
                chat: ChatState {
                    scroll: crate::scroll::shifted(self.chat.scroll as nat, -delta) as usize,
                    ..self.chat
                },
                ..self
            },
        }
    }

    fn wheel_review(&mut self, over_tree: bool, delta: i32)
        ensures
            *final(self) == (App {
                review: match old(self).review {
                    Some(view) => Some(view.wheeled(over_tree, delta as int)),
                    None => None,
                },
                ..*old(self)
            }),
    {
        match self.review.take() {
            Some(mut view) => {
                view.wheel(over_tree, delta);
                self.review = Some(view);
            },
            None => {},
        }
    }

    fn wheel_list(&mut self, delta: i32)
        ensures
            *final(self) == (App {
                list: old(self).list.scrolled(delta as int),
                focus: Pane::PullRequests,
                ..*old(self)
            }),
    {
        self.list.scroll_by(delta);
        self.focus = Pane::PullRequests;
    }

    fn wheel_chat(&mut self, delta: i32)
        requires
            delta > i32::MIN,
        ensures
            *final(self) == (App {
                chat: ChatState {
                    scroll: crate::scroll::shifted(
                        old(self).chat.scroll as nat,
                        -delta as int,
                    ) as usize,
                    ..old(self).chat
                },
                ..*old(self)
            }),
    {
        self.chat.scroll = crate::scroll::shift(self.chat.scroll, -delta);
    }

    fn scroll_at(&mut self, column: u16, row: u16, delta: i32)
        requires
            delta > i32::MIN,
        ensures
            *final(self) == old(self).wheeled(column, row, delta as int),
    {
        let pane = match self.pane_at(column, row) {
            Some(pane) => pane,
            None => self.focus,
        };
        match pane {
            Pane::PullRequests => self.wheel_list(delta),
            Pane::Diff => {
                let over_tree: bool = column < self.geometry.tree_width;
                self.wheel_review(over_tree, delta);
            },
            Pane::Chat => self.wheel_chat(delta),
        }
    }

    /// The state after a pane was given the focus.
    pub open spec fn focused(self, pane: Pane) -> App {
        App { focus: pane, mode: self.mode_for(pane), ..self }
    }

    /// The list with the cursor on the row that was clicked, if there is one.
    pub open spec fn list_clicked(&self, row: u16) -> PrListState {
        match row_under(self.geometry.list, self.list.scroll as nat, row as int) {
            Some(index) => if index < self.list.visible@.len() {
                PrListState { cursor: index as usize, ..self.list }
            } else {
                self.list
            },
            None => self.list,
        }
    }

    /// What a click does: it gives the pane under the pointer the focus, and moves the cursor there
    /// to the row that was clicked; in the chat it goes back to the end of the conversation.
    pub open spec fn clicked(&self, after: &App, column: u16, row: u16) -> bool {
        match self.pane_under(column, row) {
            None => *after == *self,
            Some(pane) => match pane {
                Pane::PullRequests => *after == (App {
                    list: self.list_clicked(row),
                    ..self.focused(pane)
                }),
                Pane::Diff => {
                    &&& *after == (App { review: after.review, ..self.focused(pane) })
                    &&& match (self.review, self.review_row_under(row)) {
                        (Some(view), Some(offset)) => {
                            &&& after.review is Some
                            &&& view.clicked(
                                &after.review->0,
                                column < self.geometry.tree_width,
                                offset,
                            )
                        },
                        _ => after.review == self.review,
                    }
                },
                Pane::Chat => *after == (App {
                    chat: ChatState { scroll: 0, ..self.chat },
                    ..self.focused(pane)
                }),
            },
        }
    }

    fn give_focus(&mut self, pane: Pane)
        ensures
            *final(self) == old(self).focused(pane),
    {
        self.focus = pane;
        self.sync_mode_to_focus();
    }

    fn click_list(&mut self, row: u16)
        ensures
            *final(self) == (App { list: old(self).list_clicked(row), ..*old(self) }),
    {
        let count: usize = self.list.visible_len();
        match row_at(self.geometry.list, self.list.scroll, row) {
            Some(index) => {
                if index < count {
                    self.list.select_visible(index);
                }
            },
            None => {},
        }
    }

    fn click_review(&mut self, over_tree: bool, row: u16)
        requires
            old(self).review_fits(),
        ensures
            *final(self) == (App { review: final(self).review, ..*old(self) }),
            match (old(self).review, old(self).review_row_under(row)) {
                (Some(view), Some(offset)) => {
                    &&& final(self).review is Some
                    &&& view.clicked(&final(self).review->0, over_tree, offset)
                },
                _ => final(self).review == old(self).review,
            },
    {
        match self.review_row(row) {
            None => {},
            Some(offset) => match self.review.take() {
                Some(mut view) => {
                    view.click(over_tree, offset);
                    self.review = Some(view);
                },
                None => {},
            },
        }
    }

    fn click_at(&mut self, column: u16, row: u16)
        requires
            old(self).review_fits(),
        ensures
            old(self).clicked(final(self), column, row),
    {
        let pane = match self.pane_at(column, row) {
            Some(pane) => pane,
            None => {
                return;
            },
        };
        self.give_focus(pane);
        match pane {
            Pane::PullRequests => self.click_list(row),
            Pane::Diff => {
                let over_tree: bool = column < self.geometry.tree_width;
                self.click_review(over_tree, row);
            },
            Pane::Chat => {
                self.chat.scroll = 0;
            },
        }
    }

    /// What the mouse does.
    pub open spec fn moused(&self, after: &App, event: MouseEvent) -> bool {
        match event.action {
            MouseAction::ScrollDown => *after == self.wheeled(
                event.column,
                event.row,
                WHEEL_ROWS as int,
            ),
            MouseAction::ScrollUp => *after == self.wheeled(
                event.column,
                event.row,
                -WHEEL_ROWS as int,
            ),
            MouseAction::Click => self.clicked(after, event.column, event.row),
            MouseAction::Other => *after == *self,
        }
    }

    /// Handles a mouse event.
    ///
    /// The wheel scrolls whatever the pointer is over, and a click focuses the pane and moves the
    /// selection to the row under the pointer.
    pub fn on_mouse(&mut self, event: MouseEvent) -> (r: Effect)
        requires
            old(self).review_fits(),
        ensures
            r is Nothing,
            old(self).moused(final(self), event),
    {
        match event.action {
            MouseAction::ScrollDown => self.scroll_at(event.column, event.row, WHEEL_ROWS),
            MouseAction::ScrollUp => self.scroll_at(event.column, event.row, -WHEEL_ROWS),
            MouseAction::Click => self.click_at(event.column, event.row),
            MouseAction::Other => {},
        }
        Effect::Nothing
    }

    /// Where the panes of a body are.
    pub open spec fn geometry_of(&self, body: Rect) -> Geometry {
        let (review, chat) = chat_parts(body, self.review is Some && self.chat.open);
        let (filter_bar, list) = divided_in_two(
            Direction::Vertical,
            Constraint::Length(FILTER_BAR_HEIGHT),
            Constraint::Min(3),
            body,
        );
        Geometry {
            width: body.width,
            filter_bar,
            list,
            body,
            review_top: (review.y + 1) as u16,
            tree_width: TREE_WIDTH,
            chat,
        }
    }

    /// Records where the panes of the frame are, so that a mouse event can be placed.
    pub fn record_geometry(&mut self, body: Rect)
        requires
            body.y + body.height <= u16::MAX,
            body.y < u16::MAX,
        ensures
            *final(self) == (App { geometry: old(self).geometry_of(body), ..*old(self) }),
    {
        let (review, chat) = chat_split(body, self.review.is_some() && self.chat.open);
        let (filter_bar, list) = body_split(body);
        self.geometry =
        Geometry {
            width: body.width,
            filter_bar,
            list,
            body,
            review_top: review.y + 1,
            tree_width: TREE_WIDTH,
            chat,
        };
    }

    /// How many rows a review pane has: the body without the tab row and the borders.
    pub open spec fn review_rows(&self) -> nat {
        let all = self.geometry.list.height + FILTER_BAR_HEIGHT;
        let rows = if all <= u16::MAX { all } else { u16::MAX as int };
        if rows < 3 { 0 } else { (rows - 3) as nat }
    }

    fn review_body_height(&self) -> (r: u16)
        ensures
            r == self.review_rows(),
    {
        self.geometry.list.height.saturating_add(FILTER_BAR_HEIGHT).saturating_sub(3)
    }

    /// Where the list starts: as close to where it is scrolled to as its cursor and its length
    /// allow.
    pub open spec fn list_start(&self) -> nat {
        first_row(self.list, self.geometry.list)
    }

    fn sync_review(&mut self, rows: u16)
        ensures
            *final(self) == (App { review: final(self).review, ..*old(self) }),
            match old(self).review {
                Some(view) => {
                    &&& final(self).review is Some
                    &&& view.prepared(&final(self).review->0, rows)
                    &&& view.inv() ==> final(self).review->0.inv()
                },
                None => final(self).review is None,
            },
    {
        match self.review.take() {
            Some(mut view) => {
                view.prepare(rows, rows);
                self.review = Some(view);
            },
            None => {},
        }
    }

    fn sync_list(&mut self)
        ensures
            *final(self) == (App {
                list: PrListState { scroll: old(self).list_start() as usize, ..old(self).list },
                ..*old(self)
            }),
            old(self).list.cursor_fits() ==> final(self).list.scroll == final(self).list_start(),
    {
        let start: usize = row_to_start(&self.list, self.geometry.list);
        proof {
            lemma_first_row_stays(self.list, self.geometry.list);
        }
        self.list.scroll = start;
    }

    /// Works out the scroll offsets of the panes that are about to be drawn.
    ///
    /// What is drawn and what a click maps to are then the same row.
    pub fn sync_scroll(&mut self)
        ensures
            *final(self) == (App {
                review: final(self).review,
                list: PrListState { scroll: old(self).list_start() as usize, ..old(self).list },
                ..*old(self)
            }),
            match old(self).review {
                Some(view) => {
                    &&& final(self).review is Some
                    &&& view.prepared(&final(self).review->0, old(self).review_rows() as u16)
                    &&& view.inv() ==> final(self).review->0.inv()
                },
                None => final(self).review is None,
            },
            old(self).list.cursor_fits() ==> final(self).list.scroll == final(self).list_start(),
    {
        let rows: u16 = self.review_body_height();
        self.sync_list();
        let ghost placed = *self;
        self.sync_review(rows);
        assert(self.list_start() == placed.list_start());
    }
}

/// The first row of a list that is drawn in an area: as close to where the list is scrolled to as
/// its cursor and its length allow.
pub open spec fn first_row(list: PrListState, area: Rect) -> nat {
    let height = body_height(area);
    let len = list.visible@.len();
    let position = if list.cursor < len { list.cursor as nat } else { 0 };
    let start = visible_offset(position, list.scroll as nat, height, len);
    let last = if len > height { (len - height) as nat } else { 0 };
    if start < last { start } else { last }
}

fn row_to_start(list: &PrListState, area: Rect) -> (r: usize)
    ensures
        r == first_row(*list, area),
{
    let height: usize = rows_in(area);
    let len: usize = list.visible_len();
    let position: usize = match list.cursor_position() {
        Some(position) => position,
        None => 0,
    };
    let start: usize = ensure_visible(position, list.scroll, height, len);
    let last: usize = len.saturating_sub(height);
    if start < last { start } else { last }
}

proof fn lemma_first_row_stays(list: PrListState, area: Rect)
    requires
        first_row(list, area) <= usize::MAX,
    ensures
        list.cursor_fits() ==> first_row(
            PrListState { scroll: first_row(list, area) as usize, ..list },
            area,
        ) == first_row(list, area),
{
}

/// A row that is drawn in the list is the row that a click there selects: once the list is scrolled
/// for the frame, what a row of the pane shows is the pull request that a click on it puts the
/// cursor on.
pub proof fn lemma_a_click_selects_the_row_drawn_there(
    app: App,
    ages: Seq<Seq<char>>,
    error: Seq<Seq<char>>,
    i: nat,
    row: u16,
)
    requires
        is_table(app.list, ages.len()),
        app.list.visible@.len() <= usize::MAX,
        app.list.scroll == app.list_start(),
        i < rows_left(app.list, app.geometry.list, app.list.scroll as nat),
        row == app.geometry.list.y + 3 + i,
    ensures
        ({
            let area = app.geometry.list;
            let inner = if area.width < 2 { 0 } else { (area.width - 2) as nat };
            let chosen = app.list_clicked(row).cursor as int;
            let item = app.list.visible@[chosen] as int;
            &&& chosen == app.list.scroll + i
            &&& pane_lines(&app, area, ages, error)[(2 + i) as int] == item_spans(
                Columns::of(inner),
                app.list.items@[item],
                ages[item],
                chosen == app.list.cursor,
            )
        }),
{
    let area = app.geometry.list;
    assert(table_start(app.list, area) == app.list.scroll);
    let inner = if area.width < 2 { 0 } else { (area.width - 2) as nat };
    let head = seq![
        header_spans(Columns::of(inner)),
        line_of(repeated('─', rule_len(area)), Element::Muted),
    ];
    assert(head.len() == 2);
}

/// A row that is drawn in the unified diff is the row that a click there puts the cursor on.
pub proof fn lemma_a_click_in_the_diff_selects_the_row_drawn_there(
    view: DiffView,
    after: DiffView,
    drafts: DraftState,
    terminal: u16,
    width: u16,
    height: u16,
    syntax: Seq<RowSyntax>,
    i: nat,
)
    requires
        !draws_split(view, terminal),
        view.scroll < view.rows@.len() <= usize::MAX,
        syntax.len() == drawn(view, terminal, height).1,
        i < drawn(view, terminal, height).1,
        view.clicked(&after, false, i),
    ensures
        after.cursor == drawn(view, terminal, height).0 + i,
        diff_page(view, drafts, terminal, width, height, syntax)[i as int] == unified_spans(
            view.rows@[after.cursor as int]@,
            after.cursor == view.cursor,
            width,
            is_marked(view, drafts, view.rows@[after.cursor as int]@),
            syntax[i as int].left@,
        ),
{
}

/// A row that is drawn in the tree is the row that a click there activates.
pub proof fn lemma_a_click_in_the_tree_activates_the_row_drawn_there(
    view: DiffView,
    after: DiffView,
    progress: Seq<Seq<char>>,
    height: nat,
    i: nat,
)
    requires
        i < tree_count(view, height),
        view.tree@.len() <= usize::MAX,
        view.clicked(&after, true, i),
    ensures
        ({
            let at = (view.tree_scroll + i) as usize;
            let row = view.tree@[at as int]@;
            &&& tree_rows(view, progress, tree_count(view, height))[i as int] == tree_spans(
                row,
                file_of(view, row),
                folded_of(view, row),
                progress_of(row, progress),
                view.tree_focused && at == view.tree_cursor,
                is_current(view, row),
            )
            &&& DiffView { tree_focused: true, tree_cursor: at, ..view }.activated(&after)
        }),
{
}

/// The panes of a review are drawn where a click is looked for: the tree starts at the row and is as
/// wide as the recorded geometry says, wherever the frame has room for both panes.
pub proof fn lemma_the_panes_are_drawn_where_clicks_are_looked_for(
    app: App,
    body: Rect,
    chat_open: bool,
    composing: bool,
    guidance_height: u16,
)
    requires
        body.x + body.width <= u16::MAX,
        body.y + body.height <= u16::MAX,
        body.height >= 4,
        body.width >= TREE_WIDTH + 20,
    ensures
        ({
            let seen = app.geometry_of(body);
            let parts = review_parts(body, chat_open, composing, guidance_height);
            &&& seen.review_top == parts.tree.y
            &&& seen.tree_width == parts.tree.width
            &&& parts.diff.x == body.x + seen.tree_width
        }),
{
}

} // verus!
