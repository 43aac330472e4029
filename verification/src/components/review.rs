//! The review screen: where its parts stand, its tabs, and the tabs that are not files.

use vstd::prelude::*;

use crate::app::App;
use crate::components::chat::{chat_parts, chat_split};
use crate::components::drafts::{composer_parts, composer_split};
use crate::components::files::TREE_WIDTH;
use crate::layout::{divided_in_two, split_two, Constraint, Direction, Rect};
use crate::paint::{plain, span, Element, Line, SpanView};
use crate::pr::PullRequestDetail;
use crate::strings::{concat2, concat3, concat4, decimal, number};
use crate::text::{columns, truncate, truncated, width};

verus! {

broadcast use {crate::paint::group_page, crate::strings::lemma_views_push};

/// Every rectangle that makes up a review frame.
///
/// Drawing, focus, scrolling and clicks use this one model. The diff is what the chat and an open
/// composer leave, rather than an approximation of it.
#[derive(Debug, Clone, Copy, PartialEq, Eq, Structural)]
pub struct ReviewLayout {
    /// The numbered tab row.
    pub tabs: Rect,
    /// Full-width content below the tabs, used by the tabs that are not files.
    pub content: Rect,
    /// The file tree.
    pub tree: Rect,
    /// Compact or expanded guidance for the current file, above the code.
    pub guidance: Option<Rect>,
    /// The visible diff rows.
    pub diff: Rect,
    /// The optional inline comment composer.
    pub composer: Option<Rect>,
    /// The optional chat pane.
    pub chat: Option<Rect>,
}

/// How the area above the composer is divided between the guidance and the diff.
pub open spec fn guidance_parts(area: Rect, height: u16) -> (Option<Rect>, Rect) {
    if height == 0 {
        (None, area)
    } else {
        let most = if area.height < 3 { 0 } else { (area.height - 3) as u16 };
        let (guidance, diff) = divided_in_two(
            Direction::Vertical,
            Constraint::Length(if height < most { height } else { most }),
            Constraint::Min(3),
            area,
        );
        (Some(guidance), diff)
    }
}

/// The rectangles of a review frame: the tabs on top; below them the tree at the left, and at the
/// right the guidance, the diff and the composer; the chat below all of these.
pub open spec fn review_parts(
    area: Rect,
    chat_open: bool,
    composing: bool,
    guidance_height: u16,
) -> ReviewLayout {
    let (tabs, content) = divided_in_two(
        Direction::Vertical,
        Constraint::Length(1),
        Constraint::Min(3),
        area,
    );
    let (body, chat) = chat_parts(content, chat_open);
    let (tree, file_area) = divided_in_two(
        Direction::Horizontal,
        Constraint::Length(TREE_WIDTH),
        Constraint::Min(20),
        body,
    );
    let (file_body, composer) = composer_parts(file_area, composing);
    let (guidance, diff) = guidance_parts(file_body, guidance_height);
    ReviewLayout { tabs, content, tree, guidance, diff, composer, chat }
}

/// Calculates the review frame's rectangles once.
#[must_use]
pub fn layout(area: Rect, chat_open: bool, composing: bool, guidance_height: u16) -> (r: ReviewLayout)
    ensures
        r == review_parts(area, chat_open, composing, guidance_height),
{
    let (tabs, content) = split_two(
        Direction::Vertical,
        Constraint::Length(1),
        Constraint::Min(3),
        area,
    );
    assert(seq![tabs, content][1] == content);
    let (body, chat) = chat_split(content, chat_open);
    let (tree, file_area) = split_two(
        Direction::Horizontal,
        Constraint::Length(TREE_WIDTH),
        Constraint::Min(20),
        body,
    );
    let (file_body, composer) = composer_split(file_area, composing);
    let (guidance, diff) = if guidance_height == 0 {
        (None, file_body)
    } else {
        let most: u16 = file_body.height.saturating_sub(3);
        let rows: u16 = if guidance_height < most { guidance_height } else { most };
        let (upper, lower) = split_two(
            Direction::Vertical,
            Constraint::Length(rows),
            Constraint::Min(3),
            file_body,
        );
        (Some(upper), lower)
    };
    ReviewLayout { tabs, content, tree, guidance, diff, composer, chat }
}

/// How high a rectangle is, where it is there.
pub open spec fn rows_of(part: Option<Rect>) -> int {
    match part {
        Some(part) => part.height as int,
        None => 0,
    }
}

/// The parts of a review frame tile it: the tabs and the content are as high as the frame, the tree
/// and the chat as high as the content, the guidance, the diff and the composer as high as the
/// tree, and the tree and the diff are as wide as the frame.
pub proof fn lemma_the_review_tiles_its_frame(
    area: Rect,
    chat_open: bool,
    composing: bool,
    guidance_height: u16,
)
    requires
        area.x + area.width <= u16::MAX,
        area.y + area.height <= u16::MAX,
    ensures
        ({
            let parts = review_parts(area, chat_open, composing, guidance_height);
            &&& parts.tabs.height + parts.content.height == area.height
            &&& parts.content.y == area.y + parts.tabs.height
            &&& parts.tree.height + rows_of(parts.chat) == parts.content.height
            &&& rows_of(parts.guidance) + parts.diff.height + rows_of(parts.composer)
                == parts.tree.height
            &&& parts.tree.width + parts.diff.width == area.width
            &&& parts.tree.x == area.x && parts.diff.x == area.x + parts.tree.width
            &&& parts.diff.y == parts.tree.y + rows_of(parts.guidance)
            &&& parts.composer matches Some(composer) ==> composer.y == parts.diff.y
                + parts.diff.height
            &&& parts.chat matches Some(chat) ==> chat.y == parts.tree.y + parts.tree.height
        }),
{
}

/// A destination of the review screen.
#[derive(Debug, Clone, Copy, PartialEq, Eq, Structural)]
pub enum ReviewTab {
    /// What the pull request is.
    Overview,
    /// Its files.
    Files,
    /// Its checks.
    Checks,
    /// What was said about it.
    Discussion,
    /// The chat.
    Ask,
}

impl ReviewTab {
    /// The name of a tab.
    pub open spec fn name(self) -> Seq<char> {
        match self {
            ReviewTab::Overview => "Overview"@,
            ReviewTab::Files => "Files"@,
            ReviewTab::Checks => "Checks"@,
            ReviewTab::Discussion => "Discussion"@,
            ReviewTab::Ask => "Ask"@,
        }
    }

    /// The place of a tab, from one.
    pub open spec fn place(self) -> nat {
        match self {
            ReviewTab::Overview => 1,
            ReviewTab::Files => 2,
            ReviewTab::Checks => 3,
            ReviewTab::Discussion => 4,
            ReviewTab::Ask => 5,
        }
    }

    /// The tab at a place, counted from zero.
    pub open spec fn at(i: int) -> ReviewTab {
        if i == 0 {
            ReviewTab::Overview
        } else if i == 1 {
            ReviewTab::Files
        } else if i == 2 {
            ReviewTab::Checks
        } else if i == 3 {
            ReviewTab::Discussion
        } else {
            ReviewTab::Ask
        }
    }

    /// The tab's name.
    #[must_use]
    pub fn label(self) -> (r: &'static str)
        ensures
            r@ == self.name(),
    {
        match self {
            ReviewTab::Overview => "Overview",
            ReviewTab::Files => "Files",
            ReviewTab::Checks => "Checks",
            ReviewTab::Discussion => "Discussion",
            ReviewTab::Ask => "Ask",
        }
    }

    /// The tab's number.
    #[must_use]
    pub fn number(self) -> (r: u64)
        ensures
            r == self.place(),
    {
        match self {
            ReviewTab::Overview => 1,
            ReviewTab::Files => 2,
            ReviewTab::Checks => 3,
            ReviewTab::Discussion => 4,
            ReviewTab::Ask => 5,
        }
    }

    fn nth(i: usize) -> (r: ReviewTab)
        ensures
            r == ReviewTab::at(i as int),
    {
        if i == 0 {
            ReviewTab::Overview
        } else if i == 1 {
            ReviewTab::Files
        } else if i == 2 {
            ReviewTab::Checks
        } else if i == 3 {
            ReviewTab::Discussion
        } else {
            ReviewTab::Ask
        }
    }
}

/// How many tabs there are.
pub const TABS: usize = 5;

/// How many things were said about a pull request.
pub open spec fn said_count(detail: PullRequestDetail) -> nat {
    detail.reviews@.len() + detail.comments@.len() + detail.conversation@.len()
}

/// The number beside a tab, which counts what is to be found there.
pub open spec fn count_of(app: &App, tab: ReviewTab) -> Option<nat> {
    match app.detail {
        None => None,
        Some(detail) => match tab {
            ReviewTab::Overview => None,
            ReviewTab::Files => Some(detail.summary.changed_files as nat),
            ReviewTab::Checks => Some(detail.checks@.len()),
            ReviewTab::Discussion => Some(said_count(detail)),
            ReviewTab::Ask => match app.chat.session {
                Some(session) => if app.review is Some && app.chat.open {
                    Some(
                        crate::session::count_questions(
                            session@.messages,
                            session@.messages.len(),
                        ),
                    )
                } else {
                    None
                },
                None => None,
            },
        },
    }
}

fn tab_count(app: &App, tab: ReviewTab) -> (r: Option<u64>)
    requires
        app.detail is Some ==> said_count(app.detail->0) <= u64::MAX,
    ensures
        match r {
            Some(n) => count_of(app, tab) == Some(n as nat),
            None => count_of(app, tab) is None,
        },
{
    match &app.detail {
        None => None,
        Some(detail) => match tab {
            ReviewTab::Overview => None,
            ReviewTab::Files => Some(detail.summary.changed_files),
            ReviewTab::Checks => Some(detail.checks.len() as u64),
            ReviewTab::Discussion => Some(
                detail.reviews.len() as u64 + detail.comments.len() as u64
                    + detail.conversation.len() as u64,
            ),
            ReviewTab::Ask => match app.chat_state() {
                Some(chat) => match &chat.session {
                    Some(session) => Some(session.turns() as u64),
                    None => None,
                },
                None => None,
            },
        },
    }
}

/// The label of a tab, and what a click on it is tested against.
pub open spec fn tab_words(app: &App, tab: ReviewTab, counted: bool) -> Seq<char> {
    match count_of(app, tab) {
        Some(count) => if counted {
            "["@ + decimal(tab.place()) + " "@ + tab.name() + " ("@ + decimal(count) + ")] "@
        } else {
            "["@ + decimal(tab.place()) + " "@ + tab.name() + "] "@
        },
        None => "["@ + decimal(tab.place()) + " "@ + tab.name() + "] "@,
    }
}

/// The label of a tab.
#[must_use]
pub fn tab_label(app: &App, tab: ReviewTab, show_count: bool) -> (r: String)
    requires
        app.detail is Some ==> said_count(app.detail->0) <= u64::MAX,
    ensures
        r@ == tab_words(app, tab, show_count),
{
    let start = concat4("[", number(tab.number()).as_str(), " ", tab.label());
    match tab_count(app, tab) {
        Some(count) => if show_count {
            concat4(start.as_str(), " (", number(count).as_str(), ")] ")
        } else {
            concat2(start.as_str(), "] ")
        },
        None => concat2(start.as_str(), "] "),
    }
}

/// Whether the tab row is short of room: no counts, and less of the title.
pub open spec fn is_compact(area: Rect) -> bool {
    area.width < 120
}

/// What stands before the tabs: the pull request's number and title.
pub open spec fn tab_prefix(detail: PullRequestDetail, compact: bool) -> (Seq<char>, Seq<char>) {
    (
        " #"@ + decimal(detail.summary.number as nat) + " "@,
        truncated(detail.summary.title@, if compact { 15 } else { 60 }) + " "@,
    )
}

/// The first `n` tabs.
pub open spec fn tab_spans(app: &App, selected: ReviewTab, counted: bool, n: nat) -> Seq<SpanView> {
    Seq::new(
        n,
        |i: int|
            span(
                tab_words(app, ReviewTab::at(i), counted),
                if ReviewTab::at(i) == selected { Element::Selection } else { Element::Fg },
            ),
    )
}

/// The tab row: which pull request, and which view of it.
pub open spec fn tab_row(app: &App, area: Rect, selected: ReviewTab) -> Seq<SpanView> {
    match app.detail {
        None => Seq::empty(),
        Some(detail) => {
            let compact = is_compact(area);
            let (first, second) = tab_prefix(detail, compact);
            seq![span(first, Element::Title), span(second, Element::Fg)] + tab_spans(
                app,
                selected,
                !compact,
                TABS as nat,
            )
        },
    }
}

/// The tab row.
#[must_use]
pub fn tabs(app: &App, area: Rect, selected: ReviewTab) -> (r: Line)
    requires
        app.detail is Some ==> said_count(app.detail->0) <= u64::MAX,
    ensures
        r@ == tab_row(app, area, selected),
{
    match &app.detail {
        None => Line::new(),
        Some(detail) => {
            let compact: bool = area.width < 120;
            let room: usize = if compact { 15 } else { 60 };
            let mut line = Line::new();
            line.push(
                concat3(" #", number(detail.summary.number).as_str(), " "),
                plain(Element::Title),
            );
            line.push(
                concat2(truncate(detail.summary.title.as_str(), room).as_str(), " "),
                plain(Element::Fg),
            );
            let ghost first = line@;
            let ghost prefix = tab_prefix(*detail, compact);
            assert(first =~= seq![span(prefix.0, Element::Title), span(prefix.1, Element::Fg)]);
            assert(first + tab_spans(app, selected, !compact, 0) =~= first);
            let mut i: usize = 0;
            while i < TABS
                invariant
                    i <= TABS,
                    app.detail is Some ==> said_count(app.detail->0) <= u64::MAX,
                    line@ == first + tab_spans(app, selected, !compact, i as nat),
                decreases TABS - i,
            {
                let tab = ReviewTab::nth(i);
                line.push(
                    tab_label(app, tab, !compact),
                    plain(if tab == selected { Element::Selection } else { Element::Fg }),
                );
                i += 1;
                assert(line@ =~= first + tab_spans(app, selected, !compact, i as nat));
            }
            line
        },
    }
}

/// A number that saturates at the last column.
pub open spec fn column_after(x: nat, wide: nat) -> nat {
    if x + wide < u16::MAX { x + wide } else { u16::MAX as nat }
}

/// Where the tab at place `i` starts: behind the title and the tabs before it.
pub open spec fn tab_start(app: &App, area: Rect, i: nat) -> nat
    decreases i,
{
    let compact = is_compact(area);
    if i == 0 {
        let (first, second) = tab_prefix(app.detail->0, compact);
        column_after(area.x as nat, columns(first + second))
    } else {
        column_after(
            tab_start(app, area, (i - 1) as nat),
            columns(tab_words(app, ReviewTab::at(i - 1), !compact)),
        )
    }
}

/// The tab under a column, among those from place `i` on.
pub open spec fn tab_under(app: &App, area: Rect, column: u16, i: nat) -> Option<ReviewTab>
    decreases TABS - i,
{
    if i >= TABS {
        None
    } else if tab_start(app, area, i) <= column < tab_start(app, area, i + 1) {
        Some(ReviewTab::at(i as int))
    } else {
        tab_under(app, area, column, i + 1)
    }
}

fn narrow(n: usize) -> (r: u16)
    ensures
        r == if n < u16::MAX { n as int } else { u16::MAX as int },
{
    if n < 65535 { n as u16 } else { u16::MAX }
}

/// Finds the tab label under a pointer column.
#[must_use]
pub fn tab_at(area: Rect, app: &App, column: u16) -> (r: Option<ReviewTab>)
    requires
        app.detail is Some ==> said_count(app.detail->0) <= u64::MAX,
    ensures
        r == match app.detail {
            Some(_) => tab_under(app, area, column, 0),
            None => None,
        },
{
    let detail = match &app.detail {
        Some(detail) => detail,
        None => {
            return None;
        },
    };
    let compact: bool = area.width < 120;
    let room: usize = if compact { 15 } else { 60 };
    let mut prefix = concat3(" #", number(detail.summary.number).as_str(), " ");
    let title = concat2(truncate(detail.summary.title.as_str(), room).as_str(), " ");
    prefix.append(title.as_str());
    let mut x: u16 = area.x.saturating_add(narrow(width(prefix.as_str())));
    let mut i: usize = 0;
    while i < TABS
        invariant
            i <= TABS,
            app.detail is Some,
            said_count(app.detail->0) <= u64::MAX,
            compact == is_compact(area),
            x == tab_start(app, area, i as nat),
            tab_under(app, area, column, 0) == tab_under(app, area, column, i as nat),
        decreases TABS - i,
    {
        let tab = ReviewTab::nth(i);
        let label = tab_label(app, tab, !compact);
        let end: u16 = x.saturating_add(narrow(width(label.as_str())));
        assert(end == tab_start(app, area, (i + 1) as nat));
        if x <= column && column < end {
            return Some(tab);
        }
        x = end;
        i += 1;
    }
    None
}

/// The first cell of each tab that is drawn on screen is a place where a click finds that tab.
pub proof fn lemma_a_drawn_tab_is_found(app: &App, area: Rect, i: nat)
    requires
        app.detail is Some,
        i < TABS,
        tab_start(app, area, i) < tab_start(app, area, i + 1),
    ensures
        tab_under(app, area, tab_start(app, area, i) as u16, 0) == Some(ReviewTab::at(i as int)),
{
    lemma_tabs_in_order(app, area, i, i);
    lemma_found_from(app, area, i, 0);
}

proof fn lemma_tabs_in_order(app: &App, area: Rect, i: nat, j: nat)
    requires
        i <= j,
    ensures
        tab_start(app, area, i) <= tab_start(app, area, j) <= u16::MAX,
    decreases j,
{
    if i < j {
        lemma_tabs_in_order(app, area, i, (j - 1) as nat);
    } else if j > 0 {
    }
}

proof fn lemma_found_from(app: &App, area: Rect, i: nat, k: nat)
    requires
        app.detail is Some,
        k <= i < TABS,
        tab_start(app, area, i) < tab_start(app, area, i + 1),
        tab_start(app, area, i) <= u16::MAX,
    ensures
        tab_under(app, area, tab_start(app, area, i) as u16, k) == Some(ReviewTab::at(i as int)),
    decreases i - k,
{
    if k < i {
        lemma_tabs_in_order(app, area, k + 1, i);
        lemma_found_from(app, area, i, k + 1);
    }
}

} // verus!
