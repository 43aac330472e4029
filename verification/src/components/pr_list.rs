//! The pull request list pane: a table that is cut to the pane's width in columns.

use vstd::prelude::*;

use crate::app::App;
use crate::layout::Rect;
use crate::list_view::PrListState;
use crate::paint::{base_paint, line_of, page, plain, span, tinted, Element, Line, Paint, SpanView};
use crate::pr::{CheckState, PullRequestSummary, ReviewDecision};
use crate::scroll::{ensure_visible, visible_offset};
use crate::strings::{concat2, concat5, decimal, number, repeat, repeated, views};
use crate::text::{pad, pad_left, padded, padded_left};

verus! {

broadcast use crate::paint::group_page;

/// How wide each column is.
#[derive(Debug, Clone, Copy, PartialEq, Eq, Structural)]
pub struct Columns {
    /// The number.
    pub number: usize,
    /// The title.
    pub title: usize,
    /// The author.
    pub author: usize,
    /// The age.
    pub updated: usize,
    /// The checks.
    pub checks: usize,
    /// The decision.
    pub decision: usize,
}

impl Columns {
    /// The columns of a width: each fixed one is as wide as its heading, and the title takes what
    /// is left, but at least ten.
    pub open spec fn of(width: nat) -> Columns {
        Columns {
            number: 6,
            title: (if width < 54 { 10 } else { width - 44 }) as usize,
            author: 12,
            updated: 7,
            checks: 6,
            decision: 4,
        }
    }

    /// All columns and the gaps between them.
    pub open spec fn sum(self) -> nat {
        (self.number + self.title + self.author + self.updated + self.checks + self.decision + 8)
            as nat
    }

    /// Works out the columns for a pane width, giving the title what is left.
    #[must_use]
    pub fn for_width(width: u16) -> (r: Self)
        ensures
            r == Columns::of(width as nat),
    {
        let left: usize = (width as usize).saturating_sub(44);
        Columns {
            number: 6,
            title: if left < 10 { 10 } else { left },
            author: 12,
            updated: 7,
            checks: 6,
            decision: 4,
        }
    }

    /// Total columns used, for the rule under the header.
    #[must_use]
    pub fn total(&self) -> (r: usize)
        requires
            self.sum() <= usize::MAX,
        ensures
            r == self.sum(),
    {
        2 + self.number + 1 + 1 + self.title + 1 + self.author + 1 + self.updated + 1 + self.checks + 1
            + self.decision
    }
}

/// The columns fit the width, wherever a title of ten columns leaves room for the others.
pub proof fn lemma_columns_fit(width: nat)
    requires
        53 <= width <= u16::MAX,
    ensures
        Columns::of(width).sum() <= width,
        Columns::of(width).title >= 10,
{
}

/// One heading.
pub open spec fn heading(label: Seq<char>, width: nat) -> SpanView {
    span(padded(label, width) + " "@, Element::Muted)
}

/// The header row of the table.
pub open spec fn header_spans(columns: Columns) -> Seq<SpanView> {
    seq![
        span("  "@, Element::Muted),
        heading("#"@, columns.number as nat),
        heading("T"@, 2),
        heading("Title"@, columns.title as nat),
        heading("Author"@, columns.author as nat),
        heading("Updated"@, columns.updated as nat),
        heading("Checks"@, columns.checks as nat),
        heading("Dec"@, columns.decision as nat),
    ]
}

fn add_heading(line: &mut Line, label: &str, width: usize)
    ensures
        final(line)@ == old(line)@.push(heading(label@, width as nat)),
{
    line.push(concat2(pad(label, width).as_str(), " "), plain(Element::Muted));
}

/// The header row of the table.
#[must_use]
pub fn header_row(columns: &Columns) -> (r: Line)
    ensures
        r@ == header_spans(*columns),
{
    let mut line = Line::literal("  ", Element::Muted);
    add_heading(&mut line, "#", columns.number);
    add_heading(&mut line, "T", 2);
    add_heading(&mut line, "Title", columns.title);
    add_heading(&mut line, "Author", columns.author);
    add_heading(&mut line, "Updated", columns.updated);
    add_heading(&mut line, "Checks", columns.checks);
    add_heading(&mut line, "Dec", columns.decision);
    assert(line@ =~= header_spans(*columns));
    line
}

/// The element of a check summary.
pub open spec fn check_element(state: CheckState) -> Element {
    match state {
        CheckState::Success => Element::ListCheckOk,
        CheckState::Failure => Element::ListCheckFail,
        CheckState::Pending | CheckState::Neutral | CheckState::Skipped =>
            Element::ListCheckPending,
        CheckState::Unknown => Element::Muted,
    }
}

/// The style for a check summary.
#[must_use]
pub fn check_style(state: CheckState) -> (r: Element)
    ensures
        r == check_element(state),
{
    match state {
        CheckState::Success => Element::ListCheckOk,
        CheckState::Failure => Element::ListCheckFail,
        CheckState::Pending | CheckState::Neutral | CheckState::Skipped =>
            Element::ListCheckPending,
        CheckState::Unknown => Element::Muted,
    }
}

/// The marker of a decision.
pub open spec fn decision_mark(decision: Option<ReviewDecision>) -> Seq<char> {
    match decision {
        Some(ReviewDecision::Approved) => "ok"@,
        Some(ReviewDecision::ChangesRequested) => "no"@,
        Some(ReviewDecision::ReviewRequired) => ".."@,
        None => "  "@,
    }
}

/// The two-character decision marker.
#[must_use]
pub fn decision_marker(decision: Option<ReviewDecision>) -> (r: &'static str)
    ensures
        r@ == decision_mark(decision),
{
    match decision {
        Some(ReviewDecision::Approved) => "ok",
        Some(ReviewDecision::ChangesRequested) => "no",
        Some(ReviewDecision::ReviewRequired) => "..",
        None => "  ",
    }
}

/// The element of a decision.
pub open spec fn decision_element(decision: Option<ReviewDecision>) -> Element {
    match decision {
        Some(ReviewDecision::Approved) => Element::ListCheckOk,
        Some(ReviewDecision::ChangesRequested) => Element::ListCheckFail,
        Some(ReviewDecision::ReviewRequired) => Element::ListCheckPending,
        None => Element::Muted,
    }
}

fn decision_style(decision: Option<ReviewDecision>) -> (r: Element)
    ensures
        r == decision_element(decision),
{
    match decision {
        Some(ReviewDecision::Approved) => Element::ListCheckOk,
        Some(ReviewDecision::ChangesRequested) => Element::ListCheckFail,
        Some(ReviewDecision::ReviewRequired) => Element::ListCheckPending,
        None => Element::Muted,
    }
}

/// One row: number, draft marker, title, author, age, checks, decision.
///
/// On a selected row the style of a cell lies over the selection's.
pub open spec fn item_spans(
    columns: Columns,
    pr: PullRequestSummary,
    updated: Seq<char>,
    selected: bool,
) -> Seq<SpanView> {
    let base = base_paint(selected);
    let muted = Paint::tinted(Element::Muted, selected);
    let draft = Paint::tinted(Element::ListDraft, selected);
    seq![
        SpanView { text: if selected { "▶ "@ } else { "  "@ }, paint: base },
        SpanView {
            text: padded_left(decimal(pr.number as nat), columns.number as nat),
            paint: Paint::tinted(Element::Accent, selected),
        },
        SpanView { text: " "@, paint: base },
        SpanView { text: if pr.work_in_progress { "◌ "@ } else { "  "@ }, paint: draft },
        SpanView {
            text: padded(pr.title@, columns.title as nat) + " "@,
            paint: if pr.work_in_progress { draft } else { base },
        },
        SpanView { text: padded(pr.author@, columns.author as nat) + " "@, paint: muted },
        SpanView { text: padded(updated, columns.updated as nat) + " "@, paint: muted },
        SpanView {
            text: padded(pr.checks.words(), columns.checks as nat) + " "@,
            paint: Paint::tinted(check_element(pr.checks.state), selected),
        },
        SpanView {
            text: decision_mark(pr.review_decision),
            paint: Paint::tinted(decision_element(pr.review_decision), selected),
        },
    ]
}

/// One row of the table, given how long ago it was updated.
#[must_use]
pub fn item_row(columns: &Columns, pr: &PullRequestSummary, updated: &str, selected: bool) -> (r:
    Line)
    ensures
        r@ == item_spans(*columns, *pr, updated@, selected),
{
    let base = plain(if selected { Element::Selection } else { Element::Fg });
    let muted = tinted(Element::Muted, selected);
    let draft = tinted(Element::ListDraft, selected);
    let mut line = Line::new();
    line.push((if selected { "▶ " } else { "  " }).to_owned(), base);
    line.push(
        pad_left(number(pr.number).as_str(), columns.number),
        tinted(Element::Accent, selected),
    );
    line.push(" ".to_owned(), base);
    line.push((if pr.work_in_progress { "◌ " } else { "  " }).to_owned(), draft);
    line.push(
        concat2(pad(pr.title.as_str(), columns.title).as_str(), " "),
        if pr.work_in_progress { draft } else { base },
    );
    line.push(concat2(pad(pr.author.as_str(), columns.author).as_str(), " "), muted);
    line.push(concat2(pad(updated, columns.updated).as_str(), " "), muted);
    line.push(
        concat2(pad(pr.checks.label().as_str(), columns.checks).as_str(), " "),
        tinted(check_style(pr.checks.state), selected),
    );
    line.push(
        decision_marker(pr.review_decision).to_owned(),
        tinted(decision_style(pr.review_decision), selected),
    );
    assert(line@ =~= item_spans(*columns, *pr, updated@, selected));
    line
}

/// The pane title.
pub open spec fn title_words(app: &App) -> Seq<char> {
    " "@ + match app.environment {
        Some(environment) => environment.repo_slug@,
        None => "no repository"@,
    } + " · "@ + app.list.state_label@ + " · "@ + app.list.status() + " "@
}

/// The pane title: what is being listed, and how much of it.
#[must_use]
pub fn list_title(app: &App) -> (r: String)
    ensures
        r@ == title_words(app),
{
    let mut text = concat5(
        " ",
        match &app.environment {
            Some(environment) => environment.repo_slug.as_str(),
            None => "no repository",
        },
        " · ",
        app.list.state_label.as_str(),
        " · ",
    );
    text.append(app.list.status_label().as_str());
    text.append(" ");
    text
}

/// The first `n` lines of a wrapped error.
pub open spec fn error_rows(error: Seq<Seq<char>>, n: nat) -> Seq<Seq<SpanView>> {
    Seq::new(n, |i: int| line_of(error[i], Element::Fg))
}

/// What the pane says when there is nothing to list.
///
/// A broken environment explains more than a failed fetch, and that more than a search without a
/// match; then comes whatever is still outstanding, and last the filters.
pub open spec fn empty_lines(app: &App, error: Seq<Seq<char>>) -> Seq<Seq<SpanView>> {
    let query = line_of("query: "@ + app.list.asked(), Element::Muted);
    match (app.environment_error, app.list.error) {
        (Some(problem), _) => seq![
            line_of("Cannot read pull requests"@, Element::NoticeError),
            Seq::empty(),
            line_of(problem.message@, Element::Fg),
            Seq::empty(),
            line_of("→ "@ + problem.advice@, Element::Accent),
        ],
        (None, Some(_)) => seq![
            line_of("Could not list pull requests"@, Element::NoticeError),
            Seq::empty(),
        ] + error_rows(error, error.len()) + seq![
            Seq::empty(),
            line_of("R retries · :doctor shows the environment"@, Element::Muted),
        ],
        (None, None) => if app.list.search@.len() > 0 && app.list.items@.len() > 0
            && app.list.visible@.len() == 0 {
            seq![
                line_of("Nothing matches."@, Element::Fg),
                Seq::empty(),
                query,
                Seq::empty(),
                line_of(
                    "Esc clears the search · :clear-filters resets the filters"@,
                    Element::Muted,
                ),
            ]
        } else if app.environment_running {
            seq![line_of("Looking for the repository and gh…"@, Element::Muted)]
        } else if app.list.loading {
            seq![line_of("Loading pull requests…"@, Element::Muted)]
        } else {
            seq![
                line_of("No pull requests match the current filters."@, Element::Fg),
                Seq::empty(),
                query,
                Seq::empty(),
                line_of(
                    "Esc clears · :clear-filters resets · :filter adds a chip"@,
                    Element::Muted,
                ),
            ]
        },
    }
}

fn explained(first: &str, query: &str, last: &str) -> (r: Vec<Line>)
    ensures
        page(r@) == seq![
            line_of(first@, Element::Fg),
            Seq::empty(),
            line_of("query: "@ + query@, Element::Muted),
            Seq::empty(),
            line_of(last@, Element::Muted),
        ],
{
    let mut lines: Vec<Line> = Vec::new();
    lines.push(Line::literal(first, Element::Fg));
    lines.push(Line::new());
    lines.push(Line::of(concat2("query: ", query), Element::Muted));
    lines.push(Line::new());
    lines.push(Line::literal(last, Element::Muted));
    assert(page(lines@) =~= seq![
        line_of(first@, Element::Fg),
        Seq::empty(),
        line_of("query: "@ + query@, Element::Muted),
        Seq::empty(),
        line_of(last@, Element::Muted),
    ]);
    lines
}

fn failed(error: &Vec<String>) -> (r: Vec<Line>)
    ensures
        page(r@) == seq![
            line_of("Could not list pull requests"@, Element::NoticeError),
            Seq::empty(),
        ] + error_rows(views(error@), error@.len()) + seq![
            Seq::empty(),
            line_of("R retries · :doctor shows the environment"@, Element::Muted),
        ],
{
    let mut lines: Vec<Line> = Vec::new();
    lines.push(Line::literal("Could not list pull requests", Element::NoticeError));
    lines.push(Line::new());
    let ghost first = page(lines@);
    assert(first =~= seq![
        line_of("Could not list pull requests"@, Element::NoticeError),
        Seq::empty(),
    ]);
    assert(first + error_rows(views(error@), 0) =~= first);
    let mut i: usize = 0;
    while i < error.len()
        invariant
            i <= error@.len(),
            page(lines@) == first + error_rows(views(error@), i as nat),
        decreases error@.len() - i,
    {
        lines.push(Line::of(error[i].clone(), Element::Fg));
        i += 1;
        assert(page(lines@) =~= first + error_rows(views(error@), i as nat));
    }
    lines.push(Line::new());
    lines.push(Line::literal("R retries · :doctor shows the environment", Element::Muted));
    assert(page(lines@) =~= first + error_rows(views(error@), error@.len()) + seq![
        Seq::empty(),
        line_of("R retries · :doctor shows the environment"@, Element::Muted),
    ]);
    lines
}

fn one_line(text: &str) -> (r: Vec<Line>)
    ensures
        page(r@) == seq![line_of(text@, Element::Muted)],
{
    let mut lines: Vec<Line> = Vec::new();
    lines.push(Line::literal(text, Element::Muted));
    assert(page(lines@) =~= seq![line_of(text@, Element::Muted)]);
    lines
}

/// How wide a failure is wrapped where nothing can be listed.
pub const ERROR_WIDTH: usize = 80;

/// What to show when there is nothing to show, and why; `error` is the last failure, wrapped
/// to [`ERROR_WIDTH`] columns.
#[must_use]
pub fn empty_state(app: &App, error: &Vec<String>) -> (r: Vec<Line>)
    ensures
        page(r@) == empty_lines(app, views(error@)),
{
    match &app.environment_error {
        Some(problem) => {
            let mut lines: Vec<Line> = Vec::new();
            lines.push(Line::literal("Cannot read pull requests", Element::NoticeError));
            lines.push(Line::new());
            lines.push(Line::of(problem.message.clone(), Element::Fg));
            lines.push(Line::new());
            lines.push(Line::of(concat2("→ ", problem.advice.as_str()), Element::Accent));
            assert(page(lines@) =~= empty_lines(app, views(error@)));
            return lines;
        },
        None => {},
    }
    if app.list.error.is_some() {
        return failed(error);
    }
    if app.list.is_empty_because_of_search() {
        return explained(
            "Nothing matches.",
            app.list.describe_query().as_str(),
            "Esc clears the search · :clear-filters resets the filters",
        );
    }
    if app.environment_running {
        return one_line("Looking for the repository and gh…");
    }
    if app.list.loading {
        return one_line("Loading pull requests…");
    }
    explained(
        "No pull requests match the current filters.",
        app.list.describe_query().as_str(),
        "Esc clears · :clear-filters resets · :filter adds a chip",
    )
}

/// How many rows of the table a pane shows: all but its border, the header and the rule.
pub open spec fn body_height(area: Rect) -> nat {
    if area.height < 4 { 0 } else { (area.height - 4) as nat }
}

/// How many rows of the table a pane shows.
#[must_use]
pub fn rows_in(area: Rect) -> (r: usize)
    ensures
        r == body_height(area),
{
    area.height.saturating_sub(4) as usize
}

/// The row of the table that a terminal row is over, counted from the top of the list.
pub open spec fn row_under(area: Rect, scroll: nat, row: int) -> Option<nat> {
    let first = area.y + 3;
    if first <= row < first + body_height(area) {
        Some((scroll + (row - first)) as nat)
    } else {
        None
    }
}

/// The row of the table under a terminal row, if any: the border, the header and the rule are
/// none.
#[must_use]
pub fn row_at(area: Rect, scroll: usize, row: u16) -> (r: Option<usize>)
    ensures
        match r {
            Some(index) => row_under(area, scroll as nat, row as int) == Some(index as nat),
            None => row_under(area, scroll as nat, row as int) is None || row_under(
                area,
                scroll as nat,
                row as int,
            )->0 > usize::MAX,
        },
{
    if row < 3 || row - 3 < area.y {
        return None;
    }
    let offset: usize = (row - 3 - area.y) as usize;
    if offset >= rows_in(area) {
        return None;
    }
    scroll.checked_add(offset)
}

/// The first `n` rows that a list shows from `scroll` on, given how long ago each item was updated.
pub open spec fn table_rows(
    list: PrListState,
    columns: Columns,
    ages: Seq<Seq<char>>,
    scroll: nat,
    n: nat,
) -> Seq<Seq<SpanView>> {
    Seq::new(
        n,
        |i: int|
            {
                let at = scroll + i;
                let item = list.visible@[at] as int;
                item_spans(columns, list.items@[item], ages[item], at == list.cursor)
            },
    )
}

/// How many rows a list shows from `scroll` on.
pub open spec fn rows_left(list: PrListState, area: Rect, scroll: nat) -> nat {
    let left = if list.visible@.len() > scroll { (list.visible@.len() - scroll) as nat } else { 0 };
    if left < body_height(area) { left } else { body_height(area) }
}

/// Where the table of a list starts: where it is scrolled to, or as far from there as the cursor
/// needs.
pub open spec fn table_start(list: PrListState, area: Rect) -> nat {
    let position = if list.visible@.len() == 0 { 0 } else { list.cursor as nat };
    visible_offset(position, list.scroll as nat, body_height(area), list.visible@.len())
}

/// How long the rule under the header is.
pub open spec fn rule_len(area: Rect) -> nat {
    let inner = if area.width < 2 { 0 } else { (area.width - 2) as nat };
    let total = Columns::of(inner).sum();
    if total < inner { total } else { inner }
}

/// What the list pane says.
pub open spec fn pane_lines(app: &App, area: Rect, ages: Seq<Seq<char>>, error: Seq<Seq<char>>) -> Seq<
    Seq<SpanView>,
> {
    if app.list.visible@.len() == 0 {
        empty_lines(app, error)
    } else {
        let inner = if area.width < 2 { 0 } else { (area.width - 2) as nat };
        let columns = Columns::of(inner);
        let start = table_start(app.list, area);
        seq![
            header_spans(columns),
            line_of(repeated('─', rule_len(area)), Element::Muted),
        ] + table_rows(app.list, columns, ages, start, rows_left(app.list, area, start))
    }
}

/// Whether a list's rows are items of it, and its cursor one of the rows.
pub open spec fn is_table(list: PrListState, ages: nat) -> bool {
    &&& ages == list.items@.len()
    &&& forall|i: int| 0 <= i < list.visible@.len() ==> (#[trigger] list.visible@[i]) < ages
    &&& list.cursor_fits()
}

/// The lines of the list pane; `ages` says how long ago each item was updated.
///
/// Only the rows that fit are laid out, under a header that stays.
#[must_use]
pub fn list_lines(app: &App, area: Rect, ages: &Vec<String>, error: &Vec<String>) -> (r: Vec<Line>)
    requires
        is_table(app.list, ages@.len()),
    ensures
        page(r@) == pane_lines(app, area, views(ages@), views(error@)),
{
    if app.list.visible.len() == 0 {
        return empty_state(app, error);
    }
    let inner: u16 = area.width.saturating_sub(2);
    let columns = Columns::for_width(inner);
    let total: usize = columns.total();
    let rule: usize = if total < inner as usize { total } else { inner as usize };
    let mut lines: Vec<Line> = Vec::new();
    lines.push(header_row(&columns));
    lines.push(Line::of(repeat('─', rule), Element::Muted));
    let ghost first = page(lines@);
    assert(first =~= seq![
        header_spans(columns),
        line_of(repeated('─', rule_len(area)), Element::Muted),
    ]);
    let list = &app.list;
    let height: usize = rows_in(area);
    let start: usize = ensure_visible(list.cursor, list.scroll, height, list.visible.len());
    let left: usize = list.visible.len().saturating_sub(start);
    let count: usize = if left < height { left } else { height };
    let ghost all = views(ages@);
    assert(first + table_rows(app.list, columns, all, start as nat, 0) =~= first);
    let mut i: usize = 0;
    while i < count
        invariant
            i <= count,
            count <= left,
            start + left <= list.visible@.len() <= usize::MAX || left == 0,
            list == &app.list,
            is_table(app.list, ages@.len()),
            all == views(ages@),
            page(lines@) == first + table_rows(app.list, columns, all, start as nat, i as nat),
        decreases count - i,
    {
        let at: usize = start + i;
        let item: usize = list.visible[at];
        lines.push(item_row(&columns, &list.items[item], ages[item].as_str(), at == list.cursor));
        i += 1;
        assert(page(lines@) =~= first + table_rows(app.list, columns, all, start as nat, i as nat));
    }
    lines
}

/// The state the list pane reads.
#[must_use]
pub fn state(app: &App) -> (r: &PrListState)
    ensures
        *r == app.list,
{
    &app.list
}

} // verus!
