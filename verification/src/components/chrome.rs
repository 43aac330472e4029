//! The rows around the panes: the header, the filter bar, the status line, the command line and
//! the palette.

use vstd::prelude::*;

use crate::app::{App, Pane, PALETTE_ROWS};
use crate::keys::Mode;
use crate::layout::{asked, one_grows, split, split_two, Constraint, Direction, Rect};
use crate::notices::{newest, notice_views, NoticeLevel, NoticeView};
use crate::paint::{line_of, padded_line, page, plain, span, spread, Element, Line, SpanView};
use crate::panel::AnalysisState;
use crate::patch::opt_view;
use crate::strings::{concat2, concat3, concat4, decimal, number, same, trim, trimmed, views};
use crate::text::{align_left, aligned_left};

verus! {

broadcast use crate::paint::group_page;

/// The narrowest terminal that the interface is drawn in.
pub const MIN_WIDTH: u16 = 80;

/// The lowest terminal that the interface is drawn in.
pub const MIN_HEIGHT: u16 = 24;

/// How many rows the filter bar takes: the chips, then the search box.
pub const FILTER_BAR_HEIGHT: u16 = 2;

/// The element a pane's border is drawn in, which is brighter where the pane has the focus.
pub open spec fn border_of(focus: Pane, pane: Pane) -> Element {
    if focus == pane { Element::BorderFocused } else { Element::Border }
}

/// The border style for a pane, brightened when it has focus.
#[must_use]
pub fn border_style(app: &App, pane: Pane) -> (r: Element)
    ensures
        r == border_of(app.focus, pane),
{
    if app.focus == pane { Element::BorderFocused } else { Element::Border }
}

/// Splits the body into the filter bar and the list pane.
///
/// What is drawn and what a click is tested against come from this one function.
#[must_use]
pub fn body_split(body: Rect) -> (r: (Rect, Rect))
    ensures
        r == crate::layout::divided_in_two(
            Direction::Vertical,
            Constraint::Length(FILTER_BAR_HEIGHT),
            Constraint::Min(3),
            body,
        ),
        5 <= body.height && body.y + body.height <= u16::MAX ==> {
            &&& r.0 == (Rect { height: 2, ..body })
            &&& r.1 == (Rect { y: (body.y + 2) as u16, height: (body.height - 2) as u16, ..body })
        },
{
    split_two(
        Direction::Vertical,
        Constraint::Length(FILTER_BAR_HEIGHT),
        Constraint::Min(3),
        body,
    )
}

/// What a terminal that is too small is told.
pub open spec fn too_small_lines(area: Rect) -> Seq<Seq<SpanView>> {
    seq![
        line_of("terminal too small"@, Element::StatusError),
        Seq::empty(),
        line_of(
            "smart-review needs at least "@ + decimal(MIN_WIDTH as nat) + "x"@ + decimal(
                MIN_HEIGHT as nat,
            ) + "; this terminal is "@ + decimal(area.width as nat) + "x"@ + decimal(
                area.height as nat,
            ),
            Element::Muted,
        ),
    ]
}

/// The "terminal too small" message.
#[must_use]
pub fn too_small(area: Rect) -> (r: Vec<Line>)
    ensures
        page(r@) == too_small_lines(area),
{
    let mut lines: Vec<Line> = Vec::new();
    lines.push(Line::literal("terminal too small", Element::StatusError));
    lines.push(Line::new());
    let mut text = concat4(
        "smart-review needs at least ",
        number(MIN_WIDTH as u64).as_str(),
        "x",
        number(MIN_HEIGHT as u64).as_str(),
    );
    text.append("; this terminal is ");
    text.append(number(area.width as u64).as_str());
    text.append("x");
    text.append(number(area.height as u64).as_str());
    lines.push(Line::of(text, Element::Muted));
    assert(page(lines@) =~= too_small_lines(area));
    lines
}

/// The rows of a frame, from top to bottom.
#[derive(Debug, Clone, Copy, PartialEq, Eq, Structural)]
pub struct FrameRows {
    /// The header.
    pub header: Rect,
    /// The panes.
    pub body: Rect,
    /// The palette, which is there only while a command is typed.
    pub palette: Rect,
    /// The status line.
    pub status: Rect,
    /// The command line.
    pub command: Rect,
}

/// How many rows the palette has.
pub open spec fn palette_height(mode: Mode) -> u16 {
    if mode == Mode::Command { PALETTE_ROWS as u16 } else { 0 }
}

/// The parts that the rows of a frame take.
pub open spec fn frame_parts(mode: Mode) -> Seq<Constraint> {
    seq![
        Constraint::Length(1),
        Constraint::Min(3),
        Constraint::Length(palette_height(mode)),
        Constraint::Length(1),
        Constraint::Length(1),
    ]
}

/// How many rows of a frame the panes have.
pub open spec fn body_len(height: nat, mode: Mode) -> nat {
    if 6 + palette_height(mode) <= height {
        (height - 3 - palette_height(mode)) as nat
    } else if 3 <= height {
        3
    } else {
        height
    }
}

/// Whether one rectangle is made of rows of another.
pub open spec fn within(area: Rect, row: Rect) -> bool {
    &&& row.x == area.x && row.width == area.width
    &&& area.y <= row.y && row.y + row.height <= area.y + area.height
}

/// Divides a frame into its rows.
///
/// The rows fill the frame without gaps, and the panes take what the other rows leave. In a frame
/// too low for all of them, the panes still have three rows, as far as there are that many, and the
/// others share what is left.
#[must_use]
pub fn frame_rows(area: Rect, mode: Mode) -> (r: FrameRows)
    ensures
        within(area, r.header) && within(area, r.body) && within(area, r.palette),
        within(area, r.status) && within(area, r.command),
        r.body.y + r.body.height <= u16::MAX,
        area.y + area.height <= u16::MAX ==> {
            &&& r.header.y == area.y && r.header.height <= 1
            &&& r.body.y == r.header.y + r.header.height
            &&& r.body.height == body_len(area.height as nat, mode)
            &&& r.palette.y == r.body.y + r.body.height && r.palette.height <= palette_height(mode)
            &&& r.status.y == r.palette.y + r.palette.height && r.status.height <= 1
            &&& r.command.y == r.status.y + r.status.height && r.command.height <= 1
            &&& r.command.y + r.command.height == area.y + area.height
        },
        6 + palette_height(mode) <= area.height && area.y + area.height <= u16::MAX ==> {
            let body = area.height - 3 - palette_height(mode);
            &&& r.header == (Rect { height: 1, ..area })
            &&& r.body == (Rect { y: (area.y + 1) as u16, height: body as u16, ..area })
            &&& r.palette == (Rect {
                y: (area.y + 1 + body) as u16,
                height: palette_height(mode),
                ..area
            })
            &&& r.status == (Rect {
                y: (area.y + 1 + body + palette_height(mode)) as u16,
                height: 1,
                ..area
            })
            &&& r.command == (Rect {
                y: (area.y + 2 + body + palette_height(mode)) as u16,
                height: 1,
                ..area
            })
        },
{
    let rows: u16 = if mode == Mode::Command { PALETTE_ROWS as u16 } else { 0 };
    let mut parts: Vec<Constraint> = Vec::new();
    parts.push(Constraint::Length(1));
    parts.push(Constraint::Min(3));
    parts.push(Constraint::Length(rows));
    parts.push(Constraint::Length(1));
    parts.push(Constraint::Length(1));
    assert(parts@ =~= frame_parts(mode));
    let rects = split(Direction::Vertical, &parts, area);
    proof {
        let all = parts@;
        assert(one_grows(all, 1));
        assert(asked(all) == 6 + rows) by {
            reveal_with_fuel(asked, 6);
            assert(all.drop_last().drop_last().drop_last().drop_last().drop_last().len() == 0);
        }
        assert(rects@[0] == rects[0] && rects@[1] == rects[1] && rects@[2] == rects[2]);
        assert(rects@[3] == rects[3] && rects@[4] == rects[4]);
    }
    FrameRows {
        header: rects[0],
        body: rects[1],
        palette: rects[2],
        status: rects[3],
        command: rects[4],
    }
}

/// Whether a terminal is too small for the interface.
#[must_use]
pub fn is_too_small(area: Rect) -> (r: bool)
    ensures
        r == (area.width < MIN_WIDTH || area.height < MIN_HEIGHT),
{
    area.width < MIN_WIDTH || area.height < MIN_HEIGHT
}

/// What is being read, as the header says it.
pub open spec fn target_words(app: &App) -> Seq<char> {
    let repo = match app.repo {
        Some(repo) => repo@,
        None => "repository: auto-detect (M1)"@,
    };
    let number = match app.requested_pr {
        Some(number) => " #"@ + decimal(number as nat),
        None => ""@,
    };
    let path = match app.requested_path {
        Some(path) => " · "@ + path@,
        None => ""@,
    };
    let remote = match app.remote {
        Some(remote) => " · remote "@ + remote@,
        None => ""@,
    };
    repo + number + path + remote
}

fn target(app: &App) -> (r: String)
    ensures
        r@ == target_words(app),
{
    let mut text = match &app.repo {
        Some(repo) => repo.clone(),
        None => "repository: auto-detect (M1)".to_owned(),
    };
    let place = match app.requested_pr {
        Some(n) => concat2(" #", number(n).as_str()),
        None => "".to_owned(),
    };
    let path = match &app.requested_path {
        Some(path) => concat2(" · ", path.as_str()),
        None => "".to_owned(),
    };
    let remote = match &app.remote {
        Some(remote) => concat2(" · remote ", remote.as_str()),
        None => "".to_owned(),
    };
    text.append(place.as_str());
    text.append(path.as_str());
    text.append(remote.as_str());
    text
}

/// The header row.
pub open spec fn header_row(app: &App, version: Seq<char>, width: nat) -> Seq<SpanView> {
    spread(
        seq![
            span(" smart-review "@, Element::Title),
            span("v"@ + version + " "@, Element::Muted),
            span("config: "@ + app.config_source@, Element::Muted),
        ],
        line_of(target_words(app) + " "@, Element::Fg),
        width,
    )
}

/// The header row: who this is, which version, where the settings came from, and the target.
#[must_use]
pub fn header(app: &App, version: &str, width: u16) -> (r: Line)
    ensures
        r@ == header_row(app, version@, width as nat),
{
    let mut left = Line::new();
    left.add_text(" smart-review ", Element::Title);
    left.push(concat3("v", version, " "), plain(Element::Muted));
    left.push(concat2("config: ", app.config_source.as_str()), plain(Element::Muted));
    assert(left@ =~= seq![
        span(" smart-review "@, Element::Title),
        span("v"@ + version@ + " "@, Element::Muted),
        span("config: "@ + app.config_source@, Element::Muted),
    ]);
    let right = Line::of(concat2(target(app).as_str(), " "), Element::Fg);
    padded_line(left, right, width)
}

/// The first `n` chips of the filter bar.
pub open spec fn chip_spans(chips: Seq<Seq<char>>, n: nat) -> Seq<SpanView> {
    Seq::new(n, |i: int| span("["@ + chips[i] + "] "@, Element::Accent))
}

/// The chips, and the hint that says how to change them.
pub open spec fn chip_row(chips: Seq<Seq<char>>, filtered: bool) -> Seq<SpanView> {
    (line_of(" filters "@, Element::Muted) + chip_spans(chips, chips.len())).push(
        span(
            if filtered { "<leader>f add · x clear"@ } else { "<leader>f adds one"@ },
            Element::Muted,
        ),
    )
}

/// The chips, plus the hint that says how to change them.
#[must_use]
pub fn chip_line(app: &App) -> (r: Line)
    ensures
        r@ == chip_row(views(app.list.chips@), app.list.filtered),
{
    let mut line = Line::literal(" filters ", Element::Muted);
    let ghost chips = views(app.list.chips@);
    let ghost first = line@;
    assert(first + chip_spans(chips, 0) =~= first);
    let mut i: usize = 0;
    while i < app.list.chips.len()
        invariant
            i <= app.list.chips@.len(),
            chips == views(app.list.chips@),
            line@ == first + chip_spans(chips, i as nat),
        decreases app.list.chips@.len() - i,
    {
        line.push(concat3("[", app.list.chips[i].as_str(), "] "), plain(Element::Accent));
        i += 1;
        assert(line@ =~= first + chip_spans(chips, i as nat));
    }
    line.add_text(
        if app.list.filtered { "<leader>f add · x clear" } else { "<leader>f adds one" },
        Element::Muted,
    );
    line
}

/// The search box.
pub open spec fn search_row(text: Seq<char>, editing: bool, matching: nat) -> Seq<SpanView> {
    let prompt = seq![
        span(" "@, Element::Fg),
        if editing {
            span("/ "@, Element::CommandPrompt)
        } else {
            span("search "@, Element::Muted)
        },
    ];
    if text.len() == 0 && !editing {
        prompt.push(span("/ filters what has been fetched; :filter asks GitHub"@, Element::Muted))
    } else if editing {
        prompt.push(span(text, Element::Fg)).push(span("_"@, Element::Accent))
    } else {
        prompt.push(span(text, Element::Fg)).push(
            span("  ("@ + decimal(matching) + " matching)"@, Element::Muted),
        )
    }
}

/// The search box, which is a real input while the search mode is active.
#[must_use]
pub fn search_line(app: &App) -> (r: Line)
    ensures
        r@ == search_row(app.list.search@, app.mode == Mode::Search, app.list.visible@.len()),
{
    let editing: bool = app.mode == Mode::Search;
    let mut line = Line::literal(" ", Element::Fg);
    if editing {
        line.add_text("/ ", Element::CommandPrompt);
    } else {
        line.add_text("search ", Element::Muted);
    }
    assert(line@ =~= seq![
        span(" "@, Element::Fg),
        if editing {
            span("/ "@, Element::CommandPrompt)
        } else {
            span("search "@, Element::Muted)
        },
    ]);
    if app.list.search.as_str().is_empty() && !editing {
        line.add_text("/ filters what has been fetched; :filter asks GitHub", Element::Muted);
        return line;
    }
    line.push(app.list.search.clone(), plain(Element::Fg));
    if editing {
        line.add_text("_", Element::Accent);
    } else {
        line.push(
            concat3("  (", number(app.list.visible.len() as u64).as_str(), " matching)"),
            plain(Element::Muted),
        );
    }
    line
}

/// The active model and its thinking setting, as the status line says them.
///
/// Three states, each said plainly: nothing chosen yet, chosen and verified, and chosen but
/// unusable, which names the reason.
pub open spec fn status_model(app: &App) -> Seq<char> {
    match app.active_model {
        Some(resolved) => resolved.label@ + " thinking:"@ + resolved.thinking_label@,
        None => match (app.config.active, app.model_problem) {
            (Some(_), Some(problem)) => "— ("@ + problem@ + ")"@,
            (Some(active), None) => active.provider@ + "/"@ + active.model@ + " (unverified)"@,
            (None, _) => "—"@,
        },
    }
}

fn model_label(app: &App) -> (r: String)
    ensures
        r@ == status_model(app),
{
    match &app.active_model {
        Some(resolved) => concat3(
            resolved.label.as_str(),
            " thinking:",
            resolved.thinking_label.as_str(),
        ),
        None => match (&app.config.active, &app.model_problem) {
            (Some(_), Some(problem)) => concat3("— (", problem.as_str(), ")"),
            (Some(active), None) => concat4(
                active.provider.as_str(),
                "/",
                active.model.as_str(),
                " (unverified)",
            ),
            (None, _) => "—".to_owned(),
        },
    }
}

/// A text between a dot and a space, where there is one.
pub open spec fn dotted(text: Option<Seq<char>>) -> Seq<char> {
    match text {
        Some(text) => "· "@ + text + " "@,
        None => ""@,
    }
}

fn dot(text: &Option<String>) -> (r: String)
    ensures
        r@ == dotted(opt_view(*text)),
{
    match text {
        Some(text) => concat3("· ", text.as_str(), " "),
        None => "".to_owned(),
    }
}

/// The file under the cursor of the review screen, with its size.
pub open spec fn status_file(app: &App) -> Option<Seq<char>> {
    match app.review {
        Some(view) => match view.file_at_cursor() {
            Some(file) => if file < view.patch@.files.len() {
                let shown = view.patch@.files[file as int];
                Some(
                    seq![shown.status.letter()] + " "@ + shown.display_path + " "@
                        + shown.size_label,
                )
            } else {
                None
            },
            None => None,
        },
        None => None,
    }
}

fn current_file_label(app: &App) -> (r: Option<String>)
    ensures
        opt_view(r) == status_file(app),
{
    match &app.review {
        Some(view) => view.current_file_label(),
        None => None,
    }
}

/// Where the current file sits in both orders.
pub open spec fn status_positions(app: &App) -> Option<Seq<char>> {
    match app.review {
        Some(view) => view.positions(),
        None => None,
    }
}

fn order_positions_label(app: &App) -> (r: Option<String>)
    ensures
        opt_view(r) == status_positions(app),
{
    match &app.review {
        Some(view) => view.order_positions(),
        None => None,
    }
}

/// What the analysis is doing, where a pull request is open and something is to be said.
pub open spec fn status_analysis(app: &App) -> Option<Seq<char>> {
    if app.review is None || app.panel.state is Idle {
        None
    } else {
        Some(app.panel.state.words())
    }
}

fn analysis_label(app: &App) -> (r: Option<String>)
    ensures
        opt_view(r) == status_analysis(app),
{
    if app.review.is_none() {
        return None;
    }
    match &app.panel.state {
        AnalysisState::Idle => None,
        state => Some(state.label()),
    }
}

/// The element a notice is shown in.
pub open spec fn notice_element(level: NoticeLevel) -> Element {
    match level {
        NoticeLevel::Info => Element::NoticeInfo,
        NoticeLevel::Warn => Element::NoticeWarn,
        NoticeLevel::Error => Element::NoticeError,
    }
}

fn notice_style(level: NoticeLevel) -> (r: Element)
    ensures
        r == notice_element(level),
{
    match level {
        NoticeLevel::Info => Element::NoticeInfo,
        NoticeLevel::Warn => Element::NoticeWarn,
        NoticeLevel::Error => Element::NoticeError,
    }
}

/// The segments at the left of the status line.
pub open spec fn status_segments(app: &App, element: Element) -> Seq<SpanView> {
    seq![
        span(" "@ + app.mode.name() + " "@, element),
        span(app.focus.name() + " "@, element),
        span(
            "· "@ + match app.repo {
                Some(repo) => repo@,
                None => "—"@,
            } + " "@,
            element,
        ),
        span(
            "· "@ + match app.requested_pr {
                Some(number) => "#"@ + decimal(number as nat),
                None => "—"@,
            } + " "@,
            element,
        ),
        span(
            dotted(if app.review is Some { Some(app.diff_source.name()) } else { None }),
            element,
        ),
        span(dotted(status_file(app)), element),
        span(dotted(status_positions(app)), element),
        span("· "@ + status_model(app) + " "@, element),
        span(dotted(status_analysis(app)), element),
        span("· 0 drafts "@, element),
    ]
}

fn segments(app: &App, element: Element) -> (r: Line)
    ensures
        r@ == status_segments(app, element),
{
    let mut left = Line::new();
    left.push(concat3(" ", app.mode.label(), " "), plain(element));
    left.push(concat2(app.focus.label(), " "), plain(element));
    left.push(
        concat3(
            "· ",
            match &app.repo {
                Some(repo) => repo.as_str(),
                None => "—",
            },
            " ",
        ),
        plain(element),
    );
    let place = match app.requested_pr {
        Some(n) => concat2("#", number(n).as_str()),
        None => "—".to_owned(),
    };
    left.push(concat3("· ", place.as_str(), " "), plain(element));
    let source: Option<String> = if app.review.is_some() {
        Some(app.diff_source.label().to_owned())
    } else {
        None
    };
    left.push(dot(&source), plain(element));
    left.push(dot(&current_file_label(app)), plain(element));
    left.push(dot(&order_positions_label(app)), plain(element));
    left.push(concat3("· ", model_label(app).as_str(), " "), plain(element));
    left.push(dot(&analysis_label(app)), plain(element));
    left.add_text("· 0 drafts ", element);
    assert(left@ =~= status_segments(app, element));
    left
}

/// The newest notice that is still live.
pub open spec fn latest_of(app: &App) -> Option<NoticeView> {
    newest(notice_views(app.notices@), app.clock_ms, app.notices@.len())
}

/// The element that the status line is drawn in.
pub open spec fn status_background(app: &App) -> Element {
    match app.mode {
        Mode::Command | Mode::Search => Element::StatusCommand,
        Mode::Insert => Element::StatusInsert,
        _ => match latest_of(app) {
            Some(notice) => if notice.level == NoticeLevel::Error {
                Element::StatusError
            } else {
                Element::StatusNormal
            },
            None => Element::StatusNormal,
        },
    }
}

/// The status line.
pub open spec fn status_row(app: &App, width: nat) -> Seq<SpanView> {
    spread(
        status_segments(app, status_background(app)),
        match latest_of(app) {
            Some(notice) => line_of(notice.text + " "@, notice_element(notice.level)),
            None => line_of("? help · <leader> actions · : commands "@, Element::Muted),
        },
        width,
    )
}

/// The status line, and the element its background is drawn in.
///
/// At the left stand the mode, the focus, the repository, the pull request, where the diff came
/// from, the file under the cursor, its positions, the model and the analysis; at the right the
/// newest notice, or the key hints.
#[must_use]
pub fn status_line(app: &App, width: u16) -> (r: (Line, Element))
    ensures
        r.0@ == status_row(app, width as nat),
        r.1 == status_background(app),
{
    let latest = app.latest_notice();
    let failed: bool = match latest {
        Some(notice) => notice.level == NoticeLevel::Error,
        None => false,
    };
    let element = match app.mode {
        Mode::Command | Mode::Search => Element::StatusCommand,
        Mode::Insert => Element::StatusInsert,
        _ => if failed { Element::StatusError } else { Element::StatusNormal },
    };
    let left = segments(app, element);
    let right = match latest {
        Some(notice) => Line::of(concat2(notice.text.as_str(), " "), notice_style(notice.level)),
        None => Line::literal("? help · <leader> actions · : commands ", Element::Muted),
    };
    (padded_line(left, right, width), element)
}

/// The command line, or an empty row outside command mode.
pub open spec fn command_row(app: &App) -> Seq<SpanView> {
    if app.mode != Mode::Command {
        Seq::empty()
    } else {
        seq![
            span(":"@, Element::CommandPrompt),
            match app.command.error {
                Some(error) => span(" "@ + error@, Element::CommandError),
                None => span(" "@ + app.command.input@, Element::Fg),
            },
        ]
    }
}

/// The command line, or an empty row outside command mode.
#[must_use]
pub fn command_line(app: &App) -> (r: Line)
    ensures
        r@ == command_row(app),
{
    let mut line = Line::new();
    if app.mode != Mode::Command {
        return line;
    }
    line.add_text(":", Element::CommandPrompt);
    match &app.command.error {
        Some(error) => {
            line.push(concat2(" ", error.as_str()), plain(Element::CommandError));
        },
        None => {
            line.push(concat2(" ", app.command.input.as_str()), plain(Element::Fg));
        },
    }
    assert(line@ =~= command_row(app));
    line
}

/// One row of the palette.
pub open spec fn palette_row(input: Seq<char>, name: Seq<char>, description: Seq<char>) -> Seq<
    SpanView,
> {
    let element = if trimmed(input) == name { Element::Selection } else { Element::PickerSelected };
    seq![span(" "@ + aligned_left(name, 10), element), span(description, Element::Muted)]
}

/// The first `n` rows of the palette.
pub open spec fn palette_rows(
    input: Seq<char>,
    candidates: Seq<(String, String)>,
    n: nat,
) -> Seq<Seq<SpanView>> {
    Seq::new(n, |i: int| palette_row(input, candidates[i].0@, candidates[i].1@))
}

/// What the palette says.
pub open spec fn palette_lines(input: Seq<char>, candidates: Seq<(String, String)>) -> Seq<
    Seq<SpanView>,
> {
    if candidates.len() == 0 {
        seq![line_of(" no matching command — Tab completes, Esc cancels"@, Element::Muted)]
    } else if candidates.len() < PALETTE_ROWS {
        palette_rows(input, candidates, candidates.len())
    } else {
        palette_rows(input, candidates, PALETTE_ROWS as nat)
    }
}

/// The commands that match what has been typed, each with what it does.
#[must_use]
pub fn palette(input: &str, candidates: &Vec<(String, String)>) -> (r: Vec<Line>)
    ensures
        page(r@) == palette_lines(input@, candidates@),
{
    let mut lines: Vec<Line> = Vec::new();
    let typed = trim(input);
    let count: usize = if candidates.len() < PALETTE_ROWS { candidates.len() } else { PALETTE_ROWS };
    let mut i: usize = 0;
    assert(page(lines@) =~= palette_rows(input@, candidates@, 0));
    while i < count
        invariant
            i <= count <= candidates@.len(),
            typed@ == trimmed(input@),
            page(lines@) == palette_rows(input@, candidates@, i as nat),
        decreases count - i,
    {
        let name = candidates[i].0.as_str();
        let element = if same(typed.as_str(), name) {
            Element::Selection
        } else {
            Element::PickerSelected
        };
        let mut line = Line::new();
        line.push(concat2(" ", align_left(name, 10).as_str()), plain(element));
        line.push(candidates[i].1.clone(), plain(Element::Muted));
        assert(line@ =~= palette_row(input@, candidates@[i as int].0@, candidates@[i as int].1@));
        lines.push(line);
        i += 1;
        assert(page(lines@) =~= palette_rows(input@, candidates@, i as nat));
    }
    if lines.len() == 0 {
        assert(candidates@.len() == 0) by {
            assert(page(lines@).len() == lines@.len());
        }
        lines.push(
            Line::literal(" no matching command — Tab completes, Esc cancels", Element::Muted),
        );
        assert(page(lines@) =~= palette_lines(input@, candidates@));
    }
    lines
}

} // verus!
