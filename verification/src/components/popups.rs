//! The popups: help, the leader menu, the theme picker, the environment report, the indicator of a
//! pull request being opened, and the question before something that cannot be undone.

use vstd::prelude::*;

use crate::action::{actions, all, find, found, group_order, groups, ActionDef, Group};
use crate::app::{App, Check, CheckStatus};
use crate::keys::{Binding, Mode};
use crate::layout::{centered, centered_in, split_two, Constraint, Direction, Rect};
use crate::model_picker::PickerState;
use crate::paint::{line_of, page, plain, span, unpainted, Element, Line, Paint, SpanView};
use crate::patch::opt_view;
use crate::scroll::height_for;
use crate::strings::{
    concat2, concat3, concat4, concat5, decimal, join, joined, lemma_views_push, number, same, sort, sorted_of,
    views,
};
use crate::text::{align_left, aligned_left, pad, padded, truncate, truncated};

verus! {

broadcast use {crate::paint::group_page, crate::strings::lemma_views_push};

/// A box over the panes, with a border of one cell.
#[derive(Debug, PartialEq, Eq)]
pub struct Popup {
    /// Where it stands.
    pub area: Rect,
    /// What its border says.
    pub title: String,
    /// What it holds.
    pub lines: Vec<Line>,
    /// How many of the lines are scrolled away at the top.
    pub offset: usize,
}

/// How high a box is that holds a number of lines, in an area.
pub open spec fn box_height(lines: nat, area: Rect) -> u16 {
    if lines + 2 < area.height { (lines + 2) as u16 } else { area.height }
}

fn box_rows(lines: usize, area: Rect) -> (r: u16)
    ensures
        r == box_height(lines as nat, area),
{
    let rows: u16 = height_for(lines).saturating_add(2);
    if rows < area.height { rows } else { area.height }
}

/// Whether the cells of an area can be counted.
pub open spec fn on_grid(area: Rect) -> bool {
    area.x + area.width <= u16::MAX && area.y + area.height <= u16::MAX
}

/// What is said of an action.
pub open spec fn described(action: Seq<char>) -> Seq<char> {
    match found(actions(), action, 0) {
        Some(definition) => definition.description@,
        None => "(unknown action)"@,
    }
}

fn description(action: &str) -> (r: &'static str)
    ensures
        r@ == described(action@),
{
    match find(action) {
        Some(definition) => definition.description,
        None => "(unknown action)",
    }
}

/// One row of the leader menu.
pub open spec fn leader_row(binding: Binding) -> Seq<SpanView> {
    seq![
        SpanView { text: "  "@, paint: Paint::none() },
        span(aligned_left(binding.keys@, 12), Element::HelpKey),
        span(described(binding.action@), Element::HelpDescription),
    ]
}

/// The first `n` rows of the leader menu.
pub open spec fn leader_rows(bindings: Seq<Binding>, n: nat) -> Seq<Seq<SpanView>> {
    Seq::new(n, |i: int| leader_row(bindings[i]))
}

/// What the leader menu says.
pub open spec fn leader_lines(bindings: Seq<Binding>) -> Seq<Seq<SpanView>> {
    if bindings.len() == 0 {
        seq![line_of("  no leader bindings are configured"@, Element::Muted)]
    } else {
        leader_rows(bindings, bindings.len())
    }
}

/// The leader menu: the bindings that go on from the leader key, each by the keys that are left.
#[must_use]
pub fn leader_menu(area: Rect, leader: &str, bindings: &Vec<Binding>) -> (r: Popup)
    requires
        on_grid(area),
    ensures
        page(r.lines@) == leader_lines(bindings@),
        r.area == centered_in(area, 48, box_height(r.lines@.len(), area)),
        r.title@ == " leader "@ + leader@ + " "@,
        r.offset == 0,
{
    let mut lines: Vec<Line> = Vec::new();
    let mut i: usize = 0;
    assert(page(lines@) =~= leader_rows(bindings@, 0));
    while i < bindings.len()
        invariant
            i <= bindings@.len(),
            page(lines@) == leader_rows(bindings@, i as nat),
        decreases bindings@.len() - i,
    {
        let mut line = Line::new();
        line.push("  ".to_owned(), unpainted());
        line.push(align_left(bindings[i].keys.as_str(), 12), plain(Element::HelpKey));
        line.add_text(description(bindings[i].action.as_str()), Element::HelpDescription);
        assert(line@ =~= leader_row(bindings@[i as int]));
        lines.push(line);
        i += 1;
        assert(page(lines@) =~= leader_rows(bindings@, i as nat));
    }
    if bindings.len() == 0 {
        lines.push(Line::literal("  no leader bindings are configured", Element::Muted));
        assert(page(lines@) =~= leader_lines(bindings@));
    }
    let height: u16 = box_rows(lines.len(), area);
    Popup {
        area: centered(area, 48, height),
        title: concat3(" leader ", leader, " "),
        lines,
        offset: 0,
    }
}

/// One row of the theme picker.
pub open spec fn theme_row(name: Seq<char>, selected: bool, current: bool) -> Seq<SpanView> {
    line_of(
        " "@ + (if current { "*"@ } else { " "@ }) + " "@ + name + " "@,
        if selected { Element::PickerSelected } else { Element::Fg },
    )
}

/// The first `n` rows of the theme picker.
pub open spec fn theme_rows(names: Seq<Seq<char>>, cursor: nat, current: Seq<char>, n: nat) -> Seq<
    Seq<SpanView>,
> {
    Seq::new(n, |i: int| theme_row(names[i], i == cursor, names[i] == current))
}

/// What the theme picker says.
pub open spec fn theme_lines(names: Seq<Seq<char>>, cursor: nat, current: Seq<char>) -> Seq<
    Seq<SpanView>,
> {
    (if names.len() == 0 {
        seq![line_of(" no themes found"@, Element::Muted)]
    } else {
        theme_rows(names, cursor, current, names.len())
    }) + seq![
        Seq::empty(),
        line_of(" j/k move · Enter applies · Esc cancels"@, Element::Muted),
    ]
}

/// The list of themes that can be chosen.
#[must_use]
pub fn theme_picker(area: Rect, app: &App) -> (r: Popup)
    requires
        on_grid(area),
    ensures
        page(r.lines@) == theme_lines(
            views(app.theme_names@),
            app.picker_cursor as nat,
            app.theme@,
        ),
        r.area == centered_in(area, 52, box_height(r.lines@.len(), area)),
        r.title@ == " theme "@,
        r.offset == 0,
{
    let mut lines: Vec<Line> = Vec::new();
    let mut i: usize = 0;
    let ghost names = views(app.theme_names@);
    assert(page(lines@) =~= theme_rows(names, app.picker_cursor as nat, app.theme@, 0));
    while i < app.theme_names.len()
        invariant
            i <= app.theme_names@.len(),
            names == views(app.theme_names@),
            page(lines@) == theme_rows(names, app.picker_cursor as nat, app.theme@, i as nat),
        decreases app.theme_names@.len() - i,
    {
        let name = app.theme_names[i].as_str();
        let marker: &str = if same(name, app.theme.as_str()) { "*" } else { " " };
        let element = if i == app.picker_cursor { Element::PickerSelected } else { Element::Fg };
        lines.push(Line::of(concat5(" ", marker, " ", name, " "), element));
        i += 1;
        assert(page(lines@) =~= theme_rows(names, app.picker_cursor as nat, app.theme@, i as nat));
    }
    if app.theme_names.len() == 0 {
        lines.push(Line::literal(" no themes found", Element::Muted));
    }
    lines.push(Line::new());
    lines.push(Line::literal(" j/k move · Enter applies · Esc cancels", Element::Muted));
    assert(page(lines@) =~= theme_lines(names, app.picker_cursor as nat, app.theme@));
    let height: u16 = box_rows(lines.len(), area);
    Popup { area: centered(area, 52, height), title: " theme ".to_owned(), lines, offset: 0 }
}

impl CheckStatus {
    /// The element a status is shown in.
    pub open spec fn element(self) -> Element {
        match self {
            CheckStatus::Good => Element::NoticeSuccess,
            CheckStatus::Warn => Element::NoticeWarn,
            CheckStatus::Fail => Element::NoticeError,
        }
    }

    fn style(self) -> (r: Element)
        ensures
            r == self.element(),
    {
        match self {
            CheckStatus::Good => Element::NoticeSuccess,
            CheckStatus::Warn => Element::NoticeWarn,
            CheckStatus::Fail => Element::NoticeError,
        }
    }
}

/// One row of the environment report.
pub open spec fn check_row(check: Check) -> Seq<SpanView> {
    seq![
        span(" "@ + check.marker@ + " "@, check.status.element()),
        span(aligned_left(check.name@, 9), Element::HelpKey),
        span(check.detail@, Element::Fg),
    ]
}

/// The first `n` rows of the environment report.
pub open spec fn check_rows(checks: Seq<Check>, n: nat) -> Seq<Seq<SpanView>> {
    Seq::new(n, |i: int| check_row(checks[i]))
}

/// What the environment report says.
pub open spec fn doctor_lines(checks: Seq<Check>) -> Seq<Seq<SpanView>> {
    (if checks.len() == 0 {
        seq![line_of(" no checks were run"@, Element::Muted)]
    } else {
        check_rows(checks, checks.len())
    }) + seq![
        Seq::empty(),
        line_of(" Same checks as `smart-review --check`. Esc closes."@, Element::Muted),
    ]
}

/// The environment report.
#[must_use]
pub fn doctor(area: Rect, app: &App) -> (r: Popup)
    requires
        on_grid(area),
    ensures
        page(r.lines@) == doctor_lines(app.checks@),
        r.area == centered_in(
            area,
            if area.width < 4 { 0 } else { (area.width - 4) as u16 },
            box_height(r.lines@.len(), area),
        ),
        r.title@ == " doctor "@,
        r.offset == 0,
{
    let mut lines: Vec<Line> = Vec::new();
    let checks = &app.checks;
    let mut i: usize = 0;
    assert(page(lines@) =~= check_rows(checks@, 0));
    while i < checks.len()
        invariant
            i <= checks@.len(),
            page(lines@) == check_rows(checks@, i as nat),
        decreases checks@.len() - i,
    {
        let check = &checks[i];
        let mut line = Line::new();
        line.push(concat3(" ", check.marker.as_str(), " "), plain(check.status.style()));
        line.push(align_left(check.name.as_str(), 9), plain(Element::HelpKey));
        line.push(check.detail.clone(), plain(Element::Fg));
        assert(line@ =~= check_row(checks@[i as int]));
        lines.push(line);
        i += 1;
        assert(page(lines@) =~= check_rows(checks@, i as nat));
    }
    if checks.len() == 0 {
        lines.push(Line::literal(" no checks were run", Element::Muted));
    }
    lines.push(Line::new());
    lines.push(
        Line::literal(" Same checks as `smart-review --check`. Esc closes.", Element::Muted),
    );
    assert(page(lines@) =~= doctor_lines(app.checks@));
    let height: u16 = box_rows(lines.len(), area);
    Popup {
        area: centered(area, area.width.saturating_sub(4), height),
        title: " doctor ".to_owned(),
        lines,
        offset: 0,
    }
}

/// How many frames the spinner has.
pub const FRAMES: usize = 10;

/// A frame of the spinner.
pub open spec fn frame_at(i: int) -> Seq<char> {
    if i == 0 { "⠋"@ } else if i == 1 { "⠙"@ } else if i == 2 { "⠹"@ } else if i == 3 { "⠸"@ }
    else if i == 4 { "⠼"@ } else if i == 5 { "⠴"@ } else if i == 6 { "⠦"@ } else if i == 7 { "⠧"@ }
    else if i == 8 { "⠇"@ } else { "⠏"@ }
}

/// The spinner frame for a tick count.
#[must_use]
pub fn frame_for(tick: usize) -> (r: &'static str)
    ensures
        r@ == frame_at(tick as int % FRAMES as int),
{
    let i: usize = tick % FRAMES;
    if i == 0 { "⠋" } else if i == 1 { "⠙" } else if i == 2 { "⠹" } else if i == 3 { "⠸" }
    else if i == 4 { "⠼" } else if i == 5 { "⠴" } else if i == 6 { "⠦" } else if i == 7 { "⠧" }
    else if i == 8 { "⠇" } else { "⠏" }
}

/// A whole turn of the spinner comes back to the frame it started from.
pub proof fn lemma_the_spinner_wraps(tick: nat)
    ensures
        frame_at((tick + FRAMES) as int % FRAMES as int) == frame_at(tick as int % FRAMES as int),
{
}

/// What the indicator of a pull request being opened says.
pub open spec fn opening_lines(app: &App) -> Seq<Seq<SpanView>> {
    let opening = app.opening->0;
    seq![
        seq![
            span(" "@ + frame_at(app.spinner as int % FRAMES as int) + " "@, Element::Accent),
            span(opening.heading(), Element::Fg),
        ],
        Seq::empty(),
        line_of(" "@ + opening.progress(app.now_unix_secs), Element::Muted),
        line_of(" Esc gives up"@, Element::Muted),
    ]
}

/// The indicator of a pull request being opened, where one is.
#[must_use]
pub fn opening_popup(area: Rect, app: &App) -> (r: Option<Popup>)
    requires
        on_grid(area),
    ensures
        match r {
            Some(popup) => {
                &&& app.opening is Some
                &&& page(popup.lines@) == opening_lines(app)
                &&& popup.area == centered_in(area, 52, 6)
                &&& popup.title@ == " Opening "@
                &&& popup.offset == 0
            },
            None => app.opening is None,
        },
{
    match app.opening {
        None => None,
        Some(opening) => {
            let mut first = Line::new();
            first.push(concat3(" ", frame_for(app.spinner), " "), plain(Element::Accent));
            first.push(opening.headline(), plain(Element::Fg));
            assert(first@ =~= opening_lines(app)[0]);
            let mut lines: Vec<Line> = Vec::new();
            lines.push(first);
            lines.push(Line::new());
            lines.push(
                Line::of(concat2(" ", opening.detail(app.now_unix_secs).as_str()), Element::Muted),
            );
            lines.push(Line::literal(" Esc gives up", Element::Muted));
            assert(page(lines@) =~= opening_lines(app));
            Some(
                Popup {
                    area: centered(area, 52, 6),
                    title: " Opening ".to_owned(),
                    lines,
                    offset: 0,
                },
            )
        },
    }
}

/// How wide a question before something final may be.
pub const CONFIRM_WIDTH: u16 = 60;

/// A question before something that cannot be undone, and its keys below it.
#[derive(Debug, PartialEq, Eq)]
pub struct Confirm {
    /// Where the whole stands.
    pub area: Rect,
    /// Where the question stands, border included.
    pub body: Rect,
    /// The question.
    pub lines: Vec<Line>,
    /// Where the keys stand.
    pub footer: Rect,
    /// The keys, and that nothing has happened yet.
    pub keys: Vec<Line>,
}

/// How wide a question is.
pub open spec fn confirm_width(area: Rect) -> u16 {
    let room = if area.width < 4 { 0 } else { (area.width - 4) as u16 };
    if CONFIRM_WIDTH < room { CONFIRM_WIDTH } else { room }
}

/// What a question says.
pub open spec fn confirm_lines(question: Seq<char>, width: u16) -> Seq<Seq<SpanView>> {
    seq![Seq::empty(), line_of("  "@ + truncated(question, width as nat), Element::Fg)]
}

/// What its keys are.
pub open spec fn confirm_keys() -> Seq<Seq<SpanView>> {
    seq![
        line_of(" Enter confirms · Esc cancels"@, Element::Fg),
        line_of(" nothing has happened yet"@, Element::Muted),
    ]
}

/// The question before something that cannot be undone.
#[must_use]
pub fn confirm(area: Rect, question: &str) -> (r: Confirm)
    requires
        on_grid(area),
    ensures
        r.area == centered_in(area, confirm_width(area), 6),
        (r.body, r.footer) == crate::layout::divided_in_two(
            Direction::Vertical,
            Constraint::Min(1),
            Constraint::Length(2),
            r.area,
        ),
        page(r.lines@) == confirm_lines(question@, confirm_width(area)),
        page(r.keys@) == confirm_keys(),
{
    let room: u16 = area.width.saturating_sub(4);
    let width: u16 = if CONFIRM_WIDTH < room { CONFIRM_WIDTH } else { room };
    let place = centered(area, width, 6);
    let (body, footer) = split_two(
        Direction::Vertical,
        Constraint::Min(1),
        Constraint::Length(2),
        place,
    );
    let mut lines: Vec<Line> = Vec::new();
    lines.push(Line::new());
    lines.push(
        Line::of(concat2("  ", truncate(question, width as usize).as_str()), Element::Fg),
    );
    assert(page(lines@) =~= confirm_lines(question@, width));
    let mut keys: Vec<Line> = Vec::new();
    keys.push(Line::literal(" Enter confirms · Esc cancels", Element::Fg));
    keys.push(Line::literal(" nothing has happened yet", Element::Muted));
    assert(page(keys@) =~= confirm_keys());
    Confirm { area: place, body, lines, footer, keys }
}

/// What the model picker says while its check runs.
#[must_use]
pub fn checking_label(picker: &PickerState) -> (r: Option<&'static str>)
    ensures
        match r {
            Some(text) => picker.checking && text@ == "checking with the provider…"@,
            None => !picker.checking,
        },
{
    if picker.checking { Some("checking with the provider…") } else { None }
}

/// How wide the keys of the help list are.
pub const KEY_COLUMN: usize = 20;

/// One way to reach an action: the keys, and the mode where it is not the normal one.
pub open spec fn key_label(binding: Binding) -> Seq<char> {
    match binding.mode {
        Some(mode) => if mode == Mode::Normal {
            binding.keys@
        } else {
            binding.keys@ + " ("@ + mode.key() + ")"@
        },
        None => binding.keys@,
    }
}

/// The ways to reach an action among the first `n` bindings.
pub open spec fn key_labels(bindings: Seq<Binding>, action: Seq<char>, n: nat) -> Seq<Seq<char>>
    decreases n,
{
    if n == 0 {
        Seq::empty()
    } else {
        let before = key_labels(bindings, action, (n - 1) as nat);
        if bindings[n - 1].action@ == action {
            before.push(key_label(bindings[n - 1]))
        } else {
            before
        }
    }
}

/// Every way to reach an action, in order.
pub open spec fn keys_of(bindings: Seq<Binding>, action: Seq<char>) -> Seq<char> {
    let labels = key_labels(bindings, action, bindings.len());
    if labels.len() == 0 { "·"@ } else { joined(sorted_of(labels), ", "@) }
}

/// Every key sequence bound to an action, with the mode when it is not the normal one.
#[must_use]
pub fn keys_for(bindings: &Vec<Binding>, action: &str) -> (r: String)
    ensures
        r@ == keys_of(bindings@, action@),
{
    let mut labels: Vec<String> = Vec::new();
    let mut i: usize = 0;
    assert(views(labels@) =~= key_labels(bindings@, action@, 0));
    while i < bindings.len()
        invariant
            i <= bindings@.len(),
            views(labels@) == key_labels(bindings@, action@, i as nat),
        decreases bindings@.len() - i,
    {
        let binding = &bindings[i];
        if same(binding.action.as_str(), action) {
            let label = match binding.mode {
                Some(mode) => if mode == Mode::Normal {
                    binding.keys.clone()
                } else {
                    concat4(binding.keys.as_str(), " (", mode.as_str(), ")")
                },
                None => binding.keys.clone(),
            };
            labels.push(label);
        }
        i += 1;
    }
    assert(views(labels@).len() == labels@.len());
    if labels.len() == 0 {
        return "·".to_owned();
    }
    join(&sort(&labels), ", ")
}

impl Group {
    /// The heading of a group in the help list.
    pub open spec fn heading(self) -> Seq<char> {
        match self {
            Group::App => "APP"@,
            Group::Navigation => "NAVIGATION"@,
            Group::Pane => "PANES"@,
            Group::Search => "SEARCH"@,
            Group::Diff => "DIFF"@,
            Group::Theme => "THEME"@,
            Group::Chat => "CHAT"@,
            Group::Review => "REVIEW"@,
        }
    }

    fn capitals(self) -> (r: &'static str)
        ensures
            r@ == self.heading(),
    {
        match self {
            Group::App => "APP",
            Group::Navigation => "NAVIGATION",
            Group::Pane => "PANES",
            Group::Search => "SEARCH",
            Group::Diff => "DIFF",
            Group::Theme => "THEME",
            Group::Chat => "CHAT",
            Group::Review => "REVIEW",
        }
    }
}

/// One row of the help list.
pub open spec fn help_row(keys: Seq<char>, text: Seq<char>) -> Seq<SpanView> {
    seq![
        SpanView { text: "   "@, paint: Paint::none() },
        span(
            padded(truncated(keys, KEY_COLUMN as nat), KEY_COLUMN as nat),
            Element::HelpKey,
        ),
        span(text, Element::HelpDescription),
    ]
}

/// Whether the help list shows an action.
pub open spec fn is_shown(filter: Option<Seq<char>>, id: Seq<char>) -> bool {
    match filter {
        Some(wanted) => wanted == id,
        None => true,
    }
}

/// The rows of a group, among the first `n` actions.
pub open spec fn group_rows(
    definitions: Seq<ActionDef>,
    bindings: Seq<Binding>,
    filter: Option<Seq<char>>,
    group: Group,
    n: nat,
) -> Seq<Seq<SpanView>>
    decreases n,
{
    if n == 0 {
        Seq::empty()
    } else {
        let before = group_rows(definitions, bindings, filter, group, (n - 1) as nat);
        let action = definitions[n - 1];
        if action.group == group && is_shown(filter, action.id@) {
            before.push(help_row(keys_of(bindings, action.id@), action.description@))
        } else {
            before
        }
    }
}

/// A group of the help list, with its heading; nothing, where none of its actions is shown.
pub open spec fn group_block(
    definitions: Seq<ActionDef>,
    bindings: Seq<Binding>,
    filter: Option<Seq<char>>,
    group: Group,
) -> Seq<Seq<SpanView>> {
    let rows = group_rows(definitions, bindings, filter, group, definitions.len());
    if rows.len() == 0 {
        Seq::empty()
    } else {
        seq![line_of(" "@ + group.heading(), Element::HelpGroup)] + rows
    }
}

/// The blocks of the first `n` groups.
pub open spec fn group_blocks(
    definitions: Seq<ActionDef>,
    bindings: Seq<Binding>,
    filter: Option<Seq<char>>,
    order: Seq<Group>,
    n: nat,
) -> Seq<Seq<SpanView>>
    decreases n,
{
    if n == 0 {
        Seq::empty()
    } else {
        group_blocks(definitions, bindings, filter, order, (n - 1) as nat) + group_block(
            definitions,
            bindings,
            filter,
            order[n - 1],
        )
    }
}

/// The last line of the help list.
pub open spec fn help_footer(filter: Option<Seq<char>>) -> Seq<char> {
    match filter {
        Some(id) => " Filtered to `"@ + id + "` by :keymap — Esc closes"@,
        None => " Esc closes · j/k scroll · : commands · <leader> menu · :keymap <action>"@,
    }
}

/// What the help list says.
pub open spec fn help_lines(
    definitions: Seq<ActionDef>,
    bindings: Seq<Binding>,
    filter: Option<Seq<char>>,
    order: Seq<Group>,
) -> Seq<Seq<SpanView>> {
    group_blocks(definitions, bindings, filter, order, order.len()) + seq![
        Seq::empty(),
        line_of(help_footer(filter), Element::Muted),
    ]
}

fn shows(filter: &Option<String>, id: &str) -> (r: bool)
    ensures
        r == is_shown(opt_view(*filter), id@),
{
    match filter {
        Some(wanted) => same(wanted.as_str(), id),
        None => true,
    }
}

fn group_lines(
    definitions: &Vec<ActionDef>,
    bindings: &Vec<Binding>,
    filter: &Option<String>,
    group: Group,
) -> (r: Vec<Line>)
    ensures
        page(r@) == group_rows(
            definitions@,
            bindings@,
            opt_view(*filter),
            group,
            definitions@.len(),
        ),
{
    let mut rows: Vec<Line> = Vec::new();
    let mut i: usize = 0;
    while i < definitions.len()
        invariant
            i <= definitions@.len(),
            page(rows@) == group_rows(
                definitions@,
                bindings@,
                opt_view(*filter),
                group,
                i as nat,
            ),
        decreases definitions@.len() - i,
    {
        let action = definitions[i];
        if action.group == group && shows(filter, action.id) {
            let keys = keys_for(bindings, action.id);
            let mut line = Line::new();
            line.push("   ".to_owned(), unpainted());
            line.push(
                pad(truncate(keys.as_str(), KEY_COLUMN).as_str(), KEY_COLUMN),
                plain(Element::HelpKey),
            );
            line.add_text(action.description, Element::HelpDescription);
            assert(line@ =~= help_row(keys@, action.description@));
            rows.push(line);
        }
        i += 1;
    }
    rows
}

fn build_lines(
    definitions: &Vec<ActionDef>,
    bindings: &Vec<Binding>,
    filter: &Option<String>,
    order: &Vec<Group>,
) -> (r: Vec<Line>)
    ensures
        page(r@) == help_lines(definitions@, bindings@, opt_view(*filter), order@),
{
    let mut lines: Vec<Line> = Vec::new();
    let mut i: usize = 0;
    while i < order.len()
        invariant
            i <= order@.len(),
            page(lines@) == group_blocks(
                definitions@,
                bindings@,
                opt_view(*filter),
                order@,
                i as nat,
            ),
        decreases order@.len() - i,
    {
        let mut rows = group_lines(definitions, bindings, filter, order[i]);
        assert(page(rows@).len() == rows@.len());
        let ghost before = page(lines@);
        if rows.len() > 0 {
            lines.push(Line::of(concat2(" ", order[i].capitals()), Element::HelpGroup));
            lines.append(&mut rows);
        }
        i += 1;
        assert(page(lines@) =~= before + group_block(
            definitions@,
            bindings@,
            opt_view(*filter),
            order@[i - 1],
        ));
    }
    let footer = match filter {
        Some(id) => concat3(" Filtered to `", id.as_str(), "` by :keymap — Esc closes"),
        None => " Esc closes · j/k scroll · : commands · <leader> menu · :keymap <action>".to_owned(),
    };
    lines.push(Line::new());
    lines.push(Line::of(footer, Element::Muted));
    assert(page(lines@) =~= help_lines(definitions@, bindings@, opt_view(*filter), order@));
    lines
}

/// How many lines of the help list a box shows: all but the border and the hint.
pub open spec fn help_room(area: Rect) -> nat {
    if area.height < 3 { 0 } else { (area.height - 3) as nat }
}

/// How far the help list is scrolled, no further than to its end.
pub open spec fn help_offset(scroll: nat, len: nat, room: nat) -> nat {
    let last = if len > room { (len - room) as nat } else { 0 };
    if scroll < last { scroll } else { last }
}

/// The title of the help list, which says how far down it goes where it does not fit.
pub open spec fn help_title(scroll: nat, len: nat, room: nat) -> Seq<char> {
    if len > room {
        " Help  ["@ + decimal((help_offset(scroll, len, room) + room) as nat) + "/"@ + decimal(len)
            + "] "@
    } else {
        " Help "@
    }
}

/// The help list: every action that is not filtered out, by group, with its keys.
///
/// It is longer than most terminals, so it scrolls; nothing is cut off silently.
#[must_use]
pub fn help(area: Rect, app: &App, bindings: &Vec<Binding>) -> (r: Popup)
    requires
        on_grid(area),
    ensures
        page(r.lines@) == help_lines(actions(), bindings@, opt_view(app.help_filter), group_order()),
        r.area == centered_in(area, 88, box_height(r.lines@.len(), area)),
        r.offset == help_offset(app.help_scroll as nat, r.lines@.len(), help_room(r.area)),
        r.title@ == help_title(app.help_scroll as nat, r.lines@.len(), help_room(r.area)),
{
    let lines = build_lines(&all(), bindings, &app.help_filter, &groups());
    scrolled(area, app.help_scroll, lines)
}

fn scrolled(area: Rect, scroll: usize, lines: Vec<Line>) -> (r: Popup)
    requires
        on_grid(area),
    ensures
        r.lines == lines,
        r.area == centered_in(area, 88, box_height(lines@.len(), area)),
        r.offset == help_offset(scroll as nat, lines@.len(), help_room(r.area)),
        r.title@ == help_title(scroll as nat, lines@.len(), help_room(r.area)),
{
    let height: u16 = box_rows(lines.len(), area);
    let place = centered(area, 88, height);
    let room: usize = place.height.saturating_sub(3) as usize;
    let last: usize = lines.len().saturating_sub(room);
    let offset: usize = if scroll < last { scroll } else { last };
    let title = if lines.len() > room {
        concat5(
            " Help  [",
            number((offset + room) as u64).as_str(),
            "/",
            number(lines.len() as u64).as_str(),
            "] ",
        )
    } else {
        " Help ".to_owned()
    };
    Popup { area: place, title, lines, offset }
}

} // verus!
