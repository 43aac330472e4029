//! The comment composer, the draft panel and the publish modal.
//!
//! Three surfaces, one subject: what is about to be sent. They answer different questions: where a
//! comment will land, what has been staged, and whether that is really what is to be said.

use vstd::prelude::*;

use crate::draft::{place_label, Decision, DraftComment};
use crate::drafts::{Composer, DraftState, DraftStatus, Target};
use crate::layout::{center_share, centered_share, split_two, Constraint, Direction, Rect};
use crate::paint::{line_of, page, plain, span, Element, Line, SpanView};
use crate::strings::{
    concat2, concat3, concat4, concat5, decimal, lines, lines_of, number, trim, trimmed, views,
};
use crate::text::{truncate, truncated};

verus! {

broadcast use {crate::paint::group_page, crate::strings::lemma_views_push};

/// How many rows the composer takes when it is open.
///
/// Not a share: a comment is a sentence or a paragraph, and the diff above it is what it is about.
pub const COMPOSER_HEIGHT: u16 = 8;

/// The rows that stay above the composer.
pub const COMPOSER_LEAVES: u16 = 3;

/// How much of the screen the publish modal takes, in percent.
pub const MODAL_PERCENT: u16 = 80;

/// How wide the draft panel is, in percent.
pub const PANEL_PERCENT_X: u16 = 70;

/// How high the draft panel is, in percent.
pub const PANEL_PERCENT_Y: u16 = 60;

/// An area and the composer below it, which is there only while something is composed, and only
/// where it leaves room for what the comment is about.
pub open spec fn composer_parts(area: Rect, composing: bool) -> (Rect, Option<Rect>) {
    if !composing || area.height < COMPOSER_HEIGHT + COMPOSER_LEAVES {
        (area, None)
    } else {
        let left = area.height - COMPOSER_HEIGHT;
        (
            Rect { height: left as u16, ..area },
            Some(Rect { y: (area.y + left) as u16, height: COMPOSER_HEIGHT, ..area }),
        )
    }
}

/// Splits an area into what a comment is about and the composer below it.
///
/// The composer is no popup: the line it will land on has to stay visible.
#[must_use]
pub fn composer_split(area: Rect, composing: bool) -> (r: (Rect, Option<Rect>))
    requires
        area.y + area.height <= u16::MAX,
    ensures
        r == composer_parts(area, composing),
{
    if !composing || area.height < COMPOSER_HEIGHT + COMPOSER_LEAVES {
        return (area, None);
    }
    let (main, composer) = split_two(
        Direction::Vertical,
        Constraint::Min(COMPOSER_LEAVES),
        Constraint::Length(COMPOSER_HEIGHT),
        area,
    );
    (main, Some(composer))
}

/// How the composer names its own keys.
#[must_use]
pub fn keyboard_hint() -> (r: &'static str)
    ensures
        r@ == "Enter stages it · Alt-Enter for a new line"@,
{
    "Enter stages it · Alt-Enter for a new line"
}

/// The title of the composer.
pub open spec fn composer_title_words(target: Target, width: u16) -> Seq<char> {
    let room = if width < 24 { 0 } else { (width - 24) as nat };
    " comment on "@ + truncated(target@.place(), room) + " via "@
        + "Enter stages it · Alt-Enter for a new line"@ + " "@
}

/// The title of the composer: where the comment will land, and how it is sent.
#[must_use]
pub fn composer_title(composer: &Composer, width: u16) -> (r: String)
    ensures
        r@ == composer_title_words(composer.target, width),
{
    concat5(
        " comment on ",
        truncate(composer.target.label().as_str(), width.saturating_sub(24) as usize).as_str(),
        " via ",
        keyboard_hint(),
        " ",
    )
}

/// One line of the text being typed.
pub open spec fn typed_line(text: Seq<char>, first: bool, last: bool, room: nat) -> Seq<SpanView> {
    let start = seq![
        span(if first { " › "@ } else { "   "@ }, Element::Muted),
        span(truncated(text, room), Element::ChatInput),
    ];
    if last { start.push(span("▏"@, Element::Accent)) } else { start }
}

/// The first `n` lines of the text being typed.
pub open spec fn typed_lines(rows: Seq<Seq<char>>, room: nat, n: nat) -> Seq<Seq<SpanView>> {
    Seq::new(n, |i: int| typed_line(rows[i], i == 0, i + 1 == rows.len(), room))
}

/// What the composer says: the text so far, or what to write, and why it was refused.
pub open spec fn composer_page(composer: Composer, width: u16) -> Seq<Seq<SpanView>> {
    let rows = lines_of(composer.input@);
    let room = if width < 6 { 0 } else { (width - 6) as nat };
    (if composer.input@.len() == 0 {
        seq![
            seq![
                span(" › "@, Element::Muted),
                span("▏"@, Element::Accent),
                span("what should change, and why?"@, Element::Muted),
            ],
        ]
    } else {
        typed_lines(rows, room, rows.len())
    }) + match composer.refusal {
        Some(refusal) => seq![line_of("   "@ + refusal@, Element::NoticeError)],
        None => Seq::empty(),
    }
}

/// What the composer says.
#[must_use]
pub fn composer_lines(composer: &Composer, width: u16) -> (r: Vec<Line>)
    ensures
        page(r@) == composer_page(*composer, width),
{
    let mut out: Vec<Line> = Vec::new();
    let text = composer.input.text();
    if text.as_str().is_empty() {
        let mut line = Line::literal(" › ", Element::Muted);
        line.add_text("▏", Element::Accent);
        line.add_text("what should change, and why?", Element::Muted);
        assert(line@ =~= seq![
            span(" › "@, Element::Muted),
            span("▏"@, Element::Accent),
            span("what should change, and why?"@, Element::Muted),
        ]);
        out.push(line);
    } else {
        let room: usize = width.saturating_sub(6) as usize;
        let rows = lines(text.as_str());
        let ghost all = views(rows@);
        assert(all.len() == rows@.len());
        assert(page(out@) =~= typed_lines(all, room as nat, 0));
        let mut i: usize = 0;
        while i < rows.len()
            invariant
                i <= rows@.len(),
                all == views(rows@),
                page(out@) == typed_lines(all, room as nat, i as nat),
            decreases rows@.len() - i,
        {
            let mut line = Line::literal(if i == 0 { " › " } else { "   " }, Element::Muted);
            line.push(truncate(rows[i].as_str(), room), plain(Element::ChatInput));
            if i + 1 == rows.len() {
                line.add_text("▏", Element::Accent);
            }
            assert(line@ =~= typed_line(all[i as int], i == 0, i + 1 == all.len(), room as nat));
            out.push(line);
            i += 1;
            assert(page(out@) =~= typed_lines(all, room as nat, i as nat));
        }
    }
    match &composer.refusal {
        Some(refusal) => {
            out.push(Line::of(concat2("   ", refusal.as_str()), Element::NoticeError));
        },
        None => {},
    }
    assert(page(out@) =~= composer_page(*composer, width));
    out
}

/// Whether a comment is about a single line.
pub open spec fn is_single(target: Target) -> bool {
    match target {
        Target::Line(anchor) => anchor.start_line is None,
        _ => false,
    }
}

/// What the composer shows: its lines, and how a range is made where there is none.
#[must_use]
pub fn composer_contents(composer: &Composer, width: u16) -> (r: Vec<Line>)
    ensures
        page(r@) == composer_page(*composer, width) + if is_single(composer.target) {
            seq![line_of("   V then j/k then c makes this a range"@, Element::Muted)]
        } else {
            Seq::empty()
        },
{
    let mut out = composer_lines(composer, width);
    let single: bool = match &composer.target {
        Target::Line(anchor) => anchor.start_line.is_none(),
        _ => false,
    };
    let ghost before = page(out@);
    if single {
        out.push(Line::literal("   V then j/k then c makes this a range", Element::Muted));
        assert(page(out@) =~= before + seq![
            line_of("   V then j/k then c makes this a range"@, Element::Muted),
        ]);
    } else {
        assert(page(out@) =~= before + Seq::empty());
    }
    out
}

/// What a decision does, in a few words.
pub open spec fn verdict(decision: Decision) -> Seq<char> {
    match decision {
        Decision::Approve => "this unblocks the pull request"@,
        Decision::RequestChanges => "this blocks the merge until it is re-reviewed"@,
        Decision::Comment => "this decides nothing"@,
    }
}

/// What a decision does, in a few words, on the line that chooses it.
#[must_use]
pub fn verdict_note(decision: Decision) -> (r: &'static str)
    ensures
        r@ == verdict(decision),
{
    match decision {
        Decision::Approve => "this unblocks the pull request",
        Decision::RequestChanges => "this blocks the merge until it is re-reviewed",
        Decision::Comment => "this decides nothing",
    }
}

/// The body of a review, without the whitespace around it.
pub open spec fn own_words(drafts: DraftState) -> Seq<char> {
    match drafts.draft.body {
        Some(body) => trimmed(body@),
        None => trimmed(""@),
    }
}

fn own_body(drafts: &DraftState) -> (r: String)
    ensures
        r@ == own_words(*drafts),
{
    match &drafts.draft.body {
        Some(body) => trim(body.as_str()),
        None => trim(""),
    }
}

/// Where a staged comment stands, with its number.
pub open spec fn comment_words(comment: DraftComment, number: nat) -> Seq<char> {
    " "@ + decimal(number) + ". "@ + place_label(
        comment.path@,
        comment.side,
        comment.line,
        comment.start_line,
    )
}

/// The first `n` lines of a rendered text, each after a prefix.
pub open spec fn indented_rows(
    prefix: Seq<char>,
    element: Element,
    body: Seq<Seq<SpanView>>,
    n: nat,
) -> Seq<Seq<SpanView>> {
    Seq::new(n, |i: int| line_of(prefix, element) + body[i])
}

fn add_indented(out: &mut Vec<Line>, prefix: &str, element: Element, body: &Vec<Line>)
    ensures
        page(final(out)@) == page(old(out)@) + indented_rows(
            prefix@,
            element,
            page(body@),
            body@.len(),
        ),
{
    let ghost before = page(out@);
    assert(before + indented_rows(prefix@, element, page(body@), 0) =~= before);
    let mut i: usize = 0;
    while i < body.len()
        invariant
            i <= body@.len(),
            page(out@) == before + indented_rows(prefix@, element, page(body@), i as nat),
        decreases body@.len() - i,
    {
        let mut line = Line::literal(prefix, element);
        line.extend(body[i].clone());
        out.push(line);
        i += 1;
        assert(page(out@) =~= before + indented_rows(prefix@, element, page(body@), i as nat));
    }
}

/// The first `n` staged comments, numbered from one, each with its rendered text; the one at
/// `cursor` stands out, where there is a cursor.
pub open spec fn staged_blocks(
    comments: Seq<DraftComment>,
    bodies: Seq<Vec<Line>>,
    cursor: Option<usize>,
    n: nat,
) -> Seq<Seq<SpanView>>
    decreases n,
{
    if n == 0 {
        Seq::empty()
    } else {
        let (head, text) = staged_elements(cursor, n);
        staged_blocks(comments, bodies, cursor, (n - 1) as nat).push(
            line_of(comment_words(comments[n - 1], n), head),
        ) + indented_rows("    "@, text, page(bodies[n - 1]@), bodies[n - 1]@.len())
    }
}

/// The elements that a staged comment's place and its text's indent are drawn in.
pub open spec fn staged_elements(cursor: Option<usize>, number: nat) -> (Element, Element) {
    match cursor {
        Some(at) => if at == number {
            (Element::Selection, Element::Selection)
        } else {
            (Element::Fg, Element::Fg)
        },
        None => (Element::Accent, Element::Bg),
    }
}

fn add_staged(
    out: &mut Vec<Line>,
    comments: &Vec<DraftComment>,
    bodies: &Vec<Vec<Line>>,
    cursor: Option<usize>,
)
    requires
        comments@.len() == bodies@.len(),
    ensures
        page(final(out)@) == page(old(out)@) + staged_blocks(
            comments@,
            bodies@,
            cursor,
            comments@.len(),
        ),
{
    let ghost before = page(out@);
    assert(before + staged_blocks(comments@, bodies@, cursor, 0) =~= before);
    let mut i: usize = 0;
    while i < comments.len()
        invariant
            i <= comments@.len(),
            comments@.len() == bodies@.len(),
            page(out@) == before + staged_blocks(comments@, bodies@, cursor, i as nat),
        decreases comments@.len() - i,
    {
        let selected: bool = match cursor {
            Some(at) => at > 0 && at - 1 == i,
            None => false,
        };
        let head = if cursor.is_none() {
            Element::Accent
        } else if selected {
            Element::Selection
        } else {
            Element::Fg
        };
        let text = if cursor.is_none() { Element::Bg } else { head };
        out.push(
            Line::of(
                concat4(
                    " ",
                    number(i as u64 + 1).as_str(),
                    ". ",
                    comments[i].anchor().as_str(),
                ),
                head,
            ),
        );
        add_indented(out, "    ", text, &bodies[i]);
        i += 1;
        assert(page(out@) =~= before + staged_blocks(comments@, bodies@, cursor, i as nat));
    }
}

/// Whether the code has moved since the comments were written.
pub open spec fn has_drifted(drafts: DraftState, head: Option<Seq<char>>) -> bool {
    match (drafts.draft@.head_sha, head) {
        (Some(own), Some(other)) => own != other,
        _ => false,
    }
}

/// A label and what it stands for.
pub open spec fn labelled_line(label: Seq<char>, text: Seq<char>) -> Seq<SpanView> {
    seq![span(label, Element::Muted), span(text, Element::Fg)]
}

/// What the draft panel says, given each comment's text as it is rendered.
pub open spec fn panel_page(
    drafts: DraftState,
    head: Option<Seq<char>>,
    width: u16,
    bodies: Seq<Vec<Line>>,
) -> Seq<Seq<SpanView>> {
    let room = if width < 14 { 0 } else { (width - 14) as nat };
    let decision = match drafts.draft.decision {
        Some(decision) => decision.name(),
        None => "(not chosen: it will be a comment)"@,
    };
    let body = if own_words(drafts).len() == 0 {
        "(empty)"@
    } else {
        truncated(own_words(drafts), room)
    };
    seq![
        labelled_line(" decision  "@, decision),
        labelled_line(" body      "@, body),
    ] + (if has_drifted(drafts, head) {
        seq![
            line_of(
                " ! the diff has moved since these were written: re-check the line numbers"@,
                Element::NoticeWarn,
            ),
        ]
    } else {
        Seq::empty()
    }) + seq![
        Seq::empty(),
        line_of(
            " staged comments ("@ + decimal(drafts.draft.comments@.len()) + ")"@,
            Element::Title,
        ),
    ] + (if drafts.draft.comments@.len() == 0 {
        seq![
            line_of("   none yet — `c` on a line of the diff writes one"@, Element::Muted),
        ]
    } else {
        staged_blocks(
            drafts.draft.comments@,
            bodies,
            Some(drafts.cursor),
            drafts.draft.comments@.len(),
        )
    })
}

fn labelled(label: &str, text: String) -> (r: Line)
    ensures
        r@ == labelled_line(label@, text@),
{
    let mut line = Line::literal(label, Element::Muted);
    line.push(text, plain(Element::Fg));
    assert(line@ =~= labelled_line(label@, text@));
    line
}

/// The draft panel's contents: every staged comment, numbered, with what will be decided.
///
/// The line numbers of a comment mean something else once the code has moved, so that is said.
#[must_use]
pub fn panel_lines(
    drafts: &DraftState,
    head: Option<&str>,
    width: u16,
    bodies: &Vec<Vec<Line>>,
) -> (r: Vec<Line>)
    requires
        bodies@.len() == drafts.draft.comments@.len(),
    ensures
        page(r@) == panel_page(
            *drafts,
            match head {
                Some(head) => Some(head@),
                None => None,
            },
            width,
            bodies@,
        ),
{
    let mut out: Vec<Line> = Vec::new();
    let decision = match drafts.draft.decision {
        Some(decision) => decision.label().to_owned(),
        None => "(not chosen: it will be a comment)".to_owned(),
    };
    out.push(labelled(" decision  ", decision));
    let body = own_body(drafts);
    let text = if body.as_str().is_empty() {
        "(empty)".to_owned()
    } else {
        truncate(body.as_str(), width.saturating_sub(14) as usize)
    };
    out.push(labelled(" body      ", text));
    if drafts.drifted(head) {
        out.push(
            Line::literal(
                " ! the diff has moved since these were written: re-check the line numbers",
                Element::NoticeWarn,
            ),
        );
    }
    out.push(Line::new());
    out.push(
        Line::of(
            concat3(
                " staged comments (",
                number(drafts.draft.comments.len() as u64).as_str(),
                ")",
            ),
            Element::Title,
        ),
    );
    if drafts.draft.comments.len() == 0 {
        out.push(
            Line::literal("   none yet — `c` on a line of the diff writes one", Element::Muted),
        );
    } else {
        add_staged(&mut out, &drafts.draft.comments, bodies, Some(drafts.cursor));
    }
    assert(drafts.draft@.comments.len() == drafts.draft.comments@.len());
    let ghost seen = match head {
        Some(head) => Some(head@),
        None => None,
    };
    assert(page(out@) =~= panel_page(*drafts, seen, width, bodies@));
    out
}

/// The keys of the draft panel.
#[must_use]
pub fn panel_footer(drafts: &DraftState) -> (r: Line)
    ensures
        r@ == line_of(
            if drafts.draft.comments@.len() == 0 {
                " :draft list shows the other pull requests · Esc closes "@
            } else {
                " x removes the selected comment · :draft clear empties it · <leader>rr publishes "@
            },
            Element::Muted,
        ),
{
    Line::literal(
        if drafts.draft.comments.len() == 0 {
            " :draft list shows the other pull requests · Esc closes "
        } else {
            " x removes the selected comment · :draft clear empties it · <leader>rr publishes "
        },
        Element::Muted,
    )
}

/// What the publish modal says: the decision, the body, then every comment verbatim.
pub open spec fn modal_page(
    drafts: DraftState,
    body: Seq<Seq<SpanView>>,
    bodies: Seq<Vec<Line>>,
) -> Seq<Seq<SpanView>> {
    let decision = match drafts.draft.decision {
        Some(decision) => decision.name() + " — "@ + verdict(decision),
        None => "comment (no verdict)"@,
    };
    seq![
        labelled_line(" decision  "@, decision),
        line_of(" body"@, Element::Muted),
    ] + (if own_words(drafts).len() == 0 {
        seq![
            line_of("   (empty — `:draft body <text>` writes one)"@, Element::Muted),
        ]
    } else {
        indented_rows("   "@, Element::Bg, body, body.len())
    }) + seq![
        Seq::empty(),
        line_of(" "@ + drafts.draft@.words() + " — sent verbatim"@, Element::Title),
    ] + staged_blocks(
        drafts.draft.comments@,
        bodies,
        None,
        drafts.draft.comments@.len(),
    )
}

/// The publish modal's contents, given its texts as they are rendered.
#[must_use]
pub fn modal_lines(
    drafts: &DraftState,
    body: &Vec<Line>,
    bodies: &Vec<Vec<Line>>,
) -> (r: Vec<Line>)
    requires
        bodies@.len() == drafts.draft.comments@.len(),
    ensures
        page(r@) == modal_page(*drafts, page(body@), bodies@),
{
    let mut out: Vec<Line> = Vec::new();
    let decision = match drafts.draft.decision {
        Some(decision) => concat3(decision.label(), " — ", verdict_note(decision)),
        None => "comment (no verdict)".to_owned(),
    };
    out.push(labelled(" decision  ", decision));
    out.push(Line::literal(" body", Element::Muted));
    if own_body(drafts).as_str().is_empty() {
        out.push(
            Line::literal("   (empty — `:draft body <text>` writes one)", Element::Muted),
        );
    } else {
        add_indented(&mut out, "   ", Element::Bg, body);
    }
    out.push(Line::new());
    out.push(Line::of(concat3(" ", drafts.draft.summary().as_str(), " — sent verbatim"), Element::Title));
    add_staged(&mut out, &drafts.draft.comments, bodies, None);
    assert(page(out@) =~= modal_page(*drafts, page(body@), bodies@));
    out
}

/// The title of the publish modal.
pub open spec fn modal_heading(drafts: DraftState, dry_run: bool) -> Seq<char> {
    let decision = match drafts.draft.decision {
        Some(decision) => decision,
        None => Decision::Comment,
    };
    " publish review · #"@ + decimal(drafts.draft.pr as nat) + " · "@ + decision.name() + " "@ + (
    if drafts.status is Publishing { "· sending… "@ } else { ""@ }) + (if dry_run {
        "· DRY RUN "@
    } else {
        ""@
    })
}

/// The title of the publish modal.
#[must_use]
pub fn modal_title(drafts: &DraftState, dry_run: bool) -> (r: String)
    ensures
        r@ == modal_heading(*drafts, dry_run),
{
    let decision = match drafts.draft.decision {
        Some(decision) => decision,
        None => Decision::Comment,
    };
    let mut text = concat5(
        " publish review · #",
        number(drafts.draft.pr).as_str(),
        " · ",
        decision.label(),
        " ",
    );
    text.append(if drafts.status.is_publishing() { "· sending… " } else { "" });
    text.append(if dry_run { "· DRY RUN " } else { "" });
    text
}

/// The footer of the publish modal: why it failed, or what the next key does.
pub open spec fn modal_keys(drafts: DraftState, dry_run: bool) -> Seq<Seq<SpanView>> {
    match drafts.status {
        DraftStatus::Failed { reason } => seq![
            line_of(" "@ + reason@, Element::NoticeError),
            line_of(
                " nothing was posted · the draft is still here · Enter tries again"@,
                Element::Muted,
            ),
        ],
        _ => if dry_run {
            seq![
                line_of(" DRY RUN — nothing will be sent"@, Element::NoticeWarn),
                line_of(" Enter records the commands in logs/dry-run.log"@, Element::Muted),
            ]
        } else if drafts.armed {
            seq![
                line_of(" Enter again sends it to GitHub"@, Element::NoticeWarn),
                line_of(
                    " a is approve · r requests changes · c comments · Esc goes back"@,
                    Element::Muted,
                ),
            ]
        } else {
            seq![
                line_of(
                    " Enter to review it once more, then Enter again to send"@,
                    Element::Fg,
                ),
                line_of(
                    " a is approve · r requests changes · c comments · :draft body writes the body"@,
                    Element::Muted,
                ),
            ]
        },
    }
}

fn two_lines(first: String, element: Element, second: &str) -> (r: Vec<Line>)
    ensures
        page(r@) == seq![line_of(first@, element), line_of(second@, Element::Muted)],
{
    let mut out: Vec<Line> = Vec::new();
    out.push(Line::of(first, element));
    out.push(Line::literal(second, Element::Muted));
    assert(page(out@) =~= seq![line_of(first@, element), line_of(second@, Element::Muted)]);
    out
}

/// The footer of the publish modal.
#[must_use]
pub fn modal_footer(drafts: &DraftState, dry_run: bool) -> (r: Vec<Line>)
    ensures
        page(r@) == modal_keys(*drafts, dry_run),
{
    match &drafts.status {
        DraftStatus::Failed { reason } => two_lines(
            concat2(" ", reason.as_str()),
            Element::NoticeError,
            " nothing was posted · the draft is still here · Enter tries again",
        ),
        _ => if dry_run {
            two_lines(
                " DRY RUN — nothing will be sent".to_owned(),
                Element::NoticeWarn,
                " Enter records the commands in logs/dry-run.log",
            )
        } else if drafts.armed {
            two_lines(
                " Enter again sends it to GitHub".to_owned(),
                Element::NoticeWarn,
                " a is approve · r requests changes · c comments · Esc goes back",
            )
        } else {
            two_lines(
                " Enter to review it once more, then Enter again to send".to_owned(),
                Element::Fg,
                " a is approve · r requests changes · c comments · :draft body writes the body",
            )
        },
    }
}

/// Where a popup over the drafts stands, and the rows at its bottom that hold its keys.
pub open spec fn places(area: Rect, percent_x: u16, percent_y: u16, keys: u16) -> (Rect, Rect) {
    crate::layout::divided_in_two(
        Direction::Vertical,
        Constraint::Min(1),
        Constraint::Length(keys),
        centered_share(area, percent_x, percent_y),
    )
}

/// Where the draft panel and its keys stand.
#[must_use]
pub fn panel_places(area: Rect) -> (r: (Rect, Rect))
    ensures
        r == places(area, PANEL_PERCENT_X, PANEL_PERCENT_Y, 1),
{
    let whole = center_share(area, PANEL_PERCENT_X, PANEL_PERCENT_Y);
    split_two(Direction::Vertical, Constraint::Min(1), Constraint::Length(1), whole)
}

/// Where the publish modal and its keys stand.
#[must_use]
pub fn modal_places(area: Rect) -> (r: (Rect, Rect))
    ensures
        r == places(area, MODAL_PERCENT, MODAL_PERCENT, 3),
{
    let whole = center_share(area, MODAL_PERCENT, MODAL_PERCENT);
    split_two(Direction::Vertical, Constraint::Min(1), Constraint::Length(3), whole)
}

/// Nothing is sent unseen: each staged comment is shown with its number and its place.
pub proof fn lemma_every_comment_is_shown(
    comments: Seq<DraftComment>,
    bodies: Seq<Vec<Line>>,
    cursor: Option<usize>,
    n: nat,
    k: nat,
)
    requires
        0 < k <= n <= comments.len(),
    ensures
        staged_blocks(comments, bodies, cursor, n).contains(
            line_of(comment_words(comments[k - 1], k), staged_elements(cursor, k).0),
        ),
    decreases n,
{
    let wanted = line_of(comment_words(comments[k - 1], k), staged_elements(cursor, k).0);
    let before = staged_blocks(comments, bodies, cursor, (n - 1) as nat);
    let all = staged_blocks(comments, bodies, cursor, n);
    if k == n {
        assert(all[before.len() as int] == wanted);
    } else {
        lemma_every_comment_is_shown(comments, bodies, cursor, (n - 1) as nat, k);
        let i = choose|i: int| 0 <= i < before.len() && before[i] == wanted;
        assert(all[i] == wanted);
    }
}

} // verus!
