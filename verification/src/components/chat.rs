//! The chat pane: where it stands, and what it says.
//!
//! It stands along the bottom of the review screen, so that the code and the answer can be read
//! together. The conversation scrolls; everything below it has a fixed height.

use vstd::prelude::*;

use crate::app::App;
use crate::chat::{ChatState, ChatStatus};
use crate::input::{line_end, line_start};
use crate::layout::{split_two, Constraint, Direction, Rect};
use crate::paint::{line_of, page, plain, show, shown, span, Element, Line, SpanView};
use crate::patch::opt_view;
use crate::session::{count_questions, Message, MessageView, ReferenceView, Role, SessionMeta};
use crate::strings::{
    concat2, concat3, concat4, concat5, decimal, join, joined, number, parts_of, same, views,
};

verus! {

broadcast use {crate::paint::group_page, crate::strings::lemma_views_push};

/// How much of the review screen the chat pane takes when it is open, in percent.
///
/// A share rather than a number of rows: on a tall terminal a conversation deserves more room, and
/// on a short one it must not eat the diff.
pub const CHAT_HEIGHT_PERCENT: u32 = 45;

/// The fewest rows the chat pane can be useful in: border, one message, the compose box.
pub const CHAT_MIN_HEIGHT: u16 = 7;

/// The rows the diff keeps when the chat pane is open.
pub const DIFF_MIN_HEIGHT: u16 = 6;

/// The rows the compose box takes: up to four lines of typed text plus its border.
pub const COMPOSE_ROWS: u16 = 5;

/// How high an open chat pane is in a body: its share, but never so little that it is of no use,
/// nor so much that the diff is not.
pub open spec fn chat_height(height: nat) -> nat {
    let share = height * 45 / 100;
    let wanted = if share < 7 { 7 } else { share };
    let most = if height < 6 { 0 } else { height - 6 };
    (if wanted < most { wanted as int } else { most }) as nat
}

/// The diff area and the chat pane of a body.
///
/// A body too short for both gets no chat pane: a sliver of one is worse than none.
pub open spec fn chat_parts(body: Rect, open: bool) -> (Rect, Option<Rect>) {
    if !open || body.height < 13 {
        (body, None)
    } else {
        let wanted = chat_height(body.height as nat);
        let left = body.height - wanted;
        (
            Rect { height: left as u16, ..body },
            Some(Rect { y: (body.y + left) as u16, height: wanted as u16, ..body }),
        )
    }
}

/// Splits the review body into the diff area and the chat pane.
///
/// What is drawn and what a click is tested against come from this one function.
#[must_use]
pub fn chat_split(body: Rect, open: bool) -> (r: (Rect, Option<Rect>))
    requires
        body.y + body.height <= u16::MAX,
    ensures
        r == chat_parts(body, open),
{
    if !open {
        return (body, None);
    }
    let share: u16 = (body.height as u32 * CHAT_HEIGHT_PERCENT / 100) as u16;
    let wanted: u16 = if share < CHAT_MIN_HEIGHT { CHAT_MIN_HEIGHT } else { share };
    let most: u16 = body.height.saturating_sub(DIFF_MIN_HEIGHT);
    let wanted: u16 = if wanted < most { wanted } else { most };
    if wanted < CHAT_MIN_HEIGHT || body.height < CHAT_MIN_HEIGHT + DIFF_MIN_HEIGHT {
        return (body, None);
    }
    let (main, chat) = split_two(
        Direction::Vertical,
        Constraint::Min(DIFF_MIN_HEIGHT),
        Constraint::Length(wanted),
        body,
    );
    (main, Some(chat))
}

/// The two panes tile the body: together they are as high as it, the chat pane starts where the
/// diff ends, and neither is too low to be of use.
pub proof fn lemma_the_panes_tile_the_body(body: Rect)
    requires
        body.y + body.height <= u16::MAX,
        body.height >= CHAT_MIN_HEIGHT + DIFF_MIN_HEIGHT,
    ensures
        ({
            let (main, chat) = chat_parts(body, true);
            &&& chat is Some
            &&& main.height + chat->0.height == body.height
            &&& main.y == body.y
            &&& chat->0.y == body.y + main.height
            &&& main.height >= DIFF_MIN_HEIGHT
            &&& chat->0.height >= CHAT_MIN_HEIGHT
            &&& main.x == body.x && chat->0.x == body.x
            &&& main.width == body.width && chat->0.width == body.width
        }),
{
}

/// How many rows the compose box needs: the typed lines, at most four, and the hints; a question
/// about sending takes it over.
pub open spec fn rows_to_compose(chat: ChatState) -> nat {
    if chat.awaiting_confirmation is Some {
        3
    } else {
        let lines = parts_of(chat.input@, '\n').len();
        (if lines > 4 { 4 } else { lines }) + 3
    }
}

/// How many rows the compose box needs.
#[must_use]
pub fn compose_rows(chat: &ChatState) -> (r: u16)
    ensures
        r == rows_to_compose(*chat),
{
    if chat.is_confirming() {
        return 3;
    }
    let lines = chat.input.lines();
    assert(views(lines@).len() == lines@.len());
    let n: usize = if lines.len() > 4 { 4 } else { lines.len() };
    n as u16 + 3
}

/// The commits that the title of the chat pane names.
pub struct TitleWords {
    /// The commit the conversation started at, shortened.
    pub started: String,
    /// The commit the pull request is at, shortened.
    pub head: String,
}

/// The pane title: which conversation, what it has cost, and whether the code has moved since.
pub open spec fn chat_title(app: &App, words: TitleWords) -> Seq<char> {
    if app.chat.listing {
        " chat · "@ + decimal(app.chat.sessions@.len())
            + " session(s) — Enter opens, Esc closes "@
    } else {
        let provenance = match app.chat.session {
            Some(session) => session.model@ + " · started at "@ + words.started@,
            None => app.model_words(),
        };
        let moved = match (app.chat.session, app.detail) {
            (Some(session), Some(detail)) => session.head_sha@ != detail.summary.head_sha@,
            _ => false,
        };
        " chat · "@ + provenance + " · "@ + app.chat.summed().words() + " "@ + if moved {
            "· the pull request has moved to "@ + words.head@ + " "@
        } else {
            ""@
        }
    }
}

fn has_moved(app: &App) -> (r: bool)
    ensures
        r == match (app.chat.session, app.detail) {
            (Some(session), Some(detail)) => session.head_sha@ != detail.summary.head_sha@,
            _ => false,
        },
{
    match (&app.chat.session, &app.detail) {
        (Some(session), Some(detail)) => session.is_stale_against(detail.summary.head_sha.as_str()),
        _ => false,
    }
}

/// The pane title.
#[must_use]
pub fn title(app: &App, words: &TitleWords) -> (r: String)
    ensures
        r@ == chat_title(app, *words),
{
    let chat = &app.chat;
    if chat.listing {
        return concat3(
            " chat · ",
            number(chat.sessions.len() as u64).as_str(),
            " session(s) — Enter opens, Esc closes ",
        );
    }
    let provenance = match &chat.session {
        Some(session) => concat3(session.model.as_str(), " · started at ", words.started.as_str()),
        None => app.model_label(),
    };
    let tail = if has_moved(app) {
        concat3("· the pull request has moved to ", words.head.as_str(), " ")
    } else {
        "".to_owned()
    };
    let mut text = concat5(
        " chat · ",
        provenance.as_str(),
        " · ",
        chat.totals().label().as_str(),
        " ",
    );
    text.append(tail.as_str());
    text
}

/// What an empty pane says, which is the whole of its discoverability.
pub open spec fn opening_lines(app: &App) -> Seq<Seq<SpanView>> {
    let first = seq![
        line_of(" Ask about this pull request."@, Element::ChatAnswer),
        Seq::empty(),
        line_of(
            " The model sees the diff, the changed files and the commit messages — exactly what `:context` lists — and nothing else. It cannot read the repository."@,
            Element::Muted,
        ),
    ];
    let model = if app.active_model is None {
        seq![
            Seq::empty(),
            line_of(
                " No model is configured yet: press <leader>m. "@ + match app.model_problem {
                    Some(problem) => problem@,
                    None => ""@,
                },
                Element::NoticeWarn,
            ),
        ]
    } else {
        Seq::empty()
    };
    let added = if app.chat.added@.len() > 0 {
        seq![
            Seq::empty(),
            line_of(
                " Added to the context: "@ + joined(views(app.chat.added@), ", "@),
                Element::Muted,
            ),
        ]
    } else {
        Seq::empty()
    };
    first + model + added
}

/// What an empty pane says.
#[must_use]
pub fn opening(app: &App) -> (r: Vec<Line>)
    ensures
        page(r@) == opening_lines(app),
{
    let mut lines: Vec<Line> = Vec::new();
    lines.push(Line::literal(" Ask about this pull request.", Element::ChatAnswer));
    lines.push(Line::new());
    lines.push(
        Line::literal(
            " The model sees the diff, the changed files and the commit messages — exactly what `:context` lists — and nothing else. It cannot read the repository.",
            Element::Muted,
        ),
    );
    if app.active_model.is_none() {
        lines.push(Line::new());
        let problem: &str = match &app.model_problem {
            Some(problem) => problem.as_str(),
            None => "",
        };
        lines.push(
            Line::of(
                concat2(" No model is configured yet: press <leader>m. ", problem),
                Element::NoticeWarn,
            ),
        );
    }
    if app.chat.added.len() > 0 {
        lines.push(Line::new());
        lines.push(
            Line::of(
                concat2(" Added to the context: ", join(&app.chat.added, ", ").as_str()),
                Element::Muted,
            ),
        );
    }
    assert(page(lines@) =~= opening_lines(app));
    lines
}

/// One row of the list of conversations.
pub open spec fn session_row(meta: SessionMeta, current: bool, age: Seq<char>, tokens: Seq<char>) -> Seq<
    SpanView,
> {
    let element = if current { Element::Selection } else { Element::ChatAnswer };
    seq![
        span(if current { " ▶ "@ } else { "   "@ }, element),
        span(meta.id@ + " "@, element),
        span(
            age + " · "@ + decimal(meta.turns as nat) + " turn(s) · ~"@ + tokens + " tokens"@,
            Element::Muted,
        ),
    ]
}

/// Whether a conversation is the one on screen.
pub open spec fn is_current(chat: ChatState, id: Seq<char>) -> bool {
    match chat.session {
        Some(session) => session.id@ == id,
        None => false,
    }
}

/// The first `n` rows of the list of conversations.
pub open spec fn session_rows(
    chat: ChatState,
    ages: Seq<Seq<char>>,
    tokens: Seq<Seq<char>>,
    n: nat,
) -> Seq<Seq<SpanView>> {
    Seq::new(
        n,
        |i: int|
            session_row(
                chat.sessions@[i],
                is_current(chat, chat.sessions@[i].id@),
                ages[i],
                tokens[i],
            ),
    )
}

/// The list of conversations.
pub open spec fn session_lines(chat: ChatState, ages: Seq<Seq<char>>, tokens: Seq<Seq<char>>) -> Seq<
    Seq<SpanView>,
> {
    (if chat.sessions@.len() == 0 {
        seq![line_of(" no conversations yet"@, Element::Muted)]
    } else {
        session_rows(chat, ages, tokens, chat.sessions@.len())
    }) + seq![
        Seq::empty(),
        line_of(
            " `:chat open <id>` opens one · `:chat new` starts another · `:chat export md` keeps a copy"@,
            Element::Muted,
        ),
    ]
}

/// The list of conversations, given how old each is and how many tokens it used.
#[must_use]
pub fn list(chat: &ChatState, ages: &Vec<String>, tokens: &Vec<String>) -> (r: Vec<Line>)
    requires
        ages@.len() == chat.sessions@.len(),
        tokens@.len() == chat.sessions@.len(),
    ensures
        page(r@) == session_lines(*chat, views(ages@), views(tokens@)),
{
    let mut lines: Vec<Line> = Vec::new();
    let mut i: usize = 0;
    assert(page(lines@) =~= session_rows(*chat, views(ages@), views(tokens@), 0));
    while i < chat.sessions.len()
        invariant
            i <= chat.sessions@.len(),
            ages@.len() == chat.sessions@.len(),
            tokens@.len() == chat.sessions@.len(),
            page(lines@) == session_rows(*chat, views(ages@), views(tokens@), i as nat),
        decreases chat.sessions@.len() - i,
    {
        let meta = &chat.sessions[i];
        let current: bool = match &chat.session {
            Some(session) => same(session.id.as_str(), meta.id.as_str()),
            None => false,
        };
        let element = if current { Element::Selection } else { Element::ChatAnswer };
        let mut line = Line::new();
        line.add_text(if current { " ▶ " } else { "   " }, element);
        line.push(concat2(meta.id.as_str(), " "), plain(element));
        let mut text = concat4(
            ages[i].as_str(),
            " · ",
            number(meta.turns as u64).as_str(),
            " turn(s) · ~",
        );
        text.append(tokens[i].as_str());
        text.append(" tokens");
        line.push(text, plain(Element::Muted));
        assert(line@ =~= session_row(*meta, current, ages@[i as int]@, tokens@[i as int]@));
        lines.push(line);
        i += 1;
        assert(page(lines@) =~= session_rows(*chat, views(ages@), views(tokens@), i as nat));
    }
    if chat.sessions.len() == 0 {
        lines.push(Line::literal(" no conversations yet", Element::Muted));
    }
    lines.push(Line::new());
    lines.push(
        Line::literal(
            " `:chat open <id>` opens one · `:chat new` starts another · `:chat export md` keeps a copy",
            Element::Muted,
        ),
    );
    assert(page(lines@) =~= session_lines(*chat, views(ages@), views(tokens@)));
    lines
}

/// A message's text as it is laid out, which only the markdown renderer and the wrapping know.
pub struct Rendered {
    /// The text wrapped to the pane, for a question.
    pub wrapped: Vec<String>,
    /// The text rendered as markdown, for an answer.
    pub body: Vec<Line>,
    /// How many tokens it used.
    pub tokens: String,
    /// What that cost, where it is known.
    pub cost: Option<String>,
}

/// The first `n` lines of a question.
pub open spec fn question_rows(wrapped: Seq<Seq<char>>, n: nat) -> Seq<Seq<SpanView>> {
    Seq::new(n, |i: int| line_of(" "@ + wrapped[i], Element::ChatAnswer))
}

/// The first `n` lines of a rendered body, each after a space.
pub open spec fn body_rows(body: Seq<Seq<SpanView>>, n: nat) -> Seq<Seq<SpanView>> {
    Seq::new(n, |i: int| line_of(" "@, Element::Bg) + body[i])
}

/// The labels of the first `n` references whose files are in the diff.
pub open spec fn labels_in_diff(app: &App, references: Seq<ReferenceView>, n: nat) -> Seq<Seq<char>>
    decreases n,
{
    if n == 0 {
        Seq::empty()
    } else {
        let before = labels_in_diff(app, references, (n - 1) as nat);
        if app.has_path(references[n - 1].path) {
            before.push(references[n - 1].label)
        } else {
            before
        }
    }
}

/// What goes under a message: its references in the diff, and what it used.
pub open spec fn message_footer(
    app: &App,
    message: MessageView,
    tokens: Seq<char>,
    cost: Option<Seq<char>>,
) -> Seq<Seq<SpanView>> {
    let labels = labels_in_diff(app, message.references, message.references.len());
    let references = if labels.len() == 0 {
        Seq::empty()
    } else {
        seq![line_of("   in this change: "@ + joined(labels, ", "@), Element::ChatReference)]
    };
    let usage = if message.usage is None {
        Seq::empty()
    } else {
        seq![
            line_of(
                "   ~"@ + tokens + " tokens"@ + match cost {
                    Some(cost) => " · ~"@ + cost,
                    None => ""@,
                },
                Element::Muted,
            ),
        ]
    };
    references + usage
}

/// One stored message, as lines.
pub open spec fn message_lines(app: &App, message: MessageView, rendered: Rendered) -> Seq<
    Seq<SpanView>,
> {
    (match message.role {
        Role::User => seq![line_of(" you"@, Element::ChatQuestion)] + question_rows(
            views(rendered.wrapped@),
            rendered.wrapped@.len(),
        ),
        Role::Assistant => seq![
            if message.partial {
                line_of(" model (stopped)"@, Element::ChatStopped)
            } else {
                line_of(" model"@, Element::Muted)
            },
        ] + body_rows(page(rendered.body@), rendered.body@.len()),
    }) + message_footer(app, message, rendered.tokens@, opt_view(rendered.cost))
}

fn body_lines(body: &Vec<Line>) -> (r: Vec<Line>)
    ensures
        page(r@) == body_rows(page(body@), body@.len()),
{
    let mut lines: Vec<Line> = Vec::new();
    let mut i: usize = 0;
    assert(page(lines@) =~= body_rows(page(body@), 0));
    while i < body.len()
        invariant
            i <= body@.len(),
            page(lines@) == body_rows(page(body@), i as nat),
        decreases body@.len() - i,
    {
        let mut line = Line::literal(" ", Element::Bg);
        line.extend(body[i].clone());
        lines.push(line);
        i += 1;
        assert(page(lines@) =~= body_rows(page(body@), i as nat));
    }
    lines
}

fn question_lines(wrapped: &Vec<String>) -> (r: Vec<Line>)
    ensures
        page(r@) == question_rows(views(wrapped@), wrapped@.len()),
{
    let mut lines: Vec<Line> = Vec::new();
    let mut i: usize = 0;
    assert(page(lines@) =~= question_rows(views(wrapped@), 0));
    while i < wrapped.len()
        invariant
            i <= wrapped@.len(),
            page(lines@) == question_rows(views(wrapped@), i as nat),
        decreases wrapped@.len() - i,
    {
        lines.push(Line::of(concat2(" ", wrapped[i].as_str()), Element::ChatAnswer));
        i += 1;
        assert(page(lines@) =~= question_rows(views(wrapped@), i as nat));
    }
    lines
}

fn in_diff(app: &App, message: &Message) -> (r: Vec<String>)
    ensures
        views(r@) == labels_in_diff(app, message@.references, message@.references.len()),
{
    let mut labels: Vec<String> = Vec::new();
    let mut i: usize = 0;
    assert(views(labels@) =~= labels_in_diff(app, message@.references, 0));
    while i < message.references.len()
        invariant
            i <= message.references@.len(),
            views(labels@) == labels_in_diff(app, message@.references, i as nat),
        decreases message.references@.len() - i,
    {
        assert(message@.references[i as int] == message.references@[i as int]@);
        if app.path_in_diff(message.references[i].path.as_str()) {
            labels.push(message.references[i].label.clone());
        }
        i += 1;
    }
    labels
}

fn footer_for(app: &App, message: &Message, rendered: &Rendered) -> (r: Vec<Line>)
    ensures
        page(r@) == message_footer(app, message@, rendered.tokens@, opt_view(rendered.cost)),
{
    let mut footer: Vec<Line> = Vec::new();
    let labels = in_diff(app, message);
    assert(views(labels@).len() == labels@.len());
    if labels.len() > 0 {
        footer.push(
            Line::of(
                concat2("   in this change: ", join(&labels, ", ").as_str()),
                Element::ChatReference,
            ),
        );
    }
    if message.usage.is_some() {
        let cost = match &rendered.cost {
            Some(cost) => concat2(" · ~", cost.as_str()),
            None => "".to_owned(),
        };
        footer.push(
            Line::of(
                concat4("   ~", rendered.tokens.as_str(), " tokens", cost.as_str()),
                Element::Muted,
            ),
        );
    }
    assert(page(footer@) =~= message_footer(
        app,
        message@,
        rendered.tokens@,
        opt_view(rendered.cost),
    ));
    footer
}

/// One stored message, as lines.
#[must_use]
pub fn drawn_message(app: &App, message: &Message, rendered: &Rendered) -> (r: Vec<Line>)
    ensures
        page(r@) == message_lines(app, message@, *rendered),
{
    let mut lines: Vec<Line> = Vec::new();
    match message.role {
        Role::User => {
            lines.push(Line::literal(" you", Element::ChatQuestion));
            let mut body = question_lines(&rendered.wrapped);
            lines.append(&mut body);
        },
        Role::Assistant => {
            if message.partial {
                lines.push(Line::literal(" model (stopped)", Element::ChatStopped));
            } else {
                lines.push(Line::literal(" model", Element::Muted));
            }
            let mut body = body_lines(&rendered.body);
            lines.append(&mut body);
        },
    }
    let mut footer = footer_for(app, message, rendered);
    lines.append(&mut footer);
    assert(page(lines@) =~= message_lines(app, message@, *rendered));
    lines
}

/// A request that produced no answer, with the reason.
pub open spec fn failed_lines(status: ChatStatus) -> Seq<Seq<SpanView>> {
    match status {
        ChatStatus::Failed { reason } => seq![
            line_of(" model (failed)"@, Element::NoticeError),
            line_of("   "@ + reason@, Element::Fg),
            line_of(
                "   r repeats the question · `:model` shows what is configured"@,
                Element::Muted,
            ),
        ],
        _ => Seq::empty(),
    }
}

/// A request that produced no answer, with the reason; nothing where there is none.
#[must_use]
pub fn failed(chat: &ChatState) -> (r: Vec<Line>)
    ensures
        page(r@) == failed_lines(chat.status),
{
    let mut lines: Vec<Line> = Vec::new();
    match &chat.status {
        ChatStatus::Failed { reason } => {
            lines.push(Line::literal(" model (failed)", Element::NoticeError));
            lines.push(Line::of(concat2("   ", reason.as_str()), Element::Fg));
            lines.push(
                Line::literal(
                    "   r repeats the question · `:model` shows what is configured",
                    Element::Muted,
                ),
            );
        },
        _ => {},
    }
    assert(page(lines@) =~= failed_lines(chat.status));
    lines
}

/// The lines of a body, with the cursor behind the last.
pub open spec fn with_cursor(rows: Seq<Seq<SpanView>>) -> Seq<Seq<SpanView>> {
    if rows.len() == 0 {
        rows
    } else {
        rows.drop_last().push(rows.last().push(span("▌"@, Element::Accent)))
    }
}

/// The answer arriving now.
pub open spec fn streaming_lines(chat: ChatState, body: Seq<Seq<SpanView>>) -> Seq<Seq<SpanView>> {
    let head = seq![
        if chat.status is Stopped {
            line_of(" model (stopped)"@, Element::ChatStopped)
        } else {
            line_of(" model…"@, Element::Muted)
        },
    ];
    if chat.stream@.0.len() == 0 {
        head + seq![line_of("   "@ + chat.status.words(), Element::Muted)]
    } else {
        head + with_cursor(body_rows(body, body.len()))
    }
}

/// The answer arriving now, given its text so far rendered as markdown.
///
/// It is laid out as a stored answer is, so that the text does not reflow when it lands; the only
/// difference is the cursor at the end.
#[must_use]
pub fn streaming(chat: &ChatState, body: &Vec<Line>) -> (r: Vec<Line>)
    ensures
        page(r@) == streaming_lines(*chat, page(body@)),
{
    let mut lines: Vec<Line> = Vec::new();
    if matches!(chat.status, ChatStatus::Stopped) {
        lines.push(Line::literal(" model (stopped)", Element::ChatStopped));
    } else {
        lines.push(Line::literal(" model…", Element::Muted));
    }
    if chat.stream.text().is_empty() {
        lines.push(Line::of(concat2("   ", chat.status.label().as_str()), Element::Muted));
        assert(page(lines@) =~= streaming_lines(*chat, page(body@)));
        return lines;
    }
    let mut rows = body_lines(body);
    let ghost plain_rows = page(rows@);
    assert(plain_rows.len() == rows@.len());
    match rows.pop() {
        Some(mut last) => {
            let ghost kept = rows@;
            let ghost popped = last;
            assert(plain_rows =~= page(kept.push(popped)));
            assert(plain_rows.drop_last() =~= page(kept));
            last.add_text("▌", Element::Accent);
            rows.push(last);
        },
        None => {},
    }
    lines.append(&mut rows);
    assert(page(lines@) =~= streaming_lines(*chat, page(body@)));
    lines
}

/// The first `n` stored messages, each followed by an empty line.
pub open spec fn stored_lines(app: &App, rendered: Seq<Rendered>, n: nat) -> Seq<Seq<SpanView>>
    decreases n,
{
    if n == 0 {
        Seq::empty()
    } else {
        (stored_lines(app, rendered, (n - 1) as nat) + message_lines(
            app,
            app.chat.session->0@.messages[n - 1],
            rendered[n - 1],
        )).push(Seq::empty())
    }
}

/// The conversation: what an empty pane says, the messages, the answer arriving, and why the last
/// question failed.
pub open spec fn conversation_lines(
    app: &App,
    rendered: Seq<Rendered>,
    streamed: Seq<Seq<SpanView>>,
) -> Seq<Seq<SpanView>> {
    let chat = app.chat;
    let first = if chat.sessions@.len() == 0 && chat.session is None {
        opening_lines(app)
    } else {
        Seq::empty()
    };
    let answer = if chat.draws_answer() {
        streaming_lines(chat, streamed).push(Seq::empty())
    } else {
        Seq::empty()
    };
    let failure = if chat.status is Failed {
        failed_lines(chat.status).push(Seq::empty())
    } else {
        Seq::empty()
    };
    first + stored_lines(app, rendered, chat.stored_count()) + answer + failure
}

fn stored(app: &App, rendered: &Vec<Rendered>) -> (r: Vec<Line>)
    requires
        rendered@.len() == app.chat.stored_count(),
    ensures
        page(r@) == stored_lines(app, rendered@, rendered@.len()),
{
    let mut lines: Vec<Line> = Vec::new();
    match &app.chat.session {
        Some(session) => {
            let mut i: usize = 0;
            while i < session.messages.len()
                invariant
                    i <= session.messages@.len(),
                    app.chat.session == Some(*session),
                    rendered@.len() == app.chat.stored_count(),
                    page(lines@) == stored_lines(app, rendered@, i as nat),
                decreases session.messages@.len() - i,
            {
                assert(session@.messages[i as int] == session.messages@[i as int]@);
                let mut block = drawn_message(app, &session.messages[i], &rendered[i]);
                lines.append(&mut block);
                lines.push(Line::new());
                i += 1;
            }
        },
        None => {},
    }
    lines
}

/// The conversation, given each stored message and the answer arriving as they are laid out.
#[must_use]
pub fn conversation(app: &App, rendered: &Vec<Rendered>, streamed: &Vec<Line>) -> (r: Vec<Line>)
    requires
        rendered@.len() == app.chat.stored_count(),
    ensures
        page(r@) == conversation_lines(app, rendered@, page(streamed@)),
{
    let chat = &app.chat;
    let mut lines: Vec<Line> = if chat.sessions.len() == 0 && chat.session.is_none() {
        opening(app)
    } else {
        Vec::new()
    };
    let mut messages = stored(app, rendered);
    lines.append(&mut messages);
    if chat.status.is_running() || matches!(chat.status, ChatStatus::Stopped) {
        let mut answer = streaming(chat, streamed);
        lines.append(&mut answer);
        lines.push(Line::new());
    }
    if matches!(chat.status, ChatStatus::Failed { .. }) {
        let mut failure = failed(chat);
        lines.append(&mut failure);
        lines.push(Line::new());
    }
    assert(page(lines@) =~= conversation_lines(app, rendered@, page(streamed@)));
    lines
}

/// The first line that is shown, counted from the end of the conversation: without a scroll, the
/// newest thing said is at the bottom.
pub open spec fn conversation_start(len: nat, height: nat, scroll: nat) -> nat {
    let end = if len > height { (len - height) as nat } else { 0 };
    if end > scroll { (end - scroll) as nat } else { 0 }
}

/// The part of a conversation that a pane of `height` rows shows.
#[must_use]
pub fn scrolled(lines: &Vec<Line>, height: usize, scroll: usize) -> (r: Vec<Line>)
    ensures
        page(r@) == shown(
            page(lines@),
            conversation_start(lines@.len(), height as nat, scroll as nat),
            height as nat,
        ),
{
    let offset: usize = lines.len().saturating_sub(height).saturating_sub(scroll);
    show(lines, offset, height)
}

/// The hints under the compose box.
pub open spec fn hints(chat: ChatState) -> Seq<Seq<char>> {
    let asked = match chat.session {
        Some(session) => count_questions(session@.messages, session@.messages.len()) > 0,
        None => false,
    };
    let first = if chat.status.running() {
        seq!["Esc stops it"@]
    } else if asked {
        seq!["r repeats the last question"@]
    } else {
        Seq::empty()
    };
    let files = if chat.added@.len() > 0 {
        seq![decimal(chat.added@.len()) + " added file(s)"@]
    } else {
        Seq::empty()
    };
    let dropped = if chat.dropped > 0 {
        seq![decimal(chat.dropped as nat) + " earlier message(s) not sent"@]
    } else {
        Seq::empty()
    };
    let all = first + files + dropped;
    if all.len() == 0 { seq!["`:context` shows what is sent"@] } else { all }
}

fn hint_words(chat: &ChatState) -> (r: Vec<String>)
    ensures
        views(r@) == hints(*chat),
{
    let mut out: Vec<String> = Vec::new();
    let asked: bool = match &chat.session {
        Some(session) => session.turns() > 0,
        None => false,
    };
    if chat.status.is_running() {
        out.push("Esc stops it".to_owned());
    } else if asked {
        out.push("r repeats the last question".to_owned());
    }
    if chat.added.len() > 0 {
        out.push(concat2(number(chat.added.len() as u64).as_str(), " added file(s)"));
    }
    if chat.dropped > 0 {
        out.push(concat2(number(chat.dropped as u64).as_str(), " earlier message(s) not sent"));
    }
    assert(views(out@).len() == out@.len());
    if out.len() == 0 {
        out.push("`:context` shows what is sent".to_owned());
    }
    assert(views(out@) =~= hints(*chat));
    out
}

/// The line of the compose box that the cursor is on, with the cursor drawn.
pub open spec fn typed_row(chat: ChatState, element: Element) -> Seq<SpanView> {
    let text = chat.input@;
    let start = line_start(text, chat.input.cursor as nat) as int;
    let end = line_end(text, chat.input.cursor as nat) as int;
    seq![
        span(" › "@, Element::Accent),
        span(text.subrange(start, chat.input.cursor as int), element),
        span("▏"@, Element::Accent),
        span(text.subrange(chat.input.cursor as int, end), element),
    ]
}

/// What the compose box says: what would be sent, where that is asked, or what is being typed.
pub open spec fn compose_lines(app: &App, focused: bool) -> Seq<Seq<SpanView>> {
    let chat = app.chat;
    let element = if focused { Element::ChatInput } else { Element::Muted };
    if chat.awaiting_confirmation is Some {
        seq![
            line_of(" Nothing has been sent yet."@, Element::NoticeWarn),
            line_of(
                match chat.estimate {
                    Some(estimate) => " This would send "@ + estimate.label@ + " to "@
                        + app.model_words() + ". Press Enter again to send, Esc to cancel."@,
                    None => " The context is being gathered…"@,
                },
                element,
            ),
        ]
    } else {
        let typed = parts_of(chat.input@, '\n').len();
        seq![typed_row(chat, element)] + (if typed > 1 {
            seq![
                line_of(
                    "   ("@ + decimal(typed)
                        + " lines; Enter sends, Alt-Enter or Ctrl-J adds a line)"@,
                    Element::Muted,
                ),
            ]
        } else {
            Seq::empty()
        }) + seq![line_of("  "@ + joined(hints(chat), " · "@), Element::Muted)]
    }
}

/// The compose box: the confirmation, or what is being typed.
#[must_use]
pub fn compose(app: &App, focused: bool) -> (r: Vec<Line>)
    requires
        app.chat.input.wf(),
    ensures
        page(r@) == compose_lines(app, focused),
{
    let chat = &app.chat;
    let element = if focused { Element::ChatInput } else { Element::Muted };
    let mut lines: Vec<Line> = Vec::new();
    if chat.is_confirming() {
        lines.push(Line::literal(" Nothing has been sent yet.", Element::NoticeWarn));
        let text = match &chat.estimate {
            Some(estimate) => concat5(
                " This would send ",
                estimate.label.as_str(),
                " to ",
                app.model_label().as_str(),
                ". Press Enter again to send, Esc to cancel.",
            ),
            None => " The context is being gathered…".to_owned(),
        };
        lines.push(Line::of(text, element));
        assert(page(lines@) =~= compose_lines(app, focused));
        return lines;
    }
    let (before, after) = chat.input.around_cursor();
    let mut row = Line::literal(" › ", Element::Accent);
    row.push(before, plain(element));
    row.add_text("▏", Element::Accent);
    row.push(after, plain(element));
    assert(row@ =~= typed_row(*chat, element));
    lines.push(row);
    let typed = chat.input.lines();
    assert(views(typed@).len() == typed@.len());
    if typed.len() > 1 {
        lines.push(
            Line::of(
                concat3(
                    "   (",
                    number(typed.len() as u64).as_str(),
                    " lines; Enter sends, Alt-Enter or Ctrl-J adds a line)",
                ),
                Element::Muted,
            ),
        );
    }
    let text = join(&hint_words(chat), " · ");
    lines.push(Line::of(concat2("  ", text.as_str()), Element::Muted));
    assert(page(lines@) =~= compose_lines(app, focused));
    lines
}

} // verus!
