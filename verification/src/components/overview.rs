//! The Overview and Checks tabs: what the author says, what the analysis says, and how the checks
//! went.

use vstd::prelude::*;

use crate::app::App;
use crate::components::review::said_count;
use crate::paint::{copy_lines, line_of, page, unpainted, Element, Line, Paint, SpanView};
use crate::panel::{PanelModel, PanelPlanStep};
use crate::pr::{CheckLifecycle, CheckRun, CheckState, PullRequestDetail};
use crate::strings::{
    concat2, concat3, concat4, concat5, decimal, join, joined, number, trim, trimmed, views,
};

verus! {

broadcast use {crate::paint::group_page, crate::strings::lemma_views_push};

/// A line in the terminal's own style.
pub open spec fn raw_line(text: Seq<char>) -> Seq<SpanView> {
    seq![SpanView { text, paint: Paint::none() }]
}

fn plain_line(text: String) -> (r: Line)
    ensures
        r@ == raw_line(text@),
{
    let mut line = Line::new();
    line.push(text, unpainted());
    assert(line@ =~= raw_line(text@));
    line
}

/// Who opened the pull request, from where to where, and whether it is still open.
pub open spec fn origin_words(detail: PullRequestDetail) -> Seq<char> {
    " author: "@ + detail.summary.author@ + " · "@ + detail.summary.head_ref@ + " → "@
        + detail.summary.base_ref@ + " · "@ + detail.summary.state.name()
}

/// How much of everything a pull request has.
pub open spec fn count_words(detail: PullRequestDetail) -> Seq<char> {
    " "@ + decimal(detail.commits@.len()) + " commit(s) · "@ + decimal(
        detail.summary.changed_files as nat,
    ) + " changed file(s) · "@ + decimal(detail.checks@.len()) + " check(s) · "@ + decimal(
        said_count(detail),
    ) + " discussion item(s)"@
}

/// What the reviews and the checks amount to.
pub open spec fn standing_words(detail: PullRequestDetail) -> Seq<char> {
    " review decision: "@ + (match detail.summary.review_decision {
        Some(decision) => decision.name(),
        None => "not reported"@,
    }) + " · checks: "@ + detail.summary.checks.words()
}

/// The author's own account, given the description as it is rendered.
pub open spec fn header_lines(detail: PullRequestDetail, body: Seq<Seq<SpanView>>) -> Seq<
    Seq<SpanView>,
> {
    seq![
        line_of(" "@ + detail.summary.title@ + " "@, Element::Title),
        raw_line(origin_words(detail)),
        raw_line(count_words(detail)),
        raw_line(standing_words(detail)),
        Seq::empty(),
        line_of(" Author description"@, Element::Title),
    ] + (if trimmed(detail.body@).len() == 0 {
        seq![line_of(" No description was provided."@, Element::Muted)]
    } else {
        body
    })
}

fn origin_label(detail: &PullRequestDetail) -> (r: String)
    ensures
        r@ == origin_words(*detail),
{
    let mut text = concat5(
        " author: ",
        detail.summary.author.as_str(),
        " · ",
        detail.summary.head_ref.as_str(),
        " → ",
    );
    text.append(detail.summary.base_ref.as_str());
    text.append(" · ");
    text.append(detail.summary.state.label());
    text
}

fn count_label(detail: &PullRequestDetail) -> (r: String)
    requires
        said_count(*detail) <= u64::MAX,
    ensures
        r@ == count_words(*detail),
{
    let said: u64 = detail.reviews.len() as u64 + detail.comments.len() as u64
        + detail.conversation.len() as u64;
    let mut text = concat4(
        " ",
        number(detail.commits.len() as u64).as_str(),
        " commit(s) · ",
        number(detail.summary.changed_files).as_str(),
    );
    text.append(" changed file(s) · ");
    text.append(number(detail.checks.len() as u64).as_str());
    text.append(" check(s) · ");
    text.append(number(said).as_str());
    text.append(" discussion item(s)");
    text
}

fn standing_label(detail: &PullRequestDetail) -> (r: String)
    ensures
        r@ == standing_words(*detail),
{
    concat4(
        " review decision: ",
        match detail.summary.review_decision {
            Some(decision) => decision.label(),
            None => "not reported",
        },
        " · checks: ",
        detail.summary.checks.label().as_str(),
    )
}

fn header(detail: &PullRequestDetail, body: &Vec<Line>) -> (r: Vec<Line>)
    requires
        said_count(*detail) <= u64::MAX,
    ensures
        page(r@) == header_lines(*detail, page(body@)),
{
    let mut out: Vec<Line> = Vec::new();
    out.push(Line::of(concat3(" ", detail.summary.title.as_str(), " "), Element::Title));
    out.push(plain_line(origin_label(detail)));
    out.push(plain_line(count_label(detail)));
    out.push(plain_line(standing_label(detail)));
    out.push(Line::new());
    out.push(Line::literal(" Author description", Element::Title));
    if trim(detail.body.as_str()).as_str().is_empty() {
        out.push(Line::literal(" No description was provided.", Element::Muted));
    } else {
        copy_lines(&mut out, body);
    }
    assert(page(out@) =~= header_lines(*detail, page(body@)));
    out
}

/// One step of the reading plan.
pub open spec fn step_lines(step: PanelPlanStep) -> Seq<Seq<SpanView>> {
    seq![
        raw_line(" "@ + decimal(step.order as nat) + ". "@ + step.name@ + " — "@ + step.rationale@),
        line_of("    "@ + joined(views(step.files@), " · "@), Element::Muted),
    ]
}

/// The first `n` steps of the reading plan.
pub open spec fn steps_lines(steps: Seq<PanelPlanStep>, n: nat) -> Seq<Seq<SpanView>>
    decreases n,
{
    if n == 0 {
        Seq::empty()
    } else {
        steps_lines(steps, (n - 1) as nat) + step_lines(steps[n - 1])
    }
}

fn add_reading_plan(out: &mut Vec<Line>, steps: &Vec<PanelPlanStep>)
    ensures
        page(final(out)@) == page(old(out)@) + (seq![
            line_of(" Reading plan"@, Element::Accent),
        ] + steps_lines(steps@, steps@.len())),
{
    let ghost before = page(out@);
    out.push(Line::literal(" Reading plan", Element::Accent));
    let ghost first = page(out@);
    assert(first + steps_lines(steps@, 0) =~= first);
    let mut i: usize = 0;
    while i < steps.len()
        invariant
            i <= steps@.len(),
            page(out@) == first + steps_lines(steps@, i as nat),
        decreases steps@.len() - i,
    {
        let step = &steps[i];
        let mut text = concat4(" ", number(step.order as u64).as_str(), ". ", step.name.as_str());
        text.append(" — ");
        text.append(step.rationale.as_str());
        out.push(plain_line(text));
        out.push(
            Line::of(concat2("    ", join(&step.files, " · ").as_str()), Element::Muted),
        );
        i += 1;
        assert(page(out@) =~= first + steps_lines(steps@, i as nat));
    }
    assert(page(out@) =~= before + (seq![line_of(" Reading plan"@, Element::Accent)] + steps_lines(
        steps@,
        steps@.len(),
    )));
}

/// The first `n` limitations.
pub open spec fn limitation_lines(limitations: Seq<Seq<char>>, n: nat) -> Seq<Seq<SpanView>> {
    Seq::new(n, |i: int| line_of("  limitation: "@ + limitations[i], Element::NoticeWarn))
}

/// How much of the change the analysis covers, and what it says it could not tell.
pub open spec fn coverage_lines(detail: PullRequestDetail, analysis: PanelModel) -> Seq<
    Seq<SpanView>,
> {
    seq![
        line_of(
            " Coverage: "@ + decimal(analysis.analyzed_files@.len()) + " / "@ + decimal(
                detail.summary.changed_files as nat,
            ) + " file(s) explicitly analyzed · "@ + decimal(analysis.truncated_files@.len())
                + " truncated"@,
            if analysis.truncated_files@.len() == 0 { Element::Muted } else { Element::NoticeWarn },
        ),
    ] + limitation_lines(views(analysis.limitations@), analysis.limitations@.len())
}

fn add_coverage(out: &mut Vec<Line>, detail: &PullRequestDetail, analysis: &PanelModel)
    ensures
        page(final(out)@) == page(old(out)@) + coverage_lines(*detail, *analysis),
{
    let ghost before = page(out@);
    let mut text = concat4(
        " Coverage: ",
        number(analysis.analyzed_files.len() as u64).as_str(),
        " / ",
        number(detail.summary.changed_files).as_str(),
    );
    text.append(" file(s) explicitly analyzed · ");
    text.append(number(analysis.truncated_files.len() as u64).as_str());
    text.append(" truncated");
    let element = if analysis.truncated_files.len() == 0 {
        Element::Muted
    } else {
        Element::NoticeWarn
    };
    out.push(Line::of(text, element));
    let ghost first = page(out@);
    let ghost all = views(analysis.limitations@);
    assert(first + limitation_lines(all, 0) =~= first);
    let mut i: usize = 0;
    while i < analysis.limitations.len()
        invariant
            i <= analysis.limitations@.len(),
            all == views(analysis.limitations@),
            page(out@) == first + limitation_lines(all, i as nat),
        decreases analysis.limitations@.len() - i,
    {
        out.push(
            Line::of(
                concat2("  limitation: ", analysis.limitations[i].as_str()),
                Element::NoticeWarn,
            ),
        );
        i += 1;
        assert(page(out@) =~= first + limitation_lines(all, i as nat));
    }
    assert(page(out@) =~= before + coverage_lines(*detail, *analysis));
}

/// The first `n` suggested questions.
pub open spec fn suggestion_rows(questions: Seq<Seq<char>>, n: nat) -> Seq<Seq<SpanView>> {
    Seq::new(
        n,
        |i: int|
            raw_line(
                "  "@ + decimal((i + 1) as nat) + ". "@ + questions[i] + " · :chat suggested "@
                    + decimal((i + 1) as nat),
            ),
    )
}

/// The suggested questions, which are never sent by themselves; nothing where there are none.
pub open spec fn suggestion_lines(questions: Seq<Seq<char>>) -> Seq<Seq<SpanView>> {
    if questions.len() == 0 {
        Seq::empty()
    } else {
        seq![
            line_of(
                " Suggested questions (populate Ask; never auto-send)"@,
                Element::Accent,
            ),
        ] + suggestion_rows(questions, questions.len())
    }
}

fn add_suggestions(out: &mut Vec<Line>, questions: &Vec<String>)
    ensures
        page(final(out)@) == page(old(out)@) + suggestion_lines(views(questions@)),
{
    let ghost before = page(out@);
    let ghost all = views(questions@);
    if questions.len() == 0 {
        assert(page(out@) =~= before + suggestion_lines(all));
        return;
    }
    out.push(
        Line::literal(" Suggested questions (populate Ask; never auto-send)", Element::Accent),
    );
    let ghost first = page(out@);
    assert(first + suggestion_rows(all, 0) =~= first);
    let mut i: usize = 0;
    while i < questions.len()
        invariant
            i <= questions@.len(),
            all == views(questions@),
            page(out@) == first + suggestion_rows(all, i as nat),
        decreases questions@.len() - i,
    {
        let place = number(i as u64 + 1);
        let text = concat5(
            "  ",
            place.as_str(),
            ". ",
            questions[i].as_str(),
            " · :chat suggested ",
        );
        out.push(plain_line(concat2(text.as_str(), place.as_str())));
        i += 1;
        assert(page(out@) =~= first + suggestion_rows(all, i as nat));
    }
    assert(page(out@) =~= before + suggestion_lines(all));
}

/// Where the analysis came from, what it is doing, and whether it is of this commit.
pub open spec fn provenance_lines(app: &App, origin: Seq<char>) -> Seq<Seq<SpanView>> {
    match app.provenance(origin) {
        Some(provenance) => seq![
            line_of(
                " "@ + provenance + " · "@ + app.panel.state.words() + " · "@ + (
                if app.is_stale() { "stale"@ } else { "current"@ }),
                Element::Muted,
            ),
        ],
        None => Seq::empty(),
    }
}

fn add_provenance(out: &mut Vec<Line>, app: &App, origin: &str)
    ensures
        page(final(out)@) == page(old(out)@) + provenance_lines(app, origin@),
{
    let ghost before = page(out@);
    match app.analysis_provenance(origin) {
        Some(provenance) => {
            let mut text = concat5(
                " ",
                provenance.as_str(),
                " · ",
                app.panel.state.label().as_str(),
                " · ",
            );
            text.append(if app.analysis_is_stale() { "stale" } else { "current" });
            out.push(Line::of(text, Element::Muted));
        },
        None => {},
    }
    assert(page(out@) =~= before + provenance_lines(app, origin@));
}

/// What the author wrote and the analysis says, as they are rendered.
pub struct OverviewText {
    /// The author's description.
    pub body: Vec<Line>,
    /// What the change does.
    pub summary: Vec<Line>,
    /// Why it is made.
    pub intent: Vec<Line>,
    /// Where the analysis came from.
    pub origin: String,
}

/// What the analysis says.
pub open spec fn analysis_lines(app: &App, detail: PullRequestDetail, text: OverviewText) -> Seq<
    Seq<SpanView>,
> {
    let analysis = app.panel.analysis->0.analysis.panel;
    seq![line_of(" Review brief · AI"@, Element::Accent)] + page(text.summary@) + seq![
        line_of(" Purpose · inferred"@, Element::Accent),
    ] + page(text.intent@) + (seq![line_of(" Reading plan"@, Element::Accent)] + steps_lines(
        analysis.steps@,
        analysis.steps@.len(),
    )) + coverage_lines(detail, analysis) + suggestion_lines(views(analysis.questions@))
        + provenance_lines(app, text.origin@)
}

fn add_analysis(
    out: &mut Vec<Line>,
    app: &App,
    detail: &PullRequestDetail,
    analysis: &PanelModel,
    text: &OverviewText,
)
    requires
        app.panel.analysis is Some,
        *analysis == app.panel.analysis->0.analysis.panel,
    ensures
        page(final(out)@) == page(old(out)@) + analysis_lines(app, *detail, *text),
{
    let ghost before = page(out@);
    out.push(Line::literal(" Review brief · AI", Element::Accent));
    copy_lines(out, &text.summary);
    out.push(Line::literal(" Purpose · inferred", Element::Accent));
    copy_lines(out, &text.intent);
    add_reading_plan(out, &analysis.steps);
    add_coverage(out, detail, analysis);
    add_suggestions(out, &analysis.questions);
    add_provenance(out, app, text.origin.as_str());
    assert(page(out@) =~= before + analysis_lines(app, *detail, *text));
}

/// What is said where there is no analysis.
pub open spec fn missing_words(app: &App) -> Seq<char> {
    if app.panel.state.running() {
        " Analysis is running; Files remains usable and Esc cancels."@
    } else if app.active_model is Some {
        " No analysis yet; press <leader>a to generate guided review."@
    } else {
        " Select a model with <leader>m; Files, Checks, Discussion and drafts remain available."@
    }
}

fn missing_label(app: &App) -> (r: &'static str)
    ensures
        r@ == missing_words(app),
{
    if app.panel.state.is_running() {
        " Analysis is running; Files remains usable and Esc cancels."
    } else if app.active_model.is_some() {
        " No analysis yet; press <leader>a to generate guided review."
    } else {
        " Select a model with <leader>m; Files, Checks, Discussion and drafts remain available."
    }
}

/// The overview: what the author says, apart from what the analysis says.
pub open spec fn overview_lines(app: &App, text: OverviewText) -> Seq<Seq<SpanView>> {
    match app.detail {
        None => Seq::empty(),
        Some(detail) => header_lines(detail, page(text.body@)) + seq![
            Seq::empty(),
            line_of(" Guided review"@, Element::Title),
        ] + (if app.panel.analysis is Some {
            analysis_lines(app, detail, text)
        } else {
            seq![line_of(missing_words(app), Element::Muted)]
        }),
    }
}

/// The overview, given its texts as they are rendered.
#[must_use]
pub fn overview(app: &App, text: &OverviewText) -> (r: Vec<Line>)
    requires
        app.detail is Some ==> said_count(app.detail->0) <= u64::MAX,
    ensures
        page(r@) == overview_lines(app, *text),
{
    match &app.detail {
        None => Vec::new(),
        Some(detail) => {
            let mut out = header(detail, &text.body);
            out.push(Line::new());
            out.push(Line::literal(" Guided review", Element::Title));
            match app.analysis_panel() {
                Some(analysis) => add_analysis(&mut out, app, detail, analysis, text),
                None => out.push(Line::literal(missing_label(app), Element::Muted)),
            }
            assert(page(out@) =~= overview_lines(app, *text));
            out
        },
    }
}

/// The mark of a check.
pub open spec fn check_mark(state: CheckState) -> Seq<char> {
    match state {
        CheckState::Success => "✓"@,
        CheckState::Failure => "✗"@,
        CheckState::Pending => "…"@,
        CheckState::Neutral => "•"@,
        CheckState::Skipped => "−"@,
        CheckState::Unknown => "?"@,
    }
}

/// How a check went, or where it is in its life.
pub open spec fn check_words(check: CheckRun) -> Seq<char> {
    match check.lifecycle {
        CheckLifecycle::Queued => "queued"@,
        CheckLifecycle::Running => "running"@,
        CheckLifecycle::Completed | CheckLifecycle::Unknown => match check.state {
            CheckState::Success => "success"@,
            CheckState::Failure => "failed"@,
            CheckState::Pending => "pending"@,
            CheckState::Neutral => "neutral"@,
            CheckState::Skipped => "skipped"@,
            CheckState::Unknown => "unknown"@,
        },
    }
}

fn mark_of(state: CheckState) -> (r: &'static str)
    ensures
        r@ == check_mark(state),
{
    match state {
        CheckState::Success => "✓",
        CheckState::Failure => "✗",
        CheckState::Pending => "…",
        CheckState::Neutral => "•",
        CheckState::Skipped => "−",
        CheckState::Unknown => "?",
    }
}

fn words_of_check(check: &CheckRun) -> (r: &'static str)
    ensures
        r@ == check_words(*check),
{
    match check.lifecycle {
        CheckLifecycle::Queued => "queued",
        CheckLifecycle::Running => "running",
        CheckLifecycle::Completed | CheckLifecycle::Unknown => match check.state {
            CheckState::Success => "success",
            CheckState::Failure => "failed",
            CheckState::Pending => "pending",
            CheckState::Neutral => "neutral",
            CheckState::Skipped => "skipped",
            CheckState::Unknown => "unknown",
        },
    }
}

/// A line below a check, where there is something to say.
pub open spec fn note_lines(text: Option<Seq<char>>, before: Seq<char>, after: Seq<char>) -> Seq<
    Seq<SpanView>,
> {
    match text {
        Some(text) => seq![line_of(before + text + after, Element::Muted)],
        None => Seq::empty(),
    }
}

fn add_note(out: &mut Vec<Line>, text: &Option<String>, before: &str, after: &str)
    ensures
        page(final(out)@) == page(old(out)@) + note_lines(
            crate::patch::opt_view(*text),
            before@,
            after@,
        ),
{
    let ghost start = page(out@);
    match text {
        Some(text) => {
            out.push(Line::of(concat3(before, text.as_str(), after), Element::Muted));
        },
        None => {},
    }
    assert(page(out@) =~= start + note_lines(crate::patch::opt_view(*text), before@, after@));
}

/// One check: its mark, name and standing, and what it says of itself.
pub open spec fn check_block(check: CheckRun, selected: bool) -> Seq<Seq<SpanView>> {
    seq![
        line_of(
            " "@ + check_mark(check.state) + " "@ + check.name@ + " — "@ + check_words(check),
            if selected {
                Element::Selection
            } else if check.state == CheckState::Failure {
                Element::StatusError
            } else {
                Element::Fg
            },
        ),
    ] + note_lines(crate::patch::opt_view(check.description), "     "@, ""@) + note_lines(
        crate::patch::opt_view(check.conclusion),
        "     conclusion: "@,
        ""@,
    ) + note_lines(
        crate::patch::opt_view(check.url),
        "     "@,
        " · Enter opens this run in the browser."@,
    )
}

/// The first `n` checks.
pub open spec fn check_blocks(checks: Seq<CheckRun>, cursor: usize, n: nat) -> Seq<Seq<SpanView>>
    decreases n,
{
    if n == 0 {
        Seq::empty()
    } else {
        check_blocks(checks, cursor, (n - 1) as nat) + check_block(checks[n - 1], n - 1 == cursor)
    }
}

/// The checks: every record, or that there are none, and that they may be old where they may.
pub open spec fn checks_lines(app: &App, offline: bool, cursor: usize) -> Seq<Seq<SpanView>> {
    match app.detail {
        None => Seq::empty(),
        Some(detail) => (if offline {
            seq![
                line_of(
                    " Cached check data; refresh was unavailable. Press R to retry."@,
                    Element::StatusError,
                ),
            ]
        } else {
            Seq::empty()
        }) + (if detail.checks@.len() == 0 {
            seq![
                line_of(
                    " No checks are configured or GitHub did not report any."@,
                    Element::Muted,
                ),
            ]
        } else {
            check_blocks(detail.checks@, cursor, detail.checks@.len())
        }),
    }
}

fn add_check(out: &mut Vec<Line>, check: &CheckRun, selected: bool)
    ensures
        page(final(out)@) == page(old(out)@) + check_block(*check, selected),
{
    let ghost before = page(out@);
    let mut text = concat4(" ", mark_of(check.state), " ", check.name.as_str());
    text.append(" — ");
    text.append(words_of_check(check));
    let element = if selected {
        Element::Selection
    } else if check.state == CheckState::Failure {
        Element::StatusError
    } else {
        Element::Fg
    };
    out.push(Line::of(text, element));
    add_note(out, &check.description, "     ", "");
    add_note(out, &check.conclusion, "     conclusion: ", "");
    add_note(out, &check.url, "     ", " · Enter opens this run in the browser.");
    assert(page(out@) =~= before + check_block(*check, selected));
}

/// The checks of the pull request.
#[must_use]
pub fn checks(app: &App, offline: bool, cursor: usize) -> (r: Vec<Line>)
    ensures
        page(r@) == checks_lines(app, offline, cursor),
{
    let mut out: Vec<Line> = Vec::new();
    match &app.detail {
        None => {},
        Some(detail) => {
            if offline {
                out.push(
                    Line::literal(
                        " Cached check data; refresh was unavailable. Press R to retry.",
                        Element::StatusError,
                    ),
                );
            }
            if detail.checks.len() == 0 {
                out.push(
                    Line::literal(
                        " No checks are configured or GitHub did not report any.",
                        Element::Muted,
                    ),
                );
                assert(page(out@) =~= checks_lines(app, offline, cursor));
            } else {
                let ghost first = page(out@);
                assert(first + check_blocks(detail.checks@, cursor, 0) =~= first);
                let mut i: usize = 0;
                while i < detail.checks.len()
                    invariant
                        i <= detail.checks@.len(),
                        page(out@) == first + check_blocks(detail.checks@, cursor, i as nat),
                    decreases detail.checks@.len() - i,
                {
                    add_check(&mut out, &detail.checks[i], i == cursor);
                    i += 1;
                    assert(page(out@) =~= first + check_blocks(detail.checks@, cursor, i as nat));
                }
                assert(page(out@) =~= checks_lines(app, offline, cursor));
            }
        },
    }
    out
}

} // verus!
