//! The analysis popup, the context inspector and the raw answer.
//!
//! Three views of one thing: what the model said, what was sent to it, and, where it answered
//! something unusable, the text itself.

use vstd::prelude::*;

use crate::app::App;
use crate::components::popups::{box_height, on_grid, Popup};
use crate::layout::{centered, centered_in, Rect};
use crate::paint::{line_of, page, plain, span, Element, Line, SpanView};
use crate::panel::{AnalysisState, PanelRisk, Segment, Severity};
use crate::plan::{GroupView, Plan};
use crate::scroll::height_for;
use crate::strings::{
    concat2, concat3, concat4, concat5, decimal, join, joined, lines, lines_of, number, trim_end,
    trimmed_end, views, words, words_of,
};
use crate::text::{
    align_left, align_right, aligned_left, aligned_right, fill, filled, truncate, truncated, Measure,
};

verus! {

broadcast use {crate::paint::group_page, crate::strings::lemma_views_push};

/// A paragraph wrapped at a number of bytes; an empty one is one empty line.
pub open spec fn paragraph(text: Seq<char>, width: nat) -> Seq<Seq<char>> {
    let rows = filled(Seq::empty(), words_of(text), width, Measure::Bytes);
    if rows.len() == 0 { seq![Seq::empty()] } else { rows }
}

/// Wraps a paragraph to a width, because a popup is not a text editor.
#[must_use]
pub fn wrap_paragraph(text: &str, width: usize) -> (r: Vec<String>)
    ensures
        views(r@) == paragraph(text@, width as nat),
{
    let mut rows = fill(&words(text), width, Measure::Bytes);
    assert(views(rows@).len() == rows@.len());
    if rows.len() == 0 {
        rows.push(String::new());
        assert(views(rows@) =~= seq![Seq::empty()]);
    }
    rows
}

/// The first `n` of some texts as lines: the first after one prefix, the others after another.
pub open spec fn prefixed(
    first: Seq<char>,
    rest: Seq<char>,
    texts: Seq<Seq<char>>,
    element: Element,
    n: nat,
) -> Seq<Seq<SpanView>> {
    Seq::new(n, |i: int| line_of((if i == 0 { first } else { rest }) + texts[i], element))
}

/// A paragraph as lines, wrapped and prefixed.
pub open spec fn block(
    first: Seq<char>,
    rest: Seq<char>,
    text: Seq<char>,
    width: nat,
    element: Element,
) -> Seq<Seq<SpanView>> {
    let rows = paragraph(text, width);
    prefixed(first, rest, rows, element, rows.len())
}

fn add_block(out: &mut Vec<Line>, first: &str, rest: &str, text: &str, width: usize, element: Element)
    ensures
        page(final(out)@) == page(old(out)@) + block(first@, rest@, text@, width as nat, element),
{
    let rows = wrap_paragraph(text, width);
    let ghost all = views(rows@);
    let ghost before = page(out@);
    assert(all.len() == rows@.len());
    assert(before + prefixed(first@, rest@, all, element, 0) =~= before);
    let mut i: usize = 0;
    while i < rows.len()
        invariant
            i <= rows@.len(),
            all == views(rows@),
            page(out@) == before + prefixed(first@, rest@, all, element, i as nat),
        decreases rows@.len() - i,
    {
        let prefix: &str = if i == 0 { first } else { rest };
        out.push(Line::of(concat2(prefix, rows[i].as_str()), element));
        i += 1;
        assert(page(out@) =~= before + prefixed(first@, rest@, all, element, i as nat));
    }
}

/// One section heading.
pub open spec fn heading_line(title: Seq<char>) -> Seq<SpanView> {
    line_of(" "@ + title, Element::Title)
}

/// A heading and its wrapped body.
pub open spec fn section_lines(title: Seq<char>, body: Seq<char>) -> Seq<Seq<SpanView>> {
    seq![heading_line(title)] + block(""@, ""@, body, 96, Element::Fg)
}

fn add_section(out: &mut Vec<Line>, title: &str, body: &str)
    ensures
        page(final(out)@) == page(old(out)@) + section_lines(title@, body@),
{
    let ghost before = page(out@);
    out.push(Line::of(concat2(" ", title), Element::Title));
    add_block(out, "", "", body, 96, Element::Fg);
    assert(page(out@) =~= before + section_lines(title@, body@));
}

/// An empty line and a heading, which every list starts with.
pub open spec fn opening(title: Seq<char>) -> Seq<Seq<SpanView>> {
    seq![Seq::empty(), heading_line(title)]
}

fn add_opening(out: &mut Vec<Line>, title: &str)
    ensures
        page(final(out)@) == page(old(out)@) + opening(title@),
{
    let ghost before = page(out@);
    out.push(Line::new());
    out.push(Line::of(concat2(" ", title), Element::Title));
    assert(page(out@) =~= before + opening(title@));
}

/// The element a severity is shown in.
pub open spec fn severity_element(severity: Severity) -> Element {
    match severity {
        Severity::High => Element::NoticeError,
        Severity::Medium => Element::NoticeWarn,
        Severity::Low => Element::Muted,
    }
}

fn severity_style(severity: Severity) -> (r: Element)
    ensures
        r == severity_element(severity),
{
    match severity {
        Severity::High => Element::NoticeError,
        Severity::Medium => Element::NoticeWarn,
        Severity::Low => Element::Muted,
    }
}

/// A risk in words: its title and files, or that its files are not in the change.
pub open spec fn risk_words(risk: PanelRisk) -> Seq<char> {
    if !risk.supported {
        risk.title@ + " (unsupported: cited files are not in this change)"@
    } else if risk.files@.len() == 0 {
        risk.title@
    } else {
        risk.title@ + " ["@ + joined(views(risk.files@), ", "@) + "]"@
    }
}

/// One risk, as lines.
pub open spec fn risk_block(risk: PanelRisk) -> Seq<Seq<SpanView>> {
    seq![
        seq![
            span(
                "  "@ + aligned_left(risk.severity.name(), 6) + " "@,
                severity_element(risk.severity),
            ),
            span(risk_words(risk), if risk.supported { Element::Fg } else { Element::NoticeWarn }),
        ],
    ] + block("          "@, "          "@, risk.why@, 88, Element::Muted)
}

/// The first `n` risks.
pub open spec fn risk_blocks(risks: Seq<PanelRisk>, n: nat) -> Seq<Seq<SpanView>>
    decreases n,
{
    if n == 0 {
        Seq::empty()
    } else {
        risk_blocks(risks, (n - 1) as nat) + risk_block(risks[n - 1])
    }
}

/// The risk areas.
pub open spec fn risk_lines(risks: Seq<PanelRisk>) -> Seq<Seq<SpanView>> {
    if risks.len() == 0 {
        Seq::empty()
    } else {
        opening("Risks"@) + risk_blocks(risks, risks.len())
    }
}

fn add_risk(out: &mut Vec<Line>, risk: &PanelRisk)
    ensures
        page(final(out)@) == page(old(out)@) + risk_block(*risk),
{
    let ghost before = page(out@);
    let text = if !risk.supported {
        concat2(risk.title.as_str(), " (unsupported: cited files are not in this change)")
    } else if risk.files.len() == 0 {
        risk.title.clone()
    } else {
        concat4(risk.title.as_str(), " [", join(&risk.files, ", ").as_str(), "]")
    };
    let mut line = Line::new();
    line.push(
        concat3("  ", align_left(risk.severity.label(), 6).as_str(), " "),
        plain(severity_style(risk.severity)),
    );
    line.push(text, plain(if risk.supported { Element::Fg } else { Element::NoticeWarn }));
    assert(line@ =~= risk_block(*risk)[0]);
    out.push(line);
    add_block(out, "          ", "          ", risk.why.as_str(), 88, Element::Muted);
    assert(page(out@) =~= before + risk_block(*risk));
}

fn add_risks(out: &mut Vec<Line>, risks: &Vec<PanelRisk>)
    ensures
        page(final(out)@) == page(old(out)@) + risk_lines(risks@),
{
    let ghost before = page(out@);
    if risks.len() == 0 {
        assert(page(out@) =~= before + risk_lines(risks@));
        return;
    }
    add_opening(out, "Risks");
    let ghost first = page(out@);
    assert(first + risk_blocks(risks@, 0) =~= first);
    let mut i: usize = 0;
    while i < risks.len()
        invariant
            i <= risks@.len(),
            page(out@) == first + risk_blocks(risks@, i as nat),
        decreases risks@.len() - i,
    {
        add_risk(out, &risks[i]);
        i += 1;
        assert(page(out@) =~= first + risk_blocks(risks@, i as nat));
    }
    assert(page(out@) =~= before + risk_lines(risks@));
}

/// The first `n` of some texts, each wrapped, marked on its first line and indented on the others.
pub open spec fn marked_blocks(mark: Seq<char>, texts: Seq<Seq<char>>, element: Element, n: nat) -> Seq<
    Seq<SpanView>,
>
    decreases n,
{
    if n == 0 {
        Seq::empty()
    } else {
        marked_blocks(mark, texts, element, (n - 1) as nat) + block(
            mark,
            "    "@,
            texts[n - 1],
            92,
            element,
        )
    }
}

/// A list of texts under a heading; nothing where there are none.
pub open spec fn marked_lines(
    title: Seq<char>,
    mark: Seq<char>,
    texts: Seq<Seq<char>>,
    element: Element,
) -> Seq<Seq<SpanView>> {
    if texts.len() == 0 {
        Seq::empty()
    } else {
        opening(title) + marked_blocks(mark, texts, element, texts.len())
    }
}

fn add_marked(out: &mut Vec<Line>, title: &str, mark: &str, texts: &Vec<String>, element: Element)
    ensures
        page(final(out)@) == page(old(out)@) + marked_lines(
            title@,
            mark@,
            views(texts@),
            element,
        ),
{
    let ghost before = page(out@);
    let ghost all = views(texts@);
    if texts.len() == 0 {
        assert(page(out@) =~= before + marked_lines(title@, mark@, all, element));
        return;
    }
    add_opening(out, title);
    let ghost first = page(out@);
    assert(first + marked_blocks(mark@, all, element, 0) =~= first);
    let mut i: usize = 0;
    while i < texts.len()
        invariant
            i <= texts@.len(),
            all == views(texts@),
            page(out@) == first + marked_blocks(mark@, all, element, i as nat),
        decreases texts@.len() - i,
    {
        assert(all[i as int] == texts@[i as int]@);
        add_block(out, mark, "    ", texts[i].as_str(), 92, element);
        i += 1;
        assert(page(out@) =~= first + marked_blocks(mark@, all, element, i as nat));
    }
    assert(page(out@) =~= before + marked_lines(title@, mark@, all, element));
}

/// The questions worth asking the author.
pub open spec fn question_lines(questions: Seq<Seq<char>>) -> Seq<Seq<SpanView>> {
    marked_lines("Worth asking"@, "  · "@, questions, Element::Fg)
}

/// What was corrected, so that a plan that lost a file is never a silent loss.
pub open spec fn warning_lines(warnings: Seq<Seq<char>>) -> Seq<Seq<SpanView>> {
    marked_lines("Corrections"@, "  ! "@, warnings, Element::NoticeWarn)
}

/// One group of the plan, with the reason it sits where it does.
pub open spec fn group_lines(group: GroupView) -> Seq<Seq<SpanView>> {
    seq![
        seq![
            span("  "@ + decimal(group.order as nat) + ". "@ + group.group, Element::Accent),
            span("  "@ + decimal(group.files.len()) + " file(s)"@, Element::Muted),
        ],
    ] + block("      "@, "      "@, group.rationale, 88, Element::Muted)
}

/// The first `n` groups of the plan.
pub open spec fn groups_lines(groups: Seq<GroupView>, n: nat) -> Seq<Seq<SpanView>>
    decreases n,
{
    if n == 0 {
        Seq::empty()
    } else {
        groups_lines(groups, (n - 1) as nat) + group_lines(groups[n - 1])
    }
}

/// The review order, with the reason each group sits where it does.
pub open spec fn plan_lines(plan: Option<Plan>) -> Seq<Seq<SpanView>> {
    match plan {
        None => Seq::empty(),
        Some(plan) => seq![
            Seq::empty(),
            seq![
                span(" Review order"@, Element::Title),
                span("  ("@ + plan.source.name() + ")"@, Element::Muted),
            ],
        ] + groups_lines(plan@.groups, plan@.groups.len()) + (if plan.overridden {
            seq![
                line_of(
                    "  your manual order is in force; `:plan reset` returns to the analysis's"@,
                    Element::Muted,
                ),
            ]
        } else {
            Seq::empty()
        }) + seq![
            line_of(
                "  J/K move the group under the tree cursor; `:plan move <file> <group>` pins a file"@,
                Element::Muted,
            ),
        ],
    }
}

fn add_plan(out: &mut Vec<Line>, plan: &Option<Plan>)
    ensures
        page(final(out)@) == page(old(out)@) + plan_lines(*plan),
{
    let ghost before = page(out@);
    match plan {
        None => {
            assert(page(out@) =~= before + plan_lines(*plan));
        },
        Some(plan) => {
            let ghost view = plan@.groups;
            assert(view.len() == plan.groups@.len());
            out.push(Line::new());
            let mut head = Line::literal(" Review order", Element::Title);
            head.push(concat3("  (", plan.source.label(), ")"), plain(Element::Muted));
            assert(head@ =~= seq![
                span(" Review order"@, Element::Title),
                span("  ("@ + plan.source.name() + ")"@, Element::Muted),
            ]);
            out.push(head);
            let ghost first = page(out@);
            assert(first + groups_lines(view, 0) =~= first);
            let mut i: usize = 0;
            while i < plan.groups.len()
                invariant
                    i <= plan.groups@.len(),
                    view == plan@.groups,
                    view.len() == plan.groups@.len(),
                    page(out@) == first + groups_lines(view, i as nat),
                decreases plan.groups@.len() - i,
            {
                let group = &plan.groups[i];
                assert(view[i as int] == group@);
                assert(group@.files.len() == group.files@.len());
                let mut line = Line::new();
                line.push(
                    concat4("  ", number(group.order as u64).as_str(), ". ", group.group.as_str()),
                    plain(Element::Accent),
                );
                line.push(
                    concat3("  ", number(group.files.len() as u64).as_str(), " file(s)"),
                    plain(Element::Muted),
                );
                assert(line@ =~= group_lines(group@)[0]);
                out.push(line);
                add_block(out, "      ", "      ", group.rationale.as_str(), 88, Element::Muted);
                i += 1;
                assert(page(out@) =~= first + groups_lines(view, i as nat));
            }
            if plan.overridden {
                out.push(
                    Line::literal(
                        "  your manual order is in force; `:plan reset` returns to the analysis's",
                        Element::Muted,
                    ),
                );
            }
            out.push(
                Line::literal(
                    "  J/K move the group under the tree cursor; `:plan move <file> <group>` pins a file",
                    Element::Muted,
                ),
            );
            assert(page(out@) =~= before + plan_lines(Some(*plan)));
        },
    }
}

/// The parsed answer: summary, intent, risks, corrections, questions and the plan.
pub open spec fn answer_lines(app: &App) -> Seq<Seq<SpanView>> {
    match app.panel.analysis {
        None => seq![
            line_of(
                " no analysis yet: <leader>a analyses this pull request"@,
                Element::Muted,
            ),
        ] + (if app.active_model is None {
            seq![
                line_of(" choose a provider and model first: <leader>m"@, Element::Muted),
            ]
        } else {
            Seq::empty()
        }),
        Some(stored) => {
            let panel = stored.analysis.panel;
            stale_lines(app.is_stale()) + section_if(panel.summary@, "Summary"@)
                + spaced_section_if(panel.intent@, "Why"@) + risk_lines(panel.risks@) + warning_lines(views(app.panel.warnings@))
                + question_lines(views(panel.questions@)) + plan_lines(app.panel.plan)
        },
    }
}

/// That an analysis is of an older commit, where it is: never presented as current.
pub open spec fn stale_lines(stale: bool) -> Seq<Seq<SpanView>> {
    if stale {
        seq![
            line_of(
                " this analysed an older commit; <leader>a re-runs it for the current one"@,
                Element::NoticeWarn,
            ),
            Seq::empty(),
        ]
    } else {
        Seq::empty()
    }
}

/// A section, where it has a body.
pub open spec fn section_if(body: Seq<char>, title: Seq<char>) -> Seq<Seq<SpanView>> {
    if body.len() == 0 { Seq::empty() } else { section_lines(title, body) }
}

/// A section after an empty line, where it has a body.
pub open spec fn spaced_section_if(body: Seq<char>, title: Seq<char>) -> Seq<Seq<SpanView>> {
    if body.len() == 0 {
        Seq::empty()
    } else {
        seq![Seq::empty()] + section_lines(title, body)
    }
}

fn add_summary_and_intent(out: &mut Vec<Line>, summary: &str, intent: &str)
    ensures
        page(final(out)@) == page(old(out)@) + section_if(summary@, "Summary"@)
            + spaced_section_if(intent@, "Why"@),
{
    let ghost before = page(out@);
    if !summary.is_empty() {
        add_section(out, "Summary", summary);
    }
    assert(page(out@) =~= before + section_if(summary@, "Summary"@));
    let ghost then = page(out@);
    if !intent.is_empty() {
        out.push(Line::new());
        add_section(out, "Why", intent);
    }
    assert(page(out@) =~= then + spaced_section_if(intent@, "Why"@));
}

/// The parsed answer.
#[must_use]
pub fn answer(app: &App) -> (r: Vec<Line>)
    ensures
        page(r@) == answer_lines(app),
{
    let mut out: Vec<Line> = Vec::new();
    match &app.panel.analysis {
        None => {
            out.push(
                Line::literal(
                    " no analysis yet: <leader>a analyses this pull request",
                    Element::Muted,
                ),
            );
            if app.active_model.is_none() {
                out.push(
                    Line::literal(" choose a provider and model first: <leader>m", Element::Muted),
                );
            }
            assert(page(out@) =~= answer_lines(app));
        },
        Some(stored) => {
            let panel = &stored.analysis.panel;
            if app.analysis_is_stale() {
                out.push(
                    Line::literal(
                        " this analysed an older commit; <leader>a re-runs it for the current one",
                        Element::NoticeWarn,
                    ),
                );
                out.push(Line::new());
            }
            assert(page(out@) =~= stale_lines(app.is_stale()));
            add_summary_and_intent(&mut out, panel.summary.as_str(), panel.intent.as_str());
            add_risks(&mut out, &panel.risks);
            add_marked(&mut out, "Corrections", "  ! ", &app.panel.warnings, Element::NoticeWarn);
            add_marked(&mut out, "Worth asking", "  · ", &panel.questions, Element::Fg);
            add_plan(&mut out, &app.panel.plan);
        },
    }
    out
}

/// A group of the plan as it streams in.
#[derive(Debug, PartialEq, Eq)]
pub struct PreviewPlan {
    /// Its name.
    pub group: String,
    /// Why it is read there.
    pub rationale: String,
}

/// A risk as it streams in, before the files it cites.
#[derive(Debug, PartialEq, Eq)]
pub struct PreviewRisk {
    /// How severe it is.
    pub severity: Severity,
    /// What it is.
    pub title: String,
    /// Why it is one.
    pub why: String,
}

/// The parts of an answer that have arrived so far, each of them empty where it has not.
#[derive(Debug, PartialEq, Eq)]
pub struct Arrived {
    /// What the change does.
    pub summary: String,
    /// Why it is made.
    pub intent: String,
    /// The risks.
    pub risks: Vec<PreviewRisk>,
    /// The questions.
    pub questions: Vec<String>,
    /// The plan.
    pub plan: Vec<PreviewPlan>,
}

impl Arrived {
    /// Whether nothing usable has arrived yet.
    pub open spec fn is_blank(&self) -> bool {
        self.summary@.len() == 0 && self.intent@.len() == 0 && self.risks@.len() == 0
            && self.questions@.len() == 0 && self.plan@.len() == 0
    }

    /// Whether nothing usable has arrived yet.
    #[must_use]
    pub fn is_empty(&self) -> (r: bool)
        ensures
            r == self.is_blank(),
    {
        self.summary.as_str().is_empty() && self.intent.as_str().is_empty() && self.risks.len() == 0
            && self.questions.len() == 0 && self.plan.len() == 0
    }
}

/// A risk as the panel shows it before the files it cites have arrived: it cites none, and is not
/// said to be without support.
pub open spec fn is_unsourced(shown: PanelRisk, risk: PreviewRisk) -> bool {
    &&& shown.severity == risk.severity
    &&& shown.title@ == risk.title@
    &&& shown.why@ == risk.why@
    &&& shown.files@.len() == 0
    &&& shown.supported
}

/// What is shown of an answer that has not arrived whole; nothing where nothing usable has.
#[must_use]
pub fn shown_preview(arrived: Arrived) -> (r: Option<Preview>)
    ensures
        match r {
            Some(preview) => {
                &&& !arrived.is_blank()
                &&& preview.summary == arrived.summary
                &&& preview.intent == arrived.intent
                &&& preview.questions == arrived.questions
                &&& preview.plan == arrived.plan
                &&& preview.risks@.len() == arrived.risks@.len()
                &&& forall|i: int|
                    0 <= i < arrived.risks@.len() ==> is_unsourced(
                        #[trigger] preview.risks@[i],
                        arrived.risks@[i],
                    )
            },
            None => arrived.is_blank(),
        },
{
    if arrived.is_empty() {
        return None;
    }
    let mut risks: Vec<PanelRisk> = Vec::new();
    let mut i: usize = 0;
    while i < arrived.risks.len()
        invariant
            i <= arrived.risks@.len(),
            risks@.len() == i,
            forall|j: int|
                0 <= j < i ==> is_unsourced(#[trigger] risks@[j], arrived.risks@[j]),
        decreases arrived.risks@.len() - i,
    {
        let risk: &PreviewRisk = &arrived.risks[i];
        risks.push(
            PanelRisk {
                severity: risk.severity,
                title: risk.title.clone(),
                why: risk.why.clone(),
                files: Vec::new(),
                supported: true,
            },
        );
        i += 1;
    }
    Some(
        Preview {
            summary: arrived.summary,
            intent: arrived.intent,
            risks,
            questions: arrived.questions,
            plan: arrived.plan,
        },
    )
}

/// What can be read of an answer that has not arrived whole.
#[derive(Debug, PartialEq, Eq)]
pub struct Preview {
    /// What the change does.
    pub summary: String,
    /// Why it is made.
    pub intent: String,
    /// The risks, which cite no files yet.
    pub risks: Vec<PanelRisk>,
    /// The questions.
    pub questions: Vec<String>,
    /// The plan.
    pub plan: Vec<PreviewPlan>,
}

/// The first `n` groups of a plan that streams in.
pub open spec fn preview_groups(plan: Seq<PreviewPlan>, n: nat) -> Seq<Seq<SpanView>>
    decreases n,
{
    if n == 0 {
        Seq::empty()
    } else {
        preview_groups(plan, (n - 1) as nat).push(
            line_of("  "@ + decimal(n) + ". "@ + plan[n - 1].group@, Element::Accent),
        ) + block("      "@, "      "@, plan[n - 1].rationale@, 88, Element::Muted)
    }
}

/// The review order as it streams in; nothing where it has not begun.
pub open spec fn preview_plan_lines(plan: Seq<PreviewPlan>) -> Seq<Seq<SpanView>> {
    if plan.len() == 0 {
        Seq::empty()
    } else {
        opening("Review order"@) + preview_groups(plan, plan.len())
    }
}

fn add_preview_plan(out: &mut Vec<Line>, plan: &Vec<PreviewPlan>)
    ensures
        page(final(out)@) == page(old(out)@) + preview_plan_lines(plan@),
{
    let ghost before = page(out@);
    if plan.len() == 0 {
        assert(page(out@) =~= before + preview_plan_lines(plan@));
        return;
    }
    add_opening(out, "Review order");
    let ghost first = page(out@);
    assert(first + preview_groups(plan@, 0) =~= first);
    let mut i: usize = 0;
    while i < plan.len()
        invariant
            i <= plan@.len(),
            page(out@) == first + preview_groups(plan@, i as nat),
        decreases plan@.len() - i,
    {
        out.push(
            Line::of(
                concat4("  ", number(i as u64 + 1).as_str(), ". ", plan[i].group.as_str()),
                Element::Accent,
            ),
        );
        add_block(out, "      ", "      ", plan[i].rationale.as_str(), 88, Element::Muted);
        i += 1;
        assert(page(out@) =~= first + preview_groups(plan@, i as nat));
    }
    assert(page(out@) =~= before + preview_plan_lines(plan@));
}

/// The last lines of a text, at most 24.
pub open spec fn tail(rows: Seq<Seq<char>>) -> Seq<Seq<char>> {
    if rows.len() > 24 { rows.subrange(rows.len() - 24, rows.len() as int) } else { rows }
}

/// The first `n` of some lines of raw text, cut to a width.
pub open spec fn raw_rows(rows: Seq<Seq<char>>, n: nat) -> Seq<Seq<SpanView>> {
    Seq::new(n, |i: int| line_of(" "@ + truncated(rows[i], 120), Element::Fg))
}

fn add_raw(out: &mut Vec<Line>, rows: &Vec<String>, from: usize, to: usize)
    requires
        from <= to <= rows@.len(),
    ensures
        page(final(out)@) == page(old(out)@) + raw_rows(
            views(rows@).subrange(from as int, to as int),
            (to - from) as nat,
        ),
{
    let ghost before = page(out@);
    let ghost part = views(rows@).subrange(from as int, to as int);
    assert(before + raw_rows(part, 0) =~= before);
    let mut i: usize = from;
    while i < to
        invariant
            from <= i <= to <= rows@.len(),
            part == views(rows@).subrange(from as int, to as int),
            page(out@) == before + raw_rows(part, (i - from) as nat),
        decreases to - i,
    {
        assert(part[i - from] == rows@[i as int]@);
        out.push(
            Line::of(concat2(" ", truncate(rows[i].as_str(), 120).as_str()), Element::Fg),
        );
        i += 1;
        assert(page(out@) =~= before + raw_rows(part, (i - from) as nat));
    }
}

/// The text of an answer of which nothing can be read yet: its end.
pub open spec fn tail_lines(text: Seq<char>, truncated: bool) -> Seq<Seq<SpanView>> {
    let rows = tail(lines_of(text));
    raw_rows(rows, rows.len()) + (if truncated {
        seq![
            line_of(
                " … the preview is bounded; the full text is used once it is complete"@,
                Element::Muted,
            ),
        ]
    } else {
        Seq::empty()
    })
}

fn add_tail(out: &mut Vec<Line>, text: &str, truncated: bool)
    ensures
        page(final(out)@) == page(old(out)@) + tail_lines(text@, truncated),
{
    let ghost before = page(out@);
    let rows = lines(text);
    assert(views(rows@).len() == rows@.len());
    let from: usize = rows.len().saturating_sub(24);
    add_raw(out, &rows, from, rows.len());
    assert(views(rows@).subrange(from as int, rows@.len() as int) =~= tail(lines_of(text@)));
    if truncated {
        out.push(
            Line::literal(
                " … the preview is bounded; the full text is used once it is complete",
                Element::Muted,
            ),
        );
    }
    assert(page(out@) =~= before + tail_lines(text@, truncated));
}

/// What can be read of an answer so far, in the shape the whole answer will have.
pub open spec fn preview_lines(preview: Preview) -> Seq<Seq<SpanView>> {
    section_if(preview.summary@, "Summary"@) + spaced_section_if(preview.intent@, "Why"@)
        + risk_lines(preview.risks@) + question_lines(views(preview.questions@))
        + preview_plan_lines(preview.plan@) + seq![
        Seq::empty(),
        line_of(
            " … the answer is still streaming; what is shown is what has arrived so far"@,
            Element::Muted,
        ),
    ]
}

fn add_preview(out: &mut Vec<Line>, preview: &Preview)
    ensures
        page(final(out)@) == page(old(out)@) + preview_lines(*preview),
{
    let ghost before = page(out@);
    add_summary_and_intent(out, preview.summary.as_str(), preview.intent.as_str());
    add_risks(out, &preview.risks);
    add_marked(out, "Worth asking", "  · ", &preview.questions, Element::Fg);
    add_preview_plan(out, &preview.plan);
    out.push(Line::new());
    out.push(
        Line::literal(
            " … the answer is still streaming; what is shown is what has arrived so far",
            Element::Muted,
        ),
    );
    assert(page(out@) =~= before + preview_lines(*preview));
}

/// What a run in flight shows: the stage, and what has arrived.
pub open spec fn running_lines(app: &App, preview: Option<Preview>) -> Seq<Seq<SpanView>> {
    let head = seq![
        seq![
            span(" "@, Element::Fg),
            span(app.panel.state.words(), Element::Accent),
            span(
                if app.panel.state.running() { "  (Esc cancels)"@ } else { ""@ },
                Element::Muted,
            ),
        ],
        Seq::empty(),
    ];
    head + if app.panel.stream@.0.len() == 0 {
        seq![line_of(" waiting for the first token…"@, Element::Muted)]
    } else {
        match preview {
            None => tail_lines(app.panel.stream@.0, app.panel.stream@.1),
            Some(preview) => preview_lines(preview),
        }
    }
}

/// What a run in flight shows, given what can be read of the text so far, if anything.
#[must_use]
pub fn running(app: &App, preview: &Option<Preview>) -> (r: Vec<Line>)
    ensures
        page(r@) == running_lines(app, *preview),
{
    let mut out: Vec<Line> = Vec::new();
    let mut first = Line::literal(" ", Element::Fg);
    first.push(app.panel.state.label(), plain(Element::Accent));
    first.add_text(
        if app.panel.state.is_running() { "  (Esc cancels)" } else { "" },
        Element::Muted,
    );
    assert(first@ =~= running_lines(app, *preview)[0]);
    out.push(first);
    out.push(Line::new());
    let ghost head = page(out@);
    assert(head =~= seq![running_lines(app, *preview)[0], Seq::empty()]);
    let text = app.analysis_stream();
    if text.is_empty() {
        out.push(Line::literal(" waiting for the first token…", Element::Muted));
    } else {
        match preview {
            None => {
                add_tail(&mut out, text, app.analysis_stream_truncated());
            },
            Some(preview) => {
                add_preview(&mut out, preview);
            },
        }
    }
    assert(page(out@) =~= running_lines(app, *preview));
    out
}

/// One piece of a context, as the question before a send lists it.
pub open spec fn piece_row(segment: Segment) -> Seq<SpanView> {
    seq![
        span(
            if segment.included { "  ✓ "@ } else { "  ✗ "@ },
            if segment.included { Element::Fg } else { Element::Muted },
        ),
        span(truncated(segment.label@, 60), Element::Fg),
    ]
}

/// The first `n` pieces of a context.
pub open spec fn piece_rows(segments: Seq<Segment>, n: nat) -> Seq<Seq<SpanView>> {
    Seq::new(n, |i: int| piece_row(segments[i]))
}

/// What is asked before the first send for a repository.
pub open spec fn confirming_lines(app: &App) -> Seq<Seq<SpanView>> {
    seq![line_of(" Nothing has been sent yet."@, Element::NoticeWarn), Seq::empty()] + (
    match app.panel.bundle {
        Some(bundle) => seq![
            line_of(
                " This would send "@ + bundle.summary@ + " to "@ + app.model_words() + "."@,
                Element::Fg,
            ),
        ] + piece_rows(
            bundle.segments@,
            if bundle.segments@.len() < 12 { bundle.segments@.len() } else { 12 },
        ) + seq![
            Seq::empty(),
            line_of(" `:context` lists everything, included and not."@, Element::Muted),
        ],
        None => seq![line_of(" The context is being gathered…"@, Element::Muted)],
    }) + seq![
        Seq::empty(),
        line_of(
            " <leader>a again sends it · Esc closes this and sends nothing"@,
            Element::Accent,
        ),
    ]
}

fn add_pieces(out: &mut Vec<Line>, segments: &Vec<Segment>)
    ensures
        page(final(out)@) == page(old(out)@) + piece_rows(
            segments@,
            if segments@.len() < 12 { segments@.len() } else { 12 },
        ),
{
    let ghost before = page(out@);
    let count: usize = if segments.len() < 12 { segments.len() } else { 12 };
    assert(before + piece_rows(segments@, 0) =~= before);
    let mut i: usize = 0;
    while i < count
        invariant
            i <= count <= segments@.len(),
            page(out@) == before + piece_rows(segments@, i as nat),
        decreases count - i,
    {
        let segment = &segments[i];
        let mut line = Line::new();
        line.add_text(
            if segment.included { "  ✓ " } else { "  ✗ " },
            if segment.included { Element::Fg } else { Element::Muted },
        );
        line.push(truncate(segment.label.as_str(), 60), plain(Element::Fg));
        assert(line@ =~= piece_row(*segment));
        out.push(line);
        i += 1;
        assert(page(out@) =~= before + piece_rows(segments@, i as nat));
    }
}

/// What is asked before the first send for a repository: nothing is spent without being asked.
#[must_use]
pub fn confirming(app: &App) -> (r: Vec<Line>)
    ensures
        page(r@) == confirming_lines(app),
{
    let mut out: Vec<Line> = Vec::new();
    out.push(Line::literal(" Nothing has been sent yet.", Element::NoticeWarn));
    out.push(Line::new());
    match &app.panel.bundle {
        Some(bundle) => {
            out.push(
                Line::of(
                    concat5(
                        " This would send ",
                        bundle.summary.as_str(),
                        " to ",
                        app.model_label().as_str(),
                        ".",
                    ),
                    Element::Fg,
                ),
            );
            add_pieces(&mut out, &bundle.segments);
            out.push(Line::new());
            out.push(
                Line::literal(" `:context` lists everything, included and not.", Element::Muted),
            );
        },
        None => {
            out.push(Line::literal(" The context is being gathered…", Element::Muted));
        },
    }
    out.push(Line::new());
    out.push(
        Line::literal(
            " <leader>a again sends it · Esc closes this and sends nothing",
            Element::Accent,
        ),
    );
    assert(page(out@) =~= confirming_lines(app));
    out
}

/// An answer that could not be used.
pub open spec fn unusable_lines(reason: Seq<char>) -> Seq<Seq<SpanView>> {
    seq![
        line_of(" the answer could not be used: "@ + reason, Element::NoticeWarn),
        Seq::empty(),
        line_of(" `:analyze raw` shows what the model actually wrote."@, Element::Muted),
    ]
}

fn unusable(reason: &str) -> (r: Vec<Line>)
    ensures
        page(r@) == unusable_lines(reason@),
{
    let mut out: Vec<Line> = Vec::new();
    out.push(Line::of(concat2(" the answer could not be used: ", reason), Element::NoticeWarn));
    out.push(Line::new());
    out.push(
        Line::literal(" `:analyze raw` shows what the model actually wrote.", Element::Muted),
    );
    assert(page(out@) =~= unusable_lines(reason@));
    out
}

/// A run that the provider did not answer.
pub open spec fn failed_lines(reason: Seq<char>) -> Seq<Seq<SpanView>> {
    seq![
        line_of(" the provider did not answer"@, Element::NoticeError),
        Seq::empty(),
        line_of(" "@ + reason, Element::Fg),
        Seq::empty(),
        line_of(
            " <leader>a tries again · `:model` shows what is configured · `:doctor` checks\nthe key and the network"@,
            Element::Muted,
        ),
    ]
}

/// What is said of a run that the provider did not answer.
#[must_use]
pub fn failed(reason: &str) -> (r: Vec<Line>)
    ensures
        page(r@) == failed_lines(reason@),
{
    let mut out: Vec<Line> = Vec::new();
    out.push(Line::literal(" the provider did not answer", Element::NoticeError));
    out.push(Line::new());
    out.push(Line::of(concat2(" ", reason), Element::Fg));
    out.push(Line::new());
    out.push(
        Line::literal(
            " <leader>a tries again · `:model` shows what is configured · `:doctor` checks\nthe key and the network",
            Element::Muted,
        ),
    );
    assert(page(out@) =~= failed_lines(reason@));
    out
}

/// A run that was stopped.
pub open spec fn cancelled_lines() -> Seq<Seq<SpanView>> {
    seq![
        line_of(" the analysis was cancelled"@, Element::Muted),
        line_of(" the tree keeps the order it had; <leader>a starts again"@, Element::Muted),
    ]
}

fn cancelled() -> (r: Vec<Line>)
    ensures
        page(r@) == cancelled_lines(),
{
    let mut out: Vec<Line> = Vec::new();
    out.push(Line::literal(" the analysis was cancelled", Element::Muted));
    out.push(
        Line::literal(" the tree keeps the order it had; <leader>a starts again", Element::Muted),
    );
    assert(page(out@) =~= cancelled_lines());
    out
}

/// The body of the panel: the answer, or the progress towards it.
pub open spec fn panel_lines(app: &App, preview: Option<Preview>) -> Seq<Seq<SpanView>> {
    match app.panel.state {
        AnalysisState::Gathering | AnalysisState::Running { .. } | AnalysisState::Streaming {
            ..
        } => running_lines(app, preview),
        AnalysisState::Confirming => confirming_lines(app),
        AnalysisState::Unusable { reason } => unusable_lines(reason@),
        AnalysisState::Cancelled => cancelled_lines(),
        AnalysisState::Ready | AnalysisState::Idle => answer_lines(app),
    }
}

/// The body of the panel.
#[must_use]
pub fn panel_body(app: &App, preview: &Option<Preview>) -> (r: Vec<Line>)
    ensures
        page(r@) == panel_lines(app, *preview),
{
    match &app.panel.state {
        AnalysisState::Gathering | AnalysisState::Running { .. } | AnalysisState::Streaming {
            ..
        } => running(app, preview),
        AnalysisState::Confirming => confirming(app),
        AnalysisState::Unusable { reason } => unusable(reason.as_str()),
        AnalysisState::Cancelled => cancelled(),
        AnalysisState::Ready | AnalysisState::Idle => answer(app),
    }
}

/// The title of the panel, which says where the analysis came from.
pub open spec fn panel_words(app: &App, origin: Seq<char>) -> Seq<char> {
    if app.panel.state is Ready || app.panel.state is Idle {
        match app.provenance(origin) {
            Some(provenance) => " analysis · "@ + provenance + " "@,
            None => " analysis "@,
        }
    } else {
        " analysis · "@ + app.panel.state.words() + " "@
    }
}

/// The title of the panel.
#[must_use]
pub fn panel_title(app: &App, origin: &str) -> (r: String)
    ensures
        r@ == panel_words(app, origin@),
{
    match &app.panel.state {
        AnalysisState::Ready | AnalysisState::Idle => match app.analysis_provenance(origin) {
            Some(provenance) => concat3(" analysis · ", provenance.as_str(), " "),
            None => " analysis ".to_owned(),
        },
        state => concat3(" analysis · ", state.label().as_str(), " "),
    }
}

/// Everything the panel says: the keys first, so that how to leave is never cut off.
pub open spec fn panel_page(app: &App, preview: Option<Preview>) -> Seq<Seq<SpanView>> {
    let repaired = match app.panel.analysis {
        Some(stored) => stored.repaired,
        None => false,
    };
    seq![
        line_of(
            " a reopens this · o switches order · j/k scroll · `:plan` and `:context` show the rest · Esc closes"@,
            Element::Muted,
        ),
        Seq::empty(),
    ] + (if repaired {
        seq![
            line_of(
                " This analysis needed a second attempt: the first answer could not be used."@,
                Element::NoticeWarn,
            ),
            Seq::empty(),
        ]
    } else {
        Seq::empty()
    }) + panel_lines(app, preview)
}

fn panel_contents(app: &App, preview: &Option<Preview>) -> (r: Vec<Line>)
    ensures
        page(r@) == panel_page(app, *preview),
{
    let mut out: Vec<Line> = Vec::new();
    out.push(
        Line::literal(
            " a reopens this · o switches order · j/k scroll · `:plan` and `:context` show the rest · Esc closes",
            Element::Muted,
        ),
    );
    out.push(Line::new());
    if app.analysis_repaired() {
        out.push(
            Line::literal(
                " This analysis needed a second attempt: the first answer could not be used.",
                Element::NoticeWarn,
            ),
        );
        out.push(Line::new());
    }
    let mut body = panel_body(app, preview);
    out.append(&mut body);
    assert(page(out@) =~= panel_page(app, *preview));
    out
}

/// A box over the whole width but two cells at each side.
pub open spec fn wide_box(area: Rect, lines: nat) -> Rect {
    centered_in(
        area,
        if area.width < 4 { 0 } else { (area.width - 4) as u16 },
        box_height(lines, area),
    )
}

fn place_wide(area: Rect, count: usize) -> (r: Rect)
    requires
        on_grid(area),
    ensures
        r == wide_box(area, count as nat),
{
    let rows: u16 = height_for(count).saturating_add(2);
    let height: u16 = if rows < area.height { rows } else { area.height };
    centered(area, area.width.saturating_sub(4), height)
}

/// How many lines a box shows: all rows but its border.
pub open spec fn inner_rows(area: Rect) -> nat {
    if area.height < 2 { 0 } else { (area.height - 2) as nat }
}

/// How far the panel is scrolled, no further than to its end.
pub open spec fn panel_offset(scroll: nat, len: nat, room: nat) -> nat {
    let last = if len > room { (len - room) as nat } else { 0 };
    if scroll < last { scroll } else { last }
}

/// The title of the panel, with how far down it goes where it does not fit.
pub open spec fn panel_heading(title: Seq<char>, scroll: nat, len: nat, room: nat) -> Seq<char> {
    if len > room {
        trimmed_end(title) + " ["@ + decimal((panel_offset(scroll, len, room) + room) as nat)
            + "/"@ + decimal(len) + "]"@
    } else {
        title
    }
}

/// The analysis panel: the answer, or the progress towards it.
#[must_use]
pub fn panel(area: Rect, app: &App, origin: &str, preview: &Option<Preview>) -> (r: Popup)
    requires
        on_grid(area),
    ensures
        page(r.lines@) == panel_page(app, *preview),
        r.area == wide_box(area, r.lines@.len()),
        r.offset == panel_offset(app.panel.scroll as nat, r.lines@.len(), inner_rows(r.area)),
        r.title@ == panel_heading(
            panel_words(app, origin@),
            app.panel.scroll as nat,
            r.lines@.len(),
            inner_rows(r.area),
        ),
{
    let contents = panel_contents(app, preview);
    let title = panel_title(app, origin);
    let place = place_wide(area, contents.len());
    let room: usize = place.height.saturating_sub(2) as usize;
    let last: usize = contents.len().saturating_sub(room);
    let offset: usize = if app.panel.scroll < last { app.panel.scroll } else { last };
    let title = if contents.len() > room {
        let mut text = trim_end(title.as_str());
        text.append(" [");
        text.append(number((offset + room) as u64).as_str());
        text.append("/");
        text.append(number(contents.len() as u64).as_str());
        text.append("]");
        text
    } else {
        title
    };
    Popup { area: place, title, lines: contents, offset }
}

/// The mark and element of a piece of the context.
pub open spec fn segment_mark(segment: Segment) -> (Seq<char>, Element) {
    if !segment.included {
        ("✗"@, Element::Muted)
    } else if segment.truncated {
        ("~"@, Element::NoticeWarn)
    } else {
        ("✓"@, Element::Fg)
    }
}

/// One piece of the context, as the inspector lists it.
pub open spec fn segment_lines(segment: Segment) -> Seq<Seq<SpanView>> {
    let (mark, element) = segment_mark(segment);
    seq![
        seq![
            span(" "@ + mark + " "@, element),
            span(aligned_left(truncated(segment.label@, 30), 30), Element::Fg),
            span(
                if segment.included {
                    aligned_right(decimal(segment.tokens as nat), 8) + " tok"@
                } else {
                    "  not sent"@
                },
                Element::Muted,
            ),
        ],
    ] + match segment.detail {
        Some(detail) => seq![line_of("     "@ + truncated(detail@, 100), Element::Muted)],
        None => Seq::empty(),
    }
}

/// The first `n` pieces of the context.
pub open spec fn segments_lines(segments: Seq<Segment>, n: nat) -> Seq<Seq<SpanView>>
    decreases n,
{
    if n == 0 {
        Seq::empty()
    } else {
        segments_lines(segments, (n - 1) as nat) + segment_lines(segments[n - 1])
    }
}

/// What the context inspector says.
pub open spec fn context_lines(app: &App) -> Seq<Seq<SpanView>> {
    (match app.panel.bundle {
        Some(bundle) => seq![
            line_of(" "@ + bundle.summary@, Element::Accent),
            Seq::empty(),
            line_of(
                " LLM input uses the canonical review diff; visible whitespace and context-line toggles do not change this inventory."@,
                Element::Muted,
            ),
            Seq::empty(),
        ] + segments_lines(bundle.segments@, bundle.segments@.len()) + seq![
            Seq::empty(),
            line_of(
                " ~12k tok means an estimate at four bytes per token, not a tokenizer."@,
                Element::Muted,
            ),
        ],
        None => seq![line_of(" nothing has been gathered yet"@, Element::Muted)],
    }) + seq![
        Seq::empty(),
        line_of(" `:context` gathers if needed · Esc closes"@, Element::Muted),
    ]
}

fn add_segment(out: &mut Vec<Line>, segment: &Segment)
    ensures
        page(final(out)@) == page(old(out)@) + segment_lines(*segment),
{
    let ghost before = page(out@);
    let mark: &str = if !segment.included { "✗" } else if segment.truncated { "~" } else { "✓" };
    let element = if !segment.included {
        Element::Muted
    } else if segment.truncated {
        Element::NoticeWarn
    } else {
        Element::Fg
    };
    let size = if segment.included {
        concat2(align_right(number(segment.tokens).as_str(), 8).as_str(), " tok")
    } else {
        "  not sent".to_owned()
    };
    let mut line = Line::new();
    line.push(concat3(" ", mark, " "), plain(element));
    line.push(
        align_left(truncate(segment.label.as_str(), 30).as_str(), 30),
        plain(Element::Fg),
    );
    line.push(size, plain(Element::Muted));
    assert(line@ =~= segment_lines(*segment)[0]);
    out.push(line);
    match &segment.detail {
        Some(detail) => {
            out.push(
                Line::of(
                    concat2("     ", truncate(detail.as_str(), 100).as_str()),
                    Element::Muted,
                ),
            );
        },
        None => {},
    }
    assert(page(out@) =~= before + segment_lines(*segment));
}

fn add_segments(out: &mut Vec<Line>, segments: &Vec<Segment>)
    ensures
        page(final(out)@) == page(old(out)@) + segments_lines(segments@, segments@.len()),
{
    let ghost before = page(out@);
    assert(before + segments_lines(segments@, 0) =~= before);
    let mut i: usize = 0;
    while i < segments.len()
        invariant
            i <= segments@.len(),
            page(out@) == before + segments_lines(segments@, i as nat),
        decreases segments@.len() - i,
    {
        add_segment(out, &segments[i]);
        i += 1;
        assert(page(out@) =~= before + segments_lines(segments@, i as nat));
    }
}

/// The context inspector: what would be sent, and what would not.
#[must_use]
pub fn context(area: Rect, app: &App) -> (r: Popup)
    requires
        on_grid(area),
    ensures
        page(r.lines@) == context_lines(app),
        r.area == wide_box(area, r.lines@.len()),
        r.title@ == " context "@,
        r.offset == 0,
{
    let mut out: Vec<Line> = Vec::new();
    match &app.panel.bundle {
        Some(bundle) => {
            out.push(Line::of(concat2(" ", bundle.summary.as_str()), Element::Accent));
            out.push(Line::new());
            out.push(
                Line::literal(
                    " LLM input uses the canonical review diff; visible whitespace and context-line toggles do not change this inventory.",
                    Element::Muted,
                ),
            );
            out.push(Line::new());
            add_segments(&mut out, &bundle.segments);
            out.push(Line::new());
            out.push(
                Line::literal(
                    " ~12k tok means an estimate at four bytes per token, not a tokenizer.",
                    Element::Muted,
                ),
            );
        },
        None => {
            out.push(Line::literal(" nothing has been gathered yet", Element::Muted));
        },
    }
    out.push(Line::new());
    out.push(Line::literal(" `:context` gathers if needed · Esc closes", Element::Muted));
    assert(page(out@) =~= context_lines(app));
    Popup {
        area: place_wide(area, out.len()),
        title: " context ".to_owned(),
        lines: out,
        offset: 0,
    }
}

/// What is shown of an answer that could not be used: why, and at most 400 of its lines.
pub open spec fn raw_lines(raw: Option<(String, String)>) -> Seq<Seq<SpanView>> {
    (match raw {
        Some((reason, text)) => {
            let all = lines_of(text@);
            let rows = if all.len() > 400 { all.subrange(0, 400) } else { all };
            seq![
                line_of(" why it could not be used: "@ + reason@, Element::NoticeWarn),
                Seq::empty(),
            ] + raw_rows(rows, rows.len())
        },
        None => seq![line_of(" the last answer was usable"@, Element::Muted)],
    }) + seq![
        Seq::empty(),
        line_of(" Esc closes · <leader>a asks again"@, Element::Muted),
    ]
}

/// The model's raw text when it could not be used.
#[must_use]
pub fn raw(area: Rect, app: &App) -> (r: Popup)
    requires
        on_grid(area),
    ensures
        page(r.lines@) == raw_lines(app.panel.raw),
        r.area == wide_box(area, r.lines@.len()),
        r.title@ == " the model's answer "@,
        r.offset == 0,
{
    let mut out: Vec<Line> = Vec::new();
    match &app.panel.raw {
        Some((reason, text)) => {
            out.push(
                Line::of(concat2(" why it could not be used: ", reason.as_str()), Element::NoticeWarn),
            );
            out.push(Line::new());
            let rows = lines(text.as_str());
            assert(views(rows@).len() == rows@.len());
            let count: usize = if rows.len() > 400 { 400 } else { rows.len() };
            add_raw(&mut out, &rows, 0, count);
            proof {
                let all = lines_of(text@);
                let shown = if all.len() > 400 { all.subrange(0, 400) } else { all };
                assert(views(rows@).subrange(0, count as int) =~= shown);
            }
        },
        None => {
            out.push(Line::literal(" the last answer was usable", Element::Muted));
        },
    }
    out.push(Line::new());
    out.push(Line::literal(" Esc closes · <leader>a asks again", Element::Muted));
    assert(page(out@) =~= raw_lines(app.panel.raw));
    Popup {
        area: place_wide(area, out.len()),
        title: " the model's answer ".to_owned(),
        lines: out,
        offset: 0,
    }
}

} // verus!
