//! What the analysis says of the file on screen: what changed, why, and what to verify.

use vstd::prelude::*;

use crate::draft::Side;
use crate::paint::{line_of, page, plain, span, Element, Line, SpanView};
use crate::strings::{
    concat2, concat3, concat4, decimal, join, joined, number, repeat, repeated, views,
};
use crate::text::{columns, truncate, truncated, width};

verus! {

broadcast use {crate::paint::group_page, crate::strings::lemma_views_push};

/// A place that supports what is said.
#[derive(Debug, PartialEq, Eq)]
pub struct Evidence {
    /// The file.
    pub path: String,
    /// Which side its line counts from, where it has one.
    pub side: Option<Side>,
    /// The line, where it has one.
    pub line: Option<u32>,
    /// What is there.
    pub label: String,
}

/// What the analysis says of one file.
#[derive(Debug, PartialEq, Eq)]
pub struct FileGuidance {
    /// The file.
    pub path: String,
    /// What changed in it; empty where nothing was said.
    pub what_changed: String,
    /// Why, as far as it could be inferred.
    pub inferred_why: String,
    /// What to check.
    pub verify: Vec<String>,
    /// Whether only a part of the file was looked at.
    pub truncated: bool,
    /// The places that support it.
    pub evidence: Vec<Evidence>,
}

/// A text, or another where it is empty.
pub open spec fn or_else(text: Seq<char>, fallback: Seq<char>) -> Seq<char> {
    if text.len() == 0 { fallback } else { text }
}

fn present_or<'a>(value: &'a str, fallback: &'a str) -> (r: &'a str)
    ensures
        r@ == or_else(value@, fallback@),
{
    if value.is_empty() { fallback } else { value }
}

/// What changed, or that nothing was said of it.
pub open spec fn what(guidance: FileGuidance) -> Seq<char> {
    or_else(
        guidance.what_changed@,
        "not supplied for this file; open the full analysis for coverage details"@,
    )
}

/// Why, or that it could not be inferred.
pub open spec fn why(guidance: FileGuidance) -> Seq<char> {
    or_else(guidance.inferred_why@, "not inferred from the available context"@)
}

fn what_changed(guidance: &FileGuidance) -> (r: &str)
    ensures
        r@ == what(*guidance),
{
    present_or(
        guidance.what_changed.as_str(),
        "not supplied for this file; open the full analysis for coverage details",
    )
}

fn inferred_why(guidance: &FileGuidance) -> (r: &str)
    ensures
        r@ == why(*guidance),
{
    present_or(guidance.inferred_why.as_str(), "not inferred from the available context")
}

/// One line of the compact guidance.
pub open spec fn compact_line(label: Seq<char>, body: Seq<char>, room: nat, reserved: nat) -> Seq<
    SpanView,
> {
    seq![
        span(label, Element::Title),
        span(
            truncated(body, if room < reserved { 0 } else { (room - reserved) as nat }),
            Element::Fg,
        ),
    ]
}

/// The guidance in three lines.
pub open spec fn compact_lines(guidance: FileGuidance, room: nat) -> Seq<Seq<SpanView>> {
    let verify = if guidance.verify@.len() == 0 {
        "no concrete check supplied"@
    } else {
        joined(views(guidance.verify@), " · "@)
    };
    seq![
        compact_line(" What "@, what(guidance), room, 7),
        compact_line(" Why · inferred "@, why(guidance), room, 17),
        compact_line(" Verify "@, verify, room, 9),
    ]
}

fn short_line(label: &str, body: &str, room: usize, reserved: usize) -> (r: Line)
    ensures
        r@ == compact_line(label@, body@, room as nat, reserved as nat),
{
    let mut line = Line::literal(label, Element::Title);
    line.push(truncate(body, room.saturating_sub(reserved)), plain(Element::Fg));
    assert(line@ =~= compact_line(label@, body@, room as nat, reserved as nat));
    line
}

/// The guidance in three lines.
#[must_use]
pub fn compact(guidance: &FileGuidance, room: usize) -> (r: Vec<Line>)
    ensures
        page(r@) == compact_lines(*guidance, room as nat),
{
    let verify = if guidance.verify.len() == 0 {
        "no concrete check supplied".to_owned()
    } else {
        join(&guidance.verify, " · ")
    };
    let mut out: Vec<Line> = Vec::new();
    out.push(short_line(" What ", what_changed(guidance), room, 7));
    out.push(short_line(" Why · inferred ", inferred_why(guidance), room, 17));
    out.push(short_line(" Verify ", verify.as_str(), room, 9));
    assert(page(out@) =~= compact_lines(*guidance, room as nat));
    out
}

/// A text under a label.
#[derive(Debug, PartialEq, Eq)]
pub struct Entry {
    /// The label.
    pub label: String,
    /// The text.
    pub body: String,
}

/// What an [`Entry`] says.
pub struct EntryView {
    pub label: Seq<char>,
    pub body: Seq<char>,
}

impl View for Entry {
    type V = EntryView;

    open spec fn view(&self) -> EntryView {
        EntryView { label: self.label@, body: self.body@ }
    }
}

/// The entries' contents, one by one.
pub open spec fn entry_views(entries: Seq<Entry>) -> Seq<EntryView> {
    entries.map_values(|e: Entry| e@)
}

/// The first `n` things to check, numbered.
pub open spec fn check_entries(verify: Seq<Seq<char>>, n: nat) -> Seq<EntryView> {
    Seq::new(
        n,
        |i: int| EntryView { label: "Verify "@ + decimal((i + 1) as nat), body: verify[i] },
    )
}

/// Where a piece of evidence is, and how to get there.
pub open spec fn evidence_words(evidence: Evidence, number: nat) -> Seq<char> {
    evidence.path@ + " ("@ + (match (evidence.side, evidence.line) {
        (Some(side), Some(line)) => side.name() + ":"@ + decimal(line as nat),
        _ => "file"@,
    }) + ")"@ + (if evidence.label@.len() == 0 { ""@ } else { " — "@ + evidence.label@ })
        + " · :evidence "@ + decimal(number)
}

/// The first `n` pieces of evidence, numbered.
pub open spec fn evidence_entries(evidence: Seq<Evidence>, n: nat) -> Seq<EntryView> {
    Seq::new(
        n,
        |i: int|
            EntryView {
                label: "Evidence "@ + decimal((i + 1) as nat),
                body: evidence_words(evidence[i], (i + 1) as nat),
            },
    )
}

/// What, why and what to verify, as labelled texts.
pub open spec fn guide_entries(guidance: FileGuidance) -> Seq<EntryView> {
    seq![
        EntryView { label: "What"@, body: what(guidance) },
        EntryView { label: "Why · inferred"@, body: why(guidance) },
    ] + (if guidance.verify@.len() == 0 {
        seq![EntryView { label: "Verify"@, body: "no concrete check supplied"@ }]
    } else {
        check_entries(views(guidance.verify@), guidance.verify@.len())
    })
}

fn entry(label: &str, body: &str) -> (r: Entry)
    ensures
        r@ == (EntryView { label: label@, body: body@ }),
{
    Entry { label: label.to_owned(), body: body.to_owned() }
}

/// What, why and what to verify, as labelled texts that are still to be wrapped.
#[must_use]
pub fn guide(guidance: &FileGuidance) -> (r: Vec<Entry>)
    ensures
        entry_views(r@) == guide_entries(*guidance),
{
    let mut out: Vec<Entry> = Vec::new();
    out.push(entry("What", what_changed(guidance)));
    out.push(entry("Why · inferred", inferred_why(guidance)));
    let ghost first = entry_views(out@);
    assert(first =~= seq![
        EntryView { label: "What"@, body: what(*guidance) },
        EntryView { label: "Why · inferred"@, body: why(*guidance) },
    ]);
    if guidance.verify.len() == 0 {
        out.push(entry("Verify", "no concrete check supplied"));
        assert(entry_views(out@) =~= guide_entries(*guidance));
        return out;
    }
    let ghost all = views(guidance.verify@);
    assert(entry_views(out@) =~= first + check_entries(all, 0));
    let mut i: usize = 0;
    while i < guidance.verify.len()
        invariant
            i <= guidance.verify@.len(),
            all == views(guidance.verify@),
            entry_views(out@) == first + check_entries(all, i as nat),
        decreases guidance.verify@.len() - i,
    {
        let ghost before = out@;
        let label = concat2("Verify ", number(i as u64 + 1).as_str());
        out.push(entry(label.as_str(), guidance.verify[i].as_str()));
        assert(entry_views(out@) =~= entry_views(before).push(out@[before.len() as int]@));
        i += 1;
        assert(entry_views(out@) =~= first + check_entries(all, i as nat));
    }
    out
}

fn evidence_label(evidence: &Evidence, place: &str, Ghost(n): Ghost<nat>) -> (r: String)
    requires
        place@ == decimal(n),
    ensures
        r@ == evidence_words(*evidence, n),
{
    let coordinate = match (evidence.side, evidence.line) {
        (Some(side), Some(line)) => concat3(side.label(), ":", number(line as u64).as_str()),
        _ => "file".to_owned(),
    };
    let label = if evidence.label.as_str().is_empty() {
        "".to_owned()
    } else {
        concat2(" — ", evidence.label.as_str())
    };
    let mut text = concat4(evidence.path.as_str(), " (", coordinate.as_str(), ")");
    text.append(label.as_str());
    text.append(" · :evidence ");
    text.append(place);
    text
}

/// The evidence, as labelled texts that are still to be wrapped.
#[must_use]
pub fn evidence(guidance: &FileGuidance) -> (r: Vec<Entry>)
    ensures
        entry_views(r@) == evidence_entries(guidance.evidence@, guidance.evidence@.len()),
{
    let mut out: Vec<Entry> = Vec::new();
    assert(entry_views(out@) =~= evidence_entries(guidance.evidence@, 0));
    let mut i: usize = 0;
    while i < guidance.evidence.len()
        invariant
            i <= guidance.evidence@.len(),
            entry_views(out@) == evidence_entries(guidance.evidence@, i as nat),
        decreases guidance.evidence@.len() - i,
    {
        let ghost before = out@;
        let place = number(i as u64 + 1);
        let label = concat2("Evidence ", place.as_str());
        let body = evidence_label(&guidance.evidence[i], place.as_str(), Ghost((i + 1) as nat));
        out.push(Entry { label, body });
        assert(entry_views(out@) =~= entry_views(before).push(out@[before.len() as int]@));
        i += 1;
        assert(entry_views(out@) =~= evidence_entries(guidance.evidence@, i as nat));
    }
    out
}

/// How many columns the text under a label has: what the label leaves, but at least one.
pub open spec fn body_room(label: Seq<char>, room: nat) -> nat {
    let used = columns(" "@ + label + " "@);
    if room < used + 1 { 1 } else { (room - used) as nat }
}

/// How many columns the text under a label has.
#[must_use]
pub fn room_for(label: &str, room: usize) -> (r: usize)
    ensures
        r == body_room(label@, room as nat),
{
    let used: usize = width(concat3(" ", label, " ").as_str());
    let left: usize = room.saturating_sub(used);
    if left < 1 { 1 } else { left }
}

/// The first `n` lines of a wrapped text: the first after its label, the others below it.
pub open spec fn entry_rows(label: Seq<char>, rows: Seq<Seq<char>>, n: nat) -> Seq<Seq<SpanView>> {
    let prefix = " "@ + label + " "@;
    Seq::new(
        n,
        |i: int|
            if i == 0 {
                seq![span(prefix, Element::Title), span(rows[i], Element::Fg)]
            } else {
                line_of(repeated(' ', columns(prefix)) + rows[i], Element::Fg)
            },
    )
}

fn add_entry(out: &mut Vec<Line>, label: &str, rows: &Vec<String>)
    ensures
        page(final(out)@) == page(old(out)@) + entry_rows(label@, views(rows@), rows@.len()),
{
    let prefix = concat3(" ", label, " ");
    let wide: usize = width(prefix.as_str());
    let ghost before = page(out@);
    let ghost all = views(rows@);
    assert(before + entry_rows(label@, all, 0) =~= before);
    let mut i: usize = 0;
    while i < rows.len()
        invariant
            i <= rows@.len(),
            all == views(rows@),
            prefix@ == " "@ + label@ + " "@,
            wide == columns(prefix@),
            page(out@) == before + entry_rows(label@, all, i as nat),
        decreases rows@.len() - i,
    {
        if i == 0 {
            let mut line = Line::literal(prefix.as_str(), Element::Title);
            line.push(rows[i].clone(), plain(Element::Fg));
            assert(line@ =~= seq![span(prefix@, Element::Title), span(all[0], Element::Fg)]);
            out.push(line);
        } else {
            out.push(
                Line::of(concat2(repeat(' ', wide).as_str(), rows[i].as_str()), Element::Fg),
            );
        }
        i += 1;
        assert(page(out@) =~= before + entry_rows(label@, all, i as nat));
    }
}

/// The first `n` entries, each with its text wrapped.
pub open spec fn entries_lines(entries: Seq<EntryView>, wrapped: Seq<Vec<String>>, n: nat) -> Seq<
    Seq<SpanView>,
>
    decreases n,
{
    if n == 0 {
        Seq::empty()
    } else {
        entries_lines(entries, wrapped, (n - 1) as nat) + entry_rows(
            entries[n - 1].label,
            views(wrapped[n - 1]@),
            wrapped[n - 1]@.len(),
        )
    }
}

fn add_entries(out: &mut Vec<Line>, entries: &Vec<Entry>, wrapped: &Vec<Vec<String>>)
    requires
        entries@.len() == wrapped@.len(),
    ensures
        page(final(out)@) == page(old(out)@) + entries_lines(
            entry_views(entries@),
            wrapped@,
            entries@.len(),
        ),
{
    let ghost before = page(out@);
    let ghost all = entry_views(entries@);
    assert(before + entries_lines(all, wrapped@, 0) =~= before);
    let mut i: usize = 0;
    while i < entries.len()
        invariant
            i <= entries@.len(),
            entries@.len() == wrapped@.len(),
            all == entry_views(entries@),
            page(out@) == before + entries_lines(all, wrapped@, i as nat),
        decreases entries@.len() - i,
    {
        add_entry(out, entries[i].label.as_str(), &wrapped[i]);
        i += 1;
        assert(page(out@) =~= before + entries_lines(all, wrapped@, i as nat));
    }
}

/// The whole guidance, given the texts of [`guide`] and [`evidence`] as they are wrapped.
pub open spec fn expanded_lines(
    guidance: FileGuidance,
    texts: Seq<Vec<String>>,
    places: Seq<Vec<String>>,
) -> Seq<Seq<SpanView>> {
    entries_lines(guide_entries(guidance), texts, guide_entries(guidance).len()) + (
    if guidance.truncated {
        seq![
            line_of(
                " Source was truncated; treat this guidance as partial."@,
                Element::NoticeWarn,
            ),
        ]
    } else {
        Seq::empty()
    }) + (if guidance.evidence@.len() == 0 {
        seq![
            line_of(
                " Evidence: none supplied or no coordinate survived validation."@,
                Element::Muted,
            ),
        ]
    } else {
        entries_lines(
            evidence_entries(guidance.evidence@, guidance.evidence@.len()),
            places,
            guidance.evidence@.len(),
        )
    })
}

/// The whole guidance; what is missing or partial is said rather than passed over.
#[must_use]
pub fn expanded(
    guidance: &FileGuidance,
    texts: &Vec<Vec<String>>,
    places: &Vec<Vec<String>>,
) -> (r: Vec<Line>)
    requires
        texts@.len() == guide_entries(*guidance).len(),
        places@.len() == guidance.evidence@.len(),
    ensures
        page(r@) == expanded_lines(*guidance, texts@, places@),
{
    let mut out: Vec<Line> = Vec::new();
    let entries = guide(guidance);
    assert(entry_views(entries@).len() == entries@.len());
    add_entries(&mut out, &entries, texts);
    if guidance.truncated {
        out.push(
            Line::literal(
                " Source was truncated; treat this guidance as partial.",
                Element::NoticeWarn,
            ),
        );
    }
    if guidance.evidence.len() == 0 {
        out.push(
            Line::literal(
                " Evidence: none supplied or no coordinate survived validation.",
                Element::Muted,
            ),
        );
    } else {
        let cited = evidence(guidance);
        assert(entry_views(cited@).len() == cited@.len());
        add_entries(&mut out, &cited, places);
    }
    assert(page(out@) =~= expanded_lines(*guidance, texts@, places@));
    out
}

/// The title of the guidance.
#[must_use]
pub fn title(path: &str, expanded: bool) -> (r: String)
    ensures
        r@ == " guide · "@ + path@ + (if expanded {
            " · e: collapse · j/k: scroll "@
        } else {
            " · e: expand "@
        }),
{
    concat3(
        " guide · ",
        path,
        if expanded { " · e: collapse · j/k: scroll " } else { " · e: expand " },
    )
}

/// How far the guidance is scrolled: no further than to its end.
#[must_use]
pub fn offset(scroll: usize, len: usize, height: u16) -> (r: usize)
    ensures
        ({
            let room = if height < 3 { 1 } else { height - 2 };
            let last = if len > room { len - room } else { 0 };
            r == if scroll < last { scroll as int } else { last }
        }),
{
    let inner: usize = height.saturating_sub(2) as usize;
    let room: usize = if inner < 1 { 1 } else { inner };
    let last: usize = len.saturating_sub(room);
    if scroll < last { scroll } else { last }
}

} // verus!
