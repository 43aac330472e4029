//! What is drawn, before it has colours: lines of spans, each naming what it stands for.

use vstd::prelude::*;

use crate::strings::repeat;

verus! {

/// The parts of the screen a theme gives a style to.
#[derive(Debug, Clone, Copy, PartialEq, Eq, Structural)]
pub enum Element {
    Accent,
    Bg,
    Border,
    BorderFocused,
    ChatAnswer,
    ChatInput,
    ChatQuestion,
    ChatReference,
    ChatStopped,
    CommandError,
    CommandPrompt,
    CommentMarker,
    DiffAdd,
    DiffContext,
    DiffDel,
    DiffFolded,
    DiffHunkHeader,
    DiffLineNumber,
    Fg,
    HelpDescription,
    HelpGroup,
    HelpKey,
    ListCheckFail,
    ListCheckOk,
    ListCheckPending,
    ListDraft,
    Muted,
    NoticeError,
    NoticeInfo,
    NoticeSuccess,
    NoticeWarn,
    PickerSelected,
    Selection,
    StatusCommand,
    StatusError,
    StatusInsert,
    StatusNormal,
    SyntaxComment,
    SyntaxConstant,
    SyntaxFunction,
    SyntaxKeyword,
    SyntaxNumber,
    SyntaxProperty,
    SyntaxString,
    SyntaxType,
    SyntaxVariable,
    Title,
    TreeAdded,
    TreeDeleted,
    TreeDir,
    TreeModified,
}

/// What a piece of source code is.
#[derive(Debug, Clone, Copy, PartialEq, Eq, Structural)]
pub enum SyntaxClass {
    Comment,
    Keyword,
    Literal,
    Number,
    Type,
    Function,
    Constant,
    Property,
    Variable,
}

/// How a span is painted.
///
/// The style of `element`, or the terminal's own where there is none; laid over the selection's
/// style where `selected`; and with the foreground of a syntax class laid over both.
#[derive(Debug, Clone, Copy, PartialEq, Eq, Structural)]
pub struct Paint {
    /// The element whose style is used.
    pub element: Option<Element>,
    /// Whether the style lies over the selection's.
    pub selected: bool,
    /// The syntax class whose foreground lies over the rest.
    pub syntax: Option<SyntaxClass>,
}

impl Paint {
    /// The paint of an element by itself.
    pub open spec fn plain(element: Element) -> Paint {
        Paint { element: Some(element), selected: false, syntax: None }
    }

    /// The paint of an element, over the selection where `selected`.
    pub open spec fn tinted(element: Element, selected: bool) -> Paint {
        Paint { element: Some(element), selected, syntax: None }
    }

    /// The terminal's own style.
    pub open spec fn none() -> Paint {
        Paint { element: None, selected: false, syntax: None }
    }
}

/// The paint of an element by itself.
pub fn plain(element: Element) -> (p: Paint)
    ensures
        p == Paint::plain(element),
{
    Paint { element: Some(element), selected: false, syntax: None }
}

/// The paint of an element, over the selection where `selected`.
pub fn tinted(element: Element, selected: bool) -> (p: Paint)
    ensures
        p == Paint::tinted(element, selected),
{
    Paint { element: Some(element), selected, syntax: None }
}

/// The terminal's own style.
pub fn unpainted() -> (p: Paint)
    ensures
        p == Paint::none(),
{
    Paint { element: None, selected: false, syntax: None }
}

/// A run of text in one paint.
#[derive(Debug, PartialEq, Eq)]
pub struct Span {
    /// The text.
    pub text: String,
    /// How it is painted.
    pub paint: Paint,
}

/// What a [`Span`] says.
pub struct SpanView {
    pub text: Seq<char>,
    pub paint: Paint,
}

impl View for Span {
    type V = SpanView;

    open spec fn view(&self) -> SpanView {
        SpanView { text: self.text@, paint: self.paint }
    }
}

impl Clone for Span {
    fn clone(&self) -> (r: Self)
        ensures
            r == *self,
    {
        Span { text: self.text.clone(), paint: self.paint }
    }
}

/// The spans' contents, one by one.
pub open spec fn span_views(spans: Seq<Span>) -> Seq<SpanView> {
    spans.map_values(|s: Span| s@)
}

/// One line of the screen.
#[derive(Debug, PartialEq, Eq)]
pub struct Line {
    /// The spans, from left to right.
    pub spans: Vec<Span>,
}

impl View for Line {
    type V = Seq<SpanView>;

    open spec fn view(&self) -> Seq<SpanView> {
        span_views(self.spans@)
    }
}

impl Clone for Line {
    fn clone(&self) -> (r: Self)
        ensures
            r@ == self@,
    {
        let spans = self.spans.clone();
        assert(spans@ =~= self.spans@);
        Line { spans }
    }
}

/// A span of text in the paint of an element.
pub open spec fn span(text: Seq<char>, element: Element) -> SpanView {
    SpanView { text, paint: Paint::plain(element) }
}

/// A line of one span in the paint of an element.
pub open spec fn line_of(text: Seq<char>, element: Element) -> Seq<SpanView> {
    seq![span(text, element)]
}

impl Line {
    /// A line without spans.
    pub fn new() -> (r: Line)
        ensures
            r@ == Seq::<SpanView>::empty(),
    {
        let r = Line { spans: Vec::new() };
        assert(r@ =~= Seq::empty());
        r
    }

    /// A line of one span in the paint of an element.
    pub fn of(text: String, element: Element) -> (r: Line)
        ensures
            r@ == line_of(text@, element),
    {
        let mut r = Line::new();
        r.push(text, plain(element));
        assert(r@ =~= line_of(text@, element));
        r
    }

    /// A line of one literal text in the paint of an element.
    pub fn literal(text: &str, element: Element) -> (r: Line)
        ensures
            r@ == line_of(text@, element),
    {
        Line::of(text.to_owned(), element)
    }

    /// Adds a span at the right.
    pub fn push(&mut self, text: String, paint: Paint)
        ensures
            final(self)@ == old(self)@.push(SpanView { text: text@, paint }),
    {
        let ghost before = self.spans@;
        self.spans.push(Span { text, paint });
        assert(span_views(self.spans@) =~= span_views(before).push(SpanView { text: text@, paint }));
    }

    /// Adds a literal text in the paint of an element.
    pub fn add_text(&mut self, text: &str, element: Element)
        ensures
            final(self)@ == old(self)@.push(span(text@, element)),
    {
        self.push(text.to_owned(), plain(element));
    }

    /// Adds the spans of another line at the right.
    pub fn extend(&mut self, mut other: Line)
        ensures
            final(self)@ == old(self)@ + other@,
    {
        let ghost before = self.spans@;
        let ghost more = other.spans@;
        self.spans.append(&mut other.spans);
        assert(span_views(self.spans@) =~= span_views(before) + span_views(more));
    }
}

/// The lines' contents, one by one.
pub open spec fn page(lines: Seq<Line>) -> Seq<Seq<SpanView>> {
    lines.map_values(|l: Line| l@)
}

/// No lines are an empty page.
pub broadcast proof fn lemma_page_empty(lines: Seq<Line>)
    requires
        lines.len() == 0,
    ensures
        #[trigger] page(lines) == Seq::<Seq<SpanView>>::empty(),
{
    assert(page(lines) =~= Seq::empty());
}

/// Adding a line adds its contents at the end.
pub broadcast proof fn lemma_page_push(lines: Seq<Line>, line: Line)
    ensures
        #[trigger] page(lines.push(line)) == page(lines).push(line@),
{
    assert(page(lines.push(line)) =~= page(lines).push(line@));
}

/// Adding lines adds their contents at the end.
pub broadcast proof fn lemma_page_append(lines: Seq<Line>, more: Seq<Line>)
    ensures
        #[trigger] page(lines + more) == page(lines) + page(more),
{
    assert(page(lines + more) =~= page(lines) + page(more));
}

pub broadcast group group_page {
    lemma_page_empty,
    lemma_page_push,
    lemma_page_append,
}

/// The rows of a page that a window shows.
pub open spec fn shown<T>(all: Seq<T>, offset: nat, height: nat) -> Seq<T> {
    let start = if offset < all.len() { offset } else { all.len() };
    let end = if start + height < all.len() { (start + height) as nat } else { all.len() };
    all.subrange(start as int, end as int)
}

/// The lines that a window of `height` rows shows from `offset` on.
pub fn show(lines: &Vec<Line>, offset: usize, height: usize) -> (out: Vec<Line>)
    ensures
        page(out@) == shown(page(lines@), offset as nat, height as nat),
{
    broadcast use group_page;
    let mut out: Vec<Line> = Vec::new();
    let start: usize = if offset < lines.len() { offset } else { lines.len() };
    let room: usize = lines.len() - start;
    let end: usize = if height < room { start + height } else { lines.len() };
    let mut i: usize = start;
    while i < end
        invariant
            start <= i <= end <= lines@.len(),
            page(out@) == page(lines@).subrange(start as int, i as int),
        decreases end - i,
    {
        out.push(lines[i].clone());
        i += 1;
        assert(page(lines@).subrange(start as int, i as int) =~= page(lines@).subrange(
            start as int,
            i - 1,
        ).push(lines@[i - 1]@));
    }
    out
}

/// How many characters a row of spans holds.
pub open spec fn row_len(spans: Seq<SpanView>) -> nat
    decreases spans.len(),
{
    if spans.len() == 0 {
        0
    } else {
        row_len(spans.drop_last()) + spans.last().text.len()
    }
}

fn row_room(spans: &Vec<Span>, room: usize) -> (left: usize)
    ensures
        left == crate::text::gap(row_len(span_views(spans@)), room as nat),
{
    let mut left: usize = room;
    let mut i: usize = 0;
    let ghost all = span_views(spans@);
    while i < spans.len()
        invariant
            i <= spans@.len(),
            all == span_views(spans@),
            left == crate::text::gap(row_len(all.subrange(0, i as int)), room as nat),
        decreases spans@.len() - i,
    {
        left = left.saturating_sub(spans[i].text.as_str().unicode_len());
        i += 1;
        proof {
            let now = all.subrange(0, i as int);
            assert(now.drop_last() =~= all.subrange(0, i - 1));
            assert(now.last() == spans@[i - 1]@);
        }
    }
    assert(all.subrange(0, i as int) =~= all);
    left
}

/// The row that holds `left`, `right` at the far end, and spaces between them.
pub open spec fn spread(left: Seq<SpanView>, right: Seq<SpanView>, width: nat) -> Seq<SpanView> {
    let fill = crate::text::gap(row_len(left) + row_len(right), width);
    if fill > 0 {
        left.push(
            SpanView { text: crate::strings::repeated(' ', fill), paint: Paint::none() },
        ) + right
    } else {
        left + right
    }
}

/// Lays a left-aligned and a right-aligned group of spans on one row.
///
/// Widths are counted in characters, which is exact for the texts that are laid out this way.
pub fn padded_line(left: Line, right: Line, width: u16) -> (row: Line)
    ensures
        row@ == spread(left@, right@, width as nat),
{
    let room: usize = row_room(&left.spans, width as usize);
    let fill: usize = row_room(&right.spans, room);
    let mut row = left;
    if fill > 0 {
        row.push(repeat(' ', fill), unpainted());
    }
    row.extend(right);
    row
}

proof fn lemma_row_len_append(a: Seq<SpanView>, b: Seq<SpanView>)
    ensures
        row_len(a + b) == row_len(a) + row_len(b),
    decreases b.len(),
{
    if b.len() == 0 {
        assert(a + b =~= a);
    } else {
        lemma_row_len_append(a, b.drop_last());
        assert((a + b).drop_last() =~= a + b.drop_last());
    }
}

/// A padded row fills the width exactly, unless its spans alone are wider.
pub proof fn lemma_padding_fills_the_row(left: Seq<SpanView>, right: Seq<SpanView>, width: nat)
    ensures
        row_len(left) + row_len(right) <= width ==> row_len(spread(left, right, width)) == width,
        row_len(left) + row_len(right) > width ==> spread(left, right, width) == left + right,
{
    let fill = crate::text::gap(row_len(left) + row_len(right), width);
    let middle = SpanView { text: crate::strings::repeated(' ', fill), paint: Paint::none() };
    lemma_row_len_append(left, right);
    lemma_row_len_append(left.push(middle), right);
    assert(left.push(middle).drop_last() =~= left);
}

/// The paint of the parts of a row that have none of their own.
pub open spec fn base_paint(selected: bool) -> Paint {
    Paint::plain(if selected { Element::Selection } else { Element::Fg })
}

/// The paint of the parts of a row that have none of their own.
pub fn base_style(selected: bool) -> (r: Paint)
    ensures
        r == base_paint(selected),
{
    plain(if selected { Element::Selection } else { Element::Fg })
}

/// Adds copies of lines at the end of others.
pub fn copy_lines(out: &mut Vec<Line>, body: &Vec<Line>)
    ensures
        page(final(out)@) == page(old(out)@) + page(body@),
{
    let ghost before = page(out@);
    assert(before + page(body@).subrange(0, 0) =~= before);
    let mut i: usize = 0;
    while i < body.len()
        invariant
            i <= body@.len(),
            page(out@) == before + page(body@).subrange(0, i as int),
        decreases body@.len() - i,
    {
        let line = body[i].clone();
        proof {
            lemma_page_push(out@, line);
        }
        out.push(line);
        i += 1;
        assert(page(out@) =~= before + page(body@).subrange(0, i as int));
    }
    assert(page(body@).subrange(0, i as int) =~= page(body@));
}

} // verus!
