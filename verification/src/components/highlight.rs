//! Source code in colour: the ranges a language's grammar gives meaning to, laid over a line that
//! is cut to the room there is.

use vstd::prelude::*;

use crate::paint::{Line, Paint, SpanView, SyntaxClass};
use crate::stream::{byte_len, byte_prefix, bytes_of, lemma_byte_prefix, prefix_within};
use crate::strings::{characters, collected, repeat, repeated};
use crate::text::{columns, fit, gap, kept, truncate, truncated, width};

verus! {

/// A range of a line, in bytes, and what it is.
#[derive(Debug, Clone, Copy, PartialEq, Eq, Structural)]
pub struct SyntaxSpan {
    /// The first byte.
    pub start: usize,
    /// The byte behind the last.
    pub end: usize,
    /// What it is.
    pub class: SyntaxClass,
}

/// How many characters of a text end within its first `b` bytes.
pub open spec fn chars_before(s: Seq<char>, b: nat) -> nat {
    byte_prefix(s, s.len(), b)
}

/// Whether a byte offset falls between two characters.
pub open spec fn on_boundary(s: Seq<char>, b: nat) -> bool {
    bytes_of(s.subrange(0, chars_before(s, b) as int)) == b
}

/// The characters between two byte offsets.
pub open spec fn between(s: Seq<char>, a: nat, b: nat) -> Seq<char> {
    s.subrange(chars_before(s, a) as int, chars_before(s, b) as int)
}

/// Where a range starts, once what is painted already and what was cut off are left out.
pub open spec fn range_start(range: SyntaxSpan, cursor: nat, len: nat) -> nat {
    let start = if range.start < cursor { cursor } else { range.start as nat };
    if start < len { start } else { len }
}

/// Where a range ends, once what was cut off is left out.
pub open spec fn range_end(range: SyntaxSpan, len: nat) -> nat {
    if range.end < len { range.end as nat } else { len }
}

/// A paint with the foreground of a class over it.
pub open spec fn coloured(base: Paint, class: SyntaxClass) -> Paint {
    Paint { syntax: Some(class), ..base }
}

/// The spans of the first `n` ranges with the text before them, and the byte behind the last;
/// nothing, where a range splits a character.
pub open spec fn painted(source: Seq<char>, syntax: Seq<SyntaxSpan>, base: Paint, n: nat) -> Option<
    (Seq<SpanView>, nat),
>
    decreases n,
{
    if n == 0 {
        Some((Seq::empty(), 0))
    } else {
        match painted(source, syntax, base, (n - 1) as nat) {
            None => None,
            Some((spans, cursor)) => {
                let len = bytes_of(source);
                let start = range_start(syntax[n - 1], cursor, len);
                let end = range_end(syntax[n - 1], len);
                if start >= end {
                    Some((spans, cursor))
                } else if !on_boundary(source, start) || !on_boundary(source, end) {
                    None
                } else {
                    let before = between(source, cursor, start);
                    let led = if before.len() == 0 {
                        spans
                    } else {
                        spans.push(SpanView { text: before, paint: base })
                    };
                    Some(
                        (
                            led.push(
                                SpanView {
                                    text: between(source, start, end),
                                    paint: coloured(base, syntax[n - 1].class),
                                },
                            ),
                            end,
                        ),
                    )
                }
            },
        }
    }
}

/// A line of source code, cut to a width, in the colours of its ranges over one paint.
///
/// Where a range splits a character the line is left in that one paint.
pub open spec fn highlighted(
    content: Seq<char>,
    syntax: Seq<SyntaxSpan>,
    width: nat,
    base: Paint,
    pad: bool,
) -> Seq<SpanView> {
    let fitted = truncated(content, width);
    let source = content.subrange(0, kept(content, width) as int);
    match painted(source, syntax, base, syntax.len()) {
        None => seq![SpanView { text: fitted, paint: base }],
        Some((spans, cursor)) => {
            let rest = source.subrange(chars_before(source, cursor) as int, source.len() as int);
            let all = if rest.len() == 0 {
                spans
            } else {
                spans.push(SpanView { text: rest, paint: base })
            };
            let cut = if columns(content) > width {
                all.push(SpanView { text: seq!['…'], paint: base })
            } else {
                all
            };
            let fill = gap(columns(fitted), width);
            let filled = if pad && fill > 0 {
                cut.push(SpanView { text: repeated(' ', fill), paint: base })
            } else {
                cut
            };
            if filled.len() == 0 {
                seq![SpanView { text: Seq::empty(), paint: base }]
            } else {
                filled
            }
        },
    }
}

/// What is painted so far, or nothing where a range splits a character.
struct Painting {
    line: Line,
    cursor: usize,
    at: usize,
}

fn paint_range(
    source: &Vec<char>,
    len: usize,
    range: SyntaxSpan,
    base: Paint,
    painting: Painting,
) -> (r: Option<Painting>)
    requires
        len == bytes_of(source@),
        painting.at == chars_before(source@, painting.cursor as nat),
        painting.at <= source@.len(),
    ensures
        ({
            let start = range_start(range, painting.cursor as nat, len as nat);
            let end = range_end(range, len as nat);
            match r {
                None => start < end && (!on_boundary(source@, start) || !on_boundary(source@, end)),
                Some(after) => {
                    &&& after.at == chars_before(source@, after.cursor as nat)
                    &&& after.at <= source@.len()
                    &&& if start >= end {
                        after.line@ == painting.line@ && after.cursor == painting.cursor
                    } else {
                        let before = between(source@, painting.cursor as nat, start);
                        let led = if before.len() == 0 {
                            painting.line@
                        } else {
                            painting.line@.push(SpanView { text: before, paint: base })
                        };
                        &&& on_boundary(source@, start)
                        &&& on_boundary(source@, end)
                        &&& after.cursor == end
                        &&& after.line@ == led.push(
                            SpanView {
                                text: between(source@, start, end),
                                paint: coloured(base, range.class),
                            },
                        )
                    }
                },
            }
        }),
{
    let lower: usize = if range.start < painting.cursor { painting.cursor } else { range.start };
    let start: usize = if lower < len { lower } else { len };
    let end: usize = if range.end < len { range.end } else { len };
    if start >= end {
        return Some(painting);
    }
    let (from, used_from) = prefix_within(source, start);
    let (to, used_to) = prefix_within(source, end);
    if used_from != start || used_to != end {
        return None;
    }
    proof {
        lemma_before_grows(source@, painting.cursor as nat, start as nat);
        lemma_before_grows(source@, start as nat, end as nat);
    }
    let mut line = painting.line;
    if painting.at < from {
        line.push(collected(&source.as_slice()[painting.at..from]), base);
    }
    line.push(
        collected(&source.as_slice()[from..to]),
        Paint { element: base.element, selected: base.selected, syntax: Some(range.class) },
    );
    Some(Painting { line, cursor: end, at: to })
}

/// More bytes hold no fewer characters.
proof fn lemma_before_grows(s: Seq<char>, a: nat, b: nat)
    requires
        a <= b,
    ensures
        chars_before(s, a) <= chars_before(s, b) <= s.len(),
{
    lemma_byte_prefix(s, s.len(), a);
    lemma_byte_prefix(s, s.len(), b);
    lemma_prefix_monotone(s, s.len(), a, b);
}

proof fn lemma_prefix_monotone(s: Seq<char>, n: nat, a: nat, b: nat)
    requires
        a <= b,
    ensures
        byte_prefix(s, n, a) <= byte_prefix(s, n, b),
    decreases n,
{
    if n > 0 {
        lemma_prefix_monotone(s, (n - 1) as nat, a, b);
        lemma_byte_prefix(s, (n - 1) as nat, a);
    }
}

proof fn lemma_none_before(s: Seq<char>)
    ensures
        chars_before(s, 0) == 0,
{
    lemma_byte_prefix(s, s.len(), 0);
    let n = chars_before(s, 0);
    if n > 0 {
        let head = s.subrange(0, n as int);
        assert(bytes_of(head) == bytes_of(head.drop_last()) + crate::stream::char_bytes(head.last()));
    }
}

fn paint(source: &Vec<char>, syntax: &Vec<SyntaxSpan>, base: Paint) -> (r: Option<Painting>)
    ensures
        match r {
            Some(painting) => {
                &&& painted(source@, syntax@, base, syntax@.len()) == Some(
                    (painting.line@, painting.cursor as nat),
                )
                &&& painting.at == chars_before(source@, painting.cursor as nat)
                &&& painting.at <= source@.len()
            },
            None => painted(source@, syntax@, base, syntax@.len()) is None,
        },
{
    let len: usize = byte_len(collected(source.as_slice()).as_str());
    let mut painting = Painting { line: Line::new(), cursor: 0, at: 0 };
    proof {
        lemma_none_before(source@);
    }
    let mut i: usize = 0;
    while i < syntax.len()
        invariant
            i <= syntax@.len(),
            len == bytes_of(source@),
            painted(source@, syntax@, base, i as nat) == Some(
                (painting.line@, painting.cursor as nat),
            ),
            painting.at == chars_before(source@, painting.cursor as nat),
            painting.at <= source@.len(),
        decreases syntax@.len() - i,
    {
        match paint_range(source, len, syntax[i], base, painting) {
            Some(next) => {
                painting = next;
            },
            None => {
                proof {
                    lemma_painting_stops(source@, syntax@, base, (i + 1) as nat, syntax@.len());
                }
                return None;
            },
        }
        i += 1;
    }
    Some(painting)
}

proof fn lemma_painting_stops(source: Seq<char>, syntax: Seq<SyntaxSpan>, base: Paint, n: nat, m: nat)
    requires
        n <= m,
        painted(source, syntax, base, n) is None,
    ensures
        painted(source, syntax, base, m) is None,
    decreases m,
{
    if n < m {
        lemma_painting_stops(source, syntax, base, n, (m - 1) as nat);
    }
}

/// Turns the ranges of a line into spans of at most `room` columns, without replacing the
/// background that `base` carries.
#[must_use]
pub fn highlighted_content(
    content: &str,
    syntax: &Vec<SyntaxSpan>,
    room: usize,
    base: Paint,
    pad: bool,
) -> (r: Line)
    ensures
        r@ == highlighted(content@, syntax@, room as nat, base, pad),
{
    let fitted = truncate(content, room);
    let (count, cut) = fit(content, room);
    let chars = characters(content);
    let source = characters(collected(&chars.as_slice()[0..count]).as_str());
    assert(source@ == content@.subrange(0, kept(content@, room as nat) as int));
    match paint(&source, syntax, base) {
        None => {
            let mut line = Line::new();
            line.push(fitted, base);
            assert(line@ =~= seq![SpanView { text: fitted@, paint: base }]);
            line
        },
        Some(painting) => {
            let mut line = painting.line;
            if painting.at < source.len() {
                line.push(collected(&source.as_slice()[painting.at..source.len()]), base);
            }
            if cut {
                let mut mark = String::new();
                mark.push('…');
                assert(mark@ =~= seq!['…']);
                line.push(mark, base);
            }
            if pad {
                let fill: usize = room.saturating_sub(width(fitted.as_str()));
                if fill > 0 {
                    line.push(repeat(' ', fill), base);
                }
            }
            if line.spans.len() == 0 {
                assert(line@.len() == 0);
                line.push(String::new(), base);
                assert(line@ =~= seq![SpanView { text: Seq::empty(), paint: base }]);
            } else {
                assert(line@.len() == line.spans@.len());
            }
            line
        },
    }
}

/// The text of a row of spans.
pub open spec fn row_text(spans: Seq<SpanView>) -> Seq<char>
    decreases spans.len(),
{
    if spans.len() == 0 {
        Seq::empty()
    } else {
        row_text(spans.drop_last()) + spans.last().text
    }
}

proof fn lemma_row_text_push(spans: Seq<SpanView>, last: SpanView)
    ensures
        row_text(spans.push(last)) == row_text(spans) + last.text,
{
    assert(spans.push(last).drop_last() =~= spans);
}

proof fn lemma_painted_text(source: Seq<char>, syntax: Seq<SyntaxSpan>, base: Paint, n: nat)
    ensures
        match painted(source, syntax, base, n) {
            Some((spans, cursor)) => {
                &&& chars_before(source, cursor) <= source.len()
                &&& row_text(spans) == source.subrange(0, chars_before(source, cursor) as int)
                &&& forall|i: int|
                    0 <= i < spans.len() ==> (#[trigger] spans[i]).paint.element == base.element
                        && spans[i].paint.selected == base.selected
            },
            None => true,
        },
    decreases n,
{
    if n == 0 {
        lemma_none_before(source);
        assert(source.subrange(0, 0) =~= Seq::empty());
    } else {
        lemma_painted_text(source, syntax, base, (n - 1) as nat);
        match painted(source, syntax, base, (n - 1) as nat) {
            None => {},
            Some((spans, cursor)) => {
                let len = bytes_of(source);
                let start = range_start(syntax[n - 1], cursor, len);
                let end = range_end(syntax[n - 1], len);
                if start < end && on_boundary(source, start) && on_boundary(source, end) {
                    lemma_before_grows(source, cursor, start);
                    lemma_before_grows(source, start, end);
                    let a = chars_before(source, cursor) as int;
                    let b = chars_before(source, start) as int;
                    let c = chars_before(source, end) as int;
                    let before = between(source, cursor, start);
                    let led = if before.len() == 0 {
                        spans
                    } else {
                        spans.push(SpanView { text: before, paint: base })
                    };
                    lemma_row_text_push(spans, SpanView { text: before, paint: base });
                    assert(row_text(led) =~= source.subrange(0, b)) by {
                        assert(source.subrange(0, a) + source.subrange(a, b) =~= source.subrange(
                            0,
                            b,
                        ));
                        if before.len() == 0 {
                            assert(a == b);
                        }
                    }
                    lemma_row_text_push(
                        led,
                        SpanView {
                            text: between(source, start, end),
                            paint: coloured(base, syntax[n - 1].class),
                        },
                    );
                    assert(source.subrange(0, b) + source.subrange(b, c) =~= source.subrange(0, c));
                }
            },
        }
    }
}

/// Colours change no text: without padding, the spans hold the cut line exactly, wherever there is
/// room for the mark that says that it was cut.
pub proof fn lemma_highlighting_keeps_the_text(
    content: Seq<char>,
    syntax: Seq<SyntaxSpan>,
    width: nat,
    base: Paint,
)
    requires
        width > 0 || columns(content) == 0,
    ensures
        row_text(highlighted(content, syntax, width, base, false)) == truncated(content, width),
{
    reveal_with_fuel(row_text, 2);
    let source = content.subrange(0, kept(content, width) as int);
    lemma_kept(content, width);
    lemma_painted_text(source, syntax, base, syntax.len());
    match painted(source, syntax, base, syntax.len()) {
        None => {
            let one = SpanView { text: truncated(content, width), paint: base };
            lemma_row_text_push(Seq::empty(), one);
            assert(Seq::<SpanView>::empty().push(one) =~= seq![one]);
            assert(Seq::<char>::empty() + one.text =~= one.text);
        },
        Some((spans, cursor)) => {
            let k = chars_before(source, cursor) as int;
            let rest = source.subrange(k, source.len() as int);
            let tail = SpanView { text: rest, paint: base };
            let all = if rest.len() == 0 { spans } else { spans.push(tail) };
            lemma_row_text_push(spans, tail);
            assert(source.subrange(0, k) + rest =~= source);
            assert(row_text(all) =~= source);
            let mark = SpanView { text: seq!['…'], paint: base };
            lemma_row_text_push(all, mark);
            if columns(content) > width {
                assert(row_text(all.push(mark)) =~= truncated(content, width));
            } else {
                assert(source =~= content);
                if all.len() == 0 {
                    let one = SpanView { text: Seq::empty(), paint: base };
                    lemma_row_text_push(Seq::empty(), one);
                    assert(Seq::<SpanView>::empty().push(one) =~= seq![one]);
                    assert(content.len() == 0);
                    assert(row_text(seq![one]) =~= content);
                }
            }
        },
    }
}

proof fn lemma_kept(content: Seq<char>, width: nat)
    ensures
        kept(content, width) <= content.len(),
{
    if columns(content) > width && width > 0 {
        crate::text::lemma_fitting(content, content.len(), (width - 1) as nat);
    }
}

/// Colours change no background: each span keeps the element of the line it is part of, and
/// whether that is selected.
pub proof fn lemma_highlighting_keeps_the_background(
    content: Seq<char>,
    syntax: Seq<SyntaxSpan>,
    width: nat,
    base: Paint,
    pad: bool,
    i: int,
)
    requires
        0 <= i < highlighted(content, syntax, width, base, pad).len(),
    ensures
        highlighted(content, syntax, width, base, pad)[i].paint.element == base.element,
        highlighted(content, syntax, width, base, pad)[i].paint.selected == base.selected,
{
    let source = content.subrange(0, kept(content, width) as int);
    lemma_painted_text(source, syntax, base, syntax.len());
}

} // verus!
