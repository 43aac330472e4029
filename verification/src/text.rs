//! Text on a grid: how wide it is, and how it is cut, padded and wrapped to fit.

use vstd::prelude::*;

use crate::strings::{
    characters, collected, concat2, joined, lemma_views_push, repeat, repeated, views,
};

verus! {

/// How many terminal columns `ratatui` counts for a text.
pub uninterp spec fn columns(s: Seq<char>) -> nat;

/// `ratatui::text::Span::width`: the number of columns the text takes on a terminal.
#[verifier::external_body]
pub(crate) fn width(s: &str) -> (w: usize)
    ensures
        w == columns(s@),
{
    ratatui::text::Span::raw(s).width()
}

/// The longest prefix, of at most `n` characters, that fits into `room` columns.
pub open spec fn fitting(s: Seq<char>, n: nat, room: nat) -> nat
    decreases n,
{
    if n == 0 || columns(s.subrange(0, n as int)) <= room {
        n
    } else {
        fitting(s, (n - 1) as nat, room)
    }
}

/// A fitting prefix is a prefix.
pub proof fn lemma_fitting(s: Seq<char>, n: nat, room: nat)
    ensures
        fitting(s, n, room) <= n,
        fitting(s, n, room) > 0 ==> columns(s.subrange(0, fitting(s, n, room) as int)) <= room,
    decreases n,
{
    if n > 0 && columns(s.subrange(0, n as int)) > room {
        lemma_fitting(s, (n - 1) as nat, room);
    }
}

/// A text cut to `room` columns, with an ellipsis where something was cut off.
pub open spec fn truncated(s: Seq<char>, room: nat) -> Seq<char> {
    if columns(s) <= room {
        s
    } else if room == 0 {
        Seq::empty()
    } else {
        s.subrange(0, fitting(s, s.len(), (room - 1) as nat) as int).push('…')
    }
}

/// How many characters of a text are left when it is cut to `room` columns.
pub open spec fn kept(s: Seq<char>, room: nat) -> nat {
    if columns(s) <= room {
        s.len()
    } else if room == 0 {
        0
    } else {
        fitting(s, s.len(), (room - 1) as nat)
    }
}

/// How many characters of `text` are shown in `room` columns, and whether any were cut off.
pub fn fit(text: &str, room: usize) -> (r: (usize, bool))
    ensures
        r.0 == kept(text@, room as nat),
        r.0 <= text@.len(),
        r.1 == (columns(text@) > room),
{
    let chars = characters(text);
    if width(text) <= room {
        return (chars.len(), false);
    }
    if room == 0 {
        return (0, true);
    }
    let mut n: usize = chars.len();
    while n > 0 && width(collected(&chars.as_slice()[0..n]).as_str()) > room - 1
        invariant
            n <= chars@.len(),
            room > 0,
            chars@ == text@,
            fitting(text@, text@.len(), (room - 1) as nat) == fitting(text@, n as nat, (room - 1) as nat),
        decreases n,
    {
        n -= 1;
    }
    (n, true)
}

/// Cuts a text to `room` columns.
pub fn truncate(text: &str, room: usize) -> (out: String)
    ensures
        out@ == truncated(text@, room as nat),
{
    let (n, cut) = fit(text, room);
    if !cut {
        return text.to_owned();
    }
    if room == 0 {
        return String::new();
    }
    let chars = characters(text);
    let mut out = collected(&chars.as_slice()[0..n]);
    out.push('…');
    out
}

/// How many columns are left after `used` of `room`.
pub open spec fn gap(used: nat, room: nat) -> nat {
    if used < room { (room - used) as nat } else { 0 }
}

/// A text cut to `room` columns and filled with spaces behind it.
pub open spec fn padded(s: Seq<char>, room: nat) -> Seq<char> {
    truncated(s, room) + repeated(' ', gap(columns(truncated(s, room)), room))
}

/// A text cut to `room` columns and filled with spaces before it.
pub open spec fn padded_left(s: Seq<char>, room: nat) -> Seq<char> {
    repeated(' ', gap(columns(truncated(s, room)), room)) + truncated(s, room)
}

/// Cuts or fills a text so that it takes `room` columns, starting at the left.
pub fn pad(text: &str, room: usize) -> (out: String)
    ensures
        out@ == padded(text@, room as nat),
{
    let cut = truncate(text, room);
    let fill: usize = room.saturating_sub(width(cut.as_str()));
    concat2(cut.as_str(), repeat(' ', fill).as_str())
}

/// Cuts or fills a text so that it takes `room` columns, ending at the right.
pub fn pad_left(text: &str, room: usize) -> (out: String)
    ensures
        out@ == padded_left(text@, room as nat),
{
    let cut = truncate(text, room);
    let fill: usize = room.saturating_sub(width(cut.as_str()));
    concat2(repeat(' ', fill).as_str(), cut.as_str())
}

/// A text followed by spaces up to `n` characters.
pub open spec fn aligned_left(s: Seq<char>, n: nat) -> Seq<char> {
    s + repeated(' ', gap(s.len(), n))
}

/// A text preceded by spaces up to `n` characters.
pub open spec fn aligned_right(s: Seq<char>, n: nat) -> Seq<char> {
    repeated(' ', gap(s.len(), n)) + s
}

/// Fills a text with spaces behind it, up to `n` characters.
pub fn align_left(text: &str, n: usize) -> (out: String)
    ensures
        out@ == aligned_left(text@, n as nat),
{
    let fill: usize = n.saturating_sub(text.unicode_len());
    concat2(text, repeat(' ', fill).as_str())
}

/// Fills a text with spaces before it, up to `n` characters.
pub fn align_right(text: &str, n: usize) -> (out: String)
    ensures
        out@ == aligned_right(text@, n as nat),
{
    let fill: usize = n.saturating_sub(text.unicode_len());
    concat2(repeat(' ', fill).as_str(), text)
}

/// How a wrapped line is measured.
#[derive(Debug, Clone, Copy, PartialEq, Eq, Structural)]
pub enum Measure {
    /// By characters.
    Chars,
    /// By the bytes of its UTF-8 encoding.
    Bytes,
}

/// The size of a text by the given measure.
pub open spec fn size_of_text(s: Seq<char>, by: Measure) -> nat {
    match by {
        Measure::Chars => s.len(),
        Measure::Bytes => vstd::utf8::encode_utf8(s).len(),
    }
}

fn measured(text: &str, by: Measure) -> (n: usize)
    ensures
        n == size_of_text(text@, by),
{
    match by {
        Measure::Chars => text.unicode_len(),
        Measure::Bytes => text.as_bytes().len(),
    }
}

/// Whether a word still fits behind `current`, with a space between them.
pub open spec fn joins(current: Seq<char>, word: Seq<char>, room: nat, by: Measure) -> bool {
    size_of_text(current, by) + 1 + size_of_text(word, by) <= room
}

/// The lines that `words` fill when the line begun so far is `current`.
pub open spec fn filled(current: Seq<char>, words: Seq<Seq<char>>, room: nat, by: Measure) -> Seq<
    Seq<char>,
>
    decreases words.len(),
{
    if words.len() == 0 {
        if current.len() == 0 {
            Seq::empty()
        } else {
            seq![current]
        }
    } else if current.len() == 0 {
        filled(words[0], words.drop_first(), room, by)
    } else if joins(current, words[0], room, by) {
        filled(current.push(' ') + words[0], words.drop_first(), room, by)
    } else {
        seq![current] + filled(words[0], words.drop_first(), room, by)
    }
}

/// Fills lines with words, taking as many as fit on each; a word that fits nowhere gets a line
/// of its own.
pub fn fill(words: &Vec<String>, room: usize, by: Measure) -> (out: Vec<String>)
    ensures
        views(out@) == filled(Seq::empty(), views(words@), room as nat, by),
{
    broadcast use lemma_views_push;
    let mut out: Vec<String> = Vec::new();
    let mut current = String::new();
    let mut i: usize = 0;
    let ghost all = views(words@);
    assert(all.subrange(0, all.len() as int) =~= all);
    assert(views(out@) + filled(current@, all, room as nat, by) =~= filled(
        current@,
        all,
        room as nat,
        by,
    ));
    while i < words.len()
        invariant
            i <= words@.len(),
            all == views(words@),
            views(out@) + filled(
                current@,
                all.subrange(i as int, all.len() as int),
                room as nat,
                by,
            ) == filled(Seq::empty(), all, room as nat, by),
        decreases words@.len() - i,
    {
        let word: &String = &words[i];
        let ghost rest = all.subrange(i as int, all.len() as int);
        let ghost before = views(out@);
        let ghost held = current@;
        proof {
            assert(rest[0] == word@);
            assert(rest.drop_first() =~= all.subrange(i + 1, all.len() as int));
        }
        if current.as_str().is_empty() {
            current = word.clone();
        } else {
            let a: usize = measured(current.as_str(), by);
            let b: usize = measured(word.as_str(), by);
            if b < room && a <= room - 1 - b {
                current.push(' ');
                current.append(word.as_str());
            } else {
                out.push(current);
                current = word.clone();
                assert(before.push(held) + filled(word@, rest.drop_first(), room as nat, by) =~= before
                    + (seq![held] + filled(word@, rest.drop_first(), room as nat, by)));
            }
        }
        i += 1;
    }
    assert(all.subrange(i as int, all.len() as int) =~= Seq::empty());
    if !current.as_str().is_empty() {
        let ghost before = views(out@);
        let ghost held = current@;
        out.push(current);
        assert(before.push(held) =~= before + seq![held]);
    } else {
        assert(views(out@) + Seq::<Seq<char>>::empty() =~= views(out@));
    }
    out
}

proof fn lemma_joined_front(parts: Seq<Seq<char>>, sep: Seq<char>)
    requires
        parts.len() >= 2,
    ensures
        joined(parts, sep) == parts[0] + sep + joined(parts.drop_first(), sep),
    decreases parts.len(),
{
    let tail = parts.drop_first();
    if parts.len() == 2 {
        assert(parts.drop_last() =~= seq![parts[0]]);
        assert(tail =~= seq![parts[1]]);
        assert(joined(parts.drop_last(), sep) == parts[0]);
        assert(joined(tail, sep) == parts.last());
        assert(joined(parts, sep) == parts[0] + sep + parts.last());
    } else {
        lemma_joined_front(parts.drop_last(), sep);
        assert(parts.drop_last().drop_first() =~= tail.drop_last());
        assert(joined(parts, sep) =~= parts[0] + sep + joined(tail, sep));
    }
}

proof fn lemma_joined_merge(a: Seq<char>, b: Seq<char>, rest: Seq<Seq<char>>, sep: Seq<char>)
    ensures
        joined(seq![a + sep + b] + rest, sep) == joined(seq![a, b] + rest, sep),
{
    let merged = seq![a + sep + b] + rest;
    let apart = seq![a, b] + rest;
    lemma_joined_front(apart, sep);
    let tail = apart.drop_first();
    assert(tail =~= seq![b] + rest);
    if rest.len() == 0 {
        assert(merged =~= seq![a + sep + b]);
        assert(tail =~= seq![b]);
    } else {
        lemma_joined_front(merged, sep);
        lemma_joined_front(tail, sep);
        assert(merged.drop_first() =~= rest);
        assert(tail.drop_first() =~= rest);
        assert(joined(merged, sep) =~= joined(apart, sep));
    }
}

proof fn lemma_filled_keeps(current: Seq<char>, words: Seq<Seq<char>>, room: nat, by: Measure)
    requires
        current.len() > 0,
        forall|i: int| 0 <= i < words.len() ==> (#[trigger] words[i]).len() > 0,
    ensures
        filled(current, words, room, by).len() > 0,
        joined(filled(current, words, room, by), seq![' ']) == joined(
            seq![current] + words,
            seq![' '],
        ),
    decreases words.len(),
{
    let sep = seq![' '];
    if words.len() == 0 {
        assert(seq![current] + words =~= seq![current]);
    } else {
        let rest = words.drop_first();
        assert forall|i: int| 0 <= i < rest.len() implies (#[trigger] rest[i]).len() > 0 by {
            assert(rest[i] == words[i + 1]);
        }
        assert(seq![words[0]] + rest =~= words);
        if joins(current, words[0], room, by) {
            let both = current.push(' ') + words[0];
            assert(both =~= current + sep + words[0]);
            lemma_filled_keeps(both, rest, room, by);
            lemma_joined_merge(current, words[0], rest, sep);
            assert(seq![current, words[0]] + rest =~= seq![current] + words);
        } else {
            lemma_filled_keeps(words[0], rest, room, by);
            let tail = filled(words[0], rest, room, by);
            let lines = seq![current] + tail;
            lemma_joined_front(lines, sep);
            assert(lines.drop_first() =~= tail);
            let parts = seq![current] + words;
            lemma_joined_front(parts, sep);
            assert(parts.drop_first() =~= words);
        }
    }
}

/// Nothing is lost in the wrapping: the lines, joined by single spaces, are the words joined by
/// single spaces.
pub proof fn lemma_wrapping_keeps_every_word(words: Seq<Seq<char>>, room: nat, by: Measure)
    requires
        forall|i: int| 0 <= i < words.len() ==> (#[trigger] words[i]).len() > 0,
    ensures
        joined(filled(Seq::empty(), words, room, by), seq![' ']) == joined(words, seq![' ']),
{
    if words.len() > 0 {
        let rest = words.drop_first();
        assert forall|i: int| 0 <= i < rest.len() implies (#[trigger] rest[i]).len() > 0 by {
            assert(rest[i] == words[i + 1]);
        }
        lemma_filled_keeps(words[0], rest, room, by);
        assert(seq![words[0]] + rest =~= words);
    }
}

proof fn lemma_encode_concat(a: Seq<char>, b: Seq<char>)
    ensures
        vstd::utf8::encode_utf8(a + b) == vstd::utf8::encode_utf8(a) + vstd::utf8::encode_utf8(b),
    decreases a.len(),
{
    if a.len() == 0 {
        assert(a + b =~= b);
        assert(vstd::utf8::encode_utf8(a) =~= Seq::empty());
        assert(Seq::<u8>::empty() + vstd::utf8::encode_utf8(b) =~= vstd::utf8::encode_utf8(b));
    } else {
        lemma_encode_concat(a.drop_first(), b);
        assert((a + b).drop_first() =~= a.drop_first() + b);
        assert(vstd::utf8::encode_utf8(a + b) =~= vstd::utf8::encode_utf8(a) + vstd::utf8::encode_utf8(b));
    }
}

/// A line and a word take the room of both and of the space between them.
pub proof fn lemma_size_joined(a: Seq<char>, b: Seq<char>, by: Measure)
    ensures
        size_of_text(a.push(' ') + b, by) == size_of_text(a, by) + 1 + size_of_text(b, by),
{
    if by == Measure::Bytes {
        let space = seq![' '];
        lemma_encode_concat(a.push(' '), b);
        assert(a.push(' ') =~= a + space);
        lemma_encode_concat(a, space);
        assert(vstd::utf8::is_ascii_chars(space));
        vstd::utf8::is_ascii_chars_encode_utf8(space);
    }
}

proof fn lemma_filled_fits(current: Seq<char>, words: Seq<Seq<char>>, room: nat, by: Measure, i: int)
    requires
        0 <= i < filled(current, words, room, by).len(),
        current.len() == 0 || size_of_text(current, by) <= room || i > 0,
    ensures
        size_of_text(filled(current, words, room, by)[i], by) <= room || words.contains(
            filled(current, words, room, by)[i],
        ),
    decreases words.len(), 0nat,
{
    if words.len() > 0 {
        let word = words[0];
        let rest = words.drop_first();
        assert(words.contains(word));
        assert forall|w: Seq<char>| rest.contains(w) implies words.contains(w) by {
            let k = rest.index_of(w);
            assert(words[k + 1] == w);
        }
        if current.len() == 0 {
            lemma_filled_word(word, rest, room, by, i);
        } else if joins(current, word, room, by) {
            lemma_size_joined(current, word, by);
            lemma_filled_fits(current.push(' ') + word, rest, room, by, i);
        } else if i > 0 {
            lemma_filled_word(word, rest, room, by, i - 1);
        }
    }
}

proof fn lemma_filled_word(word: Seq<char>, rest: Seq<Seq<char>>, room: nat, by: Measure, i: int)
    requires
        0 <= i < filled(word, rest, room, by).len(),
    ensures
        ({
            let line = filled(word, rest, room, by)[i];
            size_of_text(line, by) <= room || line == word || rest.contains(line)
        }),
    decreases rest.len(), 1nat,
{
    if i > 0 || word.len() == 0 || size_of_text(word, by) <= room {
        lemma_filled_fits(word, rest, room, by, i);
    } else if rest.len() > 0 && joins(word, rest[0], room, by) {
        lemma_size_joined(word, rest[0], by);
        lemma_filled_fits(word, rest, room, by, i);
    }
}

/// A wrapped line is no longer than the room, unless it is a single word that is.
pub proof fn lemma_wrapped_lines_fit(words: Seq<Seq<char>>, room: nat, by: Measure, i: int)
    requires
        0 <= i < filled(Seq::empty(), words, room, by).len(),
    ensures
        size_of_text(filled(Seq::empty(), words, room, by)[i], by) <= room || words.contains(
            filled(Seq::empty(), words, room, by)[i],
        ),
{
    lemma_filled_fits(Seq::empty(), words, room, by, i);
}

/// A text that fits is not cut. One that does not keeps its longest beginning that leaves room for
/// the ellipsis, which then stands behind it; without any room nothing is left.
pub proof fn lemma_cutting_keeps_the_longest_beginning(s: Seq<char>, room: nat, k: nat)
    ensures
        columns(s) <= room ==> truncated(s, room) == s,
        columns(s) > room && room == 0 ==> truncated(s, room).len() == 0,
        columns(s) > room && room > 0 ==> {
            let cut = truncated(s, room);
            let left = (cut.len() - 1) as nat;
            &&& cut.len() > 0
            &&& cut.last() == '…'
            &&& left <= s.len()
            &&& cut.drop_last() == s.subrange(0, left as int)
            &&& left < k <= s.len() ==> columns(s.subrange(0, k as int)) > room - 1
        },
{
    if columns(s) > room && room > 0 {
        let left = fitting(s, s.len(), (room - 1) as nat);
        lemma_fitting(s, s.len(), (room - 1) as nat);
        assert(truncated(s, room).drop_last() =~= s.subrange(0, left as int));
        if left < k <= s.len() {
            lemma_nothing_longer_fits(s, s.len(), (room - 1) as nat, k);
        }
    }
}

proof fn lemma_nothing_longer_fits(s: Seq<char>, n: nat, room: nat, k: nat)
    requires
        fitting(s, n, room) < k <= n,
    ensures
        columns(s.subrange(0, k as int)) > room,
    decreases n,
{
    if k < n {
        lemma_nothing_longer_fits(s, (n - 1) as nat, room, k);
    }
}

/// A text aligned to the left stands first, one aligned to the right last; blanks take the rest,
/// and a text that is long enough has none.
pub proof fn lemma_aligning_fills_with_blanks(s: Seq<char>, n: nat, k: int)
    ensures
        aligned_left(s, n).len() == if s.len() < n { n } else { s.len() },
        aligned_left(s, n).subrange(0, s.len() as int) == s,
        s.len() <= k < n ==> aligned_left(s, n)[k] == ' ',
        aligned_right(s, n).len() == if s.len() < n { n } else { s.len() },
        aligned_right(s, n).subrange(aligned_right(s, n).len() - s.len(), aligned_right(s, n).len() as int) == s,
        0 <= k < n - s.len() ==> aligned_right(s, n)[k] == ' ',
{
    assert(aligned_left(s, n).subrange(0, s.len() as int) =~= s);
    assert(aligned_right(s, n).subrange(
        aligned_right(s, n).len() - s.len(),
        aligned_right(s, n).len() as int,
    ) =~= s);
}

/// A text padded behind stands first, and one padded in front last, cut where it has to be.
pub proof fn lemma_padding_keeps_the_text(s: Seq<char>, room: nat)
    ensures
        padded(s, room).subrange(0, truncated(s, room).len() as int) == truncated(s, room),
        padded_left(s, room).subrange(
            padded_left(s, room).len() - truncated(s, room).len(),
            padded_left(s, room).len() as int,
        ) == truncated(s, room),
        padded(s, room).len() == padded_left(s, room).len(),
{
    assert(padded(s, room).subrange(0, truncated(s, room).len() as int) =~= truncated(s, room));
    assert(padded_left(s, room).subrange(
        padded_left(s, room).len() - truncated(s, room).len(),
        padded_left(s, room).len() as int,
    ) =~= truncated(s, room));
}

} // verus!
