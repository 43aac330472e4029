//! Strings as sequences of characters: building them, splitting them and writing numbers.

use vstd::prelude::*;

verus! {

/// `String::push`: appends one character and changes nothing else.
pub assume_specification[ String::push ](s: &mut String, c: char)
    ensures
        final(s)@ == old(s)@.push(c),
;

/// Whether a character has the Unicode `White_Space` property: the tabs and line ends, the blank,
/// the next line, the spaces of fixed and of varying width, and the line and paragraph separators.
pub open spec fn whitespace(c: char) -> bool {
    let n = c as u32;
    ||| 0x9 <= n <= 0xd
    ||| n == 0x20
    ||| n == 0x85
    ||| n == 0xa0
    ||| n == 0x1680
    ||| 0x2000 <= n <= 0x200a
    ||| n == 0x2028
    ||| n == 0x2029
    ||| n == 0x202f
    ||| n == 0x205f
    ||| n == 0x3000
}

/// `char::is_whitespace`: whether the character has the `White_Space` property.
pub assume_specification[ char::is_whitespace ](c: char) -> (b: bool)
    ensures
        b == whitespace(c),
;

/// `<str as PartialEq>::eq`: two strings are equal when their characters are.
pub assume_specification[ <str as PartialEq<str>>::eq ](a: &str, b: &str) -> (answer: bool)
    ensures
        answer == (a@ == b@),
;

/// Whether a text holds visible ASCII characters and blanks only, and neither quotes nor
/// backslashes.
pub open spec fn unescaped(s: Seq<char>) -> bool {
    forall|i: int|
        0 <= i < s.len() ==> ' ' <= #[trigger] s[i] <= '~' && s[i] != '"' && s[i] != '\\' && s[i] != '\''
}

/// What `{:?}` writes for a text.
pub uninterp spec fn debugged(s: Seq<char>) -> Seq<char>;

/// `<str as Debug>::fmt`, by `format!`: the text in quotes, with what is not printable, a quote or a
/// backslash in it escaped. Which characters are escaped, and how, is left to the name, but for
/// those that never are.
#[verifier::external_body]
pub(crate) fn debug(s: &str) -> (out: String)
    ensures
        out@ == debugged(s@),
        unescaped(s@) ==> out@ == "\""@ + s@ + "\""@,
{
    format!("{:?}", s)
}

/// Whether two strings hold the same characters.
pub fn same(a: &str, b: &str) -> (r: bool)
    ensures
        r == (a@ == b@),
{
    *a == *b
}

/// The characters of a string, one by one.
pub fn characters(s: &str) -> (out: Vec<char>)
    ensures
        out@ == s@,
{
    let mut out: Vec<char> = Vec::new();
    for c in it: s.chars()
        invariant
            it.seq() == s@,
            out@ == s@.subrange(0, it.index() as int),
    {
        out.push(c);
        assert(s@.subrange(0, it.index() + 1) =~= s@.subrange(0, it.index() as int).push(
            s@[it.index() as int],
        ));
    }
    assert(s@.subrange(0, s@.len() as int) =~= s@);
    out
}

/// A string holding the given characters.
pub fn collected(chars: &[char]) -> (out: String)
    ensures
        out@ == chars@,
{
    let mut out = String::new();
    let mut i: usize = 0;
    while i < chars.len()
        invariant
            i <= chars@.len(),
            out@ == chars@.subrange(0, i as int),
        decreases chars@.len() - i,
    {
        out.push(chars[i]);
        i += 1;
        assert(chars@.subrange(0, i as int) =~= chars@.subrange(0, i - 1).push(chars@[i - 1]));
    }
    assert(chars@.subrange(0, i as int) =~= chars@);
    out
}

/// The strings' characters, string by string.
pub open spec fn views(parts: Seq<String>) -> Seq<Seq<char>> {
    parts.map_values(|part: String| part@)
}

/// Adding a string adds its characters at the end.
pub broadcast proof fn lemma_views_push(parts: Seq<String>, part: String)
    ensures
        #[trigger] views(parts.push(part)) == views(parts).push(part@),
{
    assert(views(parts.push(part)) =~= views(parts).push(part@));
}

/// The decimal digit of a number below ten.
pub open spec fn digit(d: nat) -> char {
    if d == 0 { '0' } else if d == 1 { '1' } else if d == 2 { '2' } else if d == 3 { '3' }
    else if d == 4 { '4' } else if d == 5 { '5' } else if d == 6 { '6' } else if d == 7 { '7' }
    else if d == 8 { '8' } else { '9' }
}

/// A number written in decimal, without leading zeros.
pub open spec fn decimal(n: nat) -> Seq<char>
    decreases n,
{
    if n < 10 {
        seq![digit(n)]
    } else {
        decimal(n / 10).push(digit(n % 10))
    }
}

/// Numbers are written with digits only, and no two of them alike.
pub proof fn lemma_decimal_is_unique(a: nat, b: nat)
    ensures
        decimal(a).len() > 0,
        forall|i: int| 0 <= i < decimal(a).len() ==> '0' <= #[trigger] decimal(a)[i] <= '9',
        decimal(a) == decimal(b) ==> a == b,
    decreases a + b,
{
    if a >= 10 {
        lemma_decimal_is_unique(a / 10, b / 10);
    }
    if decimal(a) == decimal(b) {
        if a >= 10 && b >= 10 {
            assert(decimal(a).drop_last() =~= decimal(a / 10));
            assert(decimal(b).drop_last() =~= decimal(b / 10));
            assert(decimal(a).last() == digit(a % 10));
            assert(decimal(b).last() == digit(b % 10));
            assert(a % 10 == b % 10);
        } else if a < 10 && b < 10 {
            assert(decimal(a)[0] == digit(a));
            assert(decimal(b)[0] == digit(b));
        } else if a >= 10 {
            assert(decimal(b).len() == 1);
            assert(decimal(a).len() >= 2);
        } else {
            lemma_decimal_is_unique(b / 10, 0);
            assert(decimal(a).len() == 1);
            assert(decimal(b).len() >= 2);
        }
    }
}

fn digit_char(d: u64) -> (c: char)
    requires
        d < 10,
    ensures
        c == digit(d as nat),
{
    if d == 0 { '0' } else if d == 1 { '1' } else if d == 2 { '2' } else if d == 3 { '3' }
    else if d == 4 { '4' } else if d == 5 { '5' } else if d == 6 { '6' } else if d == 7 { '7' }
    else if d == 8 { '8' } else { '9' }
}

/// Writes a number in decimal.
pub fn number(n: u64) -> (out: String)
    ensures
        out@ == decimal(n as nat),
    decreases n,
{
    let mut out: String = if n < 10 { String::new() } else { number(n / 10) };
    out.push(digit_char(n % 10));
    proof {
        if n < 10 {
            assert(Seq::<char>::empty().push(digit(n as nat)) =~= seq![digit(n as nat)]);
        }
    }
    out
}

/// The same character, `n` times.
pub open spec fn repeated(c: char, n: nat) -> Seq<char> {
    Seq::new(n, |i: int| c)
}

/// A string of `n` times the same character.
pub fn repeat(c: char, n: usize) -> (out: String)
    ensures
        out@ == repeated(c, n as nat),
{
    let mut out = String::new();
    let mut i: usize = 0;
    while i < n
        invariant
            i <= n,
            out@ == repeated(c, i as nat),
        decreases n - i,
    {
        out.push(c);
        i += 1;
        assert(repeated(c, i as nat) =~= repeated(c, (i - 1) as nat).push(c));
    }
    out
}

/// Two strings, one after the other.
pub fn concat2(a: &str, b: &str) -> (out: String)
    ensures
        out@ == a@ + b@,
{
    let mut out: String = a.to_owned();
    out.append(b);
    out
}

/// Three strings, one after the other.
pub fn concat3(a: &str, b: &str, c: &str) -> (out: String)
    ensures
        out@ == a@ + b@ + c@,
{
    let mut out: String = a.to_owned();
    out.append(b);
    out.append(c);
    out
}

/// Four strings, one after the other.
pub fn concat4(a: &str, b: &str, c: &str, d: &str) -> (out: String)
    ensures
        out@ == a@ + b@ + c@ + d@,
{
    let mut out: String = a.to_owned();
    out.append(b);
    out.append(c);
    out.append(d);
    out
}

/// Five strings, one after the other.
pub fn concat5(a: &str, b: &str, c: &str, d: &str, e: &str) -> (out: String)
    ensures
        out@ == a@ + b@ + c@ + d@ + e@,
{
    let mut out: String = a.to_owned();
    out.append(b);
    out.append(c);
    out.append(d);
    out.append(e);
    out
}

/// The parts in order, with `sep` between neighbours.
pub open spec fn joined(parts: Seq<Seq<char>>, sep: Seq<char>) -> Seq<char>
    decreases parts.len(),
{
    if parts.len() == 0 {
        Seq::empty()
    } else if parts.len() == 1 {
        parts[0]
    } else {
        joined(parts.drop_last(), sep) + sep + parts.last()
    }
}

/// Joins strings with a separator.
pub fn join(parts: &Vec<String>, sep: &str) -> (out: String)
    ensures
        out@ == joined(views(parts@), sep@),
{
    let mut out = String::new();
    let mut i: usize = 0;
    while i < parts.len()
        invariant
            i <= parts@.len(),
            out@ == joined(views(parts@).subrange(0, i as int), sep@),
        decreases parts@.len() - i,
    {
        if i > 0 {
            out.append(sep);
        }
        out.append(parts[i].as_str());
        i += 1;
        proof {
            let now = views(parts@).subrange(0, i as int);
            assert(now.drop_last() =~= views(parts@).subrange(0, i - 1));
            assert(now.last() == parts@[i - 1]@);
            if i == 1 {
                assert(Seq::<char>::empty() + parts@[0]@ =~= parts@[0]@);
            }
        }
    }
    assert(views(parts@).subrange(0, i as int) =~= views(parts@));
    out
}

/// Where the first `c` stands, or the length where there is none.
pub open spec fn first_of(s: Seq<char>, c: char) -> nat
    decreases s.len(),
{
    if s.len() == 0 || s[0] == c {
        0
    } else {
        1 + first_of(s.drop_first(), c)
    }
}

proof fn lemma_first_of(s: Seq<char>, c: char, n: nat)
    requires
        n <= s.len(),
        forall|i: int| 0 <= i < n ==> s[i] != c,
        n < s.len() ==> s[n as int] == c,
    ensures
        first_of(s, c) == n,
    decreases s.len(),
{
    if n > 0 {
        lemma_first_of(s.drop_first(), c, (n - 1) as nat);
    }
}

/// The first `c` is where nothing before it is `c`.
pub proof fn lemma_first_of_bound(s: Seq<char>, c: char)
    ensures
        first_of(s, c) <= s.len(),
        first_of(s, c) < s.len() ==> s[first_of(s, c) as int] == c,
        forall|i: int| 0 <= i < first_of(s, c) ==> s[i] != c,
    decreases s.len(),
{
    if s.len() > 0 && s[0] != c {
        lemma_first_of_bound(s.drop_first(), c);
        assert forall|i: int| 0 <= i < first_of(s, c) implies s[i] != c by {
            if i > 0 {
                assert(s.drop_first()[i - 1] == s[i]);
            }
        }
    }
}

/// The parts of a text between the separators; two in a row have an empty part between them.
pub open spec fn parts_of(s: Seq<char>, sep: char) -> Seq<Seq<char>>
    decreases s.len(),
    via parts_of_decreases
{
    if first_of(s, sep) >= s.len() {
        seq![s]
    } else {
        let n = first_of(s, sep);
        seq![s.subrange(0, n as int)] + parts_of(s.subrange(n as int + 1, s.len() as int), sep)
    }
}

#[via_fn]
proof fn parts_of_decreases(s: Seq<char>, sep: char) {
    lemma_first_of_bound(s, sep);
}

/// Splits a text at each separator.
pub fn split(text: &str, sep: char) -> (out: Vec<String>)
    ensures
        views(out@) == parts_of(text@, sep),
        out@.len() > 0,
{
    broadcast use lemma_views_push;
    let chars = characters(text);
    let mut out: Vec<String> = Vec::new();
    let mut start: usize = 0;
    let mut i: usize = 0;
    assert(chars@.subrange(0, chars@.len() as int) =~= chars@);
    assert(views(out@) + parts_of(chars@, sep) =~= parts_of(chars@, sep));
    while i < chars.len()
        invariant
            start <= i <= chars@.len(),
            chars@ == text@,
            forall|j: int| start <= j < i ==> chars@[j] != sep,
            views(out@) + parts_of(chars@.subrange(start as int, chars@.len() as int), sep)
                == parts_of(chars@, sep),
        decreases chars@.len() - i,
    {
        if chars[i] == sep {
            let ghost rest = chars@.subrange(start as int, chars@.len() as int);
            let ghost before = views(out@);
            let ghost n = i - start;
            proof {
                lemma_first_of(rest, sep, n as nat);
            }
            let part = collected(&chars.as_slice()[start..i]);
            out.push(part);
            start = i + 1;
            proof {
                assert(part@ =~= rest.subrange(0, n));
                let after = rest.subrange(n + 1, rest.len() as int);
                assert(after =~= chars@.subrange(start as int, chars@.len() as int));
                assert(before.push(part@) + parts_of(after, sep) =~= before + (seq![part@]
                    + parts_of(after, sep)));
            }
        }
        i += 1;
    }
    let ghost rest = chars@.subrange(start as int, chars@.len() as int);
    let ghost before = views(out@);
    proof {
        lemma_first_of(rest, sep, rest.len());
    }
    let part = collected(&chars.as_slice()[start..chars.len()]);
    out.push(part);
    assert(before.push(part@) =~= before + seq![part@]);
    out
}

/// Whether `a` comes before `b` in the order of their characters' code points.
pub open spec fn precedes(a: Seq<char>, b: Seq<char>) -> bool
    decreases a.len(),
{
    if b.len() == 0 {
        false
    } else if a.len() == 0 {
        true
    } else if a[0] != b[0] {
        (a[0] as int) < (b[0] as int)
    } else {
        precedes(a.drop_first(), b.drop_first())
    }
}

fn code_point(c: char) -> (n: u32)
    ensures
        n == c as int,
{
    c as u32
}

/// Whether `a` comes before `b` in the order of their characters' code points, which is also the
/// order of their bytes.
pub fn is_before(a: &str, b: &str) -> (r: bool)
    ensures
        r == precedes(a@, b@),
{
    let xs = characters(a);
    let ys = characters(b);
    let mut i: usize = 0;
    assert(xs@.subrange(0, xs@.len() as int) =~= xs@);
    assert(ys@.subrange(0, ys@.len() as int) =~= ys@);
    while i < xs.len() && i < ys.len()
        invariant
            i <= xs@.len(),
            i <= ys@.len(),
            xs@ == a@,
            ys@ == b@,
            precedes(
                xs@.subrange(i as int, xs@.len() as int),
                ys@.subrange(i as int, ys@.len() as int),
            ) == precedes(a@, b@),
        decreases xs@.len() - i,
    {
        if xs[i] != ys[i] {
            return code_point(xs[i]) < code_point(ys[i]);
        }
        assert(xs@.subrange(i as int, xs@.len() as int).drop_first() =~= xs@.subrange(
            i + 1,
            xs@.len() as int,
        ));
        assert(ys@.subrange(i as int, ys@.len() as int).drop_first() =~= ys@.subrange(
            i + 1,
            ys@.len() as int,
        ));
        i += 1;
    }
    i < ys.len()
}

/// Where a text goes among texts that are in order: before the first that it precedes.
pub open spec fn inserted(sorted: Seq<Seq<char>>, s: Seq<char>) -> Seq<Seq<char>>
    decreases sorted.len(),
{
    if sorted.len() > 0 && precedes(s, sorted.last()) {
        inserted(sorted.drop_last(), s).push(sorted.last())
    } else {
        sorted.push(s)
    }
}

/// Texts in order.
pub open spec fn sorted_of(parts: Seq<Seq<char>>) -> Seq<Seq<char>>
    decreases parts.len(),
{
    if parts.len() == 0 {
        Seq::empty()
    } else {
        inserted(sorted_of(parts.drop_last()), parts.last())
    }
}

/// Whether no text comes after one that it precedes.
pub open spec fn in_order(parts: Seq<Seq<char>>) -> bool {
    forall|i: int, j: int|
        0 <= i < j < parts.len() ==> !precedes(#[trigger] parts[j], #[trigger] parts[i])
}

proof fn lemma_inserted(sorted: Seq<Seq<char>>, s: Seq<char>)
    ensures
        inserted(sorted, s).to_multiset() == sorted.to_multiset().insert(s),
    decreases sorted.len(),
{
    broadcast use vstd::seq_lib::group_to_multiset_ensures;

    if sorted.len() > 0 && precedes(s, sorted.last()) {
        lemma_inserted(sorted.drop_last(), s);
        let front = sorted.drop_last();
        assert(sorted =~= front.push(sorted.last()));
        assert(front.to_multiset().insert(s).insert(sorted.last()) =~= front.to_multiset().insert(
            sorted.last(),
        ).insert(s));
    }
}

/// Putting texts in order loses none and adds none.
pub proof fn lemma_sorting_keeps_every_text(parts: Seq<Seq<char>>)
    ensures
        sorted_of(parts).to_multiset() == parts.to_multiset(),
    decreases parts.len(),
{
    broadcast use vstd::seq_lib::group_to_multiset_ensures;

    if parts.len() > 0 {
        lemma_sorting_keeps_every_text(parts.drop_last());
        lemma_inserted(sorted_of(parts.drop_last()), parts.last());
        assert(parts =~= parts.drop_last().push(parts.last()));
    } else {
        assert(parts =~= Seq::empty());
    }
}

/// Of two texts one precedes the other, or they are the same.
pub proof fn lemma_precedes_total(a: Seq<char>, b: Seq<char>)
    ensures
        precedes(a, b) || precedes(b, a) || a == b,
        !(precedes(a, b) && precedes(b, a)),
    decreases a.len(),
{
    if a.len() > 0 && b.len() > 0 && a[0] == b[0] {
        lemma_precedes_total(a.drop_first(), b.drop_first());
        assert(a =~= seq![a[0]] + a.drop_first());
        assert(b =~= seq![b[0]] + b.drop_first());
    } else if a.len() == 0 && b.len() == 0 {
        assert(a =~= b);
    }
}

/// What precedes a text that precedes another precedes that one.
pub proof fn lemma_precedes_transitive(a: Seq<char>, b: Seq<char>, c: Seq<char>)
    requires
        precedes(a, b),
        precedes(b, c),
    ensures
        precedes(a, c),
    decreases a.len(),
{
    if a.len() > 0 && b.len() > 0 && c.len() > 0 && a[0] == b[0] && b[0] == c[0] {
        lemma_precedes_transitive(a.drop_first(), b.drop_first(), c.drop_first());
    }
}

proof fn lemma_inserted_in_order(sorted: Seq<Seq<char>>, s: Seq<char>)
    requires
        in_order(sorted),
    ensures
        in_order(inserted(sorted, s)),
        forall|i: int|
            0 <= i < inserted(sorted, s).len() ==> (#[trigger] inserted(sorted, s)[i]) == s
                || sorted.contains(inserted(sorted, s)[i]),
    decreases sorted.len(),
{
    if sorted.len() > 0 && precedes(s, sorted.last()) {
        let front = sorted.drop_last();
        let last = sorted.last();
        lemma_inserted_in_order(front, s);
        let after = inserted(front, s);
        assert forall|i: int| 0 <= i < after.len() implies !precedes(last, #[trigger] after[i]) by {
            if after[i] == s {
                lemma_precedes_total(s, last);
            } else {
                let k = choose|k: int| 0 <= k < front.len() && front[k] == after[i];
                assert(sorted[k] == after[i]);
                assert(sorted[sorted.len() - 1] == last);
            }
        }
        assert forall|i: int| 0 <= i < after.len() && after[i] != s implies sorted.contains(
            #[trigger] after[i],
        ) by {
            let k = choose|k: int| 0 <= k < front.len() && front[k] == after[i];
            assert(sorted[k] == after[i]);
        }
        assert(sorted[sorted.len() - 1] == last);
    } else {
        let after = sorted.push(s);
        assert forall|i: int| 0 <= i < sorted.len() implies !precedes(s, #[trigger] sorted[i]) by {
            if precedes(s, sorted[i]) && i < sorted.len() - 1 {
                lemma_precedes_total(sorted[i], sorted.last());
                if precedes(sorted[i], sorted.last()) {
                    lemma_precedes_transitive(s, sorted[i], sorted.last());
                } else {
                    assert(sorted[sorted.len() - 1] == sorted.last());
                }
            }
        }
        assert forall|i: int| 0 <= i < after.len() && (#[trigger] after[i]) != s implies sorted.contains(
            after[i],
        ) by {
            assert(sorted[i] == after[i]);
        }
    }
}

/// Texts put in order are in order.
pub proof fn lemma_sorting_orders(parts: Seq<Seq<char>>)
    ensures
        in_order(sorted_of(parts)),
    decreases parts.len(),
{
    if parts.len() > 0 {
        lemma_sorting_orders(parts.drop_last());
        lemma_inserted_in_order(sorted_of(parts.drop_last()), parts.last());
    }
}

fn insert_sorted(sorted: &mut Vec<String>, s: String)
    ensures
        views(final(sorted)@) == inserted(views(old(sorted)@), s@),
{
    let ghost all = views(sorted@);
    let mut at: usize = sorted.len();
    assert(all.subrange(0, at as int) =~= all);
    assert(inserted(all.subrange(0, at as int), s@) + all.subrange(at as int, all.len() as int)
        =~= inserted(all, s@));
    while at > 0 && is_before(s.as_str(), sorted[at - 1].as_str())
        invariant
            at <= sorted@.len(),
            all == views(sorted@),
            inserted(all, s@) == inserted(all.subrange(0, at as int), s@) + all.subrange(
                at as int,
                all.len() as int,
            ),
        decreases at,
    {
        proof {
            let now = all.subrange(0, at as int);
            let next = all.subrange(0, at - 1);
            assert(now.drop_last() =~= next);
            assert(now.last() == all[at - 1]);
            assert(inserted(now, s@) + all.subrange(at as int, all.len() as int) =~= inserted(
                next,
                s@,
            ) + all.subrange(at - 1, all.len() as int));
        }
        at -= 1;
    }
    proof {
        let now = all.subrange(0, at as int);
        if at > 0 {
            assert(now.last() == all[at - 1]);
        }
        assert(inserted(now, s@) == now.push(s@));
    }
    sorted.insert(at, s);
    assert(views(sorted@) =~= inserted(all, s@));
}

/// Puts texts in order.
pub fn sort(parts: &Vec<String>) -> (out: Vec<String>)
    ensures
        views(out@) == sorted_of(views(parts@)),
{
    let mut out: Vec<String> = Vec::new();
    let ghost all = views(parts@);
    let mut i: usize = 0;
    assert(views(out@) =~= sorted_of(all.subrange(0, 0)));
    while i < parts.len()
        invariant
            i <= parts@.len(),
            all == views(parts@),
            views(out@) == sorted_of(all.subrange(0, i as int)),
        decreases parts@.len() - i,
    {
        insert_sorted(&mut out, parts[i].clone());
        i += 1;
        assert(all.subrange(0, i as int).drop_last() =~= all.subrange(0, i - 1));
    }
    assert(all.subrange(0, i as int) =~= all);
    out
}

/// A line without the carriage return that belongs to its ending.
pub open spec fn without_return(line: Seq<char>) -> Seq<char> {
    if line.len() > 0 && line.last() == '\r' {
        line.drop_last()
    } else {
        line
    }
}

/// The lines of a text: endings are `\n` or `\r\n`, and the last one is optional.
pub open spec fn lines_of(s: Seq<char>) -> Seq<Seq<char>>
    decreases s.len(),
    via lines_of_decreases
{
    if s.len() == 0 {
        Seq::empty()
    } else if first_of(s, '\n') >= s.len() {
        seq![s]
    } else {
        let n = first_of(s, '\n');
        seq![without_return(s.subrange(0, n as int))] + lines_of(
            s.subrange(n as int + 1, s.len() as int),
        )
    }
}

#[via_fn]
proof fn lines_of_decreases(s: Seq<char>) {
    lemma_first_of_bound(s, '\n');
}

/// The lines of a text, without their endings.
pub fn lines(text: &str) -> (out: Vec<String>)
    ensures
        views(out@) == lines_of(text@),
{
    broadcast use lemma_views_push;
    let chars = characters(text);
    let mut out: Vec<String> = Vec::new();
    let mut start: usize = 0;
    let mut i: usize = 0;
    assert(chars@.subrange(0, chars@.len() as int) =~= chars@);
    assert(views(out@) + lines_of(chars@) =~= lines_of(chars@));
    while i < chars.len()
        invariant
            start <= i <= chars@.len(),
            chars@ == text@,
            forall|j: int| start <= j < i ==> chars@[j] != '\n',
            views(out@) + lines_of(chars@.subrange(start as int, chars@.len() as int)) == lines_of(
                chars@,
            ),
        decreases chars@.len() - i,
    {
        if chars[i] == '\n' {
            let mut end: usize = i;
            if end > start && chars[end - 1] == '\r' {
                end = end - 1;
            }
            let ghost rest = chars@.subrange(start as int, chars@.len() as int);
            let ghost before = views(out@);
            let ghost n = i - start;
            proof {
                lemma_first_of(rest, '\n', n as nat);
            }
            let line = collected(&chars.as_slice()[start..end]);
            out.push(line);
            start = i + 1;
            proof {
                assert(line@ =~= without_return(rest.subrange(0, n)));
                let after = rest.subrange(n + 1, rest.len() as int);
                assert(after =~= chars@.subrange(start as int, chars@.len() as int));
                assert(before.push(line@) + lines_of(after) =~= before + (seq![line@] + lines_of(
                    after,
                )));
            }
        }
        i += 1;
    }
    let ghost rest = chars@.subrange(start as int, chars@.len() as int);
    let ghost before = views(out@);
    if start < chars.len() {
        proof {
            lemma_first_of(rest, '\n', rest.len());
        }
        let line = collected(&chars.as_slice()[start..chars.len()]);
        out.push(line);
        assert(before.push(line@) =~= before + seq![line@]);
    } else {
        assert(before + Seq::<Seq<char>>::empty() =~= before);
    }
    out
}

/// How many characters stand before the first whitespace.
pub open spec fn word_len(s: Seq<char>) -> nat
    decreases s.len(),
{
    if s.len() == 0 || whitespace(s[0]) {
        0
    } else {
        1 + word_len(s.drop_first())
    }
}

proof fn lemma_word_len(s: Seq<char>, n: nat)
    requires
        n <= s.len(),
        forall|i: int| 0 <= i < n ==> !whitespace(s[i]),
        n < s.len() ==> whitespace(s[n as int]),
    ensures
        word_len(s) == n,
    decreases s.len(),
{
    if n > 0 {
        lemma_word_len(s.drop_first(), (n - 1) as nat);
    }
}

/// A word is a prefix without whitespace.
pub proof fn lemma_word_len_bound(s: Seq<char>)
    ensures
        word_len(s) <= s.len(),
        word_len(s) < s.len() ==> whitespace(s[word_len(s) as int]),
        forall|i: int| 0 <= i < word_len(s) ==> !whitespace(s[i]),
    decreases s.len(),
{
    if s.len() > 0 && !whitespace(s[0]) {
        lemma_word_len_bound(s.drop_first());
        assert forall|i: int| 0 <= i < word_len(s) implies !whitespace(s[i]) by {
            if i > 0 {
                assert(s.drop_first()[i - 1] == s[i]);
            }
        }
    }
}

/// The words of a text: the runs of characters between whitespace.
pub open spec fn words_of(s: Seq<char>) -> Seq<Seq<char>>
    decreases s.len(),
    via words_of_decreases
{
    if s.len() == 0 {
        Seq::empty()
    } else if whitespace(s[0]) {
        words_of(s.drop_first())
    } else {
        let n = word_len(s);
        seq![s.subrange(0, n as int)] + words_of(s.subrange(n as int, s.len() as int))
    }
}

#[via_fn]
proof fn words_of_decreases(s: Seq<char>) {
    lemma_word_len_bound(s);
}

/// The words of a text, in order.
pub fn words(text: &str) -> (out: Vec<String>)
    ensures
        views(out@) == words_of(text@),
{
    broadcast use lemma_views_push;
    let chars = characters(text);
    let mut out: Vec<String> = Vec::new();
    let mut i: usize = 0;
    assert(chars@.subrange(0, chars@.len() as int) =~= chars@);
    assert(views(out@) + words_of(chars@) =~= words_of(chars@));
    while i < chars.len()
        invariant
            i <= chars@.len(),
            chars@ == text@,
            views(out@) + words_of(chars@.subrange(i as int, chars@.len() as int)) == words_of(
                chars@,
            ),
        decreases chars@.len() - i,
    {
        let ghost rest = chars@.subrange(i as int, chars@.len() as int);
        if chars[i].is_whitespace() {
            i += 1;
            assert(rest.drop_first() =~= chars@.subrange(i as int, chars@.len() as int));
        } else {
            let start: usize = i;
            while i < chars.len() && !chars[i].is_whitespace()
                invariant
                    start <= i <= chars@.len(),
                    forall|j: int| start <= j < i ==> !whitespace(chars@[j]),
                decreases chars@.len() - i,
            {
                i += 1;
            }
            let ghost before = views(out@);
            proof {
                lemma_word_len(rest, (i - start) as nat);
            }
            let word = collected(&chars.as_slice()[start..i]);
            out.push(word);
            proof {
                assert(word@ =~= rest.subrange(0, i - start));
                let after = rest.subrange(i - start, rest.len() as int);
                assert(after =~= chars@.subrange(i as int, chars@.len() as int));
                assert(before.push(word@) + words_of(after) =~= before + (seq![word@] + words_of(
                    after,
                )));
            }
        }
    }
    assert(views(out@) + Seq::<Seq<char>>::empty() =~= views(out@));
    out
}

/// A text without its leading whitespace.
pub open spec fn trimmed_start(s: Seq<char>) -> Seq<char>
    decreases s.len(),
{
    if s.len() > 0 && whitespace(s[0]) {
        trimmed_start(s.drop_first())
    } else {
        s
    }
}

/// A text without its trailing whitespace.
pub open spec fn trimmed_end(s: Seq<char>) -> Seq<char>
    decreases s.len(),
{
    if s.len() > 0 && whitespace(s.last()) {
        trimmed_end(s.drop_last())
    } else {
        s
    }
}

/// A text without whitespace at either end.
pub open spec fn trimmed(s: Seq<char>) -> Seq<char> {
    trimmed_end(trimmed_start(s))
}

/// Takes the whitespace off the end of a text.
pub fn trim_end(text: &str) -> (out: String)
    ensures
        out@ == trimmed_end(text@),
{
    let chars = characters(text);
    let mut end: usize = chars.len();
    assert(chars@.subrange(0, end as int) =~= chars@);
    while end > 0 && chars[end - 1].is_whitespace()
        invariant
            end <= chars@.len(),
            trimmed_end(chars@.subrange(0, end as int)) == trimmed_end(chars@),
        decreases end,
    {
        assert(chars@.subrange(0, end as int).drop_last() =~= chars@.subrange(0, end - 1));
        end -= 1;
    }
    collected(&chars.as_slice()[0..end])
}

/// Takes the whitespace off both ends of a text.
pub fn trim(text: &str) -> (out: String)
    ensures
        out@ == trimmed(text@),
{
    let chars = characters(text);
    let mut start: usize = 0;
    assert(chars@.subrange(0, chars@.len() as int) =~= chars@);
    while start < chars.len() && chars[start].is_whitespace()
        invariant
            start <= chars@.len(),
            trimmed_start(chars@.subrange(start as int, chars@.len() as int)) == trimmed_start(chars@),
        decreases chars@.len() - start,
    {
        assert(chars@.subrange(start as int, chars@.len() as int).drop_first() =~= chars@.subrange(
            start + 1,
            chars@.len() as int,
        ));
        start += 1;
    }
    let rest = collected(&chars.as_slice()[start..chars.len()]);
    trim_end(rest.as_str())
}

/// Whether a text is among others.
pub fn is_among(texts: &Vec<String>, text: &str) -> (r: bool)
    ensures
        r == views(texts@).contains(text@),
{
    let mut i: usize = 0;
    while i < texts.len()
        invariant
            i <= texts@.len(),
            forall|j: int| 0 <= j < i ==> (#[trigger] texts@[j])@ != text@,
        decreases texts@.len() - i,
    {
        if same(texts[i].as_str(), text) {
            assert(views(texts@)[i as int] == text@);
            return true;
        }
        i += 1;
    }
    assert(!views(texts@).contains(text@)) by {
        if views(texts@).contains(text@) {
            let j = views(texts@).index_of(text@);
            assert(texts@[j]@ == text@);
        }
    }
    false
}

} // verus!
