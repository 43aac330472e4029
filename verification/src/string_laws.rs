//! What holds of splitting, joining and trimming text.

use vstd::prelude::*;

use crate::strings::{
    decimal, first_of, joined, lemma_first_of_bound, lemma_word_len_bound, lines_of, parts_of,
    precedes, trimmed, trimmed_end, trimmed_start, whitespace, without_return, word_len, words_of,
};

verus! {

/// Whether a text is whitespace and nothing else.
pub open spec fn blank(s: Seq<char>) -> bool {
    forall|k: int| 0 <= k < s.len() ==> whitespace(#[trigger] s[k])
}

proof fn lemma_trimming_start(s: Seq<char>)
    ensures
        ({
            let n = s.len() - trimmed_start(s).len();
            &&& 0 <= n <= s.len()
            &&& trimmed_start(s) == s.subrange(n, s.len() as int)
            &&& blank(s.subrange(0, n))
            &&& n < s.len() ==> !whitespace(s[n])
        }),
    decreases s.len(),
{
    if s.len() > 0 && whitespace(s[0]) {
        let rest = s.drop_first();
        lemma_trimming_start(rest);
        let n = s.len() - trimmed_start(s).len();
        assert(rest.subrange(n - 1, rest.len() as int) =~= s.subrange(n, s.len() as int));
        assert forall|k: int| 0 <= k < n implies whitespace(#[trigger] s.subrange(0, n)[k]) by {
            if k > 0 {
                assert(whitespace(rest.subrange(0, n - 1)[k - 1]));
            }
        }
    } else {
        assert(s.subrange(0, s.len() as int) =~= s);
    }
}

/// Trimming the end of a text takes off whitespace and nothing else, and leaves none there.
pub proof fn lemma_trimming_the_end(s: Seq<char>)
    ensures
        trimmed_end(s).len() <= s.len(),
        s == trimmed_end(s) + s.subrange(trimmed_end(s).len() as int, s.len() as int),
        blank(s.subrange(trimmed_end(s).len() as int, s.len() as int)),
        trimmed_end(s).len() > 0 ==> !whitespace(trimmed_end(s).last()),
    decreases s.len(),
{
    let n = trimmed_end(s).len() as int;
    if s.len() > 0 && whitespace(s.last()) {
        let rest = s.drop_last();
        lemma_trimming_the_end(rest);
        assert(s =~= trimmed_end(s) + s.subrange(n, s.len() as int)) by {
            assert forall|k: int| 0 <= k < n implies s[k] == trimmed_end(s)[k] by {
                assert(rest[k] == (trimmed_end(rest) + rest.subrange(n, rest.len() as int))[k]);
            }
        }
        let tail = s.subrange(n, s.len() as int);
        assert forall|k: int| 0 <= k < tail.len() implies whitespace(#[trigger] tail[k]) by {
            if k < tail.len() - 1 {
                assert(whitespace(rest.subrange(n, rest.len() as int)[k]));
            }
        }
    } else {
        assert(s =~= trimmed_end(s) + s.subrange(n, s.len() as int));
    }
}

/// Trimming a text takes whitespace off both ends and nothing else, and leaves none at either end.
pub proof fn lemma_trimming(s: Seq<char>)
    ensures
        exists|i: int, j: int|
            {
                &&& 0 <= i <= j <= s.len()
                &&& trimmed(s) == #[trigger] s.subrange(i, j)
                &&& blank(s.subrange(0, i))
                &&& blank(s.subrange(j, s.len() as int))
                &&& i < j ==> !whitespace(s[i]) && !whitespace(s[j - 1])
            },
{
    let rest = trimmed_start(s);
    lemma_trimming_start(s);
    lemma_trimming_the_end(rest);
    let i = s.len() - rest.len();
    let j = i + trimmed(s).len();
    assert(trimmed(s) =~= s.subrange(i, j)) by {
        assert forall|k: int| 0 <= k < trimmed(s).len() implies trimmed(s)[k] == s.subrange(i, j)[k] by {
            assert(rest[k] == (trimmed(s) + rest.subrange(trimmed(s).len() as int, rest.len() as int))[k]);
        }
    }
    assert(s.subrange(j, s.len() as int) =~= rest.subrange(trimmed(s).len() as int, rest.len() as int));
    if i < j {
        assert(s.subrange(i, j)[0] == s[i]);
        assert(trimmed(s).last() == s[j - 1]);
    }
}

/// Nothing is left of a text after trimming exactly when all of it is whitespace.
pub proof fn lemma_trimmed_says_something(s: Seq<char>)
    ensures
        trimmed(s).len() == 0 <==> blank(s),
        trimmed_end(s).len() == 0 <==> blank(s),
        trimmed(trimmed_end(s)).len() == 0 <==> blank(s),
{
    lemma_nothing_left(s);
    let t = trimmed_end(s);
    lemma_nothing_left(t);
    lemma_trimming_the_end(s);
    let tail = s.subrange(t.len() as int, s.len() as int);
    if blank(s) {
        if t.len() > 0 {
            assert(t.last() == (t + tail)[t.len() - 1]);
            assert(whitespace(s[t.len() - 1]));
        }
    } else if blank(t) {
        assert forall|k: int| 0 <= k < s.len() implies whitespace(#[trigger] s[k]) by {
            assert(s[k] == (t + tail)[k]);
            if k < t.len() {
                assert(whitespace(t[k]));
            } else {
                assert(whitespace(tail[k - t.len()]));
            }
        }
    }
}

proof fn lemma_nothing_left(s: Seq<char>)
    ensures
        trimmed(s).len() == 0 <==> blank(s),
{
    lemma_trimming(s);
    let (i, j) = choose|i: int, j: int|
        {
            &&& 0 <= i <= j <= s.len()
            &&& trimmed(s) == #[trigger] s.subrange(i, j)
            &&& blank(s.subrange(0, i))
            &&& blank(s.subrange(j, s.len() as int))
            &&& i < j ==> !whitespace(s[i]) && !whitespace(s[j - 1])
        };
    if i == j {
        assert forall|k: int| 0 <= k < s.len() implies whitespace(#[trigger] s[k]) by {
            if k < i {
                assert(whitespace(s.subrange(0, i)[k]));
            } else {
                assert(whitespace(s.subrange(j, s.len() as int)[k - j]));
            }
        }
    }
}

proof fn lemma_joined_front(first: Seq<char>, rest: Seq<Seq<char>>, sep: Seq<char>)
    requires
        rest.len() > 0,
    ensures
        joined(seq![first] + rest, sep) == first + sep + joined(rest, sep),
    decreases rest.len(),
{
    let all = seq![first] + rest;
    assert(all.drop_last() =~= seq![first] + rest.drop_last());
    if rest.len() == 1 {
        assert(all.drop_last() =~= seq![first]);
        assert(joined(all.drop_last(), sep) == first);
    } else {
        lemma_joined_front(first, rest.drop_last(), sep);
        assert(joined(all, sep) =~= first + sep + joined(rest, sep));
    }
}

/// Splitting a text loses nothing and leaves no separator in a part: joined again, the parts are
/// the text.
pub proof fn lemma_joining_undoes_splitting(s: Seq<char>, sep: char)
    ensures
        parts_of(s, sep).len() > 0,
        joined(parts_of(s, sep), seq![sep]) == s,
        forall|i: int| 0 <= i < parts_of(s, sep).len() ==> !(#[trigger] parts_of(s, sep)[i]).contains(sep),
    decreases s.len(),
{
    lemma_first_of_bound(s, sep);
    let n = first_of(s, sep);
    if n >= s.len() {
        assert(parts_of(s, sep) =~= seq![s]);
    } else {
        let first = s.subrange(0, n as int);
        let rest = s.subrange(n as int + 1, s.len() as int);
        lemma_joining_undoes_splitting(rest, sep);
        lemma_joined_front(first, parts_of(rest, sep), seq![sep]);
        assert(first + seq![sep] + rest =~= s);
        assert forall|i: int| 0 <= i < parts_of(s, sep).len() implies !(#[trigger] parts_of(
            s,
            sep,
        )[i]).contains(sep) by {
            if i > 0 {
                assert(parts_of(s, sep)[i] == parts_of(rest, sep)[i - 1]);
            } else {
                assert(parts_of(s, sep)[0] == first);
            }
        }
    }
}

/// A text's last part between separators is what follows its last separator.
pub proof fn lemma_the_last_part_follows_the_last_separator(s: Seq<char>, sep: char)
    ensures
        ({
            let last = parts_of(s, sep).last();
            &&& last.len() <= s.len()
            &&& last == s.subrange(s.len() - last.len(), s.len() as int)
            &&& !last.contains(sep)
            &&& last.len() < s.len() ==> s[s.len() - last.len() - 1] == sep
        }),
    decreases s.len(),
{
    lemma_joining_undoes_splitting(s, sep);
    lemma_first_of_bound(s, sep);
    let n = first_of(s, sep);
    if n >= s.len() {
        assert(s.subrange(0, s.len() as int) =~= s);
    } else {
        let rest = s.subrange(n as int + 1, s.len() as int);
        lemma_joining_undoes_splitting(rest, sep);
        lemma_the_last_part_follows_the_last_separator(rest, sep);
        let last = parts_of(rest, sep).last();
        assert(parts_of(s, sep).last() == last);
        assert(last =~= s.subrange(s.len() - last.len(), s.len() as int));
    }
}

proof fn lemma_words_after(s: Seq<char>, n: nat)
    requires
        n <= s.len(),
        blank(s.subrange(0, n as int)),
    ensures
        words_of(s) == words_of(s.subrange(n as int, s.len() as int)),
    decreases n,
{
    if n == 0 {
        assert(s.subrange(0, s.len() as int) =~= s);
    } else {
        assert(whitespace(s.subrange(0, n as int)[0]));
        let rest = s.drop_first();
        assert forall|k: int| 0 <= k < n - 1 implies whitespace(
            #[trigger] rest.subrange(0, n - 1)[k],
        ) by {
            assert(whitespace(s.subrange(0, n as int)[k + 1]));
        }
        lemma_words_after(rest, (n - 1) as nat);
        assert(rest.subrange(n - 1, rest.len() as int) =~= s.subrange(n as int, s.len() as int));
    }
}

proof fn lemma_word_then_blank(a: Seq<char>, b: Seq<char>)
    requires
        b.len() > 0 ==> whitespace(b[0]),
    ensures
        word_len(a + b) == word_len(a),
    decreases a.len(),
{
    if a.len() > 0 {
        assert((a + b)[0] == a[0]);
        assert((a + b).drop_first() =~= a.drop_first() + b);
        lemma_word_then_blank(a.drop_first(), b);
    } else {
        assert(a + b =~= b);
    }
}

/// A blank parts words: the words of two texts with whitespace between them are the words of the
/// one, then those of the other.
pub proof fn lemma_a_blank_parts_words(a: Seq<char>, gap: char, b: Seq<char>)
    requires
        whitespace(gap),
    ensures
        words_of(a.push(gap) + b) == words_of(a) + words_of(b),
    decreases a.len(),
{
    let whole = a.push(gap) + b;
    if a.len() == 0 {
        assert(whole.drop_first() =~= b);
        assert(whole[0] == gap);
        assert(words_of(a) + words_of(b) =~= words_of(b));
    } else if whitespace(a[0]) {
        assert(whole.drop_first() =~= a.drop_first().push(gap) + b);
        lemma_a_blank_parts_words(a.drop_first(), gap, b);
    } else {
        let n = word_len(a);
        lemma_word_len_bound(a);
        assert(whole =~= a + (seq![gap] + b));
        lemma_word_then_blank(a, seq![gap] + b);
        let rest = a.subrange(n as int, a.len() as int);
        assert(n > 0);
        assert(whole.subrange(n as int, whole.len() as int) =~= rest.push(gap) + b);
        assert(whole.subrange(0, n as int) =~= a.subrange(0, n as int));
        lemma_a_blank_parts_words(rest, gap, b);
        assert(words_of(whole) =~= words_of(a) + words_of(b));
    }
}

/// A text without whitespace is one word, and a blank text has none.
pub proof fn lemma_a_word_is_kept_whole(s: Seq<char>)
    ensures
        s.len() > 0 && (forall|k: int| 0 <= k < s.len() ==> !whitespace(#[trigger] s[k])) ==> words_of(s)
            == seq![s],
        blank(s) ==> words_of(s).len() == 0,
{
    if blank(s) {
        assert(s.subrange(0, s.len() as int) =~= s);
        lemma_words_after(s, s.len());
    }
    if s.len() > 0 && (forall|k: int| 0 <= k < s.len() ==> !whitespace(#[trigger] s[k])) {
        lemma_word_len_bound(s);
        assert(word_len(s) == s.len());
        assert(s.subrange(0, s.len() as int) =~= s);
        assert(words_of(s.subrange(s.len() as int, s.len() as int)).len() == 0);
        assert(words_of(s) =~= seq![s]);
    }
}

/// Texts are ordered by the first character in which they differ, and a text comes before every
/// longer one that starts with it.
pub proof fn lemma_the_first_difference_decides(a: Seq<char>, b: Seq<char>, k: nat)
    requires
        k <= a.len(),
        k < b.len(),
        forall|i: int| 0 <= i < k ==> a[i] == b[i],
    ensures
        k < a.len() && (a[k as int] as int) < (b[k as int] as int) ==> precedes(a, b) && !precedes(b, a),
        k == a.len() ==> precedes(a, b) && !precedes(b, a),
    decreases k,
{
    if k > 0 {
        let x = a.drop_first();
        let y = b.drop_first();
        assert forall|i: int| 0 <= i < k - 1 implies x[i] == y[i] by {
            assert(a[i + 1] == b[i + 1]);
        }
        lemma_the_first_difference_decides(x, y, (k - 1) as nat);
    }
}

/// The number that decimal digits stand for.
pub open spec fn value_of(digits: Seq<char>) -> int
    decreases digits.len(),
{
    if digits.len() == 0 {
        0
    } else {
        10 * value_of(digits.drop_last()) + (digits.last() as int - '0' as int)
    }
}

/// A number in decimal stands for that number, and is made of digits alone.
pub proof fn lemma_decimal_says_the_number(n: nat)
    ensures
        value_of(decimal(n)) == n,
        decimal(n).len() > 0,
        forall|i: int| 0 <= i < decimal(n).len() ==> '0' <= #[trigger] decimal(n)[i] <= '9',
    decreases n,
{
    if n < 10 {
        let digits = decimal(n);
        assert(digits.drop_last() =~= Seq::empty());
        assert(value_of(digits.drop_last()) == 0);
    } else {
        lemma_decimal_says_the_number(n / 10);
        let front = decimal(n / 10);
        let digits = decimal(n);
        assert(digits.drop_last() =~= front);
        assert forall|i: int| 0 <= i < digits.len() implies '0' <= #[trigger] digits[i] <= '9' by {
            if i < front.len() {
                assert(digits[i] == front[i]);
            }
        }
    }
}

/// The lines of a text are what stands between its line breaks: put together again with breaks
/// between them they are the text, but for a break at its end.
pub proof fn lemma_lines_are_the_text(s: Seq<char>)
    requires
        s.len() > 0,
        !s.contains('\r'),
    ensures
        lines_of(s).len() > 0,
        s.last() != '\n' ==> joined(lines_of(s), seq!['\n']) == s,
        s.last() == '\n' ==> joined(lines_of(s), seq!['\n']) == s.drop_last(),
        forall|i: int| 0 <= i < lines_of(s).len() ==> !(#[trigger] lines_of(s)[i]).contains('\n'),
    decreases s.len(),
{
    lemma_first_of_bound(s, '\n');
    let n = first_of(s, '\n');
    if n >= s.len() {
        assert(lines_of(s) =~= seq![s]);
        assert(s[s.len() - 1] != '\n');
    } else {
        let first = s.subrange(0, n as int);
        let rest = s.subrange(n as int + 1, s.len() as int);
        assert(without_return(first) == first) by {
            if first.len() > 0 && first.last() == '\r' {
                assert(s[n - 1] == '\r');
            }
        }
        assert forall|c: char| rest.contains(c) implies s.contains(c) by {
            let k = choose|k: int| 0 <= k < rest.len() && rest[k] == c;
            assert(s[n + 1 + k] == c);
        }
        if rest.len() == 0 {
            assert(lines_of(rest) == Seq::<Seq<char>>::empty());
            assert(lines_of(s) == seq![without_return(first)] + lines_of(rest));
            assert(lines_of(s) =~= seq![first]);
            assert(first =~= s.drop_last());
        } else {
            lemma_lines_are_the_text(rest);
            lemma_joined_front(first, lines_of(rest), seq!['\n']);
            assert(first + seq!['\n'] + rest =~= s);
            assert(rest.last() == s.last());
            if s.last() == '\n' {
                assert(first + seq!['\n'] + rest.drop_last() =~= s.drop_last());
            }
            assert forall|i: int| 0 <= i < lines_of(s).len() implies !(#[trigger] lines_of(s)[i]).contains(
                '\n',
            ) by {
                if i > 0 {
                    assert(lines_of(s)[i] == lines_of(rest)[i - 1]);
                }
            }
        }
    }
}

} // verus!
