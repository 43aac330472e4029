//! What holds of the registry of actions and of the distance between two texts as a whole.

use vstd::prelude::*;

use crate::action::{distance, lemma_distance_symmetric, lemma_distance_zero};

verus! {

proof fn lemma_distance_is_at_least_the_difference(a: Seq<char>, b: Seq<char>)
    ensures
        a.len() <= distance(a, b) + b.len(),
        b.len() <= distance(a, b) + a.len(),
        distance(a, b) <= a.len() + b.len(),
    decreases a.len() + b.len(),
{
    if a.len() > 0 && b.len() > 0 {
        lemma_distance_is_at_least_the_difference(a.drop_last(), b);
        lemma_distance_is_at_least_the_difference(a, b.drop_last());
        lemma_distance_is_at_least_the_difference(a.drop_last(), b.drop_last());
    }
}

/// The way over a third text is no shorter.
pub proof fn lemma_distance_triangle(a: Seq<char>, b: Seq<char>, c: Seq<char>)
    ensures
        distance(a, c) <= distance(a, b) + distance(b, c),
    decreases a.len() + b.len() + c.len(),
{
    lemma_distance_is_at_least_the_difference(a, b);
    lemma_distance_is_at_least_the_difference(b, c);
    lemma_distance_is_at_least_the_difference(a, c);
    if a.len() > 0 && b.len() > 0 && c.len() > 0 {
        lemma_distance_triangle(a.drop_last(), b, c);
        lemma_distance_triangle(a, b, c.drop_last());
        lemma_distance_triangle(a, b.drop_last(), c);
        lemma_distance_triangle(a, b.drop_last(), c.drop_last());
        lemma_distance_triangle(a.drop_last(), b.drop_last(), c);
        lemma_distance_triangle(a.drop_last(), b.drop_last(), c.drop_last());
    }
}

/// Whether a text is another one with one more character, at the place `at`.
pub open spec fn inserted_at(before: Seq<char>, after: Seq<char>, at: int) -> bool {
    0 <= at < after.len() && before == after.remove(at)
}

/// Whether two texts differ at most in the character at the place `at`.
pub open spec fn replaced_at(before: Seq<char>, after: Seq<char>, at: int) -> bool {
    0 <= at < after.len() && before.len() == after.len() && before.remove(at) == after.remove(at)
}

/// Whether a character was inserted, deleted or replaced at a place.
pub open spec fn change_at(before: Seq<char>, after: Seq<char>, at: int) -> bool {
    inserted_at(before, after, at) || inserted_at(after, before, at) || replaced_at(before, after, at)
}

/// Whether one insertion, one deletion or one replacement of a character leads from one text to
/// another.
pub open spec fn one_change(before: Seq<char>, after: Seq<char>) -> bool {
    exists|at: int| change_at(before, after, at)
}

/// Whether texts are a way from one text to another, one change of a character at a time.
#[verifier::opaque]
pub open spec fn is_way(texts: Seq<Seq<char>>, left: Seq<char>, right: Seq<char>) -> bool {
    &&& texts.len() > 0
    &&& texts[0] == left
    &&& texts.last() == right
    &&& forall|i: int| 0 <= i < texts.len() - 1 ==> one_change(#[trigger] texts[i], texts[i + 1])
}

proof fn lemma_same_end(a: Seq<char>, b: Seq<char>)
    requires
        a.len() > 0,
        b.len() > 0,
        a.last() == b.last(),
    ensures
        distance(a, b) <= distance(a.drop_last(), b.drop_last()),
{
}

proof fn lemma_an_insertion_is_one_step(before: Seq<char>, after: Seq<char>, at: int)
    requires
        inserted_at(before, after, at),
    ensures
        distance(before, after) <= 1,
    decreases before.len(),
{
    if at == after.len() - 1 {
        assert(after.drop_last() =~= before);
        lemma_distance_zero(before, before);
        if before.len() > 0 {
            assert(distance(before, after) <= distance(before, after.drop_last()) + 1);
        }
    } else {
        assert(after.last() == before.last());
        assert(before.drop_last() =~= after.drop_last().remove(at));
        lemma_an_insertion_is_one_step(before.drop_last(), after.drop_last(), at);
        lemma_same_end(before, after);
    }
}

proof fn lemma_a_replacement_is_one_step(before: Seq<char>, after: Seq<char>, at: int)
    requires
        replaced_at(before, after, at),
    ensures
        distance(before, after) <= 1,
    decreases before.len(),
{
    if at == after.len() - 1 {
        assert(before.remove(at) =~= before.drop_last());
        assert(after.remove(at) =~= after.drop_last());
        lemma_distance_zero(before.drop_last(), after.drop_last());
    } else {
        assert(before.remove(at)[before.len() - 2] == after.remove(at)[before.len() - 2]);
        assert(after.last() == before.last());
        assert(before.remove(at).drop_last() =~= before.drop_last().remove(at));
        assert(after.remove(at).drop_last() =~= after.drop_last().remove(at));
        lemma_a_replacement_is_one_step(before.drop_last(), after.drop_last(), at);
        lemma_same_end(before, after);
    }
}

proof fn lemma_a_change_is_one_step(before: Seq<char>, after: Seq<char>)
    requires
        one_change(before, after),
    ensures
        distance(before, after) <= 1,
{
    let at = choose|at: int| change_at(before, after, at);
    if inserted_at(before, after, at) {
        lemma_an_insertion_is_one_step(before, after, at);
    } else if inserted_at(after, before, at) {
        lemma_an_insertion_is_one_step(after, before, at);
        lemma_distance_symmetric(before, after);
    } else {
        lemma_a_replacement_is_one_step(before, after, at);
    }
}

/// No way from one text to another takes fewer changes than their distance.
pub proof fn lemma_no_way_is_shorter(texts: Seq<Seq<char>>, left: Seq<char>, right: Seq<char>)
    requires
        is_way(texts, left, right),
    ensures
        distance(left, right) <= texts.len() - 1,
    decreases texts.len(),
{
    reveal(is_way);
    if texts.len() == 1 {
        lemma_distance_zero(left, right);
    } else {
        let before = texts.drop_last();
        assert(is_way(before, left, before.last())) by {
            assert forall|i: int| 0 <= i < before.len() - 1 implies one_change(
                #[trigger] before[i],
                before[i + 1],
            ) by {
                assert(texts[i] == before[i] && texts[i + 1] == before[i + 1]);
            }
        }
        lemma_no_way_is_shorter(before, left, before.last());
        assert(before.last() == texts[texts.len() - 2]);
        assert(one_change(texts[texts.len() - 2], texts[texts.len() - 2 + 1]));
        lemma_a_change_is_one_step(before.last(), right);
        lemma_distance_triangle(left, before.last(), right);
    }
}

/// The last character of a text, as a text.
pub open spec fn tail(text: Seq<char>) -> Seq<char> {
    text.subrange(text.len() - 1, text.len() as int)
}

/// Texts with an end put to each of them.
pub open spec fn ended(texts: Seq<Seq<char>>, end: Seq<char>) -> Seq<Seq<char>> {
    Seq::new(texts.len(), |i: int| texts[i] + end)
}

/// A way from one text to another that takes as many changes as their distance.
pub open spec fn shortest_way(left: Seq<char>, right: Seq<char>) -> Seq<Seq<char>>
    decreases left.len() + right.len(),
{
    if left.len() == 0 && right.len() == 0 {
        seq![left]
    } else if left.len() == 0 || (right.len() > 0 && distance(left, right) == distance(
        left,
        right.drop_last(),
    ) + 1) {
        shortest_way(left, right.drop_last()).push(right)
    } else if right.len() == 0 || distance(left, right) == distance(left.drop_last(), right) + 1 {
        seq![left] + shortest_way(left.drop_last(), right)
    } else {
        let way = ended(shortest_way(left.drop_last(), right.drop_last()), tail(left));
        if left.last() == right.last() { way } else { way.push(right) }
    }
}

proof fn lemma_one_more(texts: Seq<Seq<char>>, left: Seq<char>, between: Seq<char>, right: Seq<char>)
    requires
        is_way(texts, left, between),
        one_change(between, right),
    ensures
        is_way(texts.push(right), left, right),
{
    reveal(is_way);
    let all = texts.push(right);
    assert forall|i: int| 0 <= i < all.len() - 1 implies one_change(#[trigger] all[i], all[i + 1]) by {
        if i < texts.len() - 1 {
            assert(one_change(texts[i], texts[i + 1]));
        }
    }
}

proof fn lemma_one_before(left: Seq<char>, texts: Seq<Seq<char>>, between: Seq<char>, right: Seq<char>)
    requires
        is_way(texts, between, right),
        one_change(left, between),
    ensures
        is_way(seq![left] + texts, left, right),
{
    reveal(is_way);
    let all = seq![left] + texts;
    assert forall|i: int| 0 <= i < all.len() - 1 implies one_change(#[trigger] all[i], all[i + 1]) by {
        if i > 0 {
            assert(one_change(texts[i - 1], texts[i - 1 + 1]));
        }
    }
}

proof fn lemma_a_change_before_an_end(before: Seq<char>, after: Seq<char>, end: Seq<char>)
    requires
        one_change(before, after),
    ensures
        one_change(before + end, after + end),
{
    let at = choose|at: int| change_at(before, after, at);
    if inserted_at(before, after, at) {
        assert((after + end).remove(at) =~= after.remove(at) + end);
        assert(change_at(before + end, after + end, at));
    } else if inserted_at(after, before, at) {
        assert((before + end).remove(at) =~= before.remove(at) + end);
        assert(change_at(before + end, after + end, at));
    } else {
        assert((before + end).remove(at) =~= before.remove(at) + end);
        assert((after + end).remove(at) =~= after.remove(at) + end);
        assert(change_at(before + end, after + end, at));
    }
}

proof fn lemma_an_end_may_follow(
    texts: Seq<Seq<char>>,
    left: Seq<char>,
    right: Seq<char>,
    end: Seq<char>,
)
    requires
        is_way(texts, left, right),
    ensures
        is_way(ended(texts, end), left + end, right + end),
{
    reveal(is_way);
    let all = ended(texts, end);
    assert forall|i: int| 0 <= i < all.len() - 1 implies one_change(#[trigger] all[i], all[i + 1]) by {
        assert(one_change(texts[i], texts[i + 1]));
        lemma_a_change_before_an_end(texts[i], texts[i + 1], end);
    }
}

proof fn lemma_last_inserted(texts: Seq<Seq<char>>, left: Seq<char>, right: Seq<char>)
    requires
        right.len() > 0,
        is_way(texts, left, right.drop_last()),
    ensures
        is_way(texts.push(right), left, right),
{
    let shorter = right.drop_last();
    assert(shorter =~= right.remove(right.len() - 1));
    assert(change_at(shorter, right, right.len() - 1));
    lemma_one_more(texts, left, shorter, right);
}

proof fn lemma_last_deleted(texts: Seq<Seq<char>>, left: Seq<char>, right: Seq<char>)
    requires
        left.len() > 0,
        is_way(texts, left.drop_last(), right),
    ensures
        is_way(seq![left] + texts, left, right),
{
    let shorter = left.drop_last();
    assert(shorter =~= left.remove(left.len() - 1));
    assert(change_at(left, shorter, left.len() - 1));
    lemma_one_before(left, texts, shorter, right);
}

proof fn lemma_last_kept(texts: Seq<Seq<char>>, left: Seq<char>, right: Seq<char>)
    requires
        left.len() > 0,
        right.len() > 0,
        is_way(texts, left.drop_last(), right.drop_last()),
    ensures
        left.last() == right.last() ==> is_way(ended(texts, tail(left)), left, right),
        left.last() != right.last() ==> is_way(ended(texts, tail(left)).push(right), left, right),
{
    lemma_an_end_may_follow(texts, left.drop_last(), right.drop_last(), tail(left));
    assert(left.drop_last() + tail(left) =~= left);
    let almost = right.drop_last() + tail(left);
    if left.last() == right.last() {
        assert(almost =~= right);
    } else {
        assert(almost.remove(right.len() - 1) =~= right.remove(right.len() - 1));
        assert(change_at(almost, right, right.len() - 1));
        lemma_one_more(ended(texts, tail(left)), left, almost, right);
    }
}

proof fn lemma_no_way_to_go(left: Seq<char>)
    ensures
        is_way(seq![left], left, left),
{
    reveal(is_way);
}

/// There is a way from one text to another that takes as many changes as their distance: with
/// [`lemma_no_way_is_shorter`], the distance is the least number of insertions, deletions and
/// replacements of one character that lead from one to the other.
pub proof fn lemma_a_way_is_as_short(left: Seq<char>, right: Seq<char>)
    ensures
        is_way(shortest_way(left, right), left, right),
        shortest_way(left, right).len() == distance(left, right) + 1,
    decreases left.len() + right.len(),
{
    if left.len() == 0 && right.len() == 0 {
        assert(left =~= right);
        lemma_no_way_to_go(left);
    } else if left.len() == 0 || (right.len() > 0 && distance(left, right) == distance(
        left,
        right.drop_last(),
    ) + 1) {
        lemma_a_way_is_as_short(left, right.drop_last());
        lemma_last_inserted(shortest_way(left, right.drop_last()), left, right);
    } else if right.len() == 0 || distance(left, right) == distance(left.drop_last(), right) + 1 {
        lemma_a_way_is_as_short(left.drop_last(), right);
        lemma_last_deleted(shortest_way(left.drop_last(), right), left, right);
    } else {
        lemma_a_way_is_as_short(left.drop_last(), right.drop_last());
        lemma_last_kept(shortest_way(left.drop_last(), right.drop_last()), left, right);
    }
}

} // verus!
