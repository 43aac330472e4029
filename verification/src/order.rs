//! Where one sequence stands in another, which is how the laws speak of what is shown in which
//! order.

use vstd::prelude::*;

verus! {

/// Whether a part stands in a whole from the given place on, in one piece.
pub open spec fn stands_at<A>(whole: Seq<A>, part: Seq<A>, place: int) -> bool {
    &&& 0 <= place
    &&& place + part.len() <= whole.len()
    &&& forall|k: int| 0 <= k < part.len() ==> whole[place + k] == #[trigger] part[k]
}

/// Whether a part stands somewhere in a whole, in one piece.
pub open spec fn holds_part<A>(whole: Seq<A>, part: Seq<A>) -> bool {
    exists|place: int| #[trigger] stands_at(whole, part, place)
}

/// Whether one part stands in a whole before another one begins.
pub open spec fn in_turn<A>(whole: Seq<A>, first: Seq<A>, second: Seq<A>) -> bool {
    exists|i: int, j: int| #[trigger]
        stands_at(whole, first, i) && #[trigger] stands_at(whole, second, j) && i + first.len() <= j
}

/// What stands in a part stands in the whole.
pub proof fn lemma_stands_within<A>(head: Seq<A>, middle: Seq<A>, tail: Seq<A>, part: Seq<A>, place: int)
    requires
        stands_at(middle, part, place),
    ensures
        stands_at(head + middle + tail, part, head.len() + place),
{
    let whole = head + middle + tail;
    assert forall|k: int| 0 <= k < part.len() implies whole[head.len() + place + k]
        == #[trigger] part[k] by {
        assert(middle[place + k] == part[k]);
    }
}

/// What a part holds, the whole holds.
pub proof fn lemma_holds_within<A>(head: Seq<A>, middle: Seq<A>, tail: Seq<A>, part: Seq<A>)
    requires
        holds_part(middle, part),
    ensures
        holds_part(head + middle + tail, part),
{
    let place = choose|place: int| #[trigger] stands_at(middle, part, place);
    lemma_stands_within(head, middle, tail, part, place);
}

/// What stands in turn in a part stands in turn in the whole.
pub proof fn lemma_in_turn_within<A>(
    head: Seq<A>,
    middle: Seq<A>,
    tail: Seq<A>,
    first: Seq<A>,
    second: Seq<A>,
)
    requires
        in_turn(middle, first, second),
    ensures
        in_turn(head + middle + tail, first, second),
{
    let (i, j) = choose|i: int, j: int| #[trigger]
        stands_at(middle, first, i) && #[trigger] stands_at(middle, second, j) && i + first.len()
            <= j;
    lemma_stands_within(head, middle, tail, first, i);
    lemma_stands_within(head, middle, tail, second, j);
}

/// What two parts hold stands in turn where the parts do.
pub proof fn lemma_in_turn_across<A>(left: Seq<A>, right: Seq<A>, first: Seq<A>, second: Seq<A>)
    requires
        holds_part(left, first),
        holds_part(right, second),
    ensures
        in_turn(left + right, first, second),
{
    let i = choose|place: int| #[trigger] stands_at(left, first, place);
    let j = choose|place: int| #[trigger] stands_at(right, second, place);
    lemma_stands_within(Seq::empty(), left, right, first, i);
    assert(Seq::<A>::empty() + left + right =~= left + right);
    lemma_stands_within(left, right, Seq::empty(), second, j);
    assert(left + right + Seq::<A>::empty() =~= left + right);
}

/// Whether what is listed up to `k` goes on with the block of `k`.
pub open spec fn goes_on<A>(upto: spec_fn(nat) -> Seq<A>, block: spec_fn(nat) -> Seq<A>, k: nat) -> bool {
    upto(k + 1) == upto(k) + block(k)
}

/// Whether an element comes from one of the first `n` blocks.
pub open spec fn comes_from<A>(block: spec_fn(nat) -> Seq<A>, n: nat, element: A) -> bool {
    exists|k: nat| k < n && (#[trigger] block(k)).contains(element)
}

/// What goes on block by block holds each of the blocks.
pub proof fn lemma_listed<A>(upto: spec_fn(nat) -> Seq<A>, block: spec_fn(nat) -> Seq<A>, n: nat, a: nat)
    requires
        forall|k: nat| k < n ==> #[trigger] goes_on(upto, block, k),
        a < n,
    ensures
        holds_part(upto(n), block(a)),
    decreases n,
{
    let m = (n - 1) as nat;
    assert(goes_on(upto, block, m));
    if a == m {
        assert(stands_at(upto(n), block(a), upto(m).len() as int));
    } else {
        lemma_listed(upto, block, m, a);
        lemma_holds_within(Seq::empty(), upto(m), block(m), block(a));
        assert(Seq::<A>::empty() + upto(m) + block(m) =~= upto(n));
    }
}

/// What goes on block by block holds the blocks in their order.
pub proof fn lemma_listed_in_turn<A>(
    upto: spec_fn(nat) -> Seq<A>,
    block: spec_fn(nat) -> Seq<A>,
    n: nat,
    a: nat,
    b: nat,
)
    requires
        forall|k: nat| k < n ==> #[trigger] goes_on(upto, block, k),
        a < b < n,
    ensures
        in_turn(upto(n), block(a), block(b)),
    decreases n,
{
    let m = (n - 1) as nat;
    assert(goes_on(upto, block, m));
    if b == m {
        lemma_listed(upto, block, m, a);
        assert(stands_at(block(b), block(b), 0));
        lemma_in_turn_across(upto(m), block(b), block(a), block(b));
    } else {
        lemma_listed_in_turn(upto, block, m, a, b);
        lemma_in_turn_within(Seq::empty(), upto(m), block(m), block(a), block(b));
        assert(Seq::<A>::empty() + upto(m) + block(m) =~= upto(n));
    }
}

/// What goes on block by block from nothing holds nothing else.
pub proof fn lemma_listed_only<A>(
    upto: spec_fn(nat) -> Seq<A>,
    block: spec_fn(nat) -> Seq<A>,
    n: nat,
    at: int,
)
    requires
        upto(0).len() == 0,
        forall|k: nat| k < n ==> #[trigger] goes_on(upto, block, k),
        0 <= at < upto(n).len(),
    ensures
        comes_from(block, n, upto(n)[at]),
    decreases n,
{
    let m = (n - 1) as nat;
    assert(goes_on(upto, block, m));
    if at < upto(m).len() {
        lemma_listed_only(upto, block, m, at);
        let k = choose|k: nat| k < m && (#[trigger] block(k)).contains(upto(m)[at]);
        assert(block(k).contains(upto(n)[at]));
    } else {
        assert(block(m)[at - upto(m).len()] == upto(n)[at]);
        assert(block(m).contains(upto(n)[at]));
    }
}

} // verus!
