//! The Discussion tab: every review, every thread and the whole conversation.

use vstd::prelude::*;

use crate::discussion::{DiscussionFilter, DiscussionState};
use crate::paint::{copy_lines, line_of, page, Element, Line, SpanView};
use crate::patch::{comment_views, CommentView, ReviewComment};
use crate::pr::{ConversationComment, PullRequestDetail, Review};
use crate::strings::{concat2, concat4, concat5, decimal, number, repeat, repeated, trim, trimmed};

verus! {

broadcast use crate::paint::group_page;

/// Whether a comment starts a thread: it answers none, or one that is not there.
pub open spec fn is_root(comments: Seq<CommentView>, k: int) -> bool {
    match comments[k].in_reply_to {
        None => true,
        Some(id) => !exists|j: int| 0 <= j < comments.len() && (#[trigger] comments[j]).id == id,
    }
}

fn has_id(comments: &Vec<ReviewComment>, id: u64) -> (r: bool)
    ensures
        r == exists|j: int|
            0 <= j < comments@.len() && (#[trigger] comment_views(comments@)[j]).id == id,
{
    let ghost all = comment_views(comments@);
    let mut i: usize = 0;
    while i < comments.len()
        invariant
            i <= comments@.len(),
            all == comment_views(comments@),
            forall|j: int| 0 <= j < i ==> (#[trigger] all[j]).id != id,
        decreases comments@.len() - i,
    {
        assert(all[i as int] == comments@[i as int]@);
        if comments[i].id == id {
            return true;
        }
        i += 1;
    }
    false
}

fn starts_thread(comments: &Vec<ReviewComment>, k: usize) -> (r: bool)
    requires
        k < comments@.len(),
    ensures
        r == is_root(comment_views(comments@), k as int),
{
    assert(comment_views(comments@)[k as int] == comments@[k as int]@);
    assert(comment_views(comments@).len() == comments@.len());
    match comments[k].in_reply_to {
        None => true,
        Some(id) => !has_id(comments, id),
    }
}

/// Whether a filter shows a thread.
pub open spec fn shows(filter: DiscussionFilter, comment: CommentView) -> bool {
    match filter {
        DiscussionFilter::All => true,
        DiscussionFilter::Open => !comment.resolved && !comment.outdated,
        DiscussionFilter::Resolved => comment.resolved,
        DiscussionFilter::Outdated => comment.outdated,
    }
}

/// Whether a filter shows a thread, by its first comment.
#[must_use]
pub fn matches_filter(filter: DiscussionFilter, comment: &ReviewComment) -> (r: bool)
    ensures
        r == shows(filter, comment@),
{
    match filter {
        DiscussionFilter::All => true,
        DiscussionFilter::Open => !comment.resolved && !comment.outdated,
        DiscussionFilter::Resolved => comment.resolved,
        DiscussionFilter::Outdated => comment.outdated,
    }
}

/// A comment and all that answers it, with their texts as they are rendered.
///
/// Replies are nested no deeper than there are comments, which is as deep as they can be where
/// each comment has a number of its own.
pub open spec fn thread_lines(
    comments: Seq<CommentView>,
    bodies: Seq<Vec<Line>>,
    k: int,
    depth: nat,
    left: nat,
) -> Seq<Seq<SpanView>>
    decreases left, comments.len() + 1,
{
    if left == 0 {
        Seq::empty()
    } else {
        seq![
            line_of(
                " "@ + repeated(' ', 2 * depth) + comments[k].author + ":"@,
                Element::Muted,
            ),
        ] + page(bodies[k]@) + reply_lines(comments, bodies, k, depth, left, comments.len())
    }
}

/// What the first `n` comments hold that answers a comment.
pub open spec fn reply_lines(
    comments: Seq<CommentView>,
    bodies: Seq<Vec<Line>>,
    k: int,
    depth: nat,
    left: nat,
    n: nat,
) -> Seq<Seq<SpanView>>
    decreases left, n,
{
    if n == 0 || left == 0 {
        Seq::empty()
    } else {
        let before = reply_lines(comments, bodies, k, depth, left, (n - 1) as nat);
        if comments[n - 1].in_reply_to == Some(comments[k].id) {
            before + thread_lines(comments, bodies, n - 1, depth + 1, (left - 1) as nat)
        } else {
            before
        }
    }
}

fn append_thread(
    out: &mut Vec<Line>,
    comments: &Vec<ReviewComment>,
    bodies: &Vec<Vec<Line>>,
    k: usize,
    indent: &str,
    Ghost(depth): Ghost<nat>,
    left: usize,
)
    requires
        k < comments@.len(),
        bodies@.len() == comments@.len(),
        indent@ == repeated(' ', 2 * depth),
    ensures
        page(final(out)@) == page(old(out)@) + thread_lines(
            comment_views(comments@),
            bodies@,
            k as int,
            depth,
            left as nat,
        ),
    decreases left,
{
    let ghost before = page(out@);
    let ghost all = comment_views(comments@);
    assert(all.len() == comments@.len());
    if left == 0 {
        assert(page(out@) =~= before + thread_lines(all, bodies@, k as int, depth, 0));
        return;
    }
    assert(all[k as int] == comments@[k as int]@);
    out.push(
        Line::of(concat4(" ", indent, comments[k].author.as_str(), ":"), Element::Muted),
    );
    copy_lines(out, &bodies[k]);
    let ghost first = page(out@);
    let deeper = concat2(indent, "  ");
    proof {
        reveal_strlit("  ");
        assert(deeper@ =~= repeated(' ', 2 * (depth + 1)));
    }
    assert(first + reply_lines(all, bodies@, k as int, depth, left as nat, 0) =~= first);
    let mut i: usize = 0;
    while i < comments.len()
        invariant
            i <= comments@.len(),
            k < comments@.len(),
            left > 0,
            bodies@.len() == comments@.len(),
            all == comment_views(comments@),
            all.len() == comments@.len(),
            deeper@ == repeated(' ', 2 * (depth + 1)),
            page(out@) == first + reply_lines(
                all,
                bodies@,
                k as int,
                depth,
                left as nat,
                i as nat,
            ),
        decreases comments@.len() - i,
    {
        assert(all[i as int] == comments@[i as int]@);
        assert(all[k as int] == comments@[k as int]@);
        let answers: bool = match comments[i].in_reply_to {
            Some(id) => id == comments[k].id,
            None => false,
        };
        if answers {
            append_thread(
                out,
                comments,
                bodies,
                i,
                deeper.as_str(),
                Ghost(depth + 1),
                left - 1,
            );
        }
        i += 1;
        assert(page(out@) =~= first + reply_lines(
            all,
            bodies@,
            k as int,
            depth,
            left as nat,
            i as nat,
        ));
    }
    assert(page(out@) =~= before + thread_lines(all, bodies@, k as int, depth, left as nat));
}

/// How a thread stands.
pub open spec fn standing(comment: CommentView) -> Seq<char> {
    if comment.outdated {
        "outdated"@
    } else if comment.resolved {
        "resolved"@
    } else {
        "open"@
    }
}

/// A thread under its heading.
pub open spec fn thread_block(
    comments: Seq<CommentView>,
    bodies: Seq<Vec<Line>>,
    selected: Option<u64>,
    k: int,
) -> Seq<Seq<SpanView>> {
    seq![
        line_of(
            " thread · "@ + standing(comments[k]) + " · "@ + comments[k].path,
            if selected == Some(comments[k].id) { Element::Selection } else { Element::Title },
        ),
    ] + thread_lines(comments, bodies, k, 1, comments.len())
}

/// The threads that start among the first `n` comments and that a filter shows.
pub open spec fn thread_blocks(
    comments: Seq<CommentView>,
    bodies: Seq<Vec<Line>>,
    filter: DiscussionFilter,
    selected: Option<u64>,
    n: nat,
) -> Seq<Seq<SpanView>>
    decreases n,
{
    if n == 0 {
        Seq::empty()
    } else {
        let before = thread_blocks(comments, bodies, filter, selected, (n - 1) as nat);
        if is_root(comments, n - 1) && shows(filter, comments[n - 1]) {
            before + thread_block(comments, bodies, selected, n - 1)
        } else {
            before
        }
    }
}

fn add_threads(
    out: &mut Vec<Line>,
    comments: &Vec<ReviewComment>,
    bodies: &Vec<Vec<Line>>,
    filter: DiscussionFilter,
    selected: Option<u64>,
)
    requires
        bodies@.len() == comments@.len(),
    ensures
        page(final(out)@) == page(old(out)@) + thread_blocks(
            comment_views(comments@),
            bodies@,
            filter,
            selected,
            comments@.len(),
        ),
{
    let ghost before = page(out@);
    let ghost all = comment_views(comments@);
    assert(all.len() == comments@.len());
    assert(before + thread_blocks(all, bodies@, filter, selected, 0) =~= before);
    let indent = repeat(' ', 2);
    let mut i: usize = 0;
    while i < comments.len()
        invariant
            i <= comments@.len(),
            bodies@.len() == comments@.len(),
            all == comment_views(comments@),
            all.len() == comments@.len(),
            indent@ == repeated(' ', 2),
            page(out@) == before + thread_blocks(all, bodies@, filter, selected, i as nat),
        decreases comments@.len() - i,
    {
        let comment = &comments[i];
        assert(all[i as int] == comment@);
        if starts_thread(comments, i) && matches_filter(filter, comment) {
            let state: &str = if comment.outdated {
                "outdated"
            } else if comment.resolved {
                "resolved"
            } else {
                "open"
            };
            let chosen: bool = match selected {
                Some(id) => id == comment.id,
                None => false,
            };
            let ghost start = page(out@);
            out.push(
                Line::of(
                    concat4(" thread · ", state, " · ", comment.path.as_str()),
                    if chosen { Element::Selection } else { Element::Title },
                ),
            );
            append_thread(
                out,
                comments,
                bodies,
                i,
                indent.as_str(),
                Ghost(1),
                comments.len(),
            );
            assert(page(out@) =~= start + thread_block(all, bodies@, selected, i as int));
        }
        i += 1;
        assert(page(out@) =~= before + thread_blocks(all, bodies@, filter, selected, i as nat));
    }
}

/// A review: its verdict, and what it says, as it is rendered.
pub open spec fn review_block(review: Review, body: Seq<Seq<SpanView>>) -> Seq<Seq<SpanView>> {
    seq![line_of(" review · "@ + review.author@ + " · "@ + review.state@, Element::Title)] + (
    if trimmed(review.body@).len() == 0 {
        seq![line_of("   (no review body)"@, Element::Muted)]
    } else {
        body
    })
}

/// The first `n` reviews.
pub open spec fn review_blocks(reviews: Seq<Review>, bodies: Seq<Vec<Line>>, n: nat) -> Seq<
    Seq<SpanView>,
>
    decreases n,
{
    if n == 0 {
        Seq::empty()
    } else {
        review_blocks(reviews, bodies, (n - 1) as nat) + review_block(
            reviews[n - 1],
            page(bodies[n - 1]@),
        )
    }
}

fn add_reviews(out: &mut Vec<Line>, reviews: &Vec<Review>, bodies: &Vec<Vec<Line>>)
    requires
        bodies@.len() == reviews@.len(),
    ensures
        page(final(out)@) == page(old(out)@) + review_blocks(reviews@, bodies@, reviews@.len()),
{
    let ghost before = page(out@);
    assert(before + review_blocks(reviews@, bodies@, 0) =~= before);
    let mut i: usize = 0;
    while i < reviews.len()
        invariant
            i <= reviews@.len(),
            bodies@.len() == reviews@.len(),
            page(out@) == before + review_blocks(reviews@, bodies@, i as nat),
        decreases reviews@.len() - i,
    {
        let review = &reviews[i];
        let ghost start = page(out@);
        out.push(
            Line::of(
                concat4(" review · ", review.author.as_str(), " · ", review.state.as_str()),
                Element::Title,
            ),
        );
        if trim(review.body.as_str()).as_str().is_empty() {
            out.push(Line::literal("   (no review body)", Element::Muted));
        } else {
            copy_lines(out, &bodies[i]);
        }
        assert(page(out@) =~= start + review_block(*review, page(bodies@[i as int]@)));
        i += 1;
        assert(page(out@) =~= before + review_blocks(reviews@, bodies@, i as nat));
    }
}

/// The first `n` comments of the conversation.
pub open spec fn said_blocks(said: Seq<ConversationComment>, bodies: Seq<Vec<Line>>, n: nat) -> Seq<
    Seq<SpanView>,
>
    decreases n,
{
    if n == 0 {
        Seq::empty()
    } else {
        said_blocks(said, bodies, (n - 1) as nat).push(
            line_of(" conversation · "@ + said[n - 1].author@, Element::Title),
        ) + page(bodies[n - 1]@)
    }
}

fn add_said(out: &mut Vec<Line>, said: &Vec<ConversationComment>, bodies: &Vec<Vec<Line>>)
    requires
        bodies@.len() == said@.len(),
    ensures
        page(final(out)@) == page(old(out)@) + said_blocks(said@, bodies@, said@.len()),
{
    let ghost before = page(out@);
    assert(before + said_blocks(said@, bodies@, 0) =~= before);
    let mut i: usize = 0;
    while i < said.len()
        invariant
            i <= said@.len(),
            bodies@.len() == said@.len(),
            page(out@) == before + said_blocks(said@, bodies@, i as nat),
        decreases said@.len() - i,
    {
        out.push(
            Line::of(concat2(" conversation · ", said[i].author.as_str()), Element::Title),
        );
        copy_lines(out, &bodies[i]);
        i += 1;
        assert(page(out@) =~= before + said_blocks(said@, bodies@, i as nat));
    }
}

/// What was said about a pull request, as it is rendered.
pub struct DiscussionText {
    /// The reviews.
    pub reviews: Vec<Vec<Line>>,
    /// The comments on lines.
    pub comments: Vec<Vec<Line>>,
    /// The conversation.
    pub conversation: Vec<Vec<Line>>,
}

impl DiscussionText {
    /// Whether there is a text for everything that was said.
    pub open spec fn of(&self, detail: PullRequestDetail) -> bool {
        &&& self.reviews@.len() == detail.reviews@.len()
        &&& self.comments@.len() == detail.comments@.len()
        &&& self.conversation@.len() == detail.conversation@.len()
    }
}

/// What is shown of a discussion, before it is known whether that is anything.
pub open spec fn said_lines(
    detail: PullRequestDetail,
    state: DiscussionState,
    offline: bool,
    text: DiscussionText,
) -> Seq<Seq<SpanView>> {
    let all = state.filter == DiscussionFilter::All;
    (if offline {
        seq![
            line_of(
                " Cached discussion data; refresh was unavailable. Press R to retry."@,
                Element::StatusError,
            ),
        ]
    } else {
        Seq::empty()
    }) + (if all {
        review_blocks(detail.reviews@, text.reviews@, detail.reviews@.len())
    } else {
        Seq::empty()
    }) + thread_blocks(
        comment_views(detail.comments@),
        text.comments@,
        state.filter,
        state.selected_root,
        detail.comments@.len(),
    ) + (if all {
        said_blocks(detail.conversation@, text.conversation@, detail.conversation@.len())
    } else {
        Seq::empty()
    })
}

/// The Discussion tab: every record that the filter shows, those without a row in the diff
/// included, or that there is none.
pub open spec fn discussion_lines(
    detail: PullRequestDetail,
    state: DiscussionState,
    offline: bool,
    text: DiscussionText,
) -> Seq<Seq<SpanView>> {
    let said = said_lines(detail, state, offline, text);
    if said.len() == 0 {
        seq![line_of(" No discussion items match this filter."@, Element::Muted)]
    } else {
        said
    }
}

/// The Discussion tab.
#[must_use]
pub fn discussion(
    detail: &PullRequestDetail,
    state: &DiscussionState,
    offline: bool,
    text: &DiscussionText,
) -> (r: Vec<Line>)
    requires
        text.of(*detail),
    ensures
        page(r@) == discussion_lines(*detail, *state, offline, *text),
{
    let mut out: Vec<Line> = Vec::new();
    if offline {
        out.push(
            Line::literal(
                " Cached discussion data; refresh was unavailable. Press R to retry.",
                Element::StatusError,
            ),
        );
    }
    let all: bool = state.filter == DiscussionFilter::All;
    if all {
        add_reviews(&mut out, &detail.reviews, &text.reviews);
    }
    add_threads(&mut out, &detail.comments, &text.comments, state.filter, state.selected_root);
    if all {
        add_said(&mut out, &detail.conversation, &text.conversation);
    }
    assert(page(out@) =~= said_lines(*detail, *state, offline, *text));
    assert(page(out@).len() == out@.len());
    if out.len() == 0 {
        out.push(Line::literal(" No discussion items match this filter.", Element::Muted));
        assert(page(out@) =~= discussion_lines(*detail, *state, offline, *text));
    }
    out
}

/// How many of the first `n` comments start a thread that a filter shows.
pub open spec fn threads_shown(comments: Seq<CommentView>, filter: DiscussionFilter, n: nat) -> nat
    decreases n,
{
    if n == 0 {
        0
    } else {
        threads_shown(comments, filter, (n - 1) as nat) + if is_root(comments, n - 1) && shows(
            filter,
            comments[n - 1],
        ) {
            1nat
        } else {
            0
        }
    }
}

fn count_threads(comments: &Vec<ReviewComment>, filter: DiscussionFilter) -> (r: usize)
    ensures
        r == threads_shown(comment_views(comments@), filter, comments@.len()),
{
    let ghost all = comment_views(comments@);
    assert(all.len() == comments@.len());
    let mut count: usize = 0;
    let mut i: usize = 0;
    while i < comments.len()
        invariant
            i <= comments@.len(),
            count <= i,
            all == comment_views(comments@),
            count == threads_shown(all, filter, i as nat),
        decreases comments@.len() - i,
    {
        assert(all[i as int] == comments@[i as int]@);
        if starts_thread(comments, i) && matches_filter(filter, &comments[i]) {
            count += 1;
        }
        i += 1;
    }
    count
}

/// The title of the Discussion tab: the filter, and how many threads it shows.
#[must_use]
pub fn discussion_title(detail: &PullRequestDetail, state: &DiscussionState) -> (r: String)
    ensures
        r@ == " discussion · "@ + state.filter.name() + " ("@ + decimal(
            threads_shown(
                comment_views(detail.comments@),
                state.filter,
                detail.comments@.len(),
            ),
        ) + ") · f: cycle all/open/resolved/outdated · Enter: jump "@,
{
    concat5(
        " discussion · ",
        state.filter.label(),
        " (",
        number(count_threads(&detail.comments, state.filter) as u64).as_str(),
        ") · f: cycle all/open/resolved/outdated · Enter: jump ",
    )
}

/// Whether each comment of a path answers the one before it.
pub open spec fn answers_along(comments: Seq<CommentView>, path: Seq<int>) -> bool {
    &&& path.len() > 0
    &&& forall|i: int| 0 <= i < path.len() ==> 0 <= #[trigger] path[i] < comments.len()
    &&& forall|i: int|
        0 < i < path.len() ==> comments[#[trigger] path[i]].in_reply_to == Some(
            comments[path[i - 1]].id,
        )
}

/// The line that names the author of a comment.
pub open spec fn author_line(comment: CommentView, depth: nat) -> Seq<SpanView> {
    line_of(" "@ + repeated(' ', 2 * depth) + comment.author + ":"@, Element::Muted)
}

proof fn lemma_part_of_replies(
    comments: Seq<CommentView>,
    bodies: Seq<Vec<Line>>,
    k: int,
    depth: nat,
    left: nat,
    n: nat,
    reply: int,
    line: Seq<SpanView>,
)
    requires
        0 <= reply < n <= comments.len(),
        left > 0,
        comments[reply].in_reply_to == Some(comments[k].id),
        thread_lines(comments, bodies, reply, depth + 1, (left - 1) as nat).contains(line),
    ensures
        reply_lines(comments, bodies, k, depth, left, n).contains(line),
    decreases n,
{
    let before = reply_lines(comments, bodies, k, depth, left, (n - 1) as nat);
    let all = reply_lines(comments, bodies, k, depth, left, n);
    if reply == n - 1 {
        let own = thread_lines(comments, bodies, reply, depth + 1, (left - 1) as nat);
        let i = choose|i: int| 0 <= i < own.len() && own[i] == line;
        assert(all[before.len() + i] == line);
    } else {
        lemma_part_of_replies(
            comments,
            bodies,
            k,
            depth,
            left,
            (n - 1) as nat,
            reply,
            line,
        );
        let i = choose|i: int| 0 <= i < before.len() && before[i] == line;
        assert(all[i] == line);
    }
}

/// A thread shows every answer in it, to whatever depth: each comment that answers along a path
/// from the first one is named, two spaces further in than the one it answers.
pub proof fn lemma_a_thread_shows_every_answer(
    comments: Seq<CommentView>,
    bodies: Seq<Vec<Line>>,
    path: Seq<int>,
    depth: nat,
    left: nat,
)
    requires
        answers_along(comments, path),
        path.len() <= left,
    ensures
        thread_lines(comments, bodies, path[0], depth, left).contains(
            author_line(comments[path.last()], (depth + path.len() - 1) as nat),
        ),
    decreases path.len(),
{
    let k = path[0];
    let all = thread_lines(comments, bodies, k, depth, left);
    let line = author_line(comments[path.last()], (depth + path.len() - 1) as nat);
    if path.len() == 1 {
        assert(all[0] == line);
    } else {
        let rest = path.drop_first();
        assert forall|i: int| 0 <= i < rest.len() implies 0 <= #[trigger] rest[i] < comments.len() by {
            assert(rest[i] == path[i + 1]);
        }
        assert forall|i: int| 0 < i < rest.len() implies comments[#[trigger] rest[i]].in_reply_to
            == Some(comments[rest[i - 1]].id) by {
            assert(rest[i] == path[i + 1]);
            assert(rest[i - 1] == path[i]);
        }
        lemma_a_thread_shows_every_answer(comments, bodies, rest, depth + 1, (left - 1) as nat);
        assert(rest.last() == path.last());
        assert(path[1] == rest[0]);
        lemma_part_of_replies(
            comments,
            bodies,
            k,
            depth,
            left,
            comments.len(),
            rest[0],
            line,
        );
        let replies = reply_lines(comments, bodies, k, depth, left, comments.len());
        let i = choose|i: int| 0 <= i < replies.len() && replies[i] == line;
        let first = seq![author_line(comments[k], depth)] + page(bodies[k]@);
        assert(all =~= first + replies);
        assert(all[first.len() + i] == line);
    }
}

} // verus!
