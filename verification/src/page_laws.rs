//! What holds of the pages that list things: everything is listed, in its order, and says what it
//! stands for.

use vstd::prelude::*;

use crate::action::{ActionDef, Group};
use crate::app::App;
use crate::components::analysis::{
    block, groups_lines, group_lines, marked_blocks, preview_groups, risk_block, risk_blocks,
    risk_words, segment_lines, segments_lines, PreviewPlan,
};
use crate::components::chat::{
    conversation_start, labels_in_diff, message_lines, stored_lines, Rendered,
};
use crate::components::conversation::{comment_blocks, comment_head, text_rows};
use crate::components::drafts::{comment_words, indented_rows, staged_blocks, staged_elements};
use crate::components::files::{is_marked, split_rows, unified_rows, unified_spans, RowSyntax};
use crate::components::guidance::{entries_lines, entry_rows, EntryView};
use crate::components::overview::{check_block, check_blocks, check_mark, step_lines, steps_lines};
use crate::components::popups::{
    group_block, group_blocks, group_rows, help_row, is_shown, key_label, key_labels, keys_of,
};
use crate::components::pr_list::{item_spans, table_rows, Columns};
use crate::components::threads::{
    is_root, reply_lines, review_block, review_blocks, said_blocks, shows, standing, thread_block,
    thread_blocks, thread_lines,
};
use crate::diff_view::DiffView;
use crate::discussion::DiscussionFilter;
use crate::draft::{lemma_a_marked_line_has_a_comment, DraftComment, Side};
use crate::drafts::DraftState;
use crate::keys::Binding;
use crate::list_view::PrListState;
use crate::order::{
    goes_on, holds_part, in_turn, lemma_in_turn_within, lemma_listed_in_turn, stands_at,
};
use crate::paint::{line_of, page, Element, Line, SpanView};
use crate::panel::{PanelPlanStep, PanelRisk, Segment};
use crate::patch::CommentView;
use crate::plan::GroupView;
use crate::pr::{CheckRun, ConversationComment, Review};
use crate::rows::RowView;
use crate::session::ReferenceView;
use crate::strings::{decimal, joined, repeated, views};
use crate::text::{aligned_left, lemma_aligning_fills_with_blanks, padded, padded_left};

verus! {

/// Risks are listed in the order the analysis names them.
pub proof fn lemma_risks_are_listed_in_order(risks: Seq<PanelRisk>, a: nat, b: nat)
    requires
        a < b < risks.len(),
    ensures
        in_turn(
            risk_blocks(risks, risks.len()),
            risk_block(risks[a as int]),
            risk_block(risks[b as int]),
        ),
{
    let upto = |n: nat| risk_blocks(risks, n);
    let each = |k: nat| risk_block(risks[k as int]);
    assert forall|k: nat| k < risks.len() implies #[trigger] goes_on(upto, each, k) by {
        assert(upto(k + 1) =~= upto(k) + each(k));
    }
    lemma_listed_in_turn(upto, each, risks.len(), a, b);
}

/// Questions and corrections are listed in their order, each wrapped behind its mark.
pub proof fn lemma_points_are_listed_in_order(
    mark: Seq<char>,
    texts: Seq<Seq<char>>,
    element: Element,
    a: nat,
    b: nat,
)
    requires
        a < b < texts.len(),
    ensures
        in_turn(
            marked_blocks(mark, texts, element, texts.len()),
            block(mark, "    "@, texts[a as int], 92, element),
            block(mark, "    "@, texts[b as int], 92, element),
        ),
{
    let upto = |n: nat| marked_blocks(mark, texts, element, n);
    let each = |k: nat| block(mark, "    "@, texts[k as int], 92, element);
    assert forall|k: nat| k < texts.len() implies #[trigger] goes_on(upto, each, k) by {
        assert(upto(k + 1) =~= upto(k) + each(k));
    }
    lemma_listed_in_turn(upto, each, texts.len(), a, b);
}

/// The groups of a plan are listed in the plan's order.
pub proof fn lemma_groups_are_listed_in_order(groups: Seq<GroupView>, a: nat, b: nat)
    requires
        a < b < groups.len(),
    ensures
        in_turn(
            groups_lines(groups, groups.len()),
            group_lines(groups[a as int]),
            group_lines(groups[b as int]),
        ),
{
    let upto = |n: nat| groups_lines(groups, n);
    let each = |k: nat| group_lines(groups[k as int]);
    assert forall|k: nat| k < groups.len() implies #[trigger] goes_on(upto, each, k) by {
        assert(upto(k + 1) =~= upto(k) + each(k));
    }
    lemma_listed_in_turn(upto, each, groups.len(), a, b);
}

/// The groups of a plan that streams in are listed in the order they arrive, numbered from one.
pub proof fn lemma_streamed_groups_are_listed_in_order(plan: Seq<PreviewPlan>, a: nat, b: nat)
    requires
        a < b < plan.len(),
    ensures
        in_turn(
            preview_groups(plan, plan.len()),
            (
                seq![
                    line_of(
                        "  "@ + decimal((a + 1) as nat) + ". "@ + plan[a as int].group@,
                        Element::Accent,
                    ),
                ]
                + block("      "@, "      "@, plan[a as int].rationale@, 88, Element::Muted)
            ),
            (
                seq![
                    line_of(
                        "  "@ + decimal((b + 1) as nat) + ". "@ + plan[b as int].group@,
                        Element::Accent,
                    ),
                ]
                + block("      "@, "      "@, plan[b as int].rationale@, 88, Element::Muted)
            ),
        ),
{
    let upto = |n: nat| preview_groups(plan, n);
    let each = |k: nat|
        (
            seq![
                line_of(
                    "  "@ + decimal((k + 1) as nat) + ". "@ + plan[k as int].group@,
                    Element::Accent,
                ),
            ]
            + block("      "@, "      "@, plan[k as int].rationale@, 88, Element::Muted)
        );
    assert forall|k: nat| k < plan.len() implies #[trigger] goes_on(upto, each, k) by {
        assert(upto(k + 1) =~= upto(k) + each(k));
    }
    lemma_listed_in_turn(upto, each, plan.len(), a, b);
}

/// The pieces of a context are listed in the order they were gathered.
pub proof fn lemma_pieces_are_listed_in_order(segments: Seq<Segment>, a: nat, b: nat)
    requires
        a < b < segments.len(),
    ensures
        in_turn(
            segments_lines(segments, segments.len()),
            segment_lines(segments[a as int]),
            segment_lines(segments[b as int]),
        ),
{
    let upto = |n: nat| segments_lines(segments, n);
    let each = |k: nat| segment_lines(segments[k as int]);
    assert forall|k: nat| k < segments.len() implies #[trigger] goes_on(upto, each, k) by {
        assert(upto(k + 1) =~= upto(k) + each(k));
    }
    lemma_listed_in_turn(upto, each, segments.len(), a, b);
}

/// The messages of a conversation are drawn oldest first.
pub proof fn lemma_messages_are_drawn_in_order(app: App, rendered: Seq<Rendered>, a: nat, b: nat)
    requires
        a < b < app.chat.session->0@.messages.len(),
    ensures
        in_turn(
            stored_lines(&app, rendered, app.chat.session->0@.messages.len()),
            message_lines(
                &app,
                app.chat.session->0@.messages[a as int],
                rendered[a as int]).push(Seq::empty(),
            ),
            message_lines(
                &app,
                app.chat.session->0@.messages[b as int],
                rendered[b as int]).push(Seq::empty(),
            ),
        ),
{
    let upto = |n: nat| stored_lines(&app, rendered, n);
    let each = |k: nat|
        message_lines(
            &app,
            app.chat.session->0@.messages[k as int],
            rendered[k as int]).push(Seq::empty(),
        );
    assert forall|k: nat| k < app.chat.session->0@.messages.len() implies #[trigger] goes_on(upto, each, k) by {
        assert(upto(k + 1) =~= upto(k) + each(k));
    }
    lemma_listed_in_turn(upto, each, app.chat.session->0@.messages.len(), a, b);
}

/// The comments of the conversation are drawn in their order, each under who wrote it.
pub proof fn lemma_comments_are_drawn_in_order(
    comments: Seq<ConversationComment>,
    selected: Option<usize>,
    ages: Seq<Seq<char>>,
    bodies: Seq<Vec<Line>>,
    a: nat,
    b: nat,
)
    requires
        a < b < comments.len(),
    ensures
        in_turn(
            comment_blocks(comments, selected, ages, bodies, comments.len()),
            (
                seq![
                    comment_head(comments[a as int], ages[a as int], selected == Some(a as usize)),
                ]
                + text_rows(page(bodies[a as int]@), bodies[a as int]@.len())
            ).push(Seq::empty()),
            (
                seq![
                    comment_head(comments[b as int], ages[b as int], selected == Some(b as usize)),
                ]
                + text_rows(page(bodies[b as int]@), bodies[b as int]@.len())
            ).push(Seq::empty()),
        ),
{
    let upto = |n: nat| comment_blocks(comments, selected, ages, bodies, n);
    let each = |k: nat|
        (
            seq![comment_head(comments[k as int], ages[k as int], selected == Some(k as usize))]
            + text_rows(page(bodies[k as int]@), bodies[k as int]@.len())
        ).push(Seq::empty());
    assert forall|k: nat| k < comments.len() implies #[trigger] goes_on(upto, each, k) by {
        assert(upto(k + 1) =~= upto(k) + each(k));
    }
    lemma_listed_in_turn(upto, each, comments.len(), a, b);
}

/// Staged comments are listed in their order, numbered from one, each with its text below.
pub proof fn lemma_staged_comments_are_listed_in_order(
    comments: Seq<DraftComment>,
    bodies: Seq<Vec<Line>>,
    cursor: Option<usize>,
    a: nat,
    b: nat,
)
    requires
        a < b < comments.len(),
    ensures
        in_turn(
            staged_blocks(comments, bodies, cursor, comments.len()),
            (
                seq![
                    line_of(
                        comment_words(comments[a as int], (a + 1) as nat),
                        staged_elements(cursor, (a + 1) as nat).0,
                    ),
                ]
                + indented_rows(
                    "    "@,
                    staged_elements(cursor, (a + 1) as nat).1,
                    page(bodies[a as int]@),
                    bodies[a as int]@.len(),
                )
            ),
            (
                seq![
                    line_of(
                        comment_words(comments[b as int], (b + 1) as nat),
                        staged_elements(cursor, (b + 1) as nat).0,
                    ),
                ]
                + indented_rows(
                    "    "@,
                    staged_elements(cursor, (b + 1) as nat).1,
                    page(bodies[b as int]@),
                    bodies[b as int]@.len(),
                )
            ),
        ),
{
    let upto = |n: nat| staged_blocks(comments, bodies, cursor, n);
    let each = |k: nat|
        (
            seq![
                line_of(
                    comment_words(comments[k as int], (k + 1) as nat),
                    staged_elements(cursor, (k + 1) as nat).0,
                ),
            ]
            + indented_rows(
                "    "@,
                staged_elements(cursor, (k + 1) as nat).1,
                page(bodies[k as int]@),
                bodies[k as int]@.len(),
            )
        );
    assert forall|k: nat| k < comments.len() implies #[trigger] goes_on(upto, each, k) by {
        assert(upto(k + 1) =~= upto(k) + each(k));
    }
    lemma_listed_in_turn(upto, each, comments.len(), a, b);
}

/// The entries of the guidance are listed in their order, each text behind its label.
pub proof fn lemma_entries_are_listed_in_order(
    entries: Seq<EntryView>,
    wrapped: Seq<Vec<String>>,
    a: nat,
    b: nat,
)
    requires
        a < b < entries.len(),
    ensures
        in_turn(
            entries_lines(entries, wrapped, entries.len()),
            entry_rows(
                entries[a as int].label,
                views(wrapped[a as int]@),
                wrapped[a as int]@.len(),
            ),
            entry_rows(
                entries[b as int].label,
                views(wrapped[b as int]@),
                wrapped[b as int]@.len(),
            ),
        ),
{
    let upto = |n: nat| entries_lines(entries, wrapped, n);
    let each = |k: nat|
        entry_rows(entries[k as int].label, views(wrapped[k as int]@), wrapped[k as int]@.len());
    assert forall|k: nat| k < entries.len() implies #[trigger] goes_on(upto, each, k) by {
        assert(upto(k + 1) =~= upto(k) + each(k));
    }
    lemma_listed_in_turn(upto, each, entries.len(), a, b);
}

/// The steps of the reading plan are listed in their order.
pub proof fn lemma_steps_are_listed_in_order(steps: Seq<PanelPlanStep>, a: nat, b: nat)
    requires
        a < b < steps.len(),
    ensures
        in_turn(
            steps_lines(steps, steps.len()),
            step_lines(steps[a as int]),
            step_lines(steps[b as int]),
        ),
{
    let upto = |n: nat| steps_lines(steps, n);
    let each = |k: nat| step_lines(steps[k as int]);
    assert forall|k: nat| k < steps.len() implies #[trigger] goes_on(upto, each, k) by {
        assert(upto(k + 1) =~= upto(k) + each(k));
    }
    lemma_listed_in_turn(upto, each, steps.len(), a, b);
}

/// Checks are listed in the order they were reported, and the one under the cursor stands out.
pub proof fn lemma_checks_are_listed_in_order(
    checks: Seq<CheckRun>,
    cursor: usize,
    a: nat,
    b: nat,
)
    requires
        a < b < checks.len(),
    ensures
        in_turn(
            check_blocks(checks, cursor, checks.len()),
            check_block(checks[a as int], a == cursor),
            check_block(checks[b as int], b == cursor),
        ),
{
    let upto = |n: nat| check_blocks(checks, cursor, n);
    let each = |k: nat| check_block(checks[k as int], k == cursor);
    assert forall|k: nat| k < checks.len() implies #[trigger] goes_on(upto, each, k) by {
        assert(upto(k + 1) =~= upto(k) + each(k));
    }
    lemma_listed_in_turn(upto, each, checks.len(), a, b);
}

/// Reviews are listed in their order.
pub proof fn lemma_reviews_are_listed_in_order(
    reviews: Seq<Review>,
    bodies: Seq<Vec<Line>>,
    a: nat,
    b: nat,
)
    requires
        a < b < reviews.len(),
    ensures
        in_turn(
            review_blocks(reviews, bodies, reviews.len()),
            review_block(reviews[a as int], page(bodies[a as int]@)),
            review_block(reviews[b as int], page(bodies[b as int]@)),
        ),
{
    let upto = |n: nat| review_blocks(reviews, bodies, n);
    let each = |k: nat| review_block(reviews[k as int], page(bodies[k as int]@));
    assert forall|k: nat| k < reviews.len() implies #[trigger] goes_on(upto, each, k) by {
        assert(upto(k + 1) =~= upto(k) + each(k));
    }
    lemma_listed_in_turn(upto, each, reviews.len(), a, b);
}

/// The conversation is listed in its order, each comment under who wrote it.
pub proof fn lemma_the_conversation_is_listed_in_order(
    said: Seq<ConversationComment>,
    bodies: Seq<Vec<Line>>,
    a: nat,
    b: nat,
)
    requires
        a < b < said.len(),
    ensures
        in_turn(
            said_blocks(said, bodies, said.len()),
            (
                seq![line_of(" conversation · "@ + said[a as int].author@, Element::Title)]
                + page(bodies[a as int]@)
            ),
            (
                seq![line_of(" conversation · "@ + said[b as int].author@, Element::Title)]
                + page(bodies[b as int]@)
            ),
        ),
{
    let upto = |n: nat| said_blocks(said, bodies, n);
    let each = |k: nat|
        (
            seq![line_of(" conversation · "@ + said[k as int].author@, Element::Title)]
            + page(bodies[k as int]@)
        );
    assert forall|k: nat| k < said.len() implies #[trigger] goes_on(upto, each, k) by {
        assert(upto(k + 1) =~= upto(k) + each(k));
    }
    lemma_listed_in_turn(upto, each, said.len(), a, b);
}

/// What the list of threads holds of a comment.
spec fn listed_thread(
    comments: Seq<CommentView>,
    bodies: Seq<Vec<Line>>,
    filter: DiscussionFilter,
    selected: Option<u64>,
    k: int,
) -> Seq<Seq<SpanView>> {
    if is_root(comments, k) && shows(filter, comments[k]) {
        thread_block(comments, bodies, selected, k)
    } else {
        Seq::empty()
    }
}

/// Threads are listed in the order their first comments are: each that the filter shows, and no
/// answer as a thread of its own.
pub proof fn lemma_threads_are_listed_in_order(
    comments: Seq<CommentView>,
    bodies: Seq<Vec<Line>>,
    filter: DiscussionFilter,
    selected: Option<u64>,
    a: nat,
    b: nat,
)
    requires
        a < b < comments.len(),
        is_root(comments, a as int),
        is_root(comments, b as int),
        shows(filter, comments[a as int]),
        shows(filter, comments[b as int]),
    ensures
        in_turn(
            thread_blocks(comments, bodies, filter, selected, comments.len()),
            thread_block(comments, bodies, selected, a as int),
            thread_block(comments, bodies, selected, b as int),
        ),
{
    let upto = |n: nat| thread_blocks(comments, bodies, filter, selected, n);
    let each = |k: nat| listed_thread(comments, bodies, filter, selected, k as int);
    assert forall|k: nat| k < comments.len() implies #[trigger] goes_on(upto, each, k) by {
        assert(upto(k + 1) =~= upto(k) + each(k));
    }
    lemma_listed_in_turn(upto, each, comments.len(), a, b);
}

/// Answers to one comment are listed in their order, one level further in.
pub proof fn lemma_answers_are_listed_in_order(
    comments: Seq<CommentView>,
    bodies: Seq<Vec<Line>>,
    k: int,
    depth: nat,
    left: nat,
    a: nat,
    b: nat,
)
    requires
        left > 0,
        a < b < comments.len(),
        comments[a as int].in_reply_to == Some(comments[k].id),
        comments[b as int].in_reply_to == Some(comments[k].id),
    ensures
        in_turn(
            thread_lines(comments, bodies, k, depth, left),
            thread_lines(comments, bodies, a as int, depth + 1, (left - 1) as nat),
            thread_lines(comments, bodies, b as int, depth + 1, (left - 1) as nat),
        ),
{
    let upto = |n: nat| reply_lines(comments, bodies, k, depth, left, n);
    let each = |m: nat|
        if comments[m as int].in_reply_to == Some(comments[k].id) {
            thread_lines(comments, bodies, m as int, depth + 1, (left - 1) as nat)
        } else {
            Seq::empty()
        };
    assert forall|m: nat| m < comments.len() implies #[trigger] goes_on(upto, each, m) by {
        assert(upto(m + 1) =~= upto(m) + each(m));
    }
    lemma_listed_in_turn(upto, each, comments.len(), a, b);
    let whole = thread_lines(comments, bodies, k, depth, left);
    let replies = reply_lines(comments, bodies, k, depth, left, comments.len());
    let head = whole.subrange(0, whole.len() - replies.len());
    lemma_in_turn_within(head, replies, Seq::empty(), each(a), each(b));
    assert(head + replies + Seq::<Seq<SpanView>>::empty() =~= whole);
}

/// A listed comment opens with who wrote it, and its text follows.
pub proof fn lemma_a_listed_comment_opens_with_its_author(
    comments: Seq<CommentView>,
    bodies: Seq<Vec<Line>>,
    k: int,
    depth: nat,
    left: nat,
)
    requires
        left > 0,
    ensures
        ({
            let lines = thread_lines(comments, bodies, k, depth, left);
            &&& lines.len() > bodies[k]@.len()
            &&& lines[0].len() == 1
            &&& holds_part(lines[0][0].text, comments[k].author)
            &&& stands_at(lines, page(bodies[k]@), 1)
        }),
{
    let lines = thread_lines(comments, bodies, k, depth, left);
    let lead = " "@ + repeated(' ', 2 * depth);
    let own = lead + comments[k].author + ":"@;
    assert(stands_at(own, comments[k].author, lead.len() as int));
    assert(lines[0][0].text == own);
}

/// A filter shows exactly the threads it is named after: all of them, the resolved ones, the
/// outdated ones, or those that are neither.
pub proof fn lemma_a_filter_shows_what_it_is_named_after(comment: CommentView)
    ensures
        shows(DiscussionFilter::All, comment),
        shows(DiscussionFilter::Resolved, comment) == comment.resolved,
        shows(DiscussionFilter::Outdated, comment) == comment.outdated,
        shows(DiscussionFilter::Open, comment) == !(shows(DiscussionFilter::Resolved, comment) || shows(
            DiscussionFilter::Outdated,
            comment,
        )),
{
}

/// What the list of a group's actions holds of an action.
spec fn listed_action(
    definitions: Seq<ActionDef>,
    bindings: Seq<Binding>,
    filter: Option<Seq<char>>,
    group: Group,
    k: int,
) -> Seq<Seq<SpanView>> {
    if definitions[k].group == group && is_shown(filter, definitions[k].id@) {
        seq![help_row(keys_of(bindings, definitions[k].id@), definitions[k].description@)]
    } else {
        Seq::empty()
    }
}

/// The actions of a group are listed in their order: each that is shown, with every key that leads
/// to it.
pub proof fn lemma_actions_are_listed_in_order(
    definitions: Seq<ActionDef>,
    bindings: Seq<Binding>,
    filter: Option<Seq<char>>,
    group: Group,
    a: nat,
    b: nat,
)
    requires
        a < b < definitions.len(),
        definitions[a as int].group == group,
        definitions[b as int].group == group,
        is_shown(filter, definitions[a as int].id@),
        is_shown(filter, definitions[b as int].id@),
    ensures
        in_turn(
            group_rows(definitions, bindings, filter, group, definitions.len()),
            seq![
                help_row(
                    keys_of(bindings, definitions[a as int].id@),
                    definitions[a as int].description@,
                ),
            ],
            seq![
                help_row(
                    keys_of(bindings, definitions[b as int].id@),
                    definitions[b as int].description@,
                ),
            ],
        ),
{
    let upto = |n: nat| group_rows(definitions, bindings, filter, group, n);
    let each = |k: nat| listed_action(definitions, bindings, filter, group, k as int);
    assert forall|k: nat| k < definitions.len() implies #[trigger] goes_on(upto, each, k) by {
        assert(upto(k + 1) =~= upto(k) + each(k));
    }
    lemma_listed_in_turn(upto, each, definitions.len(), a, b);
}

/// The help list goes through the groups in their order.
pub proof fn lemma_help_groups_are_listed_in_order(
    definitions: Seq<ActionDef>,
    bindings: Seq<Binding>,
    filter: Option<Seq<char>>,
    order: Seq<Group>,
    a: nat,
    b: nat,
)
    requires
        a < b < order.len(),
    ensures
        in_turn(
            group_blocks(definitions, bindings, filter, order, order.len()),
            group_block(definitions, bindings, filter, order[a as int]),
            group_block(definitions, bindings, filter, order[b as int]),
        ),
{
    let upto = |n: nat| group_blocks(definitions, bindings, filter, order, n);
    let each = |k: nat| group_block(definitions, bindings, filter, order[k as int]);
    assert forall|k: nat| k < order.len() implies #[trigger] goes_on(upto, each, k) by {
        assert(upto(k + 1) =~= upto(k) + each(k));
    }
    lemma_listed_in_turn(upto, each, order.len(), a, b);
}

/// The keys of an action are those of its bindings and no others.
pub proof fn lemma_the_keys_of_an_action(
    bindings: Seq<Binding>,
    action: Seq<char>,
    n: nat,
    label: Seq<char>,
)
    requires
        n <= bindings.len(),
    ensures
        key_labels(bindings, action, n).contains(label) <==> exists|k: int|
            0 <= k < n && (#[trigger] bindings[k]).action@ == action && key_label(bindings[k]) == label,
    decreases n,
{
    if n > 0 {
        let m = (n - 1) as nat;
        lemma_the_keys_of_an_action(bindings, action, m, label);
        let before = key_labels(bindings, action, m);
        let after = key_labels(bindings, action, n);
        if before.contains(label) {
            let k = choose|k: int| 0 <= k < before.len() && before[k] == label;
            assert(after[k] == label);
        }
        if bindings[m as int].action@ == action {
            assert(after[before.len() as int] == key_label(bindings[m as int]));
            if after.contains(label) && !before.contains(label) {
                let k = choose|k: int| 0 <= k < after.len() && after[k] == label;
                if k < before.len() {
                    assert(before[k] == label);
                }
            }
        }
    }
}

/// The references of a message that are named below it are those whose files the change has.
pub proof fn lemma_references_named_are_in_the_change(
    app: App,
    references: Seq<ReferenceView>,
    n: nat,
    label: Seq<char>,
)
    requires
        n <= references.len(),
    ensures
        labels_in_diff(&app, references, n).contains(label) <==> exists|k: int|
            0 <= k < n && app.has_path((#[trigger] references[k]).path) && references[k].label == label,
    decreases n,
{
    if n > 0 {
        let m = (n - 1) as nat;
        lemma_references_named_are_in_the_change(app, references, m, label);
        let before = labels_in_diff(&app, references, m);
        let after = labels_in_diff(&app, references, n);
        if before.contains(label) {
            let k = choose|k: int| 0 <= k < before.len() && before[k] == label;
            assert(after[k] == label);
        }
        if app.has_path(references[m as int].path) {
            assert(after[before.len() as int] == references[m as int].label);
            if after.contains(label) && !before.contains(label) {
                let k = choose|k: int| 0 <= k < after.len() && after[k] == label;
                if k < before.len() {
                    assert(before[k] == label);
                }
            }
        }
    }
}

/// A risk is named by its title on its first line, beside how severe it is.
pub proof fn lemma_a_risk_is_named(risk: PanelRisk)
    ensures
        risk_block(risk)[0].len() == 2,
        holds_part(risk_block(risk)[0][0].text, risk.severity.name()),
        holds_part(risk_block(risk)[0][1].text, risk.title@),
        risk.supported && risk.files@.len() > 0 ==> holds_part(
            risk_block(risk)[0][1].text,
            joined(views(risk.files@), ", "@),
        ),
{
    let text = risk_words(risk);
    let files = joined(views(risk.files@), ", "@);
    assert(stands_at(text, risk.title@, 0));
    if risk.supported && risk.files@.len() > 0 {
        assert(stands_at(text, files, (risk.title@ + " ["@).len() as int));
    }
    let lead = "  "@;
    let named = aligned_left(risk.severity.name(), 6);
    lemma_aligning_fills_with_blanks(risk.severity.name(), 6, 0);
    let whole = lead + named + " "@;
    let name = risk.severity.name();
    assert(stands_at(whole, name, lead.len() as int)) by {
        assert forall|k: int| 0 <= k < name.len() implies whole[lead.len() + k] == #[trigger] name[k] by {
            assert(named.subrange(0, name.len() as int)[k] == name[k]);
        }
    }
}

/// A check is named on its first line, and stands out exactly when it is under the cursor or
/// failed.
pub proof fn lemma_a_check_is_named(check: CheckRun, selected: bool)
    ensures
        check_block(check, selected).len() > 0,
        holds_part(check_block(check, selected)[0][0].text, check.name@),
        check.description is Some ==> check_block(check, selected).len() > 1 && holds_part(
            check_block(check, selected)[1][0].text,
            check.description->0@,
        ),
{
    let block = check_block(check, selected);
    let lead = " "@ + check_mark(check.state) + " "@;
    assert(stands_at(block[0][0].text, check.name@, lead.len() as int));
    if check.description is Some {
        assert(stands_at(block[1][0].text, check.description->0@, "     "@.len() as int));
    }
}

/// A thread is headed by the file it is about, a review by who gave it and its verdict, a staged
/// comment by the file it is on, and a stored conversation by its id.
pub proof fn lemma_headings_say_what_stands_below(
    comments: Seq<CommentView>,
    bodies: Seq<Vec<Line>>,
    selected: Option<u64>,
    k: int,
    review: Review,
    body: Seq<Seq<SpanView>>,
    staged: DraftComment,
    number: nat,
)
    ensures
        holds_part(thread_block(comments, bodies, selected, k)[0][0].text, comments[k].path),
        holds_part(review_block(review, body)[0][0].text, review.author@),
        holds_part(review_block(review, body)[0][0].text, review.state@),
        holds_part(comment_words(staged, number), staged.path@),
        holds_part(comment_words(staged, number), decimal(staged.line as nat)),
{
    let thread = thread_block(comments, bodies, selected, k)[0][0].text;
    let lead = " thread · "@ + standing(comments[k]) + " · "@;
    assert(stands_at(thread, comments[k].path, lead.len() as int));
    let said = review_block(review, body)[0][0].text;
    assert(stands_at(said, review.author@, " review · "@.len() as int));
    assert(stands_at(said, review.state@, (" review · "@ + review.author@ + " · "@).len() as int));
    let words = comment_words(staged, number);
    let front = " "@ + decimal(number) + ". "@;
    assert(stands_at(words, staged.path@, front.len() as int));
    let before = match staged.start_line {
        Some(start) => front + staged.path@ + ":"@ + decimal(start as nat) + "-"@,
        None => front + staged.path@ + ":"@,
    };
    assert(stands_at(words, decimal(staged.line as nat), before.len() as int));
}

/// The selected thread stands out, and no other does.
pub proof fn lemma_the_selected_thread_stands_out(
    comments: Seq<CommentView>,
    bodies: Seq<Vec<Line>>,
    selected: Option<u64>,
    k: int,
)
    ensures
        thread_block(comments, bodies, selected, k)[0] == line_of(
            thread_block(comments, bodies, selected, k)[0][0].text,
            if selected == Some(comments[k].id) { Element::Selection } else { Element::Title },
        ),
{
    let heading = thread_block(comments, bodies, selected, k)[0];
    assert(heading =~= line_of(
        heading[0].text,
        if selected == Some(comments[k].id) { Element::Selection } else { Element::Title },
    ));
}

/// The list draws the pull requests that the search leaves, from where it is scrolled to on and in
/// their order, and the one under the cursor stands out.
pub proof fn lemma_the_list_draws_what_the_search_leaves(
    list: PrListState,
    columns: Columns,
    ages: Seq<Seq<char>>,
    scroll: nat,
    n: nat,
    i: int,
)
    requires
        0 <= i < n,
        scroll + n <= list.visible@.len(),
    ensures
        ({
            let at = list.visible@[scroll + i] as int;
            let row = table_rows(list, columns, ages, scroll, n)[i];
            &&& table_rows(list, columns, ages, scroll, n).len() == n
            &&& row == item_spans(columns, list.items@[at], ages[at], scroll + i == list.cursor)
            &&& row[1].text == padded_left(decimal(list.items@[at].number as nat), columns.number as nat)
            &&& row[4].text == padded(list.items@[at].title@, columns.title as nat) + " "@
            &&& row[5].text == padded(list.items@[at].author@, columns.author as nat) + " "@
        }),
{
}

/// The newest thing said is at the bottom unless the conversation is scrolled, and scrolling leads
/// towards its start, row by row.
pub proof fn lemma_a_conversation_is_read_from_its_end(len: nat, height: nat, scroll: nat)
    ensures
        len <= height ==> conversation_start(len, height, scroll) == 0,
        len > height ==> conversation_start(len, height, 0) + height == len,
        scroll + height <= len ==> conversation_start(len, height, scroll) + scroll + height == len,
        scroll + height > len ==> conversation_start(len, height, scroll) == 0,
{
}

/// A line carries the mark exactly when a staged comment ends on it, on the side it is about.
pub proof fn lemma_a_line_is_marked_where_a_comment_is_staged(
    view: DiffView,
    drafts: DraftState,
    row: RowView,
    k: int,
)
    requires
        row.file < view.patch@.files.len(),
        view.patch@.files[row.file as int].path is Some,
        0 <= k < drafts.draft@.comments.len(),
        drafts.draft@.comments[k].path == view.patch@.files[row.file as int].path->0,
        (drafts.draft@.comments[k].side == Side::New && row.new_line == Some(drafts.draft@.comments[k].line))
            || (drafts.draft@.comments[k].side == Side::Old && row.old_line == Some(
            drafts.draft@.comments[k].line,
        )),
    ensures
        is_marked(view, drafts, row),
{
    let comment = drafts.draft@.comments[k];
    lemma_a_marked_line_has_a_comment(
        drafts.draft@,
        comment.path,
        comment.side,
        comment.line,
        drafts.draft@.comments.len(),
    );
}

/// The rows of the diff are drawn from where the window starts on, in their order, and the one
/// under the cursor stands out.
pub proof fn lemma_the_diff_draws_its_rows(
    view: DiffView,
    drafts: DraftState,
    width: u16,
    syntax: Seq<RowSyntax>,
    start: nat,
    n: nat,
    i: int,
)
    requires
        0 <= i < n,
        start + n <= view.rows@.len(),
    ensures
        unified_rows(view, drafts, width, syntax, start, n).len() == n,
        unified_rows(view, drafts, width, syntax, start, n)[i] == unified_spans(
            view.rows@[start + i]@,
            view.cursor == start + i,
            width,
            is_marked(view, drafts, view.rows@[start + i]@),
            syntax[i].left@,
        ),
        split_rows(view, drafts, width, syntax, start, n).len() == n,
{
}

} // verus!
