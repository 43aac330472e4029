//! What holds of what the panes say: nothing is left out, and each thing is said where it belongs.

use vstd::prelude::*;

use crate::app::App;
use crate::chat::ChatState;
use crate::components::analysis::{
    answer_lines, confirming_lines, piece_row, plan_lines, question_lines, risk_lines, section_if,
    segment_lines, spaced_section_if, stale_lines, tail, warning_lines,
};
use crate::components::chat::{
    conversation_lines, failed_lines, message_lines, opening_lines, stored_lines, streaming_lines,
    typed_row, Rendered,
};
use crate::components::chrome::{
    command_row, latest_of, notice_element, status_row, status_segments,
};
use crate::components::drafts::{composer_page, typed_line};
use crate::components::files::{
    cell_spans, gutter_words, left_width, number_column, right_width, split_spans, tree_spans,
};
use crate::components::highlight::SyntaxSpan;
use crate::components::guidance::{evidence_entries, guide_entries, what, why, FileGuidance};
use crate::components::overview::{
    analysis_lines, coverage_lines, header_lines, origin_words, provenance_lines, steps_lines,
    suggestion_lines, OverviewText,
};
use crate::components::pr_list::{empty_lines, error_rows};
use crate::components::review::{count_of, ReviewTab};
use crate::components::threads::{
    discussion_lines, is_root, review_blocks, said_blocks, said_lines, shows, thread_block,
    thread_blocks, threads_shown, DiscussionText,
};
use crate::diff_view::DiffView;
use crate::discussion::{DiscussionFilter, DiscussionState};
use crate::draft::{place_label, Side};
use crate::drafts::{Composer, TargetView};
use crate::input::{lemma_where_a_line_starts_and_ends, line_end, line_start};
use crate::keys::Mode;
use crate::order::{holds_part, in_turn, stands_at};
use crate::notices::NoticeLevel;
use crate::paint::{line_of, page, span, Element, Line, SpanView};
use crate::panel::{FileNote, Segment};
use crate::patch::{comment_views, CommentView, FileView};
use crate::pr::PullRequestDetail;
use crate::rows::{author_name, comment_text, RowView};
use crate::session::{MessageView, Role, SessionMeta};
use crate::split::SplitView;
use crate::strings::{decimal, joined, lines_of, trimmed, views, words_of};
use crate::tree::TreeView;

verus! {

proof fn lemma_neighbours<A>(head: Seq<A>, first: Seq<A>, second: Seq<A>, tail: Seq<A>)
    ensures
        in_turn(head + first + second + tail, first, second),
{
    let whole = head + first + second + tail;
    assert(stands_at(whole, first, head.len() as int));
    assert(stands_at(whole, second, (head.len() + first.len()) as int));
}

/// An analysis is read from top to bottom: its summary, why, its risks, what was corrected, what is
/// worth asking, and the order to read in; that it is of an older commit is said before all.
pub proof fn lemma_an_analysis_is_read_from_top_to_bottom(app: App)
    requires
        app.panel.analysis is Some,
    ensures
        ({
            let panel = app.panel.analysis->0.analysis.panel;
            let page = answer_lines(&app);
            let summary = section_if(panel.summary@, "Summary"@);
            let intent = spaced_section_if(panel.intent@, "Why"@);
            let risks = risk_lines(panel.risks@);
            let warnings = warning_lines(views(app.panel.warnings@));
            let questions = question_lines(views(panel.questions@));
            let plan = plan_lines(app.panel.plan);
            &&& stands_at(page, stale_lines(app.is_stale()), 0)
            &&& in_turn(page, summary, intent)
            &&& in_turn(page, intent, risks)
            &&& in_turn(page, risks, warnings)
            &&& in_turn(page, warnings, questions)
            &&& in_turn(page, questions, plan)
            &&& app.is_stale() <==> stale_lines(app.is_stale()).len() > 0
        }),
{
    let panel = app.panel.analysis->0.analysis.panel;
    let page = answer_lines(&app);
    let stale = stale_lines(app.is_stale());
    let summary = section_if(panel.summary@, "Summary"@);
    let intent = spaced_section_if(panel.intent@, "Why"@);
    let risks = risk_lines(panel.risks@);
    let warnings = warning_lines(views(app.panel.warnings@));
    let questions = question_lines(views(panel.questions@));
    let plan = plan_lines(app.panel.plan);
    let none = Seq::<Seq<SpanView>>::empty();
    assert(stands_at(page, stale, 0));
    lemma_neighbours(stale, summary, intent, risks + warnings + questions + plan);
    assert(stale + summary + intent + (risks + warnings + questions + plan) =~= page);
    lemma_neighbours(stale + summary, intent, risks, warnings + questions + plan);
    assert(stale + summary + intent + risks + (warnings + questions + plan) =~= page);
    lemma_neighbours(stale + summary + intent, risks, warnings, questions + plan);
    assert(stale + summary + intent + risks + warnings + (questions + plan) =~= page);
    lemma_neighbours(stale + summary + intent + risks, warnings, questions, plan);
    lemma_neighbours(stale + summary + intent + risks + warnings, questions, plan, none);
    assert(stale + summary + intent + risks + warnings + questions + plan + none =~= page);
}

/// A piece of the context that is sent says how large it is, and one that is not says so.
pub proof fn lemma_a_piece_says_whether_it_is_sent(segment: Segment)
    ensures
        ({
            let row = segment_lines(segment)[0];
            &&& row.len() == 3
            &&& !segment.included ==> row[2].text == "  not sent"@
            &&& segment.included ==> holds_part(row[2].text, decimal(segment.tokens as nat))
            &&& segment_lines(segment).len() == if segment.detail is Some { 2int } else { 1 }
            &&& !segment.included ==> holds_part(row[0].text, "✗"@)
            &&& segment.included && segment.truncated ==> holds_part(row[0].text, "~"@)
            &&& segment.included && !segment.truncated ==> holds_part(row[0].text, "✓"@)
            &&& piece_row(segment)[0].text == if segment.included { "  ✓ "@ } else { "  ✗ "@ }
        }),
{
    let row = segment_lines(segment)[0];
    assert(stands_at(row[0].text, crate::components::analysis::segment_mark(segment).0, " "@.len() as int));
    if segment.included {
        let tokens = decimal(segment.tokens as nat);
        let shown = crate::text::aligned_right(tokens, 8);
        crate::text::lemma_aligning_fills_with_blanks(tokens, 8, 0);
        let at = shown.len() - tokens.len();
        assert(stands_at(row[2].text, tokens, at)) by {
            assert forall|k: int| 0 <= k < tokens.len() implies row[2].text[at + k] == #[trigger] tokens[k] by {
                assert(shown.subrange(at, shown.len() as int)[k] == tokens[k]);
            }
        }
    }
}

/// A question is drawn as it was typed, line by line under who asked it; an answer as it is
/// rendered, and one that was stopped says so.
pub proof fn lemma_a_message_says_who_it_is_from(app: App, message: MessageView, rendered: Rendered, k: int)
    ensures
        ({
            let lines = message_lines(&app, message, rendered);
            &&& lines.len() > 0
            &&& message.role == Role::User ==> {
                &&& lines[0] == line_of(" you"@, Element::ChatQuestion)
                &&& 0 <= k < rendered.wrapped@.len() ==> lines[1 + k] == line_of(
                    " "@ + rendered.wrapped@[k]@,
                    Element::ChatAnswer,
                )
            }
            &&& message.role == Role::Assistant ==> {
                &&& message.partial ==> lines[0] == line_of(" model (stopped)"@, Element::ChatStopped)
                &&& !message.partial ==> lines[0] == line_of(" model"@, Element::Muted)
                &&& 0 <= k < rendered.body@.len() ==> lines[1 + k] == line_of(" "@, Element::Bg) + page(
                    rendered.body@,
                )[k]
            }
        }),
{
}

/// A conversation is drawn in the order it went: what was said, then the answer that is arriving,
/// then why the last question failed.
pub proof fn lemma_a_conversation_is_drawn_in_the_order_it_went(
    app: App,
    rendered: Seq<Rendered>,
    streamed: Seq<Seq<SpanView>>,
)
    ensures
        ({
            let page = conversation_lines(&app, rendered, streamed);
            let stored = stored_lines(&app, rendered, app.chat.stored_count());
            &&& holds_part(page, stored)
            &&& app.chat.draws_answer() ==> in_turn(page, stored, streaming_lines(app.chat, streamed))
            &&& app.chat.status is Failed ==> in_turn(page, stored, failed_lines(app.chat.status))
        }),
{
    let page = conversation_lines(&app, rendered, streamed);
    let first = if app.chat.sessions@.len() == 0 && app.chat.session is None {
        opening_lines(&app)
    } else {
        Seq::empty()
    };
    let stored = stored_lines(&app, rendered, app.chat.stored_count());
    assert(stands_at(page, stored, first.len() as int));
    if app.chat.draws_answer() {
        let answer = streaming_lines(app.chat, streamed);
        assert(stands_at(page, answer, (first.len() + stored.len()) as int));
    }
    if app.chat.status is Failed {
        let before = if app.chat.draws_answer() {
            streaming_lines(app.chat, streamed).len() + 1
        } else {
            0
        };
        let failure = failed_lines(app.chat.status);
        assert(stands_at(page, failure, (first.len() + stored.len() + before) as int));
    }
}

/// The gutter of a line has the old number, the new number, the sign of the change and the mark of
/// a staged comment, in this order.
pub proof fn lemma_the_gutter(row: RowView, marked: bool)
    ensures
        ({
            let gutter = gutter_words(row, marked);
            let old = number_column(row.old_line);
            let new = number_column(row.new_line);
            &&& gutter.len() == old.len() + new.len() + 2
            &&& stands_at(gutter, old, 0)
            &&& stands_at(gutter, new, old.len() as int)
            &&& row.line_kind is Some ==> gutter[gutter.len() - 2] == row.line_kind->0.sign()
            &&& (gutter.last() == '●') == marked
        }),
{
}

/// Beside each other, the old side stands on the left with its old number and the new side on the
/// right with its new number; the divider stands between, and the two sides and it fill the width.
pub proof fn lemma_the_old_side_stands_left(
    row: SplitView,
    full_is_selected: bool,
    selected: bool,
    width: u16,
    marked: bool,
    left: Seq<SyntaxSpan>,
    right: Seq<SyntaxSpan>,
)
    requires
        row.full is None,
    ensures
        ({
            let spans = split_spans(row, full_is_selected, selected, width, marked, left, right);
            let old = cell_spans(row.left, Side::Old, left_width(width), selected, left);
            let new = cell_spans(row.right, Side::New, right_width(width), selected, right);
            &&& in_turn(spans, old, new)
            &&& stands_at(spans, old, 0)
            &&& spans[old.len() as int].text == "│"@
            &&& row.left is Some ==> old[0].text == number_column(row.left->0.old_line) + " "@
            &&& row.right is Some ==> new[0].text == number_column(row.right->0.new_line) + " "@
            &&& width > 0 ==> left_width(width) + 1 + right_width(width) == width
        }),
{
    let spans = split_spans(row, full_is_selected, selected, width, marked, left, right);
    let old = cell_spans(row.left, Side::Old, left_width(width), selected, left);
    let new = cell_spans(row.right, Side::New, right_width(width), selected, right);
    assert(stands_at(spans, old, 0));
    assert(stands_at(spans, new, (old.len() + 1) as int));
}

/// A row of the tree has a mark for what is folded, a group says where it is read, and a file says
/// its name and, where it is the one being read, that it is.
pub proof fn lemma_a_tree_row_says_what_it_stands_for(
    row: TreeView,
    file: Option<FileView>,
    folded: bool,
    progress: Seq<char>,
    selected: bool,
    current: bool,
)
    ensures
        ({
            let spans = tree_spans(row, file, folded, progress, selected, current);
            &&& row.kind is Group ==> holds_part(spans[0].text, decimal(row.kind->order as nat))
            &&& row.kind is File ==> {
                &&& spans.len() == 4
                &&& spans[2].text == crate::text::padded(row.label, 17)
                &&& file is Some ==> spans[3].text == crate::text::truncated(file->0.size_label, 9)
                &&& file is Some && file->0.path is Some ==> holds_part(spans[0].text, progress)
            }
        }),
{
    let spans = tree_spans(row, file, folded, progress, selected, current);
    if row.kind is Group {
        let lead = " "@ + crate::components::files::fold_mark(row.kind->Group_folded) + " "@;
        assert(stands_at(spans[0].text, decimal(row.kind->order as nat), lead.len() as int));
    }
    if row.kind is File && file is Some && file->0.path is Some {
        let indent = crate::strings::repeated(' ', (2 * row.depth) as nat);
        let lead = " "@ + indent + (if current { "·"@ } else { " "@ });
        assert(stands_at(spans[0].text, progress, lead.len() as int));
    }
}

/// The status line says the newest notice that is still relevant, in the colour of its level;
/// without one it says how to get help.
pub proof fn lemma_the_status_line_says_the_newest_notice(app: App, width: nat)
    ensures
        ({
            let row = status_row(&app, width);
            &&& row.len() > 0
            &&& latest_of(&app) is Some ==> row.last() == span(
                latest_of(&app)->0.text + " "@,
                notice_element(latest_of(&app)->0.level),
            )
            &&& latest_of(&app) is None ==> row.last().paint == span(""@, Element::Muted).paint
            &&& row[0].text == " "@ + app.mode.name() + " "@
        }),
{
    assert(status_row(&app, width)[0] == status_segments(&app, crate::components::chrome::status_background(&app))[0]);
}

/// The command line shows what is typed, or why the last command failed, and nothing outside its
/// mode.
pub proof fn lemma_the_command_line_shows_what_is_typed(app: App)
    ensures
        app.mode != Mode::Command ==> command_row(&app).len() == 0,
        app.mode == Mode::Command ==> command_row(&app).len() == 2,
        app.mode == Mode::Command && app.command.error is None ==> holds_part(
            command_row(&app)[1].text,
            app.command.input@,
        ),
        app.mode == Mode::Command && app.command.error is Some ==> holds_part(
            command_row(&app)[1].text,
            app.command.error->0@,
        ),
{
    if app.mode == Mode::Command {
        match app.command.error {
            Some(error) => {
                assert(stands_at(command_row(&app)[1].text, error@, " "@.len() as int));
            },
            None => {
                assert(stands_at(command_row(&app)[1].text, app.command.input@, " "@.len() as int));
            },
        }
    }
}

/// An empty list says why it is empty: a broken environment with what to do about it, else why the
/// fetch failed, line by line, else what was asked for.
pub proof fn lemma_an_empty_list_says_why(app: App, error: Seq<Seq<char>>)
    ensures
        app.environment_error is Some ==> {
            &&& empty_lines(&app, error).contains(
                line_of(app.environment_error->0.message@, Element::Fg),
            )
            &&& empty_lines(&app, error).contains(
                line_of("→ "@ + app.environment_error->0.advice@, Element::Accent),
            )
        },
        app.environment_error is None && app.list.error is Some ==> holds_part(
            empty_lines(&app, error),
            error_rows(error, error.len()),
        ),
        app.environment_error is None && app.list.error is None && !app.environment_running
            && !app.list.loading ==> empty_lines(&app, error).contains(
            line_of("query: "@ + app.list.asked(), Element::Muted),
        ),
{
    let lines = empty_lines(&app, error);
    if app.environment_error is Some {
        assert(lines[2] == line_of(app.environment_error->0.message@, Element::Fg));
        assert(lines[4] == line_of("→ "@ + app.environment_error->0.advice@, Element::Accent));
    } else if app.list.error is Some {
        assert(stands_at(lines, error_rows(error, error.len()), 2));
    } else if !app.environment_running && !app.list.loading {
        assert(lines[2] == line_of("query: "@ + app.list.asked(), Element::Muted));
    }
}

/// The composer shows every line that was typed, in order, and a refusal below them.
pub proof fn lemma_the_composer_shows_what_was_typed(composer: Composer, width: u16, k: int)
    requires
        width >= 6,
        composer.input@.len() > 0,
    ensures
        ({
            let rows = lines_of(composer.input@);
            let page = composer_page(composer, width);
            &&& 0 <= k < rows.len() ==> page[k] == typed_line(
                rows[k],
                k == 0,
                k == rows.len() - 1,
                (width - 6) as nat,
            )
            &&& composer.refusal is Some ==> page.len() == rows.len() + 1 && holds_part(
                page.last()[0].text,
                composer.refusal->0@,
            )
            &&& composer.refusal is None ==> page.len() == rows.len()
        }),
{
    let page = composer_page(composer, width);
    if composer.refusal is Some {
        assert(stands_at(page.last()[0].text, composer.refusal->0@, "   "@.len() as int));
    }
}

/// Before anything is sent, what would be sent is listed, piece by piece, and to whom.
pub proof fn lemma_what_would_be_sent_is_listed(app: App, k: int)
    requires
        app.panel.bundle is Some,
    ensures
        ({
            let segments = app.panel.bundle->0.segments@;
            let shown = if segments.len() < 12 { segments.len() } else { 12 };
            let page = confirming_lines(&app);
            &&& holds_part(page[2][0].text, app.panel.bundle->0.summary@)
            &&& holds_part(page[2][0].text, app.model_words())
            &&& 0 <= k < shown ==> page[3 + k] == piece_row(segments[k])
        }),
{
    let page = confirming_lines(&app);
    let summary = app.panel.bundle->0.summary@;
    assert(stands_at(page[2][0].text, summary, " This would send "@.len() as int));
    assert(stands_at(
        page[2][0].text,
        app.model_words(),
        (" This would send "@ + summary + " to "@).len() as int,
    ));
}

/// The overview opens with the title, who opened the pull request and from where to where, and has
/// the author's own words before anything that was inferred.
pub proof fn lemma_the_overview_opens_with_the_authors_words(detail: PullRequestDetail, body: Seq<Seq<SpanView>>)
    ensures
        holds_part(header_lines(detail, body)[0][0].text, detail.summary.title@),
        holds_part(origin_words(detail), detail.summary.author@),
        holds_part(origin_words(detail), detail.summary.head_ref@),
        holds_part(origin_words(detail), detail.summary.base_ref@),
        trimmed(detail.body@).len() > 0 ==> stands_at(header_lines(detail, body), body, 6),
{
    let words = origin_words(detail);
    let author = " author: "@;
    let head = author + detail.summary.author@ + " · "@;
    let base = head + detail.summary.head_ref@ + " → "@;
    assert(stands_at(words, detail.summary.author@, author.len() as int));
    assert(stands_at(words, detail.summary.head_ref@, head.len() as int));
    assert(stands_at(words, detail.summary.base_ref@, base.len() as int));
    assert(stands_at(header_lines(detail, body)[0][0].text, detail.summary.title@, " "@.len() as int));
}

/// A view that was made to fit its panes has both cursors on a row and in sight; scrolling one
/// moves no further than its rows and keeps the cursor in sight.
pub proof fn lemma_the_cursors_are_in_sight(view: DiffView, height: u16, delta: int)
    requires
        view.cursors_fit(),
        view.rows@.len() > 0,
        view.tree@.len() > 0,
        height > 0,
    ensures
        ({
            let fitted = view.fitted(height, height);
            &&& fitted.cursor == view.cursor
            &&& fitted.tree_cursor == view.tree_cursor
            &&& fitted.scroll <= fitted.cursor < fitted.scroll + height
            &&& fitted.tree_scroll <= fitted.tree_cursor < fitted.tree_scroll + height
            &&& fitted.viewport == height
            &&& fitted.rows == view.rows
        }),
        view.viewport > 0 ==> {
            let scrolled = view.scrolled(delta);
            &&& scrolled.scroll <= scrolled.cursor < scrolled.scroll + view.viewport
            &&& scrolled.cursor < view.rows@.len()
            &&& 0 <= view.scroll + delta && view.scroll + delta + view.viewport <= view.rows@.len()
                ==> scrolled.scroll == view.scroll + delta
            &&& scrolled.rows == view.rows
            &&& scrolled.tree_cursor == view.tree_cursor
        },
{
    assert(view.rows.len() == view.rows@.len());
    assert(view.tree.len() == view.tree@.len());
}

/// A note is its own words where it has some, else what changed, and only then what to look at; one
/// that says none of these says nothing.
pub proof fn lemma_a_note_says_the_most_it_can(note: FileNote)
    ensures
        trimmed(note.notes@).len() > 0 ==> note.sentence() == Some(trimmed(note.notes@)),
        trimmed(note.notes@).len() == 0 && trimmed(note.change@).len() > 0 ==> note.sentence() == Some(
            trimmed(note.change@),
        ),
        trimmed(note.notes@).len() == 0 && trimmed(note.change@).len() == 0 ==> {
            let focus = joined(views(note.review_focus@), "; "@);
            &&& focus.len() == 0 ==> note.sentence() is None
            &&& focus.len() > 0 ==> note.sentence() is Some && holds_part(note.sentence()->0, focus)
        },
{
    let focus = joined(views(note.review_focus@), "; "@);
    if trimmed(note.notes@).len() == 0 && trimmed(note.change@).len() == 0 && focus.len() > 0 {
        assert(stands_at(note.sentence()->0, focus, "check: "@.len() as int));
    }
}

/// A discussion is read as reviews, then threads, then the conversation; a filter leaves the
/// threads it shows and nothing else, and an empty discussion says that it is.
pub proof fn lemma_a_discussion_is_read_in_its_order(
    detail: PullRequestDetail,
    state: DiscussionState,
    offline: bool,
    text: DiscussionText,
)
    ensures
        ({
            let said = said_lines(detail, state, offline, text);
            let reviews = review_blocks(detail.reviews@, text.reviews@, detail.reviews@.len());
            let threads = thread_blocks(
                comment_views(detail.comments@),
                text.comments@,
                state.filter,
                state.selected_root,
                detail.comments@.len(),
            );
            let conversation = said_blocks(
                detail.conversation@,
                text.conversation@,
                detail.conversation@.len(),
            );
            &&& state.filter == DiscussionFilter::All ==> in_turn(said, reviews, threads) && in_turn(
                said,
                threads,
                conversation,
            )
            &&& state.filter != DiscussionFilter::All && !offline ==> said == threads
            &&& holds_part(said, threads)
            &&& discussion_lines(detail, state, offline, text).len() > 0
            &&& said.len() > 0 ==> discussion_lines(detail, state, offline, text) == said
        }),
{
    let said = said_lines(detail, state, offline, text);
    let reviews = review_blocks(detail.reviews@, text.reviews@, detail.reviews@.len());
    let threads = thread_blocks(
        comment_views(detail.comments@),
        text.comments@,
        state.filter,
        state.selected_root,
        detail.comments@.len(),
    );
    let conversation = said_blocks(
        detail.conversation@,
        text.conversation@,
        detail.conversation@.len(),
    );
    let first: int = if offline { 1 } else { 0 };
    if state.filter == DiscussionFilter::All {
        assert(stands_at(said, reviews, first));
        assert(stands_at(said, threads, first + reviews.len()));
        assert(stands_at(said, conversation, first + reviews.len() + threads.len()));
    } else {
        assert(stands_at(said, threads, first));
        if !offline {
            assert(said =~= threads);
        }
    }
}

/// A comment starts a thread exactly when no comment in the list has the number it answers.
pub proof fn lemma_what_starts_a_thread(comments: Seq<CommentView>, k: int)
    requires
        0 <= k < comments.len(),
    ensures
        is_root(comments, k) <==> forall|j: int|
            0 <= j < comments.len() ==> comments[k].in_reply_to != Some((#[trigger] comments[j]).id),
{
}

/// The heading of a discussion counts the threads that the filter shows: it says none exactly when
/// none is listed, which is when no comment starts a thread that the filter shows.
pub proof fn lemma_the_count_is_of_the_threads_shown(
    comments: Seq<CommentView>,
    bodies: Seq<Vec<Line>>,
    filter: DiscussionFilter,
    selected: Option<u64>,
    n: nat,
)
    requires
        n <= comments.len(),
    ensures
        threads_shown(comments, filter, n) <= n,
        threads_shown(comments, filter, n) == 0 <==> thread_blocks(
            comments,
            bodies,
            filter,
            selected,
            n,
        ).len() == 0,
        threads_shown(comments, filter, n) == 0 <==> forall|k: int|
            0 <= k < n ==> !(is_root(comments, k) && shows(filter, #[trigger] comments[k])),
    decreases n,
{
    if n > 0 {
        lemma_the_count_is_of_the_threads_shown(comments, bodies, filter, selected, (n - 1) as nat);
        assert(thread_block(comments, bodies, selected, n - 1).len() > 0);
        assert(comments[n - 1] == comments[n - 1]);
    }
}

/// What an analysis says in the overview is read in its order: the brief, the purpose, the plan,
/// what it covers, what to ask and where it comes from.
pub proof fn lemma_the_brief_is_read_in_its_order(app: App, detail: PullRequestDetail, text: OverviewText)
    ensures
        ({
            let analysis = app.panel.analysis->0.analysis.panel;
            let lines = analysis_lines(&app, detail, text);
            let steps = steps_lines(analysis.steps@, analysis.steps@.len());
            let coverage = coverage_lines(detail, analysis);
            let questions = suggestion_lines(views(analysis.questions@));
            let origin = provenance_lines(&app, text.origin@);
            &&& in_turn(lines, page(text.summary@), page(text.intent@))
            &&& in_turn(lines, page(text.intent@), steps)
            &&& in_turn(lines, steps, coverage)
            &&& in_turn(lines, coverage, questions)
            &&& in_turn(lines, questions, origin)
        }),
{
    let analysis = app.panel.analysis->0.analysis.panel;
    let lines = analysis_lines(&app, detail, text);
    let summary = page(text.summary@);
    let intent = page(text.intent@);
    let steps = steps_lines(analysis.steps@, analysis.steps@.len());
    let coverage = coverage_lines(detail, analysis);
    let questions = suggestion_lines(views(analysis.questions@));
    let origin = provenance_lines(&app, text.origin@);
    let a: int = 1;
    let b = a + summary.len() + 1;
    let c = b + intent.len() + 1;
    let d = c + steps.len();
    let e = d + coverage.len();
    assert(stands_at(lines, summary, a));
    assert(stands_at(lines, intent, b));
    assert(stands_at(lines, steps, c));
    assert(stands_at(lines, coverage, d));
    assert(stands_at(lines, questions, e));
    assert(stands_at(lines, origin, e + questions.len()));
}

/// What changed and why stand first, then what to verify, in its order and numbered from one; each
/// piece of evidence names its file.
pub proof fn lemma_what_to_verify_is_listed(guidance: FileGuidance, i: int)
    ensures
        ({
            let entries = guide_entries(guidance);
            &&& entries.len() >= 3
            &&& entries[0].body == what(guidance)
            &&& entries[1].body == why(guidance)
            &&& 0 <= i < guidance.verify@.len() ==> entries.len() == 2 + guidance.verify@.len()
                && entries[2 + i].body == guidance.verify@[i]@ && holds_part(
                entries[2 + i].label,
                decimal((i + 1) as nat),
            )
            &&& guidance.what_changed@.len() > 0 ==> what(guidance) == guidance.what_changed@
            &&& guidance.inferred_why@.len() > 0 ==> why(guidance) == guidance.inferred_why@
            &&& 0 <= i < guidance.evidence@.len() ==> holds_part(
                evidence_entries(guidance.evidence@, guidance.evidence@.len())[i].body,
                guidance.evidence@[i].path@,
            )
        }),
{
    let entries = guide_entries(guidance);
    if 0 <= i < guidance.verify@.len() {
        assert(views(guidance.verify@)[i] == guidance.verify@[i]@);
        assert(stands_at(entries[2 + i].label, decimal((i + 1) as nat), "Verify "@.len() as int));
    }
    if 0 <= i < guidance.evidence@.len() {
        let body = evidence_entries(guidance.evidence@, guidance.evidence@.len())[i].body;
        assert(stands_at(body, guidance.evidence@[i].path@, 0));
    }
}

/// Writing a conversation down keeps it, whether that worked or not, and says when it did not.
pub proof fn lemma_a_conversation_that_is_not_saved_is_kept(
    before: App,
    after: App,
    failure: Option<&str>,
    listed: Vec<SessionMeta>,
)
    requires
        after.chat_written(&before, failure, listed),
    ensures
        after.chat.session == before.chat.session,
        !after.chat_dirty,
        failure is None ==> after.notices == before.notices,
        before.chat.session is Some && before.environment is Some ==> after.chat.sessions == listed,
        before.chat.session is Some && failure is Some ==> after.notices_after(
            &before,
            NoticeLevel::Warn,
            "the conversation could not be saved: "@ + failure->0@,
        ),
{
}

/// A comment drawn in the diff says who wrote it and all that it says, further in the deeper it answers;
/// that it is about the old side is said exactly where it is.
pub proof fn lemma_a_drawn_comment_says_who_and_what(comment: CommentView, depth: nat, k: int)
    ensures
        ({
            let text = comment_text(comment, depth);
            let body = joined(words_of(comment.body), " "@);
            let opening = 2 * depth + 2 + author_name(comment).len();
            &&& 0 <= k < 2 * depth ==> text[k] == ' '
            &&& stands_at(text, author_name(comment), (2 * depth + 2) as int)
            &&& holds_part(text, body)
            &&& text.subrange(text.len() - body.len(), text.len() as int) == body
            &&& comment.side == Some("LEFT"@) ==> stands_at(text, " (old side)"@, opening as int)
            &&& comment.side != Some("LEFT"@) ==> text.len() == opening + 2 + body.len()
            &&& trimmed(comment.author).len() > 0 ==> author_name(comment) == trimmed(comment.author)
        }),
{
    reveal_strlit("▸");
    reveal_strlit("↳");
    reveal_strlit(" ");
    reveal_strlit(": ");
    reveal_strlit("");
    let text = comment_text(comment, depth);
    let body = joined(words_of(comment.body), " "@);
    let opening = 2 * depth + 2 + author_name(comment).len();
    assert(stands_at(text, author_name(comment), (2 * depth + 2) as int));
    assert(stands_at(text, body, text.len() - body.len()));
    assert(text.subrange(text.len() - body.len(), text.len() as int) =~= body);
    if comment.side == Some("LEFT"@) {
        assert(stands_at(text, " (old side)"@, opening as int));
    }
}

/// The label of a place names its file, its side and its line, and both ends of a range.
pub proof fn lemma_a_label_names_both_ends(path: Seq<char>, side: Side, line: u32, start_line: Option<u32>)
    ensures
        ({
            let label = place_label(path, side, line, start_line);
            &&& stands_at(label, path, 0)
            &&& holds_part(label, decimal(line as nat))
            &&& holds_part(label, side.name())
            &&& start_line is Some ==> in_turn(
                label,
                decimal(start_line->0 as nat),
                decimal(line as nat),
            )
        }),
{
    let label = place_label(path, side, line, start_line);
    let head = path + ":"@;
    assert(stands_at(label, path, 0));
    match start_line {
        Some(start) => {
            let first = decimal(start as nat);
            let at = head.len() + first.len() + "-"@.len();
            assert(stands_at(label, first, head.len() as int));
            assert(stands_at(label, decimal(line as nat), at as int));
            let rest = at + decimal(line as nat).len() + " ("@.len();
            assert(stands_at(label, side.name(), rest as int));
        },
        None => {
            assert(stands_at(label, decimal(line as nat), head.len() as int));
            let rest = head.len() + decimal(line as nat).len() + " ("@.len();
            assert(stands_at(label, side.name(), rest as int));
        },
    }
}

/// What is shown of a text that streams in is its end: its last lines, in their order, and all of them
/// while there are few.
pub proof fn lemma_the_end_of_a_stream_is_shown(rows: Seq<Seq<char>>)
    ensures
        tail(rows).len() <= rows.len(),
        stands_at(rows, tail(rows), rows.len() - tail(rows).len()),
        rows.len() <= 24 ==> tail(rows) == rows,
        rows.len() > 24 ==> tail(rows).len() == 24,
        rows.len() > 0 ==> tail(rows).last() == rows.last(),
{
}

/// A tab counts what is to be found behind it: files, checks, everything that was said, and the questions
/// of the conversation that is open.
pub proof fn lemma_a_tab_counts_what_is_behind_it(app: App)
    requires
        app.detail is Some,
    ensures
        ({
            let detail = app.detail->0;
            &&& count_of(&app, ReviewTab::Files) == Some(detail.summary.changed_files as nat)
            &&& count_of(&app, ReviewTab::Checks) == Some(detail.checks@.len())
            &&& count_of(&app, ReviewTab::Discussion) == Some(
                detail.reviews@.len() + detail.comments@.len() + detail.conversation@.len(),
            )
            &&& count_of(&app, ReviewTab::Overview) is None
            &&& count_of(&app, ReviewTab::Ask) is Some <==> app.chat.session is Some && app.chat.open
                && app.review is Some
            &&& count_of(&app, ReviewTab::Ask) is Some ==> count_of(&app, ReviewTab::Ask)->0
                == app.chat.summed().turns || count_of(&app, ReviewTab::Ask)->0 > usize::MAX
        }),
{
}

/// A composer's title says what it is about: the place of a comment, the thread of a reply, or the
/// conversation.
pub proof fn lemma_a_title_says_where_it_lands(target: TargetView)
    ensures
        target is Line ==> holds_part(target.heading(), target->Line_0.words()) && target.place()
            == target->Line_0.words() && target.spot() == Some(target->Line_0),
        target is Thread && target->anchor is Some ==> holds_part(
            target.heading(),
            target->anchor->0.words(),
        ) && target.spot() == target->anchor,
        target is Conversation ==> target.spot() is None,
{
    if target is Line {
        let words = target->Line_0.words();
        assert(stands_at(target.heading(), words, "comment on "@.len() as int));
    }
    if target is Thread && target->anchor is Some {
        let words = target->anchor->0.words();
        assert(stands_at(target.heading(), words, "reply on "@.len() as int));
    }
}

/// The line that is typed is drawn around the cursor: what stands before it on its line, and what stands
/// behind it.
pub proof fn lemma_the_cursor_is_drawn_where_it_is(chat: ChatState, element: Element)
    requires
        chat.input.wf(),
    ensures
        ({
            let row = typed_row(chat, element);
            let start = line_start(chat.input@, chat.input.cursor as nat);
            let end = line_end(chat.input@, chat.input.cursor as nat);
            &&& row.len() == 4
            &&& row[1].text + row[3].text == chat.input@.subrange(start as int, end as int)
            &&& row[1].text.len() == chat.input.cursor - start
            &&& !(row[1].text + row[3].text).contains('\n')
        }),
{
    let text = chat.input@;
    let cursor = chat.input.cursor as nat;
    let row = typed_row(chat, element);
    let start = line_start(text, cursor) as int;
    let end = line_end(text, cursor) as int;
    lemma_where_a_line_starts_and_ends(text, cursor, 0);
    let line = text.subrange(start, end);
    assert(row[1].text + row[3].text =~= line);
    assert forall|k: int| 0 <= k < line.len() implies line[k] != '\n' by {
        lemma_where_a_line_starts_and_ends(text, cursor, start + k);
    }
}

} // verus!
