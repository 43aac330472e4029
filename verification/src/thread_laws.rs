//! What holds of the discussion drawn in the diff: who is drawn below whom, and in which order.

use vstd::prelude::*;

use crate::order::{
    holds_part, in_turn, lemma_holds_within, lemma_in_turn_across, lemma_in_turn_within, stands_at,
};
use crate::patch::{CommentView, FileView};
use crate::rows::{
    comment_lines, discussion, first_file, last_with_id, lemma_lineage_extends,
    lemma_lineage_is_short, lineage, parent_of, reply_lines, thread_key, thread_lines,
};

verus! {

/// Whether comment `i` answers comment `k`: it names its number, which no later comment has.
pub open spec fn answers(comments: Seq<CommentView>, i: nat, k: nat) -> bool {
    &&& i < comments.len()
    &&& k < comments.len()
    &&& i != k
    &&& comments[i as int].in_reply_to == Some(comments[k as int].id)
    &&& forall|m: int| k < m < comments.len() ==> (#[trigger] comments[m]).id != comments[k as int].id
}

proof fn lemma_last_with_id(comments: Seq<CommentView>, id: u64, n: nat)
    requires
        n <= comments.len(),
    ensures
        match last_with_id(comments, id, n) {
            Some(k) => {
                &&& k < n
                &&& comments[k as int].id == id
                &&& forall|m: int| k < m < n ==> (#[trigger] comments[m]).id != id
            },
            None => forall|m: int| 0 <= m < n ==> (#[trigger] comments[m]).id != id,
        },
    decreases n,
{
    if n > 0 && comments[n - 1].id != id {
        lemma_last_with_id(comments, id, (n - 1) as nat);
    }
}

/// A comment's parent is the comment it answers, and a comment without one answers none in the
/// list.
pub proof fn lemma_the_parent_is_answered(comments: Seq<CommentView>, i: nat, k: nat)
    requires
        i < comments.len(),
    ensures
        parent_of(comments, i) == Some(k) <==> answers(comments, i, k),
{
    match comments[i as int].in_reply_to {
        Some(id) => {
            lemma_last_with_id(comments, id, comments.len());
            if answers(comments, i, k) {
                match last_with_id(comments, id, comments.len()) {
                    Some(other) => {
                        if other < k {
                            assert(comments[k as int].id != id);
                        } else if k < other {
                            assert(comments[other as int].id != comments[k as int].id);
                        }
                    },
                    None => {
                        assert(comments[k as int].id != id);
                    },
                }
            }
        },
        None => {},
    }
}

proof fn lemma_replies_hold(comments: Seq<CommentView>, k: nat, depth: nat, i: nat, n: nat)
    requires
        parent_of(comments, i) == Some(k),
        i < n <= comments.len(),
        depth < comments.len(),
    ensures
        holds_part(reply_lines(comments, k, depth, n), thread_lines(comments, i, depth + 1)),
    decreases n,
{
    let part = thread_lines(comments, i, depth + 1);
    let before = reply_lines(comments, k, depth, (n - 1) as nat);
    let whole = reply_lines(comments, k, depth, n);
    if i == n - 1 {
        assert(whole == before + part);
        assert(stands_at(whole, part, before.len() as int));
    } else {
        lemma_replies_hold(comments, k, depth, i, (n - 1) as nat);
        let last = if parent_of(comments, (n - 1) as nat) == Some(k) {
            thread_lines(comments, (n - 1) as nat, depth + 1)
        } else {
            Seq::empty()
        };
        lemma_holds_within(Seq::empty(), before, last, part);
        assert(Seq::<Seq<char>>::empty() + before + last =~= whole);
    }
}

proof fn lemma_replies_in_turn(comments: Seq<CommentView>, k: nat, depth: nat, i: nat, j: nat, n: nat)
    requires
        parent_of(comments, i) == Some(k),
        parent_of(comments, j) == Some(k),
        i < j < n <= comments.len(),
        depth < comments.len(),
    ensures
        in_turn(
            reply_lines(comments, k, depth, n),
            thread_lines(comments, i, depth + 1),
            thread_lines(comments, j, depth + 1),
        ),
    decreases n,
{
    let first = thread_lines(comments, i, depth + 1);
    let second = thread_lines(comments, j, depth + 1);
    let before = reply_lines(comments, k, depth, (n - 1) as nat);
    let whole = reply_lines(comments, k, depth, n);
    if j == n - 1 {
        lemma_replies_hold(comments, k, depth, i, (n - 1) as nat);
        assert(stands_at(second, second, 0));
        lemma_in_turn_across(before, second, first, second);
    } else {
        lemma_replies_in_turn(comments, k, depth, i, j, (n - 1) as nat);
        let last = if parent_of(comments, (n - 1) as nat) == Some(k) {
            thread_lines(comments, (n - 1) as nat, depth + 1)
        } else {
            Seq::empty()
        };
        lemma_in_turn_within(Seq::empty(), before, last, first, second);
        assert(Seq::<Seq<char>>::empty() + before + last =~= whole);
    }
}

/// A thread opens with the comment that it hangs on, and all that answers it stands below.
pub proof fn lemma_a_comment_stands_above_its_answers(comments: Seq<CommentView>, i: nat, k: nat, depth: nat)
    requires
        answers(comments, i, k),
        depth < comments.len(),
    ensures
        stands_at(thread_lines(comments, k, depth), comment_lines(comments[k as int], depth), 0),
        in_turn(
            thread_lines(comments, k, depth),
            comment_lines(comments[k as int], depth),
            thread_lines(comments, i, depth + 1),
        ),
{
    lemma_the_parent_is_answered(comments, i, k);
    let own = comment_lines(comments[k as int], depth);
    let replies = reply_lines(comments, k, depth, comments.len());
    lemma_replies_hold(comments, k, depth, i, comments.len());
    assert(stands_at(own, own, 0));
    lemma_in_turn_across(own, replies, own, thread_lines(comments, i, depth + 1));
}

/// Answers to one comment are drawn in the order they are listed: all lines of the earlier one
/// stand before all lines of the later one.
pub proof fn lemma_answers_are_drawn_in_order(
    comments: Seq<CommentView>,
    i: nat,
    j: nat,
    k: nat,
    depth: nat,
)
    requires
        answers(comments, i, k),
        answers(comments, j, k),
        i < j,
        depth < comments.len(),
    ensures
        in_turn(
            thread_lines(comments, k, depth),
            thread_lines(comments, i, depth + 1),
            thread_lines(comments, j, depth + 1),
        ),
{
    lemma_the_parent_is_answered(comments, i, k);
    lemma_the_parent_is_answered(comments, j, k);
    lemma_replies_in_turn(comments, k, depth, i, j, comments.len());
    let own = comment_lines(comments[k as int], depth);
    let replies = reply_lines(comments, k, depth, comments.len());
    lemma_in_turn_within(
        own,
        replies,
        Seq::empty(),
        thread_lines(comments, i, depth + 1),
        thread_lines(comments, j, depth + 1),
    );
    assert(own + replies + Seq::<Seq<char>>::empty() =~= thread_lines(comments, k, depth));
}

/// A thread nobody has answered is the comment alone.
pub proof fn lemma_an_unanswered_comment_stands_alone(comments: Seq<CommentView>, k: nat, depth: nat)
    requires
        k < comments.len(),
        depth < comments.len(),
        forall|i: nat| !answers(comments, i, k),
    ensures
        thread_lines(comments, k, depth) == comment_lines(comments[k as int], depth),
{
    lemma_no_replies(comments, k, depth, comments.len());
    assert(thread_lines(comments, k, depth) =~= comment_lines(comments[k as int], depth));
}

proof fn lemma_no_replies(comments: Seq<CommentView>, k: nat, depth: nat, n: nat)
    requires
        n <= comments.len(),
        forall|i: nat| !answers(comments, i, k),
    ensures
        reply_lines(comments, k, depth, n).len() == 0,
    decreases n,
{
    if n > 0 {
        lemma_no_replies(comments, k, depth, (n - 1) as nat);
        lemma_the_parent_is_answered(comments, (n - 1) as nat, k);
    }
}

/// The comments from a thread's first one down to an answer: each answers the one before it, and
/// the first one answers none.
pub open spec fn leads_down(comments: Seq<CommentView>, path: Seq<nat>) -> bool {
    &&& path.len() > 0
    &&& path[0] < comments.len()
    &&& forall|k: nat| !answers(comments, path[0], k)
    &&& forall|k: int| 0 < k < path.len() ==> answers(comments, #[trigger] path[k], path[k - 1])
}

proof fn lemma_leading_down_is_lineage(comments: Seq<CommentView>, path: Seq<nat>)
    requires
        leads_down(comments, path),
    ensures
        lineage(comments, path),
    decreases path.len(),
{
    if path.len() == 1 {
        match parent_of(comments, path[0]) {
            Some(k) => {
                lemma_the_parent_is_answered(comments, path[0], k);
            },
            None => {},
        }
    } else {
        let shorter = path.drop_last();
        assert forall|k: int| 0 < k < shorter.len() implies answers(
            comments,
            #[trigger] shorter[k],
            shorter[k - 1],
        ) by {
            assert(answers(comments, path[k], path[k - 1]));
        }
        lemma_leading_down_is_lineage(comments, shorter);
        let last = path[path.len() - 1];
        assert(answers(comments, last, path[path.len() - 2]));
        lemma_the_parent_is_answered(comments, last, path[path.len() - 2]);
        lemma_lineage_extends(comments, shorter, last);
        assert(shorter.push(last) =~= path);
    }
}

/// However deep an answer is, the thread it belongs to shows it, one level in for each comment
/// above it.
pub proof fn lemma_every_answer_is_drawn(comments: Seq<CommentView>, path: Seq<nat>)
    requires
        leads_down(comments, path),
    ensures
        path.last() < comments.len(),
        holds_part(
            thread_lines(comments, path[0], 0),
            comment_lines(comments[path.last() as int], (path.len() - 1) as nat),
        ),
{
    lemma_leading_down_is_lineage(comments, path);
    lemma_lineage_is_short(comments, path);
    lemma_drawn_below(comments, path, (path.len() - 1) as nat);
    assert(path[path.len() - 1] < comments.len());
    let depth = (path.len() - 1) as nat;
    let own = comment_lines(comments[path.last() as int], depth);
    let thread = thread_lines(comments, path.last(), depth);
    assert(stands_at(thread, own, 0));
    let place = choose|place: int| #[trigger]
        stands_at(thread_lines(comments, path[0], 0), thread, place);
    let root = thread_lines(comments, path[0], 0);
    assert forall|k: int| 0 <= k < own.len() implies root[place + k] == #[trigger] own[k] by {
        assert(thread[k] == own[k]);
        assert(root[place + k] == thread[k]);
    }
    assert(stands_at(root, own, place));
}

proof fn lemma_drawn_below(comments: Seq<CommentView>, path: Seq<nat>, k: nat)
    requires
        lineage(comments, path),
        path.len() <= comments.len(),
        k < path.len(),
    ensures
        holds_part(thread_lines(comments, path[0], 0), thread_lines(comments, path[k as int], k)),
    decreases k,
{
    let root = thread_lines(comments, path[0], 0);
    if k == 0 {
        assert(stands_at(root, root, 0));
    } else {
        let above = path[k - 1];
        let own = path[k as int];
        lemma_drawn_below(comments, path, (k - 1) as nat);
        assert(parent_of(comments, own) == Some(above));
        lemma_replies_hold(comments, above, (k - 1) as nat, own, comments.len());
        let outer = thread_lines(comments, above, (k - 1) as nat);
        let inner = thread_lines(comments, own, k);
        let head = comment_lines(comments[above as int], (k - 1) as nat);
        let replies = reply_lines(comments, above, (k - 1) as nat, comments.len());
        lemma_holds_within(head, replies, Seq::empty(), inner);
        assert(head + replies + Seq::<Seq<char>>::empty() =~= outer);
        let a = choose|place: int| #[trigger] stands_at(root, outer, place);
        let b = choose|place: int| #[trigger] stands_at(outer, inner, place);
        assert forall|m: int| 0 <= m < inner.len() implies root[a + b + m] == #[trigger] inner[m] by {
            assert(outer[b + m] == inner[m]);
            assert(root[a + (b + m)] == outer[b + m]);
        }
        assert(stands_at(root, inner, a + b));
    }
}

/// Whether comment `i` begins a thread about a line on one side of a file: it answers no comment in
/// the list, and it is about that line of the first file with its path.
pub open spec fn begins_thread(
    files: Seq<FileView>,
    comments: Seq<CommentView>,
    i: nat,
    key: (usize, bool, u32),
) -> bool {
    let (file, old_side, line) = key;
    &&& i < comments.len()
    &&& forall|k: nat| !answers(comments, i, k)
    &&& comments[i as int].line == Some(line as u64)
    &&& old_side == (comments[i as int].side == Some("LEFT"@))
    &&& file < files.len()
    &&& files[file as int].path == Some(comments[i as int].path)
    &&& forall|f: int|
        0 <= f < file ==> (#[trigger] files[f]).path != Some(comments[i as int].path)
}

/// The first file with a path has it, and none before it does.
pub proof fn lemma_first_file(files: Seq<FileView>, path: Seq<char>, n: nat)
    requires
        n <= files.len() <= usize::MAX,
    ensures
        match first_file(files, path, n) {
            Some(file) => {
                &&& file < n
                &&& files[file as int].path == Some(path)
                &&& forall|f: int| 0 <= f < file ==> (#[trigger] files[f]).path != Some(path)
            },
            None => forall|f: int| 0 <= f < n ==> (#[trigger] files[f]).path != Some(path),
        },
    decreases n,
{
    if n > 0 {
        lemma_first_file(files, path, (n - 1) as nat);
    }
}

/// A thread is drawn at the line that its first comment is about, and nowhere else; an answer
/// begins no thread.
pub proof fn lemma_a_thread_is_drawn_at_its_line(
    files: Seq<FileView>,
    comments: Seq<CommentView>,
    i: nat,
    key: (usize, bool, u32),
)
    requires
        i < comments.len(),
        files.len() <= usize::MAX,
    ensures
        thread_key(files, comments, i) == Some(key) <==> begins_thread(files, comments, i, key),
{
    match parent_of(comments, i) {
        Some(k) => {
            lemma_the_parent_is_answered(comments, i, k);
        },
        None => {
            assert forall|k: nat| !answers(comments, i, k) by {
                lemma_the_parent_is_answered(comments, i, k);
            }
            lemma_first_file(files, comments[i as int].path, files.len());
            if begins_thread(files, comments, i, key) {
                match first_file(files, comments[i as int].path, files.len()) {
                    Some(file) => {
                        if file < key.0 {
                            assert(files[file as int].path != Some(comments[i as int].path));
                        } else if key.0 < file {
                            assert(files[key.0 as int].path != Some(comments[i as int].path));
                        }
                    },
                    None => {
                        assert(files[key.0 as int].path != Some(comments[i as int].path));
                    },
                }
            }
        },
    }
}

proof fn lemma_discussion_holds(
    files: Seq<FileView>,
    comments: Seq<CommentView>,
    key: (usize, bool, u32),
    i: nat,
    n: nat,
)
    requires
        thread_key(files, comments, i) == Some(key),
        i < n <= comments.len(),
    ensures
        holds_part(discussion(files, comments, key, n), thread_lines(comments, i, 0)),
    decreases n,
{
    let part = thread_lines(comments, i, 0);
    let before = discussion(files, comments, key, (n - 1) as nat);
    let whole = discussion(files, comments, key, n);
    if i == n - 1 {
        assert(stands_at(whole, part, before.len() as int));
    } else {
        lemma_discussion_holds(files, comments, key, i, (n - 1) as nat);
        let last = if thread_key(files, comments, (n - 1) as nat) == Some(key) {
            thread_lines(comments, (n - 1) as nat, 0)
        } else {
            Seq::empty()
        };
        lemma_holds_within(Seq::empty(), before, last, part);
        assert(Seq::<Seq<char>>::empty() + before + last =~= whole);
    }
}

proof fn lemma_discussion_in_turn(
    files: Seq<FileView>,
    comments: Seq<CommentView>,
    key: (usize, bool, u32),
    i: nat,
    j: nat,
    n: nat,
)
    requires
        thread_key(files, comments, i) == Some(key),
        thread_key(files, comments, j) == Some(key),
        i < j < n <= comments.len(),
    ensures
        in_turn(
            discussion(files, comments, key, n),
            thread_lines(comments, i, 0),
            thread_lines(comments, j, 0),
        ),
    decreases n,
{
    let first = thread_lines(comments, i, 0);
    let second = thread_lines(comments, j, 0);
    let before = discussion(files, comments, key, (n - 1) as nat);
    let whole = discussion(files, comments, key, n);
    if j == n - 1 {
        lemma_discussion_holds(files, comments, key, i, (n - 1) as nat);
        assert(stands_at(second, second, 0));
        lemma_in_turn_across(before, second, first, second);
    } else {
        lemma_discussion_in_turn(files, comments, key, i, j, (n - 1) as nat);
        let last = if thread_key(files, comments, (n - 1) as nat) == Some(key) {
            thread_lines(comments, (n - 1) as nat, 0)
        } else {
            Seq::empty()
        };
        lemma_in_turn_within(Seq::empty(), before, last, first, second);
        assert(Seq::<Seq<char>>::empty() + before + last =~= whole);
    }
}

/// Two threads about one line are drawn there in the order their first comments are listed.
pub proof fn lemma_threads_are_drawn_in_order(
    files: Seq<FileView>,
    comments: Seq<CommentView>,
    key: (usize, bool, u32),
    i: nat,
    j: nat,
)
    requires
        files.len() <= usize::MAX,
        begins_thread(files, comments, i, key),
        begins_thread(files, comments, j, key),
        i < j,
    ensures
        in_turn(
            discussion(files, comments, key, comments.len()),
            thread_lines(comments, i, 0),
            thread_lines(comments, j, 0),
        ),
{
    lemma_a_thread_is_drawn_at_its_line(files, comments, i, key);
    lemma_a_thread_is_drawn_at_its_line(files, comments, j, key);
    lemma_discussion_in_turn(files, comments, key, i, j, comments.len());
}

/// Every thread about a line is drawn there, and a line that no thread is about has none.
pub proof fn lemma_every_thread_is_drawn(
    files: Seq<FileView>,
    comments: Seq<CommentView>,
    key: (usize, bool, u32),
    i: nat,
)
    requires
        files.len() <= usize::MAX,
    ensures
        begins_thread(files, comments, i, key) ==> holds_part(
            discussion(files, comments, key, comments.len()),
            thread_lines(comments, i, 0),
        ),
        (forall|k: nat| !begins_thread(files, comments, k, key)) ==> discussion(
            files,
            comments,
            key,
            comments.len(),
        ).len() == 0,
{
    if begins_thread(files, comments, i, key) {
        lemma_a_thread_is_drawn_at_its_line(files, comments, i, key);
        lemma_discussion_holds(files, comments, key, i, comments.len());
    }
    if forall|k: nat| !begins_thread(files, comments, k, key) {
        lemma_no_discussion(files, comments, key, comments.len());
    }
}

proof fn lemma_no_discussion(
    files: Seq<FileView>,
    comments: Seq<CommentView>,
    key: (usize, bool, u32),
    n: nat,
)
    requires
        files.len() <= usize::MAX,
        n <= comments.len(),
        forall|k: nat| !begins_thread(files, comments, k, key),
    ensures
        discussion(files, comments, key, n).len() == 0,
    decreases n,
{
    if n > 0 {
        lemma_no_discussion(files, comments, key, (n - 1) as nat);
        lemma_a_thread_is_drawn_at_its_line(files, comments, (n - 1) as nat, key);
    }
}

} // verus!
