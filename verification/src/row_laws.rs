//! What holds of the rows a patch flattens to: what is drawn, and in which order.

use vstd::prelude::*;

use crate::order::{
    comes_from, goes_on, in_turn, lemma_in_turn_within, lemma_listed, lemma_listed_in_turn,
    lemma_listed_only, holds_part,
};
use crate::patch::{CommentView, FileView, HunkView, LineView};
use crate::rows::{
    file_rows, flattened, hunk_rows, line_rows, rows_of_files, rows_of_hunks, rows_of_lines,
    said_on, RowKind, RowView,
};

verus! {

/// Files are drawn in the order the patch lists them: all rows of the earlier one stand before all
/// rows of the later one.
pub proof fn lemma_files_are_drawn_in_order(
    files: Seq<FileView>,
    folded: Seq<(usize, usize)>,
    comments: Seq<CommentView>,
    a: nat,
    b: nat,
)
    requires
        a < b < files.len(),
    ensures
        in_turn(
            flattened(files, folded, comments),
            file_rows(files, folded, comments, files[a as int], a as usize),
            file_rows(files, folded, comments, files[b as int], b as usize),
        ),
{
    let upto = |n: nat| rows_of_files(files, folded, comments, n);
    let block = |k: nat| file_rows(files, folded, comments, files[k as int], k as usize);
    assert forall|k: nat| k < files.len() implies #[trigger] goes_on(upto, block, k) by {}
    lemma_listed_in_turn(upto, block, files.len(), a, b);
}

/// Every file is drawn, and nothing but files.
pub proof fn lemma_every_file_is_drawn(
    files: Seq<FileView>,
    folded: Seq<(usize, usize)>,
    comments: Seq<CommentView>,
    a: nat,
    at: int,
)
    ensures
        a < files.len() ==> holds_part(
            flattened(files, folded, comments),
            file_rows(files, folded, comments, files[a as int], a as usize),
        ),
        0 <= at < flattened(files, folded, comments).len() ==> comes_from(
            |k: nat| file_rows(files, folded, comments, files[k as int], k as usize),
            files.len(),
            flattened(files, folded, comments)[at],
        ),
{
    let upto = |n: nat| rows_of_files(files, folded, comments, n);
    let block = |k: nat| file_rows(files, folded, comments, files[k as int], k as usize);
    assert forall|k: nat| k < files.len() implies #[trigger] goes_on(upto, block, k) by {}
    if a < files.len() {
        lemma_listed(upto, block, files.len(), a);
    }
    if 0 <= at < flattened(files, folded, comments).len() {
        lemma_listed_only(upto, block, files.len(), at);
    }
}

/// A file opens with its banner, which says what happened to it and where it is. A file with
/// nothing to show line by line has one more row, which says why.
pub proof fn lemma_a_file_opens_with_its_banner(
    files: Seq<FileView>,
    folded: Seq<(usize, usize)>,
    comments: Seq<CommentView>,
    file: FileView,
    index: usize,
)
    ensures
        ({
            let rows = file_rows(files, folded, comments, file, index);
            &&& rows.len() > 0
            &&& rows[0].kind == RowKind::FileHeader
            &&& rows[0].file == index
            &&& rows[0].hunk is None
            &&& rows[0].text.len() == file.display_path.len() + 2
            &&& rows[0].text[0] == file.status.letter()
            &&& rows[0].text.subrange(2, rows[0].text.len() as int) == file.display_path
            &&& match file.placeholder {
                Some(text) => {
                    &&& rows.len() == 2
                    &&& rows[1].kind == RowKind::Placeholder
                    &&& rows[1].text == text
                },
                None => forall|k: int|
                    0 < k < rows.len() ==> (#[trigger] rows[k]).kind != RowKind::FileHeader
                        && rows[k].kind != RowKind::Placeholder && rows[k].hunk is Some,
            }
            &&& forall|k: int| 0 <= k < rows.len() ==> (#[trigger] rows[k]).file == index
        }),
{
    reveal_strlit(" ");
    let rows = file_rows(files, folded, comments, file, index);
    assert(rows[0].text.subrange(2, rows[0].text.len() as int) =~= file.display_path);
    if file.placeholder is None {
        lemma_hunks_are_of_the_file(files, folded, comments, file.hunks, index, file.hunks.len());
        let inner = rows_of_hunks(files, folded, comments, file.hunks, index, file.hunks.len());
        assert forall|k: int| 0 < k < rows.len() implies (#[trigger] rows[k]).kind
            != RowKind::FileHeader && rows[k].kind != RowKind::Placeholder && rows[k].hunk is Some
            && rows[k].file == index by {
            assert(rows[k] == inner[k - 1]);
        }
    }
}

proof fn lemma_lines_are_of_the_hunk(
    files: Seq<FileView>,
    comments: Seq<CommentView>,
    lines: Seq<LineView>,
    file: usize,
    hunk: usize,
    n: nat,
)
    requires
        n <= lines.len(),
    ensures
        forall|k: int|
            0 <= k < rows_of_lines(files, comments, lines, file, hunk, n).len() ==> {
                let row = #[trigger] rows_of_lines(files, comments, lines, file, hunk, n)[k];
                &&& row.kind == RowKind::Line || row.kind == RowKind::Discussion
                &&& row.file == file
                &&& row.hunk == Some(hunk)
            },
    decreases n,
{
    if n > 0 {
        lemma_lines_are_of_the_hunk(files, comments, lines, file, hunk, (n - 1) as nat);
        let before = rows_of_lines(files, comments, lines, file, hunk, (n - 1) as nat);
        let last = line_rows(files, comments, lines[n - 1], file, hunk);
        let rows = rows_of_lines(files, comments, lines, file, hunk, n);
        assert forall|k: int| 0 <= k < rows.len() implies {
            let row = #[trigger] rows[k];
            &&& row.kind == RowKind::Line || row.kind == RowKind::Discussion
            &&& row.file == file
            &&& row.hunk == Some(hunk)
        } by {
            if k < before.len() {
                assert(rows[k] == before[k]);
            } else {
                assert(rows[k] == last[k - before.len()]);
            }
        }
    }
}

proof fn lemma_hunks_are_of_the_file(
    files: Seq<FileView>,
    folded: Seq<(usize, usize)>,
    comments: Seq<CommentView>,
    hunks: Seq<HunkView>,
    file: usize,
    n: nat,
)
    requires
        n <= hunks.len(),
    ensures
        forall|k: int|
            0 <= k < rows_of_hunks(files, folded, comments, hunks, file, n).len() ==> {
                let row = #[trigger] rows_of_hunks(files, folded, comments, hunks, file, n)[k];
                &&& row.kind != RowKind::FileHeader && row.kind != RowKind::Placeholder
                &&& row.file == file
                &&& row.hunk is Some
            },
    decreases n,
{
    if n > 0 {
        let index = (n - 1) as usize;
        let hunk = hunks[n - 1];
        lemma_hunks_are_of_the_file(files, folded, comments, hunks, file, (n - 1) as nat);
        lemma_lines_are_of_the_hunk(files, comments, hunk.lines, file, index, hunk.lines.len());
        let before = rows_of_hunks(files, folded, comments, hunks, file, (n - 1) as nat);
        let inner = rows_of_lines(files, comments, hunk.lines, file, index, hunk.lines.len());
        let last = hunk_rows(files, folded, comments, hunk, file, index);
        let rows = rows_of_hunks(files, folded, comments, hunks, file, n);
        assert forall|k: int| 0 <= k < rows.len() implies {
            let row = #[trigger] rows[k];
            &&& row.kind != RowKind::FileHeader && row.kind != RowKind::Placeholder
            &&& row.file == file
            &&& row.hunk is Some
        } by {
            if k < before.len() {
                assert(rows[k] == before[k]);
            } else {
                assert(rows[k] == last[k - before.len()]);
                if k > before.len() && !folded.contains((file, index)) {
                    assert(rows[k] == inner[k - before.len() - 1]);
                }
            }
        }
    }
}

/// The hunks of a file are drawn in their order.
pub proof fn lemma_hunks_are_drawn_in_order(
    files: Seq<FileView>,
    folded: Seq<(usize, usize)>,
    comments: Seq<CommentView>,
    file: FileView,
    index: usize,
    a: nat,
    b: nat,
)
    requires
        file.placeholder is None,
        a < b < file.hunks.len(),
    ensures
        in_turn(
            file_rows(files, folded, comments, file, index),
            hunk_rows(files, folded, comments, file.hunks[a as int], index, a as usize),
            hunk_rows(files, folded, comments, file.hunks[b as int], index, b as usize),
        ),
{
    let hunks = file.hunks;
    let upto = |n: nat| rows_of_hunks(files, folded, comments, hunks, index, n);
    let block = |k: nat| hunk_rows(files, folded, comments, hunks[k as int], index, k as usize);
    assert forall|k: nat| k < hunks.len() implies #[trigger] goes_on(upto, block, k) by {}
    lemma_listed_in_turn(upto, block, hunks.len(), a, b);
    let whole = file_rows(files, folded, comments, file, index);
    let head = whole.subrange(0, 1);
    let inner = rows_of_hunks(files, folded, comments, hunks, index, hunks.len());
    lemma_in_turn_within(head, inner, Seq::empty(), block(a), block(b));
    assert(head + inner + Seq::<RowView>::empty() =~= whole);
}

/// A hunk opens with its header. A folded one has one more row; an open one has each of its lines
/// below, in their order.
pub proof fn lemma_lines_are_drawn_in_order(
    files: Seq<FileView>,
    folded: Seq<(usize, usize)>,
    comments: Seq<CommentView>,
    hunk: HunkView,
    file: usize,
    index: usize,
    a: nat,
    b: nat,
)
    requires
        a < b < hunk.lines.len(),
    ensures
        ({
            let rows = hunk_rows(files, folded, comments, hunk, file, index);
            &&& rows[0].kind == RowKind::HunkHeader
            &&& rows[0].text == hunk.header
            &&& rows[0].hunk == Some(index)
            &&& folded.contains((file, index)) ==> rows.len() == 2 && rows[1].kind == RowKind::Folded
            &&& !folded.contains((file, index)) ==> in_turn(
                rows,
                line_rows(files, comments, hunk.lines[a as int], file, index),
                line_rows(files, comments, hunk.lines[b as int], file, index),
            )
        }),
{
    let lines = hunk.lines;
    let whole = hunk_rows(files, folded, comments, hunk, file, index);
    if !folded.contains((file, index)) {
        let upto = |n: nat| rows_of_lines(files, comments, lines, file, index, n);
        let block = |k: nat| line_rows(files, comments, lines[k as int], file, index);
        assert forall|k: nat| k < lines.len() implies #[trigger] goes_on(upto, block, k) by {}
        lemma_listed_in_turn(upto, block, lines.len(), a, b);
        let head = whole.subrange(0, 1);
        let inner = rows_of_lines(files, comments, lines, file, index, lines.len());
        lemma_in_turn_within(head, inner, Seq::empty(), block(a), block(b));
        assert(head + inner + Seq::<RowView>::empty() =~= whole);
    }
}

/// A line's row has its numbers, its kind and its text; what is said about it stands right below,
/// the new side's first, and nothing else does.
pub proof fn lemma_a_line_stands_above_what_is_said_of_it(
    files: Seq<FileView>,
    comments: Seq<CommentView>,
    line: LineView,
    file: usize,
    hunk: usize,
    k: int,
)
    ensures
        ({
            let rows = line_rows(files, comments, line, file, hunk);
            let new = said_on(files, comments, file, false, line.new_line);
            let old = said_on(files, comments, file, true, line.old_line);
            &&& rows.len() == 1 + new.len() + old.len()
            &&& rows[0].kind == RowKind::Line
            &&& rows[0].text == line.content
            &&& rows[0].old_line == line.old_line
            &&& rows[0].new_line == line.new_line
            &&& rows[0].line_kind == Some(line.kind)
            &&& rows[0].no_newline == line.no_newline
            &&& 0 < k < rows.len() ==> rows[k].kind == RowKind::Discussion && rows[k].new_line
                == line.new_line && rows[k].old_line == line.old_line && rows[k].line_kind is None
            &&& 0 <= k < new.len() ==> rows[1 + k].text == new[k]
            &&& 0 <= k < old.len() ==> rows[1 + new.len() + k].text == old[k]
            &&& line.new_line is None ==> new.len() == 0
            &&& line.old_line is None ==> old.len() == 0
        }),
{
}

} // verus!
