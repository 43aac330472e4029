//! What holds of the diff's rows, whatever is folded and whatever was said about them.

use vstd::prelude::*;

use crate::diff_view::{first_row, is_line_at, lemma_first_row, DiffView};
use crate::patch::{comment_views, CommentView, FileView, HunkView, LineView, ReviewComment};
use crate::rows::{
    bare_row, banner, file_rows, flattened, hunk_rows, line_row, line_rows, row_views,
    rows_of_files, rows_of_hunks, rows_of_lines, RowKind, RowView,
};
use crate::split::{lemma_every_line_is_shown_beside, paired, shows_line, split_views};
use crate::tree::tree_views;

verus! {

/// Whether two sets of folds agree on every hunk but one.
pub open spec fn agree_but(a: Seq<(usize, usize)>, b: Seq<(usize, usize)>, file: usize, hunk: usize) -> bool {
    forall|key: (usize, usize)| key != (file, hunk) ==> #[trigger] a.contains(key) == b.contains(key)
}

/// Whether two sets of folds are the same, in whatever order they were made.
pub open spec fn same_folds(a: Seq<(usize, usize)>, b: Seq<(usize, usize)>) -> bool {
    forall|key: (usize, usize)| #[trigger] a.contains(key) == b.contains(key)
}

proof fn lemma_hunks_by_folds(
    files: Seq<FileView>,
    a: Seq<(usize, usize)>,
    b: Seq<(usize, usize)>,
    comments: Seq<CommentView>,
    hunks: Seq<HunkView>,
    file: usize,
    n: nat,
)
    requires
        forall|h: nat| h < n ==> #[trigger] a.contains((file, h as usize)) == b.contains((file, h as usize)),
    ensures
        rows_of_hunks(files, a, comments, hunks, file, n) == rows_of_hunks(
            files,
            b,
            comments,
            hunks,
            file,
            n,
        ),
    decreases n,
{
    if n > 0 {
        lemma_hunks_by_folds(files, a, b, comments, hunks, file, (n - 1) as nat);
        assert(a.contains((file, ((n - 1) as nat) as usize)) == b.contains((file, ((n - 1) as nat) as usize)));
    }
}

/// The rows depend on which hunks are folded, and not on the order in which they were.
pub proof fn lemma_rows_depend_on_which_hunks_are_folded(
    files: Seq<FileView>,
    a: Seq<(usize, usize)>,
    b: Seq<(usize, usize)>,
    comments: Seq<CommentView>,
    n: nat,
)
    requires
        same_folds(a, b),
    ensures
        rows_of_files(files, a, comments, n) == rows_of_files(files, b, comments, n),
    decreases n,
{
    if n > 0 {
        lemma_rows_depend_on_which_hunks_are_folded(files, a, b, comments, (n - 1) as nat);
        let file = files[n - 1];
        lemma_hunks_by_folds(
            files,
            a,
            b,
            comments,
            file.hunks,
            (n - 1) as usize,
            file.hunks.len(),
        );
    }
}

/// Where the header of a hunk stands among the rows.
pub open spec fn header_place(
    files: Seq<FileView>,
    folded: Seq<(usize, usize)>,
    comments: Seq<CommentView>,
    file: nat,
    hunk: nat,
) -> nat {
    rows_of_files(files, folded, comments, file).len() + 1 + rows_of_hunks(
        files,
        folded,
        comments,
        files[file as int].hunks,
        file as usize,
        hunk,
    ).len()
}

/// Whether indices of files and hunks can be counted.
pub open spec fn countable(files: Seq<FileView>) -> bool {
    &&& files.len() <= usize::MAX
    &&& forall|i: int| 0 <= i < files.len() ==> (#[trigger] files[i]).hunks.len() <= usize::MAX
}

proof fn lemma_files_before(
    files: Seq<FileView>,
    a: Seq<(usize, usize)>,
    b: Seq<(usize, usize)>,
    comments: Seq<CommentView>,
    file: nat,
    hunk: nat,
    n: nat,
)
    requires
        countable(files),
        n <= file < files.len(),
        agree_but(a, b, file as usize, hunk as usize),
    ensures
        rows_of_files(files, a, comments, n) == rows_of_files(files, b, comments, n),
    decreases n,
{
    if n > 0 {
        lemma_files_before(files, a, b, comments, file, hunk, (n - 1) as nat);
        assert forall|h: nat| h < files[n - 1].hunks.len() implies #[trigger] a.contains(
            ((n - 1) as usize, h as usize),
        ) == b.contains(((n - 1) as usize, h as usize)) by {
            assert((n - 1) as usize != file as usize);
        }
        lemma_hunks_by_folds(
            files,
            a,
            b,
            comments,
            files[n - 1].hunks,
            (n - 1) as usize,
            files[n - 1].hunks.len(),
        );
    }
}

proof fn lemma_hunks_grow(
    files: Seq<FileView>,
    folded: Seq<(usize, usize)>,
    comments: Seq<CommentView>,
    hunks: Seq<HunkView>,
    file: usize,
    n: nat,
    m: nat,
)
    requires
        n <= m,
    ensures
        rows_of_hunks(files, folded, comments, hunks, file, n).is_prefix_of(
            rows_of_hunks(files, folded, comments, hunks, file, m),
        ),
    decreases m,
{
    let short = rows_of_hunks(files, folded, comments, hunks, file, n);
    let long = rows_of_hunks(files, folded, comments, hunks, file, m);
    if n < m {
        lemma_hunks_grow(files, folded, comments, hunks, file, n, (m - 1) as nat);
        let middle = rows_of_hunks(files, folded, comments, hunks, file, (m - 1) as nat);
        assert(middle.is_prefix_of(long)) by {
            assert(long.subrange(0, middle.len() as int) =~= middle);
        }
        assert(short =~= long.subrange(0, short.len() as int));
    }
}

proof fn lemma_files_grow(
    files: Seq<FileView>,
    folded: Seq<(usize, usize)>,
    comments: Seq<CommentView>,
    n: nat,
    m: nat,
)
    requires
        n <= m,
    ensures
        rows_of_files(files, folded, comments, n).is_prefix_of(
            rows_of_files(files, folded, comments, m),
        ),
    decreases m,
{
    let short = rows_of_files(files, folded, comments, n);
    let long = rows_of_files(files, folded, comments, m);
    if n < m {
        lemma_files_grow(files, folded, comments, n, (m - 1) as nat);
        let middle = rows_of_files(files, folded, comments, (m - 1) as nat);
        assert(middle.is_prefix_of(long)) by {
            assert(long.subrange(0, middle.len() as int) =~= middle);
        }
        assert(short =~= long.subrange(0, short.len() as int));
    }
}

/// The rows of a patch up to the header of a hunk.
proof fn lemma_rows_to_header(
    files: Seq<FileView>,
    folded: Seq<(usize, usize)>,
    comments: Seq<CommentView>,
    file: nat,
    hunk: nat,
)
    requires
        countable(files),
        file < files.len(),
        files[file as int].placeholder is None,
        hunk < files[file as int].hunks.len(),
    ensures
        ({
            let shown = files[file as int];
            (rows_of_files(files, folded, comments, file) + seq![
                bare_row(RowKind::FileHeader, file as usize, None, banner(shown)),
            ] + rows_of_hunks(files, folded, comments, shown.hunks, file as usize, hunk)).push(
                bare_row(
                    RowKind::HunkHeader,
                    file as usize,
                    Some(hunk as usize),
                    shown.hunks[hunk as int].header,
                ),
            ).is_prefix_of(flattened(files, folded, comments))
        }),
{
    let shown = files[file as int];
    let before = rows_of_files(files, folded, comments, file);
    let top = seq![bare_row(RowKind::FileHeader, file as usize, None, banner(shown))];
    let some = rows_of_hunks(files, folded, comments, shown.hunks, file as usize, hunk);
    let header = bare_row(
        RowKind::HunkHeader,
        file as usize,
        Some(hunk as usize),
        shown.hunks[hunk as int].header,
    );
    let start = (before + top + some).push(header);
    let more = rows_of_hunks(files, folded, comments, shown.hunks, file as usize, hunk + 1);
    let full = rows_of_hunks(
        files,
        folded,
        comments,
        shown.hunks,
        file as usize,
        shown.hunks.len(),
    );
    lemma_hunks_grow(
        files,
        folded,
        comments,
        shown.hunks,
        file as usize,
        hunk + 1,
        shown.hunks.len(),
    );
    assert(some.push(header).is_prefix_of(more)) by {
        assert(more.subrange(0, some.len() as int + 1) =~= some.push(header));
    }
    let upto = rows_of_files(files, folded, comments, file + 1);
    lemma_files_grow(files, folded, comments, file + 1, files.len());
    assert(upto =~= before + (top + full));
    assert(start =~= upto.subrange(0, start.len() as int)) by {
        assert(some.push(header) =~= full.subrange(0, some.len() as int + 1));
    }
    let all = flattened(files, folded, comments);
    assert(start =~= all.subrange(0, start.len() as int));
}

/// Folding or unfolding a hunk changes nothing up to its header, which stays where it is: a cursor
/// on the header stays on it.
pub proof fn lemma_folding_keeps_all_up_to_the_header(
    files: Seq<FileView>,
    a: Seq<(usize, usize)>,
    b: Seq<(usize, usize)>,
    comments: Seq<CommentView>,
    file: nat,
    hunk: nat,
    i: int,
)
    requires
        countable(files),
        file < files.len(),
        files[file as int].placeholder is None,
        hunk < files[file as int].hunks.len(),
        agree_but(a, b, file as usize, hunk as usize),
        0 <= i <= header_place(files, a, comments, file, hunk),
    ensures
        header_place(files, a, comments, file, hunk) == header_place(files, b, comments, file, hunk),
        i < flattened(files, a, comments).len(),
        i < flattened(files, b, comments).len(),
        flattened(files, a, comments)[i] == flattened(files, b, comments)[i],
        flattened(files, a, comments)[header_place(files, a, comments, file, hunk) as int]
            == bare_row(
            RowKind::HunkHeader,
            file as usize,
            Some(hunk as usize),
            files[file as int].hunks[hunk as int].header,
        ),
{
    let shown = files[file as int];
    lemma_files_before(files, a, b, comments, file, hunk, file);
    assert forall|h: nat| h < hunk implies #[trigger] a.contains((file as usize, h as usize))
        == b.contains((file as usize, h as usize)) by {
        assert(h as usize != hunk as usize);
    }
    lemma_hunks_by_folds(files, a, b, comments, shown.hunks, file as usize, hunk);
    lemma_rows_to_header(files, a, comments, file, hunk);
    lemma_rows_to_header(files, b, comments, file, hunk);
    let top = seq![bare_row(RowKind::FileHeader, file as usize, None, banner(shown))];
    let start = (rows_of_files(files, a, comments, file) + top + rows_of_hunks(
        files,
        a,
        comments,
        shown.hunks,
        file as usize,
        hunk,
    )).push(
        bare_row(
            RowKind::HunkHeader,
            file as usize,
            Some(hunk as usize),
            shown.hunks[hunk as int].header,
        ),
    );
    assert(start[i] == flattened(files, a, comments)[i]);
    assert(start[i] == flattened(files, b, comments)[i]);
    assert(start[start.len() - 1] == flattened(files, a, comments)[start.len() - 1]);
}

proof fn lemma_lines_are_no_headers(
    files: Seq<FileView>,
    comments: Seq<CommentView>,
    lines: Seq<LineView>,
    file: usize,
    hunk: usize,
    n: nat,
    i: int,
)
    requires
        0 <= i < rows_of_lines(files, comments, lines, file, hunk, n).len(),
    ensures
        rows_of_lines(files, comments, lines, file, hunk, n)[i].kind != RowKind::HunkHeader,
    decreases n,
{
    let before = rows_of_lines(files, comments, lines, file, hunk, (n - 1) as nat);
    if i < before.len() {
        lemma_lines_are_no_headers(files, comments, lines, file, hunk, (n - 1) as nat, i);
    }
}

proof fn lemma_header_in_hunks(
    files: Seq<FileView>,
    folded: Seq<(usize, usize)>,
    comments: Seq<CommentView>,
    hunks: Seq<HunkView>,
    file: usize,
    n: nat,
    i: int,
)
    requires
        n <= hunks.len() <= usize::MAX,
        0 <= i < rows_of_hunks(files, folded, comments, hunks, file, n).len(),
        rows_of_hunks(files, folded, comments, hunks, file, n)[i].kind == RowKind::HunkHeader,
    ensures
        ({
            let row = rows_of_hunks(files, folded, comments, hunks, file, n)[i];
            &&& row.file == file
            &&& row.hunk is Some
            &&& row.hunk->0 < n
            &&& i == rows_of_hunks(files, folded, comments, hunks, file, row.hunk->0 as nat).len()
        }),
    decreases n,
{
    let before = rows_of_hunks(files, folded, comments, hunks, file, (n - 1) as nat);
    let hunk = hunks[n - 1];
    if i < before.len() {
        lemma_header_in_hunks(files, folded, comments, hunks, file, (n - 1) as nat, i);
    } else if i > before.len() && !folded.contains((file, (n - 1) as usize)) {
        lemma_lines_are_no_headers(
            files,
            comments,
            hunk.lines,
            file,
            (n - 1) as usize,
            hunk.lines.len(),
            i - before.len() - 1,
        );
    }
}

proof fn lemma_header_in_files(
    files: Seq<FileView>,
    folded: Seq<(usize, usize)>,
    comments: Seq<CommentView>,
    n: nat,
    i: int,
)
    requires
        countable(files),
        n <= files.len(),
        0 <= i < rows_of_files(files, folded, comments, n).len(),
        rows_of_files(files, folded, comments, n)[i].kind == RowKind::HunkHeader,
    ensures
        ({
            let row = rows_of_files(files, folded, comments, n)[i];
            &&& row.file < n
            &&& row.hunk is Some
            &&& has_hunk(files, row.file as nat, row.hunk->0 as nat)
            &&& i == header_place(files, folded, comments, row.file as nat, row.hunk->0 as nat)
        }),
    decreases n,
{
    let before = rows_of_files(files, folded, comments, (n - 1) as nat);
    let file = files[n - 1];
    if i < before.len() {
        lemma_header_in_files(files, folded, comments, (n - 1) as nat, i);
    } else {
        let own = file_rows(files, folded, comments, file, (n - 1) as usize);
        assert(rows_of_files(files, folded, comments, n)[i] == own[i - before.len()]);
        assert(file.placeholder is None);
        lemma_header_in_hunks(
            files,
            folded,
            comments,
            file.hunks,
            (n - 1) as usize,
            file.hunks.len(),
            i - before.len() - 1,
        );
    }
}

/// Whether a patch shows a hunk, folded or not.
pub open spec fn has_hunk(files: Seq<FileView>, file: nat, hunk: nat) -> bool {
    &&& file < files.len()
    &&& files[file as int].placeholder is None
    &&& hunk < files[file as int].hunks.len()
}

/// A header of a hunk is the header of the hunk it names, and stands where that hunk begins.
pub proof fn lemma_a_header_stands_where_its_hunk_begins(
    files: Seq<FileView>,
    folded: Seq<(usize, usize)>,
    comments: Seq<CommentView>,
    i: int,
)
    requires
        countable(files),
        0 <= i < flattened(files, folded, comments).len(),
        flattened(files, folded, comments)[i].kind == RowKind::HunkHeader,
    ensures
        ({
            let row = flattened(files, folded, comments)[i];
            &&& row.hunk is Some
            &&& has_hunk(files, row.file as nat, row.hunk->0 as nat)
            &&& i == header_place(files, folded, comments, row.file as nat, row.hunk->0 as nat)
        }),
{
    lemma_header_in_files(files, folded, comments, files.len(), i);
}

/// The rows of a hunk stand one after the other from its header on.
proof fn lemma_rows_from_header(
    files: Seq<FileView>,
    folded: Seq<(usize, usize)>,
    comments: Seq<CommentView>,
    file: nat,
    hunk: nat,
    j: int,
)
    requires
        countable(files),
        has_hunk(files, file, hunk),
        0 <= j < hunk_rows(
            files,
            folded,
            comments,
            files[file as int].hunks[hunk as int],
            file as usize,
            hunk as usize,
        ).len(),
    ensures
        ({
            let at = header_place(files, folded, comments, file, hunk) + j;
            &&& at < flattened(files, folded, comments).len()
            &&& flattened(files, folded, comments)[at] == hunk_rows(
                files,
                folded,
                comments,
                files[file as int].hunks[hunk as int],
                file as usize,
                hunk as usize,
            )[j]
        }),
{
    let shown = files[file as int];
    let before = rows_of_files(files, folded, comments, file);
    let some = rows_of_hunks(files, folded, comments, shown.hunks, file as usize, hunk);
    let more = rows_of_hunks(files, folded, comments, shown.hunks, file as usize, hunk + 1);
    let full = rows_of_hunks(
        files,
        folded,
        comments,
        shown.hunks,
        file as usize,
        shown.hunks.len(),
    );
    lemma_hunks_grow(
        files,
        folded,
        comments,
        shown.hunks,
        file as usize,
        hunk + 1,
        shown.hunks.len(),
    );
    let upto = rows_of_files(files, folded, comments, file + 1);
    lemma_files_grow(files, folded, comments, file + 1, files.len());
    let at = header_place(files, folded, comments, file, hunk) + j;
    assert(upto =~= before + file_rows(files, folded, comments, shown, file as usize));
    assert(upto[at] == full[some.len() + j]);
    assert(full[some.len() + j] == more[some.len() + j]);
    assert(flattened(files, folded, comments)[at] == upto[at]);
}

/// Whether the cursor is at the head of a hunk: on its header, or on the row below that, where
/// opening the hunk leaves it something to be on.
pub open spec fn at_head(view: DiffView, file: nat, hunk: nat) -> bool {
    let place = header_place(
        view.patch@.files,
        view.folded_hunks@,
        comment_views(view.comments@),
        file,
        hunk,
    );
    &&& has_hunk(view.patch@.files, file, hunk)
    &&& view.cursor == place || (view.cursor == place + 1
        && view.patch@.files[file as int].hunks[hunk as int].lines.len() > 0)
}

proof fn lemma_patch_is_countable(view: DiffView)
    ensures
        countable(view.patch@.files),
{
    assert(view.patch.files.len() == view.patch.files@.len());
    assert forall|i: int| 0 <= i < view.patch@.files.len() implies (
    #[trigger] view.patch@.files[i]).hunks.len() <= usize::MAX by {
        let file = view.patch.files@[i];
        assert(view.patch@.files[i] == file@);
        assert(file.hunks.len() == file.hunks@.len());
        assert(file@.hunks.len() == file.hunks@.len());
    }
}

/// At the head of a hunk the cursor's row belongs to that hunk.
proof fn lemma_the_head_belongs_to_its_hunk(view: DiffView, file: nat, hunk: nat)
    requires
        row_views(view.rows@) == view.wanted_rows(),
        at_head(view, file, hunk),
    ensures
        view.cursor < view.rows@.len(),
        view.rows@[view.cursor as int].file == file,
        view.rows@[view.cursor as int].hunk == Some(hunk as usize),
        hunk <= usize::MAX,
{
    lemma_patch_is_countable(view);
    let files = view.patch@.files;
    let comments = comment_views(view.comments@);
    let shown = files[file as int].hunks[hunk as int];
    let rows = hunk_rows(files, view.folded_hunks@, comments, shown, file as usize, hunk as usize);
    let j = view.cursor - header_place(files, view.folded_hunks@, comments, file, hunk);
    if j == 1 && !view.folded_hunks@.contains((file as usize, hunk as usize)) {
        lemma_lines_begin(files, comments, shown.lines, file as usize, hunk as usize, shown.lines.len());
    }
    assert(j < rows.len());
    lemma_rows_from_header(files, view.folded_hunks@, comments, file, hunk, j);
    assert(row_views(view.rows@)[view.cursor as int] == view.rows@[view.cursor as int]@);
    assert(view.rows@[view.cursor as int]@ == rows[j]);
}

proof fn lemma_lines_begin(
    files: Seq<FileView>,
    comments: Seq<CommentView>,
    lines: Seq<LineView>,
    file: usize,
    hunk: usize,
    n: nat,
)
    requires
        n > 0,
    ensures
        rows_of_lines(files, comments, lines, file, hunk, n).len() > 0,
        rows_of_lines(files, comments, lines, file, hunk, n)[0] == line_row(lines[0], file, hunk),
    decreases n,
{
    if n > 1 {
        lemma_lines_begin(files, comments, lines, file, hunk, (n - 1) as nat);
    } else {
        assert(rows_of_lines(files, comments, lines, file, hunk, 0).len() == 0);
    }
}

/// Folding or unfolding a hunk from its head leaves the cursor where it is, on a row of that hunk.
pub proof fn lemma_folding_keeps_the_cursor_at_the_head(
    before: DiffView,
    after: DiffView,
    file: nat,
    hunk: nat,
)
    requires
        row_views(before.rows@) == before.wanted_rows(),
        at_head(before, file, hunk),
        before.toggled(&after),
    ensures
        before.cursor < before.rows@.len(),
        after.cursor == before.cursor,
        after.cursor < after.rows@.len(),
        after.rows@[after.cursor as int].file == before.rows@[before.cursor as int].file == file,
        after.rows@[after.cursor as int].hunk == before.rows@[before.cursor as int].hunk,
        before.rows@[before.cursor as int].hunk == Some(hunk as usize),
        row_views(after.rows@) == after.wanted_rows(),
        at_head(after, file, hunk),
{
    lemma_patch_is_countable(before);
    lemma_the_head_belongs_to_its_hunk(before, file, hunk);
    let files = before.patch@.files;
    let comments = comment_views(before.comments@);
    assert forall|key: (usize, usize)| key != (file as usize, hunk as usize) implies #[trigger]
    before.folded_hunks@.contains(key) == after.folded_hunks@.contains(key) by {
        assert(after.folded_hunks@.contains(key) == before.folded_after_toggle(key));
    }
    lemma_folding_keeps_all_up_to_the_header(
        files,
        before.folded_hunks@,
        after.folded_hunks@,
        comments,
        file,
        hunk,
        0,
    );
    let still = DiffView { cursor: before.cursor, ..after };
    assert(at_head(still, file, hunk));
    lemma_the_head_belongs_to_its_hunk(still, file, hunk);
}

/// Folding a hunk and unfolding it again, from its head, gives back the view there was: the rows,
/// the side-by-side rows, the tree, both cursors and which hunks are folded.
pub proof fn lemma_folding_twice_restores_the_view(
    a: DiffView,
    b: DiffView,
    c: DiffView,
    file: nat,
    hunk: nat,
)
    requires
        a.inv(),
        at_head(a, file, hunk),
        a.toggled(&b),
        b.toggled(&c),
    ensures
        b.cursor == a.cursor,
        b.rows@[b.cursor as int].file == a.rows@[a.cursor as int].file,
        b.rows@[b.cursor as int].hunk == a.rows@[a.cursor as int].hunk,
        row_views(c.rows@) == row_views(a.rows@),
        split_views(c.split_rows@) == split_views(a.split_rows@),
        c.split_index@ == a.split_index@,
        tree_views(c.tree@) == tree_views(a.tree@),
        c.cursor == a.cursor,
        c.tree_cursor == a.tree_cursor,
        same_folds(a.folded_hunks@, c.folded_hunks@),
{
    lemma_folding_keeps_the_cursor_at_the_head(a, b, file, hunk);
    lemma_folding_keeps_the_cursor_at_the_head(b, c, file, hunk);
    assert forall|key: (usize, usize)| #[trigger] a.folded_hunks@.contains(key)
        == c.folded_hunks@.contains(key) by {
        assert(b.folded_hunks@.contains(key) == a.folded_after_toggle(key));
        assert(c.folded_hunks@.contains(key) == b.folded_after_toggle(key));
    }
    lemma_rows_depend_on_which_hunks_are_folded(
        a.patch@.files,
        a.folded_hunks@,
        c.folded_hunks@,
        comment_views(a.comments@),
        a.patch@.files.len(),
    );
    assert(tree_views(a.tree@).len() == a.tree@.len());
    assert(tree_views(b.tree@).len() == b.tree@.len());
    assert(tree_views(c.tree@).len() == c.tree@.len());
}

/// A cursor on the header of a hunk is at the head of that hunk, so that one toggle keeps it there
/// and two give back the view there was.
pub proof fn lemma_folding_twice_on_a_header_restores_the_view(a: DiffView, b: DiffView, c: DiffView)
    requires
        a.inv(),
        a.cursor < a.rows@.len(),
        a.rows@[a.cursor as int].kind == RowKind::HunkHeader,
        a.toggled(&b),
        b.toggled(&c),
    ensures
        b.cursor == a.cursor,
        b.cursor < b.rows@.len(),
        b.rows@[b.cursor as int]@ == a.rows@[a.cursor as int]@,
        row_views(c.rows@) == row_views(a.rows@),
        split_views(c.split_rows@) == split_views(a.split_rows@),
        tree_views(c.tree@) == tree_views(a.tree@),
        c.cursor == a.cursor,
        c.tree_cursor == a.tree_cursor,
        same_folds(a.folded_hunks@, c.folded_hunks@),
{
    lemma_patch_is_countable(a);
    let files = a.patch@.files;
    let comments = comment_views(a.comments@);
    let row = a.rows@[a.cursor as int]@;
    assert(row_views(a.rows@)[a.cursor as int] == row);
    lemma_a_header_stands_where_its_hunk_begins(
        files,
        a.folded_hunks@,
        comments,
        a.cursor as int,
    );
    let file = row.file as nat;
    let hunk = row.hunk->0 as nat;
    lemma_folding_twice_restores_the_view(a, b, c, file, hunk);
    lemma_folding_keeps_the_cursor_at_the_head(a, b, file, hunk);
    assert forall|key: (usize, usize)| key != (row.file, row.hunk->0) implies #[trigger]
    a.folded_hunks@.contains(key) == b.folded_hunks@.contains(key) by {
        assert(b.folded_hunks@.contains(key) == a.folded_after_toggle(key));
    }
    lemma_folding_keeps_all_up_to_the_header(
        files,
        a.folded_hunks@,
        b.folded_hunks@,
        comments,
        file,
        hunk,
        a.cursor as int,
    );
    assert(row_views(b.rows@)[b.cursor as int] == b.rows@[b.cursor as int]@);
}

/// A folded hunk takes two rows: its header, and the sentence that stands for its lines.
pub proof fn lemma_a_folded_hunk_takes_two_rows(
    files: Seq<FileView>,
    folded: Seq<(usize, usize)>,
    comments: Seq<CommentView>,
    hunk: HunkView,
    file: usize,
    index: usize,
)
    requires
        folded.contains((file, index)),
    ensures
        hunk_rows(files, folded, comments, hunk, file, index).len() == 2,
        hunk_rows(files, folded, comments, hunk, file, index)[1].kind == RowKind::Folded,
{
}

/// Whether a line of the patch is not hidden behind a fold or a placeholder.
pub open spec fn is_open_line(
    files: Seq<FileView>,
    folded: Seq<(usize, usize)>,
    file: nat,
    hunk: nat,
    line: nat,
) -> bool {
    &&& file < files.len()
    &&& files[file as int].placeholder is None
    &&& hunk < files[file as int].hunks.len()
    &&& line < files[file as int].hunks[hunk as int].lines.len()
    &&& !folded.contains((file as usize, hunk as usize))
}

/// The row of a line of the patch.
pub open spec fn row_of_line(files: Seq<FileView>, file: nat, hunk: nat, line: nat) -> RowView {
    line_row(
        files[file as int].hunks[hunk as int].lines[line as int],
        file as usize,
        hunk as usize,
    )
}

proof fn lemma_contains_part(a: Seq<RowView>, b: Seq<RowView>, row: RowView)
    requires
        a.contains(row) || b.contains(row),
    ensures
        (a + b).contains(row),
{
    if a.contains(row) {
        let i = choose|i: int| 0 <= i < a.len() && a[i] == row;
        assert((a + b)[i] == row);
    } else {
        let i = choose|i: int| 0 <= i < b.len() && b[i] == row;
        assert((a + b)[a.len() + i] == row);
    }
}

proof fn lemma_line_in_hunk(
    files: Seq<FileView>,
    comments: Seq<CommentView>,
    lines: Seq<LineView>,
    file: usize,
    hunk: usize,
    n: nat,
    line: nat,
)
    requires
        line < n,
    ensures
        rows_of_lines(files, comments, lines, file, hunk, n).contains(
            line_row(lines[line as int], file, hunk),
        ),
    decreases n,
{
    let row = line_row(lines[line as int], file, hunk);
    let before = rows_of_lines(files, comments, lines, file, hunk, (n - 1) as nat);
    let own = line_rows(files, comments, lines[n - 1], file, hunk);
    if line == n - 1 {
        assert(own[0] == row);
    } else {
        lemma_line_in_hunk(files, comments, lines, file, hunk, (n - 1) as nat, line);
    }
    lemma_contains_part(before, own, row);
}

proof fn lemma_line_in_file(
    files: Seq<FileView>,
    folded: Seq<(usize, usize)>,
    comments: Seq<CommentView>,
    hunks: Seq<HunkView>,
    file: usize,
    n: nat,
    hunk: nat,
    line: nat,
)
    requires
        hunk < n <= hunks.len(),
        line < hunks[hunk as int].lines.len(),
        !folded.contains((file, hunk as usize)),
    ensures
        rows_of_hunks(files, folded, comments, hunks, file, n).contains(
            line_row(hunks[hunk as int].lines[line as int], file, hunk as usize),
        ),
    decreases n,
{
    let row = line_row(hunks[hunk as int].lines[line as int], file, hunk as usize);
    let before = rows_of_hunks(files, folded, comments, hunks, file, (n - 1) as nat);
    let own = hunk_rows(files, folded, comments, hunks[n - 1], file, (n - 1) as usize);
    if hunk == n - 1 {
        let shown = hunks[hunk as int];
        lemma_line_in_hunk(
            files,
            comments,
            shown.lines,
            file,
            hunk as usize,
            shown.lines.len(),
            line,
        );
        lemma_contains_part(
            seq![bare_row(RowKind::HunkHeader, file, Some(hunk as usize), shown.header)],
            rows_of_lines(
                files,
                comments,
                shown.lines,
                file,
                hunk as usize,
                shown.lines.len(),
            ),
            row,
        );
    } else {
        lemma_line_in_file(
            files,
            folded,
            comments,
            hunks,
            file,
            (n - 1) as nat,
            hunk,
            line,
        );
    }
    lemma_contains_part(before, own, row);
}

proof fn lemma_line_in_patch(
    files: Seq<FileView>,
    folded: Seq<(usize, usize)>,
    comments: Seq<CommentView>,
    n: nat,
    file: nat,
    hunk: nat,
    line: nat,
)
    requires
        file < n <= files.len(),
        is_open_line(files, folded, file, hunk, line),
    ensures
        rows_of_files(files, folded, comments, n).contains(row_of_line(files, file, hunk, line)),
    decreases n,
{
    let row = row_of_line(files, file, hunk, line);
    let before = rows_of_files(files, folded, comments, (n - 1) as nat);
    let own = file_rows(files, folded, comments, files[n - 1], (n - 1) as usize);
    if file == n - 1 {
        let shown = files[file as int];
        lemma_line_in_file(
            files,
            folded,
            comments,
            shown.hunks,
            file as usize,
            shown.hunks.len(),
            hunk,
            line,
        );
        lemma_contains_part(
            seq![bare_row(RowKind::FileHeader, file as usize, None, banner(shown))],
            rows_of_hunks(
                files,
                folded,
                comments,
                shown.hunks,
                file as usize,
                shown.hunks.len(),
            ),
            row,
        );
    } else {
        lemma_line_in_patch(files, folded, comments, (n - 1) as nat, file, hunk, line);
    }
    lemma_contains_part(before, own, row);
}

/// Every line that is not hidden behind a fold or a placeholder has a row, whatever was said about
/// the patch.
pub proof fn lemma_every_open_line_is_shown(
    files: Seq<FileView>,
    folded: Seq<(usize, usize)>,
    comments: Seq<CommentView>,
    file: nat,
    hunk: nat,
    line: nat,
)
    requires
        is_open_line(files, folded, file, hunk, line),
    ensures
        flattened(files, folded, comments).contains(row_of_line(files, file, hunk, line)),
{
    lemma_line_in_patch(files, folded, comments, files.len(), file, hunk, line);
}

proof fn lemma_hunk_line_is_open(
    files: Seq<FileView>,
    comments: Seq<CommentView>,
    lines: Seq<LineView>,
    file: usize,
    hunk: usize,
    n: nat,
    i: int,
) -> (line: nat)
    requires
        n <= lines.len(),
        0 <= i < rows_of_lines(files, comments, lines, file, hunk, n).len(),
        rows_of_lines(files, comments, lines, file, hunk, n)[i].kind == RowKind::Line,
    ensures
        line < n,
        rows_of_lines(files, comments, lines, file, hunk, n)[i] == line_row(
            lines[line as int],
            file,
            hunk,
        ),
    decreases n,
{
    let before = rows_of_lines(files, comments, lines, file, hunk, (n - 1) as nat);
    if i < before.len() {
        lemma_hunk_line_is_open(files, comments, lines, file, hunk, (n - 1) as nat, i)
    } else {
        let own = line_rows(files, comments, lines[n - 1], file, hunk);
        assert(own[i - before.len()].kind == RowKind::Line);
        (n - 1) as nat
    }
}

proof fn lemma_file_line_is_open(
    files: Seq<FileView>,
    folded: Seq<(usize, usize)>,
    comments: Seq<CommentView>,
    hunks: Seq<HunkView>,
    file: usize,
    n: nat,
    i: int,
) -> (place: (nat, nat))
    requires
        n <= hunks.len(),
        0 <= i < rows_of_hunks(files, folded, comments, hunks, file, n).len(),
        rows_of_hunks(files, folded, comments, hunks, file, n)[i].kind == RowKind::Line,
    ensures
        place.0 < n,
        place.1 < hunks[place.0 as int].lines.len(),
        !folded.contains((file, place.0 as usize)),
        rows_of_hunks(files, folded, comments, hunks, file, n)[i] == line_row(
            hunks[place.0 as int].lines[place.1 as int],
            file,
            place.0 as usize,
        ),
    decreases n,
{
    let before = rows_of_hunks(files, folded, comments, hunks, file, (n - 1) as nat);
    if i < before.len() {
        lemma_file_line_is_open(files, folded, comments, hunks, file, (n - 1) as nat, i)
    } else {
        let hunk = hunks[n - 1];
        let own = hunk_rows(files, folded, comments, hunk, file, (n - 1) as usize);
        let k = i - before.len();
        assert(own[k].kind == RowKind::Line);
        assert(k > 0);
        assert(!folded.contains((file, (n - 1) as usize)));
        let line = lemma_hunk_line_is_open(
            files,
            comments,
            hunk.lines,
            file,
            (n - 1) as usize,
            hunk.lines.len(),
            k - 1,
        );
        ((n - 1) as nat, line)
    }
}

proof fn lemma_patch_line_is_open(
    files: Seq<FileView>,
    folded: Seq<(usize, usize)>,
    comments: Seq<CommentView>,
    n: nat,
    i: int,
) -> (place: (nat, nat, nat))
    requires
        n <= files.len(),
        0 <= i < rows_of_files(files, folded, comments, n).len(),
        rows_of_files(files, folded, comments, n)[i].kind == RowKind::Line,
    ensures
        is_open_line(files, folded, place.0, place.1, place.2),
        rows_of_files(files, folded, comments, n)[i] == row_of_line(
            files,
            place.0,
            place.1,
            place.2,
        ),
    decreases n,
{
    let before = rows_of_files(files, folded, comments, (n - 1) as nat);
    if i < before.len() {
        lemma_patch_line_is_open(files, folded, comments, (n - 1) as nat, i)
    } else {
        let file = files[n - 1];
        let own = file_rows(files, folded, comments, file, (n - 1) as usize);
        let k = i - before.len();
        assert(own[k].kind == RowKind::Line);
        assert(k > 0);
        assert(file.placeholder is None);
        let (hunk, line) = lemma_file_line_is_open(
            files,
            folded,
            comments,
            file.hunks,
            (n - 1) as usize,
            file.hunks.len(),
            k - 1,
        );
        ((n - 1) as nat, hunk, line)
    }
}

/// A cursor on a line stays on that line when a discussion arrives or goes: the rows above it may
/// become more or fewer, but what is being read does not change.
pub proof fn lemma_the_cursor_stays_on_its_line(
    before: DiffView,
    after: DiffView,
    comments: Seq<ReviewComment>,
)
    requires
        before.inv(),
        before.discussed(&after, comments),
        before.cursor < before.rows@.len(),
        before.rows@[before.cursor as int].kind == RowKind::Line,
        after.rows@.len() <= usize::MAX,
    ensures
        after.cursor < after.rows@.len(),
        after.rows@[after.cursor as int].kind == RowKind::Line,
        after.rows@[after.cursor as int].file == before.rows@[before.cursor as int].file,
        after.rows@[after.cursor as int].new_line == before.rows@[before.cursor as int].new_line,
        after.rows@[after.cursor as int].old_line == before.rows@[before.cursor as int].old_line,
{
    if comment_views(before.comments@) != comment_views(comments) {
        let files = before.patch@.files;
        let old_rows = row_views(before.rows@);
        let rows = row_views(after.rows@);
        let row = before.rows@[before.cursor as int]@;
        assert(old_rows[before.cursor as int] == row);
        let (file, hunk, line) = lemma_patch_line_is_open(
            files,
            before.folded_hunks@,
            comment_views(before.comments@),
            files.len(),
            before.cursor as int,
        );
        lemma_every_open_line_is_shown(
            files,
            before.folded_hunks@,
            comment_views(comments),
            file,
            hunk,
            line,
        );
        assert(rows == flattened(files, before.folded_hunks@, comment_views(comments)));
        let k = choose|k: int| 0 <= k < rows.len() && rows[k] == row;
        let wanted = is_line_at(row.file, row.new_line, row.old_line);
        assert(rows.len() == after.rows@.len());
        assert(wanted(rows[k]));
        lemma_first_row(rows, wanted, rows.len());
        assert(first_row(rows, wanted, rows.len()) is Some);
        assert(wanted(rows[after.cursor as int]));
        assert(rows[after.cursor as int] == after.rows@[after.cursor as int]@);
    }
}

/// Whether only lines have the kind of a line.
pub open spec fn only_lines_have_kinds(rows: Seq<RowView>) -> bool {
    forall|k: int|
        0 <= k < rows.len() && (#[trigger] rows[k]).line_kind is Some ==> rows[k].kind
            == RowKind::Line
}

proof fn lemma_kinds_of_lines(
    files: Seq<FileView>,
    comments: Seq<CommentView>,
    lines: Seq<LineView>,
    file: usize,
    hunk: usize,
    n: nat,
)
    ensures
        only_lines_have_kinds(rows_of_lines(files, comments, lines, file, hunk, n)),
    decreases n,
{
    if n > 0 {
        lemma_kinds_of_lines(files, comments, lines, file, hunk, (n - 1) as nat);
    }
}

proof fn lemma_kinds_of_hunks(
    files: Seq<FileView>,
    folded: Seq<(usize, usize)>,
    comments: Seq<CommentView>,
    hunks: Seq<HunkView>,
    file: usize,
    n: nat,
)
    ensures
        only_lines_have_kinds(rows_of_hunks(files, folded, comments, hunks, file, n)),
    decreases n,
{
    if n > 0 {
        lemma_kinds_of_hunks(files, folded, comments, hunks, file, (n - 1) as nat);
        let hunk = hunks[n - 1];
        lemma_kinds_of_lines(
            files,
            comments,
            hunk.lines,
            file,
            (n - 1) as usize,
            hunk.lines.len(),
        );
    }
}

proof fn lemma_kinds_of_files(
    files: Seq<FileView>,
    folded: Seq<(usize, usize)>,
    comments: Seq<CommentView>,
    n: nat,
)
    ensures
        only_lines_have_kinds(rows_of_files(files, folded, comments, n)),
    decreases n,
{
    if n > 0 {
        lemma_kinds_of_files(files, folded, comments, (n - 1) as nat);
        let file = files[n - 1];
        lemma_kinds_of_hunks(
            files,
            folded,
            comments,
            file.hunks,
            (n - 1) as usize,
            file.hunks.len(),
        );
    }
}

/// Both views of a diff show the same lines: each line of the unified view stands in the
/// side-by-side view, on the side it belongs to.
pub proof fn lemma_both_views_show_the_same_lines(view: DiffView, q: nat)
    requires
        view.inv(),
        q < view.rows@.len(),
        view.rows@[q as int].kind == RowKind::Line,
    ensures
        exists|i: int|
            0 <= i < view.split_rows@.len() && shows_line(
                (#[trigger] view.split_rows@[i])@,
                view.rows@[q as int]@,
            ),
{
    let rows = row_views(view.rows@);
    lemma_kinds_of_files(
        view.patch@.files,
        view.folded_hunks@,
        comment_views(view.comments@),
        view.patch@.files.len(),
    );
    assert(rows[q as int] == view.rows@[q as int]@);
    lemma_every_line_is_shown_beside(rows, q);
    let i = choose|i: int|
        0 <= i < paired(rows, 0).len() && shows_line(#[trigger] paired(rows, 0)[i], rows[q as int]);
    assert(split_views(view.split_rows@)[i] == view.split_rows@[i]@);
}

} // verus!
