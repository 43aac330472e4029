//! The Files tab: the file tree and the diff, unified or side by side.

use vstd::prelude::*;

use crate::app::App;
use crate::components::highlight::{highlighted, highlighted_content, SyntaxSpan};
use crate::diff_view::{file_letter, file_marker, DiffView};
use crate::draft::Side;
use crate::drafts::DraftState;
use crate::paint::{
    base_paint, base_style, line_of, page, plain, span, tinted, Element, Line, Paint, SpanView,
};
use crate::patch::{opt_view, DiffLine, FileStatus, FileView, LineKind, LineView};
use crate::rows::{DiffRow, RowKind, RowView};
use crate::split::{SplitRow, SplitView};
use crate::strings::{
    concat2, concat3, concat4, concat5, decimal, number, repeat, repeated,
};
use crate::text::{pad, pad_left, padded, padded_left, truncate, truncated};
use crate::tree::{KindView, TreeKind, TreeRow, TreeView};

verus! {

broadcast use crate::paint::group_page;

/// The narrowest terminal that the side-by-side view is drawn in.
pub const SPLIT_MIN_WIDTH: u16 = 140;

/// The width of the file tree when both panes are shown.
pub const TREE_WIDTH: u16 = 34;

/// The arrow of something that can be folded.
pub open spec fn fold_mark(folded: bool) -> Seq<char> {
    if folded { "▸"@ } else { "▾"@ }
}

/// The mark and the element of a file in the tree.
pub open spec fn file_mark(file: Option<FileView>) -> (Seq<char>, Element) {
    match file {
        Some(file) => (
            seq![file_letter(file.status, file.kind)],
            match file.status {
                FileStatus::Added => Element::TreeAdded,
                FileStatus::Deleted => Element::TreeDeleted,
                _ => Element::TreeModified,
            },
        ),
        None => ("?"@, Element::Muted),
    }
}

/// One row of the tree.
///
/// A group is a heading that carries the position it is read in; the reason it is read there stands
/// below it; a file says whether it is read, what happened to it, whether it is folded, and how
/// large the change is.
pub open spec fn tree_spans(
    row: TreeView,
    file: Option<FileView>,
    folded: bool,
    progress: Seq<char>,
    selected: bool,
    current: bool,
) -> Seq<SpanView> {
    let base = base_paint(selected);
    let indent = repeated(' ', (2 * row.depth) as nat);
    match row.kind {
        KindView::Group { order, files, folded, .. } => seq![
            SpanView {
                text: " "@ + fold_mark(folded) + " "@ + decimal(order as nat) + ". "@,
                paint: Paint::tinted(Element::TreeDir, selected),
            },
            SpanView {
                text: truncated(row.label + " ("@ + decimal(files as nat) + ")"@, 24),
                paint: Paint::tinted(Element::Accent, selected),
            },
        ],
        KindView::Rationale { .. } => seq![
            SpanView { text: "    "@, paint: base },
            SpanView {
                text: truncated(row.label, 24),
                paint: Paint::tinted(Element::Muted, selected),
            },
        ],
        KindView::Directory { files, folded, .. } => seq![
            SpanView {
                text: " "@ + indent + fold_mark(folded) + " "@,
                paint: Paint::tinted(Element::TreeDir, selected),
            },
            SpanView {
                text: truncated(row.label + " ("@ + decimal(files as nat) + ")"@, 20),
                paint: Paint::tinted(Element::TreeDir, selected),
            },
        ],
        KindView::File { .. } => {
            let (mark, element) = file_mark(file);
            seq![
                SpanView {
                    text: " "@ + indent + (if current { "·"@ } else { " "@ }) + (match file {
                        Some(file) => if file.path is Some { progress } else { "□"@ },
                        None => "□"@,
                    }) + mark + (if folded { "▸"@ } else { ""@ }),
                    paint: Paint::tinted(element, selected),
                },
                SpanView { text: " "@, paint: base },
                SpanView {
                    text: padded(row.label, 17),
                    paint: if current { Paint::tinted(Element::Accent, selected) } else { base },
                },
                SpanView {
                    text: truncated(
                        match file {
                            Some(file) => file.size_label,
                            None => ""@,
                        },
                        9,
                    ),
                    paint: Paint::tinted(Element::Muted, selected),
                },
            ]
        },
    }
}

/// The file of a tree row, where the patch has it.
pub open spec fn file_of(view: DiffView, row: TreeView) -> Option<FileView> {
    match row.kind {
        KindView::File { index } => if index < view.patch@.files.len() {
            Some(view.patch@.files[index as int])
        } else {
            None
        },
        _ => None,
    }
}

/// Whether every hunk of a tree row's file is folded.
pub open spec fn folded_of(view: DiffView, row: TreeView) -> bool {
    match row.kind {
        KindView::File { index } => view.hunk_count(index) > 0 && view.all_folded(index),
        _ => false,
    }
}

fn fold_arrow(folded: bool) -> (r: &'static str)
    ensures
        r@ == fold_mark(folded),
{
    if folded { "▸" } else { "▾" }
}

fn heading_line(
    first: String,
    kind: Element,
    label: &str,
    files: usize,
    room: usize,
    name: Element,
    selected: bool,
) -> (r: Line)
    ensures
        r@ == seq![
            SpanView { text: first@, paint: Paint::tinted(kind, selected) },
            SpanView {
                text: truncated(label@ + " ("@ + decimal(files as nat) + ")"@, room as nat),
                paint: Paint::tinted(name, selected),
            },
        ],
{
    let mut line = Line::new();
    line.push(first, tinted(kind, selected));
    let text = concat4(label, " (", number(files as u64).as_str(), ")");
    line.push(truncate(text.as_str(), room), tinted(name, selected));
    assert(line@ =~= seq![
        SpanView { text: first@, paint: Paint::tinted(kind, selected) },
        SpanView {
            text: truncated(label@ + " ("@ + decimal(files as nat) + ")"@, room as nat),
            paint: Paint::tinted(name, selected),
        },
    ]);
    line
}

fn file_line(
    view: &DiffView,
    row: &TreeRow,
    index: usize,
    progress: &str,
    selected: bool,
    current: bool,
) -> (r: Line)
    requires
        row.kind == (TreeKind::File { index }),
    ensures
        r@ == tree_spans(
            row@,
            file_of(*view, row@),
            folded_of(*view, row@),
            progress@,
            selected,
            current,
        ),
{
    let base = base_style(selected);
    let indent = repeat(' ', 2 * row.depth as usize);
    let mut mark: &str = "?";
    let mut element = Element::Muted;
    let mut read: &str = "□";
    let mut size: &str = "";
    if index < view.patch.files.len() {
        let file = &view.patch.files[index];
        assert(view.patch@.files[index as int] == file@);
        mark = file_marker(file.status, file.kind);
        element = match file.status {
            FileStatus::Added => Element::TreeAdded,
            FileStatus::Deleted => Element::TreeDeleted,
            _ => Element::TreeModified,
        };
        if file.path.is_some() {
            read = progress;
        }
        size = file.size_label.as_str();
    } else {
        assert(view.patch@.files.len() == view.patch.files@.len());
    }
    let mut first = concat4(" ", indent.as_str(), if current { "·" } else { " " }, read);
    first.append(mark);
    first.append(if view.file_is_folded(index) { "▸" } else { "" });
    let mut line = Line::new();
    line.push(first, tinted(element, selected));
    line.push(" ".to_owned(), base);
    line.push(
        pad(row.label.as_str(), 17),
        if current { tinted(Element::Accent, selected) } else { base },
    );
    line.push(truncate(size, 9), tinted(Element::Muted, selected));
    assert(line@ =~= tree_spans(
        row@,
        file_of(*view, row@),
        folded_of(*view, row@),
        progress@,
        selected,
        current,
    ));
    line
}

/// One row of the tree; `progress` says whether its file was read.
#[must_use]
pub fn tree_line(view: &DiffView, row: &TreeRow, progress: &str, selected: bool, current: bool) -> (r:
    Line)
    ensures
        r@ == tree_spans(
            row@,
            file_of(*view, row@),
            folded_of(*view, row@),
            progress@,
            selected,
            current,
        ),
{
    match &row.kind {
        TreeKind::Group { order, files, folded, .. } => heading_line(
            concat5(" ", fold_arrow(*folded), " ", number(*order as u64).as_str(), ". "),
            Element::TreeDir,
            row.label.as_str(),
            *files,
            24,
            Element::Accent,
            selected,
        ),
        TreeKind::Rationale { .. } => {
            let mut line = Line::new();
            line.push("    ".to_owned(), base_style(selected));
            line.push(truncate(row.label.as_str(), 24), tinted(Element::Muted, selected));
            assert(line@ =~= tree_spans(
                row@,
                file_of(*view, row@),
                folded_of(*view, row@),
                progress@,
                selected,
                current,
            ));
            line
        },
        TreeKind::Directory { files, folded, .. } => heading_line(
            concat4(
                " ",
                repeat(' ', 2 * row.depth as usize).as_str(),
                fold_arrow(*folded),
                " ",
            ),
            Element::TreeDir,
            row.label.as_str(),
            *files,
            20,
            Element::TreeDir,
            selected,
        ),
        TreeKind::File { index } => file_line(view, row, *index, progress, selected, current),
    }
}

/// Whether a tree row is the file the diff's cursor is in.
pub open spec fn is_current(view: DiffView, row: TreeView) -> bool {
    match row.kind {
        KindView::File { index } => view.file_at_cursor() == Some(index),
        _ => false,
    }
}

/// How far a file was read, by its index; `□` where nothing is known of it.
pub open spec fn progress_of(row: TreeView, progress: Seq<Seq<char>>) -> Seq<char> {
    match row.kind {
        KindView::File { index } => if index < progress.len() {
            progress[index as int]
        } else {
            "□"@
        },
        _ => ""@,
    }
}

/// The first `n` rows of the tree from where it is scrolled to.
pub open spec fn tree_rows(view: DiffView, progress: Seq<Seq<char>>, n: nat) -> Seq<Seq<SpanView>> {
    Seq::new(
        n,
        |i: int|
            {
                let at = view.tree_scroll + i;
                let row = view.tree@[at]@;
                tree_spans(
                    row,
                    file_of(view, row),
                    folded_of(view, row),
                    progress_of(row, progress),
                    view.tree_focused && at == view.tree_cursor,
                    is_current(view, row),
                )
            },
    )
}

/// How many rows of the tree a pane shows.
pub open spec fn tree_count(view: DiffView, height: nat) -> nat {
    let left = if view.tree_scroll < view.tree@.len() {
        (view.tree@.len() - view.tree_scroll) as nat
    } else {
        0
    };
    if left < height { left } else { height }
}

/// The file tree; `progress` says of each file whether it was read.
#[must_use]
pub fn tree_lines(view: &DiffView, progress: &Vec<String>, height: usize) -> (r: Vec<Line>)
    ensures
        page(r@) == tree_rows(
            *view,
            crate::strings::views(progress@),
            tree_count(*view, height as nat),
        ),
{
    let mut out: Vec<Line> = Vec::new();
    let left: usize = view.tree.len().saturating_sub(view.tree_scroll);
    let count: usize = if left < height { left } else { height };
    let ghost all = crate::strings::views(progress@);
    let mut i: usize = 0;
    assert(page(out@) =~= tree_rows(*view, all, 0));
    while i < count
        invariant
            i <= count <= left,
            view.tree_scroll + left <= view.tree@.len() <= usize::MAX || left == 0,
            all == crate::strings::views(progress@),
            page(out@) == tree_rows(*view, all, i as nat),
        decreases count - i,
    {
        let at: usize = view.tree_scroll + i;
        let row = &view.tree[at];
        let (current, read): (bool, &str) = match &row.kind {
            TreeKind::File { index } => (
                match view.current_file() {
                    Some(file) => file == *index,
                    None => false,
                },
                if *index < progress.len() { progress[*index].as_str() } else { "□" },
            ),
            _ => (false, ""),
        };
        let selected: bool = view.tree_focused && at == view.tree_cursor;
        out.push(tree_line(view, row, read, selected, current));
        i += 1;
        assert(page(out@) =~= tree_rows(*view, all, i as nat));
    }
    out
}

/// What is said of how far the reading has come: files read, to be read again, and in all.
pub open spec fn progress_words(progress: Option<(usize, usize, usize)>) -> Seq<char> {
    match progress {
        Some((done, revisit, total)) => if revisit == 0 {
            " · "@ + decimal(done as nat) + "/"@ + decimal(total as nat) + " reviewed"@
        } else {
            " · "@ + decimal(done as nat) + "/"@ + decimal(total as nat) + " reviewed · "@
                + decimal(revisit as nat) + " revisit"@
        },
        None => ""@,
    }
}

fn progress_label(progress: Option<(usize, usize, usize)>) -> (r: String)
    ensures
        r@ == progress_words(progress),
{
    match progress {
        Some((done, revisit, total)) => {
            let mut text = concat4(
                " · ",
                number(done as u64).as_str(),
                "/",
                number(total as u64).as_str(),
            );
            if revisit == 0 {
                text.append(" reviewed");
            } else {
                text.append(" reviewed · ");
                text.append(number(revisit as u64).as_str());
                text.append(" revisit");
            }
            text
        },
        None => "".to_owned(),
    }
}

/// The tree pane's title: the order in force, where it came from, and how far the reading is.
pub open spec fn tree_words(
    view: DiffView,
    provenance: Option<Seq<char>>,
    progress: Option<(usize, usize, usize)>,
) -> Seq<char> {
    view.order.name() + (match provenance {
        Some(source) => " · "@ + source,
        None => ""@,
    }) + " ("@ + decimal(view.patch.stats.files as nat) + ")"@ + progress_words(progress)
}

/// The tree pane's title.
#[must_use]
pub fn tree_title(
    view: &DiffView,
    provenance: &Option<String>,
    progress: Option<(usize, usize, usize)>,
) -> (r: String)
    ensures
        r@ == tree_words(*view, opt_view(*provenance), progress),
{
    let source = match provenance {
        Some(source) => concat2(" · ", source.as_str()),
        None => "".to_owned(),
    };
    let mut text = concat5(
        view.order.label(),
        source.as_str(),
        " (",
        number(view.patch.stats.files as u64).as_str(),
        ")",
    );
    text.append(progress_label(progress).as_str());
    text
}

/// The element of a row's text.
pub open spec fn body_element(row: RowView) -> Element {
    match row.kind {
        RowKind::HunkHeader => Element::DiffHunkHeader,
        RowKind::Placeholder | RowKind::Folded => Element::DiffFolded,
        RowKind::FileHeader => Element::Title,
        RowKind::Discussion => Element::CommentMarker,
        RowKind::Line => match row.line_kind {
            Some(kind) => line_element(kind),
            None => Element::DiffContext,
        },
    }
}

/// The element of a line of a hunk.
pub open spec fn line_element(kind: LineKind) -> Element {
    match kind {
        LineKind::Add => Element::DiffAdd,
        LineKind::Delete => Element::DiffDel,
        LineKind::Context => Element::DiffContext,
    }
}

/// The element of a row's line numbers.
pub open spec fn gutter_element(row: RowView) -> Element {
    match row.line_kind {
        Some(LineKind::Add) => Element::DiffAdd,
        Some(LineKind::Delete) => Element::DiffDel,
        _ => Element::DiffLineNumber,
    }
}

fn line_style(kind: LineKind) -> (r: Element)
    ensures
        r == line_element(kind),
{
    match kind {
        LineKind::Add => Element::DiffAdd,
        LineKind::Delete => Element::DiffDel,
        LineKind::Context => Element::DiffContext,
    }
}

fn body_style(row: &DiffRow) -> (r: Element)
    ensures
        r == body_element(row@),
{
    match row.kind {
        RowKind::HunkHeader => Element::DiffHunkHeader,
        RowKind::Placeholder | RowKind::Folded => Element::DiffFolded,
        RowKind::FileHeader => Element::Title,
        RowKind::Discussion => Element::CommentMarker,
        RowKind::Line => match row.line_kind {
            Some(kind) => line_style(kind),
            None => Element::DiffContext,
        },
    }
}

fn gutter_style(row: &DiffRow) -> (r: Element)
    ensures
        r == gutter_element(row@),
{
    match row.line_kind {
        Some(LineKind::Add) => Element::DiffAdd,
        Some(LineKind::Delete) => Element::DiffDel,
        _ => Element::DiffLineNumber,
    }
}

/// A line number in five columns, or five blanks.
pub open spec fn number_column(line: Option<u32>) -> Seq<char> {
    padded_left(
        match line {
            Some(line) => decimal(line as nat),
            None => ""@,
        },
        5,
    )
}

fn column(line: Option<u32>) -> (r: String)
    ensures
        r@ == number_column(line),
{
    let text = match line {
        Some(line) => number(line as u64),
        None => "".to_owned(),
    };
    pad_left(text.as_str(), 5)
}

/// Both line numbers, the sign of the change, and the mark of a staged comment.
///
/// The mark has a column of its own: over the sign it would trade one answer for another.
pub open spec fn gutter_words(row: RowView, marked: bool) -> Seq<char> {
    (number_column(row.old_line) + number_column(row.new_line)).push(
        match row.line_kind {
            Some(kind) => kind.sign(),
            None => ' ',
        },
    ).push(if marked { '●' } else { ' ' })
}

/// How many columns are left for the text of a line.
pub open spec fn text_room(row: RowView, width: u16) -> nat {
    let room = if width < 12 { 0 } else { (width - 12) as nat };
    if !row.no_newline { room } else if room < 2 { 0 } else { (room - 2) as nat }
}

/// One row of the unified view: line numbers, sign and text.
///
/// A banner, a hunk header, a placeholder, a folded hunk and a line of a discussion are text
/// without line numbers.
pub open spec fn unified_spans(
    row: RowView,
    selected: bool,
    width: u16,
    marked: bool,
    syntax: Seq<SyntaxSpan>,
) -> Seq<SpanView> {
    let body = Paint::tinted(body_element(row), selected);
    match row.kind {
        RowKind::FileHeader => line_of(
            "── "@ + row.text + " "@,
            if selected { Element::Selection } else { Element::Title },
        ),
        RowKind::HunkHeader => seq![
            SpanView { text: truncated(row.text, width as nat) + " "@, paint: body },
        ],
        RowKind::Placeholder | RowKind::Folded | RowKind::Discussion => seq![
            SpanView { text: "   "@ + truncated(row.text, width as nat) + " "@, paint: body },
        ],
        RowKind::Line => {
            let gutter = SpanView {
                text: gutter_words(row, marked),
                paint: if marked {
                    Paint::plain(Element::CommentMarker)
                } else {
                    Paint::tinted(gutter_element(row), selected)
                },
            };
            let text = seq![gutter] + highlighted(
                row.text,
                syntax,
                text_room(row, width),
                body,
                false,
            );
            if row.no_newline {
                text.push(SpanView { text: " ⏎"@, paint: body })
            } else {
                text
            }
        },
    }
}

fn one_span(text: String, paint: Paint) -> (r: Line)
    ensures
        r@ == seq![SpanView { text: text@, paint }],
{
    let mut line = Line::new();
    line.push(text, paint);
    assert(line@ =~= seq![SpanView { text: text@, paint }]);
    line
}

fn gutter(row: &DiffRow, selected: bool, marked: bool) -> (r: Line)
    ensures
        r@ == seq![
            SpanView {
                text: gutter_words(row@, marked),
                paint: if marked {
                    Paint::plain(Element::CommentMarker)
                } else {
                    Paint::tinted(gutter_element(row@), selected)
                },
            },
        ],
{
    let mut text = concat2(column(row.old_line).as_str(), column(row.new_line).as_str());
    text.push(
        match row.line_kind {
            Some(kind) => kind.marker(),
            None => ' ',
        },
    );
    text.push(if marked { '●' } else { ' ' });
    one_span(
        text,
        if marked { plain(Element::CommentMarker) } else { tinted(gutter_style(row), selected) },
    )
}

/// One row of the unified view; `marked` says whether its line has a staged comment.
#[must_use]
pub fn unified_line(
    row: &DiffRow,
    selected: bool,
    width: u16,
    marked: bool,
    syntax: &Vec<SyntaxSpan>,
) -> (r: Line)
    ensures
        r@ == unified_spans(row@, selected, width, marked, syntax@),
{
    let body = tinted(body_style(row), selected);
    match row.kind {
        RowKind::FileHeader => Line::of(
            concat3("── ", row.text.as_str(), " "),
            if selected { Element::Selection } else { Element::Title },
        ),
        RowKind::HunkHeader => one_span(
            concat2(truncate(row.text.as_str(), width as usize).as_str(), " "),
            body,
        ),
        RowKind::Placeholder | RowKind::Folded | RowKind::Discussion => one_span(
            concat3("   ", truncate(row.text.as_str(), width as usize).as_str(), " "),
            body,
        ),
        RowKind::Line => {
            let mut line = gutter(row, selected, marked);
            let available: usize = width.saturating_sub(12) as usize;
            let room: usize = if row.no_newline { available.saturating_sub(2) } else { available };
            line.extend(highlighted_content(row.text.as_str(), syntax, room, body, false));
            if row.no_newline {
                line.push(" ⏎".to_owned(), body);
            }
            line
        },
    }
}

/// Whether a staged comment stands on the line of a row, on either side.
pub open spec fn is_marked(view: DiffView, drafts: DraftState, row: RowView) -> bool {
    if row.file < view.patch@.files.len() {
        match view.patch@.files[row.file as int].path {
            Some(path) => drafts.marked(path, Some(Side::New), row.new_line) || drafts.marked(
                path,
                Some(Side::Old),
                row.old_line,
            ),
            None => false,
        }
    } else {
        false
    }
}

/// Whether a staged comment stands on the line of a row.
///
/// A context line is on both sides, and both are marked: the mark is about the line on screen.
#[must_use]
pub fn has_draft(view: &DiffView, drafts: &DraftState, row: &DiffRow) -> (r: bool)
    ensures
        r == is_marked(*view, *drafts, row@),
{
    assert(view.patch@.files.len() == view.patch.files@.len());
    if row.file >= view.patch.files.len() {
        return false;
    }
    assert(view.patch@.files[row.file as int] == view.patch.files@[row.file as int]@);
    match &view.patch.files[row.file].path {
        Some(path) => drafts.marks(path.as_str(), Some(Side::New), row.new_line) || drafts.marks(
            path.as_str(),
            Some(Side::Old),
            row.old_line,
        ),
        None => false,
    }
}

/// Whether a full-width row is the one the cursor is on.
pub open spec fn full_selected(view: DiffView, row: RowView) -> bool {
    &&& view.cursor < view.rows@.len()
    &&& ({
        let current = view.rows@[view.cursor as int];
        current.file == row.file && current.hunk == row.hunk && current.kind == row.kind
    })
}

fn full_is_selected(view: &DiffView, row: &DiffRow) -> (r: bool)
    ensures
        r == full_selected(*view, row@),
{
    match view.current() {
        Some(current) => current.file == row.file && current.kind == row.kind && match (
            current.hunk,
            row.hunk,
        ) {
            (Some(a), Some(b)) => a == b,
            (None, None) => true,
            _ => false,
        },
        None => false,
    }
}

/// One side of a split row: its own line number and text, or blanks where it has no line.
pub open spec fn cell_spans(
    line: Option<LineView>,
    side: Side,
    width: nat,
    selected: bool,
    syntax: Seq<SyntaxSpan>,
) -> Seq<SpanView> {
    match line {
        Some(line) => seq![
            span(
                number_column(
                    match side {
                        Side::Old => line.old_line,
                        Side::New => line.new_line,
                    },
                ) + " "@,
                if selected { Element::Selection } else { Element::DiffLineNumber },
            ),
        ] + highlighted(
            line.content,
            syntax,
            if width < 6 { 0 } else { (width - 6) as nat },
            Paint::tinted(line_element(line.kind), selected),
            true,
        ),
        None => line_of(repeated(' ', width), Element::Bg),
    }
}

fn cell(line: &Option<DiffLine>, side: Side, width: usize, selected: bool, syntax: &Vec<SyntaxSpan>) -> (r:
    Line)
    ensures
        r@ == cell_spans(
            match *line {
                Some(line) => Some(line@),
                None => None,
            },
            side,
            width as nat,
            selected,
            syntax@,
        ),
{
    match line {
        Some(line) => {
            let numbered = match side {
                Side::Old => line.old_line,
                Side::New => line.new_line,
            };
            let mut row = Line::of(
                concat2(column(numbered).as_str(), " "),
                if selected { Element::Selection } else { Element::DiffLineNumber },
            );
            row.extend(
                highlighted_content(
                    line.content.as_str(),
                    syntax,
                    width.saturating_sub(6),
                    tinted(line_style(line.kind), selected),
                    true,
                ),
            );
            row
        },
        None => Line::of(repeat(' ', width), Element::Bg),
    }
}

/// How wide the old side of a split row is: half of what the divider leaves, rounded down.
pub open spec fn left_width(width: u16) -> nat {
    if width == 0 { 0 } else { ((width - 1) / 2) as nat }
}

/// How wide the new side is.
pub open spec fn right_width(width: u16) -> nat {
    if width < left_width(width) + 1 { 0 } else { (width - left_width(width) - 1) as nat }
}

/// Both sides and the divider take exactly the width there is.
pub proof fn lemma_the_sides_fill_the_width(width: u16)
    requires
        width > 0,
    ensures
        left_width(width) + 1 + right_width(width) == width,
        left_width(width) <= right_width(width) <= left_width(width) + 1,
{
}

/// One row of the split view: the old side beside the new, or a row over the full width.
pub open spec fn split_spans(
    row: SplitView,
    full_is_selected: bool,
    selected: bool,
    width: u16,
    marked: bool,
    left: Seq<SyntaxSpan>,
    right: Seq<SyntaxSpan>,
) -> Seq<SpanView> {
    match row.full {
        Some(full) => unified_spans(full, full_is_selected, width, marked, left),
        None => cell_spans(row.left, Side::Old, left_width(width), selected, left).push(
            span("│"@, Element::Border),
        ) + cell_spans(row.right, Side::New, right_width(width), selected, right),
    }
}

/// The ranges of a row: of its old side, or of the whole row, and of its new side.
#[derive(Debug, PartialEq, Eq)]
pub struct RowSyntax {
    /// The old side, or the whole row.
    pub left: Vec<SyntaxSpan>,
    /// The new side.
    pub right: Vec<SyntaxSpan>,
}

/// Whether the full-width row of a split row is the one the cursor is on.
pub open spec fn banner_selected(view: DiffView, row: SplitView) -> bool {
    match row.full {
        Some(full) => full_selected(view, full),
        None => false,
    }
}

/// Whether the full-width row of a split row has a staged comment.
pub open spec fn banner_marked(view: DiffView, drafts: DraftState, row: SplitView) -> bool {
    match row.full {
        Some(full) => is_marked(view, drafts, full),
        None => false,
    }
}

/// One row of the split view.
#[must_use]
pub fn split_line(
    view: &DiffView,
    row: &SplitRow,
    selected: bool,
    width: u16,
    drafts: &DraftState,
    syntax: &RowSyntax,
) -> (r: Line)
    ensures
        r@ == split_spans(
            row@,
            banner_selected(*view, row@),
            selected,
            width,
            banner_marked(*view, *drafts, row@),
            syntax.left@,
            syntax.right@,
        ),
{
    match &row.full {
        Some(full) => unified_line(
            full,
            full_is_selected(view, full),
            width,
            has_draft(view, drafts, full),
            &syntax.left,
        ),
        None => {
            let left: usize = width.saturating_sub(1) as usize / 2;
            let right: usize = (width as usize).saturating_sub(left + 1);
            let mut line = cell(&row.left, Side::Old, left, selected, &syntax.left);
            line.add_text("│", Element::Border);
            line.extend(cell(&row.right, Side::New, right, selected, &syntax.right));
            line
        },
    }
}

/// Whether the split row at `i` is the one that shows the cursor's row.
pub open spec fn shows_cursor(view: DiffView, i: nat) -> bool {
    view.cursor < view.split_index@.len() && view.split_index@[view.cursor as int] == i
}

/// Whether the split view is drawn: it is asked for, and the terminal is wide enough.
///
/// The threshold is a width of the terminal, as it is for the toggle.
pub open spec fn draws_split(view: DiffView, terminal: u16) -> bool {
    view.split && terminal >= SPLIT_MIN_WIDTH
}

/// The first `n` rows of the unified view from `start` on.
pub open spec fn unified_rows(
    view: DiffView,
    drafts: DraftState,
    width: u16,
    syntax: Seq<RowSyntax>,
    start: nat,
    n: nat,
) -> Seq<Seq<SpanView>> {
    Seq::new(
        n,
        |i: int|
            {
                let row = view.rows@[start + i]@;
                unified_spans(
                    row,
                    start + i == view.cursor,
                    width,
                    is_marked(view, drafts, row),
                    syntax[i].left@,
                )
            },
    )
}

/// The first `n` rows of the split view from `start` on.
pub open spec fn split_rows(
    view: DiffView,
    drafts: DraftState,
    width: u16,
    syntax: Seq<RowSyntax>,
    start: nat,
    n: nat,
) -> Seq<Seq<SpanView>> {
    Seq::new(
        n,
        |i: int|
            {
                let row = view.split_rows@[start + i]@;
                split_spans(
                    row,
                    banner_selected(view, row),
                    shows_cursor(view, (start + i) as nat),
                    width,
                    banner_marked(view, drafts, row),
                    syntax[i].left@,
                    syntax[i].right@,
                )
            },
    )
}

/// Where the rows that are drawn start, and how many there are.
pub open spec fn drawn(view: DiffView, terminal: u16, height: u16) -> (nat, nat) {
    let (start, len) = if draws_split(view, terminal) {
        (view.split_start(), view.split_rows@.len())
    } else {
        (
            crate::diff_view::clamped_cursor(view.scroll as nat, view.rows@.len()),
            view.rows@.len(),
        )
    };
    let room = crate::scroll::window(height as nat);
    (start, if start + room < len { room } else { (len - start) as nat })
}

/// Which rows are drawn: the first, and how many.
#[must_use]
pub fn drawn_rows(view: &DiffView, terminal: u16, height: u16) -> (r: (usize, usize))
    requires
        view.split_start() <= view.split_rows@.len(),
    ensures
        (r.0 as nat, r.1 as nat) == drawn(*view, terminal, height),
        draws_split(*view, terminal) ==> r.0 + r.1 <= view.split_rows@.len() <= usize::MAX,
        !draws_split(*view, terminal) ==> r.0 + r.1 <= view.rows@.len() <= usize::MAX,
{
    if view.split && terminal >= SPLIT_MIN_WIDTH {
        let start: usize = if view.cursor < view.split_index.len() {
            view.split_index[view.cursor]
        } else {
            0
        };
        let room: usize = if height == 0 { 1 } else { height as usize };
        let left: usize = view.split_rows.len() - start;
        (start, if room < left { room } else { left })
    } else {
        let len: usize = view.rows.len();
        let range = view.visible_rows(height);
        (range.start, range.end - range.start)
    }
}

/// What the diff pane says.
pub open spec fn diff_page(
    view: DiffView,
    drafts: DraftState,
    terminal: u16,
    width: u16,
    height: u16,
    syntax: Seq<RowSyntax>,
) -> Seq<Seq<SpanView>> {
    let (start, count) = drawn(view, terminal, height);
    if view.rows@.len() == 0 {
        seq![line_of("This pull request has no changes to show."@, Element::Muted)]
    } else if draws_split(view, terminal) {
        split_rows(view, drafts, width, syntax, start, count)
    } else {
        unified_rows(view, drafts, width, syntax, start, count)
    }
}

/// The rows of the diff that fit, given the ranges of each.
///
/// Only what is visible is laid out, so a frame costs the same whatever the size of the patch. The
/// split view walks paired rows, so that a replacement takes one row instead of two.
#[must_use]
pub fn diff_lines(
    view: &DiffView,
    drafts: &DraftState,
    terminal: u16,
    width: u16,
    height: u16,
    syntax: &Vec<RowSyntax>,
) -> (r: Vec<Line>)
    requires
        view.split_start() <= view.split_rows@.len(),
        syntax@.len() == drawn(*view, terminal, height).1,
    ensures
        page(r@) == diff_page(*view, *drafts, terminal, width, height, syntax@),
{
    let mut out: Vec<Line> = Vec::new();
    if view.rows.len() == 0 {
        out.push(Line::literal("This pull request has no changes to show.", Element::Muted));
        assert(page(out@) =~= diff_page(*view, *drafts, terminal, width, height, syntax@));
        return out;
    }
    let (start, count) = drawn_rows(view, terminal, height);
    let split: bool = view.split && terminal >= SPLIT_MIN_WIDTH;
    let mut i: usize = 0;
    if split {
        assert(page(out@) =~= split_rows(*view, *drafts, width, syntax@, start as nat, 0));
        while i < count
            invariant
                i <= count,
                start + count <= view.split_rows@.len() <= usize::MAX,
                syntax@.len() == count,
                page(out@) == split_rows(*view, *drafts, width, syntax@, start as nat, i as nat),
            decreases count - i,
        {
            let at: usize = start + i;
            let selected: bool = view.cursor < view.split_index.len()
                && view.split_index[view.cursor] == at;
            out.push(split_line(view, &view.split_rows[at], selected, width, drafts, &syntax[i]));
            i += 1;
            assert(page(out@) =~= split_rows(
                *view,
                *drafts,
                width,
                syntax@,
                start as nat,
                i as nat,
            ));
        }
    } else {
        assert(page(out@) =~= unified_rows(*view, *drafts, width, syntax@, start as nat, 0));
        while i < count
            invariant
                i <= count,
                start + count <= view.rows@.len() <= usize::MAX,
                syntax@.len() == count,
                page(out@) == unified_rows(*view, *drafts, width, syntax@, start as nat, i as nat),
            decreases count - i,
        {
            let at: usize = start + i;
            let row = &view.rows[at];
            let marked: bool = has_draft(view, drafts, row);
            out.push(unified_line(row, at == view.cursor, width, marked, &syntax[i].left));
            i += 1;
            assert(page(out@) =~= unified_rows(
                *view,
                *drafts,
                width,
                syntax@,
                start as nat,
                i as nat,
            ));
        }
    }
    out
}

/// The diff pane's title: what is being looked at, how, and what is missing.
///
/// A split view that was asked for and cannot be drawn says so.
pub open spec fn diff_words(view: DiffView, app: &App, terminal: u16, syntax_limited: bool) -> Seq<
    char,
> {
    let mode = if draws_split(view, terminal) {
        "split"@
    } else if view.split {
        "unified (split needs 140 columns)"@
    } else {
        "unified"@
    };
    " "@ + view.patch.stats.label@ + " · "@ + mode + " · ctx "@ + decimal(view.context as nat)
        + " "@ + (if app.diff_loading { "· loading… "@ } else { ""@ }) + (
    if app.diff_offline is Some { "· cached "@ } else { ""@ }) + (if syntax_limited {
        "· syntax partial "@
    } else {
        ""@
    })
}

/// The diff pane's title.
#[must_use]
pub fn diff_title(view: &DiffView, app: &App, terminal: u16, syntax_limited: bool) -> (r: String)
    ensures
        r@ == diff_words(*view, app, terminal, syntax_limited),
{
    let mode: &str = if view.split && terminal >= SPLIT_MIN_WIDTH {
        "split"
    } else if view.split {
        "unified (split needs 140 columns)"
    } else {
        "unified"
    };
    let mut text = concat5(" ", view.patch.stats.label.as_str(), " · ", mode, " · ctx ");
    text.append(number(view.context as u64).as_str());
    text.append(" ");
    text.append(if app.diff_loading { "· loading… " } else { "" });
    text.append(if app.diff_offline.is_some() { "· cached " } else { "" });
    text.append(if syntax_limited { "· syntax partial " } else { "" });
    text
}

} // verus!
