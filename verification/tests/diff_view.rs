use smart_review::diff_view::{file_marker, DiffView};
use smart_review::patch::{
    DiffLine, FileDiff, FileKind, FileStatus, Hunk, LineKind, Patch, PatchStats, ReviewComment,
};
use smart_review::plan::{OrderMode, Plan, PlanGroup, PlanSource};
use smart_review::rows::{DiffRow, RowKind, DISCUSSION_WRAP};
use smart_review::split::build_split;
use smart_review::tree::TreeKind;

fn context(old: u32, new: u32, text: &str) -> DiffLine {
    DiffLine {
        kind: LineKind::Context,
        old_line: Some(old),
        new_line: Some(new),
        content: text.to_owned(),
        no_newline: false,
    }
}

fn deletion(old: u32, text: &str) -> DiffLine {
    DiffLine {
        kind: LineKind::Delete,
        old_line: Some(old),
        new_line: None,
        content: text.to_owned(),
        no_newline: false,
    }
}

fn addition(new: u32, text: &str) -> DiffLine {
    DiffLine {
        kind: LineKind::Add,
        old_line: None,
        new_line: Some(new),
        content: text.to_owned(),
        no_newline: false,
    }
}

fn text_file(path: &str, size: &str, header: &str, lines: Vec<DiffLine>) -> FileDiff {
    FileDiff {
        path: Some(path.to_owned()),
        display_path: path.to_owned(),
        size_label: size.to_owned(),
        placeholder: None,
        status: FileStatus::Modified,
        kind: FileKind::Text,
        hunks: vec![Hunk { header: header.to_owned(), lines }],
    }
}

fn binary_file(path: &str) -> FileDiff {
    FileDiff {
        path: Some(path.to_owned()),
        display_path: path.to_owned(),
        size_label: "binary".to_owned(),
        placeholder: Some("binary file, not shown".to_owned()),
        status: FileStatus::Added,
        kind: FileKind::Binary,
        hunks: Vec::new(),
    }
}

fn patch(files: Vec<FileDiff>, label: &str) -> Patch {
    let count = files.len();
    Patch { files, stats: PatchStats { files: count, label: label.to_owned() } }
}

/// An edit in a directory, an edit at the top, and a new binary file.
fn three_files() -> Patch {
    patch(
        vec![
            text_file(
                "src/domain/invoice.rs",
                "+2 −1",
                "@@ -12,3 +14,4 @@ impl Invoice {",
                vec![
                    context(12, 14, "    pub fn total(&self) -> Money {"),
                    deletion(13, "        self.lines.sum()"),
                    addition(15, "        let gross = self.lines.sum();"),
                    addition(16, "        gross - self.discount"),
                    context(14, 17, "    }"),
                ],
            ),
            text_file(
                "README.md",
                "+1",
                "@@ -1 +1,2 @@",
                vec![context(1, 1, "# Smart Review"), addition(2, "New line.")],
            ),
            binary_file("docs/logo.png"),
        ],
        "3 files +3 −1",
    )
}

fn view() -> DiffView {
    DiffView::new(three_files())
}

/// A change of one line, for the tests about comments on it.
fn money() -> Patch {
    patch(
        vec![text_file(
            "src/domain/money.rs",
            "+1 −1",
            "@@ -1,3 +1,3 @@",
            vec![
                context(1, 1, "pub fn round(cents: i64) -> i64 {"),
                deletion(2, "    cents"),
                addition(2, "    (cents + 5) / 10 * 10"),
                context(3, 3, "}"),
            ],
        )],
        "1 file +1 −1",
    )
}

fn comment(id: u64, author: &str, line: u64, body: &str, reply_to: Option<u64>) -> ReviewComment {
    ReviewComment {
        id,
        author: author.to_owned(),
        path: "src/domain/money.rs".to_owned(),
        line: Some(line),
        side: Some("RIGHT".to_owned()),
        body: body.to_owned(),
        created_at: 0,
        in_reply_to: reply_to,
        diff_hunk: None,
        url: None,
        thread_id: None,
        resolved: false,
        outdated: false,
    }
}

fn view_with(comments: &[ReviewComment]) -> DiffView {
    let mut view = DiffView::new(money());
    view.set_comments(comments);
    view
}

fn group(order: u32, name: &str, rationale: &str, files: &[&str]) -> PlanGroup {
    PlanGroup {
        order,
        group: name.to_owned(),
        rationale: rationale.to_owned(),
        files: files.iter().map(|path| (*path).to_owned()).collect(),
    }
}

/// A plan that reads the code first, then the documents.
fn plan() -> Plan {
    Plan {
        groups: vec![
            group(1, "domain", "the rules come first", &["src/domain/invoice.rs"]),
            group(2, "docs", "what is said about them", &["README.md", "docs/logo.png"]),
        ],
        source: PlanSource::Rules,
        overridden: false,
        head_sha: "head1".to_owned(),
    }
}

#[test]
fn a_comment_is_drawn_under_the_line_it_is_about() {
    let view = view_with(&[comment(1, "alice", 2, "this rounds up", None)]);
    let rows: Vec<&DiffRow> = view
        .rows
        .iter()
        .filter(|row| row.kind == RowKind::Discussion)
        .collect();
    assert_eq!(rows.len(), 1, "one row for one short comment");
    assert!(rows[0].text.contains("alice"), "{}", rows[0].text);
    assert!(rows[0].text.contains("this rounds up"), "{}", rows[0].text);
    let annotated = view
        .rows
        .iter()
        .position(|row| row.kind == RowKind::Line && row.new_line == Some(2))
        .expect("the added line");
    let drawn = view
        .rows
        .iter()
        .position(|row| row.kind == RowKind::Discussion)
        .expect("the comment");
    assert_eq!(drawn, annotated + 1);
}

#[test]
fn a_reply_is_drawn_under_the_comment_it_answers() {
    let view = view_with(&[
        comment(1, "alice", 2, "this rounds up", None),
        comment(2, "bruno", 2, "fixed, thank you", Some(1)),
    ]);
    let texts: Vec<String> = view
        .rows
        .iter()
        .filter(|row| row.kind == RowKind::Discussion)
        .map(|row| row.text.clone())
        .collect();
    assert_eq!(texts.len(), 2);
    assert!(texts[0].contains("alice"), "{texts:?}");
    assert!(texts[1].contains("bruno"), "{texts:?}");
    assert!(texts[1].starts_with("↳"), "marked as a reply: {texts:?}");
}

#[test]
fn a_reply_whose_parent_is_gone_is_still_drawn() {
    let view = view_with(&[comment(2, "bruno", 2, "fixed, thank you", Some(999))]);
    assert_eq!(
        view.rows
            .iter()
            .filter(|row| row.kind == RowKind::Discussion)
            .count(),
        1
    );
}

#[test]
fn a_long_comment_takes_several_rows_and_stays_readable() {
    let long = "word ".repeat(80);
    let view = view_with(&[comment(1, "alice", 2, long.trim(), None)]);
    let rows: Vec<&DiffRow> = view
        .rows
        .iter()
        .filter(|row| row.kind == RowKind::Discussion)
        .collect();
    assert!(rows.len() > 1, "a long body wraps");
    assert!(
        rows.iter()
            .all(|row| row.text.chars().count() <= DISCUSSION_WRAP + 8),
        "no row is wider than the wrap plus its indent"
    );
    assert!(rows[0].text.contains("alice"));
    assert!(rows[1].text.starts_with("   "), "{:?}", rows[1].text);
}

#[test]
fn a_comment_on_a_line_the_diff_does_not_show_is_skipped() {
    let view = view_with(&[comment(1, "alice", 400, "old news", None)]);
    assert!(view.rows.iter().all(|row| row.kind != RowKind::Discussion));
}

#[test]
fn setting_the_same_comments_twice_does_not_move_the_cursor() {
    let mut view = view_with(&[comment(1, "alice", 2, "this rounds up", None)]);
    view.cursor = view.rows.len() - 1;
    let before = view.cursor;
    view.set_comments(&[comment(1, "alice", 2, "this rounds up", None)]);
    assert_eq!(view.cursor, before, "nothing changed, so nothing moved");
}

#[test]
fn the_cursor_stays_on_its_line_when_the_discussion_arrives() {
    let mut view = DiffView::new(money());
    view.cursor = 3;
    let before = (
        view.rows[3].file,
        view.rows[3].new_line,
        view.rows[3].old_line,
    );
    view.set_comments(&[comment(1, "alice", 1, "the first line", None)]);
    let now = &view.rows[view.cursor];
    assert_eq!((now.file, now.new_line, now.old_line), before);
}

#[test]
fn a_patch_flattens_into_file_hunks_and_lines() {
    let view = view();
    let kinds: Vec<RowKind> = view.rows.iter().map(|row| row.kind).collect();
    assert_eq!(
        kinds,
        vec![
            RowKind::FileHeader,
            RowKind::HunkHeader,
            RowKind::Line,
            RowKind::Line,
            RowKind::Line,
            RowKind::Line,
            RowKind::Line,
            RowKind::FileHeader,
            RowKind::HunkHeader,
            RowKind::Line,
            RowKind::Line,
            RowKind::FileHeader,
            RowKind::Placeholder,
        ]
    );
}

#[test]
fn rows_carry_the_gutter_numbers_and_the_text() {
    let view = view();
    let deletion = view
        .rows
        .iter()
        .find(|row| row.line_kind == Some(LineKind::Delete))
        .unwrap();
    assert_eq!(deletion.old_line, Some(13));
    assert_eq!(deletion.new_line, None);
    assert_eq!(deletion.text, "        self.lines.sum()");

    let addition = view
        .rows
        .iter()
        .find(|row| row.text.contains("let gross"))
        .unwrap();
    assert_eq!(addition.old_line, None);
    assert_eq!(addition.new_line, Some(15));
}

#[test]
fn a_binary_file_shows_its_placeholder_instead_of_lines() {
    let view = view();
    let last = view.rows.last().unwrap();
    assert_eq!(last.kind, RowKind::Placeholder);
    assert_eq!(last.text, "binary file, not shown");
}

#[test]
fn the_tree_groups_files_by_directory() {
    let view = view();
    let labels: Vec<(u16, String)> = view
        .tree
        .iter()
        .map(|row| (row.depth, row.label.clone()))
        .collect();
    assert_eq!(labels[0], (0, "docs".to_owned()));
    assert_eq!(labels[1], (1, "logo.png".to_owned()));
    assert_eq!(labels[2], (0, "src".to_owned()));
    assert_eq!(labels[3], (1, "domain".to_owned()));
    assert_eq!(labels[4], (2, "invoice.rs".to_owned()));
    assert_eq!(labels[5], (0, "README.md".to_owned()));
}

#[test]
fn the_recommended_order_groups_the_files_and_explains_each_group() {
    let mut view = view();
    let paths = view.paths();
    assert!(paths.len() >= 2, "{paths:?}");
    view.set_plan(Some(plan()));

    assert_eq!(view.order, OrderMode::Recommended);
    let groups = view
        .tree
        .iter()
        .filter(|row| matches!(row.kind, TreeKind::Group { .. }))
        .count();
    assert!(groups >= 1, "{:?}", view.tree);
    for (index, row) in view.tree.iter().enumerate() {
        if matches!(row.kind, TreeKind::Group { .. }) {
            assert!(
                matches!(
                    view.tree.get(index + 1).map(|next| &next.kind),
                    Some(TreeKind::Rationale { .. })
                ),
                "a group without a rationale: {row:?}"
            );
        }
    }
    let files: Vec<usize> = view
        .tree
        .iter()
        .filter_map(|row| match row.kind {
            TreeKind::File { index } => Some(index),
            _ => None,
        })
        .collect();
    assert_eq!(files.len(), paths.len(), "{files:?}");
}

#[test]
fn switching_orders_keeps_the_file_the_cursor_is_in() {
    let mut view = view();
    view.set_plan(Some(plan()));
    view.goto_file(1);
    let file = view.current_file();
    assert_eq!(file, Some(1));
    view.set_order(OrderMode::Path);
    assert_eq!(view.order, OrderMode::Path);
    assert_eq!(view.current_file(), Some(1));
    assert_eq!(
        view.tree_cursor,
        view.tree
            .iter()
            .position(|row| matches!(row.kind, TreeKind::File { index } if index == 1))
            .unwrap()
    );
    assert_eq!(
        view.tree.get(view.tree_cursor).map(|row| &row.kind),
        Some(&TreeKind::File { index: 1 })
    );
    view.toggle_order();
    assert_eq!(view.order, OrderMode::Recommended);
    assert_eq!(view.current_file(), Some(1));
    assert_eq!(
        view.tree.get(view.tree_cursor).map(|row| &row.kind),
        Some(&TreeKind::File { index: 1 }),
        "the file is still selected after toggling back"
    );
}

#[test]
fn a_group_folds_like_a_directory() {
    let mut view = view();
    view.set_plan(Some(plan()));
    let before = view.tree.len();
    let group = view
        .tree
        .iter()
        .position(|row| matches!(row.kind, TreeKind::Group { .. }))
        .expect("a group");
    view.tree_cursor = group;
    view.activate_tree();
    assert!(view.tree.len() < before, "the group folded");
    view.activate_tree();
    assert_eq!(view.tree.len(), before, "and it opens again");
}

#[test]
fn the_header_says_where_the_file_is_in_each_order() {
    let mut view = view();
    let paths = view.paths();
    view.set_plan(Some(plan()));
    view.goto_file(0);
    let positions = view.order_positions().expect("both orders know the file");
    assert!(positions.contains("plan"), "{positions}");
    assert!(positions.contains("path"), "{positions}");
    assert!(
        positions.contains(&format!("/{} plan", paths.len())),
        "{positions}"
    );
    assert_eq!(
        positions,
        format!("1/{} plan · 1/{} path", paths.len(), paths.len())
    );
}

#[test]
fn without_a_plan_the_view_stays_in_path_order() {
    let view = view();
    assert_eq!(view.order, OrderMode::Path);
    assert!(view.plan.is_none());
    assert!(view.order_positions().is_none());
    assert!(
        !view
            .tree
            .iter()
            .any(|row| matches!(row.kind, TreeKind::Group { .. }))
    );
}

#[test]
fn a_directory_reports_how_many_files_are_under_it() {
    let view = view();
    let src = view.tree.iter().find(|row| row.label == "src").unwrap();
    match &src.kind {
        TreeKind::Directory { files, folded, .. } => {
            assert_eq!(*files, 1);
            assert!(!folded);
        }
        other => panic!("expected a directory, got {other:?}"),
    }
}

#[test]
fn folding_a_directory_hides_its_files_and_keeps_them_counted() {
    let mut view = view();
    let before = view.tree.len();
    view.tree_cursor = view.tree.iter().position(|row| row.label == "src").unwrap();
    view.activate_tree();

    assert!(view.tree.len() < before);
    assert!(!view.tree.iter().any(|row| row.label == "invoice.rs"));
    let src = view.tree.iter().find(|row| row.label == "src").unwrap();
    assert!(matches!(
        src.kind,
        TreeKind::Directory {
            folded: true,
            files: 1,
            ..
        }
    ));

    view.activate_tree();
    assert!(view.tree.iter().any(|row| row.label == "invoice.rs"));
}

#[test]
fn opening_a_file_from_the_tree_moves_the_diff_cursor_to_it() {
    let mut view = view();
    let index = view
        .tree
        .iter()
        .position(|row| row.label == "README.md")
        .unwrap();
    view.tree_cursor = index;
    view.tree_focused = true;
    view.activate_tree();

    assert!(!view.tree_focused, "focus moves to the diff");
    assert_eq!(view.current().unwrap().kind, RowKind::FileHeader);
    assert_eq!(view.current_path().unwrap().as_str(), "README.md");
}

#[test]
fn the_cursor_moves_by_rows_and_stops_at_the_ends() {
    let mut view = view();
    assert_eq!(view.cursor, 0);
    view.move_by(-1);
    assert_eq!(view.cursor, 0);
    view.move_to(true);
    assert_eq!(view.cursor, view.rows.len() - 1);
    view.move_by(1);
    assert_eq!(view.cursor, view.rows.len() - 1);
    view.move_to(false);
    assert_eq!(view.cursor, 0);
}

#[test]
fn hunk_navigation_lands_on_hunk_headers_and_crosses_files() {
    let mut view = view();
    view.move_hunk(true);
    assert!(view.current().unwrap().is_hunk_start());
    assert_eq!(view.current().unwrap().file, 0);

    view.move_hunk(true);
    assert_eq!(view.current().unwrap().file, 1, "the next file's hunk");
    let last_hunk = view.cursor;
    view.move_hunk(true);
    assert_eq!(
        view.cursor, last_hunk,
        "there is nothing after the last hunk"
    );

    view.move_hunk(false);
    assert_eq!(view.current().unwrap().file, 0);
    view.move_hunk(false);
    assert_eq!(view.cursor, 1, "and nothing before the first");
}

#[test]
fn file_navigation_lands_on_file_banners() {
    let mut view = view();
    view.move_file(true);
    assert_eq!(view.current().unwrap().file, 1);
    assert!(view.current().unwrap().is_file_start());
    view.move_file(true);
    assert_eq!(view.current().unwrap().file, 2);
    let last_file = view.cursor;
    view.move_file(true);
    assert_eq!(
        view.cursor, last_file,
        "there is nothing after the last file"
    );

    view.move_file(false);
    assert_eq!(view.current().unwrap().file, 1);
    view.move_file(false);
    assert_eq!(view.current().unwrap().file, 0);
    view.move_file(false);
    assert_eq!(view.cursor, 0, "and nothing before the first");
}

#[test]
fn a_click_selects_an_absolute_row() {
    let mut view = view();
    view.select_row(6);
    assert_eq!(view.cursor, 6);
    view.select_row(usize::MAX);
    assert_eq!(view.cursor, view.rows.len() - 1, "clamped, not wrapped");

    view.select_tree_row(3);
    assert_eq!(view.tree_cursor, 3);
    assert!(view.tree_focused);
    view.select_tree_row(usize::MAX);
    assert_eq!(view.tree_cursor, view.tree.len() - 1);

    let mut empty = DiffView::new(Patch::default());
    empty.select_row(4);
    empty.select_tree_row(4);
    assert_eq!(empty.cursor, 0);
    assert_eq!(empty.tree_cursor, 0);
}

#[test]
fn folding_a_hunk_replaces_its_lines_with_one_row() {
    let mut view = view();
    let before = view.rows.len();
    view.move_hunk(true);
    assert!(!view.current_hunk_is_folded());

    view.toggle_hunk();
    assert!(view.folded_hunks.contains(&(0, 0)));
    assert!(
        view.current_hunk_is_folded(),
        "the cursor stays on the header"
    );
    assert_eq!(view.rows[view.cursor + 1].kind, RowKind::Folded);
    assert!(view.rows.len() < before);

    let folded = &view.rows[view.cursor + 1];
    assert!(folded.text.contains("5 lines folded"), "{}", folded.text);

    view.toggle_hunk();
    assert_eq!(view.rows.len(), before, "unfolding restores the lines");
}

#[test]
fn a_folded_file_is_visible_as_folded() {
    let mut view = view();
    assert!(!view.file_is_folded(0));
    view.toggle_hunk();
    assert!(view.file_is_folded(0), "the tree can show it as collapsed");
    assert!(!view.file_is_folded(1), "the other file is not folded");

    let empty = DiffView::new(patch(vec![binary_file("a.txt")], "1 file"));
    assert!(!empty.file_is_folded(0));
}

#[test]
fn folding_a_file_banner_folds_every_hunk_in_it() {
    let mut view = view();
    view.toggle_hunk();
    assert!(view.folded_hunks.contains(&(0, 0)));
    assert_eq!(view.rows[1].kind, RowKind::HunkHeader);
    assert_eq!(view.rows[2].kind, RowKind::Folded);

    view.toggle_hunk();
    assert!(view.folded_hunks.is_empty(), "and unfolds them again");
}

#[test]
fn the_viewport_scrolls_to_keep_the_cursor_visible() {
    let mut view = view();
    view.ensure_visible(5);
    assert_eq!(view.viewport, 5);
    assert_eq!(view.scroll, 0);

    view.cursor = 8;
    view.ensure_visible(5);
    assert_eq!(view.scroll, 4, "the cursor is at the bottom of the window");

    view.cursor = 1;
    view.ensure_visible(5);
    assert_eq!(view.scroll, 1, "and at the top when it moves up");

    let range = view.visible_rows(5);
    assert_eq!(range, 1..6);
}

#[test]
fn a_height_of_zero_does_not_divide_by_zero_or_hide_the_cursor() {
    let mut view = view();
    view.ensure_visible(0);
    assert_eq!(view.viewport, 1);
    assert_eq!(view.scroll, view.cursor);
    assert_eq!(view.visible_rows(0).len(), 1);
}

#[test]
fn paging_uses_the_height_of_the_last_frame() {
    let mut view = view();
    view.ensure_visible(4);
    view.move_page(1, false);
    assert_eq!(view.cursor, 4);
    view.move_page(1, true);
    assert_eq!(view.cursor, 6);
    view.move_page(-1, false);
    assert_eq!(view.cursor, 2);
    view.move_page(-1, true);
    assert_eq!(view.cursor, 0);
}

#[test]
fn an_empty_patch_is_a_view_with_nothing_to_draw() {
    let mut view = DiffView::new(Patch::default());
    assert!(view.rows.is_empty());
    assert!(view.tree.is_empty());
    assert!(view.current().is_none());
    assert!(view.current_path().is_none());
    assert!(view.current_file_label().is_none());
    view.move_by(1);
    view.move_hunk(true);
    view.move_file(true);
    view.toggle_hunk();
    view.move_to(true);
    assert_eq!(view.cursor, 0);
    assert_eq!(view.status_label(), "0 files +0 −0 · unified");
}

#[test]
fn the_status_line_names_the_mode_it_is_actually_in() {
    let mut view = view();
    assert!(
        view.status_label().ends_with("· unified"),
        "{}",
        view.status_label()
    );
    view.split = true;
    assert!(view.status_label().contains("· split"));
    view.ignore_whitespace = true;
    assert!(
        !view.status_label().contains("-w"),
        "{}",
        view.status_label()
    );
}

#[test]
fn the_current_file_label_says_what_changed() {
    let mut view = view();
    assert_eq!(
        view.current_file_label().unwrap(),
        "M src/domain/invoice.rs +2 −1"
    );
    view.move_file(true);
    assert_eq!(view.current_file_label().unwrap(), "M README.md +1");
    view.move_file(true);
    assert!(view.current_file_label().unwrap().starts_with('A'));
}

#[test]
fn the_current_path_is_the_path_a_file_would_be_opened_at() {
    let mut view = view();
    assert_eq!(
        view.current_path().unwrap().as_str(),
        "src/domain/invoice.rs"
    );
    view.move_file(true);
    assert_eq!(view.current_path().unwrap().as_str(), "README.md");
}

#[test]
fn every_file_marker_is_distinguishable() {
    assert_eq!(file_marker(FileStatus::Added, FileKind::Text), "A");
    assert_eq!(file_marker(FileStatus::Deleted, FileKind::Text), "D");
    assert_eq!(file_marker(FileStatus::Renamed, FileKind::Empty), "R");
    assert_eq!(file_marker(FileStatus::Copied, FileKind::Empty), "C");
    assert_eq!(file_marker(FileStatus::Modified, FileKind::Binary), "B");
    assert_eq!(file_marker(FileStatus::Modified, FileKind::ModeOnly), "M");
    assert_eq!(file_marker(FileStatus::Modified, FileKind::Submodule), "S");
}

#[test]
fn a_large_patch_flattens_once_and_slices_cheaply() {
    let mut files = Vec::new();
    for file in 0..200 {
        let mut lines = Vec::new();
        for line in 0..50u32 {
            lines.push(deletion(line + 1, &format!("old {file} {line}")));
            lines.push(addition(line + 1, &format!("new {file} {line}")));
        }
        files.push(text_file(
            &format!("dir{file}/f.rs"),
            "+50 −50",
            "@@ -1,50 +1,50 @@",
            lines,
        ));
    }
    let large = patch(files, "200 files +10000 −10000");
    let started = std::time::Instant::now();
    let mut view = DiffView::new(large);
    let built = started.elapsed();
    assert_eq!(view.rows.len(), 200 * (2 + 100));
    assert!(
        built < std::time::Duration::from_secs(2),
        "building took {built:?}"
    );

    view.cursor = 10_000;
    let started = std::time::Instant::now();
    for _ in 0..1000 {
        let range = view.visible_rows(40);
        let visible = &view.rows[range];
        assert_eq!(visible.len(), 40);
    }
    let scrolling = started.elapsed();
    assert!(
        scrolling < std::time::Duration::from_millis(500),
        "a thousand frames of scrolling took {scrolling:?}"
    );
}

#[test]
fn a_rename_is_shown_with_both_paths_and_grouped_under_the_new_one() {
    let renamed = FileDiff {
        path: Some("new/name.rs".to_owned()),
        display_path: "old/name.rs → new/name.rs".to_owned(),
        size_label: String::new(),
        placeholder: None,
        status: FileStatus::Renamed,
        kind: FileKind::Empty,
        hunks: Vec::new(),
    };
    let view = DiffView::new(patch(vec![renamed], "1 file"));
    assert_eq!(view.rows[0].text, "R old/name.rs → new/name.rs");
    assert!(view.tree.iter().any(|row| row.label == "new"));
    assert_eq!(view.current_path().unwrap().as_str(), "new/name.rs");
}

#[test]
fn prepare_keeps_the_tree_cursor_visible() {
    let mut view = DiffView::new(patch(
        vec![text_file(
            "src/domain/invoice.rs",
            "+2 −1",
            "@@ -12,3 +14,4 @@ impl Invoice {",
            vec![context(12, 14, "    pub fn total(&self) -> Money {")],
        )],
        "1 file +2 −1",
    ));
    for _ in 0..5 {
        view.move_tree(1);
    }
    view.prepare(4, 3);
    assert!(view.tree_scroll <= view.tree_cursor);
    assert!(view.tree_cursor < view.tree_scroll + 3);
}

#[test]
fn folding_twice_gives_back_every_row() {
    let mut view = view();
    let before: Vec<String> = view.rows.iter().map(|row| row.text.clone()).collect();
    view.move_hunk(true);
    let header = view.cursor;
    view.toggle_hunk();
    assert_eq!(view.cursor, header, "the header does not move");
    view.toggle_hunk();
    let after: Vec<String> = view.rows.iter().map(|row| row.text.clone()).collect();
    assert_eq!(before, after);
}

#[test]
fn the_tree_lists_every_file_once() {
    let view = view();
    let mut files: Vec<usize> = view
        .tree
        .iter()
        .filter_map(|row| match row.kind {
            TreeKind::File { index } => Some(index),
            _ => None,
        })
        .collect();
    files.sort_unstable();
    assert_eq!(files, vec![0, 1, 2]);
}

#[test]
fn the_split_view_pairs_a_deletion_with_the_addition_beside_it() {
    let view = view();
    let pair = view
        .split_rows
        .iter()
        .find(|row| row.left.as_ref().is_some_and(|line| line.kind == LineKind::Delete))
        .expect("the deletion");
    assert!(pair.right.as_ref().unwrap().content.contains("let gross"));
    let lonely = view
        .split_rows
        .iter()
        .find(|row| row.left.is_none() && row.right.is_some())
        .expect("the second addition");
    assert!(lonely.right.as_ref().unwrap().content.contains("gross - self.discount"));
    assert!(pair.covers(pair.unified, pair.unified + 1));
    assert!(!pair.covers(pair.unified + 1, pair.unified + 1));
}

#[test]
fn each_row_of_a_run_is_found_in_the_split_row_that_shows_it() {
    let mut uneven = money();
    uneven.files[0].hunks[0].lines = vec![deletion(1, "a"), deletion(2, "b"), addition(1, "c")];
    let view = DiffView::new(uneven);
    let lines: Vec<DiffRow> =
        view.rows.iter().filter(|row| row.kind == RowKind::Line).cloned().collect();
    let (split, index) = build_split(&lines);
    let text = |line: &Option<DiffLine>| line.as_ref().map(|line| line.content.clone());
    assert_eq!(split.len(), 2);
    assert_eq!(text(&split[0].left).as_deref(), Some("a"));
    assert_eq!(text(&split[0].right).as_deref(), Some("c"));
    assert_eq!(text(&split[1].left).as_deref(), Some("b"));
    assert_eq!(split[1].right, None);
    assert_eq!(index, vec![0, 1, 0]);
    assert_eq!((split[0].unified, split[1].unified), (0, 1));
}

#[test]
fn the_split_window_begins_at_the_row_under_the_cursor() {
    let mut uneven = money();
    uneven.files[0].hunks[0].lines = vec![deletion(1, "a"), deletion(2, "b"), addition(1, "c")];
    let mut view = DiffView::new(uneven);
    let at = view.rows.iter().position(|row| row.text == "b").expect("the second deletion");
    view.select_row(at);
    let window = view.split_window(5);
    assert_eq!(window[0].left.as_ref().map(|line| line.content.as_str()), Some("b"));
    view.select_row(at + 1);
    let window = view.split_window(1);
    assert_eq!(window.len(), 1);
    assert_eq!(window[0].right.as_ref().map(|line| line.content.as_str()), Some("c"));
}

#[test]
fn the_wheel_moves_the_text_and_a_click_names_a_row() {
    let mut view = view();
    view.prepare(4, 4);
    view.wheel(false, 3);
    assert_eq!(view.scroll, 3);
    assert_eq!(view.cursor, 3, "dragged to the first visible row");
    view.click(false, 2);
    assert_eq!(view.cursor, 5);
    view.click(false, 500);
    assert_eq!(view.cursor, 5, "there is no such row");
    view.wheel(true, 1);
    assert!(view.tree_focused);
    assert_eq!(view.tree_scroll, 1);
}

#[test]
fn a_comment_on_the_old_side_is_drawn_there_and_says_so() {
    let mut old = comment(1, "alice", 2, "why was this here?", None);
    old.side = Some("LEFT".to_owned());
    let view = view_with(&[old]);
    let deleted = view
        .rows
        .iter()
        .position(|row| row.line_kind == Some(LineKind::Delete))
        .unwrap();
    assert_eq!(view.rows[deleted + 1].kind, RowKind::Discussion);
    assert!(view.rows[deleted + 1].text.contains("(old side)"));
}
