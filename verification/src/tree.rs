//! The file tree: the patch's files by directory, or by the steps of a review plan.

use vstd::prelude::*;

use crate::patch::{FileDiff, FileView, Patch};
use crate::plan::{GroupView, Plan, PlanView};
use crate::rows::file_views;
use crate::strings::{
    concat3, decimal, is_among, is_before, number, parts_of, precedes, same, split, trim, trimmed, views,
};

verus! {

/// What a tree row stands for.
#[derive(Debug, PartialEq, Eq)]
pub enum TreeKind {
    /// A review-plan group: a heading the ordered view is read through.
    Group {
        /// The group's name.
        name: String,
        /// Where it sits in the recommended order, from one.
        order: u32,
        /// How many files are in it.
        files: usize,
        /// Whether its files are folded.
        folded: bool,
    },
    /// The sentence explaining why a group is read where it is.
    Rationale {
        /// The explanation.
        text: String,
    },
    /// A directory, with the files underneath it.
    Directory {
        /// Its path, used as the fold key.
        path: String,
        /// How many files are under it.
        files: usize,
        /// Whether it is folded.
        folded: bool,
    },
    /// A file, by index into the patch.
    File {
        /// The index.
        index: usize,
    },
}

/// What a [`TreeKind`] says.
pub enum KindView {
    Group { name: Seq<char>, order: u32, files: usize, folded: bool },
    Rationale { text: Seq<char> },
    Directory { path: Seq<char>, files: usize, folded: bool },
    File { index: usize },
}

impl View for TreeKind {
    type V = KindView;

    open spec fn view(&self) -> KindView {
        match self {
            TreeKind::Group { name, order, files, folded } => KindView::Group {
                name: name@,
                order: *order,
                files: *files,
                folded: *folded,
            },
            TreeKind::Rationale { text } => KindView::Rationale { text: text@ },
            TreeKind::Directory { path, files, folded } => KindView::Directory {
                path: path@,
                files: *files,
                folded: *folded,
            },
            TreeKind::File { index } => KindView::File { index: *index },
        }
    }
}

impl Clone for TreeKind {
    fn clone(&self) -> (r: Self)
        ensures
            r == *self,
    {
        match self {
            TreeKind::Group { name, order, files, folded } => TreeKind::Group {
                name: name.clone(),
                order: *order,
                files: *files,
                folded: *folded,
            },
            TreeKind::Rationale { text } => TreeKind::Rationale { text: text.clone() },
            TreeKind::Directory { path, files, folded } => TreeKind::Directory {
                path: path.clone(),
                files: *files,
                folded: *folded,
            },
            TreeKind::File { index } => TreeKind::File { index: *index },
        }
    }
}

/// A row of the file tree.
#[derive(Debug, PartialEq, Eq)]
pub struct TreeRow {
    /// Nesting depth, for indentation.
    pub depth: u16,
    /// What to draw.
    pub label: String,
    /// What it stands for.
    pub kind: TreeKind,
}

/// What a [`TreeRow`] says.
pub struct TreeView {
    pub depth: u16,
    pub label: Seq<char>,
    pub kind: KindView,
}

impl View for TreeRow {
    type V = TreeView;

    open spec fn view(&self) -> TreeView {
        TreeView { depth: self.depth, label: self.label@, kind: self.kind@ }
    }
}

impl Clone for TreeRow {
    fn clone(&self) -> (r: Self)
        ensures
            r == *self,
    {
        TreeRow { depth: self.depth, label: self.label.clone(), kind: self.kind.clone() }
    }
}

/// The rows' contents, one by one.
pub open spec fn tree_views(rows: Seq<TreeRow>) -> Seq<TreeView> {
    rows.map_values(|r: TreeRow| r@)
}

/// Adding a row adds its contents at the end.
pub broadcast proof fn lemma_tree_views_push(rows: Seq<TreeRow>, row: TreeRow)
    ensures
        #[trigger] tree_views(rows.push(row)) == tree_views(rows).push(row@),
{
    assert(tree_views(rows.push(row)) =~= tree_views(rows).push(row@));
}

// The tree by path.

/// A file while the tree is being built: where it is and which file it is.
pub struct Entry {
    /// The whole path.
    pub path: String,
    /// The directories leading to it, and its own name last.
    pub parts: Vec<String>,
    /// Which file of the patch it is.
    pub index: usize,
}

/// What an [`Entry`] says.
pub struct EntryView {
    pub path: Seq<char>,
    pub parts: Seq<Seq<char>>,
    pub index: usize,
}

impl View for Entry {
    type V = EntryView;

    open spec fn view(&self) -> EntryView {
        EntryView { path: self.path@, parts: views(self.parts@), index: self.index }
    }
}

impl EntryView {
    /// How many directories lead to the file.
    pub open spec fn dirs(self) -> nat {
        (self.parts.len() - 1) as nat
    }
}

/// The path a file is listed under.
pub open spec fn listed_path(file: FileView, index: nat) -> Seq<char> {
    match file.path {
        Some(path) => path,
        None => "(unknown "@ + decimal(index) + ")"@,
    }
}

/// A file's place in the tree.
pub open spec fn entry_of(file: FileView, index: nat) -> EntryView {
    let path = listed_path(file, index);
    EntryView { path, parts: parts_of(path, '/'), index: index as usize }
}

/// An entry put behind all that do not come after it.
pub open spec fn placed(entries: Seq<EntryView>, entry: EntryView) -> Seq<EntryView>
    decreases entries.len(),
{
    if entries.len() == 0 || !precedes(entry.path, entries.last().path) {
        entries.push(entry)
    } else {
        placed(entries.drop_last(), entry).push(entries.last())
    }
}

/// The first `n` files in the order of their paths, and in the patch's order where those agree.
pub open spec fn sorted_entries(files: Seq<FileView>, n: nat) -> Seq<EntryView>
    decreases n,
{
    if n == 0 {
        Seq::empty()
    } else {
        placed(sorted_entries(files, (n - 1) as nat), entry_of(files[n - 1], (n - 1) as nat))
    }
}

/// The names' order with one more name in it, once.
pub open spec fn with_name(names: Seq<Seq<char>>, name: Seq<char>) -> Seq<Seq<char>>
    decreases names.len(),
{
    if names.len() == 0 {
        seq![name]
    } else if names.last() == name {
        names
    } else if precedes(names.last(), name) {
        names.push(name)
    } else {
        with_name(names.drop_last(), name).push(names.last())
    }
}

/// The directories at `level` on the way to the first `n` entries, in order.
pub open spec fn dir_names(entries: Seq<EntryView>, level: nat, n: nat) -> Seq<Seq<char>>
    decreases n,
{
    if n == 0 {
        Seq::empty()
    } else {
        let before = dir_names(entries, level, (n - 1) as nat);
        if entries[n - 1].dirs() > level {
            with_name(before, entries[n - 1].parts[level as int])
        } else {
            before
        }
    }
}

/// Those of the first `n` entries that lie under the directory `name` at `level`.
pub open spec fn under(entries: Seq<EntryView>, level: nat, name: Seq<char>, n: nat) -> Seq<EntryView>
    decreases n,
{
    if n == 0 {
        Seq::empty()
    } else {
        let before = under(entries, level, name, (n - 1) as nat);
        let entry = entries[n - 1];
        if entry.dirs() > level && entry.parts[level as int] == name {
            before.push(entry)
        } else {
            before
        }
    }
}

/// The deepest directory on the way to one of the first `n` entries.
pub open spec fn deepest(entries: Seq<EntryView>, n: nat) -> nat
    decreases n,
{
    if n == 0 {
        0
    } else {
        let before = deepest(entries, (n - 1) as nat);
        if entries[n - 1].dirs() > before { entries[n - 1].dirs() } else { before }
    }
}

/// How many levels of directories lie below `level`.
pub open spec fn levels_below(entries: Seq<EntryView>, level: nat) -> nat {
    let bottom = deepest(entries, entries.len());
    if bottom > level { (bottom - level) as nat } else { 0 }
}

/// The path of a directory.
pub open spec fn dir_path(prefix: Seq<char>, name: Seq<char>) -> Seq<char> {
    if prefix.len() == 0 { name } else { prefix + "/"@ + name }
}

/// The row of a file.
pub open spec fn file_row(entry: EntryView, level: nat) -> TreeView {
    TreeView {
        depth: level as u16,
        label: entry.parts.last(),
        kind: KindView::File { index: entry.index },
    }
}

/// The rows of those of the first `n` entries that lie at `level` itself.
pub open spec fn file_rows_at(entries: Seq<EntryView>, level: nat, n: nat) -> Seq<TreeView>
    decreases n,
{
    if n == 0 {
        Seq::empty()
    } else {
        let before = file_rows_at(entries, level, (n - 1) as nat);
        if entries[n - 1].dirs() > level {
            before
        } else {
            before.push(file_row(entries[n - 1], level))
        }
    }
}

/// The rows of the first `k` directories at `level`: each one's own row and, unless it is folded,
/// what is under it.
pub open spec fn dir_rows(
    entries: Seq<EntryView>,
    prefix: Seq<char>,
    level: nat,
    folded: Seq<Seq<char>>,
    k: nat,
) -> Seq<TreeView>
    decreases levels_below(entries, level), k,
    via dir_rows_decreases
{
    if k == 0 || k > dir_names(entries, level, entries.len()).len() {
        Seq::empty()
    } else {
        let name = dir_names(entries, level, entries.len())[k - 1];
        let inside = under(entries, level, name, entries.len());
        let path = dir_path(prefix, name);
        let row = TreeView {
            depth: level as u16,
            label: name,
            kind: KindView::Directory {
                path,
                files: inside.len() as usize,
                folded: folded.contains(path),
            },
        };
        let before = dir_rows(entries, prefix, level, folded, (k - 1) as nat).push(row);
        if folded.contains(path) {
            before
        } else {
            before + rows_at(inside, path, level + 1, folded)
        }
    }
}

/// The rows of the entries below a directory: its directories first, then its files.
pub open spec fn rows_at(
    entries: Seq<EntryView>,
    prefix: Seq<char>,
    level: nat,
    folded: Seq<Seq<char>>,
) -> Seq<TreeView>
    decreases levels_below(entries, level), dir_names(entries, level, entries.len()).len() + 1,
{
    dir_rows(entries, prefix, level, folded, dir_names(entries, level, entries.len()).len())
        + file_rows_at(entries, level, entries.len())
}

/// Where there are directories, something lies deeper.
pub proof fn lemma_names_need_depth(entries: Seq<EntryView>, level: nat, n: nat)
    requires
        n <= entries.len(),
    ensures
        dir_names(entries, level, n).len() > 0 ==> deepest(entries, n) > level,
    decreases n,
{
    if n > 0 {
        lemma_names_need_depth(entries, level, (n - 1) as nat);
    }
}

/// What lies under a directory lies no deeper than all there is.
pub proof fn lemma_under_is_no_deeper(entries: Seq<EntryView>, level: nat, name: Seq<char>, n: nat)
    requires
        n <= entries.len(),
    ensures
        deepest(under(entries, level, name, n), under(entries, level, name, n).len()) <= deepest(
            entries,
            n,
        ),
    decreases n,
{
    if n > 0 {
        lemma_under_is_no_deeper(entries, level, name, (n - 1) as nat);
        let before = under(entries, level, name, (n - 1) as nat);
        let entry = entries[n - 1];
        lemma_deepest_prefix(before, before.push(entry), before.len());
    }
}

proof fn lemma_deepest_prefix(a: Seq<EntryView>, b: Seq<EntryView>, n: nat)
    requires
        n <= a.len(),
        n <= b.len(),
        forall|i: int| 0 <= i < n ==> a[i] == b[i],
    ensures
        deepest(a, n) == deepest(b, n),
    decreases n,
{
    if n > 0 {
        lemma_deepest_prefix(a, b, (n - 1) as nat);
    }
}

#[via_fn]
proof fn dir_rows_decreases(
    entries: Seq<EntryView>,
    prefix: Seq<char>,
    level: nat,
    folded: Seq<Seq<char>>,
    k: nat,
) {
    if k > 0 && k <= dir_names(entries, level, entries.len()).len() {
        let name = dir_names(entries, level, entries.len())[k - 1];
        lemma_names_need_depth(entries, level, entries.len());
        lemma_under_is_no_deeper(entries, level, name, entries.len());
    }
}

/// The tree of a patch by path.
pub open spec fn path_tree(files: Seq<FileView>, folded: Seq<Seq<char>>) -> Seq<TreeView> {
    rows_at(sorted_entries(files, files.len()), Seq::empty(), 0, folded)
}

/// Whether no file lies deeper than a row's depth can say.
pub open spec fn tree_fits(files: Seq<FileView>) -> bool {
    forall|i: int|
        0 <= i < files.len() ==> (#[trigger] parts_of(listed_path(files[i], i as nat), '/')).len()
            <= u16::MAX
}

/// The entries that some positions stand for.
pub open spec fn picked(entries: Seq<Entry>, ids: Seq<usize>) -> Seq<EntryView> {
    ids.map_values(|i: usize| entries[i as int]@)
}

pub open spec fn valid_ids(entries: Seq<Entry>, ids: Seq<usize>) -> bool {
    forall|k: int| 0 <= k < ids.len() ==> (#[trigger] ids[k]) < entries.len()
}

/// Every entry has a name, and few enough directories.
pub open spec fn sound(entries: Seq<Entry>) -> bool {
    forall|i: int|
        0 <= i < entries.len() ==> 0 < (#[trigger] entries[i]).parts@.len() <= u16::MAX
}

fn add_name(names: &mut Vec<String>, name: &String)
    ensures
        views(final(names)@) == with_name(views(old(names)@), name@),
{
    let ghost all = views(names@);
    let mut at: usize = names.len();
    let mut present: bool = false;
    assert(all.subrange(0, at as int) =~= all);
    assert(with_name(all, name@) =~= with_name(all.subrange(0, at as int), name@) + all.subrange(
        at as int,
        all.len() as int,
    ));
    while at > 0 && !present && !is_before(names[at - 1].as_str(), name.as_str())
        invariant
            at <= names@.len(),
            all == views(names@),
            present ==> at > 0 && names@[at - 1]@ == name@,
            with_name(all, name@) == with_name(all.subrange(0, at as int), name@) + all.subrange(
                at as int,
                all.len() as int,
            ),
        decreases at, if present { 0int } else { 1int },
    {
        if same(names[at - 1].as_str(), name.as_str()) {
            present = true;
        } else {
            let ghost part = all.subrange(0, at as int);
            at -= 1;
            proof {
                assert(part.last() == names@[at as int]@);
                assert(part.drop_last() =~= all.subrange(0, at as int));
                let shorter = with_name(all.subrange(0, at as int), name@);
                assert(shorter.push(part.last()) + all.subrange(at + 1, all.len() as int)
                    =~= shorter + all.subrange(at as int, all.len() as int));
            }
        }
    }
    let ghost part = all.subrange(0, at as int);
    let ghost rest = all.subrange(at as int, all.len() as int);
    proof {
        if at > 0 {
            assert(part.last() == names@[at - 1]@);
        }
    }
    if present || (at > 0 && same(names[at - 1].as_str(), name.as_str())) {
        assert(part + rest =~= all);
    } else {
        let ghost before = names@;
        names.insert(at, name.clone());
        proof {
            assert(views(names@) =~= part.push(name@) + rest);
            if at == 0 {
                assert(part.push(name@) =~= seq![name@]);
            }
        }
    }
}

fn names_at(entries: &Vec<Entry>, ids: &Vec<usize>, level: usize) -> (names: Vec<String>)
    requires
        valid_ids(entries@, ids@),
        sound(entries@),
    ensures
        views(names@) == dir_names(picked(entries@, ids@), level as nat, ids@.len()),
{
    let ghost all = picked(entries@, ids@);
    let mut names: Vec<String> = Vec::new();
    let mut i: usize = 0;
    assert(views(names@) =~= Seq::empty());
    while i < ids.len()
        invariant
            i <= ids@.len(),
            valid_ids(entries@, ids@),
            sound(entries@),
            all == picked(entries@, ids@),
            views(names@) == dir_names(all, level as nat, i as nat),
        decreases ids@.len() - i,
    {
        let entry: &Entry = &entries[ids[i]];
        assert(all[i as int] == entry@);
        if entry.parts.len() - 1 > level {
            assert(views(entry.parts@)[level as int] == entry.parts@[level as int]@);
            add_name(&mut names, &entry.parts[level]);
        }
        i += 1;
    }
    names
}

fn ids_under(entries: &Vec<Entry>, ids: &Vec<usize>, level: usize, name: &String) -> (r: Vec<usize>)
    requires
        valid_ids(entries@, ids@),
        sound(entries@),
    ensures
        valid_ids(entries@, r@),
        picked(entries@, r@) == under(picked(entries@, ids@), level as nat, name@, ids@.len()),
        r@.len() <= ids@.len(),
{
    let ghost all = picked(entries@, ids@);
    let mut r: Vec<usize> = Vec::new();
    let mut i: usize = 0;
    assert(picked(entries@, r@) =~= Seq::empty());
    while i < ids.len()
        invariant
            i <= ids@.len(),
            valid_ids(entries@, ids@),
            sound(entries@),
            valid_ids(entries@, r@),
            r@.len() <= i,
            all == picked(entries@, ids@),
            picked(entries@, r@) == under(all, level as nat, name@, i as nat),
        decreases ids@.len() - i,
    {
        let entry: &Entry = &entries[ids[i]];
        assert(all[i as int] == entry@);
        if entry.parts.len() - 1 > level {
            assert(views(entry.parts@)[level as int] == entry.parts@[level as int]@);
            if same(entry.parts[level].as_str(), name.as_str()) {
                let ghost before = r@;
                r.push(ids[i]);
                assert(picked(entries@, r@) =~= picked(entries@, before).push(entry@));
            }
        }
        i += 1;
    }
    r
}

proof fn lemma_deepest_bound(entries: Seq<Entry>, ids: Seq<usize>, n: nat)
    requires
        valid_ids(entries, ids),
        sound(entries),
        n <= ids.len(),
    ensures
        deepest(picked(entries, ids), n) < u16::MAX,
    decreases n,
{
    if n > 0 {
        lemma_deepest_bound(entries, ids, (n - 1) as nat);
        assert(picked(entries, ids)[n - 1] == entries[ids[n - 1] as int]@);
    }
}

/// Writes the rows below a directory.
fn write_rows(
    out: &mut Vec<TreeRow>,
    entries: &Vec<Entry>,
    ids: &Vec<usize>,
    prefix: &str,
    level: usize,
    folded: &Vec<String>,
)
    requires
        valid_ids(entries@, ids@),
        sound(entries@),
        level <= u16::MAX,
    ensures
        tree_views(final(out)@) == tree_views(old(out)@) + rows_at(
            picked(entries@, ids@),
            prefix@,
            level as nat,
            views(folded@),
        ),
    decreases levels_below(picked(entries@, ids@), level as nat),
{
    broadcast use lemma_tree_views_push;
    let ghost all = picked(entries@, ids@);
    let ghost shut = views(folded@);
    let ghost start = tree_views(out@);
    let names = names_at(entries, ids, level);
    let ghost known = dir_names(all, level as nat, all.len());
    let mut k: usize = 0;
    assert(start + dir_rows(all, prefix@, level as nat, shut, 0) =~= start);
    while k < names.len()
        invariant
            k <= names@.len(),
            valid_ids(entries@, ids@),
            sound(entries@),
            level <= u16::MAX,
            all == picked(entries@, ids@),
            shut == views(folded@),
            known == dir_names(all, level as nat, all.len()),
            views(names@) == known,
            tree_views(out@) == start + dir_rows(all, prefix@, level as nat, shut, k as nat),
        decreases names@.len() - k,
    {
        let name: &String = &names[k];
        assert(known[k as int] == name@);
        assert(known.len() == names@.len());
        let inside = ids_under(entries, ids, level, name);
        let path: String = if prefix.is_empty() { name.clone() } else {
            concat3(prefix, "/", name.as_str())
        };
        let hidden: bool = is_among(folded, path.as_str());
        let ghost before = tree_views(out@);
        let ghost listed = dir_rows(all, prefix@, level as nat, shut, k as nat);
        out.push(
            TreeRow {
                depth: level as u16,
                label: name.clone(),
                kind: TreeKind::Directory { path: path.clone(), files: inside.len(), folded: hidden },
            },
        );
        let ghost row = out@.last()@;
        assert(start + listed.push(row) =~= before.push(row));
        if !hidden {
            proof {
                lemma_names_need_depth(all, level as nat, all.len());
                lemma_under_is_no_deeper(all, level as nat, name@, all.len());
                lemma_deepest_bound(entries@, ids@, ids@.len());
            }
            write_rows(out, entries, &inside, path.as_str(), level + 1, folded);
            proof {
                let more = rows_at(
                    under(all, level as nat, name@, all.len()),
                    path@,
                    level as nat + 1,
                    shut,
                );
                assert(start + listed.push(row) + more =~= start + (listed.push(row) + more));
            }
        }
        k += 1;
    }
    assert(known.len() == names@.len());
    let ghost dirs = dir_rows(all, prefix@, level as nat, shut, known.len());
    let mut i: usize = 0;
    assert(start + dirs + file_rows_at(all, level as nat, 0) =~= start + dirs);
    while i < ids.len()
        invariant
            i <= ids@.len(),
            valid_ids(entries@, ids@),
            sound(entries@),
            level <= u16::MAX,
            all == picked(entries@, ids@),
            tree_views(out@) == start + dirs + file_rows_at(all, level as nat, i as nat),
        decreases ids@.len() - i,
    {
        let entry: &Entry = &entries[ids[i]];
        assert(all[i as int] == entry@);
        let ghost listed = file_rows_at(all, level as nat, i as nat);
        if entry.parts.len() - 1 <= level {
            let last: usize = entry.parts.len() - 1;
            assert(views(entry.parts@)[last as int] == entry.parts@[last as int]@);
            out.push(
                TreeRow {
                    depth: level as u16,
                    label: entry.parts[last].clone(),
                    kind: TreeKind::File { index: entry.index },
                },
            );
            assert((start + dirs + listed).push(file_row(entry@, level as nat)) =~= start + dirs
                + listed.push(file_row(entry@, level as nat)));
        }
        i += 1;
    }
    assert(start + dirs + file_rows_at(all, level as nat, all.len()) =~= start + (dirs
        + file_rows_at(all, level as nat, all.len())));
}

fn make_entry(file: &FileDiff, index: usize) -> (r: Entry)
    ensures
        r@ == entry_of(file@, index as nat),
        r.parts@.len() > 0,
{
    let path: String = match &file.path {
        Some(path) => path.clone(),
        None => concat3("(unknown ", number(index as u64).as_str(), ")"),
    };
    let parts = split(path.as_str(), '/');
    Entry { path, parts, index }
}

pub open spec fn entry_views(entries: Seq<Entry>) -> Seq<EntryView> {
    entries.map_values(|e: Entry| e@)
}

fn place(entries: &mut Vec<Entry>, entry: Entry)
    ensures
        entry_views(final(entries)@) == placed(entry_views(old(entries)@), entry@),
        final(entries)@.len() == old(entries)@.len() + 1,
        sound(old(entries)@) && 0 < entry.parts@.len() <= u16::MAX ==> sound(final(entries)@),
{
    let ghost all = entry_views(entries@);
    let ghost before = entries@;
    let mut at: usize = entries.len();
    assert(all.subrange(0, at as int) =~= all);
    assert(placed(all, entry@) =~= placed(all.subrange(0, at as int), entry@) + all.subrange(
        at as int,
        all.len() as int,
    ));
    while at > 0 && is_before(entry.path.as_str(), entries[at - 1].path.as_str())
        invariant
            at <= entries@.len(),
            all == entry_views(entries@),
            placed(all, entry@) == placed(all.subrange(0, at as int), entry@) + all.subrange(
                at as int,
                all.len() as int,
            ),
        decreases at,
    {
        let ghost part = all.subrange(0, at as int);
        at -= 1;
        proof {
            assert(part.last() == entries@[at as int]@);
            assert(part.drop_last() =~= all.subrange(0, at as int));
            let shorter = placed(all.subrange(0, at as int), entry@);
            assert(shorter.push(part.last()) + all.subrange(at + 1, all.len() as int) =~= shorter
                + all.subrange(at as int, all.len() as int));
        }
    }
    let ghost part = all.subrange(0, at as int);
    proof {
        if at > 0 {
            assert(part.last() == entries@[at - 1]@);
        }
    }
    let ghost seen = entry@;
    let ghost size = entry.parts@.len();
    entries.insert(at, entry);
    proof {
        assert(entry_views(entries@) =~= part.push(seen) + all.subrange(at as int, all.len() as int));
        if sound(before) && 0 < size <= u16::MAX {
            assert forall|i: int| 0 <= i < entries@.len() implies 0 < (#[trigger] entries@[i]).parts@.len()
                <= u16::MAX by {
                if i < at {
                    assert(entries@[i] == before[i]);
                } else if i > at {
                    assert(entries@[i] == before[i - 1]);
                }
            }
        }
    }
}

/// Groups the patch's files into a tree, with the files in name order.
pub fn build_tree(patch: &Patch, folded: &Vec<String>) -> (rows: Vec<TreeRow>)
    requires
        tree_fits(patch@.files),
    ensures
        tree_views(rows@) == path_tree(patch@.files, views(folded@)),
{
    let ghost files = patch@.files;
    let mut entries: Vec<Entry> = Vec::new();
    let mut i: usize = 0;
    assert(entry_views(entries@) =~= Seq::empty());
    while i < patch.files.len()
        invariant
            i <= patch.files@.len(),
            files == patch@.files,
            tree_fits(files),
            sound(entries@),
            entries@.len() == i,
            entry_views(entries@) == sorted_entries(files, i as nat),
        decreases patch.files@.len() - i,
    {
        assert(files[i as int] == patch.files@[i as int]@);
        let entry = make_entry(&patch.files[i], i);
        proof {
            let k = i as int;
            assert(parts_of(listed_path(files[k], k as nat), '/').len() <= u16::MAX);
        }
        assert(entry@.parts.len() == entry.parts@.len());
        place(&mut entries, entry);
        i += 1;
    }
    let mut ids: Vec<usize> = Vec::new();
    let mut k: usize = 0;
    while k < entries.len()
        invariant
            k <= entries@.len(),
            ids@.len() == k,
            forall|j: int| 0 <= j < k ==> ids@[j] == j,
        decreases entries@.len() - k,
    {
        ids.push(k);
        k += 1;
    }
    assert(picked(entries@, ids@) =~= entry_views(entries@));
    let mut rows: Vec<TreeRow> = Vec::new();
    proof {
        reveal_strlit("");
        assert(""@ =~= Seq::<char>::empty());
        assert(tree_views(rows@) =~= Seq::empty());
    }
    write_rows(&mut rows, &entries, &ids, "", 0, folded);
    assert(Seq::<TreeView>::empty() + path_tree(files, views(folded@)) =~= path_tree(
        files,
        views(folded@),
    ));
    rows
}

// The tree by plan.

/// The last of the first `n` files that has the given path.
pub open spec fn last_file(files: Seq<FileView>, path: Seq<char>, n: nat) -> Option<usize>
    decreases n,
{
    if n == 0 {
        None
    } else if files[n - 1].path == Some(path) {
        Some((n - 1) as usize)
    } else {
        last_file(files, path, (n - 1) as nat)
    }
}

/// Which files of the patch the first `n` paths name; a path the patch does not have is left out.
pub open spec fn present_files(files: Seq<FileView>, paths: Seq<Seq<char>>, n: nat) -> Seq<usize>
    decreases n,
{
    if n == 0 {
        Seq::empty()
    } else {
        let before = present_files(files, paths, (n - 1) as nat);
        match last_file(files, paths[n - 1], files.len()) {
            Some(file) => before.push(file),
            None => before,
        }
    }
}

/// The row of a file under a plan's group: its own name, one level in.
pub open spec fn planned_row(files: Seq<FileView>, index: usize) -> TreeView {
    TreeView {
        depth: 1,
        label: match files[index as int].path {
            Some(path) => parts_of(path, '/').last(),
            None => Seq::empty(),
        },
        kind: KindView::File { index },
    }
}

/// The rows of one step of a plan: its heading, the reason it stands there, and its files.
///
/// A step without files in the patch has no rows; a folded one has its heading only.
pub open spec fn group_rows(files: Seq<FileView>, group: GroupView, folded: Seq<Seq<char>>) -> Seq<
    TreeView,
> {
    let present = present_files(files, group.files, group.files.len());
    let shut = folded.contains(group.group);
    let heading = TreeView {
        depth: 0,
        label: group.group,
        kind: KindView::Group {
            name: group.group,
            order: group.order,
            files: present.len() as usize,
            folded: shut,
        },
    };
    let reason = TreeView {
        depth: 0,
        label: group.rationale,
        kind: KindView::Rationale { text: group.rationale },
    };
    if present.len() == 0 {
        Seq::empty()
    } else if shut {
        seq![heading]
    } else if trimmed(group.rationale).len() == 0 {
        seq![heading] + present.map_values(|index: usize| planned_row(files, index))
    } else {
        seq![heading, reason] + present.map_values(|index: usize| planned_row(files, index))
    }
}

/// The rows of the first `n` steps of a plan.
pub open spec fn plan_rows(
    files: Seq<FileView>,
    groups: Seq<GroupView>,
    folded: Seq<Seq<char>>,
    n: nat,
) -> Seq<TreeView>
    decreases n,
{
    if n == 0 {
        Seq::empty()
    } else {
        plan_rows(files, groups, folded, (n - 1) as nat) + group_rows(files, groups[n - 1], folded)
    }
}

/// The tree of a patch by plan.
pub open spec fn plan_tree(plan: PlanView, files: Seq<FileView>, folded: Seq<Seq<char>>) -> Seq<
    TreeView,
> {
    plan_rows(files, plan.groups, folded, plan.groups.len())
}

fn find_last_file(files: &Vec<FileDiff>, path: &str) -> (r: Option<usize>)
    ensures
        r == last_file(file_views(files@), path@, files@.len()),
        r matches Some(f) ==> f < files@.len(),
{
    let ghost all = file_views(files@);
    let mut n: usize = files.len();
    while n > 0
        invariant
            n <= files@.len(),
            all == file_views(files@),
            last_file(all, path@, all.len()) == last_file(all, path@, n as nat),
        decreases n,
    {
        assert(all[n - 1] == files@[n - 1]@);
        match &files[n - 1].path {
            Some(own) => {
                if same(own.as_str(), path) {
                    return Some(n - 1);
                }
            },
            None => {},
        }
        n -= 1;
    }
    None
}

fn files_present(files: &Vec<FileDiff>, paths: &Vec<String>) -> (r: Vec<usize>)
    ensures
        r@ == present_files(file_views(files@), views(paths@), paths@.len()),
        forall|i: int| 0 <= i < r@.len() ==> (#[trigger] r@[i]) < files@.len(),
{
    let mut r: Vec<usize> = Vec::new();
    let mut i: usize = 0;
    while i < paths.len()
        invariant
            i <= paths@.len(),
            r@ == present_files(file_views(files@), views(paths@), i as nat),
            forall|j: int| 0 <= j < r@.len() ==> (#[trigger] r@[j]) < files@.len(),
        decreases paths@.len() - i,
    {
        assert(views(paths@)[i as int] == paths@[i as int]@);
        match find_last_file(files, paths[i].as_str()) {
            Some(file) => {
                r.push(file);
            },
            None => {},
        }
        i += 1;
    }
    r
}

/// A file's own name: what follows the last slash of its path.
fn own_name(file: &FileDiff) -> (r: String)
    ensures
        r@ == match file@.path {
            Some(path) => parts_of(path, '/').last(),
            None => Seq::<char>::empty(),
        },
{
    match &file.path {
        Some(path) => {
            let parts = split(path.as_str(), '/');
            let last: usize = parts.len() - 1;
            assert(views(parts@)[last as int] == parts@[last as int]@);
            assert(views(parts@).len() == parts@.len());
            parts[last].clone()
        },
        None => String::new(),
    }
}

/// Builds the tree the ordered view shows: one group per plan step, with its rationale above the
/// files.
pub fn build_plan_tree(plan: &Plan, patch: &Patch, folded: &Vec<String>) -> (rows: Vec<TreeRow>)
    ensures
        tree_views(rows@) == plan_tree(plan@, patch@.files, views(folded@)),
{
    broadcast use lemma_tree_views_push;
    let ghost files = patch@.files;
    let ghost shut = views(folded@);
    assert(file_views(patch.files@) =~= files);
    let mut rows: Vec<TreeRow> = Vec::new();
    let mut g: usize = 0;
    assert(tree_views(rows@) =~= Seq::empty());
    while g < plan.groups.len()
        invariant
            g <= plan.groups@.len(),
            files == patch@.files,
            files == file_views(patch.files@),
            shut == views(folded@),
            tree_views(rows@) == plan_rows(files, plan@.groups, shut, g as nat),
        decreases plan.groups@.len() - g,
    {
        let group = &plan.groups[g];
        assert(plan@.groups[g as int] == group@);
        let present = files_present(&patch.files, &group.files);
        assert(group@.files.len() == group.files@.len());
        let ghost before = tree_views(rows@);
        let ghost wanted = group_rows(files, group@, shut);
        if present.len() > 0 {
            let hidden: bool = is_among(folded, group.group.as_str());
            rows.push(
                TreeRow {
                    depth: 0,
                    label: group.group.clone(),
                    kind: TreeKind::Group {
                        name: group.group.clone(),
                        order: group.order,
                        files: present.len(),
                        folded: hidden,
                    },
                },
            );
            let ghost heading = rows@.last()@;
            if hidden {
                assert(before.push(heading) =~= before + wanted);
            } else {
                let reason = trim(group.rationale.as_str());
                if !reason.as_str().is_empty() {
                    rows.push(
                        TreeRow {
                            depth: 0,
                            label: group.rationale.clone(),
                            kind: TreeKind::Rationale { text: group.rationale.clone() },
                        },
                    );
                }
                let ghost opened = tree_views(rows@);
                let ghost make = |index: usize| planned_row(files, index);
                let mut i: usize = 0;
                assert(opened + present@.subrange(0, 0).map_values(make) =~= opened);
                while i < present.len()
                    invariant
                        i <= present@.len(),
                        files == file_views(patch.files@),
                        make == (|index: usize| planned_row(files, index)),
                        forall|j: int|
                            0 <= j < present@.len() ==> (#[trigger] present@[j]) < patch.files@.len(),
                        tree_views(rows@) == opened + present@.subrange(0, i as int).map_values(
                            make,
                        ),
                    decreases present@.len() - i,
                {
                    let index: usize = present[i];
                    assert(files[index as int] == patch.files@[index as int]@);
                    rows.push(
                        TreeRow {
                            depth: 1,
                            label: own_name(&patch.files[index]),
                            kind: TreeKind::File { index },
                        },
                    );
                    i += 1;
                    assert(opened + present@.subrange(0, i as int).map_values(make) =~= (opened
                        + present@.subrange(0, i - 1).map_values(make)).push(make(index)));
                }
                assert(present@.subrange(0, i as int) =~= present@);
                assert(tree_views(rows@) =~= before + wanted);
            }
        } else {
            assert(before + wanted =~= before);
        }
        g += 1;
    }
    rows
}

} // verus!
