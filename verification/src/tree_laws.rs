//! What holds of the file tree: every file is in it once, and in its order.

use vstd::prelude::*;

use crate::order::{
    goes_on, holds_part, in_turn, lemma_in_turn_across, lemma_in_turn_within, lemma_listed,
    lemma_listed_in_turn,
};
use crate::patch::FileView;
use crate::strings::{lemma_precedes_total, lemma_precedes_transitive, precedes};
use crate::tree::{
    dir_names, dir_path, dir_rows, entry_of, file_row, file_rows_at, lemma_names_need_depth,
    lemma_under_is_no_deeper, levels_below, path_tree, placed, rows_at, sorted_entries, under,
    with_name, EntryView, KindView, TreeView,
};

verus! {

/// How many rows stand for a file.
pub open spec fn rows_for(rows: Seq<TreeView>, file: usize) -> nat
    decreases rows.len(),
{
    if rows.len() == 0 {
        0
    } else {
        rows_for(rows.drop_last(), file) + if rows.last().kind == (KindView::File { index: file }) {
            1nat
        } else {
            0
        }
    }
}

/// How many entries stand for a file.
pub open spec fn entries_for(entries: Seq<EntryView>, file: usize) -> nat
    decreases entries.len(),
{
    if entries.len() == 0 {
        0
    } else {
        entries_for(entries.drop_last(), file) + if entries.last().index == file { 1nat } else { 0 }
    }
}

proof fn lemma_rows_for_concat(a: Seq<TreeView>, b: Seq<TreeView>, file: usize)
    ensures
        rows_for(a + b, file) == rows_for(a, file) + rows_for(b, file),
    decreases b.len(),
{
    if b.len() == 0 {
        assert(a + b =~= a);
    } else {
        lemma_rows_for_concat(a, b.drop_last(), file);
        assert((a + b).drop_last() =~= a + b.drop_last());
    }
}

proof fn lemma_rows_for_push(a: Seq<TreeView>, row: TreeView, file: usize)
    ensures
        rows_for(a.push(row), file) == rows_for(a, file) + if row.kind == (KindView::File {
            index: file,
        }) {
            1nat
        } else {
            0
        },
{
    assert(a.push(row).drop_last() =~= a);
}

proof fn lemma_entries_for_push(a: Seq<EntryView>, entry: EntryView, file: usize)
    ensures
        entries_for(a.push(entry), file) == entries_for(a, file) + if entry.index == file {
            1nat
        } else {
            0
        },
{
    assert(a.push(entry).drop_last() =~= a);
}

proof fn lemma_placed_counts(entries: Seq<EntryView>, entry: EntryView, file: usize)
    ensures
        entries_for(placed(entries, entry), file) == entries_for(entries, file) + if entry.index
            == file {
            1nat
        } else {
            0
        },
    decreases entries.len(),
{
    if entries.len() == 0 || !precedes(entry.path, entries.last().path) {
        lemma_entries_for_push(entries, entry, file);
    } else {
        lemma_placed_counts(entries.drop_last(), entry, file);
        lemma_entries_for_push(placed(entries.drop_last(), entry), entries.last(), file);
    }
}

proof fn lemma_sorted_counts(files: Seq<FileView>, n: nat, file: usize)
    requires
        n <= files.len() <= usize::MAX,
    ensures
        entries_for(sorted_entries(files, n), file) == if file < n { 1nat } else { 0 },
    decreases n,
{
    if n > 0 {
        lemma_sorted_counts(files, (n - 1) as nat, file);
        lemma_placed_counts(
            sorted_entries(files, (n - 1) as nat),
            entry_of(files[n - 1], (n - 1) as nat),
            file,
        );
    }
}

/// Whether names ascend, each coming after all before it.
pub open spec fn ascending(names: Seq<Seq<char>>) -> bool {
    forall|i: int, j: int|
        0 <= i < j < names.len() ==> precedes(#[trigger] names[i], #[trigger] names[j])
}

proof fn lemma_with_name(names: Seq<Seq<char>>, name: Seq<char>)
    requires
        ascending(names),
    ensures
        ascending(with_name(names, name)),
        with_name(names, name).contains(name),
        forall|other: Seq<char>| #[trigger]
            with_name(names, name).contains(other) <==> (names.contains(other) || other == name),
    decreases names.len(),
{
    let after = with_name(names, name);
    if names.len() == 0 {
        assert(after[0] == name);
        assert forall|other: Seq<char>| #[trigger] after.contains(other) <==> (names.contains(other)
            || other == name) by {}
    } else if names.last() == name {
        assert(names[names.len() - 1] == name);
    } else if precedes(names.last(), name) {
        assert(after[names.len() as int] == name);
        assert forall|i: int, j: int| 0 <= i < j < after.len() implies precedes(
            #[trigger] after[i],
            #[trigger] after[j],
        ) by {
            if j == names.len() && i < names.len() - 1 {
                assert(precedes(names[i], names[names.len() - 1]));
                lemma_precedes_transitive(names[i], names.last(), name);
            }
        }
        assert forall|other: Seq<char>| #[trigger] after.contains(other) <==> (names.contains(other)
            || other == name) by {
            if names.contains(other) {
                let k = choose|k: int| 0 <= k < names.len() && names[k] == other;
                assert(after[k] == other);
            }
            if after.contains(other) && other != name {
                let k = choose|k: int| 0 <= k < after.len() && after[k] == other;
                assert(names[k] == other);
            }
        }
    } else {
        let front = names.drop_last();
        let last = names.last();
        assert(ascending(front)) by {
            assert forall|i: int, j: int| 0 <= i < j < front.len() implies precedes(
                #[trigger] front[i],
                #[trigger] front[j],
            ) by {
                assert(precedes(names[i], names[j]));
            }
        }
        lemma_with_name(front, name);
        lemma_precedes_total(last, name);
        let inner = with_name(front, name);
        assert forall|i: int, j: int| 0 <= i < j < after.len() implies precedes(
            #[trigger] after[i],
            #[trigger] after[j],
        ) by {
            if j == inner.len() {
                assert(inner.contains(inner[i]));
                if inner[i] != name {
                    let k = choose|k: int| 0 <= k < front.len() && front[k] == inner[i];
                    assert(precedes(names[k], names[names.len() - 1]));
                }
            }
        }
        assert forall|other: Seq<char>| #[trigger] after.contains(other) <==> (names.contains(other)
            || other == name) by {
            if after.contains(other) {
                let k = choose|k: int| 0 <= k < after.len() && after[k] == other;
                if k < inner.len() {
                    assert(inner.contains(other));
                    if other != name {
                        let m = choose|m: int| 0 <= m < front.len() && front[m] == other;
                        assert(names[m] == other);
                    }
                } else {
                    assert(names[names.len() - 1] == other);
                }
            }
            if names.contains(other) {
                let k = choose|k: int| 0 <= k < names.len() && names[k] == other;
                if k < front.len() {
                    assert(front[k] == other);
                    assert(inner.contains(other));
                    let m = choose|m: int| 0 <= m < inner.len() && inner[m] == other;
                    assert(after[m] == other);
                } else {
                    assert(after[inner.len() as int] == other);
                }
            }
            if other == name {
                assert(inner.contains(name));
                let m = choose|m: int| 0 <= m < inner.len() && inner[m] == name;
                assert(after[m] == name);
            }
        }
        assert(after.contains(name));
    }
}

proof fn lemma_dir_names(entries: Seq<EntryView>, level: nat, n: nat)
    requires
        n <= entries.len(),
    ensures
        ascending(dir_names(entries, level, n)),
        forall|i: int|
            0 <= i < n && (#[trigger] entries[i]).dirs() > level ==> dir_names(
                entries,
                level,
                n,
            ).contains(entries[i].parts[level as int]),
    decreases n,
{
    if n > 0 {
        lemma_dir_names(entries, level, (n - 1) as nat);
        if entries[n - 1].dirs() > level {
            lemma_with_name(
                dir_names(entries, level, (n - 1) as nat),
                entries[n - 1].parts[level as int],
            );
        }
    }
}

/// How often a name is among the first `k`.
pub open spec fn times(names: Seq<Seq<char>>, name: Seq<char>, k: nat) -> nat
    decreases k,
{
    if k == 0 {
        0
    } else {
        times(names, name, (k - 1) as nat) + if names[k - 1] == name { 1nat } else { 0 }
    }
}

proof fn lemma_times_before(names: Seq<Seq<char>>, name: Seq<char>, k: nat)
    requires
        k <= names.len(),
        forall|i: int| 0 <= i < k ==> names[i] != name,
    ensures
        times(names, name, k) == 0,
    decreases k,
{
    if k > 0 {
        lemma_times_before(names, name, (k - 1) as nat);
    }
}

proof fn lemma_once(names: Seq<Seq<char>>, name: Seq<char>, at: int, k: nat)
    requires
        ascending(names),
        0 <= at < k <= names.len(),
        names[at] == name,
    ensures
        times(names, name, k) == 1,
    decreases k,
{
    if at == k - 1 {
        assert forall|i: int| 0 <= i < k - 1 implies names[i] != name by {
            assert(precedes(names[i], names[at]));
            lemma_precedes_total(names[i], names[at]);
        }
        lemma_times_before(names, name, (k - 1) as nat);
    } else {
        assert(precedes(names[at], names[k - 1]));
        lemma_precedes_total(names[at], names[k - 1]);
        lemma_once(names, name, at, (k - 1) as nat);
    }
}

/// How many of the first `n` entries stand for a file under one of the first `k` names.
pub open spec fn sum_under(
    entries: Seq<EntryView>,
    level: nat,
    names: Seq<Seq<char>>,
    file: usize,
    k: nat,
    n: nat,
) -> nat
    decreases k,
{
    if k == 0 {
        0
    } else {
        sum_under(entries, level, names, file, (k - 1) as nat, n) + entries_for(
            under(entries, level, names[k - 1], n),
            file,
        )
    }
}

/// How many of the first `n` entries stand for a file below `level`.
pub open spec fn deep_for(entries: Seq<EntryView>, level: nat, file: usize, n: nat) -> nat
    decreases n,
{
    if n == 0 {
        0
    } else {
        deep_for(entries, level, file, (n - 1) as nat) + if entries[n - 1].dirs() > level
            && entries[n - 1].index == file {
            1nat
        } else {
            0
        }
    }
}

proof fn lemma_sum_step(
    entries: Seq<EntryView>,
    level: nat,
    names: Seq<Seq<char>>,
    file: usize,
    k: nat,
    n: nat,
)
    requires
        0 < n <= entries.len(),
        k <= names.len(),
    ensures
        sum_under(entries, level, names, file, k, n) == sum_under(
            entries,
            level,
            names,
            file,
            k,
            (n - 1) as nat,
        ) + if entries[n - 1].dirs() > level && entries[n - 1].index == file {
            times(names, entries[n - 1].parts[level as int], k)
        } else {
            0
        },
    decreases k,
{
    if k > 0 {
        lemma_sum_step(entries, level, names, file, (k - 1) as nat, n);
        let name = names[k - 1];
        let entry = entries[n - 1];
        let before = under(entries, level, name, (n - 1) as nat);
        if entry.dirs() > level && entry.parts[level as int] == name {
            lemma_entries_for_push(before, entry, file);
        }
    }
}

proof fn lemma_none_under(entries: Seq<EntryView>, level: nat, names: Seq<Seq<char>>, file: usize, k: nat)
    ensures
        sum_under(entries, level, names, file, k, 0) == 0,
    decreases k,
{
    if k > 0 {
        lemma_none_under(entries, level, names, file, (k - 1) as nat);
    }
}

proof fn lemma_sum_is_deep(
    entries: Seq<EntryView>,
    level: nat,
    names: Seq<Seq<char>>,
    file: usize,
    n: nat,
)
    requires
        n <= entries.len(),
        ascending(names),
        forall|i: int|
            0 <= i < n && (#[trigger] entries[i]).dirs() > level ==> names.contains(
                entries[i].parts[level as int],
            ),
    ensures
        sum_under(entries, level, names, file, names.len(), n) == deep_for(
            entries,
            level,
            file,
            n,
        ),
    decreases n,
{
    if n == 0 {
        lemma_none_under(entries, level, names, file, names.len());
    } else {
        lemma_sum_is_deep(entries, level, names, file, (n - 1) as nat);
        lemma_sum_step(entries, level, names, file, names.len(), n);
        let entry = entries[n - 1];
        if entry.dirs() > level {
            let name = entry.parts[level as int];
            let at = choose|at: int| 0 <= at < names.len() && names[at] == name;
            lemma_once(names, name, at, names.len());
        }
    }
}

proof fn lemma_files_at(entries: Seq<EntryView>, level: nat, file: usize, n: nat)
    requires
        n <= entries.len(),
    ensures
        rows_for(file_rows_at(entries, level, n), file) + deep_for(entries, level, file, n)
            == entries_for(entries.subrange(0, n as int), file),
    decreases n,
{
    if n > 0 {
        lemma_files_at(entries, level, file, (n - 1) as nat);
        let entry = entries[n - 1];
        assert(entries.subrange(0, n as int).drop_last() =~= entries.subrange(0, n - 1));
        if entry.dirs() <= level {
            lemma_rows_for_push(
                file_rows_at(entries, level, (n - 1) as nat),
                file_row(entry, level),
                file,
            );
        }
    } else {
        assert(entries.subrange(0, 0) =~= Seq::empty());
    }
}

proof fn lemma_dirs_count(
    entries: Seq<EntryView>,
    prefix: Seq<char>,
    level: nat,
    file: usize,
    k: nat,
)
    requires
        k <= dir_names(entries, level, entries.len()).len(),
    ensures
        rows_for(dir_rows(entries, prefix, level, Seq::empty(), k), file) == sum_under(
            entries,
            level,
            dir_names(entries, level, entries.len()),
            file,
            k,
            entries.len(),
        ),
    decreases levels_below(entries, level), k,
{
    if k > 0 {
        let names = dir_names(entries, level, entries.len());
        let name = names[k - 1];
        let inside = under(entries, level, name, entries.len());
        let path = dir_path(prefix, name);
        lemma_dirs_count(entries, prefix, level, file, (k - 1) as nat);
        lemma_names_need_depth(entries, level, entries.len());
        lemma_under_is_no_deeper(entries, level, name, entries.len());
        lemma_rows_count(inside, path, level + 1, file);
        let row = TreeView {
            depth: level as u16,
            label: name,
            kind: KindView::Directory { path, files: inside.len() as usize, folded: false },
        };
        let before = dir_rows(entries, prefix, level, Seq::empty(), (k - 1) as nat);
        assert(!Seq::<Seq<char>>::empty().contains(path));
        lemma_rows_for_push(before, row, file);
        lemma_rows_for_concat(
            before.push(row),
            rows_at(inside, path, level + 1, Seq::empty()),
            file,
        );
    }
}

proof fn lemma_rows_count(entries: Seq<EntryView>, prefix: Seq<char>, level: nat, file: usize)
    ensures
        rows_for(rows_at(entries, prefix, level, Seq::empty()), file) == entries_for(entries, file),
    decreases levels_below(entries, level), dir_names(entries, level, entries.len()).len() + 1,
{
    let names = dir_names(entries, level, entries.len());
    lemma_dirs_count(entries, prefix, level, file, names.len());
    lemma_dir_names(entries, level, entries.len());
    lemma_sum_is_deep(entries, level, names, file, entries.len());
    lemma_files_at(entries, level, file, entries.len());
    assert(entries.subrange(0, entries.len() as int) =~= entries);
    lemma_rows_for_concat(
        dir_rows(entries, prefix, level, Seq::empty(), names.len()),
        file_rows_at(entries, level, entries.len()),
        file,
    );
}

/// With nothing folded, the tree holds every file of the patch exactly once, and no other.
pub proof fn lemma_the_tree_holds_every_file_once(files: Seq<FileView>, file: usize)
    requires
        files.len() <= usize::MAX,
    ensures
        rows_for(path_tree(files, Seq::empty()), file) == if file < files.len() { 1nat } else { 0 },
{
    lemma_sorted_counts(files, files.len(), file);
    lemma_rows_count(sorted_entries(files, files.len()), Seq::empty(), 0, file);
}

/// What the tree shows of a directory: its row, and below it, unless it is folded, what it holds.
pub open spec fn shown_dir(
    entries: Seq<EntryView>,
    prefix: Seq<char>,
    level: nat,
    folded: Seq<Seq<char>>,
    name: Seq<char>,
) -> Seq<TreeView> {
    let inside = under(entries, level, name, entries.len());
    let path = dir_path(prefix, name);
    let row = TreeView {
        depth: level as u16,
        label: name,
        kind: KindView::Directory {
            path,
            files: inside.len() as usize,
            folded: folded.contains(path),
        },
    };
    if folded.contains(path) {
        seq![row]
    } else {
        seq![row] + rows_at(inside, path, level + 1, folded)
    }
}

proof fn lemma_dirs_go_on(
    entries: Seq<EntryView>,
    prefix: Seq<char>,
    level: nat,
    folded: Seq<Seq<char>>,
    k: nat,
)
    requires
        k < dir_names(entries, level, entries.len()).len(),
    ensures
        dir_rows(entries, prefix, level, folded, k + 1) == dir_rows(entries, prefix, level, folded, k)
            + shown_dir(
            entries,
            prefix,
            level,
            folded,
            dir_names(entries, level, entries.len())[k as int],
        ),
{
    let name = dir_names(entries, level, entries.len())[k as int];
    assert(dir_rows(entries, prefix, level, folded, k + 1) =~= dir_rows(
        entries,
        prefix,
        level,
        folded,
        k,
    ) + shown_dir(entries, prefix, level, folded, name));
}

proof fn lemma_files_rows_hold(entries: Seq<EntryView>, level: nat, n: nat, a: nat)
    requires
        a < n <= entries.len(),
        entries[a as int].dirs() <= level,
    ensures
        holds_part(file_rows_at(entries, level, n), seq![file_row(entries[a as int], level)]),
{
    let upto = |m: nat| file_rows_at(entries, level, m);
    let each = |k: nat|
        if entries[k as int].dirs() > level {
            Seq::empty()
        } else {
            seq![file_row(entries[k as int], level)]
        };
    assert forall|k: nat| k < n implies #[trigger] goes_on(upto, each, k) by {
        assert(upto(k + 1) =~= upto(k) + each(k));
    }
    lemma_listed(upto, each, n, a);
}

/// At every level the directories stand first, each with what it holds, and then the files.
pub proof fn lemma_directories_stand_before_files(
    entries: Seq<EntryView>,
    prefix: Seq<char>,
    level: nat,
    folded: Seq<Seq<char>>,
    k: nat,
    a: nat,
)
    requires
        k < dir_names(entries, level, entries.len()).len(),
        a < entries.len(),
        entries[a as int].dirs() <= level,
    ensures
        in_turn(
            rows_at(entries, prefix, level, folded),
            shown_dir(
                entries,
                prefix,
                level,
                folded,
                dir_names(entries, level, entries.len())[k as int],
            ),
            seq![file_row(entries[a as int], level)],
        ),
{
    let names = dir_names(entries, level, entries.len());
    let upto = |m: nat| dir_rows(entries, prefix, level, folded, m);
    let each = |m: nat| shown_dir(entries, prefix, level, folded, names[m as int]);
    assert forall|m: nat| m < names.len() implies #[trigger] goes_on(upto, each, m) by {
        lemma_dirs_go_on(entries, prefix, level, folded, m);
    }
    lemma_listed(upto, each, names.len(), k);
    lemma_files_rows_hold(entries, level, entries.len(), a);
    lemma_in_turn_across(
        dir_rows(entries, prefix, level, folded, names.len()),
        file_rows_at(entries, level, entries.len()),
        each(k),
        seq![file_row(entries[a as int], level)],
    );
}

/// The directories of a level stand in the order of their names, each with what it holds.
pub proof fn lemma_directories_stand_in_order(
    entries: Seq<EntryView>,
    prefix: Seq<char>,
    level: nat,
    folded: Seq<Seq<char>>,
    j: nat,
    k: nat,
)
    requires
        j < k < dir_names(entries, level, entries.len()).len(),
    ensures
        ({
            let names = dir_names(entries, level, entries.len());
            &&& precedes(names[j as int], names[k as int])
            &&& in_turn(
                rows_at(entries, prefix, level, folded),
                shown_dir(entries, prefix, level, folded, names[j as int]),
                shown_dir(entries, prefix, level, folded, names[k as int]),
            )
        }),
{
    let names = dir_names(entries, level, entries.len());
    lemma_dir_names(entries, level, entries.len());
    assert(precedes(names[j as int], names[k as int]));
    let upto = |m: nat| dir_rows(entries, prefix, level, folded, m);
    let each = |m: nat| shown_dir(entries, prefix, level, folded, names[m as int]);
    assert forall|m: nat| m < names.len() implies #[trigger] goes_on(upto, each, m) by {
        lemma_dirs_go_on(entries, prefix, level, folded, m);
    }
    lemma_listed_in_turn(upto, each, names.len(), j, k);
    let dirs = dir_rows(entries, prefix, level, folded, names.len());
    let rest = file_rows_at(entries, level, entries.len());
    lemma_in_turn_within(Seq::empty(), dirs, rest, each(j), each(k));
    assert(Seq::<TreeView>::empty() + dirs + rest =~= rows_at(entries, prefix, level, folded));
}

/// A directory holds exactly the files whose paths go through it.
pub proof fn lemma_a_directory_holds_what_lies_below(
    entries: Seq<EntryView>,
    level: nat,
    name: Seq<char>,
    n: nat,
    entry: EntryView,
)
    requires
        n <= entries.len(),
    ensures
        under(entries, level, name, n).contains(entry) <==> exists|k: int|
            0 <= k < n && #[trigger] entries[k] == entry && entry.dirs() > level
                && entry.parts[level as int] == name,
    decreases n,
{
    if n > 0 {
        let m = (n - 1) as nat;
        lemma_a_directory_holds_what_lies_below(entries, level, name, m, entry);
        let before = under(entries, level, name, m);
        let after = under(entries, level, name, n);
        if before.contains(entry) {
            let k = choose|k: int| 0 <= k < before.len() && before[k] == entry;
            assert(after[k] == entry);
        }
        let last = entries[m as int];
        if last.dirs() > level && last.parts[level as int] == name {
            assert(after[before.len() as int] == last);
            if after.contains(entry) && !before.contains(entry) {
                let k = choose|k: int| 0 <= k < after.len() && after[k] == entry;
                if k < before.len() {
                    assert(before[k] == entry);
                }
            }
        }
    }
}

/// The files of a patch are put into the tree in the order of their paths.
pub proof fn lemma_files_are_sorted_by_path(files: Seq<FileView>, n: nat)
    requires
        n <= files.len(),
    ensures
        sorted_entries(files, n).len() == n,
        by_path(sorted_entries(files, n)),
    decreases n,
{
    if n > 0 {
        lemma_files_are_sorted_by_path(files, (n - 1) as nat);
        lemma_placed_by_path(
            sorted_entries(files, (n - 1) as nat),
            entry_of(files[n - 1], (n - 1) as nat),
        );
    }
}

/// Whether no entry's path comes before that of an entry before it.
pub open spec fn by_path(entries: Seq<EntryView>) -> bool {
    forall|i: int, j: int|
        0 <= i < j < entries.len() ==> !precedes(
            (#[trigger] entries[j]).path,
            (#[trigger] entries[i]).path,
        )
}

proof fn lemma_placed_by_path(entries: Seq<EntryView>, entry: EntryView)
    requires
        by_path(entries),
    ensures
        by_path(placed(entries, entry)),
        placed(entries, entry).len() == entries.len() + 1,
        forall|k: int|
            0 <= k < placed(entries, entry).len() ==> (#[trigger] placed(entries, entry)[k]) == entry
                || entries.contains(placed(entries, entry)[k]),
    decreases entries.len(),
{
    let after = placed(entries, entry);
    if entries.len() == 0 {
    } else if !precedes(entry.path, entries.last().path) {
        assert forall|i: int, j: int| 0 <= i < j < after.len() implies !precedes(
            (#[trigger] after[j]).path,
            (#[trigger] after[i]).path,
        ) by {
            if j == entries.len() && precedes(entry.path, entries[i].path) {
                let last = entries.last().path;
                if i < entries.len() - 1 {
                    assert(!precedes(entries[entries.len() - 1].path, entries[i].path));
                    lemma_precedes_total(last, entries[i].path);
                    if last != entries[i].path {
                        lemma_precedes_transitive(entry.path, entries[i].path, last);
                    }
                }
            }
        }
        assert forall|k: int| 0 <= k < after.len() implies (#[trigger] after[k]) == entry
            || entries.contains(after[k]) by {
            if k < entries.len() {
                assert(entries[k] == after[k]);
            }
        }
    } else {
        let front = entries.drop_last();
        let last = entries.last();
        assert forall|i: int, j: int| 0 <= i < j < front.len() implies !precedes(
            (#[trigger] front[j]).path,
            (#[trigger] front[i]).path,
        ) by {
            assert(!precedes(entries[j].path, entries[i].path));
        }
        lemma_placed_by_path(front, entry);
        let inner = placed(front, entry);
        assert forall|i: int, j: int| 0 <= i < j < after.len() implies !precedes(
            (#[trigger] after[j]).path,
            (#[trigger] after[i]).path,
        ) by {
            if j < inner.len() {
                assert(after[i] == inner[i]);
                assert(after[j] == inner[j]);
            } else {
                assert(after[i] == inner[i]);
                if inner[i] == entry {
                    lemma_precedes_total(entry.path, last.path);
                    if precedes(last.path, entry.path) {
                        lemma_precedes_transitive(entry.path, last.path, entry.path);
                        lemma_precedes_total(entry.path, entry.path);
                    }
                } else {
                    let k = choose|k: int| 0 <= k < front.len() && front[k] == inner[i];
                    assert(!precedes(entries[entries.len() - 1].path, entries[k].path));
                }
            }
        }
        assert forall|k: int| 0 <= k < after.len() implies (#[trigger] after[k]) == entry
            || entries.contains(after[k]) by {
            if k < inner.len() {
                assert(after[k] == inner[k]);
                if inner[k] != entry {
                    let m = choose|m: int| 0 <= m < front.len() && front[m] == inner[k];
                    assert(entries[m] == inner[k]);
                }
            } else {
                assert(entries[entries.len() - 1] == after[k]);
            }
        }
    }
}

/// Two files of one directory stand in the order of their paths.
pub proof fn lemma_files_of_a_level_stand_in_order(
    entries: Seq<EntryView>,
    prefix: Seq<char>,
    level: nat,
    folded: Seq<Seq<char>>,
    a: nat,
    b: nat,
)
    requires
        a < b < entries.len(),
        entries[a as int].dirs() <= level,
        entries[b as int].dirs() <= level,
    ensures
        in_turn(
            rows_at(entries, prefix, level, folded),
            seq![file_row(entries[a as int], level)],
            seq![file_row(entries[b as int], level)],
        ),
{
    let upto = |m: nat| file_rows_at(entries, level, m);
    let each = |k: nat|
        if entries[k as int].dirs() > level {
            Seq::empty()
        } else {
            seq![file_row(entries[k as int], level)]
        };
    assert forall|k: nat| k < entries.len() implies #[trigger] goes_on(upto, each, k) by {
        assert(upto(k + 1) =~= upto(k) + each(k));
    }
    lemma_listed_in_turn(upto, each, entries.len(), a, b);
    let dirs = dir_rows(entries, prefix, level, folded, dir_names(entries, level, entries.len()).len());
    let rest = file_rows_at(entries, level, entries.len());
    lemma_in_turn_within(dirs, rest, Seq::empty(), each(a), each(b));
    assert(dirs + rest + Seq::<TreeView>::empty() =~= rows_at(entries, prefix, level, folded));
}

/// A directory's row says where it is, how many files lie below it and whether it is folded; a
/// folded one shows nothing else.
pub proof fn lemma_a_directory_says_what_it_holds(
    entries: Seq<EntryView>,
    prefix: Seq<char>,
    level: nat,
    folded: Seq<Seq<char>>,
    name: Seq<char>,
)
    ensures
        ({
            let rows = shown_dir(entries, prefix, level, folded, name);
            let path = dir_path(prefix, name);
            &&& rows.len() > 0
            &&& rows[0].label == name
            &&& rows[0].kind is Directory
            &&& rows[0].kind->path == path
            &&& folded.contains(path) ==> rows.len() == 1
            &&& path.len() == if prefix.len() == 0 { name.len() } else { prefix.len() + 1 + name.len() }
            &&& path.subrange(path.len() - name.len(), path.len() as int) == name
            &&& prefix.len() > 0 ==> path.subrange(0, prefix.len() as int) == prefix
                && path[prefix.len() as int] == '/'
        }),
{
    reveal_strlit("/");
    let path = dir_path(prefix, name);
    assert(path.subrange(path.len() - name.len(), path.len() as int) =~= name);
    if prefix.len() > 0 {
        assert(path.subrange(0, prefix.len() as int) =~= prefix);
    }
}

} // verus!
