//! What holds of the tree by plan: groups and files are shown in the plan's order.

use vstd::prelude::*;

use crate::order::{
    holds_part, in_turn, lemma_holds_within, lemma_in_turn_across, lemma_in_turn_within, stands_at,
};
use crate::patch::FileView;
use crate::plan::{GroupView, PlanView};
use crate::strings::trimmed;
use crate::tree::{
    group_rows, last_file, plan_rows, plan_tree, planned_row, present_files, KindView, TreeView,
};

verus! {

/// Whether a file of the patch has the given path, and none after it does.
pub open spec fn is_at(files: Seq<FileView>, path: Seq<char>, file: usize) -> bool {
    &&& file < files.len()
    &&& files[file as int].path == Some(path)
    &&& forall|f: int| file < f < files.len() ==> (#[trigger] files[f]).path != Some(path)
}

/// Whether the patch has a file with the given path.
pub open spec fn has_path(files: Seq<FileView>, path: Seq<char>) -> bool {
    exists|f: int| 0 <= f < files.len() && (#[trigger] files[f]).path == Some(path)
}

/// Whether the patch has a file that a group names.
pub open spec fn has_files(files: Seq<FileView>, group: GroupView) -> bool {
    exists|p: int| 0 <= p < group.files.len() && has_path(files, #[trigger] group.files[p])
}

/// How many of the first `n` paths the patch has.
pub open spec fn paths_there(files: Seq<FileView>, paths: Seq<Seq<char>>, n: nat) -> nat
    decreases n,
{
    if n == 0 {
        0
    } else {
        paths_there(files, paths, (n - 1) as nat) + if has_path(files, paths[n - 1]) {
            1nat
        } else {
            0
        }
    }
}

proof fn lemma_last_file(files: Seq<FileView>, path: Seq<char>, n: nat)
    requires
        n <= files.len() <= usize::MAX,
    ensures
        match last_file(files, path, n) {
            Some(file) => {
                &&& file < n
                &&& files[file as int].path == Some(path)
                &&& forall|f: int| file < f < n ==> (#[trigger] files[f]).path != Some(path)
            },
            None => forall|f: int| 0 <= f < n ==> (#[trigger] files[f]).path != Some(path),
        },
    decreases n,
{
    if n > 0 && files[n - 1].path != Some(path) {
        lemma_last_file(files, path, (n - 1) as nat);
    }
}

proof fn lemma_found(files: Seq<FileView>, path: Seq<char>)
    requires
        files.len() <= usize::MAX,
    ensures
        match last_file(files, path, files.len()) {
            Some(file) => has_path(files, path) && is_at(files, path, file),
            None => !has_path(files, path),
        },
{
    lemma_last_file(files, path, files.len());
    match last_file(files, path, files.len()) {
        Some(file) => {
            assert(files[file as int].path == Some(path));
        },
        None => {},
    }
}

/// Where the file that path `p` names stands among the files of the patch that the first `n` paths
/// name.
proof fn lemma_present(files: Seq<FileView>, paths: Seq<Seq<char>>, n: nat)
    requires
        files.len() <= usize::MAX,
        n <= paths.len(),
    ensures
        present_files(files, paths, n).len() == paths_there(files, paths, n),
        forall|p: int|
            0 <= p < n && has_path(files, #[trigger] paths[p]) ==> {
                let place = paths_there(files, paths, p as nat) as int;
                &&& place < present_files(files, paths, n).len()
                &&& is_at(files, paths[p], present_files(files, paths, n)[place])
            },
    decreases n,
{
    if n > 0 {
        lemma_present(files, paths, (n - 1) as nat);
        lemma_found(files, paths[n - 1]);
        assert forall|p: int| 0 <= p < n && has_path(files, #[trigger] paths[p]) implies {
            let place = paths_there(files, paths, p as nat) as int;
            &&& place < present_files(files, paths, n).len()
            &&& is_at(files, paths[p], present_files(files, paths, n)[place])
        } by {
            if p < n - 1 {
                let place = paths_there(files, paths, p as nat) as int;
                assert(place < present_files(files, paths, (n - 1) as nat).len());
            }
        }
    }
}

proof fn lemma_there_grows(files: Seq<FileView>, paths: Seq<Seq<char>>, p: nat, n: nat)
    requires
        p <= n,
    ensures
        paths_there(files, paths, p) <= paths_there(files, paths, n) <= n,
        p < n && has_path(files, paths[p as int]) ==> paths_there(files, paths, p) < paths_there(
            files,
            paths,
            n,
        ),
    decreases n,
{
    if p < n {
        lemma_there_grows(files, paths, p, (n - 1) as nat);
    } else if n > 0 {
        lemma_there_grows(files, paths, (n - 1) as nat, (n - 1) as nat);
    }
}

proof fn lemma_some_there(files: Seq<FileView>, group: GroupView)
    requires
        files.len() <= usize::MAX,
    ensures
        has_files(files, group) <==> paths_there(files, group.files, group.files.len()) > 0,
{
    let paths = group.files;
    if has_files(files, group) {
        let p = choose|p: int| 0 <= p < paths.len() && has_path(files, #[trigger] paths[p]);
        lemma_there_grows(files, paths, p as nat, paths.len());
    } else {
        lemma_none_there(files, paths, paths.len());
    }
}

proof fn lemma_none_there(files: Seq<FileView>, paths: Seq<Seq<char>>, n: nat)
    requires
        n <= paths.len(),
        forall|p: int| 0 <= p < n ==> !has_path(files, #[trigger] paths[p]),
    ensures
        paths_there(files, paths, n) == 0,
    decreases n,
{
    if n > 0 {
        lemma_none_there(files, paths, (n - 1) as nat);
        assert(!has_path(files, paths[n - 1]));
    }
}

/// A group without a file in the patch has no rows. One with a file opens with its heading, which
/// says its name, its place in the order and how many of its files are there; its reason, where it
/// gives one, stands right below.
pub proof fn lemma_a_group_opens_with_its_heading(
    files: Seq<FileView>,
    group: GroupView,
    folded: Seq<Seq<char>>,
)
    requires
        files.len() <= usize::MAX,
        group.files.len() <= usize::MAX,
    ensures
        !has_files(files, group) ==> group_rows(files, group, folded).len() == 0,
        has_files(files, group) ==> {
            let rows = group_rows(files, group, folded);
            let there = paths_there(files, group.files, group.files.len());
            let reasons: nat = if trimmed(group.rationale).len() > 0 { 1 } else { 0 };
            &&& rows.len() == 1 + if folded.contains(group.group) { 0nat } else { reasons + there }
            &&& rows[0].label == group.group
            &&& rows[0].depth == 0
            &&& rows[0].kind == (KindView::Group {
                name: group.group,
                order: group.order,
                files: there as usize,
                folded: folded.contains(group.group),
            })
            &&& !folded.contains(group.group) && reasons == 1 ==> rows[1].kind == (
            KindView::Rationale { text: group.rationale })
        },
{
    lemma_present(files, group.files, group.files.len());
    lemma_some_there(files, group);
}

/// Whether a row stands for a file.
pub open spec fn is_file_row(rows: Seq<TreeView>, place: int, file: usize) -> bool {
    0 <= place < rows.len() && rows[place].kind == (KindView::File { index: file })
        && rows[place].depth == 1
}

/// The files of an open group that the patch has each have a row below the heading and the reason,
/// in the order the group names them: the row of a path stands as far down as paths before it are
/// there.
pub proof fn lemma_a_group_lists_its_files_in_order(
    files: Seq<FileView>,
    group: GroupView,
    folded: Seq<Seq<char>>,
    p: int,
    q: int,
)
    requires
        files.len() <= usize::MAX,
        0 <= p < q < group.files.len(),
        has_path(files, group.files[p]),
        has_path(files, group.files[q]),
        !folded.contains(group.group),
    ensures
        exists|i: int, j: int, a: usize, b: usize|
            {
                &&& 0 < i < j
                &&& is_at(files, group.files[p], a)
                &&& is_at(files, group.files[q], b)
                &&& #[trigger] is_file_row(group_rows(files, group, folded), i, a)
                &&& #[trigger] is_file_row(group_rows(files, group, folded), j, b)
            },
{
    let paths = group.files;
    let present = present_files(files, paths, paths.len());
    lemma_present(files, paths, paths.len());
    lemma_there_grows(files, paths, p as nat, q as nat);
    lemma_there_grows(files, paths, q as nat, paths.len());
    let x = paths_there(files, paths, p as nat) as int;
    let y = paths_there(files, paths, q as nat) as int;
    let rows = group_rows(files, group, folded);
    let top: int = if trimmed(group.rationale).len() == 0 { 1 } else { 2 };
    assert(rows[top + x] == planned_row(files, present[x]));
    assert(rows[top + y] == planned_row(files, present[y]));
    assert(is_file_row(rows, top + x, present[x]));
    assert(is_file_row(rows, top + y, present[y]));
}

proof fn lemma_plan_holds(
    files: Seq<FileView>,
    groups: Seq<GroupView>,
    folded: Seq<Seq<char>>,
    a: nat,
    n: nat,
)
    requires
        a < n <= groups.len(),
    ensures
        holds_part(plan_rows(files, groups, folded, n), group_rows(files, groups[a as int], folded)),
    decreases n,
{
    let part = group_rows(files, groups[a as int], folded);
    let before = plan_rows(files, groups, folded, (n - 1) as nat);
    let last = group_rows(files, groups[n - 1], folded);
    let whole = plan_rows(files, groups, folded, n);
    if a == n - 1 {
        assert(stands_at(whole, part, before.len() as int));
    } else {
        lemma_plan_holds(files, groups, folded, a, (n - 1) as nat);
        lemma_holds_within(Seq::empty(), before, last, part);
        assert(Seq::<TreeView>::empty() + before + last =~= whole);
    }
}

proof fn lemma_plan_in_turn(
    files: Seq<FileView>,
    groups: Seq<GroupView>,
    folded: Seq<Seq<char>>,
    a: nat,
    b: nat,
    n: nat,
)
    requires
        a < b < n <= groups.len(),
    ensures
        in_turn(
            plan_rows(files, groups, folded, n),
            group_rows(files, groups[a as int], folded),
            group_rows(files, groups[b as int], folded),
        ),
    decreases n,
{
    let first = group_rows(files, groups[a as int], folded);
    let second = group_rows(files, groups[b as int], folded);
    let before = plan_rows(files, groups, folded, (n - 1) as nat);
    let last = group_rows(files, groups[n - 1], folded);
    let whole = plan_rows(files, groups, folded, n);
    if b == n - 1 {
        lemma_plan_holds(files, groups, folded, a, (n - 1) as nat);
        assert(stands_at(second, second, 0));
        lemma_in_turn_across(before, second, first, second);
    } else {
        lemma_plan_in_turn(files, groups, folded, a, b, (n - 1) as nat);
        lemma_in_turn_within(Seq::empty(), before, last, first, second);
        assert(Seq::<TreeView>::empty() + before + last =~= whole);
    }
}

/// Whether rows begin with a group's heading.
pub open spec fn opens_group(rows: Seq<TreeView>, group: GroupView) -> bool {
    &&& rows.len() > 0
    &&& rows[0].kind is Group
    &&& rows[0].kind->name == group.group
    &&& rows[0].kind->order == group.order
}

/// Groups keep the plan's order: where one stands before another in the plan and both have files in
/// the patch, its heading and all its rows stand in the tree before those of the other.
pub proof fn lemma_groups_keep_the_plans_order(
    plan: PlanView,
    files: Seq<FileView>,
    folded: Seq<Seq<char>>,
    a: int,
    b: int,
)
    requires
        files.len() <= usize::MAX,
        0 <= a < b < plan.groups.len(),
        plan.groups[a].files.len() <= usize::MAX,
        plan.groups[b].files.len() <= usize::MAX,
        has_files(files, plan.groups[a]),
        has_files(files, plan.groups[b]),
    ensures
        in_turn(
            plan_tree(plan, files, folded),
            group_rows(files, plan.groups[a], folded),
            group_rows(files, plan.groups[b], folded),
        ),
        opens_group(group_rows(files, plan.groups[a], folded), plan.groups[a]),
        opens_group(group_rows(files, plan.groups[b], folded), plan.groups[b]),
{
    lemma_plan_in_turn(files, plan.groups, folded, a as nat, b as nat, plan.groups.len());
    lemma_a_group_opens_with_its_heading(files, plan.groups[a], folded);
    lemma_a_group_opens_with_its_heading(files, plan.groups[b], folded);
}

/// A tree by plan has the rows of its groups and no others: as many as all of them together.
pub proof fn lemma_the_plan_tree_is_its_groups(plan: PlanView, files: Seq<FileView>, folded: Seq<Seq<char>>)
    ensures
        plan.groups.len() == 0 ==> plan_tree(plan, files, folded).len() == 0,
        plan.groups.len() > 0 ==> plan_tree(plan, files, folded).len() == plan_tree(
            PlanView { groups: plan.groups.drop_last(), ..plan },
            files,
            folded,
        ).len() + group_rows(files, plan.groups.last(), folded).len(),
{
    if plan.groups.len() > 0 {
        let fewer = plan.groups.drop_last();
        lemma_fewer_groups(files, plan.groups, fewer, folded, fewer.len());
    }
}

proof fn lemma_fewer_groups(
    files: Seq<FileView>,
    groups: Seq<GroupView>,
    fewer: Seq<GroupView>,
    folded: Seq<Seq<char>>,
    n: nat,
)
    requires
        n <= fewer.len() <= groups.len(),
        forall|g: int| 0 <= g < fewer.len() ==> fewer[g] == #[trigger] groups[g],
    ensures
        plan_rows(files, fewer, folded, n) == plan_rows(files, groups, folded, n),
    decreases n,
{
    if n > 0 {
        lemma_fewer_groups(files, groups, fewer, folded, (n - 1) as nat);
        assert(fewer[n - 1] == groups[n - 1]);
    }
}

} // verus!
