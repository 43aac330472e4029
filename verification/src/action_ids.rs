//! No two actions have the same id, each id has its dot, and each action is described.

use vstd::prelude::*;

use crate::action::actions;

verus! {

/// A number by which the ids of the actions can be told apart: of their length, their fifth and
/// sixth character and their last.
spec fn code(id: Seq<char>) -> int {
    id.len() + 1_000 * (id[4] as int) + 1_000_000 * (id[5] as int) + 1_000_000_000 * (
    id.last() as int)
}

/// The place of the action whose id has a code.
spec fn place(code: int) -> int {
    if code == 116_117_113_008 {
        0
    } else if code == 112_101_104_008 {
        1
    } else if code == 100_111_099_011 {
        2
    } else if code == 117_101_108_015 {
        3
    } else if code == 108_097_099_010 {
        4
    } else if code == 104_101_114_011 {
        5
    } else if code == 114_111_100_010 {
        6
    } else if code == 110_101_118_011 {
        7
    } else if code == 114_101_099_012 {
        8
    } else if code == 114_104_116_016 {
        9
    } else if code == 114_111_109_016 {
        10
    } else if code == 101_046_101_012 {
        11
    } else if code == 112_112_117_006 {
        12
    } else if code == 110_111_100_008 {
        13
    } else if code == 112_111_116_007 {
        14
    } else if code == 109_111_098_010 {
        15
    } else if code == 110_112_111_008 {
        16
    } else if code == 110_097_104_013 {
        17
    } else if code == 112_097_104_011 {
        18
    } else if code == 110_097_112_013 {
        19
    } else if code == 112_097_112_011 {
        20
    } else if code == 107_097_098_008 {
        21
    } else if code == 110_104_099_011 {
        22
    } else if code == 101_104_099_012 {
        23
    } else if code == 116_104_099_011 {
        24
    } else if code == 118_104_099_011 {
        25
    } else if code == 117_114_101_011 {
        26
    } else if code == 114_114_101_012 {
        27
    } else if code == 117_109_046_009 {
        28
    } else if code == 107_110_046_014 {
        29
    } else if code == 107_112_046_014 {
        30
    } else if code == 101_110_046_014 {
        31
    } else if code == 101_112_046_014 {
        32
    } else if code == 107_116_046_016 {
        33
    } else if code == 116_116_046_017 {
        34
    } else if code == 116_099_046_018 {
        35
    } else if code == 101_116_046_022 {
        36
    } else if code == 104_119_101_016 {
        37
    } else if code == 114_116_046_017 {
        38
    } else if code == 108_110_097_017 {
        39
    } else if code == 101_115_121_024 {
        40
    } else if code == 112_109_046_012 {
        41
    } else if code == 110_109_046_014 {
        42
    } else if code == 101_111_108_013 {
        43
    } else if code == 110_111_046_009 {
        44
    } else if code == 100_115_046_009 {
        45
    } else if code == 101_110_046_012 {
        46
    } else if code == 121_114_046_010 {
        47
    } else if code == 108_099_046_011 {
        48
    } else if code == 116_108_046_009 {
        49
    } else if code == 116_101_046_011 {
        50
    } else if code == 101_119_101_019 {
        51
    } else if code == 101_119_101_012 {
        52
    } else if code == 101_119_101_014 {
        53
    } else if code == 115_119_101_018 {
        54
    } else if code == 121_119_101_019 {
        55
    } else if code == 100_119_101_014 {
        56
    } else if code == 121_119_101_012 {
        57
    } else if code == 114_119_101_020 {
        58
    } else if code == 100_119_101_022 {
        59
    } else if code == 110_119_101_019 {
        60
    } else if code == 110_119_101_027 {
        61
    } else if code == 115_119_101_013 {
        62
    } else if code == 104_119_101_014 {
        63
    } else if code == 115_119_101_021 {
        64
    } else if code == 101_119_101_013 {
        65
    } else if code == 116_110_046_009 {
        66
    } else if code == 118_112_046_009 {
        67
    } else if code == 119_119_101_019 {
        68
    } else if code == 115_119_101_016 {
        69
    } else if code == 115_119_101_017 {
        70
    } else if code == 110_119_101_021 {
        71
    } else if code == 107_119_101_014 {
        72
    } else if code == 114_119_101_030 {
        73
    } else {
        -1
    }
}

/// Whether the action at `i` is found by the code of its id, has a dot in it and is described.
spec fn is_in_order(i: int) -> bool {
    let action = actions()[i];
    &&& place(code(action.id@)) == i
    &&& action.id@.contains('.')
    &&& action.description@.len() > 0
}

proof fn lemma_in_order_from_0(i: int)
    requires
        0 <= i < 6,
    ensures
        is_in_order(i),
{
    if i == 0 {
        reveal_strlit("app.quit");
        reveal_strlit("Quit smart-review");
        assert(actions()[0].id@[3] == '.');
    } else if i == 1 {
        reveal_strlit("app.help");
        reveal_strlit("Show the help popup");
        assert(actions()[1].id@[3] == '.');
    } else if i == 2 {
        reveal_strlit("app.command");
        reveal_strlit("Open the command line");
        assert(actions()[2].id@[3] == '.');
    } else if i == 3 {
        reveal_strlit("app.leader_menu");
        reveal_strlit("Show the available leader bindings");
        assert(actions()[3].id@[3] == '.');
    } else if i == 4 {
        reveal_strlit("app.cancel");
        reveal_strlit("Close the current popup, or cancel pending keys");
        assert(actions()[4].id@[3] == '.');
    } else {
        reveal_strlit("app.refresh");
        reveal_strlit("Refresh the current view");
        assert(actions()[5].id@[3] == '.');
    }
}

proof fn lemma_in_order_from_6(i: int)
    requires
        6 <= i < 12,
    ensures
        is_in_order(i),
{
    if i == 6 {
        reveal_strlit("app.doctor");
        reveal_strlit("Show environment checks");
        assert(actions()[6].id@[3] == '.');
    } else if i == 7 {
        reveal_strlit("app.version");
        reveal_strlit("Show the version");
        assert(actions()[7].id@[3] == '.');
    } else if i == 8 {
        reveal_strlit("notice.clear");
        reveal_strlit("Dismiss the current notification");
        assert(actions()[8].id@[6] == '.');
    } else if i == 9 {
        reveal_strlit("app.theme_picker");
        reveal_strlit("Choose a theme");
        assert(actions()[9].id@[3] == '.');
    } else if i == 10 {
        reveal_strlit("app.model_picker");
        reveal_strlit("Choose the provider, model and thinking settings");
        assert(actions()[10].id@[3] == '.');
    } else {
        reveal_strlit("theme.toggle");
        reveal_strlit("Switch to the next theme");
        assert(actions()[11].id@[5] == '.');
    }
}

proof fn lemma_in_order_from_12(i: int)
    requires
        12 <= i < 18,
    ensures
        is_in_order(i),
{
    if i == 12 {
        reveal_strlit("nav.up");
        reveal_strlit("Move up");
        assert(actions()[12].id@[3] == '.');
    } else if i == 13 {
        reveal_strlit("nav.down");
        reveal_strlit("Move down");
        assert(actions()[13].id@[3] == '.');
    } else if i == 14 {
        reveal_strlit("nav.top");
        reveal_strlit("Jump to the first item");
        assert(actions()[14].id@[3] == '.');
    } else if i == 15 {
        reveal_strlit("nav.bottom");
        reveal_strlit("Jump to the last item");
        assert(actions()[15].id@[3] == '.');
    } else if i == 16 {
        reveal_strlit("nav.open");
        reveal_strlit("Open the selected pull request, or the selected file");
        assert(actions()[16].id@[3] == '.');
    } else {
        reveal_strlit("nav.half_down");
        reveal_strlit("Move half a screen down");
        assert(actions()[17].id@[3] == '.');
    }
}

proof fn lemma_in_order_from_18(i: int)
    requires
        18 <= i < 24,
    ensures
        is_in_order(i),
{
    if i == 18 {
        reveal_strlit("nav.half_up");
        reveal_strlit("Move half a screen up");
        assert(actions()[18].id@[3] == '.');
    } else if i == 19 {
        reveal_strlit("nav.page_down");
        reveal_strlit("Move a screen down");
        assert(actions()[19].id@[3] == '.');
    } else if i == 20 {
        reveal_strlit("nav.page_up");
        reveal_strlit("Move a screen up");
        assert(actions()[20].id@[3] == '.');
    } else if i == 21 {
        reveal_strlit("nav.back");
        reveal_strlit("Close the review, or clear the search and filters");
        assert(actions()[21].id@[3] == '.');
    } else if i == 22 {
        reveal_strlit("search.open");
        reveal_strlit("Filter the loaded pull requests as you type");
        assert(actions()[22].id@[6] == '.');
    } else {
        reveal_strlit("search.close");
        reveal_strlit("Stop editing the search");
        assert(actions()[23].id@[6] == '.');
    }
}

proof fn lemma_in_order_from_24(i: int)
    requires
        24 <= i < 30,
    ensures
        is_in_order(i),
{
    if i == 24 {
        reveal_strlit("search.next");
        reveal_strlit("Next match");
        assert(actions()[24].id@[6] == '.');
    } else if i == 25 {
        reveal_strlit("search.prev");
        reveal_strlit("Previous match");
        assert(actions()[25].id@[6] == '.');
    } else if i == 26 {
        reveal_strlit("filter.menu");
        reveal_strlit("Add a filter chip");
        assert(actions()[26].id@[6] == '.');
    } else if i == 27 {
        reveal_strlit("filter.clear");
        reveal_strlit("Clear the filters and the search");
        assert(actions()[27].id@[6] == '.');
    } else if i == 28 {
        reveal_strlit("sort.menu");
        reveal_strlit("Change the sort order");
        assert(actions()[28].id@[4] == '.');
    } else {
        reveal_strlit("diff.next_hunk");
        reveal_strlit("Next hunk");
        assert(actions()[29].id@[4] == '.');
    }
}

proof fn lemma_in_order_from_30(i: int)
    requires
        30 <= i < 36,
    ensures
        is_in_order(i),
{
    if i == 30 {
        reveal_strlit("diff.prev_hunk");
        reveal_strlit("Previous hunk");
        assert(actions()[30].id@[4] == '.');
    } else if i == 31 {
        reveal_strlit("diff.next_file");
        reveal_strlit("Next file");
        assert(actions()[31].id@[4] == '.');
    } else if i == 32 {
        reveal_strlit("diff.prev_file");
        reveal_strlit("Previous file");
        assert(actions()[32].id@[4] == '.');
    } else if i == 33 {
        reveal_strlit("diff.toggle_hunk");
        reveal_strlit("Fold or unfold the hunk under the cursor");
        assert(actions()[33].id@[4] == '.');
    } else if i == 34 {
        reveal_strlit("diff.toggle_split");
        reveal_strlit("Side-by-side view, when the terminal is wide enough");
        assert(actions()[34].id@[4] == '.');
    } else {
        reveal_strlit("diff.cycle_context");
        reveal_strlit("Cycle the context lines: 3, 10, 0");
        assert(actions()[35].id@[4] == '.');
    }
}

proof fn lemma_in_order_from_36(i: int)
    requires
        36 <= i < 42,
    ensures
        is_in_order(i),
{
    if i == 36 {
        reveal_strlit("diff.toggle_whitespace");
        reveal_strlit("Ignore whitespace-only changes");
        assert(actions()[36].id@[4] == '.');
    } else if i == 37 {
        reveal_strlit("review.copy_path");
        reveal_strlit("Copy the current file path");
        assert(actions()[37].id@[6] == '.');
    } else if i == 38 {
        reveal_strlit("diff.toggle_order");
        reveal_strlit("Switch between the recommended and path orders");
        assert(actions()[38].id@[4] == '.');
    } else if i == 39 {
        reveal_strlit("app.analyze_panel");
        reveal_strlit("Analyse the pull request, or open the analysis");
        assert(actions()[39].id@[3] == '.');
    } else if i == 40 {
        reveal_strlit("analysis.toggle_guidance");
        reveal_strlit("Expand or collapse current-file guidance (e)");
        assert(actions()[40].id@[8] == '.');
    } else {
        reveal_strlit("plan.move_up");
        reveal_strlit("Move the selected review-plan group up");
        assert(actions()[41].id@[4] == '.');
    }
}

proof fn lemma_in_order_from_42(i: int)
    requires
        42 <= i < 48,
    ensures
        is_in_order(i),
{
    if i == 42 {
        reveal_strlit("plan.move_down");
        reveal_strlit("Move the selected review-plan group down");
        assert(actions()[42].id@[4] == '.');
    } else if i == 43 {
        reveal_strlit("app.load_more");
        reveal_strlit("Fetch the next page of pull requests");
        assert(actions()[43].id@[3] == '.');
    } else if i == 44 {
        reveal_strlit("chat.open");
        reveal_strlit("Talk about this pull request");
        assert(actions()[44].id@[4] == '.');
    } else if i == 45 {
        reveal_strlit("chat.send");
        reveal_strlit("Send the question");
        assert(actions()[45].id@[4] == '.');
    } else if i == 46 {
        reveal_strlit("chat.newline");
        reveal_strlit("Add a line to the question");
        assert(actions()[46].id@[4] == '.');
    } else {
        reveal_strlit("chat.retry");
        reveal_strlit("Ask the last question again");
        assert(actions()[47].id@[4] == '.');
    }
}

proof fn lemma_in_order_from_48(i: int)
    requires
        48 <= i < 54,
    ensures
        is_in_order(i),
{
    if i == 48 {
        reveal_strlit("chat.cancel");
        reveal_strlit("Stop the answer that is arriving");
        assert(actions()[48].id@[4] == '.');
    } else if i == 49 {
        reveal_strlit("chat.list");
        reveal_strlit("List the conversations about this pull request");
        assert(actions()[49].id@[4] == '.');
    } else if i == 50 {
        reveal_strlit("chat.export");
        reveal_strlit("Write a transcript");
        assert(actions()[50].id@[4] == '.');
    } else if i == 51 {
        reveal_strlit("review.comment_line");
        reveal_strlit("Comment on the line under the cursor (c)");
        assert(actions()[51].id@[6] == '.');
    } else if i == 52 {
        reveal_strlit("review.range");
        reveal_strlit("Start a range: V, move, then c");
        assert(actions()[52].id@[6] == '.');
    } else {
        reveal_strlit("review.approve");
        reveal_strlit("Stage an approval (<leader>ra)");
        assert(actions()[53].id@[6] == '.');
    }
}

proof fn lemma_in_order_from_54(i: int)
    requires
        54 <= i < 60,
    ensures
        is_in_order(i),
{
    if i == 54 {
        reveal_strlit("review.ask_changes");
        reveal_strlit("Stage a request for changes (<leader>rc)");
        assert(actions()[54].id@[6] == '.');
    } else if i == 55 {
        reveal_strlit("review.comment_only");
        reveal_strlit("Stage a comment with no verdict (<leader>rm)");
        assert(actions()[55].id@[6] == '.');
    } else if i == 56 {
        reveal_strlit("review.discard");
        reveal_strlit("Throw the staged review away (<leader>rx)");
        assert(actions()[56].id@[6] == '.');
    } else if i == 57 {
        reveal_strlit("review.reply");
        reveal_strlit("Answer the comment under the cursor (r)");
        assert(actions()[57].id@[6] == '.');
    } else if i == 58 {
        reveal_strlit("review.edit_composer");
        reveal_strlit("Edit the open comment in $EDITOR (Ctrl-E)");
        assert(actions()[58].id@[6] == '.');
    } else {
        reveal_strlit("review.toggle_resolved");
        reveal_strlit("Resolve or reopen the thread under the cursor (<leader>pt)");
        assert(actions()[59].id@[6] == '.');
    }
}

proof fn lemma_in_order_from_60(i: int)
    requires
        60 <= i < 66,
    ensures
        is_in_order(i),
{
    if i == 60 {
        reveal_strlit("review.conversation");
        reveal_strlit("The pull request's own conversation (<leader>pc)");
        assert(actions()[60].id@[6] == '.');
    } else if i == 61 {
        reveal_strlit("review.comment_conversation");
        reveal_strlit("Write a comment on the conversation");
        assert(actions()[61].id@[6] == '.');
    } else if i == 62 {
        reveal_strlit("review.drafts");
        reveal_strlit("Show the staged comments (<leader>rd)");
        assert(actions()[62].id@[6] == '.');
    } else if i == 63 {
        reveal_strlit("review.publish");
        reveal_strlit("Publish the staged review (<leader>rr)");
        assert(actions()[63].id@[6] == '.');
    } else if i == 64 {
        reveal_strlit("review.cycle_progress");
        reveal_strlit("Mark this file reviewed / needs revisit (m)");
        assert(actions()[64].id@[6] == '.');
    } else {
        reveal_strlit("review.remove");
        reveal_strlit("Remove the selected staged comment (x)");
        assert(actions()[65].id@[6] == '.');
    }
}

proof fn lemma_in_order_from_66(i: int)
    requires
        66 <= i < 72,
    ensures
        is_in_order(i),
{
    if i == 66 {
        reveal_strlit("pane.next");
        reveal_strlit("Focus the next pane");
        assert(actions()[66].id@[4] == '.');
    } else if i == 67 {
        reveal_strlit("pane.prev");
        reveal_strlit("Focus the previous pane");
        assert(actions()[67].id@[4] == '.');
    } else if i == 68 {
        reveal_strlit("review.tab_overview");
        reveal_strlit("Open the pull request overview (1)");
        assert(actions()[68].id@[6] == '.');
    } else if i == 69 {
        reveal_strlit("review.tab_files");
        reveal_strlit("Open changed files (2)");
        assert(actions()[69].id@[6] == '.');
    } else if i == 70 {
        reveal_strlit("review.tab_checks");
        reveal_strlit("Open checks (3)");
        assert(actions()[70].id@[6] == '.');
    } else {
        reveal_strlit("review.tab_discussion");
        reveal_strlit("Open reviews and discussion (4)");
        assert(actions()[71].id@[6] == '.');
    }
}

proof fn lemma_in_order_from_72(i: int)
    requires
        72 <= i < 74,
    ensures
        is_in_order(i),
{
    if i == 72 {
        reveal_strlit("review.tab_ask");
        reveal_strlit("Open grounded chat (5)");
        assert(actions()[72].id@[6] == '.');
    } else {
        reveal_strlit("review.cycle_discussion_filter");
        reveal_strlit("Cycle Discussion: all, open, resolved, outdated (f)");
        assert(actions()[73].id@[6] == '.');
    }
}

proof fn lemma_in_order(i: int)
    requires
        0 <= i < actions().len(),
    ensures
        is_in_order(i),
{
    if i < 6 {
        lemma_in_order_from_0(i);
    } else if i < 12 {
        lemma_in_order_from_6(i);
    } else if i < 18 {
        lemma_in_order_from_12(i);
    } else if i < 24 {
        lemma_in_order_from_18(i);
    } else if i < 30 {
        lemma_in_order_from_24(i);
    } else if i < 36 {
        lemma_in_order_from_30(i);
    } else if i < 42 {
        lemma_in_order_from_36(i);
    } else if i < 48 {
        lemma_in_order_from_42(i);
    } else if i < 54 {
        lemma_in_order_from_48(i);
    } else if i < 60 {
        lemma_in_order_from_54(i);
    } else if i < 66 {
        lemma_in_order_from_60(i);
    } else if i < 72 {
        lemma_in_order_from_66(i);
    } else {
        lemma_in_order_from_72(i);
    }
}

/// No two actions have the same id.
pub proof fn lemma_ids_are_unique(i: int, j: int)
    requires
        0 <= i < j < actions().len(),
    ensures
        actions()[i].id@ != actions()[j].id@,
{
    lemma_in_order(i);
    lemma_in_order(j);
}

/// The id of every action is dotted, and every action is described.
pub proof fn lemma_actions_are_dotted_and_described(i: int)
    requires
        0 <= i < actions().len(),
    ensures
        actions()[i].id@.contains('.'),
        actions()[i].description@.len() > 0,
{
    lemma_in_order(i);
}

} // verus!
