//! The action registry.
//!
//! Help, the leader menu, the command palette and keybinding validation all read from this one
//! table, so the documented shortcuts cannot drift from the behaviour.

use vstd::prelude::*;

use crate::strings::{characters, same};

verus! {

/// How actions are grouped in the help popup.
#[derive(Debug, Clone, Copy, PartialEq, Eq, Structural)]
pub enum Group {
    /// Application lifecycle and global commands.
    App,
    /// Moving around.
    Navigation,
    /// Moving between panes.
    Pane,
    /// Finding things.
    Search,
    /// Reading a diff.
    Diff,
    /// Changing the look.
    Theme,
    /// Talking about a pull request.
    Chat,
    /// Writing, reviewing and publishing a review.
    Review,
}

impl Group {
    /// The name of a group.
    pub open spec fn name(self) -> Seq<char> {
        match self {
            Group::App => "App"@,
            Group::Navigation => "Navigation"@,
            Group::Pane => "Panes"@,
            Group::Search => "Search"@,
            Group::Diff => "Diff"@,
            Group::Theme => "Theme"@,
            Group::Chat => "Chat"@,
            Group::Review => "Review"@,
        }
    }

    /// Human-readable group name.
    #[must_use]
    pub fn label(self) -> (r: &'static str)
        ensures
            r@ == self.name(),
    {
        match self {
            Group::App => "App",
            Group::Navigation => "Navigation",
            Group::Pane => "Panes",
            Group::Search => "Search",
            Group::Diff => "Diff",
            Group::Theme => "Theme",
            Group::Chat => "Chat",
            Group::Review => "Review",
        }
    }
}

/// One user-triggerable action.
#[derive(Debug, Clone, Copy, PartialEq, Eq)]
pub struct ActionDef {
    /// Stable identifier used by keybindings, the command line and tests.
    pub id: &'static str,
    /// One-line description shown in help and the leader menu.
    pub description: &'static str,
    /// Grouping used by the help popup.
    pub group: Group,
    /// Whether this action is a hint: it runs as soon as its prefix is pressed instead of waiting
    /// for the timeout, while the sequence stays open so a longer binding can still complete it.
    pub hint: bool,
}

/// Every action, in help order.
pub open spec fn actions() -> Seq<ActionDef> {
    seq![
        ActionDef { id: "app.quit", description: "Quit smart-review", group: Group::App, hint: false },
        ActionDef { id: "app.help", description: "Show the help popup", group: Group::App, hint: false },
        ActionDef { id: "app.command", description: "Open the command line", group: Group::App, hint: false },
        ActionDef { id: "app.leader_menu", description: "Show the available leader bindings", group: Group::App, hint: true },
        ActionDef { id: "app.cancel", description: "Close the current popup, or cancel pending keys", group: Group::App, hint: false },
        ActionDef { id: "app.refresh", description: "Refresh the current view", group: Group::App, hint: false },
        ActionDef { id: "app.doctor", description: "Show environment checks", group: Group::App, hint: false },
        ActionDef { id: "app.version", description: "Show the version", group: Group::App, hint: false },
        ActionDef { id: "notice.clear", description: "Dismiss the current notification", group: Group::App, hint: false },
        ActionDef { id: "app.theme_picker", description: "Choose a theme", group: Group::Theme, hint: false },
        ActionDef { id: "app.model_picker", description: "Choose the provider, model and thinking settings", group: Group::App, hint: false },
        ActionDef { id: "theme.toggle", description: "Switch to the next theme", group: Group::Theme, hint: false },
        ActionDef { id: "nav.up", description: "Move up", group: Group::Navigation, hint: false },
        ActionDef { id: "nav.down", description: "Move down", group: Group::Navigation, hint: false },
        ActionDef { id: "nav.top", description: "Jump to the first item", group: Group::Navigation, hint: false },
        ActionDef { id: "nav.bottom", description: "Jump to the last item", group: Group::Navigation, hint: false },
        ActionDef { id: "nav.open", description: "Open the selected pull request, or the selected file", group: Group::Navigation, hint: false },
        ActionDef { id: "nav.half_down", description: "Move half a screen down", group: Group::Navigation, hint: false },
        ActionDef { id: "nav.half_up", description: "Move half a screen up", group: Group::Navigation, hint: false },
        ActionDef { id: "nav.page_down", description: "Move a screen down", group: Group::Navigation, hint: false },
        ActionDef { id: "nav.page_up", description: "Move a screen up", group: Group::Navigation, hint: false },
        ActionDef { id: "nav.back", description: "Close the review, or clear the search and filters", group: Group::Navigation, hint: false },
        ActionDef { id: "search.open", description: "Filter the loaded pull requests as you type", group: Group::Search, hint: false },
        ActionDef { id: "search.close", description: "Stop editing the search", group: Group::Search, hint: false },
        ActionDef { id: "search.next", description: "Next match", group: Group::Search, hint: false },
        ActionDef { id: "search.prev", description: "Previous match", group: Group::Search, hint: false },
        ActionDef { id: "filter.menu", description: "Add a filter chip", group: Group::Search, hint: false },
        ActionDef { id: "filter.clear", description: "Clear the filters and the search", group: Group::Search, hint: false },
        ActionDef { id: "sort.menu", description: "Change the sort order", group: Group::Search, hint: false },
        ActionDef { id: "diff.next_hunk", description: "Next hunk", group: Group::Diff, hint: false },
        ActionDef { id: "diff.prev_hunk", description: "Previous hunk", group: Group::Diff, hint: false },
        ActionDef { id: "diff.next_file", description: "Next file", group: Group::Diff, hint: false },
        ActionDef { id: "diff.prev_file", description: "Previous file", group: Group::Diff, hint: false },
        ActionDef { id: "diff.toggle_hunk", description: "Fold or unfold the hunk under the cursor", group: Group::Diff, hint: false },
        ActionDef { id: "diff.toggle_split", description: "Side-by-side view, when the terminal is wide enough", group: Group::Diff, hint: false },
        ActionDef { id: "diff.cycle_context", description: "Cycle the context lines: 3, 10, 0", group: Group::Diff, hint: false },
        ActionDef { id: "diff.toggle_whitespace", description: "Ignore whitespace-only changes", group: Group::Diff, hint: false },
        ActionDef { id: "review.copy_path", description: "Copy the current file path", group: Group::Diff, hint: false },
        ActionDef { id: "diff.toggle_order", description: "Switch between the recommended and path orders", group: Group::Diff, hint: false },
        ActionDef { id: "app.analyze_panel", description: "Analyse the pull request, or open the analysis", group: Group::App, hint: false },
        ActionDef { id: "analysis.toggle_guidance", description: "Expand or collapse current-file guidance (e)", group: Group::App, hint: false },
        ActionDef { id: "plan.move_up", description: "Move the selected review-plan group up", group: Group::App, hint: false },
        ActionDef { id: "plan.move_down", description: "Move the selected review-plan group down", group: Group::App, hint: false },
        ActionDef { id: "app.load_more", description: "Fetch the next page of pull requests", group: Group::App, hint: false },
        ActionDef { id: "chat.open", description: "Talk about this pull request", group: Group::Chat, hint: false },
        ActionDef { id: "chat.send", description: "Send the question", group: Group::Chat, hint: false },
        ActionDef { id: "chat.newline", description: "Add a line to the question", group: Group::Chat, hint: false },
        ActionDef { id: "chat.retry", description: "Ask the last question again", group: Group::Chat, hint: false },
        ActionDef { id: "chat.cancel", description: "Stop the answer that is arriving", group: Group::Chat, hint: false },
        ActionDef { id: "chat.list", description: "List the conversations about this pull request", group: Group::Chat, hint: false },
        ActionDef { id: "chat.export", description: "Write a transcript", group: Group::Chat, hint: false },
        ActionDef { id: "review.comment_line", description: "Comment on the line under the cursor (c)", group: Group::Review, hint: false },
        ActionDef { id: "review.range", description: "Start a range: V, move, then c", group: Group::Review, hint: false },
        ActionDef { id: "review.approve", description: "Stage an approval (<leader>ra)", group: Group::Review, hint: false },
        ActionDef {
            id: "review.ask_changes",
            description: "Stage a request for changes (<leader>rc)",
            group: Group::Review,
            hint: false,
        },
        ActionDef { id: "review.comment_only", description: "Stage a comment with no verdict (<leader>rm)", group: Group::Review, hint: false },
        ActionDef { id: "review.discard", description: "Throw the staged review away (<leader>rx)", group: Group::Review, hint: false },
        ActionDef { id: "review.reply", description: "Answer the comment under the cursor (r)", group: Group::Review, hint: true },
        ActionDef { id: "review.edit_composer", description: "Edit the open comment in $EDITOR (Ctrl-E)", group: Group::Review, hint: false },
        ActionDef { id: "review.toggle_resolved", description: "Resolve or reopen the thread under the cursor (<leader>pt)", group: Group::Review, hint: false },
        ActionDef { id: "review.conversation", description: "The pull request's own conversation (<leader>pc)", group: Group::Review, hint: false },
        ActionDef { id: "review.comment_conversation", description: "Write a comment on the conversation", group: Group::Review, hint: false },
        ActionDef { id: "review.drafts", description: "Show the staged comments (<leader>rd)", group: Group::Review, hint: false },
        ActionDef { id: "review.publish", description: "Publish the staged review (<leader>rr)", group: Group::Review, hint: false },
        ActionDef { id: "review.cycle_progress", description: "Mark this file reviewed / needs revisit (m)", group: Group::Review, hint: false },
        ActionDef { id: "review.remove", description: "Remove the selected staged comment (x)", group: Group::Review, hint: false },
        ActionDef { id: "pane.next", description: "Focus the next pane", group: Group::Pane, hint: false },
        ActionDef { id: "pane.prev", description: "Focus the previous pane", group: Group::Pane, hint: false },
        ActionDef { id: "review.tab_overview", description: "Open the pull request overview (1)", group: Group::Pane, hint: false },
        ActionDef { id: "review.tab_files", description: "Open changed files (2)", group: Group::Pane, hint: false },
        ActionDef { id: "review.tab_checks", description: "Open checks (3)", group: Group::Pane, hint: false },
        ActionDef { id: "review.tab_discussion", description: "Open reviews and discussion (4)", group: Group::Pane, hint: false },
        ActionDef { id: "review.tab_ask", description: "Open grounded chat (5)", group: Group::Pane, hint: false },
        ActionDef { id: "review.cycle_discussion_filter", description: "Cycle Discussion: all, open, resolved, outdated (f)", group: Group::Review, hint: false },
    ]
}

/// Every action, in help order.
#[must_use]
pub fn all() -> (r: Vec<ActionDef>)
    ensures
        r@ == actions(),
{
    let mut r: Vec<ActionDef> = Vec::new();
    r.push(ActionDef { id: "app.quit", description: "Quit smart-review", group: Group::App, hint: false });
    r.push(ActionDef { id: "app.help", description: "Show the help popup", group: Group::App, hint: false });
    r.push(ActionDef { id: "app.command", description: "Open the command line", group: Group::App, hint: false });
    r.push(ActionDef { id: "app.leader_menu", description: "Show the available leader bindings", group: Group::App, hint: true });
    r.push(ActionDef { id: "app.cancel", description: "Close the current popup, or cancel pending keys", group: Group::App, hint: false });
    r.push(ActionDef { id: "app.refresh", description: "Refresh the current view", group: Group::App, hint: false });
    r.push(ActionDef { id: "app.doctor", description: "Show environment checks", group: Group::App, hint: false });
    r.push(ActionDef { id: "app.version", description: "Show the version", group: Group::App, hint: false });
    r.push(ActionDef { id: "notice.clear", description: "Dismiss the current notification", group: Group::App, hint: false });
    r.push(ActionDef { id: "app.theme_picker", description: "Choose a theme", group: Group::Theme, hint: false });
    r.push(ActionDef { id: "app.model_picker", description: "Choose the provider, model and thinking settings", group: Group::App, hint: false });
    r.push(ActionDef { id: "theme.toggle", description: "Switch to the next theme", group: Group::Theme, hint: false });
    r.push(ActionDef { id: "nav.up", description: "Move up", group: Group::Navigation, hint: false });
    r.push(ActionDef { id: "nav.down", description: "Move down", group: Group::Navigation, hint: false });
    r.push(ActionDef { id: "nav.top", description: "Jump to the first item", group: Group::Navigation, hint: false });
    r.push(ActionDef { id: "nav.bottom", description: "Jump to the last item", group: Group::Navigation, hint: false });
    r.push(ActionDef { id: "nav.open", description: "Open the selected pull request, or the selected file", group: Group::Navigation, hint: false });
    r.push(ActionDef { id: "nav.half_down", description: "Move half a screen down", group: Group::Navigation, hint: false });
    r.push(ActionDef { id: "nav.half_up", description: "Move half a screen up", group: Group::Navigation, hint: false });
    r.push(ActionDef { id: "nav.page_down", description: "Move a screen down", group: Group::Navigation, hint: false });
    r.push(ActionDef { id: "nav.page_up", description: "Move a screen up", group: Group::Navigation, hint: false });
    r.push(ActionDef { id: "nav.back", description: "Close the review, or clear the search and filters", group: Group::Navigation, hint: false });
    r.push(ActionDef { id: "search.open", description: "Filter the loaded pull requests as you type", group: Group::Search, hint: false });
    r.push(ActionDef { id: "search.close", description: "Stop editing the search", group: Group::Search, hint: false });
    r.push(ActionDef { id: "search.next", description: "Next match", group: Group::Search, hint: false });
    r.push(ActionDef { id: "search.prev", description: "Previous match", group: Group::Search, hint: false });
    r.push(ActionDef { id: "filter.menu", description: "Add a filter chip", group: Group::Search, hint: false });
    r.push(ActionDef { id: "filter.clear", description: "Clear the filters and the search", group: Group::Search, hint: false });
    r.push(ActionDef { id: "sort.menu", description: "Change the sort order", group: Group::Search, hint: false });
    r.push(ActionDef { id: "diff.next_hunk", description: "Next hunk", group: Group::Diff, hint: false });
    r.push(ActionDef { id: "diff.prev_hunk", description: "Previous hunk", group: Group::Diff, hint: false });
    r.push(ActionDef { id: "diff.next_file", description: "Next file", group: Group::Diff, hint: false });
    r.push(ActionDef { id: "diff.prev_file", description: "Previous file", group: Group::Diff, hint: false });
    r.push(ActionDef { id: "diff.toggle_hunk", description: "Fold or unfold the hunk under the cursor", group: Group::Diff, hint: false });
    r.push(ActionDef { id: "diff.toggle_split", description: "Side-by-side view, when the terminal is wide enough", group: Group::Diff, hint: false });
    r.push(ActionDef { id: "diff.cycle_context", description: "Cycle the context lines: 3, 10, 0", group: Group::Diff, hint: false });
    r.push(ActionDef { id: "diff.toggle_whitespace", description: "Ignore whitespace-only changes", group: Group::Diff, hint: false });
    r.push(ActionDef { id: "review.copy_path", description: "Copy the current file path", group: Group::Diff, hint: false });
    r.push(ActionDef { id: "diff.toggle_order", description: "Switch between the recommended and path orders", group: Group::Diff, hint: false });
    r.push(ActionDef { id: "app.analyze_panel", description: "Analyse the pull request, or open the analysis", group: Group::App, hint: false });
    r.push(ActionDef { id: "analysis.toggle_guidance", description: "Expand or collapse current-file guidance (e)", group: Group::App, hint: false });
    r.push(ActionDef { id: "plan.move_up", description: "Move the selected review-plan group up", group: Group::App, hint: false });
    r.push(ActionDef { id: "plan.move_down", description: "Move the selected review-plan group down", group: Group::App, hint: false });
    r.push(ActionDef { id: "app.load_more", description: "Fetch the next page of pull requests", group: Group::App, hint: false });
    r.push(ActionDef { id: "chat.open", description: "Talk about this pull request", group: Group::Chat, hint: false });
    r.push(ActionDef { id: "chat.send", description: "Send the question", group: Group::Chat, hint: false });
    r.push(ActionDef { id: "chat.newline", description: "Add a line to the question", group: Group::Chat, hint: false });
    r.push(ActionDef { id: "chat.retry", description: "Ask the last question again", group: Group::Chat, hint: false });
    r.push(ActionDef { id: "chat.cancel", description: "Stop the answer that is arriving", group: Group::Chat, hint: false });
    r.push(ActionDef { id: "chat.list", description: "List the conversations about this pull request", group: Group::Chat, hint: false });
    r.push(ActionDef { id: "chat.export", description: "Write a transcript", group: Group::Chat, hint: false });
    r.push(ActionDef { id: "review.comment_line", description: "Comment on the line under the cursor (c)", group: Group::Review, hint: false });
    r.push(ActionDef { id: "review.range", description: "Start a range: V, move, then c", group: Group::Review, hint: false });
    r.push(ActionDef { id: "review.approve", description: "Stage an approval (<leader>ra)", group: Group::Review, hint: false });
    r.push(
        ActionDef {
            id: "review.ask_changes",
            description: "Stage a request for changes (<leader>rc)",
            group: Group::Review,
            hint: false,
        },
    );
    r.push(ActionDef { id: "review.comment_only", description: "Stage a comment with no verdict (<leader>rm)", group: Group::Review, hint: false });
    r.push(ActionDef { id: "review.discard", description: "Throw the staged review away (<leader>rx)", group: Group::Review, hint: false });
    r.push(ActionDef { id: "review.reply", description: "Answer the comment under the cursor (r)", group: Group::Review, hint: true });
    r.push(ActionDef { id: "review.edit_composer", description: "Edit the open comment in $EDITOR (Ctrl-E)", group: Group::Review, hint: false });
    r.push(ActionDef { id: "review.toggle_resolved", description: "Resolve or reopen the thread under the cursor (<leader>pt)", group: Group::Review, hint: false });
    r.push(ActionDef { id: "review.conversation", description: "The pull request's own conversation (<leader>pc)", group: Group::Review, hint: false });
    r.push(ActionDef { id: "review.comment_conversation", description: "Write a comment on the conversation", group: Group::Review, hint: false });
    r.push(ActionDef { id: "review.drafts", description: "Show the staged comments (<leader>rd)", group: Group::Review, hint: false });
    r.push(ActionDef { id: "review.publish", description: "Publish the staged review (<leader>rr)", group: Group::Review, hint: false });
    r.push(ActionDef { id: "review.cycle_progress", description: "Mark this file reviewed / needs revisit (m)", group: Group::Review, hint: false });
    r.push(ActionDef { id: "review.remove", description: "Remove the selected staged comment (x)", group: Group::Review, hint: false });
    r.push(ActionDef { id: "pane.next", description: "Focus the next pane", group: Group::Pane, hint: false });
    r.push(ActionDef { id: "pane.prev", description: "Focus the previous pane", group: Group::Pane, hint: false });
    r.push(ActionDef { id: "review.tab_overview", description: "Open the pull request overview (1)", group: Group::Pane, hint: false });
    r.push(ActionDef { id: "review.tab_files", description: "Open changed files (2)", group: Group::Pane, hint: false });
    r.push(ActionDef { id: "review.tab_checks", description: "Open checks (3)", group: Group::Pane, hint: false });
    r.push(ActionDef { id: "review.tab_discussion", description: "Open reviews and discussion (4)", group: Group::Pane, hint: false });
    r.push(ActionDef { id: "review.tab_ask", description: "Open grounded chat (5)", group: Group::Pane, hint: false });
    r.push(ActionDef { id: "review.cycle_discussion_filter", description: "Cycle Discussion: all, open, resolved, outdated (f)", group: Group::Review, hint: false });
    r
}

/// The first of the actions from `from` on that has the given id.
pub open spec fn found(list: Seq<ActionDef>, id: Seq<char>, from: nat) -> Option<ActionDef>
    decreases list.len() - from,
{
    if from >= list.len() {
        None
    } else if list[from as int].id@ == id {
        Some(list[from as int])
    } else {
        found(list, id, from + 1)
    }
}

/// Looks up an action by id.
#[must_use]
pub fn find(id: &str) -> (r: Option<ActionDef>)
    ensures
        r == found(actions(), id@, 0),
        r matches Some(action) ==> action.id@ == id@ && actions().contains(action),
        r is None ==> forall|i: int| 0 <= i < actions().len() ==> (#[trigger] actions()[i]).id@ != id@,
{
    let list = all();
    let mut i: usize = 0;
    while i < list.len()
        invariant
            i <= list@.len(),
            list@ == actions(),
            found(actions(), id@, 0) == found(actions(), id@, i as nat),
            forall|j: int| 0 <= j < i ==> (#[trigger] actions()[j]).id@ != id@,
        decreases list@.len() - i,
    {
        if same(list[i].id, id) {
            assert(actions()[i as int] == list@[i as int]);
            return Some(list[i]);
        }
        i += 1;
    }
    None
}

/// Whether `id` names an action of the registry.
pub open spec fn known(id: Seq<char>) -> bool {
    found(actions(), id, 0) is Some
}

/// Whether `id` names an action of the registry.
#[must_use]
pub fn is_known(id: &str) -> (r: bool)
    ensures
        r == known(id@),
        r <==> exists|i: int| 0 <= i < actions().len() && (#[trigger] actions()[i]).id@ == id@,
{
    let r = find(id);
    proof {
        if let Some(action) = r {
            let i = actions().index_of(action);
            assert(actions()[i].id@ == id@);
        }
    }
    r.is_some()
}

/// Whether `id` is a hint action, which fires as soon as its prefix is pressed rather than after
/// the ambiguity timeout.
pub open spec fn hints(id: Seq<char>) -> bool {
    match found(actions(), id, 0) {
        Some(action) => action.hint,
        None => false,
    }
}

/// Whether `id` is a hint action, which fires as soon as its prefix is pressed rather than after
/// the ambiguity timeout.
#[must_use]
pub fn is_hint(id: &str) -> (r: bool)
    ensures
        r == hints(id@),
{
    match find(id) {
        Some(action) => action.hint,
        None => false,
    }
}

/// The farthest a suggestion may be from what was typed.
pub const SUGGESTION_REACH: usize = 4;

/// The nearest of the first `n` actions to `id`, the earlier one where two are as near, and none
/// that is too far.
pub open spec fn nearest(list: Seq<ActionDef>, id: Seq<char>, n: nat) -> Option<ActionDef>
    decreases n,
{
    if n == 0 {
        None
    } else {
        let here = list[n - 1];
        match nearest(list, id, (n - 1) as nat) {
            Some(best) => if distance(id, here.id@) < distance(id, best.id@) {
                Some(here)
            } else {
                Some(best)
            },
            None => if distance(id, here.id@) <= SUGGESTION_REACH { Some(here) } else { None },
        }
    }
}

/// A suggestion is near, and no action is nearer.
pub proof fn lemma_nearest(list: Seq<ActionDef>, id: Seq<char>, n: nat)
    requires
        n <= list.len(),
    ensures
        match nearest(list, id, n) {
            Some(best) => list.contains(best) && distance(id, best.id@) <= SUGGESTION_REACH && forall|
                i: int,
            |
                0 <= i < n ==> distance(id, best.id@) <= distance(id, (#[trigger] list[i]).id@),
            None => forall|i: int|
                0 <= i < n ==> distance(id, (#[trigger] list[i]).id@) > SUGGESTION_REACH,
        },
    decreases n,
{
    if n > 0 {
        lemma_nearest(list, id, (n - 1) as nat);
        assert(list.contains(list[n - 1]));
    }
}

/// The closest known action to `id`, for "did you mean" messages.
#[must_use]
pub fn suggest(id: &str) -> (r: Option<ActionDef>)
    ensures
        r == nearest(actions(), id@, actions().len()),
{
    let list = all();
    let mut best: Option<(usize, ActionDef)> = None;
    let mut i: usize = 0;
    while i < list.len()
        invariant
            i <= list@.len(),
            list@ == actions(),
            match best {
                Some((d, action)) => nearest(actions(), id@, i as nat) == Some(action) && d
                    == distance(id@, action.id@),
                None => nearest(actions(), id@, i as nat) is None,
            },
        decreases list@.len() - i,
    {
        let action: ActionDef = list[i];
        assert(actions()[i as int] == action);
        let d: usize = levenshtein(id, action.id);
        best = match best {
            Some((least, held)) => if d < least { Some((d, action)) } else { Some((least, held)) },
            None => if d <= SUGGESTION_REACH { Some((d, action)) } else { None },
        };
        i += 1;
    }
    match best {
        Some((_, action)) => Some(action),
        None => None,
    }
}

/// Groups in display order.
pub open spec fn group_order() -> Seq<Group> {
    seq![
        Group::App,
        Group::Navigation,
        Group::Pane,
        Group::Search,
        Group::Diff,
        Group::Theme,
        Group::Chat,
        Group::Review,
    ]
}

/// Groups in display order.
#[must_use]
pub fn groups() -> (r: Vec<Group>)
    ensures
        r@ == group_order(),
{
    let mut r: Vec<Group> = Vec::new();
    r.push(Group::App);
    r.push(Group::Navigation);
    r.push(Group::Pane);
    r.push(Group::Search);
    r.push(Group::Diff);
    r.push(Group::Theme);
    r.push(Group::Chat);
    r.push(Group::Review);
    r
}

/// Every action belongs to a group the help popup lists.
pub proof fn lemma_every_group_is_listed(action: ActionDef)
    ensures
        group_order().contains(action.group),
{
    let order = group_order();
    match action.group {
        Group::App => assert(order[0] == action.group),
        Group::Navigation => assert(order[1] == action.group),
        Group::Pane => assert(order[2] == action.group),
        Group::Search => assert(order[3] == action.group),
        Group::Diff => assert(order[4] == action.group),
        Group::Theme => assert(order[5] == action.group),
        Group::Chat => assert(order[6] == action.group),
        Group::Review => assert(order[7] == action.group),
    }
}

/// The smaller of two numbers.
pub open spec fn least(a: nat, b: nat) -> nat {
    if b < a { b } else { a }
}

/// How many single-character insertions, deletions and replacements lead from one text to the
/// other at least.
pub open spec fn distance(left: Seq<char>, right: Seq<char>) -> nat
    decreases left.len() + right.len(),
{
    if left.len() == 0 {
        right.len()
    } else if right.len() == 0 {
        left.len()
    } else {
        let cost: nat = if left.last() != right.last() { 1 } else { 0 };
        least(
            least(distance(left.drop_last(), right) + 1, distance(left, right.drop_last()) + 1),
            distance(left.drop_last(), right.drop_last()) + cost,
        )
    }
}

proof fn lemma_distance_bound(left: Seq<char>, right: Seq<char>)
    ensures
        distance(left, right) <= left.len() || distance(left, right) <= right.len(),
    decreases left.len() + right.len(),
{
    if left.len() > 0 && right.len() > 0 {
        lemma_distance_bound(left.drop_last(), right.drop_last());
    }
}

/// The distance is the same in both directions.
pub proof fn lemma_distance_symmetric(left: Seq<char>, right: Seq<char>)
    ensures
        distance(left, right) == distance(right, left),
    decreases left.len() + right.len(),
{
    if left.len() > 0 && right.len() > 0 {
        lemma_distance_symmetric(left.drop_last(), right);
        lemma_distance_symmetric(left, right.drop_last());
        lemma_distance_symmetric(left.drop_last(), right.drop_last());
    }
}

/// The distance is zero between equal texts, and between no others.
pub proof fn lemma_distance_zero(left: Seq<char>, right: Seq<char>)
    ensures
        distance(left, right) == 0 <==> left == right,
    decreases left.len() + right.len(),
{
    if left.len() == 0 {
        if right.len() == 0 {
            assert(left =~= right);
        }
    } else if right.len() > 0 {
        lemma_distance_zero(left.drop_last(), right.drop_last());
        if left.last() == right.last() && left.drop_last() == right.drop_last() {
            assert(left =~= left.drop_last().push(left.last()));
            assert(right =~= right.drop_last().push(right.last()));
        }
    }
}

/// Levenshtein distance, used only for suggestions.
pub fn levenshtein(left: &str, right: &str) -> (d: usize)
    ensures
        d == distance(left@, right@),
{
    let a = characters(left);
    let b = characters(right);
    let mut previous: Vec<usize> = Vec::new();
    previous.push(0);
    let mut j: usize = 0;
    while j < b.len()
        invariant
            j <= b@.len(),
            previous@.len() == j + 1,
            forall|k: int| 0 <= k <= j ==> (#[trigger] previous@[k]) == k,
        decreases b@.len() - j,
    {
        previous.push(j + 1);
        j += 1;
    }
    proof {
        let none = a@.subrange(0, 0);
        assert(none.len() == 0);
    }
    let mut i: usize = 0;
    let rows: usize = a.len();
    let columns: usize = b.len();
    while i < a.len()
        invariant
            i <= a@.len(),
            rows == a@.len(),
            columns == b@.len(),
            previous@.len() == b@.len() + 1,
            forall|k: int|
                0 <= k <= b@.len() ==> (#[trigger] previous@[k]) == distance(
                    a@.subrange(0, i as int),
                    b@.subrange(0, k),
                ),
        decreases a@.len() - i,
    {
        let mut current: Vec<usize> = Vec::new();
        current.push(i + 1);
        let ghost now = a@.subrange(0, i + 1);
        proof {
            assert(now.drop_last() =~= a@.subrange(0, i as int));
            assert(now.last() == a@[i as int]);
        }
        let mut j: usize = 0;
        while j < b.len()
            invariant
                i < a@.len() <= usize::MAX,
                j <= b@.len() <= usize::MAX,
                previous@.len() == b@.len() + 1,
                current@.len() == j + 1,
                now == a@.subrange(0, i + 1),
                now.drop_last() == a@.subrange(0, i as int),
                now.last() == a@[i as int],
                forall|k: int|
                    0 <= k <= b@.len() ==> (#[trigger] previous@[k]) == distance(
                        a@.subrange(0, i as int),
                        b@.subrange(0, k),
                    ),
                forall|k: int|
                    0 <= k <= j ==> (#[trigger] current@[k]) == distance(now, b@.subrange(0, k)),
            decreases b@.len() - j,
        {
            let ghost other = b@.subrange(0, j + 1);
            proof {
                assert(other.drop_last() =~= b@.subrange(0, j as int));
                assert(other.last() == b@[j as int]);
                lemma_distance_bound(now, other);
                assert(previous@[j + 1] == distance(now.drop_last(), other));
                assert(previous@[j as int] == distance(now.drop_last(), other.drop_last()));
                assert(current@[j as int] == distance(now, other.drop_last()));
            }
            let cost: usize = if a[i] != b[j] { 1 } else { 0 };
            let up: usize = previous[j + 1].saturating_add(1);
            let left_of: usize = current[j].saturating_add(1);
            let across: usize = previous[j].saturating_add(cost);
            let mut best: usize = if left_of < up { left_of } else { up };
            if across < best {
                best = across;
            }
            assert(best == distance(now, other));
            current.push(best);
            j += 1;
        }
        previous = current;
        i += 1;
    }
    assert(a@.subrange(0, i as int) =~= a@);
    assert(b@.subrange(0, b@.len() as int) =~= b@);
    assert(previous@[b@.len() as int] == distance(a@, b@));
    previous[b.len()]
}

} // verus!
