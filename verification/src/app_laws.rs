//! What holds of the whole interface: what has the focus, what is said, and what the mouse does.

use vstd::prelude::*;

use crate::app::{
    most_items, warned, App, Config, Overlay, Pane, PickerEntry, ResolvedSelection, Startup,
};
use crate::app_models::model_warned;
use crate::app_overlay::{first_cursor, fresh_entries, name_place};
use crate::discussion::one_to;
use crate::jobs::PickerSearch;
use crate::keys::{Mode, MouseEvent};
use crate::layout::Rect;
use crate::list_view::PrListState;
use crate::model_picker::{
    lemma_a_search_keeps_what_it_finds, lemma_without_a_query_every_provider_is_offered, pick_views,
    provider_rows_of, row_line, PickerFrame, PickerState, Step,
};
use crate::notices::{
    expiry, lemma_notice_is_there, noticed, same_notice, NoticeLevel, NoticeView, MAX_NOTICES,
};
use crate::order::{holds_part, stands_at};
use crate::paint::page;
use crate::patch::opt_view;
use crate::rows::first_file;
use crate::string_laws::blank;
use crate::thread_laws::lemma_first_file;

verus! {

/// A path is in the diff exactly when one of its files has it; without a diff none is.
pub proof fn lemma_a_path_is_in_the_diff(app: App, path: Seq<char>)
    ensures
        app.has_path(path) <==> app.review is Some && exists|k: int|
            0 <= k < app.review->0.patch.files@.len() && (#[trigger] app.review->0.patch.files@[k])@.path
                == Some(path),
{
    if app.review is Some {
        let view = app.review->0;
        let files = view.patch@.files;
        assert(view.patch.files.len() == view.patch.files@.len());
        assert(files.len() == view.patch.files@.len());
        lemma_first_file(files, path, files.len());
        match first_file(files, path, files.len()) {
            Some(file) => {
                assert(files[file as int] == view.patch.files@[file as int]@);
            },
            None => {
                assert forall|k: int| 0 <= k < view.patch.files@.len() implies (
                #[trigger] view.patch.files@[k])@.path != Some(path) by {
                    assert(files[k] == view.patch.files@[k]@);
                }
            },
        }
    }
}

/// While nothing has the keyboard, the chat pane is typed into and no other pane is; a popup keeps
/// its own mode whatever gets the focus.
pub proof fn lemma_only_the_chat_is_typed_into(app: App, focus: Pane)
    ensures
        app.overlay == Overlay::Closed ==> (app.mode_for(focus) == Mode::Insert <==> focus == Pane::Chat),
        app.overlay != Overlay::Closed && app.overlay != Overlay::Leader ==> app.mode_for(focus) == app.mode,
        app.overlay == Overlay::Closed && focus != Pane::Chat && app.mode != Mode::Insert ==> app.mode_for(
            focus,
        ) == app.mode,
        app.focused(focus).focus == focus,
        app.focused(focus).mode == app.mode_for(focus),
        app.focused(focus).overlay == app.overlay,
{
}

/// An opened popup has the keyboard, the leader menu leaves it to the keys; closing takes the
/// popup, the menu and the filter of the help list away and nothing else.
pub proof fn lemma_a_popup_has_the_keyboard(app: App, overlay: Overlay)
    ensures
        app.overlay_opened(overlay).overlay == overlay,
        app.overlay_opened(overlay).leader_open <==> overlay == Overlay::Leader,
        overlay != Overlay::Leader && overlay != Overlay::Closed ==> app.overlay_opened(overlay).mode
            == Mode::Popup,
        overlay == Overlay::Leader ==> app.overlay_opened(overlay).mode == Mode::Normal,
        overlay == Overlay::Help ==> app.overlay_opened(overlay).help_scroll == 0
            && app.overlay_opened(overlay).help_filter is None,
        app.overlay_closed().overlay == Overlay::Closed,
        app.overlay_closed().mode == Mode::Normal,
        !app.overlay_closed().leader_open,
        app.overlay_closed().theme == app.theme,
        app.overlay_closed().review == app.review,
        app.overlay_closed().focus == app.focus,
        app.overlay_closed().list == app.list,
{
}

proof fn lemma_room_keeps_everything(
    queue: Seq<NoticeView>,
    level: NoticeLevel,
    text: Seq<char>,
    now: u64,
    old: NoticeView,
)
    requires
        queue.len() < MAX_NOTICES,
        queue.contains(old),
        old.expires == expiry(old.level, now),
    ensures
        noticed(queue, level, text, now).len() <= queue.len() + 1,
        noticed(queue, level, text, now).contains(old),
{
    let after = noticed(queue, level, text, now);
    let k = choose|k: int| 0 <= k < queue.len() && queue[k] == old;
    lemma_same_place(queue, level, text, 0);
    match same_notice(queue, level, text, 0) {
        Some(i) => {
            assert(after[k] == old);
        },
        None => {
            assert(after[k] == old);
        },
    }
}

proof fn lemma_same_place(queue: Seq<NoticeView>, level: NoticeLevel, text: Seq<char>, from: nat)
    ensures
        same_notice(queue, level, text, from) matches Some(i) ==> i < queue.len() && queue[i as int].level
            == level && queue[i as int].text == text,
    decreases queue.len() - from,
{
    if from < queue.len() {
        lemma_same_place(queue, level, text, from + 1);
    }
}

/// While there is room for them, every warning is announced and none is lost to another.
pub proof fn lemma_every_warning_is_announced(
    queue: Seq<NoticeView>,
    warnings: Seq<Seq<char>>,
    n: nat,
    now: u64,
    k: int,
)
    requires
        n <= warnings.len(),
        queue.len() + n <= MAX_NOTICES,
    ensures
        warned(queue, warnings, n, now).len() <= queue.len() + n,
        0 <= k < n ==> warned(queue, warnings, n, now).contains(
            NoticeView {
                level: NoticeLevel::Warn,
                text: warnings[k],
                expires: expiry(NoticeLevel::Warn, now),
            },
        ),
    decreases n,
{
    if n > 0 {
        let m = (n - 1) as nat;
        lemma_every_warning_is_announced(queue, warnings, m, now, k);
        let before = warned(queue, warnings, m, now);
        lemma_notice_is_there(before, NoticeLevel::Warn, warnings[m as int], now);
        lemma_same_place(before, NoticeLevel::Warn, warnings[m as int], 0);
        if 0 <= k < m {
            lemma_room_keeps_everything(
                before,
                NoticeLevel::Warn,
                warnings[m as int],
                now,
                NoticeView {
                    level: NoticeLevel::Warn,
                    text: warnings[k],
                    expires: expiry(NoticeLevel::Warn, now),
                },
            );
        }
    }
}

/// The same of the warnings about a model, which say that they are.
pub proof fn lemma_every_model_warning_is_announced(
    queue: Seq<NoticeView>,
    warnings: Seq<Seq<char>>,
    n: nat,
    now: u64,
    k: int,
)
    requires
        n <= warnings.len(),
        queue.len() + n <= MAX_NOTICES,
    ensures
        model_warned(queue, warnings, n, now).len() <= queue.len() + n,
        0 <= k < n ==> model_warned(queue, warnings, n, now).contains(
            NoticeView {
                level: NoticeLevel::Warn,
                text: "model: "@ + warnings[k],
                expires: expiry(NoticeLevel::Warn, now),
            },
        ),
    decreases n,
{
    if n > 0 {
        let m = (n - 1) as nat;
        lemma_every_model_warning_is_announced(queue, warnings, m, now, k);
        let before = model_warned(queue, warnings, m, now);
        let text = "model: "@ + warnings[m as int];
        lemma_notice_is_there(before, NoticeLevel::Warn, text, now);
        lemma_same_place(before, NoticeLevel::Warn, text, 0);
        if 0 <= k < m {
            lemma_room_keeps_everything(
                before,
                NoticeLevel::Warn,
                text,
                now,
                NoticeView {
                    level: NoticeLevel::Warn,
                    text: "model: "@ + warnings[k],
                    expires: expiry(NoticeLevel::Warn, now),
                },
            );
        }
    }
}

/// As many pull requests are fetched as all pages hold, one page at least.
pub proof fn lemma_all_pages_are_fetched(config: Config)
    requires
        config.page_size * config.max_pages <= u32::MAX,
        config.page_size <= u32::MAX,
    ensures
        config.max_pages >= 1 ==> most_items(config) == config.page_size * config.max_pages,
        config.max_pages == 0 ==> most_items(config) == config.page_size,
{
    assert(config.max_pages <= 1 ==> config.page_size * config.max_pages <= config.page_size) by (nonlinear_arith)
        requires
            config.max_pages >= 0,
            config.page_size >= 0,
    ;
    if config.max_pages == 1 {
        assert(config.page_size * config.max_pages == config.page_size * 1);
    }
}

/// The wheel moves what is under the pointer and nothing else: turned down the list goes on, turned
/// up it goes back, and the conversation, which is measured from its end, the other way round.
pub proof fn lemma_the_wheel_moves_what_is_under_it(before: App, after: App, event: MouseEvent)
    requires
        before.moused(&after, event),
        event.action is ScrollDown || event.action is ScrollUp,
    ensures
        ({
            let under = before.pane_under(event.column, event.row);
            let pane = if under is Some { under->0 } else { before.focus };
            &&& pane == Pane::PullRequests ==> after.review == before.review && after.chat == before.chat
            &&& pane == Pane::Diff ==> after.list == before.list && after.chat == before.chat && after.focus
                == before.focus
            &&& pane == Pane::Chat ==> after.list == before.list && after.review == before.review
                && after.focus == before.focus
            &&& pane == Pane::PullRequests && event.action is ScrollUp ==> after.list.scroll
                <= before.list.scroll
            &&& pane == Pane::Chat && event.action is ScrollUp ==> after.chat.scroll >= before.chat.scroll
            &&& pane == Pane::Chat && event.action is ScrollDown ==> after.chat.scroll
                <= before.chat.scroll
            &&& after.list.items == before.list.items
            &&& after.list.visible == before.list.visible
            &&& after.overlay == before.overlay
        }),
{
}

/// The theme picker lists every theme once, in order, and starts on the one that was asked for.
pub proof fn lemma_the_picker_starts_on_the_theme_in_force(
    entries: Seq<PickerEntry>,
    names: Seq<Seq<char>>,
    request: Seq<char>,
    at: nat,
)
    requires
        fresh_entries(entries, names),
        at < names.len(),
        names[at as int] == request,
        forall|k: int| 0 <= k < at ==> #[trigger] names[k] != request,
    ensures
        first_cursor(names, request) == at,
        entries[at as int].name@ == request,
{
    lemma_first_place(names, request, 0, at);
}

proof fn lemma_first_place(names: Seq<Seq<char>>, name: Seq<char>, from: nat, at: nat)
    requires
        from <= at < names.len(),
        names[at as int] == name,
        forall|k: int| 0 <= k < at ==> #[trigger] names[k] != name,
    ensures
        name_place(names, name, from) == Some(at),
    decreases at - from,
{
    if from < at {
        assert(names[from as int] != name);
        lemma_first_place(names, name, from + 1, at);
    }
}

/// A selection that resolves is the model in use; one that does not is named as a problem, and then
/// no model is in use. Nothing else changes.
pub proof fn lemma_a_model_is_in_use_only_when_it_resolves(
    before: App,
    after: App,
    resolved: Result<ResolvedSelection, String>,
)
    requires
        after.resolves(&before, resolved),
        before.catalog is Some,
    ensures
        after.active_model is Some <==> before.config.active is Some && resolved is Ok,
        after.active_model is Some ==> after.active_model == Some(resolved->Ok_0),
        after.model_problem is Some <==> before.config.active is Some && resolved is Err,
        after.model_problem is Some ==> after.model_problem == Some(resolved->Err_0),
        after.config == before.config,
        after.catalog == before.catalog,
        after.picker == before.picker,
{
}

/// A start has nothing open, nothing typed and nothing waited for but the environment, the settings and
/// theme it was given, and the focus where the last run left it.
pub proof fn lemma_a_start_has_nothing_open(app: App, startup: Startup)
    requires
        app.at_start(startup),
    ensures
        app.config == startup.config,
        app.theme == startup.theme,
        app.theme_request == startup.theme_request,
        app.state == startup.state,
        app.requested_pr == startup.pr,
        app.review is None,
        app.detail is None,
        app.picker is None,
        app.overlay == Overlay::Closed,
        app.mode == Mode::Normal,
        app.environment is None,
        app.environment_running,
        !app.list.loading,
        app.list.items@.len() == 0,
        app.chat.session is None,
        app.panel.analysis is None,
        !app.quit,
        !app.state_dirty,
        startup.state.focus is None ==> app.focus == Pane::PullRequests,
        startup.state.focus is Some ==> app.focus == Pane::named(startup.state.focus->0@),
        app.warnings == startup.warnings,
{
}

/// The model picker draws its rows in their order, each with its label and, where it is refused, why; the
/// row under the cursor is the one that is selected.
pub proof fn lemma_the_picker_draws_its_rows(
    picker: PickerState,
    area: Rect,
    checking: Option<Seq<char>>,
    frame: PickerFrame,
    i: int,
)
    requires
        picker.laid_out(area, checking, frame),
        0 <= i < picker.rows@.len(),
    ensures
        ({
            let lines = page(frame.rows@);
            &&& lines.len() == picker.rows@.len()
            &&& lines[i][0].text == picker.rows@[i].label@
            &&& picker.rows@[i].detail@.len() > 0 ==> lines[i].len() >= 3 && lines[i][2].text
                == picker.rows@[i].detail@
            &&& picker.rows@[i].disabled is Some ==> holds_part(
                lines[i].last().text,
                picker.rows@[i].disabled->0@,
            )
            &&& frame.selected == Some(picker.cursor)
        }),
{
    let lines = page(frame.rows@);
    let rows = pick_views(picker.rows@);
    assert(rows[i] == picker.rows@[i]@);
    assert(lines[i] == row_line(rows[i]));
    if picker.rows@[i].disabled is Some {
        let reason = picker.rows@[i].disabled->0@;
        assert(stands_at(lines[i].last().text, reason, "unavailable: "@.len() as int));
    }
}

/// The rows of the picker are those of its step, and its cursor is on one of them; what was chosen and
/// typed stays.
pub proof fn lemma_filling_the_picker_keeps_what_was_chosen(
    app: App,
    before: PickerState,
    after: PickerState,
    search: PickerSearch,
)
    requires
        app.refreshed(before, after, search),
    ensures
        pick_views(after.rows@) == app.picker_rows(before, search),
        after.cursor_fits(),
        before.cursor < after.rows@.len() ==> after.cursor == before.cursor,
        after.step == before.step,
        after.query == before.query,
        after.provider == before.provider,
        after.model == before.model,
        after.thinking == before.thinking,
        after.key_input == before.key_input,
        before.notice is Some ==> opt_view(after.notice) == Some(before.notice->0@),
{
    assert(after.rows.len() == after.rows@.len());
}

/// On each of its list steps the picker offers what the step is about and nothing else: providers first,
/// then models, then thinking settings.
pub proof fn lemma_each_step_offers_its_own_kind(app: App, picker: PickerState, search: PickerSearch, i: int)
    requires
        0 <= i < app.picker_rows(picker, search).len(),
    ensures
        picker.step == Step::Provider ==> app.picker_rows(picker, search)[i].choice is Provider,
        picker.step == Step::Model ==> app.picker_rows(picker, search)[i].choice is Model,
        picker.step == Step::Thinking ==> app.picker_rows(picker, search)[i].choice is Thinking,
        picker.step != Step::Key && picker.step != Step::Confirm,
{
    if picker.step == Step::Provider && app.catalog is Some {
        let providers = app.catalog->0.providers@;
        if blank(picker.query@) {
            lemma_without_a_query_every_provider_is_offered(
                providers,
                picker.query@,
                search.matched@,
                providers.len(),
            );
        } else {
            lemma_a_search_keeps_what_it_finds(
                providers,
                picker.query@,
                search.matched@,
                providers.len(),
            );
        }
        let rows = provider_rows_of(providers, picker.query@, search.matched@, providers.len());
        assert(rows[i] == app.picker_rows(picker, search)[i]);
    }
}

/// A scrolled list shows rows it has, moves by as much as it was told while there are that many, and keeps
/// its cursor in sight; nothing that was fetched or searched for changes.
pub proof fn lemma_a_scrolled_list_keeps_its_cursor_in_sight(list: PrListState, delta: int)
    requires
        list.cursor < list.visible@.len(),
        list.viewport > 0,
    ensures
        ({
            let after = list.scrolled(delta);
            &&& after.scroll <= after.cursor < after.scroll + list.viewport
            &&& after.cursor < list.visible@.len()
            &&& 0 <= list.scroll + delta && list.scroll + delta + list.viewport <= list.visible@.len()
                ==> after.scroll == list.scroll + delta
            &&& after.scroll <= list.cursor < after.scroll + list.viewport ==> after.cursor == list.cursor
            &&& after.items == list.items
            &&& after.visible == list.visible
            &&& after.search == list.search
        }),
{
    assert(list.visible.len() == list.visible@.len());
}

/// A number kept among others from one on stays where it is while it is one of them, and goes to the
/// nearest otherwise.
pub proof fn lemma_a_number_stays_among_the_others(n: int, count: nat)
    ensures
        1 <= n <= count ==> one_to(n, count) == n,
        n < 1 ==> one_to(n, count) == 1,
        count >= 1 && n > count ==> one_to(n, count) == count,
        count == 0 ==> one_to(n, count) == 1,
{
}

} // verus!
