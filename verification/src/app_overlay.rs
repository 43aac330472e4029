//! Popups and themes: what opening, previewing and choosing do.

use vstd::prelude::*;

use crate::app::{App, AppState, Check, KeptTheme, Overlay, PickerEntry};
use crate::effect::Effect;
use crate::keys::Mode;
use crate::notices::{notice_views, noticed, NoticeLevel};
use crate::patch::{opt_clone, opt_view};
use crate::scroll::{step, stepped};
use crate::strings::{concat2, concat3, concat4, same, views};

verus! {

/// A theme that was read.
pub struct LoadedTheme {
    /// Its own name.
    pub theme: String,
    /// Where it came from.
    pub source: String,
    /// What is off about it.
    pub warnings: Vec<String>,
}

/// Where a name first stands among the names from `from` on.
pub open spec fn name_place(names: Seq<Seq<char>>, name: Seq<char>, from: nat) -> Option<nat>
    decreases names.len() - from,
{
    if from >= names.len() {
        None
    } else if names[from as int] == name {
        Some(from)
    } else {
        name_place(names, name, from + 1)
    }
}

fn find_name(names: &Vec<String>, name: &str) -> (r: Option<usize>)
    ensures
        match r {
            Some(i) => name_place(views(names@), name@, 0) == Some(i as nat) && i < names@.len(),
            None => name_place(views(names@), name@, 0) is None,
        },
{
    let ghost all = views(names@);
    let mut i: usize = 0;
    while i < names.len()
        invariant
            i <= names@.len(),
            all == views(names@),
            name_place(all, name@, 0) == name_place(all, name@, i as nat),
        decreases names@.len() - i,
    {
        assert(all[i as int] == names@[i as int]@);
        if same(names[i].as_str(), name) {
            return Some(i);
        }
        i += 1;
    }
    None
}

/// The theme that follows another among the names, around the end; the first where the other is
/// not among them.
pub open spec fn next_name(names: Seq<Seq<char>>, current: Seq<char>) -> Seq<char>
    recommends
        names.len() > 0,
{
    match name_place(names, current, 0) {
        Some(i) => if i + 1 < names.len() { names[i as int + 1] } else { names[0] },
        None => names[0],
    }
}

/// The entries of the picker: one for each name, none of them loaded.
pub open spec fn fresh_entries(entries: Seq<PickerEntry>, names: Seq<Seq<char>>) -> bool {
    &&& entries.len() == names.len()
    &&& forall|i: int|
        0 <= i < entries.len() ==> (#[trigger] entries[i]).name@ == names[i] && entries[i].theme is None
            && entries[i].source is None
}

/// Where the picker's cursor starts: on the theme that was asked for.
pub open spec fn first_cursor(names: Seq<Seq<char>>, request: Seq<char>) -> nat {
    match name_place(names, request, 0) {
        Some(i) => i,
        None => 0,
    }
}

impl App {
    /// The theme that is in force, and the name it was requested by.
    pub open spec fn theme_in_force(&self) -> KeptTheme {
        KeptTheme { theme: self.theme, source: self.theme_source, request: self.theme_request }
    }

    /// The state after a popup other than the theme picker was opened.
    pub open spec fn overlay_opened(self, overlay: Overlay) -> App {
        App {
            overlay,
            leader_open: overlay == Overlay::Leader,
            mode: if overlay == Overlay::Leader || overlay == Overlay::Closed {
                Mode::Normal
            } else {
                Mode::Popup
            },
            help_scroll: if overlay == Overlay::Help { 0 } else { self.help_scroll },
            help_filter: if overlay == Overlay::Help { None } else { self.help_filter },
            ..self
        }
    }

    /// Whether a popup was opened, and which theme it is to preview.
    pub open spec fn overlay_shown(
        &self,
        before: &App,
        overlay: Overlay,
        r: Option<String>,
    ) -> bool {
        &&& overlay != Overlay::ThemePicker ==> *self == before.overlay_opened(overlay)
            && r is None
        &&& overlay == Overlay::ThemePicker ==> {
            &&& *self == (App {
                theme_before_picker: Some(before.theme_in_force()),
                picker_items: self.picker_items,
                picker_cursor: first_cursor(
                    views(before.theme_names@),
                    before.theme_request@,
                ) as usize,
                ..before.overlay_opened(overlay)
            })
            &&& fresh_entries(self.picker_items@, views(before.theme_names@))
            &&& match r {
                Some(name) => self.picker_cursor < before.theme_names@.len() && name@
                    == before.theme_names@[self.picker_cursor as int]@,
                None => before.theme_names@.len() == 0,
            }
        }
    }

    /// Opens a popup, taking the keyboard when the popup is modal.
    ///
    /// Returns the theme to load for a preview, which only the theme picker asks for.
    pub fn open_overlay(&mut self, overlay: Overlay) -> (r: Option<String>)
        ensures
            final(self).overlay_shown(old(self), overlay, r),
    {
        if overlay == Overlay::Help {
            self.help_scroll = 0;
            self.help_filter = None;
        }
        self.overlay = overlay;
        self.leader_open = overlay == Overlay::Leader;
        self.mode = if overlay == Overlay::Leader || overlay == Overlay::Closed {
            Mode::Normal
        } else {
            Mode::Popup
        };
        if overlay != Overlay::ThemePicker {
            return None;
        }
        self.theme_before_picker =
        Some(
            KeptTheme {
                theme: self.theme.clone(),
                source: self.theme_source.clone(),
                request: self.theme_request.clone(),
            },
        );
        let mut entries: Vec<PickerEntry> = Vec::new();
        let mut i: usize = 0;
        while i < self.theme_names.len()
            invariant
                i <= self.theme_names@.len(),
                entries@.len() == i,
                forall|j: int|
                    0 <= j < i ==> (#[trigger] entries@[j]).name@ == self.theme_names@[j]@
                        && entries@[j].theme is None && entries@[j].source is None,
            decreases self.theme_names@.len() - i,
        {
            entries.push(PickerEntry { name: self.theme_names[i].clone(), theme: None, source: None });
            i += 1;
        }
        self.picker_items = entries;
        self.picker_cursor = match find_name(&self.theme_names, self.theme_request.as_str()) {
            Some(at) => at,
            None => 0,
        };
        assert(fresh_entries(self.picker_items@, views(self.theme_names@)));
        self.preview_wanted()
    }

    /// The theme the picker's cursor is on, when it was not loaded yet.
    #[must_use]
    pub fn preview_wanted(&self) -> (r: Option<String>)
        ensures
            match r {
                Some(name) => self.picker_cursor < self.picker_items@.len()
                    && self.picker_items@[self.picker_cursor as int].theme is None && name@
                    == self.picker_items@[self.picker_cursor as int].name@,
                None => self.picker_cursor >= self.picker_items@.len()
                    || self.picker_items@[self.picker_cursor as int].theme is Some,
            },
    {
        if self.picker_cursor >= self.picker_items.len() {
            return None;
        }
        let entry: &PickerEntry = &self.picker_items[self.picker_cursor];
        if entry.theme.is_some() { None } else { Some(entry.name.clone()) }
    }

    /// Whether the theme under the picker's cursor, when it is loaded, is the one in force.
    pub open spec fn previews(&self, before: &App) -> bool {
        &&& *self == (App {
            theme: self.theme,
            theme_source: self.theme_source,
            theme_request: self.theme_request,
            ..*before
        })
        &&& if before.picker_cursor < before.picker_items@.len()
            && before.picker_items@[before.picker_cursor as int].theme is Some {
            let entry = before.picker_items@[before.picker_cursor as int];
            &&& self.theme@ == entry.theme->0@
            &&& self.theme_request@ == entry.name@
            &&& self.theme_source@ == match entry.source {
                Some(source) => source@,
                None => before.theme_source@,
            }
        } else {
            *self == *before
        }
    }

    fn preview_loaded(&mut self)
        ensures
            final(self).previews(old(self)),
    {
        if self.picker_cursor >= self.picker_items.len() {
            return;
        }
        let name = self.picker_items[self.picker_cursor].name.clone();
        let theme = opt_clone(&self.picker_items[self.picker_cursor].theme);
        let source = opt_clone(&self.picker_items[self.picker_cursor].source);
        match theme {
            Some(theme) => {
                self.theme = theme;
                self.theme_request = name;
                match source {
                    Some(source) => {
                        self.theme_source = source;
                    },
                    None => {},
                }
            },
            None => {},
        }
    }

    /// Whether the entry under the cursor holds what was loaded and the theme is previewed.
    pub open spec fn preview_applied(&self, before: &App, loaded: Result<LoadedTheme, String>) -> bool {
        if before.picker_cursor >= before.picker_items@.len() {
            *self == *before
        } else {
            let entry = before.picker_items@[before.picker_cursor as int];
            match loaded {
                Ok(loaded) => {
                    &&& *self == (App {
                        theme: loaded.theme,
                        theme_source: loaded.source,
                        theme_request: self.theme_request,
                        picker_items: self.picker_items,
                        ..*before
                    })
                    &&& self.theme_request@ == entry.name@
                    &&& self.picker_items@ == before.picker_items@.update(
                        before.picker_cursor as int,
                        PickerEntry {
                            theme: Some(loaded.theme),
                            source: Some(loaded.source),
                            ..entry
                        },
                    )
                },
                Err(error) => {
                    &&& *self == (App { notices: self.notices, ..*before })
                    &&& self.notices_after(
                        before,
                        NoticeLevel::Warn,
                        entry.name@ + ": "@ + error@,
                    )
                },
            }
        }
    }

    /// Previews the theme the picker's cursor is on, given how loading it went.
    ///
    /// One that cannot be read is reported here rather than when the choice is committed.
    pub fn preview_picker(&mut self, loaded: Result<LoadedTheme, String>)
        ensures
            final(self).preview_applied(old(self), loaded),
    {
        if self.picker_cursor >= self.picker_items.len() {
            return;
        }
        let at: usize = self.picker_cursor;
        let name = self.picker_items[at].name.clone();
        match loaded {
            Ok(loaded) => {
                let entry = PickerEntry {
                    name: name.clone(),
                    theme: Some(loaded.theme.clone()),
                    source: Some(loaded.source.clone()),
                };
                let ghost before = self.picker_items@;
                let _ = self.picker_items.remove(at);
                self.picker_items.insert(at, entry);
                assert(self.picker_items@ =~= before.update(at as int, entry));
                self.theme = loaded.theme;
                self.theme_request = name;
                self.theme_source = loaded.source;
            },
            Err(error) => {
                let text = concat3(name.as_str(), ": ", error.as_str());
                self.notice(NoticeLevel::Warn, text.as_str());
            },
        }
    }

    /// Moves the theme picker's cursor, and previews what it lands on.
    ///
    /// Returns the theme to load first, where the entry was not loaded yet.
    pub fn move_picker(&mut self, delta: i32) -> (r: Option<String>)
        ensures
            ({
                let moved = App {
                    picker_cursor: stepped(
                        old(self).picker_cursor as nat,
                        delta as int,
                        old(self).picker_items@.len(),
                    ) as usize,
                    ..*old(self)
                };
                &&& final(self).previews(&moved)
                &&& match r {
                    Some(name) => moved.picker_cursor < moved.picker_items@.len()
                        && moved.picker_items@[moved.picker_cursor as int].theme is None && name@
                        == moved.picker_items@[moved.picker_cursor as int].name@,
                    None => moved.picker_items@.len() == 0
                        || moved.picker_items@[moved.picker_cursor as int].theme is Some,
                }
            }),
    {
        if self.picker_items.len() == 0 {
            return None;
        }
        self.picker_cursor = clamp_cursor(self.picker_cursor, delta, self.picker_items.len());
        self.preview_loaded();
        self.preview_wanted()
    }

    /// Whether warnings were announced, one by one.
    pub open spec fn announces(&self, before: &App, warnings: Seq<Seq<char>>) -> bool {
        notice_views(self.notices@) == crate::app::warned(
            notice_views(before.notices@),
            warnings,
            warnings.len(),
            before.clock_ms,
        )
    }

    fn announce(&mut self, warnings: &Vec<String>)
        ensures
            *final(self) == (App { notices: final(self).notices, ..*old(self) }),
            final(self).announces(old(self), views(warnings@)),
    {
        let ghost before = *self;
        let mut i: usize = 0;
        while i < warnings.len()
            invariant
                i <= warnings@.len(),
                *self == (App { notices: self.notices, ..before }),
                notice_views(self.notices@) == crate::app::warned(
                    notice_views(before.notices@),
                    views(warnings@),
                    i as nat,
                    before.clock_ms,
                ),
            decreases warnings@.len() - i,
        {
            assert(views(warnings@)[i as int] == warnings@[i as int]@);
            self.notice(NoticeLevel::Warn, warnings[i].as_str());
            i += 1;
        }
        assert(views(warnings@).len() == warnings@.len());
    }

    /// Whether a theme was put in force and written down, or why it was not said.
    pub open spec fn theme_set(
        &self,
        before: &App,
        name: &str,
        loaded: Result<LoadedTheme, String>,
        r: Effect,
    ) -> bool {
        &&& match loaded {
            Ok(loaded) => {
                &&& r is SaveState
                &&& *self == (App {
                    theme: loaded.theme,
                    theme_source: loaded.source,
                    theme_request: self.theme_request,
                    state: AppState { theme: self.state.theme, ..before.state },
                    notices: self.notices,
                    ..*before
                })
                &&& self.theme_request@ == name@
                &&& opt_view(self.state.theme) == Some(name@)
                &&& notice_views(self.notices@) == noticed(
                    crate::app::warned(
                        notice_views(before.notices@),
                        views(loaded.warnings@),
                        loaded.warnings@.len(),
                        before.clock_ms,
                    ),
                    NoticeLevel::Info,
                    "theme: "@ + name@,
                    before.clock_ms,
                )
            },
            Err(error) => {
                &&& r is Nothing
                &&& *self == (App { notices: self.notices, ..*before })
                &&& self.notices_after(before, NoticeLevel::Error, error@)
            },
        }
    }

    /// Switches theme and records the choice, given how loading it went.
    pub fn set_theme(&mut self, name: &str, loaded: Result<LoadedTheme, String>) -> (r: Effect)
        ensures
            final(self).theme_set(old(self), name, loaded, r),
    {
        match loaded {
            Ok(loaded) => {
                self.theme = loaded.theme;
                self.theme_source = loaded.source;
                self.theme_request = name.to_owned();
                self.announce(&loaded.warnings);
                assert(views(loaded.warnings@).len() == loaded.warnings@.len());
                self.state.theme = Some(name.to_owned());
                let text = concat2("theme: ", name);
                self.notice(NoticeLevel::Info, text.as_str());
                Effect::SaveState
            },
            Err(error) => {
                self.notice(NoticeLevel::Error, error.as_str());
                Effect::Nothing
            },
        }
    }

    /// The next available theme, around the end; it is to be loaded and then set.
    pub fn toggle_theme(&mut self) -> (r: Option<String>)
        ensures
            if old(self).theme_names@.len() == 0 {
                &&& r is None
                &&& *final(self) == (App { notices: final(self).notices, ..*old(self) })
                &&& final(self).notices_after(
                    old(self),
                    NoticeLevel::Warn,
                    "no themes are available"@,
                )
            } else {
                &&& *final(self) == *old(self)
                &&& opt_view(r) == Some(
                    next_name(views(old(self).theme_names@), old(self).theme_request@),
                )
            },
    {
        if self.theme_names.len() == 0 {
            self.notice(NoticeLevel::Warn, "no themes are available");
            return None;
        }
        let next: usize = match find_name(&self.theme_names, self.theme_request.as_str()) {
            Some(i) => if i + 1 < self.theme_names.len() { i + 1 } else { 0 },
            None => 0,
        };
        proof {
            let names = views(self.theme_names@);
            assert(names.len() == self.theme_names@.len());
            assert(names[next as int] == self.theme_names@[next as int]@);
        }
        Some(self.theme_names[next].clone())
    }

    /// Whether the theme in force was read again, or why it was not said.
    pub open spec fn theme_reloaded(
        &self,
        before: &App,
        loaded: Result<LoadedTheme, String>,
    ) -> bool {
        &&& match loaded {
            Ok(loaded) => {
                &&& *self == (App {
                    theme: loaded.theme,
                    theme_source: loaded.source,
                    notices: self.notices,
                    ..*before
                })
                &&& notice_views(self.notices@) == noticed(
                    crate::app::warned(
                        notice_views(before.notices@),
                        views(loaded.warnings@),
                        loaded.warnings@.len(),
                        before.clock_ms,
                    ),
                    NoticeLevel::Info,
                    "reloaded theme "@ + before.theme_request@ + " from "@ + loaded.source@,
                    before.clock_ms,
                )
            },
            Err(error) => {
                &&& *self == (App { notices: self.notices, ..*before })
                &&& self.notices_after(before, NoticeLevel::Error, error@)
            },
        }
    }

    /// Takes over the active theme as it was read again.
    pub fn reload_theme(&mut self, loaded: Result<LoadedTheme, String>)
        ensures
            final(self).theme_reloaded(old(self), loaded),
    {
        match loaded {
            Ok(loaded) => {
                let text = concat4(
                    "reloaded theme ",
                    self.theme_request.as_str(),
                    " from ",
                    loaded.source.as_str(),
                );
                self.theme = loaded.theme;
                self.theme_source = loaded.source;
                self.announce(&loaded.warnings);
                assert(views(loaded.warnings@).len() == loaded.warnings@.len());
                self.notice(NoticeLevel::Info, text.as_str());
            },
            Err(error) => {
                self.notice(NoticeLevel::Error, error.as_str());
            },
        }
    }

    /// Reports how reading the key bindings again went: an error, then what is off about them.
    pub fn reload_keymap(&mut self, error: Option<&str>, warnings: &Vec<String>)
        ensures
            *final(self) == (App { notices: final(self).notices, ..*old(self) }),
            notice_views(final(self).notices@) == crate::app::warned(
                match error {
                    Some(error) => noticed(
                        notice_views(old(self).notices@),
                        NoticeLevel::Error,
                        error@,
                        old(self).clock_ms,
                    ),
                    None => notice_views(old(self).notices@),
                },
                views(warnings@),
                warnings@.len(),
                old(self).clock_ms,
            ),
    {
        match error {
            Some(error) => {
                self.notice(NoticeLevel::Error, error);
            },
            None => {},
        }
        self.announce(warnings);
        assert(views(warnings@).len() == warnings@.len());
    }

    /// Opens the doctor popup and marks the report as being collected.
    pub fn start_doctor(&mut self)
        ensures
            *final(self) == (App {
                checks: final(self).checks,
                doctor_running: true,
                notices: final(self).notices,
                ..old(self).overlay_opened(Overlay::Doctor)
            }),
            final(self).checks@.len() == 0,
            final(self).notices_after(
                old(self),
                NoticeLevel::Info,
                "collecting the environment report…"@,
            ),
    {
        self.checks = Vec::new();
        self.doctor_running = true;
        let _ = self.open_overlay(Overlay::Doctor);
        self.notice(NoticeLevel::Info, "collecting the environment report…");
    }

    /// Delivers a doctor report; one for a superseded request is dropped.
    pub fn apply_checks(&mut self, job: u64, checks: Vec<Check>)
        ensures
            job != old(self).doctor_job ==> *final(self) == *old(self),
            job == old(self).doctor_job ==> *final(self) == (App {
                checks,
                doctor_running: false,
                ..*old(self)
            }),
    {
        if job != self.doctor_job {
            return;
        }
        self.checks = checks;
        self.doctor_running = false;
    }
}

/// A cursor moved by `delta` among `count` rows, stopping at the ends.
pub fn clamp_cursor(current: usize, delta: i32, count: usize) -> (r: usize)
    ensures
        r == if count == 0 { 0 } else { stepped(current as nat, delta as int, count as nat) },
{
    if count == 0 {
        return 0;
    }
    step(current, delta, count)
}

/// Whether a state is one that a picker over `opened` leads to: what cancelling goes back to and
/// what is written down are as they were then.
pub open spec fn still_picking(opened: App, app: App) -> bool {
    app.theme_before_picker == opened.theme_before_picker && app.state == opened.state
}

/// Moving over themes and previewing them, loaded or not, keeps what cancelling goes back to.
pub proof fn lemma_previewing_keeps_what_is_undone(
    opened: App,
    before: App,
    moved: App,
    after: App,
    loaded: Result<LoadedTheme, String>,
)
    requires
        still_picking(opened, before),
        moved == (App { picker_cursor: moved.picker_cursor, ..before }),
        after.previews(&moved) || after.preview_applied(&moved, loaded),
    ensures
        still_picking(opened, after),
{
}

/// Cancelling a popup undoes whatever was previewed since the picker opened: the theme, where it
/// came from and the name it is asked for by are those of before, and what is written down is
/// unchanged.
pub proof fn lemma_cancelling_undoes_the_preview(before: App, opened: App, app: App)
    requires
        opened.theme_before_picker == Some(before.theme_in_force()),
        opened.state == before.state,
        still_picking(opened, app),
    ensures
        ({
            let after = app.overlay_cancelled();
            &&& after.theme == before.theme
            &&& after.theme_source == before.theme_source
            &&& after.theme_request == before.theme_request
            &&& after.state == before.state
            &&& after.overlay == Overlay::Closed
            &&& after.mode == Mode::Normal
        }),
{
}

/// The theme after `n` toggles.
pub open spec fn toggled_theme(names: Seq<Seq<char>>, current: Seq<char>, n: nat) -> Seq<char>
    decreases n,
{
    if n == 0 {
        current
    } else {
        next_name(names, toggled_theme(names, current, (n - 1) as nat))
    }
}

proof fn lemma_name_place(names: Seq<Seq<char>>, i: nat, from: nat)
    requires
        names.no_duplicates(),
        from <= i < names.len(),
    ensures
        name_place(names, names[i as int], from) == Some(i),
    decreases i - from,
{
    if from < i {
        lemma_name_place(names, i, from + 1);
    }
}

/// Toggling goes through every theme and comes back: from any theme, each other one is some number
/// of toggles away, and as many toggles as there are themes lead back to it.
pub proof fn lemma_toggling_visits_every_theme(names: Seq<Seq<char>>, i: nat, n: nat)
    requires
        names.no_duplicates(),
        i < names.len(),
    ensures
        i + n < names.len() ==> toggled_theme(names, names[i as int], n) == names[(i + n) as int],
        names.len() <= i + n < 2 * names.len() ==> toggled_theme(names, names[i as int], n)
            == names[i + n - names.len()],
        toggled_theme(names, names[i as int], names.len()) == names[i as int],
{
    lemma_toggles(names, i, n);
    lemma_toggles(names, i, names.len());
}

proof fn lemma_toggles(names: Seq<Seq<char>>, i: nat, n: nat)
    requires
        names.no_duplicates(),
        i < names.len(),
    ensures
        i + n < names.len() ==> toggled_theme(names, names[i as int], n) == names[(i + n) as int],
        names.len() <= i + n < 2 * names.len() ==> toggled_theme(names, names[i as int], n)
            == names[i + n - names.len()],
    decreases n,
{
    if n > 0 {
        lemma_toggles(names, i, (n - 1) as nat);
        let at = i + n - 1;
        if at < names.len() {
            lemma_name_place(names, at as nat, 0);
        } else if at < 2 * names.len() {
            lemma_name_place(names, (at - names.len()) as nat, 0);
        }
    }
}

} // verus!
