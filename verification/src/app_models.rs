//! The model in use: the picker, the catalog behind it, and what was chosen.

use vstd::prelude::*;

use crate::app::{App, Config, ResolvedSelection};
use crate::catalog::{copy_thinking, CatalogState, ModelSelection};
use crate::effect::{CatalogPolicy, Effect};
use crate::jobs::PickerSearch;
use crate::model_picker::{
    model_rows, model_rows_of, pick_views, provider_rows, provider_rows_of, thinking_rows,
    thinking_rows_of, PickView, PickerState, Step,
};
use crate::notices::{notice_views, noticed, NoticeLevel, NoticeView};
use crate::patch::{opt_clone, opt_view};
use crate::session::Usage;
use crate::strings::{concat2, concat3, concat4, decimal, number, trim, trimmed, views};

verus! {

/// A queue after the first `n` warnings about a model.
pub open spec fn model_warned(
    queue: Seq<NoticeView>,
    warnings: Seq<Seq<char>>,
    n: nat,
    now: u64,
) -> Seq<NoticeView>
    decreases n,
{
    if n == 0 {
        queue
    } else {
        noticed(
            model_warned(queue, warnings, (n - 1) as nat, now),
            NoticeLevel::Warn,
            "model: "@ + warnings[n - 1],
            now,
        )
    }
}

/// What a provider used, in words.
pub open spec fn usage_words(usage: Option<Usage>) -> Seq<char> {
    match usage {
        Some(usage) => decimal(usage.prompt as nat) + " prompt + "@ + decimal(
            usage.completion as nat,
        ) + " completion tokens"@,
        None => "no usage reported"@,
    }
}

/// What a connection check found, in words.
pub open spec fn check_words(text: Seq<char>, usage: Option<Usage>) -> Seq<char> {
    if trimmed(text).len() == 0 {
        "the provider answered with no text ("@ + usage_words(usage) + ")"@
    } else {
        "the provider answered ("@ + usage_words(usage) + ")"@
    }
}

fn word_usage(usage: Option<Usage>) -> (r: String)
    ensures
        r@ == usage_words(usage),
{
    match usage {
        Some(usage) => concat4(
            number(usage.prompt).as_str(),
            " prompt + ",
            number(usage.completion).as_str(),
            " completion tokens",
        ),
        None => "no usage reported".to_owned(),
    }
}

impl App {
    /// The rows of the picker's step.
    pub open spec fn picker_rows(&self, picker: PickerState, search: PickerSearch) -> Seq<PickView> {
        match (picker.step, self.catalog) {
            (Step::Provider, Some(state)) => provider_rows_of(
                state.providers@,
                picker.query@,
                search.matched@,
                state.providers@.len(),
            ),
            (Step::Model, Some(state)) => if picker.provider is Some {
                model_rows_of(search.models@)
            } else {
                Seq::empty()
            },
            (Step::Thinking, Some(state)) => match (picker.provider, picker.model) {
                (Some(provider), Some(model)) => match state.entry(provider@, model@) {
                    None => Seq::empty(),
                    Some(entry) => thinking_rows_of(entry.thinking@),
                },
                _ => Seq::empty(),
            },
            _ => Seq::empty(),
        }
    }

    /// Whether a picker has the rows of its step, with the cursor among them, and says where they
    /// come from where it says nothing else.
    pub open spec fn refreshed(
        &self,
        before: PickerState,
        after: PickerState,
        search: PickerSearch,
    ) -> bool {
        &&& after == (PickerState {
            rows: after.rows,
            cursor: crate::diff_view::clamped_cursor(before.cursor as nat, after.rows@.len()) as usize,
            notice: after.notice,
            ..before
        })
        &&& pick_views(after.rows@) == self.picker_rows(before, search)
        &&& opt_view(after.notice) == match (before.notice, self.catalog) {
            (Some(text), _) => Some(text@),
            (None, Some(state)) => Some(state.summary@),
            (None, None) => None,
        }
    }

    /// Fills the picker's rows for the step it is on.
    pub fn refresh_picker(&mut self, search: &PickerSearch)
        ensures
            *final(self) == (App { picker: final(self).picker, ..*old(self) }),
            match old(self).picker {
                None => final(self).picker is None,
                Some(before) => final(self).picker is Some && old(self).refreshed(
                    before,
                    final(self).picker->0,
                    *search,
                ),
            },
    {
        let mut picker = match self.picker.take() {
            Some(picker) => picker,
            None => {
                return;
            },
        };
        let mut rows = Vec::new();
        assert(pick_views(rows@) =~= Seq::empty());
        match &self.catalog {
            Some(state) => {
                match picker.step {
                    Step::Provider => {
                        rows = provider_rows(state, picker.query.as_str(), &search.matched);
                    },
                    Step::Model => {
                        if picker.provider.is_some() {
                            rows = model_rows(&search.models);
                        }
                    },
                    Step::Thinking => {
                        match (&picker.provider, &picker.model) {
                            (Some(provider), Some(model)) => {
                                rows = thinking_rows(state, provider.as_str(), model.as_str());
                                proof {
                                    if state.entry(provider@, model@) is None {
                                        assert(pick_views(rows@) =~= Seq::empty());
                                    }
                                }
                            },
                            _ => {},
                        }
                    },
                    _ => {},
                }
            },
            None => {},
        }
        picker.set_rows(rows);
        match &self.catalog {
            Some(state) => {
                if picker.notice.is_none() {
                    picker.set_notice(Some(state.summary.clone()));
                }
            },
            None => {},
        }
        self.picker = Some(picker);
    }

    /// The year of the loop's clock, by which old models are told.
    #[must_use]
    pub fn catalog_year(&self) -> (r: u32)
        ensures
            crate::time::is_year_at(self.now_unix_secs, r),
    {
        crate::time::now_year(self.now_unix_secs)
    }

    /// Whether the model picker was opened on its first step.
    pub open spec fn picker_opened(&self, before: &App, search: &PickerSearch, r: Effect) -> bool {
        &&& r == Effect::LoadCatalog(CatalogPolicy::CacheFirst)
        &&& *self == (App { picker: self.picker, ..*before })
        &&& self.picker is Some
        &&& self.picker->0.step == Step::Provider
        &&& self.picker->0.query@.len() == 0
        &&& self.picker->0.cursor == 0
        &&& opt_view(self.picker->0.notice) == Some("loading the model catalog…"@)
        &&& pick_views(self.picker->0.rows@) == match before.catalog {
            Some(state) => provider_rows_of(
                state.providers@,
                Seq::empty(),
                search.matched@,
                state.providers@.len(),
            ),
            None => Seq::empty(),
        }
    }

    /// Opens the model picker and asks for the catalog.
    pub fn open_model_picker(&mut self, search: &PickerSearch) -> (r: Effect)
        ensures
            final(self).picker_opened(old(self), search, r),
    {
        let mut picker = PickerState::new();
        picker.set_notice(Some("loading the model catalog…".to_owned()));
        assert(picker.query@ =~= Seq::empty());
        self.picker = Some(picker);
        self.refresh_picker(search);
        Effect::LoadCatalog(CatalogPolicy::CacheFirst)
    }

    /// Records the job id of the catalog fetch.
    pub fn record_catalog_job(&mut self, job: u64)
        ensures
            *final(self) == (App { catalog_job: job, ..*old(self) }),
    {
        self.catalog_job = job;
    }

    /// Records the job id of the worktree being built.
    pub fn record_workspace_job(&mut self, job: u64)
        ensures
            *final(self) == (App { workspace_job: job, ..*old(self) }),
    {
        self.workspace_job = job;
    }

    /// A picker, when it is open, with another message and check state.
    pub open spec fn told(
        before: Option<PickerState>,
        after: Option<PickerState>,
        checking: bool,
        notice: Seq<char>,
    ) -> bool {
        match before {
            None => after is None,
            Some(picker) => {
                &&& after is Some
                &&& after->0 == (PickerState { checking, notice: after->0.notice, ..picker })
                &&& opt_view(after->0.notice) == Some(notice)
            },
        }
    }

    fn tell_picker(&mut self, checking: bool, text: &str)
        ensures
            *final(self) == (App { picker: final(self).picker, ..*old(self) }),
            App::told(old(self).picker, final(self).picker, checking, text@),
    {
        match self.picker.take() {
            Some(mut picker) => {
                picker.set_checking(checking);
                picker.set_notice(Some(text.to_owned()));
                self.picker = Some(picker);
            },
            None => {},
        }
    }

    /// Records the job id of the connection check.
    pub fn record_check_job(&mut self, job: u64)
        ensures
            *final(self) == (App { check_job: job, picker: final(self).picker, ..*old(self) }),
            App::told(old(self).picker, final(self).picker, true, "asking the provider…"@),
    {
        self.check_job = job;
        self.tell_picker(true, "asking the provider…");
    }

    /// Reports the result of the connection check.
    pub fn finish_check(&mut self, text: &str, usage: Option<Usage>)
        ensures
            *final(self) == (App {
                picker: final(self).picker,
                notices: final(self).notices,
                ..*old(self)
            }),
            App::told(old(self).picker, final(self).picker, false, check_words(text@, usage)),
            final(self).notices_after(old(self), NoticeLevel::Info, check_words(text@, usage)),
    {
        let answer = trim(text);
        let used = word_usage(usage);
        let message: String = if answer.as_str().is_empty() {
            concat3("the provider answered with no text (", used.as_str(), ")")
        } else {
            concat3("the provider answered (", used.as_str(), ")")
        };
        self.tell_picker(false, message.as_str());
        self.notice(NoticeLevel::Info, message.as_str());
    }

    /// The selection currently configured, if it resolves.
    #[must_use]
    pub fn active_model(&self) -> (r: Option<&ResolvedSelection>)
        ensures
            match r {
                Some(resolved) => self.active_model == Some(*resolved),
                None => self.active_model is None,
            },
    {
        match &self.active_model {
            Some(resolved) => Some(resolved),
            None => None,
        }
    }

    /// Whether a model has been chosen and can be used.
    #[must_use]
    pub fn has_model(&self) -> (r: bool)
        ensures
            r == (self.active_model is Some),
    {
        self.active_model.is_some()
    }

    /// Why the configured model cannot be used, if it cannot.
    #[must_use]
    pub fn model_problem(&self) -> (r: Option<&str>)
        ensures
            match r {
                Some(text) => opt_view(self.model_problem) == Some(text@),
                None => self.model_problem is None,
            },
    {
        match &self.model_problem {
            Some(problem) => Some(problem.as_str()),
            None => None,
        }
    }

    /// The model in words.
    pub open spec fn model_words(&self) -> Seq<char> {
        match self.active_model {
            Some(resolved) => resolved.provider@ + "/"@ + resolved.model@,
            None => "the configured model"@,
        }
    }

    /// The model, as the interface names it.
    #[must_use]
    pub fn model_label(&self) -> (r: String)
        ensures
            r@ == self.model_words(),
    {
        match &self.active_model {
            Some(resolved) => concat3(resolved.provider.as_str(), "/", resolved.model.as_str()),
            None => "the configured model".to_owned(),
        }
    }

    /// What the catalog says the active model costs, for the estimate of an answer.
    #[must_use]
    pub fn model_cost(&self) -> (r: Option<String>)
        ensures
            opt_view(r) == match (self.active_model, self.catalog) {
                (Some(resolved), Some(state)) => match state.entry(
                    resolved.provider@,
                    resolved.model@,
                ) {
                    Some(model) => opt_view(model.cost),
                    None => None,
                },
                _ => None,
            },
    {
        match (&self.active_model, &self.catalog) {
            (Some(resolved), Some(state)) => match state.model(
                resolved.provider.as_str(),
                resolved.model.as_str(),
            ) {
                Some(model) => opt_clone(&model.cost),
                None => None,
            },
            _ => None,
        }
    }

    /// The picker, when it is open.
    #[must_use]
    pub fn picker(&self) -> (r: Option<&PickerState>)
        ensures
            match r {
                Some(picker) => self.picker == Some(*picker),
                None => self.picker is None,
            },
    {
        match &self.picker {
            Some(picker) => Some(picker),
            None => None,
        }
    }

    /// The provider the picker is on, if it has chosen one.
    #[must_use]
    pub fn picker_provider(&self) -> (r: Option<String>)
        ensures
            r == match self.picker {
                Some(picker) => picker.provider,
                None => None,
            },
    {
        match &self.picker {
            Some(picker) => opt_clone(&picker.provider),
            None => None,
        }
    }

    /// The selection the picker has assembled so far, if it is complete.
    #[must_use]
    pub fn picker_selection(&self) -> (r: Option<ModelSelection>)
        ensures
            r == match self.picker {
                Some(picker) => match (picker.provider, picker.model) {
                    (Some(provider), Some(model)) => Some(
                        ModelSelection { provider, model, reasoning: picker.thinking },
                    ),
                    _ => None,
                },
                None => None,
            },
    {
        match &self.picker {
            Some(picker) => match (&picker.provider, &picker.model) {
                (Some(provider), Some(model)) => Some(
                    ModelSelection {
                        provider: provider.clone(),
                        model: model.clone(),
                        reasoning: copy_thinking(&picker.thinking),
                    },
                ),
                _ => None,
            },
            None => None,
        }
    }

    /// Closes the picker.
    pub fn close_picker(&mut self)
        ensures
            *final(self) == (App { picker: None, ..*old(self) }),
    {
        self.picker = None;
    }

    /// Whether the picker goes on now that a key is stored.
    pub open spec fn key_stored(&self, before: &App) -> bool {
        &&& *self == (App { picker: self.picker, ..*before })
        &&& match before.picker {
            None => self.picker is None,
            Some(before) => {
                &&& self.picker is Some
                &&& self.picker->0.step == Step::Confirm
                &&& self.picker->0.key_input@.len() == 0
                &&& self.picker->0.key_present
                &&& self.picker->0.rows@.len() == 0
                &&& opt_view(self.picker->0.notice) == Some(
                    "key saved to credentials.toml (mode 0600)"@,
                )
                &&& self.picker->0.provider == before.provider
                &&& self.picker->0.model == before.model
                &&& self.picker->0.thinking == before.thinking
            },
        }
    }

    /// Marks the picker's step as having stored a key.
    pub fn picker_key_stored(&mut self, search: &PickerSearch)
        ensures
            final(self).key_stored(old(self)),
    {
        match self.picker.take() {
            Some(mut picker) => {
                picker.key_stored();
                self.picker = Some(picker);
            },
            None => {},
        }
        self.refresh_picker(search);
        proof {
            if self.picker is Some {
                let rows = self.picker->0.rows@;
                assert(pick_views(rows).len() == rows.len());
            }
        }
    }

    /// Whether the configured selection is resolved: the model, or why there is none.
    pub open spec fn resolves(
        &self,
        before: &App,
        resolved: Result<ResolvedSelection, String>,
    ) -> bool {
        if before.catalog is None {
            *self == *before
        } else {
            &&& *self == (App {
                active_model: self.active_model,
                model_problem: self.model_problem,
                notices: self.notices,
                ..*before
            })
            &&& match (before.config.active, resolved) {
                (None, _) => {
                    &&& self.active_model is None
                    &&& self.model_problem is None
                    &&& self.notices == before.notices
                },
                (Some(_), Ok(selection)) => {
                    &&& self.active_model == Some(selection)
                    &&& self.model_problem is None
                    &&& notice_views(self.notices@) == model_warned(
                        notice_views(before.notices@),
                        views(selection.warnings@),
                        selection.warnings@.len(),
                        before.clock_ms,
                    )
                },
                (Some(_), Err(problem)) => {
                    &&& self.active_model is None
                    &&& self.model_problem == Some(problem)
                    &&& self.notices == before.notices
                },
            }
        }
    }

    /// Resolves the configured selection, given how the catalog describes it.
    pub fn resolve_active_model(&mut self, resolved: Result<ResolvedSelection, String>)
        ensures
            final(self).resolves(old(self), resolved),
    {
        if self.catalog.is_none() {
            return;
        }
        if self.config.active.is_none() {
            self.active_model = None;
            self.model_problem = None;
            return;
        }
        match resolved {
            Ok(selection) => {
                let ghost before = *self;
                let mut i: usize = 0;
                while i < selection.warnings.len()
                    invariant
                        i <= selection.warnings@.len(),
                        *self == (App { notices: self.notices, ..before }),
                        notice_views(self.notices@) == model_warned(
                            notice_views(before.notices@),
                            views(selection.warnings@),
                            i as nat,
                            before.clock_ms,
                        ),
                    decreases selection.warnings@.len() - i,
                {
                    assert(views(selection.warnings@)[i as int] == selection.warnings@[i as int]@);
                    let text = concat2("model: ", selection.warnings[i].as_str());
                    self.notice(NoticeLevel::Warn, text.as_str());
                    i += 1;
                }
                self.model_problem = None;
                self.active_model = Some(selection);
            },
            Err(problem) => {
                self.active_model = None;
                self.model_problem = Some(problem);
            },
        }
    }

    /// Makes a selection the active one, given how the catalog describes it.
    pub fn set_active_selection(
        &mut self,
        selection: ModelSelection,
        resolved: Result<ResolvedSelection, String>,
    )
        ensures
            final(self).resolves(
                &App {
                    config: Config { active: Some(selection), ..old(self).config },
                    ..*old(self)
                },
                resolved,
            ),
    {
        self.config.active = Some(selection);
        self.resolve_active_model(resolved);
    }

    /// Whether a catalog was taken over: the configured model resolved against it, and the picker,
    /// where it is open, filled from it.
    pub open spec fn catalog_taken(
        &self,
        before: &App,
        catalog: CatalogState,
        resolved: Result<ResolvedSelection, String>,
        search: PickerSearch,
    ) -> bool {
        let loaded = App { catalog: Some(catalog), ..*before };
        &&& exists|after: App| #[trigger]
            after.resolves(&loaded, resolved) && {
                &&& *self == (App { picker: self.picker, notices: self.notices, ..after })
                &&& self.notices_after(
                    &after,
                    NoticeLevel::Info,
                    "model catalog: "@ + catalog.summary@,
                )
            }
        &&& match before.picker {
            None => self.picker is None,
            Some(picker) => {
                &&& self.picker is Some
                &&& self.picker->0 == (PickerState {
                    rows: self.picker->0.rows,
                    cursor: crate::diff_view::clamped_cursor(
                        picker.cursor as nat,
                        self.picker->0.rows@.len(),
                    ) as usize,
                    notice: self.picker->0.notice,
                    ..picker
                })
                &&& opt_view(self.picker->0.notice) == Some(catalog.summary@)
                &&& pick_views(self.picker->0.rows@) == self.picker_rows(picker, search)
            },
        }
    }

    fn annotate_picker(&mut self, text: String)
        ensures
            *final(self) == (App { picker: final(self).picker, ..*old(self) }),
            match old(self).picker {
                Some(picker) => {
                    &&& final(self).picker is Some
                    &&& final(self).picker->0 == (PickerState { notice: Some(text), ..picker })
                },
                None => final(self).picker is None,
            },
    {
        match self.picker.take() {
            Some(mut picker) => {
                picker.set_notice(Some(text));
                self.picker = Some(picker);
            },
            None => {},
        }
    }

    fn adopt_catalog(
        &mut self,
        catalog: CatalogState,
        resolved: Result<ResolvedSelection, String>,
    )
        ensures
            ({
                let loaded = App { catalog: Some(catalog), ..*old(self) };
                exists|after: App| #[trigger]
                    after.resolves(&loaded, resolved) && {
                        &&& *final(self) == (App { notices: final(self).notices, ..after })
                        &&& final(self).notices_after(
                            &after,
                            NoticeLevel::Info,
                            "model catalog: "@ + catalog.summary@,
                        )
                    }
            }),
    {
        let text = concat2("model catalog: ", catalog.summary.as_str());
        self.catalog = Some(catalog);
        self.resolve_active_model(resolved);
        let ghost after = *self;
        self.notice(NoticeLevel::Info, text.as_str());
        proof {
            assert(after.resolves(&App { catalog: Some(catalog), ..*old(self) }, resolved));
        }
    }

    /// Adopts a freshly fetched catalog and resolves the configured model against it.
    pub fn apply_catalog(
        &mut self,
        catalog: CatalogState,
        resolved: Result<ResolvedSelection, String>,
        search: &PickerSearch,
    )
        ensures
            final(self).catalog_taken(old(self), catalog, resolved, *search),
    {
        let summary = catalog.summary.clone();
        self.adopt_catalog(catalog, resolved);
        self.annotate_picker(summary);
        self.refresh_picker(search);
    }

    /// Fetches the catalog when a configured model needs it and the cache was empty.
    ///
    /// Once only: an unreachable catalog must not become a fetch loop, and the second failure is a
    /// real failure worth reporting.
    #[must_use]
    pub fn catalog_unavailable(&mut self, job: u64) -> (r: Option<Effect>)
        ensures
            if job == old(self).catalog_job && old(self).catalog is None
                && !old(self).catalog_auto_fetched && old(self).config.active is Some {
                &&& r == Some(Effect::LoadCatalog(CatalogPolicy::Refresh))
                &&& *final(self) == (App { catalog_auto_fetched: true, ..*old(self) })
            } else {
                &&& r is None
                &&& *final(self) == *old(self)
            },
    {
        if job != self.catalog_job || self.catalog.is_some() || self.catalog_auto_fetched
            || self.config.active.is_none() {
            return None;
        }
        self.catalog_auto_fetched = true;
        Some(Effect::LoadCatalog(CatalogPolicy::Refresh))
    }
}

} // verus!
