//! The model picker: provider, model, thinking, key, confirm.
//!
//! The picker owns the steps, the cursor and the filter text; its owner hands it the rows.
//! Inside a text-entry step, ordinary characters are text: the alternative is a search box that
//! cannot hold a `j`.

use vstd::prelude::*;

use crate::catalog::{
    copy_thinking, CatalogState, ModelChoice, ProviderChoice, Thinking, ThinkingChoice,
};
use crate::effect::{truth, truth_word};
use crate::layout::{centered, centered_in, is_in_three, split_three, Direction, Rect};
use crate::paint::{
    group_page, line_of, page, plain, span, unpainted, Element, Line, Paint, SpanView,
};
use crate::patch::{opt_clone, opt_view};
use crate::string_laws::{blank, lemma_trimmed_says_something};
use crate::strings::{
    characters, collected, concat2, concat3, debug, debugged, decimal, number, repeat, repeated,
    trim, trimmed,
};

verus! {

/// Which step the picker is on.
#[derive(Debug, Clone, Copy, PartialEq, Eq, Structural)]
pub enum Step {
    /// Choose a provider.
    Provider,
    /// Choose a model, searchable.
    Model,
    /// Choose a thinking mode, constrained by the model.
    Thinking,
    /// Type the key, masked.
    Key,
    /// Review and commit.
    Confirm,
}

impl Step {
    /// The step as it is logged.
    pub open spec fn variant(self) -> Seq<char> {
        match self {
            Step::Provider => "Provider"@,
            Step::Model => "Model"@,
            Step::Thinking => "Thinking"@,
            Step::Key => "Key"@,
            Step::Confirm => "Confirm"@,
        }
    }

    fn variant_name(self) -> (r: &'static str)
        ensures
            r@ == self.variant(),
    {
        match self {
            Step::Provider => "Provider",
            Step::Model => "Model",
            Step::Thinking => "Thinking",
            Step::Key => "Key",
            Step::Confirm => "Confirm",
        }
    }

    /// The name of a step.
    pub open spec fn name(self) -> Seq<char> {
        match self {
            Step::Provider => "Provider"@,
            Step::Model => "Model"@,
            Step::Thinking => "Thinking"@,
            Step::Key => "API key"@,
            Step::Confirm => "Confirm"@,
        }
    }

    /// The title shown at the top of the box.
    #[must_use]
    pub fn title(self) -> (r: &'static str)
        ensures
            r@ == self.name(),
    {
        match self {
            Step::Provider => "Provider",
            Step::Model => "Model",
            Step::Thinking => "Thinking",
            Step::Key => "API key",
            Step::Confirm => "Confirm",
        }
    }

    /// Whether this step takes typed text.
    #[must_use]
    pub fn takes_text(self) -> (r: bool)
        ensures
            r == (self is Provider || self is Model || self is Key),
    {
        matches!(self, Step::Provider | Step::Model | Step::Key)
    }
}

/// What a row stands for.
#[derive(Debug, PartialEq, Eq)]
pub enum RowChoice {
    /// A catalog provider id.
    Provider(String),
    /// A model id.
    Model(String),
    /// A thinking setting.
    Thinking(Thinking),
}

impl Clone for RowChoice {
    fn clone(&self) -> (r: Self)
        ensures
            r == *self,
    {
        match self {
            RowChoice::Provider(id) => RowChoice::Provider(id.clone()),
            RowChoice::Model(id) => RowChoice::Model(id.clone()),
            RowChoice::Thinking(thinking) => RowChoice::Thinking(thinking.clone()),
        }
    }
}

/// One row of the current step's list.
#[derive(Debug, PartialEq, Eq)]
pub struct PickerRow {
    /// What the row means, which is what Enter acts on.
    pub choice: RowChoice,
    /// The main text.
    pub label: String,
    /// The right-hand text: capabilities, route, cost.
    pub detail: String,
    /// Why the row cannot be chosen, when it cannot.
    pub disabled: Option<String>,
}

impl Clone for PickerRow {
    fn clone(&self) -> (r: Self)
        ensures
            r == *self,
    {
        PickerRow {
            choice: self.choice.clone(),
            label: self.label.clone(),
            detail: self.detail.clone(),
            disabled: opt_clone(&self.disabled),
        }
    }
}

/// What a [`PickerRow`] says.
pub struct PickView {
    pub choice: RowChoice,
    pub label: Seq<char>,
    pub detail: Seq<char>,
    pub disabled: Option<Seq<char>>,
}

impl View for PickerRow {
    type V = PickView;

    open spec fn view(&self) -> PickView {
        PickView {
            choice: self.choice,
            label: self.label@,
            detail: self.detail@,
            disabled: opt_view(self.disabled),
        }
    }
}

impl PickerRow {
    /// A selectable row.
    #[must_use]
    pub fn new(choice: RowChoice, label: &str, detail: &str) -> (r: Self)
        ensures
            r@ == (PickView { choice, label: label@, detail: detail@, disabled: None }),
    {
        PickerRow { choice, label: label.to_owned(), detail: detail.to_owned(), disabled: None }
    }

    /// The same row, refused with a reason.
    #[must_use]
    pub fn refused(self, reason: &str) -> (r: Self)
        ensures
            r@ == (PickView { disabled: Some(reason@), ..self@ }),
    {
        PickerRow { disabled: Some(reason.to_owned()), ..self }
    }
}

/// What pressing Enter produced.
#[derive(Debug, PartialEq, Eq)]
pub enum PickerStep {
    /// The picker moved on.
    Moved,
    /// A selection was committed: save it, then check it.
    Commit {
        /// Provider id.
        provider: String,
        /// Model id.
        model: String,
        /// Thinking setting, already checked against the model.
        thinking: Option<Thinking>,
    },
    /// A key was typed: store it, then continue.
    KeyTyped {
        /// Which provider.
        provider: String,
        /// The key, to be stored and never shown again.
        key: String,
    },
    /// Nothing happened: the row was refused, or the list was empty.
    Refused(String),
}

/// An optional text as it is logged.
pub open spec fn logged(text: Option<Seq<char>>) -> Seq<char> {
    match text {
        Some(text) => "Some("@ + debugged(text) + ")"@,
        None => "None"@,
    }
}

fn log_text(text: &Option<String>) -> (r: String)
    ensures
        r@ == logged(opt_view(*text)),
{
    match text {
        Some(text) => concat3("Some(", debug(text.as_str()).as_str(), ")"),
        None => "None".to_owned(),
    }
}

/// A thinking setting as it is logged.
pub open spec fn logged_thinking(thinking: Option<Thinking>) -> Seq<char> {
    match thinking {
        Some(Thinking::Effort { value }) => "Some(Effort { value: "@ + debugged(value@) + " })"@,
        Some(Thinking::Toggle { value }) => "Some(Toggle { value: "@ + truth(value) + " })"@,
        Some(Thinking::Budget { tokens }) => "Some(Budget { tokens: "@ + decimal(tokens as nat)
            + " })"@,
        None => "None"@,
    }
}

fn log_thinking(thinking: &Option<Thinking>) -> (r: String)
    ensures
        r@ == logged_thinking(*thinking),
{
    match thinking {
        Some(Thinking::Effort { value }) => concat3(
            "Some(Effort { value: ",
            debug(value.as_str()).as_str(),
            " })",
        ),
        Some(Thinking::Toggle { value }) => concat3(
            "Some(Toggle { value: ",
            truth_word(*value),
            " })",
        ),
        Some(Thinking::Budget { tokens }) => concat3(
            "Some(Budget { tokens: ",
            number(*tokens as u64).as_str(),
            " })",
        ),
        None => "None".to_owned(),
    }
}

/// The picker's state.
///
/// It holds a key that is being typed, so it has no derived `Debug`: [`Self::describe`] shows
/// everything but the key.
pub struct PickerState {
    /// Which step the picker is on.
    pub step: Step,
    /// The filter text.
    pub query: String,
    /// The row the cursor is on.
    pub cursor: usize,
    /// The rows of the step.
    pub rows: Vec<PickerRow>,
    /// The provider chosen so far.
    pub provider: Option<String>,
    /// The model chosen so far.
    pub model: Option<String>,
    /// The thinking setting chosen so far.
    pub thinking: Option<Thinking>,
    /// The key being typed.
    pub key_input: String,
    /// Whether a key exists for the chosen provider.
    pub key_present: bool,
    /// Whether a check is in flight.
    pub checking: bool,
    /// The message under the list.
    pub notice: Option<String>,
}

impl Default for PickerState {
    fn default() -> (r: Self)
        ensures
            r.is_fresh(),
    {
        PickerState::new()
    }
}

/// A text without its last character.
pub open spec fn shortened(s: Seq<char>) -> Seq<char> {
    if s.len() > 0 { s.drop_last() } else { s }
}

/// Takes the last character off a text.
pub fn shorten(text: &str) -> (out: String)
    ensures
        out@ == shortened(text@),
{
    let chars = characters(text);
    if chars.len() == 0 {
        return text.to_owned();
    }
    collected(&chars.as_slice()[0..chars.len() - 1])
}

/// What Enter produced and did not say in words.
pub open spec fn refusal(step: PickerStep, reason: Seq<char>) -> bool {
    step is Refused && step->Refused_0@ == reason
}

/// What the rows of a picker are drawn as.
pub open spec fn row_line(row: PickView) -> Seq<SpanView> {
    let label = seq![SpanView { text: row.label, paint: Paint::none() }];
    let gap = SpanView { text: "  "@, paint: Paint::none() };
    let with_detail = if row.detail.len() > 0 {
        label.push(gap).push(span(row.detail, Element::Muted))
    } else {
        label
    };
    match row.disabled {
        Some(reason) => with_detail.push(gap).push(
            span("unavailable: "@ + reason, Element::NoticeWarn),
        ),
        None => with_detail,
    }
}

/// The rows' contents, one by one.
pub open spec fn pick_views(rows: Seq<PickerRow>) -> Seq<PickView> {
    rows.map_values(|r: PickerRow| r@)
}

/// Everything a frame draws of the picker.
#[derive(Debug, PartialEq, Eq)]
pub struct PickerFrame {
    /// The box.
    pub area: Rect,
    /// The title in its border.
    pub title: String,
    /// Where the header is drawn.
    pub header_area: Rect,
    /// The header.
    pub header: Line,
    /// Where the list is drawn.
    pub list_area: Rect,
    /// The list.
    pub rows: Vec<Line>,
    /// The row that is selected.
    pub selected: Option<usize>,
    /// Where the footer is drawn.
    pub footer_area: Rect,
    /// The footer.
    pub footer: Vec<Line>,
}

/// A number kept between two bounds.
pub open spec fn clamped(n: int, low: int, high: int) -> int {
    if n < low { low } else if n > high { high } else { n }
}

/// Where a cursor is after a move among `len` rows.
pub open spec fn picker_moved(cursor: nat, delta: int, len: nat) -> int {
    let current = if cursor <= i64::MAX { cursor as int } else { 0 };
    let last = if len - 1 <= i64::MAX { len - 1 } else { i64::MAX as int };
    if len == 0 { 0 } else { clamped(current + delta, 0, last) }
}

impl PickerState {
    /// Whether nothing has been chosen or typed.
    pub open spec fn is_fresh(&self) -> bool {
        &&& self.step == Step::Provider
        &&& self.query@.len() == 0
        &&& self.cursor == 0
        &&& self.rows@.len() == 0
        &&& self.provider is None
        &&& self.model is None
        &&& self.thinking is None
        &&& self.key_input@.len() == 0
        &&& !self.key_present
        &&& !self.checking
        &&& self.notice is None
    }

    /// Whether the cursor is on a row, or at zero where there is none.
    pub open spec fn cursor_fits(&self) -> bool {
        self.cursor < self.rows@.len() || (self.cursor == 0 && self.rows@.len() == 0)
    }

    /// A picker at the first step.
    #[must_use]
    pub fn new() -> (r: Self)
        ensures
            r.is_fresh(),
    {
        PickerState {
            step: Step::Provider,
            query: String::new(),
            cursor: 0,
            rows: Vec::new(),
            provider: None,
            model: None,
            thinking: None,
            key_input: String::new(),
            key_present: false,
            checking: false,
            notice: None,
        }
    }

    /// The current step.
    #[must_use]
    pub fn step(&self) -> (r: Step)
        ensures
            r == self.step,
    {
        self.step
    }

    /// The filter text.
    #[must_use]
    pub fn query(&self) -> (r: &str)
        ensures
            r@ == self.query@,
    {
        self.query.as_str()
    }

    /// The row the cursor is on.
    #[must_use]
    pub fn cursor(&self) -> (r: usize)
        ensures
            r == self.cursor,
    {
        self.cursor
    }

    /// The rows to draw.
    #[must_use]
    pub fn rows(&self) -> (r: &[PickerRow])
        ensures
            r@ == self.rows@,
    {
        self.rows.as_slice()
    }

    /// The provider chosen so far.
    #[must_use]
    pub fn provider(&self) -> (r: Option<&str>)
        ensures
            match r {
                Some(id) => opt_view(self.provider) == Some(id@),
                None => self.provider is None,
            },
    {
        match &self.provider {
            Some(id) => Some(id.as_str()),
            None => None,
        }
    }

    /// The model chosen so far.
    #[must_use]
    pub fn model(&self) -> (r: Option<&str>)
        ensures
            match r {
                Some(id) => opt_view(self.model) == Some(id@),
                None => self.model is None,
            },
    {
        match &self.model {
            Some(id) => Some(id.as_str()),
            None => None,
        }
    }

    /// The thinking setting chosen so far.
    #[must_use]
    pub fn thinking(&self) -> (r: Option<&Thinking>)
        ensures
            match r {
                Some(thinking) => self.thinking == Some(*thinking),
                None => self.thinking is None,
            },
    {
        match &self.thinking {
            Some(thinking) => Some(thinking),
            None => None,
        }
    }

    /// How many characters of a key have been typed, never the key itself.
    #[must_use]
    pub fn key_len(&self) -> (n: usize)
        ensures
            n == self.key_input@.len(),
    {
        self.key_input.as_str().unicode_len()
    }

    /// Whether a check is in flight.
    #[must_use]
    pub fn is_checking(&self) -> (r: bool)
        ensures
            r == self.checking,
    {
        self.checking
    }

    /// The message under the list.
    #[must_use]
    pub fn notice(&self) -> (r: Option<&str>)
        ensures
            match r {
                Some(text) => opt_view(self.notice) == Some(text@),
                None => self.notice is None,
            },
    {
        match &self.notice {
            Some(text) => Some(text.as_str()),
            None => None,
        }
    }

    /// Replaces the rows, keeping the cursor inside them.
    pub fn set_rows(&mut self, rows: Vec<PickerRow>)
        ensures
            *final(self) == (PickerState {
                rows,
                cursor: crate::diff_view::clamped_cursor(old(self).cursor as nat, rows@.len()) as usize,
                ..*old(self)
            }),
            final(self).cursor_fits(),
    {
        let len: usize = rows.len();
        self.rows = rows;
        if self.cursor >= len {
            self.cursor = if len > 0 { len - 1 } else { 0 };
        }
    }

    /// Records whether a key already exists for the chosen provider.
    pub fn set_key_present(&mut self, present: bool)
        ensures
            *final(self) == (PickerState { key_present: present, ..*old(self) }),
    {
        self.key_present = present;
    }

    /// Shows a message, or clears it.
    pub fn set_notice(&mut self, notice: Option<String>)
        ensures
            *final(self) == (PickerState { notice, ..*old(self) }),
    {
        self.notice = notice;
    }

    /// Marks the connection check as running or finished.
    pub fn set_checking(&mut self, checking: bool)
        ensures
            *final(self) == (PickerState { checking, ..*old(self) }),
    {
        self.checking = checking;
    }

    /// The picker with its cursor moved.
    pub open spec fn moved(self, delta: int) -> PickerState {
        PickerState {
            cursor: picker_moved(self.cursor as nat, delta, self.rows@.len()) as usize,
            ..self
        }
    }

    /// Moves the cursor, clamping at both ends.
    pub fn move_cursor(&mut self, delta: i32)
        ensures
            *final(self) == old(self).moved(delta as int),
            final(self).cursor_fits(),
    {
        if self.rows.len() == 0 {
            self.cursor = 0;
            return;
        }
        let end: usize = self.rows.len() - 1;
        let last: i64 = if end as u64 <= i64::MAX as u64 { end as i64 } else { i64::MAX };
        let current: i64 = if self.cursor as u64 <= i64::MAX as u64 { self.cursor as i64 } else { 0 };
        let next: i128 = current as i128 + delta as i128;
        self.cursor = if next < 0 { 0 } else if next > last as i128 { last as usize } else { next as usize };
    }

    /// Whether a character was added to whatever this step is typing.
    pub open spec fn typed(&self, after: &PickerState, character: char) -> bool {
        &&& *after == (PickerState {
            key_input: after.key_input,
            query: after.query,
            cursor: if self.step == Step::Key { self.cursor } else { 0 },
            ..*self
        })
        &&& after.key_input@ == if self.step == Step::Key {
            self.key_input@.push(character)
        } else {
            self.key_input@
        }
        &&& after.query@ == if self.step == Step::Provider || self.step
            == Step::Model {
            self.query@.push(character)
        } else {
            self.query@
        }
    }

    /// Adds a character to whatever this step is typing.
    pub fn push_char(&mut self, character: char)
        ensures
            old(self).typed(final(self), character),
    {
        match self.step {
            Step::Key => {
                self.key_input.push(character);
            },
            Step::Provider | Step::Model => {
                self.query.push(character);
            },
            Step::Thinking | Step::Confirm => {},
        }
        if self.step != Step::Key {
            self.cursor = 0;
        }
    }

    /// Whether the last character was removed.
    pub open spec fn erased(&self, after: &PickerState) -> bool {
        &&& *after == (PickerState {
            key_input: after.key_input,
            query: after.query,
            cursor: if self.step == Step::Provider || self.step == Step::Model {
                0
            } else {
                self.cursor
            },
            ..*self
        })
        &&& after.key_input@ == if self.step == Step::Key {
            shortened(self.key_input@)
        } else {
            self.key_input@
        }
        &&& after.query@ == if self.step == Step::Provider || self.step
            == Step::Model {
            shortened(self.query@)
        } else {
            self.query@
        }
    }

    /// Removes the last character.
    pub fn backspace(&mut self)
        ensures
            old(self).erased(final(self)),
    {
        match self.step {
            Step::Key => {
                self.key_input = shorten(self.key_input.as_str());
            },
            Step::Provider | Step::Model => {
                self.query = shorten(self.query.as_str());
                self.cursor = 0;
            },
            Step::Thinking | Step::Confirm => {},
        }
    }

    /// Whether the search box was emptied, which there is none of where a key is typed.
    pub open spec fn cleared(&self, after: &PickerState) -> bool {
        &&& self.step == Step::Key ==> *after == *self
        &&& self.step != Step::Key ==> *after == (PickerState {
            query: after.query,
            cursor: 0,
            ..*self
        }) && after.query@.len() == 0
    }

    /// Clears the search box.
    pub fn clear_query(&mut self)
        ensures
            old(self).cleared(final(self)),
    {
        if self.step != Step::Key {
            self.query = String::new();
            self.cursor = 0;
        }
    }

    /// The step that `Esc` leads to.
    pub open spec fn previous(&self) -> Option<Step> {
        match self.step {
            Step::Provider => None,
            Step::Model => Some(Step::Provider),
            Step::Thinking => Some(Step::Model),
            Step::Key => Some(if self.model is Some { Step::Confirm } else { Step::Model }),
            Step::Confirm => Some(Step::Thinking),
        }
    }

    /// Whether this went back one step, where there is one.
    pub open spec fn went_back(&self, after: &PickerState, r: bool) -> bool {
        &&& r == (self.previous() is Some)
        &&& match self.previous() {
            None => *after == (PickerState { notice: None, ..*self }),
            Some(step) => {
                &&& *after == (PickerState {
                    step,
                    cursor: 0,
                    notice: None,
                    query: after.query,
                    key_input: after.key_input,
                    provider: if self.step == Step::Model {
                        None
                    } else {
                        self.provider
                    },
                    model: if self.step == Step::Thinking {
                        None
                    } else {
                        self.model
                    },
                    thinking: if self.step == Step::Thinking {
                        None
                    } else {
                        self.thinking
                    },
                    ..*self
                })
                &&& after.query@ == if self.step == Step::Model || self.step
                    == Step::Thinking {
                    Seq::<char>::empty()
                } else {
                    self.query@
                }
                &&& after.key_input@ == if self.step == Step::Key {
                    Seq::<char>::empty()
                } else {
                    self.key_input@
                }
            },
        }
    }

    /// Goes back one step.
    ///
    /// Returns `false` when there is nowhere to go, which is the caller's signal to close the
    /// picker.
    pub fn step_back(&mut self) -> (r: bool)
        ensures
            old(self).went_back(final(self), r),
    {
        self.notice = None;
        match self.step {
            Step::Provider => {
                return false;
            },
            Step::Model => {
                self.step = Step::Provider;
                self.provider = None;
                self.query = String::new();
            },
            Step::Thinking => {
                self.step = Step::Model;
                self.model = None;
                self.thinking = None;
                self.query = String::new();
            },
            Step::Key => {
                self.step = if self.model.is_some() { Step::Confirm } else { Step::Model };
                self.key_input = String::new();
            },
            Step::Confirm => {
                self.step = Step::Thinking;
            },
        }
        self.cursor = 0;
        true
    }

    /// Moves on from the key step, once the key is stored.
    pub fn key_stored(&mut self)
        ensures
            *final(self) == (PickerState {
                key_input: final(self).key_input,
                key_present: true,
                step: Step::Confirm,
                cursor: 0,
                notice: final(self).notice,
                ..*old(self)
            }),
            final(self).key_input@.len() == 0,
            opt_view(final(self).notice) == Some("key saved to credentials.toml (mode 0600)"@),
    {
        self.key_input = String::new();
        self.key_present = true;
        self.step = Step::Confirm;
        self.cursor = 0;
        self.notice = Some("key saved to credentials.toml (mode 0600)".to_owned());
    }

    /// What Enter does on a row that can be chosen.
    pub open spec fn chosen(&self, choice: RowChoice, after: &PickerState, r: PickerStep) -> bool {
        match (self.step, choice) {
            (Step::Provider, RowChoice::Provider(id)) => {
                &&& r is Moved
                &&& *after == (PickerState {
                    provider: Some(id),
                    step: Step::Model,
                    query: after.query,
                    cursor: 0,
                    notice: None,
                    ..*self
                })
                &&& after.query@.len() == 0
            },
            (Step::Model, RowChoice::Model(id)) => {
                &&& r is Moved
                &&& *after == (PickerState {
                    model: Some(id),
                    step: Step::Thinking,
                    query: after.query,
                    cursor: 0,
                    notice: None,
                    ..*self
                })
                &&& after.query@.len() == 0
            },
            (Step::Thinking, RowChoice::Thinking(thinking)) => {
                &&& r is Moved
                &&& *after == (PickerState {
                    thinking: Some(thinking),
                    step: if self.key_present { Step::Confirm } else { Step::Key },
                    cursor: 0,
                    notice: None,
                    ..*self
                })
            },
            (Step::Key, _) => match self.provider {
                None => {
                    &&& refusal(r, "choose a provider first"@)
                    &&& *after == (PickerState { notice: None, ..*self })
                },
                Some(provider) => if trimmed(self.key_input@).len() == 0 {
                    &&& refusal(r, "the key is empty"@)
                    &&& *after == (PickerState { notice: after.notice, ..*self })
                    &&& opt_view(after.notice) == Some("type or paste the key first"@)
                } else {
                    &&& r == (PickerStep::KeyTyped { provider, key: self.key_input })
                    &&& *after == (PickerState { notice: None, ..*self })
                },
            },
            (Step::Confirm, _) => {
                &&& *after == (PickerState { notice: None, ..*self })
                &&& match (self.provider, self.model) {
                    (Some(provider), Some(model)) => r == (PickerStep::Commit {
                        provider,
                        model,
                        thinking: self.thinking,
                    }),
                    _ => refusal(r, "choose a model first"@),
                }
            },
            _ => {
                &&& refusal(r, "that choice does not belong on this step"@)
                &&& *after == (PickerState { notice: None, ..*self })
            },
        }
    }

    /// What Enter does.
    pub open spec fn advanced(&self, after: &PickerState, r: PickerStep) -> bool {
        &&& if self.cursor >= self.rows@.len() {
            &&& refusal(r, "nothing is selected"@)
            &&& *after == *self
        } else {
            let row = self.rows@[self.cursor as int];
            match row.disabled {
                Some(reason) => {
                    &&& refusal(r, reason@)
                    &&& *after == (PickerState { notice: Some(reason), ..*self })
                },
                None => self.chosen(row.choice, after, r),
            }
        }
    }

    /// What Enter does from here.
    pub fn advance(&mut self) -> (r: PickerStep)
        ensures
            old(self).advanced(final(self), r),
    {
        if self.cursor >= self.rows.len() {
            return PickerStep::Refused("nothing is selected".to_owned());
        }
        let row = self.rows[self.cursor].clone();
        match row.disabled {
            Some(reason) => {
                self.notice = Some(reason.clone());
                return PickerStep::Refused(reason);
            },
            None => {},
        }
        self.notice = None;
        match (self.step, row.choice) {
            (Step::Provider, RowChoice::Provider(id)) => {
                self.provider = Some(id);
                self.step = Step::Model;
                self.query = String::new();
                self.cursor = 0;
                PickerStep::Moved
            },
            (Step::Model, RowChoice::Model(id)) => {
                self.model = Some(id);
                self.step = Step::Thinking;
                self.query = String::new();
                self.cursor = 0;
                PickerStep::Moved
            },
            (Step::Thinking, RowChoice::Thinking(thinking)) => {
                self.thinking = Some(thinking);
                self.step = if self.key_present { Step::Confirm } else { Step::Key };
                self.cursor = 0;
                PickerStep::Moved
            },
            (Step::Key, _) => match &self.provider {
                None => PickerStep::Refused("choose a provider first".to_owned()),
                Some(provider) => {
                    if trim(self.key_input.as_str()).as_str().is_empty() {
                        self.notice = Some("type or paste the key first".to_owned());
                        PickerStep::Refused("the key is empty".to_owned())
                    } else {
                        PickerStep::KeyTyped {
                            provider: provider.clone(),
                            key: self.key_input.clone(),
                        }
                    }
                },
            },
            (Step::Confirm, _) => match (&self.provider, &self.model) {
                (Some(provider), Some(model)) => PickerStep::Commit {
                    provider: provider.clone(),
                    model: model.clone(),
                    thinking: copy_thinking(&self.thinking),
                },
                _ => PickerStep::Refused("choose a model first".to_owned()),
            },
            _ => PickerStep::Refused("that choice does not belong on this step".to_owned()),
        }
    }

    /// What is logged of the picker: everything but the key, of which only the length is told.
    pub open spec fn described(&self) -> Seq<char> {
        "PickerState { step: "@ + self.step.variant() + ", query: "@ + debugged(self.query@)
            + ", cursor: "@ + decimal(self.cursor as nat) + ", rows: "@ + decimal(self.rows@.len())
            + ", provider: "@ + logged(opt_view(self.provider)) + ", model: "@ + logged(
            opt_view(self.model),
        ) + ", thinking: "@ + logged_thinking(self.thinking) + ", key_input: \"<"@ + decimal(
            self.key_input@.len(),
        ) + " characters, redacted>\", key_present: "@ + truth(self.key_present) + ", checking: "@
            + truth(self.checking) + ", notice: "@ + logged(opt_view(self.notice)) + " }"@
    }

    /// What is logged of the picker: everything but the key, of which only the length is told.
    #[must_use]
    pub fn describe(&self) -> (r: String)
        ensures
            r@ == self.described(),
    {
        let mut out = concat3("PickerState { step: ", self.step.variant_name(), ", query: ");
        out.append(debug(self.query.as_str()).as_str());
        out.append(", cursor: ");
        out.append(number(self.cursor as u64).as_str());
        out.append(", rows: ");
        out.append(number(self.rows.len() as u64).as_str());
        out.append(", provider: ");
        out.append(log_text(&self.provider).as_str());
        out.append(", model: ");
        out.append(log_text(&self.model).as_str());
        out.append(", thinking: ");
        out.append(log_thinking(&self.thinking).as_str());
        out.append(", key_input: \"<");
        out.append(number(self.key_len() as u64).as_str());
        out.append(" characters, redacted>\", key_present: ");
        out.append(truth_word(self.key_present));
        out.append(", checking: ");
        out.append(truth_word(self.checking));
        out.append(", notice: ");
        out.append(log_text(&self.notice).as_str());
        out.append(" }");
        out
    }

    /// The line above the list: the masked key, or the filter and the choice so far.
    pub open spec fn header(&self) -> Seq<SpanView> {
        if self.step == Step::Key {
            seq![
                span("key: "@, Element::Accent),
                SpanView { text: repeated('•', self.key_input@.len()), paint: Paint::none() },
                span(
                    "  ("@ + decimal(self.key_input@.len()) + " characters)"@,
                    Element::Muted,
                ),
            ]
        } else {
            let filter = seq![
                span("filter: "@, Element::Accent),
                SpanView { text: self.query@, paint: Paint::none() },
            ];
            let with_provider = match self.provider {
                Some(id) => filter.push(span("   provider: "@ + id@, Element::Muted)),
                None => filter,
            };
            match self.model {
                Some(id) => with_provider.push(span("   model: "@ + id@, Element::Muted)),
                None => with_provider,
            }
        }
    }

    /// What the keys do on this step.
    pub open spec fn hint(&self) -> Seq<char> {
        if self.rows@.len() == 0 && self.step != Step::Key {
            "nothing matches; <C-u> clears the filter"@
        } else {
            match self.step {
                Step::Key => "type or paste the key · Enter saves · Esc goes back"@,
                Step::Confirm => "Enter saves the choice and checks it with the provider · Esc goes back"@,
                _ => "<C-n>/<C-p> or ↑/↓ move · Enter chooses · Esc goes back"@,
            }
        }
    }

    /// The lines below the list: what is being checked or was said, and what the keys do.
    pub open spec fn footer(&self, checking: Option<Seq<char>>) -> Seq<Seq<SpanView>> {
        let hint = line_of(self.hint(), Element::Muted);
        match (checking, self.notice) {
            (Some(label), _) => seq![line_of(label, Element::NoticeInfo), hint],
            (None, Some(notice)) => seq![line_of(notice@, Element::Muted), hint],
            (None, None) => seq![hint],
        }
    }

    fn header_line(&self) -> (line: Line)
        ensures
            line@ == self.header(),
    {
        let mut line = Line::new();
        if self.step == Step::Key {
            let typed: usize = self.key_len();
            line.add_text("key: ", Element::Accent);
            line.push(repeat('•', typed), unpainted());
            line.push(
                concat3("  (", number(typed as u64).as_str(), " characters)"),
                plain(Element::Muted),
            );
        } else {
            line.add_text("filter: ", Element::Accent);
            line.push(self.query.clone(), unpainted());
            let ghost filter = line@;
            match &self.provider {
                Some(id) => {
                    line.push(concat2("   provider: ", id.as_str()), plain(Element::Muted));
                },
                None => {},
            }
            match &self.model {
                Some(id) => {
                    line.push(concat2("   model: ", id.as_str()), plain(Element::Muted));
                },
                None => {},
            }
        }
        assert(line@ =~= self.header());
        line
    }

    fn row_lines(&self) -> (lines: Vec<Line>)
        ensures
            page(lines@) == pick_views(self.rows@).map_values(|row: PickView| row_line(row)),
    {
        broadcast use group_page;
        let mut lines: Vec<Line> = Vec::new();
        let ghost wanted = pick_views(self.rows@).map_values(|row: PickView| row_line(row));
        let mut i: usize = 0;
        assert(page(lines@) =~= wanted.subrange(0, 0));
        while i < self.rows.len()
            invariant
                i <= self.rows@.len(),
                wanted == pick_views(self.rows@).map_values(|row: PickView| row_line(row)),
                page(lines@) == wanted.subrange(0, i as int),
            decreases self.rows@.len() - i,
        {
            let row: &PickerRow = &self.rows[i];
            let mut line = Line::new();
            line.push(row.label.clone(), unpainted());
            if !row.detail.as_str().is_empty() {
                line.push("  ".to_owned(), unpainted());
                line.push(row.detail.clone(), plain(Element::Muted));
            }
            match &row.disabled {
                Some(reason) => {
                    line.push("  ".to_owned(), unpainted());
                    line.push(concat2("unavailable: ", reason.as_str()), plain(Element::NoticeWarn));
                },
                None => {},
            }
            assert(line@ =~= row_line(row@));
            lines.push(line);
            i += 1;
            assert(wanted.subrange(0, i as int) =~= wanted.subrange(0, i - 1).push(wanted[i - 1]));
        }
        assert(wanted.subrange(0, i as int) =~= wanted);
        lines
    }

    fn footer_lines(&self, checking_label: Option<&str>) -> (lines: Vec<Line>)
        ensures
            page(lines@) == self.footer(
                match checking_label {
                    Some(label) => Some(label@),
                    None => None,
                },
            ),
    {
        broadcast use group_page;
        let mut lines: Vec<Line> = Vec::new();
        match checking_label {
            Some(label) => {
                lines.push(Line::literal(label, Element::NoticeInfo));
            },
            None => match &self.notice {
                Some(notice) => {
                    lines.push(Line::literal(notice.as_str(), Element::Muted));
                },
                None => {},
            },
        }
        let hint: &str = if self.rows.len() == 0 && self.step != Step::Key {
            "nothing matches; <C-u> clears the filter"
        } else {
            match self.step {
                Step::Key => "type or paste the key · Enter saves · Esc goes back",
                Step::Confirm => "Enter saves the choice and checks it with the provider · Esc goes back",
                _ => "<C-n>/<C-p> or ↑/↓ move · Enter chooses · Esc goes back",
            }
        };
        lines.push(Line::literal(hint, Element::Muted));
        assert(page(lines@) =~= self.footer(
            match checking_label {
                Some(label) => Some(label@),
                None => None,
            },
        ));
        lines
    }

    /// The box of a picker in an area.
    pub open spec fn box_in(area: Rect) -> Rect {
        centered_in(
            area,
            clamped(if area.width > 8 { area.width - 8 } else { 0 }, 40, 88) as u16,
            clamped(if area.height > 4 { area.height - 4 } else { 0 }, 10, 22) as u16,
        )
    }

    /// Whether a frame is how the picker is laid out in an area: the box, the header, the list and
    /// the footer, and what each says.
    ///
    /// In a box too low for all three, the list has three rows, as far as there are that many, and
    /// the other two share what is left.
    pub open spec fn laid_out(
        &self,
        area: Rect,
        checking: Option<Seq<char>>,
        frame: PickerFrame,
    ) -> bool {
        let inner = frame.area.framed();
        &&& frame.area == PickerState::box_in(area)
        &&& frame.title@ == " "@ + self.step.name() + " — model "@
        &&& is_in_three(
            Direction::Vertical,
            1,
            3,
            2,
            inner,
            (frame.header_area, frame.list_area, frame.footer_area),
        )
        &&& frame.header@ == self.header()
        &&& page(frame.rows@) == pick_views(self.rows@).map_values(|row: PickView| row_line(row))
        &&& frame.selected == if self.rows@.len() > 0 { Some(self.cursor) } else { None }
        &&& page(frame.footer@) == self.footer(checking)
    }

    /// Lays the picker out: the box, the header, the list and the footer, and what each says.
    ///
    /// In a box too low for all three, the list has three rows, as far as there are that many, and
    /// the other two share what is left.
    #[must_use]
    pub fn render(&self, area: Rect, checking_label: Option<&str>) -> (r: PickerFrame)
        requires
            area.x + area.width <= u16::MAX,
            area.y + area.height <= u16::MAX,
        ensures
            self.laid_out(
                area,
                match checking_label {
                    Some(label) => Some(label@),
                    None => None,
                },
                r,
            ),
    {
        let wide: u16 = area.width.saturating_sub(8);
        let width: u16 = if wide < 40 { 40 } else if wide > 88 { 88 } else { wide };
        let tall: u16 = area.height.saturating_sub(4);
        let height: u16 = if tall < 10 { 10 } else if tall > 22 { 22 } else { tall };
        let box_area = centered(area, width, height);
        let parts = split_three(Direction::Vertical, 1, 3, 2, box_area.inside());
        PickerFrame {
            area: box_area,
            title: concat3(" ", self.step.title(), " — model "),
            header_area: parts.0,
            header: self.header_line(),
            list_area: parts.1,
            rows: self.row_lines(),
            selected: if self.rows.len() > 0 { Some(self.cursor) } else { None },
            footer_area: parts.2,
            footer: self.footer_lines(checking_label),
        }
    }
}

/// Two keys of one length look the same in everything that is shown or logged of a picker, and on
/// every step but that of the key nothing that is shown depends on the key at all.
///
/// How the header and the footer share one or two rows, which is all that a box of four or five
/// leaves them, is the layout's choice.
pub proof fn lemma_the_key_is_never_shown(
    a: PickerState,
    b: PickerState,
    area: Rect,
    checking: Option<Seq<char>>,
    seen: PickerFrame,
    instead: PickerFrame,
)
    requires
        area.x + area.width <= u16::MAX,
        area.y + area.height <= u16::MAX,
        b == (PickerState { key_input: b.key_input, ..a }),
        a.key_input@.len() == b.key_input@.len() || a.step != Step::Key,
        a.laid_out(area, checking, seen),
        b.laid_out(area, checking, instead),
    ensures
        seen.area == instead.area,
        seen.title@ == instead.title@,
        seen.header@ == instead.header@,
        page(seen.rows@) == page(instead.rows@),
        seen.selected == instead.selected,
        page(seen.footer@) == page(instead.footer@),
        seen.list_area.height == instead.list_area.height,
        seen.area.framed().height != 4 && seen.area.framed().height != 5 ==> seen.header_area
            == instead.header_area && seen.list_area == instead.list_area && seen.footer_area
            == instead.footer_area,
        a.key_input@.len() == b.key_input@.len() ==> a.described() == b.described(),
{
}

/// While a key is typed, the header shows a dot for each of its characters and how many they are.
pub proof fn lemma_a_typed_key_is_shown_as_dots(picker: PickerState)
    requires
        picker.step == Step::Key,
    ensures
        picker.header() == seq![
            span("key: "@, Element::Accent),
            SpanView { text: repeated('•', picker.key_input@.len()), paint: Paint::none() },
            span("  ("@ + decimal(picker.key_input@.len()) + " characters)"@, Element::Muted),
        ],
{
}

/// The row of a provider.
pub open spec fn provider_row(provider: ProviderChoice) -> PickView {
    PickView {
        choice: RowChoice::Provider(provider.id),
        label: provider.label@,
        detail: provider.route_label@ + " · "@ + decimal(provider.model_count as nat) + " models"@,
        disabled: None,
    }
}

/// The rows of those of the first `n` providers that a search keeps.
pub open spec fn provider_rows_of(
    providers: Seq<ProviderChoice>,
    query: Seq<char>,
    matched: Seq<bool>,
    n: nat,
) -> Seq<PickView>
    decreases n,
{
    if n == 0 {
        Seq::empty()
    } else {
        let before = provider_rows_of(providers, query, matched, (n - 1) as nat);
        if trimmed(query).len() == 0 || (n <= matched.len() && matched[n - 1]) {
            before.push(provider_row(providers[n - 1]))
        } else {
            before
        }
    }
}

/// The rows for the provider step: reachable providers only.
///
/// `matched` says of each provider whether the search finds the query in its name or id; without
/// a query every provider has a row.
#[must_use]
pub fn provider_rows(state: &CatalogState, query: &str, matched: &Vec<bool>) -> (rows: Vec<PickerRow>)
    ensures
        pick_views(rows@) == provider_rows_of(
            state.providers@,
            query@,
            matched@,
            state.providers@.len(),
        ),
{
    let all: bool = trim(query).as_str().is_empty();
    let mut rows: Vec<PickerRow> = Vec::new();
    let mut i: usize = 0;
    assert(pick_views(rows@) =~= Seq::empty());
    while i < state.providers.len()
        invariant
            i <= state.providers@.len(),
            all == (trimmed(query@).len() == 0),
            pick_views(rows@) == provider_rows_of(state.providers@, query@, matched@, i as nat),
        decreases state.providers@.len() - i,
    {
        let provider: &ProviderChoice = &state.providers[i];
        if all || (i < matched.len() && matched[i]) {
            let mut detail = concat3(
                provider.route_label.as_str(),
                " · ",
                number(provider.model_count as u64).as_str(),
            );
            detail.append(" models");
            let row = PickerRow::new(
                RowChoice::Provider(provider.id.clone()),
                provider.label.as_str(),
                detail.as_str(),
            );
            let ghost before = rows@;
            rows.push(row);
            assert(pick_views(rows@) =~= pick_views(before).push(row@));
        }
        i += 1;
    }
    rows
}

/// The row of a model.
pub open spec fn model_row(model: ModelChoice) -> PickView {
    let older = if model.dated { model.badges@ + " · older"@ } else { model.badges@ };
    PickView {
        choice: RowChoice::Model(model.id),
        label: model.label@,
        detail: if model.thinks { older } else { older + " · no thinking control"@ },
        disabled: None,
    }
}

/// The rows of models, one for each.
pub open spec fn model_rows_of(choices: Seq<ModelChoice>) -> Seq<PickView> {
    choices.map_values(|model: ModelChoice| model_row(model))
}

/// The rows for the model step, in the order the search ranked them.
#[must_use]
pub fn model_rows(choices: &Vec<ModelChoice>) -> (rows: Vec<PickerRow>)
    ensures
        pick_views(rows@) == model_rows_of(choices@),
{
    let mut rows: Vec<PickerRow> = Vec::new();
    let ghost wanted = choices@.map_values(|model: ModelChoice| model_row(model));
    let mut i: usize = 0;
    assert(pick_views(rows@) =~= wanted.subrange(0, 0));
    while i < choices.len()
        invariant
            i <= choices@.len(),
            wanted == choices@.map_values(|model: ModelChoice| model_row(model)),
            pick_views(rows@) == wanted.subrange(0, i as int),
        decreases choices@.len() - i,
    {
        let model: &ModelChoice = &choices[i];
        let mut detail: String = model.badges.clone();
        if model.dated {
            detail.append(" · older");
        }
        if !model.thinks {
            detail.append(" · no thinking control");
        }
        let row = PickerRow::new(
            RowChoice::Model(model.id.clone()),
            model.label.as_str(),
            detail.as_str(),
        );
        let ghost before = rows@;
        rows.push(row);
        i += 1;
        assert(pick_views(rows@) =~= pick_views(before).push(row@));
        assert(wanted.subrange(0, i as int) =~= wanted.subrange(0, i - 1).push(wanted[i - 1]));
    }
    assert(wanted.subrange(0, i as int) =~= wanted);
    rows
}

/// The row of a thinking setting, refused where the model refuses it.
pub open spec fn thinking_row(choice: ThinkingChoice) -> PickView {
    PickView {
        choice: RowChoice::Thinking(choice.thinking),
        label: choice.label@,
        detail: if choice.needs_input { "asks for a token count"@ } else { ""@ },
        disabled: opt_view(choice.refusal),
    }
}

/// The row that says a model has no thinking settings.
pub open spec fn no_thinking_row() -> PickView {
    PickView {
        choice: RowChoice::Thinking(Thinking::Toggle { value: false }),
        label: "off"@,
        detail: "this model declares no thinking controls"@,
        disabled: Some("the model does not offer a thinking control"@),
    }
}

/// The rows of a model's thinking settings, one for each, or that it has none.
pub open spec fn thinking_rows_of(choices: Seq<ThinkingChoice>) -> Seq<PickView> {
    if choices.len() == 0 {
        seq![no_thinking_row()]
    } else {
        choices.map_values(|choice: ThinkingChoice| thinking_row(choice))
    }
}

/// The rows for the thinking step, with refusals shown rather than hidden.
#[must_use]
pub fn thinking_rows(state: &CatalogState, provider: &str, model: &str) -> (rows: Vec<PickerRow>)
    ensures
        match state.entry(provider@, model@) {
            None => rows@.len() == 0,
            Some(entry) => pick_views(rows@) == thinking_rows_of(entry.thinking@),
        },
{
    let mut rows: Vec<PickerRow> = Vec::new();
    let entry = match state.model(provider, model) {
        Some(entry) => entry,
        None => {
            return rows;
        },
    };
    let ghost wanted = entry.thinking@.map_values(|choice: ThinkingChoice| thinking_row(choice));
    let mut i: usize = 0;
    assert(pick_views(rows@) =~= wanted.subrange(0, 0));
    while i < entry.thinking.len()
        invariant
            i <= entry.thinking@.len(),
            rows@.len() == i,
            wanted == entry.thinking@.map_values(|choice: ThinkingChoice| thinking_row(choice)),
            pick_views(rows@) == wanted.subrange(0, i as int),
        decreases entry.thinking@.len() - i,
    {
        let choice: &ThinkingChoice = &entry.thinking[i];
        let detail: &str = if choice.needs_input { "asks for a token count" } else { "" };
        let mut row = PickerRow::new(
            RowChoice::Thinking(choice.thinking.clone()),
            choice.label.as_str(),
            detail,
        );
        match &choice.refusal {
            Some(reason) => {
                row = row.refused(reason.as_str());
            },
            None => {},
        }
        let ghost before = rows@;
        rows.push(row);
        i += 1;
        assert(pick_views(rows@) =~= pick_views(before).push(row@));
        assert(wanted.subrange(0, i as int) =~= wanted.subrange(0, i - 1).push(wanted[i - 1]));
    }
    assert(wanted.subrange(0, i as int) =~= wanted);
    if rows.len() == 0 {
        let row = PickerRow::new(
            RowChoice::Thinking(Thinking::Toggle { value: false }),
            "off",
            "this model declares no thinking controls",
        ).refused("the model does not offer a thinking control");
        rows.push(row);
        assert(pick_views(rows@) =~= seq![row@]);
    }
    rows
}

impl Step {
    /// How far a step is from the first.
    pub open spec fn distance(self) -> nat {
        match self {
            Step::Provider => 0,
            Step::Model => 1,
            Step::Thinking => 2,
            Step::Confirm => 3,
            Step::Key => 4,
        }
    }
}

/// Going back always leads out: each step back is nearer to the first one, and only from the first
/// one is there nowhere to go, which is when the picker closes.
pub proof fn lemma_going_back_leads_out(before: PickerState, after: PickerState, r: bool)
    requires
        before.went_back(&after, r),
    ensures
        r ==> after.step.distance() < before.step.distance(),
        !r <==> before.step.distance() == 0,
{
}

/// Whether a search finds provider `i`.
pub open spec fn finds(matched: Seq<bool>, i: int) -> bool {
    0 <= i < matched.len() && matched[i]
}

/// How many of the first `n` providers a search finds.
pub open spec fn found_of(matched: Seq<bool>, n: nat) -> nat
    decreases n,
{
    if n == 0 {
        0
    } else {
        found_of(matched, (n - 1) as nat) + if finds(matched, n - 1) { 1nat } else { 0 }
    }
}

/// Whether a row offers a provider, and can be chosen.
pub open spec fn offers(row: PickView, provider: ProviderChoice) -> bool {
    &&& row.choice == RowChoice::Provider(provider.id)
    &&& row.label == provider.label@
    &&& row.disabled is None
}

/// Whether a row offers one of the first `n` providers, one that the search finds.
pub open spec fn offers_found(
    row: PickView,
    providers: Seq<ProviderChoice>,
    matched: Seq<bool>,
    n: nat,
) -> bool {
    exists|i: int| 0 <= i < n && #[trigger] finds(matched, i) && offers(row, providers[i])
}

proof fn lemma_found_grows(matched: Seq<bool>, i: nat, j: nat)
    requires
        i < j,
        finds(matched, i as int),
    ensures
        found_of(matched, i) < found_of(matched, j),
    decreases j,
{
    if i < j - 1 {
        lemma_found_grows(matched, i, (j - 1) as nat);
    }
}

/// With a query, a provider has a row exactly when the search finds it: each provider found is
/// offered, as far down as providers before it are found, and no other row is there.
pub proof fn lemma_a_search_keeps_what_it_finds(
    providers: Seq<ProviderChoice>,
    query: Seq<char>,
    matched: Seq<bool>,
    n: nat,
)
    requires
        !blank(query),
        n <= providers.len(),
    ensures
        provider_rows_of(providers, query, matched, n).len() == found_of(matched, n),
        forall|i: int|
            0 <= i < n && #[trigger] finds(matched, i) ==> {
                &&& found_of(matched, i as nat) < found_of(matched, n)
                &&& offers(
                    provider_rows_of(providers, query, matched, n)[found_of(matched, i as nat) as int],
                    providers[i],
                )
            },
        forall|r: int|
            0 <= r < provider_rows_of(providers, query, matched, n).len() ==> offers_found(
                #[trigger] provider_rows_of(providers, query, matched, n)[r],
                providers,
                matched,
                n,
            ),
    decreases n,
{
    lemma_trimmed_says_something(query);
    if n > 0 {
        let less = (n - 1) as nat;
        lemma_a_search_keeps_what_it_finds(providers, query, matched, less);
        let rows = provider_rows_of(providers, query, matched, n);
        let fewer = provider_rows_of(providers, query, matched, less);
        assert forall|i: int| 0 <= i < n && #[trigger] finds(matched, i) implies {
            &&& found_of(matched, i as nat) < found_of(matched, n)
            &&& offers(rows[found_of(matched, i as nat) as int], providers[i])
        } by {
            lemma_found_grows(matched, i as nat, n);
            if i < less {
                lemma_found_grows(matched, i as nat, less);
                assert(rows[found_of(matched, i as nat) as int] == fewer[found_of(
                    matched,
                    i as nat,
                ) as int]);
            }
        }
        assert forall|r: int| 0 <= r < rows.len() implies offers_found(
            #[trigger] rows[r],
            providers,
            matched,
            n,
        ) by {
            if r < fewer.len() {
                assert(rows[r] == fewer[r]);
                assert(offers_found(fewer[r], providers, matched, less));
                let i = choose|i: int|
                    0 <= i < less && #[trigger] finds(matched, i) && offers(fewer[r], providers[i]);
                assert(finds(matched, i));
            } else {
                assert(finds(matched, n - 1));
            }
        }
    }
}

/// Without a query every provider has a row, in the order they are listed.
pub proof fn lemma_without_a_query_every_provider_is_offered(
    providers: Seq<ProviderChoice>,
    query: Seq<char>,
    matched: Seq<bool>,
    n: nat,
)
    requires
        blank(query),
        n <= providers.len(),
    ensures
        provider_rows_of(providers, query, matched, n).len() == n,
        forall|i: int|
            0 <= i < n ==> offers(
                #[trigger] provider_rows_of(providers, query, matched, n)[i],
                providers[i],
            ),
    decreases n,
{
    lemma_trimmed_says_something(query);
    if n > 0 {
        lemma_without_a_query_every_provider_is_offered(providers, query, matched, (n - 1) as nat);
        let fewer = provider_rows_of(providers, query, matched, (n - 1) as nat);
        assert forall|i: int| 0 <= i < n implies offers(
            #[trigger] provider_rows_of(providers, query, matched, n)[i],
            providers[i],
        ) by {
            if i < n - 1 {
                assert(provider_rows_of(providers, query, matched, n)[i] == fewer[i]);
            }
        }
    }
}

/// A model's row chooses that model, can always be chosen, and says beside the badges that the
/// model is an older one, and that it has no thinking control, where that is so.
pub proof fn lemma_a_model_row_chooses_its_model(model: ModelChoice)
    ensures
        model_row(model).choice == RowChoice::Model(model.id),
        model_row(model).label == model.label@,
        model_row(model).disabled is None,
        !model.dated && model.thinks ==> model_row(model).detail == model.badges@,
        model.dated && model.thinks ==> model_row(model).detail == model.badges@ + " · older"@,
        !model.dated && !model.thinks ==> model_row(model).detail == model.badges@
            + " · no thinking control"@,
        model.dated && !model.thinks ==> model_row(model).detail == model.badges@ + " · older"@
            + " · no thinking control"@,
{
}

/// A thinking setting can be chosen exactly when the model does not refuse it; a refused one says
/// why.
pub proof fn lemma_a_refused_setting_says_why(choice: ThinkingChoice)
    ensures
        thinking_row(choice).choice == RowChoice::Thinking(choice.thinking),
        thinking_row(choice).label == choice.label@,
        thinking_row(choice).disabled is None <==> choice.refusal is None,
        choice.refusal is Some ==> thinking_row(choice).disabled == Some(choice.refusal->0@),
        (thinking_row(choice).detail.len() > 0) == choice.needs_input,
{
    reveal_strlit("asks for a token count");
    reveal_strlit("");
}

/// Every model that the search found has a row, in the order it ranked them, and choosing the row
/// chooses that model.
pub proof fn lemma_every_model_found_is_offered(choices: Seq<ModelChoice>, i: int)
    requires
        0 <= i < choices.len(),
    ensures
        model_rows_of(choices).len() == choices.len(),
        model_rows_of(choices)[i].choice == RowChoice::Model(choices[i].id),
        model_rows_of(choices)[i].label == choices[i].label@,
        model_rows_of(choices)[i].disabled is None,
{
}

/// Every thinking setting of a model has a row, in its order, refused where the model refuses it; a
/// model without any has one row, which cannot be chosen.
pub proof fn lemma_every_setting_is_offered(choices: Seq<ThinkingChoice>, i: int)
    ensures
        0 <= i < choices.len() ==> {
            &&& thinking_rows_of(choices).len() == choices.len()
            &&& thinking_rows_of(choices)[i].choice == RowChoice::Thinking(choices[i].thinking)
            &&& thinking_rows_of(choices)[i].label == choices[i].label@
            &&& thinking_rows_of(choices)[i].disabled is Some <==> choices[i].refusal is Some
        },
        choices.len() == 0 ==> thinking_rows_of(choices).len() == 1 && thinking_rows_of(
            choices,
        )[0].disabled is Some,
{
}

} // verus!
