//! Key presses: what each means in the mode it is pressed in, and what it asks for.
//!
//! The bindings belong to the caller, who looks a key up and hands in what was found; an action
//! that a key fires is handed back, to be dispatched.

use vstd::prelude::*;

use crate::action::{hints, is_hint};
use crate::app::{App, CommandLine, Overlay};
use crate::catalog::ModelSelection;
use crate::chat::ChatState;
use crate::effect::Effect;
use crate::input::edited;
use crate::keys::{KeyCode, KeyCombo, Mode, Resolution};
use crate::list_view::PrListState;
use crate::model_picker::{shorten, shortened, PickerState, PickerStep};
use crate::notices::NoticeLevel;
use crate::scroll::stepped;
use crate::strings::concat3;

verus! {

/// What the bindings say of a key.
pub struct Lookup {
    /// What the pending sequence, with the key behind it, is bound to in the current mode.
    pub sequence: Resolution,
    /// What the key alone is bound to in every mode.
    pub global: Resolution,
    /// What the key alone is bound to in insert mode.
    pub insert: Resolution,
    /// The sequence in words.
    pub keys: String,
    /// The time.
    pub now_ms: u64,
    /// How long an ambiguous sequence waits.
    pub timeout_ms: u64,
}

impl Lookup {
    /// Whether the end of the wait can be told.
    pub open spec fn fits(&self) -> bool {
        self.now_ms + self.timeout_ms <= u64::MAX
    }

    /// When an ambiguous sequence stops waiting.
    pub open spec fn deadline(&self) -> Option<u64> {
        Some((self.now_ms + self.timeout_ms) as u64)
    }
}

/// What a key press asks for.
pub enum Pressed {
    /// An effect.
    Done(Effect),
    /// An action, to be dispatched; [`App::after_dispatch`] is then told of its effect.
    Dispatch {
        /// The action.
        action: String,
        /// Whether the pending sequence ends with it.
        ends: bool,
    },
    /// A command, to be run.
    Run(String),
    /// A command line, to be completed by [`App::complete_command`].
    Complete(String),
    /// A search, to be matched by [`App::apply_search`].
    Search(String),
    /// A theme, to be loaded for a preview.
    Preview(String),
    /// A theme, to be loaded and kept.
    Choose(String),
    /// An effect of the model picker, whose rows are to be filled again.
    Refill(Effect),
}

/// What a key press asks for, as a value.
pub enum PressedView {
    Done(Effect),
    Dispatch(Seq<char>, bool),
    Run(Seq<char>),
    Complete(Seq<char>),
    Search(Seq<char>),
    Preview(Seq<char>),
    Choose(Seq<char>),
    Refill(Effect),
}

impl View for Pressed {
    type V = PressedView;

    open spec fn view(&self) -> PressedView {
        match *self {
            Pressed::Done(effect) => PressedView::Done(effect),
            Pressed::Dispatch { action, ends } => PressedView::Dispatch(action@, ends),
            Pressed::Run(text) => PressedView::Run(text@),
            Pressed::Complete(text) => PressedView::Complete(text@),
            Pressed::Search(text) => PressedView::Search(text@),
            Pressed::Preview(name) => PressedView::Preview(name@),
            Pressed::Choose(name) => PressedView::Choose(name@),
            Pressed::Refill(effect) => PressedView::Refill(effect),
        }
    }
}

/// Where a pending sequence stands after a key.
pub enum Standing {
    /// An action fires.
    Fired(String),
    /// The next key decides.
    Waiting,
    /// Nothing is bound to it.
    Unmatched,
}

/// Where a pending sequence stands, as a value.
pub enum StandingView {
    Fired(Seq<char>),
    Waiting,
    Unmatched,
}

impl View for Standing {
    type V = StandingView;

    open spec fn view(&self) -> StandingView {
        match *self {
            Standing::Fired(action) => StandingView::Fired(action@),
            Standing::Waiting => StandingView::Waiting,
            Standing::Unmatched => StandingView::Unmatched,
        }
    }
}

/// Where a sequence stands.
///
/// One that is bound and also starts a longer one waits for the next key, unless it is a hint,
/// which shows at once, or the wait is over.
pub open spec fn standing(sequence: Resolution, waited: bool) -> StandingView {
    match sequence {
        Resolution::Match(action) => StandingView::Fired(action@),
        Resolution::Ambiguous(action) => if waited || hints(action@) {
            StandingView::Fired(action@)
        } else {
            StandingView::Waiting
        },
        Resolution::Prefix => StandingView::Waiting,
        Resolution::Unbound => StandingView::Unmatched,
    }
}

/// When a sequence that stands so stops waiting.
pub open spec fn deadline_after(lookup: Lookup, waited: bool, before: Option<u64>) -> Option<u64> {
    match lookup.sequence {
        Resolution::Match(_) => None,
        Resolution::Ambiguous(_) => if waited { None } else { lookup.deadline() },
        Resolution::Prefix => lookup.deadline(),
        Resolution::Unbound => before,
    }
}

/// The action of a global binding with a real modifier.
///
/// Where text is typed, a bare `?`, `:` or leader key is text rather than a command.
pub open spec fn global_of(combo: KeyCombo, global: Resolution) -> Option<Seq<char>> {
    match global {
        Resolution::Match(action) => if combo.modifiers.commanding() { Some(action@) } else { None },
        _ => None,
    }
}

/// The action bound in insert mode.
///
/// There is no longer sequence to wait for there, so anything bound at all fires.
pub open spec fn insert_of(insert: Resolution) -> Option<Seq<char>> {
    match insert {
        Resolution::Match(action) | Resolution::Ambiguous(action) => Some(action@),
        _ => None,
    }
}

/// Whether a key types a character.
pub open spec fn printable(combo: KeyCombo) -> bool {
    combo.code is Char && !combo.modifiers.commanding()
}

/// What a popup makes of a key that nothing is bound to.
pub enum PopupKey {
    /// It closes.
    Cancel,
    /// The theme picker's cursor moves.
    Move(int),
    /// The help list shows another line first.
    Scroll(nat),
    /// The theme under the cursor is chosen.
    Choose,
    /// Nothing.
    Ignore,
}

/// The first line that the help list shows after a key, where the key scrolls it.
pub open spec fn help_line(code: KeyCode, scroll: nat) -> Option<nat> {
    match code {
        KeyCode::Char('j') | KeyCode::Down => Some(scrolled_by(scroll, 1)),
        KeyCode::Char('k') | KeyCode::Up => Some(scrolled_by(scroll, -1)),
        KeyCode::Char('g') => Some(0),
        KeyCode::Char('G') => Some(usize::MAX as nat),
        KeyCode::Char('d') => Some(scrolled_by(scroll, 10)),
        KeyCode::Char('u') => Some(scrolled_by(scroll, -10)),
        _ => None,
    }
}

/// What a popup makes of a key that nothing is bound to.
pub open spec fn popup_key(combo: KeyCombo, overlay: Overlay, scroll: nat) -> PopupKey {
    let down = combo.code == KeyCode::Char('j') || combo.code == KeyCode::Down;
    let up = combo.code == KeyCode::Char('k') || combo.code == KeyCode::Up;
    if combo.code == KeyCode::Esc {
        PopupKey::Cancel
    } else if combo.code == KeyCode::Char('q') && combo.modifiers.none() {
        PopupKey::Cancel
    } else if overlay == Overlay::ThemePicker {
        if down {
            PopupKey::Move(1)
        } else if up {
            PopupKey::Move(-1)
        } else if combo.code == KeyCode::Enter {
            PopupKey::Choose
        } else {
            PopupKey::Ignore
        }
    } else if overlay == Overlay::Help {
        match help_line(combo.code, scroll) {
            Some(to) => PopupKey::Scroll(to),
            None => PopupKey::Ignore,
        }
    } else {
        PopupKey::Ignore
    }
}

/// A number of lines moved, kept between none and as many as can be counted.
pub open spec fn scrolled_by(scroll: nat, delta: int) -> nat {
    if scroll + delta < 0 {
        0
    } else if scroll + delta > usize::MAX {
        usize::MAX as nat
    } else {
        (scroll + delta) as nat
    }
}

impl PickerState {
    /// What a key makes of the picker, whether it closes it, and what it asks for.
    pub open spec fn pressed(
        &self,
        after: &PickerState,
        combo: KeyCombo,
        closes: bool,
        effect: Effect,
    ) -> bool {
        if combo.code == KeyCode::Esc {
            self.went_back(after, !closes) && effect is Nothing
        } else if combo.code == KeyCode::Enter {
            &&& !closes
            &&& exists|step: PickerStep| #[trigger]
                self.advanced(after, step) && match step {
                    PickerStep::Moved | PickerStep::Refused(_) => effect is Nothing,
                    PickerStep::KeyTyped { provider, key } => effect == (Effect::SaveKey {
                        provider,
                        key,
                    }),
                    PickerStep::Commit { provider, model, thinking } => effect
                        == Effect::SaveSelection(
                        ModelSelection { provider, model, reasoning: thinking },
                    ),
                }
        } else {
            &&& !closes
            &&& effect is Nothing
            &&& if combo.code == KeyCode::Up || (combo.code == KeyCode::Char('p')
                && combo.modifiers.control) {
                *after == self.moved(-1)
            } else if combo.code == KeyCode::Down || (combo.code == KeyCode::Char('n')
                && combo.modifiers.control) {
                *after == self.moved(1)
            } else if combo.code == KeyCode::Char('u') && combo.modifiers.control {
                self.cleared(after)
            } else if combo.code == KeyCode::Backspace {
                self.erased(after)
            } else if printable(combo) {
                self.typed(after, combo.code->Char_0)
            } else {
                *after == *self
            }
        }
    }

    /// Takes a key; returns whether that closes the picker, and what it asks for.
    ///
    /// `Esc` walks back a step, and closes the picker from the first. A bare character is text,
    /// also where it is bound elsewhere: a search box must be able to contain it.
    pub fn press(&mut self, combo: KeyCombo) -> (r: (bool, Effect))
        ensures
            old(self).pressed(final(self), combo, r.0, r.1),
    {
        match combo.code {
            KeyCode::Esc => {
                let stays: bool = self.step_back();
                return (!stays, Effect::Nothing);
            },
            KeyCode::Enter => {
                let step = self.advance();
                assert(old(self).advanced(self, step));
                return match step {
                    PickerStep::Moved | PickerStep::Refused(_) => (false, Effect::Nothing),
                    PickerStep::KeyTyped { provider, key } => (
                        false,
                        Effect::SaveKey { provider, key },
                    ),
                    PickerStep::Commit { provider, model, thinking } => (
                        false,
                        Effect::SaveSelection(
                            ModelSelection { provider, model, reasoning: thinking },
                        ),
                    ),
                };
            },
            KeyCode::Up => self.move_cursor(-1),
            KeyCode::Down => self.move_cursor(1),
            KeyCode::Backspace => self.backspace(),
            KeyCode::Char(character) => {
                if combo.modifiers.control {
                    if character == 'p' {
                        self.move_cursor(-1);
                    } else if character == 'n' {
                        self.move_cursor(1);
                    } else if character == 'u' {
                        self.clear_query();
                    }
                } else if !combo.modifiers.alt {
                    self.push_char(character);
                }
            },
            _ => {},
        }
        (false, Effect::Nothing)
    }
}

impl App {
    /// Whether a pending sequence ended, and the leader menu closed with it.
    pub open spec fn sequence_ended(&self, before: &App) -> bool {
        &&& *self == (App {
            pending: self.pending,
            deadline: None,
            leader_open: false,
            overlay: if before.overlay == Overlay::Leader {
                Overlay::Closed
            } else {
                before.overlay
            },
            ..*before
        })
        &&& self.pending@.len() == 0
    }

    /// Whether a key joined the pending sequence.
    pub open spec fn joined(&self, before: &App, combo: KeyCombo, lookup: Lookup) -> bool {
        &&& *self == (App {
            pending: self.pending,
            deadline: deadline_after(lookup, false, before.deadline),
            ..*before
        })
        &&& self.pending@ == before.pending@.push(combo)
    }

    /// The state without a pending sequence, but with the menus as they were.
    pub open spec fn dropped(&self, before: &App) -> App {
        App { pending: self.pending, deadline: None, ..*before }
    }

    /// Ends a key sequence, closing the leader menu with it.
    fn finish_sequence(&mut self)
        ensures
            final(self).sequence_ended(old(self)),
    {
        self.pending = Vec::new();
        self.deadline = None;
        self.leader_open = false;
        if self.overlay == Overlay::Leader {
            self.overlay = Overlay::Closed;
        }
    }

    /// Hears what the action that a key fired came to.
    ///
    /// Every effect but [`Effect::KeepPending`] means that the sequence is over.
    pub fn after_dispatch(&mut self, ends: bool, effect: &Effect)
        ensures
            ends && !(*effect is KeepPending) ==> final(self).sequence_ended(old(self)),
            !ends || *effect is KeepPending ==> *final(self) == *old(self),
    {
        let keeps: bool = match effect {
            Effect::KeepPending => true,
            _ => false,
        };
        if ends && !keeps {
            self.finish_sequence();
        }
    }

    /// The action of a global binding that applies where text is typed.
    fn global_action(combo: KeyCombo, global: &Resolution) -> (r: Option<String>)
        ensures
            crate::patch::opt_view(r) == global_of(combo, *global),
    {
        if !combo.modifiers.is_command() {
            return None;
        }
        match global {
            Resolution::Match(action) => Some(action.clone()),
            _ => None,
        }
    }

    /// Advances the pending sequence one step.
    fn step(&mut self, waited: bool, lookup: &Lookup) -> (r: Standing)
        requires
            lookup.fits(),
        ensures
            r@ == standing(lookup.sequence, waited),
            *final(self) == (App {
                deadline: deadline_after(*lookup, waited, old(self).deadline),
                ..*old(self)
            }),
    {
        match &lookup.sequence {
            Resolution::Match(action) => {
                self.deadline = None;
                Standing::Fired(action.clone())
            },
            Resolution::Ambiguous(action) => {
                if waited {
                    self.deadline = None;
                    return Standing::Fired(action.clone());
                }
                self.deadline = Some(lookup.now_ms + lookup.timeout_ms);
                if is_hint(action.as_str()) {
                    Standing::Fired(action.clone())
                } else {
                    Standing::Waiting
                }
            },
            Resolution::Prefix => {
                self.deadline = Some(lookup.now_ms + lookup.timeout_ms);
                Standing::Waiting
            },
            Resolution::Unbound => Standing::Unmatched,
        }
    }

    /// What the end of the wait makes of a pending sequence.
    pub open spec fn waited(&self, before: &App, lookup: Lookup, r: PressedView) -> bool {
        let idle = before.pending@.len() == 0 || before.leader_open;
        match standing(lookup.sequence, true) {
            StandingView::Fired(action) if !idle => {
                &&& r == PressedView::Dispatch(action, true)
                &&& *self == (App { deadline: None, ..*before })
            },
            _ => {
                &&& r == PressedView::Done(Effect::Nothing)
                &&& if idle {
                    *self == (App { deadline: None, ..*before })
                } else {
                    &&& *self == (App {
                        pending: self.pending,
                        deadline: self.deadline,
                        ..*before
                    })
                    &&& self.pending@.len() == 0
                    &&& self.deadline == deadline_after(lookup, true, None)
                }
            },
        }
    }

    /// Fires a pending sequence once its wait is over; one that is bound to nothing is dropped.
    ///
    /// `lookup.sequence` is what the pending keys are bound to.
    pub fn on_timeout(&mut self, lookup: &Lookup) -> (r: Pressed)
        requires
            lookup.fits(),
        ensures
            final(self).waited(old(self), *lookup, r@),
    {
        self.deadline = None;
        if self.pending.len() == 0 || self.leader_open {
            return Pressed::Done(Effect::Nothing);
        }
        match self.step(true, lookup) {
            Standing::Fired(action) => Pressed::Dispatch { action, ends: true },
            Standing::Waiting | Standing::Unmatched => {
                self.pending = Vec::new();
                Pressed::Done(Effect::Nothing)
            },
        }
    }

    /// What is said of a sequence that nothing is bound to.
    pub open spec fn unbound_words(keys: Seq<char>) -> Seq<char> {
        "`"@ + keys + "` is not bound"@
    }

    /// What a key comes to where it is a command.
    pub open spec fn commanded(
        &self,
        before: &App,
        combo: KeyCombo,
        lookup: Lookup,
        r: PressedView,
    ) -> bool {
        if combo.code == KeyCode::Esc && (before.pending@.len() > 0 || before.leader_open
            || before.overlay != Overlay::Closed) {
            &&& r == PressedView::Done(Effect::Nothing)
            &&& self.pending@.len() == 0
            &&& *self == self.dropped(before).overlay_cancelled()
        } else {
            match standing(lookup.sequence, false) {
                StandingView::Fired(action) => {
                    &&& r == PressedView::Dispatch(action, true)
                    &&& self.joined(before, combo, lookup)
                },
                StandingView::Waiting => {
                    &&& r == PressedView::Done(Effect::Nothing)
                    &&& self.joined(before, combo, lookup)
                },
                StandingView::Unmatched => match global_of(combo, lookup.global) {
                    Some(action) => {
                        &&& r == PressedView::Dispatch(action, false)
                        &&& self.sequence_ended(before)
                    },
                    None => {
                        &&& r == PressedView::Done(Effect::Nothing)
                        &&& self.unbound(before, lookup.keys@)
                    },
                },
            }
        }
    }

    /// Whether a sequence that nothing is bound to ended, and was named.
    pub open spec fn unbound(&self, before: &App, keys: Seq<char>) -> bool {
        &&& *self == (App {
            pending: self.pending,
            deadline: None,
            leader_open: false,
            overlay: if before.overlay == Overlay::Leader {
                Overlay::Closed
            } else {
                before.overlay
            },
            notices: self.notices,
            ..*before
        })
        &&& self.pending@.len() == 0
        &&& self.notices_after(
            before,
            if before.leader_open { NoticeLevel::Info } else { NoticeLevel::Warn },
            App::unbound_words(keys),
        )
    }

    fn name_unbound(&mut self, keys: &str, level: NoticeLevel)
        ensures
            *final(self) == (App { notices: final(self).notices, ..*old(self) }),
            final(self).notices_after(old(self), level, App::unbound_words(keys@)),
    {
        let text = concat3("`", keys, "` is not bound");
        self.notice(level, text.as_str());
    }

    fn drop_sequence(&mut self)
        ensures
            *final(self) == final(self).dropped(old(self)),
            final(self).pending@.len() == 0,
    {
        self.pending = Vec::new();
        self.deadline = None;
    }

    fn join(&mut self, combo: KeyCombo, lookup: &Lookup) -> (r: Standing)
        requires
            lookup.fits(),
        ensures
            r@ == standing(lookup.sequence, false),
            final(self).joined(old(self), combo, *lookup),
    {
        self.pending.push(combo);
        self.step(false, lookup)
    }

    fn give_up_sequence(&mut self, combo: KeyCombo, lookup: &Lookup) -> (r: Pressed)
        ensures
            match global_of(combo, lookup.global) {
                Some(action) => {
                    &&& r@ == PressedView::Dispatch(action, false)
                    &&& final(self).sequence_ended(old(self))
                },
                None => {
                    &&& r@ == PressedView::Done(Effect::Nothing)
                    &&& final(self).unbound(old(self), lookup.keys@)
                },
            },
    {
        let level = if self.leader_open { NoticeLevel::Info } else { NoticeLevel::Warn };
        self.finish_sequence();
        match App::global_action(combo, &lookup.global) {
            Some(action) => Pressed::Dispatch { action, ends: false },
            None => {
                self.name_unbound(lookup.keys.as_str(), level);
                Pressed::Done(Effect::Nothing)
            },
        }
    }

    /// A key where it is a command.
    ///
    /// `Esc` is a universal cancel: it drops a half-typed sequence and closes a popup before it
    /// means anything else. A modified global works while a longer sequence is pending.
    fn on_normal_key(&mut self, combo: KeyCombo, lookup: &Lookup) -> (r: Pressed)
        requires
            lookup.fits(),
        ensures
            final(self).commanded(old(self), combo, *lookup, r@),
    {
        if combo.code == KeyCode::Esc && (self.pending.len() > 0 || self.leader_open || self.overlay
            != Overlay::Closed) {
            self.drop_sequence();
            self.cancel_overlay();
            return Pressed::Done(Effect::Nothing);
        }
        match self.join(combo, lookup) {
            Standing::Fired(action) => Pressed::Dispatch { action, ends: true },
            Standing::Waiting => Pressed::Done(Effect::Nothing),
            Standing::Unmatched => self.give_up_sequence(combo, lookup),
        }
    }

    /// What a key comes to where a question is typed.
    pub open spec fn composed(
        &self,
        before: &App,
        combo: KeyCombo,
        lookup: Lookup,
        r: PressedView,
    ) -> bool {
        let input = before.chat.input;
        if combo.code != KeyCode::Esc && !printable(combo) && insert_of(lookup.insert) is Some {
            &&& r == PressedView::Dispatch(insert_of(lookup.insert)->0, false)
            &&& *self == *before
        } else if printable(combo) || (!(combo.code is Char) && edited(
            input@,
            input.cursor as nat,
            combo.code,
        ) is Some) {
            &&& r == PressedView::Done(Effect::Nothing)
            &&& *self == (App { chat: ChatState { input: self.chat.input, ..before.chat }, ..*before })
            &&& edited(input@, input.cursor as nat, combo.code) == Some(
                (self.chat.input@, self.chat.input.cursor as nat),
            )
        } else {
            self.commanded(before, combo, lookup, r)
        }
    }

    fn type_key(&mut self, code: KeyCode) -> (r: bool)
        requires
            old(self).chat.input.wf(),
        ensures
            match edited(old(self).chat.input@, old(self).chat.input.cursor as nat, code) {
                Some((text, cursor)) => {
                    &&& r
                    &&& *final(self) == (App {
                        chat: ChatState { input: final(self).chat.input, ..old(self).chat },
                        ..*old(self)
                    })
                    &&& final(self).chat.input@ == text
                    &&& final(self).chat.input.cursor == cursor
                },
                None => !r && *final(self) == *old(self),
            },
            final(self).chat.input.wf(),
    {
        self.chat.input.press(code)
    }

    /// A key while the compose box has the keyboard.
    ///
    /// A printable character is text, and everything else is a key. One that is neither text nor
    /// bound goes the way of a command: typing a letter for an unbound modified key would hide
    /// that it did nothing.
    fn on_chat_input_key(&mut self, combo: KeyCombo, lookup: &Lookup) -> (r: Pressed)
        requires
            lookup.fits(),
            old(self).chat.input.wf(),
        ensures
            final(self).composed(old(self), combo, *lookup, r@),
            final(self).chat.input.wf(),
    {
        if combo.code == KeyCode::Esc {
            return self.on_normal_key(combo, lookup);
        }
        let types: bool = match combo.code {
            KeyCode::Char(_) => true,
            _ => false,
        };
        let text: bool = types && !combo.modifiers.is_command();
        if !text {
            match App::resolve_insert_binding(&lookup.insert) {
                Some(action) => {
                    return Pressed::Dispatch { action, ends: false };
                },
                None => {},
            }
        }
        if text || !types {
            if self.type_key(combo.code) {
                return Pressed::Done(Effect::Nothing);
            }
        }
        self.on_normal_key(combo, lookup)
    }

    /// The action of a key bound in insert mode, if it is bound.
    fn resolve_insert_binding(insert: &Resolution) -> (r: Option<String>)
        ensures
            crate::patch::opt_view(r) == insert_of(*insert),
    {
        match insert {
            Resolution::Match(action) | Resolution::Ambiguous(action) => Some(action.clone()),
            Resolution::Prefix | Resolution::Unbound => None,
        }
    }

    /// The theme picker's name under the cursor.
    pub open spec fn entry_under_cursor(&self) -> Option<Seq<char>> {
        if self.picker_cursor < self.picker_items@.len() {
            Some(self.picker_items@[self.picker_cursor as int].name@)
        } else {
            None
        }
    }

    /// The state with the theme picker's cursor moved.
    pub open spec fn theme_moved(self, delta: int) -> App {
        App {
            picker_cursor: stepped(
                self.picker_cursor as nat,
                delta,
                self.picker_items@.len(),
            ) as usize,
            ..self
        }
    }

    /// What a popup makes of a key that nothing is bound to.
    pub open spec fn popped(&self, before: &App, combo: KeyCombo, r: PressedView) -> bool {
        match popup_key(combo, before.overlay, before.help_scroll as nat) {
            PopupKey::Cancel => {
                &&& r == PressedView::Done(Effect::Nothing)
                &&& *self == before.overlay_cancelled()
            },
            PopupKey::Move(delta) => {
                let moved = before.theme_moved(delta);
                &&& self.previews(&moved)
                &&& r == if moved.picker_cursor < moved.picker_items@.len()
                    && moved.picker_items@[moved.picker_cursor as int].theme is None {
                    PressedView::Preview(moved.picker_items@[moved.picker_cursor as int].name@)
                } else {
                    PressedView::Done(Effect::Nothing)
                }
            },
            PopupKey::Scroll(to) => {
                &&& r == PressedView::Done(Effect::Nothing)
                &&& *self == (App { help_scroll: to as usize, ..*before })
            },
            PopupKey::Choose => {
                &&& *self == before.overlay_closed()
                &&& r == match before.entry_under_cursor() {
                    Some(name) => PressedView::Choose(name),
                    None => PressedView::Done(Effect::Nothing),
                }
            },
            PopupKey::Ignore => {
                &&& r == PressedView::Done(Effect::Nothing)
                &&& *self == *before
            },
        }
    }

    fn move_theme(&mut self, delta: i32) -> (r: Pressed)
        ensures
            ({
                let moved = old(self).theme_moved(delta as int);
                &&& final(self).previews(&moved)
                &&& r@ == if moved.picker_cursor < moved.picker_items@.len()
                    && moved.picker_items@[moved.picker_cursor as int].theme is None {
                    PressedView::Preview(moved.picker_items@[moved.picker_cursor as int].name@)
                } else {
                    PressedView::Done(Effect::Nothing)
                }
            }),
    {
        match self.move_picker(delta) {
            Some(name) => Pressed::Preview(name),
            None => Pressed::Done(Effect::Nothing),
        }
    }

    fn choose_theme(&mut self) -> (r: Pressed)
        ensures
            *final(self) == old(self).overlay_closed(),
            r@ == match old(self).entry_under_cursor() {
                Some(name) => PressedView::Choose(name),
                None => PressedView::Done(Effect::Nothing),
            },
    {
        let name: Option<String> = if self.picker_cursor < self.picker_items.len() {
            Some(self.picker_items[self.picker_cursor].name.clone())
        } else {
            None
        };
        self.close_overlay();
        match name {
            Some(name) => Pressed::Choose(name),
            None => Pressed::Done(Effect::Nothing),
        }
    }

    /// The first line that the help list shows after a key, where the key scrolls it.
    fn help_scrolled(&self, code: KeyCode) -> (r: Option<usize>)
        ensures
            match r {
                Some(to) => help_line(code, self.help_scroll as nat) == Some(to as nat),
                None => help_line(code, self.help_scroll as nat) is None,
            },
    {
        match code {
            KeyCode::Char('j') | KeyCode::Down => Some(self.help_scroll.saturating_add(1)),
            KeyCode::Char('k') | KeyCode::Up => Some(self.help_scroll.saturating_sub(1)),
            KeyCode::Char('g') => Some(0),
            KeyCode::Char('G') => Some(usize::MAX),
            KeyCode::Char('d') => Some(self.help_scroll.saturating_add(10)),
            KeyCode::Char('u') => Some(self.help_scroll.saturating_sub(10)),
            _ => None,
        }
    }

    fn on_unbound_popup_key(&mut self, combo: KeyCombo) -> (r: Pressed)
        ensures
            final(self).popped(old(self), combo, r@),
    {
        if combo.code == KeyCode::Esc || (combo.code == KeyCode::Char('q')
            && combo.modifiers.is_empty()) {
            self.cancel_overlay();
            return Pressed::Done(Effect::Nothing);
        }
        if self.overlay == Overlay::ThemePicker {
            return match combo.code {
                KeyCode::Char('j') | KeyCode::Down => self.move_theme(1),
                KeyCode::Char('k') | KeyCode::Up => self.move_theme(-1),
                KeyCode::Enter => self.choose_theme(),
                _ => Pressed::Done(Effect::Nothing),
            };
        }
        if self.overlay == Overlay::Help {
            match self.help_scrolled(combo.code) {
                Some(to) => {
                    self.help_scroll = to;
                },
                None => {},
            }
        }
        Pressed::Done(Effect::Nothing)
    }

    /// What a key comes to where a popup has the keyboard.
    pub open spec fn popup_pressed(
        &self,
        before: &App,
        combo: KeyCombo,
        lookup: Lookup,
        r: PressedView,
    ) -> bool {
        match standing(lookup.sequence, false) {
            StandingView::Fired(action) => {
                &&& r == PressedView::Dispatch(action, true)
                &&& self.joined(before, combo, lookup)
            },
            StandingView::Waiting => {
                &&& r == PressedView::Done(Effect::Nothing)
                &&& self.joined(before, combo, lookup)
            },
            StandingView::Unmatched => {
                &&& self.pending@.len() == 0
                &&& self.popped(&self.dropped(before), combo, r)
            },
        }
    }

    /// A key where a popup has the keyboard.
    ///
    /// What is bound for popups comes first; the popup's own keys need no binding.
    fn on_popup_key(&mut self, combo: KeyCombo, lookup: &Lookup) -> (r: Pressed)
        requires
            lookup.fits(),
        ensures
            final(self).popup_pressed(old(self), combo, *lookup, r@),
    {
        match self.join(combo, lookup) {
            Standing::Fired(action) => Pressed::Dispatch { action, ends: true },
            Standing::Waiting => Pressed::Done(Effect::Nothing),
            Standing::Unmatched => {
                self.drop_sequence();
                self.on_unbound_popup_key(combo)
            },
        }
    }

    /// What a key comes to where a search is typed.
    pub open spec fn searched(
        &self,
        before: &App,
        combo: KeyCombo,
        lookup: Lookup,
        r: PressedView,
    ) -> bool {
        match global_of(combo, lookup.global) {
            Some(action) => r == PressedView::Dispatch(action, false) && *self == *before,
            None => if combo.code == KeyCode::Esc || combo.code == KeyCode::Enter {
                &&& r == PressedView::Done(Effect::Nothing)
                &&& *self == (App { mode: Mode::Normal, ..*before })
            } else {
                &&& *self == *before
                &&& r == if combo.code == KeyCode::Backspace {
                    PressedView::Search(shortened(before.list.search@))
                } else if combo.code == KeyCode::Char('u') && combo.modifiers.only_control() {
                    PressedView::Search(Seq::empty())
                } else if combo.code is Char && combo.modifiers.shift_at_most() {
                    PressedView::Search(before.list.search@.push(combo.code->Char_0))
                } else {
                    PressedView::Done(Effect::Nothing)
                }
            },
        }
    }

    /// A key in the search box, which filters the loaded list as it is typed.
    fn on_search_key(&mut self, combo: KeyCombo, lookup: &Lookup) -> (r: Pressed)
        ensures
            final(self).searched(old(self), combo, *lookup, r@),
    {
        match App::global_action(combo, &lookup.global) {
            Some(action) => {
                return Pressed::Dispatch { action, ends: false };
            },
            None => {},
        }
        if combo.code == KeyCode::Esc || combo.code == KeyCode::Enter {
            self.mode = Mode::Normal;
            return Pressed::Done(Effect::Nothing);
        }
        match combo.code {
            KeyCode::Backspace => Pressed::Search(shorten(self.list.search.as_str())),
            KeyCode::Char(value) => {
                if value == 'u' && combo.modifiers.is_control() {
                    Pressed::Search(String::new())
                } else if combo.modifiers.is_text() {
                    let mut text = self.list.search.clone();
                    text.push(value);
                    Pressed::Search(text)
                } else {
                    Pressed::Done(Effect::Nothing)
                }
            },
            _ => Pressed::Done(Effect::Nothing),
        }
    }

    /// Filters the list by a search, given the items it matches.
    pub fn apply_search(&mut self, text: String, matches: Vec<usize>)
        ensures
            *final(self) == (App {
                list: PrListState { stale: None, ..old(self).list.searched(text, matches) },
                ..*old(self)
            }),
    {
        self.list.set_search(text, matches);
        self.list.stale = None;
    }

    /// What a key comes to on the command line.
    pub open spec fn entered(
        &self,
        before: &App,
        combo: KeyCombo,
        lookup: Lookup,
        r: PressedView,
    ) -> bool {
        match global_of(combo, lookup.global) {
            Some(action) => r == PressedView::Dispatch(action, false) && *self == *before,
            None => match combo.code {
                KeyCode::Esc => {
                    &&& r == PressedView::Done(Effect::Nothing)
                    &&& *self == (App { command: self.command, mode: Mode::Normal, ..*before })
                    &&& self.command.holds(Seq::empty())
                },
                KeyCode::Enter => {
                    &&& r == PressedView::Run(before.command.input@)
                    &&& *self == (App { command: self.command, mode: Mode::Normal, ..*before })
                    &&& self.command.holds(Seq::empty())
                },
                KeyCode::Backspace => {
                    &&& r == PressedView::Done(Effect::Nothing)
                    &&& *self == (App { command: self.command, ..*before })
                    &&& self.command.holds(shortened(before.command.input@))
                },
                KeyCode::Tab => {
                    &&& r == PressedView::Complete(before.command.input@)
                    &&& *self == *before
                },
                KeyCode::Char(value) if combo.modifiers.shift_at_most() => {
                    &&& r == PressedView::Done(Effect::Nothing)
                    &&& *self == (App { command: self.command, ..*before })
                    &&& self.command.holds(before.command.input@.push(value))
                },
                _ => {
                    &&& r == PressedView::Done(Effect::Nothing)
                    &&& *self == *before
                },
            },
        }
    }

    fn leave_command(&mut self) -> (r: String)
        ensures
            r@ == old(self).command.input@,
            *final(self) == (App {
                command: final(self).command,
                mode: Mode::Normal,
                ..*old(self)
            }),
            final(self).command.holds(Seq::empty()),
    {
        let input = self.command.take();
        self.mode = Mode::Normal;
        input
    }

    /// A key on the command line.
    fn on_command_key(&mut self, combo: KeyCombo, lookup: &Lookup) -> (r: Pressed)
        ensures
            final(self).entered(old(self), combo, *lookup, r@),
    {
        match App::global_action(combo, &lookup.global) {
            Some(action) => {
                return Pressed::Dispatch { action, ends: false };
            },
            None => {},
        }
        match combo.code {
            KeyCode::Esc => {
                let _ = self.leave_command();
            },
            KeyCode::Enter => {
                return Pressed::Run(self.leave_command());
            },
            KeyCode::Backspace => self.command.backspace(),
            KeyCode::Tab => {
                return Pressed::Complete(self.command.input.clone());
            },
            KeyCode::Char(value) => {
                if combo.modifiers.is_text() {
                    self.command.push(value);
                }
            },
            _ => {},
        }
        Pressed::Done(Effect::Nothing)
    }

    /// Replaces what the command line holds by its completion.
    pub fn complete_command(&mut self, completed: String)
        ensures
            *final(self) == (App {
                command: CommandLine { input: completed, ..old(self).command },
                ..*old(self)
            }),
    {
        self.command.input = completed;
    }

    /// What a key comes to where the model picker is open.
    pub open spec fn picked(&self, before: &App, combo: KeyCombo, r: PressedView) -> bool {
        match before.picker {
            None => r == PressedView::Done(Effect::Nothing) && *self == *before,
            Some(picker) => {
                &&& *self == (App { picker: self.picker, ..*before })
                &&& match self.picker {
                    Some(after) => r is Refill && picker.pressed(&after, combo, false, r->Refill_0),
                    None => {
                        &&& r is Done
                        &&& exists|after: PickerState| #[trigger]
                            picker.pressed(&after, combo, true, r->Done_0)
                    },
                }
            },
        }
    }

    /// A key while the model picker is open; its rows are then filled by [`App::refresh_picker`].
    fn on_picker_key(&mut self, combo: KeyCombo) -> (r: Pressed)
        ensures
            final(self).picked(old(self), combo, r@),
    {
        match self.picker.take() {
            None => Pressed::Done(Effect::Nothing),
            Some(mut picker) => {
                let (closes, effect) = picker.press(combo);
                if closes {
                    assert(old(self).picker->0.pressed(&picker, combo, true, effect));
                    Pressed::Done(effect)
                } else {
                    self.picker = Some(picker);
                    Pressed::Refill(effect)
                }
            },
        }
    }

    /// What a key comes to.
    pub open spec fn pressed(
        &self,
        before: &App,
        combo: KeyCombo,
        lookup: Lookup,
        r: PressedView,
    ) -> bool {
        if before.picker is Some {
            self.picked(before, combo, r)
        } else {
            match before.mode {
                Mode::Command => self.entered(before, combo, lookup, r),
                Mode::Search => self.searched(before, combo, lookup, r),
                Mode::Popup => self.popup_pressed(before, combo, lookup, r),
                Mode::Insert if before.composing() => self.composed(before, combo, lookup, r),
                _ => self.commanded(before, combo, lookup, r),
            }
        }
    }

    /// Handles one key press.
    ///
    /// The model picker takes every key while it is open: it is typed into, so a bare letter
    /// belongs in its filter rather than in whatever is behind it.
    pub fn on_key(&mut self, combo: KeyCombo, lookup: &Lookup) -> (r: Pressed)
        requires
            lookup.fits(),
            old(self).chat.input.wf(),
        ensures
            final(self).pressed(old(self), combo, *lookup, r@),
            final(self).chat.input.wf(),
    {
        if self.picker.is_some() {
            return self.on_picker_key(combo);
        }
        match self.mode {
            Mode::Command => self.on_command_key(combo, lookup),
            Mode::Search => self.on_search_key(combo, lookup),
            Mode::Popup => self.on_popup_key(combo, lookup),
            Mode::Insert => {
                if self.chat_is_composing() {
                    self.on_chat_input_key(combo, lookup)
                } else {
                    self.on_normal_key(combo, lookup)
                }
            },
            Mode::Normal | Mode::Visual => self.on_normal_key(combo, lookup),
        }
    }
}

/// `Esc` leaves no half-typed sequence, no leader menu and no popup behind, wherever keys are
/// commands.
pub proof fn lemma_escape_cancels(before: App, after: App, combo: KeyCombo, lookup: Lookup, r: PressedView)
    requires
        combo.code == KeyCode::Esc,
        before.pending@.len() > 0 || before.leader_open || before.overlay != Overlay::Closed,
        after.commanded(&before, combo, lookup, r),
    ensures
        after.pending@.len() == 0,
        after.deadline is None,
        !after.leader_open,
        after.overlay == Overlay::Closed,
        after.mode == Mode::Normal,
{
}

/// Where text is typed, a character without a modifier is text, whatever is bound to it.
pub proof fn lemma_typed_text_is_never_a_command(
    before: App,
    after: App,
    combo: KeyCombo,
    lookup: Lookup,
    r: PressedView,
)
    requires
        combo.code is Char,
        combo.modifiers.none(),
        before.picker is Some || before.mode == Mode::Command || before.mode == Mode::Search || (
        before.mode == Mode::Insert && before.composing()),
        after.pressed(&before, combo, lookup, r),
    ensures
        !(r is Dispatch),
{
}

} // verus!
