//! What holds of keys: what is typed is kept, what is bound fires once, and what is chosen is what
//! gets saved.

use vstd::prelude::*;

use crate::app::{App, Overlay};
use crate::app_keys::{global_of, popup_key, standing, Lookup, PopupKey, PressedView, StandingView};
use crate::effect::Effect;
use crate::keys::{KeyCode, KeyCombo, Mode, Resolution};
use crate::model_picker::{shortened, PickerState, PickerStep, Step};
use crate::strings::trimmed;

verus! {

/// Taking back the last character of a text undoes typing it, and an empty text stays empty.
pub proof fn lemma_taking_back_undoes_typing(text: Seq<char>, c: char)
    ensures
        shortened(text.push(c)) == text,
        shortened(Seq::empty()) == Seq::<char>::empty(),
{
    assert(shortened(text.push(c)) =~= text);
}

/// Where a search is typed, a character is added to it, the key for it takes the last one back, and
/// leaving keeps what was searched for: the list is as it was, and only the mode changes.
pub proof fn lemma_a_search_is_typed(
    before: App,
    after: App,
    combo: KeyCombo,
    lookup: Lookup,
    r: PressedView,
)
    requires
        after.searched(&before, combo, lookup, r),
        global_of(combo, lookup.global) is None,
    ensures
        after.list == before.list,
        combo.code is Char && combo.modifiers.none() ==> r == PressedView::Search(
            before.list.search@.push(combo.code->Char_0),
        ) && after == before,
        combo.code is Backspace && before.list.search@.len() > 0 ==> r == PressedView::Search(
            before.list.search@.drop_last(),
        ),
        combo.code is Esc || combo.code is Enter ==> after.mode == Mode::Normal && r
            == PressedView::Done(Effect::Nothing),
        !(combo.code is Esc) && !(combo.code is Enter) ==> after.mode == before.mode,
        !(r is Dispatch) && !(r is Run),
{
}

/// The command line runs exactly what was typed, when it is entered and not before; leaving it runs
/// nothing. Either way it is empty then.
pub proof fn lemma_a_command_runs_when_entered(
    before: App,
    after: App,
    combo: KeyCombo,
    lookup: Lookup,
    r: PressedView,
)
    requires
        after.entered(&before, combo, lookup, r),
        global_of(combo, lookup.global) is None,
    ensures
        r is Run <==> combo.code is Enter,
        combo.code is Enter ==> r == PressedView::Run(before.command.input@),
        combo.code is Enter || combo.code is Esc ==> after.command.input@.len() == 0 && after.mode
            == Mode::Normal,
        combo.code is Char && combo.modifiers.none() ==> after.command.input@ == before.command.input@.push(
            combo.code->Char_0,
        ) && after.mode == before.mode,
        combo.code is Backspace && before.command.input@.len() > 0 ==> after.command.input@
            == before.command.input@.drop_last(),
        combo.code is Tab ==> r == PressedView::Complete(before.command.input@) && after == before,
        after.list == before.list,
        after.review == before.review,
{
}

/// A sequence fires what is bound to it. One that also starts a longer one waits, unless it is a
/// hint or the wait is over, and one that nothing is bound to never fires.
pub proof fn lemma_a_sequence_fires_what_is_bound(sequence: Resolution, waited: bool)
    ensures
        sequence is Match ==> standing(sequence, waited) == StandingView::Fired(sequence->Match_0@),
        sequence is Prefix ==> standing(sequence, waited) is Waiting,
        sequence is Unbound ==> standing(sequence, waited) is Unmatched,
        sequence is Ambiguous ==> standing(sequence, true) == StandingView::Fired(
            sequence->Ambiguous_0@,
        ),
        sequence is Ambiguous && !crate::action::hints(sequence->Ambiguous_0@) ==> standing(
            sequence,
            false,
        ) is Waiting,
{
}

/// A key that is not taken for itself joins the keys before it, behind all of them; a sequence that
/// nothing is bound to ends with it, and nothing fires.
pub proof fn lemma_keys_make_up_a_sequence(
    before: App,
    after: App,
    combo: KeyCombo,
    lookup: Lookup,
    r: PressedView,
    at: int,
)
    requires
        after.commanded(&before, combo, lookup, r),
        combo.code != KeyCode::Esc || (before.pending@.len() == 0 && !before.leader_open
            && before.overlay == Overlay::Closed),
    ensures
        lookup.sequence is Match || lookup.sequence is Prefix || lookup.sequence is Ambiguous ==> {
            &&& after.pending@.len() == before.pending@.len() + 1
            &&& 0 <= at < before.pending@.len() ==> after.pending@[at] == before.pending@[at]
            &&& after.pending@.last() == combo
        },
        lookup.sequence is Match ==> r == PressedView::Dispatch(lookup.sequence->Match_0@, true),
        lookup.sequence is Prefix ==> r == PressedView::Done(Effect::Nothing) && after.deadline
            == lookup.deadline(),
        lookup.sequence is Unbound ==> after.pending@.len() == 0,
        lookup.sequence is Unbound && global_of(combo, lookup.global) is None ==> r
            == PressedView::Done(Effect::Nothing),
        after.list == before.list,
        after.review == before.review,
        after.chat == before.chat,
{
}

/// Once the wait is over, an ambiguous sequence fires what is bound to it, and a sequence that was
/// only begun is dropped; while the leader menu is open nothing fires.
pub proof fn lemma_the_end_of_the_wait_decides(before: App, after: App, lookup: Lookup, r: PressedView)
    requires
        after.waited(&before, lookup, r),
    ensures
        r is Dispatch <==> before.pending@.len() > 0 && !before.leader_open && (lookup.sequence is Match
            || lookup.sequence is Ambiguous),
        r is Dispatch && lookup.sequence is Ambiguous ==> r == PressedView::Dispatch(
            lookup.sequence->Ambiguous_0@,
            true,
        ),
        lookup.sequence is Unbound && !before.leader_open ==> after.pending@.len() == 0,
        after.leader_open == before.leader_open,
        after.overlay == before.overlay,
{
}

/// Where a question is typed, a character goes into it at the cursor and nowhere else.
pub proof fn lemma_a_question_is_typed(
    before: App,
    after: App,
    combo: KeyCombo,
    lookup: Lookup,
    r: PressedView,
)
    requires
        after.composed(&before, combo, lookup, r),
        combo.code is Char,
        combo.modifiers.none(),
        before.chat.input.wf(),
    ensures
        r == PressedView::Done(Effect::Nothing),
        after.chat.input@ == before.chat.input@.insert(
            before.chat.input.cursor as int,
            combo.code->Char_0,
        ),
        after.chat.input.cursor == before.chat.input.cursor + 1,
        after.chat.session == before.chat.session,
        after.pending == before.pending,
        after.overlay == before.overlay,
{
}

/// A popup closes on its way out and otherwise does no more than it shows: the theme picker moves
/// by one and chooses the theme under its cursor, and only the help list scrolls.
pub proof fn lemma_a_popup_key(combo: KeyCombo, overlay: Overlay, scroll: nat)
    requires
        scroll <= usize::MAX,
    ensures
        combo.code is Esc ==> popup_key(combo, overlay, scroll) is Cancel,
        popup_key(combo, overlay, scroll) is Move ==> overlay == Overlay::ThemePicker,
        popup_key(combo, overlay, scroll) is Choose <==> overlay == Overlay::ThemePicker
            && combo.code is Enter,
        popup_key(combo, overlay, scroll) is Scroll ==> overlay == Overlay::Help,
        overlay == Overlay::ThemePicker && combo.code is Down ==> popup_key(combo, overlay, scroll)
            == PopupKey::Move(1),
        overlay == Overlay::ThemePicker && combo.code is Up ==> popup_key(combo, overlay, scroll)
            == PopupKey::Move(-1),
        overlay == Overlay::Help && combo.code is Down && scroll < usize::MAX ==> popup_key(
            combo,
            overlay,
            scroll,
        ) == PopupKey::Scroll(scroll + 1),
        overlay == Overlay::Help && combo.code is Up && scroll > 0 ==> popup_key(combo, overlay, scroll)
            == PopupKey::Scroll((scroll - 1) as nat),
        overlay == Overlay::Help && combo.code is Up && scroll == 0 ==> popup_key(combo, overlay, scroll)
            == PopupKey::Scroll(0),
{
}

/// The theme that is chosen is the one under the cursor, and the popup closes with it.
pub proof fn lemma_the_theme_under_the_cursor_is_chosen(before: App, after: App, combo: KeyCombo, r: PressedView)
    requires
        before.overlay == Overlay::ThemePicker,
        combo.code is Enter,
        before.picker_cursor < before.picker_items@.len(),
        after.popped(&before, combo, r),
    ensures
        r == PressedView::Choose(before.picker_items@[before.picker_cursor as int].name@),
        after.overlay == Overlay::Closed,
        after.theme == before.theme,
{
}

/// The picker's cursor moves by as many rows as it is told, and stays on the rows there are.
pub proof fn lemma_the_picker_moves_among_its_rows(picker: PickerState, delta: int)
    requires
        picker.cursor_fits(),
        picker.rows@.len() <= i64::MAX,
    ensures
        picker.moved(delta).cursor_fits(),
        0 <= picker.cursor + delta < picker.rows@.len() ==> picker.moved(delta).cursor == picker.cursor
            + delta,
        picker.cursor + delta < 0 ==> picker.moved(delta).cursor == 0,
        picker.rows@.len() > 0 && picker.cursor + delta >= picker.rows@.len() ==> picker.moved(delta).cursor
            == picker.rows@.len() - 1,
        picker.moved(delta).rows == picker.rows,
        picker.moved(delta).query == picker.query,
{
    assert(picker.rows.len() == picker.rows@.len());
}

/// What is typed goes into the box of the step: a key where one is asked for, a filter where there
/// is a list to search, and never both; taking it back undoes it.
pub proof fn lemma_typing_goes_into_the_steps_box(
    before: PickerState,
    typed: PickerState,
    after: PickerState,
    c: char,
)
    requires
        before.typed(&typed, c),
        typed.erased(&after),
    ensures
        before.step == Step::Key ==> typed.key_input@ == before.key_input@.push(c) && typed.query@
            == before.query@ && typed.cursor == before.cursor,
        before.step == Step::Provider || before.step == Step::Model ==> typed.query@
            == before.query@.push(c) && typed.key_input@ == before.key_input@ && typed.cursor == 0,
        after.query@ == before.query@,
        after.key_input@ == before.key_input@,
        after.step == before.step,
        after.provider == before.provider,
        after.model == before.model,
        after.thinking == before.thinking,
{
    lemma_taking_back_undoes_typing(before.query@, c);
    lemma_taking_back_undoes_typing(before.key_input@, c);
}

/// A row that is refused is never chosen: the picker stays where it is and says why.
pub proof fn lemma_a_refused_row_is_not_chosen(before: PickerState, after: PickerState, r: PickerStep)
    requires
        before.cursor < before.rows@.len(),
        before.rows@[before.cursor as int].disabled is Some,
        before.advanced(&after, r),
    ensures
        r is Refused,
        after.notice == before.rows@[before.cursor as int].disabled,
        after.step == before.step,
        after.provider == before.provider,
        after.model == before.model,
        after.thinking == before.thinking,
        after.rows == before.rows,
{
}

/// The row under the cursor is what is chosen: its provider, then its model, then its thinking
/// setting, each leading to the next step with what was chosen before kept.
pub proof fn lemma_the_row_under_the_cursor_is_chosen(before: PickerState, after: PickerState, r: PickerStep)
    requires
        before.cursor < before.rows@.len(),
        before.rows@[before.cursor as int].disabled is None,
        before.advanced(&after, r),
    ensures
        ({
            let choice = before.rows@[before.cursor as int].choice;
            &&& before.step == Step::Provider && choice is Provider ==> after.provider == Some(
                choice->Provider_0,
            ) && after.step == Step::Model && after.query@.len() == 0
            &&& before.step == Step::Model && choice is Model ==> after.model == Some(choice->Model_0)
                && after.provider == before.provider && after.step == Step::Thinking
            &&& before.step == Step::Thinking && choice is Thinking ==> after.thinking == Some(
                choice->Thinking_0,
            ) && after.provider == before.provider && after.model == before.model
            &&& before.step == Step::Thinking && choice is Thinking ==> (after.step == Step::Confirm
                <==> before.key_present) && (after.step == Step::Key <==> !before.key_present)
            &&& r is Commit ==> before.step == Step::Confirm
            &&& r is KeyTyped ==> before.step == Step::Key
        }),
{
}

/// What gets saved is what was chosen: the provider, the model and the thinking setting of the
/// picker, and nothing while one of the first two is missing.
pub proof fn lemma_what_is_saved_is_what_was_chosen(before: PickerState, after: PickerState, r: PickerStep)
    requires
        before.step == Step::Confirm,
        before.cursor < before.rows@.len(),
        before.rows@[before.cursor as int].disabled is None,
        before.advanced(&after, r),
    ensures
        r is Commit <==> before.provider is Some && before.model is Some,
        r is Commit ==> Some(r->Commit_provider) == before.provider && Some(r->Commit_model) == before.model
            && r->thinking == before.thinking,
        after.provider == before.provider,
        after.model == before.model,
{
}

/// A key is saved for the provider that was chosen, as it was typed, and never when it is blank.
pub proof fn lemma_a_key_is_saved_for_its_provider(before: PickerState, after: PickerState, r: PickerStep)
    requires
        before.step == Step::Key,
        before.cursor < before.rows@.len(),
        before.rows@[before.cursor as int].disabled is None,
        before.advanced(&after, r),
    ensures
        r is KeyTyped <==> before.provider is Some && trimmed(before.key_input@).len() > 0,
        r is KeyTyped ==> Some(r->KeyTyped_provider) == before.provider && r->key == before.key_input,
        after.step == Step::Key,
{
}

/// Going back forgets what the step that is gone back to chooses, and what was typed since; what
/// was chosen before that stays.
pub proof fn lemma_going_back_keeps_earlier_choices(before: PickerState, after: PickerState, r: bool)
    requires
        before.went_back(&after, r),
    ensures
        before.step == Step::Model ==> after.step == Step::Provider && after.provider is None,
        before.step == Step::Thinking ==> after.step == Step::Model && after.model is None
            && after.provider == before.provider,
        before.step == Step::Confirm ==> after.step == Step::Thinking && after.model == before.model
            && after.provider == before.provider,
        before.step == Step::Key ==> after.key_input@.len() == 0 && after.provider == before.provider
            && after.model == before.model,
        before.step == Step::Provider ==> !r && after.step == Step::Provider,
        after.rows == before.rows,
{
}

} // verus!
