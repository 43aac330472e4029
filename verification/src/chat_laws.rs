//! What holds of conversations: nothing said is lost, and nothing is sent unasked.

use vstd::prelude::*;

use crate::app::App;
use crate::app_chat::others;
use crate::chat::ChatState;
use crate::diff_view::names_without;
use crate::effect::Effect;
use crate::jobs::ChatRun;
use crate::panel::Bundle;
use crate::patch::opt_view;
use crate::session::{
    count_questions, last_asked, tokens_used, Estimate, Message, MessageView, Role, SessionView,
};
use crate::strings::{trimmed, views};

verus! {

/// A question joins its conversation behind all that was said there, as a question with the text
/// that was typed; the text is awaited, the input is empty, and the conversation is marked to be
/// written.
pub proof fn lemma_a_question_joins_its_conversation(
    before: App,
    after: App,
    question: Seq<char>,
    session: SessionView,
    at: int,
)
    requires
        after.question_asked(&before, question, session),
    ensures
        after.chat.session is Some,
        after.chat.session->0@.id == session.id,
        after.chat.session->0@.messages.len() == session.messages.len() + 1,
        0 <= at < session.messages.len() ==> after.chat.session->0@.messages[at] == session.messages[at],
        after.chat.session->0@.messages.last().role == Role::User,
        after.chat.session->0@.messages.last().text == question,
        after.chat.session->0@.messages.last().at == before.now_unix_secs,
        after.chat.session->0@.updated_at == before.now_unix_secs,
        opt_view(after.chat.pending) == Some(question),
        after.chat.input@.len() == 0,
        after.chat.stream@.0.len() == 0,
        after.chat.awaiting_confirmation is None,
        after.chat.added == before.chat.added,
        after.chat_dirty,
{
}

/// An answer joins the conversation it belongs to, behind all that was said there; one for another
/// conversation leaves the open one as it is. Either way nothing is awaited any more.
pub proof fn lemma_an_answer_joins_its_conversation(
    before: ChatState,
    after: ChatState,
    message: Message,
    stopped: bool,
    session: Seq<char>,
    now: u64,
    at: int,
)
    requires
        after.heard(&before, message, stopped, session, now),
    ensures
        after.pending is None,
        after.job == 0,
        before.session is Some && before.session->0.id@ == session ==> {
            &&& after.session is Some
            &&& after.session->0@.id == session
            &&& after.session->0@.messages.len() == before.session->0@.messages.len() + 1
            &&& 0 <= at < before.session->0@.messages.len() ==> after.session->0@.messages[at]
                == before.session->0@.messages[at]
            &&& after.session->0@.messages.last() == message@
            &&& after.session->0@.updated_at == now
            &&& !after.status.running()
            &&& (after.status is Stopped) == stopped
            &&& after.stream@.0.len() == 0
        },
        before.session is None || before.session->0.id@ != session ==> {
            &&& after.session == before.session
            &&& after.stream == before.stream
            &&& after.status == before.status
        },
        after.input == before.input,
        after.sessions == before.sessions,
        after.added == before.added,
{
}

/// A conversation is marked to be written exactly when an answer joined it or it was marked before,
/// and agreement to send is recorded only for a complete answer.
pub proof fn lemma_an_answer_is_written_down(before: App, after: App, run: ChatRun, session: Seq<char>)
    requires
        after.answer_taken(&before, run, session),
    ensures
        ({
            let joined = before.chat.session is Some && before.chat.session->0.id@ == session;
            &&& after.chat_dirty == (before.chat_dirty || joined)
            &&& !joined ==> after.state == before.state
            &&& run is Cancelled ==> after.state == before.state
            &&& joined && run is Answered && before.environment is Some ==> views(
                after.state.analysis_opt_in@,
            ).len() >= views(before.state.analysis_opt_in@).len()
            &&& after.review == before.review
        }),
{
}

/// Nothing is sent while agreement is being asked for, nor without a pull request: a question goes
/// out exactly when a pull request is open and no agreement is pending.
pub proof fn lemma_nothing_is_sent_before_it_is_agreed_to(
    before: App,
    after: App,
    bundle: Bundle,
    question: String,
    estimate: Option<Estimate>,
    r: Option<Effect>,
)
    requires
        after.gathered_taken(&before, bundle, question, estimate, r),
    ensures
        r == Some(Effect::AskChat) <==> before.detail is Some
            && before.chat.awaiting_confirmation is None,
        r is Some ==> r == Some(Effect::AskChat),
        after.chat.session == before.chat.session,
        before.detail is Some ==> after.chat_bundle == Some(bundle),
        before.detail is None ==> after == before,
        before.detail is Some && before.chat.awaiting_confirmation is Some && estimate is Some
            ==> after.chat.estimate == estimate && after.chat.open,
{
}

/// A name that is taken out is gone, every other name stays, and nothing is added.
pub proof fn lemma_leaving_out(names: Seq<Seq<char>>, name: Seq<char>, n: nat, other: Seq<char>)
    requires
        n <= names.len(),
    ensures
        !names_without(names, name, n).contains(name),
        other != name ==> names_without(names, name, n).contains(other) == names.subrange(
            0,
            n as int,
        ).contains(other),
        names_without(names, name, n).len() <= n,
        !names.subrange(0, n as int).contains(name) ==> names_without(names, name, n)
            == names.subrange(0, n as int),
    decreases n,
{
    let kept = names_without(names, name, n);
    let all = names.subrange(0, n as int);
    if n > 0 {
        let m = (n - 1) as nat;
        lemma_leaving_out(names, name, m, other);
        let less = names_without(names, name, m);
        let fewer = names.subrange(0, m as int);
        assert(all =~= fewer.push(names[m as int]));
        lemma_push_holds(fewer, names[m as int], other);
        lemma_push_holds(fewer, names[m as int], name);
        lemma_push_holds(less, names[m as int], other);
        lemma_push_holds(less, names[m as int], name);
    } else {
        assert(all =~= kept);
    }
}

proof fn lemma_push_holds(names: Seq<Seq<char>>, last: Seq<char>, other: Seq<char>)
    ensures
        names.push(last).contains(other) == (names.contains(other) || other == last),
{
    let longer = names.push(last);
    if names.contains(other) {
        let k = choose|k: int| 0 <= k < names.len() && names[k] == other;
        assert(longer[k] == other);
    }
    if other == last {
        assert(longer[names.len() as int] == other);
    }
    if longer.contains(other) && other != last {
        let k = choose|k: int| 0 <= k < longer.len() && longer[k] == other;
        assert(names[k] == other);
    }
}

/// Taking a name out keeps the others in their order.
pub proof fn lemma_leaving_out_keeps_the_order(names: Seq<Seq<char>>, more: Seq<Seq<char>>, name: Seq<char>)
    ensures
        names_without(names + more, name, (names + more).len()) == names_without(names, name, names.len())
            + names_without(more, name, more.len()),
    decreases more.len(),
{
    let whole = names + more;
    if more.len() == 0 {
        assert(whole =~= names);
        assert(names_without(names, name, names.len()) + names_without(more, name, 0)
            =~= names_without(names, name, names.len()));
    } else {
        let fewer = more.drop_last();
        lemma_leaving_out_keeps_the_order(names, fewer, name);
        lemma_leaving_out_prefix(whole, names + fewer, name, (names + fewer).len());
        lemma_leaving_out_prefix(more, fewer, name, fewer.len());
        assert(names_without(whole, name, whole.len()) =~= names_without(names, name, names.len())
            + names_without(more, name, more.len()));
    }
}

proof fn lemma_leaving_out_prefix(a: Seq<Seq<char>>, b: Seq<Seq<char>>, name: Seq<char>, n: nat)
    requires
        n <= a.len(),
        n <= b.len(),
        forall|k: int| 0 <= k < n ==> a[k] == b[k],
    ensures
        names_without(a, name, n) == names_without(b, name, n),
    decreases n,
{
    if n > 0 {
        lemma_leaving_out_prefix(a, b, name, (n - 1) as nat);
    }
}

/// A file that was added to the context is in it, once, behind the others; taking it out again
/// leaves the others as they were.
pub proof fn lemma_taking_a_file_out_undoes_adding_it(app: App, name: Seq<char>, at: int)
    ensures
        app.added_with(name).contains(name),
        0 <= at < app.chat.added@.len() ==> app.added_with(name)[at] == app.chat.added@[at]@,
        views(app.chat.added@).contains(name) ==> app.added_with(name).len() == app.chat.added@.len(),
        !views(app.chat.added@).contains(name) ==> {
            &&& app.added_with(name).len() == app.chat.added@.len() + 1
            &&& app.added_with(name).last() == name
            &&& others(app.added_with(name), name, app.added_with(name).len()) == views(app.chat.added@)
        },
{
    let added = views(app.chat.added@);
    lemma_push_holds(added, name, name);
    if !added.contains(name) {
        let longer = added.push(name);
        assert(longer[added.len() as int] == name);
        lemma_leaving_out(added, name, added.len(), name);
        assert(added.subrange(0, added.len() as int) =~= added);
        lemma_leaving_out_prefix(longer, added, name, added.len());
    }
}

/// A file that looks like a secret is never added, nor is one that is neither changed nor there at
/// the commit on screen; any other file with a name is.
pub proof fn lemma_a_secret_is_never_added(app: App, path: Seq<char>, secret: bool, at_head: bool)
    ensures
        secret ==> app.file_refusal(path, secret, at_head) is Some,
        !at_head && !app.has_path(trimmed(path)) ==> app.file_refusal(path, secret, at_head) is Some,
        trimmed(path).len() == 0 ==> app.file_refusal(path, secret, at_head) is Some,
        !secret && trimmed(path).len() > 0 && (at_head || app.has_path(trimmed(path)))
            ==> app.file_refusal(path, secret, at_head) is None,
{
}

/// The last question is one that was asked, and nothing asked comes after it.
pub proof fn lemma_the_last_question(messages: Seq<MessageView>, n: nat)
    requires
        n <= messages.len(),
    ensures
        match last_asked(messages, n) {
            Some(message) => exists|k: int|
                {
                    &&& 0 <= k < n
                    &&& #[trigger] messages[k] == message
                    &&& message.role == Role::User
                    &&& forall|j: int| k < j < n ==> (#[trigger] messages[j]).role != Role::User
                },
            None => forall|j: int| 0 <= j < n ==> (#[trigger] messages[j]).role != Role::User,
        },
    decreases n,
{
    if n > 0 && messages[n - 1].role != Role::User {
        lemma_the_last_question(messages, (n - 1) as nat);
        match last_asked(messages, (n - 1) as nat) {
            Some(message) => {
                let k = choose|k: int|
                    {
                        &&& 0 <= k < n - 1
                        &&& #[trigger] messages[k] == message
                        &&& message.role == Role::User
                        &&& forall|j: int| k < j < n - 1 ==> (#[trigger] messages[j]).role != Role::User
                    };
                assert(messages[k] == message);
            },
            None => {},
        }
    }
}

/// A retry repeats the question that is awaited, and otherwise the last one that was asked in the
/// open conversation.
pub proof fn lemma_a_retry_repeats_the_last_question(chat: ChatState, question: MessageView)
    ensures
        chat.pending is Some ==> chat.repeatable() == Some(chat.pending->0@),
        chat.pending is None && chat.session is None ==> chat.repeatable() is None,
        chat.pending is None && chat.session is Some && question.role == Role::User
            && chat.session->0@.messages.len() > 0 && chat.session->0@.messages.last() == question
            ==> chat.repeatable() == Some(question.text),
{
}

/// One more message adds its own tokens to the total, up to the largest number there is, and one
/// more turn exactly when it is a question.
pub proof fn lemma_a_message_adds_to_the_totals(messages: Seq<MessageView>, message: MessageView)
    ensures
        ({
            let longer = messages.push(message);
            let more: nat = match message.usage {
                Some(usage) => usage.total as nat,
                None => 0,
            };
            let sum = tokens_used(messages, messages.len()) + more;
            &&& count_questions(longer, longer.len()) == count_questions(messages, messages.len())
                + if message.role == Role::User { 1nat } else { 0 }
            &&& sum <= u64::MAX ==> tokens_used(longer, longer.len()) == sum
            &&& sum > u64::MAX ==> tokens_used(longer, longer.len()) == u64::MAX
            &&& tokens_used(messages, messages.len()) <= tokens_used(longer, longer.len())
        }),
        count_questions(Seq::empty(), 0) == 0,
        tokens_used(Seq::empty(), 0) == 0,
{
    let longer = messages.push(message);
    lemma_totals_prefix(longer, messages, messages.len());
    lemma_tokens_fit(messages, messages.len());
}

proof fn lemma_totals_prefix(a: Seq<MessageView>, b: Seq<MessageView>, n: nat)
    requires
        n <= a.len(),
        n <= b.len(),
        forall|k: int| 0 <= k < n ==> a[k] == b[k],
    ensures
        count_questions(a, n) == count_questions(b, n),
        tokens_used(a, n) == tokens_used(b, n),
    decreases n,
{
    if n > 0 {
        lemma_totals_prefix(a, b, (n - 1) as nat);
    }
}

proof fn lemma_tokens_fit(messages: Seq<MessageView>, n: nat)
    ensures
        tokens_used(messages, n) <= u64::MAX,
    decreases n,
{
    if n > 0 {
        lemma_tokens_fit(messages, (n - 1) as nat);
    }
}

} // verus!
