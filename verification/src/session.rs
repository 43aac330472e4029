//! A conversation about a pull request: who said what, and what it cost.

use vstd::prelude::*;

use crate::catalog::{copy_thinking, Thinking};
use crate::strings::{concat4, decimal, number, same};

verus! {

/// Who a message is from.
#[derive(Debug, Clone, Copy, PartialEq, Eq, Structural)]
pub enum Role {
    /// The person asking.
    User,
    /// The model answering.
    Assistant,
}

/// What an answer used, in tokens.
#[derive(Debug, Clone, Copy, PartialEq, Eq, Structural)]
pub struct Usage {
    /// Tokens sent.
    pub prompt: u64,
    /// Tokens received.
    pub completion: u64,
    /// Both together.
    pub total: u64,
    /// Tokens spent on reasoning, where the provider says so.
    pub reasoning: Option<u64>,
}

/// A place an answer refers to.
#[derive(Debug, PartialEq, Eq)]
pub struct Reference {
    /// The file.
    pub path: String,
    /// The place as it is shown.
    pub label: String,
}

/// What a [`Reference`] says.
pub struct ReferenceView {
    pub path: Seq<char>,
    pub label: Seq<char>,
}

impl View for Reference {
    type V = ReferenceView;

    open spec fn view(&self) -> ReferenceView {
        ReferenceView { path: self.path@, label: self.label@ }
    }
}

impl Clone for Reference {
    fn clone(&self) -> (r: Self)
        ensures
            r == *self,
    {
        Reference { path: self.path.clone(), label: self.label.clone() }
    }
}

/// One message of a conversation.
#[derive(Debug, PartialEq, Eq)]
pub struct Message {
    /// Who it is from.
    pub role: Role,
    /// What it says.
    pub text: String,
    /// When it was written, in seconds since the epoch.
    pub at: u64,
    /// What it used, for an answer.
    pub usage: Option<Usage>,
    /// The places it refers to.
    pub references: Vec<Reference>,
    /// Whether it was stopped before it was complete.
    pub partial: bool,
}

/// What a [`Message`] says.
pub struct MessageView {
    pub role: Role,
    pub text: Seq<char>,
    pub at: u64,
    pub usage: Option<Usage>,
    pub references: Seq<ReferenceView>,
    pub partial: bool,
}

impl View for Message {
    type V = MessageView;

    open spec fn view(&self) -> MessageView {
        MessageView {
            role: self.role,
            text: self.text@,
            at: self.at,
            usage: self.usage,
            references: self.references@.map_values(|r: Reference| r@),
            partial: self.partial,
        }
    }
}

impl Clone for Message {
    fn clone(&self) -> (r: Self)
        ensures
            r@ == self@,
    {
        let references = self.references.clone();
        assert(references@ =~= self.references@);
        Message {
            role: self.role,
            text: self.text.clone(),
            at: self.at,
            usage: self.usage,
            references,
            partial: self.partial,
        }
    }
}

impl MessageView {
    /// A question.
    pub open spec fn question(text: Seq<char>, at: u64) -> MessageView {
        MessageView {
            role: Role::User,
            text,
            at,
            usage: None,
            references: Seq::empty(),
            partial: false,
        }
    }
}

impl Message {
    /// A question.
    #[must_use]
    pub fn user(text: &str, at: u64) -> (r: Message)
        ensures
            r@ == MessageView::question(text@, at),
    {
        let r = Message {
            role: Role::User,
            text: text.to_owned(),
            at,
            usage: None,
            references: Vec::new(),
            partial: false,
        };
        assert(r@.references =~= Seq::empty());
        r
    }

    /// An answer.
    #[must_use]
    pub fn assistant(text: &str, at: u64, usage: Option<Usage>, references: Vec<Reference>) -> (r:
        Message)
        ensures
            r@ == (MessageView {
                role: Role::Assistant,
                text: text@,
                at,
                usage,
                references: references@.map_values(|r: Reference| r@),
                partial: false,
            }),
    {
        Message { role: Role::Assistant, text: text.to_owned(), at, usage, references, partial: false }
    }
}

/// The messages' contents, one by one.
pub open spec fn message_views(messages: Seq<Message>) -> Seq<MessageView> {
    messages.map_values(|m: Message| m@)
}

/// A conversation about a pull request.
#[derive(Debug, PartialEq, Eq)]
pub struct Session {
    /// Its id.
    pub id: String,
    /// The repository it is about.
    pub repo: String,
    /// The pull request it is about.
    pub pr: u64,
    /// The commit it was started at.
    pub head_sha: String,
    /// The model it was started with.
    pub model: String,
    /// The thinking setting it was started with.
    pub thinking: Option<Thinking>,
    /// When it was started, in seconds since the epoch.
    pub created_at: u64,
    /// When it last changed, in seconds since the epoch.
    pub updated_at: u64,
    /// The messages, oldest first.
    pub messages: Vec<Message>,
}

/// What a [`Session`] says.
pub struct SessionView {
    pub id: Seq<char>,
    pub repo: Seq<char>,
    pub pr: u64,
    pub head_sha: Seq<char>,
    pub model: Seq<char>,
    pub thinking: Option<Thinking>,
    pub created_at: u64,
    pub updated_at: u64,
    pub messages: Seq<MessageView>,
}

impl View for Session {
    type V = SessionView;

    open spec fn view(&self) -> SessionView {
        SessionView {
            id: self.id@,
            repo: self.repo@,
            pr: self.pr,
            head_sha: self.head_sha@,
            model: self.model@,
            thinking: self.thinking,
            created_at: self.created_at,
            updated_at: self.updated_at,
            messages: message_views(self.messages@),
        }
    }
}

impl Clone for Session {
    fn clone(&self) -> (r: Self)
        ensures
            r@ == self@,
    {
        let mut messages: Vec<Message> = Vec::new();
        let mut i: usize = 0;
        while i < self.messages.len()
            invariant
                i <= self.messages@.len(),
                messages@.len() == i,
                forall|j: int| 0 <= j < i ==> (#[trigger] messages@[j])@ == self.messages@[j]@,
            decreases self.messages@.len() - i,
        {
            messages.push(self.messages[i].clone());
            i += 1;
        }
        let r = Session {
            id: self.id.clone(),
            repo: self.repo.clone(),
            pr: self.pr,
            head_sha: self.head_sha.clone(),
            model: self.model.clone(),
            thinking: copy_thinking(&self.thinking),
            created_at: self.created_at,
            updated_at: self.updated_at,
            messages,
        };
        assert(r@.messages =~= self@.messages);
        r
    }
}

/// How many of the first `n` messages are questions.
pub open spec fn count_questions(messages: Seq<MessageView>, n: nat) -> nat
    decreases n,
{
    if n == 0 {
        0
    } else {
        count_questions(messages, (n - 1) as nat) + if messages[n - 1].role == Role::User {
            1nat
        } else {
            0
        }
    }
}

/// The last question among the first `n` messages.
pub open spec fn last_asked(messages: Seq<MessageView>, n: nat) -> Option<MessageView>
    decreases n,
{
    if n == 0 {
        None
    } else if messages[n - 1].role == Role::User {
        Some(messages[n - 1])
    } else {
        last_asked(messages, (n - 1) as nat)
    }
}

/// What the first `n` messages used, in tokens, up to the largest number there is.
pub open spec fn tokens_used(messages: Seq<MessageView>, n: nat) -> nat
    decreases n,
{
    if n == 0 {
        0
    } else {
        let more = match messages[n - 1].usage {
            Some(usage) => usage.total as nat,
            None => 0,
        };
        let sum = tokens_used(messages, (n - 1) as nat) + more;
        if sum <= u64::MAX { sum } else { u64::MAX as nat }
    }
}

/// What a conversation amounts to.
#[derive(Debug, Clone, Copy, PartialEq, Eq, Structural)]
pub struct Totals {
    /// How many questions were asked.
    pub turns: usize,
    /// How many tokens were used.
    pub tokens: u64,
}

impl Default for Totals {
    fn default() -> (r: Self)
        ensures
            r == (Totals { turns: 0, tokens: 0 }),
    {
        Totals { turns: 0, tokens: 0 }
    }
}

impl Totals {
    /// The totals in words.
    pub open spec fn words(self) -> Seq<char> {
        decimal(self.turns as nat) + " turn(s) · ~"@ + decimal(self.tokens as nat) + " tokens"@
    }

    /// The totals in words.
    #[must_use]
    pub fn label(&self) -> (r: String)
        ensures
            r@ == self.words(),
    {
        concat4(
            number(self.turns as u64).as_str(),
            " turn(s) · ~",
            number(self.tokens).as_str(),
            " tokens",
        )
    }
}

impl Session {
    /// A conversation in which nothing has been said.
    #[must_use]
    pub fn new(
        id: &str,
        repo: &str,
        pr: u64,
        head_sha: &str,
        model: &str,
        thinking: Option<Thinking>,
        now: u64,
    ) -> (r: Session)
        ensures
            r@ == (SessionView {
                id: id@,
                repo: repo@,
                pr,
                head_sha: head_sha@,
                model: model@,
                thinking,
                created_at: now,
                updated_at: now,
                messages: Seq::empty(),
            }),
    {
        let r = Session {
            id: id.to_owned(),
            repo: repo.to_owned(),
            pr,
            head_sha: head_sha.to_owned(),
            model: model.to_owned(),
            thinking,
            created_at: now,
            updated_at: now,
            messages: Vec::new(),
        };
        assert(r@.messages =~= Seq::empty());
        r
    }

    /// Whether a message was added.
    pub open spec fn said(&self, before: &Session, message: Message, now: u64) -> bool {
        &&& self@ == (SessionView {
            messages: before@.messages.push(message@),
            updated_at: now,
            ..before@
        })
    }

    /// Adds a message.
    pub fn say(&mut self, message: Message, now: u64)
        ensures
            final(self).said(old(self), message, now),
    {
        let ghost before = self.messages@;
        self.messages.push(message);
        self.updated_at = now;
        assert(message_views(self.messages@) =~= message_views(before).push(message@));
    }

    /// How many questions were asked.
    #[must_use]
    pub fn turns(&self) -> (n: usize)
        ensures
            n == count_questions(self@.messages, self@.messages.len()),
    {
        let mut n: usize = 0;
        let mut i: usize = 0;
        while i < self.messages.len()
            invariant
                i <= self.messages@.len(),
                n <= i,
                n == count_questions(self@.messages, i as nat),
            decreases self.messages@.len() - i,
        {
            assert(self@.messages[i as int] == self.messages@[i as int]@);
            if self.messages[i].role == Role::User {
                n += 1;
            }
            i += 1;
        }
        n
    }

    /// The last question that was asked.
    #[must_use]
    pub fn last_question(&self) -> (r: Option<&Message>)
        ensures
            match r {
                Some(message) => last_asked(self@.messages, self@.messages.len()) == Some(message@),
                None => last_asked(self@.messages, self@.messages.len()) is None,
            },
    {
        let mut n: usize = self.messages.len();
        while n > 0
            invariant
                n <= self.messages@.len(),
                last_asked(self@.messages, self@.messages.len()) == last_asked(
                    self@.messages,
                    n as nat,
                ),
            decreases n,
        {
            assert(self@.messages[n - 1] == self.messages@[n - 1]@);
            if self.messages[n - 1].role == Role::User {
                return Some(&self.messages[n - 1]);
            }
            n -= 1;
        }
        None
    }

    /// What the conversation amounts to.
    #[must_use]
    pub fn totals(&self) -> (r: Totals)
        ensures
            r.turns == count_questions(self@.messages, self@.messages.len()),
            r.tokens == tokens_used(self@.messages, self@.messages.len()),
    {
        let mut tokens: u64 = 0;
        let mut i: usize = 0;
        while i < self.messages.len()
            invariant
                i <= self.messages@.len(),
                tokens == tokens_used(self@.messages, i as nat),
            decreases self.messages@.len() - i,
        {
            assert(self@.messages[i as int] == self.messages@[i as int]@);
            match self.messages[i].usage {
                Some(usage) => {
                    tokens = tokens.saturating_add(usage.total);
                },
                None => {},
            }
            i += 1;
        }
        Totals { turns: self.turns(), tokens }
    }

    /// Whether the conversation was started at another commit.
    #[must_use]
    pub fn is_stale_against(&self, head_sha: &str) -> (r: bool)
        ensures
            r == (self.head_sha@ != head_sha@),
    {
        !same(self.head_sha.as_str(), head_sha)
    }
}

/// A conversation as the list shows it.
#[derive(Debug, PartialEq, Eq)]
pub struct SessionMeta {
    /// Its id.
    pub id: String,
    /// When it last changed, in seconds since the epoch.
    pub updated_at: u64,
    /// How many questions were asked.
    pub turns: usize,
    /// How many tokens were used.
    pub tokens: u64,
}

/// What a [`SessionMeta`] says.
pub struct MetaView {
    pub id: Seq<char>,
    pub updated_at: u64,
    pub turns: usize,
    pub tokens: u64,
}

impl View for SessionMeta {
    type V = MetaView;

    open spec fn view(&self) -> MetaView {
        MetaView {
            id: self.id@,
            updated_at: self.updated_at,
            turns: self.turns,
            tokens: self.tokens,
        }
    }
}

impl SessionMeta {
    /// A conversation's entry in the list.
    #[must_use]
    pub fn of(session: &Session) -> (r: SessionMeta)
        ensures
            r@.id == session@.id,
            r@.updated_at == session@.updated_at,
            r@.turns == count_questions(session@.messages, session@.messages.len()),
            r@.tokens == tokens_used(session@.messages, session@.messages.len()),
    {
        let totals = session.totals();
        SessionMeta {
            id: session.id.clone(),
            updated_at: session.updated_at,
            turns: totals.turns,
            tokens: totals.tokens,
        }
    }
}

/// What a request leaves out of the conversation.
#[derive(Debug, Clone, Copy, PartialEq, Eq, Structural)]
pub struct HistoryPlan {
    /// How many earlier messages are sent.
    pub kept: usize,
    /// How many earlier messages are not.
    pub dropped: usize,
}

/// What a request would be made of.
#[derive(Debug, PartialEq, Eq)]
pub struct Estimate {
    /// How many bytes of context go along.
    pub context_bytes: usize,
    /// Which earlier messages go along.
    pub history: HistoryPlan,
    /// The size in words.
    pub label: String,
}

} // verus!
