//! The chat pane's state: which conversation is open, what is typed, what has streamed in and what
//! is in flight.

use vstd::prelude::*;

use crate::input::TextInput;
use crate::patch::opt_view;
use crate::session::{
    count_questions, last_asked, tokens_used, Estimate, HistoryPlan, Message, Session, SessionMeta,
    SessionView, Totals,
};
use crate::stream::StreamBuffer;
use crate::strings::{concat2, same};

verus! {

/// What the pane is doing.
#[derive(Debug, PartialEq, Eq)]
pub enum ChatStatus {
    /// Nothing in flight.
    Idle,
    /// Waiting for the provider.
    Sending {
        /// What the job is doing now.
        stage: String,
    },
    /// Text is arriving.
    Streaming {
        /// What the job is doing now.
        stage: String,
    },
    /// The last attempt failed, with the reason to show.
    Failed {
        /// The provider's own message.
        reason: String,
    },
    /// The answer was stopped before it finished.
    Stopped,
}

impl Default for ChatStatus {
    fn default() -> (r: Self)
        ensures
            r is Idle,
    {
        ChatStatus::Idle
    }
}

impl ChatStatus {
    /// Whether work is in flight.
    pub open spec fn running(self) -> bool {
        self is Sending || self is Streaming
    }

    /// The status in words.
    pub open spec fn words(self) -> Seq<char> {
        match self {
            ChatStatus::Idle => "ready"@,
            ChatStatus::Sending { stage } => stage@,
            ChatStatus::Streaming { stage } => stage@,
            ChatStatus::Failed { reason } => "failed: "@ + reason@,
            ChatStatus::Stopped => "stopped; the answer is kept"@,
        }
    }

    /// Whether work is in flight, which is what `Esc` cancels.
    #[must_use]
    pub fn is_running(&self) -> (r: bool)
        ensures
            r == self.running(),
    {
        matches!(self, ChatStatus::Sending { .. } | ChatStatus::Streaming { .. })
    }

    /// The one-line description for the pane's footer.
    #[must_use]
    pub fn label(&self) -> (r: String)
        ensures
            r@ == self.words(),
    {
        match self {
            ChatStatus::Idle => "ready".to_owned(),
            ChatStatus::Sending { stage } => stage.clone(),
            ChatStatus::Streaming { stage } => stage.clone(),
            ChatStatus::Failed { reason } => concat2("failed: ", reason.as_str()),
            ChatStatus::Stopped => "stopped; the answer is kept".to_owned(),
        }
    }
}

/// One line of the conversation, as it is drawn.
///
/// A click, a jump or a retry has to name a message rather than a row on screen.
#[derive(Debug, Clone, Copy, PartialEq, Eq, Structural)]
pub enum ChatLine {
    /// A message that is stored in the session, by index.
    Stored(usize),
    /// The answer arriving now.
    Streaming,
}

/// The chat pane.
#[derive(Debug)]
pub struct ChatState {
    /// Whether the pane is on screen.
    ///
    /// Separate from having a session: before anything was asked there is no session, and the
    /// pane is still worth opening, as it says what to do.
    pub open: bool,
    /// The conversations that exist for this pull request, newest first.
    pub sessions: Vec<SessionMeta>,
    /// The conversation on screen.
    pub session: Option<Session>,
    /// What the pane is doing.
    pub status: ChatStatus,
    /// The compose box.
    pub input: TextInput,
    /// How far up the conversation is scrolled, in lines from the bottom.
    pub scroll: usize,
    /// The text that has streamed in for the answer in flight.
    pub stream: StreamBuffer,
    /// The question in flight, kept so a retry can repeat it.
    pub pending: Option<String>,
    /// The question waiting to be confirmed before the first send for this repository.
    pub awaiting_confirmation: Option<String>,
    /// The question whose context has been gathered and is waiting to be sent.
    ///
    /// A gather is not the send: by the time the send comes, the compose box has been cleared.
    pub staged: Option<String>,
    /// What the next request would be made of, when it is known.
    pub estimate: Option<Estimate>,
    /// What the last request left out of the conversation.
    pub dropped: usize,
    /// The files that were added to the context.
    pub added: Vec<String>,
    /// Which of them the cursor is on.
    pub added_cursor: usize,
    /// Whether the session list is what the pane shows.
    pub listing: bool,
    /// The job id of the send in flight.
    pub job: u64,
    /// The job id of the load in flight.
    pub load_job: u64,
    /// The job id of the export in flight.
    pub export_job: u64,
}

impl Default for ChatState {
    fn default() -> (r: Self)
        ensures
            r.is_new(),
    {
        ChatState {
            open: false,
            sessions: Vec::new(),
            session: None,
            status: ChatStatus::Idle,
            input: TextInput::new(),
            scroll: 0,
            stream: StreamBuffer::default(),
            pending: None,
            awaiting_confirmation: None,
            staged: None,
            estimate: None,
            dropped: 0,
            added: Vec::new(),
            added_cursor: 0,
            listing: false,
            job: 0,
            load_job: 0,
            export_job: 0,
        }
    }
}

impl ChatState {
    /// Whether nothing has been said, typed or loaded yet.
    pub open spec fn is_new(&self) -> bool {
        &&& self.is_blank()
        &&& !self.open
        &&& self.sessions@.len() == 0
        &&& self.input@.len() == 0
        &&& self.input.cursor == 0
        &&& self.added@.len() == 0
        &&& self.added_cursor == 0
        &&& self.job == 0
        &&& self.load_job == 0
        &&& self.export_job == 0
    }

    /// Whether nothing has been asked in the conversation on screen.
    pub open spec fn is_blank(&self) -> bool {
        &&& self.session is None
        &&& self.status is Idle
        &&& self.stream@ == (Seq::<char>::empty(), false)
        &&& self.pending is None
        &&& self.awaiting_confirmation is None
        &&& self.staged is None
        &&& self.estimate is None
        &&& self.dropped == 0
        &&& self.scroll == 0
        &&& !self.listing
    }

    /// Opens the pane.
    pub fn open(&mut self)
        ensures
            *final(self) == (ChatState { open: true, listing: false, ..*old(self) }),
    {
        self.open = true;
        self.listing = false;
    }

    /// Closes the pane, keeping the conversation.
    pub fn close(&mut self)
        ensures
            *final(self) == (ChatState { open: false, listing: false, ..*old(self) }),
    {
        self.open = false;
        self.listing = false;
    }

    /// What the conversation amounts to.
    pub open spec fn summed(&self) -> Totals {
        match self.session {
            Some(session) => Totals {
                turns: count_questions(session@.messages, session@.messages.len()) as usize,
                tokens: tokens_used(session@.messages, session@.messages.len()) as u64,
            },
            None => Totals { turns: 0, tokens: 0 },
        }
    }

    /// The conversation's totals, for the header.
    #[must_use]
    pub fn totals(&self) -> (r: Totals)
        ensures
            r == self.summed(),
    {
        match &self.session {
            Some(session) => session.totals(),
            None => Totals::default(),
        }
    }

    /// Whether there is anything to send, and nothing in flight.
    #[must_use]
    pub fn can_send(&self) -> (r: bool)
        ensures
            r == (self.input@.len() > 0 && !self.status.running()),
    {
        !self.input.is_empty() && !self.status.is_running()
    }

    /// Whether the pane is waiting for a send to be confirmed.
    #[must_use]
    pub fn is_confirming(&self) -> (r: bool)
        ensures
            r == (self.awaiting_confirmation is Some),
    {
        self.awaiting_confirmation.is_some()
    }

    /// Takes the question a gather was made for, if there is one.
    pub fn take_staged(&mut self) -> (r: Option<String>)
        ensures
            r == old(self).staged,
            *final(self) == (ChatState { staged: None, ..*old(self) }),
    {
        self.staged.take()
    }

    /// Keeps the question a gather was made for.
    pub fn stage(&mut self, question: String)
        ensures
            *final(self) == (ChatState { staged: Some(question), ..*old(self) }),
    {
        self.staged = Some(question);
    }

    /// The question a retry would repeat.
    pub open spec fn repeatable(&self) -> Option<Seq<char>> {
        match (self.pending, self.session) {
            (Some(pending), _) => Some(pending@),
            (None, Some(session)) => match last_asked(
                session@.messages,
                session@.messages.len(),
            ) {
                Some(message) => Some(message.text),
                None => None,
            },
            (None, None) => None,
        }
    }

    /// The question a retry would repeat: the one in flight, or the last one asked.
    #[must_use]
    pub fn retry_question(&self) -> (r: Option<String>)
        ensures
            opt_view(r) == self.repeatable(),
    {
        match &self.pending {
            Some(pending) => Some(pending.clone()),
            None => match &self.session {
                Some(session) => match session.last_question() {
                    Some(message) => Some(message.text.clone()),
                    None => None,
                },
                None => None,
            },
        }
    }

    /// How many messages the conversation on screen holds.
    pub open spec fn stored_count(&self) -> nat {
        match self.session {
            Some(session) => session.messages@.len(),
            None => 0,
        }
    }

    /// Whether an answer is drawn below the stored messages.
    pub open spec fn draws_answer(&self) -> bool {
        self.status.running() || self.status is Stopped
    }

    /// The messages to draw, oldest first, with the answer in flight as its own message at the
    /// end.
    #[must_use]
    pub fn messages(&self) -> (r: Vec<ChatLine>)
        ensures
            r@.len() == self.stored_count() + if self.draws_answer() { 1int } else { 0 },
            forall|i: int|
                0 <= i < self.stored_count() ==> #[trigger] r@[i] == ChatLine::Stored(i as usize),
            self.draws_answer() ==> r@.last() == ChatLine::Streaming,
    {
        let mut lines: Vec<ChatLine> = Vec::new();
        match &self.session {
            Some(session) => {
                let mut index: usize = 0;
                while index < session.messages.len()
                    invariant
                        index <= session.messages@.len(),
                        lines@.len() == index,
                        forall|i: int|
                            0 <= i < index ==> #[trigger] lines@[i] == ChatLine::Stored(i as usize),
                    decreases session.messages@.len() - index,
                {
                    lines.push(ChatLine::Stored(index));
                    index += 1;
                }
            },
            None => {},
        }
        if self.status.is_running() || matches!(self.status, ChatStatus::Stopped) {
            lines.push(ChatLine::Streaming);
        }
        lines
    }

    /// How many of the conversation's messages the last request did not send.
    pub fn set_dropped(&mut self, plan: &HistoryPlan)
        ensures
            *final(self) == (ChatState { dropped: plan.dropped, ..*old(self) }),
    {
        self.dropped = plan.dropped;
    }

    /// Records an estimate for display.
    pub fn set_estimate(&mut self, estimate: Estimate)
        ensures
            *final(self) == (ChatState {
                dropped: estimate.history.dropped,
                estimate: Some(estimate),
                ..*old(self)
            }),
    {
        self.dropped = estimate.history.dropped;
        self.estimate = Some(estimate);
    }

    /// Whether the answer in flight was given up.
    pub open spec fn stopped(&self, before: &ChatState) -> bool {
        &&& *self == (ChatState {
            status: ChatStatus::Stopped,
            pending: None,
            staged: None,
            ..*before
        })
    }

    /// Forgets the answer in flight, keeping whatever arrived.
    pub fn stop(&mut self)
        ensures
            final(self).stopped(old(self)),
    {
        self.status = ChatStatus::Stopped;
        self.pending = None;
        self.staged = None;
    }

    /// Clears the pane back to "nothing asked yet" for a new conversation.
    ///
    /// What is typed, the list of conversations and the added files are kept.
    pub fn reset(&mut self)
        ensures
            final(self).is_blank(),
            *final(self) == (ChatState {
                session: None,
                status: ChatStatus::Idle,
                stream: final(self).stream,
                pending: None,
                awaiting_confirmation: None,
                staged: None,
                estimate: None,
                dropped: 0,
                scroll: 0,
                listing: false,
                ..*old(self)
            }),
    {
        self.session = None;
        self.status = ChatStatus::Idle;
        self.stream.clear();
        self.pending = None;
        self.awaiting_confirmation = None;
        self.staged = None;
        self.estimate = None;
        self.dropped = 0;
        self.scroll = 0;
        self.listing = false;
    }

    /// Whether an answer joined the conversation it belongs to.
    ///
    /// One for a conversation that is no longer open is dropped.
    pub open spec fn heard(
        &self,
        before: &ChatState,
        message: Message,
        stopped: bool,
        session: Seq<char>,
        now: u64,
    ) -> bool {
        if before.session is None || before.session->0.id@ != session {
            *self == (ChatState { job: 0, pending: None, ..*before })
        } else {
            &&& *self == (ChatState {
                job: 0,
                pending: None,
                session: self.session,
                status: if stopped { ChatStatus::Stopped } else { ChatStatus::Idle },
                stream: self.stream,
                scroll: 0,
                ..*before
            })
            &&& self.stream@ == (Seq::<char>::empty(), false)
            &&& self.session is Some
            &&& self.session->0@ == (SessionView {
                messages: before.session->0@.messages.push(message@),
                updated_at: now,
                ..before.session->0@
            })
        }
    }

    /// Appends an answer to the conversation it belongs to; returns whether that is the open one.
    pub fn hear(&mut self, message: Message, stopped: bool, session: &str, now: u64) -> (r: bool)
        ensures
            r == (old(self).session is Some && old(self).session->0.id@ == session@),
            final(self).heard(old(self), message, stopped, session@, now),
    {
        self.job = 0;
        self.pending = None;
        let mut current = match self.session.take() {
            Some(current) => current,
            None => {
                return false;
            },
        };
        if !same(current.id.as_str(), session) {
            self.session = Some(current);
            return false;
        }
        current.say(message, now);
        self.session = Some(current);
        self.status = if stopped { ChatStatus::Stopped } else { ChatStatus::Idle };
        self.stream.clear();
        self.scroll = 0;
        true
    }
}

} // verus!
