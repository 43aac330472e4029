//! The conversation about the open pull request: asking, answering, and the files that go along.

use vstd::prelude::*;

use crate::app::{App, AppState, Overlay, Pane, ResolvedSelection};
use crate::app_analysis::Checkout;
use crate::catalog::copy_thinking;
use crate::chat::{ChatState, ChatStatus};
use crate::effect::Effect;
use crate::jobs::{ChatRun, Update};
use crate::notices::NoticeLevel;
use crate::panel::{Bundle, PanelState};
use crate::patch::{opt_view, Patch};
use crate::pr::PullRequestDetail;
use crate::session::{message_views, Estimate, Message, MessageView, Session, SessionMeta, SessionView};
use crate::stream::streamed;
use crate::strings::{
    concat2, concat3, concat5, decimal, is_among, lemma_decimal_is_unique, lemma_views_push,
    number, same, trim, trimmed, views,
};

verus! {

/// How long a chat answer may take before it is given up on, in seconds.
///
/// Shorter than an analysis: a question about a pull request is answered in seconds.
pub const CHAT_TIMEOUT_SECS: u64 = 120;

/// The files added to the context, by pull request, as the first `n` entries record them.
pub open spec fn files_map(entries: Seq<(String, Vec<String>)>, n: nat) -> Map<
    Seq<char>,
    Seq<Seq<char>>,
>
    decreases n,
{
    if n == 0 {
        Map::empty()
    } else {
        files_map(entries, (n - 1) as nat).insert(
            entries[n - 1].0@,
            views(entries[n - 1].1@),
        )
    }
}

proof fn lemma_files_map_prefix(
    a: Seq<(String, Vec<String>)>,
    b: Seq<(String, Vec<String>)>,
    n: nat,
)
    requires
        n <= a.len(),
        n <= b.len(),
        forall|i: int| 0 <= i < n ==> a[i] == b[i],
    ensures
        files_map(a, n) == files_map(b, n),
    decreases n,
{
    if n > 0 {
        lemma_files_map_prefix(a, b, (n - 1) as nat);
    }
}

fn copy_strings(list: &Vec<String>) -> (r: Vec<String>)
    ensures
        r@ == list@,
{
    let r = list.clone();
    assert(r@ =~= list@);
    r
}

fn files_under(entries: &Vec<(String, Vec<String>)>, key: &str) -> (r: Vec<String>)
    ensures
        ({
            let known = files_map(entries@, entries@.len());
            views(r@) == if known.contains_key(key@) { known[key@] } else { Seq::empty() }
        }),
{
    let mut n: usize = entries.len();
    while n > 0
        invariant
            n <= entries@.len(),
            files_map(entries@, entries@.len()).contains_key(key@) == files_map(
                entries@,
                n as nat,
            ).contains_key(key@),
            files_map(entries@, n as nat).contains_key(key@) ==> files_map(
                entries@,
                entries@.len(),
            )[key@] == files_map(entries@, n as nat)[key@],
        decreases n,
    {
        let entry: &(String, Vec<String>) = &entries[n - 1];
        if same(entry.0.as_str(), key) {
            return copy_strings(&entry.1);
        }
        n -= 1;
    }
    let none: Vec<String> = Vec::new();
    assert(views(none@) =~= Seq::empty());
    none
}

fn forget_files(entries: &mut Vec<(String, Vec<String>)>, key: &str)
    ensures
        files_map(final(entries)@, final(entries)@.len()) == files_map(
            old(entries)@,
            old(entries)@.len(),
        ).remove(key@),
{
    let mut kept: Vec<(String, Vec<String>)> = Vec::new();
    let mut i: usize = 0;
    assert(files_map(kept@, 0) =~= files_map(entries@, 0).remove(key@));
    while i < entries.len()
        invariant
            i <= entries@.len(),
            files_map(kept@, kept@.len()) == files_map(entries@, i as nat).remove(key@),
        decreases entries@.len() - i,
    {
        let ghost known = files_map(entries@, i as nat);
        let name: &String = &entries[i].0;
        if !same(name.as_str(), key) {
            let ghost before = kept@;
            let files = copy_strings(&entries[i].1);
            kept.push((name.clone(), files));
            proof {
                lemma_files_map_prefix(before, kept@, before.len());
                assert(known.remove(key@).insert(name@, views(files@)) =~= known.insert(
                    name@,
                    views(files@),
                ).remove(key@));
            }
        } else {
            assert(known.insert(key@, views(entries@[i as int].1@)).remove(key@) =~= known.remove(
                key@,
            ));
        }
        i += 1;
    }
    *entries = kept;
}

fn remember_files(entries: &mut Vec<(String, Vec<String>)>, key: &str, files: Vec<String>)
    ensures
        files_map(final(entries)@, final(entries)@.len()) == files_map(
            old(entries)@,
            old(entries)@.len(),
        ).insert(key@, views(files@)),
{
    let ghost known = files_map(entries@, entries@.len());
    forget_files(entries, key);
    let ghost before = entries@;
    entries.push((key.to_owned(), files));
    proof {
        lemma_files_map_prefix(before, entries@, before.len());
        assert(known.remove(key@).insert(key@, views(files@)) =~= known.insert(
            key@,
            views(files@),
        ));
    }
}

/// The names without one of them, among the first `n`.
pub open spec fn others(names: Seq<Seq<char>>, name: Seq<char>, n: nat) -> Seq<Seq<char>> {
    crate::diff_view::names_without(names, name, n)
}

fn leave_out(names: &Vec<String>, name: &str) -> (r: Vec<String>)
    ensures
        views(r@) == others(views(names@), name@, names@.len()),
{
    broadcast use lemma_views_push;
    let mut kept: Vec<String> = Vec::new();
    let mut i: usize = 0;
    assert(views(kept@) =~= Seq::empty());
    while i < names.len()
        invariant
            i <= names@.len(),
            views(kept@) == others(views(names@), name@, i as nat),
        decreases names@.len() - i,
    {
        assert(views(names@)[i as int] == names@[i as int]@);
        if !same(names[i].as_str(), name) {
            kept.push(names[i].clone());
        }
        i += 1;
    }
    kept
}

/// What a question would send.
pub struct ChatSpec<'a> {
    /// The repository.
    pub repo: &'a str,
    /// The pull request's number.
    pub pr: u64,
    /// The commit it is at.
    pub head_sha: &'a str,
    /// The model to ask.
    pub selection: &'a ResolvedSelection,
    /// The key to ask it with.
    pub secret: String,
    /// How long the answer may take, in seconds.
    pub timeout_secs: u64,
    /// The most tokens the model answers with.
    pub output_limit: Option<u64>,
    /// The most tokens it reads.
    pub context_limit: Option<u64>,
    /// The most tokens of context that may be sent.
    pub max_context_tokens: Option<u64>,
    /// The most bytes of one file that may be sent.
    pub max_file_bytes: u64,
    /// The pull request.
    pub detail: &'a PullRequestDetail,
    /// Its patch, once it is there.
    pub patch: Option<&'a Patch>,
    /// Its worktree, once it is there.
    pub checkout: Option<Checkout<'a>>,
    /// The files that were added.
    pub added: &'a Vec<String>,
    /// What the model costs, in words.
    pub cost: Option<String>,
}

/// What the added files of a pull request are remembered under.
pub open spec fn key_of(repo: Seq<char>, number: nat) -> Seq<char> {
    repo + "#"@ + decimal(number)
}

impl App {
    /// What the added files of the open pull request are remembered under.
    pub open spec fn files_key(&self) -> Option<Seq<char>> {
        match (self.environment, self.detail) {
            (Some(environment), Some(detail)) => Some(
                key_of(environment.repo_key@, detail.summary.number as nat),
            ),
            _ => None,
        }
    }

    /// What the added files of the open pull request are remembered under.
    #[must_use]
    pub fn context_files_key(&self) -> (r: Option<String>)
        ensures
            opt_view(r) == self.files_key(),
    {
        match (&self.environment, &self.detail) {
            (Some(environment), Some(detail)) => Some(
                concat3(
                    environment.repo_key.as_str(),
                    "#",
                    number(detail.summary.number).as_str(),
                ),
            ),
            _ => None,
        }
    }

    /// The files remembered for the open pull request.
    pub open spec fn remembered_files(&self) -> Seq<Seq<char>> {
        let known = files_map(self.state.context_files@, self.state.context_files@.len());
        match self.files_key() {
            Some(key) => if known.contains_key(key) { known[key] } else { Seq::empty() },
            None => Seq::empty(),
        }
    }

    /// Loads the added files for the open pull request.
    pub fn load_context_files(&mut self)
        ensures
            *final(self) == (App {
                chat: ChatState { added: final(self).chat.added, ..old(self).chat },
                ..*old(self)
            }),
            views(final(self).chat.added@) == old(self).remembered_files(),
    {
        match self.context_files_key() {
            Some(key) => {
                self.chat.added = files_under(&self.state.context_files, key.as_str());
            },
            None => {
                self.chat.added = Vec::new();
                assert(views(self.chat.added@) =~= Seq::empty());
            },
        }
    }

    /// Whether the added files were written down for the open pull request.
    pub open spec fn files_remembered(&self, before: &App) -> bool {
        &&& *self == (App {
            state: AppState {
                context_files: self.state.context_files,
                ..before.state
            },
            ..*before
        })
        &&& ({
            let known = files_map(
                before.state.context_files@,
                before.state.context_files@.len(),
            );
            let kept = files_map(
                self.state.context_files@,
                self.state.context_files@.len(),
            );
            kept == match before.files_key() {
                Some(key) => if before.chat.added@.len() == 0 {
                    known.remove(key)
                } else {
                    known.insert(key, views(before.chat.added@))
                },
                None => known,
            }
        })
        &&& before.files_key() is Some ==> self.remembered_files() == views(
            before.chat.added@,
        )
    }

    /// Records the added files, so the next run starts with them.
    pub fn remember_context_files(&mut self)
        ensures
            final(self).files_remembered(old(self)),
    {
        match self.context_files_key() {
            Some(key) => {
                if self.chat.added.len() == 0 {
                    forget_files(&mut self.state.context_files, key.as_str());
                    assert(views(self.chat.added@) =~= Seq::empty());
                } else {
                    let files = copy_strings(&self.chat.added);
                    remember_files(&mut self.state.context_files, key.as_str(), files);
                }
            },
            None => {},
        }
    }

    /// Why a path cannot be added to the context, if it cannot.
    pub open spec fn file_refusal(&self, path: Seq<char>, secret: bool, at_head: bool) -> Option<
        Seq<char>,
    > {
        let name = trimmed(path);
        if name.len() == 0 {
            Some("which file? `:context add src/domain/money.rs`"@)
        } else if secret {
            Some(name + " looks like a secret (a `.env` file or a credential) and is never sent"@)
        } else if !self.has_path(name) && !at_head {
            Some(
                name
                    + " is not in this pull request's changed files and not in the checkout at this commit"@,
            )
        } else {
            None
        }
    }

    /// The added files with one more.
    pub open spec fn added_with(&self, name: Seq<char>) -> Seq<Seq<char>> {
        let added = views(self.chat.added@);
        if added.contains(name) { added } else { added.push(name) }
    }

    /// Whether a file was added to the context, or why it was not said.
    pub open spec fn file_added(
        &self,
        before: &App,
        path: &str,
        secret: bool,
        at_head: bool,
        r: Result< String, String, >,
    ) -> bool {
        &&& match before.file_refusal(path@, secret, at_head) {
            Some(reason) => {
                &&& r is Err
                &&& r->Err_0@ == reason
                &&& *self == *before
            },
            None => {
                &&& *self == (App {
                    chat: ChatState { added: self.chat.added, ..before.chat },
                    ..*before
                })
                &&& views(self.chat.added@) == before.added_with(trimmed(path@))
                &&& r is Ok
                &&& r->Ok_0@ == "added "@ + trimmed(path@)
                    + " to the context of this pull request ("@ + decimal(
                    self.chat.added@.len(),
                ) + " file(s) in total; every question will include it)"@
            },
        }
    }

    /// Adds a path to the context, or says why it cannot be.
    ///
    /// `secret` says whether the path looks like one that must never be sent, `at_head` whether the
    /// worktree holds it at the commit on screen.
    pub fn add_context_file(&mut self, path: &str, secret: bool, at_head: bool) -> (r: Result<
        String,
        String,
    >)
        ensures
            final(self).file_added(old(self), path, secret, at_head, r),
    {
        broadcast use lemma_views_push;
        let name = trim(path);
        if name.as_str().is_empty() {
            return Err("which file? `:context add src/domain/money.rs`".to_owned());
        }
        if secret {
            return Err(
                concat2(
                    name.as_str(),
                    " looks like a secret (a `.env` file or a credential) and is never sent",
                ),
            );
        }
        if !self.path_in_diff(name.as_str()) && !at_head {
            return Err(
                concat2(
                    name.as_str(),
                    " is not in this pull request's changed files and not in the checkout at this commit",
                ),
            );
        }
        if !is_among(&self.chat.added, name.as_str()) {
            self.chat.added.push(name.clone());
        }
        Ok(
            concat5(
                "added ",
                name.as_str(),
                " to the context of this pull request (",
                number(self.chat.added.len() as u64).as_str(),
                " file(s) in total; every question will include it)",
            ),
        )
    }

    /// Removes a path from the context.
    pub fn remove_context_file(&mut self, path: &str) -> (r: Result<String, String>)
        ensures
            *final(self) == (App {
                chat: ChatState { added: final(self).chat.added, ..old(self).chat },
                ..*old(self)
            }),
            views(final(self).chat.added@) == others(
                views(old(self).chat.added@),
                trimmed(path@),
                old(self).chat.added@.len(),
            ),
            if final(self).chat.added@.len() == old(self).chat.added@.len() {
                r is Err && r->Err_0@ == path@ + " was not in the context"@
            } else {
                r is Ok && r->Ok_0@ == "removed "@ + path@ + " from the context"@
            },
    {
        let before: usize = self.chat.added.len();
        let name = trim(path);
        self.chat.added = leave_out(&self.chat.added, name.as_str());
        if self.chat.added.len() == before {
            return Err(concat2(path, " was not in the context"));
        }
        Ok(concat3("removed ", path, " from the context"))
    }

    /// The id a new conversation gets.
    pub open spec fn next_session_id(&self) -> Seq<char> {
        decimal(self.now_unix_secs as nat) + "-"@ + decimal(self.chat.sessions@.len())
    }

    /// The conversation a question goes into: the open one, or a new one.
    pub open spec fn asked_in(&self) -> SessionView {
        match self.chat.session {
            Some(session) => session@,
            None => SessionView {
                id: self.next_session_id(),
                repo: self.environment->0.repo_key@,
                pr: self.detail->0.summary.number,
                head_sha: self.detail->0.summary.head_sha@,
                model: self.active_model->0.provider@ + "/"@ + self.active_model->0.model@,
                thinking: self.configured_thinking(),
                created_at: self.now_unix_secs,
                updated_at: self.now_unix_secs,
                messages: Seq::empty(),
            },
        }
    }

    /// Whether a specification says what a question asked now would send.
    pub open spec fn asks(&self, spec: ChatSpec<'_>, secret: String) -> bool {
        &&& spec.repo@ == self.environment->0.repo_key@
        &&& spec.pr == self.detail->0.summary.number
        &&& spec.head_sha@ == self.detail->0.summary.head_sha@
        &&& Some(*spec.selection) == self.active_model
        &&& spec.secret == secret
        &&& spec.timeout_secs == CHAT_TIMEOUT_SECS
        &&& (spec.output_limit, spec.context_limit) == self.model_limits()
        &&& spec.max_context_tokens == self.config.max_context_tokens
        &&& spec.max_file_bytes == self.config.max_file_bytes
        &&& Some(*spec.detail) == self.detail
        &&& match spec.patch {
            Some(patch) => self.review is Some && *patch == self.review->0.patch,
            None => self.review is None,
        }
        &&& match spec.checkout {
            Some(checkout) => self.worktree_ready() && checkout.path@ == self.workspace->0.path@
                && checkout.head_sha@ == self.workspace->0.head_sha@,
            None => !self.worktree_ready(),
        }
        &&& *spec.added == self.chat.added
        &&& opt_view(spec.cost) == match self.catalog {
            Some(state) => match state.entry(
                self.active_model->0.provider@,
                self.active_model->0.model@,
            ) {
                Some(model) => opt_view(model.cost),
                None => None,
            },
            None => None,
        }
    }

    /// The request a question would send, and the conversation it goes into, given the provider's
    /// key.
    #[must_use]
    pub fn chat_request(&self, secret: Option<String>) -> (r: Option<(ChatSpec<'_>, Session)>)
        ensures
            r is Some <==> self.detail is Some && self.active_model is Some && secret is Some
                && self.environment is Some,
            r matches Some((spec, session)) ==> self.asks(spec, secret->0) && session@
                == self.asked_in(),
            r matches Some((_, session)) ==> (self.chat.session matches Some(open) ==> message_views(
                session.messages@,
            ) == message_views(open.messages@)),
    {
        let detail = match &self.detail {
            Some(detail) => detail,
            None => {
                return None;
            },
        };
        let selection = match &self.active_model {
            Some(selection) => selection,
            None => {
                return None;
            },
        };
        let secret = match secret {
            Some(secret) => secret,
            None => {
                return None;
            },
        };
        let environment = match &self.environment {
            Some(environment) => environment,
            None => {
                return None;
            },
        };
        let (output_limit, context_limit) = self.limits();
        let spec = ChatSpec {
            repo: environment.repo_key.as_str(),
            pr: detail.summary.number,
            head_sha: detail.summary.head_sha.as_str(),
            selection,
            secret,
            timeout_secs: CHAT_TIMEOUT_SECS,
            output_limit,
            context_limit,
            max_context_tokens: self.config.max_context_tokens,
            max_file_bytes: self.config.max_file_bytes,
            detail,
            patch: match &self.review {
                Some(view) => Some(&view.patch),
                None => None,
            },
            checkout: self.checkout(),
            added: &self.chat.added,
            cost: self.model_cost(),
        };
        let session: Session = match &self.chat.session {
            Some(session) => session.clone(),
            None => {
                let id = concat3(
                    number(self.now_unix_secs).as_str(),
                    "-",
                    number(self.chat.sessions.len() as u64).as_str(),
                );
                let model = concat3(selection.provider.as_str(), "/", selection.model.as_str());
                Session::new(
                    id.as_str(),
                    environment.repo_key.as_str(),
                    detail.summary.number,
                    detail.summary.head_sha.as_str(),
                    model.as_str(),
                    match &self.config.active {
                        Some(selection) => copy_thinking(&selection.reasoning),
                        None => None,
                    },
                    self.now_unix_secs,
                )
            },
        };
        Some((spec, session))
    }

    /// Shows the chat pane, with the files that were added for this pull request.
    pub fn show_chat(&mut self)
        ensures
            *final(self) == (App {
                chat: ChatState {
                    open: true,
                    listing: false,
                    added: final(self).chat.added,
                    ..old(self).chat
                },
                ..*old(self)
            }),
            views(final(self).chat.added@) == old(self).remembered_files(),
    {
        self.chat.open();
        self.load_context_files();
    }

    /// Shows the conversation list.
    pub fn list_chats(&mut self)
        ensures
            *final(self) == (App {
                chat: ChatState { open: true, listing: true, ..old(self).chat },
                ..*old(self)
            }),
    {
        self.chat.open = true;
        self.chat.listing = true;
    }

    /// Records the job id of a chat load.
    pub fn record_chat_load(&mut self, job: u64)
        ensures
            *final(self) == (App {
                chat: ChatState { load_job: job, ..old(self).chat },
                ..*old(self)
            }),
    {
        self.chat.load_job = job;
    }

    /// Records the job id of the question in flight.
    pub fn record_chat_job(&mut self, job: u64)
        ensures
            *final(self) == (App {
                chat: ChatState { job, ..old(self).chat },
                ..*old(self)
            }),
    {
        self.chat.job = job;
    }

    /// Whether a fresh conversation is open.
    pub open spec fn chat_begun(&self, before: &App) -> bool {
        &&& *self == (App {
            chat: self.chat,
            chat_bundle: None,
            chat_bundle_for: None,
            ..*before
        })
        &&& self.chat.is_blank()
        &&& self.chat == (ChatState {
            open: true,
            session: None,
            status: ChatStatus::Idle,
            stream: self.chat.stream,
            pending: None,
            awaiting_confirmation: None,
            staged: None,
            estimate: None,
            dropped: 0,
            scroll: 0,
            listing: false,
            added: self.chat.added,
            ..before.chat
        })
        &&& views(self.chat.added@) == before.remembered_files()
    }

    /// Opens a fresh conversation, keeping the old ones.
    ///
    /// The context is gathered per question, so what was gathered goes too.
    pub fn begin_chat(&mut self)
        ensures
            final(self).chat_begun(old(self)),
    {
        self.chat.open();
        self.chat.reset();
        self.load_context_files();
        self.chat_bundle = None;
        self.chat_bundle_for = None;
    }

    /// Whether agreement to a send is being asked for.
    pub open spec fn agreement_asked(&self, before: &App) -> bool {
        &&& *self == (App {
            chat: ChatState {
                open: true,
                awaiting_confirmation: self.chat.awaiting_confirmation,
                ..before.chat
            },
            ..*before
        })
        &&& opt_view(self.chat.awaiting_confirmation) == Some(trimmed(before.chat.input@))
    }

    /// Notes that agreement is being asked for before the first send.
    pub fn await_chat_confirmation(&mut self)
        ensures
            final(self).agreement_asked(old(self)),
    {
        self.chat.open = true;
        let text = self.chat.input.text();
        self.chat.awaiting_confirmation = Some(trim(text.as_str()));
    }

    /// Whether a question joined a conversation, which is now the open one, and its answer is
    /// awaited.
    pub open spec fn question_asked(&self, before: &App, question: Seq<char>, session: SessionView) -> bool {
        &&& *self == (App {
            chat: self.chat,
            chat_bundle: None,
            chat_bundle_for: None,
            chat_dirty: true,
            ..*before
        })
        &&& self.chat == (ChatState {
            status: self.chat.status,
            pending: self.chat.pending,
            awaiting_confirmation: None,
            stream: self.chat.stream,
            scroll: 0,
            input: self.chat.input,
            session: self.chat.session,
            ..before.chat
        })
        &&& self.chat.status is Sending
        &&& self.chat.status.words() == "asking "@ + before.model_words()
        &&& opt_view(self.chat.pending) == Some(question)
        &&& self.chat.stream@ == (Seq::<char>::empty(), false)
        &&& self.chat.input@ == Seq::<char>::empty()
        &&& self.chat.input.cursor == 0
        &&& self.chat.session is Some
        &&& self.chat.session->0@ == (SessionView {
            messages: session.messages.push(
                MessageView::question(question, before.now_unix_secs),
            ),
            updated_at: before.now_unix_secs,
            ..session
        })
    }

    /// Starts the answer to a question.
    ///
    /// The question joins the conversation now, before the provider answers, and the conversation
    /// is marked to be written: an answer that never comes must not lose the question.
    pub fn begin_chat_answer(&mut self, question: &str, session: Session)
        ensures
            final(self).question_asked(old(self), question@, session@),
    {
        self.chat.status =
        ChatStatus::Sending { stage: concat2("asking ", self.model_label().as_str()) };
        self.chat.pending = Some(question.to_owned());
        self.chat.awaiting_confirmation = None;
        self.chat.stream.clear();
        self.chat.scroll = 0;
        self.chat_bundle = None;
        self.chat_bundle_for = None;
        self.chat.input.clear();
        let mut session = session;
        session.say(Message::user(question, self.now_unix_secs), self.now_unix_secs);
        self.chat.session = Some(session);
        self.chat_dirty = true;
    }

    /// Gives up on the answer in flight, keeping what arrived.
    ///
    /// The job id stays: the worker still finishes, with the text that arrived, and that completion
    /// has to be matched to be stored.
    pub fn stop_chat(&mut self)
        ensures
            *final(self) == (App {
                chat: ChatState {
                    status: ChatStatus::Stopped,
                    pending: None,
                    staged: None,
                    ..old(self).chat
                },
                ..*old(self)
            }),
    {
        self.chat.stop();
    }

    /// Whether the context gathered for a question was handed out, for the commit it was gathered for.
    pub open spec fn chat_bundle_taken(&self, before: &App, r: Option<Bundle>) -> bool {
        &&& if before.on_screen() is Some && App::marked_for(before.chat_bundle_for)
            == before.on_screen() {
            &&& r == before.chat_bundle
            &&& *self == (App { chat_bundle: None, ..*before })
        } else {
            &&& r is None
            &&& *self == *before
        }
    }

    /// Takes the gathered context when it is for the commit on screen.
    pub fn take_chat_bundle(&mut self) -> (r: Option<Bundle>)
        ensures
            final(self).chat_bundle_taken(old(self), r),
    {
        let matching: bool = match (&self.chat_bundle_for, &self.detail) {
            (Some((number, head)), Some(detail)) => *number == detail.summary.number && same(
                head.as_str(),
                detail.summary.head_sha.as_str(),
            ),
            _ => false,
        };
        if matching {
            self.chat_bundle.take()
        } else {
            None
        }
    }

    /// The name of a transcript's file, given the conversation's short id, or why there is none.
    pub fn export_name(&self, format: &str, short_id: &str) -> (r: Result<String, String>)
        ensures
            match self.chat.session {
                None => r is Err && r->Err_0@ == "there is no conversation to export yet"@,
                Some(session) => {
                    let stem = "chat-"@ + decimal(session.pr as nat) + "-"@ + short_id@;
                    let wanted = trimmed(format@);
                    if wanted == ""@ || wanted == "md"@ || wanted == "markdown"@ {
                        r is Ok && r->Ok_0@ == stem + ".md"@
                    } else if wanted == "json"@ {
                        r is Ok && r->Ok_0@ == stem + ".json"@
                    } else {
                        r is Err && r->Err_0@ == wanted + " is not a format; use md or json"@
                    }
                },
            },
    {
        let session = match &self.chat.session {
            Some(session) => session,
            None => {
                return Err("there is no conversation to export yet".to_owned());
            },
        };
        let wanted = trim(format);
        let extension: &str = if same(wanted.as_str(), "") || same(wanted.as_str(), "md") || same(
            wanted.as_str(),
            "markdown",
        ) {
            ".md"
        } else if same(wanted.as_str(), "json") {
            ".json"
        } else {
            return Err(concat2(wanted.as_str(), " is not a format; use md or json"));
        };
        Ok(concat5("chat-", number(session.pr).as_str(), "-", short_id, extension))
    }

    /// Takes over the conversation list as it was read again, where a pull request is open.
    pub fn reload_chat_list(&mut self, listed: Vec<SessionMeta>)
        ensures
            *final(self) == if old(self).environment is Some && old(self).detail is Some {
                App { chat: ChatState { sessions: listed, ..old(self).chat }, ..*old(self) }
            } else {
                *old(self)
            },
    {
        if self.environment.is_some() && self.detail.is_some() {
            self.chat.sessions = listed;
        }
    }

    /// What is asked before a question is sent.
    pub open spec fn send_words(&self, summary: Seq<char>) -> Seq<char> {
        "this sends "@ + summary + " of this pull request to "@ + self.model_words()
            + "; press Enter again to send"@
    }

    /// Keeps a gathered context, and asks for the answer when sending it was agreed to already.
    pub fn apply_chat_gathered(
        &mut self,
        bundle: Bundle,
        question: String,
        estimate: Option<Estimate>,
    ) -> (r: Option<Effect>)
        ensures
            final(self).gathered_taken(old(self), bundle, question, estimate, r),
    {
        if self.detail.is_none() {
            return None;
        }
        let summary = bundle.summary.clone();
        self.hold_chat_bundle(bundle);
        if !self.chat.is_confirming() {
            self.chat.stage(question);
            return Some(Effect::AskChat);
        }
        match estimate {
            Some(estimate) => {
                self.show_chat_estimate(estimate, summary.as_str());
            },
            None => {},
        }
        None
    }

    fn hold_chat_bundle(&mut self, bundle: Bundle)
        ensures
            *final(self) == (App {
                chat_bundle: Some(bundle),
                chat_bundle_for: final(self).chat_bundle_for,
                ..*old(self)
            }),
            App::marked_for(final(self).chat_bundle_for) == old(self).on_screen(),
    {
        self.chat_bundle_for = self.current_mark();
        self.chat_bundle = Some(bundle);
    }

    /// Shows what a question would send, and asks for the key press that agrees to it.
    fn show_chat_estimate(&mut self, estimate: Estimate, summary: &str)
        ensures
            *final(self) == (App {
                chat: ChatState {
                    dropped: estimate.history.dropped,
                    estimate: Some(estimate),
                    open: true,
                    ..old(self).chat
                },
                notices: final(self).notices,
                ..*old(self)
            }),
            final(self).notices_after(old(self), NoticeLevel::Info, old(self).send_words(summary@)),
    {
        self.chat.set_estimate(estimate);
        self.chat.open = true;
        let text = concat5(
            "this sends ",
            summary,
            " of this pull request to ",
            self.model_label().as_str(),
            "; press Enter again to send",
        );
        self.notice(NoticeLevel::Info, text.as_str());
    }

    /// Whether a gathered context was taken over.
    ///
    /// While agreement is being asked for, the size of the request is shown and nothing is sent.
    pub open spec fn gathered_taken(
        &self,
        before: &App,
        bundle: Bundle,
        question: String,
        estimate: Option<Estimate>,
        r: Option<Effect>,
    ) -> bool {
        let held = App {
            chat_bundle: Some(bundle),
            chat_bundle_for: self.chat_bundle_for,
            ..*before
        };
        if before.detail is None {
            r is None && *self == *before
        } else {
            &&& App::marked_for(self.chat_bundle_for) == before.on_screen()
            &&& if before.chat.awaiting_confirmation is Some {
                &&& r is None
                &&& match estimate {
                    Some(estimate) => {
                        &&& *self == (App {
                            chat: ChatState {
                                dropped: estimate.history.dropped,
                                estimate: Some(estimate),
                                open: true,
                                ..before.chat
                            },
                            notices: self.notices,
                            ..held
                        })
                        &&& self.notices_after(
                            before,
                            NoticeLevel::Info,
                            before.send_words(bundle.summary@),
                        )
                    },
                    None => *self == held,
                }
            } else {
                &&& r == Some(Effect::AskChat)
                &&& *self == (App {
                    chat: ChatState { staged: Some(question), ..before.chat },
                    ..held
                })
            }
        }
    }

    /// Whether the conversations a load produced were taken over.
    pub open spec fn loaded_taken(
        &self,
        before: &App,
        sessions: Vec<SessionMeta>,
        session: Option<Session>,
        missing: Option<String>,
    ) -> bool {
        &&& *self == (App {
            chat: ChatState {
                sessions,
                session: if session is Some { session } else { before.chat.session },
                estimate: if session is Some { None } else { before.chat.estimate },
                ..before.chat
            },
            notices: self.notices,
            ..*before
        })
        &&& match missing {
            Some(id) => self.notices_after(
                before,
                NoticeLevel::Warn,
                "there is no chat session "@ + id@ + " for this pull request"@,
            ),
            None => self.notices == before.notices,
        }
    }

    /// Applies the conversations a load produced, opening the one it named.
    pub fn apply_chat_loaded(
        &mut self,
        sessions: Vec<SessionMeta>,
        session: Option<Session>,
        missing: Option<String>,
    )
        ensures
            final(self).loaded_taken(old(self), sessions, session, missing),
    {
        self.chat.sessions = sessions;
        match session {
            Some(session) => {
                self.chat.session = Some(session);
                self.chat.estimate = None;
            },
            None => {},
        }
        match missing {
            Some(id) => {
                let text = concat3("there is no chat session ", id.as_str(), " for this pull request");
                self.notice(NoticeLevel::Warn, text.as_str());
            },
            None => {},
        }
    }

    /// Whether an answer was taken over.
    ///
    /// One that joined the open conversation marks it to be written, and a complete one is taken
    /// as agreement to send for this repository.
    pub open spec fn answer_taken(&self, before: &App, run: ChatRun, session: Seq<char>) -> bool {
        let (message, stopped) = match run {
            ChatRun::Answered(message) => (message, false),
            ChatRun::Cancelled(message) => (message, true),
        };
        let joined = before.chat.session is Some && before.chat.session->0.id@ == session;
        &&& self.chat.heard(&before.chat, message, stopped, session, before.now_unix_secs)
        &&& if !joined {
            *self == (App { chat: self.chat, ..*before })
        } else if stopped || before.environment is None {
            *self == (App { chat: self.chat, chat_dirty: true, ..*before })
        } else {
            &&& *self == (App {
                chat: self.chat,
                chat_dirty: true,
                state: AppState {
                    analysis_opt_in: self.state.analysis_opt_in,
                    ..before.state
                },
                panel: PanelState { confirmed: false, ..before.panel },
                state_dirty: true,
                ..*before
            })
            &&& views(self.state.analysis_opt_in@) == if before.opted_in() {
                views(before.state.analysis_opt_in@)
            } else {
                views(before.state.analysis_opt_in@).push(before.environment->0.repo_key@)
            }
        }
    }

    /// Appends an answer to the conversation it belongs to, and marks it to be written.
    pub fn apply_chat_answer(&mut self, run: ChatRun, session: &str)
        ensures
            final(self).answer_taken(old(self), run, session@),
    {
        match run {
            ChatRun::Answered(message) => {
                if self.hear_answer(message, false, session) {
                    self.record_analysis_opt_in();
                }
            },
            ChatRun::Cancelled(message) => {
                let _ = self.hear_answer(message, true, session);
            },
        }
    }

    fn hear_answer(&mut self, message: Message, stopped: bool, session: &str) -> (r: bool)
        ensures
            r == (old(self).chat.session is Some && old(self).chat.session->0.id@ == session@),
            *final(self) == (App {
                chat: final(self).chat,
                chat_dirty: old(self).chat_dirty || r,
                ..*old(self)
            }),
            final(self).chat.heard(
                &old(self).chat,
                message,
                stopped,
                session@,
                old(self).now_unix_secs,
            ),
    {
        let now: u64 = self.now_unix_secs;
        if self.chat.hear(message, stopped, session, now) {
            self.chat_dirty = true;
            true
        } else {
            false
        }
    }

    /// Whether a conversation was written down, or why it was not said.
    pub open spec fn chat_written(
        &self,
        before: &App,
        failure: Option<&str>,
        listed: Vec<SessionMeta>,
    ) -> bool {
        &&& before.chat.session is None ==> *self == (App {
            chat_dirty: false,
            ..*before
        })
        &&& before.chat.session is Some ==> {
            &&& *self == (App {
                chat: ChatState {
                    sessions: if before.environment is Some {
                        listed
                    } else {
                        before.chat.sessions
                    },
                    ..before.chat
                },
                chat_dirty: false,
                notices: self.notices,
                ..*before
            })
            &&& match failure {
                Some(error) => self.notices_after(
                    before,
                    NoticeLevel::Warn,
                    "the conversation could not be saved: "@ + error@,
                ),
                None => self.notices == before.notices,
            }
        }
    }

    /// Records that the open conversation was written, or why it could not be, and takes over the
    /// list as it was read again.
    ///
    /// A failure does not lose the conversation: it is in memory.
    pub fn persist_chat(&mut self, failure: Option<&str>, listed: Vec<SessionMeta>)
        ensures
            final(self).chat_written(old(self), failure, listed),
    {
        self.chat_dirty = false;
        if self.chat.session.is_none() {
            return;
        }
        match failure {
            Some(error) => {
                let text = concat2("the conversation could not be saved: ", error);
                self.notice(NoticeLevel::Warn, text.as_str());
            },
            None => {},
        }
        if self.environment.is_some() {
            self.chat.sessions = listed;
        }
    }

    /// The state of the chat pane after a piece of news.
    pub open spec fn chat_told(&self, before: &ChatState, update: Update) -> bool {
        match update {
            Update::Stage(stage) => {
                &&& self.chat == (ChatState { status: self.chat.status, ..*before })
                &&& self.chat.status == if before.stream@.0.len() == 0 {
                    ChatStatus::Sending { stage }
                } else {
                    ChatStatus::Streaming { stage }
                }
            },
            Update::Delta(delta) => {
                &&& self.chat == (ChatState {
                    status: self.chat.status,
                    stream: self.chat.stream,
                    scroll: 0,
                    ..*before
                })
                &&& self.chat.stream@ == streamed(before.stream@, delta@)
                &&& self.chat.status is Streaming
                &&& self.chat.status->Streaming_stage@ == before.status.words()
            },
        }
    }

    /// Streams a chat answer into the pane, which follows it down to the newest text.
    pub fn apply_chat_progress(&mut self, update: Update)
        ensures
            *final(self) == (App { chat: final(self).chat, ..*old(self) }),
            final(self).chat_told(&old(self).chat, update),
    {
        match update {
            Update::Stage(stage) => {
                self.chat.status = if self.chat.stream.text().is_empty() {
                    ChatStatus::Sending { stage }
                } else {
                    ChatStatus::Streaming { stage }
                };
            },
            Update::Delta(delta) => {
                let stage = self.chat.status.label();
                self.chat.stream.push(delta.as_str());
                self.chat.status = ChatStatus::Streaming { stage };
                self.chat.scroll = 0;
            },
        }
    }

    /// The chat pane's state, when a pull request is open and the pane is on screen.
    #[must_use]
    pub fn chat_state(&self) -> (r: Option<&ChatState>)
        ensures
            match r {
                Some(chat) => self.review is Some && self.chat.open && *chat == self.chat,
                None => self.review is None || !self.chat.open,
            },
    {
        if self.review.is_some() && self.chat.open {
            Some(&self.chat)
        } else {
            None
        }
    }

    /// Whether the chat compose box is the thing the keyboard belongs to.
    pub open spec fn composing(&self) -> bool {
        self.review is Some && self.chat.open && self.focus == Pane::Chat && self.overlay
            == Overlay::Closed && self.pending@.len() == 0
    }

    /// Whether the chat compose box is the thing the keyboard belongs to.
    ///
    /// A half-typed key sequence suspends that: its completing key must not become text.
    #[must_use]
    pub fn chat_is_composing(&self) -> (r: bool)
        ensures
            r == self.composing(),
    {
        self.review.is_some() && self.chat.open && self.focus == Pane::Chat && self.overlay
            == Overlay::Closed && self.pending.len() == 0
    }
}

/// No two pull requests share a key: what is remembered for one leaves what is remembered for any
/// other alone, be it another number or another repository.
pub proof fn lemma_remembering_leaves_others_alone(
    before: Map<Seq<char>, Seq<Seq<char>>>,
    repo: Seq<char>,
    number: nat,
    other_repo: Seq<char>,
    other_number: nat,
    files: Seq<Seq<char>>,
)
    requires
        repo != other_repo || number != other_number,
    ensures
        ({
            let key = key_of(repo, number);
            let other = key_of(other_repo, other_number);
            &&& key != other
            &&& before.insert(key, files).contains_key(other) == before.contains_key(other)
            &&& before.contains_key(other) ==> before.insert(key, files)[other] == before[other]
            &&& before.remove(key).contains_key(other) == before.contains_key(other)
            &&& before.contains_key(other) ==> before.remove(key)[other] == before[other]
        }),
{
    let key = key_of(repo, number);
    let other = key_of(other_repo, other_number);
    if key == other {
        let digits = decimal(number);
        let other_digits = decimal(other_number);
        lemma_decimal_is_unique(number, other_number);
        lemma_decimal_is_unique(other_number, number);
        assert("#"@.len() == 1 && "#"@[0] == '#') by {
            reveal_strlit("#");
        }
        assert(key.len() == repo.len() + 1 + digits.len());
        assert(other.len() == other_repo.len() + 1 + other_digits.len());
        assert(key[repo.len() as int] == '#');
        assert(other[other_repo.len() as int] == '#');
        if repo.len() < other_repo.len() {
            let i = other_repo.len() - repo.len() - 1;
            assert(key[other_repo.len() as int] == digits[i]);
        } else if other_repo.len() < repo.len() {
            let i = repo.len() - other_repo.len() - 1;
            assert(other[repo.len() as int] == other_digits[i]);
        } else {
            assert(repo =~= key.subrange(0, repo.len() as int));
            assert(other_repo =~= other.subrange(0, repo.len() as int));
            assert(digits =~= key.subrange((repo.len() + 1) as int, key.len() as int));
            assert(other_digits =~= other.subrange((repo.len() + 1) as int, other.len() as int));
        }
    }
}

/// A question goes on with the conversation that is open: the one it goes into is the same, with as
/// many messages and the same one at every place, so nothing said before is lost.
pub proof fn lemma_a_question_goes_on_with_the_open_conversation(app: App, at: int)
    requires
        app.chat.session is Some,
    ensures
        app.asked_in().id == app.chat.session->0.id@,
        app.asked_in().model == app.chat.session->0.model@,
        app.asked_in().pr == app.chat.session->0.pr,
        app.asked_in().created_at == app.chat.session->0.created_at,
        app.asked_in().messages.len() == app.chat.session->0.messages@.len(),
        0 <= at < app.chat.session->0.messages@.len() ==> app.asked_in().messages[at]
            == app.chat.session->0.messages@[at]@,
{
}

/// Where no conversation is open a question begins one: nothing has been said in it, it is about the
/// pull request on screen, and it begins now.
pub proof fn lemma_a_question_begins_a_conversation(app: App)
    requires
        app.chat.session is None,
        app.detail is Some,
        app.environment is Some,
        app.active_model is Some,
    ensures
        app.asked_in().messages.len() == 0,
        app.asked_in().pr == app.detail->0.summary.number,
        app.asked_in().head_sha == app.detail->0.summary.head_sha@,
        app.asked_in().repo == app.environment->0.repo_key@,
        app.asked_in().created_at == app.now_unix_secs,
        app.asked_in().updated_at == app.asked_in().created_at,
{
}

} // verus!
