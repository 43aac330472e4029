//! The notifications of the status line: a short queue in which errors stay until dismissed.

use vstd::prelude::*;

use crate::strings::same;

verus! {

/// How long an informational notification stays, in milliseconds.
pub const NOTICE_LIFETIME_MS: u64 = 6000;

/// How many notifications are kept.
pub const MAX_NOTICES: usize = 3;

/// Severity of a status line message.
#[derive(Debug, Clone, Copy, PartialEq, Eq, Structural)]
pub enum NoticeLevel {
    /// Neutral information.
    Info,
    /// Something is off but the app still works.
    Warn,
    /// Something failed.
    Error,
}

/// A status line message.
#[derive(Debug, PartialEq, Eq)]
pub struct Notice {
    /// Severity, which selects the style.
    pub level: NoticeLevel,
    /// The message.
    pub text: String,
    /// When it disappears, on the clock of the loop; `None` means it stays until dismissed.
    pub expires: Option<u64>,
}

/// What a [`Notice`] says.
pub struct NoticeView {
    pub level: NoticeLevel,
    pub text: Seq<char>,
    pub expires: Option<u64>,
}

impl View for Notice {
    type V = NoticeView;

    open spec fn view(&self) -> NoticeView {
        NoticeView { level: self.level, text: self.text@, expires: self.expires }
    }
}

impl Clone for Notice {
    fn clone(&self) -> (r: Self)
        ensures
            r == *self,
    {
        Notice { level: self.level, text: self.text.clone(), expires: self.expires }
    }
}

impl NoticeView {
    /// Whether the notice is still relevant.
    pub open spec fn live(self, now: u64) -> bool {
        match self.expires {
            Some(expires) => expires > now,
            None => true,
        }
    }
}

impl Notice {
    /// Whether the notice is still relevant at `now`.
    #[must_use]
    pub fn is_live(&self, now: u64) -> (r: bool)
        ensures
            r == self@.live(now),
    {
        match self.expires {
            Some(expires) => expires > now,
            None => true,
        }
    }
}

/// When a notice of this level disappears, if it is made now.
pub open spec fn expiry(level: NoticeLevel, now: u64) -> Option<u64> {
    match level {
        NoticeLevel::Error => None,
        _ => Some(
            if now + NOTICE_LIFETIME_MS <= u64::MAX { (now + NOTICE_LIFETIME_MS) as u64 } else {
                u64::MAX
            },
        ),
    }
}

/// When a notice of this level disappears, if it is made now.
pub fn expiry_for(level: NoticeLevel, now: u64) -> (r: Option<u64>)
    ensures
        r == expiry(level, now),
{
    match level {
        NoticeLevel::Error => None,
        NoticeLevel::Info | NoticeLevel::Warn => Some(now.saturating_add(NOTICE_LIFETIME_MS)),
    }
}

/// The notices' contents, one by one.
pub open spec fn notice_views(notices: Seq<Notice>) -> Seq<NoticeView> {
    notices.map_values(|n: Notice| n@)
}

/// The first of the notices from `from` on that says the same at the same level.
pub open spec fn same_notice(
    queue: Seq<NoticeView>,
    level: NoticeLevel,
    text: Seq<char>,
    from: nat,
) -> Option<nat>
    decreases queue.len() - from,
{
    if from >= queue.len() {
        None
    } else if queue[from as int].level == level && queue[from as int].text == text {
        Some(from)
    } else {
        same_notice(queue, level, text, from + 1)
    }
}

/// The first of the notices from `from` on that expires; the first of all where none does.
pub open spec fn victim(queue: Seq<NoticeView>, from: nat) -> nat
    decreases queue.len() - from,
{
    if from >= queue.len() {
        0
    } else if queue[from as int].expires is Some {
        from
    } else {
        victim(queue, from + 1)
    }
}

/// The queue after one more notice.
///
/// A notice that is there already is renewed. Otherwise it goes to the end, and a full queue makes
/// room first: an expiring notice leaves before an error does.
pub open spec fn noticed(
    queue: Seq<NoticeView>,
    level: NoticeLevel,
    text: Seq<char>,
    now: u64,
) -> Seq<NoticeView> {
    let fresh = NoticeView { level, text, expires: expiry(level, now) };
    match same_notice(queue, level, text, 0) {
        Some(i) => queue.update(
            i as int,
            NoticeView { expires: expiry(level, now), ..queue[i as int] },
        ),
        None => if queue.len() >= MAX_NOTICES {
            queue.remove(victim(queue, 0) as int).push(fresh)
        } else {
            queue.push(fresh)
        },
    }
}

/// The notices that are still relevant, among the first `n`.
pub open spec fn live_notices(queue: Seq<NoticeView>, now: u64, n: nat) -> Seq<NoticeView>
    decreases n,
{
    if n == 0 {
        Seq::empty()
    } else {
        let before = live_notices(queue, now, (n - 1) as nat);
        if queue[n - 1].live(now) { before.push(queue[n - 1]) } else { before }
    }
}

/// Adds a notification.
pub fn add_notice(notices: &mut Vec<Notice>, level: NoticeLevel, text: &str, now: u64)
    ensures
        notice_views(final(notices)@) == noticed(notice_views(old(notices)@), level, text@, now),
{
    let ghost queue = notice_views(notices@);
    let mut i: usize = 0;
    while i < notices.len()
        invariant
            i <= notices@.len(),
            queue == notice_views(notices@),
            notices@ == old(notices)@,
            same_notice(queue, level, text@, 0) == same_notice(queue, level, text@, i as nat),
        decreases notices@.len() - i,
    {
        assert(queue[i as int] == notices@[i as int]@);
        if notices[i].level == level && same(notices[i].text.as_str(), text) {
            let renewed = Notice {
                level,
                text: notices[i].text.clone(),
                expires: expiry_for(level, now),
            };
            let ghost before = notices@;
            let _ = notices.remove(i);
            notices.insert(i, renewed);
            proof {
                assert(notice_views(notices@) =~= queue.update(
                    i as int,
                    NoticeView { expires: expiry(level, now), ..queue[i as int] },
                ));
            }
            return;
        }
        i += 1;
    }
    if notices.len() >= MAX_NOTICES {
        let mut at: usize = 0;
        while at < notices.len() && notices[at].expires.is_none()
            invariant
                at <= notices@.len(),
                queue == notice_views(notices@),
                victim(queue, 0) == victim(queue, at as nat),
            decreases notices@.len() - at,
        {
            assert(queue[at as int] == notices@[at as int]@);
            at += 1;
        }
        proof {
            if at < notices@.len() {
                assert(queue[at as int] == notices@[at as int]@);
            }
        }
        if at >= notices.len() {
            at = 0;
        }
        let ghost before = notices@;
        let _ = notices.remove(at);
        assert(notice_views(notices@) =~= queue.remove(at as int));
    }
    let ghost before = notices@;
    notices.push(Notice { level, text: text.to_owned(), expires: expiry_for(level, now) });
    assert(notice_views(notices@) =~= notice_views(before).push(
        NoticeView { level, text: text@, expires: expiry(level, now) },
    ));
}

/// Drops the notifications that have expired.
pub fn drop_expired(notices: &mut Vec<Notice>, now: u64)
    ensures
        notice_views(final(notices)@) == live_notices(
            notice_views(old(notices)@),
            now,
            old(notices)@.len(),
        ),
{
    let ghost queue = notice_views(notices@);
    let mut kept: Vec<Notice> = Vec::new();
    let mut i: usize = 0;
    assert(notice_views(kept@) =~= Seq::empty());
    while i < notices.len()
        invariant
            i <= notices@.len(),
            queue == notice_views(notices@),
            notice_views(kept@) == live_notices(queue, now, i as nat),
        decreases notices@.len() - i,
    {
        assert(queue[i as int] == notices@[i as int]@);
        if notices[i].is_live(now) {
            let ghost before = kept@;
            kept.push(notices[i].clone());
            assert(notice_views(kept@) =~= notice_views(before).push(notices@[i as int]@));
        }
        i += 1;
    }
    *notices = kept;
}

/// The newest of the first `n` notices that is still relevant.
pub open spec fn newest(queue: Seq<NoticeView>, now: u64, n: nat) -> Option<NoticeView>
    decreases n,
{
    if n == 0 {
        None
    } else if queue[n - 1].live(now) {
        Some(queue[n - 1])
    } else {
        newest(queue, now, (n - 1) as nat)
    }
}

/// The newest notification that is still relevant.
pub fn newest_notice(notices: &Vec<Notice>, now: u64) -> (r: Option<&Notice>)
    ensures
        match r {
            Some(notice) => newest(notice_views(notices@), now, notices@.len()) == Some(notice@),
            None => newest(notice_views(notices@), now, notices@.len()) is None,
        },
{
    let ghost queue = notice_views(notices@);
    let mut n: usize = notices.len();
    while n > 0
        invariant
            n <= notices@.len(),
            queue == notice_views(notices@),
            newest(queue, now, queue.len()) == newest(queue, now, n as nat),
        decreases n,
    {
        assert(queue[n - 1] == notices@[n - 1]@);
        if notices[n - 1].is_live(now) {
            return Some(&notices[n - 1]);
        }
        n -= 1;
    }
    None
}

proof fn lemma_same_notice(queue: Seq<NoticeView>, level: NoticeLevel, text: Seq<char>, from: nat)
    ensures
        match same_notice(queue, level, text, from) {
            Some(i) => from <= i < queue.len() && queue[i as int].level == level
                && queue[i as int].text == text,
            None => forall|j: int|
                from <= j < queue.len() ==> !((#[trigger] queue[j]).level == level && queue[j].text
                    == text),
        },
    decreases queue.len() - from,
{
    if from < queue.len() {
        lemma_same_notice(queue, level, text, from + 1);
    }
}

proof fn lemma_victim(queue: Seq<NoticeView>, from: nat)
    ensures
        queue.len() > 0 ==> victim(queue, from) < queue.len(),
        forall|j: int|
            from <= j < queue.len() && (#[trigger] queue[j]).expires is Some ==> queue[victim(
                queue,
                from,
            ) as int].expires is Some,
    decreases queue.len() - from,
{
    if from < queue.len() {
        lemma_victim(queue, from + 1);
    }
}

/// The queue never grows beyond its limit.
pub proof fn lemma_queue_is_bounded(
    queue: Seq<NoticeView>,
    level: NoticeLevel,
    text: Seq<char>,
    now: u64,
)
    requires
        queue.len() <= MAX_NOTICES,
    ensures
        noticed(queue, level, text, now).len() <= MAX_NOTICES,
{
    lemma_same_notice(queue, level, text, 0);
    lemma_victim(queue, 0);
}

/// What was just said is in the queue.
pub proof fn lemma_notice_is_there(
    queue: Seq<NoticeView>,
    level: NoticeLevel,
    text: Seq<char>,
    now: u64,
)
    ensures
        noticed(queue, level, text, now).contains(
            NoticeView { level, text, expires: expiry(level, now) },
        ),
{
    lemma_same_notice(queue, level, text, 0);
    lemma_victim(queue, 0);
    let after = noticed(queue, level, text, now);
    let fresh = NoticeView { level, text, expires: expiry(level, now) };
    match same_notice(queue, level, text, 0) {
        Some(i) => assert(after[i as int] == fresh),
        None => assert(after.last() == fresh),
    }
}

/// Saying the same again does not make the queue longer.
pub proof fn lemma_repeats_do_not_pile_up(
    queue: Seq<NoticeView>,
    level: NoticeLevel,
    text: Seq<char>,
    now: u64,
    later: u64,
)
    ensures
        noticed(noticed(queue, level, text, now), level, text, later).len() == noticed(
            queue,
            level,
            text,
            now,
        ).len(),
{
    let once = noticed(queue, level, text, now);
    lemma_notice_is_there(queue, level, text, now);
    lemma_same_notice(once, level, text, 0);
    let fresh = NoticeView { level, text, expires: expiry(level, now) };
    let at = once.index_of(fresh);
    assert(once[at] == fresh);
}

/// An error is never pushed out by another notice while one that expires is in the queue, or
/// while there is room.
pub proof fn lemma_errors_are_not_evicted(
    queue: Seq<NoticeView>,
    error: int,
    level: NoticeLevel,
    text: Seq<char>,
    now: u64,
)
    requires
        0 <= error < queue.len(),
        queue[error].level == NoticeLevel::Error,
        queue[error].expires is None,
        queue.len() < MAX_NOTICES || exists|j: int|
            0 <= j < queue.len() && (#[trigger] queue[j]).expires is Some,
    ensures
        noticed(queue, level, text, now).contains(queue[error]),
{
    lemma_same_notice(queue, level, text, 0);
    lemma_victim(queue, 0);
    let after = noticed(queue, level, text, now);
    match same_notice(queue, level, text, 0) {
        Some(i) => {
            assert(after[error] == queue[error]);
        },
        None => {
            if queue.len() >= MAX_NOTICES {
                let out = victim(queue, 0) as int;
                assert(queue[out].expires is Some);
                if error < out {
                    assert(after[error] == queue[error]);
                } else {
                    assert(after[error - 1] == queue[error]);
                }
            } else {
                assert(after[error] == queue[error]);
            }
        },
    }
}

/// Time alone drops no notice that does not expire.
pub proof fn lemma_errors_do_not_expire(queue: Seq<NoticeView>, now: u64, n: nat, error: int)
    requires
        n <= queue.len(),
        0 <= error < n,
        queue[error].expires is None,
    ensures
        live_notices(queue, now, n).contains(queue[error]),
    decreases n,
{
    let kept = live_notices(queue, now, n);
    if error == n - 1 {
        assert(kept.last() == queue[error]);
    } else {
        lemma_errors_do_not_expire(queue, now, (n - 1) as nat, error);
        let before = live_notices(queue, now, (n - 1) as nat);
        let at = before.index_of(queue[error]);
        assert(kept[at] == queue[error]);
    }
}

/// An informational notice is gone once its time has passed.
pub proof fn lemma_information_expires(queue: Seq<NoticeView>, now: u64, n: nat)
    requires
        n <= queue.len(),
    ensures
        forall|i: int|
            0 <= i < live_notices(queue, now, n).len() ==> (#[trigger] live_notices(
                queue,
                now,
                n,
            )[i]).live(now),
    decreases n,
{
    if n > 0 {
        lemma_information_expires(queue, now, (n - 1) as nat);
        let before = live_notices(queue, now, (n - 1) as nat);
        let after = live_notices(queue, now, n);
        assert forall|i: int| 0 <= i < after.len() implies (#[trigger] after[i]).live(now) by {
            if i < before.len() {
                assert(after[i] == before[i]);
            }
        }
    }
}

/// An error has no end; any other notice lives for its lifetime from when it was last said, and
/// no longer.
pub proof fn lemma_how_long_a_notice_lives(level: NoticeLevel, text: Seq<char>, now: u64, later: u64)
    requires
        now <= later,
        now + NOTICE_LIFETIME_MS <= u64::MAX,
    ensures
        ({
            let notice = NoticeView { level, text, expires: expiry(level, now) };
            &&& level == NoticeLevel::Error ==> notice.live(later)
            &&& level != NoticeLevel::Error ==> notice.live(later) == (later < now + NOTICE_LIFETIME_MS)
        }),
{
}

/// Saying something new changes none of the notices there were: while there is room they stay where
/// they are and the new one comes last; a full queue loses one, the first that expires, or the
/// first of all where none does, and the others keep their order.
pub proof fn lemma_a_new_notice_comes_last(
    queue: Seq<NoticeView>,
    level: NoticeLevel,
    text: Seq<char>,
    now: u64,
    out: int,
)
    requires
        forall|k: int|
            0 <= k < queue.len() ==> (#[trigger] queue[k]).level != level || queue[k].text != text,
    ensures
        noticed(queue, level, text, now).len() > 0,
        noticed(queue, level, text, now).last() == (NoticeView {
            level,
            text,
            expires: expiry(level, now),
        }),
        queue.len() < MAX_NOTICES ==> noticed(queue, level, text, now).drop_last() == queue,
        queue.len() >= MAX_NOTICES && 0 <= out < queue.len() && queue[out].expires is Some && (forall|
            k: int,
        |
            0 <= k < out ==> (#[trigger] queue[k]).expires is None) ==> noticed(
            queue,
            level,
            text,
            now,
        ).drop_last() == queue.remove(out),
        queue.len() >= MAX_NOTICES && (forall|k: int|
            0 <= k < queue.len() ==> (#[trigger] queue[k]).expires is None) ==> noticed(
            queue,
            level,
            text,
            now,
        ).drop_last() == queue.remove(0),
{
    lemma_same_notice(queue, level, text, 0);
    lemma_victim(queue, 0);
    let after = noticed(queue, level, text, now);
    if queue.len() < MAX_NOTICES {
        assert(after.drop_last() =~= queue);
    } else {
        let gone = victim(queue, 0) as int;
        lemma_victim_is_first(queue, 0);
        assert(after.drop_last() =~= queue.remove(gone));
        if 0 <= out < queue.len() && queue[out].expires is Some && (forall|k: int|
            0 <= k < out ==> (#[trigger] queue[k]).expires is None) {
            if gone < out {
                assert(queue[gone].expires is None);
            } else if out < gone {
                assert(queue[out].expires is None);
            }
        }
        if forall|k: int| 0 <= k < queue.len() ==> (#[trigger] queue[k]).expires is None {
            assert(queue[gone].expires is None);
        }
    }
}

proof fn lemma_victim_is_first(queue: Seq<NoticeView>, from: nat)
    requires
        from <= queue.len(),
        forall|k: int| 0 <= k < from ==> (#[trigger] queue[k]).expires is None,
    ensures
        ({
            let gone = victim(queue, from);
            ||| gone < queue.len() && queue[gone as int].expires is Some && forall|k: int|
                0 <= k < gone ==> (#[trigger] queue[k]).expires is None
            ||| gone == 0 && forall|k: int|
                0 <= k < queue.len() ==> (#[trigger] queue[k]).expires is None
        }),
    decreases queue.len() - from,
{
    if from < queue.len() && queue[from as int].expires is None {
        lemma_victim_is_first(queue, from + 1);
    }
}

/// What is announced is the last notice that is still relevant.
pub proof fn lemma_the_newest_is_announced(queue: Seq<NoticeView>, now: u64, n: nat, at: int)
    requires
        n <= queue.len(),
    ensures
        0 <= at < n && queue[at].live(now) && (forall|k: int|
            at < k < n ==> !(#[trigger] queue[k]).live(now)) ==> newest(queue, now, n) == Some(queue[at]),
        newest(queue, now, n) is None <==> forall|k: int| 0 <= k < n ==> !(#[trigger] queue[k]).live(now),
    decreases n,
{
    if n > 0 && !queue[n - 1].live(now) {
        lemma_the_newest_is_announced(queue, now, (n - 1) as nat, at);
    } else if n > 0 {
        assert(queue[n - 1].live(now));
    }
}

} // verus!
