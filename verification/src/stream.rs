//! Text that arrives in pieces.

use vstd::prelude::*;

use crate::strings::{characters, collected};

verus! {

/// The most streamed text the preview keeps, in bytes.
pub const MAX_STREAM_BYTES: usize = 65536;

/// How many bytes a character takes in UTF-8.
pub open spec fn char_bytes(c: char) -> nat {
    vstd::utf8::encode_scalar(c as u32).len()
}

/// How many bytes a text takes in UTF-8.
pub open spec fn bytes_of(s: Seq<char>) -> nat
    decreases s.len(),
{
    if s.len() == 0 {
        0
    } else {
        bytes_of(s.drop_last()) + char_bytes(s.last())
    }
}

proof fn lemma_encode_push(s: Seq<char>, c: char)
    ensures
        vstd::utf8::encode_utf8(s.push(c)).len() == vstd::utf8::encode_utf8(s).len() + char_bytes(c),
    decreases s.len(),
{
    if s.len() == 0 {
        let one = s.push(c);
        assert(one.drop_first() =~= Seq::empty());
        assert(vstd::utf8::encode_utf8(one.drop_first()).len() == 0);
        assert(vstd::utf8::encode_utf8(s).len() == 0);
    } else {
        lemma_encode_push(s.drop_first(), c);
        assert(s.push(c).drop_first() =~= s.drop_first().push(c));
    }
}

/// The bytes of a text are counted one character at a time.
pub proof fn lemma_bytes_of(s: Seq<char>)
    ensures
        bytes_of(s) == vstd::utf8::encode_utf8(s).len(),
    decreases s.len(),
{
    if s.len() > 0 {
        lemma_bytes_of(s.drop_last());
        lemma_encode_push(s.drop_last(), s.last());
        assert(s.drop_last().push(s.last()) =~= s);
    } else {
        assert(vstd::utf8::encode_utf8(s).len() == 0);
    }
}

/// The longest prefix, of at most `n` characters, that takes no more than `room` bytes.
pub open spec fn byte_prefix(s: Seq<char>, n: nat, room: nat) -> nat
    decreases n,
{
    if n == 0 || bytes_of(s.subrange(0, n as int)) <= room {
        n
    } else {
        byte_prefix(s, (n - 1) as nat, room)
    }
}

/// The longest prefix that fits is a prefix that fits.
pub proof fn lemma_byte_prefix(s: Seq<char>, n: nat, room: nat)
    ensures
        byte_prefix(s, n, room) <= n,
        n <= s.len() ==> bytes_of(s.subrange(0, byte_prefix(s, n, room) as int)) <= room,
    decreases n,
{
    if n > 0 && bytes_of(s.subrange(0, n as int)) > room {
        lemma_byte_prefix(s, (n - 1) as nat, room);
    }
}

proof fn lemma_bytes_concat(a: Seq<char>, b: Seq<char>)
    ensures
        bytes_of(a + b) == bytes_of(a) + bytes_of(b),
    decreases b.len(),
{
    if b.len() == 0 {
        assert(a + b =~= a);
    } else {
        lemma_bytes_concat(a, b.drop_last());
        assert((a + b).drop_last() =~= a + b.drop_last());
    }
}

/// A longer prefix takes no fewer bytes.
pub proof fn lemma_bytes_grow(s: Seq<char>, n: nat, m: nat)
    requires
        n <= m <= s.len(),
    ensures
        bytes_of(s.subrange(0, n as int)) <= bytes_of(s.subrange(0, m as int)),
{
    lemma_bytes_concat(s.subrange(0, n as int), s.subrange(n as int, m as int));
    assert(s.subrange(0, n as int) + s.subrange(n as int, m as int) =~= s.subrange(0, m as int));
}

/// A prefix that fits is the longest when one more character does not fit.
pub proof fn lemma_prefix_found(s: Seq<char>, n: nat, m: nat, room: nat)
    requires
        n <= m <= s.len(),
        bytes_of(s.subrange(0, n as int)) <= room,
        n < s.len() ==> bytes_of(s.subrange(0, n as int + 1)) > room,
    ensures
        byte_prefix(s, m, room) == n,
    decreases m,
{
    if m > n {
        lemma_bytes_grow(s, n + 1, m);
        lemma_prefix_found(s, n, (m - 1) as nat, room);
    }
}

/// Somewhere to keep text that arrives in pieces.
///
/// Bounded: what is shown while an answer streams is a preview, and a provider that streams a
/// megabyte should not be able to make the interface hold it twice.
#[derive(Debug, PartialEq, Eq)]
pub struct StreamBuffer {
    text: String,
    truncated: bool,
}

impl View for StreamBuffer {
    type V = (Seq<char>, bool);

    closed spec fn view(&self) -> (Seq<char>, bool) {
        (self.text@, self.truncated)
    }
}

/// What a buffer holds after one more piece: the piece, or as much of it as there is room for.
pub open spec fn streamed(held: (Seq<char>, bool), delta: Seq<char>) -> (Seq<char>, bool) {
    if bytes_of(held.0) >= MAX_STREAM_BYTES {
        (held.0, true)
    } else {
        let room = (MAX_STREAM_BYTES - bytes_of(held.0)) as nat;
        if bytes_of(delta) <= room {
            (held.0 + delta, held.1)
        } else {
            (held.0 + delta.subrange(0, byte_prefix(delta, delta.len(), room) as int), true)
        }
    }
}

/// A buffer that is within its bound stays within it, and what it holds is kept.
pub proof fn lemma_stream_is_bounded(held: (Seq<char>, bool), delta: Seq<char>)
    requires
        bytes_of(held.0) <= MAX_STREAM_BYTES,
    ensures
        bytes_of(streamed(held, delta).0) <= MAX_STREAM_BYTES,
        held.0.is_prefix_of(streamed(held, delta).0),
        streamed(held, delta).0.is_prefix_of(held.0 + delta),
        streamed(held, delta).1 || streamed(held, delta).0 == held.0 + delta,
{
    if bytes_of(held.0) < MAX_STREAM_BYTES {
        let room = (MAX_STREAM_BYTES - bytes_of(held.0)) as nat;
        lemma_byte_prefix(delta, delta.len(), room);
        lemma_bytes_concat(held.0, delta);
        lemma_bytes_concat(held.0, delta.subrange(0, byte_prefix(delta, delta.len(), room) as int));
    } else {
        lemma_bytes_concat(held.0, delta);
    }
}

impl Default for StreamBuffer {
    fn default() -> (r: Self)
        ensures
            r@ == (Seq::<char>::empty(), false),
    {
        StreamBuffer { text: String::new(), truncated: false }
    }
}

impl Clone for StreamBuffer {
    fn clone(&self) -> (r: Self)
        ensures
            r@ == self@,
    {
        StreamBuffer { text: self.text.clone(), truncated: self.truncated }
    }
}

/// How many bytes a text takes in UTF-8.
pub fn byte_len(text: &str) -> (n: usize)
    ensures
        n == bytes_of(text@),
{
    proof {
        lemma_bytes_of(text@);
    }
    text.as_bytes().len()
}

/// How many of the characters fit in a number of bytes, from the first on, and how many bytes
/// those take.
pub fn prefix_within(chars: &Vec<char>, room: usize) -> (r: (usize, usize))
    ensures
        r.0 == byte_prefix(chars@, chars@.len(), room as nat),
        r.0 <= chars@.len(),
        r.1 == bytes_of(chars@.subrange(0, r.0 as int)),
        r.1 <= room,
{
    let mut n: usize = 0;
    let mut used: usize = 0;
    let mut full: bool = false;
    assert(chars@.subrange(0, 0) =~= Seq::empty());
    while n < chars.len() && !full
        invariant
            n <= chars@.len(),
            used == bytes_of(chars@.subrange(0, n as int)),
            used <= room,
            full ==> n < chars@.len() && bytes_of(chars@.subrange(0, n + 1)) > room,
        decreases chars@.len() - n, if full { 0int } else { 1int },
    {
        let size: usize = byte_len(collected(&chars.as_slice()[n..n + 1]).as_str());
        proof {
            let one = chars@.subrange(n as int, n + 1);
            lemma_bytes_concat(chars@.subrange(0, n as int), one);
            assert(chars@.subrange(0, n as int) + one =~= chars@.subrange(0, n + 1));
        }
        if size <= room - used {
            used += size;
            n += 1;
        } else {
            full = true;
        }
    }
    proof {
        lemma_prefix_found(chars@, n as nat, chars@.len(), room as nat);
    }
    (n, used)
}

impl StreamBuffer {
    /// Adds a piece, keeping the total bounded.
    pub fn push(&mut self, delta: &str)
        ensures
            final(self)@ == streamed(old(self)@, delta@),
    {
        let held: usize = byte_len(self.text.as_str());
        if held >= MAX_STREAM_BYTES {
            self.truncated = true;
            return;
        }
        let room: usize = MAX_STREAM_BYTES - held;
        if byte_len(delta) <= room {
            self.text.append(delta);
            return;
        }
        let chars = characters(delta);
        let (n, _) = prefix_within(&chars, room);
        let kept = collected(&chars.as_slice()[0..n]);
        self.text.append(kept.as_str());
        self.truncated = true;
    }

    /// The text so far.
    #[must_use]
    pub fn text(&self) -> (r: &str)
        ensures
            r@ == self@.0,
    {
        self.text.as_str()
    }

    /// Whether the preview was cut short.
    #[must_use]
    pub fn is_truncated(&self) -> (r: bool)
        ensures
            r == self@.1,
    {
        self.truncated
    }

    /// Forgets everything, for a new run.
    pub fn clear(&mut self)
        ensures
            final(self)@ == (Seq::<char>::empty(), false),
    {
        self.text = String::new();
        self.truncated = false;
    }
}

} // verus!
