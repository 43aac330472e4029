//! Putting text on the clipboard by asking the terminal to do it.

use vstd::prelude::*;

use crate::strings::concat3;

verus! {

/// The character that stands for six bits in base64.
pub open spec fn letter(n: int) -> char {
    if n < 26 {
        (65 + n) as char
    } else if n < 52 {
        (97 + n - 26) as char
    } else if n < 62 {
        (48 + n - 52) as char
    } else if n == 62 {
        '+'
    } else {
        '/'
    }
}

/// The four characters that stand for up to three bytes.
pub open spec fn quartet(group: Seq<u8>) -> Seq<char> {
    let a = group[0] as int;
    let b = if group.len() > 1 { group[1] as int } else { 0 };
    let c = if group.len() > 2 { group[2] as int } else { 0 };
    seq![
        letter(a / 4),
        letter((a % 4) * 16 + b / 16),
        if group.len() > 1 { letter((b % 16) * 4 + c / 64) } else { '=' },
        if group.len() > 2 { letter(c % 64) } else { '=' },
    ]
}

/// Bytes as standard base64 with padding: three bytes at a time, four characters for each.
pub open spec fn encoded(bytes: Seq<u8>) -> Seq<char>
    decreases bytes.len(),
{
    if bytes.len() == 0 {
        Seq::empty()
    } else if bytes.len() <= 3 {
        quartet(bytes)
    } else {
        quartet(bytes.subrange(0, 3)) + encoded(bytes.subrange(3, bytes.len() as int))
    }
}

fn letter_for(n: u8) -> (c: char)
    requires
        n < 64,
    ensures
        c == letter(n as int),
{
    if n < 26 {
        (65 + n) as char
    } else if n < 52 {
        (97 + (n - 26)) as char
    } else if n < 62 {
        (48 + (n - 52)) as char
    } else if n == 62 {
        '+'
    } else {
        '/'
    }
}

/// Encodes bytes as standard base64 with padding.
#[must_use]
pub fn base64(bytes: &[u8]) -> (out: String)
    ensures
        out@ == encoded(bytes@),
{
    let mut out = String::new();
    let mut i: usize = 0;
    assert(bytes@.subrange(0, bytes@.len() as int) =~= bytes@);
    assert(out@ + encoded(bytes@) =~= encoded(bytes@));
    while i < bytes.len()
        invariant
            i <= bytes@.len(),
            out@ + encoded(bytes@.subrange(i as int, bytes@.len() as int)) == encoded(bytes@),
        decreases bytes@.len() - i,
    {
        let left: usize = bytes.len() - i;
        let a: u8 = bytes[i];
        let b: u8 = if left > 1 { bytes[i + 1] } else { 0 };
        let c: u8 = if left > 2 { bytes[i + 2] } else { 0 };
        let ghost rest = bytes@.subrange(i as int, bytes@.len() as int);
        let ghost before = out@;
        out.push(letter_for(a / 4));
        out.push(letter_for((a % 4) * 16 + b / 16));
        out.push(if left > 1 { letter_for((b % 16) * 4 + c / 64) } else { '=' });
        out.push(if left > 2 { letter_for(c % 64) } else { '=' });
        if left > 3 {
            i += 3;
            proof {
                let group = rest.subrange(0, 3);
                assert(out@ =~= before + quartet(group));
                assert(rest.subrange(3, rest.len() as int) =~= bytes@.subrange(
                    i as int,
                    bytes@.len() as int,
                ));
                assert(before + quartet(group) + encoded(rest.subrange(3, rest.len() as int))
                    =~= before + encoded(rest));
            }
        } else {
            i = bytes.len();
            proof {
                assert(out@ =~= before + quartet(rest));
                assert(out@ + Seq::<char>::empty() =~= out@);
                assert(bytes@.subrange(i as int, bytes@.len() as int) =~= Seq::empty());
            }
        }
    }
    assert(bytes@.subrange(i as int, bytes@.len() as int) =~= Seq::empty());
    assert(out@ + Seq::<char>::empty() =~= out@);
    out
}

/// The six bits that a base64 character stands for.
pub open spec fn bits(c: char) -> int {
    let n = c as int;
    if 65 <= n < 91 {
        n - 65
    } else if 97 <= n < 123 {
        n - 97 + 26
    } else if 48 <= n < 58 {
        n - 48 + 52
    } else if c == '+' {
        62
    } else {
        63
    }
}

/// The bytes that four characters stand for.
pub open spec fn trio(quad: Seq<char>) -> Seq<u8> {
    let p = bits(quad[0]);
    let q = bits(quad[1]);
    let r = bits(quad[2]);
    let s = bits(quad[3]);
    let a = (p * 4 + q / 16) as u8;
    let b = ((q % 16) * 16 + r / 4) as u8;
    let c = ((r % 4) * 64 + s) as u8;
    if quad[2] == '=' {
        seq![a]
    } else if quad[3] == '=' {
        seq![a, b]
    } else {
        seq![a, b, c]
    }
}

/// The bytes that a base64 text stands for.
pub open spec fn decoded(text: Seq<char>) -> Seq<u8>
    decreases text.len(),
{
    if text.len() < 4 {
        Seq::empty()
    } else {
        trio(text.subrange(0, 4)) + decoded(text.subrange(4, text.len() as int))
    }
}

proof fn lemma_bits(n: int)
    requires
        0 <= n < 64,
    ensures
        bits(letter(n)) == n,
        letter(n) != '=',
{
}

proof fn lemma_trio(group: Seq<u8>)
    requires
        0 < group.len() <= 3,
    ensures
        trio(quartet(group)) == group,
{
    let a = group[0] as int;
    let b = if group.len() > 1 { group[1] as int } else { 0 };
    let c = if group.len() > 2 { group[2] as int } else { 0 };
    assert(0 <= a / 4 < 64 && 0 <= (a % 4) * 16 + b / 16 < 64);
    assert(0 <= (b % 16) * 4 + c / 64 < 64 && 0 <= c % 64 < 64);
    lemma_bits(a / 4);
    lemma_bits((a % 4) * 16 + b / 16);
    lemma_bits((b % 16) * 4 + c / 64);
    lemma_bits(c % 64);
    assert(trio(quartet(group)) =~= group);
}

/// What was encoded can be decoded: no two byte strings have the same encoding.
pub proof fn lemma_decoding_undoes_encoding(bytes: Seq<u8>)
    ensures
        decoded(encoded(bytes)) == bytes,
    decreases bytes.len(),
{
    let text = encoded(bytes);
    if bytes.len() == 0 {
        assert(decoded(text) =~= bytes);
    } else if bytes.len() <= 3 {
        lemma_trio(bytes);
        assert(text.subrange(0, 4) =~= quartet(bytes));
        assert(decoded(text.subrange(4, text.len() as int)) =~= Seq::empty());
        assert(decoded(text) =~= bytes);
    } else {
        let head = bytes.subrange(0, 3);
        let rest = bytes.subrange(3, bytes.len() as int);
        lemma_trio(head);
        lemma_decoding_undoes_encoding(rest);
        assert(text.subrange(0, 4) =~= quartet(head));
        assert(text.subrange(4, text.len() as int) =~= encoded(rest));
        assert(decoded(text) =~= bytes);
    }
}

/// An encoding takes four characters for each begun group of three bytes.
pub proof fn lemma_encoded_len(bytes: Seq<u8>)
    ensures
        encoded(bytes).len() == (bytes.len() + 2) / 3 * 4,
    decreases bytes.len(),
{
    if bytes.len() > 3 {
        lemma_encoded_len(bytes.subrange(3, bytes.len() as int));
    }
}

proof fn lemma_letter_is_visible(n: int)
    requires
        0 <= n < 64,
    ensures
        33 <= letter(n) as int <= 126,
{
}

/// An encoding holds visible ASCII characters only, so no newline and no escape.
pub proof fn lemma_encoding_is_visible(bytes: Seq<u8>, i: int)
    requires
        0 <= i < encoded(bytes).len(),
    ensures
        33 <= encoded(bytes)[i] as int <= 126,
    decreases bytes.len(),
{
    let group = if bytes.len() <= 3 { bytes } else { bytes.subrange(0, 3) };
    if i < 4 {
        let a = group[0] as int;
        let b = if group.len() > 1 { group[1] as int } else { 0 };
        let c = if group.len() > 2 { group[2] as int } else { 0 };
        assert(0 <= a / 4 < 64 && 0 <= (a % 4) * 16 + b / 16 < 64);
        assert(0 <= (b % 16) * 4 + c / 64 < 64 && 0 <= c % 64 < 64);
        lemma_letter_is_visible(a / 4);
        lemma_letter_is_visible((a % 4) * 16 + b / 16);
        lemma_letter_is_visible((b % 16) * 4 + c / 64);
        lemma_letter_is_visible(c % 64);
        assert(encoded(bytes)[i] == quartet(group)[i]);
    } else {
        lemma_encoding_is_visible(bytes.subrange(3, bytes.len() as int), i - 4);
    }
}

/// The escape sequence that asks the terminal to set the clipboard.
///
/// `c` selects the clipboard rather than the primary selection, which is what a paste will use.
#[must_use]
pub fn osc52(text: &str) -> (out: String)
    ensures
        out@ == "\u{1b}]52;c;"@ + encoded(vstd::utf8::encode_utf8(text@)) + "\u{7}"@,
{
    concat3("\u{1b}]52;c;", base64(text.as_bytes()).as_str(), "\u{7}")
}

} // verus!
