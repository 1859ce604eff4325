//! Normalisation and judgement of a modem's reply to one command.
//!
//! A voice modem mixes control characters into its status text, so a reply
//! is reduced to its ASCII letters and digits before it is compared.

use vstd::prelude::*;

verus! {

/// Whether `b` is an ASCII letter or digit.
pub open spec fn is_alphanumeric(b: u8) -> bool {
    ||| 0x30 <= b <= 0x39
    ||| 0x41 <= b <= 0x5a
    ||| 0x61 <= b <= 0x7a
}

/// The bytes of `raw` that are ASCII letters or digits, in their order.
pub open spec fn kept_bytes(raw: Seq<u8>) -> Seq<u8> {
    raw.filter(|b: u8| is_alphanumeric(b))
}

/// Whether every byte is in the ASCII range.
pub open spec fn all_ascii(bytes: Seq<u8>) -> bool {
    forall|i: int| 0 <= i < bytes.len() ==> bytes[i] < 128
}

/// ASCII bytes read as text, one character per byte.
pub open spec fn ascii_text(bytes: Seq<u8>) -> Seq<char> {
    Seq::new(bytes.len(), |i: int| bytes[i] as char)
}

/// The text that a raw reply is reduced to.
pub open spec fn normalized(raw: Seq<u8>) -> Seq<char> {
    ascii_text(kept_bytes(raw))
}

/// What a reply means for the command it answers.
#[derive(Clone, Debug, PartialEq, Eq)]
pub enum ReplyVerdict {
    /// The normalised reply is the expected text.
    Match,
    /// Nothing is left of the reply once it is normalised.
    NoReply,
    /// The normalised reply, which differs from the expected text.
    Mismatch(String),
}

/// A verdict with its text as a sequence of characters.
pub enum VerdictView {
    Match,
    NoReply,
    Mismatch(Seq<char>),
}

impl View for ReplyVerdict {
    type V = VerdictView;

    open spec fn view(&self) -> VerdictView {
        match self {
            ReplyVerdict::Match => VerdictView::Match,
            ReplyVerdict::NoReply => VerdictView::NoReply,
            ReplyVerdict::Mismatch(text) => VerdictView::Mismatch(text@),
        }
    }
}

/// The verdict on a raw reply where `expected` is the text awaited.
pub open spec fn verdict_of(expected: Seq<char>, raw: Seq<u8>) -> VerdictView {
    let text = normalized(raw);
    if text.len() == 0 {
        VerdictView::NoReply
    } else if text == expected {
        VerdictView::Match
    } else {
        VerdictView::Mismatch(text)
    }
}

/// Whether `b` is an ASCII letter or digit.
pub fn is_ascii_alphanumeric(b: u8) -> (keep: bool)
    ensures
        keep == is_alphanumeric(b),
{
    (0x30 <= b && b <= 0x39) || (0x41 <= b && b <= 0x5a) || (0x61 <= b && b <= 0x7a)
}

/// Decodes bytes as text with `String::from_utf8_lossy`, which keeps valid
/// UTF-8 as it is and replaces every invalid sequence by U+FFFD. Claimed
/// here: input that is all ASCII comes back as the same characters, one
/// per byte. Nothing is claimed of other input.
#[verifier::external_body]
fn decode_lossy(bytes: &Vec<u8>) -> (text: String)
    ensures
        all_ascii(bytes@) ==> text@ == ascii_text(bytes@),
{
    String::from_utf8_lossy(bytes).into_owned()
}

/// Copies the ASCII letters and digits of `raw`, dropping every other byte.
pub fn strip_non_alphanumeric(raw: &Vec<u8>) -> (kept: Vec<u8>)
    ensures
        kept@ == kept_bytes(raw@),
        all_ascii(kept@),
{
    let mut kept: Vec<u8> = Vec::new();
    let mut i: usize = 0;
    proof {
        reveal(Seq::filter);
        assert(raw@.take(0) =~= Seq::<u8>::empty());
    }
    while i < raw.len()
        invariant
            i <= raw.len(),
            kept@ == kept_bytes(raw@.take(i as int)),
            all_ascii(kept@),
        decreases raw.len() - i,
    {
        let b = raw[i];
        proof {
            reveal(Seq::filter);
            assert(raw@.take(i + 1).drop_last() =~= raw@.take(i as int));
            assert(raw@.take(i + 1).last() == b);
        }
        if is_ascii_alphanumeric(b) {
            kept.push(b);
        }
        i += 1;
    }
    proof {
        assert(raw@.take(raw.len() as int) =~= raw@);
    }
    kept
}

/// Reduces a raw reply to text: every byte that is not an ASCII letter or
/// digit is discarded, and what is left is decoded.
pub fn normalize(raw: &Vec<u8>) -> (text: String)
    ensures
        text@ == normalized(raw@),
{
    let kept = strip_non_alphanumeric(raw);
    decode_lossy(&kept)
}

/// Judges a raw reply against the text that the command expects.
pub fn judge_reply(expected: &String, raw: &Vec<u8>) -> (verdict: ReplyVerdict)
    ensures
        verdict@ == verdict_of(expected@, raw@),
{
    let text = normalize(raw);
    if text.as_str().unicode_len() == 0 {
        ReplyVerdict::NoReply
    } else if text == *expected {
        ReplyVerdict::Match
    } else {
        ReplyVerdict::Mismatch(text)
    }
}

/// A reply that holds no letter and no digit counts as no reply, whatever
/// text is expected.
pub proof fn lemma_control_bytes_are_no_reply(expected: Seq<char>, raw: Seq<u8>)
    requires
        forall|i: int| 0 <= i < raw.len() ==> !is_alphanumeric(#[trigger] raw[i]),
    ensures
        verdict_of(expected, raw) == VerdictView::NoReply,
    decreases raw.len(),
{
    reveal(Seq::filter);
    if raw.len() > 0 {
        lemma_control_bytes_are_no_reply(expected, raw.drop_last());
    }
}

/// Normalising a reply that is already normalised changes nothing.
pub proof fn lemma_kept_bytes_idempotent(raw: Seq<u8>)
    ensures
        kept_bytes(kept_bytes(raw)) == kept_bytes(raw),
    decreases raw.len(),
{
    reveal(Seq::filter);
    let pred = |b: u8| is_alphanumeric(b);
    if raw.len() > 0 {
        lemma_kept_bytes_idempotent(raw.drop_last());
        if is_alphanumeric(raw.last()) {
            let inner = kept_bytes(raw.drop_last());
            assert(kept_bytes(raw) == inner.push(raw.last()));
            assert(inner.push(raw.last()).drop_last() =~= inner);
        }
    }
}

} // verus!
