//! Text: numbers in decimal and received bytes as text, both for the event
//! log, and the comparison of two texts.

use vstd::prelude::*;
use vstd::string::StringExecFns;
use vstd::string::StringSliceAdditionalSpecFns;
use vstd::utf8::{
    decode_utf8, encode_utf8, encode_utf8_decode_utf8, encode_utf8_valid_utf8, valid_utf8,
};

verus! {

/// The character that stands for a value below ten.
pub open spec fn digit_char(d: nat) -> char {
    if d == 0 {
        '0'
    } else if d == 1 {
        '1'
    } else if d == 2 {
        '2'
    } else if d == 3 {
        '3'
    } else if d == 4 {
        '4'
    } else if d == 5 {
        '5'
    } else if d == 6 {
        '6'
    } else if d == 7 {
        '7'
    } else if d == 8 {
        '8'
    } else {
        '9'
    }
}

/// A number in decimal, without sign and without leading zeros.
pub open spec fn decimal(n: nat) -> Seq<char>
    decreases n,
{
    if n < 10 {
        seq![digit_char(n)]
    } else {
        decimal(n / 10).push(digit_char(n % 10))
    }
}

fn digit_text(d: u32) -> (text: &'static str)
    requires
        d < 10,
    ensures
        text@ == seq![digit_char(d as nat)],
{
    proof {
        reveal_strlit("0");
        reveal_strlit("1");
        reveal_strlit("2");
        reveal_strlit("3");
        reveal_strlit("4");
        reveal_strlit("5");
        reveal_strlit("6");
        reveal_strlit("7");
        reveal_strlit("8");
        reveal_strlit("9");
    }
    let text = match d {
        0 => "0",
        1 => "1",
        2 => "2",
        3 => "3",
        4 => "4",
        5 => "5",
        6 => "6",
        7 => "7",
        8 => "8",
        _ => "9",
    };
    assert(text@ =~= seq![digit_char(d as nat)]);
    text
}

/// Appends a number in decimal to a text.
pub fn push_decimal(text: &mut String, n: u32)
    ensures
        final(text)@ == old(text)@ + decimal(n as nat),
    decreases n,
{
    if n >= 10 {
        push_decimal(text, n / 10);
    }
    text.append(digit_text(n % 10));
    assert(text@ =~= old(text)@ + decimal(n as nat));
}

/// Whether two texts are the same, decided on their bytes.
pub fn same_text(left: &str, right: &str) -> (same: bool)
    ensures
        same == (left@ == right@),
{
    broadcast use {encode_utf8_decode_utf8, encode_utf8_valid_utf8};

    let a = left.as_bytes();
    let b = right.as_bytes();
    if a.len() != b.len() {
        return false;
    }
    let mut i: usize = 0;
    while i < a.len()
        invariant
            i <= a@.len(),
            a@.len() == b@.len(),
            a@ == left.spec_bytes(),
            b@ == right.spec_bytes(),
            forall|k: int| 0 <= k < i ==> a@[k] == b@[k],
        decreases a@.len() - i,
    {
        if a[i] != b[i] {
            return false;
        }
        i += 1;
    }
    assert(a@ =~= b@);
    assert(decode_utf8(encode_utf8(left@)) == left@);
    assert(decode_utf8(encode_utf8(right@)) == right@);
    true
}

/// What the lossy decoder of the standard library makes of bytes that are
/// not valid UTF-8: their text with U+FFFD in place of each malformed part.
pub uninterp spec fn lossy_repair(bytes: Seq<u8>) -> Seq<char>;

/// Bytes as text. Valid UTF-8 is decoded; anything else is repaired, never
/// refused.
pub open spec fn lossy_text(bytes: Seq<u8>) -> Seq<char> {
    if valid_utf8(bytes) {
        decode_utf8(bytes)
    } else {
        lossy_repair(bytes)
    }
}

/// `String::from_utf8_lossy` of the standard library. Trusted: valid UTF-8
/// comes back as the text it encodes, and what comes back for other bytes
/// depends on the bytes alone.
#[verifier::external_body]
fn decode_lossy(bytes: &[u8]) -> (text: String)
    ensures
        text@ == (if valid_utf8(bytes@) {
            decode_utf8(bytes@)
        } else {
            lossy_repair(bytes@)
        }),
{
    String::from_utf8_lossy(bytes).into_owned()
}

/// Appends received bytes, as text, to a message.
pub fn push_lossy(text: &mut String, bytes: &[u8])
    ensures
        final(text)@ == old(text)@ + lossy_text(bytes@),
{
    let decoded = decode_lossy(bytes);
    text.append(decoded.as_str());
}

/// The text of the UTF-8 encoding of a text is that text: what is sent as
/// text and received unchanged reads as it was written.
pub proof fn lemma_lossy_text_of_encoding(text: Seq<char>)
    ensures
        lossy_text(encode_utf8(text)) == text,
{
    encode_utf8_valid_utf8(text);
    encode_utf8_decode_utf8(text);
}

/// No bytes are no text.
pub proof fn lemma_lossy_text_of_nothing()
    ensures
        lossy_text(Seq::<u8>::empty()) == Seq::<char>::empty(),
{
    assert(valid_utf8(Seq::<u8>::empty()));
    assert(decode_utf8(Seq::<u8>::empty()) =~= Seq::<char>::empty());
}

} // verus!
