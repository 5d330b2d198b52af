//! Bytes as readable text.
//!
//! Much of what byte buffers hold is text, or has text in it. The text form
//! defined here shows such bytes as the characters that they stand for in
//! ASCII, and all others as escapes, in the notation of a byte string
//! literal.

use vstd::prelude::*;

verus! {

/// ASCII codes of the characters that the text form is written with.
pub const NEWLINE: u8 = 0x0a;

pub const RETURN: u8 = 0x0d;

pub const TAB: u8 = 0x09;

pub const BACKSLASH: u8 = 0x5c;

pub const QUOTE: u8 = 0x22;

pub const DIGIT_ZERO: u8 = 0x30;

pub const LETTER_A: u8 = 0x61;

pub const LETTER_B: u8 = 0x62;

pub const LETTER_N: u8 = 0x6e;

pub const LETTER_R: u8 = 0x72;

pub const LETTER_T: u8 = 0x74;

pub const LETTER_X: u8 = 0x78;

/// The digit, in lower case, for a value below sixteen.
pub open spec fn hex_digit(n: u8) -> u8 {
    if n < 10 {
        (DIGIT_ZERO + n) as u8
    } else {
        (LETTER_A + n - 10) as u8
    }
}

/// The text for one byte: the byte itself if it is a printable ASCII
/// character other than a backslash or a double quote; a backslash and a
/// letter, or the character itself, for newline, carriage return, tab, zero,
/// backslash and double quote; and `\x` with two hexadecimal digits for
/// every other byte.
pub open spec fn escape_byte(b: u8) -> Seq<u8> {
    if b == NEWLINE {
        seq![BACKSLASH, LETTER_N]
    } else if b == RETURN {
        seq![BACKSLASH, LETTER_R]
    } else if b == TAB {
        seq![BACKSLASH, LETTER_T]
    } else if b == BACKSLASH || b == QUOTE {
        seq![BACKSLASH, b]
    } else if b == 0 {
        seq![BACKSLASH, DIGIT_ZERO]
    } else if 0x20 <= b < 0x7f {
        seq![b]
    } else {
        seq![BACKSLASH, LETTER_X, hex_digit(b / 16), hex_digit(b % 16)]
    }
}

/// The texts for the bytes of a sequence, one after the other.
pub open spec fn escape_all(bytes: Seq<u8>) -> Seq<u8>
    decreases bytes.len(),
{
    if bytes.len() == 0 {
        Seq::empty()
    } else {
        escape_all(bytes.drop_last()) + escape_byte(bytes.last())
    }
}

/// The text form of a byte sequence: the letter `b`, and between double
/// quotes the texts for its bytes.
pub open spec fn debug_text(bytes: Seq<u8>) -> Seq<u8> {
    seq![LETTER_B, QUOTE] + escape_all(bytes) + seq![QUOTE]
}

/// Whether every byte of a sequence is an ASCII character.
pub open spec fn is_ascii_text(text: Seq<u8>) -> bool {
    forall|i: int| 0 <= i < text.len() ==> text[i] < 0x80
}

/// The characters that the bytes of an ASCII text stand for.
pub open spec fn ascii_chars(text: Seq<u8>) -> Seq<char> {
    Seq::new(text.len(), |i: int| text[i] as char)
}

/// The text for one byte is made of ASCII characters.
pub proof fn lemma_escape_byte_is_ascii(b: u8)
    ensures
        is_ascii_text(escape_byte(b)),
        1 <= escape_byte(b).len() <= 4,
{
}

fn push_hex_digit(out: &mut Vec<u8>, n: u8)
    requires
        n < 16,
    ensures
        final(out)@ == old(out)@.push(hex_digit(n)),
{
    if n < 10 {
        out.push(DIGIT_ZERO + n);
    } else {
        out.push(LETTER_A + (n - 10));
    }
}

/// Appends the text for one byte.
fn push_escaped(out: &mut Vec<u8>, b: u8)
    ensures
        final(out)@ == old(out)@ + escape_byte(b),
{
    if b == NEWLINE {
        out.push(BACKSLASH);
        out.push(LETTER_N);
    } else if b == RETURN {
        out.push(BACKSLASH);
        out.push(LETTER_R);
    } else if b == TAB {
        out.push(BACKSLASH);
        out.push(LETTER_T);
    } else if b == BACKSLASH || b == QUOTE {
        out.push(BACKSLASH);
        out.push(b);
    } else if b == 0 {
        out.push(BACKSLASH);
        out.push(DIGIT_ZERO);
    } else if 0x20 <= b && b < 0x7f {
        out.push(b);
    } else {
        out.push(BACKSLASH);
        out.push(LETTER_X);
        push_hex_digit(out, b / 16);
        push_hex_digit(out, b % 16);
    }
    assert(out@ =~= old(out)@ + escape_byte(b));
}

/// The text form of `bytes`, as ASCII.
pub fn debug_bytes(bytes: &[u8]) -> (out: Vec<u8>)
    ensures
        out@ == debug_text(bytes@),
        is_ascii_text(out@),
{
    let mut out: Vec<u8> = Vec::new();
    out.push(LETTER_B);
    out.push(QUOTE);
    let n: usize = bytes.len();
    let mut i: usize = 0;
    while i < n
        invariant
            i <= n,
            n == bytes@.len(),
            out@ == seq![LETTER_B, QUOTE] + escape_all(bytes@.take(i as int)),
            is_ascii_text(out@),
        decreases n - i,
    {
        let ghost before = out@;
        push_escaped(&mut out, bytes[i]);
        proof {
            lemma_escape_byte_is_ascii(bytes@[i as int]);
            assert(bytes@.take(i + 1).drop_last() =~= bytes@.take(i as int));
            assert(out@ =~= seq![LETTER_B, QUOTE] + escape_all(bytes@.take(i + 1)));
        }
        i = i + 1;
    }
    assert(bytes@.take(n as int) =~= bytes@);
    out.push(QUOTE);
    out
}

/// `String::from_utf8` on ASCII text: the string of the characters that the
/// bytes stand for.
#[verifier::external_body]
fn ascii_into_string(text: Vec<u8>) -> (s: String)
    requires
        is_ascii_text(text@),
    ensures
        s@ == ascii_chars(text@),
{
    match String::from_utf8(text) {
        Ok(s) => s,
        Err(_) => String::new(),
    }
}

/// The text form of `bytes`, as a string.
pub fn debug_string(bytes: &[u8]) -> (s: String)
    ensures
        s@ == ascii_chars(debug_text(bytes@)),
{
    ascii_into_string(debug_bytes(bytes))
}

} // verus!
