//! The text decoder: total byte-to-text conversion with a deterministic
//! fallback chain. UTF-8 is attempted first; bytes that fail UTF-8 are
//! re-decoded as Windows-1252, and if that codec could not be looked up,
//! a lossy UTF-8 decode would substitute replacement characters. The
//! lookup provably succeeds, so the contract pins the Windows-1252
//! result; no byte sequence is ever rejected.

use vstd::prelude::*;

verus! {

/// Whether `encoding_rs`'s UTF-8 decoder reports any error for these
/// bytes; a pure function of the bytes.
pub uninterp spec fn utf8_has_errors(b: Seq<u8>) -> bool;

/// The text `encoding_rs`'s UTF-8 decode returns for `b` — including
/// its handling of a leading byte-order mark, which that call honours;
/// meaningful when `!utf8_has_errors(b)`.
pub uninterp spec fn utf8_of(b: Seq<u8>) -> Seq<char>;

/// The text `encoding_rs`'s Windows-1252 decode returns for `b` —
/// including its byte-order-mark handling; a pure function of the
/// bytes.
pub uninterp spec fn win1252_of(b: Seq<u8>) -> Seq<char>;

/// The lossy UTF-8 decoding of `b`, with replacement characters for
/// invalid sequences; a pure function of the bytes.
pub uninterp spec fn utf8_lossy_of(b: Seq<u8>) -> Seq<char>;

/// Relies on `encoding_rs::UTF_8.decode`: the decode is a pure function
/// of the input bytes, and when no error is reported the returned text
/// is the call's UTF-8 decoding of the input. Note this call sniffs a
/// leading byte-order mark and may switch encodings accordingly; the
/// named results cover exactly that behaviour.
#[verifier::external_body]
fn utf8_decode(bytes: &Vec<u8>) -> (r: (String, bool))
    ensures
        r.1 == utf8_has_errors(bytes@),
        !r.1 ==> r.0@ == utf8_of(bytes@),
{
    let (cow, _, had_errors) = encoding_rs::UTF_8.decode(bytes.as_slice());
    (cow.into_owned(), had_errors)
}

/// Relies on `encoding_rs::Encoding::for_label` to look up the
/// Windows-1252 codec and on `encoding_rs::Encoding::decode` to apply
/// it. `"windows-1252"` is in the crate's static label table, so the
/// lookup always succeeds, and the decode is a pure function of the
/// input bytes.
#[verifier::external_body]
fn win1252_decode(bytes: &Vec<u8>) -> (r: Option<String>)
    ensures
        r is Some,
        r->0@ == win1252_of(bytes@),
{
    match encoding_rs::Encoding::for_label(b"windows-1252") {
        Some(enc) => {
            let (text, _, _) = enc.decode(bytes.as_slice());
            Some(text.into_owned())
        },
        None => None,
    }
}

/// Relies on `String::from_utf8_lossy`: the result is a pure function
/// of the input bytes.
#[verifier::external_body]
fn utf8_lossy_decode(bytes: &Vec<u8>) -> (r: String)
    ensures
        r@ == utf8_lossy_of(bytes@),
{
    String::from_utf8_lossy(bytes.as_slice()).into_owned()
}

/// The decoder's result: clean UTF-8 input decodes to its UTF-8 text,
/// input with UTF-8 errors to its Windows-1252 text. A deterministic
/// function of the bytes.
pub open spec fn decoded_of(b: Seq<u8>) -> Seq<char> {
    if !utf8_has_errors(b) {
        utf8_of(b)
    } else {
        win1252_of(b)
    }
}

/// Decodes raw bytes to text. Total over all byte sequences: every
/// input yields a text value and no decode failure is ever surfaced.
pub fn parse_text_file(bytes: &Vec<u8>) -> (r: String)
    ensures
        r@ == decoded_of(bytes@),
{
    let (text, had_errors) = utf8_decode(bytes);
    if !had_errors {
        text
    } else {
        match win1252_decode(bytes) {
            Some(t) => t,
            None => utf8_lossy_decode(bytes),
        }
    }
}

} // verus!
