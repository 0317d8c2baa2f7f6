//! Decoding of a file's bytes into text: the legacy single-byte code page
//! first, and a lossy UTF-8 reading where that one reports errors.

use vstd::prelude::*;
use vstd::utf8::*;

verus! {

/// What `encoding_rs` decodes `bytes` to when asked for windows-1251: the
/// text, and whether any malformed sequence was replaced.
pub uninterp spec fn windows_1251_decoding(bytes: Seq<u8>) -> (Seq<char>, bool);

/// What a lossy UTF-8 reading of `bytes` gives: invalid sequences are
/// replaced by U+FFFD.
pub uninterp spec fn utf8_lossy_decoding(bytes: Seq<u8>) -> Seq<char>;

/// The longest input that may be handed to the decoder. Its output takes up
/// to three bytes for each byte read and a few more, and growing the buffer
/// may ask for that much again; all of it has to stay addressable.
pub const MAX_INPUT_LEN: usize = usize::MAX / 16;

/// The lengths of input that may be handed to the decoder.
pub open spec fn decodable_len(len: nat) -> bool {
    len <= MAX_INPUT_LEN
}

/// Calls `encoding_rs::Encoding::decode` on `encoding_rs::WINDOWS_1251`.
///
/// The call sniffs a byte order mark, decodes the whole input and replaces
/// malformed sequences; it hands back the text and whether it replaced any.
/// The contract names that pair and claims no more. The call panics where the
/// size of its output buffer overflows `usize`, which the bound on the length
/// rules out.
#[verifier::external_body]
fn decode_windows_1251(bytes: &[u8]) -> (decoded: (String, bool))
    requires
        decodable_len(bytes@.len()),
    ensures
        (decoded.0@, decoded.1) == windows_1251_decoding(bytes@),
{
    let (text, _, had_errors) = encoding_rs::WINDOWS_1251.decode(bytes);
    (text.into_owned(), had_errors)
}

/// Calls `String::from_utf8_lossy`.
///
/// The contract names the text that comes back, and states what the
/// documentation says of well-formed input: it is decoded as it stands.
#[verifier::external_body]
fn decode_utf8_lossy(bytes: &[u8]) -> (text: String)
    ensures
        text@ == utf8_lossy_decoding(bytes@),
        valid_utf8(bytes@) ==> text@ == decode_utf8(bytes@),
{
    String::from_utf8_lossy(bytes).into_owned()
}

/// The text that a file's bytes stand for: the windows-1251 reading where it
/// is free of errors, else the lossy UTF-8 reading.
pub open spec fn decoded_text(bytes: Seq<u8>) -> Seq<char> {
    settled_text(bytes, windows_1251_decoding(bytes).0, windows_1251_decoding(bytes).1)
}

/// The text to go on with once the windows-1251 reading is known.
pub open spec fn settled_text(bytes: Seq<u8>, legacy: Seq<char>, had_errors: bool) -> Seq<
    char,
> {
    if had_errors {
        utf8_lossy_decoding(bytes)
    } else {
        legacy
    }
}

/// Settles on a text once the windows-1251 reading of `bytes` is known: that
/// reading where it had no errors, else the lossy UTF-8 reading of the same
/// bytes. Never fails.
pub fn settle_decoding(bytes: &[u8], legacy: String, had_errors: bool) -> (text: String)
    ensures
        text@ == settled_text(bytes@, legacy@, had_errors),
        !had_errors ==> text@ == legacy@,
        had_errors && valid_utf8(bytes@) ==> text@ == decode_utf8(bytes@),
{
    if had_errors {
        decode_utf8_lossy(bytes)
    } else {
        legacy
    }
}

/// Decodes the bytes of a file into text. Never fails: the worst case is a
/// text with replacement characters.
pub fn decode_text(bytes: &[u8]) -> (text: String)
    requires
        decodable_len(bytes@.len()),
    ensures
        text@ == decoded_text(bytes@),
{
    let (legacy, had_errors) = decode_windows_1251(bytes);
    settle_decoding(bytes, legacy, had_errors)
}

} // verus!
