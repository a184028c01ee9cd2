//! The text form of binary data: base64 with the standard alphabet, written
//! on one line and without padding. The encoding itself is the work of the
//! `rustc_serialize` crate and is not verified here.

use rustc_serialize::base64::{CharacterSet, Config, Newline, ToBase64};
use vstd::prelude::*;

verus! {

/// The base64 text of `bytes`: standard alphabet, no `=` at the end, no line
/// breaks.
pub uninterp spec fn unpadded_base64(bytes: Seq<u8>) -> Seq<char>;

/// Whether `c` is one of the 64 characters of the standard base64 alphabet.
pub open spec fn is_base64_char(c: char) -> bool {
    ||| 'A' <= c <= 'Z'
    ||| 'a' <= c <= 'z'
    ||| '0' <= c <= '9'
    ||| c == '+'
    ||| c == '/'
}

/// The number of characters that `n` bytes take in unpadded base64: four for
/// each full group of three bytes, then two for one byte left over, or three
/// for two.
pub open spec fn unpadded_base64_len(n: nat) -> nat {
    (4 * n + 2) / 3
}

/// Encodes `bytes` with `rustc_serialize`'s `ToBase64::to_base64` for `[u8]`,
/// configured for the standard character set, no padding and no line wrapping.
///
/// Trusted, not proved: the result depends on the bytes alone; every input byte
/// triple gives four characters and a rest of one or two bytes gives two or
/// three; each character is taken from the standard alphabet, and the padding
/// characters are taken off the end. The encoder first allocates four bytes
/// for every three of the input, rounded up, so `requires` keeps the input
/// well below the largest allocation.
#[verifier::external_body]
pub(crate) fn encode_unpadded(bytes: &[u8]) -> (text: String)
    requires
        bytes@.len() <= usize::MAX / 4,
    ensures
        text@ == unpadded_base64(bytes@),
        text@.len() == unpadded_base64_len(bytes@.len()),
        forall|i: int| 0 <= i < text@.len() ==> is_base64_char(#[trigger] text@[i]),
{
    bytes.to_base64(
        Config {
            char_set: CharacterSet::Standard,
            newline: Newline::LF,
            pad: false,
            line_length: None,
        },
    )
}

} // verus!
