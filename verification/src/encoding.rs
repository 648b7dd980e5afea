//! Binary cells leave the store as base64 text.

use vstd::prelude::*;
use base64::Engine;

verus! {

/// The standard base64 text of a byte sequence: the RFC 4648 alphabet, with
/// `=` padding.
pub uninterp spec fn base64_standard(bytes: Seq<u8>) -> Seq<char>;

/// Whether the base64 text of `len` bytes fits in one allocation.
pub open spec fn encodable_len(len: nat) -> bool {
    4 * ((len + 2) / 3) <= isize::MAX
}

/// `base64::engine::general_purpose::STANDARD.encode`: the padded base64 text
/// of `bytes`, which the contract names. The encoder allocates four output
/// bytes for every three input bytes or part of them, and an allocation cannot
/// exceed `isize::MAX` bytes, which the precondition provides for.
#[verifier::external_body]
pub(crate) fn encode_standard(bytes: &[u8]) -> (text: String)
    requires
        encodable_len(bytes@.len()),
    ensures
        text@ == base64_standard(bytes@),
{
    base64::engine::general_purpose::STANDARD.encode(bytes)
}

/// Whether a blob of `len` bytes is small enough to be encoded.
pub fn fits_encoding(len: usize) -> (r: bool)
    ensures
        r == encodable_len(len as nat),
{
    let chunks: usize = len / 3 + (if len % 3 == 0 { 0 } else { 1 });
    assert(chunks == (len + 2) / 3);
    chunks <= (isize::MAX as usize) / 4
}

} // verus!
