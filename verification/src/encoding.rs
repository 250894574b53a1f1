//! Base64 text for binary payloads.

use base64::Engine;
use vstd::prelude::*;

verus! {

/// The standard base64 text (alphabet `A-Z a-z 0-9 + /`, padded with `=`) of
/// a run of bytes.
pub uninterp spec fn base64_standard(bytes: Seq<u8>) -> Seq<char>;

/// Whether the base64 text of `len` bytes has a length that fits in `usize`.
pub open spec fn encodable_len(len: nat) -> bool {
    (len / 3) * 4 + 4 <= usize::MAX
}

/// Tells whether `len` bytes can be encoded.
pub fn can_encode(len: usize) -> (ok: bool)
    ensures
        ok == encodable_len(len as nat),
{
    len / 3 <= (usize::MAX - 4) / 4
}

/// `Engine::encode` of `base64::engine::general_purpose::STANDARD`. The
/// encoder gives up on inputs whose encoded length overflows `usize`, so
/// those are left out.
#[verifier::external_body]
pub(crate) fn base64_encode(bytes: &[u8]) -> (text: String)
    requires
        encodable_len(bytes@.len()),
    ensures
        text@ == base64_standard(bytes@),
{
    base64::engine::general_purpose::STANDARD.encode(bytes)
}

} // verus!
