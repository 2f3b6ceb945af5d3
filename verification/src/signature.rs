//! Ed25519 keys and signatures, as plain bytes.

use vstd::prelude::*;

verus! {

/// Whether `ed25519_dalek::VerifyingKey::from_bytes` takes the 32 bytes for
/// the encoding of a verifying key.
pub uninterp spec fn verifying_key_accepts(key: Seq<u8>) -> bool;

/// Whether the verifying key encoded by `key` passes the 64 bytes of
/// `signature` as a signature over `message`, in the judgement of
/// `ed25519_dalek::Verifier::verify`.
pub uninterp spec fn signature_accepts(key: Seq<u8>, message: Seq<u8>, signature: Seq<u8>) -> bool;

/// The error of `ed25519_dalek`, passed on unread.
#[verifier::external_type_specification]
#[verifier::external_body]
pub struct ExSignatureError(ed25519_dalek::SignatureError);

/// `VerifyingKey::from_bytes`, the key itself dropped: whether it succeeds
/// depends on the 32 bytes alone and is called [`verifying_key_accepts`].
#[verifier::external_body]
pub(crate) fn check_verifying_key(key: &[u8; 32]) -> (res: Result<
    (),
    ed25519_dalek::SignatureError,
>)
    ensures
        res is Ok <==> verifying_key_accepts(key@),
{
    ed25519_dalek::VerifyingKey::from_bytes(key).map(|_| ())
}

/// `VerifyingKey::from_bytes` on `key`, then `Verifier::verify` of that key on
/// `message` and `Signature::from_bytes(signature)`. It succeeds exactly when
/// the key is accepted and the signature checks; the latter depends on the
/// three byte strings alone and is called [`signature_accepts`].
#[verifier::external_body]
pub(crate) fn check_signature(
    key: &[u8; 32],
    message: &[u8],
    signature: &[u8; 64],
) -> (res: Result<(), ed25519_dalek::SignatureError>)
    ensures
        res is Ok <==> (verifying_key_accepts(key@) && signature_accepts(
            key@,
            message@,
            signature@,
        )),
{
    let key = ed25519_dalek::VerifyingKey::from_bytes(key)?;
    ed25519_dalek::Verifier::verify(&key, message, &ed25519_dalek::Signature::from_bytes(signature))
}

} // verus!
