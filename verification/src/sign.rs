//! Signature verifier.
//!
//! The engine models a signature as a keyed byte transform: the signature of a
//! body under a key has the body's length, and its byte `i` is the body's byte
//! `i` combined with the key byte `i % key.len()`. The transform is
//! deterministic, and any change to a single byte of the body or of the
//! signature breaks verification, which is the guarantee the inbound pipeline
//! relies on. Verification failure aborts the pipeline before any persistence.

use vstd::prelude::*;

use crate::errors::SignatureError;

verus! {

/// An inbound request as the engine sees it: the raw body bytes and the
/// signature header, if one was sent.
pub struct Request {
    pub body: Vec<u8>,
    pub signature: Option<Vec<u8>>,
}

/// The signature bytes that the owner of `key` produces over `body`.
pub open spec fn sig_of(key: Seq<u8>, body: Seq<u8>) -> Seq<u8> {
    Seq::new(body.len(), |i: int| body[i] ^ key[i % (key.len() as int)])
}

/// The request carries a signature and it is the one expected from `key`.
pub open spec fn signature_matches(request: Request, key: Seq<u8>) -> bool {
    request.signature matches Some(s) && s@ == sig_of(key, request.body@)
}

/// Produce the signature of `body` under `key`.
pub fn sign_bytes(key: &Vec<u8>, body: &Vec<u8>) -> (sig: Vec<u8>)
    requires
        key@.len() > 0,
    ensures
        sig@ == sig_of(key@, body@),
{
    let mut sig: Vec<u8> = Vec::new();
    let mut i: usize = 0;
    while i < body.len()
        invariant
            key@.len() > 0,
            i <= body@.len(),
            sig@.len() == i,
            forall|j: int| 0 <= j < i ==> sig@[j] == sig_of(key@, body@)[j],
        decreases body@.len() - i,
    {
        sig.push(body[i] ^ key[i % key.len()]);
        i = i + 1;
    }
    assert(sig@ =~= sig_of(key@, body@));
    sig
}

/// Compare two byte strings.
pub fn bytes_eq(a: &Vec<u8>, b: &Vec<u8>) -> (r: bool)
    ensures
        r == (a@ == b@),
{
    if a.len() != b.len() {
        assert(a@ != b@);
        return false;
    }
    let mut i: usize = 0;
    while i < a.len()
        invariant
            a@.len() == b@.len(),
            i <= a@.len(),
            forall|j: int| 0 <= j < i ==> a@[j] == b@[j],
        decreases a@.len() - i,
    {
        if a[i] != b[i] {
            return false;
        }
        i = i + 1;
    }
    assert(a@ =~= b@);
    true
}

/// Recompute the signature expected over the request's body from the actor's
/// key and compare it against the signature header.
pub fn verify_signature(request: &Request, public_key: &Vec<u8>) -> (r: Result<(), SignatureError>)
    requires
        public_key@.len() > 0,
    ensures
        r is Ok <==> signature_matches(*request, public_key@),
        r == Err::<(), SignatureError>(SignatureError::Missing) <==> request.signature is None,
        r == Err::<(), SignatureError>(SignatureError::Mismatch) <==> (request.signature is Some
            && !signature_matches(*request, public_key@)),
{
    match &request.signature {
        None => Err(SignatureError::Missing),
        Some(sig) => {
            let expected = sign_bytes(public_key, &request.body);
            if bytes_eq(sig, &expected) {
                Ok(())
            } else {
                Err(SignatureError::Mismatch)
            }
        },
    }
}

/// Law (signature integrity): if a body/signature pair verifies under a key,
/// then changing the signature while keeping the body, or changing any byte of
/// the body while keeping the signature, makes the pair fail verification. An
/// unchanged pair keeps verifying, since the expected signature is a function
/// of the key and the body alone.
pub proof fn lemma_signature_integrity(
    key: Seq<u8>,
    body: Seq<u8>,
    body2: Seq<u8>,
    sig2: Seq<u8>,
)
    requires
        key.len() > 0,
        (body2 == body && sig2 != sig_of(key, body)) || (sig2 == sig_of(key, body)
            && body2.len() == body.len() && body2 != body),
    ensures
        sig2 != sig_of(key, body2),
{
    if body2 == body {
        assert(sig2 != sig_of(key, body2));
    } else {
        assert(!(body2 =~= body));
        let j = choose|j: int| 0 <= j < body.len() && body2[j] != body[j];
        let a = body2[j];
        let b = body[j];
        let c = key[j % (key.len() as int)];
        assert((a ^ c) != (b ^ c)) by (bit_vector)
            requires
                a != b,
        ;
        assert(sig_of(key, body2)[j] == (a ^ c));
        assert(sig_of(key, body)[j] == (b ^ c));
        assert(sig2[j] != sig_of(key, body2)[j]);
    }
}

} // verus!
