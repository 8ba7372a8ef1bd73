//! Error taxonomy of the engine.

use vstd::prelude::*;

verus! {

/// Why signature verification of an inbound request failed.
#[derive(Clone, Copy, Debug, PartialEq, Eq, Structural)]
pub enum SignatureError {
    /// No signature is present on the request.
    Missing,
    /// The signature does not match the one expected from the actor's key.
    Mismatch,
}

/// Why an inbound activity was rejected. Every rejection happens before the
/// activity is durably recorded, so a corrected resend can be reprocessed.
#[derive(Clone, Copy, Debug, PartialEq, Eq, Structural)]
pub enum InboundError {
    /// The payload did not parse into the activity vocabulary.
    Malformed,
    /// The request signature was missing or forged.
    Signature(SignatureError),
    /// The activity declares this node's own domain (anti-loopback rule).
    LocalOrigin,
    /// A remote actor could not be retrieved.
    Fetch,
    /// Processing would need more remote resolutions than the configured bound.
    FetchBudgetExceeded,
    /// A fetched actor document lacks the required key material.
    InvalidActor,
    /// A URL field does not parse to a domain, so it cannot be validated.
    InvalidUrl,
    /// Two URL fields that the variant requires to match do not match.
    UrlMismatch,
    /// The resolved actor is not of the kind the variant demands.
    WrongActorKind,
    /// An Accept arrived for a follow this node never requested.
    UnsolicitedAccept,
}

/// Why a local edit was refused before any outbound activity was built.
#[derive(Clone, Copy, Debug, PartialEq, Eq, Structural)]
pub enum ApiError {
    /// The record to edit does not exist.
    NotFound,
    /// Only the creator of a post may edit it.
    NoPostEditAllowed,
    /// Only the creator of a private message may edit it.
    NoPrivateMessageEditAllowed,
    /// The supplied text contains a word from the configured slur list.
    Slurs,
    /// A post title must hold at least three consecutive non-whitespace
    /// characters.
    InvalidPostTitle,
    /// A post title may hold at most 200 characters.
    PostTitleTooLong,
    /// The editor is banned from the post's community.
    CommunityBan,
}

} // verus!
