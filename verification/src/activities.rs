//! The typed activity vocabulary and each variant's verify/receive contract.
//!
//! Every variant offers the same capability set: structural verification (URL
//! field cross-matching plus any required sub-resolution) and receipt (the
//! state mutation). The dispatcher matches on the variant and invokes the
//! shared contract, so new kinds are added without touching existing ones.
//! Actors are identified by their URL throughout.

use vstd::prelude::*;

use vstd::string::StringExecFns;

use crate::actors::{
    actor_at, actors_unique, dir_extends, fetched_at, fetched_has, fetched_wf, has_actor,
    lemma_actor_at, resolve_would_err, resolve_would_kind, Actor, ActorDirectory, ActorKind,
    FetchedActor,
};
use crate::errors::InboundError;
use crate::follows::{
    follow_accepted_post, follow_removed_post, follow_requested_post, has_follow, FollowStore,
};
use crate::urls::{domains_match, has_domain, spec_domains_match, url_domain};

verus! {

/// The fields every activity carries: its globally unique identifier and the
/// actor that produced it.
#[derive(Debug)]
pub struct ActivityCommonFields {
    pub id: String,
    pub actor: String,
}

/// A follow request: `actor` (a person) asks to follow the community that
/// both `to` and `object` name.
#[derive(Debug)]
pub struct FollowCommunity {
    pub to: String,
    pub object: String,
    pub common: ActivityCommonFields,
}

/// An accepted follow: `actor` (the community) confirms the follow `object`
/// to the person `to`, echoing the original request.
#[derive(Debug)]
pub struct AcceptFollowCommunity {
    pub to: String,
    pub object: FollowCommunity,
    pub common: ActivityCommonFields,
}

/// A rejected follow: `actor` (the community) refuses the follow `object`,
/// which removes the requested relationship.
#[derive(Debug)]
pub struct RejectFollowCommunity {
    pub to: String,
    pub object: FollowCommunity,
    pub common: ActivityCommonFields,
}

/// The closed set of activity variants the shared inbox accepts.
#[derive(Debug)]
pub enum SharedInboxActivity {
    Follow(FollowCommunity),
    Accept(AcceptFollowCommunity),
    Reject(RejectFollowCommunity),
}

impl SharedInboxActivity {
    /// The common fields of whichever variant this is.
    pub open spec fn spec_common(self) -> ActivityCommonFields {
        match self {
            SharedInboxActivity::Follow(f) => f.common,
            SharedInboxActivity::Accept(a) => a.common,
            SharedInboxActivity::Reject(r) => r.common,
        }
    }

    /// The common fields of whichever variant this is.
    pub fn common(&self) -> (r: &ActivityCommonFields)
        ensures
            *r == self.spec_common(),
    {
        match self {
            SharedInboxActivity::Follow(f) => &f.common,
            SharedInboxActivity::Accept(a) => &a.common,
            SharedInboxActivity::Reject(r) => &r.common,
        }
    }
}

/// The checks every activity's common fields must pass: the claimed actor URL
/// must declare a domain, and the activity identifier must declare the same
/// domain as its actor.
pub open spec fn common_fields_error(c: ActivityCommonFields) -> Option<InboundError> {
    if url_domain(c.actor@) is None {
        Some(InboundError::InvalidUrl)
    } else if !spec_domains_match(c.id@, c.actor@) {
        Some(InboundError::UrlMismatch)
    } else {
        None
    }
}

/// Validate an activity's common fields.
pub fn verify_activity(common: &ActivityCommonFields) -> (r: Result<(), InboundError>)
    ensures
        r is Ok <==> common_fields_error(*common) is None,
        r matches Err(e) ==> Some(e) == common_fields_error(*common),
{
    if !has_domain(&common.actor) {
        return Err(InboundError::InvalidUrl);
    }
    if !domains_match(&common.id, &common.actor) {
        return Err(InboundError::UrlMismatch);
    }
    Ok(())
}

/// Two URL fields that the protocol requires to be the same.
pub fn verify_urls_match(a: &String, b: &String) -> (r: Result<(), InboundError>)
    ensures
        r is Ok <==> a@ == b@,
        r matches Err(e) ==> e == InboundError::UrlMismatch,
{
    if *a == *b {
        Ok(())
    } else {
        Err(InboundError::UrlMismatch)
    }
}

/// Resolution of `q`, like `resolve_would_err`, but in a pipeline execution
/// that has already resolved and cached the actor `first`.
pub open spec fn resolve_would_err2(
    dir: Seq<Actor>,
    remote: Seq<FetchedActor>,
    counter: int,
    limit: int,
    first: Seq<char>,
    q: Seq<char>,
) -> Option<InboundError> {
    if has_actor(dir, q) || q == first {
        None
    } else if counter >= limit {
        Some(InboundError::FetchBudgetExceeded)
    } else if !fetched_has(remote, q) {
        Some(InboundError::Fetch)
    } else if fetched_at(remote, q).public_key@.len() == 0 {
        Some(InboundError::InvalidActor)
    } else {
        None
    }
}

/// The outcome of a follow activity's verification against a directory state:
/// the common-field checks, the `to`/`object` cross-match, and the resolution
/// of the claimed actor, which must be a person.
pub open spec fn follow_verify_error(
    f: FollowCommunity,
    dir: Seq<Actor>,
    remote: Seq<FetchedActor>,
    counter: int,
    limit: int,
) -> Option<InboundError> {
    if common_fields_error(f.common) is Some {
        common_fields_error(f.common)
    } else if f.to@ != f.object@ {
        Some(InboundError::UrlMismatch)
    } else if resolve_would_err(dir, remote, counter, limit, f.common.actor@) is Some {
        resolve_would_err(dir, remote, counter, limit, f.common.actor@)
    } else if resolve_would_kind(dir, remote, f.common.actor@) != ActorKind::Person {
        Some(InboundError::WrongActorKind)
    } else {
        None
    }
}

/// `follow_verify_error` as seen from the state before the enclosing pipeline
/// resolved the actor `first`.
pub open spec fn follow_verify_error2(
    f: FollowCommunity,
    dir: Seq<Actor>,
    remote: Seq<FetchedActor>,
    counter: int,
    limit: int,
    first: Seq<char>,
) -> Option<InboundError> {
    if common_fields_error(f.common) is Some {
        common_fields_error(f.common)
    } else if f.to@ != f.object@ {
        Some(InboundError::UrlMismatch)
    } else if resolve_would_err2(dir, remote, counter, limit, first, f.common.actor@) is Some {
        resolve_would_err2(dir, remote, counter, limit, first, f.common.actor@)
    } else if resolve_would_kind(dir, remote, f.common.actor@) != ActorKind::Person {
        Some(InboundError::WrongActorKind)
    } else {
        None
    }
}

/// In a directory that already caches `first`, the plain and the
/// `first`-aware verification outcomes agree.
pub proof fn lemma_follow_plain_to2(
    f: FollowCommunity,
    dir: Seq<Actor>,
    remote: Seq<FetchedActor>,
    counter: int,
    limit: int,
    first: Seq<char>,
)
    requires
        has_actor(dir, first),
    ensures
        follow_verify_error(f, dir, remote, counter, limit) == follow_verify_error2(
            f,
            dir,
            remote,
            counter,
            limit,
            first,
        ),
{
}

/// Extending the directory by exactly the record for `first` (as resolution
/// does) does not change the `first`-aware verification outcome.
pub proof fn lemma_follow2_stable(
    f: FollowCommunity,
    d0: Seq<Actor>,
    d1: Seq<Actor>,
    remote: Seq<FetchedActor>,
    counter: int,
    limit: int,
    first: Seq<char>,
)
    requires
        actors_unique(d0),
        actors_unique(d1),
        dir_extends(d0, d1),
        has_actor(d1, first),
        has_actor(d0, first) ==> d1 == d0,
        !has_actor(d0, first) ==> d1.len() == d0.len() + 1,
        actor_at(d1, first).kind == resolve_would_kind(d0, remote, first),
    ensures
        follow_verify_error2(f, d1, remote, counter, limit, first) == follow_verify_error2(
            f,
            d0,
            remote,
            counter,
            limit,
            first,
        ),
{
    let p = f.common.actor@;
    lemma_resolve_extends(d0, d1, first);
    if p == first {
        assert(resolve_would_kind(d1, remote, p) == resolve_would_kind(d0, remote, p));
    } else if has_actor(d0, p) {
        assert(actor_at(d1, p) == actor_at(d0, p));
    } else {
        assert(!has_actor(d1, p));
    }
}

impl FollowCommunity {
    /// Structural verification of a follow: valid common fields, matching
    /// `to`/`object`, and a claimed actor that resolves to a person.
    pub fn verify(
        &self,
        dir: &mut ActorDirectory,
        remote: &Vec<FetchedActor>,
        counter: &mut u32,
        limit: u32,
    ) -> (r: Result<(), InboundError>)
        requires
            old(dir).wf(),
            fetched_wf(remote@),
            *old(counter) <= limit,
        ensures
            final(dir).wf(),
            dir_extends(old(dir).actors@, final(dir).actors@),
            *old(counter) <= *final(counter) <= limit,
            r is Ok <==> follow_verify_error(
                *self,
                old(dir).actors@,
                remote@,
                *old(counter) as int,
                limit as int,
            ) is None,
            r matches Err(e) ==> Some(e) == follow_verify_error(
                *self,
                old(dir).actors@,
                remote@,
                *old(counter) as int,
                limit as int,
            ),
            r is Ok ==> {
                &&& has_actor(final(dir).actors@, self.common.actor@)
                &&& (has_actor(old(dir).actors@, self.common.actor@) ==> final(dir).actors@ == old(
                    dir,
                ).actors@)
                &&& (!has_actor(old(dir).actors@, self.common.actor@) ==> final(dir).actors@.len()
                    == old(dir).actors@.len() + 1)
                &&& actor_at(final(dir).actors@, self.common.actor@).kind == resolve_would_kind(
                    old(dir).actors@,
                    remote@,
                    self.common.actor@,
                )
            },
    {
        verify_activity(&self.common)?;
        verify_urls_match(&self.to, &self.object)?;
        let actor = match dir.resolve(&self.common.actor, remote, counter, limit) {
            Ok(a) => a,
            Err(e) => {
                return Err(e);
            },
        };
        if actor.kind != ActorKind::Person {
            return Err(InboundError::WrongActorKind);
        }
        Ok(())
    }

    /// An exact copy of the follow, as the Accept that answers it echoes it.
    pub fn echo(&self) -> (r: FollowCommunity)
        ensures
            r == *self,
    {
        FollowCommunity {
            to: self.to.clone(),
            object: self.object.clone(),
            common: ActivityCommonFields {
                id: self.common.id.clone(),
                actor: self.common.actor.clone(),
            },
        }
    }

    /// Receive a verified follow: record the relationship as `Requested` and
    /// answer with the Accept to deliver to the follower's inbox. The Accept's
    /// `to` is the follower's URL and its `object` echoes the follow.
    pub fn receive(&self, dir: &ActorDirectory, follows: &mut FollowStore) -> (r: (
        AcceptFollowCommunity,
        String,
    ))
        requires
            dir.wf(),
            old(follows).wf(),
            has_actor(dir.actors@, self.common.actor@),
        ensures
            final(follows).wf(),
            follow_requested_post(
                old(follows).relationships@,
                final(follows).relationships@,
                self.common.actor@,
                self.to@,
            ),
            r.0.to@ == self.common.actor@,
            r.0.object == *self,
            r.0.common.actor@ == self.to@,
            r.0.common.id@ == accept_id_of(self.to@, self.common.id@),
            r.1@ == actor_at(dir.actors@, self.common.actor@).inbox@,
    {
        follows.follow_requested(&self.common.actor, &self.to);
        let mut generated_id = self.to.clone();
        generated_id.append("#accepts/");
        generated_id.append(self.common.id.as_str());
        let accept = AcceptFollowCommunity {
            to: self.common.actor.clone(),
            object: self.echo(),
            common: ActivityCommonFields { id: generated_id, actor: self.to.clone() },
        };
        let inbox = match dir.cached(&self.common.actor) {
            Some(a) => a.inbox.clone(),
            None => vstd::pervasive::unreached(),
        };
        (accept, inbox)
    }
}

/// The identifier this node generates for the Accept that answers a follow.
pub open spec fn accept_id_of(community: Seq<char>, follow_id: Seq<char>) -> Seq<char> {
    community + "#accepts/"@ + follow_id
}

/// The verification shared by Accept and Reject: valid common fields, the
/// `to`/`object.actor` and `actor`/`object.to` cross-matches, an actor that is
/// a community, and a verifiable inner follow. The claimed actor is already
/// cached when this runs, since the pipeline resolved it.
pub open spec fn handshake_verify_error(
    common: ActivityCommonFields,
    to: Seq<char>,
    object: FollowCommunity,
    dir: Seq<Actor>,
    remote: Seq<FetchedActor>,
    counter: int,
    limit: int,
) -> Option<InboundError> {
    if common_fields_error(common) is Some {
        common_fields_error(common)
    } else if to != object.common.actor@ {
        Some(InboundError::UrlMismatch)
    } else if common.actor@ != object.to@ {
        Some(InboundError::UrlMismatch)
    } else if resolve_would_kind(dir, remote, common.actor@) != ActorKind::Community {
        Some(InboundError::WrongActorKind)
    } else {
        follow_verify_error2(object, dir, remote, counter, limit, common.actor@)
    }
}

/// Verify the shape shared by Accept and Reject.
fn verify_handshake(
    common: &ActivityCommonFields,
    to: &String,
    object: &FollowCommunity,
    dir: &mut ActorDirectory,
    remote: &Vec<FetchedActor>,
    counter: &mut u32,
    limit: u32,
) -> (r: Result<(), InboundError>)
    requires
        old(dir).wf(),
        fetched_wf(remote@),
        *old(counter) <= limit,
        has_actor(old(dir).actors@, common.actor@),
    ensures
        final(dir).wf(),
        dir_extends(old(dir).actors@, final(dir).actors@),
        *old(counter) <= *final(counter) <= limit,
        r is Ok <==> handshake_verify_error(
            *common,
            to@,
            *object,
            old(dir).actors@,
            remote@,
            *old(counter) as int,
            limit as int,
        ) is None,
        r matches Err(e) ==> Some(e) == handshake_verify_error(
            *common,
            to@,
            *object,
            old(dir).actors@,
            remote@,
            *old(counter) as int,
            limit as int,
        ),
        r is Ok ==> has_actor(final(dir).actors@, object.common.actor@),
{
    verify_activity(common)?;
    verify_urls_match(to, &object.common.actor)?;
    verify_urls_match(&common.actor, &object.to)?;
    let ghost entry_dir = dir.actors@;
    let ghost entry_counter = *counter;
    let community = match dir.resolve(&common.actor, remote, counter, limit) {
        Ok(a) => a,
        Err(_) => {
            return vstd::pervasive::unreached();
        },
    };
    if community.kind != ActorKind::Community {
        return Err(InboundError::WrongActorKind);
    }
    let r = object.verify(dir, remote, counter, limit);
    proof {
        lemma_follow_plain_to2(
            *object,
            entry_dir,
            remote@,
            entry_counter as int,
            limit as int,
            common.actor@,
        );
    }
    r
}

impl AcceptFollowCommunity {
    /// The common fields of the Accept.
    pub fn common(&self) -> (r: &ActivityCommonFields)
        ensures
            *r == self.common,
    {
        &self.common
    }

    /// Verification of an Accept: the handshake shape, and the follow it
    /// confirms must have been requested — an Accept this node never asked
    /// for is unsolicited and rejected.
    pub fn verify(
        &self,
        dir: &mut ActorDirectory,
        remote: &Vec<FetchedActor>,
        counter: &mut u32,
        limit: u32,
        follows: &FollowStore,
    ) -> (r: Result<(), InboundError>)
        requires
            old(dir).wf(),
            fetched_wf(remote@),
            *old(counter) <= limit,
            has_actor(old(dir).actors@, self.common.actor@),
            follows.wf(),
        ensures
            final(dir).wf(),
            dir_extends(old(dir).actors@, final(dir).actors@),
            *old(counter) <= *final(counter) <= limit,
            r is Ok <==> accept_verify_error(
                *self,
                old(dir).actors@,
                remote@,
                *old(counter) as int,
                limit as int,
                follows.relationships@,
            ) is None,
            r matches Err(e) ==> Some(e) == accept_verify_error(
                *self,
                old(dir).actors@,
                remote@,
                *old(counter) as int,
                limit as int,
                follows.relationships@,
            ),
            r is Ok ==> has_follow(follows.relationships@, self.to@, self.common.actor@),
    {
        match verify_handshake(&self.common, &self.to, &self.object, dir, remote, counter, limit) {
            Err(e) => Err(e),
            Ok(()) => {
                match follows.state_of(&self.to, &self.common.actor) {
                    Some(_) => Ok(()),
                    None => Err(InboundError::UnsolicitedAccept),
                }
            },
        }
    }

    /// Receive a verified Accept: transition the matching relationship to
    /// `Accepted`. Fails only when the Accept is unsolicited, which
    /// verification already rules out.
    pub fn receive(&self, follows: &mut FollowStore) -> (r: Result<(), InboundError>)
        requires
            old(follows).wf(),
        ensures
            final(follows).wf(),
            r is Ok <==> has_follow(old(follows).relationships@, self.to@, self.common.actor@),
            r is Ok ==> follow_accepted_post(
                old(follows).relationships@,
                final(follows).relationships@,
                self.to@,
                self.common.actor@,
            ),
            r matches Err(e) ==> e == InboundError::UnsolicitedAccept
                && final(follows).relationships@ == old(follows).relationships@,
    {
        if follows.follow_accepted(&self.to, &self.common.actor) {
            Ok(())
        } else {
            Err(InboundError::UnsolicitedAccept)
        }
    }
}

/// The verification outcome of an Accept against the state the pipeline saw.
pub open spec fn accept_verify_error(
    a: AcceptFollowCommunity,
    dir: Seq<Actor>,
    remote: Seq<FetchedActor>,
    counter: int,
    limit: int,
    follows: Seq<crate::follows::FollowRelationship>,
) -> Option<InboundError> {
    if handshake_verify_error(a.common, a.to@, a.object, dir, remote, counter, limit) is Some {
        handshake_verify_error(a.common, a.to@, a.object, dir, remote, counter, limit)
    } else if !has_follow(follows, a.to@, a.common.actor@) {
        Some(InboundError::UnsolicitedAccept)
    } else {
        None
    }
}

/// The verification outcome of a Reject against the state the pipeline saw.
pub open spec fn reject_verify_error(
    rj: RejectFollowCommunity,
    dir: Seq<Actor>,
    remote: Seq<FetchedActor>,
    counter: int,
    limit: int,
) -> Option<InboundError> {
    handshake_verify_error(rj.common, rj.to@, rj.object, dir, remote, counter, limit)
}

impl RejectFollowCommunity {
    /// Verification of a Reject: the same handshake shape as an Accept.
    pub fn verify(
        &self,
        dir: &mut ActorDirectory,
        remote: &Vec<FetchedActor>,
        counter: &mut u32,
        limit: u32,
    ) -> (r: Result<(), InboundError>)
        requires
            old(dir).wf(),
            fetched_wf(remote@),
            *old(counter) <= limit,
            has_actor(old(dir).actors@, self.common.actor@),
        ensures
            final(dir).wf(),
            dir_extends(old(dir).actors@, final(dir).actors@),
            *old(counter) <= *final(counter) <= limit,
            r is Ok <==> reject_verify_error(
                *self,
                old(dir).actors@,
                remote@,
                *old(counter) as int,
                limit as int,
            ) is None,
            r matches Err(e) ==> Some(e) == reject_verify_error(
                *self,
                old(dir).actors@,
                remote@,
                *old(counter) as int,
                limit as int,
            ),
    {
        verify_handshake(&self.common, &self.to, &self.object, dir, remote, counter, limit)
    }

    /// Receive a verified Reject: remove the requested relationship instead of
    /// transitioning it. A Reject for a relationship that does not exist
    /// changes nothing.
    pub fn receive(&self, follows: &mut FollowStore)
        requires
            old(follows).wf(),
        ensures
            final(follows).wf(),
            follow_removed_post(
                old(follows).relationships@,
                final(follows).relationships@,
                self.to@,
                self.common.actor@,
            ),
    {
        follows.follow_rejected(&self.to, &self.common.actor);
    }
}

/// After resolving `first` into a directory, membership grows by exactly that
/// identifier and every previously cached record keeps its place.
pub proof fn lemma_resolve_extends(d0: Seq<Actor>, d1: Seq<Actor>, first: Seq<char>)
    requires
        actors_unique(d0),
        actors_unique(d1),
        dir_extends(d0, d1),
        has_actor(d1, first),
        has_actor(d0, first) ==> d1 == d0,
        !has_actor(d0, first) ==> d1.len() == d0.len() + 1,
    ensures
        forall|q: Seq<char>| #[trigger] has_actor(d1, q) <==> (has_actor(d0, q) || q == first),
        forall|q: Seq<char>|
            has_actor(d0, q) ==> #[trigger] actor_at(d1, q) == actor_at(d0, q),
{
    if !has_actor(d0, first) {
        let j = choose|j: int| 0 <= j < d1.len() && d1[j].apub_id@ == first;
        assert(j == d0.len());
    }
    assert forall|q: Seq<char>| #[trigger] has_actor(d1, q) implies (has_actor(d0, q) || q
        == first) by {
        let i = choose|i: int| 0 <= i < d1.len() && d1[i].apub_id@ == q;
        if i < d0.len() {
            assert(d0[i].apub_id@ == q);
            assert(has_actor(d0, q));
        } else {
            assert(!has_actor(d0, first));
            assert(d1[d0.len() as int].apub_id@ == first);
        }
    }
    assert forall|q: Seq<char>| (has_actor(d0, q) || q == first) implies #[trigger] has_actor(
        d1,
        q,
    ) by {
        if has_actor(d0, q) {
            let i = choose|i: int| 0 <= i < d0.len() && d0[i].apub_id@ == q;
            assert(d1[i].apub_id@ == q);
        }
    }
    assert forall|q: Seq<char>| has_actor(d0, q) implies #[trigger] actor_at(d1, q) == actor_at(
        d0,
        q,
    ) by {
        let i = choose|i: int| 0 <= i < d0.len() && d0[i].apub_id@ == q;
        lemma_actor_at(d0, q, i);
        lemma_actor_at(d1, q, i);
    }
}

} // verus!
