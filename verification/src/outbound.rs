//! Outbound activity construction.
//!
//! A local mutation becomes a typed envelope: a Create-or-Update-shaped
//! activity wrapping the content snapshot, together with the inbox addresses
//! of every interested remote actor. Serialization, signing of the wire bytes
//! (through `sign::sign_bytes`) and the per-recipient delivery are the
//! caller's work; a failure to reach one inbox never concerns the others and
//! never rolls back the local mutation.

use vstd::prelude::*;

use crate::activities::{ActivityCommonFields, FollowCommunity};
use crate::actors::{actor_at, has_actor, Actor, ActorDirectory};
use crate::follows::{follow_requested_post, FollowRelationship, FollowState, FollowStore};

use vstd::string::StringExecFns;

verus! {

/// The identifier this node generates for an outbound follow request.
pub open spec fn follow_id_of(person: Seq<char>, community: Seq<char>) -> Seq<char> {
    person + "#follows/"@ + community
}

/// Issue a follow: record the relationship as `Requested` on this side and
/// build the Follow activity to deliver to the community's inbox. It becomes
/// `Accepted` only when the community's verified Accept comes back.
pub fn build_follow(person: &String, community: &String, follows: &mut FollowStore) -> (r:
    FollowCommunity)
    requires
        old(follows).wf(),
    ensures
        final(follows).wf(),
        follow_requested_post(
            old(follows).relationships@,
            final(follows).relationships@,
            person@,
            community@,
        ),
        r.common.actor@ == person@,
        r.common.id@ == follow_id_of(person@, community@),
        r.to@ == community@,
        r.object@ == community@,
{
    follows.follow_requested(person, community);
    let mut id = person.clone();
    id.append("#follows/");
    id.append(community.as_str());
    FollowCommunity {
        to: community.clone(),
        object: community.clone(),
        common: ActivityCommonFields { id, actor: person.clone() },
    }
}

/// Whether an outbound activity announces a creation or an update.
#[derive(Clone, Copy, Debug, PartialEq, Eq, Structural)]
pub enum CreateOrUpdateType {
    Create,
    Update,
}

/// The typed outbound activity: identifier, shape, originating local actor,
/// the edited object's identifier and its content snapshot.
#[derive(Debug)]
pub struct OutboundActivity {
    pub id: String,
    pub kind: CreateOrUpdateType,
    pub actor: String,
    pub object: String,
    pub name: Option<String>,
    pub content: Option<String>,
}

/// An outbound activity with the inbox addresses to deliver it to. Ephemeral:
/// constructed, signed, delivered, discarded.
#[derive(Debug)]
pub struct OutboundEnvelope {
    pub activity: OutboundActivity,
    pub targets: Vec<String>,
}

/// The identifier this node generates for the activity announcing an edit.
pub open spec fn update_id_of(object: Seq<char>) -> Seq<char> {
    object + "#update"@
}

/// The inbox addresses owed a community's announcements: one per accepted
/// follower of the community that the directory knows and that is remote, in
/// store order.
pub open spec fn spec_follower_inboxes(
    rels: Seq<FollowRelationship>,
    dir: Seq<Actor>,
    community: Seq<char>,
) -> Seq<Seq<char>>
    decreases rels.len(),
{
    if rels.len() == 0 {
        Seq::empty()
    } else {
        let prefix = spec_follower_inboxes(rels.drop_last(), dir, community);
        let r = rels.last();
        if r.followed@ == community && r.state == FollowState::Accepted && has_actor(
            dir,
            r.follower@,
        ) && !actor_at(dir, r.follower@).local {
            prefix.push(actor_at(dir, r.follower@).inbox@)
        } else {
            prefix
        }
    }
}

/// Collect the follower inboxes a community's announcement is delivered to.
pub fn follower_inboxes(follows: &FollowStore, dir: &ActorDirectory, community: &String) -> (r:
    Vec<String>)
    requires
        dir.wf(),
    ensures
        r@.map_values(|s: String| s@) == spec_follower_inboxes(
            follows.relationships@,
            dir.actors@,
            community@,
        ),
{
    let rels = &follows.relationships;
    let mut out: Vec<String> = Vec::new();
    let mut i: usize = 0;
    while i < rels.len()
        invariant
            dir.wf(),
            i <= rels@.len(),
            out@.map_values(|s: String| s@) == spec_follower_inboxes(
                rels@.subrange(0, i as int),
                dir.actors@,
                community@,
            ),
        decreases rels@.len() - i,
    {
        let ghost pre = rels@.subrange(0, i as int);
        assert(rels@.subrange(0, i + 1 as int).drop_last() =~= pre);
        assert(rels@.subrange(0, i + 1 as int).last() == rels@[i as int]);
        if rels[i].state == FollowState::Accepted && rels[i].followed == *community {
            match dir.cached(&rels[i].follower) {
                Some(a) => {
                    if !a.local {
                        let ghost out0 = out@;
                        out.push(a.inbox.clone());
                        assert(out@.map_values(|s: String| s@) =~= out0.map_values(
                            |s: String| s@,
                        ).push(actor_at(dir.actors@, rels@[i as int].follower@).inbox@));
                    }
                },
                None => {},
            }
        }
        i = i + 1;
    }
    assert(rels@.subrange(0, rels@.len() as int) =~= rels@);
    out
}

} // verus!
