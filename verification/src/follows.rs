//! Follow relationships and the follow/accept handshake.
//!
//! A relationship is created as `Requested` when a follow is issued or
//! received; it becomes `Accepted` only on a verified Accept that matches it,
//! and a Reject removes the requested record instead of transitioning it. An
//! Accept with no matching record is unsolicited and rejected by the caller.

use vstd::prelude::*;

use vstd::pervasive::VecAdditionalExecFns;

verus! {

/// The state of a follow relationship.
#[derive(Clone, Copy, Debug, PartialEq, Eq, Structural)]
pub enum FollowState {
    /// A follow was issued or received and awaits its Accept.
    Requested,
    /// A matching, verified Accept arrived.
    Accepted,
}

/// One follower-of-followed relationship, both sides named by actor URL.
pub struct FollowRelationship {
    pub follower: String,
    pub followed: String,
    pub state: FollowState,
}

/// Some relationship in `s` links `follower` to `followed`.
pub open spec fn has_follow(s: Seq<FollowRelationship>, follower: Seq<char>, followed: Seq<char>) -> bool {
    exists|i: int|
        0 <= i < s.len() && s[i].follower@ == follower && s[i].followed@ == followed
}

/// The state of the relationship linking `follower` to `followed` (meaningful
/// when `has_follow` holds and the pairs in `s` are unique).
pub open spec fn follow_state_of(
    s: Seq<FollowRelationship>,
    follower: Seq<char>,
    followed: Seq<char>,
) -> FollowState {
    s[choose|i: int|
        0 <= i < s.len() && s[i].follower@ == follower && s[i].followed@ == followed].state
}

/// The relationship pairs in `s` are pairwise distinct.
pub open spec fn follows_wf(s: Seq<FollowRelationship>) -> bool {
    forall|i: int, j: int|
        0 <= i < j < s.len() ==> !(s[i].follower@ == s[j].follower@ && s[i].followed@
            == s[j].followed@)
}

/// How recording a follow request changes the store: a missing relationship is
/// appended as `Requested`; an existing one, in whatever state, is left alone.
pub open spec fn follow_requested_post(
    s0: Seq<FollowRelationship>,
    s1: Seq<FollowRelationship>,
    follower: Seq<char>,
    followed: Seq<char>,
) -> bool {
    if has_follow(s0, follower, followed) {
        s1 == s0
    } else {
        &&& s1.len() == s0.len() + 1
        &&& (forall|i: int| 0 <= i < s0.len() ==> s1[i] == s0[i])
        &&& s1.last().follower@ == follower
        &&& s1.last().followed@ == followed
        &&& s1.last().state == FollowState::Requested
    }
}

/// How a verified Accept changes the store: the matching relationship becomes
/// `Accepted` (a second Accept is a no-op), every other relationship is kept.
pub open spec fn follow_accepted_post(
    s0: Seq<FollowRelationship>,
    s1: Seq<FollowRelationship>,
    follower: Seq<char>,
    followed: Seq<char>,
) -> bool {
    &&& s1.len() == s0.len()
    &&& forall|i: int|
        0 <= i < s0.len() ==> {
            &&& (#[trigger] s1[i]).follower@ == s0[i].follower@
            &&& s1[i].followed@ == s0[i].followed@
            &&& s1[i].state == (if s0[i].follower@ == follower && s0[i].followed@ == followed {
                FollowState::Accepted
            } else {
                s0[i].state
            })
        }
}

/// How a verified Reject changes the store: the matching relationship is
/// removed, every other relationship is kept (order aside).
pub open spec fn follow_removed_post(
    s0: Seq<FollowRelationship>,
    s1: Seq<FollowRelationship>,
    follower: Seq<char>,
    followed: Seq<char>,
) -> bool {
    &&& !has_follow(s1, follower, followed)
    &&& s1.len() + (if has_follow(s0, follower, followed) {
        1int
    } else {
        0int
    }) == s0.len()
    &&& forall|f: Seq<char>, c: Seq<char>|
        !(f == follower && c == followed) ==> (#[trigger] has_follow(s1, f, c) == has_follow(
            s0,
            f,
            c,
        ) && (has_follow(s0, f, c) ==> follow_state_of(s1, f, c) == follow_state_of(s0, f, c)))
}

/// The store of follow relationships, driven only by verified activities.
pub struct FollowStore {
    pub relationships: Vec<FollowRelationship>,
}

impl FollowStore {
    pub open spec fn wf(self) -> bool {
        follows_wf(self.relationships@)
    }

    pub fn new() -> (r: FollowStore)
        ensures
            r.wf(),
            r.relationships@.len() == 0,
    {
        FollowStore { relationships: Vec::new() }
    }

    fn index_of(&self, follower: &String, followed: &String) -> (r: Option<usize>)
        ensures
            match r {
                Some(i) => i < self.relationships@.len() && self.relationships@[i as int].follower@
                    == follower@ && self.relationships@[i as int].followed@ == followed@,
                None => !has_follow(self.relationships@, follower@, followed@),
            },
    {
        let mut i: usize = 0;
        while i < self.relationships.len()
            invariant
                i <= self.relationships@.len(),
                forall|j: int|
                    0 <= j < i ==> !(self.relationships@[j].follower@ == follower@
                        && self.relationships@[j].followed@ == followed@),
            decreases self.relationships@.len() - i,
        {
            if self.relationships[i].follower == *follower && self.relationships[i].followed
                == *followed {
                return Some(i);
            }
            i = i + 1;
        }
        None
    }

    /// Whether a relationship links `follower` to `followed`, and in which
    /// state. `None` means no follow was ever requested between the two.
    pub fn state_of(&self, follower: &String, followed: &String) -> (r: Option<FollowState>)
        requires
            self.wf(),
        ensures
            match r {
                Some(st) => has_follow(self.relationships@, follower@, followed@) && st
                    == follow_state_of(self.relationships@, follower@, followed@),
                None => !has_follow(self.relationships@, follower@, followed@),
            },
    {
        match self.index_of(follower, followed) {
            Some(i) => {
                proof {
                    lemma_follow_at(self.relationships@, follower@, followed@, i as int);
                }
                Some(self.relationships[i].state)
            },
            None => None,
        }
    }

    /// Record that a follow was issued or received: create the relationship as
    /// `Requested` if it does not exist yet.
    pub fn follow_requested(&mut self, follower: &String, followed: &String)
        requires
            old(self).wf(),
        ensures
            final(self).wf(),
            follow_requested_post(
                old(self).relationships@,
                final(self).relationships@,
                follower@,
                followed@,
            ),
    {
        match self.index_of(follower, followed) {
            Some(_) => {},
            None => {
                self.relationships.push(
                    FollowRelationship {
                        follower: follower.clone(),
                        followed: followed.clone(),
                        state: FollowState::Requested,
                    },
                );
            },
        }
    }

    /// Apply a verified Accept: transition the matching relationship to
    /// `Accepted`. A relationship already accepted stays accepted; a missing
    /// one means the Accept was unsolicited, which callers reject.
    pub fn follow_accepted(&mut self, follower: &String, followed: &String) -> (r: bool)
        requires
            old(self).wf(),
        ensures
            final(self).wf(),
            r == has_follow(old(self).relationships@, follower@, followed@),
            r ==> follow_accepted_post(
                old(self).relationships@,
                final(self).relationships@,
                follower@,
                followed@,
            ),
            !r ==> final(self).relationships@ == old(self).relationships@,
    {
        match self.index_of(follower, followed) {
            Some(i) => {
                let updated = FollowRelationship {
                    follower: self.relationships[i].follower.clone(),
                    followed: self.relationships[i].followed.clone(),
                    state: FollowState::Accepted,
                };
                self.relationships.set(i, updated);
                proof {
                    let s0 = old(self).relationships@;
                    let s1 = self.relationships@;
                    assert forall|j: int| 0 <= j < s0.len() implies {
                        &&& (#[trigger] s1[j]).follower@ == s0[j].follower@
                        &&& s1[j].followed@ == s0[j].followed@
                        &&& s1[j].state == (if s0[j].follower@ == follower@ && s0[j].followed@
                            == followed@ {
                            FollowState::Accepted
                        } else {
                            s0[j].state
                        })
                    } by {
                        if j != i as int {
                            assert(s1[j] == s0[j]);
                        }
                    }
                }
                true
            },
            None => false,
        }
    }

    /// Apply a verified Reject: remove the matching relationship. A Reject for
    /// a relationship that does not exist changes nothing.
    pub fn follow_rejected(&mut self, follower: &String, followed: &String)
        requires
            old(self).wf(),
        ensures
            final(self).wf(),
            follow_removed_post(
                old(self).relationships@,
                final(self).relationships@,
                follower@,
                followed@,
            ),
    {
        match self.index_of(follower, followed) {
            Some(i) => {
                let ghost s0 = self.relationships@;
                self.relationships.remove(i);
                proof {
                    lemma_remove_follow(s0, self.relationships@, follower@, followed@, i as int);
                }
            },
            None => {},
        }
    }
}

/// With unique pairs, `follow_state_of` reads the state at any matching index.
pub proof fn lemma_follow_at(
    s: Seq<FollowRelationship>,
    follower: Seq<char>,
    followed: Seq<char>,
    i: int,
)
    requires
        follows_wf(s),
        0 <= i < s.len(),
        s[i].follower@ == follower,
        s[i].followed@ == followed,
    ensures
        has_follow(s, follower, followed),
        follow_state_of(s, follower, followed) == s[i].state,
{
    assert(has_follow(s, follower, followed));
    let j = choose|j: int|
        0 <= j < s.len() && s[j].follower@ == follower && s[j].followed@ == followed;
    if j != i {
        if j < i {
            assert(!(s[j].follower@ == s[i].follower@ && s[j].followed@ == s[i].followed@));
        } else {
            assert(!(s[i].follower@ == s[j].follower@ && s[i].followed@ == s[j].followed@));
        }
    }
}

/// Removing the unique matching index realizes `follow_removed_post`.
proof fn lemma_remove_follow(
    s0: Seq<FollowRelationship>,
    s1: Seq<FollowRelationship>,
    follower: Seq<char>,
    followed: Seq<char>,
    i: int,
)
    requires
        follows_wf(s0),
        0 <= i < s0.len(),
        s0[i].follower@ == follower,
        s0[i].followed@ == followed,
        s1 == s0.remove(i),
    ensures
        follows_wf(s1),
        follow_removed_post(s0, s1, follower, followed),
{
    lemma_follow_at(s0, follower, followed, i);
    assert forall|f: Seq<char>, c: Seq<char>| !(f == follower && c == followed) implies (
    #[trigger] has_follow(s1, f, c) == has_follow(s0, f, c) && (has_follow(s0, f, c)
        ==> follow_state_of(s1, f, c) == follow_state_of(s0, f, c))) by {
        if has_follow(s0, f, c) {
            let k = choose|k: int| 0 <= k < s0.len() && s0[k].follower@ == f && s0[k].followed@ == c;
            let k1 = if k < i {
                k
            } else {
                k - 1
            };
            assert(s1[k1] == s0[k]);
            lemma_follow_at(s0, f, c, k);
            lemma_follow_at(s1, f, c, k1);
        }
        if has_follow(s1, f, c) {
            let k = choose|k: int| 0 <= k < s1.len() && s1[k].follower@ == f && s1[k].followed@ == c;
            let k0 = if k < i {
                k
            } else {
                k + 1
            };
            assert(s1[k] == s0[k0]);
            assert(has_follow(s0, f, c));
        }
    }
    if has_follow(s1, follower, followed) {
        let k = choose|k: int|
            0 <= k < s1.len() && s1[k].follower@ == follower && s1[k].followed@ == followed;
        let k0 = if k < i {
            k
        } else {
            k + 1
        };
        assert(s1[k] == s0[k0]);
        assert(!(s0[i].follower@ == s0[k0].follower@ && s0[i].followed@ == s0[k0].followed@)
            || !(s0[k0].follower@ == s0[i].follower@ && s0[k0].followed@ == s0[i].followed@));
    }
    assert forall|p: int, q: int| 0 <= p < q < s1.len() implies !(s1[p].follower@ == s1[q].follower@
        && s1[p].followed@ == s1[q].followed@) by {
        let p0 = if p < i {
            p
        } else {
            p + 1
        };
        let q0 = if q < i {
            q
        } else {
            q + 1
        };
        assert(s1[p] == s0[p0]);
        assert(s1[q] == s0[q0]);
    }
}

/// Law (follow handshake): from a store with no relationship between the two
/// actors, recording the follow request creates it as `Requested`; a matching
/// verified Accept transitions it to `Accepted`; a second Accept changes no
/// relationship's state, leaving it `Accepted`.
pub proof fn lemma_follow_handshake(
    s0: Seq<FollowRelationship>,
    s1: Seq<FollowRelationship>,
    s2: Seq<FollowRelationship>,
    s3: Seq<FollowRelationship>,
    follower: Seq<char>,
    followed: Seq<char>,
)
    requires
        follows_wf(s0),
        follows_wf(s1),
        !has_follow(s0, follower, followed),
        follow_requested_post(s0, s1, follower, followed),
        follow_accepted_post(s1, s2, follower, followed),
        follow_accepted_post(s2, s3, follower, followed),
    ensures
        has_follow(s1, follower, followed),
        follow_state_of(s1, follower, followed) == FollowState::Requested,
        has_follow(s2, follower, followed),
        follow_state_of(s2, follower, followed) == FollowState::Accepted,
        has_follow(s3, follower, followed),
        follow_state_of(s3, follower, followed) == FollowState::Accepted,
        forall|i: int| 0 <= i < s2.len() ==> (#[trigger] s3[i]).state == s2[i].state,
{
    let n = s0.len() as int;
    assert(s1[n].follower@ == follower && s1[n].followed@ == followed);
    lemma_follow_at(s1, follower, followed, n);
    let i = choose|i: int|
        0 <= i < s1.len() && s1[i].follower@ == follower && s1[i].followed@ == followed;
    assert(s2[i].follower@ == follower && s2[i].followed@ == followed);
    assert(s2[i].state == FollowState::Accepted);
    assert forall|p: int, q: int| 0 <= p < q < s2.len() implies !(s2[p].follower@ == s2[q].follower@
        && s2[p].followed@ == s2[q].followed@) by {
        assert(s2[p].follower@ == s1[p].follower@ && s2[p].followed@ == s1[p].followed@);
        assert(s2[q].follower@ == s1[q].follower@ && s2[q].followed@ == s1[q].followed@);
    }
    lemma_follow_at(s2, follower, followed, i);
    assert(s3[i].follower@ == follower && s3[i].followed@ == followed);
    assert(s3[i].state == FollowState::Accepted);
    assert forall|p: int, q: int| 0 <= p < q < s3.len() implies !(s3[p].follower@ == s3[q].follower@
        && s3[p].followed@ == s3[q].followed@) by {
        assert(s3[p].follower@ == s2[p].follower@ && s3[p].followed@ == s2[p].followed@);
        assert(s3[q].follower@ == s2[q].follower@ && s3[q].followed@ == s2[q].followed@);
    }
    assert(follows_wf(s3));
    lemma_follow_at(s3, follower, followed, i);
    assert forall|k: int| 0 <= k < s2.len() implies (#[trigger] s3[k]).state == s2[k].state by {
        if s2[k].follower@ == follower && s2[k].followed@ == followed {
            if k != i {
                if k < i {
                    assert(!(s2[k].follower@ == s2[i].follower@ && s2[k].followed@
                        == s2[i].followed@));
                } else {
                    assert(!(s2[i].follower@ == s2[k].follower@ && s2[i].followed@
                        == s2[k].followed@));
                }
            }
            assert(s2[k].state == FollowState::Accepted);
        }
    }
}

} // verus!
