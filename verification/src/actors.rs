//! Actor directory.
//!
//! The directory caches actor identities (key material, inbox address, kind,
//! local-or-remote flag) keyed by their URL. Resolution returns a cached
//! record when one exists; otherwise it spends one unit of the per-pipeline
//! fetch budget, validates the fetched document's key material and upserts it.
//! The documents that remote retrieval would return are handed in as a list of
//! fetched actor documents, so resolution itself is plain logic.

use vstd::prelude::*;

use crate::errors::InboundError;

verus! {

/// The kind of an addressable identity.
#[derive(Clone, Copy, Debug, PartialEq, Eq, Structural)]
pub enum ActorKind {
    Person,
    Community,
}

/// An addressable identity with its key material and inbox address.
pub struct Actor {
    pub apub_id: String,
    pub kind: ActorKind,
    pub public_key: Vec<u8>,
    pub inbox: String,
    pub local: bool,
}

impl Actor {
    /// Required key material is present.
    pub open spec fn wf(self) -> bool {
        self.public_key@.len() > 0
    }
}

/// An actor document as remote retrieval returns it, before validation. Its
/// key material may be missing (empty).
pub struct FetchedActor {
    pub apub_id: String,
    pub kind: ActorKind,
    pub public_key: Vec<u8>,
    pub inbox: String,
}

/// Some record in `s` carries the identifier `id`.
pub open spec fn has_actor(s: Seq<Actor>, id: Seq<char>) -> bool {
    exists|i: int| 0 <= i < s.len() && s[i].apub_id@ == id
}

/// The record in `s` carrying `id` (meaningful when `has_actor` holds and the
/// identifiers in `s` are unique).
pub open spec fn actor_at(s: Seq<Actor>, id: Seq<char>) -> Actor {
    s[choose|i: int| 0 <= i < s.len() && s[i].apub_id@ == id]
}

/// Some fetched document in `s` carries the identifier `id`.
pub open spec fn fetched_has(s: Seq<FetchedActor>, id: Seq<char>) -> bool {
    exists|i: int| 0 <= i < s.len() && s[i].apub_id@ == id
}

/// The fetched document in `s` carrying `id`.
pub open spec fn fetched_at(s: Seq<FetchedActor>, id: Seq<char>) -> FetchedActor {
    s[choose|i: int| 0 <= i < s.len() && s[i].apub_id@ == id]
}

/// The fetched documents carry pairwise distinct identifiers: the network
/// serves one document per actor URL.
pub open spec fn fetched_wf(s: Seq<FetchedActor>) -> bool {
    forall|i: int, j: int| 0 <= i < j < s.len() ==> s[i].apub_id@ != s[j].apub_id@
}

/// The records in `s` carry pairwise distinct identifiers.
pub open spec fn actors_unique(s: Seq<Actor>) -> bool {
    forall|i: int, j: int| 0 <= i < j < s.len() ==> s[i].apub_id@ != s[j].apub_id@
}

/// `d1` extends `d0` by appended records only: nothing cached is ever dropped
/// or overwritten while referenced.
pub open spec fn dir_extends(d0: Seq<Actor>, d1: Seq<Actor>) -> bool {
    d0.len() <= d1.len() && (forall|i: int| 0 <= i < d0.len() ==> d1[i] == d0[i])
}

/// Two actor records that agree on everything the engine reads.
pub open spec fn actor_sim(x: Actor, y: Actor) -> bool {
    &&& x.apub_id@ == y.apub_id@
    &&& x.kind == y.kind
    &&& x.public_key@ == y.public_key@
    &&& x.inbox@ == y.inbox@
    &&& x.local == y.local
}

/// The error that resolving `id` returns, or `None` when resolution succeeds:
/// a cached record always resolves; otherwise one unit of the fetch budget is
/// spent, the document must be served, and its key material must be present.
pub open spec fn resolve_would_err(
    dir: Seq<Actor>,
    remote: Seq<FetchedActor>,
    counter: int,
    limit: int,
    id: Seq<char>,
) -> Option<InboundError> {
    if has_actor(dir, id) {
        None
    } else if counter >= limit {
        Some(InboundError::FetchBudgetExceeded)
    } else if !fetched_has(remote, id) {
        Some(InboundError::Fetch)
    } else if fetched_at(remote, id).public_key@.len() == 0 {
        Some(InboundError::InvalidActor)
    } else {
        None
    }
}

/// The kind that a successful resolution of `id` reports.
pub open spec fn resolve_would_kind(
    dir: Seq<Actor>,
    remote: Seq<FetchedActor>,
    id: Seq<char>,
) -> ActorKind {
    if has_actor(dir, id) {
        actor_at(dir, id).kind
    } else {
        fetched_at(remote, id).kind
    }
}

/// The key material that a successful resolution of `id` reports.
pub open spec fn resolved_key(dir: Seq<Actor>, remote: Seq<FetchedActor>, id: Seq<char>) -> Seq<
    u8,
> {
    if has_actor(dir, id) {
        actor_at(dir, id).public_key@
    } else {
        fetched_at(remote, id).public_key@
    }
}

/// The inbox address that a successful resolution of `id` reports.
pub open spec fn resolved_inbox(dir: Seq<Actor>, remote: Seq<FetchedActor>, id: Seq<char>) -> Seq<
    char,
> {
    if has_actor(dir, id) {
        actor_at(dir, id).inbox@
    } else {
        fetched_at(remote, id).inbox@
    }
}

/// The fetch counter after a successful resolution of `id`.
pub open spec fn resolve_next_counter(dir: Seq<Actor>, counter: int, id: Seq<char>) -> int {
    if has_actor(dir, id) {
        counter
    } else {
        counter + 1
    }
}

/// With unique identifiers, `actor_at` returns the record at any matching
/// index.
pub proof fn lemma_actor_at(s: Seq<Actor>, id: Seq<char>, i: int)
    requires
        forall|p: int, q: int| 0 <= p < q < s.len() ==> s[p].apub_id@ != s[q].apub_id@,
        0 <= i < s.len(),
        s[i].apub_id@ == id,
    ensures
        has_actor(s, id),
        actor_at(s, id) == s[i],
{
    assert(has_actor(s, id));
    let j = choose|j: int| 0 <= j < s.len() && s[j].apub_id@ == id;
    if j != i {
        if j < i {
            assert(s[j].apub_id@ != s[i].apub_id@);
        } else {
            assert(s[i].apub_id@ != s[j].apub_id@);
        }
    }
}

/// With unique identifiers, `fetched_at` returns the document at any matching
/// index.
pub proof fn lemma_fetched_at(s: Seq<FetchedActor>, id: Seq<char>, i: int)
    requires
        fetched_wf(s),
        0 <= i < s.len(),
        s[i].apub_id@ == id,
    ensures
        fetched_has(s, id),
        fetched_at(s, id) == s[i],
{
    assert(fetched_has(s, id));
    let j = choose|j: int| 0 <= j < s.len() && s[j].apub_id@ == id;
    if j != i {
        if j < i {
            assert(s[j].apub_id@ != s[i].apub_id@);
        } else {
            assert(s[i].apub_id@ != s[j].apub_id@);
        }
    }
}

/// Copy a byte string.
pub fn copy_bytes(v: &Vec<u8>) -> (r: Vec<u8>)
    ensures
        r@ == v@,
{
    let mut r: Vec<u8> = Vec::new();
    let mut i: usize = 0;
    while i < v.len()
        invariant
            i <= v@.len(),
            r@ == v@.subrange(0, i as int),
        decreases v@.len() - i,
    {
        r.push(v[i]);
        assert(r@ =~= v@.subrange(0, i + 1 as int));
        i = i + 1;
    }
    assert(r@ =~= v@);
    r
}

/// The cache of resolved actors. Sole writer of actor records.
pub struct ActorDirectory {
    pub actors: Vec<Actor>,
}

impl ActorDirectory {
    /// Identifiers are unique and every cached record is well formed.
    pub open spec fn wf(self) -> bool {
        &&& actors_unique(self.actors@)
        &&& forall|i: int| 0 <= i < self.actors@.len() ==> (#[trigger] self.actors@[i]).wf()
    }

    pub fn new() -> (r: ActorDirectory)
        ensures
            r.wf(),
            r.actors@.len() == 0,
    {
        ActorDirectory { actors: Vec::new() }
    }

    /// Find the cached record for `apub_id`, if any.
    fn index_of(&self, apub_id: &String) -> (r: Option<usize>)
        ensures
            match r {
                Some(i) => i < self.actors@.len() && self.actors@[i as int].apub_id@ == apub_id@,
                None => !has_actor(self.actors@, apub_id@),
            },
    {
        let mut i: usize = 0;
        while i < self.actors.len()
            invariant
                i <= self.actors@.len(),
                forall|j: int| 0 <= j < i ==> self.actors@[j].apub_id@ != apub_id@,
            decreases self.actors@.len() - i,
        {
            if self.actors[i].apub_id == *apub_id {
                return Some(i);
            }
            i = i + 1;
        }
        None
    }

    /// Record a new actor. Callers resolve cache misses through `resolve`;
    /// this is how local actors enter the directory.
    pub fn upsert(&mut self, actor: Actor)
        requires
            old(self).wf(),
            actor.wf(),
            !has_actor(old(self).actors@, actor.apub_id@),
        ensures
            final(self).wf(),
            final(self).actors@ == old(self).actors@.push(actor),
    {
        self.actors.push(actor);
    }

    /// Resolve an actor URL: return the cached record if one exists, otherwise
    /// spend one unit of the fetch budget on the document the network serves
    /// for that URL, validate its key material and upsert it. Re-entrant calls
    /// for the same URL hit the cache and never duplicate a record.
    pub fn resolve(
        &mut self,
        apub_id: &String,
        remote: &Vec<FetchedActor>,
        counter: &mut u32,
        limit: u32,
    ) -> (r: Result<Actor, InboundError>)
        requires
            old(self).wf(),
            fetched_wf(remote@),
            *old(counter) <= limit,
        ensures
            final(self).wf(),
            dir_extends(old(self).actors@, final(self).actors@),
            *old(counter) <= *final(counter) <= limit,
            r is Ok <==> resolve_would_err(
                old(self).actors@,
                remote@,
                *old(counter) as int,
                limit as int,
                apub_id@,
            ) is None,
            r matches Err(e) ==> Some(e) == resolve_would_err(
                old(self).actors@,
                remote@,
                *old(counter) as int,
                limit as int,
                apub_id@,
            ) && final(self).actors@ == old(self).actors@,
            r matches Ok(a) ==> {
                &&& a.wf()
                &&& a.apub_id@ == apub_id@
                &&& a.kind == resolve_would_kind(old(self).actors@, remote@, apub_id@)
                &&& a.public_key@ == resolved_key(old(self).actors@, remote@, apub_id@)
                &&& a.inbox@ == resolved_inbox(old(self).actors@, remote@, apub_id@)
                &&& has_actor(final(self).actors@, apub_id@)
                &&& actor_sim(actor_at(final(self).actors@, apub_id@), a)
                &&& *final(counter) == resolve_next_counter(
                    old(self).actors@,
                    *old(counter) as int,
                    apub_id@,
                )
                &&& (has_actor(old(self).actors@, apub_id@) ==> final(self).actors@ == old(
                    self,
                ).actors@ && a.local == actor_at(old(self).actors@, apub_id@).local)
                &&& (!has_actor(old(self).actors@, apub_id@) ==> final(self).actors@.len() == old(
                    self,
                ).actors@.len() + 1 && !a.local)
            },
    {
        match self.index_of(apub_id) {
            Some(i) => {
                proof {
                    lemma_actor_at(self.actors@, apub_id@, i as int);
                }
                let a = Actor {
                    apub_id: self.actors[i].apub_id.clone(),
                    kind: self.actors[i].kind,
                    public_key: copy_bytes(&self.actors[i].public_key),
                    inbox: self.actors[i].inbox.clone(),
                    local: self.actors[i].local,
                };
                Ok(a)
            },
            None => {
                if *counter >= limit {
                    return Err(InboundError::FetchBudgetExceeded);
                }
                *counter = *counter + 1;
                match fetched_index(remote, apub_id) {
                    None => Err(InboundError::Fetch),
                    Some(k) => {
                        proof {
                            lemma_fetched_at(remote@, apub_id@, k as int);
                        }
                        if remote[k].public_key.len() == 0 {
                            return Err(InboundError::InvalidActor);
                        }
                        let stored = Actor {
                            apub_id: remote[k].apub_id.clone(),
                            kind: remote[k].kind,
                            public_key: copy_bytes(&remote[k].public_key),
                            inbox: remote[k].inbox.clone(),
                            local: false,
                        };
                        let returned = Actor {
                            apub_id: remote[k].apub_id.clone(),
                            kind: remote[k].kind,
                            public_key: copy_bytes(&remote[k].public_key),
                            inbox: remote[k].inbox.clone(),
                            local: false,
                        };
                        let ghost dir0 = self.actors@;
                        self.actors.push(stored);
                        proof {
                            lemma_actor_at(self.actors@, apub_id@, dir0.len() as int);
                        }
                        Ok(returned)
                    },
                }
            },
        }
    }
}

impl ActorDirectory {
    /// The cached record for an actor URL, without resolution.
    pub fn cached(&self, apub_id: &String) -> (r: Option<&Actor>)
        requires
            self.wf(),
        ensures
            match r {
                Some(a) => has_actor(self.actors@, apub_id@) && *a == actor_at(
                    self.actors@,
                    apub_id@,
                ),
                None => !has_actor(self.actors@, apub_id@),
            },
    {
        match self.index_of(apub_id) {
            Some(i) => {
                proof {
                    lemma_actor_at(self.actors@, apub_id@, i as int);
                }
                Some(&self.actors[i])
            },
            None => None,
        }
    }
}

/// Find the fetched document for `apub_id`, if the network serves one.
fn fetched_index(remote: &Vec<FetchedActor>, apub_id: &String) -> (r: Option<usize>)
    ensures
        match r {
            Some(i) => i < remote@.len() && remote@[i as int].apub_id@ == apub_id@,
            None => !fetched_has(remote@, apub_id@),
        },
{
    let mut i: usize = 0;
    while i < remote.len()
        invariant
            i <= remote@.len(),
            forall|j: int| 0 <= j < i ==> remote@[j].apub_id@ != apub_id@,
        decreases remote@.len() - i,
    {
        if remote[i].apub_id == *apub_id {
            return Some(i);
        }
        i = i + 1;
    }
    None
}

} // verus!
