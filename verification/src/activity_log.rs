//! Activity log and deduplication ledger.
//!
//! One store records every activity this node has processed (inbound) or
//! produced (outbound), keyed by the activity's globally unique identifier.
//! The existence check and the insert are one operation, `record_if_new`, so a
//! racing duplicate can never be recorded twice; the same store answers the
//! retrieval of a local activity's document.

use vstd::prelude::*;

use crate::actors::copy_bytes;

verus! {

/// A processed or produced activity: its identifier, the raw document bytes,
/// whether this node produced it, and whether it may be served publicly.
pub struct StoredActivity {
    pub ap_id: String,
    pub data: Vec<u8>,
    pub local: bool,
    pub sensitive: bool,
}

/// Some record in `s` carries the identifier `id`.
pub open spec fn log_has(s: Seq<StoredActivity>, id: Seq<char>) -> bool {
    exists|i: int| 0 <= i < s.len() && s[i].ap_id@ == id
}

/// The record in `s` carrying `id` (meaningful when `log_has` holds and the
/// identifiers in `s` are unique).
pub open spec fn log_at(s: Seq<StoredActivity>, id: Seq<char>) -> StoredActivity {
    s[choose|i: int| 0 <= i < s.len() && s[i].ap_id@ == id]
}

/// How recording an activity changes the log: a new identifier is appended
/// with the given document and flags; a known one leaves the log untouched.
pub open spec fn log_recorded_post(
    s0: Seq<StoredActivity>,
    s1: Seq<StoredActivity>,
    id: Seq<char>,
    data: Seq<u8>,
    local: bool,
    sensitive: bool,
) -> bool {
    if log_has(s0, id) {
        s1 == s0
    } else {
        &&& s1.len() == s0.len() + 1
        &&& (forall|i: int| 0 <= i < s0.len() ==> s1[i] == s0[i])
        &&& s1.last().ap_id@ == id
        &&& s1.last().data@ == data
        &&& s1.last().local == local
        &&& s1.last().sensitive == sensitive
    }
}

/// The deduplication ledger and activity store.
pub struct ActivityLog {
    pub activities: Vec<StoredActivity>,
}

impl ActivityLog {
    /// Identifiers are unique: each activity is recorded exactly once.
    pub open spec fn wf(self) -> bool {
        forall|i: int, j: int|
            0 <= i < j < self.activities@.len() ==> self.activities@[i].ap_id@
                != self.activities@[j].ap_id@
    }

    pub fn new() -> (r: ActivityLog)
        ensures
            r.wf(),
            r.activities@.len() == 0,
    {
        ActivityLog { activities: Vec::new() }
    }

    fn index_of(&self, ap_id: &String) -> (r: Option<usize>)
        ensures
            match r {
                Some(i) => i < self.activities@.len() && self.activities@[i as int].ap_id@
                    == ap_id@,
                None => !log_has(self.activities@, ap_id@),
            },
    {
        let mut i: usize = 0;
        while i < self.activities.len()
            invariant
                i <= self.activities@.len(),
                forall|j: int| 0 <= j < i ==> self.activities@[j].ap_id@ != ap_id@,
            decreases self.activities@.len() - i,
        {
            if self.activities[i].ap_id == *ap_id {
                return Some(i);
            }
            i = i + 1;
        }
        None
    }

    /// Whether an activity with this identifier was processed before.
    pub fn is_activity_already_known(&self, ap_id: &String) -> (r: bool)
        ensures
            r == log_has(self.activities@, ap_id@),
    {
        self.index_of(ap_id).is_some()
    }

    /// Record the activity unless its identifier is already known: the check
    /// and the insert are one operation, and the first caller for an
    /// identifier is the only one that records it. Returns whether the record
    /// was made.
    pub fn record_if_new(
        &mut self,
        ap_id: &String,
        data: &Vec<u8>,
        local: bool,
        sensitive: bool,
    ) -> (r: bool)
        requires
            old(self).wf(),
        ensures
            final(self).wf(),
            r == !log_has(old(self).activities@, ap_id@),
            log_recorded_post(
                old(self).activities@,
                final(self).activities@,
                ap_id@,
                data@,
                local,
                sensitive,
            ),
            log_has(final(self).activities@, ap_id@),
    {
        match self.index_of(ap_id) {
            Some(_) => false,
            None => {
                self.activities.push(
                    StoredActivity {
                        ap_id: ap_id.clone(),
                        data: copy_bytes(data),
                        local,
                        sensitive,
                    },
                );
                true
            },
        }
    }

    /// The stored document for an identifier, with its flags. `None` when the
    /// identifier was never recorded.
    pub fn read_from_apub_id(&self, ap_id: &String) -> (r: Option<&StoredActivity>)
        requires
            self.wf(),
        ensures
            match r {
                Some(a) => log_has(self.activities@, ap_id@) && *a == log_at(
                    self.activities@,
                    ap_id@,
                ),
                None => !log_has(self.activities@, ap_id@),
            },
    {
        match self.index_of(ap_id) {
            Some(i) => {
                proof {
                    lemma_log_at(self.activities@, ap_id@, i as int);
                }
                Some(&self.activities[i])
            },
            None => None,
        }
    }
}

/// With unique identifiers, `log_at` returns the record at any matching index.
pub proof fn lemma_log_at(s: Seq<StoredActivity>, id: Seq<char>, i: int)
    requires
        forall|p: int, q: int| 0 <= p < q < s.len() ==> s[p].ap_id@ != s[q].ap_id@,
        0 <= i < s.len(),
        s[i].ap_id@ == id,
    ensures
        log_has(s, id),
        log_at(s, id) == s[i],
{
    assert(log_has(s, id));
    let j = choose|j: int| 0 <= j < s.len() && s[j].ap_id@ == id;
    if j != i {
        if j < i {
            assert(s[j].ap_id@ != s[i].ap_id@);
        } else {
            assert(s[i].ap_id@ != s[j].ap_id@);
        }
    }
}

} // verus!
