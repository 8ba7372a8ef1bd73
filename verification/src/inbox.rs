//! The inbound activity pipeline.
//!
//! Strictly ordered and short-circuiting on the first failure: resolve the
//! claimed actor within the fetch budget, verify the request signature against
//! the resolved key, short-circuit as a successful no-op on an already-known
//! identifier, enforce the anti-loopback rule, run the variant's verification,
//! record the identifier so a racing duplicate is rejected, and only then let
//! the variant mutate state. Every rejection happens before the activity is
//! recorded, so a corrected resend can be reprocessed.

use vstd::prelude::*;

use vstd::string::StringExecFns;

use crate::activities::{
    accept_id_of, accept_verify_error, common_fields_error, follow_verify_error2,
    handshake_verify_error, lemma_follow2_stable, lemma_follow_plain_to2, reject_verify_error,
    AcceptFollowCommunity, SharedInboxActivity,
};
use crate::activity_log::{log_at, log_has, log_recorded_post, ActivityLog};
use crate::actors::{
    copy_bytes, dir_extends, fetched_wf, has_actor, resolve_next_counter, resolve_would_err,
    resolve_would_kind, resolved_inbox, resolved_key, Actor, ActorDirectory, FetchedActor,
};
use crate::errors::{InboundError, SignatureError};
use crate::follows::{
    follow_accepted_post, follow_removed_post, follow_requested_post, has_follow,
    FollowRelationship, FollowStore,
};
use crate::settings::Settings;
use crate::sign::{signature_matches, verify_signature, Request};
use crate::urls::{declares_domain, has_domain, url_domain};

verus! {

/// What a successful pipeline execution did.
#[derive(Debug)]
pub enum ReceiveOutcome {
    /// The identifier was processed before: an idempotent no-op, not an error.
    AlreadyKnown,
    /// The activity was verified, recorded and received. An inbound Follow is
    /// answered with an Accept, handed back with the inbox to deliver it to.
    Applied(Option<(AcceptFollowCommunity, String)>),
}

/// The outcome of the variant verification step, over the state the pipeline
/// started from; the claimed actor is cached by the time it runs.
pub open spec fn variant_verify_error(
    a: SharedInboxActivity,
    dir: Seq<Actor>,
    remote: Seq<FetchedActor>,
    counter: int,
    limit: int,
    follows: Seq<FollowRelationship>,
) -> Option<InboundError> {
    match a {
        SharedInboxActivity::Follow(f) => follow_verify_error2(
            f,
            dir,
            remote,
            counter,
            limit,
            f.common.actor@,
        ),
        SharedInboxActivity::Accept(x) => accept_verify_error(
            x,
            dir,
            remote,
            counter,
            limit,
            follows,
        ),
        SharedInboxActivity::Reject(x) => reject_verify_error(x, dir, remote, counter, limit),
    }
}

/// The error an inbound activity is rejected with, or `None` when the pipeline
/// succeeds (which includes the already-known no-op), over the state the
/// pipeline started from.
pub open spec fn pipeline_error(
    a: SharedInboxActivity,
    req: Request,
    s: Settings,
    dir: Seq<Actor>,
    remote: Seq<FetchedActor>,
    follows: Seq<FollowRelationship>,
    log: Seq<crate::activity_log::StoredActivity>,
) -> Option<InboundError> {
    let cf = a.spec_common();
    let limit = s.fetch_limit as int;
    if resolve_would_err(dir, remote, 0, limit, cf.actor@) is Some {
        resolve_would_err(dir, remote, 0, limit, cf.actor@)
    } else if req.signature is None {
        Some(InboundError::Signature(SignatureError::Missing))
    } else if !signature_matches(req, resolved_key(dir, remote, cf.actor@)) {
        Some(InboundError::Signature(SignatureError::Mismatch))
    } else if log_has(log, cf.id@) {
        None
    } else if url_domain(cf.actor@) is None {
        Some(InboundError::InvalidUrl)
    } else if url_domain(cf.id@) is None {
        Some(InboundError::InvalidUrl)
    } else if url_domain(cf.id@) == Some(s.hostname@) {
        Some(InboundError::LocalOrigin)
    } else {
        variant_verify_error(
            a,
            dir,
            remote,
            resolve_next_counter(dir, 0, cf.actor@),
            limit,
            follows,
        )
    }
}

/// The pipeline ends as an idempotent no-op: the actor resolves, the signature
/// verifies, and the identifier was processed before.
pub open spec fn pipeline_duplicate(
    a: SharedInboxActivity,
    req: Request,
    s: Settings,
    dir: Seq<Actor>,
    remote: Seq<FetchedActor>,
    log: Seq<crate::activity_log::StoredActivity>,
) -> bool {
    let cf = a.spec_common();
    &&& resolve_would_err(dir, remote, 0, s.fetch_limit as int, cf.actor@) is None
    &&& signature_matches(req, resolved_key(dir, remote, cf.actor@))
    &&& log_has(log, cf.id@)
}

/// The pipeline records the activity and executes its receive effect.
pub open spec fn pipeline_applied(
    a: SharedInboxActivity,
    req: Request,
    s: Settings,
    dir: Seq<Actor>,
    remote: Seq<FetchedActor>,
    follows: Seq<FollowRelationship>,
    log: Seq<crate::activity_log::StoredActivity>,
) -> bool {
    pipeline_error(a, req, s, dir, remote, follows, log) is None && !pipeline_duplicate(
        a,
        req,
        s,
        dir,
        remote,
        log,
    )
}

/// Law (idempotence): once an activity identifier stands in the log, no
/// pipeline execution applies it again, whatever the request looks like: it
/// either ends as the idempotent no-op or is rejected, so the receive side
/// effect of an identifier executes at most once.
pub proof fn lemma_known_id_never_reapplied(
    a: SharedInboxActivity,
    req: Request,
    s: Settings,
    dir: Seq<Actor>,
    remote: Seq<FetchedActor>,
    follows: Seq<FollowRelationship>,
    log: Seq<crate::activity_log::StoredActivity>,
)
    requires
        log_has(log, a.spec_common().id@),
    ensures
        !pipeline_applied(a, req, s, dir, remote, follows, log),
{
}

/// Law (anti-loopback): an activity whose identifier declares this node's own
/// domain is never applied — its receive effect never executes — and when its
/// actor resolves, its signature verifies and it is not an already-known
/// duplicate, it is rejected with `LocalOrigin` exactly.
pub proof fn lemma_local_origin_rejected(
    a: SharedInboxActivity,
    req: Request,
    s: Settings,
    dir: Seq<Actor>,
    remote: Seq<FetchedActor>,
    follows: Seq<FollowRelationship>,
    log: Seq<crate::activity_log::StoredActivity>,
)
    requires
        url_domain(a.spec_common().id@) == Some(s.hostname@),
    ensures
        !pipeline_applied(a, req, s, dir, remote, follows, log),
        (resolve_would_err(dir, remote, 0, s.fetch_limit as int, a.spec_common().actor@) is None
            && signature_matches(req, resolved_key(dir, remote, a.spec_common().actor@))
            && !log_has(log, a.spec_common().id@) && url_domain(a.spec_common().actor@) is Some)
            ==> pipeline_error(a, req, s, dir, remote, follows, log) == Some(
            InboundError::LocalOrigin,
        ),
{
}

/// Law (fetch bound): processing an Accept whose community and inner person
/// are both uncached and distinct needs two remote resolutions; with a fetch
/// budget under two, and the budget as the only obstacle, the pipeline rejects
/// it with `FetchBudgetExceeded` instead of resolving on.
pub proof fn lemma_fetch_budget_bounds_chain(
    x: AcceptFollowCommunity,
    req: Request,
    s: Settings,
    dir: Seq<Actor>,
    remote: Seq<FetchedActor>,
    follows: Seq<FollowRelationship>,
    log: Seq<crate::activity_log::StoredActivity>,
)
    requires
        s.fetch_limit < 2,
        !has_actor(dir, x.common.actor@),
        !has_actor(dir, x.object.common.actor@),
        x.object.common.actor@ != x.common.actor@,
        s.fetch_limit == 1 ==> {
            &&& crate::actors::fetched_has(remote, x.common.actor@)
            &&& crate::actors::fetched_at(remote, x.common.actor@).public_key@.len() > 0
            &&& signature_matches(req, resolved_key(dir, remote, x.common.actor@))
            &&& !log_has(log, x.common.id@)
            &&& url_domain(x.common.actor@) is Some
            &&& url_domain(x.common.id@) == url_domain(x.common.actor@)
            &&& url_domain(x.common.id@) != Some(s.hostname@)
            &&& x.to@ == x.object.common.actor@
            &&& x.common.actor@ == x.object.to@
            &&& resolve_would_kind(dir, remote, x.common.actor@) == crate::actors::ActorKind::Community
            &&& common_fields_error(x.object.common) is None
            &&& x.object.to@ == x.object.object@
        },
    ensures
        pipeline_error(SharedInboxActivity::Accept(x), req, s, dir, remote, follows, log) == Some(
            InboundError::FetchBudgetExceeded,
        ),
{
}

/// A query for the stored document of a locally produced activity, by the
/// activity's type tag and name.
pub struct ActivityQuery {
    pub type_: String,
    pub id: String,
}

/// The identifier under which this node publishes an activity of a given type
/// and name.
pub open spec fn local_activity_id(s: Settings, type_: Seq<char>, id: Seq<char>) -> Seq<char> {
    s.protocol_and_hostname@ + "/activities/"@ + type_ + "/"@ + id
}

/// Serve the stored document of a local activity: its bytes when it exists,
/// was produced by this node and is not sensitive; nothing otherwise, so a
/// sensitive or remote activity is indistinguishable from a missing one.
pub fn get_activity(info: &ActivityQuery, settings: &Settings, log: &ActivityLog) -> (r: Option<
    Vec<u8>,
>)
    requires
        log.wf(),
    ensures
        ({
            let aid = local_activity_id(*settings, info.type_@, info.id@);
            match r {
                Some(data) => log_has(log.activities@, aid) && log_at(log.activities@, aid).local
                    && !log_at(log.activities@, aid).sensitive && data@ == log_at(
                    log.activities@,
                    aid,
                ).data@,
                None => !log_has(log.activities@, aid) || !log_at(log.activities@, aid).local
                    || log_at(log.activities@, aid).sensitive,
            }
        }),
{
    let mut aid = settings.protocol_and_hostname.clone();
    aid.append("/activities/");
    aid.append(info.type_.as_str());
    aid.append("/");
    aid.append(info.id.as_str());
    match log.read_from_apub_id(&aid) {
        None => None,
        Some(a) => {
            if a.local && !a.sensitive {
                Some(copy_bytes(&a.data))
            } else {
                None
            }
        },
    }
}

/// Run one inbound activity through the pipeline.
pub fn receive_activity(
    activity: &SharedInboxActivity,
    request: &Request,
    settings: &Settings,
    remote: &Vec<FetchedActor>,
    dir: &mut ActorDirectory,
    follows: &mut FollowStore,
    log: &mut ActivityLog,
) -> (r: Result<ReceiveOutcome, InboundError>)
    requires
        old(dir).wf(),
        old(follows).wf(),
        old(log).wf(),
        fetched_wf(remote@),
    ensures
        final(dir).wf(),
        final(follows).wf(),
        final(log).wf(),
        dir_extends(old(dir).actors@, final(dir).actors@),
        r is Ok <==> pipeline_error(
            *activity,
            *request,
            *settings,
            old(dir).actors@,
            remote@,
            old(follows).relationships@,
            old(log).activities@,
        ) is None,
        r matches Err(e) ==> Some(e) == pipeline_error(
            *activity,
            *request,
            *settings,
            old(dir).actors@,
            remote@,
            old(follows).relationships@,
            old(log).activities@,
        ),
        (r matches Ok(ReceiveOutcome::AlreadyKnown)) <==> pipeline_duplicate(
            *activity,
            *request,
            *settings,
            old(dir).actors@,
            remote@,
            old(log).activities@,
        ),
        // rejections and the idempotent no-op leave every store untouched
        !(r matches Ok(ReceiveOutcome::Applied(_))) ==> final(log).activities@ == old(
            log,
        ).activities@ && final(follows).relationships@ == old(follows).relationships@,
        // a processed activity is recorded exactly once and then received
        r matches Ok(ReceiveOutcome::Applied(resp)) ==> {
            let cf = activity.spec_common();
            &&& !log_has(old(log).activities@, cf.id@)
            &&& log_recorded_post(
                old(log).activities@,
                final(log).activities@,
                cf.id@,
                request.body@,
                false,
                true,
            )
            &&& log_has(final(log).activities@, cf.id@)
            &&& match *activity {
                SharedInboxActivity::Follow(f) => resp matches Some(pair)
                    && follow_requested_post(
                    old(follows).relationships@,
                    final(follows).relationships@,
                    f.common.actor@,
                    f.to@,
                ) && pair.0.to@ == f.common.actor@ && pair.0.object == f && pair.0.common.actor@
                    == f.to@ && pair.0.common.id@ == accept_id_of(f.to@, f.common.id@) && pair.1@
                    == resolved_inbox(old(dir).actors@, remote@, f.common.actor@),
                SharedInboxActivity::Accept(x) => resp is None && follow_accepted_post(
                    old(follows).relationships@,
                    final(follows).relationships@,
                    x.to@,
                    x.common.actor@,
                ),
                SharedInboxActivity::Reject(x) => resp is None && follow_removed_post(
                    old(follows).relationships@,
                    final(follows).relationships@,
                    x.to@,
                    x.common.actor@,
                ),
            }
        },
{
    let cf = activity.common();
    let mut counter: u32 = 0;
    let limit = settings.fetch_limit;
    let ghost dir0 = dir.actors@;

    // resolve the claimed actor, within the fetch budget
    let actor = match dir.resolve(&cf.actor, remote, &mut counter, limit) {
        Ok(a) => a,
        Err(e) => {
            return Err(e);
        },
    };

    // verify the request signature against the resolved key
    match verify_signature(request, &actor.public_key) {
        Ok(()) => {},
        Err(e) => {
            return Err(InboundError::Signature(e));
        },
    }

    // an already-known identifier is a successful idempotent no-op
    if log.is_activity_already_known(&cf.id) {
        return Ok(ReceiveOutcome::AlreadyKnown);
    }

    // the claimed actor's identifier must be a valid remote identifier
    if !has_domain(&cf.actor) {
        return Err(InboundError::InvalidUrl);
    }

    // anti-loopback: the activity must not declare this node's own domain
    if !has_domain(&cf.id) {
        return Err(InboundError::InvalidUrl);
    }
    if declares_domain(&cf.id, &settings.hostname) {
        return Err(InboundError::LocalOrigin);
    }

    let ghost c1 = counter as int;
    proof {
        assert(c1 == resolve_next_counter(dir0, 0, activity.spec_common().actor@));
    }

    match activity {
        SharedInboxActivity::Follow(f) => {
            let ghost dir1 = dir.actors@;
            let vr = f.verify(dir, remote, &mut counter, limit);
            proof {
                lemma_follow_plain_to2(*f, dir1, remote@, c1, limit as int, f.common.actor@);
                lemma_follow2_stable(*f, dir0, dir1, remote@, c1, limit as int, f.common.actor@);
            }
            match vr {
                Ok(()) => {},
                Err(e) => {
                    return Err(e);
                },
            }
            let _ = log.record_if_new(&cf.id, &request.body, false, true);
            let (accept, inbox) = f.receive(dir, follows);
            Ok(ReceiveOutcome::Applied(Some((accept, inbox))))
        },
        SharedInboxActivity::Accept(x) => {
            let ghost dir1 = dir.actors@;
            let vr = x.verify(dir, remote, &mut counter, limit, follows);
            proof {
                lemma_follow2_stable(
                    x.object,
                    dir0,
                    dir1,
                    remote@,
                    c1,
                    limit as int,
                    x.common.actor@,
                );
                assert(resolve_would_kind(dir1, remote@, x.common.actor@) == resolve_would_kind(
                    dir0,
                    remote@,
                    x.common.actor@,
                ));
                assert(handshake_verify_error(
                    x.common,
                    x.to@,
                    x.object,
                    dir1,
                    remote@,
                    c1,
                    limit as int,
                ) == handshake_verify_error(
                    x.common,
                    x.to@,
                    x.object,
                    dir0,
                    remote@,
                    c1,
                    limit as int,
                ));
            }
            match vr {
                Ok(()) => {},
                Err(e) => {
                    return Err(e);
                },
            }
            let _ = log.record_if_new(&cf.id, &request.body, false, true);
            match x.receive(follows) {
                Ok(()) => Ok(ReceiveOutcome::Applied(None)),
                Err(_) => vstd::pervasive::unreached(),
            }
        },
        SharedInboxActivity::Reject(x) => {
            let ghost dir1 = dir.actors@;
            let vr = x.verify(dir, remote, &mut counter, limit);
            proof {
                lemma_follow2_stable(
                    x.object,
                    dir0,
                    dir1,
                    remote@,
                    c1,
                    limit as int,
                    x.common.actor@,
                );
                assert(resolve_would_kind(dir1, remote@, x.common.actor@) == resolve_would_kind(
                    dir0,
                    remote@,
                    x.common.actor@,
                ));
                assert(handshake_verify_error(
                    x.common,
                    x.to@,
                    x.object,
                    dir1,
                    remote@,
                    c1,
                    limit as int,
                ) == handshake_verify_error(
                    x.common,
                    x.to@,
                    x.object,
                    dir0,
                    remote@,
                    c1,
                    limit as int,
                ));
            }
            match vr {
                Ok(()) => {},
                Err(e) => {
                    return Err(e);
                },
            }
            let _ = log.record_if_new(&cf.id, &request.body, false, true);
            x.receive(follows);
            Ok(ReceiveOutcome::Applied(None))
        },
    }
}

} // verus!
