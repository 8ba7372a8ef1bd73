use apub_engine::activities::{
    AcceptFollowCommunity, ActivityCommonFields, FollowCommunity, SharedInboxActivity,
};
use apub_engine::activity_log::ActivityLog;
use apub_engine::actors::{Actor, ActorDirectory, ActorKind, FetchedActor};
use apub_engine::errors::{InboundError, SignatureError};
use apub_engine::follows::{FollowState, FollowStore};
use apub_engine::inbox::{get_activity, receive_activity, ActivityQuery, ReceiveOutcome};
use apub_engine::outbound::build_follow;
use apub_engine::settings::Settings;
use apub_engine::sign::{sign_bytes, Request};

const LOCAL: &str = "https://local.example";
const BOB: &str = "https://remote.example/u/bob";
const BOB_INBOX: &str = "https://remote.example/u/bob/inbox";
const COMMUNITY: &str = "https://remote.example/c/rust";
const COMMUNITY_INBOX: &str = "https://remote.example/c/rust/inbox";
const ALICE: &str = "https://local.example/u/alice";

fn settings() -> Settings {
    Settings {
        hostname: String::from("local.example"),
        protocol_and_hostname: String::from(LOCAL),
        fetch_limit: 5,
        slur_list: Vec::new(),
    }
}

fn bob_key() -> Vec<u8> {
    vec![7, 7, 7]
}

fn community_key() -> Vec<u8> {
    vec![9, 2, 9]
}

fn remote_world() -> Vec<FetchedActor> {
    vec![
        FetchedActor {
            apub_id: String::from(BOB),
            kind: ActorKind::Person,
            public_key: bob_key(),
            inbox: String::from(BOB_INBOX),
        },
        FetchedActor {
            apub_id: String::from(COMMUNITY),
            kind: ActorKind::Community,
            public_key: community_key(),
            inbox: String::from(COMMUNITY_INBOX),
        },
    ]
}

fn local_alice() -> Actor {
    Actor {
        apub_id: String::from(ALICE),
        kind: ActorKind::Person,
        public_key: vec![1, 2, 3],
        inbox: String::from("https://local.example/u/alice/inbox"),
        local: true,
    }
}

fn follow_from_bob(id: &str) -> SharedInboxActivity {
    SharedInboxActivity::Follow(FollowCommunity {
        to: String::from("https://local.example/c/town"),
        object: String::from("https://local.example/c/town"),
        common: ActivityCommonFields { id: String::from(id), actor: String::from(BOB) },
    })
}

fn signed_request(key: &Vec<u8>, body: &[u8]) -> Request {
    let body = body.to_vec();
    let sig = sign_bytes(key, &body);
    Request { body, signature: Some(sig) }
}

fn accept_from_community(id: &str, follow: FollowCommunity) -> SharedInboxActivity {
    SharedInboxActivity::Accept(AcceptFollowCommunity {
        to: follow.common.actor.clone(),
        object: follow,
        common: ActivityCommonFields {
            id: String::from(id),
            actor: String::from(COMMUNITY),
        },
    })
}

#[test]
fn inbound_follow_is_applied_once_and_answered_with_accept() {
    let settings = settings();
    let remote = remote_world();
    let mut dir = ActorDirectory::new();
    let mut follows = FollowStore::new();
    let mut log = ActivityLog::new();
    let activity = follow_from_bob("https://remote.example/activities/follow/1");
    let request = signed_request(&bob_key(), b"follow-document");

    let r = receive_activity(&activity, &request, &settings, &remote, &mut dir, &mut follows, &mut log);
    match r {
        Ok(ReceiveOutcome::Applied(Some((accept, inbox)))) => {
            assert_eq!(accept.to, String::from(BOB));
            assert_eq!(accept.common.actor, String::from("https://local.example/c/town"));
            assert_eq!(accept.object.common.actor, String::from(BOB));
            assert_eq!(
                accept.object.common.id,
                String::from("https://remote.example/activities/follow/1")
            );
            assert_eq!(inbox, String::from(BOB_INBOX));
        },
        other => panic!("expected an applied follow with an accept, got {:?}", outcome_tag(&other)),
    }
    assert_eq!(
        follows.state_of(&String::from(BOB), &String::from("https://local.example/c/town")),
        Some(FollowState::Requested)
    );
    assert!(log.is_activity_already_known(&String::from(
        "https://remote.example/activities/follow/1"
    )));

    // the identical resend is a successful idempotent no-op
    let again = receive_activity(
        &activity, &request, &settings, &remote, &mut dir, &mut follows, &mut log,
    );
    assert!(matches!(again, Ok(ReceiveOutcome::AlreadyKnown)));
    assert_eq!(follows.relationships.len(), 1);
}

fn outcome_tag(r: &Result<ReceiveOutcome, InboundError>) -> String {
    match r {
        Ok(ReceiveOutcome::AlreadyKnown) => String::from("already-known"),
        Ok(ReceiveOutcome::Applied(_)) => String::from("applied"),
        Err(e) => format!("{:?}", e),
    }
}

#[test]
fn tampered_body_is_rejected_with_signature_error() {
    let settings = settings();
    let remote = remote_world();
    let mut dir = ActorDirectory::new();
    let mut follows = FollowStore::new();
    let mut log = ActivityLog::new();
    let activity = follow_from_bob("https://remote.example/activities/follow/2");
    let mut request = signed_request(&bob_key(), b"follow-document");
    request.body[0] ^= 0x40;

    let r = receive_activity(&activity, &request, &settings, &remote, &mut dir, &mut follows, &mut log);
    assert_eq!(r.unwrap_err(), InboundError::Signature(SignatureError::Mismatch));
    assert_eq!(follows.relationships.len(), 0);
    assert_eq!(log.activities.len(), 0);
}

#[test]
fn local_origin_activity_is_rejected_regardless_of_content() {
    let settings = settings();
    let remote = remote_world();
    let mut dir = ActorDirectory::new();
    let mut follows = FollowStore::new();
    let mut log = ActivityLog::new();
    // a well-signed activity claiming an identifier under this node's own domain
    let activity = follow_from_bob("https://local.example/activities/follow/3");
    let request = signed_request(&bob_key(), b"loopback");

    let r = receive_activity(&activity, &request, &settings, &remote, &mut dir, &mut follows, &mut log);
    assert_eq!(r.unwrap_err(), InboundError::LocalOrigin);
    assert_eq!(follows.relationships.len(), 0);
    assert_eq!(log.activities.len(), 0);
}

#[test]
fn follow_accept_handshake_reaches_accepted_and_stays_there() {
    let settings = settings();
    let remote = remote_world();
    let mut dir = ActorDirectory::new();
    dir.upsert(local_alice());
    let mut follows = FollowStore::new();
    let mut log = ActivityLog::new();

    // alice asks to follow the remote community: relationship becomes Requested
    let follow = build_follow(&String::from(ALICE), &String::from(COMMUNITY), &mut follows);
    assert_eq!(
        follows.state_of(&String::from(ALICE), &String::from(COMMUNITY)),
        Some(FollowState::Requested)
    );

    // the community's Accept arrives, echoing the follow
    let accept = accept_from_community("https://remote.example/activities/accept/1", follow);
    let request = signed_request(&community_key(), b"accept-document");
    let r = receive_activity(&accept, &request, &settings, &remote, &mut dir, &mut follows, &mut log);
    assert!(matches!(r, Ok(ReceiveOutcome::Applied(None))));
    assert_eq!(
        follows.state_of(&String::from(ALICE), &String::from(COMMUNITY)),
        Some(FollowState::Accepted)
    );

    // a duplicate Accept under a fresh identifier is a no-op on the state
    let follow2 = build_follow(&String::from(ALICE), &String::from(COMMUNITY), &mut follows);
    assert_eq!(
        follows.state_of(&String::from(ALICE), &String::from(COMMUNITY)),
        Some(FollowState::Accepted)
    );
    let accept2 = accept_from_community("https://remote.example/activities/accept/2", follow2);
    let request2 = signed_request(&community_key(), b"accept-document-again");
    let r2 = receive_activity(
        &accept2, &request2, &settings, &remote, &mut dir, &mut follows, &mut log,
    );
    assert!(matches!(r2, Ok(ReceiveOutcome::Applied(None))));
    assert_eq!(
        follows.state_of(&String::from(ALICE), &String::from(COMMUNITY)),
        Some(FollowState::Accepted)
    );
    assert_eq!(follows.relationships.len(), 1);
}

#[test]
fn unsolicited_accept_is_rejected() {
    let settings = settings();
    let remote = remote_world();
    let mut dir = ActorDirectory::new();
    dir.upsert(local_alice());
    let mut follows = FollowStore::new();
    let mut log = ActivityLog::new();

    let follow = FollowCommunity {
        to: String::from(COMMUNITY),
        object: String::from(COMMUNITY),
        common: ActivityCommonFields {
            id: String::from("https://local.example/u/alice#follows/never-sent"),
            actor: String::from(ALICE),
        },
    };
    let accept = accept_from_community("https://remote.example/activities/accept/7", follow);
    let request = signed_request(&community_key(), b"unsolicited");
    let r = receive_activity(&accept, &request, &settings, &remote, &mut dir, &mut follows, &mut log);
    assert_eq!(r.unwrap_err(), InboundError::UnsolicitedAccept);
    assert_eq!(log.activities.len(), 0);
}

#[test]
fn accept_with_mismatched_urls_is_rejected_structurally() {
    let settings = settings();
    let remote = remote_world();
    let mut dir = ActorDirectory::new();
    dir.upsert(local_alice());
    let mut follows = FollowStore::new();
    let mut log = ActivityLog::new();

    let follow = build_follow(&String::from(ALICE), &String::from(COMMUNITY), &mut follows);
    let mut accept = match accept_from_community("https://remote.example/activities/accept/3", follow)
    {
        SharedInboxActivity::Accept(a) => a,
        _ => unreachable!(),
    };
    // the accept no longer addresses the person who asked
    accept.to = String::from("https://local.example/u/mallory");
    let activity = SharedInboxActivity::Accept(accept);
    let request = signed_request(&community_key(), b"mismatched");
    let r = receive_activity(
        &activity, &request, &settings, &remote, &mut dir, &mut follows, &mut log,
    );
    assert_eq!(r.unwrap_err(), InboundError::UrlMismatch);
    assert_eq!(
        follows.state_of(&String::from(ALICE), &String::from(COMMUNITY)),
        Some(FollowState::Requested)
    );
}

#[test]
fn fetch_budget_zero_rejects_any_unresolved_actor() {
    let mut settings = settings();
    settings.fetch_limit = 0;
    let remote = remote_world();
    let mut dir = ActorDirectory::new();
    let mut follows = FollowStore::new();
    let mut log = ActivityLog::new();
    let activity = follow_from_bob("https://remote.example/activities/follow/4");
    let request = signed_request(&bob_key(), b"budget");

    let r = receive_activity(&activity, &request, &settings, &remote, &mut dir, &mut follows, &mut log);
    assert_eq!(r.unwrap_err(), InboundError::FetchBudgetExceeded);
}

#[test]
fn fetch_budget_bounds_the_resolution_chain() {
    let mut settings = settings();
    settings.fetch_limit = 1;
    let remote = remote_world();
    let mut dir = ActorDirectory::new();
    // alice is not cached: accepting needs the community and then alice, two fetches
    let mut follows = FollowStore::new();
    let mut log = ActivityLog::new();
    let follow = FollowCommunity {
        to: String::from(COMMUNITY),
        object: String::from(COMMUNITY),
        common: ActivityCommonFields {
            id: String::from("https://remote.example/u/zed#follows/rust"),
            actor: String::from("https://remote.example/u/zed"),
        },
    };
    follows.follow_requested(&String::from("https://remote.example/u/zed"), &String::from(COMMUNITY));
    let accept = accept_from_community("https://remote.example/activities/accept/5", follow);
    let request = signed_request(&community_key(), b"deep-chain");
    let r = receive_activity(&accept, &request, &settings, &remote, &mut dir, &mut follows, &mut log);
    assert_eq!(r.unwrap_err(), InboundError::FetchBudgetExceeded);
}

#[test]
fn unknown_actor_is_a_fetch_error() {
    let settings = settings();
    let remote = Vec::new();
    let mut dir = ActorDirectory::new();
    let mut follows = FollowStore::new();
    let mut log = ActivityLog::new();
    let activity = follow_from_bob("https://remote.example/activities/follow/6");
    let request = signed_request(&bob_key(), b"nobody-home");
    let r = receive_activity(&activity, &request, &settings, &remote, &mut dir, &mut follows, &mut log);
    assert_eq!(r.unwrap_err(), InboundError::Fetch);
}

#[test]
fn stored_local_activity_is_served_and_sensitive_one_is_not() {
    let settings = settings();
    let mut log = ActivityLog::new();
    let public_id = String::from("https://local.example/activities/accept/1");
    let sensitive_id = String::from("https://local.example/activities/accept/2");
    assert!(log.record_if_new(&public_id, &b"public-doc".to_vec(), true, false));
    assert!(log.record_if_new(&sensitive_id, &b"secret-doc".to_vec(), true, true));
    // recording the same identifier again is refused
    assert!(!log.record_if_new(&public_id, &b"other".to_vec(), true, false));

    let q1 = ActivityQuery { type_: String::from("accept"), id: String::from("1") };
    assert_eq!(get_activity(&q1, &settings, &log), Some(b"public-doc".to_vec()));
    let q2 = ActivityQuery { type_: String::from("accept"), id: String::from("2") };
    assert_eq!(get_activity(&q2, &settings, &log), None);
    let q3 = ActivityQuery { type_: String::from("accept"), id: String::from("3") };
    assert_eq!(get_activity(&q3, &settings, &log), None);
}

#[test]
fn reject_removes_the_requested_relationship() {
    let settings = settings();
    let remote = remote_world();
    let mut dir = ActorDirectory::new();
    dir.upsert(local_alice());
    let mut follows = FollowStore::new();
    let mut log = ActivityLog::new();

    let follow = build_follow(&String::from(ALICE), &String::from(COMMUNITY), &mut follows);
    let reject = SharedInboxActivity::Reject(apub_engine::activities::RejectFollowCommunity {
        to: follow.common.actor.clone(),
        object: follow,
        common: ActivityCommonFields {
            id: String::from("https://remote.example/activities/reject/1"),
            actor: String::from(COMMUNITY),
        },
    });
    let request = signed_request(&community_key(), b"reject-document");
    let r = receive_activity(&reject, &request, &settings, &remote, &mut dir, &mut follows, &mut log);
    assert!(matches!(r, Ok(ReceiveOutcome::Applied(None))));
    assert_eq!(follows.state_of(&String::from(ALICE), &String::from(COMMUNITY)), None);
    assert_eq!(follows.relationships.len(), 0);
}

#[test]
fn follow_claimed_by_a_community_has_the_wrong_actor_kind() {
    let settings = settings();
    let remote = remote_world();
    let mut dir = ActorDirectory::new();
    let mut follows = FollowStore::new();
    let mut log = ActivityLog::new();
    // a follow whose claimed actor resolves to a community, not a person
    let activity = SharedInboxActivity::Follow(FollowCommunity {
        to: String::from("https://local.example/c/town"),
        object: String::from("https://local.example/c/town"),
        common: ActivityCommonFields {
            id: String::from("https://remote.example/activities/follow/9"),
            actor: String::from(COMMUNITY),
        },
    });
    let request = signed_request(&community_key(), b"not-a-person");
    let r = receive_activity(&activity, &request, &settings, &remote, &mut dir, &mut follows, &mut log);
    assert_eq!(r.unwrap_err(), InboundError::WrongActorKind);
}

#[test]
fn actor_document_without_key_material_is_invalid() {
    let settings = settings();
    let remote = vec![FetchedActor {
        apub_id: String::from(BOB),
        kind: ActorKind::Person,
        public_key: Vec::new(),
        inbox: String::from(BOB_INBOX),
    }];
    let mut dir = ActorDirectory::new();
    let mut follows = FollowStore::new();
    let mut log = ActivityLog::new();
    let activity = follow_from_bob("https://remote.example/activities/follow/10");
    let request = signed_request(&bob_key(), b"keyless");
    let r = receive_activity(&activity, &request, &settings, &remote, &mut dir, &mut follows, &mut log);
    assert_eq!(r.unwrap_err(), InboundError::InvalidActor);
}

#[test]
fn unparseable_identifier_is_rejected() {
    let settings = settings();
    let key = vec![5, 5];
    let remote = vec![FetchedActor {
        apub_id: String::from("not a url at all"),
        kind: ActorKind::Person,
        public_key: key.clone(),
        inbox: String::from(BOB_INBOX),
    }];
    let mut dir = ActorDirectory::new();
    let mut follows = FollowStore::new();
    let mut log = ActivityLog::new();
    let activity = SharedInboxActivity::Follow(FollowCommunity {
        to: String::from("https://local.example/c/town"),
        object: String::from("https://local.example/c/town"),
        common: ActivityCommonFields {
            id: String::from("https://remote.example/activities/follow/11"),
            actor: String::from("not a url at all"),
        },
    });
    let request = signed_request(&key, b"odd-actor");
    let r = receive_activity(&activity, &request, &settings, &remote, &mut dir, &mut follows, &mut log);
    assert_eq!(r.unwrap_err(), InboundError::InvalidUrl);
}
