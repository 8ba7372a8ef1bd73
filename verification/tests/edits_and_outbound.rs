use apub_engine::actors::{Actor, ActorDirectory, ActorKind};
use apub_engine::edits::{
    edit_post, edit_private_message, CommunityPersonBan, Post, PrivateMessage,
};
use apub_engine::errors::ApiError;
use apub_engine::follows::{FollowState, FollowStore};
use apub_engine::outbound::CreateOrUpdateType;
use apub_engine::settings::Settings;

const ALICE: &str = "https://local.example/u/alice";
const CAROL: &str = "https://local.example/u/carol";
const COMMUNITY: &str = "https://local.example/c/town";
const BOB: &str = "https://remote.example/u/bob";
const BOB_INBOX: &str = "https://remote.example/u/bob/inbox";
const POST: &str = "https://local.example/post/1";
const PM: &str = "https://local.example/private_message/1";

fn settings() -> Settings {
    Settings {
        hostname: String::from("local.example"),
        protocol_and_hostname: String::from("https://local.example"),
        fetch_limit: 5,
        slur_list: vec![String::from("darn")],
    }
}

fn posts() -> Vec<Post> {
    vec![Post {
        ap_id: String::from(POST),
        creator: String::from(ALICE),
        community: String::from(COMMUNITY),
        name: String::from("original title"),
        body: Some(String::from("original body")),
        deleted: false,
        removed: false,
    }]
}

fn directory_with_bob() -> ActorDirectory {
    let mut dir = ActorDirectory::new();
    dir.upsert(Actor {
        apub_id: String::from(BOB),
        kind: ActorKind::Person,
        public_key: vec![7, 7, 7],
        inbox: String::from(BOB_INBOX),
        local: false,
    });
    dir
}

fn follows_with_bob_accepted() -> FollowStore {
    let mut follows = FollowStore::new();
    follows.follow_requested(&String::from(BOB), &String::from(COMMUNITY));
    assert!(follows.follow_accepted(&String::from(BOB), &String::from(COMMUNITY)));
    follows
}

const DANA: &str = "https://far.example/u/dana";
const DANA_INBOX: &str = "https://far.example/u/dana/inbox";

#[test]
fn creator_edit_builds_update_for_every_follower_inbox() {
    let mut posts = posts();
    let mut dir = directory_with_bob();
    dir.upsert(Actor {
        apub_id: String::from(DANA),
        kind: ActorKind::Person,
        public_key: vec![4, 4],
        inbox: String::from(DANA_INBOX),
        local: false,
    });
    let mut follows = follows_with_bob_accepted();
    follows.follow_requested(&String::from(DANA), &String::from(COMMUNITY));
    assert!(follows.follow_accepted(&String::from(DANA), &String::from(COMMUNITY)));
    let r = edit_post(
        &mut posts,
        &String::from(ALICE),
        &String::from(POST),
        &Some(String::from("fresh title")),
        &Some(String::from("fresh body")),
        &settings(),
        &Vec::new(),
        &follows,
        &dir,
    );
    let env = r.unwrap();
    assert_eq!(env.activity.kind, CreateOrUpdateType::Update);
    assert_eq!(env.activity.actor, String::from(ALICE));
    assert_eq!(env.activity.object, String::from(POST));
    assert_eq!(env.activity.name, Some(String::from("fresh title")));
    assert_eq!(env.activity.content, Some(String::from("fresh body")));
    assert_eq!(env.targets, vec![String::from(BOB_INBOX), String::from(DANA_INBOX)]);
    assert_eq!(posts[0].name, String::from("fresh title"));
    assert_eq!(posts[0].body, Some(String::from("fresh body")));
}

#[test]
fn pending_follower_gets_no_delivery() {
    let mut posts = posts();
    let dir = directory_with_bob();
    let mut follows = FollowStore::new();
    follows.follow_requested(&String::from(BOB), &String::from(COMMUNITY));
    assert_eq!(
        follows.state_of(&String::from(BOB), &String::from(COMMUNITY)),
        Some(FollowState::Requested)
    );
    let r = edit_post(
        &mut posts,
        &String::from(ALICE),
        &String::from(POST),
        &None,
        &Some(String::from("quiet change")),
        &settings(),
        &Vec::new(),
        &follows,
        &dir,
    );
    let env = r.unwrap();
    assert!(env.targets.is_empty());
    // a missing new title keeps the old one
    assert_eq!(env.activity.name, Some(String::from("original title")));
}

#[test]
fn non_creator_edit_is_rejected_before_any_activity_is_built() {
    let mut posts = posts();
    let dir = directory_with_bob();
    let follows = follows_with_bob_accepted();
    let r = edit_post(
        &mut posts,
        &String::from(CAROL),
        &String::from(POST),
        &Some(String::from("hostile takeover")),
        &None,
        &settings(),
        &Vec::new(),
        &follows,
        &dir,
    );
    assert_eq!(r.unwrap_err(), ApiError::NoPostEditAllowed);
    assert_eq!(posts[0].name, String::from("original title"));
    assert_eq!(posts[0].body, Some(String::from("original body")));
}

#[test]
fn banned_creator_cannot_edit() {
    let mut posts = posts();
    let dir = directory_with_bob();
    let follows = follows_with_bob_accepted();
    let bans = vec![CommunityPersonBan {
        person: String::from(ALICE),
        community: String::from(COMMUNITY),
    }];
    let r = edit_post(
        &mut posts,
        &String::from(ALICE),
        &String::from(POST),
        &None,
        &None,
        &settings(),
        &bans,
        &follows,
        &dir,
    );
    assert_eq!(r.unwrap_err(), ApiError::CommunityBan);
}

#[test]
fn post_edit_text_rules_are_enforced() {
    let dir = directory_with_bob();
    let follows = follows_with_bob_accepted();
    let mut store = posts();

    let slurred = edit_post(
        &mut store,
        &String::from(ALICE),
        &String::from(POST),
        &Some(String::from("what the darn")),
        &None,
        &settings(),
        &Vec::new(),
        &follows,
        &dir,
    );
    assert_eq!(slurred.unwrap_err(), ApiError::Slurs);

    let flimsy = edit_post(
        &mut store,
        &String::from(ALICE),
        &String::from(POST),
        &Some(String::from("a b c")),
        &None,
        &settings(),
        &Vec::new(),
        &follows,
        &dir,
    );
    assert_eq!(flimsy.unwrap_err(), ApiError::InvalidPostTitle);

    let endless = edit_post(
        &mut store,
        &String::from(ALICE),
        &String::from(POST),
        &Some("x".repeat(201)),
        &None,
        &settings(),
        &Vec::new(),
        &follows,
        &dir,
    );
    assert_eq!(endless.unwrap_err(), ApiError::PostTitleTooLong);

    let missing = edit_post(
        &mut store,
        &String::from(ALICE),
        &String::from("https://local.example/post/404"),
        &None,
        &None,
        &settings(),
        &Vec::new(),
        &follows,
        &dir,
    );
    assert_eq!(missing.unwrap_err(), ApiError::NotFound);
    assert_eq!(store[0].name, String::from("original title"));
}

fn messages() -> Vec<PrivateMessage> {
    vec![PrivateMessage {
        ap_id: String::from(PM),
        creator: String::from(ALICE),
        recipient: String::from(BOB),
        content: String::from("hello"),
        deleted: false,
    }]
}

#[test]
fn private_message_edit_masks_slurs_and_targets_the_recipient() {
    let mut pms = messages();
    let dir = directory_with_bob();
    let r = edit_private_message(
        &mut pms,
        &String::from(ALICE),
        &String::from(PM),
        &String::from("well darn you"),
        &settings(),
        &dir,
    );
    let env = r.unwrap();
    assert_eq!(pms[0].content, String::from("well **** you"));
    assert_eq!(env.activity.kind, CreateOrUpdateType::Update);
    assert_eq!(env.activity.content, Some(String::from("well **** you")));
    assert_eq!(env.activity.name, None);
    assert_eq!(env.targets, vec![String::from(BOB_INBOX)]);
}

#[test]
fn only_the_creator_may_edit_a_private_message() {
    let mut pms = messages();
    let dir = directory_with_bob();
    let r = edit_private_message(
        &mut pms,
        &String::from(CAROL),
        &String::from(PM),
        &String::from("hijacked"),
        &settings(),
        &dir,
    );
    assert_eq!(r.unwrap_err(), ApiError::NoPrivateMessageEditAllowed);
    assert_eq!(pms[0].content, String::from("hello"));

    let missing = edit_private_message(
        &mut pms,
        &String::from(ALICE),
        &String::from("https://local.example/private_message/404"),
        &String::from("to nobody"),
        &settings(),
        &dir,
    );
    assert_eq!(missing.unwrap_err(), ApiError::NotFound);
}
