//! Local content edits and the outbound activities they trigger.
//!
//! An edit is authorized and validated, applied to the local store — the
//! source of truth — and only then wrapped into an Update envelope for the
//! remote subscribers. A rejected edit builds no activity and changes nothing.

use vstd::prelude::*;

use vstd::pervasive::VecAdditionalExecFns;
use vstd::string::StringExecFns;

use crate::actors::{actor_at, has_actor, ActorDirectory};
use crate::errors::ApiError;
use crate::follows::FollowStore;
use crate::outbound::{
    follower_inboxes, spec_follower_inboxes, update_id_of, CreateOrUpdateType, OutboundActivity,
    OutboundEnvelope,
};
use crate::settings::Settings;
use crate::text::{
    censored, has_slur, is_valid_post_title, remove_slurs, spec_has_slur, valid_post_title,
};

verus! {

/// A post: local content owned by its creator, published in a community.
pub struct Post {
    pub ap_id: String,
    pub creator: String,
    pub community: String,
    pub name: String,
    pub body: Option<String>,
    pub deleted: bool,
    pub removed: bool,
}

/// A private message from its creator to one recipient.
pub struct PrivateMessage {
    pub ap_id: String,
    pub creator: String,
    pub recipient: String,
    pub content: String,
    pub deleted: bool,
}

/// A person barred from participating in a community.
pub struct CommunityPersonBan {
    pub person: String,
    pub community: String,
}

/// The view of an optional text field.
pub open spec fn opt_str_view(o: Option<String>) -> Option<Seq<char>> {
    match o {
        Some(s) => Some(s@),
        None => None,
    }
}

/// Some post in `s` carries the identifier `id`.
pub open spec fn has_post(s: Seq<Post>, id: Seq<char>) -> bool {
    exists|i: int| 0 <= i < s.len() && s[i].ap_id@ == id
}

/// The post in `s` carrying `id`.
pub open spec fn post_at(s: Seq<Post>, id: Seq<char>) -> Post {
    s[choose|i: int| 0 <= i < s.len() && s[i].ap_id@ == id]
}

/// The posts in `s` carry pairwise distinct identifiers.
pub open spec fn posts_wf(s: Seq<Post>) -> bool {
    forall|i: int, j: int| 0 <= i < j < s.len() ==> s[i].ap_id@ != s[j].ap_id@
}

/// Some message in `s` carries the identifier `id`.
pub open spec fn has_pm(s: Seq<PrivateMessage>, id: Seq<char>) -> bool {
    exists|i: int| 0 <= i < s.len() && s[i].ap_id@ == id
}

/// The message in `s` carrying `id`.
pub open spec fn pm_at(s: Seq<PrivateMessage>, id: Seq<char>) -> PrivateMessage {
    s[choose|i: int| 0 <= i < s.len() && s[i].ap_id@ == id]
}

/// The messages in `s` carry pairwise distinct identifiers.
pub open spec fn pms_wf(s: Seq<PrivateMessage>) -> bool {
    forall|i: int, j: int| 0 <= i < j < s.len() ==> s[i].ap_id@ != s[j].ap_id@
}

/// The person is banned from the community.
pub open spec fn is_banned(
    bans: Seq<CommunityPersonBan>,
    person: Seq<char>,
    community: Seq<char>,
) -> bool {
    exists|i: int| 0 <= i < bans.len() && bans[i].person@ == person && bans[i].community@ == community
}

/// With unique identifiers, `post_at` returns the post at any matching index.
pub proof fn lemma_post_at(s: Seq<Post>, id: Seq<char>, i: int)
    requires
        posts_wf(s),
        0 <= i < s.len(),
        s[i].ap_id@ == id,
    ensures
        has_post(s, id),
        post_at(s, id) == s[i],
{
    assert(has_post(s, id));
    let j = choose|j: int| 0 <= j < s.len() && s[j].ap_id@ == id;
    if j != i {
        if j < i {
            assert(s[j].ap_id@ != s[i].ap_id@);
        } else {
            assert(s[i].ap_id@ != s[j].ap_id@);
        }
    }
}

/// With unique identifiers, `pm_at` returns the message at any matching index.
pub proof fn lemma_pm_at(s: Seq<PrivateMessage>, id: Seq<char>, i: int)
    requires
        pms_wf(s),
        0 <= i < s.len(),
        s[i].ap_id@ == id,
    ensures
        has_pm(s, id),
        pm_at(s, id) == s[i],
{
    assert(has_pm(s, id));
    let j = choose|j: int| 0 <= j < s.len() && s[j].ap_id@ == id;
    if j != i {
        if j < i {
            assert(s[j].ap_id@ != s[i].ap_id@);
        } else {
            assert(s[i].ap_id@ != s[j].ap_id@);
        }
    }
}

fn post_index(posts: &Vec<Post>, ap_id: &String) -> (r: Option<usize>)
    ensures
        match r {
            Some(i) => i < posts@.len() && posts@[i as int].ap_id@ == ap_id@,
            None => !has_post(posts@, ap_id@),
        },
{
    let mut i: usize = 0;
    while i < posts.len()
        invariant
            i <= posts@.len(),
            forall|j: int| 0 <= j < i ==> posts@[j].ap_id@ != ap_id@,
        decreases posts@.len() - i,
    {
        if posts[i].ap_id == *ap_id {
            return Some(i);
        }
        i = i + 1;
    }
    None
}

fn pm_index(pms: &Vec<PrivateMessage>, ap_id: &String) -> (r: Option<usize>)
    ensures
        match r {
            Some(i) => i < pms@.len() && pms@[i as int].ap_id@ == ap_id@,
            None => !has_pm(pms@, ap_id@),
        },
{
    let mut i: usize = 0;
    while i < pms.len()
        invariant
            i <= pms@.len(),
            forall|j: int| 0 <= j < i ==> pms@[j].ap_id@ != ap_id@,
        decreases pms@.len() - i,
    {
        if pms[i].ap_id == *ap_id {
            return Some(i);
        }
        i = i + 1;
    }
    None
}

/// Whether the person is banned from the community.
pub fn check_community_ban(
    bans: &Vec<CommunityPersonBan>,
    person: &String,
    community: &String,
) -> (r: bool)
    ensures
        r == is_banned(bans@, person@, community@),
{
    let mut i: usize = 0;
    while i < bans.len()
        invariant
            i <= bans@.len(),
            forall|j: int|
                0 <= j < i ==> !(bans@[j].person@ == person@ && bans@[j].community@ == community@),
        decreases bans@.len() - i,
    {
        if bans[i].person == *person && bans[i].community == *community {
            return true;
        }
        i = i + 1;
    }
    false
}

/// Why an edit of a post is refused, checked in order: slurs in the new
/// texts, an invalid new title, a missing post, a community ban, an editor
/// who is not the creator, and a resulting title over 200 characters.
pub open spec fn edit_post_error(
    posts: Seq<Post>,
    editor: Seq<char>,
    id: Seq<char>,
    new_name: Option<String>,
    new_body: Option<String>,
    slurs: Seq<String>,
    bans: Seq<CommunityPersonBan>,
) -> Option<ApiError> {
    if new_name matches Some(n) && spec_has_slur(n@, slurs) {
        Some(ApiError::Slurs)
    } else if new_body matches Some(b) && spec_has_slur(b@, slurs) {
        Some(ApiError::Slurs)
    } else if new_name matches Some(n) && !valid_post_title(n@) {
        Some(ApiError::InvalidPostTitle)
    } else if !has_post(posts, id) {
        Some(ApiError::NotFound)
    } else if is_banned(bans, editor, post_at(posts, id).community@) {
        Some(ApiError::CommunityBan)
    } else if post_at(posts, id).creator@ != editor {
        Some(ApiError::NoPostEditAllowed)
    } else if (match new_name {
        Some(n) => n@,
        None => post_at(posts, id).name@,
    }).len() > 200 {
        Some(ApiError::PostTitleTooLong)
    } else {
        None
    }
}

/// How an accepted edit rewrites the post: the new title if one was given,
/// the new body as given (absent replaces absent), everything else kept.
pub open spec fn post_updated(
    p0: Post,
    p1: Post,
    new_name: Option<String>,
    new_body: Option<String>,
) -> bool {
    &&& p1.ap_id@ == p0.ap_id@
    &&& p1.creator@ == p0.creator@
    &&& p1.community@ == p0.community@
    &&& p1.name@ == (match new_name {
        Some(n) => n@,
        None => p0.name@,
    })
    &&& opt_str_view(p1.body) == opt_str_view(new_body)
    &&& p1.deleted == p0.deleted
    &&& p1.removed == p0.removed
}

/// Edit a post: only its creator may, the new texts must be clean and the new
/// title valid; the store is updated and the edit is wrapped into an Update
/// envelope addressed to every follower inbox of the post's community. A
/// refused edit builds no activity and changes nothing.
pub fn edit_post(
    posts: &mut Vec<Post>,
    editor: &String,
    post_ap_id: &String,
    new_name: &Option<String>,
    new_body: &Option<String>,
    settings: &Settings,
    bans: &Vec<CommunityPersonBan>,
    follows: &FollowStore,
    dir: &ActorDirectory,
) -> (r: Result<OutboundEnvelope, ApiError>)
    requires
        posts_wf(old(posts)@),
        dir.wf(),
    ensures
        posts_wf(final(posts)@),
        r is Ok <==> edit_post_error(
            old(posts)@,
            editor@,
            post_ap_id@,
            *new_name,
            *new_body,
            settings.slur_list@,
            bans@,
        ) is None,
        r matches Err(e) ==> Some(e) == edit_post_error(
            old(posts)@,
            editor@,
            post_ap_id@,
            *new_name,
            *new_body,
            settings.slur_list@,
            bans@,
        ) && final(posts)@ == old(posts)@,
        r matches Ok(env) ==> {
            let p0 = post_at(old(posts)@, post_ap_id@);
            &&& final(posts)@.len() == old(posts)@.len()
            &&& has_post(final(posts)@, post_ap_id@)
            &&& post_updated(p0, post_at(final(posts)@, post_ap_id@), *new_name, *new_body)
            &&& (forall|j: int|
                0 <= j < old(posts)@.len() && old(posts)@[j].ap_id@ != post_ap_id@
                    ==> final(posts)@[j] == old(posts)@[j])
            &&& env.activity.kind == CreateOrUpdateType::Update
            &&& env.activity.actor@ == editor@
            &&& env.activity.object@ == post_ap_id@
            &&& env.activity.id@ == update_id_of(post_ap_id@)
            &&& opt_str_view(env.activity.name) == Some(
                post_at(final(posts)@, post_ap_id@).name@,
            )
            &&& opt_str_view(env.activity.content) == opt_str_view(*new_body)
            &&& env.targets@.map_values(|s: String| s@) == spec_follower_inboxes(
                follows.relationships@,
                dir.actors@,
                p0.community@,
            )
        },
{
    match new_name {
        Some(n) => {
            if has_slur(n, &settings.slur_list) {
                return Err(ApiError::Slurs);
            }
        },
        None => {},
    }
    match new_body {
        Some(b) => {
            if has_slur(b, &settings.slur_list) {
                return Err(ApiError::Slurs);
            }
        },
        None => {},
    }
    match new_name {
        Some(n) => {
            if !is_valid_post_title(n) {
                return Err(ApiError::InvalidPostTitle);
            }
        },
        None => {},
    }
    let i = match post_index(posts, post_ap_id) {
        Some(i) => i,
        None => {
            return Err(ApiError::NotFound);
        },
    };
    proof {
        lemma_post_at(posts@, post_ap_id@, i as int);
    }
    if check_community_ban(bans, editor, &posts[i].community) {
        return Err(ApiError::CommunityBan);
    }
    if !(posts[i].creator == *editor) {
        return Err(ApiError::NoPostEditAllowed);
    }
    let updated_name = match new_name {
        Some(n) => n.clone(),
        None => posts[i].name.clone(),
    };
    if updated_name.as_str().unicode_len() > 200 {
        return Err(ApiError::PostTitleTooLong);
    }
    let updated_body = match new_body {
        Some(b) => Some(b.clone()),
        None => None,
    };
    let updated = Post {
        ap_id: posts[i].ap_id.clone(),
        creator: posts[i].creator.clone(),
        community: posts[i].community.clone(),
        name: updated_name.clone(),
        body: updated_body,
        deleted: posts[i].deleted,
        removed: posts[i].removed,
    };
    let community = posts[i].community.clone();
    posts.set(i, updated);
    proof {
        lemma_post_at(posts@, post_ap_id@, i as int);
    }
    let mut activity_id = post_ap_id.clone();
    activity_id.append("#update");
    let targets = follower_inboxes(follows, dir, &community);
    let envelope_body = match new_body {
        Some(b) => Some(b.clone()),
        None => None,
    };
    Ok(
        OutboundEnvelope {
            activity: OutboundActivity {
                id: activity_id,
                kind: CreateOrUpdateType::Update,
                actor: editor.clone(),
                object: post_ap_id.clone(),
                name: Some(updated_name),
                content: envelope_body,
            },
            targets,
        },
    )
}

/// Why an edit of a private message is refused: the message must exist and
/// only its creator may edit it.
pub open spec fn edit_pm_error(
    pms: Seq<PrivateMessage>,
    editor: Seq<char>,
    id: Seq<char>,
) -> Option<ApiError> {
    if !has_pm(pms, id) {
        Some(ApiError::NotFound)
    } else if pm_at(pms, id).creator@ != editor {
        Some(ApiError::NoPrivateMessageEditAllowed)
    } else {
        None
    }
}

/// Edit a private message: only its creator may; the new content is stored
/// with every slur occurrence masked, and the edit is wrapped into an Update
/// envelope addressed to the recipient's inbox when the directory knows the
/// recipient as a remote actor (a local recipient needs no federation).
pub fn edit_private_message(
    pms: &mut Vec<PrivateMessage>,
    editor: &String,
    pm_ap_id: &String,
    content: &String,
    settings: &Settings,
    dir: &ActorDirectory,
) -> (r: Result<OutboundEnvelope, ApiError>)
    requires
        pms_wf(old(pms)@),
        dir.wf(),
    ensures
        pms_wf(final(pms)@),
        r is Ok <==> edit_pm_error(old(pms)@, editor@, pm_ap_id@) is None,
        r matches Err(e) ==> Some(e) == edit_pm_error(old(pms)@, editor@, pm_ap_id@)
            && final(pms)@ == old(pms)@,
        r matches Ok(env) ==> {
            let m0 = pm_at(old(pms)@, pm_ap_id@);
            let m1 = pm_at(final(pms)@, pm_ap_id@);
            &&& final(pms)@.len() == old(pms)@.len()
            &&& has_pm(final(pms)@, pm_ap_id@)
            &&& m1.ap_id@ == m0.ap_id@ && m1.creator@ == m0.creator@ && m1.recipient@
                == m0.recipient@ && m1.deleted == m0.deleted
            &&& m1.content@ == censored(content@, settings.slur_list@)
            &&& (forall|j: int|
                0 <= j < old(pms)@.len() && old(pms)@[j].ap_id@ != pm_ap_id@ ==> final(pms)@[j]
                    == old(pms)@[j])
            &&& env.activity.kind == CreateOrUpdateType::Update
            &&& env.activity.actor@ == editor@
            &&& env.activity.object@ == pm_ap_id@
            &&& env.activity.id@ == update_id_of(pm_ap_id@)
            &&& env.activity.name is None
            &&& opt_str_view(env.activity.content) == Some(
                censored(content@, settings.slur_list@),
            )
            &&& env.targets@.map_values(|s: String| s@) == (if has_actor(
                dir.actors@,
                m0.recipient@,
            ) && !actor_at(dir.actors@, m0.recipient@).local {
                seq![actor_at(dir.actors@, m0.recipient@).inbox@]
            } else {
                Seq::<Seq<char>>::empty()
            })
        },
{
    let i = match pm_index(pms, pm_ap_id) {
        Some(i) => i,
        None => {
            return Err(ApiError::NotFound);
        },
    };
    proof {
        lemma_pm_at(pms@, pm_ap_id@, i as int);
    }
    if !(pms[i].creator == *editor) {
        return Err(ApiError::NoPrivateMessageEditAllowed);
    }
    let clean = remove_slurs(content, &settings.slur_list);
    let updated = PrivateMessage {
        ap_id: pms[i].ap_id.clone(),
        creator: pms[i].creator.clone(),
        recipient: pms[i].recipient.clone(),
        content: clean.clone(),
        deleted: pms[i].deleted,
    };
    let recipient = pms[i].recipient.clone();
    pms.set(i, updated);
    proof {
        lemma_pm_at(pms@, pm_ap_id@, i as int);
    }
    let mut activity_id = pm_ap_id.clone();
    activity_id.append("#update");
    let mut targets: Vec<String> = Vec::new();
    match dir.cached(&recipient) {
        Some(a) => {
            if !a.local {
                targets.push(a.inbox.clone());
            }
        },
        None => {},
    }
    proof {
        if has_actor(dir.actors@, recipient@) && !actor_at(dir.actors@, recipient@).local {
            assert(targets@.map_values(|s: String| s@) =~= seq![
                actor_at(dir.actors@, recipient@).inbox@,
            ]);
        } else {
            assert(targets@.map_values(|s: String| s@) =~= Seq::<Seq<char>>::empty());
        }
    }
    Ok(
        OutboundEnvelope {
            activity: OutboundActivity {
                id: activity_id,
                kind: CreateOrUpdateType::Update,
                actor: editor.clone(),
                object: pm_ap_id.clone(),
                name: None,
                content: Some(clean),
            },
            targets,
        },
    )
}

} // verus!
