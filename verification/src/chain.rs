//! Message chains and the resolution of their media before delivery.
//!
//! Resolving a chain talks to the server once per element. The library
//! decides, element by element, what has to be fetched or uploaded
//! ([`incoming_step`], [`outgoing_upload`]) and folds each answer back into
//! the chain ([`apply_reply`]); the caller performs the exchanges.

use vstd::prelude::*;
use vstd::utf8::encode_utf8;

use crate::config::FetchGroupMemberStrategy;
use crate::media::{clone_node, first_index, spec_first_index, IndexNode, MsgInfo};

verus! {

/// A member of a group, as far as message resolution reads it.
#[derive(Debug)]
pub struct GroupMember {
    pub uin: u32,
    pub uid: String,
}

/// A friend, as far as message resolution reads it.
#[derive(Debug)]
pub struct Friend {
    pub uin: u32,
    pub uid: String,
}

impl Clone for GroupMember {
    fn clone(&self) -> (res: Self)
        ensures
            res == *self,
    {
        GroupMember { uin: self.uin, uid: self.uid.clone() }
    }
}

impl Clone for Friend {
    fn clone(&self) -> (res: Self)
        ensures
            res == *self,
    {
        Friend { uin: self.uin, uid: self.uid.clone() }
    }
}

/// What a group message carries about its group.
#[derive(Debug)]
pub struct GroupElem {
    pub group_uin: u32,
    pub group_member_info: Option<GroupMember>,
}

/// What a friend message carries about the friend.
#[derive(Debug)]
pub struct FriendElem {
    pub friend_info: Option<Friend>,
}

/// Where a message chain was sent.
#[derive(Debug)]
pub enum MessageType {
    Group(GroupElem),
    Friend(FriendElem),
    Temp,
    /// Any other kind of conversation; its media are left alone.
    Other,
}

#[derive(Debug)]
pub struct ImageEntity {
    pub url: String,
    pub msg_info: Option<MsgInfo>,
}

#[derive(Debug)]
pub struct MultiMsgEntity {
    pub res_id: String,
    pub chains: Vec<MessageChain>,
}

#[derive(Debug)]
pub struct GroupFileUnique {
    pub file_id: Option<String>,
}

#[derive(Debug)]
pub struct C2cFileUnique {
    pub file_uuid: String,
    pub file_hash: String,
}

/// Where a shared file lives.
#[derive(Debug)]
pub enum FileUnique {
    Group(GroupFileUnique),
    C2C(C2cFileUnique),
}

#[derive(Debug)]
pub struct FileEntity {
    pub file_url: Option<String>,
    pub extra: Option<FileUnique>,
}

#[derive(Debug)]
pub struct RecordEntity {
    pub msg_info: Option<MsgInfo>,
    pub audio_uuid: Option<String>,
    pub audio_url: String,
}

#[derive(Debug)]
pub struct VideoEntity {
    pub file_name: String,
    pub node: Option<IndexNode>,
    pub video_url: String,
}

/// One element of a message chain.
#[derive(Debug)]
pub enum Entity {
    Image(ImageEntity),
    MultiMsg(MultiMsgEntity),
    File(FileEntity),
    Record(RecordEntity),
    Video(VideoEntity),
    /// Text and every other element that needs no resolution.
    Other,
}

/// A message: where it was sent, by whom, and its elements.
#[derive(Debug)]
pub struct MessageChain {
    pub typ: MessageType,
    pub friend_uin: u32,
    pub uid: String,
    pub entities: Vec<Entity>,
}

// ---------------------------------------------------------------- metadata

/// The first member of `s` with the given uin.
pub open spec fn find_member(s: Seq<GroupMember>, uin: u32) -> Option<GroupMember>
    decreases s.len(),
{
    if s.len() == 0 {
        None
    } else if s[0].uin == uin {
        Some(s[0])
    } else {
        find_member(s.drop_first(), uin)
    }
}

/// The first friend of `s` with the given uin.
pub open spec fn find_friend(s: Seq<Friend>, uin: u32) -> Option<Friend>
    decreases s.len(),
{
    if s.len() == 0 {
        None
    } else if s[0].uin == uin {
        Some(s[0])
    } else {
        find_friend(s.drop_first(), uin)
    }
}

fn first_member(members: &Vec<GroupMember>, uin: u32) -> (res: Option<GroupMember>)
    ensures
        res == find_member(members@, uin),
{
    let n = members.len();
    assert(members@.skip(0) =~= members@);
    for i in 0..n
        invariant
            n == members@.len(),
            find_member(members@, uin) == find_member(members@.skip(i as int), uin),
    {
        assert(members@.skip(i as int).drop_first() =~= members@.skip(i + 1));
        if members[i].uin == uin {
            return Some(members[i].clone());
        }
    }
    assert(members@.skip(n as int) =~= Seq::<GroupMember>::empty());
    None
}

fn first_friend(friends: &Vec<Friend>, uin: u32) -> (res: Option<Friend>)
    ensures
        res == find_friend(friends@, uin),
{
    let n = friends.len();
    assert(friends@.skip(0) =~= friends@);
    for i in 0..n
        invariant
            n == friends@.len(),
            find_friend(friends@, uin) == find_friend(friends@.skip(i as int), uin),
    {
        assert(friends@.skip(i as int).drop_first() =~= friends@.skip(i + 1));
        if friends[i].uin == uin {
            return Some(friends[i].clone());
        }
    }
    assert(friends@.skip(n as int) =~= Seq::<Friend>::empty());
    None
}

/// What must be fetched to attach sender details to a chain.
#[derive(Debug, PartialEq, Eq, Structural)]
pub enum MetadataFetch {
    /// The (possibly cached) members of a group.
    GroupMembers { group_uin: u32 },
    /// The (possibly cached) friend list, with the sender's uin as a hint.
    Friends { friend_uin: u32 },
}

/// The fetch that resolving a chain's metadata starts with: the group's
/// members for a group message when members are fetched in full, the friend
/// list for a friend message, nothing otherwise.
pub open spec fn spec_metadata_fetch(
    chain: MessageChain,
    strategy: FetchGroupMemberStrategy,
) -> Option<MetadataFetch> {
    match chain.typ {
        MessageType::Group(g) => if strategy == FetchGroupMemberStrategy::Full {
            Some(MetadataFetch::GroupMembers { group_uin: g.group_uin })
        } else {
            None
        },
        MessageType::Friend(_) => Some(MetadataFetch::Friends { friend_uin: chain.friend_uin }),
        _ => None,
    }
}

/// Decides what resolving the metadata of `chain` has to fetch.
pub fn metadata_fetch(chain: &MessageChain, strategy: FetchGroupMemberStrategy) -> (res: Option<
    MetadataFetch,
>)
    ensures
        res == spec_metadata_fetch(*chain, strategy),
{
    match &chain.typ {
        MessageType::Group(g) => {
            if strategy == FetchGroupMemberStrategy::Full {
                Some(MetadataFetch::GroupMembers { group_uin: g.group_uin })
            } else {
                None
            }
        },
        MessageType::Friend(_) => Some(MetadataFetch::Friends { friend_uin: chain.friend_uin }),
        _ => None,
    }
}

/// The members a fetch produced; a failed fetch counts as an empty list.
pub open spec fn fetched<T>(list: Option<Vec<T>>) -> Seq<T> {
    match list {
        Some(v) => v@,
        None => Seq::empty(),
    }
}

/// A group chain after its member details are attached: the member looked up
/// is the sender, or the bot itself (`self_uin`) when the sender uin is 0; the
/// chain's uid is filled from that member when it was empty.
pub open spec fn spec_with_members(
    chain: MessageChain,
    members: Seq<GroupMember>,
    self_uin: u32,
) -> MessageChain {
    match chain.typ {
        MessageType::Group(g) => {
            let lookup = if chain.friend_uin == 0 { self_uin } else { chain.friend_uin };
            let found = find_member(members, lookup);
            MessageChain {
                typ: MessageType::Group(GroupElem { group_uin: g.group_uin, group_member_info: found }),
                uid: if chain.uid@.len() == 0 && found is Some { found->Some_0.uid } else { chain.uid },
                ..chain
            }
        },
        _ => chain,
    }
}

/// A friend chain after the friend list was fetched: when the sender is among
/// the friends, the friend is attached and fills an empty uid; otherwise the
/// chain is unchanged.
pub open spec fn spec_with_friends(chain: MessageChain, friends: Seq<Friend>) -> MessageChain {
    match chain.typ {
        MessageType::Friend(_) => match find_friend(friends, chain.friend_uin) {
            Some(f) => MessageChain {
                typ: MessageType::Friend(FriendElem { friend_info: Some(f) }),
                uid: if chain.uid@.len() == 0 { f.uid } else { chain.uid },
                ..chain
            },
            None => chain,
        },
        _ => chain,
    }
}

/// Attaches the fetched group members (`None` when the fetch failed).
pub fn apply_group_members(
    chain: &mut MessageChain,
    members: Option<Vec<GroupMember>>,
    self_uin: u32,
)
    ensures
        *final(chain) == spec_with_members(*old(chain), fetched(members), self_uin),
{
    let list = match members {
        Some(v) => v,
        None => Vec::new(),
    };
    assert(list@ == fetched(members));
    let lookup = if chain.friend_uin == 0 { self_uin } else { chain.friend_uin };
    if let MessageType::Group(g) = &chain.typ {
        let found = first_member(&list, lookup);
        let group_uin = g.group_uin;
        if chain.uid.as_str().is_empty() {
            if let Some(m) = &found {
                chain.uid = m.uid.clone();
            }
        }
        chain.typ = MessageType::Group(GroupElem { group_uin, group_member_info: found });
    }
}

/// Attaches the sender from the fetched friend list (`None` when the fetch
/// failed).
pub fn apply_friends(chain: &mut MessageChain, friends: Option<Vec<Friend>>)
    ensures
        *final(chain) == spec_with_friends(*old(chain), fetched(friends)),
{
    let list = match friends {
        Some(v) => v,
        None => Vec::new(),
    };
    assert(list@ == fetched(friends));
    if let MessageType::Friend(_) = &chain.typ {
        if let Some(f) = first_friend(&list, chain.friend_uin) {
            if chain.uid.as_str().is_empty() {
                chain.uid = f.uid.clone();
            }
            chain.typ = MessageType::Friend(FriendElem { friend_info: Some(f) });
        }
    }
}

/// Attaching the same member list twice gives the chain it gives once.
pub proof fn law_members_idempotent(chain: MessageChain, members: Seq<GroupMember>, self_uin: u32)
    ensures
        spec_with_members(spec_with_members(chain, members, self_uin), members, self_uin)
            == spec_with_members(chain, members, self_uin),
{
}

/// Attaching the same friend list twice gives the chain it gives once.
pub proof fn law_friends_idempotent(chain: MessageChain, friends: Seq<Friend>)
    ensures
        spec_with_friends(spec_with_friends(chain, friends), friends) == spec_with_friends(
            chain,
            friends,
        ),
{
}

// ----------------------------------------------------------- incoming media

/// A download that resolving a received element needs.
#[derive(Debug)]
pub enum Fetch {
    /// The URL of a group image.
    GroupImage { group_uin: u32, node: IndexNode },
    /// The URL of a private-chat image.
    C2cImage { node: IndexNode },
    /// The chains of a forwarded multi-message, for the chain's uid.
    MultiMsg { uid: String, res_id: String },
    /// The URL of a group file.
    GroupFile { group_uin: u32, file_id: String },
    /// The URL of a private-chat file, for the chain's uid.
    C2cFile { file_uuid: String, file_hash: String, uid: String },
    GroupRecordByNode { group_uin: u32, node: Option<IndexNode> },
    C2cRecordByNode { node: Option<IndexNode> },
    GroupRecordByUuid { group_uin: u32, uuid: String },
    C2cRecordByUuid { uuid: String },
    /// A group video, fetched as the sender's video: the sender's uid is looked
    /// up from `friend_uin` in the group first.
    GroupVideo { friend_uin: u32, group_uin: u32, file_name: String, node: Option<IndexNode> },
    /// A group video fetched through the group video service.
    GroupVideoFallback { group_uin: u32, file_name: String, node: Option<IndexNode> },
    /// A private-chat video, for the chain's uid.
    C2cVideo { uid: String, file_name: String, node: Option<IndexNode> },
}

/// The answer to a [`Fetch`].
#[derive(Debug)]
pub enum Reply {
    /// A URL, or `None` when the download failed.
    Url(Option<String>),
    /// The chains of a multi-message, or `None` when there were none or the
    /// download failed.
    Chains(Option<Vec<MessageChain>>),
}

/// The bytes of `&rkey=`, whose presence marks an image URL as complete.
pub open spec fn rkey_marker() -> Seq<u8> {
    seq![38u8, 114u8, 107u8, 101u8, 121u8, 61u8]
}

/// The bytes of `&rkey=`.
const RKEY_MARKER: [u8; 6] = [38u8, 114u8, 107u8, 101u8, 121u8, 61u8];

/// Whether `pattern` occurs in `text`.
pub open spec fn occurs_in(pattern: Seq<u8>, text: Seq<u8>) -> bool {
    exists|k: int| 0 <= k && k + pattern.len() <= text.len() && #[trigger] text.subrange(k, k + pattern.len()) == pattern
}

fn occurs(pattern: &[u8], text: &[u8]) -> (res: bool)
    ensures
        res == occurs_in(pattern@, text@),
{
    let p = pattern.len();
    let t = text.len();
    if p > t {
        return false;
    }
    let mut k: usize = 0;
    while k <= t - p
        invariant
            p == pattern@.len(),
            t == text@.len(),
            p <= t,
            k <= t - p + 1,
            forall|j: int| 0 <= j < k ==> #[trigger] text@.subrange(j, j + p) != pattern@,
        decreases t - k,
    {
        let mut m: usize = 0;
        let mut same = true;
        while m < p
            invariant
                p == pattern@.len(),
                t == text@.len(),
                k + p <= t,
                m <= p,
                same == (forall|q: int| 0 <= q < m ==> text@[k + q] == pattern@[q]),
            decreases p - m,
        {
            if text[k + m] != pattern[m] {
                same = false;
            }
            m = m + 1;
        }
        if same {
            assert(text@.subrange(k as int, k + p) =~= pattern@);
            return true;
        }
        assert(text@.subrange(k as int, k + p) != pattern@) by {
            let q = choose|q: int| 0 <= q < p && text@[k + q] != pattern@[q];
            assert(text@.subrange(k as int, k + p)[q] == text@[k + q]);
        }
        k = k + 1;
    }
    assert forall|j: int| 0 <= j && j + p <= t implies #[trigger] text@.subrange(j, j + p) != pattern@ by {
        assert(j < k);
    }
    false
}

/// The download a received element needs, given the chain it belongs to.
pub open spec fn spec_incoming_fetch(chain: MessageChain, e: Entity) -> Option<Fetch> {
    match e {
        Entity::Image(img) => {
            if occurs_in(rkey_marker(), encode_utf8(img.url@)) {
                None
            } else {
                match spec_first_index(img.msg_info) {
                    None => None,
                    Some(node) => match chain.typ {
                        MessageType::Group(g) => Some(Fetch::GroupImage { group_uin: g.group_uin, node }),
                        MessageType::Friend(_) => Some(Fetch::C2cImage { node }),
                        MessageType::Temp => Some(Fetch::C2cImage { node }),
                        MessageType::Other => None,
                    },
                }
            }
        },
        Entity::MultiMsg(m) => {
            if m.chains@.len() == 0 {
                Some(Fetch::MultiMsg { uid: chain.uid, res_id: m.res_id })
            } else {
                None
            }
        },
        Entity::File(f) => match f.extra {
            Some(FileUnique::Group(g)) => match chain.typ {
                MessageType::Group(grp) => match g.file_id {
                    Some(id) => Some(Fetch::GroupFile { group_uin: grp.group_uin, file_id: id }),
                    None => None,
                },
                _ => None,
            },
            Some(FileUnique::C2C(c)) => Some(
                Fetch::C2cFile { file_uuid: c.file_uuid, file_hash: c.file_hash, uid: chain.uid },
            ),
            None => None,
        },
        Entity::Record(r) => {
            if r.msg_info is Some {
                let node = spec_first_index(r.msg_info);
                match chain.typ {
                    MessageType::Group(g) => Some(Fetch::GroupRecordByNode { group_uin: g.group_uin, node }),
                    MessageType::Friend(_) => Some(Fetch::C2cRecordByNode { node }),
                    MessageType::Temp => Some(Fetch::C2cRecordByNode { node }),
                    MessageType::Other => None,
                }
            } else {
                match r.audio_uuid {
                    Some(uuid) => match chain.typ {
                        MessageType::Group(g) => Some(Fetch::GroupRecordByUuid { group_uin: g.group_uin, uuid }),
                        MessageType::Friend(_) => Some(Fetch::C2cRecordByUuid { uuid }),
                        MessageType::Temp => Some(Fetch::C2cRecordByUuid { uuid }),
                        MessageType::Other => None,
                    },
                    None => None,
                }
            }
        },
        Entity::Video(v) => match chain.typ {
            MessageType::Group(g) => Some(
                Fetch::GroupVideo {
                    friend_uin: chain.friend_uin,
                    group_uin: g.group_uin,
                    file_name: v.file_name,
                    node: v.node,
                },
            ),
            MessageType::Friend(_) => Some(Fetch::C2cVideo { uid: chain.uid, file_name: v.file_name, node: v.node }),
            MessageType::Temp => Some(Fetch::C2cVideo { uid: chain.uid, file_name: v.file_name, node: v.node }),
            MessageType::Other => None,
        },
        Entity::Other => None,
    }
}

/// What resolving a received element changes without any download: a file
/// with no location loses its URL.
pub open spec fn spec_settle(e: Entity) -> Entity {
    match e {
        Entity::File(f) => if f.extra is None {
            Entity::File(FileEntity { file_url: None, extra: None })
        } else {
            e
        },
        _ => e,
    }
}

/// `new` is `old` with element `i` replaced by `e`.
pub open spec fn with_entity(new: MessageChain, old: MessageChain, i: int, e: Entity) -> bool {
    &&& new.typ == old.typ
    &&& new.friend_uin == old.friend_uin
    &&& new.uid == old.uid
    &&& new.entities@ == old.entities@.update(i, e)
}

fn replace_entity(chain: &mut MessageChain, i: usize, e: Entity) -> (old_e: Entity)
    requires
        i < old(chain).entities@.len(),
    ensures
        old_e == old(chain).entities@[i as int],
        final(chain).typ == old(chain).typ,
        final(chain).friend_uin == old(chain).friend_uin,
        final(chain).uid == old(chain).uid,
        final(chain).entities@ == old(chain).entities@.update(i as int, e),
{
    let old_e = chain.entities.remove(i);
    chain.entities.insert(i, e);
    assert(chain.entities@ =~= old(chain).entities@.update(i as int, e));
    old_e
}

/// Decides what element `i` of a received chain needs: settles what needs no
/// download and returns the download to perform, if any.
pub fn incoming_step(chain: &mut MessageChain, i: usize) -> (res: Option<Fetch>)
    requires
        i < old(chain).entities@.len(),
    ensures
        res == spec_incoming_fetch(*old(chain), old(chain).entities@[i as int]),
        with_entity(
            *final(chain),
            *old(chain),
            i as int,
            spec_settle(old(chain).entities@[i as int]),
        ),
        is_resolution_step(*final(chain), *old(chain)),
{
    let ghost c0 = *chain;
    let e = replace_entity(chain, i, Entity::Other);
    let (res, settled) = match e {
        Entity::Image(img) => {
            let marked = occurs(&RKEY_MARKER, img.url.as_str().as_bytes());
            proof {
                assert(RKEY_MARKER@ =~= rkey_marker());
            }
            let f = if marked {
                None
            } else {
                match first_index(&img.msg_info) {
                    None => None,
                    Some(node) => match &chain.typ {
                        MessageType::Group(g) => Some(Fetch::GroupImage { group_uin: g.group_uin, node }),
                        MessageType::Friend(_) => Some(Fetch::C2cImage { node }),
                        MessageType::Temp => Some(Fetch::C2cImage { node }),
                        MessageType::Other => None,
                    },
                }
            };
            (f, Entity::Image(img))
        },
        Entity::MultiMsg(m) => {
            let f = if m.chains.len() == 0 {
                Some(Fetch::MultiMsg { uid: chain.uid.clone(), res_id: m.res_id.clone() })
            } else {
                None
            };
            (f, Entity::MultiMsg(m))
        },
        Entity::File(f) => {
            let fetch = match &f.extra {
                Some(FileUnique::Group(g)) => match &chain.typ {
                    MessageType::Group(grp) => match &g.file_id {
                        Some(id) => Some(Fetch::GroupFile { group_uin: grp.group_uin, file_id: id.clone() }),
                        None => None,
                    },
                    _ => None,
                },
                Some(FileUnique::C2C(c)) => Some(
                    Fetch::C2cFile {
                        file_uuid: c.file_uuid.clone(),
                        file_hash: c.file_hash.clone(),
                        uid: chain.uid.clone(),
                    },
                ),
                None => None,
            };
            let settled = if f.extra.is_none() {
                Entity::File(FileEntity { file_url: None, extra: None })
            } else {
                Entity::File(f)
            };
            (fetch, settled)
        },
        Entity::Record(r) => {
            let fetch = if r.msg_info.is_some() {
                let node = first_index(&r.msg_info);
                match &chain.typ {
                    MessageType::Group(g) => Some(Fetch::GroupRecordByNode { group_uin: g.group_uin, node }),
                    MessageType::Friend(_) => Some(Fetch::C2cRecordByNode { node }),
                    MessageType::Temp => Some(Fetch::C2cRecordByNode { node }),
                    MessageType::Other => None,
                }
            } else {
                match &r.audio_uuid {
                    Some(uuid) => match &chain.typ {
                        MessageType::Group(g) => Some(
                            Fetch::GroupRecordByUuid { group_uin: g.group_uin, uuid: uuid.clone() },
                        ),
                        MessageType::Friend(_) => Some(Fetch::C2cRecordByUuid { uuid: uuid.clone() }),
                        MessageType::Temp => Some(Fetch::C2cRecordByUuid { uuid: uuid.clone() }),
                        MessageType::Other => None,
                    },
                    None => None,
                }
            };
            (fetch, Entity::Record(r))
        },
        Entity::Video(v) => {
            let fetch = match &chain.typ {
                MessageType::Group(g) => Some(
                    Fetch::GroupVideo {
                        friend_uin: chain.friend_uin,
                        group_uin: g.group_uin,
                        file_name: v.file_name.clone(),
                        node: clone_node(&v.node),
                    },
                ),
                MessageType::Friend(_) => Some(
                    Fetch::C2cVideo {
                        uid: chain.uid.clone(),
                        file_name: v.file_name.clone(),
                        node: clone_node(&v.node),
                    },
                ),
                MessageType::Temp => Some(
                    Fetch::C2cVideo {
                        uid: chain.uid.clone(),
                        file_name: v.file_name.clone(),
                        node: clone_node(&v.node),
                    },
                ),
                MessageType::Other => None,
            };
            (fetch, Entity::Video(v))
        },
        Entity::Other => (None, Entity::Other),
    };
    replace_entity(chain, i, settled);
    proof {
        assert(chain.entities@ =~= c0.entities@.update(i as int, spec_settle(c0.entities@[i as int])));
        assert(with_entity(*chain, c0, i as int, spec_settle(c0.entities@[i as int])));
    }
    res
}

/// The download to try when `f` failed: a group video falls back to the
/// group video service; nothing else is retried.
pub open spec fn spec_fallback(f: Fetch) -> Option<Fetch> {
    match f {
        Fetch::GroupVideo { friend_uin, group_uin, file_name, node } => Some(
            Fetch::GroupVideoFallback { group_uin, file_name, node },
        ),
        _ => None,
    }
}

/// The download to try after `f` failed, if any.
pub fn fallback(f: &Fetch) -> (res: Option<Fetch>)
    ensures
        res == spec_fallback(*f),
{
    match f {
        Fetch::GroupVideo { friend_uin, group_uin, file_name, node } => Some(
            Fetch::GroupVideoFallback {
                group_uin: *group_uin,
                file_name: file_name.clone(),
                node: clone_node(node),
            },
        ),
        _ => None,
    }
}

/// The download to try after `f` was answered with `reply`: the fallback of
/// `f` when the download failed, nothing when it succeeded.
pub open spec fn spec_retry_after(f: Fetch, reply: Reply) -> Option<Fetch> {
    if reply == Reply::Url(None) {
        spec_fallback(f)
    } else {
        None
    }
}

/// The download to try after `f` was answered with `reply`, if any.
pub fn retry_after(f: &Fetch, reply: &Reply) -> (res: Option<Fetch>)
    ensures
        res == spec_retry_after(*f, *reply),
{
    match reply {
        Reply::Url(None) => fallback(f),
        _ => None,
    }
}

/// The hashes a video download names: an empty MD5 and an empty SHA-1; the
/// server finds the file by its node and name.
pub struct VideoHashes {
    pub file_md5: String,
    pub file_sha1: Option<String>,
}

/// The hashes every video download passes.
pub fn video_hashes() -> (res: VideoHashes)
    ensures
        res.file_md5@ == Seq::<char>::empty(),
        res.file_sha1 matches Some(s) && s@ == Seq::<char>::empty(),
{
    VideoHashes { file_md5: String::new(), file_sha1: Some(String::new()) }
}

/// Whether a video download through the sender's video service is made as a
/// group download: yes for a group video, no for a private-chat video; other
/// downloads do not pass the flag.
pub open spec fn spec_video_group_flag(f: Fetch) -> Option<bool> {
    match f {
        Fetch::GroupVideo { .. } => Some(true),
        Fetch::C2cVideo { .. } => Some(false),
        _ => None,
    }
}

/// The group flag a video download passes, if it passes one.
pub fn video_group_flag(f: &Fetch) -> (res: Option<bool>)
    ensures
        res == spec_video_group_flag(*f),
{
    match f {
        Fetch::GroupVideo { .. } => Some(true),
        Fetch::C2cVideo { .. } => Some(false),
        _ => None,
    }
}

/// An element after the answer to its download: a successful URL is stored
/// (a file's URL is stored even when the download failed, as `None`), and the
/// chains of a multi-message replace its empty list.
pub open spec fn spec_apply(e: Entity, r: Reply) -> Entity {
    match (e, r) {
        (Entity::Image(img), Reply::Url(Some(u))) => Entity::Image(ImageEntity { url: u, ..img }),
        (Entity::MultiMsg(m), Reply::Chains(Some(cs))) => Entity::MultiMsg(
            MultiMsgEntity { chains: cs, ..m },
        ),
        (Entity::File(f), Reply::Url(u)) => Entity::File(FileEntity { file_url: u, ..f }),
        (Entity::Record(rec), Reply::Url(Some(u))) => Entity::Record(RecordEntity { audio_url: u, ..rec }),
        (Entity::Video(v), Reply::Url(Some(u))) => Entity::Video(VideoEntity { video_url: u, ..v }),
        (e, _) => e,
    }
}

/// Folds the answer to the download of element `i` back into the chain.
pub fn apply_reply(chain: &mut MessageChain, i: usize, reply: Reply)
    requires
        i < old(chain).entities@.len(),
    ensures
        with_entity(
            *final(chain),
            *old(chain),
            i as int,
            spec_apply(old(chain).entities@[i as int], reply),
        ),
        is_resolution_step(*final(chain), *old(chain)),
{
    let ghost c0 = *chain;
    let e = replace_entity(chain, i, Entity::Other);
    let updated = match (e, reply) {
        (Entity::Image(img), Reply::Url(Some(u))) => Entity::Image(ImageEntity { url: u, msg_info: img.msg_info }),
        (Entity::MultiMsg(m), Reply::Chains(Some(cs))) => Entity::MultiMsg(
            MultiMsgEntity { res_id: m.res_id, chains: cs },
        ),
        (Entity::File(f), Reply::Url(u)) => Entity::File(FileEntity { file_url: u, extra: f.extra }),
        (Entity::Record(rec), Reply::Url(Some(u))) => Entity::Record(
            RecordEntity { msg_info: rec.msg_info, audio_uuid: rec.audio_uuid, audio_url: u },
        ),
        (Entity::Video(v), Reply::Url(Some(u))) => Entity::Video(
            VideoEntity { file_name: v.file_name, node: v.node, video_url: u },
        ),
        (e, _) => e,
    };
    replace_entity(chain, i, updated);
    proof {
        assert(chain.entities@ =~= c0.entities@.update(i as int, spec_apply(c0.entities@[i as int], reply)));
        assert(with_entity(*chain, c0, i as int, spec_apply(c0.entities@[i as int], reply)));
    }
}

// ----------------------------------------------------------- outgoing media

/// Why sending a message failed.
#[derive(Debug)]
pub enum BusinessError {
    GenericError(String),
}

/// What an upload's result means for sending: success goes on, a failure
/// stops the message with its text as a generic error.
pub fn upload_outcome(result: Result<(), String>) -> (res: Result<(), BusinessError>)
    ensures
        result is Ok <==> res is Ok,
        result matches Err(m) ==> (res matches Err(BusinessError::GenericError(n)) && n == m),
{
    match result {
        Ok(()) => Ok(()),
        Err(m) => Err(BusinessError::GenericError(m)),
    }
}

/// An upload that sending an element needs.
#[derive(Debug, PartialEq, Eq)]
pub enum Upload {
    GroupImage { group_uin: u32 },
    C2cImage { uid: String },
    GroupVideo { group_uin: u32 },
    C2cVideo { uid: String },
    GroupRecord { group_uin: u32 },
    C2cRecord { uid: String },
}

/// The upload an outgoing element needs: images, videos and voice records
/// are uploaded to the group, or for the chain's uid in private chats.
pub open spec fn spec_outgoing_upload(chain: MessageChain, e: Entity) -> Option<Upload> {
    match (e, chain.typ) {
        (Entity::Image(_), MessageType::Group(g)) => Some(Upload::GroupImage { group_uin: g.group_uin }),
        (Entity::Image(_), MessageType::Friend(_)) => Some(Upload::C2cImage { uid: chain.uid }),
        (Entity::Image(_), MessageType::Temp) => Some(Upload::C2cImage { uid: chain.uid }),
        (Entity::Video(_), MessageType::Group(g)) => Some(Upload::GroupVideo { group_uin: g.group_uin }),
        (Entity::Video(_), MessageType::Friend(_)) => Some(Upload::C2cVideo { uid: chain.uid }),
        (Entity::Video(_), MessageType::Temp) => Some(Upload::C2cVideo { uid: chain.uid }),
        (Entity::Record(_), MessageType::Group(g)) => Some(Upload::GroupRecord { group_uin: g.group_uin }),
        (Entity::Record(_), MessageType::Friend(_)) => Some(Upload::C2cRecord { uid: chain.uid }),
        (Entity::Record(_), MessageType::Temp) => Some(Upload::C2cRecord { uid: chain.uid }),
        _ => None,
    }
}

/// Decides the upload element `i` of an outgoing chain needs.
pub fn outgoing_upload(chain: &MessageChain, i: usize) -> (res: Option<Upload>)
    requires
        i < chain.entities@.len(),
    ensures
        res == spec_outgoing_upload(*chain, chain.entities@[i as int]),
{
    match (&chain.entities[i], &chain.typ) {
        (Entity::Image(_), MessageType::Group(g)) => Some(Upload::GroupImage { group_uin: g.group_uin }),
        (Entity::Image(_), MessageType::Friend(_)) => Some(Upload::C2cImage { uid: chain.uid.clone() }),
        (Entity::Image(_), MessageType::Temp) => Some(Upload::C2cImage { uid: chain.uid.clone() }),
        (Entity::Video(_), MessageType::Group(g)) => Some(Upload::GroupVideo { group_uin: g.group_uin }),
        (Entity::Video(_), MessageType::Friend(_)) => Some(Upload::C2cVideo { uid: chain.uid.clone() }),
        (Entity::Video(_), MessageType::Temp) => Some(Upload::C2cVideo { uid: chain.uid.clone() }),
        (Entity::Record(_), MessageType::Group(g)) => Some(Upload::GroupRecord { group_uin: g.group_uin }),
        (Entity::Record(_), MessageType::Friend(_)) => Some(Upload::C2cRecord { uid: chain.uid.clone() }),
        (Entity::Record(_), MessageType::Temp) => Some(Upload::C2cRecord { uid: chain.uid.clone() }),
        _ => None,
    }
}

// -------------------------------------------------------------------- laws

/// Settling an element is done once: settling again changes nothing, and the
/// download asked for is the same before and after.
pub proof fn law_settle_stable(chain: MessageChain, e: Entity)
    ensures
        spec_settle(spec_settle(e)) == spec_settle(e),
        spec_incoming_fetch(chain, spec_settle(e)) == spec_incoming_fetch(chain, e),
{
}

/// An answer never changes what kind of element it is folded into.
pub proof fn law_apply_keeps_kind(e: Entity, r: Reply)
    ensures
        (e is Image) == (spec_apply(e, r) is Image),
        (e is MultiMsg) == (spec_apply(e, r) is MultiMsg),
        (e is File) == (spec_apply(e, r) is File),
        (e is Record) == (spec_apply(e, r) is Record),
        (e is Video) == (spec_apply(e, r) is Video),
        (e is Other) == (spec_apply(e, r) is Other),
{
}

/// Resolution settles: an image that received a URL carrying its key, and a
/// multi-message that received chains, ask for nothing more.
pub proof fn law_resolved_not_refetched(chain: MessageChain, e: Entity, r: Reply)
    requires
        e is Image ==> (r matches Reply::Url(Some(u)) && occurs_in(rkey_marker(), encode_utf8(u@))),
        e is MultiMsg ==> (r matches Reply::Chains(Some(cs)) && cs@.len() > 0),
        e is Image || e is MultiMsg,
    ensures
        spec_incoming_fetch(chain, spec_apply(e, r)) is None,
{
}

/// `n` is `o` after resolution: the same kind of element, with everything but
/// its resolved URL (or, for a multi-message, its chains) unchanged.
pub open spec fn entity_resolved_from(n: Entity, o: Entity) -> bool {
    match (n, o) {
        (Entity::Image(a), Entity::Image(b)) => a.msg_info == b.msg_info,
        (Entity::MultiMsg(a), Entity::MultiMsg(b)) => a.res_id == b.res_id,
        (Entity::File(a), Entity::File(b)) => a.extra == b.extra,
        (Entity::Record(a), Entity::Record(b)) => a.msg_info == b.msg_info && a.audio_uuid == b.audio_uuid,
        (Entity::Video(a), Entity::Video(b)) => a.file_name == b.file_name && a.node == b.node,
        (Entity::Other, Entity::Other) => true,
        _ => false,
    }
}

/// `n` is the chain `o` with only the resolved fields of its elements
/// changed: same kind, sender, uid and number of elements, each element in
/// its place and of its kind.
pub open spec fn only_media_changed(n: MessageChain, o: MessageChain) -> bool {
    &&& n.typ == o.typ
    &&& n.friend_uin == o.friend_uin
    &&& n.uid == o.uid
    &&& n.entities@.len() == o.entities@.len()
    &&& forall|k: int| 0 <= k < o.entities@.len() ==> #[trigger] entity_resolved_from(n.entities@[k], o.entities@[k])
}

/// One step of resolving a received chain: settling element `i`
/// ([`incoming_step`]) or folding an answer into it ([`apply_reply`]).
pub open spec fn is_resolution_step(n: MessageChain, o: MessageChain) -> bool {
    ||| exists|i: int|
        0 <= i < o.entities@.len() && #[trigger] with_entity(n, o, i, spec_settle(o.entities@[i]))
    ||| exists|i: int, r: Reply|
        0 <= i < o.entities@.len() && #[trigger] with_entity(n, o, i, spec_apply(o.entities@[i], r))
}

proof fn lemma_entity_resolved_refl(e: Entity)
    ensures
        entity_resolved_from(e, e),
{
}

proof fn lemma_entity_resolved_trans(a: Entity, b: Entity, c: Entity)
    requires
        entity_resolved_from(a, b),
        entity_resolved_from(b, c),
    ensures
        entity_resolved_from(a, c),
{
}

proof fn lemma_step_changes_only_media(n: MessageChain, o: MessageChain)
    requires
        is_resolution_step(n, o),
    ensures
        only_media_changed(n, o),
{
    let i = if exists|i: int|
        0 <= i < o.entities@.len() && #[trigger] with_entity(n, o, i, spec_settle(o.entities@[i])) {
        choose|i: int| 0 <= i < o.entities@.len() && #[trigger] with_entity(n, o, i, spec_settle(o.entities@[i]))
    } else {
        let (i, r) = choose|i: int, r: Reply|
            0 <= i < o.entities@.len() && #[trigger] with_entity(n, o, i, spec_apply(o.entities@[i], r));
        i
    };
    assert forall|k: int| 0 <= k < o.entities@.len() implies #[trigger] entity_resolved_from(
        n.entities@[k],
        o.entities@[k],
    ) by {
        if k != i {
            lemma_entity_resolved_refl(o.entities@[k]);
        }
    }
}

/// Resolving a received chain, by any sequence of [`incoming_step`] and
/// [`apply_reply`] steps, changes only the resolved fields of its elements:
/// the chain keeps its kind, sender, uid and number of elements, and every
/// element keeps its place, its kind and all its other fields.
pub proof fn law_resolution_changes_only_media(steps: Seq<MessageChain>)
    requires
        steps.len() >= 1,
        forall|k: int| 0 <= k < steps.len() - 1 ==> is_resolution_step(#[trigger] steps[k + 1], steps[k]),
    ensures
        only_media_changed(steps.last(), steps[0]),
    decreases steps.len(),
{
    if steps.len() == 1 {
        assert forall|k: int| 0 <= k < steps[0].entities@.len() implies #[trigger] entity_resolved_from(
            steps[0].entities@[k],
            steps[0].entities@[k],
        ) by {
            lemma_entity_resolved_refl(steps[0].entities@[k]);
        }
    } else {
        let prefix = steps.drop_last();
        assert forall|k: int| 0 <= k < prefix.len() - 1 implies is_resolution_step(#[trigger] prefix[k + 1], prefix[k]) by {
            assert(prefix[k + 1] == steps[k + 1]);
            assert(is_resolution_step(steps[k + 1], steps[k]));
        }
        law_resolution_changes_only_media(prefix);
        let mid = prefix.last();
        let last = steps.last();
        assert(mid == steps[steps.len() - 2]);
        assert(is_resolution_step(steps[steps.len() - 2 + 1], steps[steps.len() - 2]));
        lemma_step_changes_only_media(last, mid);
        assert forall|k: int| 0 <= k < steps[0].entities@.len() implies #[trigger] entity_resolved_from(
            last.entities@[k],
            steps[0].entities@[k],
        ) by {
            assert(entity_resolved_from(mid.entities@[k], prefix[0].entities@[k]));
            assert(entity_resolved_from(last.entities@[k], mid.entities@[k]));
            lemma_entity_resolved_trans(last.entities@[k], mid.entities@[k], steps[0].entities@[k]);
        }
    }
}

// ------------------------------------------------- laws of what is fetched

/// The index node of the first body of a media description.
pub open spec fn first_body_index(info: MsgInfo) -> Option<IndexNode> {
    if info.msg_info_body@.len() > 0 {
        info.msg_info_body@[0].index
    } else {
        None
    }
}

/// Friend chats and temporary chats are handled alike: an element needs the
/// same download and the same upload in either.
pub proof fn law_private_chats_alike(friend: MessageChain, temp: MessageChain, e: Entity)
    requires
        friend.typ is Friend,
        temp.typ is Temp,
        friend.uid == temp.uid,
        friend.friend_uin == temp.friend_uin,
    ensures
        spec_incoming_fetch(friend, e) == spec_incoming_fetch(temp, e),
        spec_outgoing_upload(friend, e) == spec_outgoing_upload(temp, e),
{
}

/// A received image without its key is fetched by the index node of its first
/// description body: from the group in a group chat, as a private image in a
/// friend or temporary chat; an image whose URL carries its key, or that has
/// no index node, is not fetched, nor is any image elsewhere.
pub proof fn law_image_fetch(chain: MessageChain, img: ImageEntity)
    ensures
        ({
            let f = spec_incoming_fetch(chain, Entity::Image(img));
            let node = match img.msg_info {
                Some(info) => first_body_index(info),
                None => None,
            };
            &&& (occurs_in(rkey_marker(), encode_utf8(img.url@)) || node is None || chain.typ is Other) ==> f is None
            &&& (!occurs_in(rkey_marker(), encode_utf8(img.url@)) && node is Some) ==> {
                &&& chain.typ matches MessageType::Group(g) ==> f == Some(
                    Fetch::GroupImage { group_uin: g.group_uin, node: node->Some_0 },
                )
                &&& (chain.typ is Friend || chain.typ is Temp) ==> f == Some(Fetch::C2cImage { node: node->Some_0 })
            }
        }),
{
}

/// A received voice record that carries its description is fetched by the
/// index node of its first body; one without description but with a uuid is
/// fetched by that uuid; from the group in a group chat, privately in a friend
/// or temporary chat. Nothing is fetched for a record without either, nor in
/// other chats.
pub proof fn law_record_fetch(chain: MessageChain, rec: RecordEntity)
    ensures
        ({
            let f = spec_incoming_fetch(chain, Entity::Record(rec));
            &&& rec.msg_info matches Some(info) ==> {
                &&& chain.typ matches MessageType::Group(g) ==> f == Some(
                    Fetch::GroupRecordByNode { group_uin: g.group_uin, node: first_body_index(info) },
                )
                &&& (chain.typ is Friend || chain.typ is Temp) ==> f == Some(
                    Fetch::C2cRecordByNode { node: first_body_index(info) },
                )
            }
            &&& (rec.msg_info is None && rec.audio_uuid is Some) ==> {
                &&& chain.typ matches MessageType::Group(g) ==> f == Some(
                    Fetch::GroupRecordByUuid { group_uin: g.group_uin, uuid: rec.audio_uuid->Some_0 },
                )
                &&& (chain.typ is Friend || chain.typ is Temp) ==> f == Some(
                    Fetch::C2cRecordByUuid { uuid: rec.audio_uuid->Some_0 },
                )
            }
            &&& (rec.msg_info is None && rec.audio_uuid is None) ==> f is None
            &&& chain.typ is Other ==> f is None
        }),
{
}

/// A received video is fetched as the sender's video: in a group chat by the
/// sender's uin within the group, in a friend or temporary chat for the
/// chain's uid; with its file name and node. Not in other chats.
pub proof fn law_video_fetch(chain: MessageChain, v: VideoEntity)
    ensures
        ({
            let f = spec_incoming_fetch(chain, Entity::Video(v));
            &&& chain.typ matches MessageType::Group(g) ==> f == Some(
                Fetch::GroupVideo { friend_uin: chain.friend_uin, group_uin: g.group_uin, file_name: v.file_name, node: v.node },
            )
            &&& (chain.typ is Friend || chain.typ is Temp) ==> f == Some(
                Fetch::C2cVideo { uid: chain.uid, file_name: v.file_name, node: v.node },
            )
            &&& chain.typ is Other ==> f is None
        }),
{
}

/// A multi-message is fetched, for the chain's uid, exactly when it holds no
/// chains yet, whatever the chat.
pub proof fn law_multi_msg_fetch(chain: MessageChain, m: MultiMsgEntity)
    ensures
        m.chains@.len() == 0 ==> spec_incoming_fetch(chain, Entity::MultiMsg(m)) == Some(
            Fetch::MultiMsg { uid: chain.uid, res_id: m.res_id },
        ),
        m.chains@.len() > 0 ==> spec_incoming_fetch(chain, Entity::MultiMsg(m)) is None,
{
}

/// A private file is fetched by its uuid and hash for the chain's uid, in any
/// chat; a group file only in a group chat and only when it has an id, from
/// that group; a file without location is not fetched and loses its URL.
pub proof fn law_file_fetch(chain: MessageChain, file: FileEntity)
    ensures
        ({
            let f = spec_incoming_fetch(chain, Entity::File(file));
            &&& file.extra matches Some(FileUnique::C2C(c)) ==> f == Some(
                Fetch::C2cFile { file_uuid: c.file_uuid, file_hash: c.file_hash, uid: chain.uid },
            )
            &&& file.extra matches Some(FileUnique::Group(gf)) ==> match (chain.typ, gf.file_id) {
                (MessageType::Group(g), Some(id)) => f == Some(Fetch::GroupFile { group_uin: g.group_uin, file_id: id }),
                _ => f is None,
            }
            &&& file.extra is None ==> (f is None && spec_settle(Entity::File(file)) == Entity::File(
                FileEntity { file_url: None, extra: None },
            ))
            &&& file.extra is Some ==> spec_settle(Entity::File(file)) == Entity::File(file)
        }),
{
}

/// Elements with nothing to resolve are neither fetched nor changed.
pub proof fn law_other_not_fetched(chain: MessageChain)
    ensures
        spec_incoming_fetch(chain, Entity::Other) is None,
        spec_settle(Entity::Other) == Entity::Other,
{
}

/// A failed group video is retried through the group video service with the
/// same group, file name and node; nothing else is retried, and nothing is
/// retried after a success.
pub proof fn law_retry(f: Fetch, reply: Reply)
    ensures
        f matches Fetch::GroupVideo { group_uin, file_name, node, .. } ==> spec_fallback(f) == Some(
            Fetch::GroupVideoFallback { group_uin, file_name, node },
        ),
        !(f is GroupVideo) ==> spec_fallback(f) is None,
        reply != Reply::Url(None) ==> spec_retry_after(f, reply) is None,
        reply == Reply::Url(None) ==> spec_retry_after(f, reply) == spec_fallback(f),
        (f is GroupVideo ==> spec_video_group_flag(f) == Some(true)),
        (f is C2cVideo ==> spec_video_group_flag(f) == Some(false)),
        (!(f is GroupVideo || f is C2cVideo) ==> spec_video_group_flag(f) is None),
{
}

/// An answer reaches the element it was asked for: a URL that arrived becomes
/// the image's, record's or video's URL, while a failed download leaves them
/// as they were; a file takes whatever came back, a failure clearing its URL;
/// chains that arrived fill a multi-message. Nothing else changes.
pub proof fn law_apply_answer(e: Entity, r: Reply)
    ensures
        e matches Entity::Image(img) ==> match r {
            Reply::Url(Some(u)) => spec_apply(e, r) == Entity::Image(ImageEntity { url: u, msg_info: img.msg_info }),
            _ => spec_apply(e, r) == e,
        },
        e matches Entity::Record(rec) ==> match r {
            Reply::Url(Some(u)) => spec_apply(e, r) == Entity::Record(
                RecordEntity { msg_info: rec.msg_info, audio_uuid: rec.audio_uuid, audio_url: u },
            ),
            _ => spec_apply(e, r) == e,
        },
        e matches Entity::Video(v) ==> match r {
            Reply::Url(Some(u)) => spec_apply(e, r) == Entity::Video(
                VideoEntity { file_name: v.file_name, node: v.node, video_url: u },
            ),
            _ => spec_apply(e, r) == e,
        },
        e matches Entity::File(f) ==> match r {
            Reply::Url(u) => spec_apply(e, r) == Entity::File(FileEntity { file_url: u, extra: f.extra }),
            _ => spec_apply(e, r) == e,
        },
        e matches Entity::MultiMsg(m) ==> match r {
            Reply::Chains(Some(cs)) => spec_apply(e, r) == Entity::MultiMsg(MultiMsgEntity { res_id: m.res_id, chains: cs }),
            _ => spec_apply(e, r) == e,
        },
        e is Other ==> spec_apply(e, r) == e,
{
}

/// Every image, video and voice record of an outgoing message to a group,
/// friend or temporary chat is uploaded: to the group in a group chat, for
/// the chain's uid otherwise, by the upload of its own kind. Nothing else is
/// uploaded.
pub proof fn law_outgoing_upload(chain: MessageChain, e: Entity)
    ensures
        ({
            let u = spec_outgoing_upload(chain, e);
            &&& chain.typ matches MessageType::Group(g) ==> {
                &&& e is Image ==> u == Some(Upload::GroupImage { group_uin: g.group_uin })
                &&& e is Video ==> u == Some(Upload::GroupVideo { group_uin: g.group_uin })
                &&& e is Record ==> u == Some(Upload::GroupRecord { group_uin: g.group_uin })
            }
            &&& (chain.typ is Friend || chain.typ is Temp) ==> {
                &&& e is Image ==> u == Some(Upload::C2cImage { uid: chain.uid })
                &&& e is Video ==> u == Some(Upload::C2cVideo { uid: chain.uid })
                &&& e is Record ==> u == Some(Upload::C2cRecord { uid: chain.uid })
            }
            &&& (chain.typ is Other || !(e is Image || e is Video || e is Record)) ==> u is None
        }),
{
}

// ----------------------------------------------------- laws of metadata

/// Sender details are fetched for friend messages always, and for group
/// messages only when members are fetched in full; never otherwise.
pub proof fn law_metadata_fetch(chain: MessageChain, strategy: FetchGroupMemberStrategy)
    ensures
        chain.typ matches MessageType::Group(g) ==> spec_metadata_fetch(chain, strategy) == (if strategy
            == FetchGroupMemberStrategy::Full {
            Some(MetadataFetch::GroupMembers { group_uin: g.group_uin })
        } else {
            None
        }),
        chain.typ is Friend ==> spec_metadata_fetch(chain, strategy) == Some(
            MetadataFetch::Friends { friend_uin: chain.friend_uin },
        ),
        (chain.typ is Temp || chain.typ is Other) ==> spec_metadata_fetch(chain, strategy) is None,
{
}

proof fn lemma_find_member_first(s: Seq<GroupMember>, uin: u32)
    ensures
        match find_member(s, uin) {
            Some(m) => exists|k: int|
                0 <= k < s.len() && s[k] == m && s[k].uin == uin && forall|j: int|
                    0 <= j < k ==> (#[trigger] s[j]).uin != uin,
            None => forall|k: int| 0 <= k < s.len() ==> (#[trigger] s[k]).uin != uin,
        },
    decreases s.len(),
{
    if s.len() > 0 {
        lemma_find_member_first(s.drop_first(), uin);
        if s[0].uin != uin {
            match find_member(s.drop_first(), uin) {
                Some(m) => {
                    let k = choose|k: int|
                        0 <= k < s.drop_first().len() && s.drop_first()[k] == m && s.drop_first()[k].uin == uin
                            && forall|j: int| 0 <= j < k ==> (#[trigger] s.drop_first()[j]).uin != uin;
                    assert forall|j: int| 0 <= j < k + 1 implies (#[trigger] s[j]).uin != uin by {
                        if j > 0 {
                            assert(s[j] == s.drop_first()[j - 1]);
                        }
                    }
                    assert(s[k + 1] == s.drop_first()[k]);
                },
                None => {
                    assert forall|k: int| 0 <= k < s.len() implies (#[trigger] s[k]).uin != uin by {
                        if k > 0 {
                            assert(s[k] == s.drop_first()[k - 1]);
                        }
                    }
                },
            }
        }
    }
}

proof fn lemma_find_friend_first(s: Seq<Friend>, uin: u32)
    ensures
        match find_friend(s, uin) {
            Some(m) => exists|k: int|
                0 <= k < s.len() && s[k] == m && s[k].uin == uin && forall|j: int|
                    0 <= j < k ==> (#[trigger] s[j]).uin != uin,
            None => forall|k: int| 0 <= k < s.len() ==> (#[trigger] s[k]).uin != uin,
        },
    decreases s.len(),
{
    if s.len() > 0 {
        lemma_find_friend_first(s.drop_first(), uin);
        if s[0].uin != uin {
            match find_friend(s.drop_first(), uin) {
                Some(m) => {
                    let k = choose|k: int|
                        0 <= k < s.drop_first().len() && s.drop_first()[k] == m && s.drop_first()[k].uin == uin
                            && forall|j: int| 0 <= j < k ==> (#[trigger] s.drop_first()[j]).uin != uin;
                    assert forall|j: int| 0 <= j < k + 1 implies (#[trigger] s[j]).uin != uin by {
                        if j > 0 {
                            assert(s[j] == s.drop_first()[j - 1]);
                        }
                    }
                    assert(s[k + 1] == s.drop_first()[k]);
                },
                None => {
                    assert forall|k: int| 0 <= k < s.len() implies (#[trigger] s[k]).uin != uin by {
                        if k > 0 {
                            assert(s[k] == s.drop_first()[k - 1]);
                        }
                    }
                },
            }
        }
    }
}

/// Attaching the friend list to a friend chain: when a friend has the
/// sender's uin, the first such friend becomes the chain's friend info, and
/// fills the chain's uid when it was empty; when none has it, the chain is
/// unchanged. Only the friend info and uid ever change, and other chains are
/// left alone.
pub proof fn law_friends_attach(chain: MessageChain, friends: Seq<Friend>, k: int)
    ensures
        ({
            let n = spec_with_friends(chain, friends);
            &&& n.friend_uin == chain.friend_uin
            &&& n.entities == chain.entities
            &&& !(chain.typ is Friend) ==> n == chain
            &&& (chain.typ is Friend && 0 <= k < friends.len() && friends[k].uin == chain.friend_uin && (forall|j: int|
                0 <= j < k ==> (#[trigger] friends[j]).uin != chain.friend_uin)) ==> {
                &&& n.typ == MessageType::Friend(FriendElem { friend_info: Some(friends[k]) })
                &&& n.uid == (if chain.uid@.len() == 0 { friends[k].uid } else { chain.uid })
            }
            &&& (forall|j: int| 0 <= j < friends.len() ==> (#[trigger] friends[j]).uin != chain.friend_uin) ==> n == chain
        }),
{
    lemma_find_friend_first(friends, chain.friend_uin);
    if chain.typ is Friend && 0 <= k < friends.len() && friends[k].uin == chain.friend_uin && (forall|j: int|
        0 <= j < k ==> (#[trigger] friends[j]).uin != chain.friend_uin) {
        let f = find_friend(friends, chain.friend_uin);
        if f is None {
            assert(friends[k].uin != chain.friend_uin);
        }
        let k2 = choose|k2: int|
            0 <= k2 < friends.len() && friends[k2] == f->Some_0 && friends[k2].uin == chain.friend_uin && forall|j: int|
                0 <= j < k2 ==> (#[trigger] friends[j]).uin != chain.friend_uin;
        if k2 < k {
            assert(friends[k2].uin != chain.friend_uin);
        } else if k < k2 {
            assert(friends[k].uin != chain.friend_uin);
        }
    }
}

/// Attaching the member list to a group chain: the member looked up is the
/// sender, or the bot itself (`self_uin`) when the sender's uin is 0. The
/// first member with that uin becomes the group's member info, filling the
/// chain's uid when it was empty; when none has it, the member info is
/// cleared and the uid kept. The group, sender and elements never change, and
/// other chains are left alone.
pub proof fn law_members_attach(chain: MessageChain, members: Seq<GroupMember>, self_uin: u32, k: int)
    ensures
        ({
            let n = spec_with_members(chain, members, self_uin);
            let lookup = if chain.friend_uin == 0 { self_uin } else { chain.friend_uin };
            &&& n.friend_uin == chain.friend_uin
            &&& n.entities == chain.entities
            &&& !(chain.typ is Group) ==> n == chain
            &&& chain.typ matches MessageType::Group(g) ==> {
                &&& (0 <= k < members.len() && members[k].uin == lookup && (forall|j: int|
                    0 <= j < k ==> (#[trigger] members[j]).uin != lookup)) ==> {
                    &&& n.typ == MessageType::Group(GroupElem { group_uin: g.group_uin, group_member_info: Some(members[k]) })
                    &&& n.uid == (if chain.uid@.len() == 0 { members[k].uid } else { chain.uid })
                }
                &&& (forall|j: int| 0 <= j < members.len() ==> (#[trigger] members[j]).uin != lookup) ==> {
                    &&& n.typ == MessageType::Group(GroupElem { group_uin: g.group_uin, group_member_info: None })
                    &&& n.uid == chain.uid
                }
            }
        }),
{
    let lookup = if chain.friend_uin == 0 { self_uin } else { chain.friend_uin };
    lemma_find_member_first(members, lookup);
    if chain.typ is Group && 0 <= k < members.len() && members[k].uin == lookup && (forall|j: int|
        0 <= j < k ==> (#[trigger] members[j]).uin != lookup) {
        let f = find_member(members, lookup);
        if f is None {
            assert(members[k].uin != lookup);
        }
        let k2 = choose|k2: int|
            0 <= k2 < members.len() && members[k2] == f->Some_0 && members[k2].uin == lookup && forall|j: int|
                0 <= j < k2 ==> (#[trigger] members[j]).uin != lookup;
        if k2 < k {
            assert(members[k2].uin != lookup);
        } else if k < k2 {
            assert(members[k].uin != lookup);
        }
    }
}

} // verus!
