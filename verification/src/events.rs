//! Incoming events: turning the server's system notices and pushed messages
//! into the events handed to the user, on the group, friend or system
//! channel.
//!
//! Most notices name people by uid, and users are told uins. The lookups a
//! notice needs are listed by [`next_lookup`], one at a time, in the order
//! they are made; the caller performs each and hands the answers to
//! [`emit`], which builds the event to deliver.

use vstd::prelude::*;

use crate::chain::{MessageChain, MessageType};

verus! {

/// A system notice received from the server.
#[derive(Debug)]
pub enum IncomingEvent {
    GroupSysRequestJoin { group_uin: u32, target_uid: String },
    GroupSysInvite { group_uin: u32, invitor_uid: String },
    GroupSysAdmin { group_uin: u32, uid: String, is_promoted: bool },
    GroupSysPoke {
        group_uin: u32,
        operator_uin: u32,
        target_uin: u32,
        action: String,
        suffix: String,
        action_img_url: String,
    },
    GroupSysIncrease { group_uin: u32, member_uid: String, invitor_uid: Option<String>, event_type: u32 },
    GroupSysDecrease { group_uin: u32, member_uid: String, operator_uid: Option<String>, event_type: u32 },
    GroupSysMute { group_uin: u32, operator_uid: Option<String>, is_muted: bool },
    GroupSysMemberMute { group_uin: u32, operator_uid: Option<String>, target_uid: String, duration: u32 },
    GroupSysNameChange { group_uin: u32, name: String },
    GroupSysTodo { group_uin: u32, operator_uid: String },
    GroupSysReaction {
        target_group_uin: u32,
        target_sequence: u32,
        operator_uid: String,
        is_add: bool,
        code: String,
        count: u32,
    },
    GroupSysRecall {
        group_uin: u32,
        author_uid: String,
        operator_uid: Option<String>,
        sequence: u32,
        time: u32,
        random: u32,
        tip: String,
    },
    GroupSysEssence { group_uin: u32, sequence: u32, random: u32, set_flag: bool, from_uin: u32, operator_uin: u32 },
    GroupSysSpecialTitle {
        target_uin: u32,
        target_nickname: String,
        special_title: String,
        special_title_detail_url: String,
        group_uin: u32,
    },
    GroupSysMemberEnter { group_uin: u32, group_member_uin: u32, style_id: u32 },
    GroupSysRequestInvitation { group_uin: u32, target_uid: String, invitor_uid: String },
    FriendSysRecall { from_uid: String, client_sequence: u32, time: u32, random: u32, tip: String },
    GroupSysPinChange { uid: String, group_uin: Option<u32>, is_pin: bool },
    FriendSysPoke { operator_uin: u32, target_uin: u32, action: String, suffix: String, action_img_url: String },
    FriendSysNew { from_uid: String, from_nickname: String, msg: String },
    FriendSysRename { uid: String, nickname: String },
    FriendSysRequest { source_uid: String, message: String, source: String },
    BotSysRename { nickname: String },
}

/// A pending request to join a group, as the server lists them.
#[derive(Debug)]
pub struct GroupJoinRequest {
    pub group_uin: u32,
    pub target_member_uin: u32,
    pub target_member_card: String,
    pub invitor_member_uin: Option<u32>,
    pub comment: Option<String>,
    pub sequence: u64,
}

/// Whether a pin change concerns a group or a friend.
#[derive(Debug, PartialEq, Eq, Structural, Clone, Copy)]
pub enum ChatType {
    Group,
    Friend,
}

/// Events delivered on the group channel.
#[derive(Debug)]
pub enum GroupEvent {
    GroupMessage { chain: MessageChain },
    GroupJoinRequest {
        group_uin: u32,
        target_uin: u32,
        target_nickname: String,
        invitor_uin: u32,
        answer: String,
        request_seq: u64,
    },
    GroupInvitation { group_uin: u32, invitor_uin: u32, sequence: Option<u64> },
    GroupAdminChanged { group_uin: u32, admin_uin: u32, is_promote: bool },
    GroupPoke {
        group_uin: u32,
        operator_uin: u32,
        target_uin: u32,
        action: String,
        suffix: String,
        action_img_url: String,
    },
    GroupMemberIncrease { group_uin: u32, member_uin: u32, invitor_uin: Option<u32>, event_type: u32 },
    GroupMemberDecrease {
        group_uin: u32,
        member_uin: u32,
        member_uid: String,
        operator_uin: Option<u32>,
        event_type: u32,
    },
    GroupMute { group_uin: u32, operator_uin: Option<u32>, is_muted: bool },
    GroupMemberMute { group_uin: u32, operator_uin: Option<u32>, target_uin: u32, duration: u32 },
    GroupNameChange { group_uin: u32, name: String },
    GroupTodo { group_uin: u32, operator_uin: u32 },
    GroupReaction {
        target_group_uin: u32,
        target_sequence: u32,
        operator_uin: u32,
        is_add: bool,
        code: String,
        count: u32,
    },
    GroupRecall {
        group_uin: u32,
        author_uin: u32,
        operator_uin: u32,
        sequence: u32,
        time: u32,
        random: u32,
        tip: String,
    },
    GroupEssence { group_uin: u32, sequence: u32, random: u32, is_set: bool, from_uin: u32, operator_uin: u32 },
    GroupSpecialTitle {
        target_uin: u32,
        target_nickname: String,
        special_title: String,
        special_title_detail_url: String,
        group_uin: u32,
    },
    GroupMemberEnter { group_uin: u32, group_member_uin: u32, style_id: u32 },
    GroupInvitationRequest { group_uin: u32, target_uin: u32, invitor_uin: u32 },
    GroupPinChanged { chat_type: ChatType, uin: u32, is_pin: bool },
}

/// Events delivered on the friend channel.
#[derive(Debug)]
pub enum FriendEvent {
    FriendMessage { chain: MessageChain },
    FriendRecall { friend_uin: u32, client_sequence: u32, time: u32, random: u32, tip: String },
    FriendPoke { operator_uin: u32, target_uin: u32, action: String, suffix: String, action_url: String },
    FriendNew { from_uin: u32, from_nickname: String, msg: String },
    FriendRename { uin: u32, nickname: String },
    FriendRequest { source_uin: u32, message: String, source: String },
}

/// Events delivered on the system channel.
#[derive(Debug)]
pub enum SystemEvent {
    TempMessage { chain: MessageChain },
    BotRename { nickname: String },
}

/// An event together with the channel it is delivered on.
#[derive(Debug)]
pub enum Dispatch {
    Group(GroupEvent),
    Friend(FriendEvent),
    System(SystemEvent),
}

/// A pushed message is delivered by where it was sent: group messages to the
/// group channel, friend messages to the friend channel, temporary-chat
/// messages to the system channel; others are not delivered.
pub open spec fn spec_chain_dispatch(chain: MessageChain) -> Option<Dispatch> {
    match chain.typ {
        MessageType::Group(_) => Some(Dispatch::Group(GroupEvent::GroupMessage { chain })),
        MessageType::Friend(_) => Some(Dispatch::Friend(FriendEvent::FriendMessage { chain })),
        MessageType::Temp => Some(Dispatch::System(SystemEvent::TempMessage { chain })),
        MessageType::Other => None,
    }
}

/// Wraps a resolved pushed message into the event to deliver.
pub fn chain_dispatch(chain: MessageChain) -> (res: Option<Dispatch>)
    ensures
        res == spec_chain_dispatch(chain),
{
    match chain.typ {
        MessageType::Group(_) => Some(Dispatch::Group(GroupEvent::GroupMessage { chain })),
        MessageType::Friend(_) => Some(Dispatch::Friend(FriendEvent::FriendMessage { chain })),
        MessageType::Temp => Some(Dispatch::System(SystemEvent::TempMessage { chain })),
        MessageType::Other => None,
    }
}

// ----------------------------------------------------------------- lookups

/// A question about a user that handling a notice must ask.
#[derive(Debug)]
pub enum Lookup {
    /// The uin of a user who may be a stranger; the answer may be missing.
    StrangerUin { uid: String },
    /// The uin of a user who may be a stranger, from the fast path that
    /// always answers.
    StrangerUinFast { uid: String },
    /// The uin of a contact, within a group when one is given; the answer may
    /// be missing.
    MemberUin { uid: String, group_uin: Option<u32> },
    /// The uin of a contact, within a group when one is given, from the fast
    /// path that always answers.
    MemberUinFast { uid: String, group_uin: Option<u32> },
    /// The pending requests to join the bot's groups; the answer may be
    /// missing.
    GroupRequests,
}

/// A [`Lookup`] with its uids as text.
pub enum LookupView {
    StrangerUin { uid: Seq<char> },
    StrangerUinFast { uid: Seq<char> },
    MemberUin { uid: Seq<char>, group_uin: Option<u32> },
    MemberUinFast { uid: Seq<char>, group_uin: Option<u32> },
    GroupRequests,
}

impl View for Lookup {
    type V = LookupView;

    open spec fn view(&self) -> LookupView {
        match self {
            Lookup::StrangerUin { uid } => LookupView::StrangerUin { uid: uid@ },
            Lookup::StrangerUinFast { uid } => LookupView::StrangerUinFast { uid: uid@ },
            Lookup::MemberUin { uid, group_uin } => LookupView::MemberUin { uid: uid@, group_uin: *group_uin },
            Lookup::MemberUinFast { uid, group_uin } => LookupView::MemberUinFast { uid: uid@, group_uin: *group_uin },
            Lookup::GroupRequests => LookupView::GroupRequests,
        }
    }
}

/// The answer to a [`Lookup`].
#[derive(Debug)]
pub enum Answer {
    /// The answer of a fast lookup.
    Uin(u32),
    /// The answer of a lookup that may fail.
    MaybeUin(Option<u32>),
    /// The pending join requests, or `None` when they could not be fetched.
    Requests(Option<Vec<GroupJoinRequest>>),
}

/// The uid an optional uid stands for: itself, or the empty uid.
pub open spec fn uid_or_empty(u: Option<String>) -> Seq<char> {
    match u {
        Some(s) => s@,
        None => Seq::empty(),
    }
}

/// The lookups handling a notice makes, in order.
pub open spec fn spec_lookups(ev: IncomingEvent) -> Seq<LookupView> {
    match ev {
        IncomingEvent::GroupSysRequestJoin { target_uid, .. } => seq![
            LookupView::StrangerUin { uid: target_uid@ },
            LookupView::GroupRequests,
        ],
        IncomingEvent::GroupSysInvite { invitor_uid, .. } => seq![LookupView::StrangerUinFast { uid: invitor_uid@ }],
        IncomingEvent::GroupSysAdmin { group_uin, uid, .. } => seq![
            LookupView::MemberUinFast { uid: uid@, group_uin: Some(group_uin) },
        ],
        IncomingEvent::GroupSysIncrease { group_uin, member_uid, invitor_uid, .. } => seq![
            LookupView::StrangerUinFast { uid: member_uid@ },
            LookupView::MemberUin { uid: uid_or_empty(invitor_uid), group_uin: Some(group_uin) },
        ],
        IncomingEvent::GroupSysDecrease { group_uin, member_uid, operator_uid, .. } => seq![
            LookupView::StrangerUinFast { uid: member_uid@ },
            LookupView::MemberUin { uid: uid_or_empty(operator_uid), group_uin: Some(group_uin) },
        ],
        IncomingEvent::GroupSysMute { group_uin, operator_uid, .. } => seq![
            LookupView::MemberUinFast { uid: uid_or_empty(operator_uid), group_uin: Some(group_uin) },
        ],
        IncomingEvent::GroupSysMemberMute { group_uin, operator_uid, target_uid, .. } => match operator_uid {
            Some(op) => seq![
                LookupView::MemberUinFast { uid: op@, group_uin: Some(group_uin) },
                LookupView::StrangerUinFast { uid: target_uid@ },
            ],
            None => seq![LookupView::StrangerUinFast { uid: target_uid@ }],
        },
        IncomingEvent::GroupSysTodo { group_uin, operator_uid } => seq![
            LookupView::MemberUinFast { uid: operator_uid@, group_uin: Some(group_uin) },
        ],
        IncomingEvent::GroupSysReaction { target_group_uin, operator_uid, .. } => seq![
            LookupView::MemberUinFast { uid: operator_uid@, group_uin: Some(target_group_uin) },
        ],
        IncomingEvent::GroupSysRecall { group_uin, author_uid, operator_uid, .. } => match operator_uid {
            Some(op) => seq![
                LookupView::MemberUinFast { uid: author_uid@, group_uin: Some(group_uin) },
                LookupView::MemberUinFast { uid: op@, group_uin: Some(group_uin) },
            ],
            None => seq![LookupView::MemberUinFast { uid: author_uid@, group_uin: Some(group_uin) }],
        },
        IncomingEvent::GroupSysRequestInvitation { group_uin, target_uid, invitor_uid } => seq![
            LookupView::StrangerUinFast { uid: target_uid@ },
            LookupView::MemberUinFast { uid: invitor_uid@, group_uin: Some(group_uin) },
        ],
        IncomingEvent::FriendSysRecall { from_uid, .. } => seq![
            LookupView::MemberUinFast { uid: from_uid@, group_uin: None },
        ],
        IncomingEvent::GroupSysPinChange { uid, group_uin, .. } => seq![
            LookupView::MemberUinFast { uid: uid@, group_uin },
        ],
        IncomingEvent::FriendSysNew { from_uid, .. } => seq![
            LookupView::MemberUinFast { uid: from_uid@, group_uin: None },
        ],
        IncomingEvent::FriendSysRename { uid, .. } => seq![LookupView::MemberUinFast { uid: uid@, group_uin: None }],
        IncomingEvent::FriendSysRequest { source_uid, .. } => seq![
            LookupView::MemberUinFast { uid: source_uid@, group_uin: None },
        ],
        _ => Seq::empty(),
    }
}

/// Whether handling stops early: a join request is dropped as soon as its
/// target cannot be resolved.
pub open spec fn spec_aborted(ev: IncomingEvent, answers: Seq<Answer>) -> bool {
    &&& ev is GroupSysRequestJoin
    &&& answers.len() >= 1
    &&& answers[0] == Answer::MaybeUin(None)
}

/// The next lookup to make, given the answers so far; `None` once handling
/// needs no more.
pub open spec fn spec_next_lookup(ev: IncomingEvent, answers: Seq<Answer>) -> Option<LookupView> {
    if spec_aborted(ev, answers) || answers.len() >= spec_lookups(ev).len() {
        None
    } else {
        Some(spec_lookups(ev)[answers.len() as int])
    }
}

fn opt_uid(u: &Option<String>) -> (res: String)
    ensures
        res@ == uid_or_empty(*u),
{
    match u {
        Some(s) => s.clone(),
        None => String::new(),
    }
}

fn nth_lookup(ev: &IncomingEvent, n: usize) -> (res: Option<Lookup>)
    ensures
        n < spec_lookups(*ev).len() ==> (res matches Some(l) && l@ == spec_lookups(*ev)[n as int]),
        n >= spec_lookups(*ev).len() ==> res is None,
{
    match ev {
        IncomingEvent::GroupSysRequestJoin { target_uid, .. } => {
            if n == 0 {
                Some(Lookup::StrangerUin { uid: target_uid.clone() })
            } else if n == 1 {
                Some(Lookup::GroupRequests)
            } else {
                None
            }
        },
        IncomingEvent::GroupSysInvite { invitor_uid, .. } => {
            if n == 0 { Some(Lookup::StrangerUinFast { uid: invitor_uid.clone() }) } else { None }
        },
        IncomingEvent::GroupSysAdmin { group_uin, uid, .. } => {
            if n == 0 {
                Some(Lookup::MemberUinFast { uid: uid.clone(), group_uin: Some(*group_uin) })
            } else {
                None
            }
        },
        IncomingEvent::GroupSysIncrease { group_uin, member_uid, invitor_uid, .. } => {
            if n == 0 {
                Some(Lookup::StrangerUinFast { uid: member_uid.clone() })
            } else if n == 1 {
                Some(Lookup::MemberUin { uid: opt_uid(invitor_uid), group_uin: Some(*group_uin) })
            } else {
                None
            }
        },
        IncomingEvent::GroupSysDecrease { group_uin, member_uid, operator_uid, .. } => {
            if n == 0 {
                Some(Lookup::StrangerUinFast { uid: member_uid.clone() })
            } else if n == 1 {
                Some(Lookup::MemberUin { uid: opt_uid(operator_uid), group_uin: Some(*group_uin) })
            } else {
                None
            }
        },
        IncomingEvent::GroupSysMute { group_uin, operator_uid, .. } => {
            if n == 0 {
                Some(Lookup::MemberUinFast { uid: opt_uid(operator_uid), group_uin: Some(*group_uin) })
            } else {
                None
            }
        },
        IncomingEvent::GroupSysMemberMute { group_uin, operator_uid, target_uid, .. } => {
            match operator_uid {
                Some(op) => {
                    if n == 0 {
                        Some(Lookup::MemberUinFast { uid: op.clone(), group_uin: Some(*group_uin) })
                    } else if n == 1 {
                        Some(Lookup::StrangerUinFast { uid: target_uid.clone() })
                    } else {
                        None
                    }
                },
                None => {
                    if n == 0 { Some(Lookup::StrangerUinFast { uid: target_uid.clone() }) } else { None }
                },
            }
        },
        IncomingEvent::GroupSysTodo { group_uin, operator_uid } => {
            if n == 0 {
                Some(Lookup::MemberUinFast { uid: operator_uid.clone(), group_uin: Some(*group_uin) })
            } else {
                None
            }
        },
        IncomingEvent::GroupSysReaction { target_group_uin, operator_uid, .. } => {
            if n == 0 {
                Some(Lookup::MemberUinFast { uid: operator_uid.clone(), group_uin: Some(*target_group_uin) })
            } else {
                None
            }
        },
        IncomingEvent::GroupSysRecall { group_uin, author_uid, operator_uid, .. } => {
            if n == 0 {
                Some(Lookup::MemberUinFast { uid: author_uid.clone(), group_uin: Some(*group_uin) })
            } else if n == 1 {
                match operator_uid {
                    Some(op) => Some(Lookup::MemberUinFast { uid: op.clone(), group_uin: Some(*group_uin) }),
                    None => None,
                }
            } else {
                None
            }
        },
        IncomingEvent::GroupSysRequestInvitation { group_uin, target_uid, invitor_uid } => {
            if n == 0 {
                Some(Lookup::StrangerUinFast { uid: target_uid.clone() })
            } else if n == 1 {
                Some(Lookup::MemberUinFast { uid: invitor_uid.clone(), group_uin: Some(*group_uin) })
            } else {
                None
            }
        },
        IncomingEvent::FriendSysRecall { from_uid, .. } => {
            if n == 0 { Some(Lookup::MemberUinFast { uid: from_uid.clone(), group_uin: None }) } else { None }
        },
        IncomingEvent::GroupSysPinChange { uid, group_uin, .. } => {
            if n == 0 { Some(Lookup::MemberUinFast { uid: uid.clone(), group_uin: *group_uin }) } else { None }
        },
        IncomingEvent::FriendSysNew { from_uid, .. } => {
            if n == 0 { Some(Lookup::MemberUinFast { uid: from_uid.clone(), group_uin: None }) } else { None }
        },
        IncomingEvent::FriendSysRename { uid, .. } => {
            if n == 0 { Some(Lookup::MemberUinFast { uid: uid.clone(), group_uin: None }) } else { None }
        },
        IncomingEvent::FriendSysRequest { source_uid, .. } => {
            if n == 0 { Some(Lookup::MemberUinFast { uid: source_uid.clone(), group_uin: None }) } else { None }
        },
        _ => None,
    }
}

/// The next lookup handling `ev` needs, given the answers to the earlier ones;
/// `None` once the event can be emitted.
pub fn next_lookup(ev: &IncomingEvent, answers: &Vec<Answer>) -> (res: Option<Lookup>)
    ensures
        res is None <==> spec_next_lookup(*ev, answers@) is None,
        res matches Some(l) ==> spec_next_lookup(*ev, answers@) == Some(l@),
{
    let aborted = match ev {
        IncomingEvent::GroupSysRequestJoin { .. } => answers.len() >= 1 && match &answers[0] {
            Answer::MaybeUin(None) => true,
            _ => false,
        },
        _ => false,
    };
    if aborted {
        None
    } else {
        nth_lookup(ev, answers.len())
    }
}

// -------------------------------------------------------------------- emit

/// The uin answered to lookup `i` (0 when the answer is not a uin).
pub open spec fn uin_at(a: Seq<Answer>, i: int) -> u32 {
    match a[i] {
        Answer::Uin(u) => u,
        _ => 0,
    }
}

/// The uin, if any, answered to fallible lookup `i`.
pub open spec fn maybe_uin_at(a: Seq<Answer>, i: int) -> Option<u32> {
    match a[i] {
        Answer::MaybeUin(u) => u,
        _ => None,
    }
}

/// The first pending request to join group `group_uin` made by `target_uin`.
pub open spec fn find_request(s: Seq<GroupJoinRequest>, group_uin: u32, target_uin: u32) -> Option<
    GroupJoinRequest,
>
    decreases s.len(),
{
    if s.len() == 0 {
        None
    } else if s[0].group_uin == group_uin && s[0].target_member_uin == target_uin {
        Some(s[0])
    } else {
        find_request(s.drop_first(), group_uin, target_uin)
    }
}

/// The event a notice other than a join request yields, from the answers to
/// its lookups.
pub open spec fn spec_emit(ev: IncomingEvent, a: Seq<Answer>) -> Option<Dispatch> {
    match ev {
        IncomingEvent::GroupSysRequestJoin { .. } => None,
        IncomingEvent::GroupSysInvite { group_uin, .. } => Some(
            Dispatch::Group(GroupEvent::GroupInvitation { group_uin, invitor_uin: uin_at(a, 0), sequence: None }),
        ),
        IncomingEvent::GroupSysAdmin { group_uin, is_promoted, .. } => Some(
            Dispatch::Group(
                GroupEvent::GroupAdminChanged { group_uin, admin_uin: uin_at(a, 0), is_promote: is_promoted },
            ),
        ),
        IncomingEvent::GroupSysPoke { group_uin, operator_uin, target_uin, action, suffix, action_img_url } => Some(
            Dispatch::Group(
                GroupEvent::GroupPoke { group_uin, operator_uin, target_uin, action, suffix, action_img_url },
            ),
        ),
        IncomingEvent::GroupSysIncrease { group_uin, event_type, .. } => Some(
            Dispatch::Group(
                GroupEvent::GroupMemberIncrease {
                    group_uin,
                    member_uin: uin_at(a, 0),
                    invitor_uin: maybe_uin_at(a, 1),
                    event_type,
                },
            ),
        ),
        IncomingEvent::GroupSysDecrease { group_uin, member_uid, event_type, .. } => Some(
            Dispatch::Group(
                GroupEvent::GroupMemberDecrease {
                    group_uin,
                    member_uin: uin_at(a, 0),
                    member_uid,
                    operator_uin: maybe_uin_at(a, 1),
                    event_type,
                },
            ),
        ),
        IncomingEvent::GroupSysMute { group_uin, is_muted, .. } => Some(
            Dispatch::Group(GroupEvent::GroupMute { group_uin, operator_uin: Some(uin_at(a, 0)), is_muted }),
        ),
        IncomingEvent::GroupSysMemberMute { group_uin, operator_uid, duration, .. } => Some(
            Dispatch::Group(
                if operator_uid is Some {
                    GroupEvent::GroupMemberMute {
                        group_uin,
                        operator_uin: Some(uin_at(a, 0)),
                        target_uin: uin_at(a, 1),
                        duration,
                    }
                } else {
                    GroupEvent::GroupMemberMute { group_uin, operator_uin: None, target_uin: uin_at(a, 0), duration }
                },
            ),
        ),
        IncomingEvent::GroupSysNameChange { group_uin, name } => Some(
            Dispatch::Group(GroupEvent::GroupNameChange { group_uin, name }),
        ),
        IncomingEvent::GroupSysTodo { group_uin, .. } => Some(
            Dispatch::Group(GroupEvent::GroupTodo { group_uin, operator_uin: uin_at(a, 0) }),
        ),
        IncomingEvent::GroupSysReaction { target_group_uin, target_sequence, is_add, code, count, .. } => Some(
            Dispatch::Group(
                GroupEvent::GroupReaction {
                    target_group_uin,
                    target_sequence,
                    operator_uin: uin_at(a, 0),
                    is_add,
                    code,
                    count,
                },
            ),
        ),
        IncomingEvent::GroupSysRecall { group_uin, operator_uid, sequence, time, random, tip, .. } => Some(
            Dispatch::Group(
                GroupEvent::GroupRecall {
                    group_uin,
                    author_uin: uin_at(a, 0),
                    operator_uin: if operator_uid is Some { uin_at(a, 1) } else { 0 },
                    sequence,
                    time,
                    random,
                    tip,
                },
            ),
        ),
        IncomingEvent::GroupSysEssence { group_uin, sequence, random, set_flag, from_uin, operator_uin } => Some(
            Dispatch::Group(
                GroupEvent::GroupEssence { group_uin, sequence, random, is_set: set_flag, from_uin, operator_uin },
            ),
        ),
        IncomingEvent::GroupSysSpecialTitle {
            target_uin,
            target_nickname,
            special_title,
            special_title_detail_url,
            group_uin,
        } => Some(
            Dispatch::Group(
                GroupEvent::GroupSpecialTitle {
                    target_uin,
                    target_nickname,
                    special_title,
                    special_title_detail_url,
                    group_uin,
                },
            ),
        ),
        IncomingEvent::GroupSysMemberEnter { group_uin, group_member_uin, style_id } => Some(
            Dispatch::Group(GroupEvent::GroupMemberEnter { group_uin, group_member_uin, style_id }),
        ),
        IncomingEvent::GroupSysRequestInvitation { group_uin, .. } => Some(
            Dispatch::Group(
                GroupEvent::GroupInvitationRequest { group_uin, target_uin: uin_at(a, 0), invitor_uin: uin_at(a, 1) },
            ),
        ),
        IncomingEvent::FriendSysRecall { client_sequence, time, random, tip, .. } => Some(
            Dispatch::Friend(
                FriendEvent::FriendRecall { friend_uin: uin_at(a, 0), client_sequence, time, random, tip },
            ),
        ),
        IncomingEvent::GroupSysPinChange { group_uin, is_pin, .. } => Some(
            Dispatch::Group(
                GroupEvent::GroupPinChanged {
                    chat_type: if group_uin is Some { ChatType::Group } else { ChatType::Friend },
                    uin: uin_at(a, 0),
                    is_pin,
                },
            ),
        ),
        IncomingEvent::FriendSysPoke { operator_uin, target_uin, action, suffix, action_img_url } => Some(
            Dispatch::Friend(
                FriendEvent::FriendPoke { operator_uin, target_uin, action, suffix, action_url: action_img_url },
            ),
        ),
        IncomingEvent::FriendSysNew { from_nickname, msg, .. } => Some(
            Dispatch::Friend(FriendEvent::FriendNew { from_uin: uin_at(a, 0), from_nickname, msg }),
        ),
        IncomingEvent::FriendSysRename { nickname, .. } => Some(
            Dispatch::Friend(FriendEvent::FriendRename { uin: uin_at(a, 0), nickname }),
        ),
        IncomingEvent::FriendSysRequest { message, source, .. } => Some(
            Dispatch::Friend(FriendEvent::FriendRequest { source_uin: uin_at(a, 0), message, source }),
        ),
        IncomingEvent::BotSysRename { nickname } => Some(Dispatch::System(SystemEvent::BotRename { nickname })),
    }
}

/// What a join request notice yields: when its target was resolved and the
/// pending requests were fetched, the first request of that target to join
/// that group is delivered; otherwise nothing is.
pub open spec fn join_emitted(group_uin: u32, a: Seq<Answer>, res: Option<Dispatch>) -> bool {
            if a.len() >= 2 && a[0] is MaybeUin && a[0]->MaybeUin_0 is Some && a[1] is Requests
                && a[1]->Requests_0 is Some {
                let target = a[0]->MaybeUin_0->Some_0;
                match find_request(a[1]->Requests_0->Some_0@, group_uin, target) {
                    Some(r) => match res {
                        Some(Dispatch::Group(
                            GroupEvent::GroupJoinRequest {
                                group_uin: g,
                                target_uin,
                                target_nickname,
                                invitor_uin,
                                answer,
                                request_seq,
                            },
                        )) => {
                            &&& g == group_uin
                            &&& target_uin == target
                            &&& target_nickname == r.target_member_card
                            &&& invitor_uin == (match r.invitor_member_uin {
                                Some(u) => u,
                                None => 0,
                            })
                            &&& answer@ == uid_or_empty(r.comment)
                            &&& request_seq == r.sequence
                        },
                        _ => false,
                    },
                    None => res is None,
                }
            } else {
                res is None
            }
}

/// A notice after it was handled: the increase and decrease kinds and the
/// essence flag are moved out into the delivered event, leaving their
/// defaults behind.
pub open spec fn spec_after(ev: IncomingEvent) -> IncomingEvent {
    match ev {
        IncomingEvent::GroupSysIncrease { group_uin, member_uid, invitor_uid, .. } => IncomingEvent::GroupSysIncrease {
            group_uin,
            member_uid,
            invitor_uid,
            event_type: 0,
        },
        IncomingEvent::GroupSysDecrease { group_uin, member_uid, operator_uid, .. } => IncomingEvent::GroupSysDecrease {
            group_uin,
            member_uid,
            operator_uid,
            event_type: 0,
        },
        IncomingEvent::GroupSysEssence { group_uin, sequence, random, from_uin, operator_uin, .. } => IncomingEvent::GroupSysEssence {
            group_uin,
            sequence,
            random,
            set_flag: false,
            from_uin,
            operator_uin,
        },
        _ => ev,
    }
}

/// Whether the answers suffice to emit: every lookup was answered, or handling
/// stopped early.
pub open spec fn answered(ev: IncomingEvent, a: Seq<Answer>) -> bool {
    a.len() >= spec_lookups(ev).len() || spec_aborted(ev, a)
}

fn answer_uin(a: &Vec<Answer>, i: usize) -> (res: u32)
    requires
        i < a@.len(),
    ensures
        res == uin_at(a@, i as int),
{
    match &a[i] {
        Answer::Uin(u) => *u,
        _ => 0,
    }
}

fn answer_maybe_uin(a: &Vec<Answer>, i: usize) -> (res: Option<u32>)
    requires
        i < a@.len(),
    ensures
        res == maybe_uin_at(a@, i as int),
{
    match &a[i] {
        Answer::MaybeUin(u) => *u,
        _ => None,
    }
}

fn first_request(list: &Vec<GroupJoinRequest>, group_uin: u32, target_uin: u32) -> (res: Option<usize>)
    ensures
        match res {
            Some(k) => k < list@.len() && find_request(list@, group_uin, target_uin) == Some(list@[k as int]),
            None => find_request(list@, group_uin, target_uin) is None,
        },
{
    let n = list.len();
    assert(list@.skip(0) =~= list@);
    for i in 0..n
        invariant
            n == list@.len(),
            find_request(list@, group_uin, target_uin) == find_request(list@.skip(i as int), group_uin, target_uin),
    {
        assert(list@.skip(i as int).drop_first() =~= list@.skip(i + 1));
        if list[i].group_uin == group_uin && list[i].target_member_uin == target_uin {
            return Some(i);
        }
    }
    assert(list@.skip(n as int) =~= Seq::<GroupJoinRequest>::empty());
    None
}

fn emit_join(group_uin: u32, a: &Vec<Answer>) -> (res: Option<Dispatch>)
    ensures
        join_emitted(group_uin, a@, res),
{
    if a.len() < 2 {
        return None;
    }
    let target = match &a[0] {
        Answer::MaybeUin(Some(t)) => *t,
        _ => return None,
    };
    let list = match &a[1] {
        Answer::Requests(Some(list)) => list,
        _ => return None,
    };
    match first_request(list, group_uin, target) {
        Some(k) => {
            let r = &list[k];
            let answer = match &r.comment {
                Some(c) => c.clone(),
                None => String::new(),
            };
            Some(
                Dispatch::Group(
                    GroupEvent::GroupJoinRequest {
                        group_uin,
                        target_uin: target,
                        target_nickname: r.target_member_card.clone(),
                        invitor_uin: match r.invitor_member_uin {
                            Some(u) => u,
                            None => 0,
                        },
                        answer,
                        request_seq: r.sequence,
                    },
                ),
            )
        },
        None => None,
    }
}

/// Builds the event a handled notice yields, from the answers to its
/// lookups; `None` when nothing is delivered.
pub fn emit(ev: &mut IncomingEvent, answers: &Vec<Answer>) -> (res: Option<Dispatch>)
    requires
        answered(*old(ev), answers@),
    ensures
        *final(ev) == spec_after(*old(ev)),
        (*old(ev)) is GroupSysRequestJoin ==> join_emitted((*old(ev))->GroupSysRequestJoin_group_uin, answers@, res),
        !((*old(ev)) is GroupSysRequestJoin) ==> res == spec_emit(*old(ev), answers@),
{
    let a = answers;
    match ev {
        IncomingEvent::GroupSysRequestJoin { group_uin, .. } => emit_join(*group_uin, a),
        IncomingEvent::GroupSysInvite { group_uin, .. } => Some(
            Dispatch::Group(
                GroupEvent::GroupInvitation { group_uin: *group_uin, invitor_uin: answer_uin(a, 0), sequence: None },
            ),
        ),
        IncomingEvent::GroupSysAdmin { group_uin, is_promoted, .. } => Some(
            Dispatch::Group(
                GroupEvent::GroupAdminChanged {
                    group_uin: *group_uin,
                    admin_uin: answer_uin(a, 0),
                    is_promote: *is_promoted,
                },
            ),
        ),
        IncomingEvent::GroupSysPoke { group_uin, operator_uin, target_uin, action, suffix, action_img_url } => Some(
            Dispatch::Group(
                GroupEvent::GroupPoke {
                    group_uin: *group_uin,
                    operator_uin: *operator_uin,
                    target_uin: *target_uin,
                    action: action.clone(),
                    suffix: suffix.clone(),
                    action_img_url: action_img_url.clone(),
                },
            ),
        ),
        IncomingEvent::GroupSysIncrease { group_uin, event_type, .. } => {
            let kind = *event_type;
            *event_type = 0;
            Some(
                Dispatch::Group(
                    GroupEvent::GroupMemberIncrease {
                        group_uin: *group_uin,
                        member_uin: answer_uin(a, 0),
                        invitor_uin: answer_maybe_uin(a, 1),
                        event_type: kind,
                    },
                ),
            )
        },
        IncomingEvent::GroupSysDecrease { group_uin, member_uid, event_type, .. } => {
            let kind = *event_type;
            *event_type = 0;
            Some(
                Dispatch::Group(
                    GroupEvent::GroupMemberDecrease {
                        group_uin: *group_uin,
                        member_uin: answer_uin(a, 0),
                        member_uid: member_uid.clone(),
                        operator_uin: answer_maybe_uin(a, 1),
                        event_type: kind,
                    },
                ),
            )
        },
        IncomingEvent::GroupSysMute { group_uin, is_muted, .. } => Some(
            Dispatch::Group(
                GroupEvent::GroupMute {
                    group_uin: *group_uin,
                    operator_uin: Some(answer_uin(a, 0)),
                    is_muted: *is_muted,
                },
            ),
        ),
        IncomingEvent::GroupSysMemberMute { group_uin, operator_uid, duration, .. } => {
            let e = if operator_uid.is_some() {
                GroupEvent::GroupMemberMute {
                    group_uin: *group_uin,
                    operator_uin: Some(answer_uin(a, 0)),
                    target_uin: answer_uin(a, 1),
                    duration: *duration,
                }
            } else {
                GroupEvent::GroupMemberMute {
                    group_uin: *group_uin,
                    operator_uin: None,
                    target_uin: answer_uin(a, 0),
                    duration: *duration,
                }
            };
            Some(Dispatch::Group(e))
        },
        IncomingEvent::GroupSysNameChange { group_uin, name } => Some(
            Dispatch::Group(GroupEvent::GroupNameChange { group_uin: *group_uin, name: name.clone() }),
        ),
        IncomingEvent::GroupSysTodo { group_uin, .. } => Some(
            Dispatch::Group(GroupEvent::GroupTodo { group_uin: *group_uin, operator_uin: answer_uin(a, 0) }),
        ),
        IncomingEvent::GroupSysReaction { target_group_uin, target_sequence, is_add, code, count, .. } => Some(
            Dispatch::Group(
                GroupEvent::GroupReaction {
                    target_group_uin: *target_group_uin,
                    target_sequence: *target_sequence,
                    operator_uin: answer_uin(a, 0),
                    is_add: *is_add,
                    code: code.clone(),
                    count: *count,
                },
            ),
        ),
        IncomingEvent::GroupSysRecall { group_uin, operator_uid, sequence, time, random, tip, .. } => Some(
            Dispatch::Group(
                GroupEvent::GroupRecall {
                    group_uin: *group_uin,
                    author_uin: answer_uin(a, 0),
                    operator_uin: if operator_uid.is_some() { answer_uin(a, 1) } else { 0 },
                    sequence: *sequence,
                    time: *time,
                    random: *random,
                    tip: tip.clone(),
                },
            ),
        ),
        IncomingEvent::GroupSysEssence { group_uin, sequence, random, set_flag, from_uin, operator_uin } => {
            let is_set = *set_flag;
            *set_flag = false;
            Some(
                Dispatch::Group(
                    GroupEvent::GroupEssence {
                        group_uin: *group_uin,
                        sequence: *sequence,
                        random: *random,
                        is_set,
                        from_uin: *from_uin,
                        operator_uin: *operator_uin,
                    },
                ),
            )
        },
        IncomingEvent::GroupSysSpecialTitle {
            target_uin,
            target_nickname,
            special_title,
            special_title_detail_url,
            group_uin,
        } => Some(
            Dispatch::Group(
                GroupEvent::GroupSpecialTitle {
                    target_uin: *target_uin,
                    target_nickname: target_nickname.clone(),
                    special_title: special_title.clone(),
                    special_title_detail_url: special_title_detail_url.clone(),
                    group_uin: *group_uin,
                },
            ),
        ),
        IncomingEvent::GroupSysMemberEnter { group_uin, group_member_uin, style_id } => Some(
            Dispatch::Group(
                GroupEvent::GroupMemberEnter {
                    group_uin: *group_uin,
                    group_member_uin: *group_member_uin,
                    style_id: *style_id,
                },
            ),
        ),
        IncomingEvent::GroupSysRequestInvitation { group_uin, .. } => Some(
            Dispatch::Group(
                GroupEvent::GroupInvitationRequest {
                    group_uin: *group_uin,
                    target_uin: answer_uin(a, 0),
                    invitor_uin: answer_uin(a, 1),
                },
            ),
        ),
        IncomingEvent::FriendSysRecall { client_sequence, time, random, tip, .. } => Some(
            Dispatch::Friend(
                FriendEvent::FriendRecall {
                    friend_uin: answer_uin(a, 0),
                    client_sequence: *client_sequence,
                    time: *time,
                    random: *random,
                    tip: tip.clone(),
                },
            ),
        ),
        IncomingEvent::GroupSysPinChange { group_uin, is_pin, .. } => Some(
            Dispatch::Group(
                GroupEvent::GroupPinChanged {
                    chat_type: if group_uin.is_some() { ChatType::Group } else { ChatType::Friend },
                    uin: answer_uin(a, 0),
                    is_pin: *is_pin,
                },
            ),
        ),
        IncomingEvent::FriendSysPoke { operator_uin, target_uin, action, suffix, action_img_url } => Some(
            Dispatch::Friend(
                FriendEvent::FriendPoke {
                    operator_uin: *operator_uin,
                    target_uin: *target_uin,
                    action: action.clone(),
                    suffix: suffix.clone(),
                    action_url: action_img_url.clone(),
                },
            ),
        ),
        IncomingEvent::FriendSysNew { from_nickname, msg, .. } => Some(
            Dispatch::Friend(
                FriendEvent::FriendNew {
                    from_uin: answer_uin(a, 0),
                    from_nickname: from_nickname.clone(),
                    msg: msg.clone(),
                },
            ),
        ),
        IncomingEvent::FriendSysRename { nickname, .. } => Some(
            Dispatch::Friend(FriendEvent::FriendRename { uin: answer_uin(a, 0), nickname: nickname.clone() }),
        ),
        IncomingEvent::FriendSysRequest { message, source, .. } => Some(
            Dispatch::Friend(
                FriendEvent::FriendRequest {
                    source_uin: answer_uin(a, 0),
                    message: message.clone(),
                    source: source.clone(),
                },
            ),
        ),
        IncomingEvent::BotSysRename { nickname } => Some(
            Dispatch::System(SystemEvent::BotRename { nickname: nickname.clone() }),
        ),
    }
}

/// Asking for lookups until none is left always gathers what [`emit`] needs:
/// when there is no next lookup, the notice is answered.
pub proof fn law_done_means_answered(ev: IncomingEvent, answers: Seq<Answer>)
    requires
        spec_next_lookup(ev, answers) is None,
    ensures
        answered(ev, answers),
{
}

/// A notice is answered after at most as many lookups as it lists, and only a
/// join request can stop before all of them.
pub proof fn law_lookups_bounded(ev: IncomingEvent, answers: Seq<Answer>)
    requires
        spec_next_lookup(ev, answers) is Some,
    ensures
        answers.len() < spec_lookups(ev).len(),
        spec_lookups(ev).len() <= 2,
{
}

// ------------------------------------------------------- laws of notices

/// Each answer has the form its lookup calls for: a uin for a fast lookup,
/// an optional uin for one that may fail, the request list for the requests.
pub open spec fn well_kinded(ev: IncomingEvent, a: Seq<Answer>) -> bool {
    forall|k: int|
        0 <= k < a.len() && k < spec_lookups(ev).len() ==> match #[trigger] spec_lookups(ev)[k] {
            LookupView::StrangerUinFast { .. } => a[k] is Uin,
            LookupView::MemberUinFast { .. } => a[k] is Uin,
            LookupView::StrangerUin { .. } => a[k] is MaybeUin,
            LookupView::MemberUin { .. } => a[k] is MaybeUin,
            LookupView::GroupRequests => a[k] is Requests,
        }
}

/// The same question always gets the same answer.
pub open spec fn consistent(ev: IncomingEvent, a: Seq<Answer>) -> bool {
    forall|j: int, k: int|
        0 <= j < a.len() && 0 <= k < a.len() && j < spec_lookups(ev).len() && k < spec_lookups(ev).len()
            && #[trigger] spec_lookups(ev)[j] == #[trigger] spec_lookups(ev)[k] ==> a[j] == a[k]
}

/// Handling `ev` asks the lookup `l`, and `x` is the uin answered to it.
pub open spec fn answers_uin(ev: IncomingEvent, a: Seq<Answer>, l: LookupView, x: u32) -> bool {
    &&& exists|k: int| 0 <= k < spec_lookups(ev).len() && #[trigger] spec_lookups(ev)[k] == l
    &&& forall|k: int| 0 <= k < spec_lookups(ev).len() && #[trigger] spec_lookups(ev)[k] == l ==> a[k] == Answer::Uin(x)
}

/// Handling `ev` asks the fallible lookup `l`, and `x` is what was answered.
pub open spec fn answers_maybe(ev: IncomingEvent, a: Seq<Answer>, l: LookupView, x: Option<u32>) -> bool {
    &&& exists|k: int| 0 <= k < spec_lookups(ev).len() && #[trigger] spec_lookups(ev)[k] == l
    &&& forall|k: int| 0 <= k < spec_lookups(ev).len() && #[trigger] spec_lookups(ev)[k] == l ==> a[k] == Answer::MaybeUin(x)
}

/// The event delivered for notice `ev` with answers `a`: it goes to the
/// channel of the notice's kind, every value the notice carries reaches the
/// event unchanged, and every uin the event names is the answer to the lookup
/// of the matching uid (within the notice's group where there is one).
pub open spec fn delivers(ev: IncomingEvent, a: Seq<Answer>, out: Option<Dispatch>) -> bool {
    match ev {
        IncomingEvent::GroupSysRequestJoin { .. } => true,
        IncomingEvent::GroupSysInvite { group_uin, invitor_uid } => out matches Some(
            Dispatch::Group(GroupEvent::GroupInvitation { group_uin: g, invitor_uin, sequence }),
        ) && g == group_uin && sequence is None && answers_uin(
            ev,
            a,
            LookupView::StrangerUinFast { uid: invitor_uid@ },
            invitor_uin,
        ),
        IncomingEvent::GroupSysAdmin { group_uin, uid, is_promoted } => out matches Some(
            Dispatch::Group(GroupEvent::GroupAdminChanged { group_uin: g, admin_uin, is_promote }),
        ) && g == group_uin && is_promote == is_promoted && answers_uin(
            ev,
            a,
            LookupView::MemberUinFast { uid: uid@, group_uin: Some(group_uin) },
            admin_uin,
        ),
        IncomingEvent::GroupSysPoke { group_uin, operator_uin, target_uin, action, suffix, action_img_url } => out
            == Some(
            Dispatch::Group(
                GroupEvent::GroupPoke { group_uin, operator_uin, target_uin, action, suffix, action_img_url },
            ),
        ),
        IncomingEvent::GroupSysIncrease { group_uin, member_uid, invitor_uid, event_type } => out matches Some(
            Dispatch::Group(
                GroupEvent::GroupMemberIncrease { group_uin: g, member_uin, invitor_uin, event_type: t },
            ),
        ) && g == group_uin && t == event_type && answers_uin(
            ev,
            a,
            LookupView::StrangerUinFast { uid: member_uid@ },
            member_uin,
        ) && answers_maybe(
            ev,
            a,
            LookupView::MemberUin { uid: (match invitor_uid { Some(s) => s@, None => Seq::<char>::empty() }), group_uin: Some(group_uin) },
            invitor_uin,
        ),
        IncomingEvent::GroupSysDecrease { group_uin, member_uid, operator_uid, event_type } => out matches Some(
            Dispatch::Group(
                GroupEvent::GroupMemberDecrease { group_uin: g, member_uin, member_uid: m, operator_uin, event_type: t },
            ),
        ) && g == group_uin && m == member_uid && t == event_type && answers_uin(
            ev,
            a,
            LookupView::StrangerUinFast { uid: member_uid@ },
            member_uin,
        ) && answers_maybe(
            ev,
            a,
            LookupView::MemberUin { uid: (match operator_uid { Some(s) => s@, None => Seq::<char>::empty() }), group_uin: Some(group_uin) },
            operator_uin,
        ),
        IncomingEvent::GroupSysMute { group_uin, operator_uid, is_muted } => out matches Some(
            Dispatch::Group(GroupEvent::GroupMute { group_uin: g, operator_uin: Some(op), is_muted: m }),
        ) && g == group_uin && m == is_muted && answers_uin(
            ev,
            a,
            LookupView::MemberUinFast { uid: (match operator_uid { Some(s) => s@, None => Seq::<char>::empty() }), group_uin: Some(group_uin) },
            op,
        ),
        IncomingEvent::GroupSysMemberMute { group_uin, operator_uid, target_uid, duration } => out matches Some(
            Dispatch::Group(GroupEvent::GroupMemberMute { group_uin: g, operator_uin, target_uin, duration: d }),
        ) && g == group_uin && d == duration && answers_uin(
            ev,
            a,
            LookupView::StrangerUinFast { uid: target_uid@ },
            target_uin,
        ) && (operator_uid is None <==> operator_uin is None) && (operator_uid matches Some(op) ==> answers_uin(
            ev,
            a,
            LookupView::MemberUinFast { uid: op@, group_uin: Some(group_uin) },
            operator_uin->Some_0,
        )),
        IncomingEvent::GroupSysNameChange { group_uin, name } => out == Some(
            Dispatch::Group(GroupEvent::GroupNameChange { group_uin, name }),
        ),
        IncomingEvent::GroupSysTodo { group_uin, operator_uid } => out matches Some(
            Dispatch::Group(GroupEvent::GroupTodo { group_uin: g, operator_uin }),
        ) && g == group_uin && answers_uin(
            ev,
            a,
            LookupView::MemberUinFast { uid: operator_uid@, group_uin: Some(group_uin) },
            operator_uin,
        ),
        IncomingEvent::GroupSysReaction { target_group_uin, target_sequence, operator_uid, is_add, code, count } => out
            matches Some(
            Dispatch::Group(
                GroupEvent::GroupReaction {
                    target_group_uin: g,
                    target_sequence: s,
                    operator_uin,
                    is_add: add,
                    code: c,
                    count: n,
                },
            ),
        ) && g == target_group_uin && s == target_sequence && add == is_add && c == code && n == count
            && answers_uin(
            ev,
            a,
            LookupView::MemberUinFast { uid: operator_uid@, group_uin: Some(target_group_uin) },
            operator_uin,
        ),
        IncomingEvent::GroupSysRecall { group_uin, author_uid, operator_uid, sequence, time, random, tip } => out
            matches Some(
            Dispatch::Group(
                GroupEvent::GroupRecall { group_uin: g, author_uin, operator_uin, sequence: s, time: t, random: r, tip: tp },
            ),
        ) && g == group_uin && s == sequence && t == time && r == random && tp == tip && answers_uin(
            ev,
            a,
            LookupView::MemberUinFast { uid: author_uid@, group_uin: Some(group_uin) },
            author_uin,
        ) && match operator_uid {
            Some(op) => answers_uin(
                ev,
                a,
                LookupView::MemberUinFast { uid: op@, group_uin: Some(group_uin) },
                operator_uin,
            ),
            None => operator_uin == 0,
        },
        IncomingEvent::GroupSysEssence { group_uin, sequence, random, set_flag, from_uin, operator_uin } => out
            == Some(
            Dispatch::Group(
                GroupEvent::GroupEssence { group_uin, sequence, random, is_set: set_flag, from_uin, operator_uin },
            ),
        ),
        IncomingEvent::GroupSysSpecialTitle {
            target_uin,
            target_nickname,
            special_title,
            special_title_detail_url,
            group_uin,
        } => out == Some(
            Dispatch::Group(
                GroupEvent::GroupSpecialTitle {
                    target_uin,
                    target_nickname,
                    special_title,
                    special_title_detail_url,
                    group_uin,
                },
            ),
        ),
        IncomingEvent::GroupSysMemberEnter { group_uin, group_member_uin, style_id } => out == Some(
            Dispatch::Group(GroupEvent::GroupMemberEnter { group_uin, group_member_uin, style_id }),
        ),
        IncomingEvent::GroupSysRequestInvitation { group_uin, target_uid, invitor_uid } => out matches Some(
            Dispatch::Group(GroupEvent::GroupInvitationRequest { group_uin: g, target_uin, invitor_uin }),
        ) && g == group_uin && answers_uin(
            ev,
            a,
            LookupView::StrangerUinFast { uid: target_uid@ },
            target_uin,
        ) && answers_uin(
            ev,
            a,
            LookupView::MemberUinFast { uid: invitor_uid@, group_uin: Some(group_uin) },
            invitor_uin,
        ),
        IncomingEvent::FriendSysRecall { from_uid, client_sequence, time, random, tip } => out matches Some(
            Dispatch::Friend(
                FriendEvent::FriendRecall { friend_uin, client_sequence: s, time: t, random: r, tip: tp },
            ),
        ) && s == client_sequence && t == time && r == random && tp == tip && answers_uin(
            ev,
            a,
            LookupView::MemberUinFast { uid: from_uid@, group_uin: None },
            friend_uin,
        ),
        IncomingEvent::GroupSysPinChange { uid, group_uin, is_pin } => out matches Some(
            Dispatch::Group(GroupEvent::GroupPinChanged { chat_type, uin, is_pin: p }),
        ) && p == is_pin && (chat_type == ChatType::Group <==> group_uin is Some) && answers_uin(
            ev,
            a,
            LookupView::MemberUinFast { uid: uid@, group_uin },
            uin,
        ),
        IncomingEvent::FriendSysPoke { operator_uin, target_uin, action, suffix, action_img_url } => out == Some(
            Dispatch::Friend(
                FriendEvent::FriendPoke { operator_uin, target_uin, action, suffix, action_url: action_img_url },
            ),
        ),
        IncomingEvent::FriendSysNew { from_uid, from_nickname, msg } => out matches Some(
            Dispatch::Friend(FriendEvent::FriendNew { from_uin, from_nickname: n, msg: m }),
        ) && n == from_nickname && m == msg && answers_uin(
            ev,
            a,
            LookupView::MemberUinFast { uid: from_uid@, group_uin: None },
            from_uin,
        ),
        IncomingEvent::FriendSysRename { uid, nickname } => out matches Some(
            Dispatch::Friend(FriendEvent::FriendRename { uin, nickname: n }),
        ) && n == nickname && answers_uin(ev, a, LookupView::MemberUinFast { uid: uid@, group_uin: None }, uin),
        IncomingEvent::FriendSysRequest { source_uid, message, source } => out matches Some(
            Dispatch::Friend(FriendEvent::FriendRequest { source_uin, message: m, source: s }),
        ) && m == message && s == source && answers_uin(
            ev,
            a,
            LookupView::MemberUinFast { uid: source_uid@, group_uin: None },
            source_uin,
        ),
        IncomingEvent::BotSysRename { nickname } => out == Some(
            Dispatch::System(SystemEvent::BotRename { nickname }),
        ),
    }
}

/// Every notice but a join request is delivered once all its lookups are
/// answered: to the channel of its kind, with the values it carries and the
/// uins answered to the lookups of its uids.
pub proof fn law_notice_delivered(ev: IncomingEvent, a: Seq<Answer>)
    requires
        a.len() == spec_lookups(ev).len(),
        well_kinded(ev, a),
        consistent(ev, a),
    ensures
        delivers(ev, a, spec_emit(ev, a)),
{
    let l = spec_lookups(ev);
    if l.len() >= 1 {
        assert(l[0] == l[0]);
    }
    if l.len() >= 2 {
        assert(l[1] == l[1]);
    }
}

/// Whether pending request `r` is `target_uin`'s request to join `group_uin`.
pub open spec fn is_request_of(r: GroupJoinRequest, group_uin: u32, target_uin: u32) -> bool {
    r.group_uin == group_uin && r.target_member_uin == target_uin
}

proof fn lemma_find_request_first(s: Seq<GroupJoinRequest>, g: u32, t: u32)
    ensures
        match find_request(s, g, t) {
            Some(r) => exists|k: int|
                0 <= k < s.len() && s[k] == r && is_request_of(s[k], g, t) && forall|j: int|
                    0 <= j < k ==> !is_request_of(#[trigger] s[j], g, t),
            None => forall|k: int| 0 <= k < s.len() ==> !is_request_of(#[trigger] s[k], g, t),
        },
    decreases s.len(),
{
    if s.len() > 0 {
        lemma_find_request_first(s.drop_first(), g, t);
        if is_request_of(s[0], g, t) {
            assert(s[0] == s[0]);
        } else {
            match find_request(s.drop_first(), g, t) {
                Some(r) => {
                    let k = choose|k: int|
                        0 <= k < s.drop_first().len() && s.drop_first()[k] == r && is_request_of(
                            s.drop_first()[k],
                            g,
                            t,
                        ) && forall|j: int| 0 <= j < k ==> !is_request_of(#[trigger] s.drop_first()[j], g, t);
                    assert forall|j: int| 0 <= j < k + 1 implies !is_request_of(#[trigger] s[j], g, t) by {
                        if j > 0 {
                            assert(s[j] == s.drop_first()[j - 1]);
                        }
                    }
                    assert(s[k + 1] == s.drop_first()[k]);
                },
                None => {
                    assert forall|k: int| 0 <= k < s.len() implies !is_request_of(#[trigger] s[k], g, t) by {
                        if k > 0 {
                            assert(s[k] == s.drop_first()[k - 1]);
                        }
                    }
                },
            }
        }
    }
}

/// A join request first asks who its target is, then for the pending
/// requests. It stops at once when the target cannot be resolved. It is
/// delivered exactly when the target was resolved, the requests were fetched
/// and one of them is the target's request to join the notice's group; the
/// event then carries the first such request's card, invitor (0 when
/// unknown), comment (empty when none) and sequence.
pub proof fn law_join_request(group_uin: u32, target_uid: String, a: Seq<Answer>, out: Option<Dispatch>)
    requires
        join_emitted(group_uin, a, out),
    ensures
        ({
            let ev = IncomingEvent::GroupSysRequestJoin { group_uin, target_uid };
            &&& spec_lookups(ev).len() == 2
            &&& spec_lookups(ev)[0] == LookupView::StrangerUin { uid: target_uid@ }
            &&& spec_lookups(ev)[1] == LookupView::GroupRequests
            &&& (a.len() >= 1 && a[0] == Answer::MaybeUin(None)) ==> spec_next_lookup(ev, a) is None
        }),
        (a.len() >= 1 && a[0] == Answer::MaybeUin(None)) ==> out is None,
        (a.len() >= 2 && a[1] == Answer::Requests(None)) ==> out is None,
        forall|t: u32, list: Vec<GroupJoinRequest>|
            a.len() >= 2 && a[0] == Answer::MaybeUin(Some(t)) && #[trigger] a[1] == Answer::Requests(Some(list))
                ==> ((out is Some) <==> exists|k: int| 0 <= k < list@.len() && is_request_of(#[trigger] list@[k], group_uin, t)),
        out matches Some(d) ==> exists|t: u32, list: Vec<GroupJoinRequest>, k: int|
            a[0] == Answer::MaybeUin(Some(t)) && a[1] == Answer::Requests(Some(list)) && 0 <= k < list@.len()
                && is_request_of(list@[k], group_uin, t) && (forall|j: int| 0 <= j < k ==> !is_request_of(#[trigger] list@[j], group_uin, t))
                && (d matches Dispatch::Group(
                GroupEvent::GroupJoinRequest { group_uin: g, target_uin, target_nickname, invitor_uin, answer, request_seq },
            ) && g == group_uin && target_uin == t && target_nickname == list@[k].target_member_card
                && invitor_uin == (match list@[k].invitor_member_uin {
                Some(u) => u,
                None => 0,
            }) && answer@ == (match list@[k].comment { Some(c) => c@, None => Seq::<char>::empty() }) && request_seq == list@[k].sequence),
{
    if a.len() >= 2 && a[0] is MaybeUin && a[0]->MaybeUin_0 is Some && a[1] is Requests && a[1]->Requests_0 is Some {
        let t = a[0]->MaybeUin_0->Some_0;
        let list = a[1]->Requests_0->Some_0;
        lemma_find_request_first(list@, group_uin, t);
        match find_request(list@, group_uin, t) {
            Some(r) => {
                let k = choose|k: int|
                    0 <= k < list@.len() && list@[k] == r && is_request_of(list@[k], group_uin, t) && forall|j: int|
                        0 <= j < k ==> !is_request_of(#[trigger] list@[j], group_uin, t);
                assert(is_request_of(list@[k], group_uin, t));
            },
            None => {},
        }
    }
}

/// Notices that ask two questions ask them in a fixed order: who the
/// subject (member, target, author) is before who acted on them.
pub proof fn law_lookups_in_order(ev: IncomingEvent)
    ensures
        ev matches IncomingEvent::GroupSysIncrease { member_uid, .. } ==> (spec_lookups(ev)[0]
            == LookupView::StrangerUinFast { uid: member_uid@ }),
        ev matches IncomingEvent::GroupSysDecrease { member_uid, .. } ==> (spec_lookups(ev)[0]
            == LookupView::StrangerUinFast { uid: member_uid@ }),
        ev matches IncomingEvent::GroupSysRequestInvitation { target_uid, .. } ==> (spec_lookups(ev)[0]
            == LookupView::StrangerUinFast { uid: target_uid@ }),
        ev matches IncomingEvent::GroupSysRecall { group_uin, author_uid, .. } ==> (spec_lookups(ev)[0]
            == LookupView::MemberUinFast { uid: author_uid@, group_uin: Some(group_uin) }),
        ev matches IncomingEvent::GroupSysMemberMute { group_uin, operator_uid: Some(op), .. } ==> (spec_lookups(ev)[0]
            == LookupView::MemberUinFast { uid: op@, group_uin: Some(group_uin) }),
{
}

/// A pushed message is delivered whole, on the channel of where it was sent:
/// group messages on the group channel, friend messages on the friend
/// channel, temporary-chat messages on the system channel; others are not
/// delivered.
pub proof fn law_chain_routing(chain: MessageChain)
    ensures
        chain.typ is Group ==> (spec_chain_dispatch(chain) == Some(Dispatch::Group(GroupEvent::GroupMessage { chain }))),
        chain.typ is Friend ==> (spec_chain_dispatch(chain) == Some(Dispatch::Friend(FriendEvent::FriendMessage { chain }))),
        chain.typ is Temp ==> (spec_chain_dispatch(chain) == Some(Dispatch::System(SystemEvent::TempMessage { chain }))),
        chain.typ is Other ==> (spec_chain_dispatch(chain) is None),
{
}

/// Handling a notice leaves it as it was, except that an increase's or
/// decrease's kind and an essence's flag are moved out, leaving 0 and `false`.
pub proof fn law_notice_after(ev: IncomingEvent)
    ensures
        !(ev is GroupSysIncrease || ev is GroupSysDecrease || ev is GroupSysEssence) ==> spec_after(ev) == ev,
        ev matches IncomingEvent::GroupSysIncrease { group_uin, member_uid, invitor_uid, .. } ==> (spec_after(ev)
            == IncomingEvent::GroupSysIncrease { group_uin, member_uid, invitor_uid, event_type: 0 }),
        ev matches IncomingEvent::GroupSysDecrease { group_uin, member_uid, operator_uid, .. } ==> (spec_after(ev)
            == IncomingEvent::GroupSysDecrease { group_uin, member_uid, operator_uid, event_type: 0 }),
        ev matches IncomingEvent::GroupSysEssence { group_uin, sequence, random, from_uin, operator_uin, .. } ==> (spec_after(ev)
            == IncomingEvent::GroupSysEssence { group_uin, sequence, random, set_flag: false, from_uin, operator_uin }),
{
}

} // verus!
