use mania::chain::{FriendElem, GroupElem, MessageChain, MessageType};
use mania::events::{
    chain_dispatch, emit, next_lookup, Answer, ChatType, Dispatch, FriendEvent, GroupEvent,
    GroupJoinRequest, IncomingEvent, Lookup, SystemEvent,
};

fn run(ev: &mut IncomingEvent, answer: impl Fn(&Lookup) -> Answer) -> (Vec<Lookup>, Option<Dispatch>) {
    let mut answers = Vec::new();
    let mut asked = Vec::new();
    while let Some(l) = next_lookup(ev, &answers) {
        answers.push(answer(&l));
        asked.push(l);
    }
    (asked, emit(ev, &answers))
}

#[test]
fn poke_needs_no_lookup() {
    let mut ev = IncomingEvent::GroupSysPoke {
        group_uin: 1,
        operator_uin: 2,
        target_uin: 3,
        action: "pat".into(),
        suffix: "s".into(),
        action_img_url: "u".into(),
    };
    let (asked, out) = run(&mut ev, |_| panic!("no lookup expected"));
    assert!(asked.is_empty());
    match out {
        Some(Dispatch::Group(GroupEvent::GroupPoke { group_uin, operator_uin, target_uin, action, suffix, action_img_url })) => {
            assert_eq!((group_uin, operator_uin, target_uin), (1, 2, 3));
            assert_eq!((action.as_str(), suffix.as_str(), action_img_url.as_str()), ("pat", "s", "u"));
        }
        other => panic!("{:?}", other),
    }
}

#[test]
fn recall_resolves_author_then_operator() {
    let mut ev = IncomingEvent::GroupSysRecall {
        group_uin: 10,
        author_uid: "a".into(),
        operator_uid: Some("o".into()),
        sequence: 4,
        time: 5,
        random: 6,
        tip: "t".into(),
    };
    let (asked, out) = run(&mut ev, |l| match l {
        Lookup::MemberUinFast { uid, group_uin: Some(10) } if uid == "a" => Answer::Uin(111),
        Lookup::MemberUinFast { uid, group_uin: Some(10) } if uid == "o" => Answer::Uin(222),
        other => panic!("{:?}", other),
    });
    assert_eq!(asked.len(), 2);
    match out {
        Some(Dispatch::Group(GroupEvent::GroupRecall { group_uin, author_uin, operator_uin, sequence, time, random, tip })) => {
            assert_eq!((group_uin, author_uin, operator_uin, sequence, time, random), (10, 111, 222, 4, 5, 6));
            assert_eq!(tip, "t");
        }
        other => panic!("{:?}", other),
    }
}

#[test]
fn recall_without_operator_has_operator_zero() {
    let mut ev = IncomingEvent::GroupSysRecall {
        group_uin: 10,
        author_uid: "a".into(),
        operator_uid: None,
        sequence: 0,
        time: 0,
        random: 0,
        tip: String::new(),
    };
    let (asked, out) = run(&mut ev, |_| Answer::Uin(111));
    assert_eq!(asked.len(), 1);
    assert!(matches!(out, Some(Dispatch::Group(GroupEvent::GroupRecall { author_uin: 111, operator_uin: 0, .. }))));
}

#[test]
fn increase_moves_kind_out_and_tolerates_failed_invitor() {
    let mut ev = IncomingEvent::GroupSysIncrease { group_uin: 3, member_uid: "m".into(), invitor_uid: None, event_type: 130 };
    let (asked, out) = run(&mut ev, |l| match l {
        Lookup::StrangerUinFast { uid } if uid == "m" => Answer::Uin(42),
        Lookup::MemberUin { uid, group_uin: Some(3) } if uid.is_empty() => Answer::MaybeUin(None),
        other => panic!("{:?}", other),
    });
    assert_eq!(asked.len(), 2);
    match out {
        Some(Dispatch::Group(GroupEvent::GroupMemberIncrease { group_uin, member_uin, invitor_uin, event_type })) => {
            assert_eq!((group_uin, member_uin, invitor_uin, event_type), (3, 42, None, 130));
        }
        other => panic!("{:?}", other),
    }
    assert!(matches!(ev, IncomingEvent::GroupSysIncrease { event_type: 0, .. }));
}

#[test]
fn decrease_carries_member_uid() {
    let mut ev = IncomingEvent::GroupSysDecrease { group_uin: 3, member_uid: "m".into(), operator_uid: Some("op".into()), event_type: 3 };
    let (_, out) = run(&mut ev, |l| match l {
        Lookup::StrangerUinFast { .. } => Answer::Uin(42),
        Lookup::MemberUin { uid, .. } if uid == "op" => Answer::MaybeUin(Some(9)),
        other => panic!("{:?}", other),
    });
    match out {
        Some(Dispatch::Group(GroupEvent::GroupMemberDecrease { member_uin, member_uid, operator_uin, event_type, .. })) => {
            assert_eq!((member_uin, member_uid.as_str(), operator_uin, event_type), (42, "m", Some(9), 3));
        }
        other => panic!("{:?}", other),
    }
}

#[test]
fn essence_moves_flag_out() {
    let mut ev = IncomingEvent::GroupSysEssence { group_uin: 1, sequence: 2, random: 3, set_flag: true, from_uin: 4, operator_uin: 5 };
    let (_, out) = run(&mut ev, |_| panic!());
    assert!(matches!(out, Some(Dispatch::Group(GroupEvent::GroupEssence { is_set: true, from_uin: 4, operator_uin: 5, .. }))));
    assert!(matches!(ev, IncomingEvent::GroupSysEssence { set_flag: false, .. }));
}

#[test]
fn member_mute_with_and_without_operator() {
    let mut ev = IncomingEvent::GroupSysMemberMute { group_uin: 1, operator_uid: Some("op".into()), target_uid: "t".into(), duration: 60 };
    let (asked, out) = run(&mut ev, |l| match l {
        Lookup::MemberUinFast { uid, group_uin: Some(1) } if uid == "op" => Answer::Uin(5),
        Lookup::StrangerUinFast { uid } if uid == "t" => Answer::Uin(6),
        other => panic!("{:?}", other),
    });
    assert_eq!(asked.len(), 2);
    assert!(matches!(out, Some(Dispatch::Group(GroupEvent::GroupMemberMute { operator_uin: Some(5), target_uin: 6, duration: 60, .. }))));
    let mut ev2 = IncomingEvent::GroupSysMemberMute { group_uin: 1, operator_uid: None, target_uid: "t".into(), duration: 0 };
    let (asked2, out2) = run(&mut ev2, |_| Answer::Uin(6));
    assert_eq!(asked2.len(), 1);
    assert!(matches!(out2, Some(Dispatch::Group(GroupEvent::GroupMemberMute { operator_uin: None, target_uin: 6, .. }))));
}

#[test]
fn mute_looks_up_empty_uid_when_operator_unknown() {
    let mut ev = IncomingEvent::GroupSysMute { group_uin: 8, operator_uid: None, is_muted: true };
    let (asked, out) = run(&mut ev, |l| match l {
        Lookup::MemberUinFast { uid, group_uin: Some(8) } if uid.is_empty() => Answer::Uin(0),
        other => panic!("{:?}", other),
    });
    assert_eq!(asked.len(), 1);
    assert!(matches!(out, Some(Dispatch::Group(GroupEvent::GroupMute { group_uin: 8, operator_uin: Some(0), is_muted: true }))));
}

#[test]
fn pin_change_kind_follows_group() {
    let mut ev = IncomingEvent::GroupSysPinChange { uid: "x".into(), group_uin: Some(4), is_pin: true };
    let (_, out) = run(&mut ev, |_| Answer::Uin(77));
    assert!(matches!(out, Some(Dispatch::Group(GroupEvent::GroupPinChanged { chat_type: ChatType::Group, uin: 77, is_pin: true }))));
    let mut ev2 = IncomingEvent::GroupSysPinChange { uid: "x".into(), group_uin: None, is_pin: false };
    let (asked, out2) = run(&mut ev2, |l| match l {
        Lookup::MemberUinFast { group_uin: None, .. } => Answer::Uin(78),
        other => panic!("{:?}", other),
    });
    assert_eq!(asked.len(), 1);
    assert!(matches!(out2, Some(Dispatch::Group(GroupEvent::GroupPinChanged { chat_type: ChatType::Friend, uin: 78, is_pin: false }))));
}

#[test]
fn friend_events_go_to_friend_channel() {
    let mut ev = IncomingEvent::FriendSysRename { uid: "f".into(), nickname: "nick".into() };
    let (_, out) = run(&mut ev, |_| Answer::Uin(3));
    match out {
        Some(Dispatch::Friend(FriendEvent::FriendRename { uin, nickname })) => {
            assert_eq!(uin, 3);
            assert_eq!(nickname, "nick");
        }
        other => panic!("{:?}", other),
    }
    let mut poke = IncomingEvent::FriendSysPoke { operator_uin: 1, target_uin: 2, action: "a".into(), suffix: "b".into(), action_img_url: "c".into() };
    let (_, out2) = run(&mut poke, |_| panic!());
    assert!(matches!(out2, Some(Dispatch::Friend(FriendEvent::FriendPoke { action_url, .. })) if action_url == "c"));
}

#[test]
fn bot_rename_goes_to_system_channel() {
    let mut ev = IncomingEvent::BotSysRename { nickname: "bot".into() };
    let (_, out) = run(&mut ev, |_| panic!());
    assert!(matches!(out, Some(Dispatch::System(SystemEvent::BotRename { nickname })) if nickname == "bot"));
}

fn join(target: &str) -> IncomingEvent {
    IncomingEvent::GroupSysRequestJoin { group_uin: 50, target_uid: target.into() }
}

fn request(group: u32, target: u32, comment: Option<&str>) -> GroupJoinRequest {
    GroupJoinRequest {
        group_uin: group,
        target_member_uin: target,
        target_member_card: format!("card{}", target),
        invitor_member_uin: None,
        comment: comment.map(|s| s.to_string()),
        sequence: 900 + target as u64,
    }
}

#[test]
fn join_request_matches_group_and_target() {
    let mut ev = join("t");
    let (asked, out) = run(&mut ev, |l| match l {
        Lookup::StrangerUin { uid } if uid == "t" => Answer::MaybeUin(Some(8)),
        Lookup::GroupRequests => Answer::Requests(Some(vec![request(51, 8, None), request(50, 9, None), request(50, 8, None), request(50, 8, Some("later"))])),
        other => panic!("{:?}", other),
    });
    assert_eq!(asked.len(), 2);
    match out {
        Some(Dispatch::Group(GroupEvent::GroupJoinRequest { group_uin, target_uin, target_nickname, invitor_uin, answer, request_seq })) => {
            assert_eq!((group_uin, target_uin, invitor_uin, request_seq), (50, 8, 0, 908));
            assert_eq!(target_nickname, "card8");
            assert_eq!(answer, "");
        }
        other => panic!("{:?}", other),
    }
}

#[test]
fn join_request_stops_when_target_unknown() {
    let mut ev = join("t");
    let (asked, out) = run(&mut ev, |l| match l {
        Lookup::StrangerUin { .. } => Answer::MaybeUin(None),
        other => panic!("{:?}", other),
    });
    assert_eq!(asked.len(), 1);
    assert!(out.is_none());
}

#[test]
fn join_request_without_match_or_list_is_dropped() {
    let mut ev = join("t");
    let (_, out) = run(&mut ev, |l| match l {
        Lookup::StrangerUin { .. } => Answer::MaybeUin(Some(8)),
        _ => Answer::Requests(Some(vec![request(50, 9, None)])),
    });
    assert!(out.is_none());
    let mut ev2 = join("t");
    let (_, out2) = run(&mut ev2, |l| match l {
        Lookup::StrangerUin { .. } => Answer::MaybeUin(Some(8)),
        _ => Answer::Requests(None),
    });
    assert!(out2.is_none());
}

#[test]
fn pushed_messages_dispatch_by_kind() {
    let chain = |typ| MessageChain { typ, friend_uin: 1, uid: String::new(), entities: vec![] };
    assert!(matches!(chain_dispatch(chain(MessageType::Group(GroupElem { group_uin: 1, group_member_info: None }))), Some(Dispatch::Group(GroupEvent::GroupMessage { .. }))));
    assert!(matches!(chain_dispatch(chain(MessageType::Friend(FriendElem { friend_info: None }))), Some(Dispatch::Friend(FriendEvent::FriendMessage { .. }))));
    assert!(matches!(chain_dispatch(chain(MessageType::Temp)), Some(Dispatch::System(SystemEvent::TempMessage { .. }))));
    assert!(chain_dispatch(chain(MessageType::Other)).is_none());
}
