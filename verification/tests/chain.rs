use mania::chain::{retry_after, upload_outcome, video_group_flag, video_hashes, BusinessError};
use mania::chain::{
    apply_friends, apply_group_members, apply_reply, fallback, incoming_step, metadata_fetch,
    outgoing_upload, C2cFileUnique, Entity, Fetch, FileEntity, FileUnique, Friend, FriendElem,
    GroupElem, GroupFileUnique, GroupMember, ImageEntity, MessageChain, MessageType, MetadataFetch,
    MultiMsgEntity, RecordEntity, Reply, Upload, VideoEntity,
};
use mania::config::FetchGroupMemberStrategy;
use mania::media::{IndexNode, MsgInfo, MsgInfoBody};

fn node(uuid: &str) -> IndexNode {
    IndexNode { info: None, file_uuid: uuid.to_string(), store_id: 0, upload_time: 0, ttl: 0, sub_type: 0 }
}

fn group_chain(entities: Vec<Entity>) -> MessageChain {
    MessageChain {
        typ: MessageType::Group(GroupElem { group_uin: 100, group_member_info: None }),
        friend_uin: 7,
        uid: "u_self".to_string(),
        entities,
    }
}

fn friend_chain(uid: &str, entities: Vec<Entity>) -> MessageChain {
    MessageChain {
        typ: MessageType::Friend(FriendElem { friend_info: None }),
        friend_uin: 7,
        uid: uid.to_string(),
        entities,
    }
}

fn image(url: &str, with_node: bool) -> Entity {
    Entity::Image(ImageEntity {
        url: url.to_string(),
        msg_info: Some(MsgInfo {
            msg_info_body: vec![MsgInfoBody { index: if with_node { Some(node("img")) } else { None } }],
        }),
    })
}

#[test]
fn metadata_fetch_depends_on_kind_and_strategy() {
    let g = group_chain(vec![]);
    assert_eq!(metadata_fetch(&g, FetchGroupMemberStrategy::Simple), None);
    assert_eq!(
        metadata_fetch(&g, FetchGroupMemberStrategy::Full),
        Some(MetadataFetch::GroupMembers { group_uin: 100 })
    );
    let f = friend_chain("", vec![]);
    assert_eq!(
        metadata_fetch(&f, FetchGroupMemberStrategy::Simple),
        Some(MetadataFetch::Friends { friend_uin: 7 })
    );
}

#[test]
fn group_members_attach_sender_and_fill_uid() {
    let mut c = group_chain(vec![]);
    c.uid = String::new();
    let members = vec![
        GroupMember { uin: 5, uid: "u5".into() },
        GroupMember { uin: 7, uid: "u7".into() },
        GroupMember { uin: 7, uid: "u7b".into() },
    ];
    apply_group_members(&mut c, Some(members), 999);
    assert_eq!(c.uid, "u7");
    match &c.typ {
        MessageType::Group(g) => {
            assert_eq!(g.group_uin, 100);
            assert_eq!(g.group_member_info.as_ref().unwrap().uid, "u7");
        }
        _ => panic!(),
    }
}

#[test]
fn group_members_use_self_uin_for_own_messages() {
    let mut c = group_chain(vec![]);
    c.friend_uin = 0;
    let members = vec![GroupMember { uin: 999, uid: "me".into() }];
    apply_group_members(&mut c, Some(members), 999);
    assert_eq!(c.uid, "u_self");
    match &c.typ {
        MessageType::Group(g) => assert_eq!(g.group_member_info.as_ref().unwrap().uin, 999),
        _ => panic!(),
    }
}

#[test]
fn failed_member_fetch_clears_member() {
    let mut c = group_chain(vec![]);
    c.typ = MessageType::Group(GroupElem {
        group_uin: 100,
        group_member_info: Some(GroupMember { uin: 7, uid: "old".into() }),
    });
    apply_group_members(&mut c, None, 1);
    match &c.typ {
        MessageType::Group(g) => assert!(g.group_member_info.is_none()),
        _ => panic!(),
    }
    assert_eq!(c.uid, "u_self");
}

#[test]
fn friends_attach_only_when_found() {
    let mut c = friend_chain("", vec![]);
    apply_friends(&mut c, Some(vec![Friend { uin: 8, uid: "u8".into() }]));
    assert_eq!(c.uid, "");
    match &c.typ {
        MessageType::Friend(f) => assert!(f.friend_info.is_none()),
        _ => panic!(),
    }
    apply_friends(&mut c, Some(vec![Friend { uin: 7, uid: "u7".into() }]));
    assert_eq!(c.uid, "u7");
    let mut d = friend_chain("keep", vec![]);
    apply_friends(&mut d, Some(vec![Friend { uin: 7, uid: "u7".into() }]));
    assert_eq!(d.uid, "keep");
}

#[test]
fn applying_members_twice_changes_nothing_more() {
    let mut c = group_chain(vec![]);
    c.uid = String::new();
    let members = || vec![GroupMember { uin: 7, uid: "u7".into() }];
    apply_group_members(&mut c, Some(members()), 0);
    let once = format!("{:?}", c);
    apply_group_members(&mut c, Some(members()), 0);
    assert_eq!(format!("{:?}", c), once);
}

#[test]
fn image_with_rkey_is_left_alone() {
    let mut c = group_chain(vec![image("http://x/y?a=1&rkey=abc", true)]);
    assert!(incoming_step(&mut c, 0).is_none());
}

#[test]
fn image_without_node_is_left_alone() {
    let mut c = group_chain(vec![image("http://x/y", false)]);
    assert!(incoming_step(&mut c, 0).is_none());
}

#[test]
fn image_downloads_by_chain_kind() {
    let mut c = group_chain(vec![image("http://x/y", true)]);
    match incoming_step(&mut c, 0) {
        Some(Fetch::GroupImage { group_uin, node }) => {
            assert_eq!(group_uin, 100);
            assert_eq!(node.file_uuid, "img");
        }
        other => panic!("{:?}", other),
    }
    apply_reply(&mut c, 0, Reply::Url(Some("http://x/y&rkey=1".into())));
    match &c.entities[0] {
        Entity::Image(i) => assert_eq!(i.url, "http://x/y&rkey=1"),
        _ => panic!(),
    }
    let mut f = friend_chain("u", vec![image("http://x/y", true)]);
    assert!(matches!(incoming_step(&mut f, 0), Some(Fetch::C2cImage { .. })));
    apply_reply(&mut f, 0, Reply::Url(None));
    match &f.entities[0] {
        Entity::Image(i) => assert_eq!(i.url, "http://x/y"),
        _ => panic!(),
    }
}

#[test]
fn other_chains_skip_media() {
    let mut c = group_chain(vec![image("http://x/y", true)]);
    c.typ = MessageType::Other;
    assert!(incoming_step(&mut c, 0).is_none());
}

#[test]
fn multi_msg_fetched_only_when_empty() {
    let mut c = friend_chain("me", vec![Entity::MultiMsg(MultiMsgEntity { res_id: "r1".into(), chains: vec![] })]);
    match incoming_step(&mut c, 0) {
        Some(Fetch::MultiMsg { uid, res_id }) => {
            assert_eq!(uid, "me");
            assert_eq!(res_id, "r1");
        }
        other => panic!("{:?}", other),
    }
    apply_reply(&mut c, 0, Reply::Chains(Some(vec![friend_chain("x", vec![])])));
    match &c.entities[0] {
        Entity::MultiMsg(m) => assert_eq!(m.chains.len(), 1),
        _ => panic!(),
    }
    assert!(incoming_step(&mut c, 0).is_none());
}

#[test]
fn file_without_location_loses_url() {
    let mut c = group_chain(vec![Entity::File(FileEntity { file_url: Some("old".into()), extra: None })]);
    assert!(incoming_step(&mut c, 0).is_none());
    match &c.entities[0] {
        Entity::File(f) => assert!(f.file_url.is_none()),
        _ => panic!(),
    }
}

#[test]
fn files_download_by_location() {
    let mut c = group_chain(vec![Entity::File(FileEntity {
        file_url: None,
        extra: Some(FileUnique::Group(GroupFileUnique { file_id: Some("fid".into()) })),
    })]);
    match incoming_step(&mut c, 0) {
        Some(Fetch::GroupFile { group_uin, file_id }) => {
            assert_eq!(group_uin, 100);
            assert_eq!(file_id, "fid");
        }
        other => panic!("{:?}", other),
    }
    apply_reply(&mut c, 0, Reply::Url(Some("http://f".into())));
    match &c.entities[0] {
        Entity::File(f) => assert_eq!(f.file_url.as_deref(), Some("http://f")),
        _ => panic!(),
    }
    apply_reply(&mut c, 0, Reply::Url(None));
    match &c.entities[0] {
        Entity::File(f) => assert!(f.file_url.is_none()),
        _ => panic!(),
    }
    let mut f = friend_chain("me", vec![Entity::File(FileEntity {
        file_url: None,
        extra: Some(FileUnique::C2C(C2cFileUnique { file_uuid: "fu".into(), file_hash: "fh".into() })),
    })]);
    match incoming_step(&mut f, 0) {
        Some(Fetch::C2cFile { file_uuid, file_hash, uid }) => {
            assert_eq!((file_uuid.as_str(), file_hash.as_str(), uid.as_str()), ("fu", "fh", "me"));
        }
        other => panic!("{:?}", other),
    }
    // A group file in a private chat is not resolved.
    let mut g = friend_chain("me", vec![Entity::File(FileEntity {
        file_url: Some("keep".into()),
        extra: Some(FileUnique::Group(GroupFileUnique { file_id: Some("fid".into()) })),
    })]);
    assert!(incoming_step(&mut g, 0).is_none());
    match &g.entities[0] {
        Entity::File(f) => assert_eq!(f.file_url.as_deref(), Some("keep")),
        _ => panic!(),
    }
}

#[test]
fn records_by_node_or_uuid() {
    let rec = |info: bool, uuid: Option<&str>| {
        Entity::Record(RecordEntity {
            msg_info: if info { Some(MsgInfo { msg_info_body: vec![MsgInfoBody { index: Some(node("r")) }] }) } else { None },
            audio_uuid: uuid.map(|s| s.to_string()),
            audio_url: String::new(),
        })
    };
    let mut c = group_chain(vec![rec(true, Some("x")), rec(false, Some("au")), rec(false, None)]);
    assert!(matches!(incoming_step(&mut c, 0), Some(Fetch::GroupRecordByNode { group_uin: 100, node: Some(_) })));
    match incoming_step(&mut c, 1) {
        Some(Fetch::GroupRecordByUuid { group_uin, uuid }) => {
            assert_eq!(group_uin, 100);
            assert_eq!(uuid, "au");
        }
        other => panic!("{:?}", other),
    }
    assert!(incoming_step(&mut c, 2).is_none());
    apply_reply(&mut c, 1, Reply::Url(Some("http://a".into())));
    match &c.entities[1] {
        Entity::Record(r) => assert_eq!(r.audio_url, "http://a"),
        _ => panic!(),
    }
}

#[test]
fn group_video_falls_back_to_group_service() {
    let v = Entity::Video(VideoEntity { file_name: "v.mp4".into(), node: Some(node("v")), video_url: String::new() });
    let mut c = group_chain(vec![v]);
    let f = incoming_step(&mut c, 0).unwrap();
    match &f {
        Fetch::GroupVideo { friend_uin, group_uin, file_name, node } => {
            assert_eq!((*friend_uin, *group_uin, file_name.as_str()), (7, 100, "v.mp4"));
            assert_eq!(node.as_ref().unwrap().file_uuid, "v");
        }
        other => panic!("{:?}", other),
    }
    match fallback(&f) {
        Some(Fetch::GroupVideoFallback { group_uin, file_name, node }) => {
            assert_eq!((group_uin, file_name.as_str()), (100, "v.mp4"));
            assert!(node.is_some());
        }
        other => panic!("{:?}", other),
    }
    let mut d = friend_chain("me", vec![Entity::Video(VideoEntity { file_name: "w".into(), node: None, video_url: String::new() })]);
    let g = incoming_step(&mut d, 0).unwrap();
    assert!(matches!(&g, Fetch::C2cVideo { uid, .. } if uid == "me"));
    assert!(fallback(&g).is_none());
    apply_reply(&mut d, 0, Reply::Url(Some("http://v".into())));
    match &d.entities[0] {
        Entity::Video(v) => assert_eq!(v.video_url, "http://v"),
        _ => panic!(),
    }
}

#[test]
fn outgoing_uploads() {
    let c = group_chain(vec![image("a", true), Entity::Other]);
    assert_eq!(outgoing_upload(&c, 0), Some(Upload::GroupImage { group_uin: 100 }));
    assert_eq!(outgoing_upload(&c, 1), None);
    let f = friend_chain("me", vec![Entity::Video(VideoEntity { file_name: "w".into(), node: None, video_url: String::new() })]);
    assert_eq!(outgoing_upload(&f, 0), Some(Upload::C2cVideo { uid: "me".into() }));
    let mut t = friend_chain("me", vec![Entity::Record(RecordEntity { msg_info: None, audio_uuid: None, audio_url: String::new() })]);
    t.typ = MessageType::Temp;
    assert_eq!(outgoing_upload(&t, 0), Some(Upload::C2cRecord { uid: "me".into() }));
}

#[test]
fn settled_file_asks_again_for_nothing() {
    let mut c = group_chain(vec![Entity::File(FileEntity { file_url: Some("x".into()), extra: None })]);
    assert!(incoming_step(&mut c, 0).is_none());
    let once = format!("{:?}", c);
    assert!(incoming_step(&mut c, 0).is_none());
    assert_eq!(format!("{:?}", c), once);
}

#[test]
fn image_with_keyed_url_is_not_fetched_again() {
    let mut c = group_chain(vec![image("http://x/y", true)]);
    assert!(incoming_step(&mut c, 0).is_some());
    apply_reply(&mut c, 0, Reply::Url(Some("http://x/y?f=1&rkey=k".into())));
    assert!(incoming_step(&mut c, 0).is_none());
}

#[test]
fn whole_chain_resolution_changes_only_media() {
    let mut c = group_chain(vec![
        image("http://x/y", true),
        Entity::Other,
        Entity::File(FileEntity { file_url: Some("x".into()), extra: None }),
        Entity::Video(VideoEntity { file_name: "v".into(), node: None, video_url: String::new() }),
    ]);
    for i in 0..c.entities.len() {
        if incoming_step(&mut c, i).is_some() {
            apply_reply(&mut c, i, Reply::Url(Some(format!("http://done/{}", i))));
        }
    }
    assert_eq!(c.entities.len(), 4);
    assert_eq!(c.uid, "u_self");
    assert_eq!(c.friend_uin, 7);
    assert!(matches!(&c.entities[0], Entity::Image(i) if i.url == "http://done/0" && i.msg_info.is_some()));
    assert!(matches!(&c.entities[1], Entity::Other));
    assert!(matches!(&c.entities[2], Entity::File(f) if f.file_url.is_none() && f.extra.is_none()));
    assert!(matches!(&c.entities[3], Entity::Video(v) if v.video_url == "http://done/3" && v.file_name == "v"));
}

#[test]
fn retry_only_after_failed_group_video() {
    let gv = Fetch::GroupVideo { friend_uin: 1, group_uin: 2, file_name: "v".into(), node: None };
    assert!(matches!(retry_after(&gv, &Reply::Url(None)), Some(Fetch::GroupVideoFallback { group_uin: 2, .. })));
    assert!(retry_after(&gv, &Reply::Url(Some("u".into()))).is_none());
    let img = Fetch::C2cImage { node: node("n") };
    assert!(retry_after(&img, &Reply::Url(None)).is_none());
    assert_eq!(video_group_flag(&gv), Some(true));
    let cv = Fetch::C2cVideo { uid: "u".into(), file_name: "v".into(), node: None };
    assert_eq!(video_group_flag(&cv), Some(false));
    assert_eq!(video_group_flag(&img), None);
    let h = video_hashes();
    assert_eq!(h.file_md5, "");
    assert_eq!(h.file_sha1.as_deref(), Some(""));
}

#[test]
fn failed_upload_stops_with_generic_error() {
    assert!(upload_outcome(Ok(())).is_ok());
    match upload_outcome(Err("boom".to_string())) {
        Err(BusinessError::GenericError(m)) => assert_eq!(m, "boom"),
        Ok(()) => panic!(),
    }
}
