use mania::media::{FileInfo, IndexNode};
use mania::video::{DownloadInfo, DownloadResp, EventError, Ntv2RichMediaResp, VideoGroupDownloadEvent};

fn event() -> VideoGroupDownloadEvent {
    VideoGroupDownloadEvent {
        video_url: String::new(),
        uuid: "uuid-1".into(),
        self_uid: "me".into(),
        file_name: "clip.mp4".into(),
        file_md5: "md5".into(),
        file_sha1: None,
        node: None,
        group_uin: 12345,
    }
}

#[test]
fn build_targets_oidb_11ea_200() {
    let req = event().build();
    assert_eq!(req.command, 0x11ea);
    assert_eq!(req.sub_command, 200);
    assert!(!req.is_lafter);
    assert!(req.is_uid);
    let head = req.body.req_head.unwrap();
    let common = head.common.unwrap();
    assert_eq!((common.request_id, common.command), (1, 200));
    let scene = head.scene.unwrap();
    assert_eq!((scene.request_type, scene.business_type, scene.scene_type), (2, 2, 2));
    assert_eq!(scene.group.unwrap().group_uin, 12345);
    assert_eq!(head.client.unwrap().agent_type, 2);
}

#[test]
fn build_makes_node_from_fields() {
    let req = event().build();
    let dl = req.body.download.unwrap();
    let video = dl.download.unwrap().video.unwrap();
    assert_eq!((video.busi_type, video.scene_type), (0, 0));
    let node = dl.node.unwrap();
    assert_eq!(node.file_uuid, "uuid-1");
    let info = node.info.unwrap();
    assert_eq!(info.file_hash, "md5");
    assert_eq!(info.file_sha1, "");
    assert_eq!(info.file_name, "clip.mp4");
    assert_eq!(info.typ.unwrap().typ, 2);
    assert_eq!(info.file_size, 0);
}

#[test]
fn build_keeps_own_node() {
    let mut e = event();
    e.file_sha1 = Some("sha".into());
    e.node = Some(IndexNode {
        info: Some(FileInfo {
            file_size: 9,
            file_hash: "h".into(),
            file_sha1: "s".into(),
            file_name: "n".into(),
            typ: None,
            width: 1,
            height: 2,
            time: 3,
            original: 0,
        }),
        file_uuid: "given".into(),
        store_id: 1,
        upload_time: 2,
        ttl: 3,
        sub_type: 4,
    });
    let node = e.build().body.download.unwrap().node.unwrap();
    assert_eq!(node.file_uuid, "given");
    assert_eq!(node.info.unwrap().file_size, 9);
}

#[test]
fn parse_builds_url() {
    let resp = Ntv2RichMediaResp {
        download: Some(DownloadResp {
            info: Some(DownloadInfo { domain: "multimedia.example.com".into(), url_path: "/download?appid=1".into() }),
            r_key_param: "&rkey=XYZ".into(),
        }),
    };
    let ev = VideoGroupDownloadEvent::parse(resp).unwrap();
    assert_eq!(ev.video_url, "https://multimedia.example.com/download?appid=1&rkey=XYZ");
    assert_eq!(ev.group_uin, 0);
    assert!(ev.node.is_none());
}

#[test]
fn parse_reports_missing_parts() {
    match VideoGroupDownloadEvent::parse(Ntv2RichMediaResp { download: None }) {
        Err(EventError::OtherError(m)) => assert_eq!(m, "Missing Ntv2RichMediaResp download response"),
        Ok(_) => panic!(),
    }
    let resp = Ntv2RichMediaResp { download: Some(DownloadResp { info: None, r_key_param: String::new() }) };
    match VideoGroupDownloadEvent::parse(resp) {
        Err(EventError::OtherError(m)) => assert_eq!(m, "Missing Ntv2RichMediaResp download info"),
        Ok(_) => panic!(),
    }
}

#[test]
fn default_event_is_empty() {
    let e = VideoGroupDownloadEvent::default();
    assert_eq!(e.video_url, "");
    assert_eq!(e.group_uin, 0);
    assert!(e.file_sha1.is_none());
}

#[test]
fn build_ignores_url_and_uid() {
    let a = event();
    let mut b = event();
    b.video_url = "https://elsewhere".into();
    b.self_uid = "someone".into();
    assert_eq!(format!("{:?}", a.build()), format!("{:?}", b.build()));
}
