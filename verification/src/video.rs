//! The OIDB 0x11ea/200 exchange that resolves the download URL of a group
//! video: the request it sends and how its reply is read.

use vstd::prelude::*;

use crate::media::{clone_node, FileInfo, FileType, IndexNode};

verus! {

/// Asks for, and then carries, the download URL of a video sent in a group.
#[derive(Debug)]
pub struct VideoGroupDownloadEvent {
    pub video_url: String,
    pub uuid: String,
    pub self_uid: String,
    pub file_name: String,
    pub file_md5: String,
    pub file_sha1: Option<String>,
    pub node: Option<IndexNode>,
    pub group_uin: u32,
}

/// Every field but the URL is empty.
pub open spec fn carries_only_url(e: VideoGroupDownloadEvent) -> bool {
    &&& e.uuid@ == Seq::<char>::empty()
    &&& e.self_uid@ == Seq::<char>::empty()
    &&& e.file_name@ == Seq::<char>::empty()
    &&& e.file_md5@ == Seq::<char>::empty()
    &&& e.file_sha1 is None
    &&& e.node is None
    &&& e.group_uin == 0
}

/// The empty event: no text, no hash, no node, group 0.
pub open spec fn is_empty_event(e: VideoGroupDownloadEvent) -> bool {
    e.video_url@ == Seq::<char>::empty() && carries_only_url(e)
}

impl Default for VideoGroupDownloadEvent {
    fn default() -> (res: Self)
        ensures
            is_empty_event(res),
    {
        VideoGroupDownloadEvent {
            video_url: String::new(),
            uuid: String::new(),
            self_uid: String::new(),
            file_name: String::new(),
            file_md5: String::new(),
            file_sha1: None,
            node: None,
            group_uin: 0,
        }
    }
}

#[derive(Debug, PartialEq, Eq, Structural)]
pub struct CommonHead {
    pub request_id: u32,
    pub command: u32,
}

#[derive(Debug, PartialEq, Eq, Structural)]
pub struct NtGroupInfo {
    pub group_uin: u32,
}

#[derive(Debug, PartialEq, Eq, Structural)]
pub struct SceneInfo {
    pub request_type: u32,
    pub business_type: u32,
    pub scene_type: u32,
    pub group: Option<NtGroupInfo>,
}

#[derive(Debug, PartialEq, Eq, Structural)]
pub struct ClientMeta {
    pub agent_type: u32,
}

#[derive(Debug, PartialEq, Eq, Structural)]
pub struct MultiMediaReqHead {
    pub common: Option<CommonHead>,
    pub scene: Option<SceneInfo>,
    pub client: Option<ClientMeta>,
}

#[derive(Debug, PartialEq, Eq, Structural)]
pub struct VideoDownloadExt {
    pub busi_type: u32,
    pub scene_type: u32,
}

#[derive(Debug, PartialEq, Eq, Structural)]
pub struct DownloadExt {
    pub video: Option<VideoDownloadExt>,
}

#[derive(Debug)]
pub struct DownloadReq {
    pub node: Option<IndexNode>,
    pub download: Option<DownloadExt>,
}

/// The rich-media request; fields not listed keep their defaults.
#[derive(Debug)]
pub struct Ntv2RichMediaReq {
    pub req_head: Option<MultiMediaReqHead>,
    pub download: Option<DownloadReq>,
}

/// An OIDB service request: command, sub-command, body and the two flags of
/// the OIDB envelope.
#[derive(Debug)]
pub struct OidbRequest {
    pub command: u32,
    pub sub_command: u32,
    pub body: Ntv2RichMediaReq,
    pub is_lafter: bool,
    pub is_uid: bool,
}

/// The head of a group video download request for `group_uin`.
pub open spec fn spec_video_req_head(group_uin: u32) -> MultiMediaReqHead {
    MultiMediaReqHead {
        common: Some(CommonHead { request_id: 1, command: 200 }),
        scene: Some(
            SceneInfo {
                request_type: 2,
                business_type: 2,
                scene_type: 2,
                group: Some(NtGroupInfo { group_uin }),
            },
        ),
        client: Some(ClientMeta { agent_type: 2 }),
    }
}

/// The index node built from the event's own fields when it carries none:
/// a video file (type 2) of unknown size named by the event, hashed by its MD5
/// and SHA-1 (empty when unknown), stored under its uuid.
pub open spec fn is_node_of_event(n: IndexNode, e: VideoGroupDownloadEvent) -> bool {
    &&& n.info matches Some(info) && {
        &&& info.file_size == 0
        &&& info.file_hash == e.file_md5
        &&& info.file_sha1@ == (match e.file_sha1 {
            Some(s) => s@,
            None => Seq::<char>::empty(),
        })
        &&& info.file_name == e.file_name
        &&& info.typ == Some(FileType { typ: 2, pic_format: 0, video_format: 0, voice_format: 0 })
        &&& info.width == 0 && info.height == 0 && info.time == 0 && info.original == 0
    }
    &&& n.file_uuid == e.uuid
    &&& n.store_id == 0 && n.upload_time == 0 && n.ttl == 0 && n.sub_type == 0
}

/// `r` is the request `e` sends: OIDB 0x11ea/200, not "lafter", by uid,
/// with the group video head for the event's group, asking to download the
/// event's node (or one built from its fields) as a video.
pub open spec fn is_build_of(r: OidbRequest, e: VideoGroupDownloadEvent) -> bool {
    &&& r.command == 0x11ea
    &&& r.sub_command == 200
    &&& !r.is_lafter
    &&& r.is_uid
    &&& r.body.req_head == Some(spec_video_req_head(e.group_uin))
    &&& r.body.download matches Some(d) && {
        &&& d.download == Some(DownloadExt { video: Some(VideoDownloadExt { busi_type: 0, scene_type: 0 }) })
        &&& d.node matches Some(n) && (match e.node {
            Some(own) => n == own,
            None => is_node_of_event(n, e),
        })
    }
}

/// Two index nodes that agree in every field, the SHA-1 by its text.
pub open spec fn same_node(a: IndexNode, b: IndexNode) -> bool {
    &&& a.file_uuid == b.file_uuid
    &&& a.store_id == b.store_id
    &&& a.upload_time == b.upload_time
    &&& a.ttl == b.ttl
    &&& a.sub_type == b.sub_type
    &&& match (a.info, b.info) {
        (Some(x), Some(y)) => {
            &&& x.file_size == y.file_size
            &&& x.file_hash == y.file_hash
            &&& x.file_sha1@ == y.file_sha1@
            &&& x.file_name == y.file_name
            &&& x.typ == y.typ
            &&& x.width == y.width
            &&& x.height == y.height
            &&& x.time == y.time
            &&& x.original == y.original
        },
        (None, None) => true,
        _ => false,
    }
}

/// Two requests that agree in every field, the SHA-1 by its text.
pub open spec fn same_request(a: OidbRequest, b: OidbRequest) -> bool {
    &&& a.command == b.command
    &&& a.sub_command == b.sub_command
    &&& a.is_lafter == b.is_lafter
    &&& a.is_uid == b.is_uid
    &&& a.body.req_head == b.body.req_head
    &&& a.body.download matches Some(da) && b.body.download matches Some(db) && {
        &&& da.download == db.download
        &&& da.node matches Some(na) && db.node matches Some(nb) && same_node(na, nb)
    }
}

/// The request an event sends depends only on its group, node, uuid, file
/// name and hashes: not on its URL or its uid.
pub proof fn law_build_depends_on_request_fields(
    a: VideoGroupDownloadEvent,
    b: VideoGroupDownloadEvent,
    ra: OidbRequest,
    rb: OidbRequest,
)
    requires
        is_build_of(ra, a),
        is_build_of(rb, b),
        a.group_uin == b.group_uin,
        a.node == b.node,
        a.uuid == b.uuid,
        a.file_name == b.file_name,
        a.file_md5 == b.file_md5,
        a.file_sha1 == b.file_sha1,
    ensures
        same_request(ra, rb),
{
}

impl VideoGroupDownloadEvent {
    /// The request this event sends: OIDB 0x11ea/200 asking to download the
    /// event's node (or one built from its fields) as a group video.
    pub fn build(&self) -> (res: OidbRequest)
        ensures
            is_build_of(res, *self),
    {
        let node = match &self.node {
            Some(n) => n.clone(),
            None => IndexNode {
                info: Some(
                    FileInfo {
                        file_size: 0,
                        file_hash: self.file_md5.clone(),
                        file_sha1: match &self.file_sha1 {
                            Some(s) => s.clone(),
                            None => String::new(),
                        },
                        file_name: self.file_name.clone(),
                        typ: Some(FileType { typ: 2, pic_format: 0, video_format: 0, voice_format: 0 }),
                        width: 0,
                        height: 0,
                        time: 0,
                        original: 0,
                    },
                ),
                file_uuid: self.uuid.clone(),
                store_id: 0,
                upload_time: 0,
                ttl: 0,
                sub_type: 0,
            },
        };
        let body = Ntv2RichMediaReq {
            req_head: Some(
                MultiMediaReqHead {
                    common: Some(CommonHead { request_id: 1, command: 200 }),
                    scene: Some(
                        SceneInfo {
                            request_type: 2,
                            business_type: 2,
                            scene_type: 2,
                            group: Some(NtGroupInfo { group_uin: self.group_uin }),
                        },
                    ),
                    client: Some(ClientMeta { agent_type: 2 }),
                },
            ),
            download: Some(
                DownloadReq {
                    node: Some(node),
                    download: Some(
                        DownloadExt { video: Some(VideoDownloadExt { busi_type: 0, scene_type: 0 }) },
                    ),
                },
            ),
        };
        OidbRequest { command: 0x11ea, sub_command: 200, body, is_lafter: false, is_uid: true }
    }
}

#[derive(Debug)]
pub struct DownloadInfo {
    pub domain: String,
    pub url_path: String,
}

#[derive(Debug)]
pub struct DownloadResp {
    pub info: Option<DownloadInfo>,
    pub r_key_param: String,
}

/// The rich-media reply; fields not listed are not read.
#[derive(Debug)]
pub struct Ntv2RichMediaResp {
    pub download: Option<DownloadResp>,
}

/// Why a reply could not be read.
#[derive(Debug)]
pub enum EventError {
    OtherError(String),
}

/// The download URL a reply gives: `https://`, the domain, the path and the
/// key parameter, in that order.
pub open spec fn spec_video_url(resp: DownloadResp) -> Seq<char> {
    "https://"@ + resp.info->Some_0.domain@ + resp.info->Some_0.url_path@ + resp.r_key_param@
}

impl VideoGroupDownloadEvent {
    /// Reads the reply: the event it yields carries the download URL and
    /// nothing else; a reply without a download part or without its info is
    /// an error naming what is missing.
    pub fn parse(resp: Ntv2RichMediaResp) -> (res: Result<VideoGroupDownloadEvent, EventError>)
        ensures
            match resp.download {
                None => res matches Err(EventError::OtherError(m)) && m@
                    == "Missing Ntv2RichMediaResp download response"@,
                Some(d) => match d.info {
                    None => res matches Err(EventError::OtherError(m)) && m@
                        == "Missing Ntv2RichMediaResp download info"@,
                    Some(_) => res matches Ok(e) && e.video_url@ == spec_video_url(d)
                        && carries_only_url(e),
                },
            },
    {
        let download = match resp.download {
            Some(d) => d,
            None => {
                return Err(EventError::OtherError("Missing Ntv2RichMediaResp download response".to_owned()));
            },
        };
        let info = match &download.info {
            Some(i) => i,
            None => {
                return Err(EventError::OtherError("Missing Ntv2RichMediaResp download info".to_owned()));
            },
        };
        let mut url = "https://".to_owned();
        url.append(info.domain.as_str());
        url.append(info.url_path.as_str());
        url.append(download.r_key_param.as_str());
        let mut ev = VideoGroupDownloadEvent::default();
        ev.video_url = url;
        Ok(ev)
    }
}

/// The download URL reads `https://`, then the domain, then the path, then
/// the key parameter, with nothing between or around them.
pub proof fn law_video_url(resp: DownloadResp)
    requires
        resp.info is Some,
    ensures
        ({
            let u = spec_video_url(resp);
            let d = resp.info->Some_0.domain@;
            let dl = d.len() as int;
            let p = resp.info->Some_0.url_path@;
            let pl = p.len() as int;
            let k = resp.r_key_param@;
            &&& u.len() == 8 + dl + p.len() + k.len()
            &&& u.subrange(0, 8) == seq!['h', 't', 't', 'p', 's', ':', '/', '/']
            &&& u.subrange(8, 8 + dl) == d
            &&& u.subrange(8 + dl, 8 + dl + pl) == p
            &&& u.subrange(8 + dl + pl, u.len() as int) == k
        }),
{
    reveal_strlit("https://");
    let u = spec_video_url(resp);
    let d = resp.info->Some_0.domain@;
            let dl = d.len() as int;
    let p = resp.info->Some_0.url_path@;
            let pl = p.len() as int;
    let k = resp.r_key_param@;
    assert(u.subrange(0, 8) =~= seq!['h', 't', 't', 'p', 's', ':', '/', '/']);
    assert(u.subrange(8, 8 + dl) =~= d);
    assert(u.subrange(8 + dl, 8 + dl + pl) =~= p);
    assert(u.subrange(8 + dl + pl, u.len() as int) =~= k);
}

/// The request asks for the event's own node when it has one; otherwise for a
/// node built from the event: a video file (type 2) of size 0 with the event's
/// MD5, SHA-1 (empty when unknown) and file name, stored under its uuid, every
/// other field 0. The head names the event's group.
pub proof fn law_build_request(e: VideoGroupDownloadEvent, r: OidbRequest)
    requires
        is_build_of(r, e),
    ensures
        r.command == 0x11ea && r.sub_command == 200,
        r.body.req_head matches Some(h) && h.scene matches Some(sc) && sc.group == Some(NtGroupInfo { group_uin: e.group_uin }),
        r.body.download matches Some(d) && d.node matches Some(n) && {
            &&& e.node matches Some(own) ==> n == own
            &&& e.node is None ==> {
                &&& n.file_uuid == e.uuid
                &&& n.store_id == 0 && n.upload_time == 0 && n.ttl == 0 && n.sub_type == 0
                &&& n.info matches Some(info) && {
                    &&& info.file_size == 0
                    &&& info.file_hash == e.file_md5
                    &&& info.file_name == e.file_name
                    &&& info.file_sha1@ == (match e.file_sha1 {
                        Some(s) => s@,
                        None => Seq::<char>::empty(),
                    })
                    &&& info.typ == Some(FileType { typ: 2, pic_format: 0, video_format: 0, voice_format: 0 })
                    &&& info.width == 0 && info.height == 0 && info.time == 0 && info.original == 0
                }
            }
        },
{
}

} // verus!
