//! Descriptions of rich-media files as the server indexes them.

use vstd::prelude::*;

verus! {

/// The kind and format codes of a media file.
#[derive(Debug)]
pub struct FileType {
    pub typ: u32,
    pub pic_format: u32,
    pub video_format: u32,
    pub voice_format: u32,
}

/// What the server records of one media file.
#[derive(Debug)]
pub struct FileInfo {
    pub file_size: u32,
    pub file_hash: String,
    pub file_sha1: String,
    pub file_name: String,
    pub typ: Option<FileType>,
    pub width: u32,
    pub height: u32,
    pub time: u32,
    pub original: u32,
}

/// The index entry that locates a stored media file.
#[derive(Debug)]
pub struct IndexNode {
    pub info: Option<FileInfo>,
    pub file_uuid: String,
    pub store_id: u32,
    pub upload_time: u32,
    pub ttl: u32,
    pub sub_type: u32,
}

/// One body of a media message's description.
#[derive(Debug)]
pub struct MsgInfoBody {
    pub index: Option<IndexNode>,
}

/// The description attached to a received media element.
#[derive(Debug)]
pub struct MsgInfo {
    pub msg_info_body: Vec<MsgInfoBody>,
}

impl Clone for FileType {
    fn clone(&self) -> (res: Self)
        ensures
            res == *self,
    {
        FileType {
            typ: self.typ,
            pic_format: self.pic_format,
            video_format: self.video_format,
            voice_format: self.voice_format,
        }
    }
}

impl Clone for FileInfo {
    fn clone(&self) -> (res: Self)
        ensures
            res == *self,
    {
        FileInfo {
            file_size: self.file_size,
            file_hash: self.file_hash.clone(),
            file_sha1: self.file_sha1.clone(),
            file_name: self.file_name.clone(),
            typ: match &self.typ {
                Some(t) => Some(t.clone()),
                None => None,
            },
            width: self.width,
            height: self.height,
            time: self.time,
            original: self.original,
        }
    }
}

impl Clone for IndexNode {
    fn clone(&self) -> (res: Self)
        ensures
            res == *self,
    {
        IndexNode {
            info: match &self.info {
                Some(i) => Some(i.clone()),
                None => None,
            },
            file_uuid: self.file_uuid.clone(),
            store_id: self.store_id,
            upload_time: self.upload_time,
            ttl: self.ttl,
            sub_type: self.sub_type,
        }
    }
}

/// A copy of an optional index node.
pub fn clone_node(n: &Option<IndexNode>) -> (res: Option<IndexNode>)
    ensures
        res == *n,
{
    match n {
        Some(x) => Some(x.clone()),
        None => None,
    }
}

/// The index node of the first body of a media description, if any.
pub open spec fn spec_first_index(info: Option<MsgInfo>) -> Option<IndexNode> {
    match info {
        Some(i) => if i.msg_info_body@.len() > 0 {
            i.msg_info_body@[0].index
        } else {
            None
        },
        None => None,
    }
}

/// A copy of the index node of the first body of a media description.
pub fn first_index(info: &Option<MsgInfo>) -> (res: Option<IndexNode>)
    ensures
        res == spec_first_index(*info),
{
    match info {
        Some(i) => {
            if i.msg_info_body.len() > 0 {
                clone_node(&i.msg_info_body[0].index)
            } else {
                None
            }
        },
        None => None,
    }
}

} // verus!
