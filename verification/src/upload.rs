//! The VK upload conversation's decisions and answer shapes: which upload
//! server a file kind needs, the calls that obtain and reuse the servers,
//! the calls that save what was uploaded, and the attachment references the
//! resulting message carries. The network calls between these steps are
//! performed outside; every choice between them is made here.

use vstd::prelude::*;
use vstd::string::{StrSliceExecFns, StringExecFns};

use crate::multipart::FileType;
use crate::text::{dec_str_int, i64_to_dec};

verus! {

/// An attachment fetched by URL, to be downloaded and re-uploaded.
#[derive(Debug, Clone)]
pub struct Attachment {
    pub url: String,
    pub ftype: FileType,
}

#[derive(Debug, Clone, PartialEq)]
pub struct VKGetUploadServerResponse {
    pub response: VKGetUploadServer,
}

#[derive(Debug, Clone, PartialEq)]
pub struct VKGetUploadServer {
    pub upload_url: String,
}

#[derive(Debug, Clone, PartialEq)]
pub struct VKMessagePhotoUploaded {
    pub hash: String,
    pub photo: String,
    pub server: i64,
}

#[derive(Debug, Clone, PartialEq)]
pub struct VKMessageDocumentUploaded {
    pub file: String,
}

#[derive(Debug, Clone, PartialEq)]
pub struct VKMessagePhotoResponse {
    pub response: Vec<VKMessagePhoto>,
}

#[derive(Debug, Clone, PartialEq)]
pub struct VKMessageDocumentResponse {
    pub response: VKMessageDocument,
}

#[derive(Debug, Clone, PartialEq)]
pub struct VKMessageDocument {
    pub audio_message: Option<VKAudioMessage>,
    pub doc: Option<VKInMessageDocument>,
}

#[derive(Debug, Clone, PartialEq)]
pub struct VKInMessageDocument {
    pub id: i64,
    pub owner_id: i64,
}

#[derive(Debug, Clone, PartialEq)]
pub struct VKAudioMessage {
    pub id: i64,
    pub owner_id: i64,
}

#[derive(Debug, Clone, PartialEq)]
pub struct VKMessagePhoto {
    pub id: i64,
    pub owner_id: i64,
    pub access_key: String,
}

/// The three upload servers the VK message API hands out; one of each is
/// enough for a whole batch, so a fetched URL is kept and reused.
#[derive(Debug, Clone, Copy, PartialEq, Eq, Structural)]
pub enum UploadServerKind {
    Photo,
    Audio,
    Doc,
}

/// The server kind a file kind uploads through: photos their own, audio and
/// voice the audio-message documents, everything else plain documents.
pub open spec fn spec_upload_server_kind(ftype: FileType) -> UploadServerKind {
    match ftype {
        FileType::Photo => UploadServerKind::Photo,
        FileType::Audio => UploadServerKind::Audio,
        FileType::Voice => UploadServerKind::Audio,
        _ => UploadServerKind::Doc,
    }
}

/// Picks the upload server kind for one file kind.
pub fn upload_server_kind(ftype: &FileType) -> (kind: UploadServerKind)
    ensures
        kind == spec_upload_server_kind(*ftype),
{
    match ftype {
        FileType::Photo => UploadServerKind::Photo,
        FileType::Audio => UploadServerKind::Audio,
        FileType::Voice => UploadServerKind::Audio,
        _ => UploadServerKind::Doc,
    }
}

/// The call that obtains one upload server: the method and its parameters,
/// addressed to the peer the message will go to.
pub fn upload_server_request(kind: &UploadServerKind, peer_id: i64) -> (r: (
    String,
    Vec<(String, String)>,
))
    ensures
        match kind {
            UploadServerKind::Photo => {
                &&& r.0@ == "photos.getMessagesUploadServer"@
                &&& r.1@.len() == 1
                &&& r.1@[0].0@ == "peer_id"@ && r.1@[0].1@ == dec_str_int(peer_id as int)
            },
            UploadServerKind::Audio => {
                &&& r.0@ == "docs.getMessagesUploadServer"@
                &&& r.1@.len() == 2
                &&& r.1@[0].0@ == "peer_id"@ && r.1@[0].1@ == dec_str_int(peer_id as int)
                &&& r.1@[1].0@ == "type"@ && r.1@[1].1@ == "audio_message"@
            },
            UploadServerKind::Doc => {
                &&& r.0@ == "docs.getMessagesUploadServer"@
                &&& r.1@.len() == 2
                &&& r.1@[0].0@ == "peer_id"@ && r.1@[0].1@ == dec_str_int(peer_id as int)
                &&& r.1@[1].0@ == "type"@ && r.1@[1].1@ == "doc"@
            },
        },
{
    let peer = i64_to_dec(peer_id);
    match kind {
        UploadServerKind::Photo => {
            let mut ps: Vec<(String, String)> = Vec::new();
            ps.push(("peer_id".to_owned(), peer));
            ("photos.getMessagesUploadServer".to_owned(), ps)
        },
        UploadServerKind::Audio => {
            let mut ps: Vec<(String, String)> = Vec::new();
            ps.push(("peer_id".to_owned(), peer));
            ps.push(("type".to_owned(), "audio_message".to_owned()));
            ("docs.getMessagesUploadServer".to_owned(), ps)
        },
        UploadServerKind::Doc => {
            let mut ps: Vec<(String, String)> = Vec::new();
            ps.push(("peer_id".to_owned(), peer));
            ps.push(("type".to_owned(), "doc".to_owned()));
            ("docs.getMessagesUploadServer".to_owned(), ps)
        },
    }
}

/// The upload server URLs fetched so far, one slot per kind; an empty slot
/// means that kind's server has not been asked for yet.
pub struct VKUploadServers {
    pub photo: String,
    pub audio: String,
    pub doc: String,
}

impl VKUploadServers {
    /// No server fetched yet.
    pub fn new() -> (s: Self)
        ensures
            s.photo@ == Seq::<char>::empty(),
            s.audio@ == Seq::<char>::empty(),
            s.doc@ == Seq::<char>::empty(),
    {
        VKUploadServers { photo: String::new(), audio: String::new(), doc: String::new() }
    }

    /// The cached URL for one kind, if that kind was already fetched.
    pub fn cached(&self, kind: &UploadServerKind) -> (r: Option<String>)
        ensures
            match kind {
                UploadServerKind::Photo => if self.photo@.len() == 0 {
                    r is None
                } else {
                    r matches Some(u) && u == self.photo
                },
                UploadServerKind::Audio => if self.audio@.len() == 0 {
                    r is None
                } else {
                    r matches Some(u) && u == self.audio
                },
                UploadServerKind::Doc => if self.doc@.len() == 0 {
                    r is None
                } else {
                    r matches Some(u) && u == self.doc
                },
            },
    {
        let slot = match kind {
            UploadServerKind::Photo => &self.photo,
            UploadServerKind::Audio => &self.audio,
            UploadServerKind::Doc => &self.doc,
        };
        if slot.as_str().is_empty() {
            None
        } else {
            Some(slot.clone())
        }
    }

    /// Stores a fetched URL in its kind's slot; the other slots keep their
    /// contents.
    pub fn store(&mut self, kind: &UploadServerKind, url: String)
        ensures
            match kind {
                UploadServerKind::Photo => *final(self) == (VKUploadServers {
                    photo: url,
                    ..*old(self)
                }),
                UploadServerKind::Audio => *final(self) == (VKUploadServers {
                    audio: url,
                    ..*old(self)
                }),
                UploadServerKind::Doc => *final(self) == (VKUploadServers {
                    doc: url,
                    ..*old(self)
                }),
            },
    {
        match kind {
            UploadServerKind::Photo => self.photo = url,
            UploadServerKind::Audio => self.audio = url,
            UploadServerKind::Doc => self.doc = url,
        }
    }
}

/// The call that saves an uploaded photo: the method and the three fields
/// the upload answered with.
pub fn save_photo_request(uploaded: &VKMessagePhotoUploaded) -> (r: (
    String,
    Vec<(String, String)>,
))
    ensures
        r.0@ == "photos.saveMessagesPhoto"@,
        r.1@.len() == 3,
        r.1@[0].0@ == "photo"@ && r.1@[0].1 == uploaded.photo,
        r.1@[1].0@ == "server"@ && r.1@[1].1@ == dec_str_int(uploaded.server as int),
        r.1@[2].0@ == "hash"@ && r.1@[2].1 == uploaded.hash,
{
    let mut ps: Vec<(String, String)> = Vec::new();
    ps.push(("photo".to_owned(), uploaded.photo.clone()));
    ps.push(("server".to_owned(), i64_to_dec(uploaded.server)));
    ps.push(("hash".to_owned(), uploaded.hash.clone()));
    ("photos.saveMessagesPhoto".to_owned(), ps)
}

/// The call that saves an uploaded document: the method and the file handle
/// the upload answered with.
pub fn save_doc_request(uploaded: &VKMessageDocumentUploaded) -> (r: (
    String,
    Vec<(String, String)>,
))
    ensures
        r.0@ == "docs.save"@,
        r.1@.len() == 1,
        r.1@[0].0@ == "file"@ && r.1@[0].1 == uploaded.file,
{
    let mut ps: Vec<(String, String)> = Vec::new();
    ps.push(("file".to_owned(), uploaded.file.clone()));
    ("docs.save".to_owned(), ps)
}

/// The attachment reference a saved photo contributes to the message, with
/// its trailing separator.
pub fn photo_attachment_ref(owner_id: i64, id: i64) -> (s: String)
    ensures
        s@ == "photo"@ + dec_str_int(owner_id as int) + "_"@ + dec_str_int(id as int) + ","@,
{
    let mut s = "photo".to_owned();
    s.append(i64_to_dec(owner_id).as_str());
    s.append("_");
    s.append(i64_to_dec(id).as_str());
    s.append(",");
    s
}

/// The attachment reference a saved audio message contributes.
pub fn audio_message_attachment_ref(owner_id: i64, id: i64) -> (s: String)
    ensures
        s@ == "audio_message"@ + dec_str_int(owner_id as int) + "_"@ + dec_str_int(id as int)
            + ","@,
{
    let mut s = "audio_message".to_owned();
    s.append(i64_to_dec(owner_id).as_str());
    s.append("_");
    s.append(i64_to_dec(id).as_str());
    s.append(",");
    s
}

/// The attachment reference a saved document contributes.
pub fn doc_attachment_ref(owner_id: i64, id: i64) -> (s: String)
    ensures
        s@ == "doc"@ + dec_str_int(owner_id as int) + "_"@ + dec_str_int(id as int) + ","@,
{
    let mut s = "doc".to_owned();
    s.append(i64_to_dec(owner_id).as_str());
    s.append("_");
    s.append(i64_to_dec(id).as_str());
    s.append(",");
    s
}

} // verus!
