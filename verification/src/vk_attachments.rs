//! Decoded attachment shapes for the VK platform, and the projection of a
//! message's attachments into the unified context's attachment list.
//!
//! The clone implementations here are written by hand so that verified code
//! knows exactly what a copied attachment holds: scalar and string fields are
//! preserved as values, and every list field is preserved element for element
//! (stated through the `agrees` predicates).

use vstd::prelude::*;

use crate::vk::VKMessage;

verus! {

#[derive(Debug, PartialEq)]
pub struct VKPhotoSizes {
    pub kind: String,
    pub url: String,
    pub width: i32,
    pub height: i32,
}

impl Clone for VKPhotoSizes {
    fn clone(&self) -> (res: Self)
        ensures
            res == *self,
    {
        VKPhotoSizes {
            kind: self.kind.clone(),
            url: self.url.clone(),
            width: self.width,
            height: self.height,
        }
    }
}

#[derive(Debug, PartialEq)]
pub struct PhotoAttachment {
    pub id: i64,
    pub album_id: i64,
    pub owner_id: i64,
    pub user_id: i64,
    pub text: String,
    pub sizes: Vec<VKPhotoSizes>,
    pub date: i64,
    pub access_key: Option<String>,
}

impl PhotoAttachment {
    /// Equal field for field; the size list is compared element for element.
    pub open spec fn agrees(self, other: Self) -> bool {
        &&& self.id == other.id
        &&& self.album_id == other.album_id
        &&& self.owner_id == other.owner_id
        &&& self.user_id == other.user_id
        &&& self.text == other.text
        &&& self.sizes@ == other.sizes@
        &&& self.date == other.date
        &&& self.access_key == other.access_key
    }
}

impl Clone for PhotoAttachment {
    fn clone(&self) -> (res: Self)
        ensures
            res.agrees(*self),
    {
        let sizes = self.sizes.clone();
        proof {
            assert(sizes@ =~= self.sizes@);
        }
        PhotoAttachment {
            id: self.id,
            album_id: self.album_id,
            owner_id: self.owner_id,
            user_id: self.user_id,
            text: self.text.clone(),
            sizes,
            date: self.date,
            access_key: self.access_key.clone(),
        }
    }
}

#[derive(Debug, PartialEq)]
pub struct VKVideoImage {
    pub with_padding: Option<i8>,
    pub url: String,
    pub width: i32,
    pub height: i32,
}

impl Clone for VKVideoImage {
    fn clone(&self) -> (res: Self)
        ensures
            res == *self,
    {
        VKVideoImage {
            with_padding: self.with_padding,
            url: self.url.clone(),
            width: self.width,
            height: self.height,
        }
    }
}

#[derive(Debug, PartialEq)]
pub struct VKVideoFirstFrame {
    pub url: String,
    pub width: i32,
    pub height: i32,
}

impl Clone for VKVideoFirstFrame {
    fn clone(&self) -> (res: Self)
        ensures
            res == *self,
    {
        VKVideoFirstFrame { url: self.url.clone(), width: self.width, height: self.height }
    }
}

#[derive(Debug, PartialEq)]
pub struct VideoAttachment {
    pub id: i64,
    pub owner_id: i64,
    pub title: String,
    pub description: String,
    pub duration: i64,
    pub image: Vec<VKVideoImage>,
    pub first_frame: Vec<VKVideoFirstFrame>,
    pub date: i64,
    pub adding_date: i64,
    pub views: i64,
    pub comments: i64,
    pub player: String,
    pub platform: Option<String>,
    pub can_edit: Option<i8>,
    pub can_add: Option<i8>,
    pub is_private: Option<i8>,
    pub access_key: Option<String>,
}

impl VideoAttachment {
    /// Equal field for field; both image lists are compared element for element.
    pub open spec fn agrees(self, other: Self) -> bool {
        &&& self.id == other.id
        &&& self.owner_id == other.owner_id
        &&& self.title == other.title
        &&& self.description == other.description
        &&& self.duration == other.duration
        &&& self.image@ == other.image@
        &&& self.first_frame@ == other.first_frame@
        &&& self.date == other.date
        &&& self.adding_date == other.adding_date
        &&& self.views == other.views
        &&& self.comments == other.comments
        &&& self.player == other.player
        &&& self.platform == other.platform
        &&& self.can_edit == other.can_edit
        &&& self.can_add == other.can_add
        &&& self.is_private == other.is_private
        &&& self.access_key == other.access_key
    }
}

impl Clone for VideoAttachment {
    fn clone(&self) -> (res: Self)
        ensures
            res.agrees(*self),
    {
        let image = self.image.clone();
        let first_frame = self.first_frame.clone();
        proof {
            assert(image@ =~= self.image@);
            assert(first_frame@ =~= self.first_frame@);
        }
        VideoAttachment {
            id: self.id,
            owner_id: self.owner_id,
            title: self.title.clone(),
            description: self.description.clone(),
            duration: self.duration,
            image,
            first_frame,
            date: self.date,
            adding_date: self.adding_date,
            views: self.views,
            comments: self.comments,
            player: self.player.clone(),
            platform: self.platform.clone(),
            can_edit: self.can_edit,
            can_add: self.can_add,
            is_private: self.is_private,
            access_key: self.access_key.clone(),
        }
    }
}

#[derive(Debug, PartialEq)]
pub struct AudioAttachment {
    pub id: i64,
    pub owner_id: i64,
    pub artist: String,
    pub title: String,
    pub duration: i64,
    pub url: String,
    pub lyrics_id: Option<i64>,
    pub album_id: Option<i64>,
    pub genre_id: Option<i64>,
    pub date: i64,
    pub access_key: Option<String>,
}

impl Clone for AudioAttachment {
    fn clone(&self) -> (res: Self)
        ensures
            res == *self,
    {
        AudioAttachment {
            id: self.id,
            owner_id: self.owner_id,
            artist: self.artist.clone(),
            title: self.title.clone(),
            duration: self.duration,
            url: self.url.clone(),
            lyrics_id: self.lyrics_id,
            album_id: self.album_id,
            genre_id: self.genre_id,
            date: self.date,
            access_key: self.access_key.clone(),
        }
    }
}

#[derive(Debug, PartialEq)]
pub struct DocAttachment {
    pub id: i64,
    pub owner_id: i64,
    pub title: String,
    pub size: i64,
    pub ext: String,
    pub url: String,
    pub date: i64,
    pub kind: i64,
    pub access_key: Option<String>,
}

impl Clone for DocAttachment {
    fn clone(&self) -> (res: Self)
        ensures
            res == *self,
    {
        DocAttachment {
            id: self.id,
            owner_id: self.owner_id,
            title: self.title.clone(),
            size: self.size,
            ext: self.ext.clone(),
            url: self.url.clone(),
            date: self.date,
            kind: self.kind,
            access_key: self.access_key.clone(),
        }
    }
}

#[derive(Debug, PartialEq)]
pub struct LinkAttachment {
    pub url: String,
    pub title: String,
    pub caption: String,
    pub description: String,
    pub photo: Option<PhotoAttachment>,
    pub is_favorite: Option<bool>,
}

impl LinkAttachment {
    /// Equal field for field; an embedded photo agrees in the photo's sense.
    pub open spec fn agrees(self, other: Self) -> bool {
        &&& self.url == other.url
        &&& self.title == other.title
        &&& self.caption == other.caption
        &&& self.description == other.description
        &&& match (self.photo, other.photo) {
            (Some(a), Some(b)) => a.agrees(b),
            (None, None) => true,
            _ => false,
        }
        &&& self.is_favorite == other.is_favorite
    }
}

impl Clone for LinkAttachment {
    fn clone(&self) -> (res: Self)
        ensures
            res.agrees(*self),
    {
        let photo = match &self.photo {
            Some(p) => Some(p.clone()),
            None => None,
        };
        LinkAttachment {
            url: self.url.clone(),
            title: self.title.clone(),
            caption: self.caption.clone(),
            description: self.description.clone(),
            photo,
            is_favorite: self.is_favorite,
        }
    }
}

#[derive(Debug, PartialEq)]
pub struct VKStickerImage {
    pub url: String,
    pub width: i32,
    pub height: i32,
}

impl Clone for VKStickerImage {
    fn clone(&self) -> (res: Self)
        ensures
            res == *self,
    {
        VKStickerImage { url: self.url.clone(), width: self.width, height: self.height }
    }
}

#[derive(Debug, PartialEq)]
pub struct StickerAttachment {
    pub product_id: i64,
    pub sticker_id: i64,
    pub images: Vec<VKStickerImage>,
}

impl StickerAttachment {
    /// Equal field for field; the image list is compared element for element.
    pub open spec fn agrees(self, other: Self) -> bool {
        &&& self.product_id == other.product_id
        &&& self.sticker_id == other.sticker_id
        &&& self.images@ == other.images@
    }
}

impl Clone for StickerAttachment {
    fn clone(&self) -> (res: Self)
        ensures
            res.agrees(*self),
    {
        let images = self.images.clone();
        proof {
            assert(images@ =~= self.images@);
        }
        StickerAttachment {
            product_id: self.product_id,
            sticker_id: self.sticker_id,
            images,
        }
    }
}

/// One decoded VK attachment: a tag and at most one populated payload.
#[derive(Debug, PartialEq)]
pub struct VKAttachment {
    pub kind: String,
    pub photo: Option<PhotoAttachment>,
    pub video: Option<VideoAttachment>,
    pub audio: Option<AudioAttachment>,
    pub doc: Option<DocAttachment>,
    pub link: Option<LinkAttachment>,
    pub sticker: Option<StickerAttachment>,
}

impl VKAttachment {
    /// Equal tag and payload; payloads with list fields agree in their own sense.
    pub open spec fn agrees(self, other: Self) -> bool {
        &&& self.kind == other.kind
        &&& match (self.photo, other.photo) {
            (Some(a), Some(b)) => a.agrees(b),
            (None, None) => true,
            _ => false,
        }
        &&& match (self.video, other.video) {
            (Some(a), Some(b)) => a.agrees(b),
            (None, None) => true,
            _ => false,
        }
        &&& self.audio == other.audio
        &&& self.doc == other.doc
        &&& match (self.link, other.link) {
            (Some(a), Some(b)) => a.agrees(b),
            (None, None) => true,
            _ => false,
        }
        &&& match (self.sticker, other.sticker) {
            (Some(a), Some(b)) => a.agrees(b),
            (None, None) => true,
            _ => false,
        }
    }
}

impl Clone for VKAttachment {
    fn clone(&self) -> (res: Self)
        ensures
            res.agrees(*self),
    {
        VKAttachment {
            kind: self.kind.clone(),
            photo: match &self.photo {
                Some(p) => Some(p.clone()),
                None => None,
            },
            video: match &self.video {
                Some(v) => Some(v.clone()),
                None => None,
            },
            audio: self.audio.clone(),
            doc: self.doc.clone(),
            link: match &self.link {
                Some(l) => Some(l.clone()),
                None => None,
            },
            sticker: match &self.sticker {
                Some(s) => Some(s.clone()),
                None => None,
            },
        }
    }
}

/// Element-for-element agreement of two VK attachment lists.
pub open spec fn vk_attachments_agree(a: Seq<VKAttachment>, b: Seq<VKAttachment>) -> bool {
    &&& a.len() == b.len()
    &&& forall|i: int| 0 <= i < a.len() ==> #[trigger] a[i].agrees(b[i])
}

/// The attachment list a VK message contributes to the unified context:
/// the message's own attachments, or nothing when there is no message.
pub open spec fn spec_vk_attachments(message: Option<VKMessage>) -> Seq<VKAttachment> {
    match message {
        Some(m) => match m.attachments {
            Some(atts) => atts@,
            None => Seq::empty(),
        },
        None => Seq::empty(),
    }
}

/// Projects a VK message's attachments into the unified context's list.
pub fn unify_attachments(message: Option<&VKMessage>) -> (r: Vec<VKAttachment>)
    ensures
        vk_attachments_agree(
            r@,
            spec_vk_attachments(
                match message {
                    Some(m) => Some(*m),
                    None => None,
                },
            ),
        ),
{
    match message {
        Some(m) => match &m.attachments {
            Some(atts) => {
                let r = atts.clone();
                proof {
                    assert(forall|i: int|
                        0 <= i < r@.len() ==> #[trigger] r@[i].agrees(atts@[i]));
                }
                r
            },
            None => Vec::new(),
        },
        None => Vec::new(),
    }
}

#[derive(Debug, Clone, PartialEq)]
pub struct Comments {
    pub count: i64,
    pub can_post: i8,
    pub groups_can_post: Option<bool>,
}

#[derive(Debug, Clone, PartialEq)]
pub struct Likes {
    pub count: i64,
    pub user_likes: i8,
    pub can_like: i8,
    pub can_publish: i8,
}

#[derive(Debug, Clone, PartialEq)]
pub struct Reposts {
    pub count: i64,
    pub user_reposted: i8,
}

#[derive(Debug, Clone, PartialEq)]
pub struct Views {
    pub count: i64,
}

} // verus!
