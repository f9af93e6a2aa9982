//! Decoded attachment shapes for the Telegram platform, and the projection of
//! a message's media fields into the unified context's attachment record.
//!
//! Clone implementations are written by hand so that verified code knows a
//! copy preserves every field; the one list field (the photo sizes) is
//! preserved element for element (stated through `TGAttachment::agrees`).

use vstd::prelude::*;

use crate::tg::TGMessage;

verus! {

#[derive(Debug, PartialEq)]
pub struct PhotoSize {
    pub file_id: String,
    pub file_unique_id: String,
    pub width: i32,
    pub height: i32,
    pub file_size: Option<i32>,
}

impl Clone for PhotoSize {
    fn clone(&self) -> (res: Self)
        ensures
            res == *self,
    {
        PhotoSize {
            file_id: self.file_id.clone(),
            file_unique_id: self.file_unique_id.clone(),
            width: self.width,
            height: self.height,
            file_size: self.file_size,
        }
    }
}

#[derive(Debug, Clone, PartialEq)]
pub struct Photo {
    pub file_id: String,
    pub file_unique_id: String,
    pub width: i32,
    pub height: i32,
    pub file_size: Option<i32>,
    pub thumb: Option<PhotoSize>,
    pub file_name: Option<String>,
    pub mime_type: Option<String>,
}

#[derive(Debug, Clone, PartialEq)]
pub struct Animation {
    pub file_id: String,
    pub file_unique_id: String,
    pub width: i32,
    pub height: i32,
    pub duration: i32,
    pub thumb: Option<PhotoSize>,
    pub file_name: Option<String>,
    pub mime_type: Option<String>,
    pub file_size: Option<i32>,
}

#[derive(Debug, PartialEq)]
pub struct Audio {
    pub file_id: String,
    pub file_unique_id: String,
    pub duration: i32,
    pub performer: Option<String>,
    pub title: Option<String>,
    pub mime_type: Option<String>,
    pub file_size: Option<i32>,
    pub thumb: Option<PhotoSize>,
}

impl Clone for Audio {
    fn clone(&self) -> (res: Self)
        ensures
            res == *self,
    {
        Audio {
            file_id: self.file_id.clone(),
            file_unique_id: self.file_unique_id.clone(),
            duration: self.duration,
            performer: self.performer.clone(),
            title: self.title.clone(),
            mime_type: self.mime_type.clone(),
            file_size: self.file_size,
            thumb: clone_photo_size_opt(&self.thumb),
        }
    }
}

#[derive(Debug, PartialEq)]
pub struct Document {
    pub file_id: String,
    pub file_unique_id: String,
    pub thumb: Option<PhotoSize>,
    pub file_name: Option<String>,
    pub mime_type: Option<String>,
    pub file_size: Option<i32>,
}

impl Clone for Document {
    fn clone(&self) -> (res: Self)
        ensures
            res == *self,
    {
        Document {
            file_id: self.file_id.clone(),
            file_unique_id: self.file_unique_id.clone(),
            thumb: clone_photo_size_opt(&self.thumb),
            file_name: self.file_name.clone(),
            mime_type: self.mime_type.clone(),
            file_size: self.file_size,
        }
    }
}

#[derive(Debug, PartialEq)]
pub struct Video {
    pub file_id: String,
    pub file_unique_id: String,
    pub width: i32,
    pub height: i32,
    pub duration: i32,
    pub thumb: Option<PhotoSize>,
    pub file_name: Option<String>,
    pub mime_type: Option<String>,
    pub file_size: Option<i32>,
}

impl Clone for Video {
    fn clone(&self) -> (res: Self)
        ensures
            res == *self,
    {
        Video {
            file_id: self.file_id.clone(),
            file_unique_id: self.file_unique_id.clone(),
            width: self.width,
            height: self.height,
            duration: self.duration,
            thumb: clone_photo_size_opt(&self.thumb),
            file_name: self.file_name.clone(),
            mime_type: self.mime_type.clone(),
            file_size: self.file_size,
        }
    }
}

#[derive(Debug, PartialEq)]
pub struct Voice {
    pub file_id: String,
    pub file_unique_id: String,
    pub duration: i32,
    pub mime_type: Option<String>,
    pub file_size: Option<i32>,
}

impl Clone for Voice {
    fn clone(&self) -> (res: Self)
        ensures
            res == *self,
    {
        Voice {
            file_id: self.file_id.clone(),
            file_unique_id: self.file_unique_id.clone(),
            duration: self.duration,
            mime_type: self.mime_type.clone(),
            file_size: self.file_size,
        }
    }
}

#[derive(Debug, PartialEq)]
pub struct VideoNote {
    pub file_id: String,
    pub file_unique_id: String,
    pub length: i32,
    pub duration: i32,
    pub thumb: Option<PhotoSize>,
    pub file_size: Option<i32>,
}

impl Clone for VideoNote {
    fn clone(&self) -> (res: Self)
        ensures
            res == *self,
    {
        VideoNote {
            file_id: self.file_id.clone(),
            file_unique_id: self.file_unique_id.clone(),
            length: self.length,
            duration: self.duration,
            thumb: clone_photo_size_opt(&self.thumb),
            file_size: self.file_size,
        }
    }
}

#[derive(Debug, PartialEq)]
pub struct Contact {
    pub phone_number: String,
    pub first_name: String,
    pub last_name: Option<String>,
    pub user_id: Option<i32>,
    pub vcard: Option<String>,
}

impl Clone for Contact {
    fn clone(&self) -> (res: Self)
        ensures
            res == *self,
    {
        Contact {
            phone_number: self.phone_number.clone(),
            first_name: self.first_name.clone(),
            last_name: self.last_name.clone(),
            user_id: self.user_id,
            vcard: self.vcard.clone(),
        }
    }
}

#[derive(Debug, PartialEq)]
pub struct Sticker {
    pub file_id: String,
    pub file_unique_id: String,
    pub width: i32,
    pub height: i32,
    pub is_animated: bool,
    pub thumb: Option<PhotoSize>,
    pub emoji: Option<String>,
    pub set_name: Option<String>,
    pub file_size: Option<i32>,
}

impl Clone for Sticker {
    fn clone(&self) -> (res: Self)
        ensures
            res == *self,
    {
        Sticker {
            file_id: self.file_id.clone(),
            file_unique_id: self.file_unique_id.clone(),
            width: self.width,
            height: self.height,
            is_animated: self.is_animated,
            thumb: clone_photo_size_opt(&self.thumb),
            emoji: self.emoji.clone(),
            set_name: self.set_name.clone(),
            file_size: self.file_size,
        }
    }
}

/// Copies an optional photo size; the copy holds the same value.
fn clone_photo_size_opt(o: &Option<PhotoSize>) -> (res: Option<PhotoSize>)
    ensures
        res == *o,
{
    match o {
        Some(p) => Some(p.clone()),
        None => None,
    }
}

#[derive(Debug, Clone, PartialEq)]
pub struct TGPhotoSize {
    pub file_id: String,
    pub file_unique_id: String,
    pub width: i32,
    pub height: i32,
    pub file_size: Option<i32>,
}

#[derive(Debug, Clone, PartialEq)]
pub struct TGInvoice {
    pub title: String,
    pub description: String,
    pub start_parameter: String,
    pub currency: String,
    pub total_amount: i32,
}

#[derive(Debug, Clone, PartialEq)]
pub struct TGSuccessfulPayment {
    pub currency: String,
    pub total_amount: i32,
    pub invoice_payload: String,
    pub shipping_option_id: Option<String>,
    pub order_info: Option<TGOrderInfo>,
    pub telegram_payment_charge_id: String,
    pub provider_payment_charge_id: String,
}

#[derive(Debug, Clone, PartialEq)]
pub struct TGOrderInfo {
    pub name: Option<String>,
    pub phone_number: Option<String>,
    pub email: Option<String>,
    pub shipping_address: Option<TGShippingAddress>,
}

#[derive(Debug, Clone, PartialEq)]
pub struct TGShippingAddress {
    pub country_code: String,
    pub state: String,
    pub city: String,
    pub street_line1: String,
    pub street_line2: String,
    pub post_code: String,
}

#[derive(Debug, Clone, PartialEq)]
pub struct WebAppData {
    pub data: String,
    pub button_text: String,
}

/// The media fields a Telegram message contributes to the unified context.
#[derive(Debug, PartialEq)]
pub struct TGAttachment {
    pub audio: Option<Audio>,
    pub document: Option<Document>,
    pub photo: Option<Vec<PhotoSize>>,
    pub sticker: Option<Sticker>,
    pub video: Option<Video>,
    pub video_note: Option<VideoNote>,
    pub voice: Option<Voice>,
    pub caption: Option<String>,
    pub contact: Option<Contact>,
}

impl Clone for TGAttachment {
    fn clone(&self) -> (res: Self)
        ensures
            res.agrees(*self),
    {
        TGAttachment {
            audio: match &self.audio {
                Some(a) => Some(a.clone()),
                None => None,
            },
            document: match &self.document {
                Some(d) => Some(d.clone()),
                None => None,
            },
            photo: match &self.photo {
                Some(sizes) => {
                    let c = sizes.clone();
                    proof {
                        assert(c@ =~= sizes@);
                    }
                    Some(c)
                },
                None => None,
            },
            sticker: match &self.sticker {
                Some(s) => Some(s.clone()),
                None => None,
            },
            video: match &self.video {
                Some(v) => Some(v.clone()),
                None => None,
            },
            video_note: match &self.video_note {
                Some(v) => Some(v.clone()),
                None => None,
            },
            voice: match &self.voice {
                Some(v) => Some(v.clone()),
                None => None,
            },
            caption: self.caption.clone(),
            contact: match &self.contact {
                Some(c) => Some(c.clone()),
                None => None,
            },
        }
    }
}

impl TGAttachment {
    /// Equal field for field; the photo list is compared element for element.
    pub open spec fn agrees(self, other: Self) -> bool {
        &&& self.audio == other.audio
        &&& self.document == other.document
        &&& match (self.photo, other.photo) {
            (Some(a), Some(b)) => a@ == b@,
            (None, None) => true,
            _ => false,
        }
        &&& self.sticker == other.sticker
        &&& self.video == other.video
        &&& self.video_note == other.video_note
        &&& self.voice == other.voice
        &&& self.caption == other.caption
        &&& self.contact == other.contact
    }

    /// The record a given Telegram message projects to.
    pub open spec fn spec_of(m: TGMessage) -> Self {
        TGAttachment {
            audio: m.audio,
            document: m.document,
            photo: m.photo,
            sticker: m.sticker,
            video: m.video,
            video_note: m.video_note,
            voice: m.voice,
            caption: m.caption,
            contact: m.contact,
        }
    }
}

/// Agreement of two optional Telegram attachment records.
pub open spec fn tg_attachments_agree(a: Option<TGAttachment>, b: Option<TGAttachment>) -> bool {
    match (a, b) {
        (Some(x), Some(y)) => x.agrees(y),
        (None, None) => true,
        _ => false,
    }
}

/// The record a message option contributes: its media fields, or nothing.
pub open spec fn spec_tg_attachments(message: Option<TGMessage>) -> Option<TGAttachment> {
    match message {
        Some(m) => Some(TGAttachment::spec_of(m)),
        None => None,
    }
}

/// Projects a Telegram message's media fields into the unified context's
/// attachment record.
pub fn unify_attachments(message: Option<&TGMessage>) -> (r: Option<TGAttachment>)
    ensures
        tg_attachments_agree(
            r,
            spec_tg_attachments(
                match message {
                    Some(m) => Some(*m),
                    None => None,
                },
            ),
        ),
{
    match message {
        Some(m) => {
            let photo = match &m.photo {
                Some(sizes) => {
                    let c = sizes.clone();
                    proof {
                        assert(c@ =~= sizes@);
                    }
                    Some(c)
                },
                None => None,
            };
            Some(TGAttachment {
                audio: match &m.audio {
                    Some(a) => Some(a.clone()),
                    None => None,
                },
                document: match &m.document {
                    Some(d) => Some(d.clone()),
                    None => None,
                },
                photo,
                sticker: match &m.sticker {
                    Some(s) => Some(s.clone()),
                    None => None,
                },
                video: match &m.video {
                    Some(v) => Some(v.clone()),
                    None => None,
                },
                video_note: match &m.video_note {
                    Some(v) => Some(v.clone()),
                    None => None,
                },
                voice: match &m.voice {
                    Some(v) => Some(v.clone()),
                    None => None,
                },
                caption: m.caption.clone(),
                contact: match &m.contact {
                    Some(c) => Some(c.clone()),
                    None => None,
                },
            })
        },
        None => None,
    }
}

} // verus!
