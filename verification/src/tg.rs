//! Decoded update shapes for the Telegram platform, and their normalization
//! into the unified context.

use vstd::prelude::*;

use crate::config::Config;
use crate::context::{Attachments, Event, EventType, Platform, UnifyContext, UnifyedContext, UserData};
use crate::tg_attachments::{Audio, Contact, Document, PhotoSize, Sticker, TGAttachment, TGInvoice,
    TGPhotoSize, TGSuccessfulPayment, Video, VideoNote, Voice, WebAppData};
use crate::tg_attachments::{spec_tg_attachments, tg_attachments_agree, unify_attachments};

verus! {

/// One long-poll answer: a status flag and a batch of updates.
#[derive(Debug)]
pub struct TGGetUpdates {
    pub ok: bool,
    pub result: Vec<TGUpdate>,
}

/// One decoded Telegram update: at most one of the optional sub-events is
/// populated; the recognition order is the field order.
#[derive(Debug, Default)]
pub struct TGUpdate {
    pub message: Option<TGMessage>,
    pub edited_message: Option<TGMessage>,
    pub inline_query: Option<TGInlineQuery>,
    pub chosen_inline_result: Option<TGChosenInlineResult>,
    pub callback_query: Option<TGCallbackQuery>,
    pub update_id: i64,
}

#[derive(Debug)]
pub struct TGCallbackQuery {
    pub id: String,
    pub from: TGFrom,
    pub message: Option<TGMessage>,
    pub chat_instance: String,
    pub data: Option<String>,
    pub inline_message_id: Option<String>,
}

#[derive(Debug, Clone, PartialEq)]
pub struct TGChosenInlineResult {
    pub result_id: String,
    pub from: TGFrom,
    pub query: String,
    pub inline_message_id: Option<String>,
}

#[derive(Debug, Clone, PartialEq)]
pub struct TGInlineQuery {
    pub id: String,
    pub from: TGFrom,
    pub query: String,
    pub offset: String,
    pub chat_type: Option<String>,
}

/// A decoded Telegram message.
#[derive(Debug, Default)]
pub struct TGMessage {
    pub text: Option<String>,
    pub from: TGFrom,
    pub chat: TGChat,
    pub message_id: i64,
    pub reply_to_message: Option<Box<TGMessage>>,
    pub forward_from: Option<TGFrom>,
    pub forward_from_chat: Option<TGChat>,
    pub forward_from_message_id: Option<i64>,
    pub forward_signature: Option<String>,
    pub forward_date: Option<i64>,
    pub entities: Option<Vec<TGMessageEntity>>,
    pub caption_entities: Option<Vec<TGMessageEntity>>,
    pub audio: Option<Audio>,
    pub document: Option<Document>,
    pub photo: Option<Vec<PhotoSize>>,
    pub sticker: Option<Sticker>,
    pub video: Option<Video>,
    pub video_note: Option<VideoNote>,
    pub voice: Option<Voice>,
    pub caption: Option<String>,
    pub contact: Option<Contact>,
    pub new_chat_members: Option<Vec<TGUser>>,
    pub left_chat_member: Option<TGUser>,
    pub new_chat_title: Option<String>,
    pub new_chat_photo: Option<Vec<TGPhotoSize>>,
    pub delete_chat_photo: Option<bool>,
    pub group_chat_created: Option<bool>,
    pub supergroup_chat_created: Option<bool>,
    pub channel_chat_created: Option<bool>,
    pub migrate_to_chat_id: Option<i64>,
    pub migrate_from_chat_id: Option<i64>,
    pub pinned_message: Option<Box<TGMessage>>,
    pub invoice: Option<TGInvoice>,
    pub successful_payment: Option<TGSuccessfulPayment>,
    pub connected_website: Option<String>,
    pub reply_to_message_id: Option<i64>,
    pub web_app_data: Option<WebAppData>,
}

#[derive(Debug, Clone, PartialEq, Default)]
pub struct TGMessageEntity {
    pub kind: String,
    pub offset: i64,
    pub length: i64,
    pub url: Option<String>,
    pub user: Option<TGUser>,
}

#[derive(Debug, Clone, PartialEq, Default)]
pub struct TGUser {
    pub id: i64,
    pub is_bot: bool,
    pub first_name: String,
    pub last_name: Option<String>,
    pub username: Option<String>,
    pub language_code: Option<String>,
}

#[derive(Debug, Clone, PartialEq, Default)]
pub struct TGFrom {
    pub id: i64,
    pub is_bot: bool,
    pub first_name: String,
    pub last_name: Option<String>,
    pub username: Option<String>,
    pub language_code: Option<String>,
    pub is_premium: Option<bool>,
    pub added_to_attachment_menu: Option<bool>,
}

#[derive(Debug, Clone, PartialEq, Default)]
pub struct TGChat {
    pub id: i64,
    pub kind: String,
    pub title: Option<String>,
    pub username: Option<String>,
    pub first_name: Option<String>,
    pub last_name: Option<String>,
    pub is_forum: Option<bool>,
}

impl TGUpdate {
    /// Whether any sub-event is populated.
    pub open spec fn spec_recognized(self) -> bool {
        ||| self.message is Some
        ||| self.edited_message is Some
        ||| self.inline_query is Some
        ||| self.chosen_inline_result is Some
        ||| self.callback_query is Some
    }

    /// The event class the fixed recognition order assigns to this update.
    pub open spec fn spec_event_type(self) -> EventType {
        if self.message is Some {
            EventType::MessageNew
        } else if self.edited_message is Some {
            EventType::MessageEdit
        } else if self.inline_query is Some {
            EventType::InlineQuery
        } else if self.chosen_inline_result is Some {
            EventType::ChosenInlineResult
        } else if self.callback_query is Some {
            EventType::CallbackQuery
        } else {
            EventType::Unknown
        }
    }

    /// The text the recognized sub-event supplies; empty when the sub-event
    /// carries none or no sub-event was recognized.
    pub open spec fn spec_text(self) -> Seq<char> {
        if self.message is Some {
            match self.message.unwrap().text {
                Some(t) => t@,
                None => Seq::empty(),
            }
        } else if self.edited_message is Some {
            match self.edited_message.unwrap().text {
                Some(t) => t@,
                None => Seq::empty(),
            }
        } else if self.inline_query is Some {
            self.inline_query.unwrap().query@
        } else if self.chosen_inline_result is Some {
            self.chosen_inline_result.unwrap().query@
        } else if self.callback_query is Some {
            match self.callback_query.unwrap().data {
                Some(d) => d@,
                None => Seq::empty(),
            }
        } else {
            Seq::empty()
        }
    }

    /// The sender id; zero when unrecognized.
    pub open spec fn spec_from_id(self) -> i64 {
        if self.message is Some {
            self.message.unwrap().from.id
        } else if self.edited_message is Some {
            self.edited_message.unwrap().from.id
        } else if self.inline_query is Some {
            self.inline_query.unwrap().from.id
        } else if self.chosen_inline_result is Some {
            self.chosen_inline_result.unwrap().from.id
        } else if self.callback_query is Some {
            self.callback_query.unwrap().from.id
        } else {
            0
        }
    }

    /// The conversation id; zero when the sub-event names no chat.
    pub open spec fn spec_peer_id(self) -> i64 {
        if self.message is Some {
            self.message.unwrap().chat.id
        } else if self.edited_message is Some {
            self.edited_message.unwrap().chat.id
        } else if self.inline_query is Some || self.chosen_inline_result is Some {
            0
        } else if self.callback_query is Some {
            match self.callback_query.unwrap().message {
                Some(m) => m.chat.id,
                None => 0,
            }
        } else {
            0
        }
    }

    /// The event id; zero when the sub-event names no message.
    pub open spec fn spec_id(self) -> i64 {
        if self.message is Some {
            self.message.unwrap().message_id
        } else if self.edited_message is Some {
            self.edited_message.unwrap().message_id
        } else if self.inline_query is Some || self.chosen_inline_result is Some {
            0
        } else if self.callback_query is Some {
            match self.callback_query.unwrap().message {
                Some(m) => m.message_id,
                None => 0,
            }
        } else {
            0
        }
    }

    /// The raw-event value the context keeps: the whole decoded update when a
    /// sub-event was recognized, and the explicit nothing-matched value else.
    pub open spec fn spec_event(self) -> Event {
        if self.spec_recognized() {
            Event::TG(self)
        } else {
            Event::Unknown
        }
    }

    /// The attachment record the context keeps: the media fields of the
    /// update's message field, whatever sub-event was recognized.
    pub open spec fn spec_attachments(self) -> Option<TGAttachment> {
        spec_tg_attachments(self.message)
    }
}

impl UnifyContext for TGUpdate {
    /// Everything normalization promises of the produced context, as one
    /// relation between the consumed update and the result.
    open spec fn normalized(self, config: Config, ctx: UnifyedContext) -> bool {
        &&& ctx.platform == Platform::Telegram
        &&& ctx.event_type == self.spec_event_type()
        &&& ctx.text@ == self.spec_text()
        &&& ctx.from_id == self.spec_from_id()
        &&& ctx.peer_id == self.spec_peer_id()
        &&& ctx.id == self.spec_id()
        &&& ctx.event == self.spec_event()
        &&& ctx.data == UserData::Empty
        &&& ctx.config == config
        &&& match ctx.attachments {
            Attachments::TG(att) => tg_attachments_agree(att, self.spec_attachments()),
            Attachments::VK(_) => false,
        }
    }

    /// Normalizes one Telegram update: the fixed recognition order tries the
    /// new message, the edited message, the inline query, the chosen inline
    /// result and the callback query; anything else degrades to the unknown
    /// event with zeroed identifiers and empty text. Pure: every field of the
    /// result is a function of the update and the configuration.
    fn unify(self, config: &Config) -> (ctx: UnifyedContext) {
        let attachments = Attachments::TG(
            unify_attachments(
                match &self.message {
                    Some(m) => Some(m),
                    None => None,
                },
            ),
        );
        let (event_type, text, peer_id, id, from_id): (EventType, Option<String>, i64, i64, i64) =
            if let Some(m) = &self.message {
                (EventType::MessageNew, m.text.clone(), m.chat.id, m.message_id, m.from.id)
            } else if let Some(m) = &self.edited_message {
                (EventType::MessageEdit, m.text.clone(), m.chat.id, m.message_id, m.from.id)
            } else if let Some(q) = &self.inline_query {
                (EventType::InlineQuery, Some(q.query.clone()), 0, 0, q.from.id)
            } else if let Some(r) = &self.chosen_inline_result {
                (EventType::ChosenInlineResult, Some(r.query.clone()), 0, 0, r.from.id)
            } else if let Some(q) = &self.callback_query {
                let (peer, mid): (i64, i64) = match &q.message {
                    Some(m) => (m.chat.id, m.message_id),
                    None => (0, 0),
                };
                (EventType::CallbackQuery, q.data.clone(), peer, mid, q.from.id)
            } else {
                (EventType::Unknown, None, 0, 0, 0)
            };
        let recognized = matches!(event_type, EventType::Unknown) == false;
        UnifyedContext {
            text: match text {
                Some(t) => t,
                None => String::new(),
            },
            from_id,
            peer_id,
            id,
            event_type,
            platform: Platform::Telegram,
            data: UserData::Empty,
            event: if recognized {
                Event::TG(self)
            } else {
                Event::Unknown
            },
            attachments,
            config: config.clone(),
        }
    }
}

/// The shape of a context normalized from a Telegram update in which nothing
/// was recognized: the unknown event class, zeroed identifiers, empty text,
/// no attachments.
pub open spec fn unknown_tg_context(config: Config, ctx: UnifyedContext) -> bool {
    &&& ctx.platform == Platform::Telegram
    &&& ctx.event_type == EventType::Unknown
    &&& ctx.text@ == Seq::<char>::empty()
    &&& ctx.from_id == 0
    &&& ctx.peer_id == 0
    &&& ctx.id == 0
    &&& ctx.event is Unknown
    &&& ctx.data == UserData::Empty
    &&& ctx.config == config
    &&& match ctx.attachments {
        Attachments::TG(att) => att is None,
        Attachments::VK(_) => false,
    }
}

/// Two attachment records that both agree with a third agree with each other.
pub proof fn lemma_tg_attachment_agrees_joint(
    a: Option<TGAttachment>,
    b: Option<TGAttachment>,
    c: Option<TGAttachment>,
)
    requires
        tg_attachments_agree(a, c),
        tg_attachments_agree(b, c),
    ensures
        tg_attachments_agree(a, b),
{
}

/// Normalization of a Telegram update is pure: any two contexts normalized
/// from the same update under the same configuration carry the same text,
/// identifiers, event class, raw event, user data and configuration, and
/// attachment records that agree field for field.
pub proof fn lemma_tg_normalize_pure(
    u: TGUpdate,
    config: Config,
    c1: UnifyedContext,
    c2: UnifyedContext,
)
    requires
        u.normalized(config, c1),
        u.normalized(config, c2),
    ensures
        c1.text@ == c2.text@,
        c1.from_id == c2.from_id,
        c1.peer_id == c2.peer_id,
        c1.id == c2.id,
        c1.event_type == c2.event_type,
        c1.platform == c2.platform,
        c1.event == c2.event,
        c1.data == c2.data,
        c1.config == c2.config,
        match (c1.attachments, c2.attachments) {
            (Attachments::TG(a), Attachments::TG(b)) => tg_attachments_agree(a, b),
            _ => false,
        },
{
}

/// A Telegram update in which no sub-event was recognized normalizes to the
/// unknown event class with zeroed identifiers and empty text.
pub proof fn lemma_tg_unrecognized(u: TGUpdate, config: Config, ctx: UnifyedContext)
    requires
        !u.spec_recognized(),
        u.normalized(config, ctx),
    ensures
        ctx.event_type == EventType::Unknown,
        ctx.from_id == 0,
        ctx.peer_id == 0,
        ctx.id == 0,
        ctx.text@ == Seq::<char>::empty(),
{
}

/// Every context normalized from a Telegram update is well formed: the
/// populated raw-event variant matches the platform and event class, and the
/// attachment record corresponds to the raw event.
pub proof fn lemma_tg_normalized_wf(u: TGUpdate, config: Config, ctx: UnifyedContext)
    requires
        u.normalized(config, ctx),
    ensures
        ctx.wf(),
{
}

} // verus!
