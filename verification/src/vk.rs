//! Decoded update shapes for the VK platform (long-poll and callback wire
//! formats), and their normalization into the unified context.

use vstd::prelude::*;

use crate::config::Config;
use crate::context::{Event, EventType, Platform, UnifyContext, UnifyedContext, UserData};
use crate::context::Attachments;
use crate::vk_attachments::{VKAttachment, unify_attachments, vk_attachments_agree};
use crate::vk_attachments::spec_vk_attachments;

verus! {

/// The long-poll server handle: key, server URL, and resume position.
#[derive(Debug, Clone, PartialEq)]
pub struct VKGetServer {
    pub key: String,
    pub server: String,
    pub ts: String,
}

#[derive(Debug, Clone, PartialEq)]
pub struct VKGetServerResponse {
    pub response: VKGetServer,
}

/// One long-poll answer: the next resume position and a batch of updates.
#[derive(Debug)]
pub struct VKGetUpdates {
    pub failed: Option<i16>,
    pub ts: String,
    pub updates: Option<Vec<VKUpdate>>,
}

#[derive(Debug, Clone, PartialEq)]
pub struct VKTs {
    pub ts: String,
}

/// One decoded VK update: a type tag and an optional payload.
#[derive(Debug)]
pub struct VKUpdate {
    pub kind: String,
    pub object: Option<VKObject>,
}

/// The two payload shapes a VK update can carry.
#[derive(Debug)]
pub enum VKObject {
    MessageNew(VKMessageNew),
    MessageEvent(VKMessageEvent),
}

#[derive(Debug, Clone, PartialEq)]
pub struct VKMessageEvent {
    pub user_id: i64,
    pub peer_id: i64,
    pub event_id: String,
    pub payload: String,
    pub conversation_message_id: i64,
}

#[derive(Debug)]
pub struct VKMessageNew {
    pub message: VKMessage,
}

/// A decoded VK message.
#[derive(Debug)]
pub struct VKMessage {
    pub text: String,
    pub from_id: i64,
    pub peer_id: i64,
    pub id: i64,
    pub payload: Option<String>,
    pub fwd_messages: Option<Vec<VKMessage>>,
    pub reply_message: Option<Box<VKMessage>>,
    pub ref_: Option<String>,
    pub ref_source: Option<String>,
    pub attachments: Option<Vec<VKAttachment>>,
    pub important: Option<bool>,
    pub random_id: Option<i64>,
    pub conversation_message_id: Option<i64>,
    pub action: Option<VKMessageAction>,
    pub admin_author_id: Option<i64>,
    pub conversation_chat_id: Option<i64>,
    pub is_hidden: Option<bool>,
    pub update_time: Option<i64>,
    pub was_listened: Option<bool>,
    pub pinned_at: Option<i64>,
    pub message_tag: Option<String>,
    pub is_cropped: Option<bool>,
    pub members_count: Option<i64>,
}

#[derive(Debug, Clone, PartialEq)]
pub struct VKMessageAction {
    pub kind: String,
    pub member_id: Option<i64>,
    pub text: Option<String>,
    pub email: Option<String>,
    pub photo: Option<VKPhoto>,
}

#[derive(Debug, Clone, PartialEq)]
pub struct VKPhoto {
    pub photo_50: Option<String>,
    pub photo_100: Option<String>,
    pub photo_200: Option<String>,
}

#[derive(Debug, Clone, PartialEq)]
pub struct VKProfile {
    pub id: i64,
    pub first_name: String,
    pub last_name: String,
    pub is_closed: bool,
    pub deactivated: bool,
    pub can_access_closed: bool,
}

#[derive(Debug, Clone, PartialEq)]
pub struct VKGroup {
    pub id: i64,
    pub name: String,
    pub screen_name: String,
    pub is_closed: bool,
    pub deactivated: String,
    pub is_admin: bool,
    pub admin_level: i64,
    pub is_member: bool,
    pub is_advertiser: bool,
    pub invited_by: i64,
    pub kind: String,
    pub photo_50: String,
    pub photo_100: String,
    pub photo_200: String,
}

#[derive(Debug, Clone, PartialEq)]
pub struct VKPeer {
    pub id: i64,
    pub kind: String,
    pub local_id: Option<i64>,
}

#[derive(Debug, Clone, PartialEq)]
pub struct VKPushSettings {
    pub disabled_until: i64,
    pub disabled_forever: bool,
    pub no_sound: bool,
}

#[derive(Debug, Clone, PartialEq)]
pub struct VKCanWrite {
    pub allowed: bool,
    pub reason: i64,
}

#[derive(Debug, Clone, PartialEq)]
pub struct VKChatPhoto {
    pub photo_50: String,
    pub photo_100: String,
    pub photo_200: String,
}

impl VKUpdate {
    /// The event class the fixed recognition order assigns to this update.
    pub open spec fn spec_event_type(self) -> EventType {
        match self.object {
            Some(VKObject::MessageNew(_)) => EventType::MessageNew,
            Some(VKObject::MessageEvent(_)) => EventType::CallbackQuery,
            None => EventType::Unknown,
        }
    }

    /// The text the recognized sub-event supplies; empty when unrecognized.
    pub open spec fn spec_text(self) -> Seq<char> {
        match self.object {
            Some(VKObject::MessageNew(m)) => m.message.text@,
            Some(VKObject::MessageEvent(e)) => e.payload@,
            None => Seq::empty(),
        }
    }

    /// The sender id; zero when unrecognized.
    pub open spec fn spec_from_id(self) -> i64 {
        match self.object {
            Some(VKObject::MessageNew(m)) => m.message.from_id,
            Some(VKObject::MessageEvent(e)) => e.user_id,
            None => 0,
        }
    }

    /// The conversation id; zero when unrecognized.
    pub open spec fn spec_peer_id(self) -> i64 {
        match self.object {
            Some(VKObject::MessageNew(m)) => m.message.peer_id,
            Some(VKObject::MessageEvent(e)) => e.peer_id,
            None => 0,
        }
    }

    /// The event id; zero when unrecognized.
    pub open spec fn spec_id(self) -> i64 {
        match self.object {
            Some(VKObject::MessageNew(m)) => m.message.id,
            Some(VKObject::MessageEvent(e)) => e.conversation_message_id,
            None => 0,
        }
    }

    /// The raw-event value the context keeps: the whole decoded update when a
    /// sub-event was recognized, and the explicit nothing-matched value else.
    pub open spec fn spec_event(self) -> Event {
        match self.object {
            Some(_) => Event::VK(self),
            None => Event::Unknown,
        }
    }

    /// The attachment list the context keeps: the message's attachments for a
    /// new message, and the empty list for every other update.
    pub open spec fn spec_attachments(self) -> Seq<VKAttachment> {
        match self.object {
            Some(VKObject::MessageNew(m)) => spec_vk_attachments(Some(m.message)),
            _ => spec_vk_attachments(None),
        }
    }

}

impl UnifyContext for VKUpdate {
    /// Everything normalization promises of the produced context, as one
    /// relation between the consumed update and the result.
    open spec fn normalized(self, config: Config, ctx: UnifyedContext) -> bool {
        &&& ctx.platform == Platform::VK
        &&& ctx.event_type == self.spec_event_type()
        &&& ctx.text@ == self.spec_text()
        &&& ctx.from_id == self.spec_from_id()
        &&& ctx.peer_id == self.spec_peer_id()
        &&& ctx.id == self.spec_id()
        &&& ctx.event == self.spec_event()
        &&& ctx.data == UserData::Empty
        &&& ctx.config == config
        &&& match ctx.attachments {
            Attachments::VK(atts) => vk_attachments_agree(atts@, self.spec_attachments()),
            Attachments::TG(_) => false,
        }
    }

    /// Normalizes one VK update: the fixed recognition order tries the new
    /// message and then the callback event; anything else degrades to the
    /// unknown event with zeroed identifiers and empty text. Pure: every
    /// field of the result is a function of the update and the configuration.
    fn unify(self, config: &Config) -> (ctx: UnifyedContext) {
        match self.object {
            Some(VKObject::MessageNew(m)) => {
                let text = m.message.text.clone();
                let from_id = m.message.from_id;
                let peer_id = m.message.peer_id;
                let id = m.message.id;
                let attachments = unify_attachments(Some(&m.message));
                UnifyedContext {
                    text,
                    from_id,
                    peer_id,
                    id,
                    event_type: EventType::MessageNew,
                    platform: Platform::VK,
                    data: UserData::Empty,
                    event: Event::VK(VKUpdate { kind: self.kind, object: Some(VKObject::MessageNew(m)) }),
                    attachments: Attachments::VK(attachments),
                    config: config.clone(),
                }
            },
            Some(VKObject::MessageEvent(e)) => {
                let text = e.payload.clone();
                let from_id = e.user_id;
                let peer_id = e.peer_id;
                let id = e.conversation_message_id;
                UnifyedContext {
                    text,
                    from_id,
                    peer_id,
                    id,
                    event_type: EventType::CallbackQuery,
                    platform: Platform::VK,
                    data: UserData::Empty,
                    event: Event::VK(VKUpdate { kind: self.kind, object: Some(VKObject::MessageEvent(e)) }),
                    attachments: Attachments::VK(Vec::new()),
                    config: config.clone(),
                }
            },
            None => UnifyedContext {
                text: String::new(),
                from_id: 0,
                peer_id: 0,
                id: 0,
                event_type: EventType::Unknown,
                platform: Platform::VK,
                data: UserData::Empty,
                event: Event::Unknown,
                attachments: Attachments::VK(Vec::new()),
                config: config.clone(),
            },
        }
    }
}

/// The shape of a context normalized from a VK update in which nothing was
/// recognized: the unknown event class, zeroed identifiers, empty text, no
/// attachments.
pub open spec fn unknown_vk_context(config: Config, ctx: UnifyedContext) -> bool {
    &&& ctx.platform == Platform::VK
    &&& ctx.event_type == EventType::Unknown
    &&& ctx.text@ == Seq::<char>::empty()
    &&& ctx.from_id == 0
    &&& ctx.peer_id == 0
    &&& ctx.id == 0
    &&& ctx.event is Unknown
    &&& ctx.data == UserData::Empty
    &&& ctx.config == config
    &&& match ctx.attachments {
        Attachments::VK(atts) => atts@.len() == 0,
        Attachments::TG(_) => false,
    }
}

/// Two attachments that both agree with a third agree with each other.
pub proof fn lemma_vk_attachment_agrees_joint(a: VKAttachment, b: VKAttachment, c: VKAttachment)
    requires
        a.agrees(c),
        b.agrees(c),
    ensures
        a.agrees(b),
{
}

/// Normalization of a VK update is pure: any two contexts normalized from the
/// same update under the same configuration carry the same text, identifiers,
/// event class, raw event, user data and configuration, and attachment lists
/// that agree element for element.
pub proof fn lemma_vk_normalize_pure(
    u: VKUpdate,
    config: Config,
    c1: UnifyedContext,
    c2: UnifyedContext,
)
    requires
        u.normalized(config, c1),
        u.normalized(config, c2),
    ensures
        c1.text@ == c2.text@,
        c1.from_id == c2.from_id,
        c1.peer_id == c2.peer_id,
        c1.id == c2.id,
        c1.event_type == c2.event_type,
        c1.platform == c2.platform,
        c1.event == c2.event,
        c1.data == c2.data,
        c1.config == c2.config,
        match (c1.attachments, c2.attachments) {
            (Attachments::VK(a), Attachments::VK(b)) => vk_attachments_agree(a@, b@),
            _ => false,
        },
{
    match (c1.attachments, c2.attachments) {
        (Attachments::VK(a), Attachments::VK(b)) => {
            let s = u.spec_attachments();
            assert forall|i: int| 0 <= i < a@.len() implies #[trigger] a@[i].agrees(b@[i]) by {
                lemma_vk_attachment_agrees_joint(a@[i], b@[i], s[i]);
            }
        },
        _ => {},
    }
}

/// A VK update in which no sub-event was recognized normalizes to the unknown
/// event class with zeroed identifiers and empty text.
pub proof fn lemma_vk_unrecognized(u: VKUpdate, config: Config, ctx: UnifyedContext)
    requires
        u.object is None,
        u.normalized(config, ctx),
    ensures
        ctx.event_type == EventType::Unknown,
        ctx.from_id == 0,
        ctx.peer_id == 0,
        ctx.id == 0,
        ctx.text@ == Seq::<char>::empty(),
{
}

/// Every context normalized from a VK update is well formed: the populated
/// raw-event variant matches the platform and event class, and the attachment
/// list corresponds to the raw event.
pub proof fn lemma_vk_normalized_wf(u: VKUpdate, config: Config, ctx: UnifyedContext)
    requires
        u.normalized(config, ctx),
    ensures
        ctx.wf(),
{
}

} // verus!
