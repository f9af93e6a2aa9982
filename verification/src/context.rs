//! The unified event representation: one context per inbound event,
//! independent of the platform that delivered it.

use vstd::prelude::*;

use crate::config::Config;
use crate::keyboard::Keyboard;
use crate::multipart::File;
use crate::tg::TGUpdate;
use crate::tg_api::TGSendMessageOptions;
use crate::upload::Attachment;
use crate::vk_api::VKMessagesSendOptions;
use crate::tg_attachments::TGAttachment;
use crate::tg_attachments::tg_attachments_agree;
use crate::vk::VKUpdate;
use crate::vk_attachments::VKAttachment;
use crate::vk_attachments::vk_attachments_agree;

verus! {

/// The platform an event was received from.
#[derive(Debug, Clone, Copy, PartialEq, Eq, Structural, Default)]
pub enum Platform {
    #[default]
    VK,
    Telegram,
}

/// The event class a recognized update falls under; `Unknown` stands for
/// every update in which no sub-event was recognized.
#[derive(Debug, Clone, Copy, PartialEq, Eq, Structural)]
pub enum EventType {
    MessageNew,
    MessageEdit,
    InlineQuery,
    ChosenInlineResult,
    CallbackQuery,
    Unknown,
}

/// The raw-event slot: the originating decoded update as a closed sum, with
/// an explicit value for the nothing-matched case.
#[derive(Debug)]
pub enum Event {
    VK(VKUpdate),
    TG(TGUpdate),
    Unknown,
}

/// The context's single user-data slot: a closed union of the few payload
/// kinds the handler layer works with. It starts `Empty` for every new
/// context; nothing persists across events.
#[derive(Debug, Clone, PartialEq)]
pub enum UserData {
    Empty,
    Number(i64),
    Flag(bool),
    Text(String),
    List(Vec<String>),
}

impl UserData {
    /// Equal values; two lists agree when they hold the same strings in the
    /// same order.
    pub open spec fn agrees(self, other: Self) -> bool {
        match (self, other) {
            (UserData::List(a), UserData::List(b)) => a@ == b@,
            _ => self == other,
        }
    }
}

/// The normalized attachment list, one variant per platform.
#[derive(Debug, Clone)]
pub enum Attachments {
    VK(Vec<VKAttachment>),
    TG(Option<TGAttachment>),
}

/// The unified context: one per inbound event, created exactly once by the
/// normalizer and then moved, never shared, through queue, worker and chain.
#[derive(Debug)]
pub struct UnifyedContext {
    pub text: String,
    pub from_id: i64,
    pub peer_id: i64,
    pub id: i64,
    pub event_type: EventType,
    pub platform: Platform,
    pub data: UserData,
    pub event: Event,
    pub attachments: Attachments,
    pub config: Config,
}

/// Options for one send on either platform.
#[derive(Debug, Clone, PartialEq)]
pub struct SendOptions {
    pub vk: VKMessagesSendOptions,
    pub tg: TGSendMessageOptions,
}

/// A message under construction: text and destination from the context it
/// answers, everything else set piece by piece before sending.
#[derive(Debug, Clone)]
pub struct MessageBuilder {
    pub message: String,
    pub chat_id: i64,
    pub config: Config,
    pub platform: Platform,
    pub vk_options: Option<VKMessagesSendOptions>,
    pub tg_options: Option<TGSendMessageOptions>,
    pub keyboard: Option<Keyboard>,
    pub attachments: Option<Vec<Attachment>>,
    pub files: Option<Vec<File>>,
    pub parse_mode: Option<String>,
}

impl MessageBuilder {
    /// Sets the VK options; everything else stays.
    pub fn vk_options(self, options: VKMessagesSendOptions) -> (b: MessageBuilder)
        ensures
            b == (MessageBuilder { vk_options: Some(options), ..self }),
    {
        MessageBuilder { vk_options: Some(options), ..self }
    }

    /// Sets the Telegram options; everything else stays.
    pub fn tg_options(self, options: TGSendMessageOptions) -> (b: MessageBuilder)
        ensures
            b == (MessageBuilder { tg_options: Some(options), ..self }),
    {
        MessageBuilder { tg_options: Some(options), ..self }
    }

    /// Sets the keyboard; everything else stays.
    pub fn keyboard(self, keyboard: Keyboard) -> (b: MessageBuilder)
        ensures
            b == (MessageBuilder { keyboard: Some(keyboard), ..self }),
    {
        MessageBuilder { keyboard: Some(keyboard), ..self }
    }

    /// Sets the attachments; everything else stays.
    pub fn attachments(self, attachments: Vec<Attachment>) -> (b: MessageBuilder)
        ensures
            b == (MessageBuilder { attachments: Some(attachments), ..self }),
    {
        MessageBuilder { attachments: Some(attachments), ..self }
    }

    /// Sets the files; everything else stays.
    pub fn files(self, files: Vec<File>) -> (b: MessageBuilder)
        ensures
            b == (MessageBuilder { files: Some(files), ..self }),
    {
        MessageBuilder { files: Some(files), ..self }
    }

    /// Sets the Telegram parse mode; everything else stays.
    pub fn parse_mode(self, parse_mode: &str) -> (b: MessageBuilder)
        ensures
            b.message == self.message && b.chat_id == self.chat_id && b.config == self.config
                && b.platform == self.platform && b.vk_options == self.vk_options
                && b.tg_options == self.tg_options && b.keyboard == self.keyboard
                && b.attachments == self.attachments && b.files == self.files,
            b.parse_mode matches Some(p) && p@ == parse_mode@,
    {
        MessageBuilder { parse_mode: Some(parse_mode.to_owned()), ..self }
    }
}

/// Normalization: a pure, total function from one decoded platform update
/// and the shared configuration to a unified context.
pub trait UnifyContext: Sized {
    /// The full relation the implementation's `unify` establishes between
    /// the consumed update and the produced context.
    spec fn normalized(self, config: Config, ctx: UnifyedContext) -> bool;

    fn unify(self, config: &Config) -> (ctx: UnifyedContext)
        ensures
            self.normalized(*config, ctx),
    ;
}

impl UnifyedContext {
    /// The attachment list corresponds to the raw event: a VK context carries
    /// exactly the attachments of a recognized new message, a Telegram
    /// context exactly the media record of the update's message field.
    pub open spec fn attachments_consistent(self) -> bool {
        match self.event {
            Event::VK(u) => match self.attachments {
                Attachments::VK(atts) => vk_attachments_agree(atts@, u.spec_attachments()),
                Attachments::TG(_) => false,
            },
            Event::TG(u) => match self.attachments {
                Attachments::TG(att) => tg_attachments_agree(att, u.spec_attachments()),
                Attachments::VK(_) => false,
            },
            Event::Unknown => match self.attachments {
                Attachments::VK(atts) => atts@ =~= Seq::<VKAttachment>::empty(),
                Attachments::TG(att) => att is None,
            },
        }
    }

    /// The platform and event class determine which raw-event variant is
    /// populated, and an unrecognized update carries zeroed identifiers,
    /// empty text and no attachments.
    pub open spec fn wf(self) -> bool {
        &&& match self.event {
            Event::VK(u) => self.platform == Platform::VK && u.object is Some,
            Event::TG(u) => self.platform == Platform::Telegram && u.spec_recognized(),
            Event::Unknown => self.event_type == EventType::Unknown,
        }
        &&& (self.event_type == EventType::Unknown <==> self.event is Unknown)
        &&& (self.event is Unknown ==> self.from_id == 0 && self.peer_id == 0 && self.id == 0
            && self.text@ == Seq::<char>::empty())
        &&& self.attachments_consistent()
    }

    /// Starts a message builder answering this context: the text as given,
    /// the destination and platform taken from the context, nothing else set.
    pub fn message(&self, message: &str) -> (b: MessageBuilder)
        ensures
            b.message@ == message@,
            b.chat_id == self.peer_id,
            b.config == self.config,
            b.platform == self.platform,
            b.vk_options is None && b.tg_options is None && b.keyboard is None,
            b.attachments is None && b.files is None && b.parse_mode is None,
    {
        MessageBuilder {
            message: message.to_owned(),
            chat_id: self.peer_id,
            config: self.config.clone(),
            platform: self.platform,
            vk_options: None,
            tg_options: None,
            keyboard: None,
            attachments: None,
            files: None,
            parse_mode: None,
        }
    }

    /// Stores a value in the context's user-data slot, replacing what was
    /// there; everything else is untouched.
    pub fn set_data(&mut self, data: UserData)
        ensures
            *final(self) == (UnifyedContext { data, ..*old(self) }),
    {
        self.data = data;
    }

    /// Reads the context's user-data slot.
    pub fn get_data(&self) -> (d: UserData)
        ensures
            d.agrees(self.data),
    {
        match &self.data {
            UserData::Empty => UserData::Empty,
            UserData::Number(n) => UserData::Number(*n),
            UserData::Flag(b) => UserData::Flag(*b),
            UserData::Text(s) => UserData::Text(s.clone()),
            UserData::List(items) => {
                let mut copy: Vec<String> = Vec::new();
                let mut i: usize = 0;
                while i < items.len()
                    invariant
                        i <= items.len(),
                        copy@.len() == i,
                        forall|j: int| 0 <= j < i ==> copy@[j] == items@[j],
                    decreases items.len() - i,
                {
                    copy.push(items[i].clone());
                    i += 1;
                }
                proof {
                    assert(copy@ =~= items@);
                }
                UserData::List(copy)
            },
        }
    }

    /// Reads the raw event back out of the context.
    pub fn get_event(&self) -> (e: &Event)
        ensures
            e == self.event,
    {
        &self.event
    }

    /// Reads the normalized attachment list back out of the context.
    pub fn get_attachments(&self) -> (a: &Attachments)
        ensures
            a == self.attachments,
    {
        &self.attachments
    }
}

} // verus!
