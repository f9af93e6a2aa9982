//! Keyboards: one platform-neutral button description, mapped at
//! construction time into the platform's own button shape. Payloads travel
//! as JSON text; turning the finished markup into the wire form is the
//! transport's job.

use vstd::prelude::*;

use crate::context::Platform;

verus! {

/// A button color, as the VK keyboard styles them.
#[derive(Debug, Clone, Copy, PartialEq, Eq, Structural)]
pub enum Color {
    Negative,
    Positive,
    Secondary,
    Primary,
}

impl Color {
    /// The color's wire name.
    pub open spec fn spec_as_string(self) -> Seq<char> {
        match self {
            Color::Negative => "negative"@,
            Color::Positive => "positive"@,
            Color::Secondary => "secondary"@,
            Color::Primary => "primary"@,
        }
    }

    /// The color's wire name.
    pub fn as_string(&self) -> (s: String)
        ensures
            s@ == self.spec_as_string(),
    {
        match self {
            Color::Negative => "negative".to_owned(),
            Color::Positive => "positive".to_owned(),
            Color::Secondary => "secondary".to_owned(),
            Color::Primary => "primary".to_owned(),
        }
    }
}

#[derive(Debug, Clone, PartialEq)]
pub struct TGInlineWebApp {
    pub url: String,
}

#[derive(Debug, Clone, PartialEq)]
pub struct TGInlineLogin {
    pub url: String,
    pub forward_text: Option<String>,
    pub bot_username: Option<String>,
    pub request_write_access: Option<bool>,
}

#[derive(Debug, Clone, PartialEq)]
pub struct TGSwitchInlineQueryChoosenChat {
    pub query: Option<String>,
    pub allow_user_chats: Option<bool>,
    pub allow_bot_chats: Option<bool>,
    pub allow_group_chats: Option<bool>,
    pub allow_channel_chats: Option<bool>,
}

#[derive(Debug, Clone, PartialEq)]
pub struct TGCallbackGame {
    pub user_id: Option<i64>,
    pub score: Option<i64>,
    pub force: Option<bool>,
    pub disable_edit_message: Option<bool>,
    pub chat_id: Option<i64>,
    pub message_id: Option<i64>,
    pub inline_message_id: Option<String>,
}

#[derive(Debug, Clone, PartialEq)]
pub struct TGKeyboardButtonRequestUsers {
    pub request_id: i64,
    pub user_is_bot: Option<bool>,
    pub user_is_premium: Option<bool>,
    pub max_quanity: Option<i8>,
}

#[derive(Debug, Clone, PartialEq)]
pub struct TGKeyboardButtonRequestChat {
    pub request_id: i64,
    pub chat_is_channel: Option<bool>,
    pub chat_is_forum: Option<bool>,
    pub chat_has_username: Option<bool>,
    pub chat_is_created: Option<bool>,
    pub user_administrator_rights: Option<crate::tg_api::TGChatAdministratorRights>,
    pub bot_administrator_rights: Option<crate::tg_api::TGChatAdministratorRights>,
    pub bot_is_member: Option<bool>,
}

#[derive(Debug, Clone, PartialEq)]
pub struct TGKeyboardButtonPollType {
    pub kind: String,
}

/// One platform-neutral button description; data payloads are JSON text.
#[derive(Debug, Clone, PartialEq)]
pub enum KeyboardButton {
    Text { label: String, color: Color, data: Option<String> },
    Url { label: String, link: String, color: Color, data: Option<String> },
    Location { label: String, color: Color, data: Option<String> },
    VKPay { label: String, hash: String, color: Color, data: Option<String> },
    VKApp {
        label: String,
        app_id: u32,
        owner_id: u32,
        hash: String,
        color: Color,
        data: Option<String>,
    },
    Callback { label: String, color: Color, data: Option<String> },
    TGInline {
        text: String,
        url: Option<String>,
        callback_data: Option<String>,
        web_app: Option<TGInlineWebApp>,
        login: Option<TGInlineLogin>,
        switch_inline_query: Option<String>,
        switch_inline_query_current_chat: Option<String>,
        switch_inline_query_choosen_chat: Option<TGSwitchInlineQueryChoosenChat>,
        callback_game: Option<TGCallbackGame>,
        pay: Option<bool>,
    },
    TGKeyboardButton {
        text: String,
        request_contact: Option<bool>,
        request_location: Option<bool>,
        request_users: Option<TGKeyboardButtonRequestUsers>,
        request_chat: Option<TGKeyboardButtonRequestChat>,
        request_poll: Option<TGKeyboardButtonPollType>,
        web_app: Option<TGInlineWebApp>,
    },
    TGKeyboardRemove { remove_keyboard: bool, selective: Option<bool> },
    TGForceReply {
        force_reply: bool,
        selective: Option<bool>,
        input_field_placeholder: Option<String>,
    },
}

/// A Telegram button in wire shape; unset fields stay away from the wire.
#[derive(Debug, Clone, PartialEq)]
pub struct TGKeyboardButton {
    pub text: String,
    pub callback_data: Option<String>,
    pub url: Option<String>,
    pub web_app: Option<TGInlineWebApp>,
    pub login: Option<TGInlineLogin>,
    pub switch_inline_query: Option<String>,
    pub switch_inline_query_current_chat: Option<String>,
    pub switch_inline_query_choosen_chat: Option<TGSwitchInlineQueryChoosenChat>,
    pub callback_game: Option<TGCallbackGame>,
    pub pay: Option<bool>,
    pub request_contact: Option<bool>,
    pub request_location: Option<bool>,
    pub request_users: Option<TGKeyboardButtonRequestUsers>,
    pub request_chat: Option<TGKeyboardButtonRequestChat>,
    pub request_poll: Option<TGKeyboardButtonPollType>,
    pub remove_keyboard: Option<bool>,
    pub selective: Option<bool>,
    pub force_reply: Option<bool>,
    pub input_field_placeholder: Option<String>,
}

/// A VK button in wire shape.
#[derive(Debug, Clone, PartialEq)]
pub struct VKKeyboardButton {
    pub action: KeyboardButtonAction,
    pub color: Option<String>,
}

/// The action of a VK wire button.
#[derive(Debug, Clone, PartialEq)]
pub struct KeyboardButtonAction {
    pub kind: String,
    pub payload: Option<String>,
    pub label: Option<String>,
    pub link: Option<String>,
    pub hash: Option<String>,
    pub app_id: Option<u32>,
    pub owner_id: Option<u32>,
}

/// A whole VK keyboard in wire shape.
#[derive(Debug, Clone, PartialEq)]
pub struct VKKeyboard {
    pub one_time: bool,
    pub inline: bool,
    pub buttons: Vec<Vec<VKKeyboardButton>>,
}

/// The Telegram reply-keyboard markup wrapper.
#[derive(Debug, Clone, PartialEq)]
pub struct ReplyKeyboardMarkup {
    pub keyboard: Vec<Vec<TGKeyboardButton>>,
    pub one_time_keyboard: bool,
}

/// The Telegram inline-keyboard markup wrapper.
#[derive(Debug, Clone, PartialEq)]
pub struct InlineKeyboardMarkup {
    pub inline_keyboard: Vec<Vec<TGKeyboardButton>>,
}

/// A keyboard built for one platform: the platform's own buttons, and the
/// flags the wire wrappers need.
#[derive(Debug, Clone, PartialEq)]
pub struct Keyboard {
    pub inline: bool,
    pub one_time: bool,
    pub vk_buttons: Option<VKKeyboard>,
    pub tg_buttons: Option<Vec<Vec<TGKeyboardButton>>>,
}

/// How one neutral button maps to the VK wire shape: the action type tag per
/// variant, the button's own label, link, hash, application ids and payload
/// carried over, and the color's wire name; a Telegram-only button degrades
/// to a plain primary text button.
pub open spec fn vk_maps(b: KeyboardButton, r: VKKeyboardButton) -> bool {
    match b {
        KeyboardButton::Text { label, color, data } => {
            &&& r.action.kind@ == "text"@
            &&& r.action.label == Some(label)
            &&& r.action.payload == data
            &&& r.action.link is None && r.action.hash is None && r.action.app_id is None
                && r.action.owner_id is None
            &&& r.color matches Some(c) && c@ == color.spec_as_string()
        },
        KeyboardButton::Url { label, link, color, data } => {
            &&& r.action.kind@ == "open_link"@
            &&& r.action.label == Some(label)
            &&& r.action.link == Some(link)
            &&& r.action.payload == data
            &&& r.action.hash is None && r.action.app_id is None && r.action.owner_id is None
            &&& r.color matches Some(c) && c@ == color.spec_as_string()
        },
        KeyboardButton::Location { label, color, data } => {
            &&& r.action.kind@ == "location"@
            &&& r.action.label == Some(label)
            &&& r.action.payload == data
            &&& r.action.link is None && r.action.hash is None && r.action.app_id is None
                && r.action.owner_id is None
            &&& r.color matches Some(c) && c@ == color.spec_as_string()
        },
        KeyboardButton::VKPay { label, hash, color, data } => {
            &&& r.action.kind@ == "vkpay"@
            &&& r.action.label == Some(label)
            &&& r.action.hash == Some(hash)
            &&& r.action.payload == data
            &&& r.action.link is None && r.action.app_id is None && r.action.owner_id is None
            &&& r.color matches Some(c) && c@ == color.spec_as_string()
        },
        KeyboardButton::VKApp { label, app_id, owner_id, hash, color, data } => {
            &&& r.action.kind@ == "open_app"@
            &&& r.action.label == Some(label)
            &&& r.action.app_id == Some(app_id)
            &&& r.action.owner_id == Some(owner_id)
            &&& r.action.hash == Some(hash)
            &&& r.action.payload == data
            &&& r.action.link is None
            &&& r.color matches Some(c) && c@ == color.spec_as_string()
        },
        KeyboardButton::Callback { label, color, data } => {
            &&& r.action.kind@ == "callback"@
            &&& r.action.label == Some(label)
            &&& r.action.payload == data
            &&& r.action.link is None && r.action.hash is None && r.action.app_id is None
                && r.action.owner_id is None
            &&& r.color matches Some(c) && c@ == color.spec_as_string()
        },
        KeyboardButton::TGInline { text, callback_data, .. } => {
            &&& r.action.kind@ == "text"@
            &&& r.action.label == Some(text)
            &&& r.action.payload == callback_data
            &&& r.action.link is None && r.action.hash is None && r.action.app_id is None
                && r.action.owner_id is None
            &&& r.color matches Some(c) && c@ == "primary"@
        },
        KeyboardButton::TGKeyboardButton { text, .. } => {
            &&& r.action.kind@ == "text"@
            &&& r.action.label == Some(text)
            &&& r.action.payload is None
            &&& r.action.link is None && r.action.hash is None && r.action.app_id is None
                && r.action.owner_id is None
            &&& r.color matches Some(c) && c@ == "primary"@
        },
        _ => {
            &&& r.action.kind@ == "text"@
            &&& r.action.label matches Some(l) && l@ == Seq::<char>::empty()
            &&& r.action.payload is None
            &&& r.action.link is None && r.action.hash is None && r.action.app_id is None
                && r.action.owner_id is None
            &&& r.color matches Some(c) && c@ == "primary"@
        },
    }
}

/// The Telegram callback payload: the button's own data, or the JSON text of
/// the empty string where the button carries none.
pub open spec fn tg_payload(data: Option<String>, r: Option<String>) -> bool {
    match data {
        Some(d) => r == Some(d),
        None => r matches Some(q) && q@ == "\"\""@,
    }
}

/// How one neutral button maps to the Telegram wire shape: each variant's
/// own fields carried over, the callback payload defaulted where absent, and
/// every field the variant does not speak of left unset.
pub open spec fn tg_maps(b: KeyboardButton, r: TGKeyboardButton) -> bool {
    match b {
        KeyboardButton::Text { label, data, .. } => {
            &&& r.text == label
            &&& tg_payload(data, r.callback_data)
            &&& r.url is None && r.web_app is None && r.login is None
            &&& r.switch_inline_query is None && r.switch_inline_query_current_chat is None
            &&& r.switch_inline_query_choosen_chat is None && r.callback_game is None
            &&& r.pay is None && r.request_contact is None && r.request_location is None
            &&& r.request_users is None && r.request_chat is None && r.request_poll is None
            &&& r.remove_keyboard is None && r.selective is None && r.force_reply is None
            &&& r.input_field_placeholder is None
        },
        KeyboardButton::Url { link, label, data, .. } => {
            &&& r.text == label
            &&& r.url == Some(link)
            &&& tg_payload(data, r.callback_data)
            &&& r.web_app is None && r.login is None
            &&& r.switch_inline_query is None && r.switch_inline_query_current_chat is None
            &&& r.switch_inline_query_choosen_chat is None && r.callback_game is None
            &&& r.pay is None && r.request_contact is None && r.request_location is None
            &&& r.request_users is None && r.request_chat is None && r.request_poll is None
            &&& r.remove_keyboard is None && r.selective is None && r.force_reply is None
            &&& r.input_field_placeholder is None
        },
        KeyboardButton::Location { label, data, .. } => {
            &&& r.text == label
            &&& tg_payload(data, r.callback_data)
            &&& r.url is None && r.web_app is None && r.login is None
            &&& r.switch_inline_query is None && r.switch_inline_query_current_chat is None
            &&& r.switch_inline_query_choosen_chat is None && r.callback_game is None
            &&& r.pay is None && r.request_contact is None && r.request_location is None
            &&& r.request_users is None && r.request_chat is None && r.request_poll is None
            &&& r.remove_keyboard is None && r.selective is None && r.force_reply is None
            &&& r.input_field_placeholder is None
        },
        KeyboardButton::VKPay { label, data, .. } => {
            &&& r.text == label
            &&& tg_payload(data, r.callback_data)
            &&& r.url is None && r.web_app is None && r.login is None
            &&& r.switch_inline_query is None && r.switch_inline_query_current_chat is None
            &&& r.switch_inline_query_choosen_chat is None && r.callback_game is None
            &&& r.pay is None && r.request_contact is None && r.request_location is None
            &&& r.request_users is None && r.request_chat is None && r.request_poll is None
            &&& r.remove_keyboard is None && r.selective is None && r.force_reply is None
            &&& r.input_field_placeholder is None
        },
        KeyboardButton::VKApp { label, data, .. } => {
            &&& r.text == label
            &&& tg_payload(data, r.callback_data)
            &&& r.url is None && r.web_app is None && r.login is None
            &&& r.switch_inline_query is None && r.switch_inline_query_current_chat is None
            &&& r.switch_inline_query_choosen_chat is None && r.callback_game is None
            &&& r.pay is None && r.request_contact is None && r.request_location is None
            &&& r.request_users is None && r.request_chat is None && r.request_poll is None
            &&& r.remove_keyboard is None && r.selective is None && r.force_reply is None
            &&& r.input_field_placeholder is None
        },
        KeyboardButton::Callback { label, data, .. } => {
            &&& r.text == label
            &&& tg_payload(data, r.callback_data)
            &&& r.url is None && r.web_app is None && r.login is None
            &&& r.switch_inline_query is None && r.switch_inline_query_current_chat is None
            &&& r.switch_inline_query_choosen_chat is None && r.callback_game is None
            &&& r.pay is None && r.request_contact is None && r.request_location is None
            &&& r.request_users is None && r.request_chat is None && r.request_poll is None
            &&& r.remove_keyboard is None && r.selective is None && r.force_reply is None
            &&& r.input_field_placeholder is None
        },
        KeyboardButton::TGInline {
            text,
            url,
            callback_data,
            web_app,
            login,
            switch_inline_query,
            switch_inline_query_current_chat,
            switch_inline_query_choosen_chat,
            callback_game,
            pay,
        } => {
            &&& r.text == text
            &&& r.url == url
            &&& tg_payload(callback_data, r.callback_data)
            &&& r.web_app == web_app
            &&& r.login == login
            &&& r.switch_inline_query == switch_inline_query
            &&& r.switch_inline_query_current_chat == switch_inline_query_current_chat
            &&& r.switch_inline_query_choosen_chat == switch_inline_query_choosen_chat
            &&& r.callback_game == callback_game
            &&& r.pay == pay
            &&& r.request_contact is None && r.request_location is None
            &&& r.request_users is None && r.request_chat is None && r.request_poll is None
            &&& r.remove_keyboard is None && r.selective is None && r.force_reply is None
            &&& r.input_field_placeholder is None
        },
        KeyboardButton::TGKeyboardButton {
            text,
            request_contact,
            request_location,
            request_users,
            request_chat,
            request_poll,
            web_app,
        } => {
            &&& r.text == text
            &&& r.request_contact == request_contact
            &&& r.request_location == request_location
            &&& r.request_users == request_users
            &&& r.request_chat == request_chat
            &&& r.request_poll == request_poll
            &&& r.web_app == web_app
            &&& r.callback_data is None && r.url is None && r.login is None
            &&& r.switch_inline_query is None && r.switch_inline_query_current_chat is None
            &&& r.switch_inline_query_choosen_chat is None && r.callback_game is None
            &&& r.pay is None && r.remove_keyboard is None && r.selective is None
            &&& r.force_reply is None && r.input_field_placeholder is None
        },
        KeyboardButton::TGKeyboardRemove { remove_keyboard, selective } => {
            &&& r.text@ == Seq::<char>::empty()
            &&& r.remove_keyboard == Some(remove_keyboard)
            &&& r.selective == selective
            &&& r.callback_data is None && r.url is None && r.web_app is None && r.login is None
            &&& r.switch_inline_query is None && r.switch_inline_query_current_chat is None
            &&& r.switch_inline_query_choosen_chat is None && r.callback_game is None
            &&& r.pay is None && r.request_contact is None && r.request_location is None
            &&& r.request_users is None && r.request_chat is None && r.request_poll is None
            &&& r.force_reply is None && r.input_field_placeholder is None
        },
        KeyboardButton::TGForceReply { force_reply, selective, input_field_placeholder } => {
            &&& r.text@ == Seq::<char>::empty()
            &&& r.force_reply == Some(force_reply)
            &&& r.selective == selective
            &&& r.input_field_placeholder == input_field_placeholder
            &&& r.callback_data is None && r.url is None && r.web_app is None && r.login is None
            &&& r.switch_inline_query is None && r.switch_inline_query_current_chat is None
            &&& r.switch_inline_query_choosen_chat is None && r.callback_game is None
            &&& r.pay is None && r.request_contact is None && r.request_location is None
            &&& r.request_users is None && r.request_chat is None && r.request_poll is None
            &&& r.remove_keyboard is None
        },
    }
}

/// Maps one neutral button to the VK wire shape.
fn map_vk_button(b: KeyboardButton) -> (r: VKKeyboardButton)
    ensures
        vk_maps(b, r),
{
    match b {
        KeyboardButton::Text { label, color, data } => VKKeyboardButton {
            action: KeyboardButtonAction {
                kind: "text".to_owned(),
                payload: data,
                label: Some(label),
                link: None,
                hash: None,
                app_id: None,
                owner_id: None,
            },
            color: Some(color.as_string()),
        },
        KeyboardButton::Url { label, link, color, data } => VKKeyboardButton {
            action: KeyboardButtonAction {
                kind: "open_link".to_owned(),
                payload: data,
                label: Some(label),
                link: Some(link),
                hash: None,
                app_id: None,
                owner_id: None,
            },
            color: Some(color.as_string()),
        },
        KeyboardButton::Location { label, color, data } => VKKeyboardButton {
            action: KeyboardButtonAction {
                kind: "location".to_owned(),
                payload: data,
                label: Some(label),
                link: None,
                hash: None,
                app_id: None,
                owner_id: None,
            },
            color: Some(color.as_string()),
        },
        KeyboardButton::VKPay { label, hash, color, data } => VKKeyboardButton {
            action: KeyboardButtonAction {
                kind: "vkpay".to_owned(),
                payload: data,
                label: Some(label),
                link: None,
                hash: Some(hash),
                app_id: None,
                owner_id: None,
            },
            color: Some(color.as_string()),
        },
        KeyboardButton::VKApp { label, app_id, owner_id, hash, color, data } => VKKeyboardButton {
            action: KeyboardButtonAction {
                kind: "open_app".to_owned(),
                payload: data,
                label: Some(label),
                link: None,
                hash: Some(hash),
                app_id: Some(app_id),
                owner_id: Some(owner_id),
            },
            color: Some(color.as_string()),
        },
        KeyboardButton::Callback { label, color, data } => VKKeyboardButton {
            action: KeyboardButtonAction {
                kind: "callback".to_owned(),
                payload: data,
                label: Some(label),
                link: None,
                hash: None,
                app_id: None,
                owner_id: None,
            },
            color: Some(color.as_string()),
        },
        KeyboardButton::TGInline { text, callback_data, .. } => VKKeyboardButton {
            action: KeyboardButtonAction {
                kind: "text".to_owned(),
                payload: callback_data,
                label: Some(text),
                link: None,
                hash: None,
                app_id: None,
                owner_id: None,
            },
            color: Some("primary".to_owned()),
        },
        KeyboardButton::TGKeyboardButton { text, .. } => VKKeyboardButton {
            action: KeyboardButtonAction {
                kind: "text".to_owned(),
                payload: None,
                label: Some(text),
                link: None,
                hash: None,
                app_id: None,
                owner_id: None,
            },
            color: Some("primary".to_owned()),
        },
        _ => VKKeyboardButton {
            action: KeyboardButtonAction {
                kind: "text".to_owned(),
                payload: None,
                label: Some(String::new()),
                link: None,
                hash: None,
                app_id: None,
                owner_id: None,
            },
            color: Some("primary".to_owned()),
        },
    }
}

/// The Telegram callback payload of one button.
fn tg_callback_payload(data: Option<String>) -> (r: Option<String>)
    ensures
        tg_payload(data, r),
{
    match data {
        Some(d) => Some(d),
        None => Some("\"\"".to_owned()),
    }
}

/// A Telegram wire button with nothing set but its text.
fn tg_text_button(text: String) -> (r: TGKeyboardButton)
    ensures
        r == (TGKeyboardButton { text, ..r }),
        r.callback_data is None && r.url is None && r.web_app is None && r.login is None,
        r.switch_inline_query is None && r.switch_inline_query_current_chat is None,
        r.switch_inline_query_choosen_chat is None && r.callback_game is None,
        r.pay is None && r.request_contact is None && r.request_location is None,
        r.request_users is None && r.request_chat is None && r.request_poll is None,
        r.remove_keyboard is None && r.selective is None && r.force_reply is None,
        r.input_field_placeholder is None,
{
    TGKeyboardButton {
        text,
        callback_data: None,
        url: None,
        web_app: None,
        login: None,
        switch_inline_query: None,
        switch_inline_query_current_chat: None,
        switch_inline_query_choosen_chat: None,
        callback_game: None,
        pay: None,
        request_contact: None,
        request_location: None,
        request_users: None,
        request_chat: None,
        request_poll: None,
        remove_keyboard: None,
        selective: None,
        force_reply: None,
        input_field_placeholder: None,
    }
}

/// Maps one neutral button to the Telegram wire shape.
fn map_tg_button(b: KeyboardButton) -> (r: TGKeyboardButton)
    ensures
        tg_maps(b, r),
{
    match b {
        KeyboardButton::Text { label, data, .. } => {
            let mut r = tg_text_button(label);
            r.callback_data = tg_callback_payload(data);
            r
        },
        KeyboardButton::Url { label, link, data, .. } => {
            let mut r = tg_text_button(label);
            r.url = Some(link);
            r.callback_data = tg_callback_payload(data);
            r
        },
        KeyboardButton::Location { label, data, .. } => {
            let mut r = tg_text_button(label);
            r.callback_data = tg_callback_payload(data);
            r
        },
        KeyboardButton::VKPay { label, data, .. } => {
            let mut r = tg_text_button(label);
            r.callback_data = tg_callback_payload(data);
            r
        },
        KeyboardButton::VKApp { label, data, .. } => {
            let mut r = tg_text_button(label);
            r.callback_data = tg_callback_payload(data);
            r
        },
        KeyboardButton::Callback { label, data, .. } => {
            let mut r = tg_text_button(label);
            r.callback_data = tg_callback_payload(data);
            r
        },
        KeyboardButton::TGInline {
            text,
            url,
            callback_data,
            web_app,
            login,
            switch_inline_query,
            switch_inline_query_current_chat,
            switch_inline_query_choosen_chat,
            callback_game,
            pay,
        } => {
            let mut r = tg_text_button(text);
            r.url = url;
            r.callback_data = tg_callback_payload(callback_data);
            r.web_app = web_app;
            r.login = login;
            r.switch_inline_query = switch_inline_query;
            r.switch_inline_query_current_chat = switch_inline_query_current_chat;
            r.switch_inline_query_choosen_chat = switch_inline_query_choosen_chat;
            r.callback_game = callback_game;
            r.pay = pay;
            r
        },
        KeyboardButton::TGKeyboardButton {
            text,
            request_contact,
            request_location,
            request_users,
            request_chat,
            request_poll,
            web_app,
        } => {
            let mut r = tg_text_button(text);
            r.request_contact = request_contact;
            r.request_location = request_location;
            r.request_users = request_users;
            r.request_chat = request_chat;
            r.request_poll = request_poll;
            r.web_app = web_app;
            r
        },
        KeyboardButton::TGKeyboardRemove { remove_keyboard, selective } => {
            let mut r = tg_text_button(String::new());
            r.remove_keyboard = Some(remove_keyboard);
            r.selective = selective;
            r
        },
        KeyboardButton::TGForceReply { force_reply, selective, input_field_placeholder } => {
            let mut r = tg_text_button(String::new());
            r.force_reply = Some(force_reply);
            r.selective = selective;
            r.input_field_placeholder = input_field_placeholder;
            r
        },
    }
}

impl Keyboard {
    /// Builds a keyboard for one platform: every row and every button mapped
    /// to that platform's wire shape, in place, rows and columns preserved;
    /// the other platform's side stays empty.
    pub fn new(
        buttons: Vec<Vec<KeyboardButton>>,
        inline: bool,
        one_time: bool,
        platform: &Platform,
    ) -> (k: Keyboard)
        ensures
            k.inline == inline,
            k.one_time == one_time,
            match platform {
                Platform::VK => {
                    &&& k.tg_buttons is None
                    &&& k.vk_buttons matches Some(vk) && {
                        &&& vk.inline == inline
                        &&& vk.one_time == one_time
                        &&& vk.buttons@.len() == buttons@.len()
                        &&& forall|i: int|
                            0 <= i < buttons@.len() ==> #[trigger] vk.buttons@[i]@.len()
                                == buttons@[i]@.len()
                        &&& forall|i: int, j: int|
                            0 <= i < buttons@.len() && 0 <= j < buttons@[i]@.len()
                                ==> vk_maps(buttons@[i]@[j], #[trigger] vk.buttons@[i]@[j])
                    }
                },
                Platform::Telegram => {
                    &&& k.vk_buttons is None
                    &&& k.tg_buttons matches Some(tg) && {
                        &&& tg@.len() == buttons@.len()
                        &&& forall|i: int|
                            0 <= i < buttons@.len() ==> #[trigger] tg@[i]@.len()
                                == buttons@[i]@.len()
                        &&& forall|i: int, j: int|
                            0 <= i < buttons@.len() && 0 <= j < buttons@[i]@.len()
                                ==> tg_maps(buttons@[i]@[j], #[trigger] tg@[i]@[j])
                    }
                },
            },
    {
        let ghost rows0 = buttons@;
        let mut rows = buttons;
        match platform {
            Platform::VK => {
                let mut mapped: Vec<Vec<VKKeyboardButton>> = Vec::new();
                while rows.len() > 0
                    invariant
                        mapped@.len() + rows@.len() == rows0.len(),
                        rows@ =~= rows0.skip(mapped@.len() as int),
                        forall|i: int|
                            0 <= i < mapped@.len() ==> #[trigger] mapped@[i]@.len()
                                == rows0[i]@.len(),
                        forall|i: int, j: int|
                            0 <= i < mapped@.len() && 0 <= j < rows0[i]@.len() ==> vk_maps(
                                rows0[i]@[j],
                                #[trigger] mapped@[i]@[j],
                            ),
                    decreases rows.len(),
                {
                    let ghost done = mapped@.len() as int;
                    let mut row = rows.remove(0);
                    proof {
                        assert(row == rows0[done]);
                        assert(rows@ =~= rows0.skip(done + 1));
                    }
                    let ghost row0 = row@;
                    let mut mapped_row: Vec<VKKeyboardButton> = Vec::new();
                    while row.len() > 0
                        invariant
                            mapped_row@.len() + row@.len() == row0.len(),
                            row@ =~= row0.skip(mapped_row@.len() as int),
                            forall|j: int|
                                0 <= j < mapped_row@.len() ==> vk_maps(
                                    row0[j],
                                    #[trigger] mapped_row@[j],
                                ),
                        decreases row.len(),
                    {
                        let ghost cdone = mapped_row@.len() as int;
                        let b = row.remove(0);
                        proof {
                            assert(b == row0[cdone]);
                            assert(row@ =~= row0.skip(cdone + 1));
                        }
                        mapped_row.push(map_vk_button(b));
                    }
                    mapped.push(mapped_row);
                }
                Keyboard {
                    inline,
                    one_time,
                    vk_buttons: Some(VKKeyboard { one_time, inline, buttons: mapped }),
                    tg_buttons: None,
                }
            },
            Platform::Telegram => {
                let mut mapped: Vec<Vec<TGKeyboardButton>> = Vec::new();
                while rows.len() > 0
                    invariant
                        mapped@.len() + rows@.len() == rows0.len(),
                        rows@ =~= rows0.skip(mapped@.len() as int),
                        forall|i: int|
                            0 <= i < mapped@.len() ==> #[trigger] mapped@[i]@.len()
                                == rows0[i]@.len(),
                        forall|i: int, j: int|
                            0 <= i < mapped@.len() && 0 <= j < rows0[i]@.len() ==> tg_maps(
                                rows0[i]@[j],
                                #[trigger] mapped@[i]@[j],
                            ),
                    decreases rows.len(),
                {
                    let ghost done = mapped@.len() as int;
                    let mut row = rows.remove(0);
                    proof {
                        assert(row == rows0[done]);
                        assert(rows@ =~= rows0.skip(done + 1));
                    }
                    let ghost row0 = row@;
                    let mut mapped_row: Vec<TGKeyboardButton> = Vec::new();
                    while row.len() > 0
                        invariant
                            mapped_row@.len() + row@.len() == row0.len(),
                            row@ =~= row0.skip(mapped_row@.len() as int),
                            forall|j: int|
                                0 <= j < mapped_row@.len() ==> tg_maps(
                                    row0[j],
                                    #[trigger] mapped_row@[j],
                                ),
                        decreases row.len(),
                    {
                        let ghost cdone = mapped_row@.len() as int;
                        let b = row.remove(0);
                        proof {
                            assert(b == row0[cdone]);
                            assert(row@ =~= row0.skip(cdone + 1));
                        }
                        mapped_row.push(map_tg_button(b));
                    }
                    mapped.push(mapped_row);
                }
                Keyboard { inline, one_time, vk_buttons: None, tg_buttons: Some(mapped) }
            },
        }
    }
}

} // verus!
