//! The VK API's request and answer shapes: plain data mirrored from the wire
//! format. The options of the message-send call also know how to render
//! themselves as request parameters.

use vstd::prelude::*;

use crate::params::{opt_bool_param, opt_i64_param, opt_str_param, params_view, push_opt_bool,
    push_opt_i64, push_opt_str};
use crate::vk::{VKGroup, VKProfile};

verus! {

#[derive(Debug, Clone, PartialEq)]
pub struct Messages {}

#[derive(Debug, Clone, PartialEq, Default)]
pub struct VKMessagesSetChatPhoto {
    pub chat_id: i64,
    pub crop_x: Option<i64>,
    pub crop_y: Option<i64>,
    pub crop_width: Option<i64>,
}

#[derive(Debug, Clone, PartialEq, Default)]
pub struct VKMessagesSetChatPhotoFile {
    pub file: String,
}

#[derive(Debug, Clone, PartialEq, Default)]
pub struct VKMessageChatPhotoUploaded {
    pub file: String,
}

#[derive(Debug, Clone, PartialEq, Default)]
pub struct VKMessagesSendOptions {
    pub peer_id: Option<i64>,
    pub peer_ids: Option<String>,
    pub domain: Option<String>,
    pub chat_id: Option<i64>,
    pub user_ids: Option<String>,
    pub guid: Option<i64>,
    pub lat: Option<String>,
    pub long: Option<String>,
    pub attachment: Option<String>,
    pub reply_to: Option<i64>,
    pub forward_messages: Option<String>,
    pub sticker_id: Option<i64>,
    pub forward: Option<String>,
    pub keyboard: Option<String>,
    pub payload: Option<String>,
    pub template: Option<String>,
    pub message: Option<String>,
    pub dont_parse_links: Option<bool>,
    pub disable_mentions: Option<bool>,
    pub intent: Option<String>,
    pub subscribe_id: Option<i64>,
    pub content_source: Option<String>,
    pub random_id: Option<i64>,
}

#[derive(Debug, Clone, PartialEq, Default)]
pub struct VKMessagesSendResponse {
    pub peer_id: Option<i64>,
    pub message_id: i64,
    pub conversation_message_id: Option<i64>,
    pub error: Option<String>,
}

#[derive(Debug, Clone, PartialEq, Default)]
pub struct VKMessagesCreateChatOptions {
    pub user_ids: Option<String>,
    pub title: Option<String>,
    pub group_id: Option<i64>,
}

#[derive(Debug, Clone, PartialEq, Default)]
pub struct VKMessagesDeleteOptions {
    pub message_ids: Option<String>,
    pub spam: Option<bool>,
    pub group_id: Option<i64>,
    pub delete_for_all: Option<bool>,
    pub reason: Option<i64>,
    pub peer_id: Option<i64>,
    pub cmids: Option<String>,
}

#[derive(Debug, Clone, PartialEq, Default)]
pub struct VKMessagesDeleteResponse {
    pub peer_id: Option<i64>,
    pub message_id: Option<i64>,
    pub conversation_message_id: Option<i64>,
    pub response: i8,
}

#[derive(Debug, Clone, PartialEq, Default)]
pub struct VKMessagesDeleteChatPhotoOptions {
    pub chat_id: i64,
}

#[derive(Debug, Clone, PartialEq, Default)]
pub struct VKMessagesDeleteChatPhotoResponse {
    pub message_id: i64,
    pub chat: Option<VKChat>,
}

#[derive(Debug, Clone, PartialEq, Default)]
pub struct VKChat {
    pub id: i64,
    pub kind: String,
    pub title: String,
    pub admin_id: i64,
    pub users: Vec<i64>,
    pub push_settings: VKPushSettings,
    pub photo_50: Option<String>,
    pub photo_100: Option<String>,
    pub photo_200: Option<String>,
    pub left: Option<i8>,
    pub kicked: Option<i8>,
}

#[derive(Debug, Clone, PartialEq, Default)]
pub struct VKPushSettings {
    pub sound: i8,
    pub disabled_until: i64,
}

#[derive(Debug, Clone, PartialEq, Default)]
pub struct VKMessagesDeleteConversationOptions {
    pub user_id: Option<i64>,
    pub peer_id: Option<i64>,
    pub group_id: Option<i64>,
    pub offset: Option<i64>,
    pub count: Option<i64>,
}

#[derive(Debug, Clone, PartialEq, Default)]
pub struct VKMessagesDeleteConversationResponse {
    pub peer_id: Option<i64>,
    pub last_deleted_id: i64,
    pub response: Option<i8>,
}

#[derive(Debug, Clone, PartialEq, Default)]
pub struct VKMessagesDeleteReactionOptions {
    pub peer_id: i64,
    pub cmid: i64,
}

#[derive(Debug, Clone, PartialEq, Default)]
pub struct VKMessagesEditOptions {
    pub peer_id: i64,
    pub message: Option<String>,
    pub lat: Option<String>,
    pub long: Option<String>,
    pub attachment: Option<String>,
    pub keep_forward_messages: Option<bool>,
    pub keep_snippets: Option<bool>,
    pub group_id: Option<i64>,
    pub dont_parse_links: Option<bool>,
    pub disable_mentions: Option<bool>,
    pub message_id: Option<i64>,
    pub conversation_message_id: Option<i64>,
    pub template: Option<String>,
    pub keyboard: Option<String>,
    pub payload: Option<String>,
}

#[derive(Debug, Clone, PartialEq, Default)]
pub struct VKMessagesEditChatOptions {
    pub chat_id: i64,
    pub title: Option<String>,
}

#[derive(Debug, Clone, PartialEq, Default)]
pub struct VKMessagesGetByConversationMessageIdOptions {
    pub peer_id: i64,
    pub conversation_message_ids: String,
    pub extended: Option<bool>,
    pub fields: Option<String>,
    pub group_id: Option<i64>,
}

#[derive(Debug, Clone, PartialEq, Default)]
pub struct VKMessagesGetByIdOptions {
    pub message_ids: String,
    pub preview_length: Option<i64>,
    pub extended: Option<bool>,
    pub fields: Option<String>,
    pub group_id: Option<i64>,
    pub cmids: Option<i64>,
    pub peer_id: Option<i64>,
}

#[derive(Debug, Clone, PartialEq, Default)]
pub struct VKMessagesGetConversationMembers {
    pub peer_id: i64,
    pub offset: Option<i64>,
    pub count: Option<i64>,
    pub fields: Option<String>,
    pub extended: Option<bool>,
}

#[derive(Debug, Clone, PartialEq, Default)]
pub struct VKMessagesGetConversationMembersResponse {
    pub count: i64,
    pub items: Vec<VKMessagesGetConversationMembersResponseItem>,
    pub chat_restrictions: Option<VKChatRestrictions>,
    pub profiles: Option<Vec<VKProfile>>,
    pub groups: Option<Vec<VKGroup>>,
}

#[derive(Debug, Clone, PartialEq, Default)]
pub struct VKMessagesGetConversationMembersResponseItem {
    pub member_id: i64,
    pub invited_by: i64,
    pub join_date: i64,
    pub is_admin: bool,
    pub can_kick: bool,
}

#[derive(Debug, Clone, PartialEq, Default)]
pub struct VKChatRestrictions {
    pub admins_promote_users: bool,
    pub only_admins_edit_info: bool,
    pub only_admins_edit_pin: bool,
    pub only_admins_invite: bool,
    pub only_admins_kick: bool,
}

#[derive(Debug, Clone, PartialEq, Default)]
pub struct VKMessagesGetConversationsOptions {
    pub offset: Option<i64>,
    pub count: Option<i64>,
    pub filter: Option<String>,
    pub extended: Option<bool>,
    pub start_message_id: Option<i64>,
    pub fields: Option<String>,
    pub group_id: Option<i64>,
}

#[derive(Debug, Clone, PartialEq, Default)]
pub struct VKMessagesGetConversationsByIdOptions {
    pub peer_ids: String,
    pub extended: Option<bool>,
    pub fields: Option<String>,
    pub group_id: Option<i64>,
}

#[derive(Debug, Clone, PartialEq, Default)]
pub struct VKMessagesGetHistoryOptions {
    pub offset: Option<i64>,
    pub count: Option<i64>,
    pub user_id: Option<i64>,
    pub peer_id: Option<i64>,
    pub start_message_id: Option<i64>,
    pub rev: Option<i64>,
    pub extended: Option<bool>,
    pub fields: Option<String>,
    pub group_id: Option<i64>,
}

#[derive(Debug, Clone, PartialEq, Default)]
pub struct VKMessagesGetHistoryAttachmentsOptions {
    pub peer_id: i64,
    pub media_type: String,
    pub start_from: Option<String>,
    pub count: Option<i64>,
    pub photo_sizes: Option<bool>,
    pub fields: Option<String>,
    pub group_id: Option<i64>,
    pub cmid: Option<i64>,
    pub attachment_position: Option<i64>,
    pub offset: Option<i64>,
    pub preserve_order: Option<bool>,
    pub attachment_types: Option<String>,
    pub max_forwards_level: Option<i64>,
}

#[derive(Debug, Clone, PartialEq, Default)]
pub struct VKMessagesGetImportantMessages {
    pub count: Option<i64>,
    pub offset: Option<i64>,
    pub start_message_id: Option<i64>,
    pub preview_length: Option<i64>,
    pub extended: Option<bool>,
    pub fields: Option<String>,
    pub group_id: Option<i64>,
}

#[derive(Debug, Clone, PartialEq, Default)]
pub struct VKMessagesGetIntentUsers {
    pub intent: String,
    pub subscribe_id: i64,
    pub offset: Option<i64>,
    pub count: Option<i64>,
    pub extended: Option<bool>,
    pub fields: Option<String>,
    pub group_id: Option<i64>,
    pub name_case: Option<String>,
}

#[derive(Debug, Clone, PartialEq, Default)]
pub struct VKMessagesGetIntentUsersResponse {
    pub count: i64,
    pub items: Vec<i64>,
    pub profiles: Option<Vec<VKProfile>>,
}

#[derive(Debug, Clone, PartialEq, Default)]
pub struct VKMessagesGetInviteLink {
    pub peer_id: i64,
    pub reset: Option<bool>,
    pub group_id: Option<i64>,
}

#[derive(Debug, Clone, PartialEq, Default)]
pub struct VKMessagesGetInviteLinkResponse {
    pub link: String,
}

#[derive(Debug, Clone, PartialEq, Default)]
pub struct VKMessagesGetMessagesReactions {
    pub peer_id: i64,
    pub cmids: i64,
}

#[derive(Debug, Clone, PartialEq, Default)]
pub struct VKMessagesGetMessagesReactionsResponse {
    pub count: i64,
    pub items: Vec<VKMessagesGetMessagesReactionsResponseItem>,
}

#[derive(Debug, Clone, PartialEq, Default)]
pub struct VKMessagesGetMessagesReactionsResponseItem {
    pub reaction: String,
    pub users: Vec<i64>,
}

#[derive(Debug, Clone, PartialEq, Default)]
pub struct VKMessagesGetReactedPeers {
    pub peer_id: i64,
    pub cmid: i64,
    pub reaction_id: Option<i32>,
}

#[derive(Debug, Clone, PartialEq, Default)]
pub struct VKMessagesGetReactedPeersResponse {
    pub count: i64,
    pub items: Vec<i64>,
}

#[derive(Debug, Clone, PartialEq, Default)]
pub struct VKMessagesIsMessagesFromGroupAllowed {
    pub group_id: i64,
    pub user_id: i64,
}

#[derive(Debug, Clone, PartialEq, Default)]
pub struct VKMessagesIsMessagesFromGroupAllowedResponse {
    pub is_allowed: i8,
    pub is_allowed_in_pm: i8,
    pub reason: i8,
}

#[derive(Debug, Clone, PartialEq, Default)]
pub struct VKMessagesMarkAsAnsweredConversation {
    pub peer_id: i64,
    pub answered: bool,
    pub group_id: Option<i64>,
}

#[derive(Debug, Clone, PartialEq, Default)]
pub struct VKMessagesMarkAsImportantOptions {
    pub message_ids: String,
    pub important: Option<bool>,
    pub cmids: Option<String>,
    pub group_id: Option<i64>,
}

#[derive(Debug, Clone, PartialEq, Default)]
pub struct VKMessagesMarkAsImportantResponse {
    pub message_id: Option<i64>,
    pub peer_id: Option<i64>,
    pub cmids: Option<String>,
}

#[derive(Debug, Clone, PartialEq, Default)]
pub struct VKMessagesMarkAsImportantConversationOptions {
    pub peer_id: i64,
    pub important: Option<bool>,
    pub group_id: Option<i64>,
}

#[derive(Debug, Clone, PartialEq, Default)]
pub struct VKMessagesMarkAsRead {
    pub message_ids: String,
    pub peer_id: Option<i64>,
    pub start_message_id: Option<i64>,
    pub group_id: Option<i64>,
    pub mark_conversation_as_read: Option<bool>,
    pub up_to_cmid: Option<i64>,
}

#[derive(Debug, Clone, PartialEq, Default)]
pub struct VKMessagesPin {
    pub peer_id: i64,
    pub message_id: Option<i64>,
    pub conversation_message_id: Option<i64>,
}

#[derive(Debug, Clone, PartialEq, Default)]
pub struct VKMessagesRemoveChatUser {
    pub chat_id: i64,
    pub user_id: i64,
    pub member_id: Option<i64>,
}

#[derive(Debug, Clone, PartialEq, Default)]
pub struct VKMessagesRestore {
    pub message_id: i64,
    pub group_id: Option<i64>,
}

#[derive(Debug, Clone, PartialEq, Default)]
pub struct VKMessagesSearch {
    pub q: String,
    pub peer_id: Option<i64>,
    pub date: Option<i64>,
    pub preview_length: Option<i64>,
    pub offset: Option<i64>,
    pub count: Option<i64>,
    pub extended: Option<bool>,
    pub fields: Option<String>,
    pub group_id: Option<i64>,
}

#[derive(Debug, Clone, PartialEq, Default)]
pub struct VKMessagesSearchConversations {
    pub q: String,
    pub count: Option<i64>,
    pub extended: Option<bool>,
    pub fields: Option<String>,
    pub group_id: Option<i64>,
}

#[derive(Debug, Clone, PartialEq, Default)]
pub struct VKMessagesSendMessageEventAnswer {
    pub user_id: i64,
    pub peer_id: i64,
    pub event_id: String,
    pub event_data: Option<String>,
}

#[derive(Debug, Clone, PartialEq, Default)]
pub struct VKMessagesSendReaction {
    pub peer_id: i64,
    pub cmid: i64,
    pub reaction_id: i32,
}

#[derive(Debug, Clone, PartialEq, Default)]
pub struct VKMessagesSetActivity {
    pub user_id: Option<i64>,
    pub kind: String,
    pub peer_id: Option<i64>,
    pub group_id: Option<i64>,
}

#[derive(Debug, Clone, PartialEq, Default)]
pub struct VKMessagesUnpin {
    pub peer_id: i64,
    pub group_id: Option<i64>,
}

impl VKMessagesSendOptions {
    /// The parameters these options render to: each set field under its own
    /// name, in the field names' alphabetical order; unset fields stay away.
    pub open spec fn spec_params(self) -> Seq<(Seq<char>, Seq<char>)> {
        opt_str_param("attachment"@, self.attachment)
        + opt_i64_param("chat_id"@, self.chat_id)
        + opt_str_param("content_source"@, self.content_source)
        + opt_bool_param("disable_mentions"@, self.disable_mentions)
        + opt_str_param("domain"@, self.domain)
        + opt_bool_param("dont_parse_links"@, self.dont_parse_links)
        + opt_str_param("forward"@, self.forward)
        + opt_str_param("forward_messages"@, self.forward_messages)
        + opt_i64_param("guid"@, self.guid)
        + opt_str_param("intent"@, self.intent)
        + opt_str_param("keyboard"@, self.keyboard)
        + opt_str_param("lat"@, self.lat)
        + opt_str_param("long"@, self.long)
        + opt_str_param("message"@, self.message)
        + opt_str_param("payload"@, self.payload)
        + opt_i64_param("peer_id"@, self.peer_id)
        + opt_str_param("peer_ids"@, self.peer_ids)
        + opt_i64_param("random_id"@, self.random_id)
        + opt_i64_param("reply_to"@, self.reply_to)
        + opt_i64_param("sticker_id"@, self.sticker_id)
        + opt_i64_param("subscribe_id"@, self.subscribe_id)
        + opt_str_param("template"@, self.template)
        + opt_str_param("user_ids"@, self.user_ids)
    }

    /// Renders the set fields as request parameters.
    pub fn to_params(&self) -> (ps: Vec<(String, String)>)
        ensures
            params_view(ps@) == self.spec_params(),
    {
        let mut ps: Vec<(String, String)> = Vec::new();
        push_opt_str(&mut ps, "attachment", &self.attachment);
        push_opt_i64(&mut ps, "chat_id", &self.chat_id);
        push_opt_str(&mut ps, "content_source", &self.content_source);
        push_opt_bool(&mut ps, "disable_mentions", &self.disable_mentions);
        push_opt_str(&mut ps, "domain", &self.domain);
        push_opt_bool(&mut ps, "dont_parse_links", &self.dont_parse_links);
        push_opt_str(&mut ps, "forward", &self.forward);
        push_opt_str(&mut ps, "forward_messages", &self.forward_messages);
        push_opt_i64(&mut ps, "guid", &self.guid);
        push_opt_str(&mut ps, "intent", &self.intent);
        push_opt_str(&mut ps, "keyboard", &self.keyboard);
        push_opt_str(&mut ps, "lat", &self.lat);
        push_opt_str(&mut ps, "long", &self.long);
        push_opt_str(&mut ps, "message", &self.message);
        push_opt_str(&mut ps, "payload", &self.payload);
        push_opt_i64(&mut ps, "peer_id", &self.peer_id);
        push_opt_str(&mut ps, "peer_ids", &self.peer_ids);
        push_opt_i64(&mut ps, "random_id", &self.random_id);
        push_opt_i64(&mut ps, "reply_to", &self.reply_to);
        push_opt_i64(&mut ps, "sticker_id", &self.sticker_id);
        push_opt_i64(&mut ps, "subscribe_id", &self.subscribe_id);
        push_opt_str(&mut ps, "template", &self.template);
        push_opt_str(&mut ps, "user_ids", &self.user_ids);
        proof {
            assert(params_view(ps@) =~= self.spec_params());
        }
        ps
    }
}

} // verus!
