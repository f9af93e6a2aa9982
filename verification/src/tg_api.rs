//! The Telegram API's request and answer shapes: plain data mirrored from
//! the wire format. The options of the message-send call also know how to
//! render themselves as request parameters.

use vstd::prelude::*;

use crate::params::{opt_bool_param, opt_i64_param, opt_str_param, params_view, push_opt_bool,
    push_opt_i64, push_opt_str};
use crate::tg::{TGMessageEntity, TGUser};
use crate::tg_attachments::TGPhotoSize;

verus! {

#[derive(Debug, Clone, PartialEq)]
pub struct Api {}

#[derive(Debug, Clone, PartialEq, Default)]
pub struct TGSetChatPhoto {
    pub chat_id: i64,
    pub photo: String,
}

#[derive(Debug, Clone, PartialEq, Default)]
pub struct TGSendMessageOptions {
    pub chat_id: Option<i64>,
    pub text: Option<String>,
    pub parse_mode: Option<String>,
    pub disable_web_page_preview: Option<bool>,
    pub disable_notification: Option<bool>,
    pub reply_to_message_id: Option<i64>,
    pub reply_markup: Option<String>,
    pub allow_sending_without_reply: Option<bool>,
    pub entities: Option<Vec<TGMessageEntity>>,
    pub protect_content: Option<bool>,
    pub reply_parameters: Option<TGReplyParameters>,
}

#[derive(Debug, Clone, PartialEq, Default)]
pub struct TGReplyParameters {
    pub selective: Option<bool>,
    pub force_reply: Option<bool>,
    pub input_field_placeholder: Option<String>,
    pub input_field_visibility: Option<String>,
    pub is_personal: Option<bool>,
    pub next_step_chat_member: Option<i64>,
    pub next_step_data: Option<String>,
    pub next_step_date: Option<i64>,
    pub open_period: Option<i64>,
    pub close_date: Option<i64>,
    pub switch_pm_text: Option<String>,
    pub switch_pm_parameter: Option<String>,
}

#[derive(Debug, Clone, PartialEq, Default)]
pub struct TGForwardMessageOptions {
    pub chat_id: i64,
    pub from_chat_id: i64,
    pub disable_notification: Option<bool>,
    pub message_id: i64,
    pub message_thread_id: Option<i64>,
    pub protect_content: Option<bool>,
}

#[derive(Debug, Clone, PartialEq, Default)]
pub struct TGForwardsMessagesOptions {
    pub chat_id: i64,
    pub from_chat_id: i64,
    pub message_ids: Vec<i64>,
    pub disable_notification: Option<bool>,
    pub message_thread_id: Option<i64>,
    pub protect_content: Option<bool>,
}

#[derive(Debug, Clone, PartialEq, Default)]
pub struct TGMessageId {
    pub message_id: i64,
}

#[derive(Debug, Clone, PartialEq, Default)]
pub struct TGCopyMessage {
    pub chat_id: i64,
    pub from_chat_id: i64,
    pub message_id: i64,
    pub caption: Option<String>,
    pub parse_mode: Option<String>,
    pub caption_entities: Option<Vec<TGMessageEntity>>,
    pub disable_notification: Option<bool>,
    pub reply_parameters: Option<TGReplyParameters>,
    pub reply_markup: Option<String>,
    pub message_thread_id: Option<i64>,
    pub protect_content: Option<bool>,
}

#[derive(Debug, Clone, PartialEq, Default)]
pub struct TGCopyMessages {
    pub chat_id: i64,
    pub from_chat_id: i64,
    pub message_ids: Vec<i64>,
    pub message_thread_id: Option<i64>,
    pub disable_notification: Option<bool>,
    pub protect_content: Option<bool>,
    pub remove_caption: Option<bool>,
}

#[derive(Debug, Clone, PartialEq, Default)]
pub struct TGSendContact {
    pub chat_id: i64,
    pub phone_number: String,
    pub first_name: String,
    pub last_name: Option<String>,
    pub vcard: Option<String>,
    pub disable_notification: Option<bool>,
    pub reply_to_message_id: Option<i64>,
    pub reply_markup: Option<String>,
    pub message_thread_id: Option<i64>,
    pub protect_content: Option<bool>,
}

#[derive(Debug, Clone, PartialEq, Default)]
pub struct TGSendPoll {
    pub chat_id: i64,
    pub question: String,
    pub options: Vec<String>,
    pub is_anonymous: Option<bool>,
    pub kind: Option<String>,
    pub allows_multiple_answers: Option<bool>,
    pub correct_option_id: Option<i64>,
    pub explanation: Option<String>,
    pub explanation_parse_mode: Option<String>,
    pub explanation_entities: Option<Vec<TGMessageEntity>>,
    pub open_period: Option<i64>,
    pub close_date: Option<i64>,
    pub is_closed: Option<bool>,
    pub disable_notification: Option<bool>,
    pub reply_to_message_id: Option<i64>,
    pub reply_markup: Option<String>,
    pub message_thread_id: Option<i64>,
    pub protect_content: Option<bool>,
}

#[derive(Debug, Clone, PartialEq, Default)]
pub struct TGSendDice {
    pub chat_id: i64,
    pub emoji: Option<String>,
    pub disable_notification: Option<bool>,
    pub reply_to_message_id: Option<i64>,
    pub reply_markup: Option<String>,
    pub message_thread_id: Option<i64>,
    pub protect_content: Option<bool>,
}

#[derive(Debug, Clone, PartialEq, Default)]
pub struct TGSendChatAction {
    pub chat_id: i64,
    pub action: String,
}

#[derive(Debug, Clone, PartialEq, Default)]
pub struct TGSetMessageReaction {
    pub chat_id: i64,
    pub message_id: i64,
    pub reaction: Option<TGReactionType>,
    pub is_big: Option<bool>,
}

#[derive(Debug, Clone, PartialEq)]
pub enum TGReactionType {
    ReactionTypeEmoji(Option<TGReactionTypeEmoji>),
    ReactionTypeCustomEmoji(Option<TGReactionTypeCustomEmoji>),
}

#[derive(Debug, Clone, PartialEq)]
pub struct TGReactionTypeEmoji {
    pub emoji: String,
    pub kind: String,
}

#[derive(Debug, Clone, PartialEq)]
pub struct TGReactionTypeCustomEmoji {
    pub custom_emoji_id: String,
    pub kind: String,
}

#[derive(Debug, Clone, PartialEq, Default)]
pub struct TGGetUserProfilePhotos {
    pub user_id: i64,
    pub offset: Option<i64>,
    pub limit: Option<i64>,
}

#[derive(Debug, Clone, PartialEq, Default)]
pub struct TGUserProfilePhotos {
    pub total_count: i64,
    pub photos: Vec<Vec<TGPhotoSize>>,
}

#[derive(Debug, Clone, PartialEq, Default)]
pub struct TGGetFile {
    pub file_id: String,
}

#[derive(Debug, Clone, PartialEq, Default)]
pub struct TGFile {
    pub file_id: String,
    pub file_unique_id: String,
    pub file_size: Option<i64>,
    pub file_path: Option<String>,
}

#[derive(Debug, Clone, PartialEq, Default)]
pub struct TGBanChatMember {
    pub chat_id: i64,
    pub user_id: i64,
    pub until_date: Option<i64>,
    pub revoke_messages: Option<bool>,
}

#[derive(Debug, Clone, PartialEq, Default)]
pub struct TGUnbanChatMember {
    pub chat_id: i64,
    pub user_id: i64,
    pub only_if_banned: Option<bool>,
}

#[derive(Debug, Clone, PartialEq, Default)]
pub struct TGRestrictChatMember {
    pub chat_id: i64,
    pub user_id: i64,
    pub permissions: TGChatPermissions,
    pub until_date: Option<i64>,
    pub use_independent_chat_permissions: Option<bool>,
}

#[derive(Debug, Clone, PartialEq, Default)]
pub struct TGChatPermissions {
    pub can_send_messages: Option<bool>,
    pub can_send_audios: Option<bool>,
    pub can_send_documents: Option<bool>,
    pub can_send_videos: Option<bool>,
    pub can_send_video_notes: Option<bool>,
    pub can_send_voice_notes: Option<bool>,
    pub can_send_polls: Option<bool>,
    pub can_send_other_messages: Option<bool>,
    pub can_add_web_page_previews: Option<bool>,
    pub can_change_info: Option<bool>,
    pub can_invite_users: Option<bool>,
    pub can_pin_messages: Option<bool>,
    pub can_manage_topics: Option<bool>,
}

#[derive(Debug, Clone, PartialEq, Default)]
pub struct TGPromoteChatMember {
    pub chat_id: i64,
    pub user_id: i64,
    pub is_anonymous: Option<bool>,
    pub can_manage_chat: Option<bool>,
    pub can_post_messages: Option<bool>,
    pub can_edit_messages: Option<bool>,
    pub can_delete_messages: Option<bool>,
    pub can_manage_voice_chats: Option<bool>,
    pub can_restrict_members: Option<bool>,
    pub can_promote_members: Option<bool>,
    pub can_change_info: Option<bool>,
    pub can_invite_users: Option<bool>,
    pub can_pin_messages: Option<bool>,
    pub can_post_stories: Option<bool>,
    pub can_edit_stories: Option<bool>,
    pub can_delete_stories: Option<bool>,
    pub can_manage_topics: Option<bool>,
}

#[derive(Debug, Clone, PartialEq, Default)]
pub struct TGSetChatAdministratorCustomTitle {
    pub chat_id: i64,
    pub user_id: i64,
    pub custom_title: String,
}

#[derive(Debug, Clone, PartialEq, Default)]
pub struct TGBanChatSenderChat {
    pub chat_id: i64,
    pub sender_chat_id: i64,
}

#[derive(Debug, Clone, PartialEq, Default)]
pub struct TGUnbanChatSenderChat {
    pub chat_id: i64,
    pub sender_chat_id: i64,
}

#[derive(Debug, Clone, PartialEq, Default)]
pub struct TGSetChatPermissions {
    pub chat_id: i64,
    pub permissions: TGChatPermissions,
    pub use_independent_chat_permissions: Option<bool>,
}

#[derive(Debug, Clone, PartialEq, Default)]
pub struct TGExportChatInviteLink {
    pub chat_id: i64,
}

#[derive(Debug, Clone, PartialEq, Default)]
pub struct TGCreateChatInviteLink {
    pub chat_id: i64,
    pub expire_date: Option<i64>,
    pub member_limit: Option<i64>,
    pub name: Option<String>,
    pub creates_join_request: Option<bool>,
}

#[derive(Debug, Clone, PartialEq, Default)]
pub struct TGEditChatInviteLink {
    pub chat_id: i64,
    pub invite_link: String,
    pub expire_date: Option<i64>,
    pub member_limit: Option<i64>,
    pub name: Option<String>,
    pub creates_join_request: Option<bool>,
}

#[derive(Debug, Clone, PartialEq, Default)]
pub struct TGChatInviteLink {
    pub invite_link: String,
    pub creator: TGUser,
    pub is_primary: bool,
    pub is_revoked: bool,
    pub expire_date: Option<i64>,
    pub member_limit: Option<i64>,
    pub member_count: Option<i64>,
    pub name: Option<String>,
    pub creates_join_request: Option<bool>,
}

#[derive(Debug, Clone, PartialEq, Default)]
pub struct TGRevokeChatInviteLink {
    pub chat_id: i64,
    pub invite_link: String,
}

#[derive(Debug, Clone, PartialEq, Default)]
pub struct TGAproveChatJoinRequest {
    pub chat_id: i64,
    pub user_id: i64,
}

#[derive(Debug, Clone, PartialEq, Default)]
pub struct TGDeclineChatJoinRequest {
    pub chat_id: i64,
    pub user_id: i64,
}

#[derive(Debug, Clone, PartialEq, Default)]
pub struct TGDeleteChatPhoto {
    pub chat_id: i64,
}

#[derive(Debug, Clone, PartialEq, Default)]
pub struct TGSetChatTitle {
    pub chat_id: i64,
    pub title: String,
}

#[derive(Debug, Clone, PartialEq, Default)]
pub struct TGSetChatDescription {
    pub chat_id: i64,
    pub description: String,
}

#[derive(Debug, Clone, PartialEq, Default)]
pub struct TGPinChatMessage {
    pub chat_id: i64,
    pub message_id: i64,
    pub disable_notification: Option<bool>,
}

#[derive(Debug, Clone, PartialEq, Default)]
pub struct TGUnpinChatMessage {
    pub chat_id: i64,
    pub message_id: Option<i64>,
}

#[derive(Debug, Clone, PartialEq, Default)]
pub struct TGUnpinAllChatMessages {
    pub chat_id: i64,
}

#[derive(Debug, Clone, PartialEq, Default)]
pub struct TGLeaveChat {
    pub chat_id: i64,
}

#[derive(Debug, Clone, PartialEq, Default)]
pub struct TGGetChat {
    pub chat_id: i64,
}

#[derive(Debug, Clone, PartialEq, Default)]
pub struct TGGetChatAdministrators {
    pub chat_id: i64,
}

#[derive(Debug, Clone, PartialEq)]
pub enum TGChatMember {
    ChatMemberOwner(TGChatMemberOwner),
    ChatMemberAdministrator(TGChatMemberAdministrator),
    ChatMemberMember(TGChatMemberMember),
    ChatMemberRestricted(TGChatMemberRestricted),
    ChatMemberLeft(TGChatMemberLeft),
    ChatMemberBanned(TGChatMemberBanned),
}

#[derive(Debug, Clone, PartialEq, Default)]
pub struct TGChatMemberOwner {
    pub status: String,
    pub user: TGUser,
    pub is_anonymous: Option<bool>,
    pub custom_title: Option<String>,
}

#[derive(Debug, Clone, PartialEq, Default)]
pub struct TGChatMemberAdministrator {
    pub status: String,
    pub user: TGUser,
    pub can_be_edited: Option<bool>,
    pub is_anonymous: Option<bool>,
    pub custom_title: Option<String>,
    pub can_manage_chat: Option<bool>,
    pub can_post_messages: Option<bool>,
    pub can_edit_messages: Option<bool>,
    pub can_delete_messages: Option<bool>,
    pub can_manage_voice_chats: Option<bool>,
    pub can_restrict_members: Option<bool>,
    pub can_promote_members: Option<bool>,
    pub can_change_info: Option<bool>,
    pub can_invite_users: Option<bool>,
    pub can_pin_messages: Option<bool>,
    pub can_post_stories: Option<bool>,
    pub can_edit_stories: Option<bool>,
    pub can_delete_stories: Option<bool>,
    pub can_manage_topics: Option<bool>,
}

#[derive(Debug, Clone, PartialEq, Default)]
pub struct TGChatMemberMember {
    pub status: String,
    pub user: TGUser,
}

#[derive(Debug, Clone, PartialEq, Default)]
pub struct TGChatMemberRestricted {
    pub status: String,
    pub user: TGUser,
    pub is_member: Option<bool>,
    pub can_send_messages: Option<bool>,
    pub can_send_audios: Option<bool>,
    pub can_send_documents: Option<bool>,
    pub can_send_videos: Option<bool>,
    pub can_send_video_notes: Option<bool>,
    pub can_send_voice_notes: Option<bool>,
    pub can_send_polls: Option<bool>,
    pub can_send_other_messages: Option<bool>,
    pub can_add_web_page_previews: Option<bool>,
    pub can_change_info: Option<bool>,
    pub can_invite_users: Option<bool>,
    pub can_pin_messages: Option<bool>,
    pub can_manage_topics: Option<bool>,
    pub until_date: Option<i64>,
}

#[derive(Debug, Clone, PartialEq, Default)]
pub struct TGChatMemberLeft {
    pub status: String,
    pub user: TGUser,
}

#[derive(Debug, Clone, PartialEq, Default)]
pub struct TGChatMemberBanned {
    pub status: String,
    pub user: TGUser,
    pub until_date: Option<i64>,
}

#[derive(Debug, Clone, PartialEq, Default)]
pub struct TGGetChatMemberCount {
    pub chat_id: i64,
}

#[derive(Debug, Clone, PartialEq, Default)]
pub struct TGGetChatMember {
    pub chat_id: i64,
    pub user_id: i64,
}

#[derive(Debug, Clone, PartialEq, Default)]
pub struct TGSetChatStickerSet {
    pub chat_id: i64,
    pub sticker_set_name: String,
}

#[derive(Debug, Clone, PartialEq, Default)]
pub struct TGDeleteChatStickerSet {
    pub chat_id: i64,
}

#[derive(Debug, Clone, PartialEq, Default)]
pub struct TGForumTopic {
    pub message_thread_id: i64,
    pub name: String,
    pub icon_color: Option<String>,
    pub icon_custom_emoji_id: Option<String>,
}

#[derive(Debug, Clone, PartialEq, Default)]
pub struct TGGeneralForumTopic {
    pub chat_id: i64,
    pub name: Option<String>,
}

#[derive(Debug, Clone, PartialEq, Default)]
pub struct TGAnswerCallbackQuery {
    pub callback_query_id: String,
    pub text: Option<String>,
    pub show_alert: Option<bool>,
    pub url: Option<String>,
    pub cache_time: Option<i64>,
}

#[derive(Debug, Clone, PartialEq, Default)]
pub struct TGGetUserChatBoosts {
    pub chat_id: i64,
    pub user_id: i64,
}

#[derive(Debug, Clone, PartialEq)]
pub struct TGUserChatBoosts {
    pub boosts: Vec<TGChatBoost>,
}

#[derive(Debug, Clone, PartialEq)]
pub struct TGChatBoost {
    pub boost_id: String,
    pub add_date: i64,
    pub expiration_date: i64,
    pub source: TGChatBoostSource,
}

#[derive(Debug, Clone, PartialEq)]
pub enum TGChatBoostSource {
    ChatBoostSourcePremium(TGChatBoostSourcePremium),
    ChatBoostSourceGiftCode(TGChatBoostSourceGiftCode),
    ChatBoostSourceGiveaway(TGChatBoostSourceGiveaway),
}

#[derive(Debug, Clone, PartialEq, Default)]
pub struct TGChatBoostSourcePremium {
    pub source: String,
    pub user: TGUser,
}

#[derive(Debug, Clone, PartialEq, Default)]
pub struct TGChatBoostSourceGiftCode {
    pub source: String,
    pub user: TGUser,
}

#[derive(Debug, Clone, PartialEq, Default)]
pub struct TGChatBoostSourceGiveaway {
    pub source: String,
    pub user: TGUser,
    pub is_unclaimed: bool,
    pub giveaway_message_id: i64,
}

#[derive(Debug, Clone, PartialEq, Default)]
pub struct TGGetMyCommands {
    pub scope: Option<TGGetMyCommandsScope>,
    pub language_code: Option<String>,
}

#[derive(Debug, Clone, PartialEq, Default)]
pub struct TGGetMyCommandsScope {
    pub chat_id: Option<i64>,
    pub user_id: Option<i64>,
    pub kind: String,
}

#[derive(Debug, Clone, PartialEq, Default)]
pub struct TGBotCommand {
    pub command: String,
    pub description: String,
}

#[derive(Debug, Clone, PartialEq, Default)]
pub struct TGSetMyName {
    pub name: String,
    pub language_code: Option<String>,
}

#[derive(Debug, Clone, PartialEq, Default)]
pub struct TGGetMyName {
    pub language_code: Option<String>,
}

#[derive(Debug, Clone, PartialEq, Default)]
pub struct TGBotName {
    pub name: String,
}

#[derive(Debug, Clone, PartialEq, Default)]
pub struct TGSetMyDescription {
    pub description: String,
    pub language_code: Option<String>,
}

#[derive(Debug, Clone, PartialEq, Default)]
pub struct TGGetMyDescription {
    pub language_code: Option<String>,
}

#[derive(Debug, Clone, PartialEq, Default)]
pub struct TGBotDescription {
    pub description: String,
}

#[derive(Debug, Clone, PartialEq, Default)]
pub struct TGSetMyShortDescription {
    pub short_description: String,
    pub language_code: Option<String>,
}

#[derive(Debug, Clone, PartialEq, Default)]
pub struct TGGetMyShortDescription {
    pub language_code: Option<String>,
}

#[derive(Debug, Clone, PartialEq, Default)]
pub struct TGBotShortDescription {
    pub short_description: String,
}

#[derive(Debug, Clone, PartialEq, Default)]
pub struct TGSetChatMenuButton {
    pub chat_id: i64,
    pub menu_button: TGMenuButton,
}

#[derive(Debug, Clone, PartialEq, Default)]
pub struct TGGetChatMenuButton {
    pub chat_id: i64,
}

#[derive(Debug, Clone, PartialEq, Default)]
pub struct TGMenuButton {
    pub text: Option<String>,
    pub kind: String,
    pub web_app: Option<TGWebApp>,
}

#[derive(Debug, Clone, PartialEq, Default)]
pub struct TGWebApp {
    pub url: String,
}

#[derive(Debug, Clone, PartialEq, Default)]
pub struct TGGetMyDefaultAdministratorRights {
    pub for_channels: Option<bool>,
}

#[derive(Debug, Clone, PartialEq, Default)]
pub struct TGSetMyDefaultAdministratorRights {
    pub rights: TGChatAdministratorRights,
    pub for_channels: Option<bool>,
}

#[derive(Debug, Clone, PartialEq, Default)]
pub struct TGChatAdministratorRights {
    pub is_anonymous: Option<bool>,
    pub can_manage_chat: Option<bool>,
    pub can_post_messages: Option<bool>,
    pub can_edit_messages: Option<bool>,
    pub can_delete_messages: Option<bool>,
    pub can_manage_voice_chats: Option<bool>,
    pub can_restrict_members: Option<bool>,
    pub can_promote_members: Option<bool>,
    pub can_change_info: Option<bool>,
    pub can_invite_users: Option<bool>,
    pub can_pin_messages: Option<bool>,
    pub can_post_stories: Option<bool>,
    pub can_edit_stories: Option<bool>,
    pub can_delete_stories: Option<bool>,
    pub can_manage_topics: Option<bool>,
}

#[derive(Debug, Clone, PartialEq, Default)]
pub struct TGInlineQueryResultsButton {
    pub text: String,
    pub web_app: Option<TGWebApp>,
    pub start_parameter: Option<String>,
}

#[derive(Debug, Clone, PartialEq, Default)]
pub struct TGSentWebAppMessage {
    pub inline_message_id: String,
}

#[derive(Debug, Clone, PartialEq, Default)]
pub struct TGEditMessageText {
    pub chat_id: Option<i64>,
    pub message_id: Option<i64>,
    pub inline_message_id: Option<String>,
    pub text: String,
    pub parse_mode: Option<String>,
    pub disable_web_page_preview: Option<bool>,
    pub reply_markup: Option<String>,
    pub entities: Option<Vec<TGMessageEntity>>,
    pub link_preview_options: Option<TGLinkPreviewOptions>,
}

#[derive(Debug, Clone, PartialEq, Default)]
pub struct TGLinkPreviewOptions {
    pub is_disabled: Option<bool>,
    pub url: Option<String>,
    pub prefer_small_media: Option<bool>,
    pub prefer_large_media: Option<bool>,
    pub show_above_text: Option<bool>,
}

#[derive(Debug, Clone, PartialEq, Default)]
pub struct TGEditMessageCaption {
    pub chat_id: Option<i64>,
    pub message_id: Option<i64>,
    pub inline_message_id: Option<String>,
    pub caption: Option<String>,
    pub parse_mode: Option<String>,
    pub caption_entities: Option<Vec<TGMessageEntity>>,
    pub reply_markup: Option<String>,
}

#[derive(Debug, Clone, PartialEq, Default)]
pub struct TGStopMessageLiveLocation {
    pub chat_id: Option<i64>,
    pub message_id: Option<i64>,
    pub inline_message_id: Option<String>,
    pub reply_markup: Option<String>,
}

#[derive(Debug, Clone, PartialEq, Default)]
pub struct TGEditMessageReplyMarkup {
    pub chat_id: Option<i64>,
    pub message_id: Option<i64>,
    pub inline_message_id: Option<String>,
    pub reply_markup: Option<String>,
}

#[derive(Debug, Clone, PartialEq, Default)]
pub struct TGStopPoll {
    pub chat_id: i64,
    pub message_id: i64,
    pub reply_markup: Option<String>,
}

#[derive(Debug, Clone, PartialEq, Default)]
pub struct TGDeleteMessage {
    pub chat_id: i64,
    pub message_id: i64,
}

#[derive(Debug, Clone, PartialEq, Default)]
pub struct TGDeleteMessages {
    pub chat_id: i64,
    pub message_ids: Vec<i64>,
}

#[derive(Debug, Clone, PartialEq, Default)]
pub struct TGPoll {
    pub id: String,
    pub question: String,
    pub options: Vec<TGPollOption>,
    pub total_voter_count: i64,
    pub is_closed: bool,
    pub is_anonymous: bool,
    pub kind: String,
    pub allows_multiple_answers: bool,
    pub correct_option_id: Option<i64>,
    pub explanation: Option<String>,
    pub explanation_entities: Option<Vec<TGMessageEntity>>,
    pub open_period: Option<i64>,
    pub close_date: Option<i64>,
}

#[derive(Debug, Clone, PartialEq, Default)]
pub struct TGPollOption {
    pub text: String,
    pub voter_count: i64,
}

impl TGSendMessageOptions {
    /// The parameters these options render to: each set scalar or string
    /// field under its own name, in the field names' alphabetical order;
    /// unset fields stay away. The two structured fields — the entity list
    /// and the reply parameters — are not rendered here: the transport
    /// serializes them when it builds the request.
    pub open spec fn spec_params(self) -> Seq<(Seq<char>, Seq<char>)> {
        opt_bool_param("allow_sending_without_reply"@, self.allow_sending_without_reply)
        + opt_i64_param("chat_id"@, self.chat_id)
        + opt_bool_param("disable_notification"@, self.disable_notification)
        + opt_bool_param("disable_web_page_preview"@, self.disable_web_page_preview)
        + opt_str_param("parse_mode"@, self.parse_mode)
        + opt_bool_param("protect_content"@, self.protect_content)
        + opt_str_param("reply_markup"@, self.reply_markup)
        + opt_i64_param("reply_to_message_id"@, self.reply_to_message_id)
        + opt_str_param("text"@, self.text)
    }

    /// Renders the set scalar and string fields as request parameters.
    pub fn to_params(&self) -> (ps: Vec<(String, String)>)
        ensures
            params_view(ps@) == self.spec_params(),
    {
        let mut ps: Vec<(String, String)> = Vec::new();
        push_opt_bool(&mut ps, "allow_sending_without_reply", &self.allow_sending_without_reply);
        push_opt_i64(&mut ps, "chat_id", &self.chat_id);
        push_opt_bool(&mut ps, "disable_notification", &self.disable_notification);
        push_opt_bool(&mut ps, "disable_web_page_preview", &self.disable_web_page_preview);
        push_opt_str(&mut ps, "parse_mode", &self.parse_mode);
        push_opt_bool(&mut ps, "protect_content", &self.protect_content);
        push_opt_str(&mut ps, "reply_markup", &self.reply_markup);
        push_opt_i64(&mut ps, "reply_to_message_id", &self.reply_to_message_id);
        push_opt_str(&mut ps, "text", &self.text);
        proof {
            assert(params_view(ps@) =~= self.spec_params());
        }
        ps
    }
}

} // verus!
