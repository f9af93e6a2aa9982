use vtg::config::Config;
use vtg::context::{Attachments, Event, EventType, Platform, UnifyContext, UserData};
use vtg::tg::{TGChat, TGFrom, TGInlineQuery, TGMessage, TGUpdate};
use vtg::vk::{VKMessage, VKMessageEvent, VKMessageNew, VKObject, VKUpdate};
use vtg::vk_attachments::{AudioAttachment, VKAttachment};

fn test_config() -> Config {
    Config {
        vk_access_token: "vk-token".to_string(),
        vk_group_id: 42,
        vk_api_version: "5.199".to_string(),
        tg_access_token: "bot123:abc".to_string(),
        callback: None,
    }
}

fn vk_message(text: &str) -> VKMessage {
    VKMessage {
        text: text.to_string(),
        from_id: 7,
        peer_id: 900,
        id: 55,
        payload: None,
        fwd_messages: None,
        reply_message: None,
        ref_: None,
        ref_source: None,
        attachments: None,
        important: None,
        random_id: None,
        conversation_message_id: None,
        action: None,
        admin_author_id: None,
        conversation_chat_id: None,
        is_hidden: None,
        update_time: None,
        was_listened: None,
        pinned_at: None,
        message_tag: None,
        is_cropped: None,
        members_count: None,
    }
}

fn vk_audio_attachment() -> VKAttachment {
    VKAttachment {
        kind: "audio".to_string(),
        photo: None,
        video: None,
        audio: Some(AudioAttachment {
            id: 1,
            owner_id: 2,
            artist: "a".to_string(),
            title: "t".to_string(),
            duration: 3,
            url: "https://example.com/a.mp3".to_string(),
            lyrics_id: None,
            album_id: None,
            genre_id: None,
            date: 4,
            access_key: None,
        }),
        doc: None,
        link: None,
        sticker: None,
    }
}

fn vk_new_message_update(text: &str) -> VKUpdate {
    let mut message = vk_message(text);
    message.attachments = Some(vec![vk_audio_attachment()]);
    VKUpdate {
        kind: "message_new".to_string(),
        object: Some(VKObject::MessageNew(VKMessageNew { message })),
    }
}

#[test]
fn vk_message_new_normalizes() {
    let ctx = vk_new_message_update("hello").unify(&test_config());
    assert_eq!(ctx.platform, Platform::VK);
    assert_eq!(ctx.event_type, EventType::MessageNew);
    assert_eq!(ctx.text, "hello");
    assert_eq!(ctx.from_id, 7);
    assert_eq!(ctx.peer_id, 900);
    assert_eq!(ctx.id, 55);
    assert_eq!(ctx.data, UserData::Empty);
    match &ctx.event {
        Event::VK(u) => assert_eq!(u.kind, "message_new"),
        _ => panic!("expected the VK raw event"),
    }
    match &ctx.attachments {
        Attachments::VK(atts) => {
            assert_eq!(atts.len(), 1);
            assert_eq!(atts[0].kind, "audio");
        },
        _ => panic!("expected VK attachments"),
    }
}

#[test]
fn vk_message_event_normalizes() {
    let update = VKUpdate {
        kind: "message_event".to_string(),
        object: Some(VKObject::MessageEvent(VKMessageEvent {
            user_id: 11,
            peer_id: 22,
            event_id: "evt".to_string(),
            payload: "{\"a\":1}".to_string(),
            conversation_message_id: 33,
        })),
    };
    let ctx = update.unify(&test_config());
    assert_eq!(ctx.event_type, EventType::CallbackQuery);
    assert_eq!(ctx.text, "{\"a\":1}");
    assert_eq!(ctx.from_id, 11);
    assert_eq!(ctx.peer_id, 22);
    assert_eq!(ctx.id, 33);
    match &ctx.attachments {
        Attachments::VK(atts) => assert!(atts.is_empty()),
        _ => panic!("expected VK attachments"),
    }
}

#[test]
fn vk_unrecognized_degrades_to_unknown() {
    let update = VKUpdate { kind: "wall_post_new".to_string(), object: None };
    let ctx = update.unify(&test_config());
    assert_eq!(ctx.event_type, EventType::Unknown);
    assert_eq!(ctx.text, "");
    assert_eq!(ctx.from_id, 0);
    assert_eq!(ctx.peer_id, 0);
    assert_eq!(ctx.id, 0);
    assert!(matches!(ctx.event, Event::Unknown));
}

#[test]
fn normalize_is_pure_for_identical_updates() {
    let c1 = vk_new_message_update("same").unify(&test_config());
    let c2 = vk_new_message_update("same").unify(&test_config());
    assert_eq!(c1.text, c2.text);
    assert_eq!(c1.from_id, c2.from_id);
    assert_eq!(c1.peer_id, c2.peer_id);
    assert_eq!(c1.id, c2.id);
    assert_eq!(c1.event_type, c2.event_type);
    assert_eq!(c1.platform, c2.platform);
    assert_eq!(c1.data, c2.data);
    match (&c1.attachments, &c2.attachments) {
        (Attachments::VK(a), Attachments::VK(b)) => assert_eq!(a, b),
        _ => panic!("expected VK attachments on both"),
    }
}

fn tg_message(text: Option<&str>) -> TGMessage {
    TGMessage {
        text: text.map(|t| t.to_string()),
        from: TGFrom { id: 5, ..TGFrom::default() },
        chat: TGChat { id: 600, ..TGChat::default() },
        message_id: 77,
        ..TGMessage::default()
    }
}

#[test]
fn tg_message_new_normalizes() {
    let update = TGUpdate { message: Some(tg_message(Some("hi"))), ..TGUpdate::default() };
    let ctx = update.unify(&test_config());
    assert_eq!(ctx.platform, Platform::Telegram);
    assert_eq!(ctx.event_type, EventType::MessageNew);
    assert_eq!(ctx.text, "hi");
    assert_eq!(ctx.from_id, 5);
    assert_eq!(ctx.peer_id, 600);
    assert_eq!(ctx.id, 77);
    match &ctx.attachments {
        Attachments::TG(att) => assert!(att.is_some()),
        _ => panic!("expected Telegram attachments"),
    }
}

#[test]
fn tg_recognition_order_prefers_message() {
    let update = TGUpdate {
        message: Some(tg_message(Some("first"))),
        edited_message: Some(tg_message(Some("second"))),
        ..TGUpdate::default()
    };
    let ctx = update.unify(&test_config());
    assert_eq!(ctx.event_type, EventType::MessageNew);
    assert_eq!(ctx.text, "first");
}

#[test]
fn tg_edited_message_normalizes() {
    let update = TGUpdate { edited_message: Some(tg_message(None)), ..TGUpdate::default() };
    let ctx = update.unify(&test_config());
    assert_eq!(ctx.event_type, EventType::MessageEdit);
    assert_eq!(ctx.text, "");
    assert_eq!(ctx.peer_id, 600);
    match &ctx.attachments {
        Attachments::TG(att) => assert!(att.is_none()),
        _ => panic!("expected Telegram attachments"),
    }
}

#[test]
fn tg_inline_query_normalizes() {
    let update = TGUpdate {
        inline_query: Some(TGInlineQuery {
            id: "q1".to_string(),
            from: TGFrom { id: 9, ..TGFrom::default() },
            query: "find me".to_string(),
            offset: "".to_string(),
            chat_type: None,
        }),
        ..TGUpdate::default()
    };
    let ctx = update.unify(&test_config());
    assert_eq!(ctx.event_type, EventType::InlineQuery);
    assert_eq!(ctx.text, "find me");
    assert_eq!(ctx.from_id, 9);
    assert_eq!(ctx.peer_id, 0);
    assert_eq!(ctx.id, 0);
}

#[test]
fn tg_unrecognized_degrades_to_unknown() {
    let ctx = TGUpdate::default().unify(&test_config());
    assert_eq!(ctx.event_type, EventType::Unknown);
    assert_eq!(ctx.text, "");
    assert_eq!(ctx.from_id, 0);
    assert_eq!(ctx.peer_id, 0);
    assert_eq!(ctx.id, 0);
    assert!(matches!(ctx.event, Event::Unknown));
}

#[test]
fn user_data_slot_starts_empty_and_is_settable() {
    let mut ctx = vk_new_message_update("x").unify(&test_config());
    assert_eq!(ctx.get_data(), UserData::Empty);
    ctx.set_data(UserData::Number(54));
    assert_eq!(ctx.get_data(), UserData::Number(54));
    ctx.set_data(UserData::List(vec!["a".to_string()]));
    assert_eq!(ctx.get_data(), UserData::List(vec!["a".to_string()]));
}
