use vtg::config::Config;
use vtg::context::{Platform, SendOptions, UnifyContext};
use vtg::keyboard::{Color, Keyboard, KeyboardButton};
use vtg::multipart::FileType;
use vtg::params::{contains_param, param};
use vtg::sending::{attach_name, media_entry, media_group_json, options_send_params,
    send_html_params, send_keyboard_params, send_message_params};
use vtg::tg_api::TGSendMessageOptions;
use vtg::vk::VKUpdate;
use vtg::vk_api::VKMessagesSendOptions;

fn test_config() -> Config {
    Config {
        vk_access_token: "vk-token".to_string(),
        vk_group_id: 42,
        vk_api_version: "5.199".to_string(),
        tg_access_token: "bot123:abc".to_string(),
        callback: None,
    }
}

fn pair(k: &str, v: &str) -> (String, String) {
    (k.to_string(), v.to_string())
}

#[test]
fn plain_send_params_are_exact() {
    assert_eq!(
        send_message_params(&Platform::VK, 9, "hello"),
        vec![pair("peer_id", "9"), pair("message", "hello"), pair("random_id", "0")]
    );
    assert_eq!(
        send_message_params(&Platform::Telegram, 9, "hello"),
        vec![pair("chat_id", "9"), pair("text", "hello")]
    );
}

#[test]
fn html_send_params_add_the_parse_mode_on_telegram_only() {
    assert_eq!(
        send_html_params(&Platform::VK, 9, "<b>x</b>"),
        send_message_params(&Platform::VK, 9, "<b>x</b>")
    );
    assert_eq!(
        send_html_params(&Platform::Telegram, 9, "<b>x</b>"),
        vec![pair("chat_id", "9"), pair("text", "<b>x</b>"), pair("parse_mode", "HTML")]
    );
}

#[test]
fn keyboard_send_params_carry_the_markup() {
    assert_eq!(
        send_keyboard_params(&Platform::VK, 9, "m", "{\"k\":1}"),
        vec![
            pair("peer_id", "9"),
            pair("message", "m"),
            pair("random_id", "0"),
            pair("keyboard", "{\"k\":1}"),
        ]
    );
    assert_eq!(
        send_keyboard_params(&Platform::Telegram, 9, "m", "{\"k\":1}"),
        vec![
            pair("chat_id", "9"),
            pair("text", "m"),
            pair("reply_markup", "{\"k\":1}"),
            pair("parse_mode", "HTML"),
        ]
    );
}

#[test]
fn vk_options_render_alphabetically_and_skip_unset_fields() {
    let options = VKMessagesSendOptions {
        peer_id: Some(5),
        message: Some("from options".to_string()),
        disable_mentions: Some(true),
        ..VKMessagesSendOptions::default()
    };
    assert_eq!(
        options.to_params(),
        vec![
            pair("disable_mentions", "true"),
            pair("message", "from options"),
            pair("peer_id", "5"),
        ]
    );
}

#[test]
fn options_send_adds_the_message_only_when_missing() {
    let vk = VKMessagesSendOptions {
        peer_id: Some(5),
        message: Some("already".to_string()),
        ..VKMessagesSendOptions::default()
    };
    let tg = TGSendMessageOptions::default();
    let ps = options_send_params(&Platform::VK, &vk, &tg, "already");
    assert_eq!(
        ps,
        vec![pair("message", "already"), pair("peer_id", "5"), pair("random_id", "0")]
    );
    let ps = options_send_params(&Platform::VK, &vk, &tg, "other");
    assert_eq!(
        ps,
        vec![
            pair("message", "already"),
            pair("peer_id", "5"),
            pair("message", "other"),
            pair("random_id", "0"),
        ]
    );
    let tg = TGSendMessageOptions {
        chat_id: Some(5),
        ..TGSendMessageOptions::default()
    };
    let ps = options_send_params(&Platform::Telegram, &vk, &tg, "hi");
    assert_eq!(ps, vec![pair("chat_id", "5"), pair("text", "hi")]);
}

#[test]
fn builder_fills_in_what_the_options_leave_open() {
    let config = test_config();
    let ctx = VKUpdate { kind: String::new(), object: None }.unify(&config);
    let builder = ctx.message("fallback");
    let ps = builder.vk_send_params(None, "");
    assert_eq!(
        ps,
        vec![pair("message", "fallback"), pair("peer_id", "0"), pair("random_id", "0")]
    );
    let builder = builder.vk_options(VKMessagesSendOptions {
        message: Some("set".to_string()),
        peer_id: Some(3),
        ..VKMessagesSendOptions::default()
    });
    let ps = builder.vk_send_params(None, "photo1_2");
    assert_eq!(
        ps,
        vec![
            pair("message", "set"),
            pair("peer_id", "3"),
            pair("random_id", "0"),
            pair("attachment", "photo1_2"),
        ]
    );
}

#[test]
fn builder_keyboard_goes_on_the_wire_unless_the_options_carry_one() {
    let config = test_config();
    let ctx = VKUpdate { kind: String::new(), object: None }.unify(&config);
    let keyboard = Keyboard::new(vec![], false, false, &Platform::VK);
    let builder = ctx.message("m").keyboard(keyboard);
    let ps = builder.vk_send_params(Some("{\"buttons\":[]}"), "");
    assert!(ps.contains(&pair("keyboard", "{\"buttons\":[]}")));
    let builder = builder.vk_options(VKMessagesSendOptions {
        keyboard: Some("{\"theirs\":1}".to_string()),
        ..VKMessagesSendOptions::default()
    });
    let ps = builder.vk_send_params(Some("{\"buttons\":[]}"), "");
    assert!(!ps.contains(&pair("keyboard", "{\"buttons\":[]}")));
}

#[test]
fn builder_telegram_parse_mode_defaults_to_html() {
    let config = test_config();
    let ctx = VKUpdate { kind: String::new(), object: None }.unify(&config);
    let ps = ctx.message("m").tg_send_params(None);
    assert_eq!(ps, vec![pair("text", "m"), pair("chat_id", "0")]);
    let ps = ctx.message("m").parse_mode("HTML").tg_send_params(None);
    assert!(!ps.contains(&pair("parse_mode", "HTML")));
    let ps = ctx.message("m").parse_mode("MarkdownV2").tg_send_params(None);
    assert!(ps.contains(&pair("parse_mode", "MarkdownV2")));
}

#[test]
fn send_options_bundle_keeps_both_platforms() {
    let options = SendOptions {
        vk: VKMessagesSendOptions::default(),
        tg: TGSendMessageOptions::default(),
    };
    assert_eq!(options.vk.to_params(), vec![]);
    assert_eq!(options.tg.to_params(), vec![]);
}

#[test]
fn media_entries_and_groups_are_exact() {
    assert_eq!(
        media_entry(&FileType::Photo, "https://x/y.jpg", "cap"),
        "{\"type\":\"photo\",\"media\":\"https://x/y.jpg\",\"caption\":\"cap\"}"
    );
    assert_eq!(attach_name(&FileType::Photo, 0), "photo");
    assert_eq!(attach_name(&FileType::Photo, 2), "photo2");
    assert_eq!(
        media_group_json(&vec!["{\"a\":1}".to_string(), "{\"b\":2}".to_string()]),
        "[{\"a\":1},{\"b\":2}]"
    );
    assert_eq!(media_group_json(&vec![]), "[]");
}

#[test]
fn params_helpers_find_exact_pairs() {
    let p = param("k", "v");
    assert_eq!(p, pair("k", "v"));
    let ps = vec![pair("a", "1"), pair("b", "2")];
    assert!(contains_param(&ps, "b", "2"));
    assert!(!contains_param(&ps, "b", "3"));
    assert!(!contains_param(&ps, "c", "2"));
}

#[test]
fn vk_keyboard_mapping_is_exact() {
    let keyboard = Keyboard::new(
        vec![vec![KeyboardButton::Text {
            label: "Go".to_string(),
            color: Color::Positive,
            data: Some("{\"text\":\"hello\"}".to_string()),
        }]],
        true,
        false,
        &Platform::VK,
    );
    assert!(keyboard.inline);
    assert!(!keyboard.one_time);
    assert!(keyboard.tg_buttons.is_none());
    let vk = keyboard.vk_buttons.expect("VK side must be built");
    assert!(vk.inline);
    assert!(!vk.one_time);
    assert_eq!(vk.buttons.len(), 1);
    let b = &vk.buttons[0][0];
    assert_eq!(b.action.kind, "text");
    assert_eq!(b.action.label, Some("Go".to_string()));
    assert_eq!(b.action.payload, Some("{\"text\":\"hello\"}".to_string()));
    assert_eq!(b.color, Some("positive".to_string()));
}

#[test]
fn tg_keyboard_mapping_defaults_the_callback_payload() {
    let keyboard = Keyboard::new(
        vec![vec![
            KeyboardButton::Text {
                label: "Yes".to_string(),
                color: Color::Primary,
                data: None,
            },
            KeyboardButton::Url {
                label: "Open".to_string(),
                link: "https://x".to_string(),
                color: Color::Secondary,
                data: Some("\"d\"".to_string()),
            },
        ]],
        true,
        true,
        &Platform::Telegram,
    );
    assert!(keyboard.vk_buttons.is_none());
    let rows = keyboard.tg_buttons.expect("Telegram side must be built");
    assert_eq!(rows.len(), 1);
    assert_eq!(rows[0].len(), 2);
    assert_eq!(rows[0][0].text, "Yes");
    assert_eq!(rows[0][0].callback_data, Some("\"\"".to_string()));
    assert_eq!(rows[0][1].text, "Open");
    assert_eq!(rows[0][1].url, Some("https://x".to_string()));
    assert_eq!(rows[0][1].callback_data, Some("\"d\"".to_string()));
    assert_eq!(Color::Negative.as_string(), "negative");
}
