use vtg::config::{CallbackSettings, Config};
use vtg::context::EventType;
use vtg::tg::TGUpdate;
use vtg::vk::{VKMessage, VKMessageNew, VKObject, VKUpdate};
use vtg::webhook::{handle_telegram_request, handle_unknown_route, handle_vk_request, route_of,
    shutdown_terminates, startup_decision, webhook_registration_params, Route, StartupDecision};

fn webhook_config() -> Config {
    Config {
        vk_access_token: "vk-token".to_string(),
        vk_group_id: 42,
        vk_api_version: "5.199".to_string(),
        tg_access_token: "bot123:abc".to_string(),
        callback: Some(CallbackSettings {
            port: 8080,
            callback_url: "https://bot.example.com".to_string(),
            secret: "hunter2".to_string(),
            path: "hook".to_string(),
        }),
    }
}

fn plain_vk_message_update() -> VKUpdate {
    VKUpdate {
        kind: "message_new".to_string(),
        object: Some(VKObject::MessageNew(VKMessageNew {
            message: VKMessage {
                text: "hi".to_string(),
                from_id: 1,
                peer_id: 2,
                id: 3,
                payload: None,
                fwd_messages: None,
                reply_message: None,
                ref_: None,
                ref_source: None,
                attachments: None,
                important: None,
                random_id: None,
                conversation_message_id: None,
                action: None,
                admin_author_id: None,
                conversation_chat_id: None,
                is_hidden: None,
                update_time: None,
                was_listened: None,
                pinned_at: None,
                message_tag: None,
                is_cropped: None,
                members_count: None,
            },
        })),
    }
}

#[test]
fn routes_match_the_configured_path() {
    let config = webhook_config();
    let settings = config.callback.as_ref().unwrap();
    assert_eq!(route_of(settings, "/hook/vk"), Route::VK);
    assert_eq!(route_of(settings, "/hook/telegram"), Route::Telegram);
    assert_eq!(route_of(settings, "/hook/other"), Route::Unknown);
    assert_eq!(route_of(settings, "/elsewhere/vk"), Route::Unknown);
    assert_eq!(route_of(settings, "/hook/vk/"), Route::Unknown);
}

#[test]
fn confirmation_answers_the_secret_and_enqueues_nothing() {
    let config = webhook_config();
    let update = VKUpdate { kind: "confirmation".to_string(), object: None };
    let out = handle_vk_request(&config, Some(update));
    assert_eq!(out.status, 200);
    assert_eq!(out.body, "hunter2");
    assert!(out.enqueue.is_none());
}

#[test]
fn vk_update_is_enqueued_and_answered_ok() {
    let config = webhook_config();
    let out = handle_vk_request(&config, Some(plain_vk_message_update()));
    assert_eq!(out.status, 200);
    assert_eq!(out.body, "OK");
    let ctx = out.enqueue.expect("the update must be enqueued");
    assert_eq!(ctx.event_type, EventType::MessageNew);
    assert_eq!(ctx.text, "hi");
}

#[test]
fn malformed_vk_body_degrades_to_the_default_update() {
    let config = webhook_config();
    let out = handle_vk_request(&config, None);
    assert_eq!(out.status, 200);
    assert_eq!(out.body, "OK");
    let ctx = out.enqueue.expect("the fallback update must be enqueued");
    assert_eq!(ctx.event_type, EventType::Unknown);
    assert_eq!(ctx.text, "");
}

#[test]
fn missing_secret_header_is_forbidden() {
    let config = webhook_config();
    let out = handle_telegram_request(&config, None, Some(TGUpdate::default()));
    assert_eq!(out.status, 403);
    assert_eq!(out.body, "Forbidden");
    assert!(out.enqueue.is_none());
}

#[test]
fn wrong_secret_header_is_forbidden() {
    let config = webhook_config();
    let out = handle_telegram_request(&config, Some("guess"), Some(TGUpdate::default()));
    assert_eq!(out.status, 403);
    assert!(out.enqueue.is_none());
}

#[test]
fn correct_secret_header_enqueues_the_update() {
    let config = webhook_config();
    let update = TGUpdate { update_id: 5, ..TGUpdate::default() };
    let out = handle_telegram_request(&config, Some("hunter2"), Some(update));
    assert_eq!(out.status, 200);
    assert_eq!(out.body, "OK");
    assert!(out.enqueue.is_some());
}

#[test]
fn malformed_telegram_body_degrades_to_the_default_update() {
    let config = webhook_config();
    let out = handle_telegram_request(&config, Some("hunter2"), None);
    assert_eq!(out.status, 200);
    let ctx = out.enqueue.expect("the fallback update must be enqueued");
    assert_eq!(ctx.event_type, EventType::Unknown);
}

#[test]
fn unknown_paths_are_not_found() {
    let out = handle_unknown_route();
    assert_eq!(out.status, 404);
    assert!(out.enqueue.is_none());
}

#[test]
fn registration_names_the_telegram_route_and_secret() {
    let config = webhook_config();
    let params = webhook_registration_params(config.callback.as_ref().unwrap());
    assert_eq!(
        params,
        vec![
            (
                "url".to_string(),
                "https://bot.example.com/hook/telegram".to_string()
            ),
            ("secret_token".to_string(), "hunter2".to_string()),
        ]
    );
}

#[test]
fn registration_failure_aborts_startup() {
    assert_eq!(startup_decision(Ok(())), StartupDecision::Proceed);
    assert_eq!(
        startup_decision(Err("denied".to_string())),
        StartupDecision::Abort
    );
}

#[test]
fn shutdown_terminates_even_when_deregistration_fails() {
    assert!(shutdown_terminates(&Ok(())));
    assert!(shutdown_terminates(&Err("offline".to_string())));
}
