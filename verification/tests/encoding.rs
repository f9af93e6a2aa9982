use vtg::api::{access_token, api_url, classify_tg_response, classify_vk_response,
    transport_error};
use vtg::config::{CallbackSettings, Config};
use vtg::context::Platform;
use vtg::forms::{hex, should_encode, FastFormSerializer};
use vtg::multipart::{download_filename, field_name, file_data, multipart_body, multipart_request,
    File, FileType};
use vtg::text::{i64_to_dec, u64_to_dec};
use vtg::upload::{audio_message_attachment_ref, doc_attachment_ref, photo_attachment_ref,
    save_doc_request, save_photo_request, upload_server_kind, upload_server_request,
    UploadServerKind, VKMessageDocumentUploaded, VKMessagePhotoUploaded, VKUploadServers};

fn test_config() -> Config {
    Config {
        vk_access_token: "vk-token".to_string(),
        vk_group_id: 42,
        vk_api_version: "5.199".to_string(),
        tg_access_token: "bot123:abc".to_string(),
        callback: None,
    }
}

#[test]
fn decimal_rendering_is_exact() {
    assert_eq!(u64_to_dec(0), "0");
    assert_eq!(u64_to_dec(105), "105");
    assert_eq!(i64_to_dec(-42), "-42");
    assert_eq!(i64_to_dec(i64::MIN), "-9223372036854775808");
    assert_eq!(i64_to_dec(i64::MAX), "9223372036854775807");
}

#[test]
fn unreserved_bytes_stay_plain() {
    assert!(!should_encode(b'a'));
    assert!(!should_encode(b'Z'));
    assert!(!should_encode(b'0'));
    assert!(!should_encode(b'-'));
    assert!(!should_encode(b'.'));
    assert!(!should_encode(b'_'));
    assert!(!should_encode(b'~'));
    assert!(should_encode(b' '));
    assert!(should_encode(b'&'));
    assert!(should_encode(b'='));
}

#[test]
fn hex_digits_are_uppercase() {
    assert_eq!(hex(0x20), "20");
    assert_eq!(hex(0xAF), "AF");
    assert_eq!(hex(0x05), "05");
}

#[test]
fn form_encoding_matches_the_wire_format() {
    let pairs = vec![
        ("act".to_string(), "a_check".to_string()),
        ("text".to_string(), "hi there & bye".to_string()),
    ];
    let mut s = FastFormSerializer::new(&pairs);
    s.extend_pairs(&pairs);
    assert_eq!(s.finish(), "act=a_check&text=hi%20there%20%26%20bye");
}

#[test]
fn form_encoding_percent_encodes_utf8_bytes() {
    let pairs = vec![("k".to_string(), "é".to_string())];
    let mut s = FastFormSerializer::new(&pairs);
    s.extend_pairs(&pairs);
    assert_eq!(s.finish(), "k=%C3%A9");
}

#[test]
fn finish_empties_the_serializer() {
    let pairs = vec![("a".to_string(), "b".to_string())];
    let mut s = FastFormSerializer::new(&pairs);
    s.extend_pairs(&pairs);
    assert_eq!(s.finish(), "a=b");
    assert_eq!(s.finish(), "");
}

#[test]
fn multipart_part_bytes_are_exact() {
    let f = File {
        filename: "cat.jpg".to_string(),
        content: vec![1, 2, 3],
        ftype: FileType::Photo,
    };
    let data = file_data(&f, "XYZ", "photo", false);
    let mut expected = b"--XYZ\r\nContent-Disposition: form-data; name=\"photo\"; filename=\"cat.jpg\"\r\n\r\n".to_vec();
    expected.extend_from_slice(&[1, 2, 3]);
    expected.extend_from_slice(b"\r\n");
    assert_eq!(data, expected);
    let last = file_data(&f, "XYZ", "photo", true);
    let mut expected_last = expected.clone();
    expected_last.extend_from_slice(b"\r\n--XYZ");
    assert_eq!(last, expected_last);
}

#[test]
fn multipart_field_names_follow_platform_and_index() {
    assert_eq!(field_name(&FileType::Photo, &Platform::VK, 0), "file");
    assert_eq!(field_name(&FileType::Photo, &Platform::VK, 2), "file2");
    assert_eq!(field_name(&FileType::Photo, &Platform::Telegram, 0), "photo");
    assert_eq!(
        field_name(&FileType::VideoNote, &Platform::Telegram, 1),
        "videonote1"
    );
}

#[test]
fn multipart_body_frames_every_file_and_closes() {
    let files = vec![
        File { filename: "a.txt".to_string(), content: b"A".to_vec(), ftype: FileType::Document },
        File { filename: "b.txt".to_string(), content: b"B".to_vec(), ftype: FileType::Document },
    ];
    let body = multipart_body(&files, "B0", &Platform::Telegram);
    let expected = b"--B0\r\nContent-Disposition: form-data; name=\"document\"; filename=\"a.txt\"\r\n\r\nA\r\n--B0\r\nContent-Disposition: form-data; name=\"document1\"; filename=\"b.txt\"\r\n\r\nB\r\n\r\n--B0--".to_vec();
    assert_eq!(body, expected);
}

#[test]
fn multipart_request_draws_a_thirty_character_boundary() {
    let files = vec![
        File { filename: "a.txt".to_string(), content: b"A".to_vec(), ftype: FileType::Document },
    ];
    let (boundary, body) = multipart_request(&files, &Platform::VK);
    assert_eq!(boundary.len(), 30);
    assert!(boundary.chars().all(|c| c.is_ascii_alphanumeric()));
    assert_eq!(body, multipart_body(&files, &boundary, &Platform::VK));
}

#[test]
fn file_kind_names_are_exact() {
    assert_eq!(FileType::VideoNote.as_string(), "Video_Note");
    assert_eq!(FileType::VideoNote.api_name(), "video_note");
    assert_eq!(FileType::VideoNote.tg_send_method(), "sendVideoNote");
    assert_eq!(FileType::Photo.tg_send_method(), "sendPhoto");
}

#[test]
fn downloaded_files_are_classified_by_media_type() {
    assert_eq!(FileType::of_media_type("image"), FileType::Photo);
    assert_eq!(FileType::of_media_type("video"), FileType::Video);
    assert_eq!(FileType::of_media_type("audio"), FileType::Audio);
    assert_eq!(FileType::of_media_type("application"), FileType::Document);
    assert_eq!(download_filename("png"), "something.png");
}

#[test]
fn api_urls_are_exact() {
    let config = test_config();
    assert_eq!(
        api_url(&Platform::VK, "messages.send", &config),
        "https://api.vk.com/method/messages.send"
    );
    assert_eq!(
        api_url(&Platform::Telegram, "sendMessage", &config),
        "https://api.telegram.org/bot123:abc/sendMessage"
    );
    assert_eq!(access_token(&Platform::VK, &config), "vk-token");
    assert_eq!(access_token(&Platform::Telegram, &config), "");
}

#[test]
fn vk_answers_fail_exactly_on_an_error_object() {
    assert!(classify_vk_response(None).is_ok());
    assert_eq!(
        classify_vk_response(Some(Some("bad token".to_string()))),
        Err("bad token".to_string())
    );
    assert_eq!(
        classify_vk_response(Some(None)),
        Err("Unknown error".to_string())
    );
}

#[test]
fn tg_answers_follow_the_status_flag() {
    assert!(classify_tg_response(Some(true), None).is_ok());
    assert_eq!(
        classify_tg_response(Some(false), Some("chat not found".to_string())),
        Err("chat not found".to_string())
    );
    assert_eq!(
        classify_tg_response(Some(false), None),
        Err("Unknown error".to_string())
    );
    assert_eq!(
        classify_tg_response(None, Some("ignored".to_string())),
        Err("Invalid response from Telegram API".to_string())
    );
    assert_eq!(transport_error(), "Error while sending request");
}

#[test]
fn upload_servers_are_chosen_by_file_kind() {
    assert_eq!(upload_server_kind(&FileType::Photo), UploadServerKind::Photo);
    assert_eq!(upload_server_kind(&FileType::Audio), UploadServerKind::Audio);
    assert_eq!(upload_server_kind(&FileType::Voice), UploadServerKind::Audio);
    assert_eq!(upload_server_kind(&FileType::Video), UploadServerKind::Doc);
    assert_eq!(upload_server_kind(&FileType::Document), UploadServerKind::Doc);
}

#[test]
fn upload_server_requests_are_exact() {
    let (method, params) = upload_server_request(&UploadServerKind::Photo, 77);
    assert_eq!(method, "photos.getMessagesUploadServer");
    assert_eq!(params, vec![("peer_id".to_string(), "77".to_string())]);
    let (method, params) = upload_server_request(&UploadServerKind::Audio, 77);
    assert_eq!(method, "docs.getMessagesUploadServer");
    assert_eq!(
        params,
        vec![
            ("peer_id".to_string(), "77".to_string()),
            ("type".to_string(), "audio_message".to_string()),
        ]
    );
    let (_, params) = upload_server_request(&UploadServerKind::Doc, 77);
    assert_eq!(params[1], ("type".to_string(), "doc".to_string()));
}

#[test]
fn upload_server_cache_is_per_kind() {
    let mut servers = VKUploadServers::new();
    assert!(servers.cached(&UploadServerKind::Photo).is_none());
    servers.store(&UploadServerKind::Photo, "https://up.example.com/p".to_string());
    assert_eq!(
        servers.cached(&UploadServerKind::Photo),
        Some("https://up.example.com/p".to_string())
    );
    assert!(servers.cached(&UploadServerKind::Doc).is_none());
}

#[test]
fn save_requests_and_attachment_refs_are_exact() {
    let (method, params) = save_photo_request(&VKMessagePhotoUploaded {
        hash: "h".to_string(),
        photo: "p".to_string(),
        server: 9,
    });
    assert_eq!(method, "photos.saveMessagesPhoto");
    assert_eq!(
        params,
        vec![
            ("photo".to_string(), "p".to_string()),
            ("server".to_string(), "9".to_string()),
            ("hash".to_string(), "h".to_string()),
        ]
    );
    let (method, params) = save_doc_request(&VKMessageDocumentUploaded { file: "f".to_string() });
    assert_eq!(method, "docs.save");
    assert_eq!(params, vec![("file".to_string(), "f".to_string())]);
    assert_eq!(photo_attachment_ref(-7, 21), "photo-7_21,");
    assert_eq!(audio_message_attachment_ref(1, 2), "audio_message1_2,");
    assert_eq!(doc_attachment_ref(3, 4), "doc3_4,");
}

#[test]
fn config_check_fills_the_default_version() {
    let config = Config {
        vk_access_token: "vk".to_string(),
        vk_group_id: 1,
        vk_api_version: String::new(),
        tg_access_token: "botX".to_string(),
        callback: None,
    };
    assert!(config.validate());
    let checked = config.check();
    assert_eq!(checked.vk_api_version, "5.199");
    let config = Config {
        vk_api_version: "5.131".to_string(),
        vk_access_token: "vk".to_string(),
        vk_group_id: 1,
        tg_access_token: "botX".to_string(),
        callback: None,
    };
    assert_eq!(config.check().vk_api_version, "5.131");
}

#[test]
fn config_validation_rejects_each_fatal_error() {
    let good = Config {
        vk_access_token: "vk".to_string(),
        vk_group_id: 1,
        vk_api_version: String::new(),
        tg_access_token: "botX".to_string(),
        callback: Some(CallbackSettings {
            port: 1,
            callback_url: "https://x".to_string(),
            secret: "s".to_string(),
            path: "p".to_string(),
        }),
    };
    assert!(good.validate());
    let mut c = good.clone();
    c.vk_access_token = String::new();
    assert!(!c.validate());
    let mut c = good.clone();
    c.tg_access_token = "token".to_string();
    assert!(!c.validate());
    let mut c = good.clone();
    c.tg_access_token = "bo".to_string();
    assert!(!c.validate());
    let mut c = good.clone();
    c.vk_group_id = 0;
    assert!(!c.validate());
    let mut c = good.clone();
    c.vk_group_id = -5;
    assert!(!c.validate());
    let mut c = good.clone();
    c.callback.as_mut().unwrap().port = 0;
    assert!(!c.validate());
    let mut c = good.clone();
    c.callback.as_mut().unwrap().secret = String::new();
    assert!(!c.validate());
    let mut c = good.clone();
    c.callback.as_mut().unwrap().path = "/p".to_string();
    assert!(!c.validate());
    let mut c = good.clone();
    c.callback.as_mut().unwrap().path = "p/".to_string();
    assert!(!c.validate());
}
