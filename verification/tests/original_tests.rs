use kaulan::cli::parse_cli_options;
use kaulan::discovery::DiscoveryMessage;
use kaulan::download::{
    requested_target_dir, should_skip_bilibili_ffmpeg, Platform, BILIBILI_RAW_AUDIO_EXTENSION,
};
use kaulan::filenames::{
    download_disposition, parse_filename_parts, percent_encode_filename, resolve_download_file_stem,
    sanitize_filename, validate_import_item_filenames, ImportRemoteItem,
};
use kaulan::lyrics::{lyric_sidecar_extension, merge_lyric_content};
use kaulan::media::{
    content_type_to_extension, cover_mime_type, should_embed_cover_art, ImageCodec, SUPPORTED_EXTENSIONS,
};
use kaulan::remote::{is_blocked_ip, validate_remote_api_base, IpAddress, IMPORT_MAX_BYTES_PER_ITEM};
use kaulan::sources::{normalize_path, SourceRegistry};
use kaulan::types::{build_http_stream_url, is_localhost_request, validate_stream_request};

fn v4(a: u8, b: u8, c: u8, d: u8) -> IpAddress {
    IpAddress::V4([a, b, c, d])
}

#[test]
fn parse_cli_options_accepts_music_path_and_auth_files() {
    let args = vec![
        "/music".to_string(),
        "--youtube-cookie-file".to_string(),
        "/tmp/youtube.txt".to_string(),
        "--netease-session-file".to_string(),
        "/tmp/netease.json".to_string(),
        "--bilibili-session-file".to_string(),
        "/tmp/bilibili.json".to_string(),
    ];

    let parsed = parse_cli_options(&args).unwrap();

    assert_eq!(parsed.music_path.as_deref(), Some("/music"));
    assert_eq!(parsed.youtube_cookie_file.as_deref(), Some("/tmp/youtube.txt"));
    assert_eq!(parsed.netease_session_file.as_deref(), Some("/tmp/netease.json"));
    assert_eq!(parsed.bilibili_session_file.as_deref(), Some("/tmp/bilibili.json"));
}

#[test]
fn parse_cli_options_rejects_unknown_flag() {
    let args = vec!["--unknown".to_string(), "value".to_string()];
    let err = parse_cli_options(&args).unwrap_err();
    assert!(err.contains("Unknown option"));
}

#[test]
fn test_supported_extensions() {
    assert!(SUPPORTED_EXTENSIONS.contains(&"mp3"));
    assert!(SUPPORTED_EXTENSIONS.contains(&"flac"));
    assert!(SUPPORTED_EXTENSIONS.contains(&"mka"));
    assert!(!SUPPORTED_EXTENSIONS.contains(&"m4s"));
    assert!(!SUPPORTED_EXTENSIONS.contains(&"webm"));
    assert!(!SUPPORTED_EXTENSIONS.contains(&"txt"));
}

#[test]
fn normalize_content_uri_is_stable() {
    let path = "content://media/external/audio/media/42";
    let registry = SourceRegistry::new();
    assert_eq!(normalize_path(&registry, path, Platform::Desktop, None), path);
}

#[test]
fn merged_lyric_keeps_translation_on_same_timestamp() {
    let merged = merge_lyric_content(
        Some("[00:01.00]hello".to_string()),
        Some("[00:01.00]你好".to_string()),
    )
    .unwrap();

    assert_eq!(merged, "[00:01.00]hello\n[00:01.00]你好");
}

#[test]
fn lyric_sidecar_extension_sniffs_format_from_content() {
    assert_eq!(lyric_sidecar_extension("[00:01.00]hi"), "lrc");
    assert_eq!(lyric_sidecar_extension("WEBVTT\n\n00:00:01.000 -->"), "vtt");
    assert_eq!(lyric_sidecar_extension("\u{feff}  WEBVTT\n\n00:00:01.000"), "vtt");
}

#[test]
fn target_dir_rejects_parent_components() {
    let error = requested_target_dir("/tmp/kaulan-downloads", Some("../outside")).unwrap_err();
    assert!(error.contains("上级路径"));
}

#[test]
fn content_type_maps_common_audio_types() {
    assert_eq!(content_type_to_extension("audio/mpeg"), Some("mp3"));
    assert_eq!(content_type_to_extension("audio/flac"), Some("flac"));
    assert_eq!(content_type_to_extension("audio/mp4"), Some("m4a"));
    assert_eq!(content_type_to_extension("audio/ogg; codecs=opus"), Some("ogg"));
    assert_eq!(content_type_to_extension("application/octet-stream"), Some("mp3"));
    assert_eq!(content_type_to_extension("text/html"), None);
    assert_eq!(content_type_to_extension("application/json"), None);
    assert_eq!(content_type_to_extension(""), None);
}

#[test]
fn parse_filename_parts_uses_supplied_stem_and_extension() {
    let (stem, ext) = parse_filename_parts(Some("Artist - Track.mp3"), 7).unwrap();
    assert_eq!(stem, "Artist - Track");
    assert_eq!(ext, "mp3");
}

#[test]
fn parse_filename_parts_falls_back_when_missing() {
    let (stem, ext) = parse_filename_parts(None, 42).unwrap();
    assert_eq!(stem, "remote-42");
    assert_eq!(ext, "");
}

#[test]
fn parse_filename_parts_rejects_path_separators() {
    let slash = parse_filename_parts(Some("album/track.mp3"), 1).unwrap_err();
    assert!(slash.contains("路径分隔符"));

    let backslash = parse_filename_parts(Some("album\\track.mp3"), 1).unwrap_err();
    assert!(backslash.contains("路径分隔符"));
}

#[test]
fn parse_filename_parts_sanitizes_other_reserved_characters() {
    let (stem, _) = parse_filename_parts(Some("bad:name?.mp3"), 1).unwrap();
    assert!(!stem.contains(':'));
    assert!(!stem.contains('?'));
}

#[test]
fn validate_import_item_filenames_rejects_path_separators() {
    let items = vec![ImportRemoteItem {
        music_id: 1,
        filename: Some("album\\track.mp3".to_string()),
    }];
    let error = validate_import_item_filenames(&items).unwrap_err();
    assert!(error.contains("路径分隔符"));
}

#[test]
fn max_bytes_per_item_is_half_gigibyte() {
    assert_eq!(IMPORT_MAX_BYTES_PER_ITEM, 512 * 1024 * 1024);
}

#[test]
fn validate_remote_base_accepts_http_urls() {
    assert_eq!(
        validate_remote_api_base("http://192.168.1.10:2080/api").unwrap(),
        "http://192.168.1.10:2080/api"
    );
    assert_eq!(
        validate_remote_api_base("https://example.local/api/").unwrap(),
        "https://example.local/api"
    );
}

#[test]
fn validate_remote_base_rejects_non_http_empty_and_garbage() {
    assert!(validate_remote_api_base("ftp://example.local").is_err());
    assert!(validate_remote_api_base("not-a-url").is_err());
    assert!(validate_remote_api_base("   ").is_err());
}

#[test]
fn blocked_ip_refuses_metadata_loopback_and_unspecified() {
    assert!(is_blocked_ip(v4(169, 254, 169, 254), true));
    assert!(is_blocked_ip(v4(169, 254, 0, 1), true));
    assert!(is_blocked_ip(v4(127, 0, 0, 1), true));
    assert!(is_blocked_ip(v4(127, 1, 2, 3), true));
    assert!(is_blocked_ip(IpAddress::V6([0, 0, 0, 0, 0, 0, 0, 1]), true));
    assert!(is_blocked_ip(v4(0, 0, 0, 0), true));
    assert!(is_blocked_ip(IpAddress::V6([0, 0, 0, 0, 0, 0, 0, 0]), true));
    assert!(is_blocked_ip(IpAddress::V6([0xfe80, 0, 0, 0, 0, 0, 0, 1]), true));
    assert!(is_blocked_ip(
        IpAddress::V6([0, 0, 0, 0, 0, 0xffff, 0xa9fe, 0xa9fe]),
        true
    ));
}

#[test]
fn blocked_ip_allows_public_and_private_ranges() {
    assert!(!is_blocked_ip(v4(8, 8, 8, 8), true));
    assert!(!is_blocked_ip(v4(192, 168, 1, 10), true));
    assert!(!is_blocked_ip(v4(10, 0, 0, 5), true));
    assert!(!is_blocked_ip(v4(172, 16, 0, 2), true));
}

#[test]
fn blocked_ip_loopback_exemption_is_independent_of_link_local() {
    assert!(!is_blocked_ip(v4(127, 0, 0, 1), false));
    assert!(is_blocked_ip(v4(169, 254, 169, 254), false));
    assert!(is_blocked_ip(v4(0, 0, 0, 0), false));
}

#[test]
fn disposition_is_none_unless_download_requested() {
    assert!(download_disposition(false, "song.mp3").is_none());
}

#[test]
fn disposition_emits_attachment_with_both_filename_forms() {
    let value = download_disposition(true, "Song.mp3").unwrap();
    assert_eq!(
        value,
        "attachment; filename=\"Song.mp3\"; filename*=UTF-8''Song.mp3"
    );
}

#[test]
fn disposition_keeps_legacy_token_ascii_for_non_ascii_names() {
    let value = download_disposition(true, "歌曲.mp3").unwrap();
    assert!(value.contains("filename=\"__.mp3\""), "{value}");
    assert!(
        value.contains("filename*=UTF-8''%E6%AD%8C%E6%9B%B2.mp3"),
        "{value}"
    );
}

#[test]
fn percent_encode_keeps_unreserved_and_encodes_cjk() {
    assert_eq!(percent_encode_filename("a-1_.mp3~"), "a-1_.mp3~");
    assert_eq!(percent_encode_filename("歌曲"), "%E6%AD%8C%E6%9B%B2");
}

#[test]
fn sanitize_filename_replaces_reserved_characters() {
    assert_eq!(sanitize_filename("a:b/c"), "a_b_c");
}

#[test]
fn resolve_download_file_stem_strips_extension() {
    let stem = resolve_download_file_stem(Some("Artist - Song.mp3"), "fallback").unwrap();
    assert_eq!(stem, "Artist - Song");
}

#[test]
fn resolve_download_file_stem_rejects_paths() {
    let err = resolve_download_file_stem(Some("../song"), "fallback").unwrap_err();
    assert!(err.contains("不能包含路径"));
}

#[test]
fn resolve_download_file_stem_rejects_nested_relative_paths() {
    let err = resolve_download_file_stem(Some("Album/Song.mp3"), "fallback").unwrap_err();
    assert!(err.contains("不能包含路径"));
}

#[test]
fn resolve_download_file_stem_rejects_blank_names() {
    let err = resolve_download_file_stem(Some("   "), "fallback").unwrap_err();
    assert!(err.contains("不能为空"));
}

#[test]
fn cover_art_embedding_skips_ogg_only() {
    assert!(!should_embed_cover_art("/tmp/example.ogg"));
    assert!(!should_embed_cover_art("/tmp/example.OGG"));
    assert!(should_embed_cover_art("/tmp/example.mka"));
    assert!(should_embed_cover_art("/tmp/example.mp3"));
    assert!(should_embed_cover_art("/tmp/example.flac"));
    assert!(should_embed_cover_art("/tmp/example.m4a"));
}

#[test]
fn cover_codec_ids_map_to_expected_mime_types() {
    assert_eq!(cover_mime_type(ImageCodec::Mjpeg), "image/jpeg");
    assert_eq!(cover_mime_type(ImageCodec::Png), "image/png");
}

#[test]
fn bilibili_android_downloads_keep_raw_extension() {
    let extension = if should_skip_bilibili_ffmpeg(Platform::Desktop) {
        BILIBILI_RAW_AUDIO_EXTENSION
    } else {
        "mp3"
    };

    assert!(!extension.is_empty());
}

#[test]
fn test_discovery_message_validation() {
    let msg = DiscoveryMessage::new_request();
    assert!(msg.validate().is_ok());

    let msg = DiscoveryMessage::new_response("test-id".to_string(), "Test Player".to_string(), 2080);
    assert!(msg.validate().is_ok());
}

#[test]
fn test_request_message_validation() {
    let msg = DiscoveryMessage::new_request();
    assert!(msg.validate().is_ok());
    assert_eq!(msg.message_type, DiscoveryMessage::REQUEST_TYPE);
}

#[test]
fn test_response_message_validation() {
    let msg = DiscoveryMessage::new_response(
        "test-device-id".to_string(),
        "Test Player".to_string(),
        2080,
    );
    assert!(msg.validate().is_ok());
    assert_eq!(msg.message_type, DiscoveryMessage::RESPONSE_TYPE);
}

#[test]
fn test_identified_request_validation() {
    let msg = DiscoveryMessage::new_identified_request(
        "test-device-id".to_string(),
        "Test Player".to_string(),
        2080,
    );
    assert!(msg.validate().is_ok());
}

#[test]
fn test_partial_identified_request_is_rejected() {
    let mut msg = DiscoveryMessage::new_request();
    msg.device_id = Some("test-device-id".to_string());
    assert!(msg.validate().is_err());
}

#[test]
fn builds_absolute_http_stream_url() {
    assert_eq!(
        build_http_stream_url("http", "192.168.136.29:2080", 42),
        "http://192.168.136.29:2080/api/music/id/42"
    );
}

#[test]
fn localhost_request_detection_works_for_loopback() {
    assert!(is_localhost_request(Some(v4(127, 0, 0, 1))));
}

#[test]
fn localhost_request_detection_rejects_lan_clients() {
    assert!(!is_localhost_request(Some(v4(192, 168, 136, 10))));
}

#[test]
fn non_android_builds_reject_content_stream_requests() {
    let response = validate_stream_request(Some("content"), true, Platform::Desktop);
    assert!(response.is_err());
}
