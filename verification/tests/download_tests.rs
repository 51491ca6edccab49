use kaulan::download::{netease_fallback_result, NeteaseQuality};
use kaulan::download::{
    append_warning, bilibili_audio_extension, build_online_provider_statuses,
    check_target_within_root, configure_ffmpeg_path_for_process, cookie_file_usable,
    ensure_ytdl_solver_dependencies_in_dir, explain_netease_failure, file_name_with_extension,
    format_duration_ms, has_cookie_line, is_valid_preview_name, join_artists,
    normalize_remote_url, parse_netease_track_id, path_starts_with, preview_display_name,
    preview_stream_url, preview_token, rejected_download_response, requested_target_dir,
    simple_hash, strip_html_tags, synthetic_preview_id, truncated_hash_preview_id,
    youtube_thumbnail_url, youtube_watch_url, BilibiliProvider, DownloadSource, NeteaseProvider,
    Platform, YoutubeProvider,
};

#[test]
fn sources_have_lowercase_names() {
    assert_eq!(DownloadSource::Youtube.as_str(), "youtube");
    assert_eq!(DownloadSource::Netease.as_str(), "netease");
    assert_eq!(DownloadSource::Bilibili.as_str(), "bilibili");
    assert_eq!(DownloadSource::Import.as_str(), "import");
    assert_eq!(YoutubeProvider::new().source(), DownloadSource::Youtube);
    assert_eq!(NeteaseProvider::new().source(), DownloadSource::Netease);
    assert_eq!(BilibiliProvider::new().source(), DownloadSource::Bilibili);
}

#[test]
fn provider_statuses_follow_configuration() {
    let statuses = build_online_provider_statuses(true, false, true);
    assert_eq!(statuses.len(), 3);
    assert_eq!(statuses[0].source, DownloadSource::Youtube);
    assert!(statuses[0].enabled);
    assert_eq!(statuses[0].summary, "YouTube cookies configured");
    assert_eq!(statuses[1].source, DownloadSource::Netease);
    assert!(!statuses[1].enabled);
    assert_eq!(statuses[1].summary, "Netease login required");
    assert_eq!(statuses[2].source, DownloadSource::Bilibili);
    assert!(statuses[2].enabled);
    assert_eq!(statuses[2].summary, "Bilibili session available");
    assert_eq!(YoutubeProvider::status_summary(false), "YouTube cookies not configured");
    assert_eq!(NeteaseProvider::status_summary(true), "Netease session available");
    assert_eq!(BilibiliProvider::status_summary(false), "Bilibili login required");
}

#[test]
fn cookie_jar_needs_a_cookie_line() {
    assert!(!has_cookie_line("# Netscape HTTP Cookie File\n\n   \n"));
    assert!(has_cookie_line("# header\n.youtube.com\tTRUE\t/\tTRUE\t0\tSID\tx\n"));
    assert!(!has_cookie_line(""));
    assert!(cookie_file_usable(" x "));
    assert!(!cookie_file_usable(" \n\t"));
}

#[test]
fn solver_dependencies_checked() {
    assert_eq!(ensure_ytdl_solver_dependencies_in_dir("/s", true, true, false), Ok(()));
    assert_eq!(
        ensure_ytdl_solver_dependencies_in_dir("/s", true, false, true),
        Err("missing ytdl-audio solver dependencies under /s. Run `npm ci --no-fund --no-audit` during setup before starting the server".to_string())
    );
    assert_eq!(
        ensure_ytdl_solver_dependencies_in_dir("/s", false, true, false),
        Err("missing ytdl-audio solver dependencies under /s. Run `npm install --no-fund --no-audit` during setup before starting the server".to_string())
    );
}

#[test]
fn ffmpeg_path_only_on_android() {
    assert_eq!(configure_ffmpeg_path_for_process(Platform::Desktop, Some("/f"), Some("/bin")), None);
    assert_eq!(configure_ffmpeg_path_for_process(Platform::Android, None, Some("/bin")), None);
    assert_eq!(
        configure_ffmpeg_path_for_process(Platform::Android, Some("/f"), Some("/bin:/usr/bin")),
        Some("/f:/bin:/usr/bin".to_string())
    );
    assert_eq!(configure_ffmpeg_path_for_process(Platform::Android, Some("/f"), Some("/bin:/f")), None);
    assert_eq!(configure_ffmpeg_path_for_process(Platform::Android, Some("/f"), Some("")), Some("/f".to_string()));
    assert_eq!(configure_ffmpeg_path_for_process(Platform::Android, Some("/f"), None), Some("/f".to_string()));
}

#[test]
fn djb2_hash_and_preview_ids() {
    assert_eq!(simple_hash(""), 5381);
    assert_eq!(simple_hash("abc"), 193485963);
    assert_eq!(simple_hash("12345"), 210647514020);
    assert_eq!(synthetic_preview_id("abc"), -193485963);
    assert_eq!(synthetic_preview_id("12345"), -194116614);
    assert_eq!(synthetic_preview_id("周杰伦"), -635426847);
    assert_eq!(truncated_hash_preview_id("12345"), -194116516);
    assert_eq!(truncated_hash_preview_id("周杰伦"), -1628504100);
}

#[test]
fn bilibili_extension_by_platform() {
    assert_eq!(bilibili_audio_extension(Platform::Android), "m4s");
    assert_eq!(bilibili_audio_extension(Platform::Desktop), "mp3");
}

#[test]
fn text_helpers_for_search_results() {
    assert_eq!(normalize_remote_url("//i0.hdslb.com/x.jpg"), "https://i0.hdslb.com/x.jpg");
    assert_eq!(normalize_remote_url("http://a/b"), "http://a/b");
    assert_eq!(strip_html_tags("<em class=\"keyword\">Hello</em> World"), "Hello World");
    assert_eq!(strip_html_tags("a > b"), "a  b");
    assert_eq!(format_duration_ms(0), "0:00");
    assert_eq!(format_duration_ms(65_000), "1:05");
    assert_eq!(format_duration_ms(3_599_999), "59:59");
    assert_eq!(join_artists(&vec!["A".to_string(), "B".to_string()]), "A, B");
    assert_eq!(join_artists(&vec![]), "");
}

#[test]
fn netease_failure_explanations() {
    let expired = vec!["q1: API error (code 301)".to_string(), "q2: x".to_string()];
    assert_eq!(
        explain_netease_failure(true, &expired),
        "网易云登录已失效，请重新登录。详情: q1: API error (code 301) | q2: x"
    );
    let other = vec!["boom".to_string()];
    assert_eq!(explain_netease_failure(false, &other), "当前网易云未登录，部分歌曲需要登录后才能下载。详情: boom");
    let refused = vec!["API error (code 403)".to_string()];
    assert_eq!(
        explain_netease_failure(true, &refused),
        "网易云拒绝提供该歌曲，可能需要 VIP 或受地区限制。详情: API error (code 403)"
    );
    let gone = vec!["track unavailable".to_string()];
    assert_eq!(
        explain_netease_failure(true, &gone),
        "网易云未返回可用音频地址，可能是 VIP、版权或地区限制。详情: track unavailable"
    );
    assert_eq!(explain_netease_failure(true, &other), "网易云下载失败。详情: boom");
}

#[test]
fn preview_names_and_urls() {
    assert_eq!(youtube_watch_url("abc"), "https://www.youtube.com/watch?v=abc");
    assert_eq!(youtube_thumbnail_url("abc"), "https://i.ytimg.com/vi/abc/hqdefault.jpg");
    assert_eq!(preview_token(DownloadSource::Bilibili, "BV1"), "preview-bilibili-BV1");
    assert_eq!(file_name_with_extension("song", "mp3"), "song.mp3");
    assert_eq!(preview_display_name("T", Some("A")), "T [A]");
    assert_eq!(preview_display_name("T", Some("")), "T");
    assert_eq!(preview_display_name("T", None), "T");
    assert_eq!(preview_stream_url("http://h", "p.mp3"), "http://h/api/download/preview/p.mp3");
    assert!(is_valid_preview_name("preview-youtube-x.mp3"));
    assert!(!is_valid_preview_name("../etc/passwd"));
    assert!(!is_valid_preview_name("a\\b"));
}

#[test]
fn netease_track_id_must_be_decimal() {
    assert_eq!(parse_netease_track_id("347230"), Ok(347230));
    assert_eq!(parse_netease_track_id("abc"), Err("无效的网易云歌曲 ID".to_string()));
    assert_eq!(parse_netease_track_id(""), Err("无效的网易云歌曲 ID".to_string()));
}

#[test]
fn rejected_download_has_only_message() {
    let r = rejected_download_response("nope".to_string());
    assert!(!r.success);
    assert_eq!(r.message, "nope");
    assert!(r.filename.is_none() && r.lyric_filename.is_none() && r.warning.is_none());
}

#[test]
fn warnings_accumulate_with_separator() {
    let mut w: Option<String> = None;
    append_warning(&mut w, "a".to_string());
    assert_eq!(w.as_deref(), Some("a"));
    append_warning(&mut w, "b".to_string());
    assert_eq!(w.as_deref(), Some("a；b"));
}

#[test]
fn target_directory_resolution() {
    assert_eq!(requested_target_dir("/dl", None), Ok("/dl".to_string()));
    assert_eq!(requested_target_dir("/dl", Some("   ")), Ok("/dl".to_string()));
    assert_eq!(requested_target_dir("/dl", Some("a/b")), Ok("/dl/a/b".to_string()));
    assert_eq!(requested_target_dir("/dl", Some("a/../b")), Err("目标目录不能包含上级路径".to_string()));
    assert!(path_starts_with("/dl/a/b", "/dl"));
    assert!(path_starts_with("/dl", "/dl/"));
    assert!(!path_starts_with("/dlx/a", "/dl"));
    assert_eq!(check_target_within_root("/dl", "/dl/a"), Ok(()));
    assert_eq!(check_target_within_root("/dl", "/tmp"), Err("目标目录必须位于下载目录内".to_string()));
}

#[test]
fn netease_fallback_stops_at_first_success() {
    let outcomes: Vec<Result<(), String>> = vec![Err("API error (code 403)".to_string()), Ok(())];
    assert_eq!(netease_fallback_result(&outcomes, true), Ok(NeteaseQuality::Higher));
    assert_eq!(netease_fallback_result(&vec![Ok(())], false), Ok(NeteaseQuality::Exhigh));
    assert_eq!(NeteaseQuality::Standard.as_str(), "Standard");
}

#[test]
fn netease_fallback_explains_all_failures() {
    let outcomes: Vec<Result<(), String>> =
        vec![Err("a".to_string()), Err("track unavailable".to_string()), Err("c".to_string())];
    assert_eq!(
        netease_fallback_result(&outcomes, true),
        Err("网易云未返回可用音频地址，可能是 VIP、版权或地区限制。详情: Exhigh: a | Higher: track unavailable | Standard: c".to_string())
    );
    assert_eq!(
        netease_fallback_result(&vec![Err("x".to_string())], false),
        Err("当前网易云未登录，部分歌曲需要登录后才能下载。详情: Exhigh: x".to_string())
    );
}
