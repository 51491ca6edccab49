use kaulan::search::{bilibili_search_result, netease_search_result, youtube_search_result};
use kaulan::cli::{ncmdump_config_dir, ncmdump_dir_from, parse_cli_options, required_path_arg, session_imports, CliOptions};
use kaulan::download::{DownloadSource, Platform};
use kaulan::finalize::{
    download_failure_message, lyric_fetch_result, lyric_sidecar_path, prepare_download_request, FinalizeReport,
    LyricFetch,
};
use kaulan::lyrics_api::{
    applied_lyric_path, apply_lyric_response, ApplyLyricOutcome, lyric_content_ok, lyric_read_status, lyric_update_response, lyric_write_candidates, LyricReadOutcome,
    LyricUpdateOutcome,
};
use kaulan::search::{
    bilibili_thumbnail_url, clamp_max_results, is_valid_bilibili_id, lyric_selection, parse_lyric_track_id,
    providers_for_search, rewrite_bilibili_thumbnails, search_query, DownloadTrackRequest, OnlineSearchResult,
};
use kaulan::server::{
    choose_device_name, choose_download_root, choose_music_directory, choose_preview_root, frontend_dist_candidates,
    is_api_path, parse_frontend_request, static_frontend_file, FrontendFile, ServerInfo, NO_MUSIC_DIRECTORY,
};
use kaulan::sources::{
    lyric_candidate_paths, normalize_path, resolve_path, scan_entry, set_android_sources, set_file_reader,
    source_claims, source_supports, PathKind, SourceKind, SourceOp, SourceRegistry,
};
use kaulan::types::{resolve_stream_url, validate_stream_request};

fn args(v: &[&str]) -> Vec<String> {
    v.iter().map(|s| s.to_string()).collect()
}

fn request(source: DownloadSource, subdir: Option<&str>, file_name: Option<&str>) -> DownloadTrackRequest {
    DownloadTrackRequest {
        source,
        id: "1".to_string(),
        title: "My: Song".to_string(),
        artist: None,
        target_subdir: subdir.map(|s| s.to_string()),
        lyric_selection: None,
        file_name: file_name.map(|s| s.to_string()),
    }
}

fn hit(source: DownloadSource, id: &str) -> OnlineSearchResult {
    OnlineSearchResult {
        source,
        id: id.to_string(),
        title: "t".to_string(),
        artist: "a".to_string(),
        duration: None,
        thumbnail_url: Some("//cdn/x.jpg".to_string()),
        can_preview: true,
        can_download: true,
        requires_login: false,
    }
}

#[test]
fn cli_errors_and_usage() {
    assert_eq!(
        parse_cli_options(&args(&["--youtube-cookie-file"])).unwrap_err(),
        "Missing value for --youtube-cookie-file"
    );
    assert_eq!(
        parse_cli_options(&args(&["--netease-session-file", "--x"])).unwrap_err(),
        "Missing value for --netease-session-file"
    );
    assert_eq!(
        parse_cli_options(&args(&["/a", "/b"])).unwrap_err(),
        "Unexpected positional argument: /b. Only one music_path is supported."
    );
    assert_eq!(required_path_arg(&args(&["x", "/p"]), 1, "--f"), Ok("/p".to_string()));
    assert_eq!(required_path_arg(&args(&["x"]), 1, "--f"), Err("Missing value for --f".to_string()));
    let usage = CliOptions::usage("kaulan");
    assert!(usage.starts_with("Usage: kaulan <run|update> [music_path] [options]\n"));
    assert!(usage.contains("--bilibili-session-file <path>"));
}

#[test]
fn cli_session_imports() {
    let parsed = parse_cli_options(&args(&["--bilibili-session-file", "/b.json", "--netease-session-file", "/n.json"])).unwrap();
    assert!(parsed.music_path.is_none());
    let imports = session_imports(&parsed);
    assert_eq!(imports.len(), 2);
    assert_eq!((imports[0].flag, imports[0].source.as_str(), imports[0].target_name), ("--netease-session-file", "/n.json", "session.json"));
    assert_eq!((imports[1].flag, imports[1].source.as_str(), imports[1].target_name), ("--bilibili-session-file", "/b.json", "bilibili_session.json"));
    assert!(session_imports(&parse_cli_options(&args(&[])).unwrap()).is_empty());
    assert_eq!(ncmdump_dir_from(Some("/o"), Some("/c")), Ok("/o".to_string()));
    assert_eq!(ncmdump_dir_from(None, Some("/c")), Ok("/c/ncmdump".to_string()));
    assert_eq!(ncmdump_dir_from(None, None), Err("Cannot determine config directory for provider auth".to_string()));
    assert_eq!(ncmdump_config_dir(Some("/o")), Ok("/o".to_string()));
}

#[test]
fn download_requests_checked_in_order() {
    assert_eq!(
        prepare_download_request("/dl", &request(DownloadSource::Youtube, Some("a"), None)),
        Ok(("/dl/a".to_string(), "My_ Song".to_string()))
    );
    assert_eq!(
        prepare_download_request("/dl", &request(DownloadSource::Youtube, None, Some("Custom.mp3"))),
        Ok(("/dl".to_string(), "Custom".to_string()))
    );
    assert_eq!(
        prepare_download_request("/dl", &request(DownloadSource::Youtube, Some(".."), None)),
        Err("目标目录不能包含上级路径".to_string())
    );
    assert_eq!(
        prepare_download_request("/dl", &request(DownloadSource::Netease, None, Some("a/b"))),
        Err("文件名不能包含路径".to_string())
    );
    assert_eq!(
        prepare_download_request("/dl", &request(DownloadSource::Import, None, None)),
        Err("不支持的下载源".to_string())
    );
}

#[test]
fn finalize_report_gathers_warnings() {
    let mut report = FinalizeReport::new(None);
    report.cover_failed("bad art");
    report.lyric_saved("/dl/song.lrc");
    report.refresh_failed("db");
    assert_eq!(report.warning.as_deref(), Some("封面写入失败: bad art；刷新曲库失败: db"));
    assert_eq!(report.lyric_filename.as_deref(), Some("song.lrc"));
    let mut other = FinalizeReport::new(Some("first".to_string()));
    other.lyric_failed("disk");
    assert_eq!(other.warning.as_deref(), Some("first；歌词保存失败: disk"));
    assert_eq!(lyric_sidecar_path("/dl/song.mp3", "WEBVTT\n"), "/dl/song.vtt");
    assert_eq!(lyric_sidecar_path("/dl/song.mp3", "[00:01]x"), "/dl/song.lrc");
    assert_eq!(lyric_fetch_result(LyricFetch::Text("t".to_string())), (Some("t".to_string()), None));
    assert_eq!(lyric_fetch_result(LyricFetch::Nothing), (None, Some("未获取到可用歌词".to_string())));
    assert_eq!(lyric_fetch_result(LyricFetch::Failed("x".to_string())), (None, Some("歌词下载失败: x".to_string())));
    assert_eq!(download_failure_message("boom"), "下载失败: boom");
}

#[test]
fn lyric_update_replies() {
    let (code, reply) = lyric_update_response(LyricUpdateOutcome::Updated("/m/a.lrc".to_string()));
    assert_eq!((code, reply.success, reply.message.as_str()), (200, true, "Lyrics updated"));
    assert_eq!(reply.lyric_filename.as_deref(), Some("a.lrc"));
    let (code, reply) = lyric_update_response(LyricUpdateOutcome::NotWritable);
    assert_eq!((code, reply.success, reply.message.as_str()), (409, false, "Lyric source is not writable"));
    let (code, _) = lyric_update_response(LyricUpdateOutcome::BlankContent);
    assert_eq!(code, 400);
    assert!(lyric_content_ok(" [00:01] hi "));
    assert!(!lyric_content_ok(" \n"));
    assert_eq!(lyric_read_status(&LyricReadOutcome::NotFound), (404, "Lyrics not found"));
    assert_eq!(lyric_read_status(&LyricReadOutcome::ReadFailed), (500, "Error reading lyrics"));
    assert_eq!(lyric_read_status(&LyricReadOutcome::Found(vec![1])).0, 200);
}

#[test]
fn lyric_write_targets_only_local_files() {
    let mut registry = SourceRegistry::new();
    set_android_sources(&mut registry);
    match lyric_write_candidates(&registry, "/m/a.mp3", Platform::Desktop, None) {
        Ok(c) => assert_eq!(c, vec!["/m/a.lrc".to_string(), "/m/a.vtt".to_string()]),
        Err(_) => panic!("local song refused"),
    }
    assert!(matches!(
        lyric_write_candidates(&registry, "content://media/1", Platform::Android, None),
        Err(LyricUpdateOutcome::NotWritable)
    ));
}

#[test]
fn search_inputs() {
    assert_eq!(search_query("  hello "), Some("hello".to_string()));
    assert_eq!(search_query("   "), None);
    assert_eq!(clamp_max_results(0), 1);
    assert_eq!(clamp_max_results(7), 7);
    assert_eq!(clamp_max_results(99), 20);
    assert_eq!(providers_for_search(&vec![], true, true, true), vec![DownloadSource::Youtube]);
    assert_eq!(
        providers_for_search(&vec![DownloadSource::Bilibili, DownloadSource::Import, DownloadSource::Netease], true, false, true),
        vec![DownloadSource::Bilibili]
    );
    assert!(providers_for_search(&vec![], false, true, true).is_empty());
    assert!(is_valid_bilibili_id("BV1xx"));
    assert!(!is_valid_bilibili_id("  "));
    assert!(!is_valid_bilibili_id("a/b"));
    assert_eq!(lyric_selection(" 123 "), Ok("123".to_string()));
    assert_eq!(lyric_selection(""), Err("缺少歌词选择".to_string()));
    assert_eq!(parse_lyric_track_id("42"), Ok(42));
    assert_eq!(parse_lyric_track_id("x"), Err("无效的歌词歌曲 ID".to_string()));
}

#[test]
fn bilibili_thumbnails_are_proxied() {
    assert_eq!(bilibili_thumbnail_url("http://h", "BV1"), "http://h/api/download/bilibili/thumbnail/BV1");
    let mut results = vec![hit(DownloadSource::Bilibili, "BV1"), hit(DownloadSource::Youtube, "y")];
    rewrite_bilibili_thumbnails(&mut results, "http://h");
    assert_eq!(results[0].thumbnail_url.as_deref(), Some("http://h/api/download/bilibili/thumbnail/BV1"));
    assert_eq!(results[1].thumbnail_url.as_deref(), Some("//cdn/x.jpg"));
}

#[test]
fn server_choices() {
    assert_eq!(ServerInfo { ip: "0.0.0.0".to_string(), port: 2080 }.url(), "0.0.0.0:2080");
    assert_eq!(
        choose_music_directory(Some("/cli"), Some("/cfg"), Some("/env"), Platform::Desktop, None, false, false),
        Ok("/cli".to_string())
    );
    assert_eq!(
        choose_music_directory(None, None, None, Platform::Android, None, false, false),
        Ok("/storage".to_string())
    );
    assert_eq!(
        choose_music_directory(None, None, None, Platform::Desktop, Some("/home/u/Music"), false, true),
        Ok("./music".to_string())
    );
    assert_eq!(
        choose_music_directory(None, None, None, Platform::Desktop, None, false, true),
        Err(NO_MUSIC_DIRECTORY.to_string())
    );
    assert_eq!(choose_device_name(None, Some("pc".to_string()), "abcdef12"), "pc");
    assert_eq!(choose_device_name(None, None, "abcdef12"), "Kaulan Player abcdef");
    assert_eq!(choose_device_name(Some("Den".to_string()), Some("pc".to_string()), "x"), "Den");
    assert_eq!(choose_download_root(None, "/music"), "/music");
    assert_eq!(choose_download_root(Some("/dl"), "/music"), "/dl");
    assert_eq!(choose_preview_root(None, "/tmp"), "/tmp/kaulan-preview");
}

#[test]
fn frontend_routing() {
    assert!(is_api_path("/api") && is_api_path("/api/music"));
    assert!(!is_api_path("/apix"));
    let root = parse_frontend_request("/").unwrap();
    assert_eq!(root.relative_path, "index.html");
    let asset = parse_frontend_request("//assets/app.js").unwrap();
    assert_eq!(asset.relative_path, "assets/app.js");
    assert!(asset.is_asset && asset.has_extension);
    assert!(parse_frontend_request("/../etc/passwd").is_none());
    let route = parse_frontend_request("/library/albums").unwrap();
    assert!(!route.is_asset && !route.has_extension);
    assert_eq!(static_frontend_file(&route, false, false, false, true), FrontendFile::AppIndex);
    assert_eq!(static_frontend_file(&asset, false, false, false, true), FrontendFile::NotFound);
    assert_eq!(static_frontend_file(&asset, false, false, true, true), FrontendFile::Requested);
    assert_eq!(static_frontend_file(&route, true, true, false, true), FrontendFile::DirectoryIndex);
    assert_eq!(static_frontend_file(&route, false, false, false, false), FrontendFile::NotFound);
    assert_eq!(
        frontend_dist_candidates(Some("/env"), Some("/cwd"), "/src"),
        vec!["/env".to_string(), "/cwd/frontend/dist".to_string(), "/cwd/../frontend/dist".to_string(), "/src/../frontend/dist".to_string()]
    );
}

#[test]
fn sources_claim_and_resolve() {
    let mut registry = SourceRegistry::new();
    assert!(source_claims(SourceKind::StdFs, "/m/a.mp3", Platform::Android));
    assert!(!source_claims(SourceKind::StdFs, "/storage/emulated/0/a.mp3", Platform::Android));
    assert!(source_claims(SourceKind::StdFs, "/storage/a.mp3", Platform::Desktop));
    assert!(resolve_path(&registry, "content://x", Platform::Android, None).is_err());
    set_file_reader(&mut registry).unwrap();
    let r = resolve_path(&registry, "content://x", Platform::Android, None).unwrap();
    assert_eq!(r.source_id, "compat-content");
    assert_eq!(r.path_kind, PathKind::AndroidMediaStoreContent);
    let fs = resolve_path(&registry, "/m/../m/a.mp3", Platform::Desktop, Some("/m/a.mp3")).unwrap();
    assert_eq!(fs.source_id, "std-fs");
    assert_eq!(fs.normalized_path, "/m/a.mp3");
    assert_eq!(fs.raw_path, "/m/../m/a.mp3");
    assert_eq!(normalize_path(&registry, "/x", Platform::Desktop, None), "/x");
    registry.register(SourceKind::StdFs);
    assert_eq!(resolve_path(&registry, "/y", Platform::Desktop, None).unwrap().source_id, "std-fs");
}

#[test]
fn source_capabilities() {
    let reader = SourceKind::CompatContent { file_reader: true, music_lister: false, lyric_reader: false };
    assert!(source_supports(reader, SourceOp::ReadStream));
    assert!(!source_supports(reader, SourceOp::ListMusic));
    assert!(!source_supports(reader, SourceOp::WriteFile));
    assert!(source_supports(SourceKind::StdFs, SourceOp::WriteFile));
    assert_eq!(lyric_candidate_paths("/m/a.flac"), vec!["/m/a.lrc".to_string(), "/m/a.vtt".to_string()]);
}

#[test]
fn scanned_files_follow_media_types() {
    let audio = vec!["audio".to_string()];
    let e = scan_entry("/m/Rock/a.FLAC", Some("/real/a.FLAC"), Some("Rock"), &audio).unwrap();
    assert_eq!(e.path, "/real/a.FLAC");
    assert_eq!(e.filename, "a.FLAC");
    assert_eq!(e.parent_dir.as_deref(), Some("Rock"));
    assert!(scan_entry("/m/v.mp4", None, None, &audio).is_none());
    let video = vec!["video".to_string()];
    assert!(scan_entry("/m/v.mp4", None, None, &video).is_some());
    assert!(scan_entry("/m/noext", None, None, &audio).is_none());
}

#[test]
fn content_stream_requests() {
    assert_eq!(validate_stream_request(None, false, Platform::Desktop), Ok(()));
    assert_eq!(validate_stream_request(Some("content"), true, Platform::Android), Ok(()));
    assert_eq!(
        validate_stream_request(Some("content"), false, Platform::Android),
        Err((403, "content stream is only available from localhost"))
    );
    assert_eq!(resolve_stream_url("content://m/1", Some("content"), true, Platform::Android), Some("content://m/1".to_string()));
    assert_eq!(resolve_stream_url("/m/a.mp3", Some("content"), true, Platform::Android), None);
    assert_eq!(resolve_stream_url("content://m/1", None, true, Platform::Android), None);
}

#[test]
fn provider_search_results() {
    let y = youtube_search_result("vid", "T".to_string(), "Chan".to_string(), Some("3:01".to_string()));
    assert_eq!(y.source, DownloadSource::Youtube);
    assert_eq!(y.thumbnail_url.as_deref(), Some("https://i.ytimg.com/vi/vid/hqdefault.jpg"));
    assert_eq!((y.id.as_str(), y.title.as_str(), y.artist.as_str()), ("vid", "T", "Chan"));
    assert!(y.can_preview && y.can_download && !y.requires_login);
    let n = netease_search_result(186016, "晴天".to_string(), &vec!["周杰伦".to_string(), "X".to_string()], 269_000, None, true);
    assert_eq!(n.id, "186016");
    assert_eq!(n.artist, "周杰伦, X");
    assert_eq!(n.duration.as_deref(), Some("4:29"));
    assert!(n.requires_login && n.thumbnail_url.is_none());
    let b = bilibili_search_result("BV1".to_string(), "<em class=\"keyword\">Hi</em>!", "up".to_string(), String::new(), "//i0.hdslb.com/a.jpg", false);
    assert_eq!(b.title, "Hi!");
    assert!(b.duration.is_none());
    assert_eq!(b.thumbnail_url.as_deref(), Some("https://i0.hdslb.com/a.jpg"));
    let b2 = bilibili_search_result("BV2".to_string(), "t", "up".to_string(), "3:00".to_string(), "https://x/a.jpg", true);
    assert_eq!(b2.duration.as_deref(), Some("3:00"));
    assert_eq!(b2.thumbnail_url.as_deref(), Some("https://x/a.jpg"));
}

#[test]
fn apply_lyric_replies() {
    let (code, reply) = apply_lyric_response(ApplyLyricOutcome::Saved("/m/a.lrc".to_string()));
    assert_eq!((code, reply.success, reply.message.as_str()), (200, true, "歌词已保存"));
    assert_eq!(reply.lyric_filename.as_deref(), Some("a.lrc"));
    let (code, reply) = apply_lyric_response(ApplyLyricOutcome::Failed("无效的歌词歌曲 ID".to_string()));
    assert_eq!((code, reply.message.as_str()), (400, "无效的歌词歌曲 ID"));
    let (code, reply) = apply_lyric_response(ApplyLyricOutcome::Failed("timeout".to_string()));
    assert_eq!((code, reply.message.as_str()), (502, "歌词下载失败: timeout"));
    assert_eq!(apply_lyric_response(ApplyLyricOutcome::SongMissing).0, 404);
    assert_eq!(apply_lyric_response(ApplyLyricOutcome::BlankSelection).1.message, "缺少歌词选择");
    assert_eq!(apply_lyric_response(ApplyLyricOutcome::NothingFound).1.message, "未获取到可用歌词");
    assert_eq!(apply_lyric_response(ApplyLyricOutcome::SongLoadFailed).0, 500);
    assert_eq!(applied_lyric_path("/m/Song.flac"), "/m/Song.lrc");
    assert_eq!(applied_lyric_path("/m/noext"), "/m/noext.lrc");
}
