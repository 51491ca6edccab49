use kaulan::cli::{parse_cli_options, CliOptions};
use kaulan::config::{generate_fallback_device_name, get_config_dir, save_media_types};
use kaulan::discovery::{timestamp_from_clock, DiscoveryMessage};
use kaulan::download::Platform;
use kaulan::filenames::{sanitize_filename, ImportRemoteItem};
use kaulan::http::{precache_lufs_reply, settle_batch_delete, DeleteAttempt, LufsLookup};
use kaulan::lyrics_api::{
    lyric_update_end, lyric_update_response, lyric_update_start, lyric_write, resolve_existing_lyric_path,
    ExistsCheck, LyricFileLookup, LyricUpdateOutcome, MusicLookup,
};
use kaulan::remote::{admit_import, lookup_target_from_parts, validate_remote_api_base, IpAddress, UrlParts};
use kaulan::sources::{PathKind, SourceKind, SourceRegistry};

fn args(v: &[&str]) -> Vec<String> {
    v.iter().map(|s| s.to_string()).collect()
}

fn parts(scheme: &str, host: Option<&str>, port: Option<u16>) -> Option<UrlParts> {
    Some(UrlParts {
        scheme: scheme.to_string(),
        host: host.map(|h| h.to_string()),
        port,
        serialized: format!("{scheme}://x/"),
    })
}

#[test]
fn timestamp_rounds_down_to_milliseconds() {
    assert_eq!(timestamp_from_clock(Ok((0, 0))), Some(0));
    assert_eq!(timestamp_from_clock(Ok((1_700_000_000, 999_999))), Some(1_700_000_000_000));
    assert_eq!(timestamp_from_clock(Ok((1_700_000_000, 1_000_000))), Some(1_700_000_000_001));
    assert_eq!(timestamp_from_clock(Ok((12, 345_678_901))), Some(12_345));
}

#[test]
fn timestamp_before_epoch_is_negative() {
    assert_eq!(timestamp_from_clock(Err((0, 1))), Some(-1));
    assert_eq!(timestamp_from_clock(Err((1, 0))), Some(-1000));
    assert_eq!(timestamp_from_clock(Err((1, 500_000_000))), Some(-1500));
    assert_eq!(timestamp_from_clock(Err((2, 1_500_000))), Some(-2002));
}

#[test]
fn timestamp_out_of_range_has_none() {
    assert_eq!(timestamp_from_clock(Ok((u64::MAX, 0))), None);
    assert_eq!(timestamp_from_clock(Err((u64::MAX, 0))), None);
    assert_eq!(timestamp_from_clock(Ok((8_000_000_000_000, 0))), Some(8_000_000_000_000_000));
}

#[test]
fn new_messages_carry_the_current_time() {
    let m = DiscoveryMessage::new_request();
    assert!(m.timestamp > 1_600_000_000_000);
}

#[test]
fn lookup_target_from_parts_uses_port_or_eighty() {
    assert_eq!(lookup_target_from_parts(parts("http", Some("10.0.0.2"), Some(3000))), Some("10.0.0.2:3000".to_string()));
    assert_eq!(lookup_target_from_parts(parts("ftp", Some("host"), None)), Some("host:80".to_string()));
    assert_eq!(lookup_target_from_parts(parts("http", None, Some(80))), None);
    assert_eq!(lookup_target_from_parts(None), None);
}

#[test]
fn usage_starts_with_usage_line_and_names_flags() {
    let usage = CliOptions::usage("prog");
    assert!(usage.starts_with("Usage: prog <run|update> [music_path] [options]\n"));
    assert!(usage.contains("--youtube-cookie-file <path>"));
    assert!(usage.contains("--netease-session-file <path>"));
    assert!(usage.contains("--bilibili-session-file <path>"));
}

#[test]
fn parse_errors_name_the_offending_argument() {
    assert_eq!(
        parse_cli_options(&args(&["--netease-session-file", "--x"])).unwrap_err(),
        "Missing value for --netease-session-file"
    );
    assert_eq!(parse_cli_options(&args(&["/m", "--what"])).unwrap_err(), "Unknown option: --what");
    assert_eq!(
        parse_cli_options(&args(&["/a", "/b"])).unwrap_err(),
        "Unexpected positional argument: /b. Only one music_path is supported."
    );
    let one = parse_cli_options(&args(&["/music"])).unwrap();
    assert_eq!(one.music_path.as_deref(), Some("/music"));
    assert!(parse_cli_options(&args(&[])).unwrap().music_path.is_none());
}

#[test]
fn fallback_name_drops_dashes_and_keeps_six() {
    assert_eq!(generate_fallback_device_name(""), "Kaulan Player");
    assert_eq!(generate_fallback_device_name("---"), "Kaulan Player");
    assert_eq!(generate_fallback_device_name("a-b-c-d-e-f-g-h"), "Kaulan Player abcdef");
}

#[test]
fn media_type_refusals_say_why() {
    let bad = save_media_types(None, &vec!["audio".to_string(), "image".to_string()]).err().unwrap();
    assert!(bad.contains("Invalid media type"));
    assert!(bad.contains("image"));
    let empty = save_media_types(None, &vec![]).err().unwrap();
    assert!(empty.contains("At least one media type must be selected"));
}

#[test]
fn batch_delete_outcomes_are_a_rearrangement_of_the_ids() {
    let ids = vec![5, 3, 5, 9];
    let attempts = vec![
        DeleteAttempt::FileRemovalFailed("busy".to_string()),
        DeleteAttempt::Deleted,
        DeleteAttempt::Deleted,
        DeleteAttempt::NotFound,
    ];
    let (status, reply) = settle_batch_delete(&ids, &attempts);
    assert_eq!(status, 200);
    assert!(!reply.success);
    assert_eq!(reply.deleted_ids, vec![3, 5]);
    let failed: Vec<i32> = reply.failed.iter().map(|f| f.id).collect();
    assert_eq!(failed, vec![5, 9]);
    let mut all: Vec<i32> = reply.deleted_ids.clone();
    all.extend(failed);
    all.sort();
    let mut want = ids.clone();
    want.sort();
    assert_eq!(all, want);
}

#[test]
fn refused_imports_are_bad_requests() {
    let items = vec![ImportRemoteItem { music_id: 1, filename: Some("a.mp3".to_string()) }];
    let lan = [IpAddress::V4([192, 168, 1, 10])];
    let blank = validate_remote_api_base("   ");
    assert_eq!(admit_import(&blank, Some(&lan), true, &items, "/dl", None).unwrap_err().0, 400);
    let ftp = validate_remote_api_base("ftp://192.168.1.10");
    assert_eq!(admit_import(&ftp, Some(&lan), true, &items, "/dl", None).unwrap_err().0, 400);
    let ok = validate_remote_api_base("http://192.168.1.10/api");
    assert!(ok.is_ok());
    let metadata = [IpAddress::V4([169, 254, 169, 254])];
    assert_eq!(admit_import(&ok, Some(&metadata), true, &items, "/dl", None).unwrap_err().0, 400);
    assert_eq!(admit_import(&ok, None, true, &items, "/dl", None).unwrap_err().0, 400);
    assert_eq!(admit_import(&ok, Some(&lan), true, &[], "/dl", None).unwrap_err().0, 400);
    let path_like = vec![ImportRemoteItem { music_id: 1, filename: Some("x/y.mp3".to_string()) }];
    let (code, msg) = admit_import(&ok, Some(&lan), true, &path_like, "/dl", None).unwrap_err();
    assert_eq!(code, 400);
    assert!(msg.contains("路径分隔符"));
    assert!(admit_import(&ok, Some(&lan), true, &items, "/dl", None).is_ok());
}

#[test]
fn lyric_update_steps() {
    let registry = SourceRegistry::new();
    let blank = lyric_update_start("  ", MusicLookup::Found("/m/a.mp3".to_string()), &registry, Platform::Desktop, None);
    assert!(matches!(blank, Err(LyricUpdateOutcome::BlankContent)));
    assert_eq!(lyric_update_response(LyricUpdateOutcome::BlankContent).0, 400);
    let missing = lyric_update_start("la", MusicLookup::Missing, &registry, Platform::Desktop, None);
    assert!(matches!(missing, Err(LyricUpdateOutcome::MusicMissing)));
    let content = lyric_update_start("la", MusicLookup::Found("content://x/1".to_string()), &registry, Platform::Desktop, None);
    assert!(matches!(content, Err(LyricUpdateOutcome::SourceUnresolved)));
    let candidates = lyric_update_start("la", MusicLookup::Found("/m/a.mp3".to_string()), &registry, Platform::Desktop, None).ok().unwrap();
    assert_eq!(candidates, vec!["/m/a.lrc".to_string(), "/m/a.vtt".to_string()]);
    let none = resolve_existing_lyric_path(&candidates, &vec![ExistsCheck::Absent, ExistsCheck::Absent]);
    assert!(matches!(none, LyricFileLookup::Missing));
    assert!(lyric_write(&none, "la").is_none());
    assert_eq!(lyric_update_response(lyric_update_end(none, false)).0, 404);
    let vtt = resolve_existing_lyric_path(&candidates, &vec![ExistsCheck::Absent, ExistsCheck::Exists]);
    assert_eq!(lyric_write(&vtt, "la"), Some(("/m/a.vtt".to_string(), "la".to_string())));
    let (code, reply) = lyric_update_response(lyric_update_end(vtt, true));
    assert_eq!(code, 200);
    assert_eq!(reply.lyric_filename.as_deref(), Some("a.vtt"));
}

#[test]
fn sanitized_names_are_safe() {
    for name in ["a:b/c", "...", "  .x.  ", "<>\u{7}|", "ok.mp3", ""] {
        let s = sanitize_filename(name);
        assert!(!s.is_empty());
        assert!(!s.starts_with('.') && !s.ends_with('.'));
        assert!(!s.chars().any(|c| "<>:\"/\\|?*".contains(c) || c.is_control()));
    }
    assert_eq!(sanitize_filename("<>\u{7}|"), "____");
    assert_eq!(sanitize_filename(""), "download");
}

#[test]
fn default_registry_resolution() {
    let registry = SourceRegistry::new();
    assert!(registry.resolve("content://media/1", Platform::Desktop, None).is_err());
    let r = registry.resolve("/music/a.mp3", Platform::Desktop, Some("/real/a.mp3")).ok().unwrap();
    assert_eq!(r.source_id, "std-fs");
    assert_eq!(r.raw_path, "/music/a.mp3");
    assert_eq!(r.normalized_path, "/real/a.mp3");
    assert_eq!(r.path_kind, PathKind::StdFs);
    let plain = registry.resolve("rel/a.mp3", Platform::Desktop, None).ok().unwrap();
    assert_eq!(plain.normalized_path, "rel/a.mp3");
    let mut with_lister = SourceRegistry::new();
    with_lister.register(SourceKind::CompatContent { file_reader: false, music_lister: true, lyric_reader: false });
    let c = with_lister.resolve("content://media/1", Platform::Desktop, None).ok().unwrap();
    assert_eq!(c.source_id, "compat-content");
    assert_eq!(c.normalized_path, "content://media/1");
}

#[test]
fn precache_lufs_replies() {
    let cached = precache_lufs_reply(LufsLookup::AlreadyCached);
    assert_eq!((cached.status, cached.success, cached.cached, cached.start_background), (200, true, Some(true), false));
    let queued = precache_lufs_reply(LufsLookup::NotCached);
    assert_eq!((queued.status, queued.success, queued.cached, queued.start_background), (202, true, Some(false), true));
    let missing = precache_lufs_reply(LufsLookup::NotFound);
    assert_eq!(missing.status, 404);
    assert_eq!(missing.error.as_deref(), Some("Music not found"));
    let failed = precache_lufs_reply(LufsLookup::DatabaseError("locked".to_string()));
    assert_eq!(failed.status, 500);
    assert_eq!(failed.error.as_deref(), Some("Database error: locked"));
    assert!(!failed.success);
}

#[test]
fn config_dir_precedence() {
    assert_eq!(get_config_dir(Some("/o"), Some("android"), Some("/data")), Some("/o".to_string()));
    assert_eq!(get_config_dir(None, Some("android"), Some("/data")), Some("/data".to_string()));
    assert_eq!(get_config_dir(None, Some("android"), None), None);
    if let Some(d) = get_config_dir(None, None, Some("/data")) {
        assert!(d.ends_with("kaulan"));
    }
}
