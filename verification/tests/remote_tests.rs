use kaulan::remote::{audio_request_failure, imported_lyric_path, ALREADY_EXISTS};
use kaulan::filenames::ImportRemoteItem;
use kaulan::remote::{
    addresses_are_safe, check_import_request, choose_import_extension, import_job_summary,
    import_progress, imported_file_name, is_known_extension, lookup_target, remote_audio_url,
    remote_base_from_parts, remote_lyrics_url, ByteBudget, ImportJobEnd, ImportTally, IpAddress,
    ItemOutcome, UrlParts,
};

fn item(id: i32, name: Option<&str>) -> ImportRemoteItem {
    ImportRemoteItem { music_id: id, filename: name.map(|s| s.to_string()) }
}

#[test]
fn lookup_target_uses_explicit_or_default_port() {
    assert_eq!(lookup_target("http://192.168.1.2:3000/api"), Some("192.168.1.2:3000".to_string()));
    assert_eq!(lookup_target("http://example.com/api"), Some("example.com:80".to_string()));
    assert_eq!(lookup_target("https://example.com"), Some("example.com:443".to_string()));
    assert_eq!(lookup_target("not a url"), None);
}

#[test]
fn remote_base_from_parts_judges_scheme_and_host() {
    let ok = UrlParts {
        scheme: "http".to_string(),
        host: Some("h".to_string()),
        port: Some(80),
        serialized: "http://h/api//".to_string(),
    };
    assert_eq!(remote_base_from_parts(Some(ok)), Ok("http://h/api".to_string()));
    let ftp = UrlParts {
        scheme: "ftp".to_string(),
        host: Some("h".to_string()),
        port: None,
        serialized: "ftp://h/".to_string(),
    };
    assert_eq!(remote_base_from_parts(Some(ftp)), Err("远端服务器地址必须是 http 或 https".to_string()));
    let no_host = UrlParts {
        scheme: "http".to_string(),
        host: Some(String::new()),
        port: None,
        serialized: "http:///".to_string(),
    };
    assert_eq!(remote_base_from_parts(Some(no_host)), Err("远端服务器地址缺少主机名".to_string()));
    assert_eq!(remote_base_from_parts(None), Err("远端服务器地址无效".to_string()));
}

#[test]
fn resolved_addresses_must_all_be_allowed() {
    let public = IpAddress::V4([93, 184, 216, 34]);
    let metadata = IpAddress::V4([169, 254, 169, 254]);
    let loopback = IpAddress::V4([127, 0, 0, 1]);
    assert!(addresses_are_safe(&[public], true));
    assert!(!addresses_are_safe(&[public, metadata], true));
    assert!(!addresses_are_safe(&[loopback], true));
    assert!(addresses_are_safe(&[loopback], false));
    assert!(!addresses_are_safe(&[], true));
}

#[test]
fn byte_budget_refuses_past_cap() {
    let mut budget = ByteBudget::new(10);
    assert!(budget.add_chunk(4).is_ok());
    assert!(budget.add_chunk(6).is_ok());
    assert_eq!(budget.total, 10);
    let err = budget.add_chunk(1).unwrap_err();
    assert_eq!(err, "文件过大（已读取 11 字节，上限 10）");
    assert_eq!(budget.total, 11);
}

#[test]
fn byte_budget_saturates() {
    let mut budget = ByteBudget::new(usize::MAX);
    budget.total = u64::MAX - 1;
    assert!(budget.add_chunk(5).is_ok());
    assert_eq!(budget.total, u64::MAX);
}

#[test]
fn import_extension_prefers_known_supplied_one() {
    assert!(is_known_extension("mp3"));
    assert!(!is_known_extension(""));
    assert!(!is_known_extension("exe"));
    assert_eq!(choose_import_extension("flac", "audio/mpeg"), Ok("flac".to_string()));
    assert_eq!(choose_import_extension("", "audio/mpeg"), Ok("mp3".to_string()));
    assert_eq!(
        choose_import_extension("bin", "text/html"),
        Err("远端返回了非音频内容类型，无法导入: text/html".to_string())
    );
}

#[test]
fn remote_urls_and_names() {
    assert_eq!(remote_audio_url("http://h:3000/api", 42), "http://h:3000/api/music/id/42");
    assert_eq!(remote_lyrics_url("http://h:3000/api", -1), "http://h:3000/api/lyrics/id/-1");
    assert_eq!(imported_file_name("Song", "mp3"), "Song.mp3");
    assert_eq!(import_job_summary(3), "从远端导入 3 首歌曲");
}

#[test]
fn import_progress_reports_step_and_percent() {
    let (msg, pct) = import_progress(0, 4, "A");
    assert_eq!(msg, "正在导入 1/4: A");
    assert_eq!(pct, "0%");
    let (msg, pct) = import_progress(3, 4, "B");
    assert_eq!(msg, "正在导入 4/4: B");
    assert_eq!(pct, "75%");
    let (_, pct) = import_progress(2, 0, "C");
    assert_eq!(pct, "200%");
}

#[test]
fn import_tally_completes_when_something_was_imported() {
    let mut tally = ImportTally::new();
    tally.record("a", ItemOutcome::Imported);
    tally.record("b", ItemOutcome::Skipped("exists".to_string()));
    assert_eq!(tally.imported, 1);
    assert_eq!(tally.skipped, 1);
    match tally.finish() {
        ImportJobEnd::Completed(w) => assert_eq!(w, Some("b: exists".to_string())),
        ImportJobEnd::Failed(_) => panic!("expected completion"),
    }
}

#[test]
fn import_tally_only_skips_completes_with_note() {
    let mut tally = ImportTally::new();
    tally.skipped = 2;
    match tally.finish() {
        ImportJobEnd::Completed(w) => assert_eq!(w, Some("所选歌曲已全部存在".to_string())),
        ImportJobEnd::Failed(_) => panic!("expected completion"),
    }
}

#[test]
fn import_tally_fails_when_nothing_imported() {
    let empty = ImportTally::new();
    match empty.finish() {
        ImportJobEnd::Failed(m) => assert_eq!(m, "未导入任何歌曲"),
        ImportJobEnd::Completed(_) => panic!("expected failure"),
    }
    let mut tally = ImportTally::new();
    tally.record("x", ItemOutcome::Failed("404".to_string()));
    tally.record_refresh_failure("db");
    assert_eq!(tally.failed, 1);
    match tally.finish() {
        ImportJobEnd::Failed(m) => assert_eq!(m, "x: 404；刷新曲库失败: db"),
        ImportJobEnd::Completed(_) => panic!("expected failure"),
    }
}

#[test]
fn import_request_checks_in_order() {
    assert_eq!(check_import_request(&[], "/dl", None), Err("未选择要导入的歌曲".to_string()));
    let bad = vec![item(1, Some(" a/b.mp3 "))];
    assert_eq!(
        check_import_request(&bad, "/dl", None),
        Err("a/b.mp3: 文件名不能包含路径分隔符".to_string())
    );
    let good = vec![item(1, Some("a.mp3")), item(2, None)];
    assert_eq!(
        check_import_request(&good, "/dl", Some("../x")),
        Err("目标目录不能包含上级路径".to_string())
    );
    assert_eq!(check_import_request(&good, "/dl", Some(" sub ")), Ok("/dl/sub".to_string()));
    assert_eq!(check_import_request(&good, "/dl", None), Ok("/dl".to_string()));
}

#[test]
fn imported_lyrics_kept_only_from_good_replies() {
    assert_eq!(imported_lyric_path(200, "[00:01]hi", "/dl/a.mp3"), Some("/dl/a.lrc".to_string()));
    assert_eq!(imported_lyric_path(200, "\u{feff}WEBVTT\n", "/dl/a.mp3"), Some("/dl/a.vtt".to_string()));
    assert_eq!(imported_lyric_path(404, "[00:01]hi", "/dl/a.mp3"), None);
    assert_eq!(imported_lyric_path(500, "x", "/dl/a.mp3"), None);
    assert_eq!(imported_lyric_path(200, "  \n", "/dl/a.mp3"), None);
    assert_eq!(audio_request_failure("timeout"), "请求远端音频失败: timeout");
    assert_eq!(ALREADY_EXISTS, "已存在，跳过");
}

#[test]
fn loopback_exemption_changes_only_loopback() {
    let cases = [
        IpAddress::V4([127, 0, 0, 1]),
        IpAddress::V4([169, 254, 1, 1]),
        IpAddress::V4([0, 0, 0, 0]),
        IpAddress::V4([10, 0, 0, 1]),
        IpAddress::V6([0, 0, 0, 0, 0, 0, 0, 1]),
        IpAddress::V6([0xfe80, 0, 0, 0, 0, 0, 0, 1]),
        IpAddress::V6([0, 0, 0, 0, 0, 0xffff, 0x7f00, 1]),
        IpAddress::V6([0, 0, 0, 0, 0, 0xffff, 0xa9fe, 0xa9fe]),
    ];
    let loopbacks = [true, false, false, false, true, false, true, false];
    for (ip, is_loop) in cases.iter().zip(loopbacks.iter()) {
        let strict = kaulan::remote::is_blocked_ip(*ip, true);
        let lenient = kaulan::remote::is_blocked_ip(*ip, false);
        assert!(!lenient || strict);
        if strict && !lenient {
            assert!(*is_loop);
        }
        assert_eq!(strict, *is_loop || lenient);
    }
}
