use kaulan::download::Platform;
use kaulan::filenames::ImportRemoteItem;
use kaulan::http::check_path_request;
use kaulan::lyrics_api::{lyric_update_end, lyric_update_start, LyricFileLookup, LyricUpdateOutcome, MusicLookup};
use kaulan::remote::{admit_import, import_refused_response, IpAddress};
use kaulan::server::{check_frontend_request, FRONTEND_MISSING};
use kaulan::sources::{set_android_sources, SourceRegistry};

fn item(id: i32, name: Option<&str>) -> ImportRemoteItem {
    ImportRemoteItem { music_id: id, filename: name.map(|s| s.to_string()) }
}

#[test]
fn frontend_api_paths_and_missing_build_are_not_found() {
    assert_eq!(check_frontend_request("/api/not-a-real-route", true), Some((404, "")));
    assert_eq!(check_frontend_request("/api", false), Some((404, "")));
    assert_eq!(check_frontend_request("/library", false), Some((404, FRONTEND_MISSING)));
    assert!(FRONTEND_MISSING.contains("Frontend build not found"));
    assert_eq!(check_frontend_request("/library", true), None);
}

#[test]
fn path_requests_need_a_local_peer_and_an_audio_path() {
    let local = Some(IpAddress::V4([127, 0, 0, 1]));
    let lan = Some(IpAddress::V4([192, 168, 1, 5]));
    assert_eq!(check_path_request(lan, "/m/a.mp3", false), Err((403, "Local access only")));
    assert_eq!(check_path_request(None, "/m/a.mp3", false), Err((403, "Local access only")));
    assert_eq!(check_path_request(local, "/tmp/secrets.txt", false), Err((400, "Unsupported file type")));
    assert_eq!(check_path_request(local, "/tmp/noext", false), Err((400, "File has no extension")));
    assert_eq!(check_path_request(local, "content://x", false), Err((400, "content:// URIs not supported")));
    assert_eq!(check_path_request(local, "/m/a.mp3", false), Ok("a.mp3".to_string()));
}

#[test]
fn import_refusals_come_before_any_job() {
    let public = [IpAddress::V4([93, 184, 216, 34])];
    let metadata = [IpAddress::V4([169, 254, 169, 254])];
    let good = vec![item(1, Some("a.mp3"))];
    let base: Result<String, String> = Ok("http://h/api".to_string());
    assert_eq!(
        admit_import(&Err("远端服务器地址必须是 http 或 https".to_string()), Some(&public), true, &good, "/dl", None),
        Err((400, "远端服务器地址必须是 http 或 https".to_string()))
    );
    assert_eq!(admit_import(&base, Some(&metadata), true, &good, "/dl", None), Err((400, "不允许的远端服务器地址".to_string())));
    assert_eq!(admit_import(&base, None, true, &good, "/dl", None), Err((400, "不允许的远端服务器地址".to_string())));
    assert_eq!(admit_import(&base, Some(&public), true, &[], "/dl", None), Err((400, "未选择要导入的歌曲".to_string())));
    let bad = vec![item(1, Some("a/b.mp3"))];
    match admit_import(&base, Some(&public), true, &bad, "/dl", None) {
        Err((code, m)) => {
            assert_eq!(code, 400);
            assert!(m.contains("路径分隔符"));
        }
        Ok(_) => panic!("path-like name admitted"),
    }
    assert_eq!(
        admit_import(&base, Some(&public), true, &good, "content://tree", None),
        Err((500, "本机下载目录不可写".to_string()))
    );
    assert_eq!(
        admit_import(&base, Some(&public), true, &good, "/dl", Some("x")),
        Ok(("http://h/api".to_string(), "/dl/x".to_string()))
    );
    let refused = import_refused_response("no".to_string());
    assert!(!refused.success && refused.job_id.is_none());
}

#[test]
fn lyric_update_checks_in_order() {
    let mut registry = SourceRegistry::new();
    set_android_sources(&mut registry);
    assert!(matches!(
        lyric_update_start("  ", MusicLookup::Missing, &registry, Platform::Desktop, None),
        Err(LyricUpdateOutcome::BlankContent)
    ));
    assert!(matches!(
        lyric_update_start("x", MusicLookup::Missing, &registry, Platform::Desktop, None),
        Err(LyricUpdateOutcome::MusicMissing)
    ));
    assert!(matches!(
        lyric_update_start("x", MusicLookup::Failed, &registry, Platform::Desktop, None),
        Err(LyricUpdateOutcome::DatabaseError)
    ));
    assert!(matches!(
        lyric_update_start("x", MusicLookup::Found("content://m/1".to_string()), &registry, Platform::Android, None),
        Err(LyricUpdateOutcome::NotWritable)
    ));
    match lyric_update_start("x", MusicLookup::Found("/m/a.mp3".to_string()), &registry, Platform::Desktop, None) {
        Ok(c) => assert_eq!(c, vec!["/m/a.lrc".to_string(), "/m/a.vtt".to_string()]),
        Err(_) => panic!("local song refused"),
    }
    assert!(matches!(lyric_update_end(LyricFileLookup::Missing, false), LyricUpdateOutcome::LyricsMissing));
    assert!(matches!(lyric_update_end(LyricFileLookup::Failed, false), LyricUpdateOutcome::LyricLookupFailed));
    assert!(matches!(lyric_update_end(LyricFileLookup::Found("/m/a.lrc".to_string()), false), LyricUpdateOutcome::WriteFailed));
    match lyric_update_end(LyricFileLookup::Found("/m/a.lrc".to_string()), true) {
        LyricUpdateOutcome::Updated(p) => assert_eq!(p, "/m/a.lrc"),
        _ => panic!("expected update"),
    }
}
