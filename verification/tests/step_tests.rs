use kaulan::download::{DownloadSource, Platform};
use kaulan::filenames::sanitize_filename;
use kaulan::http::{next_delete_action, settle_batch_delete, DeleteAction, DeleteAttempt, DeleteReport};
use kaulan::jobs::{failed_event, phase_event, queued_event, DownloadJobStore, JobPhase, JobSnapshot};
use kaulan::lyrics_api::{lyric_update_end, lyric_write, resolve_existing_lyric_path, ExistsCheck, LyricFileLookup, LyricUpdateOutcome};
use kaulan::sources::{resolve_path, set_file_reader, set_music_file_lister, SourceRegistry, PathKind};

fn run_delete(lookup: Result<Option<String>, String>, file: Result<(), String>, row: Result<(), String>) -> (DeleteAttempt, Vec<&'static str>) {
    let mut steps = Vec::new();
    let mut action = next_delete_action(DeleteReport::Start);
    loop {
        match action {
            DeleteAction::LookUp => {
                steps.push("lookup");
                action = next_delete_action(DeleteReport::Lookup(lookup.clone()));
            }
            DeleteAction::RemoveFile(p) => {
                steps.push("file");
                action = next_delete_action(DeleteReport::FileRemoval(p, file.clone()));
            }
            DeleteAction::RemoveRow(p) => {
                assert_eq!(p, "/m/a.mp3");
                steps.push("row");
                action = next_delete_action(DeleteReport::RowRemoval(row.clone()));
            }
            DeleteAction::Settle(a) => return (a, steps),
        }
    }
}

#[test]
fn deletion_removes_file_before_row() {
    let (a, steps) = run_delete(Ok(Some("/m/a.mp3".to_string())), Ok(()), Ok(()));
    assert!(matches!(a, DeleteAttempt::Deleted));
    assert_eq!(steps, vec!["lookup", "file", "row"]);
}

#[test]
fn failed_file_removal_keeps_the_row() {
    let (a, steps) = run_delete(Ok(Some("/m/a.mp3".to_string())), Err("unsupported".to_string()), Ok(()));
    assert!(matches!(a, DeleteAttempt::FileRemovalFailed(ref e) if e == "unsupported"));
    assert_eq!(steps, vec!["lookup", "file"]);
    let (status, reply) = settle_batch_delete(&vec![42], &vec![a]);
    assert_eq!(status, 400);
    assert!(reply.deleted_ids.is_empty());
    assert_eq!(reply.failed[0].id, 42);
}

#[test]
fn missing_song_is_settled_after_lookup() {
    let (a, steps) = run_delete(Ok(None), Ok(()), Ok(()));
    assert!(matches!(a, DeleteAttempt::NotFound));
    assert_eq!(steps, vec!["lookup"]);
    let (a, _) = run_delete(Ok(Some("/m/a.mp3".to_string())), Ok(()), Err("db".to_string()));
    assert!(matches!(a, DeleteAttempt::RowRemovalFailed(_)));
}

#[test]
fn lyric_update_overwrites_first_existing_sidecar() {
    let candidates = vec!["/m/a.lrc".to_string(), "/m/a.vtt".to_string()];
    let found = resolve_existing_lyric_path(&candidates, &vec![ExistsCheck::Absent, ExistsCheck::Exists]);
    assert!(matches!(found, LyricFileLookup::Found(ref p) if p == "/m/a.vtt"));
    let first = resolve_existing_lyric_path(&candidates, &vec![ExistsCheck::Exists]);
    assert!(matches!(first, LyricFileLookup::Found(ref p) if p == "/m/a.lrc"));
    assert_eq!(lyric_write(&first, "[00:01]new"), Some(("/m/a.lrc".to_string(), "[00:01]new".to_string())));
    let none = resolve_existing_lyric_path(&candidates, &vec![ExistsCheck::Absent, ExistsCheck::Absent]);
    assert!(matches!(none, LyricFileLookup::Missing));
    assert_eq!(lyric_write(&none, "x"), None);
    assert!(matches!(lyric_update_end(none, false), LyricUpdateOutcome::LyricsMissing));
    let failed = resolve_existing_lyric_path(&candidates, &vec![ExistsCheck::Failed]);
    assert!(matches!(failed, LyricFileLookup::Failed));
}

fn snapshot(id: &str, phase: JobPhase) -> JobSnapshot {
    JobSnapshot {
        job_id: id.to_string(),
        source: DownloadSource::Netease,
        state: "running".to_string(),
        phase,
        percent: None,
        message: "Queued download: Track".to_string(),
        detail: None,
        filename: None,
        warning: None,
        error: Some("stale".to_string()),
    }
}

#[test]
fn create_stores_the_snapshot_and_drops_expired_jobs() {
    let mut store = DownloadJobStore::new();
    store.create(snapshot("old", JobPhase::Failed), 0);
    store.create(snapshot("new", JobPhase::Queued), 120_000);
    assert!(store.get("old").is_none());
    let got = store.get("new").unwrap();
    assert_eq!(got.phase, JobPhase::Queued);
    assert_eq!(got.percent, None);
    assert_eq!(got.message, "Queued download: Track");
    assert!(got.error.is_none());
}

#[test]
fn job_events_carry_what_the_service_reports() {
    let q = queued_event("j", DownloadSource::Youtube, "Song");
    assert_eq!((q.job_id.as_str(), q.phase, q.percent, q.message.as_str()), ("j", JobPhase::Queued, None, "Queued download: Song"));
    assert!(q.detail.is_none());
    let f = failed_event("j", DownloadSource::Bilibili, "download failed");
    assert_eq!((f.phase, f.message.as_str(), f.detail.as_deref()), (JobPhase::Failed, "download failed", Some("download failed")));
    let p = phase_event("j", DownloadSource::Import, JobPhase::Downloading, "m".to_string(), Some("5%".to_string()));
    assert_eq!((p.source, p.phase, p.detail.as_deref()), (DownloadSource::Import, JobPhase::Downloading, Some("5%")));
}

#[test]
fn sanitized_names_have_no_edge_dots() {
    assert_eq!(sanitize_filename("a:b/c"), "a_b_c");
    assert_eq!(sanitize_filename("..hidden.."), "hidden");
    assert_eq!(sanitize_filename("..."), "download");
}

#[test]
fn lister_registration_serves_content_uris() {
    let mut registry = SourceRegistry::new();
    set_file_reader(&mut registry).unwrap();
    set_music_file_lister(&mut registry).unwrap();
    let r = resolve_path(&registry, "content://media/1", Platform::Android, None).unwrap();
    assert_eq!((r.source_id, r.path_kind, r.normalized_path.as_str()), ("compat-content", PathKind::AndroidMediaStoreContent, "content://media/1"));
    let fs = resolve_path(&registry, "/m/a.mp3", Platform::Desktop, None).unwrap();
    assert_eq!(fs.source_id, "std-fs");
}
