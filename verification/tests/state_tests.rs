use kaulan::database::{database_dir_to_create, get_database_path};
use kaulan::download::{DownloadSource, Platform};
use kaulan::jobs::{queued_message, terminal_phase, DownloadJobStore, JobPhase, JobSnapshot, DOWNLOAD_JOB_TTL_MS};
use kaulan::launch::{set_pending_launch_file, set_pending_launch_file_with_name, take_pending_launch, LaunchBroker};
use kaulan::library::{
    check_music_directory, entries_to_delete, library_update_response, music_directory_saved_message,
    playlist_members, startup_scan_needed, CollectionItems, LibraryIndex, LibraryUpdateOutcome, ALL_MUSIC,
};
use kaulan::media::PreferredAudioOutput;
use kaulan::transcode::{
    export_output_file_name, ffmpeg_call, is_unsupported_media_error, select_channel_layout,
    select_sample_fmt, select_sample_rate, AudioTranscodeTarget, LayoutChoice, SAMPLE_FMT_FLTP, SAMPLE_FMT_S16,
};
use kaulan::tree::{download_tree_node, name_le, relative_path_of, sort_by_name, upload_tree_node};
use kaulan::types::DirectoryNode;
use kaulan::upload::{
    check_upload_target, create_dir_failure, target_path_decision, upload_refusal_response, upload_target_dir,
    FileDecision, UploadRefusal, UploadSession,
};

fn snapshot(id: &str, phase: JobPhase, error: Option<&str>) -> JobSnapshot {
    JobSnapshot {
        job_id: id.to_string(),
        source: DownloadSource::Youtube,
        state: "running".to_string(),
        phase,
        percent: None,
        message: "m".to_string(),
        detail: None,
        filename: None,
        warning: None,
        error: error.map(|e| e.to_string()),
    }
}

fn node(name: &str) -> DirectoryNode {
    DirectoryNode { name: name.to_string(), path: name.to_string(), node_type: "directory".to_string(), children: None }
}

fn strings(v: &[&str]) -> Vec<String> {
    v.iter().map(|s| s.to_string()).collect()
}

#[test]
fn library_index_adds_each_path_once() {
    let mut index = LibraryIndex::from_paths(&strings(&["/m/a.mp3", "/m/a.mp3", "/m/b.mp3"]));
    assert!(index.contains("/m/a.mp3"));
    assert!(!index.add_if_new("/m/b.mp3"));
    assert!(index.add_if_new("/m/c.mp3"));
    assert!(index.contains("/m/c.mp3"));
    index.remove("/m/a.mp3");
    assert!(!index.contains("/m/a.mp3"));
    assert!(index.contains("/m/b.mp3"));
}

#[test]
fn rescan_deletes_only_confirmed_missing_files() {
    assert_eq!(entries_to_delete(&vec![Some(true), Some(false), None, Some(false)]), vec![1, 3]);
    assert!(entries_to_delete(&vec![]).is_empty());
}

#[test]
fn playlists_are_folders_plus_all_music() {
    let dirs = vec![Some("Rock".to_string()), None, Some("Jazz".to_string()), Some("Rock".to_string())];
    assert_eq!(playlist_members(&dirs, "Rock"), vec![0, 3]);
    assert_eq!(playlist_members(&dirs, ALL_MUSIC), vec![0, 1, 2, 3]);
    assert!(playlist_members(&dirs, "Pop").is_empty());
}

#[test]
fn collections_hold_library_songs_once() {
    let mut c = CollectionItems::new();
    assert_eq!(c.add_songs(&vec![1, 2, 2, 9], &vec![true, true, true, false]), 2);
    assert!(c.contains(1) && c.contains(2) && !c.contains(9));
    assert_eq!(c.add_songs(&vec![1], &vec![true]), 0);
    assert_eq!(c.remove_songs(&vec![2, 5]), 1);
    assert!(!c.contains(2) && c.contains(1));
}

#[test]
fn music_directory_checks_and_messages() {
    assert_eq!(check_music_directory("content://tree/x", false, false), Ok(()));
    assert_eq!(check_music_directory("/nope", false, false), Err("Directory does not exist: /nope".to_string()));
    assert_eq!(check_music_directory("/f", true, false), Err("Path is not a directory: /f".to_string()));
    assert_eq!(check_music_directory("/d", true, true), Ok(()));
    assert_eq!(music_directory_saved_message("/d"), "Music directory will be set to '/d' on next restart.");
    assert_eq!(
        music_directory_saved_message("content://x"),
        "Music directory will be set to '[Android Storage Directory]' on next restart."
    );
}

#[test]
fn library_update_replies() {
    assert_eq!(
        library_update_response(LibraryUpdateOutcome::StartupSkipped),
        (200, true, "Startup scan skipped (already completed)".to_string())
    );
    assert_eq!(
        library_update_response(LibraryUpdateOutcome::UpdateFailed("disk".to_string())),
        (500, false, "Database update failed: disk".to_string())
    );
    assert_eq!(
        library_update_response(LibraryUpdateOutcome::StartupFailed("x".to_string())),
        (500, false, "Startup scan failed: x".to_string())
    );
    assert!(startup_scan_needed(Some(true), false));
    assert!(!startup_scan_needed(Some(true), true));
    assert!(!startup_scan_needed(None, false));
}

#[test]
fn upload_accepts_first_supported_file() {
    let mut s = UploadSession::new();
    s.set_target_path("Albums".to_string());
    match s.begin_file(Some("song.MP3"), "/music") {
        FileDecision::Write(p) => assert_eq!(p, "/music/Albums/song.MP3"),
        _ => panic!("expected write"),
    }
    s.file_written("song.MP3".to_string(), true);
    assert!(matches!(s.begin_file(Some("other.mp3"), "/music"), FileDecision::Skip));
    assert!(s.needs_rescan());
    let (status, reply) = s.finish();
    assert_eq!(status, 200);
    assert!(reply.success);
    assert_eq!(reply.message, "Uploaded 1 file(s)");
    assert_eq!(reply.uploaded, vec!["song.MP3".to_string()]);
    assert!(reply.failed.is_empty());
}

#[test]
fn upload_rejects_unsupported_and_empty() {
    let mut s = UploadSession::new();
    assert!(matches!(s.begin_file(Some("notes.txt"), "/music"), FileDecision::Reject));
    assert!(!s.needs_rescan());
    let (status, reply) = s.finish();
    assert_eq!((status, reply.success, reply.message.as_str()), (200, false, "Upload failed"));
    assert_eq!(reply.failed, vec!["notes.txt".to_string()]);
    let (status, reply) = UploadSession::new().finish();
    assert_eq!((status, reply.success, reply.message.as_str()), (400, false, "No files provided"));
    let mut s = UploadSession::new();
    assert!(matches!(s.begin_file(None, "/music"), FileDecision::Reject));
    assert_eq!(s.failed.as_deref(), Some("unknown"));
}

#[test]
fn upload_target_checks() {
    assert!(check_upload_target("/music", Some("/music/a"), "a"));
    assert!(!check_upload_target("/music", Some("/etc"), "../etc"));
    assert!(!check_upload_target("/music", None, "../x"));
    assert!(check_upload_target("/music", None, "new"));
    assert_eq!(upload_target_dir("/music", "a/b"), "/music/a/b");
    assert_eq!(create_dir_failure("denied"), "Failed to create target directory: denied");
}

#[test]
fn jobs_record_progress_and_expire() {
    let mut store = DownloadJobStore::new();
    store.create(snapshot("j1", JobPhase::Queued, None), 0);
    store.apply_event(snapshot("j1", JobPhase::Downloading, Some("old error")), 10);
    let got = store.get("j1").unwrap();
    assert_eq!(got.phase, JobPhase::Downloading);
    assert!(got.error.is_none());
    store.apply_event(snapshot("j2", JobPhase::Failed, Some("boom")), 20);
    assert_eq!(store.get("j2").unwrap().error.as_deref(), Some("boom"));
    assert_eq!(store.active_jobs().len(), 1);
    store.mark_completed("j1", Some("a.mp3".to_string()), None, 30);
    let done = store.get("j1").unwrap();
    assert_eq!(done.state, "completed");
    assert_eq!(done.percent, Some(100));
    assert_eq!(done.message, "Download complete");
    assert!(store.active_jobs().is_empty());
    store.mark_warning("j1", Some("w".to_string()));
    assert_eq!(store.get("j1").unwrap().warning.as_deref(), Some("w"));
    store.cleanup(30 + DOWNLOAD_JOB_TTL_MS - 1);
    assert!(store.get("j1").is_some());
    store.cleanup(30 + DOWNLOAD_JOB_TTL_MS);
    assert!(store.get("j1").is_none());
    assert!(store.get("j2").is_none());
}

#[test]
fn running_jobs_never_expire() {
    let mut store = DownloadJobStore::new();
    store.create(snapshot("r", JobPhase::Converting, None), 0);
    store.cleanup_with_ttl(u64::MAX, 1);
    assert!(store.get("r").is_some());
    assert!(terminal_phase(JobPhase::Completed) && terminal_phase(JobPhase::Failed));
    assert!(!terminal_phase(JobPhase::Queued));
    assert_eq!(queued_message("Song"), "Queued download: Song");
}

#[test]
fn launch_is_handed_over_once() {
    let mut broker = LaunchBroker::new();
    assert_eq!(broker.announcements(), 0);
    set_pending_launch_file_with_name(&mut broker, "/a.mp3".to_string(), Some("A".to_string()));
    assert_eq!(broker.announcements(), 1);
    assert_eq!(take_pending_launch(&mut broker), (Some("/a.mp3".to_string()), Some("A".to_string())));
    assert_eq!(take_pending_launch(&mut broker), (None, None));
    set_pending_launch_file(&mut broker, "/b.mp3".to_string());
    assert_eq!(broker.take_display_name(), None);
    assert_eq!(broker.take_path(), Some("/b.mp3".to_string()));
    assert_eq!(broker.announcements(), 2);
}

#[test]
fn transcoding_choices() {
    assert_eq!(select_sample_rate(None, 48000), 48000);
    assert_eq!(select_sample_rate(None, 0), 44100);
    assert_eq!(select_sample_rate(Some(&[44100, 48000]), 48000), 48000);
    assert_eq!(select_sample_rate(Some(&[32000, 48000]), 96000), 32000);
    assert_eq!(select_sample_rate(Some(&[]), 96000), 44100);
    assert_eq!(select_sample_fmt(Some(&[SAMPLE_FMT_S16, SAMPLE_FMT_FLTP]), AudioTranscodeTarget::Mp3, 3), Ok(SAMPLE_FMT_FLTP));
    assert_eq!(select_sample_fmt(Some(&[7, SAMPLE_FMT_S16]), AudioTranscodeTarget::Flac, 2), Ok(SAMPLE_FMT_S16));
    assert_eq!(select_sample_fmt(Some(&[7, 2]), AudioTranscodeTarget::Flac, 2), Ok(2));
    assert_eq!(select_sample_fmt(Some(&[5]), AudioTranscodeTarget::Mp3, 2), Ok(5));
    assert_eq!(
        select_sample_fmt(None, AudioTranscodeTarget::Mp3, 2),
        Err("MP3 encoder did not expose supported sample formats".to_string())
    );
    assert_eq!(
        select_sample_fmt(Some(&[]), AudioTranscodeTarget::Flac, 2),
        Err("FLAC encoder did not expose any usable sample format".to_string())
    );
    assert_eq!(select_channel_layout(Some(&[1, 2]), 2, true), LayoutChoice::Supported(1));
    assert_eq!(select_channel_layout(Some(&[1, 2]), 6, true), LayoutChoice::Supported(0));
    assert_eq!(select_channel_layout(None, 2, true), LayoutChoice::Input);
    assert_eq!(select_channel_layout(Some(&[]), 2, false), LayoutChoice::DefaultStereo);
}

#[test]
fn transcode_helpers() {
    assert_eq!(export_output_file_name("a", &PreferredAudioOutput::TranscodeFlac), "a.flac");
    assert_eq!(export_output_file_name("a", &PreferredAudioOutput::Remux { extension: "m4a" }), "a.m4a");
    assert_eq!(ffmpeg_call(0, "open", "x"), Ok(()));
    assert_eq!(ffmpeg_call(-2, "open input", "No such file or directory"), Err("open input: No such file or directory".to_string()));
    assert!(is_unsupported_media_error("open input: Invalid data found when processing input"));
    assert!(!is_unsupported_media_error("Permission denied"));
}

#[test]
fn directory_nodes_sorted_by_name() {
    assert!(name_le(&['a'], &['a', 'b']));
    assert!(!name_le(&['b'], &['a', 'z']));
    assert!(name_le(&['B'], &['a']));
    let sorted = sort_by_name(vec![node("b"), node("a"), node("C"), node("a")]);
    let names: Vec<&str> = sorted.iter().map(|n| n.name.as_str()).collect();
    assert_eq!(names, vec!["C", "a", "a", "b"]);
    assert_eq!(relative_path_of("/music/a/b", "/music"), "a/b");
    assert_eq!(relative_path_of("/music", "/music"), "");
    assert_eq!(relative_path_of("/other", "/music"), "");
    let n = download_tree_node("/music/x", "/music", vec![node("z"), node("y")]);
    assert_eq!(n.name, "x");
    assert_eq!(n.path, "x");
    assert_eq!(n.node_type, "directory");
    let kids: Vec<String> = n.children.unwrap().into_iter().map(|c| c.name).collect();
    assert_eq!(kids, vec!["y".to_string(), "z".to_string()]);
    let root = download_tree_node("/", "/", vec![]);
    assert_eq!(root.name, "根目录");
    assert!(root.children.is_none());
    assert!(upload_tree_node("/", "/", vec![]).is_none());
    assert_eq!(upload_tree_node("/music", "/music", vec![]).unwrap().name, "music");
}

#[test]
fn database_location() {
    assert_eq!(get_database_path("/music", Platform::Desktop, Some("/data")), "/music/music.db");
    assert_eq!(get_database_path("/music", Platform::Android, Some("/data")), "/data/music.db");
    assert_eq!(get_database_path("/music", Platform::Android, None), "/music/music.db");
    assert_eq!(database_dir_to_create("/music", Platform::Android, Some("/data")), Some("/data".to_string()));
    assert_eq!(database_dir_to_create("/music", Platform::Android, Some("/music")), None);
    assert_eq!(database_dir_to_create("/music", Platform::Desktop, Some("/data")), None);
}

#[test]
fn collections_keep_insertion_order() {
    let mut c = CollectionItems::new();
    c.add_songs(&vec![5, 3], &vec![true, true]);
    c.add_songs(&vec![3, 8, 1], &vec![true, true, false]);
    assert_eq!(c.music_ids(), vec![5, 3, 8]);
    assert_eq!(c.remove_songs(&vec![3, 3]), 1);
    assert_eq!(c.music_ids(), vec![5, 8]);
}

#[test]
fn upload_refusals_reply_with_empty_lists() {
    let (status, reply) = upload_refusal_response(UploadRefusal::InvalidTarget);
    assert_eq!((status, reply.success, reply.message.as_str()), (400, false, "Invalid target path"));
    assert!(reply.uploaded.is_empty() && reply.failed.is_empty());
    let (status, reply) = upload_refusal_response(UploadRefusal::UnsupportedTarget);
    assert_eq!((status, reply.message.as_str()), (500, "Unsupported upload target"));
    let (status, reply) = upload_refusal_response(UploadRefusal::DirectoryUncreatable("denied".to_string()));
    assert_eq!((status, reply.message.as_str()), (500, "Failed to create target directory: denied"));
    assert!(matches!(
        target_path_decision("/music", Some("/etc"), "../../../etc", true, true),
        Err(UploadRefusal::InvalidTarget)
    ));
    assert!(matches!(target_path_decision("/music", None, "new", false, true), Ok(true)));
    assert!(matches!(target_path_decision("/music", Some("/music/a"), "a", true, true), Ok(false)));
    assert!(matches!(target_path_decision("/music", None, "x", false, false), Err(UploadRefusal::UnsupportedTarget)));
}
