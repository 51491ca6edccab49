use kaulan::http::{
    audio_response_head, plan_after_failed_seek, settle_batch_delete, DeleteAttempt,
    batch_delete_outcome, BatchDelete, MUSIC_NOT_FOUND, check_launch_path, content_range, parse_range_header, parse_u64,
    plan_audio_stream, LaunchPathError, StreamPlan,
};

fn chars(s: &str) -> Vec<char> {
    s.chars().collect()
}

#[test]
fn parse_u64_reads_plain_and_plus_signed_numbers() {
    assert_eq!(parse_u64(&chars("0")), Some(0));
    assert_eq!(parse_u64(&chars("12345")), Some(12345));
    assert_eq!(parse_u64(&chars("+7")), Some(7));
    assert_eq!(parse_u64(&chars("18446744073709551615")), Some(u64::MAX));
}

#[test]
fn parse_u64_refuses_empty_signs_and_overflow() {
    assert_eq!(parse_u64(&chars("")), None);
    assert_eq!(parse_u64(&chars("+")), None);
    assert_eq!(parse_u64(&chars("-1")), None);
    assert_eq!(parse_u64(&chars("12a")), None);
    assert_eq!(parse_u64(&chars("18446744073709551616")), None);
}

#[test]
fn range_header_with_both_ends() {
    assert_eq!(parse_range_header("bytes=0-99", 1000), Some((0, 99)));
    assert_eq!(parse_range_header("bytes=500-999", 1000), Some((500, 999)));
}

#[test]
fn range_header_open_end_runs_to_last_byte() {
    assert_eq!(parse_range_header("bytes=100-", 1000), Some((100, 999)));
    assert_eq!(parse_range_header("bytes=0-", 0), None);
}

#[test]
fn range_header_out_of_file_or_reversed_is_ignored() {
    assert_eq!(parse_range_header("bytes=1000-1001", 1000), None);
    assert_eq!(parse_range_header("bytes=0-1000", 1000), None);
    assert_eq!(parse_range_header("bytes=50-10", 1000), None);
    assert_eq!(parse_range_header("items=0-10", 1000), None);
    assert_eq!(parse_range_header("bytes=10", 1000), None);
    assert_eq!(parse_range_header("bytes=-10", 1000), None);
}

#[test]
fn stream_plan_prefers_seek_offset() {
    let plan = plan_audio_stream(Some(1000), Some(200), Some("bytes=0-9"));
    assert_eq!(plan, StreamPlan::Seek { start: 200, end: 999, length: 800, total: 1000 });
}

#[test]
fn stream_plan_clamps_seek_past_end() {
    let plan = plan_audio_stream(Some(1000), Some(5000), None);
    assert_eq!(plan, StreamPlan::Seek { start: 999, end: 999, length: 1, total: 1000 });
    let empty = plan_audio_stream(Some(0), Some(10), None);
    assert_eq!(empty, StreamPlan::Seek { start: 0, end: 0, length: 0, total: 0 });
}

#[test]
fn stream_plan_uses_valid_range() {
    let plan = plan_audio_stream(Some(1000), None, Some("bytes=10-19"));
    assert_eq!(plan, StreamPlan::Range { start: 10, end: 19, length: 10, total: 1000 });
}

#[test]
fn stream_plan_falls_back_to_whole_file() {
    assert_eq!(
        plan_audio_stream(Some(1000), None, Some("bytes=2000-")),
        StreamPlan::Full { file_size: Some(1000) }
    );
    assert_eq!(plan_audio_stream(None, Some(10), Some("bytes=0-1")), StreamPlan::Full { file_size: None });
    assert_eq!(plan_audio_stream(Some(5), None, None), StreamPlan::Full { file_size: Some(5) });
}

#[test]
fn content_range_formats_header() {
    assert_eq!(content_range(0, 99, 1000), "bytes 0-99/1000");
    assert_eq!(content_range(5, 5, 6), "bytes 5-5/6");
}

#[test]
fn launch_path_accepts_supported_audio() {
    assert_eq!(check_launch_path("/sdcard/Music/song.MP3", false), Ok("song.MP3".to_string()));
    assert_eq!(check_launch_path("content://media/1", true), Ok("audio".to_string()));
}

#[test]
fn launch_path_errors() {
    assert_eq!(check_launch_path("content://media/1", false), Err(LaunchPathError::ContentUri));
    assert_eq!(check_launch_path("/tmp/noext", false), Err(LaunchPathError::NoExtension));
    assert_eq!(check_launch_path("/tmp/notes.txt", false), Err(LaunchPathError::UnsupportedType));
    assert_eq!(LaunchPathError::ContentUri.message(), "content:// URIs not supported");
    assert_eq!(LaunchPathError::NoExtension.message(), "File has no extension");
    assert_eq!(LaunchPathError::UnsupportedType.message(), "Unsupported file type");
}

#[test]
fn batch_delete_reports() {
    assert_eq!(batch_delete_outcome(0, 0, 0), (400, false, "No music IDs provided".to_string()));
    assert_eq!(batch_delete_outcome(3, 3, 0), (200, true, "Deleted 3 songs".to_string()));
    assert_eq!(batch_delete_outcome(3, 2, 1), (200, false, "Deleted 2 songs, 1 failed".to_string()));
    assert_eq!(batch_delete_outcome(2, 0, 2), (400, false, "Deleted 0 songs, 2 failed".to_string()));
}

#[test]
fn batch_delete_report_lists_ids_and_failures() {
    let mut batch = BatchDelete::new();
    batch.record_deleted(4);
    batch.record_failed(9, MUSIC_NOT_FOUND.to_string());
    batch.record_deleted(2);
    let (status, reply) = batch.finish(3);
    assert_eq!(status, 200);
    assert!(!reply.success);
    assert_eq!(reply.message, "Deleted 2 songs, 1 failed");
    assert_eq!(reply.deleted_ids, vec![4, 2]);
    assert_eq!(reply.failed.len(), 1);
    assert_eq!((reply.failed[0].id, reply.failed[0].reason.as_str()), (9, "Music not found"));
    let (status, reply) = BatchDelete::new().finish(0);
    assert_eq!((status, reply.success, reply.message.as_str()), (400, false, "No music IDs provided"));
    let mut all_failed = BatchDelete::new();
    all_failed.record_failed(1, "denied".to_string());
    assert_eq!(all_failed.finish(1).0, 400);
}

#[test]
fn audio_reply_head_for_range_seek_and_whole_file() {
    let range = plan_audio_stream(Some(200), None, Some("bytes=10-19"));
    let head = audio_response_head(range, "ranged.flac", None);
    assert_eq!(head.status, 206);
    assert_eq!(head.content_range.as_deref(), Some("bytes 10-19/200"));
    assert_eq!(head.content_length, Some(10));
    assert_eq!(head.content_type, "audio/flac");
    assert_eq!(head.accept_ranges, "bytes");
    assert_eq!(head.cache_control, "public, max-age=86400, must-revalidate");
    assert!(head.content_disposition.is_none());
    let seek = audio_response_head(plan_audio_stream(Some(200), Some(150), None), "a.mp3", None);
    assert_eq!((seek.status, seek.content_length), (206, Some(50)));
    assert_eq!(seek.content_range.as_deref(), Some("bytes 150-199/200"));
    let whole = audio_response_head(plan_audio_stream(Some(200), None, None), "a.mp3", Some("1"));
    assert_eq!((whole.status, whole.content_length), (200, Some(200)));
    assert!(whole.content_range.is_none());
    assert!(whole.content_disposition.is_some());
    let unknown = audio_response_head(plan_audio_stream(None, None, Some("bytes=0-1")), "a.mp3", None);
    assert_eq!((unknown.status, unknown.content_length), (200, None));
    assert_eq!(
        plan_after_failed_seek(Some(200), Some("bytes=10-19")),
        StreamPlan::Range { start: 10, end: 19, length: 10, total: 200 }
    );
    assert_eq!(plan_after_failed_seek(Some(200), None), StreamPlan::Full { file_size: Some(200) });
}

#[test]
fn batch_delete_settles_each_id_in_order() {
    let ids = vec![7, 8, 9];
    let attempts = vec![
        DeleteAttempt::Deleted,
        DeleteAttempt::NotFound,
        DeleteAttempt::FileRemovalFailed("busy".to_string()),
    ];
    let (status, reply) = settle_batch_delete(&ids, &attempts);
    assert_eq!((status, reply.success, reply.message.as_str()), (200, false, "Deleted 1 songs, 2 failed"));
    assert_eq!(reply.deleted_ids, vec![7]);
    let failed: Vec<(i32, &str)> = reply.failed.iter().map(|f| (f.id, f.reason.as_str())).collect();
    assert_eq!(failed, vec![(8, "Music not found"), (9, "busy")]);
}

#[test]
fn batch_delete_file_removal_failure_keeps_row_and_refuses() {
    let (status, reply) = settle_batch_delete(&vec![42], &vec![DeleteAttempt::FileRemovalFailed("unsupported".to_string())]);
    assert_eq!(status, 400);
    assert!(!reply.success);
    assert!(reply.deleted_ids.is_empty());
    assert_eq!(reply.failed[0].id, 42);
    let (status, reply) = settle_batch_delete(&vec![], &vec![]);
    assert_eq!((status, reply.message.as_str()), (400, "No music IDs provided"));
}
