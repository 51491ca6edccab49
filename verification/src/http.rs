//! What the music endpoints decide about an HTTP exchange: decimal numbers and
//! `Range` headers, the streaming plan for an audio response, which launch paths
//! may be streamed, and how a batch delete is reported.
use vstd::prelude::*;
use crate::lyrics::{find_char, index_of, lemma_index_of, slice_chars};
use crate::filenames::{disposition_value, download_disposition, download_requested, is_download_requested, opt_view, percent_encoded};
use crate::media::{audio_content_type, audio_mime, is_listed, listed, lower_ascii, SUPPORTED_EXTENSIONS};
use crate::remote::{opt_string_view, IpAddress};
use crate::types::{is_localhost_request, loopback, LOCAL_ACCESS_ONLY};
use crate::paths::{extension, extension_of_path, file_name, file_name_chars};
use crate::text::{ascii_lower_seq, chars_of, chars_start_with, decimal, has_prefix, push_decimal, push_str, string_of};

verus! {

/// An ASCII decimal digit.
pub open spec fn is_digit(c: char) -> bool {
    '0' <= c && c <= '9'
}

/// Every character is an ASCII decimal digit.
pub open spec fn all_digits(s: Seq<char>) -> bool {
    forall|i: int| 0 <= i < s.len() ==> is_digit(#[trigger] s[i])
}

/// The value of a string of decimal digits, most significant first.
pub open spec fn digits_value(s: Seq<char>) -> nat
    decreases s.len(),
{
    if s.len() == 0 {
        0
    } else {
        digits_value(s.drop_last()) * 10 + ((s.last() as int) - 48) as nat
    }
}

/// What `str::parse::<u64>` accepts: an optional `+`, then one or more ASCII
/// digits whose value fits in 64 bits.
pub open spec fn parse_u64_spec(s: Seq<char>) -> Option<u64> {
    let body = if s.len() > 0 && s[0] == '+' {
        s.drop_first()
    } else {
        s
    };
    if body.len() > 0 && all_digits(body) && digits_value(body) <= u64::MAX {
        Some(digits_value(body) as u64)
    } else {
        None
    }
}

/// A longer run of digits is worth at least as much as any of its prefixes.
proof fn lemma_digits_prefix_le(s: Seq<char>, k: int)
    requires
        all_digits(s),
        0 <= k <= s.len(),
    ensures
        digits_value(s.take(k)) <= digits_value(s),
    decreases s.len(),
{
    if k < s.len() {
        assert(s.drop_last().take(k) =~= s.take(k));
        lemma_digits_prefix_le(s.drop_last(), k);
    } else {
        assert(s.take(k) =~= s);
    }
}

/// Parses an unsigned 64-bit decimal number as `str::parse::<u64>` does.
pub fn parse_u64(v: &[char]) -> (r: Option<u64>)
    ensures
        r == parse_u64_spec(v@),
{
    let start: usize = if v.len() > 0 && v[0] == '+' {
        1
    } else {
        0
    };
    let ghost body = v@.skip(start as int);
    assert(body =~= (if v@.len() > 0 && v@[0] == '+' {
        v@.drop_first()
    } else {
        v@
    }));
    if start >= v.len() {
        return None;
    }
    let mut acc: u64 = 0;
    let mut i: usize = start;
    while i < v.len()
        invariant
            start <= i <= v.len(),
            start < v.len(),
            body == v@.skip(start as int),
            body == (if v@.len() > 0 && v@[0] == '+' {
                v@.drop_first()
            } else {
                v@
            }),
            all_digits(v@.subrange(start as int, i as int)),
            acc as nat == digits_value(v@.subrange(start as int, i as int)),
        decreases v.len() - i,
    {
        let c = v[i];
        if !('0' <= c && c <= '9') {
            assert(body[i - start] == c);
            return None;
        }
        let ghost next = v@.subrange(start as int, i + 1);
        assert(next.drop_last() =~= v@.subrange(start as int, i as int));
        assert(all_digits(next));
        let d: u64 = ((c as u32) - 48) as u64;
        match acc.checked_mul(10) {
            None => {
                proof {
                    if all_digits(body) {
                        assert(body.take(i + 1 - start) =~= next);
                        lemma_digits_prefix_le(body, i + 1 - start);
                    }
                }
                return None;
            },
            Some(m) => match m.checked_add(d) {
                None => {
                    proof {
                        if all_digits(body) {
                            assert(body.take(i + 1 - start) =~= next);
                            lemma_digits_prefix_le(body, i + 1 - start);
                        }
                    }
                    return None;
                },
                Some(n) => {
                    acc = n;
                },
            },
        }
        i = i + 1;
    }
    assert(v@.subrange(start as int, v.len() as int) =~= body);
    Some(acc)
}

/// The byte range named by a `Range` header of the form `bytes=start-end` or
/// `bytes=start-`, for a file of `file_size` bytes: an open end means the last
/// byte; the range must lie inside the file and not run backwards.
pub open spec fn range_bounds(range: Seq<char>, file_size: u64) -> Option<(u64, u64)> {
    if !has_prefix(range, "bytes="@) {
        None
    } else {
        let rest = range.skip(6);
        let k = index_of(rest, '-');
        if k < 0 {
            None
        } else {
            let end_text = rest.skip(k + 1);
            let end: Option<u64> = if end_text.len() == 0 {
                if file_size == 0 {
                    None
                } else {
                    Some((file_size - 1) as u64)
                }
            } else {
                parse_u64_spec(end_text)
            };
            match (parse_u64_spec(rest.take(k)), end) {
                (Some(start), Some(end)) => {
                    if start >= file_size || end >= file_size || start > end {
                        None
                    } else {
                        Some((start, end))
                    }
                },
                _ => None,
            }
        }
    }
}

/// Parses an HTTP `Range` header against a file of `file_size` bytes, giving the
/// first and last byte to send.
pub fn parse_range_header(range: &str, file_size: u64) -> (r: Option<(u64, u64)>)
    ensures
        r == range_bounds(range@, file_size),
        r matches Some((start, end)) ==> start <= end < file_size,
{
    let v = chars_of(range);
    let prefix = chars_of("bytes=");
    proof {
        reveal_strlit("bytes=");
    }
    if !chars_start_with(&v, &prefix) {
        return None;
    }
    let rest = slice_chars(&v, 6, v.len());
    assert(rest@ =~= v@.skip(6));
    let k = match find_char(&rest, '-') {
        None => {
            return None;
        },
        Some(k) => k,
    };
    let start_text = slice_chars(&rest, 0, k);
    assert(start_text@ =~= rest@.take(k as int));
    let end_text = slice_chars(&rest, k + 1, rest.len());
    assert(end_text@ =~= rest@.skip(k + 1));
    let start = match parse_u64(&start_text) {
        None => {
            return None;
        },
        Some(s) => s,
    };
    let end: u64 = if end_text.len() == 0 {
        if file_size == 0 {
            return None;
        }
        file_size - 1
    } else {
        match parse_u64(&end_text) {
            None => {
                return None;
            },
            Some(e) => e,
        }
    };
    if start >= file_size || end >= file_size || start > end {
        return None;
    }
    Some((start, end))
}

/// How an audio file is sent: from a seek offset, for a requested byte range,
/// or whole. `end` is the last byte sent and `length` the number of bytes sent.
#[derive(Clone, Copy, Debug, PartialEq, Eq, Structural)]
pub enum StreamPlan {
    Seek { start: u64, end: u64, length: u64, total: u64 },
    Range { start: u64, end: u64, length: u64, total: u64 },
    Full { file_size: Option<u64> },
}

/// The seek offset moved back inside the file: an offset at or past the end
/// starts at the last byte (at 0 for an empty file).
pub open spec fn clamped_offset(offset: u64, size: u64) -> u64 {
    if offset >= size {
        if size == 0 {
            0
        } else {
            (size - 1) as u64
        }
    } else {
        offset
    }
}

/// The streaming plan: a seek (given as a byte offset) wins when the file size
/// is known; then a valid `Range` header; otherwise the whole file, with its
/// length when known.
pub open spec fn stream_plan(
    file_size: Option<u64>,
    seek_offset: Option<u64>,
    range: Option<Seq<char>>,
) -> StreamPlan {
    match (file_size, seek_offset) {
        (Some(size), Some(offset)) => {
            let start = clamped_offset(offset, size);
            StreamPlan::Seek {
                start,
                end: if size == 0 {
                    0
                } else {
                    (size - 1) as u64
                },
                length: (size - start) as u64,
                total: size,
            }
        },
        _ => match (file_size, range) {
            (Some(size), Some(r)) => match range_bounds(r, size) {
                Some((start, end)) => StreamPlan::Range {
                    start,
                    end,
                    length: (end - start + 1) as u64,
                    total: size,
                },
                None => StreamPlan::Full { file_size },
            },
            _ => StreamPlan::Full { file_size },
        },
    }
}

/// Chooses how to stream an audio file of `file_size` bytes (when known), given
/// the byte offset of a position seek and the request's `Range` header.
pub fn plan_audio_stream(file_size: Option<u64>, seek_offset: Option<u64>, range: Option<&str>) -> (r:
    StreamPlan)
    ensures
        r == stream_plan(
            file_size,
            seek_offset,
            match range {
                Some(s) => Some(s@),
                None => None,
            },
        ),
        r matches StreamPlan::Seek { start, end, length, total } ==> start + length == total && (total > 0 ==> start
            <= end && end == total - 1),
        r matches StreamPlan::Range { start, end, length, total } ==> start <= end < total && length == end - start + 1,
{
    if let (Some(size), Some(offset)) = (file_size, seek_offset) {
        let start: u64 = if offset >= size {
            if size == 0 {
                0
            } else {
                size - 1
            }
        } else {
            offset
        };
        let end: u64 = if size == 0 {
            0
        } else {
            size - 1
        };
        return StreamPlan::Seek { start, end, length: size - start, total: size };
    }
    if let (Some(size), Some(r)) = (file_size, range) {
        if let Some((start, end)) = parse_range_header(r, size) {
            return StreamPlan::Range { start, end, length: end - start + 1, total: size };
        }
    }
    StreamPlan::Full { file_size }
}

/// The `Content-Range` value `bytes start-end/total`.
pub open spec fn content_range_value(start: u64, end: u64, total: u64) -> Seq<char> {
    "bytes "@ + decimal(start as nat) + "-"@ + decimal(end as nat) + "/"@ + decimal(total as nat)
}

/// Formats the `Content-Range` header value for a partial response.
pub fn content_range(start: u64, end: u64, total: u64) -> (r: String)
    ensures
        r@ == content_range_value(start, end, total),
{
    let mut out: Vec<char> = Vec::new();
    push_str(&mut out, "bytes ");
    push_decimal(&mut out, start);
    push_str(&mut out, "-");
    push_decimal(&mut out, end);
    push_str(&mut out, "/");
    push_decimal(&mut out, total);
    string_of(&out)
}

/// Why a launch path is refused for streaming or cover extraction.
#[derive(Clone, Copy, Debug, PartialEq, Eq, Structural)]
pub enum LaunchPathError {
    /// A `content://` URI where only filesystem paths are served.
    ContentUri,
    /// The path has no extension to judge it by.
    NoExtension,
    /// The extension is not a supported audio extension.
    UnsupportedType,
}

impl LaunchPathError {
    /// The response body sent with the refusal.
    pub open spec fn text(self) -> Seq<char> {
        match self {
            LaunchPathError::ContentUri => "content:// URIs not supported"@,
            LaunchPathError::NoExtension => "File has no extension"@,
            LaunchPathError::UnsupportedType => "Unsupported file type"@,
        }
    }

    /// The response body sent with the refusal.
    pub fn message(&self) -> (r: &'static str)
        ensures
            r@ == self.text(),
    {
        match self {
            LaunchPathError::ContentUri => "content:// URIs not supported",
            LaunchPathError::NoExtension => "File has no extension",
            LaunchPathError::UnsupportedType => "Unsupported file type",
        }
    }
}

/// Which launch paths may be streamed: a `content://` URI only where such URIs
/// are served (then under the name `audio`); otherwise the path needs an
/// extension that, ASCII-lowercased, is a supported audio extension, and it is
/// served under its file name.
pub open spec fn launch_path_check(p: Seq<char>, content_uris_served: bool) -> Result<
    Seq<char>,
    LaunchPathError,
> {
    if has_prefix(p, "content://"@) {
        if content_uris_served {
            Ok("audio"@)
        } else {
            Err(LaunchPathError::ContentUri)
        }
    } else {
        match extension(p) {
            None => Err(LaunchPathError::NoExtension),
            Some(e) => if !listed(SUPPORTED_EXTENSIONS@, ascii_lower_seq(e)) {
                Err(LaunchPathError::UnsupportedType)
            } else {
                match file_name(p) {
                    Some(n) => Ok(n),
                    None => Ok("audio"@),
                }
            },
        }
    }
}

/// Checks a path handed over by the operating system at launch before it is
/// streamed or probed for cover art, giving the file name to serve it under.
pub fn check_launch_path(p: &str, content_uris_served: bool) -> (r: Result<String, LaunchPathError>)
    ensures
        match r {
            Ok(name) => launch_path_check(p@, content_uris_served) == Ok::<Seq<char>, LaunchPathError>(name@),
            Err(e) => launch_path_check(p@, content_uris_served) == Err::<Seq<char>, LaunchPathError>(e),
        },
{
    let v = chars_of(p);
    let scheme = chars_of("content://");
    if chars_start_with(&v, &scheme) {
        if content_uris_served {
            return Ok("audio".to_owned());
        }
        return Err(LaunchPathError::ContentUri);
    }
    match extension_of_path(&v) {
        None => Err(LaunchPathError::NoExtension),
        Some(e) => {
            let lower = lower_ascii(&e);
            if !is_listed(&SUPPORTED_EXTENSIONS, &lower) {
                return Err(LaunchPathError::UnsupportedType);
            }
            match file_name_chars(&v) {
                Some(n) => Ok(string_of(&n)),
                None => Ok("audio".to_owned()),
            }
        },
    }
}

/// The report of a batch delete: status code, whether every song went, and the
/// message.
pub open spec fn batch_delete_report(requested: nat, deleted: nat, failed: nat) -> (u16, bool, Seq<char>) {
    if requested == 0 {
        (400, false, "No music IDs provided"@)
    } else if failed == 0 {
        (200, true, "Deleted "@ + decimal(deleted) + " songs"@)
    } else {
        (
            if deleted == 0 {
                400
            } else {
                200
            },
            false,
            "Deleted "@ + decimal(deleted) + " songs, "@ + decimal(failed) + " failed"@,
        )
    }
}

/// Summarises a batch delete of `requested` ids, of which `deleted` went and
/// `failed` did not: an empty request is refused; any failure makes the batch
/// unsuccessful, and a batch where nothing was deleted is a bad request.
pub fn batch_delete_outcome(requested: usize, deleted: usize, failed: usize) -> (r: (u16, bool, String))
    ensures
        (r.0, r.1, r.2@) == batch_delete_report(requested as nat, deleted as nat, failed as nat),
{
    if requested == 0 {
        return (400, false, "No music IDs provided".to_owned());
    }
    let mut out: Vec<char> = Vec::new();
    push_str(&mut out, "Deleted ");
    push_decimal(&mut out, deleted as u64);
    if failed == 0 {
        push_str(&mut out, " songs");
        return (200, true, string_of(&out));
    }
    push_str(&mut out, " songs, ");
    push_decimal(&mut out, failed as u64);
    push_str(&mut out, " failed");
    let status: u16 = if deleted == 0 {
        400
    } else {
        200
    };
    (status, false, string_of(&out))
}

/// A request to delete songs by library id.
pub struct DeleteMusicRequest {
    pub ids: Vec<i32>,
}

/// A song that could not be deleted, and why.
pub struct DeleteMusicFailure {
    pub id: i32,
    pub reason: String,
}

/// The reply to a batch delete.
pub struct DeleteMusicResponse {
    pub success: bool,
    pub message: String,
    pub deleted_ids: Vec<i32>,
    pub failed: Vec<DeleteMusicFailure>,
}

/// The reason given for an id that names no song.
pub const MUSIC_NOT_FOUND: &'static str = "Music not found";

/// The running account of a batch delete: the ids deleted and the failures,
/// each in the order the ids were handled.
pub struct BatchDelete {
    pub deleted_ids: Vec<i32>,
    pub failed: Vec<DeleteMusicFailure>,
}

impl BatchDelete {
    /// A batch that has handled no id yet.
    pub fn new() -> (r: BatchDelete)
        ensures
            r.deleted_ids@.len() == 0,
            r.failed@.len() == 0,
    {
        BatchDelete { deleted_ids: Vec::new(), failed: Vec::new() }
    }

    /// The song `id` and its file were deleted.
    pub fn record_deleted(&mut self, id: i32)
        ensures
            final(self).deleted_ids@ == old(self).deleted_ids@.push(id),
            final(self).failed@ == old(self).failed@,
    {
        self.deleted_ids.push(id);
    }

    /// The song `id` could not be deleted, for `reason`.
    pub fn record_failed(&mut self, id: i32, reason: String)
        ensures
            final(self).deleted_ids@ == old(self).deleted_ids@,
            final(self).failed@ == old(self).failed@.push(DeleteMusicFailure { id, reason }),
    {
        self.failed.push(DeleteMusicFailure { id, reason });
    }

    /// The status and reply ending a batch of `requested` ids: an empty
    /// request is refused with empty lists; otherwise the report of the
    /// deleted ids and the failures.
    pub fn finish(self, requested: usize) -> (r: (u16, DeleteMusicResponse))
        ensures
            (r.0, r.1.success, r.1.message@) == batch_delete_report(
                requested as nat,
                if requested == 0 {
                    0
                } else {
                    self.deleted_ids@.len()
                },
                if requested == 0 {
                    0
                } else {
                    self.failed@.len()
                },
            ),
            requested == 0 ==> r.1.deleted_ids@.len() == 0 && r.1.failed@.len() == 0,
            requested > 0 ==> r.1.deleted_ids@ == self.deleted_ids@ && r.1.failed@ == self.failed@,
    {
        if requested == 0 {
            let (status, success, message) = batch_delete_outcome(0, 0, 0);
            return (status, DeleteMusicResponse { success, message, deleted_ids: Vec::new(), failed: Vec::new() });
        }
        let (status, success, message) = batch_delete_outcome(requested, self.deleted_ids.len(), self.failed.len());
        (status, DeleteMusicResponse { success, message, deleted_ids: self.deleted_ids, failed: self.failed })
    }
}

/// The cache policy of streamed audio.
pub const AUDIO_CACHE_CONTROL: &'static str = "public, max-age=86400, must-revalidate";

/// The body sent when the audio cannot be read.
pub const AUDIO_FILE_NOT_FOUND: &'static str = "File not found";

/// The head of a streamed audio reply: its status and headers.
pub struct AudioResponseHead {
    pub status: u16,
    pub content_type: &'static str,
    pub content_length: Option<u64>,
    pub content_range: Option<String>,
    pub accept_ranges: &'static str,
    pub cache_control: &'static str,
    pub content_disposition: Option<String>,
}

/// The `Content-Disposition` value of a reply: an attachment only when a
/// download was asked for.
pub open spec fn disposition_for(download: Option<Seq<char>>, filename: Seq<char>) -> Option<Seq<char>> {
    if download_requested(download) {
        Some(disposition_value(filename, percent_encoded(vstd::utf8::encode_utf8(filename))))
    } else {
        None
    }
}

/// The head of the reply streaming a file named `filename` under `plan`: a
/// seek or a range is answered 206 with the bytes sent as `Content-Length`
/// and a `Content-Range`; the whole file is answered 200, with its length
/// when known. Every reply names the audio type from the file name, accepts
/// byte ranges, may be cached for a day, and is an attachment when the
/// `download` parameter asks for one.
pub fn audio_response_head(plan: StreamPlan, filename: &str, download: Option<&str>) -> (r: AudioResponseHead)
    ensures
        r.content_type@ == audio_mime(filename@),
        r.accept_ranges@ == "bytes"@,
        r.cache_control@ == AUDIO_CACHE_CONTROL@,
        opt_string_view(r.content_disposition) == disposition_for(opt_view(download), filename@),
        match plan {
            StreamPlan::Seek { start, end, length, total } | StreamPlan::Range { start, end, length, total } => {
                &&& r.status == 206
                &&& r.content_length == Some(length)
                &&& opt_string_view(r.content_range) == Some(content_range_value(start, end, total))
            },
            StreamPlan::Full { file_size } => {
                &&& r.status == 200
                &&& r.content_length == file_size
                &&& r.content_range is None
            },
        },
{
    let wants = is_download_requested(download);
    let disposition = download_disposition(wants, filename);
    let (status, content_length, content_range): (u16, Option<u64>, Option<String>) = match plan {
        StreamPlan::Seek { start, end, length, total } => (206, Some(length), Some(content_range(start, end, total))),
        StreamPlan::Range { start, end, length, total } => (206, Some(length), Some(content_range(start, end, total))),
        StreamPlan::Full { file_size } => (200, file_size, None),
    };
    AudioResponseHead {
        status,
        content_type: audio_content_type(filename),
        content_length,
        content_range,
        accept_ranges: "bytes",
        cache_control: AUDIO_CACHE_CONTROL,
        content_disposition: disposition,
    }
}

/// The audio plan once reading from the seek offset has failed: the request
/// is served as if no seek had been asked for (a valid `Range`, else the whole
/// file).
pub fn plan_after_failed_seek(file_size: Option<u64>, range: Option<&str>) -> (r: StreamPlan)
    ensures
        r == stream_plan(file_size, None, opt_view(range)),
{
    plan_audio_stream(file_size, None, range)
}

/// What became of one id of a batch delete. The steps run in order (look the
/// song up, remove its file, remove its row) and stop at the first failure, so
/// the row is removed only after the file is gone.
pub enum DeleteAttempt {
    /// No song has the id.
    NotFound,
    /// Looking the song up failed.
    LookupFailed(String),
    /// The file could not be removed; the row is kept.
    FileRemovalFailed(String),
    /// The file went but the row could not be removed.
    RowRemovalFailed(String),
    /// The file and the row are gone.
    Deleted,
}

/// What the last outside call of one id's deletion returned.
pub enum DeleteReport {
    /// Nothing has been done for the id yet.
    Start,
    /// Looking the song up returned its stored path, no song, or an error.
    Lookup(Result<Option<String>, String>),
    /// Removing the audio file at this path returned.
    FileRemoval(String, Result<(), String>),
    /// Removing the song's row returned.
    RowRemoval(Result<(), String>),
}

/// What to do next for one id of a batch delete.
pub enum DeleteAction {
    /// Look the song up.
    LookUp,
    /// Remove the song's audio file at this path.
    RemoveFile(String),
    /// Remove the lyric files beside the song at this path
    /// (`lyric_candidate_paths`; a missing one is no error), then its row.
    RemoveRow(String),
    /// The id is settled with this outcome.
    Settle(DeleteAttempt),
}

/// The step a batch delete takes for one id after `report`: the song is looked
/// up, then its file removed, then (its lyric files dropped) its row removed;
/// the first failure settles the id, so a row is removed only once its file is
/// gone, and an id is deleted only once its row is gone.
pub open spec fn delete_step(report: DeleteReport) -> DeleteAction {
    match report {
        DeleteReport::Start => DeleteAction::LookUp,
        DeleteReport::Lookup(Ok(Some(p))) => DeleteAction::RemoveFile(p),
        DeleteReport::Lookup(Ok(None)) => DeleteAction::Settle(DeleteAttempt::NotFound),
        DeleteReport::Lookup(Err(e)) => DeleteAction::Settle(DeleteAttempt::LookupFailed(e)),
        DeleteReport::FileRemoval(_, Err(e)) => DeleteAction::Settle(DeleteAttempt::FileRemovalFailed(e)),
        DeleteReport::RowRemoval(Ok(())) => DeleteAction::Settle(DeleteAttempt::Deleted),
        DeleteReport::RowRemoval(Err(e)) => DeleteAction::Settle(DeleteAttempt::RowRemovalFailed(e)),
        DeleteReport::FileRemoval(p, Ok(())) => DeleteAction::RemoveRow(p),
    }
}

/// Decides the next step of one id's deletion from what the last outside call
/// returned.
pub fn next_delete_action(report: DeleteReport) -> (r: DeleteAction)
    ensures
        r == delete_step(report),
{
    match report {
        DeleteReport::Start => DeleteAction::LookUp,
        DeleteReport::Lookup(Ok(Some(p))) => DeleteAction::RemoveFile(p),
        DeleteReport::Lookup(Ok(None)) => DeleteAction::Settle(DeleteAttempt::NotFound),
        DeleteReport::Lookup(Err(e)) => DeleteAction::Settle(DeleteAttempt::LookupFailed(e)),
        DeleteReport::FileRemoval(p, Ok(())) => DeleteAction::RemoveRow(p),
        DeleteReport::FileRemoval(_, Err(e)) => DeleteAction::Settle(DeleteAttempt::FileRemovalFailed(e)),
        DeleteReport::RowRemoval(Ok(())) => DeleteAction::Settle(DeleteAttempt::Deleted),
        DeleteReport::RowRemoval(Err(e)) => DeleteAction::Settle(DeleteAttempt::RowRemovalFailed(e)),
    }
}

/// `report` is the kind of answer the action `a` asks for.
pub open spec fn answers(a: DeleteAction, report: DeleteReport) -> bool {
    match a {
        DeleteAction::LookUp => report is Lookup,
        DeleteAction::RemoveFile(p) => report matches DeleteReport::FileRemoval(q, _) && q == p,
        DeleteAction::RemoveRow(_) => report is RowRemoval,
        DeleteAction::Settle(_) => false,
    }
}

/// A run of one id's deletion: it starts from nothing, and each report answers
/// the step taken after the one before.
pub open spec fn delete_run(reports: Seq<DeleteReport>) -> bool {
    &&& reports.len() > 0
    &&& reports[0] is Start
    &&& forall|k: int| 0 < k < reports.len() ==> answers(delete_step(#[trigger] reports[k - 1]), reports[k])
}

/// In any run, the row is removed only right after the song's file was
/// removed; a failed file removal ends the run, so the row stays; and an id is
/// settled as deleted only after its file and then its row were removed.
pub proof fn law_row_removed_only_after_file(reports: Seq<DeleteReport>)
    requires
        delete_run(reports),
    ensures
        forall|k: int|
            0 < k < reports.len() && #[trigger] reports[k] is RowRemoval ==> reports[k - 1] matches DeleteReport::FileRemoval(
                _,
                Ok(()),
            ),
        forall|k: int|
            0 <= k < reports.len() - 1 ==> !(#[trigger] reports[k] matches DeleteReport::FileRemoval(_, Err(_))),
        (delete_step(reports.last()) matches DeleteAction::Settle(DeleteAttempt::Deleted)) ==> (reports.len() >= 3
            && (reports.last() matches DeleteReport::RowRemoval(Ok(()))) && (reports[reports.len() - 2] matches DeleteReport::FileRemoval(
            _,
            Ok(()),
        ))),
{
    assert forall|k: int| 0 < k < reports.len() && #[trigger] reports[k] is RowRemoval implies reports[k - 1] matches DeleteReport::FileRemoval(
        _,
        Ok(()),
    ) by {
        assert(answers(delete_step(reports[k - 1]), reports[k]));
    }
    assert forall|k: int| 0 <= k < reports.len() - 1 implies !(#[trigger] reports[k] matches DeleteReport::FileRemoval(
        _,
        Err(_),
    )) by {
        assert(answers(delete_step(reports[k]), reports[k + 1]));
    }
    if delete_step(reports.last()) matches DeleteAction::Settle(DeleteAttempt::Deleted) {
        let n = reports.len() as int;
        assert(reports[n - 1] is RowRemoval);
        if n >= 2 {
            assert(answers(delete_step(reports[n - 2]), reports[n - 1]));
            if n - 2 == 0 {
                assert(reports[0] is Start);
            }
        }
    }
}

/// The reason reported for an id that was not deleted.
pub open spec fn failure_reason(a: DeleteAttempt) -> Seq<char> {
    match a {
        DeleteAttempt::NotFound => MUSIC_NOT_FOUND@,
        DeleteAttempt::LookupFailed(e) => e@,
        DeleteAttempt::FileRemovalFailed(e) => e@,
        DeleteAttempt::RowRemovalFailed(e) => e@,
        DeleteAttempt::Deleted => Seq::empty(),
    }
}

/// The ids deleted among the first `n`, in request order.
pub open spec fn deleted_upto(ids: Seq<i32>, attempts: Seq<DeleteAttempt>, n: nat) -> Seq<i32>
    decreases n,
{
    if n == 0 {
        Seq::empty()
    } else {
        let rest = deleted_upto(ids, attempts, (n - 1) as nat);
        if attempts[n - 1] is Deleted {
            rest.push(ids[n - 1])
        } else {
            rest
        }
    }
}

/// The failures among the first `n` ids, with their reasons, in request
/// order.
pub open spec fn failed_upto(ids: Seq<i32>, attempts: Seq<DeleteAttempt>, n: nat) -> Seq<(i32, Seq<char>)>
    decreases n,
{
    if n == 0 {
        Seq::empty()
    } else {
        let rest = failed_upto(ids, attempts, (n - 1) as nat);
        if attempts[n - 1] is Deleted {
            rest
        } else {
            rest.push((ids[n - 1], failure_reason(attempts[n - 1])))
        }
    }
}

/// The failures as plain values.
pub open spec fn failures_view(f: Seq<DeleteMusicFailure>) -> Seq<(i32, Seq<char>)> {
    f.map_values(|x: DeleteMusicFailure| (x.id, x.reason@))
}

/// Every id of a batch lands in exactly one of the two lists.
pub proof fn law_batch_delete_accounts_for_every_id(ids: Seq<i32>, attempts: Seq<DeleteAttempt>, n: nat)
    ensures
        deleted_upto(ids, attempts, n).len() + failed_upto(ids, attempts, n).len() == n,
    decreases n,
{
    if n > 0 {
        law_batch_delete_accounts_for_every_id(ids, attempts, (n - 1) as nat);
    }
}

/// The ids of a list of failures, in order.
pub open spec fn failed_ids(f: Seq<(i32, Seq<char>)>) -> Seq<i32> {
    f.map_values(|x: (i32, Seq<char>)| x.0)
}

/// The deleted ids followed by the failed ones are the requested ids
/// rearranged: each occurrence of an id lands in exactly one of the two
/// lists, both of which keep request order.
pub proof fn law_batch_delete_is_permutation(ids: Seq<i32>, attempts: Seq<DeleteAttempt>, n: nat)
    requires
        n <= ids.len(),
        n <= attempts.len(),
    ensures
        (deleted_upto(ids, attempts, n) + failed_ids(failed_upto(ids, attempts, n))).to_multiset()
            =~= ids.take(n as int).to_multiset(),
    decreases n,
{
    broadcast use vstd::seq_lib::to_multiset_build, vstd::seq_lib::lemma_multiset_commutative;
    broadcast use vstd::multiset::group_multiset_axioms;

    if n == 0 {
        assert(ids.take(0) =~= Seq::<i32>::empty());
        assert(deleted_upto(ids, attempts, 0) + failed_ids(failed_upto(ids, attempts, 0)) =~= Seq::<i32>::empty());
    } else {
        let m = (n - 1) as nat;
        law_batch_delete_is_permutation(ids, attempts, m);
        let d = deleted_upto(ids, attempts, m);
        let f = failed_ids(failed_upto(ids, attempts, m));
        assert(ids.take(n as int) =~= ids.take(m as int).push(ids[m as int]));
        if attempts[m as int] is Deleted {
            assert(failed_ids(failed_upto(ids, attempts, n)) =~= f);
            assert((d.push(ids[m as int]) + f).to_multiset() =~= d.to_multiset().insert(ids[m as int]).add(
                f.to_multiset(),
            ));
        } else {
            assert(deleted_upto(ids, attempts, n) == d);
            assert(failed_ids(failed_upto(ids, attempts, n)) =~= f.push(ids[m as int]));
            assert((d + f.push(ids[m as int])).to_multiset() =~= d.to_multiset().add(
                f.to_multiset().insert(ids[m as int]),
            ));
        }
    }
}

/// A non-empty batch succeeds exactly when nothing failed, and is a bad
/// request exactly when something failed and nothing was deleted; an empty one
/// is always a bad request.
pub proof fn law_batch_delete_status(requested: nat, deleted: nat, failed: nat)
    ensures
        requested > 0 ==> (batch_delete_report(requested, deleted, failed).1 <==> failed == 0),
        requested > 0 ==> (batch_delete_report(requested, deleted, failed).0 == 400 <==> (deleted == 0 && failed
            > 0)),
        requested > 0 ==> batch_delete_report(requested, deleted, failed).0 == 400 || batch_delete_report(
            requested,
            deleted,
            failed,
        ).0 == 200,
        requested == 0 ==> batch_delete_report(requested, deleted, failed).0 == 400,
{
}

/// A batch where no file could be removed deletes nothing and reports every
/// id as failed, in order, with the removal error.
pub proof fn law_failed_removals_keep_every_row(ids: Seq<i32>, attempts: Seq<DeleteAttempt>, n: nat)
    requires
        n <= ids.len(),
        n <= attempts.len(),
        forall|k: int| 0 <= k < n ==> attempts[k] is FileRemovalFailed,
    ensures
        deleted_upto(ids, attempts, n).len() == 0,
        failed_upto(ids, attempts, n).len() == n,
        forall|k: int| 0 <= k < n ==> failed_upto(ids, attempts, n)[k] == (ids[k], failure_reason(attempts[k])),
    decreases n,
{
    if n > 0 {
        law_failed_removals_keep_every_row(ids, attempts, (n - 1) as nat);
    }
}

/// Settles a batch delete from the outcome of each requested id (in request
/// order): the deleted ids and the failures, each in request order, and the
/// status and message of the report.
pub fn settle_batch_delete(ids: &Vec<i32>, attempts: &Vec<DeleteAttempt>) -> (r: (u16, DeleteMusicResponse))
    requires
        attempts@.len() == ids@.len(),
    ensures
        (r.0, r.1.success, r.1.message@) == batch_delete_report(
            ids@.len(),
            deleted_upto(ids@, attempts@, ids@.len()).len(),
            failed_upto(ids@, attempts@, ids@.len()).len(),
        ),
        ids@.len() == 0 ==> r.1.deleted_ids@.len() == 0 && r.1.failed@.len() == 0,
        ids@.len() > 0 ==> r.1.deleted_ids@ == deleted_upto(ids@, attempts@, ids@.len()) && failures_view(r.1.failed@)
            == failed_upto(ids@, attempts@, ids@.len()),
{
    let mut batch = BatchDelete::new();
    let mut i: usize = 0;
    while i < ids.len()
        invariant
            i <= ids@.len() == attempts@.len(),
            batch.deleted_ids@ == deleted_upto(ids@, attempts@, i as nat),
            failures_view(batch.failed@) == failed_upto(ids@, attempts@, i as nat),
        decreases ids.len() - i,
    {
        let id = ids[i];
        let ghost before = failures_view(batch.failed@);
        match &attempts[i] {
            DeleteAttempt::Deleted => {
                batch.record_deleted(id);
            },
            DeleteAttempt::NotFound => {
                batch.record_failed(id, MUSIC_NOT_FOUND.to_owned());
                assert(failures_view(batch.failed@) =~= before.push((id, MUSIC_NOT_FOUND@)));
            },
            DeleteAttempt::LookupFailed(e) | DeleteAttempt::FileRemovalFailed(e) | DeleteAttempt::RowRemovalFailed(e) => {
                let reason = string_of(&chars_of(e.as_str()));
                batch.record_failed(id, reason);
                assert(failures_view(batch.failed@) =~= before.push((id, e@)));
            },
        }
        i = i + 1;
    }
    proof {
        law_batch_delete_accounts_for_every_id(ids@, attempts@, ids@.len());
    }
    let ghost d = batch.deleted_ids@;
    let ghost f = batch.failed@;
    let r = batch.finish(ids.len());
    proof {
        assert(d.len() == deleted_upto(ids@, attempts@, ids@.len()).len());
        assert(failures_view(f).len() == f.len());
    }
    r
}

/// What a request to stream a file by its path is answered: a peer that is
/// not this machine is refused (403, `Local access only`) whatever the path;
/// then a path refused by [`launch_path_check`] is a bad request (400, with
/// the reason); otherwise the file is served under the name given.
pub open spec fn path_request_check(peer: Option<IpAddress>, p: Seq<char>, content_uris_served: bool) -> Result<
    Seq<char>,
    (u16, Seq<char>),
> {
    if !(peer matches Some(ip) && loopback(ip)) {
        Err((403, LOCAL_ACCESS_ONLY@))
    } else {
        match launch_path_check(p, content_uris_served) {
            Ok(name) => Ok(name),
            Err(e) => Err((400, e.text())),
        }
    }
}

/// Checks a request to stream (or take the cover of) a file by its path.
pub fn check_path_request(peer: Option<IpAddress>, p: &str, content_uris_served: bool) -> (r: Result<
    String,
    (u16, &'static str),
>)
    ensures
        match r {
            Ok(name) => path_request_check(peer, p@, content_uris_served) == Ok::<Seq<char>, (u16, Seq<char>)>(name@),
            Err((code, body)) => path_request_check(peer, p@, content_uris_served) == Err::<Seq<char>, (u16, Seq<char>)>(
                (code, body@),
            ),
        },
{
    if !is_localhost_request(peer) {
        return Err((403, LOCAL_ACCESS_ONLY));
    }
    match check_launch_path(p, content_uris_served) {
        Ok(name) => Ok(name),
        Err(e) => Err((400, e.message())),
    }
}

/// The last byte an HTTP range names: the file's last byte for an open end
/// (none for an empty file), else the number written.
pub open spec fn range_end(b: Seq<char>, file_size: u64) -> Option<u64> {
    if b.len() == 0 {
        if file_size == 0 {
            None
        } else {
            Some((file_size - 1) as u64)
        }
    } else {
        parse_u64_spec(b)
    }
}

/// A number's text holds no `-`.
proof fn lemma_number_has_no_dash(x: Seq<char>)
    requires
        parse_u64_spec(x) is Some,
    ensures
        !x.contains('-'),
{
    if x.contains('-') {
        let j = choose|j: int| 0 <= j < x.len() && x[j] == '-';
        if x.len() > 0 && x[0] == '+' {
            if j == 0 {
            } else {
                assert(x.drop_first()[j - 1] == '-');
                assert(!is_digit(x.drop_first()[j - 1]));
            }
        } else {
            assert(!is_digit(x[j]));
        }
    }
}

/// The `Range` header `bytes={a}-{b}` names the bytes from `a` to `b` (to the
/// last byte when `b` is empty) when both are numbers with
/// `a <= b < file_size`; any other such header names nothing. (A header not of
/// this form names nothing either: [`range_bounds`] asks for the `bytes=`
/// prefix and a `-`.)
pub proof fn law_range_header(a: Seq<char>, b: Seq<char>, file_size: u64)
    ensures
        range_bounds("bytes="@ + a + "-"@ + b, file_size) == (match (parse_u64_spec(a), range_end(b, file_size)) {
            (Some(s), Some(e)) => if s <= e && e < file_size {
                Some((s, e))
            } else {
                None
            },
            _ => None,
        }),
{
    reveal_strlit("bytes=");
    reveal_strlit("-");
    let range = "bytes="@ + a + "-"@ + b;
    assert(range.take(6) =~= "bytes="@);
    assert(has_prefix(range, "bytes="@));
    let rest = range.skip(6);
    assert(rest =~= a + "-"@ + b);
    lemma_index_of(rest, '-');
    let k = index_of(rest, '-');
    assert(rest[a.len() as int] == '-');
    if !a.contains('-') {
        if k < a.len() {
            assert(a[k] == '-');
        }
        assert(k == a.len());
        assert(rest.take(k) =~= a);
        assert(rest.skip(k + 1) =~= b);
    } else {
        if parse_u64_spec(a) is Some {
            lemma_number_has_no_dash(a);
        }
        let j = choose|j: int| 0 <= j < a.len() && a[j] == '-';
        assert(rest[j] == '-');
        assert(k <= j);
        let end_text = rest.skip(k + 1);
        assert(end_text[a.len() - k - 1] == '-');
        assert(end_text.contains('-'));
        if parse_u64_spec(end_text) is Some {
            lemma_number_has_no_dash(end_text);
        }
    }
}

/// What looking a song up for loudness pre-caching found.
pub enum LufsLookup {
    /// The song's loudness is already stored.
    AlreadyCached,
    /// The song exists but has no loudness yet.
    NotCached,
    /// No song has the id.
    NotFound,
    /// The library could not be read, with the error's text.
    DatabaseError(String),
}

/// The reply to a loudness pre-cache request (the stored value itself, when
/// there is one, is added by the caller), and whether to start computing the
/// loudness in the background.
pub struct PrecacheLufsReply {
    pub status: u16,
    pub success: bool,
    pub cached: Option<bool>,
    pub error: Option<String>,
    pub start_background: bool,
}

/// The status, success flag, `cached` flag and error of the reply, and whether
/// the computation starts: a stored value is answered at once (200); a song
/// without one is accepted (202) and its loudness computed in the background;
/// an unknown id is not found (404); a failed lookup is a server error (500)
/// naming the error.
pub open spec fn precache_lufs_spec(lookup: LufsLookup) -> (u16, bool, Option<bool>, Option<Seq<char>>, bool) {
    match lookup {
        LufsLookup::AlreadyCached => (200, true, Some(true), None, false),
        LufsLookup::NotCached => (202, true, Some(false), None, true),
        LufsLookup::NotFound => (404, false, None, Some("Music not found"@), false),
        LufsLookup::DatabaseError(e) => (500, false, None, Some("Database error: "@ + e@), false),
    }
}

/// Answers a loudness pre-cache request from what the lookup found.
pub fn precache_lufs_reply(lookup: LufsLookup) -> (r: PrecacheLufsReply)
    ensures
        (r.status, r.success, r.cached, opt_string_view(r.error), r.start_background) == precache_lufs_spec(lookup),
{
    match lookup {
        LufsLookup::AlreadyCached => PrecacheLufsReply {
            status: 200,
            success: true,
            cached: Some(true),
            error: None,
            start_background: false,
        },
        LufsLookup::NotCached => PrecacheLufsReply {
            status: 202,
            success: true,
            cached: Some(false),
            error: None,
            start_background: true,
        },
        LufsLookup::NotFound => PrecacheLufsReply {
            status: 404,
            success: false,
            cached: None,
            error: Some("Music not found".to_owned()),
            start_background: false,
        },
        LufsLookup::DatabaseError(e) => {
            let mut out: Vec<char> = Vec::new();
            push_str(&mut out, "Database error: ");
            push_str(&mut out, e.as_str());
            PrecacheLufsReply {
                status: 500,
                success: false,
                cached: None,
                error: Some(string_of(&out)),
                start_background: false,
            }
        },
    }
}

} // verus!
