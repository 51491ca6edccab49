//! How the lyric endpoints answer: serving a sidecar lyric file, and saving an
//! edited one back over the existing file.
use vstd::prelude::*;
use crate::paths::{file_name, file_name_chars, with_extension};
use crate::remote::opt_string_view;
use crate::sources::{lyric_candidate_paths, resolution, PathKind, SourceRegistry};
use crate::download::Platform;
use crate::filenames::opt_view;
use crate::search::INVALID_LYRIC_ID;
use crate::text::{chars_of, push_str, str_eq, string_of, trim, trim_chars};

verus! {

/// A request to replace a song's lyric file.
pub struct UpdateLyricContentRequest {
    pub content: String,
}

/// The reply to a lyric update.
pub struct UpdateLyricContentResponse {
    pub success: bool,
    pub message: String,
    pub lyric_filename: Option<String>,
}

/// How a lyric update went.
pub enum LyricUpdateOutcome {
    /// The new content was blank.
    BlankContent,
    /// No song has the id.
    MusicMissing,
    /// The library could not be read.
    DatabaseError,
    /// No source claims the song's path.
    SourceUnresolved,
    /// The song's source cannot be written.
    NotWritable,
    /// The song has no lyric file to replace.
    LyricsMissing,
    /// Looking for the lyric file failed.
    LyricLookupFailed,
    /// Writing the lyric file failed.
    WriteFailed,
    /// The lyric file at this path was replaced.
    Updated(String),
}

/// The status code, success flag and message answering each outcome.
pub open spec fn lyric_update_reply(o: LyricUpdateOutcome) -> (u16, bool, Seq<char>) {
    match o {
        LyricUpdateOutcome::BlankContent => (400, false, "Lyric content cannot be empty"@),
        LyricUpdateOutcome::MusicMissing => (404, false, "Music not found"@),
        LyricUpdateOutcome::DatabaseError => (500, false, "Database error"@),
        LyricUpdateOutcome::SourceUnresolved => (500, false, "Failed to resolve lyric source"@),
        LyricUpdateOutcome::NotWritable => (409, false, "Lyric source is not writable"@),
        LyricUpdateOutcome::LyricsMissing => (404, false, "Lyrics not found"@),
        LyricUpdateOutcome::LyricLookupFailed => (500, false, "Failed to resolve lyric file"@),
        LyricUpdateOutcome::WriteFailed => (500, false, "Failed to save lyric file"@),
        LyricUpdateOutcome::Updated(_) => (200, true, "Lyrics updated"@),
    }
}

/// Answers a lyric update: the status, and a reply naming the lyric file when
/// it was replaced.
pub fn lyric_update_response(outcome: LyricUpdateOutcome) -> (r: (u16, UpdateLyricContentResponse))
    ensures
        (r.0, r.1.success, r.1.message@) == lyric_update_reply(outcome),
        match outcome {
            LyricUpdateOutcome::Updated(p) => opt_string_view(r.1.lyric_filename) == file_name(p@),
            _ => r.1.lyric_filename is None,
        },
{
    let (code, success, message): (u16, bool, &str) = match &outcome {
        LyricUpdateOutcome::BlankContent => (400, false, "Lyric content cannot be empty"),
        LyricUpdateOutcome::MusicMissing => (404, false, "Music not found"),
        LyricUpdateOutcome::DatabaseError => (500, false, "Database error"),
        LyricUpdateOutcome::SourceUnresolved => (500, false, "Failed to resolve lyric source"),
        LyricUpdateOutcome::NotWritable => (409, false, "Lyric source is not writable"),
        LyricUpdateOutcome::LyricsMissing => (404, false, "Lyrics not found"),
        LyricUpdateOutcome::LyricLookupFailed => (500, false, "Failed to resolve lyric file"),
        LyricUpdateOutcome::WriteFailed => (500, false, "Failed to save lyric file"),
        LyricUpdateOutcome::Updated(_) => (200, true, "Lyrics updated"),
    };
    let lyric_filename = match &outcome {
        LyricUpdateOutcome::Updated(p) => match file_name_chars(&chars_of(p.as_str())) {
            Some(n) => Some(string_of(&n)),
            None => None,
        },
        _ => None,
    };
    (code, UpdateLyricContentResponse { success, message: string_of(&chars_of(message)), lyric_filename })
}

/// Whether new lyric content may be saved: it is not blank.
pub fn lyric_content_ok(content: &str) -> (r: bool)
    ensures
        r == (trim(content@).len() > 0),
{
    trim_chars(&chars_of(content)).len() > 0
}

/// Where an edited lyric may be written: the song's path must resolve to a
/// source, and that source must be the local filesystem; then the `.lrc` and
/// `.vtt` files beside the song are the candidates, in that order.
pub fn lyric_write_candidates(
    registry: &SourceRegistry,
    file_path: &str,
    platform: Platform,
    canonical: Option<&str>,
) -> (r: Result<Vec<String>, LyricUpdateOutcome>)
    ensures
        match r {
            Ok(c) => resolution(registry@, file_path@, platform, opt_view(canonical)) matches Ok(parts)
                && parts.3 == PathKind::StdFs && c@.len() == 2 && c@[0]@ == with_extension(file_path@, "lrc"@)
                && c@[1]@ == with_extension(file_path@, "vtt"@),
            Err(o) => (resolution(registry@, file_path@, platform, opt_view(canonical)) is Err
                && o is SourceUnresolved) || (resolution(registry@, file_path@, platform, opt_view(canonical))
                matches Ok(parts) && parts.3 != PathKind::StdFs && o is NotWritable),
        },
{
    match registry.resolve(file_path, platform, canonical) {
        Err(_) => Err(LyricUpdateOutcome::SourceUnresolved),
        Ok(res) => {
            if res.path_kind != PathKind::StdFs {
                return Err(LyricUpdateOutcome::NotWritable);
            }
            Ok(lyric_candidate_paths(file_path))
        },
    }
}

/// How a lyric read went.
pub enum LyricReadOutcome {
    MusicMissing,
    DatabaseError,
    /// No lyric file beside the song.
    NotFound,
    /// Reading failed.
    ReadFailed,
    /// The lyric file's bytes.
    Found(Vec<u8>),
}

/// The status and body text answering a lyric read that found nothing to send.
pub open spec fn lyric_read_reply(o: LyricReadOutcome) -> (u16, Seq<char>) {
    match o {
        LyricReadOutcome::MusicMissing => (404, "Music not found"@),
        LyricReadOutcome::DatabaseError => (500, "Database error"@),
        LyricReadOutcome::NotFound => (404, "Lyrics not found"@),
        LyricReadOutcome::ReadFailed => (500, "Error reading lyrics"@),
        LyricReadOutcome::Found(_) => (200, Seq::empty()),
    }
}

/// The status and (for failures) body text answering a lyric read; found
/// lyrics are sent as they are, with the lyric headers.
pub fn lyric_read_status(outcome: &LyricReadOutcome) -> (r: (u16, &'static str))
    ensures
        !(outcome is Found) ==> (r.0, r.1@) == lyric_read_reply(*outcome),
        outcome is Found ==> r.0 == 200,
{
    match outcome {
        LyricReadOutcome::MusicMissing => (404, "Music not found"),
        LyricReadOutcome::DatabaseError => (500, "Database error"),
        LyricReadOutcome::NotFound => (404, "Lyrics not found"),
        LyricReadOutcome::ReadFailed => (500, "Error reading lyrics"),
        LyricReadOutcome::Found(_) => (200, ""),
    }
}

/// The content type of served lyrics.
pub const LYRIC_CONTENT_TYPE: &'static str = "text/plain; charset=utf-8";

/// The cache policy of served lyrics: never cached, so edits show at once.
pub const LYRIC_CACHE_CONTROL: &'static str = "no-store, no-cache, must-revalidate, max-age=0";

/// A request to save a chosen lyric beside a song.
pub struct ApplyLyricRequest {
    pub song_id: i32,
    pub lyric_selection: String,
}

/// The reply to applying a lyric.
pub struct ApplyLyricResponse {
    pub success: bool,
    pub message: String,
    pub lyric_filename: Option<String>,
}

/// How applying a lyric went.
pub enum ApplyLyricOutcome {
    /// The selection was blank.
    BlankSelection,
    /// No song has the id.
    SongMissing,
    /// The song could not be read from the library.
    SongLoadFailed,
    /// The lyric was written at this path.
    Saved(String),
    /// The provider had no usable lyric.
    NothingFound,
    /// Fetching or writing the lyric failed with this error.
    Failed(String),
}

/// The status, success flag and message answering each outcome: a failure
/// that is an invalid lyric id is the client's fault (400); any other
/// failure is the provider's (502).
pub open spec fn apply_lyric_reply(o: ApplyLyricOutcome) -> (u16, bool, Seq<char>) {
    match o {
        ApplyLyricOutcome::BlankSelection => (400, false, "缺少歌词选择"@),
        ApplyLyricOutcome::SongMissing => (404, false, "歌曲不存在"@),
        ApplyLyricOutcome::SongLoadFailed => (500, false, "读取歌曲信息失败"@),
        ApplyLyricOutcome::Saved(_) => (200, true, "歌词已保存"@),
        ApplyLyricOutcome::NothingFound => (404, false, "未获取到可用歌词"@),
        ApplyLyricOutcome::Failed(e) => if e@ == INVALID_LYRIC_ID@ {
            (400, false, e@)
        } else {
            (502, false, "歌词下载失败: "@ + e@)
        },
    }
}

/// Answers a request to apply a lyric: the status, and a reply naming the
/// lyric file when it was saved.
pub fn apply_lyric_response(outcome: ApplyLyricOutcome) -> (r: (u16, ApplyLyricResponse))
    ensures
        (r.0, r.1.success, r.1.message@) == apply_lyric_reply(outcome),
        match outcome {
            ApplyLyricOutcome::Saved(p) => opt_string_view(r.1.lyric_filename) == file_name(p@),
            _ => r.1.lyric_filename is None,
        },
{
    match outcome {
        ApplyLyricOutcome::BlankSelection => (
            400,
            ApplyLyricResponse { success: false, message: "缺少歌词选择".to_owned(), lyric_filename: None },
        ),
        ApplyLyricOutcome::SongMissing => (
            404,
            ApplyLyricResponse { success: false, message: "歌曲不存在".to_owned(), lyric_filename: None },
        ),
        ApplyLyricOutcome::SongLoadFailed => (
            500,
            ApplyLyricResponse { success: false, message: "读取歌曲信息失败".to_owned(), lyric_filename: None },
        ),
        ApplyLyricOutcome::Saved(p) => {
            let name = match file_name_chars(&chars_of(p.as_str())) {
                Some(n) => Some(string_of(&n)),
                None => None,
            };
            (200, ApplyLyricResponse { success: true, message: "歌词已保存".to_owned(), lyric_filename: name })
        },
        ApplyLyricOutcome::NothingFound => (
            404,
            ApplyLyricResponse { success: false, message: "未获取到可用歌词".to_owned(), lyric_filename: None },
        ),
        ApplyLyricOutcome::Failed(e) => {
            if str_eq(e.as_str(), INVALID_LYRIC_ID) {
                (400, ApplyLyricResponse { success: false, message: e, lyric_filename: None })
            } else {
                let mut out: Vec<char> = Vec::new();
                push_str(&mut out, "歌词下载失败: ");
                push_str(&mut out, e.as_str());
                (502, ApplyLyricResponse { success: false, message: string_of(&out), lyric_filename: None })
            }
        },
    }
}

/// Where a chosen lyric is written: the song's path with the `lrc` extension.
pub fn applied_lyric_path(audio_path: &str) -> (r: String)
    ensures
        r@ == with_extension(audio_path@, "lrc"@),
{
    proof {
        reveal_strlit("lrc");
        assert(!"lrc"@.contains('/')) by {
            assert forall|i: int| 0 <= i < 3 implies "lrc"@[i] != '/' by {}
        }
    }
    crate::paths::path_with_extension(audio_path, "lrc")
}

/// How looking a song up in the library went.
pub enum MusicLookup {
    /// The song, with its stored path.
    Found(String),
    /// No song has the id.
    Missing,
    /// The library could not be read.
    Failed,
}

/// How looking for the lyric file beside a song went.
pub enum LyricFileLookup {
    /// The lyric file at this path.
    Found(String),
    /// No lyric file.
    Missing,
    /// The lookup failed.
    Failed,
}

/// `r` is what [`lyric_write_candidates`] gives for the path `p`.
pub open spec fn candidates_outcome(
    sources: Seq<crate::sources::SourceKind>,
    p: Seq<char>,
    platform: Platform,
    canonical: Option<Seq<char>>,
    r: Result<Vec<String>, LyricUpdateOutcome>,
) -> bool {
    match r {
        Ok(c) => resolution(sources, p, platform, canonical) matches Ok(parts) && parts.3 == PathKind::StdFs
            && c@.len() == 2 && c@[0]@ == with_extension(p, "lrc"@) && c@[1]@ == with_extension(p, "vtt"@),
        Err(o) => (resolution(sources, p, platform, canonical) is Err && o is SourceUnresolved) || (resolution(
            sources,
            p,
            platform,
            canonical,
        ) matches Ok(parts) && parts.3 != PathKind::StdFs && o is NotWritable),
    }
}

/// `r` is what [`lyric_update_start`] gives: blank content is refused first;
/// then a missing song or an unreadable library; then [`candidates_outcome`].
pub open spec fn start_outcome(
    content: Seq<char>,
    music: MusicLookup,
    sources: Seq<crate::sources::SourceKind>,
    platform: Platform,
    canonical: Option<Seq<char>>,
    r: Result<Vec<String>, LyricUpdateOutcome>,
) -> bool {
    if trim(content).len() == 0 {
        r matches Err(LyricUpdateOutcome::BlankContent)
    } else {
        match music {
            MusicLookup::Missing => r matches Err(LyricUpdateOutcome::MusicMissing),
            MusicLookup::Failed => r matches Err(LyricUpdateOutcome::DatabaseError),
            MusicLookup::Found(p) => candidates_outcome(sources, p@, platform, canonical, r),
        }
    }
}

/// The first checks of a lyric update, in order: blank content is refused
/// before the song is looked up; then a missing song or an unreadable library;
/// then the song's lyric files must be writable. Gives the lyric files to look
/// for, or how the update ends.
pub fn lyric_update_start(
    content: &str,
    music: MusicLookup,
    registry: &SourceRegistry,
    platform: Platform,
    canonical: Option<&str>,
) -> (r: Result<Vec<String>, LyricUpdateOutcome>)
    ensures
        start_outcome(content@, music, registry@, platform, opt_view(canonical), r),
{
    if !lyric_content_ok(content) {
        return Err(LyricUpdateOutcome::BlankContent);
    }
    match music {
        MusicLookup::Missing => Err(LyricUpdateOutcome::MusicMissing),
        MusicLookup::Failed => Err(LyricUpdateOutcome::DatabaseError),
        MusicLookup::Found(p) => lyric_write_candidates(registry, p.as_str(), platform, canonical),
    }
}

/// `r` is how a lyric update ends for the lookup `existing` and whether the
/// write succeeded.
pub open spec fn end_outcome(existing: LyricFileLookup, written: bool, r: LyricUpdateOutcome) -> bool {
    match existing {
        LyricFileLookup::Found(p) => if written {
            r == LyricUpdateOutcome::Updated(p)
        } else {
            r is WriteFailed
        },
        LyricFileLookup::Missing => r is LyricsMissing,
        LyricFileLookup::Failed => r is LyricLookupFailed,
    }
}

/// How a lyric update ends once the lyric file was looked for and, when found,
/// written (`written`): replaced, not found, or failed.
pub fn lyric_update_end(existing: LyricFileLookup, written: bool) -> (r: LyricUpdateOutcome)
    ensures
        end_outcome(existing, written, r),
{
    match existing {
        LyricFileLookup::Found(p) => if written {
            LyricUpdateOutcome::Updated(p)
        } else {
            LyricUpdateOutcome::WriteFailed
        },
        LyricFileLookup::Missing => LyricUpdateOutcome::LyricsMissing,
        LyricFileLookup::Failed => LyricUpdateOutcome::LyricLookupFailed,
    }
}

/// What asking whether a lyric file exists returned.
pub enum ExistsCheck {
    Exists,
    Absent,
    Failed,
}

/// The position of the first check that is not `Absent`, if any.
pub open spec fn first_decided(checks: Seq<ExistsCheck>) -> Option<int>
    decreases checks.len(),
{
    if checks.len() == 0 {
        None
    } else if !(checks[0] is Absent) {
        Some(0)
    } else {
        match first_decided(checks.drop_first()) {
            Some(k) => Some(k + 1),
            None => None,
        }
    }
}

/// `r` is the lyric file found among `candidates` from the answers `checks`.
pub open spec fn lookup_outcome(candidates: Seq<String>, checks: Seq<ExistsCheck>, r: LyricFileLookup) -> bool {
    match first_decided(checks) {
        Some(k) => match checks[k] {
            ExistsCheck::Exists => r matches LyricFileLookup::Found(p) && p@ == candidates[k]@,
            _ => r is Failed,
        },
        None => r is Missing,
    }
}

/// The lyric file an update replaces: the candidates are asked about in order
/// (`checks[k]` for `candidates[k]`, stopping at the first that exists or whose
/// check fails); the first existing one is it, a failed check fails the lookup,
/// and none existing means there is no lyric file.
pub fn resolve_existing_lyric_path(candidates: &Vec<String>, checks: &Vec<ExistsCheck>) -> (r: LyricFileLookup)
    requires
        checks@.len() <= candidates@.len(),
    ensures
        lookup_outcome(candidates@, checks@, r),
{
    let mut i: usize = 0;
    assert(checks@.skip(0) =~= checks@);
    while i < checks.len()
        invariant
            i <= checks@.len() <= candidates@.len(),
            first_decided(checks@) == match first_decided(checks@.skip(i as int)) {
                Some(k) => Some(k + i),
                None => None,
            },
        decreases checks.len() - i,
    {
        assert(checks@.skip(i as int)[0] == checks@[i as int]);
        assert(checks@.skip(i as int).drop_first() =~= checks@.skip(i + 1));
        match &checks[i] {
            ExistsCheck::Exists => {
                return LyricFileLookup::Found(string_of(&chars_of(candidates[i].as_str())));
            },
            ExistsCheck::Failed => {
                return LyricFileLookup::Failed;
            },
            ExistsCheck::Absent => {},
        }
        i = i + 1;
    }
    LyricFileLookup::Missing
}

/// `r` is the write made for the lookup `existing`: the whole content into the
/// file found, or none.
pub open spec fn write_outcome(existing: LyricFileLookup, content: Seq<char>, r: Option<(String, String)>) -> bool {
    match existing {
        LyricFileLookup::Found(p) => r matches Some((path, text)) && path@ == p@ && text@ == content,
        _ => r is None,
    }
}

/// The write an update makes once the lyric file was looked for: the whole new
/// content, exactly as given, into the file found; none when no file was found.
pub fn lyric_write(existing: &LyricFileLookup, content: &str) -> (r: Option<(String, String)>)
    ensures
        write_outcome(*existing, content@, r),
{
    match existing {
        LyricFileLookup::Found(p) => Some((string_of(&chars_of(p.as_str())), string_of(&chars_of(content)))),
        _ => None,
    }
}

/// The reply status of a lyric update whose steps gave `start` and, when it
/// went on, `end`.
pub open spec fn lyric_update_status(start: Result<Vec<String>, LyricUpdateOutcome>, end: LyricUpdateOutcome) -> u16 {
    match start {
        Err(o) => lyric_update_reply(o).0,
        Ok(_) => lyric_update_reply(end).0,
    }
}

/// A lyric update, step by step: blank content is a bad request and nothing is
/// written; a missing song is not found; a song outside the local filesystem
/// is a conflict; when neither the `.lrc` nor the `.vtt` file beside a local
/// song exists, it is not found and nothing is written; otherwise the first of
/// them that exists is written with exactly the new content, and the update
/// succeeds when that write does.
pub proof fn law_lyric_update(
    content: Seq<char>,
    music: MusicLookup,
    sources: Seq<crate::sources::SourceKind>,
    platform: Platform,
    canonical: Option<Seq<char>>,
    start: Result<Vec<String>, LyricUpdateOutcome>,
    checks: Seq<ExistsCheck>,
    existing: LyricFileLookup,
    write: Option<(String, String)>,
    written: bool,
    end: LyricUpdateOutcome,
)
    requires
        start_outcome(content, music, sources, platform, canonical, start),
        start matches Ok(c) ==> checks.len() <= c@.len() && lookup_outcome(c@, checks, existing),
        write_outcome(existing, content, write),
        end_outcome(existing, written, end),
    ensures
        trim(content).len() == 0 ==> lyric_update_status(start, end) == 400 && start is Err,
        trim(content).len() > 0 && music is Missing ==> lyric_update_status(start, end) == 404,
        trim(content).len() > 0 && (music matches MusicLookup::Found(p) && resolution(sources, p@, platform, canonical)
            matches Ok(parts) && parts.3 != PathKind::StdFs) ==> lyric_update_status(start, end) == 409,
        trim(content).len() > 0 && (music matches MusicLookup::Found(p) && resolution(sources, p@, platform, canonical)
            matches Ok(parts) && parts.3 == PathKind::StdFs) ==> start is Ok && (checks =~= seq![
            ExistsCheck::Absent,
            ExistsCheck::Absent,
        ] ==> lyric_update_status(start, end) == 404 && write is None),
        trim(content).len() > 0 && (music matches MusicLookup::Found(p) && resolution(sources, p@, platform, canonical)
            matches Ok(parts) && parts.3 == PathKind::StdFs) && (first_decided(checks) matches Some(k)
            && checks[k] is Exists) ==> (write matches Some((path, text)) && text@ == content && (path@ == with_extension(
            music->Found_0@,
            "lrc"@,
        ) || path@ == with_extension(music->Found_0@, "vtt"@))) && (written ==> lyric_update_status(start, end)
            == 200),
{
    if checks =~= seq![ExistsCheck::Absent, ExistsCheck::Absent] {
        assert(checks.drop_first().drop_first() =~= Seq::<ExistsCheck>::empty());
        assert(first_decided(checks.drop_first().drop_first()) is None);
        assert(first_decided(checks.drop_first()) is None);
    }
    if first_decided(checks) matches Some(k) {
        lemma_first_decided_in_range(checks);
    }
}

proof fn lemma_first_decided_in_range(checks: Seq<ExistsCheck>)
    ensures
        first_decided(checks) matches Some(k) ==> 0 <= k < checks.len(),
    decreases checks.len(),
{
    if checks.len() > 0 {
        lemma_first_decided_in_range(checks.drop_first());
    }
}

} // verus!
