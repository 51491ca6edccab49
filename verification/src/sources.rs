//! Where a stored path is read from: the registry of file sources (the local
//! filesystem, and content-URI adapters registered by the Android shell), how
//! a path resolves to one of them, what each can do, and what a library scan
//! records for a file.
use vstd::prelude::*;
use crate::download::Platform;
use crate::filenames::opt_view;
use crate::media::is_supported_extension;
use crate::paths::{extension, extension_of_path, file_name, file_name_chars, path_with_extension, with_extension};
use crate::remote::opt_string_view;
use crate::text::{chars_of, has_prefix, push_str, str_starts_with, string_of, unicode_lowercase};

verus! {

/// How a resolved path is reached.
#[derive(Clone, Copy, Debug, PartialEq, Eq, Structural)]
pub enum PathKind {
    StdFs,
    AndroidMediaStoreContent,
}

/// A stored path resolved to its source.
pub struct ResolvedPath {
    pub source_id: &'static str,
    pub raw_path: String,
    pub normalized_path: String,
    pub path_kind: PathKind,
}

/// A music file found by a scan.
pub struct MusicFileInfo {
    /// File path or content URI.
    pub path: String,
    /// Display file name.
    pub filename: String,
    pub title: Option<String>,
    pub artist: Option<String>,
    pub album: Option<String>,
    pub duration_ms: Option<i64>,
    /// Name of the directory holding the file (for folder playlists).
    pub parent_dir: Option<String>,
}

/// A registered source: the local filesystem, or a content source built from
/// whichever of the three adapters (file reader, music lister, lyric reader)
/// the shell supplied.
#[derive(Clone, Copy, Debug, PartialEq, Eq, Structural)]
pub enum SourceKind {
    StdFs,
    CompatContent { file_reader: bool, music_lister: bool, lyric_reader: bool },
}

/// A path under Android's scoped storage.
pub open spec fn scoped_storage(p: Seq<char>) -> bool {
    has_prefix(p, "/storage"@) || has_prefix(p, "/sdcard"@)
}

/// Which paths a source claims: content sources take `content://` URIs (and,
/// on Android, scoped-storage paths); the filesystem takes the rest.
pub open spec fn claims(kind: SourceKind, p: Seq<char>, platform: Platform) -> bool {
    let content = has_prefix(p, "content://"@);
    let scoped = platform == Platform::Android && scoped_storage(p);
    match kind {
        SourceKind::StdFs => !content && !scoped,
        SourceKind::CompatContent { .. } => content || scoped,
    }
}

/// Whether a source claims a path.
pub fn source_claims(kind: SourceKind, p: &str, platform: Platform) -> (r: bool)
    ensures
        r == claims(kind, p@, platform),
{
    let content = str_starts_with(p, "content://");
    let scoped = platform == Platform::Android && (str_starts_with(p, "/storage") || str_starts_with(
        p,
        "/sdcard",
    ));
    match kind {
        SourceKind::StdFs => !content && !scoped,
        SourceKind::CompatContent { .. } => content || scoped,
    }
}

/// The registered sources, searched in order of registration.
pub struct SourceRegistry {
    sources: Vec<SourceKind>,
}

impl View for SourceRegistry {
    type V = Seq<SourceKind>;

    closed spec fn view(&self) -> Seq<SourceKind> {
        self.sources@
    }
}

/// The first source, from position `i` on, that claims the path.
pub open spec fn first_claim_from(sources: Seq<SourceKind>, p: Seq<char>, platform: Platform, i: int) -> Option<int>
    decreases sources.len() - i,
{
    if i < 0 || i >= sources.len() {
        None
    } else if claims(sources[i], p, platform) {
        Some(i)
    } else {
        first_claim_from(sources, p, platform, i + 1)
    }
}

/// The first registered source that claims the path.
pub open spec fn first_claim(sources: Seq<SourceKind>, p: Seq<char>, platform: Platform) -> Option<int> {
    first_claim_from(sources, p, platform, 0)
}

/// The identifier of a source.
pub open spec fn source_id(kind: SourceKind) -> Seq<char> {
    match kind {
        SourceKind::StdFs => "std-fs"@,
        SourceKind::CompatContent { .. } => "compat-content"@,
    }
}

/// How a source's paths are reached.
pub open spec fn source_path_kind(kind: SourceKind) -> PathKind {
    match kind {
        SourceKind::StdFs => PathKind::StdFs,
        SourceKind::CompatContent { .. } => PathKind::AndroidMediaStoreContent,
    }
}

/// A path as a source normalizes it: the filesystem uses the canonical path
/// when it could be had; content sources keep the path as it is.
pub open spec fn normalized(kind: SourceKind, p: Seq<char>, canonical: Option<Seq<char>>) -> Seq<char> {
    match kind {
        SourceKind::StdFs => match canonical {
            Some(c) => c,
            None => p,
        },
        SourceKind::CompatContent { .. } => p,
    }
}

/// How a path resolves: to the first source claiming it, with that source's
/// id, normalization and path kind; or to an error naming the path.
pub open spec fn resolution(
    sources: Seq<SourceKind>,
    p: Seq<char>,
    platform: Platform,
    canonical: Option<Seq<char>>,
) -> Result<(Seq<char>, Seq<char>, Seq<char>, PathKind), Seq<char>> {
    match first_claim(sources, p, platform) {
        Some(i) => Ok((source_id(sources[i]), p, normalized(sources[i], p, canonical), source_path_kind(sources[i]))),
        None => Err("No source registered for path: "@ + p),
    }
}

/// The parts of a resolved path.
pub open spec fn resolved_parts(r: ResolvedPath) -> (Seq<char>, Seq<char>, Seq<char>, PathKind) {
    (r.source_id@, r.raw_path@, r.normalized_path@, r.path_kind)
}

fn own(s: &str) -> (r: String)
    ensures
        r@ == s@,
{
    string_of(&chars_of(s))
}

impl SourceRegistry {
    /// The registry at start-up: the local filesystem only.
    pub fn new() -> (r: SourceRegistry)
        ensures
            r@ == seq![SourceKind::StdFs],
    {
        let mut sources: Vec<SourceKind> = Vec::new();
        sources.push(SourceKind::StdFs);
        SourceRegistry { sources }
    }

    /// Adds a source after those already registered.
    pub fn register(&mut self, source: SourceKind)
        ensures
            final(self)@ == old(self)@.push(source),
    {
        self.sources.push(source);
    }

    /// Resolves a path (with its canonical form, when it could be had) to the
    /// first registered source that claims it.
    pub fn resolve(&self, raw_path: &str, platform: Platform, canonical: Option<&str>) -> (r: Result<
        ResolvedPath,
        String,
    >)
        ensures
            match r {
                Ok(res) => resolution(self@, raw_path@, platform, opt_view(canonical)) == Ok::<
                    (Seq<char>, Seq<char>, Seq<char>, PathKind),
                    Seq<char>,
                >(resolved_parts(res)),
                Err(e) => resolution(self@, raw_path@, platform, opt_view(canonical)) == Err::<
                    (Seq<char>, Seq<char>, Seq<char>, PathKind),
                    Seq<char>,
                >(e@),
            },
    {
        let mut i: usize = 0;
        while i < self.sources.len()
            invariant
                i <= self.sources.len(),
                first_claim(self@, raw_path@, platform) == first_claim_from(self@, raw_path@, platform, i as int),
            decreases self.sources.len() - i,
        {
            let kind = self.sources[i];
            if source_claims(kind, raw_path, platform) {
                let id: &'static str = match kind {
                    SourceKind::StdFs => "std-fs",
                    SourceKind::CompatContent { .. } => "compat-content",
                };
                let path_kind = match kind {
                    SourceKind::StdFs => PathKind::StdFs,
                    SourceKind::CompatContent { .. } => PathKind::AndroidMediaStoreContent,
                };
                let normalized_path = match kind {
                    SourceKind::StdFs => match canonical {
                        Some(c) => own(c),
                        None => own(raw_path),
                    },
                    SourceKind::CompatContent { .. } => own(raw_path),
                };
                return Ok(ResolvedPath { source_id: id, raw_path: own(raw_path), normalized_path, path_kind });
            }
            i = i + 1;
        }
        let mut out: Vec<char> = Vec::new();
        push_str(&mut out, "No source registered for path: ");
        push_str(&mut out, raw_path);
        Err(string_of(&out))
    }
}

/// Resolves a stored path against the registry.
pub fn resolve_path(registry: &SourceRegistry, raw_path: &str, platform: Platform, canonical: Option<&str>) -> (r:
    Result<ResolvedPath, String>)
    ensures
        match r {
            Ok(res) => resolution(registry@, raw_path@, platform, opt_view(canonical)) == Ok::<
                (Seq<char>, Seq<char>, Seq<char>, PathKind),
                Seq<char>,
            >(resolved_parts(res)),
            Err(e) => resolution(registry@, raw_path@, platform, opt_view(canonical)) == Err::<
                (Seq<char>, Seq<char>, Seq<char>, PathKind),
                Seq<char>,
            >(e@),
        },
{
    registry.resolve(raw_path, platform, canonical)
}

/// A path as its source normalizes it, or the path itself when no source claims
/// it.
pub open spec fn normalized_path(
    sources: Seq<SourceKind>,
    p: Seq<char>,
    platform: Platform,
    canonical: Option<Seq<char>>,
) -> Seq<char> {
    match resolution(sources, p, platform, canonical) {
        Ok(parts) => parts.2,
        Err(_) => p,
    }
}

/// Normalizes a stored path for comparison.
pub fn normalize_path(registry: &SourceRegistry, raw_path: &str, platform: Platform, canonical: Option<&str>) -> (r:
    String)
    ensures
        r@ == normalized_path(registry@, raw_path@, platform, opt_view(canonical)),
{
    match registry.resolve(raw_path, platform, canonical) {
        Ok(res) => res.normalized_path,
        Err(_) => own(raw_path),
    }
}

/// Registers a content source that can only read files.
pub fn set_file_reader(registry: &mut SourceRegistry) -> (r: Result<(), ()>)
    ensures
        r is Ok,
        final(registry)@ == old(registry)@.push(
            SourceKind::CompatContent { file_reader: true, music_lister: false, lyric_reader: false },
        ),
{
    registry.register(SourceKind::CompatContent { file_reader: true, music_lister: false, lyric_reader: false });
    Ok(())
}

/// Registers a content source that can only list music.
pub fn set_music_file_lister(registry: &mut SourceRegistry) -> (r: Result<(), ()>)
    ensures
        r is Ok,
        final(registry)@ == old(registry)@.push(
            SourceKind::CompatContent { file_reader: false, music_lister: true, lyric_reader: false },
        ),
{
    registry.register(SourceKind::CompatContent { file_reader: false, music_lister: true, lyric_reader: false });
    Ok(())
}

/// Registers a content source that can only read lyrics.
pub fn set_lyric_reader(registry: &mut SourceRegistry) -> (r: Result<(), ()>)
    ensures
        r is Ok,
        final(registry)@ == old(registry)@.push(
            SourceKind::CompatContent { file_reader: false, music_lister: false, lyric_reader: true },
        ),
{
    registry.register(SourceKind::CompatContent { file_reader: false, music_lister: false, lyric_reader: true });
    Ok(())
}

/// Registers one content source holding all three Android adapters, so that
/// every operation on a scoped path reaches the adapter that can do it.
pub fn set_android_sources(registry: &mut SourceRegistry)
    ensures
        final(registry)@ == old(registry)@.push(
            SourceKind::CompatContent { file_reader: true, music_lister: true, lyric_reader: true },
        ),
{
    registry.register(SourceKind::CompatContent { file_reader: true, music_lister: true, lyric_reader: true });
}

/// An operation asked of a source.
#[derive(Clone, Copy, Debug, PartialEq, Eq, Structural)]
pub enum SourceOp {
    ReadFile,
    ReadStream,
    ReadStreamFrom,
    FileSize,
    SeekableReader,
    Exists,
    ListMusic,
    ReadLyric,
    CreateDir,
    RemoveFile,
    WriteFile,
    WriteStream,
}

/// What a source can do: the filesystem everything; a content source reads
/// through its file reader, lists through its music lister and reads lyrics
/// through its lyric reader, and never writes.
pub open spec fn supports(kind: SourceKind, op: SourceOp) -> bool {
    match kind {
        SourceKind::StdFs => true,
        SourceKind::CompatContent { file_reader, music_lister, lyric_reader } => match op {
            SourceOp::ListMusic => music_lister,
            SourceOp::ReadLyric => lyric_reader,
            SourceOp::CreateDir | SourceOp::RemoveFile | SourceOp::WriteFile | SourceOp::WriteStream => false,
            _ => file_reader,
        },
    }
}

/// Whether a source can perform an operation; otherwise it fails as
/// unsupported.
pub fn source_supports(kind: SourceKind, op: SourceOp) -> (r: bool)
    ensures
        r == supports(kind, op),
{
    match kind {
        SourceKind::StdFs => true,
        SourceKind::CompatContent { file_reader, music_lister, lyric_reader } => match op {
            SourceOp::ListMusic => music_lister,
            SourceOp::ReadLyric => lyric_reader,
            SourceOp::CreateDir | SourceOp::RemoveFile | SourceOp::WriteFile | SourceOp::WriteStream => false,
            _ => file_reader,
        },
    }
}

/// The message of an operation a content source cannot do.
pub const UNSUPPORTED_OPERATION: &'static str = "operation not supported by compatibility content source";

/// The lyric files looked for beside a song, in order: `.lrc`, then `.vtt`.
pub fn lyric_candidate_paths(file_path: &str) -> (r: Vec<String>)
    ensures
        r@.len() == 2,
        r@[0]@ == with_extension(file_path@, "lrc"@),
        r@[1]@ == with_extension(file_path@, "vtt"@),
{
    proof {
        reveal_strlit("lrc");
        reveal_strlit("vtt");
    }
    let mut r: Vec<String> = Vec::new();
    r.push(path_with_extension(file_path, "lrc"));
    r.push(path_with_extension(file_path, "vtt"));
    r
}

/// What a scan records for a file at `path` (canonical form `canonical`, when
/// it could be had) inside a directory named `dir_name`: files whose
/// lowercased extension belongs to an enabled media type, under their file
/// name.
pub open spec fn scanned_file(
    path: Seq<char>,
    canonical: Option<Seq<char>>,
    dir_name: Option<Seq<char>>,
    media_types: Seq<String>,
) -> Option<(Seq<char>, Seq<char>, Option<Seq<char>>)> {
    match (extension(path), file_name(path)) {
        (Some(e), Some(n)) => if crate::media::supported_for(unicode_lowercase(e), media_types) {
            Some(
                (
                    match canonical {
                        Some(c) => c,
                        None => path,
                    },
                    n,
                    dir_name,
                ),
            )
        } else {
            None
        },
        _ => None,
    }
}

/// The record a scan makes of a file, if its type is enabled.
pub fn scan_entry(path: &str, canonical: Option<&str>, dir_name: Option<&str>, media_types: &[String]) -> (r:
    Option<MusicFileInfo>)
    ensures
        match r {
            Some(info) => scanned_file(path@, opt_view(canonical), opt_view(dir_name), media_types@) == Some(
                (info.path@, info.filename@, opt_string_view(info.parent_dir)),
            ) && info.title is None && info.artist is None && info.album is None && info.duration_ms is None,
            None => scanned_file(path@, opt_view(canonical), opt_view(dir_name), media_types@) is None,
        },
{
    let v = chars_of(path);
    let ext = match extension_of_path(&v) {
        Some(e) => e,
        None => {
            return None;
        },
    };
    let name = match file_name_chars(&v) {
        Some(n) => n,
        None => {
            return None;
        },
    };
    let e = string_of(&ext);
    let lower = crate::text::to_lowercase(e.as_str());
    if !is_supported_extension(lower.as_str(), media_types) {
        return None;
    }
    let stored = match canonical {
        Some(c) => own(c),
        None => own(path),
    };
    let parent = match dir_name {
        Some(d) => Some(own(d)),
        None => None,
    };
    Some(
        MusicFileInfo {
            path: stored,
            filename: string_of(&name),
            title: None,
            artist: None,
            album: None,
            duration_ms: None,
            parent_dir: parent,
        },
    )
}

/// A content URI is never changed by normalization, whichever sources are
/// registered: content sources keep paths as they are, and the filesystem
/// never claims one.
pub proof fn law_content_uri_normalizes_to_itself(
    sources: Seq<SourceKind>,
    p: Seq<char>,
    platform: Platform,
    canonical: Option<Seq<char>>,
)
    requires
        has_prefix(p, "content://"@),
    ensures
        normalized_path(sources, p, platform, canonical) == p,
{
    lemma_first_claim_from(sources, p, platform, 0);
}

/// The first claim found from `i` on is a source at or after `i` that claims
/// the path, with none before it from `i`.
pub proof fn lemma_first_claim_from(sources: Seq<SourceKind>, p: Seq<char>, platform: Platform, i: int)
    requires
        0 <= i,
    ensures
        first_claim_from(sources, p, platform, i) matches Some(k) ==> (0 <= i <= k < sources.len()
            && claims(sources[k], p, platform) && forall|j: int| i <= j < k ==> !claims(#[trigger] sources[j], p, platform)),
        first_claim_from(sources, p, platform, i) is None ==> forall|j: int|
            i <= j < sources.len() ==> !claims(#[trigger] sources[j], p, platform),
    decreases sources.len() - i,
{
    if 0 <= i < sources.len() && !claims(sources[i], p, platform) {
        lemma_first_claim_from(sources, p, platform, i + 1);
    }
}

/// With only the start-up registry (the local filesystem), a `content://` URI
/// has no source, and on a desktop every other path resolves to the local
/// filesystem, as given and normalized to its canonical form when that could be
/// had.
pub proof fn law_default_registry_resolution(p: Seq<char>, platform: Platform, canonical: Option<Seq<char>>)
    ensures
        has_prefix(p, "content://"@) ==> resolution(seq![SourceKind::StdFs], p, platform, canonical) is Err,
        !has_prefix(p, "content://"@) ==> resolution(seq![SourceKind::StdFs], p, Platform::Desktop, canonical)
            == Ok::<(Seq<char>, Seq<char>, Seq<char>, PathKind), Seq<char>>(
            (
                "std-fs"@,
                p,
                match canonical {
                    Some(c) => c,
                    None => p,
                },
                PathKind::StdFs,
            ),
        ),
{
    let reg = seq![SourceKind::StdFs];
    assert(first_claim_from(reg, p, platform, 1) is None);
    assert(first_claim_from(reg, p, Platform::Desktop, 1) is None);
}

/// Registering a music lister (a content source), whatever was registered
/// before: every `content://` URI then resolves to a content source, kept as it
/// is; and on a desktop, how every other path resolves does not change.
pub proof fn law_lister_registration_serves_content(
    sources: Seq<SourceKind>,
    u: Seq<char>,
    p: Seq<char>,
    platform: Platform,
    canonical: Option<Seq<char>>,
)
    requires
        has_prefix(u, "content://"@),
    ensures
        resolution(
            sources.push(SourceKind::CompatContent { file_reader: false, music_lister: true, lyric_reader: false }),
            u,
            platform,
            canonical,
        ) == Ok::<(Seq<char>, Seq<char>, Seq<char>, PathKind), Seq<char>>(
            ("compat-content"@, u, u, PathKind::AndroidMediaStoreContent),
        ),
        !has_prefix(p, "content://"@) ==> resolution(
            sources.push(SourceKind::CompatContent { file_reader: false, music_lister: true, lyric_reader: false }),
            p,
            Platform::Desktop,
            canonical,
        ) == resolution(sources, p, Platform::Desktop, canonical),
{
    let added = SourceKind::CompatContent { file_reader: false, music_lister: true, lyric_reader: false };
    law_registration_keeps_earlier_claims(sources, added, u, platform, canonical);
    law_registration_keeps_earlier_claims(sources, added, p, Platform::Desktop, canonical);
    lemma_first_claim_from(sources, u, platform, 0);
    if let Some(k) = first_claim(sources, u, platform) {
        assert(claims(sources[k], u, platform));
        assert(sources[k] is CompatContent);
    }
    lemma_first_claim_from(sources, p, Platform::Desktop, 0);
    if first_claim(sources, p, Platform::Desktop) is None && !has_prefix(p, "content://"@) {
        lemma_push_first_claim(sources, added, p, Platform::Desktop, 0);
        lemma_first_claim_from(sources.push(added), p, Platform::Desktop, 0);
        assert(!claims(added, p, Platform::Desktop));
        if let Some(k) = first_claim(sources.push(added), p, Platform::Desktop) {
            if k < sources.len() {
                assert(sources.push(added)[k] == sources[k]);
            }
        }
    }
}

/// A path resolves to the first registered source that claims it: once a
/// source is registered, paths it claims that no earlier source claimed
/// resolve to it, and everything else resolves as before.
pub proof fn law_registration_keeps_earlier_claims(
    sources: Seq<SourceKind>,
    added: SourceKind,
    p: Seq<char>,
    platform: Platform,
    canonical: Option<Seq<char>>,
)
    ensures
        first_claim(sources, p, platform) is Some ==> resolution(sources.push(added), p, platform, canonical)
            == resolution(sources, p, platform, canonical),
        first_claim(sources, p, platform) is None && claims(added, p, platform) ==> resolution(
            sources.push(added),
            p,
            platform,
            canonical,
        ) == Ok::<(Seq<char>, Seq<char>, Seq<char>, PathKind), Seq<char>>(
            (source_id(added), p, normalized(added, p, canonical), source_path_kind(added)),
        ),
{
    lemma_push_first_claim(sources, added, p, platform, 0);
    lemma_first_claim_from(sources, p, platform, 0);
    if let Some(k) = first_claim(sources, p, platform) {
        assert(sources.push(added)[k] == sources[k]);
    }
    assert(sources.push(added)[sources.len() as int] == added);
}

proof fn lemma_push_first_claim(sources: Seq<SourceKind>, added: SourceKind, p: Seq<char>, platform: Platform, i: int)
    requires
        0 <= i <= sources.len(),
    ensures
        first_claim_from(sources, p, platform, i) is Some ==> first_claim_from(sources.push(added), p, platform, i)
            == first_claim_from(sources, p, platform, i),
        first_claim_from(sources, p, platform, i) is None && claims(added, p, platform) ==> first_claim_from(
            sources.push(added),
            p,
            platform,
            i,
        ) == Some(sources.len() as int),
    decreases sources.len() - i,
{
    if i < sources.len() {
        assert(sources.push(added)[i] == sources[i]);
        lemma_push_first_claim(sources, added, p, platform, i + 1);
    } else {
        assert(sources.push(added)[i] == added);
    }
}

} // verus!
