//! Online download sources: their names and status, preview identifiers, the
//! file names and URLs a download uses, and how a failed download is explained.
use vstd::prelude::*;
use crate::filenames::opt_view;
use crate::http::{parse_u64, parse_u64_spec};
use crate::lyrics::{join, join_strings, lines, lines_view, split_lines, strings_view};
use crate::paths::{
    has_parent_component, has_parent_dir, join_chars_path, join_path, path_segments, segments, split_chars, split_on,
    starts_cur_dir, starts_root,
};
use crate::lyrics::slice_chars;
use crate::remote::opt_string_view;
use crate::text::{
    chars_contain_seq, chars_of, contains_seq, decimal, has_prefix, push_decimal, push_str,
    str_starts_with, string_of, trim, trim_chars, chars_eq,
};

verus! {

/// The platform the server runs on, where behaviour differs between them.
#[derive(Clone, Copy, Debug, PartialEq, Eq, Structural)]
pub enum Platform {
    Desktop,
    Android,
}

/// Where a download comes from.
#[derive(Clone, Copy, Debug, PartialEq, Eq, Structural)]
pub enum DownloadSource {
    Youtube,
    Netease,
    Bilibili,
    Import,
}

impl DownloadSource {
    /// The lowercase name of the source.
    pub open spec fn name(self) -> Seq<char> {
        match self {
            DownloadSource::Youtube => "youtube"@,
            DownloadSource::Netease => "netease"@,
            DownloadSource::Bilibili => "bilibili"@,
            DownloadSource::Import => "import"@,
        }
    }

    /// The lowercase name of the source, as the API spells it.
    pub fn as_str(self) -> (r: &'static str)
        ensures
            r@ == self.name(),
    {
        match self {
            DownloadSource::Youtube => "youtube",
            DownloadSource::Netease => "netease",
            DownloadSource::Bilibili => "bilibili",
            DownloadSource::Import => "import",
        }
    }
}

/// A preview built by a provider: where the file went and how it is shown.
pub struct PreviewBuildResult {
    pub source: DownloadSource,
    pub file_name: String,
    pub absolute_path: String,
    pub cover_url: Option<String>,
    pub synthetic_id: i32,
}

/// A finished download: the file and the cover art to embed.
pub struct FullDownloadResult {
    pub final_path: String,
    pub cover_url: Option<String>,
}

/// Whether a provider may be used, and the line shown about it.
pub struct OnlineProviderStatus {
    pub source: DownloadSource,
    pub enabled: bool,
    pub summary: String,
}

/// The YouTube provider.
pub struct YoutubeProvider;

/// The Netease Cloud Music provider.
pub struct NeteaseProvider;

/// The Bilibili provider.
pub struct BilibiliProvider;

impl YoutubeProvider {
    /// The provider.
    pub fn new() -> (r: YoutubeProvider) {
        YoutubeProvider
    }

    /// The source this provider serves.
    pub fn source(&self) -> (r: DownloadSource)
        ensures
            r == DownloadSource::Youtube,
    {
        DownloadSource::Youtube
    }

    /// The status line, given whether a cookie file with a cookie is configured.
    pub fn status_summary(cookies_configured: bool) -> (r: &'static str)
        ensures
            r@ == (if cookies_configured {
                "YouTube cookies configured"@
            } else {
                "YouTube cookies not configured"@
            }),
    {
        if cookies_configured {
            "YouTube cookies configured"
        } else {
            "YouTube cookies not configured"
        }
    }
}

impl NeteaseProvider {
    /// The provider.
    pub fn new() -> (r: NeteaseProvider) {
        NeteaseProvider
    }

    /// The source this provider serves.
    pub fn source(&self) -> (r: DownloadSource)
        ensures
            r == DownloadSource::Netease,
    {
        DownloadSource::Netease
    }

    /// The status line, given whether a logged-in session is stored.
    pub fn status_summary(logged_in: bool) -> (r: &'static str)
        ensures
            r@ == (if logged_in {
                "Netease session available"@
            } else {
                "Netease login required"@
            }),
    {
        if logged_in {
            "Netease session available"
        } else {
            "Netease login required"
        }
    }
}

impl BilibiliProvider {
    /// The provider.
    pub fn new() -> (r: BilibiliProvider) {
        BilibiliProvider
    }

    /// The source this provider serves.
    pub fn source(&self) -> (r: DownloadSource)
        ensures
            r == DownloadSource::Bilibili,
    {
        DownloadSource::Bilibili
    }

    /// The status line, given whether a logged-in session is stored.
    pub fn status_summary(logged_in: bool) -> (r: &'static str)
        ensures
            r@ == (if logged_in {
                "Bilibili session available"@
            } else {
                "Bilibili login required"@
            }),
    {
        if logged_in {
            "Bilibili session available"
        } else {
            "Bilibili login required"
        }
    }
}

/// The status of every provider, in their fixed order (YouTube, Netease,
/// Bilibili), from what was found about each: whether the YouTube cookie file
/// holds a cookie line, and whether Netease and Bilibili sessions are logged in.
pub fn build_online_provider_statuses(youtube_cookies: bool, netease_logged_in: bool, bilibili_logged_in: bool) -> (r: Vec<OnlineProviderStatus>)
    ensures
        r@.len() == 3,
        r@[0].source == DownloadSource::Youtube && r@[0].enabled == youtube_cookies,
        r@[1].source == DownloadSource::Netease && r@[1].enabled == netease_logged_in,
        r@[2].source == DownloadSource::Bilibili && r@[2].enabled == bilibili_logged_in,
        r@[0].summary@ == (if youtube_cookies {
            "YouTube cookies configured"@
        } else {
            "YouTube cookies not configured"@
        }),
        r@[1].summary@ == (if netease_logged_in {
            "Netease session available"@
        } else {
            "Netease login required"@
        }),
        r@[2].summary@ == (if bilibili_logged_in {
            "Bilibili session available"@
        } else {
            "Bilibili login required"@
        }),
{
    let mut r: Vec<OnlineProviderStatus> = Vec::new();
    r.push(
        OnlineProviderStatus {
            source: DownloadSource::Youtube,
            enabled: youtube_cookies,
            summary: YoutubeProvider::status_summary(youtube_cookies).to_owned(),
        },
    );
    r.push(
        OnlineProviderStatus {
            source: DownloadSource::Netease,
            enabled: netease_logged_in,
            summary: NeteaseProvider::status_summary(netease_logged_in).to_owned(),
        },
    );
    r.push(
        OnlineProviderStatus {
            source: DownloadSource::Bilibili,
            enabled: bilibili_logged_in,
            summary: BilibiliProvider::status_summary(bilibili_logged_in).to_owned(),
        },
    );
    r
}

/// A cookie-jar line that carries a cookie: after trimming, not empty and not
/// a `#` comment.
pub open spec fn cookie_line(line: Seq<char>) -> bool {
    let t = trim(line);
    t.len() > 0 && t[0] != '#'
}

/// Whether a Netscape cookie jar holds at least one cookie line; without one the
/// YouTube provider stays disabled.
pub fn has_cookie_line(contents: &str) -> (r: bool)
    ensures
        r == exists|i: int| 0 <= i < lines(contents@).len() && cookie_line(#[trigger] lines(contents@)[i]),
{
    let v = chars_of(contents);
    let ls = split_lines(&v);
    let ghost all = lines(contents@);
    let mut i: usize = 0;
    while i < ls.len()
        invariant
            i <= ls.len(),
            lines_view(ls@) == all,
            all == lines(contents@),
            forall|j: int| 0 <= j < i ==> !cookie_line(#[trigger] all[j]),
        decreases ls.len() - i,
    {
        let t = trim_chars(&ls[i]);
        assert(ls@[i as int]@ == all[i as int]);
        if t.len() > 0 && t[0] != '#' {
            assert(cookie_line(all[i as int]));
            return true;
        }
        i = i + 1;
    }
    false
}

/// Whether the YouTube cookie file may be handed to the downloader: its text is
/// not blank.
pub fn cookie_file_usable(contents: &str) -> (r: bool)
    ensures
        r == (trim(contents@).len() > 0),
{
    let v = chars_of(contents);
    trim_chars(&v).len() > 0
}

/// The outcome of checking the YouTube signature-solver's JavaScript packages:
/// fine when both `meriyah` and `astring` are installed; otherwise the setup
/// command to run (`npm ci` when a lock file is present).
pub open spec fn solver_check(solver_dir: Seq<char>, meriyah: bool, astring: bool, lock_file: bool) -> Result<(), Seq<char>> {
    if meriyah && astring {
        Ok(())
    } else {
        Err(
            "missing ytdl-audio solver dependencies under "@ + solver_dir + ". Run `"@ + (if lock_file {
                "npm ci --no-fund --no-audit"@
            } else {
                "npm install --no-fund --no-audit"@
            }) + "` during setup before starting the server"@,
        )
    }
}

/// Judges the solver directory `solver_dir` from which of its files exist:
/// `node_modules/meriyah/package.json`, `node_modules/astring/package.json` and
/// `package-lock.json`.
pub fn ensure_ytdl_solver_dependencies_in_dir(solver_dir: &str, meriyah: bool, astring: bool, lock_file: bool) -> (r: Result<(), String>)
    ensures
        match r {
            Ok(()) => solver_check(solver_dir@, meriyah, astring, lock_file) is Ok,
            Err(m) => solver_check(solver_dir@, meriyah, astring, lock_file) == Err::<(), Seq<char>>(m@),
        },
{
    if meriyah && astring {
        return Ok(());
    }
    let command = if lock_file {
        "npm ci --no-fund --no-audit"
    } else {
        "npm install --no-fund --no-audit"
    };
    let mut out: Vec<char> = Vec::new();
    push_str(&mut out, "missing ytdl-audio solver dependencies under ");
    push_str(&mut out, solver_dir);
    push_str(&mut out, ". Run `");
    push_str(&mut out, command);
    push_str(&mut out, "` during setup before starting the server");
    Err(string_of(&out))
}

/// The solver packages' files, relative to the solver directory.
pub const MERIYAH_MANIFEST: &'static str = "node_modules/meriyah/package.json";

/// See [`MERIYAH_MANIFEST`].
pub const ASTRING_MANIFEST: &'static str = "node_modules/astring/package.json";

/// The lock file whose presence selects `npm ci`.
pub const SOLVER_LOCK_FILE: &'static str = "package-lock.json";

/// The `PATH` to set so that the bundled FFmpeg is found: on Android, the
/// FFmpeg directory goes in front of a non-empty `PATH` that does not already
/// list it, or becomes the whole `PATH`; elsewhere, and when no directory is
/// known, `PATH` is left alone (`None`).
pub open spec fn ffmpeg_path(platform: Platform, ffmpeg_dir: Option<Seq<char>>, current: Option<Seq<char>>) -> Option<Seq<char>> {
    match (platform, ffmpeg_dir) {
        (Platform::Android, Some(dir)) => match current {
            Some(p) => if p.len() > 0 {
                if split_on(p, ':').contains(dir) {
                    None
                } else {
                    Some(dir + ":"@ + p)
                }
            } else {
                Some(dir)
            },
            None => Some(dir),
        },
        _ => None,
    }
}

/// Decides the process `PATH` for FFmpeg, from the platform, the bundled FFmpeg
/// directory (when known) and the current `PATH` (when set).
pub fn configure_ffmpeg_path_for_process(platform: Platform, ffmpeg_dir: Option<&str>, current: Option<&str>) -> (r: Option<String>)
    ensures
        opt_string_view(r) == ffmpeg_path(platform, opt_view(ffmpeg_dir), opt_view(current)),
{
    if platform != Platform::Android {
        return None;
    }
    let dir = match ffmpeg_dir {
        None => {
            return None;
        },
        Some(d) => d,
    };
    match current {
        Some(p) => {
            let pv = chars_of(p);
            if pv.len() > 0 {
                let dv = chars_of(dir);
                let entries = split_chars(&pv, ':');
                let mut i: usize = 0;
                while i < entries.len()
                    invariant
                        i <= entries.len(),
                        lines_view(entries@) == split_on(p@, ':'),
                        dv@ == dir@,
                        platform == Platform::Android,
                        ffmpeg_dir == Some(dir),
                        current == Some(p),
                        p@.len() > 0,
                        forall|j: int| 0 <= j < i ==> (#[trigger] entries@[j])@ != dir@,
                    decreases entries.len() - i,
                {
                    if chars_eq(&entries[i], &dv) {
                        assert(lines_view(entries@)[i as int] == entries@[i as int]@);
                        assert(split_on(p@, ':')[i as int] == dir@);
                        assert(split_on(p@, ':').contains(dir@));
                        return None;
                    }
                    i = i + 1;
                }
                assert(!split_on(p@, ':').contains(dir@)) by {
                    if split_on(p@, ':').contains(dir@) {
                        let k = choose|k: int| 0 <= k < split_on(p@, ':').len() && split_on(p@, ':')[k] == dir@;
                        assert(lines_view(entries@)[k] == entries@[k]@);
                        assert(entries@[k]@ == dir@);
                    }
                }
                let mut out: Vec<char> = Vec::new();
                push_str(&mut out, dir);
                push_str(&mut out, ":");
                push_str(&mut out, p);
                Some(string_of(&out))
            } else {
                Some(string_of(&chars_of(dir)))
            }
        },
        None => Some(string_of(&chars_of(dir))),
    }
}

/// The djb2 hash of a byte string (start at 5381; for each byte, times 33 plus
/// the byte), in wrapping 64-bit arithmetic.
pub open spec fn djb2(bytes: Seq<u8>) -> u64
    decreases bytes.len(),
{
    if bytes.len() == 0 {
        5381
    } else {
        vstd::wrapping::u64_specs::wrapping_add(
            vstd::wrapping::u64_specs::wrapping_mul(djb2(bytes.drop_last()), 33),
            bytes.last() as u64,
        )
    }
}

/// The djb2 hash of the UTF-8 bytes of `value`.
pub fn simple_hash(value: &str) -> (r: u64)
    ensures
        r == djb2(vstd::utf8::encode_utf8(value@)),
{
    let bytes = value.as_bytes();
    let mut acc: u64 = 5381;
    let mut i: usize = 0;
    while i < bytes.len()
        invariant
            i <= bytes.len(),
            acc == djb2(bytes@.take(i as int)),
        decreases bytes.len() - i,
    {
        assert(bytes@.take(i + 1).drop_last() =~= bytes@.take(i as int));
        acc = acc.wrapping_mul(33).wrapping_add(bytes[i] as u64);
        i = i + 1;
    }
    assert(bytes@.take(bytes.len() as int) =~= bytes@);
    acc
}

/// The identifier of a preview built from a Netease id: the hash reduced below
/// `i32::MAX`, negated, so that it never collides with a library id.
pub open spec fn preview_id(hash: u64) -> int {
    -((hash % 2147483647) as int)
}

/// The negative identifier given to a Netease preview.
pub fn synthetic_preview_id(value: &str) -> (r: i32)
    ensures
        r as int == preview_id(djb2(vstd::utf8::encode_utf8(value@))),
{
    let h = simple_hash(value);
    let bounded = h % 2147483647;
    let positive = bounded as i32;
    -positive
}

/// The identifier given to YouTube and Bilibili previews: the hash cut to 32
/// bits, made non-negative and negated.
pub open spec fn truncated_preview_id(hash: u64) -> int {
    let t = hash as i32;
    if t < 0 {
        t as int
    } else {
        -(t as int)
    }
}

/// The negative identifier given to a YouTube or Bilibili preview. A hash whose
/// low 32 bits are `i32::MIN` has no absolute value in 32 bits and is left out.
pub fn truncated_hash_preview_id(value: &str) -> (r: i32)
    requires
        djb2(vstd::utf8::encode_utf8(value@)) as i32 != i32::MIN,
    ensures
        r as int == truncated_preview_id(djb2(vstd::utf8::encode_utf8(value@))),
{
    let t = simple_hash(value) as i32;
    if t < 0 {
        t
    } else {
        -t
    }
}

/// The file extension a Bilibili download keeps when FFmpeg is not run on it.
pub const BILIBILI_RAW_AUDIO_EXTENSION: &'static str = "m4s";

/// Whether Bilibili audio is stored as downloaded, without an FFmpeg pass: on
/// Android.
pub fn should_skip_bilibili_ffmpeg(platform: Platform) -> (r: bool)
    ensures
        r == (platform == Platform::Android),
{
    platform == Platform::Android
}

/// The extension of a Bilibili download: the raw one where FFmpeg is skipped,
/// `mp3` otherwise.
pub fn bilibili_audio_extension(platform: Platform) -> (r: &'static str)
    ensures
        r@ == (if platform == Platform::Android {
            "m4s"@
        } else {
            "mp3"@
        }),
{
    if should_skip_bilibili_ffmpeg(platform) {
        BILIBILI_RAW_AUDIO_EXTENSION
    } else {
        "mp3"
    }
}

/// A protocol-relative URL (`//host/...`) made absolute with `https:`.
pub fn normalize_remote_url(url: &str) -> (r: String)
    ensures
        r@ == (if has_prefix(url@, "//"@) {
            "https:"@ + url@
        } else {
            url@
        }),
{
    if str_starts_with(url, "//") {
        let mut out: Vec<char> = Vec::new();
        push_str(&mut out, "https:");
        push_str(&mut out, url);
        string_of(&out)
    } else {
        string_of(&chars_of(url))
    }
}

/// The text outside `<...>` tags: `<` opens a tag, `>` closes it, and the
/// brackets themselves are dropped.
pub open spec fn strip_tags_from(s: Seq<char>, in_tag: bool) -> Seq<char>
    decreases s.len(),
{
    if s.len() == 0 {
        Seq::empty()
    } else if s[0] == '<' {
        strip_tags_from(s.drop_first(), true)
    } else if s[0] == '>' {
        strip_tags_from(s.drop_first(), false)
    } else if in_tag {
        strip_tags_from(s.drop_first(), true)
    } else {
        seq![s[0]] + strip_tags_from(s.drop_first(), false)
    }
}

/// Removes HTML tags (such as search-hit highlighting) from a title.
pub fn strip_html_tags(text: &str) -> (r: String)
    ensures
        r@ == strip_tags_from(text@, false),
{
    let v = chars_of(text);
    let mut out: Vec<char> = Vec::new();
    let mut in_tag = false;
    let mut i: usize = 0;
    assert(v@.skip(0) =~= v@);
    assert(out@ + strip_tags_from(v@, false) =~= strip_tags_from(v@, false));
    while i < v.len()
        invariant
            i <= v.len(),
            v@ == text@,
            strip_tags_from(text@, false) == out@ + strip_tags_from(v@.skip(i as int), in_tag),
        decreases v.len() - i,
    {
        let ghost rest = v@.skip(i as int);
        assert(rest.drop_first() =~= v@.skip(i + 1));
        let c = v[i];
        if c == '<' {
            in_tag = true;
        } else if c == '>' {
            in_tag = false;
        } else if !in_tag {
            out.push(c);
            assert(out@ + strip_tags_from(v@.skip(i + 1), false) =~= out@.drop_last() + (seq![c]
                + strip_tags_from(v@.skip(i + 1), false)));
        }
        i = i + 1;
    }
    assert(v@.skip(v.len() as int) =~= Seq::<char>::empty());
    assert(out@ + Seq::<char>::empty() =~= out@);
    string_of(&out)
}

/// A duration in milliseconds as `minutes:seconds`, seconds in two digits.
pub open spec fn duration_text(duration_ms: u64) -> Seq<char> {
    let total = duration_ms as nat / 1000;
    let seconds = total % 60;
    decimal(total / 60) + ":"@ + (if seconds < 10 {
        "0"@ + decimal(seconds)
    } else {
        decimal(seconds)
    })
}

/// Formats a track duration for search results.
pub fn format_duration_ms(duration_ms: u64) -> (r: String)
    ensures
        r@ == duration_text(duration_ms),
{
    let total_seconds = duration_ms / 1000;
    let minutes = total_seconds / 60;
    let seconds = total_seconds % 60;
    let mut out: Vec<char> = Vec::new();
    push_decimal(&mut out, minutes);
    push_str(&mut out, ":");
    if seconds < 10 {
        push_str(&mut out, "0");
    }
    push_decimal(&mut out, seconds);
    string_of(&out)
}

/// Some entry of `ws` contains `pat`.
pub open spec fn any_contains(ws: Seq<Seq<char>>, pat: Seq<char>) -> bool {
    exists|i: int| 0 <= i < ws.len() && contains_seq(#[trigger] ws[i], pat)
}

fn some_entry_contains(ws: &Vec<String>, pat: &str) -> (r: bool)
    ensures
        r == any_contains(strings_view(ws@), pat@),
{
    let p = chars_of(pat);
    let mut i: usize = 0;
    while i < ws.len()
        invariant
            i <= ws.len(),
            p@ == pat@,
            forall|j: int| 0 <= j < i ==> !contains_seq(#[trigger] strings_view(ws@)[j], pat@),
        decreases ws.len() - i,
    {
        let w = chars_of(ws[i].as_str());
        if chars_contain_seq(&w, &p) {
            assert(contains_seq(strings_view(ws@)[i as int], pat@));
            return true;
        }
        i = i + 1;
    }
    false
}

/// The message for a Netease download that failed at every quality: an expired
/// login (API code 301) first, then a missing login, then a refusal (code 403),
/// then an unavailable track, else a generic failure; the attempts' errors
/// follow, joined with ` | `.
pub open spec fn netease_failure_text(logged_in: bool, failures: Seq<Seq<char>>) -> Seq<char> {
    let details = join(failures, " | "@);
    if any_contains(failures, "API error (code 301)"@) {
        "网易云登录已失效，请重新登录。详情: "@ + details
    } else if !logged_in {
        "当前网易云未登录，部分歌曲需要登录后才能下载。详情: "@ + details
    } else if any_contains(failures, "API error (code 403)"@) {
        "网易云拒绝提供该歌曲，可能需要 VIP 或受地区限制。详情: "@ + details
    } else if any_contains(failures, "track unavailable"@) {
        "网易云未返回可用音频地址，可能是 VIP、版权或地区限制。详情: "@ + details
    } else {
        "网易云下载失败。详情: "@ + details
    }
}

/// Explains why a Netease download failed, from the login state and the error
/// of each attempt.
pub fn explain_netease_failure(logged_in: bool, failures: &Vec<String>) -> (r: String)
    ensures
        r@ == netease_failure_text(logged_in, strings_view(failures@)),
{
    let details = join_strings(failures, " | ");
    let head = if some_entry_contains(failures, "API error (code 301)") {
        "网易云登录已失效，请重新登录。详情: "
    } else if !logged_in {
        "当前网易云未登录，部分歌曲需要登录后才能下载。详情: "
    } else if some_entry_contains(failures, "API error (code 403)") {
        "网易云拒绝提供该歌曲，可能需要 VIP 或受地区限制。详情: "
    } else if some_entry_contains(failures, "track unavailable") {
        "网易云未返回可用音频地址，可能是 VIP、版权或地区限制。详情: "
    } else {
        "网易云下载失败。详情: "
    };
    let mut out: Vec<char> = Vec::new();
    push_str(&mut out, head);
    push_str(&mut out, details.as_str());
    string_of(&out)
}

/// The qualities a Netease download tries, best first.
#[derive(Clone, Copy, Debug, PartialEq, Eq, Structural)]
pub enum NeteaseQuality {
    Exhigh,
    Higher,
    Standard,
}

impl NeteaseQuality {
    /// The quality's name, as attempt errors are labelled with it.
    pub open spec fn label(self) -> Seq<char> {
        match self {
            NeteaseQuality::Exhigh => "Exhigh"@,
            NeteaseQuality::Higher => "Higher"@,
            NeteaseQuality::Standard => "Standard"@,
        }
    }

    /// The quality's name.
    pub fn as_str(self) -> (r: &'static str)
        ensures
            r@ == self.label(),
    {
        match self {
            NeteaseQuality::Exhigh => "Exhigh",
            NeteaseQuality::Higher => "Higher",
            NeteaseQuality::Standard => "Standard",
        }
    }
}

/// The quality of the `k`-th attempt: `Exhigh`, then `Higher`, then
/// `Standard`.
pub open spec fn fallback_quality(k: int) -> NeteaseQuality {
    if k == 0 {
        NeteaseQuality::Exhigh
    } else if k == 1 {
        NeteaseQuality::Higher
    } else {
        NeteaseQuality::Standard
    }
}

/// The number of qualities tried.
pub const NETEASE_QUALITY_ATTEMPTS: usize = 3;

/// The quality of the `k`-th attempt.
pub fn netease_fallback_quality(k: usize) -> (r: NeteaseQuality)
    requires
        k < NETEASE_QUALITY_ATTEMPTS,
    ensures
        r == fallback_quality(k as int),
{
    if k == 0 {
        NeteaseQuality::Exhigh
    } else if k == 1 {
        NeteaseQuality::Higher
    } else {
        NeteaseQuality::Standard
    }
}

/// The error text of each attempt (empty for a success).
pub open spec fn outcome_errors(outcomes: Seq<Result<(), String>>) -> Seq<Seq<char>> {
    outcomes.map_values(
        |o: Result<(), String>|
            match o {
                Ok(_) => Seq::empty(),
                Err(e) => e@,
            },
    )
}

/// The failures recorded for failed attempts: `{quality}: {error}`.
pub open spec fn attempt_failures(errors: Seq<Seq<char>>) -> Seq<Seq<char>> {
    Seq::new(errors.len(), |k: int| fallback_quality(k).label() + ": "@ + errors[k])
}

/// Settles a Netease download from the outcomes of its attempts, one per
/// quality in fallback order up to the first success: the quality that
/// succeeded, or the explanation of every failure.
pub fn netease_fallback_result(outcomes: &Vec<Result<(), String>>, logged_in: bool) -> (r: Result<NeteaseQuality, String>)
    requires
        outcomes@.len() <= NETEASE_QUALITY_ATTEMPTS,
    ensures
        match r {
            Ok(q) => exists|k: int|
                0 <= k < outcomes@.len() && outcomes@[k] is Ok && q == fallback_quality(k) && forall|j: int|
                    0 <= j < k ==> outcomes@[j] is Err,
            Err(m) => (forall|k: int| 0 <= k < outcomes@.len() ==> outcomes@[k] is Err) && m@
                == netease_failure_text(logged_in, attempt_failures(outcome_errors(outcomes@))),
        },
{
    let mut failures: Vec<String> = Vec::new();
    let mut i: usize = 0;
    while i < outcomes.len()
        invariant
            i <= outcomes@.len() <= NETEASE_QUALITY_ATTEMPTS,
            forall|j: int| 0 <= j < i ==> outcomes@[j] is Err,
            strings_view(failures@) == attempt_failures(outcome_errors(outcomes@).take(i as int)),
        decreases outcomes.len() - i,
    {
        let quality = netease_fallback_quality(i);
        match &outcomes[i] {
            Ok(()) => {
                return Ok(quality);
            },
            Err(e) => {
                let ghost before = strings_view(failures@);
                let mut line: Vec<char> = Vec::new();
                push_str(&mut line, quality.as_str());
                push_str(&mut line, ": ");
                push_str(&mut line, e.as_str());
                failures.push(string_of(&line));
                proof {
                    assert(outcome_errors(outcomes@)[i as int] == e@);
                    assert(strings_view(failures@) =~= before.push(line@));
                    assert(attempt_failures(outcome_errors(outcomes@).take(i + 1)) =~= attempt_failures(
                        outcome_errors(outcomes@).take(i as int),
                    ).push(fallback_quality(i as int).label() + ": "@ + e@));
                }
            },
        }
        i = i + 1;
    }
    assert(outcome_errors(outcomes@).take(outcomes@.len() as int) =~= outcome_errors(outcomes@));
    Err(explain_netease_failure(logged_in, &failures))
}

/// The artists of a track, joined with `, `.
pub fn join_artists(names: &Vec<String>) -> (r: String)
    ensures
        r@ == join(strings_view(names@), ", "@),
{
    join_strings(names, ", ")
}

/// `a` followed by `b`.
fn concat(a: &str, b: &str) -> (r: String)
    ensures
        r@ == a@ + b@,
{
    let mut out: Vec<char> = Vec::new();
    push_str(&mut out, a);
    push_str(&mut out, b);
    string_of(&out)
}

/// `a`, `b`, then `c`.
fn concat3(a: &str, b: &str, c: &str) -> (r: String)
    ensures
        r@ == a@ + b@ + c@,
{
    let mut out: Vec<char> = Vec::new();
    push_str(&mut out, a);
    push_str(&mut out, b);
    push_str(&mut out, c);
    string_of(&out)
}

/// The page of a YouTube video.
pub fn youtube_watch_url(video_id: &str) -> (r: String)
    ensures
        r@ == "https://www.youtube.com/watch?v="@ + video_id@,
{
    concat("https://www.youtube.com/watch?v=", video_id)
}

/// The thumbnail of a YouTube video.
pub fn youtube_thumbnail_url(video_id: &str) -> (r: String)
    ensures
        r@ == "https://i.ytimg.com/vi/"@ + video_id@ + "/hqdefault.jpg"@,
{
    concat3("https://i.ytimg.com/vi/", video_id, "/hqdefault.jpg")
}

/// The token naming a preview file: `preview-{source}-{unique}`.
pub fn preview_token(source: DownloadSource, unique: &str) -> (r: String)
    ensures
        r@ == "preview-"@ + source.name() + "-"@ + unique@,
{
    let mut out: Vec<char> = Vec::new();
    push_str(&mut out, "preview-");
    push_str(&mut out, source.as_str());
    push_str(&mut out, "-");
    push_str(&mut out, unique);
    string_of(&out)
}

/// A file name made of a stem and an extension: `{stem}.{ext}`.
pub fn file_name_with_extension(stem: &str, ext: &str) -> (r: String)
    ensures
        r@ == stem@ + "."@ + ext@,
{
    concat3(stem, ".", ext)
}

/// The name a preview is listed under: the title, with the artist in brackets
/// when one was given.
pub fn preview_display_name(title: &str, artist: Option<&str>) -> (r: String)
    ensures
        r@ == (match artist {
            Some(a) => if a@.len() == 0 {
                title@
            } else {
                title@ + " ["@ + a@ + "]"@
            },
            None => title@,
        }),
{
    match artist {
        Some(a) => {
            if a.unicode_len() == 0 {
                string_of(&chars_of(title))
            } else {
                let mut out: Vec<char> = Vec::new();
                push_str(&mut out, title);
                push_str(&mut out, " [");
                push_str(&mut out, a);
                push_str(&mut out, "]");
                string_of(&out)
            }
        },
        None => string_of(&chars_of(title)),
    }
}

/// Where a preview file is streamed from: `{host}/api/download/preview/{file}`.
pub fn preview_stream_url(host: &str, file_name: &str) -> (r: String)
    ensures
        r@ == host@ + "/api/download/preview/"@ + file_name@,
{
    concat3(host, "/api/download/preview/", file_name)
}

/// A requested preview file name is served only when it holds no path
/// separator.
pub fn is_valid_preview_name(requested: &str) -> (r: bool)
    ensures
        r == (!requested@.contains('/') && !requested@.contains('\\')),
{
    let v = chars_of(requested);
    !crate::text::chars_contain(&v, '/') && !crate::text::chars_contain(&v, '\\')
}

/// A Netease track id: the text as a decimal `u64`, or the message shown for an
/// id that is not one.
pub fn parse_netease_track_id(id: &str) -> (r: Result<u64, String>)
    ensures
        match r {
            Ok(n) => parse_u64_spec(id@) == Some(n),
            Err(m) => parse_u64_spec(id@) is None && m@ == "无效的网易云歌曲 ID"@,
        },
{
    match parse_u64(&chars_of(id)) {
        Some(n) => Ok(n),
        None => Err("无效的网易云歌曲 ID".to_owned()),
    }
}

/// The reply to a track download request.
pub struct DownloadTrackResponse {
    pub success: bool,
    pub message: String,
    pub filename: Option<String>,
    pub lyric_filename: Option<String>,
    pub warning: Option<String>,
}

/// The reply refusing a download request with `message`.
pub fn rejected_download_response(message: String) -> (r: DownloadTrackResponse)
    ensures
        !r.success,
        r.message == message,
        r.filename is None,
        r.lyric_filename is None,
        r.warning is None,
{
    DownloadTrackResponse {
        success: false,
        message,
        filename: None,
        lyric_filename: None,
        warning: None,
    }
}

/// A warning added to those already gathered, after a `；`.
pub open spec fn with_warning(current: Option<Seq<char>>, warning: Seq<char>) -> Option<Seq<char>> {
    match current {
        Some(w) => Some(w + "；"@ + warning),
        None => Some(warning),
    }
}

/// Adds `warning` to the warnings gathered so far.
pub fn append_warning(current: &mut Option<String>, warning: String)
    ensures
        opt_string_view(*final(current)) == with_warning(opt_string_view(*old(current)), warning@),
{
    let joined = match current {
        Some(existing) => {
            let mut out: Vec<char> = Vec::new();
            push_str(&mut out, existing.as_str());
            push_str(&mut out, "；");
            push_str(&mut out, warning.as_str());
            string_of(&out)
        },
        None => warning,
    };
    *current = Some(joined);
}

/// The components `Path::components` yields, with the root written `/` and a
/// leading current-directory component written `.`.
pub open spec fn components(p: Seq<char>) -> Seq<Seq<char>> {
    (if starts_root(p) {
        seq![seq!['/']]
    } else if starts_cur_dir(p) {
        seq![seq!['.']]
    } else {
        Seq::empty()
    }) + segments(p)
}

/// `Path::starts_with`: the components of `base` begin those of `p`.
pub open spec fn path_has_prefix(p: Seq<char>, base: Seq<char>) -> bool {
    components(base).len() <= components(p).len() && components(p).take(
        components(base).len() as int,
    ) == components(base)
}

pub(crate) fn path_components(v: &[char]) -> (r: Vec<Vec<char>>)
    ensures
        lines_view(r@) == components(v@),
{
    let ghost lead: Seq<Seq<char>> = if starts_root(v@) {
        seq![seq!['/']]
    } else if starts_cur_dir(v@) {
        seq![seq!['.']]
    } else {
        Seq::empty()
    };
    let mut out: Vec<Vec<char>> = Vec::new();
    if v.len() > 0 && v[0] == '/' {
        let mut root: Vec<char> = Vec::new();
        root.push('/');
        out.push(root);
        assert(lines_view(out@) =~= lead);
    } else if (v.len() == 1 && v[0] == '.') || (v.len() >= 2 && v[0] == '.' && v[1] == '/') {
        let mut cur: Vec<char> = Vec::new();
        cur.push('.');
        out.push(cur);
        proof {
            if v@.len() >= 2 {
                assert(v@.take(2) =~= seq!['.', '/']);
            } else {
                assert(v@ =~= seq!['.']);
            }
        }
        assert(lines_view(out@) =~= lead);
    } else {
        proof {
            if v@ == seq!['.'] {
                assert(v@.len() == 1 && v@[0] == '.');
            }
            if has_prefix(v@, seq!['.', '/']) {
                assert(v@.take(2)[0] == '.' && v@.take(2)[1] == '/');
            }
        }
        assert(lines_view(out@) =~= lead);
    }
    let segs = path_segments(v);
    let mut i: usize = 0;
    while i < segs.len()
        invariant
            i <= segs.len(),
            lines_view(segs@) == segments(v@),
            lines_view(out@) == lead + segments(v@).take(i as int),
        decreases segs.len() - i,
    {
        let ghost before = lines_view(out@);
        let copy = slice_chars(&segs[i], 0, segs[i].len());
        assert(copy@ =~= segs@[i as int]@);
        assert(lines_view(segs@)[i as int] == segs@[i as int]@);
        out.push(copy);
        assert(lines_view(out@) =~= before.push(copy@));
        assert(segments(v@).take(i + 1) =~= segments(v@).take(i as int).push(segments(v@)[i as int]));
        assert(lines_view(out@) =~= lead + segments(v@).take(i + 1));
        i = i + 1;
    }
    assert(segments(v@).take(segs.len() as int) =~= segments(v@));
    out
}

/// Whether the path `p` lies under `base`, component by component.
pub fn path_starts_with(p: &str, base: &str) -> (r: bool)
    ensures
        r == path_has_prefix(p@, base@),
{
    let pc = path_components(&chars_of(p));
    let bc = path_components(&chars_of(base));
    if bc.len() > pc.len() {
        return false;
    }
    let mut i: usize = 0;
    while i < bc.len()
        invariant
            bc.len() <= pc.len(),
            i <= bc.len(),
            lines_view(pc@) == components(p@),
            lines_view(bc@) == components(base@),
            forall|j: int| 0 <= j < i ==> components(p@)[j] == components(base@)[j],
        decreases bc.len() - i,
    {
        if !chars_eq(&pc[i], &bc[i]) {
            assert(components(p@).take(bc.len() as int)[i as int] != components(base@)[i as int]);
            return false;
        }
        i = i + 1;
    }
    assert(components(p@).take(bc.len() as int) =~= components(base@));
    true
}

/// The directory a download or import is asked to go to: the download root
/// itself for an absent or blank subdirectory, else the trimmed subdirectory
/// joined onto it; a `..` component anywhere refuses it.
pub open spec fn requested_dir(base: Seq<char>, subdir: Option<Seq<char>>) -> Result<Seq<char>, Seq<char>> {
    let s = match subdir {
        Some(x) => trim(x),
        None => Seq::empty(),
    };
    let p = if s.len() == 0 {
        base
    } else {
        join_path(base, s)
    };
    if has_parent_component(p) {
        Err("目标目录不能包含上级路径"@)
    } else {
        Ok(p)
    }
}

/// Resolves the requested target directory against the download root, before
/// it is created.
pub fn requested_target_dir(base: &str, target_subdir: Option<&str>) -> (r: Result<String, String>)
    ensures
        match r {
            Ok(p) => requested_dir(base@, opt_view(target_subdir)) == Ok::<Seq<char>, Seq<char>>(p@),
            Err(m) => requested_dir(base@, opt_view(target_subdir)) == Err::<Seq<char>, Seq<char>>(m@),
        },
{
    let s: Vec<char> = match target_subdir {
        Some(x) => trim_chars(&chars_of(x)),
        None => Vec::new(),
    };
    let b = chars_of(base);
    let p: Vec<char> = if s.len() == 0 {
        b
    } else {
        join_chars_path(&b, &s)
    };
    if has_parent_dir(&p) {
        return Err("目标目录不能包含上级路径".to_owned());
    }
    Ok(string_of(&p))
}

/// The check made once the directory exists: its canonical form must lie under
/// the canonical download root.
pub fn check_target_within_root(root_canonical: &str, target_canonical: &str) -> (r: Result<(), String>)
    ensures
        r is Ok <==> path_has_prefix(target_canonical@, root_canonical@),
        r matches Err(m) ==> m@ == "目标目录必须位于下载目录内"@,
{
    if path_starts_with(target_canonical, root_canonical) {
        Ok(())
    } else {
        Err("目标目录必须位于下载目录内".to_owned())
    }
}

} // verus!
