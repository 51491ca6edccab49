//! Importing songs from another Kaulan server: the remote API base, which
//! addresses may be contacted, the per-item decisions and the job's outcome.
use vstd::prelude::*;
use crate::download::{requested_dir, requested_target_dir};
use crate::finalize::{lyric_sidecar_path, sidecar_path};
use crate::filenames::{first_bad_item, item_name, opt_view, validate_import_item_filenames, ImportRemoteItem};
use crate::lyrics::{join, join_strings, strings_view};
use crate::media::{content_type_extension, content_type_to_extension, is_listed, listed, SUPPORTED_EXTENSIONS};
use crate::text::{chars_of, decimal, has_suffix, push_decimal, push_signed_decimal, push_str, signed_decimal, string_of, trim, trim_chars, trim_end_char};

verus! {

/// The parts of a parsed URL that the import reads: the scheme, the host as
/// `Url::host_str` gives it, the port or the scheme's default port, and the
/// serialization.
pub struct UrlParts {
    pub scheme: String,
    pub host: Option<String>,
    pub port: Option<u16>,
    pub serialized: String,
}

/// The characters of an optional string.
pub open spec fn opt_string_view(o: Option<String>) -> Option<Seq<char>> {
    match o {
        Some(s) => Some(s@),
        None => None,
    }
}

impl View for UrlParts {
    type V = (Seq<char>, Option<Seq<char>>, Option<u16>, Seq<char>);

    open spec fn view(&self) -> Self::V {
        (self.scheme@, opt_string_view(self.host), self.port, self.serialized@)
    }
}

/// Name for what `url::Url::parse` (re-exported as `reqwest::Url`) makes of
/// `input`: `None` where it reports an error, otherwise the scheme, host, port
/// (or known default) and serialization of the parsed URL.
pub uninterp spec fn url_parse(input: Seq<char>) -> Option<(Seq<char>, Option<Seq<char>>, Option<u16>, Seq<char>)>;

/// `reqwest::Url::parse`, taken apart with `scheme`, `host_str`,
/// `port_or_known_default` and `to_string`. The parser is the `url` crate's;
/// the contract only ties the parts to `input` through [`url_parse`].
#[verifier::external_body]
fn parse_url(input: &str) -> (r: Option<UrlParts>)
    ensures
        match r {
            Some(p) => url_parse(input@) == Some(p@),
            None => url_parse(input@) is None,
        },
{
    match reqwest::Url::parse(input) {
        Ok(url) => Some(UrlParts {
            scheme: url.scheme().to_owned(),
            host: url.host_str().map(str::to_owned),
            port: url.port_or_known_default(),
            serialized: url.to_string(),
        }),
        Err(_) => None,
    }
}

/// Why a remote API base is refused; the texts are shown to the user.
pub open spec fn base_from_parts(parts: Option<(Seq<char>, Option<Seq<char>>, Option<u16>, Seq<char>)>) -> Result<
    Seq<char>,
    Seq<char>,
> {
    match parts {
        None => Err("远端服务器地址无效"@),
        Some((scheme, host, _port, serialized)) => {
            if scheme != "http"@ && scheme != "https"@ {
                Err("远端服务器地址必须是 http 或 https"@)
            } else if host matches Some(h) && h.len() > 0 {
                Ok(trim_end_char(serialized, '/'))
            } else {
                Err("远端服务器地址缺少主机名"@)
            }
        },
    }
}

/// The remote API base accepted for an import: the trimmed input must not be
/// empty and must parse as an `http` or `https` URL with a host; it is used in
/// its serialized form without trailing slashes.
pub open spec fn remote_base(raw: Seq<char>) -> Result<Seq<char>, Seq<char>> {
    let t = trim(raw);
    if t.len() == 0 {
        Err("缺少远端服务器地址"@)
    } else {
        base_from_parts(url_parse(t))
    }
}

/// `s` without trailing copies of `c`.
fn strip_trailing(v: &[char], c: char) -> (r: Vec<char>)
    ensures
        r@ == trim_end_char(v@, c),
{
    let mut end: usize = v.len();
    assert(v@.take(v.len() as int) =~= v@);
    while end > 0 && v[end - 1] == c
        invariant
            end <= v.len(),
            trim_end_char(v@, c) == trim_end_char(v@.take(end as int), c),
        decreases end,
    {
        assert(v@.take(end as int).drop_last() =~= v@.take(end - 1));
        end = end - 1;
    }
    let mut r: Vec<char> = Vec::new();
    let mut k: usize = 0;
    while k < end
        invariant
            k <= end <= v.len(),
            r@ == v@.take(k as int),
        decreases end - k,
    {
        r.push(v[k]);
        assert(v@.take(k as int).push(v@[k as int]) =~= v@.take(k + 1));
        k = k + 1;
    }
    r
}

/// Judges the parsed form of a remote API base (`None` where it did not parse).
pub fn remote_base_from_parts(parts: Option<UrlParts>) -> (r: Result<String, String>)
    ensures
        match r {
            Ok(b) => base_from_parts(
                match parts {
                    Some(p) => Some(p@),
                    None => None,
                },
            ) == Ok::<Seq<char>, Seq<char>>(b@),
            Err(e) => base_from_parts(
                match parts {
                    Some(p) => Some(p@),
                    None => None,
                },
            ) == Err::<Seq<char>, Seq<char>>(e@),
        },
{
    match parts {
        None => Err("远端服务器地址无效".to_owned()),
        Some(p) => {
            let scheme = chars_of(p.scheme.as_str());
            let http = chars_of("http");
            let https = chars_of("https");
            if !crate::text::chars_eq(&scheme, &http) && !crate::text::chars_eq(&scheme, &https) {
                return Err("远端服务器地址必须是 http 或 https".to_owned());
            }
            match p.host {
                Some(h) => {
                    if h.as_str().unicode_len() == 0 {
                        return Err("远端服务器地址缺少主机名".to_owned());
                    }
                },
                None => {
                    return Err("远端服务器地址缺少主机名".to_owned());
                },
            }
            let serialized = chars_of(p.serialized.as_str());
            let stripped = strip_trailing(&serialized, '/');
            Ok(string_of(&stripped))
        },
    }
}

/// Validates and normalizes the API base of the server to import from.
pub fn validate_remote_api_base(raw: &str) -> (r: Result<String, String>)
    ensures
        match r {
            Ok(b) => remote_base(raw@) == Ok::<Seq<char>, Seq<char>>(b@),
            Err(e) => remote_base(raw@) == Err::<Seq<char>, Seq<char>>(e@),
        },
{
    let v = chars_of(raw);
    let t = trim_chars(&v);
    if t.len() == 0 {
        return Err("缺少远端服务器地址".to_owned());
    }
    let trimmed = string_of(&t);
    let parts = parse_url(trimmed.as_str());
    remote_base_from_parts(parts)
}

/// An IP address, by its octets (IPv4) or its sixteen-bit segments (IPv6).
#[derive(Clone, Copy, Debug)]
pub enum IpAddress {
    V4([u8; 4]),
    V6([u16; 8]),
}

/// An IPv4 address refused as an import source: link-local `169.254.0.0/16`
/// (where cloud metadata lives), unspecified `0.0.0.0`, and loopback
/// `127.0.0.0/8` when loopback is blocked.
pub open spec fn blocked_v4(o: Seq<u8>, block_loopback: bool) -> bool {
    ||| o[0] == 169 && o[1] == 254
    ||| o[0] == 0 && o[1] == 0 && o[2] == 0 && o[3] == 0
    ||| block_loopback && o[0] == 127
}

/// The IPv4 address that an IPv4-mapped IPv6 address `::ffff:a.b.c.d` stands for.
pub open spec fn mapped_v4(s: Seq<u16>) -> Option<Seq<u8>> {
    if s[0] == 0 && s[1] == 0 && s[2] == 0 && s[3] == 0 && s[4] == 0 && s[5] == 0xffff {
        Some(seq![(s[6] / 256) as u8, (s[6] % 256) as u8, (s[7] / 256) as u8, (s[7] % 256) as u8])
    } else {
        None
    }
}

/// An IPv6 address refused as an import source: unicast link-local `fe80::/10`,
/// unspecified `::`, loopback `::1` when loopback is blocked, and the
/// IPv4-mapped form of a refused IPv4 address.
pub open spec fn blocked_v6(s: Seq<u16>, block_loopback: bool) -> bool {
    ||| 0xfe80 <= s[0] <= 0xfebf
    ||| (forall|i: int| 0 <= i < 8 ==> s[i] == 0)
    ||| block_loopback && (forall|i: int| 0 <= i < 7 ==> s[i] == 0) && s[7] == 1
    ||| (mapped_v4(s) matches Some(o) && blocked_v4(o, block_loopback))
}

/// An address the import refuses to contact. Private (RFC 1918, ULA) ranges stay
/// allowed: importing from another server on the LAN is what the import is for.
pub open spec fn blocked(ip: IpAddress, block_loopback: bool) -> bool {
    match ip {
        IpAddress::V4(o) => blocked_v4(o@, block_loopback),
        IpAddress::V6(s) => blocked_v6(s@, block_loopback),
    }
}

/// A loopback address as the import sees it: `127.0.0.0/8`, `::1`, or the
/// IPv4-mapped form of a `127.x` address.
pub open spec fn loopback_source(ip: IpAddress) -> bool {
    match ip {
        IpAddress::V4(o) => o@[0] == 127,
        IpAddress::V6(s) => ((forall|i: int| 0 <= i < 7 ==> s@[i] == 0) && s@[7] == 1) || (mapped_v4(s@) matches Some(
            o,
        ) && o[0] == 127),
    }
}

/// Exempting loopback only lifts the refusal of loopback addresses: whatever
/// is refused with the exemption is refused without it, and every other
/// refusal (link-local and unspecified addresses) stands either way.
pub proof fn law_loopback_exemption_only_lifts_loopback(ip: IpAddress)
    ensures
        blocked(ip, false) ==> blocked(ip, true),
        blocked(ip, true) && !blocked(ip, false) ==> loopback_source(ip),
{
}

fn v4_blocked(o: [u8; 4], block_loopback: bool) -> (r: bool)
    ensures
        r == blocked_v4(o@, block_loopback),
{
    (o[0] == 169 && o[1] == 254) || (o[0] == 0 && o[1] == 0 && o[2] == 0 && o[3] == 0) || (
    block_loopback && o[0] == 127)
}

/// Whether `ip` lies in a range that imports refuse to contact.
pub fn is_blocked_ip(ip: IpAddress, block_loopback: bool) -> (r: bool)
    ensures
        r == blocked(ip, block_loopback),
{
    match ip {
        IpAddress::V4(o) => v4_blocked(o, block_loopback),
        IpAddress::V6(s) => {
            if 0xfe80 <= s[0] && s[0] <= 0xfebf {
                return true;
            }
            let lead_zero = s[0] == 0 && s[1] == 0 && s[2] == 0 && s[3] == 0 && s[4] == 0;
            if lead_zero && s[5] == 0 && s[6] == 0 && s[7] == 0 {
                return true;
            }
            if block_loopback && lead_zero && s[5] == 0 && s[6] == 0 && s[7] == 1 {
                return true;
            }
            if lead_zero && s[5] == 0xffff {
                let o: [u8; 4] = [
                    (s[6] / 256) as u8,
                    (s[6] % 256) as u8,
                    (s[7] / 256) as u8,
                    (s[7] % 256) as u8,
                ];
                assert(o@ =~= mapped_v4(s@)->0);
                return v4_blocked(o, block_loopback);
            }
            assert(!(forall|i: int| 0 <= i < 8 ==> s@[i] == 0)) by {
                if s@[0] == 0 && s@[1] == 0 && s@[2] == 0 && s@[3] == 0 && s@[4] == 0 && s@[5] == 0 {
                    assert(s@[6] != 0 || s@[7] != 0);
                }
            }
            false
        },
    }
}

/// A resolved host may be contacted when it resolved to at least one address
/// and none of them is blocked.
pub open spec fn resolved_safe(addrs: Seq<IpAddress>, block_loopback: bool) -> bool {
    addrs.len() > 0 && forall|i: int| 0 <= i < addrs.len() ==> !blocked(#[trigger] addrs[i], block_loopback)
}

/// Whether every address a host resolved to may be contacted (and there is one).
pub fn addresses_are_safe(addrs: &[IpAddress], block_loopback: bool) -> (r: bool)
    ensures
        r == resolved_safe(addrs@, block_loopback),
{
    if addrs.len() == 0 {
        return false;
    }
    let mut i: usize = 0;
    while i < addrs.len()
        invariant
            i <= addrs.len(),
            forall|j: int| 0 <= j < i ==> !blocked(#[trigger] addrs@[j], block_loopback),
        decreases addrs.len() - i,
    {
        if is_blocked_ip(addrs[i], block_loopback) {
            return false;
        }
        i = i + 1;
    }
    true
}

/// The `host:port` to resolve for a parsed remote base: its host and its port,
/// or the scheme's default, or 80; none without a host.
pub open spec fn target_from_parts(parts: Option<(Seq<char>, Option<Seq<char>>, Option<u16>, Seq<char>)>) -> Option<
    Seq<char>,
> {
    match parts {
        Some((_scheme, Some(host), port, _serialized)) => Some(
            host + ":"@ + decimal(
                match port {
                    Some(p) => p as nat,
                    None => 80,
                },
            ),
        ),
        _ => None,
    }
}

/// The `host:port` to resolve for a remote base, from what the URL parser makes of it.
pub open spec fn resolve_target(remote_base: Seq<char>) -> Option<Seq<char>> {
    target_from_parts(url_parse(remote_base))
}

/// The `host:port` text for the parsed form of a remote base (`None` where it
/// did not parse).
pub fn lookup_target_from_parts(parts: Option<UrlParts>) -> (r: Option<String>)
    ensures
        opt_string_view(r) == target_from_parts(
            match parts {
                Some(p) => Some(p@),
                None => None,
            },
        ),
{
    match parts {
        None => None,
        Some(p) => match p.host {
            None => None,
            Some(h) => {
                let port: u16 = match p.port {
                    Some(n) => n,
                    None => 80,
                };
                let mut out: Vec<char> = Vec::new();
                push_str(&mut out, h.as_str());
                push_str(&mut out, ":");
                push_decimal(&mut out, port as u64);
                Some(string_of(&out))
            },
        },
    }
}

/// The `host:port` text to look up before contacting a remote base; `None`
/// when it does not parse or names no host.
pub fn lookup_target(remote_base: &str) -> (r: Option<String>)
    ensures
        opt_string_view(r) == resolve_target(remote_base@),
{
    lookup_target_from_parts(parse_url(remote_base))
}

/// Largest audio file accepted for one imported song: half a gibibyte.
pub const IMPORT_MAX_BYTES_PER_ITEM: usize = 512 * 1024 * 1024;

/// The message of an import aborted for size.
pub open spec fn too_large_message(total: u64, max: u64) -> Seq<char> {
    "文件过大（已读取 "@ + decimal(total as nat) + " 字节，上限 "@ + decimal(max as nat) + "）"@
}

/// The bytes received so far for one imported file, against its cap.
pub struct ByteBudget {
    pub total: u64,
    pub max: u64,
}

impl ByteBudget {
    /// An empty budget capped at `max_bytes`.
    pub fn new(max_bytes: usize) -> (r: ByteBudget)
        ensures
            r.total == 0,
            r.max == max_bytes as u64,
    {
        ByteBudget { total: 0, max: max_bytes as u64 }
    }

    /// Counts a received chunk of `len` bytes (saturating); refuses it when the
    /// count passes the cap, before the chunk is written.
    pub fn add_chunk(&mut self, len: usize) -> (r: Result<(), String>)
        ensures
            final(self).max == old(self).max,
            final(self).total == (if old(self).total + len > u64::MAX {
                u64::MAX as int
            } else {
                old(self).total + len
            }),
            r is Ok <==> final(self).total <= final(self).max,
            r matches Err(m) ==> m@ == too_large_message(final(self).total, final(self).max),
    {
        self.total = self.total.saturating_add(len as u64);
        if self.total > self.max {
            let mut out: Vec<char> = Vec::new();
            push_str(&mut out, "文件过大（已读取 ");
            push_decimal(&mut out, self.total);
            push_str(&mut out, " 字节，上限 ");
            push_decimal(&mut out, self.max);
            push_str(&mut out, "）");
            return Err(string_of(&out));
        }
        Ok(())
    }
}

/// An extension taken on trust for an imported file: non-empty and a supported
/// audio extension.
pub open spec fn known_extension(ext: Seq<char>) -> bool {
    ext.len() > 0 && listed(SUPPORTED_EXTENSIONS@, ext)
}

/// Whether the extension of a supplied file name can be used as it is.
pub fn is_known_extension(ext: &str) -> (r: bool)
    ensures
        r == known_extension(ext@),
{
    let e = chars_of(ext);
    e.len() > 0 && is_listed(&SUPPORTED_EXTENSIONS, &e)
}

/// The extension an imported file is stored under: the supplied one when known,
/// else the one the remote `Content-Type` names; a non-audio type refuses it.
pub open spec fn imported_extension(ext: Seq<char>, content_type: Seq<char>) -> Result<Seq<char>, Seq<char>> {
    if known_extension(ext) {
        Ok(ext)
    } else {
        match content_type_extension(content_type) {
            Some(e) => Ok(e),
            None => Err("远端返回了非音频内容类型，无法导入: "@ + content_type),
        }
    }
}

/// Chooses the extension of an imported file from the supplied one and the
/// remote response's `Content-Type`.
pub fn choose_import_extension(ext: &str, content_type: &str) -> (r: Result<String, String>)
    ensures
        match r {
            Ok(e) => imported_extension(ext@, content_type@) == Ok::<Seq<char>, Seq<char>>(e@),
            Err(m) => imported_extension(ext@, content_type@) == Err::<Seq<char>, Seq<char>>(m@),
        },
{
    if is_known_extension(ext) {
        return Ok(string_of(&chars_of(ext)));
    }
    match content_type_to_extension(content_type) {
        Some(e) => Ok(e.to_owned()),
        None => {
            let mut out: Vec<char> = Vec::new();
            push_str(&mut out, "远端返回了非音频内容类型，无法导入: ");
            push_str(&mut out, content_type);
            Err(string_of(&out))
        },
    }
}

/// `base`, then `path`, then the decimal id.
pub open spec fn id_url(base: Seq<char>, path: Seq<char>, music_id: i32) -> Seq<char> {
    base + path + signed_decimal(music_id as int)
}

fn build_id_url(base: &str, path: &str, music_id: i32) -> (r: String)
    ensures
        r@ == id_url(base@, path@, music_id),
{
    let mut out: Vec<char> = Vec::new();
    push_str(&mut out, base);
    push_str(&mut out, path);
    push_signed_decimal(&mut out, music_id as i64);
    string_of(&out)
}

/// The remote URL of a song's audio: `{base}/music/id/{id}`.
pub fn remote_audio_url(remote_base: &str, music_id: i32) -> (r: String)
    ensures
        r@ == id_url(remote_base@, "/music/id/"@, music_id),
{
    build_id_url(remote_base, "/music/id/", music_id)
}

/// The remote URL of a song's lyrics: `{base}/lyrics/id/{id}`.
pub fn remote_lyrics_url(remote_base: &str, music_id: i32) -> (r: String)
    ensures
        r@ == id_url(remote_base@, "/lyrics/id/"@, music_id),
{
    build_id_url(remote_base, "/lyrics/id/", music_id)
}

/// The local file name of an imported song: `{stem}.{ext}`.
pub fn imported_file_name(stem: &str, ext: &str) -> (r: String)
    ensures
        r@ == stem@ + "."@ + ext@,
{
    let mut out: Vec<char> = Vec::new();
    push_str(&mut out, stem);
    push_str(&mut out, ".");
    push_str(&mut out, ext);
    string_of(&out)
}

/// The summary of an import job of `total` songs.
pub fn import_job_summary(total: usize) -> (r: String)
    ensures
        r@ == "从远端导入 "@ + decimal(total as nat) + " 首歌曲"@,
{
    let mut out: Vec<char> = Vec::new();
    push_str(&mut out, "从远端导入 ");
    push_decimal(&mut out, total as u64);
    push_str(&mut out, " 首歌曲");
    string_of(&out)
}

/// What became of one imported song.
pub enum ItemOutcome {
    /// The audio (and lyrics, when there were any) was written.
    Imported,
    /// Nothing was written, for the given reason (the file was already there).
    Skipped(String),
    /// The song could not be imported, for the given reason.
    Failed(String),
}

/// The running account of an import job.
pub struct ImportTally {
    pub imported: usize,
    pub skipped: usize,
    pub failed: usize,
    pub warnings: Vec<String>,
}

/// `n + 1`, held at the largest `usize`.
pub open spec fn bump(n: usize) -> usize {
    if n == usize::MAX {
        n
    } else {
        (n + 1) as usize
    }
}

/// The warning recorded for a song: `{label}: {reason}`.
pub open spec fn item_warning(label: Seq<char>, reason: Seq<char>) -> Seq<char> {
    label + ": "@ + reason
}

/// How an import job ends: completed (with an optional warning) or failed (with
/// a message). Warnings are joined with `；`. A job that imported something
/// completes; one that only skipped completes with a note; one that did neither
/// fails.
pub open spec fn import_end(imported: nat, skipped: nat, warnings: Seq<Seq<char>>) -> (bool, Option<Seq<char>>) {
    let w: Option<Seq<char>> = if warnings.len() == 0 {
        None
    } else {
        Some(join(warnings, "；"@))
    };
    if imported > 0 {
        (true, w)
    } else if skipped > 0 {
        (true, Some(w.unwrap_or("所选歌曲已全部存在"@)))
    } else {
        (false, Some(w.unwrap_or("未导入任何歌曲"@)))
    }
}

/// The end of an import job.
pub enum ImportJobEnd {
    Completed(Option<String>),
    Failed(String),
}

fn join_texts(a: &str, b: &str, c: &str) -> (r: String)
    ensures
        r@ == a@ + b@ + c@,
{
    let mut out: Vec<char> = Vec::new();
    push_str(&mut out, a);
    push_str(&mut out, b);
    push_str(&mut out, c);
    string_of(&out)
}

impl ImportTally {
    /// A job that has processed nothing yet.
    pub fn new() -> (r: ImportTally)
        ensures
            r.imported == 0,
            r.skipped == 0,
            r.failed == 0,
            r.warnings@.len() == 0,
    {
        ImportTally { imported: 0, skipped: 0, failed: 0, warnings: Vec::new() }
    }

    /// Counts the outcome for the song labelled `label`; a skip or failure also
    /// records a warning.
    pub fn record(&mut self, label: &str, outcome: ItemOutcome)
        ensures
            match outcome {
                ItemOutcome::Imported => final(self).imported == bump(old(self).imported)
                    && final(self).skipped == old(self).skipped && final(self).failed == old(
                    self,
                ).failed && final(self).warnings@ == old(self).warnings@,
                ItemOutcome::Skipped(reason) => final(self).imported == old(self).imported
                    && final(self).skipped == bump(old(self).skipped) && final(self).failed == old(
                    self,
                ).failed && strings_view(final(self).warnings@) == strings_view(
                    old(self).warnings@,
                ).push(item_warning(label@, reason@)),
                ItemOutcome::Failed(reason) => final(self).imported == old(self).imported
                    && final(self).skipped == old(self).skipped && final(self).failed == bump(
                    old(self).failed,
                ) && strings_view(final(self).warnings@) == strings_view(
                    old(self).warnings@,
                ).push(item_warning(label@, reason@)),
            },
    {
        match outcome {
            ItemOutcome::Imported => {
                self.imported = self.imported.saturating_add(1);
            },
            ItemOutcome::Skipped(reason) => {
                self.skipped = self.skipped.saturating_add(1);
                let w = join_texts(label, ": ", reason.as_str());
                self.warnings.push(w);
                assert(strings_view(self.warnings@) =~= strings_view(old(self).warnings@).push(
                    item_warning(label@, reason@),
                ));
            },
            ItemOutcome::Failed(reason) => {
                self.failed = self.failed.saturating_add(1);
                let w = join_texts(label, ": ", reason.as_str());
                self.warnings.push(w);
                assert(strings_view(self.warnings@) =~= strings_view(old(self).warnings@).push(
                    item_warning(label@, reason@),
                ));
            },
        }
    }

    /// Records that refreshing the library afterwards failed with `err`.
    pub fn record_refresh_failure(&mut self, err: &str)
        ensures
            final(self).imported == old(self).imported,
            final(self).skipped == old(self).skipped,
            final(self).failed == old(self).failed,
            strings_view(final(self).warnings@) == strings_view(old(self).warnings@).push(
                "刷新曲库失败: "@ + err@,
            ),
    {
        let mut out: Vec<char> = Vec::new();
        push_str(&mut out, "刷新曲库失败: ");
        push_str(&mut out, err);
        let w = string_of(&out);
        self.warnings.push(w);
        assert(strings_view(self.warnings@) =~= strings_view(old(self).warnings@).push(
            "刷新曲库失败: "@ + err@,
        ));
    }

    /// How the job ends, given everything recorded.
    pub fn finish(&self) -> (r: ImportJobEnd)
        ensures
            match r {
                ImportJobEnd::Completed(w) => import_end(
                    self.imported as nat,
                    self.skipped as nat,
                    strings_view(self.warnings@),
                ) == (true, opt_string_view(w)),
                ImportJobEnd::Failed(m) => import_end(
                    self.imported as nat,
                    self.skipped as nat,
                    strings_view(self.warnings@),
                ) == (false, Some(m@)),
            },
    {
        let warning: Option<String> = if self.warnings.len() == 0 {
            None
        } else {
            Some(join_strings(&self.warnings, "；"))
        };
        if self.imported > 0 {
            ImportJobEnd::Completed(warning)
        } else if self.skipped > 0 {
            match warning {
                Some(w) => ImportJobEnd::Completed(Some(w)),
                None => ImportJobEnd::Completed(Some("所选歌曲已全部存在".to_owned())),
            }
        } else {
            match warning {
                Some(w) => ImportJobEnd::Failed(w),
                None => ImportJobEnd::Failed("未导入任何歌曲".to_owned()),
            }
        }
    }
}

/// The share of the job done before song `index` (counting from 0) of `total`,
/// in whole percent.
pub open spec fn progress_percent(index: nat, total: nat) -> nat {
    let scaled = if index * 100 > usize::MAX {
        usize::MAX as nat
    } else {
        index * 100
    };
    scaled / (if total == 0 {
        1
    } else {
        total
    })
}

/// The progress message and percentage shown while song `index` (counting from
/// 0) of `total`, labelled `label`, is imported.
pub fn import_progress(index: usize, total: usize, label: &str) -> (r: (String, String))
    ensures
        r.0@ == "正在导入 "@ + decimal(bump(index) as nat) + "/"@ + decimal(total as nat) + ": "@
            + label@,
        r.1@ == decimal(progress_percent(index as nat, total as nat)) + "%"@,
{
    let scaled: usize = if index > usize::MAX / 100 {
        usize::MAX
    } else {
        index * 100
    };
    let divisor: usize = if total == 0 {
        1
    } else {
        total
    };
    let percent = scaled / divisor;
    let mut msg: Vec<char> = Vec::new();
    push_str(&mut msg, "正在导入 ");
    push_decimal(&mut msg, index.saturating_add(1) as u64);
    push_str(&mut msg, "/");
    push_decimal(&mut msg, total as u64);
    push_str(&mut msg, ": ");
    push_str(&mut msg, label);
    let mut pct: Vec<char> = Vec::new();
    push_decimal(&mut pct, percent as u64);
    push_str(&mut pct, "%");
    (string_of(&msg), string_of(&pct))
}

/// What an import request is answered before a job is made, once its remote
/// base is accepted: no songs is refused, then a song name holding a path
/// separator, then a target directory with a `..` component; otherwise the
/// directory to import into.
pub open spec fn import_request_check(
    items: Seq<ImportRemoteItem>,
    download_root: Seq<char>,
    target_subdir: Option<Seq<char>>,
) -> Result<Seq<char>, Seq<char>> {
    if items.len() == 0 {
        Err("未选择要导入的歌曲"@)
    } else {
        match first_bad_item(items) {
            Some(k) => Err(trim(item_name(items[k]).unwrap()) + ": 文件名不能包含路径分隔符"@),
            None => requested_dir(download_root, target_subdir),
        }
    }
}

/// Checks an import request's songs and target directory.
pub fn check_import_request(items: &[ImportRemoteItem], download_root: &str, target_subdir: Option<&str>) -> (r:
    Result<String, String>)
    ensures
        match r {
            Ok(d) => import_request_check(items@, download_root@, opt_view(target_subdir)) == Ok::<
                Seq<char>,
                Seq<char>,
            >(d@),
            Err(m) => import_request_check(items@, download_root@, opt_view(target_subdir)) == Err::<
                Seq<char>,
                Seq<char>,
            >(m@),
        },
{
    if items.len() == 0 {
        return Err("未选择要导入的歌曲".to_owned());
    }
    match validate_import_item_filenames(items) {
        Err(m) => Err(m),
        Ok(()) => requested_target_dir(download_root, target_subdir),
    }
}

/// The message when the import target is not a writable filesystem directory.
pub const TARGET_NOT_WRITABLE: &'static str = "本机下载目录不可写";

/// The message when the remote host resolves to a refused address.
pub const REMOTE_HOST_REFUSED: &'static str = "不允许的远端服务器地址";

/// The message when an import job has been created.
pub const IMPORT_JOB_CREATED: &'static str = "导入任务已创建";

/// The reason an imported song is skipped: its file is already there.
pub const ALREADY_EXISTS: &'static str = "已存在，跳过";

/// The failure of a request for a song's audio that got no reply.
pub fn audio_request_failure(err: &str) -> (r: String)
    ensures
        r@ == "请求远端音频失败: "@ + err@,
{
    let mut out: Vec<char> = Vec::new();
    push_str(&mut out, "请求远端音频失败: ");
    push_str(&mut out, err);
    string_of(&out)
}

/// Where the lyrics fetched with an imported song are written: only a
/// successful (2xx) reply with non-blank text is kept, beside the song, with
/// the extension its text calls for; anything else is dropped without failing
/// the import.
pub fn imported_lyric_path(status: u16, body: &str, audio_path: &str) -> (r: Option<String>)
    ensures
        match r {
            Some(p) => 200 <= status < 300 && trim(body@).len() > 0 && p@ == sidecar_path(audio_path@, body@),
            None => !(200 <= status < 300) || trim(body@).len() == 0,
        },
{
    if status < 200 || status >= 300 {
        return None;
    }
    if trim_chars(&chars_of(body)).len() == 0 {
        return None;
    }
    Some(lyric_sidecar_path(audio_path, body))
}

/// The reply to a request that starts a download or import job.
pub struct CreateDownloadJobResponse {
    pub success: bool,
    pub message: String,
    pub job_id: Option<String>,
}

/// Whether an import may start, in the order the checks are made: the remote
/// base must be accepted (400 with its reason), its host must resolve and
/// only to allowed addresses (400), the request must pass
/// [`import_request_check`] (400 with its reason), and the target directory
/// must be on the local filesystem (500). An admitted import gives the remote
/// base and the target directory; only then is a job made.
pub open spec fn import_admission(
    base: Result<Seq<char>, Seq<char>>,
    resolved: Option<Seq<IpAddress>>,
    block_loopback: bool,
    items: Seq<ImportRemoteItem>,
    download_root: Seq<char>,
    target_subdir: Option<Seq<char>>,
) -> Result<(Seq<char>, Seq<char>), (u16, Seq<char>)> {
    match base {
        Err(m) => Err((400, m)),
        Ok(b) => if !(resolved matches Some(a) && resolved_safe(a, block_loopback)) {
            Err((400, REMOTE_HOST_REFUSED@))
        } else {
            match import_request_check(items, download_root, target_subdir) {
                Err(m) => Err((400, m)),
                Ok(t) => if crate::text::has_prefix(t, "content://"@) {
                    Err((500, TARGET_NOT_WRITABLE@))
                } else {
                    Ok((b, t))
                },
            }
        },
    }
}

/// Decides whether an import may start, from the judged remote base (see
/// [`validate_remote_api_base`]), the addresses its host resolved to (`None`
/// where the lookup failed), and the request.
pub fn admit_import(
    base: &Result<String, String>,
    resolved: Option<&[IpAddress]>,
    block_loopback: bool,
    items: &[ImportRemoteItem],
    download_root: &str,
    target_subdir: Option<&str>,
) -> (r: Result<(String, String), (u16, String)>)
    ensures
        import_admission(
            match base {
                Ok(b) => Ok::<Seq<char>, Seq<char>>(b@),
                Err(m) => Err::<Seq<char>, Seq<char>>(m@),
            },
            match resolved {
                Some(a) => Some(a@),
                None => None,
            },
            block_loopback,
            items@,
            download_root@,
            opt_view(target_subdir),
        ) == match r {
            Ok((b, t)) => Ok::<(Seq<char>, Seq<char>), (u16, Seq<char>)>((b@, t@)),
            Err((code, m)) => Err::<(Seq<char>, Seq<char>), (u16, Seq<char>)>((code, m@)),
        },
{
    let b = match base {
        Err(m) => {
            return Err((400, string_of(&chars_of(m.as_str()))));
        },
        Ok(b) => b,
    };
    let safe = match resolved {
        Some(a) => addresses_are_safe(a, block_loopback),
        None => false,
    };
    if !safe {
        return Err((400, REMOTE_HOST_REFUSED.to_owned()));
    }
    match check_import_request(items, download_root, target_subdir) {
        Err(m) => Err((400, m)),
        Ok(t) => {
            if !crate::paths::is_std_fs_path(t.as_str()) {
                return Err((500, TARGET_NOT_WRITABLE.to_owned()));
            }
            Ok((string_of(&chars_of(b.as_str())), t))
        },
    }
}

/// The item's trimmed file name holds a path separator.
pub open spec fn names_a_path(item: ImportRemoteItem) -> bool {
    match item_name(item) {
        Some(n) => trim(n).contains('/') || trim(n).contains('\\'),
        None => false,
    }
}

proof fn lemma_some_item_names_a_path(items: Seq<ImportRemoteItem>, k: int)
    requires
        0 <= k < items.len(),
        names_a_path(items[k]),
    ensures
        first_bad_item(items) is Some,
    decreases items.len(),
{
    if k > 0 && !names_a_path(items[0]) {
        assert(items.drop_first()[k - 1] == items[k]);
        lemma_some_item_names_a_path(items.drop_first(), k - 1);
    }
}

/// An import is refused with 400, before any job exists, when its remote base
/// is blank, does not parse, or is not `http` or `https`; when its host does not
/// resolve or resolves to a refused address; when it selects no song; and when a
/// song's file name holds a path separator, which the message says.
pub proof fn law_refused_imports_are_bad_requests(
    raw: Seq<char>,
    resolved: Option<Seq<IpAddress>>,
    block_loopback: bool,
    items: Seq<ImportRemoteItem>,
    download_root: Seq<char>,
    target_subdir: Option<Seq<char>>,
)
    ensures
        ({
            ||| trim(raw).len() == 0
            ||| url_parse(trim(raw)) is None
            ||| (url_parse(trim(raw)) matches Some(p) && p.0 != "http"@ && p.0 != "https"@)
        }) ==> (import_admission(remote_base(raw), resolved, block_loopback, items, download_root, target_subdir) matches Err(
            (code, _),
        ) && code == 400),
        remote_base(raw) is Ok && !(resolved matches Some(a) && resolved_safe(a, block_loopback)) ==> import_admission(
            remote_base(raw),
            resolved,
            block_loopback,
            items,
            download_root,
            target_subdir,
        ) == Err::<(Seq<char>, Seq<char>), (u16, Seq<char>)>((400, REMOTE_HOST_REFUSED@)),
        remote_base(raw) is Ok && (resolved matches Some(a) && resolved_safe(a, block_loopback)) && items.len() == 0
            ==> import_admission(remote_base(raw), resolved, block_loopback, items, download_root, target_subdir)
            == Err::<(Seq<char>, Seq<char>), (u16, Seq<char>)>((400, "未选择要导入的歌曲"@)),
        remote_base(raw) is Ok && (resolved matches Some(a) && resolved_safe(a, block_loopback)) && (exists|k: int|
            0 <= k < items.len() && #[trigger] names_a_path(items[k])) ==> (import_admission(
            remote_base(raw),
            resolved,
            block_loopback,
            items,
            download_root,
            target_subdir,
        ) matches Err((code, m)) && code == 400 && has_suffix(m, ": 文件名不能包含路径分隔符"@)),
{
    if remote_base(raw) is Ok && (resolved matches Some(a) && resolved_safe(a, block_loopback)) && (exists|k: int|
        0 <= k < items.len() && #[trigger] names_a_path(items[k])) {
        let k = choose|k: int| 0 <= k < items.len() && #[trigger] names_a_path(items[k]);
        lemma_some_item_names_a_path(items, k);
        let j = first_bad_item(items)->Some_0;
        let m = trim(item_name(items[j]).unwrap()) + ": 文件名不能包含路径分隔符"@;
        assert(m.skip(m.len() - ": 文件名不能包含路径分隔符"@.len()) =~= ": 文件名不能包含路径分隔符"@);
    }
}

/// The reply refusing an import: unsuccessful, with no job.
pub fn import_refused_response(message: String) -> (r: CreateDownloadJobResponse)
    ensures
        !r.success,
        r.message == message,
        r.job_id is None,
{
    CreateDownloadJobResponse { success: false, message, job_id: None }
}

} // verus!
