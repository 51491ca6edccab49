//! Online search and download requests: what a search asks of which
//! providers, how results are shown, and the checks made on download and
//! lyric requests.
use vstd::prelude::*;
use crate::download::{
    duration_text, format_duration_ms, join_artists, normalize_remote_url, strip_html_tags,
    strip_tags_from, youtube_thumbnail_url, DownloadSource,
};
use crate::http::{parse_u64, parse_u64_spec};
use crate::lyrics::{join, strings_view};
use crate::remote::opt_string_view;
use crate::text::{
    chars_contain, chars_of, decimal, has_prefix, push_decimal, push_str, string_of, trim, trim_chars,
};

verus! {

/// A search of the online providers.
pub struct OnlineSearchRequest {
    pub query: String,
    pub max_results: usize,
    pub sources: Vec<DownloadSource>,
}

/// One search hit.
pub struct OnlineSearchResult {
    pub source: DownloadSource,
    pub id: String,
    pub title: String,
    pub artist: String,
    pub duration: Option<String>,
    pub thumbnail_url: Option<String>,
    pub can_preview: bool,
    pub can_download: bool,
    pub requires_login: bool,
}

/// A request to build a preview of a search hit.
pub struct DownloadPreviewRequest {
    pub source: DownloadSource,
    pub id: String,
    pub title: String,
    pub artist: Option<String>,
}

/// A preview ready to play.
pub struct PreviewSong {
    pub id: i32,
    pub name: String,
    pub path: String,
    pub stream_url: String,
    pub cover_url: Option<String>,
    pub source: DownloadSource,
    pub is_temporary: bool,
}

/// The reply to a preview request.
pub struct DownloadPreviewResponse {
    pub success: bool,
    pub message: String,
    pub song: Option<PreviewSong>,
}

/// A lyrics search.
pub struct LyricsSearchRequest {
    pub query: String,
}

/// One lyrics search hit.
pub struct LyricCandidate {
    pub source: DownloadSource,
    pub id: String,
    pub title: String,
    pub artist: String,
    pub album: Option<String>,
}

/// A request to download a track.
pub struct DownloadTrackRequest {
    pub source: DownloadSource,
    pub id: String,
    pub title: String,
    pub artist: Option<String>,
    pub target_subdir: Option<String>,
    pub lyric_selection: Option<String>,
    pub file_name: Option<String>,
}

/// The text searched for: the query trimmed; a blank query searches nothing
/// (answered with no results).
pub fn search_query(query: &str) -> (r: Option<String>)
    ensures
        match r {
            Some(q) => trim(query@).len() > 0 && q@ == trim(query@),
            None => trim(query@).len() == 0,
        },
{
    let t = trim_chars(&chars_of(query));
    if t.len() == 0 {
        None
    } else {
        Some(string_of(&t))
    }
}

/// How many results each provider is asked for: the request's number held
/// between 1 and 20.
pub fn clamp_max_results(requested: usize) -> (r: usize)
    ensures
        r == (if requested < 1 {
            1
        } else if requested > 20 {
            20
        } else {
            requested
        }),
{
    if requested < 1 {
        1
    } else if requested > 20 {
        20
    } else {
        requested
    }
}

/// The providers searched, in the order asked, when each is enabled: YouTube,
/// Netease and Bilibili have providers (an import has none); a request naming
/// no source searches YouTube.
pub open spec fn searched_sources(
    sources: Seq<DownloadSource>,
    youtube: bool,
    netease: bool,
    bilibili: bool,
) -> Seq<DownloadSource> {
    let asked = if sources.len() == 0 {
        seq![DownloadSource::Youtube]
    } else {
        sources
    };
    asked.filter(|s: DownloadSource| source_enabled(s, youtube, netease, bilibili))
}

/// A source has an enabled provider.
pub open spec fn source_enabled(s: DownloadSource, youtube: bool, netease: bool, bilibili: bool) -> bool {
    match s {
        DownloadSource::Youtube => youtube,
        DownloadSource::Netease => netease,
        DownloadSource::Bilibili => bilibili,
        DownloadSource::Import => false,
    }
}

fn is_source_enabled(s: DownloadSource, youtube: bool, netease: bool, bilibili: bool) -> (r: bool)
    ensures
        r == source_enabled(s, youtube, netease, bilibili),
{
    match s {
        DownloadSource::Youtube => youtube,
        DownloadSource::Netease => netease,
        DownloadSource::Bilibili => bilibili,
        DownloadSource::Import => false,
    }
}

/// The sources to search, given which providers are enabled.
pub fn providers_for_search(sources: &Vec<DownloadSource>, youtube: bool, netease: bool, bilibili: bool) -> (r: Vec<
    DownloadSource,
>)
    ensures
        r@ == searched_sources(sources@, youtube, netease, bilibili),
{
    let mut asked: Vec<DownloadSource> = Vec::new();
    if sources.len() == 0 {
        asked.push(DownloadSource::Youtube);
    } else {
        let mut k: usize = 0;
        while k < sources.len()
            invariant
                k <= sources.len(),
                asked@ == sources@.take(k as int),
            decreases sources.len() - k,
        {
            asked.push(sources[k]);
            assert(asked@ =~= sources@.take(k + 1));
            k = k + 1;
        }
        assert(sources@.take(sources.len() as int) =~= sources@);
    }
    let ghost all = asked@;
    assert(all =~= (if sources@.len() == 0 {
        seq![DownloadSource::Youtube]
    } else {
        sources@
    }));
    let mut r: Vec<DownloadSource> = Vec::new();
    let mut i: usize = 0;
    while i < asked.len()
        invariant
            i <= asked.len(),
            all == asked@,
            r@ == all.take(i as int).filter(|s: DownloadSource| source_enabled(s, youtube, netease, bilibili)),
        decreases asked.len() - i,
    {
        let s = asked[i];
        proof {
            assert(all.take(i + 1).drop_last() =~= all.take(i as int));
            all.take(i as int).lemma_filter_push(s, |s: DownloadSource| source_enabled(s, youtube, netease, bilibili));
            assert(all.take(i as int).push(s) =~= all.take(i + 1));
        }
        if is_source_enabled(s, youtube, netease, bilibili) {
            r.push(s);
        }
        i = i + 1;
    }
    assert(all.take(asked.len() as int) =~= all);
    r
}

/// Bilibili thumbnails are served through this server:
/// `{host}/api/download/bilibili/thumbnail/{id}`.
pub fn bilibili_thumbnail_url(host: &str, id: &str) -> (r: String)
    ensures
        r@ == host@ + "/api/download/bilibili/thumbnail/"@ + id@,
{
    let mut out: Vec<char> = Vec::new();
    push_str(&mut out, host);
    push_str(&mut out, "/api/download/bilibili/thumbnail/");
    push_str(&mut out, id);
    string_of(&out)
}

/// Points the thumbnail of every Bilibili hit at this server's proxy; other
/// hits keep theirs.
pub fn rewrite_bilibili_thumbnails(results: &mut Vec<OnlineSearchResult>, host: &str)
    ensures
        final(results)@.len() == old(results)@.len(),
        forall|i: int|
            0 <= i < old(results)@.len() ==> {
                let before = #[trigger] old(results)@[i];
                let after = final(results)@[i];
                &&& after.source == before.source && after.id == before.id && after.title == before.title
                &&& after.artist == before.artist && after.duration == before.duration
                &&& after.can_preview == before.can_preview && after.can_download == before.can_download
                &&& after.requires_login == before.requires_login
                &&& if before.source == DownloadSource::Bilibili {
                    after.thumbnail_url matches Some(u) && u@ == host@ + "/api/download/bilibili/thumbnail/"@
                        + before.id@
                } else {
                    after.thumbnail_url == before.thumbnail_url
                }
            },
{
    let mut i: usize = 0;
    while i < results.len()
        invariant
            i <= results.len(),
            results@.len() == old(results)@.len(),
            forall|j: int|
                i <= j < results@.len() ==> #[trigger] results@[j] == old(results)@[j],
            forall|j: int|
                0 <= j < i ==> {
                    let before = #[trigger] old(results)@[j];
                    let after = results@[j];
                    &&& after.source == before.source && after.id == before.id && after.title == before.title
                    &&& after.artist == before.artist && after.duration == before.duration
                    &&& after.can_preview == before.can_preview && after.can_download == before.can_download
                    &&& after.requires_login == before.requires_login
                    &&& if before.source == DownloadSource::Bilibili {
                        after.thumbnail_url matches Some(u) && u@ == host@ + "/api/download/bilibili/thumbnail/"@
                            + before.id@
                    } else {
                        after.thumbnail_url == before.thumbnail_url
                    }
                },
        decreases results.len() - i,
    {
        if results[i].source == DownloadSource::Bilibili {
            let url = bilibili_thumbnail_url(host, results[i].id.as_str());
            let mut item = results.remove(i);
            item.thumbnail_url = Some(url);
            results.insert(i, item);
        }
        i = i + 1;
    }
}

/// A Bilibili video id may be looked up when it is not blank and holds no path
/// separator.
pub fn is_valid_bilibili_id(bvid: &str) -> (r: bool)
    ensures
        r == (trim(bvid@).len() > 0 && !bvid@.contains('/') && !bvid@.contains('\\')),
{
    let v = chars_of(bvid);
    trim_chars(&v).len() > 0 && !chars_contain(&v, '/') && !chars_contain(&v, '\\')
}

/// The lyric selection of a request to apply lyrics: the trimmed id, or the
/// refusal of a blank one.
pub fn lyric_selection(selection: &str) -> (r: Result<String, String>)
    ensures
        match r {
            Ok(s) => trim(selection@).len() > 0 && s@ == trim(selection@),
            Err(m) => trim(selection@).len() == 0 && m@ == "缺少歌词选择"@,
        },
{
    let t = trim_chars(&chars_of(selection));
    if t.len() == 0 {
        Err("缺少歌词选择".to_owned())
    } else {
        Ok(string_of(&t))
    }
}

/// The message for a lyric id that is not a Netease track id.
pub const INVALID_LYRIC_ID: &'static str = "无效的歌词歌曲 ID";

/// A lyric id: the Netease track it names.
pub fn parse_lyric_track_id(lyric_id: &str) -> (r: Result<u64, String>)
    ensures
        match r {
            Ok(n) => parse_u64_spec(lyric_id@) == Some(n),
            Err(m) => parse_u64_spec(lyric_id@) is None && m@ == INVALID_LYRIC_ID@,
        },
{
    match parse_u64(&chars_of(lyric_id)) {
        Some(n) => Ok(n),
        None => Err(INVALID_LYRIC_ID.to_owned()),
    }
}

/// A YouTube video found by a search, as listed: its thumbnail is YouTube's
/// high-quality one, and it can be previewed and downloaded without a login.
pub fn youtube_search_result(id: &str, title: String, channel: String, duration: Option<String>) -> (r:
    OnlineSearchResult)
    ensures
        r.source == DownloadSource::Youtube,
        r.id@ == id@,
        r.title == title,
        r.artist == channel,
        r.duration == duration,
        opt_string_view(r.thumbnail_url) == Some("https://i.ytimg.com/vi/"@ + id@ + "/hqdefault.jpg"@),
        r.can_preview && r.can_download && !r.requires_login,
{
    OnlineSearchResult {
        source: DownloadSource::Youtube,
        id: string_of(&chars_of(id)),
        title,
        artist: channel,
        duration,
        thumbnail_url: Some(youtube_thumbnail_url(id)),
        can_preview: true,
        can_download: true,
        requires_login: false,
    }
}

/// A Netease track found by a search, as listed: its decimal id, its artists
/// joined with `, `, its duration as `minutes:seconds`, its album cover, and
/// whether the session lacks a login.
pub fn netease_search_result(
    track_id: u64,
    name: String,
    artists: &Vec<String>,
    duration_ms: u64,
    album_pic_url: Option<String>,
    requires_login: bool,
) -> (r: OnlineSearchResult)
    ensures
        r.source == DownloadSource::Netease,
        r.id@ == decimal(track_id as nat),
        r.title == name,
        r.artist@ == join(strings_view(artists@), ", "@),
        opt_string_view(r.duration) == Some(duration_text(duration_ms)),
        r.thumbnail_url == album_pic_url,
        r.can_preview && r.can_download,
        r.requires_login == requires_login,
{
    let mut id: Vec<char> = Vec::new();
    push_decimal(&mut id, track_id);
    OnlineSearchResult {
        source: DownloadSource::Netease,
        id: string_of(&id),
        title: name,
        artist: join_artists(artists),
        duration: Some(format_duration_ms(duration_ms)),
        thumbnail_url: album_pic_url,
        can_preview: true,
        can_download: true,
        requires_login,
    }
}

/// A Bilibili video found by a search, as listed: its title without the
/// search-hit markup, no duration when none was given, its cover made an
/// absolute URL, and whether the session lacks a login.
pub fn bilibili_search_result(
    bvid: String,
    title: &str,
    author: String,
    duration: String,
    pic: &str,
    requires_login: bool,
) -> (r: OnlineSearchResult)
    ensures
        r.source == DownloadSource::Bilibili,
        r.id == bvid,
        r.title@ == strip_tags_from(title@, false),
        r.artist == author,
        opt_string_view(r.duration) == (if duration@.len() == 0 {
            None
        } else {
            Some(duration@)
        }),
        opt_string_view(r.thumbnail_url) == Some(
            if has_prefix(pic@, "//"@) {
                "https:"@ + pic@
            } else {
                pic@
            },
        ),
        r.can_preview && r.can_download,
        r.requires_login == requires_login,
{
    let shown_duration = if duration.as_str().unicode_len() == 0 {
        None
    } else {
        Some(duration)
    };
    OnlineSearchResult {
        source: DownloadSource::Bilibili,
        id: bvid,
        title: strip_html_tags(title),
        artist: author,
        duration: shown_duration,
        thumbnail_url: Some(normalize_remote_url(pic)),
        can_preview: true,
        can_download: true,
        requires_login,
    }
}

} // verus!
