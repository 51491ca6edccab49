//! A track download from request to reply: the checks made before it starts,
//! and the warnings and lyric file gathered while the downloaded file is
//! finished off.
use vstd::prelude::*;
use crate::download::{append_warning, requested_dir, requested_target_dir, with_warning, DownloadSource};
use crate::filenames::{download_stem, opt_view, resolve_download_file_stem};
use crate::lyrics::{lyric_sidecar_extension, skip_bom, skip_ws};
use crate::paths::{file_name, file_name_chars, path_with_extension, with_extension};
use crate::remote::opt_string_view;
use crate::search::DownloadTrackRequest;
use crate::text::{chars_of, has_prefix, push_str, string_of};

verus! {

/// A source that has a download provider: every source but imports.
pub open spec fn has_provider(source: DownloadSource) -> bool {
    source != DownloadSource::Import
}

/// What a download request is answered before the download starts: the target
/// directory (with no `..`), then the file stem (a usable custom name or the
/// title), then a provider for the source.
pub open spec fn download_request_check(
    download_root: Seq<char>,
    target_subdir: Option<Seq<char>>,
    file_name: Option<Seq<char>>,
    title: Seq<char>,
    source: DownloadSource,
) -> Result<(Seq<char>, Seq<char>), Seq<char>> {
    match requested_dir(download_root, target_subdir) {
        Err(e) => Err(e),
        Ok(dir) => match download_stem(file_name, title) {
            Err(e) => Err(e),
            Ok(stem) => if has_provider(source) {
                Ok((dir, stem))
            } else {
                Err("不支持的下载源"@)
            },
        },
    }
}

/// Checks a track download request, giving the directory to create and the
/// file stem to download under.
pub fn prepare_download_request(download_root: &str, request: &DownloadTrackRequest) -> (r: Result<
    (String, String),
    String,
>)
    ensures
        match r {
            Ok((dir, stem)) => download_request_check(
                download_root@,
                opt_string_view(request.target_subdir),
                opt_string_view(request.file_name),
                request.title@,
                request.source,
            ) == Ok::<(Seq<char>, Seq<char>), Seq<char>>((dir@, stem@)),
            Err(m) => download_request_check(
                download_root@,
                opt_string_view(request.target_subdir),
                opt_string_view(request.file_name),
                request.title@,
                request.source,
            ) == Err::<(Seq<char>, Seq<char>), Seq<char>>(m@),
        },
{
    let subdir: Option<&str> = match &request.target_subdir {
        Some(s) => Some(s.as_str()),
        None => None,
    };
    let dir = match requested_target_dir(download_root, subdir) {
        Err(e) => {
            return Err(e);
        },
        Ok(d) => d,
    };
    let name: Option<&str> = match &request.file_name {
        Some(s) => Some(s.as_str()),
        None => None,
    };
    let stem = match resolve_download_file_stem(name, request.title.as_str()) {
        Err(e) => {
            return Err(e);
        },
        Ok(s) => s,
    };
    if request.source == DownloadSource::Import {
        return Err("不支持的下载源".to_owned());
    }
    Ok((dir, stem))
}

/// The refusal when the target directory cannot be created.
pub const TARGET_DIR_UNCREATABLE: &'static str = "无法创建目标目录";

/// The lyric file written beside a downloaded song: the song's path with the
/// extension sniffed from the lyric text (`vtt` for WEBVTT, else `lrc`).
pub open spec fn sidecar_path(audio_path: Seq<char>, text: Seq<char>) -> Seq<char> {
    with_extension(
        audio_path,
        if has_prefix(skip_ws(skip_bom(text)), "WEBVTT"@) {
            "vtt"@
        } else {
            "lrc"@
        },
    )
}

/// Where the lyric text of a downloaded song is written.
pub fn lyric_sidecar_path(audio_path: &str, text: &str) -> (r: String)
    ensures
        r@ == sidecar_path(audio_path@, text@),
{
    let ext = lyric_sidecar_extension(text);
    proof {
        reveal_strlit("vtt");
        reveal_strlit("lrc");
    }
    path_with_extension(audio_path, ext)
}

/// What is gathered while a downloaded file is finished off: the warnings so
/// far (joined with `；`) and the name of the lyric file written, if any.
pub struct FinalizeReport {
    pub warning: Option<String>,
    pub lyric_filename: Option<String>,
}

fn prefixed(prefix: &str, err: &str) -> (r: String)
    ensures
        r@ == prefix@ + err@,
{
    let mut out: Vec<char> = Vec::new();
    push_str(&mut out, prefix);
    push_str(&mut out, err);
    string_of(&out)
}

impl FinalizeReport {
    /// A report starting from a warning already raised (about the lyrics).
    pub fn new(warning: Option<String>) -> (r: FinalizeReport)
        ensures
            r.warning == warning,
            r.lyric_filename is None,
    {
        FinalizeReport { warning, lyric_filename: None }
    }

    /// Embedding the cover art failed with `err`.
    pub fn cover_failed(&mut self, err: &str)
        ensures
            opt_string_view(final(self).warning) == with_warning(
                opt_string_view(old(self).warning),
                "封面写入失败: "@ + err@,
            ),
            final(self).lyric_filename == old(self).lyric_filename,
    {
        append_warning(&mut self.warning, prefixed("封面写入失败: ", err));
    }

    /// The lyric file was written at `lyric_path`.
    pub fn lyric_saved(&mut self, lyric_path: &str)
        ensures
            final(self).warning == old(self).warning,
            opt_string_view(final(self).lyric_filename) == file_name(lyric_path@),
    {
        self.lyric_filename = match file_name_chars(&chars_of(lyric_path)) {
            Some(n) => Some(string_of(&n)),
            None => None,
        };
    }

    /// Writing the lyric file failed with `err`.
    pub fn lyric_failed(&mut self, err: &str)
        ensures
            opt_string_view(final(self).warning) == with_warning(
                opt_string_view(old(self).warning),
                "歌词保存失败: "@ + err@,
            ),
            final(self).lyric_filename == old(self).lyric_filename,
    {
        append_warning(&mut self.warning, prefixed("歌词保存失败: ", err));
    }

    /// Refreshing the library failed with `err`.
    pub fn refresh_failed(&mut self, err: &str)
        ensures
            opt_string_view(final(self).warning) == with_warning(
                opt_string_view(old(self).warning),
                "刷新曲库失败: "@ + err@,
            ),
            final(self).lyric_filename == old(self).lyric_filename,
    {
        append_warning(&mut self.warning, prefixed("刷新曲库失败: ", err));
    }
}

/// What fetching the selected lyric gave: its text, nothing usable, or an
/// error.
pub enum LyricFetch {
    Text(String),
    Nothing,
    Failed(String),
}

/// The lyric text to write and the warning to start from, after fetching the
/// selected lyric.
pub fn lyric_fetch_result(fetch: LyricFetch) -> (r: (Option<String>, Option<String>))
    ensures
        match fetch {
            LyricFetch::Text(t) => r.0 == Some(t) && r.1 is None,
            LyricFetch::Nothing => r.0 is None && opt_string_view(r.1) == Some("未获取到可用歌词"@),
            LyricFetch::Failed(e) => r.0 is None && opt_string_view(r.1) == Some("歌词下载失败: "@ + e@),
        },
{
    match fetch {
        LyricFetch::Text(t) => (Some(t), None),
        LyricFetch::Nothing => (None, Some("未获取到可用歌词".to_owned())),
        LyricFetch::Failed(e) => (None, Some(prefixed("歌词下载失败: ", e.as_str()))),
    }
}

/// The message of a download that failed with `message`.
pub fn download_failure_message(message: &str) -> (r: String)
    ensures
        r@ == "下载失败: "@ + message@,
{
    prefixed("下载失败: ", message)
}

/// The phase messages shown while a download is finished off.
pub const EMBEDDING_COVER: &'static str = "Embedding cover art";

/// See [`EMBEDDING_COVER`].
pub const SAVING_LYRICS: &'static str = "Saving lyrics";

/// See [`EMBEDDING_COVER`].
pub const REFRESHING_LIBRARY: &'static str = "Refreshing library";

/// The message of a finished download.
pub const DOWNLOAD_COMPLETE: &'static str = "下载完成";

} // verus!
