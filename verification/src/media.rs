//! Media file classification: supported extensions, MIME types, and the output
//! format chosen for downloaded audio.
use vstd::prelude::*;
use crate::paths::{extension, extension_of_path};
use crate::text::{
    ascii_lower_seq, chars_contain_seq, chars_eq, chars_of, has_prefix, contains_seq, is_ws, split_first, to_ascii_lower,
    to_lowercase, trim, trim_chars, unicode_lowercase,
};

verus! {

/// Supported audio file extensions scanned into the user library.
pub const SUPPORTED_EXTENSIONS: [&'static str; 8] = ["mp3", "ogg", "wav", "aac", "flac", "m4a", "opus", "mka"];

/// Supported video file extensions.
pub const VIDEO_EXTENSIONS: [&'static str; 5] = ["mp4", "mkv", "avi", "mov", "3gp"];

/// Audio file extensions supported for loudness analysis.
pub const LUFS_EXTENSIONS: [&'static str; 5] = ["wav", "mp3", "ogg", "aac", "flac"];

/// `s` is one of the strings of `list`.
pub open spec fn listed(list: Seq<&str>, s: Seq<char>) -> bool {
    exists|i: int| 0 <= i < list.len() && (#[trigger] list[i])@ == s
}

/// Whether `s` is one of the strings of `list`.
pub fn is_listed(list: &[&str], s: &[char]) -> (r: bool)
    ensures
        r == listed(list@, s@),
{
    let mut i: usize = 0;
    while i < list.len()
        invariant
            i <= list.len(),
            forall|j: int| 0 <= j < i ==> (#[trigger] list@[j])@ != s@,
        decreases list.len() - i,
    {
        let item = chars_of(list[i]);
        if chars_eq(&item, s) {
            return true;
        }
        i = i + 1;
    }
    false
}

/// Some entry of `media_types` is exactly `kind`.
pub open spec fn type_enabled(media_types: Seq<String>, kind: Seq<char>) -> bool {
    exists|i: int| 0 <= i < media_types.len() && (#[trigger] media_types[i])@ == kind
}

/// Whether some entry of `media_types` equals `kind`.
pub fn media_type_enabled(media_types: &[String], kind: &str) -> (r: bool)
    ensures
        r == type_enabled(media_types@, kind@),
{
    let k = chars_of(kind);
    let mut i: usize = 0;
    while i < media_types.len()
        invariant
            i <= media_types.len(),
            k@ == kind@,
            forall|j: int| 0 <= j < i ==> (#[trigger] media_types@[j])@ != kind@,
        decreases media_types.len() - i,
    {
        let t = chars_of(media_types[i].as_str());
        if chars_eq(&t, &k) {
            return true;
        }
        i = i + 1;
    }
    false
}

/// An extension belongs to an enabled media type: its Unicode lowercase is an
/// audio extension with `audio` enabled, or a video extension with `video`
/// enabled.
pub open spec fn supported_for(ext: Seq<char>, media_types: Seq<String>) -> bool {
    (type_enabled(media_types, "audio"@) && listed(SUPPORTED_EXTENSIONS@, unicode_lowercase(ext))) || (
    type_enabled(media_types, "video"@) && listed(VIDEO_EXTENSIONS@, unicode_lowercase(ext)))
}

/// Whether an extension belongs to an enabled media type: audio extensions when
/// `audio` is enabled, video extensions when `video` is (compared after Unicode
/// lowercasing).
pub fn is_supported_extension(ext: &str, media_types: &[String]) -> (r: bool)
    ensures
        r == supported_for(ext@, media_types@),
{
    let lower = to_lowercase(ext);
    let lower_chars = chars_of(lower.as_str());
    let audio_enabled = media_type_enabled(media_types, "audio");
    let video_enabled = media_type_enabled(media_types, "video");
    (audio_enabled && is_listed(&SUPPORTED_EXTENSIONS, &lower_chars)) || (video_enabled
        && is_listed(&VIDEO_EXTENSIONS, &lower_chars))
}

/// A path names a video: its extension (lowercased) is a video extension, or, with
/// no extension, it is a `content://` URI under `/video/`.
pub open spec fn video_path(p: Seq<char>) -> bool {
    match extension(p) {
        Some(e) => listed(VIDEO_EXTENSIONS@, unicode_lowercase(e)),
        None => has_prefix(p, "content://"@) && contains_seq(p, "/video/"@),
    }
}

/// Whether a file path points to a video file.
pub fn is_video_file(file_path: &str) -> (r: bool)
    ensures
        r == video_path(file_path@),
{
    let p = chars_of(file_path);
    match extension_of_path(&p) {
        Some(ext) => {
            let e = crate::text::string_of(&ext);
            let lower = to_lowercase(e.as_str());
            let lower_chars = chars_of(lower.as_str());
            is_listed(&VIDEO_EXTENSIONS, &lower_chars)
        },
        None => {
            let scheme = chars_of("content://");
            let video = chars_of("/video/");
            crate::text::chars_start_with(&p, &scheme) && chars_contain_seq(&p, &video)
        },
    }
}

/// Whether a file name has an extension supported for loudness analysis.
pub fn is_audio_file(filename: &str) -> (r: bool)
    ensures
        r == (extension(filename@) matches Some(e) && listed(
            LUFS_EXTENSIONS@,
            unicode_lowercase(e),
        )),
{
    let p = chars_of(filename);
    match extension_of_path(&p) {
        Some(ext) => {
            let e = crate::text::string_of(&ext);
            let lower = to_lowercase(e.as_str());
            let lower_chars = chars_of(lower.as_str());
            is_listed(&LUFS_EXTENSIONS, &lower_chars)
        },
        None => false,
    }
}

/// The ASCII lowercase of every character.
pub fn lower_ascii(v: &[char]) -> (r: Vec<char>)
    ensures
        r@ == ascii_lower_seq(v@),
{
    let mut r: Vec<char> = Vec::new();
    let mut i: usize = 0;
    while i < v.len()
        invariant
            i <= v.len(),
            r@ == ascii_lower_seq(v@).take(i as int),
        decreases v.len() - i,
    {
        r.push(to_ascii_lower(v[i]));
        assert(r@ =~= ascii_lower_seq(v@).take(i + 1));
        i = i + 1;
    }
    assert(ascii_lower_seq(v@).take(v.len() as int) =~= ascii_lower_seq(v@));
    r
}

/// The MIME type served for an audio file, by its (ASCII-lowercased) extension.
pub open spec fn audio_mime(filename: Seq<char>) -> Seq<char> {
    match extension(filename) {
        Some(e) => {
            let x = ascii_lower_seq(e);
            if x == "flac"@ {
                "audio/flac"@
            } else if x == "ogg"@ || x == "oga"@ {
                "audio/ogg"@
            } else if x == "wav"@ {
                "audio/wav"@
            } else if x == "m4a"@ || x == "mp4"@ {
                "audio/mp4"@
            } else if x == "aac"@ {
                "audio/aac"@
            } else if x == "opus"@ {
                "audio/opus"@
            } else if x == "webm"@ {
                "audio/webm"@
            } else if x == "mp3"@ {
                "audio/mpeg"@
            } else {
                "application/octet-stream"@
            }
        },
        None => "application/octet-stream"@,
    }
}

fn is_text(v: &[char], s: &str) -> (r: bool)
    ensures
        r == (v@ == s@),
{
    let c = chars_of(s);
    chars_eq(v, &c)
}

/// The MIME type for an audio file name.
pub fn audio_content_type(filename: &str) -> (r: &'static str)
    ensures
        r@ == audio_mime(filename@),
{
    let p = chars_of(filename);
    match extension_of_path(&p) {
        Some(ext) => {
            let x = lower_ascii(&ext);
            if is_text(&x, "flac") {
                "audio/flac"
            } else if is_text(&x, "ogg") || is_text(&x, "oga") {
                "audio/ogg"
            } else if is_text(&x, "wav") {
                "audio/wav"
            } else if is_text(&x, "m4a") || is_text(&x, "mp4") {
                "audio/mp4"
            } else if is_text(&x, "aac") {
                "audio/aac"
            } else if is_text(&x, "opus") {
                "audio/opus"
            } else if is_text(&x, "webm") {
                "audio/webm"
            } else if is_text(&x, "mp3") {
                "audio/mpeg"
            } else {
                "application/octet-stream"
            }
        },
        None => "application/octet-stream",
    }
}

/// The media type of an HTTP `Content-Type` value: the part before any `;`,
/// ASCII-lowercased and trimmed.
pub open spec fn media_type(content_type: Seq<char>) -> Seq<char> {
    trim(split_first(ascii_lower_seq(content_type), ';'))
}

/// The local file extension for an HTTP `Content-Type`: the media type (before any
/// `;`, trimmed, ASCII-lowercased) mapped to a recognized audio extension;
/// `application/octet-stream` counts as `mp3`; anything else is refused.
pub open spec fn content_type_extension(content_type: Seq<char>) -> Option<Seq<char>> {
    let mime = media_type(content_type);
    if mime == "audio/mpeg"@ || mime == "audio/mp3"@ {
        Some("mp3"@)
    } else if mime == "audio/flac"@ || mime == "audio/x-flac"@ {
        Some("flac"@)
    } else if mime == "audio/ogg"@ {
        Some("ogg"@)
    } else if mime == "audio/wav"@ || mime == "audio/x-wav"@ {
        Some("wav"@)
    } else if mime == "audio/mp4"@ || mime == "audio/m4a"@ || mime == "audio/x-m4a"@ {
        Some("m4a"@)
    } else if mime == "audio/aac"@ {
        Some("aac"@)
    } else if mime == "audio/opus"@ {
        Some("opus"@)
    } else if mime == "audio/webm"@ || mime == "audio/x-matroska"@ || mime == "audio/x-mka"@ {
        Some("mka"@)
    } else if mime == "application/octet-stream"@ {
        Some("mp3"@)
    } else {
        None
    }
}

/// Maps an audio `Content-Type` to a file extension.
pub fn content_type_to_extension(content_type: &str) -> (r: Option<&'static str>)
    ensures
        match r {
            Some(e) => content_type_extension(content_type@) == Some(e@),
            None => content_type_extension(content_type@) is None,
        },
{
    let lower = lower_ascii(&chars_of(content_type));
    let first = crate::text::split_first_chars(&lower, ';');
    let m = trim_chars(&first);
    if is_text(&m, "audio/mpeg") || is_text(&m, "audio/mp3") {
        Some("mp3")
    } else if is_text(&m, "audio/flac") || is_text(&m, "audio/x-flac") {
        Some("flac")
    } else if is_text(&m, "audio/ogg") {
        Some("ogg")
    } else if is_text(&m, "audio/wav") || is_text(&m, "audio/x-wav") {
        Some("wav")
    } else if is_text(&m, "audio/mp4") || is_text(&m, "audio/m4a") || is_text(&m, "audio/x-m4a") {
        Some("m4a")
    } else if is_text(&m, "audio/aac") {
        Some("aac")
    } else if is_text(&m, "audio/opus") {
        Some("opus")
    } else if is_text(&m, "audio/webm") || is_text(&m, "audio/x-matroska") || is_text(&m, "audio/x-mka") {
        Some("mka")
    } else if is_text(&m, "application/octet-stream") {
        Some("mp3")
    } else {
        None
    }
}

/// Cover art is embedded unless the file is Ogg (extension `ogg`, any ASCII case).
pub fn should_embed_cover_art(audio_path: &str) -> (r: bool)
    ensures
        r == !(extension(audio_path@) matches Some(e) && ascii_lower_seq(e) == "ogg"@),
{
    let p = chars_of(audio_path);
    match extension_of_path(&p) {
        Some(ext) => {
            let x = lower_ascii(&ext);
            !is_text(&x, "ogg")
        },
        None => true,
    }
}

/// The audio codec of a source file, as far as the export decision needs it.
pub enum AudioCodec {
    Aac,
    Opus,
    Vorbis,
    Mp3,
    Flac,
    /// Any uncompressed PCM variant.
    Pcm,
    Other,
}

/// How a downloaded source is turned into the file kept in the library.
pub enum PreferredAudioOutput {
    /// Copy the audio stream into a container with this extension.
    Remux { extension: &'static str },
    /// Losslessly transcode to FLAC.
    TranscodeFlac,
    /// Transcode to MP3.
    TranscodeMp3,
}

/// Compressed formats are kept as they are (AAC in `m4a`, Opus and Vorbis in `ogg`,
/// MP3, FLAC); PCM is transcoded losslessly to FLAC; anything else becomes MP3.
pub fn preferred_output_for_codec(codec: AudioCodec) -> (r: PreferredAudioOutput)
    ensures
        match codec {
            AudioCodec::Aac => r matches PreferredAudioOutput::Remux { extension } && extension@
                == "m4a"@,
            AudioCodec::Opus | AudioCodec::Vorbis => r matches PreferredAudioOutput::Remux {
                extension,
            } && extension@ == "ogg"@,
            AudioCodec::Mp3 => r matches PreferredAudioOutput::Remux { extension } && extension@
                == "mp3"@,
            AudioCodec::Flac => r matches PreferredAudioOutput::Remux { extension } && extension@
                == "flac"@,
            AudioCodec::Pcm => r is TranscodeFlac,
            AudioCodec::Other => r is TranscodeMp3,
        },
{
    match codec {
        AudioCodec::Aac => PreferredAudioOutput::Remux { extension: "m4a" },
        AudioCodec::Opus | AudioCodec::Vorbis => PreferredAudioOutput::Remux { extension: "ogg" },
        AudioCodec::Mp3 => PreferredAudioOutput::Remux { extension: "mp3" },
        AudioCodec::Flac => PreferredAudioOutput::Remux { extension: "flac" },
        AudioCodec::Pcm => PreferredAudioOutput::TranscodeFlac,
        AudioCodec::Other => PreferredAudioOutput::TranscodeMp3,
    }
}

/// The image codec of embedded cover art.
pub enum ImageCodec {
    Png,
    Apng,
    Mjpeg,
    Mjpegb,
    Bmp,
    Gif,
    Tiff,
    Webp,
    Other,
}

/// The MIME type of embedded cover art.
pub fn cover_mime_type(codec: ImageCodec) -> (r: &'static str)
    ensures
        r@ == match codec {
            ImageCodec::Png | ImageCodec::Apng => "image/png"@,
            ImageCodec::Mjpeg | ImageCodec::Mjpegb => "image/jpeg"@,
            ImageCodec::Bmp => "image/bmp"@,
            ImageCodec::Gif => "image/gif"@,
            ImageCodec::Tiff => "image/tiff"@,
            ImageCodec::Webp => "image/webp"@,
            ImageCodec::Other => "application/octet-stream"@,
        },
{
    match codec {
        ImageCodec::Png | ImageCodec::Apng => "image/png",
        ImageCodec::Mjpeg | ImageCodec::Mjpegb => "image/jpeg",
        ImageCodec::Bmp => "image/bmp",
        ImageCodec::Gif => "image/gif",
        ImageCodec::Tiff => "image/tiff",
        ImageCodec::Webp => "image/webp",
        ImageCodec::Other => "application/octet-stream",
    }
}

/// Enabling more media types never drops an extension that was accepted:
/// whatever is added, before or after the enabled types, an accepted extension
/// stays accepted.
pub proof fn law_enabling_types_keeps_extensions(ext: Seq<char>, media_types: Seq<String>, more: Seq<String>)
    ensures
        supported_for(ext, media_types) ==> supported_for(ext, media_types + more),
        supported_for(ext, media_types) ==> supported_for(ext, more + media_types),
{
    if type_enabled(media_types, "audio"@) {
        let i = choose|i: int| 0 <= i < media_types.len() && (#[trigger] media_types[i])@ == "audio"@;
        assert((media_types + more)[i] == media_types[i]);
        assert((more + media_types)[more.len() + i] == media_types[i]);
    }
    if type_enabled(media_types, "video"@) {
        let i = choose|i: int| 0 <= i < media_types.len() && (#[trigger] media_types[i])@ == "video"@;
        assert((media_types + more)[i] == media_types[i]);
        assert((more + media_types)[more.len() + i] == media_types[i]);
    }
}

/// An extension is accepted exactly for the kinds it belongs to: each audio
/// extension whenever `audio` is enabled, each video extension whenever `video`
/// is, both compared in lowercase; nothing else is accepted.
pub proof fn law_extension_accepted_by_kind(ext: Seq<char>, media_types: Seq<String>)
    ensures
        type_enabled(media_types, "audio"@) && listed(SUPPORTED_EXTENSIONS@, unicode_lowercase(ext)) ==> supported_for(
            ext,
            media_types,
        ),
        type_enabled(media_types, "video"@) && listed(VIDEO_EXTENSIONS@, unicode_lowercase(ext)) ==> supported_for(
            ext,
            media_types,
        ),
        supported_for(ext, media_types) ==> listed(SUPPORTED_EXTENSIONS@, unicode_lowercase(ext)) || listed(
            VIDEO_EXTENSIONS@,
            unicode_lowercase(ext),
        ),
        !type_enabled(media_types, "audio"@) && !type_enabled(media_types, "video"@) ==> !supported_for(
            ext,
            media_types,
        ),
{
}

/// A sequence in which no character is an ASCII capital is its own ASCII lowercase.
proof fn lemma_ascii_lower_fixed(s: Seq<char>)
    requires
        forall|i: int| 0 <= i < s.len() ==> !('A' <= #[trigger] s[i] <= 'Z'),
    ensures
        ascii_lower_seq(s) == s,
{
    assert(ascii_lower_seq(s) =~= s);
}

/// A sequence without `c` is its own first piece when split at `c`.
proof fn lemma_split_first_whole(s: Seq<char>, c: char)
    requires
        forall|i: int| 0 <= i < s.len() ==> #[trigger] s[i] != c,
    ensures
        split_first(s, c) == s,
    decreases s.len(),
{
    if s.len() > 0 {
        let rest = s.drop_first();
        assert forall|i: int| 0 <= i < rest.len() implies #[trigger] rest[i] != c by {
            assert(rest[i] == s[i + 1]);
        }
        lemma_split_first_whole(rest, c);
        assert(seq![s[0]] + rest =~= s);
    }
}

/// A media type written in lowercase letters, digits, `/` and `-` is its own
/// media type.
proof fn lemma_plain_media_type(s: Seq<char>)
    requires
        s.len() > 0,
        forall|i: int|
            0 <= i < s.len() ==> ('a' <= #[trigger] s[i] <= 'z' || s[i] == '/' || s[i] == '-' || ('0' <= s[i]
                <= '9')),
    ensures
        media_type(s) == s,
{
    lemma_ascii_lower_fixed(s);
    lemma_split_first_whole(s, ';');
    assert(!is_ws(s[0]));
    assert(!is_ws(s.last()));
}

/// Every type the server names audio by is taken back as audio on import: a
/// file whose (ASCII-lowercased) extension is a supported audio format other
/// than `mka` is served with an `audio/` type, and a reply of that type is
/// saved with that same extension. An `mp3` file in particular is served as
/// `audio/mpeg`.
pub proof fn law_served_audio_types_import_back(filename: Seq<char>, e: Seq<char>)
    requires
        extension(filename) == Some(e),
        listed(SUPPORTED_EXTENSIONS@, ascii_lower_seq(e)),
        ascii_lower_seq(e) != "mka"@,
    ensures
        has_prefix(audio_mime(filename), "audio/"@),
        content_type_extension(audio_mime(filename)) == Some(ascii_lower_seq(e)),
        ascii_lower_seq(e) == "mp3"@ ==> audio_mime(filename) == "audio/mpeg"@,
{
    let x = ascii_lower_seq(e);
    reveal_strlit("mp3");
    reveal_strlit("ogg");
    reveal_strlit("wav");
    reveal_strlit("aac");
    reveal_strlit("flac");
    reveal_strlit("m4a");
    reveal_strlit("opus");
    reveal_strlit("mka");
    reveal_strlit("oga");
    reveal_strlit("mp4");
    reveal_strlit("webm");
    reveal_strlit("audio/");
    reveal_strlit("audio/mpeg");
    reveal_strlit("audio/mp3");
    reveal_strlit("audio/ogg");
    reveal_strlit("audio/wav");
    reveal_strlit("audio/x-wav");
    reveal_strlit("audio/aac");
    reveal_strlit("audio/flac");
    reveal_strlit("audio/x-flac");
    reveal_strlit("audio/mp4");
    reveal_strlit("audio/m4a");
    reveal_strlit("audio/x-m4a");
    reveal_strlit("audio/opus");
    reveal_strlit("audio/webm");
    reveal_strlit("audio/x-matroska");
    reveal_strlit("audio/x-mka");
    reveal_strlit("application/octet-stream");
    let i = choose|i: int| 0 <= i < SUPPORTED_EXTENSIONS@.len() && (#[trigger] SUPPORTED_EXTENSIONS@[i])@ == x;
    let m = audio_mime(filename);
    if x == "mp3"@ {
        assert(x[2] == '3');
        assert(x != "ogg"@ && x != "oga"@ && x != "wav"@ && x != "m4a"@ && x != "mp4"@ && x != "aac"@);
        assert(m == "audio/mpeg"@);
        lemma_plain_media_type(m);
        assert(m[6] == 'm' && m[7] == 'p');
    } else if x == "ogg"@ {
        assert(x[0] == 'o' && x[2] == 'g');
        assert(m == "audio/ogg"@);
        lemma_plain_media_type(m);
        assert(m[6] == 'o');
    } else if x == "wav"@ {
        assert(x[0] == 'w');
        assert(x != "ogg"@ && x != "oga"@);
        assert(m == "audio/wav"@);
        lemma_plain_media_type(m);
        assert(m[6] == 'w');
    } else if x == "aac"@ {
        assert(x[0] == 'a');
        assert(x != "ogg"@ && x != "oga"@ && x != "wav"@ && x != "m4a"@ && x != "mp4"@);
        assert(m == "audio/aac"@);
        lemma_plain_media_type(m);
        assert(m[6] == 'a');
    } else if x == "flac"@ {
        assert(m == "audio/flac"@);
        lemma_plain_media_type(m);
        assert(m[6] == 'f' && m[7] == 'l');
    } else if x == "m4a"@ {
        assert(x[0] == 'm' && x[1] == '4');
        assert(x != "ogg"@ && x != "oga"@ && x != "wav"@);
        assert(m == "audio/mp4"@);
        lemma_plain_media_type(m);
        assert(m[6] == 'm' && m[7] == 'p' && m[8] == '4');
    } else {
        assert(x == "opus"@);
        assert(x[0] == 'o');
        assert(x.len() == 4);
        assert(x != "flac"@ && x != "webm"@);
        assert(x != "ogg"@ && x != "oga"@ && x != "wav"@ && x != "m4a"@ && x != "mp4"@ && x != "aac"@);
        assert(audio_mime(filename) == "audio/opus"@);
        lemma_plain_media_type(m);
        assert(m[6] == 'o' && m[7] == 'p');
    }
    assert(m.take(6) =~= "audio/"@);
}

/// A reply typed `audio/` followed by the name of a supported audio format
/// (other than `mka`) is saved under that format's extension, whatever its case
/// and parameters.
pub proof fn law_audio_subtype_names_extension(content_type: Seq<char>, x: Seq<char>)
    requires
        media_type(content_type) == "audio/"@ + x,
        listed(SUPPORTED_EXTENSIONS@, x),
        x != "mka"@,
    ensures
        content_type_extension(content_type) == Some(x),
{
    reveal_strlit("mp3");
    reveal_strlit("ogg");
    reveal_strlit("wav");
    reveal_strlit("aac");
    reveal_strlit("flac");
    reveal_strlit("m4a");
    reveal_strlit("opus");
    reveal_strlit("mka");
    reveal_strlit("audio/");
    reveal_strlit("audio/mpeg");
    reveal_strlit("audio/mp3");
    reveal_strlit("audio/ogg");
    reveal_strlit("audio/wav");
    reveal_strlit("audio/x-wav");
    reveal_strlit("audio/aac");
    reveal_strlit("audio/flac");
    reveal_strlit("audio/x-flac");
    reveal_strlit("audio/mp4");
    reveal_strlit("audio/m4a");
    reveal_strlit("audio/x-m4a");
    reveal_strlit("audio/opus");
    reveal_strlit("audio/webm");
    reveal_strlit("audio/x-matroska");
    reveal_strlit("audio/x-mka");
    reveal_strlit("application/octet-stream");
    let m = media_type(content_type);
    let i = choose|i: int| 0 <= i < SUPPORTED_EXTENSIONS@.len() && (#[trigger] SUPPORTED_EXTENSIONS@[i])@ == x;
    if x == "mp3"@ {
        assert(m =~= "audio/mp3"@);
        assert(m[6] == 'm' && m[7] == 'p' && m[8] == '3');
    } else if x == "ogg"@ {
        assert(m =~= "audio/ogg"@);
        assert(m[6] == 'o');
    } else if x == "wav"@ {
        assert(m =~= "audio/wav"@);
        assert(m[6] == 'w');
    } else if x == "aac"@ {
        assert(m =~= "audio/aac"@);
        assert(m[6] == 'a');
    } else if x == "flac"@ {
        assert(m =~= "audio/flac"@);
        assert(m[6] == 'f');
    } else if x == "m4a"@ {
        assert(m =~= "audio/m4a"@);
        assert(m[6] == 'm' && m[7] == '4');
    } else {
        assert(x == "opus"@);
        assert(m =~= "audio/opus"@);
        assert(m[6] == 'o' && m[7] == 'p');
    }
}

/// The `x-` forms of the WAV, FLAC, M4A and Matroska audio types are saved
/// under the same extensions as their plain names.
pub proof fn law_experimental_audio_subtypes(content_type: Seq<char>, x: Seq<char>)
    requires
        media_type(content_type) == "audio/x-"@ + x,
        x == "wav"@ || x == "flac"@ || x == "m4a"@ || x == "mka"@,
    ensures
        content_type_extension(content_type) == Some(x),
{
    reveal_strlit("wav");
    reveal_strlit("flac");
    reveal_strlit("m4a");
    reveal_strlit("mka");
    reveal_strlit("audio/x-");
    reveal_strlit("audio/mpeg");
    reveal_strlit("audio/mp3");
    reveal_strlit("audio/ogg");
    reveal_strlit("audio/wav");
    reveal_strlit("audio/x-wav");
    reveal_strlit("audio/aac");
    reveal_strlit("audio/flac");
    reveal_strlit("audio/x-flac");
    reveal_strlit("audio/mp4");
    reveal_strlit("audio/m4a");
    reveal_strlit("audio/x-m4a");
    reveal_strlit("audio/opus");
    reveal_strlit("audio/webm");
    reveal_strlit("audio/x-matroska");
    reveal_strlit("audio/x-mka");
    let m = media_type(content_type);
    if x == "wav"@ {
        assert(m =~= "audio/x-wav"@);
        assert(m[6] == 'x' && m[8] == 'w');
    } else if x == "flac"@ {
        assert(m =~= "audio/x-flac"@);
        assert(m[6] == 'x' && m[8] == 'f');
    } else if x == "m4a"@ {
        assert(m =~= "audio/x-m4a"@);
        assert(m[6] == 'x' && m[8] == 'm' && m[9] == '4');
    } else {
        assert(m =~= "audio/x-mka"@);
        assert(m[6] == 'x' && m[8] == 'm' && m[9] == 'k');
    }
}

/// Only audio is imported, and only under a supported audio extension: a type
/// that is accepted is an `audio/` type or the generic binary type, and the
/// extension it gives is one the library scans.
pub proof fn law_imported_types_are_audio(content_type: Seq<char>)
    ensures
        content_type_extension(content_type) matches Some(x) ==> listed(SUPPORTED_EXTENSIONS@, x),
        content_type_extension(content_type) is Some ==> has_prefix(media_type(content_type), "audio/"@)
            || media_type(content_type) == "application/octet-stream"@,
{
    let m = media_type(content_type);
    reveal_strlit("audio/");
    reveal_strlit("audio/mpeg");
    reveal_strlit("audio/mp3");
    reveal_strlit("audio/ogg");
    reveal_strlit("audio/wav");
    reveal_strlit("audio/x-wav");
    reveal_strlit("audio/aac");
    reveal_strlit("audio/flac");
    reveal_strlit("audio/x-flac");
    reveal_strlit("audio/mp4");
    reveal_strlit("audio/m4a");
    reveal_strlit("audio/x-m4a");
    reveal_strlit("audio/opus");
    reveal_strlit("audio/webm");
    reveal_strlit("audio/x-matroska");
    reveal_strlit("audio/x-mka");
    if content_type_extension(content_type) is Some && m != "application/octet-stream"@ {
        assert(m.take(6) =~= "audio/"@);
    }
    assert(SUPPORTED_EXTENSIONS@[0]@ == "mp3"@);
    assert(SUPPORTED_EXTENSIONS@[1]@ == "ogg"@);
    assert(SUPPORTED_EXTENSIONS@[2]@ == "wav"@);
    assert(SUPPORTED_EXTENSIONS@[3]@ == "aac"@);
    assert(SUPPORTED_EXTENSIONS@[4]@ == "flac"@);
    assert(SUPPORTED_EXTENSIONS@[5]@ == "m4a"@);
    assert(SUPPORTED_EXTENSIONS@[6]@ == "opus"@);
    assert(SUPPORTED_EXTENSIONS@[7]@ == "mka"@);
}

} // verus!
