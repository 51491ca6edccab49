//! Requests and replies of the HTTP API, and how a song's stream address is
//! chosen.
use vstd::prelude::*;
use crate::download::Platform;
use crate::remote::{opt_string_view, IpAddress};
use crate::text::{chars_of, decimal, has_prefix, push_signed_decimal, push_str, signed_decimal, str_eq, str_starts_with, string_of};

verus! {

/// A saved collection of songs.
pub struct Collection {
    pub id: i32,
    pub name: String,
    pub created_at: String,
}

/// A request to create a collection.
pub struct CreateCollectionRequest {
    pub name: String,
}

/// A request to add songs to a collection.
pub struct AddToCollectionRequest {
    pub music_ids: Vec<i32>,
}

/// A request to remove songs from a collection.
pub struct RemoveFromCollectionRequest {
    pub music_ids: Vec<i32>,
}

/// A directory in a directory tree, with its subdirectories.
pub struct DirectoryNode {
    pub name: String,
    pub path: String,
    /// Always `directory` (the `type` field on the wire).
    pub node_type: String,
    pub children: Option<Vec<DirectoryNode>>,
}

/// The reply to an upload.
pub struct UploadResponse {
    pub success: bool,
    pub message: String,
    pub uploaded: Vec<String>,
    pub failed: Vec<String>,
}

/// A request to change the music directory.
pub struct SetMusicDirectoryRequest {
    pub path: String,
}

/// The music directory.
pub struct MusicDirectoryResponse {
    pub path: String,
}

/// The outcome of changing the music directory.
pub struct SetDirectoryResponse {
    pub success: bool,
    pub message: String,
}

/// A request to change the media types scanned.
pub struct SetMediaTypesRequest {
    pub media_types: Vec<String>,
}

/// The media types scanned.
pub struct MediaTypesResponse {
    pub media_types: Vec<String>,
}

/// The outcome of a library update.
pub struct UpdateResponse {
    pub success: bool,
    pub message: String,
}

/// The `stream` query parameter of playlist requests.
pub struct StreamQuery {
    pub stream: Option<String>,
}

/// The `startup` query parameter of a library update.
pub struct UpdateQuery {
    pub startup: Option<bool>,
}

/// The address a song is streamed from over HTTP:
/// `{scheme}://{host}/api/music/id/{id}`.
pub open spec fn http_stream_url(scheme: Seq<char>, host: Seq<char>, music_id: i32) -> Seq<char> {
    scheme + "://"@ + host + "/api/music/id/"@ + signed_decimal(music_id as int)
}

/// Builds a song's HTTP stream address from the request's scheme and host.
pub fn build_http_stream_url(scheme: &str, host: &str, music_id: i32) -> (r: String)
    ensures
        r@ == http_stream_url(scheme@, host@, music_id),
{
    let mut out: Vec<char> = Vec::new();
    push_str(&mut out, scheme);
    push_str(&mut out, "://");
    push_str(&mut out, host);
    push_str(&mut out, "/api/music/id/");
    push_signed_decimal(&mut out, music_id as i64);
    string_of(&out)
}

/// A loopback address: `127.0.0.0/8` or `::1`.
pub open spec fn loopback(ip: IpAddress) -> bool {
    match ip {
        IpAddress::V4(o) => o@[0] == 127,
        IpAddress::V6(s) => (forall|i: int| 0 <= i < 7 ==> s@[i] == 0) && s@[7] == 1,
    }
}

/// Whether an address is a loopback address.
pub fn is_loopback(ip: IpAddress) -> (r: bool)
    ensures
        r == loopback(ip),
{
    match ip {
        IpAddress::V4(o) => o[0] == 127,
        IpAddress::V6(s) => {
            let r = s[0] == 0 && s[1] == 0 && s[2] == 0 && s[3] == 0 && s[4] == 0 && s[5] == 0 && s[6] == 0
                && s[7] == 1;
            assert(r == ((forall|i: int| 0 <= i < 7 ==> s@[i] == 0) && s@[7] == 1)) by {
                if !r && s@[7] == 1 {
                    assert(s@[0] != 0 || s@[1] != 0 || s@[2] != 0 || s@[3] != 0 || s@[4] != 0 || s@[5] != 0 || s@[6] != 0);
                }
            }
            r
        },
    }
}

/// Whether a request came from this machine: its peer address is known and is
/// a loopback address. Path-based endpoints answer only such requests.
pub fn is_localhost_request(peer: Option<IpAddress>) -> (r: bool)
    ensures
        r == (peer matches Some(ip) && loopback(ip)),
{
    match peer {
        Some(ip) => is_loopback(ip),
        None => false,
    }
}

/// The refusal sent to a request from another machine.
pub const LOCAL_ACCESS_ONLY: &'static str = "Local access only";

/// Whether the `stream` parameter asks for the content URI itself.
pub open spec fn asks_content(stream: Option<Seq<char>>) -> bool {
    stream == Some("content"@)
}

fn wants_content(stream: Option<&str>) -> (r: bool)
    ensures
        r == asks_content(crate::filenames::opt_view(stream)),
{
    match stream {
        Some(s) => str_eq(s, "content"),
        None => false,
    }
}

/// Whether a `stream=content` request may be served: on Android only from this
/// machine (403 otherwise); elsewhere never (400).
pub open spec fn stream_request_check(stream: Option<Seq<char>>, is_localhost: bool, platform: Platform) -> Result<
    (),
    (u16, Seq<char>),
> {
    if !asks_content(stream) {
        Ok(())
    } else if platform == Platform::Android {
        if is_localhost {
            Ok(())
        } else {
            Err((403, "content stream is only available from localhost"@))
        }
    } else {
        Err((400, "content stream is only available on Android"@))
    }
}

/// Checks the `stream` parameter of a playlist request.
pub fn validate_stream_request(stream: Option<&str>, is_localhost: bool, platform: Platform) -> (r: Result<
    (),
    (u16, &'static str),
>)
    ensures
        match r {
            Ok(()) => stream_request_check(crate::filenames::opt_view(stream), is_localhost, platform) is Ok,
            Err((code, m)) => stream_request_check(crate::filenames::opt_view(stream), is_localhost, platform)
                == Err::<(), (u16, Seq<char>)>((code, m@)),
        },
{
    if !wants_content(stream) {
        return Ok(());
    }
    if platform == Platform::Android {
        if is_localhost {
            Ok(())
        } else {
            Err((403, "content stream is only available from localhost"))
        }
    } else {
        Err((400, "content stream is only available on Android"))
    }
}

/// The address a song is streamed from directly: on Android, for this
/// machine's own `stream=content` request, a `content://` song is played from
/// its URI; otherwise it goes through the HTTP endpoint (`None`).
pub open spec fn direct_stream_url(file_path: Seq<char>, stream: Option<Seq<char>>, is_localhost: bool, platform: Platform) -> Option<Seq<char>> {
    if platform == Platform::Android && is_localhost && asks_content(stream) && has_prefix(file_path, "content://"@) {
        Some(file_path)
    } else {
        None
    }
}

/// Chooses whether a song is played from its content URI.
pub fn resolve_stream_url(file_path: &str, stream: Option<&str>, is_localhost: bool, platform: Platform) -> (r: Option<
    String,
>)
    ensures
        opt_string_view(r) == direct_stream_url(file_path@, crate::filenames::opt_view(stream), is_localhost, platform),
{
    if platform == Platform::Android && is_localhost && wants_content(stream) && str_starts_with(file_path, "content://") {
        Some(string_of(&chars_of(file_path)))
    } else {
        None
    }
}

} // verus!
