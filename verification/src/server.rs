//! Server start-up choices (music directory, device name, download roots), its
//! address, and which file of the built frontend answers a request.
use vstd::prelude::*;
use crate::config::fallback_device_name;
use crate::download::{components, Platform};
use crate::filenames::opt_view;
use crate::lyrics::{join, join_chars, lines_view, slice_chars, strings_view};
use crate::paths::{
    extension, extension_of_path, has_parent_component, has_parent_dir, join_path, join_relative_path, path_segments,
    segments, starts_cur_dir, starts_root,
};
use crate::remote::opt_string_view;
use crate::text::{
    chars_eq, chars_of, decimal, has_prefix, push_all, push_decimal, push_str, str_eq, str_starts_with, string_of,
    trim_start_char,
};

verus! {

/// Where the built frontend lives, when it was found.
pub struct StaticFrontendConfig {
    pub dist_dir: Option<String>,
}

/// The address the server listens on.
pub struct ServerInfo {
    pub ip: String,
    pub port: u16,
}

impl ServerInfo {
    /// The address as `ip:port`.
    pub fn url(&self) -> (r: String)
        ensures
            r@ == self.ip@ + ":"@ + decimal(self.port as nat),
    {
        let mut out: Vec<char> = Vec::new();
        push_str(&mut out, self.ip.as_str());
        push_str(&mut out, ":");
        push_decimal(&mut out, self.port as u64);
        string_of(&out)
    }
}

/// The address the server binds.
pub const SERVER_IP: &'static str = "0.0.0.0";

/// The port of the HTTP API.
pub const SERVER_PORT: u16 = 2080;

/// The message when no music directory can be chosen.
pub const NO_MUSIC_DIRECTORY: &'static str = "No music directory configured. Use CLI argument, config file, or KAULAN_MUSIC_DIR environment variable.";

/// The music directory to serve, by priority: the command line, the settings
/// file, the `KAULAN_MUSIC_DIR` environment variable, `/storage` on Android,
/// then `~/Music` and `./music` when they are existing directories.
pub open spec fn music_directory_choice(
    cli: Option<Seq<char>>,
    config: Option<Seq<char>>,
    env: Option<Seq<char>>,
    platform: Platform,
    home_music: Option<Seq<char>>,
    home_music_is_dir: bool,
    local_music_is_dir: bool,
) -> Result<Seq<char>, Seq<char>> {
    if cli is Some {
        Ok(cli->0)
    } else if config is Some {
        Ok(config->0)
    } else if env is Some {
        Ok(env->0)
    } else if platform == Platform::Android {
        Ok("/storage"@)
    } else if home_music is Some && home_music_is_dir {
        Ok(home_music->0)
    } else if home_music is Some && local_music_is_dir {
        Ok("./music"@)
    } else {
        Err(NO_MUSIC_DIRECTORY@)
    }
}

fn own(s: &str) -> (r: String)
    ensures
        r@ == s@,
{
    string_of(&chars_of(s))
}

/// Chooses the music directory from what was found: the command-line path, the
/// saved one, the environment's, the platform, `~/Music` (when there is a home
/// directory) and whether it and `./music` are directories.
pub fn choose_music_directory(
    cli: Option<&str>,
    config: Option<&str>,
    env: Option<&str>,
    platform: Platform,
    home_music: Option<&str>,
    home_music_is_dir: bool,
    local_music_is_dir: bool,
) -> (r: Result<String, String>)
    ensures
        match r {
            Ok(d) => music_directory_choice(
                opt_view(cli),
                opt_view(config),
                opt_view(env),
                platform,
                opt_view(home_music),
                home_music_is_dir,
                local_music_is_dir,
            ) == Ok::<Seq<char>, Seq<char>>(d@),
            Err(e) => music_directory_choice(
                opt_view(cli),
                opt_view(config),
                opt_view(env),
                platform,
                opt_view(home_music),
                home_music_is_dir,
                local_music_is_dir,
            ) == Err::<Seq<char>, Seq<char>>(e@),
        },
{
    if let Some(p) = cli {
        return Ok(own(p));
    }
    if let Some(p) = config {
        return Ok(own(p));
    }
    if let Some(p) = env {
        return Ok(own(p));
    }
    if platform == Platform::Android {
        return Ok(own("/storage"));
    }
    match home_music {
        Some(h) => {
            if home_music_is_dir {
                Ok(own(h))
            } else if local_music_is_dir {
                Ok(own("./music"))
            } else {
                Err(own(NO_MUSIC_DIRECTORY))
            }
        },
        None => Err(own(NO_MUSIC_DIRECTORY)),
    }
}

/// The device name announced on the network: the saved one, else the host name
/// when usable, else the fallback built from the device id.
pub fn choose_device_name(configured: Option<String>, hostname_name: Option<String>, device_id: &str) -> (r: String)
    ensures
        r@ == (match opt_string_view(configured) {
            Some(n) => n,
            None => match opt_string_view(hostname_name) {
                Some(h) => h,
                None => fallback_device_name(device_id@),
            },
        }),
{
    match configured {
        Some(n) => n,
        None => match hostname_name {
            Some(h) => h,
            None => crate::config::generate_fallback_device_name(device_id),
        },
    }
}

/// Where downloads go: `KAULAN_DOWNLOAD_ROOT` when set, else the music
/// directory.
pub fn choose_download_root(env: Option<&str>, music_path: &str) -> (r: String)
    ensures
        r@ == (match opt_view(env) {
            Some(e) => e,
            None => music_path@,
        }),
{
    match env {
        Some(e) => own(e),
        None => own(music_path),
    }
}

/// Where previews go: `KAULAN_PREVIEW_ROOT` when set, else `kaulan-preview` in
/// the temporary directory.
pub fn choose_preview_root(env: Option<&str>, temp_dir: &str) -> (r: String)
    ensures
        r@ == (match opt_view(env) {
            Some(e) => e,
            None => join_path(temp_dir@, "kaulan-preview"@),
        }),
{
    match env {
        Some(e) => own(e),
        None => join_relative_path(temp_dir, "kaulan-preview"),
    }
}

/// The message when the frontend has not been built.
pub const FRONTEND_MISSING: &'static str = "Frontend build not found. Run `npm run build` in frontend/ or set KAULAN_FRONTEND_DIST.";

/// A request path that belongs to the API (`/api` or under `/api/`), which the
/// frontend never answers.
pub open spec fn api_path(p: Seq<char>) -> bool {
    p == "/api"@ || has_prefix(p, "/api/"@)
}

/// Whether a request path belongs to the API.
pub fn is_api_path(p: &str) -> (r: bool)
    ensures
        r == api_path(p@),
{
    str_eq(p, "/api") || str_starts_with(p, "/api/")
}

/// What a frontend request path asks for, once its leading slashes are
/// dropped: `index.html` for the root; nothing for a path with a `..`
/// component; otherwise its normal components joined with `/`, whether its first
/// component is `assets`, and whether it names an extension.
pub open spec fn frontend_request(req: Seq<char>) -> Option<(Seq<char>, bool, bool)> {
    let r = trim_start_char(req, '/');
    if r.len() == 0 {
        Some(("index.html"@, false, false))
    } else if has_parent_component(r) {
        None
    } else {
        Some(
            (
                join(segments(r), "/"@),
                components(r).len() > 0 && components(r)[0] == "assets"@,
                extension(r) is Some,
            ),
        )
    }
}

/// A frontend request: the file it names under the build directory, whether it
/// is an asset, and whether it names an extension.
pub struct FrontendRequest {
    pub relative_path: String,
    pub is_asset: bool,
    pub has_extension: bool,
}

/// Reads a frontend request path.
pub fn parse_frontend_request(requested_path: &str) -> (r: Option<FrontendRequest>)
    ensures
        match r {
            Some(q) => frontend_request(requested_path@) == Some((q.relative_path@, q.is_asset, q.has_extension)),
            None => frontend_request(requested_path@) is None,
        },
{
    let v = chars_of(requested_path);
    let mut start: usize = 0;
    assert(v@.skip(0) =~= v@);
    while start < v.len() && v[start] == '/'
        invariant
            start <= v.len(),
            v@ == requested_path@,
            trim_start_char(v@, '/') == trim_start_char(v@.skip(start as int), '/'),
        decreases v.len() - start,
    {
        assert(v@.skip(start as int).drop_first() =~= v@.skip(start + 1));
        start = start + 1;
    }
    let r = slice_chars(&v, start, v.len());
    assert(r@ =~= v@.skip(start as int));
    assert(trim_start_char(r@, '/') == r@);
    if r.len() == 0 {
        return Some(FrontendRequest { relative_path: own("index.html"), is_asset: false, has_extension: false });
    }
    if has_parent_dir(&r) {
        return None;
    }
    let segs = path_segments(&r);
    let slash = chars_of("/");
    let joined = join_chars(&segs, &slash);
    let comps_first_is_assets = if r.len() == 1 && r[0] == '.' || (r.len() >= 2 && r[0] == '.' && r[1] == '/') {
        proof {
            if r@.len() >= 2 {
                assert(r@.take(2) =~= seq!['.', '/']);
            } else {
                assert(r@ =~= seq!['.']);
            }
            assert(components(r@)[0] == seq!['.']);
            reveal_strlit("assets");
            assert(seq!['.'].len() != "assets"@.len());
        }
        false
    } else {
        proof {
            if r@ == seq!['.'] {
                assert(r@.len() == 1 && r@[0] == '.');
            }
            if has_prefix(r@, seq!['.', '/']) {
                assert(r@.take(2)[0] == '.' && r@.take(2)[1] == '/');
            }
            assert(!starts_root(r@));
            assert(components(r@) =~= segments(r@));
        }
        if segs.len() > 0 {
            let assets = chars_of("assets");
            assert(lines_view(segs@)[0] == segs@[0]@);
            chars_eq(&segs[0], &assets)
        } else {
            false
        }
    };
    let has_ext = extension_of_path(&r).is_some();
    Some(FrontendRequest { relative_path: string_of(&joined), is_asset: comps_first_is_assets, has_extension: has_ext })
}

/// Which file answers a frontend request.
#[derive(Clone, Copy, Debug, PartialEq, Eq, Structural)]
pub enum FrontendFile {
    /// `index.html` inside the requested directory.
    DirectoryIndex,
    /// The requested file itself.
    Requested,
    /// The application's `index.html`, for client-side routes.
    AppIndex,
    /// Nothing: answered with 404.
    NotFound,
}

/// Which file answers: a directory's own index, then the file itself; a
/// missing asset or file with an extension is not found; any other path gets
/// the application's index, when the build has one.
pub open spec fn frontend_choice(
    is_asset: bool,
    has_extension: bool,
    candidate_is_dir: bool,
    candidate_index_is_file: bool,
    candidate_is_file: bool,
    app_index_is_file: bool,
) -> FrontendFile {
    if candidate_is_dir && candidate_index_is_file {
        FrontendFile::DirectoryIndex
    } else if candidate_is_file {
        FrontendFile::Requested
    } else if is_asset || has_extension {
        FrontendFile::NotFound
    } else if app_index_is_file {
        FrontendFile::AppIndex
    } else {
        FrontendFile::NotFound
    }
}

/// Picks the file that answers a frontend request, from what the build
/// directory holds at the candidate path.
pub fn static_frontend_file(
    request: &FrontendRequest,
    candidate_is_dir: bool,
    candidate_index_is_file: bool,
    candidate_is_file: bool,
    app_index_is_file: bool,
) -> (r: FrontendFile)
    ensures
        r == frontend_choice(
            request.is_asset,
            request.has_extension,
            candidate_is_dir,
            candidate_index_is_file,
            candidate_is_file,
            app_index_is_file,
        ),
{
    if candidate_is_dir && candidate_index_is_file {
        FrontendFile::DirectoryIndex
    } else if candidate_is_file {
        FrontendFile::Requested
    } else if request.is_asset || request.has_extension {
        FrontendFile::NotFound
    } else if app_index_is_file {
        FrontendFile::AppIndex
    } else {
        FrontendFile::NotFound
    }
}

/// The directories searched for the built frontend, in order: the
/// `KAULAN_FRONTEND_DIST` override, `frontend/dist` and `../frontend/dist` under
/// the working directory (when known), and `../frontend/dist` beside the
/// sources.
pub fn frontend_dist_candidates(env_dir: Option<&str>, current_dir: Option<&str>, source_dir: &str) -> (r: Vec<String>)
    ensures
        strings_view(r@) == (match opt_view(env_dir) {
            Some(e) => seq![e],
            None => Seq::empty(),
        }) + (match opt_view(current_dir) {
            Some(c) => seq![join_path(c, "frontend/dist"@), join_path(c, "../frontend/dist"@)],
            None => Seq::empty(),
        }) + seq![join_path(source_dir@, "../frontend/dist"@)],
{
    let mut r: Vec<String> = Vec::new();
    if let Some(e) = env_dir {
        r.push(own(e));
    }
    let ghost first = strings_view(r@);
    if let Some(c) = current_dir {
        r.push(join_relative_path(c, "frontend/dist"));
        r.push(join_relative_path(c, "../frontend/dist"));
    }
    let ghost second = strings_view(r@);
    r.push(join_relative_path(source_dir, "../frontend/dist"));
    assert(strings_view(r@) =~= second + seq![join_path(source_dir@, "../frontend/dist"@)]);
    proof {
        match opt_view(current_dir) {
            Some(c) => {
                assert(second =~= first + seq![join_path(c, "frontend/dist"@), join_path(c, "../frontend/dist"@)]);
            },
            None => {
                assert(second =~= first + Seq::<Seq<char>>::empty());
            },
        }
        match opt_view(env_dir) {
            Some(e) => {
                assert(first =~= seq![e]);
            },
            None => {
                assert(first =~= Seq::<Seq<char>>::empty());
            },
        }
    }
    r
}

/// What a frontend request is answered before any file is looked up: an API
/// path is not found (404, empty body); without a frontend build, 404 with the
/// message saying so; otherwise nothing yet (`None`).
pub open spec fn frontend_gate(request_path: Seq<char>, build_found: bool) -> Option<(u16, Seq<char>)> {
    if api_path(request_path) {
        Some((404, Seq::empty()))
    } else if !build_found {
        Some((404, FRONTEND_MISSING@))
    } else {
        None
    }
}

/// Answers a frontend request that cannot reach a file: API paths and a
/// missing build.
pub fn check_frontend_request(request_path: &str, build_found: bool) -> (r: Option<(u16, &'static str)>)
    ensures
        match r {
            Some((code, body)) => frontend_gate(request_path@, build_found) == Some((code, body@)),
            None => frontend_gate(request_path@, build_found) is None,
        },
{
    if is_api_path(request_path) {
        proof {
            reveal_strlit("");
        }
        Some((404, ""))
    } else if !build_found {
        Some((404, FRONTEND_MISSING))
    } else {
        None
    }
}

} // verus!
