//! The persisted settings: where the configuration lives, its defaults, and
//! how each setting is read from it and written into it without disturbing the
//! others.
use vstd::prelude::*;
use crate::filenames::opt_view;
use crate::lyrics::strings_view;
use crate::media::{is_listed, listed, lower_ascii};
use crate::paths::{join_path, join_relative_path};
use crate::remote::opt_string_view;
use crate::text::{ascii_lower_seq, chars_of, has_prefix, push_str, str_eq, string_of, trim, trim_chars};

verus! {

/// The settings kept in `config.json`.
pub struct Config {
    pub music_directory: Option<String>,
    pub device_id: Option<String>,
    pub device_name: Option<String>,
    pub periodic_discovery_enabled: bool,
    pub media_types: Option<Vec<String>>,
}

/// The settings as plain values.
pub struct ConfigView {
    pub music_directory: Option<Seq<char>>,
    pub device_id: Option<Seq<char>>,
    pub device_name: Option<Seq<char>>,
    pub periodic_discovery_enabled: bool,
    pub media_types: Option<Seq<Seq<char>>>,
}

/// The characters of each string of an optional list.
pub open spec fn opt_strings_view(o: Option<Vec<String>>) -> Option<Seq<Seq<char>>> {
    match o {
        Some(v) => Some(strings_view(v@)),
        None => None,
    }
}

impl View for Config {
    type V = ConfigView;

    open spec fn view(&self) -> ConfigView {
        ConfigView {
            music_directory: opt_string_view(self.music_directory),
            device_id: opt_string_view(self.device_id),
            device_name: opt_string_view(self.device_name),
            periodic_discovery_enabled: self.periodic_discovery_enabled,
            media_types: opt_strings_view(self.media_types),
        }
    }
}

/// The settings of a fresh installation: nothing chosen, periodic discovery on,
/// audio scanned.
pub open spec fn default_config() -> ConfigView {
    ConfigView {
        music_directory: None,
        device_id: None,
        device_name: None,
        periodic_discovery_enabled: true,
        media_types: Some(seq!["audio"@]),
    }
}

/// The media types scanned when none are configured: audio only.
pub fn default_media_types() -> (r: Option<Vec<String>>)
    ensures
        opt_strings_view(r) == Some(seq!["audio"@]),
{
    let mut v: Vec<String> = Vec::new();
    v.push("audio".to_owned());
    assert(strings_view(v@) =~= seq!["audio"@]);
    Some(v)
}

/// Periodic discovery is on unless turned off.
pub fn default_periodic_discovery_enabled() -> (r: bool)
    ensures
        r,
{
    true
}

impl Default for Config {
    fn default() -> (r: Config)
        ensures
            r@ == default_config(),
    {
        Config {
            music_directory: None,
            device_id: None,
            device_name: None,
            periodic_discovery_enabled: default_periodic_discovery_enabled(),
            media_types: default_media_types(),
        }
    }
}

/// The settings a change starts from: those read from the file, or the
/// defaults when there are none.
pub open spec fn base_config(existing: Option<ConfigView>) -> ConfigView {
    match existing {
        Some(c) => c,
        None => default_config(),
    }
}

/// The view of an optional configuration.
pub open spec fn opt_config_view(c: Option<Config>) -> Option<ConfigView> {
    match c {
        Some(x) => Some(x@),
        None => None,
    }
}

/// The view of an optional borrowed configuration.
pub open spec fn opt_config_ref_view(c: Option<&Config>) -> Option<ConfigView> {
    match c {
        Some(x) => Some(x@),
        None => None,
    }
}

fn base_or_default(existing: Option<Config>) -> (r: Config)
    ensures
        r@ == base_config(opt_config_view(existing)),
{
    match existing {
        Some(c) => c,
        None => Config::default(),
    }
}

/// The music directory recorded in the settings, if any (`None` also when no
/// settings could be read).
pub fn load_config(config: Option<&Config>) -> (r: Option<String>)
    ensures
        opt_string_view(r) == (match opt_config_ref_view(config) {
            Some(c) => c.music_directory,
            None => None,
        }),
{
    match config {
        Some(c) => match &c.music_directory {
            Some(d) => Some(string_of(&chars_of(d.as_str()))),
            None => None,
        },
        None => None,
    }
}

/// The settings to write after choosing `music_directory`: the rest is kept.
pub fn save_config(existing: Option<Config>, music_directory: &str) -> (r: Config)
    ensures
        r@ == (ConfigView { music_directory: Some(music_directory@), ..base_config(opt_config_view(existing)) }),
{
    let mut c = base_or_default(existing);
    c.music_directory = Some(string_of(&chars_of(music_directory)));
    c
}

/// The device name saved in the settings, if any.
pub fn get_configured_device_name(config: Option<&Config>) -> (r: Option<String>)
    ensures
        opt_string_view(r) == (match opt_config_ref_view(config) {
            Some(c) => c.device_name,
            None => None,
        }),
{
    match config {
        Some(c) => match &c.device_name {
            Some(n) => Some(string_of(&chars_of(n.as_str()))),
            None => None,
        },
        None => None,
    }
}

/// A device name may be saved when it has 1 to 64 characters.
pub open spec fn valid_device_name(name: Seq<char>) -> bool {
    0 < name.len() <= 64
}

/// The settings to write after renaming the device, or the refusal of a name
/// that is empty or over 64 characters.
pub fn set_device_name(existing: Option<Config>, name: &str) -> (r: Result<Config, String>)
    ensures
        match r {
            Ok(c) => valid_device_name(name@) && c@ == (ConfigView {
                device_name: Some(name@),
                ..base_config(opt_config_view(existing))
            }),
            Err(e) => !valid_device_name(name@) && e@ == "Device name must be 1-64 characters"@,
        },
{
    let len = name.unicode_len();
    if len == 0 || len > 64 {
        return Err("Device name must be 1-64 characters".to_owned());
    }
    let mut c = base_or_default(existing);
    c.device_name = Some(string_of(&chars_of(name)));
    Ok(c)
}

/// Whether periodic discovery is on: as saved, and on when nothing is saved.
pub open spec fn loaded_periodic_discovery(config: Option<ConfigView>) -> bool {
    match config {
        Some(c) => c.periodic_discovery_enabled,
        None => true,
    }
}

/// Whether periodic discovery is on.
pub fn load_periodic_discovery_enabled(config: Option<&Config>) -> (r: bool)
    ensures
        r == loaded_periodic_discovery(opt_config_ref_view(config)),
{
    match config {
        Some(c) => c.periodic_discovery_enabled,
        None => true,
    }
}

/// The settings to write after turning periodic discovery on or off.
pub fn save_periodic_discovery_enabled(existing: Option<Config>, enabled: bool) -> (r: Config)
    ensures
        r@ == (ConfigView { periodic_discovery_enabled: enabled, ..base_config(opt_config_view(existing)) }),
{
    let mut c = base_or_default(existing);
    c.periodic_discovery_enabled = enabled;
    c
}

/// The media types to scan: as saved, and audio when none are saved.
pub open spec fn loaded_media_types(config: Option<ConfigView>) -> Seq<Seq<char>> {
    match config {
        Some(c) => match c.media_types {
            Some(ts) => ts,
            None => seq!["audio"@],
        },
        None => seq!["audio"@],
    }
}

fn copy_strings(v: &Vec<String>) -> (r: Vec<String>)
    ensures
        strings_view(r@) == strings_view(v@),
{
    let mut r: Vec<String> = Vec::new();
    let mut i: usize = 0;
    while i < v.len()
        invariant
            i <= v.len(),
            strings_view(r@) == strings_view(v@).take(i as int),
        decreases v.len() - i,
    {
        let ghost before = strings_view(r@);
        r.push(string_of(&chars_of(v[i].as_str())));
        assert(strings_view(r@) =~= before.push(v@[i as int]@));
        assert(strings_view(r@) =~= strings_view(v@).take(i + 1));
        i = i + 1;
    }
    assert(strings_view(v@).take(v.len() as int) =~= strings_view(v@));
    r
}

/// The media types to scan.
pub fn load_media_types(config: Option<&Config>) -> (r: Vec<String>)
    ensures
        strings_view(r@) == loaded_media_types(opt_config_ref_view(config)),
{
    match config {
        Some(c) => match &c.media_types {
            Some(ts) => copy_strings(ts),
            None => {
                let mut v: Vec<String> = Vec::new();
                v.push("audio".to_owned());
                assert(strings_view(v@) =~= seq!["audio"@]);
                v
            },
        },
        None => {
            let mut v: Vec<String> = Vec::new();
            v.push("audio".to_owned());
            assert(strings_view(v@) =~= seq!["audio"@]);
            v
        },
    }
}

/// The first entry that is neither `audio` nor `video`, if any.
pub open spec fn first_invalid_media_type(ts: Seq<Seq<char>>) -> Option<int>
    decreases ts.len(),
{
    if ts.len() == 0 {
        None
    } else if ts[0] != "audio"@ && ts[0] != "video"@ {
        Some(0)
    } else {
        match first_invalid_media_type(ts.drop_first()) {
            Some(k) => Some(k + 1),
            None => None,
        }
    }
}

/// The settings to write after choosing the media types: each must be `audio`
/// or `video` (the first other one is named in the refusal), and there must be
/// at least one.
pub open spec fn saved_media_types(existing: Option<ConfigView>, ts: Seq<Seq<char>>) -> Result<ConfigView, Seq<char>> {
    match first_invalid_media_type(ts) {
        Some(k) => Err("Invalid media type: "@ + ts[k] + ". Must be 'audio' or 'video'."@),
        None => if ts.len() == 0 {
            Err("At least one media type must be selected."@)
        } else {
            Ok(ConfigView { media_types: Some(ts), ..base_config(existing) })
        },
    }
}

/// Checks and records the media types to scan.
pub fn save_media_types(existing: Option<Config>, media_types: &Vec<String>) -> (r: Result<Config, String>)
    ensures
        match r {
            Ok(c) => saved_media_types(opt_config_view(existing), strings_view(media_types@)) == Ok::<
                ConfigView,
                Seq<char>,
            >(c@),
            Err(e) => saved_media_types(opt_config_view(existing), strings_view(media_types@)) == Err::<
                ConfigView,
                Seq<char>,
            >(e@),
        },
{
    let ghost ts = strings_view(media_types@);
    let mut i: usize = 0;
    assert(ts.skip(0) =~= ts);
    while i < media_types.len()
        invariant
            i <= media_types.len(),
            ts == strings_view(media_types@),
            first_invalid_media_type(ts) == match first_invalid_media_type(ts.skip(i as int)) {
                Some(k) => Some(k + i),
                None => None,
            },
        decreases media_types.len() - i,
    {
        assert(ts.skip(i as int).drop_first() =~= ts.skip(i + 1));
        assert(ts.skip(i as int)[0] == media_types@[i as int]@);
        let t = media_types[i].as_str();
        if !str_eq(t, "audio") && !str_eq(t, "video") {
            let mut out: Vec<char> = Vec::new();
            push_str(&mut out, "Invalid media type: ");
            push_str(&mut out, t);
            push_str(&mut out, ". Must be 'audio' or 'video'.");
            return Err(string_of(&out));
        }
        i = i + 1;
    }
    assert(ts.skip(media_types.len() as int) =~= Seq::<Seq<char>>::empty());
    if media_types.len() == 0 {
        return Err("At least one media type must be selected.".to_owned());
    }
    let mut c = base_or_default(existing);
    c.media_types = Some(copy_strings(media_types));
    Ok(c)
}

/// Host names too generic to show as a device name.
pub const GENERIC_HOSTNAMES: [&'static str; 6] = [
    "",
    "localhost",
    "localhost.localdomain",
    "localhost6",
    "android",
    "unknown",
];

/// A host name that, trimmed and ASCII-lowercased, is one of the generic ones.
pub open spec fn generic_hostname(name: Seq<char>) -> bool {
    listed(GENERIC_HOSTNAMES@, ascii_lower_seq(trim(name)))
}

/// Whether a host name is too generic to name the device.
pub fn is_generic_hostname(name: &str) -> (r: bool)
    ensures
        r == generic_hostname(name@),
{
    let t = trim_chars(&chars_of(name));
    let lower = lower_ascii(&t);
    is_listed(&GENERIC_HOSTNAMES, &lower)
}

/// The device name the machine's host name gives (`None` where the host name
/// could not be read as UTF-8): the host name itself, unless it is missing
/// or generic.
pub fn get_hostname_device_name(hostname: Option<String>) -> (r: Option<String>)
    ensures
        opt_string_view(r) == (match opt_string_view(hostname) {
            Some(h) => if generic_hostname(h) {
                None
            } else {
                Some(h)
            },
            None => None,
        }),
{
    match hostname {
        Some(h) => {
            if is_generic_hostname(h.as_str()) {
                None
            } else {
                Some(h)
            }
        },
        None => None,
    }
}

/// The characters of `s` other than `-`, in order.
pub open spec fn without_dashes(s: Seq<char>) -> Seq<char>
    decreases s.len(),
{
    if s.len() == 0 {
        Seq::empty()
    } else if s.last() == '-' {
        without_dashes(s.drop_last())
    } else {
        without_dashes(s.drop_last()).push(s.last())
    }
}

/// The name shown for a device without one: `Kaulan Player` followed by the
/// first six characters of its id that are not `-`, when there are any.
pub open spec fn fallback_device_name(device_id: Seq<char>) -> Seq<char> {
    let short = without_dashes(device_id).take(
        if without_dashes(device_id).len() < 6 {
            without_dashes(device_id).len() as int
        } else {
            6
        },
    );
    if short.len() == 0 {
        "Kaulan Player"@
    } else {
        "Kaulan Player "@ + short
    }
}

/// Builds the fallback device name from the device id.
pub fn generate_fallback_device_name(device_id: &str) -> (r: String)
    ensures
        r@ == fallback_device_name(device_id@),
{
    let v = chars_of(device_id);
    let mut short: Vec<char> = Vec::new();
    let mut i: usize = 0;
    while i < v.len() && short.len() < 6
        invariant
            i <= v.len(),
            v@ == device_id@,
            short.len() <= 6,
            short@ == without_dashes(v@.take(i as int)),
            short.len() == 6 ==> without_dashes(v@).take(6) == short@,
        decreases v.len() - i,
    {
        assert(v@.take(i + 1).drop_last() =~= v@.take(i as int));
        if v[i] != '-' {
            short.push(v[i]);
        }
        i = i + 1;
        proof {
            if short.len() == 6 {
                lemma_without_dashes_prefix(v@, i as int);
            }
        }
    }
    proof {
        if short.len() < 6 {
            assert(v@.take(i as int) =~= v@);
        }
        if without_dashes(v@).len() >= 6 {
            assert(short@ == without_dashes(v@).take(6)) by {
                if short.len() < 6 {
                    assert(v@.take(i as int) =~= v@);
                }
            }
        } else {
            assert(short@ =~= without_dashes(v@).take(without_dashes(v@).len() as int)) by {
                if short.len() == 6 {
                    lemma_without_dashes_len(v@, i as int);
                }
                assert(v@.take(i as int) =~= v@);
            }
        }
    }
    if short.len() == 0 {
        return "Kaulan Player".to_owned();
    }
    let mut out: Vec<char> = Vec::new();
    push_str(&mut out, "Kaulan Player ");
    let mut k: usize = 0;
    while k < short.len()
        invariant
            k <= short.len(),
            out@ == "Kaulan Player "@ + short@.take(k as int),
        decreases short.len() - k,
    {
        out.push(short[k]);
        assert(out@ =~= "Kaulan Player "@ + short@.take(k + 1));
        k = k + 1;
    }
    assert(short@.take(short.len() as int) =~= short@);
    string_of(&out)
}

/// Dropping dashes from a prefix gives a prefix of what dropping them from the
/// whole gives.
proof fn lemma_without_dashes_prefix(s: Seq<char>, i: int)
    requires
        0 <= i <= s.len(),
    ensures
        without_dashes(s.take(i)).len() <= without_dashes(s).len(),
        without_dashes(s).take(without_dashes(s.take(i)).len() as int) == without_dashes(s.take(i)),
    decreases s.len() - i,
{
    if i == s.len() {
        assert(s.take(i) =~= s);
    } else {
        lemma_without_dashes_prefix(s, i + 1);
        assert(s.take(i + 1).drop_last() =~= s.take(i));
        let a = without_dashes(s.take(i));
        let b = without_dashes(s.take(i + 1));
        let w = without_dashes(s);
        assert(w.take(a.len() as int) =~= b.take(a.len() as int));
    }
}

proof fn lemma_without_dashes_len(s: Seq<char>, i: int)
    requires
        0 <= i <= s.len(),
    ensures
        without_dashes(s.take(i)).len() <= without_dashes(s).len(),
{
    lemma_without_dashes_prefix(s, i);
}

/// `dirs::config_dir`: the user's configuration directory, if the platform has
/// one and its path is valid UTF-8 (a path that is not is not used, rather
/// than altered). It depends on the environment, so nothing is promised of it.
#[verifier::external_body]
pub(crate) fn user_config_dir() -> (r: Option<String>) {
    dirs::config_dir().and_then(|p| p.into_os_string().into_string().ok())
}

/// Where the settings live: the `KAULAN_CONFIG_DIR` override; on Android (as
/// `TAURI_PLATFORM` says) the app data directory, if known; else `kaulan` under
/// the user's configuration directory, if there is one.
pub open spec fn config_dir(
    override_dir: Option<Seq<char>>,
    tauri_platform: Option<Seq<char>>,
    android_data_dir: Option<Seq<char>>,
    user_dir: Option<Seq<char>>,
) -> Option<Seq<char>> {
    match override_dir {
        Some(d) => Some(d),
        None => if tauri_platform == Some("android"@) {
            android_data_dir
        } else {
            match user_dir {
                Some(u) => Some(join_path(u, "kaulan"@)),
                None => None,
            }
        },
    }
}

/// Chooses the settings directory from the environment values and the user's
/// configuration directory.
pub fn config_dir_from(
    override_dir: Option<&str>,
    tauri_platform: Option<&str>,
    android_data_dir: Option<&str>,
    user_dir: Option<&str>,
) -> (r: Option<String>)
    ensures
        opt_string_view(r) == config_dir(
            opt_view(override_dir),
            opt_view(tauri_platform),
            opt_view(android_data_dir),
            opt_view(user_dir),
        ),
{
    if let Some(d) = override_dir {
        return Some(string_of(&chars_of(d)));
    }
    let android = match tauri_platform {
        Some(p) => str_eq(p, "android"),
        None => false,
    };
    if android {
        return match android_data_dir {
            Some(d) => Some(string_of(&chars_of(d))),
            None => None,
        };
    }
    match user_dir {
        Some(u) => Some(join_relative_path(u, "kaulan")),
        None => None,
    }
}

/// The settings directory, asking the platform for the user's configuration
/// directory only when the environment does not decide it: whatever the
/// platform answers, the result is [`config_dir`] of that answer, so on a
/// desktop it is `kaulan` under the user's configuration directory, or none.
pub fn get_config_dir(override_dir: Option<&str>, tauri_platform: Option<&str>, android_data_dir: Option<&str>) -> (r:
    Option<String>)
    ensures
        exists|u: Option<Seq<char>>|
            opt_string_view(r) == config_dir(opt_view(override_dir), opt_view(tauri_platform), opt_view(android_data_dir), u),
        override_dir matches Some(d) ==> opt_string_view(r) == Some(d@),
        override_dir is None && opt_view(tauri_platform) == Some("android"@) ==> opt_string_view(r) == opt_view(
            android_data_dir,
        ),
        override_dir is None && opt_view(tauri_platform) != Some("android"@) ==> (r is None || exists|u: Seq<char>|
            opt_string_view(r) == Some(join_path(u, "kaulan"@))),
{
    let decided = override_dir.is_some() || match tauri_platform {
        Some(p) => str_eq(p, "android"),
        None => false,
    };
    if decided {
        let r = config_dir_from(override_dir, tauri_platform, android_data_dir, None);
        proof {
            let w: Option<Seq<char>> = None;
            assert(opt_string_view(r) == config_dir(opt_view(override_dir), opt_view(tauri_platform), opt_view(android_data_dir), w));
        }
        return r;
    }
    let user = user_config_dir();
    match user {
        Some(u) => {
            let r = config_dir_from(override_dir, tauri_platform, android_data_dir, Some(u.as_str()));
            proof {
                let w: Option<Seq<char>> = Some(u@);
                assert(opt_string_view(r) == config_dir(opt_view(override_dir), opt_view(tauri_platform), opt_view(android_data_dir), w));
                if override_dir is None && opt_view(tauri_platform) != Some("android"@) && r is Some {
                    assert(opt_string_view(r) == Some(join_path(u@, "kaulan"@)));
                }
            }
            r
        },
        None => {
            let r = config_dir_from(override_dir, tauri_platform, android_data_dir, None);
            proof {
                let w: Option<Seq<char>> = None;
                assert(opt_string_view(r) == config_dir(opt_view(override_dir), opt_view(tauri_platform), opt_view(android_data_dir), w));
            }
            r
        },
    }
}

/// The settings file: `config.json` in the settings directory, if there is one.
pub fn get_config_path(config_dir: Option<&str>) -> (r: Option<String>)
    ensures
        opt_string_view(r) == (match opt_view(config_dir) {
            Some(d) => Some(join_path(d, "config.json"@)),
            None => None,
        }),
{
    match config_dir {
        Some(d) => Some(join_relative_path(d, "config.json")),
        None => None,
    }
}

/// A lowercase hexadecimal digit.
pub open spec fn hex_lower(d: nat) -> char {
    if d < 10 {
        (48 + d) as char
    } else {
        (87 + d) as char
    }
}

/// Each byte as two lowercase hexadecimal digits, in order.
pub open spec fn hex_bytes(b: Seq<u8>) -> Seq<char>
    decreases b.len(),
{
    if b.len() == 0 {
        Seq::empty()
    } else {
        hex_bytes(b.drop_last()) + seq![hex_lower((b.last() / 16) as nat), hex_lower((b.last() % 16) as nat)]
    }
}

/// Sixteen random bytes with the bits of a version-4, RFC 4122 UUID set: the
/// high nibble of byte 6 is 4 and the two high bits of byte 8 are `10`.
pub open spec fn v4_bytes(b: Seq<u8>) -> Seq<u8> {
    b.update(6, (b[6] & 0x0fu8) | 0x40u8).update(8, (b[8] & 0x3fu8) | 0x80u8)
}

/// The hyphenated lowercase form of the version-4 UUID made from sixteen
/// random bytes: groups of 4, 2, 2, 2 and 6 bytes in hexadecimal, joined by
/// `-`.
pub open spec fn uuid_v4_text(b: Seq<u8>) -> Seq<char> {
    let v = v4_bytes(b);
    hex_bytes(v.subrange(0, 4)) + "-"@ + hex_bytes(v.subrange(4, 6)) + "-"@ + hex_bytes(v.subrange(6, 8)) + "-"@
        + hex_bytes(v.subrange(8, 10)) + "-"@ + hex_bytes(v.subrange(10, 16))
}

/// The hexadecimal form of `n` bytes has `2n` digits.
proof fn lemma_hex_bytes_len(b: Seq<u8>)
    ensures
        hex_bytes(b).len() == 2 * b.len(),
    decreases b.len(),
{
    if b.len() > 0 {
        lemma_hex_bytes_len(b.drop_last());
    }
}

/// A version-4 UUID's text has 36 characters.
proof fn lemma_uuid_v4_text_len(b: Seq<u8>)
    requires
        b.len() == 16,
    ensures
        uuid_v4_text(b).len() == 36,
{
    let v = v4_bytes(b);
    lemma_hex_bytes_len(v.subrange(0, 4));
    lemma_hex_bytes_len(v.subrange(4, 6));
    lemma_hex_bytes_len(v.subrange(6, 8));
    lemma_hex_bytes_len(v.subrange(8, 10));
    lemma_hex_bytes_len(v.subrange(10, 16));
    reveal_strlit("-");
}

/// `uuid::Builder::from_random_bytes(bytes).into_uuid().to_string()`: the
/// version-4 UUID made from sixteen random bytes (the version and variant bits
/// set), in its hyphenated lowercase form.
#[verifier::external_body]
fn uuid_from_random_bytes(bytes: [u8; 16]) -> (r: String)
    ensures
        r@ == uuid_v4_text(bytes@),
{
    uuid::Builder::from_random_bytes(bytes).into_uuid().to_string()
}

/// The device id: the saved one, or a fresh version-4 UUID made from the
/// sixteen random bytes given, saying which. A fresh id is to be saved with
/// [`with_device_id`].
pub fn load_or_create_device_id(config: Option<&Config>, random: [u8; 16]) -> (r: (String, bool))
    ensures
        match opt_config_ref_view(config) {
            Some(c) if c.device_id is Some => r.0@ == c.device_id->0 && !r.1,
            _ => r.1 && r.0@ == uuid_v4_text(random@) && r.0@.len() == 36,
        },
{
    if let Some(c) = config {
        if let Some(id) = &c.device_id {
            return (string_of(&chars_of(id.as_str())), false);
        }
    }
    proof {
        lemma_uuid_v4_text_len(random@);
    }
    (uuid_from_random_bytes(random), true)
}

/// The settings to write after a device id was made: the rest is kept.
pub fn with_device_id(existing: Option<Config>, device_id: &str) -> (r: Config)
    ensures
        r@ == (ConfigView { device_id: Some(device_id@), ..base_config(opt_config_view(existing)) }),
{
    let mut c = base_or_default(existing);
    c.device_id = Some(string_of(&chars_of(device_id)));
    c
}

/// Saving the media types and reading them back gives the saved types, and no
/// other setting changes.
pub proof fn law_media_types_round_trip(existing: Option<ConfigView>, ts: Seq<Seq<char>>)
    requires
        saved_media_types(existing, ts) is Ok,
    ensures
        loaded_media_types(Some(saved_media_types(existing, ts)->Ok_0)) == ts,
        saved_media_types(existing, ts)->Ok_0.music_directory == base_config(existing).music_directory,
        saved_media_types(existing, ts)->Ok_0.device_id == base_config(existing).device_id,
        saved_media_types(existing, ts)->Ok_0.device_name == base_config(existing).device_name,
        saved_media_types(existing, ts)->Ok_0.periodic_discovery_enabled == base_config(
            existing,
        ).periodic_discovery_enabled,
{
}

/// A list of media types is accepted exactly when it is not empty and every
/// entry is `audio` or `video`.
pub proof fn law_media_types_accepted(existing: Option<ConfigView>, ts: Seq<Seq<char>>)
    ensures
        saved_media_types(existing, ts) is Ok <==> (ts.len() > 0 && forall|i: int|
            0 <= i < ts.len() ==> (#[trigger] ts[i] == "audio"@ || ts[i] == "video"@)),
    decreases ts.len(),
{
    lemma_first_invalid(ts);
}

proof fn lemma_first_invalid(ts: Seq<Seq<char>>)
    ensures
        first_invalid_media_type(ts) is None <==> forall|i: int|
            0 <= i < ts.len() ==> (#[trigger] ts[i] == "audio"@ || ts[i] == "video"@),
    decreases ts.len(),
{
    if ts.len() > 0 {
        lemma_first_invalid(ts.drop_first());
        if first_invalid_media_type(ts) is None {
            assert forall|i: int| 0 <= i < ts.len() implies (#[trigger] ts[i] == "audio"@ || ts[i]
                == "video"@) by {
                if i > 0 {
                    assert(ts[i] == ts.drop_first()[i - 1]);
                }
            }
        } else if ts[0] == "audio"@ || ts[0] == "video"@ {
            let k = choose|k: int| 0 <= k < ts.drop_first().len() && !(#[trigger] ts.drop_first()[k] == "audio"@ || ts.drop_first()[k] == "video"@);
            assert(ts[k + 1] == ts.drop_first()[k]);
        }
    }
}

/// A refused list of media types gets a message that says why: one naming an
/// invalid media type whenever an entry is neither `audio` nor `video` (this is
/// checked first), and the request to select at least one for an empty list.
pub proof fn law_media_type_refusal_messages(existing: Option<ConfigView>, ts: Seq<Seq<char>>)
    ensures
        (exists|i: int| 0 <= i < ts.len() && #[trigger] ts[i] != "audio"@ && ts[i] != "video"@) ==> (
        saved_media_types(existing, ts) matches Err(e) && has_prefix(e, "Invalid media type: "@)),
        ts.len() == 0 ==> saved_media_types(existing, ts) == Err::<ConfigView, Seq<char>>(
            "At least one media type must be selected."@,
        ),
{
    lemma_first_invalid(ts);
    if first_invalid_media_type(ts) is Some {
        let k = first_invalid_media_type(ts)->Some_0;
        let e = "Invalid media type: "@ + ts[k] + ". Must be 'audio' or 'video'."@;
        assert(e.take("Invalid media type: "@.len() as int) =~= "Invalid media type: "@);
    }
}

/// The characters kept by [`without_dashes`] include no `-`.
proof fn lemma_without_dashes_has_none(s: Seq<char>)
    ensures
        forall|i: int| 0 <= i < without_dashes(s).len() ==> #[trigger] without_dashes(s)[i] != '-',
    decreases s.len(),
{
    if s.len() > 0 {
        lemma_without_dashes_has_none(s.drop_last());
        let p = without_dashes(s.drop_last());
        if s.last() != '-' {
            assert forall|i: int| 0 <= i < without_dashes(s).len() implies #[trigger] without_dashes(s)[i] != '-' by {
                if i < p.len() {
                    assert(without_dashes(s)[i] == p[i]);
                }
            }
        }
    }
}

/// The fallback device name is `Kaulan Player` alone when the id has nothing
/// but dashes (or nothing at all), and otherwise `Kaulan Player `, a space, and
/// up to six characters of the id, none of them a dash, in the id's order. It
/// depends on the id alone.
pub proof fn law_fallback_device_name(device_id: Seq<char>)
    ensures
        without_dashes(device_id).len() == 0 ==> fallback_device_name(device_id) == "Kaulan Player"@,
        without_dashes(device_id).len() > 0 ==> fallback_device_name(device_id) == "Kaulan Player "@
            + without_dashes(device_id).take(
            if without_dashes(device_id).len() < 6 {
                without_dashes(device_id).len() as int
            } else {
                6
            },
        ),
        forall|i: int|
            "Kaulan Player "@.len() <= i < fallback_device_name(device_id).len() ==> #[trigger] fallback_device_name(
                device_id,
            )[i] != '-',
{
    lemma_without_dashes_has_none(device_id);
    let w = without_dashes(device_id);
    let n: int = if w.len() < 6 { w.len() as int } else { 6 };
    if w.len() > 0 {
        let f = fallback_device_name(device_id);
        assert forall|i: int| "Kaulan Player "@.len() <= i < f.len() implies #[trigger] f[i] != '-' by {
            assert(f[i] == w[i - "Kaulan Player "@.len()]);
        }
    } else {
        reveal_strlit("Kaulan Player");
        reveal_strlit("Kaulan Player ");
    }
}

/// Turning periodic discovery on or off and reading it back gives the choice,
/// and no other setting changes.
pub proof fn law_periodic_discovery_round_trip(existing: Option<ConfigView>, enabled: bool)
    ensures
        loaded_periodic_discovery(
            Some(ConfigView { periodic_discovery_enabled: enabled, ..base_config(existing) }),
        ) == enabled,
{
}

/// With no settings saved, periodic discovery is on and audio is scanned.
pub proof fn law_settings_defaults()
    ensures
        loaded_periodic_discovery(None),
        loaded_media_types(None) == seq!["audio"@],
        loaded_periodic_discovery(Some(default_config())),
        loaded_media_types(Some(default_config())) == seq!["audio"@],
{
}

} // verus!
