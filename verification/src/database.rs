//! Where the library's database file lives.
use vstd::prelude::*;
use crate::download::Platform;
use crate::filenames::opt_view;
use crate::text::{chars_of, push_str, str_eq, string_of};

verus! {

/// The directory that holds the database: the music directory, except on
/// Android where the app's data directory is used when it is known.
pub open spec fn database_dir(music_path: Seq<char>, platform: Platform, android_data_dir: Option<Seq<char>>) -> Seq<char> {
    match platform {
        Platform::Desktop => music_path,
        Platform::Android => match android_data_dir {
            Some(d) => d,
            None => music_path,
        },
    }
}

/// The database file: `music.db` in the directory that holds it.
pub fn get_database_path(music_path: &str, platform: Platform, android_data_dir: Option<&str>) -> (r: String)
    ensures
        r@ == database_dir(music_path@, platform, opt_view(android_data_dir)) + "/music.db"@,
{
    let dir: &str = match platform {
        Platform::Desktop => music_path,
        Platform::Android => match android_data_dir {
            Some(d) => d,
            None => music_path,
        },
    };
    let mut out = chars_of(dir);
    push_str(&mut out, "/music.db");
    string_of(&out)
}

/// The directory to create before the database is opened: on Android, the
/// data directory when it is not the music directory; else none.
pub fn database_dir_to_create(music_path: &str, platform: Platform, android_data_dir: Option<&str>) -> (r: Option<String>)
    ensures
        match r {
            Some(d) => platform == Platform::Android && d@ == database_dir(music_path@, platform, opt_view(android_data_dir))
                && d@ != music_path@,
            None => platform == Platform::Desktop || database_dir(music_path@, platform, opt_view(android_data_dir))
                == music_path@,
        },
{
    match platform {
        Platform::Desktop => None,
        Platform::Android => match android_data_dir {
            Some(d) => if str_eq(d, music_path) {
                None
            } else {
                Some(string_of(&chars_of(d)))
            },
            None => None,
        },
    }
}

} // verus!
