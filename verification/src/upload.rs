//! The decisions of a file upload: where the file may go, which file of the
//! request is taken, and how the upload is reported.
use vstd::prelude::*;
use crate::download::{path_has_prefix, path_starts_with};
use crate::media::{is_listed, listed, SUPPORTED_EXTENSIONS};
use crate::paths::{extension, extension_of_path, join_path, join_relative_path};
use crate::remote::opt_string_view;
use crate::text::{chars_contain_seq, chars_of, contains_seq, decimal, push_decimal, push_str, string_of, unicode_lowercase};
use crate::types::UploadResponse;
use crate::lyrics::strings_view;

verus! {

/// Whether a requested upload directory is acceptable. When the directory (or,
/// if it does not exist yet, its parent) has a canonical form, that form must
/// lie under the canonical music directory; otherwise the raw text must not
/// contain `..`.
pub open spec fn upload_target_ok(music_canonical: Seq<char>, target_canonical: Option<Seq<char>>, target_path: Seq<char>) -> bool {
    match target_canonical {
        Some(c) => path_has_prefix(c, music_canonical),
        None => !contains_seq(target_path, ".."@),
    }
}

/// The refusal of a target directory outside the music directory.
pub const INVALID_TARGET_PATH: &'static str = "Invalid target path";

/// The refusal of a target directory that is not on the local filesystem.
pub const UNSUPPORTED_UPLOAD_TARGET: &'static str = "Unsupported upload target";

/// Checks the requested upload directory.
pub fn check_upload_target(music_canonical: &str, target_canonical: Option<&str>, target_path: &str) -> (r: bool)
    ensures
        r == upload_target_ok(music_canonical@, crate::filenames::opt_view(target_canonical), target_path@),
{
    match target_canonical {
        Some(c) => path_starts_with(c, music_canonical),
        None => !chars_contain_seq(&chars_of(target_path), &chars_of("..")),
    }
}

/// The directory a file is uploaded into: the target path under the music
/// directory.
pub fn upload_target_dir(music_dir: &str, target_path: &str) -> (r: String)
    ensures
        r@ == join_path(music_dir@, target_path@),
{
    join_relative_path(music_dir, target_path)
}

/// The message when the target directory cannot be created.
pub fn create_dir_failure(err: &str) -> (r: String)
    ensures
        r@ == "Failed to create target directory: "@ + err@,
{
    let mut out: Vec<char> = Vec::new();
    push_str(&mut out, "Failed to create target directory: ");
    push_str(&mut out, err);
    string_of(&out)
}

/// What to do with a file field of the request.
pub enum FileDecision {
    /// A file was already taken from this request: skip this one.
    Skip,
    /// The file is refused (unsupported type, no extension, or a path outside
    /// the music directory).
    Reject,
    /// Write the file to this path.
    Write(String),
}

/// The state of an upload while its fields are read.
pub struct UploadSession {
    pub target_path: String,
    pub file_processed: bool,
    pub uploaded: Option<String>,
    pub failed: Option<String>,
}

/// The path a file is written to: under the music directory, inside the
/// target directory when one was given.
pub open spec fn upload_file_path(music_dir: Seq<char>, target_path: Seq<char>, filename: Seq<char>) -> Seq<char> {
    if target_path.len() == 0 {
        join_path(music_dir, filename)
    } else {
        join_path(join_path(music_dir, target_path), filename)
    }
}

/// A file that may be written: its Unicode-lowercased extension is a supported
/// audio extension, and its path stays under the music directory.
pub open spec fn file_accepted(music_dir: Seq<char>, target_path: Seq<char>, filename: Seq<char>) -> bool {
    &&& extension(filename) matches Some(e) && listed(SUPPORTED_EXTENSIONS@, unicode_lowercase(e))
    &&& path_has_prefix(upload_file_path(music_dir, target_path, filename), music_dir)
}

/// The name a file field is known by: its file name, or `unknown`.
pub open spec fn field_file_name(filename: Option<Seq<char>>) -> Seq<char> {
    match filename {
        Some(f) => f,
        None => "unknown"@,
    }
}

impl UploadSession {
    /// An upload before any field was read.
    pub fn new() -> (r: UploadSession)
        ensures
            r.target_path@.len() == 0,
            !r.file_processed,
            r.uploaded is None,
            r.failed is None,
    {
        UploadSession { target_path: String::new(), file_processed: false, uploaded: None, failed: None }
    }

    /// Records the `targetPath` field.
    pub fn set_target_path(&mut self, target_path: String)
        ensures
            final(self).target_path == target_path,
            final(self).file_processed == old(self).file_processed,
            final(self).uploaded == old(self).uploaded,
            final(self).failed == old(self).failed,
    {
        self.target_path = target_path;
    }

    /// Decides what to do with a `files` field named `filename`: only the first
    /// file of a request is taken; a refused file is recorded as failed.
    pub fn begin_file(&mut self, filename: Option<&str>, music_dir: &str) -> (r: FileDecision)
        ensures
            final(self).target_path == old(self).target_path,
            final(self).uploaded == old(self).uploaded,
            final(self).file_processed,
            old(self).file_processed ==> r is Skip && final(self).failed == old(self).failed,
            !old(self).file_processed ==> {
                let name = field_file_name(crate::filenames::opt_view(filename));
                if file_accepted(music_dir@, old(self).target_path@, name) {
                    r matches FileDecision::Write(p) && p@ == upload_file_path(
                        music_dir@,
                        old(self).target_path@,
                        name,
                    ) && final(self).failed == old(self).failed
                } else {
                    r is Reject && opt_string_view(final(self).failed) == Some(name)
                }
            },
    {
        if self.file_processed {
            return FileDecision::Skip;
        }
        self.file_processed = true;
        let name: String = match filename {
            Some(f) => string_of(&chars_of(f)),
            None => "unknown".to_owned(),
        };
        let nv = chars_of(name.as_str());
        let ext_ok = match extension_of_path(&nv) {
            Some(e) => {
                let lower = crate::text::to_lowercase(string_of(&e).as_str());
                is_listed(&SUPPORTED_EXTENSIONS, &chars_of(lower.as_str()))
            },
            None => false,
        };
        if !ext_ok {
            self.failed = Some(name);
            return FileDecision::Reject;
        }
        let full: String = if self.target_path.as_str().unicode_len() == 0 {
            join_relative_path(music_dir, name.as_str())
        } else {
            let dir = join_relative_path(music_dir, self.target_path.as_str());
            join_relative_path(dir.as_str(), name.as_str())
        };
        if !path_starts_with(full.as_str(), music_dir) {
            self.failed = Some(name);
            return FileDecision::Reject;
        }
        FileDecision::Write(full)
    }

    /// Records whether the accepted file named `filename` was written.
    pub fn file_written(&mut self, filename: String, ok: bool)
        ensures
            final(self).target_path == old(self).target_path,
            final(self).file_processed == old(self).file_processed,
            ok ==> final(self).uploaded == Some(filename) && final(self).failed == old(self).failed,
            !ok ==> final(self).failed == Some(filename) && final(self).uploaded == old(self).uploaded,
    {
        if ok {
            self.uploaded = Some(filename);
        } else {
            self.failed = Some(filename);
        }
    }
}

/// The report of an upload: with no file at all, a refusal (400, `No files
/// provided`); otherwise success when a file was uploaded, listing the uploaded
/// and failed file names.
pub open spec fn upload_report(uploaded: Option<Seq<char>>, failed: Option<Seq<char>>) -> (u16, bool, Seq<char>) {
    if uploaded is None && failed is None {
        (400, false, "No files provided"@)
    } else if uploaded is Some {
        (200, true, "Uploaded 1 file(s)"@)
    } else {
        (200, false, "Upload failed"@)
    }
}

/// The list holding the name, if any.
pub open spec fn name_list(o: Option<Seq<char>>) -> Seq<Seq<char>> {
    match o {
        Some(n) => seq![n],
        None => Seq::empty(),
    }
}

fn list_of(o: Option<String>) -> (r: Vec<String>)
    ensures
        strings_view(r@) == name_list(opt_string_view(o)),
{
    let mut v: Vec<String> = Vec::new();
    match o {
        Some(n) => {
            v.push(n);
            assert(strings_view(v@) =~= name_list(opt_string_view(o)));
        },
        None => {
            assert(strings_view(v@) =~= Seq::<Seq<char>>::empty());
        },
    }
    v
}

impl UploadSession {
    /// Whether the library should be rescanned: a file was uploaded.
    pub fn needs_rescan(&self) -> (r: bool)
        ensures
            r == self.uploaded is Some,
    {
        self.uploaded.is_some()
    }

    /// The status code and reply that end the upload.
    pub fn finish(self) -> (r: (u16, UploadResponse))
        ensures
            (r.0, r.1.success, r.1.message@) == upload_report(
                opt_string_view(self.uploaded),
                opt_string_view(self.failed),
            ),
            r.0 == 400 ==> r.1.uploaded@.len() == 0 && r.1.failed@.len() == 0,
            r.0 != 400 ==> strings_view(r.1.uploaded@) == name_list(opt_string_view(self.uploaded))
                && strings_view(r.1.failed@) == name_list(opt_string_view(self.failed)),
    {
        if self.uploaded.is_none() && self.failed.is_none() {
            return (
                400,
                UploadResponse {
                    success: false,
                    message: "No files provided".to_owned(),
                    uploaded: Vec::new(),
                    failed: Vec::new(),
                },
            );
        }
        let success = self.uploaded.is_some();
        let message = if success {
            let mut out: Vec<char> = Vec::new();
            push_str(&mut out, "Uploaded ");
            push_decimal(&mut out, 1);
            push_str(&mut out, " file(s)");
            proof {
                reveal_strlit("Uploaded 1 file(s)");
                reveal_strlit("Uploaded ");
                reveal_strlit(" file(s)");
                assert(decimal(1) =~= seq!['1']);
            }
            let m = string_of(&out);
            assert(m@ =~= "Uploaded 1 file(s)"@);
            m
        } else {
            "Upload failed".to_owned()
        };
        (
            200,
            UploadResponse { success, message, uploaded: list_of(self.uploaded), failed: list_of(self.failed) },
        )
    }
}

/// Why an upload is refused before any file is read.
pub enum UploadRefusal {
    /// The target directory lies outside the music directory.
    InvalidTarget,
    /// The target directory is not on the local filesystem.
    UnsupportedTarget,
    /// The target directory could not be created, with the error.
    DirectoryUncreatable(String),
}

/// The status and message of each refusal.
pub open spec fn refusal_reply(r: UploadRefusal) -> (u16, Seq<char>) {
    match r {
        UploadRefusal::InvalidTarget => (400, INVALID_TARGET_PATH@),
        UploadRefusal::UnsupportedTarget => (500, UNSUPPORTED_UPLOAD_TARGET@),
        UploadRefusal::DirectoryUncreatable(e) => (500, "Failed to create target directory: "@ + e@),
    }
}

/// The reply refusing an upload: unsuccessful, with no file listed.
pub fn upload_refusal_response(refusal: UploadRefusal) -> (r: (u16, UploadResponse))
    ensures
        (r.0, r.1.message@) == refusal_reply(refusal),
        !r.1.success,
        r.1.uploaded@.len() == 0,
        r.1.failed@.len() == 0,
{
    let (status, message): (u16, String) = match refusal {
        UploadRefusal::InvalidTarget => (400, INVALID_TARGET_PATH.to_owned()),
        UploadRefusal::UnsupportedTarget => (500, UNSUPPORTED_UPLOAD_TARGET.to_owned()),
        UploadRefusal::DirectoryUncreatable(e) => (500, create_dir_failure(e.as_str())),
    };
    (status, UploadResponse { success: false, message, uploaded: Vec::new(), failed: Vec::new() })
}

/// Judges the `targetPath` field: a target outside the music directory is
/// refused first; a target that does not exist yet must be on the local
/// filesystem and is then to be created (`Ok(true)`); an existing one is used
/// as it is (`Ok(false)`).
pub fn target_path_decision(
    music_canonical: &str,
    target_canonical: Option<&str>,
    target_path: &str,
    target_exists: bool,
    target_is_std_fs: bool,
) -> (r: Result<bool, UploadRefusal>)
    ensures
        !upload_target_ok(music_canonical@, crate::filenames::opt_view(target_canonical), target_path@) ==> r matches Err(
            UploadRefusal::InvalidTarget,
        ),
        upload_target_ok(music_canonical@, crate::filenames::opt_view(target_canonical), target_path@) ==> (if target_exists {
            r == Ok::<bool, UploadRefusal>(false)
        } else if target_is_std_fs {
            r == Ok::<bool, UploadRefusal>(true)
        } else {
            r matches Err(UploadRefusal::UnsupportedTarget)
        }),
{
    if !check_upload_target(music_canonical, target_canonical, target_path) {
        return Err(UploadRefusal::InvalidTarget);
    }
    if target_exists {
        Ok(false)
    } else if target_is_std_fs {
        Ok(true)
    } else {
        Err(UploadRefusal::UnsupportedTarget)
    }
}

} // verus!
