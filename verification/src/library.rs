//! The music library: which scanned files join it and which entries leave it,
//! the folder playlists it is grouped into, the songs of a user collection, and
//! the replies of the library endpoints.
use vstd::prelude::*;
use crate::lyrics::strings_view;
use crate::remote::opt_string_view;
use crate::text::{chars_of, push_str, str_eq, str_starts_with, string_of};

verus! {

/// The stored paths of the library's songs, each once.
pub struct LibraryIndex {
    paths: Vec<String>,
}

/// No path occurs twice.
pub open spec fn distinct(s: Seq<Seq<char>>) -> bool {
    forall|i: int, j: int| 0 <= i < j < s.len() ==> s[i] != s[j]
}

impl View for LibraryIndex {
    type V = Seq<Seq<char>>;

    closed spec fn view(&self) -> Seq<Seq<char>> {
        strings_view(self.paths@)
    }
}

fn find_path(paths: &Vec<String>, path: &str) -> (r: Option<usize>)
    ensures
        match r {
            Some(i) => i < paths@.len() && strings_view(paths@)[i as int] == path@,
            None => !strings_view(paths@).contains(path@),
        },
{
    let mut i: usize = 0;
    while i < paths.len()
        invariant
            i <= paths.len(),
            forall|j: int| 0 <= j < i ==> strings_view(paths@)[j] != path@,
        decreases paths.len() - i,
    {
        if str_eq(paths[i].as_str(), path) {
            return Some(i);
        }
        i = i + 1;
    }
    proof {
        if strings_view(paths@).contains(path@) {
            let k = choose|k: int| 0 <= k < strings_view(paths@).len() && strings_view(paths@)[k] == path@;
            assert(strings_view(paths@)[k] != path@);
        }
    }
    None
}

impl LibraryIndex {
    /// The well-formedness of the index: each path once.
    pub open spec fn wf(&self) -> bool {
        distinct(self@)
    }

    /// An index of the given stored paths, keeping the first of any repeats.
    pub fn from_paths(stored: &Vec<String>) -> (r: LibraryIndex)
        ensures
            r.wf(),
            forall|p: Seq<char>| r@.contains(p) <==> strings_view(stored@).contains(p),
    {
        let mut index = LibraryIndex { paths: Vec::new() };
        assert(index@ =~= Seq::<Seq<char>>::empty());
        let mut i: usize = 0;
        while i < stored.len()
            invariant
                i <= stored.len(),
                index.wf(),
                forall|p: Seq<char>| index@.contains(p) <==> strings_view(stored@).take(i as int).contains(p),
            decreases stored.len() - i,
        {
            let ghost before = index@;
            let added = index.add_if_new(stored[i].as_str());
            proof {
                let t0 = strings_view(stored@).take(i as int);
                let t1 = strings_view(stored@).take(i + 1);
                let q = stored@[i as int]@;
                assert(t1 =~= t0.push(q));
                assert forall|p: Seq<char>| index@.contains(p) <==> t1.contains(p) by {
                    if p == q {
                        assert(t1[i as int] == p);
                        if !added {
                            assert(before.contains(p));
                        } else {
                            assert(index@[index@.len() - 1] == p);
                        }
                    } else {
                        if index@.contains(p) {
                            let k = choose|k: int| 0 <= k < index@.len() && index@[k] == p;
                            if added {
                                assert(k < before.len());
                                assert(before[k] == p);
                            }
                            assert(before.contains(p));
                            let m = choose|m: int| 0 <= m < t0.len() && t0[m] == p;
                            assert(t1[m] == p);
                        }
                        if t1.contains(p) {
                            let m = choose|m: int| 0 <= m < t1.len() && t1[m] == p;
                            assert(m < t0.len());
                            assert(t0[m] == p);
                            assert(before.contains(p));
                            let k = choose|k: int| 0 <= k < before.len() && before[k] == p;
                            assert(index@[k] == p);
                        }
                    }
                }
            }
            i = i + 1;
        }
        assert(strings_view(stored@).take(stored.len() as int) =~= strings_view(stored@));
        index
    }

    /// Whether a path is in the library.
    pub fn contains(&self, path: &str) -> (r: bool)
        ensures
            r == self@.contains(path@),
    {
        find_path(&self.paths, path).is_some()
    }

    /// Adds a scanned path unless it is already in the library; says whether
    /// it was added (the caller then inserts the song).
    pub fn add_if_new(&mut self, path: &str) -> (added: bool)
        requires
            old(self).wf(),
        ensures
            final(self).wf(),
            added == !old(self)@.contains(path@),
            added ==> final(self)@ == old(self)@.push(path@),
            !added ==> final(self)@ == old(self)@,
    {
        match find_path(&self.paths, path) {
            Some(_) => false,
            None => {
                let ghost before = self@;
                self.paths.push(string_of(&chars_of(path)));
                assert(self@ =~= before.push(path@));
                assert forall|i: int, j: int| 0 <= i < j < self@.len() implies self@[i] != self@[j] by {
                    if j == self@.len() - 1 {
                        assert(self@[i] == before[i]);
                    }
                }
                true
            },
        }
    }

    /// Removes a path whose file is gone.
    pub fn remove(&mut self, path: &str)
        requires
            old(self).wf(),
        ensures
            final(self).wf(),
            !final(self)@.contains(path@),
            forall|p: Seq<char>| p != path@ ==> (final(self)@.contains(p) <==> old(self)@.contains(p)),
    {
        match find_path(&self.paths, path) {
            None => {},
            Some(i) => {
                let ghost before = self@;
                self.paths.remove(i);
                assert(self@ =~= before.remove(i as int));
                assert forall|p: Seq<char>| p != path@ implies (self@.contains(p) <==> before.contains(p)) by {
                    if before.contains(p) {
                        let k = choose|k: int| 0 <= k < before.len() && before[k] == p;
                        if k < i {
                            assert(self@[k] == p);
                        } else {
                            assert(k > i);
                            assert(self@[k - 1] == p);
                        }
                    }
                    if self@.contains(p) {
                        let k = choose|k: int| 0 <= k < self@.len() && self@[k] == p;
                        if k < i {
                            assert(before[k] == p);
                        } else {
                            assert(before[k + 1] == p);
                        }
                    }
                }
                assert(!self@.contains(path@)) by {
                    if self@.contains(path@) {
                        let k = choose|k: int| 0 <= k < self@.len() && self@[k] == path@;
                        if k < i {
                            assert(before[k] == before[i as int]);
                        } else {
                            assert(before[k + 1] == before[i as int]);
                        }
                    }
                }
            },
        }
    }
}

/// The entries to delete after a rescan are those whose file was checked and
/// is gone (`Some(false)`); an entry whose check failed (`None`) is kept.
pub fn entries_to_delete(exists: &Vec<Option<bool>>) -> (r: Vec<usize>)
    ensures
        forall|k: int| 0 <= k < r@.len() ==> (#[trigger] r@[k]) < exists@.len() && exists@[r@[k] as int] == Some(false),
        forall|i: int| 0 <= i < exists@.len() && exists@[i] == Some(false) ==> r@.contains(i as usize),
        forall|a: int, b: int| 0 <= a < b < r@.len() ==> r@[a] < r@[b],
{
    let mut r: Vec<usize> = Vec::new();
    let mut i: usize = 0;
    while i < exists.len()
        invariant
            i <= exists.len(),
            forall|k: int| 0 <= k < r@.len() ==> (#[trigger] r@[k]) < i && exists@[r@[k] as int] == Some(false),
            forall|j: int| 0 <= j < i && exists@[j] == Some(false) ==> r@.contains(j as usize),
            forall|a: int, b: int| 0 <= a < b < r@.len() ==> r@[a] < r@[b],
        decreases exists.len() - i,
    {
        if exists[i] == Some(false) {
            let ghost before = r@;
            r.push(i);
            assert forall|j: int| 0 <= j < i + 1 && exists@[j] == Some(false) implies r@.contains(j as usize) by {
                if j < i {
                    let k = choose|k: int| 0 <= k < before.len() && before[k] == j as usize;
                    assert(r@[k] == j as usize);
                } else {
                    assert(r@[r@.len() - 1] == j as usize);
                }
            }
        }
        i = i + 1;
    }
    r
}

/// The name of the playlist holding every song.
pub const ALL_MUSIC: &'static str = "所有音乐";

/// A song belongs to a playlist when the playlist is the all-music one, or
/// names the folder the song sits in.
pub open spec fn in_playlist(playlist: Seq<char>, parent_dir: Option<Seq<char>>) -> bool {
    playlist == ALL_MUSIC@ || parent_dir == Some(playlist)
}

/// The positions of the songs (given by their folders) that a playlist holds,
/// in library order.
pub fn playlist_members(parent_dirs: &Vec<Option<String>>, playlist: &str) -> (r: Vec<usize>)
    ensures
        forall|k: int| 0 <= k < r@.len() ==> (#[trigger] r@[k]) < parent_dirs@.len() && in_playlist(
            playlist@,
            opt_string_view(parent_dirs@[r@[k] as int]),
        ),
        forall|i: int|
            0 <= i < parent_dirs@.len() && in_playlist(playlist@, opt_string_view(parent_dirs@[i]))
                ==> r@.contains(i as usize),
        forall|a: int, b: int| 0 <= a < b < r@.len() ==> r@[a] < r@[b],
{
    let all = str_eq(playlist, ALL_MUSIC);
    let mut r: Vec<usize> = Vec::new();
    let mut i: usize = 0;
    while i < parent_dirs.len()
        invariant
            i <= parent_dirs.len(),
            all == (playlist@ == ALL_MUSIC@),
            forall|k: int| 0 <= k < r@.len() ==> (#[trigger] r@[k]) < i && in_playlist(
                playlist@,
                opt_string_view(parent_dirs@[r@[k] as int]),
            ),
            forall|j: int|
                0 <= j < i && in_playlist(playlist@, opt_string_view(parent_dirs@[j])) ==> r@.contains(j as usize),
            forall|a: int, b: int| 0 <= a < b < r@.len() ==> r@[a] < r@[b],
        decreases parent_dirs.len() - i,
    {
        let member = all || match &parent_dirs[i] {
            Some(d) => str_eq(d.as_str(), playlist),
            None => false,
        };
        if member {
            let ghost before = r@;
            r.push(i);
            assert forall|j: int|
                0 <= j < i + 1 && in_playlist(playlist@, opt_string_view(parent_dirs@[j])) implies r@.contains(
                j as usize,
            ) by {
                if j < i {
                    let k = choose|k: int| 0 <= k < before.len() && before[k] == j as usize;
                    assert(r@[k] == j as usize);
                } else {
                    assert(r@[r@.len() - 1] == j as usize);
                }
            }
        }
        i = i + 1;
    }
    r
}

/// Every song is in the all-music playlist, and a song in a folder is in that
/// folder's playlist.
pub proof fn law_songs_in_all_music_and_their_folder(parent_dir: Option<Seq<char>>)
    ensures
        in_playlist(ALL_MUSIC@, parent_dir),
        parent_dir matches Some(d) ==> in_playlist(d, parent_dir),
{
}

/// The songs of a user collection, by library id, each once, in the order they
/// were added.
pub struct CollectionItems {
    music_ids: Vec<i32>,
}

impl View for CollectionItems {
    type V = Seq<i32>;

    closed spec fn view(&self) -> Seq<i32> {
        self.music_ids@
    }
}

fn find_id(ids: &Vec<i32>, id: i32) -> (r: Option<usize>)
    ensures
        match r {
            Some(i) => i < ids@.len() && ids@[i as int] == id,
            None => !ids@.contains(id),
        },
{
    let mut i: usize = 0;
    while i < ids.len()
        invariant
            i <= ids.len(),
            forall|j: int| 0 <= j < i ==> ids@[j] != id,
        decreases ids.len() - i,
    {
        if ids[i] == id {
            return Some(i);
        }
        i = i + 1;
    }
    None
}

/// No id occurs twice.
pub open spec fn distinct_ids(s: Seq<i32>) -> bool {
    forall|i: int, j: int| 0 <= i < j < s.len() ==> s[i] != s[j]
}

impl CollectionItems {
    /// The well-formedness of a collection: each song once.
    pub open spec fn wf(&self) -> bool {
        distinct_ids(self@)
    }

    /// An empty collection.
    pub fn new() -> (r: CollectionItems)
        ensures
            r.wf(),
            r@.len() == 0,
    {
        CollectionItems { music_ids: Vec::new() }
    }

    /// The songs of the collection, in the order they were added.
    pub fn music_ids(&self) -> (r: Vec<i32>)
        ensures
            r@ == self@,
    {
        self.music_ids.clone()
    }

    /// Whether the collection holds a song.
    pub fn contains(&self, music_id: i32) -> (r: bool)
        ensures
            r == self@.contains(music_id),
    {
        find_id(&self.music_ids, music_id).is_some()
    }

    /// Adds the requested songs, in order, that are in the library
    /// (`in_library[k]` for `requested[k]`) and not in the collection yet;
    /// returns how many were added.
    pub fn add_songs(&mut self, requested: &Vec<i32>, in_library: &Vec<bool>) -> (added: usize)
        requires
            old(self).wf(),
            in_library@.len() == requested@.len(),
        ensures
            final(self).wf(),
            forall|m: i32| old(self)@.contains(m) ==> final(self)@.contains(m),
            forall|k: int| 0 <= k < requested@.len() && in_library@[k] ==> final(self)@.contains(#[trigger] requested@[k]),
            forall|m: i32|
                final(self)@.contains(m) ==> old(self)@.contains(m) || exists|k: int|
                    0 <= k < requested@.len() && in_library@[k] && #[trigger] requested@[k] == m,
            final(self)@.len() == old(self)@.len() + added,
            final(self)@.subrange(0, old(self)@.len() as int) == old(self)@,
    {
        let ghost start = self@;
        let mut added: usize = 0;
        let mut i: usize = 0;
        while i < requested.len()
            invariant
                i <= requested.len(),
                added <= i,
                in_library@.len() == requested@.len(),
                self.wf(),
                self@.len() == start.len() + added,
                self@.subrange(0, start.len() as int) == start,
                forall|m: i32| start.contains(m) ==> self@.contains(m),
                forall|k: int| 0 <= k < i && in_library@[k] ==> self@.contains(#[trigger] requested@[k]),
                forall|m: i32|
                    self@.contains(m) ==> start.contains(m) || exists|k: int|
                        0 <= k < i && in_library@[k] && #[trigger] requested@[k] == m,
            decreases requested.len() - i,
        {
            let id = requested[i];
            if in_library[i] && find_id(&self.music_ids, id).is_none() {
                let ghost before = self@;
                self.music_ids.push(id);
                added = added + 1;
                proof {
                    assert(self@ == before.push(id));
                    assert(self@.subrange(0, start.len() as int) =~= before.subrange(0, start.len() as int));
                    assert forall|a: int, b: int| 0 <= a < b < self@.len() implies self@[a] != self@[b] by {
                        if b == self@.len() - 1 {
                            assert(self@[a] == before[a]);
                        }
                    }
                    assert forall|m: i32| start.contains(m) implies self@.contains(m) by {
                        let k = choose|k: int| 0 <= k < before.len() && before[k] == m;
                        assert(self@[k] == m);
                    }
                    assert forall|k: int| 0 <= k < i + 1 && in_library@[k] implies self@.contains(#[trigger] requested@[k]) by {
                        if k < i {
                            let x = choose|x: int| 0 <= x < before.len() && before[x] == requested@[k];
                            assert(self@[x] == requested@[k]);
                        } else {
                            assert(self@[self@.len() - 1] == id);
                        }
                    }
                    assert forall|m: i32| self@.contains(m) implies start.contains(m) || exists|k: int|
                        0 <= k < i + 1 && in_library@[k] && #[trigger] requested@[k] == m by {
                        let x = choose|x: int| 0 <= x < self@.len() && self@[x] == m;
                        if x < before.len() {
                            assert(before[x] == m);
                            assert(before.contains(m));
                        } else {
                            assert(requested@[i as int] == m);
                        }
                    }
                }
            } else {
                proof {
                    assert forall|k: int| 0 <= k < i + 1 && in_library@[k] implies self@.contains(#[trigger] requested@[k]) by {
                        if k == i {
                            let j = find_id_witness(self@, id);
                        }
                    }
                }
            }
            i = i + 1;
        }
        added
    }

    /// Removes the requested songs; returns how many were removed.
    pub fn remove_songs(&mut self, requested: &Vec<i32>) -> (removed: usize)
        requires
            old(self).wf(),
        ensures
            final(self).wf(),
            forall|k: int| 0 <= k < requested@.len() ==> !final(self)@.contains(#[trigger] requested@[k]),
            forall|m: i32| !requested@.contains(m) ==> (final(self)@.contains(m) <==> old(self)@.contains(m)),
            removed <= requested@.len(),
            final(self)@.len() + removed == old(self)@.len(),
    {
        let ghost start = self@;
        let mut removed: usize = 0;
        let mut i: usize = 0;
        while i < requested.len()
            invariant
                i <= requested.len(),
                removed <= i,
                self@.len() + removed == start.len(),
                self.wf(),
                forall|k: int| 0 <= k < i ==> !self@.contains(#[trigger] requested@[k]),
                forall|m: i32|
                    !requested@.take(i as int).contains(m) ==> (self@.contains(m) <==> start.contains(m)),
            decreases requested.len() - i,
        {
            let id = requested[i];
            match find_id(&self.music_ids, id) {
                None => {},
                Some(j) => {
                    let ghost before = self@;
                    self.music_ids.remove(j);
                    removed = removed + 1;
                    proof {
                        assert(self@ == before.remove(j as int));
                        lemma_remove_distinct(before, j as int);
                    }
                },
            }
            proof {
                assert(requested@.take(i + 1) =~= requested@.take(i as int).push(id));
                assert forall|m: i32| !requested@.take(i + 1).contains(m) implies (self@.contains(m) <==> start.contains(m)) by {
                    assert(requested@.take(i + 1)[i as int] == id);
                    if requested@.take(i as int).contains(m) {
                        let x = choose|x: int| 0 <= x < i && requested@.take(i as int)[x] == m;
                        assert(requested@.take(i + 1)[x] == m);
                    }
                }
            }
            i = i + 1;
        }
        proof {
            assert(requested@.take(requested.len() as int) =~= requested@);
        }
        removed
    }
}

/// Some position of `s` holds `id`, when `s` contains it.
proof fn find_id_witness(s: Seq<i32>, id: i32) -> (j: int)
    requires
        s.contains(id),
    ensures
        0 <= j < s.len() && s[j] == id,
{
    choose|j: int| 0 <= j < s.len() && s[j] == id
}

/// Removing the only occurrence of a value from a sequence without repeats
/// leaves a sequence without repeats that lacks the value and keeps the rest.
proof fn lemma_remove_distinct(s: Seq<i32>, j: int)
    requires
        distinct_ids(s),
        0 <= j < s.len(),
    ensures
        distinct_ids(s.remove(j)),
        !s.remove(j).contains(s[j]),
        forall|m: i32| m != s[j] ==> (s.remove(j).contains(m) <==> s.contains(m)),
{
    let r = s.remove(j);
    assert forall|a: int, b: int| 0 <= a < b < r.len() implies r[a] != r[b] by {
        let a2 = if a < j { a } else { a + 1 };
        let b2 = if b < j { b } else { b + 1 };
        assert(r[a] == s[a2] && r[b] == s[b2]);
    }
    assert(!r.contains(s[j])) by {
        if r.contains(s[j]) {
            let x = choose|x: int| 0 <= x < r.len() && r[x] == s[j];
            let x2 = if x < j { x } else { x + 1 };
            assert(s[x2] == s[j]);
        }
    }
    assert forall|m: i32| m != s[j] implies (r.contains(m) <==> s.contains(m)) by {
        if s.contains(m) {
            let x = choose|x: int| 0 <= x < s.len() && s[x] == m;
            if x < j {
                assert(r[x] == m);
            } else {
                assert(x != j);
                assert(r[x - 1] == m);
            }
        }
        if r.contains(m) {
            let x = choose|x: int| 0 <= x < r.len() && r[x] == m;
            let x2 = if x < j { x } else { x + 1 };
            assert(s[x2] == m);
        }
    }
}

/// The refusal of a collection name already in use.
pub const DUPLICATE_COLLECTION: &'static str = "Collection with this name already exists";

fn concat(a: &str, b: &str) -> (r: String)
    ensures
        r@ == a@ + b@,
{
    let mut out: Vec<char> = Vec::new();
    push_str(&mut out, a);
    push_str(&mut out, b);
    string_of(&out)
}

/// Whether a new music directory may be saved: a `content://` tree URI is taken
/// as it is (the shell checks it); a filesystem path must exist and be a
/// directory.
pub open spec fn music_directory_check(path: Seq<char>, exists: bool, is_dir: bool) -> Result<(), Seq<char>> {
    if crate::text::has_prefix(path, "content://"@) {
        Ok(())
    } else if !exists {
        Err("Directory does not exist: "@ + path)
    } else if !is_dir {
        Err("Path is not a directory: "@ + path)
    } else {
        Ok(())
    }
}

/// Checks a requested music directory, given whether it exists and is a
/// directory.
pub fn check_music_directory(path: &str, exists: bool, is_dir: bool) -> (r: Result<(), String>)
    ensures
        match r {
            Ok(()) => music_directory_check(path@, exists, is_dir) is Ok,
            Err(m) => music_directory_check(path@, exists, is_dir) == Err::<(), Seq<char>>(m@),
        },
{
    if str_starts_with(path, "content://") {
        Ok(())
    } else if !exists {
        Err(concat("Directory does not exist: ", path))
    } else if !is_dir {
        Err(concat("Path is not a directory: ", path))
    } else {
        Ok(())
    }
}

/// The confirmation of a saved music directory; a `content://` URI is shown by
/// a friendly name.
pub fn music_directory_saved_message(path: &str) -> (r: String)
    ensures
        r@ == "Music directory will be set to '"@ + (if crate::text::has_prefix(path@, "content://"@) {
            "[Android Storage Directory]"@
        } else {
            path@
        }) + "' on next restart."@,
{
    let shown: &str = if str_starts_with(path, "content://") {
        "[Android Storage Directory]"
    } else {
        path
    };
    let mut out: Vec<char> = Vec::new();
    push_str(&mut out, "Music directory will be set to '");
    push_str(&mut out, shown);
    push_str(&mut out, "' on next restart.");
    string_of(&out)
}

/// How a library update request went.
pub enum LibraryUpdateOutcome {
    /// A start-up scan was asked for but one already completed.
    StartupSkipped,
    /// The start-up flag could not be read.
    StartupFlagUnreadable(String),
    /// The start-up scan ran and was recorded.
    StartupDone,
    /// The start-up scan ran but could not be recorded.
    StartupFlagUnwritable(String),
    /// The start-up scan failed.
    StartupFailed(String),
    /// A rescan ran.
    Updated,
    /// A rescan failed.
    UpdateFailed(String),
}

/// The status, success flag and message answering a library update.
pub open spec fn library_update_reply(o: LibraryUpdateOutcome) -> (u16, bool, Seq<char>) {
    match o {
        LibraryUpdateOutcome::StartupSkipped => (200, true, "Startup scan skipped (already completed)"@),
        LibraryUpdateOutcome::StartupFlagUnreadable(e) => (500, false, "Failed to read startup scan flag: "@ + e@),
        LibraryUpdateOutcome::StartupDone => (200, true, "Startup scan completed successfully"@),
        LibraryUpdateOutcome::StartupFlagUnwritable(e) => (500, false, "Failed to update startup scan flag: "@ + e@),
        LibraryUpdateOutcome::StartupFailed(e) => (500, false, "Startup scan failed: "@ + e@),
        LibraryUpdateOutcome::Updated => (200, true, "Database updated successfully"@),
        LibraryUpdateOutcome::UpdateFailed(e) => (500, false, "Database update failed: "@ + e@),
    }
}

/// Answers a library update.
pub fn library_update_response(outcome: LibraryUpdateOutcome) -> (r: (u16, bool, String))
    ensures
        (r.0, r.1, r.2@) == library_update_reply(outcome),
{
    match outcome {
        LibraryUpdateOutcome::StartupSkipped => (200, true, "Startup scan skipped (already completed)".to_owned()),
        LibraryUpdateOutcome::StartupFlagUnreadable(e) => (
            500,
            false,
            concat("Failed to read startup scan flag: ", e.as_str()),
        ),
        LibraryUpdateOutcome::StartupDone => (200, true, "Startup scan completed successfully".to_owned()),
        LibraryUpdateOutcome::StartupFlagUnwritable(e) => (
            500,
            false,
            concat("Failed to update startup scan flag: ", e.as_str()),
        ),
        LibraryUpdateOutcome::StartupFailed(e) => (500, false, concat("Startup scan failed: ", e.as_str())),
        LibraryUpdateOutcome::Updated => (200, true, "Database updated successfully".to_owned()),
        LibraryUpdateOutcome::UpdateFailed(e) => (500, false, concat("Database update failed: ", e.as_str())),
    }
}

/// Whether a start-up scan still has to run: it was asked for and none
/// completed before. A plain rescan always runs.
pub fn startup_scan_needed(startup: Option<bool>, already_done: bool) -> (r: bool)
    ensures
        r == (startup == Some(true) && !already_done),
{
    match startup {
        Some(true) => !already_done,
        _ => false,
    }
}

} // verus!
