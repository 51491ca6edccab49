//! Unix path text: components, file names, stems, extensions and joining, with the
//! meaning `std::path::Path` gives them on Unix.
use vstd::prelude::*;
use crate::lyrics::{lines_view, slice_chars};
use crate::text::{chars_eq, chars_of, has_prefix, push_all, string_of};

verus! {

/// The pieces of `s` between occurrences of `sep`, after the partial piece `cur`
/// (`str::split`: always one more piece than separators).
pub open spec fn split_from(s: Seq<char>, sep: char, cur: Seq<char>) -> Seq<Seq<char>>
    decreases s.len(),
{
    if s.len() == 0 {
        seq![cur]
    } else if s[0] == sep {
        seq![cur] + split_from(s.drop_first(), sep, Seq::empty())
    } else {
        split_from(s.drop_first(), sep, cur.push(s[0]))
    }
}

/// The pieces of `s` between occurrences of `sep`.
pub open spec fn split_on(s: Seq<char>, sep: char) -> Seq<Seq<char>> {
    split_from(s, sep, Seq::empty())
}

/// The pieces that name something: neither empty nor `.`.
pub open spec fn named_parts(ps: Seq<Seq<char>>) -> Seq<Seq<char>>
    decreases ps.len(),
{
    if ps.len() == 0 {
        Seq::empty()
    } else {
        let head = if ps[0].len() == 0 || ps[0] == seq!['.'] {
            Seq::empty()
        } else {
            seq![ps[0]]
        };
        head + named_parts(ps.drop_first())
    }
}

/// The `Normal` and `ParentDir` components of a Unix path, in order.
pub open spec fn segments(p: Seq<char>) -> Seq<Seq<char>> {
    named_parts(split_on(p, '/'))
}

/// The path begins with a `CurDir` component (`.` alone or `./...`).
pub open spec fn starts_cur_dir(p: Seq<char>) -> bool {
    p == seq!['.'] || has_prefix(p, seq!['.', '/'])
}

/// The path begins with a root (`/`).
pub open spec fn starts_root(p: Seq<char>) -> bool {
    p.len() > 0 && p[0] == '/'
}

/// The path is exactly one `Normal` component (`Path::components`).
pub open spec fn is_single_normal(p: Seq<char>) -> bool {
    &&& !starts_root(p)
    &&& !starts_cur_dir(p)
    &&& segments(p).len() == 1
    &&& segments(p)[0] != seq!['.', '.']
}

/// Some component of the path is `..`.
pub open spec fn has_parent_component(p: Seq<char>) -> bool {
    segments(p).contains(seq!['.', '.'])
}

/// The final component when it is a normal name (`Path::file_name`).
pub open spec fn file_name(p: Seq<char>) -> Option<Seq<char>> {
    let s = segments(p);
    if s.len() == 0 || s.last() == seq!['.', '.'] {
        None
    } else {
        Some(s.last())
    }
}

/// Position of the last `c` in `s`, or -1.
pub open spec fn last_index_of(s: Seq<char>, c: char) -> int
    decreases s.len(),
{
    if s.len() == 0 {
        -1
    } else if s.last() == c {
        s.len() - 1
    } else {
        last_index_of(s.drop_last(), c)
    }
}

/// The name without its final extension (`Path::file_stem` on a file name).
pub open spec fn stem_of(name: Seq<char>) -> Seq<char> {
    let k = last_index_of(name, '.');
    if k <= 0 {
        name
    } else {
        name.take(k)
    }
}

/// The text after the final dot (`Path::extension` on a file name).
pub open spec fn extension_of(name: Seq<char>) -> Option<Seq<char>> {
    let k = last_index_of(name, '.');
    if k <= 0 {
        None
    } else {
        Some(name.skip(k + 1))
    }
}

/// `Path::file_stem`.
pub open spec fn file_stem(p: Seq<char>) -> Option<Seq<char>> {
    match file_name(p) {
        Some(n) => Some(stem_of(n)),
        None => None,
    }
}

/// `Path::extension`.
pub open spec fn extension(p: Seq<char>) -> Option<Seq<char>> {
    match file_name(p) {
        Some(n) => extension_of(n),
        None => None,
    }
}

/// `Path::join` on Unix: an absolute `rel` replaces `base`; otherwise a `/` is
/// inserted when `base` is non-empty and does not already end in one.
pub open spec fn join_path(base: Seq<char>, rel: Seq<char>) -> Seq<char> {
    if starts_root(rel) {
        rel
    } else if base.len() == 0 || base.last() == '/' {
        base + rel
    } else {
        base + seq!['/'] + rel
    }
}

/// Splits `v` at every `sep`.
pub fn split_chars(v: &[char], sep: char) -> (r: Vec<Vec<char>>)
    ensures
        lines_view(r@) == split_on(v@, sep),
{
    let mut out: Vec<Vec<char>> = Vec::new();
    let mut cur: Vec<char> = Vec::new();
    let mut i: usize = 0;
    assert(v@.skip(0) =~= v@);
    assert(lines_view(out@) =~= Seq::<Seq<char>>::empty());
    while i < v.len()
        invariant
            i <= v.len(),
            split_on(v@, sep) == lines_view(out@) + split_from(v@.skip(i as int), sep, cur@),
        decreases v.len() - i,
    {
        let ghost rest = v@.skip(i as int);
        assert(rest.drop_first() =~= v@.skip(i + 1));
        assert(rest[0] == v@[i as int]);
        if v[i] == sep {
            let ghost before = lines_view(out@);
            let ghost piece = cur@;
            out.push(cur);
            assert(lines_view(out@) =~= before.push(piece));
            assert(before + (seq![piece] + split_from(v@.skip(i + 1), sep, Seq::empty()))
                =~= before.push(piece) + split_from(v@.skip(i + 1), sep, Seq::empty()));
            cur = Vec::new();
            assert(cur@ =~= Seq::<char>::empty());
        } else {
            cur.push(v[i]);
        }
        i = i + 1;
    }
    let ghost before = lines_view(out@);
    let ghost piece = cur@;
    out.push(cur);
    assert(lines_view(out@) =~= before + seq![piece]);
    out
}

/// The `Normal` and `ParentDir` components of the path `v`.
pub fn path_segments(v: &[char]) -> (r: Vec<Vec<char>>)
    ensures
        lines_view(r@) == segments(v@),
{
    let parts = split_chars(v, '/');
    let ghost all = lines_view(parts@);
    let mut out: Vec<Vec<char>> = Vec::new();
    let mut i: usize = 0;
    assert(all.skip(0) =~= all);
    assert(lines_view(out@) =~= Seq::<Seq<char>>::empty());
    while i < parts.len()
        invariant
            i <= parts.len(),
            all == lines_view(parts@),
            named_parts(all) == lines_view(out@) + named_parts(all.skip(i as int)),
        decreases parts.len() - i,
    {
        let ghost before = lines_view(out@);
        assert(all.skip(i as int).drop_first() =~= all.skip(i + 1));
        assert(all.skip(i as int)[0] == parts@[i as int]@);
        let p = &parts[i];
        let is_dot = p.len() == 1 && p[0] == '.';
        proof {
            if p@.len() == 1 && p@[0] == '.' {
                assert(p@ =~= seq!['.']);
            }
        }
        if p.len() == 0 || is_dot {
            assert(Seq::<Seq<char>>::empty() + named_parts(all.skip(i + 1)) =~= named_parts(
                all.skip(i + 1),
            ));
        } else {
            let copy = slice_chars(p, 0, p.len());
            assert(copy@ =~= p@);
            out.push(copy);
            assert(lines_view(out@) =~= before.push(p@));
            assert(before + (seq![p@] + named_parts(all.skip(i + 1))) =~= before.push(p@)
                + named_parts(all.skip(i + 1)));
        }
        i = i + 1;
    }
    assert(all.skip(parts.len() as int) =~= Seq::<Seq<char>>::empty());
    assert(lines_view(out@) + Seq::<Seq<char>>::empty() =~= lines_view(out@));
    out
}

/// Whether `v` is `..`.
fn is_dot_dot(v: &[char]) -> (r: bool)
    ensures
        r == (v@ == seq!['.', '.']),
{
    let r = v.len() == 2 && v[0] == '.' && v[1] == '.';
    proof {
        if v@.len() == 2 && v@[0] == '.' && v@[1] == '.' {
            assert(v@ =~= seq!['.', '.']);
        }
    }
    r
}

/// The final normal component of the path `v` (`Path::file_name`).
pub fn file_name_chars(v: &[char]) -> (r: Option<Vec<char>>)
    ensures
        match r {
            Some(n) => file_name(v@) == Some(n@),
            None => file_name(v@) is None,
        },
{
    let segs = path_segments(v);
    if segs.len() == 0 {
        return None;
    }
    let last = &segs[segs.len() - 1];
    if is_dot_dot(last) {
        return None;
    }
    Some(slice_chars(last, 0, last.len()))
}

/// Position of the last `c` in `v`, if any.
pub fn rfind_char(v: &[char], c: char) -> (r: Option<usize>)
    ensures
        match r {
            Some(k) => k < v.len() && k as int == last_index_of(v@, c),
            None => last_index_of(v@, c) == -1,
        },
{
    let mut i: usize = v.len();
    assert(v@.take(v@.len() as int) =~= v@);
    while i > 0
        invariant
            i <= v.len(),
            last_index_of(v@, c) == last_index_of(v@.take(i as int), c),
        decreases i,
    {
        assert(v@.take(i as int).drop_last() =~= v@.take(i - 1));
        if v[i - 1] == c {
            return Some(i - 1);
        }
        i = i - 1;
    }
    None
}

/// The name without its final extension.
pub fn stem_chars(name: &[char]) -> (r: Vec<char>)
    ensures
        r@ == stem_of(name@),
{
    match rfind_char(name, '.') {
        Some(k) => {
            if k == 0 {
                slice_chars(name, 0, name.len())
            } else {
                slice_chars(name, 0, k)
            }
        },
        None => slice_chars(name, 0, name.len()),
    }
}

/// The text after the final dot of a name.
pub fn extension_chars(name: &[char]) -> (r: Option<Vec<char>>)
    ensures
        match r {
            Some(e) => extension_of(name@) == Some(e@),
            None => extension_of(name@) is None,
        },
{
    match rfind_char(name, '.') {
        Some(k) => {
            if k == 0 {
                None
            } else {
                Some(slice_chars(name, k + 1, name.len()))
            }
        },
        None => None,
    }
}

/// `Path::file_stem` of `v`.
pub fn file_stem_chars(v: &[char]) -> (r: Option<Vec<char>>)
    ensures
        match r {
            Some(s) => file_stem(v@) == Some(s@),
            None => file_stem(v@) is None,
        },
{
    match file_name_chars(v) {
        Some(n) => Some(stem_chars(&n)),
        None => None,
    }
}

/// `Path::extension` of `v`.
pub fn extension_of_path(v: &[char]) -> (r: Option<Vec<char>>)
    ensures
        match r {
            Some(e) => extension(v@) == Some(e@),
            None => extension(v@) is None,
        },
{
    match file_name_chars(v) {
        Some(n) => extension_chars(&n),
        None => None,
    }
}

/// Whether the path `v` is exactly one normal component.
pub fn is_single_normal_component(v: &[char]) -> (r: bool)
    ensures
        r == is_single_normal(v@),
{
    if v.len() > 0 && v[0] == '/' {
        return false;
    }
    let dot = v.len() == 1 && v[0] == '.';
    let dot_slash = v.len() >= 2 && v[0] == '.' && v[1] == '/';
    proof {
        if v@.len() == 1 && v@[0] == '.' {
            assert(v@ =~= seq!['.']);
        }
        if v@.len() >= 2 && v@[0] == '.' && v@[1] == '/' {
            assert(v@.take(2) =~= seq!['.', '/']);
        }
        if v@ == seq!['.'] {
            assert(v@.len() == 1);
        }
        if has_prefix(v@, seq!['.', '/']) {
            assert(v@.take(2)[0] == '.');
            assert(v@.take(2)[1] == '/');
        }
    }
    if dot || dot_slash {
        return false;
    }
    let segs = path_segments(v);
    segs.len() == 1 && !is_dot_dot(&segs[0])
}

/// Whether some component of the path `v` is `..`.
pub fn has_parent_dir(v: &[char]) -> (r: bool)
    ensures
        r == has_parent_component(v@),
{
    let segs = path_segments(v);
    let ghost sv = lines_view(segs@);
    let mut i: usize = 0;
    while i < segs.len()
        invariant
            i <= segs.len(),
            sv == lines_view(segs@),
            sv == segments(v@),
            forall|j: int| 0 <= j < i ==> sv[j] != seq!['.', '.'],
        decreases segs.len() - i,
    {
        assert(sv[i as int] == segs@[i as int]@);
        if is_dot_dot(&segs[i]) {
            assert(sv[i as int] == seq!['.', '.']);
            assert(sv.contains(seq!['.', '.']));
            return true;
        }
        i = i + 1;
    }
    false
}

/// `base` joined with `rel` (`Path::join`).
pub fn join_chars_path(base: &[char], rel: &[char]) -> (r: Vec<char>)
    ensures
        r@ == join_path(base@, rel@),
{
    if rel.len() > 0 && rel[0] == '/' {
        return slice_chars(rel, 0, rel.len());
    }
    let mut out = slice_chars(base, 0, base.len());
    assert(out@ =~= base@);
    if base.len() > 0 && base[base.len() - 1] != '/' {
        out.push('/');
    }
    push_all(&mut out, rel);
    proof {
        if base@.len() > 0 && base@.last() != '/' {
            assert(out@ =~= base@ + seq!['/'] + rel@);
        }
    }
    out
}

/// Whether the path is a filesystem path rather than a `content://` URI.
pub fn is_std_fs_path(path: &str) -> (r: bool)
    ensures
        r == !has_prefix(path@, "content://"@),
{
    !crate::text::str_starts_with(path, "content://")
}

/// Whether the path is an Android `content://` URI.
pub fn is_content_uri(path: &str) -> (r: bool)
    ensures
        r == has_prefix(path@, "content://"@),
{
    crate::text::str_starts_with(path, "content://")
}

/// `relative` joined onto `base`.
pub fn join_relative_path(base: &str, relative: &str) -> (r: String)
    ensures
        r@ == join_path(base@, relative@),
{
    let b = chars_of(base);
    let rel = chars_of(relative);
    let joined = join_chars_path(&b, &rel);
    string_of(&joined)
}

/// The path without the `/` and `/.` that may trail its final component.
pub open spec fn trim_trailing(p: Seq<char>) -> Seq<char>
    decreases p.len(),
{
    if p.len() >= 1 && p.last() == '/' {
        trim_trailing(p.drop_last())
    } else if p.len() >= 2 && p.last() == '.' && p[p.len() - 2] == '/' {
        trim_trailing(p.drop_last())
    } else {
        p
    }
}

/// `Path::with_extension` on Unix: the path cut right after the stem of its file
/// name, then `.` and `ext` (nothing more when `ext` is empty); a path without a
/// file name is left as it is.
pub open spec fn with_extension(p: Seq<char>, ext: Seq<char>) -> Seq<char> {
    match file_name(p) {
        None => p,
        Some(n) => {
            let t = trim_trailing(p);
            let cut = n.len() - stem_of(n).len();
            let base = if cut <= t.len() {
                t.take(t.len() - cut)
            } else {
                Seq::empty()
            };
            if ext.len() == 0 {
                base
            } else {
                base + seq!['.'] + ext
            }
        },
    }
}

/// The path `v` with its extension replaced by `ext`.
pub fn with_extension_chars(v: &[char], ext: &[char]) -> (r: Vec<char>)
    requires
        !ext@.contains('/'),
    ensures
        r@ == with_extension(v@, ext@),
{
    let n = match file_name_chars(v) {
        None => {
            return slice_chars(v, 0, v.len());
        },
        Some(n) => n,
    };
    let mut end: usize = v.len();
    assert(v@.take(v.len() as int) =~= v@);
    while end > 0 && (v[end - 1] == '/' || (end >= 2 && v[end - 1] == '.' && v[end - 2] == '/'))
        invariant
            end <= v.len(),
            trim_trailing(v@) == trim_trailing(v@.take(end as int)),
        decreases end,
    {
        assert(v@.take(end as int).drop_last() =~= v@.take(end - 1));
        end = end - 1;
    }
    assert(trim_trailing(v@.take(end as int)) == v@.take(end as int));
    let stem = stem_chars(&n);
    proof {
        lemma_stem_shorter(n@);
    }
    let cut = n.len() - stem.len();
    let keep: usize = if cut <= end {
        end - cut
    } else {
        0
    };
    let mut r = slice_chars(v, 0, keep);
    assert(r@ =~= (if cut <= end {
        v@.take(end as int).take(end - cut)
    } else {
        Seq::empty()
    }));
    if ext.len() > 0 {
        r.push('.');
        push_all(&mut r, ext);
    }
    r
}

/// A stem is never longer than the name it comes from.
proof fn lemma_stem_shorter(name: Seq<char>)
    ensures
        stem_of(name).len() <= name.len(),
{
    lemma_last_index_bounds(name, '.');
}

proof fn lemma_last_index_bounds(s: Seq<char>, c: char)
    ensures
        -1 <= last_index_of(s, c) < s.len(),
    decreases s.len(),
{
    if s.len() > 0 && s.last() != c {
        lemma_last_index_bounds(s.drop_last(), c);
    }
}

/// `Path::with_extension` on a path given as text. An extension holding a path
/// separator, which std refuses, is left out.
pub fn path_with_extension(path: &str, ext: &str) -> (r: String)
    requires
        !ext@.contains('/'),
    ensures
        r@ == with_extension(path@, ext@),
{
    let v = chars_of(path);
    let e = chars_of(ext);
    string_of(&with_extension_chars(&v, &e))
}

} // verus!
