//! Lyric text handling: LRC line splitting, merging an original lyric with its
//! translation, and choosing the sidecar file extension.
use vstd::prelude::*;
use crate::text::{chars_of, chars_start_with, is_whitespace, push_all, string_of, trim, trim_chars};

verus! {

/// The line without a trailing carriage return.
pub open spec fn strip_cr(line: Seq<char>) -> Seq<char> {
    if line.len() > 0 && line.last() == '\r' {
        line.drop_last()
    } else {
        line
    }
}

/// Lines of `s` after the partial line `cur`: split at `\n`, a `\r` before the
/// `\n` dropped, and no empty line after a final `\n`.
pub open spec fn lines_from(s: Seq<char>, cur: Seq<char>) -> Seq<Seq<char>>
    decreases s.len(),
{
    if s.len() == 0 {
        if cur.len() == 0 {
            Seq::empty()
        } else {
            seq![cur]
        }
    } else if s[0] == '\n' {
        seq![strip_cr(cur)] + lines_from(s.drop_first(), Seq::empty())
    } else {
        lines_from(s.drop_first(), cur.push(s[0]))
    }
}

/// The lines of `s`, as `str::lines` yields them.
pub open spec fn lines(s: Seq<char>) -> Seq<Seq<char>> {
    lines_from(s, Seq::empty())
}

/// The pieces joined with `sep` between consecutive pieces.
pub open spec fn join(ls: Seq<Seq<char>>, sep: Seq<char>) -> Seq<char>
    decreases ls.len(),
{
    if ls.len() == 0 {
        Seq::empty()
    } else if ls.len() == 1 {
        ls[0]
    } else {
        join(ls.drop_last(), sep) + sep + ls.last()
    }
}

/// Position of the first `c` in `s`, or -1.
pub open spec fn index_of(s: Seq<char>, c: char) -> int
    decreases s.len(),
{
    if s.len() == 0 {
        -1
    } else if s[0] == c {
        0
    } else {
        let r = index_of(s.drop_first(), c);
        if r < 0 {
            -1
        } else {
            r + 1
        }
    }
}

pub proof fn lemma_index_of(s: Seq<char>, c: char)
    ensures
        -1 <= index_of(s, c) < s.len(),
        index_of(s, c) == -1 ==> !s.contains(c),
        index_of(s, c) >= 0 ==> s[index_of(s, c)] == c && forall|j: int|
            0 <= j < index_of(s, c) ==> s[j] != c,
    decreases s.len(),
{
    if s.len() > 0 {
        lemma_index_of(s.drop_first(), c);
        if s[0] != c && index_of(s.drop_first(), c) == -1 {
            assert forall|j: int| 0 <= j < s.len() implies s[j] != c by {
                if j > 0 {
                    assert(s[j] == s.drop_first()[j - 1]);
                }
            }
        }
        if s[0] != c && index_of(s.drop_first(), c) >= 0 {
            assert forall|j: int| 0 <= j < index_of(s, c) implies s[j] != c by {
                if j > 0 {
                    assert(s[j] == s.drop_first()[j - 1]);
                }
            }
        }
    }
}

/// An LRC line split after its first `]`: the timestamp (with the bracket) and the text.
pub open spec fn split_lrc(line: Seq<char>) -> Option<(Seq<char>, Seq<char>)> {
    let k = index_of(line, ']');
    if k < 0 {
        None
    } else {
        Some((line.take(k + 1), line.skip(k + 1)))
    }
}

/// The `(timestamp, text)` pairs of the LRC lines among `ls`, in order.
pub open spec fn lrc_pairs(ls: Seq<Seq<char>>) -> Seq<(Seq<char>, Seq<char>)>
    decreases ls.len(),
{
    if ls.len() == 0 {
        Seq::empty()
    } else {
        let head = match split_lrc(ls[0]) {
            Some(p) => seq![p],
            None => Seq::empty(),
        };
        head + lrc_pairs(ls.drop_first())
    }
}

/// The text of the last pair stamped `stamp` (later lines override earlier ones).
pub open spec fn last_text(pairs: Seq<(Seq<char>, Seq<char>)>, stamp: Seq<char>) -> Option<
    Seq<char>,
>
    decreases pairs.len(),
{
    if pairs.len() == 0 {
        None
    } else if pairs.last().0 == stamp {
        Some(pairs.last().1)
    } else {
        last_text(pairs.drop_last(), stamp)
    }
}

/// One original line in the merged lyric: the line, followed by its translation
/// (same timestamp) when that translation has visible text.
pub open spec fn merge_line(line: Seq<char>, pairs: Seq<(Seq<char>, Seq<char>)>) -> Seq<
    Seq<char>,
> {
    match split_lrc(line) {
        Some((stamp, text)) => {
            let extra = match last_text(pairs, stamp) {
                Some(tr) => if trim(tr).len() > 0 {
                    seq![stamp + tr]
                } else {
                    Seq::empty()
                },
                None => Seq::empty(),
            };
            seq![stamp + text] + extra
        },
        None => seq![line],
    }
}

/// The merged lines for the original lines `ls`.
pub open spec fn merge_lines(ls: Seq<Seq<char>>, pairs: Seq<(Seq<char>, Seq<char>)>) -> Seq<
    Seq<char>,
>
    decreases ls.len(),
{
    if ls.len() == 0 {
        Seq::empty()
    } else {
        merge_line(ls[0], pairs) + merge_lines(ls.drop_first(), pairs)
    }
}

/// The characters of an optional string, empty when absent.
pub open spec fn or_empty(o: Option<String>) -> Seq<char> {
    match o {
        Some(s) => s@,
        None => Seq::empty(),
    }
}

/// The merged lyric text: `None` when both parts are blank, the non-blank part
/// when only one is, and otherwise the original lines with each translated line
/// placed right after the original line of the same timestamp.
pub open spec fn merged_lyric(original: Seq<char>, translated: Seq<char>) -> Option<Seq<char>> {
    if trim(original).len() == 0 && trim(translated).len() == 0 {
        None
    } else if trim(translated).len() == 0 {
        Some(original)
    } else if trim(original).len() == 0 {
        Some(translated)
    } else {
        Some(join(merge_lines(lines(original), lrc_pairs(lines(translated))), seq!['\n']))
    }
}

/// The views of a vector of character vectors.
pub open spec fn lines_view(v: Seq<Vec<char>>) -> Seq<Seq<char>> {
    v.map_values(|l: Vec<char>| l@)
}

/// The characters of each string.
pub open spec fn strings_view(v: Seq<String>) -> Seq<Seq<char>> {
    v.map_values(|s: String| s@)
}

/// Joins the strings of `ws` with `sep` between consecutive ones (`[String]::join`).
pub fn join_strings(ws: &Vec<String>, sep: &str) -> (r: String)
    ensures
        r@ == join(strings_view(ws@), sep@),
{
    let ghost all = strings_view(ws@);
    let sep_chars = chars_of(sep);
    let mut out: Vec<char> = Vec::new();
    let mut i: usize = 0;
    while i < ws.len()
        invariant
            i <= ws.len(),
            all == strings_view(ws@),
            sep_chars@ == sep@,
            out@ == join(all.take(i as int), sep@),
        decreases ws.len() - i,
    {
        let ghost prefix = all.take(i + 1);
        assert(prefix.drop_last() =~= all.take(i as int));
        assert(prefix.last() == ws@[i as int]@);
        if i > 0 {
            push_all(&mut out, &sep_chars);
        } else {
            assert(all.take(0) =~= Seq::<Seq<char>>::empty());
        }
        let w = chars_of(ws[i].as_str());
        push_all(&mut out, &w);
        proof {
            if i == 0 {
                assert(out@ =~= prefix[0]);
            }
        }
        i = i + 1;
    }
    assert(all.take(ws.len() as int) =~= all);
    string_of(&out)
}

/// The views of a vector of pairs of character vectors.
pub open spec fn pairs_view(v: Seq<(Vec<char>, Vec<char>)>) -> Seq<(Seq<char>, Seq<char>)> {
    v.map_values(|p: (Vec<char>, Vec<char>)| (p.0@, p.1@))
}

/// Splits `v` into lines (`str::lines`).
pub fn split_lines(v: &[char]) -> (r: Vec<Vec<char>>)
    ensures
        lines_view(r@) == lines(v@),
{
    let mut out: Vec<Vec<char>> = Vec::new();
    let mut cur: Vec<char> = Vec::new();
    let mut i: usize = 0;
    assert(v@.skip(0) =~= v@);
    assert(lines_view(out@) =~= Seq::<Seq<char>>::empty());
    while i < v.len()
        invariant
            i <= v.len(),
            lines(v@) == lines_view(out@) + lines_from(v@.skip(i as int), cur@),
        decreases v.len() - i,
    {
        let ghost rest = v@.skip(i as int);
        assert(rest.drop_first() =~= v@.skip(i + 1));
        assert(rest[0] == v@[i as int]);
        if v[i] == '\n' {
            let ghost before = lines_view(out@);
            let mut line = cur;
            if line.len() > 0 && line[line.len() - 1] == '\r' {
                line.pop();
            }
            assert(line@ == strip_cr(cur@)) by {
                if cur@.len() > 0 && cur@.last() == '\r' {
                    assert(line@ =~= cur@.drop_last());
                }
            }
            out.push(line);
            assert(lines_view(out@) =~= before.push(strip_cr(cur@)));
            assert(before + (seq![strip_cr(cur@)] + lines_from(v@.skip(i + 1), Seq::empty()))
                =~= before.push(strip_cr(cur@)) + lines_from(v@.skip(i + 1), Seq::empty()));
            cur = Vec::new();
            assert(cur@ =~= Seq::<char>::empty());
        } else {
            cur.push(v[i]);
        }
        i = i + 1;
    }
    if cur.len() > 0 {
        let ghost before = lines_view(out@);
        out.push(cur);
        assert(lines_view(out@) =~= before + seq![lines_view(out@).last()]);
    } else {
        assert(lines_view(out@) + Seq::<Seq<char>>::empty() =~= lines_view(out@));
    }
    out
}

/// Joins `ls` with `sep` between consecutive pieces.
pub fn join_chars(ls: &Vec<Vec<char>>, sep: &[char]) -> (r: Vec<char>)
    ensures
        r@ == join(lines_view(ls@), sep@),
{
    let ghost all = lines_view(ls@);
    let mut out: Vec<char> = Vec::new();
    let mut i: usize = 0;
    while i < ls.len()
        invariant
            i <= ls.len(),
            all == lines_view(ls@),
            out@ == join(all.take(i as int), sep@),
        decreases ls.len() - i,
    {
        let ghost prefix = all.take(i + 1);
        assert(prefix.drop_last() =~= all.take(i as int));
        assert(prefix.last() == ls@[i as int]@);
        if i > 0 {
            push_all(&mut out, sep);
        } else {
            assert(all.take(0) =~= Seq::<Seq<char>>::empty());
        }
        push_all(&mut out, &ls[i]);
        proof {
            if i == 0 {
                assert(out@ =~= prefix[0]);
            }
        }
        i = i + 1;
    }
    assert(all.take(ls.len() as int) =~= all);
    out
}

/// Position of the first `c` in `v`, if any.
pub fn find_char(v: &[char], c: char) -> (r: Option<usize>)
    ensures
        match r {
            Some(k) => k < v.len() && k as int == index_of(v@, c),
            None => index_of(v@, c) == -1,
        },
{
    proof {
        lemma_index_of(v@, c);
    }
    let mut i: usize = 0;
    while i < v.len()
        invariant
            i <= v.len(),
            forall|j: int| 0 <= j < i ==> v@[j] != c,
            -1 <= index_of(v@, c) < v@.len(),
            index_of(v@, c) == -1 ==> !v@.contains(c),
            index_of(v@, c) >= 0 ==> v@[index_of(v@, c)] == c && forall|j: int|
                0 <= j < index_of(v@, c) ==> v@[j] != c,
        decreases v.len() - i,
    {
        if v[i] == c {
            return Some(i);
        }
        i = i + 1;
    }
    None
}

/// The characters `v[from..to]`.
pub fn slice_chars(v: &[char], from: usize, to: usize) -> (r: Vec<char>)
    requires
        from <= to <= v.len(),
    ensures
        r@ == v@.subrange(from as int, to as int),
{
    let mut r: Vec<char> = Vec::new();
    let mut k = from;
    while k < to
        invariant
            from <= k <= to <= v.len(),
            r@ == v@.subrange(from as int, k as int),
        decreases to - k,
    {
        r.push(v[k]);
        assert(v@.subrange(from as int, k as int).push(v@[k as int]) =~= v@.subrange(
            from as int,
            k + 1,
        ));
        k = k + 1;
    }
    r
}

/// Splits an LRC line after its first `]` into `(timestamp, text)`.
pub fn split_lrc_line(line: &[char]) -> (r: Option<(Vec<char>, Vec<char>)>)
    ensures
        match r {
            Some((stamp, text)) => split_lrc(line@) == Some((stamp@, text@)),
            None => split_lrc(line@) is None,
        },
{
    match find_char(line, ']') {
        Some(end_index) => {
            let stamp = slice_chars(line, 0, end_index + 1);
            let text = slice_chars(line, end_index + 1, line.len());
            assert(stamp@ =~= line@.take(end_index + 1));
            assert(text@ =~= line@.skip(end_index + 1));
            Some((stamp, text))
        },
        None => None,
    }
}

/// The `(timestamp, text)` pairs of the LRC lines among `ls`.
fn collect_pairs(ls: &Vec<Vec<char>>) -> (r: Vec<(Vec<char>, Vec<char>)>)
    ensures
        pairs_view(r@) == lrc_pairs(lines_view(ls@)),
{
    let ghost all = lines_view(ls@);
    let mut out: Vec<(Vec<char>, Vec<char>)> = Vec::new();
    let mut i: usize = 0;
    assert(all.skip(0) =~= all);
    assert(pairs_view(out@) =~= Seq::<(Seq<char>, Seq<char>)>::empty());
    while i < ls.len()
        invariant
            i <= ls.len(),
            all == lines_view(ls@),
            lrc_pairs(all) == pairs_view(out@) + lrc_pairs(all.skip(i as int)),
        decreases ls.len() - i,
    {
        let ghost before = pairs_view(out@);
        assert(all.skip(i as int).drop_first() =~= all.skip(i + 1));
        assert(all.skip(i as int)[0] == ls@[i as int]@);
        match split_lrc_line(&ls[i]) {
            Some(p) => {
                let ghost pv = (p.0@, p.1@);
                out.push(p);
                assert(pairs_view(out@) =~= before.push(pv));
                assert(before + (seq![pv] + lrc_pairs(all.skip(i + 1))) =~= before.push(pv)
                    + lrc_pairs(all.skip(i + 1)));
            },
            None => {
                assert(Seq::<(Seq<char>, Seq<char>)>::empty() + lrc_pairs(all.skip(i + 1))
                    =~= lrc_pairs(all.skip(i + 1)));
            },
        }
        i = i + 1;
    }
    assert(all.skip(ls.len() as int) =~= Seq::<Seq<char>>::empty());
    assert(pairs_view(out@) + Seq::<(Seq<char>, Seq<char>)>::empty() =~= pairs_view(out@));
    out
}

/// The text of the last pair stamped `stamp`.
fn find_translation(pairs: &Vec<(Vec<char>, Vec<char>)>, stamp: &[char]) -> (r: Option<
    Vec<char>,
>)
    ensures
        match r {
            Some(t) => last_text(pairs_view(pairs@), stamp@) == Some(t@),
            None => last_text(pairs_view(pairs@), stamp@) is None,
        },
{
    let ghost all = pairs_view(pairs@);
    let mut i: usize = pairs.len();
    assert(all.take(all.len() as int) =~= all);
    while i > 0
        invariant
            i <= pairs.len(),
            all == pairs_view(pairs@),
            last_text(all, stamp@) == last_text(all.take(i as int), stamp@),
        decreases i,
    {
        let ghost pre = all.take(i as int);
        assert(pre.drop_last() =~= all.take(i - 1));
        assert(pre.last() == (pairs@[i - 1].0@, pairs@[i - 1].1@));
        if crate::text::chars_eq(&pairs[i - 1].0, stamp) {
            let t = slice_chars(&pairs[i - 1].1, 0, pairs[i - 1].1.len());
            assert(t@ =~= pairs@[i - 1].1@);
            return Some(t);
        }
        i = i - 1;
    }
    None
}

/// Whether `v` holds only whitespace (is empty after trimming).
fn is_blank(v: &[char]) -> (r: bool)
    ensures
        r == (trim(v@).len() == 0),
{
    let t = trim_chars(v);
    t.len() == 0
}

/// Merges an original LRC lyric with its translation: each translated line follows
/// the original line with the same timestamp (when it has visible text); when only
/// one part has visible text it is returned as it is, and when neither has, `None`.
pub fn merge_lyric_content(original: Option<String>, translated: Option<String>) -> (r: Option<
    String,
>)
    ensures
        match r {
            Some(m) => merged_lyric(or_empty(original), or_empty(translated)) == Some(m@),
            None => merged_lyric(or_empty(original), or_empty(translated)) is None,
        },
{
    let original: Vec<char> = match &original {
        Some(s) => chars_of(s.as_str()),
        None => Vec::new(),
    };
    let translated: Vec<char> = match &translated {
        Some(s) => chars_of(s.as_str()),
        None => Vec::new(),
    };
    let original_blank = is_blank(&original);
    let translated_blank = is_blank(&translated);
    if original_blank && translated_blank {
        return None;
    }
    if translated_blank {
        return Some(string_of(&original));
    }
    if original_blank {
        return Some(string_of(&translated));
    }
    let translated_lines = split_lines(&translated);
    let pairs = collect_pairs(&translated_lines);
    let original_lines = split_lines(&original);
    let ghost ol = lines_view(original_lines@);
    let ghost pv = pairs_view(pairs@);
    let mut merged: Vec<Vec<char>> = Vec::new();
    let mut i: usize = 0;
    assert(ol.skip(0) =~= ol);
    assert(lines_view(merged@) =~= Seq::<Seq<char>>::empty());
    while i < original_lines.len()
        invariant
            i <= original_lines.len(),
            ol == lines_view(original_lines@),
            pv == pairs_view(pairs@),
            merge_lines(ol, pv) == lines_view(merged@) + merge_lines(ol.skip(i as int), pv),
        decreases original_lines.len() - i,
    {
        let ghost before = lines_view(merged@);
        assert(ol.skip(i as int).drop_first() =~= ol.skip(i + 1));
        assert(ol.skip(i as int)[0] == original_lines@[i as int]@);
        let line = &original_lines[i];
        match split_lrc_line(line) {
            Some((stamp, text)) => {
                let mut first = slice_chars(&stamp, 0, stamp.len());
                push_all(&mut first, &text);
                assert(stamp@.subrange(0, stamp@.len() as int) =~= stamp@);
                merged.push(first);
                match find_translation(&pairs, &stamp) {
                    Some(tr) => {
                        if !is_blank(&tr) {
                            let mut second = slice_chars(&stamp, 0, stamp.len());
                            push_all(&mut second, &tr);
                            merged.push(second);
                            assert(lines_view(merged@) =~= before + merge_line(line@, pv));
                        } else {
                            assert(lines_view(merged@) =~= before + merge_line(line@, pv));
                        }
                    },
                    None => {
                        assert(lines_view(merged@) =~= before + merge_line(line@, pv));
                    },
                }
            },
            None => {
                let copy = slice_chars(line, 0, line.len());
                assert(copy@ =~= line@);
                merged.push(copy);
                assert(lines_view(merged@) =~= before + merge_line(line@, pv));
            },
        }
        assert(before + (merge_line(line@, pv) + merge_lines(ol.skip(i + 1), pv)) =~= (before
            + merge_line(line@, pv)) + merge_lines(ol.skip(i + 1), pv));
        i = i + 1;
    }
    assert(ol.skip(original_lines.len() as int) =~= Seq::<Seq<char>>::empty());
    assert(lines_view(merged@) + Seq::<Seq<char>>::empty() =~= lines_view(merged@));
    let joined = join_chars(&merged, &['\n']);
    assert(seq!['\n'] =~= [ '\n' ]@);
    Some(string_of(&joined))
}

/// Skips leading byte-order marks (`U+FEFF`).
pub open spec fn skip_bom(s: Seq<char>) -> Seq<char>
    decreases s.len(),
{
    if s.len() > 0 && s[0] == '\u{feff}' {
        skip_bom(s.drop_first())
    } else {
        s
    }
}

/// Skips leading whitespace.
pub open spec fn skip_ws(s: Seq<char>) -> Seq<char>
    decreases s.len(),
{
    if s.len() > 0 && crate::text::is_ws(s[0]) {
        skip_ws(s.drop_first())
    } else {
        s
    }
}

/// Sidecar extension for lyric text: `vtt` when the text starts with a `WEBVTT`
/// header (after any byte-order marks and whitespace), `lrc` otherwise.
pub fn lyric_sidecar_extension(text: &str) -> (r: &'static str)
    ensures
        r@ == (if crate::text::has_prefix(skip_ws(skip_bom(text@)), "WEBVTT"@) {
            "vtt"@
        } else {
            "lrc"@
        }),
{
    let v = chars_of(text);
    let mut i: usize = 0;
    assert(v@.skip(0) =~= v@);
    while i < v.len() && v[i] == '\u{feff}'
        invariant
            i <= v.len(),
            skip_bom(v@) == skip_bom(v@.skip(i as int)),
        decreases v.len() - i,
    {
        assert(v@.skip(i as int).drop_first() =~= v@.skip(i + 1));
        i = i + 1;
    }
    let ghost after_bom = v@.skip(i as int);
    assert(skip_bom(after_bom) == after_bom);
    let mut j: usize = i;
    assert(after_bom.skip(0) =~= after_bom);
    while j < v.len() && is_whitespace(v[j])
        invariant
            i <= j <= v.len(),
            after_bom == v@.skip(i as int),
            skip_ws(after_bom) == skip_ws(v@.skip(j as int)),
        decreases v.len() - j,
    {
        assert(v@.skip(j as int).drop_first() =~= v@.skip(j + 1));
        j = j + 1;
    }
    let rest = slice_chars(&v, j, v.len());
    assert(rest@ =~= v@.skip(j as int));
    let header = chars_of("WEBVTT");
    if chars_start_with(&rest, &header) {
        "vtt"
    } else {
        "lrc"
    }
}

/// Merging never loses a lyric: the result is absent only when both the lyric
/// and its translation are blank; a blank translation leaves the lyric exactly
/// as it was, and a blank lyric gives the translation as it was.
pub proof fn law_merge_keeps_lyrics(original: Seq<char>, translated: Seq<char>)
    ensures
        merged_lyric(original, translated) is None <==> (trim(original).len() == 0 && trim(translated).len() == 0),
        trim(original).len() > 0 ==> merged_lyric(original, translated) is Some,
        trim(original).len() > 0 && trim(translated).len() == 0 ==> merged_lyric(original, translated) == Some(
            original,
        ),
        trim(original).len() == 0 && trim(translated).len() > 0 ==> merged_lyric(original, translated) == Some(
            translated,
        ),
{
}

/// With no translated line to add, merging gives back the original lines
/// unchanged.
pub proof fn law_merge_without_translations_keeps_lines(ls: Seq<Seq<char>>)
    ensures
        merge_lines(ls, Seq::empty()) == ls,
    decreases ls.len(),
{
    if ls.len() > 0 {
        law_merge_without_translations_keeps_lines(ls.drop_first());
        let line = ls[0];
        if split_lrc(line) is Some {
            let k = index_of(line, ']');
            lemma_index_of(line, ']');
            assert(line.take(k + 1) + line.skip(k + 1) =~= line);
        }
        assert(merge_line(ls[0], Seq::empty()) + ls.drop_first() =~= ls);
    }
}

/// Merging drops no line: each original line yields itself, possibly followed
/// by its translation, so there are at least as many merged lines as original
/// ones and at most twice as many.
pub proof fn law_merge_keeps_every_line(ls: Seq<Seq<char>>, pairs: Seq<(Seq<char>, Seq<char>)>)
    ensures
        ls.len() <= merge_lines(ls, pairs).len() <= 2 * ls.len(),
    decreases ls.len(),
{
    if ls.len() > 0 {
        law_merge_keeps_every_line(ls.drop_first(), pairs);
    }
}

} // verus!
