//! File names: sanitizing user-supplied names, deriving download stems, and the
//! `Content-Disposition` value for downloads.
use vstd::prelude::*;
use crate::paths::{extension, extension_of_path, file_stem, file_stem_chars, is_single_normal, is_single_normal_component};
use crate::text::{
    chars_contain, chars_of, is_ws, push_all, push_signed_decimal, push_str, signed_decimal,
    string_of, to_lowercase, trim, trim_chars, trim_matches, trim_matches_chars, unicode_lowercase,
    lemma_trims_keep_chars, lemma_trim_matches_ends,
};

verus! {

/// Characters that are not allowed in file names on common platforms.
pub open spec fn is_reserved_char(c: char) -> bool {
    c == '<' || c == '>' || c == ':' || c == '"' || c == '/' || c == '\\' || c == '|' || c == '?'
        || c == '*'
}

/// Unicode control characters (general category `Cc`, `char::is_control`).
pub open spec fn is_control_char(c: char) -> bool {
    (c as u32) <= 0x1F || (0x7F <= (c as u32) && (c as u32) <= 0x9F)
}

/// A reserved or control character replaced by `_`.
pub open spec fn sanitize_char(c: char) -> char {
    if is_reserved_char(c) || is_control_char(c) {
        '_'
    } else {
        c
    }
}

/// The sanitized file name: reserved and control characters become `_`, then
/// surrounding whitespace and surrounding dots are removed; an empty result becomes
/// `download`.
pub open spec fn sanitized(name: Seq<char>) -> Seq<char> {
    let t = trim_matches(trim(name.map_values(|c: char| sanitize_char(c))), '.');
    if t.len() == 0 {
        "download"@
    } else {
        t
    }
}

/// A character is acceptable in a sanitized name.
pub open spec fn safe_name_char(c: char) -> bool {
    !is_reserved_char(c) && !is_control_char(c)
}

fn is_reserved_or_control(c: char) -> (r: bool)
    ensures
        r == (is_reserved_char(c) || is_control_char(c)),
{
    let u = c as u32;
    c == '<' || c == '>' || c == ':' || c == '"' || c == '/' || c == '\\' || c == '|' || c == '?'
        || c == '*' || u <= 0x1F || (0x7F <= u && u <= 0x9F)
}

/// A sanitized name is never empty, holds no reserved or control character,
/// and neither starts nor ends with `.`; it is `download` exactly when nothing
/// else is left of the name once reserved and control characters became `_`
/// and surrounding whitespace and dots were trimmed.
pub proof fn law_sanitized_name_is_safe(name: Seq<char>)
    ensures
        sanitized(name).len() > 0,
        forall|i: int| 0 <= i < sanitized(name).len() ==> safe_name_char(#[trigger] sanitized(name)[i]),
        sanitized(name)[0] != '.' && sanitized(name).last() != '.',
        trim_matches(trim(name.map_values(|c: char| sanitize_char(c))), '.').len() == 0 ==> sanitized(name)
            == "download"@,
{
    let mapped_spec = name.map_values(|c: char| sanitize_char(c));
    let t = trim_matches(trim(mapped_spec), '.');
    lemma_trim_matches_ends(trim(mapped_spec), '.');
    lemma_trims_keep_chars(mapped_spec, '.');
    lemma_trims_keep_chars(trim(mapped_spec), '.');
    assert forall|j: int| 0 <= j < mapped_spec.len() implies safe_name_char(#[trigger] mapped_spec[j]) by {}
    assert forall|j: int| 0 <= j < t.len() implies safe_name_char(#[trigger] t[j]) by {
        let c = t[j];
        assert(trim(mapped_spec).contains(c));
        let k = choose|k: int| 0 <= k < trim(mapped_spec).len() && trim(mapped_spec)[k] == c;
        assert(mapped_spec.contains(trim(mapped_spec)[k]));
    }
    reveal_strlit("download");
}

/// Replaces reserved and control characters with `_`, trims surrounding whitespace
/// and dots, and falls back to `download` when nothing is left.
pub fn sanitize_filename(name: &str) -> (r: String)
    ensures
        r@ == sanitized(name@),
        r@.len() > 0,
        forall|i: int| 0 <= i < r@.len() ==> safe_name_char(#[trigger] r@[i]),
        r@[0] != '.' && r@.last() != '.',
{
    let chars = chars_of(name);
    let ghost mapped_spec = name@.map_values(|c: char| sanitize_char(c));
    let mut mapped: Vec<char> = Vec::new();
    let mut i: usize = 0;
    while i < chars.len()
        invariant
            i <= chars.len(),
            chars@ == name@,
            mapped_spec == name@.map_values(|c: char| sanitize_char(c)),
            mapped@ == mapped_spec.take(i as int),
        decreases chars.len() - i,
    {
        let c = chars[i];
        if is_reserved_or_control(c) {
            mapped.push('_');
        } else {
            mapped.push(c);
        }
        assert(mapped@ =~= mapped_spec.take(i + 1));
        i = i + 1;
    }
    assert(mapped_spec.take(chars.len() as int) =~= mapped_spec);
    let trimmed = trim_chars(&mapped);
    let t = trim_matches_chars(&trimmed, '.');
    proof {
        law_sanitized_name_is_safe(name@);
    }
    if t.len() == 0 {
        let d = "download".to_owned();
        proof {
            reveal_strlit("download");
        }
        d
    } else {
        string_of(&t)
    }
}

/// An optional string slice as its characters.
pub open spec fn opt_view(o: Option<&str>) -> Option<Seq<char>> {
    match o {
        Some(s) => Some(s@),
        None => None,
    }
}

/// The stem a download is saved under: a requested name must be non-blank and a
/// single path component, and its stem (without extension) must be non-blank;
/// without a requested name the title is used. Either way the result is sanitized.
pub open spec fn download_stem(requested: Option<Seq<char>>, fallback: Seq<char>) -> Result<
    Seq<char>,
    Seq<char>,
> {
    match requested {
        Some(name) => {
            let t = trim(name);
            if t.len() == 0 {
                Err("文件名不能为空"@)
            } else if !is_single_normal(t) {
                Err("文件名不能包含路径"@)
            } else {
                match file_stem(t) {
                    Some(st) => if trim(st).len() > 0 {
                        Ok(sanitized(trim(st)))
                    } else {
                        Err("文件名不能为空"@)
                    },
                    None => Err("文件名不能为空"@),
                }
            }
        },
        None => Ok(sanitized(fallback)),
    }
}

/// Resolves the file stem for a download from the requested name or the title.
pub fn resolve_download_file_stem(requested_name: Option<&str>, fallback_title: &str) -> (r:
    Result<String, String>)
    ensures
        match r {
            Ok(s) => download_stem(opt_view(requested_name), fallback_title@) == Ok::<
                Seq<char>,
                Seq<char>,
            >(s@),
            Err(e) => download_stem(opt_view(requested_name), fallback_title@) == Err::<
                Seq<char>,
                Seq<char>,
            >(e@),
        },
{
    match requested_name {
        Some(name) => {
            let chars = chars_of(name);
            let trimmed = trim_chars(&chars);
            if trimmed.len() == 0 {
                return Err("文件名不能为空".to_owned());
            }
            if !is_single_normal_component(&trimmed) {
                return Err("文件名不能包含路径".to_owned());
            }
            match file_stem_chars(&trimmed) {
                Some(stem) => {
                    let stem_trimmed = trim_chars(&stem);
                    if stem_trimmed.len() == 0 {
                        return Err("文件名不能为空".to_owned());
                    }
                    let s = string_of(&stem_trimmed);
                    Ok(sanitize_filename(s.as_str()))
                },
                None => Err("文件名不能为空".to_owned()),
            }
        },
        None => Ok(sanitize_filename(fallback_title)),
    }
}

/// `remote-{music_id}`.
pub open spec fn remote_label(music_id: i32) -> Seq<char> {
    "remote-"@ + signed_decimal(music_id as int)
}

fn build_remote_label(music_id: i32) -> (r: String)
    ensures
        r@ == remote_label(music_id),
{
    let mut out: Vec<char> = Vec::new();
    push_str(&mut out, "remote-");
    push_signed_decimal(&mut out, music_id as i64);
    string_of(&out)
}

/// The trimmed name when it is not blank.
pub open spec fn supplied_name(filename: Option<Seq<char>>) -> Option<Seq<char>> {
    match filename {
        Some(n) => if trim(n).len() > 0 {
            Some(trim(n))
        } else {
            None
        },
        None => None,
    }
}

/// The local stem for an imported item: the sanitized supplied stem, or
/// `remote-{id}` when the supplied stem is blank.
pub open spec fn import_stem(raw_stem: Seq<char>, music_id: i32) -> Seq<char> {
    if trim(raw_stem).len() == 0 || sanitized(raw_stem).len() == 0 {
        remote_label(music_id)
    } else {
        sanitized(raw_stem)
    }
}

/// `(stem, extension)` for an imported file: names with path separators are
/// rejected; the extension is the lowercased one of the supplied name (possibly empty).
pub open spec fn filename_parts(filename: Option<Seq<char>>, music_id: i32) -> Result<
    (Seq<char>, Seq<char>),
    Seq<char>,
> {
    match supplied_name(filename) {
        Some(name) => if name.contains('/') || name.contains('\\') {
            Err("文件名不能包含路径分隔符"@)
        } else {
            let raw_stem = match file_stem(name) {
                Some(s) => s,
                None => Seq::empty(),
            };
            let ext = match extension(name) {
                Some(e) => unicode_lowercase(e),
                None => Seq::empty(),
            };
            Ok((import_stem(raw_stem, music_id), ext))
        },
        None => Ok((remote_label(music_id), Seq::empty())),
    }
}

fn import_stem_of(raw_stem: &[char], music_id: i32) -> (r: String)
    ensures
        r@ == import_stem(raw_stem@, music_id),
{
    let t = trim_chars(raw_stem);
    if t.len() == 0 {
        return build_remote_label(music_id);
    }
    let raw = string_of(raw_stem);
    let s = sanitize_filename(raw.as_str());
    if s.as_str().is_empty() {
        build_remote_label(music_id)
    } else {
        s
    }
}

/// Derives `(stem, extension)` for the local copy of an imported file.
pub fn parse_filename_parts(filename: Option<&str>, music_id: i32) -> (r: Result<
    (String, String),
    String,
>)
    ensures
        match r {
            Ok((stem, ext)) => filename_parts(opt_view(filename), music_id) == Ok::<
                (Seq<char>, Seq<char>),
                Seq<char>,
            >((stem@, ext@)),
            Err(e) => filename_parts(opt_view(filename), music_id) == Err::<
                (Seq<char>, Seq<char>),
                Seq<char>,
            >(e@),
        },
{
    let name: Option<Vec<char>> = match filename {
        Some(f) => {
            let t = trim_chars(&chars_of(f));
            if t.len() > 0 {
                Some(t)
            } else {
                None
            }
        },
        None => None,
    };
    match name {
        Some(name) => {
            if chars_contain(&name, '/') || chars_contain(&name, '\\') {
                return Err("文件名不能包含路径分隔符".to_owned());
            }
            let stem = match file_stem_chars(&name) {
                Some(s) => import_stem_of(&s, music_id),
                None => {
                    let empty: Vec<char> = Vec::new();
                    import_stem_of(&empty, music_id)
                },
            };
            let ext = match extension_of_path(&name) {
                Some(e) => {
                    let es = string_of(&e);
                    to_lowercase(es.as_str())
                },
                None => String::new(),
            };
            Ok((stem, ext))
        },
        None => {
            let stem = build_remote_label(music_id);
            Ok((stem, String::new()))
        },
    }
}

/// An item of a remote-library import request.
pub struct ImportRemoteItem {
    pub music_id: i32,
    pub filename: Option<String>,
}

/// The item's supplied file name, if any, as characters.
pub open spec fn item_name(item: ImportRemoteItem) -> Option<Seq<char>> {
    match item.filename {
        Some(f) => Some(f@),
        None => None,
    }
}

/// The first item whose trimmed name holds a path separator, if any.
pub open spec fn first_bad_item(items: Seq<ImportRemoteItem>) -> Option<int>
    decreases items.len(),
{
    if items.len() == 0 {
        None
    } else {
        let bad = match item_name(items[0]) {
            Some(n) => trim(n).contains('/') || trim(n).contains('\\'),
            None => false,
        };
        if bad {
            Some(0)
        } else {
            match first_bad_item(items.drop_first()) {
                Some(k) => Some(k + 1),
                None => None,
            }
        }
    }
}

/// Rejects the request when some item's file name holds a path separator; the
/// error names the first such item.
pub fn validate_import_item_filenames(items: &[ImportRemoteItem]) -> (r: Result<(), String>)
    ensures
        match r {
            Ok(()) => first_bad_item(items@) is None,
            Err(e) => (first_bad_item(items@) matches Some(k) && e@ == trim(
                item_name(items@[k]).unwrap(),
            ) + ": 文件名不能包含路径分隔符"@),
        },
{
    let mut i: usize = 0;
    assert(items@.skip(0) =~= items@);
    while i < items.len()
        invariant
            i <= items.len(),
            first_bad_item(items@) == match first_bad_item(items@.skip(i as int)) {
                Some(k) => Some(k + i),
                None => None,
            },
        decreases items.len() - i,
    {
        assert(items@.skip(i as int).drop_first() =~= items@.skip(i + 1));
        assert(items@.skip(i as int)[0] == items@[i as int]);
        match &items[i].filename {
            Some(f) => {
                let name = trim_chars(&chars_of(f.as_str()));
                if chars_contain(&name, '/') || chars_contain(&name, '\\') {
                    let mut msg = name;
                    push_str(&mut msg, ": 文件名不能包含路径分隔符");
                    return Err(string_of(&msg));
                }
            },
            None => {},
        }
        i = i + 1;
    }
    Ok(())
}

/// The label for an item: its trimmed file name, or `remote-{id}` when blank.
pub open spec fn item_label(item: ImportRemoteItem) -> Seq<char> {
    match supplied_name(item_name(item)) {
        Some(n) => n,
        None => remote_label(item.music_id),
    }
}

/// Human-readable label for an item, used in progress messages and warnings.
pub fn display_label(item: &ImportRemoteItem) -> (r: String)
    ensures
        r@ == item_label(*item),
{
    match &item.filename {
        Some(f) => {
            let t = trim_chars(&chars_of(f.as_str()));
            if t.len() > 0 {
                return string_of(&t);
            }
            build_remote_label(item.music_id)
        },
        None => build_remote_label(item.music_id),
    }
}

/// Unreserved URI bytes (RFC 3986): ASCII letters, digits and `-._~`.
pub open spec fn is_unreserved(b: u8) -> bool {
    (0x30 <= b <= 0x39) || (0x41 <= b <= 0x5A) || (0x61 <= b <= 0x7A) || b == 0x2D || b == 0x2E
        || b == 0x5F || b == 0x7E
}

/// Whether `byte` is an unreserved URI byte.
pub fn is_unreserved_byte(byte: u8) -> (r: bool)
    ensures
        r == is_unreserved(byte),
{
    (0x30 <= byte && byte <= 0x39) || (0x41 <= byte && byte <= 0x5A) || (0x61 <= byte && byte
        <= 0x7A) || byte == 0x2D || byte == 0x2E || byte == 0x5F || byte == 0x7E
}

/// The uppercase hex digit of a nibble; values above 15 give `F`.
pub open spec fn hex_char(n: u8) -> char {
    if n < 10 {
        ((n + 48) as u32) as char
    } else if n < 16 {
        ((n + 55) as u32) as char
    } else {
        'F'
    }
}

/// Maps a nibble (0..=15) to an uppercase hex digit.
pub fn hex_digit(nibble: u8) -> (c: char)
    ensures
        c == hex_char(nibble),
{
    if nibble < 10 {
        crate::text::digit(nibble)
    } else if nibble == 10 {
        'A'
    } else if nibble == 11 {
        'B'
    } else if nibble == 12 {
        'C'
    } else if nibble == 13 {
        'D'
    } else if nibble == 14 {
        'E'
    } else {
        'F'
    }
}

/// One byte percent-encoded: unreserved bytes as themselves, others as `%HH`.
pub open spec fn encode_byte(b: u8) -> Seq<char> {
    if is_unreserved(b) {
        seq![(b as u32) as char]
    } else {
        seq!['%', hex_char(b / 16), hex_char(b % 16)]
    }
}

/// The bytes percent-encoded one by one (RFC 5987 value characters).
pub open spec fn percent_encoded(bs: Seq<u8>) -> Seq<char>
    decreases bs.len(),
{
    if bs.len() == 0 {
        Seq::empty()
    } else {
        encode_byte(bs[0]) + percent_encoded(bs.drop_first())
    }
}

/// Percent-encodes the UTF-8 bytes of a file name for the `filename*=` token.
pub fn percent_encode_filename(name: &str) -> (r: String)
    ensures
        r@ == percent_encoded(vstd::utf8::encode_utf8(name@)),
{
    let bytes = name.as_bytes();
    let ghost bs = bytes@;
    let mut out: Vec<char> = Vec::new();
    let mut i: usize = 0;
    assert(bs.skip(0) =~= bs);
    while i < bytes.len()
        invariant
            i <= bytes.len(),
            bs == bytes@,
            percent_encoded(bs) == out@ + percent_encoded(bs.skip(i as int)),
        decreases bytes.len() - i,
    {
        let ghost before = out@;
        assert(bs.skip(i as int).drop_first() =~= bs.skip(i + 1));
        assert(bs.skip(i as int)[0] == bs[i as int]);
        let byte = bytes[i];
        if is_unreserved_byte(byte) {
            out.push(byte as char);
        } else {
            out.push('%');
            out.push(hex_digit(byte / 16));
            out.push(hex_digit(byte % 16));
        }
        assert(out@ =~= before + encode_byte(byte));
        assert(before + (encode_byte(byte) + percent_encoded(bs.skip(i + 1))) =~= (before
            + encode_byte(byte)) + percent_encoded(bs.skip(i + 1)));
        i = i + 1;
    }
    assert(bs.skip(bytes.len() as int) =~= Seq::<u8>::empty());
    assert(out@ + Seq::<char>::empty() =~= out@);
    string_of(&out)
}

/// The value of an uppercase hex digit.
pub open spec fn hex_value(c: char) -> Option<u8> {
    if '0' <= c && c <= '9' {
        Some(((c as u32) - 48) as u8)
    } else if 'A' <= c && c <= 'F' {
        Some(((c as u32) - 55) as u8)
    } else {
        None
    }
}

/// Percent-decoding: `%HH` gives the byte `HH`; any other character gives its
/// low byte.
pub open spec fn percent_decoded(cs: Seq<char>) -> Seq<u8>
    decreases cs.len(),
{
    if cs.len() == 0 {
        Seq::empty()
    } else if cs.len() >= 3 && cs[0] == '%' && hex_value(cs[1]) is Some && hex_value(cs[2]) is Some {
        seq![(hex_value(cs[1]).unwrap() * 16 + hex_value(cs[2]).unwrap()) as u8] + percent_decoded(
            cs.skip(3),
        )
    } else {
        seq![(cs[0] as u32) as u8] + percent_decoded(cs.drop_first())
    }
}

proof fn lemma_decode_encode_byte(b: u8, rest: Seq<char>)
    ensures
        percent_decoded(encode_byte(b) + rest) == seq![b] + percent_decoded(rest),
{
    let e = encode_byte(b) + rest;
    if is_unreserved(b) {
        assert(e[0] == (b as u32) as char);
        assert(e.drop_first() =~= rest);
        assert(((b as u32) as char) as u32 == b as u32);
    } else {
        let hi = b / 16;
        let lo = b % 16;
        assert(hex_value(hex_char(hi)) == Some(hi));
        assert(hex_value(hex_char(lo)) == Some(lo));
        assert(e.skip(3) =~= rest);
        assert(hi * 16 + lo == b);
    }
}

/// Percent-decoding the encoded bytes gives the bytes back.
pub proof fn law_percent_encoding_round_trips(bs: Seq<u8>)
    ensures
        percent_decoded(percent_encoded(bs)) == bs,
    decreases bs.len(),
{
    if bs.len() > 0 {
        lemma_decode_encode_byte(bs[0], percent_encoded(bs.drop_first()));
        law_percent_encoding_round_trips(bs.drop_first());
        assert(seq![bs[0]] + bs.drop_first() =~= bs);
    }
}

/// A character allowed in the legacy quoted token: printable ASCII.
pub open spec fn ascii_token_char(c: char) -> char {
    if (c as u32) < 0x80 && !((c as u32) < 0x20 || (c as u32) == 0x7F) {
        c
    } else {
        '_'
    }
}

/// The ASCII fallback name: the sanitized name with every non-printable-ASCII
/// character replaced by `_`, or `download` when only underscores remain.
pub open spec fn ascii_name(filename: Seq<char>) -> Seq<char> {
    let out = sanitized(filename).map_values(|c: char| ascii_token_char(c));
    if trim_matches(out, '_').len() == 0 {
        "download"@
    } else {
        out
    }
}

/// ASCII-only fallback for the legacy `filename="..."` token.
pub fn ascii_filename(filename: &str) -> (r: String)
    ensures
        r@ == ascii_name(filename@),
{
    let sanitized_name = sanitize_filename(filename);
    let chars = chars_of(sanitized_name.as_str());
    let ghost target = sanitized(filename@).map_values(|c: char| ascii_token_char(c));
    let mut out: Vec<char> = Vec::new();
    let mut i: usize = 0;
    while i < chars.len()
        invariant
            i <= chars.len(),
            chars@ == sanitized(filename@),
            target == sanitized(filename@).map_values(|c: char| ascii_token_char(c)),
            out@ == target.take(i as int),
        decreases chars.len() - i,
    {
        let ch = chars[i];
        let u = ch as u32;
        if u < 0x80 && !(u < 0x20 || u == 0x7F) {
            out.push(ch);
        } else {
            out.push('_');
        }
        assert(out@ =~= target.take(i + 1));
        i = i + 1;
    }
    assert(target.take(chars.len() as int) =~= target);
    let inner = trim_matches_chars(&out, '_');
    if inner.len() == 0 {
        let d = "download".to_owned();
        d
    } else {
        string_of(&out)
    }
}

/// The `Content-Disposition` value for a download of `filename`.
pub open spec fn disposition_value(filename: Seq<char>, encoded: Seq<char>) -> Seq<char> {
    "attachment; filename=\""@ + ascii_name(filename) + "\"; filename*=UTF-8''"@ + encoded
}

/// Builds `attachment; filename="..."; filename*=UTF-8''...` when a download is
/// requested, and `None` for normal playback.
pub fn download_disposition(download: bool, filename: &str) -> (r: Option<String>)
    ensures
        !download ==> r is None,
        download ==> (r matches Some(v) && v@ == disposition_value(
            filename@,
            percent_encoded(vstd::utf8::encode_utf8(filename@)),
        )),
{
    if !download {
        return None;
    }
    let ascii = ascii_filename(filename);
    let encoded = percent_encode_filename(filename);
    let mut out: Vec<char> = Vec::new();
    push_str(&mut out, "attachment; filename=\"");
    push_str(&mut out, ascii.as_str());
    push_str(&mut out, "\"; filename*=UTF-8''");
    push_str(&mut out, encoded.as_str());
    Some(string_of(&out))
}

/// The `download` query value asks for a download: present and not `0`, `false`
/// or `no` (after trimming).
pub open spec fn download_requested(value: Option<Seq<char>>) -> bool {
    match value {
        Some(v) => {
            let t = trim(v);
            !(t == "0"@ || t == "false"@ || t == "no"@)
        },
        None => false,
    }
}

/// Interprets the `download` query value leniently.
pub fn is_download_requested(value: Option<&str>) -> (r: bool)
    ensures
        r == download_requested(opt_view(value)),
{
    match value {
        Some(v) => {
            let t = trim_chars(&chars_of(v));
            let zero = chars_of("0");
            let no_false = chars_of("false");
            let no = chars_of("no");
            !(crate::text::chars_eq(&t, &zero) || crate::text::chars_eq(&t, &no_false)
                || crate::text::chars_eq(&t, &no))
        },
        None => false,
    }
}

} // verus!
