//! Naming rules and the per-item decisions of the download-and-transcode
//! pipeline.
use vstd::prelude::*;
use crate::text::{
    contains_chars, joined, push_decimal, push_joined, seq_contains, string_views,
    ascii_lowercase, ascii_lowercase_chars, decimal, ends_with_chars, has_suffix,
    lemma_ascii_lowercase_concat, push_chars, push_decimal_padded, push_str_chars,
    strip_leading_dots, zero_padded, is_digit, lemma_decimal_digits, lemma_padded_decimal_value,
    lemma_zero_padded_digits,
    char_is_control, chars_of, collapse_whitespace, collapse_ws, dot_pred, ws_pred, is_control, is_ws,
    lemma_collapse_keeps, lemma_collapse_single_spaces, lemma_strip_end_keeps, lemma_strip_end_last, lemma_strip_start_first,
    lemma_strip_start_keeps, string_from_chars, strip_end, strip_start, trim, trim_chars, trim_dots,
};

verus! {

/// Characters that are not allowed in file names on common file systems.
pub open spec fn is_reserved(c: char) -> bool {
    c == '<' || c == '>' || c == ':' || c == '"' || c == '/' || c == '\\' || c == '|' || c == '?'
        || c == '*'
}

/// Reserved and control characters become `'_'`; all others are kept.
pub open spec fn filename_char(c: char) -> char {
    if is_reserved(c) || is_control(c) {
        '_'
    } else {
        c
    }
}

/// The file-name-safe form of `s`: reserved and control characters replaced
/// by `'_'`, whitespace runs collapsed to one space, surrounding dots and
/// whitespace removed, and `"download"` when nothing is left.
pub open spec fn sanitized_filename(s: Seq<char>) -> Seq<char> {
    let t = trim(
        strip_end(
            strip_start(
                collapse_ws(s.map_values(|c: char| filename_char(c)), ' '),
                dot_pred(),
            ),
            dot_pred(),
        ),
    );
    if t.len() == 0 {
        "download"@
    } else {
        t
    }
}

/// A character that may stand in a sanitized file name.
pub open spec fn is_filename_safe(c: char) -> bool {
    !is_reserved(c) && !is_control(c)
}

pub(crate) fn map_filename_chars(v: &Vec<char>) -> (r: Vec<char>)
    ensures
        r@ == v@.map_values(|c: char| filename_char(c)),
{
    let mut r: Vec<char> = Vec::new();
    let mut i: usize = 0;
    while i < v.len()
        invariant
            i <= v.len(),
            r@ == v@.take(i as int).map_values(|c: char| filename_char(c)),
        decreases v.len() - i,
    {
        let c = v[i];
        let m = if c == '<' || c == '>' || c == ':' || c == '"' || c == '/' || c == '\\' || c
            == '|' || c == '?' || c == '*' || char_is_control(c) {
            '_'
        } else {
            c
        };
        r.push(m);
        i = i + 1;
        assert(r@ =~= v@.take(i as int).map_values(|c: char| filename_char(c)));
    }
    assert(v@.take(v.len() as int) =~= v@);
    r
}

/// Turns arbitrary text into a safe file name stem.
pub fn sanitize_filename(input: &str) -> (r: String)
    ensures
        r@ == sanitized_filename(input@),
        r@.len() > 0,
        forall|i: int| 0 <= i < r@.len() ==> is_filename_safe(#[trigger] r@[i]),
        !is_ws(r@[0]),
        !is_ws(r@.last()),
{
    let chars = chars_of(input);
    let mapped = map_filename_chars(&chars);
    let collapsed = collapse_whitespace(&mapped, ' ');
    let undotted = trim_dots(&collapsed);
    let trimmed = trim_chars(&undotted);
    proof {
        let p = |c: char| is_filename_safe(c);
        let m = input@.map_values(|c: char| filename_char(c));
        assert forall|i: int| 0 <= i < m.len() implies p(#[trigger] m[i]) by {}
        lemma_collapse_keeps(m, ' ', p);
        let col = collapse_ws(m, ' ');
        lemma_strip_start_keeps(col, dot_pred(), p);
        let a = strip_start(col, dot_pred());
        lemma_strip_end_keeps(a, dot_pred(), p);
        let b = strip_end(a, dot_pred());
        lemma_strip_start_keeps(b, ws_pred(), p);
        let d = strip_start(b, ws_pred());
        lemma_strip_end_keeps(d, ws_pred(), p);
        lemma_strip_end_last(d, ws_pred());
        lemma_strip_start_first(b, ws_pred());
        let t = strip_end(d, ws_pred());
        if t.len() > 0 {
            assert(t[0] == d[0]);
        }
        reveal_strlit("download");
    }
    if trimmed.len() == 0 {
        String::from_str("download")
    } else {
        string_from_chars(&trimmed)
    }
}


/// A name `sanitize_filename` has nothing to change in: not empty, only
/// characters allowed in file names, whitespace only as single spaces
/// between words, and no dot or whitespace at either end.
pub open spec fn is_clean_name(s: Seq<char>) -> bool {
    &&& s.len() > 0
    &&& forall|i: int| 0 <= i < s.len() ==> is_filename_safe(#[trigger] s[i])
    &&& forall|i: int| 0 <= i < s.len() && is_ws(#[trigger] s[i]) ==> s[i] == ' '
    &&& forall|i: int| 0 <= i < s.len() - 1 ==> !(is_ws(#[trigger] s[i]) && is_ws(s[i + 1]))
    &&& !is_ws(s[0]) && !is_ws(s.last())
    &&& s[0] != '.' && s.last() != '.'
}

/// An already clean name comes out of `sanitize_filename` unchanged.
pub proof fn law_clean_name_is_kept(s: Seq<char>)
    requires
        is_clean_name(s),
    ensures
        sanitized_filename(s) == s,
{
    let m = s.map_values(|c: char| filename_char(c));
    assert(m =~= s);
    lemma_collapse_single_spaces(s);
    assert(collapse_ws(m, ' ') == s);
    assert(strip_start(s, dot_pred()) == s);
    assert(strip_end(s, dot_pred()) == s);
    assert(strip_start(s, ws_pred()) == s);
    assert(strip_end(s, ws_pred()) == s);
}

/// The stem a download is stored under: the trimmed name the caller gave,
/// else the trimmed suggested title, else the fallback id; sanitized; and,
/// when the source yields several items, suffixed with `_` and the item's
/// 1-based number in at least two digits.
pub open spec fn output_stem(
    provided_name: Seq<char>,
    suggested_title: Option<Seq<char>>,
    fallback_id: Seq<char>,
    index: nat,
    total: nat,
) -> Seq<char> {
    let candidate = if trim(provided_name).len() > 0 {
        trim(provided_name)
    } else {
        match suggested_title {
            Some(title) => trim(title),
            None => fallback_id,
        }
    };
    let base = sanitized_filename(candidate);
    if total > 1 {
        base + seq!['_'] + zero_padded(decimal(index + 1), 2)
    } else {
        base
    }
}

pub open spec fn opt_view(o: Option<&str>) -> Option<Seq<char>> {
    match o {
        Some(s) => Some(s@),
        None => None,
    }
}

fn trimmed_string(s: &str) -> (r: String)
    ensures
        r@ == trim(s@),
{
    let v = chars_of(s);
    let t = trim_chars(&v);
    string_from_chars(&t)
}

/// Chooses and sanitizes the stem of an exported file.
pub fn build_output_stem(
    provided_name: &str,
    suggested_title: Option<&str>,
    fallback_id: &str,
    index: usize,
    total: usize,
) -> (r: String)
    requires
        total > 1 ==> index < u64::MAX,
    ensures
        r@ == output_stem(
            provided_name@,
            opt_view(suggested_title),
            fallback_id@,
            index as nat,
            total as nat,
        ),
        r@.len() > 0,
{
    let provided = trimmed_string(provided_name);
    let base = if !provided.as_str().is_empty() {
        sanitize_filename(provided.as_str())
    } else {
        match suggested_title {
            Some(title) => {
                let t = trimmed_string(title);
                sanitize_filename(t.as_str())
            },
            None => sanitize_filename(fallback_id),
        }
    };
    if total > 1 {
        let mut out = chars_of(base.as_str());
        out.push('_');
        push_decimal_padded(&mut out, index as u64 + 1, 2);
        string_from_chars(&out)
    } else {
        base
    }
}

/// `base` with the profile's extension: kept when it already ends with
/// `.extension` (ignoring ASCII case), else `base.extension`; leading dots of
/// `extension` are dropped.
pub open spec fn with_profile_extension(base: Seq<char>, extension: Seq<char>) -> Seq<char> {
    let normalized = strip_start(extension, dot_pred());
    if has_suffix(ascii_lowercase(base), seq!['.'] + ascii_lowercase(normalized)) {
        base
    } else {
        base + seq!['.'] + normalized
    }
}

/// Makes sure the output file name carries the profile's extension.
pub fn ensure_profile_extension(base_name: &str, extension: &str) -> (r: String)
    ensures
        r@ == with_profile_extension(base_name@, extension@),
        has_suffix(ascii_lowercase(r@), seq!['.'] + ascii_lowercase(strip_start(extension@, dot_pred()))),
{
    let ext = chars_of(extension);
    let normalized = strip_leading_dots(&ext);
    let base = chars_of(base_name);
    let lower_base = ascii_lowercase_chars(&base);
    let mut suffix: Vec<char> = Vec::new();
    suffix.push('.');
    let lower_ext = ascii_lowercase_chars(&normalized);
    push_chars(&mut suffix, &lower_ext);
    assert(suffix@ =~= seq!['.'] + ascii_lowercase(normalized@));
    if ends_with_chars(&lower_base, &suffix) {
        String::from_str(base_name)
    } else {
        let mut out = base;
        out.push('.');
        push_chars(&mut out, &normalized);
        proof {
            let r = base_name@ + seq!['.'] + normalized@;
            assert(out@ =~= r);
            lemma_ascii_lowercase_concat(base_name@, seq!['.'] + normalized@);
            lemma_ascii_lowercase_concat(seq!['.'], normalized@);
            assert(ascii_lowercase(seq!['.']) =~= seq!['.']);
            assert(base_name@ + seq!['.'] + normalized@ =~= base_name@ + (seq!['.'] + normalized@));
            let lr = ascii_lowercase(r);
            let sfx = seq!['.'] + ascii_lowercase(normalized@);
            assert(lr =~= ascii_lowercase(base_name@) + sfx);
            assert(lr.subrange(lr.len() - sfx.len(), lr.len() as int) =~= sfx);
        }
        string_from_chars(&out)
    }
}

/// Adding the profile extension twice gives the same name as adding it once.
pub proof fn law_profile_extension_idempotent(base: Seq<char>, extension: Seq<char>)
    ensures
        with_profile_extension(with_profile_extension(base, extension), extension)
            == with_profile_extension(base, extension),
{
    let normalized = strip_start(extension, dot_pred());
    let sfx = seq!['.'] + ascii_lowercase(normalized);
    if !has_suffix(ascii_lowercase(base), sfx) {
        let r = base + seq!['.'] + normalized;
        lemma_ascii_lowercase_concat(base, seq!['.'] + normalized);
        lemma_ascii_lowercase_concat(seq!['.'], normalized);
        assert(ascii_lowercase(seq!['.']) =~= seq!['.']);
        assert(base + seq!['.'] + normalized =~= base + (seq!['.'] + normalized));
        let lr = ascii_lowercase(r);
        assert(lr =~= ascii_lowercase(base) + sfx);
        assert(lr.subrange(lr.len() - sfx.len(), lr.len() as int) =~= sfx);
    }
}

/// Two different runs of digits after the same `base_` give different
/// names, also once the profile extension is added.
proof fn lemma_numbered_names_differ(b: Seq<char>, d1: Seq<char>, d2: Seq<char>, extension: Seq<char>)
    requires
        d1 != d2,
        forall|i: int| 0 <= i < d1.len() ==> is_digit(#[trigger] d1[i]),
        forall|i: int| 0 <= i < d2.len() ==> is_digit(#[trigger] d2[i]),
    ensures
        with_profile_extension(b + seq!['_'] + d1, extension) != with_profile_extension(
            b + seq!['_'] + d2,
            extension,
        ),
{
    let s1 = b + seq!['_'] + d1;
    let s2 = b + seq!['_'] + d2;
    let k: int = b.len() as int + 1;
    assert(s1.skip(k) =~= d1);
    assert(s2.skip(k) =~= d2);
    let n = strip_start(extension, dot_pred());
    let w1 = with_profile_extension(s1, extension);
    let w2 = with_profile_extension(s2, extension);
    if w1 == w2 {
        if w1 == s1 && w2 == s2 {
        } else if w1 != s1 && w2 != s2 {
            assert((s1 + seq!['.'] + n).take(s1.len() as int) =~= s1);
            assert((s2 + seq!['.'] + n).take(s2.len() as int) =~= s2);
        } else if w1 == s1 {
            assert(w2 == s2 + seq!['.'] + n);
            let m: int = k + d2.len() as int;
            assert(w2[m] == '.');
            assert(d1.len() > d2.len());
            assert(s1[m] == d1[d2.len() as int]);
            assert(is_digit(d1[d2.len() as int]));
        } else {
            assert(w1 == s1 + seq!['.'] + n);
            let m: int = k + d1.len() as int;
            assert(w1[m] == '.');
            assert(d2.len() > d1.len());
            assert(s2[m] == d2[d1.len() as int]);
            assert(is_digit(d2[d1.len() as int]));
        }
    }
}

/// When the caller names the exported file, the items of a batch get
/// different file names, with or without the profile extension added.
pub proof fn law_named_batch_names_distinct(
    provided_name: Seq<char>,
    title_a: Option<Seq<char>>,
    title_b: Option<Seq<char>>,
    fallback_id: Seq<char>,
    i: nat,
    j: nat,
    total: nat,
    extension: Seq<char>,
)
    requires
        trim(provided_name).len() > 0,
        i != j,
        total > 1,
    ensures
        with_profile_extension(output_stem(provided_name, title_a, fallback_id, i, total), extension)
            != with_profile_extension(
            output_stem(provided_name, title_b, fallback_id, j, total),
            extension,
        ),
{
    let b = sanitized_filename(trim(provided_name));
    let d1 = zero_padded(decimal(i + 1), 2);
    let d2 = zero_padded(decimal(j + 1), 2);
    lemma_padded_decimal_value(i + 1, 2);
    lemma_padded_decimal_value(j + 1, 2);
    lemma_decimal_digits(i + 1);
    lemma_decimal_digits(j + 1);
    lemma_zero_padded_digits(decimal(i + 1), 2);
    lemma_zero_padded_digits(decimal(j + 1), 2);
    lemma_numbered_names_differ(b, d1, d2, extension);
}

/// The name under which the original download is kept in retention storage:
/// `base_source.ext` for a non-empty extension (leading dots dropped), else
/// `base_source`.
pub open spec fn retention_filename(base: Seq<char>, extension: Option<Seq<char>>) -> Seq<char> {
    match extension {
        Some(ext) if ext.len() > 0 => base + "_source."@ + strip_start(ext, dot_pred()),
        _ => base + "_source"@,
    }
}

pub fn build_retention_filename(base_name: &str, extension: Option<&str>) -> (r: String)
    ensures
        r@ == retention_filename(base_name@, opt_view(extension)),
{
    let mut out = chars_of(base_name);
    match extension {
        Some(ext) if !ext.is_empty() => {
            let ev = chars_of(ext);
            push_str_chars(&mut out, "_source.");
            let n = strip_leading_dots(&ev);
            push_chars(&mut out, &n);
        },
        _ => {
            push_str_chars(&mut out, "_source");
        },
    }
    string_from_chars(&out)
}


/// The extensions that mark a URL as pointing straight at a media file.
pub open spec fn media_markers() -> Seq<Seq<char>> {
    seq![".mp4"@, ".m3u8"@, ".mp3"@, ".mov"@, ".webm"@, ".m4a"@, ".mpd"@]
}

/// Whether the URL, ignoring ASCII case, mentions a known media extension.
pub fn looks_like_direct_media_url(url: &str) -> (r: bool)
    ensures
        r == exists|i: int|
            0 <= i < media_markers().len() && seq_contains(
                ascii_lowercase(url@),
                #[trigger] media_markers()[i],
            ),
{
    let lower = ascii_lowercase_chars(&chars_of(url));
    let mut markers: Vec<&str> = Vec::new();
    markers.push(".mp4");
    markers.push(".m3u8");
    markers.push(".mp3");
    markers.push(".mov");
    markers.push(".webm");
    markers.push(".m4a");
    markers.push(".mpd");
    assert(markers@.map_values(|m: &str| m@) =~= media_markers());
    let mut i: usize = 0;
    while i < markers.len()
        invariant
            i <= markers.len(),
            markers@.len() == media_markers().len(),
            forall|j: int| 0 <= j < markers@.len() ==> #[trigger] markers@[j]@ == media_markers()[j],
            lower@ == ascii_lowercase(url@),
            forall|j: int| 0 <= j < i ==> !seq_contains(lower@, #[trigger] media_markers()[j]),
        decreases markers.len() - i,
    {
        let m = chars_of(markers[i]);
        if contains_chars(&lower, &m) {
            assert(seq_contains(lower@, media_markers()[i as int]));
            return true;
        }
        i = i + 1;
    }
    false
}

/// A line of progress text shown to the user.
pub struct LogPayload {
    pub message: String,
}

/// The files a finished download-and-transcode run exported.
pub struct DownloadExecution {
    pub exported_files: Vec<String>,
}

/// The text of `DownloadExecution::summary` for the given exported files.
pub open spec fn execution_summary(files: Seq<Seq<char>>) -> Seq<char> {
    "Successfully exported "@ + decimal(files.len()) + " file(s):\n"@ + joined(files, "\n"@)
}

impl DownloadExecution {
    /// A human-readable summary: the number of exported files, then each
    /// path on its own line.
    pub fn summary(&self) -> (r: String)
        ensures
            r@ == execution_summary(string_views(self.exported_files@)),
    {
        let mut out: Vec<char> = Vec::new();
        push_str_chars(&mut out, "Successfully exported ");
        push_decimal(&mut out, self.exported_files.len() as u64);
        push_str_chars(&mut out, " file(s):\n");
        push_joined(&mut out, &self.exported_files, "\n");
        assert(string_views(self.exported_files@).len() == self.exported_files@.len());
        assert(out@ =~= execution_summary(string_views(self.exported_files@)));
        string_from_chars(&out)
    }
}

/// A URL counts as direct media exactly when, ignoring ASCII case, it
/// mentions one of `.mp4`, `.m3u8`, `.mp3`, `.mov`, `.webm`, `.m4a` or `.mpd`.
pub proof fn law_direct_media_markers(url: Seq<char>)
    ensures
        (exists|i: int|
            0 <= i < media_markers().len() && seq_contains(
                ascii_lowercase(url),
                #[trigger] media_markers()[i],
            )) <==> ({
            let l = ascii_lowercase(url);
            ||| seq_contains(l, ".mp4"@)
            ||| seq_contains(l, ".m3u8"@)
            ||| seq_contains(l, ".mp3"@)
            ||| seq_contains(l, ".mov"@)
            ||| seq_contains(l, ".webm"@)
            ||| seq_contains(l, ".m4a"@)
            ||| seq_contains(l, ".mpd"@)
        }),
{
    let m = media_markers();
    assert(m[0] == ".mp4"@);
    assert(m[1] == ".m3u8"@);
    assert(m[2] == ".mp3"@);
    assert(m[3] == ".mov"@);
    assert(m[4] == ".webm"@);
    assert(m[5] == ".m4a"@);
    assert(m[6] == ".mpd"@);
}

} // verus!
