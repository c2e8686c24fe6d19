//! File-system paths as text, following the rules of `std::path` for the
//! host platform (`PathBuf::push`, `Path::is_absolute`, `Path::components`,
//! `Path::file_name` and `Path::extension`) for the shapes of path this tool
//! handles.
use vstd::prelude::*;
use crate::text::{chars_of, push_chars, slice_chars, string_from_chars};

verus! {

/// The operating-system family the tool runs on.
#[derive(Clone, Copy, PartialEq, Eq, Debug, Structural)]
pub enum Platform {
    Windows,
    Unix,
}

/// Path separators: `/` everywhere, and also `\` on Windows.
pub open spec fn is_sep(p: Platform, c: char) -> bool {
    c == '/' || (p == Platform::Windows && c == '\\')
}

/// The separator `PathBuf::push` inserts.
pub open spec fn main_sep(p: Platform) -> char {
    if p == Platform::Windows {
        '\\'
    } else {
        '/'
    }
}

pub open spec fn is_ascii_alpha(c: char) -> bool {
    ('a' <= c && c <= 'z') || ('A' <= c && c <= 'Z')
}

/// A Windows path that starts with a drive such as `C:`.
pub open spec fn starts_with_drive(p: Platform, s: Seq<char>) -> bool {
    p == Platform::Windows && s.len() >= 2 && is_ascii_alpha(s[0]) && s[1] == ':'
}

/// `PathBuf::push` of a relative name: no separator is added after an empty
/// path, after a trailing separator, or after a bare Windows drive.
pub open spec fn path_push(p: Platform, base: Seq<char>, part: Seq<char>) -> Seq<char> {
    if base.len() == 0 || is_sep(p, base.last()) || (starts_with_drive(p, base) && base.len()
        == 2) {
        base + part
    } else {
        base.push(main_sep(p)) + part
    }
}

/// `Path::is_absolute`: a leading `/` on Unix; on Windows a drive followed by
/// a separator, or a `\\` prefix (UNC, verbatim and device paths).
pub open spec fn is_absolute(p: Platform, s: Seq<char>) -> bool {
    if p == Platform::Windows {
        (s.len() >= 2 && s[0] == '\\' && s[1] == '\\') || (starts_with_drive(p, s) && s.len() >= 3
            && is_sep(p, s[2]))
    } else {
        s.len() > 0 && s[0] == '/'
    }
}

/// A path segment that `Path::components` reports as a normal name.
pub open spec fn is_normal_segment(seg: Seq<char>) -> bool {
    seg.len() > 0 && seg != seq!['.'] && seg != seq!['.', '.']
}

/// `path` extended with `seg` when `seg` is a normal name.
pub open spec fn push_segment(p: Platform, path: Seq<char>, seg: Seq<char>) -> Seq<char> {
    if is_normal_segment(seg) {
        path_push(p, path, seg)
    } else {
        path
    }
}

/// Pushes the normal components of `rest` (with `seg` the component being
/// read) onto `path`, skipping `.`, `..` and empty components.
pub open spec fn push_normal_parts(p: Platform, path: Seq<char>, seg: Seq<char>, rest: Seq<char>) -> Seq<char>
    decreases rest.len(),
{
    if rest.len() == 0 {
        push_segment(p, path, seg)
    } else if is_sep(p, rest[0]) {
        push_normal_parts(p, push_segment(p, path, seg), Seq::<char>::empty(), rest.drop_first())
    } else {
        push_normal_parts(p, path, seg.push(rest[0]), rest.drop_first())
    }
}

/// `s` without a leading Windows drive prefix.
pub open spec fn without_drive(p: Platform, s: Seq<char>) -> Seq<char> {
    if starts_with_drive(p, s) {
        s.skip(2)
    } else {
        s
    }
}

/// `base` with every normal component of the relative path `rel` pushed in
/// order (`.`, `..`, roots and drive prefixes are dropped).
pub open spec fn resolve_under(p: Platform, base: Seq<char>, rel: Seq<char>) -> Seq<char> {
    push_normal_parts(p, base, Seq::<char>::empty(), without_drive(p, rel))
}

/// The last component of `rest` (with `seg` the one being read) that is
/// neither empty nor `.`, or `last` when there is none.
pub open spec fn last_component(
    p: Platform,
    last: Option<Seq<char>>,
    seg: Seq<char>,
    rest: Seq<char>,
) -> Option<Seq<char>>
    decreases rest.len(),
{
    let noted = if seg.len() > 0 && seg != seq!['.'] {
        Some(seg)
    } else {
        last
    };
    if rest.len() == 0 {
        noted
    } else if is_sep(p, rest[0]) {
        last_component(p, noted, Seq::<char>::empty(), rest.drop_first())
    } else {
        last_component(p, last, seg.push(rest[0]), rest.drop_first())
    }
}

/// `Path::file_name`: the last component when it is a normal name.
pub open spec fn file_name(p: Platform, s: Seq<char>) -> Option<Seq<char>> {
    match last_component(p, None, Seq::<char>::empty(), without_drive(p, s)) {
        Some(name) if name != seq!['.', '.'] => Some(name),
        _ => None,
    }
}

/// `Path::extension` of a file name: the text after its last `.`, unless
/// that `.` is the first character or there is none.
pub open spec fn name_extension(name: Seq<char>) -> Option<Seq<char>> {
    if exists|k: int| 0 < k < name.len() && name[k] == '.' {
        let k = choose|k: int|
            0 < k < name.len() && name[k] == '.' && forall|j: int|
                k < j < name.len() ==> name[j] != '.';
        Some(name.skip(k + 1))
    } else {
        None
    }
}

/// `Path::extension`.
pub open spec fn path_extension(p: Platform, s: Seq<char>) -> Option<Seq<char>> {
    match file_name(p, s) {
        Some(name) => name_extension(name),
        None => None,
    }
}

/// Pushing onto an absolute path keeps it absolute.
pub proof fn lemma_push_keeps_absolute(p: Platform, base: Seq<char>, part: Seq<char>)
    requires
        is_absolute(p, base),
    ensures
        is_absolute(p, path_push(p, base, part)),
{
    let r = path_push(p, base, part);
    assert(r.len() >= base.len());
    assert forall|i: int| 0 <= i < base.len() implies r[i] == base[i] by {}
}

/// Pushing components onto an absolute path keeps it absolute.
pub proof fn lemma_parts_keep_absolute(p: Platform, path: Seq<char>, seg: Seq<char>, rest: Seq<char>)
    requires
        is_absolute(p, path),
    ensures
        is_absolute(p, push_normal_parts(p, path, seg, rest)),
    decreases rest.len(),
{
    if is_normal_segment(seg) {
        lemma_push_keeps_absolute(p, path, seg);
    }
    if rest.len() > 0 {
        if is_sep(p, rest[0]) {
            lemma_parts_keep_absolute(p, push_segment(p, path, seg), Seq::<char>::empty(), rest.drop_first());
        } else {
            lemma_parts_keep_absolute(p, path, seg.push(rest[0]), rest.drop_first());
        }
    }
}

pub fn char_is_sep(p: Platform, c: char) -> (r: bool)
    ensures
        r == is_sep(p, c),
{
    c == '/' || (p == Platform::Windows && c == '\\')
}

fn is_ascii_alpha_exec(c: char) -> (r: bool)
    ensures
        r == is_ascii_alpha(c),
{
    ('a' <= c && c <= 'z') || ('A' <= c && c <= 'Z')
}

fn starts_with_drive_exec(p: Platform, s: &Vec<char>) -> (r: bool)
    ensures
        r == starts_with_drive(p, s@),
{
    p == Platform::Windows && s.len() >= 2 && is_ascii_alpha_exec(s[0]) && s[1] == ':'
}

/// Pushes the relative name `part` onto `base` in place.
pub fn push_path(p: Platform, base: &mut Vec<char>, part: &Vec<char>)
    ensures
        final(base)@ == path_push(p, old(base)@, part@),
{
    let no_sep = base.len() == 0 || char_is_sep(p, base[base.len() - 1]) || (
    starts_with_drive_exec(p, base) && base.len() == 2);
    if !no_sep {
        base.push(if p == Platform::Windows { '\\' } else { '/' });
    }
    push_chars(base, part);
}

/// `Path::new(base).join(part)` for a relative name `part`.
pub fn join_path(p: Platform, base: &str, part: &str) -> (r: String)
    ensures
        r@ == path_push(p, base@, part@),
{
    let mut b = chars_of(base);
    let q = chars_of(part);
    push_path(p, &mut b, &q);
    string_from_chars(&b)
}

/// `Path::is_absolute`.
pub fn path_is_absolute(p: Platform, s: &Vec<char>) -> (r: bool)
    ensures
        r == is_absolute(p, s@),
{
    if p == Platform::Windows {
        (s.len() >= 2 && s[0] == '\\' && s[1] == '\\') || (starts_with_drive_exec(p, s) && s.len()
            >= 3 && char_is_sep(p, s[2]))
    } else {
        s.len() > 0 && s[0] == '/'
    }
}

fn is_normal_segment_exec(seg: &Vec<char>) -> (r: bool)
    ensures
        r == is_normal_segment(seg@),
{
    let dot = seg.len() == 1 && seg[0] == '.';
    let dotdot = seg.len() == 2 && seg[0] == '.' && seg[1] == '.';
    proof {
        if seg.len() == 1 {
            assert(dot <==> seg@ =~= seq!['.']);
        }
        if seg.len() == 2 {
            assert(dotdot <==> seg@ =~= seq!['.', '.']);
        }
    }
    seg.len() > 0 && !dot && !dotdot
}

/// Pushes every normal component of the relative path `rel` onto `base`.
pub fn push_relative_parts(p: Platform, base: &mut Vec<char>, rel: &Vec<char>)
    ensures
        final(base)@ == resolve_under(p, old(base)@, rel@),
{
    let start: usize = if starts_with_drive_exec(p, rel) { 2 } else { 0 };
    let ghost r = without_drive(p, rel@);
    assert(r =~= rel@.skip(start as int));
    let mut seg: Vec<char> = Vec::new();
    let mut i = start;
    while i < rel.len()
        invariant
            start <= i <= rel.len(),
            r == rel@.skip(start as int),
            resolve_under(p, old(base)@, rel@) == push_normal_parts(
                p,
                base@,
                seg@,
                rel@.skip(i as int),
            ),
        decreases rel.len() - i,
    {
        let c = rel[i];
        proof {
            let rest = rel@.skip(i as int);
            assert(rest[0] == c);
            assert(rest.drop_first() =~= rel@.skip(i + 1));
        }
        if char_is_sep(p, c) {
            if is_normal_segment_exec(&seg) {
                push_path(p, base, &seg);
            }
            seg = Vec::new();
            assert(seg@ =~= Seq::<char>::empty());
        } else {
            seg.push(c);
        }
        i = i + 1;
    }
    assert(rel@.skip(rel.len() as int) =~= Seq::<char>::empty());
    if is_normal_segment_exec(&seg) {
        push_path(p, base, &seg);
    }
}


/// `Path::file_name`.
pub fn path_file_name(p: Platform, path: &Vec<char>) -> (r: Option<Vec<char>>)
    ensures
        match r {
            Some(name) => file_name(p, path@) == Some(name@),
            None => file_name(p, path@) is None,
        },
{
    let start: usize = if starts_with_drive_exec(p, path) { 2 } else { 0 };
    let ghost rest0 = without_drive(p, path@);
    assert(rest0 =~= path@.skip(start as int));
    let mut last: Option<Vec<char>> = None;
    let mut seg: Vec<char> = Vec::new();
    let mut i = start;
    while i < path.len()
        invariant
            start <= i <= path.len(),
            rest0 == path@.skip(start as int),
            last_component(p, None, Seq::<char>::empty(), rest0) == last_component(
                p,
                match last {
                    Some(v) => Some(v@),
                    None => None,
                },
                seg@,
                path@.skip(i as int),
            ),
        decreases path.len() - i,
    {
        let c = path[i];
        proof {
            let rest = path@.skip(i as int);
            assert(rest[0] == c);
            assert(rest.drop_first() =~= path@.skip(i + 1));
        }
        if char_is_sep(p, c) {
            let single_dot = seg.len() == 1 && seg[0] == '.';
            proof {
                if seg.len() == 1 {
                    assert(single_dot <==> seg@ =~= seq!['.']);
                }
            }
            if seg.len() > 0 && !single_dot {
                last = Some(seg);
            }
            seg = Vec::new();
            assert(seg@ =~= Seq::<char>::empty());
        } else {
            seg.push(c);
        }
        i = i + 1;
    }
    assert(path@.skip(path.len() as int) =~= Seq::<char>::empty());
    let single_dot = seg.len() == 1 && seg[0] == '.';
    proof {
        if seg.len() == 1 {
            assert(single_dot <==> seg@ =~= seq!['.']);
        }
    }
    if seg.len() > 0 && !single_dot {
        last = Some(seg);
    }
    match last {
        Some(name) => {
            let dotdot = name.len() == 2 && name[0] == '.' && name[1] == '.';
            proof {
                if name.len() == 2 {
                    assert(dotdot <==> name@ =~= seq!['.', '.']);
                }
            }
            if dotdot {
                None
            } else {
                Some(name)
            }
        },
        None => None,
    }
}

/// The extension of a file name.
pub fn name_extension_chars(name: &Vec<char>) -> (r: Option<Vec<char>>)
    ensures
        match r {
            Some(e) => name_extension(name@) == Some(e@),
            None => name_extension(name@) is None,
        },
{
    let mut k = name.len();
    while k > 0 && name[k - 1] != '.'
        invariant
            k <= name.len(),
            forall|j: int| k <= j < name.len() ==> name@[j] != '.',
        decreases k,
    {
        k = k - 1;
    }
    if k > 1 {
        let d = k - 1;
        proof {
            assert(0 < d < name@.len() && name@[d as int] == '.');
            let c = choose|c: int|
                0 < c < name@.len() && name@[c] == '.' && forall|j: int|
                    c < j < name@.len() ==> name@[j] != '.';
            if c < d {
                assert(name@[d as int] != '.');
            }
            if c > d {
                assert(name@[c] != '.');
            }
        }
        let e = slice_chars(name, k, name.len());
        assert(e@ =~= name@.skip(d + 1));
        Some(e)
    } else {
        proof {
            assert forall|j: int| 0 < j < name@.len() implies name@[j] != '.' by {
                if k == 1 && j == 0 {
                } else {
                    assert(k <= j);
                }
            }
        }
        None
    }
}

/// `Path::extension`.
pub fn path_extension_chars(p: Platform, path: &Vec<char>) -> (r: Option<Vec<char>>)
    ensures
        match r {
            Some(e) => path_extension(p, path@) == Some(e@),
            None => path_extension(p, path@) is None,
        },
{
    match path_file_name(p, path) {
        Some(name) => name_extension_chars(&name),
        None => None,
    }
}

} // verus!
