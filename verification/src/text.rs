//! Character-level text operations, each stated over `Seq<char>`.
use vstd::prelude::*;

verus! {

/// Unicode `White_Space`, as used by `char::is_whitespace` and `str::trim`.
pub open spec fn is_ws(c: char) -> bool {
    ||| c == '\t' || c == '\n' || c == '\x0B' || c == '\x0C' || c == '\r' || c == ' '
    ||| c == '\u{85}' || c == '\u{A0}' || c == '\u{1680}'
    ||| ('\u{2000}' <= c && c <= '\u{200A}')
    ||| c == '\u{2028}' || c == '\u{2029}' || c == '\u{202F}' || c == '\u{205F}'
    ||| c == '\u{3000}'
}

/// Unicode general category `Cc`, as used by `char::is_control`.
pub open spec fn is_control(c: char) -> bool {
    c <= '\u{1F}' || ('\u{7F}' <= c && c <= '\u{9F}')
}

pub fn char_is_ws(c: char) -> (r: bool)
    ensures
        r == is_ws(c),
{
    c == '\t' || c == '\n' || c == '\x0B' || c == '\x0C' || c == '\r' || c == ' ' || c == '\u{85}'
        || c == '\u{A0}' || c == '\u{1680}' || ('\u{2000}' <= c && c <= '\u{200A}') || c
        == '\u{2028}' || c == '\u{2029}' || c == '\u{202F}' || c == '\u{205F}' || c == '\u{3000}'
}

pub fn char_is_control(c: char) -> (r: bool)
    ensures
        r == is_control(c),
{
    c <= '\u{1F}' || ('\u{7F}' <= c && c <= '\u{9F}')
}

/// The whitespace test, as a predicate value.
pub open spec fn ws_pred() -> spec_fn(char) -> bool {
    |c: char| is_ws(c)
}

/// The full-stop test, as a predicate value.
pub open spec fn dot_pred() -> spec_fn(char) -> bool {
    |c: char| c == '.'
}

/// `s` without its leading characters that satisfy `strip`.
pub open spec fn strip_start(s: Seq<char>, strip: spec_fn(char) -> bool) -> Seq<char>
    decreases s.len(),
{
    if s.len() > 0 && strip(s[0]) {
        strip_start(s.drop_first(), strip)
    } else {
        s
    }
}

/// `s` without its trailing characters that satisfy `strip`.
pub open spec fn strip_end(s: Seq<char>, strip: spec_fn(char) -> bool) -> Seq<char>
    decreases s.len(),
{
    if s.len() > 0 && strip(s.last()) {
        strip_end(s.drop_last(), strip)
    } else {
        s
    }
}

/// `str::trim`: no leading and no trailing whitespace.
pub open spec fn trim(s: Seq<char>) -> Seq<char> {
    strip_end(strip_start(s, ws_pred()), ws_pred())
}

/// The characters of a string slice, in order.
pub fn chars_of(s: &str) -> (v: Vec<char>)
    ensures
        v@ == s@,
{
    let mut v: Vec<char> = Vec::new();
    for c in it: s.chars()
        invariant
            v@ == it.seq().take(it.index() as int),
            it.seq() == s@,
    {
        v.push(c);
    }
    v
}


pub proof fn lemma_strip_start_prefix(s: Seq<char>, strip: spec_fn(char) -> bool, i: int)
    requires
        0 <= i <= s.len(),
        forall|j: int| 0 <= j < i ==> strip(#[trigger] s[j]),
    ensures
        strip_start(s, strip) == strip_start(s.skip(i), strip),
    decreases i,
{
    if i > 0 {
        assert(s.skip(1) =~= s.drop_first());
        lemma_strip_start_prefix(s.drop_first(), strip, i - 1);
        assert(s.drop_first().skip(i - 1) =~= s.skip(i));
    } else {
        assert(s.skip(0) =~= s);
    }
}

pub proof fn lemma_strip_end_suffix(s: Seq<char>, strip: spec_fn(char) -> bool, i: int)
    requires
        0 <= i <= s.len(),
        forall|j: int| i <= j < s.len() ==> strip(#[trigger] s[j]),
    ensures
        strip_end(s, strip) == strip_end(s.take(i), strip),
    decreases s.len() - i,
{
    if i < s.len() {
        lemma_strip_end_suffix(s.drop_last(), strip, i);
        assert(s.drop_last().take(i) =~= s.take(i));
    } else {
        assert(s.take(i) =~= s);
    }
}

fn strips(c: char, dots: bool) -> (r: bool)
    ensures
        r == (if dots { c == '.' } else { is_ws(c) }),
{
    if dots {
        c == '.'
    } else {
        char_is_ws(c)
    }
}

/// Index of the first character of `v` at or after which `strip` fails,
/// counting from the front.
fn strip_start_index(v: &Vec<char>, dots: bool) -> (k: usize)
    ensures
        k <= v.len(),
        dots ==> strip_start(v@, dot_pred()) == v@.skip(k as int),
        !dots ==> strip_start(v@, ws_pred()) == v@.skip(k as int),
{
    let ghost f = if dots { dot_pred() } else { ws_pred() };
    let mut k: usize = 0;
    while k < v.len() && strips(v[k], dots)
        invariant
            k <= v.len(),
            f == (if dots { dot_pred() } else { ws_pred() }),
            forall|j: int| 0 <= j < k ==> f(#[trigger] v@[j]),
        decreases v.len() - k,
    {
        k = k + 1;
    }
    proof {
        lemma_strip_start_prefix(v@, f, k as int);
        let t = v@.skip(k as int);
        if t.len() > 0 {
            assert(t[0] == v@[k as int]);
        }
    }
    k
}

/// Index just past the last character of `v` at which `strip` fails.
fn strip_end_index(v: &Vec<char>, dots: bool) -> (k: usize)
    ensures
        k <= v.len(),
        dots ==> strip_end(v@, dot_pred()) == v@.take(k as int),
        !dots ==> strip_end(v@, ws_pred()) == v@.take(k as int),
{
    let ghost f = if dots { dot_pred() } else { ws_pred() };
    let mut k: usize = v.len();
    while k > 0 && strips(v[k - 1], dots)
        invariant
            k <= v.len(),
            f == (if dots { dot_pred() } else { ws_pred() }),
            forall|j: int| k <= j < v.len() ==> f(#[trigger] v@[j]),
        decreases k,
    {
        k = k - 1;
    }
    proof {
        lemma_strip_end_suffix(v@, f, k as int);
        let t = v@.take(k as int);
        if t.len() > 0 {
            assert(t.last() == v@[k - 1]);
        }
    }
    k
}

/// The characters of `v` from index `start` up to `end`.
pub fn slice_chars(v: &Vec<char>, start: usize, end: usize) -> (r: Vec<char>)
    requires
        start <= end <= v.len(),
    ensures
        r@ == v@.subrange(start as int, end as int),
{
    let mut r: Vec<char> = Vec::new();
    let mut i = start;
    while i < end
        invariant
            start <= i <= end <= v.len(),
            r@ == v@.subrange(start as int, i as int),
        decreases end - i,
    {
        r.push(v[i]);
        i = i + 1;
    }
    r
}

/// `str::trim` on a character vector.
pub fn trim_chars(v: &Vec<char>) -> (r: Vec<char>)
    ensures
        r@ == trim(v@),
{
    let a = strip_start_index(v, false);
    let rest = slice_chars(v, a, v.len());
    assert(rest@ =~= v@.skip(a as int));
    let b = strip_end_index(&rest, false);
    slice_chars(&rest, 0, b)
}

/// `str::trim_matches('.')` on a character vector.
pub fn trim_dots(v: &Vec<char>) -> (r: Vec<char>)
    ensures
        r@ == strip_end(strip_start(v@, dot_pred()), dot_pred()),
{
    let a = strip_start_index(v, true);
    let rest = slice_chars(v, a, v.len());
    assert(rest@ =~= v@.skip(a as int));
    let b = strip_end_index(&rest, true);
    slice_chars(&rest, 0, b)
}


/// The whitespace-separated words of `s`, joined by `sep`
/// (`s.split_whitespace().collect::<Vec<_>>().join(sep)`).
pub open spec fn collapse_ws(s: Seq<char>, sep: char) -> Seq<char>
    decreases s.len(),
{
    if s.len() == 0 {
        Seq::<char>::empty()
    } else {
        let p = collapse_ws(s.drop_last(), sep);
        let c = s.last();
        if is_ws(c) {
            p
        } else if p.len() > 0 && s.len() >= 2 && is_ws(s[s.len() - 2]) {
            p.push(sep).push(c)
        } else {
            p.push(c)
        }
    }
}

/// Joins the whitespace-separated words of `v` with `sep`.
pub fn collapse_whitespace(v: &Vec<char>, sep: char) -> (r: Vec<char>)
    ensures
        r@ == collapse_ws(v@, sep),
{
    let mut out: Vec<char> = Vec::new();
    let mut pending = false;
    let mut i: usize = 0;
    while i < v.len()
        invariant
            i <= v.len(),
            out@ == collapse_ws(v@.take(i as int), sep),
            pending == (i > 0 && is_ws(v@[i - 1])),
        decreases v.len() - i,
    {
        let c = v[i];
        proof {
            assert(v@.take(i + 1).drop_last() =~= v@.take(i as int));
            assert(v@.take(i + 1).last() == c);
        }
        if char_is_ws(c) {
            pending = true;
        } else {
            if pending && out.len() > 0 {
                out.push(sep);
            }
            out.push(c);
            pending = false;
        }
        i = i + 1;
    }
    assert(v@.take(v.len() as int) =~= v@);
    out
}

/// The ASCII digit for `d < 10`.
pub open spec fn digit_char(d: nat) -> char {
    if d == 0 { '0' }
    else if d == 1 { '1' }
    else if d == 2 { '2' }
    else if d == 3 { '3' }
    else if d == 4 { '4' }
    else if d == 5 { '5' }
    else if d == 6 { '6' }
    else if d == 7 { '7' }
    else if d == 8 { '8' }
    else { '9' }
}

/// The decimal representation of `n`, without leading zeros.
pub open spec fn decimal(n: nat) -> Seq<char>
    decreases n,
{
    if n < 10 {
        seq![digit_char(n)]
    } else {
        decimal(n / 10).push(digit_char(n % 10))
    }
}

/// `s` padded on the left with `'0'` to at least `width` characters.
pub open spec fn zero_padded(s: Seq<char>, width: nat) -> Seq<char> {
    if s.len() < width {
        Seq::new((width - s.len()) as nat, |i: int| '0') + s
    } else {
        s
    }
}

/// An ASCII decimal digit.
pub open spec fn is_digit(c: char) -> bool {
    '0' <= c && c <= '9'
}

/// `decimal(n)` is a non-empty run of digits.
pub proof fn lemma_decimal_digits(n: nat)
    ensures
        decimal(n).len() > 0,
        forall|i: int| 0 <= i < decimal(n).len() ==> is_digit(#[trigger] decimal(n)[i]),
    decreases n,
{
    if n >= 10 {
        lemma_decimal_digits(n / 10);
        let d = decimal(n / 10);
        assert forall|i: int| 0 <= i < decimal(n).len() implies is_digit(#[trigger] decimal(n)[i]) by {
            if i < d.len() {
                assert(decimal(n)[i] == d[i]);
            }
        }
    }
}

/// Zero-padding a run of digits keeps it a run of digits, at least `width`
/// long.
pub proof fn lemma_zero_padded_digits(s: Seq<char>, width: nat)
    requires
        forall|i: int| 0 <= i < s.len() ==> is_digit(#[trigger] s[i]),
    ensures
        zero_padded(s, width).len() >= width,
        zero_padded(s, width).len() >= s.len(),
        forall|i: int| 0 <= i < zero_padded(s, width).len() ==> is_digit(#[trigger] zero_padded(s, width)[i]),
{
    if s.len() < width {
        let pad = Seq::new((width - s.len()) as nat, |i: int| '0');
        assert forall|i: int| 0 <= i < zero_padded(s, width).len() implies is_digit(
            #[trigger] zero_padded(s, width)[i],
        ) by {
            if i >= pad.len() {
                assert(zero_padded(s, width)[i] == s[i - pad.len()]);
            }
        }
    }
}

/// The number a run of decimal digits stands for.
pub open spec fn digits_value(s: Seq<char>) -> int
    decreases s.len(),
{
    if s.len() == 0 {
        0
    } else {
        digits_value(s.drop_last()) * 10 + (s.last() as int - '0' as int)
    }
}

/// `decimal` writes `n` so that it reads back as `n`.
pub proof fn lemma_decimal_value(n: nat)
    ensures
        digits_value(decimal(n)) == n,
    decreases n,
{
    if n >= 10 {
        lemma_decimal_value(n / 10);
        let d = decimal(n);
        assert(d.drop_last() =~= decimal(n / 10));
        assert(d.last() == digit_char(n % 10));
        assert(digit_char(n % 10) as int - '0' as int == n % 10);
        assert(digits_value(d) == digits_value(decimal(n / 10)) * 10 + (n % 10));
        assert((n / 10) * 10 + n % 10 == n) by (nonlinear_arith);
    } else {
        assert(decimal(n).drop_last() =~= Seq::<char>::empty());
        assert(digits_value(Seq::<char>::empty()) == 0);
        assert(decimal(n).last() == digit_char(n));
        assert(digit_char(n) as int - '0' as int == n);
        assert(digits_value(decimal(n)) == digits_value(decimal(n).drop_last()) * 10 + (n as int));
    }
}

/// Leading zeros do not change the number a run of digits stands for.
pub proof fn lemma_leading_zeros_value(k: nat, s: Seq<char>)
    ensures
        digits_value(Seq::new(k, |i: int| '0') + s) == digits_value(s),
    decreases s.len(), k,
{
    let z = Seq::new(k, |i: int| '0');
    if s.len() == 0 {
        assert(z + s =~= z);
        if k > 0 {
            assert(z.drop_last() =~= Seq::new((k - 1) as nat, |i: int| '0'));
            lemma_leading_zeros_value((k - 1) as nat, s);
            assert(Seq::new((k - 1) as nat, |i: int| '0') + s =~= Seq::new((k - 1) as nat, |i: int| '0'));
        }
    } else {
        assert((z + s).drop_last() =~= z + s.drop_last());
        lemma_leading_zeros_value(k, s.drop_last());
    }
}

/// Zero-padding keeps the number a decimal reads as.
pub proof fn lemma_padded_decimal_value(n: nat, width: nat)
    ensures
        digits_value(zero_padded(decimal(n), width)) == n,
{
    lemma_decimal_value(n);
    let d = decimal(n);
    if d.len() < width {
        lemma_leading_zeros_value((width - d.len()) as nat, d);
    }
}

fn digit(d: u64) -> (c: char)
    requires
        d < 10,
    ensures
        c == digit_char(d as nat),
{
    if d == 0 { '0' }
    else if d == 1 { '1' }
    else if d == 2 { '2' }
    else if d == 3 { '3' }
    else if d == 4 { '4' }
    else if d == 5 { '5' }
    else if d == 6 { '6' }
    else if d == 7 { '7' }
    else if d == 8 { '8' }
    else { '9' }
}

/// Appends the decimal representation of `n` to `out`.
pub fn push_decimal(out: &mut Vec<char>, n: u64)
    ensures
        final(out)@ == old(out)@ + decimal(n as nat),
    decreases n,
{
    if n >= 10 {
        push_decimal(out, n / 10);
    }
    out.push(digit(n % 10));
    proof {
        if n >= 10 {
            assert(decimal(n as nat) == decimal((n / 10) as nat).push(digit_char((n % 10) as nat)));
        }
    }
}

/// Appends `n` in decimal, padded with zeros to at least `width` digits
/// (the `{:0width$}` format).
pub fn push_decimal_padded(out: &mut Vec<char>, n: u64, width: usize)
    ensures
        final(out)@ == old(out)@ + zero_padded(decimal(n as nat), width as nat),
{
    let mut digits: Vec<char> = Vec::new();
    push_decimal(&mut digits, n);
    assert(digits@ =~= decimal(n as nat));
    let ghost start = out@;
    if digits.len() < width {
        let pad = width - digits.len();
        let mut i: usize = 0;
        while i < pad
            invariant
                i <= pad,
                out@ == start + Seq::new(i as nat, |j: int| '0'),
            decreases pad - i,
        {
            out.push('0');
            i = i + 1;
            assert(out@ =~= start + Seq::new(i as nat, |j: int| '0'));
        }
    }
    let ghost mid = out@;
    let mut k: usize = 0;
    while k < digits.len()
        invariant
            k <= digits.len(),
            out@ == mid + digits@.take(k as int),
        decreases digits.len() - k,
    {
        out.push(digits[k]);
        k = k + 1;
        assert(out@ =~= mid + digits@.take(k as int));
    }
    assert(digits@.take(digits.len() as int) =~= digits@);
    assert(out@ =~= old(out)@ + zero_padded(decimal(n as nat), width as nat));
}

/// Appends every character of `s` to `out`.
pub fn push_str_chars(out: &mut Vec<char>, s: &str)
    ensures
        final(out)@ == old(out)@ + s@,
{
    let v = chars_of(s);
    let ghost start = out@;
    let mut k: usize = 0;
    while k < v.len()
        invariant
            k <= v.len(),
            out@ == start + v@.take(k as int),
        decreases v.len() - k,
    {
        out.push(v[k]);
        k = k + 1;
        assert(out@ =~= start + v@.take(k as int));
    }
    assert(v@.take(v.len() as int) =~= v@);
}

/// Appends every character of `v` to `out`.
pub fn push_chars(out: &mut Vec<char>, v: &Vec<char>)
    ensures
        final(out)@ == old(out)@ + v@,
{
    let ghost start = out@;
    let mut k: usize = 0;
    while k < v.len()
        invariant
            k <= v.len(),
            out@ == start + v@.take(k as int),
        decreases v.len() - k,
    {
        out.push(v[k]);
        k = k + 1;
        assert(out@ =~= start + v@.take(k as int));
    }
    assert(v@.take(v.len() as int) =~= v@);
}

/// Whether two string slices hold the same text.
pub fn str_eq(a: &str, b: &str) -> (r: bool)
    ensures
        r == (a@ == b@),
{
    let x = String::from_str(a);
    let y = String::from_str(b);
    x == y
}

/// Builds a `String` from its characters by collecting them
/// (`FromIterator<char>` for `String`); the contract claims that the string
/// holds exactly these characters, in order.
#[verifier::external_body]
pub(crate) fn string_from_chars(v: &Vec<char>) -> (s: String)
    ensures
        s@ == v@,
{
    v.iter().collect()
}

/// ASCII lower-casing of one character (`char::to_ascii_lowercase`).
pub open spec fn ascii_lower(c: char) -> char {
    if 'A' <= c && c <= 'Z' {
        ((c as u32) + 32) as char
    } else {
        c
    }
}

pub open spec fn ascii_lowercase(s: Seq<char>) -> Seq<char> {
    s.map_values(|c: char| ascii_lower(c))
}

pub fn char_ascii_lower(c: char) -> (r: char)
    ensures
        r == ascii_lower(c),
{
    if 'A' <= c && c <= 'Z' {
        let b: u8 = (c as u32 - 65) as u8;
        let r = (b + 97) as char;
        r
    } else {
        c
    }
}

/// `haystack` holds `needle` as a contiguous run.
pub open spec fn seq_contains(haystack: Seq<char>, needle: Seq<char>) -> bool {
    exists|i: int|
        0 <= i && i + needle.len() <= haystack.len() && #[trigger] haystack.subrange(
            i,
            i + needle.len(),
        ) == needle
}

/// `needle` occurs in `haystack` at position `i`.
pub open spec fn occurs_at(haystack: Seq<char>, needle: Seq<char>, i: int) -> bool {
    0 <= i && i + needle.len() <= haystack.len() && forall|k: int|
        0 <= k < needle.len() ==> #[trigger] haystack[i + k] == needle[k]
}

pub proof fn lemma_occurs_at_subrange(haystack: Seq<char>, needle: Seq<char>, i: int)
    ensures
        occurs_at(haystack, needle, i) <==> (0 <= i && i + needle.len() <= haystack.len()
            && haystack.subrange(i, i + needle.len()) == needle),
{
    if 0 <= i && i + needle.len() <= haystack.len() {
        if occurs_at(haystack, needle, i) {
            assert forall|k: int| 0 <= k < needle.len() implies haystack.subrange(
                i,
                i + needle.len(),
            )[k] == needle[k] by {
                assert(haystack[i + k] == needle[k]);
            }
            assert(haystack.subrange(i, i + needle.len()) =~= needle);
        }
        if haystack.subrange(i, i + needle.len()) == needle {
            assert forall|k: int| 0 <= k < needle.len() implies #[trigger] haystack[i + k]
                == needle[k] by {
                assert(haystack.subrange(i, i + needle.len())[k] == haystack[i + k]);
            }
        }
    }
}

fn occurs_at_exec(haystack: &Vec<char>, needle: &Vec<char>, i: usize) -> (r: bool)
    requires
        i + needle.len() <= haystack.len(),
    ensures
        r == occurs_at(haystack@, needle@, i as int),
{
    let mut k: usize = 0;
    while k < needle.len()
        invariant
            i + needle.len() <= haystack.len(),
            k <= needle.len(),
            forall|j: int| 0 <= j < k ==> haystack@[i + j] == needle@[j],
        decreases needle.len() - k,
    {
        if haystack[i + k] != needle[k] {
            return false;
        }
        k = k + 1;
    }
    true
}

/// Whether `needle` occurs in `haystack` (`str::contains`).
pub fn contains_chars(haystack: &Vec<char>, needle: &Vec<char>) -> (r: bool)
    ensures
        r == seq_contains(haystack@, needle@),
{
    if needle.len() > haystack.len() {
        return false;
    }
    let last = haystack.len() - needle.len();
    let mut i: usize = 0;
    while i <= last
        invariant
            last == haystack.len() - needle.len(),
            needle.len() <= haystack.len(),
            i <= last + 1,
            forall|j: int| 0 <= j < i ==> !occurs_at(haystack@, needle@, j),
        decreases last + 1 - i,
    {
        if occurs_at_exec(haystack, needle, i) {
            proof {
                lemma_occurs_at_subrange(haystack@, needle@, i as int);
            }
            return true;
        }
        i = i + 1;
    }
    proof {
        assert forall|j: int|
            0 <= j && j + needle@.len() <= haystack@.len() implies #[trigger] haystack@.subrange(
            j,
            j + needle@.len(),
        ) != needle@ by {
            lemma_occurs_at_subrange(haystack@, needle@, j);
        }
    }
    false
}


/// Every character kept by `strip_start` comes from `s`.
pub proof fn lemma_strip_start_keeps(s: Seq<char>, strip: spec_fn(char) -> bool, p: spec_fn(char) -> bool)
    requires
        forall|i: int| 0 <= i < s.len() ==> p(#[trigger] s[i]),
    ensures
        forall|i: int|
            0 <= i < strip_start(s, strip).len() ==> p(#[trigger] strip_start(s, strip)[i]),
    decreases s.len(),
{
    if s.len() > 0 && strip(s[0]) {
        assert forall|i: int| 0 <= i < s.drop_first().len() implies p(
            #[trigger] s.drop_first()[i],
        ) by {
            assert(s.drop_first()[i] == s[i + 1]);
        }
        lemma_strip_start_keeps(s.drop_first(), strip, p);
        assert(strip_start(s, strip) == strip_start(s.drop_first(), strip));
    }
}

/// Every character kept by `strip_end` comes from `s`.
pub proof fn lemma_strip_end_keeps(s: Seq<char>, strip: spec_fn(char) -> bool, p: spec_fn(char) -> bool)
    requires
        forall|i: int| 0 <= i < s.len() ==> p(#[trigger] s[i]),
    ensures
        forall|i: int| 0 <= i < strip_end(s, strip).len() ==> p(#[trigger] strip_end(s, strip)[i]),
    decreases s.len(),
{
    if s.len() > 0 && strip(s.last()) {
        assert forall|i: int| 0 <= i < s.drop_last().len() implies p(
            #[trigger] s.drop_last()[i],
        ) by {
            assert(s.drop_last()[i] == s[i]);
        }
        lemma_strip_end_keeps(s.drop_last(), strip, p);
        assert(strip_end(s, strip) == strip_end(s.drop_last(), strip));
    }
}

/// `collapse_ws` only keeps non-whitespace characters of `s` and inserts `sep`.
pub proof fn lemma_collapse_keeps(s: Seq<char>, sep: char, p: spec_fn(char) -> bool)
    requires
        forall|i: int| 0 <= i < s.len() && !is_ws(s[i]) ==> p(#[trigger] s[i]),
        p(sep),
    ensures
        forall|i: int| 0 <= i < collapse_ws(s, sep).len() ==> p(#[trigger] collapse_ws(s, sep)[i]),
    decreases s.len(),
{
    if s.len() > 0 {
        assert forall|i: int| 0 <= i < s.drop_last().len() && !is_ws(s.drop_last()[i]) implies p(
            #[trigger] s.drop_last()[i],
        ) by {
            assert(s.drop_last()[i] == s[i]);
        }
        lemma_collapse_keeps(s.drop_last(), sep, p);
        let q = collapse_ws(s.drop_last(), sep);
        let c = s.last();
        assert(!is_ws(c) ==> p(c));
        let r = collapse_ws(s, sep);
        assert forall|i: int| 0 <= i < r.len() implies p(#[trigger] r[i]) by {
            if i < q.len() {
                assert(r[i] == q[i]);
            }
        }
    }
}

/// On text whose whitespace is single spaces, none of them first,
/// `collapse_ws` with a space only drops a trailing space.
pub proof fn lemma_collapse_single_spaces(s: Seq<char>)
    requires
        s.len() > 0 ==> !is_ws(s[0]),
        forall|i: int| 0 <= i < s.len() && is_ws(s[i]) ==> s[i] == ' ',
        forall|i: int| 0 <= i < s.len() - 1 ==> !(is_ws(#[trigger] s[i]) && is_ws(s[i + 1])),
    ensures
        collapse_ws(s, ' ') == (if s.len() > 0 && is_ws(s.last()) {
            s.drop_last()
        } else {
            s
        }),
    decreases s.len(),
{
    if s.len() > 0 {
        let t = s.drop_last();
        assert forall|i: int| 0 <= i < t.len() - 1 implies !(is_ws(#[trigger] t[i]) && is_ws(t[i + 1])) by {
            assert(t[i] == s[i] && t[i + 1] == s[i + 1]);
        }
        lemma_collapse_single_spaces(t);
        let c = s.last();
        if t.len() > 0 && is_ws(t.last()) {
            assert(t.len() >= 2);
            assert(!is_ws(c)) by {
                assert(!(is_ws(s[s.len() - 2]) && is_ws(s[s.len() - 1])));
            }
            assert(t.last() == ' ');
            assert(t.drop_last().push(' ').push(c) =~= s);
        } else {
            assert(t.push(c) =~= s);
        }
    }
}

/// The last character of a non-empty `strip_end` result does not satisfy `strip`.
pub proof fn lemma_strip_end_last(s: Seq<char>, strip: spec_fn(char) -> bool)
    ensures
        strip_end(s, strip).len() > 0 ==> !strip(strip_end(s, strip).last()),
        strip_end(s, strip).len() <= s.len(),
        strip_end(s, strip) == s.take(strip_end(s, strip).len() as int),
    decreases s.len(),
{
    if s.len() > 0 && strip(s.last()) {
        lemma_strip_end_last(s.drop_last(), strip);
        assert(s.drop_last().take(strip_end(s, strip).len() as int) =~= s.take(
            strip_end(s, strip).len() as int,
        ));
    } else {
        assert(s.take(s.len() as int) =~= s);
    }
}

/// The first character of a non-empty `strip_start` result does not satisfy `strip`.
pub proof fn lemma_strip_start_first(s: Seq<char>, strip: spec_fn(char) -> bool)
    ensures
        strip_start(s, strip).len() > 0 ==> !strip(strip_start(s, strip)[0]),
    decreases s.len(),
{
    if s.len() > 0 && strip(s[0]) {
        lemma_strip_start_first(s.drop_first(), strip);
    }
}


/// `s` ends with `suffix` (`str::ends_with`).
pub open spec fn has_suffix(s: Seq<char>, suffix: Seq<char>) -> bool {
    suffix.len() <= s.len() && s.subrange(s.len() - suffix.len(), s.len() as int) == suffix
}

pub fn ends_with_chars(s: &Vec<char>, suffix: &Vec<char>) -> (r: bool)
    ensures
        r == has_suffix(s@, suffix@),
{
    if suffix.len() > s.len() {
        return false;
    }
    let off = s.len() - suffix.len();
    let mut k: usize = 0;
    while k < suffix.len()
        invariant
            off == s.len() - suffix.len(),
            k <= suffix.len(),
            forall|j: int| 0 <= j < k ==> s@[off + j] == suffix@[j],
        decreases suffix.len() - k,
    {
        if s[off + k] != suffix[k] {
            assert(s@.subrange(off as int, s.len() as int)[k as int] == s@[off + k]);
            return false;
        }
        k = k + 1;
    }
    assert(s@.subrange(off as int, s.len() as int) =~= suffix@);
    true
}

/// ASCII lower-casing of every character (`str::to_ascii_lowercase`).
pub fn ascii_lowercase_chars(v: &Vec<char>) -> (r: Vec<char>)
    ensures
        r@ == ascii_lowercase(v@),
{
    let mut r: Vec<char> = Vec::new();
    let mut i: usize = 0;
    while i < v.len()
        invariant
            i <= v.len(),
            r@ == ascii_lowercase(v@.take(i as int)),
        decreases v.len() - i,
    {
        r.push(char_ascii_lower(v[i]));
        i = i + 1;
        assert(r@ =~= ascii_lowercase(v@.take(i as int)));
    }
    assert(v@.take(v.len() as int) =~= v@);
    r
}

pub proof fn lemma_ascii_lowercase_concat(a: Seq<char>, b: Seq<char>)
    ensures
        ascii_lowercase(a + b) == ascii_lowercase(a) + ascii_lowercase(b),
{
    assert(ascii_lowercase(a + b) =~= ascii_lowercase(a) + ascii_lowercase(b));
}

/// Copies of the characters of `v` from `start` on (`&s[start..]`).
pub fn skip_chars(v: &Vec<char>, start: usize) -> (r: Vec<char>)
    requires
        start <= v.len(),
    ensures
        r@ == v@.skip(start as int),
{
    let r = slice_chars(v, start, v.len());
    assert(r@ =~= v@.skip(start as int));
    r
}

/// `str::trim_start_matches('.')` on a character vector.
pub fn strip_leading_dots(v: &Vec<char>) -> (r: Vec<char>)
    ensures
        r@ == strip_start(v@, dot_pred()),
{
    let a = strip_start_index(v, true);
    skip_chars(v, a)
}


/// The views of a list of strings.
pub open spec fn string_views(v: Seq<String>) -> Seq<Seq<char>> {
    v.map_values(|s: String| s@)
}

/// `parts` joined with `sep` between neighbours (`[T]::join`).
pub open spec fn joined(parts: Seq<Seq<char>>, sep: Seq<char>) -> Seq<char>
    decreases parts.len(),
{
    if parts.len() == 0 {
        Seq::<char>::empty()
    } else if parts.len() == 1 {
        parts[0]
    } else {
        joined(parts.drop_last(), sep) + sep + parts.last()
    }
}

/// Appends `parts` joined by `sep` to `out`.
pub fn push_joined(out: &mut Vec<char>, parts: &Vec<String>, sep: &str)
    ensures
        final(out)@ == old(out)@ + joined(string_views(parts@), sep@),
{
    let ghost start = out@;
    let ghost views = string_views(parts@);
    let mut i: usize = 0;
    while i < parts.len()
        invariant
            i <= parts.len(),
            views == string_views(parts@),
            out@ == start + joined(views.take(i as int), sep@),
        decreases parts.len() - i,
    {
        if i > 0 {
            push_str_chars(out, sep);
        }
        push_str_chars(out, parts[i].as_str());
        proof {
            let t = views.take(i + 1);
            assert(t.drop_last() =~= views.take(i as int));
            assert(t.last() == parts@[i as int]@);
            if i == 0 {
                assert(joined(views.take(0), sep@) =~= Seq::<char>::empty());
                assert(out@ =~= start + joined(t, sep@));
            } else {
                assert(out@ =~= start + joined(t, sep@));
            }
        }
        i = i + 1;
    }
    assert(views.take(parts.len() as int) =~= views);
}


/// Whether `needle` occurs in `haystack` at `i` or later, checked position by
/// position (its first two characters first).
pub open spec fn occurs_from(haystack: Seq<char>, needle: Seq<char>, i: nat) -> bool
    decreases haystack.len() + 1 - i,
{
    if i + needle.len() > haystack.len() {
        false
    } else {
        (needle.len() > 1 && haystack[i as int] == needle[0] && haystack[i + 1int] == needle[1]
            && occurs_at(haystack, needle, i as int)) || occurs_from(haystack, needle, i + 1)
    }
}

/// A needle of two or more characters that does not occur at `i` or later
/// is not contained from `i` on.
pub proof fn lemma_occurs_from(haystack: Seq<char>, needle: Seq<char>, i: nat)
    requires
        needle.len() > 1,
        !occurs_from(haystack, needle, i),
    ensures
        forall|j: int| i <= j ==> !occurs_at(haystack, needle, j),
        i == 0 ==> !seq_contains(haystack, needle),
    decreases haystack.len() + 1 - i,
{
    if i + needle.len() <= haystack.len() {
        lemma_occurs_from(haystack, needle, i + 1);
        if occurs_at(haystack, needle, i as int) {
            assert(haystack[i as int + 0] == needle[0]);
            assert(haystack[i as int + 1] == needle[1]);
        }
    }
    if i == 0 {
        assert forall|j: int|
            0 <= j && j + needle.len() <= haystack.len() implies #[trigger] haystack.subrange(
            j,
            j + needle.len(),
        ) != needle by {
            lemma_occurs_at_subrange(haystack, needle, j);
        }
    }
}


/// Text without surrounding whitespace is its own trim.
pub proof fn lemma_trim_of_trimmed(s: Seq<char>)
    requires
        s.len() > 0 ==> !is_ws(s[0]) && !is_ws(s.last()),
    ensures
        trim(s) == s,
{
    assert(strip_start(s, ws_pred()) == s);
}


} // verus!
