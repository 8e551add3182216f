//! Character-level text operations used throughout the client model,
//! stated over `Seq<char>` and implemented on `Vec<char>`/`String`.

use vstd::prelude::*;

use crate::seqs::keep;

verus! {

broadcast use vstd::string::group_string_axioms;

/// `char::is_whitespace`: the Unicode `White_Space` property.
pub open spec fn is_ws(c: char) -> bool {
    ||| c == '\t' || c == '\n' || c == '\u{0B}' || c == '\u{0C}' || c == '\r' || c == ' '
    ||| c == '\u{85}' || c == '\u{A0}' || c == '\u{1680}'
    ||| ('\u{2000}' <= c && c <= '\u{200A}')
    ||| c == '\u{2028}' || c == '\u{2029}' || c == '\u{202F}' || c == '\u{205F}'
    ||| c == '\u{3000}'
}

/// Drop leading whitespace.
pub open spec fn trim_start(s: Seq<char>) -> Seq<char>
    decreases s.len(),
{
    if s.len() > 0 && is_ws(s[0]) {
        trim_start(s.subrange(1, s.len() as int))
    } else {
        s
    }
}

/// Drop trailing whitespace.
pub open spec fn trim_end(s: Seq<char>) -> Seq<char>
    decreases s.len(),
{
    if s.len() > 0 && is_ws(s.last()) {
        trim_end(s.drop_last())
    } else {
        s
    }
}

/// `str::trim`.
pub open spec fn trim(s: Seq<char>) -> Seq<char> {
    trim_end(trim_start(s))
}

/// ASCII lower-casing of one character.
pub open spec fn lower_char(c: char) -> char {
    if 'A' <= c && c <= 'Z' {
        ((c as u32) + 32) as char
    } else {
        c
    }
}

/// `str::to_ascii_lowercase`.
pub open spec fn lower(s: Seq<char>) -> Seq<char> {
    s.map_values(|c: char| lower_char(c))
}

/// `needle` occurs in `hay` starting at index `i`.
pub open spec fn occurs_at(hay: Seq<char>, needle: Seq<char>, i: int) -> bool {
    0 <= i && i + needle.len() <= hay.len() && hay.subrange(i, i + needle.len()) == needle
}

/// `str::contains` for a string pattern.
pub open spec fn contains(hay: Seq<char>, needle: Seq<char>) -> bool {
    exists|i: int| occurs_at(hay, needle, i)
}

/// Case-insensitive (ASCII) containment, as used by every search box.
pub open spec fn contains_ci(hay: Seq<char>, needle: Seq<char>) -> bool {
    contains(lower(hay), needle)
}

/// Replace every occurrence of the character `c` by `r`.
pub open spec fn replace_char(s: Seq<char>, c: char, r: Seq<char>) -> Seq<char>
    decreases s.len(),
{
    if s.len() == 0 {
        Seq::empty()
    } else {
        replace_char(s.drop_last(), c, r) + (if s.last() == c {
            r
        } else {
            seq![s.last()]
        })
    }
}

/// Text wrapped in single quotes, each embedded quote written as `'"'"'`.
pub open spec fn shell_quote(s: Seq<char>) -> Seq<char> {
    seq!['\''] + replace_char(s, '\'', "'\"'\"'"@) + seq!['\'']
}

/// `Option<&str>` with blank values (after trimming) treated as absent.
pub open spec fn non_empty(v: Option<Seq<char>>) -> Option<Seq<char>> {
    match v {
        Some(s) => if trim(s).len() > 0 {
            Some(trim(s))
        } else {
            None
        },
        None => None,
    }
}

/// View of an `Option<String>`.
pub open spec fn opt_view(o: Option<String>) -> Option<Seq<char>> {
    match o {
        Some(s) => Some(s@),
        None => None,
    }
}

/// View of a `Vec<String>`.
pub open spec fn strs_view(v: Seq<String>) -> Seq<Seq<char>> {
    v.map_values(|s: String| s@)
}

/// Index of the first occurrence of `c` in `s`, if any.
pub open spec fn find_char(s: Seq<char>, c: char) -> Option<int> {
    if exists|i: int| 0 <= i < s.len() && s[i] == c {
        Some(choose|i: int| 0 <= i < s.len() && s[i] == c && forall|j: int| 0 <= j < i ==> s[j] != c)
    } else {
        None
    }
}

/// Index of the last occurrence of `c` in `s`, if any.
pub open spec fn rfind_char(s: Seq<char>, c: char) -> Option<int> {
    if exists|i: int| 0 <= i < s.len() && s[i] == c {
        Some(choose|i: int| 0 <= i < s.len() && s[i] == c && forall|j: int| i < j < s.len() ==> s[j] != c)
    } else {
        None
    }
}

/// First index of `c`.
pub fn find_char_exec(v: &[char], c: char) -> (r: Option<usize>)
    ensures
        match r {
            Some(i) => find_char(v@, c) == Some(i as int) && i < v@.len() && v@[i as int] == c
                && forall|j: int| 0 <= j < i ==> v@[j] != c,
            None => find_char(v@, c) is None && forall|j: int| 0 <= j < v@.len() ==> v@[j] != c,
        },
{
    let mut i: usize = 0;
    while i < v.len()
        invariant
            i <= v.len(),
            forall|j: int| 0 <= j < i ==> v@[j] != c,
        decreases v.len() - i,
    {
        if v[i] == c {
            proof {
                let w = choose|k: int| 0 <= k < v@.len() && v@[k] == c && forall|j: int| 0 <= j < k ==> v@[j] != c;
                if w < i {
                } else if w > i {
                    assert(v@[i as int] == c);
                }
            }
            return Some(i);
        }
        i = i + 1;
    }
    None
}

/// Last index of `c`.
pub fn rfind_char_exec(v: &[char], c: char) -> (r: Option<usize>)
    ensures
        match r {
            Some(i) => rfind_char(v@, c) == Some(i as int) && i < v@.len() && v@[i as int] == c
                && forall|j: int| i < j < v@.len() ==> v@[j] != c,
            None => rfind_char(v@, c) is None && forall|j: int| 0 <= j < v@.len() ==> v@[j] != c,
        },
{
    let mut i: usize = v.len();
    while i > 0
        invariant
            i <= v.len(),
            forall|j: int| i <= j < v@.len() ==> v@[j] != c,
        decreases i,
    {
        if v[i - 1] == c {
            proof {
                let w = choose|k: int| 0 <= k < v@.len() && v@[k] == c && forall|j: int| k < j < v@.len() ==> v@[j] != c;
                if w < i - 1 {
                    assert(v@[i - 1] == c);
                } else if w > i - 1 {
                }
            }
            return Some(i - 1);
        }
        i = i - 1;
    }
    None
}

/// Whether a list of strings holds `s`.
pub fn list_contains(list: &[String], s: &str) -> (b: bool)
    ensures
        b == strs_view(list@).contains(s@),
{
    let mut i: usize = 0;
    while i < list.len()
        invariant
            i <= list.len(),
            forall|j: int| 0 <= j < i ==> #[trigger] list@[j]@ != s@,
        decreases list.len() - i,
    {
        if str_eq(list[i].as_str(), s) {
            assert(strs_view(list@)[i as int] == s@);
            return true;
        }
        i = i + 1;
    }
    assert forall|j: int| 0 <= j < strs_view(list@).len() implies strs_view(list@)[j] != s@ by {
        assert(strs_view(list@)[j] == list@[j]@);
    }
    false
}

/// The decimal digit for `d < 10`.
pub open spec fn digit(d: nat) -> char {
    if d == 0 { '0' } else if d == 1 { '1' } else if d == 2 { '2' } else if d == 3 { '3' }
    else if d == 4 { '4' } else if d == 5 { '5' } else if d == 6 { '6' } else if d == 7 { '7' }
    else if d == 8 { '8' } else { '9' }
}

/// Decimal rendering of a natural number (what `{}` prints).
pub open spec fn dec(n: nat) -> Seq<char>
    decreases n,
{
    if n < 10 {
        seq![digit(n)]
    } else {
        dec(n / 10).push(digit(n % 10))
    }
}

fn digit_exec(d: u64) -> (c: char)
    requires
        d < 10,
    ensures
        c == digit(d as nat),
{
    if d == 0 { '0' } else if d == 1 { '1' } else if d == 2 { '2' } else if d == 3 { '3' }
    else if d == 4 { '4' } else if d == 5 { '5' } else if d == 6 { '6' } else if d == 7 { '7' }
    else if d == 8 { '8' } else { '9' }
}

/// Append the decimal rendering of `n`.
pub fn push_decimal(out: &mut String, n: u64)
    ensures
        final(out)@ == old(out)@ + dec(n as nat),
{
    let mut digits: Vec<char> = Vec::new();
    let mut m: u64 = n;
    assert(dec(n as nat) =~= dec(m as nat) + digits@);
    loop
        invariant_except_break
            dec(n as nat) == dec(m as nat) + digits@,
        ensures
            dec(n as nat) == digits@,
        decreases m,
    {
        let d = m % 10;
        digits.insert(0, digit_exec(d));
        if m < 10 {
            assert(dec(m as nat) == seq![digit(m as nat)]);
            assert(dec(n as nat) =~= digits@);
            break;
        }
        assert(dec(m as nat) == dec((m / 10) as nat).push(digit((m % 10) as nat)));
        m = m / 10;
        assert(dec(n as nat) =~= dec(m as nat) + digits@);
    }
    let s = string_from(digits.as_slice());
    out.append(s.as_str());
}

/// The part of `s` before its first line break (all of `s` if none).
pub open spec fn line_one(s: Seq<char>) -> Seq<char> {
    match find_char(s, '\n') {
        Some(i) => s.take(i),
        None => s,
    }
}

/// Whether some string of the list contains `needle` after ASCII lower-casing.
pub open spec fn any_contains_ci(list: Seq<Seq<char>>, needle: Seq<char>) -> bool {
    exists|i: int| 0 <= i < list.len() && contains_ci(#[trigger] list[i], needle)
}

/// Executable `any_contains_ci`.
pub fn any_contains_ci_exec(list: &[String], needle: &[char]) -> (b: bool)
    ensures
        b == any_contains_ci(strs_view(list@), needle@),
{
    let mut i: usize = 0;
    while i < list.len()
        invariant
            i <= list.len(),
            forall|j: int| 0 <= j < i ==> !contains_ci(#[trigger] strs_view(list@)[j], needle@),
        decreases list.len() - i,
    {
        if contains_ci_exec(list[i].as_str(), needle) {
            assert(contains_ci(strs_view(list@)[i as int], needle@));
            return true;
        }
        i = i + 1;
    }
    false
}

/// Executable `line_one`.
pub fn line_one_exec(s: &str) -> (r: &str)
    ensures
        r@ == line_one(s@),
{
    let v = chars_of(s);
    match find_char_exec(v.as_slice(), '\n') {
        Some(i) => s.substring_char(0, i),
        None => s,
    }
}

/// `Path::join` on `/`-separated paths: an absolute segment replaces the
/// base, otherwise a separator is added when the base lacks one.
pub open spec fn join_path(base: Seq<char>, seg: Seq<char>) -> Seq<char> {
    if seg.len() > 0 && seg[0] == '/' {
        seg
    } else if base.len() == 0 {
        seg
    } else if base.last() == '/' {
        base + seg
    } else {
        base + seq!['/'] + seg
    }
}

/// Executable `join_path`.
pub fn join_path_exec(base: &str, seg: &str) -> (r: String)
    ensures
        r@ == join_path(base@, seg@),
{
    let s = chars_of(seg);
    let b = chars_of(base);
    if s.len() > 0 && s[0] == '/' {
        return owned(seg);
    }
    if b.len() == 0 {
        return owned(seg);
    }
    let mut r = owned(base);
    if b[b.len() - 1] != '/' {
        push_char(&mut r, '/');
    }
    r.append(seg);
    r
}

/// Append one character to a `String`.
#[verifier::external_body]
pub(crate) fn push_char(s: &mut String, c: char)
    ensures
        final(s)@ == old(s)@.push(c),
{
    s.push(c);
}

/// Characters of a string slice.
pub fn chars_of(s: &str) -> (v: Vec<char>)
    ensures
        v@ == s@,
{
    let mut v: Vec<char> = Vec::new();
    let n = s.unicode_len();
    let mut i: usize = 0;
    while i < n
        invariant
            n == s@.len(),
            i <= n,
            v@ == s@.take(i as int),
        decreases n - i,
    {
        let c = s.get_char(i);
        v.push(c);
        i = i + 1;
        assert(v@ =~= s@.take(i as int));
    }
    assert(v@ =~= s@);
    v
}

/// Build a `String` from characters.
pub fn string_from(v: &[char]) -> (s: String)
    ensures
        s@ == v@,
{
    let mut s = String::new();
    let mut i: usize = 0;
    while i < v.len()
        invariant
            i <= v.len(),
            s@ == v@.take(i as int),
        decreases v.len() - i,
    {
        push_char(&mut s, v[i]);
        i = i + 1;
        assert(s@ =~= v@.take(i as int));
    }
    assert(s@ =~= v@);
    s
}

/// Owned copy of a string slice.
pub fn owned(s: &str) -> (r: String)
    ensures
        r@ == s@,
{
    s.to_owned()
}

/// Concatenation of two slices into a new `String`.
pub fn concat2(a: &str, b: &str) -> (r: String)
    ensures
        r@ == a@ + b@,
{
    let mut r = a.to_owned();
    r.append(b);
    r
}

/// Concatenation of three slices into a new `String`.
pub fn concat3(a: &str, b: &str, c: &str) -> (r: String)
    ensures
        r@ == a@ + b@ + c@,
{
    let mut r = a.to_owned();
    r.append(b);
    r.append(c);
    r
}

/// Executable `is_ws`.
pub fn is_whitespace(c: char) -> (b: bool)
    ensures
        b == is_ws(c),
{
    c == '\t' || c == '\n' || c == '\u{0B}' || c == '\u{0C}' || c == '\r' || c == ' '
        || c == '\u{85}' || c == '\u{A0}' || c == '\u{1680}' || ('\u{2000}' <= c
        && c <= '\u{200A}') || c == '\u{2028}' || c == '\u{2029}' || c == '\u{202F}' || c
        == '\u{205F}' || c == '\u{3000}'
}

proof fn lemma_trim_start_step(s: Seq<char>, i: int)
    requires
        0 <= i < s.len(),
        is_ws(s[i]),
    ensures
        trim_start(s.subrange(i, s.len() as int)) == trim_start(s.subrange(i + 1, s.len() as int)),
{
    let t = s.subrange(i, s.len() as int);
    assert(t.subrange(1, t.len() as int) =~= s.subrange(i + 1, s.len() as int));
}

proof fn lemma_trim_end_step(s: Seq<char>, j: int)
    requires
        0 < j <= s.len(),
        is_ws(s[j - 1]),
    ensures
        trim_end(s.take(j)) == trim_end(s.take(j - 1)),
{
    assert(s.take(j).drop_last() =~= s.take(j - 1));
}

/// Bounds `(a, b)` such that `s[a..b]` is `trim(s)`.
pub fn trim_bounds(v: &[char]) -> (r: (usize, usize))
    ensures
        r.0 <= r.1 <= v@.len(),
        v@.subrange(r.0 as int, r.1 as int) == trim(v@),
{
    let n = v.len();
    let mut a: usize = 0;
    assert(v@.subrange(0, n as int) =~= v@);
    while a < n && is_whitespace(v[a])
        invariant
            n == v@.len(),
            a <= n,
            trim_start(v@) == trim_start(v@.subrange(a as int, n as int)),
        decreases n - a,
    {
        proof {
            lemma_trim_start_step(v@, a as int);
        }
        a = a + 1;
    }
    let ghost t = v@.subrange(a as int, n as int);
    assert(trim_start(t) == t);
    assert(trim_start(v@) == t);
    let mut b: usize = n;
    assert(t.take(n - a) =~= t);
    while b > a && is_whitespace(v[b - 1])
        invariant
            n == v@.len(),
            a <= b <= n,
            t == v@.subrange(a as int, n as int),
            trim_end(t) == trim_end(t.take(b - a)),
        decreases b,
    {
        proof {
            lemma_trim_end_step(t, b - a);
        }
        b = b - 1;
    }
    assert(trim_end(t.take(b - a)) == t.take(b - a));
    assert(t.take(b - a) =~= v@.subrange(a as int, b as int));
    (a, b)
}

/// `str::trim`, returning a slice of the input.
pub fn trimmed(s: &str) -> (r: &str)
    ensures
        r@ == trim(s@),
{
    let v = chars_of(s);
    let (a, b) = trim_bounds(v.as_slice());
    s.substring_char(a, b)
}

/// Executable `lower_char`.
pub fn lower_char_exec(c: char) -> (r: char)
    ensures
        r == lower_char(c),
{
    if 'A' <= c && c <= 'Z' {
        let u: u32 = c as u32;
        assert(65 <= u <= 90);
        let l: u32 = u + 32;
        assert(97 <= l <= 122);
        let b: u8 = l as u8;
        b as char
    } else {
        c
    }
}

/// `to_ascii_lowercase` over characters.
pub fn lower_chars(v: &[char]) -> (r: Vec<char>)
    ensures
        r@ == lower(v@),
{
    let mut r: Vec<char> = Vec::new();
    let mut i: usize = 0;
    while i < v.len()
        invariant
            i <= v.len(),
            r@ == lower(v@.take(i as int)),
        decreases v.len() - i,
    {
        r.push(lower_char_exec(v[i]));
        i = i + 1;
        assert(r@ =~= lower(v@.take(i as int)));
    }
    assert(v@.take(v.len() as int) =~= v@);
    r
}

/// Whether `needle` occurs at position `i` of `hay`.
pub fn matches_at(hay: &[char], needle: &[char], i: usize) -> (b: bool)
    requires
        i + needle.len() <= hay.len(),
    ensures
        b == occurs_at(hay@, needle@, i as int),
{
    let mut k: usize = 0;
    while k < needle.len()
        invariant
            i + needle.len() <= hay.len(),
            k <= needle.len(),
            forall|j: int| 0 <= j < k ==> hay@[i + j] == needle@[j],
        decreases needle.len() - k,
    {
        if hay[i + k] != needle[k] {
            assert(hay@.subrange(i as int, i + needle.len())[k as int] != needle@[k as int]);
            return false;
        }
        k = k + 1;
    }
    assert(hay@.subrange(i as int, i + needle.len()) =~= needle@);
    true
}

/// `contains` over characters.
pub fn contains_chars(hay: &[char], needle: &[char]) -> (b: bool)
    ensures
        b == contains(hay@, needle@),
{
    if needle.len() > hay.len() {
        return false;
    }
    let last = hay.len() - needle.len();
    let mut i: usize = 0;
    while i <= last
        invariant
            last == hay.len() - needle.len(),
            needle.len() <= hay.len(),
            i <= last + 1,
            forall|j: int| 0 <= j < i ==> !occurs_at(hay@, needle@, j),
        decreases last + 1 - i,
    {
        if matches_at(hay, needle, i) {
            return true;
        }
        if i == last {
            return false;
        }
        i = i + 1;
    }
    false
}

/// `hay.to_ascii_lowercase().contains(needle)`.
pub fn contains_ci_exec(hay: &str, needle: &[char]) -> (b: bool)
    ensures
        b == contains_ci(hay@, needle@),
{
    let h = chars_of(hay);
    let l = lower_chars(h.as_slice());
    contains_chars(l.as_slice(), needle)
}

/// `replace_char` appended onto `out`.
pub fn push_replaced(out: &mut String, s: &str, c: char, r: &str)
    ensures
        final(out)@ == old(out)@ + replace_char(s@, c, r@),
{
    let v = chars_of(s);
    let mut i: usize = 0;
    while i < v.len()
        invariant
            i <= v.len(),
            v@ == s@,
            out@ == old(out)@ + replace_char(v@.take(i as int), c, r@),
        decreases v.len() - i,
    {
        let ghost prev = out@;
        if v[i] == c {
            out.append(r);
        } else {
            push_char(out, v[i]);
        }
        proof {
            let t = v@.take(i + 1);
            assert(t.drop_last() =~= v@.take(i as int));
            assert(t.last() == v@[i as int]);
        }
        i = i + 1;
        assert(out@ =~= old(out)@ + replace_char(v@.take(i as int), c, r@));
    }
    assert(v@.take(v.len() as int) =~= v@);
}

/// Single-quote a value for a POSIX shell.
pub fn shell_quote_exec(s: &str) -> (r: String)
    ensures
        r@ == shell_quote(s@),
{
    let mut out = String::new();
    push_char(&mut out, '\'');
    push_replaced(&mut out, s, '\'', "'\"'\"'");
    push_char(&mut out, '\'');
    assert(out@ =~= shell_quote(s@));
    out
}

/// `value.map(str::trim).filter(|v| !v.is_empty())`.
pub fn non_empty_exec(value: Option<&str>) -> (r: Option<&str>)
    ensures
        match r {
            Some(t) => non_empty(match value {
                Some(v) => Some(v@),
                None => None,
            }) == Some(t@),
            None => non_empty(match value {
                Some(v) => Some(v@),
                None => None,
            }) is None,
        },
{
    match value {
        None => None,
        Some(v) => {
            let t = trimmed(v);
            if t.unicode_len() == 0 {
                None
            } else {
                Some(t)
            }
        },
    }
}

/// `non_empty` of a borrowed optional `String`.
pub fn non_empty_opt(value: &Option<String>) -> (r: Option<&str>)
    ensures
        match r {
            Some(t) => non_empty(opt_view(*value)) == Some(t@),
            None => non_empty(opt_view(*value)) is None,
        },
{
    match value {
        None => None,
        Some(v) => non_empty_exec(Some(v.as_str())),
    }
}

/// String equality.
pub fn str_eq(a: &str, b: &str) -> (r: bool)
    ensures
        r == (a@ == b@),
{
    let n = a.unicode_len();
    if n != b.unicode_len() {
        return false;
    }
    let va = chars_of(a);
    let vb = chars_of(b);
    let mut i: usize = 0;
    while i < n
        invariant
            n == va@.len(),
            n == vb@.len(),
            va@ == a@,
            vb@ == b@,
            i <= n,
            forall|j: int| 0 <= j < i ==> va@[j] == vb@[j],
        decreases n - i,
    {
        if va[i] != vb[i] {
            return false;
        }
        i = i + 1;
    }
    assert(va@ =~= vb@);
    true
}

/// What `str::to_lowercase` returns for a string: its Unicode lower-case
/// mapping.
pub uninterp spec fn unicode_lowercase(s: Seq<char>) -> Seq<char>;

/// `str::to_lowercase`.
///
/// The result is the Unicode lower-case mapping of the argument, which
/// depends on the argument alone; its rules are Unicode's case tables and
/// are not written out here, only named.
#[verifier::external_body]
pub fn to_lowercase(s: &str) -> (r: String)
    ensures
        r@ == unicode_lowercase(s@),
{
    s.to_lowercase()
}

/// The pieces of `str::split` on the character `c`: the runs between
/// occurrences of `c`, empty ones included.
pub open spec fn split_char(s: Seq<char>, c: char) -> Seq<Seq<char>>
    decreases s.len(),
{
    if s.len() == 0 {
        seq![Seq::empty()]
    } else {
        let prev = split_char(s.drop_last(), c);
        if s.last() == c {
            prev.push(Seq::empty())
        } else {
            prev.update(prev.len() - 1, prev.last().push(s.last()))
        }
    }
}

/// A comma-separated list as typed in a form: each item trimmed, blank
/// items dropped.
pub open spec fn list_items(s: Seq<char>) -> Seq<Seq<char>> {
    keep(split_char(s, ',').map_values(|p: Seq<char>| trim(p)), |p: Seq<char>| p.len() > 0)
}

/// Append the trimmed `piece` to `out` unless it is blank.
fn push_item(out: &mut Vec<String>, piece: &[char])
    ensures
        strs_view(final(out)@) == if trim(piece@).len() > 0 {
            strs_view(old(out)@).push(trim(piece@))
        } else {
            strs_view(old(out)@)
        },
{
    let whole = string_from(piece);
    let t = trimmed(whole.as_str());
    if t.unicode_len() > 0 {
        out.push(owned(t));
        assert(strs_view(out@) =~= strs_view(old(out)@).push(trim(piece@)));
    }
}

/// `s.split(',').map(str::trim).filter(|p| !p.is_empty())`, collected.
pub fn list_items_exec(s: &str) -> (r: Vec<String>)
    ensures
        strs_view(r@) == list_items(s@),
{
    let v = chars_of(s);
    let ghost tr = |p: Seq<char>| trim(p);
    let ghost ne = |p: Seq<char>| p.len() > 0;
    let mut out: Vec<String> = Vec::new();
    let mut current: Vec<char> = Vec::new();
    let mut k: usize = 0;
    assert(v@.take(0) =~= Seq::<char>::empty());
    while k < v.len()
        invariant
            k <= v@.len(),
            v@ == s@,
            tr == (|p: Seq<char>| trim(p)),
            ne == (|p: Seq<char>| p.len() > 0),
            split_char(v@.take(k as int), ',').len() >= 1,
            current@ == split_char(v@.take(k as int), ',').last(),
            strs_view(out@) == keep(split_char(v@.take(k as int), ',').drop_last().map_values(tr), ne),
        decreases v@.len() - k,
    {
        let ghost pieces = split_char(v@.take(k as int), ',');
        let ghost t1 = v@.take(k + 1);
        assert(t1.drop_last() =~= v@.take(k as int));
        assert(t1.last() == v@[k as int]);
        if v[k] == ',' {
            push_item(&mut out, current.as_slice());
            proof {
                let m = pieces.map_values(tr);
                assert(m =~= pieces.drop_last().map_values(tr).push(trim(pieces.last())));
                assert(m.drop_last() =~= pieces.drop_last().map_values(tr));
                assert(split_char(t1, ',').drop_last() =~= pieces);
            }
            current = Vec::new();
            assert(current@ =~= Seq::<char>::empty());
        } else {
            current.push(v[k]);
            proof {
                let next = split_char(t1, ',');
                assert(next.drop_last() =~= pieces.drop_last());
            }
        }
        k = k + 1;
    }
    assert(v@.take(v@.len() as int) =~= v@);
    push_item(&mut out, current.as_slice());
    proof {
        let pieces = split_char(v@, ',');
        let m = pieces.map_values(tr);
        assert(m =~= pieces.drop_last().map_values(tr).push(trim(pieces.last())));
        assert(m.drop_last() =~= pieces.drop_last().map_values(tr));
    }
    out
}

/// `trim_end` keeps a prefix that, unless empty, ends in a non-space.
proof fn lemma_trim_end_shape(s: Seq<char>)
    ensures
        trim_end(s).len() <= s.len(),
        trim_end(s) == s.take(trim_end(s).len() as int),
        trim_end(s).len() > 0 ==> !is_ws(trim_end(s).last()),
    decreases s.len(),
{
    if s.len() > 0 && is_ws(s.last()) {
        lemma_trim_end_shape(s.drop_last());
        let t = trim_end(s.drop_last());
        assert(s.drop_last().take(t.len() as int) =~= s.take(t.len() as int));
    } else {
        assert(s.take(s.len() as int) =~= s);
    }
}

/// `trim_start` keeps a suffix that, unless empty, starts with a non-space.
proof fn lemma_trim_start_shape(s: Seq<char>)
    ensures
        trim_start(s).len() > 0 ==> !is_ws(trim_start(s)[0]),
    decreases s.len(),
{
    if s.len() > 0 && is_ws(s[0]) {
        lemma_trim_start_shape(s.subrange(1, s.len() as int));
    }
}

/// Trimming twice is trimming once.
pub proof fn lemma_trim_idempotent(s: Seq<char>)
    ensures
        trim(trim(s)) == trim(s),
{
    let t = trim_start(s);
    let r = trim_end(t);
    lemma_trim_start_shape(s);
    lemma_trim_end_shape(t);
    if r.len() > 0 {
        assert(r[0] == t[0]);
        assert(trim_start(r) == r);
        assert(trim_end(r) == r);
    } else {
        assert(trim_start(r) == r);
    }
}

/// Lower-casing a character keeps whether it is whitespace, and a
/// lower-cased character stays as it is when lower-cased again.
pub proof fn lemma_lower_char(c: char)
    ensures
        is_ws(lower_char(c)) == is_ws(c),
        lower_char(lower_char(c)) == lower_char(c),
{
    if 'A' <= c && c <= 'Z' {
        assert('a' <= lower_char(c) && lower_char(c) <= 'z');
    }
}

/// Lower-casing twice is lower-casing once.
pub proof fn lemma_lower_idempotent(s: Seq<char>)
    ensures
        lower(lower(s)) == lower(s),
{
    assert forall|i: int| 0 <= i < s.len() implies #[trigger] lower(lower(s))[i] == lower(s)[i] by {
        lemma_lower_char(s[i]);
    }
    assert(lower(lower(s)) =~= lower(s));
}

/// Leading whitespace is the same before and after lower-casing.
proof fn lemma_trim_start_lower(s: Seq<char>)
    ensures
        trim_start(lower(s)) == lower(trim_start(s)),
    decreases s.len(),
{
    if s.len() > 0 {
        lemma_lower_char(s[0]);
        assert(lower(s)[0] == lower_char(s[0]));
        if is_ws(s[0]) {
            assert(lower(s).subrange(1, s.len() as int) =~= lower(s.subrange(1, s.len() as int)));
            lemma_trim_start_lower(s.subrange(1, s.len() as int));
        }
    }
}

/// Trailing whitespace is the same before and after lower-casing.
proof fn lemma_trim_end_lower(s: Seq<char>)
    ensures
        trim_end(lower(s)) == lower(trim_end(s)),
    decreases s.len(),
{
    if s.len() > 0 {
        lemma_lower_char(s.last());
        assert(lower(s).last() == lower_char(s.last()));
        if is_ws(s.last()) {
            assert(lower(s).drop_last() =~= lower(s.drop_last()));
            lemma_trim_end_lower(s.drop_last());
        }
    }
}

/// Trimming and lower-casing commute.
pub proof fn lemma_trim_lower(s: Seq<char>)
    ensures
        trim(lower(s)) == lower(trim(s)),
{
    lemma_trim_start_lower(s);
    lemma_trim_end_lower(trim_start(s));
}

} // verus!
