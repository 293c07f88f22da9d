//! Character-sequence operations on which the rules, the PAC script and the
//! request rewriting are built, each with its mathematical definition.
use vstd::prelude::*;

verus! {

// ---------------------------------------------------------------------------
// Definitions
// ---------------------------------------------------------------------------

/// Unicode `White_Space`, the property behind `char::is_whitespace` and `str::trim`.
pub open spec fn is_white_space(c: char) -> bool {
    ||| ('\t' <= c && c <= '\r')
    ||| c == ' '
    ||| c == '\u{85}'
    ||| c == '\u{a0}'
    ||| c == '\u{1680}'
    ||| ('\u{2000}' <= c && c <= '\u{200a}')
    ||| c == '\u{2028}'
    ||| c == '\u{2029}'
    ||| c == '\u{202f}'
    ||| c == '\u{205f}'
    ||| c == '\u{3000}'
}

/// `s` without its leading white space.
pub open spec fn trim_start(s: Seq<char>) -> Seq<char>
    decreases s.len(),
{
    if s.len() > 0 && is_white_space(s[0]) {
        trim_start(s.drop_first())
    } else {
        s
    }
}

/// `s` without its trailing white space.
pub open spec fn trim_end(s: Seq<char>) -> Seq<char>
    decreases s.len(),
{
    if s.len() > 0 && is_white_space(s.last()) {
        trim_end(s.drop_last())
    } else {
        s
    }
}

/// `s` without leading and trailing white space (`str::trim`).
pub open spec fn trim(s: Seq<char>) -> Seq<char> {
    trim_end(trim_start(s))
}

/// `s` without every trailing `c` (`str::trim_end_matches` with a `char`).
pub open spec fn trim_end_matches(s: Seq<char>, c: char) -> Seq<char>
    decreases s.len(),
{
    if s.len() > 0 && s.last() == c {
        trim_end_matches(s.drop_last(), c)
    } else {
        s
    }
}

/// ASCII lower case of one character; every other character is kept.
pub open spec fn lower_char(c: char) -> char {
    if 'A' <= c && c <= 'Z' {
        ((c as u32) + 32) as char
    } else {
        c
    }
}

/// `str::to_ascii_lowercase`.
pub open spec fn ascii_lower(s: Seq<char>) -> Seq<char> {
    Seq::new(s.len(), |i: int| lower_char(s[i]))
}

/// The part of `s` before the first `c` (all of `s` when `c` does not occur):
/// the first item of `str::split(c)`.
pub open spec fn before_first(s: Seq<char>, c: char) -> Seq<char>
    decreases s.len(),
{
    if s.len() == 0 {
        s
    } else if s[0] == c {
        Seq::empty()
    } else {
        seq![s[0]] + before_first(s.drop_first(), c)
    }
}

/// `pat` occurs in `s` at index `i`.
pub open spec fn occurs_at(s: Seq<char>, pat: Seq<char>, i: int) -> bool {
    0 <= i && i + pat.len() <= s.len() && s.subrange(i, i + pat.len()) == pat
}

/// `pat` occurs somewhere in `s` (`str::contains`).
pub open spec fn contains(s: Seq<char>, pat: Seq<char>) -> bool {
    exists|i: int| occurs_at(s, pat, i)
}

/// `s` begins with `p` (`str::starts_with`).
pub open spec fn starts_with(s: Seq<char>, p: Seq<char>) -> bool {
    p.len() <= s.len() && s.subrange(0, p.len() as int) == p
}

/// `str::replace` for a non-empty pattern: the occurrences of `pat`, found from
/// left to right without overlap, each replaced by `rep`.
pub open spec fn replace_all(s: Seq<char>, pat: Seq<char>, rep: Seq<char>) -> Seq<char>
    recommends
        pat.len() > 0,
    decreases s.len(),
{
    if pat.len() == 0 || s.len() < pat.len() {
        s
    } else if s.subrange(0, pat.len() as int) == pat {
        rep + replace_all(s.subrange(pat.len() as int, s.len() as int), pat, rep)
    } else {
        seq![s[0]] + replace_all(s.drop_first(), pat, rep)
    }
}

/// The decimal digit for `d < 10`.
pub open spec fn digit_char(d: nat) -> char {
    (48 + d) as char
}

/// Decimal representation of `n` without leading zeros (`n.to_string()`).
pub open spec fn decimal(n: nat) -> Seq<char>
    decreases n,
{
    if n < 10 {
        seq![digit_char(n)]
    } else {
        decimal(n / 10).push(digit_char(n % 10))
    }
}

/// The elements of `parts` with `sep` between each two (`[String]::join`).
pub open spec fn join(parts: Seq<Seq<char>>, sep: Seq<char>) -> Seq<char>
    decreases parts.len(),
{
    if parts.len() == 0 {
        Seq::empty()
    } else if parts.len() == 1 {
        parts[0]
    } else {
        join(parts.drop_last(), sep) + sep + parts.last()
    }
}

/// The characters of an optional `String`.
pub open spec fn opt_chars(o: Option<String>) -> Option<Seq<char>> {
    match o {
        Some(s) => Some(s@),
        None => None,
    }
}

/// An ASCII letter.
pub open spec fn is_ascii_letter(c: char) -> bool {
    ('A' <= c && c <= 'Z') || ('a' <= c && c <= 'z')
}

/// A Windows path that is nothing but a drive, such as `C:`.
pub open spec fn is_bare_drive(base: Seq<char>) -> bool {
    base.len() == 2 && is_ascii_letter(base[0]) && base[1] == ':'
}

/// `base` joined with the relative path `rel` as `Path::join` does where the
/// main separator is `sep` (and `/` is a separator too): `sep` goes between
/// them unless `base` is empty, already ends with a separator, or, on
/// Windows (`sep` a backslash), is a bare drive such as `C:`. A `rel` with a
/// root or a prefix, and a verbatim (`\\?\`) `base`, are outside what this
/// describes.
pub open spec fn join_path_with(base: Seq<char>, rel: Seq<char>, sep: char) -> Seq<char> {
    if base.len() == 0 || base.last() == '/' || base.last() == sep || (sep == '\\'
        && is_bare_drive(base)) {
        base + rel
    } else {
        base + seq![sep] + rel
    }
}

/// `base` joined with the relative path `rel` as `Path::join` does on a
/// system whose separator is `/`.
pub open spec fn join_path(base: Seq<char>, rel: Seq<char>) -> Seq<char> {
    join_path_with(base, rel, '/')
}

// ---------------------------------------------------------------------------
// Conversions between `str`/`String` and character vectors
// ---------------------------------------------------------------------------

/// The characters of `s`, in the order `str::chars` yields them.
pub fn chars_of(s: &str) -> (r: Vec<char>)
    ensures
        r@ == s@,
{
    broadcast use vstd::string::axiom_spec_iter;
    let mut v: Vec<char> = Vec::new();
    for c in it: s.chars()
        invariant
            it.seq() == s@,
            v@ == s@.take(it.index()),
    {
        v.push(c);
        assert(s@.take(it.index() + 1) =~= s@.take(it.index()).push(c));
    }
    assert(s@.take(s@.len() as int) =~= s@);
    v
}

/// A `String` holding the characters of `v`, collected with `FromIterator<&char>`.
#[verifier::external_body]
pub fn string_of(v: &[char]) -> (r: String)
    ensures
        r@ == v@,
{
    v.iter().collect()
}

/// A `String` holding a copy of `s` (`str::to_string`).
pub fn owned(s: &str) -> (r: String)
    ensures
        r@ == s@,
{
    s.to_owned()
}

/// Appends the characters of `s` to `v`.
pub fn push_str(v: &mut Vec<char>, s: &str)
    ensures
        final(v)@ == old(v)@ + s@,
{
    let cs = chars_of(s);
    push_chars(v, &cs);
}

/// Appends the characters of `s` to `v`.
pub fn push_chars(v: &mut Vec<char>, s: &[char])
    ensures
        final(v)@ == old(v)@ + s@,
{
    let ghost start = v@;
    let mut i: usize = 0;
    while i < s.len()
        invariant
            i <= s@.len(),
            v@ == start + s@.subrange(0, i as int),
        decreases s@.len() - i,
    {
        v.push(s[i]);
        i = i + 1;
        assert(s@.subrange(0, i as int) =~= s@.subrange(0, i - 1) + seq![s@[i - 1]]);
    }
    assert(s@.subrange(0, s@.len() as int) =~= s@);
}

// ---------------------------------------------------------------------------
// Implementations
// ---------------------------------------------------------------------------

/// `base` joined with the relative path `rel`, with the separator `sep`.
pub fn join_path_with_str(base: &str, rel: &str, sep: char) -> (r: String)
    ensures
        r@ == join_path_with(base@, rel@, sep),
{
    let b = chars_of(base);
    let mut out: Vec<char> = Vec::new();
    push_chars(&mut out, &b);
    let bare_drive = b.len() == 2 && (('A' <= b[0] && b[0] <= 'Z') || ('a' <= b[0] && b[0]
        <= 'z')) && b[1] == ':';
    if b.len() > 0 && b[b.len() - 1] != '/' && b[b.len() - 1] != sep && !(sep == '\\'
        && bare_drive) {
        out.push(sep);
    }
    push_str(&mut out, rel);
    string_of(&out)
}

/// `base` joined with the relative path `rel`, with the separator `/`.
pub fn join_path_str(base: &str, rel: &str) -> (r: String)
    ensures
        r@ == join_path(base@, rel@),
{
    join_path_with_str(base, rel, '/')
}

/// Whether two character sequences are equal.
pub fn eq_chars(a: &[char], b: &[char]) -> (r: bool)
    ensures
        r == (a@ == b@),
{
    if a.len() != b.len() {
        return false;
    }
    let mut k: usize = 0;
    while k < a.len()
        invariant
            a@.len() == b@.len(),
            k <= a@.len(),
            forall|m: int| 0 <= m < k ==> a@[m] == b@[m],
        decreases a@.len() - k,
    {
        if a[k] != b[k] {
            return false;
        }
        k = k + 1;
    }
    assert(a@ =~= b@);
    true
}

/// Whether two strings hold the same characters.
pub fn eq_str(a: &str, b: &str) -> (r: bool)
    ensures
        r == (a@ == b@),
{
    let x = chars_of(a);
    let y = chars_of(b);
    eq_chars(&x, &y)
}

/// `char::is_whitespace`.
pub fn is_white_space_char(c: char) -> (r: bool)
    ensures
        r == is_white_space(c),
{
    ('\t' <= c && c <= '\r') || c == ' ' || c == '\u{85}' || c == '\u{a0}' || c == '\u{1680}'
        || ('\u{2000}' <= c && c <= '\u{200a}') || c == '\u{2028}' || c == '\u{2029}' || c
        == '\u{202f}' || c == '\u{205f}' || c == '\u{3000}'
}

/// `trim_start(s)` is `s` from the first character that is not white space.
proof fn lemma_trim_start_skip(s: Seq<char>, i: int)
    requires
        0 <= i <= s.len(),
        forall|k: int| 0 <= k < i ==> is_white_space(#[trigger] s[k]),
    ensures
        trim_start(s) == trim_start(s.skip(i)),
    decreases i,
{
    if i > 0 {
        lemma_trim_start_skip(s, i - 1);
        let t = s.skip(i - 1);
        assert(t[0] == s[i - 1]);
        assert(is_white_space(t[0]));
        assert(t.drop_first() =~= s.skip(i));
        assert(trim_start(t) == trim_start(t.drop_first()));
    } else {
        assert(s.skip(0) =~= s);
    }
}

/// `trim_end(s)` is `s` up to the last character that is not white space.
proof fn lemma_trim_end_take(s: Seq<char>, j: int)
    requires
        0 <= j <= s.len(),
        forall|k: int| j <= k < s.len() ==> is_white_space(#[trigger] s[k]),
    ensures
        trim_end(s) == trim_end(s.take(j)),
    decreases s.len() - j,
{
    if j < s.len() {
        lemma_trim_end_take(s, j + 1);
        assert(s.take(j + 1).drop_last() =~= s.take(j));
    } else {
        assert(s.take(j) =~= s);
    }
}

/// `trim_end_matches(s, c)` is `s` up to the last character that is not `c`.
proof fn lemma_trim_end_matches_take(s: Seq<char>, c: char, j: int)
    requires
        0 <= j <= s.len(),
        forall|k: int| j <= k < s.len() ==> #[trigger] s[k] == c,
    ensures
        trim_end_matches(s, c) == trim_end_matches(s.take(j), c),
    decreases s.len() - j,
{
    if j < s.len() {
        lemma_trim_end_matches_take(s, c, j + 1);
        assert(s.take(j + 1).drop_last() =~= s.take(j));
    } else {
        assert(s.take(j) =~= s);
    }
}

/// A sequence occurs in any concatenation that has it as its middle part.
pub proof fn lemma_contains_middle(a: Seq<char>, x: Seq<char>, b: Seq<char>)
    ensures
        contains(a + x + b, x),
{
    assert((a + x + b).subrange(a.len() as int, (a.len() + x.len()) as int) =~= x);
    assert(occurs_at(a + x + b, x, a.len() as int));
}

/// An occurrence stays an occurrence when text is added around it.
pub proof fn lemma_contains_extend(a: Seq<char>, x: Seq<char>, b: Seq<char>, c: Seq<char>)
    requires
        contains(x, c),
    ensures
        contains(a + x + b, c),
{
    let i = choose|i: int| occurs_at(x, c, i);
    assert((a + x + b).subrange(a.len() + i, a.len() + i + c.len()) =~= x.subrange(
        i,
        i + c.len(),
    ));
    assert(occurs_at(a + x + b, c, a.len() + i));
}

/// Each part of a join occurs in it.
pub proof fn lemma_join_contains_part(parts: Seq<Seq<char>>, sep: Seq<char>, i: int)
    requires
        0 <= i < parts.len(),
    ensures
        contains(join(parts, sep), parts[i]),
    decreases parts.len(),
{
    let none = Seq::<char>::empty();
    if parts.len() == 1 {
        lemma_contains_middle(none, parts[0], none);
        assert(none + parts[0] + none =~= join(parts, sep));
    } else if i == parts.len() - 1 {
        lemma_contains_middle(join(parts.drop_last(), sep) + sep, parts.last(), none);
        assert(join(parts.drop_last(), sep) + sep + parts.last() + none =~= join(parts, sep));
    } else {
        lemma_join_contains_part(parts.drop_last(), sep, i);
        lemma_contains_extend(none, join(parts.drop_last(), sep), sep + parts.last(), parts[i]);
        assert(none + join(parts.drop_last(), sep) + (sep + parts.last()) =~= join(parts, sep));
    }
}

/// A join of parts that all lack a character lacks it too, when the
/// separator does.
pub proof fn lemma_join_lacks(parts: Seq<Seq<char>>, sep: Seq<char>, x: char)
    requires
        !sep.contains(x),
        forall|i: int| 0 <= i < parts.len() ==> !(#[trigger] parts[i]).contains(x),
    ensures
        !join(parts, sep).contains(x),
    decreases parts.len(),
{
    if parts.len() > 1 {
        lemma_join_lacks(parts.drop_last(), sep, x);
        let j = join(parts.drop_last(), sep);
        assert(!parts[parts.len() - 1].contains(x));
        assert forall|k: int| 0 <= k < (j + sep + parts.last()).len() implies (j + sep
            + parts.last())[k] != x by {
            if k < j.len() {
                assert((j + sep + parts.last())[k] == j[k]);
            } else if k < j.len() + sep.len() {
                assert((j + sep + parts.last())[k] == sep[k - j.len()]);
            } else {
                assert((j + sep + parts.last())[k] == parts.last()[k - j.len() - sep.len()]);
            }
        }
    } else if parts.len() == 1 {
        assert(!parts[0].contains(x));
    }
}

/// `replace_all` leaves unchanged a sequence that lacks one of the pattern's
/// characters.
pub proof fn lemma_replace_all_absent(s: Seq<char>, pat: Seq<char>, rep: Seq<char>, k: int)
    requires
        pat.len() > 0,
        0 <= k < pat.len(),
        !s.contains(pat[k]),
    ensures
        replace_all(s, pat, rep) == s,
    decreases s.len(),
{
    if s.len() >= pat.len() {
        if s.subrange(0, pat.len() as int) == pat {
            assert(s.subrange(0, pat.len() as int)[k] == s[k]);
        }
        assert(!s.drop_first().contains(pat[k])) by {
            if s.drop_first().contains(pat[k]) {
                let j = choose|j: int| 0 <= j < s.drop_first().len() && s.drop_first()[j] == pat[k];
                assert(s[j + 1] == pat[k]);
            }
        }
        lemma_replace_all_absent(s.drop_first(), pat, rep, k);
        assert(seq![s[0]] + s.drop_first() =~= s);
    }
}

/// `trim_end_matches(s, c)` is `s` without the run of `c` at its end: a
/// prefix of `s` that does not end with `c`, the rest of `s` being all `c`.
pub proof fn lemma_trim_end_matches_shape(s: Seq<char>, c: char)
    ensures
        trim_end_matches(s, c).len() <= s.len(),
        s.take(trim_end_matches(s, c).len() as int) == trim_end_matches(s, c),
        forall|i: int| trim_end_matches(s, c).len() <= i < s.len() ==> #[trigger] s[i] == c,
        trim_end_matches(s, c).len() == 0 || trim_end_matches(s, c).last() != c,
    decreases s.len(),
{
    if s.len() > 0 && s.last() == c {
        lemma_trim_end_matches_shape(s.drop_last(), c);
        let t = trim_end_matches(s, c);
        assert(s.take(t.len() as int) =~= s.drop_last().take(t.len() as int));
        assert forall|i: int| t.len() <= i < s.len() implies #[trigger] s[i] == c by {
            if i < s.len() - 1 {
                assert(s.drop_last()[i] == s[i]);
            }
        }
    } else {
        assert(s.take(s.len() as int) =~= s);
    }
}

/// Removing trailing characters keeps only characters of the original.
pub proof fn lemma_trim_end_matches_subset(s: Seq<char>, c: char, x: char)
    ensures
        trim_end_matches(s, c).contains(x) ==> s.contains(x),
    decreases s.len(),
{
    if s.len() > 0 && s.last() == c {
        lemma_trim_end_matches_subset(s.drop_last(), c, x);
        if trim_end_matches(s, c).contains(x) {
            let k = choose|k: int| 0 <= k < s.drop_last().len() && s.drop_last()[k] == x;
            assert(s[k] == x);
        }
    }
}

/// ASCII lower case maps no other character to a non-letter.
pub proof fn lemma_ascii_lower_keeps_non_letter(s: Seq<char>, x: char)
    requires
        !('A' <= x && x <= 'Z'),
        !('a' <= x && x <= 'z'),
    ensures
        ascii_lower(s).contains(x) ==> s.contains(x),
{
    if ascii_lower(s).contains(x) {
        let k = choose|k: int| 0 <= k < ascii_lower(s).len() && ascii_lower(s)[k] == x;
        assert(lower_char(s[k]) == x);
        assert(s[k] == x);
    }
}

/// `str::trim` on a character vector.
pub fn trim_chars(s: &[char]) -> (r: Vec<char>)
    ensures
        r@ == trim(s@),
{
    let mut i: usize = 0;
    while i < s.len() && is_white_space_char(s[i])
        invariant
            i <= s@.len(),
            forall|k: int| 0 <= k < i ==> is_white_space(#[trigger] s@[k]),
        decreases s@.len() - i,
    {
        i = i + 1;
    }
    proof {
        lemma_trim_start_skip(s@, i as int);
    }
    let mut j: usize = s.len();
    while j > i && is_white_space_char(s[j - 1])
        invariant
            i <= j <= s@.len(),
            forall|k: int| j <= k < s@.len() ==> is_white_space(#[trigger] s@[k]),
        decreases j,
    {
        j = j - 1;
    }
    let ghost rest = s@.skip(i as int);
    proof {
        assert forall|k: int| j - i <= k < rest.len() implies is_white_space(#[trigger] rest[k]) by {
            assert(rest[k] == s@[k + i]);
        }
        lemma_trim_end_take(rest, j - i);
    }
    let mut out: Vec<char> = Vec::new();
    let mut k: usize = i;
    while k < j
        invariant
            i <= k <= j <= s@.len(),
            out@ == s@.subrange(i as int, k as int),
        decreases j - k,
    {
        out.push(s[k]);
        k = k + 1;
        assert(s@.subrange(i as int, k as int) =~= s@.subrange(i as int, k - 1) + seq![s@[k - 1]]);
    }
    proof {
        assert(rest.take(j - i) =~= s@.subrange(i as int, j as int));
        if i < j {
            assert(!is_white_space(rest[0]));
            assert(!is_white_space(rest.take(j - i).last()));
        }
    }
    out
}

/// `str::trim_end_matches(c)` on a character vector.
pub fn trim_end_matches_chars(s: &[char], c: char) -> (r: Vec<char>)
    ensures
        r@ == trim_end_matches(s@, c),
{
    let mut j: usize = s.len();
    while j > 0 && s[j - 1] == c
        invariant
            j <= s@.len(),
            forall|k: int| j <= k < s@.len() ==> #[trigger] s@[k] == c,
        decreases j,
    {
        j = j - 1;
    }
    proof {
        lemma_trim_end_matches_take(s@, c, j as int);
    }
    let mut out: Vec<char> = Vec::new();
    let mut k: usize = 0;
    while k < j
        invariant
            k <= j <= s@.len(),
            out@ == s@.take(k as int),
        decreases j - k,
    {
        out.push(s[k]);
        k = k + 1;
        assert(s@.take(k as int) =~= s@.take(k - 1).push(s@[k - 1]));
    }
    out
}

/// ASCII lower case of one character.
pub fn lower_char_exec(c: char) -> (r: char)
    ensures
        r == lower_char(c),
{
    if 'A' <= c && c <= 'Z' {
        let b = c as u8;
        (b + 32) as char
    } else {
        c
    }
}

/// `str::to_ascii_lowercase` on a character vector.
pub fn ascii_lower_chars(s: &[char]) -> (r: Vec<char>)
    ensures
        r@ == ascii_lower(s@),
{
    let mut out: Vec<char> = Vec::new();
    let mut k: usize = 0;
    while k < s.len()
        invariant
            k <= s@.len(),
            out@ == ascii_lower(s@.take(k as int)),
        decreases s@.len() - k,
    {
        out.push(lower_char_exec(s[k]));
        k = k + 1;
        assert(ascii_lower(s@.take(k as int)) =~= ascii_lower(s@.take(k - 1)).push(
            lower_char(s@[k - 1]),
        ));
    }
    assert(s@.take(s@.len() as int) =~= s@);
    out
}

/// `before_first(s, c)` is `s` up to the first `c`.
proof fn lemma_before_first_take(s: Seq<char>, c: char, j: int)
    requires
        0 <= j <= s.len(),
        forall|k: int| 0 <= k < j ==> #[trigger] s[k] != c,
        j == s.len() || s[j] == c,
    ensures
        before_first(s, c) == s.take(j),
    decreases j,
{
    if s.len() == 0 {
        assert(s.take(j) =~= s);
    } else if j == 0 {
        assert(s.take(0) =~= Seq::<char>::empty());
    } else {
        let t = s.drop_first();
        assert forall|k: int| 0 <= k < j - 1 implies #[trigger] t[k] != c by {
            assert(t[k] == s[k + 1]);
        }
        lemma_before_first_take(t, c, j - 1);
        assert(s.take(j) =~= seq![s[0]] + t.take(j - 1));
    }
}

/// The part of `s` before the first `c`.
pub fn before_first_chars(s: &[char], c: char) -> (r: Vec<char>)
    ensures
        r@ == before_first(s@, c),
{
    let mut out: Vec<char> = Vec::new();
    let mut k: usize = 0;
    while k < s.len() && s[k] != c
        invariant
            k <= s@.len(),
            out@ == s@.take(k as int),
            forall|m: int| 0 <= m < k ==> #[trigger] s@[m] != c,
        decreases s@.len() - k,
    {
        out.push(s[k]);
        k = k + 1;
        assert(s@.take(k as int) =~= s@.take(k - 1).push(s@[k - 1]));
    }
    proof {
        lemma_before_first_take(s@, c, k as int);
    }
    out
}

/// Whether `pat` occurs in `s` at index `i`.
pub fn occurs_at_exec(s: &[char], pat: &[char], i: usize) -> (r: bool)
    ensures
        r == occurs_at(s@, pat@, i as int),
{
    if i > s.len() || pat.len() > s.len() - i {
        return false;
    }
    let mut k: usize = 0;
    while k < pat.len()
        invariant
            i <= s.len(),
            i + pat.len() <= s.len(),
            k <= pat.len(),
            forall|m: int| 0 <= m < k ==> s@[i + m] == #[trigger] pat@[m],
        decreases pat@.len() - k,
    {
        let j = i + k;
        if s[j] != pat[k] {
            assert(s@.subrange(i as int, i + pat@.len())[k as int] != pat@[k as int]);
            return false;
        }
        k = k + 1;
    }
    assert(s@.subrange(i as int, i + pat@.len()) =~= pat@);
    true
}

/// `str::contains` for a pattern of characters.
pub fn contains_chars(s: &[char], pat: &[char]) -> (r: bool)
    ensures
        r == contains(s@, pat@),
{
    if pat.len() == 0 {
        assert(occurs_at(s@, pat@, 0)) by {
            assert(s@.subrange(0, 0) =~= pat@);
        }
        return true;
    }
    let mut i: usize = 0;
    while pat.len() <= s.len() - i
        invariant
            pat@.len() > 0,
            i <= s@.len(),
            forall|m: int| 0 <= m < i ==> !occurs_at(s@, pat@, m),
        decreases s@.len() - i,
    {
        if occurs_at_exec(s, pat, i) {
            return true;
        }
        i = i + 1;
    }
    assert forall|m: int| !occurs_at(s@, pat@, m) by {
        if 0 <= m && m + pat@.len() <= s@.len() {
            assert(m < i);
        }
    }
    false
}

/// Whether `s` contains the character `c`.
pub fn contains_char(s: &[char], c: char) -> (r: bool)
    ensures
        r == s@.contains(c),
        r == contains(s@, seq![c]),
{
    let mut k: usize = 0;
    while k < s.len()
        invariant
            k <= s@.len(),
            forall|m: int| 0 <= m < k ==> #[trigger] s@[m] != c,
        decreases s@.len() - k,
    {
        if s[k] == c {
            assert(occurs_at(s@, seq![c], k as int)) by {
                assert(s@.subrange(k as int, k + 1) =~= seq![c]);
            }
            return true;
        }
        k = k + 1;
    }
    assert forall|m: int| !occurs_at(s@, seq![c], m) by {
        if occurs_at(s@, seq![c], m) {
            assert(s@.subrange(m, m + 1)[0] == s@[m]);
        }
    }
    false
}

/// `str::starts_with` for a pattern of characters.
pub fn starts_with_chars(s: &[char], p: &[char]) -> (r: bool)
    ensures
        r == starts_with(s@, p@),
{
    let r = occurs_at_exec(s, p, 0);
    proof {
        if r {
            assert(starts_with(s@, p@));
        }
    }
    r
}

/// One step of `replace_all`: the result for `s` starting at `i` is what that
/// position contributes followed by the result for the rest.
proof fn lemma_replace_all_step(s: Seq<char>, pat: Seq<char>, rep: Seq<char>, i: int)
    requires
        pat.len() > 0,
        0 <= i,
        i + pat.len() <= s.len(),
    ensures
        occurs_at(s, pat, i) ==> replace_all(s.skip(i), pat, rep) == rep + replace_all(
            s.skip(i + pat.len()),
            pat,
            rep,
        ),
        !occurs_at(s, pat, i) ==> replace_all(s.skip(i), pat, rep) == seq![s[i]] + replace_all(
            s.skip(i + 1),
            pat,
            rep,
        ),
{
    let t = s.skip(i);
    assert(t.subrange(0, pat.len() as int) =~= s.subrange(i, i + pat.len()));
    assert(t.subrange(pat.len() as int, t.len() as int) =~= s.skip(i + pat.len()));
    assert(t.drop_first() =~= s.skip(i + 1));
}

/// `replace_all` of a sequence shorter than the pattern is the sequence.
proof fn lemma_replace_all_short(s: Seq<char>, pat: Seq<char>, rep: Seq<char>)
    requires
        s.len() < pat.len(),
    ensures
        replace_all(s, pat, rep) == s,
{
}

/// `str::replace` for a non-empty pattern.
pub fn replace_all_chars(s: &[char], pat: &[char], rep: &[char]) -> (r: Vec<char>)
    requires
        pat@.len() > 0,
    ensures
        r@ == replace_all(s@, pat@, rep@),
{
    let mut out: Vec<char> = Vec::new();
    let mut i: usize = 0;
    assert(s@.skip(0) =~= s@);
    while i < s.len() && pat.len() <= s.len() - i
        invariant
            pat@.len() > 0,
            i <= s@.len(),
            out@ + replace_all(s@.skip(i as int), pat@, rep@) == replace_all(s@, pat@, rep@),
        decreases s@.len() - i,
    {
        proof {
            lemma_replace_all_step(s@, pat@, rep@, i as int);
        }
        if occurs_at_exec(s, pat, i) {
            let ghost before = out@;
            push_chars(&mut out, rep);
            assert(before + (rep@ + replace_all(s@.skip(i + pat@.len()), pat@, rep@)) =~= out@
                + replace_all(s@.skip(i + pat@.len()), pat@, rep@));
            i = i + pat.len();
        } else {
            let ghost before = out@;
            out.push(s[i]);
            assert(before + (seq![s@[i as int]] + replace_all(s@.skip(i + 1), pat@, rep@)) =~= out@
                + replace_all(s@.skip(i + 1), pat@, rep@));
            i = i + 1;
        }
    }
    proof {
        lemma_replace_all_short(s@.skip(i as int), pat@, rep@);
    }
    let ghost before = out@;
    let mut k: usize = i;
    while k < s.len()
        invariant
            i <= k <= s@.len(),
            out@ == before + s@.subrange(i as int, k as int),
        decreases s@.len() - k,
    {
        out.push(s[k]);
        k = k + 1;
        assert(s@.subrange(i as int, k as int) =~= s@.subrange(i as int, k - 1) + seq![s@[k - 1]]);
    }
    assert(s@.subrange(i as int, s@.len() as int) =~= s@.skip(i as int));
    out
}

/// `decimal(n)` written out digit by digit from the last one.
proof fn lemma_decimal_unfold(n: nat)
    requires
        n >= 10,
    ensures
        decimal(n) == decimal(n / 10).push(digit_char(n % 10)),
{
}

/// Decimal representation of an unsigned integer (`u64::to_string`).
pub fn decimal_chars(n: u64) -> (r: Vec<char>)
    ensures
        r@ == decimal(n as nat),
{
    // digits are collected from the last one, then reversed
    let mut rev: Vec<char> = Vec::new();
    let mut m: u64 = n;
    let ghost mut suffix: Seq<char> = Seq::empty();
    while m >= 10
        invariant
            decimal(n as nat) == decimal(m as nat) + suffix,
            rev@ == suffix.reverse(),
        decreases m,
    {
        let d = m % 10;
        let c = ((d as u8) + 48) as char;
        proof {
            lemma_decimal_unfold(m as nat);
            assert(decimal(m as nat) + suffix =~= decimal((m / 10) as nat) + (seq![c] + suffix));
            suffix = seq![c] + suffix;
        }
        rev.push(c);
        assert(rev@ =~= suffix.reverse());
        m = m / 10;
    }
    let c = ((m as u8) + 48) as char;
    proof {
        assert(decimal(n as nat) =~= seq![c] + suffix);
        suffix = seq![c] + suffix;
    }
    rev.push(c);
    assert(rev@ =~= suffix.reverse());
    let mut out: Vec<char> = Vec::new();
    let mut k: usize = rev.len();
    while k > 0
        invariant
            k <= rev@.len(),
            rev@ == suffix.reverse(),
            out@ == suffix.subrange(0, rev@.len() - k),
        decreases k,
    {
        k = k - 1;
        out.push(rev[k]);
        assert(suffix.subrange(0, rev@.len() - k) =~= suffix.subrange(0, rev@.len() - k - 1)
            + seq![suffix[rev@.len() - k - 1]]);
    }
    assert(suffix.subrange(0, rev@.len() as int) =~= suffix);
    out
}

} // verus!
