//! Character-level string helpers shared by the agents: substring search,
//! whitespace handling, word splitting, decimal rendering and parsing.
use vstd::prelude::*;

verus! {

// ---------------------------------------------------------------------------
// Substring search
// ---------------------------------------------------------------------------

/// `p` occurs in `s` starting at index `i`.
pub open spec fn matches_at(s: Seq<char>, p: Seq<char>, i: int) -> bool {
    &&& 0 <= i
    &&& i + p.len() <= s.len()
    &&& forall|j: int| 0 <= j < p.len() ==> s[i + j] == p[j]
}

/// `p` occurs somewhere in `s` (the empty pattern occurs everywhere).
pub open spec fn has_sub(s: Seq<char>, p: Seq<char>) -> bool {
    exists|i: int| matches_at(s, p, i)
}

/// `p` is a prefix of `s`.
pub open spec fn has_prefix(s: Seq<char>, p: Seq<char>) -> bool {
    matches_at(s, p, 0)
}

/// `p` is a suffix of `s`.
pub open spec fn has_suffix(s: Seq<char>, p: Seq<char>) -> bool {
    p.len() <= s.len() && matches_at(s, p, s.len() - p.len())
}

/// The characters of a string slice, in order.
pub fn chars_of(s: &str) -> (v: Vec<char>)
    ensures
        v@ == s@,
{
    let mut v: Vec<char> = Vec::new();
    for c in it: s.chars()
        invariant
            v@ == it.seq().take(it.index() as int),
            it.seq() == s@,
    {
        v.push(c);
    }
    v
}

/// Whether `p` occurs in `s` at index `i`.
pub fn vec_matches_at(s: &Vec<char>, p: &Vec<char>, i: usize) -> (r: bool)
    ensures
        r == matches_at(s@, p@, i as int),
{
    if p.len() > s.len() || i > s.len() - p.len() {
        return false;
    }
    let mut j: usize = 0;
    while j < p.len()
        invariant
            i + p.len() <= s.len(),
            j <= p.len(),
            forall|t: int| 0 <= t < j ==> s@[i + t] == p@[t],
        decreases p.len() - j,
    {
        if s[i + j] != p[j] {
            return false;
        }
        j += 1;
    }
    true
}

/// Whether `p` occurs anywhere in `s`.
pub fn vec_has_sub(s: &Vec<char>, p: &Vec<char>) -> (r: bool)
    ensures
        r == has_sub(s@, p@),
{
    if p.len() > s.len() {
        return false;
    }
    let last = s.len() - p.len();
    let mut i: usize = 0;
    while i <= last
        invariant
            last == s.len() - p.len(),
            p.len() <= s.len(),
            i <= last + 1,
            forall|k: int| 0 <= k < i ==> !matches_at(s@, p@, k),
        decreases last + 1 - i,
    {
        if vec_matches_at(s, p, i) {
            return true;
        }
        i += 1;
    }
    false
}

/// `s.contains(p)` for string slices.
pub fn contains(s: &str, p: &str) -> (r: bool)
    ensures
        r == has_sub(s@, p@),
{
    let sv = chars_of(s);
    let pv = chars_of(p);
    vec_has_sub(&sv, &pv)
}

/// `s.starts_with(p)` for string slices.
pub fn starts_with(s: &str, p: &str) -> (r: bool)
    ensures
        r == has_prefix(s@, p@),
{
    let sv = chars_of(s);
    let pv = chars_of(p);
    vec_matches_at(&sv, &pv, 0)
}

/// `s.ends_with(p)` for string slices.
pub fn ends_with(s: &str, p: &str) -> (r: bool)
    ensures
        r == has_suffix(s@, p@),
{
    let sv = chars_of(s);
    let pv = chars_of(p);
    if pv.len() > sv.len() {
        return false;
    }
    vec_matches_at(&sv, &pv, sv.len() - pv.len())
}

/// `a == b` for string slices.
pub fn same_text(a: &str, b: &str) -> (r: bool)
    ensures
        r == (a@ == b@),
{
    let av = chars_of(a);
    let bv = chars_of(b);
    if av.len() != bv.len() {
        return false;
    }
    let r = vec_matches_at(&av, &bv, 0);
    if r {
        assert(av@ =~= bv@);
    }
    r
}

// ---------------------------------------------------------------------------
// Lower-casing (std's Unicode mapping)
// ---------------------------------------------------------------------------

/// The result of `str::to_lowercase` on the given characters.
pub uninterp spec fn lowercase_of(s: Seq<char>) -> Seq<char>;

/// Calls `str::to_lowercase`; its Unicode case mapping is taken as given and
/// named `lowercase_of`, a function of the input characters alone.
#[verifier::external_body]
pub(crate) fn to_lowercase(s: &str) -> (r: String)
    ensures
        r@ == lowercase_of(s@),
{
    s.to_lowercase()
}

/// Builds a `String` from characters with `Iterator::collect`.
#[verifier::external_body]
pub(crate) fn string_from_chars(v: &Vec<char>) -> (r: String)
    ensures
        r@ == v@,
{
    v.iter().collect::<String>()
}

// ---------------------------------------------------------------------------
// Whitespace (Unicode White_Space, as `char::is_whitespace`)
// ---------------------------------------------------------------------------

/// The code points with the Unicode `White_Space` property.
pub open spec fn is_white(c: char) -> bool {
    let u = c as u32;
    (0x9 <= u && u <= 0xD) || u == 0x20 || u == 0x85 || u == 0xA0 || u == 0x1680
        || (0x2000 <= u && u <= 0x200A) || u == 0x2028 || u == 0x2029 || u == 0x202F
        || u == 0x205F || u == 0x3000
}

/// `char::is_whitespace`.
pub fn is_whitespace(c: char) -> (r: bool)
    ensures
        r == is_white(c),
{
    let u = c as u32;
    (0x9 <= u && u <= 0xD) || u == 0x20 || u == 0x85 || u == 0xA0 || u == 0x1680 || (0x2000
        <= u && u <= 0x200A) || u == 0x2028 || u == 0x2029 || u == 0x202F || u == 0x205F || u
        == 0x3000
}

/// Index of the first non-whitespace character at or after `i` (or the length).
pub open spec fn skip_white(s: Seq<char>, i: int) -> int
    decreases s.len() - i,
{
    if i < 0 || i >= s.len() || !is_white(s[i]) {
        i
    } else {
        skip_white(s, i + 1)
    }
}

/// One past the last non-whitespace character before `j` (or the lower bound `lo`).
pub open spec fn skip_white_back(s: Seq<char>, lo: int, j: int) -> int
    decreases j - lo,
{
    if j <= lo || j > s.len() || !is_white(s[j - 1]) {
        j
    } else {
        skip_white_back(s, lo, j - 1)
    }
}

/// `str::trim`: the characters without leading and trailing whitespace.
pub open spec fn trim_of(s: Seq<char>) -> Seq<char> {
    let a = skip_white(s, 0);
    s.subrange(a, skip_white_back(s, a, s.len() as int))
}

pub proof fn lemma_skip_white_bounds(s: Seq<char>, i: int)
    requires
        0 <= i <= s.len(),
    ensures
        i <= skip_white(s, i) <= s.len(),
        skip_white(s, i) < s.len() ==> !is_white(s[skip_white(s, i)]),
        forall|k: int| i <= k < skip_white(s, i) ==> is_white(#[trigger] s[k]),
    decreases s.len() - i,
{
    if i < s.len() && is_white(s[i]) {
        lemma_skip_white_bounds(s, i + 1);
    }
}

pub proof fn lemma_skip_white_back_bounds(s: Seq<char>, lo: int, j: int)
    requires
        0 <= lo <= j <= s.len(),
    ensures
        lo <= skip_white_back(s, lo, j) <= j,
        forall|k: int| skip_white_back(s, lo, j) <= k < j ==> is_white(#[trigger] s[k]),
    decreases j - lo,
{
    if j > lo && is_white(s[j - 1]) {
        lemma_skip_white_back_bounds(s, lo, j - 1);
    }
}

/// Index of the first non-whitespace character at or after `i`.
fn skip_white_exec(v: &Vec<char>, i: usize) -> (r: usize)
    requires
        i <= v.len(),
    ensures
        r as int == skip_white(v@, i as int),
        i <= r <= v.len(),
{
    let mut k = i;
    while k < v.len() && is_whitespace(v[k])
        invariant
            i <= k <= v.len(),
            skip_white(v@, i as int) == skip_white(v@, k as int),
        decreases v.len() - k,
    {
        k += 1;
    }
    k
}

/// `str::trim` on characters.
pub fn trim_chars(v: &Vec<char>) -> (r: Vec<char>)
    ensures
        r@ == trim_of(v@),
{
    let a = skip_white_exec(v, 0);
    let mut b = v.len();
    while b > a && is_whitespace(v[b - 1])
        invariant
            a <= b <= v.len(),
            a as int == skip_white(v@, 0),
            skip_white_back(v@, a as int, v.len() as int) == skip_white_back(
                v@,
                a as int,
                b as int,
            ),
        decreases b - a,
    {
        b -= 1;
    }
    let mut out: Vec<char> = Vec::new();
    let mut k = a;
    while k < b
        invariant
            a <= k <= b <= v.len(),
            out@ == v@.subrange(a as int, k as int),
        decreases b - k,
    {
        out.push(v[k]);
        k += 1;
    }
    out
}

/// `str::trim`.
pub fn trim(s: &str) -> (r: String)
    ensures
        r@ == trim_of(s@),
{
    let v = chars_of(s);
    let t = trim_chars(&v);
    string_from_chars(&t)
}

// ---------------------------------------------------------------------------
// Words (`str::split_whitespace`)
// ---------------------------------------------------------------------------

/// Index of the first whitespace character at or after `i` (or the length).
pub open spec fn word_end(s: Seq<char>, i: int) -> int
    decreases s.len() - i,
{
    if i < 0 || i >= s.len() || is_white(s[i]) {
        i
    } else {
        word_end(s, i + 1)
    }
}

pub proof fn lemma_word_end_bounds(s: Seq<char>, i: int)
    requires
        0 <= i <= s.len(),
    ensures
        i <= word_end(s, i) <= s.len(),
        word_end(s, i) < s.len() ==> is_white(s[word_end(s, i)]),
        forall|k: int| i <= k < word_end(s, i) ==> !is_white(#[trigger] s[k]),
    decreases s.len() - i,
{
    if i < s.len() && !is_white(s[i]) {
        lemma_word_end_bounds(s, i + 1);
    }
}

/// The maximal runs of non-whitespace characters of `s` from index `i` on.
pub open spec fn words_from(s: Seq<char>, i: int) -> Seq<Seq<char>>
    decreases s.len() - i,
{
    if i < 0 || i >= s.len() {
        Seq::empty()
    } else if is_white(s[i]) {
        words_from(s, i + 1)
    } else {
        proof {
            lemma_word_end_bounds(s, i + 1);
        }
        seq![s.subrange(i, word_end(s, i + 1))] + words_from(s, word_end(s, i + 1))
    }
}

/// `str::split_whitespace`, collected.
pub open spec fn words_of(s: Seq<char>) -> Seq<Seq<char>> {
    words_from(s, 0)
}

/// Splits characters into whitespace-separated words.
pub fn split_words(v: &Vec<char>) -> (r: Vec<Vec<char>>)
    ensures
        r.deep_view() == words_of(v@),
{
    let mut out: Vec<Vec<char>> = Vec::new();
    let mut i: usize = 0;
    while i < v.len()
        invariant
            i <= v.len(),
            out.deep_view() + words_from(v@, i as int) == words_of(v@),
        decreases v.len() - i,
    {
        if is_whitespace(v[i]) {
            assert(words_from(v@, i as int) == words_from(v@, i as int + 1));
            i += 1;
        } else {
            let mut cur: Vec<char> = Vec::new();
            cur.push(v[i]);
            let mut j = i + 1;
            while j < v.len() && !is_whitespace(v[j])
                invariant
                    i < j <= v.len(),
                    word_end(v@, i as int + 1) == word_end(v@, j as int),
                    cur@ == v@.subrange(i as int, j as int),
                decreases v.len() - j,
            {
                cur.push(v[j]);
                j += 1;
            }
            let ghost before = out.deep_view();
            let ghost cv = cur@;
            proof {
                assert(cur.deep_view() =~= cv);
                assert(word_end(v@, j as int) == j);
                assert(words_from(v@, i as int) == seq![v@.subrange(i as int, j as int)]
                    + words_from(v@, j as int));
                assert(before.push(cur@) + words_from(v@, j as int) =~= before + (seq![cur@]
                    + words_from(v@, j as int)));
            }
            out.push(cur);
            proof {
                assert(out.deep_view() =~= before.push(cv));
            }
            i = j;
        }
    }
    proof {
        assert(out.deep_view() + words_from(v@, i as int) == out.deep_view());
    }
    out
}

// ---------------------------------------------------------------------------
// Lines (`str::lines`)
// ---------------------------------------------------------------------------

/// Index of the first line feed at or after `i` (or the length).
pub open spec fn line_end(s: Seq<char>, i: int) -> int
    decreases s.len() - i,
{
    if i < 0 || i >= s.len() || s[i] == '\n' {
        i
    } else {
        line_end(s, i + 1)
    }
}

pub proof fn lemma_line_end_bounds(s: Seq<char>, i: int)
    requires
        0 <= i <= s.len(),
    ensures
        i <= line_end(s, i) <= s.len(),
        line_end(s, i) < s.len() ==> s[line_end(s, i)] == '\n',
    decreases s.len() - i,
{
    if i < s.len() && s[i] != '\n' {
        lemma_line_end_bounds(s, i + 1);
    }
}

/// The lines of `s` from index `i`: split at line feeds, a carriage return
/// just before a line feed is dropped, and a final line feed ends the text.
pub open spec fn lines_from(s: Seq<char>, i: int) -> Seq<Seq<char>>
    decreases s.len() - i,
{
    if i < 0 || i >= s.len() {
        Seq::empty()
    } else {
        let e = line_end(s, i);
        let raw = s.subrange(i, e);
        let line = if e < s.len() && raw.len() > 0 && raw.last() == '\r' {
            raw.drop_last()
        } else {
            raw
        };
        if e < s.len() {
            proof {
                lemma_line_end_bounds(s, i);
            }
            seq![line] + lines_from(s, e + 1)
        } else {
            seq![line]
        }
    }
}

/// `str::lines`, collected.
pub open spec fn lines_of(s: Seq<char>) -> Seq<Seq<char>> {
    lines_from(s, 0)
}

/// Splits characters into lines.
pub fn split_lines(v: &Vec<char>) -> (r: Vec<Vec<char>>)
    ensures
        r.deep_view() == lines_of(v@),
{
    let mut out: Vec<Vec<char>> = Vec::new();
    let mut i: usize = 0;
    while i < v.len()
        invariant
            i <= v.len(),
            out.deep_view() + lines_from(v@, i as int) == lines_of(v@),
        decreases v.len() - i,
    {
        let mut j = i;
        while j < v.len() && v[j] != '\n'
            invariant
                i <= j <= v.len(),
                line_end(v@, i as int) == line_end(v@, j as int),
            decreases v.len() - j,
        {
            j += 1;
        }
        assert(line_end(v@, j as int) == j);
        let stop = if j < v.len() && j > i && v[j - 1] == '\r' {
            j - 1
        } else {
            j
        };
        let mut cur: Vec<char> = Vec::new();
        let mut k = i;
        while k < stop
            invariant
                i <= k <= stop <= j,
                j <= v.len(),
                cur@ == v@.subrange(i as int, k as int),
            decreases stop - k,
        {
            cur.push(v[k]);
            k += 1;
        }
        let next: usize = if j < v.len() {
            j + 1
        } else {
            j
        };
        let ghost before = out.deep_view();
        let ghost cv = cur@;
        proof {
            assert(cur.deep_view() =~= cv);
            let raw = v@.subrange(i as int, j as int);
            if j < v.len() && j > i && v@[j - 1] == '\r' {
                assert(raw.drop_last() =~= cv);
            } else {
                assert(raw =~= cv);
            }
            assert(lines_from(v@, i as int) == seq![cv] + lines_from(v@, next as int));
            assert(before.push(cv) + lines_from(v@, next as int) =~= before + (seq![cv]
                + lines_from(v@, next as int)));
        }
        out.push(cur);
        proof {
            assert(out.deep_view() =~= before.push(cv));
        }
        i = next;
    }
    assert(out.deep_view() + lines_from(v@, i as int) == out.deep_view());
    out
}

/// Index of the first character at or after `i` satisfying `stop` (or the length).
pub open spec fn find_from(s: Seq<char>, stop: spec_fn(char) -> bool, i: int) -> int
    decreases s.len() - i,
{
    if i < 0 || i >= s.len() || stop(s[i]) {
        i
    } else {
        find_from(s, stop, i + 1)
    }
}

pub proof fn lemma_find_from_bounds(s: Seq<char>, stop: spec_fn(char) -> bool, i: int)
    requires
        0 <= i <= s.len(),
    ensures
        i <= find_from(s, stop, i) <= s.len(),
        find_from(s, stop, i) < s.len() ==> stop(s[find_from(s, stop, i)]),
        forall|k: int| i <= k < find_from(s, stop, i) ==> !stop(#[trigger] s[k]),
    decreases s.len() - i,
{
    if i < s.len() && !stop(s[i]) {
        lemma_find_from_bounds(s, stop, i + 1);
    }
}

/// The lines joined with line feeds between them.
pub open spec fn join_lines(ls: Seq<Seq<char>>) -> Seq<char>
    decreases ls.len(),
{
    if ls.len() == 0 {
        Seq::empty()
    } else if ls.len() == 1 {
        ls[0]
    } else {
        join_lines(ls.drop_last()) + seq!['\n'] + ls.last()
    }
}

/// Joins the first `n` lines with line feeds.
pub fn join_first_lines(ls: &Vec<Vec<char>>, n: usize) -> (r: Vec<char>)
    ensures
        r@ == join_lines(ls.deep_view().take(if n < ls.len() { n as int } else { ls.len() as int })),
{
    let m = if n < ls.len() {
        n
    } else {
        ls.len()
    };
    let ghost lv = ls.deep_view();
    let mut out: Vec<char> = Vec::new();
    let mut i: usize = 0;
    while i < m
        invariant
            i <= m <= ls.len(),
            lv == ls.deep_view(),
            out@ == join_lines(lv.take(i as int)),
        decreases m - i,
    {
        assert(lv[i as int] == ls[i as int]@);
        assert(lv.take(i as int + 1).drop_last() =~= lv.take(i as int));
        if i > 0 {
            out.push('\n');
        }
        let ghost before = out@;
        let mut k: usize = 0;
        while k < ls[i].len()
            invariant
                i < ls.len(),
                k <= ls[i as int].len(),
                out@ == before + ls[i as int]@.take(k as int),
            decreases ls[i as int].len() - k,
        {
            out.push(ls[i][k]);
            k += 1;
        }
        assert(ls[i as int]@.take(ls[i as int].len() as int) =~= ls[i as int]@);
        if i == 0 {
            assert(lv.take(1) =~= seq![lv[0]]);
            assert(out@ =~= lv[0]);
        } else {
            assert(lv.take(i as int + 1).last() == lv[i as int]);
        }
        i += 1;
    }
    out
}

// ---------------------------------------------------------------------------
// Decimal numbers
// ---------------------------------------------------------------------------

/// The decimal digit character for `d < 10`.
pub open spec fn digit_char(d: nat) -> char {
    (('0' as u32) + d) as char
}

/// The decimal rendering of `n`, without sign or leading zeros.
pub open spec fn dec_of(n: nat) -> Seq<char>
    decreases n,
{
    if n < 10 {
        seq![digit_char(n)]
    } else {
        dec_of(n / 10).push(digit_char(n % 10))
    }
}

fn digit(d: u64) -> (c: char)
    requires
        d < 10,
    ensures
        c == digit_char(d as nat),
{
    if d == 0 {
        '0'
    } else if d == 1 {
        '1'
    } else if d == 2 {
        '2'
    } else if d == 3 {
        '3'
    } else if d == 4 {
        '4'
    } else if d == 5 {
        '5'
    } else if d == 6 {
        '6'
    } else if d == 7 {
        '7'
    } else if d == 8 {
        '8'
    } else {
        '9'
    }
}

/// Appends the decimal rendering of `n`.
pub fn push_dec(out: &mut Vec<char>, n: u64)
    ensures
        final(out)@ == old(out)@ + dec_of(n as nat),
    decreases n,
{
    if n < 10 {
        out.push(digit(n));
    } else {
        push_dec(out, n / 10);
        out.push(digit(n % 10));
    }
}

/// `n.to_string()` for unsigned integers.
pub fn dec_string(n: u64) -> (r: String)
    ensures
        r@ == dec_of(n as nat),
{
    let mut v: Vec<char> = Vec::new();
    push_dec(&mut v, n);
    assert(v@ == dec_of(n as nat));
    string_from_chars(&v)
}

/// The value of a character that is a decimal digit.
pub open spec fn digit_value(c: char) -> int {
    c as u32 - '0' as u32
}

pub open spec fn is_digit(c: char) -> bool {
    '0' as u32 <= c as u32 <= '9' as u32
}

/// The value of a sequence of decimal digits.
pub open spec fn dec_value(s: Seq<char>) -> nat
    decreases s.len(),
{
    if s.len() == 0 {
        0
    } else {
        (10 * dec_value(s.drop_last()) + digit_value(s.last())) as nat
    }
}

/// The digits that `u8::from_str` reads: an optional leading `+` is dropped.
pub open spec fn unsigned_digits(w: Seq<char>) -> Seq<char> {
    if w.len() > 0 && w[0] == '+' {
        w.drop_first()
    } else {
        w
    }
}

/// `w.parse::<u8>()`: `Some(v)` where `w` is an optional `+` followed by
/// at least one decimal digit and the value fits in a byte.
pub open spec fn parse_u8_of(w: Seq<char>) -> Option<u8> {
    let d = unsigned_digits(w);
    if d.len() > 0 && (forall|i: int| 0 <= i < d.len() ==> is_digit(#[trigger] d[i]))
        && dec_value(d) <= 255 {
        Some(dec_value(d) as u8)
    } else {
        None
    }
}

proof fn lemma_dec_value_prefix_monotone(s: Seq<char>, k: int)
    requires
        0 <= k <= s.len(),
        forall|i: int| 0 <= i < s.len() ==> is_digit(#[trigger] s[i]),
    ensures
        dec_value(s.subrange(0, k)) <= dec_value(s),
    decreases s.len() - k,
{
    if k < s.len() {
        lemma_dec_value_prefix_monotone(s, k + 1);
        let t = s.subrange(0, k + 1);
        assert(t.drop_last() == s.subrange(0, k));
    } else {
        assert(s.subrange(0, k) == s);
    }
}

/// `w.parse::<u8>().ok()` on characters.
pub fn parse_u8(w: &Vec<char>) -> (r: Option<u8>)
    ensures
        r == parse_u8_of(w@),
{
    let start: usize = if w.len() > 0 && w[0] == '+' {
        1
    } else {
        0
    };
    let ghost d = unsigned_digits(w@);
    assert(d == w@.subrange(start as int, w@.len() as int));
    if start >= w.len() {
        return None;
    }
    let mut acc: u32 = 0;
    let mut i = start;
    while i < w.len()
        invariant
            start <= i <= w.len(),
            start < w.len(),
            d == unsigned_digits(w@),
            d == w@.subrange(start as int, w@.len() as int),
            forall|k: int| 0 <= k < i - start ==> is_digit(#[trigger] d[k]),
            acc as nat == dec_value(d.subrange(0, i - start)),
            acc <= 255,
        decreases w.len() - i,
    {
        let c = w[i];
        let cu = c as u32;
        assert(d[i - start] == c);
        if !(48 <= cu && cu <= 57) {
            assert(!is_digit(d[i - start]));
            assert(!(forall|k: int| 0 <= k < d.len() ==> is_digit(#[trigger] d[k])));
            return None;
        }
        let dv = cu - 48;
        let ghost pre = d.subrange(0, i - start);
        assert(d.subrange(0, i - start + 1).drop_last() == pre);
        let next = acc * 10 + dv;
        if next > 255 {
            // the remaining characters may still be non-digits; either way the result is None
            let mut j = i + 1;
            while j < w.len()
                invariant
                    start <= i < j <= w.len(),
                    d == unsigned_digits(w@),
                    d == w@.subrange(start as int, w@.len() as int),
                    forall|k: int| 0 <= k < j - start ==> is_digit(#[trigger] d[k]),
                decreases w.len() - j,
            {
                let c2 = w[j];
                let cu2 = c2 as u32;
                assert(d[j - start] == c2);
                if !(48 <= cu2 && cu2 <= 57) {
                    assert(!is_digit(d[j - start]));
                    assert(!(forall|k: int| 0 <= k < d.len() ==> is_digit(#[trigger] d[k])));
                    return None;
                }
                j += 1;
            }
            proof {
                let t = d.subrange(0, i - start + 1);
                assert(t.last() == c);
                assert(digit_value(c) == dv);
                assert(dec_value(t) == 10 * dec_value(pre) + dv);
                lemma_dec_value_prefix_monotone(d, i - start + 1);
                assert(dec_value(d) > 255);
            }
            return None;
        }
        acc = next;
        i += 1;
    }
    assert(d.subrange(0, i - start) == d);
    Some(acc as u8)
}

/// The first word that `u8::from_str` accepts, if any.
pub open spec fn first_u8(ws: Seq<Seq<char>>) -> Option<u8>
    decreases ws.len(),
{
    if ws.len() == 0 {
        None
    } else if parse_u8_of(ws[0]) is Some {
        parse_u8_of(ws[0])
    } else {
        first_u8(ws.drop_first())
    }
}

/// The first whitespace-separated word of `s` that parses as a `u8`.
pub fn first_u8_word(s: &str) -> (r: Option<u8>)
    ensures
        r == first_u8(words_of(s@)),
{
    let v = chars_of(s);
    let ws = split_words(&v);
    let ghost wv = ws.deep_view();
    let mut i: usize = 0;
    assert(wv.skip(0) =~= wv);
    while i < ws.len()
        invariant
            i <= ws.len(),
            wv == ws.deep_view(),
            wv == words_of(v@),
            v@ == s@,
            first_u8(wv) == first_u8(wv.skip(i as int)),
        decreases ws.len() - i,
    {
        assert(wv[i as int] == ws[i as int]@);
        let p = parse_u8(&ws[i]);
        assert(wv.skip(i as int)[0] == wv[i as int]);
        if p.is_some() {
            assert(wv.skip(i as int).len() > 0);
            assert(first_u8(wv.skip(i as int)) == parse_u8_of(wv.skip(i as int)[0]));
            return p;
        }
        assert(wv.skip(i as int).drop_first() =~= wv.skip(i as int + 1));
        i += 1;
    }
    assert(wv.skip(i as int) =~= Seq::<Seq<char>>::empty());
    None
}

/// `s.trim_start_matches(p)`: every leading repetition of `p` removed.
pub open spec fn strip_prefixes(s: Seq<char>, p: Seq<char>) -> Seq<char>
    decreases s.len(),
{
    if p.len() > 0 && has_prefix(s, p) {
        strip_prefixes(s.skip(p.len() as int), p)
    } else {
        s
    }
}

/// `s.trim_start_matches(p)` for a non-empty pattern.
pub fn trim_start_matches(s: &str, p: &str) -> (r: String)
    requires
        p@.len() > 0,
    ensures
        r@ == strip_prefixes(s@, p@),
{
    let sv = chars_of(s);
    let pv = chars_of(p);
    let mut i: usize = 0;
    assert(sv@.skip(0) =~= sv@);
    while vec_matches_at(&sv, &pv, i)
        invariant
            i <= sv.len(),
            pv@ == p@,
            pv@.len() > 0,
            strip_prefixes(sv@, pv@) == strip_prefixes(sv@.skip(i as int), pv@),
        decreases sv.len() - i,
    {
        assert(has_prefix(sv@.skip(i as int), pv@));
        assert(sv@.skip(i as int).skip(pv@.len() as int) =~= sv@.skip(i + pv@.len()));
        i += pv.len();
    }
    assert(!has_prefix(sv@.skip(i as int), pv@));
    let mut out: Vec<char> = Vec::new();
    let mut k = i;
    while k < sv.len()
        invariant
            i <= k <= sv.len(),
            out@ == sv@.subrange(i as int, k as int),
        decreases sv.len() - k,
    {
        out.push(sv[k]);
        k += 1;
    }
    assert(out@ =~= sv@.skip(i as int));
    string_from_chars(&out)
}

/// `s.trim_end_matches(p)`: every trailing repetition of `p` removed.
pub open spec fn strip_suffixes(s: Seq<char>, p: Seq<char>) -> Seq<char>
    decreases s.len(),
{
    if p.len() > 0 && has_suffix(s, p) {
        strip_suffixes(s.take(s.len() - p.len()), p)
    } else {
        s
    }
}

/// The characters after the last `c` (all of `s` when `c` does not occur):
/// the first item of `s.rsplit(c)`.
pub open spec fn after_last(s: Seq<char>, c: char) -> Seq<char>
    decreases s.len(),
{
    if s.len() == 0 {
        s
    } else if s.last() == c {
        Seq::empty()
    } else {
        after_last(s.drop_last(), c).push(s.last())
    }
}

/// `s.trim_end_matches(p)` on characters, for a non-empty pattern.
pub fn strip_suffixes_chars(v: &Vec<char>, p: &Vec<char>) -> (r: usize)
    requires
        p@.len() > 0,
    ensures
        r <= v.len(),
        v@.take(r as int) == strip_suffixes(v@, p@),
{
    let mut n = v.len();
    assert(v@.take(n as int) =~= v@);
    while n >= p.len() && vec_matches_at(v, p, n - p.len())
        invariant
            n <= v.len(),
            p@.len() > 0,
            strip_suffixes(v@, p@) == strip_suffixes(v@.take(n as int), p@),
        decreases n,
    {
        assert(has_suffix(v@.take(n as int), p@));
        assert(v@.take(n as int).take(n - p@.len()) =~= v@.take(n - p@.len()));
        n -= p.len();
    }
    assert(!has_suffix(v@.take(n as int), p@));
    n
}

/// The first item of `s.rsplit(c)` on the first `n` characters.
pub fn after_last_chars(v: &Vec<char>, n: usize, c: char) -> (r: Vec<char>)
    requires
        n <= v.len(),
    ensures
        r@ == after_last(v@.take(n as int), c),
{
    let mut start = n;
    while start > 0 && v[start - 1] != c
        invariant
            start <= n <= v.len(),
            after_last(v@.take(n as int), c) == after_last(v@.take(start as int), c)
                + v@.subrange(start as int, n as int),
        decreases start,
    {
        let ghost t = v@.take(start as int);
        assert(t.drop_last() =~= v@.take(start - 1));
        assert(v@.subrange(start - 1, n as int) =~= seq![v@[start - 1]] + v@.subrange(
            start as int,
            n as int,
        ));
        assert(after_last(t, c) == after_last(t.drop_last(), c).push(t.last()));
        assert(after_last(t.drop_last(), c).push(t.last()) + v@.subrange(start as int, n as int)
            =~= after_last(t.drop_last(), c) + v@.subrange(start - 1, n as int));
        start -= 1;
    }
    if start > 0 {
        assert(after_last(v@.take(start as int), c) =~= Seq::<char>::empty());
    } else {
        assert(v@.take(0) =~= Seq::<char>::empty());
    }
    let mut out: Vec<char> = Vec::new();
    let mut k = start;
    while k < n
        invariant
            start <= k <= n <= v.len(),
            out@ == v@.subrange(start as int, k as int),
        decreases n - k,
    {
        out.push(v[k]);
        k += 1;
    }
    assert(Seq::<char>::empty() + v@.subrange(start as int, n as int) =~= out@);
    out
}

// ---------------------------------------------------------------------------
// Replacement (`str::replace`)
// ---------------------------------------------------------------------------

/// `s` with every non-overlapping occurrence of `p`, scanning left to right,
/// replaced by `r` (an empty pattern leaves `s` unchanged here).
pub open spec fn replaced(s: Seq<char>, p: Seq<char>, r: Seq<char>) -> Seq<char>
    decreases s.len(),
{
    if p.len() == 0 || s.len() == 0 {
        s
    } else if has_prefix(s, p) {
        r + replaced(s.skip(p.len() as int), p, r)
    } else {
        seq![s[0]] + replaced(s.drop_first(), p, r)
    }
}

/// `s.replace(p, r)` for a non-empty pattern.
pub fn replace(s: &str, p: &str, r: &str) -> (out: String)
    requires
        p@.len() > 0,
    ensures
        out@ == replaced(s@, p@, r@),
{
    let sv = chars_of(s);
    let pv = chars_of(p);
    let rv = chars_of(r);
    let mut out: Vec<char> = Vec::new();
    let mut i: usize = 0;
    assert(sv@.skip(0) =~= sv@);
    assert(out@ + replaced(sv@, pv@, rv@) =~= replaced(sv@, pv@, rv@));
    while i < sv.len()
        invariant
            i <= sv.len(),
            pv@.len() > 0,
            pv@ == p@,
            rv@ == r@,
            out@ + replaced(sv@.skip(i as int), pv@, rv@) == replaced(sv@, pv@, rv@),
        decreases sv.len() - i,
    {
        let ghost rest = sv@.skip(i as int);
        if vec_matches_at(&sv, &pv, i) {
            proof {
                assert(has_prefix(rest, pv@));
                assert(rest.skip(pv@.len() as int) =~= sv@.skip(i + pv@.len()));
            }
            let mut k: usize = 0;
            let ghost before = out@;
            while k < rv.len()
                invariant
                    k <= rv.len(),
                    out@ == before + rv@.take(k as int),
                decreases rv.len() - k,
            {
                out.push(rv[k]);
                k += 1;
            }
            assert(rv@.take(rv.len() as int) == rv@);
            assert(before + (rv@ + replaced(sv@.skip(i + pv@.len()), pv@, rv@)) =~= (before + rv@)
                + replaced(sv@.skip(i + pv@.len()), pv@, rv@));
            i += pv.len();
        } else {
            proof {
                assert(!has_prefix(rest, pv@));
                assert(rest.drop_first() =~= sv@.skip(i + 1));
            }
            let ghost before = out@;
            out.push(sv[i]);
            assert(before + (seq![sv@[i as int]] + replaced(sv@.skip(i + 1), pv@, rv@)) =~= before.push(
                sv@[i as int],
            ) + replaced(sv@.skip(i + 1), pv@, rv@));
            i += 1;
        }
    }
    assert(sv@.skip(i as int) =~= Seq::<char>::empty());
    assert(out@ + Seq::<char>::empty() =~= out@);
    assert(sv@.skip(0) =~= sv@);
    string_from_chars(&out)
}


// ---------------------------------------------------------------------------
// Signed decimals and substring search
// ---------------------------------------------------------------------------

/// A non-empty run of decimal digits.
pub open spec fn all_digits(d: Seq<char>) -> bool {
    d.len() > 0 && forall|i: int| 0 <= i < d.len() ==> is_digit(#[trigger] d[i])
}

/// `w.parse::<i64>()`: an optional sign (`+` or `-`) and at least one
/// decimal digit, with the value in range.
pub open spec fn parse_i64_of(w: Seq<char>) -> Option<i64> {
    if w.len() > 0 && w[0] == '-' {
        let d = w.drop_first();
        if all_digits(d) && dec_value(d) <= 9223372036854775808 {
            Some((0 - dec_value(d)) as i64)
        } else {
            None
        }
    } else {
        let d = unsigned_digits(w);
        if all_digits(d) && dec_value(d) <= 9223372036854775807 {
            Some(dec_value(d) as i64)
        } else {
            None
        }
    }
}

/// The value of `w[start..]` when it is a run of digits worth at most `cap`.
fn digits_upto(w: &Vec<char>, start: usize, cap: u64) -> (r: Option<u64>)
    requires
        start <= w.len(),
    ensures
        ({
            let d = w@.subrange(start as int, w@.len() as int);
            r == if all_digits(d) && dec_value(d) <= cap {
                Some(dec_value(d) as u64)
            } else {
                None::<u64>
            }
        }),
{
    let ghost d = w@.subrange(start as int, w@.len() as int);
    if start >= w.len() {
        return None;
    }
    let mut acc: u64 = 0;
    let mut i = start;
    while i < w.len()
        invariant
            start <= i <= w.len(),
            start < w.len(),
            d == w@.subrange(start as int, w@.len() as int),
            forall|k: int| 0 <= k < i - start ==> is_digit(#[trigger] d[k]),
            acc as nat == dec_value(d.subrange(0, i - start)),
            acc <= cap,
        decreases w.len() - i,
    {
        let c = w[i];
        let cu = c as u32;
        assert(d[i - start] == c);
        if !(48 <= cu && cu <= 57) {
            assert(!is_digit(d[i - start]));
            return None;
        }
        let dv = (cu - 48) as u64;
        let ghost pre = d.subrange(0, i - start);
        assert(d.subrange(0, i - start + 1).drop_last() == pre);
        let next: u128 = acc as u128 * 10 + dv as u128;
        if next > cap as u128 {
            proof {
                let t = d.subrange(0, i - start + 1);
                assert(t.last() == c);
                assert(dec_value(t) == 10 * dec_value(pre) + dv);
                if all_digits(d) {
                    lemma_dec_value_prefix_monotone(d, i - start + 1);
                }
            }
            return None;
        }
        acc = next as u64;
        i += 1;
    }
    assert(d.subrange(0, i - start) == d);
    Some(acc)
}

/// `w.parse::<i64>().ok()` on characters.
pub fn parse_i64(w: &Vec<char>) -> (r: Option<i64>)
    ensures
        r == parse_i64_of(w@),
{
    if w.len() > 0 && w[0] == '-' {
        assert(w@.subrange(1, w@.len() as int) == w@.drop_first());
        match digits_upto(w, 1, 9223372036854775808u64) {
            Some(n) => {
                if n == 9223372036854775808u64 {
                    Some(i64::MIN)
                } else {
                    Some(-(n as i64))
                }
            },
            None => None,
        }
    } else {
        let start: usize = if w.len() > 0 && w[0] == '+' {
            1
        } else {
            0
        };
        assert(unsigned_digits(w@) == w@.subrange(start as int, w@.len() as int));
        match digits_upto(w, start, 9223372036854775807u64) {
            Some(n) => Some(n as i64),
            None => None,
        }
    }
}

/// The first position at or after `i` where `p` occurs in `s`.
pub open spec fn first_match(s: Seq<char>, p: Seq<char>, i: int) -> Option<int>
    decreases s.len() + 1 - i,
{
    if i < 0 || i > s.len() {
        None
    } else if matches_at(s, p, i) {
        Some(i)
    } else {
        first_match(s, p, i + 1)
    }
}

/// A position found by `first_match` is a match at or after the start.
pub proof fn lemma_first_match(s: Seq<char>, p: Seq<char>, i: int)
    ensures
        first_match(s, p, i) matches Some(j) ==> matches_at(s, p, j) && i <= j,
    decreases s.len() + 1 - i,
{
    if 0 <= i <= s.len() && !matches_at(s, p, i) {
        lemma_first_match(s, p, i + 1);
    }
}

/// `s.find(p)` on characters: the first position where `p` occurs.
pub fn find_sub(s: &Vec<char>, p: &Vec<char>) -> (r: Option<usize>)
    ensures
        match r {
            Some(i) => first_match(s@, p@, 0) == Some(i as int),
            None => first_match(s@, p@, 0) is None,
        },
{
    let mut i: usize = 0;
    while i < s.len()
        invariant
            i <= s.len(),
            first_match(s@, p@, 0) == first_match(s@, p@, i as int),
        decreases s.len() - i,
    {
        if vec_matches_at(s, p, i) {
            return Some(i);
        }
        i += 1;
    }
    if vec_matches_at(s, p, i) {
        return Some(i);
    }
    assert(first_match(s@, p@, i as int + 1) is None);
    None
}

} // verus!
