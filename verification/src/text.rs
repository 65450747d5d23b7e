//! Character-level text handling shared by the parsers and the message
//! builders: whitespace trimming, line splitting, token splitting, searching,
//! decimal rendering, and conversions between `str`, `String` and `Vec<char>`.
use vstd::prelude::*;

verus! {

// ---------------------------------------------------------------------------
// Whitespace
// ---------------------------------------------------------------------------

/// The Unicode `White_Space` property, which std's `char::is_whitespace`
/// and `str::trim` go by.
pub open spec fn is_white_space(c: char) -> bool {
    let n = c as u32;
    (9 <= n && n <= 13) || n == 32 || n == 0x85 || n == 0xA0 || n == 0x1680 || (0x2000 <= n
        && n <= 0x200A) || n == 0x2028 || n == 0x2029 || n == 0x202F || n == 0x205F || n == 0x3000
}

pub fn is_white_space_char(c: char) -> (r: bool)
    ensures
        r == is_white_space(c),
{
    let n = c as u32;
    (9 <= n && n <= 13) || n == 32 || n == 0x85 || n == 0xA0 || n == 0x1680 || (0x2000 <= n && n
        <= 0x200A) || n == 0x2028 || n == 0x2029 || n == 0x202F || n == 0x205F || n == 0x3000
}

pub open spec fn is_ascii_digit(c: char) -> bool {
    '0' <= c && c <= '9'
}

pub fn is_ascii_digit_char(c: char) -> (r: bool)
    ensures
        r == is_ascii_digit(c),
{
    '0' <= c && c <= '9'
}

/// Index of the first character at or after `i` that is not whitespace.
pub open spec fn skip_ws_forward(s: Seq<char>, i: int) -> int
    decreases s.len() - i,
{
    if 0 <= i < s.len() && is_white_space(s[i]) {
        skip_ws_forward(s, i + 1)
    } else {
        i
    }
}

/// One past the last character before `j` (and not before `lo`) that is not whitespace.
pub open spec fn skip_ws_backward(s: Seq<char>, lo: int, j: int) -> int
    decreases j - lo,
{
    if lo < j && j <= s.len() && is_white_space(s[j - 1]) {
        skip_ws_backward(s, lo, j - 1)
    } else {
        j
    }
}

pub open spec fn trim_lo(s: Seq<char>) -> int {
    skip_ws_forward(s, 0)
}

pub open spec fn trim_hi(s: Seq<char>) -> int {
    skip_ws_backward(s, trim_lo(s), s.len() as int)
}

/// `s` without its leading and trailing whitespace, as `str::trim` gives it.
pub open spec fn trim_seq(s: Seq<char>) -> Seq<char> {
    s.subrange(trim_lo(s), trim_hi(s))
}

pub proof fn lemma_skip_forward_bounds(s: Seq<char>, i: int)
    requires
        0 <= i <= s.len(),
    ensures
        i <= skip_ws_forward(s, i) <= s.len(),
        skip_ws_forward(s, i) < s.len() ==> !is_white_space(s[skip_ws_forward(s, i)]),
        forall|k: int| i <= k < skip_ws_forward(s, i) ==> is_white_space(#[trigger] s[k]),
    decreases s.len() - i,
{
    if i < s.len() && is_white_space(s[i]) {
        lemma_skip_forward_bounds(s, i + 1);
    }
}

pub proof fn lemma_skip_backward_bounds(s: Seq<char>, lo: int, j: int)
    requires
        0 <= lo <= j <= s.len(),
    ensures
        lo <= skip_ws_backward(s, lo, j) <= j,
        skip_ws_backward(s, lo, j) > lo ==> !is_white_space(s[skip_ws_backward(s, lo, j) - 1]),
        forall|k: int| skip_ws_backward(s, lo, j) <= k < j ==> is_white_space(#[trigger] s[k]),
    decreases j - lo,
{
    if lo < j && is_white_space(s[j - 1]) {
        lemma_skip_backward_bounds(s, lo, j - 1);
    }
}

pub proof fn lemma_trim_bounds(s: Seq<char>)
    ensures
        0 <= trim_lo(s) <= trim_hi(s) <= s.len(),
        trim_seq(s).len() == trim_hi(s) - trim_lo(s),
{
    lemma_skip_forward_bounds(s, 0);
    lemma_skip_backward_bounds(s, trim_lo(s), s.len() as int);
}

/// Bounds of `trim_seq(s@)` within `s`.
pub fn trim_bounds(s: &Vec<char>) -> (r: (usize, usize))
    ensures
        r.0 == trim_lo(s@),
        r.1 == trim_hi(s@),
        r.0 <= r.1 <= s@.len(),
{
    let mut lo: usize = 0;
    while lo < s.len() && is_white_space_char(s[lo])
        invariant
            lo <= s@.len(),
            skip_ws_forward(s@, lo as int) == skip_ws_forward(s@, 0),
        decreases s@.len() - lo,
    {
        lo = lo + 1;
    }
    let mut hi: usize = s.len();
    while hi > lo && is_white_space_char(s[hi - 1])
        invariant
            lo <= hi <= s@.len(),
            lo == trim_lo(s@),
            skip_ws_backward(s@, lo as int, hi as int) == trim_hi(s@),
        decreases hi - lo,
    {
        hi = hi - 1;
    }
    (lo, hi)
}

// ---------------------------------------------------------------------------
// Conversions
// ---------------------------------------------------------------------------

/// The characters of `s`, in order.
pub fn chars_of(s: &str) -> (v: Vec<char>)
    ensures
        v@ == s@,
{
    let mut v: Vec<char> = Vec::new();
    for c in it: s.chars()
        invariant
            v@ == it.seq().take(it.index() as int),
            it.seq() == s@,
    {
        v.push(c);
    }
    v
}

/// `String` holding the characters of `v` (std's `FromIterator<char>` for `String`).
#[verifier::external_body]
pub(crate) fn string_of(v: &[char]) -> (s: String)
    ensures
        s@ == v@,
{
    v.iter().collect::<String>()
}

/// Copy of `s[lo..hi]`.
pub fn sub_chars(s: &Vec<char>, lo: usize, hi: usize) -> (r: Vec<char>)
    requires
        lo <= hi <= s@.len(),
    ensures
        r@ == s@.subrange(lo as int, hi as int),
{
    let mut r: Vec<char> = Vec::new();
    let mut i = lo;
    while i < hi
        invariant
            lo <= i <= hi <= s@.len(),
            r@ == s@.subrange(lo as int, i as int),
        decreases hi - i,
    {
        r.push(s[i]);
        i = i + 1;
    }
    r
}

/// `str::trim`, on characters.
pub fn trim_chars(s: &Vec<char>) -> (r: Vec<char>)
    ensures
        r@ == trim_seq(s@),
{
    let (lo, hi) = trim_bounds(s);
    sub_chars(s, lo, hi)
}

/// `str::trim`.
pub fn trim_text(s: &str) -> (r: String)
    ensures
        r@ == trim_seq(s@),
{
    let v = chars_of(s);
    let t = trim_chars(&v);
    string_of(t.as_slice())
}

// ---------------------------------------------------------------------------
// Comparison and search
// ---------------------------------------------------------------------------

pub fn chars_eq(a: &Vec<char>, b: &Vec<char>) -> (r: bool)
    ensures
        r == (a@ == b@),
{
    if a.len() != b.len() {
        return false;
    }
    let mut i: usize = 0;
    while i < a.len()
        invariant
            a@.len() == b@.len(),
            i <= a@.len(),
            forall|k: int| 0 <= k < i ==> a@[k] == b@[k],
        decreases a@.len() - i,
    {
        if a[i] != b[i] {
            return false;
        }
        i = i + 1;
    }
    assert(a@ =~= b@);
    true
}

/// Whether `s` equals the text `lit`.
pub fn chars_eq_str(s: &Vec<char>, lit: &str) -> (r: bool)
    ensures
        r == (s@ == lit@),
{
    let l = chars_of(lit);
    chars_eq(s, &l)
}

pub open spec fn has_prefix(s: Seq<char>, p: Seq<char>) -> bool {
    p.len() <= s.len() && s.subrange(0, p.len() as int) == p
}

/// Whether `p` occurs in `s` starting at index `i`.
pub open spec fn occurs_at(s: Seq<char>, p: Seq<char>, i: int) -> bool {
    0 <= i && i + p.len() <= s.len() && s.subrange(i, i + p.len()) == p
}

/// Whether `p` occurs anywhere in `s` (`str::contains`).
pub open spec fn contains_seq(s: Seq<char>, p: Seq<char>) -> bool {
    exists|i: int| occurs_at(s, p, i)
}

/// Whether `p` occurs in `s` at index `i`.
pub fn matches_at(s: &Vec<char>, p: &Vec<char>, i: usize) -> (r: bool)
    ensures
        r == occurs_at(s@, p@, i as int),
{
    if i > s.len() || p.len() > s.len() - i {
        return false;
    }
    let mut k: usize = 0;
    while k < p.len()
        invariant
            i + p@.len() <= s@.len(),
            s@.len() == s.len(),
            k <= p@.len(),
            forall|j: int| 0 <= j < k ==> s@[i + j] == p@[j],
        decreases p@.len() - k,
    {
        if s[i + k] != p[k] {
            assert(s@.subrange(i as int, i + p@.len())[k as int] != p@[k as int]);
            return false;
        }
        k = k + 1;
    }
    assert(s@.subrange(i as int, i + p@.len()) =~= p@);
    true
}

pub fn starts_with_chars(s: &Vec<char>, p: &Vec<char>) -> (r: bool)
    ensures
        r == has_prefix(s@, p@),
{
    matches_at(s, p, 0)
}

/// `str::starts_with` with a literal prefix.
pub fn starts_with_str(s: &Vec<char>, lit: &str) -> (r: bool)
    ensures
        r == has_prefix(s@, lit@),
{
    let p = chars_of(lit);
    starts_with_chars(s, &p)
}

/// Index of the first occurrence of `p` in `s` at or after `i`, or -1.
pub open spec fn find_from(s: Seq<char>, p: Seq<char>, i: int) -> int
    decreases s.len() + 1 - i,
{
    if i < 0 || i > s.len() {
        -1
    } else if occurs_at(s, p, i) {
        i
    } else {
        find_from(s, p, i + 1)
    }
}

/// Index of the first occurrence of `p` in `s`, or -1.
pub open spec fn find_seq(s: Seq<char>, p: Seq<char>) -> int {
    find_from(s, p, 0)
}

pub proof fn lemma_find_from(s: Seq<char>, p: Seq<char>, i: int)
    requires
        0 <= i,
    ensures
        find_from(s, p, i) == -1 || (i <= find_from(s, p, i) && occurs_at(s, p, find_from(s, p, i))),
        find_from(s, p, i) == -1 ==> forall|j: int| i <= j ==> !occurs_at(s, p, j),
        find_from(s, p, i) != -1 ==> forall|j: int| i <= j < find_from(s, p, i) ==> !occurs_at(s, p, j),
    decreases s.len() + 1 - i,
{
    if i > s.len() {
        assert forall|j: int| i <= j implies !occurs_at(s, p, j) by {
            assert(j + p.len() > s.len());
        }
    } else if !occurs_at(s, p, i) {
        lemma_find_from(s, p, i + 1);
    }
}

/// Index of the first occurrence of `p` in `s`, if any.
pub fn find_chars(s: &Vec<char>, p: &Vec<char>) -> (r: Option<usize>)
    ensures
        match r {
            Some(i) => i as int == find_seq(s@, p@),
            None => find_seq(s@, p@) == -1,
        },
        r is None <==> !contains_seq(s@, p@),
{
    let n = s.len();
    let mut i: usize = 0;
    loop
        invariant
            n == s@.len(),
            i <= n,
            find_from(s@, p@, i as int) == find_seq(s@, p@),
        decreases n - i,
    {
        if matches_at(s, p, i) {
            return Some(i);
        }
        if i == n {
            assert(find_from(s@, p@, i + 1) == -1);
            assert(find_from(s@, p@, i as int) == -1);
            assert(find_from(s@, p@, 0) == -1);
            proof {
                lemma_find_from(s@, p@, 0);
            }
            assert forall|j: int| !occurs_at(s@, p@, j) by {
                if j >= 0 {
                    assert(!occurs_at(s@, p@, j));
                }
            }
            return None;
        }
        i = i + 1;
    }
}

/// `str::contains` with a literal needle.
pub fn contains_str(s: &Vec<char>, lit: &str) -> (r: bool)
    ensures
        r == contains_seq(s@, lit@),
{
    let p = chars_of(lit);
    match find_chars(s, &p) {
        Some(_) => true,
        None => false,
    }
}

/// Whether `s` contains the character `c`.
pub fn contains_char(s: &Vec<char>, c: char) -> (r: bool)
    ensures
        r == s@.contains(c),
{
    let mut i: usize = 0;
    while i < s.len()
        invariant
            i <= s@.len(),
            forall|j: int| 0 <= j < i ==> s@[j] != c,
        decreases s@.len() - i,
    {
        if s[i] == c {
            return true;
        }
        i = i + 1;
    }
    false
}

// ---------------------------------------------------------------------------
// Building text
// ---------------------------------------------------------------------------

/// Appends the characters of `s` to `out`.
pub fn push_str(out: &mut Vec<char>, s: &str)
    ensures
        final(out)@ == old(out)@ + s@,
{
    let v = chars_of(s);
    push_chars(out, &v);
}

/// Appends `v` to `out`.
pub fn push_chars(out: &mut Vec<char>, v: &Vec<char>)
    ensures
        final(out)@ == old(out)@ + v@,
{
    let ghost start = out@;
    let mut i: usize = 0;
    while i < v.len()
        invariant
            i <= v@.len(),
            out@ == start + v@.subrange(0, i as int),
        decreases v@.len() - i,
    {
        out.push(v[i]);
        i = i + 1;
    }
    assert(v@.subrange(0, v@.len() as int) =~= v@);
}

// ---------------------------------------------------------------------------
// Splitting
// ---------------------------------------------------------------------------

/// Drops one trailing carriage return.
pub open spec fn strip_trailing_cr(s: Seq<char>) -> Seq<char> {
    if s.len() > 0 && s.last() == '\r' {
        s.drop_last()
    } else {
        s
    }
}

/// Finished lines and the line in progress after reading `s`.
pub open spec fn line_scan(s: Seq<char>) -> (Seq<Seq<char>>, Seq<char>)
    decreases s.len(),
{
    if s.len() == 0 {
        (seq![], seq![])
    } else {
        let acc = line_scan(s.drop_last());
        if s.last() == '\n' {
            (acc.0.push(strip_trailing_cr(acc.1)), seq![])
        } else {
            (acc.0, acc.1.push(s.last()))
        }
    }
}

/// The lines of `s` as `str::lines` yields them: split after each `\n`, a
/// `\r` right before that `\n` dropped, no empty last line.
pub open spec fn lines_seq(s: Seq<char>) -> Seq<Seq<char>> {
    let acc = line_scan(s);
    if acc.1.len() == 0 {
        acc.0
    } else {
        acc.0.push(acc.1)
    }
}

/// A vector of characters deep-views as its plain view.
pub proof fn lemma_chars_deep_view(v: Vec<char>)
    ensures
        v.deep_view() == v@,
{
    assert(v.deep_view() =~= v@);
}

/// `str::lines`.
pub fn lines_of(s: &Vec<char>) -> (r: Vec<Vec<char>>)
    ensures
        r.deep_view() == lines_seq(s@),
{
    let mut done: Vec<Vec<char>> = Vec::new();
    let mut cur: Vec<char> = Vec::new();
    let mut i: usize = 0;
    while i < s.len()
        invariant
            i <= s@.len(),
            (done.deep_view(), cur@) == line_scan(s@.take(i as int)),
        decreases s@.len() - i,
    {
        let c = s[i];
        assert(s@.take(i + 1).drop_last() =~= s@.take(i as int));
        if c == '\n' {
            if cur.len() > 0 && cur[cur.len() - 1] == '\r' {
                cur.pop();
            }
            let ghost before = done.deep_view();
            let finished = cur;
            proof { lemma_chars_deep_view(finished); }
            done.push(finished);
            assert(done.deep_view() =~= before.push(finished@));
            cur = Vec::new();
        } else {
            cur.push(c);
        }
        i = i + 1;
    }
    assert(s@.take(s@.len() as int) =~= s@);
    if cur.len() > 0 {
        let ghost before = done.deep_view();
        let last = cur;
        proof { lemma_chars_deep_view(last); }
        done.push(last);
        assert(done.deep_view() =~= before.push(last@));
    }
    done
}

/// Finished tokens and the token in progress after reading `s`.
pub open spec fn word_scan(s: Seq<char>) -> (Seq<Seq<char>>, Seq<char>)
    decreases s.len(),
{
    if s.len() == 0 {
        (seq![], seq![])
    } else {
        let acc = word_scan(s.drop_last());
        if is_white_space(s.last()) {
            if acc.1.len() > 0 {
                (acc.0.push(acc.1), seq![])
            } else {
                acc
            }
        } else {
            (acc.0, acc.1.push(s.last()))
        }
    }
}

/// The maximal runs of non-whitespace characters of `s`, in order
/// (`str::split_whitespace`).
pub open spec fn words_seq(s: Seq<char>) -> Seq<Seq<char>> {
    let acc = word_scan(s);
    if acc.1.len() == 0 {
        acc.0
    } else {
        acc.0.push(acc.1)
    }
}

/// `str::split_whitespace`.
pub fn split_whitespace_of(s: &Vec<char>) -> (r: Vec<Vec<char>>)
    ensures
        r.deep_view() == words_seq(s@),
{
    let mut done: Vec<Vec<char>> = Vec::new();
    let mut cur: Vec<char> = Vec::new();
    let mut i: usize = 0;
    while i < s.len()
        invariant
            i <= s@.len(),
            (done.deep_view(), cur@) == word_scan(s@.take(i as int)),
        decreases s@.len() - i,
    {
        let c = s[i];
        assert(s@.take(i + 1).drop_last() =~= s@.take(i as int));
        if is_white_space_char(c) {
            if cur.len() > 0 {
                let ghost before = done.deep_view();
                let finished = cur;
            proof { lemma_chars_deep_view(finished); }
                done.push(finished);
                assert(done.deep_view() =~= before.push(finished@));
                cur = Vec::new();
            }
        } else {
            cur.push(c);
        }
        i = i + 1;
    }
    assert(s@.take(s@.len() as int) =~= s@);
    if cur.len() > 0 {
        let ghost before = done.deep_view();
        let last = cur;
        proof { lemma_chars_deep_view(last); }
        done.push(last);
        assert(done.deep_view() =~= before.push(last@));
    }
    done
}

/// Finished pieces and the piece in progress after reading `s`, splitting
/// at every character for which `is_sep` holds.
pub open spec fn piece_scan(s: Seq<char>, is_sep: spec_fn(char) -> bool) -> (
    Seq<Seq<char>>,
    Seq<char>,
)
    decreases s.len(),
{
    if s.len() == 0 {
        (seq![], seq![])
    } else {
        let acc = piece_scan(s.drop_last(), is_sep);
        if is_sep(s.last()) {
            (acc.0.push(acc.1), seq![])
        } else {
            (acc.0, acc.1.push(s.last()))
        }
    }
}

/// The pieces between separators, empty ones included (`str::split`).
pub open spec fn pieces_seq(s: Seq<char>, is_sep: spec_fn(char) -> bool) -> Seq<Seq<char>> {
    let acc = piece_scan(s, is_sep);
    acc.0.push(acc.1)
}

pub open spec fn is_comma(c: char) -> bool {
    c == ','
}

/// `str::split(',')`.
pub fn split_commas(s: &Vec<char>) -> (r: Vec<Vec<char>>)
    ensures
        r.deep_view() == pieces_seq(s@, |c: char| is_comma(c)),
{
    let ghost sep = |c: char| is_comma(c);
    let mut done: Vec<Vec<char>> = Vec::new();
    let mut cur: Vec<char> = Vec::new();
    let mut i: usize = 0;
    while i < s.len()
        invariant
            i <= s@.len(),
            sep == (|c: char| is_comma(c)),
            (done.deep_view(), cur@) == piece_scan(s@.take(i as int), sep),
        decreases s@.len() - i,
    {
        let c = s[i];
        assert(s@.take(i + 1).drop_last() =~= s@.take(i as int));
        if c == ',' {
            let ghost before = done.deep_view();
            let finished = cur;
            proof { lemma_chars_deep_view(finished); }
            done.push(finished);
            assert(done.deep_view() =~= before.push(finished@));
            cur = Vec::new();
        } else {
            cur.push(c);
        }
        i = i + 1;
    }
    assert(s@.take(s@.len() as int) =~= s@);
    let ghost before = done.deep_view();
    let last = cur;
        proof { lemma_chars_deep_view(last); }
    done.push(last);
    assert(done.deep_view() =~= before.push(last@));
    done
}

/// Part of `s` after the prefix `p`, if `s` starts with `p` (`str::strip_prefix`).
pub open spec fn strip_prefix_seq(s: Seq<char>, p: Seq<char>) -> Option<Seq<char>> {
    if has_prefix(s, p) {
        Some(s.subrange(p.len() as int, s.len() as int))
    } else {
        None
    }
}

/// `str::strip_prefix` with a literal prefix.
pub fn strip_prefix_str(s: &Vec<char>, lit: &str) -> (r: Option<Vec<char>>)
    ensures
        r.deep_view() == strip_prefix_seq(s@, lit@),
{
    let p = chars_of(lit);
    if starts_with_chars(s, &p) {
        Some(sub_chars(s, p.len(), s.len()))
    } else {
        None
    }
}

/// Parts of `s` before and after the first occurrence of `p` (`str::split_once`).
pub open spec fn split_once_seq(s: Seq<char>, p: Seq<char>) -> Option<(Seq<char>, Seq<char>)> {
    let i = find_seq(s, p);
    if i == -1 {
        None
    } else {
        Some((s.subrange(0, i), s.subrange(i + p.len(), s.len() as int)))
    }
}

/// `str::split_once` with a literal delimiter.
pub fn split_once_str(s: &Vec<char>, lit: &str) -> (r: Option<(Vec<char>, Vec<char>)>)
    ensures
        r.deep_view() == split_once_seq(s@, lit@),
{
    let p = chars_of(lit);
    proof {
        lemma_find_from(s@, p@, 0);
    }
    match find_chars(s, &p) {
        Some(i) => {
            assert(occurs_at(s@, p@, i as int));
            let n = s.len();
            let m = p.len();
            assert(i + m <= n);
            let before = sub_chars(s, 0, i);
            let after = sub_chars(s, i + m, n);
            Some((before, after))
        },
        None => None,
    }
}

/// `s` with every `_` replaced by a space.
pub open spec fn underscores_to_spaces(s: Seq<char>) -> Seq<char> {
    s.map_values(|c: char| if c == '_' { ' ' } else { c })
}

/// `str::replace('_', " ")`.
pub fn replace_underscores(s: &Vec<char>) -> (r: Vec<char>)
    ensures
        r@ == underscores_to_spaces(s@),
{
    let mut r: Vec<char> = Vec::new();
    let mut i: usize = 0;
    while i < s.len()
        invariant
            i <= s@.len(),
            r@ == underscores_to_spaces(s@.take(i as int)),
        decreases s@.len() - i,
    {
        let c = s[i];
        if c == '_' {
            r.push(' ');
        } else {
            r.push(c);
        }
        assert(underscores_to_spaces(s@.take(i + 1)) =~= underscores_to_spaces(s@.take(i as int)).push(
            if c == '_' { ' ' } else { c }));
        i = i + 1;
    }
    assert(s@.take(s@.len() as int) =~= s@);
    r
}

// ---------------------------------------------------------------------------
// Counting and measuring
// ---------------------------------------------------------------------------

/// Number of ASCII digits in `s`.
pub open spec fn digit_count(s: Seq<char>) -> nat
    decreases s.len(),
{
    if s.len() == 0 {
        0
    } else {
        digit_count(s.drop_last()) + if is_ascii_digit(s.last()) { 1nat } else { 0nat }
    }
}

pub fn count_digits(s: &Vec<char>) -> (r: usize)
    ensures
        r == digit_count(s@),
{
    let mut n: usize = 0;
    let mut i: usize = 0;
    while i < s.len()
        invariant
            i <= s@.len(),
            n == digit_count(s@.take(i as int)),
            n <= i,
        decreases s@.len() - i,
    {
        assert(s@.take(i + 1).drop_last() =~= s@.take(i as int));
        if is_ascii_digit_char(s[i]) {
            n = n + 1;
        }
        i = i + 1;
    }
    assert(s@.take(s@.len() as int) =~= s@);
    n
}

/// Bytes that `c` takes in UTF-8.
pub open spec fn utf8_width(c: char) -> nat {
    let n = c as u32;
    if n < 0x80 {
        1
    } else if n < 0x800 {
        2
    } else if n < 0x10000 {
        3
    } else {
        4
    }
}

/// Bytes that `s` takes in UTF-8 (`str::len`).
pub open spec fn utf8_len(s: Seq<char>) -> nat
    decreases s.len(),
{
    if s.len() == 0 {
        0
    } else {
        utf8_len(s.drop_last()) + utf8_width(s.last())
    }
}

/// `str::len` of the text `s`, capped at `cap + 1`: exact when at most `cap`.
pub fn utf8_len_capped(s: &Vec<char>, cap: usize) -> (r: usize)
    requires
        cap < usize::MAX,
    ensures
        r == if utf8_len(s@) <= cap { utf8_len(s@) } else { cap as nat + 1 },
{
    let mut n: usize = 0;
    let mut i: usize = 0;
    while i < s.len()
        invariant
            i <= s@.len(),
            cap < usize::MAX,
            n <= cap,
            n == utf8_len(s@.take(i as int)),
        decreases s@.len() - i,
    {
        assert(s@.take(i + 1).drop_last() =~= s@.take(i as int));
        let u = s[i] as u32;
        let w: usize = if u < 0x80 {
            1
        } else if u < 0x800 {
            2
        } else if u < 0x10000 {
            3
        } else {
            4
        };
        if w > cap - n {
            proof {
                lemma_utf8_len_prefix_mono(s@, i + 1);
            }
            return cap + 1;
        }
        n = n + w;
        i = i + 1;
    }
    assert(s@.take(s@.len() as int) =~= s@);
    n
}

pub proof fn lemma_utf8_len_prefix_mono(s: Seq<char>, k: int)
    requires
        0 <= k <= s.len(),
    ensures
        utf8_len(s.take(k)) <= utf8_len(s),
    decreases s.len() - k,
{
    if k < s.len() {
        lemma_utf8_len_prefix_mono(s, k + 1);
        assert(s.take(k + 1).drop_last() =~= s.take(k));
    } else {
        assert(s.take(k) =~= s);
    }
}

// ---------------------------------------------------------------------------
// Numbers
// ---------------------------------------------------------------------------

pub open spec fn digit_char(d: nat) -> char {
    if d == 0 {
        '0'
    } else if d == 1 {
        '1'
    } else if d == 2 {
        '2'
    } else if d == 3 {
        '3'
    } else if d == 4 {
        '4'
    } else if d == 5 {
        '5'
    } else if d == 6 {
        '6'
    } else if d == 7 {
        '7'
    } else if d == 8 {
        '8'
    } else {
        '9'
    }
}

/// Decimal digits of `n`, most significant first, without leading zeros
/// (how `{}` formats an unsigned integer).
pub open spec fn decimal_seq(n: nat) -> Seq<char>
    decreases n,
{
    if n < 10 {
        seq![digit_char(n)]
    } else {
        decimal_seq(n / 10).push(digit_char(n % 10))
    }
}

fn digit_of(d: u64) -> (c: char)
    requires
        d < 10,
    ensures
        c == digit_char(d as nat),
{
    if d == 0 {
        '0'
    } else if d == 1 {
        '1'
    } else if d == 2 {
        '2'
    } else if d == 3 {
        '3'
    } else if d == 4 {
        '4'
    } else if d == 5 {
        '5'
    } else if d == 6 {
        '6'
    } else if d == 7 {
        '7'
    } else if d == 8 {
        '8'
    } else {
        '9'
    }
}

/// Appends the decimal digits of `n` to `out`.
pub fn push_decimal(out: &mut Vec<char>, n: u64)
    ensures
        final(out)@ == old(out)@ + decimal_seq(n as nat),
    decreases n,
{
    if n >= 10 {
        push_decimal(out, n / 10);
    }
    out.push(digit_of(n % 10));
}

/// Numeric value of a run of ASCII digits.
pub open spec fn digits_value(s: Seq<char>) -> nat
    decreases s.len(),
{
    if s.len() == 0 {
        0
    } else {
        digits_value(s.drop_last()) * 10 + ((s.last() as u32) - ('0' as u32)) as nat
    }
}

pub open spec fn all_ascii_digits(s: Seq<char>) -> bool {
    forall|i: int| 0 <= i < s.len() ==> is_ascii_digit(#[trigger] s[i])
}

/// The digits that `u32::from_str` reads: all of `s`, or all but a leading `+`.
pub open spec fn unsigned_digits(s: Seq<char>) -> Seq<char> {
    if s.len() > 0 && s[0] == '+' {
        s.drop_first()
    } else {
        s
    }
}

/// What `str::parse::<u32>` gives for `s`.
pub open spec fn parse_u32_seq(s: Seq<char>) -> Option<u32> {
    let d = unsigned_digits(s);
    if d.len() > 0 && all_ascii_digits(d) && digits_value(d) <= u32::MAX {
        Some(digits_value(d) as u32)
    } else {
        None
    }
}

pub proof fn lemma_digits_value_prefix_mono(s: Seq<char>, k: int)
    requires
        0 <= k <= s.len(),
        all_ascii_digits(s),
    ensures
        digits_value(s.take(k)) <= digits_value(s),
    decreases s.len() - k,
{
    if k < s.len() {
        lemma_digits_value_prefix_mono(s, k + 1);
        assert(s.take(k + 1).drop_last() =~= s.take(k));
    } else {
        assert(s.take(k) =~= s);
    }
}

/// `str::parse::<u32>`, with `None` for every error.
pub fn parse_u32(s: &Vec<char>) -> (r: Option<u32>)
    ensures
        r == parse_u32_seq(s@),
{
    let start: usize = if s.len() > 0 && s[0] == '+' {
        1
    } else {
        0
    };
    let ghost d = unsigned_digits(s@);
    assert(d =~= s@.subrange(start as int, s@.len() as int));
    if start >= s.len() {
        return None;
    }
    let mut acc: u64 = 0;
    let mut i: usize = start;
    while i < s.len()
        invariant
            start <= i <= s@.len(),
            d == s@.subrange(start as int, s@.len() as int),
            d == unsigned_digits(s@),
            all_ascii_digits(d.take(i - start)),
            acc == digits_value(d.take(i - start)),
            acc <= u32::MAX,
        decreases s@.len() - i,
    {
        let c = s[i];
        assert(d[i - start] == c);
        if !is_ascii_digit_char(c) {
            assert(!is_ascii_digit(d[i - start]));
            assert(!all_ascii_digits(d));
            return None;
        }
        let v = (c as u32 - '0' as u32) as u64;
        assert(d.take(i - start + 1).drop_last() =~= d.take(i - start));
        let next = acc * 10 + v;
        if next > 0xFFFF_FFFF {
            proof {
                assert(d.take(i - start + 1).last() == c);
                assert(digits_value(d.take(i - start + 1)) == next);
                assert(all_ascii_digits(d.take(i - start + 1)));
                if all_ascii_digits(d) {
                    lemma_digits_value_prefix_mono(d, i - start + 1);
                }
            }
            return None;
        }
        acc = next;
        i = i + 1;
    }
    assert(d.take(d.len() as int) =~= d);
    Some(acc as u32)
}

// ---------------------------------------------------------------------------
// Case mapping (std's Unicode tables)
// ---------------------------------------------------------------------------

/// What std's `str::to_uppercase` gives for a text.
pub uninterp spec fn str_to_uppercase(s: Seq<char>) -> Seq<char>;

/// What std's `str::to_lowercase` gives for a text.
pub uninterp spec fn str_to_lowercase(s: Seq<char>) -> Seq<char>;

/// Calls std's `str::to_uppercase`; the contract only names its result,
/// since the Unicode case tables are not restated here.
#[verifier::external_body]
pub(crate) fn to_uppercase_text(s: &str) -> (r: String)
    ensures
        r@ == str_to_uppercase(s@),
{
    s.to_uppercase()
}

/// Calls std's `str::to_lowercase`; the contract only names its result,
/// since the Unicode case tables are not restated here.
#[verifier::external_body]
pub(crate) fn to_lowercase_text(s: &str) -> (r: String)
    ensures
        r@ == str_to_lowercase(s@),
{
    s.to_lowercase()
}

} // verus!
