//! Character-level helpers: white-space trimming, decimal rendering of
//! integers, character vectors and the lexicographic order of strings.

use vstd::prelude::*;

verus! {

/// Whether `c` has the Unicode `White_Space` property: the tab, line feed,
/// line tabulation, form feed and carriage return controls, space, next line,
/// no-break space, ogham space mark, the spaces from en quad to hair space,
/// line and paragraph separators, narrow no-break space, medium mathematical
/// space and ideographic space. This is the set `char::is_whitespace` tests.
pub open spec fn unicode_white_space(c: char) -> bool {
    let n = c as int;
    ||| 0x9 <= n <= 0xD
    ||| n == 0x20
    ||| n == 0x85
    ||| n == 0xA0
    ||| n == 0x1680
    ||| 0x2000 <= n <= 0x200A
    ||| n == 0x2028
    ||| n == 0x2029
    ||| n == 0x202F
    ||| n == 0x205F
    ||| n == 0x3000
}

/// Whether `c` is white space, as `char::is_whitespace` answers it.
pub fn is_whitespace(c: char) -> (b: bool)
    ensures
        b == unicode_white_space(c),
{
    let n: u32 = c as u32;
    (0x9 <= n && n <= 0xD) || n == 0x20 || n == 0x85 || n == 0xA0 || n == 0x1680 || (0x2000 <= n
        && n <= 0x200A) || n == 0x2028 || n == 0x2029 || n == 0x202F || n == 0x205F || n == 0x3000
}

/// Calls `String::push`, which appends one character to the end of the string.
#[verifier::external_body]
fn push_char(s: &mut String, c: char)
    ensures
        final(s)@ == old(s)@.push(c),
{
    s.push(c)
}

/// Which characters of `s` are white space.
pub open spec fn white_flags(s: Seq<char>) -> Seq<bool> {
    s.map_values(|c: char| unicode_white_space(c))
}

/// Every flag of `w` in `lo..hi` is set.
pub open spec fn all_set(w: Seq<bool>, lo: int, hi: int) -> bool {
    forall|k: int| lo <= k < hi ==> #[trigger] w[k]
}

/// `lo..hi` is what trimming leaves of a sequence whose white positions are
/// flagged in `w`: white before and after it, not white at its two ends,
/// and the empty span at the end when everything is white.
pub open spec fn trim_bounds(w: Seq<bool>, lo: int, hi: int) -> bool {
    &&& 0 <= lo <= hi <= w.len()
    &&& all_set(w, 0, lo)
    &&& all_set(w, hi, w.len() as int)
    &&& lo < hi ==> !w[lo] && !w[hi - 1]
    &&& lo == hi ==> lo == w.len()
}

/// `s` without its leading and trailing white space.
pub open spec fn trimmed(s: Seq<char>) -> Seq<char> {
    let (lo, hi) = choose|lo: int, hi: int| trim_bounds(white_flags(s), lo, hi);
    s.subrange(lo, hi)
}

/// The trimming span is unique.
pub proof fn lemma_trim_bounds_unique(w: Seq<bool>, a: int, b: int, c: int, d: int)
    requires
        trim_bounds(w, a, b),
        trim_bounds(w, c, d),
    ensures
        a == c,
        b == d,
{
    if a < b && c < d {
        if a < c {
            assert(w[a]);
        } else if c < a {
            assert(w[c]);
        }
        if b < d {
            assert(w[d - 1]);
        } else if d < b {
            assert(w[b - 1]);
        }
    } else if a < b {
        assert(w[a]);
    } else if c < d {
        assert(w[c]);
    }
}

/// Once a trimming span of `s` is known, `trimmed` is the subrange it spans.
pub proof fn lemma_trimmed_is(s: Seq<char>, lo: int, hi: int)
    requires
        trim_bounds(white_flags(s), lo, hi),
    ensures
        trimmed(s) == s.subrange(lo, hi),
{
    let (a, b) = choose|a: int, b: int| trim_bounds(white_flags(s), a, b);
    lemma_trim_bounds_unique(white_flags(s), a, b, lo, hi);
}

/// The span that trimming leaves, for a sequence whose white positions are flagged in `white`.
pub fn trim_span(white: &Vec<bool>) -> (r: (usize, usize))
    ensures
        trim_bounds(white@, r.0 as int, r.1 as int),
{
    let n = white.len();
    let mut lo: usize = 0;
    while lo < n && white[lo]
        invariant
            n == white@.len(),
            lo <= n,
            all_set(white@, 0, lo as int),
        decreases n - lo,
    {
        lo = lo + 1;
    }
    let mut hi: usize = n;
    if lo < n {
        while hi > lo && white[hi - 1]
            invariant
                n == white@.len(),
                lo < n,
                !white@[lo as int],
                lo <= hi <= n,
                all_set(white@, hi as int, n as int),
            decreases hi,
        {
            hi = hi - 1;
        }
    }
    (lo, hi)
}

/// Trimming is idempotent: a trimmed string trims to itself.
pub proof fn lemma_trim_idempotent(s: Seq<char>)
    ensures
        trimmed(trimmed(s)) == trimmed(s),
{
    let w = white_flags(s);
    let (lo, hi) = lemma_trim_bounds_exist(w);
    lemma_trimmed_is(s, lo, hi);
    let t = s.subrange(lo, hi);
    let wt = white_flags(t);
    assert(wt =~= w.subrange(lo, hi));
    assert(trim_bounds(wt, 0, t.len() as int));
    lemma_trimmed_is(t, 0, t.len() as int);
    assert(t.subrange(0, t.len() as int) =~= t);
}

/// Every flag sequence has a trimming span.
pub proof fn lemma_trim_bounds_exist(w: Seq<bool>) -> (r: (int, int))
    ensures
        trim_bounds(w, r.0, r.1),
{
    let n = w.len() as int;
    if exists|k: int| 0 <= k < n && !#[trigger] w[k] {
        let lo = lemma_first_unset(w);
        let hi = lemma_last_unset(w) + 1;
        (lo, hi)
    } else {
        (n, n)
    }
}

proof fn lemma_first_unset(w: Seq<bool>) -> (i: int)
    requires
        exists|k: int| 0 <= k < w.len() && !#[trigger] w[k],
    ensures
        0 <= i < w.len(),
        !w[i],
        all_set(w, 0, i),
    decreases w.len(),
{
    if !w[0] {
        0
    } else {
        let t = w.drop_first();
        let k = choose|k: int| 0 <= k < w.len() && !#[trigger] w[k];
        assert(t[k - 1] == w[k]);
        let j = lemma_first_unset(t);
        assert forall|m: int| 0 <= m < j + 1 implies #[trigger] w[m] by {
            if m > 0 {
                assert(w[m] == t[m - 1]);
            }
        }
        j + 1
    }
}

proof fn lemma_last_unset(w: Seq<bool>) -> (i: int)
    requires
        exists|k: int| 0 <= k < w.len() && !#[trigger] w[k],
    ensures
        0 <= i < w.len(),
        !w[i],
        all_set(w, i + 1, w.len() as int),
    decreases w.len(),
{
    let n = w.len() as int;
    if !w[n - 1] {
        n - 1
    } else {
        let t = w.drop_last();
        let k = choose|k: int| 0 <= k < w.len() && !#[trigger] w[k];
        assert(t[k] == w[k]);
        let j = lemma_last_unset(t);
        assert forall|m: int| j + 1 <= m < n implies #[trigger] w[m] by {
            if m < n - 1 {
                assert(w[m] == t[m]);
            }
        }
        j
    }
}

/// The characters of `s`, in order.
pub fn chars_of(s: &str) -> (v: Vec<char>)
    ensures
        v@ == s@,
{
    let n = s.unicode_len();
    let mut v: Vec<char> = Vec::new();
    let mut i: usize = 0;
    while i < n
        invariant
            n == s@.len(),
            i <= n,
            v@ == s@.subrange(0, i as int),
        decreases n - i,
    {
        let c = s.get_char(i);
        v.push(c);
        i = i + 1;
        assert(v@ =~= s@.subrange(0, i as int));
    }
    assert(v@ =~= s@);
    v
}

/// A new string holding `v[lo..hi]`.
pub fn string_from_chars(v: &Vec<char>, lo: usize, hi: usize) -> (s: String)
    requires
        lo <= hi <= v.len(),
    ensures
        s@ == v@.subrange(lo as int, hi as int),
{
    let mut s = String::new();
    let mut i = lo;
    while i < hi
        invariant
            lo <= i <= hi <= v.len(),
            s@ == v@.subrange(lo as int, i as int),
        decreases hi - i,
    {
        push_char(&mut s, v[i]);
        i = i + 1;
        assert(s@ =~= v@.subrange(lo as int, i as int));
    }
    s
}

/// `s` with leading and trailing white space removed, as `str::trim` gives it.
pub fn trim(s: &str) -> (t: String)
    ensures
        t@ == trimmed(s@),
{
    let v = chars_of(s);
    let mut white: Vec<bool> = Vec::new();
    let mut i: usize = 0;
    while i < v.len()
        invariant
            i <= v@.len(),
            white@ == white_flags(v@).subrange(0, i as int),
        decreases v@.len() - i,
    {
        white.push(is_whitespace(v[i]));
        i = i + 1;
        proof {
            assert(white@ =~= white_flags(v@).subrange(0, i as int));
        }
    }
    proof {
        assert(white@ =~= white_flags(s@));
    }
    let (lo, hi) = trim_span(&white);
    proof {
        lemma_trimmed_is(s@, lo as int, hi as int);
    }
    string_from_chars(&v, lo, hi)
}

/// The ASCII digit for `d`, where `d < 10`.
pub open spec fn digit_char(d: nat) -> char {
    (48 + d) as char
}

/// The decimal digits of `n`, most significant first, with no leading zeros.
pub open spec fn decimal(n: nat) -> Seq<char>
    decreases n,
{
    if n < 10 {
        seq![digit_char(n)]
    } else {
        decimal(n / 10).push(digit_char(n % 10))
    }
}

/// Appends the decimal digits of `n` to `s`.
pub fn push_decimal(s: &mut String, n: u64)
    ensures
        final(s)@ == old(s)@ + decimal(n as nat),
    decreases n,
{
    if n >= 10 {
        push_decimal(s, n / 10);
    }
    let d: u8 = (n % 10) as u8;
    let c: char = (48u8 + d) as char;
    assert(c == digit_char((n % 10) as nat));
    push_char(s, c);
    assert(final(s)@ =~= old(s)@ + decimal(n as nat));
}

} // verus!
