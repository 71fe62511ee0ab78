//! Character-level text helpers shared by the rest of the library: trimming,
//! prefixes, decimal rendering and string building.

use vstd::prelude::*;

verus! {

/// Unicode `White_Space` code points, which is what `char::is_whitespace`
/// and `str::trim` recognise.
pub open spec fn is_white_space(c: char) -> bool {
    ||| ('\u{9}' <= c && c <= '\u{d}')
    ||| c == ' '
    ||| c == '\u{85}'
    ||| c == '\u{a0}'
    ||| c == '\u{1680}'
    ||| ('\u{2000}' <= c && c <= '\u{200a}')
    ||| c == '\u{2028}'
    ||| c == '\u{2029}'
    ||| c == '\u{202f}'
    ||| c == '\u{205f}'
    ||| c == '\u{3000}'
}

/// `s` without its leading white space.
pub open spec fn trim_start_seq(s: Seq<char>) -> Seq<char>
    decreases s.len(),
{
    if s.len() > 0 && is_white_space(s[0]) {
        trim_start_seq(s.drop_first())
    } else {
        s
    }
}

/// `s` without its trailing white space.
pub open spec fn trim_end_seq(s: Seq<char>) -> Seq<char>
    decreases s.len(),
{
    if s.len() > 0 && is_white_space(s.last()) {
        trim_end_seq(s.drop_last())
    } else {
        s
    }
}

/// `s` without leading and trailing white space (what `str::trim` gives).
pub open spec fn trim_seq(s: Seq<char>) -> Seq<char> {
    trim_end_seq(trim_start_seq(s))
}

/// Whether `s` holds nothing but white space.
pub open spec fn is_blank(s: Seq<char>) -> bool {
    trim_seq(s).len() == 0
}

/// `s` without its trailing `c` characters (what `str::trim_end_matches(c)` gives).
pub open spec fn strip_trailing(s: Seq<char>, c: char) -> Seq<char>
    decreases s.len(),
{
    if s.len() > 0 && s.last() == c {
        strip_trailing(s.drop_last(), c)
    } else {
        s
    }
}

/// Stripping trailing `c` keeps a prefix of `s` that does not end in `c`, and
/// everything removed after it is `c`.
pub proof fn lemma_strip_trailing_shape(s: Seq<char>, c: char)
    ensures
        strip_trailing(s, c).len() <= s.len(),
        strip_trailing(s, c) =~= s.subrange(0, strip_trailing(s, c).len() as int),
        strip_trailing(s, c).len() > 0 ==> strip_trailing(s, c).last() != c,
        forall|i: int| strip_trailing(s, c).len() <= i < s.len() ==> #[trigger] s[i] == c,
    decreases s.len(),
{
    if s.len() > 0 && s.last() == c {
        lemma_strip_trailing_shape(s.drop_last(), c);
        let r = strip_trailing(s.drop_last(), c);
        assert(r =~= s.subrange(0, r.len() as int));
        assert forall|i: int| r.len() <= i < s.len() implies #[trigger] s[i] == c by {
            if i < s.len() - 1 {
                assert(s.drop_last()[i] == s[i]);
            }
        }
    } else {
        assert(s =~= s.subrange(0, s.len() as int));
    }
}

/// The part of `s` before the first `sep` (all of `s` when `sep` does not occur),
/// which is the first item of `str::split(sep)`.
pub open spec fn before_first(s: Seq<char>, sep: char) -> Seq<char>
    decreases s.len(),
{
    if s.len() == 0 {
        s
    } else if s[0] == sep {
        Seq::empty()
    } else {
        seq![s[0]] + before_first(s.drop_first(), sep)
    }
}

/// The first `n` characters of `s`, or all of it when it is shorter.
pub open spec fn prefix_chars(s: Seq<char>, n: nat) -> Seq<char> {
    if s.len() <= n {
        s
    } else {
        s.take(n as int)
    }
}

/// The first `n` characters are a prefix of `s` as long as `s` or `n`,
/// whichever is shorter.
pub proof fn lemma_prefix_chars_is_prefix(s: Seq<char>, n: nat)
    ensures
        prefix_chars(s, n).len() == if s.len() <= n {
            s.len()
        } else {
            n
        },
        prefix_chars(s, n) =~= s.subrange(0, prefix_chars(s, n).len() as int),
{
}

/// The decimal digit character for `d < 10`.
pub open spec fn digit_char(d: nat) -> char {
    ('0' as int + d) as char
}

/// Decimal rendering of `n`, without sign or leading zeros.
pub open spec fn decimal(n: nat) -> Seq<char>
    decreases n,
{
    if n < 10 {
        seq![digit_char(n)]
    } else {
        decimal(n / 10).push(digit_char(n % 10))
    }
}

/// Whether `c` is Unicode white space.
pub fn white_space(c: char) -> (r: bool)
    ensures
        r == is_white_space(c),
{
    ('\u{9}' <= c && c <= '\u{d}') || c == ' ' || c == '\u{85}' || c == '\u{a0}' || c == '\u{1680}'
        || ('\u{2000}' <= c && c <= '\u{200a}') || c == '\u{2028}' || c == '\u{2029}'
        || c == '\u{202f}' || c == '\u{205f}' || c == '\u{3000}'
}

/// Appends one character to a string with `String::push`, trusted to leave
/// the string's characters followed by `c`.
#[verifier::external_body]
pub fn push_char(s: &mut String, c: char)
    ensures
        final(s)@ == old(s)@.push(c),
{
    s.push(c);
}

/// The characters of `s`, in order.
pub fn chars_of(s: &str) -> (r: Vec<char>)
    ensures
        r@ == s@,
{
    let mut out: Vec<char> = Vec::new();
    for c in it: s.chars()
        invariant
            out@ == it.seq().take(it.index()),
    {
        out.push(c);
    }
    out
}

/// A string holding `v[lo..hi]`.
pub fn string_of_range(v: &Vec<char>, lo: usize, hi: usize) -> (r: String)
    requires
        lo <= hi <= v.len(),
    ensures
        r@ == v@.subrange(lo as int, hi as int),
{
    let mut out = String::new();
    let mut i = lo;
    while i < hi
        invariant
            lo <= i <= hi <= v.len(),
            out@ == v@.subrange(lo as int, i as int),
        decreases hi - i,
    {
        push_char(&mut out, v[i]);
        assert(v@.subrange(lo as int, i + 1) =~= v@.subrange(lo as int, i as int).push(v@[i as int]));
        i = i + 1;
    }
    out
}

/// A new string holding the characters of `s`.
pub fn owned(s: &str) -> (r: String)
    ensures
        r@ == s@,
{
    s.to_owned()
}

/// Dropping leading white space from a suffix that starts with white space.
proof fn lemma_trim_start_step(s: Seq<char>, i: int)
    requires
        0 <= i < s.len(),
        is_white_space(s[i]),
    ensures
        trim_start_seq(s.subrange(i, s.len() as int)) == trim_start_seq(s.subrange(i + 1, s.len() as int)),
{
    assert(s.subrange(i, s.len() as int).drop_first() =~= s.subrange(i + 1, s.len() as int));
}

/// Dropping trailing white space from a prefix that ends with white space.
proof fn lemma_trim_end_step(s: Seq<char>, j: int)
    requires
        0 < j <= s.len(),
        is_white_space(s[j - 1]),
    ensures
        trim_end_seq(s.subrange(0, j)) == trim_end_seq(s.subrange(0, j - 1)),
{
    assert(s.subrange(0, j).drop_last() =~= s.subrange(0, j - 1));
}

/// `s` without leading and trailing white space (`str::trim`).
pub fn trim(s: &str) -> (r: String)
    ensures
        r@ == trim_seq(s@),
{
    let v = chars_of(s);
    let n = v.len();
    let mut lo: usize = 0;
    assert(v@.subrange(0, n as int) =~= v@);
    while lo < n && white_space(v[lo])
        invariant
            lo <= n == v@.len(),
            trim_start_seq(v@) == trim_start_seq(v@.subrange(lo as int, n as int)),
        decreases n - lo,
    {
        proof {
            lemma_trim_start_step(v@, lo as int);
        }
        lo = lo + 1;
    }
    let ghost w = v@.subrange(lo as int, n as int);
    assert(trim_start_seq(v@) == w) by {
        if lo < n {
            assert(w[0] == v@[lo as int]);
        } else {
            assert(w.len() == 0);
        }
    }
    let mut hi: usize = n;
    assert(w.subrange(0, w.len() as int) =~= w);
    while hi > lo && white_space(v[hi - 1])
        invariant
            lo <= hi <= n == v@.len(),
            w == v@.subrange(lo as int, n as int),
            trim_end_seq(w) == trim_end_seq(w.subrange(0, hi - lo)),
        decreases hi,
    {
        proof {
            assert(w[hi - lo - 1] == v@[hi - 1]);
            lemma_trim_end_step(w, hi - lo);
        }
        hi = hi - 1;
    }
    let ghost u = w.subrange(0, hi - lo);
    assert(trim_end_seq(w) == u) by {
        if hi > lo {
            assert(u.last() == v@[hi - 1]);
        }
    }
    assert(u =~= v@.subrange(lo as int, hi as int));
    string_of_range(&v, lo, hi)
}

/// Whether `s` holds nothing but white space (`s.trim().is_empty()`).
pub fn blank(s: &str) -> (r: bool)
    ensures
        r == is_blank(s@),
{
    let t = trim(s);
    t.as_str().is_empty()
}

/// `s` without its trailing `c` characters (`str::trim_end_matches(c)`).
pub fn without_trailing(s: &str, c: char) -> (r: String)
    ensures
        r@ == strip_trailing(s@, c),
{
    let v = chars_of(s);
    let mut hi = v.len();
    assert(v@.subrange(0, hi as int) =~= v@);
    while hi > 0 && v[hi - 1] == c
        invariant
            hi <= v@.len(),
            strip_trailing(v@, c) == strip_trailing(v@.subrange(0, hi as int), c),
        decreases hi,
    {
        assert(v@.subrange(0, hi as int).drop_last() =~= v@.subrange(0, hi - 1));
        hi = hi - 1;
    }
    proof {
        if hi > 0 {
            assert(v@.subrange(0, hi as int).last() == v@[hi - 1]);
        }
    }
    string_of_range(&v, 0, hi)
}

/// The part of `s` before the first `sep` (`s.split(sep).next()`).
pub fn first_segment(s: &str, sep: char) -> (r: String)
    ensures
        r@ == before_first(s@, sep),
{
    let v = chars_of(s);
    let n = v.len();
    let mut i: usize = 0;
    assert(v@.subrange(0, n as int) =~= v@);
    assert(v@.subrange(0, 0) + v@ =~= v@);
    while i < n && v[i] != sep
        invariant
            i <= n == v@.len(),
            forall|k: int| 0 <= k < i ==> v@[k] != sep,
            before_first(v@, sep) == v@.subrange(0, i as int) + before_first(
                v@.subrange(i as int, n as int),
                sep,
            ),
        decreases n - i,
    {
        let ghost rest = v@.subrange(i as int, n as int);
        assert(rest.drop_first() =~= v@.subrange(i + 1, n as int));
        assert(v@.subrange(0, i + 1) =~= v@.subrange(0, i as int) + seq![v@[i as int]]);
        i = i + 1;
    }
    proof {
        let rest = v@.subrange(i as int, n as int);
        if i < n {
            assert(rest[0] == sep);
        } else {
            assert(rest.len() == 0);
        }
        assert(v@.subrange(0, i as int) + before_first(rest, sep) =~= v@.subrange(0, i as int));
    }
    string_of_range(&v, 0, i)
}

/// The first `n` characters of `s` (`s.chars().take(n).collect()`).
pub fn first_chars(s: &str, n: usize) -> (r: String)
    ensures
        r@ == prefix_chars(s@, n as nat),
{
    let v = chars_of(s);
    if v.len() <= n {
        assert(v@.subrange(0, v.len() as int) =~= v@);
        string_of_range(&v, 0, v.len())
    } else {
        string_of_range(&v, 0, n)
    }
}

/// The decimal digit character for `d`.
pub fn digit(d: u64) -> (r: char)
    requires
        d < 10,
    ensures
        r == digit_char(d as nat),
{
    if d == 0 {
        '0'
    } else if d == 1 {
        '1'
    } else if d == 2 {
        '2'
    } else if d == 3 {
        '3'
    } else if d == 4 {
        '4'
    } else if d == 5 {
        '5'
    } else if d == 6 {
        '6'
    } else if d == 7 {
        '7'
    } else if d == 8 {
        '8'
    } else {
        '9'
    }
}

/// Decimal rendering of `n` (`n.to_string()`).
pub fn decimal_string(n: u64) -> (r: String)
    ensures
        r@ == decimal(n as nat),
    decreases n,
{
    if n < 10 {
        let mut s = String::new();
        push_char(&mut s, digit(n));
        assert(s@ =~= seq![digit_char(n as nat)]);
        s
    } else {
        let mut s = decimal_string(n / 10);
        push_char(&mut s, digit(n % 10));
        s
    }
}

} // verus!
