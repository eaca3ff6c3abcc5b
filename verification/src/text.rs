//! Verified text utilities: substring search, ASCII case folding,
//! whitespace trimming, and decimal conversions. All contracts are stated
//! over the `Seq<char>` views of `&str` and `Vec<char>`.

use vstd::prelude::*;
use vstd::string::StrSliceExecFns;
use vstd::string::StringExecFns;

verus! {

// --- character classes and case folding ---

/// Whitespace as trimmed from extracted fields: space, tab, newline,
/// carriage return.
pub open spec fn is_space_char(c: char) -> bool {
    c == ' ' || c == '\t' || c == '\n' || c == '\r'
}

/// Case folding used for all case-insensitive comparisons: an ASCII capital
/// letter folds to its lower-case code point, every other character is its
/// own code point.
pub open spec fn fold_char(c: char) -> u32 {
    if 65 <= c as u32 && c as u32 <= 90 {
        (c as u32 + 32) as u32
    } else {
        c as u32
    }
}

pub open spec fn fold_seq(s: Seq<char>) -> Seq<u32> {
    s.map_values(|c: char| fold_char(c))
}

pub fn char_fold(c: char) -> (r: u32)
    ensures
        r == fold_char(c),
{
    let u = c as u32;
    if 65 <= u && u <= 90 {
        u + 32
    } else {
        u
    }
}

pub fn char_is_space(c: char) -> (r: bool)
    ensures
        r == is_space_char(c),
{
    c == ' ' || c == '\t' || c == '\n' || c == '\r'
}

// --- exact substring search ---

/// The pattern `p` occurs in `t` at position `i`.
pub open spec fn match_at(t: Seq<char>, p: Seq<char>, i: int) -> bool {
    &&& 0 <= i
    &&& i + p.len() <= t.len()
    &&& t.subrange(i, i + p.len() as int) == p
}

/// The position of the first occurrence of `p` in `t` at or after `from`.
pub open spec fn first_match_from(t: Seq<char>, p: Seq<char>, from: int) -> Option<int>
    decreases t.len() - from + 1,
{
    if from < 0 || from + p.len() > t.len() {
        None
    } else if t.subrange(from, from + p.len() as int) == p {
        Some(from)
    } else {
        first_match_from(t, p, from + 1)
    }
}

pub open spec fn contains_sub(t: Seq<char>, p: Seq<char>) -> bool {
    exists|i: int| match_at(t, p, i)
}

pub proof fn lemma_first_match_from(t: Seq<char>, p: Seq<char>, from: int)
    requires
        0 <= from,
    ensures
        first_match_from(t, p, from) matches Some(i) ==> {
            &&& from <= i
            &&& match_at(t, p, i)
            &&& forall|j: int| from <= j < i ==> !match_at(t, p, j)
        },
        first_match_from(t, p, from) is None ==> forall|j: int|
            from <= j ==> !match_at(t, p, j),
    decreases t.len() - from + 1,
{
    if from + p.len() > t.len() {
    } else if t.subrange(from, from + p.len() as int) == p {
    } else {
        lemma_first_match_from(t, p, from + 1);
    }
}

/// Exact search for `p` in `t`, starting at `from`; returns the first match
/// position, as `first_match_from` describes it.
pub fn find_from(t: &Vec<char>, p: &Vec<char>, from: usize) -> (r: Option<usize>)
    ensures
        r matches Some(i) ==> first_match_from(t@, p@, from as int) == Some(i as int),
        r is None ==> first_match_from(t@, p@, from as int) is None,
{
    let n = t.len();
    let m = p.len();
    if m > n || from > n - m {
        return None;
    }
    if m == 0 {
        proof {
            assert(t@.subrange(from as int, from as int) =~= p@);
        }
        return Some(from);
    }
    let last = n - m;
    let mut i = from;
    while i <= last
        invariant
            from <= i,
            n == t@.len(),
            m == p@.len(),
            1 <= m <= n,
            last == n - m,
            first_match_from(t@, p@, from as int) == first_match_from(t@, p@, i as int),
        decreases last - i + 1,
    {
        let mut j: usize = 0;
        let mut mismatch = false;
        while j < m
            invariant
                n == t@.len(),
                m == p@.len(),
                i + m <= n,
                j <= m,
                !mismatch ==> forall|k: int| 0 <= k < j ==> t@[i + k] == p@[k],
                mismatch ==> t@.subrange(i as int, i + p@.len() as int) != p@,
            decreases m - j,
        {
            if t[i + j] != p[j] {
                proof {
                    assert(t@.subrange(i as int, i + p@.len() as int)[j as int] != p@[j as int]);
                }
                mismatch = true;
                j = m;
            } else {
                j += 1;
            }
        }
        if !mismatch {
            proof {
                assert(t@.subrange(i as int, i + p@.len() as int) =~= p@);
            }
            return Some(i);
        }
        i += 1;
    }
    None
}

/// Whether `t` contains `p`, exactly.
pub fn contains_sub_vec(t: &Vec<char>, p: &Vec<char>) -> (r: bool)
    ensures
        r == contains_sub(t@, p@),
{
    proof {
        lemma_first_match_from(t@, p@, 0);
    }
    match find_from(t, p, 0) {
        Some(_) => true,
        None => false,
    }
}

// --- case-insensitive search ---

/// `p` occurs in `t` at position `i` up to case folding.
pub open spec fn match_fold_at(t: Seq<char>, p: Seq<char>, i: int) -> bool {
    &&& 0 <= i
    &&& i + p.len() <= t.len()
    &&& fold_seq(t.subrange(i, i + p.len() as int)) == fold_seq(p)
}

/// `t` contains `p` up to case folding.
pub open spec fn contains_fold(t: Seq<char>, p: Seq<char>) -> bool {
    exists|i: int| match_fold_at(t, p, i)
}

pub fn contains_fold_vec(t: &Vec<char>, p: &Vec<char>) -> (r: bool)
    ensures
        r == contains_fold(t@, p@),
{
    let n = t.len();
    let m = p.len();
    if m > n {
        assert(forall|i: int| !match_fold_at(t@, p@, i));
        return false;
    }
    if m == 0 {
        proof {
            assert(fold_seq(t@.subrange(0, 0)) =~= fold_seq(p@));
            assert(match_fold_at(t@, p@, 0));
        }
        return true;
    }
    let last = n - m;
    let mut i: usize = 0;
    while i <= last
        invariant
            n == t@.len(),
            m == p@.len(),
            1 <= m <= n,
            last == n - m,
            forall|k: int| 0 <= k < i ==> !match_fold_at(t@, p@, k),
        decreases last - i + 1,
    {
        let mut j: usize = 0;
        let mut mismatch = false;
        while j < m
            invariant
                n == t@.len(),
                m == p@.len(),
                i + m <= n,
                j <= m,
                !mismatch ==> forall|k: int| 0 <= k < j ==> fold_char(t@[i + k]) == fold_char(
                    p@[k],
                ),
                mismatch ==> !match_fold_at(t@, p@, i as int),
            decreases m - j,
        {
            if char_fold(t[i + j]) != char_fold(p[j]) {
                proof {
                    let sub = t@.subrange(i as int, i + p@.len() as int);
                    assert(fold_seq(sub)[j as int] == fold_char(sub[j as int]));
                    assert(fold_seq(p@)[j as int] == fold_char(p@[j as int]));
                }
                mismatch = true;
                j = m;
            } else {
                j += 1;
            }
        }
        if !mismatch {
            proof {
                let sub = t@.subrange(i as int, i + p@.len() as int);
                assert forall|k: int| 0 <= k < p@.len() implies fold_seq(sub)[k] == fold_seq(
                    p@,
                )[k] by {
                    assert(fold_seq(sub)[k] == fold_char(sub[k]));
                    assert(fold_seq(p@)[k] == fold_char(p@[k]));
                }
                assert(fold_seq(sub) =~= fold_seq(p@));
                assert(match_fold_at(t@, p@, i as int));
            }
            return true;
        }
        i += 1;
    }
    assert forall|k: int| !match_fold_at(t@, p@, k) by {
        if k > last {
            assert(!match_fold_at(t@, p@, k));
        }
    }
    false
}

/// Case-folded equality of two character sequences.
pub fn eq_fold_vec(a: &Vec<char>, b: &Vec<char>) -> (r: bool)
    ensures
        r == (fold_seq(a@) == fold_seq(b@)),
{
    if a.len() != b.len() {
        assert(fold_seq(a@).len() == a@.len());
        assert(fold_seq(b@).len() == b@.len());
        return false;
    }
    let mut i: usize = 0;
    while i < a.len()
        invariant
            a@.len() == b@.len(),
            i <= a@.len(),
            forall|k: int| 0 <= k < i ==> fold_char(a@[k]) == fold_char(b@[k]),
        decreases a@.len() - i,
    {
        if char_fold(a[i]) != char_fold(b[i]) {
            proof {
                assert(fold_seq(a@)[i as int] == fold_char(a@[i as int]));
                assert(fold_seq(b@)[i as int] == fold_char(b@[i as int]));
            }
            return false;
        }
        i += 1;
    }
    proof {
        assert forall|k: int| 0 <= k < a@.len() implies fold_seq(a@)[k] == fold_seq(b@)[k] by {
            assert(fold_seq(a@)[k] == fold_char(a@[k]));
            assert(fold_seq(b@)[k] == fold_char(b@[k]));
        }
        assert(fold_seq(a@) =~= fold_seq(b@));
    }
    true
}

// --- whitespace trimming ---

/// First position in `[a, b)` that is not whitespace, or `b`.
pub open spec fn trim_start_from(t: Seq<char>, a: int, b: int) -> int
    decreases b - a,
{
    if a >= b {
        a
    } else if is_space_char(t[a]) {
        trim_start_from(t, a + 1, b)
    } else {
        a
    }
}

/// Position after the last non-whitespace character in `[a, b)`, or `a`.
pub open spec fn trim_end_until(t: Seq<char>, a: int, b: int) -> int
    decreases b - a,
{
    if b <= a {
        b
    } else if is_space_char(t[b - 1]) {
        trim_end_until(t, a, b - 1)
    } else {
        b
    }
}

/// The slice of `t` between `a` and `b` with surrounding whitespace removed.
pub open spec fn trimmed(t: Seq<char>, a: int, b: int) -> Seq<char> {
    let s = trim_start_from(t, a, b);
    let e = trim_end_until(t, s, b);
    t.subrange(s, e)
}

pub proof fn lemma_trim_start_bounds(t: Seq<char>, a: int, b: int)
    requires
        a <= b,
    ensures
        a <= trim_start_from(t, a, b) <= b,
    decreases b - a,
{
    if a < b && is_space_char(t[a]) {
        lemma_trim_start_bounds(t, a + 1, b);
    }
}

pub proof fn lemma_trim_end_bounds(t: Seq<char>, a: int, b: int)
    requires
        a <= b,
    ensures
        a <= trim_end_until(t, a, b) <= b,
    decreases b - a,
{
    if a < b && is_space_char(t[b - 1]) {
        lemma_trim_end_bounds(t, a, b - 1);
    }
}

/// Computes the trimmed sub-range of `[a, b)`.
pub fn trim_bounds(t: &Vec<char>, a: usize, b: usize) -> (r: (usize, usize))
    requires
        a <= b <= t@.len(),
    ensures
        r.0 == trim_start_from(t@, a as int, b as int),
        r.1 == trim_end_until(t@, r.0 as int, b as int),
        a <= r.0 <= r.1 <= b,
{
    let mut s = a;
    while s < b && char_is_space(t[s])
        invariant
            a <= s <= b <= t@.len(),
            trim_start_from(t@, a as int, b as int) == trim_start_from(t@, s as int, b as int),
        decreases b - s,
    {
        s += 1;
    }
    let mut e = b;
    while e > s && char_is_space(t[e - 1])
        invariant
            s <= e <= b <= t@.len(),
            trim_end_until(t@, s as int, b as int) == trim_end_until(t@, s as int, e as int),
        decreases e,
    {
        e -= 1;
    }
    (s, e)
}

// --- conversions between &str and Vec<char> ---

/// The characters of `s` as a vector, for constant-time indexed scanning.
pub fn str_chars(s: &str) -> (v: Vec<char>)
    ensures
        v@ == s@,
{
    let n = s.unicode_len();
    let mut v: Vec<char> = Vec::new();
    let mut i: usize = 0;
    while i < n
        invariant
            i <= n,
            n == s@.len(),
            v@ == s@.subrange(0, i as int),
        decreases n - i,
    {
        v.push(s.get_char(i));
        proof {
            assert(v@ =~= s@.subrange(0, i + 1));
        }
        i += 1;
    }
    proof {
        assert(v@ =~= s@);
    }
    v
}

/// The substring of `s` over the character range `[a, b)`, as an owned string.
pub fn extract_string(s: &str, a: usize, b: usize) -> (r: String)
    requires
        a <= b <= s@.len(),
    ensures
        r@ == s@.subrange(a as int, b as int),
{
    s.substring_char(a, b).to_owned()
}

// --- decimal rendering of unsigned integers ---

pub open spec fn digit_char(d: int) -> char {
    if d == 0 {
        '0'
    } else if d == 1 {
        '1'
    } else if d == 2 {
        '2'
    } else if d == 3 {
        '3'
    } else if d == 4 {
        '4'
    } else if d == 5 {
        '5'
    } else if d == 6 {
        '6'
    } else if d == 7 {
        '7'
    } else if d == 8 {
        '8'
    } else {
        '9'
    }
}

pub open spec fn dec_digits(n: int) -> Seq<char>
    decreases n,
{
    if n <= 0 {
        Seq::empty()
    } else {
        dec_digits(n / 10).push(digit_char(n % 10))
    }
}

/// The usual decimal rendering of a non-negative integer: no sign, no
/// leading zeros, and a single `'0'` for zero.
pub open spec fn dec_str(n: int) -> Seq<char> {
    if n == 0 {
        seq!['0']
    } else {
        dec_digits(n)
    }
}

fn digit_str(d: u64) -> (r: &'static str)
    requires
        d < 10,
    ensures
        r@ == seq![digit_char(d as int)],
{
    proof {
        reveal_strlit("0");
        reveal_strlit("1");
        reveal_strlit("2");
        reveal_strlit("3");
        reveal_strlit("4");
        reveal_strlit("5");
        reveal_strlit("6");
        reveal_strlit("7");
        reveal_strlit("8");
        reveal_strlit("9");
    }
    let r = match d {
        0 => "0",
        1 => "1",
        2 => "2",
        3 => "3",
        4 => "4",
        5 => "5",
        6 => "6",
        7 => "7",
        8 => "8",
        _ => "9",
    };
    proof {
        assert(r@ =~= seq![digit_char(d as int)]);
    }
    r
}

/// Renders `n` in decimal, exactly as `dec_str` describes.
pub fn u64_to_string(n: u64) -> (s: String)
    ensures
        s@ == dec_str(n as int),
    decreases n,
{
    if n == 0 {
        String::from_str(digit_str(0))
    } else if n < 10 {
        let s = String::from_str(digit_str(n));
        proof {
            assert(dec_digits((n as int) / 10) =~= Seq::<char>::empty());
            assert(dec_digits(n as int) =~= seq![digit_char(n as int)]);
        }
        s
    } else {
        let mut s = u64_to_string(n / 10);
        s.append(digit_str(n % 10));
        proof {
            assert(dec_str((n / 10) as int) == dec_digits((n / 10) as int));
            assert(s@ =~= dec_digits(n as int));
        }
        s
    }
}

// --- decimal parsing of signed integers ---

pub open spec fn is_digit_char(c: char) -> bool {
    48 <= c as u32 <= 57
}

pub open spec fn digit_val(c: char) -> int {
    c as u32 - 48
}

pub open spec fn all_digits(s: Seq<char>) -> bool {
    forall|i: int| 0 <= i < s.len() ==> is_digit_char(s[i])
}

pub open spec fn digits_val(s: Seq<char>) -> int
    decreases s.len(),
{
    if s.len() == 0 {
        0
    } else {
        digits_val(s.drop_last()) * 10 + digit_val(s.last())
    }
}

/// What parsing a decimal integer accepts and yields: an optional sign,
/// then one or more digits, valued in range; anything else is rejected.
pub open spec fn spec_parse_i64(s: Seq<char>) -> Option<i64> {
    let signed = s.len() > 0 && (s[0] == '-' || s[0] == '+');
    let neg = s.len() > 0 && s[0] == '-';
    let ds = if signed {
        s.subrange(1, s.len() as int)
    } else {
        s
    };
    if ds.len() == 0 || !all_digits(ds) {
        None
    } else {
        let v = if neg {
            -digits_val(ds)
        } else {
            digits_val(ds)
        };
        if i64::MIN <= v <= i64::MAX {
            Some(v as i64)
        } else {
            None
        }
    }
}

pub proof fn lemma_digits_val_nonneg(s: Seq<char>)
    requires
        all_digits(s),
    ensures
        digits_val(s) >= 0,
    decreases s.len(),
{
    if s.len() > 0 {
        assert(all_digits(s.drop_last()));
        lemma_digits_val_nonneg(s.drop_last());
    }
}

pub proof fn lemma_digits_val_take_le(s: Seq<char>, k: int)
    requires
        all_digits(s),
        0 <= k <= s.len(),
    ensures
        digits_val(s.take(k)) <= digits_val(s),
    decreases s.len() - k,
{
    if k < s.len() {
        let t = s.take(k + 1);
        assert(t.drop_last() =~= s.take(k));
        assert(t.last() == s[k]);
        assert(all_digits(s.take(k)));
        lemma_digits_val_nonneg(s.take(k));
        assert(digits_val(t) == digits_val(s.take(k)) * 10 + digit_val(s[k]));
        lemma_digits_val_take_le(s, k + 1);
    } else {
        assert(s.take(k) =~= s);
    }
}

/// Parses a decimal integer, exactly as `spec_parse_i64` describes.
pub fn parse_i64(s: &str) -> (r: Option<i64>)
    ensures
        r == spec_parse_i64(s@),
{
    let v = str_chars(s);
    let n = v.len();
    let mut neg = false;
    let mut start: usize = 0;
    if n > 0 && (v[0] == '-' || v[0] == '+') {
        neg = v[0] == '-';
        start = 1;
    }
    let ghost ds = if start == 1 {
        s@.subrange(1, s@.len() as int)
    } else {
        s@
    };
    if n == start {
        return None;
    }
    let limit: u64 = if neg {
        9223372036854775808
    } else {
        9223372036854775807
    };
    let mut mag: u64 = 0;
    let mut i = start;
    proof {
        assert(ds =~= s@.subrange(start as int, n as int));
    }
    while i < n
        invariant
            n == v@.len(),
            v@ == s@,
            start <= i <= n,
            start <= 1,
            start < n,
            ds == s@.subrange(start as int, n as int),
            ds == if start == 1 {
                s@.subrange(1, s@.len() as int)
            } else {
                s@
            },
            neg == (s@.len() > 0 && s@[0] == '-'),
            (start == 1) <==> (s@.len() > 0 && (s@[0] == '-' || s@[0] == '+')),
            limit == if neg {
                9223372036854775808u64
            } else {
                9223372036854775807u64
            },
            mag <= limit,
            9223372036854775807 <= limit <= 9223372036854775808,
            all_digits(ds.take(i - start)),
            mag == digits_val(ds.take(i - start)),
        decreases n - i,
    {
        let c = v[i];
        let u = c as u32;
        if !(48 <= u && u <= 57) {
            assert(ds[i - start] == s@[i as int]);
            assert(!is_digit_char(ds[i - start]));
            return None;
        }
        let d = (u - 48) as u64;
        proof {
            assert(ds.take(i - start + 1).drop_last() =~= ds.take(i - start));
            assert(ds.take(i - start + 1).last() == ds[i - start]);
        }
        if mag > (limit - d) / 10 {
            // the value already exceeds the representable range
            proof {
                if all_digits(ds) {
                    assert(digits_val(ds.take(i - start + 1)) == mag * 10 + d);
                    assert(mag * 10 + d > limit) by (nonlinear_arith)
                        requires
                            mag > (limit - d) / 10,
                            d <= 9,
                            d <= limit,
                    ;
                    lemma_digits_val_take_le(ds, i - start + 1);
                }
            }
            return None;
        }
        mag = mag * 10 + d;
        i += 1;
    }
    proof {
        assert(ds.take(n - start) =~= ds);
    }
    if neg {
        if mag == 9223372036854775808 {
            Some(i64::MIN)
        } else {
            Some(-(mag as i64))
        }
    } else {
        Some(mag as i64)
    }
}

/// A one-character pattern as a vector.
pub fn char_vec(c: char) -> (v: Vec<char>)
    ensures
        v@ == seq![c],
{
    let mut v: Vec<char> = Vec::new();
    v.push(c);
    proof {
        assert(v@ =~= seq![c]);
    }
    v
}

/// Character-wise string equality.
pub fn str_eq(a: &str, b: &str) -> (r: bool)
    ensures
        r == (a@ == b@),
{
    let an = a.unicode_len();
    let bn = b.unicode_len();
    if an != bn {
        return false;
    }
    let mut i: usize = 0;
    while i < an
        invariant
            an == a@.len(),
            an == b@.len(),
            i <= an,
            forall|k: int| 0 <= k < i ==> a@[k] == b@[k],
        decreases an - i,
    {
        if a.get_char(i) != b.get_char(i) {
            return false;
        }
        i += 1;
    }
    proof {
        assert(a@ =~= b@);
    }
    true
}

} // verus!
