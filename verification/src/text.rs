//! Verified helpers for the small amount of text processing the backend
//! needs: string equality, decimal parsing and formatting, and splitting.

use vstd::prelude::*;

verus! {

/// Character-wise string equality, usable where no `PartialEq`
/// specification is available for `&str`.
pub fn str_eq(a: &str, b: &str) -> (r: bool)
    ensures
        r == (a@ == b@),
{
    let n = a.unicode_len();
    if n != b.unicode_len() {
        assert(a@.len() != b@.len());
        return false;
    }
    let mut i: usize = 0;
    while i < n
        invariant
            n == a@.len(),
            n == b@.len(),
            i <= n,
            forall|j: int| 0 <= j < i ==> a@[j] == b@[j],
        decreases n - i,
    {
        if a.get_char(i) != b.get_char(i) {
            return false;
        }
        i += 1;
    }
    proof {
        assert(a@ =~= b@);
    }
    true
}

/// Whether `c` is a decimal digit.
pub open spec fn is_dec_digit(c: char) -> bool {
    '0' <= c && c <= '9'
}

/// Numeric value of a decimal digit.
pub open spec fn digit_val(c: char) -> int {
    c as int - '0' as int
}

/// The number denoted by a sequence of decimal digits, most significant
/// first.
pub open spec fn dec_value(s: Seq<char>) -> int
    decreases s.len(),
{
    if s.len() == 0 {
        0
    } else {
        dec_value(s.drop_last()) * 10 + digit_val(s.last())
    }
}

/// A string is a well-formed `u64` numeral iff it is non-empty, all
/// digits, and its value fits.
pub open spec fn is_u64_numeral(s: Seq<char>) -> bool {
    &&& s.len() > 0
    &&& forall|i: int| 0 <= i < s.len() ==> is_dec_digit(#[trigger] s[i])
    &&& dec_value(s) <= u64::MAX
}

proof fn lemma_dec_value_nonneg(s: Seq<char>)
    requires
        forall|i: int| 0 <= i < s.len() ==> is_dec_digit(#[trigger] s[i]),
    ensures
        dec_value(s) >= 0,
    decreases s.len(),
{
    if s.len() > 0 {
        lemma_dec_value_nonneg(s.drop_last());
    }
}

/// Parses a string of decimal digits into a `u64`.
///
/// Returns `Some` exactly on well-formed numerals; leading zeros are
/// accepted, signs and other characters are not.
pub fn parse_u64(s: &str) -> (r: Option<u64>)
    ensures
        match r {
            Some(v) => is_u64_numeral(s@) && v == dec_value(s@),
            None => !is_u64_numeral(s@),
        },
{
    let n = s.unicode_len();
    if n == 0 {
        return None;
    }
    let mut acc: u64 = 0;
    let mut i: usize = 0;
    while i < n
        invariant
            n == s@.len(),
            i <= n,
            forall|j: int| 0 <= j < i ==> is_dec_digit(#[trigger] s@[j]),
            acc == dec_value(s@.subrange(0, i as int)),
        decreases n - i,
    {
        let c = s.get_char(i);
        if c < '0' || c > '9' {
            return None;
        }
        let d: u64 = (c as u32 as u64) - 48;
        assert(d == digit_val(c) && d <= 9);
        if acc > (u64::MAX - d) / 10 {
            proof {
                let pre = s@.subrange(0, i as int + 1);
                assert(pre.drop_last() =~= s@.subrange(0, i as int));
                assert(pre.last() == c);
                assert(dec_value(pre) == acc * 10 + d);
                assert(acc * 10 + d > u64::MAX) by (nonlinear_arith)
                    requires
                        acc > (u64::MAX - d) / 10,
                        d <= 9,
                ;
                if forall|ii: int| 0 <= ii < s@.len() ==> is_dec_digit(#[trigger] s@[ii]) {
                    lemma_dec_prefix_bounds(s@, i as int + 1);
                }
            }
            return None;
        }
        proof {
            assert(acc * 10 + d <= u64::MAX) by (nonlinear_arith)
                requires
                    acc <= (u64::MAX - d) / 10,
                    d <= 9,
            ;
            let pre = s@.subrange(0, i as int + 1);
            assert(pre.drop_last() =~= s@.subrange(0, i as int));
            assert(pre.last() == c);
        }
        acc = acc * 10 + d;
        i += 1;
    }
    proof {
        assert(s@.subrange(0, n as int) =~= s@);
    }
    Some(acc)
}

/// If a digit-string's prefix already exceeds a bound, the whole string
/// exceeds it too.
proof fn lemma_dec_prefix_bounds(s: Seq<char>, k: int)
    requires
        0 <= k <= s.len(),
        forall|i: int| 0 <= i < s.len() ==> is_dec_digit(#[trigger] s[i]),
    ensures
        dec_value(s) >= dec_value(s.subrange(0, k)),
    decreases s.len() - k,
{
    if k < s.len() {
        lemma_dec_prefix_bounds(s, k + 1);
        let p1 = s.subrange(0, k + 1);
        let p0 = s.subrange(0, k);
        assert(p1.drop_last() =~= p0);
        lemma_dec_value_nonneg(p0);
        assert(dec_value(p1) == dec_value(p0) * 10 + digit_val(s[k]));
        assert(dec_value(p0) * 10 >= dec_value(p0)) by (nonlinear_arith)
            requires
                dec_value(p0) >= 0,
        ;
    } else {
        assert(s.subrange(0, k) =~= s);
    }
}

/// The canonical decimal numeral of `n`: no leading zeros, except that 0
/// itself is "0".
pub open spec fn dec_numeral(n: int) -> Seq<char>
    decreases n,
{
    if n <= 9 {
        seq![digit_char(n)]
    } else {
        dec_numeral(n / 10).push(digit_char(n % 10))
    }
}

/// The digit character for a value in 0..=9.
pub open spec fn digit_char(d: int) -> char {
    if d == 0 {
        '0'
    } else if d == 1 {
        '1'
    } else if d == 2 {
        '2'
    } else if d == 3 {
        '3'
    } else if d == 4 {
        '4'
    } else if d == 5 {
        '5'
    } else if d == 6 {
        '6'
    } else if d == 7 {
        '7'
    } else if d == 8 {
        '8'
    } else {
        '9'
    }
}

fn digit_str(d: u64) -> (r: &'static str)
    requires
        d <= 9,
    ensures
        r@ =~= seq![digit_char(d as int)],
{
    proof {
        reveal_strlit("0");
        reveal_strlit("1");
        reveal_strlit("2");
        reveal_strlit("3");
        reveal_strlit("4");
        reveal_strlit("5");
        reveal_strlit("6");
        reveal_strlit("7");
        reveal_strlit("8");
        reveal_strlit("9");
    }
    match d {
        0 => "0",
        1 => "1",
        2 => "2",
        3 => "3",
        4 => "4",
        5 => "5",
        6 => "6",
        7 => "7",
        8 => "8",
        _ => "9",
    }
}

/// Formats `n` as its canonical decimal numeral.
pub fn u64_to_string(n: u64) -> (r: String)
    ensures
        r@ == dec_numeral(n as int),
{
    let mut digits: Vec<u64> = Vec::new();
    let mut m: u64 = n;
    // Least significant digit first.
    while m > 9
        invariant
            m <= n,
            forall|j: int| 0 <= j < digits@.len() ==> #[trigger] digits@[j] <= 9,
            dec_numeral(n as int) =~= dec_numeral(m as int) + digits_rev(digits@),
        decreases m,
    {
        let d = m % 10;
        let m0: Ghost<u64> = Ghost(m);
        m = m / 10;
        proof {
            assert(m0@ == m * 10 + d && m0@ > 9);
            assert(dec_numeral(m0@ as int) == dec_numeral(m as int).push(digit_char(d as int)));
            let pushed = digits@.push(d);
            assert(pushed.drop_last() =~= digits@);
            assert(pushed.last() == d);
            assert(digits_rev(pushed) == seq![digit_char(d as int)] + digits_rev(digits@));
            assert(dec_numeral(m as int) + digits_rev(pushed) =~= dec_numeral(m0@ as int)
                + digits_rev(digits@));
        }
        digits.push(d);
    }
    let mut s = String::new();
    s.append(digit_str(m));
    let k = digits.len();
    proof {
        assert(s@ =~= dec_numeral(m as int));
        assert(digits@.subrange(0, k as int) =~= digits@);
    }
    let mut i: usize = 0;
    while i < k
        invariant
            k == digits@.len(),
            i <= k,
            forall|j: int| 0 <= j < digits@.len() ==> #[trigger] digits@[j] <= 9,
            dec_numeral(n as int) =~= s@ + digits_rev(digits@.subrange(0, (k - i) as int)),
        decreases k - i,
    {
        let d = digits[k - 1 - i];
        let piece = digit_str(d);
        proof {
            let rest = digits@.subrange(0, (k - i) as int);
            assert(rest.last() == digits@[k - 1 - i as int]);
            assert(rest.drop_last() =~= digits@.subrange(0, (k - i - 1) as int));
            assert(digits_rev(rest) == seq![digit_char(d as int)] + digits_rev(rest.drop_last()));
            assert(s@ + digits_rev(rest) =~= (s@ + seq![digit_char(d as int)]) + digits_rev(
                rest.drop_last(),
            ));
        }
        s.append(piece);
        i += 1;
    }
    proof {
        assert(digits@.subrange(0, 0) =~= Seq::<u64>::empty());
        assert(dec_numeral(n as int) =~= s@);
    }
    s
}

/// The digits of `ds` read back-to-front as characters (the vector holds
/// the least significant digit first).
pub open spec fn digits_rev(ds: Seq<u64>) -> Seq<char>
    decreases ds.len(),
{
    if ds.len() == 0 {
        Seq::empty()
    } else {
        seq![digit_char(ds.last() as int)] + digits_rev(ds.drop_last())
    }
}

/// Whether `c` counts as whitespace (Unicode).
pub uninterp spec fn whitespace_char(c: char) -> bool;

/// Relies on std's `char::is_whitespace`: a pure Unicode-table
/// classification of the character.
#[verifier::external_body]
fn char_is_whitespace(c: char) -> (r: bool)
    ensures
        r == whitespace_char(c),
{
    c.is_whitespace()
}

/// One step of splitting on whitespace, read left to right from
/// position `i` with the token collected so far in `cur` and the
/// finished tokens in `acc`.
pub open spec fn split_ws_rec(s: Seq<char>, i: int, cur: Seq<char>, acc: Seq<Seq<char>>) -> Seq<
    Seq<char>,
>
    decreases s.len() - i,
{
    if i < 0 || i >= s.len() {
        if cur.len() > 0 {
            acc.push(cur)
        } else {
            acc
        }
    } else if whitespace_char(s[i]) {
        if cur.len() > 0 {
            split_ws_rec(s, i + 1, Seq::empty(), acc.push(cur))
        } else {
            split_ws_rec(s, i + 1, Seq::empty(), acc)
        }
    } else {
        split_ws_rec(s, i + 1, cur.push(s[i]), acc)
    }
}

/// The maximal whitespace-free runs of `s`, in order — what
/// `str::split_whitespace` yields.
pub open spec fn spec_split_ws(s: Seq<char>) -> Seq<Seq<char>> {
    split_ws_rec(s, 0, Seq::empty(), Seq::empty())
}

/// Splits a string into its whitespace-separated tokens.
pub fn split_whitespace_tokens(s: &str) -> (r: Vec<String>)
    ensures
        r@.map_values(|t: String| t@) == spec_split_ws(s@),
{
    let n = s.unicode_len();
    let mut acc: Vec<String> = Vec::new();
    let mut i: usize = 0;
    // Start of the token currently being read; equal to `i` when none.
    let mut start: usize = 0;
    proof {
        assert(s@.subrange(0, 0) =~= Seq::<char>::empty());
        assert(acc@.map_values(|t: String| t@) =~= Seq::<Seq<char>>::empty());
    }
    while i < n
        invariant
            n == s@.len(),
            start <= i <= n,
            spec_split_ws(s@) == split_ws_rec(
                s@,
                i as int,
                s@.subrange(start as int, i as int),
                acc@.map_values(|t: String| t@),
            ),
        decreases n - i,
    {
        let ghost cur = s@.subrange(start as int, i as int);
        let ghost accm = acc@.map_values(|t: String| t@);
        let c = s.get_char(i);
        if char_is_whitespace(c) {
            if start < i {
                let tok = s.substring_char(start, i).to_owned();
                proof {
                    assert((acc@.push(tok)).map_values(|t: String| t@) =~= accm.push(cur));
                    assert(s@.subrange(i as int + 1, i as int + 1) =~= Seq::<char>::empty());
                }
                acc.push(tok);
            } else {
                proof {
                    assert(cur =~= Seq::<char>::empty());
                    assert(s@.subrange(i as int + 1, i as int + 1) =~= Seq::<char>::empty());
                }
            }
            i += 1;
            start = i;
        } else {
            proof {
                assert(s@.subrange(start as int, i as int + 1) =~= cur.push(s@[i as int]));
            }
            i += 1;
        }
    }
    let ghost accm = acc@.map_values(|t: String| t@);
    if start < i {
        let tok = s.substring_char(start, n).to_owned();
        proof {
            assert((acc@.push(tok)).map_values(|t: String| t@) =~= accm.push(
                s@.subrange(start as int, n as int),
            ));
        }
        acc.push(tok);
    } else {
        proof {
            assert(s@.subrange(start as int, i as int) =~= Seq::<char>::empty());
        }
    }
    acc
}

/// Number of occurrences of `c` in `s`.
pub open spec fn count_occ(s: Seq<char>, c: char) -> nat
    decreases s.len(),
{
    if s.len() == 0 {
        0
    } else {
        count_occ(s.drop_last(), c) + if s.last() == c {
            1nat
        } else {
            0nat
        }
    }
}

pub proof fn lemma_count_concat(x: Seq<char>, y: Seq<char>, c: char)
    ensures
        count_occ(x + y, c) == count_occ(x, c) + count_occ(y, c),
    decreases y.len(),
{
    if y.len() == 0 {
        assert(x + y =~= x);
    } else {
        lemma_count_concat(x, y.drop_last(), c);
        assert((x + y).drop_last() =~= x + y.drop_last());
        assert((x + y).last() == y.last());
    }
}

pub proof fn lemma_count_zero(s: Seq<char>, c: char)
    ensures
        (count_occ(s, c) == 0) <==> (forall|i: int| 0 <= i < s.len() ==> s[i] != c),
    decreases s.len(),
{
    if s.len() > 0 {
        lemma_count_zero(s.drop_last(), c);
        assert(forall|i: int| 0 <= i < s.len() - 1 ==> s[i] == s.drop_last()[i]);
    }
}

/// The pieces before and after the first occurrence of `c` in `s`, if
/// `c` occurs at all.
pub open spec fn split_first(s: Seq<char>, c: char) -> Option<(Seq<char>, Seq<char>)>
    decreases s.len(),
{
    if s.len() == 0 {
        None
    } else if s[0] == c {
        Some((Seq::empty(), s.drop_first()))
    } else {
        match split_first(s.drop_first(), c) {
            None => None,
            Some(p) => Some((seq![s[0]] + p.0, p.1)),
        }
    }
}

/// The two pieces around `c` when `c` occurs exactly once in `s` — what
/// splitting on `c` into exactly two parts yields.
pub open spec fn spec_split2(s: Seq<char>, c: char) -> Option<(Seq<char>, Seq<char>)> {
    match split_first(s, c) {
        None => None,
        Some(p) => match split_first(p.1, c) {
            Some(..) => None,
            None => Some(p),
        },
    }
}

/// What `split_first` found: either the decomposition around the first
/// occurrence, or the guarantee that there is none.
pub proof fn lemma_split_first_sound(s: Seq<char>, c: char)
    ensures
        match split_first(s, c) {
            Some(p) => s =~= p.0 + seq![c] + p.1 && count_occ(p.0, c) == 0,
            None => count_occ(s, c) == 0,
        },
    decreases s.len(),
{
    if s.len() == 0 {
        lemma_count_zero(s, c);
    } else if s[0] == c {
        assert(s =~= Seq::empty() + seq![c] + s.drop_first());
        lemma_count_zero(Seq::empty(), c);
    } else {
        lemma_split_first_sound(s.drop_first(), c);
        match split_first(s.drop_first(), c) {
            None => {
                lemma_count_zero(s.drop_first(), c);
                assert forall|i: int| 0 <= i < s.len() implies s[i] != c by {
                    if i > 0 {
                        assert(s.drop_first()[i - 1] != c);
                    }
                };
                lemma_count_zero(s, c);
            },
            Some(p) => {
                assert(s =~= seq![s[0]] + s.drop_first());
                assert(seq![s[0]] + (p.0 + seq![c] + p.1) =~= (seq![s[0]] + p.0) + seq![c] + p.1);
                assert(s =~= (seq![s[0]] + p.0) + seq![c] + p.1);
                lemma_count_concat(seq![s[0]], p.0, c);
                assert(seq![s[0]].drop_last() =~= Seq::<char>::empty());
                assert(count_occ(seq![s[0]].drop_last(), c) == 0);
                assert(seq![s[0]].last() == s[0]);
                assert(count_occ(seq![s[0]], c) == 0);
                assert(count_occ(seq![s[0]] + p.0, c) == 0);
            },
        }
    }
}

/// `spec_split2` succeeds exactly on one occurrence, and then the two
/// pieces are the ones around it.
pub proof fn lemma_split2_count(s: Seq<char>, c: char)
    ensures
        match spec_split2(s, c) {
            Some(p) => count_occ(s, c) == 1 && s =~= p.0 + seq![c] + p.1 && count_occ(p.0, c) == 0
                && count_occ(p.1, c) == 0,
            None => count_occ(s, c) != 1,
        },
{
    lemma_split_first_sound(s, c);
    match split_first(s, c) {
        None => {},
        Some(p) => {
            lemma_count_concat(p.0 + seq![c], p.1, c);
            lemma_count_concat(p.0, seq![c], c);
            assert(seq![c].drop_last() =~= Seq::<char>::empty());
            assert(count_occ(seq![c].drop_last(), c) == 0);
            assert(seq![c].last() == c);
            assert(count_occ(seq![c], c) == 1);
            lemma_split_first_sound(p.1, c);
            match split_first(p.1, c) {
                None => {},
                Some(q) => {
                    lemma_count_concat(q.0 + seq![c], q.1, c);
                    lemma_count_concat(q.0, seq![c], c);
                },
            }
        },
    }
}

/// A decomposition around a sole occurrence is the one `spec_split2`
/// names.
pub proof fn lemma_split2_of_decomposition(s: Seq<char>, c: char, a: Seq<char>, b: Seq<char>)
    requires
        s == a + seq![c] + b,
        count_occ(a, c) == 0,
        count_occ(s, c) == 1,
    ensures
        spec_split2(s, c) == Some((a, b)),
{
    lemma_split2_count(s, c);
    lemma_count_concat(a + seq![c], b, c);
    lemma_count_concat(a, seq![c], c);
    assert(seq![c].drop_last() =~= Seq::<char>::empty());
    assert(count_occ(seq![c].drop_last(), c) == 0);
    assert(seq![c].last() == c);
    assert(count_occ(seq![c], c) == 1);
    assert(count_occ(b, c) == 0);
    match spec_split2(s, c) {
        None => {
            assert(false);
        },
        Some(p) => {
            // Two whole-string decompositions around a separator-free
            // prefix split at the same index.
            lemma_count_zero(a, c);
            lemma_count_zero(p.0, c);
            assert(s.len() == a.len() + 1 + b.len());
            assert(s.len() == p.0.len() + 1 + p.1.len());
            assert(s[a.len() as int] == c);
            assert(s[p.0.len() as int] == c);
            if a.len() < p.0.len() {
                assert(p.0[a.len() as int] == s[a.len() as int]);
                assert(false);
            }
            if p.0.len() < a.len() {
                assert(a[p.0.len() as int] == s[p.0.len() as int]);
                assert(false);
            }
            assert forall|i: int| 0 <= i < a.len() implies a[i] == p.0[i] by {
                assert(((a + seq![c]) + b)[i] == a[i]);
                assert(((p.0 + seq![c]) + p.1)[i] == p.0[i]);
            };
            assert(a =~= p.0);
            assert forall|i: int| 0 <= i < b.len() implies b[i] == p.1[i] by {
                assert(((a + seq![c]) + b)[a.len() + 1 + i] == b[i]);
                assert(((p.0 + seq![c]) + p.1)[p.0.len() + 1 + i] == p.1[i]);
            };
            assert(b =~= p.1);
        },
    }
}

/// Splits `s` at its single occurrence of `sep`.
///
/// Returns the two surrounding pieces exactly when `sep` occurs exactly
/// once in `s`, as `str::split` yielding exactly two parts would.
pub fn split_exact2(s: &str, sep: char) -> (r: Option<(String, String)>)
    ensures
        match r {
            Some(parts) => spec_split2(s@, sep) == Some((parts.0@, parts.1@)),
            None => spec_split2(s@, sep) is None,
        },
{
    let n = s.unicode_len();
    let mut i: usize = 0;
    // Find the first occurrence of the separator.
    while i < n && s.get_char(i) != sep
        invariant
            n == s@.len(),
            i <= n,
            forall|j: int| 0 <= j < i ==> s@[j] != sep,
        decreases n - i,
    {
        i += 1;
    }
    if i == n {
        proof {
            lemma_count_zero(s@, sep);
            lemma_split2_count(s@, sep);
        }
        return None;
    }
    assert(s@[i as int] == sep);
    // Make sure it is the only one.
    let mut j: usize = i + 1;
    while j < n && s.get_char(j) != sep
        invariant
            n == s@.len(),
            i < n,
            i < j <= n,
            s@[i as int] == sep,
            forall|k: int| i < k < j ==> s@[k] != sep,
        decreases n - j,
    {
        j += 1;
    }
    if j < n {
        // A second occurrence at `j`.
        proof {
            let a = s@.subrange(0, i as int);
            let mid = s@.subrange(i as int, j as int);
            let b = s@.subrange(j as int, n as int);
            assert(s@ =~= (a + mid) + b);
            lemma_count_concat(a + mid, b, sep);
            lemma_count_concat(a, mid, sep);
            lemma_count_zero(b, sep);
            assert(b[0] == sep);
            assert(count_occ(b, sep) >= 1);
            assert(mid[0] == sep);
            lemma_count_zero(mid, sep);
            assert(count_occ(mid, sep) >= 1);
            assert(count_occ(s@, sep) >= 2);
            lemma_split2_count(s@, sep);
        }
        return None;
    }
    let left = s.substring_char(0, i).to_owned();
    let right = s.substring_char(i + 1, n).to_owned();
    proof {
        let a = s@.subrange(0, i as int);
        let mid = seq![sep];
        let b = s@.subrange(i as int + 1, n as int);
        assert(s@ =~= (a + mid) + b);
        lemma_count_concat(a + mid, b, sep);
        lemma_count_concat(a, mid, sep);
        lemma_count_zero(a, sep);
        lemma_count_zero(b, sep);
        assert(mid.len() == 1 && mid.last() == sep);
        assert(mid.drop_last() =~= Seq::<char>::empty());
        assert(count_occ(mid.drop_last(), sep) == 0);
        assert(count_occ(mid, sep) == 1);
        assert(count_occ(s@, sep) == 1);
        lemma_split2_of_decomposition(s@, sep, a, b);
    }
    Some((left, right))
}

} // verus!
