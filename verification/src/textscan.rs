//! Searching text and reading decimal numbers, over character sequences.

use vstd::prelude::*;

verus! {

/// `pat` occurs in `s` at index `i`.
pub open spec fn occurs_at(s: Seq<char>, pat: Seq<char>, i: int) -> bool {
    0 <= i && i + pat.len() <= s.len() && s.subrange(i, i + pat.len()) == pat
}

/// The first index at or after `i` where `pat` occurs in `s`.
pub open spec fn find_from(s: Seq<char>, pat: Seq<char>, i: int) -> Option<int>
    decreases s.len() + 1 - i,
{
    if i < 0 || i + pat.len() > s.len() {
        None
    } else if occurs_at(s, pat, i) {
        Some(i)
    } else {
        find_from(s, pat, i + 1)
    }
}

/// The first index where `pat` occurs in `s` (`str::find`).
pub open spec fn spec_find_sub(s: Seq<char>, pat: Seq<char>) -> Option<int> {
    find_from(s, pat, 0)
}

/// `pat` occurs somewhere in `s` (`str::contains`).
pub open spec fn has_sub(s: Seq<char>, pat: Seq<char>) -> bool {
    spec_find_sub(s, pat) is Some
}

/// A found index lies in the text and is an occurrence.
pub proof fn lemma_find_from_found(s: Seq<char>, pat: Seq<char>, i: int)
    ensures
        find_from(s, pat, i) matches Some(k) ==> i <= k && occurs_at(s, pat, k),
    decreases s.len() + 1 - i,
{
    if !(i < 0 || i + pat.len() > s.len()) && !occurs_at(s, pat, i) {
        lemma_find_from_found(s, pat, i + 1);
    }
}

/// Whether `pat` occurs in `s` at `i` (executable form).
fn matches_at(s: &[char], pat: &[char], i: usize) -> (r: bool)
    requires
        i + pat@.len() <= s@.len(),
    ensures
        r == occurs_at(s@, pat@, i as int),
{
    let mut k: usize = 0;
    while k < pat.len()
        invariant
            i + pat@.len() <= s@.len(),
            s@.len() == s.len(),
            pat@.len() == pat.len(),
            k <= pat@.len(),
            forall|t: int| 0 <= t < k ==> s@[i + t] == pat@[t],
        decreases pat.len() - k,
    {
        if s[i + k] != pat[k] {
            assert(s@.subrange(i as int, i + pat@.len())[k as int] != pat@[k as int]);
            return false;
        }
        k = k + 1;
    }
    assert(s@.subrange(i as int, i + pat@.len()) =~= pat@);
    true
}

/// The first index where `pat` occurs in `text`.
pub fn find_sub(text: &Vec<char>, pat: &str) -> (r: Option<usize>)
    ensures
        r matches Some(k) ==> spec_find_sub(text@, pat@) == Some(k as int),
        r is None ==> spec_find_sub(text@, pat@) is None,
{
    let p = crate::text::chars_of(pat);
    let n = text.len();
    let m = p.len();
    if m > n {
        return None;
    }
    if m == 0 {
        assert(text@.subrange(0, 0) =~= pat@);
        return Some(0);
    }
    let mut i: usize = 0;
    while i <= n - m
        invariant
            n == text@.len(),
            m == p@.len(),
            p@ == pat@,
            1 <= m <= n,
            i <= n - m + 1,
            find_from(text@, pat@, 0) == find_from(text@, pat@, i as int),
        decreases n - i,
    {
        if matches_at(text.as_slice(), p.as_slice(), i) {
            return Some(i);
        }
        i = i + 1;
    }
    None
}

/// Whether `pat` occurs in `text`.
pub fn contains_sub(text: &Vec<char>, pat: &str) -> (r: bool)
    ensures
        r == has_sub(text@, pat@),
{
    match find_sub(text, pat) {
        Some(_) => true,
        None => false,
    }
}

/// `c` is one of the ASCII digits.
pub open spec fn is_digit(c: char) -> bool {
    '0' <= c && c <= '9'
}

/// Every character of `s` is an ASCII digit.
pub open spec fn all_digits(s: Seq<char>) -> bool {
    forall|i: int| 0 <= i < s.len() ==> is_digit(#[trigger] s[i])
}

/// The value of the decimal numeral `s`.
pub open spec fn dec_value(s: Seq<char>) -> int
    decreases s.len(),
{
    if s.len() == 0 {
        0
    } else {
        dec_value(s.drop_last()) * 10 + (s.last() as int - '0' as int)
    }
}

/// A nonempty decimal numeral whose value fits in a `u64`.
pub open spec fn digits_u64(s: Seq<char>) -> Option<u64> {
    if s.len() > 0 && all_digits(s) && dec_value(s) <= u64::MAX {
        Some(dec_value(s) as u64)
    } else {
        None
    }
}

/// What `str::parse::<u64>` gives: an optional `+` sign, then a nonempty
/// run of ASCII digits whose value fits in a `u64`.
pub open spec fn spec_parse_u64(s: Seq<char>) -> Option<u64> {
    if s.len() > 0 && s[0] == '+' {
        digits_u64(s.drop_first())
    } else {
        digits_u64(s)
    }
}

/// The value of a numeral of digits is at least that of each prefix.
pub proof fn lemma_dec_value_prefix(s: Seq<char>, k: int)
    requires
        all_digits(s),
        0 <= k <= s.len(),
    ensures
        dec_value(s) >= dec_value(s.subrange(0, k)),
        dec_value(s) >= 0,
    decreases s.len(),
{
    if s.len() > 0 {
        let p = s.drop_last();
        assert(all_digits(p)) by {
            assert forall|i: int| 0 <= i < p.len() implies is_digit(#[trigger] p[i]) by {
                assert(p[i] == s[i]);
            }
        }
        assert(is_digit(s[s.len() - 1]));
        if k == s.len() {
            assert(s.subrange(0, k) =~= s);
            lemma_dec_value_prefix(p, 0);
        } else {
            lemma_dec_value_prefix(p, k);
            assert(p.subrange(0, k) =~= s.subrange(0, k));
        }
    }
}

/// Reads a run of decimal digits (after the sign, if any); `None` when a
/// character is not a digit, the run is empty, or the value overflows.
fn parse_digits(d: &[char]) -> (r: Option<u64>)
    ensures
        r == digits_u64(d@),
{
    if d.len() == 0 {
        return None;
    }
    let mut value: u64 = 0;
    let mut i: usize = 0;
    while i < d.len()
        invariant
            0 < d@.len(),
            i <= d@.len(),
            all_digits(d@.subrange(0, i as int)),
            value as int == dec_value(d@.subrange(0, i as int)),
        decreases d.len() - i,
    {
        let c = d[i];
        if !('0' <= c && c <= '9') {
            assert(!all_digits(d@)) by {
                assert(!is_digit(d@[i as int]));
            }
            return None;
        }
        let digit: u64 = (c as u64) - 48;
        let ghost pre = d@.subrange(0, i as int);
        let ghost next = d@.subrange(0, i + 1);
        assert(next.drop_last() =~= pre);
        assert(all_digits(next)) by {
            assert forall|t: int| 0 <= t < next.len() implies is_digit(#[trigger] next[t]) by {
                if t < i {
                    assert(next[t] == pre[t]);
                }
            }
        }
        match value.checked_mul(10) {
            None => {
                proof {
                    if all_digits(d@) {
                        lemma_dec_value_prefix(d@, i + 1);
                    }
                }
                return None;
            },
            Some(v10) => match v10.checked_add(digit) {
                None => {
                    proof {
                        if all_digits(d@) {
                            lemma_dec_value_prefix(d@, i + 1);
                        }
                    }
                    return None;
                },
                Some(v) => {
                    value = v;
                },
            },
        }
        i = i + 1;
    }
    assert(d@.subrange(0, d@.len() as int) =~= d@);
    Some(value)
}

/// Reads a `u64` as `str::parse::<u64>` does.
pub fn parse_u64(s: &[char]) -> (r: Option<u64>)
    ensures
        r == spec_parse_u64(s@),
{
    if s.len() > 0 && s[0] == '+' {
        let rest = vstd::slice::slice_subrange(s, 1, s.len());
        assert(rest@ =~= s@.drop_first());
        parse_digits(rest)
    } else {
        parse_digits(s)
    }
}

/// The first index at or after `i` where `x` occurs in `s`.
pub open spec fn first_index<T>(s: Seq<T>, x: T, i: int) -> Option<int>
    decreases s.len() - i,
{
    if i < 0 || i >= s.len() {
        None
    } else if s[i] == x {
        Some(i)
    } else {
        first_index(s, x, i + 1)
    }
}

/// `first_index` finds `x` at or after `i`, and no earlier occurrence.
pub proof fn lemma_first_index<T>(s: Seq<T>, x: T, i: int)
    ensures
        first_index(s, x, i) matches Some(p) ==> i <= p < s.len() && s[p] == x
            && forall|k: int| i <= k < p ==> s[k] != x,
        first_index(s, x, i) is None ==> forall|k: int| 0 <= i <= k < s.len() ==> s[k] != x,
    decreases s.len() - i,
{
    if !(i < 0 || i >= s.len()) && s[i] != x {
        lemma_first_index(s, x, i + 1);
    }
}

/// The first index at or after `i` where `c` occurs in `s`.
pub fn find_char(s: &[char], c: char, i: usize) -> (r: Option<usize>)
    requires
        i <= s@.len(),
    ensures
        r matches Some(k) ==> first_index(s@, c, i as int) == Some(k as int),
        r is None ==> first_index(s@, c, i as int) is None,
{
    let mut k = i;
    while k < s.len()
        invariant
            i <= k <= s@.len(),
            first_index(s@, c, i as int) == first_index(s@, c, k as int),
        decreases s.len() - k,
    {
        if s[k] == c {
            return Some(k);
        }
        k = k + 1;
    }
    None
}

/// `c` is white space as `char::is_whitespace` defines it (the Unicode
/// White_Space property).
pub open spec fn is_ws(c: char) -> bool {
    ||| '\t' <= c <= '\r'
    ||| c == ' '
    ||| c == '\u{85}'
    ||| c == '\u{a0}'
    ||| c == '\u{1680}'
    ||| '\u{2000}' <= c <= '\u{200a}'
    ||| c == '\u{2028}'
    ||| c == '\u{2029}'
    ||| c == '\u{202f}'
    ||| c == '\u{205f}'
    ||| c == '\u{3000}'
}

fn is_ws_exec(c: char) -> (r: bool)
    ensures
        r == is_ws(c),
{
    ('\t' <= c && c <= '\r') || c == ' ' || c == '\u{85}' || c == '\u{a0}' || c == '\u{1680}'
        || ('\u{2000}' <= c && c <= '\u{200a}') || c == '\u{2028}' || c == '\u{2029}' || c == '\u{202f}'
        || c == '\u{205f}' || c == '\u{3000}'
}

/// `s` without its leading white space.
pub open spec fn trim_front(s: Seq<char>) -> Seq<char>
    decreases s.len(),
{
    if s.len() > 0 && is_ws(s[0]) {
        trim_front(s.drop_first())
    } else {
        s
    }
}

/// `s` without its trailing white space.
pub open spec fn trim_back(s: Seq<char>) -> Seq<char>
    decreases s.len(),
{
    if s.len() > 0 && is_ws(s.last()) {
        trim_back(s.drop_last())
    } else {
        s
    }
}

/// `s` without leading and trailing white space (`str::trim`).
pub open spec fn spec_trim(s: Seq<char>) -> Seq<char> {
    trim_back(trim_front(s))
}

/// `str::trim` on a slice of characters.
pub fn trim(s: &[char]) -> (r: &[char])
    ensures
        r@ == spec_trim(s@),
{
    let n = s.len();
    let mut i: usize = 0;
    assert(s@.subrange(0, n as int) =~= s@);
    while i < n && is_ws_exec(s[i])
        invariant
            n == s@.len(),
            i <= n,
            trim_front(s@) == trim_front(s@.subrange(i as int, n as int)),
        decreases n - i,
    {
        let ghost t = s@.subrange(i as int, n as int);
        assert(t.drop_first() =~= s@.subrange(i + 1, n as int));
        i = i + 1;
    }
    let ghost front = s@.subrange(i as int, n as int);
    assert(trim_front(front) == front);
    let mut j: usize = n;
    while j > i && is_ws_exec(s[j - 1])
        invariant
            n == s@.len(),
            i <= j <= n,
            front == s@.subrange(i as int, n as int),
            trim_back(front) == trim_back(s@.subrange(i as int, j as int)),
        decreases j,
    {
        let ghost t = s@.subrange(i as int, j as int);
        assert(t.drop_last() =~= s@.subrange(i as int, j - 1));
        j = j - 1;
    }
    let r = vstd::slice::slice_subrange(s, i, j);
    assert(trim_back(r@) == r@);
    r
}

/// The pieces of `s` between occurrences of `c` (`str::split` by a
/// character): one more piece than there are separators.
pub open spec fn split_char(s: Seq<char>, c: char) -> Seq<Seq<char>>
    decreases s.len(),
{
    match first_index(s, c, 0) {
        None => seq![s],
        Some(k) => {
            proof {
                lemma_first_index(s, c, 0);
            }
            seq![s.subrange(0, k)] + split_char(s.subrange(k + 1, s.len() as int), c)
        },
    }
}

/// Finding `c` in the tail of `s` from `i` is finding it in `s` from `i`.
pub proof fn lemma_first_index_shift<T>(s: Seq<T>, x: T, i: int)
    requires
        0 <= i <= s.len(),
    ensures
        (first_index(s.subrange(i, s.len() as int), x, 0) matches Some(k) ==> first_index(s, x, i) == Some(i + k)),
        (first_index(s.subrange(i, s.len() as int), x, 0) is None ==> first_index(s, x, i) is None),
{
    let t = s.subrange(i, s.len() as int);
    lemma_first_index(t, x, 0);
    lemma_first_index(s, x, i);
    match first_index(t, x, 0) {
        Some(k) => {
            assert(t[k] == s[i + k]);
            match first_index(s, x, i) {
                Some(q) => {
                    if q < i + k {
                        assert(t[q - i] == s[q]);
                    }
                },
                None => {
                    assert(s[i + k] == x);
                },
            }
        },
        None => {
            match first_index(s, x, i) {
                Some(q) => {
                    assert(t[q - i] == s[q]);
                },
                None => {},
            }
        },
    }
}

/// Splits `s` at each occurrence of `c`.
pub fn split_at_char(s: &[char], c: char) -> (r: Vec<Vec<char>>)
    ensures
        r@.map_values(|v: Vec<char>| v@) == split_char(s@, c),
{
    let n = s.len();
    let mut out: Vec<Vec<char>> = Vec::new();
    let mut st: usize = 0;
    assert(s@.subrange(0, n as int) =~= s@);
    assert(out@.map_values(|v: Vec<char>| v@) =~= Seq::<Seq<char>>::empty());
    loop
        invariant_except_break
            out@.map_values(|v: Vec<char>| v@) + split_char(s@.subrange(st as int, n as int), c) == split_char(s@, c),
        invariant
            n == s@.len(),
            st <= n,
        ensures
            out@.map_values(|v: Vec<char>| v@) == split_char(s@, c),
        decreases n - st,
    {
        let ghost before = out@.map_values(|v: Vec<char>| v@);
        let ghost t = s@.subrange(st as int, n as int);
        proof {
            lemma_first_index_shift(s@, c, st as int);
            lemma_first_index(s@, c, st as int);
        }
        match find_char(s, c, st) {
            None => {
                let piece = vstd::slice::slice_to_vec(vstd::slice::slice_subrange(s, st, n));
                out.push(piece);
                assert(split_char(t, c) == seq![t]);
                assert(out@.map_values(|v: Vec<char>| v@) =~= before + seq![t]);
                break;
            },
            Some(k) => {
                let piece = vstd::slice::slice_to_vec(vstd::slice::slice_subrange(s, st, k));
                out.push(piece);
                let ghost kk = (k - st) as int;
                assert(first_index(t, c, 0) == Some(kk));
                assert(t.subrange(0, kk) =~= s@.subrange(st as int, k as int));
                assert(t.subrange(kk + 1, t.len() as int) =~= s@.subrange(k + 1, n as int));
                assert(split_char(t, c) == seq![t.subrange(0, kk)] + split_char(t.subrange(kk + 1, t.len() as int), c));
                assert(out@.map_values(|v: Vec<char>| v@) =~= before.push(s@.subrange(st as int, k as int)));
                assert(before + split_char(t, c) =~= out@.map_values(|v: Vec<char>| v@) + split_char(s@.subrange(k + 1, n as int), c));
                st = k + 1;
            },
        }
    }
    out
}

/// `s` begins with `pat`.
pub open spec fn starts_with(s: Seq<char>, pat: Seq<char>) -> bool {
    pat.len() <= s.len() && s.subrange(0, pat.len() as int) == pat
}

/// Whether `s` begins with `pat`.
pub fn starts_with_str(s: &[char], pat: &str) -> (r: bool)
    ensures
        r == starts_with(s@, pat@),
{
    let p = crate::text::chars_of(pat);
    if p.len() > s.len() {
        return false;
    }
    matches_at(s, p.as_slice(), 0)
}

/// `line` without one trailing carriage return.
pub open spec fn strip_cr(line: Seq<char>) -> Seq<char> {
    if line.len() > 0 && line.last() == '\r' {
        line.drop_last()
    } else {
        line
    }
}

/// The lines of `s` as `str::lines` gives them: split at each line feed,
/// a carriage return before the line feed removed, no line after a final
/// line feed.
pub open spec fn spec_lines(s: Seq<char>) -> Seq<Seq<char>>
    decreases s.len(),
{
    if s.len() == 0 {
        Seq::empty()
    } else {
        match first_index(s, '\n', 0) {
            None => seq![s],
            Some(k) => {
                proof {
                    lemma_first_index(s, '\n', 0);
                }
                seq![strip_cr(s.subrange(0, k))] + spec_lines(s.subrange(k + 1, s.len() as int))
            },
        }
    }
}

/// Splits `s` into its lines.
pub fn lines_of(s: &[char]) -> (r: Vec<Vec<char>>)
    ensures
        r@.map_values(|v: Vec<char>| v@) == spec_lines(s@),
{
    let n = s.len();
    let mut out: Vec<Vec<char>> = Vec::new();
    let mut st: usize = 0;
    assert(s@.subrange(0, n as int) =~= s@);
    assert(out@.map_values(|v: Vec<char>| v@) =~= Seq::<Seq<char>>::empty());
    while st < n
        invariant
            n == s@.len(),
            st <= n,
            out@.map_values(|v: Vec<char>| v@) + spec_lines(s@.subrange(st as int, n as int)) == spec_lines(s@),
        decreases n - st,
    {
        let ghost before = out@.map_values(|v: Vec<char>| v@);
        let ghost t = s@.subrange(st as int, n as int);
        proof {
            lemma_first_index_shift(s@, '\n', st as int);
            lemma_first_index(s@, '\n', st as int);
        }
        match find_char(s, '\n', st) {
            None => {
                let line = vstd::slice::slice_to_vec(vstd::slice::slice_subrange(s, st, n));
                out.push(line);
                assert(spec_lines(t) == seq![t]);
                assert(out@.map_values(|v: Vec<char>| v@) =~= before + seq![t]);
                assert(s@.subrange(n as int, n as int) =~= Seq::<char>::empty());
                assert(out@.map_values(|v: Vec<char>| v@) + spec_lines(s@.subrange(n as int, n as int)) =~= before + spec_lines(t));
                st = n;
            },
            Some(k) => {
                let mut e = k;
                if e > st && s[e - 1] == '\r' {
                    e = e - 1;
                }
                let line = vstd::slice::slice_to_vec(vstd::slice::slice_subrange(s, st, e));
                out.push(line);
                let ghost kk = (k - st) as int;
                assert(first_index(t, '\n', 0) == Some(kk));
                assert(strip_cr(t.subrange(0, kk)) =~= s@.subrange(st as int, e as int));
                assert(t.subrange(kk + 1, t.len() as int) =~= s@.subrange(k + 1, n as int));
                assert(spec_lines(t) == seq![strip_cr(t.subrange(0, kk))] + spec_lines(t.subrange(kk + 1, t.len() as int)));
                assert(out@.map_values(|v: Vec<char>| v@) =~= before.push(s@.subrange(st as int, e as int)));
                assert(before + spec_lines(t) =~= out@.map_values(|v: Vec<char>| v@) + spec_lines(s@.subrange(k + 1, n as int)));
                st = k + 1;
            },
        }
    }
    assert(s@.subrange(n as int, n as int) =~= Seq::<char>::empty());
    assert(out@.map_values(|v: Vec<char>| v@) =~= out@.map_values(|v: Vec<char>| v@) + spec_lines(s@.subrange(st as int, n as int)));
    out
}

/// Whether two strings are equal, character by character.
pub fn str_eq(a: &str, b: &str) -> (r: bool)
    ensures
        r == (a@ == b@),
{
    let x = crate::text::chars_of(a);
    let y = crate::text::chars_of(b);
    if x.len() != y.len() {
        return false;
    }
    let mut k: usize = 0;
    while k < x.len()
        invariant
            x@ == a@,
            y@ == b@,
            x@.len() == y@.len(),
            k <= x@.len(),
            forall|t: int| 0 <= t < k ==> x@[t] == y@[t],
        decreases x.len() - k,
    {
        if x[k] != y[k] {
            return false;
        }
        k = k + 1;
    }
    assert(x@ =~= y@);
    true
}

/// The ASCII digit for `d` (below 10).
pub open spec fn digit_char(d: int) -> char {
    (d + 48) as char
}

/// The decimal numeral of `n`, without leading zeros (`0` for zero).
pub open spec fn spec_dec(n: nat) -> Seq<char>
    decreases n,
{
    if n < 10 {
        seq![digit_char(n as int)]
    } else {
        spec_dec(n / 10) + seq![digit_char((n % 10) as int)]
    }
}

/// The numeral of `n` is a nonempty run of digits whose value is `n`.
pub proof fn lemma_dec_digits(n: nat)
    ensures
        spec_dec(n).len() > 0,
        all_digits(spec_dec(n)),
        dec_value(spec_dec(n)) == n,
    decreases n,
{
    let s = spec_dec(n);
    if n < 10 {
        assert(s.drop_last() =~= Seq::<char>::empty());
        assert(dec_value(s.drop_last()) == 0);
    } else {
        lemma_dec_digits(n / 10);
        assert(s.drop_last() =~= spec_dec(n / 10));
        assert(n == (n / 10) * 10 + n % 10);
    }
}

/// The decimal numeral of `n`, as characters.
pub fn dec_chars(n: u64) -> (r: Vec<char>)
    ensures
        r@ == spec_dec(n as nat),
    decreases n,
{
    if n < 10 {
        let mut v: Vec<char> = Vec::new();
        v.push(((n as u8) + 48) as char);
        assert(v@ =~= seq![digit_char(n as int)]);
        v
    } else {
        let mut v = dec_chars(n / 10);
        let d = (n % 10) as u8;
        let ghost before = v@;
        v.push((d + 48) as char);
        assert(v@ =~= before + seq![digit_char((n % 10) as int)]);
        v
    }
}

/// The decimal numeral of `n`, as a string (`n.to_string()`).
pub fn dec_string(n: u64) -> (r: String)
    ensures
        r@ == spec_dec(n as nat),
{
    let v = dec_chars(n);
    crate::text::string_of(v.as_slice())
}

/// The first index at or after `i` holding white space.
pub open spec fn first_ws(s: Seq<char>, i: int) -> int
    decreases s.len() - i,
{
    if i < 0 || i >= s.len() {
        s.len() as int
    } else if is_ws(s[i]) {
        i
    } else {
        first_ws(s, i + 1)
    }
}

/// `first_ws` finds white space at or after `i`, or the end.
pub proof fn lemma_first_ws(s: Seq<char>, i: int)
    requires
        0 <= i <= s.len(),
    ensures
        i <= first_ws(s, i) <= s.len(),
        first_ws(s, i) < s.len() ==> is_ws(s[first_ws(s, i)]),
        forall|k: int| i <= k < first_ws(s, i) ==> !is_ws(s[k]),
    decreases s.len() - i,
{
    if i < s.len() && !is_ws(s[i]) {
        lemma_first_ws(s, i + 1);
    }
}

/// Trimming the front leaves a suffix of the text.
pub proof fn lemma_trim_front_suffix(s: Seq<char>)
    ensures
        trim_front(s).len() <= s.len(),
        trim_front(s) == s.subrange(s.len() - trim_front(s).len(), s.len() as int),
        trim_front(s).len() > 0 ==> !is_ws(trim_front(s)[0]),
    decreases s.len(),
{
    if s.len() > 0 && is_ws(s[0]) {
        lemma_trim_front_suffix(s.drop_first());
        assert(s.drop_first().subrange(s.drop_first().len() - trim_front(s).len(), s.drop_first().len() as int)
            =~= s.subrange(s.len() - trim_front(s).len(), s.len() as int));
    } else {
        assert(s.subrange(0, s.len() as int) =~= s);
    }
}

/// The words of `s` (`str::split_whitespace`): the maximal runs of
/// characters that are not white space.
pub open spec fn ws_tokens(s: Seq<char>) -> Seq<Seq<char>>
    decreases s.len(),
{
    let t = trim_front(s);
    if t.len() == 0 {
        Seq::empty()
    } else {
        proof {
            lemma_trim_front_suffix(s);
            lemma_first_ws(t, 0);
        }
        let k = first_ws(t, 0);
        seq![t.subrange(0, k)] + ws_tokens(t.subrange(k, t.len() as int))
    }
}

/// Index of the first character at or after `i` that is not white space.
fn skip_ws(s: &[char], i: usize) -> (r: usize)
    requires
        i <= s@.len(),
    ensures
        i <= r <= s@.len(),
        trim_front(s@.subrange(i as int, s@.len() as int)) == s@.subrange(r as int, s@.len() as int),
{
    let n = s.len();
    let mut k = i;
    while k < n && is_ws_exec(s[k])
        invariant
            n == s@.len(),
            i <= k <= n,
            trim_front(s@.subrange(i as int, n as int)) == trim_front(s@.subrange(k as int, n as int)),
        decreases n - k,
    {
        assert(s@.subrange(k as int, n as int).drop_first() =~= s@.subrange(k + 1, n as int));
        k = k + 1;
    }
    k
}

/// Index of the first white space at or after `i`, or the end.
fn find_ws(s: &[char], i: usize) -> (r: usize)
    requires
        i <= s@.len(),
    ensures
        r == first_ws(s@, i as int),
{
    let n = s.len();
    let mut k = i;
    while k < n && !is_ws_exec(s[k])
        invariant
            n == s@.len(),
            i <= k <= n,
            first_ws(s@, i as int) == first_ws(s@, k as int),
        decreases n - k,
    {
        k = k + 1;
    }
    k
}

/// Finding white space in a suffix is finding it in the whole text.
proof fn lemma_first_ws_shift(s: Seq<char>, i: int, j: int)
    requires
        0 <= i <= j <= s.len(),
    ensures
        first_ws(s.subrange(i, s.len() as int), j - i) == first_ws(s, j) - i,
    decreases s.len() - j,
{
    if j < s.len() {
        assert(s.subrange(i, s.len() as int)[j - i] == s[j]);
        if !is_ws(s[j]) {
            lemma_first_ws_shift(s, i, j + 1);
        }
    }
}

/// Splits `s` into its words.
pub fn split_whitespace(s: &[char]) -> (r: Vec<Vec<char>>)
    ensures
        r@.map_values(|v: Vec<char>| v@) == ws_tokens(s@),
{
    let n = s.len();
    let mut out: Vec<Vec<char>> = Vec::new();
    let mut i: usize = 0;
    assert(s@.subrange(0, n as int) =~= s@);
    assert(out@.map_values(|v: Vec<char>| v@) =~= Seq::<Seq<char>>::empty());
    loop
        invariant_except_break
            out@.map_values(|v: Vec<char>| v@) + ws_tokens(s@.subrange(i as int, n as int)) == ws_tokens(s@),
        invariant
            n == s@.len(),
            i <= n,
        ensures
            out@.map_values(|v: Vec<char>| v@) == ws_tokens(s@),
        decreases n - i,
    {
        let ghost before = out@.map_values(|v: Vec<char>| v@);
        let st = skip_ws(s, i);
        let ghost t = s@.subrange(st as int, n as int);
        if st == n {
            assert(t =~= Seq::<char>::empty());
            assert(ws_tokens(s@.subrange(i as int, n as int)) =~= Seq::<Seq<char>>::empty());
            assert(out@.map_values(|v: Vec<char>| v@) =~= before + ws_tokens(s@.subrange(i as int, n as int)));
            break;
        }
        let e = find_ws(s, st);
        proof {
            lemma_first_ws(s@, st as int);
            lemma_first_ws_shift(s@, st as int, st as int);
            assert(first_ws(t, 0) == e - st);
            assert(t.subrange(0, e - st) =~= s@.subrange(st as int, e as int));
            assert(t.subrange(e - st, t.len() as int) =~= s@.subrange(e as int, n as int));
        }
        let word = vstd::slice::slice_to_vec(vstd::slice::slice_subrange(s, st, e));
        out.push(word);
        assert(out@.map_values(|v: Vec<char>| v@) =~= before.push(s@.subrange(st as int, e as int)));
        assert(ws_tokens(s@.subrange(i as int, n as int)) == seq![s@.subrange(st as int, e as int)] + ws_tokens(s@.subrange(e as int, n as int)));
        assert(before + ws_tokens(s@.subrange(i as int, n as int)) =~= out@.map_values(|v: Vec<char>| v@) + ws_tokens(s@.subrange(e as int, n as int)));
        i = e;
    }
    out
}

/// The decimal numeral of a signed value, with a minus sign when negative.
pub open spec fn spec_dec_signed(v: int) -> Seq<char> {
    if v < 0 {
        seq!['-'] + spec_dec((-v) as nat)
    } else {
        spec_dec(v as nat)
    }
}

/// The decimal numeral of `v` (`v.to_string()`).
pub fn dec_string_signed(v: i64) -> (r: String)
    ensures
        r@ == spec_dec_signed(v as int),
{
    if v < 0 {
        let mag: u64 = (0i128 - (v as i128)) as u64;
        let mut digits = dec_chars(mag);
        let mut out: Vec<char> = Vec::new();
        out.push('-');
        out.append(&mut digits);
        assert(out@ =~= seq!['-'] + spec_dec((-v) as nat));
        crate::text::string_of(out.as_slice())
    } else {
        dec_string(v as u64)
    }
}

/// What `str::parse::<i64>` gives: an optional sign, then a nonempty run
/// of ASCII digits whose signed value fits in an `i64`.
pub open spec fn spec_parse_i64(s: Seq<char>) -> Option<i64> {
    if s.len() > 0 && s[0] == '-' {
        let d = s.drop_first();
        if d.len() > 0 && all_digits(d) && dec_value(d) <= 0x8000_0000_0000_0000 {
            Some((-dec_value(d)) as i64)
        } else {
            None
        }
    } else {
        let d = if s.len() > 0 && s[0] == '+' { s.drop_first() } else { s };
        if d.len() > 0 && all_digits(d) && dec_value(d) <= 0x7fff_ffff_ffff_ffff {
            Some(dec_value(d) as i64)
        } else {
            None
        }
    }
}

/// Reads an `i64` as `str::parse::<i64>` does.
pub fn parse_i64(s: &[char]) -> (r: Option<i64>)
    ensures
        r == spec_parse_i64(s@),
{
    if s.len() > 0 && s[0] == '-' {
        let rest = vstd::slice::slice_subrange(s, 1, s.len());
        assert(rest@ =~= s@.drop_first());
        match parse_digits(rest) {
            Some(v) => {
                proof {
                    lemma_dec_value_prefix(rest@, 0);
                }
                assert(v as int == dec_value(rest@));
                if v <= 0x8000_0000_0000_0000u64 {
                    let r = (0i128 - (v as i128)) as i64;
                    assert(r as int == -dec_value(rest@));
                    Some(r)
                } else {
                    None
                }
            },
            None => {
                proof {
                    if rest@.len() > 0 && all_digits(rest@) {
                        assert(dec_value(rest@) > u64::MAX);
                    }
                }
                None
            },
        }
    } else {
        let d = if s.len() > 0 && s[0] == '+' { vstd::slice::slice_subrange(s, 1, s.len()) } else { s };
        assert(d@ =~= (if s@.len() > 0 && s@[0] == '+' { s@.drop_first() } else { s@ }));
        match parse_digits(d) {
            Some(v) => {
                proof {
                    lemma_dec_value_prefix(d@, 0);
                }
                assert(v as int == dec_value(d@));
                if v <= 0x7fff_ffff_ffff_ffffu64 {
                    Some(v as i64)
                } else {
                    None
                }
            },
            None => None,
        }
    }
}

} // verus!
