//! Verified helpers for scanning and slicing text.
//!
//! Every scraper in this crate is built from the same few primitives:
//! substring search, substring equality, decimal parsing and splitting.
//! Each exec function here is pinned to a spec function twin, so the
//! scrapers' contracts can be stated purely over `Seq<char>`.

use vstd::prelude::*;

verus! {

/// `p` occurs in `s` at exactly position `i` (positions count characters).
pub open spec fn match_at(s: Seq<char>, p: Seq<char>, i: int) -> bool {
    &&& 0 <= i
    &&& i + p.len() <= s.len()
    &&& s.subrange(i, i + p.len()) == p
}

/// Position of the first occurrence of `p` in `s` at or after `from`.
pub open spec fn spec_find(s: Seq<char>, p: Seq<char>, from: int) -> Option<int>
    decreases s.len() - from + 1,
{
    if from < 0 {
        spec_find(s, p, 0)
    } else if from + p.len() > s.len() {
        None
    } else if s.subrange(from, from + p.len()) == p {
        Some(from)
    } else {
        spec_find(s, p, from + 1)
    }
}

/// A found occurrence lies at or after the position the search started from,
/// matches there, and is the first to do so.
pub proof fn lemma_spec_find_some(s: Seq<char>, p: Seq<char>, from: int, i: int)
    requires
        spec_find(s, p, from) == Some(i),
    ensures
        from <= i,
        match_at(s, p, i),
        forall|k: int| from <= k < i ==> !match_at(s, p, k),
    decreases s.len() - from + 1,
{
    if from < 0 {
        lemma_spec_find_some(s, p, 0, i);
    } else if from + p.len() > s.len() {
    } else if s.subrange(from, from + p.len()) == p {
    } else {
        lemma_spec_find_some(s, p, from + 1, i);
    }
}

/// Whether `p` occurs in `s` at position `i`, counted in characters.
pub fn match_at_exec(s: &str, p: &str, i: usize) -> (r: bool)
    ensures
        r == match_at(s@, p@, i as int),
{
    let n = s.unicode_len();
    let m = p.unicode_len();
    if i > n || m > n - i {
        return false;
    }
    let mut j: usize = 0;
    while j < m
        invariant
            n == s@.len(),
            m == p@.len(),
            i + m <= n,
            j <= m,
            forall|k: int| 0 <= k < j ==> s@[i + k] == p@[k],
        decreases m - j,
    {
        if s.get_char(i + j) != p.get_char(j) {
            assert(!match_at(s@, p@, i as int)) by {
                if match_at(s@, p@, i as int) {
                    assert(s@.subrange(i as int, i + p@.len())[j as int] == p@[j as int]);
                }
            }
            return false;
        }
        j += 1;
    }
    assert(s@.subrange(i as int, i + p@.len()) =~= p@);
    true
}

/// First occurrence of `p` in `s` at or after `from`.
pub fn find_from(s: &str, p: &str, from: usize) -> (r: Option<usize>)
    ensures
        r is Some <==> spec_find(s@, p@, from as int) is Some,
        r matches Some(i) ==> spec_find(s@, p@, from as int) == Some(i as int),
{
    let n = s.unicode_len();
    let mut cur: usize = from;
    loop
        invariant
            n == s@.len(),
            from <= cur,
            spec_find(s@, p@, from as int) == spec_find(s@, p@, cur as int),
        decreases n + 1 - cur,
    {
        if cur > n || p.unicode_len() > n - cur {
            return None;
        }
        if match_at_exec(s, p, cur) {
            return Some(cur);
        }
        assert(cur < n) by {
            if cur == n {
                assert(p@ =~= s@.subrange(cur as int, cur as int));
            }
        }
        cur += 1;
    }
}

/// The views of `a` and `b` are the same sequence of characters.
pub fn str_eq(a: &str, b: &str) -> (r: bool)
    ensures
        r == (a@ == b@),
{
    let n = a.unicode_len();
    if n != b.unicode_len() {
        return false;
    }
    assert(a@.subrange(0, b@.len() as int) =~= a@);
    match_at_exec(a, b, 0)
}

/// The characters of `s` from `from` (inclusive) to `to` (exclusive), as an
/// owned string.
pub fn substring(s: &str, from: usize, to: usize) -> (r: String)
    requires
        from <= to <= s@.len(),
    ensures
        r@ == s@.subrange(from as int, to as int),
{
    s.substring_char(from, to).to_owned()
}

/// Position of the first occurrence of the character `c` in `s` at or after
/// `from`.
pub open spec fn spec_find_char(s: Seq<char>, c: char, from: int) -> Option<int>
    decreases s.len() - from + 1,
{
    if from < 0 {
        spec_find_char(s, c, 0)
    } else if from >= s.len() {
        None
    } else if s[from] == c {
        Some(from)
    } else {
        spec_find_char(s, c, from + 1)
    }
}

/// A found character occurrence is in range, is `c`, and is the first one.
pub proof fn lemma_spec_find_char_some(s: Seq<char>, c: char, from: int, i: int)
    requires
        spec_find_char(s, c, from) == Some(i),
    ensures
        from <= i < s.len(),
        0 <= i,
        s[i] == c,
        forall|k: int| 0 <= k < i && from <= k ==> s[k] != c,
    decreases s.len() - from + 1,
{
    if from < 0 {
        lemma_spec_find_char_some(s, c, 0, i);
    } else if from >= s.len() {
    } else if s[from] == c {
    } else {
        lemma_spec_find_char_some(s, c, from + 1, i);
    }
}

/// First occurrence of the character `c` in `s` at or after `from`.
pub fn find_char(s: &str, c: char, from: usize) -> (r: Option<usize>)
    ensures
        r is Some <==> spec_find_char(s@, c, from as int) is Some,
        r matches Some(i) ==> spec_find_char(s@, c, from as int) == Some(i as int),
{
    let n = s.unicode_len();
    let mut cur: usize = from;
    loop
        invariant
            n == s@.len(),
            from <= cur,
            spec_find_char(s@, c, from as int) == spec_find_char(s@, c, cur as int),
        decreases n + 1 - cur,
    {
        if cur >= n {
            return None;
        }
        if s.get_char(cur) == c {
            return Some(cur);
        }
        cur += 1;
    }
}

/// Position of the last occurrence of the character `c` in `s` within
/// `[lo, hi)`.
pub open spec fn spec_rfind_char(s: Seq<char>, c: char, lo: int, hi: int) -> Option<int>
    decreases hi - lo,
{
    if lo < 0 || hi > s.len() || hi <= lo {
        None
    } else if s[hi - 1] == c {
        Some(hi - 1)
    } else {
        spec_rfind_char(s, c, lo, hi - 1)
    }
}

/// A found last occurrence is in range and is `c`.
pub proof fn lemma_spec_rfind_char_some(s: Seq<char>, c: char, lo: int, hi: int, k: int)
    requires
        spec_rfind_char(s, c, lo, hi) == Some(k),
    ensures
        0 <= lo <= k < hi <= s.len(),
        s[k] == c,
        forall|j: int| k < j < hi ==> s[j] != c,
    decreases hi - lo,
{
    if lo < 0 || hi > s.len() || hi <= lo {
    } else if s[hi - 1] == c {
    } else {
        lemma_spec_rfind_char_some(s, c, lo, hi - 1, k);
    }
}

/// Last occurrence of the character `c` in `s` within `[lo, hi)`.
pub fn rfind_char(s: &str, c: char, lo: usize, hi: usize) -> (r: Option<usize>)
    requires
        hi <= s@.len(),
    ensures
        r is Some <==> spec_rfind_char(s@, c, lo as int, hi as int) is Some,
        r matches Some(i) ==> spec_rfind_char(s@, c, lo as int, hi as int) == Some(i as int),
{
    let mut cur: usize = hi;
    loop
        invariant
            hi <= s@.len(),
            cur <= hi,
            spec_rfind_char(s@, c, lo as int, hi as int) == spec_rfind_char(
                s@,
                c,
                lo as int,
                cur as int,
            ),
        decreases cur,
    {
        if cur <= lo {
            return None;
        }
        if s.get_char(cur - 1) == c {
            return Some(cur - 1);
        }
        cur -= 1;
    }
}

/// `c` is a decimal digit.
pub open spec fn is_digit(c: char) -> bool {
    48 <= c as u32 <= 57
}

/// The value of the decimal digit `c`.
pub open spec fn digit_val(c: char) -> int
    recommends
        is_digit(c),
{
    c as u32 - 48
}

/// Every character of `s` is a decimal digit.
pub open spec fn all_digits(s: Seq<char>) -> bool {
    forall|i: int| 0 <= i < s.len() ==> is_digit(#[trigger] s[i])
}

/// The number denoted by the digit string `s`, read in base ten.
pub open spec fn digits_val(s: Seq<char>) -> int
    recommends
        all_digits(s),
    decreases s.len(),
{
    if s.len() == 0 {
        0
    } else {
        digits_val(s.drop_last()) * 10 + digit_val(s.last())
    }
}

/// A digit string denotes a non-negative number, and extending it on the
/// right cannot shrink the value.
pub proof fn lemma_digits_val_bounds(s: Seq<char>, i: int)
    requires
        all_digits(s),
        0 <= i <= s.len(),
    ensures
        digits_val(s) >= digits_val(s.take(i)) >= 0,
    decreases s.len() - i,
{
    if i == s.len() {
        assert(s.take(i) == s);
        lemma_digits_val_nonneg(s);
    } else {
        lemma_digits_val_bounds(s, i + 1);
        assert(s.take(i + 1).drop_last() == s.take(i));
        assert(all_digits(s.take(i)));
        lemma_digits_val_nonneg(s.take(i));
        assert(is_digit(s.take(i + 1).last()));
    }
}

/// A digit string denotes a non-negative number.
pub proof fn lemma_digits_val_nonneg(s: Seq<char>)
    requires
        all_digits(s),
    ensures
        digits_val(s) >= 0,
    decreases s.len(),
{
    if s.len() > 0 {
        assert(all_digits(s.drop_last()));
        lemma_digits_val_nonneg(s.drop_last());
        assert(is_digit(s.last()));
    }
}

/// Powers of ten.
pub open spec fn pow10(n: int) -> int
    decreases n,
{
    if n <= 0 {
        1
    } else {
        10 * pow10(n - 1)
    }
}

/// A digit string of length `n` denotes a number below the `n`-th power of
/// ten.
pub proof fn lemma_digits_val_upper(s: Seq<char>)
    requires
        all_digits(s),
    ensures
        digits_val(s) < pow10(s.len() as int),
    decreases s.len(),
{
    if s.len() == 0 {
    } else {
        assert(all_digits(s.drop_last()));
        lemma_digits_val_upper(s.drop_last());
        let v = digits_val(s.drop_last());
        let p = pow10(s.len() - 1);
        assert(is_digit(s.last()));
        assert(10 * v <= 10 * (p - 1)) by (nonlinear_arith)
            requires
                v <= p - 1,
        ;
    }
}

/// `s` denotes a number that a `u16` can hold: it is non-empty, all digits,
/// and its value is at most `u16::MAX`.
pub open spec fn parses_as_u16(s: Seq<char>) -> bool {
    s.len() > 0 && all_digits(s) && digits_val(s) <= u16::MAX
}

/// Parse `s` as an unsigned decimal number fitting a `u16`.  Fails on an
/// empty string, on any non-digit character, and on overflow.
pub fn parse_u16(s: &str) -> (r: Option<u16>)
    ensures
        r is Some <==> parses_as_u16(s@),
        r matches Some(v) ==> v == digits_val(s@),
{
    let n = s.unicode_len();
    if n == 0 {
        return None;
    }
    let mut acc: u32 = 0;
    let mut i: usize = 0;
    while i < n
        invariant
            n == s@.len(),
            i <= n,
            all_digits(s@.take(i as int)),
            acc == digits_val(s@.take(i as int)),
            acc <= u16::MAX,
        decreases n - i,
    {
        let u = s.get_char(i) as u32;
        if u < 48 || u > 57 {
            assert(!all_digits(s@)) by {
                assert(!is_digit(s@[i as int]));
            }
            return None;
        }
        assert(s@.take(i + 1).drop_last() == s@.take(i as int));
        acc = acc * 10 + (u - 48);
        if acc > u16::MAX as u32 {
            assert(all_digits(s@) ==> digits_val(s@) > u16::MAX) by {
                if all_digits(s@) {
                    lemma_digits_val_bounds(s@, i + 1);
                }
            }
            return None;
        }
        i += 1;
    }
    assert(s@.take(n as int) == s@);
    Some(acc as u16)
}

/// `s` denotes a number that a `u8` can hold.
pub open spec fn parses_as_u8(s: Seq<char>) -> bool {
    s.len() > 0 && all_digits(s) && digits_val(s) <= u8::MAX
}

/// Parse `s` as an unsigned decimal number fitting a `u8`.
pub fn parse_u8(s: &str) -> (r: Option<u8>)
    ensures
        r is Some <==> parses_as_u8(s@),
        r matches Some(v) ==> v == digits_val(s@),
{
    match parse_u16(s) {
        None => {
            proof {
                if parses_as_u8(s@) {
                    assert(parses_as_u16(s@));
                }
            }
            None
        },
        Some(v) => {
            if v <= u8::MAX as u16 {
                Some(v as u8)
            } else {
                None
            }
        },
    }
}

/// The segments of `s`, cut at every occurrence of `sep`, scanning from
/// position `from`.  Cutting never discards characters: an empty `s` yields
/// one empty segment, as `str::split` does.
pub open spec fn spec_split_from(s: Seq<char>, sep: char, from: int) -> Seq<Seq<char>>
    decreases s.len() - from + 1,
        via spec_split_from_decreases
{
    if from < 0 {
        spec_split_from(s, sep, 0)
    } else if from > s.len() {
        seq![]
    } else {
        match spec_find_char(s, sep, from) {
            None => seq![s.subrange(from, s.len() as int)],
            Some(i) => seq![s.subrange(from, i)] + spec_split_from(s, sep, i + 1),
        }
    }
}

#[via_fn]
proof fn spec_split_from_decreases(s: Seq<char>, sep: char, from: int) {
    if 0 <= from <= s.len() {
        if let Some(i) = spec_find_char(s, sep, from) {
            lemma_spec_find_char_some(s, sep, from, i);
        }
    }
}

/// The segments of `s`, cut at every occurrence of `sep`.
pub open spec fn spec_split(s: Seq<char>, sep: char) -> Seq<Seq<char>> {
    spec_split_from(s, sep, 0)
}

/// Split `s` at every occurrence of the character `sep`.
pub fn split_char(s: &str, sep: char) -> (r: Vec<String>)
    ensures
        r.deep_view() == spec_split(s@, sep),
{
    let n = s.unicode_len();
    let mut r: Vec<String> = Vec::new();
    let mut cur: usize = 0;
    loop
        invariant
            n == s@.len(),
            cur <= n,
            spec_split(s@, sep) == r.deep_view() + spec_split_from(s@, sep, cur as int),
        decreases n - cur,
    {
        match find_char(s, sep, cur) {
            None => {
                let piece = substring(s, cur, n);
                r.push(piece);
                assert(r.deep_view() =~= spec_split(s@, sep));
                return r;
            },
            Some(i) => {
                proof {
                    lemma_spec_find_char_some(s@, sep, cur as int, i as int);
                }
                let piece = substring(s, cur, i);
                r.push(piece);
                assert(spec_split(s@, sep) =~= r.deep_view() + spec_split_from(
                    s@,
                    sep,
                    i + 1 as int,
                ));
                cur = i + 1;
            },
        }
    }
}

/// The decimal digit character of the value `d`.
pub open spec fn dec_digit(d: int) -> char
    recommends
        0 <= d <= 9,
{
    if d == 0 {
        '0'
    } else if d == 1 {
        '1'
    } else if d == 2 {
        '2'
    } else if d == 3 {
        '3'
    } else if d == 4 {
        '4'
    } else if d == 5 {
        '5'
    } else if d == 6 {
        '6'
    } else if d == 7 {
        '7'
    } else if d == 8 {
        '8'
    } else {
        '9'
    }
}

/// The decimal notation of `n`, without leading zeros (a lone zero for 0).
pub open spec fn spec_uint_str(n: int) -> Seq<char>
    recommends
        n >= 0,
    decreases n,
{
    if n < 0 {
        Seq::empty()
    } else if n < 10 {
        seq![dec_digit(n)]
    } else {
        spec_uint_str(n / 10) + seq![dec_digit(n % 10)]
    }
}

fn digit_str(d: u16) -> (r: &'static str)
    requires
        d < 10,
    ensures
        r@ == seq![dec_digit(d as int)],
{
    proof {
        reveal_strlit("0");
        reveal_strlit("1");
        reveal_strlit("2");
        reveal_strlit("3");
        reveal_strlit("4");
        reveal_strlit("5");
        reveal_strlit("6");
        reveal_strlit("7");
        reveal_strlit("8");
        reveal_strlit("9");
    }
    if d == 0 {
        assert("0"@ =~= seq![dec_digit(0)]);
        "0"
    } else if d == 1 {
        assert("1"@ =~= seq![dec_digit(1)]);
        "1"
    } else if d == 2 {
        assert("2"@ =~= seq![dec_digit(2)]);
        "2"
    } else if d == 3 {
        assert("3"@ =~= seq![dec_digit(3)]);
        "3"
    } else if d == 4 {
        assert("4"@ =~= seq![dec_digit(4)]);
        "4"
    } else if d == 5 {
        assert("5"@ =~= seq![dec_digit(5)]);
        "5"
    } else if d == 6 {
        assert("6"@ =~= seq![dec_digit(6)]);
        "6"
    } else if d == 7 {
        assert("7"@ =~= seq![dec_digit(7)]);
        "7"
    } else if d == 8 {
        assert("8"@ =~= seq![dec_digit(8)]);
        "8"
    } else {
        assert("9"@ =~= seq![dec_digit(9)]);
        "9"
    }
}

/// Write `n` in decimal notation.
pub fn u16_to_string(n: u16) -> (r: String)
    ensures
        r@ == spec_uint_str(n as int),
    decreases n,
{
    if n < 10 {
        digit_str(n).to_owned()
    } else {
        let mut s = u16_to_string(n / 10);
        s.append(digit_str(n % 10));
        s
    }
}

/// `c` is one of the four common whitespace characters.
pub open spec fn is_space(c: char) -> bool {
    c == ' ' || c == '\t' || c == '\n' || c == '\r'
}

/// `s` with leading whitespace removed.
pub open spec fn spec_trim_start(s: Seq<char>) -> Seq<char>
    decreases s.len(),
{
    if s.len() > 0 && is_space(s.first()) {
        spec_trim_start(s.drop_first())
    } else {
        s
    }
}

/// `s` with trailing whitespace removed.
pub open spec fn spec_trim_end(s: Seq<char>) -> Seq<char>
    decreases s.len(),
{
    if s.len() > 0 && is_space(s.last()) {
        spec_trim_end(s.drop_last())
    } else {
        s
    }
}

/// `s` with whitespace removed from both ends.
pub open spec fn spec_trim(s: Seq<char>) -> Seq<char> {
    spec_trim_end(spec_trim_start(s))
}

fn is_space_exec(c: char) -> (r: bool)
    ensures
        r == is_space(c),
{
    c == ' ' || c == '\t' || c == '\n' || c == '\r'
}

/// Remove whitespace from both ends of `s`.
pub fn trim(s: &str) -> (r: String)
    ensures
        r@ == spec_trim(s@),
{
    let n = s.unicode_len();
    assert(s@.skip(0) =~= s@);
    let mut lo: usize = 0;
    while lo < n && is_space_exec(s.get_char(lo))
        invariant
            n == s@.len(),
            lo <= n,
            spec_trim_start(s@) == spec_trim_start(s@.skip(lo as int)),
        decreases n - lo,
    {
        assert(s@.skip(lo as int).drop_first() =~= s@.skip(lo + 1 as int));
        lo += 1;
    }
    assert(spec_trim_start(s@) == s@.skip(lo as int)) by {
        if lo < n {
            assert(s@.skip(lo as int).len() > 0);
            assert(s@.skip(lo as int).first() == s@[lo as int]);
        }
    }
    assert(s@.skip(lo as int) =~= s@.subrange(lo as int, n as int));
    let mut hi: usize = n;
    while hi > lo && is_space_exec(s.get_char(hi - 1))
        invariant
            n == s@.len(),
            lo <= hi <= n,
            spec_trim_end(s@.skip(lo as int)) == spec_trim_end(
                s@.subrange(lo as int, hi as int),
            ),
        decreases hi,
    {
        assert(s@.subrange(lo as int, hi as int).drop_last() =~= s@.subrange(
            lo as int,
            hi - 1 as int,
        ));
        assert(s@.subrange(lo as int, hi as int).last() == s@[hi - 1 as int]);
        hi -= 1;
    }
    proof {
        if hi > lo {
            assert(s@.subrange(lo as int, hi as int).last() == s@[hi - 1 as int]);
        }
        assert(s@.skip(lo as int) =~= s@.subrange(lo as int, n as int));
    }
    substring(s, lo, hi)
}

} // verus!
