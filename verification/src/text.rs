//! Character-level string helpers with exact specifications.

use vstd::prelude::*;
use vstd::string::*;

verus! {

broadcast use vstd::string::group_string_axioms;

/// The characters for which `char::is_whitespace` holds (Unicode `White_Space`).
pub open spec fn is_space(c: char) -> bool {
    ||| c == ' '
    ||| ('\t' <= c && c <= '\r')
    ||| c == '\u{85}'
    ||| c == '\u{A0}'
    ||| c == '\u{1680}'
    ||| ('\u{2000}' <= c && c <= '\u{200A}')
    ||| c == '\u{2028}'
    ||| c == '\u{2029}'
    ||| c == '\u{202F}'
    ||| c == '\u{205F}'
    ||| c == '\u{3000}'
}

/// Drops the whitespace at the front.
pub open spec fn trim_start(s: Seq<char>) -> Seq<char>
    decreases s.len(),
{
    if s.len() > 0 && is_space(s[0]) {
        trim_start(s.drop_first())
    } else {
        s
    }
}

/// Drops the whitespace at the back.
pub open spec fn trim_end(s: Seq<char>) -> Seq<char>
    decreases s.len(),
{
    if s.len() > 0 && is_space(s.last()) {
        trim_end(s.drop_last())
    } else {
        s
    }
}

/// Drops the whitespace at both ends, as `str::trim` does.
pub open spec fn trim(s: Seq<char>) -> Seq<char> {
    trim_end(trim_start(s))
}

pub fn char_is_space(c: char) -> (b: bool)
    ensures
        b == is_space(c),
{
    c == ' ' || ('\t' <= c && c <= '\r') || c == '\u{85}' || c == '\u{A0}' || c == '\u{1680}'
        || ('\u{2000}' <= c && c <= '\u{200A}') || c == '\u{2028}' || c == '\u{2029}'
        || c == '\u{202F}' || c == '\u{205F}' || c == '\u{3000}'
}


proof fn lemma_trim_start_skip(s: Seq<char>, i: int)
    requires
        0 <= i < s.len(),
        is_space(s[i]),
    ensures
        trim_start(s.subrange(i, s.len() as int)) == trim_start(s.subrange(i + 1, s.len() as int)),
{
    assert(s.subrange(i, s.len() as int).drop_first() =~= s.subrange(i + 1, s.len() as int));
}

proof fn lemma_trim_end_skip(s: Seq<char>, a: int, b: int)
    requires
        0 <= a < b <= s.len(),
        is_space(s[b - 1]),
    ensures
        trim_end(s.subrange(a, b)) == trim_end(s.subrange(a, b - 1)),
{
    assert(s.subrange(a, b).drop_last() =~= s.subrange(a, b - 1));
}

/// `s.trim()` as an owned string.
pub fn trim_str(s: &str) -> (r: String)
    ensures
        r@ == trim(s@),
{
    let n = s.unicode_len();
    let mut a: usize = 0;
    assert(s@.subrange(0, n as int) =~= s@);
    while a < n && char_is_space(s.get_char(a))
        invariant
            a <= n,
            n == s@.len(),
            trim_start(s@) == trim_start(s@.subrange(a as int, n as int)),
        decreases n - a,
    {
        proof {
            lemma_trim_start_skip(s@, a as int);
        }
        a = a + 1;
    }
    assert(trim_start(s@) == s@.subrange(a as int, n as int));
    let mut b: usize = n;
    while b > a && char_is_space(s.get_char(b - 1))
        invariant
            a <= b <= n,
            n == s@.len(),
            trim_end(s@.subrange(a as int, n as int)) == trim_end(s@.subrange(a as int, b as int)),
        decreases b,
    {
        proof {
            lemma_trim_end_skip(s@, a as int, b as int);
        }
        b = b - 1;
    }
    assert(trim_end(s@.subrange(a as int, b as int)) == s@.subrange(a as int, b as int));
    s.substring_char(a, b).to_string()
}


proof fn lemma_trim_start_edge(s: Seq<char>)
    ensures
        trim_start(s).len() > 0 ==> !is_space(trim_start(s)[0]),
        trim_start(s).len() <= s.len(),
    decreases s.len(),
{
    if s.len() > 0 && is_space(s[0]) {
        lemma_trim_start_edge(s.drop_first());
    }
}

proof fn lemma_trim_end_edges(s: Seq<char>)
    ensures
        trim_end(s).len() > 0 ==> !is_space(trim_end(s).last()),
        trim_end(s).len() <= s.len(),
        trim_end(s) == s.take(trim_end(s).len() as int),
    decreases s.len(),
{
    if s.len() > 0 && is_space(s.last()) {
        lemma_trim_end_edges(s.drop_last());
        assert(s.drop_last().take(trim_end(s).len() as int) =~= s.take(trim_end(s).len() as int));
    } else {
        assert(s.take(s.len() as int) =~= s);
    }
}

/// A trimmed string neither starts nor ends with whitespace.
pub proof fn trim_leaves_no_edge_space(s: Seq<char>)
    ensures
        trim(s).len() > 0 ==> !is_space(trim(s)[0]) && !is_space(trim(s).last()),
{
    lemma_trim_start_edge(s);
    lemma_trim_end_edges(trim_start(s));
    let t = trim_start(s);
    if trim(s).len() > 0 {
        assert(trim(s)[0] == t[0]);
    }
}

proof fn lemma_trim_start_suffix(s: Seq<char>) -> (k: int)
    ensures
        0 <= k <= s.len(),
        trim_start(s) == s.subrange(k, s.len() as int),
    decreases s.len(),
{
    if s.len() > 0 && is_space(s[0]) {
        let k0 = lemma_trim_start_suffix(s.drop_first());
        assert(s.drop_first().subrange(k0, s.drop_first().len() as int) =~= s.subrange(
            k0 + 1,
            s.len() as int,
        ));
        k0 + 1
    } else {
        assert(s.subrange(0, s.len() as int) =~= s);
        0
    }
}

/// Trimming keeps a stretch of the text as it is: the result is `s[i..j]`
/// for some positions `i <= j`.
pub proof fn trim_is_a_slice(s: Seq<char>) -> (ij: (int, int))
    ensures
        0 <= ij.0 <= ij.1 <= s.len(),
        trim(s) == s.subrange(ij.0, ij.1),
{
    let k = lemma_trim_start_suffix(s);
    let t = trim_start(s);
    lemma_trim_end_edges(t);
    let m = trim_end(t).len() as int;
    assert(t.take(m) =~= s.subrange(k, k + m));
    (k, k + m)
}

/// Text with no whitespace at either end is left as it is by trimming.
pub proof fn trim_keeps_unpadded_text(t: Seq<char>)
    requires
        t.len() > 0 ==> !is_space(t[0]) && !is_space(t.last()),
    ensures
        trim(t) == t,
{
    assert(trim_start(t) == t);
    assert(trim_end(t) == t);
}

/// With no occurrence of `pat` at or after `k`, none is found from `k` on.
pub proof fn lemma_no_occurrence_from(s: Seq<char>, pat: Seq<char>, k: int)
    requires
        forall|i: int| k <= i ==> !occurs_at(s, pat, i),
    ensures
        first_occurrence_from(s, pat, k) is None,
    decreases s.len() + 1 - k,
{
    if k < 0 || k + pat.len() > s.len() {
    } else {
        lemma_no_occurrence_from(s, pat, k + 1);
    }
}

/// Every piece that `second_piece` gives is a stretch of the text: `s[i..j]`.
pub proof fn second_piece_is_a_slice(s: Seq<char>, pat: Seq<char>) -> (ij: (int, int))
    requires
        second_piece(s, pat) is Some,
    ensures
        0 <= ij.0 <= ij.1 <= s.len(),
        second_piece(s, pat) == Some(s.subrange(ij.0, ij.1)),
{
    lemma_first_occurrence_bounds(s, pat, 0);
    let i = first_occurrence_from(s, pat, 0).unwrap();
    let start = i + pat.len();
    lemma_first_occurrence_bounds(s, pat, start);
    let end = match first_occurrence_from(s, pat, start) {
        Some(j) => j,
        None => s.len() as int,
    };
    (start, end)
}

/// `pat` occurs in `s` at position `i`.
pub open spec fn occurs_at(s: Seq<char>, pat: Seq<char>, i: int) -> bool {
    0 <= i && i + pat.len() <= s.len() && s.subrange(i, i + pat.len()) == pat
}

/// The first position at or after `k` where `pat` occurs in `s`.
pub open spec fn first_occurrence_from(s: Seq<char>, pat: Seq<char>, k: int) -> Option<int>
    decreases s.len() + 1 - k,
{
    if k < 0 || k + pat.len() > s.len() {
        None
    } else if occurs_at(s, pat, k) {
        Some(k)
    } else {
        first_occurrence_from(s, pat, k + 1)
    }
}

/// The second piece of `s.split(pat)`: the text between the first occurrence
/// of `pat` and the next one after it (or the end), if `pat` occurs at all.
pub open spec fn second_piece(s: Seq<char>, pat: Seq<char>) -> Option<Seq<char>> {
    match first_occurrence_from(s, pat, 0) {
        None => None,
        Some(i) => {
            let start = i + pat.len();
            let end = match first_occurrence_from(s, pat, start) {
                Some(j) => j,
                None => s.len() as int,
            };
            Some(s.subrange(start, end))
        },
    }
}

proof fn lemma_first_occurrence_bounds(s: Seq<char>, pat: Seq<char>, k: int)
    ensures
        first_occurrence_from(s, pat, k) matches Some(i) ==> k <= i && occurs_at(s, pat, i),
    decreases s.len() + 1 - k,
{
    if k < 0 || k + pat.len() > s.len() {
    } else if occurs_at(s, pat, k) {
    } else {
        lemma_first_occurrence_bounds(s, pat, k + 1);
    }
}

/// Whether `pat` occurs in `s` at position `i`.
fn occurs_at_exec(s: &str, n: usize, pat: &str, m: usize, i: usize) -> (b: bool)
    requires
        n == s@.len(),
        m == pat@.len(),
    ensures
        b == occurs_at(s@, pat@, i as int),
{
    if i > n || n - i < m {
        return false;
    }
    let mut j: usize = 0;
    while j < m
        invariant
            j <= m,
            i + m <= n,
            n == s@.len(),
            m == pat@.len(),
            forall|t: int| 0 <= t < j ==> s@[i + t] == pat@[t],
        decreases m - j,
    {
        if s.get_char(i + j) != pat.get_char(j) {
            assert(s@.subrange(i as int, i + m)[j as int] != pat@[j as int]);
            return false;
        }
        j = j + 1;
    }
    assert(s@.subrange(i as int, i + m) =~= pat@);
    true
}

/// The first position at or after `k` where `pat` occurs in `s`.
fn find_from(s: &str, n: usize, pat: &str, m: usize, k: usize) -> (r: Option<usize>)
    requires
        n == s@.len(),
        m == pat@.len(),
        k <= n,
    ensures
        r matches Some(i) ==> first_occurrence_from(s@, pat@, k as int) == Some(i as int),
        r is None ==> first_occurrence_from(s@, pat@, k as int) is None,
{
    let mut i = k;
    while i < n
        invariant
            i <= n,
            k <= i,
            n == s@.len(),
            m == pat@.len(),
            first_occurrence_from(s@, pat@, k as int) == first_occurrence_from(s@, pat@, i as int),
        decreases n + 1 - i,
    {
        if n - i < m {
            return None;
        }
        if occurs_at_exec(s, n, pat, m, i) {
            return Some(i);
        }
        i = i + 1;
    }
    if occurs_at_exec(s, n, pat, m, n) {
        Some(n)
    } else {
        assert(first_occurrence_from(s@, pat@, n + 1) is None);
        None
    }
}

/// The second piece of `s.split(pat)`, trimmed: what `s.split(pat).collect()[1].trim()`
/// gives when `pat` occurs in `s`.
pub fn second_piece_trimmed(s: &str, pat: &str) -> (r: String)
    requires
        second_piece(s@, pat@) is Some,
    ensures
        r@ == trim(second_piece(s@, pat@).unwrap()),
{
    let n = s.unicode_len();
    let m = pat.unicode_len();
    proof {
        lemma_first_occurrence_bounds(s@, pat@, 0);
    }
    let i = find_from(s, n, pat, m, 0).unwrap();
    let start = i + m;
    proof {
        lemma_first_occurrence_bounds(s@, pat@, start as int);
    }
    let end = match find_from(s, n, pat, m, start) {
        Some(j) => j,
        None => n,
    };
    let piece = s.substring_char(start, end);
    trim_str(piece)
}


/// Appends one character: `String::push`.
#[verifier::external_body]
pub(crate) fn push_char(s: &mut String, c: char)
    ensures
        final(s)@ == old(s)@.push(c),
{
    s.push(c);
}

/// The ASCII digit for `d` (below ten).
pub open spec fn digit_char(d: int) -> char {
    (d + 48) as char
}

/// A decimal digit, as a number.
pub open spec fn digit_value(c: char) -> int {
    c as int - 48
}

pub open spec fn is_digit(c: char) -> bool {
    '0' <= c && c <= '9'
}

/// The decimal notation of `n`, without leading zeros.
pub open spec fn decimal(n: nat) -> Seq<char>
    decreases n,
{
    if n < 10 {
        seq![digit_char(n as int)]
    } else {
        decimal(n / 10).push(digit_char((n % 10) as int))
    }
}

fn digit_to_char(d: u32) -> (c: char)
    requires
        d < 10,
    ensures
        c == digit_char(d as int),
{
    let b: u8 = d as u8;
    (b + 48) as char
}

/// `n.to_string()`: the decimal notation of `n`.
pub fn u32_to_decimal(n: u32) -> (r: String)
    ensures
        r@ == decimal(n as nat),
    decreases n,
{
    if n < 10 {
        let mut r = String::new();
        push_char(&mut r, digit_to_char(n));
        assert(r@ =~= seq![digit_char(n as int)]);
        r
    } else {
        let mut r = u32_to_decimal(n / 10);
        push_char(&mut r, digit_to_char(n % 10));
        r
    }
}

/// The number a string of decimal digits denotes.
pub open spec fn digits_value(s: Seq<char>) -> int
    decreases s.len(),
{
    if s.len() == 0 {
        0
    } else {
        digits_value(s.drop_last()) * 10 + digit_value(s.last())
    }
}

/// Every character is a decimal digit.
pub open spec fn all_digits(d: Seq<char>) -> bool {
    forall|i: int| 0 <= i < d.len() ==> is_digit(#[trigger] d[i])
}

/// What follows an optional leading sign.
pub open spec fn unsigned_part(s: Seq<char>) -> Seq<char> {
    if s[0] == '-' || s[0] == '+' {
        s.drop_first()
    } else {
        s
    }
}

/// `s.parse::<i32>()`: an optional sign, then one or more decimal digits,
/// denoting a value in the range of `i32`.
pub open spec fn parse_i32_spec(s: Seq<char>) -> Option<i32> {
    if s.len() == 0 || (s.len() == 1 && (s[0] == '+' || s[0] == '-')) {
        None
    } else {
        let magnitude = digits_value(unsigned_part(s));
        let value = if s[0] == '-' {
            -magnitude
        } else {
            magnitude
        };
        if all_digits(unsigned_part(s)) && i32::MIN <= value <= i32::MAX {
            Some(value as i32)
        } else {
            None
        }
    }
}

/// `s.parse::<i32>().ok()`.
pub fn parse_i32(s: &str) -> (r: Option<i32>)
    ensures
        r == parse_i32_spec(s@),
{
    let n = s.unicode_len();
    if n == 0 {
        return None;
    }
    let first = s.get_char(0);
    if n == 1 && (first == '+' || first == '-') {
        return None;
    }
    let negative = first == '-';
    let start: usize = if first == '-' || first == '+' { 1 } else { 0 };
    let ghost digits = if first == '-' || first == '+' { s@.drop_first() } else { s@ };
    assert(digits =~= s@.subrange(start as int, n as int));
    // Magnitudes above this bound are out of range for either sign.
    let limit: i64 = 2147483648;
    let mut acc: i64 = 0;
    let mut big = false;
    let mut i = start;
    while i < n
        invariant
            start <= i <= n,
            n == s@.len(),
            digits =~= s@.subrange(start as int, n as int),
            s@.len() > 0,
            digits == unsigned_part(s@),
            !(n == 1 && (s@[0] == '+' || s@[0] == '-')),
            limit == 2147483648,
            forall|t: int| 0 <= t < i - start ==> is_digit(#[trigger] digits[t]),
            !big ==> 0 <= acc <= limit && acc == digits_value(digits.take(i - start)),
            big ==> digits_value(digits.take(i - start)) > limit,
        decreases n - i,
    {
        let c = s.get_char(i);
        if !('0' <= c && c <= '9') {
            assert(digits[i - start] == c);
            assert(!is_digit(digits[i - start]));
            return None;
        }
        let ghost before = digits.take(i - start);
        assert(digits.take(i + 1 - start).drop_last() =~= before);
        assert(digits.take(i + 1 - start).last() == c);
        if !big {
            let d: i64 = (c as u32 - 48) as i64;
            acc = acc * 10 + d;
            if acc > limit {
                big = true;
            }
        }
        i = i + 1;
    }
    assert(digits.take(n - start) =~= digits);
    if big {
        return None;
    }
    if negative {
        Some((-acc) as i32)
    } else if acc <= 2147483647 {
        Some(acc as i32)
    } else {
        None
    }
}

proof fn lemma_digit_char_value(d: int)
    requires
        0 <= d < 10,
    ensures
        digit_value(digit_char(d)) == d,
        is_digit(digit_char(d)),
{
    assert(digit_char(d) as int == d + 48);
}

/// The decimal notation of `n` reads back as `n`.
pub proof fn lemma_decimal_digits(n: nat)
    ensures
        decimal(n).len() > 0,
        forall|i: int| 0 <= i < decimal(n).len() ==> is_digit(#[trigger] decimal(n)[i]),
        digits_value(decimal(n)) == n,
    decreases n,
{
    if n < 10 {
        lemma_digit_char_value(n as int);
        assert(decimal(n).drop_last() =~= Seq::<char>::empty());
        assert(digits_value(decimal(n)) == digits_value(decimal(n).drop_last()) * 10 + digit_value(
            decimal(n).last(),
        ));
    } else {
        lemma_decimal_digits(n / 10);
        let d = decimal(n);
        lemma_digit_char_value((n % 10) as int);
        assert(d.drop_last() =~= decimal(n / 10));
        assert(n == (n / 10) * 10 + n % 10);
        assert forall|i: int| 0 <= i < d.len() implies is_digit(#[trigger] d[i]) by {
            if i < d.len() - 1 {
                assert(d[i] == decimal(n / 10)[i]);
            }
        }
    }
}

/// A process id written with `u32_to_decimal` parses back with `parse_i32`
/// to the same number whenever it fits in an `i32`.
pub proof fn pid_text_round_trip(pid: u32)
    requires
        pid <= i32::MAX,
    ensures
        parse_i32_spec(decimal(pid as nat)) == Some(pid as i32),
{
    lemma_decimal_digits(pid as nat);
    let d = decimal(pid as nat);
    assert(is_digit(d[0]));
    assert(unsigned_part(d) == d);
}


/// Lower-cases an ASCII capital letter and leaves every other character alone.
pub open spec fn ascii_lower(c: char) -> char {
    if 'A' <= c && c <= 'Z' {
        (c as int + 32) as char
    } else {
        c
    }
}

/// Every character lower-cased with `ascii_lower`.
pub open spec fn lower_ascii_chars(s: Seq<char>) -> Seq<char> {
    Seq::new(s.len(), |i: int| ascii_lower(s[i]))
}

fn char_ascii_lower(c: char) -> (r: char)
    ensures
        r == ascii_lower(c),
{
    if 'A' <= c && c <= 'Z' {
        let b: u8 = c as u8;
        (b + 32) as char
    } else {
        c
    }
}

/// Lower-cases the ASCII capitals of `s`; on ASCII text this is `s.to_lowercase()`.
pub fn lowercase_ascii(s: &str) -> (r: String)
    ensures
        r@ == lower_ascii_chars(s@),
{
    let n = s.unicode_len();
    let mut r = String::new();
    let mut i: usize = 0;
    while i < n
        invariant
            i <= n,
            n == s@.len(),
            r@ =~= lower_ascii_chars(s@.take(i as int)),
        decreases n - i,
    {
        let c = char_ascii_lower(s.get_char(i));
        push_char(&mut r, c);
        assert(lower_ascii_chars(s@.take(i + 1)) =~= lower_ascii_chars(s@.take(i as int)).push(c));
        i = i + 1;
    }
    assert(s@.take(n as int) =~= s@);
    r
}


/// The first position where `pat` occurs in `s`.
pub fn find_first(s: &str, pat: &str) -> (r: Option<usize>)
    ensures
        r matches Some(i) ==> first_occurrence_from(s@, pat@, 0) == Some(i as int),
        r is None ==> first_occurrence_from(s@, pat@, 0) is None,
{
    let n = s.unicode_len();
    let m = pat.unicode_len();
    find_from(s, n, pat, m, 0)
}

} // verus!
