//! Text: comparison, search and decimal numbers over sequences of characters.

use vstd::prelude::*;
use vstd::string::*;

verus! {

/// The `n` characters of `s` that start at `i`.
pub open spec fn window(s: Seq<char>, i: int, n: int) -> Seq<char> {
    s.subrange(i, i + n)
}

/// `pat` occurs somewhere in `s`.
pub open spec fn has_substring(s: Seq<char>, pat: Seq<char>) -> bool {
    exists|i: int| 0 <= i && i + pat.len() <= s.len() && #[trigger] window(s, i, pat.len() as int) == pat
}

/// The characters that Unicode gives the property White_Space.
pub open spec fn is_space(c: char) -> bool {
    let n = c as u32;
    ||| 0x09 <= n <= 0x0d
    ||| n == 0x20
    ||| n == 0x85
    ||| n == 0xa0
    ||| n == 0x1680
    ||| 0x2000 <= n <= 0x200a
    ||| n == 0x2028
    ||| n == 0x2029
    ||| n == 0x202f
    ||| n == 0x205f
    ||| n == 0x3000
}

/// `s` holds nothing but white space.
pub open spec fn blank(s: Seq<char>) -> bool {
    forall|i: int| 0 <= i < s.len() ==> is_space(#[trigger] s[i])
}

/// An ASCII capital letter as its small letter; any other character as itself.
pub open spec fn ascii_lower(c: char) -> char {
    if 'A' <= c <= 'Z' {
        ((c as u8) + 32u8) as char
    } else {
        c
    }
}

/// `a` and `b` are equal but for the case of ASCII letters.
pub open spec fn same_ignoring_ascii_case(a: Seq<char>, b: Seq<char>) -> bool {
    a.len() == b.len() && forall|i: int|
        0 <= i < a.len() ==> ascii_lower(#[trigger] a[i]) == ascii_lower(b[i])
}

/// The decimal digit `d` as a character.
pub open spec fn digit_char(d: int) -> char {
    if d == 0 {
        '0'
    } else if d == 1 {
        '1'
    } else if d == 2 {
        '2'
    } else if d == 3 {
        '3'
    } else if d == 4 {
        '4'
    } else if d == 5 {
        '5'
    } else if d == 6 {
        '6'
    } else if d == 7 {
        '7'
    } else if d == 8 {
        '8'
    } else {
        '9'
    }
}

/// The value of a decimal digit; none for any other character.
pub open spec fn digit_value(c: char) -> Option<int> {
    if '0' <= c <= '9' {
        Some(c as int - '0' as int)
    } else {
        None
    }
}

/// `n` in decimal, without leading zeros.
pub open spec fn decimal(n: nat) -> Seq<char>
    decreases n,
{
    if n < 10 {
        seq![digit_char(n as int)]
    } else {
        decimal(n / 10).push(digit_char((n % 10) as int))
    }
}

/// `n` in decimal, with a leading zero below ten.
pub open spec fn two_digits(n: nat) -> Seq<char> {
    if n < 10 {
        seq!['0', digit_char(n as int)]
    } else {
        decimal(n)
    }
}

/// The number that the decimal digits of `s` spell, leading zeros allowed;
/// none where `s` is empty or holds anything but digits.
pub open spec fn decimal_value(s: Seq<char>) -> Option<nat>
    decreases s.len(),
{
    if s.len() == 0 {
        None
    } else if s.len() == 1 {
        match digit_value(s[0]) {
            Some(d) => Some(d as nat),
            None => None,
        }
    } else {
        match (decimal_value(s.drop_last()), digit_value(s.last())) {
            (Some(high), Some(d)) => Some((high * 10 + d) as nat),
            _ => None,
        }
    }
}

/// What `str::to_lowercase` makes of the text `s`. The text decides it
/// alone; what it is for a given text is left to std.
pub uninterp spec fn lowercased(s: Seq<char>) -> Seq<char>;

/// `str::to_lowercase`: the lower-case form of `s` as a new string.
#[verifier::external_body]
pub(crate) fn to_lowercase(s: &str) -> (r: String)
    ensures
        r@ == lowercased(s@),
{
    s.to_lowercase()
}

/// Whether `pat` stands in `s` at place `at`.
fn matches_at(s: &str, pat: &str, at: usize) -> (r: bool)
    requires
        at + pat@.len() <= s@.len(),
    ensures
        r == (window(s@, at as int, pat@.len() as int) == pat@),
{
    let n = s.unicode_len();
    let m = pat.unicode_len();
    let mut j: usize = 0;
    while j < m
        invariant
            j <= m,
            m == pat@.len(),
            n == s@.len(),
            at + m <= n,
            forall|k: int| 0 <= k < j ==> s@[at + k] == pat@[k],
        decreases m - j,
    {
        if s.get_char(at + j) != pat.get_char(j) {
            assert(window(s@, at as int, m as int)[j as int] != pat@[j as int]);
            return false;
        }
        j = j + 1;
    }
    assert(window(s@, at as int, m as int) =~= pat@);
    true
}

/// Whether `pat` occurs somewhere in `s`.
pub fn contains(s: &str, pat: &str) -> (r: bool)
    ensures
        r == has_substring(s@, pat@),
{
    let n = s.unicode_len();
    let m = pat.unicode_len();
    if m > n {
        return false;
    }
    if m == 0 {
        assert(window(s@, 0, 0) =~= pat@);
        return true;
    }
    let mut i: usize = 0;
    while i <= n - m
        invariant
            i <= n - m + 1,
            n == s@.len(),
            m == pat@.len(),
            1 <= m <= n,
            forall|k: int| 0 <= k < i ==> #[trigger] window(s@, k, m as int) != pat@,
        decreases n - m + 1 - i,
    {
        if matches_at(s, pat, i) {
            return true;
        }
        i = i + 1;
    }
    false
}

/// An ASCII capital letter as its small letter; any other character as itself.
pub fn to_ascii_lower(c: char) -> (r: char)
    ensures
        r == ascii_lower(c),
{
    if 'A' <= c && c <= 'Z' {
        ((c as u8) + 32u8) as char
    } else {
        c
    }
}

/// Whether two strings are equal but for the case of ASCII letters.
pub fn eq_ignore_ascii_case(a: &str, b: &str) -> (r: bool)
    ensures
        r == same_ignoring_ascii_case(a@, b@),
{
    let n = a.unicode_len();
    if n != b.unicode_len() {
        return false;
    }
    let mut i: usize = 0;
    while i < n
        invariant
            i <= n,
            n == a@.len(),
            n == b@.len(),
            forall|j: int| 0 <= j < i ==> ascii_lower(#[trigger] a@[j]) == ascii_lower(b@[j]),
        decreases n - i,
    {
        if to_ascii_lower(a.get_char(i)) != to_ascii_lower(b.get_char(i)) {
            return false;
        }
        i = i + 1;
    }
    true
}

/// Whether a character is white space.
pub fn char_is_space(c: char) -> (r: bool)
    ensures
        r == is_space(c),
{
    let n = c as u32;
    (0x09 <= n && n <= 0x0d) || n == 0x20 || n == 0x85 || n == 0xa0 || n == 0x1680 || (0x2000 <= n
        && n <= 0x200a) || n == 0x2028 || n == 0x2029 || n == 0x202f || n == 0x205f || n
        == 0x3000
}

/// Appends the character at place `i` of `from` to `out`.
pub fn push_char_of(out: &mut String, from: &str, i: usize)
    requires
        i < from@.len(),
    ensures
        final(out)@ == old(out)@.push(from@[i as int]),
{
    let n = from.unicode_len();
    assert(i + 1 <= n);
    out.append(from.substring_char(i, i + 1));
    assert(from@.subrange(i as int, i + 1) =~= seq![from@[i as int]]);
    assert(old(out)@ + seq![from@[i as int]] =~= old(out)@.push(from@[i as int]));
}

/// Appends the decimal digit `d` to `out`.
pub fn push_digit(out: &mut String, d: u8)
    requires
        d < 10,
    ensures
        final(out)@ == old(out)@.push(digit_char(d as int)),
{
    proof {
        reveal_strlit("0123456789");
    }
    push_char_of(out, "0123456789", d as usize);
}

/// Whether two strings hold the same characters.
pub fn str_eq(a: &str, b: &str) -> (r: bool)
    ensures
        r == (a@ == b@),
{
    let n = a.unicode_len();
    if n != b.unicode_len() {
        return false;
    }
    let mut i: usize = 0;
    while i < n
        invariant
            i <= n,
            n == a@.len(),
            n == b@.len(),
            forall|j: int| 0 <= j < i ==> a@[j] == b@[j],
        decreases n - i,
    {
        if a.get_char(i) != b.get_char(i) {
            return false;
        }
        i = i + 1;
    }
    assert(a@ =~= b@);
    true
}

/// Whether a string holds nothing but white space.
pub fn is_blank(s: &str) -> (r: bool)
    ensures
        r == blank(s@),
{
    let n = s.unicode_len();
    let mut i: usize = 0;
    while i < n
        invariant
            i <= n,
            n == s@.len(),
            forall|j: int| 0 <= j < i ==> is_space(#[trigger] s@[j]),
        decreases n - i,
    {
        if !char_is_space(s.get_char(i)) {
            return false;
        }
        i = i + 1;
    }
    true
}

/// Appends `n` in decimal to `out`.
pub fn push_decimal(out: &mut String, n: u64)
    ensures
        final(out)@ == old(out)@ + decimal(n as nat),
    decreases n,
{
    if n < 10 {
        push_digit(out, n as u8);
        assert(old(out)@.push(digit_char(n as int)) =~= old(out)@ + decimal(n as nat));
    } else {
        push_decimal(out, n / 10);
        push_digit(out, (n % 10) as u8);
        assert((old(out)@ + decimal((n / 10) as nat)).push(digit_char((n % 10) as int)) =~= old(
            out,
        )@ + decimal(n as nat));
    }
}

/// Appends `n` in decimal to `out`, with a leading zero below ten.
pub fn push_two_digits(out: &mut String, n: u64)
    ensures
        final(out)@ == old(out)@ + two_digits(n as nat),
{
    if n < 10 {
        push_digit(out, 0);
        push_digit(out, n as u8);
        assert(old(out)@.push('0').push(digit_char(n as int)) =~= old(out)@ + two_digits(
            n as nat,
        ));
    } else {
        push_decimal(out, n);
    }
}

/// The value of a decimal digit; none for any other character.
pub fn char_digit(c: char) -> (r: Option<u8>)
    ensures
        match r {
            Some(d) => digit_value(c) == Some(d as int) && d < 10,
            None => digit_value(c) is None,
        },
{
    match c {
        '0' => Some(0),
        '1' => Some(1),
        '2' => Some(2),
        '3' => Some(3),
        '4' => Some(4),
        '5' => Some(5),
        '6' => Some(6),
        '7' => Some(7),
        '8' => Some(8),
        '9' => Some(9),
        _ => None,
    }
}

/// The place of the first `c` in `s` at or after `from`; the length of `s` where there is none.
pub open spec fn find_char(s: Seq<char>, c: char, from: int) -> int
    decreases s.len() - from,
{
    if from >= s.len() {
        s.len() as int
    } else if s[from] == c {
        from
    } else {
        find_char(s, c, from + 1)
    }
}

/// The number below 256 that `s` spells in decimal, a leading plus sign
/// allowed; none for any other text.
pub open spec fn parse_u8(s: Seq<char>) -> Option<u8> {
    if s.len() > 0 && s[0] == '+' {
        value_below_256(s.skip(1))
    } else {
        value_below_256(s)
    }
}

/// The number below 256 that the digits of `digits` spell.
pub open spec fn value_below_256(digits: Seq<char>) -> Option<u8> {
    match decimal_value(digits) {
        Some(v) => if v <= 255 {
            Some(v as u8)
        } else {
            None
        },
        None => None,
    }
}

/// A text with a character that is no digit spells no number.
pub proof fn lemma_decimal_value_rejects(s: Seq<char>, i: int)
    requires
        0 <= i < s.len(),
        digit_value(s[i]) is None,
    ensures
        decimal_value(s) is None,
    decreases s.len(),
{
    if s.len() > 1 && i < s.len() - 1 {
        assert(s.drop_last()[i] == s[i]);
        lemma_decimal_value_rejects(s.drop_last(), i);
    }
}

/// A digit more multiplies the number by ten and adds the digit.
pub proof fn lemma_decimal_value_grows(s: Seq<char>)
    requires
        s.len() >= 2,
        decimal_value(s.drop_last()) is Some,
        digit_value(s.last()) is Some,
    ensures
        decimal_value(s) == Some(
            (decimal_value(s.drop_last())->0 * 10 + digit_value(s.last())->0) as nat,
        ),
{
}

/// The place of the first `c` in `s` at or after `from`.
pub fn find_char_from(s: &str, c: char, from: usize) -> (r: usize)
    requires
        from <= s@.len(),
    ensures
        r == find_char(s@, c, from as int),
        from <= r <= s@.len() <= usize::MAX,
{
    let n = s.unicode_len();
    let mut i: usize = from;
    while i < n
        invariant
            from <= i <= n,
            n == s@.len(),
            find_char(s@, c, from as int) == find_char(s@, c, i as int),
        decreases n - i,
    {
        if s.get_char(i) == c {
            return i;
        }
        i = i + 1;
    }
    i
}

/// The number below 256 that the characters of `s` from `from` up to `to` spell.
pub fn parse_u8_range(s: &str, from: usize, to: usize) -> (r: Option<u8>)
    requires
        from <= to <= s@.len(),
    ensures
        r == parse_u8(s@.subrange(from as int, to as int)),
{
    let ghost field = s@.subrange(from as int, to as int);
    let start: usize = if from < to && s.get_char(from) == '+' {
        from + 1
    } else {
        from
    };
    let ghost digits = s@.subrange(start as int, to as int);
    proof {
        if from < to {
            assert(field[0] == s@[from as int]);
            assert(field.skip(1) =~= s@.subrange(from + 1, to as int));
        }
    }
    if start == to {
        return None;
    }
    let mut acc: u64 = match char_digit(s.get_char(start)) {
        Some(d) => d as u64,
        None => {
            proof {
                assert(digits[0] == s@[start as int]);
                lemma_decimal_value_rejects(digits, 0);
            }
            return None;
        },
    };
    let mut i: usize = start + 1;
    proof {
        assert(digits.take(1) =~= seq![s@[start as int]]);
    }
    while i < to
        invariant
            start < i <= to,
            to <= s@.len(),
            digits == s@.subrange(start as int, to as int),
            parse_u8(s@.subrange(from as int, to as int)) == value_below_256(digits),
            decimal_value(digits.take(i - start)) is Some,
            acc == crate::fixed::min_int(decimal_value(digits.take(i - start))->0 as int, 256),
        decreases to - i,
    {
        let ghost k = i - start;
        proof {
            assert(digits[k] == s@[i as int]);
            assert(digits.take(k + 1).drop_last() =~= digits.take(k));
            assert(digits.take(k + 1).last() == digits[k]);
        }
        match char_digit(s.get_char(i)) {
            Some(d) => {
                proof {
                    lemma_decimal_value_grows(digits.take(k + 1));
                }
                let grown = acc * 10 + d as u64;
                acc = if grown > 256 {
                    256
                } else {
                    grown
                };
            },
            None => {
                proof {
                    lemma_decimal_value_rejects(digits, k);
                }
                return None;
            },
        }
        i = i + 1;
    }
    proof {
        assert(digits.take(to - start) =~= digits);
    }
    if acc <= 255 {
        Some(acc as u8)
    } else {
        None
    }
}

} // verus!
