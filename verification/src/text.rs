//! Character-level string helpers shared by the library: decimal numbers,
//! prefixes, splitting and the character classes of Unicode.

use vstd::prelude::*;
use vstd::std_specs::iter::IteratorSpec;

verus! {

/// The characters of `s`, in order.
pub fn to_chars(s: &str) -> (v: Vec<char>)
    ensures
        v@ == s@,
{
    let mut v: Vec<char> = Vec::new();
    for c in it: s.chars()
        invariant
            v@ == it.seq().take(it.index() as int),
            it.seq() == s@,
    {
        v.push(c);
    }
    v
}

/// Appends one character to a string (`String::push`).
#[verifier::external_body]
pub(crate) fn string_push(s: &mut String, c: char)
    ensures
        final(s)@ == old(s)@.push(c),
{
    s.push(c);
}

/// A string holding the characters of `v`.
pub fn string_from_chars(v: &[char]) -> (s: String)
    ensures
        s@ == v@,
{
    let mut s = String::new();
    let mut i: usize = 0;
    while i < v.len()
        invariant
            i <= v@.len(),
            s@ == v@.take(i as int),
        decreases v@.len() - i,
    {
        string_push(&mut s, v[i]);
        i = i + 1;
        assert(s@ == v@.take(i as int));
    }
    assert(v@.take(v@.len() as int) == v@);
    s
}

/// A string holding the characters of `s`.
pub fn string_from_str(s: &str) -> (r: String)
    ensures
        r@ == s@,
{
    s.to_owned()
}

/// Whether two character sequences are equal, compared character by character.
pub fn chars_eq(a: &[char], b: &[char]) -> (r: bool)
    ensures
        r == (a@ == b@),
{
    if a.len() != b.len() {
        return false;
    }
    let mut i: usize = 0;
    while i < a.len()
        invariant
            a@.len() == b@.len(),
            i <= a@.len(),
            forall|j: int| 0 <= j < i ==> a@[j] == b@[j],
        decreases a@.len() - i,
    {
        if a[i] != b[i] {
            return false;
        }
        i = i + 1;
    }
    assert(a@ == b@);
    true
}

/// Whether two strings hold the same characters.
pub fn str_equals(a: &str, b: &str) -> (r: bool)
    ensures
        r == (a@ == b@),
{
    chars_eq(&to_chars(a), &to_chars(b))
}

/// Whether `s` begins with `prefix` (`str::starts_with`).
pub fn str_starts_with(s: &str, prefix: &str) -> (r: bool)
    ensures
        r == has_prefix(s@, prefix@),
{
    chars_start_with(&to_chars(s), &to_chars(prefix))
}

/// The Unicode lower-case mapping of `s` (`str::to_lowercase`).
pub uninterp spec fn unicode_to_lowercase(s: Seq<char>) -> Seq<char>;

/// The ASCII lower-case of a character: `A` to `Z` become `a` to `z`, any other
/// character stays.
pub open spec fn ascii_lower_char(c: char) -> char {
    if 'A' <= c && c <= 'Z' {
        ((c as u32) + 32) as char
    } else {
        c
    }
}

/// Whether every character of `s` is ASCII.
pub open spec fn is_ascii_text(s: Seq<char>) -> bool {
    forall|i: int| 0 <= i < s.len() ==> is_ascii_char(#[trigger] s[i])
}

/// The lower-case of `s` as `str::to_lowercase` gives it: ASCII text letter by letter,
/// other text by the Unicode case mapping.
pub open spec fn lowercase(s: Seq<char>) -> Seq<char> {
    if is_ascii_text(s) {
        s.map_values(|c: char| ascii_lower_char(c))
    } else {
        unicode_to_lowercase(s)
    }
}

/// `str::to_lowercase`. The contract names the result: the Unicode case mapping of the
/// characters of `s`, which depends on `s` alone; for ASCII text it is the ASCII
/// lower-case of each character, as the documentation of the method and of
/// `char::to_lowercase` gives it.
#[verifier::external_body]
pub(crate) fn str_to_lowercase(s: &str) -> (r: String)
    ensures
        r@ == unicode_to_lowercase(s@),
        is_ascii_text(s@) ==> r@ == s@.map_values(
            |c: char| ascii_lower_char(c),
        ),
{
    s.to_lowercase()
}

/// Whether `s` begins with `prefix`.
pub open spec fn has_prefix(s: Seq<char>, prefix: Seq<char>) -> bool {
    prefix.len() <= s.len() && s.take(prefix.len() as int) == prefix
}

/// Whether `s` ends with `suffix`.
pub open spec fn has_suffix(s: Seq<char>, suffix: Seq<char>) -> bool {
    suffix.len() <= s.len() && s.skip(s.len() - suffix.len()) == suffix
}

/// The pieces of `s` between occurrences of `sep`, as `str::split` yields them (empty
/// pieces included; an empty `s` gives one empty piece).
pub open spec fn split_on(s: Seq<char>, sep: char) -> Seq<Seq<char>>
    decreases s.len(),
{
    if s.len() == 0 {
        seq![Seq::empty()]
    } else if s.last() == sep {
        split_on(s.drop_last(), sep).push(Seq::empty())
    } else {
        let p = split_on(s.drop_last(), sep);
        p.update(p.len() - 1, p.last().push(s.last()))
    }
}

/// `split_on` always yields at least one piece.
pub proof fn lemma_split_on_nonempty(s: Seq<char>, sep: char)
    ensures
        split_on(s, sep).len() >= 1,
    decreases s.len(),
{
    if s.len() > 0 {
        lemma_split_on_nonempty(s.drop_last(), sep);
    }
}

/// Whether `s` begins with `prefix`.
pub fn chars_start_with(s: &[char], prefix: &[char]) -> (r: bool)
    ensures
        r == has_prefix(s@, prefix@),
{
    if prefix.len() > s.len() {
        return false;
    }
    let mut i: usize = 0;
    while i < prefix.len()
        invariant
            prefix@.len() <= s@.len(),
            i <= prefix@.len(),
            forall|j: int| 0 <= j < i ==> s@[j] == prefix@[j],
        decreases prefix@.len() - i,
    {
        if s[i] != prefix[i] {
            assert(s@.take(prefix@.len() as int)[i as int] != prefix@[i as int]);
            return false;
        }
        i = i + 1;
    }
    assert(s@.take(prefix@.len() as int) == prefix@);
    true
}

/// Whether `s` ends with `suffix`.
pub fn chars_end_with(s: &[char], suffix: &[char]) -> (r: bool)
    ensures
        r == has_suffix(s@, suffix@),
{
    if suffix.len() > s.len() {
        return false;
    }
    let off = s.len() - suffix.len();
    let mut i: usize = 0;
    while i < suffix.len()
        invariant
            suffix@.len() <= s@.len(),
            off == s@.len() - suffix@.len(),
            off + suffix@.len() == s@.len(),
            s@.len() <= usize::MAX,
            i <= suffix@.len(),
            forall|j: int| 0 <= j < i ==> s@[off + j] == suffix@[j],
        decreases suffix@.len() - i,
    {
        if s[off + i] != suffix[i] {
            assert(s@.skip(off as int)[i as int] != suffix@[i as int]);
            return false;
        }
        i = i + 1;
    }
    assert(s@.skip(off as int) == suffix@);
    true
}

/// Whether `c` occurs in `s`.
pub fn chars_contain(s: &[char], c: char) -> (r: bool)
    ensures
        r == s@.contains(c),
{
    let mut i: usize = 0;
    while i < s.len()
        invariant
            i <= s@.len(),
            forall|j: int| 0 <= j < i ==> s@[j] != c,
        decreases s@.len() - i,
    {
        if s[i] == c {
            assert(s@[i as int] == c);
            return true;
        }
        i = i + 1;
    }
    false
}

/// The characters of `s` from `start` up to `end`.
pub fn chars_slice(s: &[char], start: usize, end: usize) -> (r: Vec<char>)
    requires
        start <= end <= s@.len(),
    ensures
        r@ == s@.subrange(start as int, end as int),
{
    let mut r: Vec<char> = Vec::new();
    let mut i: usize = start;
    while i < end
        invariant
            start <= i <= end <= s@.len(),
            r@ == s@.subrange(start as int, i as int),
        decreases end - i,
    {
        r.push(s[i]);
        i = i + 1;
        assert(r@ == s@.subrange(start as int, i as int));
    }
    r
}

// ---------------------------------------------------------------------------
// Decimal numbers
// ---------------------------------------------------------------------------

/// Whether `c` is one of the ASCII digits `0` to `9`.
pub open spec fn is_digit(c: char) -> bool {
    '0' <= c && c <= '9'
}

/// The numeric value of an ASCII digit.
pub open spec fn digit_value(c: char) -> int {
    c as int - '0' as int
}

/// The ASCII digit of the value `d` (for `0 <= d < 10`).
pub open spec fn digit_char(d: int) -> char {
    (d + '0' as int) as char
}

/// Whether every character of `s` is an ASCII digit.
pub open spec fn all_digits(s: Seq<char>) -> bool {
    forall|i: int| 0 <= i < s.len() ==> is_digit(#[trigger] s[i])
}

/// The value of a sequence of decimal digits, most significant first.
pub open spec fn digits_value(s: Seq<char>) -> int
    decreases s.len(),
{
    if s.len() == 0 {
        0
    } else {
        digits_value(s.drop_last()) * 10 + digit_value(s.last())
    }
}

/// The shortest decimal writing of `n`.
pub open spec fn nat_decimal(n: nat) -> Seq<char>
    decreases n,
{
    if n < 10 {
        seq![digit_char(n as int)]
    } else {
        nat_decimal(n / 10).push(digit_char((n % 10) as int))
    }
}

/// The decimal writing of `i` as Rust's `Display` gives it: a minus sign for a
/// negative value, then the digits of its magnitude.
pub open spec fn int_decimal(i: int) -> Seq<char> {
    if i < 0 {
        seq!['-'] + nat_decimal((-i) as nat)
    } else {
        nat_decimal(i as nat)
    }
}

/// The value that Rust's integer `FromStr` reads from `s`, before the check of the
/// type's range: an optional `+` (or, for a signed type, `-`) and then at least one
/// ASCII digit; `None` where `s` is not of that form.
pub open spec fn decimal_value(s: Seq<char>, signed: bool) -> Option<int> {
    if s.len() > 0 && s[0] == '+' {
        if s.len() > 1 && all_digits(s.drop_first()) {
            Some(digits_value(s.drop_first()))
        } else {
            None
        }
    } else if signed && s.len() > 0 && s[0] == '-' {
        if s.len() > 1 && all_digits(s.drop_first()) {
            Some(-digits_value(s.drop_first()))
        } else {
            None
        }
    } else if s.len() > 0 && all_digits(s) {
        Some(digits_value(s))
    } else {
        None
    }
}

/// What Rust's integer `FromStr` gives for `s` on a type with values from `lo` to `hi`.
pub open spec fn parse_int(s: Seq<char>, signed: bool, lo: int, hi: int) -> Option<int> {
    match decimal_value(s, signed) {
        Some(v) => if lo <= v <= hi {
            Some(v)
        } else {
            None
        },
        None => None,
    }
}

proof fn lemma_digits_value_nonneg(s: Seq<char>)
    requires
        all_digits(s),
    ensures
        digits_value(s) >= 0,
    decreases s.len(),
{
    if s.len() > 0 {
        assert(all_digits(s.drop_last()));
        lemma_digits_value_nonneg(s.drop_last());
        assert(is_digit(s[s.len() - 1]));
    }
}

proof fn lemma_digit_char(d: int)
    requires
        0 <= d < 10,
    ensures
        is_digit(digit_char(d)),
        digit_value(digit_char(d)) == d,
        digit_char(d) != '-',
        digit_char(d) != '+',
{
    assert((d + 48) as char as int == d + 48);
}

pub proof fn lemma_nat_decimal_digits(n: nat)
    ensures
        all_digits(nat_decimal(n)),
        digits_value(nat_decimal(n)) == n,
        nat_decimal(n).len() >= 1,
        nat_decimal(n)[0] != '-',
        nat_decimal(n)[0] != '+',
    decreases n,
{
    if n < 10 {
        lemma_digit_char(n as int);
        assert(nat_decimal(n) == seq![digit_char(n as int)]);
        let t = seq![digit_char(n as int)];
        assert(t.drop_last() =~= Seq::<char>::empty());
        assert(digits_value(t) == digits_value(t.drop_last()) * 10 + digit_value(t.last()));
    } else {
        lemma_nat_decimal_digits(n / 10);
        lemma_digit_char((n % 10) as int);
        let s = nat_decimal(n / 10);
        let t = s.push(digit_char((n % 10) as int));
        assert(t.drop_last() =~= s);
        assert(n == (n / 10) * 10 + n % 10);
        assert(t.last() == digit_char((n % 10) as int));
        assert(digits_value(t) == digits_value(s) * 10 + digit_value(t.last()));
        assert forall|i: int| 0 <= i < t.len() implies is_digit(#[trigger] t[i]) by {
            if i < s.len() {
                assert(t[i] == s[i]);
            }
        }
    }
}

/// Reading back the decimal writing of an `i64` gives the number again.
pub proof fn law_decimal_reads_back(n: i64)
    ensures
        parse_int(int_decimal(n as int), true, i64::MIN as int, i64::MAX as int) == Some(n as int),
{
    if n < 0 {
        let m = (-(n as int)) as nat;
        lemma_nat_decimal_digits(m);
        let s = seq!['-'] + nat_decimal(m);
        assert(s.drop_first() =~= nat_decimal(m));
        assert(s[0] == '-');
    } else {
        lemma_nat_decimal_digits(n as nat);
    }
}

/// Appends the shortest decimal writing of `n` to `out`.
pub fn push_decimal(out: &mut String, n: u128)
    ensures
        final(out)@ == old(out)@ + nat_decimal(n as nat),
    decreases n,
{
    if n >= 10 {
        push_decimal(out, n / 10);
    }
    let d: u8 = (n % 10) as u8;
    let c: char = (d + 48u8) as char;
    assert(c == digit_char((n % 10) as int));
    string_push(out, c);
    assert(nat_decimal(n as nat) == if n < 10 {
        seq![digit_char(n as int)]
    } else {
        nat_decimal((n / 10) as nat).push(digit_char((n % 10) as int))
    });
}

/// The decimal writing of an `i64`, as `to_string` gives it.
pub fn format_i64(n: i64) -> (s: String)
    ensures
        s@ == int_decimal(n as int),
{
    let mut s = String::new();
    if n < 0 {
        string_push(&mut s, '-');
        let m: u64 = if n == i64::MIN {
            9223372036854775808u64
        } else {
            (-n) as u64
        };
        push_decimal(&mut s, m as u128);
    } else {
        push_decimal(&mut s, n as u128);
    }
    s
}

/// The decimal writing of a `u64`, as `to_string` gives it.
pub fn format_u64(n: u64) -> (s: String)
    ensures
        s@ == nat_decimal(n as nat),
{
    let mut s = String::new();
    push_decimal(&mut s, n as u128);
    s
}

/// Reads the digits of `s` from `start` on. The result is the value where it is at most
/// `2^64`, and `None` where a character is not a digit, where there is no digit, or
/// where the value exceeds `2^64`.
fn digits_from(s: &[char], start: usize) -> (r: Option<u128>)
    requires
        start <= s@.len(),
    ensures
        match r {
            Some(v) => all_digits(s@.skip(start as int)) && s@.len() > start && v
                == digits_value(s@.skip(start as int)) && v <= 0x1_0000_0000_0000_0000,
            None => !(all_digits(s@.skip(start as int)) && s@.len() > start) || digits_value(
                s@.skip(start as int),
            ) > 0x1_0000_0000_0000_0000,
        },
{
    let bound: u128 = 0x1_0000_0000_0000_0000;
    if start == s.len() {
        return None;
    }
    let ghost body = s@.skip(start as int);
    let mut acc: u128 = 0;
    let mut over = false;
    let mut i: usize = start;
    while i < s.len()
        invariant
            start <= i <= s@.len(),
            bound == 0x1_0000_0000_0000_0000u128,
            body == s@.skip(start as int),
            all_digits(body.take(i - start)),
            !over ==> acc == digits_value(body.take(i - start)) && acc <= bound,
            over ==> digits_value(body.take(i - start)) > bound,
        decreases s@.len() - i,
    {
        let c = s[i];
        if !('0' <= c && c <= '9') {
            assert(body[i - start] == c);
            assert(!all_digits(body));
            return None;
        }
        let ghost prev = body.take(i - start);
        let ghost next = body.take(i - start + 1);
        assert(next.drop_last() =~= prev);
        assert(next.last() == c);
        assert forall|j: int| 0 <= j < next.len() implies is_digit(#[trigger] next[j]) by {
            if j < prev.len() {
                assert(next[j] == prev[j]);
            }
        }
        proof {
            lemma_digits_value_nonneg(prev);
        }
        if !over {
            let d: u128 = (c as u32 - 48u32) as u128;
            if acc > (bound - d) / 10 {
                over = true;
                assert(digits_value(next) > bound) by (nonlinear_arith)
                    requires
                        digits_value(next) == acc * 10 + d,
                        acc > (bound - d) / 10,
                        0 <= d < 10,
                        bound == 0x1_0000_0000_0000_0000int,
                ;
            } else {
                assert(acc * 10 + d <= bound) by (nonlinear_arith)
                    requires
                        acc <= (bound - d) / 10,
                        0 <= d < 10,
                        bound == 0x1_0000_0000_0000_0000int,
                ;
                acc = acc * 10 + d;
            }
        } else {
            assert(digits_value(next) > bound) by (nonlinear_arith)
                requires
                    digits_value(next) == digits_value(prev) * 10 + digit_value(c),
                    digits_value(prev) > bound,
                    is_digit(c),
                    bound == 0x1_0000_0000_0000_0000int,
            ;
        }
        i = i + 1;
    }
    assert(body.take(s@.len() - start) =~= body);
    if over {
        None
    } else {
        Some(acc)
    }
}

/// The integer that Rust's `FromStr` reads from `s`, where its magnitude is at most
/// `2^64`; `None` where `s` is not a decimal integer or the magnitude is larger.
fn parse_decimal(s: &str, signed: bool) -> (r: Option<i128>)
    ensures
        match r {
            Some(v) => decimal_value(s@, signed) == Some(v as int),
            None => decimal_value(s@, signed) matches Some(v) ==> (v > 0x1_0000_0000_0000_0000
                || v < -0x1_0000_0000_0000_0000),
        },
{
    let cs = to_chars(s);
    if cs.len() > 0 && cs[0] == '+' {
        assert(cs@.skip(1) =~= cs@.drop_first());
        if cs.len() == 1 {
            return None;
        }
        match digits_from(&cs, 1) {
            Some(v) => Some(v as i128),
            None => None,
        }
    } else if signed && cs.len() > 0 && cs[0] == '-' {
        assert(cs@.skip(1) =~= cs@.drop_first());
        if cs.len() == 1 {
            return None;
        }
        match digits_from(&cs, 1) {
            Some(v) => Some(-(v as i128)),
            None => None,
        }
    } else {
        assert(cs@.skip(0) =~= cs@);
        match digits_from(&cs, 0) {
            Some(v) => Some(v as i128),
            None => None,
        }
    }
}

/// `s.parse::<i64>().ok()`.
pub fn parse_i64(s: &str) -> (r: Option<i64>)
    ensures
        r matches Some(v) ==> parse_int(s@, true, i64::MIN as int, i64::MAX as int) == Some(
            v as int,
        ),
        r is None ==> parse_int(s@, true, i64::MIN as int, i64::MAX as int) is None,
{
    match parse_decimal(s, true) {
        Some(v) => if -9223372036854775808i128 <= v && v <= 9223372036854775807i128 {
            Some(v as i64)
        } else {
            None
        },
        None => None,
    }
}

/// `s.parse::<usize>().ok()`.
pub fn parse_usize(s: &str) -> (r: Option<usize>)
    ensures
        r matches Some(v) ==> parse_int(s@, false, 0, usize::MAX as int) == Some(v as int),
        r is None ==> parse_int(s@, false, 0, usize::MAX as int) is None,
{
    match parse_decimal(s, false) {
        Some(v) => if 0 <= v && v <= usize::MAX as i128 {
            Some(v as usize)
        } else {
            None
        },
        None => None,
    }
}

/// `s.parse::<u64>().ok()`.
pub fn parse_u64(s: &str) -> (r: Option<u64>)
    ensures
        r matches Some(v) ==> parse_int(s@, false, 0, u64::MAX as int) == Some(v as int),
        r is None ==> parse_int(s@, false, 0, u64::MAX as int) is None,
{
    match parse_decimal(s, false) {
        Some(v) => if 0 <= v && v <= 18446744073709551615i128 {
            Some(v as u64)
        } else {
            None
        },
        None => None,
    }
}

// ---------------------------------------------------------------------------
// Character classes of Unicode
// ---------------------------------------------------------------------------

/// Whether a character beyond ASCII has the Unicode `White_Space` property.
pub uninterp spec fn non_ascii_whitespace(c: char) -> bool;

/// Whether a character beyond ASCII has the Unicode `Lowercase` property.
pub uninterp spec fn non_ascii_lowercase(c: char) -> bool;

/// Whether a character beyond ASCII has the Unicode `Uppercase` property.
pub uninterp spec fn non_ascii_uppercase(c: char) -> bool;

/// Whether a character beyond ASCII is numeric in Unicode.
pub uninterp spec fn non_ascii_numeric(c: char) -> bool;

/// Whether a character beyond ASCII is alphabetic or numeric in Unicode.
pub uninterp spec fn non_ascii_alphanumeric(c: char) -> bool;

/// Whether `c` is an ASCII character.
pub open spec fn is_ascii_char(c: char) -> bool {
    (c as u32) < 128
}

/// `char::is_whitespace`: among ASCII characters, space, tab, line feed, vertical tab,
/// form feed and carriage return.
pub open spec fn unicode_whitespace(c: char) -> bool {
    if is_ascii_char(c) {
        c == ' ' || c == '\t' || c == '\n' || c == '\x0B' || c == '\x0C' || c == '\r'
    } else {
        non_ascii_whitespace(c)
    }
}

/// `char::is_lowercase`: among ASCII characters, `a` to `z`.
pub open spec fn unicode_lowercase(c: char) -> bool {
    if is_ascii_char(c) {
        'a' <= c && c <= 'z'
    } else {
        non_ascii_lowercase(c)
    }
}

/// `char::is_uppercase`: among ASCII characters, `A` to `Z`.
pub open spec fn unicode_uppercase(c: char) -> bool {
    if is_ascii_char(c) {
        'A' <= c && c <= 'Z'
    } else {
        non_ascii_uppercase(c)
    }
}

/// `char::is_numeric`: among ASCII characters, the digits.
pub open spec fn unicode_numeric(c: char) -> bool {
    if is_ascii_char(c) {
        is_digit(c)
    } else {
        non_ascii_numeric(c)
    }
}

/// `char::is_alphanumeric`: among ASCII characters, the letters and the digits.
pub open spec fn unicode_alphanumeric(c: char) -> bool {
    if is_ascii_char(c) {
        ('a' <= c && c <= 'z') || ('A' <= c && c <= 'Z') || is_digit(c)
    } else {
        non_ascii_alphanumeric(c)
    }
}

/// `char::is_whitespace`. Its documentation gives the ASCII members of the class; the
/// others are named.
#[verifier::external_body]
pub(crate) fn char_is_whitespace(c: char) -> (r: bool)
    ensures
        r == unicode_whitespace(c),
        !is_ascii_char(c) ==> r == non_ascii_whitespace(c),
{
    c.is_whitespace()
}

/// `char::is_lowercase`. Among ASCII characters the `Lowercase` property holds exactly
/// of `a` to `z`; the others are named.
#[verifier::external_body]
pub(crate) fn char_is_lowercase(c: char) -> (r: bool)
    ensures
        r == unicode_lowercase(c),
        !is_ascii_char(c) ==> r == non_ascii_lowercase(c),
{
    c.is_lowercase()
}

/// `char::is_uppercase`. Among ASCII characters the `Uppercase` property holds exactly
/// of `A` to `Z`; the others are named.
#[verifier::external_body]
pub(crate) fn char_is_uppercase(c: char) -> (r: bool)
    ensures
        r == unicode_uppercase(c),
        !is_ascii_char(c) ==> r == non_ascii_uppercase(c),
{
    c.is_uppercase()
}

/// `char::is_numeric`. Among ASCII characters it holds exactly of `0` to `9`; the
/// others are named.
#[verifier::external_body]
pub(crate) fn char_is_numeric(c: char) -> (r: bool)
    ensures
        r == unicode_numeric(c),
        !is_ascii_char(c) ==> r == non_ascii_numeric(c),
{
    c.is_numeric()
}

/// `char::is_alphanumeric`. Among ASCII characters it holds exactly of letters and
/// digits; the others are named.
#[verifier::external_body]
pub(crate) fn char_is_alphanumeric(c: char) -> (r: bool)
    ensures
        r == unicode_alphanumeric(c),
        !is_ascii_char(c) ==> r == non_ascii_alphanumeric(c),
{
    c.is_alphanumeric()
}

/// Whether every character of `s` is white space, i.e. whether `s.trim()` is empty.
pub open spec fn is_blank(s: Seq<char>) -> bool {
    forall|i: int| 0 <= i < s.len() ==> unicode_whitespace(#[trigger] s[i])
}

/// Whether `s.trim()` is empty.
pub fn trim_is_empty(s: &str) -> (r: bool)
    ensures
        r == is_blank(s@),
{
    let cs = to_chars(s);
    let mut i: usize = 0;
    while i < cs.len()
        invariant
            cs@ == s@,
            i <= cs@.len(),
            forall|j: int| 0 <= j < i ==> unicode_whitespace(#[trigger] cs@[j]),
        decreases cs@.len() - i,
    {
        if !char_is_whitespace(cs[i]) {
            return false;
        }
        i = i + 1;
    }
    true
}

/// The index of the first character of `s` that is not white space (or its length).
pub open spec fn trim_start_index(s: Seq<char>) -> int
    decreases s.len(),
{
    if s.len() == 0 || !unicode_whitespace(s[0]) {
        0
    } else {
        1 + trim_start_index(s.drop_first())
    }
}

/// `s` without its leading white space (`str::trim_start`).
pub open spec fn trim_start(s: Seq<char>) -> Seq<char> {
    s.skip(trim_start_index(s))
}

/// The length of `s` without its trailing white space.
pub open spec fn trim_end_len(s: Seq<char>) -> int
    decreases s.len(),
{
    if s.len() == 0 || !unicode_whitespace(s.last()) {
        s.len() as int
    } else {
        trim_end_len(s.drop_last())
    }
}

/// `s` without its leading and trailing white space (`str::trim`).
pub open spec fn trim(s: Seq<char>) -> Seq<char> {
    let t = trim_start(s);
    t.take(trim_end_len(t))
}

proof fn lemma_trim_start_index(s: Seq<char>, k: int)
    requires
        0 <= k <= s.len(),
        forall|j: int| 0 <= j < k ==> unicode_whitespace(#[trigger] s[j]),
        k == s.len() || !unicode_whitespace(s[k]),
    ensures
        trim_start_index(s) == k,
    decreases s.len(),
{
    if s.len() > 0 && unicode_whitespace(s[0]) {
        assert(k > 0);
        let t = s.drop_first();
        assert forall|j: int| 0 <= j < k - 1 implies unicode_whitespace(#[trigger] t[j]) by {
            assert(t[j] == s[j + 1]);
        }
        if k - 1 < t.len() {
            assert(t[k - 1] == s[k]);
        }
        lemma_trim_start_index(t, k - 1);
    }
}

proof fn lemma_trim_end_len(s: Seq<char>, k: int)
    requires
        0 <= k <= s.len(),
        forall|j: int| k <= j < s.len() ==> unicode_whitespace(#[trigger] s[j]),
        k == 0 || !unicode_whitespace(s[k - 1]),
    ensures
        trim_end_len(s) == k,
    decreases s.len(),
{
    if s.len() > 0 && unicode_whitespace(s.last()) {
        assert(k < s.len());
        let t = s.drop_last();
        assert forall|j: int| k <= j < t.len() implies unicode_whitespace(#[trigger] t[j]) by {
            assert(t[j] == s[j]);
        }
        if k > 0 {
            assert(t[k - 1] == s[k - 1]);
        }
        lemma_trim_end_len(t, k);
    } else if s.len() > 0 {
        if k < s.len() {
            assert(unicode_whitespace(s[s.len() - 1]));
        }
    }
}

/// The index of the first character of `s` that is not white space.
pub fn trim_start_at(s: &[char]) -> (r: usize)
    ensures
        r == trim_start_index(s@),
        r <= s@.len(),
{
    let mut i: usize = 0;
    while i < s.len() && char_is_whitespace(s[i])
        invariant
            i <= s@.len(),
            forall|j: int| 0 <= j < i ==> unicode_whitespace(#[trigger] s@[j]),
        decreases s@.len() - i,
    {
        i = i + 1;
    }
    proof {
        lemma_trim_start_index(s@, i as int);
    }
    i
}

/// `s.trim()`, as characters.
pub fn trim_chars(s: &[char]) -> (r: Vec<char>)
    ensures
        r@ == trim(s@),
{
    let start = trim_start_at(s);
    let t = chars_slice(s, start, s.len());
    assert(t@ == trim_start(s@));
    let mut end: usize = t.len();
    while end > 0 && char_is_whitespace(t[end - 1])
        invariant
            end <= t@.len(),
            forall|j: int| end <= j < t@.len() ==> unicode_whitespace(#[trigger] t@[j]),
        decreases end,
    {
        end = end - 1;
    }
    proof {
        lemma_trim_end_len(t@, end as int);
    }
    chars_slice(&t, 0, end)
}

} // verus!
