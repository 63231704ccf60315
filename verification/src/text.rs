//! Text helpers with exact character-level contracts.

use vstd::prelude::*;
use vstd::string::*;

verus! {

/// Appends one character to a string.
/// Trusted: `String::push` appends the character at the end (std documentation).
#[verifier::external_body]
pub(crate) fn push_char(s: &mut String, c: char)
    ensures
        final(s)@ == old(s)@.push(c),
{
    s.push(c)
}

/// Copies a string slice into a new `String`.
pub fn string_from(s: &str) -> (r: String)
    ensures
        r@ == s@,
{
    String::from_str(s)
}

/// Appends a string slice to a string.
pub fn push_str(s: &mut String, other: &str)
    ensures
        final(s)@ == old(s)@ + other@,
{
    s.append(other)
}

/// Character-wise equality of two string slices.
pub fn str_eq(a: &str, b: &str) -> (r: bool)
    ensures
        r == (a@ == b@),
{
    let n: usize = a.unicode_len();
    let m: usize = b.unicode_len();
    if n != m {
        return false;
    }
    let mut i: usize = 0;
    while i < n
        invariant
            n == a@.len(),
            m == b@.len(),
            n == m,
            i <= n,
            forall|j: int| 0 <= j < i ==> a@[j] == b@[j],
        decreases n - i,
    {
        if a.get_char(i) != b.get_char(i) {
            return false;
        }
        i = i + 1;
    }
    assert(a@ =~= b@);
    true
}

/// Whether `prefix` is a prefix of `s`.
pub fn starts_with(s: &str, prefix: &str) -> (r: bool)
    ensures
        r == prefix@.is_prefix_of(s@),
{
    let n: usize = s.unicode_len();
    let m: usize = prefix.unicode_len();
    if m > n {
        return false;
    }
    let mut i: usize = 0;
    while i < m
        invariant
            n == s@.len(),
            m == prefix@.len(),
            m <= n,
            i <= m,
            forall|j: int| 0 <= j < i ==> s@[j] == prefix@[j],
        decreases m - i,
    {
        if s.get_char(i) != prefix.get_char(i) {
            return false;
        }
        i = i + 1;
    }
    true
}

/// Whether `suffix` is a suffix of `s`.
pub fn ends_with_text(s: &str, suffix: &str) -> (r: bool)
    ensures
        r == suffix@.is_suffix_of(s@),
{
    let n: usize = s.unicode_len();
    let m: usize = suffix.unicode_len();
    if m > n {
        return false;
    }
    let k: usize = n - m;
    let mut i: usize = 0;
    while i < m
        invariant
            n == s@.len(),
            m == suffix@.len(),
            m <= n,
            k == n - m,
            i <= m,
            forall|j: int| 0 <= j < i ==> s@[k + j] == suffix@[j],
        decreases m - i,
    {
        if s.get_char(k + i) != suffix.get_char(i) {
            assert(s@.subrange(k as int, n as int)[i as int] != suffix@[i as int]);
            return false;
        }
        i = i + 1;
    }
    assert(s@.subrange(k as int, n as int) =~= suffix@);
    true
}

/// `s` with `prefix` removed, when `s` starts with `prefix`.
pub fn strip_prefix(s: &str, prefix: &str) -> (r: Option<String>)
    ensures
        prefix@.is_prefix_of(s@) ==> (r matches Some(t) && t@ == s@.subrange(
            prefix@.len() as int,
            s@.len() as int,
        )),
        !prefix@.is_prefix_of(s@) ==> r is None,
{
    if starts_with(s, prefix) {
        let n: usize = s.unicode_len();
        let m: usize = prefix.unicode_len();
        Some(string_from(s.substring_char(m, n)))
    } else {
        None
    }
}

/// Index of the last occurrence of `c` in `s`.
pub open spec fn last_index_of(s: Seq<char>, c: char) -> Option<int>
    decreases s.len(),
{
    if s.len() == 0 {
        None
    } else if s.last() == c {
        Some(s.len() - 1)
    } else {
        last_index_of(s.drop_last(), c)
    }
}

pub proof fn lemma_last_index_of(s: Seq<char>, c: char)
    ensures
        last_index_of(s, c) matches Some(k) ==> 0 <= k < s.len() && s[k] == c && forall|j: int|
            k < j < s.len() ==> s[j] != c,
        last_index_of(s, c) is None ==> forall|j: int| 0 <= j < s.len() ==> s[j] != c,
    decreases s.len(),
{
    if s.len() > 0 && s.last() != c {
        lemma_last_index_of(s.drop_last(), c);
        assert forall|j: int| 0 <= j < s.len() - 1 implies s.drop_last()[j] == s[j] by {}
    }
}

/// The part of `s` before the last occurrence of `c`, or all of `s` when `c`
/// does not occur (`s.rsplit_once(c).map(|(a, _)| a).unwrap_or(s)`).
pub open spec fn before_last(s: Seq<char>, c: char) -> Seq<char> {
    match last_index_of(s, c) {
        Some(k) => s.subrange(0, k),
        None => s,
    }
}

pub fn before_last_char(s: &str, c: char) -> (r: String)
    ensures
        r@ == before_last(s@, c),
{
    let n: usize = s.unicode_len();
    let mut i: usize = n;
    assert(s@.subrange(0, n as int) =~= s@);
    while i > 0
        invariant
            n == s@.len(),
            i <= n,
            last_index_of(s@, c) == last_index_of(s@.subrange(0, i as int), c),
        decreases i,
    {
        if s.get_char(i - 1) == c {
            assert(s@.subrange(0, i as int).last() == c);
            return string_from(s.substring_char(0, i - 1));
        }
        assert(s@.subrange(0, i as int).drop_last() =~= s@.subrange(0, i - 1));
        i = i - 1;
    }
    string_from(s)
}

/// Decimal digits of a natural number.
pub open spec fn nat_digits(n: nat) -> Seq<char>
    decreases n,
{
    if n < 10 {
        seq![digit_char((n % 10) as nat)]
    } else {
        nat_digits(n / 10).push(digit_char((n % 10) as nat))
    }
}

pub open spec fn digit_char(d: nat) -> char {
    (48 + d) as char
}

/// Decimal text of an integer, with a leading '-' for negative numbers.
pub open spec fn int_text(n: int) -> Seq<char> {
    if n < 0 {
        seq!['-'] + nat_digits((-n) as nat)
    } else {
        nat_digits(n as nat)
    }
}

fn digit(d: u64) -> (c: char)
    requires
        d < 10,
    ensures
        c == digit_char(d as nat),
{
    if d == 0 { '0' }
    else if d == 1 { '1' }
    else if d == 2 { '2' }
    else if d == 3 { '3' }
    else if d == 4 { '4' }
    else if d == 5 { '5' }
    else if d == 6 { '6' }
    else if d == 7 { '7' }
    else if d == 8 { '8' }
    else { '9' }
}

/// Decimal text of an unsigned integer (`u64::to_string`).
pub fn u64_to_string(n: u64) -> (r: String)
    ensures
        r@ == nat_digits(n as nat),
    decreases n,
{
    if n < 10 {
        let mut s = String::new();
        push_char(&mut s, digit(n));
        assert(s@ =~= nat_digits(n as nat));
        s
    } else {
        let mut s = u64_to_string(n / 10);
        push_char(&mut s, digit(n % 10));
        s
    }
}

/// Decimal text of a signed integer (`i64::to_string`).
pub fn i64_to_string(n: i64) -> (r: String)
    ensures
        r@ == int_text(n as int),
{
    if n < 0 {
        let m: u64 = if n == i64::MIN {
            9223372036854775808u64
        } else {
            (-n) as u64
        };
        let mut s = String::new();
        push_char(&mut s, '-');
        let d = u64_to_string(m);
        push_str(&mut s, d.as_str());
        s
    } else {
        u64_to_string(n as u64)
    }
}

pub open spec fn is_digit(c: char) -> bool {
    '0' <= c && c <= '9'
}

pub open spec fn all_digits(s: Seq<char>) -> bool {
    forall|i: int| 0 <= i < s.len() ==> is_digit(s[i])
}

/// The number that decimal digits spell.
pub open spec fn digits_value(s: Seq<char>) -> nat
    decreases s.len(),
{
    if s.len() == 0 {
        0
    } else {
        digits_value(s.drop_last()) * 10 + ((s.last() as u32) - 48) as nat
    }
}

/// The integer that `str::parse::<i64>` reads: an optional sign and at least one digit.
pub open spec fn int_value(s: Seq<char>) -> Option<int> {
    if s.len() > 0 && (s[0] == '+' || s[0] == '-') {
        let d = s.drop_first();
        if d.len() > 0 && all_digits(d) {
            Some(if s[0] == '-' { -(digits_value(d) as int) } else { digits_value(d) as int })
        } else {
            None
        }
    } else if s.len() > 0 && all_digits(s) {
        Some(digits_value(s) as int)
    } else {
        None
    }
}

/// `s.parse::<i64>().ok()`.
pub open spec fn parse_i64_spec(s: Seq<char>) -> Option<i64> {
    match int_value(s) {
        Some(v) => if i64::MIN <= v <= i64::MAX {
            Some(v as i64)
        } else {
            None
        },
        None => None,
    }
}

pub proof fn lemma_digits_value_prefix(s: Seq<char>, i: int)
    requires
        0 <= i <= s.len(),
        all_digits(s),
    ensures
        digits_value(s.subrange(0, i)) <= digits_value(s),
    decreases s.len() - i,
{
    if i < s.len() {
        lemma_digits_value_prefix(s, i + 1);
        assert(s.subrange(0, i + 1).drop_last() =~= s.subrange(0, i));
    }
    else {
        assert(s.subrange(0, i) =~= s);
    }
}

/// Reads the digits of `s` from index `start`; `None` when one is not a digit or the
/// number exceeds `limit`.
fn read_digits(s: &str, start: usize, limit: u64) -> (r: Option<u64>)
    requires
        start <= s@.len(),
        limit >= 9,
    ensures
        r matches Some(v) ==> all_digits(s@.skip(start as int)) && v == digits_value(s@.skip(start as int))
            && v <= limit,
        r is None ==> !all_digits(s@.skip(start as int)) || digits_value(s@.skip(start as int)) > limit,
{
    let n: usize = s.unicode_len();
    let mut i: usize = start;
    let mut acc: u64 = 0;
    let ghost d = s@.skip(start as int);
    while i < n
        invariant
            n == s@.len(),
            start <= i <= n,
            d == s@.skip(start as int),
            all_digits(d.subrange(0, i - start)),
            acc == digits_value(d.subrange(0, i - start)),
            acc <= limit,
            limit >= 9,
        decreases n - i,
    {
        let c = s.get_char(i);
        assert(d[i - start] == c);
        if c < '0' || c > '9' {
            return None;
        }
        let digit: u64 = (c as u32 - 48) as u64;
        assert(digit <= 9);
        assert(d.subrange(0, i + 1 - start).drop_last() =~= d.subrange(0, i - start));
        if acc > (limit - digit) / 10 {
            proof {
                assert(acc * 10 + digit > limit) by (nonlinear_arith)
                    requires
                        acc > (limit - digit) / 10,
                        digit <= 9,
                        limit >= 9,
                ;
            }
            proof {
                if all_digits(d) {
                    lemma_digits_value_prefix(d, i + 1 - start);
                }
            }
            return None;
        }
        proof {
            assert(acc * 10 + digit <= limit) by (nonlinear_arith)
                requires
                    acc <= (limit - digit) / 10,
            ;
        }
        acc = acc * 10 + digit;
        i = i + 1;
    }
    assert(d.subrange(0, n - start) =~= d);
    Some(acc)
}

/// `s.parse::<i64>().ok()`.
pub fn parse_i64(s: &str) -> (r: Option<i64>)
    ensures
        r == parse_i64_spec(s@),
{
    let n: usize = s.unicode_len();
    if n == 0 {
        return None;
    }
    let c = s.get_char(0);
    if c == '+' || c == '-' {
        assert(s@.skip(1) =~= s@.drop_first());
        if n == 1 {
            return None;
        }
        let limit: u64 = if c == '-' { 9223372036854775808u64 } else { 9223372036854775807u64 };
        match read_digits(s, 1, limit) {
            Some(v) => if c == '-' {
                if v == 9223372036854775808u64 {
                    Some(i64::MIN)
                } else {
                    Some(-(v as i64))
                }
            } else {
                Some(v as i64)
            },
            None => None,
        }
    } else {
        assert(s@.skip(0) =~= s@);
        match read_digits(s, 0, 9223372036854775807u64) {
            Some(v) => Some(v as i64),
            None => None,
        }
    }
}

/// `s.parse::<u64>().ok()`: an optional '+' and at least one digit, within range.
pub open spec fn parse_u64_spec(s: Seq<char>) -> Option<u64> {
    let d = if s.len() > 0 && s[0] == '+' { s.drop_first() } else { s };
    if d.len() > 0 && all_digits(d) && digits_value(d) <= u64::MAX {
        Some(digits_value(d) as u64)
    } else {
        None
    }
}

/// `s.parse::<u64>().ok()`.
pub fn parse_u64(s: &str) -> (r: Option<u64>)
    ensures
        r == parse_u64_spec(s@),
{
    let n: usize = s.unicode_len();
    if n == 0 {
        return None;
    }
    let start: usize = if s.get_char(0) == '+' { 1 } else { 0 };
    if start == 1 {
        assert(s@.skip(1) =~= s@.drop_first());
    } else {
        assert(s@.skip(0) =~= s@);
    }
    if start == n {
        return None;
    }
    read_digits(s, start, u64::MAX)
}

/// One unit in the last of `decimals` decimal places: "1", "0.1", "0.01", ...
pub open spec fn decimal_unit(decimals: nat) -> Seq<char> {
    if decimals == 0 {
        "1"@
    } else {
        "0."@ + Seq::new((decimals - 1) as nat, |i: int| '0') + "1"@
    }
}

/// Zero written with `decimals` decimal places: "0", "0.0", "0.00", ...
pub open spec fn decimal_zero(decimals: nat) -> Seq<char> {
    if decimals == 0 {
        "0"@
    } else {
        "0."@ + Seq::new(decimals, |i: int| '0')
    }
}

/// "0." followed by `count` zeros.
fn zeros_after_point(count: u64) -> (r: String)
    ensures
        r@ == "0."@ + Seq::new(count as nat, |i: int| '0'),
{
    let mut s = string_from("0.");
    let mut i: u64 = 0;
    assert(s@ =~= "0."@ + Seq::new(0, |k: int| '0'));
    while i < count
        invariant
            i <= count,
            s@ == "0."@ + Seq::new(i as nat, |k: int| '0'),
        decreases count - i,
    {
        push_char(&mut s, '0');
        assert(s@ =~= "0."@ + Seq::new((i + 1) as nat, |k: int| '0'));
        i = i + 1;
    }
    s
}

/// The text of [`decimal_unit`].
pub fn decimal_unit_text(decimals: u64) -> (r: String)
    ensures
        r@ == decimal_unit(decimals as nat),
{
    if decimals == 0 {
        return string_from("1");
    }
    let mut s = zeros_after_point(decimals - 1);
    push_str(&mut s, "1");
    s
}

/// The text of [`decimal_zero`].
pub fn decimal_zero_text(decimals: u64) -> (r: String)
    ensures
        r@ == decimal_zero(decimals as nat),
{
    if decimals == 0 {
        return string_from("0");
    }
    zeros_after_point(decimals)
}

/// Every character is ASCII.
pub open spec fn is_ascii_text(s: Seq<char>) -> bool {
    forall|i: int| 0 <= i < s.len() ==> (#[trigger] s[i] as u32) < 128
}

/// ASCII letters made lower-case, every other character kept.
pub open spec fn ascii_lowercase(s: Seq<char>) -> Seq<char> {
    s.map_values(|c: char| if 'A' <= c && c <= 'Z' { ((c as u32) + 32) as char } else { c })
}

/// What `str::to_lowercase` gives: Unicode's lower-case mapping of the text.
pub uninterp spec fn unicode_lowercase(s: Seq<char>) -> Seq<char>;

/// Trusted: `str::to_lowercase`. On ASCII text it lower-cases the letters A to Z and keeps
/// the rest (std documentation: the mapping agrees with `to_ascii_lowercase` there); on
/// other text the full Unicode mapping is named, not stated.
#[verifier::external_body]
pub(crate) fn to_lowercase(s: &str) -> (r: String)
    ensures
        r@ == unicode_lowercase(s@),
        is_ascii_text(s@) ==> r@ == ascii_lowercase(s@),
{
    s.to_lowercase()
}

/// Every character of a number's decimal text is a digit.
pub proof fn lemma_nat_digits_are_digits(n: nat)
    ensures
        forall|i: int| 0 <= i < nat_digits(n).len() ==> is_digit(#[trigger] nat_digits(n)[i]),
    decreases n,
{
    if n >= 10 {
        lemma_nat_digits_are_digits(n / 10);
        assert forall|i: int| 0 <= i < nat_digits(n).len() implies is_digit(#[trigger] nat_digits(n)[i]) by {
            if i < nat_digits(n / 10).len() {
                assert(nat_digits(n)[i] == nat_digits(n / 10)[i]);
            }
        }
    }
}

/// Every character of an integer's decimal text is a digit or the leading minus sign.
pub proof fn lemma_int_text_chars(n: int, i: int)
    requires
        0 <= i < int_text(n).len(),
    ensures
        is_digit(int_text(n)[i]) || int_text(n)[i] == '-',
{
    if n < 0 {
        lemma_nat_digits_are_digits((-n) as nat);
        if i > 0 {
            assert(int_text(n)[i] == nat_digits((-n) as nat)[i - 1]);
        }
    } else {
        lemma_nat_digits_are_digits(n as nat);
    }
}

/// The part of `s` after the last occurrence of `c`, or all of `s` when `c` does not
/// occur (`s.rsplit(c).next().unwrap()`).
pub open spec fn after_last(s: Seq<char>, c: char) -> Seq<char> {
    match last_index_of(s, c) {
        Some(k) => s.subrange(k + 1, s.len() as int),
        None => s,
    }
}

pub fn after_last_char(s: &str, c: char) -> (r: String)
    ensures
        r@ == after_last(s@, c),
{
    let n: usize = s.unicode_len();
    let mut i: usize = n;
    assert(s@.subrange(0, n as int) =~= s@);
    while i > 0
        invariant
            n == s@.len(),
            i <= n,
            last_index_of(s@, c) == last_index_of(s@.subrange(0, i as int), c),
        decreases i,
    {
        if s.get_char(i - 1) == c {
            assert(s@.subrange(0, i as int).last() == c);
            return string_from(s.substring_char(i, n));
        }
        assert(s@.subrange(0, i as int).drop_last() =~= s@.subrange(0, i - 1));
        i = i - 1;
    }
    string_from(s)
}

/// `s.trim_start_matches(p)`: every leading repetition of `p` removed.
pub open spec fn trim_start_matches(s: Seq<char>, p: Seq<char>) -> Seq<char>
    decreases s.len(),
{
    if p.len() > 0 && p.is_prefix_of(s) {
        trim_start_matches(s.subrange(p.len() as int, s.len() as int), p)
    } else {
        s
    }
}

/// Whether `s` ends with `p`.
pub open spec fn ends_with_spec(s: Seq<char>, p: Seq<char>) -> bool {
    p.len() <= s.len() && s.subrange(s.len() - p.len(), s.len() as int) == p
}

/// `s.trim_end_matches(p)`: every trailing repetition of `p` removed.
pub open spec fn trim_end_matches(s: Seq<char>, p: Seq<char>) -> Seq<char>
    decreases s.len(),
{
    if p.len() > 0 && ends_with_spec(s, p) {
        trim_end_matches(s.subrange(0, s.len() - p.len()), p)
    } else {
        s
    }
}

pub fn trim_start_matches_text(s: &str, p: &str) -> (r: String)
    ensures
        r@ == trim_start_matches(s@, p@),
{
    let m: usize = p.unicode_len();
    let mut cur = string_from(s);
    if m == 0 {
        return cur;
    }
    loop
        invariant
            m == p@.len(),
            m > 0,
            trim_start_matches(cur@, p@) == trim_start_matches(s@, p@),
        decreases cur@.len(),
    {
        if !starts_with(cur.as_str(), p) {
            return cur;
        }
        let n: usize = cur.as_str().unicode_len();
        let rest = string_from(cur.as_str().substring_char(m, n));
        cur = rest;
    }
}

pub fn trim_end_matches_text(s: &str, p: &str) -> (r: String)
    ensures
        r@ == trim_end_matches(s@, p@),
{
    let m: usize = p.unicode_len();
    let mut cur = string_from(s);
    if m == 0 {
        return cur;
    }
    loop
        invariant
            m == p@.len(),
            m > 0,
            trim_end_matches(cur@, p@) == trim_end_matches(s@, p@),
        decreases cur@.len(),
    {
        let n: usize = cur.as_str().unicode_len();
        if m > n || !str_eq(cur.as_str().substring_char(n - m, n), p) {
            return cur;
        }
        let rest = string_from(cur.as_str().substring_char(0, n - m));
        cur = rest;
    }
}

/// ASCII letters made upper-case, every other character kept.
pub open spec fn ascii_uppercase(s: Seq<char>) -> Seq<char> {
    s.map_values(|c: char| if 'a' <= c && c <= 'z' { ((c as u32) - 32) as char } else { c })
}

/// What `str::to_uppercase` gives: Unicode's upper-case mapping of the text.
pub uninterp spec fn unicode_uppercase(s: Seq<char>) -> Seq<char>;

/// Trusted: `str::to_uppercase`. On ASCII text it upper-cases the letters a to z and keeps
/// the rest (std documentation: the mapping agrees with `to_ascii_uppercase` there); on
/// other text the full Unicode mapping is named, not stated.
#[verifier::external_body]
pub(crate) fn to_uppercase(s: &str) -> (r: String)
    ensures
        r@ == unicode_uppercase(s@),
        is_ascii_text(s@) ==> r@ == ascii_uppercase(s@),
{
    s.to_uppercase()
}

/// The part before the first occurrence of `c` and the part after it; all of `s` and
/// nothing where `c` does not occur (`s.splitn(2, c)`).
pub open spec fn split_first(s: Seq<char>, c: char) -> (Seq<char>, Seq<char>) {
    match first_index_of(s, c) {
        Some(k) => (s.subrange(0, k), s.subrange(k + 1, s.len() as int)),
        None => (s, Seq::empty()),
    }
}

/// Index of the first occurrence of `c` in `s`.
pub open spec fn first_index_of(s: Seq<char>, c: char) -> Option<int>
    decreases s.len(),
{
    if s.len() == 0 {
        None
    } else if s[0] == c {
        Some(0)
    } else {
        match first_index_of(s.drop_first(), c) {
            Some(k) => Some(k + 1),
            None => None,
        }
    }
}

pub proof fn lemma_first_index_of_step(s: Seq<char>, c: char, i: int)
    requires
        0 <= i < s.len(),
        forall|j: int| 0 <= j < i ==> s[j] != c,
    ensures
        s[i] == c ==> first_index_of(s, c) == Some(i),
    decreases i,
{
    if i > 0 {
        assert(s.drop_first()[i - 1] == s[i]);
        assert forall|j: int| 0 <= j < i - 1 implies s.drop_first()[j] != c by {
            assert(s.drop_first()[j] == s[j + 1]);
        }
        lemma_first_index_of_step(s.drop_first(), c, i - 1);
    }
}

pub proof fn lemma_first_index_of_none(s: Seq<char>, c: char)
    requires
        forall|j: int| 0 <= j < s.len() ==> s[j] != c,
    ensures
        first_index_of(s, c) is None,
    decreases s.len(),
{
    if s.len() > 0 {
        assert forall|j: int| 0 <= j < s.len() - 1 implies s.drop_first()[j] != c by {
            assert(s.drop_first()[j] == s[j + 1]);
        }
        lemma_first_index_of_none(s.drop_first(), c);
    }
}

/// The two parts of [`split_first`].
pub fn split_first_char(s: &str, c: char) -> (r: (String, String))
    ensures
        r.0@ == split_first(s@, c).0,
        r.1@ == split_first(s@, c).1,
{
    let n: usize = s.unicode_len();
    let mut i: usize = 0;
    while i < n
        invariant
            n == s@.len(),
            i <= n,
            forall|j: int| 0 <= j < i ==> s@[j] != c,
        decreases n - i,
    {
        if s.get_char(i) == c {
            proof {
                lemma_first_index_of_step(s@, c, i as int);
            }
            return (string_from(s.substring_char(0, i)), string_from(s.substring_char(i + 1, n)));
        }
        i = i + 1;
    }
    proof {
        lemma_first_index_of_none(s@, c);
    }
    (string_from(s), String::new())
}

/// The text with every occurrence of a non-empty pattern replaced, matching from the left
/// and not overlapping.
pub open spec fn replace_all(s: Seq<char>, from: Seq<char>, to: Seq<char>) -> Seq<char>
    decreases s.len(),
{
    if from.len() == 0 || s.len() == 0 {
        s
    } else if from.is_prefix_of(s) {
        to + replace_all(s.subrange(from.len() as int, s.len() as int), from, to)
    } else {
        seq![s[0]] + replace_all(s.drop_first(), from, to)
    }
}

/// Whether `p` occurs in `s` at index `i`.
fn occurs_at(s: &str, p: &str, i: usize) -> (r: bool)
    requires
        i <= s@.len(),
    ensures
        r == p@.is_prefix_of(s@.skip(i as int)),
{
    let n: usize = s.unicode_len();
    let m: usize = p.unicode_len();
    if m > n - i {
        return false;
    }
    let mut k: usize = 0;
    while k < m
        invariant
            n == s@.len(),
            m == p@.len(),
            i + m <= n,
            k <= m,
            forall|j: int| 0 <= j < k ==> s@.skip(i as int)[j] == p@[j],
        decreases m - k,
    {
        if s.get_char(i + k) != p.get_char(k) {
            assert(s@.skip(i as int)[k as int] != p@[k as int]);
            return false;
        }
        k = k + 1;
    }
    true
}

/// `str::replace(s, from, to)` for a non-empty pattern: every match, from the left and
/// not overlapping, replaced.
pub fn replace(s: &str, from: &str, to: &str) -> (r: String)
    requires
        from@.len() > 0,
    ensures
        r@ == replace_all(s@, from@, to@),
{
    let n: usize = s.unicode_len();
    let m: usize = from.unicode_len();
    let mut out = String::new();
    let mut i: usize = 0;
    assert(s@.skip(0) =~= s@);
    while i < n
        invariant
            n == s@.len(),
            m == from@.len(),
            m > 0,
            i <= n,
            out@ + replace_all(s@.skip(i as int), from@, to@) == replace_all(s@, from@, to@),
        decreases n - i,
    {
        let ghost rest = s@.skip(i as int);
        if occurs_at(s, from, i) {
            assert(rest.subrange(m as int, rest.len() as int) =~= s@.skip(i + m));
            assert(replace_all(rest, from@, to@) == to@ + replace_all(s@.skip(i + m), from@, to@));
            push_str(&mut out, to);
            assert(out@ + replace_all(s@.skip(i + m), from@, to@) == replace_all(s@, from@, to@));
            i = i + m;
        } else {
            assert(rest.drop_first() =~= s@.skip(i + 1));
            assert(rest[0] == s@[i as int]);
            assert(replace_all(rest, from@, to@) == seq![s@[i as int]] + replace_all(s@.skip(i + 1), from@, to@));
            push_char(&mut out, s.get_char(i));
            assert(out@ + replace_all(s@.skip(i + 1), from@, to@) =~= replace_all(s@, from@, to@));
            i = i + 1;
        }
    }
    assert(s@.skip(n as int).len() == 0);
    assert(out@ + replace_all(s@.skip(n as int), from@, to@) =~= out@);
    out
}

} // verus!
