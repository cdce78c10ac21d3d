//! Character-sequence helpers: scanning for separators, splitting into
//! tokens, and decimal digits, with their specification-level models.

use vstd::prelude::*;
use vstd::string::StrSliceExecFns;

verus! {

/// The index of the first occurrence of `c` in `s` at or after `from`, or
/// `s.len()` when there is none.
pub open spec fn next_at(s: Seq<char>, c: char, from: int) -> int
    decreases s.len() - from,
{
    if from < 0 || from >= s.len() {
        s.len() as int
    } else if s[from] == c {
        from
    } else {
        next_at(s, c, from + 1)
    }
}

/// What `next_at` returns: the first occurrence of `c` at or after `from`.
pub proof fn lemma_next_at(s: Seq<char>, c: char, from: int)
    requires
        0 <= from <= s.len(),
    ensures
        from <= next_at(s, c, from) <= s.len(),
        next_at(s, c, from) < s.len() ==> s[next_at(s, c, from)] == c,
        forall|k: int| from <= k < next_at(s, c, from) ==> s[k] != c,
    decreases s.len() - from,
{
    if from < s.len() && s[from] != c {
        lemma_next_at(s, c, from + 1);
    }
}

/// `next_at` is determined by a witness: if no `c` lies in `[from, t)` and
/// either `t` is the end or carries `c`, then `next_at` is exactly `t`.
pub proof fn lemma_next_at_determined(s: Seq<char>, c: char, from: int, t: int)
    requires
        0 <= from <= t <= s.len(),
        forall|k: int| from <= k < t ==> s[k] != c,
        t < s.len() ==> s[t] == c,
    ensures
        next_at(s, c, from) == t,
    decreases t - from,
{
    if from < t {
        lemma_next_at_determined(s, c, from + 1, t);
    }
}

/// Finds the first occurrence of `c` in `v` at or after `from`; `v.len()`
/// when there is none.
pub fn find_char(v: &Vec<char>, c: char, from: usize) -> (r: usize)
    requires
        from <= v@.len(),
    ensures
        r == next_at(v@, c, from as int),
{
    let mut i: usize = from;
    while i < v.len()
        invariant
            from <= i <= v@.len(),
            next_at(v@, c, from as int) == next_at(v@, c, i as int),
        decreases v@.len() - i,
    {
        if v[i] == c {
            return i;
        }
        assert(next_at(v@, c, i as int) == next_at(v@, c, i + 1));
        i = i + 1;
    }
    i
}

/// The characters of `s`, as an indexable vector.
pub fn chars_of(s: &str) -> (r: Vec<char>)
    ensures
        r@ == s@,
{
    let n = s.unicode_len();
    let mut r: Vec<char> = Vec::new();
    let mut i: usize = 0;
    while i < n
        invariant
            i <= n,
            n == s@.len(),
            r@ == s@.take(i as int),
        decreases n - i,
    {
        r.push(s.get_char(i));
        assert(r@ =~= s@.take(i + 1));
        i = i + 1;
    }
    assert(r@ =~= s@);
    r
}

/// Whether `c` is an ASCII decimal digit.
pub open spec fn is_dec_digit(c: char) -> bool {
    48 <= c as u32 <= 57
}

/// The numeric value of a decimal digit character.
pub open spec fn digit_val(c: char) -> int {
    c as u32 - 48
}

/// The character for a decimal digit value.
pub open spec fn digit_char(d: int) -> char {
    if d == 0 {
        '0'
    } else if d == 1 {
        '1'
    } else if d == 2 {
        '2'
    } else if d == 3 {
        '3'
    } else if d == 4 {
        '4'
    } else if d == 5 {
        '5'
    } else if d == 6 {
        '6'
    } else if d == 7 {
        '7'
    } else if d == 8 {
        '8'
    } else {
        '9'
    }
}

/// The integer denoted by a sequence of decimal digit characters, most
/// significant first.
pub open spec fn spec_digits_value(s: Seq<char>) -> int
    decreases s.len(),
{
    if s.len() == 0 {
        0
    } else {
        spec_digits_value(s.drop_last()) * 10 + digit_val(s.last())
    }
}

/// A digit string denotes a non-negative value.
pub proof fn lemma_digits_value_nonneg(s: Seq<char>)
    requires
        all_dec_digits(s),
    ensures
        spec_digits_value(s) >= 0,
    decreases s.len(),
{
    if s.len() > 0 {
        assert(all_dec_digits(s.drop_last())) by {
            assert(forall|k: int| 0 <= k < s.len() - 1 ==> s.drop_last()[k] == s[k]);
        }
        lemma_digits_value_nonneg(s.drop_last());
    }
}

/// A digit string denotes at least what any of its prefixes denotes.
pub proof fn lemma_digits_value_prefix(s: Seq<char>, k: int)
    requires
        0 <= k <= s.len(),
        all_dec_digits(s),
    ensures
        spec_digits_value(s) >= spec_digits_value(s.take(k)),
    decreases s.len() - k,
{
    if k < s.len() {
        lemma_digits_value_prefix(s, k + 1);
        assert(s.take(k + 1).drop_last() =~= s.take(k));
        assert(s.take(k + 1).last() == s[k]);
        lemma_digits_value_nonneg(s.take(k));
    } else {
        assert(s.take(k) =~= s);
    }
}

/// Whether every character of `s` is a decimal digit.
pub open spec fn all_dec_digits(s: Seq<char>) -> bool {
    forall|k: int| 0 <= k < s.len() ==> is_dec_digit(s[k])
}

/// The digit part of a number string: everything after an optional leading
/// `'+'` sign.
pub open spec fn spec_u8_digits(s: Seq<char>) -> Seq<char> {
    if s.len() > 0 && s[0] == '+' {
        s.skip(1)
    } else {
        s
    }
}

/// The value that a string of the grammar `['+'] digit+` denotes, when it
/// fits in a `u8`; `None` on any other string. This is the grammar of
/// `u8::from_str`.
pub open spec fn spec_parse_u8(s: Seq<char>) -> Option<u8> {
    let digits = spec_u8_digits(s);
    if digits.len() > 0 && all_dec_digits(digits) && spec_digits_value(digits) <= 255 {
        Some(spec_digits_value(digits) as u8)
    } else {
        None
    }
}

/// Parses `v[from..to]` as a `u8` of the grammar `['+'] digit+`.
#[verifier::loop_isolation(false)]
pub fn parse_u8_range(v: &Vec<char>, from: usize, to: usize) -> (r: Option<u8>)
    requires
        from <= to <= v@.len(),
    ensures
        r == spec_parse_u8(v@.subrange(from as int, to as int)),
{
    let ghost s = v@.subrange(from as int, to as int);
    let mut i: usize = from;
    if i < to && v[i] == '+' {
        i = i + 1;
    }
    let ghost digits = spec_u8_digits(s);
    assert(digits =~= v@.subrange(i as int, to as int));
    if i == to {
        return None;
    }
    let mut acc: u32 = 0;
    let mut j: usize = i;
    while j < to
        invariant
            i <= j <= to <= v@.len(),
            digits =~= v@.subrange(i as int, to as int),
            forall|k: int| i <= k < j ==> is_dec_digit(v@[k]),
            acc == spec_digits_value(v@.subrange(i as int, j as int)),
            acc <= 255,
        decreases to - j,
    {
        let c = v[j];
        let u = c as u32;
        if u < 48 || u > 57 {
            proof {
                assert(0 <= j - i < digits.len());
                assert(!is_dec_digit(digits[j - i]));
                assert(!all_dec_digits(spec_u8_digits(s)));
            }
            return None;
        }
        let d = u - 48;
        acc = acc * 10 + d;
        proof {
            assert(v@.subrange(i as int, j + 1).drop_last() =~= v@.subrange(i as int, j as int));
            assert(v@.subrange(i as int, j + 1).last() == v@[j as int]);
        }
        if acc > 255 {
            proof {
                assert(digits.take(j + 1 - i) =~= v@.subrange(i as int, j + 1));
                if all_dec_digits(spec_u8_digits(s)) {
                    lemma_digits_value_prefix(digits, j + 1 - i);
                    assert(spec_digits_value(spec_u8_digits(s)) > 255);
                }
            }
            return None;
        }
        j = j + 1;
    }
    proof {
        assert(digits =~= v@.subrange(i as int, j as int));
        assert(all_dec_digits(spec_u8_digits(s))) by {
            assert(forall|k: int| 0 <= k < digits.len() ==> is_dec_digit(#[trigger] digits[k]));
        }
    }
    Some(acc as u8)
}

/// The canonical decimal rendering of a `u8`: no sign, no leading zeros.
pub open spec fn spec_u8_dec(n: u8) -> Seq<char> {
    if n < 10 {
        seq![digit_char(n as int)]
    } else if n < 100 {
        seq![digit_char(n as int / 10), digit_char(n as int % 10)]
    } else {
        seq![
            digit_char(n as int / 100),
            digit_char((n as int / 10) % 10),
            digit_char(n as int % 10),
        ]
    }
}

/// Appends one decimal digit to `s`.
fn push_digit(s: &mut String, d: u8)
    requires
        d < 10,
    ensures
        final(s)@ == old(s)@ + seq![digit_char(d as int)],
{
    proof {
        reveal_strlit("0");
        reveal_strlit("1");
        reveal_strlit("2");
        reveal_strlit("3");
        reveal_strlit("4");
        reveal_strlit("5");
        reveal_strlit("6");
        reveal_strlit("7");
        reveal_strlit("8");
        reveal_strlit("9");
    }
    match d {
        0 => s.append("0"),
        1 => s.append("1"),
        2 => s.append("2"),
        3 => s.append("3"),
        4 => s.append("4"),
        5 => s.append("5"),
        6 => s.append("6"),
        7 => s.append("7"),
        8 => s.append("8"),
        _ => s.append("9"),
    }
    assert(final(s)@ =~= old(s)@ + seq![digit_char(d as int)]);
}

/// Appends the canonical decimal rendering of `n` to `s`.
pub fn append_u8_dec(s: &mut String, n: u8)
    ensures
        final(s)@ == old(s)@ + spec_u8_dec(n),
{
    if n < 10 {
        push_digit(s, n);
    } else if n < 100 {
        push_digit(s, n / 10);
        push_digit(s, n % 10);
    } else {
        push_digit(s, n / 100);
        push_digit(s, (n / 10) % 10);
        push_digit(s, n % 10);
    }
    assert(final(s)@ =~= old(s)@ + spec_u8_dec(n));
}

/// Every character of a canonical decimal rendering is a digit.
pub proof fn lemma_u8_dec_digits(n: u8)
    ensures
        spec_u8_dec(n).len() > 0,
        all_dec_digits(spec_u8_dec(n)),
{
    assert forall|d: int| 0 <= d <= 9 implies is_dec_digit(digit_char(d)) by {
    }
}

/// The canonical decimal rendering of `n` parses back to `n`.
pub proof fn lemma_u8_dec_parses_back(n: u8)
    ensures
        spec_parse_u8(spec_u8_dec(n)) == Some(n),
{
    lemma_u8_dec_digits(n);
    let s = spec_u8_dec(n);
    assert(s[0] != '+');
    assert(spec_u8_digits(s) == s);
    assert(all_dec_digits(s));
    assert(spec_digits_value(Seq::<char>::empty()) == 0);
    if n < 10 {
        assert(s.drop_last() =~= Seq::<char>::empty());
        assert(spec_digits_value(s) == digit_val(digit_char(n as int)));
    } else if n < 100 {
        let a = seq![digit_char(n as int / 10)];
        assert(s.drop_last() =~= a);
        assert(a.drop_last() =~= Seq::<char>::empty());
        assert(spec_digits_value(a) == digit_val(digit_char(n as int / 10)));
        assert(spec_digits_value(s) == digit_val(digit_char(n as int / 10)) * 10 + digit_val(
            digit_char(n as int % 10),
        ));
        assert(n as int == (n as int / 10) * 10 + (n as int % 10));
    } else {
        let a = seq![digit_char(n as int / 100)];
        let b = seq![digit_char(n as int / 100), digit_char((n as int / 10) % 10)];
        assert(s.drop_last() =~= b);
        assert(b.drop_last() =~= a);
        assert(a.drop_last() =~= Seq::<char>::empty());
        assert(spec_digits_value(a) == digit_val(digit_char(n as int / 100)));
        assert(spec_digits_value(b) == digit_val(digit_char(n as int / 100)) * 10 + digit_val(
            digit_char((n as int / 10) % 10),
        ));
        assert(spec_digits_value(s) == spec_digits_value(b) * 10 + digit_val(
            digit_char(n as int % 10),
        ));
        assert(n as int / 100 == (n as int / 10) / 10);
        assert(n as int == ((n as int / 10) / 10 * 10 + (n as int / 10) % 10) * 10 + (
        n as int % 10));
    }
}

/// The tokens of `s` split on every single space, from position `start`
/// onward: a trailing or doubled space yields an empty token, and an empty
/// string yields one empty token.
pub open spec fn spec_split_spaces_from(s: Seq<char>, start: int) -> Seq<Seq<char>>
    decreases s.len() - start,
{
    let i = next_at(s, ' ', start);
    if start <= i < s.len() {
        seq![s.subrange(start, i)] + spec_split_spaces_from(s, i + 1)
    } else {
        seq![s.subrange(if 0 <= start <= s.len() {
            start
        } else {
            0
        }, s.len() as int)]
    }
}

/// The tokens of `s` split on every single space.
pub open spec fn spec_split_spaces(s: Seq<char>) -> Seq<Seq<char>> {
    spec_split_spaces_from(s, 0)
}

/// Splits `s` on every single space into owned tokens.
pub fn split_spaces(s: &str) -> (r: Vec<String>)
    ensures
        r.deep_view() == spec_split_spaces(s@),
{
    let v = chars_of(s);
    let n = v.len();
    let mut r: Vec<String> = Vec::new();
    let mut start: usize = 0;
    loop
        invariant
            start <= n,
            n == s@.len(),
            v@ == s@,
            r.deep_view() + spec_split_spaces_from(s@, start as int) == spec_split_spaces(s@),
        decreases n - start,
    {
        let i = find_char(&v, ' ', start);
        proof {
            lemma_next_at(s@, ' ', start as int);
        }
        let token = String::from_str(s.substring_char(start, i));
        assert(token@ == s@.subrange(start as int, i as int));
        let ghost old_r = r.deep_view();
        r.push(token);
        assert(r.deep_view() =~= old_r + seq![token@]);
        if i == n {
            assert(s@.subrange(start as int, i as int) =~= s@.subrange(
                start as int,
                s@.len() as int,
            ));
            assert(r.deep_view() =~= spec_split_spaces(s@));
            return r;
        }
        start = i + 1;
        assert(r.deep_view() + spec_split_spaces_from(s@, start as int) =~= spec_split_spaces(
            s@,
        ));
    }
}

/// The string that a token sequence denotes when the tokens are joined
/// with single spaces.
pub open spec fn spec_join_spaces(ts: Seq<Seq<char>>) -> Seq<char>
    decreases ts.len(),
{
    if ts.len() == 0 {
        Seq::empty()
    } else if ts.len() == 1 {
        ts[0]
    } else {
        ts[0] + seq![' '] + spec_join_spaces(ts.drop_first())
    }
}

/// Splitting from any position yields at least one token.
pub proof fn lemma_split_spaces_from_len(s: Seq<char>, start: int)
    ensures
        spec_split_spaces_from(s, start).len() >= 1,
{
}

/// Splitting on spaces is lossless and keeps the order: joining the
/// tokens back with single spaces reproduces the suffix that was split.
pub proof fn lemma_split_spaces_from_rejoin(s: Seq<char>, start: int)
    requires
        0 <= start <= s.len(),
    ensures
        spec_join_spaces(spec_split_spaces_from(s, start)) == s.subrange(start, s.len() as int),
    decreases s.len() - start,
{
    let i = next_at(s, ' ', start);
    lemma_next_at(s, ' ', start);
    if start <= i < s.len() {
        lemma_split_spaces_from_rejoin(s, i + 1);
        lemma_split_spaces_from_len(s, i + 1);
        let rest = spec_split_spaces_from(s, i + 1);
        let ts = seq![s.subrange(start, i)] + rest;
        assert(ts.len() >= 2);
        assert(ts.drop_first() =~= rest);
        assert(spec_join_spaces(ts) == s.subrange(start, i) + seq![' '] + s.subrange(
            i + 1,
            s.len() as int,
        ));
        assert(s.subrange(start, i) + seq![' '] + s.subrange(i + 1, s.len() as int) =~= s.subrange(
            start,
            s.len() as int,
        ));
    }
}

/// Splitting any string on spaces is lossless and keeps the order:
/// joining the tokens back with single spaces reproduces the string.
pub proof fn lemma_split_spaces_rejoin(s: Seq<char>)
    ensures
        spec_join_spaces(spec_split_spaces(s)) == s,
{
    lemma_split_spaces_from_rejoin(s, 0);
    assert(s.subrange(0, s.len() as int) =~= s);
}

/// The tokens of `s` split on at most the first two spaces: one, two or
/// three parts, the third carrying any further spaces verbatim.
pub open spec fn spec_splitn3(s: Seq<char>) -> Seq<Seq<char>> {
    let i = next_at(s, ' ', 0);
    if i >= s.len() {
        seq![s]
    } else {
        let j = next_at(s, ' ', i + 1);
        if j >= s.len() {
            seq![s.subrange(0, i), s.subrange(i + 1, s.len() as int)]
        } else {
            seq![s.subrange(0, i), s.subrange(i + 1, j), s.subrange(j + 1, s.len() as int)]
        }
    }
}

} // verus!
