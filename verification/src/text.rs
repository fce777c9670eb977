//! Decimal text of integers, in both directions, and the two edits a typed
//! buffer needs.
//!
//! Every integer field of an entity crosses the generic record as decimal
//! text. The functions here fix that text exactly: `i64_text` writes the
//! shortest decimal form with a leading `-` for negative numbers, and
//! `parse_i64` / `parse_i32` read an optional sign followed by one or more
//! ASCII digits, refusing everything else and every value out of range.

use vstd::prelude::*;
use vstd::utf8::is_ascii_chars;

verus! {

/// The texts of a run of strings.
pub open spec fn texts(v: Seq<String>) -> Seq<Seq<char>> {
    Seq::new(v.len(), |i: int| v[i]@)
}

/// True for the ten ASCII digits.
pub open spec fn is_digit(c: char) -> bool {
    '0' <= c <= '9'
}

/// The digit that `c` stands for.
pub open spec fn digit_value(c: char) -> int {
    c as u32 as int - 48
}

/// The character of the digit `d`, for `0 <= d <= 9`.
pub open spec fn digit_char(d: int) -> char {
    if d == 0 {
        '0'
    } else if d == 1 {
        '1'
    } else if d == 2 {
        '2'
    } else if d == 3 {
        '3'
    } else if d == 4 {
        '4'
    } else if d == 5 {
        '5'
    } else if d == 6 {
        '6'
    } else if d == 7 {
        '7'
    } else if d == 8 {
        '8'
    } else {
        '9'
    }
}

/// The decimal digits of `n`, most significant first, without leading zeros.
pub open spec fn digits(n: nat) -> Seq<char>
    decreases n,
{
    if n < 10 {
        seq![digit_char(n as int)]
    } else {
        digits(n / 10).push(digit_char((n % 10) as int))
    }
}

/// The decimal text of `n`: its digits, behind a `-` when it is negative.
pub open spec fn int_text(n: int) -> Seq<char> {
    if n < 0 {
        seq!['-'] + digits((-n) as nat)
    } else {
        digits(n as nat)
    }
}

/// True when every character of `s` is a digit.
pub open spec fn all_digits(s: Seq<char>) -> bool {
    forall|i: int| 0 <= i < s.len() ==> is_digit(#[trigger] s[i])
}

/// The number that a run of digits writes, 0 for the empty run.
pub open spec fn digits_value(s: Seq<char>) -> nat
    decreases s.len(),
{
    if s.len() == 0 {
        0
    } else {
        (digits_value(s.drop_last()) * 10 + digit_value(s.last())) as nat
    }
}

/// The integer that `s` writes: an optional `+` or `-`, then at least one
/// digit and nothing else. `None` for any other text.
pub open spec fn parse_int(s: Seq<char>) -> Option<int> {
    if s.len() == 0 {
        None
    } else if s[0] == '-' {
        let body = s.subrange(1, s.len() as int);
        if body.len() > 0 && all_digits(body) {
            Some(-(digits_value(body) as int))
        } else {
            None
        }
    } else if s[0] == '+' {
        let body = s.subrange(1, s.len() as int);
        if body.len() > 0 && all_digits(body) {
            Some(digits_value(body) as int)
        } else {
            None
        }
    } else if all_digits(s) {
        Some(digits_value(s) as int)
    } else {
        None
    }
}

/// `parse_int`, kept only where the value fits 64 signed bits.
pub open spec fn parse_i64_spec(s: Seq<char>) -> Option<i64> {
    match parse_int(s) {
        Some(v) => if i64::MIN <= v <= i64::MAX {
            Some(v as i64)
        } else {
            None
        },
        None => None,
    }
}

/// `parse_int`, kept only where the value fits 32 signed bits.
pub open spec fn parse_i32_spec(s: Seq<char>) -> Option<i32> {
    match parse_int(s) {
        Some(v) => if i32::MIN <= v <= i32::MAX {
            Some(v as i32)
        } else {
            None
        },
        None => None,
    }
}

/// Every digit character is a digit and stands for the digit it was made from.
pub proof fn lemma_digit_char(d: int)
    requires
        0 <= d <= 9,
    ensures
        is_digit(digit_char(d)),
        digit_value(digit_char(d)) == d,
        digit_char(d) != '-',
        digit_char(d) != '+',
{
}

/// What `digits` writes is a non-empty run of digits whose value is `n`.
pub proof fn lemma_digits(n: nat)
    ensures
        digits(n).len() > 0,
        all_digits(digits(n)),
        digits_value(digits(n)) == n,
        digits(n)[0] != '-',
        digits(n)[0] != '+',
    decreases n,
{
    if n < 10 {
        lemma_digit_char(n as int);
        let s = digits(n);
        assert(s.drop_last() =~= Seq::<char>::empty());
        assert(digits_value(s.drop_last()) == 0);
    } else {
        lemma_digits(n / 10);
        lemma_digit_char((n % 10) as int);
        let head = digits(n / 10);
        let s = digits(n);
        assert(s.drop_last() =~= head);
        assert(s.last() == digit_char((n % 10) as int));
        assert(s[0] == head[0]);
        assert forall|i: int| 0 <= i < s.len() implies is_digit(#[trigger] s[i]) by {
            if i < head.len() {
                assert(s[i] == head[i]);
            }
        }
    }
}

/// Reading back the decimal text of an integer gives that integer.
pub proof fn lemma_parse_int_text(n: int)
    ensures
        parse_int(int_text(n)) == Some(n),
{
    if n < 0 {
        let m = (-n) as nat;
        lemma_digits(m);
        let s = int_text(n);
        assert(s[0] == '-');
        assert(s.subrange(1, s.len() as int) =~= digits(m));
    } else {
        lemma_digits(n as nat);
    }
}

/// A run of digits is worth at least as much as any of its prefixes.
pub proof fn lemma_digits_value_prefix(s: Seq<char>, k: int)
    requires
        all_digits(s),
        0 <= k <= s.len(),
    ensures
        digits_value(s.subrange(0, k)) <= digits_value(s),
    decreases s.len() - k,
{
    if k == s.len() {
        assert(s.subrange(0, k) =~= s);
    } else {
        let t = s.subrange(0, k + 1);
        assert(t.drop_last() =~= s.subrange(0, k));
        assert(is_digit(s[k]));
        assert(t.last() == s[k]);
        assert(digits_value(t) == digits_value(s.subrange(0, k)) * 10 + digit_value(s[k]));
        lemma_digits_value_prefix(s, k + 1);
    }
}

/// Appends `c` to `s`.
///
/// Trusted: wraps `String::push`, which std documents as appending the given
/// character to the end of the string.
#[verifier::external_body]
pub(crate) fn push_char(s: &mut String, c: char)
    ensures
        final(s)@ == old(s)@.push(c),
{
    s.push(c)
}

/// Removes the last character of `s` and returns it, or returns `None` and
/// leaves `s` alone when it is empty.
///
/// Trusted: wraps `String::pop`, which std documents in these words.
#[verifier::external_body]
pub(crate) fn pop_char(s: &mut String) -> (r: Option<char>)
    ensures
        old(s)@.len() == 0 ==> r is None && final(s)@ == old(s)@,
        old(s)@.len() > 0 ==> r == Some(old(s)@.last()) && final(s)@ == old(s)@.drop_last(),
{
    s.pop()
}

fn digit_of(d: u64) -> (c: char)
    requires
        d <= 9,
    ensures
        c == digit_char(d as int),
{
    if d == 0 {
        '0'
    } else if d == 1 {
        '1'
    } else if d == 2 {
        '2'
    } else if d == 3 {
        '3'
    } else if d == 4 {
        '4'
    } else if d == 5 {
        '5'
    } else if d == 6 {
        '6'
    } else if d == 7 {
        '7'
    } else if d == 8 {
        '8'
    } else {
        '9'
    }
}

fn push_digits(s: &mut String, n: u64)
    ensures
        final(s)@ == old(s)@ + digits(n as nat),
    decreases n,
{
    if n < 10 {
        push_char(s, digit_of(n));
        assert(s@ =~= old(s)@ + digits(n as nat));
    } else {
        push_digits(s, n / 10);
        push_char(s, digit_of(n % 10));
        assert(s@ =~= old(s)@ + digits(n as nat));
    }
}

/// The decimal text of `n`.
pub fn i64_text(n: i64) -> (r: String)
    ensures
        r@ == int_text(n as int),
{
    let mut s = String::new();
    if n < 0 {
        push_char(&mut s, '-');
        let m: u64 = if n == i64::MIN {
            9223372036854775808u64
        } else {
            (-n) as u64
        };
        push_digits(&mut s, m);
        assert(s@ =~= int_text(n as int));
    } else {
        push_digits(&mut s, n as u64);
        assert(s@ =~= int_text(n as int));
    }
    s
}

/// The decimal text of `n`.
pub fn i32_text(n: i32) -> (r: String)
    ensures
        r@ == int_text(n as int),
{
    i64_text(n as i64)
}

/// Reads the digits of `s` from position `from` on. `None` where that tail is
/// empty, holds anything but digits, or is worth more than `limit`.
fn parse_digits(s: &str, from: usize, limit: u64) -> (r: Option<u64>)
    requires
        is_ascii_chars(s@),
        from <= s@.len(),
        9 <= limit <= 9223372036854775808u64,
    ensures
        ({
            let body = s@.subrange(from as int, s@.len() as int);
            match r {
                Some(v) => body.len() > 0 && all_digits(body) && digits_value(body) == v && v
                    <= limit,
                None => body.len() == 0 || !all_digits(body) || digits_value(body) > limit,
            }
        }),
{
    let n = s.unicode_len();
    let ghost body = s@.subrange(from as int, s@.len() as int);
    if from == n {
        return None;
    }
    let mut acc: u64 = 0;
    let mut i: usize = from;
    assert(body.subrange(0, 0) =~= Seq::<char>::empty());
    while i < n
        invariant
            is_ascii_chars(s@),
            n == s@.len(),
            from <= i <= n,
            body == s@.subrange(from as int, s@.len() as int),
            all_digits(body.subrange(0, i - from)),
            acc == digits_value(body.subrange(0, i - from)),
            acc <= limit,
            9 <= limit <= 9223372036854775808u64,
        decreases n - i,
    {
        let b = s.get_ascii(i);
        let ghost c = s@[i as int];
        assert(body[i - from] == c);
        assert('\0' <= c <= '\u{7f}');
        if b < 48 || b > 57 {
            assert(!is_digit(c));
            return None;
        }
        assert(is_digit(c));
        let d: u64 = (b - 48) as u64;
        assert(d == digit_value(c));
        let ghost next = body.subrange(0, i + 1 - from);
        proof {
            assert(next.drop_last() =~= body.subrange(0, i - from));
            assert(next.last() == c);
            assert forall|j: int| 0 <= j < next.len() implies is_digit(#[trigger] next[j]) by {
                if j < i - from {
                    assert(body.subrange(0, i - from)[j] == next[j]);
                }
            }
            assert(digits_value(next) == acc * 10 + d);
        }
        if acc > (limit - d) / 10 {
            proof {
                assert(acc * 10 + d > limit);
                if all_digits(body) {
                    lemma_digits_value_prefix(body, i + 1 - from);
                }
            }
            return None;
        }
        acc = acc * 10 + d;
        i = i + 1;
    }
    assert(body.subrange(0, i - from) =~= body);
    Some(acc)
}

/// Reads a signed 64-bit integer from its decimal text.
pub fn parse_i64(s: &str) -> (r: Option<i64>)
    ensures
        r == parse_i64_spec(s@),
{
    if !s.is_ascii() {
        proof {
            lemma_not_ascii_not_number(s@);
        }
        return None;
    }
    let n = s.unicode_len();
    if n == 0 {
        return None;
    }
    let first = s.get_ascii(0);
    assert('\0' <= s@[0] <= '\u{7f}');
    if first == 45 {
        assert(s@[0] == '-');
        match parse_digits(s, 1, 9223372036854775808u64) {
            Some(v) => {
                if v == 9223372036854775808u64 {
                    Some(i64::MIN)
                } else {
                    Some(-(v as i64))
                }
            },
            None => None,
        }
    } else if first == 43 {
        assert(s@[0] == '+');
        match parse_digits(s, 1, 9223372036854775807u64) {
            Some(v) => Some(v as i64),
            None => None,
        }
    } else {
        assert(s@[0] != '-' && s@[0] != '+');
        assert(s@.subrange(0, s@.len() as int) =~= s@);
        match parse_digits(s, 0, 9223372036854775807u64) {
            Some(v) => Some(v as i64),
            None => None,
        }
    }
}

/// Reads a signed 32-bit integer from its decimal text.
pub fn parse_i32(s: &str) -> (r: Option<i32>)
    ensures
        r == parse_i32_spec(s@),
{
    match parse_i64(s) {
        Some(v) => {
            if v < -2147483648i64 || v > 2147483647i64 {
                None
            } else {
                Some(v as i32)
            }
        },
        None => None,
    }
}

/// A text with a character outside ASCII writes no integer.
pub proof fn lemma_not_ascii_not_number(s: Seq<char>)
    requires
        !is_ascii_chars(s),
    ensures
        parse_int(s) is None,
{
    let i = choose|i: int| 0 <= i < s.len() && !('\0' <= #[trigger] s[i] <= '\u{7f}');
    assert(!is_digit(s[i]));
    if i > 0 {
        let body = s.subrange(1, s.len() as int);
        assert(body[i - 1] == s[i]);
        assert(!is_digit(body[i - 1]));
    }
}

} // verus!
