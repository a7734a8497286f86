//! Decimal text for user identifiers carried in session tokens.

use vstd::prelude::*;

verus! {

/// Whether `c` is one of the ASCII digits `0` to `9`.
pub open spec fn is_digit(c: char) -> bool {
    '0' <= c && c <= '9'
}

/// The value of an ASCII digit.
pub open spec fn digit_value(c: char) -> int {
    (c as int) - ('0' as int)
}

/// Every character of `s` is an ASCII digit.
pub open spec fn all_digits(s: Seq<char>) -> bool {
    forall|i: int| 0 <= i < s.len() ==> #[trigger] is_digit(s[i])
}

/// The value of a run of digits, most significant first.
pub open spec fn digits_value(s: Seq<char>) -> nat
    decreases s.len(),
{
    if s.len() == 0 {
        0
    } else {
        digits_value(s.drop_last()) * 10 + (digit_value(s.last()) as nat)
    }
}

/// The integer that `s` writes: an optional `+` or `-` followed by one or more
/// digits; `None` for any other text.
pub open spec fn signed_decimal(s: Seq<char>) -> Option<int> {
    if s.len() >= 2 && s[0] == '-' && all_digits(s.drop_first()) {
        Some(-(digits_value(s.drop_first()) as int))
    } else if s.len() >= 2 && s[0] == '+' && all_digits(s.drop_first()) {
        Some(digits_value(s.drop_first()) as int)
    } else if s.len() >= 1 && all_digits(s) {
        Some(digits_value(s) as int)
    } else {
        None
    }
}

/// The `i64` that `s` writes in decimal, where it fits.
pub open spec fn i64_of(s: Seq<char>) -> Option<i64> {
    match signed_decimal(s) {
        Some(v) => if i64::MIN <= v <= i64::MAX {
            Some(v as i64)
        } else {
            None
        },
        None => None,
    }
}

proof fn lemma_digits_prefix_le(s: Seq<char>, i: int)
    requires
        all_digits(s),
        0 <= i <= s.len(),
    ensures
        digits_value(s.take(i)) <= digits_value(s),
    decreases s.len(),
{
    if i < s.len() {
        let t = s.drop_last();
        assert(t.take(i) =~= s.take(i));
        assert(all_digits(t)) by {
            assert forall|k: int| 0 <= k < t.len() implies #[trigger] is_digit(t[k]) by {
                assert(is_digit(s[k]));
            }
        }
        lemma_digits_prefix_le(t, i);
    } else {
        assert(s.take(i) =~= s);
    }
}

/// The character of a digit value below ten.
pub open spec fn digit_char(d: nat) -> char {
    if d == 0 { '0' } else if d == 1 { '1' } else if d == 2 { '2' } else if d == 3 { '3' }
    else if d == 4 { '4' } else if d == 5 { '5' } else if d == 6 { '6' } else if d == 7 { '7' }
    else if d == 8 { '8' } else { '9' }
}

/// The shortest decimal digits of `m`.
pub open spec fn digits_text(m: nat) -> Seq<char>
    decreases m,
{
    if m < 10 {
        seq![digit_char(m)]
    } else {
        digits_text(m / 10).push(digit_char(m % 10))
    }
}

/// How `n` is written in decimal: a `-` for a negative value, then its digits.
pub open spec fn decimal_text(n: int) -> Seq<char> {
    if n < 0 {
        seq!['-'] + digits_text((-n) as nat)
    } else {
        digits_text(n as nat)
    }
}

fn digit_str(d: u64) -> (r: &'static str)
    requires
        d < 10,
    ensures
        r@ == seq![digit_char(d as nat)],
{
    proof {
        reveal_strlit("0");
        reveal_strlit("1");
        reveal_strlit("2");
        reveal_strlit("3");
        reveal_strlit("4");
        reveal_strlit("5");
        reveal_strlit("6");
        reveal_strlit("7");
        reveal_strlit("8");
        reveal_strlit("9");
    }
    let r = if d == 0 { "0" } else if d == 1 { "1" } else if d == 2 { "2" } else if d == 3 { "3" }
    else if d == 4 { "4" } else if d == 5 { "5" } else if d == 6 { "6" } else if d == 7 { "7" }
    else if d == 8 { "8" } else { "9" };
    assert(r@ =~= seq![digit_char(d as nat)]);
    r
}

fn push_digits(out: &mut String, m: u64)
    ensures
        final(out)@ == old(out)@ + digits_text(m as nat),
    decreases m,
{
    if m >= 10 {
        push_digits(out, m / 10);
    }
    out.append(digit_str(m % 10));
    proof {
        if m >= 10 {
            assert(digits_text(m as nat) == digits_text((m / 10) as nat).push(digit_char((m % 10) as nat)));
        } else {
            assert(digits_text(m as nat) == seq![digit_char(m as nat)]);
        }
    }
    assert(out@ =~= old(out)@ + digits_text(m as nat));
}

/// Writes `n` in decimal, as `i64`'s `Display` does: a `-` for a negative
/// value, then its digits without leading zeros.
pub fn format_i64(n: i64) -> (r: String)
    ensures
        r@ == decimal_text(n as int),
{
    let mut out = String::new();
    if n < 0 {
        proof {
            reveal_strlit("-");
        }
        out.append("-");
        let magnitude: u64 = ((-(n + 1)) as u64) + 1;
        push_digits(&mut out, magnitude);
        assert(out@ =~= seq!['-'] + digits_text((-(n as int)) as nat));
    } else {
        push_digits(&mut out, n as u64);
        assert(out@ =~= digits_text(n as nat));
    }
    out
}

proof fn lemma_digit_char(d: nat)
    requires
        d < 10,
    ensures
        is_digit(digit_char(d)),
        digit_value(digit_char(d)) == d,
{
}

proof fn lemma_digits_text(m: nat)
    ensures
        digits_text(m).len() >= 1,
        all_digits(digits_text(m)),
        digits_value(digits_text(m)) == m,
    decreases m,
{
    let s = digits_text(m);
    if m < 10 {
        lemma_digit_char(m);
        assert(s.drop_last() =~= Seq::<char>::empty());
        assert(digits_value(s.drop_last()) == 0);
        assert(s.last() == digit_char(m));
        assert(is_digit(s[0]));
    } else {
        lemma_digits_text(m / 10);
        lemma_digit_char(m % 10);
        let t = digits_text(m / 10);
        assert(s.drop_last() =~= t);
        assert(s.last() == digit_char(m % 10));
        assert(digits_value(s) == digits_value(t) * 10 + (digit_value(s.last()) as nat));
        assert(m == (m / 10) * 10 + m % 10);
        assert forall|i: int| 0 <= i < s.len() implies #[trigger] is_digit(s[i]) by {
            if i < t.len() {
                assert(s[i] == t[i]);
            }
        }
    }
}

/// Reading back what `format_i64` writes gives the same number: a user id put
/// into a token's subject is the id that `parse_i64` reads out of it.
pub proof fn lemma_decimal_round_trip(n: i64)
    ensures
        i64_of(decimal_text(n as int)) == Some(n),
{
    if n < 0 {
        let m = (-(n as int)) as nat;
        lemma_digits_text(m);
        let s = decimal_text(n as int);
        assert(s.drop_first() =~= digits_text(m));
    } else {
        lemma_digits_text(n as nat);
        assert(is_digit(digits_text(n as nat)[0]));
    }
}

/// Reads an `i64` written in decimal, as `str::parse::<i64>` does: an
/// optional sign, then at least one digit, and a value in range.
pub fn parse_i64(s: &str) -> (r: Option<i64>)
    ensures
        r == i64_of(s@),
{
    let n = s.unicode_len();
    if n == 0 {
        return None;
    }
    let first = s.get_char(0);
    let start: usize = if first == '-' || first == '+' { 1 } else { 0 };
    if start == n {
        proof {
            assert(!is_digit(s@[0]));
        }
        return None;
    }
    let ghost body = s@.subrange(start as int, n as int);
    // the magnitude read so far; at most 2^63, the largest that may fit
    let mut acc: u64 = 0;
    let mut i: usize = start;
    while i < n
        invariant
            start <= i <= n,
            n == s@.len(),
            first == s@[0],
            start == 1 <==> (first == '-' || first == '+'),
            start <= 1,
            body == s@.subrange(start as int, n as int),
            all_digits(body.take(i - start)),
            acc == digits_value(body.take(i - start)),
            acc <= 9223372036854775808u64,
        decreases n - i,
    {
        let c = s.get_char(i);
        if !('0' <= c && c <= '9') {
            proof {
                assert(body[i - start] == c);
                assert(!is_digit(body[i - start]));
                assert(!all_digits(body));
                if start == 1 {
                    assert(body =~= s@.drop_first());
                    assert(!is_digit(s@[0]));
                } else {
                    assert(body =~= s@);
                }
            }
            return None;
        }
        let d = (c as u32 - '0' as u32) as u64;
        proof {
            assert(body.take(i + 1 - start).drop_last() =~= body.take(i - start));
            assert(body.take(i + 1 - start).last() == c);
            assert(all_digits(body.take(i + 1 - start))) by {
                let t = body.take(i + 1 - start);
                assert forall|k: int| 0 <= k < t.len() implies #[trigger] is_digit(t[k]) by {
                    if k < i - start {
                        assert(t[k] == body.take(i - start)[k]);
                    }
                }
            }
        }
        if acc > 922337203685477580u64 || (acc == 922337203685477580u64 && d > 8) {
            proof {
                let t = body.take(i + 1 - start);
                assert(digits_value(t) > 9223372036854775808);
                if all_digits(body) {
                    lemma_digits_prefix_le(body, i + 1 - start);
                }
                if start == 1 {
                    assert(body =~= s@.drop_first());
                    assert(!is_digit(s@[0]));
                } else {
                    assert(body =~= s@);
                }
            }
            return None;
        }
        acc = acc * 10 + d;
        i = i + 1;
    }
    proof {
        assert(body.take(n - start) =~= body);
        if start == 1 {
            assert(body =~= s@.drop_first());
            assert(!is_digit(s@[0]));
        } else {
            assert(body =~= s@);
        }
    }
    if first == '-' {
        if acc == 9223372036854775808u64 {
            Some(i64::MIN)
        } else {
            Some(-(acc as i64))
        }
    } else if acc == 9223372036854775808u64 {
        None
    } else {
        Some(acc as i64)
    }
}

} // verus!
