//! Signed decimal integers: their text, and the integer that a text denotes.

use vstd::prelude::*;
use vstd::string::*;

verus! {

/// Whether `c` is one of the digits `0` to `9`.
pub open spec fn is_digit(c: char) -> bool {
    0x30 <= c as u32 <= 0x39
}

/// The number that the digit `c` stands for.
pub open spec fn digit_value(c: char) -> int {
    c as u32 as int - 0x30
}

/// The digit that stands for `d`, for `d` from 0 to 9.
pub open spec fn digit_char(d: int) -> char {
    if d == 0 {
        '0'
    } else if d == 1 {
        '1'
    } else if d == 2 {
        '2'
    } else if d == 3 {
        '3'
    } else if d == 4 {
        '4'
    } else if d == 5 {
        '5'
    } else if d == 6 {
        '6'
    } else if d == 7 {
        '7'
    } else if d == 8 {
        '8'
    } else {
        '9'
    }
}

/// Whether every character of `s` is a digit.
pub open spec fn all_digits(s: Seq<char>) -> bool {
    forall|i: int| 0 <= i < s.len() ==> is_digit(#[trigger] s[i])
}

/// The number that the digits `s` denote in base ten, the first digit being
/// the most significant; 0 for the empty sequence.
pub open spec fn digits_value(s: Seq<char>) -> int
    decreases s.len(),
{
    if s.len() == 0 {
        0
    } else {
        10 * digits_value(s.drop_last()) + digit_value(s.last())
    }
}

/// The integer that `s` denotes: an optional sign, `+` or `-`, then one or
/// more digits and nothing else, with a value that a signed 64-bit integer
/// holds. `None` for every other text.
pub open spec fn parse_integer(s: Seq<char>) -> Option<int> {
    let signed = s.len() > 0 && (s[0] == '-' || s[0] == '+');
    let negative = s.len() > 0 && s[0] == '-';
    let body = if signed {
        s.skip(1)
    } else {
        s
    };
    let value = if negative {
        -digits_value(body)
    } else {
        digits_value(body)
    };
    if body.len() > 0 && all_digits(body) && i64::MIN <= value <= i64::MAX {
        Some(value)
    } else {
        None
    }
}

/// The digits of `n` in base ten, without leading zeros.
pub open spec fn nat_decimal(n: nat) -> Seq<char>
    decreases n,
{
    if n < 10 {
        seq![digit_char(n as int)]
    } else {
        nat_decimal(n / 10).push(digit_char((n % 10) as int))
    }
}

/// The decimal text of `n`: a `-` for a negative number, then its digits.
pub open spec fn decimal(n: int) -> Seq<char> {
    if n < 0 {
        seq!['-'] + nat_decimal((-n) as nat)
    } else {
        nat_decimal(n as nat)
    }
}

/// Digits denote a number that is not negative, and no prefix of them
/// denotes a greater one.
pub proof fn lemma_digits_value_grows(s: Seq<char>, k: int)
    requires
        all_digits(s),
        0 <= k <= s.len(),
    ensures
        0 <= digits_value(s.take(k)) <= digits_value(s),
    decreases s.len() - k,
{
    if k == s.len() {
        assert(s.take(k) =~= s);
        lemma_digits_value_nonnegative(s);
    } else {
        let rest = s.drop_last();
        assert(is_digit(s.last()));
        assert(all_digits(rest)) by {
            assert forall|i: int| 0 <= i < rest.len() implies is_digit(#[trigger] rest[i]) by {
                assert(rest[i] == s[i]);
            }
        }
        lemma_digits_value_grows(rest, k);
        assert(rest.take(k) =~= s.take(k));
    }
}

/// Digits denote a number that is not negative.
pub proof fn lemma_digits_value_nonnegative(s: Seq<char>)
    requires
        all_digits(s),
    ensures
        0 <= digits_value(s),
    decreases s.len(),
{
    if s.len() > 0 {
        let rest = s.drop_last();
        assert(is_digit(s.last()));
        assert forall|i: int| 0 <= i < rest.len() implies is_digit(#[trigger] rest[i]) by {
            assert(rest[i] == s[i]);
        }
        lemma_digits_value_nonnegative(rest);
    }
}

/// The decimal digits of `n` are digits, at least one, and denote `n`.
pub proof fn lemma_nat_decimal_denotes(n: nat)
    ensures
        nat_decimal(n).len() > 0,
        all_digits(nat_decimal(n)),
        digits_value(nat_decimal(n)) == n,
    decreases n,
{
    if n < 10 {
        let s = nat_decimal(n);
        assert(s.len() == 1);
        assert(s.drop_last().len() == 0);
        assert(digits_value(s) == 10 * digits_value(s.drop_last()) + digit_value(s.last()));
    } else {
        let head = nat_decimal(n / 10);
        let s = head.push(digit_char((n % 10) as int));
        lemma_nat_decimal_denotes(n / 10);
        assert(s.drop_last() =~= head);
        assert(all_digits(s)) by {
            assert forall|i: int| 0 <= i < s.len() implies is_digit(#[trigger] s[i]) by {
                if i < head.len() {
                    assert(s[i] == head[i]);
                }
            }
        }
        assert(digits_value(s) == 10 * digits_value(s.drop_last()) + digit_value(s.last()));
    }
}

/// The decimal text of a 64-bit integer denotes that integer.
pub proof fn lemma_parse_decimal(n: int)
    requires
        i64::MIN <= n <= i64::MAX,
    ensures
        parse_integer(decimal(n)) == Some(n),
{
    if n < 0 {
        let digits = nat_decimal((-n) as nat);
        lemma_nat_decimal_denotes((-n) as nat);
        assert(decimal(n)[0] == '-');
        assert(decimal(n).skip(1) =~= digits);
    } else {
        let digits = nat_decimal(n as nat);
        lemma_nat_decimal_denotes(n as nat);
        assert(is_digit(digits[0]));
    }
}

/// A decimal text begins with `-` or a digit, and ends with a digit.
pub proof fn lemma_decimal_ends(n: int)
    ensures
        decimal(n).len() > 0,
        decimal(n)[0] == '-' || is_digit(decimal(n)[0]),
        is_digit(decimal(n).last()),
{
    if n < 0 {
        lemma_nat_decimal_denotes((-n) as nat);
        let digits = nat_decimal((-n) as nat);
        assert(decimal(n).last() == digits.last());
    } else {
        lemma_nat_decimal_denotes(n as nat);
        let digits = nat_decimal(n as nat);
        assert(is_digit(digits[0]));
    }
}

/// The integer that the characters of `chars` from `lo` up to `hi` denote,
/// if they denote one.
pub fn parse_integer_between(chars: &Vec<char>, lo: usize, hi: usize) -> (r: Option<i64>)
    requires
        lo <= hi <= chars@.len(),
    ensures
        match r {
            Some(n) => parse_integer(chars@.subrange(lo as int, hi as int)) == Some(n as int),
            None => parse_integer(chars@.subrange(lo as int, hi as int)) is None,
        },
{
    let ghost text = chars@.subrange(lo as int, hi as int);
    if lo == hi {
        return None;
    }
    let first = chars[lo];
    assert(first == text[0]);
    let negative = first == '-';
    let start: usize = if first == '-' || first == '+' {
        lo + 1
    } else {
        lo
    };
    let ghost body = chars@.subrange(start as int, hi as int);
    assert(body =~= if start > lo {
        text.skip(1)
    } else {
        text
    });
    if start == hi {
        return None;
    }
    let limit: u64 = if negative {
        0x8000_0000_0000_0000u64
    } else {
        0x7fff_ffff_ffff_ffffu64
    };
    let mut acc: u64 = 0;
    let mut i: usize = start;
    while i < hi
        invariant
            start <= i <= hi <= chars@.len(),
            text == chars@.subrange(lo as int, hi as int),
            text.len() > 0,
            negative == (text[0] == '-'),
            (start > lo) == (text[0] == '-' || text[0] == '+'),
            body == chars@.subrange(start as int, hi as int),
            body == if start > lo {
                text.skip(1)
            } else {
                text
            },
            all_digits(body.take(i - start)),
            acc == digits_value(body.take(i - start)),
            acc <= limit,
            limit == if negative {
                0x8000_0000_0000_0000u64
            } else {
                0x7fff_ffff_ffff_ffffu64
            },
        decreases hi - i,
    {
        let c = chars[i];
        let u: u32 = c as u32;
        assert(c == body[i - start]);
        if u < 0x30 || u > 0x39 {
            return None;
        }
        let d: u64 = (u - 0x30) as u64;
        let ghost longer = body.take(i - start + 1);
        proof {
            assert(longer.drop_last() =~= body.take(i - start));
            assert(longer.last() == c);
            assert forall|j: int| 0 <= j < longer.len() implies is_digit(#[trigger] longer[j]) by {
                if j < i - start {
                    assert(longer[j] == body.take(i - start)[j]);
                }
            }
            assert(digits_value(longer) == 10 * acc + d);
        }
        if acc > (limit - d) / 10 {
            proof {
                if all_digits(body) {
                    lemma_digits_value_grows(body, i - start + 1);
                }
            }
            return None;
        }
        acc = acc * 10 + d;
        i += 1;
    }
    assert(body.take(hi - start) =~= body);
    if negative {
        if acc == 0x8000_0000_0000_0000u64 {
            Some(i64::MIN)
        } else {
            Some(-(acc as i64))
        }
    } else {
        Some(acc as i64)
    }
}

/// The text of one digit.
fn digit_text(d: u64) -> (r: &'static str)
    requires
        d < 10,
    ensures
        r@ == seq![digit_char(d as int)],
{
    proof {
        reveal_strlit("0");
        reveal_strlit("1");
        reveal_strlit("2");
        reveal_strlit("3");
        reveal_strlit("4");
        reveal_strlit("5");
        reveal_strlit("6");
        reveal_strlit("7");
        reveal_strlit("8");
        reveal_strlit("9");
    }
    let r = if d == 0 {
        "0"
    } else if d == 1 {
        "1"
    } else if d == 2 {
        "2"
    } else if d == 3 {
        "3"
    } else if d == 4 {
        "4"
    } else if d == 5 {
        "5"
    } else if d == 6 {
        "6"
    } else if d == 7 {
        "7"
    } else if d == 8 {
        "8"
    } else {
        "9"
    };
    assert(r@ =~= seq![digit_char(d as int)]);
    r
}

/// Appends the decimal digits of `n` to `out`.
pub fn push_digits(out: &mut String, n: u64)
    ensures
        final(out)@ == old(out)@ + nat_decimal(n as nat),
    decreases n,
{
    if n >= 10 {
        push_digits(out, n / 10);
    }
    out.append(digit_text(n % 10));
    assert(final(out)@ =~= old(out)@ + nat_decimal(n as nat));
}

/// The decimal text of `n`.
pub fn decimal_text(n: i64) -> (r: String)
    ensures
        r@ == decimal(n as int),
{
    let mut out = String::new();
    if n < 0 {
        proof {
            reveal_strlit("-");
        }
        out.append("-");
        let magnitude: u64 = if n == i64::MIN {
            0x8000_0000_0000_0000u64
        } else {
            (-n) as u64
        };
        push_digits(&mut out, magnitude);
        assert(out@ =~= decimal(n as int));
    } else {
        push_digits(&mut out, n as u64);
        assert(out@ =~= decimal(n as int));
    }
    out
}

} // verus!
