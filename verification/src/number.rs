//! Decimal integer literals: what they denote and how they are read.

use vstd::prelude::*;
use vstd::string::*;
use vstd::utf8::is_ascii_chars;

verus! {

/// Whether `c` is one of the ten decimal digits.
pub open spec fn is_digit(c: char) -> bool {
    '0' <= c <= '9'
}

/// Whether every character of `s` is a decimal digit.
pub open spec fn all_digits(s: Seq<char>) -> bool {
    forall|i: int| 0 <= i < s.len() ==> is_digit(#[trigger] s[i])
}

/// The number that a run of decimal digits denotes, most significant first.
pub open spec fn digits_value(s: Seq<char>) -> nat
    decreases s.len(),
{
    if s.len() == 0 {
        0
    } else {
        digits_value(s.drop_last()) * 10 + (s.last() as nat - '0' as nat) as nat
    }
}

/// The integer that `s` denotes: a non-empty run of digits, with an optional
/// leading minus sign. Anything else, such as a literal with a fraction or
/// an exponent, denotes no integer.
pub open spec fn integer_of(s: Seq<char>) -> Option<int> {
    if s.len() > 0 && all_digits(s) {
        Some(digits_value(s) as int)
    } else if s.len() > 1 && s[0] == '-' && all_digits(s.skip(1)) {
        Some(-(digits_value(s.skip(1)) as int))
    } else {
        None
    }
}

/// The integer that `s` denotes, where it fits in 64 signed bits.
pub open spec fn i64_of(s: Seq<char>) -> Option<i64> {
    match integer_of(s) {
        Some(v) => if i64::MIN <= v <= i64::MAX {
            Some(v as i64)
        } else {
            None
        },
        None => None,
    }
}

/// A run of digits denotes at least as much as any of its prefixes.
pub proof fn lemma_digits_grow(s: Seq<char>, k: int)
    requires
        all_digits(s),
        0 <= k <= s.len(),
    ensures
        digits_value(s.take(k)) <= digits_value(s),
    decreases s.len() - k,
{
    if k == s.len() {
        assert(s.take(k) =~= s);
    } else {
        lemma_digits_grow(s, k + 1);
        let longer = s.take(k + 1);
        assert(longer.drop_last() =~= s.take(k));
        assert(is_digit(s[k]));
        assert(longer.last() == s[k]);
    }
}

const MAGNITUDE_LIMIT: u64 = 9223372036854775808;

/// Reads a decimal integer literal.
pub fn parse_i64(s: &str) -> (r: Option<i64>)
    ensures
        r == i64_of(s@),
{
    if !s.is_ascii() {
        proof {
            if integer_of(s@) is Some {
                assert forall|i: int| 0 <= i < s@.len() implies '\0' <= #[trigger] s@[i]
                    <= '\u{7f}' by {
                    if s@.len() > 0 && all_digits(s@) {
                        assert(is_digit(s@[i]));
                    } else if i >= 1 {
                        assert(is_digit(s@.skip(1)[i - 1]));
                    }
                }
                assert(is_ascii_chars(s@));
            }
        }
        return None;
    }
    let n: usize = s.unicode_len();
    if n == 0 {
        return None;
    }
    let negative: bool = s.get_ascii(0) == 45u8;
    let start: usize = if negative {
        1
    } else {
        0
    };
    if start == n {
        assert(!is_digit(s@[0]));
        return None;
    }
    let ghost digits = s@.skip(start as int);
    let mut acc: u64 = 0;
    let mut i: usize = start;
    assert(digits.take(0) =~= Seq::<char>::empty());
    while i < n
        invariant
            start <= i <= n,
            n == s@.len(),
            s.is_ascii(),
            digits == s@.skip(start as int),
            all_digits(digits.take(i - start)),
            acc == digits_value(digits.take(i - start)),
            acc <= MAGNITUDE_LIMIT,
            negative == (s@[0] == '-'),
            start == (if negative { 1usize } else { 0usize }),
        decreases n - i,
    {
        let b: u8 = s.get_ascii(i);
        assert(digits[i - start] == s@[i as int]);
        if b < 48 || b > 57 {
            proof {
                assert(!is_digit(s@[i as int]));
                assert(!all_digits(digits));
                if negative {
                    assert(!is_digit(s@[0]));
                } else {
                    assert(digits =~= s@);
                }
            }
            return None;
        }
        let d: u64 = (b - 48) as u64;
        let ghost longer = digits.take(i - start + 1);
        proof {
            assert(longer.drop_last() =~= digits.take(i - start));
            assert(longer.last() == s@[i as int]);
            assert(digits_value(longer) == acc * 10 + d);
            assert forall|k: int| 0 <= k < longer.len() implies is_digit(#[trigger] longer[k]) by {
                if k < i - start {
                    assert(digits.take(i - start)[k] == longer[k]);
                }
            }
        }
        if acc > (MAGNITUDE_LIMIT - d) / 10 {
            proof {
                assert(digits_value(longer) > MAGNITUDE_LIMIT);
                if all_digits(digits) {
                    lemma_digits_grow(digits, i - start + 1);
                }
                if negative {
                    assert(!is_digit(s@[0]));
                } else {
                    assert(digits =~= s@);
                }
            }
            return None;
        }
        acc = acc * 10 + d;
        i = i + 1;
    }
    proof {
        assert(digits.take(n - start) =~= digits);
        if negative {
            assert(!is_digit(s@[0]));
        } else {
            assert(digits =~= s@);
        }
    }
    if negative {
        if acc == MAGNITUDE_LIMIT {
            Some(i64::MIN)
        } else {
            Some(-(acc as i64))
        }
    } else if acc > 9223372036854775807 {
        None
    } else {
        Some(acc as i64)
    }
}

/// The character that writes the digit `d`.
pub open spec fn digit_char(d: nat) -> char {
    if d == 0 {
        '0'
    } else if d == 1 {
        '1'
    } else if d == 2 {
        '2'
    } else if d == 3 {
        '3'
    } else if d == 4 {
        '4'
    } else if d == 5 {
        '5'
    } else if d == 6 {
        '6'
    } else if d == 7 {
        '7'
    } else if d == 8 {
        '8'
    } else {
        '9'
    }
}

/// The decimal digits of `n`, most significant first, without leading zeros.
pub open spec fn nat_text(n: nat) -> Seq<char>
    decreases n,
{
    if n < 10 {
        seq![digit_char(n)]
    } else {
        nat_text(n / 10).push(digit_char(n % 10))
    }
}

/// The decimal literal of `v`: a minus sign before the digits of a negative
/// number.
pub open spec fn int_text(v: int) -> Seq<char> {
    if v < 0 {
        seq!['-'] + nat_text((-v) as nat)
    } else {
        nat_text(v as nat)
    }
}

/// The digits written for `n` are digits, and denote `n`.
pub proof fn lemma_nat_text_reads_back(n: nat)
    ensures
        nat_text(n).len() > 0,
        all_digits(nat_text(n)),
        digits_value(nat_text(n)) == n,
    decreases n,
{
    if n < 10 {
        let t = nat_text(n);
        assert(t.drop_last() =~= Seq::<char>::empty());
        assert(digits_value(t.drop_last()) == 0);
        assert(t.last() == digit_char(n));
    } else {
        lemma_nat_text_reads_back(n / 10);
        let t = nat_text(n);
        assert(t.drop_last() =~= nat_text(n / 10));
        assert(t.last() == digit_char(n % 10));
        assert forall|i: int| 0 <= i < t.len() implies is_digit(#[trigger] t[i]) by {
            if i < t.len() - 1 {
                assert(t[i] == nat_text(n / 10)[i]);
            }
        }
    }
}

/// Reading the literal written for a 64-bit integer gives that integer back.
pub proof fn lemma_int_text_reads_back(v: i64)
    ensures
        i64_of(int_text(v as int)) == Some(v),
{
    if v < 0 {
        let m = (-(v as int)) as nat;
        lemma_nat_text_reads_back(m);
        let t = int_text(v as int);
        assert(t.skip(1) =~= nat_text(m));
        assert(t[0] == '-');
        assert(!is_digit(t[0]));
    } else {
        lemma_nat_text_reads_back(v as nat);
    }
}

fn digit_str(d: u64) -> (r: &'static str)
    requires
        d < 10,
    ensures
        r@ == seq![digit_char(d as nat)],
{
    proof {
        reveal_strlit("0");
        reveal_strlit("1");
        reveal_strlit("2");
        reveal_strlit("3");
        reveal_strlit("4");
        reveal_strlit("5");
        reveal_strlit("6");
        reveal_strlit("7");
        reveal_strlit("8");
        reveal_strlit("9");
    }
    let r = if d == 0 {
        "0"
    } else if d == 1 {
        "1"
    } else if d == 2 {
        "2"
    } else if d == 3 {
        "3"
    } else if d == 4 {
        "4"
    } else if d == 5 {
        "5"
    } else if d == 6 {
        "6"
    } else if d == 7 {
        "7"
    } else if d == 8 {
        "8"
    } else {
        "9"
    };
    assert(r@ =~= seq![digit_char(d as nat)]);
    r
}

/// Writes the decimal digits of `n`.
pub fn format_u64(n: u64) -> (r: String)
    ensures
        r@ == nat_text(n as nat),
{
    let mut rest: u64 = n / 10;
    let mut text: String = String::from_str(digit_str(n % 10));
    while rest > 0
        invariant
            nat_text(n as nat) == (if rest > 0 {
                nat_text(rest as nat) + text@
            } else {
                text@
            }),
        decreases rest,
    {
        let head = String::from_str(digit_str(rest % 10));
        let ghost before = text@;
        text = head.concat(text.as_str());
        proof {
            let r = rest as nat;
            if r < 10 {
                assert(nat_text(r) + before =~= text@);
            } else {
                assert(nat_text(r) + before =~= nat_text(r / 10) + text@);
            }
        }
        rest = rest / 10;
    }
    text
}

/// Writes the decimal literal of `v`.
pub fn format_i64(v: i64) -> (r: String)
    ensures
        r@ == int_text(v as int),
{
    if v < 0 {
        let magnitude: u64 = if v == i64::MIN {
            MAGNITUDE_LIMIT
        } else {
            (-v) as u64
        };
        let digits = format_u64(magnitude);
        proof {
            reveal_strlit("-");
            assert("-"@ =~= seq!['-']);
        }
        String::from_str("-").concat(digits.as_str())
    } else {
        format_u64(v as u64)
    }
}

} // verus!
