//! Decimal notation of integers, as it appears inside cache keys and as the
//! key-value store writes its counters.

use vstd::prelude::*;
use vstd::string::{StrSliceExecFns, StringSliceAdditionalSpecFns};
use vstd::utf8::encode_utf8;

verus! {

/// The character that writes one decimal digit.
pub open spec fn digit_char(d: int) -> char {
    if d == 0 {
        '0'
    } else if d == 1 {
        '1'
    } else if d == 2 {
        '2'
    } else if d == 3 {
        '3'
    } else if d == 4 {
        '4'
    } else if d == 5 {
        '5'
    } else if d == 6 {
        '6'
    } else if d == 7 {
        '7'
    } else if d == 8 {
        '8'
    } else {
        '9'
    }
}

/// Whether a character is one of `0` to `9`.
pub open spec fn is_digit(c: char) -> bool {
    exists|d: int| 0 <= d < 10 && c == #[trigger] digit_char(d)
}

/// Decimal notation of a natural number: most significant digit first, no
/// leading zero, `0` for zero.
pub open spec fn nat_text(n: nat) -> Seq<char>
    decreases n,
{
    if n < 10 {
        seq![digit_char(n as int)]
    } else {
        nat_text(n / 10).push(digit_char((n % 10) as int))
    }
}

/// Decimal notation of an integer: a minus sign before the digits of a
/// negative number.
pub open spec fn int_text(n: int) -> Seq<char> {
    if n < 0 {
        seq!['-'] + nat_text((-n) as nat)
    } else {
        nat_text(n as nat)
    }
}

/// Every decimal notation is a non-empty run of digits.
pub proof fn lemma_nat_text_digits(n: nat)
    ensures
        nat_text(n).len() >= 1,
        forall|i: int| 0 <= i < nat_text(n).len() ==> is_digit(#[trigger] nat_text(n)[i]),
    decreases n,
{
    if n < 10 {
        assert(is_digit(digit_char(n as int)));
    } else {
        lemma_nat_text_digits(n / 10);
        assert(is_digit(digit_char((n % 10) as int)));
    }
}

/// Numbers of two or more digits are exactly those from ten on.
pub proof fn lemma_nat_text_len(n: nat)
    ensures
        nat_text(n).len() == 1 <==> n < 10,
    decreases n,
{
    if n >= 10 {
        lemma_nat_text_digits(n / 10);
    }
}

/// Two natural numbers with the same decimal notation are the same number.
pub proof fn lemma_nat_text_injective(a: nat, b: nat)
    requires
        nat_text(a) == nat_text(b),
    ensures
        a == b,
    decreases a,
{
    lemma_nat_text_len(a);
    lemma_nat_text_len(b);
    if a >= 10 {
        assert(b >= 10);
        let pa = nat_text(a / 10);
        let pb = nat_text(b / 10);
        let la = digit_char((a % 10) as int);
        let lb = digit_char((b % 10) as int);
        assert(nat_text(a) == pa.push(la));
        assert(nat_text(b) == pb.push(lb));
        assert(pa.push(la).drop_last() == pa);
        assert(pb.push(lb).drop_last() == pb);
        assert(pa.push(la).last() == la);
        assert(pb.push(lb).last() == lb);
        assert(pa == pb);
        assert(la == lb);
        lemma_nat_text_injective(a / 10, b / 10);
        assert(a % 10 == b % 10);
        assert(a == 10 * (a / 10) + a % 10);
        assert(b == 10 * (b / 10) + b % 10);
    } else {
        assert(b < 10);
        assert(nat_text(a)[0] == digit_char(a as int));
        assert(nat_text(b)[0] == digit_char(b as int));
    }
}

/// A minus sign is no digit.
pub proof fn lemma_minus_is_no_digit()
    ensures
        !is_digit('-'),
{
}

/// Two integers with the same decimal notation are the same integer.
pub proof fn lemma_int_text_injective(a: int, b: int)
    requires
        int_text(a) == int_text(b),
    ensures
        a == b,
{
    let ta = nat_text((if a < 0 { -a } else { a }) as nat);
    let tb = nat_text((if b < 0 { -b } else { b }) as nat);
    lemma_nat_text_digits((if a < 0 { -a } else { a }) as nat);
    lemma_nat_text_digits((if b < 0 { -b } else { b }) as nat);
    lemma_minus_is_no_digit();
    if a < 0 && b < 0 {
        assert((seq!['-'] + ta).subrange(1, 1 + ta.len() as int) == ta);
        assert((seq!['-'] + tb).subrange(1, 1 + tb.len() as int) == tb);
        lemma_nat_text_injective((-a) as nat, (-b) as nat);
    } else if a < 0 {
        assert((seq!['-'] + ta)[0] == '-');
        assert(is_digit(tb[0]));
    } else if b < 0 {
        assert((seq!['-'] + tb)[0] == '-');
        assert(is_digit(ta[0]));
    } else {
        lemma_nat_text_injective(a as nat, b as nat);
    }
}

/// The one-character string of a decimal digit.
fn digit_str(d: u64) -> (s: &'static str)
    requires
        d < 10,
    ensures
        s@ == seq![digit_char(d as int)],
{
    proof {
        reveal_strlit("0");
        reveal_strlit("1");
        reveal_strlit("2");
        reveal_strlit("3");
        reveal_strlit("4");
        reveal_strlit("5");
        reveal_strlit("6");
        reveal_strlit("7");
        reveal_strlit("8");
        reveal_strlit("9");
    }
    let s = if d == 0 {
        "0"
    } else if d == 1 {
        "1"
    } else if d == 2 {
        "2"
    } else if d == 3 {
        "3"
    } else if d == 4 {
        "4"
    } else if d == 5 {
        "5"
    } else if d == 6 {
        "6"
    } else if d == 7 {
        "7"
    } else if d == 8 {
        "8"
    } else {
        "9"
    };
    assert(s@ =~= seq![digit_char(d as int)]);
    s
}

/// Writes a number in decimal notation.
pub fn decimal_string(n: u64) -> (s: String)
    ensures
        s@ == nat_text(n as nat),
    decreases n,
{
    if n < 10 {
        String::from_str(digit_str(n))
    } else {
        let mut s = decimal_string(n / 10);
        s.append(digit_str(n % 10));
        assert(s@ =~= nat_text((n / 10) as nat).push(digit_char((n % 10) as int)));
        s
    }
}

/// Number of bytes that a text takes in UTF-8.
pub open spec fn byte_len(text: Seq<char>) -> nat {
    encode_utf8(text).len()
}

/// Counts the bytes that a text takes in UTF-8.
pub fn byte_length(text: &str) -> (n: usize)
    ensures
        n == byte_len(text@),
{
    text.as_bytes().len()
}

/// The digit that a character writes: 0 for a character that is no digit.
pub open spec fn digit_value(c: char) -> int {
    if c == '1' {
        1
    } else if c == '2' {
        2
    } else if c == '3' {
        3
    } else if c == '4' {
        4
    } else if c == '5' {
        5
    } else if c == '6' {
        6
    } else if c == '7' {
        7
    } else if c == '8' {
        8
    } else if c == '9' {
        9
    } else {
        0
    }
}

/// The number that a run of digits writes, read from the left.
pub open spec fn digits_value(digits: Seq<char>) -> int
    decreases digits.len(),
{
    if digits.len() == 0 {
        0
    } else {
        digits_value(digits.drop_last()) * 10 + digit_value(digits.last())
    }
}

/// The decimal notation of a number writes that number.
pub proof fn lemma_digits_value_of_nat_text(n: nat)
    ensures
        digits_value(nat_text(n)) == n,
    decreases n,
{
    if n < 10 {
        let text = nat_text(n);
        assert(text.drop_last() =~= Seq::<char>::empty());
        assert(digits_value(text.drop_last()) == 0);
        assert(text.last() == digit_char(n as int));
    } else {
        let text = nat_text(n);
        lemma_digits_value_of_nat_text(n / 10);
        assert(text.drop_last() =~= nat_text(n / 10));
        assert(text.last() == digit_char((n % 10) as int));
    }
}

/// The number written grows with every digit read.
pub proof fn lemma_digits_value_grows(digits: Seq<char>, k: int)
    requires
        0 <= k <= digits.len(),
    ensures
        0 <= digits_value(digits.subrange(0, k)) <= digits_value(digits),
    decreases digits.len() - k,
{
    lemma_digits_value_nonnegative(digits.subrange(0, k));
    if k < digits.len() {
        lemma_digits_value_grows(digits, k + 1);
        let longer = digits.subrange(0, k + 1);
        assert(longer.drop_last() =~= digits.subrange(0, k));
    } else {
        assert(digits.subrange(0, k) =~= digits);
    }
}

/// No run of digits writes a negative number.
pub proof fn lemma_digits_value_nonnegative(digits: Seq<char>)
    ensures
        digits_value(digits) >= 0,
    decreases digits.len(),
{
    if digits.len() > 0 {
        lemma_digits_value_nonnegative(digits.drop_last());
    }
}

/// Reads one decimal digit.
fn digit_of(c: char) -> (d: Option<u64>)
    ensures
        match d {
            Some(v) => v < 10 && c == digit_char(v as int) && digit_value(c) == v,
            None => !is_digit(c),
        },
{
    if c == '0' {
        Some(0)
    } else if c == '1' {
        Some(1)
    } else if c == '2' {
        Some(2)
    } else if c == '3' {
        Some(3)
    } else if c == '4' {
        Some(4)
    } else if c == '5' {
        Some(5)
    } else if c == '6' {
        Some(6)
    } else if c == '7' {
        Some(7)
    } else if c == '8' {
        Some(8)
    } else if c == '9' {
        Some(9)
    } else {
        None
    }
}

/// Whether `text` is the decimal notation of a 64-bit signed integer.
pub open spec fn is_int_text(text: Seq<char>) -> bool {
    exists|n: int| i64::MIN <= n <= i64::MAX && #[trigger] int_text(n) == text
}

/// What the notation of an integer looks like: a minus sign exactly for a
/// negative number, then the digits of its magnitude.
pub proof fn lemma_int_text_shape(n: int)
    ensures
        int_text(n).len() >= 1,
        n < 0 <==> int_text(n)[0] == '-',
        n < 0 ==> int_text(n).subrange(1, int_text(n).len() as int) == nat_text((-n) as nat),
        n >= 0 ==> int_text(n) == nat_text(n as nat),
{
    let magnitude = (if n < 0 { -n } else { n }) as nat;
    lemma_nat_text_digits(magnitude);
    lemma_minus_is_no_digit();
    if n < 0 {
        assert(int_text(n).subrange(1, int_text(n).len() as int) =~= nat_text(magnitude));
    } else {
        assert(is_digit(nat_text(magnitude)[0]));
    }
}

/// Reads an integer from its decimal notation. Only the notation that
/// `int_text` writes is read: no plus sign, no leading zero, no space.
pub fn parse_int(text: &str) -> (parsed: Option<i64>)
    ensures
        match parsed {
            Some(n) => int_text(n as int) == text@,
            None => !is_int_text(text@),
        },
{
    let len = text.unicode_len();
    if len == 0 {
        proof {
            assert forall|n: int| int_text(n) != text@ by {
                lemma_int_text_shape(n);
            }
        }
        return None;
    }
    let negative = text.get_char(0) == '-';
    let start: usize = if negative {
        1
    } else {
        0
    };
    if start == len {
        proof {
            assert forall|n: int| int_text(n) != text@ by {
                lemma_int_text_shape(n);
                lemma_nat_text_digits((if n < 0 { -n } else { n }) as nat);
            }
        }
        return None;
    }
    let ghost digits = text@.subrange(start as int, len as int);
    let limit: u64 = 9223372036854775808;
    let mut acc: u64 = 0;
    let mut i: usize = start;
    while i < len
        invariant
            start <= i <= len,
            len == text@.len(),
            negative == (text@[0] == '-'),
            start == (if negative { 1usize } else { 0usize }),
            digits == text@.subrange(start as int, len as int),
            acc == digits_value(digits.subrange(0, i - start)),
            acc <= limit,
            limit == 9223372036854775808,
        decreases len - i,
    {
        let c = text.get_char(i);
        let ghost before = digits.subrange(0, i - start);
        let ghost longer = digits.subrange(0, i - start + 1);
        proof {
            assert(longer.drop_last() =~= before);
            assert(longer.last() == c);
        }
        match digit_of(c) {
            None => {
                proof {
                    assert forall|n: int| int_text(n) != text@ by {
                        lemma_int_text_shape(n);
                        let magnitude = (if n < 0 { -n } else { n }) as nat;
                        lemma_nat_text_digits(magnitude);
                        if int_text(n) == text@ {
                            assert(nat_text(magnitude) == digits);
                            assert(is_digit(nat_text(magnitude)[i - start]));
                        }
                    }
                }
                return None;
            },
            Some(d) => {
                if acc > (limit - d) / 10 {
                    proof {
                        assert(digits_value(longer) > limit);
                        lemma_digits_value_grows(digits, i - start + 1);
                        assert forall|n: int| i64::MIN <= n <= i64::MAX implies int_text(n)
                            != text@ by {
                            lemma_int_text_shape(n);
                            let magnitude = (if n < 0 { -n } else { n }) as nat;
                            lemma_digits_value_of_nat_text(magnitude);
                            if int_text(n) == text@ {
                                assert(nat_text(magnitude) == digits);
                            }
                        }
                    }
                    return None;
                }
                acc = acc * 10 + d;
            },
        }
        i = i + 1;
    }
    proof {
        assert(digits.subrange(0, len - start) =~= digits);
    }
    let candidate: i64 = if negative {
        if acc == limit {
            i64::MIN
        } else {
            -(acc as i64)
        }
    } else {
        if acc > 9223372036854775807 {
            proof {
                assert forall|n: int| i64::MIN <= n <= i64::MAX implies int_text(n) != text@ by {
                    lemma_int_text_shape(n);
                    let magnitude = (if n < 0 { -n } else { n }) as nat;
                    lemma_digits_value_of_nat_text(magnitude);
                    if int_text(n) == text@ {
                        assert(nat_text(magnitude) == digits);
                    }
                }
            }
            return None;
        }
        acc as i64
    };
    let canonical = decimal_of(candidate);
    if canonical == String::from_str(text) {
        Some(candidate)
    } else {
        proof {
            assert forall|n: int| i64::MIN <= n <= i64::MAX implies int_text(n) != text@ by {
                lemma_int_text_shape(n);
                let magnitude = (if n < 0 { -n } else { n }) as nat;
                lemma_digits_value_of_nat_text(magnitude);
                if int_text(n) == text@ {
                    assert(nat_text(magnitude) == digits);
                    assert(n == candidate);
                }
            }
        }
        None
    }
}

/// Writes an integer in decimal notation.
pub fn decimal_of(n: i64) -> (s: String)
    ensures
        s@ == int_text(n as int),
{
    if n < 0 {
        let magnitude: u64 = ((-(n + 1)) as u64) + 1;
        let mut s = String::from_str("-");
        s.append(decimal_string(magnitude).as_str());
        proof {
            reveal_strlit("-");
            assert(s@ =~= int_text(n as int));
        }
        s
    } else {
        decimal_string(n as u64)
    }
}

} // verus!
