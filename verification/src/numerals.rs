//! Decimal numerals: writing an integer as text and reading one back.

use vstd::prelude::*;

verus! {

/// The character that writes the digit `d`.
pub open spec fn digit_char(d: int) -> char {
    if d == 0 {
        '0'
    } else if d == 1 {
        '1'
    } else if d == 2 {
        '2'
    } else if d == 3 {
        '3'
    } else if d == 4 {
        '4'
    } else if d == 5 {
        '5'
    } else if d == 6 {
        '6'
    } else if d == 7 {
        '7'
    } else if d == 8 {
        '8'
    } else {
        '9'
    }
}

/// The digits of `n` in base ten, most significant first, without leading
/// zeros; zero is written `0`.
pub open spec fn digits(n: nat) -> Seq<char>
    decreases n,
{
    if n < 10 {
        seq![digit_char(n as int)]
    } else {
        digits(n / 10).push(digit_char((n % 10) as int))
    }
}

/// The decimal numeral of `v`: a minus sign for a negative number, then the
/// digits of its magnitude.
pub open spec fn decimal(v: int) -> Seq<char> {
    if v < 0 {
        seq!['-'] + digits((-v) as nat)
    } else {
        digits(v as nat)
    }
}

/// The value of a decimal digit, where `c` is one.
pub open spec fn digit_value(c: char) -> Option<nat> {
    if c == '0' {
        Some(0)
    } else if c == '1' {
        Some(1)
    } else if c == '2' {
        Some(2)
    } else if c == '3' {
        Some(3)
    } else if c == '4' {
        Some(4)
    } else if c == '5' {
        Some(5)
    } else if c == '6' {
        Some(6)
    } else if c == '7' {
        Some(7)
    } else if c == '8' {
        Some(8)
    } else if c == '9' {
        Some(9)
    } else {
        None
    }
}

/// Every character of `s` is a decimal digit.
pub open spec fn all_digits(s: Seq<char>) -> bool {
    forall|i: int| 0 <= i < s.len() ==> (#[trigger] digit_value(s[i])) is Some
}

/// The number that the digits of `s` write in base ten.
pub open spec fn digits_value(s: Seq<char>) -> nat
    decreases s.len(),
{
    if s.len() == 0 {
        0
    } else {
        digits_value(s.drop_last()) * 10 + match digit_value(s.last()) {
            Some(d) => d,
            None => 0,
        }
    }
}

/// A text without the plus sign that may open it.
pub open spec fn without_plus(s: Seq<char>) -> Seq<char> {
    if s.len() > 0 && s[0] == '+' {
        s.skip(1)
    } else {
        s
    }
}

/// What a run of digits reads as an unsigned 32-bit number: the value of
/// one or more decimal digits, where it fits. Anything else reads as no
/// number.
pub open spec fn read_digits(body: Seq<char>) -> Option<u32> {
    if body.len() > 0 && all_digits(body) && digits_value(body) <= u32::MAX {
        Some(digits_value(body) as u32)
    } else {
        None
    }
}

/// What a text reads as an unsigned 32-bit number: an optional plus sign,
/// then one or more decimal digits whose value fits. Anything else reads as
/// no number.
pub open spec fn read_u32(s: Seq<char>) -> Option<u32> {
    read_digits(without_plus(s))
}

/// A numeral is worth at least as much as any of its prefixes.
pub proof fn lemma_digits_value_grows(s: Seq<char>, j: int)
    requires
        0 <= j <= s.len(),
    ensures
        digits_value(s.take(j)) <= digits_value(s),
    decreases s.len() - j,
{
    if j == s.len() {
        assert(s.take(j) =~= s);
    } else {
        lemma_digits_value_grows(s, j + 1);
        assert(s.take(j + 1).drop_last() =~= s.take(j));
    }
}

/// Reading the decimal numeral of a number that fits 32 bits gives the
/// number back.
pub proof fn lemma_read_what_was_written(n: u32)
    ensures
        read_u32(decimal(n as int)) == Some(n),
{
    let written = digits(n as nat);
    lemma_digits_round_trip(n as nat);
    lemma_digits_open_with_a_digit(n as nat);
    assert(digit_value('+') is None);
    assert(without_plus(written) == written);
}

/// The first character of a numeral is a digit.
proof fn lemma_digits_open_with_a_digit(n: nat)
    ensures
        digits(n).len() > 0,
        digit_value(digits(n)[0]) is Some,
    decreases n,
{
    if n >= 10 {
        lemma_digits_open_with_a_digit(n / 10);
    }
}

/// The digits of a number are digits, and their value is the number.
pub proof fn lemma_digits_round_trip(n: nat)
    ensures
        digits(n).len() > 0,
        all_digits(digits(n)),
        digits_value(digits(n)) == n,
    decreases n,
{
    if n < 10 {
        let s = digits(n);
        assert(s.drop_last() =~= Seq::<char>::empty());
        assert(digits_value(s.drop_last()) == 0);
    } else {
        lemma_digits_round_trip(n / 10);
        let s = digits(n);
        assert(s.drop_last() =~= digits(n / 10));
        assert forall|i: int| 0 <= i < s.len() implies (#[trigger] digit_value(s[i])) is Some by {
            if i < s.len() - 1 {
                assert(s[i] == digits(n / 10)[i]);
            }
        }
    }
}

fn digit_text(d: u64) -> (s: &'static str)
    requires
        d < 10,
    ensures
        s@ == seq![digit_char(d as int)],
{
    proof {
        reveal_strlit("0");
        reveal_strlit("1");
        reveal_strlit("2");
        reveal_strlit("3");
        reveal_strlit("4");
        reveal_strlit("5");
        reveal_strlit("6");
        reveal_strlit("7");
        reveal_strlit("8");
        reveal_strlit("9");
    }
    let s = if d == 0 {
        "0"
    } else if d == 1 {
        "1"
    } else if d == 2 {
        "2"
    } else if d == 3 {
        "3"
    } else if d == 4 {
        "4"
    } else if d == 5 {
        "5"
    } else if d == 6 {
        "6"
    } else if d == 7 {
        "7"
    } else if d == 8 {
        "8"
    } else {
        "9"
    };
    assert(s@ =~= seq![digit_char(d as int)]);
    s
}

fn append_digits(out: &mut String, n: u64)
    ensures
        final(out)@ == old(out)@ + digits(n as nat),
    decreases n,
{
    if n >= 10 {
        append_digits(out, n / 10);
    }
    out.append(digit_text(n % 10));
    proof {
        if n >= 10 {
            assert(old(out)@ + digits((n / 10) as nat) + seq![digit_char((n % 10) as int)]
                =~= old(out)@ + digits(n as nat));
        }
    }
}

/// The decimal numeral of `v`.
pub fn decimal_text(v: i64) -> (out: String)
    ensures
        out@ == decimal(v as int),
{
    let mut out = String::new();
    if v < 0 {
        out.append("-");
        proof {
            reveal_strlit("-");
            assert("-"@ =~= seq!['-']);
        }
        let magnitude: u64 = if v == i64::MIN {
            9223372036854775808u64
        } else {
            (-v) as u64
        };
        append_digits(&mut out, magnitude);
    } else {
        append_digits(&mut out, v as u64);
    }
    out
}

fn digit_of(c: char) -> (d: Option<u64>)
    ensures
        d is Some <==> digit_value(c) is Some,
        d matches Some(v) ==> v < 10 && digit_value(c) == Some(v as nat),
{
    if c == '0' {
        Some(0)
    } else if c == '1' {
        Some(1)
    } else if c == '2' {
        Some(2)
    } else if c == '3' {
        Some(3)
    } else if c == '4' {
        Some(4)
    } else if c == '5' {
        Some(5)
    } else if c == '6' {
        Some(6)
    } else if c == '7' {
        Some(7)
    } else if c == '8' {
        Some(8)
    } else if c == '9' {
        Some(9)
    } else {
        None
    }
}

/// Reads the part of `chars` from `from` up to `to` as an unsigned 32-bit
/// number.
pub fn read_u32_between(chars: &Vec<char>, from: usize, to: usize) -> (number: Option<u32>)
    requires
        from <= to <= chars@.len(),
    ensures
        number == read_u32(chars@.subrange(from as int, to as int)),
{
    let ghost s = chars@.subrange(from as int, to as int);
    let first: usize = if from < to && chars[from] == '+' {
        from + 1
    } else {
        from
    };
    let ghost body = chars@.subrange(first as int, to as int);
    proof {
        if first == from {
            assert(body =~= s);
            if s.len() > 0 {
                assert(s[0] == chars@[from as int]);
            }
        } else {
            assert(s[0] == '+');
            assert(body =~= s.skip(1));
        }
        assert(body == without_plus(s));
    }
    if first == to {
        return None;
    }
    let mut value: u64 = 0;
    let mut i: usize = first;
    while i < to
        invariant
            first <= i <= to <= chars@.len(),
            body == chars@.subrange(first as int, to as int),
            value <= u32::MAX,
            value == digits_value(body.take(i - first)),
            all_digits(body.take(i - first)),
            s == chars@.subrange(from as int, to as int),
            read_u32(s) == read_digits(body),
        decreases to - i,
    {
        let ghost before = body.take(i - first);
        let ghost upto = body.take(i - first + 1);
        proof {
            assert(upto.drop_last() =~= before);
            assert(upto.last() == chars@[i as int]);
        }
        match digit_of(chars[i]) {
            None => {
                proof {
                    assert(digit_value(body[i - first]) is None);
                }
                return None;
            },
            Some(d) => {
                let next = value * 10 + d;
                proof {
                    assert(digits_value(upto) == next);
                    assert forall|k: int| 0 <= k < upto.len() implies (#[trigger] digit_value(
                        upto[k],
                    )) is Some by {
                        if k < upto.len() - 1 {
                            assert(upto[k] == before[k]);
                        }
                    }
                }
                if next > 4294967295u64 {
                    proof {
                        lemma_digits_value_grows(body, i - first + 1);
                    }
                    return None;
                }
                value = next;
            },
        }
        i = i + 1;
    }
    proof {
        assert(body.take(to - first) =~= body);
    }
    Some(value as u32)
}

} // verus!
