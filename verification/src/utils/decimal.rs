//! Decimal text of integers, as the public views of the entities carry ids.

use vstd::prelude::*;
use vstd::string::*;

verus! {

/// The character of a decimal digit.
pub open spec fn digit_char(d: nat) -> char {
    if d == 0 {
        '0'
    } else if d == 1 {
        '1'
    } else if d == 2 {
        '2'
    } else if d == 3 {
        '3'
    } else if d == 4 {
        '4'
    } else if d == 5 {
        '5'
    } else if d == 6 {
        '6'
    } else if d == 7 {
        '7'
    } else if d == 8 {
        '8'
    } else {
        '9'
    }
}

/// The decimal digits of a natural number, most significant first, without
/// leading zeros.
pub open spec fn digits(n: nat) -> Seq<char>
    decreases n,
{
    if n < 10 {
        seq![digit_char(n)]
    } else {
        digits(n / 10).push(digit_char(n % 10))
    }
}

/// The decimal text of an integer: a minus sign for a negative one, then the
/// digits of its magnitude.
pub open spec fn decimal(n: int) -> Seq<char> {
    if n < 0 {
        seq!['-'] + digits((-n) as nat)
    } else {
        digits(n as nat)
    }
}

fn digit_str(d: u64) -> (result: &'static str)
    requires
        d < 10,
    ensures
        result@ == seq![digit_char(d as nat)],
{
    proof {
        reveal_strlit("0");
        reveal_strlit("1");
        reveal_strlit("2");
        reveal_strlit("3");
        reveal_strlit("4");
        reveal_strlit("5");
        reveal_strlit("6");
        reveal_strlit("7");
        reveal_strlit("8");
        reveal_strlit("9");
    }
    let result = if d == 0 {
        "0"
    } else if d == 1 {
        "1"
    } else if d == 2 {
        "2"
    } else if d == 3 {
        "3"
    } else if d == 4 {
        "4"
    } else if d == 5 {
        "5"
    } else if d == 6 {
        "6"
    } else if d == 7 {
        "7"
    } else if d == 8 {
        "8"
    } else {
        "9"
    };
    assert(result@ =~= seq![digit_char(d as nat)]);
    result
}

/// The digits of `n` followed by `tail` are the digits of `n / 10`, the
/// last digit of `n` and `tail`.
proof fn lemma_digits_step(n: nat, tail: Seq<char>)
    requires
        n >= 10,
    ensures
        digits(n) + tail == digits(n / 10) + (seq![digit_char(n % 10)] + tail),
{
    assert(digits(n) + tail =~= digits(n / 10) + (seq![digit_char(n % 10)] + tail));
}

fn unsigned_decimal_string(n: u64) -> (result: String)
    ensures
        result@ == digits(n as nat),
{
    let mut rest: u64 = n;
    let mut text = String::from_str("");
    proof {
        reveal_strlit("");
        assert(digits(rest as nat) + text@ =~= digits(n as nat));
    }
    while rest >= 10
        invariant
            digits(rest as nat) + text@ == digits(n as nat),
        decreases rest,
    {
        let d: u64 = rest % 10;
        proof {
            lemma_digits_step(rest as nat, text@);
        }
        text = String::from_str(digit_str(d)).concat(text.as_str());
        rest = rest / 10;
    }
    let result = String::from_str(digit_str(rest)).concat(text.as_str());
    result
}

/// The decimal text of `n`.
pub fn decimal_string(n: i64) -> (result: String)
    ensures
        result@ == decimal(n as int),
{
    if n < 0 {
        let magnitude: u64 = (-(n as i128)) as u64;
        let digits = unsigned_decimal_string(magnitude);
        proof {
            reveal_strlit("-");
            assert("-"@ =~= seq!['-']);
        }
        String::from_str("-").concat(digits.as_str())
    } else {
        unsigned_decimal_string(n as u64)
    }
}

} // verus!
