//! Decimal numerals: reading an unsigned number from text and writing one
//! back.

use vstd::prelude::*;
use vstd::std_specs::iter::IteratorSpec;
use vstd::string::*;

verus! {

/// Whether `c` is one of the ten ASCII digits.
pub open spec fn is_digit(c: char) -> bool {
    '0' <= c && c <= '9'
}

/// The number that the ASCII digit `c` stands for.
pub open spec fn digit_value(c: char) -> nat
    recommends
        is_digit(c),
{
    (c as int - '0' as int) as nat
}

/// Whether every character of `s` is an ASCII digit.
pub open spec fn all_digits(s: Seq<char>) -> bool {
    forall|i: int| 0 <= i < s.len() ==> is_digit(#[trigger] s[i])
}

/// The number written by the digits `s`, most significant first.
pub open spec fn digits_value(s: Seq<char>) -> nat
    decreases s.len(),
{
    if s.len() == 0 {
        0
    } else {
        digits_value(s.drop_last()) * 10 + digit_value(s.last())
    }
}

/// The digits of a numeral: the text itself, without one leading `+`.
pub open spec fn numeral_digits(s: Seq<char>) -> Seq<char> {
    if s.len() > 0 && s[0] == '+' {
        s.subrange(1, s.len() as int)
    } else {
        s
    }
}

/// The number that `s` denotes as an unsigned 32-bit decimal numeral: an
/// optional `+`, then one or more ASCII digits whose value fits in 32 bits.
/// Anything else, the empty text included, denotes nothing.
pub open spec fn unsigned_of(s: Seq<char>) -> Option<nat> {
    let digits = numeral_digits(s);
    if digits.len() > 0 && all_digits(digits) && digits_value(digits) <= u32::MAX {
        Some(digits_value(digits))
    } else {
        None
    }
}

/// The ASCII digit for `d`.
pub open spec fn digit_char(d: nat) -> char
    recommends
        d < 10,
{
    if d == 0 {
        '0'
    } else if d == 1 {
        '1'
    } else if d == 2 {
        '2'
    } else if d == 3 {
        '3'
    } else if d == 4 {
        '4'
    } else if d == 5 {
        '5'
    } else if d == 6 {
        '6'
    } else if d == 7 {
        '7'
    } else if d == 8 {
        '8'
    } else {
        '9'
    }
}

/// The shortest decimal numeral for `n`.
pub open spec fn decimal(n: nat) -> Seq<char>
    decreases n,
{
    if n < 10 {
        seq![digit_char(n)]
    } else {
        decimal(n / 10).push(digit_char(n % 10))
    }
}

/// Whether two texts hold the same characters.
pub(crate) fn same_text(a: &str, b: &str) -> (same: bool)
    ensures
        same == (a@ == b@),
{
    let left: String = a.to_owned();
    let right: String = b.to_owned();
    left == right
}

fn digit_text(d: u32) -> (text: &'static str)
    requires
        d < 10,
    ensures
        text@ == seq![digit_char(d as nat)],
{
    proof {
        reveal_strlit("0");
        reveal_strlit("1");
        reveal_strlit("2");
        reveal_strlit("3");
        reveal_strlit("4");
        reveal_strlit("5");
        reveal_strlit("6");
        reveal_strlit("7");
        reveal_strlit("8");
        reveal_strlit("9");
    }
    let text = if d == 0 {
        "0"
    } else if d == 1 {
        "1"
    } else if d == 2 {
        "2"
    } else if d == 3 {
        "3"
    } else if d == 4 {
        "4"
    } else if d == 5 {
        "5"
    } else if d == 6 {
        "6"
    } else if d == 7 {
        "7"
    } else if d == 8 {
        "8"
    } else {
        "9"
    };
    assert(text@ =~= seq![digit_char(d as nat)]);
    text
}

/// Writes `n` as its shortest decimal numeral.
pub fn decimal_string(n: u32) -> (text: String)
    ensures
        text@ == decimal(n as nat),
    decreases n,
{
    if n < 10 {
        String::from_str(digit_text(n))
    } else {
        let mut text = decimal_string(n / 10);
        text.append(digit_text(n % 10));
        assert(text@ =~= decimal(n as nat));
        text
    }
}

/// Reads an unsigned 32-bit decimal numeral.
pub fn parse_u32(s: &str) -> (value: Option<u32>)
    ensures
        match value {
            Some(n) => unsigned_of(s@) == Some(n as nat),
            None => unsigned_of(s@) is None,
        },
{
    let mut chars = s.chars();
    let ghost digits = numeral_digits(s@);
    let mut acc: u64 = 0;
    let mut too_big = false;
    let mut any = false;
    let ghost mut done: int = 0;
    match chars.next() {
        None => {
            return None;
        },
        Some(c) => {
            if c == '+' {
                assert(chars.remaining() =~= digits);
            } else if '0' <= c && c <= '9' {
                acc = (c as u32 - '0' as u32) as u64;
                any = true;
                proof {
                    done = 1;
                    assert(digits.take(1).drop_last() =~= Seq::<char>::empty());
                    assert(digits_value(Seq::<char>::empty()) == 0);
                    assert(digits.take(1).last() == c);
                }
            } else {
                assert(!is_digit(digits[0]));
                return None;
            }
        },
    }
    loop
        invariant
            digits == numeral_digits(s@),
            0 <= done <= digits.len(),
            chars.remaining() == digits.skip(done),
            all_digits(digits.take(done)),
            any <==> done > 0,
            !too_big ==> acc == digits_value(digits.take(done)) && acc <= u32::MAX,
            too_big ==> digits_value(digits.take(done)) > u32::MAX,
        decreases digits.len() - done,
    {
        match chars.next() {
            None => {
                proof {
                    assert(digits.take(done) =~= digits);
                }
                if !any || too_big {
                    return None;
                }
                return Some(acc as u32);
            },
            Some(c) => {
                if !('0' <= c && c <= '9') {
                    assert(!is_digit(digits[done]));
                    return None;
                }
                let d: u64 = (c as u32 - '0' as u32) as u64;
                proof {
                    assert(digits.take(done + 1).drop_last() =~= digits.take(done));
                    assert(digits.take(done + 1).last() == c);
                    assert(chars.remaining() =~= digits.skip(done + 1));
                }
                if !too_big {
                    let next: u64 = acc * 10 + d;
                    if next > 0xffff_ffff {
                        too_big = true;
                    } else {
                        acc = next;
                    }
                }
                any = true;
                proof {
                    done = done + 1;
                }
            },
        }
    }
}

} // verus!
