//! Numbers in base ten: reading them from text and writing them as text.

use vstd::prelude::*;
use vstd::string::StringExecFns;

verus! {

/// Whether `c` is one of the digits `0` to `9`.
pub open spec fn is_digit(c: char) -> bool {
    '0' <= c <= '9'
}

/// The value of the digit `c`.
pub open spec fn digit_value(c: char) -> nat {
    (c as u32 - '0' as u32) as nat
}

/// The number that the digits `s` write in base ten; zero for no digits.
pub open spec fn decimal_value(s: Seq<char>) -> nat
    decreases s.len(),
{
    if s.len() == 0 {
        0
    } else {
        decimal_value(s.drop_last()) * 10 + digit_value(s.last())
    }
}

/// Whether `s` holds digits only.
pub open spec fn all_digits(s: Seq<char>) -> bool {
    forall|i: int| 0 <= i < s.len() ==> is_digit(#[trigger] s[i])
}

/// `s` without the `+` that it may start with.
pub open spec fn without_plus(s: Seq<char>) -> Seq<char> {
    if s.len() > 0 && s.first() == '+' {
        s.drop_first()
    } else {
        s
    }
}

/// The number that `s` writes: an optional `+` followed by one or more
/// digits and nothing else. Any other text writes no number.
pub open spec fn parse_number(s: Seq<char>) -> Option<nat> {
    if without_plus(s).len() > 0 && all_digits(without_plus(s)) {
        Some(decimal_value(without_plus(s)))
    } else {
        None
    }
}

/// The number that `s` writes if it writes one that fits the machine word.
pub open spec fn parse_usize(s: Seq<char>) -> Option<usize> {
    match parse_number(s) {
        Some(n) => if n <= usize::MAX {
            Some(n as usize)
        } else {
            None
        },
        None => None,
    }
}

/// The digit that writes `d`, for `d` below ten.
pub open spec fn digit_char(d: nat) -> char {
    ('0' as u32 + d) as char
}

/// The digits that write `n` in base ten, without leading zeros.
pub open spec fn decimal(n: nat) -> Seq<char>
    decreases n,
{
    if n < 10 {
        seq![digit_char(n)]
    } else {
        decimal(n / 10).push(digit_char(n % 10))
    }
}

/// The number that the stretch of `line` from `from` to `to` writes, if it
/// writes one that fits the machine word.
pub fn number_in(line: &Vec<char>, from: usize, to: usize) -> (number: Option<usize>)
    requires
        from <= to <= line.len(),
    ensures
        number == parse_usize(line@.subrange(from as int, to as int)),
{
    let ghost text = line@.subrange(from as int, to as int);
    let start: usize = if from < to && line[from] == '+' {
        from + 1
    } else {
        from
    };
    let ghost digits = line@.subrange(start as int, to as int);
    assert(digits =~= without_plus(text));
    if start == to {
        return None;
    }
    let mut value: usize = 0;
    let mut i: usize = start;
    while i < to
        invariant
            from <= start <= i <= to <= line.len(),
            start < to,
            text == line@.subrange(from as int, to as int),
            digits == line@.subrange(start as int, to as int),
            digits == without_plus(text),
            forall|j: int| 0 <= j < i - start ==> is_digit(#[trigger] digits[j]),
            value == decimal_value(digits.take(i - start)),
        decreases to - i,
    {
        let c: char = line[i];
        if !('0' <= c && c <= '9') {
            assert(!is_digit(digits[i - start]));
            return None;
        }
        let d: usize = (c as u32 - '0' as u32) as usize;
        proof {
            let longer = digits.take(i - start + 1);
            assert(longer.drop_last() =~= digits.take(i - start));
            assert(longer.last() == c);
            assert(decimal_value(longer) == value * 10 + d);
            lemma_decimal_value_grows(digits, i - start + 1);
        }
        value = match value.checked_mul(10) {
            Some(tens) => match tens.checked_add(d) {
                Some(sum) => sum,
                None => {
                    return None;
                },
            },
            None => {
                return None;
            },
        };
        i += 1;
    }
    assert(digits.take(i - start) =~= digits);
    Some(value)
}

/// The text of the digit that writes `d`.
fn digit_text(d: usize) -> (text: &'static str)
    requires
        d < 10,
    ensures
        text@ == seq![digit_char(d as nat)],
{
    proof {
        reveal_strlit("0");
        reveal_strlit("1");
        reveal_strlit("2");
        reveal_strlit("3");
        reveal_strlit("4");
        reveal_strlit("5");
        reveal_strlit("6");
        reveal_strlit("7");
        reveal_strlit("8");
        reveal_strlit("9");
    }
    let text = match d {
        0 => "0",
        1 => "1",
        2 => "2",
        3 => "3",
        4 => "4",
        5 => "5",
        6 => "6",
        7 => "7",
        8 => "8",
        _ => "9",
    };
    assert(text@ =~= seq![digit_char(d as nat)]);
    text
}

/// The text that writes `n` in base ten.
pub fn decimal_text(n: usize) -> (text: String)
    ensures
        text@ == decimal(n as nat),
    decreases n,
{
    if n < 10 {
        String::from_str(digit_text(n))
    } else {
        let mut text = decimal_text(n / 10);
        text.append(digit_text(n % 10));
        assert(text@ =~= decimal(n as nat));
        text
    }
}

/// Digits written after others never make the number smaller.
pub proof fn lemma_decimal_value_grows(s: Seq<char>, k: int)
    requires
        0 <= k <= s.len(),
    ensures
        decimal_value(s.take(k)) <= decimal_value(s),
    decreases s.len(),
{
    if k == s.len() {
        assert(s.take(k) =~= s);
    } else {
        lemma_decimal_value_grows(s.drop_last(), k);
        assert(s.drop_last().take(k) =~= s.take(k));
    }
}

/// Writing a number and reading it back gives the number: the digits of `n`
/// are digits, at least one, and their value is `n`.
pub proof fn lemma_decimal_is_read_back(n: nat)
    ensures
        decimal(n).len() > 0,
        all_digits(decimal(n)),
        decimal_value(decimal(n)) == n,
        parse_number(decimal(n)) == Some(n),
    decreases n,
{
    if n < 10 {
        let one = decimal(n);
        assert(one.drop_last() =~= Seq::<char>::empty());
        assert(decimal_value(one.drop_last()) == 0);
        assert(one.last() == digit_char(n));
    } else {
        lemma_decimal_is_read_back(n / 10);
        let more = decimal(n);
        assert(more.drop_last() =~= decimal(n / 10));
        assert(more.last() == digit_char(n % 10));
        assert(digit_value(digit_char(n % 10)) == n % 10);
        assert forall|i: int| 0 <= i < more.len() implies is_digit(#[trigger] more[i]) by {
            if i < more.len() - 1 {
                assert(more[i] == decimal(n / 10)[i]);
            }
        }
    }
    assert(decimal(n).first() != '+');
}

} // verus!
