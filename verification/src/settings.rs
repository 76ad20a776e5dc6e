//! Settings as they come from the environment: named texts, to be read as
//! texts, numbers or flags.
//!
//! A number is written as the standard library reads one: decimal digits,
//! with an optional `+` in front. A flag is `true` or `false`.

use crate::named::{find, first_named};
use crate::text::{decimal, digit};
use vstd::prelude::*;

verus! {

/// The value of the variable `name`: that of the first variable of the list
/// that bears the name.
pub open spec fn setting(vars: Seq<(String, String)>, name: Seq<char>) -> Option<Seq<char>> {
    match first_named(vars, name) {
        Some(value) => Some(value@),
        None => None,
    }
}

/// A non-empty run of decimal digits.
pub open spec fn is_numeral(digits: Seq<char>) -> bool {
    digits.len() > 0 && forall|i: int| 0 <= i < digits.len() ==> '0' <= #[trigger] digits[i] <= '9'
}

/// The number that a run of decimal digits stands for.
pub open spec fn numeral_value(digits: Seq<char>) -> nat
    decreases digits.len(),
{
    if digits.len() == 0 {
        0
    } else {
        numeral_value(digits.drop_last()) * 10 + (digits.last() as int - '0' as int) as nat
    }
}

/// The digits of a number as it is written: the text without a leading `+`.
pub open spec fn unsigned(text: Seq<char>) -> Seq<char> {
    if text.len() > 0 && text[0] == '+' {
        text.drop_first()
    } else {
        text
    }
}

/// The number that a text stands for, if it stands for one.
pub open spec fn number(text: Seq<char>) -> Option<nat> {
    if is_numeral(unsigned(text)) {
        Some(numeral_value(unsigned(text)))
    } else {
        None
    }
}

/// The number up to `max` that a text stands for, if it stands for one.
pub open spec fn number_up_to(text: Seq<char>, max: nat) -> Option<nat> {
    match number(text) {
        Some(n) => if n <= max {
            Some(n)
        } else {
            None
        },
        None => None,
    }
}

/// The flag that a text stands for, if it stands for one.
pub open spec fn truth(text: Seq<char>) -> Option<bool> {
    if text == "true"@ {
        Some(true)
    } else if text == "false"@ {
        Some(false)
    } else {
        None
    }
}

/// What a variable that holds a text is set to: its value, or the default
/// where it is not set.
pub open spec fn text_or(vars: Seq<(String, String)>, name: Seq<char>, default: Seq<char>) -> Seq<
    char,
> {
    match setting(vars, name) {
        Some(value) => value,
        None => default,
    }
}

/// What a variable that holds a number up to `max` is set to: the default
/// where it is not set, and `None` where it is set to something else than
/// such a number.
pub open spec fn number_or(vars: Seq<(String, String)>, name: Seq<char>, default: nat, max: nat) -> Option<
    nat,
> {
    match setting(vars, name) {
        Some(value) => number_up_to(value, max),
        None => Some(default),
    }
}

/// What a variable that holds a flag is set to: the default where it is not
/// set, and `None` where it is set to something else than a flag.
pub open spec fn flag_or(vars: Seq<(String, String)>, name: Seq<char>, default: bool) -> Option<bool> {
    match setting(vars, name) {
        Some(value) => truth(value),
        None => Some(default),
    }
}

/// The value of a run of digits does not shrink when digits are appended.
pub proof fn lemma_numeral_prefix(digits: Seq<char>, k: int)
    requires
        is_numeral(digits),
        0 <= k <= digits.len(),
    ensures
        numeral_value(digits.take(k)) <= numeral_value(digits),
    decreases digits.len() - k,
{
    if k == digits.len() {
        assert(digits.take(k) =~= digits);
    } else {
        lemma_numeral_prefix(digits, k + 1);
        assert(digits.take(k + 1).drop_last() =~= digits.take(k));
        assert(digits.take(k + 1).last() == digits[k]);
    }
}

/// What is listed for a number reads back as that number: the decimal
/// numeral of `n` is a numeral, and it stands for `n`.
pub proof fn lemma_decimal_reads_back(n: nat)
    ensures
        is_numeral(decimal(n)),
        numeral_value(decimal(n)) == n,
        number(decimal(n)) == Some(n),
    decreases n,
{
    let numeral = decimal(n);
    let last = digit(n % 10);
    assert('0' <= last <= '9' && last as int - '0' as int == n % 10);
    if n < 10 {
        assert(numeral.drop_last() =~= Seq::<char>::empty());
        assert(numeral_value(numeral.drop_last()) == 0);
    } else {
        lemma_decimal_reads_back(n / 10);
        assert(numeral.drop_last() =~= decimal(n / 10));
        assert forall|i: int| 0 <= i < numeral.len() implies '0' <= #[trigger] numeral[i]
            <= '9' by {
            if i < numeral.len() - 1 {
                assert(numeral[i] == decimal(n / 10)[i]);
            }
        }
    }
    assert(numeral[0] != '+');
    assert(unsigned(numeral) == numeral);
}

/// Reads a number up to `max`.
pub fn parse_number(text: &str, max: u64) -> (value: Option<u64>)
    ensures
        match value {
            Some(n) => number_up_to(text@, max as nat) == Some(n as nat),
            None => number_up_to(text@, max as nat) is None,
        },
{
    let len = text.unicode_len();
    let start: usize = if len > 0 && text.get_char(0) == '+' {
        1
    } else {
        0
    };
    let ghost digits = unsigned(text@);
    assert(digits =~= text@.skip(start as int));
    if start == len {
        return None;
    }
    let mut value: u64 = 0;
    let mut i: usize = start;
    assert(digits.take(0) =~= Seq::<char>::empty());
    while i < len
        invariant
            start <= i <= len,
            len == text@.len(),
            start < len,
            digits == text@.skip(start as int),
            digits == unsigned(text@),
            is_numeral(digits.take(i - start)) || i == start,
            value == numeral_value(digits.take(i - start)),
            value <= max,
        decreases len - i,
    {
        let c = text.get_char(i);
        let ghost k = i - start;
        assert(digits[k] == c);
        assert(digits.take(k + 1).drop_last() =~= digits.take(k));
        assert(digits.take(k + 1).last() == c);
        if c < '0' || c > '9' {
            assert(!('0' <= digits[k] <= '9'));
            return None;
        }
        let d: u64 = (c as u32 - '0' as u32) as u64;
        assert(is_numeral(digits.take(k + 1))) by {
            assert forall|j: int| 0 <= j < k + 1 implies '0' <= #[trigger] digits.take(k + 1)[j]
                <= '9' by {
                if j < k {
                    assert(digits.take(k)[j] == digits.take(k + 1)[j]);
                }
            }
        }
        if value > max / 10 || (value == max / 10 && d > max % 10) {
            proof {
                assert(value * 10 + d > max);
                assert(numeral_value(digits.take(k + 1)) == value * 10 + d);
                if is_numeral(digits) {
                    lemma_numeral_prefix(digits, k + 1);
                }
            }
            return None;
        }
        value = value * 10 + d;
        i = i + 1;
    }
    assert(digits.take(len - start) =~= digits);
    Some(value)
}

/// Reads a flag.
pub fn parse_flag(text: &str) -> (value: Option<bool>)
    ensures
        value == truth(text@),
{
    let owned = text.to_owned();
    if owned == "true".to_owned() {
        Some(true)
    } else if owned == "false".to_owned() {
        Some(false)
    } else {
        None
    }
}

/// The text that a variable is set to, or the default.
pub fn text_setting(vars: &Vec<(String, String)>, name: &str, default: String) -> (value: String)
    ensures
        value@ == text_or(vars@, name@, default@),
{
    match find(vars, name) {
        Some(value) => value.clone(),
        None => default,
    }
}

/// The number up to `max` that a variable is set to, or the default; the
/// name of the variable as the error, where it is set to something else.
pub fn number_setting(vars: &Vec<(String, String)>, name: &str, default: u64, max: u64) -> (value:
    Result<u64, String>)
    ensures
        match value {
            Ok(n) => number_or(vars@, name@, default as nat, max as nat) == Some(n as nat),
            Err(e) => number_or(vars@, name@, default as nat, max as nat) is None && e@ == name@,
        },
{
    let parsed = match find(vars, name) {
        Some(value) => parse_number(value.as_str(), max),
        None => Some(default),
    };
    match parsed {
        Some(n) => Ok(n),
        None => Err(name.to_owned()),
    }
}

/// The flag that a variable is set to, or the default; the name of the
/// variable as the error, where it is set to something else.
pub fn flag_setting(vars: &Vec<(String, String)>, name: &str, default: bool) -> (value: Result<
    bool,
    String,
>)
    ensures
        match value {
            Ok(b) => flag_or(vars@, name@, default) == Some(b),
            Err(e) => flag_or(vars@, name@, default) is None && e@ == name@,
        },
{
    let parsed = match find(vars, name) {
        Some(value) => parse_flag(value.as_str()),
        None => Some(default),
    };
    match parsed {
        Some(b) => Ok(b),
        None => Err(name.to_owned()),
    }
}

} // verus!
