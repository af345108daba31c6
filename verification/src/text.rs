use vstd::prelude::*;
use vstd::string::{StrSliceExecFns, StringExecFns};

verus! {

/// An ASCII decimal digit.
pub open spec fn is_digit(c: char) -> bool {
    '0' <= c && c <= '9'
}

/// Every character of `s` is an ASCII decimal digit.
pub open spec fn all_digits(s: Seq<char>) -> bool {
    forall|i: int| 0 <= i < s.len() ==> is_digit(#[trigger] s[i])
}

/// The number that a sequence of decimal digits writes.
pub open spec fn decimal_value(s: Seq<char>) -> nat
    decreases s.len(),
{
    if s.len() == 0 {
        0
    } else {
        decimal_value(s.drop_last()) * 10 + (s.last() as nat - '0' as nat) as nat
    }
}

/// The character that writes a digit below ten.
pub open spec fn digit_char(d: nat) -> char {
    if d == 0 {
        '0'
    } else if d == 1 {
        '1'
    } else if d == 2 {
        '2'
    } else if d == 3 {
        '3'
    } else if d == 4 {
        '4'
    } else if d == 5 {
        '5'
    } else if d == 6 {
        '6'
    } else if d == 7 {
        '7'
    } else if d == 8 {
        '8'
    } else {
        '9'
    }
}

/// A number in decimal, without leading zeros.
pub open spec fn decimal_text(n: nat) -> Seq<char>
    decreases n,
{
    if n < 10 {
        seq![digit_char(n)]
    } else {
        decimal_text(n / 10).push(digit_char(n % 10))
    }
}

/// A signed number in decimal, with a minus sign where it is negative.
pub open spec fn signed_decimal_text(n: int) -> Seq<char> {
    if n < 0 {
        seq!['-'] + decimal_text((-n) as nat)
    } else {
        decimal_text(n as nat)
    }
}

fn digit_str(d: u64) -> (s: &'static str)
    requires
        d < 10,
    ensures
        s@ == seq![digit_char(d as nat)],
{
    proof {
        reveal_strlit("0");
        reveal_strlit("1");
        reveal_strlit("2");
        reveal_strlit("3");
        reveal_strlit("4");
        reveal_strlit("5");
        reveal_strlit("6");
        reveal_strlit("7");
        reveal_strlit("8");
        reveal_strlit("9");
    }
    let s = if d == 0 {
        "0"
    } else if d == 1 {
        "1"
    } else if d == 2 {
        "2"
    } else if d == 3 {
        "3"
    } else if d == 4 {
        "4"
    } else if d == 5 {
        "5"
    } else if d == 6 {
        "6"
    } else if d == 7 {
        "7"
    } else if d == 8 {
        "8"
    } else {
        "9"
    };
    s
}

/// Appends `n` in decimal to `out`.
pub fn push_decimal(out: &mut String, n: u64)
    ensures
        final(out)@ == old(out)@ + decimal_text(n as nat),
    decreases n,
{
    if n >= 10 {
        push_decimal(out, n / 10);
    }
    out.append(digit_str(n % 10));
}

/// `n` in decimal.
pub fn decimal_string(n: u64) -> (s: String)
    ensures
        s@ == decimal_text(n as nat),
{
    let mut s = String::new();
    push_decimal(&mut s, n);
    s
}

/// Appends `n` in decimal to `out`, with a minus sign where it is negative.
pub fn push_signed_decimal(out: &mut String, n: i64)
    ensures
        final(out)@ == old(out)@ + signed_decimal_text(n as int),
{
    if n < 0 {
        proof {
            reveal_strlit("-");
        }
        out.append("-");
        let magnitude: u64 = ((-(n + 1)) as u64) + 1;
        push_decimal(out, magnitude);
    } else {
        push_decimal(out, n as u64);
    }
}

/// The number that `text` writes in decimal, where it is written in digits
/// alone and fits in 64 bits.
pub open spec fn decimal_number(text: Seq<char>) -> Option<u64> {
    if text.len() > 0 && all_digits(text) && decimal_value(text) <= u64::MAX {
        Some(decimal_value(text) as u64)
    } else {
        None
    }
}

proof fn lemma_decimal_prefix(text: Seq<char>, k: int)
    requires
        0 <= k < text.len(),
        all_digits(text),
    ensures
        decimal_value(text.take(k + 1)) == decimal_value(text.take(k)) * 10 + (text[k] as nat
            - '0' as nat) as nat,
        decimal_value(text.take(k)) <= decimal_value(text.take(k + 1)),
{
    let next = text.take(k + 1);
    assert(next.drop_last() =~= text.take(k));
}

proof fn lemma_decimal_grows(text: Seq<char>, k: int)
    requires
        0 <= k <= text.len(),
        all_digits(text),
    ensures
        decimal_value(text.take(k)) <= decimal_value(text),
    decreases text.len() - k,
{
    if k < text.len() {
        lemma_decimal_prefix(text, k);
        lemma_decimal_grows(text, k + 1);
    } else {
        assert(text.take(k) =~= text);
    }
}

/// Reads a number written in decimal digits.
pub fn parse_decimal(text: &str) -> (r: Option<u64>)
    ensures
        r == decimal_number(text@),
{
    let n = text.unicode_len();
    if n == 0 {
        return None;
    }
    let mut i: usize = 0;
    while i < n
        invariant
            i <= n,
            n == text@.len(),
            forall|j: int| 0 <= j < i ==> is_digit(#[trigger] text@[j]),
        decreases n - i,
    {
        let c = text.get_char(i);
        if !('0' <= c && c <= '9') {
            return None;
        }
        i += 1;
    }
    let mut value: u64 = 0;
    let mut k: usize = 0;
    while k < n
        invariant
            k <= n,
            n == text@.len(),
            n > 0,
            all_digits(text@),
            value as nat == decimal_value(text@.take(k as int)),
        decreases n - k,
    {
        let c = text.get_char(k);
        proof {
            lemma_decimal_prefix(text@, k as int);
            lemma_decimal_grows(text@, k + 1);
        }
        let d: u64 = (c as u32 - '0' as u32) as u64;
        if value > (u64::MAX - d) / 10 {
            return None;
        }
        value = value * 10 + d;
        k += 1;
    }
    assert(text@.take(k as int) =~= text@);
    Some(value)
}

/// Whether two texts are the same.
pub fn same_text(a: &str, b: &str) -> (same: bool)
    ensures
        same == (a@ == b@),
{
    String::from_str(a) == String::from_str(b)
}

/// A copy of `s`.
pub fn copy_string(s: &String) -> (r: String)
    ensures
        r@ == s@,
{
    s.clone()
}

} // verus!
