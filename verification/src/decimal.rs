//! Decimal notation of integers, as `Display` writes it.

use vstd::prelude::*;

verus! {

/// The character of a decimal digit `d` (`0 <= d < 10`).
pub open spec fn digit_char(d: nat) -> char {
    if d == 0 { '0' }
    else if d == 1 { '1' }
    else if d == 2 { '2' }
    else if d == 3 { '3' }
    else if d == 4 { '4' }
    else if d == 5 { '5' }
    else if d == 6 { '6' }
    else if d == 7 { '7' }
    else if d == 8 { '8' }
    else { '9' }
}

/// The value of a decimal digit character.
pub open spec fn char_digit(c: char) -> nat {
    if c == '1' { 1 }
    else if c == '2' { 2 }
    else if c == '3' { 3 }
    else if c == '4' { 4 }
    else if c == '5' { 5 }
    else if c == '6' { 6 }
    else if c == '7' { 7 }
    else if c == '8' { 8 }
    else if c == '9' { 9 }
    else { 0 }
}

/// The shortest decimal notation of `n`: no sign, no leading zero.
pub open spec fn decimal_of(n: nat) -> Seq<char>
    decreases n,
{
    if n < 10 {
        seq![digit_char(n)]
    } else {
        decimal_of(n / 10).push(digit_char(n % 10))
    }
}

/// The number that a string of decimal digits denotes.
pub open spec fn value_of(s: Seq<char>) -> nat
    decreases s.len(),
{
    if s.len() == 0 {
        0
    } else {
        value_of(s.drop_last()) * 10 + char_digit(s.last())
    }
}

/// Decimal notation of a signed number: a minus sign before the notation
/// of its magnitude when it is negative.
pub open spec fn signed_decimal_of(n: int) -> Seq<char> {
    if n < 0 {
        seq!['-'] + decimal_of((-n) as nat)
    } else {
        decimal_of(n as nat)
    }
}

/// Reading the notation of `n` back gives `n`.
pub proof fn lemma_value_of_decimal(n: nat)
    ensures
        value_of(decimal_of(n)) == n,
        decimal_of(n).len() >= 1,
    decreases n,
{
    if n >= 10 {
        lemma_value_of_decimal(n / 10);
        let s = decimal_of(n);
        assert(s.drop_last() =~= decimal_of(n / 10));
        assert(n == (n / 10) * 10 + n % 10) by (nonlinear_arith);
        assert(char_digit(digit_char(n % 10)) == n % 10);
        assert(s.last() == digit_char(n % 10));
        assert(value_of(s) == value_of(s.drop_last()) * 10 + char_digit(s.last()));
    } else {
        let s = decimal_of(n);
        assert(s.drop_last() =~= Seq::<char>::empty());
        assert(char_digit(digit_char(n)) == n);
        assert(value_of(s) == value_of(s.drop_last()) * 10 + char_digit(s.last()));
    }
}

/// Distinct numbers have distinct decimal notations.
pub proof fn lemma_decimal_injective(a: nat, b: nat)
    requires
        decimal_of(a) == decimal_of(b),
    ensures
        a == b,
{
    lemma_value_of_decimal(a);
    lemma_value_of_decimal(b);
}

/// The one-character string of the digit `d`.
fn digit_str(d: u32) -> (s: &'static str)
    requires
        d < 10,
    ensures
        s@ == seq![digit_char(d as nat)],
{
    proof {
        reveal_strlit("0");
        reveal_strlit("1");
        reveal_strlit("2");
        reveal_strlit("3");
        reveal_strlit("4");
        reveal_strlit("5");
        reveal_strlit("6");
        reveal_strlit("7");
        reveal_strlit("8");
        reveal_strlit("9");
    }
    if d == 0 { "0" }
    else if d == 1 { "1" }
    else if d == 2 { "2" }
    else if d == 3 { "3" }
    else if d == 4 { "4" }
    else if d == 5 { "5" }
    else if d == 6 { "6" }
    else if d == 7 { "7" }
    else if d == 8 { "8" }
    else { "9" }
}

/// Appends the decimal notation of `n` to `out`.
fn push_decimal(out: &mut String, n: u32)
    ensures
        final(out)@ == old(out)@ + decimal_of(n as nat),
    decreases n,
{
    if n >= 10 {
        push_decimal(out, n / 10);
        out.append(digit_str(n % 10));
        proof {
            assert(decimal_of(n as nat) == decimal_of((n / 10) as nat).push(digit_char((n % 10) as nat)));
            assert(final(out)@ =~= old(out)@ + decimal_of(n as nat));
        }
    } else {
        out.append(digit_str(n));
    }
}

/// The decimal notation of an unsigned number.
pub fn u32_to_decimal(n: u32) -> (s: String)
    ensures
        s@ == decimal_of(n as nat),
{
    let mut s = String::new();
    push_decimal(&mut s, n);
    assert(s@ =~= decimal_of(n as nat));
    s
}

/// The decimal notation of a signed number.
pub fn i32_to_decimal(n: i32) -> (s: String)
    ensures
        s@ == signed_decimal_of(n as int),
{
    if n < 0 {
        let magnitude: u32 = if n == i32::MIN {
            2147483648u32
        } else {
            (-n) as u32
        };
        let mut s = String::new();
        proof { reveal_strlit("-"); }
        s.append("-");
        push_decimal(&mut s, magnitude);
        assert(s@ =~= signed_decimal_of(n as int));
        s
    } else {
        u32_to_decimal(n as u32)
    }
}

} // verus!
