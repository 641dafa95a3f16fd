//! Whole numbers written in decimal digits.

use vstd::prelude::*;

verus! {

/// The character for a digit below ten.
pub open spec fn decimal_digit(n: nat) -> char {
    (0x30 + n) as u8 as char
}

/// `n` in decimal, without leading zeros; zero is `0`.
pub open spec fn decimal(n: nat) -> Seq<char>
    decreases n,
{
    if n < 10 {
        seq![decimal_digit(n)]
    } else {
        decimal(n / 10).push(decimal_digit(n % 10))
    }
}

/// `n` in decimal, with a leading zero where it has one digit only.
pub open spec fn decimal_two(n: nat) -> Seq<char> {
    if n < 10 {
        seq![decimal_digit(0)] + decimal(n)
    } else {
        decimal(n)
    }
}

/// The digits that still stand before those already produced.
spec fn leading(rest: nat) -> Seq<char> {
    if rest == 0 {
        Seq::empty()
    } else {
        decimal(rest)
    }
}

fn digit_char(n: u64) -> (c: char)
    requires
        n < 10,
    ensures
        c == decimal_digit(n as nat),
{
    (0x30u8 + (n as u8)) as char
}

/// Appends `n` in decimal to `out`.
pub fn push_decimal(out: &mut String, n: u64)
    ensures
        final(out)@ == old(out)@ + decimal(n as nat),
{
    // least significant digit first
    let mut digits: Vec<char> = Vec::new();
    let ghost mut low: Seq<char> = Seq::empty();
    let mut rest = n;
    digits.push(digit_char(rest % 10));
    rest = rest / 10;
    proof {
        low = seq![decimal_digit((n % 10) as nat)];
        assert(decimal(n as nat) =~= leading(rest as nat) + low);
    }
    while rest > 0
        invariant
            decimal(n as nat) == leading(rest as nat) + low,
            digits@.len() == low.len(),
            forall|k: int| 0 <= k < low.len() ==> digits@[k] == low[low.len() - 1 - k],
        decreases rest,
    {
        let ghost prev = low;
        digits.push(digit_char(rest % 10));
        proof {
            low = seq![decimal_digit((rest % 10) as nat)] + prev;
            assert(leading(rest as nat) + prev =~= leading((rest / 10) as nat) + low);
        }
        rest = rest / 10;
    }
    assert(decimal(n as nat) =~= low);
    let ghost start = out@;
    let mut k = digits.len();
    while k > 0
        invariant
            k <= digits@.len(),
            digits@.len() == low.len(),
            forall|j: int| 0 <= j < low.len() ==> digits@[j] == low[low.len() - 1 - j],
            out@ == start + low.take(low.len() - k),
        decreases k,
    {
        k -= 1;
        out.push(digits[k]);
        assert(out@ =~= start + low.take(low.len() - k));
    }
    assert(low.take(low.len() as int) =~= low);
}

/// Appends `n` in decimal to `out`, as two digits where it is below ten.
pub fn push_decimal_two(out: &mut String, n: u64)
    ensures
        final(out)@ == old(out)@ + decimal_two(n as nat),
{
    let ghost start = out@;
    if n < 10 {
        out.push('0');
    }
    push_decimal(out, n);
    assert(out@ =~= start + decimal_two(n as nat));
}

} // verus!
