//! Decimal numbers as ASCII bytes, with optional zero padding.

use vstd::prelude::*;

verus! {

/// The ASCII byte of the digit `d`, for `d` below ten.
pub open spec fn digit(d: nat) -> u8 {
    (48 + d) as u8
}

/// The decimal digits of `n`, most significant first, without leading zeros
/// (a single `0` for zero).
pub open spec fn decimal(n: nat) -> Seq<u8>
    decreases n,
{
    if n < 10 {
        seq![digit(n)]
    } else {
        decimal(n / 10).push(digit(n % 10))
    }
}

/// `count` ASCII zeros.
pub open spec fn zeros(count: nat) -> Seq<u8> {
    Seq::new(count, |i: int| digit(0))
}

/// The decimal digits of `n`, filled up with leading zeros to at least `width` bytes.
/// A number with more digits than `width` is written in full.
pub open spec fn zero_padded(n: nat, width: nat) -> Seq<u8> {
    let digits = decimal(n);
    if digits.len() >= width {
        digits
    } else {
        zeros((width - digits.len()) as nat) + digits
    }
}

/// The number that a sequence of ASCII digits denotes.
pub open spec fn decimal_value(digits: Seq<u8>) -> nat
    decreases digits.len(),
{
    if digits.len() == 0 {
        0
    } else {
        decimal_value(digits.drop_last()) * 10 + (digits.last() - 48) as nat
    }
}

/// Whether every byte is an ASCII digit.
pub open spec fn all_digits(bytes: Seq<u8>) -> bool {
    forall|i: int| 0 <= i < bytes.len() ==> 48 <= #[trigger] bytes[i] <= 57
}

/// `decimal` writes at least one byte, only digits, no leading zero but for zero
/// itself, and the digits denote the number written.
pub proof fn lemma_decimal(n: nat)
    ensures
        decimal(n).len() >= 1,
        all_digits(decimal(n)),
        decimal(n)[0] == 48 <==> n == 0,
        decimal_value(decimal(n)) == n,
    decreases n,
{
    if n < 10 {
        let s = decimal(n);
        assert(s.drop_last() =~= Seq::<u8>::empty());
        assert(decimal_value(s.drop_last()) == 0);
    } else {
        lemma_decimal(n / 10);
        let s = decimal(n);
        assert(s.drop_last() =~= decimal(n / 10));
        assert(s[0] == decimal(n / 10)[0]);
    }
}

/// A number below ten to the power of the count of its digits: one digit below 10,
/// two below 100, three below 1000.
pub proof fn lemma_decimal_len(n: nat)
    ensures
        n < 10 ==> decimal(n).len() == 1,
        10 <= n < 100 ==> decimal(n).len() == 2,
        100 <= n < 1000 ==> decimal(n).len() == 3,
        1000 <= n ==> decimal(n).len() >= 4,
    decreases n,
{
    if n >= 10 {
        lemma_decimal_len(n / 10);
    }
}

/// Leading zeros add nothing to the number denoted.
proof fn lemma_value_of_zeros_then(count: nat, digits: Seq<u8>)
    ensures
        decimal_value(zeros(count) + digits) == decimal_value(digits),
    decreases digits.len(),
{
    let all = zeros(count) + digits;
    if digits.len() == 0 {
        assert(all =~= zeros(count));
        lemma_value_of_zeros(count);
    } else {
        assert(all.drop_last() =~= zeros(count) + digits.drop_last());
        lemma_value_of_zeros_then(count, digits.drop_last());
    }
}

/// A run of zeros denotes zero.
proof fn lemma_value_of_zeros(count: nat)
    ensures
        decimal_value(zeros(count)) == 0,
    decreases count,
{
    if count > 0 {
        assert(zeros(count).drop_last() =~= zeros((count - 1) as nat));
        lemma_value_of_zeros((count - 1) as nat);
    }
}

/// `zero_padded` writes only digits, at least `width` and at least one of them, as
/// few as that allows, and they denote the number written.
pub proof fn lemma_zero_padded(n: nat, width: nat)
    ensures
        zero_padded(n, width).len() >= 1,
        zero_padded(n, width).len() >= width,
        zero_padded(n, width).len() == width || zero_padded(n, width) == decimal(n),
        all_digits(zero_padded(n, width)),
        decimal_value(zero_padded(n, width)) == n,
{
    lemma_decimal(n);
    let digits = decimal(n);
    if digits.len() < width {
        lemma_value_of_zeros_then((width - digits.len()) as nat, digits);
    }
}

/// Appends the decimal digits of `n` to `out`, filled up with leading zeros to at
/// least `width` bytes.
pub fn push_decimal(out: &mut Vec<u8>, n: u64, width: usize)
    ensures
        final(out)@ == old(out)@ + zero_padded(n as nat, width as nat),
{
    let ghost before = out@;
    let mut reversed: Vec<u8> = Vec::new();
    reversed.push(48 + (n % 10) as u8);
    let mut rest: u64 = n / 10;
    assert(reversed@.reverse() =~= seq![digit((n % 10) as nat)]);
    while rest > 0
        invariant
            reversed.len() >= 1,
            decimal(n as nat) == (if rest > 0 {
                decimal(rest as nat)
            } else {
                Seq::<u8>::empty()
            }) + reversed@.reverse(),
        decreases rest,
    {
        let ghost low = digit((rest % 10) as nat);
        let ghost earlier = reversed@;
        reversed.push(48 + (rest % 10) as u8);
        assert(reversed@.reverse() =~= seq![low] + earlier.reverse());
        assert(decimal(rest as nat) =~= (if rest / 10 > 0 {
            decimal((rest / 10) as nat)
        } else {
            Seq::<u8>::empty()
        }) + seq![low]);
        rest = rest / 10;
    }
    assert(reversed@.reverse() =~= decimal(n as nat));

    let mut written: usize = reversed.len();
    while written < width
        invariant
            reversed.len() <= written,
            written <= width || written == reversed.len(),
            out@ == before + zeros((written - reversed.len()) as nat),
        decreases width - written,
    {
        out.push(48);
        written = written + 1;
    }

    let ghost padded = out@;
    let mut left: usize = reversed.len();
    while left > 0
        invariant
            left <= reversed.len(),
            out@ == padded + reversed@.reverse().subrange(0, reversed.len() - left),
        decreases left,
    {
        left = left - 1;
        out.push(reversed[left]);
    }
    assert(reversed@.reverse().subrange(0, reversed.len() as int) =~= reversed@.reverse());
    assert(out@ =~= before + zero_padded(n as nat, width as nat));
}

} // verus!
