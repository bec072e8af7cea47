//! Zero-padded decimal fields, as the printer's command language writes them.
use vstd::prelude::*;

verus! {

/// ASCII code of the digit `0`.
pub const DIGIT_ZERO: u8 = 48;

/// The decimal digits of `n`, most significant first, without leading zeros.
pub open spec fn digits(n: nat) -> Seq<u8>
    decreases n,
{
    if n < 10 {
        seq![(DIGIT_ZERO + n) as u8]
    } else {
        digits(n / 10).push((DIGIT_ZERO + n % 10) as u8)
    }
}

/// `n` in decimal, padded on the left with `0` to at least `width` digits.
/// A value with more digits than `width` keeps all of them.
pub open spec fn padded(n: nat, width: nat) -> Seq<u8> {
    let d = digits(n);
    if d.len() < width {
        Seq::new((width - d.len()) as nat, |_i: int| DIGIT_ZERO) + d
    } else {
        d
    }
}

/// Appends the decimal digits of `n` to `out`.
fn push_digits(out: &mut Vec<u8>, n: u32)
    ensures
        final(out)@ == old(out)@ + digits(n as nat),
    decreases n,
{
    if n >= 10 {
        push_digits(out, n / 10);
    }
    out.push(DIGIT_ZERO + (n % 10) as u8);
    assert(final(out)@ =~= old(out)@ + digits(n as nat));
}

/// Appends `n` in decimal, zero-padded to at least `width` digits.
pub fn push_padded(out: &mut Vec<u8>, n: u32, width: usize)
    ensures
        final(out)@ == old(out)@ + padded(n as nat, width as nat),
{
    let mut ds: Vec<u8> = Vec::new();
    push_digits(&mut ds, n);
    let mut k: usize = ds.len();
    let ghost start = out@;
    while k < width
        invariant
            ds.len() <= k <= width || (k == ds.len() && width <= ds.len()),
            ds@ == digits(n as nat),
            out@ == start + Seq::new((k - ds.len()) as nat, |_i: int| DIGIT_ZERO),
        decreases width - k,
    {
        out.push(DIGIT_ZERO);
        k = k + 1;
        assert(out@ =~= start + Seq::new((k - ds.len()) as nat, |_i: int| DIGIT_ZERO));
    }
    out.append(&mut ds);
    assert(out@ =~= start + padded(n as nat, width as nat));
}

} // verus!
