//! Building outbound command lines as exact byte sequences.

use vstd::prelude::*;
use vstd::string::StringSliceAdditionalSpecFns;

verus! {

/// The decimal numeral of `n`, most significant digit first.
pub open spec fn dec_digits_of(n: nat) -> Seq<u8>
    decreases n,
{
    if n < 10 {
        seq![(n + ('0' as u8)) as u8]
    } else {
        dec_digits_of(n / 10).push(((n % 10) + ('0' as u8)) as u8)
    }
}

/// Appends the bytes of `more` to `out`.
pub fn push_bytes(out: &mut Vec<u8>, more: &[u8])
    ensures
        final(out)@ == old(out)@ + more@,
{
    let ghost orig = out@;
    let mut k: usize = 0;
    while k < more.len()
        invariant
            0 <= k <= more@.len(),
            out@ == orig + more@.take(k as int),
        decreases more@.len() - k,
    {
        out.push(more[k]);
        assert(orig + more@.take(k + 1) =~= (orig + more@.take(k as int)).push(more@[k as int]));
        k = k + 1;
    }
    assert(more@.take(more@.len() as int) =~= more@);
}

/// Appends the UTF-8 bytes of `s` to `out`.
pub fn push_str(out: &mut Vec<u8>, s: &str)
    ensures
        final(out)@ == old(out)@ + s.spec_bytes(),
{
    push_bytes(out, s.as_bytes());
}

/// Appends the decimal numeral of `n` to `out`.
pub fn push_u64(out: &mut Vec<u8>, n: u64)
    ensures
        final(out)@ == old(out)@ + dec_digits_of(n as nat),
    decreases n,
{
    if n < 10 {
        let d: u8 = (n as u8) + ('0' as u8);
        out.push(d);
        assert(out@ =~= old(out)@ + dec_digits_of(n as nat));
    } else {
        push_u64(out, n / 10);
        let d: u8 = ((n % 10) as u8) + ('0' as u8);
        out.push(d);
        assert(out@ =~= old(out)@ + dec_digits_of(n as nat));
    }
}

} // verus!
