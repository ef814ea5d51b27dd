//! Human-readable token display names.
//!
//! A freshly issued token's display name is a fixed prefix followed by a
//! request id in decimal, with no leading zeroes (a lone zero for id zero).

use vstd::prelude::*;

verus! {

/// The ASCII decimal digits of a number, most significant first.
pub open spec fn spec_decimal_digits(n: int) -> Seq<u8>
    decreases n,
{
    if n < 10 {
        seq![(48 + if n >= 0 { n } else { 0 }) as u8]
    } else {
        spec_decimal_digits(n / 10).push((48 + n % 10) as u8)
    }
}

/// Appends the decimal digits of `id` to the buffer.
fn append_decimal(out: &mut Vec<u8>, id: u64)
    ensures
        final(out)@ == old(out)@ + spec_decimal_digits(id as int),
    decreases id,
{
    if id >= 10 {
        append_decimal(out, id / 10);
    }
    let digit = (id % 10) as u8;
    out.push(48 + digit);
    proof {
        if id < 10 {
            assert(old(out)@ + spec_decimal_digits(id as int) =~= old(out)@.push(
                (48 + id) as u8,
            ));
        } else {
            assert(old(out)@ + spec_decimal_digits(id as int) =~= (old(out)@
                + spec_decimal_digits(id as int / 10)).push((48 + id as int % 10) as u8));
        }
    }
}

/// The display name of a token: the ticker prefix followed by the request
/// id in decimal.
pub fn build_token_display_name(prefix: &Vec<u8>, id: u64) -> (r: Vec<u8>)
    ensures
        r@ == prefix@ + spec_decimal_digits(id as int),
{
    let mut out: Vec<u8> = Vec::new();
    let n = prefix.len();
    let mut i: usize = 0;
    #[verifier::loop_isolation(false)]
    while i < n
        invariant
            0 <= i <= n,
            out@ =~= prefix@.take(i as int),
        decreases n - i,
    {
        out.push(prefix[i]);
        proof {
            assert(prefix@.take(i + 1) =~= prefix@.take(i as int).push(prefix@[i as int]));
        }
        i += 1;
    }
    proof {
        assert(prefix@.take(n as int) =~= prefix@);
    }
    append_decimal(&mut out, id);
    out
}

} // verus!
