//! The outbound payload of each cycle: `text ` followed by the cycle number
//! in decimal.
use vstd::prelude::*;

verus! {

/// ASCII digits of `n` in decimal, most significant first, no leading zero.
pub open spec fn decimal(n: nat) -> Seq<u8>
    decreases n,
{
    if n < 10 {
        seq![(48 + n) as u8]
    } else {
        decimal(n / 10).push((48 + n % 10) as u8)
    }
}

/// The bytes `text ` (ASCII).
pub open spec fn text_prefix() -> Seq<u8> {
    seq![116u8, 101u8, 120u8, 116u8, 32u8]
}

/// Payload sent in cycle `n`.
pub open spec fn payload_spec(n: nat) -> Seq<u8> {
    text_prefix() + decimal(n)
}

/// Appends the decimal digits of `n` to `out`.
pub fn push_decimal(n: u64, out: &mut Vec<u8>)
    ensures
        final(out)@ == old(out)@ + decimal(n as nat),
    decreases n,
{
    if n >= 10 {
        push_decimal(n / 10, out);
    }
    let digit: u8 = (n % 10) as u8;
    out.push(48u8 + digit);
    proof {
        if n < 10 {
            assert(old(out)@ + decimal(n as nat) =~= old(out)@.push((48 + n) as u8));
        } else {
            assert(old(out)@ + decimal(n as nat) =~= (old(out)@ + decimal((n / 10) as nat)).push(
                (48 + n % 10) as u8,
            ));
        }
    }
}

/// Builds the payload of cycle `n`.
pub fn payload_for(n: u64) -> (r: Vec<u8>)
    ensures
        r@ == payload_spec(n as nat),
{
    let mut out: Vec<u8> = Vec::new();
    out.push(116u8);
    out.push(101u8);
    out.push(120u8);
    out.push(116u8);
    out.push(32u8);
    assert(out@ =~= text_prefix());
    push_decimal(n, &mut out);
    out
}

} // verus!
