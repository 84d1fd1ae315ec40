//! Decimal rendering of the payload length.
//!
//! The response's `Content-Length` header carries the byte length of the
//! served payload written in decimal. The rendering is specified by
//! [`spec_decimal`], and [`lemma_decimal_value`] shows that the digits
//! denote exactly the rendered number.

use vstd::prelude::*;

verus! {

/// The decimal digits of `n` as ASCII bytes, most significant first.
pub open spec fn spec_decimal(n: nat) -> Seq<u8>
    decreases n,
{
    if n < 10 {
        seq![(n + 48) as u8]
    } else {
        spec_decimal(n / 10).push((n % 10 + 48) as u8)
    }
}

/// The number denoted by a sequence of ASCII decimal digit bytes.
pub open spec fn digits_value(s: Seq<u8>) -> int
    decreases s.len(),
{
    if s.len() == 0 {
        0
    } else {
        digits_value(s.drop_last()) * 10 + s.last() - 48
    }
}

/// Render `n` in decimal, most significant digit first.
pub fn u64_to_decimal(n: u64) -> (digits: Vec<u8>)
    ensures
        digits@ == spec_decimal(n as nat),
    decreases n,
{
    if n < 10 {
        let mut digits: Vec<u8> = Vec::new();
        digits.push((n as u8) + 48);
        proof {
            assert(digits@ =~= spec_decimal(n as nat));
        }
        digits
    } else {
        let mut digits = u64_to_decimal(n / 10);
        digits.push(((n % 10) as u8) + 48);
        digits
    }
}

/// The rendering of `n` is non-empty and consists of digit characters only.
pub proof fn lemma_decimal_shape(n: nat)
    ensures
        spec_decimal(n).len() >= 1,
        forall|i: int| 0 <= i < spec_decimal(n).len() ==> 48 <= #[trigger] spec_decimal(n)[i] <= 57,
    decreases n,
{
    if n >= 10 {
        lemma_decimal_shape(n / 10);
    }
}

/// The decimal rendering of `n` denotes `n`: reading the digit bytes back
/// as a number recovers exactly the rendered value.
pub proof fn lemma_decimal_value(n: nat)
    ensures
        digits_value(spec_decimal(n)) == n,
    decreases n,
{
    if n < 10 {
        let s = spec_decimal(n);
        assert(s.drop_last() =~= Seq::<u8>::empty());
        assert(s.last() == (n + 48) as u8);
        assert(digits_value(s) == digits_value(s.drop_last()) * 10 + s.last() - 48);
        assert(digits_value(Seq::<u8>::empty()) == 0);
    } else {
        lemma_decimal_value(n / 10);
        let s = spec_decimal(n / 10);
        let d = (n % 10 + 48) as u8;
        assert(spec_decimal(n) == s.push(d));
        assert(s.push(d).drop_last() =~= s);
        assert(s.push(d).last() == d);
        assert(digits_value(s.push(d)) == digits_value(s) * 10 + d - 48);
        assert(d == n % 10 + 48);
        vstd::arithmetic::div_mod::lemma_fundamental_div_mod(n as int, 10);
        assert((n / 10) * 10 + n % 10 == n);
    }
}

} // verus!
