use vstd::prelude::*;

verus! {

/// The fixed-point scale: a rate of `SCALE` stands for exactly 1.0.
pub const SCALE: u128 = 1_000_000_000;

/// The largest base rate whose product with `SCALE * SCALE` fits in 128 bits.
pub const MAX_BASE_RATE: u128 = 340_282_366_920_938_463_463;

/// The rate of a base in terms of a quote, both given in terms of one common
/// unit: base to the unit, then the unit to the quote, rounded down.
pub open spec fn spec_cross_rate(base_rate: u128, quote_rate: u128) -> int {
    base_rate * SCALE * SCALE / (quote_rate as int)
}

/// Whether the cross rate can be computed: the quote rate is not zero and the
/// scaled base rate fits in 128 bits.
pub open spec fn cross_rate_defined(base_rate: u128, quote_rate: u128) -> bool {
    quote_rate > 0 && base_rate * SCALE * SCALE <= u128::MAX
}

/// Decides `cross_rate_defined`.
pub fn can_cross_rate(base_rate: u128, quote_rate: u128) -> (defined: bool)
    ensures
        defined == cross_rate_defined(base_rate, quote_rate),
{
    quote_rate > 0 && base_rate <= MAX_BASE_RATE
}

/// The cross rate of two rates over a common unit.
pub fn cross_rate(base_rate: u128, quote_rate: u128) -> (rate: u128)
    requires
        cross_rate_defined(base_rate, quote_rate),
    ensures
        rate == spec_cross_rate(base_rate, quote_rate),
{
    base_rate * SCALE * SCALE / quote_rate
}

} // verus!
