use vstd::prelude::*;

verus! {

/// Microseconds in one second; frame times are whole microseconds.
pub const MICROS_PER_SECOND: u32 = 1_000_000;

/// Billionths in one thousandth: a tuning constant times this is an amount
/// of state.
pub const NANOS_PER_MILLI: i64 = 1_000_000;

/// Billionths in one whole unit (or radian).
pub const NANOS_PER_UNIT: i64 = 1_000_000_000;

/// The amount of state, in billionths, that `thousandths` stands for.
pub open spec fn nanos(thousandths: int) -> int {
    thousandths * 1_000_000
}

/// `nanos`, computed.
pub fn to_nanos(thousandths: u32) -> (amount: i64)
    ensures
        amount == nanos(thousandths as int),
        0 <= amount <= 4_294_967_295_000_000,
{
    thousandths as i64 * 1_000_000
}

/// The absolute value of `v`.
pub open spec fn magnitude(v: int) -> int {
    if v < 0 {
        -v
    } else {
        v
    }
}

/// `n / d` rounded toward zero, for a positive `d`.
pub open spec fn toward_zero(n: int, d: int) -> int {
    if n >= 0 {
        n / d
    } else {
        -((-n) / d)
    }
}

} // verus!
