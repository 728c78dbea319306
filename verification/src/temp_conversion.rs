//! Conversion of a PT100 resistance to a temperature.
//!
//! Both quantities are scaled integers: the resistance in hundredths of an
//! ohm and the temperature in hundredths of a degree Celsius.  The PT100
//! curve is taken in its linear form `R = R0 * (1 + alpha * T)` with
//! `R0 = 100 ohm` and `alpha = 0.00385 / degree`, so that
//! `T = (R - R0) / (R0 * alpha)`: 100 ohm is 0 degrees, 0 ohm is about
//! -259.74 degrees and 400 ohm about 779.22 degrees.
use vstd::prelude::*;
use vstd::arithmetic::div_mod::lemma_div_is_ordered;

verus! {

/// The PT100 resistance at 0 degrees Celsius, in hundredths of an ohm.
pub const PT100_R0: i32 = 10000;

/// The largest resistance, in hundredths of an ohm, that the driver can
/// report: a 32-bit product shifted right by 15 bits.
pub const MAX_OHMS: i32 = 131071;

/// `a / b` rounded toward zero, as Rust's integer division does.
pub open spec fn div_toward_zero(a: int, b: int) -> int {
    if a >= 0 {
        a / b
    } else {
        -((-a) / b)
    }
}

/// The temperature, in hundredths of a degree Celsius, of a PT100 sensor
/// whose resistance is `ohms` hundredths of an ohm, rounded toward zero:
/// `(ohms - 10000) * 100 / 38.5`.
pub open spec fn pt100_temperature(ohms: int) -> int {
    div_toward_zero((ohms - PT100_R0) * 1000, 385)
}

/// Converts a PT100 resistance (hundredths of an ohm) into a temperature
/// (hundredths of a degree Celsius), for every resistance whose temperature
/// fits in an `i32`.
pub fn lookup_temperature(ohms: i32) -> (temp: i32)
    requires
        i32::MIN <= pt100_temperature(ohms as int) <= i32::MAX,
    ensures
        temp == pt100_temperature(ohms as int),
{
    let offset: i64 = ohms as i64 - PT100_R0 as i64;
    if offset >= 0 {
        let scaled: i64 = offset * 1000;
        (scaled / 385) as i32
    } else {
        let scaled: i64 = (-offset) * 1000;
        let magnitude: i64 = scaled / 385;
        (-magnitude) as i32
    }
}

/// A higher resistance never reads as a lower temperature.
pub proof fn lemma_temperature_monotonic(r1: int, r2: int)
    requires
        r1 <= r2,
    ensures
        pt100_temperature(r1) <= pt100_temperature(r2),
{
    let a = (r1 - PT100_R0) * 1000;
    let b = (r2 - PT100_R0) * 1000;
    assert(a <= b);
    if a >= 0 {
        lemma_div_is_ordered(a, b, 385);
    } else if b >= 0 {
        assert((-a) / 385 >= 0);
        assert(b / 385 >= 0);
    } else {
        lemma_div_is_ordered(-b, -a, 385);
    }
}

/// The resistance R0 reads as exactly 0 degrees; resistances above it read
/// at or above 0 degrees, and those below it at or below 0 degrees.
pub proof fn lemma_temperature_sign(r: int)
    ensures
        pt100_temperature(PT100_R0 as int) == 0,
        r >= PT100_R0 ==> pt100_temperature(r) >= 0,
        r <= PT100_R0 ==> pt100_temperature(r) <= 0,
{
    if r <= PT100_R0 {
        lemma_temperature_monotonic(r, PT100_R0 as int);
    } else {
        lemma_temperature_monotonic(PT100_R0 as int, r);
    }
}

/// Every resistance the driver can report converts to a temperature
/// between -259.74 and 3144.70 degrees.
pub proof fn lemma_temperature_range(r: int)
    requires
        0 <= r <= MAX_OHMS,
    ensures
        -25974 <= pt100_temperature(r) <= 314470,
{
    lemma_temperature_monotonic(0, r);
    lemma_temperature_monotonic(r, MAX_OHMS as int);
    assert(pt100_temperature(0) == -25974);
    assert(pt100_temperature(MAX_OHMS as int) == 314470);
}

/// The temperature of a resistance `r` is the linear PT100 value
/// `(r - 10000) * 100 / 38.5` rounded toward zero: `t` is the integer with
/// `385 * t <= (r - 10000) * 1000 < 385 * (t + 1)` at or above R0, and
/// `385 * (t - 1) < (r - 10000) * 1000 <= 385 * t` below it.
pub proof fn lemma_temperature_is_linear(r: int)
    ensures
        (r - 10000) * 1000 >= 0 ==> 385 * pt100_temperature(r) <= (r - 10000) * 1000 < 385 * (
        pt100_temperature(r) + 1),
        (r - 10000) * 1000 < 0 ==> 385 * (pt100_temperature(r) - 1) < (r - 10000) * 1000 <= 385
            * pt100_temperature(r),
{
    let d = (r - 10000) * 1000;
    if d >= 0 {
        vstd::arithmetic::div_mod::lemma_fundamental_div_mod(d, 385);
        assert(0 <= d % 385 < 385);
    } else {
        vstd::arithmetic::div_mod::lemma_fundamental_div_mod(-d, 385);
        assert(0 <= (-d) % 385 < 385);
    }
}

} // verus!
