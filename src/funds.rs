//! Fixed-point funds with four fractional decimal digits.
use vstd::prelude::*;

verus! {

/// Number of fractional decimal digits that `Funds` keeps.
pub const SCALE: u32 = 4;

/// Number of units in one whole currency unit (ten to the power `SCALE`).
pub const UNITS_PER_WHOLE: i64 = 10000;

/// Whether an exact integer count of units can be held by `Funds`.
pub open spec fn fits(v: int) -> bool {
    i64::MIN <= v <= i64::MAX
}

/// Ten to the power `n`.
pub open spec fn pow10(n: nat) -> int
    decreases n,
{
    if n == 0 {
        1
    } else {
        10 * pow10((n - 1) as nat)
    }
}

/// An amount of money, held exactly as a whole number of
/// ten-thousandths of a currency unit.
#[derive(Clone, Copy, Debug, PartialEq, Eq, Structural)]
pub struct Funds {
    pub units: i64,
}

impl Funds {
    /// The amount in ten-thousandths.
    pub open spec fn value(self) -> int {
        self.units as int
    }

    /// Funds holding exactly `v` ten-thousandths.
    pub open spec fn of(v: int) -> Funds {
        Funds { units: v as i64 }
    }

    pub fn zero() -> (r: Funds)
        ensures
            r.value() == 0,
    {
        Funds { units: 0 }
    }

    pub fn from_units(units: i64) -> (r: Funds)
        ensures
            r.units == units,
    {
        Funds { units }
    }

    pub fn units(&self) -> (r: i64)
        ensures
            r == self.units,
    {
        self.units
    }

    /// The amount of `n` whole currency units.
    pub fn whole(n: i32) -> (r: Funds)
        ensures
            r.value() == n * UNITS_PER_WHOLE,
    {
        Funds { units: n as i64 * UNITS_PER_WHOLE }
    }

    /// The amount `mantissa * 10^(-scale)`, when it has at most `SCALE`
    /// fractional digits and fits.
    pub fn from_scaled(mantissa: i128, scale: u32) -> (r: Option<Funds>)
        ensures
            r is Some <==> scale <= SCALE && fits(mantissa * pow10((SCALE - scale) as nat)),
            r matches Some(f) ==> f.value() == mantissa * pow10((SCALE - scale) as nat),
    {
        if scale > SCALE {
            return None;
        }
        let factor: i128 = if scale == 0 {
            10000
        } else if scale == 1 {
            1000
        } else if scale == 2 {
            100
        } else if scale == 3 {
            10
        } else {
            1
        };
        proof {
            reveal_with_fuel(pow10, 5);
            assert(factor == pow10((SCALE - scale) as nat));
        }
        if mantissa < i64::MIN as i128 || mantissa > i64::MAX as i128 {
            assert(!fits(mantissa * factor)) by (nonlinear_arith)
                requires
                    mantissa < i64::MIN || mantissa > i64::MAX,
                    1 <= factor,
            ;
            return None;
        }
        assert(i64::MIN * 10000 <= mantissa * factor <= i64::MAX * 10000) by (nonlinear_arith)
            requires
                i64::MIN <= mantissa <= i64::MAX,
                1 <= factor <= 10000,
        ;
        let v: i128 = mantissa * factor;
        if v < i64::MIN as i128 || v > i64::MAX as i128 {
            None
        } else {
            Some(Funds { units: v as i64 })
        }
    }

    /// The sum, when it fits.
    pub fn checked_add(self, other: Funds) -> (r: Option<Funds>)
        ensures
            r is Some <==> fits(self.value() + other.value()),
            r matches Some(f) ==> f.value() == self.value() + other.value(),
    {
        let v: i128 = self.units as i128 + other.units as i128;
        if v < i64::MIN as i128 || v > i64::MAX as i128 {
            None
        } else {
            Some(Funds { units: v as i64 })
        }
    }

    /// The difference, when it fits.
    pub fn checked_sub(self, other: Funds) -> (r: Option<Funds>)
        ensures
            r is Some <==> fits(self.value() - other.value()),
            r matches Some(f) ==> f.value() == self.value() - other.value(),
    {
        let v: i128 = self.units as i128 - other.units as i128;
        if v < i64::MIN as i128 || v > i64::MAX as i128 {
            None
        } else {
            Some(Funds { units: v as i64 })
        }
    }
}

} // verus!
