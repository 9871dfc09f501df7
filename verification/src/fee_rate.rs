use vstd::prelude::*;
use vstd::string::StringExecFns;

use crate::amount::Amount;
use crate::weight::Weight;

verus! {

/// What the decimal rendering of a 64-bit integer is: named, not written
/// out.
pub uninterp spec fn decimal_str_of(n: u64) -> Seq<char>;

/// Relies on `format!`'s decimal rendering of an unsigned integer: a
/// function of the value alone.
#[verifier::external_body]
fn u64_decimal(n: u64) -> (r: String)
    ensures
        r@ == decimal_str_of(n),
{
    format!("{}", n)
}

/// A fee rate in satoshis per 1000 weight units (sat/kwu).
///
/// An integer newtype: all unit conversions are defined relative to the
/// fixed ratio of 4 weight units per virtual byte, so one satoshi per
/// virtual byte is 250 sat/kwu.
#[derive(Debug, Copy, Clone, PartialEq, Eq, Structural, PartialOrd, Ord, Hash)]
pub struct FeeRate {
    sat_kwu: u64,
}

impl View for FeeRate {
    type V = u64;

    closed spec fn view(&self) -> u64 {
        self.sat_kwu
    }
}

/// The sum of the underlying sat/kwu values of a sequence of rates.
pub open spec fn sum_of_rates(rates: Seq<FeeRate>) -> int
    decreases rates.len(),
{
    if rates.len() == 0 {
        0
    } else {
        sum_of_rates(rates.drop_last()) + rates.last()@
    }
}

impl FeeRate {
    /// 0 sat/kwu.
    ///
    /// Equal to [`Self::min`]; may better express intent in some contexts.
    pub fn zero() -> (r: FeeRate)
        ensures
            r@ == 0,
    {
        FeeRate { sat_kwu: 0 }
    }

    /// Minimum possible value (0 sat/kwu).
    pub fn min() -> (r: FeeRate)
        ensures
            r@ == 0,
    {
        FeeRate { sat_kwu: 0 }
    }

    /// Maximum possible value.
    pub fn max() -> (r: FeeRate)
        ensures
            r@ == u64::MAX,
    {
        FeeRate { sat_kwu: u64::MAX }
    }

    /// Minimum fee rate required to broadcast a transaction (1 sat/vb).
    ///
    /// The value matches the long-standing default relay policy.
    pub fn broadcast_min() -> (r: FeeRate)
        ensures
            r@ == 250,
    {
        FeeRate { sat_kwu: 250 }
    }

    /// Fee rate used to compute the dust amount (3 sat/vb).
    pub fn dust() -> (r: FeeRate)
        ensures
            r@ == 750,
    {
        FeeRate { sat_kwu: 750 }
    }

    /// Constructs a new fee rate from satoshis per 1000 weight units.
    pub fn from_sat_per_kwu(sat_kwu: u64) -> (r: FeeRate)
        ensures
            r@ == sat_kwu,
    {
        FeeRate { sat_kwu }
    }

    /// Constructs a new fee rate from satoshis per virtual byte.
    ///
    /// Returns `None` exactly when `sat_vb * 250` overflows.
    pub fn from_sat_per_vb(sat_vb: u64) -> (r: Option<FeeRate>)
        ensures
            match r {
                Some(f) => sat_vb * 250 <= u64::MAX && f@ == sat_vb * 250,
                None => sat_vb * 250 > u64::MAX,
            },
    {
        match sat_vb.checked_mul(1000 / 4) {
            Some(sat_kwu) => Some(FeeRate { sat_kwu }),
            None => None,
        }
    }

    /// Constructs a new fee rate from satoshis per virtual byte, for callers
    /// that already know the product fits; overflow is ruled out up front
    /// rather than reported.
    pub fn from_sat_per_vb_unchecked(sat_vb: u64) -> (r: FeeRate)
        requires
            sat_vb * 250 <= u64::MAX,
        ensures
            r@ == sat_vb * 250,
    {
        FeeRate { sat_kwu: sat_vb * (1000 / 4) }
    }

    /// Constructs a new fee rate from satoshis per kilo virtual byte
    /// (1000 virtual bytes), truncating: the division by 4 deliberately
    /// accepts precision loss instead of failing.
    pub fn from_sat_per_kvb(sat_kvb: u64) -> (r: FeeRate)
        ensures
            r@ == sat_kvb / 4,
    {
        FeeRate { sat_kwu: sat_kvb / 4 }
    }

    /// Returns the raw fee rate in sat/kwu.
    pub fn to_sat_per_kwu(self) -> (r: u64)
        ensures
            r == self@,
    {
        self.sat_kwu
    }

    /// Converts to satoshis per virtual byte, rounding down.
    pub fn to_sat_per_vb_floor(self) -> (r: u64)
        ensures
            r == self@ / 250,
    {
        self.sat_kwu / (1000 / 4)
    }

    /// Converts to satoshis per virtual byte, rounding up, so that a quoted
    /// rate never under-reports the stored one.
    pub fn to_sat_per_vb_ceil(self) -> (r: u64)
        ensures
            r == (self@ + 249) / 250,
    {
        let q = self.sat_kwu / 250;
        let rem = self.sat_kwu % 250;
        proof {
            vstd::arithmetic::div_mod::lemma_fundamental_div_mod(self@ as int, 250);
        }
        if rem == 0 {
            proof {
                vstd::arithmetic::div_mod::lemma_fundamental_div_mod_converse(
                    self@ + 249,
                    250,
                    q as int,
                    249,
                );
            }
            q
        } else {
            proof {
                vstd::arithmetic::div_mod::lemma_fundamental_div_mod_converse(
                    self@ + 249,
                    250,
                    q as int + 1,
                    rem as int - 1,
                );
            }
            q + 1
        }
    }

    /// Checked multiplication by a scalar.
    ///
    /// Returns `None` exactly when `self * rhs` overflows.
    pub fn checked_mul(self, rhs: u64) -> (r: Option<FeeRate>)
        ensures
            match r {
                Some(f) => self@ * rhs <= u64::MAX && f@ == self@ * rhs,
                None => self@ * rhs > u64::MAX,
            },
    {
        match self.sat_kwu.checked_mul(rhs) {
            Some(res) => Some(FeeRate { sat_kwu: res }),
            None => None,
        }
    }

    /// Checked division by a scalar, truncating.
    ///
    /// Returns `None` exactly when `rhs == 0`.
    pub fn checked_div(self, rhs: u64) -> (r: Option<FeeRate>)
        ensures
            match r {
                Some(f) => rhs != 0 && f@ == self@ / rhs,
                None => rhs == 0,
            },
    {
        match self.sat_kwu.checked_div(rhs) {
            Some(res) => Some(FeeRate { sat_kwu: res }),
            None => None,
        }
    }

    /// Checked weight multiplication: the absolute fee owed for `weight` at
    /// this rate, rounded upward so the fee never falls short.
    ///
    /// Returns `None` exactly when a step of the computation overflows.
    pub fn checked_mul_by_weight(self, weight: Weight) -> (r: Option<Amount>)
        ensures
            match r {
                Some(a) => self@ * weight@ + 999 <= u64::MAX && a@ == (self@ * weight@ + 999)
                    / 1000,
                None => self@ * weight@ + 999 > u64::MAX,
            },
    {
        match self.sat_kwu.checked_mul(weight.to_wu()) {
            Some(mul_res) => match mul_res.checked_add(999) {
                Some(add_res) => Some(Amount::from_sat(add_res / 1000)),
                None => None,
            },
            None => None,
        }
    }

    /// Checked addition of a raw sat/kwu value.
    ///
    /// Returns `None` exactly when `self + rhs` overflows.
    pub fn checked_add(self, rhs: u64) -> (r: Option<FeeRate>)
        ensures
            match r {
                Some(f) => self@ + rhs <= u64::MAX && f@ == self@ + rhs,
                None => self@ + rhs > u64::MAX,
            },
    {
        match self.sat_kwu.checked_add(rhs) {
            Some(res) => Some(FeeRate { sat_kwu: res }),
            None => None,
        }
    }

    /// Checked subtraction of a raw sat/kwu value.
    ///
    /// Returns `None` exactly when `rhs` exceeds `self`.
    pub fn checked_sub(self, rhs: u64) -> (r: Option<FeeRate>)
        ensures
            match r {
                Some(f) => rhs <= self@ && f@ == self@ - rhs,
                None => rhs > self@,
            },
    {
        match self.sat_kwu.checked_sub(rhs) {
            Some(res) => Some(FeeRate { sat_kwu: res }),
            None => None,
        }
    }

    /// The fee for a weight given in weight units; same as
    /// [`Self::checked_mul_by_weight`].
    pub fn fee_wu(self, weight: Weight) -> (r: Option<Amount>)
        ensures
            match r {
                Some(a) => self@ * weight@ + 999 <= u64::MAX && a@ == (self@ * weight@ + 999)
                    / 1000,
                None => self@ * weight@ + 999 > u64::MAX,
            },
    {
        self.checked_mul_by_weight(weight)
    }

    /// The fee for a size given in virtual bytes: the size is converted to
    /// weight units first, and `None` is returned if either that conversion
    /// or the fee computation overflows.
    pub fn fee_vb(self, vb: u64) -> (r: Option<Amount>)
        ensures
            match r {
                Some(a) => vb * 4 <= u64::MAX && self@ * (vb * 4) + 999 <= u64::MAX && a@ == (self@
                    * (vb * 4) + 999) / 1000,
                None => vb * 4 > u64::MAX || self@ * (vb * 4) + 999 > u64::MAX,
            },
    {
        match Weight::from_vb(vb) {
            Some(w) => self.fee_wu(w),
            None => None,
        }
    }

    /// The default rendering: the bare sat/kwu integer in decimal.
    pub fn to_display_string(self) -> (r: String)
        ensures
            r@ == decimal_str_of(self@),
    {
        u64_decimal(self.sat_kwu)
    }

    /// The verbose rendering: the ceiling-rounded virtual-byte rate with a
    /// fixed unit suffix. The two zeros after the point are cosmetic: the
    /// conversion has already rounded away any fractional part.
    pub fn to_alternate_string(self) -> (r: String)
        ensures
            r@ == decimal_str_of(((self@ + 249) / 250) as u64) + ".00 sat/vbyte"@,
    {
        let per_vb = self.to_sat_per_vb_ceil();
        u64_decimal(per_vb).concat(".00 sat/vbyte")
    }

    /// Addition of two rates, for callers that already know the sum fits;
    /// overflow is ruled out up front rather than reported.
    pub fn add_rate(self, rhs: FeeRate) -> (r: FeeRate)
        requires
            self@ + rhs@ <= u64::MAX,
        ensures
            r@ == self@ + rhs@,
    {
        FeeRate { sat_kwu: self.sat_kwu + rhs.sat_kwu }
    }

    /// Subtraction of two rates, for callers that already know the
    /// difference is not negative.
    pub fn sub_rate(self, rhs: FeeRate) -> (r: FeeRate)
        requires
            rhs@ <= self@,
        ensures
            r@ == self@ - rhs@,
    {
        FeeRate { sat_kwu: self.sat_kwu - rhs.sat_kwu }
    }

    /// The fee owed for `weight` at this rate, rounded upward, for callers
    /// that already know the computation fits.
    pub fn mul_by_weight(self, weight: Weight) -> (r: Amount)
        requires
            self@ * weight@ + 999 <= u64::MAX,
        ensures
            r@ == (self@ * weight@ + 999) / 1000,
    {
        Amount::from_sat((self.sat_kwu * weight.to_wu() + 999) / 1000)
    }
}

impl Amount {
    /// The effective rate of paying this amount for `weight`, by truncating
    /// division.
    ///
    /// Truncation makes this a low-level primitive that usually under-reports
    /// the rate; the ceiling-based weight multiplication is normally the
    /// operation to prefer.
    pub fn div_by_weight(self, weight: Weight) -> (r: FeeRate)
        requires
            weight@ != 0,
            self@ * 1000 <= u64::MAX,
        ensures
            r@ == (self@ * 1000) / (weight@ as int),
    {
        FeeRate { sat_kwu: self.to_sat() * 1000 / weight.to_wu() }
    }
}

/// The arithmetic sum of a sequence of rates, for callers that already know
/// the sum fits.
pub fn sum_rates(rates: &Vec<FeeRate>) -> (r: FeeRate)
    requires
        sum_of_rates(rates@) <= u64::MAX,
    ensures
        r@ == sum_of_rates(rates@),
{
    let mut total: u64 = 0;
    let mut i: usize = 0;
    while i < rates.len()
        invariant
            i <= rates@.len(),
            total == sum_of_rates(rates@.take(i as int)),
            sum_of_rates(rates@) <= u64::MAX,
        decreases rates@.len() - i,
    {
        proof {
            lemma_sum_take_step(rates@, i as int);
            lemma_sum_take_bound(rates@, i as int + 1);
        }
        total = total + rates[i].sat_kwu;
        i = i + 1;
    }
    proof {
        assert(rates@.take(rates@.len() as int) =~= rates@);
    }
    FeeRate { sat_kwu: total }
}

/// Taking one more element adds exactly its value to the running sum.
proof fn lemma_sum_take_step(rates: Seq<FeeRate>, i: int)
    requires
        0 <= i < rates.len(),
    ensures
        sum_of_rates(rates.take(i + 1)) == sum_of_rates(rates.take(i)) + rates[i]@,
{
    assert(rates.take(i + 1).drop_last() =~= rates.take(i));
    assert(rates.take(i + 1).last() == rates[i]);
}

/// Every prefix sum is bounded by the sum of the whole sequence.
proof fn lemma_sum_take_bound(rates: Seq<FeeRate>, i: int)
    requires
        0 <= i <= rates.len(),
    ensures
        sum_of_rates(rates.take(i)) <= sum_of_rates(rates),
    decreases rates.len() - i,
{
    if i == rates.len() {
        assert(rates.take(i) =~= rates);
    } else {
        lemma_sum_take_step(rates, i);
        lemma_sum_take_bound(rates, i + 1);
    }
}

/// Converting a whole number of satoshis per virtual byte to sat/kwu and
/// flooring back is exact: no information is lost on the round trip.
pub proof fn lemma_sat_per_vb_round_trip(sat_vb: u64)
    requires
        sat_vb * 250 <= u64::MAX,
    ensures
        (sat_vb * 250) / 250 == sat_vb,
{
    vstd::arithmetic::div_mod::lemma_div_by_multiple(sat_vb as int, 250);
}

/// The computed fee is the smallest whole number of satoshis whose kwu-scale
/// value covers `rate * weight`: it is at least the exact product, and less
/// than one full satoshi above it.
pub proof fn lemma_fee_rounds_up(rate: u64, weight: u64)
    requires
        rate * weight + 999 <= u64::MAX,
    ensures
        1000 * ((rate * weight + 999) / 1000) >= rate * weight,
        1000 * ((rate * weight + 999) / 1000) < rate * weight + 1000,
{
    let p = rate * weight;
    vstd::arithmetic::div_mod::lemma_fundamental_div_mod(p + 999, 1000);
    vstd::arithmetic::div_mod::lemma_mod_division_less_than_divisor(p + 999, 1000);
}

} // verus!
