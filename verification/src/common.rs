//! Types shared by several schemas: good/amount pairs, abundance entries,
//! and exact temperatures.

use vstd::prelude::*;

use crate::decimal::{Decimal, MANT_LIMIT};

verus! {

/// The model of a sequence of viewable values.
pub open spec fn seq_view<T: View>(s: Seq<T>) -> Seq<T::V> {
    s.map_values(|x: T| x@)
}

/// One good consumed or produced, with its exact amount.
#[derive(Clone, Debug, PartialEq)]
pub struct GoodConsumes {
    pub id: String,
    pub amount: Decimal,
}

pub struct MGoodConsumes {
    pub id: Seq<char>,
    pub amount: Decimal,
}

impl View for GoodConsumes {
    type V = MGoodConsumes;

    open spec fn view(&self) -> MGoodConsumes {
        MGoodConsumes { id: self.id@, amount: self.amount }
    }
}

/// The distribution of one good on a planet type.
#[derive(Clone, Debug, PartialEq)]
pub struct GoodAbundance {
    pub id: String,
    pub mean: Decimal,
    pub std_dev: Decimal,
}

pub struct MGoodAbundance {
    pub id: Seq<char>,
    pub mean: Decimal,
    pub std_dev: Decimal,
}

impl View for GoodAbundance {
    type V = MGoodAbundance;

    open spec fn view(&self) -> MGoodAbundance {
        MGoodAbundance { id: self.id@, mean: self.mean, std_dev: self.std_dev }
    }
}

impl Default for GoodAbundance {
    fn default() -> (r: GoodAbundance)
        ensures
            r@.id == Seq::<char>::empty(),
            r@.mean == (Decimal { mant: 0, scale: 0 }),
            r@.std_dev == (Decimal { mant: 0, scale: 0 }),
    {
        GoodAbundance { id: String::new(), mean: Decimal::zero(), std_dev: Decimal::zero() }
    }
}

/// The shift between the Celsius and Kelvin scales, exactly 273.15.
pub open spec fn kelvin_offset() -> Decimal {
    Decimal { mant: 27315, scale: 2 }
}

/// An exact temperature, stored in kelvin as written (or as converted from
/// a Celsius literal).
#[derive(Clone, Copy, Debug, PartialEq, Eq, Structural)]
pub struct Temperature {
    pub kelvin_exact: Decimal,
}

impl Default for Temperature {
    fn default() -> (r: Temperature)
        ensures
            r == (Temperature { kelvin_exact: Decimal { mant: 0, scale: 0 } }),
    {
        Temperature { kelvin_exact: Decimal::zero() }
    }
}

impl Temperature {
    pub open spec fn wf(self) -> bool {
        self.kelvin_exact.wf()
    }

    /// The temperature a Celsius literal denotes, `None` when the shifted
    /// mantissa leaves the representable range.
    pub open spec fn spec_from_celsius(c: Decimal) -> Option<Temperature> {
        let m = c.sum_mant(kelvin_offset());
        let s = c.join_scale(kelvin_offset());
        if -MANT_LIMIT < m < MANT_LIMIT {
            Some(Temperature { kelvin_exact: Decimal { mant: m as i128, scale: s as u32 } })
        } else {
            None
        }
    }

    /// Converts a Celsius value, reporting an unrepresentable result.
    pub fn from_celsius_checked(temp: Decimal) -> (r: Option<Temperature>)
        requires
            temp.wf(),
        ensures
            r == Temperature::spec_from_celsius(temp),
            r is Some ==> r.unwrap().wf(),
    {
        let off = Decimal { mant: 27315, scale: 2 };
        match temp.checked_add(&off) {
            Some(k) => Some(Temperature { kelvin_exact: k }),
            None => None,
        }
    }

    /// Converts a Celsius value known to be representable.
    pub fn from_celsius(temp: Decimal) -> (r: Temperature)
        requires
            temp.wf(),
            Temperature::spec_from_celsius(temp) is Some,
        ensures
            Some(r) == Temperature::spec_from_celsius(temp),
            r.wf(),
    {
        let off = Decimal { mant: 27315, scale: 2 };
        match temp.checked_add(&off) {
            Some(k) => Temperature { kelvin_exact: k },
            None => {
                proof {
                    assert(false);
                }
                Temperature { kelvin_exact: Decimal::zero() }
            },
        }
    }

    /// Wraps a Kelvin value unchanged.
    pub fn from_kelvin(temp: Decimal) -> (r: Temperature)
        ensures
            r == (Temperature { kelvin_exact: temp }),
    {
        Temperature { kelvin_exact: temp }
    }

    /// The Celsius value this temperature denotes, truncated to two
    /// fractional digits; `None` when the shifted mantissa leaves the range.
    pub open spec fn spec_celsius(self) -> Option<Decimal> {
        let off = kelvin_offset().neg_spec();
        let m = self.kelvin_exact.sum_mant(off);
        let s = self.kelvin_exact.join_scale(off);
        if -MANT_LIMIT < m < MANT_LIMIT {
            Some((Decimal { mant: m as i128, scale: s as u32 }).trunc_spec(2))
        } else {
            None
        }
    }

    /// Kelvin, truncated to two fractional digits.
    pub fn kelvin(&self) -> (r: Decimal)
        requires
            self.wf(),
        ensures
            r == self.kelvin_exact.trunc_spec(2),
    {
        self.kelvin_exact.trunc_with_scale(2)
    }

    /// Celsius, truncated to two fractional digits.
    pub fn celsius(&self) -> (r: Decimal)
        requires
            self.wf(),
            self.spec_celsius() is Some,
        ensures
            Some(r) == self.spec_celsius(),
    {
        let off = Decimal { mant: 27315, scale: 2 };
        match self.kelvin_exact.checked_sub(&off) {
            Some(c) => c.trunc_with_scale(2),
            None => {
                proof {
                    assert(false);
                }
                Decimal::zero()
            },
        }
    }
}

} // verus!
