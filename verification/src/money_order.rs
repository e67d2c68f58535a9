//! The order of amounts: by numeric value, as `Decimal` orders them.

use vstd::prelude::*;
use core::cmp::Ordering;
use crate::decimal::{decimal_eq, decimal_lt};
use crate::money::Money;

verus! {

impl core::cmp::PartialOrd for Money {
    /// Compares the numeric values: `1.5` and `1.50` are equal, `-2` comes before `1`.
    fn partial_cmp(&self, other: &Money) -> (r: Option<Ordering>) {
        if decimal_lt(*self, *other) {
            Some(Ordering::Less)
        } else if decimal_eq(*self, *other) {
            Some(Ordering::Equal)
        } else {
            Some(Ordering::Greater)
        }
    }
}

impl vstd::std_specs::cmp::PartialOrdSpecImpl for Money {
    open spec fn obeys_partial_cmp_spec() -> bool {
        true
    }

    open spec fn partial_cmp_spec(&self, other: &Money) -> Option<Ordering> {
        if self.units() < other.units() {
            Some(Ordering::Less)
        } else if self.units() == other.units() {
            Some(Ordering::Equal)
        } else {
            Some(Ordering::Greater)
        }
    }
}

} // verus!
