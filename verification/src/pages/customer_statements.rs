//! Customer statements: which ledger lines fall in the chosen period.

use vstd::prelude::*;
use crate::text::{str_lt, text_before};

verus! {

/// A ledger line dated `date` is on the statement for the period from `from` to `to`
/// when `from <= date <= to` as texts (dates are written `YYYY-MM-DD`).
pub fn in_period(date: &str, from: &str, to: &str) -> (r: bool)
    ensures
        r == (!text_before(date@, from@) && !text_before(to@, date@)),
{
    !str_lt(date, from) && !str_lt(to, date)
}

} // verus!
