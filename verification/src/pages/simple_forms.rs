//! The checks of the smaller forms: a dashboard layout needs a name, and so does an
//! edited customer.

use vstd::prelude::*;
use crate::text::{all_white_space, chars_of, is_blank};

verus! {

/// The error shown when a dashboard layout is created without a name.
pub fn layout_name_error(name: &str) -> (r: Option<&'static str>)
    ensures
        r is Some <==> name@.len() == 0,
        r is Some ==> r->0@ == "Layout name is required."@,
{
    if chars_of(name).len() == 0 {
        Some("Layout name is required.")
    } else {
        None
    }
}

/// The warning shown when an edited customer is saved without a name: title and message.
pub fn customer_name_error(name: &str) -> (r: Option<(&'static str, &'static str)>)
    ensures
        all_white_space(name@) ==> r == Some(("Validation", "Customer name is required.")),
        !all_white_space(name@) ==> r is None,
{
    if is_blank(name) {
        Some(("Validation", "Customer name is required."))
    } else {
        None
    }
}

} // verus!
