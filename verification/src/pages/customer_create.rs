//! New customer form: when it may be submitted and what is checked before it is saved.

use vstd::prelude::*;
use crate::text::{all_white_space, chars_of, is_blank};

verus! {

/// The save button is enabled once a code and a name are typed.
pub fn can_submit(customer_code: &str, customer_name: &str) -> (r: bool)
    ensures
        r == (customer_code@.len() > 0 && customer_name@.len() > 0),
{
    chars_of(customer_code).len() > 0 && chars_of(customer_name).len() > 0
}

/// The error shown when the form is saved: the code and the name must hold more than
/// white space.
pub fn customer_form_error(customer_code: &str, customer_name: &str) -> (r: Option<&'static str>)
    ensures
        r is Some <==> (all_white_space(customer_code@) || all_white_space(customer_name@)),
        r is Some ==> r->0@ == "Customer code and name are required."@,
{
    if is_blank(customer_code) || is_blank(customer_name) {
        Some("Customer code and name are required.")
    } else {
        None
    }
}

} // verus!
