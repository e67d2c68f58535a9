//! Bills of materials: the units a component can be measured in and the badge of each status.

use vstd::prelude::*;
use crate::text::str_eq;
use crate::pages::select::{options_view, select_option, SelectOption};

verus! {

/// The values and labels of the unit of measure of a component line.
pub open spec fn uom_options_spec() -> Seq<(Seq<char>, Seq<char>)> {
    seq![
        ("pcs"@, "Pieces (pcs)"@),
        ("kg"@, "Kilograms (kg)"@),
        ("liters"@, "Liters"@),
        ("meters"@, "Meters (m)"@),
        ("sheets"@, "Sheets"@),
    ]
}

/// The choices of the unit of measure of a component line.
pub fn uom_options() -> (r: Vec<SelectOption>)
    ensures
        options_view(r@) == uom_options_spec(),
{
    let mut r: Vec<SelectOption> = Vec::new();
    r.push(select_option("pcs", "Pieces (pcs)"));
    r.push(select_option("kg", "Kilograms (kg)"));
    r.push(select_option("liters", "Liters"));
    r.push(select_option("meters", "Meters (m)"));
    r.push(select_option("sheets", "Sheets"));
    proof {
        assert(options_view(r@) =~= uom_options_spec());
    }
    r
}

/// The badge class of a bill-of-materials status.
pub open spec fn status_badge_class_of(status: Seq<char>) -> Seq<char> {
    if status == "Active"@ {
        "badge badge-success"@
    } else if status == "Draft"@ {
        "badge badge-warning"@
    } else if status == "Inactive"@ {
        "badge badge-secondary"@
    } else {
        "badge badge-secondary"@
    }
}

/// The badge class of a bill-of-materials status.
pub fn status_badge_class(status: &str) -> (r: &'static str)
    ensures
        r@ == status_badge_class_of(status@),
{
    if str_eq(status, "Active") {
        "badge badge-success"
    } else if str_eq(status, "Draft") {
        "badge badge-warning"
    } else if str_eq(status, "Inactive") {
        "badge badge-secondary"
    } else {
        "badge badge-secondary"
    }
}

/// What the check of a component line reads: its item and whether its quantity is above zero.
#[derive(Clone, Debug)]
pub struct ComponentLineCheck {
    pub item_code: String,
    pub quantity_positive: bool,
}

/// A component line is complete when it has an item and a quantity above zero.
pub open spec fn line_complete(l: ComponentLineCheck) -> bool {
    l.item_code@.len() > 0 && l.quantity_positive
}

/// The messages of the bill-of-materials form.
pub struct BomFormErrors {
    pub item: Option<&'static str>,
    pub components: Option<&'static str>,
}

/// Checks the bill-of-materials form: a finished item must be chosen, and every component
/// line must be complete.
pub fn validate_bom_form(finished_item: &str, lines: &Vec<ComponentLineCheck>) -> (r: BomFormErrors)
    ensures
        r.item is Some <==> finished_item@.len() == 0,
        r.item is Some ==> r.item->0@ == "Finished item is required."@,
        r.components is Some <==> !(forall|i: int| 0 <= i < lines@.len() ==> line_complete(#[trigger] lines@[i])),
        r.components is Some ==> r.components->0@ == "All component lines must have an item and quantity > 0."@,
{
    let item = if crate::text::chars_of(finished_item).len() == 0 {
        Some("Finished item is required.")
    } else {
        None
    };
    let mut all = true;
    let mut i: usize = 0;
    while i < lines.len()
        invariant
            i <= lines.len(),
            all <==> forall|j: int| 0 <= j < i ==> line_complete(#[trigger] lines@[j]),
        decreases lines.len() - i,
    {
        let l = &lines[i];
        if crate::text::chars_of(l.item_code.as_str()).len() == 0 || !l.quantity_positive {
            all = false;
        }
        i = i + 1;
    }
    let components = if all {
        None
    } else {
        Some("All component lines must have an item and quantity > 0.")
    };
    BomFormErrors { item, components }
}

/// The name a bill of materials is saved under: the typed code, or `New BOM` when none is typed.
pub fn bom_name_or_default(code: &str) -> (r: String)
    ensures
        code@.len() == 0 ==> r@ == "New BOM"@,
        code@.len() > 0 ==> r@ == code@,
{
    if crate::text::chars_of(code).len() == 0 {
        String::from_str("New BOM")
    } else {
        String::from_str(code)
    }
}

/// A bill of materials shows as a success exactly when `Active`, as a warning exactly when `Draft`, and as secondary for any other status, `Inactive` among them.
pub proof fn law_bom_badges(s: Seq<char>)
    ensures
        (status_badge_class_of(s) == "badge badge-success"@) == (s == "Active"@),
        (status_badge_class_of(s) == "badge badge-warning"@) == (s == "Draft"@),
        (status_badge_class_of(s) == "badge badge-secondary"@) == (s != "Active"@ && s != "Draft"@),
{
    reveal_strlit("Active");
    reveal_strlit("Draft");
    reveal_strlit("badge badge-secondary");
    reveal_strlit("badge badge-success");
    reveal_strlit("badge badge-warning");
    assert("Active"@.len() == 6);
    assert("Draft"@.len() == 5);
    assert("badge badge-secondary"@.len() == 21);
    assert("badge badge-success"@.len() == 19);
    assert("badge badge-warning"@.len() == 19);
    assert("badge badge-success"@[12] != "badge badge-warning"@[12]);
}

} // verus!
