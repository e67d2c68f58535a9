//! Direct purchases: the class of each status, the supplier and item choices, and the checks before a purchase is saved.

use vstd::prelude::*;
use crate::models::Supplier;
use crate::text::{chars_of, i64_text, int_text, str_eq};
use crate::pages::select::{code_and_name, code_dash_name, options_view, SelectOption};

verus! {

/// The class of a direct-purchase status; an unknown status shows as a draft.
pub open spec fn status_class_of(status: Seq<char>) -> Seq<char> {
    if status == "Draft"@ {
        "dp-status-draft"@
    } else if status == "Approved"@ {
        "dp-status-approved"@
    } else if status == "Received"@ {
        "dp-status-received"@
    } else if status == "Cancelled"@ {
        "dp-status-cancelled"@
    } else {
        "dp-status-draft"@
    }
}

/// The class of a direct-purchase status.
pub fn status_class(status: &str) -> (r: &'static str)
    ensures
        r@ == status_class_of(status@),
{
    if str_eq(status, "Draft") {
        "dp-status-draft"
    } else if str_eq(status, "Approved") {
        "dp-status-approved"
    } else if str_eq(status, "Received") {
        "dp-status-received"
    } else if str_eq(status, "Cancelled") {
        "dp-status-cancelled"
    } else {
        "dp-status-draft"
    }
}

/// The supplier choices: each supplier's id as the value, `code - name` as the label.
pub fn build_supplier_options(suppliers: &Vec<Supplier>) -> (r: Vec<SelectOption>)
    ensures
        options_view(r@) == suppliers@.map_values(
            |s: Supplier| (int_text(s.id as int), code_and_name(s.supplier_code@, s.supplier_name@)),
        ),
{
    let mut r: Vec<SelectOption> = Vec::new();
    let mut i: usize = 0;
    while i < suppliers.len()
        invariant
            i <= suppliers.len(),
            options_view(r@) == suppliers@.take(i as int).map_values(
                |s: Supplier| (int_text(s.id as int), code_and_name(s.supplier_code@, s.supplier_name@)),
            ),
        decreases suppliers.len() - i,
    {
        let s = &suppliers[i];
        let opt = SelectOption { value: i64_text(s.id), label: code_dash_name(s.supplier_code.as_str(), s.supplier_name.as_str()) };
        let ghost old_r = r@;
        r.push(opt);
        i = i + 1;
        proof {
            assert(suppliers@.take(i as int) =~= suppliers@.take(i - 1).push(suppliers@[i - 1]));
            assert(options_view(r@) =~= options_view(old_r).push((opt.value@, opt.label@)));
            assert(options_view(r@) =~= suppliers@.take(i as int).map_values(
                |s: Supplier| (int_text(s.id as int), code_and_name(s.supplier_code@, s.supplier_name@)),
            ));
        }
    }
    proof {
        assert(suppliers@.take(suppliers.len() as int) =~= suppliers@);
    }
    r
}

/// What the item choices read of a catalog item.
#[derive(Clone, Debug)]
pub struct CatalogItem {
    pub id: i64,
    pub item_code: String,
    pub item_name: String,
}

/// The item choices: each item's id as the value, `code - name` as the label.
pub fn build_item_options(items: &Vec<CatalogItem>) -> (r: Vec<SelectOption>)
    ensures
        options_view(r@) == items@.map_values(
            |c: CatalogItem| (int_text(c.id as int), code_and_name(c.item_code@, c.item_name@)),
        ),
{
    let mut r: Vec<SelectOption> = Vec::new();
    let mut i: usize = 0;
    while i < items.len()
        invariant
            i <= items.len(),
            options_view(r@) == items@.take(i as int).map_values(
                |c: CatalogItem| (int_text(c.id as int), code_and_name(c.item_code@, c.item_name@)),
            ),
        decreases items.len() - i,
    {
        let c = &items[i];
        let opt = SelectOption { value: i64_text(c.id), label: code_dash_name(c.item_code.as_str(), c.item_name.as_str()) };
        let ghost old_r = r@;
        r.push(opt);
        i = i + 1;
        proof {
            assert(items@.take(i as int) =~= items@.take(i - 1).push(items@[i - 1]));
            assert(options_view(r@) =~= options_view(old_r).push((opt.value@, opt.label@)));
            assert(options_view(r@) =~= items@.take(i as int).map_values(
                |c: CatalogItem| (int_text(c.id as int), code_and_name(c.item_code@, c.item_name@)),
            ));
        }
    }
    proof {
        assert(items@.take(items.len() as int) =~= items@);
    }
    r
}

/// The index of the first item whose id, written out, is `code`.
pub open spec fn first_with_code(items: Seq<CatalogItem>, code: Seq<char>) -> Option<int> {
    if exists|i: int| 0 <= i < items.len() && int_text(items[i].id as int) == code {
        let i = choose|i: int|
            0 <= i < items.len() && int_text(items[i].id as int) == code && forall|j: int|
                0 <= j < i ==> int_text(#[trigger] items[j].id as int) != code;
        Some(i)
    } else {
        None
    }
}

/// The name of the first catalog item whose id, written out, is `code`; empty when there
/// is none.
pub fn item_name_from_catalog(items: &Vec<CatalogItem>, code: &str) -> (r: String)
    ensures
        (exists|i: int| 0 <= i < items@.len() && int_text(items@[i].id as int) == code@) ==> exists|i: int|
            0 <= i < items@.len() && int_text(items@[i].id as int) == code@ && r@ == items@[i].item_name@
                && forall|j: int| 0 <= j < i ==> int_text(#[trigger] items@[j].id as int) != code@,
        !(exists|i: int| 0 <= i < items@.len() && int_text(items@[i].id as int) == code@) ==> r@.len() == 0,
{
    let mut i: usize = 0;
    while i < items.len()
        invariant
            i <= items.len(),
            forall|j: int| 0 <= j < i ==> int_text(#[trigger] items@[j].id as int) != code@,
        decreases items.len() - i,
    {
        let id_text = i64_text(items[i].id);
        if str_eq(id_text.as_str(), code) {
            return items[i].item_name.clone();
        }
        i = i + 1;
    }
    String::new()
}

/// The warning shown when a purchase is saved without a supplier or without any item:
/// title and message.
pub fn purchase_issue(supplier_code: &str, item_codes: &Vec<String>) -> (r: Option<(&'static str, &'static str)>)
    ensures
        supplier_code@.len() == 0 ==> r == Some(("Validation Error", "Please select a supplier.")),
        supplier_code@.len() > 0 && (forall|i: int| 0 <= i < item_codes@.len() ==> #[trigger] item_codes@[i]@.len() == 0)
            ==> r == Some(("Validation Error", "Please add at least one item.")),
        supplier_code@.len() > 0 && (exists|i: int| 0 <= i < item_codes@.len() && #[trigger] item_codes@[i]@.len() > 0)
            ==> r is None,
{
    if chars_of(supplier_code).len() == 0 {
        return Some(("Validation Error", "Please select a supplier."));
    }
    match first_filled_line(item_codes) {
        Some(_) => None,
        None => Some(("Validation Error", "Please add at least one item.")),
    }
}

/// The first line with an item chosen; the purchase is recorded for that line.
pub fn first_filled_line(item_codes: &Vec<String>) -> (r: Option<usize>)
    ensures
        r is Some ==> r->0 < item_codes@.len() && item_codes@[r->0 as int]@.len() > 0 && forall|j: int|
            0 <= j < r->0 ==> #[trigger] item_codes@[j]@.len() == 0,
        r is None ==> forall|j: int| 0 <= j < item_codes@.len() ==> #[trigger] item_codes@[j]@.len() == 0,
{
    let mut i: usize = 0;
    while i < item_codes.len()
        invariant
            i <= item_codes.len(),
            forall|j: int| 0 <= j < i ==> #[trigger] item_codes@[j]@.len() == 0,
        decreases item_codes.len() - i,
    {
        if chars_of(item_codes[i].as_str()).len() > 0 {
            return Some(i);
        }
        i = i + 1;
    }
    None
}

/// A direct purchase shows as approved, received or cancelled exactly for `Approved`, `Received` and `Cancelled`; every other status, `Draft` and unknown ones, shows as a draft.
pub proof fn law_purchase_status_classes(s: Seq<char>)
    ensures
        (status_class_of(s) == "dp-status-approved"@) == (s == "Approved"@),
        (status_class_of(s) == "dp-status-received"@) == (s == "Received"@),
        (status_class_of(s) == "dp-status-cancelled"@) == (s == "Cancelled"@),
        (status_class_of(s) == "dp-status-draft"@) == (s != "Approved"@ && s != "Received"@ && s != "Cancelled"@),
{
    reveal_strlit("Draft");
    assert("Draft"@.len() == 5);
    reveal_strlit("Approved");
    reveal_strlit("Cancelled");
    reveal_strlit("Received");
    reveal_strlit("dp-status-approved");
    reveal_strlit("dp-status-cancelled");
    reveal_strlit("dp-status-draft");
    reveal_strlit("dp-status-received");
    assert("Approved"@.len() == 8);
    assert("Cancelled"@.len() == 9);
    assert("Received"@.len() == 8);
    assert("dp-status-approved"@.len() == 18);
    assert("dp-status-cancelled"@.len() == 19);
    assert("dp-status-draft"@.len() == 15);
    assert("dp-status-received"@.len() == 18);
    assert("Approved"@[0] != "Received"@[0]);
    assert("dp-status-approved"@[10] != "dp-status-received"@[10]);
}

} // verus!
