//! The custom report builder: its choices, the fields a sales report can show, the sample preview, which fields are selected and the checks before a report is made.

use vstd::prelude::*;
use crate::text::{
    all_white_space, contains_name, distinct_names, is_blank, name_set, names_of, toggle_name,
    toggled,
};
use crate::pages::select::{options_view, select_option, SelectOption};

verus! {

/// The values and labels of the module a report draws from.
pub open spec fn module_options_spec() -> Seq<(Seq<char>, Seq<char>)> {
    seq![
        ("sales"@, "Sales"@),
        ("purchasing"@, "Purchasing"@),
        ("inventory"@, "Inventory"@),
        ("accounting"@, "Accounting"@),
    ]
}

/// The choices of the module a report draws from.
pub fn module_options() -> (r: Vec<SelectOption>)
    ensures
        options_view(r@) == module_options_spec(),
{
    let mut r: Vec<SelectOption> = Vec::new();
    r.push(select_option("sales", "Sales"));
    r.push(select_option("purchasing", "Purchasing"));
    r.push(select_option("inventory", "Inventory"));
    r.push(select_option("accounting", "Accounting"));
    proof {
        assert(options_view(r@) =~= module_options_spec());
    }
    r
}
/// The values and labels of how report rows are grouped.
pub open spec fn group_by_options_spec() -> Seq<(Seq<char>, Seq<char>)> {
    seq![
        ("none"@, "None"@),
        ("month"@, "Month"@),
        ("quarter"@, "Quarter"@),
        ("category"@, "Category"@),
        ("customer"@, "Customer"@),
        ("warehouse"@, "Warehouse"@),
    ]
}

/// The choices of how report rows are grouped.
pub fn group_by_options() -> (r: Vec<SelectOption>)
    ensures
        options_view(r@) == group_by_options_spec(),
{
    let mut r: Vec<SelectOption> = Vec::new();
    r.push(select_option("none", "None"));
    r.push(select_option("month", "Month"));
    r.push(select_option("quarter", "Quarter"));
    r.push(select_option("category", "Category"));
    r.push(select_option("customer", "Customer"));
    r.push(select_option("warehouse", "Warehouse"));
    proof {
        assert(options_view(r@) =~= group_by_options_spec());
    }
    r
}
/// The values and labels of what report rows are sorted by.
pub open spec fn sort_by_options_spec() -> Seq<(Seq<char>, Seq<char>)> {
    seq![
        ("date"@, "Date"@),
        ("amount"@, "Amount"@),
        ("name"@, "Name"@),
    ]
}

/// The choices of what report rows are sorted by.
pub fn sort_by_options() -> (r: Vec<SelectOption>)
    ensures
        options_view(r@) == sort_by_options_spec(),
{
    let mut r: Vec<SelectOption> = Vec::new();
    r.push(select_option("date", "Date"));
    r.push(select_option("amount", "Amount"));
    r.push(select_option("name", "Name"));
    proof {
        assert(options_view(r@) =~= sort_by_options_spec());
    }
    r
}
/// The fields of a sales report, as `(key, title)` pairs.
pub open spec fn sales_fields_spec() -> Seq<(Seq<char>, Seq<char>)> {
    seq![
        ("invoice_no"@, "Invoice #"@),
        ("customer"@, "Customer"@),
        ("date"@, "Date"@),
        ("amount"@, "Amount"@),
        ("tax"@, "Tax"@),
        ("total"@, "Total"@),
        ("status"@, "Status"@),
        ("category"@, "Category"@),
    ]
}

/// The fields a sales report can show, as `(key, title)` pairs in display order.
pub fn sales_fields() -> (r: Vec<(&'static str, &'static str)>)
    ensures
        r@.map_values(|p: (&'static str, &'static str)| (p.0@, p.1@)) == sales_fields_spec(),
{
    let mut r: Vec<(&'static str, &'static str)> = Vec::new();
    r.push(("invoice_no", "Invoice #"));
    r.push(("customer", "Customer"));
    r.push(("date", "Date"));
    r.push(("amount", "Amount"));
    r.push(("tax", "Tax"));
    r.push(("total", "Total"));
    r.push(("status", "Status"));
    r.push(("category", "Category"));
    proof {
        assert(r@.map_values(|p: (&'static str, &'static str)| (p.0@, p.1@)) =~= sales_fields_spec());
    }
    r
}

/// The cells of the sample preview, row by row.
pub open spec fn preview_data_spec() -> Seq<Seq<Seq<char>>> {
    seq![
        seq!["INV-2026-0045"@, "Alpha Traders"@, "2026-06-22"@, "156,000"@, "23,400"@, "179,400"@, "Unpaid"@, "Widgets"@],
        seq!["INV-2026-0044"@, "Delta Corp"@, "2026-06-21"@, "98,765"@, "14,815"@, "113,580"@, "Paid"@, "Fasteners"@],
        seq!["INV-2026-0043"@, "Gamma Supplies"@, "2026-06-20"@, "234,500"@, "35,175"@, "269,675"@, "Partially Paid"@, "Electrical"@],
        seq!["INV-2026-0042"@, "Epsilon LLC"@, "2026-06-19"@, "67,500"@, "10,125"@, "77,625"@, "Overdue"@, "Consumables"@],
    ]
}

/// The cells of a row.
pub open spec fn row_view(row: Vec<String>) -> Seq<Seq<char>> {
    row@.map_values(|c: String| c@)
}

/// A row holding the given cells.
fn preview_row(c0: &str, c1: &str, c2: &str, c3: &str, c4: &str, c5: &str, c6: &str, c7: &str) -> (r: Vec<String>)
    ensures
        row_view(r) == seq![c0@, c1@, c2@, c3@, c4@, c5@, c6@, c7@],
{
    let mut r: Vec<String> = Vec::new();
    r.push(String::from_str(c0));
    r.push(String::from_str(c1));
    r.push(String::from_str(c2));
    r.push(String::from_str(c3));
    r.push(String::from_str(c4));
    r.push(String::from_str(c5));
    r.push(String::from_str(c6));
    r.push(String::from_str(c7));
    proof {
        assert(row_view(r) =~= seq![c0@, c1@, c2@, c3@, c4@, c5@, c6@, c7@]);
    }
    r
}

/// The sample rows shown in the report preview.
pub fn preview_data() -> (r: Vec<Vec<String>>)
    ensures
        r@.map_values(|row: Vec<String>| row_view(row)) == preview_data_spec(),
{
    let mut r: Vec<Vec<String>> = Vec::new();
    r.push(preview_row("INV-2026-0045", "Alpha Traders", "2026-06-22", "156,000", "23,400", "179,400", "Unpaid", "Widgets"));
    r.push(preview_row("INV-2026-0044", "Delta Corp", "2026-06-21", "98,765", "14,815", "113,580", "Paid", "Fasteners"));
    r.push(preview_row("INV-2026-0043", "Gamma Supplies", "2026-06-20", "234,500", "35,175", "269,675", "Partially Paid", "Electrical"));
    r.push(preview_row("INV-2026-0042", "Epsilon LLC", "2026-06-19", "67,500", "10,125", "77,625", "Overdue", "Consumables"));
    proof {
        assert(r@.map_values(|row: Vec<String>| row_view(row)) =~= preview_data_spec());
    }
    r
}

/// The fields selected when the builder opens.
pub fn default_selected_fields() -> (r: Vec<String>)
    ensures
        names_of(r@) == seq!["invoice_no"@, "customer"@, "date"@, "amount"@, "status"@],
        distinct_names(r@),
{
    let mut r: Vec<String> = Vec::new();
    r.push(String::from_str("invoice_no"));
    r.push(String::from_str("customer"));
    r.push(String::from_str("date"));
    r.push(String::from_str("amount"));
    r.push(String::from_str("status"));
    proof {
        reveal_strlit("invoice_no");
        reveal_strlit("customer");
        reveal_strlit("date");
        reveal_strlit("amount");
        reveal_strlit("status");
        assert(names_of(r@) =~= seq!["invoice_no"@, "customer"@, "date"@, "amount"@, "status"@]);
        let n = names_of(r@);
        assert(n[0][0] == 'i' && n[1][0] == 'c' && n[2][0] == 'd' && n[3][0] == 'a' && n[4][0] == 's');
        assert(n[1][1] == 'u' && n[4][1] == 't');
    }
    r
}

/// Selects `field` when it is not selected, and unselects it when it is.
pub fn toggle_field(selected: &mut Vec<String>, field: &str)
    requires
        distinct_names(old(selected)@),
    ensures
        distinct_names(final(selected)@),
        name_set(final(selected)@) == toggled(name_set(old(selected)@), field@),
{
    toggle_name(selected, field);
}

/// The fields whose key is selected, in the order of `fields`.
pub open spec fn chosen_fields(fields: Seq<(Seq<char>, Seq<char>)>, selected: Set<Seq<char>>) -> Seq<(Seq<char>, Seq<char>)>
    decreases fields.len(),
{
    if fields.len() == 0 {
        Seq::empty()
    } else if selected.contains(fields.last().0) {
        chosen_fields(fields.drop_last(), selected).push(fields.last())
    } else {
        chosen_fields(fields.drop_last(), selected)
    }
}

/// The view of a list of `(key, title)` fields.
pub open spec fn fields_view(v: Seq<(&'static str, &'static str)>) -> Seq<(Seq<char>, Seq<char>)> {
    v.map_values(|p: (&'static str, &'static str)| (p.0@, p.1@))
}

/// The columns of the report: the fields whose key is selected, in field order.
pub fn selected_field_list(
    fields: &Vec<(&'static str, &'static str)>,
    selected: &Vec<String>,
) -> (r: Vec<(&'static str, &'static str)>)
    ensures
        fields_view(r@) == chosen_fields(fields_view(fields@), name_set(selected@)),
{
    let mut r: Vec<(&'static str, &'static str)> = Vec::new();
    let mut i: usize = 0;
    while i < fields.len()
        invariant
            i <= fields.len(),
            fields_view(r@) == chosen_fields(fields_view(fields@.take(i as int)), name_set(selected@)),
        decreases fields.len() - i,
    {
        let f = fields[i];
        proof {
            assert(fields_view(fields@.take(i + 1)).drop_last() =~= fields_view(fields@.take(i as int)));
            assert(fields_view(fields@.take(i + 1)).last() == (f.0@, f.1@));
        }
        if contains_name(selected, f.0) {
            let ghost old_r = r@;
            r.push(f);
            proof {
                assert(fields_view(r@) =~= fields_view(old_r).push((f.0@, f.1@)));
            }
        }
        i = i + 1;
    }
    proof {
        assert(fields@.take(fields.len() as int) =~= fields@);
    }
    r
}

/// The warning shown when a preview is asked for with no field selected: title and message.
pub fn preview_warning(selected: &Vec<String>) -> (r: Option<(&'static str, &'static str)>)
    ensures
        selected@.len() == 0 ==> r == Some(("No Fields", "Select at least one field to preview.")),
        selected@.len() > 0 ==> r is None,
{
    if selected.len() == 0 {
        Some(("No Fields", "Select at least one field to preview."))
    } else {
        None
    }
}

/// The warning shown when a report is generated or saved without a name: title and message.
pub fn name_warning(report_name: &str) -> (r: Option<(&'static str, &'static str)>)
    ensures
        all_white_space(report_name@) ==> r == Some(("Name Required", "Enter a report name.")),
        !all_white_space(report_name@) ==> r is None,
{
    if is_blank(report_name) {
        Some(("Name Required", "Enter a report name."))
    } else {
        None
    }
}

/// The report's columns are exactly the selected fields, in field order: each column is a
/// field whose key is selected, each field whose key is selected is a column, and with
/// every key selected all fields are columns.
pub proof fn law_chosen_fields(fields: Seq<(Seq<char>, Seq<char>)>, selected: Set<Seq<char>>)
    ensures
        chosen_fields(fields, selected).len() <= fields.len(),
        forall|k: int|
            0 <= k < chosen_fields(fields, selected).len() ==> selected.contains(
                (#[trigger] chosen_fields(fields, selected)[k]).0,
            ) && fields.contains(chosen_fields(fields, selected)[k]),
        forall|i: int|
            0 <= i < fields.len() && selected.contains(fields[i].0) ==> chosen_fields(fields, selected).contains(
                #[trigger] fields[i],
            ),
        (forall|i: int| 0 <= i < fields.len() ==> selected.contains(#[trigger] fields[i].0)) ==> chosen_fields(
            fields,
            selected,
        ) == fields,
    decreases fields.len(),
{
    if fields.len() > 0 {
        let rest = fields.drop_last();
        law_chosen_fields(rest, selected);
        let cr = chosen_fields(rest, selected);
        let c = chosen_fields(fields, selected);
        let l = fields.last();
        assert forall|k: int| 0 <= k < c.len() implies selected.contains((#[trigger] c[k]).0) && fields.contains(
            c[k],
        ) by {
            if k < cr.len() {
                assert(c[k] == cr[k]);
                let j = choose|j: int| 0 <= j < rest.len() && rest[j] == cr[k];
                assert(fields[j] == rest[j]);
            } else {
                assert(fields[fields.len() - 1] == l);
            }
        }
        assert forall|i: int| 0 <= i < fields.len() && selected.contains(fields[i].0) implies c.contains(
            #[trigger] fields[i],
        ) by {
            if i < rest.len() {
                assert(fields[i] == rest[i]);
                let k = choose|k: int| 0 <= k < cr.len() && cr[k] == rest[i];
                assert(c[k] == cr[k]);
            } else {
                assert(fields[i] == l);
                assert(c[cr.len() as int] == l);
            }
        }
        if forall|i: int| 0 <= i < fields.len() ==> selected.contains(#[trigger] fields[i].0) {
            assert forall|i: int| 0 <= i < rest.len() implies selected.contains(#[trigger] rest[i].0) by {
                assert(rest[i] == fields[i]);
            }
            assert(selected.contains(fields[fields.len() - 1].0));
            assert(cr.push(l) =~= fields);
        }
    }
}

} // verus!
