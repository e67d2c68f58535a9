//! The stock adjustment and transfer form: the warehouse checks, which lines count, the
//! movements one submission records across its lines, the order in which they are recorded,
//! and the warehouse choices.

use vstd::prelude::*;
use crate::pages::select::{code_and_name, code_dash_name, options_view, SelectOption};
use crate::text::{chars_of, i64_text, int_text, str_eq};

verus! {

/// The warning shown when the warehouses of a submission do not fit its kind: a transfer
/// needs a source and a destination that differ, an adjustment needs a warehouse. An id of
/// `0` means none is chosen.
pub fn warehouse_issue(is_transfer: bool, from_id: i64, to_id: i64) -> (r: Option<&'static str>)
    ensures
        is_transfer && (from_id == 0 || to_id == 0) ==> r is Some && r->0@ == "Select both source and destination warehouses."@,
        is_transfer && from_id != 0 && to_id != 0 && from_id == to_id ==> r is Some && r->0@ == "Source and destination must differ."@,
        is_transfer && from_id != 0 && to_id != 0 && from_id != to_id ==> r is None,
        !is_transfer && to_id == 0 ==> r is Some && r->0@ == "Select a warehouse."@,
        !is_transfer && to_id != 0 ==> r is None,
{
    if is_transfer {
        if from_id == 0 || to_id == 0 {
            return Some("Select both source and destination warehouses.");
        }
        if from_id == to_id {
            return Some("Source and destination must differ.");
        }
        None
    } else if to_id == 0 {
        Some("Select a warehouse.")
    } else {
        None
    }
}

/// Whether a line is recorded: it needs an item, and a quantity above zero for a transfer
/// or any quantity other than zero for an adjustment.
pub fn line_counts(is_transfer: bool, item_id: i64, quantity_above_zero: bool, quantity_nonzero: bool) -> (r: bool)
    ensures
        r == (item_id != 0 && if is_transfer { quantity_above_zero } else { quantity_nonzero }),
{
    if item_id == 0 {
        return false;
    }
    if is_transfer {
        quantity_above_zero
    } else {
        quantity_nonzero
    }
}

/// The note recorded with the movements: the remarks, or a default naming the kind.
pub fn movement_note(is_transfer: bool, remarks: &str) -> (r: String)
    ensures
        remarks@.len() > 0 ==> r@ == remarks@,
        remarks@.len() == 0 && is_transfer ==> r@ == "Stock transfer"@,
        remarks@.len() == 0 && !is_transfer ==> r@ == "Stock adjustment"@,
{
    if chars_of(remarks).len() > 0 {
        String::from_str(remarks)
    } else if is_transfer {
        String::from_str("Stock transfer")
    } else {
        String::from_str("Stock adjustment")
    }
}

/// How the quantity of a movement follows from the quantity of its line.
#[derive(Clone, Copy, Debug, PartialEq, Eq, Structural)]
pub enum QuantityRule {
    /// The line's quantity without its sign, taken out of the warehouse.
    Out,
    /// The line's quantity without its sign, put into the warehouse.
    In,
    /// The line's quantity as entered.
    AsEntered,
}

/// One movement recorded for each counted line.
#[derive(Clone, Copy, Debug, PartialEq, Eq, Structural)]
pub struct MovementRow {
    pub warehouse_id: i64,
    pub is_transfer: bool,
    pub quantity: QuantityRule,
}

/// The movements recorded for each line: a transfer takes the quantity out of the source
/// and puts it into the destination; an adjustment records the quantity as entered in
/// its warehouse.
pub open spec fn movement_rows_spec(is_transfer: bool, from_id: i64, to_id: i64) -> Seq<MovementRow> {
    if is_transfer {
        seq![
            MovementRow { warehouse_id: from_id, is_transfer: true, quantity: QuantityRule::Out },
            MovementRow { warehouse_id: to_id, is_transfer: true, quantity: QuantityRule::In },
        ]
    } else {
        seq![MovementRow { warehouse_id: to_id, is_transfer: false, quantity: QuantityRule::AsEntered }]
    }
}

/// The movements recorded for each counted line of a submission.
pub fn movement_rows(is_transfer: bool, from_id: i64, to_id: i64) -> (r: Vec<MovementRow>)
    ensures
        r@ == movement_rows_spec(is_transfer, from_id, to_id),
{
    let mut r: Vec<MovementRow> = Vec::new();
    if is_transfer {
        r.push(MovementRow { warehouse_id: from_id, is_transfer: true, quantity: QuantityRule::Out });
        r.push(MovementRow { warehouse_id: to_id, is_transfer: true, quantity: QuantityRule::In });
    } else {
        r.push(MovementRow { warehouse_id: to_id, is_transfer: false, quantity: QuantityRule::AsEntered });
    }
    proof {
        assert(r@ =~= movement_rows_spec(is_transfer, from_id, to_id));
    }
    r
}

/// The movement type recorded: `TRANSFER` or `ADJUSTMENT`.
pub fn movement_type_text(row: &MovementRow) -> (r: &'static str)
    ensures
        row.is_transfer ==> r@ == "TRANSFER"@,
        !row.is_transfer ==> r@ == "ADJUSTMENT"@,
{
    if row.is_transfer {
        "TRANSFER"
    } else {
        "ADJUSTMENT"
    }
}

/// A transfer between two different warehouses moves stock out of one and into the other,
/// by the same quantity; an adjustment touches one warehouse.
pub proof fn law_transfer_balances(from_id: i64, to_id: i64)
    requires
        from_id != to_id,
    ensures
        movement_rows_spec(true, from_id, to_id).len() == 2,
        movement_rows_spec(true, from_id, to_id)[0].warehouse_id == from_id,
        movement_rows_spec(true, from_id, to_id)[0].quantity == QuantityRule::Out,
        movement_rows_spec(true, from_id, to_id)[1].warehouse_id == to_id,
        movement_rows_spec(true, from_id, to_id)[1].quantity == QuantityRule::In,
        movement_rows_spec(false, from_id, to_id).len() == 1,
{
}

/// The destination warehouse after the movement type changes: switching to a transfer
/// clears it.
pub fn destination_after_type_change(movement_type: &str, to_id: i64) -> (r: i64)
    ensures
        movement_type@ == "TRANSFER"@ ==> r == 0,
        movement_type@ != "TRANSFER"@ ==> r == to_id,
{
    if str_eq(movement_type, "TRANSFER") {
        0
    } else {
        to_id
    }
}

/// What the warehouse choices read of a warehouse.
#[derive(Clone, Debug)]
pub struct WarehouseChoice {
    pub id: i64,
    pub warehouse_code: String,
    pub warehouse_name: String,
}

/// The choice shown for a warehouse: its id and `code - name`.
pub open spec fn warehouse_option(w: WarehouseChoice) -> (Seq<char>, Seq<char>) {
    (int_text(w.id as int), code_and_name(w.warehouse_code@, w.warehouse_name@))
}

/// The warehouses other than `excluded`, in order (all of them for an id no warehouse has).
pub open spec fn choices_without(ws: Seq<WarehouseChoice>, excluded: i64) -> Seq<(Seq<char>, Seq<char>)>
    decreases ws.len(),
{
    if ws.len() == 0 {
        Seq::empty()
    } else if ws.last().id != excluded {
        choices_without(ws.drop_last(), excluded).push(warehouse_option(ws.last()))
    } else {
        choices_without(ws.drop_last(), excluded)
    }
}

/// The warehouse choices except the one with id `excluded`: the destinations of a
/// transfer leave out its source.
pub fn warehouse_options_except(warehouses: &Vec<WarehouseChoice>, excluded: i64) -> (r: Vec<SelectOption>)
    ensures
        options_view(r@) == choices_without(warehouses@, excluded),
{
    let mut r: Vec<SelectOption> = Vec::new();
    let mut i: usize = 0;
    while i < warehouses.len()
        invariant
            i <= warehouses.len(),
            options_view(r@) == choices_without(warehouses@.take(i as int), excluded),
        decreases warehouses.len() - i,
    {
        let w = &warehouses[i];
        proof {
            assert(warehouses@.take(i + 1).drop_last() =~= warehouses@.take(i as int));
            assert(warehouses@.take(i + 1).last() == *w);
        }
        if w.id != excluded {
            let opt = SelectOption {
                value: i64_text(w.id),
                label: code_dash_name(w.warehouse_code.as_str(), w.warehouse_name.as_str()),
            };
            let ghost old_r = r@;
            r.push(opt);
            proof {
                assert(options_view(r@) =~= options_view(old_r).push((opt.value@, opt.label@)));
            }
        }
        i = i + 1;
    }
    proof {
        assert(warehouses@.take(warehouses.len() as int) =~= warehouses@);
    }
    r
}

/// What the movement plan reads of a form line: its item (`0` for none) and whether its
/// quantity is above zero and whether it is other than zero.
#[derive(Clone, Copy, Debug)]
pub struct LineState {
    pub item_id: i64,
    pub quantity_above_zero: bool,
    pub quantity_nonzero: bool,
}

/// Whether a line is recorded, as `line_counts` decides.
pub open spec fn counted(is_transfer: bool, l: LineState) -> bool {
    l.item_id != 0 && if is_transfer { l.quantity_above_zero } else { l.quantity_nonzero }
}

/// One movement of a submission: the line it comes from, the line's item and the row.
#[derive(Clone, Copy, Debug, PartialEq, Eq, Structural)]
pub struct PlannedMovement {
    pub line: usize,
    pub item_id: i64,
    pub row: MovementRow,
}

/// The movements of a submission, in line order: for each counted line, the rows that
/// `movement_rows_spec` gives (two for a transfer, one for an adjustment).
pub open spec fn plan_spec(is_transfer: bool, from_id: i64, to_id: i64, lines: Seq<LineState>) -> Seq<(int, i64, MovementRow)>
    decreases lines.len(),
{
    if lines.len() == 0 {
        Seq::empty()
    } else {
        let before = plan_spec(is_transfer, from_id, to_id, lines.drop_last());
        let l = lines.last();
        if counted(is_transfer, l) {
            before + movement_rows_spec(is_transfer, from_id, to_id).map_values(
                |row: MovementRow| (lines.len() - 1, l.item_id, row),
            )
        } else {
            before
        }
    }
}

/// How many lines of a submission are recorded.
pub open spec fn counted_lines(is_transfer: bool, lines: Seq<LineState>) -> nat
    decreases lines.len(),
{
    if lines.len() == 0 {
        0
    } else {
        counted_lines(is_transfer, lines.drop_last()) + if counted(is_transfer, lines.last()) { 1nat } else { 0nat }
    }
}

/// The view of a planned movement.
pub open spec fn planned_view(m: PlannedMovement) -> (int, i64, MovementRow) {
    (m.line as int, m.item_id, m.row)
}

/// The movements one submission records, in line order, and the number of lines recorded.
pub fn movement_plan(is_transfer: bool, from_id: i64, to_id: i64, lines: &Vec<LineState>) -> (r: (Vec<PlannedMovement>, usize))
    ensures
        r.0@.map_values(|m: PlannedMovement| planned_view(m)) == plan_spec(is_transfer, from_id, to_id, lines@),
        r.1 == counted_lines(is_transfer, lines@),
{
    let mut plan: Vec<PlannedMovement> = Vec::new();
    let mut count: usize = 0;
    let mut i: usize = 0;
    while i < lines.len()
        invariant
            i <= lines.len(),
            count <= i,
            plan@.map_values(|m: PlannedMovement| planned_view(m)) == plan_spec(is_transfer, from_id, to_id, lines@.take(i as int)),
            count == counted_lines(is_transfer, lines@.take(i as int)),
        decreases lines.len() - i,
    {
        let l = lines[i];
        proof {
            assert(lines@.take(i + 1).drop_last() =~= lines@.take(i as int));
            assert(lines@.take(i + 1).last() == l);
        }
        if line_counts(is_transfer, l.item_id, l.quantity_above_zero, l.quantity_nonzero) {
            let rows = movement_rows(is_transfer, from_id, to_id);
            let ghost before = plan@.map_values(|m: PlannedMovement| planned_view(m));
            let mut k: usize = 0;
            while k < rows.len()
                invariant
                    i < lines.len(),
                    k <= rows.len(),
                    rows@ == movement_rows_spec(is_transfer, from_id, to_id),
                    plan@.map_values(|m: PlannedMovement| planned_view(m)) == before + rows@.take(k as int).map_values(
                        |row: MovementRow| ((i + 1) - 1, l.item_id, row),
                    ),
                decreases rows.len() - k,
            {
                let ghost old_plan = plan@;
                plan.push(PlannedMovement { line: i, item_id: l.item_id, row: rows[k] });
                k = k + 1;
                proof {
                    assert(rows@.take(k as int) =~= rows@.take(k - 1).push(rows@[k - 1]));
                    assert(plan@.map_values(|m: PlannedMovement| planned_view(m)) =~= old_plan.map_values(
                        |m: PlannedMovement| planned_view(m),
                    ).push(planned_view(PlannedMovement { line: i, item_id: l.item_id, row: rows@[k - 1] })));
                    assert(plan@.map_values(|m: PlannedMovement| planned_view(m)) =~= before + rows@.take(k as int).map_values(
                        |row: MovementRow| ((i + 1) - 1, l.item_id, row),
                    ));
                }
            }
            proof {
                assert(rows@.take(rows.len() as int) =~= rows@);
                assert(lines@.take(i + 1).len() == i + 1);
            }
            count = count + 1;
        }
        i = i + 1;
    }
    proof {
        assert(lines@.take(lines.len() as int) =~= lines@);
    }
    (plan, count)
}

/// The warning shown when no line is recorded.
pub fn lines_issue(planned_lines: usize) -> (r: Option<&'static str>)
    ensures
        r is Some <==> planned_lines == 0,
        r is Some ==> r->0@ == "Add at least one item with a quantity."@,
{
    if planned_lines == 0 {
        Some("Add at least one item with a quantity.")
    } else {
        None
    }
}

/// What a submission does next.
#[derive(Clone, Debug)]
pub enum SubmitAction {
    /// Record the movement with this index of the plan.
    Record(usize),
    /// Stop: show this error and end the submission.
    Fail(String),
    /// Every movement is recorded: report this many lines and close the form.
    Done(usize),
}

/// The first step of a submission of `total` movements: record the first one.
pub fn submit_start(total: usize) -> (r: SubmitAction)
    requires
        total > 0,
    ensures
        r is Record && r->Record_0 == 0,
{
    SubmitAction::Record(0)
}

/// The step after the movement with index `done` was recorded, or failed with an error:
/// an error stops the submission; otherwise the next movement is recorded, and after the
/// last one the submission ends, reporting `counted` lines.
pub fn submit_after(done: usize, total: usize, outcome: &Result<(), String>, counted: usize) -> (r: SubmitAction)
    requires
        done < total,
    ensures
        outcome is Err ==> r is Fail && r->Fail_0@ == outcome->Err_0@,
        outcome is Ok && done + 1 < total ==> r is Record && r->Record_0 == done + 1,
        outcome is Ok && done + 1 == total ==> r is Done && r->Done_0 == counted,
{
    match outcome {
        Err(e) => SubmitAction::Fail(String::from_str(e.as_str())),
        Ok(()) => {
            if done + 1 < total {
                SubmitAction::Record(done + 1)
            } else {
                SubmitAction::Done(counted)
            }
        },
    }
}

/// One submission records one movement per counted line for an adjustment and two per
/// counted line for a transfer (out of the source, then into the destination), in line order.
pub proof fn law_plan_size(is_transfer: bool, from_id: i64, to_id: i64, lines: Seq<LineState>)
    ensures
        plan_spec(is_transfer, from_id, to_id, lines).len() == (if is_transfer { 2nat } else { 1nat }) * counted_lines(
            is_transfer,
            lines,
        ),
        forall|k: int|
            #![trigger plan_spec(is_transfer, from_id, to_id, lines)[k]]
            0 <= k < plan_spec(is_transfer, from_id, to_id, lines).len() ==> {
                let m = plan_spec(is_transfer, from_id, to_id, lines)[k];
                &&& 0 <= m.0 < lines.len()
                &&& counted(is_transfer, lines[m.0])
                &&& m.1 == lines[m.0].item_id
            },
    decreases lines.len(),
{
    if lines.len() > 0 {
        let rest = lines.drop_last();
        law_plan_size(is_transfer, from_id, to_id, rest);
        let before = plan_spec(is_transfer, from_id, to_id, rest);
        let p = plan_spec(is_transfer, from_id, to_id, lines);
        let l = lines.last();
        assert forall|k: int| 0 <= k < p.len() implies ({
            let m = #[trigger] p[k];
            &&& 0 <= m.0 < lines.len()
            &&& counted(is_transfer, lines[m.0])
            &&& m.1 == lines[m.0].item_id
        }) by {
            if k < before.len() {
                assert(p[k] == before[k]);
                assert(lines[before[k].0] == rest[before[k].0]);
            } else {
                assert(lines[lines.len() - 1] == l);
            }
        }
    }
}


/// Every movement a submission records goes where its kind says. An adjustment records,
/// for each counted line, one movement of the quantity as entered in the warehouse that
/// `warehouse_issue` checks for it (`to_id`), whatever the source field holds. A transfer
/// records, for each counted line, the quantity out of the source and then the same line's
/// quantity into the destination.
pub proof fn law_movement_warehouses(is_transfer: bool, from_id: i64, to_id: i64, lines: Seq<LineState>)
    ensures
        !is_transfer ==> movement_rows_spec(is_transfer, from_id, to_id).len() == 1,
        forall|i: int|
            0 <= i < movement_rows_spec(false, from_id, to_id).len() ==> (#[trigger] movement_rows_spec(
                false,
                from_id,
                to_id,
            )[i]).warehouse_id == to_id,
        forall|k: int|
            #![trigger plan_spec(is_transfer, from_id, to_id, lines)[k]]
            0 <= k < plan_spec(is_transfer, from_id, to_id, lines).len() ==> {
                let p = plan_spec(is_transfer, from_id, to_id, lines);
                let row = p[k].2;
                &&& row.is_transfer == is_transfer
                &&& !is_transfer ==> row.warehouse_id == to_id && row.quantity == QuantityRule::AsEntered
                &&& is_transfer && k % 2 == 0 ==> row.warehouse_id == from_id && row.quantity
                    == QuantityRule::Out && k + 1 < p.len() && p[k + 1].0 == p[k].0
                &&& is_transfer && k % 2 == 1 ==> row.warehouse_id == to_id && row.quantity
                    == QuantityRule::In
            },
    decreases lines.len(),
{
    law_plan_size(is_transfer, from_id, to_id, lines);
    if lines.len() > 0 {
        let rest = lines.drop_last();
        law_movement_warehouses(is_transfer, from_id, to_id, rest);
        law_plan_size(is_transfer, from_id, to_id, rest);
        let before = plan_spec(is_transfer, from_id, to_id, rest);
        let p = plan_spec(is_transfer, from_id, to_id, lines);
        let l = lines.last();
        let rows = movement_rows_spec(is_transfer, from_id, to_id);
        assert forall|k: int| 0 <= k < p.len() implies ({
            let row = (#[trigger] p[k]).2;
            &&& row.is_transfer == is_transfer
            &&& !is_transfer ==> row.warehouse_id == to_id && row.quantity == QuantityRule::AsEntered
            &&& is_transfer && k % 2 == 0 ==> row.warehouse_id == from_id && row.quantity
                == QuantityRule::Out && k + 1 < p.len() && p[k + 1].0 == p[k].0
            &&& is_transfer && k % 2 == 1 ==> row.warehouse_id == to_id && row.quantity
                == QuantityRule::In
        }) by {
            if k < before.len() {
                assert(p[k] == before[k]);
                if is_transfer && k % 2 == 0 {
                    assert(before[k + 1] == p[k + 1]);
                }
            } else {
                let j = k - before.len();
                assert(p[k] == (lines.len() - 1, l.item_id, rows[j]));
                if is_transfer {
                    assert(before.len() % 2 == 0);
                    if j == 0 {
                        assert(p[k + 1] == (lines.len() - 1, l.item_id, rows[1]));
                    }
                }
            }
        }
    }
}

} // verus!
