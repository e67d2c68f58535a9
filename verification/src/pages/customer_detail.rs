//! Customer detail: the classes of customer and invoice statuses, and the recent-activity list.

use vstd::prelude::*;
use crate::text::{chars_of, push_all, str_eq, string_of};

verus! {

/// The class of a customer status: active, inactive or over the credit limit; an unknown status shows as active.
pub open spec fn status_class_of(status: Seq<char>) -> Seq<char> {
    if status == "Active"@ {
        "customer-status-active"@
    } else if status == "Inactive"@ {
        "customer-status-inactive"@
    } else if status == "Over Limit"@ {
        "customer-status-over-limit"@
    } else {
        "customer-status-active"@
    }
}

/// The class of a customer status.
pub fn status_class(status: &str) -> (r: &'static str)
    ensures
        r@ == status_class_of(status@),
{
    if str_eq(status, "Active") {
        "customer-status-active"
    } else if str_eq(status, "Inactive") {
        "customer-status-inactive"
    } else if str_eq(status, "Over Limit") {
        "customer-status-over-limit"
    } else {
        "customer-status-active"
    }
}

/// The badge class of an invoice status.
pub open spec fn badge_class_of(status: Seq<char>) -> Seq<char> {
    if status == "Paid"@ {
        "customer-table-badge-green"@
    } else if status == "Unpaid"@ {
        "customer-table-badge-yellow"@
    } else if status == "Partially Paid"@ {
        "customer-table-badge-blue"@
    } else if status == "Overdue"@ {
        "customer-table-badge-red"@
    } else {
        "customer-table-badge-gray"@
    }
}

/// The badge class of an invoice status.
pub fn badge_class(status: &str) -> (r: &'static str)
    ensures
        r@ == badge_class_of(status@),
{
    if str_eq(status, "Paid") {
        "customer-table-badge-green"
    } else if str_eq(status, "Unpaid") {
        "customer-table-badge-yellow"
    } else if str_eq(status, "Partially Paid") {
        "customer-table-badge-blue"
    } else if str_eq(status, "Overdue") {
        "customer-table-badge-red"
    } else {
        "customer-table-badge-gray"
    }
}

/// What the recent-activity list reads of an invoice; the total comes already written out
/// in whole rupees.
#[derive(Clone, Debug)]
pub struct ActivityInvoice {
    pub invoice_no: String,
    pub date: String,
    pub status: String,
    pub total_text: String,
}

/// What the recent-activity list reads of a ledger entry; the credit comes already written
/// out in whole rupees.
#[derive(Clone, Debug)]
pub struct ActivityLedgerEntry {
    pub entry_type: String,
    pub date: String,
    pub credit_text: String,
}

/// The icon class of an invoice in the activity list.
pub open spec fn invoice_icon_of(status: Seq<char>) -> Seq<char> {
    if status == "Overdue"@ {
        "activity-icon-red"@
    } else if status == "Paid"@ {
        "activity-icon-green"@
    } else if status == "Partially Paid"@ {
        "activity-icon-yellow"@
    } else {
        "activity-icon-blue"@
    }
}

/// Message, icon class and date of an invoice's activity entry.
pub open spec fn invoice_activity(inv: ActivityInvoice) -> (Seq<char>, Seq<char>, Seq<char>) {
    (
        "Invoice <strong>"@ + inv.invoice_no@ + "</strong> — PKR "@ + inv.total_text@,
        invoice_icon_of(inv.status@),
        inv.date@,
    )
}

/// Message, icon class and date of a payment's activity entry.
pub open spec fn payment_activity(e: ActivityLedgerEntry) -> (Seq<char>, Seq<char>, Seq<char>) {
    (
        "Payment of <strong>PKR "@ + e.credit_text@ + "</strong> received"@,
        "activity-icon-blue"@,
        e.date@,
    )
}

/// The entries of the last three invoices, newest first.
pub open spec fn latest_invoices(invs: Seq<ActivityInvoice>) -> Seq<(Seq<char>, Seq<char>, Seq<char>)> {
    let n = if invs.len() < 3 { invs.len() } else { 3 };
    Seq::new(n, |k: int| invoice_activity(invs[invs.len() - 1 - k]))
}

/// The entries of the payments in the ledger, in ledger order.
pub open spec fn payment_activities(ledger: Seq<ActivityLedgerEntry>) -> Seq<(Seq<char>, Seq<char>, Seq<char>)>
    decreases ledger.len(),
{
    if ledger.len() == 0 {
        Seq::empty()
    } else if ledger.last().entry_type@ == "PAYMENT"@ {
        payment_activities(ledger.drop_last()).push(payment_activity(ledger.last()))
    } else {
        payment_activities(ledger.drop_last())
    }
}

/// The first `room` entries of `p`, or all of them where there are fewer.
pub open spec fn at_most(p: Seq<(Seq<char>, Seq<char>, Seq<char>)>, room: int) -> Seq<(Seq<char>, Seq<char>, Seq<char>)> {
    if p.len() <= room {
        p
    } else {
        p.take(room)
    }
}

/// The recent activity: the last three invoices newest first, then payments in ledger
/// order until there are five entries; a single placeholder when there is nothing.
pub open spec fn activity_items_spec(
    invs: Seq<ActivityInvoice>,
    ledger: Seq<ActivityLedgerEntry>,
) -> Seq<(Seq<char>, Seq<char>, Seq<char>)> {
    let a = latest_invoices(invs);
    let items = a + at_most(payment_activities(ledger), 5 - a.len());
    if items.len() == 0 {
        seq![("No recent activity"@, "activity-icon-blue"@, Seq::empty())]
    } else {
        items
    }
}

/// The text `a + b + c + d`.
fn concat4(a: &str, b: &str, c: &str, d: &str) -> (r: String)
    ensures
        r@ == a@ + b@ + c@ + d@,
{
    let mut v = chars_of(a);
    push_all(&mut v, &chars_of(b));
    push_all(&mut v, &chars_of(c));
    push_all(&mut v, &chars_of(d));
    string_of(&v)
}

/// The view of a list of activity entries.
pub open spec fn triples_view(v: Seq<(String, String, String)>) -> Seq<(Seq<char>, Seq<char>, Seq<char>)> {
    v.map_values(|t: (String, String, String)| (t.0@, t.1@, t.2@))
}

/// The recent-activity entries of a customer: message, icon class and date.
pub fn generate_activity_items(
    invoices: &Vec<ActivityInvoice>,
    ledger: &Vec<ActivityLedgerEntry>,
) -> (r: Vec<(String, String, String)>)
    ensures
        triples_view(r@) == activity_items_spec(invoices@, ledger@),
{
    let mut items: Vec<(String, String, String)> = Vec::new();
    let n = invoices.len();
    let shown: usize = if n < 3 { n } else { 3 };
    let mut k: usize = 0;
    while k < shown
        invariant
            n == invoices.len(),
            shown == (if n < 3 { n } else { 3 }),
            k <= shown,
            triples_view(items@) == latest_invoices(invoices@).take(k as int),
        decreases shown - k,
    {
        let inv = &invoices[n - 1 - k];
        let icon = if str_eq(inv.status.as_str(), "Overdue") {
            "activity-icon-red"
        } else if str_eq(inv.status.as_str(), "Paid") {
            "activity-icon-green"
        } else if str_eq(inv.status.as_str(), "Partially Paid") {
            "activity-icon-yellow"
        } else {
            "activity-icon-blue"
        };
        let message = concat4("Invoice <strong>", inv.invoice_no.as_str(), "</strong> — PKR ", inv.total_text.as_str());
        let ghost old_items = items@;
        let entry = (message, String::from_str(icon), inv.date.clone());
        assert((entry.0@, entry.1@, entry.2@) == invoice_activity(invoices@[n - 1 - k]));
        items.push(entry);
        proof {
            assert(items@ == old_items.push(entry));
            assert(triples_view(items@) =~= triples_view(old_items).push((entry.0@, entry.1@, entry.2@)));
            assert(latest_invoices(invoices@)[k as int] == invoice_activity(invoices@[n - 1 - k]));
            assert(triples_view(items@) =~= latest_invoices(invoices@).take(k + 1));
        }
        k = k + 1;
    }
    proof {
        assert(latest_invoices(invoices@).take(shown as int) =~= latest_invoices(invoices@));
    }
    let ghost a = latest_invoices(invoices@);
    let mut i: usize = 0;
    while i < ledger.len()
        invariant
            i <= ledger.len(),
            a == latest_invoices(invoices@),
            a.len() <= 3,
            triples_view(items@) == a + at_most(payment_activities(ledger@.take(i as int)), 5 - a.len()),
        decreases ledger.len() - i,
    {
        let e = &ledger[i];
        let ghost before = payment_activities(ledger@.take(i as int));
        proof {
            assert(ledger@.take(i + 1).drop_last() =~= ledger@.take(i as int));
            assert(ledger@.take(i + 1).last() == *e);
        }
        if items.len() < 5 && str_eq(e.entry_type.as_str(), "PAYMENT") {
            let message = concat4("Payment of <strong>PKR ", e.credit_text.as_str(), "</strong> received", "");
            let ghost old_items = items@;
            let entry = (message, String::from_str("activity-icon-blue"), e.date.clone());
            proof {
                reveal_strlit("");
                assert(""@ =~= Seq::<char>::empty());
                assert(entry.0@ =~= "Payment of <strong>PKR "@ + e.credit_text@ + "</strong> received"@);
                assert((entry.0@, entry.1@, entry.2@) == payment_activity(*e));
                assert(triples_view(old_items).len() == old_items.len());
                assert(payment_activities(ledger@.take(i + 1)) == before.push(payment_activity(*e)));
            }
            items.push(entry);
            proof {
                assert(triples_view(items@) =~= triples_view(old_items).push((entry.0@, entry.1@, entry.2@)));
                assert(triples_view(items@) =~= a + at_most(payment_activities(ledger@.take(i + 1)), 5 - a.len()));
            }
        } else {
            proof {
                assert(triples_view(items@).len() == items@.len());
                if e.entry_type@ == "PAYMENT"@ {
                    assert(at_most(before.push(payment_activity(*e)), 5 - a.len()) =~= at_most(before, 5 - a.len()));
                }
            }
        }
        i = i + 1;
    }
    proof {
        assert(ledger@.take(ledger.len() as int) =~= ledger@);
    }
    if items.len() == 0 {
        items.push((String::from_str("No recent activity"), String::from_str("activity-icon-blue"), String::new()));
        proof {
            assert(triples_view(items@) =~= seq![("No recent activity"@, "activity-icon-blue"@, Seq::<char>::empty())]);
        }
    }
    items
}

/// How many of a customer's invoices are overdue, and how many are not yet paid, given
/// their statuses.
pub fn invoice_status_counts(statuses: &Vec<String>) -> (r: (usize, usize))
    ensures
        r.0 == crate::text::count_equal(crate::text::names_of(statuses@), "Overdue"@),
        r.1 == crate::text::count_unequal(crate::text::names_of(statuses@), "Paid"@),
{
    let mut overdue: usize = 0;
    let mut unpaid: usize = 0;
    let mut i: usize = 0;
    while i < statuses.len()
        invariant
            i <= statuses.len(),
            overdue == crate::text::count_equal(crate::text::names_of(statuses@.take(i as int)), "Overdue"@),
            unpaid == crate::text::count_unequal(crate::text::names_of(statuses@.take(i as int)), "Paid"@),
            overdue <= i,
            unpaid <= i,
        decreases statuses.len() - i,
    {
        proof {
            assert(crate::text::names_of(statuses@.take(i + 1)).drop_last() =~= crate::text::names_of(statuses@.take(i as int)));
            assert(crate::text::names_of(statuses@.take(i + 1)).last() == statuses@[i as int]@);
        }
        if str_eq(statuses[i].as_str(), "Overdue") {
            overdue = overdue + 1;
        }
        if !str_eq(statuses[i].as_str(), "Paid") {
            unpaid = unpaid + 1;
        }
        i = i + 1;
    }
    proof {
        assert(statuses@.take(statuses.len() as int) =~= statuses@);
    }
    (overdue, unpaid)
}

/// A customer shows as inactive exactly for `Inactive` and as over the limit exactly for `Over Limit`; every other status, `Active` and unknown ones, shows as active.
pub proof fn law_status_classes(s: Seq<char>)
    ensures
        (status_class_of(s) == "customer-status-inactive"@) == (s == "Inactive"@),
        (status_class_of(s) == "customer-status-over-limit"@) == (s == "Over Limit"@),
        (status_class_of(s) == "customer-status-active"@) == (s != "Inactive"@ && s != "Over Limit"@),
{
    reveal_strlit("Active");
    assert("Active"@.len() == 6);
    reveal_strlit("Inactive");
    reveal_strlit("Over Limit");
    reveal_strlit("customer-status-active");
    reveal_strlit("customer-status-inactive");
    reveal_strlit("customer-status-over-limit");
    assert("Inactive"@.len() == 8);
    assert("Over Limit"@.len() == 10);
    assert("customer-status-active"@.len() == 22);
    assert("customer-status-inactive"@.len() == 24);
    assert("customer-status-over-limit"@.len() == 26);
}

/// Each invoice status has its own badge: green for `Paid`, yellow for `Unpaid`, blue for `Partially Paid`, red for `Overdue`; any other status is gray.
pub proof fn law_badge_classes(s: Seq<char>)
    ensures
        (badge_class_of(s) == "customer-table-badge-green"@) == (s == "Paid"@),
        (badge_class_of(s) == "customer-table-badge-yellow"@) == (s == "Unpaid"@),
        (badge_class_of(s) == "customer-table-badge-blue"@) == (s == "Partially Paid"@),
        (badge_class_of(s) == "customer-table-badge-red"@) == (s == "Overdue"@),
        (badge_class_of(s) == "customer-table-badge-gray"@) == (s != "Paid"@ && s != "Unpaid"@ && s != "Partially Paid"@ && s != "Overdue"@),
{
    reveal_strlit("Overdue");
    reveal_strlit("Paid");
    reveal_strlit("Partially Paid");
    reveal_strlit("Unpaid");
    reveal_strlit("customer-table-badge-blue");
    reveal_strlit("customer-table-badge-gray");
    reveal_strlit("customer-table-badge-green");
    reveal_strlit("customer-table-badge-red");
    reveal_strlit("customer-table-badge-yellow");
    assert("Overdue"@.len() == 7);
    assert("Paid"@.len() == 4);
    assert("Partially Paid"@.len() == 14);
    assert("Unpaid"@.len() == 6);
    assert("customer-table-badge-blue"@.len() == 25);
    assert("customer-table-badge-gray"@.len() == 25);
    assert("customer-table-badge-green"@.len() == 26);
    assert("customer-table-badge-red"@.len() == 24);
    assert("customer-table-badge-yellow"@.len() == 27);
    assert("customer-table-badge-blue"@[21] != "customer-table-badge-gray"@[21]);
}

/// An invoice shows red when `Overdue`, green when `Paid`, yellow when `Partially Paid`, and blue for any other status.
pub proof fn law_invoice_icons(s: Seq<char>)
    ensures
        (invoice_icon_of(s) == "activity-icon-red"@) == (s == "Overdue"@),
        (invoice_icon_of(s) == "activity-icon-green"@) == (s == "Paid"@),
        (invoice_icon_of(s) == "activity-icon-yellow"@) == (s == "Partially Paid"@),
        (invoice_icon_of(s) == "activity-icon-blue"@) == (s != "Overdue"@ && s != "Paid"@ && s != "Partially Paid"@),
{
    reveal_strlit("Overdue");
    reveal_strlit("Paid");
    reveal_strlit("Partially Paid");
    reveal_strlit("activity-icon-blue");
    reveal_strlit("activity-icon-green");
    reveal_strlit("activity-icon-red");
    reveal_strlit("activity-icon-yellow");
    assert("Overdue"@.len() == 7);
    assert("Paid"@.len() == 4);
    assert("Partially Paid"@.len() == 14);
    assert("activity-icon-blue"@.len() == 18);
    assert("activity-icon-green"@.len() == 19);
    assert("activity-icon-red"@.len() == 17);
    assert("activity-icon-yellow"@.len() == 20);
}

/// Each payment entry comes from a ledger line of type `PAYMENT`, in ledger order, and
/// there is one exactly when the ledger has such a line.
proof fn lemma_payment_activities(ledger: Seq<ActivityLedgerEntry>)
    ensures
        payment_activities(ledger).len() <= ledger.len(),
        forall|k: int|
            0 <= k < payment_activities(ledger).len() ==> exists|j: int|
                0 <= j < ledger.len() && ledger[j].entry_type@ == "PAYMENT"@ && #[trigger] payment_activities(
                    ledger,
                )[k] == payment_activity(ledger[j]),
        (payment_activities(ledger).len() == 0) == (forall|j: int|
            0 <= j < ledger.len() ==> (#[trigger] ledger[j]).entry_type@ != "PAYMENT"@),
    decreases ledger.len(),
{
    if ledger.len() > 0 {
        let rest = ledger.drop_last();
        lemma_payment_activities(rest);
        let pr = payment_activities(rest);
        let p = payment_activities(ledger);
        assert forall|k: int| 0 <= k < p.len() implies exists|j: int|
            0 <= j < ledger.len() && ledger[j].entry_type@ == "PAYMENT"@ && #[trigger] p[k]
                == payment_activity(ledger[j]) by {
            if k < pr.len() {
                assert(p[k] == pr[k]);
                let j = choose|j: int|
                    0 <= j < rest.len() && rest[j].entry_type@ == "PAYMENT"@ && pr[k] == payment_activity(
                        rest[j],
                    );
                assert(ledger[j] == rest[j]);
            } else {
                assert(ledger[ledger.len() - 1] == ledger.last());
            }
        }
        if ledger.last().entry_type@ != "PAYMENT"@ {
            if pr.len() == 0 {
                assert forall|j: int| 0 <= j < ledger.len() implies (#[trigger] ledger[j]).entry_type@
                    != "PAYMENT"@ by {
                    if j < rest.len() {
                        assert(rest[j] == ledger[j]);
                    } else {
                        assert(ledger[j] == ledger.last());
                    }
                }
            } else {
                let j0 = choose|j: int| 0 <= j < rest.len() && (#[trigger] rest[j]).entry_type@ == "PAYMENT"@;
                assert(ledger[j0] == rest[j0]);
            }
        } else {
            assert(ledger[ledger.len() - 1] == ledger.last());
        }
    }
}

/// The recent activity of a customer never is empty and holds at most five entries. It
/// starts with the newest invoices, at most three, newest first, each showing its number
/// and total, the icon of its status and its date; every entry after them is a payment
/// from a `PAYMENT` line of the ledger, with the blue icon. Only when there is neither an
/// invoice nor a payment does the single placeholder show.
pub proof fn law_activity_items(invs: Seq<ActivityInvoice>, ledger: Seq<ActivityLedgerEntry>)
    ensures
        1 <= activity_items_spec(invs, ledger).len() <= 5,
        forall|k: int|
            0 <= k < invs.len() && k < 3 ==> {
                let inv = invs[invs.len() - 1 - k];
                &&& k < activity_items_spec(invs, ledger).len()
                &&& #[trigger] activity_items_spec(invs, ledger)[k] == (
                    "Invoice <strong>"@ + inv.invoice_no@ + "</strong> — PKR "@ + inv.total_text@,
                    invoice_icon_of(inv.status@),
                    inv.date@,
                )
            },
        (invs.len() > 0 || exists|j: int|
            0 <= j < ledger.len() && (#[trigger] ledger[j]).entry_type@ == "PAYMENT"@) ==> forall|k: int|
            (if invs.len() < 3 { invs.len() as int } else { 3 }) <= k && k
                < activity_items_spec(invs, ledger).len() ==> exists|j: int|
                0 <= j < ledger.len() && ledger[j].entry_type@ == "PAYMENT"@ && #[trigger] activity_items_spec(
                    invs,
                    ledger,
                )[k] == (
                    "Payment of <strong>PKR "@ + ledger[j].credit_text@ + "</strong> received"@,
                    "activity-icon-blue"@,
                    ledger[j].date@,
                ),
        (invs.len() == 0 && forall|j: int|
            0 <= j < ledger.len() ==> (#[trigger] ledger[j]).entry_type@ != "PAYMENT"@) ==> activity_items_spec(
            invs,
            ledger,
        ) == seq![("No recent activity"@, "activity-icon-blue"@, Seq::<char>::empty())],
{
    lemma_payment_activities(ledger);
    let a = latest_invoices(invs);
    let p = payment_activities(ledger);
    let rest = at_most(p, 5 - a.len());
    let items = a + rest;
    let r = activity_items_spec(invs, ledger);
    assert forall|k: int| 0 <= k < invs.len() && k < 3 implies {
        let inv = invs[invs.len() - 1 - k];
        &&& k < r.len()
        &&& #[trigger] r[k] == (
            "Invoice <strong>"@ + inv.invoice_no@ + "</strong> — PKR "@ + inv.total_text@,
            invoice_icon_of(inv.status@),
            inv.date@,
        )
    } by {
        assert(items[k] == a[k]);
    }
    if invs.len() > 0 || exists|j: int| 0 <= j < ledger.len() && (#[trigger] ledger[j]).entry_type@ == "PAYMENT"@ {
        if invs.len() == 0 {
            assert(p.len() > 0);
        }
        assert(items.len() > 0);
        assert forall|k: int|
            (if invs.len() < 3 { invs.len() as int } else { 3 }) <= k && k < r.len()
            implies exists|j: int|
            0 <= j < ledger.len() && ledger[j].entry_type@ == "PAYMENT"@ && #[trigger] r[k] == (
                "Payment of <strong>PKR "@ + ledger[j].credit_text@ + "</strong> received"@,
                "activity-icon-blue"@,
                ledger[j].date@,
            ) by {
            assert(r[k] == rest[k - a.len()]);
            assert(rest[k - a.len()] == p[k - a.len()]);
        }
    }
}

} // verus!
