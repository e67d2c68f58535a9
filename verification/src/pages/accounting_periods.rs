//! Accounting periods: the sample periods shown and the badge of each status.

use vstd::prelude::*;
use crate::text::str_eq;

verus! {

/// An accounting period.
#[derive(Clone, Debug)]
pub struct AccountingPeriod {
    pub id: i64,
    pub period_name: String,
    pub start_date: String,
    pub end_date: String,
    pub status: String,
    pub is_active: bool,
}

/// Id, name, start, end, status and whether the period is active.
pub open spec fn period_view(p: AccountingPeriod) -> (i64, Seq<char>, Seq<char>, Seq<char>, Seq<char>, bool) {
    (p.id, p.period_name@, p.start_date@, p.end_date@, p.status@, p.is_active)
}

/// A period with the given fields.
fn period(id: i64, name: &str, start: &str, end: &str, status: &str, is_active: bool) -> (r: AccountingPeriod)
    ensures
        period_view(r) == (id, name@, start@, end@, status@, is_active),
{
    AccountingPeriod {
        id,
        period_name: String::from_str(name),
        start_date: String::from_str(start),
        end_date: String::from_str(end),
        status: String::from_str(status),
        is_active,
    }
}

/// The sample periods, as views.
pub open spec fn sample_periods_spec() -> Seq<(i64, Seq<char>, Seq<char>, Seq<char>, Seq<char>, bool)> {
    seq![
        (1i64, "January 2026"@, "2026-01-01"@, "2026-01-31"@, "Closed"@, false),
        (2i64, "February 2026"@, "2026-02-01"@, "2026-02-28"@, "Closed"@, false),
        (3i64, "March 2026"@, "2026-03-01"@, "2026-03-31"@, "Closed"@, false),
        (4i64, "April 2026"@, "2026-04-01"@, "2026-04-30"@, "Closed"@, false),
        (5i64, "May 2026"@, "2026-05-01"@, "2026-05-31"@, "Closed"@, false),
        (6i64, "June 2026"@, "2026-06-01"@, "2026-06-30"@, "Open"@, true),
        (7i64, "July 2026"@, "2026-07-01"@, "2026-07-31"@, "Open"@, true),
        (8i64, "August 2026"@, "2026-08-01"@, "2026-08-31"@, "Open"@, true),
        (9i64, "September 2026"@, "2026-09-01"@, "2026-09-30"@, "Locked"@, true),
        (10i64, "FY 2025-2026"@, "2025-07-01"@, "2026-06-30"@, "Open"@, true),
    ]
}

/// The sample accounting periods shown while no server data is at hand.
pub fn sample_periods() -> (r: Vec<AccountingPeriod>)
    ensures
        r@.map_values(|p: AccountingPeriod| period_view(p)) == sample_periods_spec(),
{
    let mut r: Vec<AccountingPeriod> = Vec::new();
    r.push(period(1, "January 2026", "2026-01-01", "2026-01-31", "Closed", false));
    r.push(period(2, "February 2026", "2026-02-01", "2026-02-28", "Closed", false));
    r.push(period(3, "March 2026", "2026-03-01", "2026-03-31", "Closed", false));
    r.push(period(4, "April 2026", "2026-04-01", "2026-04-30", "Closed", false));
    r.push(period(5, "May 2026", "2026-05-01", "2026-05-31", "Closed", false));
    r.push(period(6, "June 2026", "2026-06-01", "2026-06-30", "Open", true));
    r.push(period(7, "July 2026", "2026-07-01", "2026-07-31", "Open", true));
    r.push(period(8, "August 2026", "2026-08-01", "2026-08-31", "Open", true));
    r.push(period(9, "September 2026", "2026-09-01", "2026-09-30", "Locked", true));
    r.push(period(10, "FY 2025-2026", "2025-07-01", "2026-06-30", "Open", true));
    proof {
        assert(r@.map_values(|p: AccountingPeriod| period_view(p)) =~= sample_periods_spec());
    }
    r
}

/// The badge class of a period status: green when open, gray when closed, red when locked, yellow otherwise.
pub open spec fn badge_class_of(status: Seq<char>) -> Seq<char> {
    if status == "Open"@ {
        "customer-table-badge-green"@
    } else if status == "Closed"@ {
        "customer-table-badge-gray"@
    } else if status == "Locked"@ {
        "customer-table-badge-red"@
    } else {
        "customer-table-badge-yellow"@
    }
}

/// The badge class of a period status.
pub fn badge_class(status: &str) -> (r: &'static str)
    ensures
        r@ == badge_class_of(status@),
{
    if str_eq(status, "Open") {
        "customer-table-badge-green"
    } else if str_eq(status, "Closed") {
        "customer-table-badge-gray"
    } else if str_eq(status, "Locked") {
        "customer-table-badge-red"
    } else {
        "customer-table-badge-yellow"
    }
}

/// A period badge is green exactly when `Open`, gray exactly when `Closed`, red exactly when `Locked`, and yellow for any other status.
pub proof fn law_period_badges(s: Seq<char>)
    ensures
        (badge_class_of(s) == "customer-table-badge-green"@) == (s == "Open"@),
        (badge_class_of(s) == "customer-table-badge-gray"@) == (s == "Closed"@),
        (badge_class_of(s) == "customer-table-badge-red"@) == (s == "Locked"@),
        (badge_class_of(s) == "customer-table-badge-yellow"@) == (s != "Open"@ && s != "Closed"@ && s != "Locked"@),
{
    reveal_strlit("Closed");
    reveal_strlit("Locked");
    reveal_strlit("Open");
    reveal_strlit("customer-table-badge-gray");
    reveal_strlit("customer-table-badge-green");
    reveal_strlit("customer-table-badge-red");
    reveal_strlit("customer-table-badge-yellow");
    assert("Closed"@.len() == 6);
    assert("Locked"@.len() == 6);
    assert("Open"@.len() == 4);
    assert("customer-table-badge-gray"@.len() == 25);
    assert("customer-table-badge-green"@.len() == 26);
    assert("customer-table-badge-red"@.len() == 24);
    assert("customer-table-badge-yellow"@.len() == 27);
    assert("Closed"@[0] != "Locked"@[0]);
}

} // verus!
