use mini_erp::pages::activity_log::{entry_from_log, filter_entries};
use mini_erp::pages::customer_create::customer_form_error;
use mini_erp::pages::dashboard::{recent_activity, LogRecord};
use mini_erp::pages::stock_adjustment_form::{
    lines_issue, movement_plan, submit_after, submit_start, LineState, QuantityRule, SubmitAction,
};

fn line(item_id: i64, above: bool, nonzero: bool) -> LineState {
    LineState { item_id, quantity_above_zero: above, quantity_nonzero: nonzero }
}

#[test]
fn transfer_plan_covers_every_counted_line_in_order() {
    let lines = vec![line(5, true, true), line(0, true, true), line(6, false, true), line(7, true, true)];
    let (plan, count) = movement_plan(true, 1, 2, &lines);
    assert_eq!(count, 2);
    let got: Vec<(usize, i64, i64, QuantityRule)> =
        plan.iter().map(|m| (m.line, m.item_id, m.row.warehouse_id, m.row.quantity)).collect();
    assert_eq!(
        got,
        vec![
            (0, 5, 1, QuantityRule::Out),
            (0, 5, 2, QuantityRule::In),
            (3, 7, 1, QuantityRule::Out),
            (3, 7, 2, QuantityRule::In),
        ]
    );
    let (adj, adj_count) = movement_plan(false, 1, 2, &lines);
    assert_eq!(adj_count, 3);
    assert_eq!(adj.len(), 3);
    assert_eq!(adj[1].item_id, 6);
    assert_eq!(adj[1].row.quantity, QuantityRule::AsEntered);
    assert_eq!(lines_issue(0), Some("Add at least one item with a quantity."));
    assert_eq!(lines_issue(2), None);
}

#[test]
fn submission_steps() {
    assert!(matches!(submit_start(3), SubmitAction::Record(0)));
    assert!(matches!(submit_after(0, 3, &Ok(()), 2), SubmitAction::Record(1)));
    assert!(matches!(submit_after(2, 3, &Ok(()), 2), SubmitAction::Done(2)));
    match submit_after(1, 3, &Err("stock is locked".to_string()), 2) {
        SubmitAction::Fail(e) => assert_eq!(e, "stock is locked"),
        other => panic!("unexpected {:?}", other),
    }
}

#[test]
fn filtered_entries_keep_every_field() {
    let a = entry_from_log(1, "t1", &Some("amir".to_string()), "Create", "Sales", &Some("INV-1".to_string()), &Some("10.0.0.1".to_string()));
    let b = entry_from_log(2, "t2", &None, "Delete", "Sales", &None, &None);
    let kept = filter_entries(&vec![a, b], "Sales", "Create");
    assert_eq!(kept.len(), 1);
    let e = &kept[0];
    assert_eq!((e.id, e.timestamp.as_str(), e.user.as_str(), e.action.as_str()), (1, "t1", "amir", "Create"));
    assert_eq!((e.module.as_str(), e.description.as_str(), e.ip_address.as_str()), ("Sales", "INV-1", "10.0.0.1"));
}

fn log(action: &str, user: Option<&str>) -> LogRecord {
    LogRecord {
        action: action.to_string(),
        username: user.map(|u| u.to_string()),
        entity_type: "Invoice".to_string(),
        metadata: None,
        created_at: "2026-06-20T08:00:00".to_string(),
    }
}

#[test]
fn dashboard_shows_the_first_five_logs() {
    let logs: Vec<LogRecord> = (0..7).map(|i| log(if i == 0 { "Payment received" } else { "Create" }, if i == 1 { None } else { Some("sara") })).collect();
    let items = recent_activity(&logs);
    assert_eq!(items.len(), 5);
    assert_eq!(items[0].icon, "💰");
    assert_eq!(items[1].text, "<strong>System</strong> Create <strong>Invoice</strong>");
    assert_eq!(items[4].time, "2026-06-20");
    assert_eq!(recent_activity(&logs[..2].to_vec()).len(), 2);
}

#[test]
fn white_space_is_the_unicode_set() {
    assert_eq!(customer_form_error("\u{3000}\u{2009}\u{85}", "Acme"), Some("Customer code and name are required."));
    assert_eq!(customer_form_error("\u{200B}", "Acme"), None);
}
