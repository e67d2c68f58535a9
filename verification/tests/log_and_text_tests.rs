use mini_erp::pages::accounting_dashboard::{account_group, AccountGroup};
use mini_erp::pages::activity_log::{action_options, entry_from_log, filter_entries, module_options, ActivityEntry};
use mini_erp::pages::customer_detail::invoice_status_counts;
use mini_erp::pages::customer_statements::in_period;
use mini_erp::pages::dashboard::activity_text;
use mini_erp::pages::simple_forms::{customer_name_error, layout_name_error};
use mini_erp::shortcuts::{shell_help_after, KeyPress};
use mini_erp::text::{parse_i64, parse_id_or_zero, sorted_distinct, trim_chars};

fn log(id: i64, action: &str, module: &str) -> ActivityEntry {
    entry_from_log(id, "2026-06-01T10:00:00", &Some("amir".to_string()), action, module, &None, &None)
}

#[test]
fn log_entries_from_records() {
    let e = entry_from_log(3, "t", &None, "Login", "System", &Some("ok".to_string()), &Some("10.0.0.1".to_string()));
    assert_eq!(e.user, "");
    assert_eq!(e.module, "System");
    assert_eq!(e.description, "ok");
    assert_eq!(e.ip_address, "10.0.0.1");
}

#[test]
fn log_filters() {
    let entries = vec![log(1, "Create", "Sales"), log(2, "Delete", "Inventory"), log(3, "Create", "Inventory")];
    let ids = |v: Vec<ActivityEntry>| v.iter().map(|e| e.id).collect::<Vec<i64>>();
    assert_eq!(ids(filter_entries(&entries, "", "")), vec![1, 2, 3]);
    assert_eq!(ids(filter_entries(&entries, "Inventory", "")), vec![2, 3]);
    assert_eq!(ids(filter_entries(&entries, "Inventory", "Create")), vec![3]);
    assert_eq!(ids(filter_entries(&entries, "", "Login")), Vec::<i64>::new());
    assert_eq!(module_options(&entries), vec!["Inventory".to_string(), "Sales".to_string()]);
    assert_eq!(action_options(), vec!["Create", "Update", "Delete", "Login"]);
}

#[test]
fn sorting_texts() {
    let v = vec!["b".to_string(), "a".to_string(), "b".to_string(), "B".to_string(), "ab".to_string(), "é".to_string()];
    assert_eq!(sorted_distinct(&v), vec!["B", "a", "ab", "b", "é"]);
    let mixed = vec!["apple".to_string(), "Apple".to_string(), "apple".to_string()];
    assert_eq!(sorted_distinct(&mixed), vec!["Apple", "apple"]);
    assert!(sorted_distinct(&vec![]).is_empty());
}

#[test]
fn statement_periods() {
    assert!(in_period("2026-03-15", "2026-03-01", "2026-03-31"));
    assert!(in_period("2026-03-01", "2026-03-01", "2026-03-31"));
    assert!(in_period("2026-03-31", "2026-03-01", "2026-03-31"));
    assert!(!in_period("2026-04-01", "2026-03-01", "2026-03-31"));
    assert!(!in_period("2026-02-28", "2026-03-01", "2026-03-31"));
}

#[test]
fn invoice_counts_and_activity_lines() {
    let s = vec!["Paid".to_string(), "Overdue".to_string(), "Unpaid".to_string(), "Overdue".to_string()];
    assert_eq!(invoice_status_counts(&s), (2, 3));
    assert_eq!(
        activity_text(&None, "created", "Invoice", &None),
        "<strong>System</strong> created <strong>Invoice</strong>"
    );
    assert_eq!(
        activity_text(&Some("sara".to_string()), "updated", "Customer", &Some("C-9".to_string())),
        "<strong>sara</strong> updated <strong>Customer</strong> — C-9"
    );
    assert_eq!(
        activity_text(&Some("sara".to_string()), "updated", "Customer", &Some(String::new())),
        "<strong>sara</strong> updated <strong>Customer</strong>"
    );
}

#[test]
fn account_groups() {
    assert_eq!(account_group("Fixed Asset"), AccountGroup::Asset);
    assert_eq!(account_group("liability"), AccountGroup::Liability);
    assert_eq!(account_group("Retained Earnings"), AccountGroup::Equity);
    assert_eq!(account_group("Income"), AccountGroup::Other);
}

#[test]
fn small_form_checks() {
    assert_eq!(layout_name_error(""), Some("Layout name is required."));
    assert_eq!(layout_name_error("Sales board"), None);
    assert_eq!(customer_name_error(" \t"), Some(("Validation", "Customer name is required.")));
    assert_eq!(customer_name_error("Acme"), None);
}

#[test]
fn parsing_ids() {
    assert_eq!(parse_i64("42"), Some(42));
    assert_eq!(parse_i64("+7"), Some(7));
    assert_eq!(parse_i64("-0012"), Some(-12));
    assert_eq!(parse_i64("9223372036854775807"), Some(i64::MAX));
    assert_eq!(parse_i64("-9223372036854775808"), Some(i64::MIN));
    assert_eq!(parse_i64("9223372036854775808"), None);
    assert_eq!(parse_i64("99999999999999999999999x"), None);
    assert_eq!(parse_i64(""), None);
    assert_eq!(parse_i64("-"), None);
    assert_eq!(parse_i64("12a"), None);
    assert_eq!(parse_i64(" 12"), None);
    assert_eq!(parse_id_or_zero("17"), 17);
    assert_eq!(parse_id_or_zero("new"), 0);
    for s in ["0", "-1", "+15", "123456789012", "1_0", "0x10", "٣"] {
        assert_eq!(parse_i64(s), s.parse::<i64>().ok());
    }
}

#[test]
fn trimming() {
    let t: String = trim_chars(&"\u{3000} a b \n".chars().collect()).into_iter().collect();
    assert_eq!(t, "a b");
    let e: Vec<char> = trim_chars(&"   ".chars().collect());
    assert!(e.is_empty());
}

#[test]
fn shell_shortcut_keys() {
    assert!(shell_help_after(false, &KeyPress::Character("?".to_string()), false));
    assert!(!shell_help_after(true, &KeyPress::Character("?".to_string()), false));
    assert!(!shell_help_after(true, &KeyPress::Character("k".to_string()), true));
    assert!(!shell_help_after(true, &KeyPress::Escape, false));
    assert!(shell_help_after(true, &KeyPress::Other, false));
    assert!(!shell_help_after(false, &KeyPress::Character("k".to_string()), false));
}
