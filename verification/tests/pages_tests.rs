use mini_erp::models::Supplier;
use mini_erp::pages::accounting_periods::{badge_class as period_badge, sample_periods};
use mini_erp::pages::ar_aging::bucket_class;
use mini_erp::pages::bom::{
    bom_name_or_default, status_badge_class, uom_options, validate_bom_form, ComponentLineCheck,
};
use mini_erp::pages::custom_report_builder::{
    default_selected_fields, group_by_options, module_options, name_warning, preview_data,
    preview_warning, sales_fields, selected_field_list, sort_by_options, toggle_field,
};
use mini_erp::pages::customer_create::{can_submit, customer_form_error};
use mini_erp::pages::customer_detail::{
    badge_class as invoice_badge, generate_activity_items, status_class as customer_status,
    ActivityInvoice, ActivityLedgerEntry,
};
use mini_erp::pages::customer_list::{city_from_address, count_statuses};
use mini_erp::pages::dashboard::{
    activity_icon_for, relative_time, severity_class, severity_label, today_formatted, Severity,
};
use mini_erp::pages::direct_purchase::{
    build_item_options, build_supplier_options, first_filled_line, item_name_from_catalog,
    purchase_issue, status_class as purchase_status, CatalogItem,
};
use mini_erp::pages::employees::{
    compute_summary, department_options, departments, designation_options, designations,
    employee_from_record, split_full_name, status_class as employee_status, type_badge_class,
    validate_employee_form, Employee,
};
use mini_erp::pages::stock_adjustment_form::{
    destination_after_type_change, line_counts, movement_note, movement_rows, movement_type_text,
    warehouse_issue, warehouse_options_except, QuantityRule, WarehouseChoice,
};

#[test]
fn status_classes() {
    assert_eq!(period_badge("Open"), "customer-table-badge-green");
    assert_eq!(period_badge("Locked"), "customer-table-badge-red");
    assert_eq!(period_badge("Pending"), "customer-table-badge-yellow");
    assert_eq!(bucket_class("90+"), "ar-bucket-danger");
    assert_eq!(bucket_class("0-30"), "ar-bucket-default");
    assert_eq!(status_badge_class("Draft"), "badge badge-warning");
    assert_eq!(status_badge_class("Archived"), "badge badge-secondary");
    assert_eq!(customer_status("Over Limit"), "customer-status-over-limit");
    assert_eq!(customer_status("Unknown"), "customer-status-active");
    assert_eq!(invoice_badge("Partially Paid"), "customer-table-badge-blue");
    assert_eq!(invoice_badge("Void"), "customer-table-badge-gray");
    assert_eq!(purchase_status("Cancelled"), "dp-status-cancelled");
    assert_eq!(purchase_status("Weird"), "dp-status-draft");
    assert_eq!(type_badge_class("Contract"), "customer-table-badge-yellow");
    assert_eq!(type_badge_class("Temp"), "customer-table-badge-gray");
    assert_eq!(employee_status("Active"), "emp-status-active");
    assert_eq!(employee_status("On Leave"), "emp-status-inactive");
}

#[test]
fn option_lists() {
    let uom = uom_options();
    assert_eq!(uom.len(), 5);
    assert_eq!(uom[1].value, "kg");
    assert_eq!(uom[1].label, "Kilograms (kg)");
    assert_eq!(department_options().len(), 6);
    assert_eq!(designation_options().len(), 15);
    assert_eq!(departments()[0].value, "Management");
    assert_eq!(designations().len(), 10);
    assert_eq!(module_options()[3].label, "Accounting");
    assert_eq!(group_by_options().len(), 6);
    assert_eq!(sort_by_options()[1].value, "amount");
}

#[test]
fn sample_periods_are_listed_in_order() {
    let p = sample_periods();
    assert_eq!(p.len(), 10);
    assert_eq!(p[0].period_name, "January 2026");
    assert!(!p[4].is_active);
    assert_eq!(p[8].status, "Locked");
    assert_eq!(p[9].start_date, "2025-07-01");
}

fn emp(status: &str, kind: &str, dept: &str) -> Employee {
    Employee {
        id: 1,
        employee_code: "E1".to_string(),
        full_name: "A B".to_string(),
        email: String::new(),
        phone: String::new(),
        department: dept.to_string(),
        designation: String::new(),
        employment_type: kind.to_string(),
        status: status.to_string(),
        join_date: String::new(),
    }
}

#[test]
fn employee_summary_counts() {
    let list = vec![
        emp("Active", "Permanent", "Sales"),
        emp("Inactive", "Contract", "Finance"),
        emp("Active", "Intern", "Sales"),
        emp("Suspended", "Permanent", "Admin"),
    ];
    let s = compute_summary(&list);
    assert_eq!(s.total, 4);
    assert_eq!(s.active, 2);
    assert_eq!(s.inactive, 2);
    assert_eq!(s.permanent, 2);
    assert_eq!(s.contract, 1);
    assert_eq!(s.intern, 1);
    assert_eq!(s.departments, vec!["Sales".to_string(), "Finance".to_string(), "Admin".to_string()]);
    let empty = compute_summary(&vec![]);
    assert_eq!(empty.total, 0);
    assert!(empty.departments.is_empty());
}

#[test]
fn employee_record_and_form() {
    let e = employee_from_record(7, "EMP-7", "Sara", "Khan", "s@x.pk", "0300", "HR", "HR Assistant", "Permanent", false, "2026-01-02");
    assert_eq!(e.full_name, "Sara Khan");
    assert_eq!(e.status, "Inactive");
    let errs = validate_employee_form("   ", "", "Buyer");
    assert_eq!(errs.name, Some("Full name is required."));
    assert_eq!(errs.dept, Some("Department is required."));
    assert_eq!(errs.desig, None);
    assert!(!errs.is_empty());
    assert!(validate_employee_form("Ali", "Sales", "Buyer").is_empty());
}

#[test]
fn full_names_split_into_first_and_last() {
    assert_eq!(split_full_name("Muhammad Ali Khan"), ("Muhammad".to_string(), "Ali Khan".to_string()));
    assert_eq!(split_full_name("  Sara   Khan "), ("Sara".to_string(), "Khan".to_string()));
    assert_eq!(split_full_name("Cher"), ("Cher".to_string(), "Cher".to_string()));
    assert_eq!(split_full_name(""), (String::new(), String::new()));
}

#[test]
fn customer_form_checks() {
    assert!(can_submit("C-1", "Acme"));
    assert!(!can_submit("", "Acme"));
    assert_eq!(customer_form_error(" ", "Acme"), Some("Customer code and name are required."));
    assert_eq!(customer_form_error("C-1", "Acme"), None);
}

#[test]
fn customer_list_helpers() {
    assert_eq!(city_from_address("12 Mall Road,  Lahore, Pakistan"), "12 Mall Road");
    assert_eq!(city_from_address("  Karachi  "), "Karachi");
    assert_eq!(city_from_address(""), "");
    let statuses = vec!["Active".to_string(), "Over Limit".to_string(), "Active".to_string(), "Inactive".to_string(), "Other".to_string()];
    let c = count_statuses(&statuses);
    assert_eq!((c.total, c.active, c.inactive, c.over_limit), (5, 2, 1, 1));
}

fn inv(no: &str, status: &str, total: &str) -> ActivityInvoice {
    ActivityInvoice { invoice_no: no.to_string(), date: format!("d-{}", no), status: status.to_string(), total_text: total.to_string() }
}

fn entry(kind: &str, credit: &str) -> ActivityLedgerEntry {
    ActivityLedgerEntry { entry_type: kind.to_string(), date: "2026-06-01".to_string(), credit_text: credit.to_string() }
}

#[test]
fn recent_activity() {
    let invs = vec![inv("I1", "Paid", "100"), inv("I2", "Overdue", "200"), inv("I3", "Unpaid", "300"), inv("I4", "Partially Paid", "400")];
    let ledger = vec![entry("PAYMENT", "50"), entry("INVOICE", "0"), entry("PAYMENT", "60"), entry("PAYMENT", "70")];
    let items = generate_activity_items(&invs, &ledger);
    assert_eq!(items.len(), 5);
    assert_eq!(items[0].0, "Invoice <strong>I4</strong> — PKR 400");
    assert_eq!(items[0].1, "activity-icon-yellow");
    assert_eq!(items[0].2, "d-I4");
    assert_eq!(items[1].1, "activity-icon-blue");
    assert_eq!(items[2].1, "activity-icon-red");
    assert_eq!(items[3].0, "Payment of <strong>PKR 50</strong> received");
    assert_eq!(items[4].0, "Payment of <strong>PKR 60</strong> received");
    let none = generate_activity_items(&vec![], &vec![entry("INVOICE", "1")]);
    assert_eq!(none, vec![("No recent activity".to_string(), "activity-icon-blue".to_string(), String::new())]);
}

#[test]
fn dashboard_helpers() {
    assert_eq!(activity_icon_for("Created Invoice"), ("🧾", "#e8f0fe"));
    assert_eq!(activity_icon_for("PAYMENT received"), ("💰", "#f0f0ff"));
    assert_eq!(activity_icon_for("Goods Receipt"), ("📥", "#e8f8f0"));
    assert_eq!(activity_icon_for("User Login"), ("🔑", "#e8f8f0"));
    assert_eq!(activity_icon_for("Something"), ("📋", "#f0f2f5"));
    assert_eq!(relative_time(""), "Unknown");
    assert_eq!(relative_time("2026-06-20T10:15:00Z"), "2026-06-20");
    assert_eq!(relative_time("2026-06-20"), "2026-06-20");
    assert_eq!(severity_class(&Severity::Warning), "dashboard-alert-dot-warning");
    assert_eq!(severity_label(&Severity::Critical), "Out of Stock");
    assert_eq!(severity_label(&Severity::Info), "Below Reorder");
    assert_eq!(today_formatted(), "June 26, 2026");
}

#[test]
fn direct_purchase_helpers() {
    let suppliers = vec![Supplier {
        id: -3,
        supplier_code: "S-1".to_string(),
        supplier_name: "Acme".to_string(),
        email: String::new(),
        phone: String::new(),
        address: String::new(),
        is_active: true,
        created_at: String::new(),
    }];
    let opts = build_supplier_options(&suppliers);
    assert_eq!(opts[0].value, "-3");
    assert_eq!(opts[0].label, "S-1 - Acme");
    let items = vec![
        CatalogItem { id: 12, item_code: "A".to_string(), item_name: "Bolt".to_string() },
        CatalogItem { id: 40, item_code: "B".to_string(), item_name: "Nut".to_string() },
    ];
    assert_eq!(build_item_options(&items)[1].label, "B - Nut");
    assert_eq!(item_name_from_catalog(&items, "40"), "Nut");
    assert_eq!(item_name_from_catalog(&items, "040"), "");
    let lines = vec![String::new(), "12".to_string()];
    assert_eq!(first_filled_line(&lines), Some(1));
    assert_eq!(purchase_issue("", &lines), Some(("Validation Error", "Please select a supplier.")));
    assert_eq!(purchase_issue("S-1", &vec![String::new()]), Some(("Validation Error", "Please add at least one item.")));
    assert_eq!(purchase_issue("S-1", &lines), None);
}

#[test]
fn report_builder() {
    let mut selected = default_selected_fields();
    assert_eq!(selected.len(), 5);
    toggle_field(&mut selected, "tax");
    toggle_field(&mut selected, "customer");
    let fields = sales_fields();
    assert_eq!(fields.len(), 8);
    let chosen = selected_field_list(&fields, &selected);
    let keys: Vec<&str> = chosen.iter().map(|p| p.0).collect();
    assert_eq!(keys, vec!["invoice_no", "date", "amount", "tax", "status"]);
    assert_eq!(preview_warning(&vec![]), Some(("No Fields", "Select at least one field to preview.")));
    assert_eq!(preview_warning(&selected), None);
    assert_eq!(name_warning("  "), Some(("Name Required", "Enter a report name.")));
    assert_eq!(name_warning("Q2 sales"), None);
    let rows = preview_data();
    assert_eq!(rows.len(), 4);
    assert_eq!(rows[2][6], "Partially Paid");
}

#[test]
fn bom_checks() {
    let lines = vec![
        ComponentLineCheck { item_code: "5".to_string(), quantity_positive: true },
        ComponentLineCheck { item_code: String::new(), quantity_positive: true },
    ];
    let errs = validate_bom_form("", &lines);
    assert_eq!(errs.item, Some("Finished item is required."));
    assert_eq!(errs.components, Some("All component lines must have an item and quantity > 0."));
    let ok = validate_bom_form("9", &lines[..1].to_vec());
    assert_eq!(ok.item, None);
    assert_eq!(ok.components, None);
    assert_eq!(bom_name_or_default(""), "New BOM");
    assert_eq!(bom_name_or_default("BOM-7"), "BOM-7");
}

#[test]
fn stock_movements() {
    assert_eq!(warehouse_issue(true, 0, 2), Some("Select both source and destination warehouses."));
    assert_eq!(warehouse_issue(true, 2, 2), Some("Source and destination must differ."));
    assert_eq!(warehouse_issue(true, 1, 2), None);
    assert_eq!(warehouse_issue(false, 5, 0), Some("Select a warehouse."));
    assert_eq!(warehouse_issue(false, 0, 3), None);
    assert!(line_counts(false, 4, false, true));
    assert!(!line_counts(true, 4, false, true));
    assert!(!line_counts(false, 0, true, true));
    assert_eq!(movement_note(true, ""), "Stock transfer");
    assert_eq!(movement_note(false, ""), "Stock adjustment");
    assert_eq!(movement_note(false, "recount"), "recount");
    let rows = movement_rows(true, 1, 2);
    assert_eq!(rows.len(), 2);
    assert_eq!((rows[0].warehouse_id, rows[0].quantity), (1, QuantityRule::Out));
    assert_eq!((rows[1].warehouse_id, rows[1].quantity), (2, QuantityRule::In));
    assert_eq!(movement_type_text(&rows[0]), "TRANSFER");
    let adj = movement_rows(false, 1, 2);
    assert_eq!(adj.len(), 1);
    assert_eq!(adj[0].quantity, QuantityRule::AsEntered);
    assert_eq!(movement_type_text(&adj[0]), "ADJUSTMENT");
    assert_eq!(destination_after_type_change("TRANSFER", 9), 0);
    assert_eq!(destination_after_type_change("ADJUSTMENT", 9), 9);
    let ws = vec![
        WarehouseChoice { id: 1, warehouse_code: "W1".to_string(), warehouse_name: "Main".to_string() },
        WarehouseChoice { id: 2, warehouse_code: "W2".to_string(), warehouse_name: "Annex".to_string() },
    ];
    let dest = warehouse_options_except(&ws, 1);
    assert_eq!(dest.len(), 1);
    assert_eq!(dest[0].value, "2");
    assert_eq!(dest[0].label, "W2 - Annex");
}
