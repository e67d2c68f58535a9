//! Interface languages and the translation tables: what each language is called, which
//! way it is written, and how a key of a category is translated, falling back to the key.

use vstd::prelude::*;
use crate::text::str_eq;

verus! {

/// A language of the interface.
#[derive(Clone, Copy, Debug, PartialEq, Eq, Structural)]
pub enum Lang {
    En,
    Ur,
}

impl Lang {
    /// The language code: `en` or `ur`.
    pub fn code(&self) -> (r: &'static str)
        ensures
            *self == Lang::En ==> r@ == "en"@,
            *self == Lang::Ur ==> r@ == "ur"@,
    {
        match self {
            Lang::En => "en",
            Lang::Ur => "ur",
        }
    }

    /// The language's own name for itself.
    pub fn name(&self) -> (r: &'static str)
        ensures
            *self == Lang::En ==> r@ == "English"@,
            *self == Lang::Ur ==> r@ == "اردو"@,
    {
        match self {
            Lang::En => "English",
            Lang::Ur => "اردو",
        }
    }

    /// Whether the language is written right to left (only Urdu is).
    pub fn is_rtl(&self) -> (r: bool)
        ensures
            r == (*self == Lang::Ur),
    {
        match self {
            Lang::En => false,
            Lang::Ur => true,
        }
    }
}

/// The language that the language toggle switches to from `lang`.
pub open spec fn other_lang(lang: Lang) -> Lang {
    match lang {
        Lang::En => Lang::Ur,
        Lang::Ur => Lang::En,
    }
}

/// The language selected after pressing the language toggle in `current`.
pub fn toggle_lang(current: Lang) -> (r: Lang)
    ensures
        r == other_lang(current),
{
    match current {
        Lang::En => Lang::Ur,
        Lang::Ur => Lang::En,
    }
}

/// Pressing the language toggle twice gives back the language one started with,
/// and a single press always changes it.
pub proof fn law_toggle_lang_twice(lang: Lang)
    ensures
        other_lang(other_lang(lang)) == lang,
        other_lang(lang) != lang,
{
}

/// The translation tables of one language: for each category, its entries as
/// `(key, text)` pairs in the order they are filled in.
pub struct Translations {
    pub common: Vec<(&'static str, &'static str)>,
    pub nav: Vec<(&'static str, &'static str)>,
    pub actions: Vec<(&'static str, &'static str)>,
    pub status: Vec<(&'static str, &'static str)>,
    pub fields: Vec<(&'static str, &'static str)>,
    pub messages: Vec<(&'static str, &'static str)>,
    pub modules: Vec<(&'static str, &'static str)>,
}

/// The entries of a table, as pairs of character sequences.
pub open spec fn pairs_view(v: Seq<(&'static str, &'static str)>) -> Seq<(Seq<char>, Seq<char>)> {
    v.map_values(|p: (&'static str, &'static str)| (p.0@, p.1@))
}

/// The map that the entries of a table make when they are inserted in order:
/// a later entry for a key replaces an earlier one.
pub open spec fn table_map(entries: Seq<(Seq<char>, Seq<char>)>) -> Map<Seq<char>, Seq<char>>
    decreases entries.len(),
{
    if entries.len() == 0 {
        Map::empty()
    } else {
        table_map(entries.drop_last()).insert(entries.last().0, entries.last().1)
    }
}

/// The text that a table gives for `key`, or `fallback` where it has none.
pub open spec fn looked_up(
    entries: Seq<(Seq<char>, Seq<char>)>,
    key: Seq<char>,
    fallback: Seq<char>,
) -> Seq<char> {
    if table_map(entries).contains_key(key) {
        table_map(entries)[key]
    } else {
        fallback
    }
}

/// The last entry for `key` decides what the table maps it to.
proof fn lemma_last_entry_wins(entries: Seq<(Seq<char>, Seq<char>)>, j: int, key: Seq<char>)
    requires
        0 <= j < entries.len(),
        entries[j].0 == key,
        forall|m: int| j < m < entries.len() ==> entries[m].0 != key,
    ensures
        table_map(entries).contains_key(key),
        table_map(entries)[key] == entries[j].1,
    decreases entries.len(),
{
    if j < entries.len() - 1 {
        let rest = entries.drop_last();
        assert forall|m: int| j < m < rest.len() implies rest[m].0 != key by {
            assert(rest[m] == entries[m]);
        }
        lemma_last_entry_wins(rest, j, key);
    }
}

/// A key that no entry has is not in the table's map.
proof fn lemma_absent_key(entries: Seq<(Seq<char>, Seq<char>)>, key: Seq<char>)
    requires
        forall|m: int| 0 <= m < entries.len() ==> entries[m].0 != key,
    ensures
        !table_map(entries).contains_key(key),
    decreases entries.len(),
{
    if entries.len() > 0 {
        let rest = entries.drop_last();
        assert forall|m: int| 0 <= m < rest.len() implies rest[m].0 != key by {
            assert(rest[m] == entries[m]);
        }
        lemma_absent_key(rest, key);
    }
}

/// The text that `table` holds for `key` (`HashMap::get` on the filled-in map).
pub fn lookup(table: &Vec<(&'static str, &'static str)>, key: &str) -> (r: Option<&'static str>)
    ensures
        r is Some <==> table_map(pairs_view(table@)).contains_key(key@),
        r is Some ==> r->0@ == table_map(pairs_view(table@))[key@],
{
    let ghost entries = pairs_view(table@);
    let mut i: usize = table.len();
    while i > 0
        invariant
            i <= table.len(),
            entries == pairs_view(table@),
            forall|m: int| i <= m < table.len() ==> entries[m].0 != key@,
        decreases i,
    {
        i = i - 1;
        let (k, v) = table[i];
        if str_eq(k, key) {
            proof {
                assert(entries[i as int] == (k@, v@));
                lemma_last_entry_wins(entries, i as int, key@);
            }
            return Some(v);
        }
        proof {
            assert(entries[i as int] == (k@, v@));
        }
    }
    proof {
        lemma_absent_key(entries, key@);
    }
    None
}


/// The `common` entries of the English tables.
pub open spec fn en_common() -> Seq<(Seq<char>, Seq<char>)> {
    seq![
        ("loading"@, "Loading..."@),
        ("save"@, "Save"@),
        ("cancel"@, "Cancel"@),
        ("delete"@, "Delete"@),
        ("edit"@, "Edit"@),
        ("create"@, "Create"@),
        ("search"@, "Search"@),
        ("filter"@, "Filter"@),
        ("export"@, "Export"@),
        ("import"@, "Import"@),
        ("print"@, "Print"@),
        ("back"@, "Back"@),
        ("yes"@, "Yes"@),
        ("no"@, "No"@),
        ("ok"@, "OK"@),
        ("close"@, "Close"@),
        ("confirm"@, "Confirm"@),
        ("reset"@, "Reset"@),
        ("actions"@, "Actions"@),
        ("details"@, "Details"@),
        ("overview"@, "Overview"@),
        ("settings"@, "Settings"@),
        ("all"@, "All"@),
        ("none"@, "None"@),
        ("total"@, "Total"@),
        ("subtotal"@, "Subtotal"@),
        ("discount"@, "Discount"@),
        ("tax"@, "Tax"@),
        ("amount"@, "Amount"@),
        ("quantity"@, "Quantity"@),
        ("price"@, "Price"@),
        ("date"@, "Date"@),
        ("status"@, "Status"@),
        ("description"@, "Description"@),
        ("name"@, "Name"@),
        ("code"@, "Code"@),
        ("email"@, "Email"@),
        ("phone"@, "Phone"@),
        ("address"@, "Address"@),
        ("notes"@, "Notes"@),
        ("balance"@, "Balance"@),
        ("paid"@, "Paid"@),
        ("due"@, "Due"@),
        ("from"@, "From"@),
        ("to"@, "To"@),
    ]
}

/// Fills in the `common` entries of the English tables.
fn build_en_common() -> (v: Vec<(&'static str, &'static str)>)
    ensures
        pairs_view(v@) == en_common(),
{
    let mut v: Vec<(&'static str, &'static str)> = Vec::new();
    v.push(("loading", "Loading..."));
    v.push(("save", "Save"));
    v.push(("cancel", "Cancel"));
    v.push(("delete", "Delete"));
    v.push(("edit", "Edit"));
    v.push(("create", "Create"));
    v.push(("search", "Search"));
    v.push(("filter", "Filter"));
    v.push(("export", "Export"));
    v.push(("import", "Import"));
    v.push(("print", "Print"));
    v.push(("back", "Back"));
    v.push(("yes", "Yes"));
    v.push(("no", "No"));
    v.push(("ok", "OK"));
    v.push(("close", "Close"));
    v.push(("confirm", "Confirm"));
    v.push(("reset", "Reset"));
    v.push(("actions", "Actions"));
    v.push(("details", "Details"));
    v.push(("overview", "Overview"));
    v.push(("settings", "Settings"));
    v.push(("all", "All"));
    v.push(("none", "None"));
    v.push(("total", "Total"));
    v.push(("subtotal", "Subtotal"));
    v.push(("discount", "Discount"));
    v.push(("tax", "Tax"));
    v.push(("amount", "Amount"));
    v.push(("quantity", "Quantity"));
    v.push(("price", "Price"));
    v.push(("date", "Date"));
    v.push(("status", "Status"));
    v.push(("description", "Description"));
    v.push(("name", "Name"));
    v.push(("code", "Code"));
    v.push(("email", "Email"));
    v.push(("phone", "Phone"));
    v.push(("address", "Address"));
    v.push(("notes", "Notes"));
    v.push(("balance", "Balance"));
    v.push(("paid", "Paid"));
    v.push(("due", "Due"));
    v.push(("from", "From"));
    v.push(("to", "To"));
    proof {
        assert(pairs_view(v@) =~= en_common());
    }
    v
}

/// The `nav` entries of the English tables.
pub open spec fn en_nav() -> Seq<(Seq<char>, Seq<char>)> {
    seq![
        ("dashboard"@, "Dashboard"@),
        ("inventory"@, "Inventory"@),
        ("items"@, "Items"@),
        ("warehouses"@, "Warehouses"@),
        ("stock_movements"@, "Stock Movements"@),
        ("physical_counts"@, "Physical Counts"@),
        ("sales"@, "Sales"@),
        ("invoices"@, "Invoices"@),
        ("quotations"@, "Quotations"@),
        ("sales_orders"@, "Sales Orders"@),
        ("sales_returns"@, "Sales Returns"@),
        ("pos"@, "POS Terminal"@),
        ("purchases"@, "Purchases"@),
        ("direct_purchases"@, "Direct Purchases"@),
        ("purchase_orders"@, "Purchase Orders"@),
        ("goods_receipts"@, "Goods Receipts"@),
        ("purchase_returns"@, "Purchase Returns"@),
        ("manufacturing"@, "Manufacturing"@),
        ("bom"@, "Bill of Materials"@),
        ("production"@, "Production"@),
        ("customers"@, "Customers"@),
        ("suppliers"@, "Suppliers"@),
        ("employees"@, "Employees"@),
        ("expenses"@, "Expenses"@),
        ("accounting"@, "Accounting"@),
        ("chart_of_accounts"@, "Chart of Accounts"@),
        ("periods"@, "Accounting Periods"@),
        ("reports"@, "Reports"@),
        ("forecasts"@, "Forecasts"@),
        ("users"@, "Users"@),
        ("roles"@, "Roles"@),
        ("activity_log"@, "Activity Log"@),
        ("integrations"@, "Integrations"@),
    ]
}

/// Fills in the `nav` entries of the English tables.
fn build_en_nav() -> (v: Vec<(&'static str, &'static str)>)
    ensures
        pairs_view(v@) == en_nav(),
{
    let mut v: Vec<(&'static str, &'static str)> = Vec::new();
    v.push(("dashboard", "Dashboard"));
    v.push(("inventory", "Inventory"));
    v.push(("items", "Items"));
    v.push(("warehouses", "Warehouses"));
    v.push(("stock_movements", "Stock Movements"));
    v.push(("physical_counts", "Physical Counts"));
    v.push(("sales", "Sales"));
    v.push(("invoices", "Invoices"));
    v.push(("quotations", "Quotations"));
    v.push(("sales_orders", "Sales Orders"));
    v.push(("sales_returns", "Sales Returns"));
    v.push(("pos", "POS Terminal"));
    v.push(("purchases", "Purchases"));
    v.push(("direct_purchases", "Direct Purchases"));
    v.push(("purchase_orders", "Purchase Orders"));
    v.push(("goods_receipts", "Goods Receipts"));
    v.push(("purchase_returns", "Purchase Returns"));
    v.push(("manufacturing", "Manufacturing"));
    v.push(("bom", "Bill of Materials"));
    v.push(("production", "Production"));
    v.push(("customers", "Customers"));
    v.push(("suppliers", "Suppliers"));
    v.push(("employees", "Employees"));
    v.push(("expenses", "Expenses"));
    v.push(("accounting", "Accounting"));
    v.push(("chart_of_accounts", "Chart of Accounts"));
    v.push(("periods", "Accounting Periods"));
    v.push(("reports", "Reports"));
    v.push(("forecasts", "Forecasts"));
    v.push(("users", "Users"));
    v.push(("roles", "Roles"));
    v.push(("activity_log", "Activity Log"));
    v.push(("integrations", "Integrations"));
    proof {
        assert(pairs_view(v@) =~= en_nav());
    }
    v
}

/// The `actions` entries of the English tables.
pub open spec fn en_actions() -> Seq<(Seq<char>, Seq<char>)> {
    seq![
        ("add_new"@, "Add New"@),
        ("view_all"@, "View All"@),
        ("view_detail"@, "View Detail"@),
        ("create_new"@, "Create New"@),
        ("save_changes"@, "Save Changes"@),
        ("confirm_delete"@, "Confirm Delete"@),
        ("are_you_sure"@, "Are you sure?"@),
        ("cannot_be_undone"@, "This action cannot be undone."@),
        ("no_items_found"@, "No items found"@),
        ("try_adjusting"@, "Try adjusting your filters or search."@),
        ("page_loading"@, "Loading page data..."@),
        ("submit"@, "Submit"@),
        ("apply"@, "Apply"@),
        ("clear_filters"@, "Clear Filters"@),
        ("bulk_actions"@, "Bulk Actions"@),
        ("select_all"@, "Select All"@),
        ("deselect_all"@, "Deselect All"@),
        ("refresh"@, "Refresh"@),
        ("download"@, "Download"@),
        ("upload"@, "Upload"@),
    ]
}

/// Fills in the `actions` entries of the English tables.
fn build_en_actions() -> (v: Vec<(&'static str, &'static str)>)
    ensures
        pairs_view(v@) == en_actions(),
{
    let mut v: Vec<(&'static str, &'static str)> = Vec::new();
    v.push(("add_new", "Add New"));
    v.push(("view_all", "View All"));
    v.push(("view_detail", "View Detail"));
    v.push(("create_new", "Create New"));
    v.push(("save_changes", "Save Changes"));
    v.push(("confirm_delete", "Confirm Delete"));
    v.push(("are_you_sure", "Are you sure?"));
    v.push(("cannot_be_undone", "This action cannot be undone."));
    v.push(("no_items_found", "No items found"));
    v.push(("try_adjusting", "Try adjusting your filters or search."));
    v.push(("page_loading", "Loading page data..."));
    v.push(("submit", "Submit"));
    v.push(("apply", "Apply"));
    v.push(("clear_filters", "Clear Filters"));
    v.push(("bulk_actions", "Bulk Actions"));
    v.push(("select_all", "Select All"));
    v.push(("deselect_all", "Deselect All"));
    v.push(("refresh", "Refresh"));
    v.push(("download", "Download"));
    v.push(("upload", "Upload"));
    proof {
        assert(pairs_view(v@) =~= en_actions());
    }
    v
}

/// The `status` entries of the English tables.
pub open spec fn en_status() -> Seq<(Seq<char>, Seq<char>)> {
    seq![
        ("active"@, "Active"@),
        ("inactive"@, "Inactive"@),
        ("pending"@, "Pending"@),
        ("approved"@, "Approved"@),
        ("completed"@, "Completed"@),
        ("cancelled"@, "Cancelled"@),
        ("paid"@, "Paid"@),
        ("unpaid"@, "Unpaid"@),
        ("partial"@, "Partially Paid"@),
        ("overdue"@, "Overdue"@),
        ("draft"@, "Draft"@),
        ("received"@, "Received"@),
        ("returned"@, "Returned"@),
        ("delivered"@, "Delivered"@),
        ("processing"@, "Processing"@),
    ]
}

/// Fills in the `status` entries of the English tables.
fn build_en_status() -> (v: Vec<(&'static str, &'static str)>)
    ensures
        pairs_view(v@) == en_status(),
{
    let mut v: Vec<(&'static str, &'static str)> = Vec::new();
    v.push(("active", "Active"));
    v.push(("inactive", "Inactive"));
    v.push(("pending", "Pending"));
    v.push(("approved", "Approved"));
    v.push(("completed", "Completed"));
    v.push(("cancelled", "Cancelled"));
    v.push(("paid", "Paid"));
    v.push(("unpaid", "Unpaid"));
    v.push(("partial", "Partially Paid"));
    v.push(("overdue", "Overdue"));
    v.push(("draft", "Draft"));
    v.push(("received", "Received"));
    v.push(("returned", "Returned"));
    v.push(("delivered", "Delivered"));
    v.push(("processing", "Processing"));
    proof {
        assert(pairs_view(v@) =~= en_status());
    }
    v
}

/// The `fields` entries of the English tables.
pub open spec fn en_fields() -> Seq<(Seq<char>, Seq<char>)> {
    seq![
        ("item_code"@, "Item Code"@),
        ("item_name"@, "Item Name"@),
        ("category"@, "Category"@),
        ("unit_of_measure"@, "Unit of Measure"@),
        ("current_stock"@, "Current Stock"@),
        ("reorder_level"@, "Reorder Level"@),
        ("standard_cost"@, "Standard Cost"@),
        ("selling_price"@, "Selling Price"@),
        ("customer_name"@, "Customer Name"@),
        ("customer_code"@, "Customer Code"@),
        ("supplier_name"@, "Supplier Name"@),
        ("supplier_code"@, "Supplier Code"@),
        ("invoice_no"@, "Invoice No"@),
        ("quotation_no"@, "Quotation No"@),
        ("po_no"@, "PO No"@),
        ("so_no"@, "SO No"@),
        ("invoice_date"@, "Invoice Date"@),
        ("due_date"@, "Due Date"@),
        ("payment_method"@, "Payment Method"@),
        ("credit_limit"@, "Credit Limit"@),
        ("payment_terms"@, "Payment Terms"@),
        ("warehouse"@, "Warehouse"@),
        ("employee_code"@, "Employee Code"@),
        ("department"@, "Department"@),
        ("designation"@, "Designation"@),
        ("salary"@, "Salary"@),
        ("expense_category"@, "Expense Category"@),
        ("bom_name"@, "BOM Name"@),
        ("finished_item"@, "Finished Item"@),
        ("planned_quantity"@, "Planned Quantity"@),
        ("produced_quantity"@, "Produced Quantity"@),
    ]
}

/// Fills in the `fields` entries of the English tables.
fn build_en_fields() -> (v: Vec<(&'static str, &'static str)>)
    ensures
        pairs_view(v@) == en_fields(),
{
    let mut v: Vec<(&'static str, &'static str)> = Vec::new();
    v.push(("item_code", "Item Code"));
    v.push(("item_name", "Item Name"));
    v.push(("category", "Category"));
    v.push(("unit_of_measure", "Unit of Measure"));
    v.push(("current_stock", "Current Stock"));
    v.push(("reorder_level", "Reorder Level"));
    v.push(("standard_cost", "Standard Cost"));
    v.push(("selling_price", "Selling Price"));
    v.push(("customer_name", "Customer Name"));
    v.push(("customer_code", "Customer Code"));
    v.push(("supplier_name", "Supplier Name"));
    v.push(("supplier_code", "Supplier Code"));
    v.push(("invoice_no", "Invoice No"));
    v.push(("quotation_no", "Quotation No"));
    v.push(("po_no", "PO No"));
    v.push(("so_no", "SO No"));
    v.push(("invoice_date", "Invoice Date"));
    v.push(("due_date", "Due Date"));
    v.push(("payment_method", "Payment Method"));
    v.push(("credit_limit", "Credit Limit"));
    v.push(("payment_terms", "Payment Terms"));
    v.push(("warehouse", "Warehouse"));
    v.push(("employee_code", "Employee Code"));
    v.push(("department", "Department"));
    v.push(("designation", "Designation"));
    v.push(("salary", "Salary"));
    v.push(("expense_category", "Expense Category"));
    v.push(("bom_name", "BOM Name"));
    v.push(("finished_item", "Finished Item"));
    v.push(("planned_quantity", "Planned Quantity"));
    v.push(("produced_quantity", "Produced Quantity"));
    proof {
        assert(pairs_view(v@) =~= en_fields());
    }
    v
}

/// The `messages` entries of the English tables.
pub open spec fn en_messages() -> Seq<(Seq<char>, Seq<char>)> {
    seq![
        ("saved_successfully"@, "Saved successfully"@),
        ("deleted_successfully"@, "Deleted successfully"@),
        ("created_successfully"@, "Created successfully"@),
        ("updated_successfully"@, "Updated successfully"@),
        ("error_occurred"@, "An error occurred"@),
        ("operation_failed"@, "Operation failed"@),
        ("access_denied"@, "Access denied"@),
        ("session_expired"@, "Session expired"@),
        ("login_required"@, "Please log in to continue"@),
        ("welcome_back"@, "Welcome back"@),
        ("goodbye"@, "Goodbye"@),
    ]
}

/// Fills in the `messages` entries of the English tables.
fn build_en_messages() -> (v: Vec<(&'static str, &'static str)>)
    ensures
        pairs_view(v@) == en_messages(),
{
    let mut v: Vec<(&'static str, &'static str)> = Vec::new();
    v.push(("saved_successfully", "Saved successfully"));
    v.push(("deleted_successfully", "Deleted successfully"));
    v.push(("created_successfully", "Created successfully"));
    v.push(("updated_successfully", "Updated successfully"));
    v.push(("error_occurred", "An error occurred"));
    v.push(("operation_failed", "Operation failed"));
    v.push(("access_denied", "Access denied"));
    v.push(("session_expired", "Session expired"));
    v.push(("login_required", "Please log in to continue"));
    v.push(("welcome_back", "Welcome back"));
    v.push(("goodbye", "Goodbye"));
    proof {
        assert(pairs_view(v@) =~= en_messages());
    }
    v
}

/// The `modules` entries of the English tables.
pub open spec fn en_modules() -> Seq<(Seq<char>, Seq<char>)> {
    seq![
        ("inventory_management"@, "Inventory Management"@),
        ("sales_crm"@, "Sales & CRM"@),
        ("purchasing"@, "Purchasing"@),
        ("manufacturing"@, "Manufacturing"@),
        ("finance_accounting"@, "Finance & Accounting"@),
        ("hr_management"@, "HR Management"@),
        ("expenses"@, "Expenses"@),
        ("reports_analytics"@, "Reports & Analytics"@),
        ("forecasts"@, "Forecasts"@),
        ("admin"@, "Administration"@),
    ]
}

/// Fills in the `modules` entries of the English tables.
fn build_en_modules() -> (v: Vec<(&'static str, &'static str)>)
    ensures
        pairs_view(v@) == en_modules(),
{
    let mut v: Vec<(&'static str, &'static str)> = Vec::new();
    v.push(("inventory_management", "Inventory Management"));
    v.push(("sales_crm", "Sales & CRM"));
    v.push(("purchasing", "Purchasing"));
    v.push(("manufacturing", "Manufacturing"));
    v.push(("finance_accounting", "Finance & Accounting"));
    v.push(("hr_management", "HR Management"));
    v.push(("expenses", "Expenses"));
    v.push(("reports_analytics", "Reports & Analytics"));
    v.push(("forecasts", "Forecasts"));
    v.push(("admin", "Administration"));
    proof {
        assert(pairs_view(v@) =~= en_modules());
    }
    v
}

/// The `common` entries of the Urdu tables.
pub open spec fn ur_common() -> Seq<(Seq<char>, Seq<char>)> {
    seq![
        ("loading"@, "...لوڈ ہو رہا ہے"@),
        ("save"@, "محفوظ کریں"@),
        ("cancel"@, "منسوخ کریں"@),
        ("delete"@, "حذف کریں"@),
        ("edit"@, "ترمیم کریں"@),
        ("create"@, "بنائیں"@),
        ("search"@, "تلاش کریں"@),
        ("filter"@, "فلٹر"@),
        ("export"@, "برآمد"@),
        ("import"@, "درآمد"@),
        ("print"@, "پرنٹ"@),
        ("back"@, "واپس"@),
        ("yes"@, "ہاں"@),
        ("no"@, "نہیں"@),
        ("ok"@, "ٹھیک ہے"@),
        ("close"@, "بند کریں"@),
        ("confirm"@, "تصدیق کریں"@),
        ("reset"@, "ری سیٹ"@),
        ("actions"@, "اقدامات"@),
        ("details"@, "تفصیلات"@),
        ("overview"@, "جائزہ"@),
        ("settings"@, "ترتیبات"@),
        ("all"@, "سب"@),
        ("none"@, "کوئی نہیں"@),
        ("total"@, "کل"@),
        ("subtotal"@, "ذیلی کل"@),
        ("discount"@, "رعایت"@),
        ("tax"@, "ٹیکس"@),
        ("amount"@, "رقم"@),
        ("quantity"@, "مقدار"@),
        ("price"@, "قیمت"@),
        ("date"@, "تاریخ"@),
        ("status"@, "حالت"@),
        ("description"@, "تفصیل"@),
        ("name"@, "نام"@),
        ("code"@, "کوڈ"@),
        ("email"@, "ای میل"@),
        ("phone"@, "فون"@),
        ("address"@, "پتہ"@),
        ("notes"@, "نوٹس"@),
        ("balance"@, "بیلنس"@),
        ("paid"@, "ادا شدہ"@),
        ("due"@, "واجب الادا"@),
        ("from"@, "سے"@),
        ("to"@, "تک"@),
    ]
}

/// Fills in the `common` entries of the Urdu tables.
fn build_ur_common() -> (v: Vec<(&'static str, &'static str)>)
    ensures
        pairs_view(v@) == ur_common(),
{
    let mut v: Vec<(&'static str, &'static str)> = Vec::new();
    v.push(("loading", "...لوڈ ہو رہا ہے"));
    v.push(("save", "محفوظ کریں"));
    v.push(("cancel", "منسوخ کریں"));
    v.push(("delete", "حذف کریں"));
    v.push(("edit", "ترمیم کریں"));
    v.push(("create", "بنائیں"));
    v.push(("search", "تلاش کریں"));
    v.push(("filter", "فلٹر"));
    v.push(("export", "برآمد"));
    v.push(("import", "درآمد"));
    v.push(("print", "پرنٹ"));
    v.push(("back", "واپس"));
    v.push(("yes", "ہاں"));
    v.push(("no", "نہیں"));
    v.push(("ok", "ٹھیک ہے"));
    v.push(("close", "بند کریں"));
    v.push(("confirm", "تصدیق کریں"));
    v.push(("reset", "ری سیٹ"));
    v.push(("actions", "اقدامات"));
    v.push(("details", "تفصیلات"));
    v.push(("overview", "جائزہ"));
    v.push(("settings", "ترتیبات"));
    v.push(("all", "سب"));
    v.push(("none", "کوئی نہیں"));
    v.push(("total", "کل"));
    v.push(("subtotal", "ذیلی کل"));
    v.push(("discount", "رعایت"));
    v.push(("tax", "ٹیکس"));
    v.push(("amount", "رقم"));
    v.push(("quantity", "مقدار"));
    v.push(("price", "قیمت"));
    v.push(("date", "تاریخ"));
    v.push(("status", "حالت"));
    v.push(("description", "تفصیل"));
    v.push(("name", "نام"));
    v.push(("code", "کوڈ"));
    v.push(("email", "ای میل"));
    v.push(("phone", "فون"));
    v.push(("address", "پتہ"));
    v.push(("notes", "نوٹس"));
    v.push(("balance", "بیلنس"));
    v.push(("paid", "ادا شدہ"));
    v.push(("due", "واجب الادا"));
    v.push(("from", "سے"));
    v.push(("to", "تک"));
    proof {
        assert(pairs_view(v@) =~= ur_common());
    }
    v
}

/// The `nav` entries of the Urdu tables.
pub open spec fn ur_nav() -> Seq<(Seq<char>, Seq<char>)> {
    seq![
        ("dashboard"@, "ڈیش بورڈ"@),
        ("inventory"@, "انوینٹری"@),
        ("items"@, "اشیاء"@),
        ("warehouses"@, "گودام"@),
        ("stock_movements"@, "اسٹاک movements"@),
        ("physical_counts"@, "فیزیکل کاؤنٹ"@),
        ("sales"@, "فروخت"@),
        ("invoices"@, "انوائسز"@),
        ("quotations"@, "کوٹیشنز"@),
        ("sales_orders"@, "سیلز آرڈرز"@),
        ("sales_returns"@, "سیلز ریٹرنز"@),
        ("pos"@, "POS ٹرمینل"@),
        ("purchases"@, "خریداری"@),
        ("direct_purchases"@, "براہ راست خریداری"@),
        ("purchase_orders"@, "پرچیز آرڈرز"@),
        ("goods_receipts"@, "مال وصولی"@),
        ("purchase_returns"@, "خریداری ریٹرنز"@),
        ("manufacturing"@, "manufacturing"@),
        ("bom"@, "بِل آف مٹیریلز"@),
        ("production"@, "پیداوار"@),
        ("customers"@, "صارفین"@),
        ("suppliers"@, "سپلائرز"@),
        ("employees"@, "ملازمین"@),
        ("expenses"@, "اخراجات"@),
        ("accounting"@, "اکاؤنٹنگ"@),
        ("chart_of_accounts"@, "اکاؤنٹس چارٹ"@),
        ("periods"@, "اکاؤنٹنگ پیریڈز"@),
        ("reports"@, "رپورٹس"@),
        ("forecasts"@, "پیش گوئیاں"@),
        ("users"@, "صارفین"@),
        ("roles"@, "کردار"@),
        ("activity_log"@, "سرگرمی لاگ"@),
        ("integrations"@, "انٹیگریشنز"@),
    ]
}

/// Fills in the `nav` entries of the Urdu tables.
fn build_ur_nav() -> (v: Vec<(&'static str, &'static str)>)
    ensures
        pairs_view(v@) == ur_nav(),
{
    let mut v: Vec<(&'static str, &'static str)> = Vec::new();
    v.push(("dashboard", "ڈیش بورڈ"));
    v.push(("inventory", "انوینٹری"));
    v.push(("items", "اشیاء"));
    v.push(("warehouses", "گودام"));
    v.push(("stock_movements", "اسٹاک movements"));
    v.push(("physical_counts", "فیزیکل کاؤنٹ"));
    v.push(("sales", "فروخت"));
    v.push(("invoices", "انوائسز"));
    v.push(("quotations", "کوٹیشنز"));
    v.push(("sales_orders", "سیلز آرڈرز"));
    v.push(("sales_returns", "سیلز ریٹرنز"));
    v.push(("pos", "POS ٹرمینل"));
    v.push(("purchases", "خریداری"));
    v.push(("direct_purchases", "براہ راست خریداری"));
    v.push(("purchase_orders", "پرچیز آرڈرز"));
    v.push(("goods_receipts", "مال وصولی"));
    v.push(("purchase_returns", "خریداری ریٹرنز"));
    v.push(("manufacturing", "manufacturing"));
    v.push(("bom", "بِل آف مٹیریلز"));
    v.push(("production", "پیداوار"));
    v.push(("customers", "صارفین"));
    v.push(("suppliers", "سپلائرز"));
    v.push(("employees", "ملازمین"));
    v.push(("expenses", "اخراجات"));
    v.push(("accounting", "اکاؤنٹنگ"));
    v.push(("chart_of_accounts", "اکاؤنٹس چارٹ"));
    v.push(("periods", "اکاؤنٹنگ پیریڈز"));
    v.push(("reports", "رپورٹس"));
    v.push(("forecasts", "پیش گوئیاں"));
    v.push(("users", "صارفین"));
    v.push(("roles", "کردار"));
    v.push(("activity_log", "سرگرمی لاگ"));
    v.push(("integrations", "انٹیگریشنز"));
    proof {
        assert(pairs_view(v@) =~= ur_nav());
    }
    v
}

/// The `actions` entries of the Urdu tables.
pub open spec fn ur_actions() -> Seq<(Seq<char>, Seq<char>)> {
    seq![
        ("add_new"@, "نیا شامل کریں"@),
        ("view_all"@, "سب دیکھیں"@),
        ("view_detail"@, "تفصیل دیکھیں"@),
        ("create_new"@, "نیا بنائیں"@),
        ("save_changes"@, "تبدیلیاں محفوظ کریں"@),
        ("confirm_delete"@, "حذف کی تصدیق کریں"@),
        ("are_you_sure"@, "کیا آپ کو یقین ہے؟"@),
        ("cannot_be_undone"@, "یہ عمل واپس نہیں ہو سکتا۔"@),
        ("no_items_found"@, "کوئی آئٹم نہیں ملا"@),
        ("try_adjusting"@, "اپنے فلٹرز یا تلاش کو ترمیم کریں۔"@),
        ("page_loading"@, "...صفحہ لوڈ ہو رہا ہے"@),
        ("submit"@, "جمع کریں"@),
        ("apply"@, "لاگو کریں"@),
        ("clear_filters"@, "فلٹرز صاف کریں"@),
        ("bulk_actions"@, "جملہ اقدامات"@),
        ("select_all"@, "سب منتخب کریں"@),
        ("deselect_all"@, "انتخاب صاف کریں"@),
        ("refresh"@, "ریفریش"@),
        ("download"@, "ڈاؤن لوڈ"@),
        ("upload"@, "اپ لوڈ"@),
    ]
}

/// Fills in the `actions` entries of the Urdu tables.
fn build_ur_actions() -> (v: Vec<(&'static str, &'static str)>)
    ensures
        pairs_view(v@) == ur_actions(),
{
    let mut v: Vec<(&'static str, &'static str)> = Vec::new();
    v.push(("add_new", "نیا شامل کریں"));
    v.push(("view_all", "سب دیکھیں"));
    v.push(("view_detail", "تفصیل دیکھیں"));
    v.push(("create_new", "نیا بنائیں"));
    v.push(("save_changes", "تبدیلیاں محفوظ کریں"));
    v.push(("confirm_delete", "حذف کی تصدیق کریں"));
    v.push(("are_you_sure", "کیا آپ کو یقین ہے؟"));
    v.push(("cannot_be_undone", "یہ عمل واپس نہیں ہو سکتا۔"));
    v.push(("no_items_found", "کوئی آئٹم نہیں ملا"));
    v.push(("try_adjusting", "اپنے فلٹرز یا تلاش کو ترمیم کریں۔"));
    v.push(("page_loading", "...صفحہ لوڈ ہو رہا ہے"));
    v.push(("submit", "جمع کریں"));
    v.push(("apply", "لاگو کریں"));
    v.push(("clear_filters", "فلٹرز صاف کریں"));
    v.push(("bulk_actions", "جملہ اقدامات"));
    v.push(("select_all", "سب منتخب کریں"));
    v.push(("deselect_all", "انتخاب صاف کریں"));
    v.push(("refresh", "ریفریش"));
    v.push(("download", "ڈاؤن لوڈ"));
    v.push(("upload", "اپ لوڈ"));
    proof {
        assert(pairs_view(v@) =~= ur_actions());
    }
    v
}

/// The `status` entries of the Urdu tables.
pub open spec fn ur_status() -> Seq<(Seq<char>, Seq<char>)> {
    seq![
        ("active"@, "فعال"@),
        ("inactive"@, "غیر فعال"@),
        ("pending"@, "زیر التوا"@),
        ("approved"@, "منظور شدہ"@),
        ("completed"@, "مکمل"@),
        ("cancelled"@, "منسوخ"@),
        ("paid"@, "ادا شدہ"@),
        ("unpaid"@, "غیر ادا شدہ"@),
        ("partial"@, "جزوی ادا شدہ"@),
        ("overdue"@, "واجب الادا"@),
        ("draft"@, "مسودہ"@),
        ("received"@, "وصول شدہ"@),
        ("returned"@, "واپس شدہ"@),
        ("delivered"@, "ڈلیور شدہ"@),
        ("processing"@, "عمل جاری ہے"@),
    ]
}

/// Fills in the `status` entries of the Urdu tables.
fn build_ur_status() -> (v: Vec<(&'static str, &'static str)>)
    ensures
        pairs_view(v@) == ur_status(),
{
    let mut v: Vec<(&'static str, &'static str)> = Vec::new();
    v.push(("active", "فعال"));
    v.push(("inactive", "غیر فعال"));
    v.push(("pending", "زیر التوا"));
    v.push(("approved", "منظور شدہ"));
    v.push(("completed", "مکمل"));
    v.push(("cancelled", "منسوخ"));
    v.push(("paid", "ادا شدہ"));
    v.push(("unpaid", "غیر ادا شدہ"));
    v.push(("partial", "جزوی ادا شدہ"));
    v.push(("overdue", "واجب الادا"));
    v.push(("draft", "مسودہ"));
    v.push(("received", "وصول شدہ"));
    v.push(("returned", "واپس شدہ"));
    v.push(("delivered", "ڈلیور شدہ"));
    v.push(("processing", "عمل جاری ہے"));
    proof {
        assert(pairs_view(v@) =~= ur_status());
    }
    v
}

/// The `fields` entries of the Urdu tables.
pub open spec fn ur_fields() -> Seq<(Seq<char>, Seq<char>)> {
    seq![
        ("item_code"@, "آئٹم کوڈ"@),
        ("item_name"@, "آئٹم کا نام"@),
        ("category"@, "زمرہ"@),
        ("unit_of_measure"@, "پیمانہ"@),
        ("current_stock"@, "موجودہ اسٹاک"@),
        ("reorder_level"@, "ری آرڈر لیول"@),
        ("standard_cost"@, "معیاری لاگت"@),
        ("selling_price"@, "فروخت قیمت"@),
        ("customer_name"@, "صارف کا نام"@),
        ("customer_code"@, "صارف کوڈ"@),
        ("supplier_name"@, "سپلائر کا نام"@),
        ("supplier_code"@, "سپلائر کوڈ"@),
        ("invoice_no"@, "انوائس نمبر"@),
        ("quotation_no"@, "کوٹیشن نمبر"@),
        ("po_no"@, "پرچیز آرڈر نمبر"@),
        ("so_no"@, "سیلز آرڈر نمبر"@),
        ("invoice_date"@, "انوائس کی تاریخ"@),
        ("due_date"@, "واجب الادا تاریخ"@),
        ("payment_method"@, "ادائیگی کا طریقہ"@),
        ("credit_limit"@, "کریڈٹ حد"@),
        ("payment_terms"@, "ادائیگی کی شرائط"@),
        ("warehouse"@, "گودام"@),
        ("employee_code"@, "ملازم کوڈ"@),
        ("department"@, "محکمہ"@),
        ("designation"@, "عہدہ"@),
        ("salary"@, "تنخواہ"@),
        ("expense_category"@, "اخراجات کا زمرہ"@),
        ("bom_name"@, "BOM کا نام"@),
        ("finished_item"@, "تیار شدہ آئٹم"@),
        ("planned_quantity"@, "منصوبہ مقدار"@),
        ("produced_quantity"@, "پیدا شدہ مقدار"@),
    ]
}

/// Fills in the `fields` entries of the Urdu tables.
fn build_ur_fields() -> (v: Vec<(&'static str, &'static str)>)
    ensures
        pairs_view(v@) == ur_fields(),
{
    let mut v: Vec<(&'static str, &'static str)> = Vec::new();
    v.push(("item_code", "آئٹم کوڈ"));
    v.push(("item_name", "آئٹم کا نام"));
    v.push(("category", "زمرہ"));
    v.push(("unit_of_measure", "پیمانہ"));
    v.push(("current_stock", "موجودہ اسٹاک"));
    v.push(("reorder_level", "ری آرڈر لیول"));
    v.push(("standard_cost", "معیاری لاگت"));
    v.push(("selling_price", "فروخت قیمت"));
    v.push(("customer_name", "صارف کا نام"));
    v.push(("customer_code", "صارف کوڈ"));
    v.push(("supplier_name", "سپلائر کا نام"));
    v.push(("supplier_code", "سپلائر کوڈ"));
    v.push(("invoice_no", "انوائس نمبر"));
    v.push(("quotation_no", "کوٹیشن نمبر"));
    v.push(("po_no", "پرچیز آرڈر نمبر"));
    v.push(("so_no", "سیلز آرڈر نمبر"));
    v.push(("invoice_date", "انوائس کی تاریخ"));
    v.push(("due_date", "واجب الادا تاریخ"));
    v.push(("payment_method", "ادائیگی کا طریقہ"));
    v.push(("credit_limit", "کریڈٹ حد"));
    v.push(("payment_terms", "ادائیگی کی شرائط"));
    v.push(("warehouse", "گودام"));
    v.push(("employee_code", "ملازم کوڈ"));
    v.push(("department", "محکمہ"));
    v.push(("designation", "عہدہ"));
    v.push(("salary", "تنخواہ"));
    v.push(("expense_category", "اخراجات کا زمرہ"));
    v.push(("bom_name", "BOM کا نام"));
    v.push(("finished_item", "تیار شدہ آئٹم"));
    v.push(("planned_quantity", "منصوبہ مقدار"));
    v.push(("produced_quantity", "پیدا شدہ مقدار"));
    proof {
        assert(pairs_view(v@) =~= ur_fields());
    }
    v
}

/// The `messages` entries of the Urdu tables.
pub open spec fn ur_messages() -> Seq<(Seq<char>, Seq<char>)> {
    seq![
        ("saved_successfully"@, "کامیابی سے محفوظ ہو گیا"@),
        ("deleted_successfully"@, "کامیابی سے حذف ہو گیا"@),
        ("created_successfully"@, "کامیابی سے بن گیا"@),
        ("updated_successfully"@, "کامیابی سے اپ ڈیٹ ہو گیا"@),
        ("error_occurred"@, "خرابی ہوئی"@),
        ("operation_failed"@, "آپریشن ناکام"@),
        ("access_denied"@, "رسائی منع ہے"@),
        ("session_expired"@, "سیشن ختم ہو گیا"@),
        ("login_required"@, "براہ کرم لاگ ان کریں"@),
        ("welcome_back"@, "خوش آمدید"@),
        ("goodbye"@, "خدا حافظ"@),
    ]
}

/// Fills in the `messages` entries of the Urdu tables.
fn build_ur_messages() -> (v: Vec<(&'static str, &'static str)>)
    ensures
        pairs_view(v@) == ur_messages(),
{
    let mut v: Vec<(&'static str, &'static str)> = Vec::new();
    v.push(("saved_successfully", "کامیابی سے محفوظ ہو گیا"));
    v.push(("deleted_successfully", "کامیابی سے حذف ہو گیا"));
    v.push(("created_successfully", "کامیابی سے بن گیا"));
    v.push(("updated_successfully", "کامیابی سے اپ ڈیٹ ہو گیا"));
    v.push(("error_occurred", "خرابی ہوئی"));
    v.push(("operation_failed", "آپریشن ناکام"));
    v.push(("access_denied", "رسائی منع ہے"));
    v.push(("session_expired", "سیشن ختم ہو گیا"));
    v.push(("login_required", "براہ کرم لاگ ان کریں"));
    v.push(("welcome_back", "خوش آمدید"));
    v.push(("goodbye", "خدا حافظ"));
    proof {
        assert(pairs_view(v@) =~= ur_messages());
    }
    v
}

/// The `modules` entries of the Urdu tables.
pub open spec fn ur_modules() -> Seq<(Seq<char>, Seq<char>)> {
    seq![
        ("inventory_management"@, "انوینٹری مینجمنٹ"@),
        ("sales_crm"@, "فروخت اور CRM"@),
        ("purchasing"@, "خریداری"@),
        ("manufacturing"@, "manufacturing"@),
        ("finance_accounting"@, "مالیات و اکاؤنٹنگ"@),
        ("hr_management"@, "HR مینجمنٹ"@),
        ("expenses"@, "اخراجات"@),
        ("reports_analytics"@, "رپورٹس و تجزیات"@),
        ("forecasts"@, "پیش گوئیاں"@),
        ("admin"@, "انتظامیہ"@),
    ]
}

/// Fills in the `modules` entries of the Urdu tables.
fn build_ur_modules() -> (v: Vec<(&'static str, &'static str)>)
    ensures
        pairs_view(v@) == ur_modules(),
{
    let mut v: Vec<(&'static str, &'static str)> = Vec::new();
    v.push(("inventory_management", "انوینٹری مینجمنٹ"));
    v.push(("sales_crm", "فروخت اور CRM"));
    v.push(("purchasing", "خریداری"));
    v.push(("manufacturing", "manufacturing"));
    v.push(("finance_accounting", "مالیات و اکاؤنٹنگ"));
    v.push(("hr_management", "HR مینجمنٹ"));
    v.push(("expenses", "اخراجات"));
    v.push(("reports_analytics", "رپورٹس و تجزیات"));
    v.push(("forecasts", "پیش گوئیاں"));
    v.push(("admin", "انتظامیہ"));
    proof {
        assert(pairs_view(v@) =~= ur_modules());
    }
    v
}

/// The `common` entries of the tables of `lang`.
pub open spec fn common_table(lang: Lang) -> Seq<(Seq<char>, Seq<char>)> {
    match lang {
        Lang::En => en_common(),
        Lang::Ur => ur_common(),
    }
}

/// The `nav` entries of the tables of `lang`.
pub open spec fn nav_table(lang: Lang) -> Seq<(Seq<char>, Seq<char>)> {
    match lang {
        Lang::En => en_nav(),
        Lang::Ur => ur_nav(),
    }
}

/// The `actions` entries of the tables of `lang`.
pub open spec fn actions_table(lang: Lang) -> Seq<(Seq<char>, Seq<char>)> {
    match lang {
        Lang::En => en_actions(),
        Lang::Ur => ur_actions(),
    }
}

/// The `status` entries of the tables of `lang`.
pub open spec fn status_table(lang: Lang) -> Seq<(Seq<char>, Seq<char>)> {
    match lang {
        Lang::En => en_status(),
        Lang::Ur => ur_status(),
    }
}

/// The `fields` entries of the tables of `lang`.
pub open spec fn fields_table(lang: Lang) -> Seq<(Seq<char>, Seq<char>)> {
    match lang {
        Lang::En => en_fields(),
        Lang::Ur => ur_fields(),
    }
}

/// The `messages` entries of the tables of `lang`.
pub open spec fn messages_table(lang: Lang) -> Seq<(Seq<char>, Seq<char>)> {
    match lang {
        Lang::En => en_messages(),
        Lang::Ur => ur_messages(),
    }
}

/// The `modules` entries of the tables of `lang`.
pub open spec fn modules_table(lang: Lang) -> Seq<(Seq<char>, Seq<char>)> {
    match lang {
        Lang::En => en_modules(),
        Lang::Ur => ur_modules(),
    }
}

/// The translation tables of `lang`.
pub fn get_translations(lang: Lang) -> (r: Translations)
    ensures
        pairs_view(r.common@) == common_table(lang),
        pairs_view(r.nav@) == nav_table(lang),
        pairs_view(r.actions@) == actions_table(lang),
        pairs_view(r.status@) == status_table(lang),
        pairs_view(r.fields@) == fields_table(lang),
        pairs_view(r.messages@) == messages_table(lang),
        pairs_view(r.modules@) == modules_table(lang),
{
    match lang {
        Lang::En => Translations {
            common: build_en_common(),
            nav: build_en_nav(),
            actions: build_en_actions(),
            status: build_en_status(),
            fields: build_en_fields(),
            messages: build_en_messages(),
            modules: build_en_modules(),
        },
        Lang::Ur => Translations {
            common: build_ur_common(),
            nav: build_ur_nav(),
            actions: build_ur_actions(),
            status: build_ur_status(),
            fields: build_ur_fields(),
            messages: build_ur_messages(),
            modules: build_ur_modules(),
        },
    }
}

/// The table of `category` in the tables of `lang`; `None` for a category that does not exist.
pub open spec fn category_table(category: Seq<char>, lang: Lang) -> Option<Seq<(Seq<char>, Seq<char>)>> {
    if category == "common"@ {
        Some(common_table(lang))
    } else if category == "nav"@ {
        Some(nav_table(lang))
    } else if category == "actions"@ {
        Some(actions_table(lang))
    } else if category == "status"@ {
        Some(status_table(lang))
    } else if category == "fields"@ {
        Some(fields_table(lang))
    } else if category == "messages"@ {
        Some(messages_table(lang))
    } else if category == "modules"@ {
        Some(modules_table(lang))
    } else {
        None
    }
}

/// The translation of `key` in `category`: the table's text where it has the key,
/// the key itself where it has not or where the category does not exist.
pub open spec fn translation(category: Seq<char>, key: Seq<char>, lang: Lang) -> Seq<char> {
    match category_table(category, lang) {
        Some(entries) => looked_up(entries, key, key),
        None => key,
    }
}

/// Translates `key` of `category` into `lang`, falling back to the key itself.
pub fn t(category: &str, key: &str, lang: Lang) -> (r: String)
    ensures
        r@ == translation(category@, key@, lang),
{
    let translations = get_translations(lang);
    let table = if str_eq(category, "common") {
        &translations.common
    } else if str_eq(category, "nav") {
        &translations.nav
    } else if str_eq(category, "actions") {
        &translations.actions
    } else if str_eq(category, "status") {
        &translations.status
    } else if str_eq(category, "fields") {
        &translations.fields
    } else if str_eq(category, "messages") {
        &translations.messages
    } else if str_eq(category, "modules") {
        &translations.modules
    } else {
        return String::from_str(key);
    };
    match lookup(table, key) {
        Some(text) => String::from_str(text),
        None => String::from_str(key),
    }
}

/// The keys of a table's entries, in order.
pub open spec fn keys_of(entries: Seq<(Seq<char>, Seq<char>)>) -> Seq<Seq<char>> {
    entries.map_values(|p: (Seq<char>, Seq<char>)| p.0)
}

/// The keys the map of a table holds are the keys of its entries.
pub proof fn lemma_table_map_keys(entries: Seq<(Seq<char>, Seq<char>)>)
    ensures
        table_map(entries).dom() == keys_of(entries).to_set(),
    decreases entries.len(),
{
    if entries.len() > 0 {
        let rest = entries.drop_last();
        lemma_table_map_keys(rest);
        let k = keys_of(entries);
        let kr = keys_of(rest);
        assert(k =~= kr.push(entries.last().0));
        assert forall|x: Seq<char>| k.to_set().contains(x) <==> kr.to_set().insert(entries.last().0).contains(x) by {
            if k.contains(x) {
                let i = choose|i: int| 0 <= i < k.len() && k[i] == x;
                if i < kr.len() {
                    assert(kr[i] == x);
                }
            }
            if kr.contains(x) {
                let i = choose|i: int| 0 <= i < kr.len() && kr[i] == x;
                assert(k[i] == x);
            }
            if x == entries.last().0 {
                assert(k[kr.len() as int] == x);
            }
        }
        assert(table_map(entries).dom() =~= k.to_set());
    } else {
        assert(table_map(entries).dom() =~= keys_of(entries).to_set());
    }
}

/// Both languages have the same keys in every category, in the same order, no key occurs
/// twice in a table, and the categories hold 45, 33, 20, 15, 31, 11 and 10 keys; so a key
/// falls back to itself in one language exactly when it does in the other.
pub proof fn law_same_keys_in_both_languages()
    ensures
        keys_of(en_common()) == keys_of(ur_common()),
        keys_of(en_common()).no_duplicates() && keys_of(ur_common()).no_duplicates(),
        keys_of(en_common()).to_set().len() == en_common().len(),
        en_common().len() == 45 && ur_common().len() == 45,
        table_map(common_table(Lang::En)).dom() == table_map(common_table(Lang::Ur)).dom(),
        keys_of(en_nav()) == keys_of(ur_nav()),
        keys_of(en_nav()).no_duplicates() && keys_of(ur_nav()).no_duplicates(),
        keys_of(en_nav()).to_set().len() == en_nav().len(),
        en_nav().len() == 33 && ur_nav().len() == 33,
        table_map(nav_table(Lang::En)).dom() == table_map(nav_table(Lang::Ur)).dom(),
        keys_of(en_actions()) == keys_of(ur_actions()),
        keys_of(en_actions()).no_duplicates() && keys_of(ur_actions()).no_duplicates(),
        keys_of(en_actions()).to_set().len() == en_actions().len(),
        en_actions().len() == 20 && ur_actions().len() == 20,
        table_map(actions_table(Lang::En)).dom() == table_map(actions_table(Lang::Ur)).dom(),
        keys_of(en_status()) == keys_of(ur_status()),
        keys_of(en_status()).no_duplicates() && keys_of(ur_status()).no_duplicates(),
        keys_of(en_status()).to_set().len() == en_status().len(),
        en_status().len() == 15 && ur_status().len() == 15,
        table_map(status_table(Lang::En)).dom() == table_map(status_table(Lang::Ur)).dom(),
        keys_of(en_fields()) == keys_of(ur_fields()),
        keys_of(en_fields()).no_duplicates() && keys_of(ur_fields()).no_duplicates(),
        keys_of(en_fields()).to_set().len() == en_fields().len(),
        en_fields().len() == 31 && ur_fields().len() == 31,
        table_map(fields_table(Lang::En)).dom() == table_map(fields_table(Lang::Ur)).dom(),
        keys_of(en_messages()) == keys_of(ur_messages()),
        keys_of(en_messages()).no_duplicates() && keys_of(ur_messages()).no_duplicates(),
        keys_of(en_messages()).to_set().len() == en_messages().len(),
        en_messages().len() == 11 && ur_messages().len() == 11,
        table_map(messages_table(Lang::En)).dom() == table_map(messages_table(Lang::Ur)).dom(),
        keys_of(en_modules()) == keys_of(ur_modules()),
        keys_of(en_modules()).no_duplicates() && keys_of(ur_modules()).no_duplicates(),
        keys_of(en_modules()).to_set().len() == en_modules().len(),
        en_modules().len() == 10 && ur_modules().len() == 10,
        table_map(modules_table(Lang::En)).dom() == table_map(modules_table(Lang::Ur)).dom(),
{
    assert(keys_of(en_common()) =~= keys_of(ur_common()));
    lemma_common_keys_distinct();
    keys_of(en_common()).unique_seq_to_set();
    lemma_table_map_keys(en_common());
    lemma_table_map_keys(ur_common());
    assert(keys_of(en_nav()) =~= keys_of(ur_nav()));
    lemma_nav_keys_distinct();
    keys_of(en_nav()).unique_seq_to_set();
    lemma_table_map_keys(en_nav());
    lemma_table_map_keys(ur_nav());
    assert(keys_of(en_actions()) =~= keys_of(ur_actions()));
    lemma_actions_keys_distinct();
    keys_of(en_actions()).unique_seq_to_set();
    lemma_table_map_keys(en_actions());
    lemma_table_map_keys(ur_actions());
    assert(keys_of(en_status()) =~= keys_of(ur_status()));
    lemma_status_keys_distinct();
    keys_of(en_status()).unique_seq_to_set();
    lemma_table_map_keys(en_status());
    lemma_table_map_keys(ur_status());
    assert(keys_of(en_fields()) =~= keys_of(ur_fields()));
    lemma_fields_keys_distinct();
    keys_of(en_fields()).unique_seq_to_set();
    lemma_table_map_keys(en_fields());
    lemma_table_map_keys(ur_fields());
    assert(keys_of(en_messages()) =~= keys_of(ur_messages()));
    lemma_messages_keys_distinct();
    keys_of(en_messages()).unique_seq_to_set();
    lemma_table_map_keys(en_messages());
    lemma_table_map_keys(ur_messages());
    assert(keys_of(en_modules()) =~= keys_of(ur_modules()));
    lemma_modules_keys_distinct();
    keys_of(en_modules()).unique_seq_to_set();
    lemma_table_map_keys(en_modules());
    lemma_table_map_keys(ur_modules());
}

/// A number that tells the keys of a table apart: the length, the first letter, the
/// letter before the last and the middle letter. Different numbers mean different keys.
spec fn key_code(k: Seq<char>) -> int {
    k.len() * 2097152 + (k[0] as int) * 16384 + (k[k.len() - 2] as int) * 128 + (k[(k.len() / 2) as int] as int)
}

/// Keys whose codes differ pairwise occur once each.
proof fn lemma_distinct_codes(s: Seq<Seq<char>>)
    requires
        forall|i: int, j: int| 0 <= i < j < s.len() ==> key_code(s[i]) != key_code(s[j]),
    ensures
        s.no_duplicates(),
{
    assert forall|i: int, j: int| 0 <= i < s.len() && 0 <= j < s.len() && i != j implies s[i] != s[j] by {
        if i < j {
            assert(key_code(s[i]) != key_code(s[j]));
        } else {
            assert(key_code(s[j]) != key_code(s[i]));
        }
    }
}

/// No key of the `common` tables occurs twice.
#[verifier::rlimit(100)]
proof fn lemma_common_keys_distinct()
    ensures
        keys_of(en_common()).no_duplicates(),
{
    reveal_strlit("actions");
    reveal_strlit("address");
    reveal_strlit("all");
    reveal_strlit("amount");
    reveal_strlit("back");
    reveal_strlit("balance");
    reveal_strlit("cancel");
    reveal_strlit("close");
    reveal_strlit("code");
    reveal_strlit("confirm");
    reveal_strlit("create");
    reveal_strlit("date");
    reveal_strlit("delete");
    reveal_strlit("description");
    reveal_strlit("details");
    reveal_strlit("discount");
    reveal_strlit("due");
    reveal_strlit("edit");
    reveal_strlit("email");
    reveal_strlit("export");
    reveal_strlit("filter");
    reveal_strlit("from");
    reveal_strlit("import");
    reveal_strlit("loading");
    reveal_strlit("name");
    reveal_strlit("no");
    reveal_strlit("none");
    reveal_strlit("notes");
    reveal_strlit("ok");
    reveal_strlit("overview");
    reveal_strlit("paid");
    reveal_strlit("phone");
    reveal_strlit("price");
    reveal_strlit("print");
    reveal_strlit("quantity");
    reveal_strlit("reset");
    reveal_strlit("save");
    reveal_strlit("search");
    reveal_strlit("settings");
    reveal_strlit("status");
    reveal_strlit("subtotal");
    reveal_strlit("tax");
    reveal_strlit("to");
    reveal_strlit("total");
    reveal_strlit("yes");
    let s = keys_of(en_common());
    assert(s.len() == 45);
    assert(key_code(s[0]) == 16463716);
    assert(key_code(s[1]) == 10287990);
    assert(key_code(s[2]) == 14217955);
    assert(key_code(s[3]) == 14236261);
    assert(key_code(s[4]) == 10056937);
    assert(key_code(s[5]) == 14219873);
    assert(key_code(s[6]) == 14479858);
    assert(key_code(s[7]) == 14267124);
    assert(key_code(s[8]) == 14252399);
    assert(key_code(s[9]) == 14317935);
    assert(key_code(s[10]) == 12334953);
    assert(key_code(s[11]) == 10007011);
    assert(key_code(s[12]) == 8286949);
    assert(key_code(s[13]) == 6010735);
    assert(key_code(s[14]) == 6027243);
    assert(key_code(s[15]) == 12122607);
    assert(key_code(s[16]) == 16316774);
    assert(key_code(s[17]) == 12366579);
    assert(key_code(s[18]) == 16283497);
    assert(key_code(s[19]) == 16332385);
    assert(key_code(s[20]) == 18608886);
    assert(key_code(s[21]) == 18674665);
    assert(key_code(s[22]) == 7894636);
    assert(key_code(s[23]) == 10205038);
    assert(key_code(s[24]) == 12398836);
    assert(key_code(s[25]) == 18673903);
    assert(key_code(s[26]) == 18429807);
    assert(key_code(s[27]) == 8204513);
    assert(key_code(s[28]) == 14186357);
    assert(key_code(s[29]) == 18643572);
    assert(key_code(s[30]) == 12333545);
    assert(key_code(s[31]) == 10041972);
    assert(key_code(s[32]) == 14482164);
    assert(key_code(s[33]) == 24721385);
    assert(key_code(s[34]) == 10204909);
    assert(key_code(s[35]) == 10023524);
    assert(key_code(s[36]) == 12154081);
    assert(key_code(s[37]) == 12334959);
    assert(key_code(s[38]) == 16284146);
    assert(key_code(s[39]) == 12301044);
    assert(key_code(s[40]) == 16298465);
    assert(key_code(s[41]) == 10237161);
    assert(key_code(s[42]) == 7944949);
    assert(key_code(s[43]) == 10074095);
    assert(key_code(s[44]) == 6109807);
    lemma_distinct_codes(s);
}
/// No key of the `nav` tables occurs twice.
#[verifier::rlimit(100)]
proof fn lemma_nav_keys_distinct()
    ensures
        keys_of(en_nav()).no_duplicates(),
{
    reveal_strlit("accounting");
    reveal_strlit("activity_log");
    reveal_strlit("bom");
    reveal_strlit("chart_of_accounts");
    reveal_strlit("customers");
    reveal_strlit("dashboard");
    reveal_strlit("direct_purchases");
    reveal_strlit("employees");
    reveal_strlit("expenses");
    reveal_strlit("forecasts");
    reveal_strlit("goods_receipts");
    reveal_strlit("integrations");
    reveal_strlit("inventory");
    reveal_strlit("invoices");
    reveal_strlit("items");
    reveal_strlit("manufacturing");
    reveal_strlit("periods");
    reveal_strlit("physical_counts");
    reveal_strlit("pos");
    reveal_strlit("production");
    reveal_strlit("purchase_orders");
    reveal_strlit("purchase_returns");
    reveal_strlit("purchases");
    reveal_strlit("quotations");
    reveal_strlit("reports");
    reveal_strlit("roles");
    reveal_strlit("sales");
    reveal_strlit("sales_orders");
    reveal_strlit("sales_returns");
    reveal_strlit("stock_movements");
    reveal_strlit("suppliers");
    reveal_strlit("users");
    reveal_strlit("warehouses");
    let s = keys_of(en_nav());
    assert(s.len() == 33);
    assert(key_code(s[0]) == 20527458);
    assert(key_code(s[1]) == 20609390);
    assert(key_code(s[2]) == 12220133);
    assert(key_code(s[3]) == 22934255);
    assert(key_code(s[4]) == 33356399);
    assert(key_code(s[5]) == 33307244);
    assert(key_code(s[6]) == 12382956);
    assert(key_code(s[7]) == 18510569);
    assert(key_code(s[8]) == 22837108);
    assert(key_code(s[9]) == 27064687);
    assert(key_code(s[10]) == 29161330);
    assert(key_code(s[11]) == 8140783);
    assert(key_code(s[12]) == 20722408);
    assert(key_code(s[13]) == 35205877);
    assert(key_code(s[14]) == 33306981);
    assert(key_code(s[15]) == 31062629);
    assert(key_code(s[16]) == 35403615);
    assert(key_code(s[17]) == 29063011);
    assert(key_code(s[18]) == 7911407);
    assert(key_code(s[19]) == 22820835);
    assert(key_code(s[20]) == 20511087);
    assert(key_code(s[21]) == 20773228);
    assert(key_code(s[22]) == 20542191);
    assert(key_code(s[23]) == 18445038);
    assert(key_code(s[24]) == 22574958);
    assert(key_code(s[25]) == 37288543);
    assert(key_code(s[26]) == 16527977);
    assert(key_code(s[27]) == 16562799);
    assert(key_code(s[28]) == 20560483);
    assert(key_code(s[29]) == 12417381);
    assert(key_code(s[30]) == 12366572);
    assert(key_code(s[31]) == 26769396);
    assert(key_code(s[32]) == 26900321);
    lemma_distinct_codes(s);
}
/// No key of the `actions` tables occurs twice.
#[verifier::rlimit(100)]
proof fn lemma_actions_keys_distinct()
    ensures
        keys_of(en_actions()).no_duplicates(),
{
    reveal_strlit("add_new");
    reveal_strlit("apply");
    reveal_strlit("are_you_sure");
    reveal_strlit("bulk_actions");
    reveal_strlit("cannot_be_undone");
    reveal_strlit("clear_filters");
    reveal_strlit("confirm_delete");
    reveal_strlit("create_new");
    reveal_strlit("deselect_all");
    reveal_strlit("download");
    reveal_strlit("no_items_found");
    reveal_strlit("page_loading");
    reveal_strlit("refresh");
    reveal_strlit("save_changes");
    reveal_strlit("select_all");
    reveal_strlit("submit");
    reveal_strlit("try_adjusting");
    reveal_strlit("upload");
    reveal_strlit("view_all");
    reveal_strlit("view_detail");
    let s = keys_of(en_actions());
    assert(s.len() == 20);
    assert(key_code(s[0]) == 16282335);
    assert(key_code(s[1]) == 18724447);
    assert(key_code(s[2]) == 25015524);
    assert(key_code(s[3]) == 22606565);
    assert(key_code(s[4]) == 27063016);
    assert(key_code(s[5]) == 30997087);
    assert(key_code(s[6]) == 26769781);
    assert(key_code(s[7]) == 35190629);
    assert(key_code(s[8]) == 31176563);
    assert(key_code(s[9]) == 29177706);
    assert(key_code(s[10]) == 27015023);
    assert(key_code(s[11]) == 14480621);
    assert(key_code(s[12]) == 12088944);
    assert(key_code(s[13]) == 28899686);
    assert(key_code(s[14]) == 26785635);
    assert(key_code(s[15]) == 22869620);
    assert(key_code(s[16]) == 26818147);
    assert(key_code(s[17]) == 16562674);
    assert(key_code(s[18]) == 18428140);
    assert(key_code(s[19]) == 14512367);
    lemma_distinct_codes(s);
}
/// No key of the `status` tables occurs twice.
#[verifier::rlimit(100)]
proof fn lemma_status_keys_distinct()
    ensures
        keys_of(en_status()).no_duplicates(),
{
    reveal_strlit("active");
    reveal_strlit("approved");
    reveal_strlit("cancelled");
    reveal_strlit("completed");
    reveal_strlit("delivered");
    reveal_strlit("draft");
    reveal_strlit("inactive");
    reveal_strlit("overdue");
    reveal_strlit("paid");
    reveal_strlit("partial");
    reveal_strlit("pending");
    reveal_strlit("processing");
    reveal_strlit("received");
    reveal_strlit("returned");
    reveal_strlit("unpaid");
    let s = keys_of(en_status());
    assert(s.len() == 15);
    assert(key_code(s[0]) == 14187369);
    assert(key_code(s[1]) == 18512756);
    assert(key_code(s[2]) == 16529252);
    assert(key_code(s[3]) == 18379503);
    assert(key_code(s[4]) == 20509420);
    assert(key_code(s[5]) == 20509413);
    assert(key_code(s[6]) == 10237161);
    assert(key_code(s[7]) == 14513377);
    assert(key_code(s[8]) == 16527604);
    assert(key_code(s[9]) == 16513778);
    assert(key_code(s[10]) == 12137313);
    assert(key_code(s[11]) == 18658025);
    assert(key_code(s[12]) == 18658034);
    assert(key_code(s[13]) == 20525814);
    assert(key_code(s[14]) == 22820723);
    lemma_distinct_codes(s);
}
/// No key of the `fields` tables occurs twice.
#[verifier::rlimit(100)]
proof fn lemma_fields_keys_distinct()
    ensures
        keys_of(en_fields()).no_duplicates(),
{
    reveal_strlit("bom_name");
    reveal_strlit("category");
    reveal_strlit("credit_limit");
    reveal_strlit("current_stock");
    reveal_strlit("customer_code");
    reveal_strlit("customer_name");
    reveal_strlit("department");
    reveal_strlit("designation");
    reveal_strlit("due_date");
    reveal_strlit("employee_code");
    reveal_strlit("expense_category");
    reveal_strlit("finished_item");
    reveal_strlit("invoice_date");
    reveal_strlit("invoice_no");
    reveal_strlit("item_code");
    reveal_strlit("item_name");
    reveal_strlit("payment_method");
    reveal_strlit("payment_terms");
    reveal_strlit("planned_quantity");
    reveal_strlit("po_no");
    reveal_strlit("produced_quantity");
    reveal_strlit("quotation_no");
    reveal_strlit("reorder_level");
    reveal_strlit("salary");
    reveal_strlit("selling_price");
    reveal_strlit("so_no");
    reveal_strlit("standard_cost");
    reveal_strlit("supplier_code");
    reveal_strlit("supplier_name");
    reveal_strlit("unit_of_measure");
    reveal_strlit("warehouse");
    let s = keys_of(en_fields());
    assert(s.len() == 31);
    assert(key_code(s[0]) == 20607583);
    assert(key_code(s[1]) == 20608735);
    assert(key_code(s[2]) == 18413927);
    assert(key_code(s[3]) == 33388895);
    assert(key_code(s[4]) == 28897780);
    assert(key_code(s[5]) == 29143794);
    assert(key_code(s[6]) == 29161970);
    assert(key_code(s[7]) == 29159911);
    assert(key_code(s[8]) == 28899045);
    assert(key_code(s[9]) == 28897893);
    assert(key_code(s[10]) == 29161189);
    assert(key_code(s[11]) == 29160037);
    assert(key_code(s[12]) == 22706019);
    assert(key_code(s[13]) == 27031401);
    assert(key_code(s[14]) == 12334943);
    assert(key_code(s[15]) == 12384095);
    assert(key_code(s[16]) == 26901093);
    assert(key_code(s[17]) == 18430564);
    assert(key_code(s[18]) == 31209439);
    assert(key_code(s[19]) == 26801375);
    assert(key_code(s[20]) == 29112052);
    assert(key_code(s[21]) == 20838888);
    assert(key_code(s[22]) == 28930661);
    assert(key_code(s[23]) == 22624116);
    assert(key_code(s[24]) == 24721390);
    assert(key_code(s[25]) == 14481761);
    assert(key_code(s[26]) == 35223907);
    assert(key_code(s[27]) == 18396910);
    assert(key_code(s[28]) == 28947173);
    assert(key_code(s[29]) == 35404401);
    assert(key_code(s[30]) == 37501535);
    lemma_distinct_codes(s);
}
/// No key of the `messages` tables occurs twice.
#[verifier::rlimit(100)]
proof fn lemma_messages_keys_distinct()
    ensures
        keys_of(en_messages()).no_duplicates(),
{
    reveal_strlit("access_denied");
    reveal_strlit("created_successfully");
    reveal_strlit("deleted_successfully");
    reveal_strlit("error_occurred");
    reveal_strlit("goodbye");
    reveal_strlit("login_required");
    reveal_strlit("operation_failed");
    reveal_strlit("saved_successfully");
    reveal_strlit("session_expired");
    reveal_strlit("updated_successfully");
    reveal_strlit("welcome_back");
    let s = keys_of(en_messages());
    assert(s.len() == 11);
    assert(key_code(s[0]) == 39646819);
    assert(key_code(s[1]) == 43595363);
    assert(key_code(s[2]) == 43578979);
    assert(key_code(s[3]) == 43873891);
    assert(key_code(s[4]) == 31027939);
    assert(key_code(s[5]) == 35386094);
    assert(key_code(s[6]) == 28865247);
    assert(key_code(s[7]) == 33354463);
    assert(key_code(s[8]) == 31142629);
    assert(key_code(s[9]) == 27128293);
    assert(key_code(s[10]) == 16383204);
    lemma_distinct_codes(s);
}
/// No key of the `modules` tables occurs twice.
#[verifier::rlimit(100)]
proof fn lemma_modules_keys_distinct()
    ensures
        keys_of(en_modules()).no_duplicates(),
{
    reveal_strlit("admin");
    reveal_strlit("expenses");
    reveal_strlit("finance_accounting");
    reveal_strlit("forecasts");
    reveal_strlit("hr_management");
    reveal_strlit("inventory_management");
    reveal_strlit("manufacturing");
    reveal_strlit("purchasing");
    reveal_strlit("reports_analytics");
    reveal_strlit("sales_crm");
    let s = keys_of(en_modules());
    assert(s.len() == 10);
    assert(key_code(s[0]) == 43677549);
    assert(key_code(s[1]) == 20773235);
    assert(key_code(s[2]) == 22820705);
    assert(key_code(s[3]) == 29063011);
    assert(key_code(s[4]) == 39434083);
    assert(key_code(s[5]) == 28981089);
    assert(key_code(s[6]) == 18445038);
    assert(key_code(s[7]) == 37532129);
    assert(key_code(s[8]) == 20560483);
    assert(key_code(s[9]) == 12088557);
    lemma_distinct_codes(s);
}

/// In a table whose keys are all different, each listed key maps to the text listed with it.
proof fn lemma_listed_keys(entries: Seq<(Seq<char>, Seq<char>)>, i: int)
    requires
        keys_of(entries).no_duplicates(),
        0 <= i < entries.len(),
    ensures
        looked_up(entries, entries[i].0, entries[i].0) == entries[i].1,
{
    assert forall|m: int| i < m < entries.len() implies entries[m].0 != entries[i].0 by {
        assert(keys_of(entries)[m] == entries[m].0);
        assert(keys_of(entries)[i] == entries[i].0);
    }
    lemma_last_entry_wins(entries, i, entries[i].0);
}

/// Each of the seven categories is translated through its own table of the chosen
/// language: a key that the table lists gives its text, any other key gives itself. A
/// category that does not exist gives every key back unchanged.
pub proof fn law_translation_by_category(category: Seq<char>, key: Seq<char>, lang: Lang)
    ensures
        translation("common"@, key, lang) == looked_up(common_table(lang), key, key),
        translation("nav"@, key, lang) == looked_up(nav_table(lang), key, key),
        translation("actions"@, key, lang) == looked_up(actions_table(lang), key, key),
        translation("status"@, key, lang) == looked_up(status_table(lang), key, key),
        translation("fields"@, key, lang) == looked_up(fields_table(lang), key, key),
        translation("messages"@, key, lang) == looked_up(messages_table(lang), key, key),
        translation("modules"@, key, lang) == looked_up(modules_table(lang), key, key),
        category != "common"@ && category != "nav"@ && category != "actions"@ && category
            != "status"@ && category != "fields"@ && category != "messages"@ && category
            != "modules"@ ==> translation(category, key, lang) == key,
{
    reveal_strlit("common");
    reveal_strlit("nav");
    reveal_strlit("actions");
    reveal_strlit("status");
    reveal_strlit("fields");
    reveal_strlit("messages");
    reveal_strlit("modules");
    assert("common"@.len() == 6 && "nav"@.len() == 3 && "actions"@.len() == 7);
    assert("status"@.len() == 6 && "fields"@.len() == 6 && "messages"@.len() == 8);
    assert("modules"@.len() == 7);
    assert("status"@[0] != "common"@[0]);
    assert("fields"@[0] != "common"@[0]);
    assert("fields"@[0] != "status"@[0]);
    assert("modules"@[0] != "actions"@[0]);
}

/// Every key listed in a category's table, in either language, translates to the text
/// listed with it in that category.
pub proof fn law_listed_keys_translate(lang: Lang, i: int)
    ensures
        0 <= i < common_table(lang).len() ==> translation("common"@, common_table(lang)[i].0, lang)
            == common_table(lang)[i].1,
        0 <= i < nav_table(lang).len() ==> translation("nav"@, nav_table(lang)[i].0, lang)
            == nav_table(lang)[i].1,
        0 <= i < actions_table(lang).len() ==> translation("actions"@, actions_table(lang)[i].0, lang)
            == actions_table(lang)[i].1,
        0 <= i < status_table(lang).len() ==> translation("status"@, status_table(lang)[i].0, lang)
            == status_table(lang)[i].1,
        0 <= i < fields_table(lang).len() ==> translation("fields"@, fields_table(lang)[i].0, lang)
            == fields_table(lang)[i].1,
        0 <= i < messages_table(lang).len() ==> translation("messages"@, messages_table(lang)[i].0, lang)
            == messages_table(lang)[i].1,
        0 <= i < modules_table(lang).len() ==> translation("modules"@, modules_table(lang)[i].0, lang)
            == modules_table(lang)[i].1,
{
    law_same_keys_in_both_languages();
    law_translation_by_category(Seq::<char>::empty(), Seq::<char>::empty(), lang);
    if 0 <= i < common_table(lang).len() {
        law_translation_by_category(Seq::<char>::empty(), common_table(lang)[i].0, lang);
        lemma_listed_keys(common_table(lang), i);
    }
    if 0 <= i < nav_table(lang).len() {
        law_translation_by_category(Seq::<char>::empty(), nav_table(lang)[i].0, lang);
        lemma_listed_keys(nav_table(lang), i);
    }
    if 0 <= i < actions_table(lang).len() {
        law_translation_by_category(Seq::<char>::empty(), actions_table(lang)[i].0, lang);
        lemma_listed_keys(actions_table(lang), i);
    }
    if 0 <= i < status_table(lang).len() {
        law_translation_by_category(Seq::<char>::empty(), status_table(lang)[i].0, lang);
        lemma_listed_keys(status_table(lang), i);
    }
    if 0 <= i < fields_table(lang).len() {
        law_translation_by_category(Seq::<char>::empty(), fields_table(lang)[i].0, lang);
        lemma_listed_keys(fields_table(lang), i);
    }
    if 0 <= i < messages_table(lang).len() {
        law_translation_by_category(Seq::<char>::empty(), messages_table(lang)[i].0, lang);
        lemma_listed_keys(messages_table(lang), i);
    }
    if 0 <= i < modules_table(lang).len() {
        law_translation_by_category(Seq::<char>::empty(), modules_table(lang)[i].0, lang);
        lemma_listed_keys(modules_table(lang), i);
    }
}

} // verus!
