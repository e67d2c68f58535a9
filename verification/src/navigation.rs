//! Sidebar navigation: the module groups and their pages, which of them a user may
//! see, which entry is highlighted for the current path, and which groups are expanded.

use vstd::prelude::*;
use crate::rbac::Permissions;
use crate::text::{
    chars_of, contains_name, distinct_names, lowercase_of, name_set, names_of, str_eq, string_of, to_lowercase,
    toggle_name, toggled,
};
use crate::i18n::{get_translations, looked_up, lookup, Lang};

verus! {

/// A single item in the sidebar navigation.
#[derive(Clone, Debug)]
pub struct NavItem {
    pub label: String,
    pub icon: String,
    pub route: String,
    pub permission: String,
}

/// A collapsible module group in the sidebar.
#[derive(Clone, Debug)]
pub struct NavModule {
    pub name: String,
    pub icon: String,
    pub items: Vec<NavItem>,
    pub permission: String,
}

/// Label, icon, route and permission of an item.
pub open spec fn item_view(i: NavItem) -> (Seq<char>, Seq<char>, Seq<char>, Seq<char>) {
    (i.label@, i.icon@, i.route@, i.permission@)
}

/// The views of a sequence of items.
pub open spec fn items_view(v: Seq<NavItem>) -> Seq<(Seq<char>, Seq<char>, Seq<char>, Seq<char>)> {
    v.map_values(|i: NavItem| item_view(i))
}

/// Name, icon, permission and items of a module group.
pub open spec fn module_view(m: NavModule) -> (
    Seq<char>,
    Seq<char>,
    Seq<char>,
    Seq<(Seq<char>, Seq<char>, Seq<char>, Seq<char>)>,
) {
    (m.name@, m.icon@, m.permission@, items_view(m.items@))
}

/// The views of a sequence of module groups.
pub open spec fn modules_view(v: Seq<NavModule>) -> Seq<
    (Seq<char>, Seq<char>, Seq<char>, Seq<(Seq<char>, Seq<char>, Seq<char>, Seq<char>)>),
> {
    v.map_values(|m: NavModule| module_view(m))
}

/// An item with the given fields.
fn nav_item(label: &str, icon: &str, route: &str, permission: &str) -> (r: NavItem)
    ensures
        item_view(r) == (label@, icon@, route@, permission@),
{
    NavItem {
        label: String::from_str(label),
        icon: String::from_str(icon),
        route: String::from_str(route),
        permission: String::from_str(permission),
    }
}

/// Items of the `Dashboard` group.
pub open spec fn dashboard_items() -> Seq<(Seq<char>, Seq<char>, Seq<char>, Seq<char>)> {
    seq![
        ("Overview"@, "🏠"@, "/"@, "dashboard:read"@),
    ]
}

/// Builds the items of the `Dashboard` group.
fn build_dashboard_items() -> (v: Vec<NavItem>)
    ensures
        items_view(v@) == dashboard_items(),
{
    let mut v: Vec<NavItem> = Vec::new();
    v.push(nav_item("Overview", "🏠", "/", "dashboard:read"));
    proof {
        assert(items_view(v@) =~= dashboard_items());
    }
    v
}

/// Items of the `Inventory` group.
pub open spec fn inventory_items() -> Seq<(Seq<char>, Seq<char>, Seq<char>, Seq<char>)> {
    seq![
        ("Dashboard"@, "📊"@, "/inventory"@, "inventory:read"@),
        ("Items"@, "📦"@, "/inventory/items"@, "inventory:read"@),
        ("New Item"@, "➕"@, "/inventory/items/new"@, "inventory:create"@),
        ("Warehouses"@, "🏭"@, "/inventory/warehouses"@, "inventory:read"@),
        ("Stock Movements"@, "📋"@, "/inventory/stock-movements"@, "inventory:read"@),
        ("Stock Ledger"@, "📋"@, "/inventory/stock-ledger/demo"@, "inventory:read"@),
        ("Physical Counts"@, "🔢"@, "/inventory/physical-counts"@, "inventory:read"@),
    ]
}

/// Builds the items of the `Inventory` group.
fn build_inventory_items() -> (v: Vec<NavItem>)
    ensures
        items_view(v@) == inventory_items(),
{
    let mut v: Vec<NavItem> = Vec::new();
    v.push(nav_item("Dashboard", "📊", "/inventory", "inventory:read"));
    v.push(nav_item("Items", "📦", "/inventory/items", "inventory:read"));
    v.push(nav_item("New Item", "➕", "/inventory/items/new", "inventory:create"));
    v.push(nav_item("Warehouses", "🏭", "/inventory/warehouses", "inventory:read"));
    v.push(nav_item("Stock Movements", "📋", "/inventory/stock-movements", "inventory:read"));
    v.push(nav_item("Stock Ledger", "📋", "/inventory/stock-ledger/demo", "inventory:read"));
    v.push(nav_item("Physical Counts", "🔢", "/inventory/physical-counts", "inventory:read"));
    proof {
        assert(items_view(v@) =~= inventory_items());
    }
    v
}

/// Items of the `Sales` group.
pub open spec fn sales_items() -> Seq<(Seq<char>, Seq<char>, Seq<char>, Seq<char>)> {
    seq![
        ("Dashboard"@, "📊"@, "/sales"@, "dashboard:read"@),
        ("Invoices"@, "🧾"@, "/sales/invoices"@, "invoices:read"@),
        ("New Invoice"@, "➕"@, "/sales/invoices/new"@, "invoices:create"@),
        ("Quotations"@, "📄"@, "/sales/quotations"@, "quotations:read"@),
        ("Sales Orders"@, "📋"@, "/sales/orders"@, "sales_orders:read"@),
        ("Returns"@, "↩"@, "/sales/returns"@, "invoices:read"@),
        ("POS"@, "🏪"@, "/pos"@, "invoices:create"@),
    ]
}

/// Builds the items of the `Sales` group.
fn build_sales_items() -> (v: Vec<NavItem>)
    ensures
        items_view(v@) == sales_items(),
{
    let mut v: Vec<NavItem> = Vec::new();
    v.push(nav_item("Dashboard", "📊", "/sales", "dashboard:read"));
    v.push(nav_item("Invoices", "🧾", "/sales/invoices", "invoices:read"));
    v.push(nav_item("New Invoice", "➕", "/sales/invoices/new", "invoices:create"));
    v.push(nav_item("Quotations", "📄", "/sales/quotations", "quotations:read"));
    v.push(nav_item("Sales Orders", "📋", "/sales/orders", "sales_orders:read"));
    v.push(nav_item("Returns", "↩", "/sales/returns", "invoices:read"));
    v.push(nav_item("POS", "🏪", "/pos", "invoices:create"));
    proof {
        assert(items_view(v@) =~= sales_items());
    }
    v
}

/// Items of the `Purchasing` group.
pub open spec fn purchasing_items() -> Seq<(Seq<char>, Seq<char>, Seq<char>, Seq<char>)> {
    seq![
        ("Dashboard"@, "📊"@, "/purchases"@, "dashboard:read"@),
        ("Direct Purchases"@, "📥"@, "/purchases/direct"@, "purchase_orders:read"@),
        ("Purchase Orders"@, "📋"@, "/purchases/orders"@, "purchase_orders:read"@),
        ("Goods Receipts"@, "📦"@, "/purchases/receipts"@, "purchase_orders:read"@),
        ("Returns"@, "↩"@, "/purchases/returns"@, "purchase_orders:read"@),
    ]
}

/// Builds the items of the `Purchasing` group.
fn build_purchasing_items() -> (v: Vec<NavItem>)
    ensures
        items_view(v@) == purchasing_items(),
{
    let mut v: Vec<NavItem> = Vec::new();
    v.push(nav_item("Dashboard", "📊", "/purchases", "dashboard:read"));
    v.push(nav_item("Direct Purchases", "📥", "/purchases/direct", "purchase_orders:read"));
    v.push(nav_item("Purchase Orders", "📋", "/purchases/orders", "purchase_orders:read"));
    v.push(nav_item("Goods Receipts", "📦", "/purchases/receipts", "purchase_orders:read"));
    v.push(nav_item("Returns", "↩", "/purchases/returns", "purchase_orders:read"));
    proof {
        assert(items_view(v@) =~= purchasing_items());
    }
    v
}

/// Items of the `Manufacturing` group.
pub open spec fn manufacturing_items() -> Seq<(Seq<char>, Seq<char>, Seq<char>, Seq<char>)> {
    seq![
        ("Dashboard"@, "📊"@, "/manufacturing"@, "dashboard:read"@),
        ("BOM"@, "📋"@, "/manufacturing/boms"@, "bom:read"@),
        ("Production"@, "⚙"@, "/manufacturing/production"@, "production:read"@),
    ]
}

/// Builds the items of the `Manufacturing` group.
fn build_manufacturing_items() -> (v: Vec<NavItem>)
    ensures
        items_view(v@) == manufacturing_items(),
{
    let mut v: Vec<NavItem> = Vec::new();
    v.push(nav_item("Dashboard", "📊", "/manufacturing", "dashboard:read"));
    v.push(nav_item("BOM", "📋", "/manufacturing/boms", "bom:read"));
    v.push(nav_item("Production", "⚙", "/manufacturing/production", "production:read"));
    proof {
        assert(items_view(v@) =~= manufacturing_items());
    }
    v
}

/// Items of the `Customers` group.
pub open spec fn customers_items() -> Seq<(Seq<char>, Seq<char>, Seq<char>, Seq<char>)> {
    seq![
        ("All Customers"@, "👥"@, "/customers"@, "customers:read"@),
    ]
}

/// Builds the items of the `Customers` group.
fn build_customers_items() -> (v: Vec<NavItem>)
    ensures
        items_view(v@) == customers_items(),
{
    let mut v: Vec<NavItem> = Vec::new();
    v.push(nav_item("All Customers", "👥", "/customers", "customers:read"));
    proof {
        assert(items_view(v@) =~= customers_items());
    }
    v
}

/// Items of the `Suppliers` group.
pub open spec fn suppliers_items() -> Seq<(Seq<char>, Seq<char>, Seq<char>, Seq<char>)> {
    seq![
        ("All Suppliers"@, "🏢"@, "/suppliers"@, "suppliers:read"@),
    ]
}

/// Builds the items of the `Suppliers` group.
fn build_suppliers_items() -> (v: Vec<NavItem>)
    ensures
        items_view(v@) == suppliers_items(),
{
    let mut v: Vec<NavItem> = Vec::new();
    v.push(nav_item("All Suppliers", "🏢", "/suppliers", "suppliers:read"));
    proof {
        assert(items_view(v@) =~= suppliers_items());
    }
    v
}

/// Items of the `Employees` group.
pub open spec fn employees_items() -> Seq<(Seq<char>, Seq<char>, Seq<char>, Seq<char>)> {
    seq![
        ("All Employees"@, "👤"@, "/employees"@, "employees:read"@),
        ("New Employee"@, "➕"@, "/employees/new"@, "employees:create"@),
    ]
}

/// Builds the items of the `Employees` group.
fn build_employees_items() -> (v: Vec<NavItem>)
    ensures
        items_view(v@) == employees_items(),
{
    let mut v: Vec<NavItem> = Vec::new();
    v.push(nav_item("All Employees", "👤", "/employees", "employees:read"));
    v.push(nav_item("New Employee", "➕", "/employees/new", "employees:create"));
    proof {
        assert(items_view(v@) =~= employees_items());
    }
    v
}

/// Items of the `Expenses` group.
pub open spec fn expenses_items() -> Seq<(Seq<char>, Seq<char>, Seq<char>, Seq<char>)> {
    seq![
        ("All Expenses"@, "💰"@, "/expenses"@, "expenses:read"@),
        ("Categories"@, "📋"@, "/expenses/categories"@, "expenses:read"@),
    ]
}

/// Builds the items of the `Expenses` group.
fn build_expenses_items() -> (v: Vec<NavItem>)
    ensures
        items_view(v@) == expenses_items(),
{
    let mut v: Vec<NavItem> = Vec::new();
    v.push(nav_item("All Expenses", "💰", "/expenses", "expenses:read"));
    v.push(nav_item("Categories", "📋", "/expenses/categories", "expenses:read"));
    proof {
        assert(items_view(v@) =~= expenses_items());
    }
    v
}

/// Items of the `Accounting` group.
pub open spec fn accounting_items() -> Seq<(Seq<char>, Seq<char>, Seq<char>, Seq<char>)> {
    seq![
        ("Dashboard"@, "📊"@, "/accounting"@, "dashboard:read"@),
        ("Chart of Accounts"@, "📋"@, "/accounting/chart-of-accounts"@, "accounting:read"@),
        ("Periods"@, "📅"@, "/accounting/periods"@, "accounting:read"@),
    ]
}

/// Builds the items of the `Accounting` group.
fn build_accounting_items() -> (v: Vec<NavItem>)
    ensures
        items_view(v@) == accounting_items(),
{
    let mut v: Vec<NavItem> = Vec::new();
    v.push(nav_item("Dashboard", "📊", "/accounting", "dashboard:read"));
    v.push(nav_item("Chart of Accounts", "📋", "/accounting/chart-of-accounts", "accounting:read"));
    v.push(nav_item("Periods", "📅", "/accounting/periods", "accounting:read"));
    proof {
        assert(items_view(v@) =~= accounting_items());
    }
    v
}

/// Items of the `Reports` group.
pub open spec fn reports_items() -> Seq<(Seq<char>, Seq<char>, Seq<char>, Seq<char>)> {
    seq![
        ("Dashboard"@, "📊"@, "/reports"@, "reports:read"@),
        ("AR Aging"@, "📈"@, "/reports/ar-aging"@, "reports:read"@),
        ("Customer Statements"@, "📈"@, "/reports/customer-statements"@, "reports:read"@),
        ("Sales"@, "📈"@, "/reports/sales"@, "reports:read"@),
        ("Inventory"@, "📈"@, "/reports/inventory"@, "reports:read"@),
        ("Financial"@, "📈"@, "/reports/financial"@, "reports:read"@),
        ("Custom Reports"@, "📈"@, "/reports/custom"@, "reports:create"@),
        ("Tax Summary"@, "📈"@, "/reports/tax"@, "reports:read"@),
    ]
}

/// Builds the items of the `Reports` group.
fn build_reports_items() -> (v: Vec<NavItem>)
    ensures
        items_view(v@) == reports_items(),
{
    let mut v: Vec<NavItem> = Vec::new();
    v.push(nav_item("Dashboard", "📊", "/reports", "reports:read"));
    v.push(nav_item("AR Aging", "📈", "/reports/ar-aging", "reports:read"));
    v.push(nav_item("Customer Statements", "📈", "/reports/customer-statements", "reports:read"));
    v.push(nav_item("Sales", "📈", "/reports/sales", "reports:read"));
    v.push(nav_item("Inventory", "📈", "/reports/inventory", "reports:read"));
    v.push(nav_item("Financial", "📈", "/reports/financial", "reports:read"));
    v.push(nav_item("Custom Reports", "📈", "/reports/custom", "reports:create"));
    v.push(nav_item("Tax Summary", "📈", "/reports/tax", "reports:read"));
    proof {
        assert(items_view(v@) =~= reports_items());
    }
    v
}

/// Items of the `Forecasts` group.
pub open spec fn forecasts_items() -> Seq<(Seq<char>, Seq<char>, Seq<char>, Seq<char>)> {
    seq![
        ("Dashboard"@, "🔮"@, "/forecasts"@, "forecasts:read"@),
        ("Demand"@, "📈"@, "/forecasts/demand"@, "forecasts:read"@),
        ("Trends"@, "📈"@, "/forecasts/trends"@, "forecasts:read"@),
        ("Accuracy"@, "📊"@, "/forecasts/accuracy"@, "forecasts:read"@),
        ("Model Config"@, "⚙"@, "/forecasts/model-config"@, "forecasts:update"@),
        ("Seasonal Events"@, "📅"@, "/forecasts/seasonal-events"@, "forecasts:read"@),
    ]
}

/// Builds the items of the `Forecasts` group.
fn build_forecasts_items() -> (v: Vec<NavItem>)
    ensures
        items_view(v@) == forecasts_items(),
{
    let mut v: Vec<NavItem> = Vec::new();
    v.push(nav_item("Dashboard", "🔮", "/forecasts", "forecasts:read"));
    v.push(nav_item("Demand", "📈", "/forecasts/demand", "forecasts:read"));
    v.push(nav_item("Trends", "📈", "/forecasts/trends", "forecasts:read"));
    v.push(nav_item("Accuracy", "📊", "/forecasts/accuracy", "forecasts:read"));
    v.push(nav_item("Model Config", "⚙", "/forecasts/model-config", "forecasts:update"));
    v.push(nav_item("Seasonal Events", "📅", "/forecasts/seasonal-events", "forecasts:read"));
    proof {
        assert(items_view(v@) =~= forecasts_items());
    }
    v
}

/// Items of the `Admin` group.
pub open spec fn admin_items() -> Seq<(Seq<char>, Seq<char>, Seq<char>, Seq<char>)> {
    seq![
        ("Settings"@, "⚙"@, "/settings"@, "settings:read"@),
        ("Integrations"@, "🔗"@, "/settings/integrations"@, "settings:read"@),
        ("Users"@, "👤"@, "/users"@, "users:read"@),
        ("Roles"@, "🔐"@, "/roles"@, "roles:read"@),
        ("Activity Log"@, "📋"@, "/activity-log"@, "activity_log:read"@),
    ]
}

/// Builds the items of the `Admin` group.
fn build_admin_items() -> (v: Vec<NavItem>)
    ensures
        items_view(v@) == admin_items(),
{
    let mut v: Vec<NavItem> = Vec::new();
    v.push(nav_item("Settings", "⚙", "/settings", "settings:read"));
    v.push(nav_item("Integrations", "🔗", "/settings/integrations", "settings:read"));
    v.push(nav_item("Users", "👤", "/users", "users:read"));
    v.push(nav_item("Roles", "🔐", "/roles", "roles:read"));
    v.push(nav_item("Activity Log", "📋", "/activity-log", "activity_log:read"));
    proof {
        assert(items_view(v@) =~= admin_items());
    }
    v
}

/// All modules of the sidebar with their items, in display order.
pub open spec fn nav_table() -> Seq<
    (Seq<char>, Seq<char>, Seq<char>, Seq<(Seq<char>, Seq<char>, Seq<char>, Seq<char>)>),
> {
    seq![
        ("Dashboard"@, "📊"@, "dashboard:read"@, dashboard_items()),
        ("Inventory"@, "📦"@, "inventory:read"@, inventory_items()),
        ("Sales"@, "💰"@, "invoices:read"@, sales_items()),
        ("Purchasing"@, "📥"@, "purchase_orders:read"@, purchasing_items()),
        ("Manufacturing"@, "🏭"@, "bom:read"@, manufacturing_items()),
        ("Customers"@, "👥"@, "customers:read"@, customers_items()),
        ("Suppliers"@, "🏢"@, "suppliers:read"@, suppliers_items()),
        ("Employees"@, "👤"@, "employees:read"@, employees_items()),
        ("Expenses"@, "💰"@, "expenses:read"@, expenses_items()),
        ("Accounting"@, "📊"@, "accounting:read"@, accounting_items()),
        ("Reports"@, "📈"@, "reports:read"@, reports_items()),
        ("Forecasts"@, "🔮"@, "forecasts:read"@, forecasts_items()),
        ("Admin"@, "⚙"@, "settings:read"@, admin_items()),
    ]
}

/// All modules and their items for the sidebar.
pub fn nav_modules() -> (r: Vec<NavModule>)
    ensures
        modules_view(r@) == nav_table(),
{
    let mut v: Vec<NavModule> = Vec::new();
    v.push(NavModule {
        name: String::from_str("Dashboard"),
        icon: String::from_str("📊"),
        items: build_dashboard_items(),
        permission: String::from_str("dashboard:read"),
    });
    v.push(NavModule {
        name: String::from_str("Inventory"),
        icon: String::from_str("📦"),
        items: build_inventory_items(),
        permission: String::from_str("inventory:read"),
    });
    v.push(NavModule {
        name: String::from_str("Sales"),
        icon: String::from_str("💰"),
        items: build_sales_items(),
        permission: String::from_str("invoices:read"),
    });
    v.push(NavModule {
        name: String::from_str("Purchasing"),
        icon: String::from_str("📥"),
        items: build_purchasing_items(),
        permission: String::from_str("purchase_orders:read"),
    });
    v.push(NavModule {
        name: String::from_str("Manufacturing"),
        icon: String::from_str("🏭"),
        items: build_manufacturing_items(),
        permission: String::from_str("bom:read"),
    });
    v.push(NavModule {
        name: String::from_str("Customers"),
        icon: String::from_str("👥"),
        items: build_customers_items(),
        permission: String::from_str("customers:read"),
    });
    v.push(NavModule {
        name: String::from_str("Suppliers"),
        icon: String::from_str("🏢"),
        items: build_suppliers_items(),
        permission: String::from_str("suppliers:read"),
    });
    v.push(NavModule {
        name: String::from_str("Employees"),
        icon: String::from_str("👤"),
        items: build_employees_items(),
        permission: String::from_str("employees:read"),
    });
    v.push(NavModule {
        name: String::from_str("Expenses"),
        icon: String::from_str("💰"),
        items: build_expenses_items(),
        permission: String::from_str("expenses:read"),
    });
    v.push(NavModule {
        name: String::from_str("Accounting"),
        icon: String::from_str("📊"),
        items: build_accounting_items(),
        permission: String::from_str("accounting:read"),
    });
    v.push(NavModule {
        name: String::from_str("Reports"),
        icon: String::from_str("📈"),
        items: build_reports_items(),
        permission: String::from_str("reports:read"),
    });
    v.push(NavModule {
        name: String::from_str("Forecasts"),
        icon: String::from_str("🔮"),
        items: build_forecasts_items(),
        permission: String::from_str("forecasts:read"),
    });
    v.push(NavModule {
        name: String::from_str("Admin"),
        icon: String::from_str("⚙"),
        items: build_admin_items(),
        permission: String::from_str("settings:read"),
    });
    proof {
        assert(modules_view(v@) =~= nav_table());
    }
    v
}

/// The view of an item: label, icon, route and permission.
pub type ItemView = (Seq<char>, Seq<char>, Seq<char>, Seq<char>);

/// The items whose permission is granted, in order.
pub open spec fn visible_items(items: Seq<ItemView>, granted: Seq<Seq<char>>) -> Seq<ItemView>
    decreases items.len(),
{
    if items.len() == 0 {
        Seq::empty()
    } else {
        let rest = visible_items(items.drop_last(), granted);
        if granted.contains(items.last().3) {
            rest.push(items.last())
        } else {
            rest
        }
    }
}

/// The module groups whose permission is granted, in order, each with only its
/// granted items.
pub open spec fn visible_table(
    modules: Seq<(Seq<char>, Seq<char>, Seq<char>, Seq<ItemView>)>,
    granted: Seq<Seq<char>>,
) -> Seq<(Seq<char>, Seq<char>, Seq<char>, Seq<ItemView>)>
    decreases modules.len(),
{
    if modules.len() == 0 {
        Seq::empty()
    } else {
        let rest = visible_table(modules.drop_last(), granted);
        let m = modules.last();
        if granted.contains(m.2) {
            rest.push((m.0, m.1, m.2, visible_items(m.3, granted)))
        } else {
            rest
        }
    }
}

/// A copy of an item.
fn copy_item(item: &NavItem) -> (r: NavItem)
    ensures
        r == *item,
{
    NavItem {
        label: item.label.clone(),
        icon: item.icon.clone(),
        route: item.route.clone(),
        permission: item.permission.clone(),
    }
}

/// The items of a module group that `perms` grants.
fn visible_items_of(items: &Vec<NavItem>, perms: &Permissions) -> (r: Vec<NavItem>)
    ensures
        items_view(r@) == visible_items(items_view(items@), perms.granted()),
{
    let mut r: Vec<NavItem> = Vec::new();
    let mut i: usize = 0;
    proof {
        assert(items_view(items@).take(0) =~= Seq::<ItemView>::empty());
        assert(items_view(r@) =~= Seq::<ItemView>::empty());
    }
    while i < items.len()
        invariant
            i <= items.len(),
            items_view(r@) == visible_items(items_view(items@).take(i as int), perms.granted()),
        decreases items.len() - i,
    {
        let item = copy_item(&items[i]);
        let keep = perms.has(item.permission.as_str());
        let ghost before = r@;
        if keep {
            r.push(item);
            proof {
                assert(items_view(r@) =~= items_view(before).push(item_view(item)));
            }
        }
        proof {
            let t = items_view(items@).take(i + 1);
            assert(t.drop_last() =~= items_view(items@).take(i as int));
            assert(t.last() == item_view(items@[i as int]));
        }
        i = i + 1;
    }
    proof {
        assert(items_view(items@).take(items.len() as int) =~= items_view(items@));
    }
    r
}

/// The module groups that `perms` grants, each with only its granted items, in order.
pub fn visible_modules(modules: &Vec<NavModule>, perms: &Permissions) -> (r: Vec<NavModule>)
    ensures
        modules_view(r@) == visible_table(modules_view(modules@), perms.granted()),
{
    let mut r: Vec<NavModule> = Vec::new();
    let mut i: usize = 0;
    proof {
        assert(modules_view(modules@).take(0) =~= Seq::empty());
        assert(modules_view(r@) =~= Seq::empty());
    }
    while i < modules.len()
        invariant
            i <= modules.len(),
            modules_view(r@) == visible_table(modules_view(modules@).take(i as int), perms.granted()),
        decreases modules.len() - i,
    {
        let m = &modules[i];
        let ghost before = r@;
        if perms.has(m.permission.as_str()) {
            let items = visible_items_of(&m.items, perms);
            let kept = NavModule {
                name: m.name.clone(),
                icon: m.icon.clone(),
                items,
                permission: m.permission.clone(),
            };
            r.push(kept);
            proof {
                assert(modules_view(r@) =~= modules_view(before).push(module_view(kept)));
            }
        }
        proof {
            let t = modules_view(modules@).take(i + 1);
            assert(t.drop_last() =~= modules_view(modules@).take(i as int));
            assert(t.last() == module_view(modules@[i as int]));
        }
        i = i + 1;
    }
    proof {
        assert(modules_view(modules@).take(modules.len() as int) =~= modules_view(modules@));
    }
    r
}


/// When every item's permission is granted, every item is visible.
pub proof fn lemma_all_items_visible(items: Seq<ItemView>, granted: Seq<Seq<char>>)
    requires
        forall|j: int| 0 <= j < items.len() ==> granted.contains(#[trigger] items[j].3),
    ensures
        visible_items(items, granted) == items,
    decreases items.len(),
{
    if items.len() > 0 {
        let rest = items.drop_last();
        assert forall|j: int| 0 <= j < rest.len() implies granted.contains(#[trigger] rest[j].3) by {
            assert(rest[j] == items[j]);
        }
        lemma_all_items_visible(rest, granted);
        assert(items.last() == items[items.len() - 1]);
        assert(rest.push(items.last()) =~= items);
    }
}

/// When every group's permission and every item's permission is granted, the whole
/// table is visible.
pub proof fn lemma_all_modules_visible(
    modules: Seq<(Seq<char>, Seq<char>, Seq<char>, Seq<ItemView>)>,
    granted: Seq<Seq<char>>,
)
    requires
        forall|k: int| 0 <= k < modules.len() ==> granted.contains(#[trigger] modules[k].2),
        forall|k: int|
            0 <= k < modules.len() ==> visible_items(#[trigger] modules[k].3, granted)
                == modules[k].3,
    ensures
        visible_table(modules, granted) == modules,
    decreases modules.len(),
{
    if modules.len() > 0 {
        let rest = modules.drop_last();
        assert forall|k: int| 0 <= k < rest.len() implies granted.contains(#[trigger] rest[k].2) by {
            assert(rest[k] == modules[k]);
        }
        assert forall|k: int| 0 <= k < rest.len() implies visible_items(#[trigger] rest[k].3, granted)
            == rest[k].3 by {
            assert(rest[k] == modules[k]);
        }
        lemma_all_modules_visible(rest, granted);
        let m = modules.last();
        assert(m == modules[modules.len() - 1]);
        assert((m.0, m.1, m.2, m.3) == m);
        assert(rest.push(m) =~= modules);
    }
}

/// Every item of the `Dashboard` group is visible to an administrator.
proof fn lemma_admin_sees_dashboard_items()
    ensures
        visible_items(dashboard_items(), crate::rbac::admin_permissions()) == dashboard_items(),
{
    assert forall|k: int| 0 <= k < dashboard_items().len() implies crate::rbac::admin_permissions().contains(
        #[trigger] dashboard_items()[k].3,
    ) by {
            if k == 0 {
                assert(crate::rbac::admin_permissions()[63] == dashboard_items()[0].3);
            }
    }
    lemma_all_items_visible(dashboard_items(), crate::rbac::admin_permissions());
}

/// Every item of the `Inventory` group is visible to an administrator.
proof fn lemma_admin_sees_inventory_items()
    ensures
        visible_items(inventory_items(), crate::rbac::admin_permissions()) == inventory_items(),
{
    assert forall|k: int| 0 <= k < inventory_items().len() implies crate::rbac::admin_permissions().contains(
        #[trigger] inventory_items()[k].3,
    ) by {
            if k == 0 {
                assert(crate::rbac::admin_permissions()[0] == inventory_items()[0].3);
            } else if k == 1 {
                assert(crate::rbac::admin_permissions()[0] == inventory_items()[1].3);
            } else if k == 2 {
                assert(crate::rbac::admin_permissions()[1] == inventory_items()[2].3);
            } else if k == 3 {
                assert(crate::rbac::admin_permissions()[0] == inventory_items()[3].3);
            } else if k == 4 {
                assert(crate::rbac::admin_permissions()[0] == inventory_items()[4].3);
            } else if k == 5 {
                assert(crate::rbac::admin_permissions()[0] == inventory_items()[5].3);
            } else if k == 6 {
                assert(crate::rbac::admin_permissions()[0] == inventory_items()[6].3);
            }
    }
    lemma_all_items_visible(inventory_items(), crate::rbac::admin_permissions());
}

/// Every item of the `Sales` group is visible to an administrator.
proof fn lemma_admin_sees_sales_items()
    ensures
        visible_items(sales_items(), crate::rbac::admin_permissions()) == sales_items(),
{
    assert forall|k: int| 0 <= k < sales_items().len() implies crate::rbac::admin_permissions().contains(
        #[trigger] sales_items()[k].3,
    ) by {
            if k == 0 {
                assert(crate::rbac::admin_permissions()[63] == sales_items()[0].3);
            } else if k == 1 {
                assert(crate::rbac::admin_permissions()[12] == sales_items()[1].3);
            } else if k == 2 {
                assert(crate::rbac::admin_permissions()[13] == sales_items()[2].3);
            } else if k == 3 {
                assert(crate::rbac::admin_permissions()[16] == sales_items()[3].3);
            } else if k == 4 {
                assert(crate::rbac::admin_permissions()[20] == sales_items()[4].3);
            } else if k == 5 {
                assert(crate::rbac::admin_permissions()[12] == sales_items()[5].3);
            } else if k == 6 {
                assert(crate::rbac::admin_permissions()[13] == sales_items()[6].3);
            }
    }
    lemma_all_items_visible(sales_items(), crate::rbac::admin_permissions());
}

/// Every item of the `Purchasing` group is visible to an administrator.
proof fn lemma_admin_sees_purchasing_items()
    ensures
        visible_items(purchasing_items(), crate::rbac::admin_permissions()) == purchasing_items(),
{
    assert forall|k: int| 0 <= k < purchasing_items().len() implies crate::rbac::admin_permissions().contains(
        #[trigger] purchasing_items()[k].3,
    ) by {
            if k == 0 {
                assert(crate::rbac::admin_permissions()[63] == purchasing_items()[0].3);
            } else if k == 1 {
                assert(crate::rbac::admin_permissions()[24] == purchasing_items()[1].3);
            } else if k == 2 {
                assert(crate::rbac::admin_permissions()[24] == purchasing_items()[2].3);
            } else if k == 3 {
                assert(crate::rbac::admin_permissions()[24] == purchasing_items()[3].3);
            } else if k == 4 {
                assert(crate::rbac::admin_permissions()[24] == purchasing_items()[4].3);
            }
    }
    lemma_all_items_visible(purchasing_items(), crate::rbac::admin_permissions());
}

/// Every item of the `Manufacturing` group is visible to an administrator.
proof fn lemma_admin_sees_manufacturing_items()
    ensures
        visible_items(manufacturing_items(), crate::rbac::admin_permissions()) == manufacturing_items(),
{
    assert forall|k: int| 0 <= k < manufacturing_items().len() implies crate::rbac::admin_permissions().contains(
        #[trigger] manufacturing_items()[k].3,
    ) by {
            if k == 0 {
                assert(crate::rbac::admin_permissions()[63] == manufacturing_items()[0].3);
            } else if k == 1 {
                assert(crate::rbac::admin_permissions()[28] == manufacturing_items()[1].3);
            } else if k == 2 {
                assert(crate::rbac::admin_permissions()[32] == manufacturing_items()[2].3);
            }
    }
    lemma_all_items_visible(manufacturing_items(), crate::rbac::admin_permissions());
}

/// Every item of the `Customers` group is visible to an administrator.
proof fn lemma_admin_sees_customers_items()
    ensures
        visible_items(customers_items(), crate::rbac::admin_permissions()) == customers_items(),
{
    assert forall|k: int| 0 <= k < customers_items().len() implies crate::rbac::admin_permissions().contains(
        #[trigger] customers_items()[k].3,
    ) by {
            if k == 0 {
                assert(crate::rbac::admin_permissions()[4] == customers_items()[0].3);
            }
    }
    lemma_all_items_visible(customers_items(), crate::rbac::admin_permissions());
}

/// Every item of the `Suppliers` group is visible to an administrator.
proof fn lemma_admin_sees_suppliers_items()
    ensures
        visible_items(suppliers_items(), crate::rbac::admin_permissions()) == suppliers_items(),
{
    assert forall|k: int| 0 <= k < suppliers_items().len() implies crate::rbac::admin_permissions().contains(
        #[trigger] suppliers_items()[k].3,
    ) by {
            if k == 0 {
                assert(crate::rbac::admin_permissions()[8] == suppliers_items()[0].3);
            }
    }
    lemma_all_items_visible(suppliers_items(), crate::rbac::admin_permissions());
}

/// Every item of the `Employees` group is visible to an administrator.
proof fn lemma_admin_sees_employees_items()
    ensures
        visible_items(employees_items(), crate::rbac::admin_permissions()) == employees_items(),
{
    assert forall|k: int| 0 <= k < employees_items().len() implies crate::rbac::admin_permissions().contains(
        #[trigger] employees_items()[k].3,
    ) by {
            if k == 0 {
                assert(crate::rbac::admin_permissions()[36] == employees_items()[0].3);
            } else if k == 1 {
                assert(crate::rbac::admin_permissions()[37] == employees_items()[1].3);
            }
    }
    lemma_all_items_visible(employees_items(), crate::rbac::admin_permissions());
}

/// Every item of the `Expenses` group is visible to an administrator.
proof fn lemma_admin_sees_expenses_items()
    ensures
        visible_items(expenses_items(), crate::rbac::admin_permissions()) == expenses_items(),
{
    assert forall|k: int| 0 <= k < expenses_items().len() implies crate::rbac::admin_permissions().contains(
        #[trigger] expenses_items()[k].3,
    ) by {
            if k == 0 {
                assert(crate::rbac::admin_permissions()[40] == expenses_items()[0].3);
            } else if k == 1 {
                assert(crate::rbac::admin_permissions()[40] == expenses_items()[1].3);
            }
    }
    lemma_all_items_visible(expenses_items(), crate::rbac::admin_permissions());
}

/// Every item of the `Accounting` group is visible to an administrator.
proof fn lemma_admin_sees_accounting_items()
    ensures
        visible_items(accounting_items(), crate::rbac::admin_permissions()) == accounting_items(),
{
    assert forall|k: int| 0 <= k < accounting_items().len() implies crate::rbac::admin_permissions().contains(
        #[trigger] accounting_items()[k].3,
    ) by {
            if k == 0 {
                assert(crate::rbac::admin_permissions()[63] == accounting_items()[0].3);
            } else if k == 1 {
                assert(crate::rbac::admin_permissions()[44] == accounting_items()[1].3);
            } else if k == 2 {
                assert(crate::rbac::admin_permissions()[44] == accounting_items()[2].3);
            }
    }
    lemma_all_items_visible(accounting_items(), crate::rbac::admin_permissions());
}

/// Every item of the `Reports` group is visible to an administrator.
proof fn lemma_admin_sees_reports_items()
    ensures
        visible_items(reports_items(), crate::rbac::admin_permissions()) == reports_items(),
{
    assert forall|k: int| 0 <= k < reports_items().len() implies crate::rbac::admin_permissions().contains(
        #[trigger] reports_items()[k].3,
    ) by {
            if k == 0 {
                assert(crate::rbac::admin_permissions()[48] == reports_items()[0].3);
            } else if k == 1 {
                assert(crate::rbac::admin_permissions()[48] == reports_items()[1].3);
            } else if k == 2 {
                assert(crate::rbac::admin_permissions()[48] == reports_items()[2].3);
            } else if k == 3 {
                assert(crate::rbac::admin_permissions()[48] == reports_items()[3].3);
            } else if k == 4 {
                assert(crate::rbac::admin_permissions()[48] == reports_items()[4].3);
            } else if k == 5 {
                assert(crate::rbac::admin_permissions()[48] == reports_items()[5].3);
            } else if k == 6 {
                assert(crate::rbac::admin_permissions()[49] == reports_items()[6].3);
            } else if k == 7 {
                assert(crate::rbac::admin_permissions()[48] == reports_items()[7].3);
            }
    }
    lemma_all_items_visible(reports_items(), crate::rbac::admin_permissions());
}

/// Every item of the `Forecasts` group is visible to an administrator.
proof fn lemma_admin_sees_forecasts_items()
    ensures
        visible_items(forecasts_items(), crate::rbac::admin_permissions()) == forecasts_items(),
{
    assert forall|k: int| 0 <= k < forecasts_items().len() implies crate::rbac::admin_permissions().contains(
        #[trigger] forecasts_items()[k].3,
    ) by {
            if k == 0 {
                assert(crate::rbac::admin_permissions()[50] == forecasts_items()[0].3);
            } else if k == 1 {
                assert(crate::rbac::admin_permissions()[50] == forecasts_items()[1].3);
            } else if k == 2 {
                assert(crate::rbac::admin_permissions()[50] == forecasts_items()[2].3);
            } else if k == 3 {
                assert(crate::rbac::admin_permissions()[50] == forecasts_items()[3].3);
            } else if k == 4 {
                assert(crate::rbac::admin_permissions()[52] == forecasts_items()[4].3);
            } else if k == 5 {
                assert(crate::rbac::admin_permissions()[50] == forecasts_items()[5].3);
            }
    }
    lemma_all_items_visible(forecasts_items(), crate::rbac::admin_permissions());
}

/// Every item of the `Admin` group is visible to an administrator.
proof fn lemma_admin_sees_admin_items()
    ensures
        visible_items(admin_items(), crate::rbac::admin_permissions()) == admin_items(),
{
    assert forall|k: int| 0 <= k < admin_items().len() implies crate::rbac::admin_permissions().contains(
        #[trigger] admin_items()[k].3,
    ) by {
            if k == 0 {
                assert(crate::rbac::admin_permissions()[53] == admin_items()[0].3);
            } else if k == 1 {
                assert(crate::rbac::admin_permissions()[53] == admin_items()[1].3);
            } else if k == 2 {
                assert(crate::rbac::admin_permissions()[55] == admin_items()[2].3);
            } else if k == 3 {
                assert(crate::rbac::admin_permissions()[59] == admin_items()[3].3);
            } else if k == 4 {
                assert(crate::rbac::admin_permissions()[64] == admin_items()[4].3);
            }
    }
    lemma_all_items_visible(admin_items(), crate::rbac::admin_permissions());
}

/// An administrator sees every module group and every item of the sidebar.
pub proof fn law_admin_sees_everything()
    ensures
        visible_table(nav_table(), crate::rbac::admin_permissions()) == nav_table(),
{
    lemma_admin_sees_dashboard_items();
    lemma_admin_sees_inventory_items();
    lemma_admin_sees_sales_items();
    lemma_admin_sees_purchasing_items();
    lemma_admin_sees_manufacturing_items();
    lemma_admin_sees_customers_items();
    lemma_admin_sees_suppliers_items();
    lemma_admin_sees_employees_items();
    lemma_admin_sees_expenses_items();
    lemma_admin_sees_accounting_items();
    lemma_admin_sees_reports_items();
    lemma_admin_sees_forecasts_items();
    lemma_admin_sees_admin_items();
    assert forall|k: int| 0 <= k < nav_table().len() implies crate::rbac::admin_permissions().contains(
        #[trigger] nav_table()[k].2,
    ) by {
        if k == 0 {
            assert(crate::rbac::admin_permissions()[63] == nav_table()[0].2);
        } else if k == 1 {
            assert(crate::rbac::admin_permissions()[0] == nav_table()[1].2);
        } else if k == 2 {
            assert(crate::rbac::admin_permissions()[12] == nav_table()[2].2);
        } else if k == 3 {
            assert(crate::rbac::admin_permissions()[24] == nav_table()[3].2);
        } else if k == 4 {
            assert(crate::rbac::admin_permissions()[28] == nav_table()[4].2);
        } else if k == 5 {
            assert(crate::rbac::admin_permissions()[4] == nav_table()[5].2);
        } else if k == 6 {
            assert(crate::rbac::admin_permissions()[8] == nav_table()[6].2);
        } else if k == 7 {
            assert(crate::rbac::admin_permissions()[36] == nav_table()[7].2);
        } else if k == 8 {
            assert(crate::rbac::admin_permissions()[40] == nav_table()[8].2);
        } else if k == 9 {
            assert(crate::rbac::admin_permissions()[44] == nav_table()[9].2);
        } else if k == 10 {
            assert(crate::rbac::admin_permissions()[48] == nav_table()[10].2);
        } else if k == 11 {
            assert(crate::rbac::admin_permissions()[50] == nav_table()[11].2);
        } else if k == 12 {
            assert(crate::rbac::admin_permissions()[53] == nav_table()[12].2);
        }
    }
    lemma_all_modules_visible(nav_table(), crate::rbac::admin_permissions());
}


/// The entry for `route` is highlighted at `current`: the paths are equal, or the route
/// is longer than one byte and `current` continues it with `/` (a detail page below it).
pub open spec fn route_active(current: Seq<char>, route: Seq<char>) -> bool {
    ||| current == route
    ||| {
        &&& vstd::utf8::encode_utf8(route).len() > 1
        &&& route.len() < current.len()
        &&& current.take(route.len() as int) == route
        &&& current[route.len() as int] == '/'
    }
}

/// Whether the sidebar entry for `route` is highlighted at the path `current_path`.
pub fn is_route_active(current_path: &str, route: &str) -> (r: bool)
    ensures
        r == route_active(current_path@, route@),
{
    if str_eq(current_path, route) {
        return true;
    }
    if route.as_bytes().len() <= 1 {
        return false;
    }
    let cur = chars_of(current_path);
    let rt = chars_of(route);
    if rt.len() >= cur.len() {
        return false;
    }
    let mut i: usize = 0;
    while i < rt.len()
        invariant
            cur@ == current_path@,
            rt@ == route@,
            rt.len() < cur.len(),
            i <= rt.len(),
            cur@.take(i as int) == rt@.take(i as int),
        decreases rt.len() - i,
    {
        if cur[i] != rt[i] {
            proof {
                assert(cur@.take(rt.len() as int)[i as int] == cur@[i as int]);
            }
            return false;
        }
        i = i + 1;
        proof {
            assert(cur@.take(i as int) =~= cur@.take(i - 1).push(cur@[i - 1]));
            assert(rt@.take(i as int) =~= rt@.take(i - 1).push(rt@[i - 1]));
        }
    }
    proof {
        assert(rt@.take(rt.len() as int) =~= rt@);
    }
    cur[rt.len()] == '/'
}

/// The CSS class of a sidebar entry: `sidebar-item active` when its route is
/// highlighted at `current_path`, `sidebar-item` otherwise.
pub fn nav_item_class(current_path: &str, route: &str) -> (r: &'static str)
    ensures
        route_active(current_path@, route@) ==> r@ == "sidebar-item active"@,
        !route_active(current_path@, route@) ==> r@ == "sidebar-item"@,
{
    if is_route_active(current_path, route) {
        "sidebar-item active"
    } else {
        "sidebar-item"
    }
}

/// The groups expanded when the sidebar first shows: `Dashboard` and `Sales`.
pub fn default_expanded() -> (r: Vec<String>)
    ensures
        names_of(r@) == seq!["Dashboard"@, "Sales"@],
{
    let mut r: Vec<String> = Vec::new();
    r.push(String::from_str("Dashboard"));
    r.push(String::from_str("Sales"));
    proof {
        assert(names_of(r@) =~= seq!["Dashboard"@, "Sales"@]);
    }
    r
}

/// Expands the group `name` when it is collapsed, and collapses it when it is expanded.
pub fn toggle_expanded(expanded: &mut Vec<String>, name: &str)
    requires
        distinct_names(old(expanded)@),
    ensures
        distinct_names(final(expanded)@),
        name_set(final(expanded)@) == toggled(name_set(old(expanded)@), name@),
{
    toggle_name(expanded, name);
}

/// `s` with every space made an underscore.
pub open spec fn underscored(s: Seq<char>) -> Seq<char> {
    s.map_values(|c: char| if c == ' ' { '_' } else { c })
}

/// The label shown for the sidebar name `name` whose lowercase form is `lowered`: the
/// `nav` text of `lowered` with its spaces made underscores, or `name` itself.
pub fn nav_label_from_lowered(lowered: &str, name: &str, lang: Lang) -> (r: String)
    ensures
        r@ == looked_up(crate::i18n::nav_table(lang), underscored(lowered@), name@),
{
    let chars = chars_of(lowered);
    let mut key_chars: Vec<char> = Vec::new();
    let mut i: usize = 0;
    while i < chars.len()
        invariant
            chars@ == lowered@,
            i <= chars.len(),
            key_chars@ == underscored(lowered@.take(i as int)),
        decreases chars.len() - i,
    {
        let c = chars[i];
        if c == ' ' {
            key_chars.push('_');
        } else {
            key_chars.push(c);
        }
        i = i + 1;
        proof {
            assert(lowered@.take(i as int) =~= lowered@.take(i - 1).push(c));
            assert(key_chars@ =~= underscored(lowered@.take(i as int)));
        }
    }
    proof {
        assert(lowered@.take(chars.len() as int) =~= lowered@);
    }
    let key = string_of(&key_chars);
    let translations = get_translations(lang);
    match lookup(&translations.nav, key.as_str()) {
        Some(text) => String::from_str(text),
        None => String::from_str(name),
    }
}

/// The label shown for the sidebar name `name` in `lang`: the `nav` text of its lowercase
/// form with spaces made underscores, or `name` itself where there is none.
pub fn nav_label(name: &str, lang: Lang) -> (r: String)
    ensures
        r@ == looked_up(crate::i18n::nav_table(lang), underscored(lowercase_of(name@)), name@),
{
    let lowered = to_lowercase(name);
    nav_label_from_lowered(lowered.as_str(), name, lang)
}

/// Every item kept has its permission granted.
proof fn lemma_visible_items_granted(items: Seq<ItemView>, granted: Seq<Seq<char>>)
    ensures
        forall|j: int| 0 <= j < visible_items(items, granted).len() ==> granted.contains(
            #[trigger] visible_items(items, granted)[j].3,
        ),
    decreases items.len(),
{
    if items.len() > 0 {
        lemma_visible_items_granted(items.drop_last(), granted);
        let r = visible_items(items.drop_last(), granted);
        let v = visible_items(items, granted);
        assert forall|j: int| 0 <= j < v.len() implies granted.contains(#[trigger] v[j].3) by {
            if j < r.len() {
                assert(v[j] == r[j]);
            } else {
                assert(v[j] == items.last());
            }
        }
    }
}

/// A user sees a group only when its permission is granted, and inside it only the pages
/// whose permission is granted.
pub proof fn law_visible_only_granted(
    modules: Seq<(Seq<char>, Seq<char>, Seq<char>, Seq<ItemView>)>,
    granted: Seq<Seq<char>>,
)
    ensures
        forall|k: int| 0 <= k < visible_table(modules, granted).len() ==> granted.contains(
            (#[trigger] visible_table(modules, granted)[k]).2,
        ),
        forall|k: int, j: int|
            0 <= k < visible_table(modules, granted).len() && 0 <= j < visible_table(modules, granted)[k].3.len()
                ==> granted.contains((#[trigger] visible_table(modules, granted)[k].3[j]).3),
    decreases modules.len(),
{
    if modules.len() > 0 {
        let rest = modules.drop_last();
        law_visible_only_granted(rest, granted);
        let m = modules.last();
        lemma_visible_items_granted(m.3, granted);
        let t = visible_table(modules, granted);
        let r = visible_table(rest, granted);
        if granted.contains(m.2) {
            assert forall|k: int, j: int| 0 <= k < t.len() && 0 <= j < t[k].3.len() implies granted.contains(
                (#[trigger] t[k].3[j]).3,
            ) by {
                if k < r.len() {
                    assert(t[k] == r[k]);
                } else {
                    assert(t[k].3 == visible_items(m.3, granted));
                }
            }
        }
    }
}

/// A user whose role grants nothing sees no group.
pub proof fn law_nothing_granted_nothing_seen(modules: Seq<(Seq<char>, Seq<char>, Seq<char>, Seq<ItemView>)>)
    ensures
        visible_table(modules, Seq::empty()).len() == 0,
    decreases modules.len(),
{
    if modules.len() > 0 {
        law_nothing_granted_nothing_seen(modules.drop_last());
    }
}

/// Whether the group `name` is expanded.
pub fn is_expanded(expanded: &Vec<String>, name: &str) -> (r: bool)
    ensures
        r == name_set(expanded@).contains(name@),
{
    contains_name(expanded, name)
}

/// The classes of a group's chevron and of its list of pages, by whether it is expanded.
pub fn module_classes(expanded: bool) -> (r: (&'static str, &'static str))
    ensures
        expanded ==> r.0@ == "sidebar-module-chevron expanded"@ && r.1@ == "sidebar-module-items open"@,
        !expanded ==> r.0@ == "sidebar-module-chevron"@ && r.1@ == "sidebar-module-items"@,
{
    if expanded {
        ("sidebar-module-chevron expanded", "sidebar-module-items open")
    } else {
        ("sidebar-module-chevron", "sidebar-module-items")
    }
}

/// A sidebar entry is highlighted on its own page, and, when its route is longer than one
/// byte, on every page below it (`route/...`); a one-byte route such as `/` is highlighted
/// on itself only; on any other page, a shorter one among them, it is not highlighted.
pub proof fn law_route_highlight(current: Seq<char>, route: Seq<char>, below: Seq<char>)
    ensures
        route_active(route, route),
        vstd::utf8::encode_utf8(route).len() > 1 ==> route_active(route + seq!['/'] + below, route),
        vstd::utf8::encode_utf8(route).len() <= 1 ==> (route_active(current, route) == (current == route)),
        current != route && !(route.len() < current.len() && current.take(route.len() as int) == route
            && current[route.len() as int] == '/') ==> !route_active(current, route),
        current.len() <= route.len() && current != route ==> !route_active(current, route),
{
    let c = route + seq!['/'] + below;
    assert(c.take(route.len() as int) =~= route);
    assert(c[route.len() as int] == '/');
}

/// Making spaces underscores keeps the length and every other character, and leaves no
/// space behind.
pub proof fn law_underscored(s: Seq<char>)
    ensures
        underscored(s).len() == s.len(),
        forall|i: int| 0 <= i < s.len() && s[i] == ' ' ==> #[trigger] underscored(s)[i] == '_',
        forall|i: int| 0 <= i < s.len() && s[i] != ' ' ==> #[trigger] underscored(s)[i] == s[i],
        forall|i: int| 0 <= i < s.len() ==> #[trigger] underscored(s)[i] != ' ',
{
}

} // verus!
