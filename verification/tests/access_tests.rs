use mini_erp::i18n::Lang;
use mini_erp::navigation::{
    default_expanded, is_expanded, is_route_active, module_classes, nav_item_class, nav_label,
    nav_label_from_lowered, nav_modules, toggle_expanded, visible_modules,
};
use mini_erp::rbac::{Permissions, RbacContext};

#[test]
fn admin_viewer_and_unknown_roles() {
    let admin = Permissions::new("admin");
    assert_eq!(admin.role, "admin");
    assert!(admin.has("users:delete"));
    assert!(admin.has("inventory:read"));
    let viewer = Permissions::new("viewer");
    assert!(viewer.has("inventory:read"));
    assert!(!viewer.has("inventory:create"));
    assert_eq!(viewer.permissions.len(), 16);
    let nobody = Permissions::new("guest");
    assert!(nobody.permissions.is_empty());
    assert!(!nobody.has("dashboard:read"));
}

#[test]
fn has_any_and_has_all() {
    let viewer = Permissions::new("viewer");
    assert!(viewer.has_any(&["inventory:create", "inventory:read"]));
    assert!(!viewer.has_any(&["inventory:create", "users:delete"]));
    assert!(!viewer.has_any(&[]));
    assert!(viewer.has_all(&["inventory:read", "dashboard:read"]));
    assert!(!viewer.has_all(&["inventory:read", "inventory:create"]));
    assert!(viewer.has_all(&[]));
}

#[test]
fn every_viewer_permission_is_a_manager_and_admin_permission() {
    let viewer = Permissions::new("viewer");
    let manager = Permissions::new("manager");
    let admin = Permissions::new("admin");
    for p in &viewer.permissions {
        assert!(manager.has(p));
    }
    for p in &manager.permissions {
        assert!(admin.has(p));
    }
}

#[test]
fn changing_role_replaces_permissions() {
    let mut ctx = RbacContext::new("admin");
    assert!(ctx.has("users:delete"));
    ctx.set_role("viewer");
    assert_eq!(ctx.permissions.role, "viewer");
    assert!(!ctx.has("users:delete"));
    assert!(ctx.has("reports:read"));
}

#[test]
fn sidebar_groups() {
    let modules = nav_modules();
    assert_eq!(modules.len(), 13);
    assert_eq!(modules[0].name, "Dashboard");
    assert_eq!(modules[0].items[0].route, "/");
    assert_eq!(modules[1].items[1].label, "Items");
}

#[test]
fn admin_sees_every_group_and_guest_sees_none() {
    let modules = nav_modules();
    let admin = visible_modules(&modules, &Permissions::new("admin"));
    assert_eq!(admin.len(), modules.len());
    for (a, m) in admin.iter().zip(modules.iter()) {
        assert_eq!(a.items.len(), m.items.len());
    }
    let guest = visible_modules(&modules, &Permissions::new("guest"));
    assert!(guest.is_empty());
}

#[test]
fn viewer_sees_only_readable_entries() {
    let modules = nav_modules();
    let viewer = Permissions::new("viewer");
    let seen = visible_modules(&modules, &viewer);
    assert!(seen.len() < modules.len());
    for m in &seen {
        assert!(viewer.has(&m.permission));
        for i in &m.items {
            assert!(viewer.has(&i.permission));
        }
    }
}

#[test]
fn route_highlighting() {
    assert!(is_route_active("/sales/invoices", "/sales/invoices"));
    assert!(is_route_active("/sales/invoices/42", "/sales/invoices"));
    assert!(!is_route_active("/sales/invoices-old", "/sales/invoices"));
    assert!(!is_route_active("/sales", "/sales/invoices"));
    assert!(is_route_active("/", "/"));
    assert!(!is_route_active("/inventory", "/"));
    assert_eq!(nav_item_class("/customers/7", "/customers"), "sidebar-item active");
    assert_eq!(nav_item_class("/customers", "/suppliers"), "sidebar-item");
}

#[test]
fn toggling_groups() {
    let mut expanded = default_expanded();
    assert_eq!(expanded, vec!["Dashboard".to_string(), "Sales".to_string()]);
    toggle_expanded(&mut expanded, "Sales");
    assert_eq!(expanded, vec!["Dashboard".to_string()]);
    toggle_expanded(&mut expanded, "Inventory");
    assert_eq!(expanded, vec!["Dashboard".to_string(), "Inventory".to_string()]);
    toggle_expanded(&mut expanded, "Inventory");
    assert_eq!(expanded, vec!["Dashboard".to_string()]);
}

#[test]
fn sidebar_labels_follow_the_language() {
    assert_eq!(nav_label("Dashboard", Lang::Ur), "ڈیش بورڈ");
    assert_eq!(nav_label("Stock Movements", Lang::Ur), "اسٹاک movements");
    assert_eq!(nav_label("Stock Movements", Lang::En), "Stock Movements");
    assert_eq!(nav_label("New Item", Lang::Ur), "New Item");
    assert_eq!(nav_label_from_lowered("chart of accounts", "Chart Of Accounts", Lang::En), "Chart of Accounts");
}

#[test]
fn expanded_groups_and_their_classes() {
    let expanded = default_expanded();
    assert!(is_expanded(&expanded, "Sales"));
    assert!(!is_expanded(&expanded, "Inventory"));
    assert_eq!(module_classes(true), ("sidebar-module-chevron expanded", "sidebar-module-items open"));
    assert_eq!(module_classes(false), ("sidebar-module-chevron", "sidebar-module-items"));
}

#[test]
fn manager_sees_a_subset_of_admin() {
    let modules = nav_modules();
    let manager = Permissions::new("manager");
    let admin = Permissions::new("admin");
    let seen = visible_modules(&modules, &manager);
    for m in &seen {
        assert!(admin.has(&m.permission));
        for i in &m.items {
            assert!(manager.has(&i.permission));
            assert!(admin.has(&i.permission));
        }
    }
}

#[test]
fn role_lists_hold_no_repeats() {
    for (role, size) in [("admin", 65), ("manager", 40), ("viewer", 16)] {
        let perms = Permissions::new(role);
        let distinct: std::collections::HashSet<&String> = perms.permissions.iter().collect();
        assert_eq!(perms.permissions.len(), size);
        assert_eq!(distinct.len(), size);
    }
}
