//! Role-based permissions: which actions each role may take.

use vstd::prelude::*;
use crate::text::{names_of, str_eq};

verus! {

/// Permissions of the `admin` role: every action on every module.
pub open spec fn admin_permissions() -> Seq<Seq<char>> {
    seq![
        "inventory:read"@,
        "inventory:create"@,
        "inventory:update"@,
        "inventory:delete"@,
        "customers:read"@,
        "customers:create"@,
        "customers:update"@,
        "customers:delete"@,
        "suppliers:read"@,
        "suppliers:create"@,
        "suppliers:update"@,
        "suppliers:delete"@,
        "invoices:read"@,
        "invoices:create"@,
        "invoices:update"@,
        "invoices:delete"@,
        "quotations:read"@,
        "quotations:create"@,
        "quotations:update"@,
        "quotations:delete"@,
        "sales_orders:read"@,
        "sales_orders:create"@,
        "sales_orders:update"@,
        "sales_orders:delete"@,
        "purchase_orders:read"@,
        "purchase_orders:create"@,
        "purchase_orders:update"@,
        "purchase_orders:delete"@,
        "bom:read"@,
        "bom:create"@,
        "bom:update"@,
        "bom:delete"@,
        "production:read"@,
        "production:create"@,
        "production:update"@,
        "production:delete"@,
        "employees:read"@,
        "employees:create"@,
        "employees:update"@,
        "employees:delete"@,
        "expenses:read"@,
        "expenses:create"@,
        "expenses:update"@,
        "expenses:delete"@,
        "accounting:read"@,
        "accounting:create"@,
        "accounting:update"@,
        "accounting:delete"@,
        "reports:read"@,
        "reports:create"@,
        "forecasts:read"@,
        "forecasts:create"@,
        "forecasts:update"@,
        "settings:read"@,
        "settings:update"@,
        "users:read"@,
        "users:create"@,
        "users:update"@,
        "users:delete"@,
        "roles:read"@,
        "roles:create"@,
        "roles:update"@,
        "roles:delete"@,
        "dashboard:read"@,
        "activity_log:read"@,
    ]
}

/// Permissions of the `manager` role: reading, creating and updating, without deletion or administration.
pub open spec fn manager_permissions() -> Seq<Seq<char>> {
    seq![
        "inventory:read"@,
        "inventory:create"@,
        "inventory:update"@,
        "customers:read"@,
        "customers:create"@,
        "customers:update"@,
        "suppliers:read"@,
        "suppliers:create"@,
        "suppliers:update"@,
        "invoices:read"@,
        "invoices:create"@,
        "invoices:update"@,
        "quotations:read"@,
        "quotations:create"@,
        "quotations:update"@,
        "sales_orders:read"@,
        "sales_orders:create"@,
        "sales_orders:update"@,
        "purchase_orders:read"@,
        "purchase_orders:create"@,
        "purchase_orders:update"@,
        "bom:read"@,
        "bom:create"@,
        "bom:update"@,
        "production:read"@,
        "production:create"@,
        "production:update"@,
        "employees:read"@,
        "employees:create"@,
        "employees:update"@,
        "expenses:read"@,
        "expenses:create"@,
        "expenses:update"@,
        "accounting:read"@,
        "reports:read"@,
        "forecasts:read"@,
        "forecasts:create"@,
        "settings:read"@,
        "dashboard:read"@,
        "activity_log:read"@,
    ]
}

/// Permissions of the `viewer` role: reading only.
pub open spec fn viewer_permissions() -> Seq<Seq<char>> {
    seq![
        "inventory:read"@,
        "customers:read"@,
        "suppliers:read"@,
        "invoices:read"@,
        "quotations:read"@,
        "sales_orders:read"@,
        "purchase_orders:read"@,
        "bom:read"@,
        "production:read"@,
        "employees:read"@,
        "expenses:read"@,
        "accounting:read"@,
        "reports:read"@,
        "forecasts:read"@,
        "dashboard:read"@,
        "activity_log:read"@,
    ]
}

/// The permissions of a role; an unknown role has none.
pub open spec fn role_permissions(role: Seq<char>) -> Seq<Seq<char>> {
    if role == "admin"@ {
        admin_permissions()
    } else if role == "manager"@ {
        manager_permissions()
    } else if role == "viewer"@ {
        viewer_permissions()
    } else {
        Seq::empty()
    }
}

/// The `admin` permissions.
fn admin_list() -> (v: Vec<String>)
    ensures
        names_of(v@) == admin_permissions(),
{
    let mut v: Vec<String> = Vec::new();
    v.push(String::from_str("inventory:read"));
    v.push(String::from_str("inventory:create"));
    v.push(String::from_str("inventory:update"));
    v.push(String::from_str("inventory:delete"));
    v.push(String::from_str("customers:read"));
    v.push(String::from_str("customers:create"));
    v.push(String::from_str("customers:update"));
    v.push(String::from_str("customers:delete"));
    v.push(String::from_str("suppliers:read"));
    v.push(String::from_str("suppliers:create"));
    v.push(String::from_str("suppliers:update"));
    v.push(String::from_str("suppliers:delete"));
    v.push(String::from_str("invoices:read"));
    v.push(String::from_str("invoices:create"));
    v.push(String::from_str("invoices:update"));
    v.push(String::from_str("invoices:delete"));
    v.push(String::from_str("quotations:read"));
    v.push(String::from_str("quotations:create"));
    v.push(String::from_str("quotations:update"));
    v.push(String::from_str("quotations:delete"));
    v.push(String::from_str("sales_orders:read"));
    v.push(String::from_str("sales_orders:create"));
    v.push(String::from_str("sales_orders:update"));
    v.push(String::from_str("sales_orders:delete"));
    v.push(String::from_str("purchase_orders:read"));
    v.push(String::from_str("purchase_orders:create"));
    v.push(String::from_str("purchase_orders:update"));
    v.push(String::from_str("purchase_orders:delete"));
    v.push(String::from_str("bom:read"));
    v.push(String::from_str("bom:create"));
    v.push(String::from_str("bom:update"));
    v.push(String::from_str("bom:delete"));
    v.push(String::from_str("production:read"));
    v.push(String::from_str("production:create"));
    v.push(String::from_str("production:update"));
    v.push(String::from_str("production:delete"));
    v.push(String::from_str("employees:read"));
    v.push(String::from_str("employees:create"));
    v.push(String::from_str("employees:update"));
    v.push(String::from_str("employees:delete"));
    v.push(String::from_str("expenses:read"));
    v.push(String::from_str("expenses:create"));
    v.push(String::from_str("expenses:update"));
    v.push(String::from_str("expenses:delete"));
    v.push(String::from_str("accounting:read"));
    v.push(String::from_str("accounting:create"));
    v.push(String::from_str("accounting:update"));
    v.push(String::from_str("accounting:delete"));
    v.push(String::from_str("reports:read"));
    v.push(String::from_str("reports:create"));
    v.push(String::from_str("forecasts:read"));
    v.push(String::from_str("forecasts:create"));
    v.push(String::from_str("forecasts:update"));
    v.push(String::from_str("settings:read"));
    v.push(String::from_str("settings:update"));
    v.push(String::from_str("users:read"));
    v.push(String::from_str("users:create"));
    v.push(String::from_str("users:update"));
    v.push(String::from_str("users:delete"));
    v.push(String::from_str("roles:read"));
    v.push(String::from_str("roles:create"));
    v.push(String::from_str("roles:update"));
    v.push(String::from_str("roles:delete"));
    v.push(String::from_str("dashboard:read"));
    v.push(String::from_str("activity_log:read"));
    proof {
        assert(names_of(v@) =~= admin_permissions());
    }
    v
}

/// The `manager` permissions.
fn manager_list() -> (v: Vec<String>)
    ensures
        names_of(v@) == manager_permissions(),
{
    let mut v: Vec<String> = Vec::new();
    v.push(String::from_str("inventory:read"));
    v.push(String::from_str("inventory:create"));
    v.push(String::from_str("inventory:update"));
    v.push(String::from_str("customers:read"));
    v.push(String::from_str("customers:create"));
    v.push(String::from_str("customers:update"));
    v.push(String::from_str("suppliers:read"));
    v.push(String::from_str("suppliers:create"));
    v.push(String::from_str("suppliers:update"));
    v.push(String::from_str("invoices:read"));
    v.push(String::from_str("invoices:create"));
    v.push(String::from_str("invoices:update"));
    v.push(String::from_str("quotations:read"));
    v.push(String::from_str("quotations:create"));
    v.push(String::from_str("quotations:update"));
    v.push(String::from_str("sales_orders:read"));
    v.push(String::from_str("sales_orders:create"));
    v.push(String::from_str("sales_orders:update"));
    v.push(String::from_str("purchase_orders:read"));
    v.push(String::from_str("purchase_orders:create"));
    v.push(String::from_str("purchase_orders:update"));
    v.push(String::from_str("bom:read"));
    v.push(String::from_str("bom:create"));
    v.push(String::from_str("bom:update"));
    v.push(String::from_str("production:read"));
    v.push(String::from_str("production:create"));
    v.push(String::from_str("production:update"));
    v.push(String::from_str("employees:read"));
    v.push(String::from_str("employees:create"));
    v.push(String::from_str("employees:update"));
    v.push(String::from_str("expenses:read"));
    v.push(String::from_str("expenses:create"));
    v.push(String::from_str("expenses:update"));
    v.push(String::from_str("accounting:read"));
    v.push(String::from_str("reports:read"));
    v.push(String::from_str("forecasts:read"));
    v.push(String::from_str("forecasts:create"));
    v.push(String::from_str("settings:read"));
    v.push(String::from_str("dashboard:read"));
    v.push(String::from_str("activity_log:read"));
    proof {
        assert(names_of(v@) =~= manager_permissions());
    }
    v
}

/// The `viewer` permissions.
fn viewer_list() -> (v: Vec<String>)
    ensures
        names_of(v@) == viewer_permissions(),
{
    let mut v: Vec<String> = Vec::new();
    v.push(String::from_str("inventory:read"));
    v.push(String::from_str("customers:read"));
    v.push(String::from_str("suppliers:read"));
    v.push(String::from_str("invoices:read"));
    v.push(String::from_str("quotations:read"));
    v.push(String::from_str("sales_orders:read"));
    v.push(String::from_str("purchase_orders:read"));
    v.push(String::from_str("bom:read"));
    v.push(String::from_str("production:read"));
    v.push(String::from_str("employees:read"));
    v.push(String::from_str("expenses:read"));
    v.push(String::from_str("accounting:read"));
    v.push(String::from_str("reports:read"));
    v.push(String::from_str("forecasts:read"));
    v.push(String::from_str("dashboard:read"));
    v.push(String::from_str("activity_log:read"));
    proof {
        assert(names_of(v@) =~= viewer_permissions());
    }
    v
}


/// The roles are nested: every permission of `viewer` is also one of `manager`, and every
/// permission of `manager` is also one of `admin`.
pub proof fn law_role_hierarchy()
    ensures
        forall|p: Seq<char>| viewer_permissions().contains(p) ==> manager_permissions().contains(p),
        forall|p: Seq<char>| manager_permissions().contains(p) ==> admin_permissions().contains(p),
{
    assert forall|k: int| 0 <= k < viewer_permissions().len() implies manager_permissions().contains(
        viewer_permissions()[k],
    ) by {
            if k == 0 {
                assert(manager_permissions()[0] == viewer_permissions()[0]);
            } else if k == 1 {
                assert(manager_permissions()[3] == viewer_permissions()[1]);
            } else if k == 2 {
                assert(manager_permissions()[6] == viewer_permissions()[2]);
            } else if k == 3 {
                assert(manager_permissions()[9] == viewer_permissions()[3]);
            } else if k == 4 {
                assert(manager_permissions()[12] == viewer_permissions()[4]);
            } else if k == 5 {
                assert(manager_permissions()[15] == viewer_permissions()[5]);
            } else if k == 6 {
                assert(manager_permissions()[18] == viewer_permissions()[6]);
            } else if k == 7 {
                assert(manager_permissions()[21] == viewer_permissions()[7]);
            } else if k == 8 {
                assert(manager_permissions()[24] == viewer_permissions()[8]);
            } else if k == 9 {
                assert(manager_permissions()[27] == viewer_permissions()[9]);
            } else if k == 10 {
                assert(manager_permissions()[30] == viewer_permissions()[10]);
            } else if k == 11 {
                assert(manager_permissions()[33] == viewer_permissions()[11]);
            } else if k == 12 {
                assert(manager_permissions()[34] == viewer_permissions()[12]);
            } else if k == 13 {
                assert(manager_permissions()[35] == viewer_permissions()[13]);
            } else if k == 14 {
                assert(manager_permissions()[38] == viewer_permissions()[14]);
            } else if k == 15 {
                assert(manager_permissions()[39] == viewer_permissions()[15]);
            }
    }
    assert forall|k: int| 0 <= k < manager_permissions().len() implies admin_permissions().contains(
        manager_permissions()[k],
    ) by {
            if k == 0 {
                assert(admin_permissions()[0] == manager_permissions()[0]);
            } else if k == 1 {
                assert(admin_permissions()[1] == manager_permissions()[1]);
            } else if k == 2 {
                assert(admin_permissions()[2] == manager_permissions()[2]);
            } else if k == 3 {
                assert(admin_permissions()[4] == manager_permissions()[3]);
            } else if k == 4 {
                assert(admin_permissions()[5] == manager_permissions()[4]);
            } else if k == 5 {
                assert(admin_permissions()[6] == manager_permissions()[5]);
            } else if k == 6 {
                assert(admin_permissions()[8] == manager_permissions()[6]);
            } else if k == 7 {
                assert(admin_permissions()[9] == manager_permissions()[7]);
            } else if k == 8 {
                assert(admin_permissions()[10] == manager_permissions()[8]);
            } else if k == 9 {
                assert(admin_permissions()[12] == manager_permissions()[9]);
            } else if k == 10 {
                assert(admin_permissions()[13] == manager_permissions()[10]);
            } else if k == 11 {
                assert(admin_permissions()[14] == manager_permissions()[11]);
            } else if k == 12 {
                assert(admin_permissions()[16] == manager_permissions()[12]);
            } else if k == 13 {
                assert(admin_permissions()[17] == manager_permissions()[13]);
            } else if k == 14 {
                assert(admin_permissions()[18] == manager_permissions()[14]);
            } else if k == 15 {
                assert(admin_permissions()[20] == manager_permissions()[15]);
            } else if k == 16 {
                assert(admin_permissions()[21] == manager_permissions()[16]);
            } else if k == 17 {
                assert(admin_permissions()[22] == manager_permissions()[17]);
            } else if k == 18 {
                assert(admin_permissions()[24] == manager_permissions()[18]);
            } else if k == 19 {
                assert(admin_permissions()[25] == manager_permissions()[19]);
            } else if k == 20 {
                assert(admin_permissions()[26] == manager_permissions()[20]);
            } else if k == 21 {
                assert(admin_permissions()[28] == manager_permissions()[21]);
            } else if k == 22 {
                assert(admin_permissions()[29] == manager_permissions()[22]);
            } else if k == 23 {
                assert(admin_permissions()[30] == manager_permissions()[23]);
            } else if k == 24 {
                assert(admin_permissions()[32] == manager_permissions()[24]);
            } else if k == 25 {
                assert(admin_permissions()[33] == manager_permissions()[25]);
            } else if k == 26 {
                assert(admin_permissions()[34] == manager_permissions()[26]);
            } else if k == 27 {
                assert(admin_permissions()[36] == manager_permissions()[27]);
            } else if k == 28 {
                assert(admin_permissions()[37] == manager_permissions()[28]);
            } else if k == 29 {
                assert(admin_permissions()[38] == manager_permissions()[29]);
            } else if k == 30 {
                assert(admin_permissions()[40] == manager_permissions()[30]);
            } else if k == 31 {
                assert(admin_permissions()[41] == manager_permissions()[31]);
            } else if k == 32 {
                assert(admin_permissions()[42] == manager_permissions()[32]);
            } else if k == 33 {
                assert(admin_permissions()[44] == manager_permissions()[33]);
            } else if k == 34 {
                assert(admin_permissions()[48] == manager_permissions()[34]);
            } else if k == 35 {
                assert(admin_permissions()[50] == manager_permissions()[35]);
            } else if k == 36 {
                assert(admin_permissions()[51] == manager_permissions()[36]);
            } else if k == 37 {
                assert(admin_permissions()[53] == manager_permissions()[37]);
            } else if k == 38 {
                assert(admin_permissions()[63] == manager_permissions()[38]);
            } else if k == 39 {
                assert(admin_permissions()[64] == manager_permissions()[39]);
            }
    }
}

/// A role other than `admin`, `manager` and `viewer` grants nothing.
pub proof fn law_unknown_role_grants_nothing(role: Seq<char>)
    requires
        role != "admin"@,
        role != "manager"@,
        role != "viewer"@,
    ensures
        role_permissions(role).len() == 0,
{
}

/// `s` ends with `suffix`.
pub open spec fn ends_with(s: Seq<char>, suffix: Seq<char>) -> bool {
    s.len() >= suffix.len() && s.subrange(s.len() - suffix.len(), s.len() as int) == suffix
}

/// `s` starts with `prefix`.
pub open spec fn starts_with(s: Seq<char>, prefix: Seq<char>) -> bool {
    s.len() >= prefix.len() && s.take(prefix.len() as int) == prefix
}

/// A number that tells the permission names apart: their length, first letter and
/// fifth letter from the end. Different numbers mean different names.
spec fn permission_code(p: Seq<char>) -> int {
    p.len() * 16384 + (p[0] as int) * 128 + (p[p.len() - 5] as int)
}

/// No permission occurs twice in the `admin` list.
#[verifier::rlimit(100)]
proof fn lemma_admin_permissions_distinct()
    ensures
        admin_permissions().no_duplicates(),
{
    reveal_strlit("accounting:create");
    reveal_strlit("accounting:delete");
    reveal_strlit("accounting:read");
    reveal_strlit("accounting:update");
    reveal_strlit("activity_log:read");
    reveal_strlit("bom:create");
    reveal_strlit("bom:delete");
    reveal_strlit("bom:read");
    reveal_strlit("bom:update");
    reveal_strlit("customers:create");
    reveal_strlit("customers:delete");
    reveal_strlit("customers:read");
    reveal_strlit("customers:update");
    reveal_strlit("dashboard:read");
    reveal_strlit("employees:create");
    reveal_strlit("employees:delete");
    reveal_strlit("employees:read");
    reveal_strlit("employees:update");
    reveal_strlit("expenses:create");
    reveal_strlit("expenses:delete");
    reveal_strlit("expenses:read");
    reveal_strlit("expenses:update");
    reveal_strlit("forecasts:create");
    reveal_strlit("forecasts:read");
    reveal_strlit("forecasts:update");
    reveal_strlit("inventory:create");
    reveal_strlit("inventory:delete");
    reveal_strlit("inventory:read");
    reveal_strlit("inventory:update");
    reveal_strlit("invoices:create");
    reveal_strlit("invoices:delete");
    reveal_strlit("invoices:read");
    reveal_strlit("invoices:update");
    reveal_strlit("production:create");
    reveal_strlit("production:delete");
    reveal_strlit("production:read");
    reveal_strlit("production:update");
    reveal_strlit("purchase_orders:create");
    reveal_strlit("purchase_orders:delete");
    reveal_strlit("purchase_orders:read");
    reveal_strlit("purchase_orders:update");
    reveal_strlit("quotations:create");
    reveal_strlit("quotations:delete");
    reveal_strlit("quotations:read");
    reveal_strlit("quotations:update");
    reveal_strlit("reports:create");
    reveal_strlit("reports:read");
    reveal_strlit("roles:create");
    reveal_strlit("roles:delete");
    reveal_strlit("roles:read");
    reveal_strlit("roles:update");
    reveal_strlit("sales_orders:create");
    reveal_strlit("sales_orders:delete");
    reveal_strlit("sales_orders:read");
    reveal_strlit("sales_orders:update");
    reveal_strlit("settings:read");
    reveal_strlit("settings:update");
    reveal_strlit("suppliers:create");
    reveal_strlit("suppliers:delete");
    reveal_strlit("suppliers:read");
    reveal_strlit("suppliers:update");
    reveal_strlit("users:create");
    reveal_strlit("users:delete");
    reveal_strlit("users:read");
    reveal_strlit("users:update");
    let s = admin_permissions();
    assert(permission_code(s[0]) == 242874);
    assert(permission_code(s[1]) == 275698);
    assert(permission_code(s[2]) == 275696);
    assert(permission_code(s[3]) == 275685);
    assert(permission_code(s[4]) == 242106);
    assert(permission_code(s[5]) == 274930);
    assert(permission_code(s[6]) == 274928);
    assert(permission_code(s[7]) == 274917);
    assert(permission_code(s[8]) == 244154);
    assert(permission_code(s[9]) == 276978);
    assert(permission_code(s[10]) == 276976);
    assert(permission_code(s[11]) == 276965);
    assert(permission_code(s[12]) == 226490);
    assert(permission_code(s[13]) == 259314);
    assert(permission_code(s[14]) == 259312);
    assert(permission_code(s[15]) == 259301);
    assert(permission_code(s[16]) == 260282);
    assert(permission_code(s[17]) == 293106);
    assert(permission_code(s[18]) == 293104);
    assert(permission_code(s[19]) == 293093);
    assert(permission_code(s[20]) == 293306);
    assert(permission_code(s[21]) == 326130);
    assert(permission_code(s[22]) == 326128);
    assert(permission_code(s[23]) == 326117);
    assert(permission_code(s[24]) == 342074);
    assert(permission_code(s[25]) == 374898);
    assert(permission_code(s[26]) == 374896);
    assert(permission_code(s[27]) == 374885);
    assert(permission_code(s[28]) == 143674);
    assert(permission_code(s[29]) == 176498);
    assert(permission_code(s[30]) == 176496);
    assert(permission_code(s[31]) == 176485);
    assert(permission_code(s[32]) == 260154);
    assert(permission_code(s[33]) == 292978);
    assert(permission_code(s[34]) == 292976);
    assert(permission_code(s[35]) == 292965);
    assert(permission_code(s[36]) == 242362);
    assert(permission_code(s[37]) == 275186);
    assert(permission_code(s[38]) == 275184);
    assert(permission_code(s[39]) == 275173);
    assert(permission_code(s[40]) == 225978);
    assert(permission_code(s[41]) == 258802);
    assert(permission_code(s[42]) == 258800);
    assert(permission_code(s[43]) == 258789);
    assert(permission_code(s[44]) == 258234);
    assert(permission_code(s[45]) == 291058);
    assert(permission_code(s[46]) == 291056);
    assert(permission_code(s[47]) == 291045);
    assert(permission_code(s[48]) == 211258);
    assert(permission_code(s[49]) == 244082);
    assert(permission_code(s[50]) == 242490);
    assert(permission_code(s[51]) == 275314);
    assert(permission_code(s[52]) == 275312);
    assert(permission_code(s[53]) == 227770);
    assert(permission_code(s[54]) == 260592);
    assert(permission_code(s[55]) == 178874);
    assert(permission_code(s[56]) == 211698);
    assert(permission_code(s[57]) == 211696);
    assert(permission_code(s[58]) == 211685);
    assert(permission_code(s[59]) == 178490);
    assert(permission_code(s[60]) == 211314);
    assert(permission_code(s[61]) == 211312);
    assert(permission_code(s[62]) == 211301);
    assert(permission_code(s[63]) == 242234);
    assert(permission_code(s[64]) == 291002);
    assert forall|i: int, j: int| 0 <= i < j < s.len() implies permission_code(s[i]) != permission_code(s[j]) by {}
    assert forall|i: int, j: int| 0 <= i < s.len() && 0 <= j < s.len() && i != j implies s[i] != s[j] by {
        if i < j {
            assert(permission_code(s[i]) != permission_code(s[j]));
        } else {
            assert(permission_code(s[j]) != permission_code(s[i]));
        }
    }
}

/// No permission occurs twice in the `manager` list.
#[verifier::rlimit(100)]
proof fn lemma_manager_permissions_distinct()
    ensures
        manager_permissions().no_duplicates(),
{
    reveal_strlit("accounting:read");
    reveal_strlit("activity_log:read");
    reveal_strlit("bom:create");
    reveal_strlit("bom:read");
    reveal_strlit("bom:update");
    reveal_strlit("customers:create");
    reveal_strlit("customers:read");
    reveal_strlit("customers:update");
    reveal_strlit("dashboard:read");
    reveal_strlit("employees:create");
    reveal_strlit("employees:read");
    reveal_strlit("employees:update");
    reveal_strlit("expenses:create");
    reveal_strlit("expenses:read");
    reveal_strlit("expenses:update");
    reveal_strlit("forecasts:create");
    reveal_strlit("forecasts:read");
    reveal_strlit("inventory:create");
    reveal_strlit("inventory:read");
    reveal_strlit("inventory:update");
    reveal_strlit("invoices:create");
    reveal_strlit("invoices:read");
    reveal_strlit("invoices:update");
    reveal_strlit("production:create");
    reveal_strlit("production:read");
    reveal_strlit("production:update");
    reveal_strlit("purchase_orders:create");
    reveal_strlit("purchase_orders:read");
    reveal_strlit("purchase_orders:update");
    reveal_strlit("quotations:create");
    reveal_strlit("quotations:read");
    reveal_strlit("quotations:update");
    reveal_strlit("reports:read");
    reveal_strlit("sales_orders:create");
    reveal_strlit("sales_orders:read");
    reveal_strlit("sales_orders:update");
    reveal_strlit("settings:read");
    reveal_strlit("suppliers:create");
    reveal_strlit("suppliers:read");
    reveal_strlit("suppliers:update");
    let s = manager_permissions();
    assert(permission_code(s[0]) == 242874);
    assert(permission_code(s[1]) == 275698);
    assert(permission_code(s[2]) == 275696);
    assert(permission_code(s[3]) == 242106);
    assert(permission_code(s[4]) == 274930);
    assert(permission_code(s[5]) == 274928);
    assert(permission_code(s[6]) == 244154);
    assert(permission_code(s[7]) == 276978);
    assert(permission_code(s[8]) == 276976);
    assert(permission_code(s[9]) == 226490);
    assert(permission_code(s[10]) == 259314);
    assert(permission_code(s[11]) == 259312);
    assert(permission_code(s[12]) == 260282);
    assert(permission_code(s[13]) == 293106);
    assert(permission_code(s[14]) == 293104);
    assert(permission_code(s[15]) == 293306);
    assert(permission_code(s[16]) == 326130);
    assert(permission_code(s[17]) == 326128);
    assert(permission_code(s[18]) == 342074);
    assert(permission_code(s[19]) == 374898);
    assert(permission_code(s[20]) == 374896);
    assert(permission_code(s[21]) == 143674);
    assert(permission_code(s[22]) == 176498);
    assert(permission_code(s[23]) == 176496);
    assert(permission_code(s[24]) == 260154);
    assert(permission_code(s[25]) == 292978);
    assert(permission_code(s[26]) == 292976);
    assert(permission_code(s[27]) == 242362);
    assert(permission_code(s[28]) == 275186);
    assert(permission_code(s[29]) == 275184);
    assert(permission_code(s[30]) == 225978);
    assert(permission_code(s[31]) == 258802);
    assert(permission_code(s[32]) == 258800);
    assert(permission_code(s[33]) == 258234);
    assert(permission_code(s[34]) == 211258);
    assert(permission_code(s[35]) == 242490);
    assert(permission_code(s[36]) == 275314);
    assert(permission_code(s[37]) == 227770);
    assert(permission_code(s[38]) == 242234);
    assert(permission_code(s[39]) == 291002);
    assert forall|i: int, j: int| 0 <= i < j < s.len() implies permission_code(s[i]) != permission_code(s[j]) by {}
    assert forall|i: int, j: int| 0 <= i < s.len() && 0 <= j < s.len() && i != j implies s[i] != s[j] by {
        if i < j {
            assert(permission_code(s[i]) != permission_code(s[j]));
        } else {
            assert(permission_code(s[j]) != permission_code(s[i]));
        }
    }
}

/// No permission occurs twice in the `viewer` list.
#[verifier::rlimit(100)]
proof fn lemma_viewer_permissions_distinct()
    ensures
        viewer_permissions().no_duplicates(),
{
    reveal_strlit("accounting:read");
    reveal_strlit("activity_log:read");
    reveal_strlit("bom:read");
    reveal_strlit("customers:read");
    reveal_strlit("dashboard:read");
    reveal_strlit("employees:read");
    reveal_strlit("expenses:read");
    reveal_strlit("forecasts:read");
    reveal_strlit("inventory:read");
    reveal_strlit("invoices:read");
    reveal_strlit("production:read");
    reveal_strlit("purchase_orders:read");
    reveal_strlit("quotations:read");
    reveal_strlit("reports:read");
    reveal_strlit("sales_orders:read");
    reveal_strlit("suppliers:read");
    let s = viewer_permissions();
    assert(permission_code(s[0]) == 242874);
    assert(permission_code(s[1]) == 242106);
    assert(permission_code(s[2]) == 244154);
    assert(permission_code(s[3]) == 226490);
    assert(permission_code(s[4]) == 260282);
    assert(permission_code(s[5]) == 293306);
    assert(permission_code(s[6]) == 342074);
    assert(permission_code(s[7]) == 143674);
    assert(permission_code(s[8]) == 260154);
    assert(permission_code(s[9]) == 242362);
    assert(permission_code(s[10]) == 225978);
    assert(permission_code(s[11]) == 258234);
    assert(permission_code(s[12]) == 211258);
    assert(permission_code(s[13]) == 242490);
    assert(permission_code(s[14]) == 242234);
    assert(permission_code(s[15]) == 291002);
    assert forall|i: int, j: int| 0 <= i < j < s.len() implies permission_code(s[i]) != permission_code(s[j]) by {}
    assert forall|i: int, j: int| 0 <= i < s.len() && 0 <= j < s.len() && i != j implies s[i] != s[j] by {
        if i < j {
            assert(permission_code(s[i]) != permission_code(s[j]));
        } else {
            assert(permission_code(s[j]) != permission_code(s[i]));
        }
    }
}

/// No role lists a permission twice, so each role grants exactly as many distinct
/// permissions as its list is long.
pub proof fn law_role_lists_distinct()
    ensures
        admin_permissions().no_duplicates(),
        manager_permissions().no_duplicates(),
        viewer_permissions().no_duplicates(),
        admin_permissions().to_set().len() == admin_permissions().len(),
        manager_permissions().to_set().len() == manager_permissions().len(),
        viewer_permissions().to_set().len() == viewer_permissions().len(),
{
    lemma_admin_permissions_distinct();
    lemma_manager_permissions_distinct();
    lemma_viewer_permissions_distinct();
    admin_permissions().unique_seq_to_set();
    manager_permissions().unique_seq_to_set();
    viewer_permissions().unique_seq_to_set();
}

/// The roles grant 16, 40 and 65 permissions; every permission of a viewer only reads;
/// a manager may delete nothing and manage neither users nor roles.
pub proof fn law_role_shapes()
    ensures
        viewer_permissions().len() == 16,
        manager_permissions().len() == 40,
        admin_permissions().len() == 65,
        forall|i: int| 0 <= i < viewer_permissions().len() ==> ends_with(#[trigger] viewer_permissions()[i], ":read"@),
        forall|i: int|
            0 <= i < manager_permissions().len() ==> !ends_with(#[trigger] manager_permissions()[i], ":delete"@)
                && !starts_with(manager_permissions()[i], "users:"@) && !starts_with(manager_permissions()[i], "roles:"@),
{
    reveal_strlit("accounting:read");
    reveal_strlit("activity_log:read");
    reveal_strlit("bom:create");
    reveal_strlit("bom:read");
    reveal_strlit("bom:update");
    reveal_strlit("customers:create");
    reveal_strlit("customers:read");
    reveal_strlit("customers:update");
    reveal_strlit("dashboard:read");
    reveal_strlit("employees:create");
    reveal_strlit("employees:read");
    reveal_strlit("employees:update");
    reveal_strlit("expenses:create");
    reveal_strlit("expenses:read");
    reveal_strlit("expenses:update");
    reveal_strlit("forecasts:create");
    reveal_strlit("forecasts:read");
    reveal_strlit("inventory:create");
    reveal_strlit("inventory:read");
    reveal_strlit("inventory:update");
    reveal_strlit("invoices:create");
    reveal_strlit("invoices:read");
    reveal_strlit("invoices:update");
    reveal_strlit("production:create");
    reveal_strlit("production:read");
    reveal_strlit("production:update");
    reveal_strlit("purchase_orders:create");
    reveal_strlit("purchase_orders:read");
    reveal_strlit("purchase_orders:update");
    reveal_strlit("quotations:create");
    reveal_strlit("quotations:read");
    reveal_strlit("quotations:update");
    reveal_strlit("reports:read");
    reveal_strlit("sales_orders:create");
    reveal_strlit("sales_orders:read");
    reveal_strlit("sales_orders:update");
    reveal_strlit("settings:read");
    reveal_strlit("suppliers:create");
    reveal_strlit("suppliers:read");
    reveal_strlit("suppliers:update");
    reveal_strlit(":read");
    reveal_strlit(":delete");
    reveal_strlit("users:");
    reveal_strlit("roles:");
    assert(viewer_permissions()[0].subrange(9, 14) =~= ":read"@);
    assert(viewer_permissions()[1].subrange(9, 14) =~= ":read"@);
    assert(viewer_permissions()[2].subrange(9, 14) =~= ":read"@);
    assert(viewer_permissions()[3].subrange(8, 13) =~= ":read"@);
    assert(viewer_permissions()[4].subrange(10, 15) =~= ":read"@);
    assert(viewer_permissions()[5].subrange(12, 17) =~= ":read"@);
    assert(viewer_permissions()[6].subrange(15, 20) =~= ":read"@);
    assert(viewer_permissions()[7].subrange(3, 8) =~= ":read"@);
    assert(viewer_permissions()[8].subrange(10, 15) =~= ":read"@);
    assert(viewer_permissions()[9].subrange(9, 14) =~= ":read"@);
    assert(viewer_permissions()[10].subrange(8, 13) =~= ":read"@);
    assert(viewer_permissions()[11].subrange(10, 15) =~= ":read"@);
    assert(viewer_permissions()[12].subrange(7, 12) =~= ":read"@);
    assert(viewer_permissions()[13].subrange(9, 14) =~= ":read"@);
    assert(viewer_permissions()[14].subrange(9, 14) =~= ":read"@);
    assert(viewer_permissions()[15].subrange(12, 17) =~= ":read"@);
    assert(manager_permissions()[0].subrange(7, 14)[0] != ":delete"@[0]);
    assert(manager_permissions()[0].take(6)[0] != "users:"@[0]);
    assert(manager_permissions()[0].take(6)[0] != "roles:"@[0]);
    assert(manager_permissions()[1].subrange(9, 16)[1] != ":delete"@[1]);
    assert(manager_permissions()[1].take(6)[0] != "users:"@[0]);
    assert(manager_permissions()[1].take(6)[0] != "roles:"@[0]);
    assert(manager_permissions()[2].subrange(9, 16)[1] != ":delete"@[1]);
    assert(manager_permissions()[2].take(6)[0] != "users:"@[0]);
    assert(manager_permissions()[2].take(6)[0] != "roles:"@[0]);
    assert(manager_permissions()[3].subrange(7, 14)[0] != ":delete"@[0]);
    assert(manager_permissions()[3].take(6)[0] != "users:"@[0]);
    assert(manager_permissions()[3].take(6)[0] != "roles:"@[0]);
    assert(manager_permissions()[4].subrange(9, 16)[1] != ":delete"@[1]);
    assert(manager_permissions()[4].take(6)[0] != "users:"@[0]);
    assert(manager_permissions()[4].take(6)[0] != "roles:"@[0]);
    assert(manager_permissions()[5].subrange(9, 16)[1] != ":delete"@[1]);
    assert(manager_permissions()[5].take(6)[0] != "users:"@[0]);
    assert(manager_permissions()[5].take(6)[0] != "roles:"@[0]);
    assert(manager_permissions()[6].subrange(7, 14)[0] != ":delete"@[0]);
    assert(manager_permissions()[6].take(6)[0] != "users:"@[0]);
    assert(manager_permissions()[6].take(6)[0] != "roles:"@[0]);
    assert(manager_permissions()[7].subrange(9, 16)[1] != ":delete"@[1]);
    assert(manager_permissions()[7].take(6)[0] != "users:"@[0]);
    assert(manager_permissions()[7].take(6)[0] != "roles:"@[0]);
    assert(manager_permissions()[8].subrange(9, 16)[1] != ":delete"@[1]);
    assert(manager_permissions()[8].take(6)[0] != "users:"@[0]);
    assert(manager_permissions()[8].take(6)[0] != "roles:"@[0]);
    assert(manager_permissions()[9].subrange(6, 13)[0] != ":delete"@[0]);
    assert(manager_permissions()[9].take(6)[0] != "users:"@[0]);
    assert(manager_permissions()[9].take(6)[0] != "roles:"@[0]);
    assert(manager_permissions()[10].subrange(8, 15)[1] != ":delete"@[1]);
    assert(manager_permissions()[10].take(6)[0] != "users:"@[0]);
    assert(manager_permissions()[10].take(6)[0] != "roles:"@[0]);
    assert(manager_permissions()[11].subrange(8, 15)[1] != ":delete"@[1]);
    assert(manager_permissions()[11].take(6)[0] != "users:"@[0]);
    assert(manager_permissions()[11].take(6)[0] != "roles:"@[0]);
    assert(manager_permissions()[12].subrange(8, 15)[0] != ":delete"@[0]);
    assert(manager_permissions()[12].take(6)[0] != "users:"@[0]);
    assert(manager_permissions()[12].take(6)[0] != "roles:"@[0]);
    assert(manager_permissions()[13].subrange(10, 17)[1] != ":delete"@[1]);
    assert(manager_permissions()[13].take(6)[0] != "users:"@[0]);
    assert(manager_permissions()[13].take(6)[0] != "roles:"@[0]);
    assert(manager_permissions()[14].subrange(10, 17)[1] != ":delete"@[1]);
    assert(manager_permissions()[14].take(6)[0] != "users:"@[0]);
    assert(manager_permissions()[14].take(6)[0] != "roles:"@[0]);
    assert(manager_permissions()[15].subrange(10, 17)[0] != ":delete"@[0]);
    assert(manager_permissions()[15].take(6)[0] != "users:"@[0]);
    assert(manager_permissions()[15].take(6)[0] != "roles:"@[0]);
    assert(manager_permissions()[16].subrange(12, 19)[1] != ":delete"@[1]);
    assert(manager_permissions()[16].take(6)[0] != "users:"@[0]);
    assert(manager_permissions()[16].take(6)[0] != "roles:"@[0]);
    assert(manager_permissions()[17].subrange(12, 19)[1] != ":delete"@[1]);
    assert(manager_permissions()[17].take(6)[0] != "users:"@[0]);
    assert(manager_permissions()[17].take(6)[0] != "roles:"@[0]);
    assert(manager_permissions()[18].subrange(13, 20)[0] != ":delete"@[0]);
    assert(manager_permissions()[18].take(6)[0] != "users:"@[0]);
    assert(manager_permissions()[18].take(6)[0] != "roles:"@[0]);
    assert(manager_permissions()[19].subrange(15, 22)[1] != ":delete"@[1]);
    assert(manager_permissions()[19].take(6)[0] != "users:"@[0]);
    assert(manager_permissions()[19].take(6)[0] != "roles:"@[0]);
    assert(manager_permissions()[20].subrange(15, 22)[1] != ":delete"@[1]);
    assert(manager_permissions()[20].take(6)[0] != "users:"@[0]);
    assert(manager_permissions()[20].take(6)[0] != "roles:"@[0]);
    assert(manager_permissions()[21].subrange(1, 8)[0] != ":delete"@[0]);
    assert(manager_permissions()[21].take(6)[0] != "users:"@[0]);
    assert(manager_permissions()[21].take(6)[0] != "roles:"@[0]);
    assert(manager_permissions()[22].subrange(3, 10)[1] != ":delete"@[1]);
    assert(manager_permissions()[22].take(6)[0] != "users:"@[0]);
    assert(manager_permissions()[22].take(6)[0] != "roles:"@[0]);
    assert(manager_permissions()[23].subrange(3, 10)[1] != ":delete"@[1]);
    assert(manager_permissions()[23].take(6)[0] != "users:"@[0]);
    assert(manager_permissions()[23].take(6)[0] != "roles:"@[0]);
    assert(manager_permissions()[24].subrange(8, 15)[0] != ":delete"@[0]);
    assert(manager_permissions()[24].take(6)[0] != "users:"@[0]);
    assert(manager_permissions()[24].take(6)[0] != "roles:"@[0]);
    assert(manager_permissions()[25].subrange(10, 17)[1] != ":delete"@[1]);
    assert(manager_permissions()[25].take(6)[0] != "users:"@[0]);
    assert(manager_permissions()[25].take(6)[0] != "roles:"@[0]);
    assert(manager_permissions()[26].subrange(10, 17)[1] != ":delete"@[1]);
    assert(manager_permissions()[26].take(6)[0] != "users:"@[0]);
    assert(manager_permissions()[26].take(6)[0] != "roles:"@[0]);
    assert(manager_permissions()[27].subrange(7, 14)[0] != ":delete"@[0]);
    assert(manager_permissions()[27].take(6)[0] != "users:"@[0]);
    assert(manager_permissions()[27].take(6)[0] != "roles:"@[0]);
    assert(manager_permissions()[28].subrange(9, 16)[1] != ":delete"@[1]);
    assert(manager_permissions()[28].take(6)[0] != "users:"@[0]);
    assert(manager_permissions()[28].take(6)[0] != "roles:"@[0]);
    assert(manager_permissions()[29].subrange(9, 16)[1] != ":delete"@[1]);
    assert(manager_permissions()[29].take(6)[0] != "users:"@[0]);
    assert(manager_permissions()[29].take(6)[0] != "roles:"@[0]);
    assert(manager_permissions()[30].subrange(6, 13)[0] != ":delete"@[0]);
    assert(manager_permissions()[30].take(6)[0] != "users:"@[0]);
    assert(manager_permissions()[30].take(6)[0] != "roles:"@[0]);
    assert(manager_permissions()[31].subrange(8, 15)[1] != ":delete"@[1]);
    assert(manager_permissions()[31].take(6)[0] != "users:"@[0]);
    assert(manager_permissions()[31].take(6)[0] != "roles:"@[0]);
    assert(manager_permissions()[32].subrange(8, 15)[1] != ":delete"@[1]);
    assert(manager_permissions()[32].take(6)[0] != "users:"@[0]);
    assert(manager_permissions()[32].take(6)[0] != "roles:"@[0]);
    assert(manager_permissions()[33].subrange(8, 15)[0] != ":delete"@[0]);
    assert(manager_permissions()[33].take(6)[0] != "users:"@[0]);
    assert(manager_permissions()[33].take(6)[0] != "roles:"@[0]);
    assert(manager_permissions()[34].subrange(5, 12)[0] != ":delete"@[0]);
    assert(manager_permissions()[34].take(6)[0] != "users:"@[0]);
    assert(manager_permissions()[34].take(6)[1] != "roles:"@[1]);
    assert(manager_permissions()[35].subrange(7, 14)[0] != ":delete"@[0]);
    assert(manager_permissions()[35].take(6)[0] != "users:"@[0]);
    assert(manager_permissions()[35].take(6)[0] != "roles:"@[0]);
    assert(manager_permissions()[36].subrange(9, 16)[1] != ":delete"@[1]);
    assert(manager_permissions()[36].take(6)[0] != "users:"@[0]);
    assert(manager_permissions()[36].take(6)[0] != "roles:"@[0]);
    assert(manager_permissions()[37].subrange(6, 13)[0] != ":delete"@[0]);
    assert(manager_permissions()[37].take(6)[0] != "users:"@[0]);
    assert(manager_permissions()[37].take(6)[0] != "roles:"@[0]);
    assert(manager_permissions()[38].subrange(7, 14)[0] != ":delete"@[0]);
    assert(manager_permissions()[38].take(6)[0] != "users:"@[0]);
    assert(manager_permissions()[38].take(6)[0] != "roles:"@[0]);
    assert(manager_permissions()[39].subrange(10, 17)[0] != ":delete"@[0]);
    assert(manager_permissions()[39].take(6)[0] != "users:"@[0]);
    assert(manager_permissions()[39].take(6)[0] != "roles:"@[0]);
}

/// The permissions that a role grants.
#[derive(Clone, Debug)]
pub struct Permissions {
    pub role: String,
    pub permissions: Vec<String>,
}

impl Permissions {
    /// The permission names held.
    pub open spec fn granted(&self) -> Seq<Seq<char>> {
        names_of(self.permissions@)
    }

    /// The permissions of `role`: those of `admin`, `manager` or `viewer`, and none for
    /// any other role.
    pub fn new(role: &str) -> (r: Permissions)
        ensures
            r.role@ == role@,
            r.granted() == role_permissions(role@),
    {
        let permissions = if str_eq(role, "admin") {
            admin_list()
        } else if str_eq(role, "manager") {
            manager_list()
        } else if str_eq(role, "viewer") {
            viewer_list()
        } else {
            proof {
                assert(names_of(Seq::<String>::empty()) =~= Seq::<Seq<char>>::empty());
            }
            Vec::new()
        };
        Permissions { role: String::from_str(role), permissions }
    }

    /// Whether `permission` is granted.
    pub fn has(&self, permission: &str) -> (r: bool)
        ensures
            r == self.granted().contains(permission@),
    {
        let mut i: usize = 0;
        while i < self.permissions.len()
            invariant
                i <= self.permissions.len(),
                forall|j: int| 0 <= j < i ==> self.permissions@[j]@ != permission@,
            decreases self.permissions.len() - i,
        {
            if str_eq(self.permissions[i].as_str(), permission) {
                proof {
                    assert(self.granted()[i as int] == permission@);
                }
                return true;
            }
            i = i + 1;
        }
        proof {
            if self.granted().contains(permission@) {
                let k = choose|k: int| 0 <= k < self.granted().len() && self.granted()[k] == permission@;
                assert(self.permissions@[k]@ == permission@);
            }
        }
        false
    }

    /// Whether at least one of `perms` is granted.
    pub fn has_any(&self, perms: &[&str]) -> (r: bool)
        ensures
            r == exists|i: int| 0 <= i < perms@.len() && self.granted().contains(#[trigger] perms@[i]@),
    {
        let mut i: usize = 0;
        while i < perms.len()
            invariant
                i <= perms@.len(),
                forall|j: int| 0 <= j < i ==> !self.granted().contains(#[trigger] perms@[j]@),
            decreases perms@.len() - i,
        {
            if self.has(perms[i]) {
                return true;
            }
            i = i + 1;
        }
        false
    }

    /// Whether every one of `perms` is granted.
    pub fn has_all(&self, perms: &[&str]) -> (r: bool)
        ensures
            r == forall|i: int| 0 <= i < perms@.len() ==> self.granted().contains(#[trigger] perms@[i]@),
    {
        let mut i: usize = 0;
        while i < perms.len()
            invariant
                i <= perms@.len(),
                forall|j: int| 0 <= j < i ==> self.granted().contains(#[trigger] perms@[j]@),
            decreases perms@.len() - i,
        {
            if !self.has(perms[i]) {
                return false;
            }
            i = i + 1;
        }
        true
    }
}

/// The permissions of the signed-in user, which a change of role replaces.
pub struct RbacContext {
    pub permissions: Permissions,
}

impl RbacContext {
    /// The context of a user with `role`.
    pub fn new(role: &str) -> (r: RbacContext)
        ensures
            r.permissions.role@ == role@,
            r.permissions.granted() == role_permissions(role@),
    {
        RbacContext { permissions: Permissions::new(role) }
    }

    /// Whether the current role grants `permission`.
    pub fn has(&self, permission: &str) -> (r: bool)
        ensures
            r == self.permissions.granted().contains(permission@),
    {
        self.permissions.has(permission)
    }

    /// Switches to the permissions of `role`.
    pub fn set_role(&mut self, role: &str)
        ensures
            final(self).permissions.role@ == role@,
            final(self).permissions.granted() == role_permissions(role@),
    {
        self.permissions = Permissions::new(role);
    }
}

} // verus!
