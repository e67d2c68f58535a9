//! Employees: the department and designation choices, the badges of employment types and statuses, the checks of the employee form and the summary above the list.

use vstd::prelude::*;
use crate::text::{
    count_equal, count_neither, count_unequal, distinct_in_order, lemma_distinct_in_order,
    lemma_equal_unequal, lemma_three_way,
    char_vecs_view, chars_of, is_blank, all_white_space, joined, push_all, split_words, str_eq, string_of, words,
};
use crate::pages::select::{options_view, select_option, SelectOption};

verus! {

/// The values and labels of the department of a new employee.
pub open spec fn department_options_spec() -> Seq<(Seq<char>, Seq<char>)> {
    seq![
        ("Sales"@, "Sales"@),
        ("Purchasing"@, "Purchasing"@),
        ("Warehouse"@, "Warehouse"@),
        ("Manufacturing"@, "Manufacturing"@),
        ("Admin"@, "Admin"@),
        ("Finance"@, "Finance"@),
    ]
}

/// The choices of the department of a new employee.
pub fn department_options() -> (r: Vec<SelectOption>)
    ensures
        options_view(r@) == department_options_spec(),
{
    let mut r: Vec<SelectOption> = Vec::new();
    r.push(select_option("Sales", "Sales"));
    r.push(select_option("Purchasing", "Purchasing"));
    r.push(select_option("Warehouse", "Warehouse"));
    r.push(select_option("Manufacturing", "Manufacturing"));
    r.push(select_option("Admin", "Admin"));
    r.push(select_option("Finance", "Finance"));
    proof {
        assert(options_view(r@) =~= department_options_spec());
    }
    r
}

/// The values and labels of the designation of a new employee.
pub open spec fn designation_options_spec() -> Seq<(Seq<char>, Seq<char>)> {
    seq![
        ("Sales Manager"@, "Sales Manager"@),
        ("Sales Representative"@, "Sales Representative"@),
        ("Sales Trainee"@, "Sales Trainee"@),
        ("Chief Accountant"@, "Chief Accountant"@),
        ("Accounts Clerk"@, "Accounts Clerk"@),
        ("Tax Specialist"@, "Tax Specialist"@),
        ("Procurement Officer"@, "Procurement Officer"@),
        ("Buyer"@, "Buyer"@),
        ("Production Supervisor"@, "Production Supervisor"@),
        ("Machine Operator"@, "Machine Operator"@),
        ("Quality Inspector"@, "Quality Inspector"@),
        ("Warehouse Manager"@, "Warehouse Manager"@),
        ("Store Keeper"@, "Store Keeper"@),
        ("HR Assistant"@, "HR Assistant"@),
        ("Office Assistant"@, "Office Assistant"@),
    ]
}

/// The choices of the designation of a new employee.
pub fn designation_options() -> (r: Vec<SelectOption>)
    ensures
        options_view(r@) == designation_options_spec(),
{
    let mut r: Vec<SelectOption> = Vec::new();
    r.push(select_option("Sales Manager", "Sales Manager"));
    r.push(select_option("Sales Representative", "Sales Representative"));
    r.push(select_option("Sales Trainee", "Sales Trainee"));
    r.push(select_option("Chief Accountant", "Chief Accountant"));
    r.push(select_option("Accounts Clerk", "Accounts Clerk"));
    r.push(select_option("Tax Specialist", "Tax Specialist"));
    r.push(select_option("Procurement Officer", "Procurement Officer"));
    r.push(select_option("Buyer", "Buyer"));
    r.push(select_option("Production Supervisor", "Production Supervisor"));
    r.push(select_option("Machine Operator", "Machine Operator"));
    r.push(select_option("Quality Inspector", "Quality Inspector"));
    r.push(select_option("Warehouse Manager", "Warehouse Manager"));
    r.push(select_option("Store Keeper", "Store Keeper"));
    r.push(select_option("HR Assistant", "HR Assistant"));
    r.push(select_option("Office Assistant", "Office Assistant"));
    proof {
        assert(options_view(r@) =~= designation_options_spec());
    }
    r
}

/// The values and labels of the department when an employee is edited.
pub open spec fn departments_spec() -> Seq<(Seq<char>, Seq<char>)> {
    seq![
        ("Management"@, "Management"@),
        ("Sales"@, "Sales"@),
        ("Accounts"@, "Accounts"@),
        ("Procurement"@, "Procurement"@),
        ("Production"@, "Production"@),
        ("Warehouse"@, "Warehouse"@),
        ("HR"@, "HR"@),
        ("IT"@, "IT"@),
    ]
}

/// The choices of the department when an employee is edited.
pub fn departments() -> (r: Vec<SelectOption>)
    ensures
        options_view(r@) == departments_spec(),
{
    let mut r: Vec<SelectOption> = Vec::new();
    r.push(select_option("Management", "Management"));
    r.push(select_option("Sales", "Sales"));
    r.push(select_option("Accounts", "Accounts"));
    r.push(select_option("Procurement", "Procurement"));
    r.push(select_option("Production", "Production"));
    r.push(select_option("Warehouse", "Warehouse"));
    r.push(select_option("HR", "HR"));
    r.push(select_option("IT", "IT"));
    proof {
        assert(options_view(r@) =~= departments_spec());
    }
    r
}

/// The values and labels of the designation when an employee is edited.
pub open spec fn designations_spec() -> Seq<(Seq<char>, Seq<char>)> {
    seq![
        ("Manager"@, "Manager"@),
        ("Supervisor"@, "Supervisor"@),
        ("Sales Representative"@, "Sales Representative"@),
        ("Accountant"@, "Accountant"@),
        ("Procurement Officer"@, "Procurement Officer"@),
        ("Production Supervisor"@, "Production Supervisor"@),
        ("Machine Operator"@, "Machine Operator"@),
        ("Warehouse Manager"@, "Warehouse Manager"@),
        ("Store Keeper"@, "Store Keeper"@),
        ("HR Assistant"@, "HR Assistant"@),
    ]
}

/// The choices of the designation when an employee is edited.
pub fn designations() -> (r: Vec<SelectOption>)
    ensures
        options_view(r@) == designations_spec(),
{
    let mut r: Vec<SelectOption> = Vec::new();
    r.push(select_option("Manager", "Manager"));
    r.push(select_option("Supervisor", "Supervisor"));
    r.push(select_option("Sales Representative", "Sales Representative"));
    r.push(select_option("Accountant", "Accountant"));
    r.push(select_option("Procurement Officer", "Procurement Officer"));
    r.push(select_option("Production Supervisor", "Production Supervisor"));
    r.push(select_option("Machine Operator", "Machine Operator"));
    r.push(select_option("Warehouse Manager", "Warehouse Manager"));
    r.push(select_option("Store Keeper", "Store Keeper"));
    r.push(select_option("HR Assistant", "HR Assistant"));
    proof {
        assert(options_view(r@) =~= designations_spec());
    }
    r
}

/// The badge class of an employment type: blue for permanent, yellow for contract, gray otherwise.
pub open spec fn type_badge_class_of(employment_type: Seq<char>) -> Seq<char> {
    if employment_type == "Permanent"@ {
        "customer-table-badge-blue"@
    } else if employment_type == "Contract"@ {
        "customer-table-badge-yellow"@
    } else if employment_type == "Intern"@ {
        "customer-table-badge-gray"@
    } else {
        "customer-table-badge-gray"@
    }
}

/// The badge class of an employment type.
pub fn type_badge_class(employment_type: &str) -> (r: &'static str)
    ensures
        r@ == type_badge_class_of(employment_type@),
{
    if str_eq(employment_type, "Permanent") {
        "customer-table-badge-blue"
    } else if str_eq(employment_type, "Contract") {
        "customer-table-badge-yellow"
    } else if str_eq(employment_type, "Intern") {
        "customer-table-badge-gray"
    } else {
        "customer-table-badge-gray"
    }
}

/// The class of an employee status: active, or inactive for anything else.
pub open spec fn status_class_of(status: Seq<char>) -> Seq<char> {
    if status == "Active"@ {
        "emp-status-active"@
    } else {
        "emp-status-inactive"@
    }
}

/// The class of an employee status.
pub fn status_class(status: &str) -> (r: &'static str)
    ensures
        r@ == status_class_of(status@),
{
    if str_eq(status, "Active") {
        "emp-status-active"
    } else {
        "emp-status-inactive"
    }
}

/// An employee as the list shows it.
#[derive(Clone, Debug)]
pub struct Employee {
    pub id: i64,
    pub employee_code: String,
    pub full_name: String,
    pub email: String,
    pub phone: String,
    pub department: String,
    pub designation: String,
    pub employment_type: String,
    pub status: String,
    pub join_date: String,
}

/// `Active` or `Inactive`, as an employee's flag says.
pub open spec fn status_text(is_active: bool) -> Seq<char> {
    if is_active {
        "Active"@
    } else {
        "Inactive"@
    }
}

/// The list entry of an employee record: the full name is the first and last name with a
/// space between them, and the status follows the active flag.
pub fn employee_from_record(
    id: i64,
    employee_code: &str,
    first_name: &str,
    last_name: &str,
    email: &str,
    phone: &str,
    department: &str,
    designation: &str,
    employment_type: &str,
    is_active: bool,
    created_at: &str,
) -> (r: Employee)
    ensures
        r.id == id,
        r.employee_code@ == employee_code@,
        r.full_name@ == first_name@ + seq![' '] + last_name@,
        r.email@ == email@,
        r.phone@ == phone@,
        r.department@ == department@,
        r.designation@ == designation@,
        r.employment_type@ == employment_type@,
        r.status@ == status_text(is_active),
        r.join_date@ == created_at@,
{
    let mut name: Vec<char> = chars_of(first_name);
    name.push(' ');
    let last = chars_of(last_name);
    push_all(&mut name, &last);
    let status = if is_active {
        String::from_str("Active")
    } else {
        String::from_str("Inactive")
    };
    Employee {
        id,
        employee_code: String::from_str(employee_code),
        full_name: string_of(&name),
        email: String::from_str(email),
        phone: String::from_str(phone),
        department: String::from_str(department),
        designation: String::from_str(designation),
        employment_type: String::from_str(employment_type),
        status,
        join_date: String::from_str(created_at),
    }
}

/// The statuses of the employees, in order.
pub open spec fn statuses(es: Seq<Employee>) -> Seq<Seq<char>> {
    es.map_values(|e: Employee| e.status@)
}

/// The employment types of the employees, in order.
pub open spec fn employment_types(es: Seq<Employee>) -> Seq<Seq<char>> {
    es.map_values(|e: Employee| e.employment_type@)
}

/// The departments of the employees, in order.
pub open spec fn departments_of(es: Seq<Employee>) -> Seq<Seq<char>> {
    es.map_values(|e: Employee| e.department@)
}

/// The figures shown above the employee list.
pub struct EmployeeSummary {
    pub total: usize,
    pub active: usize,
    pub inactive: usize,
    pub permanent: usize,
    pub contract: usize,
    pub intern: usize,
    pub departments: Vec<String>,
}

/// Counts the active and inactive employees, the permanent, contract and other employees,
/// and lists the departments in the order they first occur.
pub fn compute_summary(employees: &Vec<Employee>) -> (r: EmployeeSummary)
    ensures
        r.total == employees@.len(),
        r.active == count_equal(statuses(employees@), "Active"@),
        r.inactive == count_unequal(statuses(employees@), "Active"@),
        r.permanent == count_equal(employment_types(employees@), "Permanent"@),
        r.contract == count_equal(employment_types(employees@), "Contract"@),
        r.intern == count_neither(employment_types(employees@), "Permanent"@, "Contract"@),
        crate::text::names_of(r.departments@) == distinct_in_order(departments_of(employees@)),
{
    let mut active: usize = 0;
    let mut inactive: usize = 0;
    let mut permanent: usize = 0;
    let mut contract: usize = 0;
    let mut intern: usize = 0;
    let mut depts: Vec<String> = Vec::new();
    let mut i: usize = 0;
    while i < employees.len()
        invariant
            i <= employees.len(),
            active == count_equal(statuses(employees@.take(i as int)), "Active"@),
            inactive == count_unequal(statuses(employees@.take(i as int)), "Active"@),
            permanent == count_equal(employment_types(employees@.take(i as int)), "Permanent"@),
            contract == count_equal(employment_types(employees@.take(i as int)), "Contract"@),
            intern == count_neither(employment_types(employees@.take(i as int)), "Permanent"@, "Contract"@),
            crate::text::names_of(depts@) == distinct_in_order(departments_of(employees@.take(i as int))),
            active + inactive == i,
            permanent + contract + intern == i,
        decreases employees.len() - i,
    {
        let e = &employees[i];
        let ghost prev = employees@.take(i as int);
        let ghost next = employees@.take(i + 1);
        proof {
            assert(next.drop_last() =~= prev);
            assert(statuses(next).drop_last() =~= statuses(prev));
            assert(employment_types(next).drop_last() =~= employment_types(prev));
            assert(departments_of(next).drop_last() =~= departments_of(prev));
            assert(statuses(next).last() == e.status@);
            assert(employment_types(next).last() == e.employment_type@);
            assert(departments_of(next).last() == e.department@);
        }
        proof {
            reveal_strlit("Permanent");
            reveal_strlit("Contract");
            assert("Permanent"@.len() != "Contract"@.len());
        }
        if str_eq(e.status.as_str(), "Active") {
            active = active + 1;
        } else {
            inactive = inactive + 1;
        }
        if str_eq(e.employment_type.as_str(), "Permanent") {
            permanent = permanent + 1;
        } else if str_eq(e.employment_type.as_str(), "Contract") {
            contract = contract + 1;
        } else {
            intern = intern + 1;
        }
        let mut seen = false;
        let mut k: usize = 0;
        while k < depts.len()
            invariant
                k <= depts.len(),
                seen <==> exists|m: int| 0 <= m < k && #[trigger] depts@[m]@ == e.department@,
            decreases depts.len() - k,
        {
            if str_eq(depts[k].as_str(), e.department.as_str()) {
                seen = true;
            }
            k = k + 1;
        }
        let ghost before = crate::text::names_of(depts@);
        proof {
            if seen {
                let m = choose|m: int| 0 <= m < depts@.len() && #[trigger] depts@[m]@ == e.department@;
                assert(before[m] == e.department@);
            } else {
                assert forall|m: int| 0 <= m < before.len() implies before[m] != e.department@ by {
                    assert(before[m] == depts@[m]@);
                }
            }
        }
        if !seen {
            depts.push(e.department.clone());
            proof {
                assert(crate::text::names_of(depts@) =~= before.push(e.department@));
            }
        }
        i = i + 1;
    }
    proof {
        assert(employees@.take(employees@.len() as int) =~= employees@);
    }
    EmployeeSummary {
        total: employees.len(),
        active,
        inactive,
        permanent,
        contract,
        intern,
        departments: depts,
    }
}

/// Every employee counts as active or inactive, and as permanent, contract or other; the
/// departments listed are those of the employees, each once.
pub proof fn law_summary_partitions(es: Seq<Employee>)
    ensures
        count_equal(statuses(es), "Active"@) + count_unequal(statuses(es), "Active"@) == es.len(),
        count_equal(employment_types(es), "Permanent"@) + count_equal(employment_types(es), "Contract"@)
            + count_neither(employment_types(es), "Permanent"@, "Contract"@) == es.len(),
        distinct_in_order(departments_of(es)).no_duplicates(),
        distinct_in_order(departments_of(es)).to_set() == departments_of(es).to_set(),
{
    lemma_equal_unequal(statuses(es), "Active"@);
    reveal_strlit("Permanent");
    reveal_strlit("Contract");
    assert("Permanent"@.len() != "Contract"@.len());
    lemma_three_way(employment_types(es), "Permanent"@, "Contract"@);
    lemma_distinct_in_order(departments_of(es));
}

/// The messages of the employee form's fields that are not filled in.
pub struct EmployeeFormErrors {
    pub name: Option<&'static str>,
    pub dept: Option<&'static str>,
    pub desig: Option<&'static str>,
}

impl EmployeeFormErrors {
    /// No field has a message.
    pub fn is_empty(&self) -> (r: bool)
        ensures
            r == (self.name is None && self.dept is None && self.desig is None),
    {
        self.name.is_none() && self.dept.is_none() && self.desig.is_none()
    }
}

/// Checks the employee form: the full name must hold more than white space, and a
/// department and a designation must be chosen.
pub fn validate_employee_form(full_name: &str, department: &str, designation: &str) -> (r: EmployeeFormErrors)
    ensures
        r.name is Some <==> all_white_space(full_name@),
        r.name is Some ==> r.name->0@ == "Full name is required."@,
        r.dept is Some <==> department@.len() == 0,
        r.dept is Some ==> r.dept->0@ == "Department is required."@,
        r.desig is Some <==> designation@.len() == 0,
        r.desig is Some ==> r.desig->0@ == "Designation is required."@,
{
    let name = if is_blank(full_name) { Some("Full name is required.") } else { None };
    let dept = if chars_of(department).len() == 0 { Some("Department is required.") } else { None };
    let desig = if chars_of(designation).len() == 0 { Some("Designation is required.") } else { None };
    EmployeeFormErrors { name, dept, desig }
}

/// The first word of a full name; empty when it has none.
pub open spec fn first_name_of(full: Seq<char>) -> Seq<char> {
    if words(full).len() > 0 {
        words(full)[0]
    } else {
        Seq::empty()
    }
}

/// The words after the first, joined with single spaces; the whole name where there are
/// none.
pub open spec fn last_name_of(full: Seq<char>) -> Seq<char> {
    let rest = if words(full).len() > 1 { joined(words(full).skip(1)) } else { Seq::empty() };
    if rest.len() == 0 {
        full
    } else {
        rest
    }
}

/// Splits a full name into the first and last name sent with a new employee.
pub fn split_full_name(full: &str) -> (r: (String, String))
    ensures
        r.0@ == first_name_of(full@),
        r.1@ == last_name_of(full@),
{
    let chars = chars_of(full);
    let ws = split_words(&chars);
    let ghost wv = char_vecs_view(ws@);
    let first: Vec<char> = if ws.len() > 0 {
        proof {
            assert(wv[0] == ws@[0]@);
        }
        ws[0].clone()
    } else {
        Vec::new()
    };
    let mut rest: Vec<char> = Vec::new();
    let mut k: usize = 1;
    while k < ws.len()
        invariant
            1 <= k,
            ws.len() >= 1 ==> k <= ws.len(),
            wv == char_vecs_view(ws@),
            ws.len() >= 1 ==> rest@ == joined(wv.subrange(1, k as int)),
            ws.len() < 1 ==> rest@.len() == 0,
        decreases ws.len() - k,
    {
        proof {
            assert(wv[k as int] == ws@[k as int]@);
            assert(wv.subrange(1, k + 1).drop_last() =~= wv.subrange(1, k as int));
            assert(wv.subrange(1, k + 1).last() == wv[k as int]);
        }
        if k > 1 {
            rest.push(' ');
        }
        let w = &ws[k];
        push_all(&mut rest, w);
        proof {
            if k == 1 {
                assert(wv.subrange(1, 1) =~= Seq::<Seq<char>>::empty());
                assert(rest@ =~= joined(wv.subrange(1, k + 1)));
            } else {
                assert(rest@ =~= joined(wv.subrange(1, k + 1)));
            }
        }
        k = k + 1;
    }
    proof {
        if ws.len() > 1 {
            assert(wv.subrange(1, ws.len() as int) =~= wv.skip(1));
        } else if ws.len() == 1 {
            assert(wv.subrange(1, 1) =~= Seq::<Seq<char>>::empty());
        }
    }
    let last = if rest.len() == 0 {
        String::from_str(full)
    } else {
        string_of(&rest)
    };
    (string_of(&first), last)
}

/// An employment type shows blue exactly when `Permanent`, yellow exactly when `Contract`, and gray otherwise.
pub proof fn law_type_badges(s: Seq<char>)
    ensures
        (type_badge_class_of(s) == "customer-table-badge-blue"@) == (s == "Permanent"@),
        (type_badge_class_of(s) == "customer-table-badge-yellow"@) == (s == "Contract"@),
        (type_badge_class_of(s) == "customer-table-badge-gray"@) == (s != "Permanent"@ && s != "Contract"@),
{
    reveal_strlit("Contract");
    reveal_strlit("Permanent");
    reveal_strlit("customer-table-badge-blue");
    reveal_strlit("customer-table-badge-gray");
    reveal_strlit("customer-table-badge-yellow");
    assert("Contract"@.len() == 8);
    assert("Permanent"@.len() == 9);
    assert("customer-table-badge-blue"@.len() == 25);
    assert("customer-table-badge-gray"@.len() == 25);
    assert("customer-table-badge-yellow"@.len() == 27);
    assert("customer-table-badge-blue"@[21] != "customer-table-badge-gray"@[21]);
}

/// An employee shows as active exactly when the status is `Active`.
pub proof fn law_employee_status_classes(s: Seq<char>)
    ensures
        (status_class_of(s) == "emp-status-active"@) == (s == "Active"@),
        (status_class_of(s) == "emp-status-inactive"@) == (s != "Active"@),
{
    reveal_strlit("Active");
    reveal_strlit("emp-status-active");
    reveal_strlit("emp-status-inactive");
    assert("Active"@.len() == 6);
    assert("emp-status-active"@.len() == 17);
    assert("emp-status-inactive"@.len() == 19);
}

} // verus!
