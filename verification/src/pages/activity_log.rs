//! The activity log: entries made from the server's log records, the module and action
//! filters, and the choices of the module filter.

use vstd::prelude::*;
use crate::text::{chars_of, names_of, sorted_distinct, str_eq, strictly_sorted};

verus! {

/// An entry of the activity log.
#[derive(Clone, Debug)]
pub struct ActivityEntry {
    pub id: i64,
    pub timestamp: String,
    pub user: String,
    pub action: String,
    pub module: String,
    pub description: String,
    pub ip_address: String,
}

/// The text of an optional value; empty where there is none.
pub open spec fn or_empty(v: Option<String>) -> Seq<char> {
    match v {
        Some(s) => s@,
        None => Seq::empty(),
    }
}

/// A copy of an optional text, empty where there is none.
fn text_or_empty(v: &Option<String>) -> (r: String)
    ensures
        r@ == or_empty(*v),
{
    match v {
        Some(s) => String::from_str(s.as_str()),
        None => String::new(),
    }
}

/// The log entry of a server record: the user, details and address are empty where the
/// record has none, and the module is the kind of record acted on.
pub fn entry_from_log(
    id: i64,
    created_at: &str,
    username: &Option<String>,
    action: &str,
    entity_type: &str,
    metadata: &Option<String>,
    ip_address: &Option<String>,
) -> (r: ActivityEntry)
    ensures
        r.id == id,
        r.timestamp@ == created_at@,
        r.user@ == or_empty(*username),
        r.action@ == action@,
        r.module@ == entity_type@,
        r.description@ == or_empty(*metadata),
        r.ip_address@ == or_empty(*ip_address),
{
    ActivityEntry {
        id,
        timestamp: String::from_str(created_at),
        user: text_or_empty(username),
        action: String::from_str(action),
        module: String::from_str(entity_type),
        description: text_or_empty(metadata),
        ip_address: text_or_empty(ip_address),
    }
}

/// An entry passes the filters when each filter is empty or equal to its field.
pub open spec fn passes(e: ActivityEntry, module_filter: Seq<char>, action_filter: Seq<char>) -> bool {
    (module_filter.len() == 0 || e.module@ == module_filter) && (action_filter.len() == 0 || e.action@ == action_filter)
}

/// Every field of an entry: id, timestamp, user, action, module, description, address.
pub open spec fn entry_view(e: ActivityEntry) -> (i64, Seq<char>, Seq<char>, Seq<char>, Seq<char>, Seq<char>, Seq<char>) {
    (e.id, e.timestamp@, e.user@, e.action@, e.module@, e.description@, e.ip_address@)
}

/// The entries that pass the filters, in order, field by field.
pub open spec fn passing(
    es: Seq<ActivityEntry>,
    module_filter: Seq<char>,
    action_filter: Seq<char>,
) -> Seq<(i64, Seq<char>, Seq<char>, Seq<char>, Seq<char>, Seq<char>, Seq<char>)>
    decreases es.len(),
{
    if es.len() == 0 {
        Seq::empty()
    } else if passes(es.last(), module_filter, action_filter) {
        passing(es.drop_last(), module_filter, action_filter).push(entry_view(es.last()))
    } else {
        passing(es.drop_last(), module_filter, action_filter)
    }
}

/// The entries that pass the module and action filters, in order; an empty filter lets
/// every entry through.
pub fn filter_entries(entries: &Vec<ActivityEntry>, module_filter: &str, action_filter: &str) -> (r: Vec<ActivityEntry>)
    ensures
        r@.map_values(|e: ActivityEntry| entry_view(e)) == passing(entries@, module_filter@, action_filter@),
{
    let no_module = chars_of(module_filter).len() == 0;
    let no_action = chars_of(action_filter).len() == 0;
    let mut r: Vec<ActivityEntry> = Vec::new();
    let mut i: usize = 0;
    while i < entries.len()
        invariant
            i <= entries.len(),
            no_module == (module_filter@.len() == 0),
            no_action == (action_filter@.len() == 0),
            r@.map_values(|e: ActivityEntry| entry_view(e)) == passing(entries@.take(i as int), module_filter@, action_filter@),
        decreases entries.len() - i,
    {
        let e = &entries[i];
        proof {
            assert(entries@.take(i + 1).drop_last() =~= entries@.take(i as int));
            assert(entries@.take(i + 1).last() == *e);
        }
        let module_ok = no_module || str_eq(e.module.as_str(), module_filter);
        let action_ok = no_action || str_eq(e.action.as_str(), action_filter);
        if module_ok && action_ok {
            let copy = ActivityEntry {
                id: e.id,
                timestamp: String::from_str(e.timestamp.as_str()),
                user: String::from_str(e.user.as_str()),
                action: String::from_str(e.action.as_str()),
                module: String::from_str(e.module.as_str()),
                description: String::from_str(e.description.as_str()),
                ip_address: String::from_str(e.ip_address.as_str()),
            };
            let ghost old_r = r@;
            r.push(copy);
            proof {
                assert(entry_view(copy) == entry_view(*e));
                assert(r@.map_values(|e: ActivityEntry| entry_view(e)) =~= old_r.map_values(
                    |e: ActivityEntry| entry_view(e),
                ).push(entry_view(*e)));
            }
        }
        i = i + 1;
    }
    proof {
        assert(entries@.take(entries.len() as int) =~= entries@);
    }
    r
}

/// The modules of the entries.
pub open spec fn modules_of(es: Seq<ActivityEntry>) -> Seq<Seq<char>> {
    es.map_values(|e: ActivityEntry| e.module@)
}

/// The choices of the module filter: the modules that occur in the log, sorted, each once.
pub fn module_options(entries: &Vec<ActivityEntry>) -> (r: Vec<String>)
    ensures
        strictly_sorted(names_of(r@)),
        names_of(r@).to_set() == modules_of(entries@).to_set(),
{
    let mut modules: Vec<String> = Vec::new();
    let mut i: usize = 0;
    while i < entries.len()
        invariant
            i <= entries.len(),
            names_of(modules@) == modules_of(entries@.take(i as int)),
        decreases entries.len() - i,
    {
        let ghost old_m = modules@;
        modules.push(String::from_str(entries[i].module.as_str()));
        i = i + 1;
        proof {
            assert(entries@.take(i as int) =~= entries@.take(i - 1).push(entries@[i - 1]));
            assert(names_of(modules@) =~= names_of(old_m).push(entries@[i - 1].module@));
            assert(names_of(modules@) =~= modules_of(entries@.take(i as int)));
        }
    }
    proof {
        assert(entries@.take(entries.len() as int) =~= entries@);
    }
    sorted_distinct(&modules)
}

/// The choices of the action filter.
pub fn action_options() -> (r: Vec<&'static str>)
    ensures
        r@.map_values(|a: &'static str| a@) == seq!["Create"@, "Update"@, "Delete"@, "Login"@],
{
    let mut r: Vec<&'static str> = Vec::new();
    r.push("Create");
    r.push("Update");
    r.push("Delete");
    r.push("Login");
    proof {
        assert(r@.map_values(|a: &'static str| a@) =~= seq!["Create"@, "Update"@, "Delete"@, "Login"@]);
    }
    r
}

/// Filtering keeps, in order, the entries whose module and action match the filters that
/// are not empty: every kept entry matches them, every matching entry is kept, and with
/// both filters empty every entry is kept.
pub proof fn law_filter_keeps_matching(es: Seq<ActivityEntry>, module_filter: Seq<char>, action_filter: Seq<char>)
    ensures
        passing(es, module_filter, action_filter).len() <= es.len(),
        forall|k: int|
            0 <= k < passing(es, module_filter, action_filter).len() ==> {
                let e = #[trigger] passing(es, module_filter, action_filter)[k];
                &&& module_filter.len() == 0 || e.4 == module_filter
                &&& action_filter.len() == 0 || e.3 == action_filter
            },
        forall|i: int|
            0 <= i < es.len() && (module_filter.len() == 0 || es[i].module@ == module_filter) && (
            action_filter.len() == 0 || es[i].action@ == action_filter) ==> passing(
                es,
                module_filter,
                action_filter,
            ).contains(entry_view(#[trigger] es[i])),
        module_filter.len() == 0 && action_filter.len() == 0 ==> passing(es, module_filter, action_filter)
            == es.map_values(|e: ActivityEntry| entry_view(e)),
    decreases es.len(),
{
    if es.len() > 0 {
        let rest = es.drop_last();
        law_filter_keeps_matching(rest, module_filter, action_filter);
        let pr = passing(rest, module_filter, action_filter);
        let p = passing(es, module_filter, action_filter);
        let l = es.last();
        assert forall|k: int| 0 <= k < p.len() implies {
            let e = #[trigger] p[k];
            &&& module_filter.len() == 0 || e.4 == module_filter
            &&& action_filter.len() == 0 || e.3 == action_filter
        } by {
            if k < pr.len() {
                assert(p[k] == pr[k]);
            }
        }
        assert forall|i: int|
            0 <= i < es.len() && (module_filter.len() == 0 || es[i].module@ == module_filter) && (
            action_filter.len() == 0 || es[i].action@ == action_filter) implies p.contains(
            entry_view(#[trigger] es[i]),
        ) by {
            if i < rest.len() {
                assert(es[i] == rest[i]);
                let k = choose|k: int| 0 <= k < pr.len() && pr[k] == entry_view(rest[i]);
                assert(p[k] == pr[k]);
            } else {
                assert(es[i] == l);
                assert(p[pr.len() as int] == entry_view(l));
            }
        }
        if module_filter.len() == 0 && action_filter.len() == 0 {
            assert(rest.map_values(|e: ActivityEntry| entry_view(e)).push(entry_view(l)) =~= es.map_values(
                |e: ActivityEntry| entry_view(e),
            ));
        }
    } else {
        assert(es.map_values(|e: ActivityEntry| entry_view(e)) =~= Seq::<
            (i64, Seq<char>, Seq<char>, Seq<char>, Seq<char>, Seq<char>, Seq<char>),
        >::empty());
    }
}

} // verus!
