//! Dashboard: the icon and color of each activity, how a timestamp is shown, and the
//! class and label of each stock-alert severity.

use vstd::prelude::*;
use crate::text::{
    before_first, chars_before, chars_of, contains_chars, has_substring, lowercase_of, push_all,
    string_of, to_lowercase,
};

verus! {

/// Whether `s` contains the literal text `pat`.
fn has(s: &Vec<char>, pat: &str) -> (r: bool)
    ensures
        r == has_substring(s@, pat@),
{
    let p = chars_of(pat);
    contains_chars(s, &p)
}

/// Icon and background color of an activity whose action, in lowercase, is `a`: chosen
/// by the first of these words that it contains.
pub open spec fn icon_for_lowered_spec(a: Seq<char>) -> (Seq<char>, Seq<char>) {
    if has_substring(a, "create"@) {
        ("🧾"@, "#e8f0fe"@)
    } else if has_substring(a, "invoice"@) {
        ("🧾"@, "#e8f0fe"@)
    } else if has_substring(a, "payment"@) || has_substring(a, "receive"@) {
        ("💰"@, "#f0f0ff"@)
    } else if has_substring(a, "purchase"@) || has_substring(a, "receipt"@) {
        ("📥"@, "#e8f8f0"@)
    } else if has_substring(a, "customer"@) {
        ("👤"@, "#fff8e8"@)
    } else if has_substring(a, "production"@) || has_substring(a, "manufacture"@) {
        ("⚙"@, "#f8f0ff"@)
    } else if has_substring(a, "login"@) {
        ("🔑"@, "#e8f8f0"@)
    } else {
        ("📋"@, "#f0f2f5"@)
    }
}

/// Icon and background color of an activity whose action, already in lowercase, is `lowered`.
pub fn icon_for_lowered(lowered: &str) -> (r: (&'static str, &'static str))
    ensures
        (r.0@, r.1@) == icon_for_lowered_spec(lowered@),
{
    let a = chars_of(lowered);
    if has(&a, "create") {
        ("🧾", "#e8f0fe")
    } else if has(&a, "invoice") {
        ("🧾", "#e8f0fe")
    } else if has(&a, "payment") || has(&a, "receive") {
        ("💰", "#f0f0ff")
    } else if has(&a, "purchase") || has(&a, "receipt") {
        ("📥", "#e8f8f0")
    } else if has(&a, "customer") {
        ("👤", "#fff8e8")
    } else if has(&a, "production") || has(&a, "manufacture") {
        ("⚙", "#f8f0ff")
    } else if has(&a, "login") {
        ("🔑", "#e8f8f0")
    } else {
        ("📋", "#f0f2f5")
    }
}

/// Icon and background color of an activity with the given action, matched without
/// regard to case.
pub fn activity_icon_for(action: &str) -> (r: (&'static str, &'static str))
    ensures
        (r.0@, r.1@) == icon_for_lowered_spec(lowercase_of(action@)),
{
    let lowered = to_lowercase(action);
    icon_for_lowered(lowered.as_str())
}

/// How a timestamp is shown: `Unknown` when there is none, its date part (before `T`)
/// otherwise.
pub open spec fn relative_time_spec(iso: Seq<char>) -> Seq<char> {
    if iso.len() == 0 {
        "Unknown"@
    } else {
        before_first(iso, 'T')
    }
}

/// How a timestamp in ISO form is shown on the dashboard.
pub fn relative_time(iso_str: &str) -> (r: String)
    ensures
        r@ == relative_time_spec(iso_str@),
{
    let chars = chars_of(iso_str);
    if chars.len() == 0 {
        return String::from_str("Unknown");
    }
    let date = chars_before(&chars, 'T');
    string_of(&date)
}

/// How urgent a low-stock alert is.
#[derive(Clone, Copy, Debug, PartialEq, Eq, Structural)]
pub enum Severity {
    Critical,
    Warning,
    Info,
}

/// The class of the dot shown beside an alert.
pub fn severity_class(severity: &Severity) -> (r: &'static str)
    ensures
        *severity == Severity::Critical ==> r@ == "dashboard-alert-dot-critical"@,
        *severity == Severity::Warning ==> r@ == "dashboard-alert-dot-warning"@,
        *severity == Severity::Info ==> r@ == "dashboard-alert-dot-info"@,
{
    match severity {
        Severity::Critical => "dashboard-alert-dot-critical",
        Severity::Warning => "dashboard-alert-dot-warning",
        Severity::Info => "dashboard-alert-dot-info",
    }
}

/// The label of an alert's severity.
pub fn severity_label(severity: &Severity) -> (r: &'static str)
    ensures
        *severity == Severity::Critical ==> r@ == "Out of Stock"@,
        *severity == Severity::Warning ==> r@ == "Critically Low"@,
        *severity == Severity::Info ==> r@ == "Below Reorder"@,
{
    match severity {
        Severity::Critical => "Out of Stock",
        Severity::Warning => "Critically Low",
        Severity::Info => "Below Reorder",
    }
}

/// The date shown in the dashboard's greeting.
pub fn today_formatted() -> (r: String)
    ensures
        r@ == "June 26, 2026"@,
{
    String::from_str("June 26, 2026")
}

/// The line shown for an activity: who did what to which kind of record, and the details
/// where there are any; an activity without a user is shown as done by `System`.
pub open spec fn activity_text_spec(
    username: Option<Seq<char>>,
    action: Seq<char>,
    entity: Seq<char>,
    metadata: Option<Seq<char>>,
) -> Seq<char> {
    let user = match username {
        Some(u) => u,
        None => "System"@,
    };
    let meta = match metadata {
        Some(m) => m,
        None => Seq::empty(),
    };
    let head = "<strong>"@ + user + "</strong> "@ + action + " <strong>"@ + entity + "</strong>"@;
    if meta.len() == 0 {
        head
    } else {
        head + " — "@ + meta
    }
}

/// The line shown on the dashboard for an activity-log entry.
pub fn activity_text(
    username: &Option<String>,
    action: &str,
    entity: &str,
    metadata: &Option<String>,
) -> (r: String)
    ensures
        r@ == activity_text_spec(
            match username { Some(u) => Some(u@), None => None },
            action@,
            entity@,
            match metadata { Some(m) => Some(m@), None => None },
        ),
{
    let user: Vec<char> = match username {
        Some(u) => chars_of(u.as_str()),
        None => chars_of("System"),
    };
    let meta: Vec<char> = match metadata {
        Some(m) => chars_of(m.as_str()),
        None => Vec::new(),
    };
    let mut v = chars_of("<strong>");
    push_all(&mut v, &user);
    push_all(&mut v, &chars_of("</strong> "));
    push_all(&mut v, &chars_of(action));
    push_all(&mut v, &chars_of(" <strong>"));
    push_all(&mut v, &chars_of(entity));
    push_all(&mut v, &chars_of("</strong>"));
    if meta.len() > 0 {
        push_all(&mut v, &chars_of(" — "));
        push_all(&mut v, &meta);
    }
    string_of(&v)
}

/// What the dashboard reads of an activity-log record.
#[derive(Clone, Debug)]
pub struct LogRecord {
    pub action: String,
    pub username: Option<String>,
    pub entity_type: String,
    pub metadata: Option<String>,
    pub created_at: String,
}

/// An entry of the dashboard's recent-activity list.
#[derive(Clone, Debug)]
pub struct ActivityItem {
    pub icon: String,
    pub icon_bg: String,
    pub text: String,
    pub time: String,
}

/// The text of an optional value, as an optional character sequence.
pub open spec fn opt_view(v: Option<String>) -> Option<Seq<char>> {
    match v {
        Some(s) => Some(s@),
        None => None,
    }
}

/// Icon, background, text and time of the entry shown for a log record.
pub open spec fn activity_item_spec(l: LogRecord) -> (Seq<char>, Seq<char>, Seq<char>, Seq<char>) {
    let icon = icon_for_lowered_spec(lowercase_of(l.action@));
    (
        icon.0,
        icon.1,
        activity_text_spec(opt_view(l.username), l.action@, l.entity_type@, opt_view(l.metadata)),
        relative_time_spec(l.created_at@),
    )
}

/// The view of an entry.
pub open spec fn item_view(a: ActivityItem) -> (Seq<char>, Seq<char>, Seq<char>, Seq<char>) {
    (a.icon@, a.icon_bg@, a.text@, a.time@)
}

/// The recent-activity list of the dashboard: an entry for each of the first five log
/// records, in order.
pub fn recent_activity(logs: &Vec<LogRecord>) -> (r: Vec<ActivityItem>)
    ensures
        r@.len() == (if logs@.len() < 5 { logs@.len() } else { 5 }),
        forall|k: int| 0 <= k < r@.len() ==> item_view(#[trigger] r@[k]) == activity_item_spec(logs@[k]),
{
    let n: usize = if logs.len() < 5 { logs.len() } else { 5 };
    let mut r: Vec<ActivityItem> = Vec::new();
    let mut i: usize = 0;
    while i < n
        invariant
            n <= logs.len(),
            n == (if logs@.len() < 5 { logs@.len() } else { 5 }),
            i <= n,
            r@.len() == i,
            forall|k: int| 0 <= k < i ==> item_view(#[trigger] r@[k]) == activity_item_spec(logs@[k]),
        decreases n - i,
    {
        let l = &logs[i];
        let (icon, bg) = activity_icon_for(l.action.as_str());
        let text = activity_text(&l.username, l.action.as_str(), l.entity_type.as_str(), &l.metadata);
        let time = relative_time(l.created_at.as_str());
        let item = ActivityItem { icon: String::from_str(icon), icon_bg: String::from_str(bg), text, time };
        proof {
            assert(opt_view(l.username) == (match l.username { Some(u) => Some(u@), None => None }));
            assert(opt_view(l.metadata) == (match l.metadata { Some(m) => Some(m@), None => None }));
            assert(item_view(item) == activity_item_spec(*l));
        }
        r.push(item);
        i = i + 1;
    }
    r
}

/// The icon of an activity follows the first matching word of its lowercase action, in
/// this order of precedence: `create` or `invoice` give the receipt icon, `payment` or
/// `receive` the money icon, `purchase` or `receipt` the inbox icon, `customer` the person,
/// `production` or `manufacture` the gear, `login` the key; an action with none of these
/// words gets the clipboard.
pub proof fn law_activity_icons(a: Seq<char>)
    ensures
        has_substring(a, "create"@) || has_substring(a, "invoice"@) ==> icon_for_lowered_spec(a) == (
            "🧾"@,
            "#e8f0fe"@,
        ),
        !has_substring(a, "create"@) && !has_substring(a, "invoice"@) && (has_substring(a, "payment"@)
            || has_substring(a, "receive"@)) ==> icon_for_lowered_spec(a) == ("💰"@, "#f0f0ff"@),
        !has_substring(a, "create"@) && !has_substring(a, "invoice"@) && !has_substring(a, "payment"@)
            && !has_substring(a, "receive"@) && (has_substring(a, "purchase"@) || has_substring(
            a,
            "receipt"@,
        )) ==> icon_for_lowered_spec(a) == ("📥"@, "#e8f8f0"@),
        !has_substring(a, "create"@) && !has_substring(a, "invoice"@) && !has_substring(a, "payment"@)
            && !has_substring(a, "receive"@) && !has_substring(a, "purchase"@) && !has_substring(
            a,
            "receipt"@,
        ) && has_substring(a, "customer"@) ==> icon_for_lowered_spec(a) == ("👤"@, "#fff8e8"@),
        !has_substring(a, "create"@) && !has_substring(a, "invoice"@) && !has_substring(a, "payment"@)
            && !has_substring(a, "receive"@) && !has_substring(a, "purchase"@) && !has_substring(
            a,
            "receipt"@,
        ) && !has_substring(a, "customer"@) && (has_substring(a, "production"@) || has_substring(
            a,
            "manufacture"@,
        )) ==> icon_for_lowered_spec(a) == ("⚙"@, "#f8f0ff"@),
        !has_substring(a, "create"@) && !has_substring(a, "invoice"@) && !has_substring(a, "payment"@)
            && !has_substring(a, "receive"@) && !has_substring(a, "purchase"@) && !has_substring(
            a,
            "receipt"@,
        ) && !has_substring(a, "customer"@) && !has_substring(a, "production"@) && !has_substring(
            a,
            "manufacture"@,
        ) && has_substring(a, "login"@) ==> icon_for_lowered_spec(a) == ("🔑"@, "#e8f8f0"@),
        !has_substring(a, "create"@) && !has_substring(a, "invoice"@) && !has_substring(a, "payment"@)
            && !has_substring(a, "receive"@) && !has_substring(a, "purchase"@) && !has_substring(
            a,
            "receipt"@,
        ) && !has_substring(a, "customer"@) && !has_substring(a, "production"@) && !has_substring(
            a,
            "manufacture"@,
        ) && !has_substring(a, "login"@) ==> icon_for_lowered_spec(a) == ("📋"@, "#f0f2f5"@),
{
}

/// A timestamp is shown as `Unknown` when empty, and otherwise as its longest start
/// without a `T`: a prefix of the timestamp, followed in it by `T` unless it is all of it.
pub proof fn law_relative_time(iso: Seq<char>)
    ensures
        iso.len() == 0 ==> relative_time_spec(iso) == "Unknown"@,
        iso.len() > 0 ==> relative_time_spec(iso) == iso.take(relative_time_spec(iso).len() as int),
        iso.len() > 0 ==> forall|k: int|
            0 <= k < relative_time_spec(iso).len() ==> #[trigger] relative_time_spec(iso)[k] != 'T',
        iso.len() > 0 ==> relative_time_spec(iso).len() == iso.len() || iso[relative_time_spec(
            iso,
        ).len() as int] == 'T',
{
    crate::text::law_before_first(iso, 'T');
}

/// An activity line names the user in bold, then the action, then the kind of record in
/// bold; an activity without a user reads as done by `System`, and details, where there
/// are any, follow after a dash, while empty details add nothing.
pub proof fn law_activity_text(user: Seq<char>, action: Seq<char>, entity: Seq<char>, details: Seq<char>)
    ensures
        activity_text_spec(Some(user), action, entity, None) == "<strong>"@ + user + "</strong> "@ + action
            + " <strong>"@ + entity + "</strong>"@,
        activity_text_spec(None, action, entity, None) == activity_text_spec(
            Some("System"@),
            action,
            entity,
            None,
        ),
        activity_text_spec(Some(user), action, entity, Some(Seq::<char>::empty())) == activity_text_spec(
            Some(user),
            action,
            entity,
            None,
        ),
        details.len() > 0 ==> activity_text_spec(Some(user), action, entity, Some(details))
            == activity_text_spec(Some(user), action, entity, None) + " — "@ + details,
{
}

} // verus!
