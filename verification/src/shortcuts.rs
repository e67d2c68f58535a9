//! Keyboard shortcuts: the list shown in the help overlay, grouped by category, and when
//! the overlay opens and closes.

use vstd::prelude::*;
use crate::text::{distinct_in_order, names_of, str_eq};

verus! {

/// A keyboard shortcut: the keys, what they do, and the group it is listed under.
#[derive(Clone, Debug)]
pub struct Shortcut {
    pub keys: String,
    pub description: String,
    pub category: String,
}

/// Keys, description and category of a shortcut.
pub open spec fn shortcut_view(s: Shortcut) -> (Seq<char>, Seq<char>, Seq<char>) {
    (s.keys@, s.description@, s.category@)
}

/// The views of a list of shortcuts.
pub open spec fn shortcuts_view(v: Seq<Shortcut>) -> Seq<(Seq<char>, Seq<char>, Seq<char>)> {
    v.map_values(|s: Shortcut| shortcut_view(s))
}

/// A shortcut with the given fields.
fn shortcut(keys: &str, description: &str, category: &str) -> (r: Shortcut)
    ensures
        shortcut_view(r) == (keys@, description@, category@),
{
    Shortcut {
        keys: String::from_str(keys),
        description: String::from_str(description),
        category: String::from_str(category),
    }
}

/// The shortcuts of the application, as views.
pub open spec fn default_shortcuts_spec() -> Seq<(Seq<char>, Seq<char>, Seq<char>)> {
    seq![
        ("?"@, "Show keyboard shortcuts"@, "General"@),
        ("Ctrl+K"@, "Quick search"@, "General"@),
        ("/"@, "Focus search"@, "General"@),
        ("Ctrl+P"@, "Print current page"@, "Actions"@),
        ("Ctrl+S"@, "Save"@, "Actions"@),
        ("Escape"@, "Close modal / Go back"@, "Navigation"@),
        ("G then D"@, "Go to Dashboard"@, "Navigation"@),
        ("G then I"@, "Go to Inventory"@, "Navigation"@),
        ("G then S"@, "Go to Sales"@, "Navigation"@),
        ("G then P"@, "Go to Purchases"@, "Navigation"@),
        ("1-9"@, "Navigate sidebar sections"@, "Navigation"@),
    ]
}

/// The shortcuts of the application, in the order they are listed.
pub fn default_shortcuts() -> (r: Vec<Shortcut>)
    ensures
        shortcuts_view(r@) == default_shortcuts_spec(),
{
    let mut r: Vec<Shortcut> = Vec::new();
    r.push(shortcut("?", "Show keyboard shortcuts", "General"));
    r.push(shortcut("Ctrl+K", "Quick search", "General"));
    r.push(shortcut("/", "Focus search", "General"));
    r.push(shortcut("Ctrl+P", "Print current page", "Actions"));
    r.push(shortcut("Ctrl+S", "Save", "Actions"));
    r.push(shortcut("Escape", "Close modal / Go back", "Navigation"));
    r.push(shortcut("G then D", "Go to Dashboard", "Navigation"));
    r.push(shortcut("G then I", "Go to Inventory", "Navigation"));
    r.push(shortcut("G then S", "Go to Sales", "Navigation"));
    r.push(shortcut("G then P", "Go to Purchases", "Navigation"));
    r.push(shortcut("1-9", "Navigate sidebar sections", "Navigation"));
    proof {
        assert(shortcuts_view(r@) =~= default_shortcuts_spec());
    }
    r
}

/// The categories of the shortcuts.
pub open spec fn categories_of(v: Seq<Shortcut>) -> Seq<Seq<char>> {
    v.map_values(|s: Shortcut| s.category@)
}

/// The categories that have shortcuts, each once, in the order they first occur.
pub fn shortcut_categories(shortcuts: &Vec<Shortcut>) -> (r: Vec<String>)
    ensures
        names_of(r@) == distinct_in_order(categories_of(shortcuts@)),
{
    let mut cats: Vec<String> = Vec::new();
    let mut i: usize = 0;
    while i < shortcuts.len()
        invariant
            i <= shortcuts.len(),
            names_of(cats@) == distinct_in_order(categories_of(shortcuts@.take(i as int))),
        decreases shortcuts.len() - i,
    {
        let c = &shortcuts[i].category;
        proof {
            assert(categories_of(shortcuts@.take(i + 1)).drop_last() =~= categories_of(shortcuts@.take(i as int)));
            assert(categories_of(shortcuts@.take(i + 1)).last() == c@);
        }
        let mut seen = false;
        let mut k: usize = 0;
        while k < cats.len()
            invariant
                k <= cats.len(),
                seen <==> exists|m: int| 0 <= m < k && #[trigger] cats@[m]@ == c@,
            decreases cats.len() - k,
        {
            if str_eq(cats[k].as_str(), c.as_str()) {
                seen = true;
            }
            k = k + 1;
        }
        let ghost before = names_of(cats@);
        proof {
            if seen {
                let m = choose|m: int| 0 <= m < cats@.len() && #[trigger] cats@[m]@ == c@;
                assert(before[m] == c@);
            } else {
                assert forall|m: int| 0 <= m < before.len() implies before[m] != c@ by {
                    assert(before[m] == cats@[m]@);
                }
            }
        }
        if !seen {
            cats.push(c.clone());
            proof {
                assert(names_of(cats@) =~= before.push(c@));
            }
        }
        i = i + 1;
    }
    proof {
        assert(shortcuts@.take(shortcuts.len() as int) =~= shortcuts@);
    }
    cats
}

/// The shortcuts of category `category`, in order.
pub open spec fn in_category(v: Seq<Shortcut>, category: Seq<char>) -> Seq<(Seq<char>, Seq<char>, Seq<char>)>
    decreases v.len(),
{
    if v.len() == 0 {
        Seq::empty()
    } else if v.last().category@ == category {
        in_category(v.drop_last(), category).push(shortcut_view(v.last()))
    } else {
        in_category(v.drop_last(), category)
    }
}

/// The shortcuts listed under `category`, in order.
pub fn shortcuts_in(shortcuts: &Vec<Shortcut>, category: &str) -> (r: Vec<Shortcut>)
    ensures
        shortcuts_view(r@) == in_category(shortcuts@, category@),
{
    let mut r: Vec<Shortcut> = Vec::new();
    let mut i: usize = 0;
    while i < shortcuts.len()
        invariant
            i <= shortcuts.len(),
            shortcuts_view(r@) == in_category(shortcuts@.take(i as int), category@),
        decreases shortcuts.len() - i,
    {
        let s = &shortcuts[i];
        proof {
            assert(shortcuts@.take(i + 1).drop_last() =~= shortcuts@.take(i as int));
            assert(shortcuts@.take(i + 1).last() == *s);
        }
        if str_eq(s.category.as_str(), category) {
            let copy = Shortcut {
                keys: String::from_str(s.keys.as_str()),
                description: String::from_str(s.description.as_str()),
                category: String::from_str(s.category.as_str()),
            };
            let ghost old_r = r@;
            r.push(copy);
            proof {
                assert(shortcuts_view(r@) =~= shortcuts_view(old_r).push(shortcut_view(*s)));
            }
        }
        i = i + 1;
    }
    proof {
        assert(shortcuts@.take(shortcuts.len() as int) =~= shortcuts@);
    }
    r
}

/// A key press as the help overlay sees it.
#[derive(Clone, Debug)]
pub enum KeyPress {
    /// A key that types the given text.
    Character(String),
    /// The Escape key.
    Escape,
    /// Any other key.
    Other,
}

/// Whether the help overlay shows after `key` is pressed, given whether it showed before
/// and whether Ctrl or Meta was held: `?` or Ctrl+K opens it, Escape closes it.
pub open spec fn help_visible_after_spec(visible: bool, key: KeyPress, ctrl: bool) -> bool {
    if !visible {
        match key {
            KeyPress::Character(s) => s@ == "?"@ || (ctrl && s@ == "k"@),
            _ => false,
        }
    } else {
        match key {
            KeyPress::Escape => false,
            _ => true,
        }
    }
}

/// Whether the help overlay shows after a key press.
pub fn help_visible_after(visible: bool, key: &KeyPress, ctrl: bool) -> (r: bool)
    ensures
        r == help_visible_after_spec(visible, *key, ctrl),
{
    if !visible {
        match key {
            KeyPress::Character(s) => str_eq(s.as_str(), "?") || (ctrl && str_eq(s.as_str(), "k")),
            _ => false,
        }
    } else {
        match key {
            KeyPress::Escape => false,
            _ => true,
        }
    }
}

/// `?` always opens the hidden overlay and Escape always closes the open one.
pub proof fn law_help_open_close(question_mark: String, ctrl: bool)
    requires
        question_mark@ == "?"@,
    ensures
        help_visible_after_spec(false, KeyPress::Character(question_mark), ctrl),
        !help_visible_after_spec(true, KeyPress::Escape, ctrl),
{
}

/// Whether a key opens or closes the overlay from anywhere in the application shell:
/// `?` or Ctrl+K.
pub open spec fn is_help_key(key: KeyPress, ctrl: bool) -> bool {
    match key {
        KeyPress::Character(s) => s@ == "?"@ || (ctrl && s@ == "k"@),
        _ => false,
    }
}

/// Whether the help overlay shows after a key press in the application shell: `?` or
/// Ctrl+K switch it, Escape hides it, and other keys leave it as it is.
pub fn shell_help_after(visible: bool, key: &KeyPress, ctrl: bool) -> (r: bool)
    ensures
        is_help_key(*key, ctrl) ==> r == !visible,
        !is_help_key(*key, ctrl) && key is Escape ==> !r,
        !is_help_key(*key, ctrl) && !(key is Escape) ==> r == visible,
{
    let help = match key {
        KeyPress::Character(s) => str_eq(s.as_str(), "?") || (ctrl && str_eq(s.as_str(), "k")),
        _ => false,
    };
    if help {
        !visible
    } else {
        match key {
            KeyPress::Escape => false,
            _ => visible,
        }
    }
}


/// From the hidden state a key press opens the overlay exactly when it is `?` (with or
/// without Ctrl/Meta) or `k` with Ctrl/Meta held: every other character, `k` alone,
/// Escape and any other key leave it hidden. Once shown, only Escape hides it. From the
/// hidden state the overlay reacts to the same keys as the application shell's help key.
pub proof fn law_help_opening_keys(s: String, key: KeyPress, ctrl: bool)
    ensures
        s@ != "?"@ && s@ != "k"@ ==> !help_visible_after_spec(false, KeyPress::Character(s), ctrl),
        s@ == "k"@ ==> help_visible_after_spec(false, KeyPress::Character(s), ctrl) == ctrl,
        s@ == "?"@ ==> help_visible_after_spec(false, KeyPress::Character(s), ctrl),
        !help_visible_after_spec(false, KeyPress::Escape, ctrl),
        !help_visible_after_spec(false, KeyPress::Other, ctrl),
        help_visible_after_spec(true, key, ctrl) == !(key is Escape),
        help_visible_after_spec(false, key, ctrl) == is_help_key(key, ctrl),
{
    reveal_strlit("?");
    reveal_strlit("k");
    assert("?"@ != "k"@) by {
        assert("?"@[0] != "k"@[0]);
    }
}

} // verus!
