use mini_erp::shortcuts::{default_shortcuts, help_visible_after, shortcut_categories, shortcuts_in, KeyPress};

#[test]
fn shortcuts_and_groups() {
    let all = default_shortcuts();
    assert_eq!(all.len(), 11);
    assert_eq!(all[1].keys, "Ctrl+K");
    let cats = shortcut_categories(&all);
    assert_eq!(cats, vec!["General".to_string(), "Actions".to_string(), "Navigation".to_string()]);
    let mut total = 0;
    for c in &cats {
        let group = shortcuts_in(&all, c);
        assert!(group.iter().all(|s| &s.category == c));
        total += group.len();
    }
    assert_eq!(total, all.len());
    assert_eq!(shortcuts_in(&all, "Actions")[1].description, "Save");
}

#[test]
fn help_overlay_keys() {
    assert!(help_visible_after(false, &KeyPress::Character("?".to_string()), false));
    assert!(help_visible_after(false, &KeyPress::Character("k".to_string()), true));
    assert!(!help_visible_after(false, &KeyPress::Character("k".to_string()), false));
    assert!(!help_visible_after(false, &KeyPress::Escape, false));
    assert!(!help_visible_after(true, &KeyPress::Escape, false));
    assert!(help_visible_after(true, &KeyPress::Other, true));
}
