use mini_erp::i18n::{get_translations, lookup, t, toggle_lang, Lang};

#[test]
fn language_names_and_direction() {
    assert_eq!(Lang::En.code(), "en");
    assert_eq!(Lang::Ur.code(), "ur");
    assert_eq!(Lang::En.name(), "English");
    assert_eq!(Lang::Ur.name(), "اردو");
    assert!(!Lang::En.is_rtl());
    assert!(Lang::Ur.is_rtl());
}

#[test]
fn toggle_switches_and_comes_back() {
    assert_eq!(toggle_lang(Lang::En), Lang::Ur);
    assert_eq!(toggle_lang(Lang::Ur), Lang::En);
    assert_eq!(toggle_lang(toggle_lang(Lang::En)), Lang::En);
}

#[test]
fn translations_and_fallbacks() {
    assert_eq!(t("common", "save", Lang::En), "Save");
    assert_eq!(t("common", "save", Lang::Ur), "محفوظ کریں");
    assert_eq!(t("nav", "dashboard", Lang::Ur), "ڈیش بورڈ");
    assert_eq!(t("modules", "sales_crm", Lang::En), "Sales & CRM");
    assert_eq!(t("common", "no_such_key", Lang::En), "no_such_key");
    assert_eq!(t("no_such_category", "save", Lang::Ur), "save");
}

#[test]
fn table_sizes() {
    for lang in [Lang::En, Lang::Ur] {
        let tr = get_translations(lang);
        assert_eq!(tr.common.len(), 45);
        assert_eq!(tr.nav.len(), 33);
        assert_eq!(tr.actions.len(), 20);
        assert_eq!(tr.status.len(), 15);
        assert_eq!(tr.fields.len(), 31);
        assert_eq!(tr.messages.len(), 11);
        assert_eq!(tr.modules.len(), 10);
    }
}

#[test]
fn later_entries_win() {
    let table = vec![("a", "first"), ("b", "other"), ("a", "second")];
    assert_eq!(lookup(&table, "a"), Some("second"));
    assert_eq!(lookup(&table, "b"), Some("other"));
    assert_eq!(lookup(&table, "c"), None);
}

#[test]
fn every_english_key_has_an_urdu_entry() {
    let en = get_translations(Lang::En);
    let ur = get_translations(Lang::Ur);
    for (k, _) in &en.common {
        assert!(lookup(&ur.common, k).is_some());
    }
    for (k, _) in &en.nav {
        assert!(lookup(&ur.nav, k).is_some());
    }
}
