use qrate_gui::locales::{language_name, strip_all_suffix_exec};
use qrate_gui::menus::{menu_keys, page_kind, submenu_items, Page};
use qrate_gui::text::{contains_text, ends_with_text, same_text};

#[test]
fn menu_bar_keys() {
    assert_eq!(
        menu_keys(),
        vec![
            "problem-bank-management",
            "generate-exam-paper",
            "student-list-management",
            "learning",
            "settings",
            "information"
        ]
    );
}

#[test]
fn submenus() {
    assert_eq!(submenu_items("settings"), vec!["storage-path", "atmosphere", "font", "language"]);
    assert_eq!(submenu_items("information"), vec!["help", "software-info", "copyright-info"]);
    assert_eq!(submenu_items("student-list-management"), vec!["load", "edit", "export", "export-as"]);
    assert_eq!(submenu_items("problem-bank-management").len(), 6);
    assert_eq!(submenu_items("generate-exam-paper")[0], "load-problem-bank");
    assert_eq!(submenu_items("learning")[3], "take-exam");
    assert_eq!(submenu_items("unknown"), vec!["coming-soon"]);
    assert_eq!(submenu_items(""), vec!["coming-soon"]);
}

#[test]
fn page_kinds() {
    assert_eq!(page_kind("main"), Page::Main);
    assert_eq!(page_kind("language-settings"), Page::LanguageSettings);
    assert_eq!(page_kind("Main"), Page::ComingSoon);
    assert_eq!(page_kind(""), Page::ComingSoon);
}

#[test]
fn language_names() {
    assert_eq!(language_name("en"), "English");
    assert_eq!(language_name("ko"), "한국어");
    assert_eq!(language_name("ru"), "Русский");
    assert_eq!(language_name("de"), "de");
}

#[test]
fn strip_suffix_repeatedly() {
    assert_eq!(strip_all_suffix_exec("ko.yml", ".yml"), "ko");
    assert_eq!(strip_all_suffix_exec("a.yml.yml", ".yml"), "a");
    assert_eq!(strip_all_suffix_exec("a.yml.txt", ".yml"), "a.yml.txt");
    assert_eq!(strip_all_suffix_exec(".yml", ".yml"), "");
    assert_eq!(strip_all_suffix_exec("abc", ""), "abc");
}

#[test]
fn text_helpers() {
    assert!(same_text("한글", "한글"));
    assert!(!same_text("a", "ab"));
    assert!(contains_text("dir/bank.qb.xlsx", ".qb.xlsx"));
    assert!(contains_text("x.qb.xlsx.d/y", ".qb.xlsx"));
    assert!(!contains_text("bank.xlsx", ".qb.xlsx"));
    assert!(contains_text("abc", ""));
    assert!(!contains_text("", "a"));
    assert!(ends_with_text("ko.yml", ".yml"));
    assert!(!ends_with_text("yml", ".yml"));
    assert!(ends_with_text("", ""));
}
