//! The menu bar, the submenu of each menu, and the pages that the shell shows.

use vstd::prelude::*;

use crate::text::same_text;

verus! {

/// The kinds of page that the shell renders.
#[derive(Debug, Clone, Copy, PartialEq, Eq, Structural)]
pub enum Page {
    /// The welcome page with the selected file.
    Main,
    /// The choice of interface language.
    LanguageSettings,
    /// A page that is not available yet.
    ComingSoon,
}

/// The keys of the menu bar, left to right.
pub open spec fn menu_keys_spec() -> Seq<Seq<char>> {
    seq![
        "problem-bank-management"@,
        "generate-exam-paper"@,
        "student-list-management"@,
        "learning"@,
        "settings"@,
        "information"@,
    ]
}

/// The items of the submenu of `menu`, top to bottom; a menu that is not on
/// the bar has a single placeholder item.
pub open spec fn submenu_spec(menu: Seq<char>) -> Seq<Seq<char>> {
    if menu == "problem-bank-management"@ {
        seq!["create-new-problem-bank"@, "load"@, "edit"@, "export"@, "export-as"@, "optimize"@]
    } else if menu == "generate-exam-paper"@ {
        seq!["load-problem-bank"@, "criteria-for-problem-extraction"@, "load-student-list"@, "export-exam-paper"@]
    } else if menu == "student-list-management"@ {
        seq!["load"@, "edit"@, "export"@, "export-as"@]
    } else if menu == "learning"@ {
        seq!["load-problem-bank"@, "criteria-for-problem-extraction"@, "grading-criteria"@, "take-exam"@]
    } else if menu == "settings"@ {
        seq!["storage-path"@, "atmosphere"@, "font"@, "language"@]
    } else if menu == "information"@ {
        seq!["help"@, "software-info"@, "copyright-info"@]
    } else {
        seq!["coming-soon"@]
    }
}

/// The page that a page key shows; unknown keys show the placeholder.
pub open spec fn page_spec(key: Seq<char>) -> Page {
    if key == "main"@ {
        Page::Main
    } else if key == "language-settings"@ {
        Page::LanguageSettings
    } else {
        Page::ComingSoon
    }
}

/// The characters of each string of `v`.
pub open spec fn texts(v: Seq<String>) -> Seq<Seq<char>> {
    v.map_values(|s: String| s@)
}

/// Owned copies of `items`, in order.
fn owned_all(items: Vec<&str>) -> (r: Vec<String>)
    ensures
        texts(r@) == items@.map_values(|s: &str| s@),
{
    let mut r: Vec<String> = Vec::new();
    let mut i: usize = 0;
    while i < items.len()
        invariant
            i <= items@.len(),
            texts(r@) == items@.take(i as int).map_values(|s: &str| s@),
        decreases items@.len() - i,
    {
        let ghost before = r@;
        let item = String::from_str(items[i]);
        r.push(item);
        assert(texts(r@) =~= texts(before).push(items@[i as int]@));
        assert(items@.take(i + 1) =~= items@.take(i as int).push(items@[i as int]));
        assert(items@.take(i + 1).map_values(|s: &str| s@) =~= items@.take(i as int).map_values(
            |s: &str| s@,
        ).push(items@[i as int]@));
        i = i + 1;
    }
    assert(items@.take(i as int) =~= items@);
    r
}

/// The keys of the menu bar, left to right.
pub fn menu_keys() -> (r: Vec<String>)
    ensures
        texts(r@) == menu_keys_spec(),
{
    let r = owned_all(vec![
        "problem-bank-management",
        "generate-exam-paper",
        "student-list-management",
        "learning",
        "settings",
        "information",
    ]);
    assert(texts(r@) =~= menu_keys_spec());
    r
}

/// The items of the submenu of `menu_key`, top to bottom.
pub fn submenu_items(menu_key: &str) -> (r: Vec<String>)
    ensures
        texts(r@) == submenu_spec(menu_key@),
{
    let items = if same_text(menu_key, "problem-bank-management") {
        vec!["create-new-problem-bank", "load", "edit", "export", "export-as", "optimize"]
    } else if same_text(menu_key, "generate-exam-paper") {
        vec!["load-problem-bank", "criteria-for-problem-extraction", "load-student-list", "export-exam-paper"]
    } else if same_text(menu_key, "student-list-management") {
        vec!["load", "edit", "export", "export-as"]
    } else if same_text(menu_key, "learning") {
        vec!["load-problem-bank", "criteria-for-problem-extraction", "grading-criteria", "take-exam"]
    } else if same_text(menu_key, "settings") {
        vec!["storage-path", "atmosphere", "font", "language"]
    } else if same_text(menu_key, "information") {
        vec!["help", "software-info", "copyright-info"]
    } else {
        vec!["coming-soon"]
    };
    let r = owned_all(items);
    assert(texts(r@) =~= submenu_spec(menu_key@));
    r
}

/// The page that `page_key` shows.
pub fn page_kind(page_key: &str) -> (r: Page)
    ensures
        r == page_spec(page_key@),
{
    if same_text(page_key, "main") {
        Page::Main
    } else if same_text(page_key, "language-settings") {
        Page::LanguageSettings
    } else {
        Page::ComingSoon
    }
}

} // verus!
