//! The application state of the shell and its transition function: each
//! message changes a few fields and may ask the event loop for a follow-up.

use vstd::prelude::*;
use qrate::{QBank, SBank};

use crate::load_file::ResultLoadFile;
use crate::locales::{
    available_locales_spec, language_name, language_name_spec, locale_code, strip_all_suffix_exec,
};
use crate::menus::{page_kind, page_spec, texts, Page};
use crate::text::{ends_with_text, same_text};

verus! {

/// Relies on `qrate::SBank`, a student bank, carried through as an opaque value.
#[verifier::external_type_specification]
#[verifier::external_body]
pub struct ExSBank(SBank);

/// Relies on `qrate::QBank::new_empty` to make the bank that the shell starts
/// with; nothing is stated of it.
pub assume_specification[ QBank::new_empty ]() -> QBank;

/// Relies on `qrate::SBank::new` to make the student bank that the shell
/// starts with; nothing is stated of it.
pub assume_specification[ SBank::new ]() -> SBank;

/// Relies on `rust_i18n::set_locale` to make `locale` the process-wide locale
/// of the string lookup; it changes no value that the library holds.
pub assume_specification[ rust_i18n::set_locale ](locale: &str);

/// The messages that drive the state of the shell.
#[derive(Debug, Clone)]
pub enum Message {
    /// A top-level menu was clicked: it opens, or closes if it was open.
    MenuClicked(String),
    /// An item of the open submenu was clicked.
    SubMenuClicked(String),
    /// A file was picked: it is loaded.
    FileSelected(String),
    /// The interface language was chosen.
    SetLocale(String),
    /// A page was chosen.
    GoToPage(String),
    /// A load that was asked for has finished.
    QBankLoaded(ResultLoadFile),
}

/// What the event loop is asked to do after a message was handled.
#[derive(Debug, Clone, PartialEq, Eq)]
pub enum Effect {
    /// Nothing more.
    Nothing,
    /// Let the user pick a question bank file, then send `FileSelected`.
    PickFile,
    /// Load the bank at this path, then send `QBankLoaded`.
    LoadFile(String),
    /// Send `GoToPage` with this page.
    GoToPage(String),
}

/// The model of an `Effect`.
pub enum EffectView {
    Nothing,
    PickFile,
    LoadFile(Seq<char>),
    GoToPage(Seq<char>),
}

impl View for Effect {
    type V = EffectView;

    open spec fn view(&self) -> EffectView {
        match self {
            Effect::Nothing => EffectView::Nothing,
            Effect::PickFile => EffectView::PickFile,
            Effect::LoadFile(p) => EffectView::LoadFile(p@),
            Effect::GoToPage(p) => EffectView::GoToPage(p@),
        }
    }
}

/// The state of the shell: the banks in use, the selected file, the open
/// menu (none where `menu_key` is empty), the page shown, the locale, and the
/// failure of the last load, if it failed.
pub struct ControlTower {
    qbank: QBank,
    sbank: SBank,
    selected_file_path: String,
    current_menu_key: String,
    current_locale: String,
    current_page: String,
    load_failure: Option<ResultLoadFile>,
}

/// The model of a `ControlTower`.
pub struct TowerView {
    pub qbank: QBank,
    pub sbank: SBank,
    pub selected_file_path: Seq<char>,
    pub menu_key: Seq<char>,
    pub locale: Seq<char>,
    pub page: Seq<char>,
    pub load_failure: Option<ResultLoadFile>,
}

impl View for ControlTower {
    type V = TowerView;

    closed spec fn view(&self) -> TowerView {
        TowerView {
            qbank: self.qbank,
            sbank: self.sbank,
            selected_file_path: self.selected_file_path@,
            menu_key: self.current_menu_key@,
            locale: self.current_locale@,
            page: self.current_page@,
            load_failure: self.load_failure,
        }
    }
}

/// The locale that the shell starts with.
pub open spec fn fallback_locale() -> Seq<char> {
    "en"@
}

/// The page that the shell starts with.
pub open spec fn main_page() -> Seq<char> {
    "main"@
}

/// The page where the interface language is chosen.
pub open spec fn language_page() -> Seq<char> {
    "language-settings"@
}

/// The open menu after a click on menu `key`: a click on the open menu
/// closes it, a click on any other opens that one.
pub open spec fn menu_after_click(current: Seq<char>, key: Seq<char>) -> Seq<char> {
    if current == key {
        Seq::empty()
    } else {
        key
    }
}

/// The submenu items that ask for a question bank file.
pub open spec fn is_load_trigger(item: Seq<char>) -> bool {
    item == "load"@ || item == "load-problem-bank"@
}

/// The submenu item that leads to the language page.
pub open spec fn leads_to_language_page(menu: Seq<char>, item: Seq<char>) -> bool {
    menu == "settings"@ && item == "language"@
}

/// The state after `m` is handled in state `v`.
pub open spec fn transition(v: TowerView, m: Message) -> TowerView {
    match m {
        Message::MenuClicked(key) => TowerView { menu_key: menu_after_click(v.menu_key, key@), ..v },
        Message::SubMenuClicked(item) => {
            if is_load_trigger(item@) {
                v
            } else {
                TowerView { menu_key: Seq::empty(), ..v }
            }
        },
        Message::FileSelected(path) => TowerView { selected_file_path: path@, menu_key: Seq::empty(), ..v },
        Message::SetLocale(locale) => TowerView { locale: locale@, ..v },
        Message::GoToPage(page) => TowerView { page: page@, ..v },
        Message::QBankLoaded(result) => match result {
            ResultLoadFile::Success(q) => TowerView { qbank: q, load_failure: None, ..v },
            _ => TowerView { load_failure: Some(result), ..v },
        },
    }
}

/// The follow-up that handling `m` in state `v` asks for.
pub open spec fn followup(v: TowerView, m: Message) -> EffectView {
    match m {
        Message::SubMenuClicked(item) => {
            if is_load_trigger(item@) {
                EffectView::PickFile
            } else if leads_to_language_page(v.menu_key, item@) {
                EffectView::GoToPage(language_page())
            } else {
                EffectView::Nothing
            }
        },
        Message::FileSelected(path) => EffectView::LoadFile(path@),
        _ => EffectView::Nothing,
    }
}

/// The language name and locale code of each pair of `v`.
pub open spec fn pair_texts(v: Seq<(String, String)>) -> Seq<(Seq<char>, Seq<char>)> {
    v.map_values(|p: (String, String)| (p.0@, p.1@))
}

/// A click on the menu that is open closes it, and a second click on the
/// same menu opens it again.
pub proof fn lemma_menu_click_toggles(v: TowerView, key: String)
    requires
        v.menu_key == key@,
        key@.len() > 0,
    ensures
        transition(v, Message::MenuClicked(key)).menu_key.len() == 0,
        transition(transition(v, Message::MenuClicked(key)), Message::MenuClicked(key)).menu_key
            == key@,
{
}

/// Choosing a page leaves the open menu as it was.
pub proof fn lemma_page_change_keeps_menu(v: TowerView, page: String)
    ensures
        transition(v, Message::GoToPage(page)).menu_key == v.menu_key,
        transition(v, Message::GoToPage(page)).page == page@,
{
}

/// The locale that was set is the locale that is read back, until another
/// is set; choosing a page or a menu does not change it.
pub proof fn lemma_locale_round_trip(v: TowerView, locale: String, next: Message)
    requires
        !(next is SetLocale),
    ensures
        transition(v, Message::SetLocale(locale)).locale == locale@,
        transition(transition(v, Message::SetLocale(locale)), next).locale == locale@,
{
}

impl ControlTower {
    /// A shell with empty banks, no file, no open menu, the main page and the
    /// fallback locale, which it also makes the locale of the string lookup.
    pub fn new() -> (r: ControlTower)
        ensures
            r@.selected_file_path.len() == 0,
            r@.menu_key.len() == 0,
            r@.locale == fallback_locale(),
            r@.page == main_page(),
            r@.load_failure is None,
    {
        rust_i18n::set_locale("en");
        ControlTower {
            qbank: QBank::new_empty(),
            sbank: SBank::new(),
            selected_file_path: String::new(),
            current_menu_key: String::new(),
            current_locale: String::from_str("en"),
            current_page: String::from_str("main"),
            load_failure: None,
        }
    }

    /// The question bank in use.
    pub fn get_qbank(&self) -> (r: &QBank)
        ensures
            *r == self@.qbank,
    {
        &self.qbank
    }

    /// Replaces the question bank in use.
    pub fn set_qbank(&mut self, qbank: QBank)
        ensures
            final(self)@ == (TowerView { qbank: qbank, ..old(self)@ }),
    {
        self.qbank = qbank;
    }

    /// The student bank in use.
    pub fn get_sbank(&self) -> (r: &SBank)
        ensures
            *r == self@.sbank,
    {
        &self.sbank
    }

    /// Replaces the student bank in use.
    pub fn set_sbank(&mut self, sbank: SBank)
        ensures
            final(self)@ == (TowerView { sbank: sbank, ..old(self)@ }),
    {
        self.sbank = sbank;
    }

    /// The path of the file that was selected last; empty if none was.
    pub fn get_selected_file_path(&self) -> (r: &str)
        ensures
            r@ == self@.selected_file_path,
    {
        self.selected_file_path.as_str()
    }

    /// Sets the path of the selected file.
    pub fn set_selected_file_path(&mut self, path: String)
        ensures
            final(self)@ == (TowerView { selected_file_path: path@, ..old(self)@ }),
    {
        self.selected_file_path = path;
    }

    /// The key of the open menu; empty if no menu is open.
    pub fn get_current_menu_key(&self) -> (r: &str)
        ensures
            r@ == self@.menu_key,
    {
        self.current_menu_key.as_str()
    }

    /// Sets the key of the open menu; an empty key closes it.
    pub fn set_current_menu_key(&mut self, key: String)
        ensures
            final(self)@ == (TowerView { menu_key: key@, ..old(self)@ }),
    {
        self.current_menu_key = key;
    }

    /// The current locale.
    pub fn get_current_locale(&self) -> (r: &str)
        ensures
            r@ == self@.locale,
    {
        self.current_locale.as_str()
    }

    /// Sets the current locale field, without touching the string lookup.
    pub fn set_current_locale(&mut self, locale: String)
        ensures
            final(self)@ == (TowerView { locale: locale@, ..old(self)@ }),
    {
        self.current_locale = locale;
    }

    /// The key of the page shown.
    pub fn get_current_page(&self) -> (r: &str)
        ensures
            r@ == self@.page,
    {
        self.current_page.as_str()
    }

    /// Sets the key of the page shown.
    pub fn set_current_page(&mut self, page: String)
        ensures
            final(self)@ == (TowerView { page: page@, ..old(self)@ }),
    {
        self.current_page = page;
    }

    /// How the last load failed; `None` if it succeeded or none was made.
    pub fn get_load_failure(&self) -> (r: &Option<ResultLoadFile>)
        ensures
            *r == self@.load_failure,
    {
        &self.load_failure
    }

    /// The kind of the page shown.
    pub fn get_page_kind(&self) -> (r: Page)
        ensures
            r == page_spec(self@.page),
    {
        page_kind(self.current_page.as_str())
    }

    /// The languages that the locale files `file_names` offer, in their
    /// order: for each name that ends in `.yml`, the language's name and the
    /// locale code, which is the name without its trailing `.yml`s.
    pub fn get_available_locales(file_names: &Vec<String>) -> (r: Vec<(String, String)>)
        ensures
            pair_texts(r@) == available_locales_spec(texts(file_names@)),
    {
        let mut locales: Vec<(String, String)> = Vec::new();
        let mut i: usize = 0;
        while i < file_names.len()
            invariant
                i <= file_names@.len(),
                pair_texts(locales@) == available_locales_spec(texts(file_names@).take(i as int)),
            decreases file_names@.len() - i,
        {
            let name = file_names[i].as_str();
            let ghost names = texts(file_names@).take(i + 1);
            assert(names.drop_last() =~= texts(file_names@).take(i as int));
            assert(names.last() == name@);
            if ends_with_text(name, ".yml") {
                let code = strip_all_suffix_exec(name, ".yml");
                let language = language_name(code.as_str());
                let ghost before = locales@;
                locales.push((language, code));
                assert(pair_texts(locales@) =~= pair_texts(before).push(
                    (language_name_spec(locale_code(name@)), locale_code(name@)),
                ));
            }
            i = i + 1;
        }
        assert(texts(file_names@).take(i as int) =~= texts(file_names@));
        locales
    }

    /// Handles `message` and returns the follow-up that it asks for.
    pub fn update(&mut self, message: Message) -> (r: Effect)
        ensures
            final(self)@ == transition(old(self)@, message),
            r@ == followup(old(self)@, message),
    {
        match message {
            Message::MenuClicked(menu_key) => {
                if self.current_menu_key.eq(&menu_key) {
                    self.current_menu_key = String::new();
                } else {
                    self.current_menu_key = menu_key;
                }
                Effect::Nothing
            },
            Message::SubMenuClicked(item_key) => {
                if same_text(item_key.as_str(), "load") || same_text(item_key.as_str(), "load-problem-bank") {
                    return Effect::PickFile;
                }
                let to_language = same_text(self.current_menu_key.as_str(), "settings")
                    && same_text(item_key.as_str(), "language");
                self.current_menu_key = String::new();
                if to_language {
                    Effect::GoToPage(String::from_str("language-settings"))
                } else {
                    Effect::Nothing
                }
            },
            Message::FileSelected(path) => {
                self.current_menu_key = String::new();
                let requested = path.clone();
                self.selected_file_path = path;
                Effect::LoadFile(requested)
            },
            Message::SetLocale(locale) => {
                rust_i18n::set_locale(locale.as_str());
                self.current_locale = locale;
                Effect::Nothing
            },
            Message::GoToPage(page_name) => {
                self.current_page = page_name;
                Effect::Nothing
            },
            Message::QBankLoaded(result) => {
                match result {
                    ResultLoadFile::Success(qbank) => {
                        self.qbank = qbank;
                        self.load_failure = None;
                    },
                    failure => {
                        self.load_failure = Some(failure);
                    },
                }
                Effect::Nothing
            },
        }
    }
}

} // verus!
