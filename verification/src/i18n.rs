//! The texts of the interface in the languages that the application speaks,
//! and the choice of one of them.

use crate::error::{RoStartError, RoStartErrorView};
use crate::text::{before_first, str_before_first, str_eq, text_of, texts};
use vstd::prelude::*;

verus! {

/// The application's title bar.
#[derive(Debug)]
pub struct AppTranslations {
    pub title: String,
    pub version: String,
}

/// `AppTranslations` with its texts as sequences of characters.
pub struct AppTranslationsView {
    pub title: Seq<char>,
    pub version: Seq<char>,
}

impl View for AppTranslations {
    type V = AppTranslationsView;

    open spec fn view(&self) -> AppTranslationsView {
        AppTranslationsView {
            title: self.title@,
            version: self.version@,
        }
    }
}

impl Clone for AppTranslations {
    fn clone(&self) -> (r: AppTranslations)
        ensures
            r@ == self@,
    {
        AppTranslations {
            title: self.title.clone(),
            version: self.version.clone(),
        }
    }
}

/// The entries of the sidebar.
#[derive(Debug)]
pub struct SidebarTranslations {
    pub welcome: String,
    pub home: String,
    pub update: String,
    pub drivers: String,
    pub software: String,
}

/// `SidebarTranslations` with its texts as sequences of characters.
pub struct SidebarTranslationsView {
    pub welcome: Seq<char>,
    pub home: Seq<char>,
    pub update: Seq<char>,
    pub drivers: Seq<char>,
    pub software: Seq<char>,
}

impl View for SidebarTranslations {
    type V = SidebarTranslationsView;

    open spec fn view(&self) -> SidebarTranslationsView {
        SidebarTranslationsView {
            welcome: self.welcome@,
            home: self.home@,
            update: self.update@,
            drivers: self.drivers@,
            software: self.software@,
        }
    }
}

impl Clone for SidebarTranslations {
    fn clone(&self) -> (r: SidebarTranslations)
        ensures
            r@ == self@,
    {
        SidebarTranslations {
            welcome: self.welcome.clone(),
            home: self.home.clone(),
            update: self.update.clone(),
            drivers: self.drivers.clone(),
            software: self.software.clone(),
        }
    }
}

/// The home page.
#[derive(Debug)]
pub struct HomeTranslations {
    pub title: String,
    pub description: String,
    pub website: String,
    pub docs: String,
    pub forum: String,
    pub github: String,
    pub links_title: String,
    pub autostart_label: String,
}

/// `HomeTranslations` with its texts as sequences of characters.
pub struct HomeTranslationsView {
    pub title: Seq<char>,
    pub description: Seq<char>,
    pub website: Seq<char>,
    pub docs: Seq<char>,
    pub forum: Seq<char>,
    pub github: Seq<char>,
    pub links_title: Seq<char>,
    pub autostart_label: Seq<char>,
}

impl View for HomeTranslations {
    type V = HomeTranslationsView;

    open spec fn view(&self) -> HomeTranslationsView {
        HomeTranslationsView {
            title: self.title@,
            description: self.description@,
            website: self.website@,
            docs: self.docs@,
            forum: self.forum@,
            github: self.github@,
            links_title: self.links_title@,
            autostart_label: self.autostart_label@,
        }
    }
}

impl Clone for HomeTranslations {
    fn clone(&self) -> (r: HomeTranslations)
        ensures
            r@ == self@,
    {
        HomeTranslations {
            title: self.title.clone(),
            description: self.description.clone(),
            website: self.website.clone(),
            docs: self.docs.clone(),
            forum: self.forum.clone(),
            github: self.github.clone(),
            links_title: self.links_title.clone(),
            autostart_label: self.autostart_label.clone(),
        }
    }
}

/// The page of the system updates.
#[derive(Debug)]
pub struct UpdateTranslations {
    pub title: String,
    pub description: String,
    pub status_unknown: String,
    pub status_uptodate: String,
    pub status_need_update: String,
    pub btn_update: String,
    pub log_title: String,
    pub status_started: String,
    pub success: String,
    pub error: String,
}

/// `UpdateTranslations` with its texts as sequences of characters.
pub struct UpdateTranslationsView {
    pub title: Seq<char>,
    pub description: Seq<char>,
    pub status_unknown: Seq<char>,
    pub status_uptodate: Seq<char>,
    pub status_need_update: Seq<char>,
    pub btn_update: Seq<char>,
    pub log_title: Seq<char>,
    pub status_started: Seq<char>,
    pub success: Seq<char>,
    pub error: Seq<char>,
}

impl View for UpdateTranslations {
    type V = UpdateTranslationsView;

    open spec fn view(&self) -> UpdateTranslationsView {
        UpdateTranslationsView {
            title: self.title@,
            description: self.description@,
            status_unknown: self.status_unknown@,
            status_uptodate: self.status_uptodate@,
            status_need_update: self.status_need_update@,
            btn_update: self.btn_update@,
            log_title: self.log_title@,
            status_started: self.status_started@,
            success: self.success@,
            error: self.error@,
        }
    }
}

impl Clone for UpdateTranslations {
    fn clone(&self) -> (r: UpdateTranslations)
        ensures
            r@ == self@,
    {
        UpdateTranslations {
            title: self.title.clone(),
            description: self.description.clone(),
            status_unknown: self.status_unknown.clone(),
            status_uptodate: self.status_uptodate.clone(),
            status_need_update: self.status_need_update.clone(),
            btn_update: self.btn_update.clone(),
            log_title: self.log_title.clone(),
            status_started: self.status_started.clone(),
            success: self.success.clone(),
            error: self.error.clone(),
        }
    }
}

/// The page of the hardware drivers.
#[derive(Debug)]
pub struct DriversTranslations {
    pub title: String,
    pub description: String,
    pub detecting: String,
    pub detected: String,
    pub unknown_gpu: String,
    pub driver_installed: String,
    pub driver_not_found: String,
    pub driver_current: String,
    pub btn_launch: String,
    pub session_type: String,
}

/// `DriversTranslations` with its texts as sequences of characters.
pub struct DriversTranslationsView {
    pub title: Seq<char>,
    pub description: Seq<char>,
    pub detecting: Seq<char>,
    pub detected: Seq<char>,
    pub unknown_gpu: Seq<char>,
    pub driver_installed: Seq<char>,
    pub driver_not_found: Seq<char>,
    pub driver_current: Seq<char>,
    pub btn_launch: Seq<char>,
    pub session_type: Seq<char>,
}

impl View for DriversTranslations {
    type V = DriversTranslationsView;

    open spec fn view(&self) -> DriversTranslationsView {
        DriversTranslationsView {
            title: self.title@,
            description: self.description@,
            detecting: self.detecting@,
            detected: self.detected@,
            unknown_gpu: self.unknown_gpu@,
            driver_installed: self.driver_installed@,
            driver_not_found: self.driver_not_found@,
            driver_current: self.driver_current@,
            btn_launch: self.btn_launch@,
            session_type: self.session_type@,
        }
    }
}

impl Clone for DriversTranslations {
    fn clone(&self) -> (r: DriversTranslations)
        ensures
            r@ == self@,
    {
        DriversTranslations {
            title: self.title.clone(),
            description: self.description.clone(),
            detecting: self.detecting.clone(),
            detected: self.detected.clone(),
            unknown_gpu: self.unknown_gpu.clone(),
            driver_installed: self.driver_installed.clone(),
            driver_not_found: self.driver_not_found.clone(),
            driver_current: self.driver_current.clone(),
            btn_launch: self.btn_launch.clone(),
            session_type: self.session_type.clone(),
        }
    }
}

/// The page of the recommended software.
#[derive(Debug)]
pub struct SoftwareTranslations {
    pub title: String,
    pub description: String,
    pub btn_install: String,
}

/// `SoftwareTranslations` with its texts as sequences of characters.
pub struct SoftwareTranslationsView {
    pub title: Seq<char>,
    pub description: Seq<char>,
    pub btn_install: Seq<char>,
}

impl View for SoftwareTranslations {
    type V = SoftwareTranslationsView;

    open spec fn view(&self) -> SoftwareTranslationsView {
        SoftwareTranslationsView {
            title: self.title@,
            description: self.description@,
            btn_install: self.btn_install@,
        }
    }
}

impl Clone for SoftwareTranslations {
    fn clone(&self) -> (r: SoftwareTranslations)
        ensures
            r@ == self@,
    {
        SoftwareTranslations {
            title: self.title.clone(),
            description: self.description.clone(),
            btn_install: self.btn_install.clone(),
        }
    }
}

/// All texts of the interface in one language.
#[derive(Debug)]
pub struct Translations {
    pub app: AppTranslations,
    pub sidebar: SidebarTranslations,
    pub home: HomeTranslations,
    pub update: UpdateTranslations,
    pub drivers: DriversTranslations,
    pub software: SoftwareTranslations,
}

/// `Translations` with its texts as sequences of characters.
pub struct TranslationsView {
    pub app: AppTranslationsView,
    pub sidebar: SidebarTranslationsView,
    pub home: HomeTranslationsView,
    pub update: UpdateTranslationsView,
    pub drivers: DriversTranslationsView,
    pub software: SoftwareTranslationsView,
}

impl View for Translations {
    type V = TranslationsView;

    open spec fn view(&self) -> TranslationsView {
        TranslationsView {
            app: self.app@,
            sidebar: self.sidebar@,
            home: self.home@,
            update: self.update@,
            drivers: self.drivers@,
            software: self.software@,
        }
    }
}

impl Clone for Translations {
    fn clone(&self) -> (r: Translations)
        ensures
            r@ == self@,
    {
        Translations {
            app: self.app.clone(),
            sidebar: self.sidebar.clone(),
            home: self.home.clone(),
            update: self.update.clone(),
            drivers: self.drivers.clone(),
            software: self.software.clone(),
        }
    }
}

/// The English texts that the application carries with it.
pub open spec fn fallback_en() -> TranslationsView {
    TranslationsView {
        app: AppTranslationsView {
            title: "Welcome to Linux"@,
            version: "v2.0.0"@,
        },
        sidebar: SidebarTranslationsView {
            welcome: "Welcome"@,
            home: "Home"@,
            update: "Update System"@,
            drivers: "Drivers"@,
            software: "Software"@,
        },
        home: HomeTranslationsView {
            title: "Welcome to Your System"@,
            description: "Essential tools to configure and prepare your computer."@,
            website: "Website"@,
            docs: "Documentation"@,
            forum: "Community Forum"@,
            github: "Source Code (GitHub)"@,
            links_title: "Useful Links"@,
            autostart_label: "Show at startup"@,
        },
        update: UpdateTranslationsView {
            title: "System Updates"@,
            description: "Keep your system up to date"@,
            status_unknown: "Status: Waiting for check..."@,
            status_uptodate: "System is up to date!"@,
            status_need_update: "Updates available"@,
            btn_update: "Check for Updates"@,
            log_title: "Process Log"@,
            status_started: "Starting update process..."@,
            success: "Update completed successfully!"@,
            error: "Update check failed"@,
        },
        drivers: DriversTranslationsView {
            title: "Hardware Drivers"@,
            description: "Manage hardware drivers for optimal performance"@,
            detecting: "Detecting hardware..."@,
            detected: "Detected GPU:"@,
            unknown_gpu: "Graphics card not detected"@,
            driver_installed: "Installed Driver:"@,
            driver_not_found: "Driver Not Installed"@,
            driver_current: "Active"@,
            btn_launch: "Open Settings"@,
            session_type: "Session Type"@,
        },
        software: SoftwareTranslationsView {
            title: "Recommended Software"@,
            description: "Install popular applications to get started quickly"@,
            btn_install: "Install"@,
        },
    }
}

/// The English texts that the application carries with it.
pub fn get_fallback_en() -> (r: Translations)
    ensures
        r@ == fallback_en(),
{
    Translations {
        app: AppTranslations {
            title: String::from_str("Welcome to Linux"),
            version: String::from_str("v2.0.0"),
        },
        sidebar: SidebarTranslations {
            welcome: String::from_str("Welcome"),
            home: String::from_str("Home"),
            update: String::from_str("Update System"),
            drivers: String::from_str("Drivers"),
            software: String::from_str("Software"),
        },
        home: HomeTranslations {
            title: String::from_str("Welcome to Your System"),
            description: String::from_str(
                "Essential tools to configure and prepare your computer.",
            ),
            website: String::from_str("Website"),
            docs: String::from_str("Documentation"),
            forum: String::from_str("Community Forum"),
            github: String::from_str("Source Code (GitHub)"),
            links_title: String::from_str("Useful Links"),
            autostart_label: String::from_str("Show at startup"),
        },
        update: UpdateTranslations {
            title: String::from_str("System Updates"),
            description: String::from_str("Keep your system up to date"),
            status_unknown: String::from_str("Status: Waiting for check..."),
            status_uptodate: String::from_str("System is up to date!"),
            status_need_update: String::from_str("Updates available"),
            btn_update: String::from_str("Check for Updates"),
            log_title: String::from_str("Process Log"),
            status_started: String::from_str("Starting update process..."),
            success: String::from_str("Update completed successfully!"),
            error: String::from_str("Update check failed"),
        },
        drivers: DriversTranslations {
            title: String::from_str("Hardware Drivers"),
            description: String::from_str("Manage hardware drivers for optimal performance"),
            detecting: String::from_str("Detecting hardware..."),
            detected: String::from_str("Detected GPU:"),
            unknown_gpu: String::from_str("Graphics card not detected"),
            driver_installed: String::from_str("Installed Driver:"),
            driver_not_found: String::from_str("Driver Not Installed"),
            driver_current: String::from_str("Active"),
            btn_launch: String::from_str("Open Settings"),
            session_type: String::from_str("Session Type"),
        },
        software: SoftwareTranslations {
            title: String::from_str("Recommended Software"),
            description: String::from_str("Install popular applications to get started quickly"),
            btn_install: String::from_str("Install"),
        },
    }
}

/// The locales whose texts the application looks for, in this order.
pub open spec fn supported_locales() -> Seq<Seq<char>> {
    seq!["en_US"@, "tr_TR"@, "de"@, "es"@, "fr"@, "it"@, "ja"@, "ru"@, "zh"@]
}

/// The file that holds the texts of `locale`.
pub open spec fn locale_path(locale: Seq<char>) -> Seq<char> {
    "assets/locales/"@ + locale + ".json"@
}

/// The texts of a locale, given what its file gave: the file's texts; for
/// "en_US" without a usable file, the English texts that the application
/// carries with it; for any other locale without a usable file, none.
pub open spec fn loaded(
    locale: Seq<char>,
    file: Option<TranslationsView>,
) -> Option<TranslationsView> {
    match file {
        Some(table) => Some(table),
        None => if locale == "en_US"@ {
            Some(fallback_en())
        } else {
            None
        },
    }
}

/// Why a locale without a usable file has no texts.
pub open spec fn locale_not_found(locale: Seq<char>) -> Seq<char> {
    "Locale "@ + locale + " not found and no fallback available"@
}

/// The locale that the system asks for: `LANG` where the environment holds
/// it, else `LC_ALL`, else American English.
pub open spec fn system_locale(lang: Option<Seq<char>>, lc_all: Option<Seq<char>>) -> Seq<char> {
    match lang {
        Some(text) => text,
        None => match lc_all {
            Some(text) => text,
            None => "en_US.UTF-8"@,
        },
    }
}

/// The name of a language in that language.
pub open spec fn display_name(locale: Seq<char>) -> Seq<char> {
    if locale == "en_US"@ {
        "English"@
    } else if locale == "tr_TR"@ {
        "Türkçe"@
    } else if locale == "de"@ {
        "Deutsch"@
    } else if locale == "es"@ {
        "Español"@
    } else if locale == "fr"@ {
        "Français"@
    } else if locale == "it"@ {
        "Italiano"@
    } else if locale == "ja"@ {
        "日本語"@
    } else if locale == "ru"@ {
        "Русский"@
    } else if locale == "zh"@ {
        "中文"@
    } else {
        "Unknown"@
    }
}

/// The locale behind the entry at `index` of the list of languages that the
/// settings offer; American English for an index beyond the list.
pub open spec fn offered_locale(index: int) -> Seq<char> {
    if 0 <= index < supported_locales().len() {
        supported_locales()[index]
    } else {
        "en_US"@
    }
}

/// The texts of a file that may have given none.
pub open spec fn table_of(file: Option<Translations>) -> Option<TranslationsView> {
    match file {
        Some(table) => Some(table@),
        None => None,
    }
}

/// The texts of the file at place `i` of `files`; none where `files` is shorter.
pub open spec fn file_at(files: Seq<Option<Translations>>, i: int) -> Option<TranslationsView> {
    if 0 <= i < files.len() {
        table_of(files[i])
    } else {
        None
    }
}

/// The locales that have texts, and the one in use.
pub struct Localization {
    current: String,
    entries: Vec<(String, Translations)>,
}

/// The locales that have texts, in the order in which they came, each with
/// its texts, and the locale in use.
pub struct LocalizationView {
    pub current: Seq<char>,
    pub locales: Seq<Seq<char>>,
    pub tables: Seq<TranslationsView>,
}

impl LocalizationView {
    /// Each locale has its texts, and no locale stands twice.
    pub open spec fn wf(self) -> bool {
        &&& self.locales.len() == self.tables.len()
        &&& self.locales.no_duplicates()
    }

    /// The state before any texts were loaded: American English in use.
    pub open spec fn empty() -> LocalizationView {
        LocalizationView { current: "en_US"@, locales: Seq::empty(), tables: Seq::empty() }
    }

    /// Whether `locale` has texts.
    pub open spec fn has(self, locale: Seq<char>) -> bool {
        self.locales.contains(locale)
    }

    /// The texts of `locale`.
    pub open spec fn table(self, locale: Seq<char>) -> TranslationsView
        recommends
            self.has(locale),
    {
        self.tables[self.locales.index_of(locale)]
    }

    /// The same with `table` as the texts of `locale`, in place of those it
    /// had, or as a new locale behind the others.
    pub open spec fn with(self, locale: Seq<char>, table: TranslationsView) -> LocalizationView {
        if self.has(locale) {
            LocalizationView {
                current: self.current,
                locales: self.locales,
                tables: self.tables.update(self.locales.index_of(locale), table),
            }
        } else {
            LocalizationView {
                current: self.current,
                locales: self.locales.push(locale),
                tables: self.tables.push(table),
            }
        }
    }

    /// The same after the file of `locale` gave `file`.
    pub open spec fn loading(
        self,
        locale: Seq<char>,
        file: Option<TranslationsView>,
    ) -> LocalizationView {
        match loaded(locale, file) {
            Some(table) => self.with(locale, table),
            None => self,
        }
    }

    /// The same with `locale` in use, if it has texts; unchanged if not.
    pub open spec fn selecting(self, locale: Seq<char>) -> LocalizationView {
        if self.has(locale) {
            LocalizationView { current: locale, locales: self.locales, tables: self.tables }
        } else {
            self
        }
    }

    /// The same with the locale in use that the system asks for: what stands
    /// before the first '.' of the system's locale if that has texts
    /// ("tr_TR" of "tr_TR.UTF-8"); else what stands before the first '_' of
    /// it, if that has texts ("tr"); else unchanged.
    pub open spec fn following_system(
        self,
        lang: Option<Seq<char>>,
        lc_all: Option<Seq<char>>,
    ) -> LocalizationView {
        let code = before_first(system_locale(lang, lc_all), '.');
        let language = before_first(code, '_');
        if self.has(code) {
            self.selecting(code)
        } else if self.has(language) {
            self.selecting(language)
        } else {
            self
        }
    }

    /// The texts of the locale in use; the English texts that the
    /// application carries with it where that locale has none.
    pub open spec fn current_table(self) -> TranslationsView {
        if self.has(self.current) {
            self.table(self.current)
        } else {
            fallback_en()
        }
    }
}

/// What the first `n` supported locales give, where `files` holds what the
/// file of each gave.
pub open spec fn loaded_first(files: Seq<Option<Translations>>, n: nat) -> LocalizationView
    decreases n,
{
    if n == 0 {
        LocalizationView::empty()
    } else {
        loaded_first(files, (n - 1) as nat).loading(
            supported_locales()[n - 1],
            file_at(files, n - 1),
        )
    }
}

/// The state in which the application starts: the supported locales loaded
/// in their order, then the system's locale followed.
pub open spec fn initial(
    files: Seq<Option<Translations>>,
    lang: Option<Seq<char>>,
    lc_all: Option<Seq<char>>,
) -> LocalizationView {
    loaded_first(files, supported_locales().len()).following_system(lang, lc_all)
}

impl View for Localization {
    type V = LocalizationView;

    closed spec fn view(&self) -> LocalizationView {
        LocalizationView {
            current: self.current@,
            locales: Seq::new(self.entries@.len(), |i: int| self.entries@[i].0@),
            tables: Seq::new(self.entries@.len(), |i: int| self.entries@[i].1@),
        }
    }
}

impl Localization {
    #[verifier::type_invariant]
    spec fn distinct_locales(&self) -> bool {
        self@.wf()
    }

    /// The state before any texts are loaded: American English in use.
    pub fn new() -> (r: Localization)
        ensures
            r@ == LocalizationView::empty(),
            r@.wf(),
    {
        let r = Localization { current: String::from_str("en_US"), entries: Vec::new() };
        assert(r@.locales =~= Seq::<Seq<char>>::empty());
        assert(r@.tables =~= Seq::<TranslationsView>::empty());
        r
    }

    /// Where `locale` stands among the locales that have texts.
    fn position(&self, locale: &str) -> (r: Option<usize>)
        ensures
            self@.wf(),
            match r {
                Some(i) => i < self.entries@.len() && self@.locales[i as int] == locale@
                    && self@.locales.index_of(locale@) == i && self@.has(locale@),
                None => !self@.has(locale@),
            },
    {
        proof {
            use_type_invariant(self);
        }
        let mut i: usize = 0;
        while i < self.entries.len()
            invariant
                i <= self.entries.len(),
                self@.wf(),
                self@.locales.len() == self.entries@.len(),
                forall|k: int| 0 <= k < i ==> self@.locales[k] != locale@,
            decreases self.entries.len() - i,
        {
            if str_eq(self.entries[i].0.as_str(), locale) {
                assert(self@.locales[i as int] == locale@);
                return Some(i);
            }
            i += 1;
        }
        None
    }

    /// Gives `locale` the texts `table`, in place of those it had, or as a
    /// new locale behind the others.
    pub fn insert(&mut self, locale: &str, table: Translations)
        ensures
            final(self)@ == old(self)@.with(locale@, table@),
            final(self)@.wf(),
    {
        let ghost before = self@;
        let ghost texts = table@;
        let place = self.position(locale);
        // The entries leave `self` while they change: an empty list stands in
        // for them, in which no locale stands twice either.
        let mut entries: Vec<(String, Translations)> = Vec::new();
        assert(Seq::new(0, |i: int| entries@[i].0@) =~= Seq::<Seq<char>>::empty());
        core::mem::swap(&mut self.entries, &mut entries);
        match place {
            Some(i) => {
                entries.set(i, (String::from_str(locale), table));
            },
            None => {
                entries.push((String::from_str(locale), table));
            },
        }
        proof {
            let locales = Seq::new(entries@.len(), |i: int| entries@[i].0@);
            let tables = Seq::new(entries@.len(), |i: int| entries@[i].1@);
            match place {
                Some(i) => {
                    assert(locales =~= before.locales);
                    assert(tables =~= before.tables.update(i as int, texts));
                },
                None => {
                    assert(locales =~= before.locales.push(locale@));
                    assert(tables =~= before.tables.push(texts));
                },
            }
        }
        self.entries = entries;
    }
}

impl Default for Localization {
    /// The state before any texts are loaded.
    fn default() -> (r: Localization)
        ensures
            r@ == LocalizationView::empty(),
            r@.wf(),
    {
        Localization::new()
    }
}

/// The locales whose texts the application looks for, in this order.
pub fn supported_locale_list() -> (r: Vec<&'static str>)
    ensures
        r@.len() == supported_locales().len(),
        forall|i: int| 0 <= i < r@.len() ==> (#[trigger] r@[i])@ == supported_locales()[i],
{
    vec!["en_US", "tr_TR", "de", "es", "fr", "it", "ja", "ru", "zh"]
}

/// The file that holds the texts of `locale`.
pub fn locale_file(locale: &str) -> (r: String)
    ensures
        r@ == locale_path(locale@),
{
    let mut r = String::from_str("assets/locales/");
    r.append(locale);
    r.append(".json");
    r
}

/// The texts of `locale`, where `file` holds what its file gave, if it could
/// be read and understood. American English is never without texts.
pub fn load_locale(
    locale: &str,
    file: Option<Translations>,
) -> (r: Result<Translations, RoStartError>)
    ensures
        match loaded(locale@, table_of(file)) {
            Some(table) => r matches Ok(found) && found@ == table,
            None => r matches Err(e) && e@ == RoStartErrorView::Config(locale_not_found(locale@)),
        },
{
    match file {
        Some(table) => Ok(table),
        None => {
            if str_eq(locale, "en_US") {
                Ok(get_fallback_en())
            } else {
                let mut reason = String::from_str("Locale ");
                reason.append(locale);
                reason.append(" not found and no fallback available");
                Err(RoStartError::Config(reason))
            }
        },
    }
}

/// Puts the locale in use that the system asks for, where `lang` and
/// `lc_all` are the variables `LANG` and `LC_ALL`, each absent where the
/// environment does not hold it.
pub fn detect_system_locale(ctx: &mut Localization, lang: Option<&str>, lc_all: Option<&str>)
    ensures
        final(ctx)@ == old(ctx)@.following_system(text_of(lang), text_of(lc_all)),
        final(ctx)@.wf(),
{
    let locale: &str = match lang {
        Some(text) => text,
        None => match lc_all {
            Some(text) => text,
            None => "en_US.UTF-8",
        },
    };
    let code = str_before_first(locale, '.');
    if ctx.position(code).is_some() {
        set_locale(ctx, code);
        return ;
    }
    let language = str_before_first(code, '_');
    if ctx.position(language).is_some() {
        set_locale(ctx, language);
    }
}

/// Loads the texts and chooses the locale with which the application
/// starts. `files` holds, for each supported locale in order, what its file
/// gave, if it could be read and understood; a list that is too short stands
/// for files that gave nothing. `lang` and `lc_all` are the variables `LANG`
/// and `LC_ALL`.
pub fn init(
    files: &Vec<Option<Translations>>,
    lang: Option<&str>,
    lc_all: Option<&str>,
) -> (r: Localization)
    ensures
        r@ == initial(files@, text_of(lang), text_of(lc_all)),
        r@.wf(),
{
    let locales = supported_locale_list();
    let mut ctx = Localization::new();
    let mut i: usize = 0;
    while i < locales.len()
        invariant
            i <= locales.len(),
            locales@.len() == supported_locales().len(),
            forall|k: int|
                0 <= k < locales@.len() ==> (#[trigger] locales@[k])@ == supported_locales()[k],
            ctx@ == loaded_first(files@, i as nat),
            ctx@.wf(),
        decreases locales.len() - i,
    {
        let file: Option<Translations> = if i < files.len() {
            match &files[i] {
                Some(table) => Some(table.clone()),
                None => None,
            }
        } else {
            None
        };
        assert(table_of(file) == file_at(files@, i as int));
        match load_locale(locales[i], file) {
            Ok(table) => {
                ctx.insert(locales[i], table);
            },
            Err(_) => {},
        }
        i += 1;
    }
    detect_system_locale(&mut ctx, lang, lc_all);
    ctx
}

/// Puts `locale` in use if it has texts; else the locale in use stays.
pub fn set_locale(ctx: &mut Localization, locale: &str)
    ensures
        final(ctx)@ == old(ctx)@.selecting(locale@),
        final(ctx)@.wf(),
{
    if ctx.position(locale).is_some() {
        ctx.current = String::from_str(locale);
    }
}

/// The locale in use.
pub fn get_locale(ctx: &Localization) -> (r: String)
    ensures
        r@ == ctx@.current,
{
    ctx.current.clone()
}

/// The texts of the locale in use; the English texts that the application
/// carries with it where that locale has none.
pub fn t(ctx: &Localization) -> (r: Translations)
    ensures
        r@ == ctx@.current_table(),
{
    match ctx.position(ctx.current.as_str()) {
        Some(i) => ctx.entries[i].1.clone(),
        None => get_fallback_en(),
    }
}

/// The locales that have texts, in the order in which they came.
pub fn available_locales(ctx: &Localization) -> (r: Vec<String>)
    ensures
        texts(r@) == ctx@.locales,
{
    let mut r: Vec<String> = Vec::new();
    let mut i: usize = 0;
    while i < ctx.entries.len()
        invariant
            i <= ctx.entries.len(),
            r@.len() == i,
            forall|k: int| 0 <= k < i ==> (#[trigger] r@[k])@ == ctx.entries@[k].0@,
        decreases ctx.entries.len() - i,
    {
        r.push(ctx.entries[i].0.clone());
        i += 1;
    }
    assert(texts(r@) =~= ctx@.locales);
    r
}

/// The name of a language in that language; "Unknown" for a locale that is
/// not supported.
pub fn locale_name(locale: &str) -> (r: &'static str)
    ensures
        r@ == display_name(locale@),
{
    if str_eq(locale, "en_US") {
        "English"
    } else if str_eq(locale, "tr_TR") {
        "Türkçe"
    } else if str_eq(locale, "de") {
        "Deutsch"
    } else if str_eq(locale, "es") {
        "Español"
    } else if str_eq(locale, "fr") {
        "Français"
    } else if str_eq(locale, "it") {
        "Italiano"
    } else if str_eq(locale, "ja") {
        "日本語"
    } else if str_eq(locale, "ru") {
        "Русский"
    } else if str_eq(locale, "zh") {
        "中文"
    } else {
        "Unknown"
    }
}

/// The languages that the settings offer, each by its own name, in the order
/// of the supported locales.
pub fn language_names() -> (r: Vec<&'static str>)
    ensures
        r@.len() == supported_locales().len(),
        forall|i: int|
            0 <= i < r@.len() ==> (#[trigger] r@[i])@ == display_name(supported_locales()[i]),
{
    let locales = supported_locale_list();
    let mut r: Vec<&'static str> = Vec::new();
    let mut i: usize = 0;
    while i < locales.len()
        invariant
            i <= locales.len(),
            r@.len() == i,
            locales@.len() == supported_locales().len(),
            forall|k: int|
                0 <= k < locales@.len() ==> (#[trigger] locales@[k])@ == supported_locales()[k],
            forall|k: int|
                0 <= k < i ==> (#[trigger] r@[k])@ == display_name(supported_locales()[k]),
        decreases locales.len() - i,
    {
        r.push(locale_name(locales[i]));
        i += 1;
    }
    r
}

/// The locale behind the entry at `index` of the list of languages that the
/// settings offer; American English for an index beyond the list.
pub fn locale_at(index: u32) -> (r: &'static str)
    ensures
        r@ == offered_locale(index as int),
{
    let locales = supported_locale_list();
    if (index as usize) < locales.len() {
        locales[index as usize]
    } else {
        "en_US"
    }
}

} // verus!
