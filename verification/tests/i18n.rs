use ro_start::error::RoStartError;
use ro_start::i18n::{
    available_locales, detect_system_locale, get_fallback_en, get_locale, init, language_names,
    load_locale, locale_at, locale_file, locale_name, set_locale, supported_locale_list, t,
    Localization, Translations,
};

/// Texts that can be told from the English ones by their title.
fn texts_titled(title: &str) -> Translations {
    let mut texts = get_fallback_en();
    texts.app.title = title.to_string();
    texts
}

/// What the files of the supported locales gave, where only those of
/// `present` could be read.
fn files_with(present: &[&str]) -> Vec<Option<Translations>> {
    supported_locale_list()
        .iter()
        .map(|locale| {
            if present.contains(locale) {
                Some(texts_titled(locale))
            } else {
                None
            }
        })
        .collect()
}

#[test]
fn fallback_holds_the_english_texts() {
    let texts = get_fallback_en();
    assert_eq!(texts.app.title, "Welcome to Linux");
    assert_eq!(texts.app.version, "v2.0.0");
    assert_eq!(texts.sidebar.welcome, "Welcome");
    assert_eq!(texts.sidebar.home, "Home");
    assert_eq!(texts.sidebar.update, "Update System");
    assert_eq!(texts.sidebar.drivers, "Drivers");
    assert_eq!(texts.sidebar.software, "Software");
    assert_eq!(texts.home.title, "Welcome to Your System");
    assert_eq!(
        texts.home.description,
        "Essential tools to configure and prepare your computer."
    );
    assert_eq!(texts.home.website, "Website");
    assert_eq!(texts.home.docs, "Documentation");
    assert_eq!(texts.home.forum, "Community Forum");
    assert_eq!(texts.home.github, "Source Code (GitHub)");
    assert_eq!(texts.home.links_title, "Useful Links");
    assert_eq!(texts.home.autostart_label, "Show at startup");
    assert_eq!(texts.update.title, "System Updates");
    assert_eq!(texts.update.description, "Keep your system up to date");
    assert_eq!(texts.update.status_unknown, "Status: Waiting for check...");
    assert_eq!(texts.update.status_uptodate, "System is up to date!");
    assert_eq!(texts.update.status_need_update, "Updates available");
    assert_eq!(texts.update.btn_update, "Check for Updates");
    assert_eq!(texts.update.log_title, "Process Log");
    assert_eq!(texts.update.status_started, "Starting update process...");
    assert_eq!(texts.update.success, "Update completed successfully!");
    assert_eq!(texts.update.error, "Update check failed");
    assert_eq!(texts.drivers.title, "Hardware Drivers");
    assert_eq!(
        texts.drivers.description,
        "Manage hardware drivers for optimal performance"
    );
    assert_eq!(texts.drivers.detecting, "Detecting hardware...");
    assert_eq!(texts.drivers.detected, "Detected GPU:");
    assert_eq!(texts.drivers.unknown_gpu, "Graphics card not detected");
    assert_eq!(texts.drivers.driver_installed, "Installed Driver:");
    assert_eq!(texts.drivers.driver_not_found, "Driver Not Installed");
    assert_eq!(texts.drivers.driver_current, "Active");
    assert_eq!(texts.drivers.btn_launch, "Open Settings");
    assert_eq!(texts.drivers.session_type, "Session Type");
    assert_eq!(texts.software.title, "Recommended Software");
    assert_eq!(
        texts.software.description,
        "Install popular applications to get started quickly"
    );
    assert_eq!(texts.software.btn_install, "Install");
}

#[test]
fn supported_locales_in_their_order() {
    assert_eq!(
        supported_locale_list(),
        vec!["en_US", "tr_TR", "de", "es", "fr", "it", "ja", "ru", "zh"]
    );
}

#[test]
fn locale_files_lie_below_assets() {
    assert_eq!(locale_file("tr_TR"), "assets/locales/tr_TR.json");
    assert_eq!(locale_file(""), "assets/locales/.json");
}

#[test]
fn load_locale_prefers_the_file() {
    let texts = load_locale("de", Some(texts_titled("Willkommen"))).unwrap();
    assert_eq!(texts.app.title, "Willkommen");
    let texts = load_locale("en_US", Some(texts_titled("Howdy"))).unwrap();
    assert_eq!(texts.app.title, "Howdy");
}

#[test]
fn load_locale_falls_back_for_american_english_only() {
    let texts = load_locale("en_US", None).unwrap();
    assert_eq!(texts.app.title, "Welcome to Linux");
    match load_locale("de", None) {
        Err(RoStartError::Config(reason)) => {
            assert_eq!(reason, "Locale de not found and no fallback available")
        }
        other => panic!("unexpected: {:?}", other.map(|t| t.app.title)),
    }
    assert!(load_locale("en", None).is_err());
    assert!(load_locale("en_us", None).is_err());
}

#[test]
fn a_fresh_localization_speaks_american_english() {
    let ctx = Localization::new();
    assert_eq!(get_locale(&ctx), "en_US");
    assert!(available_locales(&ctx).is_empty());
    assert_eq!(t(&ctx).app.title, "Welcome to Linux");
}

#[test]
fn init_without_files_has_american_english_only() {
    let ctx = init(&Vec::new(), None, None);
    assert_eq!(available_locales(&ctx), vec!["en_US"]);
    assert_eq!(get_locale(&ctx), "en_US");
    assert_eq!(t(&ctx).app.title, "Welcome to Linux");
}

#[test]
fn init_loads_the_files_in_the_order_of_the_supported_locales() {
    let ctx = init(&files_with(&["zh", "de", "tr_TR"]), None, None);
    assert_eq!(available_locales(&ctx), vec!["en_US", "tr_TR", "de", "zh"]);
    let ctx = init(&files_with(&["en_US", "ja"]), None, None);
    assert_eq!(available_locales(&ctx), vec!["en_US", "ja"]);
    assert_eq!(t(&ctx).app.title, "en_US");
}

#[test]
fn init_ignores_files_beyond_the_supported_locales() {
    let mut files = files_with(&["de"]);
    files.push(Some(texts_titled("extra")));
    let ctx = init(&files, None, None);
    assert_eq!(available_locales(&ctx), vec!["en_US", "de"]);
}

#[test]
fn init_follows_the_system_locale() {
    let files = files_with(&["tr_TR", "de", "fr"]);
    let ctx = init(&files, Some("tr_TR.UTF-8"), None);
    assert_eq!(get_locale(&ctx), "tr_TR");
    assert_eq!(t(&ctx).app.title, "tr_TR");
    // The language alone, where the whole code has no texts.
    let ctx = init(&files, Some("de_DE.UTF-8"), None);
    assert_eq!(get_locale(&ctx), "de");
    let ctx = init(&files, Some("fr"), None);
    assert_eq!(get_locale(&ctx), "fr");
    // Neither has texts.
    let ctx = init(&files, Some("it_IT.UTF-8"), None);
    assert_eq!(get_locale(&ctx), "en_US");
    let ctx = init(&files, Some("C"), None);
    assert_eq!(get_locale(&ctx), "en_US");
}

#[test]
fn lc_all_counts_only_without_lang() {
    let files = files_with(&["tr_TR", "de"]);
    let ctx = init(&files, None, Some("de_AT.UTF-8"));
    assert_eq!(get_locale(&ctx), "de");
    let ctx = init(&files, Some("tr_TR.UTF-8"), Some("de_AT.UTF-8"));
    assert_eq!(get_locale(&ctx), "tr_TR");
    let ctx = init(&files, Some(""), Some("de_AT.UTF-8"));
    assert_eq!(get_locale(&ctx), "en_US");
    let ctx = init(&files, Some("xx_YY"), Some("de_AT.UTF-8"));
    assert_eq!(get_locale(&ctx), "en_US");
}

#[test]
fn detect_system_locale_keeps_the_locale_in_use_when_nothing_fits() {
    let mut ctx = init(&files_with(&["ja", "ru"]), Some("ja_JP.UTF-8"), None);
    assert_eq!(get_locale(&ctx), "ja");
    detect_system_locale(&mut ctx, Some("pt_BR.UTF-8"), None);
    assert_eq!(get_locale(&ctx), "ja");
    detect_system_locale(&mut ctx, None, None);
    assert_eq!(get_locale(&ctx), "en_US");
    detect_system_locale(&mut ctx, Some("ru.KOI8-R.more"), None);
    assert_eq!(get_locale(&ctx), "ru");
}

#[test]
fn set_locale_takes_a_locale_that_has_texts() {
    let mut ctx = init(&files_with(&["de", "es"]), None, None);
    set_locale(&mut ctx, "es");
    assert_eq!(get_locale(&ctx), "es");
    assert_eq!(t(&ctx).app.title, "es");
    set_locale(&mut ctx, "en_US");
    assert_eq!(get_locale(&ctx), "en_US");
    assert_eq!(t(&ctx).app.title, "Welcome to Linux");
}

#[test]
fn set_locale_keeps_the_locale_in_use_for_one_without_texts() {
    let mut ctx = init(&files_with(&["de"]), None, None);
    set_locale(&mut ctx, "de");
    set_locale(&mut ctx, "fr");
    assert_eq!(get_locale(&ctx), "de");
    set_locale(&mut ctx, "");
    assert_eq!(get_locale(&ctx), "de");
    set_locale(&mut ctx, "DE");
    assert_eq!(get_locale(&ctx), "de");
    assert_eq!(available_locales(&ctx), vec!["en_US", "de"]);
}

#[test]
fn insert_adds_a_locale_or_replaces_its_texts() {
    let mut ctx = Localization::new();
    ctx.insert("de", texts_titled("eins"));
    ctx.insert("fr", texts_titled("un"));
    assert_eq!(available_locales(&ctx), vec!["de", "fr"]);
    ctx.insert("de", texts_titled("zwei"));
    assert_eq!(available_locales(&ctx), vec!["de", "fr"]);
    set_locale(&mut ctx, "de");
    assert_eq!(t(&ctx).app.title, "zwei");
    set_locale(&mut ctx, "fr");
    assert_eq!(t(&ctx).app.title, "un");
}

#[test]
fn t_falls_back_while_the_locale_in_use_has_no_texts() {
    let mut ctx = Localization::new();
    ctx.insert("de", texts_titled("Hallo"));
    assert_eq!(get_locale(&ctx), "en_US");
    assert_eq!(t(&ctx).app.title, "Welcome to Linux");
    assert_eq!(t(&ctx).software.btn_install, "Install");
}

#[test]
fn locale_names_in_their_own_language() {
    assert_eq!(locale_name("en_US"), "English");
    assert_eq!(locale_name("tr_TR"), "Türkçe");
    assert_eq!(locale_name("de"), "Deutsch");
    assert_eq!(locale_name("es"), "Español");
    assert_eq!(locale_name("fr"), "Français");
    assert_eq!(locale_name("it"), "Italiano");
    assert_eq!(locale_name("ja"), "日本語");
    assert_eq!(locale_name("ru"), "Русский");
    assert_eq!(locale_name("zh"), "中文");
}

#[test]
fn locale_name_of_anything_else_is_unknown() {
    assert_eq!(locale_name("auto"), "Unknown");
    assert_eq!(locale_name(""), "Unknown");
    assert_eq!(locale_name("en"), "Unknown");
    assert_eq!(locale_name("DE"), "Unknown");
}

#[test]
fn the_settings_offer_each_supported_locale_by_name() {
    assert_eq!(
        language_names(),
        vec![
            "English",
            "Türkçe",
            "Deutsch",
            "Español",
            "Français",
            "Italiano",
            "日本語",
            "Русский",
            "中文"
        ]
    );
    for (index, locale) in supported_locale_list().iter().enumerate() {
        assert_eq!(locale_at(index as u32), *locale);
        assert_eq!(language_names()[index], locale_name(locale));
    }
}

#[test]
fn an_entry_beyond_the_list_stands_for_american_english() {
    assert_eq!(locale_at(9), "en_US");
    assert_eq!(locale_at(u32::MAX), "en_US");
}

#[test]
fn clone_keeps_the_texts() {
    let texts = texts_titled("Kopie");
    let copy = texts.clone();
    assert_eq!(copy.app.title, "Kopie");
    assert_eq!(copy.drivers.session_type, "Session Type");
    assert_eq!(copy.update.error, "Update check failed");
}
