use linuxfs::localization::{
    catalog, language_from_selector, language_from_self_name, resolve_language,
    windows_user_locale, LocalizedCatalog, UiLanguage,
};
use linuxfs::locale_file::{locale_text_strings, TomlEntry};

#[test]
fn resolver_prefers_a_supported_saved_override() {
    assert_eq!(resolve_language(Some("ko-KR"), "fr-FR"), UiLanguage::Korean);
}

#[test]
fn resolver_matches_windows_base_language_then_falls_back_to_english() {
    assert_eq!(resolve_language(None, "de-AT"), UiLanguage::German);
    assert_eq!(resolve_language(None, "nl-NL"), UiLanguage::English);
}

#[test]
fn every_catalog_contains_all_message_keys() {
    for language in UiLanguage::ALL {
        assert!(catalog(language).is_complete());
    }
}

#[test]
fn dynamic_status_keeps_the_mount_point_but_uses_the_selected_language() {
    let status = catalog(UiLanguage::Japanese).mounted("Z:");
    assert!(status.contains("Z:"));
    assert_ne!(status, "Mounted read-only on Z: — source unchanged");
}

#[test]
fn selector_self_name_resolves_to_its_language() {
    assert_eq!(
        language_from_self_name("繁體中文"),
        Some(UiLanguage::ChineseTraditional)
    );
}

#[test]
fn empty_source_copy_is_localized_for_spanish_and_chinese() {
    assert_eq!(
        catalog(UiLanguage::Spanish).no_source_loaded(),
        "No hay fuente cargada"
    );
    assert_eq!(
        catalog(UiLanguage::ChineseSimplified).no_source_loaded(),
        "未加载源"
    );
    assert_eq!(
        catalog(UiLanguage::ChineseTraditional).no_source_loaded(),
        "未載入來源"
    );
}

#[test]
fn external_file_overrides_copy_only_for_its_declared_language() {
    let file = "language = \"es-ES\"\n[strings]\napp_title = \"Gestor LinuxFS\"\n";
    let spanish = LocalizedCatalog::from_locale_text(UiLanguage::Spanish, file);
    let english = LocalizedCatalog::from_locale_text(UiLanguage::English, file);
    assert_eq!(
        spanish.text("app_title", spanish.copy.app_title),
        "Gestor LinuxFS"
    );
    assert_eq!(
        english.text("app_title", english.copy.app_title),
        "LinuxFS Manager"
    );
}

#[test]
fn east_asian_languages_request_the_matching_windows_ui_font() {
    assert_eq!(
        UiLanguage::ChineseSimplified.default_font_family(),
        "Microsoft YaHei UI"
    );
    assert_eq!(
        UiLanguage::ChineseTraditional.default_font_family(),
        "Microsoft JhengHei UI"
    );
    assert_eq!(UiLanguage::Japanese.default_font_family(), "Yu Gothic UI");
    assert_eq!(UiLanguage::Korean.default_font_family(), "Malgun Gothic");
}

#[test]
fn selector_positions_round_trip_and_zero_is_automatic() {
    for language in UiLanguage::ALL {
        assert_eq!(language_from_selector(language.selector_index()), Some(language));
        assert_eq!(language_from_self_name(language.self_name()), Some(language));
    }
    assert_eq!(language_from_selector(0), None);
    assert_eq!(language_from_selector(13), None);
    assert_eq!(language_from_self_name("Nederlands"), None);
}

#[test]
fn locale_names_are_trimmed_folded_and_matched_by_base_language() {
    assert_eq!(resolve_language(Some("  FR_ca \t"), "en-US"), UiLanguage::French);
    assert_eq!(resolve_language(Some("zh_Hant_TW"), "en"), UiLanguage::ChineseTraditional);
    assert_eq!(resolve_language(Some("zh-HK"), "pl-PL"), UiLanguage::Polish);
    assert_eq!(resolve_language(Some("auto"), "ja-JP"), UiLanguage::Japanese);
    assert_eq!(resolve_language(Some(""), ""), UiLanguage::English);
    assert_eq!(resolve_language(Some("en-AU"), "ru-RU"), UiLanguage::Russian);
    for language in UiLanguage::ALL {
        assert_eq!(resolve_language(Some(language.tag()), "ko-KR"), language);
    }
    assert_eq!(windows_user_locale(), "");
}

#[test]
fn status_messages_fill_in_their_value_only_where_they_carry_one() {
    let english = catalog(UiLanguage::English);
    assert_eq!(english.ready(), "Ready.");
    assert_eq!(english.mounted("Z:"), "Mounted read-only on Z: — source unchanged");
    assert_eq!(english.refresh_failed("boom"), "Refresh failed: boom");
    assert_eq!(english.unmounted(), "Unmount completed");
    assert_eq!(
        catalog(UiLanguage::Korean).explorer_opened("Q:"),
        "탐색기에서 Q: 열림"
    );
    assert_eq!(
        english.language_save_failed("disk full"),
        "Could not save language preference: disk full"
    );
    assert_eq!(english.image_open_failed_details(), "The image could not be opened safely.");
}

#[test]
fn language_options_list_automatic_then_every_language() {
    let options = catalog(UiLanguage::German).language_options();
    assert_eq!(options.len(), 13);
    assert_eq!(options[0], catalog(UiLanguage::German).automatic_language);
    assert_eq!(options[1], "English");
    assert_eq!(options[12], "한국어");
}

#[test]
fn blank_overrides_fall_back_and_the_last_entry_wins() {
    let strings = TomlEntry::Table(vec![
        ("close".to_owned(), Some("Chiudi ora".to_owned())),
        ("close".to_owned(), Some("Chiudi subito".to_owned())),
        ("recheck".to_owned(), Some("   ".to_owned())),
        ("automatic_language".to_owned(), Some("Automatica".to_owned())),
    ]);
    let document = Some(vec![
        ("language".to_owned(), TomlEntry::Text("it-IT".to_owned())),
        ("strings".to_owned(), strings),
    ]);
    let catalog = LocalizedCatalog::from_locale_document(UiLanguage::Italian, &document);
    assert_eq!(catalog.text("close", catalog.copy.close), "Chiudi subito");
    assert_eq!(catalog.text("recheck", "fallback"), "fallback");
    assert_eq!(catalog.text("missing", "fallback"), "fallback");
    assert_eq!(catalog.language_options()[0], "Automatica");
}

#[test]
fn locale_files_of_other_languages_or_no_toml_override_nothing() {
    let german = "language = \"de-DE\"\n[strings]\nclose = \"Schließen\"\n";
    assert!(locale_text_strings(UiLanguage::French, german).is_empty());
    assert!(locale_text_strings(UiLanguage::German, "language = [unclosed").is_empty());
    assert!(locale_text_strings(UiLanguage::German, "[strings]\nclose = \"x\"\n").is_empty());
    assert!(locale_text_strings(UiLanguage::German, "language = \"de-DE\"\nstrings = \"x\"\n").is_empty());
    let catalog = LocalizedCatalog::from_locale_document(UiLanguage::German, &None);
    assert_eq!(catalog.text("close", "fallback"), "fallback");
}

#[test]
fn locale_strings_keep_only_string_values_in_key_order() {
    let file = "language = \"ja-JP\"\n[strings]\nzeta = \"Z\"\ncount = 3\nalpha = \"A\"\nnested = { inner = \"x\" }\n";
    assert_eq!(
        locale_text_strings(UiLanguage::Japanese, file),
        vec![
            ("alpha".to_owned(), "A".to_owned()),
            ("zeta".to_owned(), "Z".to_owned()),
        ]
    );
}
