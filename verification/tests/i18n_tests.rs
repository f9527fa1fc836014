use usb_disk_remover::i18n::Language;

const ALL: [Language; 6] = [
    Language::En,
    Language::It,
    Language::De,
    Language::Fr,
    Language::Ar,
    Language::Ru,
];

#[test]
fn index_round_trip_for_every_language() {
    for (i, lang) in ALL.iter().enumerate() {
        assert_eq!(lang.to_index(), i);
        assert_eq!(Language::from_index(i), *lang);
    }
}

#[test]
fn index_past_the_end_gives_english() {
    assert_eq!(Language::from_index(6), Language::En);
    assert_eq!(Language::from_index(usize::MAX), Language::En);
}

#[test]
fn code_round_trip_for_every_language() {
    for lang in ALL.iter() {
        assert_eq!(Language::from_code(lang.to_code()), *lang);
    }
    assert_eq!(Language::Ar.to_code(), "ar");
}

#[test]
fn codes_ignore_case() {
    assert_eq!(Language::from_code("IT"), Language::It);
    assert_eq!(Language::from_code("De"), Language::De);
    assert_eq!(Language::from_code("rU"), Language::Ru);
}

#[test]
fn unknown_codes_give_english() {
    assert_eq!(Language::from_code(""), Language::En);
    assert_eq!(Language::from_code("es"), Language::En);
    assert_eq!(Language::from_code("ita"), Language::En);
    assert_eq!(Language::from_code(" it"), Language::En);
}

#[test]
fn lowercase_code_lookup() {
    assert_eq!(Language::from_lowercase_code("fr"), Language::Fr);
    assert_eq!(Language::from_lowercase_code("FR"), Language::En);
}

#[test]
fn default_language_is_english() {
    assert_eq!(Language::default(), Language::En);
}

#[test]
fn catalogue_entries() {
    let en = Language::En.get_strings();
    assert_eq!(en.settings_btn, "Settings");
    assert_eq!(en.tray_quit, "Quit");
    assert_eq!(en.no_drives_title, "No removable drives detected");
    let it = Language::It.get_strings();
    assert_eq!(it.ready, "Pronto");
    assert_eq!(it.close_to_tray_title, "Riduci nella tray alla chiusura (✕)");
    let de = Language::De.get_strings();
    assert_eq!(de.about_btn, "Über");
    let fr = Language::Fr.get_strings();
    assert_eq!(fr.save_btn, "Enregistrer");
    let ar = Language::Ar.get_strings();
    assert_eq!(ar.tray_quit, "خروج");
    let ru = Language::Ru.get_strings();
    assert_eq!(ru.language_label, "Язык");
}

#[test]
fn drives_detected_singular_and_plural() {
    assert_eq!(Language::En.drives_detected(1), "1 drive detected.");
    assert_eq!(Language::En.drives_detected(0), "0 drives detected.");
    assert_eq!(Language::En.drives_detected(3), "3 drives detected.");
    assert_eq!(Language::En.drives_detected(120), "120 drives detected.");
    assert_eq!(Language::It.drives_detected(1), "1 unità rilevata.");
    assert_eq!(Language::It.drives_detected(2), "2 unità rilevate.");
    assert_eq!(Language::De.drives_detected(10), "10 Laufwerke erkannt.");
    assert_eq!(Language::Fr.drives_detected(4), "4 lecteurs détectés.");
    assert_eq!(Language::Ar.drives_detected(1), "تم اكتشاف محرك أقراص واحد.");
    assert_eq!(Language::Ar.drives_detected(5), "تم اكتشاف 5 محركات أقراص.");
    assert_eq!(Language::Ru.drives_detected(7), "Обнаружено 7 дисков.");
    assert_eq!(Language::Ru.drives_detected(1), "Обнаружен 1 диск.");
}

#[test]
fn drives_detected_large_count() {
    assert_eq!(
        Language::En.drives_detected(usize::MAX),
        format!("{} drives detected.", usize::MAX)
    );
}

#[test]
fn removal_messages() {
    assert_eq!(Language::En.safely_removing("E:\\"), "Safely removing E:\\...");
    assert_eq!(Language::De.safely_removing("E:"), "E: wird sicher entfernt...");
    assert_eq!(Language::Ar.safely_removing("F:"), "جارٍ إزالة F: بأمان...");
    assert_eq!(Language::En.safely_removed("E:"), "E: safely removed.");
    assert_eq!(Language::It.safely_removed("E:"), "E: rimossa con successo.");
    assert_eq!(Language::Ar.safely_removed("E:"), "تمت إزالة E: بأمان.");
}

#[test]
fn error_messages() {
    assert_eq!(
        Language::En.eject_error("E:", "AccessDenied"),
        "Error ejecting E:: AccessDenied"
    );
    assert_eq!(
        Language::Fr.eject_error("G:", "Busy"),
        "Erreur lors de l'éjection de G:: Busy"
    );
    assert_eq!(Language::En.drive_not_found("Z:"), "Drive Z: not found.");
    assert_eq!(Language::Ru.drive_not_found("Z:"), "Диск Z: не найден.");
}
