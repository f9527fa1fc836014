use vstd::prelude::*;

use crate::i18n::{ascii_lowercase, language_count, Language};
use crate::settings::{autostart_command_text, default_settings, loaded_settings, SettingsView};
use crate::text::{decimal, digit_char, digits_value, is_digit, parse_u32_text, trim_end_backslashes, unsigned_digits};
use crate::ui::{bus_label, eject_message, scan_status, BusType, EjectOutcome, Panels};
use crate::utf16::{before_nul, is_high_surrogate, is_low_surrogate, pair_value, utf16_decode_lossy};
use crate::utils::{le_bytes, le_units, utf16_encode, utf16_units};
use vstd::utf8::is_ascii_chars;

verus! {

/// Every language sits at its own selector position, below the number of
/// languages, and that position gives the language back.
pub proof fn law_language_index_round_trip(lang: Language)
    ensures
        lang.index_of() < language_count(),
        Language::at_index(lang.index_of()) == lang,
{
}

/// Every selector position below the number of languages names a language
/// at that very position; every position past them gives English.
pub proof fn law_index_language_round_trip(index: nat)
    ensures
        index < language_count() ==> Language::at_index(index).index_of() == index,
        index >= language_count() ==> Language::at_index(index) == Language::En,
{
}

/// The code of every language is ASCII, and reading it back, whatever its
/// case, gives the same language; so a stored language loads as itself.
pub proof fn law_language_code_round_trip(lang: Language)
    ensures
        is_ascii_chars(lang.code()),
        Language::of_lowercase_code(ascii_lowercase(lang.code())) == lang,
{
    reveal_strlit("en");
    reveal_strlit("it");
    reveal_strlit("de");
    reveal_strlit("fr");
    reveal_strlit("ar");
    reveal_strlit("ru");
    let c = lang.code();
    assert(ascii_lowercase(c) =~= c);
    assert("en"@[0] != "it"@[0]);
    assert("en"@[0] != "de"@[0]);
    assert("en"@[0] != "fr"@[0]);
    assert("en"@[0] != "ar"@[0]);
    assert("en"@[0] != "ru"@[0]);
    assert("it"@[0] != "de"@[0]);
    assert("it"@[0] != "fr"@[0]);
    assert("it"@[0] != "ar"@[0]);
    assert("it"@[0] != "ru"@[0]);
    assert("de"@[0] != "fr"@[0]);
    assert("de"@[0] != "ar"@[0]);
    assert("de"@[0] != "ru"@[0]);
    assert("fr"@[0] != "ar"@[0]);
    assert("fr"@[0] != "ru"@[0]);
    assert("ar"@[0] != "ru"@[0]);
}

/// A language picked in the selector is stored under a code that loads back
/// as the very language that was picked.
pub proof fn law_selected_language_reloads(index: nat)
    ensures
        Language::of_lowercase_code(ascii_lowercase(Language::at_index(index).code()))
            == Language::at_index(index),
{
    law_language_code_round_trip(Language::at_index(index));
}

/// Saved settings, whose autostart switch the registry then holds, load back
/// exactly as they were saved.
pub proof fn law_saved_settings_load_back(saved: SettingsView)
    ensures
        loaded_settings(Some(saved), saved.start_with_windows) == saved,
{
}

/// With nothing stored and no autostart value in the registry, a run starts
/// from the default settings.
pub proof fn law_first_run_defaults()
    ensures
        loaded_settings(None, false) == default_settings(),
{
}

/// Whatever state the panels are in, after any of the four panel actions at
/// most one panel is open.
pub proof fn law_at_most_one_panel(p: Panels)
    ensures
        p.about_toggled().wf(),
        p.settings_toggled().wf(),
        p.settings_opened().wf(),
        p.about_opened().wf(),
{
}

/// No UTF-16 unit of a character is zero unless the character is NUL.
proof fn lemma_units_nonzero(c: char)
    requires
        c != '\0',
    ensures
        forall|i: int| 0 <= i < utf16_units(c).len() ==> #[trigger] utf16_units(c)[i] != 0u16,
{
}

proof fn lemma_before_nul_append(a: Seq<u16>, b: Seq<u16>)
    requires
        forall|i: int| 0 <= i < a.len() ==> #[trigger] a[i] != 0u16,
    ensures
        before_nul(a + b) == a + before_nul(b),
    decreases a.len(),
{
    if a.len() == 0 {
        assert(a + b =~= b);
        assert(a + before_nul(b) =~= before_nul(b));
    } else {
        lemma_before_nul_append(a.drop_first(), b);
        assert((a + b).drop_first() =~= a.drop_first() + b);
        assert(seq![a[0]] + (a.drop_first() + before_nul(b)) =~= a + before_nul(b));
    }
}

/// A text without NUL characters, encoded as zero-terminated UTF-16, reads
/// back up to its terminator as exactly its encoding: the terminator is the
/// first zero unit.
pub proof fn law_utf16_terminator(s: Seq<char>)
    requires
        !s.contains('\0'),
    ensures
        before_nul(utf16_encode(s).push(0u16)) == utf16_encode(s),
    decreases s.len(),
{
    lemma_encode_nonzero(s);
    lemma_before_nul_append(utf16_encode(s), seq![0u16]);
    assert(utf16_encode(s) + seq![0u16] =~= utf16_encode(s).push(0u16));
    assert(before_nul(seq![0u16]) =~= seq![]);
    assert(utf16_encode(s) + seq![] =~= utf16_encode(s));
}

proof fn lemma_encode_nonzero(s: Seq<char>)
    requires
        !s.contains('\0'),
    ensures
        forall|i: int| 0 <= i < utf16_encode(s).len() ==> #[trigger] utf16_encode(s)[i] != 0u16,
    decreases s.len(),
{
    if s.len() > 0 {
        let t = s.drop_last();
        assert forall|j: int| 0 <= j < t.len() implies t[j] != '\0' by {
            assert(t[j] == s[j]);
        }
        lemma_encode_nonzero(t);
        assert(s[s.len() - 1] != '\0');
        lemma_units_nonzero(s.last());
        let e = utf16_encode(s);
        assert(e == utf16_encode(t) + utf16_units(s.last()));
        assert forall|i: int| 0 <= i < e.len() implies #[trigger] e[i] != 0u16 by {
            if i < utf16_encode(t).len() {
                assert(e[i] == utf16_encode(t)[i]);
            } else {
                assert(e[i] == utf16_units(s.last())[i - utf16_encode(t).len()]);
            }
        }
    }
}

/// Mount points are matched as an equivalence: every mount point matches
/// itself, matching is symmetric, and two mount points that match a third
/// match each other.
pub proof fn law_mount_point_match_equivalence(a: Seq<char>, b: Seq<char>, c: Seq<char>)
    ensures
        trim_end_backslashes(a) == trim_end_backslashes(a),
        (trim_end_backslashes(a) == trim_end_backslashes(b)) == (trim_end_backslashes(b)
            == trim_end_backslashes(a)),
        trim_end_backslashes(a) == trim_end_backslashes(b) && trim_end_backslashes(b)
            == trim_end_backslashes(c) ==> trim_end_backslashes(a) == trim_end_backslashes(c),
{
}


proof fn lemma_encode_concat(a: Seq<char>, b: Seq<char>)
    ensures
        utf16_encode(a + b) == utf16_encode(a) + utf16_encode(b),
    decreases b.len(),
{
    if b.len() == 0 {
        assert(a + b =~= a);
        assert(utf16_encode(b) =~= Seq::<u16>::empty());
        assert(utf16_encode(a) + utf16_encode(b) =~= utf16_encode(a));
    } else {
        lemma_encode_concat(a, b.drop_last());
        assert((a + b).drop_last() =~= a + b.drop_last());
        assert((a + b).last() == b.last());
        assert(utf16_encode(a) + utf16_encode(b.drop_last()) + utf16_units(b.last())
            =~= utf16_encode(a) + (utf16_encode(b.drop_last()) + utf16_units(b.last())));
    }
}

proof fn lemma_encode_first(s: Seq<char>)
    requires
        s.len() > 0,
    ensures
        utf16_encode(s) == utf16_units(s[0]) + utf16_encode(s.drop_first()),
{
    let head = seq![s[0]];
    assert(head + s.drop_first() =~= s);
    lemma_encode_concat(head, s.drop_first());
    assert(head.drop_last() =~= Seq::<char>::empty());
    assert(utf16_encode(Seq::<char>::empty()) =~= Seq::<u16>::empty());
    assert(utf16_encode(head) =~= utf16_units(s[0]));
}

proof fn lemma_decode_units(c: char, rest: Seq<u16>)
    ensures
        utf16_decode_lossy(utf16_units(c) + rest) == seq![c] + utf16_decode_lossy(rest),
{
    let v = c as u32 as nat;
    let u = utf16_units(c);
    if v < 0x10000 {
        assert((v as u16) as char == c);
        assert((u + rest)[0] == v as u16);
        assert((u + rest).skip(1) =~= rest);
    } else {
        let w = (v - 0x10000) as nat;
        assert(w < 0x100000);
        let hi = w / 0x400;
        let lo = w % 0x400;
        assert(hi < 0x400 && lo < 0x400 && w == hi * 0x400 + lo) by (nonlinear_arith)
            requires
                w < 0x100000,
                hi == w / 0x400,
                lo == w % 0x400,
        ;
        let h = (0xD800 + hi) as u16;
        let l = (0xDC00 + lo) as u16;
        assert(u == seq![h, l]);
        assert((u + rest)[0] == h);
        assert((u + rest)[1] == l);
        assert(is_high_surrogate(h));
        assert(is_low_surrogate(l));
        assert(pair_value(h, l) == v);
        assert((v as char) == c);
        assert((u + rest).skip(2) =~= rest);
    }
}

/// Decoding the UTF-16 encoding of any text gives the text back: what the
/// program writes as UTF-16 reads back unchanged.
pub proof fn law_utf16_round_trip(s: Seq<char>)
    ensures
        utf16_decode_lossy(utf16_encode(s)) == s,
    decreases s.len(),
{
    if s.len() == 0 {
        assert(utf16_encode(s) =~= Seq::<u16>::empty());
    } else {
        lemma_encode_first(s);
        lemma_decode_units(s[0], utf16_encode(s.drop_first()));
        law_utf16_round_trip(s.drop_first());
        assert(seq![s[0]] + s.drop_first() =~= s);
    }
}


proof fn lemma_le_bytes_first(units: Seq<u16>)
    requires
        units.len() > 0,
    ensures
        le_bytes(units) == seq![(units[0] % 256) as u8, (units[0] / 256) as u8] + le_bytes(
            units.drop_first(),
        ),
    decreases units.len(),
{
    if units.len() == 1 {
        assert(units.drop_last() =~= Seq::<u16>::empty());
        assert(units.drop_first() =~= Seq::<u16>::empty());
        assert(le_bytes(Seq::<u16>::empty()) =~= Seq::<u8>::empty());
        assert(le_bytes(units) =~= seq![(units[0] % 256) as u8, (units[0] / 256) as u8]);
    } else {
        let init = units.drop_last();
        lemma_le_bytes_first(init);
        assert(init.drop_first() =~= units.drop_first().drop_last());
        assert(units.drop_first().last() == units.last());
        assert(init[0] == units[0]);
        let head = seq![(units[0] % 256) as u8, (units[0] / 256) as u8];
        let tail = seq![(units.last() % 256) as u8, (units.last() / 256) as u8];
        assert(head + le_bytes(init.drop_first()) + tail =~= head + (le_bytes(
            units.drop_first().drop_last(),
        ) + tail));
    }
}

/// Reading the little-endian bytes of UTF-16 units in pairs gives the units
/// back.
pub proof fn law_le_bytes_round_trip(units: Seq<u16>)
    ensures
        le_units(le_bytes(units)) == units,
    decreases units.len(),
{
    if units.len() == 0 {
        assert(le_bytes(units) =~= Seq::<u8>::empty());
    } else {
        lemma_le_bytes_first(units);
        law_le_bytes_round_trip(units.drop_first());
        let u = units[0];
        let b = le_bytes(units);
        assert(b[0] == (u % 256) as u8);
        assert(b[1] == (u / 256) as u8);
        assert(b.skip(2) =~= le_bytes(units.drop_first()));
        assert((u % 256) + 256 * (u / 256) == u);
        assert(seq![u] + units.drop_first() =~= units);
    }
}

proof fn lemma_command_has_no_nul(exe_path: Seq<char>, start_minimized: bool)
    requires
        !exe_path.contains('\0'),
    ensures
        !autostart_command_text(exe_path, start_minimized).contains('\0'),
{
    reveal_strlit("\"");
    reveal_strlit("\" --minimized");
    let quote = "\""@;
    let tail = if start_minimized {
        "\" --minimized"@
    } else {
        "\""@
    };
    let cmd = autostart_command_text(exe_path, start_minimized);
    assert(cmd == quote + exe_path + tail);
    assert forall|i: int| 0 <= i < cmd.len() implies cmd[i] != '\0' by {
        if i < 1 {
            assert(cmd[i] == quote[i]);
        } else if i < 1 + exe_path.len() {
            assert(cmd[i] == exe_path[i - 1]);
        } else {
            assert(cmd[i] == tail[i - 1 - exe_path.len()]);
        }
    }
}

/// The autostart registry value, read as Windows reads a string value
/// (little-endian UTF-16 up to the first zero unit), is exactly the command
/// line, for every executable path that holds no NUL character.
pub proof fn law_autostart_value_reads_back(exe_path: Seq<char>, start_minimized: bool)
    requires
        !exe_path.contains('\0'),
    ensures
        utf16_decode_lossy(
            before_nul(
                le_units(
                    le_bytes(utf16_encode(autostart_command_text(exe_path, start_minimized)).push(0u16)),
                ),
            ),
        ) == autostart_command_text(exe_path, start_minimized),
{
    let cmd = autostart_command_text(exe_path, start_minimized);
    lemma_command_has_no_nul(exe_path, start_minimized);
    law_le_bytes_round_trip(utf16_encode(cmd).push(0u16));
    law_utf16_terminator(cmd);
    law_utf16_round_trip(cmd);
}


/// Every entry of every language's catalogue is the text that language
/// shows for it; for instance English labels the Save and Close buttons of the
/// settings panel "Save" and "Close".
pub proof fn law_catalogue_entries(lang: Language)
    ensures
        ({
            let t = lang.texts();
            match lang {
                Language::En => {
                    &&& t.settings_btn == "Settings"@
                    &&& t.about_btn == "About"@
                    &&& t.refresh_btn == "Refresh"@
                    &&& t.scanning == "Scanning drives..."@
                    &&& t.no_drives_title == "No removable drives detected"@
                    &&& t.no_drives_desc == "Connect a USB flash drive or external drive to manage it."@
                    &&& t.scan_for_drives == "Scan for drives"@
                    &&& t.unlabeled_volume == "Unlabeled volume"@
                    &&& t.storage_device == "Storage device"@
                    &&& t.safely_remove == "Safely Remove"@
                    &&& t.removing == "Removing..."@
                    &&& t.ready == "Ready"@
                    &&& t.settings_title == "Settings"@
                    &&& t.settings_desc == "Configure startup, language, and window behavior"@
                    &&& t.language_label == "Language"@
                    &&& t.autostart_title == "Start automatically with Windows"@
                    &&& t.autostart_desc == "Launch application on system startup (Run Registry key)"@
                    &&& t.start_minimized_title == "Start minimized to system tray"@
                    &&& t.start_minimized_desc == "Do not show main window on startup, stay in notification area"@
                    &&& t.close_to_tray_title == "Minimize to tray on close (✕)"@
                    &&& t.close_to_tray_desc == "Closing the window hides the application instead of quitting"@
                    &&& t.save_btn == "Save"@
                    &&& t.close_btn == "Close"@
                    &&& t.about_desc == "A lightweight Windows utility for safely ejecting removable USB and Firewire drives."@
                    &&& t.about_ref == "A Rust port of USB Disk Ejector by QuickAndEasySoftware."@
                    &&& t.tray_open == "Open USB Disk Remover"@
                    &&& t.tray_settings == "Settings..."@
                    &&& t.tray_about == "About..."@
                    &&& t.tray_quit == "Quit"@
                },
                Language::It => {
                    &&& t.settings_btn == "Impostazioni"@
                    &&& t.about_btn == "Info"@
                    &&& t.refresh_btn == "Aggiorna"@
                    &&& t.scanning == "Scansione unità in corso..."@
                    &&& t.no_drives_title == "Nessuna unità rimovibile rilevata"@
                    &&& t.no_drives_desc == "Collega una chiavetta USB o un disco esterno per gestirlo."@
                    &&& t.scan_for_drives == "Cerca unità"@
                    &&& t.unlabeled_volume == "Unità senza etichetta"@
                    &&& t.storage_device == "Dispositivo di archiviazione"@
                    &&& t.safely_remove == "Rimuovi in sicurezza"@
                    &&& t.removing == "Rimozione in corso..."@
                    &&& t.ready == "Pronto"@
                    &&& t.settings_title == "Impostazioni"@
                    &&& t.settings_desc == "Configura avvio, lingua e comportamento della finestra"@
                    &&& t.language_label == "Lingua"@
                    &&& t.autostart_title == "Avvia automaticamente con Windows"@
                    &&& t.autostart_desc == "Esegue il programma all'avvio del sistema (Registro Run)"@
                    &&& t.start_minimized_title == "Avvia ridotto a icona nella tray"@
                    &&& t.start_minimized_desc == "All'avvio non mostra la finestra, resta nell'area di notifica"@
                    &&& t.close_to_tray_title == "Riduci nella tray alla chiusura (✕)"@
                    &&& t.close_to_tray_desc == "Il pulsante ✕ nasconde l'applicazione invece di chiuderla"@
                    &&& t.save_btn == "Salva"@
                    &&& t.close_btn == "Chiudi"@
                    &&& t.about_desc == "Utility nativa per Windows per espellere in sicurezza le unità USB e Firewire."@
                    &&& t.about_ref == "Porting in Rust di USB Disk Ejector di QuickAndEasySoftware."@
                    &&& t.tray_open == "Apri USB Disk Remover"@
                    &&& t.tray_settings == "Impostazioni..."@
                    &&& t.tray_about == "Informazioni..."@
                    &&& t.tray_quit == "Esci"@
                },
                Language::De => {
                    &&& t.settings_btn == "Einstellungen"@
                    &&& t.about_btn == "Über"@
                    &&& t.refresh_btn == "Aktualisieren"@
                    &&& t.scanning == "Laufwerke werden gescannt..."@
                    &&& t.no_drives_title == "Keine Wechsellaufwerke erkannt"@
                    &&& t.no_drives_desc == "Schließen Sie ein USB- oder Firewire-Laufwerk an, um es zu verwalten."@
                    &&& t.scan_for_drives == "Nach Laufwerken suchen"@
                    &&& t.unlabeled_volume == "Unbenanntes Volume"@
                    &&& t.storage_device == "Speichergerät"@
                    &&& t.safely_remove == "Sicher entfernen"@
                    &&& t.removing == "Wird entfernt..."@
                    &&& t.ready == "Bereit"@
                    &&& t.settings_title == "Einstellungen"@
                    &&& t.settings_desc == "Start, Sprache und Fensterverhalten konfigurieren"@
                    &&& t.language_label == "Sprache"@
                    &&& t.autostart_title == "Automatisch mit Windows starten"@
                    &&& t.autostart_desc == "Anwendung beim Systemstart ausführen (Registry-Eintrag)"@
                    &&& t.start_minimized_title == "Minimiert im Infobereich starten"@
                    &&& t.start_minimized_desc == "Hauptfenster beim Start nicht anzeigen, im Infobereich bleiben"@
                    &&& t.close_to_tray_title == "Beim Schließen minimieren (✕)"@
                    &&& t.close_to_tray_desc == "Schließen blendet die Anwendung im Infobereich aus"@
                    &&& t.save_btn == "Speichern"@
                    &&& t.close_btn == "Schließen"@
                    &&& t.about_desc == "Ein schlankes Windows-Tool zum sicheren Auswerfen von USB- und Firewire-Laufwerken."@
                    &&& t.about_ref == "Ein Rust-Port von USB Disk Ejector von QuickAndEasySoftware."@
                    &&& t.tray_open == "USB Disk Remover öffnen"@
                    &&& t.tray_settings == "Einstellungen..."@
                    &&& t.tray_about == "Über..."@
                    &&& t.tray_quit == "Beenden"@
                },
                Language::Fr => {
                    &&& t.settings_btn == "Paramètres"@
                    &&& t.about_btn == "À propos"@
                    &&& t.refresh_btn == "Actualiser"@
                    &&& t.scanning == "Analyse des lecteurs..."@
                    &&& t.no_drives_title == "Aucun lecteur amovible détecté"@
                    &&& t.no_drives_desc == "Connectez une clé USB ou un disque externe pour le gérer."@
                    &&& t.scan_for_drives == "Rechercher des lecteurs"@
                    &&& t.unlabeled_volume == "Volume sans nom"@
                    &&& t.storage_device == "Périphérique de stockage"@
                    &&& t.safely_remove == "Retirer en toute sécurité"@
                    &&& t.removing == "Suppression en cours..."@
                    &&& t.ready == "Prêt"@
                    &&& t.settings_title == "Paramètres"@
                    &&& t.settings_desc == "Configurer le démarrage, la langue et la fenêtre"@
                    &&& t.language_label == "Langue"@
                    &&& t.autostart_title == "Démarrer automatiquement avec Windows"@
                    &&& t.autostart_desc == "Lancer l'application au démarrage du système (Registre)"@
                    &&& t.start_minimized_title == "Démarrer minimisé dans la barre"@
                    &&& t.start_minimized_desc == "Ne pas afficher la fenêtre au démarrage, rester dans la barre"@
                    &&& t.close_to_tray_title == "Réduire dans la barre à la fermeture (✕)"@
                    &&& t.close_to_tray_desc == "Fermer la fenêtre masque l'application au lieu de la quitter"@
                    &&& t.save_btn == "Enregistrer"@
                    &&& t.close_btn == "Fermer"@
                    &&& t.about_desc == "Un utilitaire Windows léger pour éjecter les lecteurs USB et Firewire en sécurité."@
                    &&& t.about_ref == "Un portage en Rust de USB Disk Ejector par QuickAndEasySoftware."@
                    &&& t.tray_open == "Ouvrir USB Disk Remover"@
                    &&& t.tray_settings == "Paramètres..."@
                    &&& t.tray_about == "À propos..."@
                    &&& t.tray_quit == "Quitter"@
                },
                Language::Ar => {
                    &&& t.settings_btn == "الإعدادات"@
                    &&& t.about_btn == "حول"@
                    &&& t.refresh_btn == "تحديث"@
                    &&& t.scanning == "جارٍ فحص محركات الأقراص..."@
                    &&& t.no_drives_title == "لم يتم اكتشاف محركات أقراص قابلة للإزالة"@
                    &&& t.no_drives_desc == "قم بتوصيل محرك أقراص USB أو محرك أقراص خارجي لإدارته."@
                    &&& t.scan_for_drives == "البحث عن محركات الأقراص"@
                    &&& t.unlabeled_volume == "وحدة تخزين بدون تسمية"@
                    &&& t.storage_device == "جهاز تخزين"@
                    &&& t.safely_remove == "إزالة بأمان"@
                    &&& t.removing == "جارٍ الإزالة..."@
                    &&& t.ready == "جاهز"@
                    &&& t.settings_title == "الإعدادات"@
                    &&& t.settings_desc == "تكوين بدء التشغيل واللغة وسلوك النافذة"@
                    &&& t.language_label == "اللغة"@
                    &&& t.autostart_title == "بدء التشغيل تلقائيًا مع Windows"@
                    &&& t.autostart_desc == "تشغيل التطبيق تلقائيًا عند بدء النظام (مفتاح التسجيل)"@
                    &&& t.start_minimized_title == "بدء التشغيل مصغرًا في علبة النظام"@
                    &&& t.start_minimized_desc == "عدم إظهار النافذة عند بدء التشغيل، البقاء في علبة النظام"@
                    &&& t.close_to_tray_title == "التصغير إلى علبة النظام عند الإغلاق (✕)"@
                    &&& t.close_to_tray_desc == "إغلاق النافذة يخفي التطبيق في علبة النظام بدلاً من إنهائه"@
                    &&& t.save_btn == "حفظ"@
                    &&& t.close_btn == "إغلاق"@
                    &&& t.about_desc == "أداة خفيفة لنظام Windows لإزالة محركات أقراص USB وFirewire بأمان."@
                    &&& t.about_ref == "نسخة Rust من برنامج USB Disk Ejector لشركة QuickAndEasySoftware."@
                    &&& t.tray_open == "فتح USB Disk Remover"@
                    &&& t.tray_settings == "الإعدادات..."@
                    &&& t.tray_about == "حول..."@
                    &&& t.tray_quit == "خروج"@
                },
                Language::Ru => {
                    &&& t.settings_btn == "Настройки"@
                    &&& t.about_btn == "О программе"@
                    &&& t.refresh_btn == "Обновить"@
                    &&& t.scanning == "Сканирование дисков..."@
                    &&& t.no_drives_title == "Съемные диски не обнаружены"@
                    &&& t.no_drives_desc == "Подключите USB-накопитель или внешний диск для управления."@
                    &&& t.scan_for_drives == "Поиск дисков"@
                    &&& t.unlabeled_volume == "Том без метки"@
                    &&& t.storage_device == "Устройство хранения"@
                    &&& t.safely_remove == "Безопасное извлечение"@
                    &&& t.removing == "Извлечение..."@
                    &&& t.ready == "Готово"@
                    &&& t.settings_title == "Настройки"@
                    &&& t.settings_desc == "Настройка автозапуска, языка и поведения окна"@
                    &&& t.language_label == "Язык"@
                    &&& t.autostart_title == "Запуск вместе с Windows"@
                    &&& t.autostart_desc == "Запуск приложения при старте системы (ветка реестра Run)"@
                    &&& t.start_minimized_title == "Запуск свернутым в трей"@
                    &&& t.start_minimized_desc == "Не показывать окно при запуске, оставаться в области уведомлений"@
                    &&& t.close_to_tray_title == "Сворачивать в трей при закрытии (✕)"@
                    &&& t.close_to_tray_desc == "Нажатие на ✕ скрывает окно в трей вместо завершения программы"@
                    &&& t.save_btn == "Сохранить"@
                    &&& t.close_btn == "Закрыть"@
                    &&& t.about_desc == "Легкая утилита для безопасного извлечения USB и Firewire накопителей в Windows."@
                    &&& t.about_ref == "Порт на Rust утилиты USB Disk Ejector от QuickAndEasySoftware."@
                    &&& t.tray_open == "Открыть USB Disk Remover"@
                    &&& t.tray_settings == "Настройки..."@
                    &&& t.tray_about == "О программе..."@
                    &&& t.tray_quit == "Выход"@
                },
            }
        }),
{
}

/// In every language the settings button and the settings panel carry the
/// same title, the tray's settings entry is that title followed by "...", and
/// the Save and Close buttons of the settings panel carry different labels.
pub proof fn law_catalogue_relations(lang: Language)
    ensures
        lang.texts().settings_title == lang.texts().settings_btn,
        lang.texts().tray_settings == lang.texts().settings_btn + "..."@,
        lang.texts().save_btn != lang.texts().close_btn,
{
    law_catalogue_entries(lang);
    reveal_strlit("...");
    match lang {
        Language::En => {
            reveal_strlit("Settings");
            reveal_strlit("Settings...");
            reveal_strlit("Save");
            reveal_strlit("Close");
            assert("Settings..."@ =~= "Settings"@ + "..."@);
            assert("Save"@.len() != "Close"@.len());
        },
        Language::It => {
            reveal_strlit("Impostazioni");
            reveal_strlit("Impostazioni...");
            reveal_strlit("Salva");
            reveal_strlit("Chiudi");
            assert("Impostazioni..."@ =~= "Impostazioni"@ + "..."@);
            assert("Salva"@.len() != "Chiudi"@.len());
        },
        Language::De => {
            reveal_strlit("Einstellungen");
            reveal_strlit("Einstellungen...");
            reveal_strlit("Speichern");
            reveal_strlit("Schließen");
            assert("Einstellungen..."@ =~= "Einstellungen"@ + "..."@);
            assert("Speichern"@[1] != "Schließen"@[1]);
        },
        Language::Fr => {
            reveal_strlit("Paramètres");
            reveal_strlit("Paramètres...");
            reveal_strlit("Enregistrer");
            reveal_strlit("Fermer");
            assert("Paramètres..."@ =~= "Paramètres"@ + "..."@);
            assert("Enregistrer"@.len() != "Fermer"@.len());
        },
        Language::Ar => {
            reveal_strlit("الإعدادات");
            reveal_strlit("الإعدادات...");
            reveal_strlit("حفظ");
            reveal_strlit("إغلاق");
            assert("الإعدادات..."@ =~= "الإعدادات"@ + "..."@);
            assert("حفظ"@.len() != "إغلاق"@.len());
        },
        Language::Ru => {
            reveal_strlit("Настройки");
            reveal_strlit("Настройки...");
            reveal_strlit("Сохранить");
            reveal_strlit("Закрыть");
            assert("Настройки..."@ =~= "Настройки"@ + "..."@);
            assert("Сохранить"@.len() != "Закрыть"@.len());
        },
    }
}

/// The plural sentence of the scan status for a count: the count in decimal
/// inside the language's plural wording.
pub open spec fn plural_detected(lang: Language, count: nat) -> Seq<char> {
    match lang {
        Language::En => decimal(count) + " drives detected."@,
        Language::It => decimal(count) + " unità rilevate."@,
        Language::De => decimal(count) + " Laufwerke erkannt."@,
        Language::Fr => decimal(count) + " lecteurs détectés."@,
        Language::Ar => "تم اكتشاف "@ + decimal(count) + " محركات أقراص."@,
        Language::Ru => "Обнаружено "@ + decimal(count) + " дисков."@,
    }
}

/// The singular sentence of the scan status for exactly one drive.
pub open spec fn singular_detected(lang: Language) -> Seq<char> {
    match lang {
        Language::En => "1 drive detected."@,
        Language::It => "1 unità rilevata."@,
        Language::De => "1 Laufwerk erkannt."@,
        Language::Fr => "1 lecteur détecté."@,
        Language::Ar => "تم اكتشاف محرك أقراص واحد."@,
        Language::Ru => "Обнаружен 1 диск."@,
    }
}

/// For one drive every language uses its singular sentence, which is not what
/// the plural wording would give for one; every other count uses the plural
/// wording with the count in decimal.
pub proof fn law_drives_detected_singular_plural(lang: Language, count: nat)
    ensures
        lang.drives_detected_text(1) == singular_detected(lang),
        singular_detected(lang) != plural_detected(lang, 1),
        count != 1 ==> lang.drives_detected_text(count) == plural_detected(lang, count),
{
    assert(decimal(1) == seq!['1']);
    match lang {
        Language::En => {
            reveal_strlit("1 drive detected.");
            reveal_strlit(" drives detected.");
            assert(singular_detected(lang).len() != plural_detected(lang, 1).len());
        },
        Language::It => {
            reveal_strlit("1 unità rilevata.");
            reveal_strlit(" unità rilevate.");
            assert(plural_detected(lang, 1)[15] == " unità rilevate."@[14]);
            assert(singular_detected(lang)[15] != plural_detected(lang, 1)[15]);
        },
        Language::De => {
            reveal_strlit("1 Laufwerk erkannt.");
            reveal_strlit(" Laufwerke erkannt.");
            assert(singular_detected(lang).len() != plural_detected(lang, 1).len());
        },
        Language::Fr => {
            reveal_strlit("1 lecteur détecté.");
            reveal_strlit(" lecteurs détectés.");
            assert(singular_detected(lang).len() != plural_detected(lang, 1).len());
        },
        Language::Ar => {
            reveal_strlit("تم اكتشاف محرك أقراص واحد.");
            reveal_strlit("تم اكتشاف ");
            reveal_strlit(" محركات أقراص.");
            assert(singular_detected(lang).len() != plural_detected(lang, 1).len());
        },
        Language::Ru => {
            reveal_strlit("Обнаружен 1 диск.");
            reveal_strlit("Обнаружено ");
            reveal_strlit(" дисков.");
            assert(singular_detected(lang).len() != plural_detected(lang, 1).len());
        },
    }
}

/// The status line after a drive was ejected is never the line shown while
/// it is being ejected, and it is the mount point followed (or, in Arabic,
/// preceded) by the language's "safely removed" wording.
pub proof fn law_removed_differs_from_removing(lang: Language, mount_point: Seq<char>)
    ensures
        lang.safely_removed_text(mount_point) != lang.safely_removing_text(mount_point),
        lang.safely_removed_text(mount_point) == (match lang {
            Language::En => mount_point + " safely removed."@,
            Language::It => mount_point + " rimossa con successo."@,
            Language::De => mount_point + " sicher entfernt."@,
            Language::Fr => mount_point + " retiré en toute sécurité."@,
            Language::Ar => "تمت إزالة "@ + mount_point + " بأمان."@,
            Language::Ru => mount_point + " успешно извлечен."@,
        }),
{
    reveal_strlit("Safely removing ");
    reveal_strlit("...");
    reveal_strlit(" safely removed.");
    reveal_strlit("Rimozione sicura di ");
    reveal_strlit(" in corso...");
    reveal_strlit(" rimossa con successo.");
    reveal_strlit(" wird sicher entfernt...");
    reveal_strlit(" sicher entfernt.");
    reveal_strlit("Retrait de ");
    reveal_strlit(" en toute sécurité...");
    reveal_strlit(" retiré en toute sécurité.");
    reveal_strlit("جارٍ إزالة ");
    reveal_strlit(" بأمان...");
    reveal_strlit("تمت إزالة ");
    reveal_strlit(" بأمان.");
    reveal_strlit("Безопасное извлечение ");
    reveal_strlit(" успешно извлечен.");
    assert(lang.safely_removed_text(mount_point).len() != lang.safely_removing_text(
        mount_point,
    ).len());
}

/// After the Settings button the settings panel is shown exactly when it was
/// hidden before, and when it opens the about panel is hidden; so on a window
/// with no panel open it opens the settings panel. The About button behaves
/// the same way for the about panel.
pub proof fn law_toggle_buttons(p: Panels)
    ensures
        p.settings_toggled().show_settings == !p.show_settings,
        p.settings_toggled().show_settings ==> !p.settings_toggled().show_about,
        !p.show_settings ==> p.settings_toggled().show_about == false,
        p.show_settings ==> p.settings_toggled().show_about == p.show_about,
        p.about_toggled().show_about == !p.show_about,
        p.about_toggled().show_about ==> !p.about_toggled().show_settings,
        p.show_about ==> p.about_toggled().show_settings == p.show_settings,
        !p.show_about && !p.show_settings ==> p.settings_toggled() == (Panels {
            show_about: false,
            show_settings: true,
        }),
        !p.show_about && !p.show_settings ==> p.about_toggled() == (Panels {
            show_about: true,
            show_settings: false,
        }),
{
}

/// Loading keeps every stored choice except the autostart switch, which
/// always follows the registry, whatever the stored file said; with nothing
/// stored the defaults apply, again with the registry's autostart switch.
pub proof fn law_load_follows_registry(stored: Option<SettingsView>, autostart_enabled: bool)
    ensures
        loaded_settings(stored, autostart_enabled).start_with_windows == autostart_enabled,
        stored matches Some(s) ==> {
            &&& loaded_settings(stored, autostart_enabled).start_minimized == s.start_minimized
            &&& loaded_settings(stored, autostart_enabled).close_to_tray == s.close_to_tray
            &&& loaded_settings(stored, autostart_enabled).language == s.language
        },
        stored is None ==> {
            &&& !loaded_settings(stored, autostart_enabled).start_minimized
            &&& loaded_settings(stored, autostart_enabled).close_to_tray
            &&& loaded_settings(stored, autostart_enabled).language == "en"@
        },
{
}


/// The language selector lists English, Italian, German, French, Arabic and
/// Russian in that order, and their codes are `en`, `it`, `de`, `fr`, `ar`
/// and `ru`.
pub proof fn law_selector_order_and_codes(lang: Language)
    ensures
        lang.index_of() == (match lang {
            Language::En => 0nat,
            Language::It => 1nat,
            Language::De => 2nat,
            Language::Fr => 3nat,
            Language::Ar => 4nat,
            Language::Ru => 5nat,
        }),
        lang.code() == (match lang {
            Language::En => "en"@,
            Language::It => "it"@,
            Language::De => "de"@,
            Language::Fr => "fr"@,
            Language::Ar => "ar"@,
            Language::Ru => "ru"@,
        }),
{
}

/// Opening a panel from the notification area shows that panel and hides the
/// other one.
pub proof fn law_tray_opens_panel(p: Panels)
    ensures
        p.settings_opened().show_settings && !p.settings_opened().show_about,
        p.about_opened().show_about && !p.about_opened().show_settings,
{
}

/// The bus labels of the drive list are "USB", "1394" and "Other", one per
/// bus, all different.
pub proof fn law_bus_labels(bus: BusType, other: BusType)
    ensures
        bus_label(bus) == (match bus {
            BusType::Usb => "USB"@,
            BusType::Firewire => "1394"@,
            BusType::Unknown => "Other"@,
        }),
        bus != other ==> bus_label(bus) != bus_label(other),
{
    reveal_strlit("USB");
    reveal_strlit("1394");
    reveal_strlit("Other");
    assert("USB"@.len() != "1394"@.len());
    assert("USB"@.len() != "Other"@.len());
    assert("1394"@.len() != "Other"@.len());
}

/// The autostart command is the quoted path of the executable, and starting
/// minimised adds exactly the argument ` --minimized` behind it.
pub proof fn law_autostart_minimized_argument(exe_path: Seq<char>)
    ensures
        autostart_command_text(exe_path, false) == "\""@ + exe_path + "\""@,
        autostart_command_text(exe_path, true) == autostart_command_text(exe_path, false)
            + " --minimized"@,
{
    reveal_strlit("\"");
    reveal_strlit("\" --minimized");
    reveal_strlit(" --minimized");
    assert("\" --minimized"@ =~= "\""@ + " --minimized"@);
    assert(("\""@ + exe_path + "\""@) + " --minimized"@ =~= "\""@ + exe_path + "\" --minimized"@);
}

proof fn lemma_decimal_digits(n: nat)
    ensures
        decimal(n).len() > 0,
        forall|i: int| 0 <= i < decimal(n).len() ==> is_digit(#[trigger] decimal(n)[i]),
        digits_value(decimal(n)) == n,
    decreases n,
{
    let c = digit_char(n % 10);
    assert(c as nat == '0' as nat + n % 10);
    if n < 10 {
        assert(decimal(n).drop_last() =~= Seq::<char>::empty());
        assert(digits_value(Seq::<char>::empty()) == 0);
        assert(decimal(n).last() == c);
        assert(digits_value(decimal(n)) == (c as nat - '0' as nat) as nat);
    } else {
        lemma_decimal_digits(n / 10);
        let d = decimal(n / 10);
        assert(decimal(n).drop_last() =~= d);
        assert(decimal(n).last() == c);
        assert((n / 10) * 10 + n % 10 == n);
        assert(digits_value(decimal(n)) == digits_value(d) * 10 + (c as nat - '0' as nat) as nat);
        assert forall|i: int| 0 <= i < decimal(n).len() implies is_digit(#[trigger] decimal(n)[i]) by {
            if i < d.len() {
                assert(decimal(n)[i] == d[i]);
            }
        }
    }
}

/// Writing a 32-bit number in decimal and parsing it back gives the number.
pub proof fn law_decimal_parse_round_trip(n: nat)
    requires
        n <= u32::MAX,
    ensures
        parse_u32_text(decimal(n)) == Some(n as u32),
{
    lemma_decimal_digits(n);
    assert(is_digit(decimal(n)[0]));
    assert(unsigned_digits(decimal(n)) == decimal(n));
}

/// A trailing backslash never changes which place a mount point names, and a
/// mount point that does not end in one is compared as it is.
pub proof fn law_trailing_backslash_ignored(s: Seq<char>)
    ensures
        trim_end_backslashes(s.push('\\')) == trim_end_backslashes(s),
        (s.len() == 0 || s.last() != '\\') ==> trim_end_backslashes(s) == s,
{
    assert(s.push('\\').drop_last() =~= s);
}

/// The three ways an ejection can end give three different status lines for
/// the same drive, each in the language's wording: in progress, removed, not
/// found, and a failure that ends with the error's text.
pub proof fn law_eject_messages(lang: Language, mount_point: Seq<char>, err: Seq<char>)
    ensures
        lang.safely_removing_text(mount_point) == (match lang {
            Language::En => "Safely removing "@ + mount_point + "..."@,
            Language::It => "Rimozione sicura di "@ + mount_point + " in corso..."@,
            Language::De => mount_point + " wird sicher entfernt..."@,
            Language::Fr => "Retrait de "@ + mount_point + " en toute sécurité..."@,
            Language::Ar => "جارٍ إزالة "@ + mount_point + " بأمان..."@,
            Language::Ru => "Безопасное извлечение "@ + mount_point + "..."@,
        }),
        lang.drive_not_found_text(mount_point) == (match lang {
            Language::En => "Drive "@ + mount_point + " not found."@,
            Language::It => "Unità "@ + mount_point + " non trovata."@,
            Language::De => "Laufwerk "@ + mount_point + " nicht gefunden."@,
            Language::Fr => "Lecteur "@ + mount_point + " introuvable."@,
            Language::Ar => "محرك الأقراص "@ + mount_point + " غير موجود."@,
            Language::Ru => "Диск "@ + mount_point + " не найден."@,
        }),
        lang.eject_error_text(mount_point, err) == (match lang {
            Language::En => "Error ejecting "@ + mount_point + ": "@,
            Language::It => "Errore espulsione "@ + mount_point + ": "@,
            Language::De => "Fehler beim Auswerfen von "@ + mount_point + ": "@,
            Language::Fr => "Erreur lors de l'éjection de "@ + mount_point + ": "@,
            Language::Ar => "خطأ أثناء إخراج "@ + mount_point + ": "@,
            Language::Ru => "Ошибка извлечения "@ + mount_point + ": "@,
        }) + err,
        lang.safely_removed_text(mount_point) != lang.drive_not_found_text(mount_point),
{
    reveal_strlit(" safely removed.");
    reveal_strlit("Drive ");
    reveal_strlit(" not found.");
    reveal_strlit(" rimossa con successo.");
    reveal_strlit("Unità ");
    reveal_strlit(" non trovata.");
    reveal_strlit(" sicher entfernt.");
    reveal_strlit("Laufwerk ");
    reveal_strlit(" nicht gefunden.");
    reveal_strlit(" retiré en toute sécurité.");
    reveal_strlit("Lecteur ");
    reveal_strlit(" introuvable.");
    reveal_strlit("تمت إزالة ");
    reveal_strlit(" بأمان.");
    reveal_strlit("محرك الأقراص ");
    reveal_strlit(" غير موجود.");
    reveal_strlit(" успешно извлечен.");
    reveal_strlit("Диск ");
    reveal_strlit(" не найден.");
    assert(lang.safely_removed_text(mount_point).len() != lang.drive_not_found_text(
        mount_point,
    ).len());
}


/// A scan that found no drive reports the "no removable drives" title; any
/// other scan reports how many drives it found.
pub proof fn law_scan_status(lang: Language, count: nat)
    ensures
        scan_status(lang, 0) == lang.texts().no_drives_title,
        count > 0 ==> scan_status(lang, count) == lang.drives_detected_text(count),
{
}

/// An ejection reports the removed line when the drive was ejected, the
/// error line with the failure's text when ejecting failed, and the not-found
/// line when no drive was there.
pub proof fn law_eject_outcome_messages(lang: Language, mount_point: Seq<char>, err: String)
    ensures
        eject_message(lang, mount_point, EjectOutcome::Ejected) == lang.safely_removed_text(
            mount_point,
        ),
        eject_message(lang, mount_point, EjectOutcome::Failed(err)) == lang.eject_error_text(
            mount_point,
            err@,
        ),
        eject_message(lang, mount_point, EjectOutcome::NotFound) == lang.drive_not_found_text(
            mount_point,
        ),
{
}

} // verus!
