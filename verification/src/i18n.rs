use vstd::prelude::*;

use crate::text::{decimal, push_decimal};
use vstd::utf8::is_ascii_chars;

verus! {

/// A user interface language.
#[derive(Debug, Clone, Copy, PartialEq, Eq, Structural)]
pub enum Language {
    En,
    It,
    De,
    Fr,
    Ar,
    Ru,
}

impl Default for Language {
    fn default() -> (r: Self)
        ensures
            r == Language::En,
    {
        Language::En
    }
}

/// The interface texts of one language.
#[derive(Debug, Clone)]
pub struct I18nStrings {
    pub settings_btn: String,
    pub about_btn: String,
    pub refresh_btn: String,
    pub scanning: String,
    pub no_drives_title: String,
    pub no_drives_desc: String,
    pub scan_for_drives: String,
    pub unlabeled_volume: String,
    pub storage_device: String,
    pub safely_remove: String,
    pub removing: String,
    pub ready: String,
    pub settings_title: String,
    pub settings_desc: String,
    pub language_label: String,
    pub autostart_title: String,
    pub autostart_desc: String,
    pub start_minimized_title: String,
    pub start_minimized_desc: String,
    pub close_to_tray_title: String,
    pub close_to_tray_desc: String,
    pub save_btn: String,
    pub close_btn: String,
    pub about_desc: String,
    pub about_ref: String,
    pub tray_open: String,
    pub tray_settings: String,
    pub tray_about: String,
    pub tray_quit: String,
}

/// The interface texts of one language, as character sequences.
pub struct I18nText {
    pub settings_btn: Seq<char>,
    pub about_btn: Seq<char>,
    pub refresh_btn: Seq<char>,
    pub scanning: Seq<char>,
    pub no_drives_title: Seq<char>,
    pub no_drives_desc: Seq<char>,
    pub scan_for_drives: Seq<char>,
    pub unlabeled_volume: Seq<char>,
    pub storage_device: Seq<char>,
    pub safely_remove: Seq<char>,
    pub removing: Seq<char>,
    pub ready: Seq<char>,
    pub settings_title: Seq<char>,
    pub settings_desc: Seq<char>,
    pub language_label: Seq<char>,
    pub autostart_title: Seq<char>,
    pub autostart_desc: Seq<char>,
    pub start_minimized_title: Seq<char>,
    pub start_minimized_desc: Seq<char>,
    pub close_to_tray_title: Seq<char>,
    pub close_to_tray_desc: Seq<char>,
    pub save_btn: Seq<char>,
    pub close_btn: Seq<char>,
    pub about_desc: Seq<char>,
    pub about_ref: Seq<char>,
    pub tray_open: Seq<char>,
    pub tray_settings: Seq<char>,
    pub tray_about: Seq<char>,
    pub tray_quit: Seq<char>,
}

impl View for I18nStrings {
    type V = I18nText;

    open spec fn view(&self) -> I18nText {
        I18nText {
            settings_btn: self.settings_btn@,
            about_btn: self.about_btn@,
            refresh_btn: self.refresh_btn@,
            scanning: self.scanning@,
            no_drives_title: self.no_drives_title@,
            no_drives_desc: self.no_drives_desc@,
            scan_for_drives: self.scan_for_drives@,
            unlabeled_volume: self.unlabeled_volume@,
            storage_device: self.storage_device@,
            safely_remove: self.safely_remove@,
            removing: self.removing@,
            ready: self.ready@,
            settings_title: self.settings_title@,
            settings_desc: self.settings_desc@,
            language_label: self.language_label@,
            autostart_title: self.autostart_title@,
            autostart_desc: self.autostart_desc@,
            start_minimized_title: self.start_minimized_title@,
            start_minimized_desc: self.start_minimized_desc@,
            close_to_tray_title: self.close_to_tray_title@,
            close_to_tray_desc: self.close_to_tray_desc@,
            save_btn: self.save_btn@,
            close_btn: self.close_btn@,
            about_desc: self.about_desc@,
            about_ref: self.about_ref@,
            tray_open: self.tray_open@,
            tray_settings: self.tray_settings@,
            tray_about: self.tray_about@,
            tray_quit: self.tray_quit@,
        }
    }
}

/// The text that `str::to_lowercase` gives for a text: its full Unicode
/// lower-case mapping, which depends on the text alone.
pub uninterp spec fn lowercase(s: Seq<char>) -> Seq<char>;

/// The ASCII lower-case form of one character; other characters stay.
pub open spec fn ascii_lower_char(c: char) -> char {
    if 'A' <= c && c <= 'Z' {
        ((c as u32) + 32) as char
    } else {
        c
    }
}

/// The ASCII lower-case form of a text.
pub open spec fn ascii_lowercase(s: Seq<char>) -> Seq<char> {
    s.map_values(|c: char| ascii_lower_char(c))
}

/// Calls `str::to_lowercase`. Trusted: the result is the named Unicode
/// lower-case mapping of the input, and on an all-ASCII input it is the ASCII
/// lower-case form (upper-case letters A to Z become a to z, every other
/// character is kept), as the standard library documents for ASCII.
#[verifier::external_body]
fn lowercase_of(s: &str) -> (r: String)
    ensures
        r@ == lowercase(s@),
        is_ascii_chars(s@) ==> r@ == ascii_lowercase(s@),
{
    s.to_lowercase()
}

/// How many languages there are; selector positions run below this.
pub open spec fn language_count() -> nat {
    6
}

/// `prefix`, then `middle`, then `suffix`, as one string.
fn framed(prefix: &str, middle: &str, suffix: &str) -> (r: String)
    ensures
        r@ == prefix@ + middle@ + suffix@,
{
    let mut s = String::from_str(prefix);
    s.append(middle);
    s.append(suffix);
    s
}

/// `prefix`, the decimal form of `count`, then `suffix`, as one string.
fn framed_count(prefix: &str, count: usize, suffix: &str) -> (r: String)
    ensures
        r@ == prefix@ + decimal(count as nat) + suffix@,
{
    let mut s = String::from_str(prefix);
    push_decimal(&mut s, count);
    s.append(suffix);
    s
}

impl Language {
    /// The position of the language in the language selector.
    pub open spec fn index_of(self) -> nat {
        match self {
            Language::En => 0,
            Language::It => 1,
            Language::De => 2,
            Language::Fr => 3,
            Language::Ar => 4,
            Language::Ru => 5,
        }
    }

    /// The language at a selector position; positions past the end give English.
    pub open spec fn at_index(index: nat) -> Language {
        if index == 1 {
            Language::It
        } else if index == 2 {
            Language::De
        } else if index == 3 {
            Language::Fr
        } else if index == 4 {
            Language::Ar
        } else if index == 5 {
            Language::Ru
        } else {
            Language::En
        }
    }

    /// The two-letter lower-case code of the language.
    pub open spec fn code(self) -> Seq<char> {
        match self {
            Language::En => "en"@,
            Language::It => "it"@,
            Language::De => "de"@,
            Language::Fr => "fr"@,
            Language::Ar => "ar"@,
            Language::Ru => "ru"@,
        }
    }

    /// The language that an already lower-cased code names; any other text
    /// gives English.
    pub open spec fn of_lowercase_code(code: Seq<char>) -> Language {
        if code == "it"@ {
            Language::It
        } else if code == "de"@ {
            Language::De
        } else if code == "fr"@ {
            Language::Fr
        } else if code == "ar"@ {
            Language::Ar
        } else if code == "ru"@ {
            Language::Ru
        } else {
            Language::En
        }
    }

    /// The status line after a scan that found `count` drives.
    pub open spec fn drives_detected_text(self, count: nat) -> Seq<char> {
        match self {
            Language::En => if count == 1 {
                "1 drive detected."@
            } else {
                decimal(count) + " drives detected."@
            },
            Language::It => if count == 1 {
                "1 unità rilevata."@
            } else {
                decimal(count) + " unità rilevate."@
            },
            Language::De => if count == 1 {
                "1 Laufwerk erkannt."@
            } else {
                decimal(count) + " Laufwerke erkannt."@
            },
            Language::Fr => if count == 1 {
                "1 lecteur détecté."@
            } else {
                decimal(count) + " lecteurs détectés."@
            },
            Language::Ar => if count == 1 {
                "تم اكتشاف محرك أقراص واحد."@
            } else {
                "تم اكتشاف "@ + decimal(count) + " محركات أقراص."@
            },
            Language::Ru => if count == 1 {
                "Обнаружен 1 диск."@
            } else {
                "Обнаружено "@ + decimal(count) + " дисков."@
            },
        }
    }

    /// The status line while `mount_point` is being ejected.
    pub open spec fn safely_removing_text(self, mount_point: Seq<char>) -> Seq<char> {
        match self {
            Language::En => "Safely removing "@ + mount_point + "..."@,
            Language::It => "Rimozione sicura di "@ + mount_point + " in corso..."@,
            Language::De => mount_point + " wird sicher entfernt..."@,
            Language::Fr => "Retrait de "@ + mount_point + " en toute sécurité..."@,
            Language::Ar => "جارٍ إزالة "@ + mount_point + " بأمان..."@,
            Language::Ru => "Безопасное извлечение "@ + mount_point + "..."@,
        }
    }

    /// The status line after `mount_point` was ejected.
    pub open spec fn safely_removed_text(self, mount_point: Seq<char>) -> Seq<char> {
        match self {
            Language::En => mount_point + " safely removed."@,
            Language::It => mount_point + " rimossa con successo."@,
            Language::De => mount_point + " sicher entfernt."@,
            Language::Fr => mount_point + " retiré en toute sécurité."@,
            Language::Ar => "تمت إزالة "@ + mount_point + " بأمان."@,
            Language::Ru => mount_point + " успешно извлечен."@,
        }
    }

    /// The status line after ejecting `mount_point` failed with `err`.
    pub open spec fn eject_error_text(self, mount_point: Seq<char>, err: Seq<char>) -> Seq<char> {
        match self {
            Language::En => "Error ejecting "@ + mount_point + ": "@ + err,
            Language::It => "Errore espulsione "@ + mount_point + ": "@ + err,
            Language::De => "Fehler beim Auswerfen von "@ + mount_point + ": "@ + err,
            Language::Fr => "Erreur lors de l'éjection de "@ + mount_point + ": "@ + err,
            Language::Ar => "خطأ أثناء إخراج "@ + mount_point + ": "@ + err,
            Language::Ru => "Ошибка извлечения "@ + mount_point + ": "@ + err,
        }
    }

    /// The status line when no drive is mounted at `mount_point`.
    pub open spec fn drive_not_found_text(self, mount_point: Seq<char>) -> Seq<char> {
        match self {
            Language::En => "Drive "@ + mount_point + " not found."@,
            Language::It => "Unità "@ + mount_point + " non trovata."@,
            Language::De => "Laufwerk "@ + mount_point + " nicht gefunden."@,
            Language::Fr => "Lecteur "@ + mount_point + " introuvable."@,
            Language::Ar => "محرك الأقراص "@ + mount_point + " غير موجود."@,
            Language::Ru => "Диск "@ + mount_point + " не найден."@,
        }
    }

    /// The catalogue of interface texts of the language.
    pub open spec fn texts(self) -> I18nText {
        match self {
            Language::En => I18nText {
                settings_btn: "Settings"@,
                about_btn: "About"@,
                refresh_btn: "Refresh"@,
                scanning: "Scanning drives..."@,
                no_drives_title: "No removable drives detected"@,
                no_drives_desc: "Connect a USB flash drive or external drive to manage it."@,
                scan_for_drives: "Scan for drives"@,
                unlabeled_volume: "Unlabeled volume"@,
                storage_device: "Storage device"@,
                safely_remove: "Safely Remove"@,
                removing: "Removing..."@,
                ready: "Ready"@,
                settings_title: "Settings"@,
                settings_desc: "Configure startup, language, and window behavior"@,
                language_label: "Language"@,
                autostart_title: "Start automatically with Windows"@,
                autostart_desc: "Launch application on system startup (Run Registry key)"@,
                start_minimized_title: "Start minimized to system tray"@,
                start_minimized_desc: "Do not show main window on startup, stay in notification area"@,
                close_to_tray_title: "Minimize to tray on close (✕)"@,
                close_to_tray_desc: "Closing the window hides the application instead of quitting"@,
                save_btn: "Save"@,
                close_btn: "Close"@,
                about_desc: "A lightweight Windows utility for safely ejecting removable USB and Firewire drives."@,
                about_ref: "A Rust port of USB Disk Ejector by QuickAndEasySoftware."@,
                tray_open: "Open USB Disk Remover"@,
                tray_settings: "Settings..."@,
                tray_about: "About..."@,
                tray_quit: "Quit"@,
            },
            Language::It => I18nText {
                settings_btn: "Impostazioni"@,
                about_btn: "Info"@,
                refresh_btn: "Aggiorna"@,
                scanning: "Scansione unità in corso..."@,
                no_drives_title: "Nessuna unità rimovibile rilevata"@,
                no_drives_desc: "Collega una chiavetta USB o un disco esterno per gestirlo."@,
                scan_for_drives: "Cerca unità"@,
                unlabeled_volume: "Unità senza etichetta"@,
                storage_device: "Dispositivo di archiviazione"@,
                safely_remove: "Rimuovi in sicurezza"@,
                removing: "Rimozione in corso..."@,
                ready: "Pronto"@,
                settings_title: "Impostazioni"@,
                settings_desc: "Configura avvio, lingua e comportamento della finestra"@,
                language_label: "Lingua"@,
                autostart_title: "Avvia automaticamente con Windows"@,
                autostart_desc: "Esegue il programma all'avvio del sistema (Registro Run)"@,
                start_minimized_title: "Avvia ridotto a icona nella tray"@,
                start_minimized_desc: "All'avvio non mostra la finestra, resta nell'area di notifica"@,
                close_to_tray_title: "Riduci nella tray alla chiusura (✕)"@,
                close_to_tray_desc: "Il pulsante ✕ nasconde l'applicazione invece di chiuderla"@,
                save_btn: "Salva"@,
                close_btn: "Chiudi"@,
                about_desc: "Utility nativa per Windows per espellere in sicurezza le unità USB e Firewire."@,
                about_ref: "Porting in Rust di USB Disk Ejector di QuickAndEasySoftware."@,
                tray_open: "Apri USB Disk Remover"@,
                tray_settings: "Impostazioni..."@,
                tray_about: "Informazioni..."@,
                tray_quit: "Esci"@,
            },
            Language::De => I18nText {
                settings_btn: "Einstellungen"@,
                about_btn: "Über"@,
                refresh_btn: "Aktualisieren"@,
                scanning: "Laufwerke werden gescannt..."@,
                no_drives_title: "Keine Wechsellaufwerke erkannt"@,
                no_drives_desc: "Schließen Sie ein USB- oder Firewire-Laufwerk an, um es zu verwalten."@,
                scan_for_drives: "Nach Laufwerken suchen"@,
                unlabeled_volume: "Unbenanntes Volume"@,
                storage_device: "Speichergerät"@,
                safely_remove: "Sicher entfernen"@,
                removing: "Wird entfernt..."@,
                ready: "Bereit"@,
                settings_title: "Einstellungen"@,
                settings_desc: "Start, Sprache und Fensterverhalten konfigurieren"@,
                language_label: "Sprache"@,
                autostart_title: "Automatisch mit Windows starten"@,
                autostart_desc: "Anwendung beim Systemstart ausführen (Registry-Eintrag)"@,
                start_minimized_title: "Minimiert im Infobereich starten"@,
                start_minimized_desc: "Hauptfenster beim Start nicht anzeigen, im Infobereich bleiben"@,
                close_to_tray_title: "Beim Schließen minimieren (✕)"@,
                close_to_tray_desc: "Schließen blendet die Anwendung im Infobereich aus"@,
                save_btn: "Speichern"@,
                close_btn: "Schließen"@,
                about_desc: "Ein schlankes Windows-Tool zum sicheren Auswerfen von USB- und Firewire-Laufwerken."@,
                about_ref: "Ein Rust-Port von USB Disk Ejector von QuickAndEasySoftware."@,
                tray_open: "USB Disk Remover öffnen"@,
                tray_settings: "Einstellungen..."@,
                tray_about: "Über..."@,
                tray_quit: "Beenden"@,
            },
            Language::Fr => I18nText {
                settings_btn: "Paramètres"@,
                about_btn: "À propos"@,
                refresh_btn: "Actualiser"@,
                scanning: "Analyse des lecteurs..."@,
                no_drives_title: "Aucun lecteur amovible détecté"@,
                no_drives_desc: "Connectez une clé USB ou un disque externe pour le gérer."@,
                scan_for_drives: "Rechercher des lecteurs"@,
                unlabeled_volume: "Volume sans nom"@,
                storage_device: "Périphérique de stockage"@,
                safely_remove: "Retirer en toute sécurité"@,
                removing: "Suppression en cours..."@,
                ready: "Prêt"@,
                settings_title: "Paramètres"@,
                settings_desc: "Configurer le démarrage, la langue et la fenêtre"@,
                language_label: "Langue"@,
                autostart_title: "Démarrer automatiquement avec Windows"@,
                autostart_desc: "Lancer l'application au démarrage du système (Registre)"@,
                start_minimized_title: "Démarrer minimisé dans la barre"@,
                start_minimized_desc: "Ne pas afficher la fenêtre au démarrage, rester dans la barre"@,
                close_to_tray_title: "Réduire dans la barre à la fermeture (✕)"@,
                close_to_tray_desc: "Fermer la fenêtre masque l'application au lieu de la quitter"@,
                save_btn: "Enregistrer"@,
                close_btn: "Fermer"@,
                about_desc: "Un utilitaire Windows léger pour éjecter les lecteurs USB et Firewire en sécurité."@,
                about_ref: "Un portage en Rust de USB Disk Ejector par QuickAndEasySoftware."@,
                tray_open: "Ouvrir USB Disk Remover"@,
                tray_settings: "Paramètres..."@,
                tray_about: "À propos..."@,
                tray_quit: "Quitter"@,
            },
            Language::Ar => I18nText {
                settings_btn: "الإعدادات"@,
                about_btn: "حول"@,
                refresh_btn: "تحديث"@,
                scanning: "جارٍ فحص محركات الأقراص..."@,
                no_drives_title: "لم يتم اكتشاف محركات أقراص قابلة للإزالة"@,
                no_drives_desc: "قم بتوصيل محرك أقراص USB أو محرك أقراص خارجي لإدارته."@,
                scan_for_drives: "البحث عن محركات الأقراص"@,
                unlabeled_volume: "وحدة تخزين بدون تسمية"@,
                storage_device: "جهاز تخزين"@,
                safely_remove: "إزالة بأمان"@,
                removing: "جارٍ الإزالة..."@,
                ready: "جاهز"@,
                settings_title: "الإعدادات"@,
                settings_desc: "تكوين بدء التشغيل واللغة وسلوك النافذة"@,
                language_label: "اللغة"@,
                autostart_title: "بدء التشغيل تلقائيًا مع Windows"@,
                autostart_desc: "تشغيل التطبيق تلقائيًا عند بدء النظام (مفتاح التسجيل)"@,
                start_minimized_title: "بدء التشغيل مصغرًا في علبة النظام"@,
                start_minimized_desc: "عدم إظهار النافذة عند بدء التشغيل، البقاء في علبة النظام"@,
                close_to_tray_title: "التصغير إلى علبة النظام عند الإغلاق (✕)"@,
                close_to_tray_desc: "إغلاق النافذة يخفي التطبيق في علبة النظام بدلاً من إنهائه"@,
                save_btn: "حفظ"@,
                close_btn: "إغلاق"@,
                about_desc: "أداة خفيفة لنظام Windows لإزالة محركات أقراص USB وFirewire بأمان."@,
                about_ref: "نسخة Rust من برنامج USB Disk Ejector لشركة QuickAndEasySoftware."@,
                tray_open: "فتح USB Disk Remover"@,
                tray_settings: "الإعدادات..."@,
                tray_about: "حول..."@,
                tray_quit: "خروج"@,
            },
            Language::Ru => I18nText {
                settings_btn: "Настройки"@,
                about_btn: "О программе"@,
                refresh_btn: "Обновить"@,
                scanning: "Сканирование дисков..."@,
                no_drives_title: "Съемные диски не обнаружены"@,
                no_drives_desc: "Подключите USB-накопитель или внешний диск для управления."@,
                scan_for_drives: "Поиск дисков"@,
                unlabeled_volume: "Том без метки"@,
                storage_device: "Устройство хранения"@,
                safely_remove: "Безопасное извлечение"@,
                removing: "Извлечение..."@,
                ready: "Готово"@,
                settings_title: "Настройки"@,
                settings_desc: "Настройка автозапуска, языка и поведения окна"@,
                language_label: "Язык"@,
                autostart_title: "Запуск вместе с Windows"@,
                autostart_desc: "Запуск приложения при старте системы (ветка реестра Run)"@,
                start_minimized_title: "Запуск свернутым в трей"@,
                start_minimized_desc: "Не показывать окно при запуске, оставаться в области уведомлений"@,
                close_to_tray_title: "Сворачивать в трей при закрытии (✕)"@,
                close_to_tray_desc: "Нажатие на ✕ скрывает окно в трей вместо завершения программы"@,
                save_btn: "Сохранить"@,
                close_btn: "Закрыть"@,
                about_desc: "Легкая утилита для безопасного извлечения USB и Firewire накопителей в Windows."@,
                about_ref: "Порт на Rust утилиты USB Disk Ejector от QuickAndEasySoftware."@,
                tray_open: "Открыть USB Disk Remover"@,
                tray_settings: "Настройки..."@,
                tray_about: "О программе..."@,
                tray_quit: "Выход"@,
            },
        }
    }

    /// The catalogue of interface texts of the language.
    pub fn get_strings(self) -> (r: I18nStrings)
        ensures
            r@ == self.texts(),
    {
        match self {
            Language::En => I18nStrings {
                settings_btn: String::from_str("Settings"),
                about_btn: String::from_str("About"),
                refresh_btn: String::from_str("Refresh"),
                scanning: String::from_str("Scanning drives..."),
                no_drives_title: String::from_str("No removable drives detected"),
                no_drives_desc: String::from_str("Connect a USB flash drive or external drive to manage it."),
                scan_for_drives: String::from_str("Scan for drives"),
                unlabeled_volume: String::from_str("Unlabeled volume"),
                storage_device: String::from_str("Storage device"),
                safely_remove: String::from_str("Safely Remove"),
                removing: String::from_str("Removing..."),
                ready: String::from_str("Ready"),
                settings_title: String::from_str("Settings"),
                settings_desc: String::from_str("Configure startup, language, and window behavior"),
                language_label: String::from_str("Language"),
                autostart_title: String::from_str("Start automatically with Windows"),
                autostart_desc: String::from_str("Launch application on system startup (Run Registry key)"),
                start_minimized_title: String::from_str("Start minimized to system tray"),
                start_minimized_desc: String::from_str("Do not show main window on startup, stay in notification area"),
                close_to_tray_title: String::from_str("Minimize to tray on close (✕)"),
                close_to_tray_desc: String::from_str("Closing the window hides the application instead of quitting"),
                save_btn: String::from_str("Save"),
                close_btn: String::from_str("Close"),
                about_desc: String::from_str("A lightweight Windows utility for safely ejecting removable USB and Firewire drives."),
                about_ref: String::from_str("A Rust port of USB Disk Ejector by QuickAndEasySoftware."),
                tray_open: String::from_str("Open USB Disk Remover"),
                tray_settings: String::from_str("Settings..."),
                tray_about: String::from_str("About..."),
                tray_quit: String::from_str("Quit"),
            },
            Language::It => I18nStrings {
                settings_btn: String::from_str("Impostazioni"),
                about_btn: String::from_str("Info"),
                refresh_btn: String::from_str("Aggiorna"),
                scanning: String::from_str("Scansione unità in corso..."),
                no_drives_title: String::from_str("Nessuna unità rimovibile rilevata"),
                no_drives_desc: String::from_str("Collega una chiavetta USB o un disco esterno per gestirlo."),
                scan_for_drives: String::from_str("Cerca unità"),
                unlabeled_volume: String::from_str("Unità senza etichetta"),
                storage_device: String::from_str("Dispositivo di archiviazione"),
                safely_remove: String::from_str("Rimuovi in sicurezza"),
                removing: String::from_str("Rimozione in corso..."),
                ready: String::from_str("Pronto"),
                settings_title: String::from_str("Impostazioni"),
                settings_desc: String::from_str("Configura avvio, lingua e comportamento della finestra"),
                language_label: String::from_str("Lingua"),
                autostart_title: String::from_str("Avvia automaticamente con Windows"),
                autostart_desc: String::from_str("Esegue il programma all'avvio del sistema (Registro Run)"),
                start_minimized_title: String::from_str("Avvia ridotto a icona nella tray"),
                start_minimized_desc: String::from_str("All'avvio non mostra la finestra, resta nell'area di notifica"),
                close_to_tray_title: String::from_str("Riduci nella tray alla chiusura (✕)"),
                close_to_tray_desc: String::from_str("Il pulsante ✕ nasconde l'applicazione invece di chiuderla"),
                save_btn: String::from_str("Salva"),
                close_btn: String::from_str("Chiudi"),
                about_desc: String::from_str("Utility nativa per Windows per espellere in sicurezza le unità USB e Firewire."),
                about_ref: String::from_str("Porting in Rust di USB Disk Ejector di QuickAndEasySoftware."),
                tray_open: String::from_str("Apri USB Disk Remover"),
                tray_settings: String::from_str("Impostazioni..."),
                tray_about: String::from_str("Informazioni..."),
                tray_quit: String::from_str("Esci"),
            },
            Language::De => I18nStrings {
                settings_btn: String::from_str("Einstellungen"),
                about_btn: String::from_str("Über"),
                refresh_btn: String::from_str("Aktualisieren"),
                scanning: String::from_str("Laufwerke werden gescannt..."),
                no_drives_title: String::from_str("Keine Wechsellaufwerke erkannt"),
                no_drives_desc: String::from_str("Schließen Sie ein USB- oder Firewire-Laufwerk an, um es zu verwalten."),
                scan_for_drives: String::from_str("Nach Laufwerken suchen"),
                unlabeled_volume: String::from_str("Unbenanntes Volume"),
                storage_device: String::from_str("Speichergerät"),
                safely_remove: String::from_str("Sicher entfernen"),
                removing: String::from_str("Wird entfernt..."),
                ready: String::from_str("Bereit"),
                settings_title: String::from_str("Einstellungen"),
                settings_desc: String::from_str("Start, Sprache und Fensterverhalten konfigurieren"),
                language_label: String::from_str("Sprache"),
                autostart_title: String::from_str("Automatisch mit Windows starten"),
                autostart_desc: String::from_str("Anwendung beim Systemstart ausführen (Registry-Eintrag)"),
                start_minimized_title: String::from_str("Minimiert im Infobereich starten"),
                start_minimized_desc: String::from_str("Hauptfenster beim Start nicht anzeigen, im Infobereich bleiben"),
                close_to_tray_title: String::from_str("Beim Schließen minimieren (✕)"),
                close_to_tray_desc: String::from_str("Schließen blendet die Anwendung im Infobereich aus"),
                save_btn: String::from_str("Speichern"),
                close_btn: String::from_str("Schließen"),
                about_desc: String::from_str("Ein schlankes Windows-Tool zum sicheren Auswerfen von USB- und Firewire-Laufwerken."),
                about_ref: String::from_str("Ein Rust-Port von USB Disk Ejector von QuickAndEasySoftware."),
                tray_open: String::from_str("USB Disk Remover öffnen"),
                tray_settings: String::from_str("Einstellungen..."),
                tray_about: String::from_str("Über..."),
                tray_quit: String::from_str("Beenden"),
            },
            Language::Fr => I18nStrings {
                settings_btn: String::from_str("Paramètres"),
                about_btn: String::from_str("À propos"),
                refresh_btn: String::from_str("Actualiser"),
                scanning: String::from_str("Analyse des lecteurs..."),
                no_drives_title: String::from_str("Aucun lecteur amovible détecté"),
                no_drives_desc: String::from_str("Connectez une clé USB ou un disque externe pour le gérer."),
                scan_for_drives: String::from_str("Rechercher des lecteurs"),
                unlabeled_volume: String::from_str("Volume sans nom"),
                storage_device: String::from_str("Périphérique de stockage"),
                safely_remove: String::from_str("Retirer en toute sécurité"),
                removing: String::from_str("Suppression en cours..."),
                ready: String::from_str("Prêt"),
                settings_title: String::from_str("Paramètres"),
                settings_desc: String::from_str("Configurer le démarrage, la langue et la fenêtre"),
                language_label: String::from_str("Langue"),
                autostart_title: String::from_str("Démarrer automatiquement avec Windows"),
                autostart_desc: String::from_str("Lancer l'application au démarrage du système (Registre)"),
                start_minimized_title: String::from_str("Démarrer minimisé dans la barre"),
                start_minimized_desc: String::from_str("Ne pas afficher la fenêtre au démarrage, rester dans la barre"),
                close_to_tray_title: String::from_str("Réduire dans la barre à la fermeture (✕)"),
                close_to_tray_desc: String::from_str("Fermer la fenêtre masque l'application au lieu de la quitter"),
                save_btn: String::from_str("Enregistrer"),
                close_btn: String::from_str("Fermer"),
                about_desc: String::from_str("Un utilitaire Windows léger pour éjecter les lecteurs USB et Firewire en sécurité."),
                about_ref: String::from_str("Un portage en Rust de USB Disk Ejector par QuickAndEasySoftware."),
                tray_open: String::from_str("Ouvrir USB Disk Remover"),
                tray_settings: String::from_str("Paramètres..."),
                tray_about: String::from_str("À propos..."),
                tray_quit: String::from_str("Quitter"),
            },
            Language::Ar => I18nStrings {
                settings_btn: String::from_str("الإعدادات"),
                about_btn: String::from_str("حول"),
                refresh_btn: String::from_str("تحديث"),
                scanning: String::from_str("جارٍ فحص محركات الأقراص..."),
                no_drives_title: String::from_str("لم يتم اكتشاف محركات أقراص قابلة للإزالة"),
                no_drives_desc: String::from_str("قم بتوصيل محرك أقراص USB أو محرك أقراص خارجي لإدارته."),
                scan_for_drives: String::from_str("البحث عن محركات الأقراص"),
                unlabeled_volume: String::from_str("وحدة تخزين بدون تسمية"),
                storage_device: String::from_str("جهاز تخزين"),
                safely_remove: String::from_str("إزالة بأمان"),
                removing: String::from_str("جارٍ الإزالة..."),
                ready: String::from_str("جاهز"),
                settings_title: String::from_str("الإعدادات"),
                settings_desc: String::from_str("تكوين بدء التشغيل واللغة وسلوك النافذة"),
                language_label: String::from_str("اللغة"),
                autostart_title: String::from_str("بدء التشغيل تلقائيًا مع Windows"),
                autostart_desc: String::from_str("تشغيل التطبيق تلقائيًا عند بدء النظام (مفتاح التسجيل)"),
                start_minimized_title: String::from_str("بدء التشغيل مصغرًا في علبة النظام"),
                start_minimized_desc: String::from_str("عدم إظهار النافذة عند بدء التشغيل، البقاء في علبة النظام"),
                close_to_tray_title: String::from_str("التصغير إلى علبة النظام عند الإغلاق (✕)"),
                close_to_tray_desc: String::from_str("إغلاق النافذة يخفي التطبيق في علبة النظام بدلاً من إنهائه"),
                save_btn: String::from_str("حفظ"),
                close_btn: String::from_str("إغلاق"),
                about_desc: String::from_str("أداة خفيفة لنظام Windows لإزالة محركات أقراص USB وFirewire بأمان."),
                about_ref: String::from_str("نسخة Rust من برنامج USB Disk Ejector لشركة QuickAndEasySoftware."),
                tray_open: String::from_str("فتح USB Disk Remover"),
                tray_settings: String::from_str("الإعدادات..."),
                tray_about: String::from_str("حول..."),
                tray_quit: String::from_str("خروج"),
            },
            Language::Ru => I18nStrings {
                settings_btn: String::from_str("Настройки"),
                about_btn: String::from_str("О программе"),
                refresh_btn: String::from_str("Обновить"),
                scanning: String::from_str("Сканирование дисков..."),
                no_drives_title: String::from_str("Съемные диски не обнаружены"),
                no_drives_desc: String::from_str("Подключите USB-накопитель или внешний диск для управления."),
                scan_for_drives: String::from_str("Поиск дисков"),
                unlabeled_volume: String::from_str("Том без метки"),
                storage_device: String::from_str("Устройство хранения"),
                safely_remove: String::from_str("Безопасное извлечение"),
                removing: String::from_str("Извлечение..."),
                ready: String::from_str("Готово"),
                settings_title: String::from_str("Настройки"),
                settings_desc: String::from_str("Настройка автозапуска, языка и поведения окна"),
                language_label: String::from_str("Язык"),
                autostart_title: String::from_str("Запуск вместе с Windows"),
                autostart_desc: String::from_str("Запуск приложения при старте системы (ветка реестра Run)"),
                start_minimized_title: String::from_str("Запуск свернутым в трей"),
                start_minimized_desc: String::from_str("Не показывать окно при запуске, оставаться в области уведомлений"),
                close_to_tray_title: String::from_str("Сворачивать в трей при закрытии (✕)"),
                close_to_tray_desc: String::from_str("Нажатие на ✕ скрывает окно в трей вместо завершения программы"),
                save_btn: String::from_str("Сохранить"),
                close_btn: String::from_str("Закрыть"),
                about_desc: String::from_str("Легкая утилита для безопасного извлечения USB и Firewire накопителей в Windows."),
                about_ref: String::from_str("Порт на Rust утилиты USB Disk Ejector от QuickAndEasySoftware."),
                tray_open: String::from_str("Открыть USB Disk Remover"),
                tray_settings: String::from_str("Настройки..."),
                tray_about: String::from_str("О программе..."),
                tray_quit: String::from_str("Выход"),
            },
        }
    }

    /// The language at a position of the language selector; positions past
    /// the last language give English.
    pub fn from_index(index: usize) -> (r: Self)
        ensures
            r == Language::at_index(index as nat),
    {
        match index {
            0 => Language::En,
            1 => Language::It,
            2 => Language::De,
            3 => Language::Fr,
            4 => Language::Ar,
            5 => Language::Ru,
            _ => Language::En,
        }
    }

    /// The position of the language in the language selector.
    pub fn to_index(self) -> (r: usize)
        ensures
            r == self.index_of(),
    {
        match self {
            Language::En => 0,
            Language::It => 1,
            Language::De => 2,
            Language::Fr => 3,
            Language::Ar => 4,
            Language::Ru => 5,
        }
    }

    /// The language named by an already lower-cased code (`it`, `de`, `fr`,
    /// `ar` or `ru`); any other text gives English.
    pub fn from_lowercase_code(code: &str) -> (r: Self)
        ensures
            r == Language::of_lowercase_code(code@),
    {
        let code = String::from_str(code);
        if code == String::from_str("it") {
            Language::It
        } else if code == String::from_str("de") {
            Language::De
        } else if code == String::from_str("fr") {
            Language::Fr
        } else if code == String::from_str("ar") {
            Language::Ar
        } else if code == String::from_str("ru") {
            Language::Ru
        } else {
            Language::En
        }
    }

    /// The language named by a code, whatever its case (`it`, `IT`, ...);
    /// unknown codes give English.
    pub fn from_code(code: &str) -> (r: Self)
        ensures
            r == Language::of_lowercase_code(lowercase(code@)),
            is_ascii_chars(code@) ==> r == Language::of_lowercase_code(ascii_lowercase(code@)),
    {
        let lowered = lowercase_of(code);
        Language::from_lowercase_code(lowered.as_str())
    }

    /// The two-letter lower-case code of the language.
    pub fn to_code(self) -> (r: &'static str)
        ensures
            r@ == self.code(),
    {
        match self {
            Language::En => "en",
            Language::It => "it",
            Language::De => "de",
            Language::Fr => "fr",
            Language::Ar => "ar",
            Language::Ru => "ru",
        }
    }

    /// The status line after a scan that found `count` drives, singular for
    /// one drive.
    pub fn drives_detected(self, count: usize) -> (r: String)
        ensures
            r@ == self.drives_detected_text(count as nat),
    {
        proof {
            reveal_strlit("");
        }
        match self {
            Language::En => if count == 1 {
                String::from_str("1 drive detected.")
            } else {
                framed_count("", count, " drives detected.")
            },
            Language::It => if count == 1 {
                String::from_str("1 unità rilevata.")
            } else {
                framed_count("", count, " unità rilevate.")
            },
            Language::De => if count == 1 {
                String::from_str("1 Laufwerk erkannt.")
            } else {
                framed_count("", count, " Laufwerke erkannt.")
            },
            Language::Fr => if count == 1 {
                String::from_str("1 lecteur détecté.")
            } else {
                framed_count("", count, " lecteurs détectés.")
            },
            Language::Ar => if count == 1 {
                String::from_str("تم اكتشاف محرك أقراص واحد.")
            } else {
                framed_count("تم اكتشاف ", count, " محركات أقراص.")
            },
            Language::Ru => if count == 1 {
                String::from_str("Обнаружен 1 диск.")
            } else {
                framed_count("Обнаружено ", count, " дисков.")
            },
        }
    }

    /// The status line while the drive at `mount_point` is being ejected.
    pub fn safely_removing(self, mount_point: &str) -> (r: String)
        ensures
            r@ == self.safely_removing_text(mount_point@),
    {
        proof {
            reveal_strlit("");
        }
        match self {
            Language::En => framed("Safely removing ", mount_point, "..."),
            Language::It => framed("Rimozione sicura di ", mount_point, " in corso..."),
            Language::De => framed("", mount_point, " wird sicher entfernt..."),
            Language::Fr => framed("Retrait de ", mount_point, " en toute sécurité..."),
            Language::Ar => framed("جارٍ إزالة ", mount_point, " بأمان..."),
            Language::Ru => framed("Безопасное извлечение ", mount_point, "..."),
        }
    }

    /// The status line after the drive at `mount_point` was ejected.
    pub fn safely_removed(self, mount_point: &str) -> (r: String)
        ensures
            r@ == self.safely_removed_text(mount_point@),
    {
        proof {
            reveal_strlit("");
        }
        match self {
            Language::En => framed("", mount_point, " safely removed."),
            Language::It => framed("", mount_point, " rimossa con successo."),
            Language::De => framed("", mount_point, " sicher entfernt."),
            Language::Fr => framed("", mount_point, " retiré en toute sécurité."),
            Language::Ar => framed("تمت إزالة ", mount_point, " بأمان."),
            Language::Ru => framed("", mount_point, " успешно извлечен."),
        }
    }

    /// The status line after ejecting the drive at `mount_point` failed with
    /// `err`.
    pub fn eject_error(self, mount_point: &str, err: &str) -> (r: String)
        ensures
            r@ == self.eject_error_text(mount_point@, err@),
    {
        match self {
            Language::En => framed("Error ejecting ", mount_point, ": ").concat(err),
            Language::It => framed("Errore espulsione ", mount_point, ": ").concat(err),
            Language::De => framed("Fehler beim Auswerfen von ", mount_point, ": ").concat(err),
            Language::Fr => framed("Erreur lors de l'éjection de ", mount_point, ": ").concat(err),
            Language::Ar => framed("خطأ أثناء إخراج ", mount_point, ": ").concat(err),
            Language::Ru => framed("Ошибка извлечения ", mount_point, ": ").concat(err),
        }
    }

    /// The status line when no drive is mounted at `mount_point`.
    pub fn drive_not_found(self, mount_point: &str) -> (r: String)
        ensures
            r@ == self.drive_not_found_text(mount_point@),
    {
        match self {
            Language::En => framed("Drive ", mount_point, " not found."),
            Language::It => framed("Unità ", mount_point, " non trovata."),
            Language::De => framed("Laufwerk ", mount_point, " nicht gefunden."),
            Language::Fr => framed("Lecteur ", mount_point, " introuvable."),
            Language::Ar => framed("محرك الأقراص ", mount_point, " غير موجود."),
            Language::Ru => framed("Диск ", mount_point, " не найден."),
        }
    }
}

} // verus!
