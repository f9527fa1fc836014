use usb_disk_remover::i18n::Language;
use usb_disk_remover::settings::AppSettings;
use usb_disk_remover::single_instance::{plan_single_instance, show_request_received};
use usb_disk_remover::ui::{
    close_request, drive_to_item, drives_to_items, eject_report, find_drive, scan_status_text,
    select_language, selected_mount_point, settings_from_ui, toggle_window, update_tray_strings,
    BusType, DriveItem, EjectOutcome, Panels, RemovableDrive, TrayMenu,
};

fn drive(mount: &str, bus: BusType) -> RemovableDrive {
    RemovableDrive {
        mount_point: mount.to_string(),
        label: "STICK".to_string(),
        vendor: "Kingston".to_string(),
        product: "DataTraveler".to_string(),
        bus_type: bus,
    }
}

#[test]
fn drive_rows() {
    let item = drive_to_item(&drive("E:\\", BusType::Usb));
    assert_eq!(item.mount_point, "E:\\");
    assert_eq!(item.label, "STICK");
    assert_eq!(item.vendor, "Kingston");
    assert_eq!(item.product, "DataTraveler");
    assert_eq!(item.bus_type, "USB");
    assert_eq!(drive_to_item(&drive("F:\\", BusType::Firewire)).bus_type, "1394");
    assert_eq!(drive_to_item(&drive("G:\\", BusType::Unknown)).bus_type, "Other");
    let items = drives_to_items(&[drive("E:\\", BusType::Usb), drive("F:\\", BusType::Firewire)]);
    assert_eq!(items.len(), 2);
    assert_eq!(items[1].mount_point, "F:\\");
    assert_eq!(items[1].bus_type, "1394");
    assert!(drives_to_items(&[]).is_empty());
}

#[test]
fn tray_titles_follow_language() {
    let mut tray = TrayMenu {
        title_open: String::new(),
        title_settings: String::new(),
        title_about: String::new(),
        title_quit: String::new(),
    };
    update_tray_strings(&mut tray, &Language::It.get_strings());
    assert_eq!(tray.title_open, "Apri USB Disk Remover");
    assert_eq!(tray.title_settings, "Impostazioni...");
    assert_eq!(tray.title_about, "Informazioni...");
    assert_eq!(tray.title_quit, "Esci");
}

#[test]
fn panels_never_both_open() {
    let mut p = Panels::new();
    assert!(!p.show_about && !p.show_settings);
    p.toggle_about();
    assert!(p.show_about && !p.show_settings);
    p.toggle_settings();
    assert!(!p.show_about && p.show_settings);
    p.toggle_settings();
    assert!(!p.show_about && !p.show_settings);
    p.open_about();
    assert!(p.show_about && !p.show_settings);
    p.open_settings();
    assert!(!p.show_about && p.show_settings);
    p.toggle_about();
    assert!(p.show_about && !p.show_settings);
    p.toggle_about();
    assert!(!p.show_about && !p.show_settings);
}

#[test]
fn closing_the_window() {
    let to_tray = close_request(true);
    assert!(to_tray.hide_window && !to_tray.quit);
    let quit = close_request(false);
    assert!(quit.hide_window && quit.quit);
    assert!(toggle_window(false));
    assert!(!toggle_window(true));
}

#[test]
fn language_selection_is_stored() {
    let mut s = AppSettings::default();
    s.close_to_tray = false;
    let lang = select_language(&mut s, 3);
    assert_eq!(lang, Language::Fr);
    assert_eq!(s.language, "fr");
    assert!(!s.close_to_tray);
    assert_eq!(Language::from_code(&s.language), lang);
    let lang = select_language(&mut s, 42);
    assert_eq!(lang, Language::En);
    assert_eq!(s.language, "en");
}

#[test]
fn saved_settings() {
    let s = settings_from_ui(true, false, true, Language::De);
    assert!(s.start_with_windows && !s.start_minimized && s.close_to_tray);
    assert_eq!(s.language, "de");
}

#[test]
fn scan_status() {
    assert_eq!(scan_status_text(Language::En, 0), "No removable drives detected");
    assert_eq!(scan_status_text(Language::En, 1), "1 drive detected.");
    assert_eq!(scan_status_text(Language::Fr, 2), "2 lecteurs détectés.");
}

#[test]
fn finding_drives() {
    let drives = vec![
        drive("E:\\", BusType::Usb),
        drive("F:\\", BusType::Usb),
        drive("F:", BusType::Firewire),
    ];
    assert_eq!(find_drive(&drives, "E:"), Some(0));
    assert_eq!(find_drive(&drives, "F:\\"), Some(1));
    assert_eq!(find_drive(&drives, "G:"), None);
    assert_eq!(find_drive(&[], "E:"), None);
}

#[test]
fn eject_reports() {
    let ok = eject_report(Language::En, "E:\\", &EjectOutcome::Ejected);
    assert!(ok.success);
    assert_eq!(ok.message, "E:\\ safely removed.");
    assert_eq!(ok.status_kind, "ok");
    let failed = eject_report(
        Language::En,
        "E:\\",
        &EjectOutcome::Failed("LockVolume".to_string()),
    );
    assert!(!failed.success);
    assert_eq!(failed.message, "Error ejecting E:\\: LockVolume");
    assert_eq!(failed.status_kind, "error");
    let missing = eject_report(Language::De, "Q:", &EjectOutcome::NotFound);
    assert!(!missing.success);
    assert_eq!(missing.message, "Laufwerk Q: nicht gefunden.");
    assert_eq!(missing.status_kind, "error");
}

#[test]
fn selected_rows() {
    let items: Vec<DriveItem> = vec![drive_to_item(&drive("E:\\", BusType::Usb))];
    assert_eq!(selected_mount_point(&items, 0), Some("E:\\".to_string()));
    assert_eq!(selected_mount_point(&items, -1), None);
    assert_eq!(selected_mount_point(&items, 1), None);
    assert_eq!(selected_mount_point(&[], 0), None);
}

#[test]
fn single_instance_plans() {
    let first = plan_single_instance(true, false, true);
    assert!(first.first_instance && first.create_show_event);
    assert!(!first.close_mutex && !first.notify_running_instance);
    let second = plan_single_instance(true, true, true);
    assert!(!second.first_instance && second.close_mutex && second.notify_running_instance);
    assert!(!second.create_show_event);
    let quiet = plan_single_instance(true, true, false);
    assert!(!quiet.first_instance && quiet.close_mutex && !quiet.notify_running_instance);
    let failed = plan_single_instance(false, false, true);
    assert!(!failed.first_instance && !failed.close_mutex && !failed.notify_running_instance);
    assert!(!failed.create_show_event);
}

#[test]
fn show_request_waits() {
    assert!(show_request_received(0));
    assert!(!show_request_received(0x80));
    assert!(!show_request_received(u32::MAX));
}
