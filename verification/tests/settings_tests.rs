use usb_disk_remover::utf16::{decode_utf16_lossy, nul_position};
use usb_disk_remover::settings::{
    autostart_command, autostart_value_data, exe_path_error, registry_open_error,
    registry_update_result, settings_after_load, AppSettings,
};

#[test]
fn default_settings() {
    let s = AppSettings::default();
    assert!(!s.start_with_windows);
    assert!(!s.start_minimized);
    assert!(s.close_to_tray);
    assert_eq!(s.language, "en");
}

#[test]
fn load_without_stored_settings() {
    let s = settings_after_load(None, true);
    assert!(s.start_with_windows);
    assert!(!s.start_minimized);
    assert!(s.close_to_tray);
    assert_eq!(s.language, "en");
}

#[test]
fn load_keeps_stored_choices_but_follows_registry() {
    let stored = AppSettings {
        start_with_windows: true,
        start_minimized: true,
        close_to_tray: false,
        language: "ru".to_string(),
    };
    let s = settings_after_load(Some(stored), false);
    assert!(!s.start_with_windows);
    assert!(s.start_minimized);
    assert!(!s.close_to_tray);
    assert_eq!(s.language, "ru");
}

#[test]
fn autostart_commands() {
    assert_eq!(
        autostart_command("C:\\Apps\\remover.exe", true),
        "\"C:\\Apps\\remover.exe\" --minimized"
    );
    assert_eq!(autostart_command("C:\\a b\\r.exe", false), "\"C:\\a b\\r.exe\"");
}

#[test]
fn autostart_registry_data() {
    let data = autostart_value_data("x", false);
    assert_eq!(data, vec![0x22, 0, 0x78, 0, 0x22, 0, 0, 0]);
    let data_min = autostart_value_data("é", true);
    let cmd = "\"é\" --minimized";
    let expected: Vec<u8> = cmd
        .encode_utf16()
        .chain([0u16])
        .flat_map(|u| u.to_le_bytes())
        .collect();
    assert_eq!(data_min, expected);
}

#[test]
fn registry_results() {
    assert_eq!(registry_update_result(0), Ok(()));
    assert_eq!(
        registry_update_result(5),
        Err("Errore aggiornamento registro: codice 5".to_string())
    );
    assert_eq!(
        registry_update_result(u32::MAX),
        Err("Errore aggiornamento registro: codice 4294967295".to_string())
    );
    assert_eq!(
        registry_open_error(),
        "Impossibile aprire il registro di configurazione di Windows"
    );
    assert_eq!(
        exe_path_error("not found"),
        "Impossibile determinare il percorso dell'eseguibile: not found"
    );
}

#[test]
fn saved_settings_load_back() {
    let saved = AppSettings {
        start_with_windows: true,
        start_minimized: false,
        close_to_tray: false,
        language: "de".to_string(),
    };
    let loaded = settings_after_load(Some(saved.clone()), saved.start_with_windows);
    assert_eq!(loaded.start_with_windows, saved.start_with_windows);
    assert_eq!(loaded.start_minimized, saved.start_minimized);
    assert_eq!(loaded.close_to_tray, saved.close_to_tray);
    assert_eq!(loaded.language, saved.language);
}

#[test]
fn first_run_uses_defaults() {
    let s = settings_after_load(None, false);
    let d = AppSettings::default();
    assert_eq!(s.start_with_windows, d.start_with_windows);
    assert_eq!(s.start_minimized, d.start_minimized);
    assert_eq!(s.close_to_tray, d.close_to_tray);
    assert_eq!(s.language, d.language);
}

#[test]
fn autostart_value_reads_back() {
    for (path, minimized) in [("C:\\Program Files\\USB Disk Remover\\r.exe", true), ("D:\\Програмы\\r.exe", false)] {
        let data = autostart_value_data(path, minimized);
        let units: Vec<u16> = data.chunks(2).map(|p| u16::from_le_bytes([p[0], p[1]])).collect();
        let end = nul_position(&units);
        let text: String = decode_utf16_lossy(&units[..end]).into_iter().collect();
        assert_eq!(text, autostart_command(path, minimized));
    }
}
