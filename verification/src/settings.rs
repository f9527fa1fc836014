use vstd::prelude::*;

use crate::text::{decimal, push_decimal};
use crate::utils::{le_bytes, str_to_utf16vec, utf16_encode, utf16_le_bytes};

verus! {

/// The user's settings, as they are stored between runs.
#[derive(Debug, Clone)]
pub struct AppSettings {
    pub start_with_windows: bool,
    pub start_minimized: bool,
    pub close_to_tray: bool,
    pub language: String,
}

/// The settings as plain values.
pub struct SettingsView {
    pub start_with_windows: bool,
    pub start_minimized: bool,
    pub close_to_tray: bool,
    pub language: Seq<char>,
}

impl View for AppSettings {
    type V = SettingsView;

    open spec fn view(&self) -> SettingsView {
        SettingsView {
            start_with_windows: self.start_with_windows,
            start_minimized: self.start_minimized,
            close_to_tray: self.close_to_tray,
            language: self.language@,
        }
    }
}

/// The settings of a first run: no autostart, the window shown at start,
/// closing to the notification area, English.
pub open spec fn default_settings() -> SettingsView {
    SettingsView {
        start_with_windows: false,
        start_minimized: false,
        close_to_tray: true,
        language: "en"@,
    }
}

/// The settings that a run starts with: the stored ones, or the defaults when
/// none were stored, with the autostart switch as the registry has it.
pub open spec fn loaded_settings(stored: Option<SettingsView>, autostart_enabled: bool) -> SettingsView {
    let base = match stored {
        Some(s) => s,
        None => default_settings(),
    };
    SettingsView { start_with_windows: autostart_enabled, ..base }
}

impl Default for AppSettings {
    fn default() -> (r: Self)
        ensures
            r@ == default_settings(),
    {
        AppSettings {
            start_with_windows: false,
            start_minimized: false,
            close_to_tray: true,
            language: String::from_str("en"),
        }
    }
}

/// The settings that a run starts with: those that were stored, or the
/// defaults when none could be read, with the autostart choice taken from
/// what the registry holds now.
pub fn settings_after_load(stored: Option<AppSettings>, autostart_enabled: bool) -> (r: AppSettings)
    ensures
        r@ == loaded_settings(
            match stored {
                Some(s) => Some(s@),
                None => None,
            },
            autostart_enabled,
        ),
{
    let mut settings = match stored {
        Some(s) => s,
        None => AppSettings::default(),
    };
    settings.start_with_windows = autostart_enabled;
    settings
}

/// The command line that starts the program at log-in.
pub open spec fn autostart_command_text(exe_path: Seq<char>, start_minimized: bool) -> Seq<char> {
    if start_minimized {
        "\""@ + exe_path + "\" --minimized"@
    } else {
        "\""@ + exe_path + "\""@
    }
}

/// The command line registered under the `Run` key: the quoted path of the
/// executable, followed by `--minimized` when the program is to start in the
/// notification area.
pub fn autostart_command(exe_path: &str, start_minimized: bool) -> (r: String)
    ensures
        r@ == autostart_command_text(exe_path@, start_minimized),
{
    let mut cmd = String::from_str("\"");
    cmd.append(exe_path);
    if start_minimized {
        cmd.append("\" --minimized");
    } else {
        cmd.append("\"");
    }
    cmd
}

/// The registry data for the autostart value: the command line as
/// zero-terminated UTF-16, two little-endian bytes per unit.
pub fn autostart_value_data(exe_path: &str, start_minimized: bool) -> (r: Vec<u8>)
    ensures
        r@ == le_bytes(utf16_encode(autostart_command_text(exe_path@, start_minimized)).push(0u16)),
{
    let cmd = autostart_command(exe_path, start_minimized);
    let units = str_to_utf16vec(cmd.as_str());
    utf16_le_bytes(units.as_slice())
}

/// The message given when the `Run` key cannot be opened.
pub fn registry_open_error() -> (r: String)
    ensures
        r@ == "Impossibile aprire il registro di configurazione di Windows"@,
{
    String::from_str("Impossibile aprire il registro di configurazione di Windows")
}

/// The message given when the path of the executable cannot be found, with
/// the system's description of the failure.
pub fn exe_path_error(detail: &str) -> (r: String)
    ensures
        r@ == "Impossibile determinare il percorso dell'eseguibile: "@ + detail@,
{
    String::from_str("Impossibile determinare il percorso dell'eseguibile: ").concat(detail)
}

/// The outcome of writing or deleting the autostart value, from the status
/// code that the registry returned: zero is success, any other code an error
/// that names it.
pub fn registry_update_result(code: u32) -> (r: Result<(), String>)
    ensures
        code == 0 <==> r is Ok,
        r matches Err(msg) ==> msg@ == "Errore aggiornamento registro: codice "@ + decimal(
            code as nat,
        ),
{
    if code != 0 {
        let mut msg = String::from_str("Errore aggiornamento registro: codice ");
        push_decimal(&mut msg, code as usize);
        return Err(msg);
    }
    Ok(())
}

} // verus!
