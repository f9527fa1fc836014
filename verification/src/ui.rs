use vstd::prelude::*;

use crate::i18n::{I18nStrings, Language};
use crate::settings::{AppSettings, SettingsView};
use crate::text::{mount_points_match, trim_end_backslashes};

verus! {

/// The bus that a removable drive is attached through.
#[derive(Debug, Clone, Copy, PartialEq, Eq, Structural)]
pub enum BusType {
    Usb,
    Firewire,
    Unknown,
}

/// A removable drive as the drive scan reports it.
#[derive(Debug, Clone)]
pub struct RemovableDrive {
    pub mount_point: String,
    pub label: String,
    pub vendor: String,
    pub product: String,
    pub bus_type: BusType,
}

/// One row of the drive list shown to the user.
#[derive(Debug, Clone)]
pub struct DriveItem {
    pub mount_point: String,
    pub label: String,
    pub vendor: String,
    pub product: String,
    pub bus_type: String,
}

/// The label shown for a bus.
pub open spec fn bus_label(bus: BusType) -> Seq<char> {
    match bus {
        BusType::Usb => "USB"@,
        BusType::Firewire => "1394"@,
        BusType::Unknown => "Other"@,
    }
}

/// Whether `item` is the list row for `drive`.
pub open spec fn shows_drive(item: DriveItem, drive: RemovableDrive) -> bool {
    &&& item.mount_point@ == drive.mount_point@
    &&& item.label@ == drive.label@
    &&& item.vendor@ == drive.vendor@
    &&& item.product@ == drive.product@
    &&& item.bus_type@ == bus_label(drive.bus_type)
}

/// The list row for a drive: its texts as they are, and its bus as a label.
pub fn drive_to_item(drive: &RemovableDrive) -> (r: DriveItem)
    ensures
        shows_drive(r, *drive),
{
    let bus_str = match drive.bus_type {
        BusType::Usb => "USB",
        BusType::Firewire => "1394",
        BusType::Unknown => "Other",
    };
    DriveItem {
        mount_point: drive.mount_point.clone(),
        label: drive.label.clone(),
        vendor: drive.vendor.clone(),
        product: drive.product.clone(),
        bus_type: String::from_str(bus_str),
    }
}

/// The list rows for the drives of a scan, one per drive, in order.
pub fn drives_to_items(drives: &[RemovableDrive]) -> (r: Vec<DriveItem>)
    ensures
        r@.len() == drives@.len(),
        forall|i: int| 0 <= i < drives@.len() ==> shows_drive(#[trigger] r@[i], drives@[i]),
{
    let mut items: Vec<DriveItem> = Vec::new();
    let n = drives.len();
    let mut i: usize = 0;
    while i < n
        invariant
            n == drives@.len(),
            i <= n,
            items@.len() == i,
            forall|j: int| 0 <= j < i ==> shows_drive(#[trigger] items@[j], drives@[j]),
        decreases n - i,
    {
        items.push(drive_to_item(&drives[i]));
        i = i + 1;
    }
    items
}

/// The titles of the notification-area menu.
#[derive(Debug, Clone)]
pub struct TrayMenu {
    pub title_open: String,
    pub title_settings: String,
    pub title_about: String,
    pub title_quit: String,
}

/// Gives the notification-area menu the titles of a language's texts.
pub fn update_tray_strings(tray: &mut TrayMenu, strings: &I18nStrings)
    ensures
        final(tray).title_open@ == strings.tray_open@,
        final(tray).title_settings@ == strings.tray_settings@,
        final(tray).title_about@ == strings.tray_about@,
        final(tray).title_quit@ == strings.tray_quit@,
{
    tray.title_open = strings.tray_open.clone();
    tray.title_settings = strings.tray_settings.clone();
    tray.title_about = strings.tray_about.clone();
    tray.title_quit = strings.tray_quit.clone();
}

/// Which of the two overlay panels of the main window are shown.
#[derive(Debug, Clone, Copy, PartialEq, Eq, Structural)]
pub struct Panels {
    pub show_about: bool,
    pub show_settings: bool,
}

impl Panels {
    /// At most one panel is open at a time.
    pub open spec fn wf(self) -> bool {
        !(self.show_about && self.show_settings)
    }

    /// The panels after the About button.
    pub open spec fn about_toggled(self) -> Panels {
        Panels {
            show_about: !self.show_about,
            show_settings: self.show_settings && self.show_about,
        }
    }

    /// The panels after the Settings button.
    pub open spec fn settings_toggled(self) -> Panels {
        Panels {
            show_about: self.show_about && self.show_settings,
            show_settings: !self.show_settings,
        }
    }

    /// The panels with the settings panel opened from the notification area.
    pub open spec fn settings_opened(self) -> Panels {
        Panels { show_about: false, show_settings: true }
    }

    /// The panels with the about panel opened from the notification area.
    pub open spec fn about_opened(self) -> Panels {
        Panels { show_about: true, show_settings: false }
    }

    /// The window as it opens: no panel shown.
    pub fn new() -> (r: Panels)
        ensures
            !r.show_about,
            !r.show_settings,
    {
        Panels { show_about: false, show_settings: false }
    }

    /// The About button: shows the about panel, closing the settings panel,
    /// or hides it when it is shown.
    pub fn toggle_about(&mut self)
        ensures
            *final(self) == old(self).about_toggled(),
    {
        let current = self.show_about;
        self.show_about = !current;
        if !current {
            self.show_settings = false;
        }
    }

    /// The Settings button: shows the settings panel, closing the about
    /// panel, or hides it when it is shown.
    pub fn toggle_settings(&mut self)
        ensures
            *final(self) == old(self).settings_toggled(),
    {
        let current = self.show_settings;
        self.show_settings = !current;
        if !current {
            self.show_about = false;
        }
    }

    /// The Settings entry of the notification-area menu.
    pub fn open_settings(&mut self)
        ensures
            *final(self) == old(self).settings_opened(),
    {
        self.show_settings = true;
        self.show_about = false;
    }

    /// The About entry of the notification-area menu.
    pub fn open_about(&mut self)
        ensures
            *final(self) == old(self).about_opened(),
    {
        self.show_about = true;
        self.show_settings = false;
    }
}

/// What to do when the user closes the main window.
#[derive(Debug, Clone, Copy, PartialEq, Eq, Structural)]
pub struct CloseResponse {
    pub hide_window: bool,
    pub quit: bool,
}

/// Closing the window always hides it; the program also quits unless it is
/// set to stay in the notification area.
pub fn close_request(close_to_tray: bool) -> (r: CloseResponse)
    ensures
        r.hide_window,
        r.quit == !close_to_tray,
{
    CloseResponse { hide_window: true, quit: !close_to_tray }
}

/// The tray icon's click: a shown window is hidden, a hidden one shown.
/// Gives whether the window is to be visible afterwards.
pub fn toggle_window(visible: bool) -> (r: bool)
    ensures
        r == !visible,
{
    !visible
}

/// The language selector: picks the language at `index` and records its code
/// in the settings, which keep everything else.
pub fn select_language(settings: &mut AppSettings, index: usize) -> (r: Language)
    ensures
        r == Language::at_index(index as nat),
        final(settings)@ == (SettingsView { language: r.code(), ..old(settings)@ }),
{
    let lang = Language::from_index(index);
    settings.language = String::from_str(lang.to_code());
    lang
}

/// The settings that the Save button stores: the three switches and the
/// language in use.
pub fn settings_from_ui(
    start_with_windows: bool,
    start_minimized: bool,
    close_to_tray: bool,
    lang: Language,
) -> (r: AppSettings)
    ensures
        r@ == (SettingsView { start_with_windows, start_minimized, close_to_tray, language: lang.code() }),
{
    AppSettings {
        start_with_windows,
        start_minimized,
        close_to_tray,
        language: String::from_str(lang.to_code()),
    }
}

/// The status line after a scan that found `count` drives.
pub open spec fn scan_status(lang: Language, count: nat) -> Seq<char> {
    if count == 0 {
        lang.texts().no_drives_title
    } else {
        lang.drives_detected_text(count)
    }
}

/// The status line after a drive scan: the "no drives" title when none was
/// found, else the count of drives found.
pub fn scan_status_text(lang: Language, count: usize) -> (r: String)
    ensures
        r@ == scan_status(lang, count as nat),
{
    if count == 0 {
        lang.get_strings().no_drives_title
    } else {
        lang.drives_detected(count)
    }
}

/// The position of the first drive mounted at `mount_point`, trailing
/// backslashes ignored, or `None` when there is none.
pub fn find_drive(drives: &[RemovableDrive], mount_point: &str) -> (r: Option<usize>)
    ensures
        match r {
            Some(i) => {
                &&& i < drives@.len()
                &&& trim_end_backslashes(drives@[i as int].mount_point@)
                    == trim_end_backslashes(mount_point@)
                &&& forall|j: int|
                    0 <= j < i ==> trim_end_backslashes(#[trigger] drives@[j].mount_point@)
                        != trim_end_backslashes(mount_point@)
            },
            None => forall|j: int|
                0 <= j < drives@.len() ==> trim_end_backslashes(#[trigger] drives@[j].mount_point@)
                    != trim_end_backslashes(mount_point@),
        },
{
    let n = drives.len();
    let mut i: usize = 0;
    while i < n
        invariant
            n == drives@.len(),
            i <= n,
            forall|j: int|
                0 <= j < i ==> trim_end_backslashes(#[trigger] drives@[j].mount_point@)
                    != trim_end_backslashes(mount_point@),
        decreases n - i,
    {
        if mount_points_match(drives[i].mount_point.as_str(), mount_point) {
            return Some(i);
        }
        i = i + 1;
    }
    None
}

/// How an ejection ended.
#[derive(Debug, Clone)]
pub enum EjectOutcome {
    /// The drive was ejected.
    Ejected,
    /// Ejecting failed; the text describes the failure.
    Failed(String),
    /// No drive was mounted at the requested place.
    NotFound,
}

/// What the window shows after an ejection.
#[derive(Debug, Clone)]
pub struct EjectReport {
    pub success: bool,
    pub message: String,
    pub status_kind: String,
}

/// The status line and its kind after ejecting the drive at `mount_point`.
pub open spec fn eject_message(lang: Language, mount_point: Seq<char>, outcome: EjectOutcome) -> Seq<
    char,
> {
    match outcome {
        EjectOutcome::Ejected => lang.safely_removed_text(mount_point),
        EjectOutcome::Failed(err) => lang.eject_error_text(mount_point, err@),
        EjectOutcome::NotFound => lang.drive_not_found_text(mount_point),
    }
}

/// The report after ejecting the drive at `mount_point`: success only when
/// the drive was ejected, with the matching message, and the status kind
/// `ok` or `error`.
pub fn eject_report(lang: Language, mount_point: &str, outcome: &EjectOutcome) -> (r: EjectReport)
    ensures
        r.success == (*outcome is Ejected),
        r.message@ == eject_message(lang, mount_point@, *outcome),
        r.status_kind@ == (if r.success {
            "ok"@
        } else {
            "error"@
        }),
{
    let (success, message) = match outcome {
        EjectOutcome::Ejected => (true, lang.safely_removed(mount_point)),
        EjectOutcome::Failed(err) => (false, lang.eject_error(mount_point, err.as_str())),
        EjectOutcome::NotFound => (false, lang.drive_not_found(mount_point)),
    };
    let status_kind = if success {
        String::from_str("ok")
    } else {
        String::from_str("error")
    };
    EjectReport { success, message, status_kind }
}

/// The mount point of the selected row, or `None` when no row is selected
/// (a negative index) or the index is past the list.
pub fn selected_mount_point(items: &[DriveItem], selected: i32) -> (r: Option<String>)
    ensures
        match r {
            Some(m) => 0 <= selected < items@.len() && m@ == items@[selected as int].mount_point@,
            None => selected < 0 || selected >= items@.len(),
        },
{
    if selected < 0 {
        return None;
    }
    let idx = selected as usize;
    if idx >= items.len() {
        return None;
    }
    Some(items[idx].mount_point.clone())
}

} // verus!
