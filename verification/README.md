# usb_disk_remover

The verified core of a small Windows utility that safely ejects removable
USB and Firewire drives. Everything that decides or computes lives in `src/`
and is proved with Verus; `app/` holds the window, the registry and file
access, and the Win32 calls, and hands plain values to the library.

Layout of `src/`:

- `i18n.rs`: the six interface languages, their text catalogues and the
  status messages.
- `settings.rs`: the stored settings, how they are loaded, and the data of
  the autostart registry value.
- `ui.rs`: the decisions behind the window: drive rows, panels, closing,
  language selection, drive lookup and ejection reports.
- `single_instance.rs`: the start-up decision of a second instance.
- `utils.rs`: bit tests, UTF-16 encoding and the Windows 11 build check.
- `utf16.rs`: reading UTF-16 registry text: terminator, lossy decoding,
  trimming.
- `text.rs`: decimal numbers and mount point comparison.
- `laws.rs`: the properties that relate several functions.
