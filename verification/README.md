# yinlang

The decision core of a desktop wallpaper that moves with the music, written in Rust and
verified with Verus.

The library in `src/` decides; it touches no window, device or file.

- `platform`: the systems that are told apart.
- `text`: ids, labels and payloads as text.
- `events`: what the wallpaper pages are told.
- `menu`: the tray menu and what its items do.
- `sync`: the ticks of the tray menu, kept in step with what runs.
- `system_audio`: sessions of system audio, their generations and restarts.
- `capture`: the order in which a loopback device is driven, and its packets.
- `pipeline`: sound cut into frames, spectra turned into events.
- `display`: which windows open on which displays, and how they are set up.
- `wallpaper`: the place of a window below the desktop icons.
- `helper`: the macOS audio helper, found and compiled.

One outside function is trusted: the base64 encoder, in `pipeline`.

`app/` is the shell around it, an application of the Tauri framework: windows, tray,
audio devices, and the spectrum analysis, which is floating-point work throughout.
`tests/` runs the library.
