# zilog_silicon

Frontend building blocks shared by two emulator frontends (SDL2 windowing,
wgpu rendering, egui panels), written as a Verus library whose behaviour is
stated in `requires`/`ensures` contracts and proved.

- `src/` — the verified library: the console history and the line splitting
  it relies on (`text`, `console_log`, `console_panel`), the status window's
  text layout (`status_panel`), the on-screen message timer (`osd`), the
  audio latency regulation and WAV header (`audio`), the virtual keyboard's
  key map and latches (`keyboard_panel`), the RGB24 to RGBA8 frame
  conversion (`frame`), the configuration panel and ROM installer state
  (`config_panel`, `rom_install_panel`) and the command-line option lookup
  (`cli`).
- `app/` — the GPU, windowing, egui drawing, audio device and file I/O
  around it, which calls the library for every decision.
- `tests/` — tests of the library, run against the real outside crates.
