//! Frontend building blocks shared by the emulator windows: the console
//! history, the quick command bar, the status panel text layout, the
//! on-screen message timer, the audio latency regulation, the virtual
//! keyboard's latches and key map, the configuration panel state, the ROM
//! installer state machine, the conversion of the emulated screen into
//! texture data, and the command-line option lookup.

pub mod text;
pub mod console_log;
pub mod cli;
pub mod audio;
pub mod osd;
pub mod rom_install_panel;
pub mod config_panel;
pub mod console_panel;
pub mod status_panel;
pub mod keyboard_panel;
pub mod frame;

