use std::path::Path;
use std::sync::mpsc;
use zilog_silicon::config_panel::{
    drive_label, same_text, switch_arg, tape_label, ConfigPanel, Tab, ZoomChoice,
};
use zilog_silicon::osd::Osd;
use zilog_silicon::rom_install_panel::{
    progress_line, InstallEvent, InstalledFile, PollStep, Received, RomInstallState, Status,
};
use zilog_silicon::status_panel::status_rows;

#[test]
fn zoom_choices_are_spelled_as_in_the_configuration_file() {
    assert_eq!(ZoomChoice::X1.as_config_str(), "x1");
    assert_eq!(ZoomChoice::X2.as_config_str(), "x2");
    assert_eq!(ZoomChoice::X3.as_config_str(), "x3");
    assert_eq!(ZoomChoice::Fullscreen.as_config_str(), "fullscreen");
}

#[test]
fn display_name_agrees_with_path_file_name() {
    for p in [
        "foo.dsk",
        "/home/u/.bytebox/DSK/foo.dsk",
        "~/DSK/game.dsk",
        "dir/",
        "dir//sub///",
        "a/.",
        "a/./",
        ".",
        "./",
        "..",
        "a/..",
        "/",
        "",
        "./x",
        "a/../b",
        "...",
        ".hidden",
        "é/ü.cdt",
    ] {
        let expected = Path::new(p).file_name().and_then(|n| n.to_str()).unwrap_or(p);
        assert_eq!(ConfigPanel::display_name(p), expected, "for {p:?}");
    }
}

#[test]
fn drive_and_tape_rows_show_the_file_name_or_empty() {
    assert_eq!(drive_label("None"), (false, "(empty)"));
    assert_eq!(drive_label("/disks/game.dsk"), (true, "game.dsk"));
    assert_eq!(drive_label("Nonesuch"), (true, "Nonesuch"));
    assert_eq!(tape_label(None), "(empty)");
    assert_eq!(tape_label(Some("~/CDT/a.cdt")), "a.cdt");
    assert!(same_text("abc", "abc"));
    assert!(!same_text("abc", "abd"));
    assert!(!same_text("ab", "abc"));
    assert_eq!(switch_arg(true), "on");
    assert_eq!(switch_arg(false), "off");
}

#[test]
fn the_config_panel_opens_on_general_or_on_the_roms_tab() {
    let mut panel = ConfigPanel::new(true);
    assert_eq!(panel.tab(), Tab::General);
    assert!(panel.crt_enabled_at_startup());
    assert!(!panel.can_create_blank_disk());
    panel.open_on_roms_tab();
    assert_eq!(panel.tab(), Tab::Roms);
    assert!(panel.crt_enabled_at_startup());
}

#[test]
fn creating_a_blank_disk_takes_the_typed_name() {
    let mut panel = ConfigPanel::new(false);
    panel.blank_disk_name_mut().push_str("new.dsk");
    assert!(panel.can_create_blank_disk());
    assert_eq!(panel.take_blank_disk_request(), ("new.dsk".to_string(), ""));
    assert!(!panel.can_create_blank_disk());
    panel.blank_disk_name_mut().push_str("b.dsk");
    panel.set_blank_disk_drive_b(true);
    assert_eq!(panel.take_blank_disk_request(), ("b.dsk".to_string(), "b"));
}

#[test]
fn an_osd_message_lasts_two_seconds() {
    let second: u64 = 1_000_000_000;
    let mut osd = Osd::new();
    assert!(!osd.is_active_at(0));
    assert_eq!(osd.expire_at(0), None);
    osd.show_at("Gamepad connected".to_string(), second);
    assert!(osd.is_active_at(second));
    assert!(osd.is_active_at(3 * second - 1));
    assert!(!osd.is_active_at(3 * second));
    // Checking never expires the message; only the per-frame decision does.
    assert_eq!(osd.expire_at(3 * second - 1), Some("Gamepad connected".to_string()));
    assert_eq!(osd.expire_at(3 * second), None);
    assert!(!osd.is_active_at(second + second / 2));
}

#[test]
fn a_new_osd_message_replaces_the_current_one() {
    let mut osd = Osd::new();
    osd.show("CRT shader on".to_string());
    assert!(osd.is_active());
    osd.show_at("CRT shader off".to_string(), 10);
    assert_eq!(osd.expire_at(11), Some("CRT shader off".to_string()));
    // The last message shown wins, with two seconds of its own.
    osd.show_at("Gamepad connected".to_string(), 5_000_000_000);
    assert!(osd.is_active_at(6_999_999_999));
    assert!(!osd.is_active_at(7_000_000_000));
    osd.show_at("late".to_string(), u64::MAX - 5);
    assert!(osd.is_active_at(u64::MAX - 1));
    assert_eq!(osd.expire(), Some("late".to_string()));
}

#[test]
fn status_rows_split_widen_tabs_and_set_the_disk_marker_apart() {
    let rows = status_rows("PC=0000\tSP=C000", "FDC\u{25CF}\nMotor: off");
    let shown: Vec<(String, bool)> = rows.into_iter().map(|r| (r.text, r.dot)).collect();
    assert_eq!(
        shown,
        vec![
            ("PC=0000    SP=C000".to_string(), false),
            ("FDC".to_string(), true),
            ("Motor: off".to_string(), false),
        ]
    );
    let rows = status_rows("", "");
    assert_eq!(rows.len(), 1);
    assert_eq!(rows[0].text, "");
    let rows = status_rows("\u{25CF}", "x\n");
    assert_eq!((rows[0].text.as_str(), rows[0].dot), ("", true));
    assert_eq!(rows.len(), 2);
}

fn file(crc32: u32, previous: Option<u32>) -> InstalledFile {
    InstalledFile { filename: "OS6128.ROM".to_string(), bytes: 16384, crc32, previous_crc32: previous }
}

#[test]
fn installed_files_are_compared_with_what_was_there() {
    assert_eq!(file(1, Some(1)).origin_note(), " (matches the file already there)");
    assert_eq!(
        file(1, Some(2)).origin_note(),
        " (replaced a DIFFERENT file that was already there)"
    );
    assert_eq!(file(1, None).origin_note(), "");
}

#[test]
fn the_installer_reports_progress_then_power_cycles_when_done() {
    let mut state = RomInstallState::new();
    assert!(!state.can_install());
    state.set_accepted(true);
    assert!(state.can_install());
    assert!(!state.shows_form(true));
    assert!(state.shows_form(false));
    let (tx, rx) = mpsc::channel();
    state.begin_install(rx);
    assert!(!state.can_install());
    assert!(state.events().is_some());
    match state.status() {
        Status::Running(lines) => assert_eq!(progress_line(lines), "Starting..."),
        _ => panic!("not running"),
    }
    assert_eq!(state.step(Received::Event(InstallEvent::Progress("Downloading".to_string()))), PollStep::Continue);
    match state.status() {
        Status::Running(lines) => assert_eq!(progress_line(lines), "Downloading"),
        _ => panic!("not running"),
    }
    assert_eq!(state.step(Received::Empty), PollStep::Stop);
    assert_eq!(state.step(Received::Event(InstallEvent::Done(vec![file(3, None)]))), PollStep::PowerCycle);
    assert!(state.events().is_none());
    assert!(matches!(state.status(), Status::Done(files) if files.len() == 1));
    assert!(state.shows_form(true));
    drop(tx);
}

#[test]
fn a_vanished_installer_thread_does_not_leave_the_screen_running() {
    let mut state = RomInstallState::new();
    let (_tx, rx) = mpsc::channel::<InstallEvent>();
    state.begin_install(rx);
    assert_eq!(state.step(Received::Disconnected), PollStep::Stop);
    assert!(state.events().is_none());
    match state.status() {
        Status::Failed(e) => assert_eq!(e, "Installation interrupted unexpectedly."),
        _ => panic!("not failed"),
    }
    let (_tx, rx) = mpsc::channel::<InstallEvent>();
    state.begin_install(rx);
    assert_eq!(state.step(Received::Event(InstallEvent::Error("no network".to_string()))), PollStep::Stop);
    assert!(matches!(state.status(), Status::Failed(e) if e == "no network"));
    assert_eq!(state.step(Received::Disconnected), PollStep::Stop);
    assert!(matches!(state.status(), Status::Failed(e) if e == "no network"));
}
