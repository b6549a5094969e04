use zilog_silicon::console_log::{submit_line, ConsoleLog};
use zilog_silicon::console_panel::QuickCommandBar;
use zilog_silicon::text::{is_blank, is_whitespace, split_lines};

#[test]
fn last_line_reflects_the_most_recent_push() {
    let mut log = ConsoleLog::new();
    assert_eq!(log.last_line(), None);
    log.push_command("disk foo.dsk");
    assert_eq!(log.last_line(), Some("> disk foo.dsk"));
    log.push_output("Floppy DSK Loaded on drive A: foo.dsk");
    assert_eq!(
        log.last_line(),
        Some("Floppy DSK Loaded on drive A: foo.dsk")
    );
}

#[test]
fn multiline_output_becomes_one_log_entry_per_line() {
    let mut log = ConsoleLog::new();
    log.push_output("line 1\nline 2\nline 3");
    assert_eq!(log.lines(), ["line 1", "line 2", "line 3"]);
}

#[test]
fn empty_output_adds_nothing_and_keeps_the_last_line() {
    let mut log = ConsoleLog::new();
    log.push_command("help");
    log.push_output("");
    assert_eq!(log.lines(), ["> help"]);
    assert_eq!(log.last_line(), Some("> help"));
}

#[test]
fn split_lines_agrees_with_str_lines() {
    let samples = [
        "",
        "\n",
        "\n\n",
        "a",
        "a\n",
        "a\nb",
        "a\r\nb\r\n",
        "a\r",
        "a\rb\n",
        "\r\n",
        "x\n\ny",
        "trailing\r\r\n",
        "é\u{25CF}\n\tz",
    ];
    for s in samples {
        let expected: Vec<String> = s.lines().map(|l| l.to_string()).collect();
        assert_eq!(split_lines(s), expected, "for {s:?}");
    }
}

#[test]
fn is_whitespace_agrees_with_std_on_every_char() {
    for code in 0u32..=0x10FFFF {
        if let Some(c) = char::from_u32(code) {
            assert_eq!(is_whitespace(c), c.is_whitespace(), "for U+{code:04X}");
        }
    }
}

#[test]
fn is_blank_agrees_with_trim() {
    for s in ["", " ", "\t\n", "\u{3000}\u{A0}", " a ", "x", "\u{200B}"] {
        assert_eq!(is_blank(s), s.trim().is_empty(), "for {s:?}");
    }
}

#[test]
fn a_submitted_command_is_logged_and_handed_back() {
    let mut log = ConsoleLog::new();
    let mut input = String::from("tape foo.cdt");
    assert_eq!(submit_line(&mut input, &mut log), Some("tape foo.cdt".to_string()));
    assert_eq!(input, "");
    assert_eq!(log.lines(), ["> tape foo.cdt"]);
}

#[test]
fn a_blank_line_is_cleared_but_neither_logged_nor_sent() {
    let mut log = ConsoleLog::new();
    let mut input = String::from("   \t");
    assert_eq!(submit_line(&mut input, &mut log), None);
    assert_eq!(input, "");
    assert!(log.lines().is_empty());
}

#[test]
fn the_quick_bar_asks_for_focus_again_after_each_command() {
    let mut bar = QuickCommandBar::new();
    let mut log = ConsoleLog::new();
    assert!(bar.take_focus_request());
    assert!(!bar.take_focus_request());
    bar.input_mut().push_str("run\"game");
    assert_eq!(bar.submit(&mut log), Some("run\"game".to_string()));
    assert!(bar.take_focus_request());
    assert_eq!(log.last_line(), Some("> run\"game"));
    assert_eq!(bar.input_mut().as_str(), "");
    bar.request_focus();
    assert!(bar.take_focus_request());
}
