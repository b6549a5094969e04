use zilog_silicon::cli::{cli_value, has_flag, CliOptions};

#[test]
fn cli_value_accepts_the_equals_and_the_space_forms() {
    let args: Vec<String> = ["prog", "--autocmd=RUN\"A", "-d", "d.dsk"]
        .iter()
        .map(|s| s.to_string())
        .collect();

    assert_eq!(
        cli_value(&args, &["--autocmd", "-a"]),
        Some("RUN\"A".to_string())
    );
    assert_eq!(
        cli_value(&args, &["--disk", "-d"]),
        Some("d.dsk".to_string())
    );
    assert!(!args.contains(&"--diag".to_string()));
}

fn strings(v: &[&str]) -> Vec<String> {
    v.iter().map(|s| s.to_string()).collect()
}

#[test]
fn cli_value_is_none_when_the_option_is_absent_or_last() {
    let args = strings(&["prog", "--tape"]);
    assert_eq!(cli_value(&args, &["--tape", "-t"]), None);
    assert_eq!(cli_value(&args, &["--disk", "-d"]), None);
    assert_eq!(cli_value(&[], &["--disk"]), None);
}

#[test]
fn cli_value_takes_the_first_occurrence_and_an_empty_value() {
    let args = strings(&["prog", "-s", "a.sna", "--snapshot=b.sna"]);
    assert_eq!(cli_value(&args, &["--snapshot", "-s"]), Some("a.sna".to_string()));
    let args = strings(&["prog", "--disk=", "x"]);
    assert_eq!(cli_value(&args, &["--disk"]), Some(String::new()));
    let args = strings(&["prog", "--diskette=x", "--disk2", "y"]);
    assert_eq!(cli_value(&args, &["--disk"]), None);
}

#[test]
fn the_emulator_options_are_read_in_either_form() {
    let args = strings(&["bytebox", "--diag", "-d", "game.dsk", "--tape=t.cdt", "-a=RUN\"X"]);
    let o = CliOptions::from_args(&args);
    assert!(o.diag);
    assert_eq!(o.disk.as_deref(), Some("game.dsk"));
    assert_eq!(o.tape.as_deref(), Some("t.cdt"));
    assert_eq!(o.autocmd.as_deref(), Some("RUN\"X"));
    assert_eq!(o.snapshot, None);
    let none = CliOptions::from_args(&strings(&["bytebox"]));
    assert!(!none.diag && none.disk.is_none() && none.autocmd.is_none());
    assert!(!has_flag(&strings(&["bytebox", "--diagnostic"]), "--diag"));
}
