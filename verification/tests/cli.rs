use guayusa::cli::{mode_line, report_line, run_status, run_up, usage, Command, UnitReport};
use guayusa::mode::Mode;
use guayusa::text::{joined, pad_right, same_text};

fn report(name: &str, unit_file_state: &str, active_state: &str) -> UnitReport {
    UnitReport {
        name: name.to_string(),
        unit_file_state: unit_file_state.to_string(),
        active_state: active_state.to_string(),
    }
}

#[test]
fn parses_commands() {
    assert!(matches!(Command::parse_from(vec![]), Ok(Command::Daemon)));
    assert!(matches!(
        Command::parse_from(vec!["up".to_string()]),
        Ok(Command::Up)
    ));
    assert!(matches!(
        Command::parse_from(vec!["status".to_string()]),
        Ok(Command::Status)
    ));
    assert!(matches!(
        Command::parse_from(vec!["--help".to_string()]),
        Ok(Command::Help)
    ));
    assert!(Command::parse_from(vec!["unknown".to_string()]).is_err());
    assert!(Command::parse_from(vec!["up".to_string(), "extra".to_string()]).is_err());
}

#[test]
fn parses_every_spelling_of_help() {
    for text in ["help", "-h", "--help"] {
        assert!(matches!(
            Command::parse_from(vec![text.to_string()]),
            Ok(Command::Help)
        ));
    }
}

#[test]
fn explains_refused_command_lines() {
    let unknown = Command::parse_from(vec!["unknown".to_string()]).unwrap_err();
    assert_eq!(
        unknown.message(),
        format!("unknown command: unknown\n\n{}", usage())
    );
    let many = Command::parse_from(vec!["unknown".to_string(), "extra".to_string()]).unwrap_err();
    assert_eq!(many.message(), format!("too many arguments\n\n{}", usage()));
}

#[test]
fn shows_usage() {
    assert_eq!(
        usage(),
        "Usage:
  guayusa             Run the D-Bus service
  guayusa up          Enable and start the packaged user services
  guayusa status      Show Guayusa mode and managed unit state"
    );
}

#[test]
fn lines_up_reports() {
    let short = report("guayusa.service", "enabled", "active");
    assert_eq!(
        report_line(&short),
        format!(
            "{:<42} enabled={:<12} active={}",
            "guayusa.service", "enabled", "active"
        )
    );
    let name = "a-unit-with-a-name-that-does-not-fit-its-column.service";
    let long = report(name, "enabled-runtime", "inactive");
    assert_eq!(
        report_line(&long),
        format!("{:<42} enabled={:<12} active={}", name, "enabled-runtime", "inactive")
    );
    let wide = report("äöü", "", "");
    assert_eq!(
        report_line(&wide),
        format!("{:<42} enabled={:<12} active={}", "äöü", "", "")
    );
}

#[test]
fn prints_mode_and_reports() {
    let reports = vec![report("one", "enabled", "active"), report("two", "disabled", "inactive")];
    let expected = vec![
        "Mode: no-suspend".to_string(),
        report_line(&reports[0]),
        report_line(&reports[1]),
    ];
    assert_eq!(run_status(Mode::NoSuspend, &reports), expected);
    let mut after_up = vec!["Enabled and started Guayusa units.".to_string()];
    after_up.extend(expected);
    assert_eq!(run_up(Mode::NoSuspend, &reports), after_up);
    assert_eq!(run_status(Mode::Custom, &vec![]), vec![mode_line(Mode::Custom)]);
}

#[test]
fn handles_text() {
    assert!(same_text("äb", "äb"));
    assert!(!same_text("ab", "abc"));
    assert_eq!(joined("ab", "cd"), "abcd");
    assert_eq!(pad_right("ab", 4), "ab  ");
    assert_eq!(pad_right("ab", 2), "ab");
    assert_eq!(pad_right("ab", 0), "ab");
}
