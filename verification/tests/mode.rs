use guayusa::mode::Mode;

const ALL: [Mode; 5] = [
    Mode::Normal,
    Mode::NoSuspend,
    Mode::NoIdle,
    Mode::Custom,
    Mode::Unavailable,
];

#[test]
fn parses_only_primary_modes() {
    assert_eq!(Mode::parse_primary("normal"), Some(Mode::Normal));
    assert_eq!(Mode::parse_primary("no-suspend"), Some(Mode::NoSuspend));
    assert_eq!(Mode::parse_primary("no-idle"), Some(Mode::NoIdle));
    assert_eq!(Mode::parse_primary("custom"), None);
    assert_eq!(Mode::parse_primary("unavailable"), None);
}

#[test]
fn reports_legacy_status() {
    assert!(!Mode::Normal.is_inhibited());
    assert!(Mode::NoSuspend.is_inhibited());
    assert!(Mode::NoIdle.is_inhibited());
    assert!(Mode::Custom.is_inhibited());
    assert!(!Mode::Unavailable.is_inhibited());
}

#[test]
fn cycles_primary_modes() {
    assert_eq!(Mode::Normal.next_cycle(), Mode::NoSuspend);
    assert_eq!(Mode::NoSuspend.next_cycle(), Mode::NoIdle);
    assert_eq!(Mode::NoIdle.next_cycle(), Mode::Normal);
    assert_eq!(Mode::Custom.next_cycle(), Mode::Normal);
    assert_eq!(Mode::Unavailable.next_cycle(), Mode::Normal);
}

#[test]
fn names_modes() {
    assert_eq!(Mode::Normal.as_str(), "normal");
    assert_eq!(Mode::NoSuspend.as_str(), "no-suspend");
    assert_eq!(Mode::NoIdle.as_str(), "no-idle");
    assert_eq!(Mode::Custom.as_str(), "custom");
    assert_eq!(Mode::Unavailable.as_str(), "unavailable");
}

#[test]
fn mode_names_differ() {
    for a in ALL {
        for b in ALL {
            assert_eq!(a.as_str() == b.as_str(), a == b);
        }
    }
}

#[test]
fn primary_names_parse_back() {
    for mode in ALL {
        let expected = if mode.is_primary() { Some(mode) } else { None };
        assert_eq!(Mode::parse_primary(mode.as_str()), expected);
    }
}

#[test]
fn parses_no_other_spelling() {
    for text in ["", "Normal", "normal ", " normal", "no_suspend", "noidle", "no-idle\n"] {
        assert_eq!(Mode::parse_primary(text), None);
    }
}

#[test]
fn cycle_returns_after_three_steps() {
    for mode in [Mode::Normal, Mode::NoSuspend, Mode::NoIdle] {
        assert!(mode.is_primary());
        assert_eq!(mode.next_cycle().next_cycle().next_cycle(), mode);
        assert_ne!(mode.next_cycle(), mode);
        assert_ne!(mode.next_cycle().next_cycle(), mode);
        assert_eq!(mode.is_inhibited(), mode != Mode::Normal);
    }
    for mode in ALL {
        assert!(mode.next_cycle().is_primary());
    }
}
