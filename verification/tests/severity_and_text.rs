use soliditydefend::severity::Severity;
use soliditydefend::text::trim;

const ALL: [Severity; 5] = [
    Severity::Info,
    Severity::Low,
    Severity::Medium,
    Severity::High,
    Severity::Critical,
];

#[test]
fn ranks_follow_seriousness() {
    for (i, s) in ALL.iter().enumerate() {
        assert_eq!(s.rank() as usize, i);
    }
    assert!(Severity::High.at_least(&Severity::Medium));
    assert!(Severity::High.at_least(&Severity::High));
    assert!(!Severity::Low.at_least(&Severity::Medium));
    assert!(Severity::Critical.at_least(&Severity::Info));
}

#[test]
fn labels_are_upper_case_names() {
    assert_eq!(Severity::Info.label(), "INFO");
    assert_eq!(Severity::Low.label(), "LOW");
    assert_eq!(Severity::Medium.label(), "MEDIUM");
    assert_eq!(Severity::High.label(), "HIGH");
    assert_eq!(Severity::Critical.label(), "CRITICAL");
}

#[test]
fn label_round_trip() {
    for s in ALL.iter() {
        assert_eq!(Severity::from_label(&s.label()), *s);
    }
}

#[test]
fn unknown_label_reads_as_info() {
    assert_eq!(Severity::from_label("SEVERE"), Severity::Info);
    assert_eq!(Severity::from_label("high"), Severity::Info);
    assert_eq!(Severity::from_label(""), Severity::Info);
}

#[test]
fn levels_are_lower_case_names() {
    assert_eq!(Severity::from_level("info"), Some(Severity::Info));
    assert_eq!(Severity::from_level("low"), Some(Severity::Low));
    assert_eq!(Severity::from_level("medium"), Some(Severity::Medium));
    assert_eq!(Severity::from_level("high"), Some(Severity::High));
    assert_eq!(Severity::from_level("critical"), Some(Severity::Critical));
    assert_eq!(Severity::from_level("HIGH"), None);
    assert_eq!(Severity::from_level("urgent"), None);
}

#[test]
fn trim_removes_surrounding_white_space() {
    assert_eq!(trim("  a b \n"), "a b");
    assert_eq!(trim("abc"), "abc");
    assert_eq!(trim(""), "");
    assert_eq!(trim(" \t\r\n "), "");
    assert_eq!(trim("\u{3000}x\u{a0}"), "x");
    assert_eq!(trim("\u{2003}é ü\u{85}"), "é ü");
}

#[test]
fn trim_agrees_with_std() {
    for s in ["", " ", "x", " x ", "\u{1680}a\u{2028}", "\u{200b}a", "a\u{feff}"] {
        assert_eq!(trim(s), s.trim());
    }
}
