use vex_data::{ErrorKind, Justification, Severity, Status};

#[test]
fn severity_tokens_are_exact() {
    assert_eq!(Severity::Nil.format(), "None");
    assert_eq!(Severity::Low.format(), "Low");
    assert_eq!(Severity::Medium.format(), "Medium");
    assert_eq!(Severity::High.format(), "High");
    assert_eq!(Severity::Critical.format(), "Critical");
}

#[test]
fn justification_tokens_are_exact() {
    assert_eq!(Justification::ComponentNotPresent.format(), "Component not present");
    assert_eq!(
        Justification::VulnerabilityNotApplicable.format(),
        "Vulnerability not applicable"
    );
    assert_eq!(Justification::Mitigated.format(), "Mitigated");
    assert_eq!(Justification::NoFixAvailable.format(), "No fix available");
}

#[test]
fn status_tokens_are_exact() {
    assert_eq!(Status::Affected.format(), "Affected");
    assert_eq!(Status::NotAffected.format(), "Not Affected");
    assert_eq!(Status::Fixed.format(), "Fixed");
}

#[test]
fn severity_parse_inverts_format() {
    let all = Severity::all();
    assert_eq!(all.len(), 5);
    for v in all {
        assert_eq!(Severity::parse(v.format()), Ok(v));
    }
}

#[test]
fn justification_parse_inverts_format() {
    let all = Justification::all();
    assert_eq!(all.len(), 4);
    for v in all {
        assert_eq!(Justification::parse(v.format()), Ok(v));
    }
}

#[test]
fn status_parse_inverts_format() {
    let all = Status::all();
    assert_eq!(all.len(), 3);
    for v in all {
        assert_eq!(Status::parse(v.format()), Ok(v));
    }
}

#[test]
fn parse_gives_the_named_value() {
    assert_eq!(Severity::parse("None"), Ok(Severity::Nil));
    assert_eq!(Severity::parse("High"), Ok(Severity::High));
    assert_eq!(
        Justification::parse("No fix available"),
        Ok(Justification::NoFixAvailable)
    );
    assert_eq!(Status::parse("Not Affected"), Ok(Status::NotAffected));
    assert_eq!(Status::parse("Fixed"), Ok(Status::Fixed));
}

#[test]
fn unknown_tokens_are_refused() {
    assert_eq!(Severity::parse("Extreme"), Err(ErrorKind::UnknownVocabularyValue));
    assert_eq!(Severity::parse(""), Err(ErrorKind::UnknownVocabularyValue));
    assert_eq!(Justification::parse("Because"), Err(ErrorKind::UnknownVocabularyValue));
    assert_eq!(Justification::parse(""), Err(ErrorKind::UnknownVocabularyValue));
    assert_eq!(Status::parse("Unknown"), Err(ErrorKind::UnknownVocabularyValue));
    assert_eq!(Status::parse("NotAffected"), Err(ErrorKind::UnknownVocabularyValue));
}

#[test]
fn parsing_is_case_sensitive() {
    assert_eq!(Severity::parse("high"), Err(ErrorKind::UnknownVocabularyValue));
    assert_eq!(Severity::parse("HIGH"), Err(ErrorKind::UnknownVocabularyValue));
    assert_eq!(Severity::parse("none"), Err(ErrorKind::UnknownVocabularyValue));
    assert_eq!(Status::parse("Not affected"), Err(ErrorKind::UnknownVocabularyValue));
    assert_eq!(
        Justification::parse("Component Not Present"),
        Err(ErrorKind::UnknownVocabularyValue)
    );
}

#[test]
fn parsing_does_not_trim_or_take_prefixes() {
    assert_eq!(Severity::parse(" High"), Err(ErrorKind::UnknownVocabularyValue));
    assert_eq!(Severity::parse("High "), Err(ErrorKind::UnknownVocabularyValue));
    assert_eq!(Severity::parse("Hig"), Err(ErrorKind::UnknownVocabularyValue));
    assert_eq!(Severity::parse("Highest"), Err(ErrorKind::UnknownVocabularyValue));
    assert_eq!(Status::parse("Affected\n"), Err(ErrorKind::UnknownVocabularyValue));
    assert_eq!(Status::parse("Not"), Err(ErrorKind::UnknownVocabularyValue));
}

#[test]
fn lists_are_in_display_order() {
    assert_eq!(
        Severity::all(),
        vec![
            Severity::Nil,
            Severity::Low,
            Severity::Medium,
            Severity::High,
            Severity::Critical
        ]
    );
    assert_eq!(
        Justification::all(),
        vec![
            Justification::ComponentNotPresent,
            Justification::VulnerabilityNotApplicable,
            Justification::Mitigated,
            Justification::NoFixAvailable
        ]
    );
    assert_eq!(
        Status::all(),
        vec![Status::Affected, Status::NotAffected, Status::Fixed]
    );
}

#[test]
fn token_lists_match_the_values() {
    assert_eq!(
        Severity::tokens(),
        vec!["None", "Low", "Medium", "High", "Critical"]
    );
    assert_eq!(
        Justification::tokens(),
        vec![
            "Component not present",
            "Vulnerability not applicable",
            "Mitigated",
            "No fix available"
        ]
    );
    assert_eq!(Status::tokens(), vec!["Affected", "Not Affected", "Fixed"]);
    let formatted: Vec<&str> = Severity::all().into_iter().map(|v| v.format()).collect();
    assert_eq!(Severity::tokens(), formatted);
    let formatted: Vec<&str> = Justification::all().into_iter().map(|v| v.format()).collect();
    assert_eq!(Justification::tokens(), formatted);
    let formatted: Vec<&str> = Status::all().into_iter().map(|v| v.format()).collect();
    assert_eq!(Status::tokens(), formatted);
}

#[test]
fn severities_are_ordered_as_listed() {
    let all = Severity::all();
    let mut i = 0;
    while i + 1 < all.len() {
        assert!(all[i] < all[i + 1]);
        i += 1;
    }
    assert!(Severity::Nil < Severity::Critical);
    assert_eq!(all.iter().max(), Some(&Severity::Critical));
}
