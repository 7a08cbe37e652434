use validate_commit::{parse_commit_header, parse_commit_message, CommitType, FormatErrorKind};

fn header_fault(line: &str) -> (FormatErrorKind, Option<usize>) {
    let e = parse_commit_header(line).unwrap_err();
    (e.kind, e.location.as_ref().map(|s| s.column))
}

#[test]
fn test_parse_header() {
    assert!(parse_commit_message("refactor: add commit parsing").is_ok());

    let commit_msg = parse_commit_message("refactor(scope): add commit parsing");
    assert!(commit_msg.is_ok());

    let commit_msg = commit_msg.unwrap();
    assert_eq!(commit_msg.header.subject, "add commit parsing");
    assert_eq!(commit_msg.header.commit_type, CommitType::Refactor);
    assert_eq!(commit_msg.header.scope, Some("scope"));
}

#[test]
fn test_discard_invalid_commit_type() {
    let res = parse_commit_message("feet: add feeture");
    assert!(res.is_err());
    assert_eq!(FormatErrorKind::InvalidCommitType, res.unwrap_err().kind);
}

#[test]
fn discard_not_trimmed_subject() {
    assert!(parse_commit_message("feat: add commit message validation ").is_err());
    let res = parse_commit_message("feat:  add commit message validation");
    assert!(res.is_err());
    assert_eq!(FormatErrorKind::MisplacedWhitespace, res.unwrap_err().kind);
}

#[test]
fn discard_missing_whitespace() {
    let res = parse_commit_message("feat:add commit message validation");
    assert!(res.is_err());
    assert_eq!(FormatErrorKind::MissingWhitespace, res.unwrap_err().kind);
}

#[test]
fn test_second_line_empty() {
    let res = parse_commit_message(
        "feat: add commit message validation
- Validate commit type
- Validate subject",
    );
    assert!(res.is_err());
    assert_eq!(FormatErrorKind::NonEmptySecondLine, res.unwrap_err().kind);
}

#[test]
fn test_fixup_or_squash() {
    assert!(parse_commit_message("fixup! feat: add commit message validation").is_ok());
    assert!(parse_commit_message("squash! feat: add commit message validation").is_ok());
}

#[test]
fn scope_is_parsed() {
    let h = parse_commit_header("feat(lib): add commit validation").unwrap();
    assert_eq!(h.commit_type, CommitType::Feat);
    assert_eq!(h.scope, Some("lib"));
    assert_eq!(h.subject, "add commit validation");
}

#[test]
fn empty_scope_is_kept() {
    let h = parse_commit_header("fix(): add x").unwrap();
    assert_eq!(h.scope, Some(""));
}

#[test]
fn autosquash_prefix_is_stripped() {
    let h = parse_commit_header("squash! perf(db): cache rows").unwrap();
    assert_eq!(h.commit_type, CommitType::Perf);
    assert_eq!(h.scope, Some("db"));
    assert_eq!(h.subject, "cache rows");
    assert_eq!(header_fault("fixup! feat:x"), (FormatErrorKind::MissingWhitespace, Some(5)));
}

#[test]
fn parsed_subject_is_trimmed_and_not_empty() {
    let h = parse_commit_header("test: cover the parser").unwrap();
    assert!(!h.subject.is_empty());
    assert_eq!(h.subject, h.subject.trim());
}

#[test]
fn header_round_trips_with_scope() {
    let line = "refactor(scope): add commit parsing";
    assert_eq!(parse_commit_header(line).unwrap().to_text(), line);
}

#[test]
fn header_round_trips_without_scope() {
    let line = "chore: bump dependencies";
    assert_eq!(parse_commit_header(line).unwrap().to_text(), line);
    let fixup = "fixup! style(fmt): wrap long lines";
    assert_eq!(parse_commit_header(fixup).unwrap().to_text(), "style(fmt): wrap long lines");
}

#[test]
fn fault_no_column() {
    assert_eq!(header_fault("feat add x"), (FormatErrorKind::NoColumn, None));
}

#[test]
fn fault_empty_commit_type() {
    assert_eq!(header_fault(": add x"), (FormatErrorKind::EmptyCommitType, None));
}

#[test]
fn fault_misplaced_whitespace_in_type() {
    assert_eq!(header_fault(" feat: add x"), (FormatErrorKind::MisplacedWhitespace, Some(0)));
    assert_eq!(header_fault("feat : add x"), (FormatErrorKind::MisplacedWhitespace, Some(4)));
}

#[test]
fn fault_misplaced_whitespace_in_subject() {
    assert_eq!(header_fault("feat:  add x"), (FormatErrorKind::MisplacedWhitespace, Some(6)));
    assert_eq!(header_fault("feat: add x\t"), (FormatErrorKind::MisplacedWhitespace, Some(11)));
}

#[test]
fn fault_missing_parenthesis() {
    assert_eq!(header_fault("feat): add x"), (FormatErrorKind::MissingParenthesis, Some(4)));
}

#[test]
fn fault_invalid_type_with_scope() {
    assert_eq!(header_fault("(lib): add x"), (FormatErrorKind::InvalidCommitType, Some(0)));
    assert_eq!(header_fault("Feat: add x"), (FormatErrorKind::InvalidCommitType, Some(0)));
}

#[test]
fn fault_missing_whitespace_at_end_of_line() {
    assert_eq!(header_fault("feat:"), (FormatErrorKind::MissingWhitespace, Some(5)));
}

#[test]
fn fault_empty_subject_points_after_separator() {
    assert_eq!(header_fault("feat: "), (FormatErrorKind::EmptyCommitSubject, Some(6)));
}

#[test]
fn commit_type_text_both_ways() {
    let all = [
        CommitType::Feat,
        CommitType::Fix,
        CommitType::Docs,
        CommitType::Style,
        CommitType::Refactor,
        CommitType::Perf,
        CommitType::Test,
        CommitType::Chore,
    ];
    for t in all {
        assert_eq!(CommitType::from_text(t.as_str()), Some(t));
        let text: &'static str = t.into();
        assert_eq!(text, t.as_str());
        assert_eq!(text.parse::<CommitType>().unwrap(), t);
    }
    assert_eq!(CommitType::Docs.as_str(), "docs");
    assert_eq!(CommitType::from_text("feet"), None);
    assert_eq!("FEAT".parse::<CommitType>().unwrap_err().kind, FormatErrorKind::InvalidCommitType);
}

#[test]
fn subject_case_rule_places_the_fault_after_the_scope() {
    let h = parse_commit_header("fixup! feat(api): Rename field").unwrap();
    assert!(h.check_subject_case(false).is_ok());
    let e = h.check_subject_case(true).unwrap_err();
    assert_eq!(e.kind, FormatErrorKind::CapitalizedFirstLetter);
    let span = e.location.unwrap();
    assert_eq!(span.line, "feat(api): Rename field");
    assert_eq!((span.line_number, span.column), (1, 11));
}
