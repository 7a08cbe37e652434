use validate_commit::{
    validate_commit_contents, validate_commit_message, CommitValidationError, FormatErrorKind,
    IOError, IOErrorKind,
};

fn fault_of(input: &str) -> (FormatErrorKind, Option<(String, usize, usize)>) {
    let e = validate_commit_message(input).unwrap_err();
    let place = e
        .location
        .as_ref()
        .map(|s| (s.line.clone(), s.line_number, s.column));
    (e.kind, place)
}

#[test]
fn validate_short_messages() {
    assert!(validate_commit_message("feat: add commit message validation").is_ok());
    assert!(validate_commit_message("fix: fix bug in commit message validation").is_ok());
    assert!(validate_commit_message("docs: add README.md").is_ok());
}

#[test]
fn discard_invalid_commit_type() {
    assert!(validate_commit_message("feet: add commit message validation").is_err());
}

#[test]
fn discard_missing_whitespace_before_subject() {
    assert!(validate_commit_message("feat:add commit message validation").is_err());
}

#[test]
fn discard_missing_subject() {
    assert!(validate_commit_message("feat: ").is_err());
}

#[test]
fn discard_capitalized_subject() {
    assert!(validate_commit_message("feat: Add commit message validation").is_err());
}

#[test]
fn discard_too_long_lines() {
    assert!(validate_commit_message("feat: add commit message validation an other sweet features so this commit contains way too much things").is_err());
}

#[test]
fn ignore_wip_and_merge_message() {
    assert!(validate_commit_message("Merge branch develop").is_ok());
    assert!(validate_commit_message("WIP: feat: add feature").is_ok());
}

#[test]
fn scenario_accepted_header() {
    assert!(validate_commit_message("feat: add commit message validation").is_ok());
}

#[test]
fn scenario_invalid_type() {
    let (kind, place) = fault_of("feet: add commit message validation");
    assert_eq!(kind, FormatErrorKind::InvalidCommitType);
    assert_eq!(place, Some(("feet: add commit message validation".to_string(), 1, 0)));
}

#[test]
fn scenario_missing_whitespace_at_column_five() {
    let (kind, place) = fault_of("feat:add commit message validation");
    assert_eq!(kind, FormatErrorKind::MissingWhitespace);
    assert_eq!(place, Some(("feat:add commit message validation".to_string(), 1, 5)));
}

#[test]
fn scenario_empty_subject() {
    let (kind, _) = fault_of("feat: ");
    assert_eq!(kind, FormatErrorKind::EmptyCommitSubject);
}

#[test]
fn scenario_capitalized_at_column_six() {
    let (kind, place) = fault_of("feat: Add commit message validation");
    assert_eq!(kind, FormatErrorKind::CapitalizedFirstLetter);
    assert_eq!(place, Some(("feat: Add commit message validation".to_string(), 1, 6)));
}

#[test]
fn capitalized_column_counts_the_scope() {
    let (kind, place) = fault_of("fix(parser): Handle colons");
    assert_eq!(kind, FormatErrorKind::CapitalizedFirstLetter);
    assert_eq!(place, Some(("fix(parser): Handle colons".to_string(), 1, 13)));
}

#[test]
fn capitalized_non_ascii_letter() {
    let (kind, _) = fault_of("docs: Élaborate the guide");
    assert_eq!(kind, FormatErrorKind::CapitalizedFirstLetter);
    assert!(validate_commit_message("docs: élaborate the guide").is_ok());
    assert!(validate_commit_message("docs: 1 more guide").is_ok());
}

#[test]
fn scenario_fixup_accepted() {
    assert!(validate_commit_message("fixup! feat: add commit message validation").is_ok());
}

#[test]
fn scenario_scope_accepted() {
    assert!(validate_commit_message("feat(lib): add commit validation").is_ok());
}

#[test]
fn scenario_merge_accepted() {
    assert!(validate_commit_message("Merge branch develop").is_ok());
}

#[test]
fn exempt_messages_skip_every_rule() {
    assert!(validate_commit_message("Merge branch 'develop'\nnot empty\n").is_ok());
    assert!(validate_commit_message("WIP").is_ok());
    assert!(validate_commit_message("# template\nWIP Something Odd: x").is_ok());
    assert!(validate_commit_message("Merge").is_err());
}

#[test]
fn comment_lines_are_dropped_before_numbering() {
    assert!(validate_commit_message("# A comment\nfeat: add commit validation").is_ok());
    let (kind, place) = fault_of("feat: add x\n# comment\nnot empty");
    assert_eq!(kind, FormatErrorKind::NonEmptySecondLine);
    assert_eq!(place, Some(("not empty".to_string(), 2, 0)));
}

#[test]
fn header_of_exactly_one_hundred_characters_passes() {
    let header = format!("feat: {}", "a".repeat(94));
    assert_eq!(header.chars().count(), 100);
    assert!(validate_commit_message(&header).is_ok());
}

#[test]
fn header_of_one_hundred_and_one_characters_fails() {
    let header = format!("feat: {}", "a".repeat(95));
    let (kind, place) = fault_of(&header);
    assert_eq!(kind, FormatErrorKind::LineTooLong(100));
    assert_eq!(place, Some((header.clone(), 1, 100)));
}

#[test]
fn long_body_line_is_reported_on_its_line() {
    let body = "b".repeat(101);
    let message = format!("fix: short header\n\n{}\nshort", body);
    let (kind, place) = fault_of(&message);
    assert_eq!(kind, FormatErrorKind::LineTooLong(100));
    assert_eq!(place, Some((body.clone(), 3, 100)));
}

#[test]
fn line_length_counts_characters() {
    let header = format!("feat: {}", "é".repeat(94));
    assert!(validate_commit_message(&header).is_ok());
}

#[test]
fn header_fault_comes_before_length_fault() {
    let header = format!("feet: {}", "a".repeat(120));
    assert_eq!(fault_of(&header).0, FormatErrorKind::InvalidCommitType);
}

#[test]
fn length_fault_comes_before_capitalization() {
    let header = format!("feat: A{}", "a".repeat(120));
    assert_eq!(fault_of(&header).0, FormatErrorKind::LineTooLong(100));
}

#[test]
fn validating_twice_gives_the_same_fault() {
    for input in ["feat:add x", "feat: Add x", "feat: add x", "x\ny", "Merge x"] {
        let first = validate_commit_message(input).map_err(|e| e.render());
        let second = validate_commit_message(input).map_err(|e| e.render());
        assert_eq!(first, second);
    }
}

#[test]
fn empty_message_has_no_column() {
    let (kind, place) = fault_of("");
    assert_eq!(kind, FormatErrorKind::NoColumn);
    assert_eq!(place, None);
    assert_eq!(fault_of("# only a comment\n").0, FormatErrorKind::NoColumn);
}

#[test]
fn windows_line_endings_are_accepted() {
    assert!(validate_commit_message("feat: add x\r\n\r\nbody\r\n").is_ok());
}

#[test]
fn rendered_fault_points_at_the_column() {
    let e = validate_commit_message("feat:add x").unwrap_err();
    assert_eq!(
        e.render(),
        "line 1: Missing whitespace after the column\nfeat:add x\n     ^"
    );
}

#[test]
fn rendered_length_fault_names_the_limit() {
    let header = format!("feat: {}", "a".repeat(95));
    let e = validate_commit_message(&header).unwrap_err();
    let expected = format!(
        "line 1: Line must not be longer than 100 characters\n{}\n{}^",
        header,
        " ".repeat(100)
    );
    assert_eq!(e.render(), expected);
}

#[test]
fn rendered_fault_without_place_is_the_message() {
    let e = validate_commit_message("no column here").unwrap_err();
    assert_eq!(e.render(), "First line must contain a column");
}

#[test]
fn contents_that_could_not_be_read_give_an_io_error() {
    let r = validate_commit_contents(Err(IOError::from(IOErrorKind::ReadFileError)));
    match r {
        Err(CommitValidationError::Io(e)) => {
            assert_eq!(e.kind, IOErrorKind::ReadFileError);
            assert_eq!(e.render(), "Error while reading commit file");
        }
        _ => panic!("expected an I/O error"),
    }
}

#[test]
fn contents_that_were_read_are_validated() {
    assert!(validate_commit_contents(Ok("chore: bump".to_string())).is_ok());
    match validate_commit_contents(Ok("chore:bump".to_string())) {
        Err(CommitValidationError::Format(e)) => {
            assert_eq!(e.kind, FormatErrorKind::MissingWhitespace)
        }
        _ => panic!("expected a format error"),
    }
}
