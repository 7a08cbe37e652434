//! Properties of the parser and the validator that hold for every message.
use vstd::prelude::*;

use crate::commit::{commit_type_of, header_text, type_text, CommitType};
use crate::errors::{fault_at, Fault, FormatError, FormatErrorKind};
use crate::parse::{first_line, header_outcome, message_outcome, strip_autosquash, type_and_scope};
use crate::text::{first_index, is_first_index, is_trimmed_seq, lemma_first_index_some};
use crate::validate::{
    case_outcome, is_exempt, is_first_long_line, is_uppercase, outcome_view, surviving_lines,
    validation_outcome, MAX_LINE_LENGTH,
};

verus! {

/// A parsed header has a subject that is not empty and equals its trimmed form.
pub proof fn lemma_parsed_subject_is_trimmed(line: Seq<char>)
    ensures
        match header_outcome(line) {
            Ok(h) => h.subject.len() > 0 && is_trimmed_seq(h.subject),
            Err(_) => true,
        },
{
}

/// Every accepted message that the exemption does not cover has a header
/// whose subject is not empty and equals its trimmed form.
pub proof fn lemma_accepted_subject_is_trimmed(input: Seq<char>)
    requires
        validation_outcome(input) is Ok,
        !is_exempt(first_line(surviving_lines(input))),
    ensures
        match message_outcome(surviving_lines(input)) {
            Ok(h) => h.subject.len() > 0 && is_trimmed_seq(h.subject),
            Err(_) => false,
        },
{
    lemma_parsed_subject_is_trimmed(first_line(surviving_lines(input)));
}

/// A message whose first surviving line starts with `Merge ` or `WIP` is
/// accepted, whatever follows.
pub proof fn lemma_exempt_message_is_accepted(input: Seq<char>)
    requires
        is_exempt(first_line(surviving_lines(input))),
    ensures
        validation_outcome(input) == Ok::<(), Fault>(()),
{
}

/// The canonical text of the type that a text names is that text.
pub proof fn lemma_type_text_of(s: Seq<char>)
    ensures
        match commit_type_of(s) {
            Some(t) => type_text(t) == s,
            None => true,
        },
{
}

/// Every commit type is read back from its canonical text.
pub proof fn lemma_type_text_round_trip(t: CommitType)
    ensures
        commit_type_of(type_text(t)) == Some(t),
{
    reveal_strlit("feat");
    reveal_strlit("fix");
    reveal_strlit("docs");
    reveal_strlit("style");
    reveal_strlit("refactor");
    reveal_strlit("perf");
    reveal_strlit("test");
    reveal_strlit("chore");
    let names = seq!["feat"@, "fix"@, "docs"@, "style"@, "refactor"@, "perf"@, "test"@, "chore"@];
    assert forall|i: int, j: int| 0 <= i < j < 8 implies #[trigger] names[i] != #[trigger] names[j] by {
        if names[i].len() == names[j].len() {
            if names[i][0] == names[j][0] {
                assert(names[i][1] != names[j][1]);
            } else {
                assert(names[i][0] != names[j][0]);
            }
        }
    }
}

/// Writing a parsed header back from its type, scope and subject gives the
/// header line again (without its `fixup! ` or `squash! ` prefix):
/// `type(scope): subject` with a scope, `type: subject` without.
pub proof fn lemma_header_round_trip(raw: Seq<char>)
    ensures
        match header_outcome(raw) {
            Ok(h) => header_text(h) == strip_autosquash(raw),
            Err(_) => true,
        },
{
    let line = strip_autosquash(raw);
    lemma_first_index_some(line, ':');
    if let Ok(h) = header_outcome(raw) {
        let colon = first_index(line, ':')->0;
        let seg = line.take(colon);
        let (type_seq, scope) = type_and_scope(line, colon)->Ok_0;
        lemma_type_text_of(type_seq);
        reveal_strlit(": ");
        reveal_strlit("(");
        reveal_strlit(")");
        assert(line =~= seg + ": "@ + h.subject);
        if seg.last() == ')' {
            lemma_first_index_some(seg, '(');
            let open = first_index(seg, '(')->0;
            assert(is_first_index(seg, '(', open));
            assert(seg =~= seg.take(open) + "("@ + seg.subrange(open + 1, colon - 1) + ")"@);
        }
        assert(header_text(h) =~= line);
    }
}

/// Validation depends on the message alone: two validations of one message
/// both accept it, or both give the same fault at the same place.
pub proof fn lemma_validation_is_repeatable(
    input: Seq<char>,
    first: Result<(), FormatError>,
    second: Result<(), FormatError>,
)
    requires
        outcome_view(first) == validation_outcome(input),
        outcome_view(second) == validation_outcome(input),
    ensures
        outcome_view(first) == outcome_view(second),
{
}

/// The length rule at its boundary, for a message that the exemption does
/// not cover and whose header parses: lines of at most 100 characters pass
/// it, and the first longer line is rejected at column 100; so a header of
/// exactly 100 characters passes and one of 101 is rejected.
pub proof fn lemma_line_length_boundary(input: Seq<char>)
    requires
        !is_exempt(first_line(surviving_lines(input))),
        message_outcome(surviving_lines(input)) is Ok,
    ensures
        ({
            let lines = surviving_lines(input);
            let h = message_outcome(lines)->Ok_0;
            &&& (forall|i: int| 0 <= i < lines.len() ==> (#[trigger] lines[i]).len() <= MAX_LINE_LENGTH)
                ==> validation_outcome(input) == case_outcome(h, is_uppercase(h.subject[0]))
            &&& forall|i: int|
                is_first_long_line(lines, i) ==> validation_outcome(input) == Err::<(), Fault>(
                    fault_at(
                        FormatErrorKind::LineTooLong(MAX_LINE_LENGTH),
                        lines[i],
                        (i + 1) as usize,
                        MAX_LINE_LENGTH,
                    ),
                )
            &&& lines.len() > 0 && lines[0].len() == MAX_LINE_LENGTH + 1 ==> validation_outcome(input)
                == Err::<(), Fault>(
                fault_at(FormatErrorKind::LineTooLong(MAX_LINE_LENGTH), lines[0], 1, MAX_LINE_LENGTH),
            )
        }),
{
    let lines = surviving_lines(input);
    if forall|i: int| 0 <= i < lines.len() ==> (#[trigger] lines[i]).len() <= MAX_LINE_LENGTH {
        if exists|i: int| is_first_long_line(lines, i) {
            let i = choose|i: int| is_first_long_line(lines, i);
            assert(lines[i].len() <= MAX_LINE_LENGTH);
        }
    }
    assert forall|i: int| is_first_long_line(lines, i) implies validation_outcome(input) == Err::<
        (),
        Fault,
    >(
        fault_at(
            FormatErrorKind::LineTooLong(MAX_LINE_LENGTH),
            lines[i],
            (i + 1) as usize,
            MAX_LINE_LENGTH,
        ),
    ) by {
        let k = choose|k: int| is_first_long_line(lines, k);
        if k < i {
            assert(lines[k].len() <= MAX_LINE_LENGTH);
        } else if k > i {
            assert(lines[i].len() <= MAX_LINE_LENGTH);
        }
    }
    if lines.len() > 0 && lines[0].len() == MAX_LINE_LENGTH + 1 {
        assert(is_first_long_line(lines, 0));
    }
}

} // verus!
