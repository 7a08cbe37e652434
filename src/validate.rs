//! The rules applied to a whole commit message.
use vstd::prelude::*;

use crate::commit::{header_text, type_text, CommitHeader, HeaderModel};
use crate::errors::{fault_at, CommitValidationError, Fault, FormatError, FormatErrorKind, IOError};
use crate::parse::{first_line, message_outcome, parse_lines};
use crate::text::{split_lines, starts_with, starts_with_text, text_lines, views};

verus! {

/// The longest a line of a commit message may be, in characters.
pub const MAX_LINE_LENGTH: usize = 100;

/// Whether `c` has the Unicode `Uppercase` property.
pub uninterp spec fn is_uppercase(c: char) -> bool;

/// Relies on `char::is_uppercase`: whether `c` has the Unicode `Uppercase` property.
#[verifier::external_body]
fn char_is_uppercase(c: char) -> (r: bool)
    ensures
        r == is_uppercase(c),
{
    c.is_uppercase()
}

/// A line that an editor template adds as a comment.
pub open spec fn is_comment(line: Seq<char>) -> bool {
    starts_with(line, "#"@)
}

/// The lines of `input` that are not comments, in order.
pub open spec fn surviving_lines(input: Seq<char>) -> Seq<Seq<char>> {
    text_lines(input).filter(|l: Seq<char>| !is_comment(l))
}

/// A first line that exempts the message from the convention.
pub open spec fn is_exempt(first: Seq<char>) -> bool {
    starts_with(first, "Merge "@) || starts_with(first, "WIP"@)
}

/// `i` is the index of the first line longer than the limit.
pub open spec fn is_first_long_line(lines: Seq<Seq<char>>, i: int) -> bool {
    0 <= i < lines.len() && lines[i].len() > MAX_LINE_LENGTH && forall|j: int|
        0 <= j < i ==> (#[trigger] lines[j]).len() <= MAX_LINE_LENGTH
}

/// The index of the first line longer than the limit, if any.
pub open spec fn first_long_line(lines: Seq<Seq<char>>) -> Option<int> {
    if exists|i: int| is_first_long_line(lines, i) {
        Some(choose|i: int| is_first_long_line(lines, i))
    } else {
        None
    }
}

/// Where the subject starts in the header line of `h`: after the type, the
/// parenthesized scope if any, and `": "`.
pub open spec fn subject_column(h: HeaderModel) -> nat {
    type_text(h.commit_type).len() + match h.scope {
        Some(s) => s.len() + 2,
        None => 0,
    } + 2
}

/// The capitalization rule on a header whose subject starts with an
/// uppercase letter exactly when `starts_uppercase`.
pub open spec fn case_outcome(h: HeaderModel, starts_uppercase: bool) -> Result<(), Fault> {
    if starts_uppercase {
        Err(
            fault_at(
                FormatErrorKind::CapitalizedFirstLetter,
                header_text(h),
                1,
                subject_column(h) as usize,
            ),
        )
    } else {
        Ok(())
    }
}

/// The outcome of validating the message `input`: accepted, or the first
/// fault in the order the rules are checked.
pub open spec fn validation_outcome(input: Seq<char>) -> Result<(), Fault> {
    let lines = surviving_lines(input);
    if is_exempt(first_line(lines)) {
        Ok(())
    } else {
        match message_outcome(lines) {
            Err(f) => Err(f),
            Ok(h) => match first_long_line(lines) {
                Some(i) => Err(
                    fault_at(
                        FormatErrorKind::LineTooLong(MAX_LINE_LENGTH),
                        lines[i],
                        (i + 1) as usize,
                        MAX_LINE_LENGTH,
                    ),
                ),
                None => case_outcome(h, is_uppercase(h.subject[0])),
            },
        }
    }
}

/// The view of a validation result.
pub open spec fn outcome_view(r: Result<(), FormatError>) -> Result<(), Fault> {
    match r {
        Ok(()) => Ok(()),
        Err(e) => Err(e@),
    }
}

impl<'a> CommitHeader<'a> {
    /// Applies the capitalization rule, given whether the subject starts
    /// with an uppercase letter.
    pub fn check_subject_case(&self, starts_uppercase: bool) -> (r: Result<(), FormatError>)
        ensures
            outcome_view(r) == case_outcome(self@, starts_uppercase),
    {
        if !starts_uppercase {
            return Ok(());
        }
        let text = self.to_text();
        let len = text.as_str().unicode_len();
        let column = len - self.subject.unicode_len();
        proof {
            reveal_strlit("(");
            reveal_strlit(")");
            reveal_strlit(": ");
        }
        Err(FormatErrorKind::CapitalizedFirstLetter.at(text.as_str(), 1, column))
    }
}

/// Validate a commit message.
///
/// For now, only validate the header, which contains the commit type, the subject
/// and an optional scope.
///
/// Ignore lines starting with '#'.
///
/// Validate the whole message if the first line starts with "Merge " or "WIP".
pub fn validate_commit_message(input: &str) -> (r: Result<(), FormatError>)
    ensures
        outcome_view(r) == validation_outcome(input@),
{
    let all = split_lines(input);
    let mut lines: Vec<&str> = Vec::new();
    let mut k: usize = 0;
    while k < all.len()
        invariant
            k <= all@.len(),
            views(lines@) == views(all@).take(k as int).filter(|l: Seq<char>| !is_comment(l)),
        decreases all@.len() - k,
    {
        let line = all[k];
        proof {
            reveal(Seq::filter);
            assert(views(all@).take(k + 1).drop_last() =~= views(all@).take(k as int));
        }
        if !starts_with_text(line, "#") {
            lines.push(line);
            assert(views(lines@) =~= views(all@).take(k + 1).filter(
                |l: Seq<char>| !is_comment(l),
            ));
        } else {
            assert(views(lines@) =~= views(all@).take(k + 1).filter(
                |l: Seq<char>| !is_comment(l),
            ));
        }
        k = k + 1;
    }
    assert(views(all@).take(all@.len() as int) =~= views(all@));
    let ghost ls = views(lines@);
    assert(ls == surviving_lines(input@));
    let first: &str = if lines.len() > 0 {
        lines[0]
    } else {
        proof {
            reveal_strlit("");
        }
        ""
    };
    assert(first@ == first_line(ls));
    if starts_with_text(first, "Merge ") || starts_with_text(first, "WIP") {
        return Ok(());
    }
    let message = match parse_lines(&lines) {
        Ok(m) => m,
        Err(e) => return Err(e),
    };
    let mut i: usize = 0;
    while i < lines.len()
        invariant
            ls == views(lines@),
            ls == surviving_lines(input@),
            !is_exempt(first_line(ls)),
            message_outcome(ls) == Ok::<HeaderModel, Fault>(message.header@),
            i <= lines@.len(),
            forall|j: int| 0 <= j < i ==> (#[trigger] ls[j]).len() <= MAX_LINE_LENGTH,
        decreases lines@.len() - i,
    {
        let line = lines[i];
        assert(ls[i as int] == line@);
        if line.unicode_len() > MAX_LINE_LENGTH {
            proof {
                assert(is_first_long_line(ls, i as int));
                let k = choose|k: int| is_first_long_line(ls, k);
                if k < i {
                    assert(ls[k].len() <= MAX_LINE_LENGTH);
                } else if k > i {
                    assert(ls[i as int].len() <= MAX_LINE_LENGTH);
                }
                assert(first_long_line(ls) == Some(i as int));
            }
            return Err(FormatErrorKind::LineTooLong(MAX_LINE_LENGTH).at(line, i + 1, MAX_LINE_LENGTH));
        }
        i = i + 1;
    }
    let first_char = message.header.subject.get_char(0);
    let upper = char_is_uppercase(first_char);
    message.header.check_subject_case(upper)
}

/// Validates the contents read from a commit file, or passes on the
/// failure to read them.
pub fn validate_commit_contents(contents: Result<String, IOError>) -> (r: Result<
    (),
    CommitValidationError,
>)
    ensures
        match contents {
            Err(io) => match r {
                Err(CommitValidationError::Io(e)) => e.kind == io.kind,
                _ => false,
            },
            Ok(message) => match validation_outcome(message@) {
                Ok(()) => r is Ok,
                Err(f) => match r {
                    Err(CommitValidationError::Format(e)) => e@ == f,
                    _ => false,
                },
            },
        },
{
    match contents {
        Err(io) => Err(CommitValidationError::from(io)),
        Ok(message) => match validate_commit_message(message.as_str()) {
            Ok(()) => Ok(()),
            Err(e) => Err(CommitValidationError::from(e)),
        },
    }
}

} // verus!
