//! Decomposition of a commit header into type, scope and subject.
use vstd::prelude::*;

use crate::commit::{
    commit_type_of, CommitHeader, CommitMsg, CommitType, HeaderModel, scope_view,
};
use crate::errors::{fault, fault_at, Fault, FormatError, FormatErrorKind};
use crate::text::{
    char_is_whitespace, chars_of, find_char, first_index, is_trimmed, is_trimmed_seq,
    is_whitespace, range_is, split_lines, starts_with, starts_with_text, text_lines, views,
};

verus! {

/// The line without a leading `fixup! ` or `squash! `.
pub open spec fn strip_autosquash(line: Seq<char>) -> Seq<char> {
    if starts_with(line, "fixup! "@) {
        line.skip("fixup! "@.len() as int)
    } else if starts_with(line, "squash! "@) {
        line.skip("squash! "@.len() as int)
    } else {
        line
    }
}

/// The type text and the scope in the part of `line` before the column at
/// index `colon`, or the fault that this part has.
pub open spec fn type_and_scope(line: Seq<char>, colon: int) -> Result<
    (Seq<char>, Option<Seq<char>>),
    Fault,
> {
    let seg = line.take(colon);
    if seg.len() == 0 {
        Err(fault(FormatErrorKind::EmptyCommitType))
    } else if is_whitespace(seg[0]) {
        Err(fault_at(FormatErrorKind::MisplacedWhitespace, line, 1, 0))
    } else if is_whitespace(seg.last()) {
        Err(fault_at(FormatErrorKind::MisplacedWhitespace, line, 1, (colon - 1) as usize))
    } else if seg.last() == ')' {
        match first_index(seg, '(') {
            None => Err(fault_at(FormatErrorKind::MissingParenthesis, line, 1, (colon - 1) as usize)),
            Some(open) => Ok((seg.take(open), Some(seg.subrange(open + 1, colon - 1)))),
        }
    } else {
        Ok((seg, None))
    }
}

/// Where the subject of `line`, which starts at `from`, has whitespace it
/// must not have: at its start when it has some there, else at its end.
pub open spec fn subject_whitespace_column(line: Seq<char>, from: int) -> usize {
    if is_whitespace(line[from]) {
        from as usize
    } else {
        (line.len() - 1) as usize
    }
}

/// The header that `raw` reads as, or the first fault it has, in the order
/// the rules are checked.
pub open spec fn header_outcome(raw: Seq<char>) -> Result<HeaderModel, Fault> {
    let line = strip_autosquash(raw);
    match first_index(line, ':') {
        None => Err(fault(FormatErrorKind::NoColumn)),
        Some(colon) => match type_and_scope(line, colon) {
            Err(f) => Err(f),
            Ok((type_seq, scope)) => match commit_type_of(type_seq) {
                None => Err(fault_at(FormatErrorKind::InvalidCommitType, line, 1, 0)),
                Some(commit_type) => {
                    if !(colon + 1 < line.len() && line[colon + 1] == ' ') {
                        Err(fault_at(FormatErrorKind::MissingWhitespace, line, 1, (colon + 1) as usize))
                    } else {
                        let subject = line.skip(colon + 2);
                        if subject.len() == 0 {
                            Err(
                                fault_at(
                                    FormatErrorKind::EmptyCommitSubject,
                                    line,
                                    1,
                                    (colon + 2) as usize,
                                ),
                            )
                        } else if !is_trimmed_seq(subject) {
                            Err(
                                fault_at(
                                    FormatErrorKind::MisplacedWhitespace,
                                    line,
                                    1,
                                    subject_whitespace_column(line, colon + 2),
                                ),
                            )
                        } else {
                            Ok(HeaderModel { commit_type, scope, subject })
                        }
                    }
                },
            },
        },
    }
}

/// The first line, or an empty one when there is none.
pub open spec fn first_line(lines: Seq<Seq<char>>) -> Seq<char> {
    if lines.len() == 0 {
        Seq::empty()
    } else {
        lines[0]
    }
}

/// The header of a message made of `lines`, or its first fault: a second
/// line that is not empty, then the faults of the header line.
pub open spec fn message_outcome(lines: Seq<Seq<char>>) -> Result<HeaderModel, Fault> {
    if lines.len() > 1 && lines[1].len() > 0 {
        Err(fault_at(FormatErrorKind::NonEmptySecondLine, lines[1], 2, 0))
    } else {
        header_outcome(first_line(lines))
    }
}

/// `r` is the exec form of `outcome`.
pub open spec fn header_result_is(
    r: Result<CommitHeader, FormatError>,
    outcome: Result<HeaderModel, Fault>,
) -> bool {
    match r {
        Ok(h) => outcome == Ok::<HeaderModel, Fault>(h@),
        Err(e) => outcome == Err::<HeaderModel, Fault>(e@),
    }
}

/// `r` is the exec form of `outcome`.
pub open spec fn message_result_is(
    r: Result<CommitMsg, FormatError>,
    outcome: Result<HeaderModel, Fault>,
) -> bool {
    match r {
        Ok(m) => outcome == Ok::<HeaderModel, Fault>(m.header@),
        Err(e) => outcome == Err::<HeaderModel, Fault>(e@),
    }
}

/// Parses a whole commit message: its second line must be empty, and its
/// first line is the header.
pub fn parse_commit_message<'a>(message: &'a str) -> (r: Result<CommitMsg<'a>, FormatError>)
    ensures
        message_result_is(r, message_outcome(text_lines(message@))),
{
    let lines = split_lines(message);
    parse_lines(&lines)
}

/// Parses a message given as its lines.
pub fn parse_lines<'a>(lines: &Vec<&'a str>) -> (r: Result<CommitMsg<'a>, FormatError>)
    ensures
        message_result_is(r, message_outcome(views(lines@))),
{
    let ghost ls = views(lines@);
    if lines.len() > 1 && !lines[1].is_empty() {
        assert(ls[1] == lines@[1]@);
        return Err(FormatErrorKind::NonEmptySecondLine.at(lines[1], 2, 0));
    }
    let first: &'a str = if lines.len() > 0 {
        lines[0]
    } else {
        proof {
            reveal_strlit("");
        }
        ""
    };
    assert(first@ == crate::parse::first_line(ls));
    match parse_commit_header(first) {
        Ok(header) => Ok(CommitMsg { header }),
        Err(e) => Err(e),
    }
}

/// Parses one header line.
pub fn parse_commit_header<'a>(line: &'a str) -> (r: Result<CommitHeader<'a>, FormatError>)
    ensures
        header_result_is(r, header_outcome(line@)),
{
    let line = discard_autosquash(line);
    let v = chars_of(line);
    let n = v.len();
    assert(v@.subrange(0, n as int) =~= v@);
    let colon = match find_char(&v, 0, n, ':') {
        Some(c) => c,
        None => return Err(FormatErrorKind::NoColumn.into()),
    };
    let (type_end, scope) = match parse_commit_type_and_scope(&v, line, colon) {
        Ok(parts) => parts,
        Err(e) => return Err(e),
    };
    let commit_type = match parse_commit_type(&v, type_end) {
        Ok(t) => t,
        Err(e) => return Err(e.at(line, 1, 0)),
    };
    if colon + 1 >= n || v[colon + 1] != ' ' {
        return Err(FormatErrorKind::MissingWhitespace.at(line, 1, colon + 1));
    }
    let subject_pos = colon + 2;
    let subject = line.substring_char(subject_pos, n);
    assert(subject@ =~= line@.skip(subject_pos as int));
    if subject_pos == n {
        return Err(FormatErrorKind::EmptyCommitSubject.at(line, 1, subject_pos));
    }
    if !is_trimmed(subject) {
        let pos = if char_is_whitespace(v[subject_pos]) {
            subject_pos
        } else {
            n - 1
        };
        return Err(FormatErrorKind::MisplacedWhitespace.at(line, 1, pos));
    }
    Ok(CommitHeader { commit_type, scope, subject })
}

/// Returns the line without `squash! ` or `fixup! `.
fn discard_autosquash<'a>(line: &'a str) -> (r: &'a str)
    ensures
        r@ == strip_autosquash(line@),
{
    if starts_with_text(line, "fixup! ") {
        line.substring_char("fixup! ".unicode_len(), line.unicode_len())
    } else if starts_with_text(line, "squash! ") {
        line.substring_char("squash! ".unicode_len(), line.unicode_len())
    } else {
        line
    }
}

/// The commit type spelled by `v[..end]`, or a fault without a place.
pub(crate) fn parse_commit_type(v: &Vec<char>, end: usize) -> (r: Result<CommitType, FormatError>)
    requires
        end <= v@.len(),
    ensures
        match r {
            Ok(t) => commit_type_of(v@.take(end as int)) == Some(t),
            Err(e) => commit_type_of(v@.take(end as int)) is None && e@ == fault(
                FormatErrorKind::InvalidCommitType,
            ),
        },
{
    assert(v@.subrange(0, end as int) =~= v@.take(end as int));
    if range_is(v, 0, end, "feat") {
        Ok(CommitType::Feat)
    } else if range_is(v, 0, end, "fix") {
        Ok(CommitType::Fix)
    } else if range_is(v, 0, end, "docs") {
        Ok(CommitType::Docs)
    } else if range_is(v, 0, end, "style") {
        Ok(CommitType::Style)
    } else if range_is(v, 0, end, "refactor") {
        Ok(CommitType::Refactor)
    } else if range_is(v, 0, end, "perf") {
        Ok(CommitType::Perf)
    } else if range_is(v, 0, end, "test") {
        Ok(CommitType::Test)
    } else if range_is(v, 0, end, "chore") {
        Ok(CommitType::Chore)
    } else {
        Err(FormatErrorKind::InvalidCommitType.into())
    }
}

/// Splits the part of `line` before the column at `colon` into the end of
/// the type text and the scope.
fn parse_commit_type_and_scope<'a>(v: &Vec<char>, line: &'a str, colon: usize) -> (r: Result<
    (usize, Option<&'a str>),
    FormatError,
>)
    requires
        v@ == line@,
        colon < v@.len(),
    ensures
        match r {
            Ok((end, scope)) => end <= colon && type_and_scope(line@, colon as int) == Ok::<
                (Seq<char>, Option<Seq<char>>),
                Fault,
            >((line@.take(end as int), scope_view(scope))),
            Err(e) => type_and_scope(line@, colon as int) == Err::<
                (Seq<char>, Option<Seq<char>>),
                Fault,
            >(e@),
        },
{
    let ghost seg = line@.take(colon as int);
    if colon == 0 {
        return Err(FormatErrorKind::EmptyCommitType.into());
    }
    assert(seg[0] == v@[0]);
    assert(seg.last() == v@[colon - 1]);
    if char_is_whitespace(v[0]) {
        return Err(FormatErrorKind::MisplacedWhitespace.at(line, 1, 0));
    }
    let last_char = v[colon - 1];
    if char_is_whitespace(last_char) {
        return Err(FormatErrorKind::MisplacedWhitespace.at(line, 1, colon - 1));
    }
    if last_char == ')' {
        assert(v@.subrange(0, colon as int) =~= seg);
        match find_char(v, 0, colon, '(') {
            None => Err(FormatErrorKind::MissingParenthesis.at(line, 1, colon - 1)),
            Some(open) => {
                let scope = line.substring_char(open + 1, colon - 1);
                assert(seg.take(open as int) =~= line@.take(open as int));
                assert(seg.subrange(open + 1, colon - 1) =~= scope@);
                Ok((open, Some(scope)))
            },
        }
    } else {
        Ok((colon, None))
    }
}

} // verus!
