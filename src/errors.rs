//! Faults found in a commit message, where they were found, and how they read.
use vstd::prelude::*;

verus! {

/// Why a commit file is not accepted: a fault in its message, or a failure
/// to read it.
#[derive(Debug)]
pub enum CommitValidationError {
    Format(FormatError),
    Io(IOError),
}

impl From<FormatError> for CommitValidationError {
    fn from(error: FormatError) -> (r: Self) {
        CommitValidationError::Format(error)
    }
}

impl vstd::std_specs::convert::FromSpecImpl<FormatError> for CommitValidationError {
    open spec fn obeys_from_spec() -> bool {
        true
    }

    open spec fn from_spec(error: FormatError) -> Self {
        CommitValidationError::Format(error)
    }
}

impl From<IOError> for CommitValidationError {
    fn from(error: IOError) -> (r: Self) {
        CommitValidationError::Io(error)
    }
}

impl vstd::std_specs::convert::FromSpecImpl<IOError> for CommitValidationError {
    open spec fn obeys_from_spec() -> bool {
        true
    }

    open spec fn from_spec(error: IOError) -> Self {
        CommitValidationError::Io(error)
    }
}

impl CommitValidationError {
    /// The human-readable text of the error.
    pub fn render(&self) -> (r: String)
        ensures
            r@ == match self {
                CommitValidationError::Format(e) => fault_text(e@),
                CommitValidationError::Io(e) => io_message(e.kind),
            },
    {
        match self {
            CommitValidationError::Format(e) => e.render(),
            CommitValidationError::Io(e) => e.render(),
        }
    }
}

/// A failure to get the message out of the commit file.
#[derive(Debug)]
pub struct IOError {
    pub kind: IOErrorKind,
}

impl From<IOErrorKind> for IOError {
    fn from(kind: IOErrorKind) -> (r: Self) {
        IOError { kind }
    }
}

impl vstd::std_specs::convert::FromSpecImpl<IOErrorKind> for IOError {
    open spec fn obeys_from_spec() -> bool {
        true
    }

    open spec fn from_spec(kind: IOErrorKind) -> Self {
        IOError { kind }
    }
}

impl IOError {
    /// The human-readable text of the error.
    pub fn render(&self) -> (r: String)
        ensures
            r@ == io_message(self.kind),
    {
        String::from_str(self.kind.message())
    }
}

/// Which step of getting the commit file failed.
#[derive(Copy, Clone, Eq, PartialEq, Debug, Structural)]
pub enum IOErrorKind {
    OpenFileError,
    ReadFileError,
}

/// The text shown for an I/O failure.
pub open spec fn io_message(kind: IOErrorKind) -> Seq<char> {
    match kind {
        IOErrorKind::OpenFileError => "Error while opening commit file"@,
        IOErrorKind::ReadFileError => "Error while reading commit file"@,
    }
}

impl IOErrorKind {
    /// The text shown for this failure.
    pub fn message(&self) -> (r: &'static str)
        ensures
            r@ == io_message(*self),
    {
        match self {
            IOErrorKind::OpenFileError => "Error while opening commit file",
            IOErrorKind::ReadFileError => "Error while reading commit file",
        }
    }
}

/// The rule that a commit message breaks.
#[derive(Copy, Clone, Eq, PartialEq, Debug, Structural)]
pub enum FormatErrorKind {
    CapitalizedFirstLetter,
    EmptyCommitSubject,
    EmptyCommitType,
    InvalidCommitType,
    LineTooLong(usize),
    MissingParenthesis,
    MissingWhitespace,
    MisplacedWhitespace,
    NoColumn,
    NonEmptySecondLine,
}

/// Where a fault lies: a copy of the line, its number (from 1) and the
/// column (from 0) of the offending character.
pub struct SpanModel {
    pub line: Seq<char>,
    pub line_number: usize,
    pub column: usize,
}

/// A fault: the broken rule, and where it lies when a place makes sense.
pub struct Fault {
    pub kind: FormatErrorKind,
    pub location: Option<SpanModel>,
}

/// A fault without a place.
pub open spec fn fault(kind: FormatErrorKind) -> Fault {
    Fault { kind, location: None }
}

/// A fault on column `column` of line number `line_number`, which reads `line`.
pub open spec fn fault_at(
    kind: FormatErrorKind,
    line: Seq<char>,
    line_number: usize,
    column: usize,
) -> Fault {
    Fault { kind, location: Some(SpanModel { line, line_number, column }) }
}

/// The place of a fault in the message.
#[derive(Debug)]
pub struct Span {
    pub line: String,
    pub line_number: usize,
    pub column: usize,
}

impl View for Span {
    type V = SpanModel;

    open spec fn view(&self) -> SpanModel {
        SpanModel { line: self.line@, line_number: self.line_number, column: self.column }
    }
}

impl Span {
    /// The place at column `pos` of line number `line_number`, which reads `line`.
    pub fn new(line: &str, line_number: usize, pos: usize) -> (r: Span)
        ensures
            r@ == (SpanModel { line: line@, line_number, column: pos }),
    {
        Span { line: line.to_owned(), line_number, column: pos }
    }
}

/// A rule that a commit message breaks, and where.
#[derive(Debug)]
pub struct FormatError {
    pub kind: FormatErrorKind,
    pub location: Option<Span>,
}

impl View for FormatError {
    type V = Fault;

    open spec fn view(&self) -> Fault {
        Fault {
            kind: self.kind,
            location: match self.location {
                Some(s) => Some(s@),
                None => None,
            },
        }
    }
}

impl From<FormatErrorKind> for FormatError {
    fn from(kind: FormatErrorKind) -> (r: Self) {
        FormatError { kind, location: None }
    }
}

impl vstd::std_specs::convert::FromSpecImpl<FormatErrorKind> for FormatError {
    open spec fn obeys_from_spec() -> bool {
        true
    }

    open spec fn from_spec(kind: FormatErrorKind) -> Self {
        FormatError { kind, location: None }
    }
}

impl FormatError {
    /// A fault of kind `kind` at column `pos` of line number `line_number`.
    pub(crate) fn with_span(kind: FormatErrorKind, line: &str, line_number: usize, pos: usize) -> (r:
        FormatError)
        ensures
            r@ == fault_at(kind, line@, line_number, pos),
    {
        FormatError { kind, location: Some(Span::new(line, line_number, pos)) }
    }

    /// The same fault, placed at column `pos` of line number `line_number`.
    pub(crate) fn at(self, line: &str, line_number: usize, pos: usize) -> (r: FormatError)
        ensures
            r@ == fault_at(self.kind, line@, line_number, pos),
    {
        FormatError::with_span(self.kind, line, line_number, pos)
    }

    /// The human-readable text of the fault.
    pub fn render(&self) -> (r: String)
        ensures
            r@ == fault_text(self@),
    {
        match &self.location {
            None => self.kind.message(),
            Some(span) => {
                let mut r = String::from_str("line ");
                append_decimal(&mut r, span.line_number);
                r.append(": ");
                let message = self.kind.message();
                r.append(message.as_str());
                r.append("\n");
                r.append(span.line.as_str());
                r.append("\n");
                let mut i: usize = 0;
                while i < span.column
                    invariant
                        i <= span.column,
                        r@ == "line "@ + decimal(span.line_number as nat) + ": "@ + kind_message(
                            self.kind,
                        ) + "\n"@ + span.line@ + "\n"@ + spaces(i as nat),
                    decreases span.column - i,
                {
                    r.append(" ");
                    i = i + 1;
                }
                r.append("^");
                r
            },
        }
    }
}

impl FormatErrorKind {
    /// A fault of this kind at column `pos` of line number `line_number`.
    pub(crate) fn at(self, line: &str, line_number: usize, pos: usize) -> (r: FormatError)
        ensures
            r@ == fault_at(self, line@, line_number, pos),
    {
        FormatError::with_span(self, line, line_number, pos)
    }

    /// The text shown for this fault.
    pub fn message(&self) -> (r: String)
        ensures
            r@ == kind_message(*self),
    {
        match self {
            FormatErrorKind::CapitalizedFirstLetter => String::from_str(
                "First letter must not be capitalized",
            ),
            FormatErrorKind::EmptyCommitSubject => String::from_str("Empty commit subject"),
            FormatErrorKind::EmptyCommitType => String::from_str("Empty commit type"),
            FormatErrorKind::InvalidCommitType => String::from_str("Invalid commit type"),
            FormatErrorKind::LineTooLong(limit) => {
                let mut r = String::from_str("Line must not be longer than ");
                append_decimal(&mut r, *limit);
                r.append(" characters");
                r
            },
            FormatErrorKind::MissingParenthesis => String::from_str("Missing parenthesis"),
            FormatErrorKind::MissingWhitespace => String::from_str(
                "Missing whitespace after the column",
            ),
            FormatErrorKind::MisplacedWhitespace => String::from_str("Misplaced whitespace"),
            FormatErrorKind::NoColumn => String::from_str("First line must contain a column"),
            FormatErrorKind::NonEmptySecondLine => String::from_str("Second line must be empty"),
        }
    }
}

/// The text shown for a fault kind.
pub open spec fn kind_message(kind: FormatErrorKind) -> Seq<char> {
    match kind {
        FormatErrorKind::CapitalizedFirstLetter => "First letter must not be capitalized"@,
        FormatErrorKind::EmptyCommitSubject => "Empty commit subject"@,
        FormatErrorKind::EmptyCommitType => "Empty commit type"@,
        FormatErrorKind::InvalidCommitType => "Invalid commit type"@,
        FormatErrorKind::LineTooLong(limit) => "Line must not be longer than "@ + decimal(
            limit as nat,
        ) + " characters"@,
        FormatErrorKind::MissingParenthesis => "Missing parenthesis"@,
        FormatErrorKind::MissingWhitespace => "Missing whitespace after the column"@,
        FormatErrorKind::MisplacedWhitespace => "Misplaced whitespace"@,
        FormatErrorKind::NoColumn => "First line must contain a column"@,
        FormatErrorKind::NonEmptySecondLine => "Second line must be empty"@,
    }
}

/// `n` written in decimal digits, without leading zeros.
pub open spec fn decimal(n: nat) -> Seq<char>
    decreases n,
{
    if n < 10 {
        digit(n)
    } else {
        decimal(n / 10) + digit(n % 10)
    }
}

/// The decimal digit `d` (below ten) as text.
pub open spec fn digit(d: nat) -> Seq<char> {
    "0123456789"@.subrange(d as int, d as int + 1)
}

/// `n` spaces.
pub open spec fn spaces(n: nat) -> Seq<char>
    decreases n,
{
    if n == 0 {
        Seq::empty()
    } else {
        spaces((n - 1) as nat) + " "@
    }
}

/// A fault as it is shown: `line N: message`, then the line, then a caret
/// under the offending column; only the message where there is no place.
pub open spec fn fault_text(f: Fault) -> Seq<char> {
    match f.location {
        None => kind_message(f.kind),
        Some(span) => "line "@ + decimal(span.line_number as nat) + ": "@ + kind_message(f.kind)
            + "\n"@ + span.line + "\n"@ + spaces(span.column as nat) + "^"@,
    }
}

/// Appends the decimal digits of `n` to `s`.
fn append_decimal(s: &mut String, n: usize)
    ensures
        final(s)@ == old(s)@ + decimal(n as nat),
    decreases n,
{
    let digits = "0123456789";
    proof {
        reveal_strlit("0123456789");
    }
    if n >= 10 {
        append_decimal(s, n / 10);
    }
    let d = n % 10;
    s.append(digits.substring_char(d, d + 1));
    assert(final(s)@ =~= old(s)@ + decimal(n as nat));
}

} // verus!
