//! Validation of commit messages written as `type(scope): subject`.
//!
//! A message is split into lines, comment lines (starting with `#`) are
//! dropped, and the rest is held to the convention: an empty second line,
//! a well-formed header, lines of at most a hundred characters and a
//! subject that does not start with an uppercase letter. Every fault comes
//! with the place where it was found.
pub mod commit;
pub mod errors;
pub mod laws;
pub mod parse;
pub mod text;
pub mod validate;

pub use commit::{CommitHeader, CommitMsg, CommitType};
pub use errors::{
    CommitValidationError, FormatError, FormatErrorKind, IOError, IOErrorKind, Span,
};
pub use parse::{parse_commit_header, parse_commit_message};
pub use validate::{validate_commit_contents, validate_commit_message, MAX_LINE_LENGTH};
