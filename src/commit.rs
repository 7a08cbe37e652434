//! The parts of a commit message that the convention gives a meaning to.
use vstd::prelude::*;

use crate::errors::{fault, FormatError, FormatErrorKind};
use crate::parse::parse_commit_type;
use crate::text::chars_of;

verus! {

/// Type of a commit.
#[derive(Debug, Clone, Copy, PartialEq, Eq, Structural)]
pub enum CommitType {
    Feat,
    Fix,
    Docs,
    Style,
    Refactor,
    Perf,
    Test,
    Chore,
}

/// The canonical lowercase text of a commit type.
pub open spec fn type_text(t: CommitType) -> Seq<char> {
    match t {
        CommitType::Feat => "feat"@,
        CommitType::Fix => "fix"@,
        CommitType::Docs => "docs"@,
        CommitType::Style => "style"@,
        CommitType::Refactor => "refactor"@,
        CommitType::Perf => "perf"@,
        CommitType::Test => "test"@,
        CommitType::Chore => "chore"@,
    }
}

/// The commit type whose canonical text is exactly `s`, if any.
pub open spec fn commit_type_of(s: Seq<char>) -> Option<CommitType> {
    if s == "feat"@ {
        Some(CommitType::Feat)
    } else if s == "fix"@ {
        Some(CommitType::Fix)
    } else if s == "docs"@ {
        Some(CommitType::Docs)
    } else if s == "style"@ {
        Some(CommitType::Style)
    } else if s == "refactor"@ {
        Some(CommitType::Refactor)
    } else if s == "perf"@ {
        Some(CommitType::Perf)
    } else if s == "test"@ {
        Some(CommitType::Test)
    } else if s == "chore"@ {
        Some(CommitType::Chore)
    } else {
        None
    }
}

impl CommitType {
    /// The canonical lowercase text of this type.
    pub fn as_str(&self) -> (r: &'static str)
        ensures
            r@ == type_text(*self),
    {
        <&'static str>::from(*self)
    }

    /// The commit type whose canonical text is exactly `s`, if any.
    pub fn from_text(s: &str) -> (r: Option<CommitType>)
        ensures
            r == commit_type_of(s@),
    {
        let v = chars_of(s);
        assert(v@.take(v@.len() as int) =~= v@);
        match parse_commit_type(&v, v.len()) {
            Ok(t) => Some(t),
            Err(_) => None,
        }
    }
}

impl std::str::FromStr for CommitType {
    type Err = FormatError;

    fn from_str(s: &str) -> (r: Result<CommitType, FormatError>)
        ensures
            match r {
                Ok(t) => commit_type_of(s@) == Some(t),
                Err(e) => commit_type_of(s@) is None && e@ == fault(
                    FormatErrorKind::InvalidCommitType,
                ),
            },
    {
        let v = chars_of(s);
        assert(v@.take(v@.len() as int) =~= v@);
        parse_commit_type(&v, v.len())
    }
}

impl From<CommitType> for &'static str {
    fn from(t: CommitType) -> (r: &'static str) {
        match t {
            CommitType::Feat => "feat",
            CommitType::Fix => "fix",
            CommitType::Docs => "docs",
            CommitType::Style => "style",
            CommitType::Refactor => "refactor",
            CommitType::Perf => "perf",
            CommitType::Test => "test",
            CommitType::Chore => "chore",
        }
    }
}

impl vstd::std_specs::convert::FromSpecImpl<CommitType> for &'static str {
    open spec fn obeys_from_spec() -> bool {
        true
    }

    open spec fn from_spec(t: CommitType) -> &'static str {
        match t {
            CommitType::Feat => "feat",
            CommitType::Fix => "fix",
            CommitType::Docs => "docs",
            CommitType::Style => "style",
            CommitType::Refactor => "refactor",
            CommitType::Perf => "perf",
            CommitType::Test => "test",
            CommitType::Chore => "chore",
        }
    }
}

/// What a parsed header holds, as plain sequences.
pub struct HeaderModel {
    pub commit_type: CommitType,
    pub scope: Option<Seq<char>>,
    pub subject: Seq<char>,
}

/// The header line that `h` describes: `type(scope): subject`, or
/// `type: subject` without a scope.
pub open spec fn header_text(h: HeaderModel) -> Seq<char> {
    let head = match h.scope {
        Some(s) => type_text(h.commit_type) + "("@ + s + ")"@,
        None => type_text(h.commit_type),
    };
    head + ": "@ + h.subject
}

/// The view of an optional string slice.
pub open spec fn scope_view(s: Option<&str>) -> Option<Seq<char>> {
    match s {
        Some(s) => Some(s@),
        None => None,
    }
}

/// Represent a commit header
#[derive(Debug, PartialEq)]
pub struct CommitHeader<'a> {
    /// Type of the commit
    pub commit_type: CommitType,
    /// Scope of the commit, if provided
    pub scope: Option<&'a str>,
    /// Subject of the commit
    pub subject: &'a str,
}

impl<'a> View for CommitHeader<'a> {
    type V = HeaderModel;

    open spec fn view(&self) -> HeaderModel {
        HeaderModel {
            commit_type: self.commit_type,
            scope: scope_view(self.scope),
            subject: self.subject@,
        }
    }
}

impl<'a> CommitHeader<'a> {
    /// The header line written back from its parts.
    pub fn to_text(&self) -> (r: String)
        ensures
            r@ == header_text(self@),
    {
        let mut r = String::from_str(self.commit_type.as_str());
        if let Some(scope) = self.scope {
            r.append("(");
            r.append(scope);
            r.append(")");
        }
        r.append(": ");
        r.append(self.subject);
        r
    }
}

/// Represent a commit message
///
/// For now, only contains the header.
#[derive(Debug, PartialEq)]
pub struct CommitMsg<'a> {
    /// Commit header
    pub header: CommitHeader<'a>,
}

} // verus!
