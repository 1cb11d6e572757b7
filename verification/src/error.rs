//! The error type shared by every operation of the crate.

use vstd::prelude::*;
use vstd::string::*;

verus! {

/// What went wrong, independent of the wording of the message.
#[derive(Clone, Copy, Debug, PartialEq, Eq, Structural)]
pub enum ErrorKind {
    /// A manifest could not be read.
    Read,
    /// A manifest is not a well-formed TOML document.
    Parse,
    /// A required key or table is absent or has the wrong type.
    MissingField,
    /// A version override was asked of a manifest without a `dependencies` table.
    MissingDependencySection,
    /// A document could not be turned back into text.
    Serialize,
    /// Writing, syncing or renaming the temporary file failed.
    Write,
    /// Cloning or opening a repository failed.
    Vcs,
    /// No directory name could be derived from a repository URL.
    NameResolution,
    /// No directory could be derived from a manifest path.
    PathResolution,
}

/// The mathematical content of a [`CraterError`].
pub ghost struct Failure {
    pub kind: ErrorKind,
    pub msg: Seq<char>,
    pub cause: Option<Box<Failure>>,
}

impl Failure {
    /// A failure without an underlying cause.
    pub open spec fn leaf(kind: ErrorKind, msg: Seq<char>) -> Failure {
        Failure { kind, msg, cause: None }
    }

    /// A failure that wraps the failure that led to it.
    pub open spec fn wrap(kind: ErrorKind, msg: Seq<char>, cause: Failure) -> Failure {
        Failure { kind, msg, cause: Some(Box::new(cause)) }
    }

    /// A failure whose cause, if any, is known only as text.
    pub open spec fn with_reason(kind: ErrorKind, msg: Seq<char>, reason: Option<Seq<char>>) -> Failure {
        match reason {
            Some(text) => Failure::wrap(kind, msg, Failure::leaf(kind, text)),
            None => Failure::leaf(kind, msg),
        }
    }

    /// The message followed by the messages of the whole chain of causes,
    /// each introduced by a colon and a space.
    pub open spec fn text(self) -> Seq<char>
        decreases self,
    {
        match self.cause {
            Some(inner) => self.msg + ": "@ + inner.text(),
            None => self.msg,
        }
    }
}

/// An error with a message that names the path or URL involved, and the
/// error that caused it where there is one.
#[derive(Debug)]
pub struct CraterError {
    kind: ErrorKind,
    msg: String,
    cause: Option<Box<CraterError>>,
}

impl View for CraterError {
    type V = Failure;

    open spec fn view(&self) -> Failure {
        self.failure()
    }
}

impl CraterError {
    /// What this error says: its kind, its message and its chain of causes.
    pub closed spec fn failure(&self) -> Failure
        decreases self,
    {
        Failure {
            kind: self.kind,
            msg: self.msg@,
            cause: match self.cause {
                Some(inner) => Some(Box::new(inner.failure())),
                None => None,
            },
        }
    }

    /// An error without an underlying cause.
    pub fn new(kind: ErrorKind, msg: String) -> (e: CraterError)
        ensures
            e@ == Failure::leaf(kind, msg@),
    {
        CraterError { kind, msg, cause: None }
    }

    /// An error that keeps the error that led to it.
    pub fn new_err(kind: ErrorKind, msg: String, cause: CraterError) -> (e: CraterError)
        ensures
            e@ == Failure::wrap(kind, msg@, cause@),
    {
        CraterError { kind, msg, cause: Some(Box::new(cause)) }
    }

    /// An error whose cause, if any, arrived as text from outside the crate.
    pub fn with_reason(kind: ErrorKind, msg: String, reason: Option<String>) -> (e: CraterError)
        ensures
            e@ == Failure::with_reason(
                kind,
                msg@,
                match reason {
                    Some(text) => Some(text@),
                    None => None,
                },
            ),
    {
        match reason {
            Some(text) => CraterError::new_err(kind, msg, CraterError::new(kind, text)),
            None => CraterError::new(kind, msg),
        }
    }

    /// The kind of this error; causes keep their own.
    pub fn kind(&self) -> (k: ErrorKind)
        ensures
            k == self@.kind,
    {
        self.kind
    }

    /// The message of this error alone, without its causes.
    pub fn message(&self) -> (m: &str)
        ensures
            m@ == self@.msg,
    {
        self.msg.as_str()
    }

    /// The error that led to this one.
    pub fn source(&self) -> (c: Option<&CraterError>)
        ensures
            match c {
                Some(inner) => self@.cause == Some(Box::new(inner@)),
                None => self@.cause is None,
            },
    {
        match &self.cause {
            Some(inner) => Some(&**inner),
            None => None,
        }
    }

    /// The message and every cause behind it, joined by `": "`.
    pub fn to_string(&self) -> (s: String)
        ensures
            s@ == self@.text(),
        decreases self,
    {
        let mut s = self.msg.clone();
        match &self.cause {
            Some(inner) => {
                s.append(": ");
                let rest = inner.to_string();
                s.append(rest.as_str());
            },
            None => {},
        }
        s
    }
}

} // verus!
