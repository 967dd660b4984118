//! What became of one path, and why it failed where it did.

use vstd::prelude::*;

verus! {

/// The class of an error of the operating system, kept beside its message so
/// that nobody has to read the message to tell one class from another.
#[derive(Clone, Copy, Debug, PartialEq, Eq, Structural)]
pub enum ErrorKind {
    /// The caller may not do this here.
    PermissionDenied,
    /// Something on the way to the entry does not exist.
    NotFound,
    /// Something on the way to the entry exists and is no directory.
    NotADirectory,
    /// Any other refusal.
    Other,
}

/// How the operating system refused an operation: the class of the error and
/// the words it gave.
#[derive(Debug, PartialEq, Eq)]
pub struct Failure {
    pub kind: ErrorKind,
    pub message: String,
}

/// A `Failure` as contracts see it.
pub struct FailureView {
    pub kind: ErrorKind,
    pub message: Seq<char>,
}

impl View for Failure {
    type V = FailureView;

    open spec fn view(&self) -> FailureView {
        FailureView { kind: self.kind, message: self.message@ }
    }
}

impl Clone for Failure {
    fn clone(&self) -> (copy: Self)
        ensures
            copy@ == self@,
    {
        Failure { kind: self.kind, message: self.message.clone() }
    }
}

/// A failed operation together with the path it failed on.
#[derive(Debug, PartialEq, Eq)]
pub struct IoError {
    pub path: String,
    pub kind: ErrorKind,
    pub message: String,
}

/// An `IoError` as contracts see it.
pub struct IoErrorView {
    pub path: Seq<char>,
    pub kind: ErrorKind,
    pub message: Seq<char>,
}

impl View for IoError {
    type V = IoErrorView;

    open spec fn view(&self) -> IoErrorView {
        IoErrorView { path: self.path@, kind: self.kind, message: self.message@ }
    }
}

impl Clone for IoError {
    fn clone(&self) -> (copy: Self)
        ensures
            copy@ == self@,
    {
        IoError { path: self.path.clone(), kind: self.kind, message: self.message.clone() }
    }
}

/// The error that names `path` as the place where `failure` happened.
pub open spec fn blame(path: Seq<char>, failure: FailureView) -> IoErrorView {
    IoErrorView { path, kind: failure.kind, message: failure.message }
}

impl IoError {
    /// Attaches the offending path to a failure.
    pub fn new(path: String, failure: Failure) -> (error: IoError)
        ensures
            error@ == blame(path@, failure@),
    {
        IoError { path, kind: failure.kind, message: failure.message }
    }
}

/// The result for one path.
#[derive(Debug, PartialEq, Eq)]
pub enum Outcome {
    /// The file exists and its timestamps are fresh.
    Success,
    /// The parent directory could not be made to exist; the file was not
    /// attempted.
    DirectoryError(IoError),
    /// The file could not be created, or its timestamps could not be set.
    FileError(IoError),
}

/// An `Outcome` as contracts see it.
pub enum OutcomeView {
    Success,
    DirectoryError(IoErrorView),
    FileError(IoErrorView),
}

impl View for Outcome {
    type V = OutcomeView;

    open spec fn view(&self) -> OutcomeView {
        match *self {
            Outcome::Success => OutcomeView::Success,
            Outcome::DirectoryError(e) => OutcomeView::DirectoryError(e@),
            Outcome::FileError(e) => OutcomeView::FileError(e@),
        }
    }
}

impl Clone for Outcome {
    fn clone(&self) -> (copy: Self)
        ensures
            copy@ == self@,
    {
        match self {
            Outcome::Success => Outcome::Success,
            Outcome::DirectoryError(e) => Outcome::DirectoryError(e.clone()),
            Outcome::FileError(e) => Outcome::FileError(e.clone()),
        }
    }
}

impl Outcome {
    /// Whether the path was materialized.
    pub fn is_success(&self) -> (b: bool)
        ensures
            b == (self@ is Success),
    {
        match self {
            Outcome::Success => true,
            _ => false,
        }
    }
}

} // verus!
