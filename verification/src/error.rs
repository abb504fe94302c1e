//! The failures that the engine reports, and their one-line renderings.

use vstd::prelude::*;
use vstd::string::*;
use crate::text::prefixed;

verus! {

/// What kind of input/output failure the file system reported.
#[derive(Debug, Clone, Copy, PartialEq, Eq, Structural)]
pub enum IoKind {
    /// The source (or a needed path) does not exist.
    NotFound,
    /// The destination cannot be written, or access was denied.
    PermissionDenied,
    /// Any other failure (cross-device rename, disk full, ...).
    Other,
}

/// How far a failure reaches.
#[derive(Debug, Clone, Copy, PartialEq, Eq, Structural)]
pub enum ErrorCategory {
    /// The rule set itself is wrong: an unknown kind, a missing field, a
    /// date pattern that cannot be used.
    Configuration,
    /// The file system (or the trash service) refused an operation.
    FileSystem,
    /// The engine stopped a rule that kept relocating the same path.
    ProtectiveAbort,
}

/// Why a rule, an action or a file operation was given up.
#[derive(Debug, Clone, PartialEq, Eq)]
pub enum OrderlyError {
    /// The rule set could not be read.
    Config(String),
    /// The folder of a rule does not exist.
    DirectoryDoesNotExist(String),
    /// The folder of a rule could not be listed, for the reason given.
    FailedToReadDirectory(String, String),
    /// The path was matched more often within one pass than the ceiling
    /// allows.
    InfiniteLoop(String),
    /// The kind of an action is none of the known ones.
    InvalidActionType(String),
    /// The kind of a condition is none of the known ones.
    InvalidConditionType(String),
    /// The source has no final component to name it by.
    InvalidFile(Option<String>),
    /// The action needs a destination and has none.
    InvalidPath(Option<String>),
    /// The action needs a date pattern and has none, or has one that cannot
    /// be rendered.
    InvalidPattern(Option<String>),
    /// The file system refused an operation, for the reason given.
    IoError(IoKind, String),
    /// The recoverable-deletion service refused a file, for the reason given.
    TrashError(String),
}

/// The mathematical content of an [`OrderlyError`].
pub enum ErrorView {
    Config(Seq<char>),
    DirectoryDoesNotExist(Seq<char>),
    FailedToReadDirectory(Seq<char>, Seq<char>),
    InfiniteLoop(Seq<char>),
    InvalidActionType(Seq<char>),
    InvalidConditionType(Seq<char>),
    InvalidFile(Option<Seq<char>>),
    InvalidPath(Option<Seq<char>>),
    InvalidPattern(Option<Seq<char>>),
    IoError(IoKind, Seq<char>),
    TrashError(Seq<char>),
}

impl View for OrderlyError {
    type V = ErrorView;

    open spec fn view(&self) -> ErrorView {
        match self {
            OrderlyError::Config(m) => ErrorView::Config(m@),
            OrderlyError::DirectoryDoesNotExist(p) => ErrorView::DirectoryDoesNotExist(p@),
            OrderlyError::FailedToReadDirectory(p, m) => ErrorView::FailedToReadDirectory(p@, m@),
            OrderlyError::InfiniteLoop(p) => ErrorView::InfiniteLoop(p@),
            OrderlyError::InvalidActionType(t) => ErrorView::InvalidActionType(t@),
            OrderlyError::InvalidConditionType(t) => ErrorView::InvalidConditionType(t@),
            OrderlyError::InvalidFile(p) => ErrorView::InvalidFile(p.deep_view()),
            OrderlyError::InvalidPath(p) => ErrorView::InvalidPath(p.deep_view()),
            OrderlyError::InvalidPattern(p) => ErrorView::InvalidPattern(p.deep_view()),
            OrderlyError::IoError(k, m) => ErrorView::IoError(*k, m@),
            OrderlyError::TrashError(m) => ErrorView::TrashError(m@),
        }
    }
}

/// What `{:?}` prints for an optional text: `None`, or `Some("...")` with the
/// text quoted and escaped as Rust source would write it.
pub uninterp spec fn debug_text(value: Option<Seq<char>>) -> Seq<char>;

/// `std`'s `Debug` formatting of an `Option<String>`, through `format!`.
/// The result is a function of the value alone; the contract gives it the
/// name [`debug_text`] and claims nothing else of it.
#[verifier::external_body]
fn debug_of(value: &Option<String>) -> (text: String)
    ensures
        text@ == debug_text(value.deep_view()),
{
    format!("{:?}", value)
}

/// The category of a failure.
pub open spec fn category_of(e: ErrorView) -> ErrorCategory {
    match e {
        ErrorView::Config(_) => ErrorCategory::Configuration,
        ErrorView::InvalidActionType(_) => ErrorCategory::Configuration,
        ErrorView::InvalidConditionType(_) => ErrorCategory::Configuration,
        ErrorView::InvalidPath(_) => ErrorCategory::Configuration,
        ErrorView::InvalidPattern(_) => ErrorCategory::Configuration,
        ErrorView::InfiniteLoop(_) => ErrorCategory::ProtectiveAbort,
        ErrorView::DirectoryDoesNotExist(_) => ErrorCategory::FileSystem,
        ErrorView::FailedToReadDirectory(_, _) => ErrorCategory::FileSystem,
        ErrorView::InvalidFile(_) => ErrorCategory::FileSystem,
        ErrorView::IoError(_, _) => ErrorCategory::FileSystem,
        ErrorView::TrashError(_) => ErrorCategory::FileSystem,
    }
}

/// The one-line rendering of a failure.
pub open spec fn message_of(e: ErrorView) -> Seq<char> {
    match e {
        ErrorView::Config(m) => "Config error: "@ + m,
        ErrorView::DirectoryDoesNotExist(p) => "Directory does not exist: "@ + p,
        ErrorView::FailedToReadDirectory(p, m) => "Failed to read directory "@ + p + ": "@ + m,
        ErrorView::InfiniteLoop(p) => "Potential infinite loop detected for file: "@ + p,
        ErrorView::InvalidActionType(t) => "Invalid action type: "@ + t,
        ErrorView::InvalidConditionType(t) => "Unknown condition type: "@ + t,
        ErrorView::InvalidFile(p) => "Invalid path: "@ + debug_text(p),
        ErrorView::InvalidPath(p) => "Invalid path: "@ + debug_text(p),
        ErrorView::InvalidPattern(p) => "Invalid pattern: "@ + debug_text(p),
        ErrorView::IoError(_, m) => "IO error: "@ + m,
        ErrorView::TrashError(m) => "Trash error: "@ + m,
    }
}

impl OrderlyError {
    /// The category of this failure, so that a caller can tell a problem
    /// with the rule set from a problem with the file system.
    pub fn category(&self) -> (c: ErrorCategory)
        ensures
            c == category_of(self@),
    {
        match self {
            OrderlyError::Config(_) => ErrorCategory::Configuration,
            OrderlyError::InvalidActionType(_) => ErrorCategory::Configuration,
            OrderlyError::InvalidConditionType(_) => ErrorCategory::Configuration,
            OrderlyError::InvalidPath(_) => ErrorCategory::Configuration,
            OrderlyError::InvalidPattern(_) => ErrorCategory::Configuration,
            OrderlyError::InfiniteLoop(_) => ErrorCategory::ProtectiveAbort,
            OrderlyError::DirectoryDoesNotExist(_) => ErrorCategory::FileSystem,
            OrderlyError::FailedToReadDirectory(_, _) => ErrorCategory::FileSystem,
            OrderlyError::InvalidFile(_) => ErrorCategory::FileSystem,
            OrderlyError::IoError(_, _) => ErrorCategory::FileSystem,
            OrderlyError::TrashError(_) => ErrorCategory::FileSystem,
        }
    }

    /// The one-line rendering of this failure.
    pub fn message(&self) -> (line: String)
        ensures
            line@ == message_of(self@),
    {
        match self {
            OrderlyError::Config(m) => prefixed("Config error: ", m.as_str()),
            OrderlyError::DirectoryDoesNotExist(p) => prefixed(
                "Directory does not exist: ",
                p.as_str(),
            ),
            OrderlyError::FailedToReadDirectory(p, m) => {
                let mut line = prefixed("Failed to read directory ", p.as_str());
                line.append(": ");
                line.append(m.as_str());
                line
            },
            OrderlyError::InfiniteLoop(p) => prefixed(
                "Potential infinite loop detected for file: ",
                p.as_str(),
            ),
            OrderlyError::InvalidActionType(t) => prefixed("Invalid action type: ", t.as_str()),
            OrderlyError::InvalidConditionType(t) => prefixed(
                "Unknown condition type: ",
                t.as_str(),
            ),
            OrderlyError::InvalidFile(p) => prefixed("Invalid path: ", debug_of(p).as_str()),
            OrderlyError::InvalidPath(p) => prefixed("Invalid path: ", debug_of(p).as_str()),
            OrderlyError::InvalidPattern(p) => prefixed(
                "Invalid pattern: ",
                debug_of(p).as_str(),
            ),
            OrderlyError::IoError(_, m) => prefixed("IO error: ", m.as_str()),
            OrderlyError::TrashError(m) => prefixed("Trash error: ", m.as_str()),
        }
    }
}

} // verus!
