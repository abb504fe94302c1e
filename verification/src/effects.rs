//! The engine touches nothing itself. It asks for one operation at a time
//! with a [`Request`], and is told what happened with a [`Reply`].

use vstd::prelude::*;
use vstd::string::*;
use crate::error::{ErrorView, IoKind, OrderlyError};

verus! {

/// One operation that the engine wants performed.
#[derive(Debug, Clone, PartialEq, Eq)]
pub enum Request {
    /// Does this path exist? Answered by [`Reply::Flag`].
    Exists(String),
    /// Is this path a directory? Answered by [`Reply::Flag`].
    IsDir(String),
    /// Is this path a regular file? Answered by [`Reply::Flag`].
    IsFile(String),
    /// Create this directory and its missing parents.
    CreateDirAll(String),
    /// Rename the first path to the second.
    Rename(String, String),
    /// Copy the bytes of the first path to the second.
    Copy(String, String),
    /// Remove this file.
    RemoveFile(String),
    /// Hand this file to the recoverable-deletion service.
    Trash(String),
    /// When was this file last modified? Answered by [`Reply::Modified`].
    Modified(String),
    /// List the direct children of this folder. Answered by [`Reply::Listing`].
    ReadDir(String),
    /// Render the instant `(seconds, nanoseconds)` since the epoch in local
    /// time with this pattern. Answered by [`Reply::Date`].
    FormatDate(i64, u32, String),
}

/// The mathematical content of a [`Request`].
pub enum RequestView {
    Exists(Seq<char>),
    IsDir(Seq<char>),
    IsFile(Seq<char>),
    CreateDirAll(Seq<char>),
    Rename(Seq<char>, Seq<char>),
    Copy(Seq<char>, Seq<char>),
    RemoveFile(Seq<char>),
    Trash(Seq<char>),
    Modified(Seq<char>),
    ReadDir(Seq<char>),
    FormatDate(i64, u32, Seq<char>),
}

impl View for Request {
    type V = RequestView;

    open spec fn view(&self) -> RequestView {
        match self {
            Request::Exists(p) => RequestView::Exists(p@),
            Request::IsDir(p) => RequestView::IsDir(p@),
            Request::IsFile(p) => RequestView::IsFile(p@),
            Request::CreateDirAll(p) => RequestView::CreateDirAll(p@),
            Request::Rename(a, b) => RequestView::Rename(a@, b@),
            Request::Copy(a, b) => RequestView::Copy(a@, b@),
            Request::RemoveFile(p) => RequestView::RemoveFile(p@),
            Request::Trash(p) => RequestView::Trash(p@),
            Request::Modified(p) => RequestView::Modified(p@),
            Request::ReadDir(p) => RequestView::ReadDir(p@),
            Request::FormatDate(s, n, p) => RequestView::FormatDate(*s, *n, p@),
        }
    }
}

/// What came of a [`Request`].
#[derive(Debug, Clone, PartialEq, Eq)]
pub enum Reply {
    /// No request was pending.
    Nothing,
    /// The answer to a yes/no question.
    Flag(bool),
    /// The operation succeeded.
    Done,
    /// The operation failed, with the reason as text.
    Failed(IoKind, String),
    /// A modification time, as seconds and nanoseconds since the epoch.
    Modified(i64, u32),
    /// The direct children of a folder, as full paths; `None` stands for a
    /// child whose path is not text.
    Listing(Vec<Option<String>>),
    /// A rendered date; `None` when the pattern cannot be used.
    Date(Option<String>),
}

/// The mathematical content of a [`Reply`].
pub enum ReplyView {
    Nothing,
    Flag(bool),
    Done,
    Failed(IoKind, Seq<char>),
    Modified(i64, u32),
    Listing(Seq<Option<Seq<char>>>),
    Date(Option<Seq<char>>),
}

impl View for Reply {
    type V = ReplyView;

    open spec fn view(&self) -> ReplyView {
        match self {
            Reply::Nothing => ReplyView::Nothing,
            Reply::Flag(b) => ReplyView::Flag(*b),
            Reply::Done => ReplyView::Done,
            Reply::Failed(k, m) => ReplyView::Failed(*k, m@),
            Reply::Modified(s, n) => ReplyView::Modified(*s, *n),
            Reply::Listing(v) => ReplyView::Listing(v.deep_view()),
            Reply::Date(d) => ReplyView::Date(d.deep_view()),
        }
    }
}

impl DeepView for Reply {
    type V = ReplyView;

    open spec fn deep_view(&self) -> ReplyView {
        self@
    }
}

/// A reply whose listing can be held in memory.
pub open spec fn reply_representable(reply: ReplyView) -> bool {
    reply matches ReplyView::Listing(entries) ==> entries.len() <= usize::MAX
}

/// Every reply that exists at run time is representable.
pub proof fn lemma_replies_are_representable(reply: Reply)
    ensures
        reply_representable(reply@),
{
    if let Reply::Listing(entries) = reply {
        assert(entries.deep_view().len() == entries.len());
    }
}

/// What the caller is to do next.
#[derive(Debug, Clone, PartialEq, Eq)]
pub enum Step {
    /// Perform this request and come back with its reply.
    Ask(Request),
    /// Come back at once, with [`Reply::Nothing`].
    Continue,
    /// The work is complete.
    Done,
    /// The work was given up for this reason.
    Failed(OrderlyError),
}

/// The mathematical content of a [`Step`].
pub enum StepView {
    Ask(RequestView),
    Continue,
    Done,
    Failed(ErrorView),
}

impl View for Step {
    type V = StepView;

    open spec fn view(&self) -> StepView {
        match self {
            Step::Ask(r) => StepView::Ask(r@),
            Step::Continue => StepView::Continue,
            Step::Done => StepView::Done,
            Step::Failed(e) => StepView::Failed(e@),
        }
    }
}

/// The reply is a plain yes.
pub open spec fn said_yes(reply: ReplyView) -> bool {
    reply == ReplyView::Flag(true)
}

/// Why the operation that `reply` answers did not succeed, or `None` when it
/// did. Anything but [`Reply::Done`] and [`Reply::Failed`] counts as a
/// failure of its own.
pub open spec fn failure_of(reply: ReplyView) -> Option<(IoKind, Seq<char>)> {
    match reply {
        ReplyView::Done => None,
        ReplyView::Failed(kind, reason) => Some((kind, reason)),
        _ => Some((IoKind::Other, "unexpected reply"@)),
    }
}

/// Whether the reply is a plain yes.
pub fn is_yes(reply: &Reply) -> (yes: bool)
    ensures
        yes == said_yes(reply@),
{
    match reply {
        Reply::Flag(b) => *b,
        _ => false,
    }
}

/// Why the operation that `reply` answers did not succeed, if it did not.
pub fn failure(reply: &Reply) -> (r: Option<(IoKind, String)>)
    ensures
        match r {
            Some((kind, reason)) => failure_of(reply@) == Some((kind, reason@)),
            None => failure_of(reply@) is None,
        },
{
    match reply {
        Reply::Done => None,
        Reply::Failed(kind, reason) => Some((*kind, reason.clone())),
        _ => Some((IoKind::Other, "unexpected reply".to_owned())),
    }
}

} // verus!
