//! The watch loop: one pass at the start, and one more pass whenever the
//! watched folders report a change.

use vstd::prelude::*;
use vstd::string::*;
use crate::text::prefixed;

verus! {

/// What the loop was woken by.
#[derive(Debug, Clone, PartialEq, Eq)]
pub enum WatchEvent {
    /// The loop has just been started.
    Started,
    /// Something changed in one of the watched folders.
    Changed,
    /// The source of change notifications reported a failure.
    Failed(String),
}

/// The mathematical content of a [`WatchEvent`].
pub enum WatchEventView {
    Started,
    Changed,
    Failed(Seq<char>),
}

impl View for WatchEvent {
    type V = WatchEventView;

    open spec fn view(&self) -> WatchEventView {
        match self {
            WatchEvent::Started => WatchEventView::Started,
            WatchEvent::Changed => WatchEventView::Changed,
            WatchEvent::Failed(reason) => WatchEventView::Failed(reason@),
        }
    }
}

/// What the loop is to do before it waits again.
#[derive(Debug, Clone, PartialEq, Eq)]
pub enum WatchAction {
    /// Run one complete, fresh pass over all folders.
    RunPass,
    /// Write this line to the log.
    Report(String),
}

/// The mathematical content of a [`WatchAction`].
pub enum WatchActionView {
    RunPass,
    Report(Seq<char>),
}

impl View for WatchAction {
    type V = WatchActionView;

    open spec fn view(&self) -> WatchActionView {
        match self {
            WatchAction::RunPass => WatchActionView::RunPass,
            WatchAction::Report(line) => WatchActionView::Report(line@),
        }
    }
}

/// The start and every change, whichever folder it was in, call for a whole
/// pass; a failure of the notification source is only reported. The loop
/// waits again after either.
pub open spec fn watch_reaction(event: WatchEventView) -> WatchActionView {
    match event {
        WatchEventView::Started => WatchActionView::RunPass,
        WatchEventView::Changed => WatchActionView::RunPass,
        WatchEventView::Failed(reason) => WatchActionView::Report("Watch error: "@ + reason),
    }
}

/// What the loop does on `event` before it waits for the next one.
pub fn watch_orderly(event: &WatchEvent) -> (action: WatchAction)
    ensures
        action@ == watch_reaction(event@),
{
    match event {
        WatchEvent::Started => WatchAction::RunPass,
        WatchEvent::Changed => WatchAction::RunPass,
        WatchEvent::Failed(reason) => WatchAction::Report(
            prefixed("Watch error: ", reason.as_str()),
        ),
    }
}

} // verus!
