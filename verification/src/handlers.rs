//! What one action of a rule means for one file: which plan it follows on
//! which destination, what it marks as processed when it succeeds, and what
//! it writes to the failure log when it does not.

use vstd::prelude::*;
use vstd::string::*;
use vstd::hash_set::StringHashSet;
use crate::actions::{
    copy_file, copy_plan, delete_file, delete_plan, get_file_name, move_file, move_plan, named,
    sort_file_by_date, sort_plan,
};
use crate::config::{Action, ActionView};
use crate::effects::{Reply, ReplyView, Step, StepView};
use crate::error::{message_of, ErrorView, OrderlyError};
use crate::text::prefixed;
use crate::paths::{expand_home, expanded_home, join, joined};
use crate::text::same_text;

verus! {

/// What handling an action came to.
pub struct Handled {
    /// What to do next.
    pub step: StepView,
    /// The destination that is now processed, when the action succeeded.
    pub marked: Option<Seq<char>>,
    /// The line for the failure log, when the action failed.
    pub record: Option<Seq<char>>,
}

/// `processed` with the marked path, if any.
pub open spec fn with_mark(processed: Set<Seq<char>>, marked: Option<Seq<char>>) -> Set<Seq<char>> {
    match marked {
        Some(path) => processed.insert(path),
        None => processed,
    }
}

/// `log` with the record, if any, at its end.
pub open spec fn with_record(log: Seq<Seq<char>>, record: Option<Seq<char>>) -> Seq<Seq<char>> {
    match record {
        Some(line) => log.push(line),
        None => log,
    }
}

/// Appends `line` to the failure log.
pub fn record(log: &mut Vec<String>, line: String)
    ensures
        final(log).deep_view() == old(log).deep_view().push(line@),
{
    log.push(line);
}

/// An action that was refused before it began: nothing marked, nothing
/// logged.
pub open spec fn refused(e: ErrorView) -> Handled {
    Handled { step: StepView::Failed(e), marked: None, record: None }
}

/// A plan bound for `dest`: its success marks `dest` as processed; its
/// failure is logged under the heading `what`.
pub open spec fn relocated(plan: StepView, dest: Seq<char>, what: Seq<char>) -> Handled {
    Handled {
        step: plan,
        marked: if plan is Done {
            Some(dest)
        } else {
            None
        },
        record: match plan {
            StepView::Failed(e) => Some(what + message_of(e)),
            _ => None,
        },
    }
}

/// A delete needs nothing but the file.
pub open spec fn handled_delete(src: Seq<char>, answers: Seq<ReplyView>) -> Handled {
    let plan = delete_plan(src, answers);
    Handled {
        step: plan,
        marked: None,
        record: match plan {
            StepView::Failed(e) => Some("Failed to delete file: "@ + message_of(e)),
            _ => None,
        },
    }
}

/// The next step of a `delete` action on `src_path`.
pub fn handle_delete(src_path: &str, answers: &Vec<Reply>, log: &mut Vec<String>) -> (step: Step)
    ensures
        step@ == handled_delete(src_path@, answers.deep_view()).step,
        final(log).deep_view() == with_record(
            old(log).deep_view(),
            handled_delete(src_path@, answers.deep_view()).record,
        ),
{
    let step = delete_file(src_path, answers);
    match &step {
        Step::Failed(e) => {
            record(log, prefixed("Failed to delete file: ", e.message().as_str()));
        },
        _ => {},
    }
    step
}

/// A move needs a destination; a leading `~` in it stands for `home`.
pub open spec fn handled_move(
    src: Seq<char>,
    action: ActionView,
    home: Seq<char>,
    answers: Seq<ReplyView>,
) -> Handled {
    match action.path {
        None => refused(ErrorView::InvalidPath(None)),
        Some(template) => {
            let dest = expanded_home(template, home);
            relocated(move_plan(src, dest, answers), dest, "Failed to move file: "@)
        },
    }
}

/// The next step of a `move` action on `src_path`.
pub fn handle_move(
    src_path: &str,
    action: &Action,
    home: &str,
    answers: &Vec<Reply>,
    processed_files: &mut StringHashSet,
    log: &mut Vec<String>,
) -> (step: Step)
    ensures
        step@ == handled_move(src_path@, action@, home@, answers.deep_view()).step,
        final(processed_files)@ == with_mark(
            old(processed_files)@,
            handled_move(src_path@, action@, home@, answers.deep_view()).marked,
        ),
        final(log).deep_view() == with_record(
            old(log).deep_view(),
            handled_move(src_path@, action@, home@, answers.deep_view()).record,
        ),
{
    let dest_path = match &action.path {
        Some(path) => expand_home(path.as_str(), home),
        None => {
            return Step::Failed(OrderlyError::InvalidPath(None));
        },
    };
    let step = move_file(src_path, dest_path.as_str(), answers);
    match &step {
        Step::Failed(e) => {
            record(log, prefixed("Failed to move file: ", e.message().as_str()));
        },
        Step::Done => {
            processed_files.insert(dest_path);
        },
        _ => {},
    }
    step
}

/// A copy needs a destination, as a move does.
pub open spec fn handled_copy(
    src: Seq<char>,
    action: ActionView,
    home: Seq<char>,
    answers: Seq<ReplyView>,
) -> Handled {
    match action.path {
        None => refused(ErrorView::InvalidPath(None)),
        Some(template) => {
            let dest = expanded_home(template, home);
            relocated(copy_plan(src, dest, answers), dest, "Failed to copy file: "@)
        },
    }
}

/// The next step of a `copy` action on `src_path`.
pub fn handle_copy(
    src_path: &str,
    action: &Action,
    home: &str,
    answers: &Vec<Reply>,
    processed_files: &mut StringHashSet,
    log: &mut Vec<String>,
) -> (step: Step)
    ensures
        step@ == handled_copy(src_path@, action@, home@, answers.deep_view()).step,
        final(processed_files)@ == with_mark(
            old(processed_files)@,
            handled_copy(src_path@, action@, home@, answers.deep_view()).marked,
        ),
        final(log).deep_view() == with_record(
            old(log).deep_view(),
            handled_copy(src_path@, action@, home@, answers.deep_view()).record,
        ),
{
    let dest_path = match &action.path {
        Some(path) => expand_home(path.as_str(), home),
        None => {
            return Step::Failed(OrderlyError::InvalidPath(None));
        },
    };
    let step = copy_file(src_path, dest_path.as_str(), answers);
    match &step {
        Step::Failed(e) => {
            record(log, prefixed("Failed to copy file: ", e.message().as_str()));
        },
        Step::Done => {
            processed_files.insert(dest_path);
        },
        _ => {},
    }
    step
}

/// A sort by date needs a base destination and a pattern. Its success marks
/// the file's name under the base destination as processed.
pub open spec fn handled_sort(
    src: Seq<char>,
    action: ActionView,
    home: Seq<char>,
    answers: Seq<ReplyView>,
) -> Handled {
    match action.path {
        None => refused(ErrorView::InvalidPath(None)),
        Some(template) => match action.pattern {
            None => refused(ErrorView::InvalidPattern(None)),
            Some(pattern) => {
                let base = expanded_home(template, home);
                match sort_plan(src, base, pattern, answers) {
                    StepView::Failed(e) => Handled {
                        step: StepView::Failed(e),
                        marked: None,
                        record: Some("Failed to sort file by date: "@ + message_of(e)),
                    },
                    StepView::Done => match named(src) {
                        Err(e) => refused(e),
                        Ok(name) => Handled {
                            step: StepView::Done,
                            marked: Some(joined(base, name)),
                            record: None,
                        },
                    },
                    step => Handled { step, marked: None, record: None },
                }
            },
        },
    }
}

/// The next step of a `sort_by_date` action on `src_path`.
pub fn handle_sort_by_date(
    src_path: &str,
    action: &Action,
    home: &str,
    answers: &Vec<Reply>,
    processed_files: &mut StringHashSet,
    log: &mut Vec<String>,
) -> (step: Step)
    ensures
        step@ == handled_sort(src_path@, action@, home@, answers.deep_view()).step,
        final(processed_files)@ == with_mark(
            old(processed_files)@,
            handled_sort(src_path@, action@, home@, answers.deep_view()).marked,
        ),
        final(log).deep_view() == with_record(
            old(log).deep_view(),
            handled_sort(src_path@, action@, home@, answers.deep_view()).record,
        ),
{
    let base_path = match &action.path {
        Some(path) => expand_home(path.as_str(), home),
        None => {
            return Step::Failed(OrderlyError::InvalidPath(None));
        },
    };
    let pattern = match &action.pattern {
        Some(pattern) => pattern,
        None => {
            return Step::Failed(OrderlyError::InvalidPattern(None));
        },
    };
    let step = sort_file_by_date(src_path, base_path.as_str(), pattern.as_str(), answers);
    match &step {
        Step::Failed(e) => {
            record(log, prefixed("Failed to sort file by date: ", e.message().as_str()));
            step
        },
        Step::Done => match get_file_name(src_path) {
            Err(e) => Step::Failed(e),
            Ok(name) => {
                processed_files.insert(join(base_path.as_str(), name.as_str()));
                step
            },
        },
        _ => step,
    }
}

/// What an action means for the file `src`: the handling of its kind, or an
/// error when the kind is none of `delete`, `move`, `copy`, `sort_by_date`.
pub open spec fn handled(
    src: Seq<char>,
    action: ActionView,
    home: Seq<char>,
    answers: Seq<ReplyView>,
) -> Handled {
    if action.action_type == "delete"@ {
        handled_delete(src, answers)
    } else if action.action_type == "move"@ {
        handled_move(src, action, home, answers)
    } else if action.action_type == "copy"@ {
        handled_copy(src, action, home, answers)
    } else if action.action_type == "sort_by_date"@ {
        handled_sort(src, action, home, answers)
    } else {
        refused(ErrorView::InvalidActionType(action.action_type))
    }
}

/// The next step of `action` on `src_path`, given the replies to the steps
/// before.
pub fn execute_action(
    src_path: &str,
    action: &Action,
    home: &str,
    answers: &Vec<Reply>,
    processed_files: &mut StringHashSet,
    log: &mut Vec<String>,
) -> (step: Step)
    ensures
        step@ == handled(src_path@, action@, home@, answers.deep_view()).step,
        final(processed_files)@ == with_mark(
            old(processed_files)@,
            handled(src_path@, action@, home@, answers.deep_view()).marked,
        ),
        final(log).deep_view() == with_record(
            old(log).deep_view(),
            handled(src_path@, action@, home@, answers.deep_view()).record,
        ),
{
    let kind = action.action_type.as_str();
    if same_text(kind, "delete") {
        handle_delete(src_path, answers, log)
    } else if same_text(kind, "move") {
        handle_move(src_path, action, home, answers, processed_files, log)
    } else if same_text(kind, "copy") {
        handle_copy(src_path, action, home, answers, processed_files, log)
    } else if same_text(kind, "sort_by_date") {
        handle_sort_by_date(src_path, action, home, answers, processed_files, log)
    } else {
        Step::Failed(OrderlyError::InvalidActionType(action.action_type.clone()))
    }
}

} // verus!
