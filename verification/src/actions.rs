//! The four file operations. Each is a plan: given the replies received so
//! far for one operation on one file, it says what to ask next, or how the
//! operation ended.

use vstd::prelude::*;
use vstd::string::*;
use crate::effects::{
    failure, failure_of, is_yes, said_yes, Reply, ReplyView, Request, RequestView, Step, StepView,
};
use crate::error::{ErrorView, IoKind, OrderlyError};
use crate::paths::{file_name, file_name_of, join, joined};

verus! {

/// The final component of `src_path`, or the error that it has none.
pub open spec fn named(src_path: Seq<char>) -> Result<Seq<char>, ErrorView> {
    match file_name_of(src_path) {
        Some(name) => Ok(name),
        None => Err(ErrorView::InvalidFile(Some(src_path))),
    }
}

/// The final component of `src_path`, as the name that a file keeps when it
/// is put into a folder.
pub fn get_file_name(src_path: &str) -> (r: Result<String, OrderlyError>)
    ensures
        match r {
            Ok(name) => named(src_path@) == Ok::<Seq<char>, ErrorView>(name@),
            Err(e) => named(src_path@) == Err::<Seq<char>, ErrorView>(e@),
        },
{
    match file_name(src_path) {
        Some(name) => Ok(name),
        None => Err(OrderlyError::InvalidFile(Some(src_path.to_owned()))),
    }
}

/// How far a preparation got.
pub enum Prepared {
    /// This has to be asked first.
    Ask(Request),
    /// The preparation failed.
    Failed(OrderlyError),
    /// All is ready; the replies from this index on are still unread.
    Ready(usize),
}

/// The mathematical content of a [`Prepared`].
pub enum PreparedView {
    Ask(RequestView),
    Failed(ErrorView),
    Ready(int),
}

impl View for Prepared {
    type V = PreparedView;

    open spec fn view(&self) -> PreparedView {
        match self {
            Prepared::Ask(r) => PreparedView::Ask(r@),
            Prepared::Failed(e) => PreparedView::Failed(e@),
            Prepared::Ready(at) => PreparedView::Ready(*at as int),
        }
    }
}

/// The reply at index `at`.
fn answer(answers: &Vec<Reply>, at: usize) -> (reply: &Reply)
    requires
        at < answers.len(),
    ensures
        reply@ == answers.deep_view()[at as int],
{
    &answers[at]
}

/// Makes sure that the directory `dest` exists: asks whether it does, and
/// has it created, with its parents, when it does not.
pub open spec fn directory_ready(
    dest: Seq<char>,
    answers: Seq<ReplyView>,
    at: int,
) -> PreparedView {
    if answers.len() <= at {
        PreparedView::Ask(RequestView::Exists(dest))
    } else if said_yes(answers[at]) {
        PreparedView::Ready(at + 1)
    } else if answers.len() <= at + 1 {
        PreparedView::Ask(RequestView::CreateDirAll(dest))
    } else {
        match failure_of(answers[at + 1]) {
            None => PreparedView::Ready(at + 2),
            Some((kind, reason)) => PreparedView::Failed(ErrorView::IoError(kind, reason)),
        }
    }
}

fn ensure_directory_exists(dest: &str, answers: &Vec<Reply>, at: usize) -> (r: Prepared)
    requires
        at <= answers.len(),
    ensures
        r@ == directory_ready(dest@, answers.deep_view(), at as int),
        r matches Prepared::Ready(next) ==> next <= answers.len(),
{
    if answers.len() <= at {
        Prepared::Ask(Request::Exists(dest.to_owned()))
    } else if is_yes(answer(answers, at)) {
        Prepared::Ready(at + 1)
    } else if answers.len() <= at + 1 {
        Prepared::Ask(Request::CreateDirAll(dest.to_owned()))
    } else {
        match failure(answer(answers, at + 1)) {
            None => Prepared::Ready(at + 2),
            Some((kind, reason)) => Prepared::Failed(OrderlyError::IoError(kind, reason)),
        }
    }
}

/// Moves `src` to `target`: by a rename, and when the rename fails for
/// whatever reason, by a copy followed by the removal of `src`.
pub open spec fn renamed_or_copied(
    src: Seq<char>,
    target: Seq<char>,
    answers: Seq<ReplyView>,
    at: int,
) -> StepView {
    if answers.len() <= at {
        StepView::Ask(RequestView::Rename(src, target))
    } else if failure_of(answers[at]) is None {
        StepView::Done
    } else if answers.len() <= at + 1 {
        StepView::Ask(RequestView::Copy(src, target))
    } else {
        match failure_of(answers[at + 1]) {
            Some((kind, reason)) => StepView::Failed(ErrorView::IoError(kind, reason)),
            None => if answers.len() <= at + 2 {
                StepView::Ask(RequestView::RemoveFile(src))
            } else {
                match failure_of(answers[at + 2]) {
                    Some((kind, reason)) => StepView::Failed(ErrorView::IoError(kind, reason)),
                    None => StepView::Done,
                }
            },
        }
    }
}

fn move_or_fallback(src: &str, target: &str, answers: &Vec<Reply>, at: usize) -> (step: Step)
    requires
        at <= answers.len(),
    ensures
        step@ == renamed_or_copied(src@, target@, answers.deep_view(), at as int),
{
    if answers.len() <= at {
        return Step::Ask(Request::Rename(src.to_owned(), target.to_owned()));
    }
    if failure(answer(answers, at)).is_none() {
        return Step::Done;
    }
    if answers.len() <= at + 1 {
        return Step::Ask(Request::Copy(src.to_owned(), target.to_owned()));
    }
    match failure(answer(answers, at + 1)) {
        Some((kind, reason)) => Step::Failed(OrderlyError::IoError(kind, reason)),
        None => {
            if answers.len() <= at + 2 {
                return Step::Ask(Request::RemoveFile(src.to_owned()));
            }
            match failure(answer(answers, at + 2)) {
                Some((kind, reason)) => Step::Failed(OrderlyError::IoError(kind, reason)),
                None => Step::Done,
            }
        },
    }
}

/// Copies `src` to `target`.
pub open spec fn copied(
    src: Seq<char>,
    target: Seq<char>,
    answers: Seq<ReplyView>,
    at: int,
) -> StepView {
    if answers.len() <= at {
        StepView::Ask(RequestView::Copy(src, target))
    } else {
        match failure_of(answers[at]) {
            Some((kind, reason)) => StepView::Failed(ErrorView::IoError(kind, reason)),
            None => StepView::Done,
        }
    }
}

/// Where a file bound for `dest` ends up: inside `dest` under its own name
/// when `dest` is a directory, at `dest` itself when it is not. `Ok` carries
/// the target and the index of the first unread reply.
pub open spec fn target_in(src: Seq<char>, dest: Seq<char>, answers: Seq<ReplyView>) -> Result<
    (Seq<char>, int),
    StepView,
> {
    match directory_ready(dest, answers, 0) {
        PreparedView::Ask(request) => Err(StepView::Ask(request)),
        PreparedView::Failed(e) => Err(StepView::Failed(e)),
        PreparedView::Ready(at) => if answers.len() <= at {
            Err(StepView::Ask(RequestView::IsDir(dest)))
        } else if said_yes(answers[at]) {
            match named(src) {
                Err(e) => Err(StepView::Failed(e)),
                Ok(name) => Ok((joined(dest, name), at + 1)),
            }
        } else {
            Ok((dest, at + 1))
        },
    }
}

fn resolve_target(src: &str, dest: &str, answers: &Vec<Reply>) -> (r: Result<(String, usize), Step>)
    ensures
        match r {
            Ok((target, at)) => at <= answers.len() && target_in(
                src@,
                dest@,
                answers.deep_view(),
            ) == Ok::<(Seq<char>, int), StepView>((target@, at as int)),
            Err(step) => target_in(src@, dest@, answers.deep_view()) == Err::<
                (Seq<char>, int),
                StepView,
            >(step@),
        },
{
    match ensure_directory_exists(dest, answers, 0) {
        Prepared::Ask(request) => Err(Step::Ask(request)),
        Prepared::Failed(e) => Err(Step::Failed(e)),
        Prepared::Ready(at) => {
            if answers.len() <= at {
                Err(Step::Ask(Request::IsDir(dest.to_owned())))
            } else if is_yes(answer(answers, at)) {
                match get_file_name(src) {
                    Err(e) => Err(Step::Failed(e)),
                    Ok(name) => Ok((join(dest, name.as_str()), at + 1)),
                }
            } else {
                Ok((dest.to_owned(), at + 1))
            }
        },
    }
}

/// The plan of a move: make sure the destination exists, find the target,
/// then rename, or copy and remove.
pub open spec fn move_plan(src: Seq<char>, dest: Seq<char>, answers: Seq<ReplyView>) -> StepView {
    match target_in(src, dest, answers) {
        Err(step) => step,
        Ok((target, at)) => renamed_or_copied(src, target, answers, at),
    }
}

/// The next step of moving `src_path` to `dest_path`, given the replies to
/// the steps before.
pub fn move_file(src_path: &str, dest_path: &str, answers: &Vec<Reply>) -> (step: Step)
    ensures
        step@ == move_plan(src_path@, dest_path@, answers.deep_view()),
{
    match resolve_target(src_path, dest_path, answers) {
        Err(step) => step,
        Ok((target, at)) => move_or_fallback(src_path, target.as_str(), answers, at),
    }
}

/// The plan of a copy: as a move, but the source stays.
pub open spec fn copy_plan(src: Seq<char>, dest: Seq<char>, answers: Seq<ReplyView>) -> StepView {
    match target_in(src, dest, answers) {
        Err(step) => step,
        Ok((target, at)) => copied(src, target, answers, at),
    }
}

/// The next step of copying `src_path` to `dest`, given the replies to the
/// steps before.
pub fn copy_file(src_path: &str, dest: &str, answers: &Vec<Reply>) -> (step: Step)
    ensures
        step@ == copy_plan(src_path@, dest@, answers.deep_view()),
{
    match resolve_target(src_path, dest, answers) {
        Err(step) => step,
        Ok((target, at)) => {
            if answers.len() <= at {
                return Step::Ask(Request::Copy(src_path.to_owned(), target));
            }
            match failure(answer(answers, at)) {
                Some((kind, reason)) => Step::Failed(OrderlyError::IoError(kind, reason)),
                None => Step::Done,
            }
        },
    }
}

/// The plan of a delete: hand the file to the recoverable-deletion service.
pub open spec fn delete_plan(path: Seq<char>, answers: Seq<ReplyView>) -> StepView {
    if answers.len() == 0 {
        StepView::Ask(RequestView::Trash(path))
    } else {
        match failure_of(answers[0]) {
            Some((_, reason)) => StepView::Failed(ErrorView::TrashError(reason)),
            None => StepView::Done,
        }
    }
}

/// The next step of deleting `path`, given the replies to the steps before.
pub fn delete_file(path: &str, answers: &Vec<Reply>) -> (step: Step)
    ensures
        step@ == delete_plan(path@, answers.deep_view()),
{
    if answers.len() == 0 {
        return Step::Ask(Request::Trash(path.to_owned()));
    }
    match failure(answer(answers, 0)) {
        Some((_, reason)) => Step::Failed(OrderlyError::TrashError(reason)),
        None => Step::Done,
    }
}

/// The instants that can be rendered as a date: those of the years 0000 to
/// 9999, with a nanosecond part below one second.
pub open spec fn formattable(secs: i64, nanos: u32) -> bool {
    -62_167_219_200 <= secs <= 253_402_300_799 && nanos < 1_000_000_000
}

/// Whether the instant can be rendered as a date.
pub fn is_formattable(secs: i64, nanos: u32) -> (r: bool)
    ensures
        r == formattable(secs, nanos),
{
    -62_167_219_200 <= secs && secs <= 253_402_300_799 && nanos < 1_000_000_000
}

/// The move of `src` into the folder of its date, `date` under `base_dest`,
/// under its own name.
pub open spec fn sorted_into(
    src: Seq<char>,
    base_dest: Seq<char>,
    date: Seq<char>,
    answers: Seq<ReplyView>,
    at: int,
) -> StepView {
    let dest = joined(base_dest, date);
    match directory_ready(dest, answers, at) {
        PreparedView::Ask(request) => StepView::Ask(request),
        PreparedView::Failed(e) => StepView::Failed(e),
        PreparedView::Ready(next) => match named(src) {
            Err(e) => StepView::Failed(e),
            Ok(name) => renamed_or_copied(src, joined(dest, name), answers, next),
        },
    }
}

/// The plan of a sort by date: ask for the modification time, have it
/// rendered with `pattern`, then move the file into the folder of that name
/// under `base_dest`. A pattern that cannot be rendered fails the plan before
/// anything is created or moved.
pub open spec fn sort_plan(
    src: Seq<char>,
    base_dest: Seq<char>,
    pattern: Seq<char>,
    answers: Seq<ReplyView>,
) -> StepView {
    if answers.len() == 0 {
        StepView::Ask(RequestView::Modified(src))
    } else {
        match answers[0] {
            ReplyView::Modified(secs, nanos) => if !formattable(secs, nanos) {
                StepView::Failed(
                    ErrorView::IoError(IoKind::Other, "modification time out of range"@),
                )
            } else if answers.len() == 1 {
                StepView::Ask(RequestView::FormatDate(secs, nanos, pattern))
            } else {
                match answers[1] {
                    ReplyView::Date(Some(date)) => sorted_into(src, base_dest, date, answers, 2),
                    _ => StepView::Failed(ErrorView::InvalidPattern(Some(pattern))),
                }
            },
            ReplyView::Failed(kind, reason) => StepView::Failed(ErrorView::IoError(kind, reason)),
            _ => StepView::Failed(ErrorView::IoError(IoKind::Other, "unexpected reply"@)),
        }
    }
}

fn sort_into(
    src: &str,
    base_dest: &str,
    date: &str,
    answers: &Vec<Reply>,
    at: usize,
) -> (step: Step)
    requires
        at <= answers.len(),
    ensures
        step@ == sorted_into(src@, base_dest@, date@, answers.deep_view(), at as int),
{
    let dest = join(base_dest, date);
    match ensure_directory_exists(dest.as_str(), answers, at) {
        Prepared::Ask(request) => Step::Ask(request),
        Prepared::Failed(e) => Step::Failed(e),
        Prepared::Ready(next) => match get_file_name(src) {
            Err(e) => Step::Failed(e),
            Ok(name) => {
                let target = join(dest.as_str(), name.as_str());
                move_or_fallback(src, target.as_str(), answers, next)
            },
        },
    }
}

/// The next step of sorting `src_path` by its date into a folder under
/// `base_dest`, given the replies to the steps before.
pub fn sort_file_by_date(
    src_path: &str,
    base_dest: &str,
    pattern: &str,
    answers: &Vec<Reply>,
) -> (step: Step)
    ensures
        step@ == sort_plan(src_path@, base_dest@, pattern@, answers.deep_view()),
{
    if answers.len() == 0 {
        return Step::Ask(Request::Modified(src_path.to_owned()));
    }
    match answer(answers, 0) {
        Reply::Modified(secs, nanos) => {
            if !is_formattable(*secs, *nanos) {
                return Step::Failed(
                    OrderlyError::IoError(
                        IoKind::Other,
                        "modification time out of range".to_owned(),
                    ),
                );
            }
            if answers.len() == 1 {
                return Step::Ask(Request::FormatDate(*secs, *nanos, pattern.to_owned()));
            }
            match answer(answers, 1) {
                Reply::Date(Some(date)) => sort_into(
                    src_path,
                    base_dest,
                    date.as_str(),
                    answers,
                    2,
                ),
                _ => Step::Failed(OrderlyError::InvalidPattern(Some(pattern.to_owned()))),
            }
        },
        Reply::Failed(kind, reason) => Step::Failed(OrderlyError::IoError(*kind, reason.clone())),
        _ => Step::Failed(OrderlyError::IoError(IoKind::Other, "unexpected reply".to_owned())),
    }
}

} // verus!
