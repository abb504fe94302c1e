//! What holds of the engine as a whole, proved from the definitions of its
//! steps.

use vstd::prelude::*;
use crate::actions::{copy_plan, formattable, move_plan, named, renamed_or_copied, sort_plan};
use crate::conditions::compiled_all;
use crate::config::{FolderRuleView, RuleView};
use crate::effects::{ReplyView, RequestView, StepView};
use crate::engine::{
    after, count_of, current_path, fresh_scan, matched, scan_acting, scan_entry, scan_step,
    ScanView, Stage, MAX_MOVEMENTS,
};
use crate::error::{message_of, ErrorView};
use crate::handlers::{handled, refused};
use crate::pass::{fresh_pass, ignoring, pass_step, PassView};
use crate::paths::joined;

verus! {

// ---------------------------------------------------------------------------
// Cycle protection
// ---------------------------------------------------------------------------

/// The pass after these replies, each given as the reply to the step before.
pub open spec fn pass_after(
    config: RuleView,
    home: Seq<char>,
    pass: PassView,
    replies: Seq<ReplyView>,
) -> PassView
    decreases replies.len(),
{
    if replies.len() == 0 {
        pass
    } else {
        pass_step(
            config,
            home,
            pass_after(config, home, pass, replies.drop_last()),
            replies.last(),
        ).pass
    }
}

/// Whether this step lets a match of `path` through: it comes from the
/// evaluation of a condition on the entry at `path` and turns to the actions
/// of the rule.
pub open spec fn begins_actions(
    config: RuleView,
    home: Seq<char>,
    pass: PassView,
    reply: ReplyView,
    path: Seq<char>,
) -> bool {
    &&& pass.scan.stage == Stage::Condition || pass.scan.stage == Stage::Testing
    &&& current_path(pass.scan) == Some(path)
    &&& pass_step(config, home, pass, reply).pass.scan.stage == Stage::Acting
}

/// How often, in the course of these replies, a match of `path` was let
/// through to the actions of a rule.
pub open spec fn action_runs(
    config: RuleView,
    home: Seq<char>,
    pass: PassView,
    replies: Seq<ReplyView>,
    path: Seq<char>,
) -> nat
    decreases replies.len(),
{
    if replies.len() == 0 {
        0
    } else {
        let earlier = action_runs(config, home, pass, replies.drop_last(), path);
        let before = pass_after(config, home, pass, replies.drop_last());
        if begins_actions(config, home, before, replies.last(), path) {
            earlier + 1
        } else {
            earlier
        }
    }
}

/// A step never lowers the count of a path, and a step that lets a match of
/// the path through raises it by one, to no more than the ceiling.
pub proof fn lemma_steps_count_matches(
    config: RuleView,
    home: Seq<char>,
    pass: PassView,
    reply: ReplyView,
    path: Seq<char>,
)
    ensures
        count_of(pass_step(config, home, pass, reply).pass.movements, path) >= count_of(
            pass.movements,
            path,
        ),
        begins_actions(config, home, pass, reply, path) ==> count_of(
            pass_step(config, home, pass, reply).pass.movements,
            path,
        ) == count_of(pass.movements, path) + 1 && count_of(pass.movements, path)
            < MAX_MOVEMENTS,
{
    reveal(pass_step);
}

proof fn lemma_action_runs_within_count(
    config: RuleView,
    home: Seq<char>,
    replies: Seq<ReplyView>,
    path: Seq<char>,
)
    ensures
        action_runs(config, home, fresh_pass(), replies, path) <= count_of(
            pass_after(config, home, fresh_pass(), replies).movements,
            path,
        ),
        action_runs(config, home, fresh_pass(), replies, path) <= MAX_MOVEMENTS,
    decreases replies.len(),
{
    if replies.len() > 0 {
        lemma_action_runs_within_count(config, home, replies.drop_last(), path);
        lemma_steps_count_matches(
            config,
            home,
            pass_after(config, home, fresh_pass(), replies.drop_last()),
            replies.last(),
            path,
        );
    }
}

/// Within one pass, whatever the rules are and whatever the file system
/// replies, the actions of the rules are begun at most [`MAX_MOVEMENTS`]
/// times for one and the same path.
pub proof fn lemma_cycle_guard(
    config: RuleView,
    home: Seq<char>,
    replies: Seq<ReplyView>,
    path: Seq<char>,
)
    ensures
        action_runs(config, home, fresh_pass(), replies, path) <= MAX_MOVEMENTS,
{
    lemma_action_runs_within_count(config, home, replies, path);
}

/// A match of a path that was matched [`MAX_MOVEMENTS`] times already fails
/// the rule with the loop error that names the path, writes that error to the
/// failure log, and leaves the scan where it stood: no action is begun.
pub proof fn lemma_match_beyond_ceiling_aborts(
    scan: ScanView,
    path: Seq<char>,
    processed: Set<Seq<char>>,
    movements: Map<Seq<char>, usize>,
)
    requires
        count_of(movements, path) >= MAX_MOVEMENTS,
    ensures
        matched(scan, path, processed, movements).step == StepView::Failed(
            ErrorView::InfiniteLoop(path),
        ),
        matched(scan, path, processed, movements).scan == scan,
        matched(scan, path, processed, movements).records == seq![
            message_of(ErrorView::InfiniteLoop(path)),
        ],
{
}

// ---------------------------------------------------------------------------
// Order
// ---------------------------------------------------------------------------

/// Folders are visited in their declared order and, within a folder, rules
/// in their declared order: a step stays with the current rule, or turns to
/// the rule after it, or turns to the first rule of the folder after the
/// current one.
pub proof fn lemma_rules_are_visited_in_order(
    config: RuleView,
    home: Seq<char>,
    pass: PassView,
    reply: ReplyView,
)
    ensures
        ({
            let next = pass_step(config, home, pass, reply).pass;
            ||| next.folder == pass.folder && next.rule == pass.rule
            ||| next.folder == pass.folder && next.rule == after(pass.rule) && next.scan
                == fresh_scan()
            ||| next.folder == after(pass.folder) && next.rule == 0 && next.scan == fresh_scan()
                && pass.folder < config.folders.len() && pass.rule
                >= config.folders[pass.folder as int].rules.len()
        }),
{
    reveal(pass_step);
}

/// The entries of a folder are looked at in the order of the listing, and
/// the listing is taken once: while a scan stays with its listing, the
/// entries are the same and the current entry is the same one or a later one.
pub proof fn lemma_entries_are_visited_in_order(
    folder: Seq<char>,
    rule: FolderRuleView,
    home: Seq<char>,
    scan: ScanView,
    processed: Set<Seq<char>>,
    movements: Map<Seq<char>, usize>,
    reply: ReplyView,
)
    requires
        scan.stage != Stage::Start,
        scan.stage != Stage::Probing,
        scan.stage != Stage::Listing,
    ensures
        ({
            let out = scan_step(folder, rule, home, scan, processed, movements, reply);
            &&& out.scan.entries == scan.entries
            &&& out.scan.matchers == scan.matchers
            &&& out.scan.entry == scan.entry || out.scan.entry == after(scan.entry)
            &&& out.scan.stage != Stage::Start && out.scan.stage != Stage::Probing
                && out.scan.stage != Stage::Listing
        }),
{
}

// ---------------------------------------------------------------------------
// Processed files
// ---------------------------------------------------------------------------

/// What was processed stays processed until the pass ends, and what was
/// ignored stays ignored.
pub proof fn lemma_processed_stays_processed(
    config: RuleView,
    home: Seq<char>,
    pass: PassView,
    reply: ReplyView,
)
    ensures
        pass.processed.subset_of(pass_step(config, home, pass, reply).pass.processed),
        pass.ignored.subset_of(pass_step(config, home, pass, reply).pass.ignored),
{
    reveal(pass_step);
}

/// An entry that was processed earlier in the pass is passed over: the scan
/// turns to the next entry without asking for anything, and nothing else
/// changes.
pub proof fn lemma_processed_entry_is_passed_over(
    scan: ScanView,
    path: Seq<char>,
    processed: Set<Seq<char>>,
    movements: Map<Seq<char>, usize>,
)
    requires
        scan.stage == Stage::Entry,
        scan.entry < scan.entries.len(),
        scan.entries[scan.entry as int] == Some(path),
        processed.contains(path),
    ensures
        ({
            let out = scan_entry(scan, processed, movements);
            &&& out.step == StepView::Continue
            &&& out.scan == ScanView { entry: after(scan.entry), ..scan }
            &&& out.processed == processed
            &&& out.movements == movements
            &&& out.records == Seq::<Seq<char>>::empty()
        }),
{
}

/// A match marks its path as processed, whether it is let through or not.
pub proof fn lemma_match_marks_its_path(
    scan: ScanView,
    path: Seq<char>,
    processed: Set<Seq<char>>,
    movements: Map<Seq<char>, usize>,
)
    ensures
        matched(scan, path, processed, movements).processed == processed.insert(path),
{
}

// ---------------------------------------------------------------------------
// Pass isolation
// ---------------------------------------------------------------------------

/// A pass begins with nothing processed and nothing counted: whatever an
/// earlier pass did to a path, the entry is looked at again, and its first
/// match is let through to the actions.
pub proof fn lemma_fresh_pass_takes_every_path(scan: ScanView, path: Seq<char>)
    requires
        scan.entry < scan.entries.len(),
        scan.entries[scan.entry as int] == Some(path),
    ensures
        !fresh_pass().processed.contains(path),
        count_of(fresh_pass().movements, path) == 0,
        scan_entry(scan, fresh_pass().processed, fresh_pass().movements).scan.stage
            == Stage::Condition,
        matched(scan, path, fresh_pass().processed, fresh_pass().movements).step
            == StepView::Continue,
        matched(scan, path, fresh_pass().processed, fresh_pass().movements).scan.stage
            == Stage::Acting,
{
}

// ---------------------------------------------------------------------------
// Failures stay where they arise
// ---------------------------------------------------------------------------

/// The pass itself never fails: whatever a step meets, it ends in a request,
/// in a call to come back, or in the end of the pass.
pub proof fn lemma_pass_never_fails(
    config: RuleView,
    home: Seq<char>,
    pass: PassView,
    reply: ReplyView,
)
    ensures
        !(pass_step(config, home, pass, reply).step is Failed),
{
    reveal(pass_step);
}

/// A rule that fails is reported, its name is ignored from then on, and the
/// pass goes on with the rule after it, in the same folder: no other rule
/// and no other folder is given up.
pub proof fn lemma_failed_rule_is_contained(
    config: RuleView,
    home: Seq<char>,
    pass: PassView,
    reply: ReplyView,
)
    requires
        pass.folder < config.folders.len(),
        pass.rule < config.folders[pass.folder as int].rules.len(),
        !(pass.scan.stage == Stage::Start && pass.ignored.contains(
            config.folders[pass.folder as int].rules[pass.rule as int].name,
        )),
        scan_step(
            config.folders[pass.folder as int].path,
            config.folders[pass.folder as int].rules[pass.rule as int],
            home,
            pass.scan,
            pass.processed,
            pass.movements,
            reply,
        ).step is Failed,
    ensures
        ({
            let folder = config.folders[pass.folder as int];
            let rule = folder.rules[pass.rule as int];
            let out = scan_step(
                folder.path,
                rule,
                home,
                pass.scan,
                pass.processed,
                pass.movements,
                reply,
            );
            let next = pass_step(config, home, pass, reply);
            &&& next.step == StepView::Continue
            &&& next.pass.folder == pass.folder
            &&& next.pass.rule == after(pass.rule)
            &&& next.pass.scan == fresh_scan()
            &&& next.pass.ignored == pass.ignored.insert(rule.name)
            &&& next.pass.processed == out.processed
            &&& next.pass.movements == out.movements
            &&& next.records == out.records.push(ignoring(rule.name, out.step->Failed_0))
        }),
{
    reveal(pass_step);
}

/// A rule with a condition of unknown kind fails at its first step, before
/// the file system is asked anything, and leaves the state of the pass
/// untouched.
pub proof fn lemma_unknown_condition_fails_rule_at_once(
    folder: Seq<char>,
    rule: FolderRuleView,
    home: Seq<char>,
    scan: ScanView,
    processed: Set<Seq<char>>,
    movements: Map<Seq<char>, usize>,
    reply: ReplyView,
)
    requires
        scan.stage == Stage::Start,
        compiled_all(rule.conditions) is Err,
    ensures
        ({
            let out = scan_step(folder, rule, home, scan, processed, movements, reply);
            &&& out.step == StepView::Failed(compiled_all(rule.conditions)->Err_0)
            &&& out.processed == processed
            &&& out.movements == movements
            &&& out.records == Seq::<Seq<char>>::empty()
        }),
{
}

/// An action of unknown kind fails alone: it is logged, nothing is asked of
/// the file system for it, and the scan turns to the rule's next action.
pub proof fn lemma_unknown_action_fails_alone(
    rule: FolderRuleView,
    home: Seq<char>,
    scan: ScanView,
    processed: Set<Seq<char>>,
    movements: Map<Seq<char>, usize>,
)
    requires
        current_path(scan) is Some,
        scan.action < rule.actions.len(),
        ({
            let kind = rule.actions[scan.action as int].action_type;
            kind != "delete"@ && kind != "move"@ && kind != "copy"@ && kind != "sort_by_date"@
        }),
    ensures
        ({
            let kind = rule.actions[scan.action as int].action_type;
            let out = scan_acting(rule, home, scan, processed, movements);
            &&& out.step == StepView::Continue
            &&& out.scan.stage == Stage::Acting
            &&& out.scan.action == after(scan.action)
            &&& out.scan.entry == scan.entry
            &&& out.scan.condition == scan.condition
            &&& out.processed == processed
            &&& out.movements == movements
            &&& out.records == seq![
                "Failed to execute action: "@ + message_of(ErrorView::InvalidActionType(kind)),
            ]
        }),
{
}

// ---------------------------------------------------------------------------
// The file operations
// ---------------------------------------------------------------------------

/// What a move may ask for, whatever the file system replies: it looks at
/// the destination and has it created, it moves the source to the
/// destination or to its own name inside it, by a rename or by a copy, and
/// it removes the source. It touches nothing else.
pub proof fn lemma_move_asks_only_for_its_own(
    src: Seq<char>,
    dest: Seq<char>,
    answers: Seq<ReplyView>,
)
    ensures
        move_plan(src, dest, answers) matches StepView::Ask(request) ==> {
            ||| request == RequestView::Exists(dest)
            ||| request == RequestView::CreateDirAll(dest)
            ||| request == RequestView::IsDir(dest)
            ||| request == RequestView::RemoveFile(src)
            ||| request == RequestView::Rename(src, dest)
            ||| request == RequestView::Copy(src, dest)
            ||| named(src) matches Ok(name) && request == RequestView::Rename(
                src,
                joined(dest, name),
            )
            ||| named(src) matches Ok(name) && request == RequestView::Copy(
                src,
                joined(dest, name),
            )
        },
        !(move_plan(src, dest, answers) is Continue),
{
}

/// A copy leaves its source alone: whatever the file system replies, the
/// plan never asks to rename, remove or trash anything. It looks at the
/// destination and has it created, and it copies the source to the
/// destination or to its own name inside it.
pub proof fn lemma_copy_spares_source(src: Seq<char>, dest: Seq<char>, answers: Seq<ReplyView>)
    ensures
        copy_plan(src, dest, answers) matches StepView::Ask(request) ==> {
            ||| request == RequestView::Exists(dest)
            ||| request == RequestView::CreateDirAll(dest)
            ||| request == RequestView::IsDir(dest)
            ||| request == RequestView::Copy(src, dest)
            ||| named(src) matches Ok(name) && request == RequestView::Copy(
                src,
                joined(dest, name),
            )
        },
        !(copy_plan(src, dest, answers) is Continue),
{
}

/// A move falls back on any failed rename: whatever reply the rename got, if
/// it is not plain success, the plan asks next for a copy to the same target,
/// and after a successful copy for the removal of the source.
pub proof fn lemma_move_falls_back_on_any_failure(
    src: Seq<char>,
    target: Seq<char>,
    answers: Seq<ReplyView>,
    at: int,
)
    requires
        0 <= at < answers.len(),
        answers[at] != ReplyView::Done,
    ensures
        answers.len() == at + 1 ==> renamed_or_copied(src, target, answers, at) == StepView::Ask(
            RequestView::Copy(src, target),
        ),
        answers.len() == at + 2 && answers[at + 1] == ReplyView::Done ==> renamed_or_copied(
            src,
            target,
            answers,
            at,
        ) == StepView::Ask(RequestView::RemoveFile(src)),
        answers.len() == at + 3 && answers[at + 1] == ReplyView::Done && answers[at + 2]
            == ReplyView::Done ==> renamed_or_copied(src, target, answers, at) == StepView::Done,
{
}

/// A move is done only when the file was moved: the rename succeeded, or
/// the copy and the removal of the source both did.
pub proof fn lemma_move_is_done_only_when_moved(
    src: Seq<char>,
    target: Seq<char>,
    answers: Seq<ReplyView>,
    at: int,
)
    requires
        0 <= at,
        renamed_or_copied(src, target, answers, at) == StepView::Done,
    ensures
        at < answers.len(),
        answers[at] == ReplyView::Done || (at + 2 < answers.len() && answers[at + 1]
            == ReplyView::Done && answers[at + 2] == ReplyView::Done),
{
}

/// A move into a destination that does not exist yet has the destination
/// created, and then moves the file to its own name inside it.
pub proof fn lemma_move_creates_missing_destination(
    src: Seq<char>,
    dest: Seq<char>,
    name: Seq<char>,
)
    requires
        named(src) == Ok::<Seq<char>, ErrorView>(name),
    ensures
        move_plan(src, dest, seq![]) == StepView::Ask(RequestView::Exists(dest)),
        move_plan(src, dest, seq![ReplyView::Flag(false)]) == StepView::Ask(
            RequestView::CreateDirAll(dest),
        ),
        move_plan(src, dest, seq![ReplyView::Flag(false), ReplyView::Done]) == StepView::Ask(
            RequestView::IsDir(dest),
        ),
        move_plan(src, dest, seq![ReplyView::Flag(false), ReplyView::Done, ReplyView::Flag(true)])
            == StepView::Ask(RequestView::Rename(src, joined(dest, name))),
        move_plan(
            src,
            dest,
            seq![ReplyView::Flag(false), ReplyView::Done, ReplyView::Flag(true), ReplyView::Done],
        ) == StepView::Done,
{
}

/// A file sorted by date goes to its own name, inside the folder named by
/// the rendered date, inside the base destination: once the date is rendered,
/// whatever the file system replies, the plan looks at that folder and has it
/// created, moves the source to its name inside it, by a rename or by a
/// copy, and removes the source. It touches nothing else.
pub proof fn lemma_sorted_file_lands_under_its_date(
    src: Seq<char>,
    base_dest: Seq<char>,
    pattern: Seq<char>,
    date: Seq<char>,
    answers: Seq<ReplyView>,
)
    requires
        answers.len() >= 2,
        answers[0] matches ReplyView::Modified(secs, nanos) && formattable(secs, nanos),
        answers[1] == ReplyView::Date(Some(date)),
    ensures
        sort_plan(src, base_dest, pattern, answers) matches StepView::Ask(request) ==> {
            ||| request == RequestView::Exists(joined(base_dest, date))
            ||| request == RequestView::CreateDirAll(joined(base_dest, date))
            ||| request == RequestView::RemoveFile(src)
            ||| named(src) matches Ok(name) && request == RequestView::Rename(
                src,
                joined(joined(base_dest, date), name),
            )
            ||| named(src) matches Ok(name) && request == RequestView::Copy(
                src,
                joined(joined(base_dest, date), name),
            )
        },
        !(sort_plan(src, base_dest, pattern, answers) is Continue),
{
}

/// With the folder of the date in place, the first thing asked of the file
/// system is the rename to `base_dest/date/name`.
pub proof fn lemma_sorted_file_is_renamed_first(
    src: Seq<char>,
    base_dest: Seq<char>,
    pattern: Seq<char>,
    secs: i64,
    nanos: u32,
    date: Seq<char>,
    name: Seq<char>,
)
    requires
        formattable(secs, nanos),
        named(src) == Ok::<Seq<char>, ErrorView>(name),
    ensures
        sort_plan(
            src,
            base_dest,
            pattern,
            seq![
                ReplyView::Modified(secs, nanos),
                ReplyView::Date(Some(date)),
                ReplyView::Flag(true),
            ],
        ) == StepView::Ask(RequestView::Rename(src, joined(joined(base_dest, date), name))),
{
}

} // verus!
