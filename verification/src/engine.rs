//! The rule engine. A pass visits the folders in declaration order, and in
//! each folder its rules in declaration order; a rule is scanned over the
//! direct children of its folder. The engine is a machine that is advanced
//! one step at a time: each step takes the reply to what the step before
//! asked for, and says what to do next.

use vstd::prelude::*;
use vstd::string::*;
use vstd::hash_map::StringHashMap;
use vstd::hash_set::StringHashSet;
use crate::conditions::{
    compiled_all, create_conditions, lemma_compiled_all_pointwise, selects, Condition, FileEntry,
    Matcher, MatcherView,
};
use crate::config::{FolderRule, FolderRuleView};
use crate::effects::{
    is_yes, lemma_replies_are_representable, reply_representable, said_yes, Reply, ReplyView,
    Request, RequestView, Step, StepView,
};
use crate::error::{message_of, ErrorView, OrderlyError};
use crate::handlers::{execute_action, handled, record, with_mark, with_record};
use crate::text::prefixed;

verus! {

/// How often one path may be matched within one pass.
pub const MAX_MOVEMENTS: usize = 10;

/// The index after `i`; the largest index is its own successor.
pub open spec fn after(i: usize) -> usize {
    if i < usize::MAX {
        (i + 1) as usize
    } else {
        i
    }
}

/// The index after `i`.
pub fn next_index(i: usize) -> (next: usize)
    ensures
        next == after(i),
{
    if i < usize::MAX {
        i + 1
    } else {
        i
    }
}

/// Where the scan of one rule stands.
#[derive(Debug, Clone, Copy, PartialEq, Eq, Structural)]
pub enum Stage {
    /// Nothing was done yet.
    Start,
    /// Asked whether the folder exists.
    Probing,
    /// Asked for the children of the folder.
    Listing,
    /// About to look at the current entry.
    Entry,
    /// About to evaluate the current condition on the current entry.
    Condition,
    /// Asked whether the current entry is a regular file.
    Testing,
    /// About to run, or to go on with, the current action.
    Acting,
    /// Asked for an operation of the current action.
    Awaiting,
}

/// The progress of one rule over one folder.
pub struct Scan {
    pub stage: Stage,
    /// The conditions of the rule, compiled when the scan started.
    pub matchers: Vec<Matcher>,
    /// The children of the folder, as they were listed.
    pub entries: Vec<Option<String>>,
    /// The index of the current entry.
    pub entry: usize,
    /// The index of the current condition.
    pub condition: usize,
    /// The index of the current action.
    pub action: usize,
    /// The replies that the current action has received.
    pub answers: Vec<Reply>,
}

/// The mathematical content of a [`Scan`].
pub struct ScanView {
    pub stage: Stage,
    pub matchers: Seq<MatcherView>,
    pub entries: Seq<Option<Seq<char>>>,
    pub entry: usize,
    pub condition: usize,
    pub action: usize,
    pub answers: Seq<ReplyView>,
}

impl View for Scan {
    type V = ScanView;

    open spec fn view(&self) -> ScanView {
        ScanView {
            stage: self.stage,
            matchers: self.matchers.deep_view(),
            entries: self.entries.deep_view(),
            entry: self.entry,
            condition: self.condition,
            action: self.action,
            answers: self.answers.deep_view(),
        }
    }
}

/// The states that a scan goes through: while a condition or an action is
/// at work, there is a current entry with a path, and while an action is at
/// work, there is a current condition.
pub open spec fn scan_well_formed(scan: ScanView) -> bool {
    &&& scan.entries.len() <= usize::MAX
    &&& scan.matchers.len() <= usize::MAX
    &&& (scan.stage == Stage::Condition || scan.stage == Stage::Testing || scan.stage
        == Stage::Acting || scan.stage == Stage::Awaiting) ==> current_path(scan) is Some
    &&& (scan.stage == Stage::Testing || scan.stage == Stage::Acting || scan.stage
        == Stage::Awaiting) ==> scan.condition < scan.matchers.len()
}

/// A scan that has not begun.
pub open spec fn fresh_scan() -> ScanView {
    ScanView {
        stage: Stage::Start,
        matchers: Seq::empty(),
        entries: Seq::empty(),
        entry: 0,
        condition: 0,
        action: 0,
        answers: Seq::empty(),
    }
}

impl Scan {
    /// A scan that has not begun.
    pub fn new() -> (scan: Scan)
        ensures
            scan@ == fresh_scan(),
            scan_well_formed(scan@),
    {
        let scan = Scan {
            stage: Stage::Start,
            matchers: Vec::new(),
            entries: Vec::new(),
            entry: 0,
            condition: 0,
            action: 0,
            answers: Vec::new(),
        };
        assert(scan.matchers.deep_view() =~= Seq::empty());
        assert(scan.entries.deep_view() =~= Seq::empty());
        assert(scan.answers.deep_view() =~= Seq::empty());
        scan
    }
}

/// What one step of a scan came to.
pub struct Scanned {
    pub scan: ScanView,
    pub processed: Set<Seq<char>>,
    pub movements: Map<Seq<char>, usize>,
    /// The lines that the step wrote to the failure log.
    pub records: Seq<Seq<char>>,
    pub step: StepView,
}

/// The path of the current entry, when there is one and it is text.
pub open spec fn current_path(scan: ScanView) -> Option<Seq<char>> {
    if scan.entry < scan.entries.len() {
        scan.entries[scan.entry as int]
    } else {
        None
    }
}

/// The movement count of `path`, where a path that was never matched
/// counts as zero.
pub open spec fn count_of(movements: Map<Seq<char>, usize>, path: Seq<char>) -> usize {
    if movements.contains_key(path) {
        movements[path]
    } else {
        0
    }
}

/// The movement count of `path` after one more match.
pub open spec fn bumped(movements: Map<Seq<char>, usize>, path: Seq<char>) -> usize {
    after(count_of(movements, path))
}

/// A step that only moves the scan on.
pub open spec fn moved_on(
    scan: ScanView,
    processed: Set<Seq<char>>,
    movements: Map<Seq<char>, usize>,
) -> Scanned {
    Scanned { scan, processed, movements, records: Seq::empty(), step: StepView::Continue }
}

/// A step that ends the scan, leaving its state as it is.
pub open spec fn ended(
    scan: ScanView,
    processed: Set<Seq<char>>,
    movements: Map<Seq<char>, usize>,
    step: StepView,
) -> Scanned {
    Scanned { scan, processed, movements, records: Seq::empty(), step }
}

/// The start of a scan: the rule's conditions are compiled, so that an
/// unknown kind fails the rule before anything is asked of the file system.
pub open spec fn scan_start(
    folder: Seq<char>,
    rule: FolderRuleView,
    scan: ScanView,
    processed: Set<Seq<char>>,
    movements: Map<Seq<char>, usize>,
) -> Scanned {
    match compiled_all(rule.conditions) {
        Err(e) => ended(scan, processed, movements, StepView::Failed(e)),
        Ok(matchers) => ended(
            ScanView { stage: Stage::Probing, matchers, ..scan },
            processed,
            movements,
            StepView::Ask(RequestView::Exists(folder)),
        ),
    }
}

/// A folder that does not exist fails the rule.
pub open spec fn scan_probed(
    folder: Seq<char>,
    scan: ScanView,
    processed: Set<Seq<char>>,
    movements: Map<Seq<char>, usize>,
    reply: ReplyView,
) -> Scanned {
    if said_yes(reply) {
        ended(
            ScanView { stage: Stage::Listing, ..scan },
            processed,
            movements,
            StepView::Ask(RequestView::ReadDir(folder)),
        )
    } else {
        ended(
            scan,
            processed,
            movements,
            StepView::Failed(ErrorView::DirectoryDoesNotExist(folder)),
        )
    }
}

/// A folder that cannot be listed fails the rule.
pub open spec fn scan_listed(
    folder: Seq<char>,
    scan: ScanView,
    processed: Set<Seq<char>>,
    movements: Map<Seq<char>, usize>,
    reply: ReplyView,
) -> Scanned {
    match reply {
        ReplyView::Listing(entries) => moved_on(
            ScanView { stage: Stage::Entry, entries, entry: 0, ..scan },
            processed,
            movements,
        ),
        ReplyView::Failed(_, reason) => ended(
            scan,
            processed,
            movements,
            StepView::Failed(ErrorView::FailedToReadDirectory(folder, reason)),
        ),
        _ => ended(
            scan,
            processed,
            movements,
            StepView::Failed(ErrorView::FailedToReadDirectory(folder, "unexpected reply"@)),
        ),
    }
}

/// An entry is passed over when its path is not text, or when it was
/// processed earlier in the pass; after the last entry the scan is done.
pub open spec fn scan_entry(
    scan: ScanView,
    processed: Set<Seq<char>>,
    movements: Map<Seq<char>, usize>,
) -> Scanned {
    if scan.entry >= scan.entries.len() {
        ended(scan, processed, movements, StepView::Done)
    } else {
        match scan.entries[scan.entry as int] {
            None => moved_on(ScanView { entry: after(scan.entry), ..scan }, processed, movements),
            Some(path) => if processed.contains(path) {
                moved_on(ScanView { entry: after(scan.entry), ..scan }, processed, movements)
            } else {
                moved_on(
                    ScanView { stage: Stage::Condition, condition: 0, ..scan },
                    processed,
                    movements,
                )
            },
        }
    }
}

/// A match: the path is processed from now on and its movement count goes
/// up by one. Beyond the ceiling the rule is given up, and none of its
/// actions runs for the path; up to the ceiling the actions begin.
pub open spec fn matched(
    scan: ScanView,
    path: Seq<char>,
    processed: Set<Seq<char>>,
    movements: Map<Seq<char>, usize>,
) -> Scanned {
    let count = bumped(movements, path);
    if count > MAX_MOVEMENTS {
        Scanned {
            scan,
            processed: processed.insert(path),
            movements: movements.insert(path, count),
            records: seq![message_of(ErrorView::InfiniteLoop(path))],
            step: StepView::Failed(ErrorView::InfiniteLoop(path)),
        }
    } else {
        moved_on(
            ScanView { stage: Stage::Acting, action: 0, answers: Seq::empty(), ..scan },
            processed.insert(path),
            movements.insert(path, count),
        )
    }
}

/// The conditions are tried in order, each on its own: after the last the
/// scan turns to the next entry. An `always` condition first asks whether
/// the entry is a regular file.
pub open spec fn scan_condition(
    scan: ScanView,
    processed: Set<Seq<char>>,
    movements: Map<Seq<char>, usize>,
) -> Scanned {
    match current_path(scan) {
        None => moved_on(ScanView { stage: Stage::Entry, ..scan }, processed, movements),
        Some(path) => if scan.condition >= scan.matchers.len() {
            moved_on(
                ScanView { stage: Stage::Entry, entry: after(scan.entry), ..scan },
                processed,
                movements,
            )
        } else if scan.matchers[scan.condition as int] is Always {
            ended(
                ScanView { stage: Stage::Testing, ..scan },
                processed,
                movements,
                StepView::Ask(RequestView::IsFile(path)),
            )
        } else if selects(scan.matchers[scan.condition as int], path, false) {
            matched(scan, path, processed, movements)
        } else {
            moved_on(ScanView { condition: after(scan.condition), ..scan }, processed, movements)
        },
    }
}

/// The verdict of a condition that waited to learn whether the entry is a
/// regular file.
pub open spec fn scan_tested(
    scan: ScanView,
    processed: Set<Seq<char>>,
    movements: Map<Seq<char>, usize>,
    reply: ReplyView,
) -> Scanned {
    match current_path(scan) {
        None => moved_on(ScanView { stage: Stage::Entry, ..scan }, processed, movements),
        Some(path) => if scan.condition >= scan.matchers.len() {
            moved_on(ScanView { stage: Stage::Condition, ..scan }, processed, movements)
        } else if selects(scan.matchers[scan.condition as int], path, said_yes(reply)) {
            matched(scan, path, processed, movements)
        } else {
            moved_on(
                ScanView { stage: Stage::Condition, condition: after(scan.condition), ..scan },
                processed,
                movements,
            )
        },
    }
}

/// The actions of the rule run in order on the matched entry. A failed
/// action is logged and the next one runs; after the last the scan turns to
/// the next condition.
pub open spec fn scan_acting(
    rule: FolderRuleView,
    home: Seq<char>,
    scan: ScanView,
    processed: Set<Seq<char>>,
    movements: Map<Seq<char>, usize>,
) -> Scanned {
    match current_path(scan) {
        None => moved_on(ScanView { stage: Stage::Entry, ..scan }, processed, movements),
        Some(path) => if scan.action >= rule.actions.len() {
            moved_on(
                ScanView { stage: Stage::Condition, condition: after(scan.condition), ..scan },
                processed,
                movements,
            )
        } else {
            let done = handled(path, rule.actions[scan.action as int], home, scan.answers);
            let next = ScanView {
                stage: Stage::Acting,
                action: after(scan.action),
                answers: Seq::empty(),
                ..scan
            };
            match done.step {
                StepView::Ask(request) => Scanned {
                    scan: ScanView { stage: Stage::Awaiting, ..scan },
                    processed: with_mark(processed, done.marked),
                    movements,
                    records: with_record(Seq::empty(), done.record),
                    step: StepView::Ask(request),
                },
                StepView::Failed(e) => Scanned {
                    scan: next,
                    processed: with_mark(processed, done.marked),
                    movements,
                    records: with_record(Seq::empty(), done.record).push(
                        "Failed to execute action: "@ + message_of(e),
                    ),
                    step: StepView::Continue,
                },
                _ => Scanned {
                    scan: next,
                    processed: with_mark(processed, done.marked),
                    movements,
                    records: with_record(Seq::empty(), done.record),
                    step: StepView::Continue,
                },
            }
        },
    }
}

/// One step of the scan of `rule` over the folder at `folder`.
pub open spec fn scan_step(
    folder: Seq<char>,
    rule: FolderRuleView,
    home: Seq<char>,
    scan: ScanView,
    processed: Set<Seq<char>>,
    movements: Map<Seq<char>, usize>,
    reply: ReplyView,
) -> Scanned {
    match scan.stage {
        Stage::Start => scan_start(folder, rule, scan, processed, movements),
        Stage::Probing => scan_probed(folder, scan, processed, movements, reply),
        Stage::Listing => scan_listed(folder, scan, processed, movements, reply),
        Stage::Entry => scan_entry(scan, processed, movements),
        Stage::Condition => scan_condition(scan, processed, movements),
        Stage::Testing => scan_tested(scan, processed, movements, reply),
        Stage::Acting => scan_acting(rule, home, scan, processed, movements),
        Stage::Awaiting => scan_acting(
            rule,
            home,
            ScanView { answers: scan.answers.push(reply), ..scan },
            processed,
            movements,
        ),
    }
}

/// A step leaves a well-formed scan well formed.
pub proof fn lemma_scan_steps_keep_well_formed(
    folder: Seq<char>,
    rule: FolderRuleView,
    home: Seq<char>,
    scan: ScanView,
    processed: Set<Seq<char>>,
    movements: Map<Seq<char>, usize>,
    reply: ReplyView,
)
    requires
        rule.conditions.len() <= usize::MAX,
        reply_representable(reply),
        scan_well_formed(scan),
    ensures
        scan_well_formed(scan_step(folder, rule, home, scan, processed, movements, reply).scan),
{
    if compiled_all(rule.conditions) is Ok {
        lemma_compiled_all_pointwise(rule.conditions);
    }
}

/// Marks `path` as processed and counts the match. The match is refused
/// exactly when the count goes beyond [`MAX_MOVEMENTS`].
pub fn record_match(
    path: &str,
    processed_files: &mut StringHashSet,
    file_movements: &mut StringHashMap<usize>,
) -> (r: Result<(), OrderlyError>)
    ensures
        final(processed_files)@ == old(processed_files)@.insert(path@),
        final(file_movements)@ == old(file_movements)@.insert(
            path@,
            bumped(old(file_movements)@, path@),
        ),
        match r {
            Ok(_) => bumped(old(file_movements)@, path@) <= MAX_MOVEMENTS,
            Err(e) => bumped(old(file_movements)@, path@) > MAX_MOVEMENTS && e@
                == ErrorView::InfiniteLoop(path@),
        },
{
    processed_files.insert(path.to_owned());
    let count: usize = match file_movements.get(path) {
        Some(n) => *n,
        None => 0,
    };
    let count = next_index(count);
    file_movements.insert(path.to_owned(), count);
    if count > MAX_MOVEMENTS {
        Err(OrderlyError::InfiniteLoop(path.to_owned()))
    } else {
        Ok(())
    }
}

/// The path of the current entry.
fn current(scan: &Scan) -> (path: Option<String>)
    ensures
        path.deep_view() == current_path(scan@),
{
    if scan.entry < scan.entries.len() {
        match &scan.entries[scan.entry] {
            Some(path) => Some(path.clone()),
            None => None,
        }
    } else {
        None
    }
}

/// Takes note of a match of the current condition on `path`.
fn on_match(
    scan: &mut Scan,
    path: &str,
    processed_files: &mut StringHashSet,
    file_movements: &mut StringHashMap<usize>,
    log: &mut Vec<String>,
) -> (step: Step)
    ensures
        ({
            let out = matched(old(scan)@, path@, old(processed_files)@, old(file_movements)@);
            &&& final(scan)@ == out.scan
            &&& final(processed_files)@ == out.processed
            &&& final(file_movements)@ == out.movements
            &&& final(log).deep_view() == old(log).deep_view() + out.records
            &&& step@ == out.step
        }),
{
    match record_match(path, processed_files, file_movements) {
        Err(e) => {
            record(log, e.message());
            Step::Failed(e)
        },
        Ok(_) => {
            scan.stage = Stage::Acting;
            scan.action = 0;
            scan.answers = Vec::new();
            assert(scan.answers.deep_view() =~= Seq::empty());
            Step::Continue
        },
    }
}

/// The first step of a scan.
fn start(folder_path: &str, rule: &FolderRule, scan: &mut Scan) -> (step: Step)
    ensures
        ({
            let out = scan_start(folder_path@, rule@, old(scan)@, Set::empty(), Map::empty());
            &&& final(scan)@ == out.scan
            &&& step@ == out.step
        }),
{
    match create_conditions(&rule.conditions) {
        Err(e) => Step::Failed(e),
        Ok(matchers) => {
            scan.stage = Stage::Probing;
            scan.matchers = matchers;
            Step::Ask(Request::Exists(folder_path.to_owned()))
        },
    }
}

/// The step that takes the children of the folder.
fn listed(folder_path: &str, scan: &mut Scan, reply: Reply) -> (step: Step)
    ensures
        ({
            let out = scan_listed(folder_path@, old(scan)@, Set::empty(), Map::empty(), reply@);
            &&& final(scan)@ == out.scan
            &&& step@ == out.step
        }),
{
    match reply {
        Reply::Listing(entries) => {
            scan.stage = Stage::Entry;
            scan.entries = entries;
            scan.entry = 0;
            Step::Continue
        },
        Reply::Failed(_, reason) => Step::Failed(
            OrderlyError::FailedToReadDirectory(folder_path.to_owned(), reason),
        ),
        _ => Step::Failed(
            OrderlyError::FailedToReadDirectory(
                folder_path.to_owned(),
                "unexpected reply".to_owned(),
            ),
        ),
    }
}

/// The step that looks at the current entry.
fn entry(scan: &mut Scan, processed_files: &StringHashSet) -> (step: Step)
    ensures
        ({
            let out = scan_entry(old(scan)@, processed_files@, Map::empty());
            &&& final(scan)@ == out.scan
            &&& step@ == out.step
        }),
{
    if scan.entry >= scan.entries.len() {
        return Step::Done;
    }
    match current(scan) {
        None => {
            scan.entry = next_index(scan.entry);
        },
        Some(path) => {
            if processed_files.contains(path.as_str()) {
                scan.entry = next_index(scan.entry);
            } else {
                scan.stage = Stage::Condition;
                scan.condition = 0;
            }
        },
    }
    Step::Continue
}

/// The verdict of the current condition on `path`.
fn verdict(scan: &Scan, path: String, is_file: bool) -> (hit: bool)
    requires
        scan.condition < scan.matchers.len(),
    ensures
        hit == selects(scan@.matchers[scan.condition as int], path@, is_file),
{
    let entry = FileEntry { path, is_file };
    scan.matchers[scan.condition].evaluate(&entry)
}

/// The step that evaluates the current condition.
fn condition(
    scan: &mut Scan,
    processed_files: &mut StringHashSet,
    file_movements: &mut StringHashMap<usize>,
    log: &mut Vec<String>,
) -> (step: Step)
    ensures
        ({
            let out = scan_condition(old(scan)@, old(processed_files)@, old(file_movements)@);
            &&& final(scan)@ == out.scan
            &&& final(processed_files)@ == out.processed
            &&& final(file_movements)@ == out.movements
            &&& final(log).deep_view() == old(log).deep_view() + out.records
            &&& step@ == out.step
        }),
{
    match current(scan) {
        None => {
            scan.stage = Stage::Entry;
            Step::Continue
        },
        Some(path) => {
            if scan.condition >= scan.matchers.len() {
                scan.stage = Stage::Entry;
                scan.entry = next_index(scan.entry);
                return Step::Continue;
            }
            if scan.matchers[scan.condition].reads_file_kind() {
                scan.stage = Stage::Testing;
                return Step::Ask(Request::IsFile(path));
            }
            if verdict(scan, path.clone(), false) {
                on_match(scan, path.as_str(), processed_files, file_movements, log)
            } else {
                scan.condition = next_index(scan.condition);
                Step::Continue
            }
        },
    }
}

/// The step that takes the file kind that an `always` condition asked for.
fn tested(
    scan: &mut Scan,
    processed_files: &mut StringHashSet,
    file_movements: &mut StringHashMap<usize>,
    reply: Reply,
    log: &mut Vec<String>,
) -> (step: Step)
    ensures
        ({
            let out = scan_tested(
                old(scan)@,
                old(processed_files)@,
                old(file_movements)@,
                reply@,
            );
            &&& final(scan)@ == out.scan
            &&& final(processed_files)@ == out.processed
            &&& final(file_movements)@ == out.movements
            &&& final(log).deep_view() == old(log).deep_view() + out.records
            &&& step@ == out.step
        }),
{
    match current(scan) {
        None => {
            scan.stage = Stage::Entry;
            Step::Continue
        },
        Some(path) => {
            if scan.condition >= scan.matchers.len() {
                scan.stage = Stage::Condition;
                return Step::Continue;
            }
            if verdict(scan, path.clone(), is_yes(&reply)) {
                on_match(scan, path.as_str(), processed_files, file_movements, log)
            } else {
                scan.stage = Stage::Condition;
                scan.condition = next_index(scan.condition);
                Step::Continue
            }
        },
    }
}

/// The step that runs, or goes on with, the current action.
fn acting(
    rule: &FolderRule,
    home: &str,
    scan: &mut Scan,
    processed_files: &mut StringHashSet,
    log: &mut Vec<String>,
) -> (step: Step)
    ensures
        ({
            let out = scan_acting(rule@, home@, old(scan)@, old(processed_files)@, Map::empty());
            &&& final(scan)@ == out.scan
            &&& final(processed_files)@ == out.processed
            &&& final(log).deep_view() == old(log).deep_view() + out.records
            &&& step@ == out.step
        }),
{
    match current(scan) {
        None => {
            scan.stage = Stage::Entry;
            Step::Continue
        },
        Some(path) => {
            if scan.action >= rule.actions.len() {
                scan.stage = Stage::Condition;
                scan.condition = next_index(scan.condition);
                return Step::Continue;
            }
            let step = execute_action(
                path.as_str(),
                &rule.actions[scan.action],
                home,
                &scan.answers,
                processed_files,
                log,
            );
            match step {
                Step::Ask(request) => {
                    scan.stage = Stage::Awaiting;
                    Step::Ask(request)
                },
                Step::Failed(e) => {
                    record(log, prefixed("Failed to execute action: ", e.message().as_str()));
                    scan.stage = Stage::Acting;
                    scan.action = next_index(scan.action);
                    scan.answers = Vec::new();
                    assert(scan.answers.deep_view() =~= Seq::empty());
                    Step::Continue
                },
                _ => {
                    scan.stage = Stage::Acting;
                    scan.action = next_index(scan.action);
                    scan.answers = Vec::new();
                    assert(scan.answers.deep_view() =~= Seq::empty());
                    Step::Continue
                },
            }
        },
    }
}

/// Advances the scan of `rule` over the folder at `folder_path` by one step.
pub fn handle_conditions(
    folder_path: &str,
    rule: &FolderRule,
    home: &str,
    scan: &mut Scan,
    processed_files: &mut StringHashSet,
    file_movements: &mut StringHashMap<usize>,
    reply: Reply,
    log: &mut Vec<String>,
) -> (step: Step)
    ensures
        ({
            let out = scan_step(
                folder_path@,
                rule@,
                home@,
                old(scan)@,
                old(processed_files)@,
                old(file_movements)@,
                reply@,
            );
            &&& final(scan)@ == out.scan
            &&& final(processed_files)@ == out.processed
            &&& final(file_movements)@ == out.movements
            &&& final(log).deep_view() == old(log).deep_view() + out.records
            &&& step@ == out.step
        }),
        scan_well_formed(old(scan)@) ==> scan_well_formed(final(scan)@),
{
    proof {
        if scan_well_formed(scan@) {
            lemma_replies_are_representable(reply);
            assert(rule@.conditions.len() == rule.conditions.len());
            lemma_scan_steps_keep_well_formed(
                folder_path@,
                rule@,
                home@,
                scan@,
                processed_files@,
                file_movements@,
                reply@,
            );
        }
    }
    match scan.stage {
        Stage::Start => start(folder_path, rule, scan),
        Stage::Probing => {
            if is_yes(&reply) {
                scan.stage = Stage::Listing;
                Step::Ask(Request::ReadDir(folder_path.to_owned()))
            } else {
                Step::Failed(OrderlyError::DirectoryDoesNotExist(folder_path.to_owned()))
            }
        },
        Stage::Listing => listed(folder_path, scan, reply),
        Stage::Entry => entry(scan, processed_files),
        Stage::Condition => condition(scan, processed_files, file_movements, log),
        Stage::Testing => tested(scan, processed_files, file_movements, reply, log),
        Stage::Acting => acting(rule, home, scan, processed_files, log),
        Stage::Awaiting => {
            let ghost before = scan.answers.deep_view();
            scan.answers.push(reply);
            assert(scan.answers.deep_view() =~= before.push(reply@));
            acting(rule, home, scan, processed_files, log)
        },
    }
}

} // verus!
