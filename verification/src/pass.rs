//! One pass over the whole rule set: every rule of every folder, in order.

use vstd::prelude::*;
use vstd::string::*;
use vstd::hash_map::StringHashMap;
use vstd::hash_set::StringHashSet;
use crate::actions::{formattable, is_formattable};
use crate::config::{
    create_example_rule, example_path, example_rule, lemma_rule_sets_are_representable,
    representable, ActionView, FolderRuleView, Rule, RuleView,
};
use crate::effects::{
    lemma_replies_are_representable, reply_representable, Reply, ReplyView, Request, RequestView,
    Step, StepView,
};
use crate::engine::{
    after, count_of, current_path, fresh_scan, handle_conditions, lemma_scan_steps_keep_well_formed,
    next_index, scan_step, scan_well_formed, Scan, ScanView, Stage,
};
use crate::error::message_of;
use crate::handlers::{handled, record};

verus! {

/// The state of one pass. It is created fresh for every pass and dropped at
/// its end.
pub struct Pass {
    /// The paths that were acted upon in this pass.
    pub processed_files: StringHashSet,
    /// How often each path was matched in this pass.
    pub file_movements: StringHashMap<usize>,
    /// The names of the rules that failed in this pass.
    pub ignored_rules: StringHashSet,
    /// The index of the current folder.
    pub folder: usize,
    /// The index of the current rule within the current folder.
    pub rule: usize,
    /// The progress of the current rule.
    pub scan: Scan,
}

/// The mathematical content of a [`Pass`].
pub struct PassView {
    pub processed: Set<Seq<char>>,
    pub movements: Map<Seq<char>, usize>,
    pub ignored: Set<Seq<char>>,
    pub folder: usize,
    pub rule: usize,
    pub scan: ScanView,
}

impl View for Pass {
    type V = PassView;

    open spec fn view(&self) -> PassView {
        PassView {
            processed: self.processed_files@,
            movements: self.file_movements@,
            ignored: self.ignored_rules@,
            folder: self.folder,
            rule: self.rule,
            scan: self.scan@,
        }
    }
}

/// The states that a pass goes through: those in which its scan is well
/// formed.
pub open spec fn well_formed(pass: PassView) -> bool {
    scan_well_formed(pass.scan)
}

/// The state in which every pass begins: nothing processed, nothing
/// counted, no rule ignored, at the first rule of the first folder.
pub open spec fn fresh_pass() -> PassView {
    PassView {
        processed: Set::empty(),
        movements: Map::empty(),
        ignored: Set::empty(),
        folder: 0,
        rule: 0,
        scan: fresh_scan(),
    }
}

impl Pass {
    /// The state in which a pass begins.
    pub fn new() -> (pass: Pass)
        ensures
            pass@ == fresh_pass(),
            well_formed(pass@),
    {
        Pass {
            processed_files: StringHashSet::new(),
            file_movements: StringHashMap::new(),
            ignored_rules: StringHashSet::new(),
            folder: 0,
            rule: 0,
            scan: Scan::new(),
        }
    }

    /// Whether `path` was acted upon in this pass.
    pub fn is_processed(&self, path: &str) -> (r: bool)
        ensures
            r == self@.processed.contains(path@),
    {
        self.processed_files.contains(path)
    }

    /// How often `path` was matched in this pass.
    pub fn movements_of(&self, path: &str) -> (count: usize)
        ensures
            count == count_of(self@.movements, path@),
    {
        match self.file_movements.get(path) {
            Some(count) => *count,
            None => 0,
        }
    }

    /// Whether the rule of this name failed in this pass.
    pub fn is_ignored(&self, rule_name: &str) -> (r: bool)
        ensures
            r == self@.ignored.contains(rule_name@),
    {
        self.ignored_rules.contains(rule_name)
    }
}

/// What one step of a pass came to.
pub struct Advanced {
    pub pass: PassView,
    /// The lines that the step wrote to the failure log.
    pub records: Seq<Seq<char>>,
    pub step: StepView,
}

/// The line that reports a failed rule.
pub open spec fn ignoring(rule_name: Seq<char>, e: crate::error::ErrorView) -> Seq<char> {
    "Ignoring rule '"@ + rule_name + "': "@ + message_of(e)
}

/// One step of a pass. Folders are visited in order and, within a folder,
/// rules in order. A rule whose name is among the ignored is not begun. A
/// rule that fails is reported and ignored from then on, and the pass goes
/// on with the next rule. The pass is done after the last folder.
#[verifier::opaque]
pub open spec fn pass_step(
    config: RuleView,
    home: Seq<char>,
    pass: PassView,
    reply: ReplyView,
) -> Advanced {
    if pass.folder >= config.folders.len() {
        Advanced { pass, records: Seq::empty(), step: StepView::Done }
    } else {
        let folder = config.folders[pass.folder as int];
        if pass.rule >= folder.rules.len() {
            Advanced {
                pass: PassView { folder: after(pass.folder), rule: 0, scan: fresh_scan(), ..pass },
                records: Seq::empty(),
                step: StepView::Continue,
            }
        } else {
            let rule = folder.rules[pass.rule as int];
            if pass.scan.stage == Stage::Start && pass.ignored.contains(rule.name) {
                Advanced {
                    pass: PassView { rule: after(pass.rule), scan: fresh_scan(), ..pass },
                    records: Seq::empty(),
                    step: StepView::Continue,
                }
            } else {
                let out = scan_step(
                    folder.path,
                    rule,
                    home,
                    pass.scan,
                    pass.processed,
                    pass.movements,
                    reply,
                );
                let kept = PassView {
                    processed: out.processed,
                    movements: out.movements,
                    scan: out.scan,
                    ..pass
                };
                match out.step {
                    StepView::Ask(request) => Advanced {
                        pass: kept,
                        records: out.records,
                        step: StepView::Ask(request),
                    },
                    StepView::Continue => Advanced {
                        pass: kept,
                        records: out.records,
                        step: StepView::Continue,
                    },
                    StepView::Done => Advanced {
                        pass: PassView { rule: after(pass.rule), scan: fresh_scan(), ..kept },
                        records: out.records,
                        step: StepView::Continue,
                    },
                    StepView::Failed(e) => Advanced {
                        pass: PassView {
                            ignored: pass.ignored.insert(rule.name),
                            rule: after(pass.rule),
                            scan: fresh_scan(),
                            ..kept
                        },
                        records: out.records.push(ignoring(rule.name, e)),
                        step: StepView::Continue,
                    },
                }
            }
        }
    }
}

/// A step leaves a well-formed pass well formed.
pub proof fn lemma_steps_keep_passes_well_formed(
    config: RuleView,
    home: Seq<char>,
    pass: PassView,
    reply: ReplyView,
)
    requires
        representable(config),
        reply_representable(reply),
        well_formed(pass),
    ensures
        well_formed(pass_step(config, home, pass, reply).pass),
{
    reveal(pass_step);
    if pass.folder < config.folders.len() && pass.rule
        < config.folders[pass.folder as int].rules.len() {
        let folder = config.folders[pass.folder as int];
        lemma_scan_steps_keep_well_formed(
            folder.path,
            folder.rules[pass.rule as int],
            home,
            pass.scan,
            pass.processed,
            pass.movements,
            reply,
        );
    }
}

/// Advances the pass by one step.
pub fn advance(
    config: &Rule,
    home: &str,
    pass: &mut Pass,
    reply: Reply,
    log: &mut Vec<String>,
) -> (step: Step)
    ensures
        ({
            let out = pass_step(config@, home@, old(pass)@, reply@);
            &&& final(pass)@ == out.pass
            &&& final(log).deep_view() == old(log).deep_view() + out.records
            &&& step@ == out.step
        }),
        !(step@ is Failed),
        well_formed(old(pass)@) ==> well_formed(final(pass)@),
{
    reveal(pass_step);
    proof {
        if well_formed(pass@) {
            lemma_rule_sets_are_representable(*config);
            lemma_replies_are_representable(reply);
            lemma_steps_keep_passes_well_formed(config@, home@, pass@, reply@);
        }
    }
    assert(log.deep_view() =~= old(log).deep_view() + Seq::<Seq<char>>::empty());
    if pass.folder >= config.folders.len() {
        return Step::Done;
    }
    let folder = &config.folders[pass.folder];
    if pass.rule >= folder.rules.len() {
        pass.folder = next_index(pass.folder);
        pass.rule = 0;
        pass.scan = Scan::new();
        return Step::Continue;
    }
    let rule = &folder.rules[pass.rule];
    if pass.scan.stage == Stage::Start && pass.ignored_rules.contains(rule.name.as_str()) {
        pass.rule = next_index(pass.rule);
        pass.scan = Scan::new();
        return Step::Continue;
    }
    let step = handle_conditions(
        folder.path.as_str(),
        rule,
        home,
        &mut pass.scan,
        &mut pass.processed_files,
        &mut pass.file_movements,
        reply,
        log,
    );
    match step {
        Step::Ask(request) => Step::Ask(request),
        Step::Continue => Step::Continue,
        Step::Done => {
            pass.rule = next_index(pass.rule);
            pass.scan = Scan::new();
            Step::Continue
        },
        Step::Failed(e) => {
            let mut line = "Ignoring rule '".to_owned();
            line.append(rule.name.as_str());
            line.append("': ");
            line.append(e.message().as_str());
            record(log, line);
            pass.ignored_rules.insert(rule.name.clone());
            pass.rule = next_index(pass.rule);
            pass.scan = Scan::new();
            Step::Continue
        },
    }
}

/// A plan asks for a date only as its second request.
proof fn lemma_date_is_second_request(
    src: Seq<char>,
    action: ActionView,
    home: Seq<char>,
    answers: Seq<ReplyView>,
)
    requires
        handled(src, action, home, answers).step matches StepView::Ask(
            RequestView::FormatDate(_, _, _),
        ),
    ensures
        answers.len() == 1,
{
}

/// A scan that asks for a date awaits it with one reply at hand, and a scan
/// that awaits a reply with one at hand does not ask for a date.
proof fn lemma_scan_asks_for_date_once(
    folder: Seq<char>,
    rule: FolderRuleView,
    home: Seq<char>,
    scan: ScanView,
    processed: Set<Seq<char>>,
    movements: Map<Seq<char>, usize>,
    reply: ReplyView,
)
    ensures
        ({
            let out = scan_step(folder, rule, home, scan, processed, movements, reply);
            &&& out.step matches StepView::Ask(RequestView::FormatDate(_, _, _)) ==> out.scan.stage
                == Stage::Awaiting && out.scan.answers.len() == 1
            &&& scan.stage == Stage::Awaiting && scan.answers.len() == 1 ==> !(out.step
                matches StepView::Ask(RequestView::FormatDate(_, _, _)))
        }),
{
    let out = scan_step(folder, rule, home, scan, processed, movements, reply);
    if scan.stage == Stage::Acting || scan.stage == Stage::Awaiting {
        let answers = if scan.stage == Stage::Acting {
            scan.answers
        } else {
            scan.answers.push(reply)
        };
        if current_path(scan) is Some && scan.action < rule.actions.len() {
            let done = handled(
                current_path(scan)->Some_0,
                rule.actions[scan.action as int],
                home,
                answers,
            );
            if done.step matches StepView::Ask(RequestView::FormatDate(_, _, _)) {
                lemma_date_is_second_request(
                    current_path(scan)->Some_0,
                    rule.actions[scan.action as int],
                    home,
                    answers,
                );
            }
        }
    }
}

/// A date is asked for once: the step that takes the rendered date as its
/// reply does not ask for another.
pub proof fn lemma_date_is_asked_once(
    config: RuleView,
    home: Seq<char>,
    pass: PassView,
    reply: ReplyView,
    date: Option<Seq<char>>,
)
    requires
        pass_step(config, home, pass, reply).step matches StepView::Ask(
            RequestView::FormatDate(_, _, _),
        ),
    ensures
        !(pass_step(
            config,
            home,
            pass_step(config, home, pass, reply).pass,
            ReplyView::Date(date),
        ).step matches StepView::Ask(RequestView::FormatDate(_, _, _))),
{
    reveal(pass_step);
    let first = pass_step(config, home, pass, reply);
    let folder = config.folders[pass.folder as int];
    let rule = folder.rules[pass.rule as int];
    lemma_scan_asks_for_date_once(
        folder.path,
        rule,
        home,
        pass.scan,
        pass.processed,
        pass.movements,
        reply,
    );
    lemma_scan_asks_for_date_once(
        folder.path,
        rule,
        home,
        first.pass.scan,
        first.pass.processed,
        first.pass.movements,
        ReplyView::Date(date),
    );
}

/// `chrono`'s rendering of an instant in the local time zone:
/// `DateTime::from_timestamp`, `DateTime::with_timezone` to `Local`,
/// `DateTime::format` with `pattern`, written out by
/// `DelayedFormat::write_to`. The result depends on the time zone of the
/// machine, so the contract claims nothing of it; `None` comes back where
/// `write_to` reports an item of the pattern that it cannot render. The
/// instants are limited to the years 0000 to 9999: there `from_timestamp`
/// succeeds and the zone lookup of `Local` stays within its arithmetic
/// range. The time zone of the machine is taken to be one that `chrono` can
/// apply, with an offset of less than a day.
#[verifier::external_body]
fn local_date_text(secs: i64, nanos: u32, pattern: &str) -> (text: Option<String>)
    requires
        formattable(secs, nanos),
{
    let utc = chrono::DateTime::from_timestamp(secs, nanos)?;
    let mut text = String::new();
    match utc.with_timezone(&chrono::Local).format(pattern).write_to(&mut text) {
        Ok(_) => Some(text),
        Err(_) => None,
    }
}

/// Advances the pass by one step, as [`advance`] does, and renders the date
/// itself when that step asks for one: the caller is never asked to format
/// a date. Whatever the rendering gave is then the reply to a second step.
pub fn run_orderly(
    config: &Rule,
    home: &str,
    pass: &mut Pass,
    reply: Reply,
    log: &mut Vec<String>,
) -> (step: Step)
    ensures
        ({
            let first = pass_step(config@, home@, old(pass)@, reply@);
            match first.step {
                StepView::Ask(RequestView::FormatDate(secs, nanos, pattern)) => exists|
                    date: Option<Seq<char>>,
                |
                    {
                        let second = #[trigger] pass_step(
                            config@,
                            home@,
                            first.pass,
                            ReplyView::Date(date),
                        );
                        &&& final(pass)@ == second.pass
                        &&& final(log).deep_view() == old(log).deep_view() + first.records
                            + second.records
                        &&& step@ == second.step
                    },
                _ => {
                    &&& final(pass)@ == first.pass
                    &&& final(log).deep_view() == old(log).deep_view() + first.records
                    &&& step@ == first.step
                },
            }
        }),
        !(step@ matches StepView::Ask(RequestView::FormatDate(_, _, _))),
        !(step@ is Failed),
        well_formed(old(pass)@) ==> well_formed(final(pass)@),
{
    let step = advance(config, home, pass, reply, log);
    match step {
        Step::Ask(Request::FormatDate(secs, nanos, pattern)) => {
            let date = if is_formattable(secs, nanos) {
                local_date_text(secs, nanos, pattern.as_str())
            } else {
                None
            };
            let step = advance(config, home, pass, Reply::Date(date), log);
            proof {
                let first = pass_step(config@, home@, old(pass)@, reply@);
                let second = pass_step(
                    config@,
                    home@,
                    first.pass,
                    ReplyView::Date(date.deep_view()),
                );
                assert(pass@ == second.pass);
                assert(step@ == second.step);
                assert(log.deep_view() =~= old(log).deep_view() + first.records + second.records);
                lemma_date_is_asked_once(config@, home@, old(pass)@, reply@, date.deep_view());
            }
            step
        },
        step => step,
    }
}

/// What `init` sets up: the path of the rule file, and the example rule set
/// to write there.
pub fn init_orderly() -> (r: (String, Rule))
    ensures
        r.0@ == example_path(),
        r.1@ == example_rule(),
{
    ("rules/example.yaml".to_owned(), create_example_rule())
}

} // verus!
