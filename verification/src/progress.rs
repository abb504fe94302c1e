//! A pass ends. Every step that is not the last brings the pass closer to
//! its end, whatever the file system replies, so that a caller who performs
//! each request and comes back is done after finitely many steps.

use vstd::prelude::*;
use crate::config::{representable, ActionView, FolderRuleView, RuleView};
use crate::effects::{reply_representable, ReplyView};
use crate::engine::{current_path, scan_step, scan_well_formed, ScanView, Stage};
use crate::handlers::handled;
use crate::laws::pass_after;
use crate::pass::{
    fresh_pass, lemma_steps_keep_passes_well_formed, pass_step, well_formed, PassView,
};

verus! {

/// No plan asks for more than this many operations.
pub open spec fn longest_plan() -> nat {
    7
}

/// A plan that has its replies to [`longest_plan`] requests asks for nothing
/// more.
pub proof fn lemma_plans_are_short(
    src: Seq<char>,
    action: ActionView,
    home: Seq<char>,
    answers: Seq<ReplyView>,
)
    requires
        handled(src, action, home, answers).step is Ask,
    ensures
        answers.len() < longest_plan(),
{
}

/// How far a pass is from its end, as a sequence of counters of which an
/// earlier one outweighs all later ones.
pub struct Rank {
    /// The folders not yet left behind.
    pub folders: nat,
    /// The rules of the current folder not yet left behind.
    pub rules: nat,
    /// What the scan has still to ask before it has the entries.
    pub opening: nat,
    /// The entries not yet left behind.
    pub entries: nat,
    /// Whether the current entry is still to be looked at.
    pub entry_pending: nat,
    /// The conditions not yet left behind for the current entry.
    pub conditions: nat,
    /// What is still to do for the current condition.
    pub condition_pending: nat,
    /// The actions not yet left behind for the current match.
    pub actions: nat,
    /// The requests that the current action may still make.
    pub requests: nat,
    /// Whether the current action is still to be taken up.
    pub action_pending: nat,
}

/// `n - i`, or zero when `i` is beyond `n`.
pub open spec fn left(n: nat, i: usize) -> nat {
    if i < n {
        (n - i) as nat
    } else {
        0
    }
}

/// The rank of a scan of a rule with this many actions; the counters of
/// folders and rules are left at zero.
pub open spec fn scan_rank(actions: nat, scan: ScanView) -> Rank {
    Rank {
        folders: 0,
        rules: 0,
        opening: match scan.stage {
            Stage::Start => 3,
            Stage::Probing => 2,
            Stage::Listing => 1,
            _ => 0,
        },
        entries: left(scan.entries.len(), scan.entry),
        entry_pending: if scan.stage == Stage::Entry {
            1
        } else {
            0
        },
        conditions: left(scan.matchers.len(), scan.condition),
        condition_pending: match scan.stage {
            Stage::Condition => 2,
            Stage::Testing => 1,
            _ => 0,
        },
        actions: left(actions, scan.action),
        requests: if scan.answers.len() < longest_plan() {
            (longest_plan() - scan.answers.len()) as nat
        } else {
            0
        },
        action_pending: if scan.stage == Stage::Acting {
            1
        } else {
            0
        },
    }
}

/// The rank of a pass over `config`.
pub open spec fn rank(config: RuleView, pass: PassView) -> Rank {
    if pass.folder < config.folders.len() {
        let folder = config.folders[pass.folder as int];
        let actions = if pass.rule < folder.rules.len() {
            folder.rules[pass.rule as int].actions.len()
        } else {
            0
        };
        Rank {
            folders: left(config.folders.len(), pass.folder),
            rules: left(folder.rules.len(), pass.rule),
            ..scan_rank(actions, pass.scan)
        }
    } else {
        scan_rank(0, pass.scan)
    }
}

/// `after` is closer to the end of the scan than `before`.
pub open spec fn scan_closer(before: Rank, after: Rank) -> bool {
    decreases_to!(
        before.opening,
        before.entries,
        before.entry_pending,
        before.conditions,
        before.condition_pending,
        before.actions,
        before.requests,
        before.action_pending
        =>
        after.opening,
        after.entries,
        after.entry_pending,
        after.conditions,
        after.condition_pending,
        after.actions,
        after.requests,
        after.action_pending
    )
}

/// `after` is closer to the end of the pass than `before`.
pub open spec fn closer(before: Rank, after: Rank) -> bool {
    decreases_to!(
        before.folders,
        before.rules,
        before.opening,
        before.entries,
        before.entry_pending,
        before.conditions,
        before.condition_pending,
        before.actions,
        before.requests,
        before.action_pending
        =>
        after.folders,
        after.rules,
        after.opening,
        after.entries,
        after.entry_pending,
        after.conditions,
        after.condition_pending,
        after.actions,
        after.requests,
        after.action_pending
    )
}

/// A step of a well-formed scan, unless it ends the scan, brings it closer
/// to its end.
pub proof fn lemma_scan_steps_make_progress(
    folder: Seq<char>,
    rule: FolderRuleView,
    home: Seq<char>,
    scan: ScanView,
    processed: Set<Seq<char>>,
    movements: Map<Seq<char>, usize>,
    reply: ReplyView,
)
    requires
        rule.actions.len() <= usize::MAX,
        rule.conditions.len() <= usize::MAX,
        reply_representable(reply),
        scan_well_formed(scan),
    ensures
        ({
            let out = scan_step(folder, rule, home, scan, processed, movements, reply);
            out.step is Ask || out.step is Continue ==> scan_closer(
                scan_rank(rule.actions.len(), scan),
                scan_rank(rule.actions.len(), out.scan),
            )
        }),
{
    if (scan.stage == Stage::Acting || scan.stage == Stage::Awaiting) && current_path(scan) is Some
        && scan.action < rule.actions.len() {
        let answers = if scan.stage == Stage::Acting {
            scan.answers
        } else {
            scan.answers.push(reply)
        };
        let src = current_path(scan)->Some_0;
        let action = rule.actions[scan.action as int];
        if handled(src, action, home, answers).step is Ask {
            lemma_plans_are_short(src, action, home, answers);
        }
    }
}

/// A pass that was begun fresh is well formed at every step, whatever the
/// replies were.
pub proof fn lemma_passes_stay_well_formed(
    config: RuleView,
    home: Seq<char>,
    replies: Seq<ReplyView>,
)
    requires
        representable(config),
        forall|i: int| 0 <= i < replies.len() ==> reply_representable(#[trigger] replies[i]),
    ensures
        well_formed(pass_after(config, home, fresh_pass(), replies)),
    decreases replies.len(),
{
    if replies.len() > 0 {
        lemma_passes_stay_well_formed(config, home, replies.drop_last());
        lemma_steps_keep_passes_well_formed(
            config,
            home,
            pass_after(config, home, fresh_pass(), replies.drop_last()),
            replies.last(),
        );
    }
}

/// Every step but the last brings a well-formed pass closer to its end,
/// whatever the reply was.
pub proof fn lemma_every_step_makes_progress(
    config: RuleView,
    home: Seq<char>,
    pass: PassView,
    reply: ReplyView,
)
    requires
        representable(config),
        reply_representable(reply),
        well_formed(pass),
        !(pass_step(config, home, pass, reply).step is Done),
    ensures
        closer(rank(config, pass), rank(config, pass_step(config, home, pass, reply).pass)),
{
    reveal(pass_step);
    if pass.folder < config.folders.len() && pass.rule
        < config.folders[pass.folder as int].rules.len() {
        let folder = config.folders[pass.folder as int];
        lemma_scan_steps_make_progress(
            folder.path,
            folder.rules[pass.rule as int],
            home,
            pass.scan,
            pass.processed,
            pass.movements,
            reply,
        );
    }
}

} // verus!
