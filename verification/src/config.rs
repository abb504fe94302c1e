//! The rule set: folders in declaration order, each with its rules in
//! declaration order.

use vstd::prelude::*;
use vstd::string::*;

verus! {

/// A rule set: the folders to keep tidy.
#[derive(Debug, Clone, PartialEq, Eq)]
pub struct Rule {
    pub name: String,
    pub description: String,
    pub folders: Vec<Folder>,
}

/// A folder and its rules.
#[derive(Debug, Clone, PartialEq, Eq)]
pub struct Folder {
    pub path: String,
    pub match_type: String,
    pub rules: Vec<FolderRule>,
}

/// A named rule: conditions, any one of which selects a file, and actions
/// that are run on each selected file.
#[derive(Debug, Clone, PartialEq, Eq)]
pub struct FolderRule {
    pub name: String,
    pub conditions: Vec<Condition>,
    pub actions: Vec<Action>,
}

/// A condition, by its kind and the value that the kind reads.
#[derive(Debug, Clone, PartialEq, Eq)]
pub struct Condition {
    pub condition_type: String,
    pub value: String,
}

/// An action, by its kind, with the destination and the date pattern that
/// some kinds need.
#[derive(Debug, Clone, PartialEq, Eq)]
pub struct Action {
    pub action_type: String,
    pub path: Option<String>,
    pub pattern: Option<String>,
}

/// The mathematical content of a [`Rule`].
pub struct RuleView {
    pub name: Seq<char>,
    pub description: Seq<char>,
    pub folders: Seq<FolderView>,
}

/// The mathematical content of a [`Folder`].
pub struct FolderView {
    pub path: Seq<char>,
    pub match_type: Seq<char>,
    pub rules: Seq<FolderRuleView>,
}

/// The mathematical content of a [`FolderRule`].
pub struct FolderRuleView {
    pub name: Seq<char>,
    pub conditions: Seq<ConditionView>,
    pub actions: Seq<ActionView>,
}

/// The mathematical content of a [`Condition`].
pub struct ConditionView {
    pub condition_type: Seq<char>,
    pub value: Seq<char>,
}

/// The mathematical content of an [`Action`].
pub struct ActionView {
    pub action_type: Seq<char>,
    pub path: Option<Seq<char>>,
    pub pattern: Option<Seq<char>>,
}

impl View for Condition {
    type V = ConditionView;

    open spec fn view(&self) -> ConditionView {
        ConditionView { condition_type: self.condition_type@, value: self.value@ }
    }
}

impl DeepView for Condition {
    type V = ConditionView;

    open spec fn deep_view(&self) -> ConditionView {
        self@
    }
}

impl View for Action {
    type V = ActionView;

    open spec fn view(&self) -> ActionView {
        ActionView {
            action_type: self.action_type@,
            path: self.path.deep_view(),
            pattern: self.pattern.deep_view(),
        }
    }
}

impl DeepView for Action {
    type V = ActionView;

    open spec fn deep_view(&self) -> ActionView {
        self@
    }
}

impl View for FolderRule {
    type V = FolderRuleView;

    open spec fn view(&self) -> FolderRuleView {
        FolderRuleView {
            name: self.name@,
            conditions: self.conditions.deep_view(),
            actions: self.actions.deep_view(),
        }
    }
}

impl DeepView for FolderRule {
    type V = FolderRuleView;

    open spec fn deep_view(&self) -> FolderRuleView {
        self@
    }
}

impl View for Folder {
    type V = FolderView;

    open spec fn view(&self) -> FolderView {
        FolderView { path: self.path@, match_type: self.match_type@, rules: self.rules.deep_view() }
    }
}

impl DeepView for Folder {
    type V = FolderView;

    open spec fn deep_view(&self) -> FolderView {
        self@
    }
}

impl View for Rule {
    type V = RuleView;

    open spec fn view(&self) -> RuleView {
        RuleView {
            name: self.name@,
            description: self.description@,
            folders: self.folders.deep_view(),
        }
    }
}

/// Every list of the rule set can be held in memory.
pub open spec fn representable(config: RuleView) -> bool {
    &&& config.folders.len() <= usize::MAX
    &&& forall|i: int|
        0 <= i < config.folders.len() ==> (#[trigger] config.folders[i]).rules.len() <= usize::MAX
    &&& forall|i: int, j: int|
        0 <= i < config.folders.len() && 0 <= j < config.folders[i].rules.len() ==> {
            &&& (#[trigger] config.folders[i].rules[j]).actions.len() <= usize::MAX
            &&& config.folders[i].rules[j].conditions.len() <= usize::MAX
        }
}

/// Every rule set that exists at run time is representable.
pub proof fn lemma_rule_sets_are_representable(config: Rule)
    ensures
        representable(config@),
{
    assert(config@.folders.len() == config.folders.len());
    assert forall|i: int| 0 <= i < config@.folders.len() implies (#[trigger] config@.folders[
        i
    ]).rules.len() <= usize::MAX by {
        assert(config@.folders[i] == config.folders@[i]@);
        assert(config.folders@[i]@.rules.len() == config.folders@[i].rules.len());
    }
    assert forall|i: int, j: int|
        0 <= i < config@.folders.len() && 0 <= j < config@.folders[i].rules.len() implies {
        &&& (#[trigger] config@.folders[i].rules[j]).actions.len() <= usize::MAX
        &&& config@.folders[i].rules[j].conditions.len() <= usize::MAX
    } by {
        let rule = config.folders@[i].rules@[j];
        assert(rule@.actions.len() == rule.actions.len());
        assert(rule@.conditions.len() == rule.conditions.len());
    }
}

/// Where the example rule set is kept.
pub open spec fn example_path() -> Seq<char> {
    "rules/example.yaml"@
}

/// A rule with one condition and one action.
pub open spec fn simple_rule(
    name: Seq<char>,
    condition_type: Seq<char>,
    value: Seq<char>,
    action_type: Seq<char>,
    path: Seq<char>,
    pattern: Option<Seq<char>>,
) -> FolderRuleView {
    FolderRuleView {
        name,
        conditions: seq![ConditionView { condition_type, value }],
        actions: seq![ActionView { action_type, path: Some(path), pattern }],
    }
}

/// A folder whose rules apply to all of its files.
pub open spec fn watched(path: Seq<char>, rules: Seq<FolderRuleView>) -> FolderView {
    FolderView { path, match_type: "all"@, rules }
}

/// The rules of the example's desktop folder.
pub open spec fn example_desktop() -> Seq<FolderRuleView> {
    seq![
        simple_rule(
            "Move all files to Downloads"@,
            "always"@,
            ""@,
            "move"@,
            "test_folder/Downloads"@,
            None,
        ),
    ]
}

/// The rules of the example's downloads folder: one per kind of media.
pub open spec fn example_downloads() -> Seq<FolderRuleView> {
    seq![
        simple_rule(
            "Move music files to Music folder"@,
            "extension"@,
            "mp3,flac,wav,ogg,m4a,wma,aac,aiff,aif"@,
            "move"@,
            "test_folder/Music"@,
            None,
        ),
        simple_rule(
            "Move video files to Videos folder"@,
            "extension"@,
            "mp4,mov,avi,wmv,mkv"@,
            "move"@,
            "test_folder/Videos"@,
            None,
        ),
        simple_rule(
            "Move document files to Documents folder"@,
            "extension"@,
            "pdf,txt,doc,docx,xls,xlsx,ppt,pptx"@,
            "move"@,
            "test_folder/Documents"@,
            None,
        ),
        simple_rule(
            "Move picture files to Pictures folder"@,
            "extension"@,
            "jpg,png,gif"@,
            "move"@,
            "test_folder/Pictures"@,
            None,
        ),
    ]
}

/// The rules of the example's pictures folder.
pub open spec fn example_pictures() -> Seq<FolderRuleView> {
    seq![
        simple_rule(
            "Move wallpapers to Wallpapers subfolder"@,
            "name_contains"@,
            "wallpaper"@,
            "move"@,
            "test_folder/Pictures/Wallpapers"@,
            None,
        ),
        simple_rule(
            "Move clearshots to Wallpapers subfolder"@,
            "name_contains"@,
            "clearshot"@,
            "move"@,
            "test_folder/Pictures/Wallpapers"@,
            None,
        ),
        simple_rule(
            "Move screenshots to Screenshots subfolder"@,
            "name_contains"@,
            "screenshot"@,
            "move"@,
            "test_folder/Pictures/Screenshots"@,
            None,
        ),
        simple_rule(
            "Sort images into year/month subfolders"@,
            "extension"@,
            "jpg,png,gif"@,
            "sort_by_date"@,
            "test_folder/Pictures"@,
            Some("%Y/%b"@),
        ),
    ]
}

/// The example rule set: a desktop that empties into downloads, downloads
/// that are sorted by kind, and pictures that are sorted by name and date.
pub open spec fn example_rule() -> RuleView {
    RuleView {
        name: "Orderly Sandbox Rules"@,
        description: "Rules for organizing files in the sandbox environment"@,
        folders: seq![
            watched("test_folder/Desktop"@, example_desktop()),
            watched("test_folder/Downloads"@, example_downloads()),
            watched("test_folder/Pictures"@, example_pictures()),
        ],
    }
}

/// A rule with one condition and one action.
fn rule_of(
    name: &str,
    condition_type: &str,
    value: &str,
    action_type: &str,
    path: &str,
    pattern: Option<&str>,
) -> (rule: FolderRule)
    ensures
        rule@ == simple_rule(
            name@,
            condition_type@,
            value@,
            action_type@,
            path@,
            match pattern {
                Some(p) => Some(p@),
                None => None,
            },
        ),
{
    let pattern = match pattern {
        Some(p) => Some(p.to_owned()),
        None => None,
    };
    let condition = Condition {
        condition_type: condition_type.to_owned(),
        value: value.to_owned(),
    };
    let action = Action {
        action_type: action_type.to_owned(),
        path: Some(path.to_owned()),
        pattern,
    };
    let conditions = vec![condition];
    let actions = vec![action];
    assert(conditions.deep_view() =~= seq![condition@]);
    assert(actions.deep_view() =~= seq![action@]);
    FolderRule { name: name.to_owned(), conditions, actions }
}

/// A folder whose rules apply to all of its files.
fn folder_of(path: &str, rules: Vec<FolderRule>) -> (folder: Folder)
    ensures
        folder@ == watched(path@, rules.deep_view()),
{
    Folder { path: path.to_owned(), match_type: "all".to_owned(), rules }
}

/// The rules of the example's desktop folder.
fn desktop_rules() -> (rules: Vec<FolderRule>)
    ensures
        rules.deep_view() == example_desktop(),
{
    let rules = vec![
        rule_of("Move all files to Downloads", "always", "", "move", "test_folder/Downloads", None),
    ];
    rules
}

/// The rules of the example's downloads folder.
fn downloads_rules() -> (rules: Vec<FolderRule>)
    ensures
        rules.deep_view() == example_downloads(),
{
    let rules = vec![
        rule_of(
            "Move music files to Music folder",
            "extension",
            "mp3,flac,wav,ogg,m4a,wma,aac,aiff,aif",
            "move",
            "test_folder/Music",
            None,
        ),
        rule_of(
            "Move video files to Videos folder",
            "extension",
            "mp4,mov,avi,wmv,mkv",
            "move",
            "test_folder/Videos",
            None,
        ),
        rule_of(
            "Move document files to Documents folder",
            "extension",
            "pdf,txt,doc,docx,xls,xlsx,ppt,pptx",
            "move",
            "test_folder/Documents",
            None,
        ),
        rule_of(
            "Move picture files to Pictures folder",
            "extension",
            "jpg,png,gif",
            "move",
            "test_folder/Pictures",
            None,
        ),
    ];
    rules
}

/// The rules of the example's pictures folder.
fn pictures_rules() -> (rules: Vec<FolderRule>)
    ensures
        rules.deep_view() == example_pictures(),
{
    let rules = vec![
        rule_of(
            "Move wallpapers to Wallpapers subfolder",
            "name_contains",
            "wallpaper",
            "move",
            "test_folder/Pictures/Wallpapers",
            None,
        ),
        rule_of(
            "Move clearshots to Wallpapers subfolder",
            "name_contains",
            "clearshot",
            "move",
            "test_folder/Pictures/Wallpapers",
            None,
        ),
        rule_of(
            "Move screenshots to Screenshots subfolder",
            "name_contains",
            "screenshot",
            "move",
            "test_folder/Pictures/Screenshots",
            None,
        ),
        rule_of(
            "Sort images into year/month subfolders",
            "extension",
            "jpg,png,gif",
            "sort_by_date",
            "test_folder/Pictures",
            Some("%Y/%b"),
        ),
    ];
    rules
}

/// Builds the example rule set.
pub fn create_example_rule() -> (rule: Rule)
    ensures
        rule@ == example_rule(),
{
    let folders = vec![
        folder_of("test_folder/Desktop", desktop_rules()),
        folder_of("test_folder/Downloads", downloads_rules()),
        folder_of("test_folder/Pictures", pictures_rules()),
    ];
    assert(folders.deep_view() =~= example_rule().folders);
    Rule {
        name: "Orderly Sandbox Rules".to_owned(),
        description: "Rules for organizing files in the sandbox environment".to_owned(),
        folders,
    }
}

} // verus!
