//! Conditions select files. Each is a predicate over a directory entry: its
//! path as text, and whether it is a regular file.

use vstd::prelude::*;
use vstd::string::*;
use crate::error::{ErrorView, OrderlyError};
use crate::paths::{extension, extension_of, file_name, file_name_of};
use crate::text::{
    contains, contains_text, lemma_empty_text_occurs_everywhere, occurs_at, same_text,
    split_trimmed, trimmed_tokens,
};

verus! {

/// What a condition may read of a directory entry.
#[derive(Debug, Clone, PartialEq, Eq)]
pub struct FileEntry {
    /// The full path of the entry.
    pub path: String,
    /// Whether the path exists and is a regular file.
    pub is_file: bool,
}

/// A predicate over directory entries.
pub trait Condition {
    /// Whether the condition selects the entry with this path.
    spec fn holds(&self, path: Seq<char>, is_file: bool) -> bool;

    /// Whether the condition selects `entry`.
    fn evaluate(&self, entry: &FileEntry) -> (hit: bool)
        ensures
            hit == self.holds(entry.path@, entry.is_file),
    ;
}

/// Selects every regular file.
#[derive(Debug, Clone, PartialEq, Eq)]
pub struct Always;

/// Selects the entries whose final path component is exactly `name`.
#[derive(Debug, Clone, PartialEq, Eq)]
pub struct NameEquals {
    pub name: String,
}

/// Selects the entries whose extension is one of `extensions`.
#[derive(Debug, Clone, PartialEq, Eq)]
pub struct ExtensionIn {
    pub extensions: Vec<String>,
}

/// Selects the entries whose full path holds `substring`.
#[derive(Debug, Clone, PartialEq, Eq)]
pub struct NameContains {
    pub substring: String,
}

impl Condition for Always {
    open spec fn holds(&self, path: Seq<char>, is_file: bool) -> bool {
        is_file
    }

    fn evaluate(&self, entry: &FileEntry) -> (hit: bool) {
        entry.is_file
    }
}

impl Condition for NameEquals {
    open spec fn holds(&self, path: Seq<char>, is_file: bool) -> bool {
        file_name_of(path) == Some(self.name@)
    }

    fn evaluate(&self, entry: &FileEntry) -> (hit: bool) {
        match file_name(entry.path.as_str()) {
            Some(name) => name == self.name,
            None => false,
        }
    }
}

/// `items` holds `item`.
pub fn has_text(items: &Vec<String>, item: &String) -> (found: bool)
    ensures
        found == items.deep_view().contains(item@),
{
    let mut i: usize = 0;
    while i < items.len()
        invariant
            i <= items.len(),
            forall|k: int| 0 <= k < i ==> items.deep_view()[k] != item@,
        decreases items.len() - i,
    {
        assert(items.deep_view()[i as int] == items@[i as int]@);
        if items[i] == *item {
            return true;
        }
        i += 1;
    }
    false
}

impl Condition for ExtensionIn {
    open spec fn holds(&self, path: Seq<char>, is_file: bool) -> bool {
        match extension_of(path) {
            Some(ext) => self.extensions.deep_view().contains(ext),
            None => false,
        }
    }

    fn evaluate(&self, entry: &FileEntry) -> (hit: bool) {
        match extension(entry.path.as_str()) {
            Some(ext) => has_text(&self.extensions, &ext),
            None => false,
        }
    }
}

impl Condition for NameContains {
    open spec fn holds(&self, path: Seq<char>, is_file: bool) -> bool {
        contains_text(path, self.substring@)
    }

    fn evaluate(&self, entry: &FileEntry) -> (hit: bool) {
        contains(entry.path.as_str(), self.substring.as_str())
    }
}

/// Any one of the four conditions.
#[derive(Debug, Clone, PartialEq, Eq)]
pub enum Matcher {
    Always(Always),
    NameEquals(NameEquals),
    ExtensionIn(ExtensionIn),
    NameContains(NameContains),
}

/// The mathematical content of a [`Matcher`].
pub enum MatcherView {
    Always,
    NameEquals(Seq<char>),
    ExtensionIn(Seq<Seq<char>>),
    NameContains(Seq<char>),
}

impl View for Matcher {
    type V = MatcherView;

    open spec fn view(&self) -> MatcherView {
        match self {
            Matcher::Always(_) => MatcherView::Always,
            Matcher::NameEquals(c) => MatcherView::NameEquals(c.name@),
            Matcher::ExtensionIn(c) => MatcherView::ExtensionIn(c.extensions.deep_view()),
            Matcher::NameContains(c) => MatcherView::NameContains(c.substring@),
        }
    }
}

impl DeepView for Matcher {
    type V = MatcherView;

    open spec fn deep_view(&self) -> MatcherView {
        self@
    }
}

/// Whether `matcher` selects the entry with this path.
pub open spec fn selects(matcher: MatcherView, path: Seq<char>, is_file: bool) -> bool {
    match matcher {
        MatcherView::Always => is_file,
        MatcherView::NameEquals(name) => file_name_of(path) == Some(name),
        MatcherView::ExtensionIn(extensions) => match extension_of(path) {
            Some(ext) => extensions.contains(ext),
            None => false,
        },
        MatcherView::NameContains(substring) => contains_text(path, substring),
    }
}

impl Condition for Matcher {
    open spec fn holds(&self, path: Seq<char>, is_file: bool) -> bool {
        selects(self@, path, is_file)
    }

    fn evaluate(&self, entry: &FileEntry) -> (hit: bool) {
        match self {
            Matcher::Always(c) => c.evaluate(entry),
            Matcher::NameEquals(c) => c.evaluate(entry),
            Matcher::ExtensionIn(c) => c.evaluate(entry),
            Matcher::NameContains(c) => c.evaluate(entry),
        }
    }
}

impl Matcher {
    /// Whether the verdict depends on the entry being a regular file.
    pub fn reads_file_kind(&self) -> (r: bool)
        ensures
            r == (self@ is Always),
    {
        match self {
            Matcher::Always(_) => true,
            _ => false,
        }
    }
}

/// The condition that a kind and its value stand for. The kinds are
/// `always`, `name`, `extension` (a comma-separated list, each item trimmed)
/// and `name_contains`; any other kind is an error.
pub open spec fn compiled(condition_type: Seq<char>, value: Seq<char>) -> Result<
    MatcherView,
    ErrorView,
> {
    if condition_type == "always"@ {
        Ok(MatcherView::Always)
    } else if condition_type == "name"@ {
        Ok(MatcherView::NameEquals(value))
    } else if condition_type == "extension"@ {
        Ok(MatcherView::ExtensionIn(trimmed_tokens(value)))
    } else if condition_type == "name_contains"@ {
        Ok(MatcherView::NameContains(value))
    } else {
        Err(ErrorView::InvalidConditionType(condition_type))
    }
}

/// Builds the condition that `condition_type` and `value` stand for.
pub fn create_condition(condition_type: &str, value: &str) -> (r: Result<Matcher, OrderlyError>)
    ensures
        match r {
            Ok(m) => compiled(condition_type@, value@) == Ok::<MatcherView, ErrorView>(m@),
            Err(e) => compiled(condition_type@, value@) == Err::<MatcherView, ErrorView>(e@),
        },
{
    if same_text(condition_type, "always") {
        Ok(Matcher::Always(Always))
    } else if same_text(condition_type, "name") {
        Ok(Matcher::NameEquals(NameEquals { name: value.to_owned() }))
    } else if same_text(condition_type, "extension") {
        Ok(Matcher::ExtensionIn(ExtensionIn { extensions: split_trimmed(value) }))
    } else if same_text(condition_type, "name_contains") {
        Ok(Matcher::NameContains(NameContains { substring: value.to_owned() }))
    } else {
        Err(OrderlyError::InvalidConditionType(condition_type.to_owned()))
    }
}

/// The conditions of a rule, compiled in order; the first unknown kind is
/// the error of the whole.
pub open spec fn compiled_all(conditions: Seq<crate::config::ConditionView>) -> Result<
    Seq<MatcherView>,
    ErrorView,
>
    decreases conditions.len(),
{
    if conditions.len() == 0 {
        Ok(Seq::empty())
    } else {
        match compiled_all(conditions.drop_last()) {
            Err(e) => Err(e),
            Ok(matchers) => match compiled(
                conditions.last().condition_type,
                conditions.last().value,
            ) {
                Err(e) => Err(e),
                Ok(m) => Ok(matchers.push(m)),
            },
        }
    }
}

/// Compiles the conditions of a rule, once, before any file is looked at.
pub fn create_conditions(conditions: &Vec<crate::config::Condition>) -> (r: Result<
    Vec<Matcher>,
    OrderlyError,
>)
    ensures
        match r {
            Ok(ms) => compiled_all(conditions.deep_view()) == Ok::<Seq<MatcherView>, ErrorView>(
                ms.deep_view(),
            ),
            Err(e) => compiled_all(conditions.deep_view()) == Err::<Seq<MatcherView>, ErrorView>(
                e@,
            ),
        },
{
    let mut matchers: Vec<Matcher> = Vec::new();
    let mut i: usize = 0;
    let ghost all = conditions.deep_view();
    assert(matchers.deep_view() =~= Seq::empty());
    while i < conditions.len()
        invariant
            i <= conditions.len(),
            all == conditions.deep_view(),
            compiled_all(all.subrange(0, i as int)) == Ok::<Seq<MatcherView>, ErrorView>(
                matchers.deep_view(),
            ),
        decreases conditions.len() - i,
    {
        let ghost next = all.subrange(0, i + 1);
        assert(next.drop_last() =~= all.subrange(0, i as int));
        let c = &conditions[i];
        match create_condition(c.condition_type.as_str(), c.value.as_str()) {
            Ok(m) => {
                let ghost before = matchers.deep_view();
                matchers.push(m);
                assert(matchers.deep_view() =~= before.push(m@));
            },
            Err(e) => {
                proof {
                    lemma_compiled_all_fails_early(all, i + 1);
                }
                return Err(e);
            },
        }
        i += 1;
    }
    assert(all.subrange(0, i as int) =~= all);
    Ok(matchers)
}

/// Once a prefix of the conditions fails to compile, the whole fails with
/// the same error.
pub proof fn lemma_compiled_all_fails_early(conditions: Seq<crate::config::ConditionView>, n: int)
    requires
        0 <= n <= conditions.len(),
        compiled_all(conditions.subrange(0, n)) is Err,
    ensures
        compiled_all(conditions) == compiled_all(conditions.subrange(0, n)),
    decreases conditions.len(),
{
    if n < conditions.len() {
        assert(conditions.drop_last().subrange(0, n) =~= conditions.subrange(0, n));
        lemma_compiled_all_fails_early(conditions.drop_last(), n);
    } else {
        assert(conditions.subrange(0, n) =~= conditions);
    }
}

/// When all conditions compile, there is one matcher per condition, each
/// the compilation of its own condition.
pub proof fn lemma_compiled_all_pointwise(conditions: Seq<crate::config::ConditionView>)
    requires
        compiled_all(conditions) is Ok,
    ensures
        compiled_all(conditions)->Ok_0.len() == conditions.len(),
        forall|i: int|
            0 <= i < conditions.len() ==> compiled(
                #[trigger] conditions[i].condition_type,
                conditions[i].value,
            ) == Ok::<MatcherView, ErrorView>(compiled_all(conditions)->Ok_0[i]),
    decreases conditions.len(),
{
    if conditions.len() > 0 {
        lemma_compiled_all_pointwise(conditions.drop_last());
        assert forall|i: int| 0 <= i < conditions.len() implies compiled(
            #[trigger] conditions[i].condition_type,
            conditions[i].value,
        ) == Ok::<MatcherView, ErrorView>(compiled_all(conditions)->Ok_0[i]) by {
            if i < conditions.len() - 1 {
                assert(conditions.drop_last()[i] == conditions[i]);
            }
        }
    }
}

/// An `always` condition selects every regular file and nothing else,
/// whatever the path.
pub proof fn lemma_always_selects_regular_files(path: Seq<char>, is_file: bool)
    ensures
        selects(MatcherView::Always, path, is_file) == is_file,
{
}

/// An `extension` condition selects a path exactly when the path has an
/// extension and that extension is, character for character, one of the
/// listed ones: nothing is folded to another case, and a path without an
/// extension is never selected.
pub proof fn lemma_extension_must_match_exactly(
    extensions: Seq<Seq<char>>,
    path: Seq<char>,
    is_file: bool,
)
    ensures
        selects(MatcherView::ExtensionIn(extensions), path, is_file) <==> (extension_of(path)
            matches Some(ext) && exists|i: int|
            0 <= i < extensions.len() && #[trigger] extensions[i] == ext),
        extension_of(path) is None ==> !selects(
            MatcherView::ExtensionIn(extensions),
            path,
            is_file,
        ),
{
}

/// A `name_contains` condition selects a path exactly when the substring
/// stands somewhere in the whole path, character for character.
pub proof fn lemma_substring_selects_where_it_occurs(
    substring: Seq<char>,
    path: Seq<char>,
    is_file: bool,
)
    ensures
        selects(MatcherView::NameContains(substring), path, is_file) <==> exists|i: int|
            0 <= i && i + substring.len() <= path.len() && #[trigger] path.subrange(
                i,
                i + substring.len(),
            ) == substring,
{
    if selects(MatcherView::NameContains(substring), path, is_file) {
        let i = choose|i: int| occurs_at(path, substring, i);
    }
    if exists|i: int|
        0 <= i && i + substring.len() <= path.len() && #[trigger] path.subrange(
            i,
            i + substring.len(),
        ) == substring {
        let i = choose|i: int|
            0 <= i && i + substring.len() <= path.len() && #[trigger] path.subrange(
                i,
                i + substring.len(),
            ) == substring;
        assert(occurs_at(path, substring, i));
    }
}

/// A `name_contains` condition with an empty substring selects every path.
pub proof fn lemma_empty_substring_selects_all(path: Seq<char>, is_file: bool)
    ensures
        selects(MatcherView::NameContains(Seq::empty()), path, is_file),
{
    lemma_empty_text_occurs_everywhere(path);
}

} // verus!
