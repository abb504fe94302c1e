//! Paths as text. A path is a sequence of characters in which `/` separates
//! the components; empty components and `.` components carry no name.

use vstd::prelude::*;
use vstd::string::*;
use crate::text::{chars_of, slice_of};

verus! {

/// The index of the last `c` in `s`, or `-1` when `s` holds none.
pub open spec fn last_index_of(s: Seq<char>, c: char) -> int
    decreases s.len(),
{
    if s.len() == 0 {
        -1
    } else if s.last() == c {
        s.len() - 1
    } else {
        last_index_of(s.drop_last(), c)
    }
}

/// What [`last_index_of`] gives: an index that holds `c` and after which no
/// `c` stands, or `-1` when there is no `c` at all.
pub proof fn lemma_last_index_of_bounds(s: Seq<char>, c: char)
    ensures
        -1 <= last_index_of(s, c) < s.len(),
        last_index_of(s, c) >= 0 ==> s[last_index_of(s, c)] == c,
        forall|k: int| last_index_of(s, c) < k < s.len() ==> s[k] != c,
    decreases s.len(),
{
    if s.len() > 0 && s.last() != c {
        lemma_last_index_of_bounds(s.drop_last(), c);
        assert forall|k: int| last_index_of(s, c) < k < s.len() implies s[k] != c by {
            if k < s.len() - 1 {
                assert(s.drop_last()[k] == s[k]);
            }
        }
    }
}

/// The final component of `path`: the text after its last `/`, where trailing
/// separators and `.` components are passed over. A path that ends in `..`,
/// or that has no named component at all, has none.
pub open spec fn file_name_of(path: Seq<char>) -> Option<Seq<char>>
    decreases path.len(),
{
    let cut = last_index_of(path, '/');
    let last = path.subrange(cut + 1, path.len() as int);
    if last.len() == 0 || last == seq!['.'] {
        if 0 <= cut < path.len() {
            file_name_of(path.subrange(0, cut))
        } else {
            None
        }
    } else if last == seq!['.', '.'] {
        None
    } else {
        Some(last)
    }
}

/// A final component is a plain name: it is not empty, it is neither `.`
/// nor `..`, and it holds no separator.
pub proof fn lemma_file_name_is_a_plain_name(path: Seq<char>)
    ensures
        file_name_of(path) matches Some(name) ==> {
            &&& name.len() > 0
            &&& name != seq!['.']
            &&& name != seq!['.', '.']
            &&& forall|k: int| 0 <= k < name.len() ==> name[k] != '/'
        },
    decreases path.len(),
{
    let cut = last_index_of(path, '/');
    let last = path.subrange(cut + 1, path.len() as int);
    lemma_last_index_of_bounds(path, '/');
    if last.len() == 0 || last == seq!['.'] {
        if 0 <= cut < path.len() {
            lemma_file_name_is_a_plain_name(path.subrange(0, cut));
        }
    }
}

/// The extension of `path`: what follows the last `.` of its final component,
/// provided that dot is not the component's first character.
pub open spec fn extension_of(path: Seq<char>) -> Option<Seq<char>> {
    match file_name_of(path) {
        None => None,
        Some(name) => {
            let dot = last_index_of(name, '.');
            if dot <= 0 {
                None
            } else {
                Some(name.subrange(dot + 1, name.len() as int))
            }
        },
    }
}

/// `rest` appended to `base` as a further component. An absolute `rest`
/// stands for itself; a separator is added unless `base` is empty or ends in
/// one.
pub open spec fn joined(base: Seq<char>, rest: Seq<char>) -> Seq<char> {
    if rest.len() > 0 && rest[0] == '/' {
        rest
    } else if base.len() == 0 || base.last() == '/' {
        base + rest
    } else {
        base + seq!['/'] + rest
    }
}

/// `template` with a leading `~` replaced by `home`.
pub open spec fn expanded_home(template: Seq<char>, home: Seq<char>) -> Seq<char> {
    if template.len() > 0 && template[0] == '~' {
        home + template.subrange(1, template.len() as int)
    } else {
        template
    }
}

/// The index of the last `c` in `chars[..end]`.
fn rfind(chars: &Vec<char>, end: usize, c: char) -> (r: Option<usize>)
    requires
        end <= chars.len(),
    ensures
        match r {
            Some(i) => i < end && last_index_of(chars@.subrange(0, end as int), c) == i,
            None => last_index_of(chars@.subrange(0, end as int), c) == -1,
        },
{
    let mut j: usize = end;
    while j > 0
        invariant
            j <= end <= chars.len(),
            last_index_of(chars@.subrange(0, end as int), c) == last_index_of(
                chars@.subrange(0, j as int),
                c,
            ),
        decreases j,
    {
        assert(chars@.subrange(0, j as int).drop_last() =~= chars@.subrange(0, j - 1));
        if chars[j - 1] == c {
            return Some(j - 1);
        }
        j -= 1;
    }
    None
}

/// The bounds of the final component of `chars`, if it has one.
fn file_name_bounds(chars: &Vec<char>) -> (r: Option<(usize, usize)>)
    ensures
        match r {
            Some((from, to)) => from <= to <= chars.len() && file_name_of(chars@) == Some(
                chars@.subrange(from as int, to as int),
            ),
            None => file_name_of(chars@) is None,
        },
{
    let mut end: usize = chars.len();
    assert(chars@.subrange(0, end as int) =~= chars@);
    loop
        invariant
            end <= chars.len(),
            file_name_of(chars@) == file_name_of(chars@.subrange(0, end as int)),
        decreases end,
    {
        let ghost head = chars@.subrange(0, end as int);
        let cut = rfind(chars, end, '/');
        let start: usize = match cut {
            Some(i) => i + 1,
            None => 0,
        };
        let len: usize = end - start;
        let ghost last = head.subrange(start as int, end as int);
        let nameless = len == 0 || (len == 1 && chars[start] == '.');
        assert(nameless == (last.len() == 0 || last == seq!['.'])) by {
            if len == 1 && chars[start as int] == '.' {
                assert(last =~= seq!['.']);
            }
            if last == seq!['.'] {
                assert(seq!['.'].len() == 1 && seq!['.'][0] == '.');
            }
        }
        if nameless {
            match cut {
                Some(i) => {
                    assert(head.subrange(0, i as int) =~= chars@.subrange(0, i as int));
                    end = i;
                },
                None => {
                    return None;
                },
            }
        } else {
            let parent = len == 2 && chars[start] == '.' && chars[start + 1] == '.';
            assert(parent == (last == seq!['.', '.'])) by {
                if parent {
                    assert(last =~= seq!['.', '.']);
                }
                if last == seq!['.', '.'] {
                    assert(seq!['.', '.'].len() == 2 && seq!['.', '.'][0] == '.' && seq![
                        '.',
                        '.',
                    ][1] == '.');
                }
            }
            if parent {
                return None;
            }
            return Some((start, end));
        }
    }
}

/// The final component of `path`.
pub fn file_name(path: &str) -> (name: Option<String>)
    ensures
        name.deep_view() == file_name_of(path@),
{
    let chars = chars_of(path);
    match file_name_bounds(&chars) {
        Some((from, to)) => Some(slice_of(path, from, to)),
        None => None,
    }
}

/// The extension of `path`.
pub fn extension(path: &str) -> (ext: Option<String>)
    ensures
        ext.deep_view() == extension_of(path@),
{
    let chars = chars_of(path);
    match file_name_bounds(&chars) {
        None => None,
        Some((from, to)) => {
            let ghost name = chars@.subrange(from as int, to as int);
            let mut j: usize = to;
            assert(name.subrange(0, j - from) =~= name);
            while j > from
                invariant
                    from <= j <= to <= chars.len(),
                    chars@ == path@,
                    file_name_of(path@) == Some(name),
                    name == chars@.subrange(from as int, to as int),
                    last_index_of(name, '.') == last_index_of(name.subrange(0, j - from), '.'),
                decreases j,
            {
                assert(name.subrange(0, j - from).drop_last() =~= name.subrange(0, j - 1 - from));
                if chars[j - 1] == '.' {
                    if j - 1 == from {
                        return None;
                    }
                    return Some(slice_of(path, j, to));
                }
                j -= 1;
            }
            None
        },
    }
}

/// `rest` appended to `base` as a further component.
pub fn join(base: &str, rest: &str) -> (path: String)
    ensures
        path@ == joined(base@, rest@),
{
    let r = chars_of(rest);
    if r.len() > 0 && r[0] == '/' {
        return rest.to_owned();
    }
    let b = chars_of(base);
    let mut path = base.to_owned();
    if b.len() > 0 && b[b.len() - 1] != '/' {
        path.append("/");
        proof {
            reveal_strlit("/");
        }
    }
    path.append(rest);
    path
}

/// `template` with a leading `~` replaced by `home`.
pub fn expand_home(template: &str, home: &str) -> (path: String)
    ensures
        path@ == expanded_home(template@, home@),
{
    let t = chars_of(template);
    if t.len() > 0 && t[0] == '~' {
        let mut path = home.to_owned();
        let tail = slice_of(template, 1, t.len());
        path.append(tail.as_str());
        path
    } else {
        template.to_owned()
    }
}

} // verus!
