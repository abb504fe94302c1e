//! Text, counted in characters: comparing, trimming, splitting at commas
//! and searching.

use vstd::prelude::*;
use vstd::string::*;

verus! {

/// The characters of `s`, in order, for constant-time indexing.
pub fn chars_of(s: &str) -> (v: Vec<char>)
    ensures
        v@ == s@,
{
    let mut v: Vec<char> = Vec::new();
    for c in it: s.chars()
        invariant
            v@ == s@.subrange(0, it.index() as int),
            it.seq() == s@,
    {
        v.push(c);
    }
    v
}

/// The owned text `s[from..to]`, counted in characters.
pub fn slice_of(s: &str, from: usize, to: usize) -> (r: String)
    requires
        from <= to <= s@.len(),
    ensures
        r@ == s@.subrange(from as int, to as int),
{
    s.substring_char(from, to).to_owned()
}

/// `prefix` followed by `rest`.
pub fn prefixed(prefix: &str, rest: &str) -> (line: String)
    ensures
        line@ == prefix@ + rest@,
{
    let mut line = prefix.to_owned();
    line.append(rest);
    line
}

/// Whether two texts hold the same characters.
pub fn same_text(a: &str, b: &str) -> (r: bool)
    ensures
        r == (a@ == b@),
{
    let x = chars_of(a);
    let y = chars_of(b);
    if x.len() != y.len() {
        return false;
    }
    let mut i: usize = 0;
    while i < x.len()
        invariant
            i <= x.len(),
            x.len() == y.len(),
            x@ == a@,
            y@ == b@,
            forall|k: int| 0 <= k < i ==> x@[k] == y@[k],
        decreases x.len() - i,
    {
        if x[i] != y[i] {
            return false;
        }
        i += 1;
    }
    assert(x@ =~= y@);
    true
}

// ---------------------------------------------------------------------------
// Whitespace and trimming
// ---------------------------------------------------------------------------

/// The characters with the Unicode property `White_Space`.
pub open spec fn whitespace(c: char) -> bool {
    let n = c as u32;
    ||| n == 0x20
    ||| 0x09 <= n <= 0x0d
    ||| n == 0x85
    ||| n == 0xa0
    ||| n == 0x1680
    ||| 0x2000 <= n <= 0x200a
    ||| n == 0x2028
    ||| n == 0x2029
    ||| n == 0x202f
    ||| n == 0x205f
    ||| n == 0x3000
}

/// Whether `c` is whitespace.
pub fn is_whitespace(c: char) -> (r: bool)
    ensures
        r == whitespace(c),
{
    let n: u32 = c as u32;
    n == 0x20 || (0x09 <= n && n <= 0x0d) || n == 0x85 || n == 0xa0 || n == 0x1680 || (0x2000 <= n
        && n <= 0x200a) || n == 0x2028 || n == 0x2029 || n == 0x202f || n == 0x205f || n == 0x3000
}

/// The first index at or after `i` that holds no whitespace (`s.len()` when
/// there is none).
pub open spec fn skip_whitespace(s: Seq<char>, i: int) -> int
    decreases s.len() - i,
{
    if 0 <= i < s.len() && whitespace(s[i]) {
        skip_whitespace(s, i + 1)
    } else {
        i
    }
}

/// The end of `s[from..to]` once its trailing whitespace is dropped.
pub open spec fn strip_whitespace(s: Seq<char>, from: int, to: int) -> int
    decreases to,
{
    if from < to <= s.len() && 0 < to && whitespace(s[to - 1]) {
        strip_whitespace(s, from, to - 1)
    } else {
        to
    }
}

/// `s` without its leading and trailing whitespace.
pub open spec fn trimmed(s: Seq<char>) -> Seq<char> {
    let from = skip_whitespace(s, 0);
    let to = strip_whitespace(s, from, s.len() as int);
    s.subrange(from, to)
}

/// The bounds `(from, to)` of `chars[lo..hi]` once trimmed.
fn trim_bounds(chars: &Vec<char>, lo: usize, hi: usize) -> (r: (usize, usize))
    requires
        lo <= hi <= chars.len(),
    ensures
        lo <= r.0 <= r.1 <= hi,
        chars@.subrange(r.0 as int, r.1 as int) == trimmed(chars@.subrange(lo as int, hi as int)),
{
    let ghost s = chars@.subrange(lo as int, hi as int);
    let mut from: usize = lo;
    while from < hi && is_whitespace(chars[from])
        invariant
            lo <= from <= hi <= chars.len(),
            s == chars@.subrange(lo as int, hi as int),
            skip_whitespace(s, 0) == skip_whitespace(s, from - lo),
        decreases hi - from,
    {
        from += 1;
    }
    let mut to: usize = hi;
    while from < to && is_whitespace(chars[to - 1])
        invariant
            lo <= from <= to <= hi <= chars.len(),
            s == chars@.subrange(lo as int, hi as int),
            from - lo == skip_whitespace(s, 0),
            strip_whitespace(s, from - lo, s.len() as int) == strip_whitespace(
                s,
                from - lo,
                to - lo,
            ),
        decreases to,
    {
        to -= 1;
    }
    (from, to)
}

proof fn lemma_skip_whitespace(s: Seq<char>, i: int)
    requires
        0 <= i <= s.len(),
    ensures
        i <= skip_whitespace(s, i) <= s.len(),
        forall|k: int| i <= k < skip_whitespace(s, i) ==> whitespace(s[k]),
        skip_whitespace(s, i) < s.len() ==> !whitespace(s[skip_whitespace(s, i)]),
    decreases s.len() - i,
{
    if i < s.len() && whitespace(s[i]) {
        lemma_skip_whitespace(s, i + 1);
    }
}

proof fn lemma_strip_whitespace(s: Seq<char>, from: int, to: int)
    requires
        0 <= from <= to <= s.len(),
    ensures
        from <= strip_whitespace(s, from, to) <= to,
        forall|k: int| strip_whitespace(s, from, to) <= k < to ==> whitespace(s[k]),
        from < strip_whitespace(s, from, to) ==> !whitespace(s[strip_whitespace(s, from, to) - 1]),
    decreases to,
{
    if from < to && whitespace(s[to - 1]) {
        lemma_strip_whitespace(s, from, to - 1);
    }
}

/// What trimming gives: the stretch `s[from..to]` such that all before
/// `from` and all from `to` on is whitespace, while the stretch itself, if
/// it is not empty, neither begins nor ends with whitespace.
pub proof fn lemma_trimmed_is_the_core(s: Seq<char>)
    ensures
        ({
            let from = skip_whitespace(s, 0);
            let to = strip_whitespace(s, from, s.len() as int);
            &&& 0 <= from <= to <= s.len()
            &&& trimmed(s) == s.subrange(from, to)
            &&& forall|k: int| 0 <= k < from ==> whitespace(s[k])
            &&& forall|k: int| to <= k < s.len() ==> whitespace(s[k])
            &&& from < to ==> !whitespace(s[from]) && !whitespace(s[to - 1])
        }),
{
    lemma_skip_whitespace(s, 0);
    lemma_strip_whitespace(s, skip_whitespace(s, 0), s.len() as int);
}

// ---------------------------------------------------------------------------
// Comma-separated lists
// ---------------------------------------------------------------------------

/// The pieces of `s` between its commas: one more piece than commas, so the
/// empty text has the single piece `""`.
pub open spec fn comma_tokens(s: Seq<char>) -> Seq<Seq<char>>
    decreases s.len(),
{
    if s.len() == 0 {
        seq![Seq::<char>::empty()]
    } else {
        let before = comma_tokens(s.drop_last());
        if s.last() == ',' {
            before.push(Seq::<char>::empty())
        } else {
            before.drop_last().push(before.last().push(s.last()))
        }
    }
}

/// The comma-separated items of `s`, each trimmed.
pub open spec fn trimmed_tokens(s: Seq<char>) -> Seq<Seq<char>> {
    comma_tokens(s).map_values(|t: Seq<char>| trimmed(t))
}

/// The pieces with a comma between each two.
pub open spec fn comma_joined(pieces: Seq<Seq<char>>) -> Seq<char>
    decreases pieces.len(),
{
    if pieces.len() == 0 {
        Seq::empty()
    } else if pieces.len() == 1 {
        pieces[0]
    } else {
        comma_joined(pieces.drop_last()) + seq![','] + pieces.last()
    }
}

/// What splitting gives: pieces that hold no comma and that, with a comma
/// between each two, make up the text again.
pub proof fn lemma_comma_tokens_split_at_commas(s: Seq<char>)
    ensures
        comma_tokens(s).len() >= 1,
        comma_joined(comma_tokens(s)) == s,
        forall|i: int, k: int|
            0 <= i < comma_tokens(s).len() && 0 <= k < comma_tokens(s)[i].len()
                ==> comma_tokens(s)[i][k] != ',',
    decreases s.len(),
{
    if s.len() == 0 {
        assert(comma_joined(comma_tokens(s)) =~= s);
    } else {
        let before = comma_tokens(s.drop_last());
        let pieces = comma_tokens(s);
        lemma_comma_tokens_split_at_commas(s.drop_last());
        assert(s.drop_last().push(s.last()) =~= s);
        if s.last() == ',' {
            assert(pieces.drop_last() =~= before);
            assert(comma_joined(pieces) =~= s.drop_last().push(','));
        } else {
            let grown = before.last().push(s.last());
            assert(pieces.last() == grown);
            if before.len() == 1 {
                assert(comma_joined(pieces) =~= s.drop_last().push(s.last()));
            } else {
                assert(pieces.drop_last() =~= before.drop_last());
                assert(comma_joined(pieces) =~= comma_joined(before).push(s.last()));
            }
            assert forall|i: int, k: int|
                0 <= i < pieces.len() && 0 <= k < pieces[i].len() implies pieces[i][k]
                != ',' by {
                if i < pieces.len() - 1 {
                    assert(pieces[i] == before[i]);
                } else if k < grown.len() - 1 {
                    assert(pieces[i][k] == before.last()[k]);
                }
            }
        }
    }
}

/// Splits `s` on commas and trims each piece.
pub fn split_trimmed(s: &str) -> (items: Vec<String>)
    ensures
        items.deep_view() == trimmed_tokens(s@),
{
    let chars = chars_of(s);
    let n = chars.len();
    let mut items: Vec<String> = Vec::new();
    let mut start: usize = 0;
    let mut i: usize = 0;
    while i < n
        invariant
            start <= i <= n,
            n == chars.len(),
            chars@ == s@,
            comma_tokens(s@.subrange(0, i as int)).len() == items.len() + 1,
            comma_tokens(s@.subrange(0, i as int)).last() == s@.subrange(start as int, i as int),
            items.deep_view() == trimmed_tokens(s@.subrange(0, i as int)).drop_last(),
        decreases n - i,
    {
        let ghost prefix = s@.subrange(0, i as int);
        let ghost next = s@.subrange(0, i + 1);
        assert(next.drop_last() =~= prefix);
        if chars[i] == ',' {
            let (from, to) = trim_bounds(&chars, start, i);
            let item = slice_of(s, from, to);
            let ghost before = items.deep_view();
            items.push(item);
            assert(items.deep_view() =~= before.push(item@));
            start = i + 1;
        } else {
        }
        i += 1;
    }
    assert(s@.subrange(0, n as int) =~= s@);
    let (from, to) = trim_bounds(&chars, start, n);
    let item = slice_of(s, from, to);
    let ghost before = items.deep_view();
    items.push(item);
    assert(items.deep_view() =~= before.push(item@));
    items
}

// ---------------------------------------------------------------------------
// Substring search
// ---------------------------------------------------------------------------

/// `needle` stands in `hay` at index `i`.
pub open spec fn occurs_at(hay: Seq<char>, needle: Seq<char>, i: int) -> bool {
    &&& 0 <= i
    &&& i + needle.len() <= hay.len()
    &&& hay.subrange(i, i + needle.len()) == needle
}

/// `needle` occurs somewhere in `hay`, character for character.
pub open spec fn contains_text(hay: Seq<char>, needle: Seq<char>) -> bool {
    exists|i: int| occurs_at(hay, needle, i)
}

fn matches_at(hay: &Vec<char>, needle: &Vec<char>, i: usize) -> (r: bool)
    requires
        i + needle.len() <= hay.len(),
    ensures
        r == occurs_at(hay@, needle@, i as int),
{
    let mut k: usize = 0;
    while k < needle.len()
        invariant
            k <= needle.len(),
            i + needle.len() <= hay.len(),
            forall|j: int| 0 <= j < k ==> hay@[i + j] == needle@[j],
        decreases needle.len() - k,
    {
        if hay[i + k] != needle[k] {
            return false;
        }
        k += 1;
    }
    assert(hay@.subrange(i as int, i + needle.len()) =~= needle@);
    true
}

/// Whether `needle` occurs in `hay`.
pub fn contains(hay: &str, needle: &str) -> (r: bool)
    ensures
        r == contains_text(hay@, needle@),
{
    let h = chars_of(hay);
    let n = chars_of(needle);
    if n.len() == 0 {
        proof {
            assert(needle@ =~= Seq::<char>::empty());
            lemma_empty_text_occurs_everywhere(hay@);
        }
        return true;
    }
    if n.len() > h.len() {
        return false;
    }
    let last: usize = h.len() - n.len();
    let mut i: usize = 0;
    while i <= last
        invariant
            i <= last + 1,
            last == h.len() - n.len(),
            0 < n.len() <= h.len(),
            h@ == hay@,
            n@ == needle@,
            forall|k: int| 0 <= k < i ==> !occurs_at(hay@, needle@, k),
        decreases last + 1 - i,
    {
        if matches_at(&h, &n, i) {
            return true;
        }
        i += 1;
    }
    false
}

/// The empty text occurs in every text.
pub proof fn lemma_empty_text_occurs_everywhere(hay: Seq<char>)
    ensures
        contains_text(hay, Seq::<char>::empty()),
{
    assert(hay.subrange(0, 0) =~= Seq::<char>::empty());
    assert(occurs_at(hay, Seq::<char>::empty(), 0));
}

} // verus!
