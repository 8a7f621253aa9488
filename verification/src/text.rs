//! Text handling shared by the parsers of this crate: comparison, trimming,
//! case folding and search, each stated over the characters of the text.

use vstd::prelude::*;

verus! {

/// Whether `c` has the Unicode property `White_Space`: the controls from
/// tab to carriage return, the space, next line, the no-break space, the
/// ogham space mark, the spaces from en quad to hair space, the line and
/// paragraph separators, the narrow no-break space, the medium mathematical
/// space and the ideographic space.
pub open spec fn white_space(c: char) -> bool {
    let code = c as u32;
    ||| 0x09 <= code <= 0x0d
    ||| code == 0x20
    ||| code == 0x85
    ||| code == 0xa0
    ||| code == 0x1680
    ||| 0x2000 <= code <= 0x200a
    ||| code == 0x2028
    ||| code == 0x2029
    ||| code == 0x202f
    ||| code == 0x205f
    ||| code == 0x3000
}

/// The lowercase form of a text, as Unicode defines it for whole strings.
pub uninterp spec fn lowercase_of(text: Seq<char>) -> Seq<char>;

/// Whether `c` is white space.
pub fn is_whitespace(c: char) -> (r: bool)
    ensures
        r == white_space(c),
{
    let code: u32 = c as u32;
    (0x09 <= code && code <= 0x0d) || code == 0x20 || code == 0x85 || code == 0xa0 || code
        == 0x1680 || (0x2000 <= code && code <= 0x200a) || code == 0x2028 || code == 0x2029
        || code == 0x202f || code == 0x205f || code == 0x3000
}

/// `str::to_lowercase` of std: the lowercase equivalent of the text as a new
/// string. The result depends on the characters alone; the contract names it
/// and claims nothing more.
#[verifier::external_body]
pub(crate) fn to_lowercase(s: &str) -> (r: String)
    ensures
        r@ == lowercase_of(s@),
{
    s.to_lowercase()
}

/// `text` without its leading white space.
pub open spec fn trim_start(text: Seq<char>) -> Seq<char>
    decreases text.len(),
{
    if text.len() > 0 && white_space(text.first()) {
        trim_start(text.drop_first())
    } else {
        text
    }
}

/// `text` without its trailing white space.
pub open spec fn trim_end(text: Seq<char>) -> Seq<char>
    decreases text.len(),
{
    if text.len() > 0 && white_space(text.last()) {
        trim_end(text.drop_last())
    } else {
        text
    }
}

/// `text` without leading and trailing white space.
pub open spec fn trimmed(text: Seq<char>) -> Seq<char> {
    trim_end(trim_start(text))
}

/// `text` without the `c`s at its end.
pub open spec fn strip_trailing(text: Seq<char>, c: char) -> Seq<char>
    decreases text.len(),
{
    if text.len() > 0 && text.last() == c {
        strip_trailing(text.drop_last(), c)
    } else {
        text
    }
}

/// The position of the first `c` in `text`, or the length of `text` where it
/// holds none.
pub open spec fn first_index(text: Seq<char>, c: char) -> int
    decreases text.len(),
{
    if text.len() == 0 {
        0
    } else if text.first() == c {
        0
    } else {
        1 + first_index(text.drop_first(), c)
    }
}

/// A position with no `c` before it, and either `c` at it or nothing after
/// it, is the first index of `c`.
pub proof fn lemma_first_index(text: Seq<char>, c: char, k: int)
    requires
        0 <= k <= text.len(),
        forall|i: int| 0 <= i < k ==> text[i] != c,
        k == text.len() || text[k] == c,
    ensures
        first_index(text, c) == k,
    decreases text.len(),
{
    if k > 0 {
        let rest = text.drop_first();
        assert forall|i: int| 0 <= i < k - 1 implies rest[i] != c by {
            assert(rest[i] == text[i + 1]);
        }
        lemma_first_index(rest, c, k - 1);
    }
}

/// The first index lies within the text or at its end, no `c` stands before
/// it, and where it lies within the text it holds `c`.
pub proof fn lemma_first_index_bounds(text: Seq<char>, c: char)
    ensures
        0 <= first_index(text, c) <= text.len(),
        forall|i: int| 0 <= i < first_index(text, c) ==> text[i] != c,
        first_index(text, c) < text.len() ==> text[first_index(text, c)] == c,
    decreases text.len(),
{
    if text.len() > 0 && text.first() != c {
        let rest = text.drop_first();
        lemma_first_index_bounds(rest, c);
        assert forall|i: int| 0 <= i < first_index(text, c) implies text[i] != c by {
            if i > 0 {
                assert(rest[i - 1] == text[i]);
            }
        }
    }
}

/// Leading white space up to `k`, and none at `k`: trimming the start leaves
/// what begins at `k`.
pub proof fn lemma_trim_start(text: Seq<char>, k: int)
    requires
        0 <= k <= text.len(),
        forall|i: int| 0 <= i < k ==> white_space(text[i]),
        k == text.len() || !white_space(text[k]),
    ensures
        trim_start(text) == text.subrange(k, text.len() as int),
    decreases text.len(),
{
    if k > 0 {
        let rest = text.drop_first();
        assert forall|i: int| 0 <= i < k - 1 implies white_space(rest[i]) by {
            assert(rest[i] == text[i + 1]);
        }
        lemma_trim_start(rest, k - 1);
        assert(rest.subrange(k - 1, rest.len() as int) =~= text.subrange(k, text.len() as int));
    } else {
        assert(text.subrange(0, text.len() as int) =~= text);
    }
}

/// Trailing white space from `k` on, and none before `k`: trimming the end
/// leaves what ends at `k`.
pub proof fn lemma_trim_end(text: Seq<char>, k: int)
    requires
        0 <= k <= text.len(),
        forall|i: int| k <= i < text.len() ==> white_space(text[i]),
        k == 0 || !white_space(text[k - 1]),
    ensures
        trim_end(text) == text.subrange(0, k),
    decreases text.len(),
{
    if k < text.len() {
        let rest = text.drop_last();
        lemma_trim_end(rest, k);
        assert(rest.subrange(0, k) =~= text.subrange(0, k));
    } else {
        assert(text.subrange(0, text.len() as int) =~= text);
    }
}

/// Only `c` from `k` on, and another character before `k`: stripping leaves
/// what ends at `k`.
pub proof fn lemma_strip_trailing(text: Seq<char>, c: char, k: int)
    requires
        0 <= k <= text.len(),
        forall|i: int| k <= i < text.len() ==> text[i] == c,
        k == 0 || text[k - 1] != c,
    ensures
        strip_trailing(text, c) == text.subrange(0, k),
    decreases text.len(),
{
    if k < text.len() {
        let rest = text.drop_last();
        lemma_strip_trailing(rest, c, k);
        assert(rest.subrange(0, k) =~= text.subrange(0, k));
    } else {
        assert(text.subrange(0, text.len() as int) =~= text);
    }
}

/// The characters of `s`, in order.
pub fn chars_of(s: &str) -> (v: Vec<char>)
    ensures
        v@ == s@,
{
    let mut v: Vec<char> = Vec::new();
    for c in it: s.chars()
        invariant
            it.seq() == s@,
            v@ == it.seq().take(it.index() as int),
    {
        v.push(c);
    }
    v
}

/// Whether two texts hold the same characters.
pub fn same_text(a: &str, b: &str) -> (r: bool)
    ensures
        r == (a@ == b@),
{
    let x: String = a.to_owned();
    let y: String = b.to_owned();
    x == y
}

/// The text without leading and trailing white space.
pub fn trim(s: &str) -> (r: &str)
    ensures
        r@ == trimmed(s@),
{
    let chars: Vec<char> = chars_of(s);
    let n: usize = chars.len();
    let mut start: usize = 0;
    while start < n && is_whitespace(chars[start])
        invariant
            start <= n,
            n == chars@.len(),
            forall|i: int| 0 <= i < start ==> white_space(chars@[i]),
        decreases n - start,
    {
        start += 1;
    }
    let mut end: usize = n;
    while end > start && is_whitespace(chars[end - 1])
        invariant
            start <= end <= n,
            n == chars@.len(),
            forall|i: int| end <= i < n ==> white_space(chars@[i]),
        decreases end,
    {
        end -= 1;
    }
    proof {
        let head = s@.subrange(start as int, n as int);
        lemma_trim_start(s@, start as int);
        assert forall|i: int| end - start <= i < head.len() implies white_space(head[i]) by {
            assert(head[i] == s@[i + start]);
        }
        if end > start {
            assert(head[end - start - 1] == s@[end - 1]);
        }
        lemma_trim_end(head, end - start);
        assert(head.subrange(0, end - start) =~= s@.subrange(start as int, end as int));
    }
    s.substring_char(start, end)
}

/// The text without the `c`s at its end.
pub fn trim_end_matches(s: &str, c: char) -> (r: &str)
    ensures
        r@ == strip_trailing(s@, c),
{
    let chars: Vec<char> = chars_of(s);
    let n: usize = chars.len();
    let mut end: usize = n;
    while end > 0 && chars[end - 1] == c
        invariant
            end <= n,
            n == chars@.len(),
            forall|i: int| end <= i < n ==> chars@[i] == c,
        decreases end,
    {
        end -= 1;
    }
    proof {
        lemma_strip_trailing(s@, c, end as int);
    }
    s.substring_char(0, end)
}

/// The position of the first `c` among `chars` at or after `from`, if there
/// is one.
pub fn find_char(chars: &Vec<char>, c: char, from: usize) -> (r: Option<usize>)
    requires
        from <= chars@.len(),
    ensures
        match r {
            Some(i) => from <= i < chars@.len() && first_index(chars@.skip(from as int), c) == i
                - from,
            None => first_index(chars@.skip(from as int), c) == chars@.len() - from,
        },
{
    let n: usize = chars.len();
    let ghost rest = chars@.skip(from as int);
    let mut i: usize = from;
    while i < n
        invariant
            from <= i <= n,
            n == chars@.len(),
            rest == chars@.skip(from as int),
            forall|j: int| 0 <= j < i - from ==> rest[j] != c,
        decreases n - i,
    {
        if chars[i] == c {
            proof {
                lemma_first_index(rest, c, i - from);
            }
            return Some(i);
        }
        i += 1;
    }
    proof {
        lemma_first_index(rest, c, n - from);
    }
    None
}

} // verus!
