//! Text comparison.

use vstd::prelude::*;

verus! {

/// The Unicode property White_Space.
pub open spec fn white_space(c: char) -> bool {
    let n = c as u32;
    ||| 0x09 <= n <= 0x0D
    ||| n == 0x20
    ||| n == 0x85
    ||| n == 0xA0
    ||| n == 0x1680
    ||| 0x2000 <= n <= 0x200A
    ||| n == 0x2028
    ||| n == 0x2029
    ||| n == 0x202F
    ||| n == 0x205F
    ||| n == 0x3000
}

/// `s` without white space at its start.
pub open spec fn trim_start(s: Seq<char>) -> Seq<char>
    decreases s.len(),
{
    if s.len() > 0 && white_space(s[0]) {
        trim_start(s.skip(1))
    } else {
        s
    }
}

/// `s` without white space at its end.
pub open spec fn trim_end(s: Seq<char>) -> Seq<char>
    decreases s.len(),
{
    if s.len() > 0 && white_space(s.last()) {
        trim_end(s.drop_last())
    } else {
        s
    }
}

/// `s` without white space at either end.
pub open spec fn trimmed(s: Seq<char>) -> Seq<char> {
    trim_end(trim_start(s))
}

/// The lower case of an ASCII letter; any other character itself.
pub open spec fn ascii_lower(c: char) -> char {
    if 'A' <= c <= 'Z' {
        (c as u32 + 32) as char
    } else {
        c
    }
}

/// `s` with ASCII letters in lower case.
pub open spec fn lowered(s: Seq<char>) -> Seq<char> {
    s.map_values(|c: char| ascii_lower(c))
}

/// Whether `c` is white space.
pub fn is_white_space(c: char) -> (r: bool)
    ensures
        r == white_space(c),
{
    let n: u32 = c as u32;
    (0x09 <= n && n <= 0x0D) || n == 0x20 || n == 0x85 || n == 0xA0 || n == 0x1680 || (0x2000 <= n
        && n <= 0x200A) || n == 0x2028 || n == 0x2029 || n == 0x202F || n == 0x205F || n == 0x3000
}

/// Whether two texts are equal.
pub fn same_text(a: &str, b: &str) -> (r: bool)
    ensures
        r == (a@ == b@),
{
    let n: usize = a.unicode_len();
    if n != b.unicode_len() {
        return false;
    }
    let mut i: usize = 0;
    while i < n
        invariant
            i <= n,
            n == a@.len(),
            n == b@.len(),
            forall|k: int| 0 <= k < i ==> a@[k] == b@[k],
        decreases n - i,
    {
        if a.get_char(i) != b.get_char(i) {
            return false;
        }
        i = i + 1;
    }
    proof {
        assert(a@ =~= b@);
    }
    true
}

/// Whether `a`, trimmed and in lower case, is `b`.
pub fn same_word(a: &str, b: &str) -> (r: bool)
    ensures
        r == (lowered(trimmed(a@)) == b@),
{
    let n: usize = a.unicode_len();
    let mut start: usize = 0;
    proof {
        assert(a@.skip(0) =~= a@);
    }
    while start < n && is_white_space(a.get_char(start))
        invariant
            start <= n,
            n == a@.len(),
            trim_start(a@) == trim_start(a@.skip(start as int)),
        decreases n - start,
    {
        proof {
            assert(a@.skip(start as int).skip(1) =~= a@.skip(start + 1));
        }
        start = start + 1;
    }
    let ghost front = a@.skip(start as int);
    assert(trim_start(a@) == front);
    let mut end: usize = n;
    proof {
        assert(a@.subrange(start as int, n as int) =~= front);
    }
    while start < end && is_white_space(a.get_char(end - 1))
        invariant
            start <= end <= n,
            n == a@.len(),
            trim_end(front) == trim_end(a@.subrange(start as int, end as int)),
        decreases end - start,
    {
        proof {
            assert(a@.subrange(start as int, end as int).drop_last() =~= a@.subrange(
                start as int,
                end - 1,
            ));
        }
        end = end - 1;
    }
    let ghost word = a@.subrange(start as int, end as int);
    assert(trimmed(a@) == word);
    let len: usize = end - start;
    if len != b.unicode_len() {
        return false;
    }
    let mut i: usize = 0;
    while i < len
        invariant
            i <= len,
            len == end - start,
            end <= a@.len(),
            len == b@.len(),
            word == a@.subrange(start as int, end as int),
            trimmed(a@) == word,
            forall|k: int| 0 <= k < i ==> lowered(word)[k] == b@[k],
        decreases len - i,
    {
        let c: char = a.get_char(start + i);
        let d: char = b.get_char(i);
        let n: u32 = c as u32;
        let m: u32 = d as u32;
        let lower: u32 = if 0x41 <= n && n <= 0x5A { n + 32 } else { n };
        proof {
            assert(word[i as int] == c);
            assert(lowered(word)[i as int] == ascii_lower(c));
        }
        if lower != m {
            return false;
        }
        i = i + 1;
    }
    proof {
        assert(lowered(word) =~= b@);
    }
    true
}

/// Lowering changes no white space.
proof fn trim_start_lowered(a: Seq<char>)
    ensures
        trim_start(lowered(a)) == lowered(trim_start(a)),
    decreases a.len(),
{
    if a.len() > 0 {
        assert(lowered(a)[0] == ascii_lower(a[0]));
        if white_space(a[0]) {
            trim_start_lowered(a.skip(1));
            assert(lowered(a).skip(1) =~= lowered(a.skip(1)));
        }
    }
}

/// Lowering changes no white space.
proof fn trim_end_lowered(a: Seq<char>)
    ensures
        trim_end(lowered(a)) == lowered(trim_end(a)),
    decreases a.len(),
{
    if a.len() > 0 {
        assert(lowered(a).last() == ascii_lower(a.last()));
        if white_space(a.last()) {
            trim_end_lowered(a.drop_last());
            assert(lowered(a).drop_last() =~= lowered(a.drop_last()));
        }
    }
}

/// Texts that differ in case alone are the same word.
pub proof fn words_ignore_case(a: Seq<char>, b: Seq<char>)
    requires
        lowered(a) == lowered(b),
    ensures
        lowered(trimmed(a)) == lowered(trimmed(b)),
{
    trim_start_lowered(a);
    trim_start_lowered(b);
    trim_end_lowered(trim_start(a));
    trim_end_lowered(trim_start(b));
}

/// White space around a text does not change its word.
pub proof fn words_ignore_space_around(a: Seq<char>, c: char)
    requires
        white_space(c),
    ensures
        trimmed(seq![c] + a) == trimmed(a),
        trimmed(a + seq![c]) == trimmed(a),
    decreases a.len(),
{
    assert((seq![c] + a).skip(1) =~= a);
    assert((a + seq![c]).drop_last() =~= a);
    if a.len() == 0 {
        assert(a + seq![c] =~= seq![c] + a);
    } else if white_space(a[0]) {
        words_ignore_space_around(a.skip(1), c);
        assert((a + seq![c]).skip(1) =~= a.skip(1) + seq![c]);
    } else {
        assert((a + seq![c])[0] == a[0]);
    }
}

/// Nothing is left to trim at the start once it was trimmed.
proof fn lemma_start_trimmed(a: Seq<char>)
    ensures
        trim_start(trim_start(a)) == trim_start(a),
    decreases a.len(),
{
    if a.len() > 0 && white_space(a[0]) {
        lemma_start_trimmed(a.skip(1));
    }
}

/// Trimming the end keeps a start that needs no trimming, and leaves an end that
/// needs none.
proof fn lemma_end_trimmed(a: Seq<char>)
    requires
        trim_start(a) == a,
    ensures
        trim_start(trim_end(a)) == trim_end(a),
        trim_end(trim_end(a)) == trim_end(a),
    decreases a.len(),
{
    if a.len() > 0 && white_space(a.last()) {
        let shorter = a.drop_last();
        if white_space(a[0]) {
            lemma_trim_start_shortens(a.skip(1));
            assert(false);
        }
        assert(shorter.len() > 0 ==> shorter[0] == a[0]);
        lemma_end_trimmed(shorter);
    }
}

/// Trimming adds nothing.
proof fn lemma_trim_start_shortens(a: Seq<char>)
    ensures
        trim_start(a).len() <= a.len(),
    decreases a.len(),
{
    if a.len() > 0 && white_space(a[0]) {
        lemma_trim_start_shortens(a.skip(1));
    }
}

/// Trimming twice is trimming once.
pub proof fn trimmed_once(a: Seq<char>)
    ensures
        trimmed(trimmed(a)) == trimmed(a),
{
    lemma_start_trimmed(a);
    lemma_end_trimmed(trim_start(a));
}

/// Trimming cuts white space off both ends and nothing else: what is left is a part of
/// the text that neither begins nor ends with white space, and all that is cut off is
/// white space.
pub proof fn trimming_cuts_white_space(a: Seq<char>)
    ensures
        exists|i: int, j: int| cut_out(a, i, j, trimmed(a)),
        trimmed(a).len() > 0 ==> !white_space(trimmed(a)[0]) && !white_space(trimmed(a).last()),
{
    let i = lemma_start_cut(a);
    let front = trim_start(a);
    let j = lemma_end_cut(front);
    assert(a.skip(i).take(j) =~= a.subrange(i, i + j));
    assert forall|k: int| 0 <= k < i || i + j <= k < a.len() implies white_space(
        #[trigger] a[k],
    ) by {
        if k >= i {
            assert(front[k - i] == a[k]);
        }
    }
    assert(cut_out(a, i, i + j, trimmed(a)));
    if trimmed(a).len() > 0 {
        assert(trimmed(a)[0] == front[0]);
    }
}

/// `part` stands in `a` from `i` to `j`, with white space around it.
pub open spec fn cut_out(a: Seq<char>, i: int, j: int, part: Seq<char>) -> bool {
    &&& 0 <= i <= j <= a.len()
    &&& part == a.subrange(i, j)
    &&& forall|k: int| 0 <= k < i || j <= k < a.len() ==> white_space(#[trigger] a[k])
}

/// Where trimming at the start cuts.
proof fn lemma_start_cut(a: Seq<char>) -> (i: int)
    ensures
        0 <= i <= a.len(),
        trim_start(a) == a.skip(i),
        forall|k: int| 0 <= k < i ==> white_space(#[trigger] a[k]),
        i < a.len() ==> !white_space(a[i]),
    decreases a.len(),
{
    if a.len() > 0 && white_space(a[0]) {
        let rest = a.skip(1);
        let i = lemma_start_cut(rest);
        assert(rest.skip(i) =~= a.skip(i + 1));
        assert forall|k: int| 0 <= k < i + 1 implies white_space(#[trigger] a[k]) by {
            if k > 0 {
                assert(rest[k - 1] == a[k]);
            }
        }
        i + 1
    } else {
        assert(a.skip(0) =~= a);
        0
    }
}

/// Where trimming at the end cuts.
proof fn lemma_end_cut(a: Seq<char>) -> (j: int)
    ensures
        0 <= j <= a.len(),
        trim_end(a) == a.take(j),
        forall|k: int| j <= k < a.len() ==> white_space(#[trigger] a[k]),
        j > 0 ==> !white_space(a[j - 1]),
    decreases a.len(),
{
    if a.len() > 0 && white_space(a.last()) {
        let rest = a.drop_last();
        let j = lemma_end_cut(rest);
        assert(rest.take(j) =~= a.take(j));
        assert forall|k: int| j <= k < a.len() implies white_space(#[trigger] a[k]) by {
            if k < rest.len() {
                assert(rest[k] == a[k]);
            }
        }
        j
    } else {
        assert(a.take(a.len() as int) =~= a);
        a.len() as int
    }
}

/// Of the ASCII characters, tab to carriage return and the space are white space, and no
/// printed character is.
pub proof fn printed_characters_are_no_space(c: char)
    ensures
        0x21 <= c as u32 <= 0x7E ==> !white_space(c),
        c == ' ' || 0x09 <= c as u32 <= 0x0D ==> white_space(c),
        (c as u32) < 0x09 ==> !white_space(c),
{
}

/// Lowering moves capital letters to their small ones and leaves every other character
/// as it is, and keeps the length of a text.
pub proof fn lowering_is_for_capitals(c: char, s: Seq<char>)
    ensures
        'A' <= c <= 'Z' ==> ascii_lower(c) as u32 == c as u32 + ('a' as u32 - 'A' as u32),
        !('A' <= c <= 'Z') ==> ascii_lower(c) == c,
        lowered(s).len() == s.len(),
        forall|i: int| 0 <= i < s.len() ==> lowered(s)[i] == ascii_lower(s[i]),
        lowered(lowered(s)) == lowered(s),
{
    assert(lowered(lowered(s)) =~= lowered(s));
}

} // verus!
