//! Unicode white space and the trimming of text.

use vstd::prelude::*;

verus! {

/// Whether `c` has the Unicode property `White_Space`.
pub open spec fn is_whitespace(c: char) -> bool {
    let n = c as u32;
    ||| 0x09 <= n <= 0x0D
    ||| n == 0x20
    ||| n == 0x85
    ||| n == 0xA0
    ||| n == 0x1680
    ||| 0x2000 <= n <= 0x200A
    ||| n == 0x2028
    ||| n == 0x2029
    ||| n == 0x202F
    ||| n == 0x205F
    ||| n == 0x3000
}

/// `s` without the white space it begins with.
pub open spec fn trimmed_start(s: Seq<char>) -> Seq<char>
    decreases s.len(),
{
    if s.len() > 0 && is_whitespace(s[0]) {
        trimmed_start(s.drop_first())
    } else {
        s
    }
}

/// `s` without the white space it ends with.
pub open spec fn trimmed_end(s: Seq<char>) -> Seq<char>
    decreases s.len(),
{
    if s.len() > 0 && is_whitespace(s.last()) {
        trimmed_end(s.drop_last())
    } else {
        s
    }
}

/// `s` without the white space at either end.
pub open spec fn trimmed(s: Seq<char>) -> Seq<char> {
    trimmed_end(trimmed_start(s))
}

/// Whether `s` holds nothing but white space.
pub open spec fn is_blank(s: Seq<char>) -> bool {
    forall|i: int| 0 <= i < s.len() ==> is_whitespace(#[trigger] s[i])
}

/// Whether `c` is a white space character.
pub fn is_whitespace_char(c: char) -> (r: bool)
    ensures
        r == is_whitespace(c),
{
    let n: u32 = c as u32;
    (0x09 <= n && n <= 0x0D) || n == 0x20 || n == 0x85 || n == 0xA0 || n == 0x1680 || (0x2000 <= n
        && n <= 0x200A) || n == 0x2028 || n == 0x2029 || n == 0x202F || n == 0x205F || n == 0x3000
}

/// What `trimmed_start` leaves, given where the first character that is not
/// white space stands.
pub proof fn lemma_trimmed_start_at(s: Seq<char>, a: int)
    requires
        0 <= a <= s.len(),
        forall|i: int| 0 <= i < a ==> is_whitespace(#[trigger] s[i]),
        a < s.len() ==> !is_whitespace(s[a]),
    ensures
        trimmed_start(s) == s.subrange(a, s.len() as int),
    decreases a,
{
    if a == 0 {
        assert(s.subrange(0, s.len() as int) =~= s);
    } else {
        let t = s.drop_first();
        assert(forall|i: int| 0 <= i < a - 1 ==> is_whitespace(#[trigger] t[i]) == is_whitespace(
            s[i + 1],
        ));
        lemma_trimmed_start_at(t, a - 1);
        assert(t.subrange(a - 1, t.len() as int) =~= s.subrange(a, s.len() as int));
    }
}

/// What `trimmed_end` leaves, given where the last character that is not
/// white space stands.
pub proof fn lemma_trimmed_end_at(s: Seq<char>, b: int)
    requires
        0 <= b <= s.len(),
        forall|i: int| b <= i < s.len() ==> is_whitespace(#[trigger] s[i]),
        0 < b ==> !is_whitespace(s[b - 1]),
    ensures
        trimmed_end(s) == s.subrange(0, b),
    decreases s.len() - b,
{
    if b == s.len() {
        assert(s.subrange(0, b) =~= s);
    } else {
        let t = s.drop_last();
        lemma_trimmed_end_at(t, b);
        assert(t.subrange(0, b) =~= s.subrange(0, b));
    }
}

/// Trimming keeps the stretch from the first to the last character that is
/// not white space, and nothing where there is none.
pub proof fn lemma_trimmed_between(s: Seq<char>, a: int, b: int)
    requires
        0 <= a <= b <= s.len(),
        forall|i: int| 0 <= i < a ==> is_whitespace(#[trigger] s[i]),
        forall|i: int| b <= i < s.len() ==> is_whitespace(#[trigger] s[i]),
        a < b ==> !is_whitespace(s[a]) && !is_whitespace(s[b - 1]),
        a == b ==> b == s.len(),
    ensures
        trimmed(s) == s.subrange(a, b),
{
    lemma_trimmed_start_at(s, a);
    let t = s.subrange(a, s.len() as int);
    lemma_trimmed_end_at(t, b - a);
    assert(t.subrange(0, b - a) =~= s.subrange(a, b));
}

/// `s` without the white space at either end.
pub fn trim<'a>(s: &'a str) -> (r: &'a str)
    ensures
        r@ == trimmed(s@),
{
    let n: usize = s.unicode_len();
    let mut start: usize = 0;
    let mut end: usize = 0;
    let mut i: usize = 0;
    for c in it: s.chars()
        invariant
            it.seq() == s@,
            n == s@.len(),
            i == it.index(),
            start <= end <= i <= n,
            forall|k: int| 0 <= k < start ==> is_whitespace(#[trigger] s@[k]),
            forall|k: int| end <= k < i ==> is_whitespace(#[trigger] s@[k]),
            start < end ==> !is_whitespace(s@[start as int]) && !is_whitespace(s@[end - 1]),
            start == end ==> end == i,
    {
        if is_whitespace_char(c) {
            if start == end {
                start = i + 1;
                end = i + 1;
            }
        } else {
            if start == end {
                start = i;
            }
            end = i + 1;
        }
        i = i + 1;
    }
    proof {
        lemma_trimmed_between(s@, start as int, end as int);
    }
    s.substring_char(start, end)
}

/// The number of white space characters that `s` begins with.
pub open spec fn leading_whitespace(s: Seq<char>) -> int {
    s.len() - trimmed_start(s).len()
}

/// `trimmed_start` drops a run of white space from the front and stops at
/// the first character that is none.
pub proof fn lemma_trimmed_start_shape(s: Seq<char>)
    ensures
        0 <= leading_whitespace(s) <= s.len(),
        trimmed_start(s) == s.subrange(leading_whitespace(s), s.len() as int),
        forall|i: int| 0 <= i < leading_whitespace(s) ==> is_whitespace(#[trigger] s[i]),
        trimmed_start(s).len() > 0 ==> !is_whitespace(trimmed_start(s)[0]),
    decreases s.len(),
{
    if s.len() > 0 && is_whitespace(s[0]) {
        let t = s.drop_first();
        lemma_trimmed_start_shape(t);
        let k = leading_whitespace(t);
        assert(t.subrange(k, t.len() as int) =~= s.subrange(k + 1, s.len() as int));
        assert forall|i: int| 0 <= i < leading_whitespace(s) implies is_whitespace(
            #[trigger] s[i],
        ) by {
            if i > 0 {
                assert(s[i] == t[i - 1]);
            }
        }
    } else {
        assert(s.subrange(0, s.len() as int) =~= s);
    }
}

/// `trimmed_end` drops a run of white space from the back and stops at the
/// last character that is none.
pub proof fn lemma_trimmed_end_shape(s: Seq<char>)
    ensures
        trimmed_end(s).len() <= s.len(),
        trimmed_end(s) == s.subrange(0, trimmed_end(s).len() as int),
        forall|i: int| trimmed_end(s).len() <= i < s.len() ==> is_whitespace(#[trigger] s[i]),
        trimmed_end(s).len() > 0 ==> !is_whitespace(trimmed_end(s).last()),
    decreases s.len(),
{
    if s.len() > 0 && is_whitespace(s.last()) {
        let t = s.drop_last();
        lemma_trimmed_end_shape(t);
        let k = trimmed_end(t).len() as int;
        assert(t.subrange(0, k) =~= s.subrange(0, k));
        assert forall|i: int| k <= i < s.len() implies is_whitespace(#[trigger] s[i]) by {
            if i < t.len() {
                assert(s[i] == t[i]);
            }
        }
    } else {
        assert(s.subrange(0, s.len() as int) =~= s);
    }
}

/// Trimming cuts a text down to one stretch of it: what goes is white space,
/// and what stays neither begins nor ends with white space.
pub proof fn lemma_trimmed_shape(s: Seq<char>)
    ensures
        0 <= leading_whitespace(s) <= leading_whitespace(s) + trimmed(s).len() <= s.len(),
        trimmed(s) == s.subrange(
            leading_whitespace(s),
            leading_whitespace(s) + trimmed(s).len(),
        ),
        forall|i: int| 0 <= i < leading_whitespace(s) ==> is_whitespace(#[trigger] s[i]),
        forall|i: int|
            leading_whitespace(s) + trimmed(s).len() <= i < s.len() ==> is_whitespace(
                #[trigger] s[i],
            ),
        trimmed(s).len() > 0 ==> !is_whitespace(trimmed(s).first()) && !is_whitespace(
            trimmed(s).last(),
        ),
{
    lemma_trimmed_start_shape(s);
    let a = leading_whitespace(s);
    let t = trimmed_start(s);
    lemma_trimmed_end_shape(t);
    let n = trimmed(s).len() as int;
    assert(t.subrange(0, n) =~= s.subrange(a, a + n));
    assert forall|i: int| a + n <= i < s.len() implies is_whitespace(#[trigger] s[i]) by {
        assert(s[i] == t[i - a]);
    }
    if n > 0 {
        assert(trimmed(s).first() == t[0]);
    }
}

/// Trimming leaves nothing exactly of the texts that are all white space.
pub proof fn lemma_trimmed_empty_iff_blank(s: Seq<char>)
    ensures
        trimmed(s).len() == 0 <==> is_blank(s),
{
    lemma_trimmed_shape(s);
    if is_blank(s) {
        lemma_trimmed_between(s, s.len() as int, s.len() as int);
    }
    if trimmed(s).len() > 0 {
        let a = leading_whitespace(s);
        assert(trimmed(s).first() == s[a]);
    }
}

/// A text that neither begins nor ends with white space is its own trimming.
pub proof fn lemma_trimmed_fixed(s: Seq<char>)
    requires
        s.len() > 0 ==> !is_whitespace(s.first()) && !is_whitespace(s.last()),
    ensures
        trimmed(s) == s,
{
    lemma_trimmed_between(s, 0, s.len() as int);
    assert(s.subrange(0, s.len() as int) =~= s);
}

/// Trimming twice is trimming once.
pub proof fn lemma_trimmed_idempotent(s: Seq<char>)
    ensures
        trimmed(trimmed(s)) == trimmed(s),
{
    lemma_trimmed_shape(s);
    lemma_trimmed_fixed(trimmed(s));
}

} // verus!
