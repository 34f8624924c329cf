//! Wildcard patterns: `%` stands for any run of characters, `_` for any one.

use vstd::prelude::*;

verus! {

/// Whether `text` matches `pattern`. Every other character of the pattern
/// stands for itself, compared exactly.
pub open spec fn like(pattern: Seq<char>, text: Seq<char>) -> bool
    decreases pattern.len(), text.len(),
{
    if pattern.len() == 0 {
        text.len() == 0
    } else if pattern[0] == '%' {
        like(pattern.drop_first(), text) || (text.len() > 0 && like(pattern, text.drop_first()))
    } else {
        text.len() > 0 && (pattern[0] == '_' || pattern[0] == text[0]) && like(
            pattern.drop_first(),
            text.drop_first(),
        )
    }
}

/// The characters of `s`, in order.
pub fn chars_of(s: &str) -> (v: Vec<char>)
    ensures
        v@ == s@,
{
    let mut v: Vec<char> = Vec::new();
    for c in iter: s.chars()
        invariant
            iter.seq() == s@,
            v@ == iter.seq().take(iter.index()),
    {
        v.push(c);
    }
    assert(s@.take(s@.len() as int) == s@);
    v
}

/// Whether the pattern from its `i`-th character on matches the text from
/// its `k`-th character on.
pub open spec fn like_from(pattern: Seq<char>, i: int, text: Seq<char>, k: int) -> bool {
    like(pattern.skip(i), text.skip(k))
}

/// One step of the definition, on positions: what the pattern from `i`
/// matches is decided by its `i`-th character and by what the pattern
/// from `i + 1` matches.
proof fn lemma_like_from_step(pattern: Seq<char>, i: int, text: Seq<char>, k: int)
    requires
        0 <= i < pattern.len(),
        0 <= k <= text.len(),
    ensures
        like_from(pattern, i, text, k) == if pattern[i] == '%' {
            like_from(pattern, i + 1, text, k) || (k < text.len() && like_from(
                pattern,
                i,
                text,
                k + 1,
            ))
        } else {
            k < text.len() && (pattern[i] == '_' || pattern[i] == text[k]) && like_from(
                pattern,
                i + 1,
                text,
                k + 1,
            )
        },
{
    assert(pattern.skip(i).drop_first() == pattern.skip(i + 1));
    if k < text.len() {
        assert(text.skip(k).drop_first() == text.skip(k + 1));
    }
}

/// Decides whether `text` matches `pattern`, in time proportional to the
/// product of their lengths.
pub fn like_match(pattern: &str, text: &str) -> (b: bool)
    ensures
        b == like(pattern@, text@),
{
    let p = chars_of(pattern);
    let t = chars_of(text);
    let m: usize = p.len();
    let n: usize = t.len();
    // `row[r]` tells whether the pattern from `i` on matches the last `r`
    // characters of the text; at first `i` is the pattern's length.
    let mut row: Vec<bool> = Vec::new();
    row.push(true);
    while row.len() <= n
        invariant
            n == t@.len(),
            m == p@.len(),
            1 <= row@.len() <= n + 1,
            forall|r: int| 0 <= r < row@.len() ==> row@[r] == like_from(p@, m as int, t@, n - r),
        decreases n + 1 - row@.len(),
    {
        row.push(false);
    }
    let mut i: usize = m;
    while i > 0
        invariant
            n == t@.len(),
            m == p@.len(),
            i <= m,
            row@.len() == n + 1,
            forall|r: int| 0 <= r <= n ==> row@[r] == like_from(p@, i as int, t@, n - r),
        decreases i,
    {
        i -= 1;
        let c: char = p[i];
        let mut above: Vec<bool> = Vec::new();
        proof {
            lemma_like_from_step(p@, i as int, t@, n as int);
        }
        above.push(c == '%' && row[0]);
        while above.len() <= n
            invariant
                n == t@.len(),
                m == p@.len(),
                i < m,
                c == p@[i as int],
                row@.len() == n + 1,
                1 <= above@.len() <= n + 1,
                forall|r: int| 0 <= r <= n ==> row@[r] == like_from(p@, i + 1, t@, n - r),
                forall|r: int|
                    0 <= r < above@.len() ==> above@[r] == like_from(p@, i as int, t@, n - r),
            decreases n + 1 - above@.len(),
        {
            let r: usize = above.len();
            proof {
                lemma_like_from_step(p@, i as int, t@, n - r);
            }
            let here: bool = if c == '%' {
                row[r] || above[r - 1]
            } else {
                (c == '_' || c == t[n - r]) && row[r - 1]
            };
            above.push(here);
        }
        row = above;
    }
    assert(p@.skip(0) == p@);
    assert(t@.skip(0) == t@);
    row[n]
}

} // verus!
