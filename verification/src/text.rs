//! Trimming of text read from the catalog and from the candidates manifest.
//!
//! Catalog responses and manifest fields are compared on trimmed content, so
//! the notion of "trimmed" is pinned down here once: leading and trailing
//! blanks (space, tab, newline, carriage return) are removed.

use vstd::prelude::*;

verus! {

/// A character treated as blank when trimming.
pub open spec fn is_blank(c: char) -> bool {
    c == ' ' || c == '\t' || c == '\n' || c == '\r'
}

/// The sequence without its leading blanks.
pub open spec fn without_leading_blanks(s: Seq<char>) -> Seq<char>
    decreases s.len(),
{
    if s.len() > 0 && is_blank(s[0]) {
        without_leading_blanks(s.drop_first())
    } else {
        s
    }
}

/// The sequence without its trailing blanks.
pub open spec fn without_trailing_blanks(s: Seq<char>) -> Seq<char>
    decreases s.len(),
{
    if s.len() > 0 && is_blank(s.last()) {
        without_trailing_blanks(s.drop_last())
    } else {
        s
    }
}

/// The sequence with both leading and trailing blanks removed.
pub open spec fn trimmed(s: Seq<char>) -> Seq<char> {
    without_trailing_blanks(without_leading_blanks(s))
}

/// Whether `c` is one of the blank characters.
pub fn is_blank_char(c: char) -> (r: bool)
    ensures
        r == is_blank(c),
{
    c == ' ' || c == '\t' || c == '\n' || c == '\r'
}

proof fn lemma_without_leading_blanks_at(s: Seq<char>, i: int)
    requires
        0 <= i <= s.len(),
        forall|k: int| 0 <= k < i ==> is_blank(s[k]),
        i == s.len() || !is_blank(s[i]),
    ensures
        without_leading_blanks(s) == s.subrange(i, s.len() as int),
    decreases i,
{
    if i == 0 {
        assert(s.subrange(0, s.len() as int) =~= s);
    } else {
        let t = s.drop_first();
        lemma_without_leading_blanks_at(t, i - 1);
        assert(t.subrange(i - 1, t.len() as int) =~= s.subrange(i, s.len() as int));
    }
}

proof fn lemma_without_trailing_blanks_at(s: Seq<char>, j: int)
    requires
        0 <= j <= s.len(),
        forall|k: int| j <= k < s.len() ==> is_blank(s[k]),
        j == 0 || !is_blank(s[j - 1]),
    ensures
        without_trailing_blanks(s) == s.subrange(0, j),
    decreases s.len() - j,
{
    if j == s.len() {
        assert(s.subrange(0, j) =~= s);
    } else {
        let t = s.drop_last();
        lemma_without_trailing_blanks_at(t, j);
        assert(t.subrange(0, j) =~= s.subrange(0, j));
    }
}

/// The least index at which a non-blank character stands, or the length when
/// every character is blank.
fn first_non_blank(s: &str) -> (i: usize)
    ensures
        0 <= i <= s@.len(),
        forall|k: int| 0 <= k < i ==> is_blank(s@[k]),
        i == s@.len() || !is_blank(s@[i as int]),
{
    let n = s.unicode_len();
    let mut i: usize = 0;
    while i < n
        invariant
            n == s@.len(),
            i <= n,
            forall|k: int| 0 <= k < i ==> is_blank(s@[k]),
        decreases n - i,
    {
        if !is_blank_char(s.get_char(i)) {
            return i;
        }
        i += 1;
    }
    i
}

/// One past the greatest index at which a non-blank character stands, or zero
/// when every character is blank.
fn end_of_non_blank(s: &str) -> (j: usize)
    ensures
        0 <= j <= s@.len(),
        forall|k: int| j <= k < s@.len() ==> is_blank(s@[k]),
        j == 0 || !is_blank(s@[j - 1]),
{
    let n = s.unicode_len();
    let mut j: usize = n;
    while j > 0
        invariant
            n == s@.len(),
            j <= n,
            forall|k: int| j <= k < n ==> is_blank(s@[k]),
        decreases j,
    {
        if !is_blank_char(s.get_char(j - 1)) {
            return j;
        }
        j -= 1;
    }
    j
}

/// A copy of `s` with leading and trailing blanks removed.
pub fn trim(s: &str) -> (r: String)
    ensures
        r@ == trimmed(s@),
{
    let start = first_non_blank(s);
    if start == s.unicode_len() {
        proof {
            lemma_without_leading_blanks_at(s@, start as int);
            assert(s@.subrange(start as int, s@.len() as int) =~= Seq::<char>::empty());
        }
        String::new()
    } else {
        let end = end_of_non_blank(s);
        proof {
            lemma_without_leading_blanks_at(s@, start as int);
            assert(start < end) by {
                if end <= start {
                    assert(is_blank(s@[start as int]));
                }
            }
            let t = s@.subrange(start as int, s@.len() as int);
            lemma_without_trailing_blanks_at(t, end - start);
            assert(t.subrange(0, end - start) =~= s@.subrange(start as int, end as int));
        }
        let sub = s.substring_char(start, end);
        sub.to_owned()
    }
}

/// The trimmed content of `s`, or `None` when nothing but blanks remains.
pub fn trimmed_content(s: &str) -> (r: Option<String>)
    ensures
        r is Some <==> trimmed(s@).len() > 0,
        r matches Some(t) ==> t@ == trimmed(s@),
{
    let t = trim(s);
    if t.as_str().unicode_len() == 0 {
        None
    } else {
        Some(t)
    }
}

} // verus!
