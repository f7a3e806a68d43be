//! Text handling for lines typed at an interactive client: Unicode
//! whitespace, trimming, and exact comparison of strings.

use vstd::prelude::*;
use vstd::string::*;

verus! {

/// The Unicode `White_Space` property (PropList.txt): the characters that
/// `str::trim` removes from both ends of a string.
pub open spec fn is_white_space(c: char) -> bool {
    let v = c as u32;
    ||| 0x09 <= v <= 0x0d
    ||| v == 0x20
    ||| v == 0x85
    ||| v == 0xa0
    ||| v == 0x1680
    ||| 0x2000 <= v <= 0x200a
    ||| v == 0x2028
    ||| v == 0x2029
    ||| v == 0x202f
    ||| v == 0x205f
    ||| v == 0x3000
}

/// Number of whitespace characters at the front of `s`.
pub open spec fn trim_start(s: Seq<char>) -> int
    decreases s.len(),
{
    if s.len() == 0 {
        0
    } else if is_white_space(s[0]) {
        1 + trim_start(s.drop_first())
    } else {
        0
    }
}

/// Length of `s` once its trailing whitespace is dropped.
pub open spec fn trim_end(s: Seq<char>) -> int
    decreases s.len(),
{
    if s.len() == 0 {
        0
    } else if is_white_space(s.last()) {
        trim_end(s.drop_last())
    } else {
        s.len() as int
    }
}

/// `s` without its leading and trailing whitespace.
pub open spec fn trimmed(s: Seq<char>) -> Seq<char> {
    if trim_end(s) == 0 {
        Seq::empty()
    } else {
        s.subrange(trim_start(s), trim_end(s))
    }
}

/// Whether `c` has the Unicode `White_Space` property.
pub fn white_space(c: char) -> (b: bool)
    ensures
        b == is_white_space(c),
{
    let v = c as u32;
    (0x09 <= v && v <= 0x0d) || v == 0x20 || v == 0x85 || v == 0xa0 || v == 0x1680 || (0x2000
        <= v && v <= 0x200a) || v == 0x2028 || v == 0x2029 || v == 0x202f || v == 0x205f || v
        == 0x3000
}

proof fn lemma_trim_start_at(s: Seq<char>, i: int)
    requires
        0 <= i <= s.len(),
        forall|k: int| 0 <= k < i ==> is_white_space(#[trigger] s[k]),
        i == s.len() || !is_white_space(s[i]),
    ensures
        trim_start(s) == i,
    decreases i,
{
    if i > 0 {
        let t = s.drop_first();
        assert forall|k: int| 0 <= k < i - 1 implies is_white_space(#[trigger] t[k]) by {
            assert(t[k] == s[k + 1]);
        }
        if i < s.len() {
            assert(t[i - 1] == s[i]);
        }
        lemma_trim_start_at(t, i - 1);
    }
}

proof fn lemma_trim_end_at(s: Seq<char>, j: int)
    requires
        0 <= j <= s.len(),
        forall|k: int| j <= k < s.len() ==> is_white_space(#[trigger] s[k]),
        j == 0 || !is_white_space(s[j - 1]),
    ensures
        trim_end(s) == j,
    decreases s.len(),
{
    if s.len() > 0 {
        if j < s.len() {
            let t = s.drop_last();
            assert(is_white_space(s[s.len() - 1]));
            assert forall|k: int| j <= k < t.len() implies is_white_space(#[trigger] t[k]) by {
                assert(t[k] == s[k]);
            }
            if j > 0 {
                assert(t[j - 1] == s[j - 1]);
            }
            lemma_trim_end_at(t, j);
        }
    }
}

/// `line` without its leading and trailing Unicode whitespace, as
/// `str::trim` gives it.
pub fn trim(line: &str) -> (t: &str)
    ensures
        t@ == trimmed(line@),
{
    let n = line.unicode_len();
    let mut i: usize = 0;
    while i < n && white_space(line.get_char(i))
        invariant
            n == line@.len(),
            i <= n,
            forall|k: int| 0 <= k < i ==> is_white_space(#[trigger] line@[k]),
        decreases n - i,
    {
        i = i + 1;
    }
    proof {
        lemma_trim_start_at(line@, i as int);
    }
    let mut j: usize = n;
    while j > i && white_space(line.get_char(j - 1))
        invariant
            n == line@.len(),
            i <= j <= n,
            forall|k: int| j <= k < n ==> is_white_space(#[trigger] line@[k]),
        decreases j,
    {
        j = j - 1;
    }
    proof {
        // when every character is whitespace the second loop stops at
        // j == i == n, and no character is left
        lemma_trim_end_at(line@, if j == i { 0 } else { j as int });
    }
    line.substring_char(i, j)
}


/// Whether `a` and `b` hold the same characters.
pub fn same_text(a: &str, b: &str) -> (eq: bool)
    ensures
        eq == (a@ == b@),
{
    let n = a.unicode_len();
    if n != b.unicode_len() {
        return false;
    }
    let mut i: usize = 0;
    while i < n
        invariant
            n == a@.len(),
            n == b@.len(),
            i <= n,
            forall|k: int| 0 <= k < i ==> a@[k] == b@[k],
        decreases n - i,
    {
        if a.get_char(i) != b.get_char(i) {
            return false;
        }
        i = i + 1;
    }
    assert(a@ =~= b@);
    true
}

/// Trimming twice gives what trimming once gives.
pub proof fn law_trim_idempotent(s: Seq<char>)
    ensures
        trimmed(trimmed(s)) == trimmed(s),
{
    let t = trimmed(s);
    law_trimmed_edges(s);
    if t.len() == 0 {
        lemma_trim_end_at(t, 0);
    } else {
        lemma_trim_start_at(t, 0);
        assert forall|k: int| t.len() <= k < t.len() implies is_white_space(#[trigger] t[k]) by {}
        lemma_trim_end_at(t, t.len() as int);
        assert(t.subrange(0, t.len() as int) =~= t);
    }
}

proof fn lemma_trim_start_facts(s: Seq<char>)
    ensures
        0 <= trim_start(s) <= s.len(),
        forall|k: int| 0 <= k < trim_start(s) ==> is_white_space(#[trigger] s[k]),
        trim_start(s) < s.len() ==> !is_white_space(s[trim_start(s)]),
    decreases s.len(),
{
    if s.len() > 0 && is_white_space(s[0]) {
        let t = s.drop_first();
        lemma_trim_start_facts(t);
        assert forall|k: int| 0 <= k < trim_start(s) implies is_white_space(#[trigger] s[k]) by {
            if k > 0 {
                assert(s[k] == t[k - 1]);
            }
        }
        if trim_start(s) < s.len() {
            assert(s[trim_start(s)] == t[trim_start(t)]);
        }
    }
}

proof fn lemma_trim_end_facts(s: Seq<char>)
    ensures
        0 <= trim_end(s) <= s.len(),
        forall|k: int| trim_end(s) <= k < s.len() ==> is_white_space(#[trigger] s[k]),
        trim_end(s) > 0 ==> !is_white_space(s[trim_end(s) - 1]),
    decreases s.len(),
{
    if s.len() > 0 && is_white_space(s.last()) {
        let t = s.drop_last();
        lemma_trim_end_facts(t);
        assert forall|k: int| trim_end(s) <= k < s.len() implies is_white_space(
            #[trigger] s[k],
        ) by {
            if k < s.len() - 1 {
                assert(s[k] == t[k]);
            }
        }
        if trim_end(s) > 0 {
            assert(s[trim_end(s) - 1] == t[trim_end(t) - 1]);
        }
    }
}

/// A trimmed string neither starts nor ends with whitespace, and it is the
/// middle of the original once a run of whitespace is cut from each end;
/// a string that trims to nothing is all whitespace.
pub proof fn law_trimmed_edges(s: Seq<char>)
    ensures
        0 <= trim_start(s) <= s.len(),
        0 <= trim_end(s) <= s.len(),
        forall|k: int| 0 <= k < trim_start(s) ==> is_white_space(#[trigger] s[k]),
        forall|k: int| trim_end(s) <= k < s.len() ==> is_white_space(#[trigger] s[k]),
        trimmed(s).len() > 0 ==> trim_start(s) < trim_end(s) && !is_white_space(trimmed(s)[0])
            && !is_white_space(trimmed(s).last()),
        trimmed(s).len() > 0 ==> s =~= s.subrange(0, trim_start(s)) + trimmed(s) + s.subrange(
            trim_end(s),
            s.len() as int,
        ),
        trimmed(s).len() == 0 ==> forall|k: int| 0 <= k < s.len() ==> is_white_space(
            #[trigger] s[k],
        ),
{
    lemma_trim_start_facts(s);
    lemma_trim_end_facts(s);
    if trim_end(s) > 0 {
        // a non-whitespace character sits at trim_end - 1, so the front run stops before it
        if trim_start(s) >= trim_end(s) {
            assert(is_white_space(s[trim_end(s) - 1]));
        }
    } else {
        assert forall|k: int| 0 <= k < s.len() implies is_white_space(#[trigger] s[k]) by {}
    }
}


/// Every character of `s` is whitespace.
pub open spec fn all_white_space(s: Seq<char>) -> bool {
    forall|k: int| 0 <= k < s.len() ==> is_white_space(#[trigger] s[k])
}

/// Among ASCII characters, exactly the space and the controls from tab to
/// carriage return are whitespace; in particular no visible ASCII
/// character is.
pub proof fn law_ascii_white_space(c: char)
    ensures
        (c as u32) < 0x80 ==> (is_white_space(c) <==> (c as u32 == 0x20 || (0x09 <= c as u32
            && c as u32 <= 0x0d))),
        0x21 <= c as u32 <= 0x7e ==> !is_white_space(c),
{
}

/// Trimming never removes a visible ASCII character from either end.
pub proof fn law_trim_keeps_visible_ends(s: Seq<char>)
    ensures
        s.len() > 0 && 0x21 <= s.last() as u32 <= 0x7e ==> trimmed(s).len() > 0 && trimmed(
            s,
        ).last() == s.last() && trim_end(s) == s.len(),
        s.len() > 0 && 0x21 <= s[0] as u32 <= 0x7e ==> trimmed(s).len() > 0 && trimmed(s)[0]
            == s[0] && trim_start(s) == 0,
{
    law_trimmed_edges(s);
    if s.len() > 0 && 0x21 <= s.last() as u32 <= 0x7e {
        lemma_trim_end_at(s, s.len() as int);
        assert(trim_end(s) > 0);
    }
    if s.len() > 0 && 0x21 <= s[0] as u32 <= 0x7e {
        lemma_trim_start_at(s, 0);
        assert(!is_white_space(s[0]));
    }
}

/// Cutting whitespace from both ends of `t`, which itself neither starts
/// nor ends with whitespace, gives back `t` exactly.
pub proof fn law_trim_of_padded(w1: Seq<char>, t: Seq<char>, w2: Seq<char>)
    requires
        all_white_space(w1),
        all_white_space(w2),
        t.len() > 0 ==> !is_white_space(t[0]) && !is_white_space(t.last()),
    ensures
        trimmed(w1 + t + w2) == t,
{
    let s = w1 + t + w2;
    if t.len() == 0 {
        assert forall|k: int| 0 <= k < s.len() implies is_white_space(#[trigger] s[k]) by {
            if k < w1.len() {
                assert(s[k] == w1[k]);
            } else {
                assert(s[k] == w2[k - w1.len()]);
            }
        }
        lemma_trim_end_at(s, 0);
        assert(trimmed(s) =~= t);
    } else {
        let i = w1.len() as int;
        let j = (w1.len() + t.len()) as int;
        assert forall|k: int| 0 <= k < i implies is_white_space(#[trigger] s[k]) by {
            assert(s[k] == w1[k]);
        }
        assert(s[i] == t[0]);
        lemma_trim_start_at(s, i);
        assert forall|k: int| j <= k < s.len() implies is_white_space(#[trigger] s[k]) by {
            assert(s[k] == w2[k - j]);
        }
        assert(s[j - 1] == t.last());
        lemma_trim_end_at(s, j);
        assert(s.subrange(i, j) =~= t);
    }
}

/// What trimming keeps of `s` is a stretch of `s` with nothing but
/// whitespace before and after it, which itself neither starts nor ends
/// with whitespace; it is empty only when `s` is all whitespace.
pub proof fn law_trim_is_padded_middle(s: Seq<char>)
    ensures
        exists|i: int, j: int|
            0 <= i <= j <= s.len() && #[trigger] s.subrange(i, j) == trimmed(s)
                && all_white_space(s.subrange(0, i)) && all_white_space(
                s.subrange(j, s.len() as int),
            ),
        trimmed(s).len() > 0 ==> !is_white_space(trimmed(s)[0]) && !is_white_space(
            trimmed(s).last(),
        ),
        trimmed(s).len() == 0 <==> all_white_space(s),
{
    law_trimmed_edges(s);
    if trimmed(s).len() > 0 {
        let i = trim_start(s);
        let j = trim_end(s);
        assert(s.subrange(i, j) == trimmed(s));
        assert(all_white_space(s.subrange(0, i)));
        assert(all_white_space(s.subrange(j, s.len() as int)));
        assert(!all_white_space(s)) by {
            assert(!is_white_space(s[i]));
        }
    } else {
        assert(s.subrange(0, 0) =~= trimmed(s));
        assert(s.subrange(0, s.len() as int) =~= s);
        assert(all_white_space(s.subrange(0, 0)));
    }
}

} // verus!
