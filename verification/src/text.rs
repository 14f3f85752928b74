//! Character-level string operations with exact specifications.

use vstd::prelude::*;
use vstd::string::*;

verus! {

/// The characters of `s` before the first occurrence of `c`; all of `s`
/// when `c` does not occur.
pub open spec fn prefix_before(s: Seq<char>, c: char) -> Seq<char>
    decreases s.len(),
{
    if s.len() == 0 {
        s
    } else if s[0] == c {
        Seq::empty()
    } else {
        seq![s[0]] + prefix_before(s.drop_first(), c)
    }
}

/// The characters of `s` after the first occurrence of `c`; empty when `c`
/// does not occur.
pub open spec fn suffix_after(s: Seq<char>, c: char) -> Seq<char>
    decreases s.len(),
{
    if s.len() == 0 {
        s
    } else if s[0] == c {
        s.drop_first()
    } else {
        suffix_after(s.drop_first(), c)
    }
}

/// `s` with `rep` placed before every character and at the end: what
/// replacing the empty pattern gives.
pub open spec fn interleave(s: Seq<char>, rep: Seq<char>) -> Seq<char>
    decreases s.len(),
{
    if s.len() == 0 {
        rep
    } else {
        rep + seq![s[0]] + interleave(s.drop_first(), rep)
    }
}

/// Every non-overlapping occurrence of `pat` in `s`, searched from the left,
/// replaced by `rep`.
pub open spec fn replace_all(s: Seq<char>, pat: Seq<char>, rep: Seq<char>) -> Seq<char>
    decreases s.len(),
{
    if pat.len() == 0 {
        interleave(s, rep)
    } else if s.len() < pat.len() {
        s
    } else if s.take(pat.len() as int) == pat {
        rep + replace_all(s.skip(pat.len() as int), pat, rep)
    } else {
        seq![s[0]] + replace_all(s.drop_first(), pat, rep)
    }
}

/// Whether `pat` occurs in `s` at some position.
pub open spec fn occurs_in(s: Seq<char>, pat: Seq<char>) -> bool {
    exists|i: int| 0 <= i && i + pat.len() <= s.len() && #[trigger] s.skip(i).take(pat.len() as int) == pat
}

/// A template in which the placeholder does not occur is left as it is.
pub proof fn lemma_fill_without_placeholder(s: Seq<char>, pat: Seq<char>, rep: Seq<char>)
    requires
        pat.len() > 0,
        !occurs_in(s, pat),
    ensures
        replace_all(s, pat, rep) == s,
    decreases s.len(),
{
    if s.len() >= pat.len() {
        assert(s.skip(0) =~= s);
        assert(s.take(pat.len() as int) != pat);
        let t = s.drop_first();
        assert(!occurs_in(t, pat)) by {
            if occurs_in(t, pat) {
                let i = choose|i: int| 0 <= i && i + pat.len() <= t.len() && #[trigger] t.skip(i).take(
                    pat.len() as int,
                ) == pat;
                assert(s.skip(i + 1).take(pat.len() as int) =~= t.skip(i).take(pat.len() as int));
            }
        }
        lemma_fill_without_placeholder(t, pat, rep);
        assert(seq![s[0]] + t =~= s);
    }
}

/// Where `c` first occurs in `s` at index `i` (or does not occur and `i` is
/// the length), the two spec functions cut `s` at `i`.
pub proof fn lemma_cut_at_first(s: Seq<char>, c: char, i: int)
    requires
        0 <= i <= s.len(),
        forall|j: int| 0 <= j < i ==> s[j] != c,
        i == s.len() || s[i] == c,
    ensures
        prefix_before(s, c) == s.take(i),
        suffix_after(s, c) == (if i < s.len() { s.skip(i + 1) } else { Seq::<char>::empty() }),
    decreases s.len(),
{
    if s.len() == 0 {
        assert(s.take(i) =~= s);
    } else if i == 0 {
        assert(s.take(0) =~= Seq::<char>::empty());
        assert(s.skip(1) =~= s.drop_first());
    } else {
        let t = s.drop_first();
        assert forall|j: int| 0 <= j < i - 1 implies t[j] != c by {
            assert(t[j] == s[j + 1]);
        }
        lemma_cut_at_first(t, c, i - 1);
        assert(s.take(i) =~= seq![s[0]] + t.take(i - 1));
        if i < s.len() {
            assert(s.skip(i + 1) =~= t.skip(i));
        }
    }
}

/// `prefix_before` of a concatenation whose first part lacks `c`.
pub proof fn lemma_prefix_before_concat(a: Seq<char>, b: Seq<char>, c: char)
    requires
        !a.contains(c),
    ensures
        prefix_before(a + b, c) == a + prefix_before(b, c),
    decreases a.len(),
{
    if a.len() == 0 {
        assert(a + b =~= b);
        assert(a + prefix_before(b, c) =~= prefix_before(b, c));
    } else {
        let t = a.drop_first();
        assert(!t.contains(c)) by {
            if t.contains(c) {
                let k = choose|k: int| 0 <= k < t.len() && t[k] == c;
                assert(a[k + 1] == c);
            }
        }
        assert(a[0] != c) by {
            assert(a.contains(a[0]) || a[0] != c);
        }
        lemma_prefix_before_concat(t, b, c);
        assert((a + b).drop_first() =~= t + b);
        assert((a + b)[0] == a[0]);
        assert(a + prefix_before(b, c) =~= seq![a[0]] + (t + prefix_before(b, c)));
    }
}

/// `suffix_after` of a concatenation whose first part lacks `c`.
pub proof fn lemma_suffix_after_concat(a: Seq<char>, b: Seq<char>, c: char)
    requires
        !a.contains(c),
    ensures
        suffix_after(a + b, c) == suffix_after(b, c),
    decreases a.len(),
{
    if a.len() == 0 {
        assert(a + b =~= b);
    } else {
        let t = a.drop_first();
        assert(!t.contains(c)) by {
            if t.contains(c) {
                let k = choose|k: int| 0 <= k < t.len() && t[k] == c;
                assert(a[k + 1] == c);
            }
        }
        assert(a[0] != c) by {
            assert(a.contains(a[0]) || a[0] != c);
        }
        lemma_suffix_after_concat(t, b, c);
        assert((a + b).drop_first() =~= t + b);
        assert((a + b)[0] == a[0]);
    }
}

/// The index of the first `c` in `s`, or the length of `s` when there is none.
pub fn first_index_of(s: &str, c: char) -> (r: usize)
    ensures
        r <= s@.len(),
        forall|j: int| 0 <= j < r ==> s@[j] != c,
        r < s@.len() ==> s@[r as int] == c,
{
    let n = s.unicode_len();
    let mut i: usize = 0;
    while i < n
        invariant
            n == s@.len(),
            i <= n,
            forall|j: int| 0 <= j < i ==> s@[j] != c,
        decreases n - i,
    {
        if s.get_char(i) == c {
            return i;
        }
        i = i + 1;
    }
    i
}

/// The part of `s` before the first `c` (all of `s` when there is none).
pub fn take_until(s: &str, c: char) -> (r: &str)
    ensures
        r@ == prefix_before(s@, c),
{
    let i = first_index_of(s, c);
    proof {
        lemma_cut_at_first(s@, c, i as int);
    }
    s.substring_char(0, i)
}

/// The part of `s` after the first `c`, or `None` when `c` does not occur.
pub fn skip_past(s: &str, c: char) -> (r: Option<&str>)
    ensures
        r is Some <==> s@.contains(c),
        r matches Some(t) ==> t@ == suffix_after(s@, c),
{
    let i = first_index_of(s, c);
    proof {
        lemma_cut_at_first(s@, c, i as int);
    }
    let n = s.unicode_len();
    if i < n {
        let t = s.substring_char(i + 1, n);
        assert(t@ =~= s@.skip(i + 1));
        Some(t)
    } else {
        assert(!s@.contains(c));
        None
    }
}

/// Whether the two strings hold the same characters.
pub fn same_text(a: &str, b: &str) -> (r: bool)
    ensures
        r == (a@ == b@),
{
    let n = a.unicode_len();
    let m = b.unicode_len();
    if n != m {
        return false;
    }
    let mut i: usize = 0;
    while i < n
        invariant
            n == a@.len(),
            m == b@.len(),
            n == m,
            i <= n,
            forall|j: int| 0 <= j < i ==> a@[j] == b@[j],
        decreases n - i,
    {
        if a.get_char(i) != b.get_char(i) {
            return false;
        }
        i = i + 1;
    }
    assert(a@ =~= b@);
    true
}

/// Whether `pat` occurs in `s` at character position `i`.
fn occurs_at(s: &str, i: usize, pat: &str) -> (r: bool)
    requires
        i + pat@.len() <= s@.len(),
    ensures
        r == (s@.skip(i as int).take(pat@.len() as int) == pat@),
{
    let m = pat.unicode_len();
    let len = s.unicode_len();
    let mut j: usize = 0;
    while j < m
        invariant
            m == pat@.len(),
            len == s@.len(),
            i + m <= s@.len(),
            j <= m,
            forall|k: int| 0 <= k < j ==> s@[i + k] == pat@[k],
        decreases m - j,
    {
        if s.get_char(i + j) != pat.get_char(j) {
            assert(s@.skip(i as int).take(m as int)[j as int] != pat@[j as int]);
            return false;
        }
        j = j + 1;
    }
    assert(s@.skip(i as int).take(m as int) =~= pat@);
    true
}

/// `template` with every non-overlapping occurrence of `placeholder`,
/// searched from the left, replaced by `value`.
pub fn fill_placeholder(template: &str, placeholder: &str, value: &str) -> (r: String)
    ensures
        r@ == replace_all(template@, placeholder@, value@),
{
    let n = template.unicode_len();
    let m = placeholder.unicode_len();
    let mut out = String::new();
    let mut i: usize = 0;
    if m == 0 {
        out.append(value);
        proof {
            assert(template@.skip(0) =~= template@);
        }
        while i < n
            invariant
                n == template@.len(),
                m == placeholder@.len(),
                m == 0,
                i <= n,
                interleave(template@, value@) == out@ + interleave(template@.skip(i as int), value@)
                    .skip(value@.len() as int),
                interleave(template@.skip(i as int), value@).take(value@.len() as int) == value@,
            decreases n - i,
        {
            let ghost rest = template@.skip(i as int);
            let ghost old_out = out@;
            out.append(template.substring_char(i, i + 1));
            out.append(value);
            proof {
                assert(rest.drop_first() =~= template@.skip(i + 1));
                let tail = interleave(rest.drop_first(), value@);
                assert(interleave(rest, value@) == value@ + seq![rest[0]] + tail);
                assert(interleave(rest, value@).skip(value@.len() as int) =~= seq![rest[0]] + tail);
                assert(template@.subrange(i as int, i + 1) =~= seq![rest[0]]);
                if rest.drop_first().len() == 0 {
                    assert(tail == value@);
                } else {
                    assert(tail == value@ + seq![rest.drop_first()[0]] + interleave(
                        rest.drop_first().drop_first(),
                        value@,
                    ));
                }
                assert(tail.take(value@.len() as int) =~= value@);
                assert(out@ =~= old_out + seq![rest[0]] + value@);
                assert(out@ + tail.skip(value@.len() as int) =~= old_out + (seq![rest[0]] + tail));
            }
            i = i + 1;
        }
        proof {
            assert(template@.skip(n as int) =~= Seq::<char>::empty());
            assert(interleave(Seq::<char>::empty(), value@).skip(value@.len() as int) =~= Seq::<
                char,
            >::empty());
            assert(out@ + Seq::<char>::empty() =~= out@);
        }
        return out;
    }
    proof {
        assert(template@.skip(0) =~= template@);
        assert(out@ + replace_all(template@, placeholder@, value@) =~= replace_all(
            template@,
            placeholder@,
            value@,
        ));
    }
    while i < n
        invariant
            n == template@.len(),
            m == placeholder@.len(),
            m > 0,
            i <= n,
            replace_all(template@, placeholder@, value@) == out@ + replace_all(
                template@.skip(i as int),
                placeholder@,
                value@,
            ),
        decreases n - i,
    {
        let ghost rest = template@.skip(i as int);
        let ghost old_out = out@;
        if m <= n - i && occurs_at(template, i, placeholder) {
            out.append(value);
            proof {
                assert(rest.skip(m as int) =~= template@.skip(i + m));
                assert(replace_all(rest, placeholder@, value@) == value@ + replace_all(
                    rest.skip(m as int),
                    placeholder@,
                    value@,
                ));
                assert(old_out + (value@ + replace_all(rest.skip(m as int), placeholder@, value@))
                    =~= out@ + replace_all(rest.skip(m as int), placeholder@, value@));
            }
            i = i + m;
        } else {
            out.append(template.substring_char(i, i + 1));
            proof {
                assert(rest.drop_first() =~= template@.skip(i + 1));
                assert(template@.subrange(i as int, i + 1) =~= seq![rest[0]]);
                if rest.len() < m {
                    assert(rest.drop_first().len() < m);
                    assert(replace_all(rest, placeholder@, value@) == rest);
                    assert(replace_all(rest.drop_first(), placeholder@, value@) == rest.drop_first());
                    assert(rest =~= seq![rest[0]] + rest.drop_first());
                } else {
                    assert(replace_all(rest, placeholder@, value@) == seq![rest[0]] + replace_all(
                        rest.drop_first(),
                        placeholder@,
                        value@,
                    ));
                }
                assert(old_out + (seq![rest[0]] + replace_all(rest.drop_first(), placeholder@, value@))
                    =~= out@ + replace_all(rest.drop_first(), placeholder@, value@));
            }
            i = i + 1;
        }
    }
    proof {
        assert(template@.skip(n as int) =~= Seq::<char>::empty());
        assert(out@ + Seq::<char>::empty() =~= out@);
    }
    out
}

} // verus!
