//! Plain text rewriting on character sequences: replacing every occurrence
//! of a pattern, and dropping the characters of a small set.
use vstd::prelude::*;

verus! {

/// `s` with every leftmost, non-overlapping occurrence of the non-empty
/// pattern `pat` replaced by `by`, scanning from the front.
pub open spec fn replace_all(s: Seq<char>, pat: Seq<char>, by: Seq<char>) -> Seq<char>
    decreases s.len(),
{
    if pat.len() == 0 || s.len() < pat.len() {
        s
    } else if s.subrange(0, pat.len() as int) == pat {
        by + replace_all(s.subrange(pat.len() as int, s.len() as int), pat, by)
    } else {
        seq![s[0]] + replace_all(s.drop_first(), pat, by)
    }
}

/// Whether `pat` occurs in `s` starting at position `i`.
pub open spec fn occurs_at(s: Seq<char>, pat: Seq<char>, i: int) -> bool {
    0 <= i && i + pat.len() <= s.len() && s.subrange(i, i + pat.len()) == pat
}

/// Compares `pat` against `s` at character position `i`.
fn matches_at(s: &str, pat: &str, i: usize, n: usize, m: usize) -> (r: bool)
    requires
        n == s@.len(),
        m == pat@.len(),
        i <= n,
    ensures
        r == occurs_at(s@, pat@, i as int),
{
    if n - i < m {
        return false;
    }
    let mut k: usize = 0;
    while k < m
        invariant
            n == s@.len(),
            m == pat@.len(),
            i + m <= n,
            k <= m,
            forall|j: int| 0 <= j < k ==> s@[i + j] == pat@[j],
        decreases m - k,
    {
        if s.get_char(i + k) != pat.get_char(k) {
            assert(s@.subrange(i as int, i + m)[k as int] != pat@[k as int]);
            return false;
        }
        k = k + 1;
    }
    assert(s@.subrange(i as int, i + m) =~= pat@);
    true
}

proof fn lemma_replace_step(s: Seq<char>, pat: Seq<char>, by: Seq<char>, i: int)
    requires
        pat.len() > 0,
        0 <= i < s.len(),
    ensures
        occurs_at(s, pat, i) ==> replace_all(s.subrange(i, s.len() as int), pat, by) == by
            + replace_all(s.subrange(i + pat.len(), s.len() as int), pat, by),
        !occurs_at(s, pat, i) ==> replace_all(s.subrange(i, s.len() as int), pat, by) == seq![
            s[i],
        ] + replace_all(s.subrange(i + 1, s.len() as int), pat, by),
{
    let t = s.subrange(i, s.len() as int);
    if occurs_at(s, pat, i) {
        assert(t.subrange(0, pat.len() as int) =~= s.subrange(i, i + pat.len()));
        assert(t.subrange(pat.len() as int, t.len() as int) =~= s.subrange(
            i + pat.len(),
            s.len() as int,
        ));
    } else {
        if t.len() >= pat.len() {
            assert(t.subrange(0, pat.len() as int) =~= s.subrange(i, i + pat.len()));
        }
        assert(t.drop_first() =~= s.subrange(i + 1, s.len() as int));
        if t.len() < pat.len() {
            assert(s.subrange(i + 1, s.len() as int).len() < pat.len());
            assert(t =~= seq![s[i]] + s.subrange(i + 1, s.len() as int));
        }
    }
}

/// Returns `s` with every occurrence of `pat` replaced by `by`, as
/// `replace_all` describes.
pub fn replace_str(s: &str, pat: &str, by: &str) -> (r: String)
    requires
        pat@.len() > 0,
    ensures
        r@ == replace_all(s@, pat@, by@),
{
    let n = s.unicode_len();
    let m = pat.unicode_len();
    let mut out = String::new();
    let mut i: usize = 0;
    proof {
        assert(s@.subrange(0, n as int) =~= s@);
        assert(out@ + replace_all(s@, pat@, by@) =~= replace_all(s@, pat@, by@));
    }
    while i < n
        invariant
            n == s@.len(),
            m == pat@.len(),
            m > 0,
            i <= n,
            out@ + replace_all(s@.subrange(i as int, n as int), pat@, by@) == replace_all(
                s@,
                pat@,
                by@,
            ),
        decreases n - i,
    {
        proof {
            lemma_replace_step(s@, pat@, by@, i as int);
        }
        if matches_at(s, pat, i, n, m) {
            out.append(by);
            i = i + m;
        } else {
            out.append(s.substring_char(i, i + 1));
            proof {
                assert(s@.subrange(i as int, i + 1) =~= seq![s@[i as int]]);
            }
            i = i + 1;
        }
    }
    proof {
        let rest = s@.subrange(n as int, n as int);
        assert(rest.len() == 0);
        assert(replace_all(rest, pat@, by@) == rest);
        assert(out@ + rest =~= out@);
    }
    out
}

/// Whether `c` is one of the angle brackets `<` and `>`.
pub open spec fn is_angle_bracket(c: char) -> bool {
    c == '<' || c == '>'
}

/// `s` with every angle bracket removed, the other characters kept in order.
pub open spec fn without_angle_brackets(s: Seq<char>) -> Seq<char>
    decreases s.len(),
{
    if s.len() == 0 {
        s
    } else if is_angle_bracket(s.last()) {
        without_angle_brackets(s.drop_last())
    } else {
        without_angle_brackets(s.drop_last()).push(s.last())
    }
}

/// Returns `s` with every `<` and `>` removed.
pub fn remove_angle_brackets(s: &str) -> (r: String)
    ensures
        r@ == without_angle_brackets(s@),
{
    let n = s.unicode_len();
    let mut out = String::new();
    let mut i: usize = 0;
    while i < n
        invariant
            n == s@.len(),
            i <= n,
            out@ == without_angle_brackets(s@.subrange(0, i as int)),
        decreases n - i,
    {
        let c = s.get_char(i);
        proof {
            assert(s@.subrange(0, i + 1).drop_last() =~= s@.subrange(0, i as int));
        }
        if c != '<' && c != '>' {
            out.append(s.substring_char(i, i + 1));
            proof {
                assert(s@.subrange(i as int, i + 1) =~= seq![c]);
            }
        }
        i = i + 1;
        proof {
            assert(out@ =~= without_angle_brackets(s@.subrange(0, i as int)));
        }
    }
    proof {
        assert(s@.subrange(0, n as int) =~= s@);
    }
    out
}

} // verus!
