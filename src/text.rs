use vstd::prelude::*;
use vstd::string::StrSliceExecFns;

verus! {

/// The character for a decimal digit.
pub open spec fn digit_char(d: nat) -> char {
    ((48 + d) as u8) as char
}

/// The decimal text of a natural number, without sign or leading zeros.
pub open spec fn decimal(n: nat) -> Seq<char>
    decreases n,
{
    if n < 10 {
        seq![digit_char(n)]
    } else {
        decimal(n / 10).push(digit_char(n % 10))
    }
}

/// Whether `pat` occurs in `s` at position `i`.
pub open spec fn occurs_at(s: Seq<char>, pat: Seq<char>, i: int) -> bool {
    0 <= i && i + pat.len() <= s.len() && s.subrange(i, i + pat.len()) == pat
}

/// Whether `pat` occurs anywhere in `s`.
pub open spec fn contains(s: Seq<char>, pat: Seq<char>) -> bool {
    exists|i: int| #[trigger] occurs_at(s, pat, i)
}

/// `s` with every occurrence of the non-empty `pat` replaced by `rep`, scanning
/// from the left and never re-examining replaced text.
pub open spec fn replaced(s: Seq<char>, pat: Seq<char>, rep: Seq<char>) -> Seq<char>
    decreases s.len(),
{
    if s.len() == 0 || pat.len() == 0 {
        s
    } else if occurs_at(s, pat, 0) {
        rep + replaced(s.subrange(pat.len() as int, s.len() as int), pat, rep)
    } else {
        seq![s[0]] + replaced(s.drop_first(), pat, rep)
    }
}

/// Relies on String::push: the character is appended at the end.
#[verifier::external_body]
pub(crate) fn push_char(s: &mut String, c: char)
    ensures
        final(s)@ == old(s)@.push(c),
{
    s.push(c);
}

/// The characters of a string slice.
pub fn chars_of(s: &str) -> (r: Vec<char>)
    ensures
        r@ == s@,
{
    let n = s.unicode_len();
    let mut r: Vec<char> = Vec::new();
    let mut i: usize = 0;
    while i < n
        invariant
            n == s@.len(),
            i <= n,
            r@ == s@.subrange(0, i as int),
        decreases n - i,
    {
        r.push(s.get_char(i));
        i = i + 1;
    }
    assert(r@ =~= s@);
    r
}

/// A string holding the given characters.
pub fn string_of(cs: &Vec<char>) -> (r: String)
    ensures
        r@ == cs@,
{
    let mut r = String::new();
    let mut i: usize = 0;
    while i < cs.len()
        invariant
            i <= cs@.len(),
            r@ == cs@.subrange(0, i as int),
        decreases cs@.len() - i,
    {
        push_char(&mut r, cs[i]);
        assert(cs@.subrange(0, i + 1) =~= cs@.subrange(0, i as int).push(cs@[i as int]));
        i = i + 1;
    }
    assert(r@ =~= cs@);
    r
}

/// Appends the decimal text of `n`.
pub fn push_decimal(s: &mut String, n: u64)
    ensures
        final(s)@ == old(s)@ + decimal(n as nat),
    decreases n,
{
    if n >= 10 {
        push_decimal(s, n / 10);
    }
    let d: u8 = (n % 10) as u8;
    let c: char = (48u8 + d) as char;
    push_char(s, c);
    proof {
        assert(c == digit_char((n % 10) as nat));
        if n >= 10 {
            assert(decimal(n as nat) == decimal((n / 10) as nat).push(c));
        }
    }
    assert(final(s)@ =~= old(s)@ + decimal(n as nat));
}

/// Whether `pat` occurs in `s` at position `i`.
fn matches_at(s: &Vec<char>, pat: &Vec<char>, i: usize) -> (r: bool)
    requires
        i <= s@.len(),
    ensures
        r == occurs_at(s@, pat@, i as int),
{
    if pat.len() > s.len() - i {
        return false;
    }
    let n = s.len();
    let mut j: usize = 0;
    while j < pat.len()
        invariant
            n == s@.len(),
            i + pat@.len() <= s@.len(),
            j <= pat@.len(),
            forall|k: int| 0 <= k < j ==> s@[i + k] == pat@[k],
        decreases pat@.len() - j,
    {
        if s[i + j] != pat[j] {
            assert(s@.subrange(i as int, i + pat@.len())[j as int] != pat@[j as int]);
            return false;
        }
        j = j + 1;
    }
    assert(s@.subrange(i as int, i + pat@.len()) =~= pat@);
    true
}

proof fn lemma_replaced_step(s: Seq<char>, pat: Seq<char>, rep: Seq<char>, i: int)
    requires
        pat.len() > 0,
        0 <= i < s.len(),
    ensures
        occurs_at(s, pat, i) ==> replaced(s.subrange(i, s.len() as int), pat, rep) == rep
            + replaced(s.subrange(i + pat.len(), s.len() as int), pat, rep),
        !occurs_at(s, pat, i) ==> replaced(s.subrange(i, s.len() as int), pat, rep) == seq![
            s[i],
        ] + replaced(s.subrange(i + 1, s.len() as int), pat, rep),
{
    let t = s.subrange(i, s.len() as int);
    if i + pat.len() <= s.len() {
        assert(t.subrange(0, pat.len() as int) =~= s.subrange(i, i + pat.len()));
        assert(t.subrange(pat.len() as int, t.len() as int) =~= s.subrange(
            i + pat.len(),
            s.len() as int,
        ));
    }
    assert(occurs_at(t, pat, 0) == occurs_at(s, pat, i));
    assert(t.drop_first() =~= s.subrange(i + 1, s.len() as int));
}

/// Replaces every occurrence of the non-empty `pat` in `s` by `rep`, left to right.
pub fn replace_all(s: &Vec<char>, pat: &Vec<char>, rep: &Vec<char>) -> (r: Vec<char>)
    requires
        pat@.len() > 0,
    ensures
        r@ == replaced(s@, pat@, rep@),
{
    let mut r: Vec<char> = Vec::new();
    let mut i: usize = 0;
    assert(s@.subrange(0, s@.len() as int) =~= s@);
    assert(r@ + replaced(s@, pat@, rep@) =~= replaced(s@, pat@, rep@));
    while i < s.len()
        invariant
            pat@.len() > 0,
            i <= s@.len(),
            replaced(s@, pat@, rep@) == r@ + replaced(
                s@.subrange(i as int, s@.len() as int),
                pat@,
                rep@,
            ),
        decreases s@.len() - i,
    {
        proof {
            lemma_replaced_step(s@, pat@, rep@, i as int);
        }
        if matches_at(s, pat, i) {
            let mut k: usize = 0;
            let ghost r0 = r@;
            while k < rep.len()
                invariant
                    k <= rep@.len(),
                    r@ == r0 + rep@.subrange(0, k as int),
                decreases rep@.len() - k,
            {
                r.push(rep[k]);
                assert(rep@.subrange(0, k + 1) =~= rep@.subrange(0, k as int).push(rep@[k as int]));
                k = k + 1;
            }
            assert(rep@.subrange(0, rep@.len() as int) =~= rep@);
            assert(r@ + replaced(s@.subrange(i + pat@.len(), s@.len() as int), pat@, rep@) =~= r0
                + (rep@ + replaced(s@.subrange(i + pat@.len(), s@.len() as int), pat@, rep@)));
            i = i + pat.len();
        } else {
            let ghost r0 = r@;
            r.push(s[i]);
            assert(r@ + replaced(s@.subrange(i + 1, s@.len() as int), pat@, rep@) =~= r0 + (seq![
                s@[i as int],
            ] + replaced(s@.subrange(i + 1, s@.len() as int), pat@, rep@)));
            i = i + 1;
        }
    }
    assert(s@.subrange(i as int, s@.len() as int) =~= Seq::<char>::empty());
    assert(r@ + Seq::<char>::empty() =~= r@);
    r
}

/// Text without any occurrence of `pat` is left as it is.
pub proof fn lemma_replaced_absent(s: Seq<char>, pat: Seq<char>, rep: Seq<char>)
    requires
        !contains(s, pat),
    ensures
        replaced(s, pat, rep) == s,
    decreases s.len(),
{
    if s.len() > 0 && pat.len() > 0 {
        assert(!occurs_at(s, pat, 0));
        let t = s.drop_first();
        assert forall|i: int| !occurs_at(t, pat, i) by {
            if occurs_at(t, pat, i) {
                assert(s.subrange(i + 1, i + 1 + pat.len()) =~= t.subrange(i, i + pat.len()));
                assert(occurs_at(s, pat, i + 1));
            }
        }
        lemma_replaced_absent(t, pat, rep);
        assert(s =~= seq![s[0]] + t);
    }
}

/// Removing every occurrence of a single character leaves none of it.
pub proof fn lemma_removed_char_absent(s: Seq<char>, c: char)
    ensures
        !contains(replaced(s, seq![c], Seq::empty()), seq![c]),
    decreases s.len(),
{
    let pat = seq![c];
    let r = replaced(s, pat, Seq::empty());
    if s.len() > 0 {
        lemma_removed_char_absent(s.drop_first(), c);
        let rest = replaced(s.drop_first(), pat, Seq::empty());
        assert(s.subrange(1, s.len() as int) =~= s.drop_first());
        if occurs_at(s, pat, 0) {
            assert(r =~= rest);
        } else {
            assert(s.subrange(0, 1) =~= seq![s[0]]);
            assert(s[0] != c);
            assert(r =~= seq![s[0]] + rest);
            assert forall|i: int| !occurs_at(r, pat, i) by {
                if occurs_at(r, pat, i) {
                    if i == 0 {
                        assert(r.subrange(0, 1)[0] == c);
                    } else {
                        assert(rest.subrange(i - 1, i) =~= r.subrange(i, i + 1));
                        assert(occurs_at(rest, pat, i - 1));
                    }
                }
            }
        }
    }
}

/// Whether `c` is none of the characters of `rep`.
pub open spec fn avoids(c: char, rep: Seq<char>) -> bool {
    forall|m: int| 0 <= m < rep.len() ==> rep[m] != c
}

/// What follows position `k` of a text holds no `q` where the text holds none.
pub proof fn lemma_suffix_excludes(s: Seq<char>, q: Seq<char>, k: int)
    requires
        !contains(s, q),
        0 <= k <= s.len(),
    ensures
        !contains(s.subrange(k, s.len() as int), q),
{
    let t = s.subrange(k, s.len() as int);
    assert forall|i: int| !occurs_at(t, q, i) by {
        if occurs_at(t, q, i) {
            assert(s.subrange(i + k, i + k + q.len()) =~= t.subrange(i, i + q.len()));
            assert(occurs_at(s, q, i + k));
        }
    }
}

/// A start of a replaced text that holds no character of a non-empty `rep`
/// is a start of the original text.
proof fn lemma_replaced_prefix(t: Seq<char>, pat: Seq<char>, rep: Seq<char>, k: int)
    requires
        pat.len() > 0,
        rep.len() > 0,
        0 <= k <= replaced(t, pat, rep).len(),
        forall|j: int| 0 <= j < k ==> avoids(#[trigger] replaced(t, pat, rep)[j], rep),
    ensures
        k <= t.len(),
        replaced(t, pat, rep).subrange(0, k) == t.subrange(0, k),
    decreases t.len(),
{
    let r = replaced(t, pat, rep);
    if k > 0 && t.len() > 0 {
        if occurs_at(t, pat, 0) {
            assert(r[0] == rep[0]);
            assert(avoids(r[0], rep));
        } else {
            let t1 = t.drop_first();
            let r1 = replaced(t1, pat, rep);
            assert(r == seq![t[0]] + r1);
            assert forall|j: int| 0 <= j < k - 1 implies avoids(#[trigger] r1[j], rep) by {
                assert(r1[j] == r[j + 1]);
            }
            lemma_replaced_prefix(t1, pat, rep, k - 1);
            assert(r.subrange(0, k) =~= seq![t[0]] + r1.subrange(0, k - 1));
            assert(t.subrange(0, k) =~= seq![t[0]] + t1.subrange(0, k - 1));
        }
    }
}

/// Replacing `pat` by a non-empty `rep` that shares no character with `q`
/// leaves no `q` behind, where `q` is `pat` itself or the text held no `q`.
pub proof fn lemma_replaced_excludes(s: Seq<char>, pat: Seq<char>, rep: Seq<char>, q: Seq<char>)
    requires
        pat.len() > 0,
        rep.len() > 0,
        q.len() > 0,
        forall|j: int| 0 <= j < q.len() ==> avoids(#[trigger] q[j], rep),
        q == pat || !contains(s, q),
    ensures
        !contains(replaced(s, pat, rep), q),
    decreases s.len(),
{
    let r = replaced(s, pat, rep);
    if s.len() == 0 {
        assert forall|i: int| !occurs_at(r, q, i) by {}
    } else if occurs_at(s, pat, 0) {
        let rest = s.subrange(pat.len() as int, s.len() as int);
        if q != pat {
            lemma_suffix_excludes(s, q, pat.len() as int);
        }
        lemma_replaced_excludes(rest, pat, rep, q);
        let r1 = replaced(rest, pat, rep);
        assert(r == rep + r1);
        assert forall|i: int| !occurs_at(r, q, i) by {
            if occurs_at(r, q, i) {
                if i < rep.len() {
                    assert(r.subrange(i, i + q.len())[0] == q[0]);
                    assert(r[i] == rep[i]);
                    assert(avoids(q[0], rep));
                } else {
                    assert(r1.subrange(i - rep.len(), i - rep.len() + q.len()) =~= r.subrange(
                        i,
                        i + q.len(),
                    ));
                    assert(occurs_at(r1, q, i - rep.len()));
                }
            }
        }
    } else {
        let t = s.drop_first();
        if q != pat {
            lemma_suffix_excludes(s, q, 1);
            assert(s.subrange(1, s.len() as int) =~= t);
        }
        lemma_replaced_excludes(t, pat, rep, q);
        let r1 = replaced(t, pat, rep);
        assert(r == seq![s[0]] + r1);
        assert forall|i: int| !occurs_at(r, q, i) by {
            if occurs_at(r, q, i) {
                if i == 0 {
                    assert forall|j: int| 0 <= j < q.len() - 1 implies avoids(
                        #[trigger] r1[j],
                        rep,
                    ) by {
                        assert(r.subrange(0, q.len() as int)[j + 1] == q[j + 1]);
                        assert(r1[j] == r[j + 1]);
                    }
                    lemma_replaced_prefix(t, pat, rep, q.len() - 1);
                    assert forall|j: int| 0 <= j < q.len() implies s[j] == q[j] by {
                        assert(r.subrange(0, q.len() as int)[j] == q[j]);
                        if j > 0 {
                            assert(t.subrange(0, q.len() - 1)[j - 1] == r1.subrange(
                                0,
                                q.len() - 1,
                            )[j - 1]);
                            assert(r[j] == r1[j - 1]);
                        }
                    }
                    assert(s.subrange(0, q.len() as int) =~= q);
                    assert(occurs_at(s, q, 0));
                } else {
                    assert(r1.subrange(i - 1, i - 1 + q.len()) =~= r.subrange(i, i + q.len()));
                    assert(occurs_at(r1, q, i - 1));
                }
            }
        }
    }
}

} // verus!
