use vstd::prelude::*;

verus! {

/// `t` without its first and last character; `None` where it has fewer than
/// two characters.
pub open spec fn strip_ends(t: Seq<char>) -> Option<Seq<char>> {
    if t.len() >= 2 {
        Some(t.subrange(1, t.len() - 1))
    } else {
        None
    }
}

/// The pieces of `s` between its commas, in order; one empty piece for an
/// empty `s`.
pub open spec fn split_commas(s: Seq<char>) -> Seq<Seq<char>>
    decreases s.len(),
{
    if s.len() == 0 {
        seq![Seq::empty()]
    } else {
        let p = split_commas(s.drop_last());
        if s.last() == ',' {
            p.push(Seq::empty())
        } else {
            p.update(p.len() - 1, p.last().push(s.last()))
        }
    }
}

/// Whether `m` occurs in `s` at position `i`.
pub open spec fn occurs_at(s: Seq<char>, m: Seq<char>, i: int) -> bool {
    0 <= i && i + m.len() <= s.len() && s.subrange(i, i + m.len()) == m
}

/// Whether `m` occurs in `s` as a run of consecutive characters.
pub open spec fn contains(s: Seq<char>, m: Seq<char>) -> bool {
    exists|i: int| occurs_at(s, m, i)
}

pub proof fn lemma_split_commas_nonempty(s: Seq<char>)
    ensures
        split_commas(s).len() >= 1,
    decreases s.len(),
{
    if s.len() > 0 {
        lemma_split_commas_nonempty(s.drop_last());
    }
}

/// `t` without its first and last character, where it has at least two.
pub fn strip_ends_text(t: &str) -> (r: Option<String>)
    ensures
        match r {
            Some(s) => strip_ends(t@) == Some(s@),
            None => strip_ends(t@) is None,
        },
{
    let n = t.unicode_len();
    if n >= 2 {
        Some(String::from_str(t.substring_char(1, n - 1)))
    } else {
        None
    }
}

/// Splits `s` at each comma.
pub fn split_at_commas(s: &str) -> (r: Vec<String>)
    ensures
        r@.len() == split_commas(s@).len(),
        forall|j: int| 0 <= j < r@.len() ==> #[trigger] r@[j]@ == split_commas(s@)[j],
{
    let n = s.unicode_len();
    let mut pieces: Vec<String> = Vec::new();
    let mut start: usize = 0;
    let mut i: usize = 0;
    proof {
        assert(s@.subrange(0, 0) =~= Seq::<char>::empty());
    }
    while i < n
        invariant
            n == s@.len(),
            start <= i <= n,
            pieces@.len() + 1 == split_commas(s@.subrange(0, i as int)).len(),
            forall|j: int|
                0 <= j < pieces@.len() ==> #[trigger] pieces@[j]@ == split_commas(
                    s@.subrange(0, i as int),
                )[j],
            split_commas(s@.subrange(0, i as int)).last() == s@.subrange(start as int, i as int),
        decreases n - i,
    {
        let c = s.get_char(i);
        let ghost prev = s@.subrange(0, i as int);
        let ghost next = s@.subrange(0, i + 1);
        proof {
            assert(next.drop_last() =~= prev);
            assert(next.last() == c);
            lemma_split_commas_nonempty(prev);
        }
        if c == ',' {
            pieces.push(String::from_str(s.substring_char(start, i)));
            start = i + 1;
            proof {
                assert(s@.subrange(start as int, i + 1) =~= Seq::<char>::empty());
            }
        } else {
            proof {
                assert(s@.subrange(start as int, i + 1) =~= s@.subrange(start as int, i as int).push(c));
            }
        }
        i = i + 1;
    }
    proof {
        assert(s@.subrange(0, n as int) =~= s@);
        lemma_split_commas_nonempty(s@);
    }
    pieces.push(String::from_str(s.substring_char(start, n)));
    pieces
}

/// Whether `m` occurs in `s` as a run of consecutive characters.
pub fn contains_text(s: &str, m: &str) -> (r: bool)
    ensures
        r == contains(s@, m@),
{
    let n = s.unicode_len();
    let k = m.unicode_len();
    if k > n {
        return false;
    }
    if k == 0 {
        proof {
            assert(s@.subrange(0, 0) =~= m@);
            assert(occurs_at(s@, m@, 0));
        }
        return true;
    }
    let mut i: usize = 0;
    while i <= n - k
        invariant
            n == s@.len(),
            k == m@.len(),
            1 <= k <= n,
            i <= n - k + 1,
            forall|p: int| 0 <= p < i ==> !occurs_at(s@, m@, p),
        decreases n - k + 1 - i,
    {
        let mut j: usize = 0;
        let mut same = true;
        while j < k && same
            invariant
                n == s@.len(),
                k == m@.len(),
                i + k <= n,
                j <= k,
                same ==> forall|q: int| 0 <= q < j ==> s@[i + q] == m@[q],
                !same ==> !occurs_at(s@, m@, i as int),
            decreases k - j,
        {
            if s.get_char(i + j) != m.get_char(j) {
                same = false;
                proof {
                    assert(s@.subrange(i as int, i + k)[j as int] == s@[i + j]);
                }
            }
            j = j + 1;
        }
        if same {
            proof {
                assert(s@.subrange(i as int, i + k) =~= m@);
                assert(occurs_at(s@, m@, i as int));
            }
            return true;
        }
        i = i + 1;
    }
    proof {
        assert forall|p: int| !occurs_at(s@, m@, p) by {
            if 0 <= p && p + k <= n {
                assert(p < i);
            }
        }
    }
    false
}

} // verus!

verus! {

/// Whether `a` and `b` hold the same characters.
pub fn same_text(a: &str, b: &str) -> (r: bool)
    ensures
        r == (a@ == b@),
{
    let n = a.unicode_len();
    if n != b.unicode_len() {
        return false;
    }
    let mut i: usize = 0;
    while i < n
        invariant
            n == a@.len(),
            n == b@.len(),
            i <= n,
            forall|q: int| 0 <= q < i ==> a@[q] == b@[q],
        decreases n - i,
    {
        if a.get_char(i) != b.get_char(i) {
            return false;
        }
        i = i + 1;
    }
    proof {
        assert(a@ =~= b@);
    }
    true
}

} // verus!
