//! A search-path variable seen as a list of entries joined by a separator.
use vstd::prelude::*;

verus! {

/// `pat` occurs in `s` as a run of consecutive characters.
pub open spec fn occurs_in(pat: Seq<char>, s: Seq<char>) -> bool {
    exists|i: int| 0 <= i && i + pat.len() <= s.len() && #[trigger] s.subrange(i, i + pat.len()) == pat
}

/// The entries of `s` between separators, in order. Like `str::split`, an
/// empty text has one empty entry and neighbouring separators give an empty
/// entry between them.
pub open spec fn split_on(s: Seq<char>, sep: char) -> Seq<Seq<char>>
    decreases s.len(),
{
    if s.len() == 0 {
        seq![Seq::<char>::empty()]
    } else {
        let parts = split_on(s.drop_last(), sep);
        if s.last() == sep {
            parts.push(Seq::<char>::empty())
        } else {
            parts.update(parts.len() - 1, parts.last().push(s.last()))
        }
    }
}

/// The entries joined into one text with `sep` between neighbours.
pub open spec fn join_with(parts: Seq<Seq<char>>, sep: char) -> Seq<char>
    decreases parts.len(),
{
    if parts.len() == 0 {
        Seq::<char>::empty()
    } else if parts.len() == 1 {
        parts[0]
    } else {
        join_with(parts.drop_last(), sep).push(sep) + parts.last()
    }
}

/// The entries other than those equal to `d`, in order.
pub open spec fn without(parts: Seq<Seq<char>>, d: Seq<char>) -> Seq<Seq<char>>
    decreases parts.len(),
{
    if parts.len() == 0 {
        parts
    } else {
        let rest = without(parts.drop_last(), d);
        if parts.last() == d {
            rest
        } else {
            rest.push(parts.last())
        }
    }
}

pub proof fn lemma_split_nonempty(s: Seq<char>, sep: char)
    ensures
        split_on(s, sep).len() >= 1,
    decreases s.len(),
{
    if s.len() > 0 {
        lemma_split_nonempty(s.drop_last(), sep);
    }
}

/// Joining the entries of a text gives the text back.
pub proof fn lemma_join_split(s: Seq<char>, sep: char)
    ensures
        join_with(split_on(s, sep), sep) == s,
    decreases s.len(),
{
    if s.len() > 0 {
        let p = s.drop_last();
        let c = s.last();
        lemma_join_split(p, sep);
        lemma_split_nonempty(p, sep);
        let r = split_on(p, sep);
        if c == sep {
            assert(r.push(Seq::<char>::empty()).drop_last() =~= r);
            assert(s =~= p.push(sep) + Seq::<char>::empty());
        } else {
            let r2 = r.update(r.len() - 1, r.last().push(c));
            if r.len() > 1 {
                assert(r2.drop_last() =~= r.drop_last());
                assert(join_with(r2, sep) =~= join_with(r, sep).push(c));
            }
            assert(s =~= p.push(c));
        }
    }
}

/// A separator followed by a text without separators adds that text as one
/// more entry.
pub proof fn lemma_split_append(s: Seq<char>, d: Seq<char>, sep: char)
    requires
        !d.contains(sep),
    ensures
        split_on(s.push(sep) + d, sep) == split_on(s, sep).push(d),
    decreases d.len(),
{
    let t = s.push(sep) + d;
    if d.len() == 0 {
        assert(t =~= s.push(sep));
        assert(t.drop_last() =~= s);
        assert(d =~= Seq::<char>::empty());
    } else {
        let d0 = d.drop_last();
        assert(!d0.contains(sep)) by {
            if d0.contains(sep) {
                let k = choose|k: int| 0 <= k < d0.len() && d0[k] == sep;
                assert(d[k] == sep);
            }
        }
        lemma_split_append(s, d0, sep);
        assert(t.drop_last() =~= s.push(sep) + d0);
        assert(t.last() == d.last());
        assert(d.last() != sep) by {
            assert(d[d.len() - 1] == d.last());
        }
        assert(d0.push(d.last()) =~= d);
        assert(split_on(s, sep).push(d0).update(split_on(s, sep).len() as int, d) =~= split_on(
            s,
            sep,
        ).push(d));
    }
}

/// Taking away an entry that is not there changes nothing.
pub proof fn lemma_without_absent(parts: Seq<Seq<char>>, d: Seq<char>)
    requires
        !parts.contains(d),
    ensures
        without(parts, d) == parts,
    decreases parts.len(),
{
    if parts.len() > 0 {
        let p = parts.drop_last();
        assert(!p.contains(d)) by {
            if p.contains(d) {
                let k = choose|k: int| 0 <= k < p.len() && p[k] == d;
                assert(parts[k] == d);
            }
        }
        lemma_without_absent(p, d);
        assert(parts[parts.len() - 1] == parts.last());
        assert(p.push(parts.last()) =~= parts);
    }
}

pub proof fn lemma_join_push(parts: Seq<Seq<char>>, p: Seq<char>, sep: char)
    ensures
        join_with(parts.push(p), sep) == if parts.len() == 0 {
            p
        } else {
            join_with(parts, sep).push(sep) + p
        },
{
    assert(parts.push(p).drop_last() =~= parts);
}

pub proof fn lemma_without_push(parts: Seq<Seq<char>>, p: Seq<char>, d: Seq<char>)
    ensures
        without(parts.push(p), d) == if p == d {
            without(parts, d)
        } else {
            without(parts, d).push(p)
        },
{
    assert(parts.push(p).drop_last() =~= parts);
}

/// The characters of `s`, one by one.
pub fn chars_of(s: &str) -> (v: Vec<char>)
    ensures
        v@ == s@,
{
    let n = s.unicode_len();
    let mut v: Vec<char> = Vec::new();
    let mut i: usize = 0;
    while i < n
        invariant
            n == s@.len(),
            i <= n,
            v@ == s@.take(i as int),
        decreases n - i,
    {
        let c = s.get_char(i);
        v.push(c);
        i = i + 1;
        assert(v@ =~= s@.take(i as int));
    }
    assert(v@ =~= s@);
    v
}

/// Whether `v[start..end]` equals `d`.
pub fn run_equals(v: &Vec<char>, start: usize, end: usize, d: &Vec<char>) -> (r: bool)
    requires
        start <= end <= v@.len(),
    ensures
        r == (v@.subrange(start as int, end as int) == d@),
{
    if end - start != d.len() {
        proof {
            if v@.subrange(start as int, end as int) == d@ {
                assert(v@.subrange(start as int, end as int).len() == d@.len());
            }
        }
        return false;
    }
    let mut k: usize = 0;
    while k < d.len()
        invariant
            start <= end <= v@.len(),
            end - start == d@.len(),
            k <= d@.len(),
            forall|j: int| 0 <= j < k ==> v@[start + j] == d@[j],
        decreases d@.len() - k,
    {
        if v[start + k] != d[k] {
            proof {
                assert(v@.subrange(start as int, end as int)[k as int] != d@[k as int]);
            }
            return false;
        }
        k = k + 1;
    }
    assert(v@.subrange(start as int, end as int) =~= d@);
    true
}

/// Whether `pat` occurs in `s`.
pub fn contains_run(s: &Vec<char>, pat: &Vec<char>) -> (r: bool)
    ensures
        r == occurs_in(pat@, s@),
{
    let n = s.len();
    let m = pat.len();
    if m > n {
        proof {
            if occurs_in(pat@, s@) {
                let i = choose|i: int|
                    0 <= i && i + pat@.len() <= s@.len() && #[trigger] s@.subrange(
                        i,
                        i + pat@.len(),
                    ) == pat@;
            }
        }
        return false;
    }
    let last = n - m;
    let mut i: usize = 0;
    while i < last
        invariant
            n == s@.len(),
            m == pat@.len(),
            last == n - m,
            i <= last,
            forall|k: int| 0 <= k < i ==> #[trigger] s@.subrange(k, k + m) != pat@,
        decreases last - i,
    {
        if run_equals(s, i, i + m, pat) {
            assert(s@.subrange(i as int, i + pat@.len()) == pat@);
            return true;
        }
        i = i + 1;
    }
    if run_equals(s, last, n, pat) {
        assert(s@.subrange(last as int, last + pat@.len()) == pat@);
        return true;
    }
    proof {
        if occurs_in(pat@, s@) {
            let k = choose|k: int|
                0 <= k && k + pat@.len() <= s@.len() && #[trigger] s@.subrange(k, k + pat@.len())
                    == pat@;
            assert(s@.subrange(k, k + m) == pat@);
        }
    }
    false
}

} // verus!
