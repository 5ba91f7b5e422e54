//! A string-keyed dictionary backed by a vector of pairs.
//!
//! Later insertions override earlier ones, which matches the standard hash
//! map semantics the rest of the library needs. The mathematical model of a
//! dictionary is a `Map` from key characters to values.
use vstd::prelude::*;

verus! {

use crate::strings::str_eq;

/// A string-keyed dictionary. The pair at the highest index wins when a key
/// occurs more than once.
#[derive(Debug)]
pub struct Dict<T> {
    pub entries: Vec<(String, T)>,
}

/// The map described by a sequence of key/value pairs, later pairs winning.
pub open spec fn pairs_to_map<T>(s: Seq<(String, T)>) -> Map<Seq<char>, T>
    decreases s.len(),
{
    if s.len() == 0 {
        Map::empty()
    } else {
        pairs_to_map(s.drop_last()).insert(s.last().0@, s.last().1)
    }
}

impl<T> View for Dict<T> {
    type V = Map<Seq<char>, T>;

    open spec fn view(&self) -> Map<Seq<char>, T> {
        pairs_to_map(self.entries@)
    }
}

/// Looking a key up in the map of a pair sequence agrees with looking it up
/// in any prefix beyond whose end the key does not occur.
proof fn lemma_prefix_agree<T>(s: Seq<(String, T)>, k: Seq<char>, i: int)
    requires
        0 <= i <= s.len(),
        forall|j: int| i <= j < s.len() ==> s[j].0@ != k,
    ensures
        pairs_to_map(s).contains_key(k) == pairs_to_map(s.take(i)).contains_key(k),
        pairs_to_map(s).contains_key(k) ==> pairs_to_map(s)[k] == pairs_to_map(s.take(i))[k],
    decreases s.len() - i,
{
    if i == s.len() {
        assert(s.take(i) =~= s);
    } else {
        lemma_prefix_agree(s, k, i + 1);
        assert(s.take(i + 1).drop_last() =~= s.take(i));
        assert(s.take(i + 1).last() == s[i]);
    }
}

/// A key is in the map of a pair sequence exactly when some pair carries
/// it.
pub proof fn lemma_contains_iff_pair<T>(s: Seq<(String, T)>, k: Seq<char>)
    ensures
        pairs_to_map(s).contains_key(k) <==> exists|i: int| 0 <= i < s.len() && s[i].0@ == k,
    decreases s.len(),
{
    if s.len() == 0 {
    } else {
        lemma_contains_iff_pair(s.drop_last(), k);
        if s.last().0@ == k {
            assert(s[s.len() - 1].0@ == k);
        } else {
            if exists|i: int| 0 <= i < s.len() && s[i].0@ == k {
                let i = choose|i: int| 0 <= i < s.len() && s[i].0@ == k;
                assert(s.drop_last()[i] == s[i]);
            }
            if exists|i: int| 0 <= i < s.drop_last().len() && s.drop_last()[i].0@ == k {
                let i = choose|i: int| 0 <= i < s.drop_last().len() && s.drop_last()[i].0@ == k;
                assert(s[i] == s.drop_last()[i]);
            }
        }
    }
}

/// With pairwise distinct keys, the map value at a pair's key is that
/// pair's value.
pub proof fn lemma_value_at_pair<T>(s: Seq<(String, T)>, i: int)
    requires
        0 <= i < s.len(),
        forall|a: int, b: int| 0 <= a < b < s.len() ==> s[a].0@ != s[b].0@,
    ensures
        pairs_to_map(s).contains_key(s[i].0@),
        pairs_to_map(s)[s[i].0@] == s[i].1,
{
    lemma_prefix_agree(s, s[i].0@, i + 1);
    assert(s.take(i + 1).drop_last() =~= s.take(i));
    assert(s.take(i + 1).last() == s[i]);
}

/// The pair sequence with every pair keyed `k` dropped, order kept.
pub open spec fn without_key<T>(s: Seq<(String, T)>, k: Seq<char>) -> Seq<(String, T)>
    decreases s.len(),
{
    if s.len() == 0 {
        Seq::empty()
    } else if s.last().0@ == k {
        without_key(s.drop_last(), k)
    } else {
        without_key(s.drop_last(), k).push(s.last())
    }
}

/// Dropping every pair keyed `k` removes exactly `k` from the map.
proof fn lemma_without_key<T>(s: Seq<(String, T)>, k: Seq<char>)
    ensures
        pairs_to_map(without_key(s, k)) =~= pairs_to_map(s).remove(k),
    decreases s.len(),
{
    if s.len() == 0 {
    } else {
        lemma_without_key(s.drop_last(), k);
        if s.last().0@ != k {
            assert(without_key(s, k).drop_last() =~= without_key(s.drop_last(), k));
            assert(without_key(s, k).last() == s.last());
        }
    }
}

/// Dropping a key from a pair sequence with pairwise distinct keys keeps
/// the keys pairwise distinct, and keeps only pairs of the given sequence.
pub proof fn lemma_without_key_nodup<T>(s: Seq<(String, T)>, k: Seq<char>)
    requires
        forall|a: int, b: int| 0 <= a < b < s.len() ==> s[a].0@ != s[b].0@,
    ensures
        forall|a: int, b: int|
            0 <= a < b < without_key(s, k).len() ==> without_key(s, k)[a].0@ != without_key(
                s,
                k,
            )[b].0@,
        forall|p: (String, T)| without_key(s, k).contains(p) ==> s.contains(p),
    decreases s.len(),
{
    if s.len() == 0 {
    } else {
        assert(forall|a: int, b: int|
            0 <= a < b < s.drop_last().len() ==> s.drop_last()[a].0@ != s.drop_last()[b].0@);
        lemma_without_key_nodup(s.drop_last(), k);
        let wk = without_key(s, k);
        let wkd = without_key(s.drop_last(), k);
        assert forall|p: (String, T)| wk.contains(p) implies s.contains(p) by {
            let i = choose|i: int| 0 <= i < wk.len() && wk[i] == p;
            if s.last().0@ == k {
                assert(wkd.contains(p));
                assert(s.drop_last().contains(p));
                let j = choose|j: int| 0 <= j < s.drop_last().len() && s.drop_last()[j] == p;
                assert(s.drop_last()[j] == s[j]);
                assert(s[j] == p);
            } else {
                if i < wk.len() - 1 {
                    assert(wkd[i] == p);
                    assert(wkd.contains(p));
                    assert(s.drop_last().contains(p));
                    let j = choose|j: int| 0 <= j < s.drop_last().len() && s.drop_last()[j] == p;
                    assert(s.drop_last()[j] == s[j]);
                    assert(s[j] == p);
                } else {
                    assert(p == s.last());
                    assert(s[s.len() - 1] == p);
                }
            }
        }
        if s.last().0@ != k {
            assert forall|a: int, b: int| 0 <= a < b < wk.len() implies wk[a].0@ != wk[b].0@ by {
                if b == wk.len() - 1 {
                    assert(wk[a] == wkd[a]);
                    assert(wkd.contains(wkd[a]));
                    assert(s.drop_last().contains(wkd[a]));
                    let j = choose|j: int|
                        0 <= j < s.drop_last().len() && s.drop_last()[j] == wkd[a];
                    assert(s[j] == wkd[a]);
                    assert(s[j].0@ != s[s.len() - 1].0@);
                } else {
                    assert(wk[a] == wkd[a] && wk[b] == wkd[b]);
                }
            }
        }
    }
}

impl<T> Dict<T> {
    /// The raw key/value pairs, in insertion order.
    pub open spec fn pairs(&self) -> Seq<(String, T)> {
        self.entries@
    }

    /// An empty dictionary.
    pub fn new() -> (r: Self)
        ensures
            r@ == Map::<Seq<char>, T>::empty(),
            r.pairs() == Seq::<(String, T)>::empty(),
    {
        Dict { entries: Vec::new() }
    }

    /// The number of stored pairs (duplicate keys counted separately).
    pub fn len(&self) -> (r: usize)
        ensures
            r as nat == self.pairs().len(),
    {
        self.entries.len()
    }

    /// The value bound to `k`, when one is.
    pub fn get(&self, k: &str) -> (r: Option<&T>)
        ensures
            match r {
                Some(v) => self@.contains_key(k@) && *v == self@[k@],
                None => !self@.contains_key(k@),
            },
    {
        let n = self.entries.len();
        let mut i: usize = n;
        while i > 0
            invariant
                n == self.entries.len(),
                i <= n,
                forall|j: int| i <= j < n ==> self.entries@[j].0@ != k@,
            decreases i,
        {
            i = i - 1;
            if str_eq(self.entries[i].0.as_str(), k) {
                proof {
                    lemma_prefix_agree(self.entries@, k@, i + 1);
                    assert(self.entries@.take(i + 1).drop_last() =~= self.entries@.take(
                        i as int,
                    ));
                    assert(self.entries@.take(i + 1).last() == self.entries@[i as int]);
                }
                return Some(&self.entries[i].1);
            }
        }
        proof {
            lemma_prefix_agree(self.entries@, k@, 0);
        }
        None
    }

    /// Whether some value is bound to `k`.
    pub fn contains_key(&self, k: &str) -> (r: bool)
        ensures
            r == self@.contains_key(k@),
    {
        match self.get(k) {
            Some(_) => true,
            None => false,
        }
    }

    /// Binds `v` to `k`, overriding any earlier binding.
    pub fn insert(&mut self, k: String, v: T)
        ensures
            final(self)@ == old(self)@.insert(k@, v),
            final(self).pairs() == old(self).pairs().push((k, v)),
    {
        let ghost s0 = self.entries@;
        self.entries.push((k, v));
        proof {
            assert(self.entries@.drop_last() =~= s0);
        }
    }

    /// Unbinds `k`, returning the value that was bound to it. Every stored
    /// pair with that key is dropped; the order of the others is kept.
    pub fn remove_key(&mut self, k: &str) -> (r: Option<T>)
        ensures
            final(self)@ == old(self)@.remove(k@),
            final(self).pairs() == without_key(old(self).pairs(), k@),
            match r {
                Some(v) => old(self)@.contains_key(k@) && v == old(self)@[k@],
                None => !old(self)@.contains_key(k@),
            },
    {
        let ghost s = self.entries@;
        let ghost n: int = s.len() as int;
        let mut tmp: Vec<(String, T)> = Vec::new();
        core::mem::swap(&mut self.entries, &mut tmp);
        let mut rev: Vec<(String, T)> = Vec::new();
        while tmp.len() > 0
            invariant
                n == s.len() as int,
                self.entries@.len() == 0,
                rev@.len() + tmp@.len() == n,
                tmp@ =~= s.take(tmp@.len() as int),
                forall|j: int| 0 <= j < rev@.len() ==> rev@[j] == s[n - 1 - j],
            decreases tmp@.len(),
        {
            let ghost t: int = tmp@.len() as int;
            let pair_opt = tmp.pop();
            proof {
                assert(s.take(t)[t - 1] == s[t - 1]);
                assert(tmp@ =~= s.take(t).subrange(0, t - 1));
                assert(s.take(t).subrange(0, t - 1) =~= s.take(t - 1));
            }
            match pair_opt {
                Some(pair) => {
                    rev.push(pair);
                },
                None => (),
            }
        }
        let mut found: Option<T> = None;
        while rev.len() > 0
            invariant
                n == s.len() as int,
                self.entries@ =~= without_key(s.take(n - rev@.len()), k@),
                rev@.len() <= n,
                forall|j: int| 0 <= j < rev@.len() ==> rev@[j] == s[n - 1 - j],
                match found {
                    Some(v) => pairs_to_map(s.take(n - rev@.len())).contains_key(k@) && v
                        == pairs_to_map(s.take(n - rev@.len()))[k@],
                    None => !pairs_to_map(s.take(n - rev@.len())).contains_key(k@),
                },
            decreases rev@.len(),
        {
            let ghost i: int = n - rev@.len();
            let pair_opt = rev.pop();
            proof {
                assert(rev@ =~= rev@);
                assert(s.take(i + 1).drop_last() =~= s.take(i));
                assert(s.take(i + 1).last() == s[i]);
            }
            match pair_opt {
                Some(pair) => {
                    proof {
                        assert(pair == s[i]);
                    }
                    if str_eq(pair.0.as_str(), k) {
                        found = Some(pair.1);
                    } else {
                        self.entries.push(pair);
                    }
                },
                None => (),
            }
        }
        proof {
            assert(s.take(n) =~= s);
            lemma_without_key(s, k@);
        }
        found
    }

    /// The pair stored at index `i`.
    pub fn entry_at(&self, i: usize) -> (r: &(String, T))
        requires
            i < self.pairs().len(),
        ensures
            *r == self.pairs()[i as int],
    {
        &self.entries[i]
    }
}

impl Dict<String> {
    /// A copy with equal contents.
    pub fn duplicate(&self) -> (r: Self)
        ensures
            r@ == self@,
            r.pairs() == self.pairs(),
    {
        let n = self.entries.len();
        let mut out: Vec<(String, String)> = Vec::new();
        let mut i: usize = 0;
        while i < n
            invariant
                n == self.entries.len(),
                i <= n,
                out@ =~= self.entries@.take(i as int),
            decreases n - i,
        {
            let k = self.entries[i].0.clone();
            let v = self.entries[i].1.clone();
            out.push((k, v));
            i = i + 1;
        }
        proof {
            assert(out@ =~= self.entries@);
        }
        Dict { entries: out }
    }
}

} // verus!
