//! The result map: the name-to-content lookup that aggregation builds. It is
//! an association list with pairwise-distinct keys, abstracted as a
//! `Map<Seq<char>, Seq<char>>`.
use vstd::prelude::*;

verus! {

/// The mapping an association list stands for: entries are applied left to
/// right, so a later entry overwrites an earlier one with the same key.
pub open spec fn map_of(s: Seq<(String, String)>) -> Map<Seq<char>, Seq<char>>
    decreases s.len(),
{
    if s.len() == 0 {
        Map::empty()
    } else {
        map_of(s.drop_last()).insert(s.last().0@, s.last().1@)
    }
}

/// Pairwise-distinct keys.
pub open spec fn distinct_keys(s: Seq<(String, String)>) -> bool {
    forall|i: int, j: int| 0 <= i < j < s.len() ==> s[i].0@ != s[j].0@
}

/// A key is in the mapping exactly when some entry carries it.
proof fn lemma_map_of_contains(s: Seq<(String, String)>, k: Seq<char>)
    ensures
        map_of(s).contains_key(k) <==> exists|i: int| 0 <= i < s.len() && s[i].0@ == k,
        map_of(s).dom().finite(),
    decreases s.len(),
{
    if s.len() > 0 {
        lemma_map_of_contains(s.drop_last(), k);
        if map_of(s).contains_key(k) && s.last().0@ != k {
            let i = choose|i: int| 0 <= i < s.drop_last().len() && s.drop_last()[i].0@ == k;
            assert(s[i].0@ == k);
        }
        if exists|i: int| 0 <= i < s.len() && s[i].0@ == k {
            let i = choose|i: int| 0 <= i < s.len() && s[i].0@ == k;
            if i < s.len() - 1 {
                assert(s.drop_last()[i].0@ == k);
            }
        }
    }
}

/// An entry whose key no later entry repeats decides what the mapping holds
/// for that key.
proof fn lemma_map_of_get(s: Seq<(String, String)>, i: int)
    requires
        0 <= i < s.len(),
        forall|j: int| i < j < s.len() ==> s[j].0@ != s[i].0@,
    ensures
        map_of(s).contains_key(s[i].0@),
        map_of(s)[s[i].0@] == s[i].1@,
    decreases s.len(),
{
    if i < s.len() - 1 {
        assert(s.drop_last()[i] == s[i]);
        lemma_map_of_get(s.drop_last(), i);
    }
}

/// With distinct keys, replacing the entry that carries a key is the same as
/// inserting into the mapping.
proof fn lemma_map_of_update(s: Seq<(String, String)>, k: int, e: (String, String))
    requires
        distinct_keys(s),
        0 <= k < s.len(),
        e.0@ == s[k].0@,
    ensures
        map_of(s.update(k, e)) =~= map_of(s).insert(e.0@, e.1@),
    decreases s.len(),
{
    let t = s.update(k, e);
    if k == s.len() - 1 {
        assert(t.drop_last() =~= s.drop_last());
        assert(t.last() == e);
    } else {
        assert(t.drop_last() =~= s.drop_last().update(k, e));
        assert(t.last() == s.last());
        assert(forall|i: int, j: int|
            0 <= i < j < s.drop_last().len() ==> s.drop_last()[i].0@ != s.drop_last()[j].0@);
        assert(s.drop_last()[k] == s[k]);
        lemma_map_of_update(s.drop_last(), k, e);
        assert(s.last().0@ != e.0@);
    }
}

/// With distinct keys, the mapping has exactly one key per entry.
proof fn lemma_map_of_len(s: Seq<(String, String)>)
    requires
        distinct_keys(s),
    ensures
        map_of(s).dom().finite(),
        map_of(s).dom().len() == s.len(),
    decreases s.len(),
{
    broadcast use vstd::set::axiom_set_empty_len;
    broadcast use vstd::set::axiom_set_insert_len;
    broadcast use vstd::set::axiom_set_empty_finite;
    broadcast use vstd::set::axiom_set_insert_finite;

    if s.len() > 0 {
        assert(forall|i: int, j: int|
            0 <= i < j < s.drop_last().len() ==> s.drop_last()[i].0@ != s.drop_last()[j].0@);
        lemma_map_of_len(s.drop_last());
        lemma_map_of_contains(s.drop_last(), s.last().0@);
        if map_of(s.drop_last()).contains_key(s.last().0@) {
            let i = choose|i: int|
                0 <= i < s.drop_last().len() && s.drop_last()[i].0@ == s.last().0@;
            assert(s[i].0@ == s[s.len() - 1].0@);
            assert(false);
        }
    }
}

/// Mapping from resource name to content, built once per batch by the
/// aggregator. Keys are unique; an insert with a present key overwrites.
pub struct ResultMap {
    entries: Vec<(String, String)>,
}

impl View for ResultMap {
    type V = Map<Seq<char>, Seq<char>>;

    closed spec fn view(&self) -> Map<Seq<char>, Seq<char>> {
        map_of(self.entries@)
    }
}

impl ResultMap {
    #[verifier::type_invariant]
    spec fn wf(self) -> bool {
        distinct_keys(self.entries@)
    }

    /// An empty map.
    pub fn new() -> (m: ResultMap)
        ensures
            m@ == Map::<Seq<char>, Seq<char>>::empty(),
    {
        ResultMap { entries: Vec::new() }
    }

    /// Inserts a binding, overwriting any earlier binding of the same name.
    pub fn insert(&mut self, id: String, content: String)
        ensures
            final(self)@ == old(self)@.insert(id@, content@),
    {
        proof {
            use_type_invariant(&*self);
        }
        let mut entries: Vec<(String, String)> = Vec::new();
        core::mem::swap(&mut entries, &mut self.entries);
        let ghost s0 = entries@;
        let n = entries.len();
        let mut k: usize = 0;
        while k < n
            invariant
                k <= n,
                n == s0.len(),
                entries@ == s0,
                s0 == old(self).entries@,
                distinct_keys(s0),
                forall|j: int| 0 <= j < k ==> s0[j].0@ != id@,
            decreases n - k,
        {
            if entries[k].0 == id {
                let ghost e = (id, content);
                proof {
                    lemma_map_of_update(s0, k as int, e);
                }
                entries[k] = (id, content);
                assert(entries@ =~= s0.update(k as int, e));
                assert(forall|j: int|
                    0 <= j < entries@.len() ==> entries@[j].0@ == s0[j].0@);
                self.entries = entries;
                return;
            }
            k += 1;
        }
        entries.push((id, content));
        proof {
            assert(entries@.drop_last() =~= s0);
        }
        self.entries = entries;
    }

    /// Looks a name up: returns its content exactly when the name is bound.
    pub fn get(&self, id: &String) -> (r: Option<&String>)
        ensures
            self@.contains_key(id@) ==> (r matches Some(c) && c@ == self@[id@]),
            !self@.contains_key(id@) ==> r is None,
    {
        proof {
            use_type_invariant(self);
            lemma_map_of_contains(self.entries@, id@);
        }
        let n = self.entries.len();
        for k in 0..n
            invariant
                n == self.entries@.len(),
                forall|j: int| 0 <= j < k ==> self.entries@[j].0@ != id@,
        {
            if self.entries[k].0 == *id {
                proof {
                    use_type_invariant(self);
                    lemma_map_of_get(self.entries@, k as int);
                }
                return Some(&self.entries[k].1);
            }
        }
        None
    }

    /// The number of bound names.
    pub fn len(&self) -> (n: usize)
        ensures
            n == self@.dom().len(),
    {
        proof {
            use_type_invariant(self);
            lemma_map_of_len(self.entries@);
        }
        self.entries.len()
    }

    /// The bindings themselves, one per bound name.
    pub fn entries(&self) -> (r: &Vec<(String, String)>)
        ensures
            r@.len() == self@.dom().len(),
            forall|j: int|
                0 <= j < r@.len() ==> self@.contains_key(#[trigger] r@[j].0@)
                    && self@[r@[j].0@] == r@[j].1@,
    {
        proof {
            use_type_invariant(self);
            lemma_map_of_len(self.entries@);
            assert forall|j: int| 0 <= j < self.entries@.len() implies self@.contains_key(
                #[trigger] self.entries@[j].0@,
            ) && self@[self.entries@[j].0@] == self.entries@[j].1@ by {
                lemma_map_of_get(self.entries@, j);
            }
        }
        &self.entries
    }
}

} // verus!
