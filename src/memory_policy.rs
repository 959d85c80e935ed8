use vstd::prelude::*;
use crate::policy::{
    expr_option_view, lists_exactly, lookup, Action, Expr, PolicyError, PolicyKey, PolicyStorage,
    Resource,
};

verus! {

/// One binding: resource, action, expression.
pub struct PolicyEntry {
    pub resource: String,
    pub action: String,
    pub expr: String,
}

pub open spec fn entry_key(e: PolicyEntry) -> PolicyKey {
    (e.resource@, e.action@)
}

/// The map that a list of entries stands for; later entries win.
pub open spec fn entries_map(s: Seq<PolicyEntry>) -> Map<PolicyKey, Seq<char>>
    decreases s.len(),
{
    if s.len() == 0 {
        Map::empty()
    } else {
        entries_map(s.drop_last()).insert(entry_key(s.last()), s.last().expr@)
    }
}

/// No two entries share a key.
pub open spec fn keys_unique(s: Seq<PolicyEntry>) -> bool {
    forall|i: int, j: int|
        0 <= i < s.len() && 0 <= j < s.len() && i != j ==> entry_key(#[trigger] s[i]) != entry_key(
            #[trigger] s[j],
        )
}

/// With unique keys, the map holds exactly the entries' keys, each with its
/// entry's expression.
pub proof fn lemma_entries_map(s: Seq<PolicyEntry>)
    requires
        keys_unique(s),
    ensures
        forall|k: PolicyKey|
            #[trigger] entries_map(s).contains_key(k) <==> exists|i: int|
                0 <= i < s.len() && entry_key(#[trigger] s[i]) == k,
        forall|i: int| 0 <= i < s.len() ==> entries_map(s)[entry_key(#[trigger] s[i])] == s[i].expr@,
    decreases s.len(),
{
    if s.len() > 0 {
        let t = s.drop_last();
        assert(keys_unique(t)) by {
            assert forall|i: int, j: int| 0 <= i < t.len() && 0 <= j < t.len() && i != j implies entry_key(
                #[trigger] t[i],
            ) != entry_key(#[trigger] t[j]) by {
                assert(t[i] == s[i] && t[j] == s[j]);
            }
        }
        lemma_entries_map(t);
        assert forall|k: PolicyKey| #[trigger] entries_map(s).contains_key(k) implies exists|i: int|
            0 <= i < s.len() && entry_key(#[trigger] s[i]) == k by {
            assert(entries_map(s) == entries_map(t).insert(entry_key(s.last()), s.last().expr@));
            if k != entry_key(s.last()) {
                assert(entries_map(t).contains_key(k));
                let i = choose|i: int| 0 <= i < t.len() && entry_key(#[trigger] t[i]) == k;
                assert(s[i] == t[i]);
            } else {
                assert(entry_key(s[s.len() - 1]) == k);
            }
        }
        assert forall|k: PolicyKey| (exists|i: int| 0 <= i < s.len() && entry_key(#[trigger] s[i]) == k) implies #[trigger] entries_map(s).contains_key(k) by {
            let i = choose|i: int| 0 <= i < s.len() && entry_key(#[trigger] s[i]) == k;
            if i < s.len() - 1 {
                assert(t[i] == s[i]);
            }
        }
        assert forall|i: int| 0 <= i < s.len() implies entries_map(s)[entry_key(#[trigger] s[i])] == s[i].expr@ by {
            if i < s.len() - 1 {
                assert(t[i] == s[i]);
                assert(entry_key(s[i]) != entry_key(s[s.len() - 1]));
            }
        }
    }
}

/// A policy storage held in memory.
pub struct MemoryPolicyStorage {
    entries: Vec<PolicyEntry>,
}

impl MemoryPolicyStorage {
    #[verifier::type_invariant]
    spec fn well_formed(&self) -> bool {
        keys_unique(self.entries@)
    }

    /// An empty storage.
    pub fn new() -> (r: MemoryPolicyStorage)
        ensures
            r.policy_map() == Map::<PolicyKey, Seq<char>>::empty(),
    {
        MemoryPolicyStorage { entries: Vec::new() }
    }

    /// The index of the entry with key `(r, a)`, if any.
    fn find(&self, r: &String, a: &String) -> (res: Option<usize>)
        ensures
            res matches Some(i) ==> i < self.entries@.len() && entry_key(self.entries@[i as int]) == (r@, a@),
            res is None ==> forall|i: int| 0 <= i < self.entries@.len() ==> entry_key(#[trigger] self.entries@[i]) != (r@, a@),
    {
        let mut i: usize = 0;
        while i < self.entries.len()
            invariant
                i <= self.entries@.len(),
                forall|j: int| 0 <= j < i ==> entry_key(#[trigger] self.entries@[j]) != (r@, a@),
            decreases self.entries.len() - i,
        {
            if self.entries[i].resource == *r && self.entries[i].action == *a {
                return Some(i);
            }
            i = i + 1;
        }
        None
    }
}

impl PolicyStorage for MemoryPolicyStorage {
    closed spec fn policy_map(&self) -> Map<PolicyKey, Seq<char>> {
        entries_map(self.entries@)
    }

    fn get_policy(&self, r: &Resource, a: &Action) -> (res: Result<Option<Expr>, PolicyError>)
        ensures
            res is Ok,
    {
        proof {
            use_type_invariant(self);
            lemma_entries_map(self.entries@);
        }
        match self.find(&r.0, &a.0) {
            Some(i) => Ok(Some(Expr(self.entries[i].expr.clone()))),
            None => Ok(None),
        }
    }

    fn set_policy(&mut self, r: &Resource, a: &Action, c: &Expr) -> (res: Result<(), PolicyError>)
        ensures
            res is Ok,
    {
        proof {
            use_type_invariant(&*self);
            lemma_entries_map(self.entries@);
        }
        let ghost old_entries = self.entries@;
        let ghost k: PolicyKey = (r@, a@);
        let entry = PolicyEntry { resource: r.0.clone(), action: a.0.clone(), expr: c.0.clone() };
        match self.find(&r.0, &a.0) {
            Some(i) => {
                let mut entries: Vec<PolicyEntry> = Vec::new();
                std::mem::swap(&mut self.entries, &mut entries);
                entries.set(i, entry);
                proof {
                    let n = entries@;
                    assert(n == old_entries.update(i as int, entry));
                    assert forall|x: int, y: int| 0 <= x < n.len() && 0 <= y < n.len() && x != y implies entry_key(
                        #[trigger] n[x],
                    ) != entry_key(#[trigger] n[y]) by {
                        assert(entry_key(n[x]) == entry_key(old_entries[x]));
                        assert(entry_key(n[y]) == entry_key(old_entries[y]));
                    }
                    lemma_entries_map(n);
                    assert forall|q: PolicyKey| #[trigger] entries_map(n).contains_key(q) <==> entries_map(old_entries).insert(k, c@).contains_key(q) by {
                        if entries_map(n).contains_key(q) {
                            let j = choose|j: int| 0 <= j < n.len() && entry_key(#[trigger] n[j]) == q;
                            assert(entry_key(old_entries[j]) == q);
                        }
                        if entries_map(old_entries).contains_key(q) {
                            let j = choose|j: int| 0 <= j < old_entries.len() && entry_key(#[trigger] old_entries[j]) == q;
                            assert(entry_key(n[j]) == q);
                        }
                        if q == k {
                            assert(entry_key(n[i as int]) == q);
                        }
                    }
                    assert forall|q: PolicyKey| #[trigger] entries_map(n).contains_key(q) implies entries_map(n)[q] == entries_map(old_entries).insert(k, c@)[q] by {
                        let j = choose|j: int| 0 <= j < n.len() && entry_key(#[trigger] n[j]) == q;
                        if j != i {
                            assert(n[j] == old_entries[j]);
                        }
                    }
                    assert(entries_map(n) =~= entries_map(old_entries).insert(k, c@));
                }
                self.entries = entries;
            },
            None => {
                let mut entries: Vec<PolicyEntry> = Vec::new();
                std::mem::swap(&mut self.entries, &mut entries);
                entries.push(entry);
                proof {
                    let n = entries@;
                    assert(n.drop_last() =~= old_entries);
                    assert forall|x: int, y: int| 0 <= x < n.len() && 0 <= y < n.len() && x != y implies entry_key(
                        #[trigger] n[x],
                    ) != entry_key(#[trigger] n[y]) by {
                        if x < old_entries.len() {
                            assert(n[x] == old_entries[x]);
                        }
                        if y < old_entries.len() {
                            assert(n[y] == old_entries[y]);
                        }
                    }
                }
                self.entries = entries;
            },
        }
        Ok(())
    }

    fn del_policy(&mut self, r: &Resource, a: &Action) -> (res: Result<(), PolicyError>)
        ensures
            res is Ok,
    {
        proof {
            use_type_invariant(&*self);
            lemma_entries_map(self.entries@);
        }
        let ghost old_entries = self.entries@;
        let ghost k: PolicyKey = (r@, a@);
        match self.find(&r.0, &a.0) {
            Some(i) => {
                let mut entries: Vec<PolicyEntry> = Vec::new();
                std::mem::swap(&mut self.entries, &mut entries);
                entries.remove(i);
                proof {
                    let n = entries@;
                    assert(n == old_entries.remove(i as int));
                    assert forall|x: int| 0 <= x < n.len() implies #[trigger] n[x] == old_entries[if x < i { x } else { x + 1 }] by {}
                    assert forall|x: int, y: int| 0 <= x < n.len() && 0 <= y < n.len() && x != y implies entry_key(
                        #[trigger] n[x],
                    ) != entry_key(#[trigger] n[y]) by {
                        assert(n[x] == old_entries[if x < i { x } else { x + 1 }]);
                        assert(n[y] == old_entries[if y < i { y } else { y + 1 }]);
                    }
                    lemma_entries_map(n);
                    assert forall|q: PolicyKey| #[trigger] entries_map(n).contains_key(q) <==> entries_map(old_entries).remove(k).contains_key(q) by {
                        if entries_map(n).contains_key(q) {
                            let j = choose|j: int| 0 <= j < n.len() && entry_key(#[trigger] n[j]) == q;
                            let oj = if j < i { j } else { j + 1 };
                            assert(n[j] == old_entries[oj]);
                            assert(entry_key(old_entries[oj]) == q);
                        }
                        if entries_map(old_entries).contains_key(q) && q != k {
                            let j = choose|j: int| 0 <= j < old_entries.len() && entry_key(#[trigger] old_entries[j]) == q;
                            let nj = if j < i { j } else { j - 1 };
                            assert(n[nj] == old_entries[j]);
                            assert(entry_key(n[nj]) == q);
                        }
                    }
                    assert forall|q: PolicyKey| #[trigger] entries_map(n).contains_key(q) implies entries_map(n)[q] == entries_map(old_entries).remove(k)[q] by {
                        let j = choose|j: int| 0 <= j < n.len() && entry_key(#[trigger] n[j]) == q;
                        let oj = if j < i { j } else { j + 1 };
                        assert(n[j] == old_entries[oj]);
                    }
                    assert(entries_map(n) =~= entries_map(old_entries).remove(k));
                }
                self.entries = entries;
            },
            None => {
                assert(entries_map(old_entries) =~= entries_map(old_entries).remove(k));
            },
        }
        Ok(())
    }

    fn policies(&self, r: &Resource) -> (res: Result<Vec<(Action, Expr)>, PolicyError>)
        ensures
            res is Ok,
    {
        proof {
            use_type_invariant(self);
            lemma_entries_map(self.entries@);
        }
        let ghost s = self.entries@;
        let mut v: Vec<(Action, Expr)> = Vec::new();
        let ghost mut idx: Seq<int> = Seq::empty();
        let mut i: usize = 0;
        while i < self.entries.len()
            invariant
                s == self.entries@,
                keys_unique(s),
                i <= s.len(),
                idx.len() == v@.len(),
                forall|j: int| 0 <= j < idx.len() ==> 0 <= #[trigger] idx[j] < i,
                forall|j: int, l: int| 0 <= j < l < idx.len() ==> #[trigger] idx[j] < #[trigger] idx[l],
                forall|j: int| 0 <= j < idx.len() ==> s[#[trigger] idx[j]].resource@ == r@
                    && v@[j].0@ == s[idx[j]].action@ && v@[j].1@ == s[idx[j]].expr@,
                forall|x: int| 0 <= x < i && (#[trigger] s[x]).resource@ == r@ ==> exists|j: int| 0 <= j < idx.len() && idx[j] == x,
            decreases s.len() - i,
        {
            let ghost old_idx = idx;
            if self.entries[i].resource == r.0 {
                let pair = (Action(self.entries[i].action.clone()), Expr(self.entries[i].expr.clone()));
                v.push(pair);
                proof {
                    idx = idx.push(i as int);
                    assert(idx[idx.len() - 1] == i as int);
                }
            }
            proof {
                assert forall|x: int| 0 <= x < i + 1 && (#[trigger] s[x]).resource@ == r@ implies exists|j: int|
                    0 <= j < idx.len() && idx[j] == x by {
                    if x < i {
                        let j = choose|j: int| 0 <= j < old_idx.len() && old_idx[j] == x;
                        assert(idx[j] == x);
                    } else {
                        assert(idx[idx.len() - 1] == x);
                    }
                }
            }
            i = i + 1;
        }
        proof {
            let m = entries_map(s);
            assert forall|j: int| 0 <= j < v@.len() implies lookup(m, r@, (#[trigger] v@[j]).0@) == Some(v@[j].1@) by {
                assert(entry_key(s[idx[j]]) == (r@, v@[j].0@));
            }
            assert forall|q: Seq<char>| #[trigger] m.contains_key((r@, q)) implies exists|j: int| 0 <= j < v@.len() && (#[trigger] v@[j]).0@ == q by {
                let x = choose|x: int| 0 <= x < s.len() && entry_key(#[trigger] s[x]) == (r@, q);
                let j = choose|j: int| 0 <= j < idx.len() && idx[j] == x;
                assert(v@[j].0@ == q);
            }
            assert forall|j: int, l: int| 0 <= j < v@.len() && 0 <= l < v@.len() && j != l implies (#[trigger] v@[j]).0@ != (#[trigger] v@[l]).0@ by {
                if j < l {
                    assert(idx[j] < idx[l]);
                } else {
                    assert(idx[l] < idx[j]);
                }
                assert(entry_key(s[idx[j]]) != entry_key(s[idx[l]]));
            }
        }
        Ok(v)
    }
}

} // verus!
