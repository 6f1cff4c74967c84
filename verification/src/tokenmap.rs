//! Association map from device identifiers to opaque tokens.
//!
//! Both shared tables of the multiplexer (the stream registry and the
//! pending-request table) bind a device identifier to a token: a number by
//! which the embedding process names an outbound channel or a completion
//! handle. The map is backed by a vector with pairwise-distinct keys and is
//! specified against its abstract `Map` view.

use vstd::prelude::*;

verus! {

struct Binding {
    key: String,
    val: u64,
}

pub struct TokenMap {
    entries: Vec<Binding>,
}

spec fn bindings_map(s: Seq<Binding>) -> Map<Seq<char>, u64>
    decreases s.len(),
{
    if s.len() == 0 {
        Map::empty()
    } else {
        bindings_map(s.drop_last()).insert(s.last().key@, s.last().val)
    }
}

spec fn distinct_keys(s: Seq<Binding>) -> bool {
    forall|i: int, j: int| 0 <= i < j < s.len() ==> s[i].key@ != s[j].key@
}

proof fn lemma_map_contains(s: Seq<Binding>, k: Seq<char>)
    ensures
        bindings_map(s).contains_key(k) <==> exists|i: int| 0 <= i < s.len() && s[i].key@ == k,
    decreases s.len(),
{
    if s.len() > 0 {
        lemma_map_contains(s.drop_last(), k);
        if s.last().key@ == k {
            assert(s[s.len() - 1].key@ == k);
        } else if bindings_map(s).contains_key(k) {
            let i = choose|i: int| 0 <= i < s.drop_last().len() && s.drop_last()[i].key@ == k;
            assert(s[i].key@ == k);
        } else if exists|i: int| 0 <= i < s.len() && s[i].key@ == k {
            let i = choose|i: int| 0 <= i < s.len() && s[i].key@ == k;
            assert(s.drop_last()[i].key@ == k);
        }
    }
}

proof fn lemma_map_value(s: Seq<Binding>, i: int)
    requires
        distinct_keys(s),
        0 <= i < s.len(),
    ensures
        bindings_map(s).contains_key(s[i].key@),
        bindings_map(s)[s[i].key@] == s[i].val,
    decreases s.len(),
{
    if i == s.len() - 1 {
    } else {
        assert(distinct_keys(s.drop_last()));
        assert(s.drop_last()[i] == s[i]);
        lemma_map_value(s.drop_last(), i);
        assert(s[i].key@ != s.last().key@);
    }
}

proof fn lemma_map_remove(s: Seq<Binding>, i: int)
    requires
        distinct_keys(s),
        0 <= i < s.len(),
    ensures
        bindings_map(s.remove(i)) =~= bindings_map(s).remove(s[i].key@),
    decreases s.len(),
{
    if i == s.len() - 1 {
        assert(s.remove(i) =~= s.drop_last());
        lemma_map_contains(s.drop_last(), s.last().key@);
        assert(forall|j: int| 0 <= j < s.drop_last().len() ==> s.drop_last()[j].key@ != s.last().key@);
        assert(!bindings_map(s.drop_last()).contains_key(s.last().key@));
    } else {
        assert(distinct_keys(s.drop_last()));
        assert(s.remove(i).last() == s.last());
        assert(s.remove(i).drop_last() =~= s.drop_last().remove(i));
        assert(s.drop_last()[i] == s[i]);
        lemma_map_remove(s.drop_last(), i);
        assert(s[i].key@ != s.last().key@);
    }
}

proof fn lemma_distinct_remove(s: Seq<Binding>, i: int)
    requires
        distinct_keys(s),
        0 <= i < s.len(),
    ensures
        distinct_keys(s.remove(i)),
{
    assert forall|x: int, y: int| 0 <= x < y < s.remove(i).len() implies s.remove(i)[x].key@
        != s.remove(i)[y].key@ by {
        assert(s.remove(i)[x] == if x < i {
            s[x]
        } else {
            s[x + 1]
        });
        assert(s.remove(i)[y] == if y < i {
            s[y]
        } else {
            s[y + 1]
        });
    }
}

proof fn lemma_map_push(s: Seq<Binding>, b: Binding)
    ensures
        bindings_map(s.push(b)) =~= bindings_map(s).insert(b.key@, b.val),
{
    assert(s.push(b).drop_last() =~= s);
    assert(s.push(b).last() == b);
}

impl View for TokenMap {
    type V = Map<Seq<char>, u64>;

    closed spec fn view(&self) -> Map<Seq<char>, u64> {
        bindings_map(self.entries@)
    }
}

impl TokenMap {
    pub closed spec fn wf(self) -> bool {
        distinct_keys(self.entries@)
    }

    pub fn new() -> (r: TokenMap)
        ensures
            r.wf(),
            r@ == Map::<Seq<char>, u64>::empty(),
    {
        TokenMap { entries: Vec::new() }
    }

    fn index_of(&self, key: &String) -> (r: Option<usize>)
        ensures
            match r {
                Some(i) => i < self.entries@.len() && self.entries@[i as int].key@ == key@,
                None => forall|i: int| 0 <= i < self.entries@.len() ==> self.entries@[i].key@ != key@,
            },
    {
        let mut i: usize = 0;
        while i < self.entries.len()
            invariant
                i <= self.entries@.len(),
                forall|j: int| 0 <= j < i ==> self.entries@[j].key@ != key@,
            decreases self.entries@.len() - i,
        {
            if self.entries[i].key == *key {
                return Some(i);
            }
            i = i + 1;
        }
        None
    }

    /// Current token bound to `key`, if any.
    pub fn get(&self, key: &String) -> (r: Option<u64>)
        requires
            self.wf(),
        ensures
            r is Some <==> self@.contains_key(key@),
            r matches Some(v) ==> self@[key@] == v,
    {
        proof {
            lemma_map_contains(self.entries@, key@);
        }
        match self.index_of(key) {
            Some(i) => {
                proof {
                    lemma_map_value(self.entries@, i as int);
                }
                Some(self.entries[i].val)
            },
            None => None,
        }
    }

    /// Binds `key` to `val`, replacing (and returning) any previous binding.
    pub fn insert(&mut self, key: String, val: u64) -> (prev: Option<u64>)
        requires
            old(self).wf(),
        ensures
            final(self).wf(),
            final(self)@ == old(self)@.insert(key@, val),
            prev is Some <==> old(self)@.contains_key(key@),
            prev matches Some(p) ==> old(self)@[key@] == p,
    {
        proof {
            lemma_map_contains(self.entries@, key@);
        }
        let prev: Option<u64> = match self.index_of(&key) {
            Some(i) => {
                let p = self.entries[i].val;
                proof {
                    lemma_map_value(self.entries@, i as int);
                    lemma_map_remove(self.entries@, i as int);
                    lemma_distinct_remove(self.entries@, i as int);
                }
                self.entries.remove(i);
                Some(p)
            },
            None => None,
        };
        proof {
            lemma_map_contains(self.entries@, key@);
            lemma_map_push(self.entries@, Binding { key, val });
        }
        assert(forall|j: int| 0 <= j < self.entries@.len() ==> self.entries@[j].key@ != key@) by {
            lemma_map_contains(self.entries@, key@);
            assert(!bindings_map(self.entries@).contains_key(key@));
        }
        let ghost pre_push = self.entries@;
        self.entries.push(Binding { key, val });
        proof {
            assert forall|x: int, y: int| 0 <= x < y < self.entries@.len() implies self.entries@[x].key@
                != self.entries@[y].key@ by {
                if y < pre_push.len() {
                    assert(self.entries@[x] == pre_push[x]);
                    assert(self.entries@[y] == pre_push[y]);
                } else {
                    assert(self.entries@[x] == pre_push[x]);
                }
            }
            assert(final(self)@ =~= old(self)@.insert(key@, val));
        }
        prev
    }

    /// Removes and returns the binding for `key`: the sole path by which a
    /// pending request's completion handle can be obtained for resolution.
    pub fn take(&mut self, key: &String) -> (r: Option<u64>)
        requires
            old(self).wf(),
        ensures
            final(self).wf(),
            final(self)@ == old(self)@.remove(key@),
            r is Some <==> old(self)@.contains_key(key@),
            r matches Some(v) ==> old(self)@[key@] == v,
    {
        proof {
            lemma_map_contains(self.entries@, key@);
        }
        match self.index_of(key) {
            Some(i) => {
                let v = self.entries[i].val;
                proof {
                    lemma_map_value(self.entries@, i as int);
                    lemma_map_remove(self.entries@, i as int);
                    lemma_distinct_remove(self.entries@, i as int);
                }
                self.entries.remove(i);
                Some(v)
            },
            None => {
                proof {
                    assert(final(self)@ =~= old(self)@.remove(key@));
                }
                None
            },
        }
    }

    /// Removes the binding for `key` only if it currently maps to `val`: a
    /// stale deregistration must not evict a newer registration.
    pub fn remove_if_val(&mut self, key: &String, val: u64)
        requires
            old(self).wf(),
        ensures
            final(self).wf(),
            final(self)@ == if old(self)@.contains_key(key@) && old(self)@[key@] == val {
                old(self)@.remove(key@)
            } else {
                old(self)@
            },
    {
        proof {
            lemma_map_contains(self.entries@, key@);
        }
        match self.index_of(key) {
            Some(i) => {
                proof {
                    lemma_map_value(self.entries@, i as int);
                }
                if self.entries[i].val == val {
                    proof {
                        lemma_map_remove(self.entries@, i as int);
                        lemma_distinct_remove(self.entries@, i as int);
                    }
                    self.entries.remove(i);
                }
            },
            None => {},
        }
    }
}

} // verus!
