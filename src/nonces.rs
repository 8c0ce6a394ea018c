use vstd::prelude::*;

use crate::types::Identifier;

verus! {

/// The counter stored for `id` in a list of (principal, counter) entries,
/// 0 where the list has none.
pub open spec fn lookup(s: Seq<(Identifier, u64)>, id: Identifier) -> u64
    decreases s.len(),
{
    if s.len() == 0 {
        0
    } else if s.last().0 == id {
        s.last().1
    } else {
        lookup(s.drop_last(), id)
    }
}

/// No principal has two entries.
pub open spec fn unique_keys(s: Seq<(Identifier, u64)>) -> bool {
    forall|i: int, j: int| 0 <= i < s.len() && 0 <= j < s.len() && s[i].0 == s[j].0 ==> i == j
}

proof fn lemma_lookup_absent(s: Seq<(Identifier, u64)>, id: Identifier)
    requires
        forall|i: int| 0 <= i < s.len() ==> s[i].0 != id,
    ensures
        lookup(s, id) == 0,
    decreases s.len(),
{
    if s.len() > 0 {
        lemma_lookup_absent(s.drop_last(), id);
    }
}

proof fn lemma_lookup_at(s: Seq<(Identifier, u64)>, i: int)
    requires
        unique_keys(s),
        0 <= i < s.len(),
    ensures
        lookup(s, s[i].0) == s[i].1,
    decreases s.len(),
{
    if i < s.len() - 1 {
        assert(s.last().0 != s[i].0);
        assert(s.drop_last()[i] == s[i]);
        lemma_lookup_at(s.drop_last(), i);
    }
}

proof fn lemma_lookup_update(s: Seq<(Identifier, u64)>, i: int, v: u64, other: Identifier)
    requires
        unique_keys(s),
        0 <= i < s.len(),
    ensures
        lookup(s.update(i, (s[i].0, v)), other) == if other == s[i].0 {
            v
        } else {
            lookup(s, other)
        },
    decreases s.len(),
{
    let t = s.update(i, (s[i].0, v));
    if i == s.len() - 1 {
        assert(t.drop_last() =~= s.drop_last());
    } else {
        assert(t.drop_last() =~= s.drop_last().update(i, (s[i].0, v)));
        assert(s.drop_last()[i] == s[i]);
        lemma_lookup_update(s.drop_last(), i, v, other);
        if other == s[i].0 {
            assert(s.last().0 != s[i].0);
        }
    }
}

/// A strictly increasing counter for each principal, starting at 0.
pub struct NonceBook {
    entries: Vec<(Identifier, u64)>,
}

impl NonceBook {
    pub closed spec fn wf(&self) -> bool {
        unique_keys(self.entries@)
    }

    /// The counter of every principal.
    pub closed spec fn view(&self) -> Map<Identifier, u64> {
        Map::total(|id: Identifier| lookup(self.entries@, id))
    }

    pub fn new() -> (r: NonceBook)
        ensures
            r.wf(),
            r@ == Map::total(|id: Identifier| 0u64),
    {
        let r = NonceBook { entries: Vec::new() };
        proof {
            assert forall|id: Identifier| #[trigger] r@[id] == 0u64 by {
                lemma_lookup_absent(r.entries@, id);
            }
            assert(r@ =~= Map::total(|id: Identifier| 0u64));
        }
        r
    }

    fn position(&self, id: &Identifier) -> (r: Option<usize>)
        requires
            self.wf(),
        ensures
            match r {
                Some(i) => i < self.entries@.len() && self.entries@[i as int].0 == *id,
                None => forall|j: int| 0 <= j < self.entries@.len() ==> self.entries@[j].0 != *id,
            },
    {
        let mut i: usize = 0;
        while i < self.entries.len()
            invariant
                0 <= i <= self.entries@.len(),
                forall|j: int| 0 <= j < i ==> self.entries@[j].0 != *id,
            decreases self.entries@.len() - i,
        {
            if self.entries[i].0.same_as(id) {
                return Some(i);
            }
            i = i + 1;
        }
        None
    }

    /// The counter of `id`.
    pub fn get(&self, id: &Identifier) -> (r: u64)
        requires
            self.wf(),
        ensures
            r == self@[*id],
    {
        match self.position(id) {
            Some(i) => {
                proof {
                    lemma_lookup_at(self.entries@, i as int);
                }
                self.entries[i].1
            },
            None => {
                proof {
                    lemma_lookup_absent(self.entries@, *id);
                }
                0
            },
        }
    }

    /// Sets the counter of `id` to `v`, leaving every other one as it was.
    pub fn set(&mut self, id: &Identifier, v: u64)
        requires
            old(self).wf(),
        ensures
            final(self).wf(),
            final(self)@ == old(self)@.insert(*id, v),
    {
        match self.position(id) {
            Some(i) => {
                proof {
                    assert forall|o: Identifier| #[trigger]
                        lookup(self.entries@.update(i as int, (*id, v)), o) == if o == *id {
                            v
                        } else {
                            lookup(self.entries@, o)
                        } by {
                        lemma_lookup_update(self.entries@, i as int, v, o);
                    }
                }
                let ghost before = self.entries@;
                self.entries.set(i, (*id, v));
                proof {
                    assert(self.entries@ =~= before.update(i as int, (*id, v)));
                    assert(unique_keys(self.entries@));
                    assert(self@ =~= old(self)@.insert(*id, v));
                }
            },
            None => {
                let ghost before = self.entries@;
                self.entries.push((*id, v));
                proof {
                    assert(self.entries@.drop_last() =~= before);
                    assert(unique_keys(self.entries@));
                    assert(self@ =~= old(self)@.insert(*id, v));
                }
            },
        }
    }
}

} // verus!
