//! An index-style registry of live connections.
//!
//! Values are kept in slots addressed by a `usize` id. Inserting reuses the
//! first free slot, so ids stay small and a freed id is reusable once its
//! connection closes.

use vstd::assert_sets_equal;
use vstd::prelude::*;

verus! {

/// Registry that hands out the first free index on insertion.
pub struct IdMap<T> {
    storage: Vec<Option<T>>,
}

impl<T> View for IdMap<T> {
    type V = Seq<Option<T>>;

    closed spec fn view(&self) -> Seq<Option<T>> {
        self.storage@
    }
}

/// The values held in the occupied slots of `s`, in slot order.
pub open spec fn active_values<T>(s: Seq<Option<T>>) -> Seq<T>
    decreases s.len(),
{
    if s.len() == 0 {
        Seq::empty()
    } else {
        match s.last() {
            Some(v) => active_values(s.drop_last()).push(v),
            None => active_values(s.drop_last()),
        }
    }
}

/// The ids (slot indices) of the occupied slots of `s`.
pub open spec fn active_ids<T>(s: Seq<Option<T>>) -> Set<int> {
    Set::new(|i: int| 0 <= i < s.len() && s[i] is Some)
}

impl<T> IdMap<T> {
    /// Stores `item` in the first free slot, or in a fresh slot at the end,
    /// and returns its id.
    pub fn insert(&mut self, item: T) -> (idx: usize)
        ensures
            idx <= old(self)@.len(),
            forall|j: int| 0 <= j < idx ==> old(self)@[j] is Some,
            idx < old(self)@.len() ==> old(self)@[idx as int] is None && final(self)@
                == old(self)@.update(idx as int, Some(item)),
            idx == old(self)@.len() ==> final(self)@ == old(self)@.push(Some(item)),
            final(self)@[idx as int] == Some(item),
            active_ids(final(self)@) == active_ids(old(self)@).insert(idx as int),
    {
        let n = self.storage.len();
        let mut i: usize = 0;
        while i < n
            invariant
                i <= n,
                n == self.storage@.len(),
                self.storage@ == old(self).storage@,
                forall|j: int| 0 <= j < i ==> self.storage@[j] is Some,
            decreases n - i,
        {
            if self.storage[i].is_none() {
                self.storage[i] = Some(item);
                proof {
                    assert_sets_equal!(
                        active_ids(self.storage@) == active_ids(old(self).storage@).insert(i as int)
                    );
                }
                return i;
            }
            i = i + 1;
        }
        self.storage.push(Some(item));
        proof {
            assert_sets_equal!(
                active_ids(self.storage@) == active_ids(old(self).storage@).insert(n as int)
            );
        }
        n
    }

    /// Frees the slot `idx` and returns the value it held, or `None` if the
    /// slot does not exist or is already free.
    pub fn remove(&mut self, idx: usize) -> (removed: Option<T>)
        ensures
            idx < old(self)@.len() && old(self)@[idx as int] is Some ==> removed == old(self)@[idx as int]
                && final(self)@ == old(self)@.update(idx as int, None),
            !(idx < old(self)@.len() && old(self)@[idx as int] is Some) ==> removed is None
                && final(self)@ == old(self)@,
            active_ids(final(self)@) == active_ids(old(self)@).remove(idx as int),
    {
        let removed: Option<T> = if idx < self.storage.len() {
            self.storage[idx].take()
        } else {
            None
        };
        proof {
            assert_sets_equal!(
                active_ids(self.storage@) == active_ids(old(self).storage@).remove(idx as int)
            );
        }
        removed
    }
}

impl<T: Copy> IdMap<T> {
    /// The values of all occupied slots, in slot order.
    pub fn values(&self) -> (vals: Vec<T>)
        ensures
            vals@ == active_values(self@),
    {
        let mut vals: Vec<T> = Vec::new();
        let n = self.storage.len();
        let mut i: usize = 0;
        while i < n
            invariant
                i <= n,
                n == self.storage@.len(),
                vals@ == active_values(self.storage@.take(i as int)),
            decreases n - i,
        {
            proof {
                assert(self.storage@.take(i + 1 as int).drop_last() == self.storage@.take(i as int));
                assert(self.storage@.take(i + 1 as int).last() == self.storage@[i as int]);
            }
            match self.storage[i] {
                Some(v) => vals.push(v),
                None => (),
            }
            i = i + 1;
        }
        proof {
            assert(self.storage@.take(n as int) == self.storage@);
        }
        vals
    }
}

impl<T> Default for IdMap<T> {
    /// An empty registry.
    fn default() -> (result: Self)
        ensures
            result@ == Seq::<Option<T>>::empty(),
    {
        IdMap { storage: Vec::new() }
    }
}

/// Every value held in an occupied slot appears among the active values.
pub proof fn lemma_active_slot_value_is_active<T>(s: Seq<Option<T>>, i: int)
    requires
        0 <= i < s.len(),
        s[i] is Some,
    ensures
        active_values(s).contains(s[i]->Some_0),
    decreases s.len(),
{
    if i == s.len() - 1 {
        let vals = active_values(s);
        assert(vals[vals.len() - 1] == s[i]->Some_0);
    } else {
        lemma_active_slot_value_is_active(s.drop_last(), i);
        assert(s.drop_last()[i] == s[i]);
        match s.last() {
            Some(v) => {
                let prev = active_values(s.drop_last());
                let k = choose|k: int| 0 <= k < prev.len() && prev[k] == s[i]->Some_0;
                assert(active_values(s)[k] == s[i]->Some_0);
            },
            None => {},
        }
    }
}

} // verus!
