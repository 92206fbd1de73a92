//! Generic request/response correlation for tools whose execution is
//! delegated to an external actor.
//!
//! A pending request registers a single-use response slot under a fresh id.
//! Fulfillment looks the slot up and removes it atomically, so delivery is
//! at most once per id: a late or repeated fulfillment finds no slot and is
//! dropped.  Every error path removes the entry, so no registration leaks.

use vstd::prelude::*;

verus! {

/// The keys of an entry list are pairwise distinct.
pub open spec fn keys_distinct<T>(s: Seq<(String, T)>) -> bool {
    forall|i: int, j: int|
        0 <= i < s.len() && 0 <= j < s.len() && i != j ==> s[i].0@ != s[j].0@
}

/// The map an entry list denotes.
pub open spec fn entries_map<T>(s: Seq<(String, T)>) -> Map<Seq<char>, T>
    decreases s.len(),
{
    if s.len() == 0 {
        Map::<Seq<char>, T>::empty()
    } else {
        entries_map(s.drop_last()).insert(s.last().0@, s.last().1)
    }
}

/// A key held by no entry is not in the denoted map.
proof fn lemma_entries_map_absent<T>(s: Seq<(String, T)>, k: Seq<char>)
    requires
        forall|i: int| 0 <= i < s.len() ==> s[i].0@ != k,
    ensures
        !entries_map(s).contains_key(k),
    decreases s.len(),
{
    if s.len() > 0 {
        assert(forall|i: int| 0 <= i < s.drop_last().len() ==> s.drop_last()[i] == s[i]);
        lemma_entries_map_absent(s.drop_last(), k);
        assert(s.last().0@ != k);
    }
}

/// Removing the entry at `i` removes exactly its key from the denoted map,
/// which held exactly its value there.
proof fn lemma_entries_map_remove<T>(s: Seq<(String, T)>, i: int)
    requires
        keys_distinct(s),
        0 <= i < s.len(),
    ensures
        entries_map(s).contains_key(s[i].0@),
        entries_map(s)[s[i].0@] == s[i].1,
        entries_map(s.remove(i)) == entries_map(s).remove(s[i].0@),
    decreases s.len(),
{
    let k = s[i].0@;
    if i == s.len() - 1 {
        assert(s.remove(i) =~= s.drop_last());
        assert forall|j: int| 0 <= j < s.drop_last().len() implies s.drop_last()[j].0@
            != k by {
            assert(s.drop_last()[j] == s[j]);
        }
        lemma_entries_map_absent(s.drop_last(), k);
        assert(entries_map(s.drop_last()) =~= entries_map(s.drop_last()).insert(k,
            s.last().1).remove(k));
    } else {
        assert(s.drop_last().len() == s.len() - 1);
        assert(forall|j: int| 0 <= j < s.len() - 1 ==> s.drop_last()[j] == s[j]);
        assert(keys_distinct(s.drop_last()));
        lemma_entries_map_remove(s.drop_last(), i);
        assert(s.remove(i).drop_last() =~= s.drop_last().remove(i));
        assert(s.remove(i).last() == s.last());
        let klast = s.last().0@;
        assert(klast == s[s.len() - 1].0@);
        assert(klast != k);
        assert(entries_map(s.remove(i)) == entries_map(s.drop_last().remove(i)).insert(klast,
            s.last().1));
        assert(entries_map(s.drop_last()).remove(k).insert(klast, s.last().1)
            =~= entries_map(s.drop_last()).insert(klast, s.last().1).remove(k));
    }
}

/// A shared table of pending correlations: each in-flight request id owns
/// one single-use response slot.
pub struct CorrelationTable<T> {
    entries: Vec<(String, T)>,
}

impl<T> View for CorrelationTable<T> {
    type V = Map<Seq<char>, T>;

    closed spec fn view(&self) -> Map<Seq<char>, T> {
        entries_map(self.entries@)
    }
}

impl<T> CorrelationTable<T> {
    /// The table's internal entry list holds each id at most once.
    pub closed spec fn wf(&self) -> bool {
        keys_distinct(self.entries@)
    }

    /// An empty table.
    pub fn new() -> (r: Self)
        ensures
            r.wf(),
            r@ == Map::<Seq<char>, T>::empty(),
    {
        let r = CorrelationTable { entries: Vec::new() };
        proof {
            assert(r@ =~= Map::<Seq<char>, T>::empty());
        }
        r
    }

    /// Index of the entry holding `id`, scanning from the front.
    fn find_entry(&self, id: &String) -> (r: Option<usize>)
        ensures
            match r {
                Some(i) => i < self.entries@.len() && self.entries@[i as int].0@ == id@,
                None => forall|i: int|
                    0 <= i < self.entries@.len() ==> self.entries@[i as int].0@ != id@,
            },
    {
        let n = self.entries.len();
        let mut k: usize = 0;
        while k < n
            invariant
                k <= n,
                n == self.entries@.len(),
                forall|i: int| 0 <= i < k ==> self.entries@[i].0@ != id@,
            decreases n - k,
        {
            if crate::types::string_is(&self.entries[k].0, id.as_str()) {
                return Some(k);
            }
            k = k + 1;
        }
        None
    }

    /// Whether a slot is pending under `id`.
    pub fn is_pending(&self, id: &String) -> (r: bool)
        requires
            self.wf(),
        ensures
            r == self@.contains_key(id@),
    {
        let found = self.find_entry(id);
        proof {
            match found {
                Some(i) => {
                    lemma_entries_map_remove(self.entries@, i as int);
                },
                None => {
                    lemma_entries_map_absent(self.entries@, id@);
                },
            }
        }
        found.is_some()
    }

    /// Registers a single-use slot under `id`.  A taken id is never
    /// overwritten: the slot comes back in the error.
    pub fn register(&mut self, id: &String, slot: T) -> (r: Result<(), T>)
        requires
            old(self).wf(),
        ensures
            final(self).wf(),
            match r {
                Ok(()) => !old(self)@.contains_key(id@) && final(self)@ == old(self)@.insert(
                    id@,
                    slot,
                ),
                Err(s) => old(self)@.contains_key(id@) && final(self)@ == old(self)@ && s
                    == slot,
            },
    {
        let found = self.find_entry(id);
        match found {
            Some(i) => {
                proof {
                    lemma_entries_map_remove(self.entries@, i as int);
                }
                Err(slot)
            },
            None => {
                proof {
                    lemma_entries_map_absent(self.entries@, id@);
                }
                let ghost s0 = self.entries@;
                self.entries.push((id.clone(), slot));
                proof {
                    assert(self.entries@.drop_last() =~= s0);
                    assert(self.entries@.last() == (self.entries@[self.entries@.len() - 1]));
                    assert(entries_map(self.entries@) == entries_map(s0).insert(id@, slot));
                    assert forall|i: int, j: int|
                        0 <= i < self.entries@.len() && 0 <= j < self.entries@.len() && i != j
                            implies self.entries@[i].0@ != self.entries@[j].0@ by {
                        if i < s0.len() && j < s0.len() {
                            assert(s0[i].0@ != s0[j].0@);
                        } else if i == s0.len() as int {
                            assert(s0[j].0@ != id@);
                        } else if j == s0.len() as int {
                            assert(s0[i].0@ != id@);
                        }
                    }
                }
                Ok(())
            },
        }
    }

    /// Looks the slot for `id` up and removes it atomically.  Present
    /// exactly when the id is still pending, so delivery through the slot
    /// happens at most once per id.
    pub fn resolve(&mut self, id: &String) -> (r: Option<T>)
        requires
            old(self).wf(),
        ensures
            final(self).wf(),
            final(self)@ == old(self)@.remove(id@),
            match r {
                Some(slot) => old(self)@.contains_key(id@) && old(self)@[id@] == slot,
                None => !old(self)@.contains_key(id@),
            },
    {
        let found = self.find_entry(id);
        match found {
            Some(i) => {
                proof {
                    lemma_entries_map_remove(self.entries@, i as int);
                }
                let ghost s0 = self.entries@;
                let entry = self.entries.remove(i);
                proof {
                    assert(self.entries@ =~= s0.remove(i as int));
                    assert forall|p: int, q: int|
                        0 <= p < self.entries@.len() && 0 <= q < self.entries@.len() && p != q
                            implies self.entries@[p].0@ != self.entries@[q].0@ by {
                        let pp: int = if p < i as int {
                            p
                        } else {
                            p + 1
                        };
                        let qq: int = if q < i as int {
                            q
                        } else {
                            q + 1
                        };
                        assert(self.entries@[p] == s0[pp]);
                        assert(self.entries@[q] == s0[qq]);
                        assert(s0[pp].0@ != s0[qq].0@);
                    }
                }
                Some(entry.1)
            },
            None => {
                proof {
                    lemma_entries_map_absent(self.entries@, id@);
                    assert(entries_map(self.entries@) =~= entries_map(self.entries@).remove(
                        id@));
                }
                None
            },
        }
    }

}

/// Resolving a given correlation id twice delivers the slot only on the
/// first resolution.  After one removal the id is gone from the table, so a
/// second resolution finds nothing and leaves the table unchanged: a silent
/// no-op, never a double delivery.
pub proof fn lemma_single_resolution<T>(m: Map<Seq<char>, T>, id: Seq<char>)
    ensures
        !m.remove(id).contains_key(id),
        m.remove(id).remove(id) == m.remove(id),
{
    assert(m.remove(id).remove(id) =~= m.remove(id));
}

/// The outcome of one bridged request.
#[derive(Debug)]
pub enum BridgeOutcome<R> {
    /// The external actor answered in time.
    Response(R),
    /// The wait expired.
    Timeout,
    /// The reply channel closed early.
    ChannelClosed,
}

} // verus!
