//! The shared store of the most recent probe result per service name.
//!
//! The cache is an association list with pairwise-distinct keys, modelled as
//! a map from service name to health record. It only grows or updates: a
//! merge replaces or adds the listed keys and never removes one.

use vstd::prelude::*;
use crate::probe::HealthInfoView;
use crate::probe::ServiceHealthInfo;

verus! {

/// Every key of the entry list occurs at most once.
pub open spec fn unique_keys(s: Seq<(String, ServiceHealthInfo)>) -> bool {
    forall|i: int, j: int| 0 <= i < j < s.len() ==> s[i].0@ != s[j].0@
}

/// Some entry of the list carries the given key.
pub open spec fn has_key(s: Seq<(String, ServiceHealthInfo)>, k: Seq<char>) -> bool {
    exists|i: int| 0 <= i < s.len() && s[i].0@ == k
}

/// The map an entry list denotes; on a duplicated key the later entry wins.
pub open spec fn entries_map(s: Seq<(String, ServiceHealthInfo)>) -> Map<
    Seq<char>,
    HealthInfoView,
>
    decreases s.len(),
{
    if s.len() == 0 {
        Map::empty()
    } else {
        entries_map(s.drop_last()).insert(s.last().0@, s.last().1@)
    }
}

/// A key is in the denoted map exactly when some entry carries it.
pub proof fn lemma_entries_map_dom(s: Seq<(String, ServiceHealthInfo)>)
    ensures
        forall|k: Seq<char>| #[trigger] entries_map(s).dom().contains(k) <==> has_key(s, k),
    decreases s.len(),
{
    if s.len() > 0 {
        lemma_entries_map_dom(s.drop_last());
        let d = s.drop_last();
        assert forall|k: Seq<char>| #[trigger]
            entries_map(s).dom().contains(k) <==> has_key(s, k) by {
            assert(entries_map(s) == entries_map(d).insert(s.last().0@, s.last().1@));
            if entries_map(s).dom().contains(k) {
                if k == s.last().0@ {
                    assert(s[s.len() - 1].0@ == k);
                    assert(has_key(s, k));
                } else {
                    assert(entries_map(d).dom().contains(k));
                    assert(has_key(d, k));
                    let i = choose|i: int| 0 <= i < d.len() && d[i].0@ == k;
                    assert(s[i].0@ == k);
                    assert(has_key(s, k));
                }
            }
            if has_key(s, k) {
                let i = choose|i: int| 0 <= i < s.len() && s[i].0@ == k;
                if i < s.len() - 1 {
                    assert(d[i].0@ == k);
                    assert(has_key(d, k));
                    assert(entries_map(d).dom().contains(k));
                } else {
                    assert(k == s.last().0@);
                }
            }
        }
    }
}

/// With distinct keys, each entry is what the denoted map returns for its
/// key.
pub proof fn lemma_entries_map_index(s: Seq<(String, ServiceHealthInfo)>, i: int)
    requires
        unique_keys(s),
        0 <= i < s.len(),
    ensures
        entries_map(s).dom().contains(s[i].0@),
        entries_map(s)[s[i].0@] == s[i].1@,
    decreases s.len(),
{
    if i < s.len() - 1 {
        assert(s.drop_last()[i] == s[i]);
        lemma_entries_map_index(s.drop_last(), i);
        assert(s[i].0@ != s.last().0@);
    }
}

/// Replacing the entry that carries a key denotes inserting into the map.
proof fn lemma_entries_map_update(
    s: Seq<(String, ServiceHealthInfo)>,
    i: int,
    e: (String, ServiceHealthInfo),
)
    requires
        unique_keys(s),
        0 <= i < s.len(),
        e.0@ == s[i].0@,
    ensures
        entries_map(s.update(i, e)) == entries_map(s).insert(e.0@, e.1@),
    decreases s.len(),
{
    let t = s.update(i, e);
    if i == s.len() - 1 {
        assert(t.drop_last() =~= s.drop_last());
        assert(t.last() == e);
        assert(entries_map(s.drop_last()).insert(e.0@, e.1@) =~= entries_map(
            s.drop_last(),
        ).insert(s.last().0@, s.last().1@).insert(e.0@, e.1@));
    } else {
        assert(t.drop_last() =~= s.drop_last().update(i, e));
        assert(t.last() == s.last());
        assert(s.drop_last()[i] == s[i]);
        lemma_entries_map_update(s.drop_last(), i, e);
        assert(e.0@ != s.last().0@);
        assert(entries_map(s.drop_last()).insert(e.0@, e.1@).insert(s.last().0@, s.last().1@)
            =~= entries_map(s.drop_last()).insert(s.last().0@, s.last().1@).insert(
            e.0@,
            e.1@,
        ));
    }
}

/// Appending an entry denotes inserting into the map.
proof fn lemma_entries_map_push(s: Seq<(String, ServiceHealthInfo)>, e: (String, ServiceHealthInfo))
    ensures
        entries_map(s.push(e)) == entries_map(s).insert(e.0@, e.1@),
{
    assert(s.push(e).drop_last() =~= s);
    assert(s.push(e).last() == e);
}

/// Merging a round into a cache is monotone per key: every key probed in the
/// round now holds that round's record, and every key the cache already had
/// is still present — a merge never removes a key, so across sequential
/// rounds a key's record is always the one of the latest round that probed
/// it.
pub proof fn lemma_merge_prefers_new_round(
    before: Map<Seq<char>, HealthInfoView>,
    updates: Seq<(String, ServiceHealthInfo)>,
)
    ensures
        forall|k: Seq<char>|
            entries_map(updates).dom().contains(k) ==> #[trigger] before.union_prefer_right(
                entries_map(updates),
            )[k] == entries_map(updates)[k],
        forall|k: Seq<char>|
            before.dom().contains(k) ==> #[trigger] before.union_prefer_right(
                entries_map(updates),
            ).dom().contains(k),
{
}

/// Across two sequential rounds, a key probed in the second round afterwards
/// holds the second round's record — in particular the `last_check` that
/// round recorded — and a key probed only in the first round keeps the first
/// round's record: a later merge never resurrects an older record for a key
/// it writes, and never touches one it does not.
pub proof fn lemma_sequential_rounds(
    before: Map<Seq<char>, HealthInfoView>,
    round1: Seq<(String, ServiceHealthInfo)>,
    round2: Seq<(String, ServiceHealthInfo)>,
)
    ensures
        forall|k: Seq<char>|
            entries_map(round2).dom().contains(k) ==> #[trigger] before.union_prefer_right(
                entries_map(round1),
            ).union_prefer_right(entries_map(round2))[k] == entries_map(round2)[k],
        forall|k: Seq<char>|
            !entries_map(round2).dom().contains(k) && entries_map(round1).dom().contains(k)
                ==> #[trigger] before.union_prefer_right(entries_map(round1)).union_prefer_right(
                entries_map(round2),
            )[k] == entries_map(round1)[k],
{
}

/// Most recent health record per service name. Created empty at startup and
/// shared for the life of the process; it only grows or updates.
pub struct HealthCache {
    entries: Vec<(String, ServiceHealthInfo)>,
}

impl View for HealthCache {
    type V = Map<Seq<char>, HealthInfoView>;

    closed spec fn view(&self) -> Map<Seq<char>, HealthInfoView> {
        entries_map(self.entries@)
    }
}

impl HealthCache {
    /// The cache's entry list carries each service name at most once.
    pub closed spec fn wf(&self) -> bool {
        unique_keys(self.entries@)
    }

    /// An empty cache.
    pub fn new() -> (c: HealthCache)
        ensures
            c.wf(),
            c@ == Map::<Seq<char>, HealthInfoView>::empty(),
    {
        HealthCache { entries: Vec::new() }
    }

    /// Replaces or adds the record of one service.
    fn put(&mut self, name: String, info: ServiceHealthInfo)
        requires
            old(self).wf(),
        ensures
            final(self).wf(),
            final(self)@ == old(self)@.insert(name@, info@),
    {
        let ghost key = name@;
        let ghost v = info@;
        let mut i: usize = 0;
        while i < self.entries.len()
            invariant
                old(self).wf(),
                *self == *old(self),
                name@ == key,
                info@ == v,
                i <= self.entries@.len(),
                forall|k: int| 0 <= k < i ==> self.entries@[k].0@ != key,
            decreases self.entries@.len() - i,
        {
            if self.entries[i].0 == name {
                proof {
                    lemma_entries_map_update(self.entries@, i as int, (name, info));
                }
                self.entries.set(i, (name, info));
                proof {
                    assert forall|a: int, b: int|
                        0 <= a < b < self.entries@.len() implies self.entries@[a].0@
                        != self.entries@[b].0@ by {
                        assert(old(self).entries@[a].0@ != old(self).entries@[b].0@);
                    }
                }
                return ;
            }
            proof {
                assert(self.entries@[i as int].0@ != key);
            }
            i += 1;
        }
        proof {
            lemma_entries_map_push(self.entries@, (name, info));
            lemma_entries_map_dom(self.entries@);
        }
        self.entries.push((name, info));
        proof {
            assert forall|a: int, b: int|
                0 <= a < b < self.entries@.len() implies self.entries@[a].0@
                != self.entries@[b].0@ by {
                if b < self.entries@.len() - 1 {
                    assert(old(self).entries@[a].0@ != old(self).entries@[b].0@);
                } else {
                    assert(old(self).entries@[a].0@ != key);
                }
            }
        }
    }

    /// Merges one round's results: replaces or adds the listed keys and
    /// removes none. Per key, a later entry of `updates` wins.
    pub fn put_many(&mut self, updates: &Vec<(String, ServiceHealthInfo)>)
        requires
            old(self).wf(),
        ensures
            final(self).wf(),
            final(self)@ == old(self)@.union_prefer_right(entries_map(updates@)),
    {
        let ghost base = old(self)@;
        let mut j: usize = 0;
        while j < updates.len()
            invariant
                self.wf(),
                j <= updates@.len(),
                self@ == base.union_prefer_right(entries_map(updates@.take(j as int))),
            decreases updates@.len() - j,
        {
            let name = updates[j].0.clone();
            let info = updates[j].1.duplicate();
            let ghost pre = self@;
            self.put(name, info);
            proof {
                assert(updates@.take(j + 1).drop_last() =~= updates@.take(j as int));
                assert(updates@.take(j + 1).last() == updates@[j as int]);
                assert(self@ =~= base.union_prefer_right(entries_map(updates@.take(j + 1))));
            }
            j += 1;
        }
        proof {
            assert(updates@.take(updates@.len() as int) =~= updates@);
            assert(self@ =~= base.union_prefer_right(entries_map(updates@)));
        }
    }

    /// The record of one service, if it was ever probed.
    pub fn get<'a>(&'a self, name: &str) -> (r: Option<&'a ServiceHealthInfo>)
        requires
            self.wf(),
        ensures
            match r {
                Some(info) => self@.dom().contains(name@) && self@[name@] == info@,
                None => !self@.dom().contains(name@),
            },
    {
        let key = name.to_owned();
        let mut i: usize = 0;
        while i < self.entries.len()
            invariant
                self.wf(),
                key@ == name@,
                i <= self.entries@.len(),
                forall|k: int| 0 <= k < i ==> self.entries@[k].0@ != name@,
            decreases self.entries@.len() - i,
        {
            if self.entries[i].0 == key {
                proof {
                    lemma_entries_map_index(self.entries@, i as int);
                }
                return Some(&self.entries[i].1);
            }
            i += 1;
        }
        proof {
            lemma_entries_map_dom(self.entries@);
        }
        None
    }

    /// A consistent point-in-time snapshot of every record.
    pub fn get_all(&self) -> (r: Vec<(String, ServiceHealthInfo)>)
        requires
            self.wf(),
        ensures
            unique_keys(r@),
            entries_map(r@) == self@,
    {
        let mut r: Vec<(String, ServiceHealthInfo)> = Vec::new();
        let mut i: usize = 0;
        while i < self.entries.len()
            invariant
                i <= self.entries@.len(),
                r@ == self.entries@.take(i as int),
            decreases self.entries@.len() - i,
        {
            let name = self.entries[i].0.clone();
            let info = self.entries[i].1.duplicate();
            r.push((name, info));
            proof {
                assert(self.entries@.take(i + 1).drop_last() =~= self.entries@.take(i as int));
                assert(r@ =~= self.entries@.take(i + 1));
            }
            i += 1;
        }
        proof {
            assert(self.entries@.take(self.entries@.len() as int) =~= self.entries@);
        }
        r
    }
}

} // verus!
