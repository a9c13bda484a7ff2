//! The metadata of a report, a mapping from field names to text values.

use vstd::prelude::*;
use crate::text::same_text;

verus! {

/// Key-value pairs as the specifications see them: each key and each value by
/// its characters.
pub open spec fn pairs_view(v: Seq<(String, String)>) -> Seq<(Seq<char>, Seq<char>)> {
    Seq::new(v.len(), |i: int| (v[i].0@, v[i].1@))
}

/// The mapping that a list of pairs stands for. Where a key occurs more than
/// once, its last value counts.
pub open spec fn pairs_map(pairs: Seq<(Seq<char>, Seq<char>)>) -> Map<Seq<char>, Seq<char>>
    decreases pairs.len(),
{
    if pairs.len() == 0 {
        Map::empty()
    } else {
        pairs_map(pairs.drop_last()).insert(pairs.last().0, pairs.last().1)
    }
}

/// Whether no key occurs twice in a list of pairs.
pub open spec fn distinct_keys(pairs: Seq<(Seq<char>, Seq<char>)>) -> bool {
    forall|i: int, j: int| 0 <= i < j < pairs.len() ==> (#[trigger] pairs[i]).0 != (
    #[trigger] pairs[j]).0
}

/// A key that occurs in no pair is no key of the mapping.
pub proof fn lemma_pairs_map_absent(pairs: Seq<(Seq<char>, Seq<char>)>, key: Seq<char>)
    requires
        forall|i: int| 0 <= i < pairs.len() ==> (#[trigger] pairs[i]).0 != key,
    ensures
        !pairs_map(pairs).dom().contains(key),
    decreases pairs.len(),
{
    if pairs.len() > 0 {
        assert(pairs.last().0 != key);
        lemma_pairs_map_absent(pairs.drop_last(), key);
    }
}

/// Where no key occurs twice, each pair's key maps to that pair's value.
pub proof fn lemma_pairs_map_lookup(pairs: Seq<(Seq<char>, Seq<char>)>, i: int)
    requires
        distinct_keys(pairs),
        0 <= i < pairs.len(),
    ensures
        pairs_map(pairs).dom().contains(pairs[i].0),
        pairs_map(pairs)[pairs[i].0] == pairs[i].1,
    decreases pairs.len(),
{
    if i < pairs.len() - 1 {
        assert(pairs.drop_last()[i] == pairs[i]);
        assert(pairs[i].0 != pairs[pairs.len() - 1].0);
        lemma_pairs_map_lookup(pairs.drop_last(), i);
    }
}

/// Where no key occurs twice, a new value in one pair is a new value under
/// that pair's key in the mapping.
proof fn lemma_pairs_map_update(pairs: Seq<(Seq<char>, Seq<char>)>, j: int, value: Seq<char>)
    requires
        distinct_keys(pairs),
        0 <= j < pairs.len(),
    ensures
        pairs_map(pairs.update(j, (pairs[j].0, value))) == pairs_map(pairs).insert(
            pairs[j].0,
            value,
        ),
    decreases pairs.len(),
{
    let updated = pairs.update(j, (pairs[j].0, value));
    if j == pairs.len() - 1 {
        assert(updated.drop_last() =~= pairs.drop_last());
        assert(pairs_map(updated) =~= pairs_map(pairs).insert(pairs[j].0, value));
    } else {
        assert(pairs.drop_last()[j] == pairs[j]);
        assert(updated.drop_last() =~= pairs.drop_last().update(j, (pairs[j].0, value)));
        assert(pairs[j].0 != pairs[pairs.len() - 1].0);
        lemma_pairs_map_update(pairs.drop_last(), j, value);
        assert(pairs_map(updated) =~= pairs_map(pairs).insert(pairs[j].0, value));
    }
}

/// The metadata of a report: a mapping from field names to text values.
pub struct ReportMetadata {
    entries: Vec<(String, String)>,
}

impl View for ReportMetadata {
    type V = Map<Seq<char>, Seq<char>>;

    closed spec fn view(&self) -> Map<Seq<char>, Seq<char>> {
        pairs_map(pairs_view(self.entries@))
    }
}

impl ReportMetadata {
    #[verifier::type_invariant]
    spec fn well_formed(&self) -> bool {
        distinct_keys(pairs_view(self.entries@))
    }

    /// Metadata without any field.
    pub fn new() -> (metadata: ReportMetadata)
        ensures
            metadata@ == Map::<Seq<char>, Seq<char>>::empty(),
    {
        ReportMetadata { entries: Vec::new() }
    }

    fn find(&self, key: &str) -> (i: usize)
        ensures
            i <= self.entries.len(),
            i < self.entries.len() ==> self.entries@[i as int].0@ == key@,
            forall|j: int| 0 <= j < i ==> (#[trigger] self.entries@[j]).0@ != key@,
    {
        let mut i: usize = 0;
        while i < self.entries.len()
            invariant
                i <= self.entries.len(),
                forall|j: int| 0 <= j < i ==> (#[trigger] self.entries@[j]).0@ != key@,
            decreases self.entries.len() - i,
        {
            if same_text(self.entries[i].0.as_str(), key) {
                return i;
            }
            i += 1;
        }
        i
    }

    /// Whether the metadata has the field `key`.
    pub fn contains_key(&self, key: &str) -> (found: bool)
        ensures
            found == self@.dom().contains(key@),
    {
        let i = self.find(key);
        proof {
            use_type_invariant(self);
            let pairs = pairs_view(self.entries@);
            if i < self.entries.len() {
                lemma_pairs_map_lookup(pairs, i as int);
            } else {
                assert forall|j: int| 0 <= j < pairs.len() implies (#[trigger] pairs[j]).0
                    != key@ by {
                    assert(self.entries@[j].0@ != key@);
                }
                lemma_pairs_map_absent(pairs, key@);
            }
        }
        i < self.entries.len()
    }

    /// The value of the field `key`, if the metadata has that field.
    pub fn get(&self, key: &str) -> (value: Option<&String>)
        ensures
            value is Some == self@.dom().contains(key@),
            value matches Some(v) ==> v@ == self@[key@],
    {
        let i = self.find(key);
        proof {
            use_type_invariant(self);
            let pairs = pairs_view(self.entries@);
            if i < self.entries.len() {
                lemma_pairs_map_lookup(pairs, i as int);
            } else {
                assert forall|j: int| 0 <= j < pairs.len() implies (#[trigger] pairs[j]).0
                    != key@ by {
                    assert(self.entries@[j].0@ != key@);
                }
                lemma_pairs_map_absent(pairs, key@);
            }
        }
        if i < self.entries.len() {
            Some(&self.entries[i].1)
        } else {
            None
        }
    }

    /// Sets the field `key` to `value`, whether or not the metadata had it.
    pub fn insert(&mut self, key: String, value: String)
        ensures
            final(self)@ == old(self)@.insert(key@, value@),
    {
        let i = self.find(key.as_str());
        proof {
            use_type_invariant(&*self);
        }
        let ghost before = pairs_view(self.entries@);
        let mut taken = ReportMetadata { entries: Vec::new() };
        core::mem::swap(self, &mut taken);
        let mut entries = taken.entries;
        if i < entries.len() {
            entries.set(i, (key, value));
            proof {
                lemma_pairs_map_update(before, i as int, value@);
                assert(pairs_view(entries@) =~= before.update(
                    i as int,
                    (before[i as int].0, value@),
                ));
            }
        } else {
            entries.push((key, value));
            proof {
                let after = pairs_view(entries@);
                assert(after.drop_last() =~= before);
                assert forall|a: int, b: int| 0 <= a < b < after.len() implies (
                #[trigger] after[a]).0 != (#[trigger] after[b]).0 by {
                    if b == after.len() - 1 {
                        assert(old(self).entries@[a].0@ != key@);
                    } else {
                        assert(before[a].0 != before[b].0);
                    }
                }
            }
        }
        *self = ReportMetadata { entries };
    }

    /// Whether the metadata has no field at all.
    pub fn is_empty(&self) -> (empty: bool)
        ensures
            empty == (self@ == Map::<Seq<char>, Seq<char>>::empty()),
    {
        proof {
            if self.entries@.len() > 0 {
                let pairs = pairs_view(self.entries@);
                assert(pairs_map(pairs).dom().contains(pairs.last().0));
            }
        }
        self.entries.len() == 0
    }

    /// The metadata that a list of pairs stands for. Where a key occurs more
    /// than once, its last value counts.
    pub fn from_pairs(pairs: &Vec<(String, String)>) -> (metadata: ReportMetadata)
        ensures
            metadata@ == pairs_map(pairs_view(pairs@)),
    {
        let mut metadata = ReportMetadata::new();
        let mut i: usize = 0;
        assert(pairs_view(pairs@).take(0) =~= Seq::empty());
        while i < pairs.len()
            invariant
                i <= pairs.len(),
                metadata@ == pairs_map(pairs_view(pairs@).take(i as int)),
            decreases pairs.len() - i,
        {
            let key = pairs[i].0.clone();
            let value = pairs[i].1.clone();
            metadata.insert(key, value);
            proof {
                let all = pairs_view(pairs@);
                assert(all.take(i + 1).drop_last() =~= all.take(i as int));
                assert(all.take(i + 1).last() == (key@, value@));
            }
            i += 1;
        }
        assert(pairs_view(pairs@).take(pairs.len() as int) =~= pairs_view(pairs@));
        metadata
    }

    /// The fields as a list of pairs, each key once.
    pub fn to_pairs(&self) -> (pairs: Vec<(String, String)>)
        ensures
            distinct_keys(pairs_view(pairs@)),
            pairs_map(pairs_view(pairs@)) == self@,
    {
        let mut pairs: Vec<(String, String)> = Vec::new();
        let mut i: usize = 0;
        while i < self.entries.len()
            invariant
                i <= self.entries.len(),
                pairs.len() == i,
                pairs_view(pairs@) == pairs_view(self.entries@).take(i as int),
            decreases self.entries.len() - i,
        {
            let key = self.entries[i].0.clone();
            let value = self.entries[i].1.clone();
            let ghost before = pairs@;
            pairs.push((key, value));
            proof {
                let copied = pairs_view(pairs@);
                let kept = pairs_view(self.entries@).take(i + 1);
                assert forall|j: int| 0 <= j < copied.len() implies copied[j] == kept[j] by {
                    if j < i {
                        assert(pairs@[j] == before[j]);
                        assert(pairs_view(before)[j] == pairs_view(self.entries@).take(i as int)[j]);
                    }
                }
                assert(copied =~= kept);
            }
            i += 1;
        }
        proof {
            use_type_invariant(self);
            assert(pairs_view(self.entries@).take(self.entries.len() as int) =~= pairs_view(
                self.entries@,
            ));
        }
        pairs
    }
}

} // verus!
