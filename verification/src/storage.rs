//! The metrics store: one value per store name and metric identifier.

use vstd::prelude::*;
use vstd::string::*;
use crate::common_metric_data::{CommonMetricData, CommonMetricDataView};
use crate::metrics::Metric;

verus! {

/// The place of one value: a store's name and a metric's identifier.
pub struct StoreKey {
    pub store_name: Seq<char>,
    pub identifier: Seq<char>,
}

impl CommonMetricDataView {
    /// Whether a value of this metric is kept at `key`.
    pub open spec fn records_at(self, key: StoreKey) -> bool {
        key.identifier == self.identifier() && self.send_in_pings.contains(key.store_name)
    }
}

/// One value together with its place.
struct StoredMetric {
    store_name: String,
    identifier: String,
    value: Metric,
}

impl StoredMetric {
    spec fn key(self) -> StoreKey {
        StoreKey { store_name: self.store_name@, identifier: self.identifier@ }
    }
}

/// An in-memory metrics store.
///
/// The entries are searched from the front, and the first entry at a place is
/// the one that counts. A write replaces that entry's value and appends only
/// where the place holds nothing, so the map that the store stands for rests
/// on no further condition on the entries.
pub struct Storage {
    entries: Vec<StoredMetric>,
}

impl View for Storage {
    type V = Map<StoreKey, Metric>;

    closed spec fn view(&self) -> Map<StoreKey, Metric> {
        Map::new(
            |key: StoreKey| self.holds(key),
            |key: StoreKey| self.entries[self.position(key)].value,
        )
    }
}

impl Storage {
    /// Whether entry `i` is the first one at `key`.
    spec fn first_at(self, key: StoreKey, i: int) -> bool {
        &&& 0 <= i < self.entries.len()
        &&& self.entries[i].key() == key
        &&& forall|j: int| 0 <= j < i ==> self.entries[j].key() != key
    }

    spec fn holds(self, key: StoreKey) -> bool {
        exists|i: int| self.first_at(key, i)
    }

    spec fn position(self, key: StoreKey) -> int {
        choose|i: int| self.first_at(key, i)
    }

    /// At most one entry is the first one at a place.
    proof fn first_at_is_unique(self, key: StoreKey, i: int, j: int)
        requires
            self.first_at(key, i),
            self.first_at(key, j),
        ensures
            i == j,
    {
    }

    /// A store that holds nothing.
    pub fn new() -> (storage: Storage)
        ensures
            storage@ == Map::<StoreKey, Metric>::empty(),
    {
        Storage { entries: Vec::new() }
    }

    /// Where the value at the given place sits, if the store holds one.
    fn find(&self, store_name: &String, identifier: &String) -> (found: Option<usize>)
        ensures
            match found {
                Some(i) => self.first_at(
                    StoreKey { store_name: store_name@, identifier: identifier@ },
                    i as int,
                ),
                None => !self.holds(StoreKey { store_name: store_name@, identifier: identifier@ }),
            },
    {
        let mut i: usize = 0;
        while i < self.entries.len()
            invariant
                i <= self.entries.len(),
                forall|j: int|
                    0 <= j < i ==> self.entries[j].key() != (StoreKey {
                        store_name: store_name@,
                        identifier: identifier@,
                    }),
            decreases self.entries.len() - i,
        {
            if self.entries[i].store_name == *store_name && self.entries[i].identifier
                == *identifier {
                return Some(i);
            }
            i += 1;
        }
        None
    }

    /// The value at the given place, if the store holds one.
    fn get(&self, store_name: &String, identifier: &String) -> (value: Option<Metric>)
        ensures
            value == self@.get(StoreKey { store_name: store_name@, identifier: identifier@ }),
    {
        match self.find(store_name, identifier) {
            Some(i) => {
                proof {
                    let key = StoreKey { store_name: store_name@, identifier: identifier@ };
                    self.first_at_is_unique(key, self.position(key), i as int);
                }
                Some(self.entries[i].value)
            },
            None => None,
        }
    }

    /// The value that the store named `store_name` holds for the metric
    /// `identifier`, if it holds one. The store is left as it is.
    pub fn snapshot_metric(&self, store_name: &str, identifier: &str) -> (value: Option<Metric>)
        ensures
            value == self@.get(StoreKey { store_name: store_name@, identifier: identifier@ }),
    {
        let store_name = store_name.to_owned();
        let identifier = identifier.to_owned();
        self.get(&store_name, &identifier)
    }

    /// Replacing the value of the first entry at `key` updates the map at `key`.
    proof fn replaced_value_is_insert(self, after: Storage, key: StoreKey, i: int, value: Metric)
        requires
            self.first_at(key, i),
            after.entries.len() == self.entries.len(),
            forall|j: int|
                0 <= j < self.entries.len() ==> #[trigger] after.entries[j].key()
                    == self.entries[j].key(),
            forall|j: int|
                0 <= j < self.entries.len() && j != i ==> #[trigger] after.entries[j].value
                    == self.entries[j].value,
            after.entries[i].value == value,
        ensures
            after@ == self@.insert(key, value),
    {
        assert forall|k: StoreKey, j: int| after.first_at(k, j) == self.first_at(k, j) by {
            if after.first_at(k, j) {
                assert(forall|l: int| 0 <= l < j ==> self.entries[l].key() == after.entries[l].key());
            }
        }
    }

    /// Appending an entry at a place that holds nothing adds that place to the map.
    proof fn appended_entry_is_insert(self, after: Storage, entry: StoredMetric)
        requires
            !self.holds(entry.key()),
            after.entries@ == self.entries@.push(entry),
        ensures
            after@ == self@.insert(entry.key(), entry.value),
    {
        let key = entry.key();
        let n = self.entries.len() as int;
        assert forall|j: int| 0 <= j < n implies self.entries[j].key() != key by {
            if self.entries[j].key() == key {
                self.some_entry_means_holds(key, j);
            }
        }
        assert(after.first_at(key, n));
        assert forall|k: StoreKey, j: int| k != key implies after.first_at(k, j) == self.first_at(
            k,
            j,
        ) by {
            if after.first_at(k, j) {
                assert(forall|l: int| 0 <= l < j ==> self.entries[l].key() == after.entries[l].key());
            }
        }
        after.first_at_is_unique(key, after.position(key), n);
    }

    /// An entry at `key` anywhere means that a first one exists.
    proof fn some_entry_means_holds(self, key: StoreKey, i: int)
        requires
            0 <= i < self.entries.len(),
            self.entries[i].key() == key,
        ensures
            self.holds(key),
        decreases i,
    {
        if exists|j: int| 0 <= j < i && self.entries[j].key() == key {
            let j = choose|j: int| 0 <= j < i && self.entries[j].key() == key;
            self.some_entry_means_holds(key, j);
        } else {
            assert(self.first_at(key, i));
        }
    }

    /// Puts `value` at the given place, over whatever was there.
    fn put(&mut self, store_name: &String, identifier: &String, value: Metric)
        ensures
            final(self)@ == old(self)@.insert(
                StoreKey { store_name: store_name@, identifier: identifier@ },
                value,
            ),
    {
        let ghost key = StoreKey { store_name: store_name@, identifier: identifier@ };
        match self.find(store_name, identifier) {
            Some(i) => {
                self.entries[i].value = value;
                proof {
                    old(self).replaced_value_is_insert(*self, key, i as int, value);
                }
            },
            None => {
                let entry = StoredMetric {
                    store_name: store_name.clone(),
                    identifier: identifier.clone(),
                    value,
                };
                self.entries.push(entry);
                proof {
                    old(self).appended_entry_is_insert(*self, entry);
                }
            },
        }
    }

    /// Replaces the value of `meta`'s metric in every store that `meta` names:
    /// each such store gets what `transform` makes of the value it held, or of
    /// `None` where it held none. Every other place keeps what it has.
    pub fn record_with<F: Fn(Option<Metric>) -> Metric>(
        &mut self,
        meta: &CommonMetricData,
        transform: F,
    )
        requires
            forall|key: StoreKey|
                meta@.records_at(key) ==> transform.requires((#[trigger] old(self)@.get(key),)),
        ensures
            forall|key: StoreKey|
                meta@.records_at(key) ==> #[trigger] final(self)@.contains_key(key),
            forall|key: StoreKey|
                meta@.records_at(key) ==> transform.ensures(
                    (old(self)@.get(key),),
                    #[trigger] final(self)@[key],
                ),
            forall|key: StoreKey|
                !meta@.records_at(key) ==> #[trigger] final(self)@.get(key) == old(self)@.get(key),
    {
        let identifier = meta.identifier();
        let ghost names = meta@.send_in_pings;
        let mut i: usize = 0;
        while i < meta.send_in_pings.len()
            invariant
                i <= meta.send_in_pings.len(),
                names == meta@.send_in_pings,
                identifier@ == meta@.identifier(),
                forall|key: StoreKey|
                    meta@.records_at(key) ==> transform.requires((#[trigger] old(self)@.get(key),)),
                forall|key: StoreKey|
                    written(names, identifier@, i as int, key) ==> #[trigger] self@.contains_key(
                        key,
                    ),
                forall|key: StoreKey|
                    written(names, identifier@, i as int, key) ==> transform.ensures(
                        (old(self)@.get(key),),
                        #[trigger] self@[key],
                    ),
                forall|key: StoreKey|
                    !written(names, identifier@, i as int, key) ==> #[trigger] self@.get(key)
                        == old(self)@.get(key),
            decreases meta.send_in_pings.len() - i,
        {
            let store_name = &meta.send_in_pings[i];
            let ghost key = StoreKey { store_name: store_name@, identifier: identifier@ };
            let ghost before = self@;
            proof {
                written_next(names, identifier@, i as int);
            }
            if !occurs_before(&meta.send_in_pings, i) {
                let old_value = self.get(store_name, &identifier);
                let new_value = transform(old_value);
                self.put(store_name, &identifier, new_value);
                assert forall|k: StoreKey|
                    !written(names, identifier@, i as int + 1, k) implies #[trigger] self@.get(k)
                    == old(self)@.get(k) by {
                    assert(before.get(k) == old(self)@.get(k));
                }
            } else {
                assert(written(names, identifier@, i as int, key)) by {
                    let j = choose|j: int|
                        0 <= j < i && meta.send_in_pings[j]@ == meta.send_in_pings[i as int]@;
                    assert(names.take(i as int)[j] == store_name@);
                }
            }
            i += 1;
        }
        assert(names.take(i as int) =~= names);
    }
}

/// Whether the loop over `names` has, before index `i`, written the place `key`
/// of the metric `identifier`.
spec fn written(names: Seq<Seq<char>>, identifier: Seq<char>, i: int, key: StoreKey) -> bool {
    key.identifier == identifier && names.take(i).contains(key.store_name)
}

/// One more step writes the place of the name at `i` and no other new one.
proof fn written_next(names: Seq<Seq<char>>, identifier: Seq<char>, i: int)
    requires
        0 <= i < names.len(),
    ensures
        forall|key: StoreKey| #[trigger]
            written(names, identifier, i + 1, key) <==> written(names, identifier, i, key) || key
                == (StoreKey { store_name: names[i], identifier }),
{
    let seen = names.take(i);
    let next = names.take(i + 1);
    assert(next =~= seen.push(names[i]));
    assert forall|key: StoreKey| #[trigger]
        written(names, identifier, i + 1, key) <==> written(names, identifier, i, key) || key
            == (StoreKey { store_name: names[i], identifier }) by {
        if seen.contains(key.store_name) {
            let j = choose|j: int| 0 <= j < seen.len() && seen[j] == key.store_name;
            assert(next[j] == key.store_name);
        }
        assert(next[i] == names[i]);
    }
}

/// Whether the name at `i` also stands at an earlier index.
fn occurs_before(names: &Vec<String>, i: usize) -> (found: bool)
    requires
        i < names.len(),
    ensures
        found == exists|j: int| 0 <= j < i && names[j]@ == names[i as int]@,
{
    let mut j: usize = 0;
    while j < i
        invariant
            j <= i < names.len(),
            forall|l: int| 0 <= l < j ==> names[l]@ != names[i as int]@,
        decreases i - j,
    {
        if names[j] == names[i] {
            return true;
        }
        j += 1;
    }
    false
}

} // verus!
